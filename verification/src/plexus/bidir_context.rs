//! The earlier, context-trait based bidirectional API: its error type,
//! request and response payloads, timeout presets per request type, and
//! the decisions of its convenience and fallback helpers.

use vstd::prelude::*;
use std::time::Duration;
use serde_json::Value;
use tokio::sync::oneshot::Sender;
use crate::foreign::{debug_text, duration_from_secs, seconds};
use crate::text::{concat2, concat3};
use super::bidirectional::types::SelectOption;
use super::bidirectional::registry::PendingRegistry;

verus! {

/// Error type for bidirectional operations.
#[derive(Debug, Clone)]
pub enum BidirError {
    /// Client cancelled the request
    Cancelled,
    /// Request timed out waiting for response
    Timeout,
    /// Transport doesn't support bidirectional
    NotSupported,
    /// Response type doesn't match request type
    TypeMismatch { expected: String, got: String },
    /// Transport error
    Transport(String),
}

/// The text an error displays as.
pub open spec fn error_text(e: BidirError) -> Seq<char> {
    match e {
        BidirError::Cancelled => "Request cancelled"@,
        BidirError::Timeout => "Request timed out"@,
        BidirError::NotSupported => "Bidirectional not supported"@,
        BidirError::TypeMismatch { expected, got } =>
            "Type mismatch: expected "@ + expected@ + ", got "@ + got@,
        BidirError::Transport(msg) => "Transport error: "@ + msg@,
    }
}

impl BidirError {
    /// The error's display text.
    pub fn to_string(&self) -> (s: String)
        ensures
            s@ == error_text(*self),
    {
        match self {
            BidirError::Cancelled => String::from_str("Request cancelled"),
            BidirError::Timeout => String::from_str("Request timed out"),
            BidirError::NotSupported => String::from_str("Bidirectional not supported"),
            BidirError::TypeMismatch { expected, got } => {
                let head = concat3("Type mismatch: expected ", expected.as_str(), ", got ");
                concat2(head.as_str(), got.as_str())
            },
            BidirError::Transport(msg) => concat2("Transport error: ", msg.as_str()),
        }
    }
}

/// The user-friendly message of each error.
pub open spec fn friendly_text(e: BidirError) -> Seq<char> {
    match e {
        BidirError::Cancelled => "Operation cancelled by user"@,
        BidirError::Timeout => "Timed out waiting for response"@,
        BidirError::NotSupported => "Interactive mode not supported"@,
        BidirError::TypeMismatch { expected, got } =>
            "Expected "@ + expected@ + " response, got "@ + got@,
        BidirError::Transport(msg) => "Communication error: "@ + msg@,
    }
}

/// Convert BidirError to a user-friendly message.
pub fn bidir_error_message(error: &BidirError) -> (m: String)
    ensures
        m@ == friendly_text(*error),
{
    match error {
        BidirError::Cancelled => String::from_str("Operation cancelled by user"),
        BidirError::Timeout => String::from_str("Timed out waiting for response"),
        BidirError::NotSupported => String::from_str("Interactive mode not supported"),
        BidirError::TypeMismatch { expected, got } => {
            let head = concat3("Expected ", expected.as_str(), " response, got ");
            concat2(head.as_str(), got.as_str())
        },
        BidirError::Transport(msg) => concat2("Communication error: ", msg.as_str()),
    }
}

/// What the server asks of the client.
#[derive(Debug, Clone)]
pub enum RequestType {
    /// Yes/no confirmation.
    Confirm { message: String, default: Option<bool> },
    /// Text input.
    Prompt { message: String, default: Option<String>, placeholder: Option<String> },
    /// Choice among options.
    Select { message: String, options: Vec<SelectOption>, multi_select: bool },
    /// Application-defined request.
    Custom { data: Value },
}

/// What the client answered.
#[derive(Debug, Clone)]
pub enum ResponsePayload {
    /// Answer to a confirmation.
    Confirmed(bool),
    /// Answer to a prompt.
    Text(String),
    /// Answer to a selection.
    Selected(Vec<String>),
    /// The client cancelled.
    Cancelled,
    /// The client timed out.
    Timeout,
}

/// A client's response to a server request.
#[derive(Debug, Clone)]
pub struct ClientResponse {
    /// Request ID this response correlates to.
    pub request_id: String,
    /// The response payload.
    pub payload: ResponsePayload,
}

/// Configure timeouts for different request types.
#[derive(Debug, Clone, Copy)]
pub struct TimeoutConfig {
    pub confirm: Duration,
    pub prompt: Duration,
    pub select: Duration,
    pub custom: Duration,
}

/// The timeouts of `c`, in seconds, are `a`, `b`, `s` and `d` for
/// confirmations, prompts, selections and custom requests.
pub open spec fn timeouts_are(c: TimeoutConfig, a: u64, b: u64, s: u64, d: u64) -> bool {
    &&& c.confirm == seconds(a)
    &&& c.prompt == seconds(b)
    &&& c.select == seconds(s)
    &&& c.custom == seconds(d)
}

impl TimeoutConfig {
    fn of_secs(a: u64, b: u64, s: u64, d: u64) -> (c: Self)
        ensures
            timeouts_are(c, a, b, s, d),
    {
        TimeoutConfig {
            confirm: duration_from_secs(a),
            prompt: duration_from_secs(b),
            select: duration_from_secs(s),
            custom: duration_from_secs(d),
        }
    }

    /// Short timeouts: 10 s to confirm, 30 s to prompt, 20 s to select,
    /// 60 s for custom requests.
    pub fn quick() -> (c: Self)
        ensures
            timeouts_are(c, 10, 30, 20, 60),
    {
        Self::of_secs(10, 30, 20, 60)
    }

    /// Long timeouts: 120 s to confirm, 300 s to prompt, 180 s to select,
    /// 600 s for custom requests.
    pub fn patient() -> (c: Self)
        ensures
            timeouts_are(c, 120, 300, 180, 600),
    {
        Self::of_secs(120, 300, 180, 600)
    }

    /// The timeout for a request of the given type.
    pub fn for_request_type(&self, request_type: &RequestType) -> (d: Duration)
        ensures
            d == match *request_type {
                RequestType::Confirm { .. } => self.confirm,
                RequestType::Prompt { .. } => self.prompt,
                RequestType::Select { .. } => self.select,
                RequestType::Custom { .. } => self.custom,
            },
    {
        match request_type {
            RequestType::Confirm { .. } => self.confirm,
            RequestType::Prompt { .. } => self.prompt,
            RequestType::Select { .. } => self.select,
            RequestType::Custom { .. } => self.custom,
        }
    }
}

impl Default for TimeoutConfig {
    /// 30 s to confirm, 60 s to prompt, 45 s to select, 120 s for custom
    /// requests.
    fn default() -> (c: Self)
        ensures
            timeouts_are(c, 30, 60, 45, 120),
    {
        Self::of_secs(30, 60, 45, 120)
    }
}

// ============================================================================
// Convenience decisions
// ============================================================================

/// The result of a confirmation from the client's payload.
pub fn confirm_reply(payload: ResponsePayload) -> (r: Result<bool, BidirError>)
    ensures
        match payload {
            ResponsePayload::Confirmed(v) => r == Ok::<bool, BidirError>(v),
            ResponsePayload::Cancelled => r matches Err(BidirError::Cancelled),
            ResponsePayload::Timeout => r matches Err(BidirError::Timeout),
            _ => r matches Err(BidirError::TypeMismatch { expected, .. })
                && expected@ == "Confirmed"@,
        },
{
    match payload {
        ResponsePayload::Confirmed(v) => Ok(v),
        ResponsePayload::Cancelled => Err(BidirError::Cancelled),
        ResponsePayload::Timeout => Err(BidirError::Timeout),
        _ => Err(BidirError::TypeMismatch {
            expected: String::from_str("Confirmed"),
            got: debug_text(&payload),
        }),
    }
}

/// The result of a text prompt from the client's payload.
pub fn prompt_reply(payload: ResponsePayload) -> (r: Result<String, BidirError>)
    ensures
        match payload {
            ResponsePayload::Text(s) => r == Ok::<String, BidirError>(s),
            ResponsePayload::Cancelled => r matches Err(BidirError::Cancelled),
            ResponsePayload::Timeout => r matches Err(BidirError::Timeout),
            _ => r matches Err(BidirError::TypeMismatch { expected, .. })
                && expected@ == "Text"@,
        },
{
    match payload {
        ResponsePayload::Text(s) => Ok(s),
        ResponsePayload::Cancelled => Err(BidirError::Cancelled),
        ResponsePayload::Timeout => Err(BidirError::Timeout),
        _ => Err(BidirError::TypeMismatch {
            expected: String::from_str("Text"),
            got: debug_text(&payload),
        }),
    }
}

/// The result of a selection from the client's payload: the first
/// selection, or `Cancelled` when nothing was selected.
pub fn select_reply(payload: ResponsePayload) -> (r: Result<String, BidirError>)
    ensures
        match payload {
            ResponsePayload::Selected(v) => if v@.len() > 0 {
                r == Ok::<String, BidirError>(v@[0])
            } else {
                r matches Err(BidirError::Cancelled)
            },
            ResponsePayload::Cancelled => r matches Err(BidirError::Cancelled),
            ResponsePayload::Timeout => r matches Err(BidirError::Timeout),
            _ => r matches Err(BidirError::TypeMismatch { expected, .. })
                && expected@ == "Selected"@,
        },
{
    match payload {
        ResponsePayload::Selected(mut v) => if v.len() > 0 {
            Ok(v.remove(0))
        } else {
            Err(BidirError::Cancelled)
        },
        ResponsePayload::Cancelled => Err(BidirError::Cancelled),
        ResponsePayload::Timeout => Err(BidirError::Timeout),
        _ => Err(BidirError::TypeMismatch {
            expected: String::from_str("Selected"),
            got: debug_text(&payload),
        }),
    }
}

/// Fallback values for when bidirectional communication is not supported.
#[derive(Debug, Clone)]
pub struct FallbackPolicy {
    /// The answer to confirmations when the transport cannot ask.
    pub auto_confirm: bool,
    /// The answer to prompts when the transport cannot ask.
    pub default_text: Option<String>,
}

impl FallbackPolicy {
    /// No automatic confirmation and no default text.
    pub fn new() -> (p: Self)
        ensures
            !p.auto_confirm,
            p.default_text is None,
    {
        FallbackPolicy { auto_confirm: false, default_text: None }
    }

    /// Confirm automatically when the transport cannot ask.
    pub fn auto_confirm(self) -> (p: Self)
        ensures
            p.auto_confirm,
            p.default_text == self.default_text,
    {
        FallbackPolicy { auto_confirm: true, default_text: self.default_text }
    }

    /// Answer prompts with `default` when the transport cannot ask.
    pub fn with_default(self, default: String) -> (p: Self)
        ensures
            p.auto_confirm == self.auto_confirm,
            p.default_text == Some(default),
    {
        FallbackPolicy { auto_confirm: self.auto_confirm, default_text: Some(default) }
    }

    /// A confirmation's value: the answer when confirmed, the automatic
    /// answer when unsupported, and `false` in every other case.
    pub fn confirm(&self, outcome: Result<ResponsePayload, BidirError>) -> (b: bool)
        ensures
            b == match outcome {
                Ok(ResponsePayload::Confirmed(v)) => v,
                Err(BidirError::NotSupported) => self.auto_confirm,
                _ => false,
            },
    {
        match outcome {
            Ok(ResponsePayload::Confirmed(v)) => v,
            Err(BidirError::NotSupported) => self.auto_confirm,
            _ => false,
        }
    }

    /// A prompt's text: the answer when given, the default text when
    /// unsupported, and nothing in every other case.
    pub fn prompt(&self, outcome: Result<ResponsePayload, BidirError>) -> (t: Option<String>)
        ensures
            t == match outcome {
                Ok(ResponsePayload::Text(s)) => Some(s),
                Err(BidirError::NotSupported) => self.default_text,
                _ => None::<String>,
            },
    {
        match outcome {
            Ok(ResponsePayload::Text(s)) => Some(s),
            Err(BidirError::NotSupported) => self.default_text.clone(),
            _ => None,
        }
    }
}

// ============================================================================
// Channel decisions
// ============================================================================

/// How a request ends after waiting: the payload, a transport error when
/// the response channel was dropped, or a timeout.
pub fn settle_response(outcome: super::bidirectional::channel::WaitOutcome<ResponsePayload>) -> (r: Result<ResponsePayload, BidirError>)
    ensures
        match outcome {
            super::bidirectional::channel::WaitOutcome::Answered(p) => r == Ok::<ResponsePayload, BidirError>(p),
            super::bidirectional::channel::WaitOutcome::Closed => r matches Err(BidirError::Transport(m))
                && m@ == "Response channel dropped"@,
            super::bidirectional::channel::WaitOutcome::Elapsed => r matches Err(BidirError::Timeout),
        },
{
    match outcome {
        super::bidirectional::channel::WaitOutcome::Answered(p) => Ok(p),
        super::bidirectional::channel::WaitOutcome::Closed => Err(BidirError::Transport(
            String::from_str("Response channel dropped"),
        )),
        super::bidirectional::channel::WaitOutcome::Elapsed => Err(BidirError::Timeout),
    }
}

/// How a request of a channel-based context ends: whether its pending
/// entry is still to be removed, and the result the requester gets.
#[derive(Debug)]
pub struct LegacyRequestEnd {
    pub unregister: bool,
    pub result: Result<ResponsePayload, BidirError>,
}

/// The end of a request of a channel-based context. An answered request
/// was already taken out of the pending map; otherwise its entry is
/// removed and the result is `Transport("Stream channel closed")` when
/// the request could not be sent, `Transport("Response channel dropped")`
/// when the response channel closed, and `Timeout` when the wait elapsed.
pub fn end_legacy_request(
    event: super::bidirectional::channel::RequestEvent<ResponsePayload>,
) -> (e: LegacyRequestEnd)
    ensures
        match event {
            super::bidirectional::channel::RequestEvent::SendFailed(_) => e.result matches Err(BidirError::Transport(m))
                && m@ == "Stream channel closed"@
                && e.unregister,
            super::bidirectional::channel::RequestEvent::Waited(outcome) => match outcome {
                super::bidirectional::channel::WaitOutcome::Answered(p) => !e.unregister
                    && e.result == Ok::<ResponsePayload, BidirError>(p),
                super::bidirectional::channel::WaitOutcome::Closed => e.result matches Err(BidirError::Transport(m))
                    && m@ == "Response channel dropped"@
                    && e.unregister,
                super::bidirectional::channel::WaitOutcome::Elapsed => e.result matches Err(BidirError::Timeout)
                    && e.unregister,
            },
        },
{
    match event {
        super::bidirectional::channel::RequestEvent::SendFailed(_) => LegacyRequestEnd {
            unregister: true,
            result: Err(BidirError::Transport(String::from_str("Stream channel closed"))),
        },
        super::bidirectional::channel::RequestEvent::Waited(outcome) => {
            let answered = match outcome {
                super::bidirectional::channel::WaitOutcome::Answered(_) => true,
                _ => false,
            };
            LegacyRequestEnd { unregister: !answered, result: settle_response(outcome) }
        },
    }
}

/// Take the request that a client's response answers out of the pending
/// map: the entry is removed, and its sender is returned together with
/// exactly the response's payload, which the caller then sends through it.
/// A response for no pending request is a transport error naming the ID.
pub fn take_response_target(
    pending: &mut PendingRegistry<Sender<ResponsePayload>>,
    response: ClientResponse,
) -> (r: Result<(Sender<ResponsePayload>, ResponsePayload), BidirError>)
    requires
        old(pending).wf(),
    ensures
        final(pending).wf(),
        final(pending)@ == old(pending)@.remove(response.request_id@),
        match r {
            Ok((sender, payload)) => old(pending)@.contains_key(response.request_id@)
                && sender == old(pending)@[response.request_id@]
                && payload == response.payload,
            Err(e) => e matches BidirError::Transport(m)
                && m@ == "No pending request with ID: "@ + response.request_id@
                && !old(pending)@.contains_key(response.request_id@),
        },
{
    match pending.remove(response.request_id.as_str()) {
        Some(tx) => Ok((tx, response.payload)),
        None => Err(BidirError::Transport(
            concat2("No pending request with ID: ", response.request_id.as_str()),
        )),
    }
}

} // verus!
