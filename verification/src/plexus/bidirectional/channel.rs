//! The decisions of a bidirectional channel: when a request may be made,
//! how the wait for a response ends, how a standard response answers a
//! confirmation, prompt or selection, and the automatic answers that
//! fallback and test channels give.
//!
//! The channel itself (stream sender, timers, one-shot response channels)
//! lives with the async runtime; it consults these functions.

use vstd::prelude::*;
use serde_json::Value;
use crate::foreign::{debug_text, json_null};
use crate::text::concat2;
use super::types::{BidirError, StandardRequest, StandardResponse};

verus! {

/// How the wait for a response ended.
#[derive(Debug)]
pub enum WaitOutcome<R> {
    /// The response arrived.
    Answered(R),
    /// The response channel closed before a response arrived.
    Closed,
    /// The timeout elapsed first.
    Elapsed,
}

/// A request may only be made when the transport supports bidirectional
/// communication; otherwise it fails at once with `NotSupported`.
pub fn check_supported(bidirectional_supported: bool) -> (r: Result<(), BidirError>)
    ensures
        bidirectional_supported <==> r is Ok,
        !bidirectional_supported ==> r matches Err(BidirError::NotSupported),
{
    if bidirectional_supported {
        Ok(())
    } else {
        Err(BidirError::NotSupported)
    }
}

/// The result of a request after waiting `timeout_ms` milliseconds: the
/// response, `ChannelClosed`, or `Timeout(timeout_ms)`.
pub fn settle_wait<R>(outcome: WaitOutcome<R>, timeout_ms: u64) -> (r: Result<R, BidirError>)
    ensures
        match outcome {
            WaitOutcome::Answered(v) => r == Ok::<R, BidirError>(v),
            WaitOutcome::Closed => r matches Err(BidirError::ChannelClosed),
            WaitOutcome::Elapsed => r matches Err(BidirError::Timeout(ms)) && ms == timeout_ms,
        },
{
    match outcome {
        WaitOutcome::Answered(v) => Ok(v),
        WaitOutcome::Closed => Err(BidirError::ChannelClosed),
        WaitOutcome::Elapsed => Err(BidirError::Timeout(timeout_ms)),
    }
}

/// What ends a request once its item was handed to the stream.
#[derive(Debug)]
pub enum RequestEvent<R> {
    /// Sending the request item failed, with this error text.
    SendFailed(String),
    /// The wait for the response ended.
    Waited(WaitOutcome<R>),
}

/// How a request ends: whether its pending entry is still to be removed,
/// and the result the requester gets.
#[derive(Debug)]
pub struct RequestEnd<R> {
    pub unregister: bool,
    pub result: Result<R, BidirError>,
}

/// The end of a request that waited up to `timeout_ms` milliseconds. An
/// answered request was already taken out of the pending map by the
/// response; in every other case its entry is removed here, and the
/// result is a transport error naming the send failure, `ChannelClosed`,
/// or `Timeout(timeout_ms)`.
pub fn end_request<R>(event: RequestEvent<R>, timeout_ms: u64) -> (e: RequestEnd<R>)
    ensures
        match event {
            RequestEvent::SendFailed(m) => e.result matches Err(BidirError::Transport(t))
                && t@ == "Failed to send request: "@ + m@
                && e.unregister,
            RequestEvent::Waited(WaitOutcome::Answered(v)) => !e.unregister
                && e.result == Ok::<R, BidirError>(v),
            RequestEvent::Waited(WaitOutcome::Closed) => e.result matches Err(BidirError::ChannelClosed)
                && e.unregister,
            RequestEvent::Waited(WaitOutcome::Elapsed) => e.result matches Err(BidirError::Timeout(ms))
                && ms == timeout_ms && e.unregister,
        },
{
    match event {
        RequestEvent::SendFailed(m) => RequestEnd {
            unregister: true,
            result: Err(BidirError::Transport(concat2("Failed to send request: ", m.as_str()))),
        },
        RequestEvent::Waited(outcome) => {
            let answered = match outcome {
                WaitOutcome::Answered(_) => true,
                _ => false,
            };
            RequestEnd { unregister: !answered, result: settle_wait(outcome, timeout_ms) }
        },
    }
}

/// The answer to a confirmation: the confirmed value, `Cancelled`, or a
/// type mismatch that names `Confirmed` as expected and shows what came.
pub fn confirm_answer(resp: StandardResponse) -> (r: Result<bool, BidirError>)
    ensures
        match resp {
            StandardResponse::Confirmed { value } => r == Ok::<bool, BidirError>(value),
            StandardResponse::Cancelled => r matches Err(BidirError::Cancelled),
            _ => r matches Err(BidirError::TypeMismatch { expected, .. })
                && expected@ == "Confirmed"@,
        },
{
    match resp {
        StandardResponse::Confirmed { value } => Ok(value),
        StandardResponse::Cancelled => Err(BidirError::Cancelled),
        _ => Err(BidirError::TypeMismatch {
            expected: String::from_str("Confirmed"),
            got: debug_text(&resp),
        }),
    }
}

/// The answer to a prompt: the entered value, `Cancelled`, or a type
/// mismatch that names `Text` as expected.
pub fn prompt_answer(resp: StandardResponse) -> (r: Result<Value, BidirError>)
    ensures
        match resp {
            StandardResponse::Text { value } => r == Ok::<Value, BidirError>(value),
            StandardResponse::Cancelled => r matches Err(BidirError::Cancelled),
            _ => r matches Err(BidirError::TypeMismatch { expected, .. })
                && expected@ == "Text"@,
        },
{
    match resp {
        StandardResponse::Text { value } => Ok(value),
        StandardResponse::Cancelled => Err(BidirError::Cancelled),
        _ => Err(BidirError::TypeMismatch {
            expected: String::from_str("Text"),
            got: debug_text(&resp),
        }),
    }
}

/// The answer to a selection: the selected values, `Cancelled`, or a type
/// mismatch that names `Selected` as expected.
pub fn select_answer(resp: StandardResponse) -> (r: Result<Vec<Value>, BidirError>)
    ensures
        match resp {
            StandardResponse::Selected { values } => r == Ok::<Vec<Value>, BidirError>(values),
            StandardResponse::Cancelled => r matches Err(BidirError::Cancelled),
            _ => r matches Err(BidirError::TypeMismatch { expected, .. })
                && expected@ == "Selected"@,
        },
{
    match resp {
        StandardResponse::Selected { values } => Ok(values),
        StandardResponse::Cancelled => Err(BidirError::Cancelled),
        _ => Err(BidirError::TypeMismatch {
            expected: String::from_str("Selected"),
            got: debug_text(&resp),
        }),
    }
}

/// The automatic answer to a standard request: a confirmation takes its
/// own default, else `confirm_value`; a prompt takes its default (JSON
/// null when it has none); a selection picks the first option's value
/// (JSON null when there are no options); a custom request, which no
/// automatic answer fits, is cancelled.
pub fn auto_answer(req: &StandardRequest, confirm_value: bool) -> (r: StandardResponse)
    ensures
        match *req {
            StandardRequest::Confirm { default, .. } => r == StandardResponse::<Value>::Confirmed {
                value: match default {
                    Some(d) => d,
                    None => confirm_value,
                },
            },
            StandardRequest::Prompt { default, .. } => r matches StandardResponse::Text { value }
                && (default matches Some(d) ==> value == d),
            StandardRequest::Select { options, .. } => r matches StandardResponse::Selected { values }
                && values@.len() == 1
                && (options@.len() > 0 ==> values@[0] == options@[0].value),
            StandardRequest::Custom { .. } => r matches StandardResponse::Cancelled,
        },
{
    match req {
        StandardRequest::Confirm { default, .. } => StandardResponse::Confirmed {
            value: match default {
                Some(d) => *d,
                None => confirm_value,
            },
        },
        StandardRequest::Prompt { default, .. } => StandardResponse::Text {
            value: match default {
                Some(d) => d.clone(),
                None => json_null(),
            },
        },
        StandardRequest::Select { options, .. } => {
            let first = if options.len() > 0 {
                options[0].value.clone()
            } else {
                json_null()
            };
            let mut values: Vec<Value> = Vec::new();
            values.push(first);
            StandardResponse::Selected { values }
        },
        StandardRequest::Custom { .. } => StandardResponse::Cancelled,
    }
}

} // verus!
