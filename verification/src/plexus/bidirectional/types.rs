//! Bidirectional streaming types: the error type, the well-known request
//! and response types, their unions, and the enum-based standard types.
//!
//! Wire format (serde, internally tagged JSON) is produced by the copies
//! of these types that the application layer derives serde for.

use vstd::prelude::*;
use serde_json::Value;
use crate::text::{concat2, concat3, decimal_string, decimal};
use super::protocol::{BidirRequest, BidirResponse};

verus! {

/// Error types for bidirectional communication.
#[derive(Debug, Clone)]
pub enum BidirError {
    /// Transport does not support bidirectional communication.
    NotSupported,
    /// Request timed out waiting for client response (milliseconds).
    Timeout(u64),
    /// Client explicitly cancelled the request.
    Cancelled,
    /// Response type doesn't match expected type.
    TypeMismatch {
        /// Expected type name
        expected: String,
        /// Actual type received
        got: String,
    },
    /// Failed to serialize or deserialize request/response.
    Serialization(String),
    /// Transport-level error during communication.
    Transport(String),
    /// Unknown request ID (response for non-existent request).
    UnknownRequest,
    /// Response channel was closed before response received.
    ChannelClosed,
}

/// The text that a `BidirError` displays as.
pub open spec fn bidir_error_text(e: BidirError) -> Seq<char> {
    match e {
        BidirError::NotSupported => "Bidirectional communication not supported by this transport"@,
        BidirError::Timeout(ms) => "Request timed out after "@ + decimal(ms as nat) + "ms"@,
        BidirError::Cancelled => "Request was cancelled by client"@,
        BidirError::TypeMismatch { expected, got } =>
            "Type mismatch: expected "@ + expected@ + ", got "@ + got@,
        BidirError::Serialization(s) => "Serialization error: "@ + s@,
        BidirError::Transport(s) => "Transport error: "@ + s@,
        BidirError::UnknownRequest => "Unknown request ID"@,
        BidirError::ChannelClosed => "Response channel closed"@,
    }
}

impl BidirError {
    /// The error's display text.
    pub fn to_string(&self) -> (s: String)
        ensures
            s@ == bidir_error_text(*self),
    {
        match self {
            BidirError::NotSupported => String::from_str(
                "Bidirectional communication not supported by this transport",
            ),
            BidirError::Timeout(ms) => {
                let n = decimal_string(*ms);
                concat3("Request timed out after ", n.as_str(), "ms")
            },
            BidirError::Cancelled => String::from_str("Request was cancelled by client"),
            BidirError::TypeMismatch { expected, got } => {
                let head = concat3("Type mismatch: expected ", expected.as_str(), ", got ");
                concat2(head.as_str(), got.as_str())
            },
            BidirError::Serialization(e) => concat2("Serialization error: ", e.as_str()),
            BidirError::Transport(e) => concat2("Transport error: ", e.as_str()),
            BidirError::UnknownRequest => String::from_str("Unknown request ID"),
            BidirError::ChannelClosed => String::from_str("Response channel closed"),
        }
    }
}

// =============================================================================
// Well-known request and response types
// =============================================================================

/// Binary yes/no confirmation request.
#[derive(Debug, Clone)]
pub struct ConfirmRequest {
    /// Question to ask the user.
    pub message: String,
    /// Default answer if user accepts without explicit choice.
    pub default: Option<bool>,
}

impl BidirRequest for ConfirmRequest {
    fn type_tag(&self) -> (tag: &'static str)
        ensures
            tag@ == "confirm"@,
    {
        "confirm"
    }
}

/// Free-form text input request.
#[derive(Debug, Clone)]
pub struct PromptRequest {
    /// Prompt message shown to the user.
    pub message: String,
    /// Default value to pre-fill in the input.
    pub default: Option<String>,
    /// Placeholder text shown when input is empty.
    pub placeholder: Option<String>,
}

impl BidirRequest for PromptRequest {
    fn type_tag(&self) -> (tag: &'static str)
        ensures
            tag@ == "prompt"@,
    {
        "prompt"
    }
}

/// Selection request for choosing from options.
#[derive(Debug, Clone)]
pub struct SelectRequest {
    /// Selection prompt shown to the user.
    pub message: String,
    /// Available options to choose from.
    pub options: Vec<SelectOption>,
    /// Whether to allow selecting multiple options.
    pub multi_select: bool,
}

impl BidirRequest for SelectRequest {
    fn type_tag(&self) -> (tag: &'static str)
        ensures
            tag@ == "select"@,
    {
        "select"
    }
}

/// User confirmed (true) or declined (false).
#[derive(Debug, Clone, PartialEq, Eq, Structural)]
pub struct ConfirmedResponse {
    /// Whether the user confirmed (true) or declined (false)
    pub value: bool,
}

impl BidirResponse for ConfirmedResponse {
    fn type_tag(&self) -> (tag: &'static str)
        ensures
            tag@ == "confirmed"@,
    {
        "confirmed"
    }
}

/// User entered text or provided a value.
#[derive(Debug, Clone)]
pub struct TextResponse {
    /// The value entered or provided by the user
    pub value: String,
}

impl BidirResponse for TextResponse {
    fn type_tag(&self) -> (tag: &'static str)
        ensures
            tag@ == "text"@,
    {
        "text"
    }
}

/// User selected one or more options (by value).
#[derive(Debug, Clone)]
pub struct SelectedResponse {
    /// The values of selected options
    pub values: Vec<String>,
}

impl BidirResponse for SelectedResponse {
    fn type_tag(&self) -> (tag: &'static str)
        ensures
            tag@ == "selected"@,
    {
        "selected"
    }
}

/// User cancelled the request.
#[derive(Debug, Clone, PartialEq, Eq, Structural)]
pub struct CancelledResponse {}

impl BidirResponse for CancelledResponse {
    fn type_tag(&self) -> (tag: &'static str)
        ensures
            tag@ == "cancelled"@,
    {
        "cancelled"
    }
}

/// Union type of all well-known request types.
#[derive(Debug, Clone)]
pub enum WellKnownRequest {
    /// Confirmation request
    Confirm(ConfirmRequest),
    /// Text prompt request
    Prompt(PromptRequest),
    /// Selection request
    Select(SelectRequest),
}

/// The wire tag of each well-known request.
pub open spec fn request_tag(r: WellKnownRequest) -> Seq<char> {
    match r {
        WellKnownRequest::Confirm(_) => "confirm"@,
        WellKnownRequest::Prompt(_) => "prompt"@,
        WellKnownRequest::Select(_) => "select"@,
    }
}

impl BidirRequest for WellKnownRequest {
    fn type_tag(&self) -> (tag: &'static str)
        ensures
            tag@ == request_tag(*self),
    {
        match self {
            WellKnownRequest::Confirm(_) => "confirm",
            WellKnownRequest::Prompt(_) => "prompt",
            WellKnownRequest::Select(_) => "select",
        }
    }
}

/// Union type of all well-known response types.
#[derive(Debug, Clone)]
pub enum WellKnownResponse {
    /// Confirmation response
    Confirmed(ConfirmedResponse),
    /// Text input response
    Text(TextResponse),
    /// Selection response
    Selected(SelectedResponse),
    /// Cancellation response
    Cancelled(CancelledResponse),
}

/// The wire tag of each well-known response.
pub open spec fn response_tag(r: WellKnownResponse) -> Seq<char> {
    match r {
        WellKnownResponse::Confirmed(_) => "confirmed"@,
        WellKnownResponse::Text(_) => "text"@,
        WellKnownResponse::Selected(_) => "selected"@,
        WellKnownResponse::Cancelled(_) => "cancelled"@,
    }
}

impl BidirResponse for WellKnownResponse {
    fn type_tag(&self) -> (tag: &'static str)
        ensures
            tag@ == response_tag(*self),
    {
        match self {
            WellKnownResponse::Confirmed(_) => "confirmed",
            WellKnownResponse::Text(_) => "text",
            WellKnownResponse::Selected(_) => "selected",
            WellKnownResponse::Cancelled(_) => "cancelled",
        }
    }
}

// =============================================================================
// Enum-based standard types
// =============================================================================

/// Standard request types for common interactive UI patterns.
#[derive(Debug, Clone)]
pub enum StandardRequest<T = Value> {
    /// Binary yes/no confirmation request.
    Confirm {
        /// Question to ask the user.
        message: String,
        /// Default answer if user accepts without explicit choice.
        default: Option<bool>,
    },
    /// Free-form text input request.
    Prompt {
        /// Prompt message shown to the user.
        message: String,
        /// Default value to pre-fill in the input.
        default: Option<T>,
        /// Placeholder text shown when input is empty.
        placeholder: Option<String>,
    },
    /// Selection request for choosing from options.
    Select {
        /// Selection prompt shown to the user.
        message: String,
        /// Available options to choose from.
        options: Vec<SelectOption<T>>,
        /// Whether to allow selecting multiple options.
        multi_select: bool,
    },
    /// Custom domain-specific request payload.
    Custom {
        /// The custom request data.
        data: T,
    },
}

/// Standard response types matching [`StandardRequest`].
#[derive(Debug, Clone)]
pub enum StandardResponse<T = Value> {
    /// User confirmed (true) or declined (false).
    Confirmed {
        /// Whether the user confirmed (true) or declined (false)
        value: bool,
    },
    /// User entered text or provided a value.
    Text {
        /// The value entered or provided by the user
        value: T,
    },
    /// User selected one or more options (by value).
    Selected {
        /// The values of selected options
        values: Vec<T>,
    },
    /// Custom domain-specific response payload.
    Custom {
        /// The custom response data.
        data: T,
    },
    /// User cancelled the request.
    Cancelled,
}

/// An option in a select request.
#[derive(Debug, Clone)]
pub struct SelectOption<T = Value> {
    /// Machine-readable value returned when this option is selected.
    pub value: T,
    /// Human-readable label displayed to the user.
    pub label: String,
    /// Optional description providing additional context.
    pub description: Option<String>,
}

impl SelectOption {
    /// Create a new select option with a JSON value and a label.
    pub fn new(value: Value, label: String) -> (o: Self)
        ensures
            o.value == value,
            o.label@ == label@,
            o.description is None,
    {
        SelectOption { value, label, description: None }
    }

    /// Add a description to this option.
    pub fn with_description(self, desc: String) -> (o: Self)
        ensures
            o.value == self.value,
            o.label == self.label,
            o.description == Some(desc),
    {
        SelectOption { value: self.value, label: self.label, description: Some(desc) }
    }
}

impl<T> SelectOption<T> {
    /// Create a new select option with a typed value and label.
    pub fn new_typed(value: T, label: String) -> (o: Self)
        ensures
            o.value == value,
            o.label == label,
            o.description is None,
    {
        SelectOption { value, label, description: None }
    }

    /// Add a description to this option.
    pub fn with_description_typed(self, desc: String) -> (o: Self)
        ensures
            o.value == self.value,
            o.label == self.label,
            o.description == Some(desc),
    {
        SelectOption { value: self.value, label: self.label, description: Some(desc) }
    }
}

} // verus!
