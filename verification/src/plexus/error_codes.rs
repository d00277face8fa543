//! Structured error codes and categories for Plexus errors, following
//! JSON-RPC 2.0 conventions with Plexus-specific extensions.

use vstd::prelude::*;

verus! {

/// Structured error codes following JSON-RPC 2.0 + Plexus extensions.
#[derive(Debug, Clone, Copy, PartialEq, Eq, Structural)]
pub enum ErrorCode {
    /// Invalid JSON was received by the server (-32700)
    ParseError,
    /// The JSON sent is not a valid Request object (-32600)
    InvalidRequest,
    /// The method does not exist / is not available (-32601)
    MethodNotFound,
    /// Invalid method parameter(s) (-32602)
    InvalidParams,
    /// Internal JSON-RPC error (-32603)
    InternalError,
    /// Parameter validation failed (-32001)
    ValidationError,
    /// Resource not found (-32002)
    NotFound,
    /// Resource already exists (-32003)
    AlreadyExists,
    /// Authentication required (-32004)
    Unauthorized,
    /// Permission denied (-32005)
    Forbidden,
    /// State conflict (-32006)
    Conflict,
    /// Operation timed out (-32007)
    Timeout,
    /// Feature not supported (-32008)
    Unsupported,
    /// Rate limit exceeded (-32009)
    RateLimited,
    /// Activation/namespace not found (-32010)
    ActivationNotFound,
    /// Handle format invalid (-32011)
    HandleInvalid,
    /// Handle resolution not supported (-32012)
    HandleNotSupported,
    /// Invalid state for operation (-32013)
    StateError,
}

/// Error category for programmatic handling.
#[derive(Debug, Clone, Copy, PartialEq, Eq, Structural)]
pub enum ErrorCategory {
    /// Invalid parameters or validation failure
    Validation,
    /// Resource doesn't exist
    NotFound,
    /// Authentication required
    Authentication,
    /// Permission denied
    Authorization,
    /// State conflict or resource already exists
    Conflict,
    /// Rate limit exceeded
    RateLimit,
    /// Server error
    Internal,
    /// Network/transport error
    Network,
    /// Operation timed out
    Timeout,
    /// Feature not supported
    Unsupported,
}

/// The JSON-RPC numeric code of each error code.
pub open spec fn code_number(c: ErrorCode) -> int {
    match c {
        ErrorCode::ParseError => -32700,
        ErrorCode::InvalidRequest => -32600,
        ErrorCode::MethodNotFound => -32601,
        ErrorCode::InvalidParams => -32602,
        ErrorCode::InternalError => -32603,
        ErrorCode::ValidationError => -32001,
        ErrorCode::NotFound => -32002,
        ErrorCode::AlreadyExists => -32003,
        ErrorCode::Unauthorized => -32004,
        ErrorCode::Forbidden => -32005,
        ErrorCode::Conflict => -32006,
        ErrorCode::Timeout => -32007,
        ErrorCode::Unsupported => -32008,
        ErrorCode::RateLimited => -32009,
        ErrorCode::ActivationNotFound => -32010,
        ErrorCode::HandleInvalid => -32011,
        ErrorCode::HandleNotSupported => -32012,
        ErrorCode::StateError => -32013,
    }
}

/// The category each error code belongs to.
pub open spec fn code_category(c: ErrorCode) -> ErrorCategory {
    match c {
        ErrorCode::InvalidParams | ErrorCode::ValidationError => ErrorCategory::Validation,
        ErrorCode::NotFound | ErrorCode::ActivationNotFound => ErrorCategory::NotFound,
        ErrorCode::Unauthorized => ErrorCategory::Authentication,
        ErrorCode::Forbidden => ErrorCategory::Authorization,
        ErrorCode::AlreadyExists | ErrorCode::Conflict | ErrorCode::StateError => ErrorCategory::Conflict,
        ErrorCode::RateLimited => ErrorCategory::RateLimit,
        ErrorCode::Timeout => ErrorCategory::Timeout,
        ErrorCode::Unsupported | ErrorCode::HandleNotSupported => ErrorCategory::Unsupported,
        _ => ErrorCategory::Internal,
    }
}

/// Whether an error code is recoverable by default: timeouts, rate limits
/// and conflicts can be retried.
pub open spec fn code_recoverable(c: ErrorCode) -> bool {
    c == ErrorCode::Timeout || c == ErrorCode::RateLimited || c == ErrorCode::Conflict
}

impl ErrorCode {
    /// Get numeric code for JSON-RPC compatibility.
    pub fn to_i32(&self) -> (n: i32)
        ensures
            n == code_number(*self),
    {
        match self {
            ErrorCode::ParseError => -32700,
            ErrorCode::InvalidRequest => -32600,
            ErrorCode::MethodNotFound => -32601,
            ErrorCode::InvalidParams => -32602,
            ErrorCode::InternalError => -32603,
            ErrorCode::ValidationError => -32001,
            ErrorCode::NotFound => -32002,
            ErrorCode::AlreadyExists => -32003,
            ErrorCode::Unauthorized => -32004,
            ErrorCode::Forbidden => -32005,
            ErrorCode::Conflict => -32006,
            ErrorCode::Timeout => -32007,
            ErrorCode::Unsupported => -32008,
            ErrorCode::RateLimited => -32009,
            ErrorCode::ActivationNotFound => -32010,
            ErrorCode::HandleInvalid => -32011,
            ErrorCode::HandleNotSupported => -32012,
            ErrorCode::StateError => -32013,
        }
    }

    /// Get error category for this error code.
    pub fn category(&self) -> (cat: ErrorCategory)
        ensures
            cat == code_category(*self),
    {
        match self {
            ErrorCode::InvalidParams | ErrorCode::ValidationError => ErrorCategory::Validation,
            ErrorCode::NotFound | ErrorCode::ActivationNotFound => ErrorCategory::NotFound,
            ErrorCode::Unauthorized => ErrorCategory::Authentication,
            ErrorCode::Forbidden => ErrorCategory::Authorization,
            ErrorCode::AlreadyExists | ErrorCode::Conflict | ErrorCode::StateError => {
                ErrorCategory::Conflict
            },
            ErrorCode::RateLimited => ErrorCategory::RateLimit,
            ErrorCode::Timeout => ErrorCategory::Timeout,
            ErrorCode::Unsupported | ErrorCode::HandleNotSupported => ErrorCategory::Unsupported,
            _ => ErrorCategory::Internal,
        }
    }

    /// Is this error recoverable by default?
    ///
    /// Recoverable errors can typically be retried after correcting the issue.
    pub fn is_recoverable(&self) -> (r: bool)
        ensures
            r == code_recoverable(*self),
    {
        match self {
            ErrorCode::Timeout | ErrorCode::RateLimited | ErrorCode::Conflict => true,
            _ => false,
        }
    }
}

/// Distinct error codes carry distinct JSON-RPC numbers, so a number
/// identifies its code.
pub proof fn lemma_code_number_injective(a: ErrorCode, b: ErrorCode)
    ensures
        code_number(a) == code_number(b) ==> a == b,
{
}

/// The standard JSON-RPC codes lie in -32700..=-32600 and the Plexus
/// application codes in the server-error range -32099..=-32000.
pub proof fn lemma_code_number_ranges(c: ErrorCode)
    ensures
        (-32700 <= code_number(c) <= -32600) || (-32099 <= code_number(c) <= -32000),
        (-32099 <= code_number(c) <= -32000) <==> !(c == ErrorCode::ParseError
            || c == ErrorCode::InvalidRequest || c == ErrorCode::MethodNotFound
            || c == ErrorCode::InvalidParams || c == ErrorCode::InternalError),
{
}

/// A recoverable code is a timeout, a rate limit or a conflict, and its
/// category says so.
pub proof fn lemma_recoverable_categories(c: ErrorCode)
    ensures
        code_recoverable(c) ==> (code_category(c) == ErrorCategory::Timeout
            || code_category(c) == ErrorCategory::RateLimit
            || code_category(c) == ErrorCategory::Conflict),
{
}

/// Each code carries the JSON-RPC number its documentation names: the
/// five standard JSON-RPC codes, then the Plexus codes from -32001 upward
/// in the order of their declaration.
pub proof fn lemma_code_number_table()
    ensures
        code_number(ErrorCode::ParseError) == -32700,
        code_number(ErrorCode::InvalidRequest) == -32600,
        code_number(ErrorCode::MethodNotFound) == -32601,
        code_number(ErrorCode::InvalidParams) == -32602,
        code_number(ErrorCode::InternalError) == -32603,
        code_number(ErrorCode::ValidationError) == -32001,
        code_number(ErrorCode::NotFound) == -32002,
        code_number(ErrorCode::AlreadyExists) == -32003,
        code_number(ErrorCode::Unauthorized) == -32004,
        code_number(ErrorCode::Forbidden) == -32005,
        code_number(ErrorCode::Conflict) == -32006,
        code_number(ErrorCode::Timeout) == -32007,
        code_number(ErrorCode::Unsupported) == -32008,
        code_number(ErrorCode::RateLimited) == -32009,
        code_number(ErrorCode::ActivationNotFound) == -32010,
        code_number(ErrorCode::HandleInvalid) == -32011,
        code_number(ErrorCode::HandleNotSupported) == -32012,
        code_number(ErrorCode::StateError) == -32013,
{
}

/// Each code's category as documented: invalid input is a validation
/// error, missing things are not found, authentication and authorization
/// failures are told apart, conflicts include state errors, handles that
/// are not supported are unsupported, and the rest is internal. Exactly
/// timeouts, rate limits and conflicts are recoverable.
pub proof fn lemma_code_category_table(c: ErrorCode)
    ensures
        code_category(ErrorCode::InvalidParams) == ErrorCategory::Validation,
        code_category(ErrorCode::ValidationError) == ErrorCategory::Validation,
        code_category(ErrorCode::NotFound) == ErrorCategory::NotFound,
        code_category(ErrorCode::ActivationNotFound) == ErrorCategory::NotFound,
        code_category(ErrorCode::Unauthorized) == ErrorCategory::Authentication,
        code_category(ErrorCode::Forbidden) == ErrorCategory::Authorization,
        code_category(ErrorCode::AlreadyExists) == ErrorCategory::Conflict,
        code_category(ErrorCode::Conflict) == ErrorCategory::Conflict,
        code_category(ErrorCode::StateError) == ErrorCategory::Conflict,
        code_category(ErrorCode::RateLimited) == ErrorCategory::RateLimit,
        code_category(ErrorCode::Timeout) == ErrorCategory::Timeout,
        code_category(ErrorCode::Unsupported) == ErrorCategory::Unsupported,
        code_category(ErrorCode::HandleNotSupported) == ErrorCategory::Unsupported,
        code_category(ErrorCode::ParseError) == ErrorCategory::Internal,
        code_category(ErrorCode::InvalidRequest) == ErrorCategory::Internal,
        code_category(ErrorCode::MethodNotFound) == ErrorCategory::Internal,
        code_category(ErrorCode::InternalError) == ErrorCategory::Internal,
        code_category(ErrorCode::HandleInvalid) == ErrorCategory::Internal,
        code_recoverable(c) <==> (c == ErrorCode::Timeout || c == ErrorCode::RateLimited
            || c == ErrorCode::Conflict),
{
}

} // verus!
