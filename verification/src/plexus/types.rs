//! Plexus streaming metadata and structured error details.
//!
//! The caller wraps activation responses with metadata: the call path, the
//! hash of the hub configuration and the time of wrapping.

use vstd::prelude::*;
use serde_json::Value;
use crate::foreign::{since_unix_epoch, subsec_nanos, system_time_now, until_unix_epoch, whole_secs};
use super::error_codes::ErrorCategory;

verus! {

/// Metadata applied by the caller when wrapping activation responses.
#[derive(Debug, Clone)]
pub struct StreamMetadata {
    /// Call path through the system (e.g., ["plexus", "health"])
    pub provenance: Vec<String>,
    /// Hash of plexus configuration for cache invalidation
    pub plexus_hash: String,
    /// Unix timestamp (seconds) when the event was wrapped
    pub timestamp: i64,
}

/// The Unix timestamp, in whole seconds rounded down, of a clock reading:
/// `after` holds the whole seconds since the epoch of a reading at or
/// after it, `before` the whole seconds and nanoseconds by which a reading
/// precedes it. Seconds beyond what an `i64` holds saturate; with no
/// reading on either side the timestamp is 0.
pub open spec fn timestamp_of(after: Option<u64>, before: Option<(u64, u32)>) -> i64 {
    match after {
        Some(s) => if s <= i64::MAX as u64 { s as i64 } else { i64::MAX },
        None => match before {
            Some((s, n)) => {
                let t: int = if n == 0 { -(s as int) } else { -(s as int) - 1 };
                if t >= i64::MIN as int { t as i64 } else { i64::MIN }
            },
            None => 0,
        },
    }
}

/// The Unix timestamp of a clock reading, in whole seconds rounded down.
pub fn unix_timestamp(after: Option<u64>, before: Option<(u64, u32)>) -> (t: i64)
    ensures
        t == timestamp_of(after, before),
{
    match after {
        Some(s) => if s <= i64::MAX as u64 { s as i64 } else { i64::MAX },
        None => match before {
            Some((s, n)) => {
                if s > i64::MAX as u64 {
                    i64::MIN
                } else if n == 0 {
                    -(s as i64)
                } else {
                    -(s as i64) - 1
                }
            },
            None => 0,
        },
    }
}

/// The current Unix time in whole seconds, rounded down.
fn unix_timestamp_now() -> (t: i64)
    ensures
        exists|a: Option<u64>, b: Option<(u64, u32)>| t == timestamp_of(a, b),
{
    let now = system_time_now();
    let after = match since_unix_epoch(&now) {
        Some(d) => Some(whole_secs(&d)),
        None => None,
    };
    let before = match after {
        Some(_) => None,
        None => match until_unix_epoch(&now) {
            Some(d) => Some((whole_secs(&d), subsec_nanos(&d))),
            None => None,
        },
    };
    let t = unix_timestamp(after, before);
    assert(t == timestamp_of(after, before));
    t
}

impl StreamMetadata {
    /// Create new metadata with the current time as its timestamp: the
    /// whole seconds since the Unix epoch, rounded down (negative when the
    /// clock reads before the epoch).
    pub fn new(provenance: Vec<String>, plexus_hash: String) -> (m: Self)
        ensures
            m.provenance == provenance,
            m.plexus_hash == plexus_hash,
            exists|a: Option<u64>, b: Option<(u64, u32)>| m.timestamp == timestamp_of(a, b),
    {
        StreamMetadata { provenance, plexus_hash, timestamp: unix_timestamp_now() }
    }
}

/// Structured error details for enhanced error reporting.
#[derive(Debug, Clone)]
pub struct ErrorDetails {
    /// High-level error category for programmatic handling
    pub category: ErrorCategory,
    /// Field/parameter that caused the error
    pub field: Option<String>,
    /// Expected value or constraint description
    pub expected: Option<String>,
    /// Actual value received (sanitized to avoid leaking sensitive data)
    pub actual: Option<Value>,
    /// Human-readable suggestion for how to fix the error
    pub suggestion: Option<String>,
    /// Link to relevant documentation
    pub docs_url: Option<String>,
    /// Additional debugging context
    pub context: Option<Value>,
    /// Related commands or resources that might help
    pub related: Option<Vec<String>>,
}

impl ErrorDetails {
    /// Create error details with just a category.
    pub fn new(category: ErrorCategory) -> (d: Self)
        ensures
            d == (ErrorDetails {
                category,
                field: None,
                expected: None,
                actual: None,
                suggestion: None,
                docs_url: None,
                context: None,
                related: None,
            }),
    {
        ErrorDetails {
            category,
            field: None,
            expected: None,
            actual: None,
            suggestion: None,
            docs_url: None,
            context: None,
            related: None,
        }
    }

    /// Builder: Set the field that caused the error.
    pub fn with_field(self, field: String) -> (d: Self)
        ensures
            d == (ErrorDetails { field: Some(field), ..self }),
    {
        ErrorDetails { field: Some(field), ..self }
    }

    /// Builder: Set the expected value.
    pub fn with_expected(self, expected: String) -> (d: Self)
        ensures
            d == (ErrorDetails { expected: Some(expected), ..self }),
    {
        ErrorDetails { expected: Some(expected), ..self }
    }

    /// Builder: Set the actual value received.
    pub fn with_actual(self, actual: Value) -> (d: Self)
        ensures
            d == (ErrorDetails { actual: Some(actual), ..self }),
    {
        ErrorDetails { actual: Some(actual), ..self }
    }

    /// Builder: Set a suggestion for fixing the error.
    pub fn with_suggestion(self, suggestion: String) -> (d: Self)
        ensures
            d == (ErrorDetails { suggestion: Some(suggestion), ..self }),
    {
        ErrorDetails { suggestion: Some(suggestion), ..self }
    }

    /// Builder: Set documentation URL.
    pub fn with_docs_url(self, docs_url: String) -> (d: Self)
        ensures
            d == (ErrorDetails { docs_url: Some(docs_url), ..self }),
    {
        ErrorDetails { docs_url: Some(docs_url), ..self }
    }

    /// Builder: Set additional context.
    pub fn with_context(self, context: Value) -> (d: Self)
        ensures
            d == (ErrorDetails { context: Some(context), ..self }),
    {
        ErrorDetails { context: Some(context), ..self }
    }

    /// Builder: Set related commands/resources.
    pub fn with_related(self, related: Vec<String>) -> (d: Self)
        ensures
            d == (ErrorDetails { related: Some(related), ..self }),
    {
        ErrorDetails { related: Some(related), ..self }
    }
}

} // verus!
