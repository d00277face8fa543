//! Timeout presets and user-facing error messages for bidirectional
//! communication.

use vstd::prelude::*;
use std::time::Duration;
use crate::foreign::{duration_from_secs, seconds};
use crate::text::{concat2, concat3, decimal_string, decimal};
use super::types::BidirError;

verus! {

/// Timeout configuration presets for bidirectional requests.
#[derive(Debug, Clone, Copy)]
pub struct TimeoutConfig {
    /// Timeout for confirmation requests (yes/no)
    pub confirm: Duration,
    /// Timeout for text prompts (user input)
    pub prompt: Duration,
    /// Timeout for selection menus
    pub select: Duration,
    /// Timeout for custom request types
    pub custom: Duration,
}

/// Every request kind of `c` waits `secs` seconds.
pub open spec fn uniform_timeouts(c: TimeoutConfig, secs: u64) -> bool {
    &&& c.confirm == seconds(secs)
    &&& c.prompt == seconds(secs)
    &&& c.select == seconds(secs)
    &&& c.custom == seconds(secs)
}

impl TimeoutConfig {
    /// The same timeout, `secs` seconds, for every request kind.
    fn uniform(secs: u64) -> (c: Self)
        ensures
            uniform_timeouts(c, secs),
    {
        let d = duration_from_secs(secs);
        TimeoutConfig { confirm: d, prompt: d, select: d, custom: d }
    }

    /// Quick timeouts (10 seconds) - for automated/scripted scenarios.
    pub fn quick() -> (c: Self)
        ensures
            uniform_timeouts(c, 10),
    {
        Self::uniform(10)
    }

    /// Normal timeouts (30 seconds) - default for interactive use.
    pub fn normal() -> (c: Self)
        ensures
            uniform_timeouts(c, 30),
    {
        Self::uniform(30)
    }

    /// Patient timeouts (60 seconds) - for complex decisions.
    pub fn patient() -> (c: Self)
        ensures
            uniform_timeouts(c, 60),
    {
        Self::uniform(60)
    }

    /// Extended timeouts (5 minutes) - for long-running workflows.
    pub fn extended() -> (c: Self)
        ensures
            uniform_timeouts(c, 300),
    {
        Self::uniform(300)
    }
}

impl Default for TimeoutConfig {
    /// The default preset is the normal one (30 seconds).
    fn default() -> (c: Self)
        ensures
            uniform_timeouts(c, 30),
    {
        Self::normal()
    }
}

/// The user-friendly message for each bidirectional error.
pub open spec fn friendly_message(e: BidirError) -> Seq<char> {
    match e {
        BidirError::NotSupported => "Bidirectional communication not supported by this transport"@,
        BidirError::Timeout(ms) =>
            "Request timed out waiting for response (after "@ + decimal(ms as nat) + "ms)"@,
        BidirError::Cancelled => "Request was cancelled by user"@,
        BidirError::TypeMismatch { expected, got } =>
            "Type mismatch: expected "@ + expected@ + ", got "@ + got@,
        BidirError::Serialization(s) => "Serialization error: "@ + s@,
        BidirError::Transport(s) => "Transport error: "@ + s@,
        BidirError::UnknownRequest => "Unknown request ID (may have already been handled)"@,
        BidirError::ChannelClosed => "Response channel closed before response received"@,
    }
}

/// Get a user-friendly error message from a `BidirError`.
pub fn bidir_error_message(err: &BidirError) -> (m: String)
    ensures
        m@ == friendly_message(*err),
{
    match err {
        BidirError::NotSupported => String::from_str(
            "Bidirectional communication not supported by this transport",
        ),
        BidirError::Timeout(ms) => {
            let n = decimal_string(*ms);
            concat3("Request timed out waiting for response (after ", n.as_str(), "ms)")
        },
        BidirError::Cancelled => String::from_str("Request was cancelled by user"),
        BidirError::TypeMismatch { expected, got } => {
            let head = concat3("Type mismatch: expected ", expected.as_str(), ", got ");
            concat2(head.as_str(), got.as_str())
        },
        BidirError::Serialization(e) => concat2("Serialization error: ", e.as_str()),
        BidirError::Transport(e) => concat2("Transport error: ", e.as_str()),
        BidirError::UnknownRequest => String::from_str(
            "Unknown request ID (may have already been handled)",
        ),
        BidirError::ChannelClosed => String::from_str(
            "Response channel closed before response received",
        ),
    }
}

} // verus!
