//! Cancellation of a turn.

use vstd::prelude::*;

verus! {

/// The turn was cancelled: the peer is gone or a cancel signal arrived.
#[derive(Debug, Clone, Copy, PartialEq, Eq, Structural)]
pub struct Cancelled;

impl Cancelled {
    /// The display text.
    pub fn to_string(&self) -> (s: String)
        ensures
            s@ == "the turn was cancelled"@,
    {
        String::from_str("the turn was cancelled")
    }
}

/// How a non-blocking send of an update went.
#[derive(Debug, Clone, Copy, PartialEq, Eq, Structural)]
pub enum TrySendOutcome {
    /// The update was queued.
    Sent,
    /// The buffer was full; the update was not queued.
    Full,
    /// The receiving side is gone.
    Closed,
}

/// The result of emitting an update and waiting for room: cancelled
/// exactly when the update could not be delivered (the receiver is gone).
pub fn emit_result(delivered: bool) -> (r: Result<(), Cancelled>)
    ensures
        r is Ok <==> delivered,
{
    if delivered {
        Ok(())
    } else {
        Err(Cancelled)
    }
}

/// The result of emitting an update without waiting: a full buffer drops
/// the update silently; only a closed channel cancels.
pub fn lossy_emit_result(outcome: TrySendOutcome) -> (r: Result<(), Cancelled>)
    ensures
        r is Err <==> outcome == TrySendOutcome::Closed,
{
    match outcome {
        TrySendOutcome::Sent => Ok(()),
        TrySendOutcome::Full => Ok(()),
        TrySendOutcome::Closed => Err(Cancelled),
    }
}

} // verus!
