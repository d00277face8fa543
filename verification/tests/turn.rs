use plexus_core::runtime::turn_shape::{emit_result, lossy_emit_result, Cancelled, TrySendOutcome};

#[test]
fn cancelled_display_text() {
    assert_eq!(Cancelled.to_string(), "the turn was cancelled");
}

#[test]
fn emitting_is_cancelled_only_when_the_receiver_is_gone() {
    assert_eq!(emit_result(true), Ok(()));
    assert_eq!(emit_result(false), Err(Cancelled));
}

#[test]
fn lossy_emit_drops_on_full_and_cancels_on_closed() {
    assert_eq!(lossy_emit_result(TrySendOutcome::Sent), Ok(()));
    assert_eq!(lossy_emit_result(TrySendOutcome::Full), Ok(()));
    assert_eq!(lossy_emit_result(TrySendOutcome::Closed), Err(Cancelled));
}
