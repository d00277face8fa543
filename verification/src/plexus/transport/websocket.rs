//! Client-to-server messages of a WebSocket subscription.

use vstd::prelude::*;
use crate::plexus::bidir_context::ResponsePayload;

verus! {

/// Messages sent from client to server during a WebSocket subscription.
#[derive(Debug, Clone)]
pub enum ClientMessage {
    /// Response to a server request.
    Response {
        /// Request ID this response correlates to.
        request_id: String,
        /// The response payload.
        payload: ResponsePayload,
    },
    /// Client-initiated cancellation of the subscription.
    Cancel,
}

} // verus!
