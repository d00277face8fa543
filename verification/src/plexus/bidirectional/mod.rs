//! Bidirectional streaming support: server-to-client requests during
//! streaming RPC execution (confirmations, prompts, selections).

pub mod protocol;
pub mod types;
pub mod helpers;
pub mod registry;
pub mod channel;

pub use channel::{
    auto_answer, check_supported, confirm_answer, end_request, prompt_answer, select_answer,
    settle_wait, RequestEnd, RequestEvent, WaitOutcome,
};
pub use helpers::{bidir_error_message, TimeoutConfig};
pub use protocol::{BidirRequest, BidirResponse};
pub use registry::{
    clear_all, delivery_result, is_request_pending, pending_count, take_for_delivery,
    register_pending_request, unregister_pending_request, PendingRegistry,
};
pub use types::{
    BidirError, CancelledResponse, ConfirmRequest, ConfirmedResponse, PromptRequest,
    SelectOption, SelectRequest, SelectedResponse, StandardRequest, StandardResponse,
    TextResponse, WellKnownRequest, WellKnownResponse,
};
