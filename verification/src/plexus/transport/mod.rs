//! Transport message types.

pub mod websocket;
