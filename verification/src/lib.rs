//! Core of a Plexus RPC hub: error codes, the bidirectional request
//! protocol and its pending-request bookkeeping, plugin registry and
//! method routing decisions, and test-mode session validation.

pub mod plexus;
pub mod runtime;
pub mod foreign;
pub mod name_map;
pub mod text;
