//! The Plexus RPC protocol layer.

pub mod error_codes;
pub mod bidirectional;
pub mod plexus;
pub mod auth;
pub mod test_validator;
pub mod bidir_context;
pub mod hub_context;
pub mod types;
pub mod transport;
pub mod child_router;
pub mod method_list;
pub mod debug;
pub mod rpc_methods;
