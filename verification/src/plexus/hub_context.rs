//! Parent context for hub-aware plugins: the context a plugin gets when it
//! has no parent hub.

use vstd::prelude::*;
use crate::text::concat2;
use super::plexus::PlexusError;

verus! {

/// A no-op context for plugins that don't need parent access.
#[derive(Clone, Copy, Debug, Default)]
pub struct NoParent;

impl NoParent {
    /// There is no parent, so the context is never valid.
    pub fn is_valid(&self) -> (b: bool)
        ensures
            !b,
    {
        false
    }

    /// The error of resolving a handle without a parent.
    pub fn resolve_handle_error(&self) -> (e: PlexusError)
        ensures
            e matches PlexusError::ExecutionError(m)
                && m@ == "No parent context available for handle resolution"@,
    {
        PlexusError::ExecutionError(String::from_str("No parent context available for handle resolution"))
    }

    /// The error of routing a call to `method` without a parent.
    pub fn call_error(&self, method: &str) -> (e: PlexusError)
        ensures
            e matches PlexusError::ExecutionError(m)
                && m@ == "No parent context available to route call: "@ + method@,
    {
        PlexusError::ExecutionError(concat2("No parent context available to route call: ", method))
    }
}

} // verus!
