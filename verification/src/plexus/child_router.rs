//! Child routing for hub activations: which optional child operations a
//! router advertises, which RPC methods that advertisement registers, and
//! how a nested method name is split to reach a child.

use vstd::prelude::*;
use crate::text::{concat2, split_once, split_once_at};
use super::plexus::{PlexusError, PLEXUS_NOTIF_METHOD};
use super::rpc_methods::triple_views;

verus! {

/// Opt-in capability flags advertising which optional child-router
/// operations (listing, searching) a router supports.
#[derive(Debug, Clone, Copy, PartialEq, Eq, Structural)]
pub struct ChildCapabilities {
    bits: u32,
}

/// The bit of the listing capability.
pub const LIST_BIT: u32 = 1;

/// The bit of the searching capability.
pub const SEARCH_BIT: u32 = 2;

impl ChildCapabilities {
    /// The raw bits.
    pub closed spec fn spec_bits(&self) -> u32 {
        self.bits
    }

    /// No capabilities: a router that only resolves children by exact name.
    pub fn empty() -> (c: Self)
        ensures
            c.spec_bits() == 0,
    {
        ChildCapabilities { bits: 0 }
    }

    /// The router lists its children.
    pub fn list() -> (c: Self)
        ensures
            c.spec_bits() == LIST_BIT,
    {
        ChildCapabilities { bits: LIST_BIT }
    }

    /// The router searches its children.
    pub fn search() -> (c: Self)
        ensures
            c.spec_bits() == SEARCH_BIT,
    {
        ChildCapabilities { bits: SEARCH_BIT }
    }

    /// Both sets of capabilities.
    pub fn union(self, other: Self) -> (c: Self)
        ensures
            c.spec_bits() == self.spec_bits() | other.spec_bits(),
    {
        ChildCapabilities { bits: self.bits | other.bits }
    }

    /// The raw bits.
    pub fn bits(&self) -> (b: u32)
        ensures
            b == self.spec_bits(),
    {
        self.bits
    }

    /// Whether no capability is set.
    pub fn is_empty(&self) -> (b: bool)
        ensures
            b == (self.spec_bits() == 0),
    {
        self.bits == 0
    }

    /// Whether every capability of `other` is set here.
    pub fn contains(&self, other: Self) -> (b: bool)
        ensures
            b == (self.spec_bits() & other.spec_bits() == other.spec_bits()),
    {
        self.bits & other.bits == other.bits
    }
}

/// The child-operation subscriptions registered for namespace `ns`, each
/// as (method, notification method, unsubscribe method): its
/// `list_children` when listing is advertised, then its `search_children`
/// when searching is. Each notifies with `PLEXUS_NOTIF_METHOD`.
pub open spec fn capability_methods(ns: Seq<char>, bits: u32) -> Seq<(Seq<char>, Seq<char>, Seq<char>)> {
    let list: Seq<(Seq<char>, Seq<char>, Seq<char>)> = if bits & LIST_BIT == LIST_BIT {
        seq![(ns + ".list_children"@, PLEXUS_NOTIF_METHOD@, ns + ".list_children_unsub"@)]
    } else {
        Seq::empty()
    };
    let search: Seq<(Seq<char>, Seq<char>, Seq<char>)> = if bits & SEARCH_BIT == SEARCH_BIT {
        seq![(ns + ".search_children"@, PLEXUS_NOTIF_METHOD@, ns + ".search_children_unsub"@)]
    } else {
        Seq::empty()
    };
    list + search
}

/// The subscription (method, notification, unsubscribe) names to register
/// for a router under `namespace` with capabilities `caps`: nothing when
/// no capability is advertised.
pub fn capability_method_names(namespace: &str, caps: ChildCapabilities) -> (names: Vec<(String, String, String)>)
    ensures
        triple_views(names@) == capability_methods(namespace@, caps.spec_bits()),
{
    let mut names: Vec<(String, String, String)> = Vec::new();
    if caps.contains(ChildCapabilities::list()) {
        names.push((
            concat2(namespace, ".list_children"),
            String::from_str(PLEXUS_NOTIF_METHOD),
            concat2(namespace, ".list_children_unsub"),
        ));
    }
    if caps.contains(ChildCapabilities::search()) {
        names.push((
            concat2(namespace, ".search_children"),
            String::from_str(PLEXUS_NOTIF_METHOD),
            concat2(namespace, ".search_children_unsub"),
        ));
    }
    assert(triple_views(names@) =~= capability_methods(namespace@, caps.spec_bits()));
    names
}

/// Split a nested method `child.rest` at its first dot to reach the child;
/// a method without a dot is not found on the parent router.
pub fn split_child_method(parent_namespace: &str, method: &str) -> (r: Result<(String, String), PlexusError>)
    ensures
        match split_once(method@, '.') {
            Some(parts) => r matches Ok(p) && p.0@ == parts.0 && p.1@ == parts.1,
            None => r matches Err(PlexusError::MethodNotFound { activation, method: m })
                && activation@ == parent_namespace@ && m@ == method@,
        },
{
    match split_once_at(method, '.') {
        Some(parts) => Ok(parts),
        None => Err(PlexusError::MethodNotFound {
            activation: String::from_str(parent_namespace),
            method: String::from_str(method),
        }),
    }
}

/// A child that the router does not have is reported by its name.
pub fn child_not_found(child_name: &str) -> (e: PlexusError)
    ensures
        e matches PlexusError::ActivationNotFound(n) && n@ == child_name@,
{
    PlexusError::ActivationNotFound(String::from_str(child_name))
}

} // verus!
