//! Pending response registry for bidirectional communication.
//!
//! Transports that are fundamentally request-response (such as MCP) route a
//! client's answer back to the waiting request by its request ID: the
//! request registers a sender here under its ID, and the transport looks the
//! ID up, removes the entry and forwards the response through the sender.
//!
//! The registry maps request IDs to senders; each ID is held at most once.

use vstd::prelude::*;
use super::types::BidirError;
use crate::name_map::NameMap;

verus! {

/// Pending requests: request ID to the sender that forwards its response.
pub type PendingRegistry<S> = NameMap<S>;

/// Register a pending request: later responses for `request_id` go to
/// `sender`. A second registration under the same ID replaces the first.
pub fn register_pending_request<S>(registry: &mut PendingRegistry<S>, request_id: String, sender: S)
    requires
        old(registry).wf(),
    ensures
        final(registry).wf(),
        old(registry)@.dom().finite(),
        final(registry)@.dom().finite(),
        final(registry)@ == old(registry)@.insert(request_id@, sender),
{
    proof {
        registry.lemma_finite();
    }
    registry.insert(request_id, sender);
}

/// Remove a pending request from the registry (e.g., on timeout), returning
/// its sender if it was pending.
pub fn unregister_pending_request<S>(registry: &mut PendingRegistry<S>, request_id: &str) -> (removed: Option<S>)
    requires
        old(registry).wf(),
    ensures
        final(registry).wf(),
        old(registry)@.dom().finite(),
        final(registry)@.dom().finite(),
        final(registry)@ == old(registry)@.remove(request_id@),
        removed == (if old(registry)@.contains_key(request_id@) {
            Some(old(registry)@[request_id@])
        } else {
            None
        }),
{
    proof {
        registry.lemma_finite();
    }
    registry.remove(request_id)
}

/// Take a pending request out of the registry to deliver `response` to it:
/// the entry for `request_id` is removed, and its sender is returned
/// together with exactly `response`, which the caller then sends through
/// it. `Err(UnknownRequest)` exactly when no request with that ID is
/// pending.
pub fn take_for_delivery<S, V>(
    registry: &mut PendingRegistry<S>,
    request_id: &str,
    response: V,
) -> (r: Result<(S, V), BidirError>)
    requires
        old(registry).wf(),
    ensures
        final(registry).wf(),
        old(registry)@.dom().finite(),
        final(registry)@.dom().finite(),
        final(registry)@ == old(registry)@.remove(request_id@),
        match r {
            Ok((sender, value)) => old(registry)@.contains_key(request_id@)
                && sender == old(registry)@[request_id@]
                && value == response,
            Err(e) => !old(registry)@.contains_key(request_id@) && e == BidirError::UnknownRequest,
        },
{
    proof {
        registry.lemma_finite();
    }
    match unregister_pending_request(registry, request_id) {
        Some(sender) => Ok((sender, response)),
        None => Err(BidirError::UnknownRequest),
    }
}

/// The result of handling a response once the send through the pending
/// request's sender reported whether it delivered: `Ok` exactly when it
/// did, `ChannelClosed` when the waiting side had gone away.
pub fn delivery_result(delivered: bool) -> (r: Result<(), BidirError>)
    ensures
        delivered ==> r is Ok,
        !delivered ==> r == Err::<(), BidirError>(BidirError::ChannelClosed),
{
    if delivered {
        Ok(())
    } else {
        Err(BidirError::ChannelClosed)
    }
}

/// Check if a request is pending.
pub fn is_request_pending<S>(registry: &PendingRegistry<S>, request_id: &str) -> (b: bool)
    requires
        registry.wf(),
    ensures
        registry@.dom().finite(),
        b == registry@.contains_key(request_id@),
{
    proof {
        registry.lemma_finite();
    }
    registry.contains(request_id)
}

/// The number of pending requests.
pub fn pending_count<S>(registry: &PendingRegistry<S>) -> (n: usize)
    requires
        registry.wf(),
    ensures
        registry@.dom().finite(),
        n == registry@.len(),
{
    proof {
        registry.lemma_finite();
    }
    registry.len()
}

/// Clear all pending requests.
pub fn clear_all<S>(registry: &mut PendingRegistry<S>)
    requires
        old(registry).wf(),
    ensures
        final(registry).wf(),
        old(registry)@.dom().finite(),
        final(registry)@.dom().finite(),
        final(registry)@ == Map::<Seq<char>, S>::empty(),
{
    proof {
        registry.lemma_finite();
    }
    registry.clear();
}

/// A registered request is pending until a response for it is taken for
/// delivery, which hands over the sender registered for it and removes
/// it; a second response for the same ID is refused as unknown.
pub proof fn lemma_register_then_handle<S>(before: Map<Seq<char>, S>, id: Seq<char>, sender: S)
    ensures
        before.insert(id, sender).contains_key(id),
        before.insert(id, sender)[id] == sender,
        !before.insert(id, sender).remove(id).contains_key(id),
        before.insert(id, sender).remove(id) == before.remove(id),
{
    assert(before.insert(id, sender).remove(id) =~= before.remove(id));
}

/// Registering a request adds one to the pending count when its ID was not
/// pending, and leaves the count as it was when it replaces a sender.
pub proof fn lemma_count_after_register<S>(registry: &PendingRegistry<S>, id: Seq<char>, sender: S)
    requires
        registry.wf(),
    ensures
        registry@.insert(id, sender).len() == if registry@.contains_key(id) {
            registry@.len()
        } else {
            registry@.len() + 1
        },
{
    registry.lemma_finite();
    if registry@.contains_key(id) {
        assert(registry@.insert(id, sender).dom() =~= registry@.dom());
    }
}

/// Removing a pending request takes one from the pending count; removing
/// an ID that is not pending leaves it as it was.
pub proof fn lemma_count_after_remove<S>(registry: &PendingRegistry<S>, id: Seq<char>)
    requires
        registry.wf(),
    ensures
        registry@.remove(id).len() == if registry@.contains_key(id) {
            registry@.len() - 1
        } else {
            registry@.len() as int
        },
{
    registry.lemma_finite();
    if !registry@.contains_key(id) {
        assert(registry@.remove(id).dom() =~= registry@.dom());
    }
}

/// The pending map after registering `ids[i]` with `senders[i]`, in order.
pub open spec fn register_all<S>(m: Map<Seq<char>, S>, ids: Seq<Seq<char>>, senders: Seq<S>) -> Map<Seq<char>, S>
    decreases ids.len(),
{
    if ids.len() == 0 {
        m
    } else {
        register_all(m, ids.drop_last(), senders.drop_last()).insert(ids.last(), senders.last())
    }
}

/// The pending map after handling (removing) `ids`, in order.
pub open spec fn remove_all<S>(m: Map<Seq<char>, S>, ids: Seq<Seq<char>>) -> Map<Seq<char>, S>
    decreases ids.len(),
{
    if ids.len() == 0 {
        m
    } else {
        remove_all(m, ids.drop_last()).remove(ids.last())
    }
}

proof fn lemma_register_all<S>(m: Map<Seq<char>, S>, ids: Seq<Seq<char>>, senders: Seq<S>)
    requires
        m.dom().finite(),
        ids.len() == senders.len(),
        ids.no_duplicates(),
        forall|i: int| 0 <= i < ids.len() ==> !m.contains_key(#[trigger] ids[i]),
    ensures
        register_all(m, ids, senders).dom().finite(),
        register_all(m, ids, senders).len() == m.len() + ids.len(),
        forall|k: Seq<char>| #[trigger] register_all(m, ids, senders).contains_key(k)
            <==> (m.contains_key(k) || ids.contains(k)),
        forall|k: Seq<char>| m.contains_key(k) ==> #[trigger] register_all(m, ids, senders)[k] == m[k],
    decreases ids.len(),
{
    if ids.len() > 0 {
        let front = ids.drop_last();
        assert forall|i: int| 0 <= i < front.len() implies !m.contains_key(#[trigger] front[i]) by {
            assert(front[i] == ids[i]);
        }
        assert(front.no_duplicates()) by {
            assert forall|i: int, j: int| 0 <= i < j < front.len() implies front[i] != front[j] by {
                assert(front[i] == ids[i] && front[j] == ids[j]);
            }
        }
        lemma_register_all(m, front, senders.drop_last());
        let before = register_all(m, front, senders.drop_last());
        assert(!before.contains_key(ids.last())) by {
            if front.contains(ids.last()) {
                let j = choose|j: int| 0 <= j < front.len() && front[j] == ids.last();
                assert(ids[j] == ids[ids.len() - 1]);
            }
            assert(!m.contains_key(ids[ids.len() - 1]));
        }
        assert forall|k: Seq<char>| #[trigger] register_all(m, ids, senders).contains_key(k)
            <==> (m.contains_key(k) || ids.contains(k)) by {
            if ids.contains(k) && k != ids.last() {
                let j = choose|j: int| 0 <= j < ids.len() && ids[j] == k;
                assert(front[j] == k);
            }
            if front.contains(k) {
                let j = choose|j: int| 0 <= j < front.len() && front[j] == k;
                assert(ids[j] == k);
            }
            assert(ids[ids.len() - 1] == ids.last());
        }
    }
}

proof fn lemma_remove_all_registered<S>(m: Map<Seq<char>, S>, ids: Seq<Seq<char>>, senders: Seq<S>)
    requires
        ids.len() == senders.len(),
        ids.no_duplicates(),
        forall|i: int| 0 <= i < ids.len() ==> !m.contains_key(#[trigger] ids[i]),
    ensures
        remove_all(register_all(m, ids, senders), ids) == m,
    decreases ids.len(),
{
    if ids.len() > 0 {
        let front = ids.drop_last();
        let fs = senders.drop_last();
        assert forall|i: int| 0 <= i < front.len() implies !m.contains_key(#[trigger] front[i]) by {
            assert(front[i] == ids[i]);
        }
        assert(front.no_duplicates()) by {
            assert forall|i: int, j: int| 0 <= i < j < front.len() implies front[i] != front[j] by {
                assert(front[i] == ids[i] && front[j] == ids[j]);
            }
        }
        // Removing the last ID first undoes its registration.
        let last = ids.last();
        let whole = register_all(m, ids, senders);
        let inner = register_all(m, front, fs);
        assert(!inner.contains_key(last)) by {
            lemma_not_registered(m, front, fs, last);
            assert(!m.contains_key(ids[ids.len() - 1]));
            if front.contains(last) {
                let j = choose|j: int| 0 <= j < front.len() && front[j] == last;
                assert(ids[j] == ids[ids.len() - 1]);
            }
        }
        lemma_remove_all_registered(m, front, fs);
        assert(ids =~= front.push(last));
        lemma_remove_all_commutes(whole, front, last);
        assert(whole == inner.insert(last, senders.last()));
        assert(whole.remove(last) =~= inner);
    }
}

proof fn lemma_not_registered<S>(m: Map<Seq<char>, S>, ids: Seq<Seq<char>>, senders: Seq<S>, k: Seq<char>)
    requires
        !m.contains_key(k),
        !ids.contains(k),
    ensures
        !register_all(m, ids, senders).contains_key(k),
    decreases ids.len(),
{
    if ids.len() > 0 {
        assert(!ids.drop_last().contains(k)) by {
            if ids.drop_last().contains(k) {
                let j = choose|j: int| 0 <= j < ids.drop_last().len() && ids.drop_last()[j] == k;
                assert(ids[j] == k);
            }
        }
        assert(ids[ids.len() - 1] != k);
        lemma_not_registered(m, ids.drop_last(), senders.drop_last(), k);
    }
}

proof fn lemma_remove_all_commutes<S>(m: Map<Seq<char>, S>, ids: Seq<Seq<char>>, k: Seq<char>)
    ensures
        remove_all(m, ids.push(k)) == remove_all(m.remove(k), ids),
    decreases ids.len(),
{
    let pk = ids.push(k);
    assert(pk.drop_last() =~= ids);
    assert(pk.last() == k);
    assert(remove_all(m, pk) == remove_all(m, ids).remove(k));
    if ids.len() == 0 {
        assert(remove_all(m, ids) == m);
        assert(remove_all(m.remove(k), ids) == m.remove(k));
    } else {
        let front = ids.drop_last();
        let last = ids.last();
        lemma_remove_all_commutes(m, front, k);
        let fk = front.push(k);
        assert(fk.drop_last() =~= front);
        assert(fk.last() == k);
        assert(remove_all(m, fk) == remove_all(m, front).remove(k));
        assert(remove_all(m, ids) == remove_all(m, front).remove(last));
        assert(remove_all(m.remove(k), ids) == remove_all(m.remove(k), front).remove(last));
        assert(remove_all(m, front).remove(last).remove(k)
            =~= remove_all(m, front).remove(k).remove(last));
    }
}

/// Registering requests under fresh, distinct IDs adds one to the pending
/// count for each; handling them all afterwards gives back the registry
/// as it was, count included.
pub proof fn lemma_fresh_registrations<S>(registry: &PendingRegistry<S>, ids: Seq<Seq<char>>, senders: Seq<S>)
    requires
        registry.wf(),
        ids.len() == senders.len(),
        ids.no_duplicates(),
        forall|i: int| 0 <= i < ids.len() ==> !registry@.contains_key(#[trigger] ids[i]),
    ensures
        register_all(registry@, ids, senders).len() == registry@.len() + ids.len(),
        remove_all(register_all(registry@, ids, senders), ids) == registry@,
        remove_all(register_all(registry@, ids, senders), ids).len() == registry@.len(),
{
    registry.lemma_finite();
    lemma_register_all(registry@, ids, senders);
    lemma_remove_all_registered(registry@, ids, senders);
}

} // verus!
