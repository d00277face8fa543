//! The subscription methods that a hub registers on its JSON-RPC module,
//! and the lookup of a method's schema for the `schema` subscription.

use vstd::prelude::*;
use crate::text::{concat2, concat3};
use super::plexus::PLEXUS_NOTIF_METHOD;
use super::bidirectional::types::{bidir_error_text, BidirError};

verus! {

/// The subscription methods of a hub whose runtime namespace is `ns`,
/// each as (method, notification method, unsubscribe method): `ns.call`,
/// `ns.hash`, `ns.schema`, then the namespace-free `_info` endpoint. Every
/// subscription notifies with `PLEXUS_NOTIF_METHOD`.
pub open spec fn hub_methods(ns: Seq<char>) -> Seq<(Seq<char>, Seq<char>, Seq<char>)> {
    seq![
        (ns + ".call"@, PLEXUS_NOTIF_METHOD@, ns + ".call_unsub"@),
        (ns + ".hash"@, PLEXUS_NOTIF_METHOD@, ns + ".hash_unsub"@),
        (ns + ".schema"@, PLEXUS_NOTIF_METHOD@, ns + ".schema_unsub"@),
        ("_info"@, PLEXUS_NOTIF_METHOD@, "_info_unsub"@),
    ]
}

/// The views of (method, notification, unsubscribe) name triples.
pub open spec fn triple_views(m: Seq<(String, String, String)>) -> Seq<(Seq<char>, Seq<char>, Seq<char>)> {
    m.map_values(|p: (String, String, String)| (p.0@, p.1@, p.2@))
}

/// The subscription (method, notification, unsubscribe) names that a hub
/// with runtime namespace `namespace` registers, in registration order.
pub fn hub_subscription_methods(namespace: &str) -> (m: Vec<(String, String, String)>)
    ensures
        triple_views(m@) == hub_methods(namespace@),
{
    let mut m: Vec<(String, String, String)> = Vec::new();
    m.push((concat2(namespace, ".call"), String::from_str(PLEXUS_NOTIF_METHOD), concat2(namespace, ".call_unsub")));
    m.push((concat2(namespace, ".hash"), String::from_str(PLEXUS_NOTIF_METHOD), concat2(namespace, ".hash_unsub")));
    m.push((concat2(namespace, ".schema"), String::from_str(PLEXUS_NOTIF_METHOD), concat2(namespace, ".schema_unsub")));
    m.push((String::from_str("_info"), String::from_str(PLEXUS_NOTIF_METHOD), String::from_str("_info_unsub")));
    assert(triple_views(m@) =~= hub_methods(namespace@));
    m
}

/// The JSON-RPC code of invalid parameters.
pub const INVALID_PARAMS: i32 = -32602;

/// Finds the schema of method `name` among the methods of a plugin schema,
/// given by their names: the index of the first method so named, or the
/// invalid-parameters error `Method '<name>' not found`.
pub fn find_schema_method(methods: &Vec<String>, name: &str) -> (r: Result<usize, (i32, String)>)
    ensures
        match r {
            Ok(i) => i < methods.len() && methods@[i as int]@ == name@
                && forall|j: int| 0 <= j < i ==> methods@[j]@ != name@,
            Err((code, message)) => code == INVALID_PARAMS
                && message@ == "Method '"@ + name@ + "' not found"@
                && forall|j: int| 0 <= j < methods.len() ==> methods@[j]@ != name@,
        },
{
    let mut i: usize = 0;
    while i < methods.len()
        invariant
            i <= methods.len(),
            forall|j: int| 0 <= j < i ==> methods@[j]@ != name@,
        decreases methods.len() - i,
    {
        if crate::text::same_text(methods[i].as_str(), name) {
            return Ok(i);
        }
        i += 1;
    }
    Err((INVALID_PARAMS, concat3("Method '", name, "' not found")))
}

/// The JSON-RPC code of a server error.
pub const SERVER_ERROR: i32 = -32000;

/// The method through which a WebSocket client answers a server request:
/// `ns.respond`.
pub fn respond_method_name(namespace: &str) -> (name: String)
    ensures
        name@ == namespace@ + ".respond"@,
{
    concat2(namespace, ".respond")
}

/// The JSON-RPC error of handing a client's response for `request_id` to
/// the registry, when handing it over failed with `e`.
pub open spec fn respond_error(request_id: Seq<char>, e: BidirError) -> (i32, Seq<char>) {
    match e {
        BidirError::UnknownRequest => (
            INVALID_PARAMS,
            "Unknown request ID: "@ + request_id
                + ". The request may have timed out or been cancelled."@,
        ),
        BidirError::ChannelClosed => (
            SERVER_ERROR,
            "Response channel was closed (request may have timed out)"@,
        ),
        _ => (SERVER_ERROR, "Failed to deliver response: "@ + bidir_error_text(e)),
    }
}

/// The reply of `ns.respond` once the response for `request_id` was handed
/// over with result `r`: success, or the JSON-RPC error for the failure.
pub fn respond_outcome(request_id: &str, r: Result<(), BidirError>) -> (o: Result<(), (i32, String)>)
    ensures
        match r {
            Ok(()) => o is Ok,
            Err(e) => o matches Err((code, message))
                && code == respond_error(request_id@, e).0
                && message@ == respond_error(request_id@, e).1,
        },
{
    match r {
        Ok(()) => Ok(()),
        Err(BidirError::UnknownRequest) => Err((
            INVALID_PARAMS,
            concat3(
                "Unknown request ID: ",
                request_id,
                ". The request may have timed out or been cancelled.",
            ),
        )),
        Err(BidirError::ChannelClosed) => Err((
            SERVER_ERROR,
            String::from_str("Response channel was closed (request may have timed out)"),
        )),
        Err(e) => {
            let text = e.to_string();
            Err((SERVER_ERROR, concat2("Failed to deliver response: ", text.as_str())))
        },
    }
}

} // verus!
