//! The routing core of a dynamic hub: its error type, the plugin registry
//! that maps stable plugin IDs to paths, method-name parsing, and the
//! routing decisions of a hub that hosts activations under namespaces.

use vstd::prelude::*;
use std::collections::HashMap;
use crate::name_map::NameMap;
use crate::text::{
    concat2, concat3, decimal, decimal_string, index_of, lemma_index_of, lemma_index_of_unique,
    push_decimal,
    same_text, split_once, split_once_at,
};
use crate::foreign::{oid_uuid_v5, uuid_v5_oid};
use vstd::std_specs::iter::IteratorSpec;

verus! {

broadcast use vstd::std_specs::hash::group_hash_axioms;

/// The JSON-RPC method name used in all plexus subscription notifications.
pub const PLEXUS_NOTIF_METHOD: &'static str = "result";

// ============================================================================
// Error Types
// ============================================================================

/// Kinds of transport failure.
#[derive(Debug, Clone)]
pub enum TransportErrorKind {
    /// The peer refused the connection.
    ConnectionRefused { host: String, port: u16 },
    /// The connection attempt timed out.
    ConnectionTimeout { host: String, port: u16 },
    /// The peer violated the protocol.
    ProtocolError { message: String },
    /// Any other network failure.
    NetworkError { message: String },
}

/// Errors of routing and executing Plexus calls.
#[derive(Debug, Clone)]
pub enum PlexusError {
    ActivationNotFound(String),
    MethodNotFound { activation: String, method: String },
    InvalidParams(String),
    ExecutionError(String),
    HandleNotSupported(String),
    TransportError(TransportErrorKind),
    Unauthenticated(String),
}

/// The text a transport error kind displays as.
pub open spec fn transport_text(k: TransportErrorKind) -> Seq<char> {
    match k {
        TransportErrorKind::ConnectionRefused { host, port } =>
            "Connection refused to "@ + host@ + ":"@ + decimal(port as nat),
        TransportErrorKind::ConnectionTimeout { host, port } =>
            "Connection timeout to "@ + host@ + ":"@ + decimal(port as nat),
        TransportErrorKind::ProtocolError { message } => "Protocol error: "@ + message@,
        TransportErrorKind::NetworkError { message } => "Network error: "@ + message@,
    }
}

/// The text a Plexus error displays as.
pub open spec fn plexus_error_text(e: PlexusError) -> Seq<char> {
    match e {
        PlexusError::ActivationNotFound(name) => "Activation not found: "@ + name@,
        PlexusError::MethodNotFound { activation, method } =>
            "Method not found: "@ + activation@ + "."@ + method@,
        PlexusError::InvalidParams(msg) => "Invalid params: "@ + msg@,
        PlexusError::ExecutionError(msg) => "Execution error: "@ + msg@,
        PlexusError::HandleNotSupported(activation) =>
            "Handle resolution not supported by activation: "@ + activation@,
        PlexusError::TransportError(kind) => transport_text(kind),
        PlexusError::Unauthenticated(msg) => "Authentication required: "@ + msg@,
    }
}

/// `head`, then `host`, a colon and the port number.
fn host_port_text(head: &str, host: &String, port: u16) -> (s: String)
    ensures
        s@ == head@ + host@ + ":"@ + decimal(port as nat),
{
    let mut s = concat3(head, host.as_str(), ":");
    push_decimal(&mut s, port as u64);
    s
}

impl TransportErrorKind {
    /// The kind's display text.
    pub fn to_string(&self) -> (s: String)
        ensures
            s@ == transport_text(*self),
    {
        match self {
            TransportErrorKind::ConnectionRefused { host, port } =>
                host_port_text("Connection refused to ", host, *port),
            TransportErrorKind::ConnectionTimeout { host, port } =>
                host_port_text("Connection timeout to ", host, *port),
            TransportErrorKind::ProtocolError { message } =>
                concat2("Protocol error: ", message.as_str()),
            TransportErrorKind::NetworkError { message } =>
                concat2("Network error: ", message.as_str()),
        }
    }
}

impl PlexusError {
    /// The error's display text.
    pub fn to_string(&self) -> (s: String)
        ensures
            s@ == plexus_error_text(*self),
    {
        match self {
            PlexusError::ActivationNotFound(name) => concat2("Activation not found: ", name.as_str()),
            PlexusError::MethodNotFound { activation, method } => {
                let head = concat3("Method not found: ", activation.as_str(), ".");
                concat2(head.as_str(), method.as_str())
            },
            PlexusError::InvalidParams(msg) => concat2("Invalid params: ", msg.as_str()),
            PlexusError::ExecutionError(msg) => concat2("Execution error: ", msg.as_str()),
            PlexusError::HandleNotSupported(activation) => concat2(
                "Handle resolution not supported by activation: ",
                activation.as_str(),
            ),
            PlexusError::TransportError(kind) => kind.to_string(),
            PlexusError::Unauthenticated(msg) => concat2("Authentication required: ", msg.as_str()),
        }
    }
}

/// The semantic JSON-RPC error code of each Plexus error.
pub open spec fn error_code_of(e: PlexusError) -> int {
    match e {
        PlexusError::Unauthenticated(_) => -32001,
        PlexusError::InvalidParams(_) => -32602,
        PlexusError::MethodNotFound { .. } | PlexusError::ActivationNotFound(_) => -32601,
        _ => -32000,
    }
}

/// Only four errors get a special JSON-RPC code: a missing authentication
/// (-32001), invalid parameters (the standard -32602), and a method or
/// activation that is not found (the standard -32601). Every other error,
/// a handle that is not supported included, is the generic server error
/// -32000.
pub proof fn lemma_error_code_table(text: String, activation: String, method: String, kind: TransportErrorKind)
    ensures
        error_code_of(PlexusError::Unauthenticated(text)) == -32001,
        error_code_of(PlexusError::InvalidParams(text)) == -32602,
        error_code_of(PlexusError::InvalidParams(text)) == crate::plexus::error_codes::code_number(
            crate::plexus::error_codes::ErrorCode::InvalidParams,
        ),
        error_code_of(PlexusError::MethodNotFound { activation, method }) == -32601,
        error_code_of(PlexusError::ActivationNotFound(text)) == -32601,
        error_code_of(PlexusError::ActivationNotFound(text)) == crate::plexus::error_codes::code_number(
            crate::plexus::error_codes::ErrorCode::MethodNotFound,
        ),
        error_code_of(PlexusError::HandleNotSupported(text)) == -32000,
        error_code_of(PlexusError::ExecutionError(text)) == -32000,
        error_code_of(PlexusError::TransportError(kind)) == -32000,
{
}

/// Get the semantic JSON-RPC error code for a PlexusError: -32001 when
/// authentication is required, -32601 when the method or activation is not
/// found, -32602 for invalid parameters, and -32000 for every other error.
pub fn plexus_error_code(e: &PlexusError) -> (code: i32)
    ensures
        code == error_code_of(*e),
{
    match e {
        PlexusError::Unauthenticated(_) => -32001,
        PlexusError::InvalidParams(_) => -32602,
        PlexusError::MethodNotFound { .. } | PlexusError::ActivationNotFound(_) => -32601,
        _ => -32000,
    }
}

// ============================================================================
// Schema and event types
// ============================================================================

/// Summary of one activation.
#[derive(Debug, Clone)]
pub struct ActivationInfo {
    pub namespace: String,
    pub version: String,
    pub description: String,
    pub methods: Vec<String>,
}

/// Event of the hash method.
#[derive(Debug, Clone)]
pub enum HashEvent {
    Hash { value: String },
}

/// Lightweight hash information for cache validation.
#[derive(Debug, Clone)]
pub struct PluginHashes {
    pub namespace: String,
    pub self_hash: String,
    pub children_hash: Option<String>,
    pub hash: String,
    /// Child plugin hashes (for recursive checking)
    pub children: Option<Vec<ChildHashes>>,
}

/// Hash information for a child plugin.
#[derive(Debug, Clone)]
pub struct ChildHashes {
    pub namespace: String,
    pub hash: String,
}

// ============================================================================
// Plugin identity
// ============================================================================

/// The major part of a version: the text before its first dot, or the
/// whole version when it has none.
pub open spec fn major_version(version: Seq<char>) -> Seq<char> {
    match split_once(version, '.') {
        Some(parts) => parts.0,
        None => version,
    }
}

/// The stable plugin ID of an activation: the name-based (version 5) UUID,
/// in the OID namespace, of `"<namespace>@<major version>"`.
pub open spec fn plugin_id_of(namespace: Seq<char>, version: Seq<char>) -> u128 {
    oid_uuid_v5(namespace + "@"@ + major_version(version))
}

/// Stable activation instance ID for handle routing, from the namespace and
/// the major version only, so that handles survive minor and patch upgrades.
pub fn plugin_id(namespace: &str, version: &str) -> (id: u128)
    ensures
        id == plugin_id_of(namespace@, version@),
{
    let major = match split_once_at(version, '.') {
        Some(parts) => parts.0,
        None => String::from_str(version),
    };
    let name = concat3(namespace, "@", major.as_str());
    uuid_v5_oid(name.as_str())
}

/// Versions with the same major part give the same plugin ID.
pub proof fn lemma_plugin_id_ignores_minor(namespace: Seq<char>, v1: Seq<char>, v2: Seq<char>)
    requires
        major_version(v1) == major_version(v2),
    ensures
        plugin_id_of(namespace, v1) == plugin_id_of(namespace, v2),
{
}

/// The plugin ID is the UUID v5 of `namespace@major`, where the major part
/// is everything of the version before its first dot (the whole version
/// when it has no dot): versions that agree up to their first dot share an
/// ID, whatever that leading part is.
pub proof fn lemma_plugin_id_is_namespace_at_leading_part(namespace: Seq<char>, version: Seq<char>)
    ensures
        index_of(version, '.') >= 0 ==> plugin_id_of(namespace, version)
            == oid_uuid_v5(namespace + "@"@ + version.take(index_of(version, '.'))),
        index_of(version, '.') < 0 ==> plugin_id_of(namespace, version)
            == oid_uuid_v5(namespace + "@"@ + version),
{
}

/// Two versions that agree up to and including their first dot give the
/// same plugin ID.
pub proof fn lemma_plugin_id_shared_by_leading_part(
    namespace: Seq<char>,
    lead: Seq<char>,
    rest1: Seq<char>,
    rest2: Seq<char>,
)
    requires
        forall|i: int| 0 <= i < lead.len() ==> lead[i] != '.',
    ensures
        plugin_id_of(namespace, lead + "."@ + rest1) == plugin_id_of(namespace, lead + "."@ + rest2),
        plugin_id_of(namespace, lead + "."@ + rest1) == oid_uuid_v5(namespace + "@"@ + lead),
{
    reveal_strlit(".");
    let v1 = lead + "."@ + rest1;
    let v2 = lead + "."@ + rest2;
    assert(v1[lead.len() as int] == '.');
    assert(v2[lead.len() as int] == '.');
    assert forall|j: int| 0 <= j < lead.len() implies v1[j] != '.' by {
        assert(v1[j] == lead[j]);
    }
    assert forall|j: int| 0 <= j < lead.len() implies v2[j] != '.' by {
        assert(v2[j] == lead[j]);
    }
    lemma_index_of_unique(v1, '.', lead.len() as int);
    lemma_index_of_unique(v2, '.', lead.len() as int);
    assert(v1.take(lead.len() as int) =~= lead);
    assert(v2.take(lead.len() as int) =~= lead);
}

/// The lowercase hexadecimal digit of `d` (0 through 15).
pub open spec fn hex_char(d: nat) -> char {
    if d < 10 { crate::text::digit_char(d) }
    else if d == 10 { 'a' }
    else if d == 11 { 'b' }
    else if d == 12 { 'c' }
    else if d == 13 { 'd' }
    else if d == 14 { 'e' }
    else { 'f' }
}

/// The last `count` hexadecimal digits of `n`, zero-padded.
pub open spec fn hex_digits(n: nat, count: nat) -> Seq<char>
    decreases count,
{
    if count == 0 {
        Seq::empty()
    } else {
        hex_digits(n / 16, (count - 1) as nat).push(hex_char(n % 16))
    }
}

/// The hyphenated text of a UUID: 32 lowercase hex digits in groups of
/// 8, 4, 4, 4 and 12.
pub open spec fn uuid_text(id: u128) -> Seq<char> {
    hex_digits(id as nat / 0x1_0000_0000_0000_0000_0000_0000, 8) + "-"@
        + hex_digits((id as nat / 0x1_0000_0000_0000_0000_0000) % 0x1_0000, 4) + "-"@
        + hex_digits((id as nat / 0x1_0000_0000_0000_0000) % 0x1_0000, 4) + "-"@
        + hex_digits((id as nat / 0x1_0000_0000_0000) % 0x1_0000, 4) + "-"@
        + hex_digits(id as nat % 0x1_0000_0000_0000, 12)
}

fn hex_str(d: u128) -> (s: &'static str)
    requires
        d < 16,
    ensures
        s@ == seq![hex_char(d as nat)],
{
    proof {
        reveal_strlit("0");
        reveal_strlit("1");
        reveal_strlit("2");
        reveal_strlit("3");
        reveal_strlit("4");
        reveal_strlit("5");
        reveal_strlit("6");
        reveal_strlit("7");
        reveal_strlit("8");
        reveal_strlit("9");
        reveal_strlit("a");
        reveal_strlit("b");
        reveal_strlit("c");
        reveal_strlit("d");
        reveal_strlit("e");
        reveal_strlit("f");
    }
    if d == 0 { "0" }
    else if d == 1 { "1" }
    else if d == 2 { "2" }
    else if d == 3 { "3" }
    else if d == 4 { "4" }
    else if d == 5 { "5" }
    else if d == 6 { "6" }
    else if d == 7 { "7" }
    else if d == 8 { "8" }
    else if d == 9 { "9" }
    else if d == 10 { "a" }
    else if d == 11 { "b" }
    else if d == 12 { "c" }
    else if d == 13 { "d" }
    else if d == 14 { "e" }
    else { "f" }
}

fn push_hex(s: &mut String, n: u128, count: u32)
    ensures
        final(s)@ == old(s)@ + hex_digits(n as nat, count as nat),
    decreases count,
{
    if count > 0 {
        push_hex(s, n / 16, count - 1);
        s.append(hex_str(n % 16));
    } else {
        assert(old(s)@ + Seq::<char>::empty() == old(s)@);
    }
}

/// The hyphenated text of a UUID, as uuid's `to_string` prints it.
pub fn uuid_string(id: u128) -> (s: String)
    ensures
        s@ == uuid_text(id),
{
    let mut s = String::new();
    push_hex(&mut s, id / 0x1_0000_0000_0000_0000_0000_0000, 8);
    s.append("-");
    push_hex(&mut s, (id / 0x1_0000_0000_0000_0000_0000) % 0x1_0000, 4);
    s.append("-");
    push_hex(&mut s, (id / 0x1_0000_0000_0000_0000) % 0x1_0000, 4);
    s.append("-");
    push_hex(&mut s, (id / 0x1_0000_0000_0000) % 0x1_0000, 4);
    s.append("-");
    push_hex(&mut s, id % 0x1_0000_0000_0000, 12);
    s
}

// ============================================================================
// Activation Registry
// ============================================================================

/// Entry in the activation registry.
#[derive(Debug, Clone)]
pub struct PluginEntry {
    /// Stable activation instance ID
    pub id: u128,
    /// Current path/namespace for this activation
    pub path: String,
    /// Activation type (e.g., "cone", "bash", "arbor")
    pub plugin_type: String,
}

/// Registry mapping activation IDs to their current paths, and paths back
/// to IDs, so that handles route by stable ID rather than by path.
pub struct PluginRegistry {
    by_id: HashMap<u128, PluginEntry>,
    by_path: NameMap<u128>,
}

/// Read-only snapshot of the activation registry.
pub struct PluginRegistrySnapshot {
    by_id: HashMap<u128, PluginEntry>,
    by_path: NameMap<u128>,
}

/// The invariant shared by a registry and its snapshots: each entry is
/// filed under its own ID, and each path leads to a registered ID.
pub open spec fn registry_wf(
    by_id: Map<u128, PluginEntry>,
    by_path: Map<Seq<char>, u128>,
) -> bool {
    &&& forall|id: u128| #[trigger] by_id.contains_key(id) ==> by_id[id].id == id
    &&& forall|p: Seq<char>| #[trigger] by_path.contains_key(p) ==> by_id.contains_key(by_path[p])
}

/// `listed` holds every entry of `entries` and nothing else: one item per
/// registered ID, each the entry registered under its ID.
pub open spec fn listed_entries(entries: Map<u128, PluginEntry>, listed: Seq<&PluginEntry>) -> bool {
    &&& listed.len() == entries.len()
    &&& forall|i: int| 0 <= i < listed.len() ==> {
        &&& entries.contains_key(#[trigger] listed[i].id)
        &&& entries[listed[i].id] == *listed[i]
    }
    &&& forall|id: u128| #[trigger] entries.contains_key(id)
        ==> exists|i: int| 0 <= i < listed.len() && listed[i].id == id
}

/// The entries of `by_id`, walked in the map's order.
fn list_entries(by_id: &HashMap<u128, PluginEntry>) -> (r: Vec<&PluginEntry>)
    requires
        forall|id: u128| #[trigger] by_id@.contains_key(id) ==> by_id@[id].id == id,
    ensures
        listed_entries(by_id@, r@),
{
    let values = by_id.values();
    let ghost vs = values;
    let mut r: Vec<&PluginEntry> = Vec::new();
    for e in it: values
        invariant
            it.seq() == vs.remaining(),
            r@.len() == it.index(),
            forall|i: int| 0 <= i < it.index() ==> r@[i] == it.seq()[i],
    {
        r.push(e);
    }
    proof {
        let rem = vs.remaining();
        assert(r@ =~= rem);
        vstd::std_specs::hash::axiom_spec_values_iter(by_id);
        let vals = rem.unref();
        assert forall|i: int| 0 <= i < r@.len() implies {
            &&& by_id@.contains_key(#[trigger] r@[i].id)
            &&& by_id@[r@[i].id] == *r@[i]
        } by {
            assert(vals[i] == *r@[i]);
            assert(vals.to_set().contains(vals[i]));
            assert(by_id@.values().contains(*r@[i]));
            let k = choose|k: u128| by_id@.contains_key(k) && by_id@[k] == *r@[i];
            assert(by_id@[k].id == k);
        }
        assert forall|id: u128| #[trigger] by_id@.contains_key(id)
            implies exists|i: int| 0 <= i < r@.len() && r@[i].id == id by {
            assert(by_id@.values().contains(by_id@[id]));
            assert(vals.to_set().contains(by_id@[id]));
            let j = choose|j: int| 0 <= j < vals.len() && vals[j] == by_id@[id];
            assert(r@[j].id == id);
        }
    }
    r
}

impl PluginRegistry {
    /// Entries by ID.
    pub closed spec fn entries(&self) -> Map<u128, PluginEntry> {
        self.by_id@
    }

    /// IDs by path.
    pub closed spec fn paths(&self) -> Map<Seq<char>, u128> {
        self.by_path@
    }

    /// The registry is consistent.
    pub closed spec fn wf(&self) -> bool {
        &&& self.by_path.wf()
        &&& registry_wf(self.by_id@, self.by_path@)
    }

    /// Create a new empty registry.
    pub fn new() -> (r: Self)
        ensures
            r.wf(),
            r.entries() == Map::<u128, PluginEntry>::empty(),
            r.paths() == Map::<Seq<char>, u128>::empty(),
    {
        PluginRegistry { by_id: HashMap::new(), by_path: NameMap::new() }
    }

    /// Look up an activation's path by its ID.
    pub fn lookup(&self, id: u128) -> (r: Option<&str>)
        requires
            self.wf(),
        ensures
            match r {
                Some(p) => self.entries().contains_key(id) && p@ == self.entries()[id].path@,
                None => !self.entries().contains_key(id),
            },
    {
        match self.by_id.get(&id) {
            Some(e) => Some(e.path.as_str()),
            None => None,
        }
    }

    /// Look up an activation's ID by its path.
    pub fn lookup_by_path(&self, path: &str) -> (r: Option<u128>)
        requires
            self.wf(),
        ensures
            match r {
                Some(id) => self.paths().contains_key(path@) && id == self.paths()[path@],
                None => !self.paths().contains_key(path@),
            },
    {
        match self.by_path.get(path) {
            Some(id) => Some(*id),
            None => None,
        }
    }

    /// Get an activation entry by its ID.
    pub fn get(&self, id: u128) -> (r: Option<&PluginEntry>)
        requires
            self.wf(),
        ensures
            match r {
                Some(e) => self.entries().contains_key(id) && *e == self.entries()[id],
                None => !self.entries().contains_key(id),
            },
    {
        self.by_id.get(&id)
    }

    /// Register an activation under `id` at `path`.
    pub fn register(&mut self, id: u128, path: String, plugin_type: String)
        requires
            old(self).wf(),
        ensures
            final(self).wf(),
            final(self).entries() == old(self).entries().insert(
                id,
                PluginEntry { id, path, plugin_type },
            ),
            final(self).paths() == old(self).paths().insert(path@, id),
    {
        let entry = PluginEntry { id, path: path.clone(), plugin_type };
        self.by_id.insert(id, entry);
        self.by_path.insert(path, id);
    }

    /// All registered entries, each once, in the order the map walks them.
    pub fn list(&self) -> (r: Vec<&PluginEntry>)
        requires
            self.wf(),
        ensures
            listed_entries(self.entries(), r@),
    {
        list_entries(&self.by_id)
    }

    /// Get the number of registered plugins.
    pub fn len(&self) -> (n: usize)
        requires
            self.wf(),
        ensures
            n == self.entries().len(),
    {
        self.by_id.len()
    }

    /// Check if the registry is empty.
    pub fn is_empty(&self) -> (b: bool)
        requires
            self.wf(),
        ensures
            b == (self.entries().len() == 0),
    {
        self.by_id.is_empty()
    }

    /// A read-only snapshot of the registry, safe to use outside locks.
    pub fn snapshot(&self) -> (s: PluginRegistrySnapshot)
        requires
            self.wf(),
        ensures
            s.wf(),
            s.entries() == self.entries(),
            s.paths() == self.paths(),
    {
        PluginRegistrySnapshot { by_id: self.by_id.clone(), by_path: self.by_path.copy() }
    }
}

impl PluginRegistrySnapshot {
    /// Entries by ID.
    pub closed spec fn entries(&self) -> Map<u128, PluginEntry> {
        self.by_id@
    }

    /// IDs by path.
    pub closed spec fn paths(&self) -> Map<Seq<char>, u128> {
        self.by_path@
    }

    /// The snapshot is consistent.
    pub closed spec fn wf(&self) -> bool {
        &&& self.by_path.wf()
        &&& registry_wf(self.by_id@, self.by_path@)
    }

    /// Look up an activation's path by its ID.
    pub fn lookup(&self, id: u128) -> (r: Option<&str>)
        requires
            self.wf(),
        ensures
            match r {
                Some(p) => self.entries().contains_key(id) && p@ == self.entries()[id].path@,
                None => !self.entries().contains_key(id),
            },
    {
        match self.by_id.get(&id) {
            Some(e) => Some(e.path.as_str()),
            None => None,
        }
    }

    /// Look up an activation's ID by its path.
    pub fn lookup_by_path(&self, path: &str) -> (r: Option<u128>)
        requires
            self.wf(),
        ensures
            match r {
                Some(id) => self.paths().contains_key(path@) && id == self.paths()[path@],
                None => !self.paths().contains_key(path@),
            },
    {
        match self.by_path.get(path) {
            Some(id) => Some(*id),
            None => None,
        }
    }

    /// Get an activation entry by its ID.
    pub fn get(&self, id: u128) -> (r: Option<&PluginEntry>)
        requires
            self.wf(),
        ensures
            match r {
                Some(e) => self.entries().contains_key(id) && *e == self.entries()[id],
                None => !self.entries().contains_key(id),
            },
    {
        self.by_id.get(&id)
    }

    /// All registered entries, each once, in the order the map walks them.
    pub fn list(&self) -> (r: Vec<&PluginEntry>)
        requires
            self.wf(),
        ensures
            listed_entries(self.entries(), r@),
    {
        list_entries(&self.by_id)
    }

    /// Get the number of registered plugins.
    pub fn len(&self) -> (n: usize)
        requires
            self.wf(),
        ensures
            n == self.entries().len(),
    {
        self.by_id.len()
    }

    /// Check if the registry is empty.
    pub fn is_empty(&self) -> (b: bool)
        requires
            self.wf(),
        ensures
            b == (self.entries().len() == 0),
    {
        self.by_id.is_empty()
    }
}

} // verus!

verus! {

// ============================================================================
// Method names and routing
// ============================================================================

/// `a`, a dot, then `b`.
pub open spec fn dotted(a: Seq<char>, b: Seq<char>) -> Seq<char> {
    a + "."@ + b
}

/// Whether `s` holds a dot.
pub open spec fn has_dot(s: Seq<char>) -> bool {
    exists|i: int| 0 <= i < s.len() && s[i] == '.'
}

/// Splitting `namespace.method` at its first dot gives back the namespace
/// and the method, when the namespace holds no dot.
pub proof fn lemma_split_dotted(a: Seq<char>, b: Seq<char>)
    requires
        !has_dot(a),
    ensures
        split_once(dotted(a, b), '.') == Some((a, b)),
{
    reveal_strlit(".");
    let s = dotted(a, b);
    assert(s[a.len() as int] == '.');
    assert forall|j: int| 0 <= j < a.len() implies s[j] != '.' by {
        assert(s[j] == a[j]);
    }
    crate::text::lemma_index_of_unique(s, '.', a.len() as int);
    assert(s.take(a.len() as int) =~= a);
    assert(s.skip(a.len() as int + 1) =~= b);
}

/// Split a method name `namespace.method` at its first dot.
pub fn parse_method(method: &str) -> (r: Result<(String, String), PlexusError>)
    ensures
        match split_once(method@, '.') {
            Some(parts) => r matches Ok(p) && p.0@ == parts.0 && p.1@ == parts.1,
            None => r matches Err(PlexusError::InvalidParams(msg))
                && msg@ == "Invalid method format: "@ + method@,
        },
{
    match split_once_at(method, '.') {
        Some(parts) => Ok(parts),
        None => Err(PlexusError::InvalidParams(concat2("Invalid method format: ", method))),
    }
}

/// Where a call is routed.
#[derive(Debug, Clone)]
pub enum RouteTarget {
    /// One of the hub's own methods.
    Hub { method: String },
    /// A method of the activation registered under `namespace`.
    Activation { namespace: String, method: String },
}

/// The routing decision for `method` on a hub named `root` that hosts
/// activations under the namespaces in `hosted`: the hub's own namespace
/// first, then the registered activations.
pub enum Routing {
    Hub(Seq<char>),
    Activation(Seq<char>, Seq<char>),
    InvalidFormat,
    NotFound(Seq<char>),
}

/// How a hub routes `method`.
pub open spec fn route_of(root: Seq<char>, hosted: Set<Seq<char>>, method: Seq<char>) -> Routing {
    match split_once(method, '.') {
        None => Routing::InvalidFormat,
        Some(parts) => if parts.0 == root {
            Routing::Hub(parts.1)
        } else if hosted.contains(parts.0) {
            Routing::Activation(parts.0, parts.1)
        } else {
            Routing::NotFound(parts.0)
        },
    }
}

/// The middle of a namespace-shadow message, after the two names.
pub const SHADOW_EXPLANATION_HEAD: &'static str = "'. The hub root name is a routing namespace, not a label — routing resolves the root first, so a like-named child activation is unreachable (every '";

/// The part of a namespace-shadow message that explains the fix.
pub const SHADOW_EXPLANATION_TAIL: &'static str = ".<method>' call resolves to the hub root and fails with 'Command not found', and navigation resolves the child back to the root schema). Fix: rename the hub root so it differs from every registered activation's namespace, e.g. DynamicHub::new(\"";

/// The message refusing to register `child` under a hub whose root is
/// `root`: both names, why such a child is unreachable, and the fix.
pub open spec fn root_shadow_text(child: Seq<char>, root: Seq<char>) -> Seq<char> {
    "DynamicHub namespace shadow: activation namespace '"@ + child
        + "' collides with the hub root namespace '"@ + root
        + SHADOW_EXPLANATION_HEAD@ + child
        + SHADOW_EXPLANATION_TAIL@ + root
        + "_hub\").register(...). [Z2H-8 / HOSTLESS-3]"@
}

/// The routing state of a dynamic hub: its root namespace, the namespaces
/// of its registered activations, and the plugin registry.
pub struct HubRouting {
    namespace: String,
    activations: NameMap<u128>,
    registry: PluginRegistry,
}

impl HubRouting {
    /// The hub's root namespace.
    pub closed spec fn root(&self) -> Seq<char> {
        self.namespace@
    }

    /// Registered activation namespaces and their plugin IDs.
    pub closed spec fn hosted(&self) -> Map<Seq<char>, u128> {
        self.activations@
    }

    /// Plugin entries by ID.
    pub closed spec fn entries(&self) -> Map<u128, PluginEntry> {
        self.registry.entries()
    }

    /// Plugin IDs by path.
    pub closed spec fn paths(&self) -> Map<Seq<char>, u128> {
        self.registry.paths()
    }

    /// The state is consistent, and no activation shadows the root.
    pub closed spec fn wf(&self) -> bool {
        &&& self.activations.wf()
        &&& self.registry.wf()
        &&& !self.activations@.contains_key(self.namespace@)
        &&& forall|ns: Seq<char>| #[trigger] self.activations@.contains_key(ns)
            ==> self.registry.paths().contains_key(ns)
    }

    /// A hub named `namespace` with nothing registered.
    pub fn new(namespace: String) -> (h: Self)
        ensures
            h.wf(),
            h.root() == namespace@,
            h.hosted() == Map::<Seq<char>, u128>::empty(),
            h.entries() == Map::<u128, PluginEntry>::empty(),
            h.paths() == Map::<Seq<char>, u128>::empty(),
    {
        HubRouting { namespace, activations: NameMap::new(), registry: PluginRegistry::new() }
    }

    /// The runtime namespace of this hub.
    pub fn runtime_namespace(&self) -> (s: &str)
        ensures
            s@ == self.root(),
    {
        self.namespace.as_str()
    }

    /// Whether an activation under `child_namespace` would shadow the hub
    /// root, which routing resolves first (such a child is unreachable).
    pub fn shadows_root(&self, child_namespace: &str) -> (b: bool)
        ensures
            b == (child_namespace@ == self.root()),
    {
        same_text(child_namespace, self.namespace.as_str())
    }

    /// Why registering `child_namespace` is refused when it shadows the
    /// root: names both sides, explains the failure and suggests the fix.
    pub fn shadow_message(&self, child_namespace: &str) -> (s: String)
        ensures
            s@ == root_shadow_text(child_namespace@, self.root()),
    {
        let root = self.namespace.as_str();
        let mut s = String::from_str("DynamicHub namespace shadow: activation namespace '");
        s.append(child_namespace);
        s.append("' collides with the hub root namespace '");
        s.append(root);
        s.append(SHADOW_EXPLANATION_HEAD);
        s.append(child_namespace);
        s.append(SHADOW_EXPLANATION_TAIL);
        s.append(root);
        s.append("_hub\").register(...). [Z2H-8 / HOSTLESS-3]");
        s
    }

    /// Register an activation under `namespace` with plugin ID `plugin_id`.
    /// The namespace is recorded as the plugin's path and type.
    pub fn register(&mut self, namespace: String, plugin_id: u128)
        requires
            old(self).wf(),
            namespace@ != old(self).root(),
        ensures
            final(self).wf(),
            final(self).root() == old(self).root(),
            final(self).hosted() == old(self).hosted().insert(namespace@, plugin_id),
            final(self).entries() == old(self).entries().insert(
                plugin_id,
                PluginEntry { id: plugin_id, path: namespace, plugin_type: namespace },
            ),
            final(self).paths() == old(self).paths().insert(namespace@, plugin_id),
    {
        let path = namespace.clone();
        let kind = namespace.clone();
        self.registry.register(plugin_id, path, kind);
        self.activations.insert(namespace, plugin_id);
    }

    /// Route a call: the hub's own methods first, then the activation
    /// registered under the namespace before the first dot.
    pub fn route(&self, method: &str) -> (r: Result<RouteTarget, PlexusError>)
        requires
            self.wf(),
        ensures
            match route_of(self.root(), self.hosted().dom(), method@) {
                Routing::Hub(m) => r matches Ok(RouteTarget::Hub { method: x }) && x@ == m,
                Routing::Activation(ns, m) => r matches Ok(
                    RouteTarget::Activation { namespace: a, method: x },
                ) && a@ == ns && x@ == m,
                Routing::InvalidFormat => r matches Err(PlexusError::InvalidParams(msg))
                    && msg@ == "Invalid method format: "@ + method@,
                Routing::NotFound(ns) => r matches Err(PlexusError::ActivationNotFound(a))
                    && a@ == ns,
            },
    {
        let (namespace, method_name) = match parse_method(method) {
            Ok(parts) => parts,
            Err(e) => return Err(e),
        };
        if namespace == self.namespace {
            return Ok(RouteTarget::Hub { method: method_name });
        }
        if self.activations.contains(namespace.as_str()) {
            Ok(RouteTarget::Activation { namespace, method: method_name })
        } else {
            Err(PlexusError::ActivationNotFound(namespace))
        }
    }

    /// The path of the activation that resolves handles of plugin
    /// `plugin_id`: unknown IDs fail with the ID's text, and paths with no
    /// activation fail with the path.
    pub fn resolve_handle_target(&self, plugin_id: u128) -> (r: Result<String, PlexusError>)
        requires
            self.wf(),
        ensures
            !self.entries().contains_key(plugin_id) ==> (r matches Err(
                PlexusError::ActivationNotFound(a),
            ) && a@ == uuid_text(plugin_id)),
            self.entries().contains_key(plugin_id) ==> {
                let path = self.entries()[plugin_id].path@;
                if self.hosted().contains_key(path) {
                    r matches Ok(p) && p@ == path
                } else {
                    r matches Err(PlexusError::ActivationNotFound(a)) && a@ == path
                }
            },
    {
        match self.registry.lookup(plugin_id) {
            None => Err(PlexusError::ActivationNotFound(uuid_string(plugin_id))),
            Some(path) => {
                let p = String::from_str(path);
                if self.activations.contains(path) {
                    Ok(p)
                } else {
                    Err(PlexusError::ActivationNotFound(p))
                }
            },
        }
    }

    /// The activation namespace and method that method help for `method`
    /// is asked of, when the method names a registered activation.
    pub fn method_help_target(&self, method: &str) -> (r: Option<(String, String)>)
        requires
            self.wf(),
        ensures
            match split_once(method@, '.') {
                Some(parts) => if self.hosted().contains_key(parts.0) {
                    r matches Some(p) && p.0@ == parts.0 && p.1@ == parts.1
                } else {
                    r is None
                },
                None => r is None,
            },
    {
        match parse_method(method) {
            Ok(parts) => if self.activations.contains(parts.0.as_str()) {
                Some(parts)
            } else {
                None
            },
            Err(_) => None,
        }
    }

    /// Look up an activation path by its plugin ID.
    pub fn lookup_plugin(&self, id: u128) -> (r: Option<String>)
        requires
            self.wf(),
        ensures
            match r {
                Some(p) => self.entries().contains_key(id) && p@ == self.entries()[id].path@,
                None => !self.entries().contains_key(id),
            },
    {
        match self.registry.lookup(id) {
            Some(p) => Some(String::from_str(p)),
            None => None,
        }
    }

    /// Look up a plugin ID by its path.
    pub fn lookup_plugin_by_path(&self, path: &str) -> (r: Option<u128>)
        requires
            self.wf(),
        ensures
            match r {
                Some(id) => self.paths().contains_key(path@) && id == self.paths()[path@],
                None => !self.paths().contains_key(path@),
            },
    {
        self.registry.lookup_by_path(path)
    }

    /// A snapshot of the plugin registry.
    pub fn registry_snapshot(&self) -> (s: PluginRegistrySnapshot)
        requires
            self.wf(),
        ensures
            s.wf(),
            s.entries() == self.entries(),
            s.paths() == self.paths(),
    {
        self.registry.snapshot()
    }
}

/// Once an activation is registered under a namespace without dots, every
/// `namespace.method` call routes to that activation; calls on the hub's
/// root namespace always stay with the hub.
pub proof fn lemma_route_after_register(
    root: Seq<char>,
    hosted: Set<Seq<char>>,
    namespace: Seq<char>,
    method: Seq<char>,
)
    requires
        !has_dot(namespace),
        namespace != root,
    ensures
        route_of(root, hosted.insert(namespace), dotted(namespace, method))
            == Routing::Activation(namespace, method),
{
    lemma_split_dotted(namespace, method);
}

/// Calls on the hub's root namespace are the hub's own, whatever is hosted.
pub proof fn lemma_root_routes_to_hub(
    root: Seq<char>,
    hosted: Set<Seq<char>>,
    method: Seq<char>,
)
    requires
        !has_dot(root),
    ensures
        route_of(root, hosted, dotted(root, method)) == Routing::Hub(method),
{
    lemma_split_dotted(root, method);
}

/// A namespace that is not registered is reported as not found, by name.
pub proof fn lemma_unregistered_not_found(
    root: Seq<char>,
    hosted: Set<Seq<char>>,
    namespace: Seq<char>,
    method: Seq<char>,
)
    requires
        !has_dot(namespace),
        namespace != root,
        !hosted.contains(namespace),
    ensures
        route_of(root, hosted, dotted(namespace, method)) == Routing::NotFound(namespace),
{
    lemma_split_dotted(namespace, method);
}

/// After `register(id, path, type)`, the ID leads to that path and the path
/// to that ID; other IDs keep their entries.
pub proof fn lemma_register_then_lookup(
    entries: Map<u128, PluginEntry>,
    paths: Map<Seq<char>, u128>,
    id: u128,
    path: String,
    plugin_type: String,
    other: u128,
)
    requires
        other != id,
    ensures
        entries.insert(id, PluginEntry { id, path, plugin_type })[id].path@ == path@,
        paths.insert(path@, id)[path@] == id,
        entries.insert(id, PluginEntry { id, path, plugin_type }).contains_key(other)
            == entries.contains_key(other),
        entries.contains_key(other) ==> entries.insert(
            id,
            PluginEntry { id, path, plugin_type },
        )[other] == entries[other],
{
}

} // verus!
