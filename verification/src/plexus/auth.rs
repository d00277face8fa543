//! Authentication context for Plexus RPC.
//!
//! The context carries the user, the session, the user's roles and
//! additional metadata (for example JWT claims such as the tenant or realm).
//! The metadata is a JSON value; what the library reads of it are the
//! string-valued members of a JSON object, so it is held here as an object
//! of members (with the text of any other JSON value kept as it is).

use vstd::prelude::*;
use crate::text::same_text;

verus! {

/// The value of one metadata member.
#[derive(Debug, Clone)]
pub enum MetadataValue {
    /// A JSON string.
    Text(String),
    /// A JSON boolean.
    Bool(bool),
    /// Any other JSON value (number, null, array, object), as JSON text.
    Json(String),
}

/// Authentication metadata: a JSON value.
#[derive(Debug, Clone)]
pub enum Metadata {
    /// JSON `null`.
    Null,
    /// A JSON object: its members in order, each key at most once.
    Object(Vec<(String, MetadataValue)>),
    /// Any other JSON value (string, number, boolean, array), as JSON text.
    Json(String),
}

/// The value of the first member named `key`, if any.
pub open spec fn member(entries: Seq<(String, MetadataValue)>, key: Seq<char>) -> Option<MetadataValue>
    decreases entries.len(),
{
    if entries.len() == 0 {
        None
    } else if entries[0].0@ == key {
        Some(entries[0].1)
    } else {
        member(entries.drop_first(), key)
    }
}

/// The metadata member `key` when it is a JSON string: what
/// `metadata.get(key).and_then(Value::as_str)` yields.
pub open spec fn metadata_string(md: Metadata, key: Seq<char>) -> Option<Seq<char>> {
    match md {
        Metadata::Object(entries) => match member(entries@, key) {
            Some(MetadataValue::Text(s)) => Some(s@),
            _ => None,
        },
        _ => None,
    }
}

/// Per-connection authentication context.
#[derive(Debug, Clone)]
pub struct AuthContext {
    /// User identifier (e.g., Keycloak sub claim, user UUID)
    pub user_id: String,
    /// Session identifier (e.g., Keycloak session ID)
    pub session_id: String,
    /// User roles (e.g., ["user", "admin"], Keycloak realm roles)
    pub roles: Vec<String>,
    /// Additional metadata (e.g., JWT claims, tenant/realm info)
    pub metadata: Metadata,
}

/// Whether `role` is among `roles`.
pub open spec fn holds_role(roles: Seq<String>, role: Seq<char>) -> bool {
    exists|i: int| 0 <= i < roles.len() && #[trigger] roles[i]@ == role
}

/// The tenant of a context: the `tenant_id` metadata string, or else the
/// `realm` metadata string.
pub open spec fn tenant_of(md: Metadata) -> Option<Seq<char>> {
    match metadata_string(md, "tenant_id"@) {
        Some(t) => Some(t),
        None => metadata_string(md, "realm"@),
    }
}

impl Metadata {
    /// The member `key` when it is a JSON string.
    pub fn get_string(&self, key: &str) -> (r: Option<String>)
        ensures
            match r {
                Some(s) => metadata_string(*self, key@) == Some(s@),
                None => metadata_string(*self, key@) is None,
            },
    {
        match self {
            Metadata::Object(entries) => {
                let mut i: usize = 0;
                assert(entries@.skip(0) =~= entries@);
                while i < entries.len()
                    invariant
                        *self == Metadata::Object(*entries),
                        i <= entries@.len(),
                        member(entries@, key@) == member(entries@.skip(i as int), key@),
                    decreases entries@.len() - i,
                {
                    assert(entries@.skip(i as int)[0] == entries@[i as int]);
                    assert(entries@.skip(i as int).drop_first() =~= entries@.skip(i + 1));
                    if same_text(entries[i].0.as_str(), key) {
                        assert(member(entries@, key@) == Some(entries@[i as int].1));
                        return match &entries[i].1 {
                            MetadataValue::Text(t) => {
                                let c = t.clone();
                                Some(c)
                            },
                            _ => None,
                        };
                    }
                    i = i + 1;
                }
                None
            },
            _ => None,
        }
    }
}

impl AuthContext {
    /// Create a new AuthContext.
    pub fn new(user_id: String, session_id: String, roles: Vec<String>, metadata: Metadata) -> (c: Self)
        ensures
            c.user_id == user_id,
            c.session_id == session_id,
            c.roles == roles,
            c.metadata == metadata,
    {
        AuthContext { user_id, session_id, roles, metadata }
    }

    /// Create an anonymous/unauthenticated context.
    pub fn anonymous() -> (c: Self)
        ensures
            c.user_id@ == "anonymous"@,
            c.session_id@.len() == 0,
            c.roles@.len() == 0,
            c.metadata == Metadata::Null,
    {
        AuthContext {
            user_id: String::from_str("anonymous"),
            session_id: String::new(),
            roles: Vec::new(),
            metadata: Metadata::Null,
        }
    }

    /// Check if this context represents an authenticated user: not the
    /// anonymous user, and with a session.
    pub fn is_authenticated(&self) -> (b: bool)
        ensures
            b == (self.user_id@ != "anonymous"@ && self.session_id@.len() > 0),
    {
        !same_text(self.user_id.as_str(), "anonymous") && self.session_id.as_str().unicode_len() > 0
    }

    /// Check if the user has a specific role.
    pub fn has_role(&self, role: &str) -> (b: bool)
        ensures
            b == holds_role(self.roles@, role@),
    {
        let mut i: usize = 0;
        while i < self.roles.len()
            invariant
                i <= self.roles@.len(),
                forall|j: int| 0 <= j < i ==> #[trigger] self.roles@[j]@ != role@,
            decreases self.roles@.len() - i,
        {
            if same_text(self.roles[i].as_str(), role) {
                return true;
            }
            i = i + 1;
        }
        false
    }

    /// Get a metadata field as a string.
    pub fn get_metadata_string(&self, key: &str) -> (r: Option<String>)
        ensures
            match r {
                Some(s) => metadata_string(self.metadata, key@) == Some(s@),
                None => metadata_string(self.metadata, key@) is None,
            },
    {
        self.metadata.get_string(key)
    }

    /// Get the tenant from metadata: `tenant_id`, falling back to `realm`.
    pub fn tenant(&self) -> (r: Option<String>)
        ensures
            match r {
                Some(s) => tenant_of(self.metadata) == Some(s@),
                None => tenant_of(self.metadata) is None,
            },
    {
        match self.get_metadata_string("tenant_id") {
            Some(t) => Some(t),
            None => self.get_metadata_string("realm"),
        }
    }
}

/// The anonymous context is never authenticated.
pub proof fn lemma_anonymous_not_authenticated(c: AuthContext)
    requires
        c.user_id@ == "anonymous"@,
    ensures
        !(c.user_id@ != "anonymous"@ && c.session_id@.len() > 0),
{
}

} // verus!
