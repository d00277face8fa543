//! A session validator for end-to-end tests that accepts simple cookie
//! formats:
//!
//! - Simple: `session=<user_id>`
//! - Advanced: `test_user=<user_id>|tenant=<tenant>|roles=<role1>,<role2>`
//!
//! It accepts any user ID without verification and must never be used in
//! production.

use vstd::prelude::*;
use crate::text::{
    concat2, index_of, lemma_index_of, lemma_index_of_unique, same_text, split_all, split_all_at,
    split_once, split_once_at, strip_prefix,
    strip_prefix_of, trim, trim_text, views,
};
use super::auth::{AuthContext, Metadata, MetadataValue};

verus! {

/// The tenant and roles a test session gets when the cookie names none.
pub open spec fn default_settings() -> (Seq<char>, Seq<Seq<char>>) {
    ("test-tenant"@, seq!["user"@])
}

/// The trimmed pieces of a comma-separated role list.
pub open spec fn role_list(value: Seq<char>) -> Seq<Seq<char>> {
    split_all(value, ',').map_values(|r: Seq<char>| trim(r))
}

/// One `key=value` parameter applied to the (tenant, roles) settings:
/// `tenant` sets the tenant, `roles` the role list, and anything else
/// (an unknown key, or a part without `=`) changes nothing.
pub open spec fn apply_param(part: Seq<char>, st: (Seq<char>, Seq<Seq<char>>)) -> (Seq<char>, Seq<Seq<char>>) {
    match split_once(part, '=') {
        Some(kv) => if kv.0 == "tenant"@ {
            (kv.1, st.1)
        } else if kv.0 == "roles"@ {
            (st.0, role_list(kv.1))
        } else {
            st
        },
        None => st,
    }
}

/// The settings after applying `parts` in order; later parameters win.
pub open spec fn apply_params(parts: Seq<Seq<char>>) -> (Seq<char>, Seq<Seq<char>>)
    decreases parts.len(),
{
    if parts.len() == 0 {
        default_settings()
    } else {
        apply_param(parts.last(), apply_params(parts.drop_last()))
    }
}

/// The identity a cookie stands for: user ID, tenant and roles, or `None`
/// when the cookie has neither test format.
pub open spec fn test_identity(cookie: Seq<char>) -> Option<(Seq<char>, Seq<char>, Seq<Seq<char>>)> {
    match strip_prefix(cookie, "session="@) {
        Some(user) => Some((user, default_settings().0, default_settings().1)),
        None => match strip_prefix(cookie, "test_user="@) {
            Some(params) => {
                let parts = split_all(params, '|');
                let st = apply_params(parts.skip(1));
                Some((parts[0], st.0, st.1))
            },
            None => None,
        },
    }
}

/// The metadata of a test session: `tenant_id`, `email` and
/// `test_mode: true`.
pub open spec fn test_metadata(md: Metadata, tenant: Seq<char>, email: Seq<char>) -> bool {
    &&& md matches Metadata::Object(es)
    &&& es@.len() == 3
    &&& es@[0].0@ == "tenant_id"@
    &&& es@[0].1 matches MetadataValue::Text(t) && t@ == tenant
    &&& es@[1].0@ == "email"@
    &&& es@[1].1 matches MetadataValue::Text(e) && e@ == email
    &&& es@[2].0@ == "test_mode"@
    &&& es@[2].1 == MetadataValue::Bool(true)
}

/// Test session validator that accepts simple cookie formats.
pub struct TestSessionValidator;

impl TestSessionValidator {
    /// A validator.
    pub fn new() -> (v: Self) {
        TestSessionValidator
    }

    /// Validate a cookie: `session=<user>` gives that user with the default
    /// tenant and roles; `test_user=<user>|k=v|...` gives that user with the
    /// `tenant` and `roles` parameters applied; anything else is refused.
    /// The session ID is `test-session-<user>` and the metadata holds the
    /// tenant, the e-mail `<user>@test.com` and `test_mode: true`.
    pub fn validate(&self, cookie: &str) -> (r: Option<AuthContext>)
        ensures
            match test_identity(cookie@) {
                Some(id) => r matches Some(ctx) && {
                    &&& ctx.user_id@ == id.0
                    &&& ctx.session_id@ == "test-session-"@ + id.0
                    &&& views(ctx.roles@) == id.2
                    &&& test_metadata(ctx.metadata, id.1, id.0 + "@test.com"@)
                },
                None => r is None,
            },
    {
        match strip_prefix_of(cookie, "session=") {
            Some(user_id) => {
                let mut roles: Vec<String> = Vec::new();
                roles.push(String::from_str("user"));
                proof {
                    assert(views(roles@) =~= default_settings().1);
                }
                let tenant = String::from_str("test-tenant");
                return Some(test_context(user_id, tenant, roles));
            },
            None => {},
        }
        match strip_prefix_of(cookie, "test_user=") {
            Some(params) => {
                let parts = split_all_at(params.as_str(), '|');
                let ghost pv = views(parts@);
                let mut tenant = String::from_str("test-tenant");
                let mut roles: Vec<String> = Vec::new();
                roles.push(String::from_str("user"));
                proof {
                    assert(views(roles@) =~= default_settings().1);
                    assert(pv.skip(1).take(0) =~= Seq::<Seq<char>>::empty());
                }
                let mut k: usize = 1;
                while k < parts.len()
                    invariant
                        pv == views(parts@),
                        1 <= k <= parts@.len(),
                        (tenant@, views(roles@)) == apply_params(pv.skip(1).take(k - 1)),
                    decreases parts@.len() - k,
                {
                    let ghost before = pv.skip(1).take(k - 1);
                    proof {
                        assert(pv.skip(1).take(k as int).drop_last() =~= before);
                        assert(pv.skip(1).take(k as int).last() == parts@[k as int]@);
                    }
                    match split_once_at(parts[k].as_str(), '=') {
                        Some(kv) => {
                            if same_text(kv.0.as_str(), "tenant") {
                                tenant = kv.1;
                            } else if same_text(kv.0.as_str(), "roles") {
                                roles = trimmed_roles(kv.1.as_str());
                            }
                        },
                        None => {},
                    }
                    k = k + 1;
                }
                proof {
                    assert(pv.skip(1).take(parts@.len() - 1) =~= pv.skip(1));
                }
                let user_id = parts[0].clone();
                Some(test_context(user_id, tenant, roles))
            },
            None => None,
        }
    }
}

/// The trimmed pieces of a comma-separated role list.
fn trimmed_roles(value: &str) -> (roles: Vec<String>)
    ensures
        views(roles@) == role_list(value@),
{
    let pieces = split_all_at(value, ',');
    let ghost pv = views(pieces@);
    let mut roles: Vec<String> = Vec::new();
    let mut i: usize = 0;
    while i < pieces.len()
        invariant
            pv == views(pieces@),
            pv == split_all(value@, ','),
            i <= pieces@.len(),
            views(roles@) == pv.take(i as int).map_values(|r: Seq<char>| trim(r)),
        decreases pieces@.len() - i,
    {
        let t = trim_text(pieces[i].as_str());
        let ghost before = roles@;
        roles.push(t);
        proof {
            assert(views(before.push(t)) =~= views(before).push(t@));
            assert(pv.take(i + 1).map_values(|r: Seq<char>| trim(r))
                =~= pv.take(i as int).map_values(|r: Seq<char>| trim(r)).push(trim(pv[i as int])));
        }
        i = i + 1;
    }
    proof {
        assert(pv.take(pieces@.len() as int) =~= pv);
    }
    roles
}

/// The context of a test session for `user_id` with the given tenant and roles.
fn test_context(user_id: String, tenant: String, roles: Vec<String>) -> (ctx: AuthContext)
    ensures
        ctx.user_id@ == user_id@,
        ctx.session_id@ == "test-session-"@ + user_id@,
        ctx.roles@ == roles@,
        test_metadata(ctx.metadata, tenant@, user_id@ + "@test.com"@),
{
    let session_id = concat2("test-session-", user_id.as_str());
    let email = concat2(user_id.as_str(), "@test.com");
    let mut members: Vec<(String, MetadataValue)> = Vec::new();
    members.push((String::from_str("tenant_id"), MetadataValue::Text(tenant)));
    members.push((String::from_str("email"), MetadataValue::Text(email)));
    members.push((String::from_str("test_mode"), MetadataValue::Bool(true)));
    AuthContext { user_id, session_id, roles, metadata: Metadata::Object(members) }
}

impl Default for TestSessionValidator {
    fn default() -> (v: Self) {
        Self::new()
    }
}

/// The simple format accepts any user ID as it is, with the default
/// tenant and roles.
pub proof fn lemma_session_cookie_accepted(user: Seq<char>)
    ensures
        test_identity("session="@ + user) == Some((user, "test-tenant"@, seq!["user"@])),
{
    let p = "session="@;
    assert((p + user).take(p.len() as int) =~= p);
    assert((p + user).skip(p.len() as int) =~= user);
}

/// The advanced format names the user and the tenant: any user ID and
/// tenant without `|` are taken as they are, with the default roles.
pub proof fn lemma_advanced_cookie_tenant(user: Seq<char>, tenant: Seq<char>)
    requires
        forall|i: int| 0 <= i < user.len() ==> user[i] != '|',
        forall|i: int| 0 <= i < tenant.len() ==> tenant[i] != '|',
    ensures
        test_identity("test_user="@ + user + "|tenant="@ + tenant)
            == Some((user, tenant, seq!["user"@])),
{
    reveal_strlit("session=");
    reveal_strlit("test_user=");
    reveal_strlit("|tenant=");
    reveal_strlit("tenant=");
    reveal_strlit("tenant");
    let cookie = "test_user="@ + user + "|tenant="@ + tenant;
    let params = user + "|tenant="@ + tenant;
    assert(cookie.take(8) != "session="@) by {
        assert(cookie[0] == 't');
        assert("session="@[0] == 's');
    }
    assert(cookie.take(10) =~= "test_user="@);
    assert(cookie.skip(10) =~= params);
    // The first `|` of the parameters ends the user ID.
    let rest = "tenant="@ + tenant;
    assert(params[user.len() as int] == '|');
    lemma_index_of_unique(params, '|', user.len() as int);
    assert(params.take(user.len() as int) =~= user);
    assert(params.skip(user.len() as int + 1) =~= rest);
    lemma_index_of(rest, '|');
    assert forall|j: int| 0 <= j < rest.len() implies rest[j] != '|' by {
        if j >= 7 {
            assert(rest[j] == tenant[j - 7]);
        }
    }
    assert(index_of(rest, '|') == -1);
    assert(split_all(rest, '|') == seq![rest]);
    assert(split_all(params, '|') == seq![params.take(user.len() as int)]
        + split_all(params.skip(user.len() as int + 1), '|'));
    let parts = split_all(params, '|');
    assert(parts =~= seq![user, rest]);
    // The only parameter sets the tenant.
    assert(rest[6] == '=');
    lemma_index_of_unique(rest, '=', 6);
    assert(rest.take(6) =~= "tenant"@);
    assert(rest.skip(7) =~= tenant);
    assert(parts.skip(1) =~= seq![rest]);
    assert(parts.skip(1).drop_last() =~= Seq::<Seq<char>>::empty());
    assert(split_once(rest, '=') == Some((rest.take(6), rest.skip(7))));
    assert(apply_param(rest, default_settings()) == (tenant, seq!["user"@]));
    let ps = parts.skip(1);
    assert(ps.len() == 1);
    assert(ps.last() == rest);
    assert(apply_params(ps.drop_last()) == default_settings());
    assert(apply_params(ps) == apply_param(ps.last(), apply_params(ps.drop_last())));
    assert(apply_params(parts.skip(1)) == (tenant, seq!["user"@]));
    assert(strip_prefix(cookie, "session="@) is None);
    assert(strip_prefix(cookie, "test_user="@) == Some(params));
}

/// Whether an advanced-format parameter sets the tenant (`tenant=...`).
pub open spec fn sets_tenant(part: Seq<char>) -> bool {
    split_once(part, '=') matches Some(kv) && kv.0 == "tenant"@
}

/// The tenant of the advanced format is the value of its last `tenant=`
/// parameter, and `test-tenant` when it has none.
pub proof fn lemma_tenant_is_last_tenant_param(parts: Seq<Seq<char>>)
    ensures
        (forall|i: int| 0 <= i < parts.len() ==> !#[trigger] sets_tenant(parts[i]))
            ==> apply_params(parts).0 == "test-tenant"@,
        forall|j: int| 0 <= j < parts.len() && #[trigger] sets_tenant(parts[j])
            && (forall|i: int| j < i < parts.len() ==> !#[trigger] sets_tenant(parts[i]))
            ==> apply_params(parts).0 == split_once(parts[j], '=').unwrap().1,
    decreases parts.len(),
{
    if parts.len() > 0 {
        let front = parts.drop_last();
        let last = parts.last();
        lemma_tenant_is_last_tenant_param(front);
        assert(apply_params(parts) == apply_param(last, apply_params(front)));
        if sets_tenant(last) {
            assert(apply_params(parts).0 == split_once(last, '=').unwrap().1);
        } else {
            assert(apply_params(parts).0 == apply_params(front).0);
        }
        assert forall|i: int| 0 <= i < front.len() implies front[i] == parts[i] by {}
        assert forall|j: int| 0 <= j < parts.len() && #[trigger] sets_tenant(parts[j])
            && (forall|i: int| j < i < parts.len() ==> !#[trigger] sets_tenant(parts[i]))
            implies apply_params(parts).0 == split_once(parts[j], '=').unwrap().1 by {
            if j < parts.len() - 1 {
                assert(!sets_tenant(parts[parts.len() - 1]));
                assert(front[j] == parts[j]);
                assert forall|i: int| j < i < front.len() implies !#[trigger] sets_tenant(front[i]) by {
                    assert(front[i] == parts[i]);
                }
            }
        }
        if forall|i: int| 0 <= i < parts.len() ==> !#[trigger] sets_tenant(parts[i]) {
            assert(!sets_tenant(parts[parts.len() - 1]));
            assert forall|i: int| 0 <= i < front.len() implies !#[trigger] sets_tenant(front[i]) by {
                assert(front[i] == parts[i]);
            }
        }
    }
}

/// An advanced-format cookie with no parameter names its user and gets
/// the default tenant and roles.
pub proof fn lemma_advanced_cookie_defaults(user: Seq<char>)
    requires
        forall|i: int| 0 <= i < user.len() ==> user[i] != '|',
    ensures
        test_identity("test_user="@ + user) == Some((user, "test-tenant"@, seq!["user"@])),
{
    reveal_strlit("session=");
    reveal_strlit("test_user=");
    let cookie = "test_user="@ + user;
    assert(cookie.take(8) != "session="@) by {
        assert(cookie[0] == 't');
        assert("session="@[0] == 's');
    }
    assert(cookie.take(10) =~= "test_user="@);
    assert(cookie.skip(10) =~= user);
    assert(strip_prefix(cookie, "session="@) is None);
    assert(strip_prefix(cookie, "test_user="@) == Some(user));
    lemma_index_of(user, '|');
    assert(index_of(user, '|') == -1);
    assert(split_all(user, '|') == seq![user]);
    assert(split_all(user, '|').skip(1) =~= Seq::<Seq<char>>::empty());
    lemma_tenant_is_last_tenant_param(Seq::<Seq<char>>::empty());
}

} // verus!
