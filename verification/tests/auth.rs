use plexus_core::plexus::auth::{AuthContext, Metadata, MetadataValue};
use plexus_core::plexus::test_validator::TestSessionValidator;

fn object(members: &[(&str, &str)]) -> Metadata {
    Metadata::Object(
        members
            .iter()
            .map(|(k, v)| (k.to_string(), MetadataValue::Text(v.to_string())))
            .collect(),
    )
}

#[test]
fn test_auth_context_creation() {
    let ctx = AuthContext::new(
        "user-123".to_string(),
        "sess-456".to_string(),
        vec!["admin".to_string()],
        object(&[("tenant_id", "acme")]),
    );
    assert_eq!(ctx.user_id, "user-123");
    assert_eq!(ctx.session_id, "sess-456");
    assert!(ctx.has_role("admin"));
    assert!(!ctx.has_role("user"));
    assert_eq!(ctx.tenant(), Some("acme".to_string()));
    assert!(ctx.is_authenticated());
}

#[test]
fn test_auth_context_clone() {
    let ctx = AuthContext::new(
        "alice".to_string(),
        "sess-1".to_string(),
        vec!["admin".to_string()],
        object(&[("org", "acme")]),
    );
    let cloned = ctx.clone();
    assert_eq!(ctx.user_id, cloned.user_id);
    assert_eq!(ctx.session_id, cloned.session_id);
    assert_eq!(ctx.roles, cloned.roles);
}

#[test]
fn test_anonymous_context() {
    let ctx = AuthContext::anonymous();
    assert_eq!(ctx.user_id, "anonymous");
    assert!(!ctx.is_authenticated());
    assert!(ctx.roles.is_empty());
}

#[test]
fn test_role_checking() {
    let ctx = AuthContext::new(
        "user-1".to_string(),
        "sess-1".to_string(),
        vec!["user".to_string(), "editor".to_string()],
        Metadata::Null,
    );
    assert!(ctx.has_role("user"));
    assert!(ctx.has_role("editor"));
    assert!(!ctx.has_role("admin"));
}

#[test]
fn test_metadata_access() {
    let ctx = AuthContext::new(
        "user-1".to_string(),
        "sess-1".to_string(),
        vec![],
        object(&[("tenant_id", "org-123"), ("realm", "production"), ("email", "user@example.com")]),
    );
    assert_eq!(ctx.get_metadata_string("tenant_id"), Some("org-123".to_string()));
    assert_eq!(ctx.get_metadata_string("realm"), Some("production".to_string()));
    assert_eq!(ctx.get_metadata_string("email"), Some("user@example.com".to_string()));
    assert_eq!(ctx.get_metadata_string("nonexistent"), None);
}

#[test]
fn test_tenant_from_metadata() {
    let ctx1 = AuthContext::new(
        "user-1".to_string(),
        "sess-1".to_string(),
        vec![],
        object(&[("tenant_id", "org-123"), ("realm", "prod")]),
    );
    assert_eq!(ctx1.tenant(), Some("org-123".to_string()));

    let ctx2 = AuthContext::new(
        "user-1".to_string(),
        "sess-1".to_string(),
        vec![],
        object(&[("realm", "prod")]),
    );
    assert_eq!(ctx2.tenant(), Some("prod".to_string()));

    let ctx3 = AuthContext::new("user-1".to_string(), "sess-1".to_string(), vec![], Metadata::Null);
    assert_eq!(ctx3.tenant(), None);
}

#[test]
fn metadata_non_string_members_are_not_strings() {
    let md = Metadata::Object(vec![
        ("flag".to_string(), MetadataValue::Bool(true)),
        ("count".to_string(), MetadataValue::Json("3".to_string())),
    ]);
    let ctx = AuthContext::new("u".to_string(), "s".to_string(), vec![], md);
    assert_eq!(ctx.get_metadata_string("flag"), None);
    assert_eq!(ctx.get_metadata_string("count"), None);
    let ctx = AuthContext::new("u".to_string(), "s".to_string(), vec![], Metadata::Json("[1]".to_string()));
    assert_eq!(ctx.get_metadata_string("0"), None);
}

#[test]
fn session_without_id_is_not_authenticated() {
    let ctx = AuthContext::new("bob".to_string(), String::new(), vec![], Metadata::Null);
    assert!(!ctx.is_authenticated());
}

// Test session validator

#[test]
fn test_simple_format() {
    let validator = TestSessionValidator::new();
    let auth = validator.validate("session=alice").expect("valid cookie");
    assert_eq!(auth.user_id, "alice");
    assert_eq!(auth.session_id, "test-session-alice");
    assert!(auth.has_role("user"));
    assert_eq!(auth.tenant(), Some("test-tenant".to_string()));
    assert!(auth.is_authenticated());
}

#[test]
fn test_advanced_format_with_tenant() {
    let validator = TestSessionValidator::new();
    let auth = validator.validate("test_user=bob|tenant=acme").expect("valid cookie");
    assert_eq!(auth.user_id, "bob");
    assert_eq!(auth.tenant(), Some("acme".to_string()));
    assert!(auth.has_role("user"));
}

#[test]
fn test_advanced_format_with_roles() {
    let validator = TestSessionValidator::new();
    let auth = validator
        .validate("test_user=charlie|roles=admin,editor,user")
        .expect("valid cookie");
    assert_eq!(auth.user_id, "charlie");
    assert!(auth.has_role("admin"));
    assert!(auth.has_role("editor"));
    assert!(auth.has_role("user"));
    assert!(!auth.has_role("superuser"));
}

#[test]
fn test_advanced_format_complete() {
    let validator = TestSessionValidator::new();
    let auth = validator
        .validate("test_user=dave|tenant=globex|roles=admin,user")
        .expect("valid cookie");
    assert_eq!(auth.user_id, "dave");
    assert_eq!(auth.tenant(), Some("globex".to_string()));
    assert!(auth.has_role("admin"));
    assert!(auth.has_role("user"));
}

#[test]
fn test_invalid_format() {
    let validator = TestSessionValidator::new();
    assert!(validator.validate("invalid-cookie").is_none());
    assert!(validator.validate("").is_none());
    assert!(validator.validate("random=garbage").is_none());
}

#[test]
fn test_metadata_includes_test_mode() {
    let validator = TestSessionValidator::new();
    let auth = validator.validate("session=testuser").unwrap();
    match auth.metadata {
        Metadata::Object(members) => {
            let test_mode = members.iter().find(|(k, _)| k == "test_mode").map(|(_, v)| v.clone());
            assert!(matches!(test_mode, Some(MetadataValue::Bool(true))));
            let email = members.iter().find(|(k, _)| k == "email").map(|(_, v)| v.clone());
            assert!(matches!(email, Some(MetadataValue::Text(e)) if e == "testuser@test.com"));
        }
        _ => panic!("metadata should be an object"),
    }
}

#[test]
fn validator_trims_roles_and_later_parameters_win() {
    let validator = TestSessionValidator::default();
    let auth = validator
        .validate("test_user=erin|roles= a , b|tenant=t1|bogus|color=red|tenant=t2")
        .unwrap();
    assert_eq!(auth.roles, vec!["a".to_string(), "b".to_string()]);
    assert_eq!(auth.tenant(), Some("t2".to_string()));
    let auth = validator.validate("test_user=").unwrap();
    assert_eq!(auth.user_id, "");
    assert_eq!(auth.roles, vec!["user".to_string()]);
    let auth = validator.validate("session=x|tenant=y").unwrap();
    assert_eq!(auth.user_id, "x|tenant=y");
}

#[test]
fn session_cookie_accepts_any_user_id() {
    let validator = TestSessionValidator::new();
    for user in ["", "alice", "bob|tenant=x", "élodie=1"] {
        let ctx = validator
            .validate(&format!("session={}", user))
            .expect("simple format is always accepted");
        assert_eq!(ctx.user_id, user);
        assert_eq!(ctx.session_id, format!("test-session-{}", user));
        assert_eq!(ctx.roles, vec!["user".to_string()]);
        assert_eq!(ctx.tenant().as_deref(), Some("test-tenant"));
    }
}
