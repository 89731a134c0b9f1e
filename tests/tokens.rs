use api_core::jwt::{
    bearer_token_from_auth_header, create_access, create_admin_access, create_refresh,
    create_user_access, decode_access, decode_refresh, role_from_str, InvalidToken, Role,
    ACCESS_TOKEN_TTL_SECS, REFRESH_TOKEN_TTL_SECS,
};
use api_core::text::{lower_equals, split_ascii_fields, str_equals};

const NOW: u64 = 1_700_000_000;
const SECRET: &str = "test-secret";

#[test]
fn access_token_round_trip_user() {
    let t = create_access(SECRET, "user-17", Role::User, NOW);
    assert_ne!(t, "user-17");
    assert_eq!(t.split('.').count(), 3);
    let c = decode_access(SECRET, &t, NOW).unwrap();
    assert_eq!(c.sub, "user-17");
    assert_eq!(c.role, Role::User);
    assert_eq!(c.exp, NOW + ACCESS_TOKEN_TTL_SECS);
}

#[test]
fn access_token_round_trip_admin() {
    let t = create_admin_access(SECRET, "boss", NOW);
    let c = decode_access(SECRET, &t, NOW + ACCESS_TOKEN_TTL_SECS - 1).unwrap();
    assert_eq!(c.sub, "boss");
    assert_eq!(c.role, Role::Admin);
}

#[test]
fn user_access_has_user_role() {
    let t = create_user_access(SECRET, "u", NOW);
    assert_eq!(decode_access(SECRET, &t, NOW).unwrap().role, Role::User);
}

#[test]
fn subject_with_quotes_round_trips() {
    let t = create_access(SECRET, "a \"quoted\" \u{e9}", Role::User, NOW);
    assert_eq!(decode_access(SECRET, &t, NOW).unwrap().sub, "a \"quoted\" \u{e9}");
}

#[test]
fn access_token_other_secret_rejected() {
    let t = create_access(SECRET, "user-17", Role::User, NOW);
    assert_eq!(decode_access("another-secret", &t, NOW).unwrap_err(), InvalidToken);
}

#[test]
fn access_token_expired_rejected() {
    let t = create_access(SECRET, "user-17", Role::User, NOW);
    assert!(decode_access(SECRET, &t, NOW + ACCESS_TOKEN_TTL_SECS).is_err());
    assert!(decode_access(SECRET, &t, NOW + ACCESS_TOKEN_TTL_SECS + 10_000).is_err());
}

#[test]
fn garbage_token_rejected() {
    assert!(decode_access(SECRET, "not-a-token", NOW).is_err());
    assert!(decode_access(SECRET, "", NOW).is_err());
    assert!(decode_refresh(SECRET, "a.b.c", NOW).is_err());
}

#[test]
fn tampered_token_rejected() {
    let t = create_access(SECRET, "user-17", Role::User, NOW);
    let mut parts: Vec<&str> = t.split('.').collect();
    let other = create_access(SECRET, "user-18", Role::Admin, NOW);
    let other_parts: Vec<&str> = other.split('.').collect();
    parts[1] = other_parts[1];
    let forged = format!("{}.{}.{}", parts[0], parts[1], parts[2]);
    assert!(decode_access(SECRET, &forged, NOW).is_err());
}

#[test]
fn refresh_token_round_trip() {
    let t = create_refresh(SECRET, "user-17", NOW);
    let c = decode_refresh(SECRET, &t, NOW + 1).unwrap();
    assert_eq!(c.sub, "user-17");
    assert_eq!(c.exp, NOW + REFRESH_TOKEN_TTL_SECS);
}

#[test]
fn refresh_token_is_no_access_token() {
    let t = create_refresh(SECRET, "user-17", NOW);
    assert!(decode_access(SECRET, &t, NOW).is_err());
}

#[test]
fn refresh_token_expired_or_foreign_rejected() {
    let t = create_refresh(SECRET, "user-17", NOW);
    assert!(decode_refresh(SECRET, &t, NOW + REFRESH_TOKEN_TTL_SECS).is_err());
    assert!(decode_refresh("other", &t, NOW).is_err());
}

#[test]
fn expiry_saturates_at_largest_time() {
    let t = create_access(SECRET, "u", Role::User, u64::MAX - 5);
    let c = decode_access(SECRET, &t, u64::MAX - 1).unwrap();
    assert_eq!(c.exp, u64::MAX);
}

#[test]
fn role_names() {
    assert_eq!(Role::User.as_str(), "user");
    assert_eq!(Role::Admin.as_str(), "admin");
    assert_eq!(role_from_str("admin"), Some(Role::Admin));
    assert_eq!(role_from_str("user"), Some(Role::User));
    assert_eq!(role_from_str("Admin"), None);
    assert_eq!(role_from_str(""), None);
}

#[test]
fn bearer_header_forms() {
    assert_eq!(bearer_token_from_auth_header("Bearer abc"), Some("abc".to_string()));
    assert_eq!(bearer_token_from_auth_header("bearer abc"), Some("abc".to_string()));
    assert_eq!(bearer_token_from_auth_header("BeArEr\t abc  "), Some("abc".to_string()));
    assert_eq!(bearer_token_from_auth_header("  BEARER abc"), Some("abc".to_string()));
}

#[test]
fn bearer_header_rejected_forms() {
    assert_eq!(bearer_token_from_auth_header("Basic abc"), None);
    assert_eq!(bearer_token_from_auth_header("Bearer"), None);
    assert_eq!(bearer_token_from_auth_header("Bearer a b"), None);
    assert_eq!(bearer_token_from_auth_header(""), None);
    assert_eq!(bearer_token_from_auth_header("Bearerx abc"), None);
}

#[test]
fn split_fields() {
    assert_eq!(split_ascii_fields("  a bc\t\nd  "), vec!["a", "bc", "d"]);
    assert!(split_ascii_fields("   ").is_empty());
    assert!(split_ascii_fields("").is_empty());
    assert_eq!(split_ascii_fields("x"), vec!["x"]);
}

#[test]
fn text_comparisons() {
    assert!(str_equals("abc", "abc"));
    assert!(!str_equals("abc", "abd"));
    assert!(!str_equals("abc", "ab"));
    assert!(lower_equals("BeaRER", "bearer"));
    assert!(!lower_equals("bearers", "bearer"));
    assert!(!lower_equals("bearar", "bearer"));
}
