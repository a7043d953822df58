use pam_oauth2_device::jwt::{
    accepted_issuers, find_key, pad_base64, remote_identity, signed_token_decision, split_dots, token_payload,
    validate_token_claims,
    verified_claims, verify_signed_token, ClaimValue, PayloadClaims, SignedTokenError, SigningKey,
};
use pam_oauth2_device::logger::{LogLevel, MemoryLog};
use pam_oauth2_device::validator::TokenValidator;

const HEADER_K1: &str = "eyJhbGciOiJSUzI1NiIsImtpZCI6ImsxIn0";
const PAYLOAD_ALICE: &str = "eyJwcmVmZXJyZWRfdXNlcm5hbWUiOiJhbGljZSJ9";

fn key(kid: Option<&str>) -> SigningKey {
    SigningKey { kid: kid.map(|k| k.to_string()), n: "AQAB".to_string(), e: "AQAB".to_string() }
}

#[test]
fn pad_base64_pads_to_multiple_of_four() {
    assert_eq!(pad_base64("YWI"), "YWI=");
    assert_eq!(pad_base64("YQ"), "YQ==");
    assert_eq!(pad_base64("YWJj"), "YWJj");
    assert_eq!(pad_base64(""), "");
    assert_eq!(pad_base64("YWJjZ"), "YWJjZ===");
}

#[test]
fn split_dots_keeps_empty_parts() {
    assert_eq!(split_dots("a.b.c"), vec!["a", "b", "c"]);
    assert_eq!(split_dots("a..c"), vec!["a", "", "c"]);
    assert_eq!(split_dots(""), vec![""]);
}

#[test]
fn token_payload_decodes_middle_part() {
    let token = format!("{}.{}.sig", HEADER_K1, PAYLOAD_ALICE);
    let payload = token_payload(&token).unwrap();
    assert_eq!(payload, b"{\"preferred_username\":\"alice\"}".to_vec());
    assert_eq!(token_payload("x.YWI.z").unwrap(), b"ab".to_vec());
}

#[test]
fn token_payload_needs_three_parts() {
    assert_eq!(token_payload("a.b"), None);
    assert_eq!(token_payload("a.b.c.d"), None);
    assert_eq!(token_payload("a.!!!.c"), None);
}

fn payload(user: Option<ClaimValue>, email: Option<ClaimValue>) -> PayloadClaims {
    PayloadClaims { preferred_username: user, email, scope: Some("openid profile".to_string()), exp: Some(2000) }
}

fn text(s: &str) -> Option<ClaimValue> {
    Some(ClaimValue::Text(s.to_string()))
}

#[test]
fn identity_prefers_user_name_then_email() {
    assert_eq!(remote_identity(&payload(text("alice"), text("a@example.com"))).as_deref(), Some("alice"));
    assert_eq!(remote_identity(&payload(None, text("bob@example.com"))).as_deref(), Some("bob@example.com"));
    assert_eq!(remote_identity(&payload(Some(ClaimValue::NotText), None)), None);
    assert_eq!(remote_identity(&payload(Some(ClaimValue::NotText), text("c@example.com"))), None);
    assert_eq!(remote_identity(&payload(None, None)), None);
}

#[test]
fn verified_claims_carry_the_payload() {
    let c = verified_claims(payload(text("alice"), None));
    assert!(c.active);
    assert_eq!(c.username.as_deref(), Some("alice"));
    assert_eq!(c.scope.as_deref(), Some("openid profile"));
    assert_eq!(c.exp, Some(2000));
    assert_eq!(verified_claims(payload(Some(ClaimValue::NotText), None)).username, None);
}

#[test]
fn find_key_picks_first_match() {
    let keys = vec![key(None), key(Some("k2")), key(Some("k1")), key(Some("k1"))];
    assert_eq!(find_key(&keys, "k1"), Some(2));
    assert_eq!(find_key(&keys, "k2"), Some(1));
    assert_eq!(find_key(&keys, "k3"), None);
    assert_eq!(find_key(&vec![], "k1"), None);
}

#[test]
fn issuers_follow_tenant() {
    assert_eq!(
        accepted_issuers(&None),
        vec!["https://login.microsoftonline.com/common/v2.0", "https://sts.windows.net/common/"]
    );
    assert_eq!(
        accepted_issuers(&Some("t1".to_string())),
        vec!["https://login.microsoftonline.com/t1/v2.0", "https://sts.windows.net/t1/"]
    );
}

#[test]
fn signed_token_fails_closed() {
    let token = format!("{}.{}.c2ln", HEADER_K1, PAYLOAD_ALICE);
    assert_eq!(
        verify_signed_token(&token, &vec![key(Some("other"))], &None, "client"),
        Err(SignedTokenError::NoMatchingKey)
    );
    assert_eq!(verify_signed_token(&token, &vec![], &None, "client"), Err(SignedTokenError::NoMatchingKey));
    assert_eq!(
        verify_signed_token("not-a-token", &vec![key(Some("k1"))], &None, "client"),
        Err(SignedTokenError::NoKeyId)
    );
    assert_eq!(
        verify_signed_token(&token, &vec![key(Some("k1"))], &None, "client"),
        Err(SignedTokenError::Rejected)
    );
}

#[test]
fn local_verification_runs_all_checks_and_logs() {
    let token = format!("{}.{}.c2ln", HEADER_K1, PAYLOAD_ALICE);
    let keys = vec![key(Some("k1"))];
    let v = TokenValidator::new("openid profile email");
    let mut log = MemoryLog::new();
    let p = PayloadClaims { preferred_username: text("alice"), email: None, scope: Some("profile openid".to_string()), exp: Some(1000) };
    assert!(!validate_token_claims(&token, &keys, &None, "client", &v, p, "alice", 1000, &mut log));
    assert_eq!(
        log.entries,
        vec![
            (LogLevel::Warn, "Insuficient scopes for user alice: [\"profile\", \"openid\"]".to_string()),
            (LogLevel::Warn, "Token has expired for user alice".to_string()),
            (LogLevel::Error, "Token signature did not verify".to_string()),
        ]
    );
}

#[test]
fn local_verification_refuses_root_and_other_users() {
    let token = format!("{}.{}.c2ln", HEADER_K1, PAYLOAD_ALICE);
    let keys = vec![key(Some("k1"))];
    let v = TokenValidator::new("openid");
    let mut log = MemoryLog::new();
    let root = PayloadClaims { preferred_username: text("root"), email: None, scope: Some("openid".to_string()), exp: Some(5000) };
    assert!(!validate_token_claims(&token, &keys, &None, "client", &v, root, "root", 1000, &mut log));
    assert_eq!(log.entries[0], (LogLevel::Warn, "Invalid username: remote: root -> local: root".to_string()));
    let mut log = MemoryLog::new();
    assert!(!validate_token_claims(&token, &keys, &None, "client", &v, payload(text("alice"), None), "bob", 1000, &mut log));
    assert_eq!(log.entries[0], (LogLevel::Warn, "Invalid username: remote: alice -> local: bob".to_string()));
}

#[test]
fn decision_follows_verdict_and_claims() {
    let v = TokenValidator::new("openid profile");
    let good = || PayloadClaims { preferred_username: text("alice"), email: None, scope: Some("profile openid".to_string()), exp: Some(1001) };
    let mut log = MemoryLog::new();
    assert!(signed_token_decision(Ok(()), &v, good(), "alice", 1000, &mut log));
    assert!(log.entries.is_empty());
    for e in [SignedTokenError::NoKeyId, SignedTokenError::NoMatchingKey, SignedTokenError::Rejected] {
        let mut log = MemoryLog::new();
        assert!(!signed_token_decision(Err(e), &v, good(), "alice", 1000, &mut log));
        assert_eq!(log.entries, vec![(LogLevel::Error, "Token signature did not verify".to_string())]);
    }
    let mut log = MemoryLog::new();
    let expired = PayloadClaims { exp: Some(1000), ..good() };
    assert!(!signed_token_decision(Ok(()), &v, expired, "alice", 1000, &mut log));
    assert_eq!(log.entries, vec![(LogLevel::Warn, "Token has expired for user alice".to_string())]);
}
