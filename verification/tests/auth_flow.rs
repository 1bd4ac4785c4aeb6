use photoapp::auth::{
    access_claims_at, auth_response, issue_access_claims, issue_refresh_token, login_lookup_outcome,
    me_response, normalize_credentials, refresh_lookup_key, refresh_lookup_outcome, refresh_revoke_outcome,
    refresh_store_outcome, signup_insert_outcome, token_encode_failed, RefreshRequest, SignupRequest,
    UserRecord, ACCESS_TOKEN_TTL_SECS, REFRESH_TOKEN_TTL_SECS,
};
use photoapp::crypto::{
    generate_refresh_token, hash_password, hash_password_with_salt, hash_refresh_token, verify_password,
};
use photoapp::error::{db_step, internal_error, DbError};
use photoapp::security::AuthenticatedUser;

const USER: u128 = 0xa1a2a3a4b1b2c1c2d1d2d3d4d5d6d7d8;
const USER_TEXT: &str = "a1a2a3a4-b1b2-c1c2-d1d2-d3d4d5d6d7d8";

fn request(email: &str, password: &str) -> SignupRequest {
    SignupRequest { email: email.to_string(), password: password.to_string() }
}

fn is_hex64(s: &str) -> bool {
    s.len() == 64 && s.chars().all(|c| c.is_ascii_digit() || ('a'..='f').contains(&c))
}

#[test]
fn credentials_are_trimmed_and_lowercased() {
    let c = normalize_credentials(&request("  User@Example.COM\t", " password123 ")).unwrap();
    assert_eq!(c.email, "user@example.com");
    assert_eq!(c.password, "password123");
}

#[test]
fn blank_credentials_are_refused() {
    for (e, p) in [("", "pw"), ("a@b.c", "   "), (" \n ", " ")] {
        let err = normalize_credentials(&request(e, p)).err().unwrap();
        assert_eq!(err.status, 400);
        assert_eq!(err.message, "email and password are required");
    }
}

#[test]
fn signup_insert_failures() {
    assert!(signup_insert_outcome(Ok(())).is_ok());
    let dup = signup_insert_outcome(Err(DbError { unique_violation: true })).err().unwrap();
    assert_eq!((dup.status, dup.message.as_str()), (409, "email already exists"));
    let other = signup_insert_outcome(Err(DbError { unique_violation: false })).err().unwrap();
    assert_eq!((other.status, other.message.as_str()), (500, "failed to create user"));
}

#[test]
fn login_lookup_answers() {
    let user = UserRecord { id: USER, email: "a@b.c".to_string(), password_hash: "h".to_string() };
    assert_eq!(login_lookup_outcome(Ok(Some(user))).unwrap().id, USER);
    let missing = login_lookup_outcome(Ok(None)).err().unwrap();
    assert_eq!((missing.status, missing.message.as_str()), (401, "invalid credentials"));
    let failed = login_lookup_outcome(Err(DbError { unique_violation: false })).err().unwrap();
    assert_eq!((failed.status, failed.message.as_str()), (500, "login failed"));
}

#[test]
fn refresh_token_digest_is_sha256_hex() {
    assert_eq!(
        hash_refresh_token("abc"),
        "ba7816bf8f01cfea414140de5dae2223b00361a396177a9cb410ff61f20015ad"
    );
}

#[test]
fn generated_refresh_tokens_are_fresh_hex() {
    let a = generate_refresh_token();
    let b = generate_refresh_token();
    assert!(is_hex64(&a));
    assert!(is_hex64(&b));
    assert_ne!(a, b);
}

#[test]
fn refresh_lookup_key_trims_and_hashes() {
    let key = refresh_lookup_key(&RefreshRequest { refresh_token: "  abc \n".to_string() }).unwrap();
    assert_eq!(key, hash_refresh_token("abc"));
    let err = refresh_lookup_key(&RefreshRequest { refresh_token: "   ".to_string() }).err().unwrap();
    assert_eq!((err.status, err.message.as_str()), (400, "refresh_token is required"));
}

#[test]
fn issued_refresh_token_is_found_under_its_digest() {
    let grant = issue_refresh_token();
    assert!(is_hex64(&grant.token));
    assert_eq!(grant.token_hash, hash_refresh_token(&grant.token));
    let key = refresh_lookup_key(&RefreshRequest { refresh_token: grant.token.clone() }).unwrap();
    assert_eq!(key, grant.token_hash);
    assert_eq!(grant.expires_at - grant.issued_at, REFRESH_TOKEN_TTL_SECS);
    assert!(grant.subsec_nanos < 1_000_000_000);
    assert!(grant.issued_at > 1_600_000_000);
    assert_eq!(REFRESH_TOKEN_TTL_SECS, 2_592_000);
}

#[test]
fn refresh_outcomes() {
    let rec = refresh_lookup_outcome(Ok(Some((USER, "a@b.c".to_string())))).unwrap();
    assert_eq!(rec.0, USER);
    let none = refresh_lookup_outcome(Ok(None)).err().unwrap();
    assert_eq!((none.status, none.message.as_str()), (401, "invalid refresh token"));
    let failed = refresh_lookup_outcome(Err(DbError { unique_violation: false })).err().unwrap();
    assert_eq!((failed.status, failed.message.as_str()), (500, "refresh failed"));
    let revoke = refresh_revoke_outcome(Err(DbError { unique_violation: false })).err().unwrap();
    assert_eq!((revoke.status, revoke.message.as_str()), (500, "refresh failed"));
    assert!(refresh_revoke_outcome(Ok(())).is_ok());
    let store = refresh_store_outcome(Err(DbError { unique_violation: true })).err().unwrap();
    assert_eq!((store.status, store.message.as_str()), (500, "failed to create refresh token"));
    assert!(refresh_store_outcome(Ok(())).is_ok());
}

#[test]
fn password_hash_verifies_its_password_only() {
    let hash = hash_password("password123").unwrap();
    assert!(hash.starts_with("$argon2id$"));
    assert!(verify_password("password123", &hash).is_ok());
    let wrong = verify_password("password124", &hash).err().unwrap();
    assert_eq!((wrong.status, wrong.message.as_str()), (401, "invalid credentials"));
    let garbage = verify_password("password123", "not a phc string").err().unwrap();
    assert_eq!((garbage.status, garbage.message.as_str()), (401, "invalid credentials"));
    assert!(verify_password("password123", "").is_err());
    assert!(verify_password("password123", &hash[1..]).is_err());
}

#[test]
fn password_hashes_are_salted() {
    let a = hash_password("same").unwrap();
    let b = hash_password("same").unwrap();
    assert_ne!(a, b);
    let salt = "c29tZXNhbHRzb21lc2FsdA";
    let c = hash_password_with_salt("same", salt).unwrap();
    let d = hash_password_with_salt("same", salt).unwrap();
    assert_eq!(c, d);
    assert!(c.contains(salt));
    assert!(verify_password("same", &c).is_ok());
    let bad = hash_password_with_salt("same", "!").err().unwrap();
    assert_eq!((bad.status, bad.message.as_str()), (500, "password hash failed"));
}

#[test]
fn access_claims_live_a_week() {
    let c = access_claims_at(USER, Some("a@b.c"), 1_700_000_000);
    assert_eq!(c.iat, 1_700_000_000);
    assert_eq!(c.exp, 1_700_604_800);
    assert_eq!(c.sub, USER_TEXT);
    assert_eq!(c.aud, "photoapp");
    assert_eq!(c.email.as_deref(), Some("a@b.c"));
    assert_eq!(ACCESS_TOKEN_TTL_SECS, 604_800);
}

#[test]
fn issued_access_claims_start_now() {
    let now = std::time::SystemTime::now()
        .duration_since(std::time::UNIX_EPOCH)
        .unwrap()
        .as_secs() as usize;
    let c = issue_access_claims(USER, None);
    assert!(c.iat + 5 >= now && c.iat <= now + 5);
    assert_eq!(c.exp - c.iat, 604_800);
    assert!(c.email.is_none());
}

#[test]
fn auth_and_me_responses() {
    let r = auth_response("at".to_string(), "rt".to_string(), USER, "a@b.c".to_string());
    assert_eq!(r.user_id, USER_TEXT);
    assert_eq!((r.access_token.as_str(), r.refresh_token.as_str(), r.email.as_str()), ("at", "rt", "a@b.c"));
    let me = me_response(&AuthenticatedUser { user_id: USER, email: None });
    assert_eq!((me.user_id, me.email.as_str()), (USER, ""));
    let me2 = me_response(&AuthenticatedUser { user_id: USER, email: Some("x@y.z".to_string()) });
    assert_eq!(me2.email, "x@y.z");
}

#[test]
fn generic_database_failures_are_internal_errors() {
    let e = internal_error(DbError { unique_violation: true });
    assert_eq!((e.status, e.message.as_str()), (500, "internal server error"));
    assert_eq!(db_step::<u8>(Ok(7)).unwrap(), 7);
    let f = db_step::<u8>(Err(DbError { unique_violation: false })).err().unwrap();
    assert_eq!((f.status, f.message.as_str()), (500, "internal server error"));
    let t = token_encode_failed();
    assert_eq!((t.status, t.message.as_str()), (500, "token encode failed"));
}
