use openposterdb_api::auth::{
    bearer_token, check_login, extract_refresh_token_from_cookies, generate_refresh_token, hash_api_key,
    hash_password, hash_refresh_token, refresh_cookie, verify_password,
};
use openposterdb_api::error::AppError;

#[test]
fn hash_verify_password_roundtrip() {
    let hash = hash_password("testpassword").unwrap();
    assert!(verify_password("testpassword", &hash).unwrap());
}

#[test]
fn verify_wrong_password() {
    let hash = hash_password("correct").unwrap();
    assert!(!verify_password("wrong", &hash).unwrap());
}

#[test]
fn hash_refresh_token_deterministic() {
    let a = hash_refresh_token("token123");
    let b = hash_refresh_token("token123");
    assert_eq!(a, b);
}

#[test]
fn different_inputs_different_hashes() {
    let a = hash_refresh_token("token_a");
    let b = hash_refresh_token("token_b");
    assert_ne!(a, b);
}

#[test]
fn refresh_cookie_secure() {
    let cookie = refresh_cookie("abc123", 604800, true);
    assert!(cookie.contains("refresh_token=abc123"));
    assert!(cookie.contains("HttpOnly"));
    assert!(cookie.contains("SameSite=Strict"));
    assert!(cookie.contains("Path=/api/auth/refresh"));
    assert!(cookie.contains("Max-Age=604800"));
    assert!(cookie.contains("; Secure"));
}

#[test]
fn refresh_cookie_insecure() {
    let cookie = refresh_cookie("abc123", 604800, false);
    assert!(cookie.contains("refresh_token=abc123"));
    assert!(!cookie.contains("; Secure"));
}

#[test]
fn refresh_cookie_zero_max_age() {
    let cookie = refresh_cookie("", 0, false);
    assert!(cookie.contains("refresh_token="));
    assert!(cookie.contains("Max-Age=0"));
}

#[test]
fn extract_refresh_token_present() {
    assert_eq!(
        extract_refresh_token_from_cookies(Some("refresh_token=mytoken123")),
        Some("mytoken123".to_string())
    );
}

#[test]
fn extract_refresh_token_missing() {
    assert_eq!(extract_refresh_token_from_cookies(Some("other=value")), None);
}

#[test]
fn extract_refresh_token_multiple_cookies() {
    assert_eq!(
        extract_refresh_token_from_cookies(Some("foo=bar; refresh_token=mytoken; baz=qux")),
        Some("mytoken".to_string())
    );
}

#[test]
fn extract_refresh_token_no_cookie_header() {
    assert_eq!(extract_refresh_token_from_cookies(None), None);
}

// --- own tests ---

#[test]
fn refresh_cookie_exact_text() {
    assert_eq!(
        refresh_cookie("abc", 60, true),
        "refresh_token=abc; HttpOnly; SameSite=Strict; Path=/api/auth/refresh; Max-Age=60; Secure"
    );
    assert_eq!(
        refresh_cookie("", -5, false),
        "refresh_token=; HttpOnly; SameSite=Strict; Path=/api/auth/refresh; Max-Age=-5"
    );
}

#[test]
fn token_hashes_are_lowercase_sha256_hex() {
    // SHA-256 of "abc".
    assert_eq!(
        hash_refresh_token("abc"),
        "ba7816bf8f01cfea414140de5dae2223b00361a396177a9cb410ff61f20015ad"
    );
    assert_eq!(hash_api_key("abc"), hash_refresh_token("abc"));
}

#[test]
fn refresh_tokens_are_64_hex_digits_and_differ() {
    let a = generate_refresh_token();
    let b = generate_refresh_token();
    assert_eq!(a.len(), 64);
    assert!(a.chars().all(|c| c.is_ascii_hexdigit() && !c.is_ascii_uppercase()));
    assert_ne!(a, b);
}

#[test]
fn verify_rejects_text_that_is_not_a_hash() {
    let e = verify_password("pw", "not-a-hash").unwrap_err();
    assert_eq!(e.to_display_string(), "bad request: Authentication failed");
}

#[test]
fn login_decisions() {
    let hash = hash_password("secret").unwrap();
    let dummy = hash_password("dummy").unwrap();
    assert!(check_login("secret", Some(&hash), &dummy).is_ok());
    assert!(matches!(check_login("wrong", Some(&hash), &dummy), Err(AppError::Unauthorized)));
    assert!(matches!(check_login("secret", None, &dummy), Err(AppError::Unauthorized)));
    assert!(matches!(check_login("secret", Some("garbage"), &dummy), Err(AppError::BadRequest(_))));
}

#[test]
fn bearer_tokens() {
    assert_eq!(bearer_token(Some("Bearer abc.def")), Some("abc.def"));
    assert_eq!(bearer_token(Some("Basic abc")), None);
    assert_eq!(bearer_token(Some("bearer abc")), None);
    assert_eq!(bearer_token(None), None);
}
