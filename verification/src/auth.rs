//! Authentication helpers: password hashing and checking, token hashing,
//! refresh-token generation, the refresh cookie, and reading the tokens that
//! clients send back.

use crate::error::{AppError, ErrorView};
use crate::text::{
    has_prefix, hex_lower, lemma_hex_lower_shape, push_signed_decimal, signed_decimal, split_char,
    split_char_str, strip_prefix, to_hex_lower, trim, trim_str,
};
use argon2::password_hash::{PasswordHash, PasswordHasher, PasswordVerifier, SaltString};
use argon2::Argon2;
use sha2::{Digest, Sha256};
use vstd::prelude::*;
use vstd::string::*;

verus! {

/// Lifetime of an access token, in minutes.
pub const ACCESS_TOKEN_EXPIRY_MINUTES: i64 = 15;

/// Lifetime of a refresh token, in days.
pub const REFRESH_TOKEN_EXPIRY_DAYS: i64 = 7;

/// Lifetime of a refresh token, in seconds (the cookie's `Max-Age`).
pub const REFRESH_TOKEN_MAX_AGE_SECS: i64 = REFRESH_TOKEN_EXPIRY_DAYS * 24 * 60 * 60;

/// Lifetime of a session opened with an API key, in hours.
pub const API_KEY_SESSION_EXPIRY_HOURS: i64 = 24;

/// Claims of an admin access token.
#[derive(Debug)]
pub struct Claims {
    pub sub: String,
    pub exp: usize,
}

/// Claims of a session opened with an API key.
#[derive(Debug)]
pub struct ApiKeyClaims {
    pub key_id: i32,
    pub exp: usize,
}

/// The admin user an access token was issued to.
#[derive(Clone)]
pub struct AuthUser {
    pub username: String,
}

/// The body of the first-admin setup request.
pub struct SetupRequest {
    pub username: String,
    pub password: String,
}

/// The body of an admin login request.
pub struct LoginRequest {
    pub username: String,
    pub password: String,
}

/// The body of a login with an API key.
pub struct KeyLoginRequest {
    pub api_key: String,
}

/// The API key a session token was issued for.
#[derive(Clone, Debug)]
pub struct ApiKeyUser {
    pub key_id: i32,
}

/// SHA-256 of some bytes, as a function of them.
pub uninterp spec fn sha256_digest(data: Seq<u8>) -> Seq<u8>;

/// `sha2::Sha256` over `data`: the 32-byte digest. The contract names the
/// digest as a function of the input and states its length.
#[verifier::external_body]
fn sha256(data: &[u8]) -> (d: Vec<u8>)
    ensures
        d@ == sha256_digest(data@),
        d@.len() == 32,
{
    let mut hasher = Sha256::new();
    hasher.update(data);
    hasher.finalize().to_vec()
}

/// The stored form of a token or key: lowercase hex SHA-256 of its UTF-8 bytes.
pub open spec fn token_hash(s: Seq<char>) -> Seq<char> {
    hex_lower(sha256_digest(vstd::utf8::encode_utf8(s)))
}

/// Hashes a refresh token for storage.
pub fn hash_refresh_token(token: &str) -> (h: String)
    ensures
        h@ == token_hash(token@),
        h@.len() == 64,
{
    let d = sha256(token.as_bytes());
    proof {
        lemma_hex_lower_shape(d@);
    }
    to_hex_lower(d.as_slice())
}

/// Hashes an API key for storage and lookup.
pub fn hash_api_key(raw: &str) -> (h: String)
    ensures
        h@ == token_hash(raw@),
        h@.len() == 64,
{
    let d = sha256(raw.as_bytes());
    proof {
        lemma_hex_lower_shape(d@);
    }
    to_hex_lower(d.as_slice())
}

/// 32 bytes from `rand::fill` (the thread-local random generator). Nothing is
/// stated of their value.
#[verifier::external_body]
fn random_bytes_32() -> (b: [u8; 32]) {
    let mut bytes = [0u8; 32];
    rand::fill(&mut bytes);
    bytes
}

/// 16 bytes from `rand::fill`, used as a password salt. Nothing is stated of
/// their value.
#[verifier::external_body]
fn random_salt_bytes() -> (b: [u8; 16]) {
    let mut raw = [0u8; 16];
    rand::fill(&mut raw);
    raw
}

/// A new refresh token: 32 random bytes as 64 lowercase hex digits.
pub fn generate_refresh_token() -> (t: String)
    ensures
        exists|bytes: Seq<u8>| bytes.len() == 32 && t@ == hex_lower(bytes),
        t@.len() == 64,
        forall|i: int| 0 <= i < 64 ==> {
            let c = #[trigger] t@[i];
            ('0' <= c && c <= '9') || ('a' <= c && c <= 'f')
        },
{
    let bytes = random_bytes_32();
    proof {
        lemma_hex_lower_shape(bytes@);
    }
    to_hex_lower(&bytes)
}

/// The PHC string Argon2 (default parameters) produces for a password and salt.
pub uninterp spec fn argon2_phc(password: Seq<u8>, salt: Seq<u8>) -> Seq<char>;

/// Whether a text parses as a PHC password-hash string.
pub uninterp spec fn phc_parses(hash: Seq<char>) -> bool;

/// Whether Argon2 accepts a password against a parsed PHC hash.
pub uninterp spec fn argon2_accepts(password: Seq<u8>, hash: Seq<char>) -> bool;

/// `Argon2::default().hash_password` with the salt `SaltString::encode_b64(salt)`,
/// rendered as a PHC string. The contract names the result as a function of
/// password and salt, and states what the argon2 source shows: the string
/// parses with `PasswordHash::new` and the password verifies against it, and
/// with the default parameters and a 16-byte salt hashing fails only for a
/// password longer than `MAX_PWD_LEN` (`0xFFFF_FFFF`) bytes.
#[verifier::external_body]
fn argon2_hash_phc(password: &[u8], salt: &[u8; 16]) -> (r: Option<String>)
    ensures
        password@.len() <= 0xFFFF_FFFF ==> r is Some,
        r matches Some(h) ==> h@ == argon2_phc(password@, salt@) && phc_parses(h@) && argon2_accepts(
            password@,
            h@,
        ),
{
    let salt = SaltString::encode_b64(salt).ok()?;
    Argon2::default().hash_password(password, &salt).ok().map(|h| h.to_string())
}

/// `PasswordHash::new(hash)` followed by `Argon2::default().verify_password`:
/// `None` when the text is not a PHC string, otherwise whether the password
/// matches. Both outcomes are named as functions of the arguments.
#[verifier::external_body]
fn argon2_verify(password: &[u8], hash: &str) -> (r: Option<bool>)
    ensures
        r is Some <==> phc_parses(hash@),
        r matches Some(b) ==> b == argon2_accepts(password@, hash@),
{
    match PasswordHash::new(hash) {
        Ok(parsed) => Some(Argon2::default().verify_password(password, &parsed).is_ok()),
        Err(_) => None,
    }
}

/// What checking a password against a stored hash answers: `None` when the
/// stored text is not a password hash, otherwise whether the password matches.
pub open spec fn password_check(password: Seq<char>, hash: Seq<char>) -> Option<bool> {
    if phc_parses(hash) {
        Some(argon2_accepts(vstd::utf8::encode_utf8(password), hash))
    } else {
        None
    }
}

/// Hashes a password with Argon2 and a fresh random salt. Any hash produced
/// checks out against the same password; hashing succeeds for every password
/// of at most `0xFFFF_FFFF` bytes, and a failure is reported as
/// "Account operation failed".
pub fn hash_password(password: &str) -> (r: Result<String, AppError>)
    ensures
        vstd::utf8::encode_utf8(password@).len() <= 0xFFFF_FFFF ==> r is Ok,
        match r {
            Ok(h) => password_check(password@, h@) == Some(true) && exists|salt: Seq<u8>|
                h@ == argon2_phc(vstd::utf8::encode_utf8(password@), salt),
            Err(e) => e@ == ErrorView::BadRequest("Account operation failed"@),
        },
{
    let salt = random_salt_bytes();
    match argon2_hash_phc(password.as_bytes(), &salt) {
        Some(h) => Ok(h),
        None => Err(AppError::BadRequest(String::from_str("Account operation failed"))),
    }
}

/// Checks a password against a stored Argon2 hash; a stored text that is not a
/// password hash is reported as "Authentication failed".
pub fn verify_password(password: &str, hash: &str) -> (r: Result<bool, AppError>)
    ensures
        match password_check(password@, hash@) {
            Some(b) => r == Ok::<bool, AppError>(b),
            None => r matches Err(e) && e@ == ErrorView::BadRequest("Authentication failed"@),
        },
{
    match argon2_verify(password.as_bytes(), hash) {
        Some(b) => Ok(b),
        None => Err(AppError::BadRequest(String::from_str("Authentication failed"))),
    }
}

/// The `Set-Cookie` value carrying a refresh token: HTTP-only, strict
/// same-site, scoped to the refresh endpoint, and `Secure` when requested.
pub open spec fn refresh_cookie_spec(token: Seq<char>, max_age_secs: int, secure: bool) -> Seq<char> {
    let base = "refresh_token="@ + token + "; HttpOnly; SameSite=Strict; Path=/api/auth/refresh; Max-Age="@
        + signed_decimal(max_age_secs);
    if secure {
        base + "; Secure"@
    } else {
        base
    }
}

/// Builds the refresh-token cookie.
pub fn refresh_cookie(token: &str, max_age_secs: i64, secure: bool) -> (c: String)
    ensures
        c@ == refresh_cookie_spec(token@, max_age_secs as int, secure),
{
    let mut cookie = String::from_str("refresh_token=");
    cookie.append(token);
    cookie.append("; HttpOnly; SameSite=Strict; Path=/api/auth/refresh; Max-Age=");
    push_signed_decimal(&mut cookie, max_age_secs);
    if secure {
        cookie.append("; Secure");
    }
    cookie
}

/// The value of the first cookie (in header order, each trimmed) that starts
/// with `refresh_token=`.
pub open spec fn refresh_token_in(parts: Seq<Seq<char>>) -> Option<Seq<char>>
    decreases parts.len(),
{
    if parts.len() == 0 {
        None
    } else if has_prefix(trim(parts[0]), "refresh_token="@) {
        Some(trim(parts[0]).skip(14))
    } else {
        refresh_token_in(parts.drop_first())
    }
}

/// The refresh token carried by a `Cookie` header value, if any.
pub open spec fn refresh_token_from_cookie_spec(cookie_header: Option<Seq<char>>) -> Option<Seq<char>> {
    match cookie_header {
        Some(h) => refresh_token_in(split_char(h, ';')),
        None => None,
    }
}

/// Reads the refresh token from the request's `Cookie` header value (absent
/// when the request has none or it is not visible ASCII).
pub fn extract_refresh_token_from_cookies(cookie_header: Option<&str>) -> (r: Option<String>)
    ensures
        match refresh_token_from_cookie_spec(
            match cookie_header {
                Some(h) => Some(h@),
                None => None,
            },
        ) {
            Some(t) => r matches Some(rt) && rt@ == t,
            None => r is None,
        },
{
    proof {
        reveal_strlit("refresh_token=");
    }
    let header = match cookie_header {
        Some(h) => h,
        None => return None,
    };
    let parts = split_char_str(header, ';');
    let ghost all = split_char(header@, ';');
    let n = parts.len();
    let mut i: usize = 0;
    assert(all.skip(0) =~= all);
    while i < n
        invariant
            n == parts@.len(),
            n == all.len(),
            all == split_char(header@, ';'),
            forall|k: int| 0 <= k < n ==> (#[trigger] parts@[k])@ == all[k],
            i <= n,
            refresh_token_in(all) == refresh_token_in(all.skip(i as int)),
            cookie_header == Some(header),
        decreases n - i,
    {
        proof {
            reveal_strlit("refresh_token=");
        }
        let c = trim_str(parts[i]);
        assert(all.skip(i as int)[0] == all[i as int]);
        assert(all.skip(i as int).drop_first() =~= all.skip(i + 1));
        match strip_prefix(c, "refresh_token=") {
            Some(v) => return Some(v.to_owned()),
            None => {},
        }
        i = i + 1;
    }
    None
}

/// The token of an `Authorization: Bearer <token>` header value.
pub open spec fn bearer_token_spec(header: Option<Seq<char>>) -> Option<Seq<char>> {
    match header {
        Some(h) => if has_prefix(h, "Bearer "@) {
            Some(h.skip(7))
        } else {
            None
        },
        None => None,
    }
}

/// Reads the bearer token from an `Authorization` header value (absent when the
/// request has none or it is not visible ASCII).
pub fn bearer_token(header: Option<&str>) -> (r: Option<&str>)
    ensures
        match bearer_token_spec(
            match header {
                Some(h) => Some(h@),
                None => None,
            },
        ) {
            Some(t) => r matches Some(rt) && rt@ == t,
            None => r is None,
        },
{
    proof {
        reveal_strlit("Bearer ");
    }
    match header {
        Some(h) => strip_prefix(h, "Bearer "),
        None => None,
    }
}

/// Decides an admin login: an unknown user is refused (after checking the
/// password against `dummy_hash`, so that unknown and known users take the
/// same time), a wrong password is refused, and a stored text that is not a
/// password hash is reported as "Authentication failed".
pub fn check_login(password: &str, stored_hash: Option<&str>, dummy_hash: &str) -> (r: Result<(), AppError>)
    ensures
        match stored_hash {
            None => r matches Err(e) && e@ == ErrorView::Unauthorized,
            Some(h) => match password_check(password@, h@) {
                Some(true) => r is Ok,
                Some(false) => r matches Err(e) && e@ == ErrorView::Unauthorized,
                None => r matches Err(e) && e@ == ErrorView::BadRequest("Authentication failed"@),
            },
        },
{
    match stored_hash {
        None => {
            let _ = verify_password(password, dummy_hash);
            Err(AppError::Unauthorized)
        },
        Some(h) => match verify_password(password, h) {
            Ok(true) => Ok(()),
            Ok(false) => Err(AppError::Unauthorized),
            Err(e) => Err(e),
        },
    }
}

} // verus!
