use openposterdb_api::routes::{is_api_or_image_path, redact_path};

#[test]
fn redact_path_api_route_unchanged() {
    assert_eq!(redact_path("/api/auth/status"), "/api/auth/status");
    assert_eq!(redact_path("/api/keys"), "/api/keys");
}

#[test]
fn redact_path_image_route_hides_key() {
    assert_eq!(
        redact_path("/abc123def456/imdb/poster-default/tt1234567.jpg"),
        "/[REDACTED]/imdb/poster-default/tt1234567.jpg"
    );
}

#[test]
fn redact_path_single_segment() {
    assert_eq!(redact_path("/abc123def456"), "/[REDACTED]");
}

#[test]
fn redact_path_root() {
    // "/" — the rest is empty, so there is no further segment
    assert_eq!(redact_path("/"), "/[REDACTED]");
}

#[test]
fn is_api_path() {
    assert!(is_api_or_image_path("/api/auth/login"));
    assert!(is_api_or_image_path("/api/keys"));
    assert!(is_api_or_image_path("/api"));
}

#[test]
fn is_image_path_valid_key() {
    let key = "a".repeat(64);
    assert!(is_api_or_image_path(&format!("/{key}/imdb/poster-default/tt123.jpg")));
    assert!(is_api_or_image_path(&format!("/{key}/bad-path")));
    // Key alone (no trailing path)
    assert!(is_api_or_image_path(&format!("/{key}")));
}

#[test]
fn is_image_path_invalid_key() {
    // Too short
    assert!(!is_api_or_image_path("/abcdef/imdb/poster-default/tt123.jpg"));
    // Not hex
    let key = "g".repeat(64);
    assert!(!is_api_or_image_path(&format!("/{key}/imdb/poster-default/tt123.jpg")));
}

#[test]
fn spa_paths_not_matched() {
    assert!(!is_api_or_image_path("/"));
    assert!(!is_api_or_image_path("/login"));
    assert!(!is_api_or_image_path("/settings"));
    assert!(!is_api_or_image_path("/posters"));
}

#[test]
fn cdn_paths_matched() {
    assert!(is_api_or_image_path("/c/a1b2c3d4e5f6/imdb/poster-default/tt123.jpg"));
    assert!(is_api_or_image_path("/c/abc123/tmdb/logo-default/12345.png"));
}

#[test]
fn redact_path_cdn_route_unchanged() {
    assert_eq!(
        redact_path("/c/a1b2c3d4e5f6/imdb/poster-default/tt123.jpg"),
        "/c/a1b2c3d4e5f6/imdb/poster-default/tt123.jpg"
    );
}

// --- own tests ---

#[test]
fn uppercase_hex_key_is_not_an_image_path() {
    let key = "AB".repeat(32);
    assert!(!is_api_or_image_path(&format!("/{key}/imdb/poster-default/tt1.jpg")));
    assert!(!is_api_or_image_path(&format!("/{}", "A".repeat(64))));
    assert!(is_api_or_image_path(&format!("/{}", "ab".repeat(32))));
}

#[test]
fn redacted_image_path_never_keeps_the_key() {
    let key = "0123456789abcdef".repeat(4);
    let r = redact_path(&format!("/{key}/tmdb/poster-default/movie-1.jpg"));
    assert!(!r.contains(&key));
    assert_eq!(r, "/[REDACTED]/tmdb/poster-default/movie-1.jpg");
}

#[test]
fn empty_and_non_ascii_paths() {
    assert!(!is_api_or_image_path(""));
    assert!(!is_api_or_image_path("é"));
    assert_eq!(redact_path(""), "/[REDACTED]");
}
