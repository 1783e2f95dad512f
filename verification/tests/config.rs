use openposterdb_api::config::{Config, ConfigError, ConfigVars};

fn empty_vars() -> ConfigVars {
    ConfigVars {
        tmdb_api_key: None,
        omdb_api_key: None,
        cache_dir: None,
        db_dir: None,
        listen_addr: None,
        ratings_stale_secs: None,
        ratings_max_age_secs: None,
        image_stale_secs: None,
        image_quality: None,
        mdblist_api_key: None,
        image_mem_cache_mb: None,
        static_dir: None,
        cors_origin: None,
        fanart_api_key: None,
        enable_cdn_redirects: None,
        external_cache_only: None,
        free_key_enabled: None,
        disable_public_pages: None,
    }
}

fn base_vars() -> ConfigVars {
    let mut v = empty_vars();
    v.tmdb_api_key = Some("tmdb_test".into());
    v.omdb_api_key = Some("omdb_test".into());
    v
}

fn load(vars: ConfigVars) -> Config {
    if let Some(e) = vars.missing() {
        panic!("{}", e.message());
    }
    Config::from_vars(vars)
}

#[test]
fn test_valid_config_with_omdb() {
    let cfg = load(base_vars());
    assert_eq!(cfg.tmdb_api_key, "tmdb_test");
    assert_eq!(cfg.omdb_api_key.as_deref(), Some("omdb_test"));
    assert!(cfg.mdblist_api_key.is_none());
    assert_eq!(cfg.cache_dir, "./cache");
    assert_eq!(cfg.db_dir, "./db");
    assert_eq!(cfg.listen_addr, "0.0.0.0:3000");
    assert_eq!(cfg.ratings_min_stale_secs, 86400);
    assert_eq!(cfg.ratings_max_age_secs, 31_536_000);
    assert_eq!(cfg.image_stale_secs, 0);
    assert_eq!(cfg.image_quality, 85);
    assert_eq!(cfg.image_mem_cache_mb, 512);
    assert!(!cfg.enable_cdn_redirects);
    assert!(!cfg.external_cache_only);
    assert!(cfg.free_key_enabled.is_none());
}

#[test]
fn test_valid_config_with_mdblist() {
    let mut v = empty_vars();
    v.tmdb_api_key = Some("tmdb_test".into());
    v.mdblist_api_key = Some("mdblist_test".into());
    let cfg = load(v);
    assert!(cfg.omdb_api_key.is_none());
    assert_eq!(cfg.mdblist_api_key.as_deref(), Some("mdblist_test"));
}

#[test]
fn test_custom_numeric_overrides() {
    let mut v = base_vars();
    v.ratings_stale_secs = Some("100".into());
    v.ratings_max_age_secs = Some("200".into());
    v.image_stale_secs = Some("300".into());
    v.image_quality = Some("50".into());
    v.image_mem_cache_mb = Some("1024".into());
    let cfg = load(v);
    assert_eq!(cfg.ratings_min_stale_secs, 100);
    assert_eq!(cfg.ratings_max_age_secs, 200);
    assert_eq!(cfg.image_stale_secs, 300);
    assert_eq!(cfg.image_quality, 50);
    assert_eq!(cfg.image_mem_cache_mb, 1024);
}

#[test]
fn test_invalid_numeric_falls_back_to_default() {
    let mut v = base_vars();
    v.image_quality = Some("notanumber".into());
    v.ratings_stale_secs = Some("abc".into());
    let cfg = load(v);
    assert_eq!(cfg.image_quality, 85);
    assert_eq!(cfg.ratings_min_stale_secs, 86400);
}

#[test]
#[should_panic(expected = "TMDB_API_KEY must be set")]
fn test_panics_without_tmdb_key() {
    load(empty_vars());
}

#[test]
#[should_panic(expected = "at least one of OMDB_API_KEY or MDBLIST_API_KEY must be set")]
fn test_panics_without_ratings_provider() {
    let mut v = empty_vars();
    v.tmdb_api_key = Some("tmdb_test".into());
    load(v);
}

#[test]
fn test_boolean_env_true() {
    let mut v = base_vars();
    v.enable_cdn_redirects = Some("true".into());
    v.external_cache_only = Some("1".into());
    v.disable_public_pages = Some("true".into());
    let cfg = load(v);
    assert!(cfg.enable_cdn_redirects);
    assert!(cfg.external_cache_only);
    assert!(cfg.disable_public_pages);
}

#[test]
fn test_boolean_env_defaults_false() {
    let cfg = load(base_vars());
    assert!(!cfg.enable_cdn_redirects);
    assert!(!cfg.external_cache_only);
    assert!(!cfg.disable_public_pages);
}

#[test]
fn test_free_key_enabled_some() {
    let mut v = base_vars();
    v.free_key_enabled = Some("true".into());
    let cfg = load(v);
    assert_eq!(cfg.free_key_enabled, Some(true));
}

#[test]
fn test_free_key_enabled_none() {
    let cfg = load(base_vars());
    assert!(cfg.free_key_enabled.is_none());
}

// --- own tests ---

#[test]
fn config_errors() {
    assert_eq!(empty_vars().missing(), Some(ConfigError::MissingTmdbApiKey));
    let mut v = empty_vars();
    v.tmdb_api_key = Some("k".into());
    assert_eq!(v.missing(), Some(ConfigError::NoRatingsProvider));
    v.mdblist_api_key = Some("m".into());
    assert_eq!(v.missing(), None);
}

#[test]
fn quality_out_of_range_falls_back() {
    let mut v = base_vars();
    v.image_quality = Some("256".into());
    v.free_key_enabled = Some("yes".into());
    v.enable_cdn_redirects = Some("TRUE".into());
    let cfg = load(v);
    assert_eq!(cfg.image_quality, 85);
    assert_eq!(cfg.free_key_enabled, Some(false));
    assert!(!cfg.enable_cdn_redirects);
}
