//! Service configuration, read from environment variable values.

use crate::text::{parse_unsigned, parse_unsigned_max, str_eq};
use vstd::prelude::*;
use vstd::string::*;

verus! {

/// The service configuration.
#[derive(Clone)]
pub struct Config {
    pub tmdb_api_key: String,
    pub omdb_api_key: Option<String>,
    pub cache_dir: String,
    pub db_dir: String,
    pub listen_addr: String,
    pub ratings_min_stale_secs: u64,
    pub ratings_max_age_secs: u64,
    pub image_stale_secs: u64,
    pub image_quality: u8,
    pub mdblist_api_key: Option<String>,
    pub image_mem_cache_mb: u64,
    pub static_dir: Option<String>,
    pub cors_origin: Option<String>,
    pub fanart_api_key: Option<String>,
    pub enable_cdn_redirects: bool,
    pub external_cache_only: bool,
    pub free_key_enabled: Option<bool>,
    pub disable_public_pages: bool,
}

/// The raw values of the configuration variables; `None` when a variable is
/// unset (or not valid Unicode).
pub struct ConfigVars {
    pub tmdb_api_key: Option<String>,
    pub omdb_api_key: Option<String>,
    pub cache_dir: Option<String>,
    pub db_dir: Option<String>,
    pub listen_addr: Option<String>,
    pub ratings_stale_secs: Option<String>,
    pub ratings_max_age_secs: Option<String>,
    pub image_stale_secs: Option<String>,
    pub image_quality: Option<String>,
    pub mdblist_api_key: Option<String>,
    pub image_mem_cache_mb: Option<String>,
    pub static_dir: Option<String>,
    pub cors_origin: Option<String>,
    pub fanart_api_key: Option<String>,
    pub enable_cdn_redirects: Option<String>,
    pub external_cache_only: Option<String>,
    pub free_key_enabled: Option<String>,
    pub disable_public_pages: Option<String>,
}

/// Why a configuration is refused.
#[derive(Debug, Clone, Copy, PartialEq, Eq, Structural)]
pub enum ConfigError {
    /// `TMDB_API_KEY` is not set.
    MissingTmdbApiKey,
    /// Neither `OMDB_API_KEY` nor `MDBLIST_API_KEY` is set.
    NoRatingsProvider,
}

impl ConfigError {
    /// The message the service stops with.
    pub fn message(&self) -> (m: &'static str)
        ensures
            *self == ConfigError::MissingTmdbApiKey ==> m@ == "TMDB_API_KEY must be set"@,
            *self == ConfigError::NoRatingsProvider ==> m@
                == "at least one of OMDB_API_KEY or MDBLIST_API_KEY must be set"@,
    {
        match self {
            ConfigError::MissingTmdbApiKey => "TMDB_API_KEY must be set",
            ConfigError::NoRatingsProvider => "at least one of OMDB_API_KEY or MDBLIST_API_KEY must be set",
        }
    }
}

/// The text of an optional value.
pub open spec fn opt_view(v: Option<String>) -> Option<Seq<char>> {
    match v {
        Some(s) => Some(s@),
        None => None,
    }
}

/// A boolean switch: set and equal to `true` or `1`.
pub open spec fn switch_on(v: Option<String>) -> bool {
    match v {
        Some(s) => s@ == "true"@ || s@ == "1"@,
        None => false,
    }
}

/// A number setting: its parsed value, or `default` when unset or not a number
/// no larger than `max`.
pub open spec fn number_or(v: Option<String>, default: nat, max: nat) -> nat {
    match v {
        Some(s) => match parse_unsigned(s@, max) {
            Some(n) => n,
            None => default,
        },
        None => default,
    }
}

/// A text setting, or `default` when unset.
pub open spec fn text_or(v: Option<String>, default: Seq<char>) -> Seq<char> {
    match v {
        Some(s) => s@,
        None => default,
    }
}

fn is_true(v: &str) -> (r: bool)
    ensures
        r == (v@ == "true"@ || v@ == "1"@),
{
    str_eq(v, "true") || str_eq(v, "1")
}

fn switch(v: &Option<String>) -> (r: bool)
    ensures
        r == switch_on(*v),
{
    match v {
        Some(s) => is_true(s.as_str()),
        None => false,
    }
}

fn number(v: &Option<String>, default: u64, max: u64) -> (r: u64)
    requires
        default <= max,
    ensures
        r == number_or(*v, default as nat, max as nat),
{
    match v {
        Some(s) => match parse_unsigned_max(s.as_str(), max) {
            Some(n) => n,
            None => default,
        },
        None => default,
    }
}

fn text(v: Option<String>, default: &str) -> (r: String)
    ensures
        r@ == text_or(v, default@),
{
    match v {
        Some(s) => s,
        None => String::from_str(default),
    }
}

impl Config {
    /// Builds the configuration from variable values, with the documented
    /// defaults: cache in `./cache`, database in `./db`, listening on
    /// `0.0.0.0:3000`, ratings stale after a day and kept a year, images never
    /// stale, JPEG quality 85, 512 MB of image memory cache. `TMDB_API_KEY` is
    /// required, and so is at least one of `OMDB_API_KEY` and `MDBLIST_API_KEY`
    /// (the service stops without them: see [`ConfigVars::missing`]).
    pub fn from_vars(vars: ConfigVars) -> (c: Config)
        requires
            vars.tmdb_api_key is Some,
            vars.omdb_api_key is Some || vars.mdblist_api_key is Some,
        ensures
            opt_view(Some(c.tmdb_api_key)) == opt_view(vars.tmdb_api_key),
            opt_view(c.omdb_api_key) == opt_view(vars.omdb_api_key),
            c.cache_dir@ == text_or(vars.cache_dir, "./cache"@),
            c.db_dir@ == text_or(vars.db_dir, "./db"@),
            c.listen_addr@ == text_or(vars.listen_addr, "0.0.0.0:3000"@),
            c.ratings_min_stale_secs == number_or(vars.ratings_stale_secs, 86400, u64::MAX as nat),
            c.ratings_max_age_secs == number_or(vars.ratings_max_age_secs, 31_536_000, u64::MAX as nat),
            c.image_stale_secs == number_or(vars.image_stale_secs, 0, u64::MAX as nat),
            c.image_quality == number_or(vars.image_quality, 85, u8::MAX as nat),
            opt_view(c.mdblist_api_key) == opt_view(vars.mdblist_api_key),
            c.image_mem_cache_mb == number_or(vars.image_mem_cache_mb, 512, u64::MAX as nat),
            opt_view(c.static_dir) == opt_view(vars.static_dir),
            opt_view(c.cors_origin) == opt_view(vars.cors_origin),
            opt_view(c.fanart_api_key) == opt_view(vars.fanart_api_key),
            c.enable_cdn_redirects == switch_on(vars.enable_cdn_redirects),
            c.external_cache_only == switch_on(vars.external_cache_only),
            c.free_key_enabled == match vars.free_key_enabled {
                Some(s) => Some(s@ == "true"@ || s@ == "1"@),
                None => None,
            },
            c.disable_public_pages == switch_on(vars.disable_public_pages),
    {
        let tmdb_api_key = match vars.tmdb_api_key {
            Some(k) => k,
            None => String::new(),
        };
        let ratings_min_stale_secs = number(&vars.ratings_stale_secs, 86400, 18446744073709551615u64);
        let ratings_max_age_secs = number(&vars.ratings_max_age_secs, 31_536_000, 18446744073709551615u64);
        let image_stale_secs = number(&vars.image_stale_secs, 0, 18446744073709551615u64);
        let image_quality = number(&vars.image_quality, 85, 255) as u8;
        let image_mem_cache_mb = number(&vars.image_mem_cache_mb, 512, 18446744073709551615u64);
        let enable_cdn_redirects = switch(&vars.enable_cdn_redirects);
        let external_cache_only = switch(&vars.external_cache_only);
        let disable_public_pages = switch(&vars.disable_public_pages);
        let free_key_enabled = match &vars.free_key_enabled {
            Some(v) => Some(is_true(v.as_str())),
            None => None,
        };
        Config {
            tmdb_api_key,
            omdb_api_key: vars.omdb_api_key,
            cache_dir: text(vars.cache_dir, "./cache"),
            db_dir: text(vars.db_dir, "./db"),
            listen_addr: text(vars.listen_addr, "0.0.0.0:3000"),
            ratings_min_stale_secs,
            ratings_max_age_secs,
            image_stale_secs,
            image_quality,
            mdblist_api_key: vars.mdblist_api_key,
            image_mem_cache_mb,
            static_dir: vars.static_dir,
            cors_origin: vars.cors_origin,
            fanart_api_key: vars.fanart_api_key,
            enable_cdn_redirects,
            external_cache_only,
            free_key_enabled,
            disable_public_pages,
        }
    }
}

impl ConfigVars {
    /// The required setting that is missing, if any: `TMDB_API_KEY` first,
    /// then a ratings provider (`OMDB_API_KEY` or `MDBLIST_API_KEY`).
    pub fn missing(&self) -> (r: Option<ConfigError>)
        ensures
            self.tmdb_api_key is None ==> r == Some(ConfigError::MissingTmdbApiKey),
            self.tmdb_api_key is Some && self.omdb_api_key is None && self.mdblist_api_key is None
                ==> r == Some(ConfigError::NoRatingsProvider),
            r is None <==> (self.tmdb_api_key is Some && (self.omdb_api_key is Some
                || self.mdblist_api_key is Some)),
    {
        if self.tmdb_api_key.is_none() {
            Some(ConfigError::MissingTmdbApiKey)
        } else if self.omdb_api_key.is_none() && self.mdblist_api_key.is_none() {
            Some(ConfigError::NoRatingsProvider)
        } else {
            None
        }
    }
}

} // verus!
