use openposterdb_api::admin::{bytes_to_mb, cache_file_base, default_page, default_page_size, image_not_found, page_window, ListImagesQuery};
use openposterdb_api::icons::{flag_country_for_lang, percent_text, percent_whole, rt_tier, RtTier};
use openposterdb_api::id::{EpisodeInfo, MediaType, ResolvedId};
use openposterdb_api::providers::{
    mdblist_entry, mdblist_kind, mdblist_url, omdb_badges, show_external_ids_path, tmdb_details_path, trakt_episode_url,
    trakt_lookup, trakt_ratings_url, MdblistField, OmdbRating, OmdbRatings, TraktLookup,
};
use openposterdb_api::ratings::{merge_ratings, ratings_cache_key, RatingBadge, RatingSource};

fn resolved(media_type: MediaType, imdb: Option<&str>, episode: Option<EpisodeInfo>) -> ResolvedId {
    ResolvedId {
        imdb_id: imdb.map(|s| s.to_string()),
        tmdb_id: 1396,
        tvdb_id: None,
        media_type,
        poster_path: None,
        release_date: None,
        episode,
    }
}

fn ep() -> EpisodeInfo {
    EpisodeInfo { show_tmdb_id: 1396, season_number: 2, episode_number: 5, still_path: None }
}

#[test]
fn provider_paths() {
    assert_eq!(tmdb_details_path(&resolved(MediaType::Movie, None, None)).unwrap(), "/movie/1396");
    assert_eq!(tmdb_details_path(&resolved(MediaType::Episode, None, Some(ep()))).unwrap(), "/tv/1396/season/2/episode/5");
    assert!(tmdb_details_path(&resolved(MediaType::Episode, None, None)).is_none());
    assert_eq!(mdblist_kind(&MediaType::Tv).unwrap(), "show");
    assert!(mdblist_kind(&MediaType::Episode).is_err());
    assert_eq!(mdblist_url("movie", "tt1"), "https://api.mdblist.com/imdb/movie/tt1");
    assert_eq!(trakt_ratings_url(true, "tt1"), "https://api.trakt.tv/movies/tt1/ratings");
    assert_eq!(trakt_episode_url("tt2", 1, 3), "https://api.trakt.tv/shows/tt2/seasons/1/episodes/3/ratings");
    assert_eq!(show_external_ids_path(9), "/tv/9/external_ids");
}

#[test]
fn ratings_cache_keys() {
    assert_eq!(ratings_cache_key(&resolved(MediaType::Movie, None, None)).unwrap(), "1396/movie");
    assert_eq!(ratings_cache_key(&resolved(MediaType::Tv, None, None)).unwrap(), "1396/tv");
    assert_eq!(ratings_cache_key(&resolved(MediaType::Episode, None, Some(ep()))).unwrap(), "1396/episode/S2E5");
    let e = ratings_cache_key(&resolved(MediaType::Episode, None, None)).unwrap_err();
    assert_eq!(e.to_display_string(), "episode media type but no EpisodeInfo for tmdb_id=1396");
}

#[test]
fn trakt_lookups() {
    assert!(matches!(trakt_lookup(&resolved(MediaType::Movie, Some("tt1"), None)), Some(TraktLookup::Movie(s)) if s == "tt1"));
    assert!(matches!(trakt_lookup(&resolved(MediaType::Tv, Some("tt2"), None)), Some(TraktLookup::Show(s)) if s == "tt2"));
    assert!(trakt_lookup(&resolved(MediaType::Tv, None, None)).is_none());
    assert!(matches!(
        trakt_lookup(&resolved(MediaType::Episode, None, Some(ep()))),
        Some(TraktLookup::Episode { show_tmdb_id: 1396, season: 2, episode: 5 })
    ));
}

#[test]
fn mdblist_entries() {
    assert!(matches!(mdblist_entry("imdb"), Some((RatingSource::Imdb, MdblistField::Value))));
    assert!(matches!(mdblist_entry("popcorn"), Some((RatingSource::RtAudience, MdblistField::Score))));
    assert!(matches!(mdblist_entry("myanimelist"), Some((RatingSource::Mal, MdblistField::Score))));
    assert!(mdblist_entry("rogerebert").is_none());
}

#[test]
fn omdb_answer_badges() {
    let resp = OmdbRatings {
        imdb_rating: Some("8.1".into()),
        ratings: vec![
            OmdbRating { source: "Internet Movie Database".into(), value: "8.1/10".into() },
            OmdbRating { source: "Rotten Tomatoes".into(), value: "91%".into() },
            OmdbRating { source: "Rotten Tomatoes".into(), value: "N/A".into() },
        ],
        metascore: Some("N/A".into()),
    };
    let b = omdb_badges(&resp);
    assert_eq!(b.len(), 2);
    assert_eq!((b[0].source, b[0].value.as_str()), (RatingSource::Imdb, "8.1"));
    assert_eq!((b[1].source, b[1].value.as_str()), (RatingSource::Rt, "91%"));
}

#[test]
fn merge_prefers_mdblist_and_keeps_display_order() {
    let badge = |s: RatingSource, v: &str| RatingBadge { source: s, value: v.into() };
    let tmdb = Some(badge(RatingSource::Tmdb, "75%"));
    let omdb = Some(vec![badge(RatingSource::Imdb, "8.0"), badge(RatingSource::Metacritic, "70")]);
    let mdb = Some((vec![badge(RatingSource::Imdb, "8.1"), badge(RatingSource::Mal, "8.50")], Some(1), None, Some("tt1".to_string())));
    let trakt = Some(badge(RatingSource::Trakt, "80%"));
    let r = merge_ratings(tmdb, omdb, mdb, trakt);
    let got: Vec<(RatingSource, &str)> = r.badges.iter().map(|b| (b.source, b.value.as_str())).collect();
    assert_eq!(
        got,
        vec![
            (RatingSource::Imdb, "8.1"),
            (RatingSource::Tmdb, "75%"),
            (RatingSource::Metacritic, "70"),
            (RatingSource::Trakt, "80%"),
            (RatingSource::Mal, "8.50"),
        ]
    );
    assert_eq!((r.tmdb_id, r.tvdb_id, r.imdb_id.as_deref()), (Some(1), None, Some("tt1")));
}

#[test]
fn admin_helpers() {
    assert_eq!(default_page(), 1);
    assert_eq!(default_page_size(), 50);
    assert_eq!(page_window(&ListImagesQuery { page: 0, page_size: 500 }), (1, 100));
    assert_eq!(page_window(&ListImagesQuery { page: 3, page_size: 0 }), (3, 1));
    assert_eq!(bytes_to_mb(3 * 1024 * 1024 + 5), 3);
    assert_eq!(cache_file_base("tt123:logo:fanart"), "tt123_logo_fanart");
    assert_eq!(image_not_found("imdb", "tt1"), "Image not found: imdb/tt1");
}

#[test]
fn rt_icon_thresholds() {
    assert_eq!(rt_tier(percent_whole("75%").unwrap_or(0)), RtTier::Top);
    assert_eq!(rt_tier(percent_whole("60%").unwrap_or(0)), RtTier::Positive);
    assert_eq!(rt_tier(percent_whole("59%").unwrap_or(0)), RtTier::Negative);
    assert_eq!(rt_tier(percent_whole("N/A").unwrap_or(0)), RtTier::Negative);
}

#[test]
fn percent_texts() {
    assert_eq!(percent_text("95%%"), "95");
    assert_eq!(percent_text("%5"), "%5");
    assert_eq!(percent_whole("95%"), Some(95));
    assert_eq!(percent_whole("72"), Some(72));
    assert_eq!(percent_whole(""), None);
    assert_eq!(percent_whole("N/A"), None);
    assert_eq!(percent_whole("8.0"), None);
}

#[test]
fn flags_for_languages() {
    assert_eq!(flag_country_for_lang("en"), Some("gb"));
    assert_eq!(flag_country_for_lang("pt-BR"), Some("pt"));
    assert_eq!(flag_country_for_lang("zh_Hans"), Some("cn"));
    assert_eq!(flag_country_for_lang("NB"), Some("no"));
    assert_eq!(flag_country_for_lang("xx"), None);
}

#[test]
fn flag_ignores_region_and_case() {
    assert_eq!(flag_country_for_lang("EN-us"), Some("gb"));
    assert_eq!(flag_country_for_lang("en_GB"), flag_country_for_lang("en"));
    assert_eq!(flag_country_for_lang("PT-br"), Some("pt"));
}
