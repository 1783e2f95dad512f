use openposterdb_api::id::{
    format_tmdb_id_value, parse_episode_external, parse_episode_id, parse_tmdb_id_value, EpisodeInfo, IdType,
    MediaType, TmdbTarget,
};

#[test]
fn parse_imdb() {
    assert_eq!(IdType::parse("imdb").unwrap(), IdType::Imdb);
}

#[test]
fn parse_tmdb() {
    assert_eq!(IdType::parse("tmdb").unwrap(), IdType::Tmdb);
}

#[test]
fn parse_tvdb() {
    assert_eq!(IdType::parse("tvdb").unwrap(), IdType::Tvdb);
}

#[test]
fn parse_invalid_id_type() {
    assert!(IdType::parse("invalid").is_err());
}

#[test]
fn parse_empty_string() {
    assert!(IdType::parse("").is_err());
}

#[test]
fn parse_case_sensitive() {
    // Should not accept uppercase
    assert!(IdType::parse("IMDB").is_err());
    assert!(IdType::parse("Tmdb").is_err());
}

#[test]
fn format_tmdb_id_value_movie() {
    assert_eq!(format_tmdb_id_value(278, &MediaType::Movie, None), "movie-278");
}

#[test]
fn format_tmdb_id_value_tv() {
    assert_eq!(format_tmdb_id_value(1396, &MediaType::Tv, None), "series-1396");
}

#[test]
fn format_tmdb_id_value_episode() {
    let ep = EpisodeInfo {
        show_tmdb_id: 1396,
        season_number: 1,
        episode_number: 1,
        still_path: None,
    };
    assert_eq!(
        format_tmdb_id_value(1396, &MediaType::Episode, Some(&ep)),
        "episode-1396-S1E1"
    );
}

#[test]
fn format_tmdb_id_value_episode_large_numbers() {
    let ep = EpisodeInfo {
        show_tmdb_id: 456,
        season_number: 12,
        episode_number: 24,
        still_path: Some("/still.jpg".into()),
    };
    assert_eq!(
        format_tmdb_id_value(456, &MediaType::Episode, Some(&ep)),
        "episode-456-S12E24"
    );
}

#[test]
fn format_tmdb_id_value_episode_none_falls_back() {
    // Episode with missing EpisodeInfo should not panic, falls back to series format
    assert_eq!(
        format_tmdb_id_value(1396, &MediaType::Episode, None),
        "series-1396"
    );
}

// --- parse_episode_id ---

#[test]
fn parse_episode_id_valid() {
    let (show, season, ep) = parse_episode_id("1396-S1E1", "episode-1396-S1E1").unwrap();
    assert_eq!(show, 1396);
    assert_eq!(season, 1);
    assert_eq!(ep, 1);
}

#[test]
fn parse_episode_id_multi_digit() {
    let (show, season, ep) = parse_episode_id("456-S12E24", "episode-456-S12E24").unwrap();
    assert_eq!(show, 456);
    assert_eq!(season, 12);
    assert_eq!(ep, 24);
}

#[test]
fn parse_episode_id_missing_season() {
    assert!(parse_episode_id("1396", "episode-1396").is_err());
}

#[test]
fn parse_episode_id_missing_episode() {
    assert!(parse_episode_id("1396-S1", "episode-1396-S1").is_err());
}

#[test]
fn parse_episode_id_non_numeric_show() {
    assert!(parse_episode_id("abc-S1E1", "episode-abc-S1E1").is_err());
}

#[test]
fn parse_episode_id_non_numeric_season() {
    assert!(parse_episode_id("1396-SaE1", "episode-1396-SaE1").is_err());
}

#[test]
fn parse_episode_id_non_numeric_episode() {
    assert!(parse_episode_id("1396-S1Eb", "episode-1396-S1Eb").is_err());
}

#[test]
fn parse_episode_id_lowercase() {
    let (show, season, ep) = parse_episode_id("1396-s1e1", "episode-1396-s1e1").unwrap();
    assert_eq!(show, 1396);
    assert_eq!(season, 1);
    assert_eq!(ep, 1);
}

#[test]
fn parse_episode_id_mixed_case() {
    let (show, season, ep) = parse_episode_id("456-s12E24", "episode-456-s12E24").unwrap();
    assert_eq!(show, 456);
    assert_eq!(season, 12);
    assert_eq!(ep, 24);
}

// --- parse_episode_external ---

#[test]
fn parse_episode_external_imdb() {
    let (id, season, ep) =
        parse_episode_external("tt14786934-S1E1", "episode-tt14786934-S1E1").unwrap();
    assert_eq!(id, "tt14786934");
    assert_eq!(season, 1);
    assert_eq!(ep, 1);
}

#[test]
fn parse_episode_external_tvdb_numeric() {
    let (id, season, ep) = parse_episode_external("81189-S3E5", "episode-81189-S3E5").unwrap();
    assert_eq!(id, "81189");
    assert_eq!(season, 3);
    assert_eq!(ep, 5);
}

#[test]
fn parse_episode_external_lowercase() {
    let (id, season, ep) =
        parse_episode_external("tt14786934-s2e10", "episode-tt14786934-s2e10").unwrap();
    assert_eq!(id, "tt14786934");
    assert_eq!(season, 2);
    assert_eq!(ep, 10);
}

#[test]
fn parse_episode_external_missing_season() {
    assert!(parse_episode_external("tt14786934", "episode-tt14786934").is_err());
}

#[test]
fn parse_episode_external_missing_episode() {
    assert!(parse_episode_external("tt14786934-S1", "episode-tt14786934-S1").is_err());
}

#[test]
fn parse_episode_external_zero_values() {
    let (id, season, ep) =
        parse_episode_external("tt14786934-S0E0", "episode-tt14786934-S0E0").unwrap();
    assert_eq!(id, "tt14786934");
    assert_eq!(season, 0);
    assert_eq!(ep, 0);
}

#[test]
fn parse_episode_external_at_boundary() {
    let (id, season, ep) =
        parse_episode_external("81189-S10000E100000", "episode-81189-S10000E100000").unwrap();
    assert_eq!(id, "81189");
    assert_eq!(season, 10_000);
    assert_eq!(ep, 100_000);
}

#[test]
fn parse_episode_external_over_boundary() {
    assert!(parse_episode_external("81189-S10001E1", "episode-81189-S10001E1").is_err());
    assert!(parse_episode_external("81189-S1E100001", "episode-81189-S1E100001").is_err());
}

#[test]
fn parse_episode_external_empty_id() {
    assert!(parse_episode_external("-S1E1", "episode--S1E1").is_err());
}

#[test]
fn parse_episode_id_rejects_imdb_style_id() {
    assert!(parse_episode_id("tt1234-S1E1", "episode-tt1234-S1E1").is_err());
}

// --- own tests ---

#[test]
fn id_type_name_roundtrip() {
    for t in [IdType::Imdb, IdType::Tmdb, IdType::Tvdb] {
        assert_eq!(IdType::parse(t.as_str()).unwrap(), t);
    }
}

#[test]
fn tmdb_id_value_reads_back() {
    let ep = EpisodeInfo { show_tmdb_id: 1396, season_number: 5, episode_number: 14, still_path: None };
    let v = format_tmdb_id_value(1396, &MediaType::Episode, Some(&ep));
    assert_eq!(
        parse_tmdb_id_value(&v).unwrap(),
        TmdbTarget::Episode { show_tmdb_id: 1396, season: 5, episode: 14 }
    );
    assert_eq!(parse_tmdb_id_value(&format_tmdb_id_value(278, &MediaType::Movie, None)).unwrap(), TmdbTarget::Movie(278));
    assert_eq!(parse_tmdb_id_value(&format_tmdb_id_value(1396, &MediaType::Tv, None)).unwrap(), TmdbTarget::Tv(1396));
}

#[test]
fn tmdb_id_value_errors() {
    let e = parse_tmdb_id_value("tt123").unwrap_err();
    assert_eq!(
        e.to_display_string(),
        "invalid id type: tmdb id must be prefixed with movie-, series-, or episode-: tt123"
    );
    assert!(parse_tmdb_id_value("movie-abc").is_err());
    assert!(parse_tmdb_id_value("movie-+12").is_ok());
    assert!(parse_tmdb_id_value("episode-12-S10001E1").is_err());
}

#[test]
fn episode_range_error_is_bad_request() {
    let e = parse_episode_external("81189-S10001E1", "episode-81189-S10001E1").unwrap_err();
    assert_eq!(e.status_code(), 400);
    assert_eq!(
        e.response_message(),
        "season must be ≤ 10 000 and episode must be ≤ 100 000"
    );
}
