use openposterdb_api::error::AppError;
use openposterdb_api::id::{id_cache_key, IdType, MediaType, ResolvedId, EpisodeInfo};
use openposterdb_api::resolve::{
    episode_path, find_path, needs_series_poster, not_found, pick_imdb_find, pick_tvdb_find, resolve_plan,
    resolved_episode, resolved_from_details, resolved_from_find, resolved_from_tvdb, series_from_find, show_path,
    title_details_path, EpisodeDetails, EpisodeFindEntry, ExternalIds, ExternalSource, FindEntry, FindPick,
    FindResult, ResolvePlan, TitleDetails,
};

fn entry(id: u64, popularity_key: u64) -> FindEntry {
    FindEntry {
        id,
        poster_path: Some(format!("/p{id}.jpg")),
        release_date: Some("2001-01-01".into()),
        first_air_date: Some("2002-02-02".into()),
        popularity_key,
    }
}

fn find(movies: Vec<FindEntry>, tvs: Vec<FindEntry>, episodes: Vec<EpisodeFindEntry>) -> FindResult {
    FindResult { movie_results: movies, tv_results: tvs, tv_episode_results: episodes }
}

#[test]
fn plans_by_id_type() {
    match resolve_plan(IdType::Imdb, "tt0111161").unwrap() {
        ResolvePlan::Find { source, external_id } => {
            assert_eq!(source, ExternalSource::Imdb);
            assert_eq!(external_id, "tt0111161");
        }
        other => panic!("unexpected plan {other:?}"),
    }
    match resolve_plan(IdType::Tvdb, "episode-81189-S3E5").unwrap() {
        ResolvePlan::FindSeries { source, series_id, season, episode } => {
            assert_eq!(source, ExternalSource::Tvdb);
            assert_eq!((series_id.as_str(), season, episode), ("81189", 3, 5));
        }
        other => panic!("unexpected plan {other:?}"),
    }
    assert!(matches!(
        resolve_plan(IdType::Tmdb, "series-1396").unwrap(),
        ResolvePlan::Details { media_type: MediaType::Tv, tmdb_id: 1396 }
    ));
    assert!(matches!(
        resolve_plan(IdType::Tmdb, "episode-1396-s2e3").unwrap(),
        ResolvePlan::Episode { show_tmdb_id: 1396, season: 2, episode: 3 }
    ));
    assert!(matches!(resolve_plan(IdType::Tmdb, "1396"), Err(AppError::InvalidIdType(_))));
    assert!(matches!(resolve_plan(IdType::Imdb, "episode-tt1-S1"), Err(AppError::InvalidIdType(_))));
}

#[test]
fn request_paths() {
    assert_eq!(find_path("tt0111161"), "/find/tt0111161");
    assert_eq!(title_details_path(MediaType::Movie, 278).unwrap(), "/movie/278");
    assert_eq!(title_details_path(MediaType::Tv, 1396).unwrap(), "/tv/1396?append_to_response=external_ids");
    assert!(matches!(title_details_path(MediaType::Episode, 1), Err(AppError::Other(_))));
    assert_eq!(show_path(1396), "/tv/1396");
    assert_eq!(episode_path(1396, 1, 2), "/tv/1396/season/1/episode/2");
    assert_eq!(ExternalSource::Tvdb.as_str(), "tvdb_id");
    assert_eq!(id_cache_key(IdType::Imdb, "tt1"), "imdb/tt1");
}

#[test]
fn imdb_pick_prefers_episodes_then_popularity() {
    let ep = EpisodeFindEntry { show_id: 1, season_number: 1, episode_number: 1, still_path: None };
    assert_eq!(pick_imdb_find(&find(vec![entry(1, 5)], vec![], vec![ep])), FindPick::Episode(0));
    assert_eq!(pick_imdb_find(&find(vec![entry(1, 5), entry(2, 9)], vec![entry(3, 7)], vec![])), FindPick::Movie(1));
    assert_eq!(pick_imdb_find(&find(vec![entry(1, 5)], vec![entry(3, 7), entry(4, 2)], vec![])), FindPick::Tv(0));
    // A tie goes to the movie; equally popular entries go to the last one.
    assert_eq!(pick_imdb_find(&find(vec![entry(1, 7), entry(2, 7)], vec![entry(3, 7)], vec![])), FindPick::Movie(1));
    assert_eq!(pick_imdb_find(&find(vec![], vec![], vec![])), FindPick::NotFound);
}

#[test]
fn tvdb_pick_takes_first_of_each_kind() {
    assert_eq!(pick_tvdb_find(&find(vec![entry(1, 9)], vec![entry(2, 1)], vec![])), FindPick::Tv(0));
    assert_eq!(pick_tvdb_find(&find(vec![entry(1, 9)], vec![], vec![])), FindPick::Movie(0));
    assert_eq!(pick_tvdb_find(&find(vec![], vec![], vec![])), FindPick::NotFound);
}

#[test]
fn errors_for_unknown_ids() {
    assert_eq!(not_found(ExternalSource::Imdb, "tt9").to_display_string(), "id not found: tt9 (not found on TMDB)");
    assert_eq!(
        not_found(ExternalSource::Tvdb, "42").to_display_string(),
        "id not found: 42 (not found on TMDB via TVDB lookup)"
    );
    let e = series_from_find(&find(vec![], vec![], vec![]), ExternalSource::Imdb, "tt5").unwrap_err();
    assert_eq!(e.response_message(), "tt5 (not found as a TV series on TMDB)");
    assert_eq!(series_from_find(&find(vec![], vec![entry(7, 0), entry(8, 9)], vec![]), ExternalSource::Tvdb, "1").unwrap(), 7);
}

#[test]
fn resolved_titles() {
    let r = resolved_from_find("tt1", &entry(5, 0), false);
    assert_eq!(r.imdb_id.as_deref(), Some("tt1"));
    assert_eq!(r.tmdb_id, 5);
    assert_eq!(r.media_type, MediaType::Tv);
    assert_eq!(r.release_date.as_deref(), Some("2002-02-02"));

    let details = TitleDetails {
        imdb_id: None,
        poster_path: Some("/x.jpg".into()),
        release_date: Some("r".into()),
        first_air_date: Some("f".into()),
        external_ids: Some(ExternalIds { imdb_id: Some("tt2".into()), tvdb_id: Some(99) }),
    };
    let r: ResolvedId = resolved_from_details(MediaType::Tv, 1396, details).unwrap();
    assert_eq!((r.imdb_id.as_deref(), r.tvdb_id, r.release_date.as_deref()), (Some("tt2"), Some(99), Some("f")));

    let details = TitleDetails {
        imdb_id: Some("tt3".into()),
        poster_path: None,
        release_date: Some("r".into()),
        first_air_date: None,
        external_ids: None,
    };
    let r = resolved_from_tvdb("123", &entry(6, 0), true, details);
    assert_eq!((r.imdb_id.as_deref(), r.tvdb_id, r.media_type), (Some("tt3"), Some(123), MediaType::Movie));
    assert_eq!(r.poster_path.as_deref(), Some("/p6.jpg"));
}

#[test]
fn resolved_episodes_use_the_still_or_the_series_poster() {
    let details = EpisodeDetails {
        still_path: None,
        air_date: Some("2010-05-05".into()),
        external_ids: Some(ExternalIds { imdb_id: Some("tt7".into()), tvdb_id: Some(3) }),
    };
    assert!(needs_series_poster(&None, &details));
    let r = resolved_episode(1396, 2, 3, None, None, details, Some("/series.jpg".into()));
    assert_eq!(r.poster_path.as_deref(), Some("/series.jpg"));
    assert_eq!(r.imdb_id.as_deref(), Some("tt7"));
    let ep: EpisodeInfo = r.episode.unwrap();
    assert_eq!((ep.show_tmdb_id, ep.season_number, ep.episode_number), (1396, 2, 3));
    assert!(ep.still_path.is_none());

    let details = EpisodeDetails { still_path: Some("/own.jpg".into()), air_date: None, external_ids: None };
    assert!(!needs_series_poster(&Some("/hint.jpg".into()), &details));
    let r = resolved_episode(1, 1, 1, Some("/hint.jpg".into()), Some("tt8".into()), details, None);
    assert_eq!(r.poster_path.as_deref(), Some("/hint.jpg"));
    assert_eq!(r.imdb_id.as_deref(), Some("tt8"));
    assert_eq!(r.tvdb_id, None);
}
