use openposterdb_api::ratings::{
    apply_rating_preferences, available_sources_string, badges_cache_suffix, badges_suffix_from_available,
    ratings_cache_suffix, RatingBadge, RatingSource,
};

#[test]
fn rating_source_labels() {
    assert_eq!(RatingSource::Imdb.label(), "IMDb");
    assert_eq!(RatingSource::Tmdb.label(), "TMDB");
    assert_eq!(RatingSource::Rt.label(), "RTC");
    assert_eq!(RatingSource::RtAudience.label(), "RTA");
    assert_eq!(RatingSource::Metacritic.label(), "MC");
    assert_eq!(RatingSource::Trakt.label(), "Trakt");
    assert_eq!(RatingSource::Letterboxd.label(), "LB");
    assert_eq!(RatingSource::Mal.label(), "MAL");
}

#[test]
fn rating_source_colors_unique_per_source() {
    assert_eq!(RatingSource::Imdb.color(), [180, 145, 15, 255]);
    assert_eq!(RatingSource::Tmdb.color(), [1, 155, 88, 255]);
    assert_eq!(RatingSource::Rt.color(), [185, 35, 8, 255]);
    assert_eq!(RatingSource::Metacritic.color(), [75, 150, 38, 255]);
    assert_eq!(RatingSource::Trakt.color(), [175, 15, 45, 255]);
    assert_eq!(RatingSource::Letterboxd.color(), [0, 155, 88, 255]);
    assert_eq!(RatingSource::Mal.color(), [34, 60, 120, 255]);
}

#[test]
fn rating_source_key_roundtrip() {
    let sources = [
        RatingSource::Imdb,
        RatingSource::Tmdb,
        RatingSource::Rt,
        RatingSource::RtAudience,
        RatingSource::Metacritic,
        RatingSource::Trakt,
        RatingSource::Letterboxd,
        RatingSource::Mal,
    ];
    for src in sources {
        assert_eq!(RatingSource::from_key(src.key()), Some(src));
    }
}

#[test]
fn from_key_unknown_returns_none() {
    assert_eq!(RatingSource::from_key("unknown"), None);
}

#[test]
fn apply_rating_preferences_reorder() {
    let badges = vec![
        RatingBadge { source: RatingSource::Imdb, value: "8.0".into() },
        RatingBadge { source: RatingSource::Tmdb, value: "75%".into() },
        RatingBadge { source: RatingSource::Trakt, value: "80%".into() },
    ];
    let result = apply_rating_preferences(badges, "trakt,imdb", 8);
    assert_eq!(result[0].source, RatingSource::Trakt);
    assert_eq!(result[1].source, RatingSource::Imdb);
    assert_eq!(result[2].source, RatingSource::Tmdb);
}

#[test]
fn apply_rating_preferences_limit() {
    let badges = vec![
        RatingBadge { source: RatingSource::Imdb, value: "8.0".into() },
        RatingBadge { source: RatingSource::Tmdb, value: "75%".into() },
        RatingBadge { source: RatingSource::Trakt, value: "80%".into() },
    ];
    let result = apply_rating_preferences(badges, "", 2);
    assert_eq!(result.len(), 2);
    assert_eq!(result[0].source, RatingSource::Imdb);
    assert_eq!(result[1].source, RatingSource::Tmdb);
}

#[test]
fn apply_rating_preferences_reorder_and_limit() {
    let badges = vec![
        RatingBadge { source: RatingSource::Imdb, value: "8.0".into() },
        RatingBadge { source: RatingSource::Tmdb, value: "75%".into() },
        RatingBadge { source: RatingSource::Mal, value: "8.50".into() },
        RatingBadge { source: RatingSource::Trakt, value: "80%".into() },
    ];
    let result = apply_rating_preferences(badges, "mal,imdb,rta,trakt", 3);
    assert_eq!(result.len(), 3);
    assert_eq!(result[0].source, RatingSource::Mal);
    assert_eq!(result[1].source, RatingSource::Imdb);
    assert_eq!(result[2].source, RatingSource::Trakt);
}

#[test]
fn apply_rating_preferences_empty_order_zero_limit() {
    let badges = vec![
        RatingBadge { source: RatingSource::Imdb, value: "8.0".into() },
        RatingBadge { source: RatingSource::Tmdb, value: "75%".into() },
    ];
    let result = apply_rating_preferences(badges.clone(), "", 0);
    assert_eq!(result.len(), 0, "limit=0 should return no ratings");
}

#[test]
fn cache_char_unique_per_source() {
    let sources = [
        (RatingSource::Mal, 'm'),
        (RatingSource::Imdb, 'i'),
        (RatingSource::Letterboxd, 'l'),
        (RatingSource::Rt, 'r'),
        (RatingSource::RtAudience, 'a'),
        (RatingSource::Metacritic, 'c'),
        (RatingSource::Tmdb, 't'),
        (RatingSource::Trakt, 'k'),
    ];
    for (src, expected) in &sources {
        assert_eq!(src.cache_char(), *expected, "cache_char mismatch for {:?}", src);
    }
    // All chars must be unique
    let chars: Vec<char> = sources.iter().map(|(s, _)| s.cache_char()).collect();
    let mut deduped = chars.clone();
    deduped.sort();
    deduped.dedup();
    assert_eq!(chars.len(), deduped.len(), "cache_char values are not unique");
}

#[test]
fn ratings_cache_suffix_default_order_limit_3() {
    let suffix = ratings_cache_suffix("mal,imdb,lb,rt,rta,mc,tmdb,trakt", 3);
    assert_eq!(suffix, "@mil");
}

#[test]
fn ratings_cache_suffix_custom_order() {
    let suffix = ratings_cache_suffix("trakt,imdb,rt", 3);
    assert_eq!(suffix, "@kir");
}

#[test]
fn ratings_cache_suffix_partial_order_normalized() {
    // Only two sources specified — missing ones appended in canonical order
    let suffix = ratings_cache_suffix("imdb,rt", 8);
    assert_eq!(suffix, "@irmlactk");
}

#[test]
fn ratings_cache_suffix_limit_zero_shows_none() {
    let suffix = ratings_cache_suffix("mal,imdb,lb,rt,rta,mc,tmdb,trakt", 0);
    assert_eq!(suffix, "@");
}

#[test]
fn ratings_cache_suffix_empty_order() {
    let suffix = ratings_cache_suffix("", 3);
    assert_eq!(suffix, "@mil");
}

#[test]
fn ratings_cache_suffix_invalid_sources_ignored() {
    let suffix = ratings_cache_suffix("imdb,bogus,rt,fake", 3);
    assert_eq!(suffix, "@irm");
}

#[test]
fn badges_cache_suffix_from_actual_badges() {
    let badges = vec![
        RatingBadge { source: RatingSource::Imdb, value: "8.0".into() },
        RatingBadge { source: RatingSource::Letterboxd, value: "4.2".into() },
        RatingBadge { source: RatingSource::Rt, value: "95%".into() },
    ];
    assert_eq!(badges_cache_suffix(&badges), "@ilr");
}

#[test]
fn badges_cache_suffix_empty() {
    let badges: Vec<RatingBadge> = vec![];
    assert_eq!(badges_cache_suffix(&badges), "@");
}

#[test]
fn badges_cache_suffix_single() {
    let badges = vec![RatingBadge { source: RatingSource::Mal, value: "8.50".into() }];
    assert_eq!(badges_cache_suffix(&badges), "@m");
}

#[test]
fn from_cache_char_roundtrip() {
    for src in [
        RatingSource::Mal,
        RatingSource::Imdb,
        RatingSource::Letterboxd,
        RatingSource::Rt,
        RatingSource::RtAudience,
        RatingSource::Metacritic,
        RatingSource::Tmdb,
        RatingSource::Trakt,
    ] {
        assert_eq!(RatingSource::from_cache_char(src.cache_char()), Some(src));
    }
    assert_eq!(RatingSource::from_cache_char('z'), None);
}

#[test]
fn badges_suffix_from_available_matches_full_pipeline() {
    // Simulate: movie has imdb, rt, tmdb data. User orders "imdb,rt,tmdb" limit 3.
    let badges = vec![
        RatingBadge { source: RatingSource::Imdb, value: "8.0".into() },
        RatingBadge { source: RatingSource::Rt, value: "95%".into() },
        RatingBadge { source: RatingSource::Tmdb, value: "7.5".into() },
    ];
    let available = available_sources_string(&badges);
    assert_eq!(available, "irt");

    // Full pipeline: apply_rating_preferences then badges_cache_suffix
    let filtered = apply_rating_preferences(badges, "imdb,rt,tmdb", 3);
    let expected = badges_cache_suffix(&filtered);

    // Fast path: badges_suffix_from_available
    let actual = badges_suffix_from_available(&available, "imdb,rt,tmdb", 3);
    assert_eq!(actual, expected);
}

#[test]
fn badges_suffix_from_available_respects_limit() {
    let suffix = badges_suffix_from_available("irt", "imdb,rt,tmdb", 2);
    assert_eq!(suffix, "@ir");
}

#[test]
fn badges_suffix_from_available_respects_order() {
    let suffix = badges_suffix_from_available("irt", "tmdb,rt,imdb", 3);
    assert_eq!(suffix, "@tri");
}

#[test]
fn badges_suffix_from_available_empty() {
    assert_eq!(badges_suffix_from_available("", "imdb,rt", 3), "@");
}

#[test]
fn available_sources_string_canonical_order() {
    // Badges arriving in non-canonical order should be stored canonically
    let badges = vec![
        RatingBadge { source: RatingSource::Tmdb, value: "7.5".into() },
        RatingBadge { source: RatingSource::Imdb, value: "8.0".into() },
        RatingBadge { source: RatingSource::Rt, value: "95%".into() },
    ];
    // Canonical order is: mal, imdb, lb, rt, rta, mc, tmdb, trakt
    assert_eq!(available_sources_string(&badges), "irt");
}

#[test]
fn rt_and_rt_audience_share_color() {
    assert_eq!(RatingSource::Rt.color(), RatingSource::RtAudience.color());
}

#[test]
fn rating_source_equality() {
    assert_eq!(RatingSource::Imdb, RatingSource::Imdb);
    assert_ne!(RatingSource::Imdb, RatingSource::Tmdb);
}

// --- own tests ---

#[test]
fn all_keys_lists_every_source() {
    assert_eq!(
        RatingSource::all_keys(),
        vec!["imdb", "tmdb", "rt", "rta", "mc", "trakt", "lb", "mal"]
    );
}

#[test]
fn available_suffix_matches_drawn_badges_with_full_order() {
    // The cache-key law: with every source named in the order, the suffix
    // computed from the stored available sources equals the drawn badges'.
    let badges = vec![
        RatingBadge { source: RatingSource::Trakt, value: "80%".into() },
        RatingBadge { source: RatingSource::Mal, value: "8.50".into() },
        RatingBadge { source: RatingSource::Metacritic, value: "70".into() },
    ];
    let order = "mc,trakt,imdb,tmdb,rt,rta,lb,mal";
    let available = available_sources_string(&badges);
    let drawn = apply_rating_preferences(badges, order, 2);
    assert_eq!(badges_suffix_from_available(&available, order, 2), badges_cache_suffix(&drawn));
    assert_eq!(badges_cache_suffix(&drawn), "@ck");
}

#[test]
fn duplicate_keys_in_order_are_kept() {
    assert_eq!(ratings_cache_suffix("rt,rt,imdb", 3), "@rri");
}

fn rb(source: RatingSource, value: &str) -> RatingBadge {
    RatingBadge { source, value: value.to_string() }
}

#[test]
fn preferences_applied_twice_change_nothing() {
    let badges = vec![
        rb(RatingSource::Imdb, "7.5"),
        rb(RatingSource::Tmdb, "80%"),
        rb(RatingSource::Rt, "91%"),
        rb(RatingSource::Trakt, "75%"),
    ];
    let once = apply_rating_preferences(badges, "rt,trakt", 3);
    let twice = apply_rating_preferences(once.clone(), "rt,trakt", 3);
    let view = |bs: &Vec<RatingBadge>| bs.iter().map(|b| (b.source, b.value.clone())).collect::<Vec<_>>();
    assert_eq!(view(&once), view(&twice));
    assert_eq!(
        view(&once),
        vec![(RatingSource::Rt, "91%".to_string()), (RatingSource::Trakt, "75%".to_string()), (RatingSource::Imdb, "7.5".to_string())]
    );
}

#[test]
fn smaller_limit_suffix_is_a_prefix() {
    let full = ratings_cache_suffix("tmdb,imdb", 8);
    assert_eq!(full, "@timlrack");
    for l in 0..=8 {
        let s = ratings_cache_suffix("tmdb,imdb", l);
        assert!(full.starts_with(&s));
        assert_eq!(s.len(), 1 + l as usize);
    }
    assert_eq!(ratings_cache_suffix("tmdb,imdb", 0), "@");
}

#[test]
fn available_sources_are_distinct_and_canonical() {
    let badges = vec![
        rb(RatingSource::Trakt, "1"),
        rb(RatingSource::Imdb, "2"),
        rb(RatingSource::Trakt, "3"),
        rb(RatingSource::Mal, "4"),
    ];
    assert_eq!(available_sources_string(&badges), "mik");
}
