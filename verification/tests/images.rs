use openposterdb_api::images::{include_image_language, images_path, select_image as select_image_idx, select_poster as select_poster_idx, TmdbImage};

/// Orders as `f64::total_cmp` does (negative zero counted as zero).
fn vote_key(v: f64) -> u64 {
    let b = (v + 0.0).to_bits();
    if b >> 63 == 1 {
        !b
    } else {
        b | (1 << 63)
    }
}

fn near_poster_ratio(aspect_ratio: f64) -> bool {
    aspect_ratio > 0.0 && (aspect_ratio - 2.0 / 3.0).abs() <= 0.05
}

/// The base language and region of a language tag such as `pt-BR`.
fn lang_parts(lang: &str) -> (&str, Option<&str>) {
    match lang.find(['-', '_']) {
        Some(i) => (&lang[..i], Some(&lang[i + 1..]).filter(|r| !r.is_empty())),
        None => (lang, None),
    }
}

fn img(path: &str, lang: Option<&str>, vote: f64) -> TmdbImage {
    img_ar(path, lang, vote, 2.0 / 3.0)
}

fn img_ar(path: &str, lang: Option<&str>, vote: f64, aspect_ratio: f64) -> TmdbImage {
    TmdbImage {
        file_path: path.to_string(),
        iso_639_1: lang.map(|s| s.to_string()),
        iso_3166_1: None,
        vote_key: vote_key(vote),
        near_poster_ratio: near_poster_ratio(aspect_ratio),
    }
}

fn img_regional(path: &str, lang: &str, region: &str, vote: f64) -> TmdbImage {
    TmdbImage {
        file_path: path.to_string(),
        iso_639_1: Some(lang.to_string()),
        iso_3166_1: Some(region.to_string()),
        vote_key: vote_key(vote),
        near_poster_ratio: near_poster_ratio(2.0 / 3.0),
    }
}

fn select_image<'a>(images: &'a Vec<TmdbImage>, lang: &str, textless: bool) -> Option<&'a TmdbImage> {
    let (base, region) = lang_parts(lang);
    select_image_idx(images, lang, base, region, textless).map(|i| &images[i])
}

fn select_poster<'a>(images: &'a Vec<TmdbImage>, lang: &str, textless: bool) -> Option<&'a TmdbImage> {
    let (base, region) = lang_parts(lang);
    select_poster_idx(images, lang, base, region, textless).map(|i| &images[i])
}

#[test]
fn select_image_empty_list() {
    assert!(select_image(&vec![], "en", false).is_none());
    assert!(select_image(&vec![], "en", true).is_none());
}

#[test]
fn select_image_exact_lang_match() {
    let images = vec![img("/en.jpg", Some("en"), 7.0), img("/de.jpg", Some("de"), 8.0)];
    let selected = select_image(&images, "de", false).unwrap();
    assert_eq!(selected.file_path, "/de.jpg");
}

#[test]
fn select_image_falls_back_to_english() {
    let images = vec![img("/en.jpg", Some("en"), 6.0), img("/null.jpg", None, 9.0)];
    // Requesting French, no French available → should fall back to English
    let selected = select_image(&images, "fr", false).unwrap();
    assert_eq!(selected.file_path, "/en.jpg");
}

#[test]
fn select_image_no_match_returns_none() {
    // Only textless (null-lang) images — should NOT be returned when textless=false
    let images = vec![img("/null.jpg", None, 9.0)];
    assert!(select_image(&images, "de", false).is_none());
}

#[test]
fn select_image_english_request_no_english_returns_none() {
    // Requesting English, only null-lang available
    let images = vec![img("/null.jpg", None, 9.0)];
    assert!(select_image(&images, "en", false).is_none());
}

#[test]
fn select_image_textless_returns_null_lang() {
    let images = vec![img("/en.jpg", Some("en"), 9.0), img("/null.jpg", None, 5.0)];
    let selected = select_image(&images, "en", true).unwrap();
    assert_eq!(selected.file_path, "/null.jpg");
}

#[test]
fn select_image_textless_no_null_lang() {
    let images = vec![img("/en.jpg", Some("en"), 9.0)];
    assert!(select_image(&images, "en", true).is_none());
}

#[test]
fn select_image_picks_highest_vote() {
    let images = vec![
        img("/en_low.jpg", Some("en"), 3.0),
        img("/en_high.jpg", Some("en"), 8.0),
        img("/en_mid.jpg", Some("en"), 5.0),
    ];
    let selected = select_image(&images, "en", false).unwrap();
    assert_eq!(selected.file_path, "/en_high.jpg");
}

#[test]
fn select_image_empty_lang_returns_null_lang() {
    // Backdrops use empty lang — should return null-language images
    let images = vec![img("/en.jpg", Some("en"), 9.0), img("/null.jpg", None, 5.0)];
    let selected = select_image(&images, "", false).unwrap();
    assert_eq!(selected.file_path, "/null.jpg");
}

#[test]
fn select_image_empty_lang_no_null_returns_none() {
    let images = vec![img("/en.jpg", Some("en"), 9.0)];
    assert!(select_image(&images, "", false).is_none());
}

#[test]
fn select_image_regional_exact_match() {
    let images = vec![
        img_regional("/pt_br.jpg", "pt", "BR", 5.0),
        img_regional("/pt_pt.jpg", "pt", "PT", 7.0),
    ];
    let selected = select_image(&images, "pt-BR", false).unwrap();
    assert_eq!(selected.file_path, "/pt_br.jpg");
}

#[test]
fn select_image_regional_falls_back_to_base_lang() {
    // No BR-specific image, but a PT one exists — should match via base "pt"
    let images = vec![img_regional("/pt_pt.jpg", "pt", "PT", 7.0)];
    let selected = select_image(&images, "pt-BR", false).unwrap();
    assert_eq!(selected.file_path, "/pt_pt.jpg");
}

#[test]
fn select_image_regional_falls_back_to_english() {
    // No Portuguese images at all — should fall back to English
    let images = vec![img("/en.jpg", Some("en"), 6.0)];
    let selected = select_image(&images, "pt-BR", false).unwrap();
    assert_eq!(selected.file_path, "/en.jpg");
}

#[test]
fn select_image_base_lang_gets_both_regions() {
    // Requesting "pt" (no region) — should pick highest-voted regardless of region
    let images = vec![
        img_regional("/pt_br.jpg", "pt", "BR", 5.0),
        img_regional("/pt_pt.jpg", "pt", "PT", 7.0),
    ];
    let selected = select_image(&images, "pt", false).unwrap();
    assert_eq!(selected.file_path, "/pt_pt.jpg");
}

#[test]
fn select_image_english_regional_skips_redundant_fallback() {
    // Requesting "en-US" — should match iso_639_1="en" directly
    let images = vec![img("/en.jpg", Some("en"), 7.0), img("/de.jpg", Some("de"), 9.0)];
    let selected = select_image(&images, "en-US", false).unwrap();
    assert_eq!(selected.file_path, "/en.jpg");
}

#[test]
fn select_image_english_regional_exact_match() {
    // Requesting "en-GB" — should prefer iso_3166_1="GB" over generic English
    let images = vec![img("/en.jpg", Some("en"), 9.0), img_regional("/en_gb.jpg", "en", "GB", 5.0)];
    let selected = select_image(&images, "en-GB", false).unwrap();
    assert_eq!(selected.file_path, "/en_gb.jpg");
}

#[test]
fn select_poster_prefers_standard_ratio_over_higher_vote() {
    // A square poster with a higher vote should lose to a true 2:3 poster.
    let images = vec![
        img_ar("/square.jpg", Some("en"), 9.0, 1.0),
        img_ar("/poster.jpg", Some("en"), 6.0, 2.0 / 3.0),
    ];
    let selected = select_poster(&images, "en", false).unwrap();
    assert_eq!(selected.file_path, "/poster.jpg");
}

#[test]
fn select_poster_prefers_highest_vote_among_standard_ratio() {
    let images = vec![
        img_ar("/p_low.jpg", Some("en"), 5.0, 2.0 / 3.0),
        img_ar("/p_high.jpg", Some("en"), 8.0, 0.675), // within tolerance of 2:3
        img_ar("/square.jpg", Some("en"), 9.5, 1.0),
    ];
    let selected = select_poster(&images, "en", false).unwrap();
    assert_eq!(selected.file_path, "/p_high.jpg");
}

#[test]
fn select_poster_falls_back_to_vote_when_no_standard_ratio() {
    let images = vec![
        img_ar("/square_low.jpg", Some("en"), 3.0, 1.0),
        img_ar("/square_high.jpg", Some("en"), 8.0, 1.0),
    ];
    let selected = select_poster(&images, "en", false).unwrap();
    assert_eq!(selected.file_path, "/square_high.jpg");
}

#[test]
fn select_image_ignores_aspect_ratio() {
    // The generic selector (logos/backdrops) stays vote-only regardless of ratio.
    let images = vec![
        img_ar("/wide_high.jpg", Some("en"), 9.0, 1.78),
        img_ar("/poster_low.jpg", Some("en"), 4.0, 2.0 / 3.0),
    ];
    let selected = select_image(&images, "en", false).unwrap();
    assert_eq!(selected.file_path, "/wide_high.jpg");
}

// --- own tests ---

#[test]
fn equal_votes_pick_the_last_image() {
    let images = vec![img("/first.jpg", Some("en"), 7.0), img("/second.jpg", Some("en"), 7.0)];
    assert_eq!(select_image(&images, "en", false).unwrap().file_path, "/second.jpg");
}

#[test]
fn image_list_request() {
    assert_eq!(images_path("movie", 278), "/movie/278/images");
    assert_eq!(include_image_language("pt"), "pt,null");
    assert_eq!(include_image_language(""), "null");
}
