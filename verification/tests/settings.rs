use openposterdb_api::settings::{free_key_changed, settings_batch, UpdateGlobalSettingsRequest};

fn request(free: Option<bool>) -> UpdateGlobalSettingsRequest {
    let s = |v: &str| v.to_string();
    UpdateGlobalSettingsRequest {
        image_source: s("t"),
        lang: s("en"),
        textless: true,
        ratings_limit: 3,
        ratings_order: s("imdb,rt"),
        ratings_exclude: s(""),
        free_api_key_enabled: free,
        poster_position: s("bc"),
        logo_ratings_limit: -1,
        backdrop_ratings_limit: 5,
        poster_badge_style: s("h"),
        logo_badge_style: s("v"),
        backdrop_badge_style: s("v"),
        poster_label_style: s("i"),
        logo_label_style: s("t"),
        backdrop_label_style: s("o"),
        poster_badge_direction: s("h"),
        poster_badge_size: s("m"),
        logo_badge_size: s("s"),
        backdrop_badge_size: s("l"),
        backdrop_position: s("tr"),
        backdrop_badge_direction: s("v"),
        episode_ratings_limit: 2,
        episode_badge_style: s("h"),
        episode_label_style: s("i"),
        episode_badge_size: s("m"),
        episode_position: s("bl"),
        episode_badge_direction: s("h"),
        episode_blur: false,
        poster_badge_shape: s("r"),
        logo_badge_shape: s("p"),
        backdrop_badge_shape: s("r"),
        episode_badge_shape: s("p"),
        poster_badge_background: s("d"),
        logo_badge_background: s("k"),
        backdrop_badge_background: s("t"),
        episode_badge_background: s("n"),
    }
}

#[test]
fn batch_lists_every_setting_in_order() {
    let v = settings_batch(&request(None), false);
    assert_eq!(v.len(), 36);
    assert_eq!(v[0], ("image_source".to_string(), "t".to_string()));
    assert_eq!(v[2], ("textless".to_string(), "true".to_string()));
    assert_eq!(v[7], ("logo_ratings_limit".to_string(), "-1".to_string()));
    assert_eq!(v[27], ("episode_blur".to_string(), "false".to_string()));
    assert_eq!(v[35], ("episode_badge_background".to_string(), "n".to_string()));
}

#[test]
fn free_key_switch_only_when_not_locked() {
    let v = settings_batch(&request(Some(true)), false);
    assert_eq!(v.len(), 37);
    assert_eq!(v[36], ("free_api_key_enabled".to_string(), "true".to_string()));
    assert_eq!(settings_batch(&request(Some(true)), true).len(), 36);
    assert!(free_key_changed(&request(Some(false)), false));
    assert!(!free_key_changed(&request(Some(false)), true));
    assert!(!free_key_changed(&request(None), false));
}
