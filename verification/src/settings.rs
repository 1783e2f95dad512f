//! The global render settings as the admin API shows and updates them.
//! Enumerated settings (image source, positions, styles, sizes, directions,
//! shapes, backgrounds) are carried by their stored names.

use crate::text::{push_signed_decimal, signed_decimal};
use vstd::prelude::*;
use vstd::string::*;

verus! {

/// The global settings as the admin API returns them.
#[derive(Debug, Clone)]
pub struct GlobalSettingsResponse {
    pub image_source: String,
    pub lang: String,
    pub textless: bool,
    pub fanart_available: bool,
    pub ratings_limit: i32,
    pub ratings_order: String,
    pub ratings_exclude: String,
    pub free_api_key_enabled: bool,
    pub free_api_key_locked: bool,
    pub poster_position: String,
    pub logo_ratings_limit: i32,
    pub backdrop_ratings_limit: i32,
    pub poster_badge_style: String,
    pub logo_badge_style: String,
    pub backdrop_badge_style: String,
    pub poster_label_style: String,
    pub logo_label_style: String,
    pub backdrop_label_style: String,
    pub poster_badge_direction: String,
    pub poster_badge_size: String,
    pub logo_badge_size: String,
    pub backdrop_badge_size: String,
    pub backdrop_position: String,
    pub backdrop_badge_direction: String,
    pub episode_ratings_limit: i32,
    pub episode_badge_style: String,
    pub episode_label_style: String,
    pub episode_badge_size: String,
    pub episode_position: String,
    pub episode_badge_direction: String,
    pub episode_blur: bool,
    pub poster_badge_shape: String,
    pub logo_badge_shape: String,
    pub backdrop_badge_shape: String,
    pub episode_badge_shape: String,
    pub poster_badge_background: String,
    pub logo_badge_background: String,
    pub backdrop_badge_background: String,
    pub episode_badge_background: String,
}

/// A request to replace the global settings.
#[derive(Debug, Clone)]
pub struct UpdateGlobalSettingsRequest {
    pub image_source: String,
    pub lang: String,
    pub textless: bool,
    pub ratings_limit: i32,
    pub ratings_order: String,
    pub ratings_exclude: String,
    pub free_api_key_enabled: Option<bool>,
    pub poster_position: String,
    pub logo_ratings_limit: i32,
    pub backdrop_ratings_limit: i32,
    pub poster_badge_style: String,
    pub logo_badge_style: String,
    pub backdrop_badge_style: String,
    pub poster_label_style: String,
    pub logo_label_style: String,
    pub backdrop_label_style: String,
    pub poster_badge_direction: String,
    pub poster_badge_size: String,
    pub logo_badge_size: String,
    pub backdrop_badge_size: String,
    pub backdrop_position: String,
    pub backdrop_badge_direction: String,
    pub episode_ratings_limit: i32,
    pub episode_badge_style: String,
    pub episode_label_style: String,
    pub episode_badge_size: String,
    pub episode_position: String,
    pub episode_badge_direction: String,
    pub episode_blur: bool,
    pub poster_badge_shape: String,
    pub logo_badge_shape: String,
    pub backdrop_badge_shape: String,
    pub episode_badge_shape: String,
    pub poster_badge_background: String,
    pub logo_badge_background: String,
    pub backdrop_badge_background: String,
    pub episode_badge_background: String,
}

/// How a switch is stored.
pub open spec fn bool_text(b: bool) -> Seq<char> {
    if b {
        "true"@
    } else {
        "false"@
    }
}

/// The stored general and poster settings.
pub open spec fn batch_general(req: UpdateGlobalSettingsRequest) -> Seq<(Seq<char>, Seq<char>)> {
    seq![
        ("image_source"@, req.image_source@),
        ("lang"@, req.lang@),
        ("textless"@, bool_text(req.textless)),
        ("ratings_limit"@, signed_decimal(req.ratings_limit as int)),
        ("ratings_order"@, req.ratings_order@),
        ("ratings_exclude"@, req.ratings_exclude@),
        ("poster_position"@, req.poster_position@),
        ("logo_ratings_limit"@, signed_decimal(req.logo_ratings_limit as int)),
        ("backdrop_ratings_limit"@, signed_decimal(req.backdrop_ratings_limit as int)),
    ]
}

/// The stored badge styles, label styles, direction and sizes.
pub open spec fn batch_styles(req: UpdateGlobalSettingsRequest) -> Seq<(Seq<char>, Seq<char>)> {
    seq![
        ("poster_badge_style"@, req.poster_badge_style@),
        ("logo_badge_style"@, req.logo_badge_style@),
        ("backdrop_badge_style"@, req.backdrop_badge_style@),
        ("poster_label_style"@, req.poster_label_style@),
        ("logo_label_style"@, req.logo_label_style@),
        ("backdrop_label_style"@, req.backdrop_label_style@),
        ("poster_badge_direction"@, req.poster_badge_direction@),
        ("poster_badge_size"@, req.poster_badge_size@),
        ("logo_badge_size"@, req.logo_badge_size@),
    ]
}

/// The stored backdrop and episode settings.
pub open spec fn batch_episode(req: UpdateGlobalSettingsRequest) -> Seq<(Seq<char>, Seq<char>)> {
    seq![
        ("backdrop_badge_size"@, req.backdrop_badge_size@),
        ("backdrop_position"@, req.backdrop_position@),
        ("backdrop_badge_direction"@, req.backdrop_badge_direction@),
        ("episode_ratings_limit"@, signed_decimal(req.episode_ratings_limit as int)),
        ("episode_badge_style"@, req.episode_badge_style@),
        ("episode_label_style"@, req.episode_label_style@),
        ("episode_badge_size"@, req.episode_badge_size@),
        ("episode_position"@, req.episode_position@),
        ("episode_badge_direction"@, req.episode_badge_direction@),
    ]
}

/// The stored blur switch, shapes and backgrounds.
pub open spec fn batch_look(req: UpdateGlobalSettingsRequest) -> Seq<(Seq<char>, Seq<char>)> {
    seq![
        ("episode_blur"@, bool_text(req.episode_blur)),
        ("poster_badge_shape"@, req.poster_badge_shape@),
        ("logo_badge_shape"@, req.logo_badge_shape@),
        ("backdrop_badge_shape"@, req.backdrop_badge_shape@),
        ("episode_badge_shape"@, req.episode_badge_shape@),
        ("poster_badge_background"@, req.poster_badge_background@),
        ("logo_badge_background"@, req.logo_badge_background@),
        ("backdrop_badge_background"@, req.backdrop_badge_background@),
        ("episode_badge_background"@, req.episode_badge_background@),
    ]
}

/// The stored (key, value) pairs of a settings update, in storage order;
/// the free-API-key switch is stored only when the request sets it and the
/// deployment does not lock it.
pub open spec fn settings_batch_spec(req: UpdateGlobalSettingsRequest, free_key_locked: bool) -> Seq<(Seq<char>, Seq<char>)> {
    let fixed = batch_general(req) + batch_styles(req) + batch_episode(req) + batch_look(req);
    match req.free_api_key_enabled {
        Some(enabled) => if free_key_locked {
            fixed
        } else {
            fixed.push(("free_api_key_enabled"@, bool_text(enabled)))
        },
        None => fixed,
    }
}

/// The views of a list of stored pairs.
pub open spec fn pairs_view(v: Seq<(String, String)>) -> Seq<(Seq<char>, Seq<char>)> {
    v.map_values(|p: (String, String)| (p.0@, p.1@))
}

fn bool_string(b: bool) -> (s: String)
    ensures
        s@ == bool_text(b),
{
    if b {
        String::from_str("true")
    } else {
        String::from_str("false")
    }
}

fn int_string(v: i32) -> (s: String)
    ensures
        s@ == signed_decimal(v as int),
{
    let mut s = String::new();
    push_signed_decimal(&mut s, v as i64);
    s
}

fn push_pair(out: &mut Vec<(String, String)>, key: &str, value: String)
    ensures
        pairs_view(final(out)@) == pairs_view(old(out)@).push((key@, value@)),
{
    out.push((key.to_owned(), value));
    assert(pairs_view(out@) =~= pairs_view(old(out)@).push((key@, value@)));
}

fn push_general(v: &mut Vec<(String, String)>, req: &UpdateGlobalSettingsRequest)
    ensures
        pairs_view(final(v)@) == pairs_view(old(v)@) + batch_general(*req),
{
    let ghost start = pairs_view(v@);
    push_pair(v, "image_source", req.image_source.clone());
    push_pair(v, "lang", req.lang.clone());
    push_pair(v, "textless", bool_string(req.textless));
    push_pair(v, "ratings_limit", int_string(req.ratings_limit));
    push_pair(v, "ratings_order", req.ratings_order.clone());
    push_pair(v, "ratings_exclude", req.ratings_exclude.clone());
    push_pair(v, "poster_position", req.poster_position.clone());
    push_pair(v, "logo_ratings_limit", int_string(req.logo_ratings_limit));
    push_pair(v, "backdrop_ratings_limit", int_string(req.backdrop_ratings_limit));
    assert(pairs_view(v@) =~= start + batch_general(*req));
}

fn push_styles(v: &mut Vec<(String, String)>, req: &UpdateGlobalSettingsRequest)
    ensures
        pairs_view(final(v)@) == pairs_view(old(v)@) + batch_styles(*req),
{
    let ghost start = pairs_view(v@);
    push_pair(v, "poster_badge_style", req.poster_badge_style.clone());
    push_pair(v, "logo_badge_style", req.logo_badge_style.clone());
    push_pair(v, "backdrop_badge_style", req.backdrop_badge_style.clone());
    push_pair(v, "poster_label_style", req.poster_label_style.clone());
    push_pair(v, "logo_label_style", req.logo_label_style.clone());
    push_pair(v, "backdrop_label_style", req.backdrop_label_style.clone());
    push_pair(v, "poster_badge_direction", req.poster_badge_direction.clone());
    push_pair(v, "poster_badge_size", req.poster_badge_size.clone());
    push_pair(v, "logo_badge_size", req.logo_badge_size.clone());
    assert(pairs_view(v@) =~= start + batch_styles(*req));
}

fn push_episode(v: &mut Vec<(String, String)>, req: &UpdateGlobalSettingsRequest)
    ensures
        pairs_view(final(v)@) == pairs_view(old(v)@) + batch_episode(*req),
{
    let ghost start = pairs_view(v@);
    push_pair(v, "backdrop_badge_size", req.backdrop_badge_size.clone());
    push_pair(v, "backdrop_position", req.backdrop_position.clone());
    push_pair(v, "backdrop_badge_direction", req.backdrop_badge_direction.clone());
    push_pair(v, "episode_ratings_limit", int_string(req.episode_ratings_limit));
    push_pair(v, "episode_badge_style", req.episode_badge_style.clone());
    push_pair(v, "episode_label_style", req.episode_label_style.clone());
    push_pair(v, "episode_badge_size", req.episode_badge_size.clone());
    push_pair(v, "episode_position", req.episode_position.clone());
    push_pair(v, "episode_badge_direction", req.episode_badge_direction.clone());
    assert(pairs_view(v@) =~= start + batch_episode(*req));
}

fn push_look(v: &mut Vec<(String, String)>, req: &UpdateGlobalSettingsRequest)
    ensures
        pairs_view(final(v)@) == pairs_view(old(v)@) + batch_look(*req),
{
    let ghost start = pairs_view(v@);
    push_pair(v, "episode_blur", bool_string(req.episode_blur));
    push_pair(v, "poster_badge_shape", req.poster_badge_shape.clone());
    push_pair(v, "logo_badge_shape", req.logo_badge_shape.clone());
    push_pair(v, "backdrop_badge_shape", req.backdrop_badge_shape.clone());
    push_pair(v, "episode_badge_shape", req.episode_badge_shape.clone());
    push_pair(v, "poster_badge_background", req.poster_badge_background.clone());
    push_pair(v, "logo_badge_background", req.logo_badge_background.clone());
    push_pair(v, "backdrop_badge_background", req.backdrop_badge_background.clone());
    push_pair(v, "episode_badge_background", req.episode_badge_background.clone());
    assert(pairs_view(v@) =~= start + batch_look(*req));
}

/// The (key, value) pairs a settings update stores. `free_key_locked` tells
/// whether the deployment fixes the free-API-key switch, in which case the
/// request cannot change it.
pub fn settings_batch(req: &UpdateGlobalSettingsRequest, free_key_locked: bool) -> (v: Vec<(String, String)>)
    ensures
        pairs_view(v@) == settings_batch_spec(*req, free_key_locked),
{
    let mut v: Vec<(String, String)> = Vec::new();
    assert(pairs_view(v@) =~= Seq::<(Seq<char>, Seq<char>)>::empty());
    push_general(&mut v, req);
    push_styles(&mut v, req);
    push_episode(&mut v, req);
    push_look(&mut v, req);
    assert(pairs_view(v@) =~= batch_general(*req) + batch_styles(*req) + batch_episode(*req) + batch_look(*req));
    if !free_key_locked {
        if let Some(enabled) = req.free_api_key_enabled {
            push_pair(&mut v, "free_api_key_enabled", bool_string(enabled));
        }
    }
    v
}

/// Whether a settings update changes the free-API-key switch, so that its
/// cached value must be dropped.
pub fn free_key_changed(req: &UpdateGlobalSettingsRequest, free_key_locked: bool) -> (r: bool)
    ensures
        r == (req.free_api_key_enabled is Some && !free_key_locked),
{
    req.free_api_key_enabled.is_some() && !free_key_locked
}

/// The text a request gives the setting named `key`: a text setting as it
/// is, a switch as `true`/`false`, a limit in decimal; the free-API-key switch
/// only when the request sets it; `None` for an unknown name.
pub open spec fn setting_text(req: UpdateGlobalSettingsRequest, key: Seq<char>) -> Option<Seq<char>> {
    if key == "image_source"@ {
        Some(req.image_source@)
    } else if key == "lang"@ {
        Some(req.lang@)
    } else if key == "textless"@ {
        Some(bool_text(req.textless))
    } else if key == "ratings_limit"@ {
        Some(signed_decimal(req.ratings_limit as int))
    } else if key == "ratings_order"@ {
        Some(req.ratings_order@)
    } else if key == "ratings_exclude"@ {
        Some(req.ratings_exclude@)
    } else if key == "poster_position"@ {
        Some(req.poster_position@)
    } else if key == "logo_ratings_limit"@ {
        Some(signed_decimal(req.logo_ratings_limit as int))
    } else if key == "backdrop_ratings_limit"@ {
        Some(signed_decimal(req.backdrop_ratings_limit as int))
    } else if key == "poster_badge_style"@ {
        Some(req.poster_badge_style@)
    } else if key == "logo_badge_style"@ {
        Some(req.logo_badge_style@)
    } else if key == "backdrop_badge_style"@ {
        Some(req.backdrop_badge_style@)
    } else if key == "poster_label_style"@ {
        Some(req.poster_label_style@)
    } else if key == "logo_label_style"@ {
        Some(req.logo_label_style@)
    } else if key == "backdrop_label_style"@ {
        Some(req.backdrop_label_style@)
    } else if key == "poster_badge_direction"@ {
        Some(req.poster_badge_direction@)
    } else if key == "poster_badge_size"@ {
        Some(req.poster_badge_size@)
    } else if key == "logo_badge_size"@ {
        Some(req.logo_badge_size@)
    } else if key == "backdrop_badge_size"@ {
        Some(req.backdrop_badge_size@)
    } else if key == "backdrop_position"@ {
        Some(req.backdrop_position@)
    } else if key == "backdrop_badge_direction"@ {
        Some(req.backdrop_badge_direction@)
    } else if key == "episode_ratings_limit"@ {
        Some(signed_decimal(req.episode_ratings_limit as int))
    } else if key == "episode_badge_style"@ {
        Some(req.episode_badge_style@)
    } else if key == "episode_label_style"@ {
        Some(req.episode_label_style@)
    } else if key == "episode_badge_size"@ {
        Some(req.episode_badge_size@)
    } else if key == "episode_position"@ {
        Some(req.episode_position@)
    } else if key == "episode_badge_direction"@ {
        Some(req.episode_badge_direction@)
    } else if key == "episode_blur"@ {
        Some(bool_text(req.episode_blur))
    } else if key == "poster_badge_shape"@ {
        Some(req.poster_badge_shape@)
    } else if key == "logo_badge_shape"@ {
        Some(req.logo_badge_shape@)
    } else if key == "backdrop_badge_shape"@ {
        Some(req.backdrop_badge_shape@)
    } else if key == "episode_badge_shape"@ {
        Some(req.episode_badge_shape@)
    } else if key == "poster_badge_background"@ {
        Some(req.poster_badge_background@)
    } else if key == "logo_badge_background"@ {
        Some(req.logo_badge_background@)
    } else if key == "backdrop_badge_background"@ {
        Some(req.backdrop_badge_background@)
    } else if key == "episode_badge_background"@ {
        Some(req.episode_badge_background@)
    } else if key == "free_api_key_enabled"@ {
        match req.free_api_key_enabled {
            Some(b) => Some(bool_text(b)),
            None => None,
        }
    } else {
        None
    }
}


proof fn lemma_setting_text_of_keys(req: UpdateGlobalSettingsRequest)
    ensures
        setting_text(req, "image_source"@) == Some(req.image_source@),
        setting_text(req, "lang"@) == Some(req.lang@),
        setting_text(req, "textless"@) == Some(bool_text(req.textless)),
        setting_text(req, "ratings_limit"@) == Some(signed_decimal(req.ratings_limit as int)),
        setting_text(req, "ratings_order"@) == Some(req.ratings_order@),
        setting_text(req, "ratings_exclude"@) == Some(req.ratings_exclude@),
        setting_text(req, "poster_position"@) == Some(req.poster_position@),
        setting_text(req, "logo_ratings_limit"@) == Some(signed_decimal(req.logo_ratings_limit as int)),
        setting_text(req, "backdrop_ratings_limit"@) == Some(signed_decimal(req.backdrop_ratings_limit as int)),
        setting_text(req, "poster_badge_style"@) == Some(req.poster_badge_style@),
        setting_text(req, "logo_badge_style"@) == Some(req.logo_badge_style@),
        setting_text(req, "backdrop_badge_style"@) == Some(req.backdrop_badge_style@),
        setting_text(req, "poster_label_style"@) == Some(req.poster_label_style@),
        setting_text(req, "logo_label_style"@) == Some(req.logo_label_style@),
        setting_text(req, "backdrop_label_style"@) == Some(req.backdrop_label_style@),
        setting_text(req, "poster_badge_direction"@) == Some(req.poster_badge_direction@),
        setting_text(req, "poster_badge_size"@) == Some(req.poster_badge_size@),
        setting_text(req, "logo_badge_size"@) == Some(req.logo_badge_size@),
        setting_text(req, "backdrop_badge_size"@) == Some(req.backdrop_badge_size@),
        setting_text(req, "backdrop_position"@) == Some(req.backdrop_position@),
        setting_text(req, "backdrop_badge_direction"@) == Some(req.backdrop_badge_direction@),
        setting_text(req, "episode_ratings_limit"@) == Some(signed_decimal(req.episode_ratings_limit as int)),
        setting_text(req, "episode_badge_style"@) == Some(req.episode_badge_style@),
        setting_text(req, "episode_label_style"@) == Some(req.episode_label_style@),
        setting_text(req, "episode_badge_size"@) == Some(req.episode_badge_size@),
        setting_text(req, "episode_position"@) == Some(req.episode_position@),
        setting_text(req, "episode_badge_direction"@) == Some(req.episode_badge_direction@),
        setting_text(req, "episode_blur"@) == Some(bool_text(req.episode_blur)),
        setting_text(req, "poster_badge_shape"@) == Some(req.poster_badge_shape@),
        setting_text(req, "logo_badge_shape"@) == Some(req.logo_badge_shape@),
        setting_text(req, "backdrop_badge_shape"@) == Some(req.backdrop_badge_shape@),
        setting_text(req, "episode_badge_shape"@) == Some(req.episode_badge_shape@),
        setting_text(req, "poster_badge_background"@) == Some(req.poster_badge_background@),
        setting_text(req, "logo_badge_background"@) == Some(req.logo_badge_background@),
        setting_text(req, "backdrop_badge_background"@) == Some(req.backdrop_badge_background@),
        setting_text(req, "episode_badge_background"@) == Some(req.episode_badge_background@),
        setting_text(req, "free_api_key_enabled"@) == match req.free_api_key_enabled {
            Some(b) => Some(bool_text(b)),
            None => None,
        },
{
    assert(setting_text(req, "image_source"@) == Some(req.image_source@)) by {
        reveal_strlit("image_source");
    }
    assert(setting_text(req, "lang"@) == Some(req.lang@)) by {
        reveal_strlit("lang");
        reveal_strlit("image_source");
        assert("lang"@.len() != "image_source"@.len());
    }
    assert(setting_text(req, "textless"@) == Some(bool_text(req.textless))) by {
        reveal_strlit("textless");
        reveal_strlit("image_source");
        assert("textless"@.len() != "image_source"@.len());
        reveal_strlit("lang");
        assert("textless"@.len() != "lang"@.len());
    }
    assert(setting_text(req, "ratings_limit"@) == Some(signed_decimal(req.ratings_limit as int))) by {
        reveal_strlit("ratings_limit");
        reveal_strlit("image_source");
        assert("ratings_limit"@.len() != "image_source"@.len());
        reveal_strlit("lang");
        assert("ratings_limit"@.len() != "lang"@.len());
        reveal_strlit("textless");
        assert("ratings_limit"@.len() != "textless"@.len());
    }
    assert(setting_text(req, "ratings_order"@) == Some(req.ratings_order@)) by {
        reveal_strlit("ratings_order");
        reveal_strlit("image_source");
        assert("ratings_order"@.len() != "image_source"@.len());
        reveal_strlit("lang");
        assert("ratings_order"@.len() != "lang"@.len());
        reveal_strlit("textless");
        assert("ratings_order"@.len() != "textless"@.len());
        reveal_strlit("ratings_limit");
        assert("ratings_order"@[8] != "ratings_limit"@[8]);
    }
    assert(setting_text(req, "ratings_exclude"@) == Some(req.ratings_exclude@)) by {
        reveal_strlit("ratings_exclude");
        reveal_strlit("image_source");
        assert("ratings_exclude"@.len() != "image_source"@.len());
        reveal_strlit("lang");
        assert("ratings_exclude"@.len() != "lang"@.len());
        reveal_strlit("textless");
        assert("ratings_exclude"@.len() != "textless"@.len());
        reveal_strlit("ratings_limit");
        assert("ratings_exclude"@.len() != "ratings_limit"@.len());
        reveal_strlit("ratings_order");
        assert("ratings_exclude"@.len() != "ratings_order"@.len());
    }
    assert(setting_text(req, "poster_position"@) == Some(req.poster_position@)) by {
        reveal_strlit("poster_position");
        reveal_strlit("image_source");
        assert("poster_position"@.len() != "image_source"@.len());
        reveal_strlit("lang");
        assert("poster_position"@.len() != "lang"@.len());
        reveal_strlit("textless");
        assert("poster_position"@.len() != "textless"@.len());
        reveal_strlit("ratings_limit");
        assert("poster_position"@.len() != "ratings_limit"@.len());
        reveal_strlit("ratings_order");
        assert("poster_position"@.len() != "ratings_order"@.len());
        reveal_strlit("ratings_exclude");
        assert("poster_position"@[0] != "ratings_exclude"@[0]);
    }
    assert(setting_text(req, "logo_ratings_limit"@) == Some(signed_decimal(req.logo_ratings_limit as int))) by {
        reveal_strlit("logo_ratings_limit");
        reveal_strlit("image_source");
        assert("logo_ratings_limit"@.len() != "image_source"@.len());
        reveal_strlit("lang");
        assert("logo_ratings_limit"@.len() != "lang"@.len());
        reveal_strlit("textless");
        assert("logo_ratings_limit"@.len() != "textless"@.len());
        reveal_strlit("ratings_limit");
        assert("logo_ratings_limit"@.len() != "ratings_limit"@.len());
        reveal_strlit("ratings_order");
        assert("logo_ratings_limit"@.len() != "ratings_order"@.len());
        reveal_strlit("ratings_exclude");
        assert("logo_ratings_limit"@.len() != "ratings_exclude"@.len());
        reveal_strlit("poster_position");
        assert("logo_ratings_limit"@.len() != "poster_position"@.len());
    }
    assert(setting_text(req, "backdrop_ratings_limit"@) == Some(signed_decimal(req.backdrop_ratings_limit as int))) by {
        reveal_strlit("backdrop_ratings_limit");
        reveal_strlit("image_source");
        assert("backdrop_ratings_limit"@.len() != "image_source"@.len());
        reveal_strlit("lang");
        assert("backdrop_ratings_limit"@.len() != "lang"@.len());
        reveal_strlit("textless");
        assert("backdrop_ratings_limit"@.len() != "textless"@.len());
        reveal_strlit("ratings_limit");
        assert("backdrop_ratings_limit"@.len() != "ratings_limit"@.len());
        reveal_strlit("ratings_order");
        assert("backdrop_ratings_limit"@.len() != "ratings_order"@.len());
        reveal_strlit("ratings_exclude");
        assert("backdrop_ratings_limit"@.len() != "ratings_exclude"@.len());
        reveal_strlit("poster_position");
        assert("backdrop_ratings_limit"@.len() != "poster_position"@.len());
        reveal_strlit("logo_ratings_limit");
        assert("backdrop_ratings_limit"@.len() != "logo_ratings_limit"@.len());
    }
    assert(setting_text(req, "poster_badge_style"@) == Some(req.poster_badge_style@)) by {
        reveal_strlit("poster_badge_style");
        reveal_strlit("image_source");
        assert("poster_badge_style"@.len() != "image_source"@.len());
        reveal_strlit("lang");
        assert("poster_badge_style"@.len() != "lang"@.len());
        reveal_strlit("textless");
        assert("poster_badge_style"@.len() != "textless"@.len());
        reveal_strlit("ratings_limit");
        assert("poster_badge_style"@.len() != "ratings_limit"@.len());
        reveal_strlit("ratings_order");
        assert("poster_badge_style"@.len() != "ratings_order"@.len());
        reveal_strlit("ratings_exclude");
        assert("poster_badge_style"@.len() != "ratings_exclude"@.len());
        reveal_strlit("poster_position");
        assert("poster_badge_style"@.len() != "poster_position"@.len());
        reveal_strlit("logo_ratings_limit");
        assert("poster_badge_style"@[0] != "logo_ratings_limit"@[0]);
        reveal_strlit("backdrop_ratings_limit");
        assert("poster_badge_style"@.len() != "backdrop_ratings_limit"@.len());
    }
    assert(setting_text(req, "logo_badge_style"@) == Some(req.logo_badge_style@)) by {
        reveal_strlit("logo_badge_style");
        reveal_strlit("image_source");
        assert("logo_badge_style"@.len() != "image_source"@.len());
        reveal_strlit("lang");
        assert("logo_badge_style"@.len() != "lang"@.len());
        reveal_strlit("textless");
        assert("logo_badge_style"@.len() != "textless"@.len());
        reveal_strlit("ratings_limit");
        assert("logo_badge_style"@.len() != "ratings_limit"@.len());
        reveal_strlit("ratings_order");
        assert("logo_badge_style"@.len() != "ratings_order"@.len());
        reveal_strlit("ratings_exclude");
        assert("logo_badge_style"@.len() != "ratings_exclude"@.len());
        reveal_strlit("poster_position");
        assert("logo_badge_style"@.len() != "poster_position"@.len());
        reveal_strlit("logo_ratings_limit");
        assert("logo_badge_style"@.len() != "logo_ratings_limit"@.len());
        reveal_strlit("backdrop_ratings_limit");
        assert("logo_badge_style"@.len() != "backdrop_ratings_limit"@.len());
        reveal_strlit("poster_badge_style");
        assert("logo_badge_style"@.len() != "poster_badge_style"@.len());
    }
    assert(setting_text(req, "backdrop_badge_style"@) == Some(req.backdrop_badge_style@)) by {
        reveal_strlit("backdrop_badge_style");
        reveal_strlit("image_source");
        assert("backdrop_badge_style"@.len() != "image_source"@.len());
        reveal_strlit("lang");
        assert("backdrop_badge_style"@.len() != "lang"@.len());
        reveal_strlit("textless");
        assert("backdrop_badge_style"@.len() != "textless"@.len());
        reveal_strlit("ratings_limit");
        assert("backdrop_badge_style"@.len() != "ratings_limit"@.len());
        reveal_strlit("ratings_order");
        assert("backdrop_badge_style"@.len() != "ratings_order"@.len());
        reveal_strlit("ratings_exclude");
        assert("backdrop_badge_style"@.len() != "ratings_exclude"@.len());
        reveal_strlit("poster_position");
        assert("backdrop_badge_style"@.len() != "poster_position"@.len());
        reveal_strlit("logo_ratings_limit");
        assert("backdrop_badge_style"@.len() != "logo_ratings_limit"@.len());
        reveal_strlit("backdrop_ratings_limit");
        assert("backdrop_badge_style"@.len() != "backdrop_ratings_limit"@.len());
        reveal_strlit("poster_badge_style");
        assert("backdrop_badge_style"@.len() != "poster_badge_style"@.len());
        reveal_strlit("logo_badge_style");
        assert("backdrop_badge_style"@.len() != "logo_badge_style"@.len());
    }
    assert(setting_text(req, "poster_label_style"@) == Some(req.poster_label_style@)) by {
        reveal_strlit("poster_label_style");
        reveal_strlit("image_source");
        assert("poster_label_style"@.len() != "image_source"@.len());
        reveal_strlit("lang");
        assert("poster_label_style"@.len() != "lang"@.len());
        reveal_strlit("textless");
        assert("poster_label_style"@.len() != "textless"@.len());
        reveal_strlit("ratings_limit");
        assert("poster_label_style"@.len() != "ratings_limit"@.len());
        reveal_strlit("ratings_order");
        assert("poster_label_style"@.len() != "ratings_order"@.len());
        reveal_strlit("ratings_exclude");
        assert("poster_label_style"@.len() != "ratings_exclude"@.len());
        reveal_strlit("poster_position");
        assert("poster_label_style"@.len() != "poster_position"@.len());
        reveal_strlit("logo_ratings_limit");
        assert("poster_label_style"@[0] != "logo_ratings_limit"@[0]);
        reveal_strlit("backdrop_ratings_limit");
        assert("poster_label_style"@.len() != "backdrop_ratings_limit"@.len());
        reveal_strlit("poster_badge_style");
        assert("poster_label_style"@[7] != "poster_badge_style"@[7]);
        reveal_strlit("logo_badge_style");
        assert("poster_label_style"@.len() != "logo_badge_style"@.len());
        reveal_strlit("backdrop_badge_style");
        assert("poster_label_style"@.len() != "backdrop_badge_style"@.len());
    }
    assert(setting_text(req, "logo_label_style"@) == Some(req.logo_label_style@)) by {
        reveal_strlit("logo_label_style");
        reveal_strlit("image_source");
        assert("logo_label_style"@.len() != "image_source"@.len());
        reveal_strlit("lang");
        assert("logo_label_style"@.len() != "lang"@.len());
        reveal_strlit("textless");
        assert("logo_label_style"@.len() != "textless"@.len());
        reveal_strlit("ratings_limit");
        assert("logo_label_style"@.len() != "ratings_limit"@.len());
        reveal_strlit("ratings_order");
        assert("logo_label_style"@.len() != "ratings_order"@.len());
        reveal_strlit("ratings_exclude");
        assert("logo_label_style"@.len() != "ratings_exclude"@.len());
        reveal_strlit("poster_position");
        assert("logo_label_style"@.len() != "poster_position"@.len());
        reveal_strlit("logo_ratings_limit");
        assert("logo_label_style"@.len() != "logo_ratings_limit"@.len());
        reveal_strlit("backdrop_ratings_limit");
        assert("logo_label_style"@.len() != "backdrop_ratings_limit"@.len());
        reveal_strlit("poster_badge_style");
        assert("logo_label_style"@.len() != "poster_badge_style"@.len());
        reveal_strlit("logo_badge_style");
        assert("logo_label_style"@[5] != "logo_badge_style"@[5]);
        reveal_strlit("backdrop_badge_style");
        assert("logo_label_style"@.len() != "backdrop_badge_style"@.len());
        reveal_strlit("poster_label_style");
        assert("logo_label_style"@.len() != "poster_label_style"@.len());
    }
    assert(setting_text(req, "backdrop_label_style"@) == Some(req.backdrop_label_style@)) by {
        reveal_strlit("backdrop_label_style");
        reveal_strlit("image_source");
        assert("backdrop_label_style"@.len() != "image_source"@.len());
        reveal_strlit("lang");
        assert("backdrop_label_style"@.len() != "lang"@.len());
        reveal_strlit("textless");
        assert("backdrop_label_style"@.len() != "textless"@.len());
        reveal_strlit("ratings_limit");
        assert("backdrop_label_style"@.len() != "ratings_limit"@.len());
        reveal_strlit("ratings_order");
        assert("backdrop_label_style"@.len() != "ratings_order"@.len());
        reveal_strlit("ratings_exclude");
        assert("backdrop_label_style"@.len() != "ratings_exclude"@.len());
        reveal_strlit("poster_position");
        assert("backdrop_label_style"@.len() != "poster_position"@.len());
        reveal_strlit("logo_ratings_limit");
        assert("backdrop_label_style"@.len() != "logo_ratings_limit"@.len());
        reveal_strlit("backdrop_ratings_limit");
        assert("backdrop_label_style"@.len() != "backdrop_ratings_limit"@.len());
        reveal_strlit("poster_badge_style");
        assert("backdrop_label_style"@.len() != "poster_badge_style"@.len());
        reveal_strlit("logo_badge_style");
        assert("backdrop_label_style"@.len() != "logo_badge_style"@.len());
        reveal_strlit("backdrop_badge_style");
        assert("backdrop_label_style"@[9] != "backdrop_badge_style"@[9]);
        reveal_strlit("poster_label_style");
        assert("backdrop_label_style"@.len() != "poster_label_style"@.len());
        reveal_strlit("logo_label_style");
        assert("backdrop_label_style"@.len() != "logo_label_style"@.len());
    }
    assert(setting_text(req, "poster_badge_direction"@) == Some(req.poster_badge_direction@)) by {
        reveal_strlit("poster_badge_direction");
        reveal_strlit("image_source");
        assert("poster_badge_direction"@.len() != "image_source"@.len());
        reveal_strlit("lang");
        assert("poster_badge_direction"@.len() != "lang"@.len());
        reveal_strlit("textless");
        assert("poster_badge_direction"@.len() != "textless"@.len());
        reveal_strlit("ratings_limit");
        assert("poster_badge_direction"@.len() != "ratings_limit"@.len());
        reveal_strlit("ratings_order");
        assert("poster_badge_direction"@.len() != "ratings_order"@.len());
        reveal_strlit("ratings_exclude");
        assert("poster_badge_direction"@.len() != "ratings_exclude"@.len());
        reveal_strlit("poster_position");
        assert("poster_badge_direction"@.len() != "poster_position"@.len());
        reveal_strlit("logo_ratings_limit");
        assert("poster_badge_direction"@.len() != "logo_ratings_limit"@.len());
        reveal_strlit("backdrop_ratings_limit");
        assert("poster_badge_direction"@[0] != "backdrop_ratings_limit"@[0]);
        reveal_strlit("poster_badge_style");
        assert("poster_badge_direction"@.len() != "poster_badge_style"@.len());
        reveal_strlit("logo_badge_style");
        assert("poster_badge_direction"@.len() != "logo_badge_style"@.len());
        reveal_strlit("backdrop_badge_style");
        assert("poster_badge_direction"@.len() != "backdrop_badge_style"@.len());
        reveal_strlit("poster_label_style");
        assert("poster_badge_direction"@.len() != "poster_label_style"@.len());
        reveal_strlit("logo_label_style");
        assert("poster_badge_direction"@.len() != "logo_label_style"@.len());
        reveal_strlit("backdrop_label_style");
        assert("poster_badge_direction"@.len() != "backdrop_label_style"@.len());
    }
    assert(setting_text(req, "poster_badge_size"@) == Some(req.poster_badge_size@)) by {
        reveal_strlit("poster_badge_size");
        reveal_strlit("image_source");
        assert("poster_badge_size"@.len() != "image_source"@.len());
        reveal_strlit("lang");
        assert("poster_badge_size"@.len() != "lang"@.len());
        reveal_strlit("textless");
        assert("poster_badge_size"@.len() != "textless"@.len());
        reveal_strlit("ratings_limit");
        assert("poster_badge_size"@.len() != "ratings_limit"@.len());
        reveal_strlit("ratings_order");
        assert("poster_badge_size"@.len() != "ratings_order"@.len());
        reveal_strlit("ratings_exclude");
        assert("poster_badge_size"@.len() != "ratings_exclude"@.len());
        reveal_strlit("poster_position");
        assert("poster_badge_size"@.len() != "poster_position"@.len());
        reveal_strlit("logo_ratings_limit");
        assert("poster_badge_size"@.len() != "logo_ratings_limit"@.len());
        reveal_strlit("backdrop_ratings_limit");
        assert("poster_badge_size"@.len() != "backdrop_ratings_limit"@.len());
        reveal_strlit("poster_badge_style");
        assert("poster_badge_size"@.len() != "poster_badge_style"@.len());
        reveal_strlit("logo_badge_style");
        assert("poster_badge_size"@.len() != "logo_badge_style"@.len());
        reveal_strlit("backdrop_badge_style");
        assert("poster_badge_size"@.len() != "backdrop_badge_style"@.len());
        reveal_strlit("poster_label_style");
        assert("poster_badge_size"@.len() != "poster_label_style"@.len());
        reveal_strlit("logo_label_style");
        assert("poster_badge_size"@.len() != "logo_label_style"@.len());
        reveal_strlit("backdrop_label_style");
        assert("poster_badge_size"@.len() != "backdrop_label_style"@.len());
        reveal_strlit("poster_badge_direction");
        assert("poster_badge_size"@.len() != "poster_badge_direction"@.len());
    }
    assert(setting_text(req, "logo_badge_size"@) == Some(req.logo_badge_size@)) by {
        reveal_strlit("logo_badge_size");
        reveal_strlit("image_source");
        assert("logo_badge_size"@.len() != "image_source"@.len());
        reveal_strlit("lang");
        assert("logo_badge_size"@.len() != "lang"@.len());
        reveal_strlit("textless");
        assert("logo_badge_size"@.len() != "textless"@.len());
        reveal_strlit("ratings_limit");
        assert("logo_badge_size"@.len() != "ratings_limit"@.len());
        reveal_strlit("ratings_order");
        assert("logo_badge_size"@.len() != "ratings_order"@.len());
        reveal_strlit("ratings_exclude");
        assert("logo_badge_size"@[0] != "ratings_exclude"@[0]);
        reveal_strlit("poster_position");
        assert("logo_badge_size"@[0] != "poster_position"@[0]);
        reveal_strlit("logo_ratings_limit");
        assert("logo_badge_size"@.len() != "logo_ratings_limit"@.len());
        reveal_strlit("backdrop_ratings_limit");
        assert("logo_badge_size"@.len() != "backdrop_ratings_limit"@.len());
        reveal_strlit("poster_badge_style");
        assert("logo_badge_size"@.len() != "poster_badge_style"@.len());
        reveal_strlit("logo_badge_style");
        assert("logo_badge_size"@.len() != "logo_badge_style"@.len());
        reveal_strlit("backdrop_badge_style");
        assert("logo_badge_size"@.len() != "backdrop_badge_style"@.len());
        reveal_strlit("poster_label_style");
        assert("logo_badge_size"@.len() != "poster_label_style"@.len());
        reveal_strlit("logo_label_style");
        assert("logo_badge_size"@.len() != "logo_label_style"@.len());
        reveal_strlit("backdrop_label_style");
        assert("logo_badge_size"@.len() != "backdrop_label_style"@.len());
        reveal_strlit("poster_badge_direction");
        assert("logo_badge_size"@.len() != "poster_badge_direction"@.len());
        reveal_strlit("poster_badge_size");
        assert("logo_badge_size"@.len() != "poster_badge_size"@.len());
    }
    assert(setting_text(req, "backdrop_badge_size"@) == Some(req.backdrop_badge_size@)) by {
        reveal_strlit("backdrop_badge_size");
        reveal_strlit("image_source");
        assert("backdrop_badge_size"@.len() != "image_source"@.len());
        reveal_strlit("lang");
        assert("backdrop_badge_size"@.len() != "lang"@.len());
        reveal_strlit("textless");
        assert("backdrop_badge_size"@.len() != "textless"@.len());
        reveal_strlit("ratings_limit");
        assert("backdrop_badge_size"@.len() != "ratings_limit"@.len());
        reveal_strlit("ratings_order");
        assert("backdrop_badge_size"@.len() != "ratings_order"@.len());
        reveal_strlit("ratings_exclude");
        assert("backdrop_badge_size"@.len() != "ratings_exclude"@.len());
        reveal_strlit("poster_position");
        assert("backdrop_badge_size"@.len() != "poster_position"@.len());
        reveal_strlit("logo_ratings_limit");
        assert("backdrop_badge_size"@.len() != "logo_ratings_limit"@.len());
        reveal_strlit("backdrop_ratings_limit");
        assert("backdrop_badge_size"@.len() != "backdrop_ratings_limit"@.len());
        reveal_strlit("poster_badge_style");
        assert("backdrop_badge_size"@.len() != "poster_badge_style"@.len());
        reveal_strlit("logo_badge_style");
        assert("backdrop_badge_size"@.len() != "logo_badge_style"@.len());
        reveal_strlit("backdrop_badge_style");
        assert("backdrop_badge_size"@.len() != "backdrop_badge_style"@.len());
        reveal_strlit("poster_label_style");
        assert("backdrop_badge_size"@.len() != "poster_label_style"@.len());
        reveal_strlit("logo_label_style");
        assert("backdrop_badge_size"@.len() != "logo_label_style"@.len());
        reveal_strlit("backdrop_label_style");
        assert("backdrop_badge_size"@.len() != "backdrop_label_style"@.len());
        reveal_strlit("poster_badge_direction");
        assert("backdrop_badge_size"@.len() != "poster_badge_direction"@.len());
        reveal_strlit("poster_badge_size");
        assert("backdrop_badge_size"@.len() != "poster_badge_size"@.len());
        reveal_strlit("logo_badge_size");
        assert("backdrop_badge_size"@.len() != "logo_badge_size"@.len());
    }
    assert(setting_text(req, "backdrop_position"@) == Some(req.backdrop_position@)) by {
        reveal_strlit("backdrop_position");
        reveal_strlit("image_source");
        assert("backdrop_position"@.len() != "image_source"@.len());
        reveal_strlit("lang");
        assert("backdrop_position"@.len() != "lang"@.len());
        reveal_strlit("textless");
        assert("backdrop_position"@.len() != "textless"@.len());
        reveal_strlit("ratings_limit");
        assert("backdrop_position"@.len() != "ratings_limit"@.len());
        reveal_strlit("ratings_order");
        assert("backdrop_position"@.len() != "ratings_order"@.len());
        reveal_strlit("ratings_exclude");
        assert("backdrop_position"@.len() != "ratings_exclude"@.len());
        reveal_strlit("poster_position");
        assert("backdrop_position"@.len() != "poster_position"@.len());
        reveal_strlit("logo_ratings_limit");
        assert("backdrop_position"@.len() != "logo_ratings_limit"@.len());
        reveal_strlit("backdrop_ratings_limit");
        assert("backdrop_position"@.len() != "backdrop_ratings_limit"@.len());
        reveal_strlit("poster_badge_style");
        assert("backdrop_position"@.len() != "poster_badge_style"@.len());
        reveal_strlit("logo_badge_style");
        assert("backdrop_position"@.len() != "logo_badge_style"@.len());
        reveal_strlit("backdrop_badge_style");
        assert("backdrop_position"@.len() != "backdrop_badge_style"@.len());
        reveal_strlit("poster_label_style");
        assert("backdrop_position"@.len() != "poster_label_style"@.len());
        reveal_strlit("logo_label_style");
        assert("backdrop_position"@.len() != "logo_label_style"@.len());
        reveal_strlit("backdrop_label_style");
        assert("backdrop_position"@.len() != "backdrop_label_style"@.len());
        reveal_strlit("poster_badge_direction");
        assert("backdrop_position"@.len() != "poster_badge_direction"@.len());
        reveal_strlit("poster_badge_size");
        assert("backdrop_position"@[0] != "poster_badge_size"@[0]);
        reveal_strlit("logo_badge_size");
        assert("backdrop_position"@.len() != "logo_badge_size"@.len());
        reveal_strlit("backdrop_badge_size");
        assert("backdrop_position"@.len() != "backdrop_badge_size"@.len());
    }
    assert(setting_text(req, "backdrop_badge_direction"@) == Some(req.backdrop_badge_direction@)) by {
        reveal_strlit("backdrop_badge_direction");
        reveal_strlit("image_source");
        assert("backdrop_badge_direction"@.len() != "image_source"@.len());
        reveal_strlit("lang");
        assert("backdrop_badge_direction"@.len() != "lang"@.len());
        reveal_strlit("textless");
        assert("backdrop_badge_direction"@.len() != "textless"@.len());
        reveal_strlit("ratings_limit");
        assert("backdrop_badge_direction"@.len() != "ratings_limit"@.len());
        reveal_strlit("ratings_order");
        assert("backdrop_badge_direction"@.len() != "ratings_order"@.len());
        reveal_strlit("ratings_exclude");
        assert("backdrop_badge_direction"@.len() != "ratings_exclude"@.len());
        reveal_strlit("poster_position");
        assert("backdrop_badge_direction"@.len() != "poster_position"@.len());
        reveal_strlit("logo_ratings_limit");
        assert("backdrop_badge_direction"@.len() != "logo_ratings_limit"@.len());
        reveal_strlit("backdrop_ratings_limit");
        assert("backdrop_badge_direction"@.len() != "backdrop_ratings_limit"@.len());
        reveal_strlit("poster_badge_style");
        assert("backdrop_badge_direction"@.len() != "poster_badge_style"@.len());
        reveal_strlit("logo_badge_style");
        assert("backdrop_badge_direction"@.len() != "logo_badge_style"@.len());
        reveal_strlit("backdrop_badge_style");
        assert("backdrop_badge_direction"@.len() != "backdrop_badge_style"@.len());
        reveal_strlit("poster_label_style");
        assert("backdrop_badge_direction"@.len() != "poster_label_style"@.len());
        reveal_strlit("logo_label_style");
        assert("backdrop_badge_direction"@.len() != "logo_label_style"@.len());
        reveal_strlit("backdrop_label_style");
        assert("backdrop_badge_direction"@.len() != "backdrop_label_style"@.len());
        reveal_strlit("poster_badge_direction");
        assert("backdrop_badge_direction"@.len() != "poster_badge_direction"@.len());
        reveal_strlit("poster_badge_size");
        assert("backdrop_badge_direction"@.len() != "poster_badge_size"@.len());
        reveal_strlit("logo_badge_size");
        assert("backdrop_badge_direction"@.len() != "logo_badge_size"@.len());
        reveal_strlit("backdrop_badge_size");
        assert("backdrop_badge_direction"@.len() != "backdrop_badge_size"@.len());
        reveal_strlit("backdrop_position");
        assert("backdrop_badge_direction"@.len() != "backdrop_position"@.len());
    }
    assert(setting_text(req, "episode_ratings_limit"@) == Some(signed_decimal(req.episode_ratings_limit as int))) by {
        reveal_strlit("episode_ratings_limit");
        reveal_strlit("image_source");
        assert("episode_ratings_limit"@.len() != "image_source"@.len());
        reveal_strlit("lang");
        assert("episode_ratings_limit"@.len() != "lang"@.len());
        reveal_strlit("textless");
        assert("episode_ratings_limit"@.len() != "textless"@.len());
        reveal_strlit("ratings_limit");
        assert("episode_ratings_limit"@.len() != "ratings_limit"@.len());
        reveal_strlit("ratings_order");
        assert("episode_ratings_limit"@.len() != "ratings_order"@.len());
        reveal_strlit("ratings_exclude");
        assert("episode_ratings_limit"@.len() != "ratings_exclude"@.len());
        reveal_strlit("poster_position");
        assert("episode_ratings_limit"@.len() != "poster_position"@.len());
        reveal_strlit("logo_ratings_limit");
        assert("episode_ratings_limit"@.len() != "logo_ratings_limit"@.len());
        reveal_strlit("backdrop_ratings_limit");
        assert("episode_ratings_limit"@.len() != "backdrop_ratings_limit"@.len());
        reveal_strlit("poster_badge_style");
        assert("episode_ratings_limit"@.len() != "poster_badge_style"@.len());
        reveal_strlit("logo_badge_style");
        assert("episode_ratings_limit"@.len() != "logo_badge_style"@.len());
        reveal_strlit("backdrop_badge_style");
        assert("episode_ratings_limit"@.len() != "backdrop_badge_style"@.len());
        reveal_strlit("poster_label_style");
        assert("episode_ratings_limit"@.len() != "poster_label_style"@.len());
        reveal_strlit("logo_label_style");
        assert("episode_ratings_limit"@.len() != "logo_label_style"@.len());
        reveal_strlit("backdrop_label_style");
        assert("episode_ratings_limit"@.len() != "backdrop_label_style"@.len());
        reveal_strlit("poster_badge_direction");
        assert("episode_ratings_limit"@.len() != "poster_badge_direction"@.len());
        reveal_strlit("poster_badge_size");
        assert("episode_ratings_limit"@.len() != "poster_badge_size"@.len());
        reveal_strlit("logo_badge_size");
        assert("episode_ratings_limit"@.len() != "logo_badge_size"@.len());
        reveal_strlit("backdrop_badge_size");
        assert("episode_ratings_limit"@.len() != "backdrop_badge_size"@.len());
        reveal_strlit("backdrop_position");
        assert("episode_ratings_limit"@.len() != "backdrop_position"@.len());
        reveal_strlit("backdrop_badge_direction");
        assert("episode_ratings_limit"@.len() != "backdrop_badge_direction"@.len());
    }
    assert(setting_text(req, "episode_badge_style"@) == Some(req.episode_badge_style@)) by {
        reveal_strlit("episode_badge_style");
        reveal_strlit("image_source");
        assert("episode_badge_style"@.len() != "image_source"@.len());
        reveal_strlit("lang");
        assert("episode_badge_style"@.len() != "lang"@.len());
        reveal_strlit("textless");
        assert("episode_badge_style"@.len() != "textless"@.len());
        reveal_strlit("ratings_limit");
        assert("episode_badge_style"@.len() != "ratings_limit"@.len());
        reveal_strlit("ratings_order");
        assert("episode_badge_style"@.len() != "ratings_order"@.len());
        reveal_strlit("ratings_exclude");
        assert("episode_badge_style"@.len() != "ratings_exclude"@.len());
        reveal_strlit("poster_position");
        assert("episode_badge_style"@.len() != "poster_position"@.len());
        reveal_strlit("logo_ratings_limit");
        assert("episode_badge_style"@.len() != "logo_ratings_limit"@.len());
        reveal_strlit("backdrop_ratings_limit");
        assert("episode_badge_style"@.len() != "backdrop_ratings_limit"@.len());
        reveal_strlit("poster_badge_style");
        assert("episode_badge_style"@.len() != "poster_badge_style"@.len());
        reveal_strlit("logo_badge_style");
        assert("episode_badge_style"@.len() != "logo_badge_style"@.len());
        reveal_strlit("backdrop_badge_style");
        assert("episode_badge_style"@.len() != "backdrop_badge_style"@.len());
        reveal_strlit("poster_label_style");
        assert("episode_badge_style"@.len() != "poster_label_style"@.len());
        reveal_strlit("logo_label_style");
        assert("episode_badge_style"@.len() != "logo_label_style"@.len());
        reveal_strlit("backdrop_label_style");
        assert("episode_badge_style"@.len() != "backdrop_label_style"@.len());
        reveal_strlit("poster_badge_direction");
        assert("episode_badge_style"@.len() != "poster_badge_direction"@.len());
        reveal_strlit("poster_badge_size");
        assert("episode_badge_style"@.len() != "poster_badge_size"@.len());
        reveal_strlit("logo_badge_size");
        assert("episode_badge_style"@.len() != "logo_badge_size"@.len());
        reveal_strlit("backdrop_badge_size");
        assert("episode_badge_style"@[0] != "backdrop_badge_size"@[0]);
        reveal_strlit("backdrop_position");
        assert("episode_badge_style"@.len() != "backdrop_position"@.len());
        reveal_strlit("backdrop_badge_direction");
        assert("episode_badge_style"@.len() != "backdrop_badge_direction"@.len());
        reveal_strlit("episode_ratings_limit");
        assert("episode_badge_style"@.len() != "episode_ratings_limit"@.len());
    }
    assert(setting_text(req, "episode_label_style"@) == Some(req.episode_label_style@)) by {
        reveal_strlit("episode_label_style");
        reveal_strlit("image_source");
        assert("episode_label_style"@.len() != "image_source"@.len());
        reveal_strlit("lang");
        assert("episode_label_style"@.len() != "lang"@.len());
        reveal_strlit("textless");
        assert("episode_label_style"@.len() != "textless"@.len());
        reveal_strlit("ratings_limit");
        assert("episode_label_style"@.len() != "ratings_limit"@.len());
        reveal_strlit("ratings_order");
        assert("episode_label_style"@.len() != "ratings_order"@.len());
        reveal_strlit("ratings_exclude");
        assert("episode_label_style"@.len() != "ratings_exclude"@.len());
        reveal_strlit("poster_position");
        assert("episode_label_style"@.len() != "poster_position"@.len());
        reveal_strlit("logo_ratings_limit");
        assert("episode_label_style"@.len() != "logo_ratings_limit"@.len());
        reveal_strlit("backdrop_ratings_limit");
        assert("episode_label_style"@.len() != "backdrop_ratings_limit"@.len());
        reveal_strlit("poster_badge_style");
        assert("episode_label_style"@.len() != "poster_badge_style"@.len());
        reveal_strlit("logo_badge_style");
        assert("episode_label_style"@.len() != "logo_badge_style"@.len());
        reveal_strlit("backdrop_badge_style");
        assert("episode_label_style"@.len() != "backdrop_badge_style"@.len());
        reveal_strlit("poster_label_style");
        assert("episode_label_style"@.len() != "poster_label_style"@.len());
        reveal_strlit("logo_label_style");
        assert("episode_label_style"@.len() != "logo_label_style"@.len());
        reveal_strlit("backdrop_label_style");
        assert("episode_label_style"@.len() != "backdrop_label_style"@.len());
        reveal_strlit("poster_badge_direction");
        assert("episode_label_style"@.len() != "poster_badge_direction"@.len());
        reveal_strlit("poster_badge_size");
        assert("episode_label_style"@.len() != "poster_badge_size"@.len());
        reveal_strlit("logo_badge_size");
        assert("episode_label_style"@.len() != "logo_badge_size"@.len());
        reveal_strlit("backdrop_badge_size");
        assert("episode_label_style"@[0] != "backdrop_badge_size"@[0]);
        reveal_strlit("backdrop_position");
        assert("episode_label_style"@.len() != "backdrop_position"@.len());
        reveal_strlit("backdrop_badge_direction");
        assert("episode_label_style"@.len() != "backdrop_badge_direction"@.len());
        reveal_strlit("episode_ratings_limit");
        assert("episode_label_style"@.len() != "episode_ratings_limit"@.len());
        reveal_strlit("episode_badge_style");
        assert("episode_label_style"@[8] != "episode_badge_style"@[8]);
    }
    assert(setting_text(req, "episode_badge_size"@) == Some(req.episode_badge_size@)) by {
        reveal_strlit("episode_badge_size");
        reveal_strlit("image_source");
        assert("episode_badge_size"@.len() != "image_source"@.len());
        reveal_strlit("lang");
        assert("episode_badge_size"@.len() != "lang"@.len());
        reveal_strlit("textless");
        assert("episode_badge_size"@.len() != "textless"@.len());
        reveal_strlit("ratings_limit");
        assert("episode_badge_size"@.len() != "ratings_limit"@.len());
        reveal_strlit("ratings_order");
        assert("episode_badge_size"@.len() != "ratings_order"@.len());
        reveal_strlit("ratings_exclude");
        assert("episode_badge_size"@.len() != "ratings_exclude"@.len());
        reveal_strlit("poster_position");
        assert("episode_badge_size"@.len() != "poster_position"@.len());
        reveal_strlit("logo_ratings_limit");
        assert("episode_badge_size"@[0] != "logo_ratings_limit"@[0]);
        reveal_strlit("backdrop_ratings_limit");
        assert("episode_badge_size"@.len() != "backdrop_ratings_limit"@.len());
        reveal_strlit("poster_badge_style");
        assert("episode_badge_size"@[0] != "poster_badge_style"@[0]);
        reveal_strlit("logo_badge_style");
        assert("episode_badge_size"@.len() != "logo_badge_style"@.len());
        reveal_strlit("backdrop_badge_style");
        assert("episode_badge_size"@.len() != "backdrop_badge_style"@.len());
        reveal_strlit("poster_label_style");
        assert("episode_badge_size"@[0] != "poster_label_style"@[0]);
        reveal_strlit("logo_label_style");
        assert("episode_badge_size"@.len() != "logo_label_style"@.len());
        reveal_strlit("backdrop_label_style");
        assert("episode_badge_size"@.len() != "backdrop_label_style"@.len());
        reveal_strlit("poster_badge_direction");
        assert("episode_badge_size"@.len() != "poster_badge_direction"@.len());
        reveal_strlit("poster_badge_size");
        assert("episode_badge_size"@.len() != "poster_badge_size"@.len());
        reveal_strlit("logo_badge_size");
        assert("episode_badge_size"@.len() != "logo_badge_size"@.len());
        reveal_strlit("backdrop_badge_size");
        assert("episode_badge_size"@.len() != "backdrop_badge_size"@.len());
        reveal_strlit("backdrop_position");
        assert("episode_badge_size"@.len() != "backdrop_position"@.len());
        reveal_strlit("backdrop_badge_direction");
        assert("episode_badge_size"@.len() != "backdrop_badge_direction"@.len());
        reveal_strlit("episode_ratings_limit");
        assert("episode_badge_size"@.len() != "episode_ratings_limit"@.len());
        reveal_strlit("episode_badge_style");
        assert("episode_badge_size"@.len() != "episode_badge_style"@.len());
        reveal_strlit("episode_label_style");
        assert("episode_badge_size"@.len() != "episode_label_style"@.len());
    }
    assert(setting_text(req, "episode_position"@) == Some(req.episode_position@)) by {
        reveal_strlit("episode_position");
        reveal_strlit("image_source");
        assert("episode_position"@.len() != "image_source"@.len());
        reveal_strlit("lang");
        assert("episode_position"@.len() != "lang"@.len());
        reveal_strlit("textless");
        assert("episode_position"@.len() != "textless"@.len());
        reveal_strlit("ratings_limit");
        assert("episode_position"@.len() != "ratings_limit"@.len());
        reveal_strlit("ratings_order");
        assert("episode_position"@.len() != "ratings_order"@.len());
        reveal_strlit("ratings_exclude");
        assert("episode_position"@.len() != "ratings_exclude"@.len());
        reveal_strlit("poster_position");
        assert("episode_position"@.len() != "poster_position"@.len());
        reveal_strlit("logo_ratings_limit");
        assert("episode_position"@.len() != "logo_ratings_limit"@.len());
        reveal_strlit("backdrop_ratings_limit");
        assert("episode_position"@.len() != "backdrop_ratings_limit"@.len());
        reveal_strlit("poster_badge_style");
        assert("episode_position"@.len() != "poster_badge_style"@.len());
        reveal_strlit("logo_badge_style");
        assert("episode_position"@[0] != "logo_badge_style"@[0]);
        reveal_strlit("backdrop_badge_style");
        assert("episode_position"@.len() != "backdrop_badge_style"@.len());
        reveal_strlit("poster_label_style");
        assert("episode_position"@.len() != "poster_label_style"@.len());
        reveal_strlit("logo_label_style");
        assert("episode_position"@[0] != "logo_label_style"@[0]);
        reveal_strlit("backdrop_label_style");
        assert("episode_position"@.len() != "backdrop_label_style"@.len());
        reveal_strlit("poster_badge_direction");
        assert("episode_position"@.len() != "poster_badge_direction"@.len());
        reveal_strlit("poster_badge_size");
        assert("episode_position"@.len() != "poster_badge_size"@.len());
        reveal_strlit("logo_badge_size");
        assert("episode_position"@.len() != "logo_badge_size"@.len());
        reveal_strlit("backdrop_badge_size");
        assert("episode_position"@.len() != "backdrop_badge_size"@.len());
        reveal_strlit("backdrop_position");
        assert("episode_position"@.len() != "backdrop_position"@.len());
        reveal_strlit("backdrop_badge_direction");
        assert("episode_position"@.len() != "backdrop_badge_direction"@.len());
        reveal_strlit("episode_ratings_limit");
        assert("episode_position"@.len() != "episode_ratings_limit"@.len());
        reveal_strlit("episode_badge_style");
        assert("episode_position"@.len() != "episode_badge_style"@.len());
        reveal_strlit("episode_label_style");
        assert("episode_position"@.len() != "episode_label_style"@.len());
        reveal_strlit("episode_badge_size");
        assert("episode_position"@.len() != "episode_badge_size"@.len());
    }
    assert(setting_text(req, "episode_badge_direction"@) == Some(req.episode_badge_direction@)) by {
        reveal_strlit("episode_badge_direction");
        reveal_strlit("image_source");
        assert("episode_badge_direction"@.len() != "image_source"@.len());
        reveal_strlit("lang");
        assert("episode_badge_direction"@.len() != "lang"@.len());
        reveal_strlit("textless");
        assert("episode_badge_direction"@.len() != "textless"@.len());
        reveal_strlit("ratings_limit");
        assert("episode_badge_direction"@.len() != "ratings_limit"@.len());
        reveal_strlit("ratings_order");
        assert("episode_badge_direction"@.len() != "ratings_order"@.len());
        reveal_strlit("ratings_exclude");
        assert("episode_badge_direction"@.len() != "ratings_exclude"@.len());
        reveal_strlit("poster_position");
        assert("episode_badge_direction"@.len() != "poster_position"@.len());
        reveal_strlit("logo_ratings_limit");
        assert("episode_badge_direction"@.len() != "logo_ratings_limit"@.len());
        reveal_strlit("backdrop_ratings_limit");
        assert("episode_badge_direction"@.len() != "backdrop_ratings_limit"@.len());
        reveal_strlit("poster_badge_style");
        assert("episode_badge_direction"@.len() != "poster_badge_style"@.len());
        reveal_strlit("logo_badge_style");
        assert("episode_badge_direction"@.len() != "logo_badge_style"@.len());
        reveal_strlit("backdrop_badge_style");
        assert("episode_badge_direction"@.len() != "backdrop_badge_style"@.len());
        reveal_strlit("poster_label_style");
        assert("episode_badge_direction"@.len() != "poster_label_style"@.len());
        reveal_strlit("logo_label_style");
        assert("episode_badge_direction"@.len() != "logo_label_style"@.len());
        reveal_strlit("backdrop_label_style");
        assert("episode_badge_direction"@.len() != "backdrop_label_style"@.len());
        reveal_strlit("poster_badge_direction");
        assert("episode_badge_direction"@.len() != "poster_badge_direction"@.len());
        reveal_strlit("poster_badge_size");
        assert("episode_badge_direction"@.len() != "poster_badge_size"@.len());
        reveal_strlit("logo_badge_size");
        assert("episode_badge_direction"@.len() != "logo_badge_size"@.len());
        reveal_strlit("backdrop_badge_size");
        assert("episode_badge_direction"@.len() != "backdrop_badge_size"@.len());
        reveal_strlit("backdrop_position");
        assert("episode_badge_direction"@.len() != "backdrop_position"@.len());
        reveal_strlit("backdrop_badge_direction");
        assert("episode_badge_direction"@.len() != "backdrop_badge_direction"@.len());
        reveal_strlit("episode_ratings_limit");
        assert("episode_badge_direction"@.len() != "episode_ratings_limit"@.len());
        reveal_strlit("episode_badge_style");
        assert("episode_badge_direction"@.len() != "episode_badge_style"@.len());
        reveal_strlit("episode_label_style");
        assert("episode_badge_direction"@.len() != "episode_label_style"@.len());
        reveal_strlit("episode_badge_size");
        assert("episode_badge_direction"@.len() != "episode_badge_size"@.len());
        reveal_strlit("episode_position");
        assert("episode_badge_direction"@.len() != "episode_position"@.len());
    }
    assert(setting_text(req, "episode_blur"@) == Some(bool_text(req.episode_blur))) by {
        reveal_strlit("episode_blur");
        reveal_strlit("image_source");
        assert("episode_blur"@[0] != "image_source"@[0]);
        reveal_strlit("lang");
        assert("episode_blur"@.len() != "lang"@.len());
        reveal_strlit("textless");
        assert("episode_blur"@.len() != "textless"@.len());
        reveal_strlit("ratings_limit");
        assert("episode_blur"@.len() != "ratings_limit"@.len());
        reveal_strlit("ratings_order");
        assert("episode_blur"@.len() != "ratings_order"@.len());
        reveal_strlit("ratings_exclude");
        assert("episode_blur"@.len() != "ratings_exclude"@.len());
        reveal_strlit("poster_position");
        assert("episode_blur"@.len() != "poster_position"@.len());
        reveal_strlit("logo_ratings_limit");
        assert("episode_blur"@.len() != "logo_ratings_limit"@.len());
        reveal_strlit("backdrop_ratings_limit");
        assert("episode_blur"@.len() != "backdrop_ratings_limit"@.len());
        reveal_strlit("poster_badge_style");
        assert("episode_blur"@.len() != "poster_badge_style"@.len());
        reveal_strlit("logo_badge_style");
        assert("episode_blur"@.len() != "logo_badge_style"@.len());
        reveal_strlit("backdrop_badge_style");
        assert("episode_blur"@.len() != "backdrop_badge_style"@.len());
        reveal_strlit("poster_label_style");
        assert("episode_blur"@.len() != "poster_label_style"@.len());
        reveal_strlit("logo_label_style");
        assert("episode_blur"@.len() != "logo_label_style"@.len());
        reveal_strlit("backdrop_label_style");
        assert("episode_blur"@.len() != "backdrop_label_style"@.len());
        reveal_strlit("poster_badge_direction");
        assert("episode_blur"@.len() != "poster_badge_direction"@.len());
        reveal_strlit("poster_badge_size");
        assert("episode_blur"@.len() != "poster_badge_size"@.len());
        reveal_strlit("logo_badge_size");
        assert("episode_blur"@.len() != "logo_badge_size"@.len());
        reveal_strlit("backdrop_badge_size");
        assert("episode_blur"@.len() != "backdrop_badge_size"@.len());
        reveal_strlit("backdrop_position");
        assert("episode_blur"@.len() != "backdrop_position"@.len());
        reveal_strlit("backdrop_badge_direction");
        assert("episode_blur"@.len() != "backdrop_badge_direction"@.len());
        reveal_strlit("episode_ratings_limit");
        assert("episode_blur"@.len() != "episode_ratings_limit"@.len());
        reveal_strlit("episode_badge_style");
        assert("episode_blur"@.len() != "episode_badge_style"@.len());
        reveal_strlit("episode_label_style");
        assert("episode_blur"@.len() != "episode_label_style"@.len());
        reveal_strlit("episode_badge_size");
        assert("episode_blur"@.len() != "episode_badge_size"@.len());
        reveal_strlit("episode_position");
        assert("episode_blur"@.len() != "episode_position"@.len());
        reveal_strlit("episode_badge_direction");
        assert("episode_blur"@.len() != "episode_badge_direction"@.len());
    }
    assert(setting_text(req, "poster_badge_shape"@) == Some(req.poster_badge_shape@)) by {
        reveal_strlit("poster_badge_shape");
        reveal_strlit("image_source");
        assert("poster_badge_shape"@.len() != "image_source"@.len());
        reveal_strlit("lang");
        assert("poster_badge_shape"@.len() != "lang"@.len());
        reveal_strlit("textless");
        assert("poster_badge_shape"@.len() != "textless"@.len());
        reveal_strlit("ratings_limit");
        assert("poster_badge_shape"@.len() != "ratings_limit"@.len());
        reveal_strlit("ratings_order");
        assert("poster_badge_shape"@.len() != "ratings_order"@.len());
        reveal_strlit("ratings_exclude");
        assert("poster_badge_shape"@.len() != "ratings_exclude"@.len());
        reveal_strlit("poster_position");
        assert("poster_badge_shape"@.len() != "poster_position"@.len());
        reveal_strlit("logo_ratings_limit");
        assert("poster_badge_shape"@[0] != "logo_ratings_limit"@[0]);
        reveal_strlit("backdrop_ratings_limit");
        assert("poster_badge_shape"@.len() != "backdrop_ratings_limit"@.len());
        reveal_strlit("poster_badge_style");
        assert("poster_badge_shape"@[14] != "poster_badge_style"@[14]);
        reveal_strlit("logo_badge_style");
        assert("poster_badge_shape"@.len() != "logo_badge_style"@.len());
        reveal_strlit("backdrop_badge_style");
        assert("poster_badge_shape"@.len() != "backdrop_badge_style"@.len());
        reveal_strlit("poster_label_style");
        assert("poster_badge_shape"@[7] != "poster_label_style"@[7]);
        reveal_strlit("logo_label_style");
        assert("poster_badge_shape"@.len() != "logo_label_style"@.len());
        reveal_strlit("backdrop_label_style");
        assert("poster_badge_shape"@.len() != "backdrop_label_style"@.len());
        reveal_strlit("poster_badge_direction");
        assert("poster_badge_shape"@.len() != "poster_badge_direction"@.len());
        reveal_strlit("poster_badge_size");
        assert("poster_badge_shape"@.len() != "poster_badge_size"@.len());
        reveal_strlit("logo_badge_size");
        assert("poster_badge_shape"@.len() != "logo_badge_size"@.len());
        reveal_strlit("backdrop_badge_size");
        assert("poster_badge_shape"@.len() != "backdrop_badge_size"@.len());
        reveal_strlit("backdrop_position");
        assert("poster_badge_shape"@.len() != "backdrop_position"@.len());
        reveal_strlit("backdrop_badge_direction");
        assert("poster_badge_shape"@.len() != "backdrop_badge_direction"@.len());
        reveal_strlit("episode_ratings_limit");
        assert("poster_badge_shape"@.len() != "episode_ratings_limit"@.len());
        reveal_strlit("episode_badge_style");
        assert("poster_badge_shape"@.len() != "episode_badge_style"@.len());
        reveal_strlit("episode_label_style");
        assert("poster_badge_shape"@.len() != "episode_label_style"@.len());
        reveal_strlit("episode_badge_size");
        assert("poster_badge_shape"@[0] != "episode_badge_size"@[0]);
        reveal_strlit("episode_position");
        assert("poster_badge_shape"@.len() != "episode_position"@.len());
        reveal_strlit("episode_badge_direction");
        assert("poster_badge_shape"@.len() != "episode_badge_direction"@.len());
        reveal_strlit("episode_blur");
        assert("poster_badge_shape"@.len() != "episode_blur"@.len());
    }
    assert(setting_text(req, "logo_badge_shape"@) == Some(req.logo_badge_shape@)) by {
        reveal_strlit("logo_badge_shape");
        reveal_strlit("image_source");
        assert("logo_badge_shape"@.len() != "image_source"@.len());
        reveal_strlit("lang");
        assert("logo_badge_shape"@.len() != "lang"@.len());
        reveal_strlit("textless");
        assert("logo_badge_shape"@.len() != "textless"@.len());
        reveal_strlit("ratings_limit");
        assert("logo_badge_shape"@.len() != "ratings_limit"@.len());
        reveal_strlit("ratings_order");
        assert("logo_badge_shape"@.len() != "ratings_order"@.len());
        reveal_strlit("ratings_exclude");
        assert("logo_badge_shape"@.len() != "ratings_exclude"@.len());
        reveal_strlit("poster_position");
        assert("logo_badge_shape"@.len() != "poster_position"@.len());
        reveal_strlit("logo_ratings_limit");
        assert("logo_badge_shape"@.len() != "logo_ratings_limit"@.len());
        reveal_strlit("backdrop_ratings_limit");
        assert("logo_badge_shape"@.len() != "backdrop_ratings_limit"@.len());
        reveal_strlit("poster_badge_style");
        assert("logo_badge_shape"@.len() != "poster_badge_style"@.len());
        reveal_strlit("logo_badge_style");
        assert("logo_badge_shape"@[12] != "logo_badge_style"@[12]);
        reveal_strlit("backdrop_badge_style");
        assert("logo_badge_shape"@.len() != "backdrop_badge_style"@.len());
        reveal_strlit("poster_label_style");
        assert("logo_badge_shape"@.len() != "poster_label_style"@.len());
        reveal_strlit("logo_label_style");
        assert("logo_badge_shape"@[5] != "logo_label_style"@[5]);
        reveal_strlit("backdrop_label_style");
        assert("logo_badge_shape"@.len() != "backdrop_label_style"@.len());
        reveal_strlit("poster_badge_direction");
        assert("logo_badge_shape"@.len() != "poster_badge_direction"@.len());
        reveal_strlit("poster_badge_size");
        assert("logo_badge_shape"@.len() != "poster_badge_size"@.len());
        reveal_strlit("logo_badge_size");
        assert("logo_badge_shape"@.len() != "logo_badge_size"@.len());
        reveal_strlit("backdrop_badge_size");
        assert("logo_badge_shape"@.len() != "backdrop_badge_size"@.len());
        reveal_strlit("backdrop_position");
        assert("logo_badge_shape"@.len() != "backdrop_position"@.len());
        reveal_strlit("backdrop_badge_direction");
        assert("logo_badge_shape"@.len() != "backdrop_badge_direction"@.len());
        reveal_strlit("episode_ratings_limit");
        assert("logo_badge_shape"@.len() != "episode_ratings_limit"@.len());
        reveal_strlit("episode_badge_style");
        assert("logo_badge_shape"@.len() != "episode_badge_style"@.len());
        reveal_strlit("episode_label_style");
        assert("logo_badge_shape"@.len() != "episode_label_style"@.len());
        reveal_strlit("episode_badge_size");
        assert("logo_badge_shape"@.len() != "episode_badge_size"@.len());
        reveal_strlit("episode_position");
        assert("logo_badge_shape"@[0] != "episode_position"@[0]);
        reveal_strlit("episode_badge_direction");
        assert("logo_badge_shape"@.len() != "episode_badge_direction"@.len());
        reveal_strlit("episode_blur");
        assert("logo_badge_shape"@.len() != "episode_blur"@.len());
        reveal_strlit("poster_badge_shape");
        assert("logo_badge_shape"@.len() != "poster_badge_shape"@.len());
    }
    assert(setting_text(req, "backdrop_badge_shape"@) == Some(req.backdrop_badge_shape@)) by {
        reveal_strlit("backdrop_badge_shape");
        reveal_strlit("image_source");
        assert("backdrop_badge_shape"@.len() != "image_source"@.len());
        reveal_strlit("lang");
        assert("backdrop_badge_shape"@.len() != "lang"@.len());
        reveal_strlit("textless");
        assert("backdrop_badge_shape"@.len() != "textless"@.len());
        reveal_strlit("ratings_limit");
        assert("backdrop_badge_shape"@.len() != "ratings_limit"@.len());
        reveal_strlit("ratings_order");
        assert("backdrop_badge_shape"@.len() != "ratings_order"@.len());
        reveal_strlit("ratings_exclude");
        assert("backdrop_badge_shape"@.len() != "ratings_exclude"@.len());
        reveal_strlit("poster_position");
        assert("backdrop_badge_shape"@.len() != "poster_position"@.len());
        reveal_strlit("logo_ratings_limit");
        assert("backdrop_badge_shape"@.len() != "logo_ratings_limit"@.len());
        reveal_strlit("backdrop_ratings_limit");
        assert("backdrop_badge_shape"@.len() != "backdrop_ratings_limit"@.len());
        reveal_strlit("poster_badge_style");
        assert("backdrop_badge_shape"@.len() != "poster_badge_style"@.len());
        reveal_strlit("logo_badge_style");
        assert("backdrop_badge_shape"@.len() != "logo_badge_style"@.len());
        reveal_strlit("backdrop_badge_style");
        assert("backdrop_badge_shape"@[16] != "backdrop_badge_style"@[16]);
        reveal_strlit("poster_label_style");
        assert("backdrop_badge_shape"@.len() != "poster_label_style"@.len());
        reveal_strlit("logo_label_style");
        assert("backdrop_badge_shape"@.len() != "logo_label_style"@.len());
        reveal_strlit("backdrop_label_style");
        assert("backdrop_badge_shape"@[9] != "backdrop_label_style"@[9]);
        reveal_strlit("poster_badge_direction");
        assert("backdrop_badge_shape"@.len() != "poster_badge_direction"@.len());
        reveal_strlit("poster_badge_size");
        assert("backdrop_badge_shape"@.len() != "poster_badge_size"@.len());
        reveal_strlit("logo_badge_size");
        assert("backdrop_badge_shape"@.len() != "logo_badge_size"@.len());
        reveal_strlit("backdrop_badge_size");
        assert("backdrop_badge_shape"@.len() != "backdrop_badge_size"@.len());
        reveal_strlit("backdrop_position");
        assert("backdrop_badge_shape"@.len() != "backdrop_position"@.len());
        reveal_strlit("backdrop_badge_direction");
        assert("backdrop_badge_shape"@.len() != "backdrop_badge_direction"@.len());
        reveal_strlit("episode_ratings_limit");
        assert("backdrop_badge_shape"@.len() != "episode_ratings_limit"@.len());
        reveal_strlit("episode_badge_style");
        assert("backdrop_badge_shape"@.len() != "episode_badge_style"@.len());
        reveal_strlit("episode_label_style");
        assert("backdrop_badge_shape"@.len() != "episode_label_style"@.len());
        reveal_strlit("episode_badge_size");
        assert("backdrop_badge_shape"@.len() != "episode_badge_size"@.len());
        reveal_strlit("episode_position");
        assert("backdrop_badge_shape"@.len() != "episode_position"@.len());
        reveal_strlit("episode_badge_direction");
        assert("backdrop_badge_shape"@.len() != "episode_badge_direction"@.len());
        reveal_strlit("episode_blur");
        assert("backdrop_badge_shape"@.len() != "episode_blur"@.len());
        reveal_strlit("poster_badge_shape");
        assert("backdrop_badge_shape"@.len() != "poster_badge_shape"@.len());
        reveal_strlit("logo_badge_shape");
        assert("backdrop_badge_shape"@.len() != "logo_badge_shape"@.len());
    }
    assert(setting_text(req, "episode_badge_shape"@) == Some(req.episode_badge_shape@)) by {
        reveal_strlit("episode_badge_shape");
        reveal_strlit("image_source");
        assert("episode_badge_shape"@.len() != "image_source"@.len());
        reveal_strlit("lang");
        assert("episode_badge_shape"@.len() != "lang"@.len());
        reveal_strlit("textless");
        assert("episode_badge_shape"@.len() != "textless"@.len());
        reveal_strlit("ratings_limit");
        assert("episode_badge_shape"@.len() != "ratings_limit"@.len());
        reveal_strlit("ratings_order");
        assert("episode_badge_shape"@.len() != "ratings_order"@.len());
        reveal_strlit("ratings_exclude");
        assert("episode_badge_shape"@.len() != "ratings_exclude"@.len());
        reveal_strlit("poster_position");
        assert("episode_badge_shape"@.len() != "poster_position"@.len());
        reveal_strlit("logo_ratings_limit");
        assert("episode_badge_shape"@.len() != "logo_ratings_limit"@.len());
        reveal_strlit("backdrop_ratings_limit");
        assert("episode_badge_shape"@.len() != "backdrop_ratings_limit"@.len());
        reveal_strlit("poster_badge_style");
        assert("episode_badge_shape"@.len() != "poster_badge_style"@.len());
        reveal_strlit("logo_badge_style");
        assert("episode_badge_shape"@.len() != "logo_badge_style"@.len());
        reveal_strlit("backdrop_badge_style");
        assert("episode_badge_shape"@.len() != "backdrop_badge_style"@.len());
        reveal_strlit("poster_label_style");
        assert("episode_badge_shape"@.len() != "poster_label_style"@.len());
        reveal_strlit("logo_label_style");
        assert("episode_badge_shape"@.len() != "logo_label_style"@.len());
        reveal_strlit("backdrop_label_style");
        assert("episode_badge_shape"@.len() != "backdrop_label_style"@.len());
        reveal_strlit("poster_badge_direction");
        assert("episode_badge_shape"@.len() != "poster_badge_direction"@.len());
        reveal_strlit("poster_badge_size");
        assert("episode_badge_shape"@.len() != "poster_badge_size"@.len());
        reveal_strlit("logo_badge_size");
        assert("episode_badge_shape"@.len() != "logo_badge_size"@.len());
        reveal_strlit("backdrop_badge_size");
        assert("episode_badge_shape"@[0] != "backdrop_badge_size"@[0]);
        reveal_strlit("backdrop_position");
        assert("episode_badge_shape"@.len() != "backdrop_position"@.len());
        reveal_strlit("backdrop_badge_direction");
        assert("episode_badge_shape"@.len() != "backdrop_badge_direction"@.len());
        reveal_strlit("episode_ratings_limit");
        assert("episode_badge_shape"@.len() != "episode_ratings_limit"@.len());
        reveal_strlit("episode_badge_style");
        assert("episode_badge_shape"@[15] != "episode_badge_style"@[15]);
        reveal_strlit("episode_label_style");
        assert("episode_badge_shape"@[8] != "episode_label_style"@[8]);
        reveal_strlit("episode_badge_size");
        assert("episode_badge_shape"@.len() != "episode_badge_size"@.len());
        reveal_strlit("episode_position");
        assert("episode_badge_shape"@.len() != "episode_position"@.len());
        reveal_strlit("episode_badge_direction");
        assert("episode_badge_shape"@.len() != "episode_badge_direction"@.len());
        reveal_strlit("episode_blur");
        assert("episode_badge_shape"@.len() != "episode_blur"@.len());
        reveal_strlit("poster_badge_shape");
        assert("episode_badge_shape"@.len() != "poster_badge_shape"@.len());
        reveal_strlit("logo_badge_shape");
        assert("episode_badge_shape"@.len() != "logo_badge_shape"@.len());
        reveal_strlit("backdrop_badge_shape");
        assert("episode_badge_shape"@.len() != "backdrop_badge_shape"@.len());
    }
    assert(setting_text(req, "poster_badge_background"@) == Some(req.poster_badge_background@)) by {
        reveal_strlit("poster_badge_background");
        reveal_strlit("image_source");
        assert("poster_badge_background"@.len() != "image_source"@.len());
        reveal_strlit("lang");
        assert("poster_badge_background"@.len() != "lang"@.len());
        reveal_strlit("textless");
        assert("poster_badge_background"@.len() != "textless"@.len());
        reveal_strlit("ratings_limit");
        assert("poster_badge_background"@.len() != "ratings_limit"@.len());
        reveal_strlit("ratings_order");
        assert("poster_badge_background"@.len() != "ratings_order"@.len());
        reveal_strlit("ratings_exclude");
        assert("poster_badge_background"@.len() != "ratings_exclude"@.len());
        reveal_strlit("poster_position");
        assert("poster_badge_background"@.len() != "poster_position"@.len());
        reveal_strlit("logo_ratings_limit");
        assert("poster_badge_background"@.len() != "logo_ratings_limit"@.len());
        reveal_strlit("backdrop_ratings_limit");
        assert("poster_badge_background"@.len() != "backdrop_ratings_limit"@.len());
        reveal_strlit("poster_badge_style");
        assert("poster_badge_background"@.len() != "poster_badge_style"@.len());
        reveal_strlit("logo_badge_style");
        assert("poster_badge_background"@.len() != "logo_badge_style"@.len());
        reveal_strlit("backdrop_badge_style");
        assert("poster_badge_background"@.len() != "backdrop_badge_style"@.len());
        reveal_strlit("poster_label_style");
        assert("poster_badge_background"@.len() != "poster_label_style"@.len());
        reveal_strlit("logo_label_style");
        assert("poster_badge_background"@.len() != "logo_label_style"@.len());
        reveal_strlit("backdrop_label_style");
        assert("poster_badge_background"@.len() != "backdrop_label_style"@.len());
        reveal_strlit("poster_badge_direction");
        assert("poster_badge_background"@.len() != "poster_badge_direction"@.len());
        reveal_strlit("poster_badge_size");
        assert("poster_badge_background"@.len() != "poster_badge_size"@.len());
        reveal_strlit("logo_badge_size");
        assert("poster_badge_background"@.len() != "logo_badge_size"@.len());
        reveal_strlit("backdrop_badge_size");
        assert("poster_badge_background"@.len() != "backdrop_badge_size"@.len());
        reveal_strlit("backdrop_position");
        assert("poster_badge_background"@.len() != "backdrop_position"@.len());
        reveal_strlit("backdrop_badge_direction");
        assert("poster_badge_background"@.len() != "backdrop_badge_direction"@.len());
        reveal_strlit("episode_ratings_limit");
        assert("poster_badge_background"@.len() != "episode_ratings_limit"@.len());
        reveal_strlit("episode_badge_style");
        assert("poster_badge_background"@.len() != "episode_badge_style"@.len());
        reveal_strlit("episode_label_style");
        assert("poster_badge_background"@.len() != "episode_label_style"@.len());
        reveal_strlit("episode_badge_size");
        assert("poster_badge_background"@.len() != "episode_badge_size"@.len());
        reveal_strlit("episode_position");
        assert("poster_badge_background"@.len() != "episode_position"@.len());
        reveal_strlit("episode_badge_direction");
        assert("poster_badge_background"@[0] != "episode_badge_direction"@[0]);
        reveal_strlit("episode_blur");
        assert("poster_badge_background"@.len() != "episode_blur"@.len());
        reveal_strlit("poster_badge_shape");
        assert("poster_badge_background"@.len() != "poster_badge_shape"@.len());
        reveal_strlit("logo_badge_shape");
        assert("poster_badge_background"@.len() != "logo_badge_shape"@.len());
        reveal_strlit("backdrop_badge_shape");
        assert("poster_badge_background"@.len() != "backdrop_badge_shape"@.len());
        reveal_strlit("episode_badge_shape");
        assert("poster_badge_background"@.len() != "episode_badge_shape"@.len());
    }
    assert(setting_text(req, "logo_badge_background"@) == Some(req.logo_badge_background@)) by {
        reveal_strlit("logo_badge_background");
        reveal_strlit("image_source");
        assert("logo_badge_background"@.len() != "image_source"@.len());
        reveal_strlit("lang");
        assert("logo_badge_background"@.len() != "lang"@.len());
        reveal_strlit("textless");
        assert("logo_badge_background"@.len() != "textless"@.len());
        reveal_strlit("ratings_limit");
        assert("logo_badge_background"@.len() != "ratings_limit"@.len());
        reveal_strlit("ratings_order");
        assert("logo_badge_background"@.len() != "ratings_order"@.len());
        reveal_strlit("ratings_exclude");
        assert("logo_badge_background"@.len() != "ratings_exclude"@.len());
        reveal_strlit("poster_position");
        assert("logo_badge_background"@.len() != "poster_position"@.len());
        reveal_strlit("logo_ratings_limit");
        assert("logo_badge_background"@.len() != "logo_ratings_limit"@.len());
        reveal_strlit("backdrop_ratings_limit");
        assert("logo_badge_background"@.len() != "backdrop_ratings_limit"@.len());
        reveal_strlit("poster_badge_style");
        assert("logo_badge_background"@.len() != "poster_badge_style"@.len());
        reveal_strlit("logo_badge_style");
        assert("logo_badge_background"@.len() != "logo_badge_style"@.len());
        reveal_strlit("backdrop_badge_style");
        assert("logo_badge_background"@.len() != "backdrop_badge_style"@.len());
        reveal_strlit("poster_label_style");
        assert("logo_badge_background"@.len() != "poster_label_style"@.len());
        reveal_strlit("logo_label_style");
        assert("logo_badge_background"@.len() != "logo_label_style"@.len());
        reveal_strlit("backdrop_label_style");
        assert("logo_badge_background"@.len() != "backdrop_label_style"@.len());
        reveal_strlit("poster_badge_direction");
        assert("logo_badge_background"@.len() != "poster_badge_direction"@.len());
        reveal_strlit("poster_badge_size");
        assert("logo_badge_background"@.len() != "poster_badge_size"@.len());
        reveal_strlit("logo_badge_size");
        assert("logo_badge_background"@.len() != "logo_badge_size"@.len());
        reveal_strlit("backdrop_badge_size");
        assert("logo_badge_background"@.len() != "backdrop_badge_size"@.len());
        reveal_strlit("backdrop_position");
        assert("logo_badge_background"@.len() != "backdrop_position"@.len());
        reveal_strlit("backdrop_badge_direction");
        assert("logo_badge_background"@.len() != "backdrop_badge_direction"@.len());
        reveal_strlit("episode_ratings_limit");
        assert("logo_badge_background"@[0] != "episode_ratings_limit"@[0]);
        reveal_strlit("episode_badge_style");
        assert("logo_badge_background"@.len() != "episode_badge_style"@.len());
        reveal_strlit("episode_label_style");
        assert("logo_badge_background"@.len() != "episode_label_style"@.len());
        reveal_strlit("episode_badge_size");
        assert("logo_badge_background"@.len() != "episode_badge_size"@.len());
        reveal_strlit("episode_position");
        assert("logo_badge_background"@.len() != "episode_position"@.len());
        reveal_strlit("episode_badge_direction");
        assert("logo_badge_background"@.len() != "episode_badge_direction"@.len());
        reveal_strlit("episode_blur");
        assert("logo_badge_background"@.len() != "episode_blur"@.len());
        reveal_strlit("poster_badge_shape");
        assert("logo_badge_background"@.len() != "poster_badge_shape"@.len());
        reveal_strlit("logo_badge_shape");
        assert("logo_badge_background"@.len() != "logo_badge_shape"@.len());
        reveal_strlit("backdrop_badge_shape");
        assert("logo_badge_background"@.len() != "backdrop_badge_shape"@.len());
        reveal_strlit("episode_badge_shape");
        assert("logo_badge_background"@.len() != "episode_badge_shape"@.len());
        reveal_strlit("poster_badge_background");
        assert("logo_badge_background"@.len() != "poster_badge_background"@.len());
    }
    assert(setting_text(req, "backdrop_badge_background"@) == Some(req.backdrop_badge_background@)) by {
        reveal_strlit("backdrop_badge_background");
        reveal_strlit("image_source");
        assert("backdrop_badge_background"@.len() != "image_source"@.len());
        reveal_strlit("lang");
        assert("backdrop_badge_background"@.len() != "lang"@.len());
        reveal_strlit("textless");
        assert("backdrop_badge_background"@.len() != "textless"@.len());
        reveal_strlit("ratings_limit");
        assert("backdrop_badge_background"@.len() != "ratings_limit"@.len());
        reveal_strlit("ratings_order");
        assert("backdrop_badge_background"@.len() != "ratings_order"@.len());
        reveal_strlit("ratings_exclude");
        assert("backdrop_badge_background"@.len() != "ratings_exclude"@.len());
        reveal_strlit("poster_position");
        assert("backdrop_badge_background"@.len() != "poster_position"@.len());
        reveal_strlit("logo_ratings_limit");
        assert("backdrop_badge_background"@.len() != "logo_ratings_limit"@.len());
        reveal_strlit("backdrop_ratings_limit");
        assert("backdrop_badge_background"@.len() != "backdrop_ratings_limit"@.len());
        reveal_strlit("poster_badge_style");
        assert("backdrop_badge_background"@.len() != "poster_badge_style"@.len());
        reveal_strlit("logo_badge_style");
        assert("backdrop_badge_background"@.len() != "logo_badge_style"@.len());
        reveal_strlit("backdrop_badge_style");
        assert("backdrop_badge_background"@.len() != "backdrop_badge_style"@.len());
        reveal_strlit("poster_label_style");
        assert("backdrop_badge_background"@.len() != "poster_label_style"@.len());
        reveal_strlit("logo_label_style");
        assert("backdrop_badge_background"@.len() != "logo_label_style"@.len());
        reveal_strlit("backdrop_label_style");
        assert("backdrop_badge_background"@.len() != "backdrop_label_style"@.len());
        reveal_strlit("poster_badge_direction");
        assert("backdrop_badge_background"@.len() != "poster_badge_direction"@.len());
        reveal_strlit("poster_badge_size");
        assert("backdrop_badge_background"@.len() != "poster_badge_size"@.len());
        reveal_strlit("logo_badge_size");
        assert("backdrop_badge_background"@.len() != "logo_badge_size"@.len());
        reveal_strlit("backdrop_badge_size");
        assert("backdrop_badge_background"@.len() != "backdrop_badge_size"@.len());
        reveal_strlit("backdrop_position");
        assert("backdrop_badge_background"@.len() != "backdrop_position"@.len());
        reveal_strlit("backdrop_badge_direction");
        assert("backdrop_badge_background"@.len() != "backdrop_badge_direction"@.len());
        reveal_strlit("episode_ratings_limit");
        assert("backdrop_badge_background"@.len() != "episode_ratings_limit"@.len());
        reveal_strlit("episode_badge_style");
        assert("backdrop_badge_background"@.len() != "episode_badge_style"@.len());
        reveal_strlit("episode_label_style");
        assert("backdrop_badge_background"@.len() != "episode_label_style"@.len());
        reveal_strlit("episode_badge_size");
        assert("backdrop_badge_background"@.len() != "episode_badge_size"@.len());
        reveal_strlit("episode_position");
        assert("backdrop_badge_background"@.len() != "episode_position"@.len());
        reveal_strlit("episode_badge_direction");
        assert("backdrop_badge_background"@.len() != "episode_badge_direction"@.len());
        reveal_strlit("episode_blur");
        assert("backdrop_badge_background"@.len() != "episode_blur"@.len());
        reveal_strlit("poster_badge_shape");
        assert("backdrop_badge_background"@.len() != "poster_badge_shape"@.len());
        reveal_strlit("logo_badge_shape");
        assert("backdrop_badge_background"@.len() != "logo_badge_shape"@.len());
        reveal_strlit("backdrop_badge_shape");
        assert("backdrop_badge_background"@.len() != "backdrop_badge_shape"@.len());
        reveal_strlit("episode_badge_shape");
        assert("backdrop_badge_background"@.len() != "episode_badge_shape"@.len());
        reveal_strlit("poster_badge_background");
        assert("backdrop_badge_background"@.len() != "poster_badge_background"@.len());
        reveal_strlit("logo_badge_background");
        assert("backdrop_badge_background"@.len() != "logo_badge_background"@.len());
    }
    assert(setting_text(req, "episode_badge_background"@) == Some(req.episode_badge_background@)) by {
        reveal_strlit("episode_badge_background");
        reveal_strlit("image_source");
        assert("episode_badge_background"@.len() != "image_source"@.len());
        reveal_strlit("lang");
        assert("episode_badge_background"@.len() != "lang"@.len());
        reveal_strlit("textless");
        assert("episode_badge_background"@.len() != "textless"@.len());
        reveal_strlit("ratings_limit");
        assert("episode_badge_background"@.len() != "ratings_limit"@.len());
        reveal_strlit("ratings_order");
        assert("episode_badge_background"@.len() != "ratings_order"@.len());
        reveal_strlit("ratings_exclude");
        assert("episode_badge_background"@.len() != "ratings_exclude"@.len());
        reveal_strlit("poster_position");
        assert("episode_badge_background"@.len() != "poster_position"@.len());
        reveal_strlit("logo_ratings_limit");
        assert("episode_badge_background"@.len() != "logo_ratings_limit"@.len());
        reveal_strlit("backdrop_ratings_limit");
        assert("episode_badge_background"@.len() != "backdrop_ratings_limit"@.len());
        reveal_strlit("poster_badge_style");
        assert("episode_badge_background"@.len() != "poster_badge_style"@.len());
        reveal_strlit("logo_badge_style");
        assert("episode_badge_background"@.len() != "logo_badge_style"@.len());
        reveal_strlit("backdrop_badge_style");
        assert("episode_badge_background"@.len() != "backdrop_badge_style"@.len());
        reveal_strlit("poster_label_style");
        assert("episode_badge_background"@.len() != "poster_label_style"@.len());
        reveal_strlit("logo_label_style");
        assert("episode_badge_background"@.len() != "logo_label_style"@.len());
        reveal_strlit("backdrop_label_style");
        assert("episode_badge_background"@.len() != "backdrop_label_style"@.len());
        reveal_strlit("poster_badge_direction");
        assert("episode_badge_background"@.len() != "poster_badge_direction"@.len());
        reveal_strlit("poster_badge_size");
        assert("episode_badge_background"@.len() != "poster_badge_size"@.len());
        reveal_strlit("logo_badge_size");
        assert("episode_badge_background"@.len() != "logo_badge_size"@.len());
        reveal_strlit("backdrop_badge_size");
        assert("episode_badge_background"@.len() != "backdrop_badge_size"@.len());
        reveal_strlit("backdrop_position");
        assert("episode_badge_background"@.len() != "backdrop_position"@.len());
        reveal_strlit("backdrop_badge_direction");
        assert("episode_badge_background"@[0] != "backdrop_badge_direction"@[0]);
        reveal_strlit("episode_ratings_limit");
        assert("episode_badge_background"@.len() != "episode_ratings_limit"@.len());
        reveal_strlit("episode_badge_style");
        assert("episode_badge_background"@.len() != "episode_badge_style"@.len());
        reveal_strlit("episode_label_style");
        assert("episode_badge_background"@.len() != "episode_label_style"@.len());
        reveal_strlit("episode_badge_size");
        assert("episode_badge_background"@.len() != "episode_badge_size"@.len());
        reveal_strlit("episode_position");
        assert("episode_badge_background"@.len() != "episode_position"@.len());
        reveal_strlit("episode_badge_direction");
        assert("episode_badge_background"@.len() != "episode_badge_direction"@.len());
        reveal_strlit("episode_blur");
        assert("episode_badge_background"@.len() != "episode_blur"@.len());
        reveal_strlit("poster_badge_shape");
        assert("episode_badge_background"@.len() != "poster_badge_shape"@.len());
        reveal_strlit("logo_badge_shape");
        assert("episode_badge_background"@.len() != "logo_badge_shape"@.len());
        reveal_strlit("backdrop_badge_shape");
        assert("episode_badge_background"@.len() != "backdrop_badge_shape"@.len());
        reveal_strlit("episode_badge_shape");
        assert("episode_badge_background"@.len() != "episode_badge_shape"@.len());
        reveal_strlit("poster_badge_background");
        assert("episode_badge_background"@.len() != "poster_badge_background"@.len());
        reveal_strlit("logo_badge_background");
        assert("episode_badge_background"@.len() != "logo_badge_background"@.len());
        reveal_strlit("backdrop_badge_background");
        assert("episode_badge_background"@.len() != "backdrop_badge_background"@.len());
    }
    assert(setting_text(req, "free_api_key_enabled"@) == match req.free_api_key_enabled {
        Some(b) => Some(bool_text(b)),
        None => None,
    }) by {
        reveal_strlit("free_api_key_enabled");
        reveal_strlit("image_source");
        assert("free_api_key_enabled"@.len() != "image_source"@.len());
        reveal_strlit("lang");
        assert("free_api_key_enabled"@.len() != "lang"@.len());
        reveal_strlit("textless");
        assert("free_api_key_enabled"@.len() != "textless"@.len());
        reveal_strlit("ratings_limit");
        assert("free_api_key_enabled"@.len() != "ratings_limit"@.len());
        reveal_strlit("ratings_order");
        assert("free_api_key_enabled"@.len() != "ratings_order"@.len());
        reveal_strlit("ratings_exclude");
        assert("free_api_key_enabled"@.len() != "ratings_exclude"@.len());
        reveal_strlit("poster_position");
        assert("free_api_key_enabled"@.len() != "poster_position"@.len());
        reveal_strlit("logo_ratings_limit");
        assert("free_api_key_enabled"@.len() != "logo_ratings_limit"@.len());
        reveal_strlit("backdrop_ratings_limit");
        assert("free_api_key_enabled"@.len() != "backdrop_ratings_limit"@.len());
        reveal_strlit("poster_badge_style");
        assert("free_api_key_enabled"@.len() != "poster_badge_style"@.len());
        reveal_strlit("logo_badge_style");
        assert("free_api_key_enabled"@.len() != "logo_badge_style"@.len());
        reveal_strlit("backdrop_badge_style");
        assert("free_api_key_enabled"@[0] != "backdrop_badge_style"@[0]);
        reveal_strlit("poster_label_style");
        assert("free_api_key_enabled"@.len() != "poster_label_style"@.len());
        reveal_strlit("logo_label_style");
        assert("free_api_key_enabled"@.len() != "logo_label_style"@.len());
        reveal_strlit("backdrop_label_style");
        assert("free_api_key_enabled"@[0] != "backdrop_label_style"@[0]);
        reveal_strlit("poster_badge_direction");
        assert("free_api_key_enabled"@.len() != "poster_badge_direction"@.len());
        reveal_strlit("poster_badge_size");
        assert("free_api_key_enabled"@.len() != "poster_badge_size"@.len());
        reveal_strlit("logo_badge_size");
        assert("free_api_key_enabled"@.len() != "logo_badge_size"@.len());
        reveal_strlit("backdrop_badge_size");
        assert("free_api_key_enabled"@.len() != "backdrop_badge_size"@.len());
        reveal_strlit("backdrop_position");
        assert("free_api_key_enabled"@.len() != "backdrop_position"@.len());
        reveal_strlit("backdrop_badge_direction");
        assert("free_api_key_enabled"@.len() != "backdrop_badge_direction"@.len());
        reveal_strlit("episode_ratings_limit");
        assert("free_api_key_enabled"@.len() != "episode_ratings_limit"@.len());
        reveal_strlit("episode_badge_style");
        assert("free_api_key_enabled"@.len() != "episode_badge_style"@.len());
        reveal_strlit("episode_label_style");
        assert("free_api_key_enabled"@.len() != "episode_label_style"@.len());
        reveal_strlit("episode_badge_size");
        assert("free_api_key_enabled"@.len() != "episode_badge_size"@.len());
        reveal_strlit("episode_position");
        assert("free_api_key_enabled"@.len() != "episode_position"@.len());
        reveal_strlit("episode_badge_direction");
        assert("free_api_key_enabled"@.len() != "episode_badge_direction"@.len());
        reveal_strlit("episode_blur");
        assert("free_api_key_enabled"@.len() != "episode_blur"@.len());
        reveal_strlit("poster_badge_shape");
        assert("free_api_key_enabled"@.len() != "poster_badge_shape"@.len());
        reveal_strlit("logo_badge_shape");
        assert("free_api_key_enabled"@.len() != "logo_badge_shape"@.len());
        reveal_strlit("backdrop_badge_shape");
        assert("free_api_key_enabled"@[0] != "backdrop_badge_shape"@[0]);
        reveal_strlit("episode_badge_shape");
        assert("free_api_key_enabled"@.len() != "episode_badge_shape"@.len());
        reveal_strlit("poster_badge_background");
        assert("free_api_key_enabled"@.len() != "poster_badge_background"@.len());
        reveal_strlit("logo_badge_background");
        assert("free_api_key_enabled"@.len() != "logo_badge_background"@.len());
        reveal_strlit("backdrop_badge_background");
        assert("free_api_key_enabled"@.len() != "backdrop_badge_background"@.len());
        reveal_strlit("episode_badge_background");
        assert("free_api_key_enabled"@.len() != "episode_badge_background"@.len());
    }
}

/// Every stored pair holds the request's value for the setting the pair is
/// named after: no setting is stored under another's name, and none takes
/// another's value.
pub proof fn lemma_batch_stores_each_setting(req: UpdateGlobalSettingsRequest, free_key_locked: bool)
    ensures
        forall|i: int|
            0 <= i < settings_batch_spec(req, free_key_locked).len() ==> setting_text(
                req,
                (#[trigger] settings_batch_spec(req, free_key_locked)[i]).0,
            ) == Some(settings_batch_spec(req, free_key_locked)[i].1),
{
    lemma_setting_text_of_keys(req);
    let fixed = batch_general(req) + batch_styles(req) + batch_episode(req) + batch_look(req);
    assert(fixed.len() == 36);
        assert(fixed[0] == ("image_source"@, req.image_source@));
        assert(fixed[1] == ("lang"@, req.lang@));
        assert(fixed[2] == ("textless"@, bool_text(req.textless)));
        assert(fixed[3] == ("ratings_limit"@, signed_decimal(req.ratings_limit as int)));
        assert(fixed[4] == ("ratings_order"@, req.ratings_order@));
        assert(fixed[5] == ("ratings_exclude"@, req.ratings_exclude@));
        assert(fixed[6] == ("poster_position"@, req.poster_position@));
        assert(fixed[7] == ("logo_ratings_limit"@, signed_decimal(req.logo_ratings_limit as int)));
        assert(fixed[8] == ("backdrop_ratings_limit"@, signed_decimal(req.backdrop_ratings_limit as int)));
        assert(fixed[9] == ("poster_badge_style"@, req.poster_badge_style@));
        assert(fixed[10] == ("logo_badge_style"@, req.logo_badge_style@));
        assert(fixed[11] == ("backdrop_badge_style"@, req.backdrop_badge_style@));
        assert(fixed[12] == ("poster_label_style"@, req.poster_label_style@));
        assert(fixed[13] == ("logo_label_style"@, req.logo_label_style@));
        assert(fixed[14] == ("backdrop_label_style"@, req.backdrop_label_style@));
        assert(fixed[15] == ("poster_badge_direction"@, req.poster_badge_direction@));
        assert(fixed[16] == ("poster_badge_size"@, req.poster_badge_size@));
        assert(fixed[17] == ("logo_badge_size"@, req.logo_badge_size@));
        assert(fixed[18] == ("backdrop_badge_size"@, req.backdrop_badge_size@));
        assert(fixed[19] == ("backdrop_position"@, req.backdrop_position@));
        assert(fixed[20] == ("backdrop_badge_direction"@, req.backdrop_badge_direction@));
        assert(fixed[21] == ("episode_ratings_limit"@, signed_decimal(req.episode_ratings_limit as int)));
        assert(fixed[22] == ("episode_badge_style"@, req.episode_badge_style@));
        assert(fixed[23] == ("episode_label_style"@, req.episode_label_style@));
        assert(fixed[24] == ("episode_badge_size"@, req.episode_badge_size@));
        assert(fixed[25] == ("episode_position"@, req.episode_position@));
        assert(fixed[26] == ("episode_badge_direction"@, req.episode_badge_direction@));
        assert(fixed[27] == ("episode_blur"@, bool_text(req.episode_blur)));
        assert(fixed[28] == ("poster_badge_shape"@, req.poster_badge_shape@));
        assert(fixed[29] == ("logo_badge_shape"@, req.logo_badge_shape@));
        assert(fixed[30] == ("backdrop_badge_shape"@, req.backdrop_badge_shape@));
        assert(fixed[31] == ("episode_badge_shape"@, req.episode_badge_shape@));
        assert(fixed[32] == ("poster_badge_background"@, req.poster_badge_background@));
        assert(fixed[33] == ("logo_badge_background"@, req.logo_badge_background@));
        assert(fixed[34] == ("backdrop_badge_background"@, req.backdrop_badge_background@));
        assert(fixed[35] == ("episode_badge_background"@, req.episode_badge_background@));
    let b = settings_batch_spec(req, free_key_locked);
    assert forall|i: int| 0 <= i < b.len() implies setting_text(req, (#[trigger] b[i]).0) == Some(b[i].1) by {
        if i < 36 {
            assert(b[i] == fixed[i]);
        }
    }
}

} // verus!
