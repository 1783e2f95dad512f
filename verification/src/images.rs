//! Choosing among the images TMDB lists for a title (posters, logos,
//! backdrops) by language, region, aspect ratio and votes.

use crate::text::str_eq;
use vstd::prelude::*;

verus! {

/// One image TMDB lists for a title. Votes are compared by `vote_key`, which
/// orders as TMDB's vote averages do; `near_poster_ratio` tells whether the
/// image's aspect ratio is known and within tolerance of the 2:3 poster ratio.
#[derive(Debug)]
pub struct TmdbImage {
    pub file_path: String,
    pub iso_639_1: Option<String>,
    pub iso_3166_1: Option<String>,
    pub vote_key: u64,
    pub near_poster_ratio: bool,
}

/// Whether an image is in the language tier `lang` (`None`: no language, i.e.
/// textless) and, when `region` is given, in that region.
pub open spec fn in_tier(img: TmdbImage, lang: Option<Seq<char>>, region: Option<Seq<char>>) -> bool {
    &&& match lang {
        None => img.iso_639_1 is None,
        Some(l) => img.iso_639_1 matches Some(s) && s@ == l,
    }
    &&& match region {
        None => true,
        Some(r) => img.iso_3166_1 matches Some(c) && c@ == r,
    }
}

/// Whether `a` ranks below `b`: images near the poster ratio first (when that
/// is preferred), then by votes.
pub open spec fn ranks_below(a: TmdbImage, b: TmdbImage, prefer_ratio: bool) -> bool {
    let sa = prefer_ratio && a.near_poster_ratio;
    let sb = prefer_ratio && b.near_poster_ratio;
    (!sa && sb) || (sa == sb && a.vote_key < b.vote_key)
}

/// The best image of a tier: the highest ranked, the last of equally ranked
/// ones.
pub open spec fn best_in(
    imgs: Seq<TmdbImage>,
    lang: Option<Seq<char>>,
    region: Option<Seq<char>>,
    prefer_ratio: bool,
) -> Option<int>
    decreases imgs.len(),
{
    if imgs.len() == 0 {
        None
    } else {
        let last = imgs.len() - 1;
        let prev = best_in(imgs.drop_last(), lang, region, prefer_ratio);
        if !in_tier(imgs[last], lang, region) {
            prev
        } else {
            match prev {
                None => Some(last),
                Some(b) => if ranks_below(imgs[last], imgs[b], prefer_ratio) {
                    Some(b)
                } else {
                    Some(last)
                },
            }
        }
    }
}

/// The image chosen for a request: textless requests, and requests without a
/// language, take the best textless image; otherwise the best image of the
/// exact language and region (when the language names one), else of the base
/// language, else of English (unless the base language is English), else
/// none.
pub open spec fn select_spec(
    imgs: Seq<TmdbImage>,
    lang: Seq<char>,
    base: Seq<char>,
    region: Option<Seq<char>>,
    textless: bool,
    prefer_ratio: bool,
) -> Option<int> {
    if textless || lang.len() == 0 {
        best_in(imgs, None, None, prefer_ratio)
    } else {
        let regional = match region {
            Some(r) => best_in(imgs, Some(base), Some(r), prefer_ratio),
            None => None,
        };
        if regional is Some {
            regional
        } else if best_in(imgs, Some(base), None, prefer_ratio) is Some {
            best_in(imgs, Some(base), None, prefer_ratio)
        } else if base != "en"@ {
            best_in(imgs, Some("en"@), None, prefer_ratio)
        } else {
            None
        }
    }
}

fn opt_str_is(v: &Option<String>, target: Option<&str>) -> (r: bool)
    ensures
        r == match target {
            None => v is None,
            Some(t) => v matches Some(s) && s@ == t@,
        },
{
    match (v, target) {
        (None, None) => true,
        (Some(s), Some(t)) => str_eq(s.as_str(), t),
        _ => false,
    }
}

fn best_index(images: &Vec<TmdbImage>, lang: Option<&str>, region: Option<&str>, prefer_ratio: bool) -> (r: Option<usize>)
    ensures
        match best_in(
            images@,
            match lang {
                Some(l) => Some(l@),
                None => None,
            },
            match region {
                Some(c) => Some(c@),
                None => None,
            },
            prefer_ratio,
        ) {
            Some(b) => r == Some(b as usize) && 0 <= b < images.len(),
            None => r is None,
        },
{
    let ghost gl = match lang {
        Some(l) => Some(l@),
        None => None,
    };
    let ghost gr = match region {
        Some(c) => Some(c@),
        None => None,
    };
    let mut best: Option<usize> = None;
    let mut i: usize = 0;
    while i < images.len()
        invariant
            i <= images.len(),
            gl == match lang {
                Some(l) => Some(l@),
                None => None::<Seq<char>>,
            },
            gr == match region {
                Some(c) => Some(c@),
                None => None::<Seq<char>>,
            },
            match best_in(images@.take(i as int), gl, gr, prefer_ratio) {
                Some(b) => best == Some(b as usize) && 0 <= b < i,
                None => best is None,
            },
        decreases images.len() - i,
    {
        assert(images@.take(i + 1).drop_last() =~= images@.take(i as int));
        let img = &images[i];
        let lang_ok = opt_str_is(&img.iso_639_1, lang);
        let region_ok = match region {
            None => true,
            Some(c) => opt_str_is(&img.iso_3166_1, Some(c)),
        };
        assert((lang_ok && region_ok) == in_tier(images@[i as int], gl, gr));
        if lang_ok && region_ok {
            match best {
                None => {
                    best = Some(i);
                },
                Some(b) => {
                    let sa = prefer_ratio && img.near_poster_ratio;
                    let sb = prefer_ratio && images[b].near_poster_ratio;
                    let below = (!sa && sb) || (sa == sb && img.vote_key < images[b].vote_key);
                    if !below {
                        best = Some(i);
                    }
                },
            }
        }
        i = i + 1;
    }
    assert(images@.take(images.len() as int) =~= images@);
    best
}

/// Picks an image for a request in the language `lang` (whose base language
/// and region are `base` and `region`, e.g. `pt` and `BR` for `pt-BR`),
/// ranking near-2:3 images first when `prefer_poster_ratio` holds.
pub fn select_image_ranked(
    images: &Vec<TmdbImage>,
    lang: &str,
    base: &str,
    region: Option<&str>,
    textless: bool,
    prefer_poster_ratio: bool,
) -> (r: Option<usize>)
    ensures
        match select_spec(
            images@,
            lang@,
            base@,
            match region {
                Some(c) => Some(c@),
                None => None,
            },
            textless,
            prefer_poster_ratio,
        ) {
            Some(b) => r == Some(b as usize) && 0 <= b < images.len(),
            None => r is None,
        },
{
    proof {
        reveal_strlit("en");
    }
    if textless || lang.unicode_len() == 0 {
        return best_index(images, None, None, prefer_poster_ratio);
    }
    if let Some(c) = region {
        let regional = best_index(images, Some(base), Some(c), prefer_poster_ratio);
        if regional.is_some() {
            return regional;
        }
    }
    let by_base = best_index(images, Some(base), None, prefer_poster_ratio);
    if by_base.is_some() {
        return by_base;
    }
    if !str_eq(base, "en") {
        return best_index(images, Some("en"), None, prefer_poster_ratio);
    }
    None
}

/// Picks the best image for a language (logos, backdrops): ranking by votes
/// only.
pub fn select_image(images: &Vec<TmdbImage>, lang: &str, base: &str, region: Option<&str>, textless: bool) -> (r: Option<usize>)
    ensures
        match select_spec(
            images@,
            lang@,
            base@,
            match region {
                Some(c) => Some(c@),
                None => None,
            },
            textless,
            false,
        ) {
            Some(b) => r == Some(b as usize) && 0 <= b < images.len(),
            None => r is None,
        },
{
    select_image_ranked(images, lang, base, region, textless, false)
}

/// Picks the best poster for a language: within each language tier, posters
/// near the standard 2:3 ratio come before any other, then votes decide.
pub fn select_poster(images: &Vec<TmdbImage>, lang: &str, base: &str, region: Option<&str>, textless: bool) -> (r: Option<usize>)
    ensures
        match select_spec(
            images@,
            lang@,
            base@,
            match region {
                Some(c) => Some(c@),
                None => None,
            },
            textless,
            true,
        ) {
            Some(b) => r == Some(b as usize) && 0 <= b < images.len(),
            None => r is None,
        },
{
    select_image_ranked(images, lang, base, region, textless, true)
}

/// The chosen image of a tier is in the tier, ranks at least as high as
/// every image of the tier, and (when preferring the poster ratio) is near
/// that ratio whenever some image of the tier is.
pub proof fn lemma_best_in_is_best(
    imgs: Seq<TmdbImage>,
    lang: Option<Seq<char>>,
    region: Option<Seq<char>>,
    prefer_ratio: bool,
)
    ensures
        match best_in(imgs, lang, region, prefer_ratio) {
            Some(b) => 0 <= b < imgs.len() && in_tier(imgs[b], lang, region) && (forall|j: int|
                0 <= j < imgs.len() && in_tier(#[trigger] imgs[j], lang, region) ==> !ranks_below(
                    imgs[b],
                    imgs[j],
                    prefer_ratio,
                )),
            None => forall|j: int| 0 <= j < imgs.len() ==> !in_tier(#[trigger] imgs[j], lang, region),
        },
    decreases imgs.len(),
{
    if imgs.len() > 0 {
        let prefix = imgs.drop_last();
        let last = imgs.len() - 1;
        lemma_best_in_is_best(prefix, lang, region, prefer_ratio);
        assert forall|j: int| 0 <= j < prefix.len() implies #[trigger] prefix[j] == imgs[j] by {}
        if in_tier(imgs[last], lang, region) {
            match best_in(prefix, lang, region, prefer_ratio) {
                None => {
                    assert forall|j: int| 0 <= j < imgs.len() && in_tier(#[trigger] imgs[j], lang, region) implies !ranks_below(
                        imgs[last],
                        imgs[j],
                        prefer_ratio,
                    ) by {
                        if j < last {
                            assert(prefix[j] == imgs[j]);
                        }
                    }
                },
                Some(b) => {
                    assert(prefix[b] == imgs[b]);
                    if ranks_below(imgs[last], imgs[b], prefer_ratio) {
                        assert forall|j: int| 0 <= j < imgs.len() && in_tier(#[trigger] imgs[j], lang, region) implies !ranks_below(
                            imgs[b],
                            imgs[j],
                            prefer_ratio,
                        ) by {
                            if j < last {
                                assert(prefix[j] == imgs[j]);
                            }
                        }
                    } else {
                        assert forall|j: int| 0 <= j < imgs.len() && in_tier(#[trigger] imgs[j], lang, region) implies !ranks_below(
                            imgs[last],
                            imgs[j],
                            prefer_ratio,
                        ) by {
                            if j < last {
                                assert(prefix[j] == imgs[j]);
                                assert(!ranks_below(imgs[b], imgs[j], prefer_ratio));
                            }
                        }
                    }
                },
            }
        } else {
            match best_in(prefix, lang, region, prefer_ratio) {
                None => {
                    assert forall|j: int| 0 <= j < imgs.len() implies !in_tier(#[trigger] imgs[j], lang, region) by {
                        if j < last {
                            assert(prefix[j] == imgs[j]);
                        }
                    }
                },
                Some(b) => {
                    assert(prefix[b] == imgs[b]);
                    assert forall|j: int| 0 <= j < imgs.len() && in_tier(#[trigger] imgs[j], lang, region) implies !ranks_below(
                        imgs[b],
                        imgs[j],
                        prefer_ratio,
                    ) by {
                        if j < last {
                            assert(prefix[j] == imgs[j]);
                        }
                    }
                },
            }
        }
    }
}

/// Textless requests, and requests without a language, only ever get a
/// textless image; any other request only ever gets an image in its base
/// language or in English, never a textless one.
pub proof fn lemma_select_respects_language(
    imgs: Seq<TmdbImage>,
    lang: Seq<char>,
    base: Seq<char>,
    region: Option<Seq<char>>,
    textless: bool,
    prefer_ratio: bool,
)
    ensures
        select_spec(imgs, lang, base, region, textless, prefer_ratio) matches Some(b) ==> {
            &&& 0 <= b < imgs.len()
            &&& (textless || lang.len() == 0) ==> imgs[b].iso_639_1 is None
            &&& !(textless || lang.len() == 0) ==> (imgs[b].iso_639_1 matches Some(s) && (s@ == base || s@
                == "en"@))
        },
{
    lemma_best_in_is_best(imgs, None, None, prefer_ratio);
    lemma_best_in_is_best(imgs, Some(base), None, prefer_ratio);
    lemma_best_in_is_best(imgs, Some("en"@), None, prefer_ratio);
    if let Some(r) = region {
        lemma_best_in_is_best(imgs, Some(base), Some(r), prefer_ratio);
    }
}

/// For posters, an image near the 2:3 ratio always wins over an image that
/// is not, whatever their votes, within the chosen language tier.
pub proof fn lemma_poster_ratio_first(imgs: Seq<TmdbImage>, lang: Option<Seq<char>>, region: Option<Seq<char>>, j: int)
    requires
        0 <= j < imgs.len(),
        in_tier(imgs[j], lang, region),
        imgs[j].near_poster_ratio,
    ensures
        best_in(imgs, lang, region, true) matches Some(b) && imgs[b].near_poster_ratio,
{
    lemma_best_in_is_best(imgs, lang, region, true);
}

/// The path of a title's image list: `/{movie|tv}/{id}/images`.
pub fn images_path(media_type: &str, tmdb_id: u64) -> (p: String)
    ensures
        p@ == "/"@ + media_type@ + "/"@ + crate::text::decimal(tmdb_id as nat) + "/images"@,
{
    let mut p = String::from_str("/");
    p.append(media_type);
    p.append("/");
    crate::text::push_decimal(&mut p, tmdb_id);
    p.append("/images");
    p
}

/// The `include_image_language` value of an image-list request: the base
/// language and textless images (`null`), or only textless ones when no
/// language is asked for.
pub fn include_image_language(base: &str) -> (v: String)
    ensures
        base@.len() == 0 ==> v@ == "null"@,
        base@.len() > 0 ==> v@ == base@ + ",null"@,
{
    if base.unicode_len() == 0 {
        String::from_str("null")
    } else {
        let mut v = base.to_owned();
        v.append(",null");
        v
    }
}

} // verus!
