//! Decisions taken while rendering an image: where the base poster comes
//! from, how many badges share a row, and how badges split across two sides.

use vstd::prelude::*;

verus! {

/// Spacing between badges in a row, before scaling.
pub const BADGE_SPACING: u32 = 10;
/// Margin below a bottom-anchored group, before scaling.
pub const BADGE_BOTTOM_MARGIN: u32 = 10;
/// Margin above a top-anchored group, before scaling.
pub const BADGE_TOP_MARGIN: u32 = 20;
/// Margin beside a left- or right-anchored group on posters and episodes,
/// before scaling.
pub const BADGE_SIDE_MARGIN: u32 = 15;
/// Spacing between rows, before scaling.
pub const BADGE_ROW_SPACING: u32 = 7;
/// Spacing between badges of a vertical stack, before scaling.
pub const BADGE_VERT_SPACING: u32 = 7;
/// Margin beside a left- or right-anchored group on backdrops, before scaling.
pub const BACKDROP_SIDE_MARGIN: u32 = 20;
/// Horizontal badges per row at the default sizes.
pub const MAX_BADGES_PER_ROW: usize = 3;
/// Vertical badges per row at the default sizes.
pub const MAX_VERT_BADGES_PER_ROW: usize = 5;
/// Spacing between rows below a logo, before scaling.
pub const LOGO_BADGE_ROW_SPACING: u32 = 7;
/// Spacing between badges below a logo, before scaling.
pub const LOGO_BADGE_SPACING: u32 = 10;
/// Horizontal badges per row below a logo.
pub const LOGO_MAX_BADGES_PER_ROW: usize = 3;
/// Gap between a logo and the badges below it, before scaling.
pub const LOGO_SPACING_BELOW: u32 = 15;

/// Where the base poster's bytes come from.
#[derive(Debug, Clone, Copy, PartialEq, Eq, Structural)]
pub enum PosterSource {
    /// Bytes handed in by the caller.
    Override,
    /// Download from TMDB; `store` tells whether to write them to the cache.
    Download { store: bool },
    /// The cached copy, still fresh.
    Cached,
    /// The cached copy is stale: ask TMDB whether it changed since it was
    /// written, and keep the cached bytes if not.
    Revalidate,
}

/// Decides where the base poster comes from: bytes handed in first; with an
/// external cache only, always a download that is not stored; otherwise the
/// local cache, revalidated when stale, or a download that is stored.
/// `cached` is `None` when nothing is cached, else whether the copy is stale.
pub fn poster_source(has_override: bool, external_cache_only: bool, cached: Option<bool>) -> (s: PosterSource)
    ensures
        has_override ==> s == PosterSource::Override,
        !has_override && external_cache_only ==> s == (PosterSource::Download { store: false }),
        !has_override && !external_cache_only ==> s == match cached {
            None => PosterSource::Download { store: true },
            Some(true) => PosterSource::Revalidate,
            Some(false) => PosterSource::Cached,
        },
{
    if has_override {
        PosterSource::Override
    } else if external_cache_only {
        PosterSource::Download { store: false }
    } else {
        match cached {
            None => PosterSource::Download { store: true },
            Some(true) => PosterSource::Revalidate,
            Some(false) => PosterSource::Cached,
        }
    }
}

/// How many badges share a row: large and extra-large badges fit 2 per row
/// in the horizontal style and 4 otherwise; at other sizes vertical styles
/// fit 5 and the others 3.
pub fn badges_per_row(large: bool, horizontal_style: bool, vertical_style: bool) -> (n: usize)
    ensures
        large ==> n == if horizontal_style {
            2usize
        } else {
            4usize
        },
        !large ==> n == if vertical_style {
            MAX_VERT_BADGES_PER_ROW
        } else {
            MAX_BADGES_PER_ROW
        },
        n > 0,
{
    if large {
        if horizontal_style {
            2
        } else {
            4
        }
    } else if vertical_style {
        MAX_VERT_BADGES_PER_ROW
    } else {
        MAX_BADGES_PER_ROW
    }
}

/// Where a set of `n` badges is split across two opposite sides: only when
/// splitting is asked for and there are at least two badges, after the first
/// half (rounded up), which keeps the configured side.
pub fn split_point(split: bool, n: usize) -> (r: Option<usize>)
    ensures
        (split && n >= 2) ==> r == Some(((n + 1) / 2) as usize),
        !(split && n >= 2) ==> r is None,
        r matches Some(m) ==> 0 < m < n,
{
    if split && n >= 2 {
        Some(n / 2 + n % 2)
    } else {
        None
    }
}

} // verus!
