//! The colour and shape rules of rating badges: section colours per background
//! mode, drop-shadow offsets, corner radii, and the 2:3 poster frame height.

use crate::ratings::{source_color, RatingSource};
use vstd::prelude::*;

verus! {

/// Badge outline: rounded rectangle or fully rounded pill.
#[derive(Debug, Clone, Copy, PartialEq, Eq, Structural)]
pub enum BadgeShape {
    Rounded,
    Pill,
}

/// Badge background mode.
#[derive(Debug, Clone, Copy, PartialEq, Eq, Structural)]
pub enum BadgeBackground {
    /// Source-coloured label section, dark value section.
    Default,
    /// Dark label and value sections.
    Dark,
    /// Like `Default`, but translucent.
    Transparent,
    /// No background: content drawn straight on the artwork, with a drop shadow.
    NoBackground,
}

/// How a badge's source is shown.
#[derive(Debug, Clone, Copy, PartialEq, Eq, Structural)]
pub enum LabelStyle {
    /// A short text label such as `IMDb`.
    Text,
    /// The source's icon.
    Icon,
    /// The source's official logo, on a dark chip.
    Official,
}

impl LabelStyle {
    /// Whether the label is drawn as an image rather than text.
    pub fn uses_icon(&self) -> (r: bool)
        ensures
            r == (*self != LabelStyle::Text),
    {
        match self {
            LabelStyle::Text => false,
            _ => true,
        }
    }
}

/// The dark fill used behind values (and official logos).
pub open spec fn dark_bg() -> Seq<u8> {
    seq![0u8, 0u8, 0u8, 200u8]
}

/// The alpha of translucent backgrounds, so the artwork shows through.
pub open spec fn transparent_alpha() -> u8 {
    120
}

/// `c` with its alpha replaced by `a`.
pub open spec fn with_alpha_spec(c: Seq<u8>, a: u8) -> Seq<u8> {
    c.update(3, a)
}

/// Returns `c` with its alpha channel replaced by `a`.
pub fn with_alpha(c: [u8; 4], a: u8) -> (r: [u8; 4])
    ensures
        r@ == with_alpha_spec(c@, a),
{
    let r = [c[0], c[1], c[2], a];
    assert(r@ =~= with_alpha_spec(c@, a));
    r
}

fn dark() -> (c: [u8; 4])
    ensures
        c@ == dark_bg(),
{
    let c = [0u8, 0u8, 0u8, 200u8];
    assert(c@ =~= dark_bg());
    c
}

/// The (label, value) fills of a badge for a background mode, or none when the
/// badge has no background. The label section takes the source colour, except
/// official logos, which always sit on the dark fill.
pub open spec fn section_colors_spec(
    background: BadgeBackground,
    label_style: LabelStyle,
    source: RatingSource,
) -> Option<(Seq<u8>, Seq<u8>)> {
    let base_label = if label_style == LabelStyle::Official {
        dark_bg()
    } else {
        source_color(source)
    };
    match background {
        BadgeBackground::Default => Some((base_label, dark_bg())),
        BadgeBackground::Dark => Some((dark_bg(), dark_bg())),
        BadgeBackground::Transparent => Some(
            (with_alpha_spec(base_label, transparent_alpha()), with_alpha_spec(dark_bg(), transparent_alpha())),
        ),
        BadgeBackground::NoBackground => None,
    }
}

/// Background fill colours for the (label, value) sections of a badge.
pub fn section_colors(background: BadgeBackground, label_style: LabelStyle, source: &RatingSource) -> (r: Option<([u8; 4], [u8; 4])>)
    ensures
        match section_colors_spec(background, label_style, *source) {
            Some((l, v)) => r matches Some((rl, rv)) && rl@ == l && rv@ == v,
            None => r is None,
        },
{
    let base_label = match label_style {
        LabelStyle::Official => dark(),
        _ => source.color(),
    };
    match background {
        BadgeBackground::Default => Some((base_label, dark())),
        BadgeBackground::Dark => Some((dark(), dark())),
        BadgeBackground::Transparent => Some((with_alpha(base_label, 120), with_alpha(dark(), 120))),
        BadgeBackground::NoBackground => None,
    }
}

/// The single fill of an overlay cell (quality tier, language), mirroring the
/// value section of rating badges.
pub open spec fn overlay_background_spec(background: BadgeBackground) -> Option<Seq<u8>> {
    match background {
        BadgeBackground::Default | BadgeBackground::Dark => Some(dark_bg()),
        BadgeBackground::Transparent => Some(with_alpha_spec(dark_bg(), transparent_alpha())),
        BadgeBackground::NoBackground => None,
    }
}

/// Single-fill background for an overlay cell.
pub fn overlay_background(background: BadgeBackground) -> (r: Option<[u8; 4]>)
    ensures
        match overlay_background_spec(background) {
            Some(c) => r matches Some(rc) && rc@ == c,
            None => r is None,
        },
{
    match background {
        BadgeBackground::Default | BadgeBackground::Dark => Some(dark()),
        BadgeBackground::Transparent => Some(with_alpha(dark(), 120)),
        BadgeBackground::NoBackground => None,
    }
}

/// `d / 29` rounded to the nearest integer (halves cannot occur).
pub open spec fn div29_rounded(d: nat) -> nat {
    (2 * d + 29) / 58
}

/// Drop-shadow offset (px) for content drawn without a background: the badge
/// dimension divided by 29, rounded, and at least 1. No shadow when the badge
/// has a background. The rounding is exact for dimensions below 2^23, where the
/// single-precision quotient cannot cross a rounding boundary.
pub fn shadow_offset(background: BadgeBackground, badge_dim: u32) -> (r: Option<i32>)
    requires
        badge_dim < 0x80_0000,
    ensures
        background == BadgeBackground::NoBackground ==> r == Some(
            if div29_rounded(badge_dim as nat) >= 1 {
                div29_rounded(badge_dim as nat) as i32
            } else {
                1i32
            },
        ),
        background != BadgeBackground::NoBackground ==> r is None,
{
    if background == BadgeBackground::NoBackground {
        let q = (2 * badge_dim + 29) / 58;
        if q >= 1 {
            Some(q as i32)
        } else {
            Some(1)
        }
    } else {
        None
    }
}

/// Corner radius for a badge of the given short-axis length and shape: a pill
/// rounds fully (half the short axis), a rounded badge uses `base`.
pub fn corner_radius(shape: BadgeShape, short_axis: u32, base: u32) -> (r: u32)
    ensures
        shape == BadgeShape::Pill ==> r == short_axis / 2,
        shape == BadgeShape::Rounded ==> r == base,
{
    match shape {
        BadgeShape::Pill => short_axis / 2,
        BadgeShape::Rounded => base,
    }
}

/// The height of a 2:3 poster frame of the given width: `width * 1.5`, rounded
/// half up, saturating at `u32::MAX`.
pub open spec fn poster_height(width: nat) -> nat {
    let h = (3 * width + 1) / 2;
    if h > u32::MAX {
        u32::MAX as nat
    } else {
        h
    }
}

/// Standard movie posters are 2:3 (width:height), so the output height for a
/// given width is `width * 3 / 2`.
pub fn poster_target_height(target_width: u32) -> (h: u32)
    ensures
        h == poster_height(target_width as nat),
{
    let h: u64 = (3 * (target_width as u64) + 1) / 2;
    if h > 4294967295u64 {
        4294967295u32
    } else {
        h as u32
    }
}

/// Every 2:3 frame is at least as tall as it is wide, and even widths give
/// exactly one and a half times the width.
pub proof fn lemma_poster_height(width: nat)
    requires
        width <= u32::MAX,
    ensures
        poster_height(width) >= width,
        width % 2 == 0 && 3 * width / 2 <= u32::MAX ==> poster_height(width) == 3 * width / 2,
{
}

/// Badge metrics for one scale factor, in pixels.
#[derive(Debug, Clone, Copy, PartialEq, Eq, Structural)]
pub struct ScaledDims {
    pub badge_height: u32,
    pub badge_padding_h: u32,
    pub text_label_padding_h: u32,
    pub badge_value_padding_h: u32,
    pub badge_radius: u32,
    pub pill_padding: u32,
    pub pill_padding_v: u32,
    pub icon_height: u32,
}

/// The geometry of a horizontal badge: label section, then value section.
#[derive(Debug, Clone, Copy, PartialEq, Eq, Structural)]
pub struct BadgeBox {
    pub width: u32,
    pub height: u32,
    /// Left edge of the value section.
    pub value_x: u32,
    /// Left edge of the label area (after the pill end and label padding).
    pub label_x: u32,
    /// Left edge of the value text area (after the value padding).
    pub value_text_x: u32,
    pub corner_radius: u32,
}

/// Extra (horizontal, vertical) padding of a pill's rounded ends.
pub open spec fn pill_pads(shape: BadgeShape, d: ScaledDims) -> (nat, nat) {
    match shape {
        BadgeShape::Pill => (d.pill_padding as nat, d.pill_padding_v as nat),
        BadgeShape::Rounded => (0, 0),
    }
}

/// The label padding: wider around icons than around text labels.
pub open spec fn label_pad(d: ScaledDims, uses_icon: bool) -> nat {
    if uses_icon {
        d.badge_padding_h as nat
    } else {
        d.text_label_padding_h as nat
    }
}

/// The horizontal badge for a label area `label_w` and value area `value_w`
/// wide: `[pill][pad][label][pad] | [vpad][value][vpad + vpad/2 + 2][pill]`.
pub open spec fn badge_box_spec(d: ScaledDims, label_w: nat, value_w: nat, uses_icon: bool, shape: BadgeShape) -> (nat, nat, nat, nat, nat, nat) {
    let (pill, pill_v) = pill_pads(shape, d);
    let pad = label_pad(d, uses_icon);
    let h = (d.badge_height + pill_v) as nat;
    let value_x = (pill + label_w + pad * 2) as nat;
    let vpad = d.badge_value_padding_h as nat;
    let width = (value_x + value_w + vpad + vpad / 2 + 2 + pill) as nat;
    let radius = if shape == BadgeShape::Pill {
        h / 2
    } else {
        d.badge_radius as nat
    };
    (width, h, value_x, (pill + pad) as nat, (value_x + vpad) as nat, radius)
}

/// Lays out a horizontal badge; `None` when its width or height would not
/// fit in 32 bits.
pub fn badge_box(d: &ScaledDims, label_w: u32, value_w: u32, uses_icon: bool, shape: BadgeShape) -> (r: Option<BadgeBox>)
    ensures
        r is Some <==> (badge_box_spec(*d, label_w as nat, value_w as nat, uses_icon, shape).0 <= u32::MAX
            && badge_box_spec(*d, label_w as nat, value_w as nat, uses_icon, shape).1 <= u32::MAX),
        r matches Some(b) ==> (b.width as nat, b.height as nat, b.value_x as nat, b.label_x as nat, b.value_text_x as nat, b.corner_radius as nat)
            == badge_box_spec(*d, label_w as nat, value_w as nat, uses_icon, shape),
{
    let (pill, pill_v): (u64, u64) = match shape {
        BadgeShape::Pill => (d.pill_padding as u64, d.pill_padding_v as u64),
        BadgeShape::Rounded => (0, 0),
    };
    let pad: u64 = if uses_icon {
        d.badge_padding_h as u64
    } else {
        d.text_label_padding_h as u64
    };
    let vpad = d.badge_value_padding_h as u64;
    let height = d.badge_height as u64 + pill_v;
    let value_x = pill + label_w as u64 + pad * 2;
    let width = value_x + value_w as u64 + vpad + vpad / 2 + 2 + pill;
    if width > 4294967295u64 || height > 4294967295u64 {
        return None;
    }
    let height = height as u32;
    Some(
        BadgeBox {
            width: width as u32,
            height,
            value_x: value_x as u32,
            label_x: (pill + pad) as u32,
            value_text_x: (value_x + vpad) as u32,
            corner_radius: corner_radius(shape, height, d.badge_radius),
        },
    )
}

/// Where content `content` long starts when centred in an area `area` long
/// that begins at `start`.
pub fn centered_in(start: u32, area: u32, content: u32) -> (r: u32)
    requires
        start + area <= u32::MAX,
    ensures
        r == start + sat_sub_spec(area as nat, content as nat) / 2,
{
    start + area.saturating_sub(content) / 2
}

/// `a - b`, or 0 when `b` is larger.
pub open spec fn sat_sub_spec(a: nat, b: nat) -> nat {
    if a >= b {
        (a - b) as nat
    } else {
        0
    }
}

/// The uniform (label, value) area widths of a set of horizontal badges:
/// official logos share a square box `icon_height` wide; icons and text
/// labels take the widest (icons default to `icon_height`, text to 0 when
/// there are none); values take the widest value.
pub open spec fn uniform_widths_spec(
    label_style: LabelStyle,
    icon_height: nat,
    label_widths: Seq<u32>,
    value_widths: Seq<u32>,
) -> (nat, nat) {
    (
        match label_style {
            LabelStyle::Official => icon_height,
            LabelStyle::Icon => if label_widths.len() == 0 {
                icon_height
            } else {
                crate::layout::max_of(label_widths)
            },
            LabelStyle::Text => crate::layout::max_of(label_widths),
        },
        crate::layout::max_of(value_widths),
    )
}

fn max_u32(v: &Vec<u32>) -> (m: u32)
    ensures
        m == crate::layout::max_of(v@),
{
    let mut m: u32 = 0;
    let mut i: usize = 0;
    while i < v.len()
        invariant
            i <= v.len(),
            m == crate::layout::max_of(v@.take(i as int)),
        decreases v.len() - i,
    {
        assert(v@.take(i + 1).drop_last() =~= v@.take(i as int));
        if v[i] > m {
            m = v[i];
        }
        i = i + 1;
    }
    assert(v@.take(v.len() as int) =~= v@);
    m
}

/// Picks the uniform label and value widths of a set of horizontal badges
/// from each badge's natural label and value widths.
pub fn uniform_widths(label_style: LabelStyle, icon_height: u32, label_widths: &Vec<u32>, value_widths: &Vec<u32>) -> (r: (u32, u32))
    ensures
        (r.0 as nat, r.1 as nat) == uniform_widths_spec(label_style, icon_height as nat, label_widths@, value_widths@),
{
    let label = match label_style {
        LabelStyle::Official => icon_height,
        LabelStyle::Icon => if label_widths.len() == 0 {
            icon_height
        } else {
            max_u32(label_widths)
        },
        LabelStyle::Text => max_u32(label_widths),
    };
    (label, max_u32(value_widths))
}

/// The geometry of a vertical badge: label area on top, value below.
#[derive(Debug, Clone, Copy, PartialEq, Eq, Structural)]
pub struct VerticalBox {
    pub width: u32,
    pub height: u32,
    /// Top edge of the value section.
    pub value_area_y: u32,
    /// Top padding (including a pill's extra end padding).
    pub padding_v: u32,
    pub corner_radius: u32,
}

/// Metrics of a vertical badge for one scale factor, in pixels.
#[derive(Debug, Clone, Copy, PartialEq, Eq, Structural)]
pub struct VerticalDims {
    pub width: u32,
    pub padding_v: u32,
    pub pill_padding: u32,
    pub gap: u32,
    pub badge_radius: u32,
}

/// The vertical badge for a label area `label_h` and value text `value_h`
/// high: `[pad][label][gap][value][pad]`, where a pill adds its end padding
/// to `pad`; the value section starts half the gap below the label.
pub open spec fn vertical_box_spec(d: VerticalDims, label_h: nat, value_h: nat, shape: BadgeShape) -> (nat, nat, nat, nat, nat) {
    let pad = d.padding_v + if shape == BadgeShape::Pill {
        d.pill_padding as nat
    } else {
        0
    };
    let pad = pad as nat;
    let gap = d.gap as nat;
    let height = (pad + label_h + gap + value_h + pad) as nat;
    let radius = if shape == BadgeShape::Pill {
        (d.width / 2) as nat
    } else {
        d.badge_radius as nat
    };
    (d.width as nat, height, (pad + label_h + gap / 2) as nat, pad, radius)
}

/// Lays out a vertical badge; `None` when its height would not fit in 32
/// bits.
pub fn vertical_box(d: &VerticalDims, label_h: u32, value_h: u32, shape: BadgeShape) -> (r: Option<VerticalBox>)
    ensures
        r is Some <==> vertical_box_spec(*d, label_h as nat, value_h as nat, shape).1 <= u32::MAX,
        r matches Some(b) ==> (b.width as nat, b.height as nat, b.value_area_y as nat, b.padding_v as nat, b.corner_radius as nat)
            == vertical_box_spec(*d, label_h as nat, value_h as nat, shape),
{
    let pill: u64 = match shape {
        BadgeShape::Pill => d.pill_padding as u64,
        BadgeShape::Rounded => 0,
    };
    let pad: u64 = d.padding_v as u64 + pill;
    let height: u64 = pad + label_h as u64 + d.gap as u64 + value_h as u64 + pad;
    if height > 4294967295u64 {
        return None;
    }
    Some(
        VerticalBox {
            width: d.width,
            height: height as u32,
            value_area_y: (pad + label_h as u64 + d.gap as u64 / 2) as u32,
            padding_v: pad as u32,
            corner_radius: corner_radius(shape, d.width, d.badge_radius),
        },
    )
}

/// The width of a single-cell overlay badge: `[pill][pad][content][pad][pill]`,
/// at least 1.
pub open spec fn overlay_width_spec(pill: nat, pad: nat, content_w: nat) -> nat {
    let w = pill + pad + content_w + pad + pill;
    if w >= 1 {
        w
    } else {
        1
    }
}

/// Width of a single-cell overlay badge; `None` when it would not fit in 32
/// bits.
pub fn overlay_width(pill: u32, pad: u32, content_w: u32) -> (r: Option<u32>)
    ensures
        r is Some <==> pill + pad + content_w + pad + pill <= u32::MAX,
        r matches Some(w) ==> w == overlay_width_spec(pill as nat, pad as nat, content_w as nat),
{
    let w: u64 = pill as u64 + pad as u64 + content_w as u64 + pad as u64 + pill as u64;
    if w > 4294967295u64 {
        None
    } else if w >= 1 {
        Some(w as u32)
    } else {
        Some(1)
    }
}

} // verus!
