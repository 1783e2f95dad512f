use openposterdb_api::badge::{
    badge_box, centered_in, corner_radius, overlay_background, overlay_width, poster_target_height, section_colors,
    shadow_offset, uniform_widths, vertical_box, with_alpha, BadgeBackground, BadgeShape, LabelStyle, ScaledDims,
    VerticalDims,
};
use openposterdb_api::ratings::RatingSource;

fn dims_1x() -> ScaledDims {
    ScaledDims {
        badge_height: 58,
        badge_padding_h: 14,
        text_label_padding_h: 8,
        badge_value_padding_h: 10,
        badge_radius: 10,
        pill_padding: 10,
        pill_padding_v: 6,
        icon_height: 48,
    }
}

#[test]
fn horizontal_badge_geometry() {
    let b = badge_box(&dims_1x(), 40, 60, false, BadgeShape::Rounded).unwrap();
    assert_eq!(b.height, 58);
    assert_eq!(b.value_x, 56);
    assert_eq!(b.width, 56 + 60 + 10 + 5 + 2);
    assert_eq!(b.label_x, 8);
    assert_eq!(b.value_text_x, 66);
    assert_eq!(b.corner_radius, 10);
}

#[test]
fn pill_pads_its_ends_and_rounds_fully() {
    let rounded = badge_box(&dims_1x(), 48, 60, true, BadgeShape::Rounded).unwrap();
    let pill = badge_box(&dims_1x(), 48, 60, true, BadgeShape::Pill).unwrap();
    assert_eq!(pill.width, rounded.width + 20);
    assert_eq!(pill.height, 64);
    assert_eq!(pill.corner_radius, 32);
    assert_eq!(pill.label_x, 24);
}

#[test]
fn vertical_badge_geometry() {
    let d = VerticalDims { width: 88, padding_v: 8, pill_padding: 10, gap: 4, badge_radius: 10 };
    let v = vertical_box(&d, 26, 34, BadgeShape::Rounded).unwrap();
    assert_eq!((v.width, v.height, v.value_area_y, v.padding_v, v.corner_radius), (88, 80, 36, 8, 10));
    let p = vertical_box(&d, 48, 34, BadgeShape::Pill).unwrap();
    assert_eq!((p.height, p.value_area_y, p.padding_v, p.corner_radius), (122, 68, 18, 44));
}

#[test]
fn uniform_widths_by_label_style() {
    let labels = vec![30, 52, 41];
    let values = vec![40, 33];
    assert_eq!(uniform_widths(LabelStyle::Official, 48, &labels, &values), (48, 40));
    assert_eq!(uniform_widths(LabelStyle::Icon, 48, &labels, &values), (52, 40));
    assert_eq!(uniform_widths(LabelStyle::Icon, 48, &vec![], &vec![]), (48, 0));
    assert_eq!(uniform_widths(LabelStyle::Text, 48, &vec![], &values), (0, 40));
}

#[test]
fn section_colors_by_background() {
    let imdb = RatingSource::Imdb.color();
    assert_eq!(section_colors(BadgeBackground::Default, LabelStyle::Text, &RatingSource::Imdb), Some((imdb, [0, 0, 0, 200])));
    assert_eq!(section_colors(BadgeBackground::Default, LabelStyle::Official, &RatingSource::Imdb), Some(([0, 0, 0, 200], [0, 0, 0, 200])));
    assert_eq!(section_colors(BadgeBackground::Dark, LabelStyle::Icon, &RatingSource::Imdb), Some(([0, 0, 0, 200], [0, 0, 0, 200])));
    assert_eq!(
        section_colors(BadgeBackground::Transparent, LabelStyle::Text, &RatingSource::Imdb),
        Some((with_alpha(imdb, 120), [0, 0, 0, 120]))
    );
    assert_eq!(section_colors(BadgeBackground::NoBackground, LabelStyle::Text, &RatingSource::Imdb), None);
    assert_eq!(overlay_background(BadgeBackground::Transparent), Some([0, 0, 0, 120]));
    assert_eq!(overlay_background(BadgeBackground::NoBackground), None);
}

#[test]
fn shadows_only_without_background() {
    assert_eq!(shadow_offset(BadgeBackground::NoBackground, 58), Some(2));
    assert_eq!(shadow_offset(BadgeBackground::NoBackground, 10), Some(1));
    assert_eq!(shadow_offset(BadgeBackground::NoBackground, 88), Some(3));
    assert_eq!(shadow_offset(BadgeBackground::Dark, 58), None);
}

#[test]
fn radii_and_frames() {
    assert_eq!(corner_radius(BadgeShape::Pill, 58, 10), 29);
    assert_eq!(corner_radius(BadgeShape::Rounded, 58, 10), 10);
    assert_eq!(poster_target_height(500), 750);
    assert_eq!(poster_target_height(333), 500);
    assert_eq!(centered_in(10, 50, 20), 25);
    assert_eq!(centered_in(10, 50, 80), 10);
    assert_eq!(overlay_width(0, 0, 0), Some(1));
    assert_eq!(overlay_width(10, 14, 40), Some(88));
    assert_eq!(overlay_width(u32::MAX, 0, 1), None);
}

#[test]
fn oversized_badges_are_refused() {
    assert!(badge_box(&dims_1x(), u32::MAX, u32::MAX, false, BadgeShape::Rounded).is_none());
    let d = VerticalDims { width: 88, padding_v: 8, pill_padding: 10, gap: 4, badge_radius: 10 };
    assert!(vertical_box(&d, u32::MAX, 34, BadgeShape::Rounded).is_none());
}
