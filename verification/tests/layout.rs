use openposterdb_api::layout::{
    badge_rows, logo_layout, place_logo, place_rows, place_stack, row_positions, stack_positions, Align,
    GroupSpacing,
};
use openposterdb_api::render::{badges_per_row, poster_source, split_point, PosterSource};

fn spacing() -> GroupSpacing {
    GroupSpacing { spacing: 7, row_spacing: 7, top_margin: 20, bottom_margin: 10, side_margin: 15 }
}

#[test]
fn stack_top_left() {
    let sizes = vec![(80, 40), (100, 50)];
    let p = stack_positions(&sizes, Align::Start, Align::Start, 500, 750, spacing());
    assert_eq!(p, vec![(15, 20), (15, 67)]);
}

#[test]
fn stack_bottom_right_ends_at_margins() {
    let sizes = vec![(80, 40), (100, 50)];
    let p = stack_positions(&sizes, Align::End, Align::End, 500, 750, spacing());
    // total height 40 + 7 + 50 = 97; start 750 - 107 = 643; column 100 wide
    assert_eq!(p, vec![(405, 643), (385, 690)]);
    assert_eq!(p[1].1 + 50 + 10, 750);
    assert_eq!(p[1].0 + 100 + 15, 500);
}

#[test]
fn stack_centered() {
    let sizes = vec![(80, 40), (100, 50)];
    let p = stack_positions(&sizes, Align::Center, Align::Center, 500, 750, spacing());
    assert_eq!(p, vec![(210, 326), (200, 373)]);
}

#[test]
fn stack_larger_than_canvas_saturates() {
    let sizes = vec![(600, 800)];
    let p = stack_positions(&sizes, Align::End, Align::End, 500, 750, spacing());
    assert_eq!(p, vec![(0, 0)]);
}

#[test]
fn rows_fill_in_order() {
    let sizes = vec![(100, 58), (100, 58), (100, 58), (100, 58)];
    let p = badge_rows(&sizes, 3, Align::Start, Align::Center, 500, 750, spacing());
    // first row 3 badges: width 314, start (500-314)/2 = 93
    assert_eq!(p[0], (93, 20));
    assert_eq!(p[1], (200, 20));
    assert_eq!(p[2], (307, 20));
    // second row 1 badge: width 100, start 200; y = 20 + 58 + 7
    assert_eq!(p[3], (200, 85));
}

#[test]
fn rows_center_shorter_badges_vertically() {
    let sizes = vec![(100, 58), (100, 40)];
    let p = badge_rows(&sizes, 5, Align::End, Align::Start, 500, 750, spacing());
    // row height 58, bottom anchored: 750 - (58 + 10) = 682
    assert_eq!(p, vec![(15, 682), (122, 691)]);
}

#[test]
fn rows_top_aligned_when_asked() {
    let sizes = vec![(100, 58), (100, 40)];
    let p = row_positions(&sizes, 5, 58, Align::Start, Align::Start, Align::Start, 500, 750, spacing());
    assert_eq!(p, vec![(15, 20), (122, 20)]);
}

#[test]
fn logo_composition() {
    let sizes = vec![(120, 60), (120, 60), (120, 60), (120, 60)];
    let l = logo_layout(200, 80, &sizes, 3, true, 10, 7, 15);
    // widest row: 3 * 120 + 2 * 10 = 380
    assert_eq!(l.canvas_w, 380);
    // 80 + 15 + (60 * 2 + 7)
    assert_eq!(l.canvas_h, 222);
    assert_eq!(l.logo_x, 90);
    assert_eq!(l.badges, vec![(0, 95), (130, 95), (260, 95), (130, 162)]);
}

#[test]
fn logo_wider_than_badges() {
    let sizes = vec![(50, 30), (50, 20)];
    let l = logo_layout(400, 100, &sizes, 5, false, 10, 7, 15);
    assert_eq!(l.canvas_w, 400);
    assert_eq!(l.canvas_h, 145);
    assert_eq!(l.logo_x, 0);
    // row width 110, centred at 145; second badge centred in the row height
    assert_eq!(l.badges, vec![(145, 115), (205, 120)]);
}

#[test]
fn per_row_by_size_and_style() {
    assert_eq!(badges_per_row(true, true, false), 2);
    assert_eq!(badges_per_row(true, false, true), 4);
    assert_eq!(badges_per_row(false, false, true), 5);
    assert_eq!(badges_per_row(false, true, false), 3);
}

#[test]
fn split_rounds_first_half_up() {
    assert_eq!(split_point(true, 5), Some(3));
    assert_eq!(split_point(true, 4), Some(2));
    assert_eq!(split_point(true, 1), None);
    assert_eq!(split_point(false, 6), None);
}

#[test]
fn poster_sources() {
    assert_eq!(poster_source(true, true, Some(true)), PosterSource::Override);
    assert_eq!(poster_source(false, true, Some(false)), PosterSource::Download { store: false });
    assert_eq!(poster_source(false, false, None), PosterSource::Download { store: true });
    assert_eq!(poster_source(false, false, Some(true)), PosterSource::Revalidate);
    assert_eq!(poster_source(false, false, Some(false)), PosterSource::Cached);
}

#[test]
fn checked_placement_matches_the_direct_layout() {
    let sizes = vec![(80, 40), (100, 50)];
    assert_eq!(
        place_stack(&sizes, Align::End, Align::End, 500, 750, spacing()),
        Some(stack_positions(&sizes, Align::End, Align::End, 500, 750, spacing()))
    );
    let four = vec![(100, 58), (100, 58), (100, 58), (100, 58)];
    assert_eq!(
        place_rows(&four, 3, Align::Start, Align::Center, 500, 750, spacing()),
        Some(vec![(93, 20), (200, 20), (307, 20), (200, 85)])
    );
    let wide = vec![(120, 60), (120, 60), (120, 60), (120, 60)];
    let l = place_logo(200, 80, &wide, 3, true, 10, 7, 15).unwrap();
    assert_eq!((l.canvas_w, l.canvas_h, l.logo_x), (380, 222, 90));
    assert_eq!(l.badges, vec![(0, 95), (130, 95), (260, 95), (130, 162)]);
}

#[test]
fn checked_placement_refuses_only_layouts_past_32_bits() {
    let large = vec![(1_000_000_000, 10)];
    assert_eq!(
        place_stack(&large, Align::Start, Align::Start, 500, 750, spacing()),
        Some(vec![(15, 20)])
    );
    assert!(place_rows(&large, 2, Align::Start, Align::Start, 500, 750, spacing()).is_some());
    let huge = vec![(3_000_000_000, 10)];
    assert_eq!(place_stack(&huge, Align::Start, Align::Start, 500, 750, spacing()), None);
    assert_eq!(place_rows(&vec![(10, 10)], 0, Align::Start, Align::Start, 500, 750, spacing()), None);
    assert_eq!(place_rows(&huge, 2, Align::Start, Align::Start, 500, 750, spacing()), None);
    assert!(place_logo(200, 80, &vec![], 3, true, 10, 7, 15).is_none());
    assert!(place_logo(200, 80, &vec![(10, 10)], 0, true, 10, 7, 15).is_none());
    assert!(place_logo(u32::MAX, 80, &vec![(10, 10)], 2, true, 10, 7, 15).is_none());
    assert!(place_logo(3_000_000, 80, &vec![(10, 10)], 2, true, 10, 7, 15).is_some());
}
