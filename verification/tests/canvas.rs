use openposterdb_api::canvas::{icon_shadow, round_corners, Canvas};

fn solid(w: u32, h: u32) -> Canvas {
    Canvas { width: w, height: h, pixels: vec![[255, 0, 0, 255]; (w * h) as usize] }
}

fn px(c: &Canvas, x: u32, y: u32) -> [u8; 4] {
    c.pixels[(y * c.width + x) as usize]
}

#[test]
fn corners_become_transparent() {
    let mut c = solid(20, 10);
    round_corners(&mut c, 4);
    for (x, y) in [(0, 0), (19, 0), (0, 9), (19, 9), (1, 0), (0, 1)] {
        assert_eq!(px(&c, x, y), [0, 0, 0, 0], "pixel {x},{y}");
    }
    // Inside the quarter circle and away from the corners: kept.
    for (x, y) in [(3, 3), (2, 2), (10, 0), (0, 5), (10, 5), (16, 6)] {
        assert_eq!(px(&c, x, y), [255, 0, 0, 255], "pixel {x},{y}");
    }
}

#[test]
fn radius_is_capped_at_half_the_short_side() {
    let mut a = solid(20, 10);
    let mut b = solid(20, 10);
    round_corners(&mut a, 5);
    round_corners(&mut b, 100);
    assert_eq!(a.pixels, b.pixels);
}

#[test]
fn zero_radius_changes_nothing() {
    let mut c = solid(8, 8);
    round_corners(&mut c, 0);
    assert_eq!(c.pixels, solid(8, 8).pixels);
    let mut tiny = solid(1, 9);
    round_corners(&mut tiny, 3);
    assert_eq!(tiny.pixels, solid(1, 9).pixels);
}

#[test]
fn rounding_is_symmetric() {
    let mut c = solid(13, 9);
    round_corners(&mut c, 4);
    for y in 0..9 {
        for x in 0..13 {
            assert_eq!(px(&c, x, y), px(&c, 12 - x, y));
            assert_eq!(px(&c, x, y), px(&c, x, 8 - y));
        }
    }
}

#[test]
fn shadow_is_black_at_three_fifths_opacity() {
    let c = Canvas { width: 2, height: 1, pixels: vec![[10, 20, 30, 255], [1, 2, 3, 100]] };
    let s = icon_shadow(&c);
    assert_eq!(s.width, 2);
    assert_eq!(s.height, 1);
    assert_eq!(s.pixels, vec![[0, 0, 0, 153], [0, 0, 0, 60]]);
}
