//! An RGBA image held as plain values, and the corner rounding applied to
//! badge backgrounds.

use vstd::prelude::*;

verus! {

/// An RGBA image: `width` x `height` pixels, stored row by row.
pub struct Canvas {
    pub width: u32,
    pub height: u32,
    pub pixels: Vec<[u8; 4]>,
}

impl Canvas {
    /// The pixel buffer holds exactly one pixel per position.
    pub open spec fn wf(&self) -> bool {
        self.pixels.len() == self.width * self.height
    }
}

/// The fully transparent pixel.
pub open spec fn transparent() -> [u8; 4] {
    [0u8, 0u8, 0u8, 0u8]
}

/// The radius actually used: at most half of each side, so the four corners
/// never overlap.
pub open spec fn effective_radius(w: nat, h: nat, r: nat) -> nat {
    let a = if r <= w / 2 {
        r
    } else {
        w / 2
    };
    if a <= h / 2 {
        a
    } else {
        h / 2
    }
}

/// How far coordinate `c` is from the nearer end of a side `len` long, when
/// it lies within `rr` of that end.
pub open spec fn corner_offset(len: nat, rr: nat, c: nat) -> Option<nat> {
    if c < rr {
        Some(c)
    } else if c + rr >= len && c < len {
        Some((len - 1 - c) as nat)
    } else {
        None
    }
}

/// Whether pixel (x, y) of a `w` x `h` image lies outside the quarter circle
/// of radius `rr` in its corner square, i.e. is cut away by the rounding.
pub open spec fn corner_cut(w: nat, h: nat, r: nat, x: nat, y: nat) -> bool {
    let rr = effective_radius(w, h, r);
    match (corner_offset(w, rr, x), corner_offset(h, rr, y)) {
        (Some(dx), Some(dy)) => (rr - dx) * (rr - dx) + (rr - dy) * (rr - dy) > rr * rr,
        _ => false,
    }
}

/// The pixel at flat index `i` after rounding: transparent when cut away,
/// unchanged otherwise.
pub open spec fn rounded_pixel(w: nat, h: nat, r: nat, i: int, old: [u8; 4]) -> [u8; 4] {
    if corner_cut(w, h, r, (i % w as int) as nat, (i / w as int) as nat) {
        transparent()
    } else {
        old
    }
}

/// Which corner offsets the loop below has handled: rows of the corner squares
/// before `dy`, and in row `dy` the columns before `dx`.
spec fn handled(w: nat, h: nat, rr: nat, i: int, dy: nat, dx: nat) -> bool {
    match (corner_offset(w, rr, (i % w as int) as nat), corner_offset(h, rr, (i / w as int) as nat)) {
        (Some(cx), Some(cy)) => cy < dy || (cy == dy && cx < dx),
        _ => false,
    }
}

spec fn partly_rounded(w: nat, h: nat, r: nat, i: int, old: [u8; 4], dy: nat, dx: nat) -> [u8; 4] {
    if corner_cut(w, h, r, (i % w as int) as nat, (i / w as int) as nat) && handled(
        w,
        h,
        effective_radius(w, h, r),
        i,
        dy,
        dx,
    ) {
        transparent()
    } else {
        old
    }
}

proof fn lemma_index(w: nat, h: nat, x: nat, y: nat)
    requires
        x < w,
        y < h,
    ensures
        0 <= y * w + x < w * h,
        ((y * w + x) as int) % (w as int) == x as int,
        ((y * w + x) as int) / (w as int) == y as int,
{
    assert(y * w + x < w * h) by (nonlinear_arith)
        requires
            x < w,
            y < h,
    ;
    vstd::arithmetic::div_mod::lemma_fundamental_div_mod_converse((y * w + x) as int, w as int, y as int, x as int);
}

proof fn lemma_coords(w: nat, i: int)
    requires
        w > 0,
        0 <= i,
    ensures
        i == (i / w as int) * w + i % (w as int),
        0 <= i % (w as int) < w,
        0 <= i / (w as int),
{
    vstd::arithmetic::div_mod::lemma_fundamental_div_mod(i, w as int);
    vstd::arithmetic::div_mod::lemma_mod_bound(i, w as int);
    vstd::arithmetic::div_mod::lemma_div_pos_is_pos(i, w as int);
    assert(i == (i / w as int) * w + i % (w as int)) by (nonlinear_arith)
        requires
            i == (w as int) * (i / w as int) + i % (w as int),
    ;
}

/// Rounds the four outer corners of the image with radius `r` (capped at half
/// of each side): pixels outside the quarter circle in each corner square
/// become transparent, every other pixel is kept.
pub fn round_corners(img: &mut Canvas, r: u32)
    requires
        old(img).wf(),
    ensures
        final(img).width == old(img).width,
        final(img).height == old(img).height,
        final(img).wf(),
        forall|i: int|
            0 <= i < final(img).pixels.len() ==> #[trigger] final(img).pixels[i] == rounded_pixel(
                old(img).width as nat,
                old(img).height as nat,
                r as nat,
                i,
                old(img).pixels[i],
            ),
{
    let w = img.width;
    let h = img.height;
    let ghost old_px = img.pixels@;
    let ghost wn = w as nat;
    let ghost hn = h as nat;
    let a: u32 = if r <= w / 2 {
        r
    } else {
        w / 2
    };
    let rr: u32 = if a <= h / 2 {
        a
    } else {
        h / 2
    };
    assert(rr == effective_radius(wn, hn, r as nat));
    if rr == 0 {
        assert forall|i: int| 0 <= i < img.pixels.len() implies #[trigger] img.pixels[i] == rounded_pixel(
            wn,
            hn,
            r as nat,
            i,
            old_px[i],
        ) by {
            lemma_coords(wn, i);
        }
        return;
    }
    let rr64: u64 = rr as u64;
    assert(rr64 * rr64 <= 0x4000_0000_0000_0000u64) by (nonlinear_arith)
        requires
            rr64 <= 0x8000_0000u64,
    ;
    let limit: u64 = rr64 * rr64;
    let mut dy: u32 = 0;
    while dy < rr
        invariant
            w == img.width,
            h == img.height,
            wn == w,
            hn == h,
            img.pixels.len() == w * h,
            old_px.len() == w * h,
            0 < rr,
            rr == effective_radius(wn, hn, r as nat),
            2 * rr <= w,
            2 * rr <= h,
            rr64 == rr,
            limit == rr * rr,
            dy <= rr,
            forall|i: int|
                0 <= i < img.pixels.len() ==> #[trigger] img.pixels[i] == partly_rounded(
                    wn,
                    hn,
                    r as nat,
                    i,
                    old_px[i],
                    dy as nat,
                    0,
                ),
        decreases rr - dy,
    {
        let mut dx: u32 = 0;
        while dx < rr
            invariant
                w == img.width,
                h == img.height,
                wn == w,
                hn == h,
                img.pixels.len() == w * h,
                old_px.len() == w * h,
                0 < rr,
                rr == effective_radius(wn, hn, r as nat),
                2 * rr <= w,
                2 * rr <= h,
                rr64 == rr,
                limit == rr * rr,
                dy < rr,
                dx <= rr,
                forall|i: int|
                    0 <= i < img.pixels.len() ==> #[trigger] img.pixels[i] == partly_rounded(
                        wn,
                        hn,
                        r as nat,
                        i,
                        old_px[i],
                        dy as nat,
                        dx as nat,
                    ),
            decreases rr - dx,
        {
            let ex: u64 = rr64 - dx as u64;
            let ey: u64 = rr64 - dy as u64;
            proof {
                assert(ex * ex <= rr * rr) by (nonlinear_arith)
                    requires
                        ex <= rr,
                ;
                assert(ey * ey <= rr * rr) by (nonlinear_arith)
                    requires
                        ey <= rr,
                ;
                assert(rr * rr <= 0x4000_0000_0000_0000u64) by (nonlinear_arith)
                    requires
                        rr <= 0x8000_0000u64,
                ;
            }
            let dist: u64 = ex * ex + ey * ey;
            let ghost px_before = img.pixels@;
            let x0: u32 = dx;
            let x1: u32 = w - 1 - dx;
            let y0: u32 = dy;
            let y1: u32 = h - 1 - dy;
            proof {
                lemma_index(wn, hn, x0 as nat, y0 as nat);
                lemma_index(wn, hn, x1 as nat, y0 as nat);
                lemma_index(wn, hn, x0 as nat, y1 as nat);
                lemma_index(wn, hn, x1 as nat, y1 as nat);
            }
            let i00: usize = (y0 as usize) * (w as usize) + (x0 as usize);
            let i10: usize = (y0 as usize) * (w as usize) + (x1 as usize);
            let i01: usize = (y1 as usize) * (w as usize) + (x0 as usize);
            let i11: usize = (y1 as usize) * (w as usize) + (x1 as usize);
            let cut = dist > limit;
            if cut {
                img.pixels.set(i00, [0u8, 0u8, 0u8, 0u8]);
                img.pixels.set(i10, [0u8, 0u8, 0u8, 0u8]);
                img.pixels.set(i01, [0u8, 0u8, 0u8, 0u8]);
                img.pixels.set(i11, [0u8, 0u8, 0u8, 0u8]);
            }
            proof {
                assert forall|i: int| 0 <= i < img.pixels.len() implies #[trigger] img.pixels[i] == partly_rounded(
                    wn,
                    hn,
                    r as nat,
                    i,
                    old_px[i],
                    dy as nat,
                    (dx + 1) as nat,
                ) by {
                    lemma_coords(wn, i);
                    let x = (i % wn as int) as nat;
                    let y = (i / wn as int) as nat;
                    assert(y < hn) by {
                        if y >= hn {
                            assert(y * wn >= hn * wn) by (nonlinear_arith)
                                requires
                                    y >= hn,
                            ;
                        }
                    }
                    let ox = corner_offset(wn, rr as nat, x);
                    let oy = corner_offset(hn, rr as nat, y);
                    if ox == Some(dx as nat) && oy == Some(dy as nat) {
                        assert(x == x0 || x == x1);
                        assert(y == y0 || y == y1);
                        assert(i == i00 || i == i10 || i == i01 || i == i11);
                        assert(corner_cut(wn, hn, r as nat, x, y) == cut);
                    } else {
                        assert(corner_offset(wn, rr as nat, x0 as nat) == Some(dx as nat));
                        assert(corner_offset(wn, rr as nat, x1 as nat) == Some(dx as nat));
                        assert(corner_offset(hn, rr as nat, y0 as nat) == Some(dy as nat));
                        assert(corner_offset(hn, rr as nat, y1 as nat) == Some(dy as nat));
                        assert(i != i00 && i != i10 && i != i01 && i != i11);
                        assert(img.pixels[i] == px_before[i]);
                    }
                }
            }
            dx = dx + 1;
        }
        proof {
            assert forall|i: int| 0 <= i < img.pixels.len() implies #[trigger] img.pixels[i] == partly_rounded(
                wn,
                hn,
                r as nat,
                i,
                old_px[i],
                (dy + 1) as nat,
                0,
            ) by {
                lemma_coords(wn, i);
            }
        }
        dy = dy + 1;
    }
    proof {
        assert forall|i: int| 0 <= i < img.pixels.len() implies #[trigger] img.pixels[i] == rounded_pixel(
            wn,
            hn,
            r as nat,
            i,
            old_px[i],
        ) by {
            lemma_coords(wn, i);
        }
    }
}

/// The rounding is symmetric: mirroring a pixel left-right or top-bottom
/// does not change whether it is cut away.
pub proof fn lemma_corner_cut_symmetric(w: nat, h: nat, r: nat, x: nat, y: nat)
    requires
        x < w,
        y < h,
    ensures
        corner_cut(w, h, r, x, y) == corner_cut(w, h, r, (w - 1 - x) as nat, y),
        corner_cut(w, h, r, x, y) == corner_cut(w, h, r, x, (h - 1 - y) as nat),
{
    let rr = effective_radius(w, h, r);
    assert(2 * rr <= w && 2 * rr <= h);
    assert(corner_offset(w, rr, x) == corner_offset(w, rr, (w - 1 - x) as nat));
    assert(corner_offset(h, rr, y) == corner_offset(h, rr, (h - 1 - y) as nat));
}

/// Only the four corner squares change: a pixel whose column or row is at
/// least the radius away from both edges is kept, so the seams inside a badge
/// stay square.
pub proof fn lemma_corner_cut_only_corners(w: nat, h: nat, r: nat, x: nat, y: nat)
    requires
        ({
            let rr = effective_radius(w, h, r);
            (rr <= x && x + rr < w) || (rr <= y && y + rr < h)
        }),
    ensures
        !corner_cut(w, h, r, x, y),
{
}

/// With a positive radius, each outermost corner pixel is cut away.
pub proof fn lemma_corner_pixels_cut(w: nat, h: nat, r: nat)
    requires
        effective_radius(w, h, r) > 0,
    ensures
        corner_cut(w, h, r, 0, 0),
        corner_cut(w, h, r, (w - 1) as nat, 0),
        corner_cut(w, h, r, 0, (h - 1) as nat),
        corner_cut(w, h, r, (w - 1) as nat, (h - 1) as nat),
{
    let rr = effective_radius(w, h, r);
    assert(rr * rr + rr * rr > rr * rr) by (nonlinear_arith)
        requires
            rr > 0,
    ;
}

/// The shadow of a pixel: black, with three fifths of its opacity.
pub open spec fn shadow_pixel(p: [u8; 4]) -> [u8; 4] {
    [0u8, 0u8, 0u8, (p[3] as nat * 3 / 5) as u8]
}

/// A same-size silhouette of `icon` in the shadow colour (black, opacity
/// scaled down), drawn behind icons that have no badge background.
pub fn icon_shadow(icon: &Canvas) -> (s: Canvas)
    requires
        icon.wf(),
    ensures
        s.width == icon.width,
        s.height == icon.height,
        s.wf(),
        s.pixels.len() == icon.pixels.len(),
        forall|i: int| 0 <= i < s.pixels.len() ==> #[trigger] s.pixels[i] == shadow_pixel(icon.pixels[i]),
{
    let mut pixels: Vec<[u8; 4]> = Vec::new();
    let mut i: usize = 0;
    while i < icon.pixels.len()
        invariant
            i <= icon.pixels.len(),
            pixels.len() == i,
            forall|j: int| 0 <= j < i ==> #[trigger] pixels[j] == shadow_pixel(icon.pixels[j]),
        decreases icon.pixels.len() - i,
    {
        let p = icon.pixels[i];
        let a: u8 = ((p[3] as u16) * 3 / 5) as u8;
        let q = [0u8, 0u8, 0u8, a];
        assert(q == shadow_pixel(p));
        pixels.push(q);
        i = i + 1;
    }
    Canvas { width: icon.width, height: icon.height, pixels }
}

} // verus!
