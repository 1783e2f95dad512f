//! Where badges go on an image: vertical stacks, rows, and the logo
//! composition with rows of badges below the logo. Sizes and margins are
//! pixels, already scaled; every position is the top-left corner of a badge.

use vstd::prelude::*;

verus! {

/// Alignment of a badge group along one axis: top/left, centred, bottom/right.
#[derive(Debug, Clone, Copy, PartialEq, Eq, Structural)]
pub enum Align {
    Start,
    Center,
    End,
}

/// Spacing between badges and the margins of a badge group, in pixels.
#[derive(Debug, Clone, Copy, PartialEq, Eq, Structural)]
pub struct GroupSpacing {
    /// Between neighbouring badges of a stack or a row.
    pub spacing: u32,
    /// Between two rows.
    pub row_spacing: u32,
    /// Above a top-anchored group.
    pub top_margin: u32,
    /// Below a bottom-anchored group.
    pub bottom_margin: u32,
    /// Beside a left- or right-anchored group.
    pub side_margin: u32,
}

/// `a - b`, or 0 when `b` is larger (`u32::saturating_sub`).
pub open spec fn sat_sub(a: nat, b: nat) -> nat {
    if a >= b {
        (a - b) as nat
    } else {
        0
    }
}

/// The sum of a list of lengths.
pub open spec fn sum_of(a: Seq<u32>) -> nat
    decreases a.len(),
{
    if a.len() == 0 {
        0
    } else {
        sum_of(a.drop_last()) + a.last() as nat
    }
}

/// The largest of a list of lengths, 0 for none.
pub open spec fn max_of(a: Seq<u32>) -> nat
    decreases a.len(),
{
    if a.len() == 0 {
        0
    } else if a.last() > max_of(a.drop_last()) {
        a.last() as nat
    } else {
        max_of(a.drop_last())
    }
}

/// The widths of a list of (width, height) sizes.
pub open spec fn widths(s: Seq<(u32, u32)>) -> Seq<u32> {
    s.map_values(|p: (u32, u32)| p.0)
}

/// The heights of a list of (width, height) sizes.
pub open spec fn heights(s: Seq<(u32, u32)>) -> Seq<u32> {
    s.map_values(|p: (u32, u32)| p.1)
}

/// The total of the gaps between `n` items spaced `spacing` apart.
pub open spec fn gaps(n: nat, spacing: nat) -> nat {
    if n == 0 {
        0
    } else {
        spacing * ((n - 1) as nat)
    }
}

/// The offset of a group of length `extent` on an axis of length `canvas`:
/// `near` from the start, `far` from the end, or centred.
pub open spec fn anchor_offset(align: Align, canvas: nat, extent: nat, near: nat, far: nat) -> nat {
    match align {
        Align::Start => near,
        Align::End => sat_sub(canvas, extent + far),
        Align::Center => sat_sub(canvas, extent) / 2,
    }
}

/// The offset of an item of length `len` in a slot of length `slot` placed at
/// `base`: flush with the slot's start or end, or centred.
pub open spec fn in_slot(align: Align, base: nat, slot: nat, len: nat) -> nat {
    match align {
        Align::Start => base,
        Align::End => base + sat_sub(slot, len),
        Align::Center => base + sat_sub(slot, len) / 2,
    }
}

proof fn lemma_sum_take_step(a: Seq<u32>, i: int)
    requires
        0 <= i < a.len(),
    ensures
        sum_of(a.take(i + 1)) == sum_of(a.take(i)) + a[i],
{
    assert(a.take(i + 1).drop_last() =~= a.take(i));
}

proof fn lemma_max_take_step(a: Seq<u32>, i: int)
    requires
        0 <= i < a.len(),
    ensures
        max_of(a.take(i + 1)) == if a[i] > max_of(a.take(i)) {
            a[i] as nat
        } else {
            max_of(a.take(i))
        },
{
    assert(a.take(i + 1).drop_last() =~= a.take(i));
}

proof fn lemma_sum_take_le(a: Seq<u32>, i: int)
    requires
        0 <= i <= a.len(),
    ensures
        sum_of(a.take(i)) <= sum_of(a),
    decreases a.len(),
{
    if i == a.len() {
        assert(a.take(i) =~= a);
    } else {
        assert(a.drop_last().take(i) =~= a.take(i));
        lemma_sum_take_le(a.drop_last(), i);
    }
}

proof fn lemma_max_ge(a: Seq<u32>, i: int)
    requires
        0 <= i < a.len(),
    ensures
        a[i] <= max_of(a),
    decreases a.len(),
{
    if i < a.len() - 1 {
        lemma_max_ge(a.drop_last(), i);
    }
}

proof fn lemma_sum_take_full(a: Seq<u32>)
    ensures
        sum_of(a.take(a.len() as int)) == sum_of(a),
        max_of(a.take(a.len() as int)) == max_of(a),
{
    assert(a.take(a.len() as int) =~= a);
}

/// The heights and the largest width of badge sizes, summed and maxed over
/// the whole list; `None` is impossible under the bound on the heights.
fn sum_heights_max_width(sizes: &Vec<(u32, u32)>) -> (r: (u32, u32))
    requires
        sum_of(heights(sizes@)) <= u32::MAX,
    ensures
        r.0 == sum_of(heights(sizes@)),
        r.1 == max_of(widths(sizes@)),
{
    let ghost hs = heights(sizes@);
    let ghost ws = widths(sizes@);
    let mut sum: u32 = 0;
    let mut max: u32 = 0;
    let mut i: usize = 0;
    while i < sizes.len()
        invariant
            i <= sizes.len(),
            hs == heights(sizes@),
            ws == widths(sizes@),
            hs.len() == sizes.len(),
            ws.len() == sizes.len(),
            sum_of(hs) <= u32::MAX,
            sum == sum_of(hs.take(i as int)),
            max == max_of(ws.take(i as int)),
        decreases sizes.len() - i,
    {
        proof {
            lemma_sum_take_step(hs, i as int);
            lemma_max_take_step(ws, i as int);
            lemma_sum_take_le(hs, i as int + 1);
        }
        let (w, h) = sizes[i];
        sum = sum + h;
        if w > max {
            max = w;
        }
        i = i + 1;
    }
    proof {
        lemma_sum_take_full(hs);
        lemma_sum_take_full(ws);
    }
    (sum, max)
}

/// The height of a stack of badges: their heights plus the gaps between them.
pub open spec fn stack_height(sizes: Seq<(u32, u32)>, spacing: nat) -> nat {
    sum_of(heights(sizes)) + gaps(sizes.len(), spacing)
}

/// The top edge of a stack on a canvas of height `canvas_h`.
pub open spec fn stack_top(sizes: Seq<(u32, u32)>, vertical: Align, canvas_h: nat, g: GroupSpacing) -> nat {
    anchor_offset(vertical, canvas_h, stack_height(sizes, g.spacing as nat), g.top_margin as nat, g.bottom_margin as nat)
}

/// The position of badge `i` of a vertical stack: the stack is anchored as
/// asked, each badge is aligned within the column of the widest badge, and
/// each badge sits `spacing` below the one before it.
pub open spec fn stack_position(
    sizes: Seq<(u32, u32)>,
    i: int,
    vertical: Align,
    horizontal: Align,
    canvas_w: nat,
    canvas_h: nat,
    g: GroupSpacing,
) -> (nat, nat) {
    let column = max_of(widths(sizes));
    let base_x = anchor_offset(horizontal, canvas_w, column, g.side_margin as nat, g.side_margin as nat);
    (
        in_slot(horizontal, base_x, column, sizes[i].0 as nat),
        (stack_top(sizes, vertical, canvas_h, g) + sum_of(heights(sizes).take(i)) + i * g.spacing) as nat,
    )
}

/// The sizes and canvas a stack can be laid out for without leaving 32 bits
/// (the extent of the stack, its margins, and the running offset after the
/// last badge).
pub open spec fn stack_fits(
    sizes: Seq<(u32, u32)>,
    vertical: Align,
    horizontal: Align,
    canvas_h: nat,
    g: GroupSpacing,
) -> bool {
    &&& sizes.len() <= u32::MAX
    &&& stack_height(sizes, g.spacing as nat) <= u32::MAX
    &&& vertical == Align::End ==> stack_height(sizes, g.spacing as nat) + g.bottom_margin <= u32::MAX
    &&& horizontal == Align::End ==> max_of(widths(sizes)) + g.side_margin <= u32::MAX
    &&& stack_top(sizes, vertical, canvas_h, g) + sum_of(heights(sizes)) + sizes.len() * g.spacing
        <= u32::MAX
}

/// Lays out badges of the given sizes as a vertical column on a
/// `canvas_w` x `canvas_h` image.
pub fn stack_positions(
    sizes: &Vec<(u32, u32)>,
    vertical: Align,
    horizontal: Align,
    canvas_w: u32,
    canvas_h: u32,
    g: GroupSpacing,
) -> (r: Vec<(u32, u32)>)
    requires
        stack_fits(sizes@, vertical, horizontal, canvas_h as nat, g),
    ensures
        r.len() == sizes.len(),
        forall|i: int|
            0 <= i < r.len() ==> (r[i].0 as nat, r[i].1 as nat) == #[trigger] stack_position(
                sizes@,
                i,
                vertical,
                horizontal,
                canvas_w as nat,
                canvas_h as nat,
                g,
            ),
{
    let n = sizes.len();
    let ghost hs = heights(sizes@);
    let ghost ws = widths(sizes@);
    proof {
        assert(sum_of(hs) <= stack_height(sizes@, g.spacing as nat));
    }
    let (sum_h, column) = sum_heights_max_width(sizes);
    let gap_total: u32 = if n == 0 {
        0
    } else {
        proof {
            assert(gaps(n as nat, g.spacing as nat) == g.spacing * ((n - 1) as nat));
        }
        g.spacing * ((n - 1) as u32)
    };
    let total: u32 = sum_h + gap_total;
    let start_y: u32 = match vertical {
        Align::Start => g.top_margin,
        Align::End => canvas_h.saturating_sub(total + g.bottom_margin),
        Align::Center => canvas_h.saturating_sub(total) / 2,
    };
    let base_x: u32 = match horizontal {
        Align::Start => g.side_margin,
        Align::End => canvas_w.saturating_sub(column + g.side_margin),
        Align::Center => canvas_w.saturating_sub(column) / 2,
    };
    assert(start_y == stack_top(sizes@, vertical, canvas_h as nat, g));
    let mut out: Vec<(u32, u32)> = Vec::new();
    let mut y: u32 = start_y;
    let mut i: usize = 0;
    while i < n
        invariant
            n == sizes.len(),
            i <= n,
            hs == heights(sizes@),
            ws == widths(sizes@),
            column == max_of(ws),
            start_y == stack_top(sizes@, vertical, canvas_h as nat, g),
            base_x == anchor_offset(horizontal, canvas_w as nat, column as nat, g.side_margin as nat, g.side_margin as nat),
            horizontal == Align::End ==> base_x + column <= canvas_w || base_x == 0,
            stack_fits(sizes@, vertical, horizontal, canvas_h as nat, g),
            y == start_y + sum_of(hs.take(i as int)) + i * g.spacing,
            out.len() == i,
            forall|j: int|
                0 <= j < i ==> (out[j].0 as nat, out[j].1 as nat) == #[trigger] stack_position(
                    sizes@,
                    j,
                    vertical,
                    horizontal,
                    canvas_w as nat,
                    canvas_h as nat,
                    g,
                ),
        decreases n - i,
    {
        let (w, h) = sizes[i];
        proof {
            lemma_max_ge(ws, i as int);
            lemma_sum_take_step(hs, i as int);
            lemma_sum_take_le(hs, i as int + 1);
            assert(ws[i as int] == w);
            assert(hs[i as int] == h);
            assert((i + 1) * g.spacing == i * g.spacing + g.spacing) by (nonlinear_arith);
            assert((i + 1) * g.spacing <= n * g.spacing) by (nonlinear_arith)
                requires
                    i + 1 <= n,
            ;
        }
        let x: u32 = match horizontal {
            Align::Start => base_x,
            Align::End => base_x + column.saturating_sub(w),
            Align::Center => base_x + column.saturating_sub(w) / 2,
        };
        out.push((x, y));
        y = y + h + g.spacing;
        i = i + 1;
    }
    out
}

proof fn lemma_sum_sub_step(a: Seq<u32>, f: int, j: int)
    requires
        0 <= f <= j < a.len(),
    ensures
        sum_of(a.subrange(f, j + 1)) == sum_of(a.subrange(f, j)) + a[j],
{
    assert(a.subrange(f, j + 1).drop_last() =~= a.subrange(f, j));
}

proof fn lemma_sum_sub_le(a: Seq<u32>, f: int, j: int, e: int)
    requires
        0 <= f <= j <= e <= a.len(),
    ensures
        sum_of(a.subrange(f, j)) <= sum_of(a.subrange(f, e)),
{
    let b = a.subrange(f, e);
    assert(b.take(j - f) =~= a.subrange(f, j));
    lemma_sum_take_le(b, j - f);
}

/// The number of rows of at most `per_row` badges that `n` badges fill.
pub open spec fn row_count(n: nat, per_row: nat) -> nat {
    if n == 0 {
        0
    } else {
        ((n - 1) as nat) / per_row + 1
    }
}

/// The height of `rows` rows of height `row_h`, `row_spacing` apart.
pub open spec fn rows_height(rows: nat, row_h: nat, row_spacing: nat) -> nat {
    row_h * rows + gaps(rows, row_spacing)
}

/// The index of the first badge of the row holding badge `i`.
pub open spec fn row_first(i: int, per_row: nat) -> int {
    (i / per_row as int) * per_row
}

/// One past the index of the last badge of the row holding badge `i`.
pub open spec fn row_end(i: int, per_row: nat, n: nat) -> int {
    if row_first(i, per_row) + per_row < n {
        row_first(i, per_row) + per_row
    } else {
        n as int
    }
}

/// The width of the badges `first..end`, `spacing` apart.
pub open spec fn row_width(sizes: Seq<(u32, u32)>, first: int, end: int, spacing: nat) -> nat {
    sum_of(widths(sizes).subrange(first, end)) + gaps((end - first) as nat, spacing)
}

/// The top edge of the block of rows.
pub open spec fn rows_top(
    sizes: Seq<(u32, u32)>,
    per_row: nat,
    row_h: nat,
    vertical: Align,
    canvas_h: nat,
    g: GroupSpacing,
) -> nat {
    anchor_offset(
        vertical,
        canvas_h,
        rows_height(row_count(sizes.len(), per_row), row_h, g.row_spacing as nat),
        g.top_margin as nat,
        g.bottom_margin as nat,
    )
}

/// The top edge of the row holding badge `i`.
pub open spec fn row_top(
    sizes: Seq<(u32, u32)>,
    i: int,
    per_row: nat,
    row_h: nat,
    vertical: Align,
    canvas_h: nat,
    g: GroupSpacing,
) -> nat {
    (rows_top(sizes, per_row, row_h, vertical, canvas_h, g) + (i / per_row as int) * (row_h
        + g.row_spacing)) as nat
}

/// The left edge of badge `i`: its row is anchored as asked, and each badge
/// sits `spacing` to the right of the one before it.
pub open spec fn row_x(sizes: Seq<(u32, u32)>, i: int, per_row: nat, horizontal: Align, canvas_w: nat, g: GroupSpacing) -> nat {
    let first = row_first(i, per_row);
    let end = row_end(i, per_row, sizes.len());
    (anchor_offset(horizontal, canvas_w, row_width(sizes, first, end, g.spacing as nat), g.side_margin as nat, g.side_margin as nat)
        + sum_of(widths(sizes).subrange(first, i)) + (i - first) * g.spacing) as nat
}

/// The position of badge `i` laid out in rows of at most `per_row` badges,
/// rows `row_h` high: rows are filled in order, each row is anchored on its
/// own, and each badge is aligned within its row's height as `in_row` says.
pub open spec fn row_position(
    sizes: Seq<(u32, u32)>,
    i: int,
    per_row: nat,
    row_h: nat,
    in_row: Align,
    vertical: Align,
    horizontal: Align,
    canvas_w: nat,
    canvas_h: nat,
    g: GroupSpacing,
) -> (nat, nat) {
    (
        row_x(sizes, i, per_row, horizontal, canvas_w, g),
        in_slot(in_row, row_top(sizes, i, per_row, row_h, vertical, canvas_h, g), row_h, sizes[i].1 as nat),
    )
}

/// The sizes and canvas a row layout can be computed for without leaving 32
/// bits: the block of rows and its margins, each row's width and margin, each
/// row's top edge and badge, and the running offset after each badge.
pub open spec fn rows_fit(
    sizes: Seq<(u32, u32)>,
    per_row: nat,
    row_h: nat,
    in_row: Align,
    vertical: Align,
    horizontal: Align,
    canvas_w: nat,
    canvas_h: nat,
    g: GroupSpacing,
) -> bool {
    let rows = row_count(sizes.len(), per_row);
    &&& sizes.len() <= u32::MAX
    &&& per_row > 0
    &&& row_h <= u32::MAX
    &&& rows_height(rows, row_h, g.row_spacing as nat) <= u32::MAX
    &&& vertical == Align::End ==> rows_height(rows, row_h, g.row_spacing as nat) + g.bottom_margin <= u32::MAX
    &&& sizes.len() > 0 ==> row_h + g.row_spacing <= u32::MAX
    &&& forall|i: int|
        0 <= i < sizes.len() ==> {
            let w = #[trigger] row_width(sizes, row_first(i, per_row), row_end(i, per_row, sizes.len()), g.spacing as nat);
            &&& w <= u32::MAX
            &&& horizontal == Align::End ==> w + g.side_margin <= u32::MAX
            &&& row_top(sizes, i, per_row, row_h, vertical, canvas_h, g) <= u32::MAX
            &&& row_position(sizes, i, per_row, row_h, in_row, vertical, horizontal, canvas_w, canvas_h, g).1
                <= u32::MAX
            &&& row_x(sizes, i, per_row, horizontal, canvas_w, g) + sizes[i].0 + g.spacing <= u32::MAX
        }
}

/// Lays out badges of the given sizes in rows of at most `per_row` badges on
/// a `canvas_w` x `canvas_h` image.
pub fn row_positions(
    sizes: &Vec<(u32, u32)>,
    per_row: usize,
    row_h: u32,
    in_row: Align,
    vertical: Align,
    horizontal: Align,
    canvas_w: u32,
    canvas_h: u32,
    g: GroupSpacing,
) -> (r: Vec<(u32, u32)>)
    requires
        rows_fit(sizes@, per_row as nat, row_h as nat, in_row, vertical, horizontal, canvas_w as nat, canvas_h as nat, g),
    ensures
        r.len() == sizes.len(),
        forall|i: int|
            0 <= i < r.len() ==> (r[i].0 as nat, r[i].1 as nat) == #[trigger] row_position(
                sizes@,
                i,
                per_row as nat,
                row_h as nat,
                in_row,
                vertical,
                horizontal,
                canvas_w as nat,
                canvas_h as nat,
                g,
            ),
{
    let n = sizes.len();
    let ghost ws = widths(sizes@);
    let ghost k = per_row as nat;
    let rows: u32 = if n == 0 {
        0
    } else {
        ((n - 1) / per_row + 1) as u32
    };
    let row_gaps: u32 = if rows == 0 {
        0
    } else {
        g.row_spacing * (rows - 1)
    };
    assert(rows == row_count(n as nat, k));
    let total: u32 = row_h * rows + row_gaps;
    let top: u32 = match vertical {
        Align::Start => g.top_margin,
        Align::End => canvas_h.saturating_sub(total + g.bottom_margin),
        Align::Center => canvas_h.saturating_sub(total) / 2,
    };
    assert(top == rows_top(sizes@, k, row_h as nat, vertical, canvas_h as nat, g));
    let mut out: Vec<(u32, u32)> = Vec::new();
    let mut first: usize = 0;
    let mut r: usize = 0;
    while first < n
        invariant
            n == sizes.len(),
            ws == widths(sizes@),
            k == per_row,
            first <= n,
            first < n ==> first == r * per_row,
            top == rows_top(sizes@, k, row_h as nat, vertical, canvas_h as nat, g),
            rows_fit(sizes@, k, row_h as nat, in_row, vertical, horizontal, canvas_w as nat, canvas_h as nat, g),
            out.len() == first,
            forall|j: int|
                0 <= j < first ==> (out[j].0 as nat, out[j].1 as nat) == #[trigger] row_position(
                    sizes@,
                    j,
                    k,
                    row_h as nat,
                    in_row,
                    vertical,
                    horizontal,
                    canvas_w as nat,
                    canvas_h as nat,
                    g,
                ),
        decreases n - first,
    {
        let end: usize = if n - first > per_row {
            first + per_row
        } else {
            n
        };
        proof {
            vstd::arithmetic::div_mod::lemma_fundamental_div_mod_converse(first as int, k as int, r as int, 0);
            assert(row_first(first as int, k) == first);
            assert(row_end(first as int, k, n as nat) == end);
        }
        let ghost w_row = row_width(sizes@, first as int, end as int, g.spacing as nat);
        let mut row_sum: u32 = 0;
        let mut j: usize = first;
        while j < end
            invariant
                first <= j <= end <= n,
                n == sizes.len(),
                ws == widths(sizes@),
                ws.len() == n,
                w_row == row_width(sizes@, first as int, end as int, g.spacing as nat),
                w_row <= u32::MAX,
                row_sum == sum_of(ws.subrange(first as int, j as int)),
            decreases end - j,
        {
            proof {
                lemma_sum_sub_step(ws, first as int, j as int);
                lemma_sum_sub_le(ws, first as int, j as int + 1, end as int);
            }
            row_sum = row_sum + sizes[j].0;
            j = j + 1;
        }
        let count: u32 = (end - first) as u32;
        let row_w: u32 = row_sum + g.spacing * (count - 1);
        let start_x: u32 = match horizontal {
            Align::Start => g.side_margin,
            Align::End => canvas_w.saturating_sub(row_w + g.side_margin),
            Align::Center => canvas_w.saturating_sub(row_w) / 2,
        };
        let y: u32 = top + (r as u32) * (row_h + g.row_spacing);
        let mut x: u32 = start_x;
        let mut i: usize = first;
        assert(ws.subrange(first as int, first as int) =~= Seq::<u32>::empty());
        assert(sum_of(ws.subrange(first as int, first as int)) == 0);
        assert((first - first) * g.spacing == 0);
        while i < end
            invariant
                first <= i <= end <= n,
                end - first <= per_row,
                end == n || end == first + per_row,
                first == r * per_row,
                first as int / k as int == r,
                n == sizes.len(),
                ws == widths(sizes@),
                k == per_row,
                k > 0,
                row_first(first as int, k) == first,
                row_end(first as int, k, n as nat) == end,
                row_w == row_width(sizes@, first as int, end as int, g.spacing as nat),
                start_x == anchor_offset(horizontal, canvas_w as nat, row_w as nat, g.side_margin as nat, g.side_margin as nat),
                y == row_top(sizes@, first as int, k, row_h as nat, vertical, canvas_h as nat, g),
                x == start_x + sum_of(ws.subrange(first as int, i as int)) + (i - first) * g.spacing,
                rows_fit(sizes@, k, row_h as nat, in_row, vertical, horizontal, canvas_w as nat, canvas_h as nat, g),
                out.len() == i,
                forall|j: int|
                    0 <= j < i ==> (out[j].0 as nat, out[j].1 as nat) == #[trigger] row_position(
                        sizes@,
                        j,
                        k,
                        row_h as nat,
                        in_row,
                        vertical,
                        horizontal,
                        canvas_w as nat,
                        canvas_h as nat,
                        g,
                    ),
            decreases end - i,
        {
            proof {
                vstd::arithmetic::div_mod::lemma_fundamental_div_mod_converse(i as int, k as int, r as int, i - first);
                assert(row_first(i as int, k) == first);
                assert(row_end(i as int, k, n as nat) == end);
                lemma_sum_sub_step(ws, first as int, i as int);
                assert(((i + 1) - first) * g.spacing == (i - first) * g.spacing + g.spacing) by (nonlinear_arith);
                assert(row_width(sizes@, row_first(i as int, k), row_end(i as int, k, n as nat), g.spacing as nat) == row_w);
                assert(row_top(sizes@, i as int, k, row_h as nat, vertical, canvas_h as nat, g) == y);
                assert(row_x(sizes@, i as int, k, horizontal, canvas_w as nat, g) == x);
            }
            let (w, h) = sizes[i];
            let by: u32 = match in_row {
                Align::Start => y,
                Align::End => y + row_h.saturating_sub(h),
                Align::Center => y + row_h.saturating_sub(h) / 2,
            };
            assert((x as nat, by as nat) == row_position(
                sizes@, i as int, k, row_h as nat, in_row, vertical, horizontal, canvas_w as nat, canvas_h as nat, g));
            out.push((x, by));
            x = x + w + g.spacing;
            i = i + 1;
        }
        proof {
            if end < n {
                assert(end == (r + 1) * per_row) by (nonlinear_arith)
                    requires
                        end == first + per_row,
                        first == r * per_row,
                ;
            }
        }
        first = end;
        r = r + 1;
    }
    out
}

fn max_height(sizes: &Vec<(u32, u32)>) -> (m: u32)
    ensures
        m == max_of(heights(sizes@)),
{
    let ghost hs = heights(sizes@);
    let mut m: u32 = 0;
    let mut i: usize = 0;
    while i < sizes.len()
        invariant
            i <= sizes.len(),
            hs == heights(sizes@),
            hs.len() == sizes.len(),
            m == max_of(hs.take(i as int)),
        decreases sizes.len() - i,
    {
        proof {
            lemma_max_take_step(hs, i as int);
        }
        if sizes[i].1 > m {
            m = sizes[i].1;
        }
        i = i + 1;
    }
    proof {
        lemma_sum_take_full(hs);
    }
    m
}

/// Lays out badges in rows of at most `per_row`, each row as tall as the
/// tallest badge and each badge centred vertically in its row.
pub fn badge_rows(
    sizes: &Vec<(u32, u32)>,
    per_row: usize,
    vertical: Align,
    horizontal: Align,
    canvas_w: u32,
    canvas_h: u32,
    g: GroupSpacing,
) -> (r: Vec<(u32, u32)>)
    requires
        rows_fit(
            sizes@,
            per_row as nat,
            max_of(heights(sizes@)),
            Align::Center,
            vertical,
            horizontal,
            canvas_w as nat,
            canvas_h as nat,
            g,
        ),
    ensures
        r.len() == sizes.len(),
        forall|i: int|
            0 <= i < r.len() ==> (r[i].0 as nat, r[i].1 as nat) == #[trigger] row_position(
                sizes@,
                i,
                per_row as nat,
                max_of(heights(sizes@)),
                Align::Center,
                vertical,
                horizontal,
                canvas_w as nat,
                canvas_h as nat,
                g,
            ),
{
    let row_h = max_height(sizes);
    row_positions(sizes, per_row, row_h, Align::Center, vertical, horizontal, canvas_w, canvas_h, g)
}

/// The widest of the first `rows` rows of at most `per_row` badges.
pub open spec fn max_row_width(sizes: Seq<(u32, u32)>, per_row: nat, spacing: nat, rows: nat) -> nat
    decreases rows,
{
    if rows == 0 {
        0
    } else {
        let first = ((rows - 1) as nat * per_row) as int;
        let end = if first + per_row < sizes.len() {
            first + per_row
        } else {
            sizes.len() as int
        };
        let w = row_width(sizes, first, end, spacing);
        let m = max_row_width(sizes, per_row, spacing, (rows - 1) as nat);
        if w > m {
            w
        } else {
            m
        }
    }
}

/// The height of the rows below a logo: the first badge's height when the
/// badges are uniform, the tallest badge's otherwise.
pub open spec fn logo_row_height(sizes: Seq<(u32, u32)>, uniform: bool) -> nat {
    if uniform {
        sizes[0].1 as nat
    } else {
        max_of(heights(sizes))
    }
}

/// Uniform badges sit at the top of their row; others are centred in it.
pub open spec fn logo_in_row(uniform: bool) -> Align {
    if uniform {
        Align::Start
    } else {
        Align::Center
    }
}

/// The spacing of the rows below a logo `logo_h` high, starting `below`
/// pixels under it.
pub open spec fn logo_group(logo_h: nat, below: nat, spacing: u32, row_spacing: u32) -> GroupSpacing {
    GroupSpacing {
        spacing: spacing,
        row_spacing: row_spacing,
        top_margin: (logo_h + below) as u32,
        bottom_margin: 0,
        side_margin: 0,
    }
}

/// The canvas of a logo with badge rows: as wide as the logo or the widest
/// row, as tall as the logo, the gap below it and the rows.
pub open spec fn logo_canvas(
    logo_w: nat,
    logo_h: nat,
    sizes: Seq<(u32, u32)>,
    per_row: nat,
    uniform: bool,
    spacing: nat,
    row_spacing: nat,
    below: nat,
) -> (nat, nat) {
    let rows = row_count(sizes.len(), per_row);
    let widest = max_row_width(sizes, per_row, spacing, rows);
    (
        if logo_w >= widest {
            logo_w
        } else {
            widest
        },
        logo_h + below + rows_height(rows, logo_row_height(sizes, uniform), row_spacing),
    )
}

/// A logo with rows of badges below it.
pub struct LogoLayout {
    pub canvas_w: u32,
    pub canvas_h: u32,
    /// Left edge of the logo (its top edge is 0).
    pub logo_x: u32,
    /// Top-left corner of each badge.
    pub badges: Vec<(u32, u32)>,
}

/// The inputs a logo composition can be computed for without leaving 32 bits.
pub open spec fn logo_fits(
    logo_w: nat,
    logo_h: nat,
    sizes: Seq<(u32, u32)>,
    per_row: nat,
    uniform: bool,
    spacing: u32,
    row_spacing: u32,
    below: nat,
) -> bool {
    let canvas = logo_canvas(logo_w, logo_h, sizes, per_row, uniform, spacing as nat, row_spacing as nat, below);
    &&& sizes.len() > 0
    &&& logo_h + below <= u32::MAX
    &&& canvas.1 <= u32::MAX
    &&& rows_fit(
        sizes,
        per_row,
        logo_row_height(sizes, uniform),
        logo_in_row(uniform),
        Align::Start,
        Align::Center,
        canvas.0,
        canvas.1,
        logo_group(logo_h, below, spacing, row_spacing),
    )
}

fn span_width(sizes: &Vec<(u32, u32)>, first: usize, end: usize) -> (w: u32)
    requires
        first <= end <= sizes.len(),
        sum_of(widths(sizes@).subrange(first as int, end as int)) <= u32::MAX,
    ensures
        w == sum_of(widths(sizes@).subrange(first as int, end as int)),
{
    let ghost ws = widths(sizes@);
    let mut sum: u32 = 0;
    let mut j: usize = first;
    assert(ws.subrange(first as int, first as int) =~= Seq::<u32>::empty());
    while j < end
        invariant
            first <= j <= end <= sizes.len(),
            ws == widths(sizes@),
            ws.len() == sizes.len(),
            sum_of(ws.subrange(first as int, end as int)) <= u32::MAX,
            sum == sum_of(ws.subrange(first as int, j as int)),
        decreases end - j,
    {
        proof {
            lemma_sum_sub_step(ws, first as int, j as int);
            lemma_sum_sub_le(ws, first as int, j as int + 1, end as int);
        }
        sum = sum + sizes[j].0;
        j = j + 1;
    }
    sum
}

/// Composes a logo of `logo_w` x `logo_h` with rows of at most `per_row`
/// badges below it: the logo is centred at the top, the rows start `below`
/// pixels under it, and each row is centred. Uniform badges use the first
/// badge's height as the row height; otherwise rows are as tall as the
/// tallest badge and badges are centred in them.
pub fn logo_layout(
    logo_w: u32,
    logo_h: u32,
    sizes: &Vec<(u32, u32)>,
    per_row: usize,
    uniform: bool,
    spacing: u32,
    row_spacing: u32,
    below: u32,
) -> (r: LogoLayout)
    requires
        logo_fits(logo_w as nat, logo_h as nat, sizes@, per_row as nat, uniform, spacing, row_spacing, below as nat),
    ensures
        (r.canvas_w as nat, r.canvas_h as nat) == logo_canvas(
            logo_w as nat,
            logo_h as nat,
            sizes@,
            per_row as nat,
            uniform,
            spacing as nat,
            row_spacing as nat,
            below as nat,
        ),
        r.logo_x == sat_sub(r.canvas_w as nat, logo_w as nat) / 2,
        r.badges.len() == sizes.len(),
        forall|i: int|
            0 <= i < r.badges.len() ==> (r.badges[i].0 as nat, r.badges[i].1 as nat) == #[trigger] row_position(
                sizes@,
                i,
                per_row as nat,
                logo_row_height(sizes@, uniform),
                logo_in_row(uniform),
                Align::Start,
                Align::Center,
                r.canvas_w as nat,
                r.canvas_h as nat,
                logo_group(logo_h as nat, below as nat, spacing, row_spacing),
            ),
{
    let n = sizes.len();
    let ghost k = per_row as nat;
    let row_h: u32 = if uniform {
        sizes[0].1
    } else {
        max_height(sizes)
    };
    let rows: u32 = ((n - 1) / per_row + 1) as u32;
    assert(rows == row_count(n as nat, k));
    let row_block: u32 = row_h * rows + row_spacing * (rows - 1);
    assert(row_block == rows_height(rows as nat, row_h as nat, row_spacing as nat));
    let mut widest: u32 = 0;
    let mut first: usize = 0;
    let mut r: usize = 0;
    while first < n
        invariant
            n == sizes.len(),
            n > 0,
            k == per_row,
            k > 0,
            first <= n,
            first < n ==> first == r * per_row,
            first == n ==> r == rows,
            r <= rows,
            rows == row_count(n as nat, k),
            widest == max_row_width(sizes@, k, spacing as nat, r as nat),
            logo_fits(logo_w as nat, logo_h as nat, sizes@, k, uniform, spacing, row_spacing, below as nat),
        decreases n - first,
    {
        let end: usize = if n - first > per_row {
            first + per_row
        } else {
            n
        };
        proof {
            vstd::arithmetic::div_mod::lemma_fundamental_div_mod_converse(first as int, k as int, r as int, 0);
            assert(row_first(first as int, k) == first);
            assert(row_end(first as int, k, n as nat) == end);
            let gg = logo_group(logo_h as nat, below as nat, spacing, row_spacing);
            assert(row_width(sizes@, row_first(first as int, k), row_end(first as int, k, sizes@.len()), gg.spacing as nat) <= u32::MAX);
            assert((r as nat * k) as int == first);
        }
        let sum = span_width(sizes, first, end);
        let w: u32 = sum + spacing * ((end - first) as u32 - 1);
        if w > widest {
            widest = w;
        }
        proof {
            if end < n {
                assert(end == (r + 1) * per_row) by (nonlinear_arith)
                    requires
                        end == first + per_row,
                        first == r * per_row,
                ;
                vstd::arithmetic::div_mod::lemma_div_is_ordered(end as int, (n - 1) as int, k as int);
                vstd::arithmetic::div_mod::lemma_div_by_multiple((r + 1) as int, k as int);
            } else {
                vstd::arithmetic::div_mod::lemma_fundamental_div_mod_converse((n - 1) as int, k as int, r as int, n - 1 - first);
            }
        }
        first = end;
        r = r + 1;
    }
    let canvas_w: u32 = if logo_w >= widest {
        logo_w
    } else {
        widest
    };
    let canvas_h: u32 = logo_h + below + row_block;
    let logo_x: u32 = canvas_w.saturating_sub(logo_w) / 2;
    let g = GroupSpacing {
        spacing: spacing,
        row_spacing: row_spacing,
        top_margin: logo_h + below,
        bottom_margin: 0,
        side_margin: 0,
    };
    let in_row = if uniform {
        Align::Start
    } else {
        Align::Center
    };
    let badges = row_positions(sizes, per_row, row_h, in_row, Align::Start, Align::Center, canvas_w, canvas_h, g);
    LogoLayout { canvas_w, canvas_h, logo_x, badges }
}

/// In a stack, each badge starts exactly `spacing` below the bottom of the
/// badge before it, and the widest badge's column is shared by all.
pub proof fn lemma_stack_spacing(
    sizes: Seq<(u32, u32)>,
    i: int,
    vertical: Align,
    horizontal: Align,
    canvas_w: nat,
    canvas_h: nat,
    g: GroupSpacing,
)
    requires
        0 <= i,
        i + 1 < sizes.len(),
    ensures
        stack_position(sizes, i + 1, vertical, horizontal, canvas_w, canvas_h, g).1 == stack_position(
            sizes,
            i,
            vertical,
            horizontal,
            canvas_w,
            canvas_h,
            g,
        ).1 + sizes[i].1 + g.spacing,
{
    lemma_sum_take_step(heights(sizes), i);
    assert((i + 1) * g.spacing == i * g.spacing + g.spacing) by (nonlinear_arith);
}

/// A top-anchored stack starts at the top margin.
pub proof fn lemma_stack_top_anchor(sizes: Seq<(u32, u32)>, horizontal: Align, canvas_w: nat, canvas_h: nat, g: GroupSpacing)
    requires
        sizes.len() > 0,
    ensures
        stack_position(sizes, 0, Align::Start, horizontal, canvas_w, canvas_h, g).1 == g.top_margin,
{
    assert(heights(sizes).take(0) =~= Seq::<u32>::empty());
}

/// A bottom-anchored stack that fits on the canvas ends exactly the bottom
/// margin above the canvas's bottom edge.
pub proof fn lemma_stack_bottom_anchor(sizes: Seq<(u32, u32)>, horizontal: Align, canvas_w: nat, canvas_h: nat, g: GroupSpacing)
    requires
        sizes.len() > 0,
        stack_height(sizes, g.spacing as nat) + g.bottom_margin <= canvas_h,
    ensures
        stack_position(sizes, sizes.len() - 1, Align::End, horizontal, canvas_w, canvas_h, g).1 + sizes.last().1
            + g.bottom_margin == canvas_h,
{
    let n = sizes.len() as int;
    let hs = heights(sizes);
    lemma_sum_take_step(hs, n - 1);
    assert(hs.take(n) =~= hs);
    assert((n - 1) * g.spacing == g.spacing * ((n - 1) as nat)) by (nonlinear_arith)
        requires
            n >= 1,
    ;
    assert(hs[n - 1] == sizes.last().1);
}

/// In a right-anchored stack whose column fits beside the side margin, every
/// badge ends exactly the side margin left of the canvas's right edge.
pub proof fn lemma_stack_right_anchor(
    sizes: Seq<(u32, u32)>,
    i: int,
    vertical: Align,
    canvas_w: nat,
    canvas_h: nat,
    g: GroupSpacing,
)
    requires
        0 <= i < sizes.len(),
        max_of(widths(sizes)) + g.side_margin <= canvas_w,
    ensures
        stack_position(sizes, i, vertical, Align::End, canvas_w, canvas_h, g).0 + sizes[i].0 + g.side_margin == canvas_w,
{
    lemma_max_ge(widths(sizes), i);
}

/// Within a row, each badge starts exactly `spacing` right of the end of the
/// badge before it, on the same row top.
pub proof fn lemma_row_spacing(
    sizes: Seq<(u32, u32)>,
    i: int,
    per_row: nat,
    row_h: nat,
    vertical: Align,
    horizontal: Align,
    canvas_w: nat,
    canvas_h: nat,
    g: GroupSpacing,
)
    requires
        per_row > 0,
        0 <= i,
        i + 1 < row_end(i, per_row, sizes.len()),
    ensures
        row_x(sizes, i + 1, per_row, horizontal, canvas_w, g) == row_x(sizes, i, per_row, horizontal, canvas_w, g)
            + sizes[i].0 + g.spacing,
        row_top(sizes, i + 1, per_row, row_h, vertical, canvas_h, g) == row_top(
            sizes,
            i,
            per_row,
            row_h,
            vertical,
            canvas_h,
            g,
        ),
{
    let k = per_row as int;
    let q = i / k;
    let first = q * k;
    vstd::arithmetic::div_mod::lemma_fundamental_div_mod(i, k);
    assert(0 <= i % k < k) by {
        vstd::arithmetic::div_mod::lemma_mod_bound(i, k);
    }
    assert(i == first + i % k) by (nonlinear_arith)
        requires
            i == k * (i / k) + i % k,
            q == i / k,
            first == q * k,
    ;
    assert(i + 1 < first + k);
    vstd::arithmetic::div_mod::lemma_fundamental_div_mod_converse(i + 1, k, q, i + 1 - first);
    assert(row_first(i + 1, per_row) == first);
    lemma_sum_sub_step(widths(sizes), first, i);
    assert(((i + 1) - first) * g.spacing == (i - first) * g.spacing + g.spacing) by (nonlinear_arith);
}

/// Badges fill rows in order: badge `i` is in row `i / per_row`, and the
/// first badge of every row starts the row at its anchored offset.
pub proof fn lemma_row_starts(sizes: Seq<(u32, u32)>, r: nat, per_row: nat, horizontal: Align, canvas_w: nat, g: GroupSpacing)
    requires
        per_row > 0,
        r * per_row < sizes.len(),
    ensures
        ({
            let first = (r * per_row) as int;
            let end = row_end(first, per_row, sizes.len());
            row_x(sizes, first, per_row, horizontal, canvas_w, g) == anchor_offset(
                horizontal,
                canvas_w,
                row_width(sizes, first, end, g.spacing as nat),
                g.side_margin as nat,
                g.side_margin as nat,
            )
        }),
{
    let first = (r * per_row) as int;
    vstd::arithmetic::div_mod::lemma_fundamental_div_mod_converse(first, per_row as int, r as int, 0);
    assert(row_first(first, per_row) == first);
    assert(widths(sizes).subrange(first, first) =~= Seq::<u32>::empty());
    assert(sum_of(widths(sizes).subrange(first, first)) == 0);
    assert((first - first) * g.spacing == 0) by (nonlinear_arith);
}

/// In a logo composition, the canvas holds the logo and every row, and every
/// badge lies below the logo and the gap under it.
pub proof fn lemma_logo_badges_below(
    logo_w: nat,
    logo_h: nat,
    sizes: Seq<(u32, u32)>,
    i: int,
    per_row: nat,
    uniform: bool,
    spacing: u32,
    row_spacing: u32,
    below: nat,
)
    requires
        per_row > 0,
        0 <= i < sizes.len(),
        logo_h + below <= u32::MAX,
    ensures
        ({
            let canvas = logo_canvas(logo_w, logo_h, sizes, per_row, uniform, spacing as nat, row_spacing as nat, below);
            &&& canvas.0 >= logo_w
            &&& canvas.1 >= logo_h + below
            &&& row_position(
                sizes,
                i,
                per_row,
                logo_row_height(sizes, uniform),
                logo_in_row(uniform),
                Align::Start,
                Align::Center,
                canvas.0,
                canvas.1,
                logo_group(logo_h, below, spacing, row_spacing),
            ).1 >= logo_h + below
        }),
{
    assert(i / (per_row as int) >= 0) by {
        vstd::arithmetic::div_mod::lemma_div_pos_is_pos(i, per_row as int);
    }
    let step = logo_row_height(sizes, uniform) + row_spacing;
    assert((i / (per_row as int)) * step >= 0) by (nonlinear_arith)
        requires
            i / (per_row as int) >= 0,
            step >= 0,
    ;
}

/// What every badge contributes to a layout's extent: its largest width and
/// height, the spacings, and one pixel.
pub open spec fn badge_step(sizes: Seq<(u32, u32)>, g: GroupSpacing) -> nat {
    (max_of(widths(sizes)) + max_of(heights(sizes)) + g.spacing + g.row_spacing + 1) as nat
}

/// An upper bound of every coordinate and length a stack or row layout
/// computes: the canvas, the margins, and one [`badge_step`] per badge and
/// one more. A layout whose extent fits in 32 bits is computed without
/// leaving 32 bits.
pub open spec fn group_extent(sizes: Seq<(u32, u32)>, canvas_w: nat, canvas_h: nat, g: GroupSpacing) -> nat {
    (canvas_w + canvas_h + g.top_margin + g.bottom_margin + g.side_margin + (sizes.len() + 1) * badge_step(sizes, g)) as nat
}

/// The extent of a logo composition: the logo, twice its height and the gap
/// below it, and two badge steps per badge and two more.
pub open spec fn logo_extent(
    sizes: Seq<(u32, u32)>,
    logo_w: nat,
    logo_h: nat,
    spacing: nat,
    row_spacing: nat,
    below: nat,
) -> nat {
    let step = max_of(widths(sizes)) + max_of(heights(sizes)) + spacing + row_spacing + 1;
    (logo_w + 2 * (logo_h + below) + 2 * (sizes.len() + 1) * step) as nat
}

proof fn lemma_sum_bound(a: Seq<u32>, b: nat)
    requires
        forall|i: int| 0 <= i < a.len() ==> #[trigger] a[i] <= b,
    ensures
        sum_of(a) <= a.len() * b,
    decreases a.len(),
{
    if a.len() > 0 {
        let p = a.drop_last();
        assert forall|i: int| 0 <= i < p.len() implies #[trigger] p[i] <= b by {
            assert(p[i] == a[i]);
        }
        lemma_sum_bound(p, b);
        assert((a.len() - 1) * b + b == a.len() * b) by (nonlinear_arith);
    }
}

proof fn lemma_max_bound(a: Seq<u32>, b: nat)
    requires
        forall|i: int| 0 <= i < a.len() ==> #[trigger] a[i] <= b,
    ensures
        max_of(a) <= b,
    decreases a.len(),
{
    if a.len() > 0 {
        let p = a.drop_last();
        assert forall|i: int| 0 <= i < p.len() implies #[trigger] p[i] <= b by {
            assert(p[i] == a[i]);
        }
        lemma_max_bound(p, b);
    }
}

/// The extent of a layout, computed exactly (in 128 bits) from the sizes.
fn extent_parts(sizes: &Vec<(u32, u32)>) -> (r: (u128, u128, u128))
    ensures
        r.0 == sizes.len(),
        r.1 == max_of(widths(sizes@)),
        r.2 == max_of(heights(sizes@)),
        r.1 <= u32::MAX,
        r.2 <= u32::MAX,
{
    let ghost hs = heights(sizes@);
    let ghost ws = widths(sizes@);
    let mut mw: u32 = 0;
    let mut mh: u32 = 0;
    let mut i: usize = 0;
    while i < sizes.len()
        invariant
            i <= sizes.len(),
            hs == heights(sizes@),
            ws == widths(sizes@),
            hs.len() == sizes.len(),
            ws.len() == sizes.len(),
            mw == max_of(ws.take(i as int)),
            mh == max_of(hs.take(i as int)),
        decreases sizes.len() - i,
    {
        proof {
            lemma_max_take_step(hs, i as int);
            lemma_max_take_step(ws, i as int);
        }
        let (w, h) = sizes[i];
        if w > mw {
            mw = w;
        }
        if h > mh {
            mh = h;
        }
        i = i + 1;
    }
    proof {
        lemma_sum_take_full(hs);
        lemma_sum_take_full(ws);
    }
    (sizes.len() as u128, mw as u128, mh as u128)
}

/// Whether a stack or row layout's extent fits in 32 bits.
fn group_extent_fits(sizes: &Vec<(u32, u32)>, canvas_w: u32, canvas_h: u32, g: GroupSpacing) -> (r: bool)
    ensures
        r == (group_extent(sizes@, canvas_w as nat, canvas_h as nat, g) <= u32::MAX),
{
    let (n, mw, mh) = extent_parts(sizes);
    let step: u128 = mw + mh + g.spacing as u128 + g.row_spacing as u128 + 1;
    assert(n <= u64::MAX) by {
        assert(sizes.len() <= usize::MAX);
    }
    assert((n + 1) * step <= 0x1_0000_0000_0000_0000 * 0x4_0000_0000u128) by (nonlinear_arith)
        requires
            n <= u64::MAX,
            step <= 0x4_0000_0000u128,
    ;
    let total: u128 = canvas_w as u128 + canvas_h as u128 + g.top_margin as u128 + g.bottom_margin as u128
        + g.side_margin as u128 + (n + 1) * step;
    total <= 4294967295u128
}

/// Every badge side is at most the largest width or height.
proof fn lemma_sides_le_max(sizes: Seq<(u32, u32)>)
    ensures
        widths(sizes).len() == sizes.len(),
        heights(sizes).len() == sizes.len(),
        forall|i: int| 0 <= i < sizes.len() ==> #[trigger] widths(sizes)[i] <= max_of(widths(sizes)),
        forall|i: int| 0 <= i < sizes.len() ==> #[trigger] heights(sizes)[i] <= max_of(heights(sizes)),
{
    assert forall|i: int| 0 <= i < sizes.len() implies #[trigger] widths(sizes)[i] <= max_of(widths(sizes)) by {
        lemma_max_ge(widths(sizes), i);
    }
    assert forall|i: int| 0 <= i < sizes.len() implies #[trigger] heights(sizes)[i] <= max_of(heights(sizes)) by {
        lemma_max_ge(heights(sizes), i);
    }
}

/// The sum of `a[f..e]`, all at most `b`, is at most `(e - f) * b`.
proof fn lemma_sub_sum_le(a: Seq<u32>, f: int, e: int, b: nat)
    requires
        0 <= f <= e <= a.len(),
        forall|i: int| 0 <= i < a.len() ==> #[trigger] a[i] <= b,
    ensures
        sum_of(a.subrange(f, e)) <= (e - f) * b,
{
    let s = a.subrange(f, e);
    assert forall|i: int| 0 <= i < s.len() implies #[trigger] s[i] <= b by {
        assert(s[i] == a[f + i]);
    }
    lemma_sum_bound(s, b);
}

/// Anchoring never goes past the canvas plus the near margin.
proof fn lemma_anchor_le(align: Align, canvas: nat, extent: nat, near: nat, far: nat)
    ensures
        anchor_offset(align, canvas, extent, near, far) <= canvas + near,
{
}

proof fn lemma_extent_stack_fits(
    sizes: Seq<(u32, u32)>,
    vertical: Align,
    horizontal: Align,
    canvas_w: nat,
    canvas_h: nat,
    g: GroupSpacing,
)
    requires
        group_extent(sizes, canvas_w, canvas_h, g) <= u32::MAX,
    ensures
        stack_fits(sizes, vertical, horizontal, canvas_h, g),
{
    let n = sizes.len();
    let w = max_of(widths(sizes));
    let h = max_of(heights(sizes));
    let sp = g.spacing as nat;
    let step = badge_step(sizes, g);
    lemma_sides_le_max(sizes);
    lemma_sum_bound(heights(sizes), h);
    lemma_anchor_le(vertical, canvas_h, stack_height(sizes, sp), g.top_margin as nat, g.bottom_margin as nat);
    assert(n * h + n * sp + n + w <= (n + 1) * step) by (nonlinear_arith)
        requires
            step == w + h + sp + g.row_spacing + 1,
    ;
    if n > 0 {
        assert(gaps(n, sp) <= n * sp) by (nonlinear_arith)
            requires
                n > 0,
                gaps(n, sp) == sp * ((n - 1) as nat),
        ;
    }
}

proof fn lemma_row_of(i: int, k: nat, n: nat)
    requires
        k > 0,
        0 <= i < n,
    ensures
        0 <= row_first(i, k) <= i < row_end(i, k, n) <= n,
        0 <= i / (k as int) <= i,
        row_end(i, k, n) - row_first(i, k) <= k,
{
    let q = i / (k as int);
    vstd::arithmetic::div_mod::lemma_fundamental_div_mod(i, k as int);
    vstd::arithmetic::div_mod::lemma_mod_bound(i, k as int);
    vstd::arithmetic::div_mod::lemma_div_pos_is_pos(i, k as int);
    assert(q * k == (k as int) * q) by (nonlinear_arith);
    assert(q <= i) by (nonlinear_arith)
        requires
            i == (k as int) * q + i % (k as int),
            i % (k as int) >= 0,
            k >= 1,
            q >= 0,
    ;
}

proof fn lemma_extent_rows_fit(
    sizes: Seq<(u32, u32)>,
    per_row: nat,
    row_h: nat,
    in_row: Align,
    vertical: Align,
    horizontal: Align,
    canvas_w: nat,
    canvas_h: nat,
    g: GroupSpacing,
)
    requires
        group_extent(sizes, canvas_w, canvas_h, g) <= u32::MAX,
        per_row > 0,
        row_h <= max_of(heights(sizes)),
    ensures
        rows_fit(sizes, per_row, row_h, in_row, vertical, horizontal, canvas_w, canvas_h, g),
{
    let n = sizes.len();
    let k = per_row;
    let w = max_of(widths(sizes));
    let h = max_of(heights(sizes));
    let sp = g.spacing as nat;
    let rs = g.row_spacing as nat;
    let step = badge_step(sizes, g);
    let rows = row_count(n, k);
    lemma_sides_le_max(sizes);
    assert(n + w + h + sp + rs <= (n + 1) * step) by (nonlinear_arith)
        requires
            step == w + h + sp + rs + 1,
    ;
    if n > 0 {
        assert(((n - 1) as nat) / k <= (n - 1) as nat) by (nonlinear_arith)
            requires
                k >= 1,
        ;
    }
    assert(rows <= n);
    assert(row_h * rows + gaps(rows, rs) <= n * h + n * rs) by (nonlinear_arith)
        requires
            rows <= n,
            row_h <= h,
            gaps(rows, rs) == if rows == 0 { 0 } else { rs * ((rows - 1) as nat) },
    ;
    assert(n * h + n * rs <= (n + 1) * step) by (nonlinear_arith)
        requires
            step == w + h + sp + rs + 1,
    ;
    lemma_anchor_le(
        vertical,
        canvas_h,
        rows_height(rows, row_h, rs),
        g.top_margin as nat,
        g.bottom_margin as nat,
    );
    let ws = widths(sizes);
    assert forall|i: int| 0 <= i < sizes.len() implies {
        let rw = #[trigger] row_width(sizes, row_first(i, per_row), row_end(i, per_row, sizes.len()), g.spacing as nat);
        &&& rw <= u32::MAX
        &&& horizontal == Align::End ==> rw + g.side_margin <= u32::MAX
        &&& row_top(sizes, i, per_row, row_h, vertical, canvas_h, g) <= u32::MAX
        &&& row_position(sizes, i, per_row, row_h, in_row, vertical, horizontal, canvas_w, canvas_h, g).1
            <= u32::MAX
        &&& row_x(sizes, i, per_row, horizontal, canvas_w, g) + sizes[i].0 + g.spacing <= u32::MAX
    } by {
        lemma_row_of(i, k, n);
        let first = row_first(i, k);
        let end = row_end(i, k, n);
        let q = i / (k as int);
        lemma_sub_sum_le(ws, first, end, w);
        lemma_sub_sum_le(ws, first, i, w);
        let rw = row_width(sizes, first, end, sp);
        assert(rw <= n * w + n * sp) by (nonlinear_arith)
            requires
                rw == sum_of(ws.subrange(first, end)) + gaps((end - first) as nat, sp),
                sum_of(ws.subrange(first, end)) <= (end - first) * w,
                gaps((end - first) as nat, sp) == if end - first == 0 { 0 } else { sp * ((end - first - 1) as nat) },
                0 <= end - first <= n,
        ;
        assert((i - first) * w + (i - first) * sp <= n * w + n * sp) by (nonlinear_arith)
            requires
                0 <= i - first <= n,
        ;
        assert(q * (row_h + rs) <= n * h + n * rs) by (nonlinear_arith)
            requires
                0 <= q <= n,
                row_h <= h,
        ;
        assert(n * w + n * sp + w + sp + n * h + n * rs + h <= (n + 1) * step + (n + 1) * step) by (nonlinear_arith)
            requires
                step == w + h + sp + rs + 1,
        ;
        assert(n * w + n * sp + w + sp <= (n + 1) * step) by (nonlinear_arith)
            requires
                step == w + h + sp + rs + 1,
        ;
        assert(n * h + n * rs + h <= (n + 1) * step) by (nonlinear_arith)
            requires
                step == w + h + sp + rs + 1,
        ;
        lemma_anchor_le(horizontal, canvas_w, rw, g.side_margin as nat, g.side_margin as nat);
        assert(sizes[i].0 == ws[i]);
    }
}

/// Lays out a vertical stack (see [`stack_positions`]), or answers `None` when
/// its [`group_extent`] does not fit in 32 bits.
pub fn place_stack(
    sizes: &Vec<(u32, u32)>,
    vertical: Align,
    horizontal: Align,
    canvas_w: u32,
    canvas_h: u32,
    g: GroupSpacing,
) -> (r: Option<Vec<(u32, u32)>>)
    ensures
        r is Some <==> group_extent(sizes@, canvas_w as nat, canvas_h as nat, g) <= u32::MAX,
        r matches Some(p) ==> p.len() == sizes.len() && forall|i: int|
            0 <= i < p.len() ==> (p[i].0 as nat, p[i].1 as nat) == #[trigger] stack_position(
                sizes@,
                i,
                vertical,
                horizontal,
                canvas_w as nat,
                canvas_h as nat,
                g,
            ),
{
    if !group_extent_fits(sizes, canvas_w, canvas_h, g) {
        return None;
    }
    proof {
        lemma_extent_stack_fits(sizes@, vertical, horizontal, canvas_w as nat, canvas_h as nat, g);
    }
    Some(stack_positions(sizes, vertical, horizontal, canvas_w, canvas_h, g))
}

/// Lays out badges in rows of at most `per_row` (rows as tall as the tallest
/// badge, badges centred in them), or answers `None` when `per_row` is 0 or
/// the layout's [`group_extent`] does not fit in 32 bits.
pub fn place_rows(
    sizes: &Vec<(u32, u32)>,
    per_row: usize,
    vertical: Align,
    horizontal: Align,
    canvas_w: u32,
    canvas_h: u32,
    g: GroupSpacing,
) -> (r: Option<Vec<(u32, u32)>>)
    ensures
        r is Some <==> per_row > 0 && group_extent(sizes@, canvas_w as nat, canvas_h as nat, g) <= u32::MAX,
        r matches Some(p) ==> p.len() == sizes.len() && forall|i: int|
            0 <= i < p.len() ==> (p[i].0 as nat, p[i].1 as nat) == #[trigger] row_position(
                sizes@,
                i,
                per_row as nat,
                max_of(heights(sizes@)),
                Align::Center,
                vertical,
                horizontal,
                canvas_w as nat,
                canvas_h as nat,
                g,
            ),
{
    if per_row == 0 || !group_extent_fits(sizes, canvas_w, canvas_h, g) {
        return None;
    }
    proof {
        lemma_extent_rows_fit(
            sizes@,
            per_row as nat,
            max_of(heights(sizes@)),
            Align::Center,
            vertical,
            horizontal,
            canvas_w as nat,
            canvas_h as nat,
            g,
        );
    }
    Some(badge_rows(sizes, per_row, vertical, horizontal, canvas_w, canvas_h, g))
}

/// The widest row is at most one badge step per badge, minus the height and
/// row-spacing parts.
proof fn lemma_max_row_width_le(sizes: Seq<(u32, u32)>, per_row: nat, spacing: nat, rows: nat)
    requires
        per_row > 0,
        rows <= row_count(sizes.len(), per_row),
    ensures
        max_row_width(sizes, per_row, spacing, rows) <= sizes.len() * max_of(widths(sizes)) + sizes.len() * spacing,
    decreases rows,
{
    if rows > 0 {
        let n = sizes.len();
        let k = per_row;
        let w = max_of(widths(sizes));
        let r = (rows - 1) as nat;
        lemma_max_row_width_le(sizes, per_row, spacing, r);
        let first = (r * k) as int;
        let q: int = ((n - 1) as int) / (k as int);
        vstd::arithmetic::div_mod::lemma_fundamental_div_mod((n - 1) as int, k as int);
        vstd::arithmetic::div_mod::lemma_mod_bound((n - 1) as int, k as int);
        assert(r <= q);
        assert(r * k <= (k as int) * q) by (nonlinear_arith)
            requires
                r <= q,
                k >= 0,
        ;
        assert(first < n);
        let end = if first + k < n {
            first + k
        } else {
            n as int
        };
        lemma_sides_le_max(sizes);
        lemma_sub_sum_le(widths(sizes), first, end, w);
        assert(sum_of(widths(sizes).subrange(first, end)) + gaps((end - first) as nat, spacing) <= n * w + n * spacing)
            by (nonlinear_arith)
            requires
                sum_of(widths(sizes).subrange(first, end)) <= (end - first) * w,
                gaps((end - first) as nat, spacing) == if end - first == 0 { 0 } else { spacing * ((end - first - 1) as nat) },
                0 <= end - first <= n,
        ;
    }
}

/// Composes a logo with rows of badges below it (see [`logo_layout`]), or
/// answers `None` when there are no badges, `per_row` is 0, or the
/// composition's [`logo_extent`] does not fit in 32 bits.
pub fn place_logo(
    logo_w: u32,
    logo_h: u32,
    sizes: &Vec<(u32, u32)>,
    per_row: usize,
    uniform: bool,
    spacing: u32,
    row_spacing: u32,
    below: u32,
) -> (r: Option<LogoLayout>)
    ensures
        r is Some <==> sizes.len() > 0 && per_row > 0 && logo_extent(
            sizes@,
            logo_w as nat,
            logo_h as nat,
            spacing as nat,
            row_spacing as nat,
            below as nat,
        ) <= u32::MAX,
        r matches Some(l) ==> {
            &&& (l.canvas_w as nat, l.canvas_h as nat) == logo_canvas(
                logo_w as nat,
                logo_h as nat,
                sizes@,
                per_row as nat,
                uniform,
                spacing as nat,
                row_spacing as nat,
                below as nat,
            )
            &&& l.logo_x == sat_sub(l.canvas_w as nat, logo_w as nat) / 2
            &&& l.badges.len() == sizes.len()
            &&& forall|i: int|
                0 <= i < l.badges.len() ==> (l.badges[i].0 as nat, l.badges[i].1 as nat) == #[trigger] row_position(
                    sizes@,
                    i,
                    per_row as nat,
                    logo_row_height(sizes@, uniform),
                    logo_in_row(uniform),
                    Align::Start,
                    Align::Center,
                    l.canvas_w as nat,
                    l.canvas_h as nat,
                    logo_group(logo_h as nat, below as nat, spacing, row_spacing),
                )
        },
{
    if sizes.len() == 0 || per_row == 0 {
        return None;
    }
    let (n, mw, mh) = extent_parts(sizes);
    let step: u128 = mw + mh + spacing as u128 + row_spacing as u128 + 1;
    assert(n <= u64::MAX) by {
        assert(sizes.len() <= usize::MAX);
    }
    assert(2 * (n + 1) * step <= 2 * 0x1_0000_0000_0000_0000 * 0x4_0000_0000u128) by (nonlinear_arith)
        requires
            n <= u64::MAX,
            step <= 0x4_0000_0000u128,
    ;
    let total: u128 = logo_w as u128 + 2 * (logo_h as u128 + below as u128) + 2 * (n + 1) * step;
    if total > 4294967295u128 {
        return None;
    }
    proof {
        let k = per_row as nat;
        let nn = sizes@.len();
        let w = max_of(widths(sizes@));
        let h = max_of(heights(sizes@));
        let sp = spacing as nat;
        let rs = row_spacing as nat;
        let st = w + h + sp + rs + 1;
        let g = logo_group(logo_h as nat, below as nat, spacing, row_spacing);
        let rows = row_count(nn, k);
        assert(((nn - 1) as nat) / k <= (nn - 1) as nat) by (nonlinear_arith)
            requires
                k >= 1,
        ;
        lemma_max_row_width_le(sizes@, k, sp, rows);
        lemma_sides_le_max(sizes@);
        let row_h = logo_row_height(sizes@, uniform);
        assert(row_h <= h) by {
            assert(heights(sizes@)[0] == sizes@[0].1);
        }
        assert(row_h * rows + gaps(rows, rs) <= nn * h + nn * rs) by (nonlinear_arith)
            requires
                1 <= rows <= nn,
                row_h <= h,
                gaps(rows, rs) == rs * ((rows - 1) as nat),
        ;
        assert(nn * w + nn * sp + nn * h + nn * rs <= (nn + 1) * st) by (nonlinear_arith)
            requires
                st == w + h + sp + rs + 1,
        ;
        let canvas = logo_canvas(logo_w as nat, logo_h as nat, sizes@, k, uniform, sp, rs, below as nat);
        let lb = logo_h + below;
        assert(total == logo_w + 2 * lb + 2 * (nn + 1) * st);
        assert(2 * (nn + 1) * st == (nn + 1) * st + (nn + 1) * st) by (nonlinear_arith);
        assert(lb <= u32::MAX);
        assert(g.top_margin == lb);
        assert(canvas.0 <= logo_w + nn * w + nn * sp);
        assert(canvas.1 <= lb + nn * h + nn * rs);
        assert(badge_step(sizes@, g) == st);
        assert(group_extent(sizes@, canvas.0, canvas.1, g) <= total);
        lemma_extent_rows_fit(sizes@, k, row_h, logo_in_row(uniform), Align::Start, Align::Center, canvas.0, canvas.1, g);
    }
    Some(logo_layout(logo_w, logo_h, sizes, per_row, uniform, spacing, row_spacing, below))
}

} // verus!
