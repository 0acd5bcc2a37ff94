//! What holds of cells and layouts on every work area.

use crate::fraction::{
    law_round_div_is_nearest, lemma_round_div_cancel, lemma_round_div_monotone,
    lemma_round_div_whole, round_div, Fraction,
};
use crate::geometry::Rectangle;
use crate::layouts::{
    all_cells, all_ids, halves, left_big, picked, quarters, thirds, wide_middle,
};
use crate::snap::{
    cell_len, cell_room, cell_start, far_edge, near_edge, same, share_len, share_start, tiled_len,
    tiled_start, Share, SnapCell, TiledCorners,
};
use vstd::prelude::*;

verus! {

/// What it means to be nothing, half or all of an axis.
proof fn lemma_same_shares(a: Fraction)
    ensures
        same(a, Fraction::new(0, 1)) <==> a.num == 0,
        same(Fraction::new(0, 1), a) <==> a.num == 0,
        same(a, Fraction::new(1, 2)) <==> 2 * a.num == a.den,
        same(a, Fraction::new(1, 1)) <==> a.num == a.den,
{
    let n = a.num as int;
    let d = a.den as int;
    assert(n * 1 == n && n * 2 == 2 * n && 0 * d == 0 && 1 * d == d);
}

/// A cell is the same rectangle as at most one corner.
pub proof fn law_corner_is_unique(cell: SnapCell, a: TiledCorners, b: TiledCorners)
    requires
        cell.valid(),
        cell.is_corner(a),
        cell.is_corner(b),
    ensures
        a == b,
{
    lemma_same_shares(cell.x);
    lemma_same_shares(cell.y);
    lemma_same_shares(cell.w);
    lemma_same_shares(cell.h);
}

/// The edges of a cell that takes a whole share of an axis.
proof fn lemma_share_edges(share: Share, f: Fraction, g: Fraction, len: int)
    requires
        f.den > 0,
        g.den > 0,
        same(f, share_start(share)),
        same(g, share_len(share)),
    ensures
        near_edge(f, len) == match share {
            Share::Second => round_div(len, 2),
            _ => 0,
        },
        far_edge(f, g, len) == match share {
            Share::First => round_div(len, 2),
            _ => len,
        },
{
    lemma_same_shares(f);
    lemma_same_shares(g);
    let fd = f.den as int;
    let gd = g.den as int;
    let gn = g.num as int;
    let fnum = f.num as int;
    assert(fd * gd > 0) by (nonlinear_arith)
        requires
            fd > 0,
            gd > 0,
    ;
    match share {
        Share::Full => {
            assert(fnum == 0 && gn == gd);
            assert((fnum * gd + gn * fd) * len == len * (fd * gd)) by (nonlinear_arith)
                requires
                    fnum == 0,
                    gn == gd,
            ;
            lemma_round_div_whole(len, fd * gd);
            assert(fnum * len == 0 * fd) by (nonlinear_arith)
                requires
                    fnum == 0,
            ;
            lemma_round_div_whole(0, fd);
        },
        Share::First => {
            assert(fnum == 0 && gd == 2 * gn);
            assert((fnum * gd + gn * fd) * len == len * (gn * fd) && fd * gd == 2 * (gn * fd) && gn
                * fd > 0) by (nonlinear_arith)
                requires
                    fnum == 0,
                    gd == 2 * gn,
                    gn > 0,
                    fd > 0,
            ;
            lemma_round_div_cancel(len, 2, gn * fd);
            assert(fnum * len == 0 * fd) by (nonlinear_arith)
                requires
                    fnum == 0,
            ;
            lemma_round_div_whole(0, fd);
        },
        Share::Second => {
            assert(fd == 2 * fnum && gd == 2 * gn);
            assert((fnum * gd + gn * fd) * len == len * (fd * gd)) by (nonlinear_arith)
                requires
                    fd == 2 * fnum,
                    gd == 2 * gn,
            ;
            lemma_round_div_whole(len, fd * gd);
            assert(fnum * len == len * fnum) by (nonlinear_arith);
            lemma_round_div_cancel(len, 2, fnum);
        },
    }
}

/// Cells and snapped states halve an axis at the same pixel. Of an odd axis, and of an odd gap
/// between the halves, they round the half differently.
pub open spec fn halves_alike(share: Share, extent: int, inner: int) -> bool {
    match share {
        Share::Full => true,
        Share::First => extent % 2 == 0 || inner % 2 == 1,
        Share::Second => extent % 2 == 0 && inner % 2 == 0,
    }
}

/// On one axis a cell and the share it equals agree up to the rounding of half the axis, and
/// exactly where both round it alike.
proof fn lemma_axis_matches(
    share: Share,
    f: Fraction,
    g: Fraction,
    origin: int,
    extent: int,
    inner: int,
)
    requires
        f.den > 0,
        g.den > 0,
        same(f, share_start(share)),
        same(g, share_len(share)),
        inner >= 0,
        extent >= 0,
        tiled_len(share, extent, inner) >= 0,
    ensures
        -1 <= cell_start(f, origin, extent, inner) - tiled_start(share, origin, extent, inner) <= 1,
        -1 <= cell_len(f, g, extent, inner) - tiled_len(share, extent, inner) <= 1,
        halves_alike(share, extent, inner) ==> cell_start(f, origin, extent, inner) == tiled_start(
            share,
            origin,
            extent,
            inner,
        ),
        halves_alike(share, extent, inner) && tiled_len(share, extent, inner) >= 1 ==> cell_len(
            f,
            g,
            extent,
            inner,
        ) == tiled_len(share, extent, inner),
{
    let len = extent - inner;
    lemma_share_edges(share, f, g, len);
    assert(round_div(len, 2) == (len + 1) / 2) by {
        assert(len >= 0);
        assert((2 * len + 2) / 4 == (len + 1) / 2);
    }
}

/// A cell that is the same rectangle as a snapped state lands where that state does, where both
/// halve the work area alike and there is room for the window. With an even gap on an even work
/// area they always do.
pub proof fn law_cell_lands_where_its_corner_does(
    cell: SnapCell,
    corner: TiledCorners,
    area: Rectangle,
    inner: int,
    r: Rectangle,
)
    requires
        cell.valid(),
        cell.is_corner(corner),
        area.valid(),
        inner >= 0,
        halves_alike(corner.column(), area.size.w as int, inner),
        halves_alike(corner.row(), area.size.h as int, inner),
        tiled_len(corner.column(), area.size.w as int, inner) >= 1,
        tiled_len(corner.row(), area.size.h as int, inner) >= 1,
    ensures
        cell.lands_on(area, inner, r) <==> corner.lands_on(area, inner, r),
{
    lemma_axis_matches(
        corner.column(),
        cell.x,
        cell.w,
        area.loc.x as int,
        area.size.w as int,
        inner,
    );
    lemma_axis_matches(
        corner.row(),
        cell.y,
        cell.h,
        area.loc.y as int,
        area.size.h as int,
        inner,
    );
}

/// On a work area of any size, and with any gap, a cell and the snapped state it equals differ by
/// at most a pixel in each coordinate, as long as the state's rectangle is not negative.
pub proof fn law_cell_is_within_a_pixel_of_its_corner(
    cell: SnapCell,
    corner: TiledCorners,
    area: Rectangle,
    inner: int,
    ours: Rectangle,
    theirs: Rectangle,
)
    requires
        cell.valid(),
        cell.is_corner(corner),
        area.valid(),
        inner >= 0,
        cell.lands_on(area, inner, ours),
        corner.lands_on(area, inner, theirs),
        theirs.valid(),
    ensures
        -1 <= ours.loc.x - theirs.loc.x <= 1,
        -1 <= ours.loc.y - theirs.loc.y <= 1,
        -1 <= ours.size.w - theirs.size.w <= 1,
        -1 <= ours.size.h - theirs.size.h <= 1,
{
    lemma_axis_matches(
        corner.column(),
        cell.x,
        cell.w,
        area.loc.x as int,
        area.size.w as int,
        inner,
    );
    lemma_axis_matches(
        corner.row(),
        cell.y,
        cell.h,
        area.loc.y as int,
        area.size.h as int,
        inner,
    );
}

/// `f + g <= e`.
pub open spec fn ends_by(f: Fraction, g: Fraction, e: Fraction) -> bool {
    (f.num * g.den + g.num * f.den) * e.den <= e.num * (f.den * g.den)
}

/// `f + g == e`.
pub open spec fn ends_at(f: Fraction, g: Fraction, e: Fraction) -> bool {
    (f.num * g.den + g.num * f.den) * e.den == e.num * (f.den * g.den)
}

/// A part of an axis that ends before a fraction ends before that fraction's pixel.
proof fn lemma_edges_in_order(f: Fraction, g: Fraction, e: Fraction, len: int)
    requires
        f.den > 0,
        g.den > 0,
        e.den > 0,
    ensures
        len >= 0 && ends_by(f, g, e) ==> far_edge(f, g, len) <= near_edge(e, len),
        ends_at(f, g, e) ==> far_edge(f, g, len) == near_edge(e, len),
{
    let n = f.num * g.den + g.num * f.den;
    let d = (f.den * g.den) as int;
    let m = e.num as int;
    let k = e.den as int;
    assert(d > 0) by (nonlinear_arith)
        requires
            d == f.den * g.den,
            f.den > 0,
            g.den > 0,
    ;
    lemma_round_div_cancel(n * len, d, k);
    lemma_round_div_cancel(m * len, k, d);
    assert(d * k == k * d && d * k > 0) by (nonlinear_arith)
        requires
            d > 0,
            k > 0,
    ;
    assert((n * len) * k == (n * k) * len && (m * len) * d == (m * d) * len) by (nonlinear_arith);
    if len >= 0 && n * k <= m * d {
        assert((n * k) * len <= (m * d) * len) by (nonlinear_arith)
            requires
                len >= 0,
                n * k <= m * d,
        ;
        lemma_round_div_monotone((n * len) * k, (m * len) * d, d * k);
    }
}

/// Two cells sharing a vertical edge leave exactly the gap between them: no seam, no overlap.
pub proof fn law_columns_keep_the_gap(
    a: SnapCell,
    b: SnapCell,
    area: Rectangle,
    inner: int,
    ra: Rectangle,
    rb: Rectangle,
)
    requires
        a.valid(),
        b.valid(),
        ends_at(a.x, a.w, b.x),
        a.lands_on(area, inner, ra),
        b.lands_on(area, inner, rb),
        cell_room(a.x, a.w, area.size.w as int, inner) >= 1,
    ensures
        ra.loc.x + ra.size.w + inner == rb.loc.x,
{
    lemma_edges_in_order(a.x, a.w, b.x, area.size.w - inner);
}

/// Two cells sharing a horizontal edge leave exactly the gap between them.
pub proof fn law_rows_keep_the_gap(
    a: SnapCell,
    b: SnapCell,
    area: Rectangle,
    inner: int,
    ra: Rectangle,
    rb: Rectangle,
)
    requires
        a.valid(),
        b.valid(),
        ends_at(a.y, a.h, b.y),
        a.lands_on(area, inner, ra),
        b.lands_on(area, inner, rb),
        cell_room(a.y, a.h, area.size.h as int, inner) >= 1,
    ensures
        ra.loc.y + ra.size.h + inner == rb.loc.y,
{
    lemma_edges_in_order(a.y, a.h, b.y, area.size.h - inner);
}

/// The cell lies in the unit square.
pub open spec fn in_unit_square(cell: SnapCell) -> bool {
    &&& cell.valid()
    &&& ends_by(cell.x, cell.w, Fraction::new(1, 1))
    &&& ends_by(cell.y, cell.h, Fraction::new(1, 1))
}

/// There is room for the cell between the gaps.
pub open spec fn roomy(cell: SnapCell, area: Rectangle, inner: int) -> bool {
    &&& cell_room(cell.x, cell.w, area.size.w as int, inner) >= 1
    &&& cell_room(cell.y, cell.h, area.size.h as int, inner) >= 1
}

/// `r` stays `gap` away from every edge of `area`.
pub open spec fn inside(r: Rectangle, area: Rectangle, gap: int) -> bool {
    &&& r.loc.x >= area.loc.x + gap
    &&& r.loc.y >= area.loc.y + gap
    &&& r.loc.x + r.size.w <= area.loc.x + area.size.w - gap
    &&& r.loc.y + r.size.h <= area.loc.y + area.size.h - gap
}

/// The rectangles are at least `gap` apart on some axis.
pub open spec fn apart(r: Rectangle, s: Rectangle, gap: int) -> bool {
    ||| r.loc.x + r.size.w + gap <= s.loc.x
    ||| s.loc.x + s.size.w + gap <= r.loc.x
    ||| r.loc.y + r.size.h + gap <= s.loc.y
    ||| s.loc.y + s.size.h + gap <= r.loc.y
}

/// A cell can only have room on an axis that is longer than the gap.
proof fn lemma_room_needs_length(f: Fraction, g: Fraction, extent: int, inner: int)
    requires
        f.den > 0,
        g.den > 0,
        inner >= 0,
        cell_room(f, g, extent, inner) >= 1,
    ensures
        extent - inner >= 0,
{
    let len = extent - inner;
    let n = f.num * g.den + g.num * f.den;
    let fd = f.den as int;
    let gd = g.den as int;
    let fnum = f.num as int;
    assert(fd * gd > 0) by (nonlinear_arith)
        requires
            fd > 0,
            gd > 0,
    ;
    if len < 0 {
        // Both edges lie left of the origin and the far one is the further left.
        lemma_round_div_cancel(fnum * len, fd, gd);
        assert((fnum * len) * gd >= n * len) by (nonlinear_arith)
            requires
                n == fnum * gd + g.num * fd,
                g.num >= 0,
                fd > 0,
                len < 0,
        ;
        lemma_round_div_monotone(n * len, (fnum * len) * gd, fd * gd);
    }
}

proof fn lemma_axis_inside(f: Fraction, g: Fraction, origin: int, extent: int, inner: int)
    requires
        f.den > 0,
        g.den > 0,
        ends_by(f, g, Fraction::new(1, 1)),
        inner >= 0,
        cell_room(f, g, extent, inner) >= 1,
    ensures
        cell_start(f, origin, extent, inner) >= origin + inner,
        cell_start(f, origin, extent, inner) + cell_len(f, g, extent, inner) <= origin + extent
            - inner,
{
    let len = extent - inner;
    lemma_room_needs_length(f, g, extent, inner);
    lemma_edges_in_order(f, g, Fraction::new(1, 1), len);
    lemma_round_div_whole(len, 1);
    assert(f.num * len >= 0) by (nonlinear_arith)
        requires
            len >= 0,
            f.num >= 0,
    ;
    lemma_round_div_monotone(0, f.num * len, f.den as int);
    lemma_round_div_whole(0, f.den as int);
}

/// A cell in the unit square stays a gap away from the edges of the work area, as long as there is
/// room for it.
pub proof fn law_cell_stays_in_the_work_area(
    cell: SnapCell,
    area: Rectangle,
    inner: int,
    r: Rectangle,
)
    requires
        in_unit_square(cell),
        inner >= 0,
        roomy(cell, area, inner),
        cell.lands_on(area, inner, r),
    ensures
        inside(r, area, inner),
{
    lemma_axis_inside(cell.x, cell.w, area.loc.x as int, area.size.w as int, inner);
    lemma_axis_inside(cell.y, cell.h, area.loc.y as int, area.size.h as int, inner);
}

/// Cells one of which ends before the other begins are at least a gap apart.
pub proof fn law_cells_in_order_are_apart(
    a: SnapCell,
    b: SnapCell,
    area: Rectangle,
    inner: int,
    ra: Rectangle,
    rb: Rectangle,
)
    requires
        a.valid(),
        b.valid(),
        ends_by(a.x, a.w, b.x) || ends_by(a.y, a.h, b.y),
        inner >= 0,
        roomy(a, area, inner),
        a.lands_on(area, inner, ra),
        b.lands_on(area, inner, rb),
    ensures
        apart(ra, rb, inner),
{
    lemma_room_needs_length(a.x, a.w, area.size.w as int, inner);
    lemma_room_needs_length(a.y, a.h, area.size.h as int, inner);
    lemma_edges_in_order(a.x, a.w, b.x, area.size.w - inner);
    lemma_edges_in_order(a.y, a.h, b.y, area.size.h - inner);
}

/// The sums of fractions that occur in the layouts.
proof fn lemma_layout_sums()
    ensures
        ends_by(Fraction::new(0, 1), Fraction::new(1, 2), Fraction::new(1, 2)),
        ends_by(Fraction::new(0, 1), Fraction::new(1, 2), Fraction::new(1, 1)),
        ends_by(Fraction::new(1, 2), Fraction::new(1, 2), Fraction::new(1, 1)),
        ends_by(Fraction::new(0, 1), Fraction::new(1, 3), Fraction::new(1, 3)),
        ends_by(Fraction::new(0, 1), Fraction::new(1, 3), Fraction::new(2, 3)),
        ends_by(Fraction::new(0, 1), Fraction::new(1, 3), Fraction::new(1, 1)),
        ends_by(Fraction::new(1, 3), Fraction::new(1, 3), Fraction::new(2, 3)),
        ends_by(Fraction::new(1, 3), Fraction::new(1, 3), Fraction::new(1, 1)),
        ends_by(Fraction::new(2, 3), Fraction::new(1, 3), Fraction::new(1, 1)),
        ends_by(Fraction::new(0, 1), Fraction::new(1, 4), Fraction::new(1, 4)),
        ends_by(Fraction::new(0, 1), Fraction::new(1, 4), Fraction::new(3, 4)),
        ends_by(Fraction::new(0, 1), Fraction::new(1, 4), Fraction::new(1, 1)),
        ends_by(Fraction::new(1, 4), Fraction::new(1, 2), Fraction::new(3, 4)),
        ends_by(Fraction::new(1, 4), Fraction::new(1, 2), Fraction::new(1, 1)),
        ends_by(Fraction::new(3, 4), Fraction::new(1, 4), Fraction::new(1, 1)),
        ends_by(Fraction::new(0, 1), Fraction::new(1, 1), Fraction::new(1, 1)),
{
}

/// Every cell on offer lies in the unit square, and of two cells of a layout one ends before
/// the other begins.
proof fn lemma_layouts_divide_the_square(l: int, i: int, j: int)
    requires
        0 <= l < all_cells().len(),
        0 <= i < j < all_cells()[l].len(),
    ensures
        in_unit_square(all_cells()[l][i]),
        in_unit_square(all_cells()[l][j]),
        ends_by(all_cells()[l][i].x, all_cells()[l][i].w, all_cells()[l][j].x) || ends_by(
            all_cells()[l][i].y,
            all_cells()[l][i].h,
            all_cells()[l][j].y,
        ),
{
    lemma_layout_sums();
    assert(l == 0 || l == 1 || l == 2 || l == 3 || l == 4);
    assert(i == 0 || i == 1 || i == 2);
    assert(j == 1 || j == 2 || j == 3);
}

/// The cells of a layout do not overlap, stay inside the work area and keep the gap to its
/// edges and to each other: on every work area that has room for them, with any gap.
pub proof fn law_layouts_tile(l: int, area: Rectangle, inner: int, rects: Seq<Rectangle>)
    requires
        0 <= l < all_cells().len(),
        inner >= 0,
        rects.len() == all_cells()[l].len(),
        forall|i: int|
            #![trigger rects[i]]
            0 <= i < rects.len() ==> all_cells()[l][i].lands_on(area, inner, rects[i]),
        forall|i: int|
            #![trigger all_cells()[l][i]]
            0 <= i < rects.len() ==> roomy(all_cells()[l][i], area, inner),
    ensures
        forall|i: int| #![trigger rects[i]] 0 <= i < rects.len() ==> inside(
            rects[i],
            area,
            inner,
        ),
        forall|i: int, j: int|
            #![trigger rects[i], rects[j]]
            0 <= i < j < rects.len() ==> apart(rects[i], rects[j], inner) && !rects[i].meets(
                rects[j],
            ),
{
    let cells = all_cells()[l];
    assert(cells.len() >= 2);
    assert forall|i: int| #![trigger rects[i]] 0 <= i < rects.len() implies inside(
        rects[i],
        area,
        inner,
    ) by {
        if i == 0 {
            lemma_layouts_divide_the_square(l, 0, 1);
        } else {
            lemma_layouts_divide_the_square(l, 0, i);
        }
        assert(roomy(cells[i], area, inner));
        law_cell_stays_in_the_work_area(cells[i], area, inner, rects[i]);
    }
    assert forall|i: int, j: int| #![trigger rects[i], rects[j]] 0 <= i < j < rects.len() implies {
        &&& apart(rects[i], rects[j], inner)
        &&& !rects[i].meets(rects[j])
    } by {
        lemma_layouts_divide_the_square(l, i, j);
        assert(roomy(cells[i], area, inner));
        law_cells_in_order_are_apart(cells[i], cells[j], area, inner, rects[i], rects[j]);
    }
}

/// Cells of one column stand next to each other.
pub open spec fn column_major(cells: Seq<SnapCell>) -> bool {
    forall|i: int, k: int, j: int|
        #![trigger cells[i], cells[k], cells[j]]
        0 <= i < k < j < cells.len() && same(cells[i].x, cells[j].x) ==> same(
            cells[i].x,
            cells[k].x,
        )
}

/// Every layout is listed column by column.
pub proof fn law_layouts_are_column_major(l: int)
    requires
        0 <= l < all_cells().len(),
    ensures
        column_major(all_cells()[l]),
{
    let cells = all_cells()[l];
    assert forall|i: int, k: int, j: int|
        #![trigger cells[i], cells[k], cells[j]]
        0 <= i < k < j < cells.len() && same(cells[i].x, cells[j].x) implies same(
        cells[i].x,
        cells[k].x,
    ) by {
        lemma_same_shares(cells[j].x);
        assert(l == 0 || l == 1 || l == 2 || l == 3 || l == 4);
        assert(i == 0 || i == 1);
        assert(k == 1 || k == 2);
        assert(j == 2 || j == 3);
    }
}

/// Where each snapped state lies. One that takes a side, or the whole of an axis, begins a gap
/// from the start of the axis; one that takes the far side begins half a gap beyond the middle.
/// The whole of an axis leaves a gap at both ends, and a half leaves room for a gap and a half.
pub proof fn law_snapped_states_lie_where_their_names_say(
    corner: TiledCorners,
    area: Rectangle,
    inner: int,
    r: Rectangle,
)
    requires
        area.valid(),
        inner >= 0,
        corner.lands_on(area, inner, r),
    ensures
        ({
            let (w, h) = (area.size.w as int, area.size.h as int);
            let (dx, dy) = (r.loc.x - area.loc.x, r.loc.y - area.loc.y);
            let left = corner == TiledCorners::Left || corner == TiledCorners::TopLeft || corner
                == TiledCorners::BottomLeft;
            let right = corner == TiledCorners::Right || corner == TiledCorners::TopRight || corner
                == TiledCorners::BottomRight;
            let top = corner == TiledCorners::Top || corner == TiledCorners::TopLeft || corner
                == TiledCorners::TopRight;
            let bottom = corner == TiledCorners::Bottom || corner == TiledCorners::BottomLeft
                || corner == TiledCorners::BottomRight;
            &&& !right ==> dx == inner
            &&& right ==> dx == w / 2 + inner / 2
            &&& !left && !right ==> dx + r.size.w + inner == w
            &&& left || right ==> r.size.w == w / 2 - (3 * inner) / 2
            &&& !bottom ==> dy == inner
            &&& bottom ==> dy == h / 2 + inner / 2
            &&& !top && !bottom ==> dy + r.size.h + inner == h
            &&& top || bottom ==> r.size.h == h / 2 - (3 * inner) / 2
        }),
{
}

/// On one axis, where a cell begins and ends.
proof fn lemma_axis_is_nearest(f: Fraction, g: Fraction, origin: int, extent: int, inner: int)
    requires
        f.den > 0,
        g.den > 0,
    ensures
        ({
            let start = cell_start(f, origin, extent, inner) - origin - inner;
            let end = start + cell_room(f, g, extent, inner) + inner;
            let d = f.den * g.den;
            let n = f.num * g.den + g.num * f.den;
            &&& -f.den <= 2 * (start * f.den - f.num * (extent - inner)) <= f.den
            &&& -d <= 2 * (end * d - n * (extent - inner)) <= d
        }),
{
    let d = f.den * g.den;
    assert(d > 0) by (nonlinear_arith)
        requires
            d == f.den * g.den,
            f.den > 0,
            g.den > 0,
    ;
    law_round_div_is_nearest(f.num * (extent - inner), f.den as int);
    law_round_div_is_nearest(
        (f.num * g.den + g.num * f.den) * (extent - inner),
        (f.den * g.den) as int,
    );
}

/// A cell begins a gap beyond its fraction of the work area and ends where its other fraction is,
/// both to within half a pixel. The work area is measured without one gap.
pub proof fn law_cells_are_at_their_fractions(
    cell: SnapCell,
    area: Rectangle,
    inner: int,
    r: Rectangle,
)
    requires
        cell.valid(),
        cell.lands_on(area, inner, r),
        roomy(cell, area, inner),
    ensures
        ({
            let (w, h) = (area.size.w - inner, area.size.h - inner);
            let (x, y) = (r.loc.x - area.loc.x - inner, r.loc.y - area.loc.y - inner);
            let (x1, y1) = (x + r.size.w + inner, y + r.size.h + inner);
            let dx = cell.x.den * cell.w.den;
            let dy = cell.y.den * cell.h.den;
            let nx = cell.x.num * cell.w.den + cell.w.num * cell.x.den;
            let ny = cell.y.num * cell.h.den + cell.h.num * cell.y.den;
            &&& -cell.x.den <= 2 * (x * cell.x.den - cell.x.num * w) <= cell.x.den
            &&& -cell.y.den <= 2 * (y * cell.y.den - cell.y.num * h) <= cell.y.den
            &&& -dx <= 2 * (x1 * dx - nx * w) <= dx
            &&& -dy <= 2 * (y1 * dy - ny * h) <= dy
        }),
{
    lemma_axis_is_nearest(cell.x, cell.w, area.loc.x as int, area.size.w as int, inner);
    lemma_axis_is_nearest(cell.y, cell.h, area.loc.y as int, area.size.h as int, inner);
}

/// A cell never vanishes: one without room is a pixel wide or high, and begins where it would
/// otherwise.
pub proof fn law_cells_never_vanish(cell: SnapCell, area: Rectangle, inner: int, r: Rectangle)
    requires
        cell.valid(),
        cell.lands_on(area, inner, r),
    ensures
        ({
            let w = area.size.w - inner;
            let x = r.loc.x - area.loc.x - inner;
            let y = r.loc.y - area.loc.y - inner;
            let h = area.size.h - inner;
            &&& r.size.w >= 1
            &&& r.size.h >= 1
            &&& -cell.x.den <= 2 * (x * cell.x.den - cell.x.num * w) <= cell.x.den
            &&& -cell.y.den <= 2 * (y * cell.y.den - cell.y.num * h) <= cell.y.den
            &&& cell_room(cell.x, cell.w, area.size.w as int, inner) < 1 ==> r.size.w == 1
            &&& cell_room(cell.y, cell.h, area.size.h as int, inner) < 1 ==> r.size.h == 1
        }),
{
    lemma_axis_is_nearest(cell.x, cell.w, area.loc.x as int, area.size.w as int, inner);
    lemma_axis_is_nearest(cell.y, cell.h, area.loc.y as int, area.size.h as int, inner);
}

/// The cells at the edges of the unit square reach exactly to a gap from the edges of the work
/// area.
pub proof fn law_outer_cells_reach_the_edges(
    cell: SnapCell,
    area: Rectangle,
    inner: int,
    r: Rectangle,
)
    requires
        cell.valid(),
        inner >= 0,
        roomy(cell, area, inner),
        cell.lands_on(area, inner, r),
    ensures
        cell.x.num == 0 ==> r.loc.x == area.loc.x + inner,
        cell.y.num == 0 ==> r.loc.y == area.loc.y + inner,
        ends_at(cell.x, cell.w, Fraction::new(1, 1)) ==> r.loc.x + r.size.w + inner == area.loc.x
            + area.size.w,
        ends_at(cell.y, cell.h, Fraction::new(1, 1)) ==> r.loc.y + r.size.h + inner == area.loc.y
            + area.size.h,
{
    let w = area.size.w - inner;
    let h = area.size.h - inner;
    lemma_edges_in_order(cell.x, cell.w, Fraction::new(1, 1), w);
    lemma_edges_in_order(cell.y, cell.h, Fraction::new(1, 1), h);
    lemma_round_div_whole(w, 1);
    lemma_round_div_whole(h, 1);
    lemma_round_div_whole(0, cell.x.den as int);
    lemma_round_div_whole(0, cell.y.den as int);
    assert(0 * w == 0 && 0 * h == 0);
}

/// What the layouts are: two equal columns; four equal quarters; a column beside two halves of
/// one; three equal columns; and a column between two that are half as wide. Each fills the unit
/// square from its top left corner on.
pub proof fn law_layouts_are_what_they_are_called()
    ensures
        all_cells().len() == 5,
        all_cells()[0] == halves() && all_ids()[0] == "halves"@,
        all_cells()[1] == quarters() && all_ids()[1] == "quarters"@,
        all_cells()[2] == left_big() && all_ids()[2] == "left-big"@,
        all_cells()[3] == thirds() && all_ids()[3] == "thirds"@,
        all_cells()[4] == wide_middle() && all_ids()[4] == "wide-middle"@,
        all_ids().len() == 5,
        halves().len() == 2,
        is_column(halves()[0], 0, 1, 2),
        is_column(halves()[1], 1, 1, 2),
        quarters().len() == 4,
        is_part(quarters()[0], 0, 1, 2, 0, 1, 2),
        is_part(quarters()[1], 0, 1, 2, 1, 1, 2),
        is_part(quarters()[2], 1, 1, 2, 0, 1, 2),
        is_part(quarters()[3], 1, 1, 2, 1, 1, 2),
        left_big().len() == 3,
        is_column(left_big()[0], 0, 1, 2),
        is_part(left_big()[1], 1, 1, 2, 0, 1, 2),
        is_part(left_big()[2], 1, 1, 2, 1, 1, 2),
        thirds().len() == 3,
        is_column(thirds()[0], 0, 1, 3),
        is_column(thirds()[1], 1, 1, 3),
        is_column(thirds()[2], 2, 1, 3),
        wide_middle().len() == 3,
        is_column(wide_middle()[0], 0, 1, 4),
        is_column(wide_middle()[1], 1, 2, 4),
        is_column(wide_middle()[2], 3, 1, 4),
{
}

/// The cell is `w` of `columns` columns wide and of full height, and begins with the `x`th column.
pub open spec fn is_column(cell: SnapCell, x: int, w: int, columns: int) -> bool {
    is_part(cell, x, w, columns, 0, 1, 1)
}

/// The cell is `w` of `columns` columns wide and `h` of `rows` rows high, and begins with the
/// `x`th column and the `y`th row.
pub open spec fn is_part(
    cell: SnapCell,
    x: int,
    w: int,
    columns: int,
    y: int,
    h: int,
    rows: int,
) -> bool {
    &&& cell.valid()
    &&& cell.x.num * columns == x * cell.x.den
    &&& cell.w.num * columns == w * cell.w.den
    &&& cell.y.num * rows == y * cell.y.den
    &&& cell.h.num * rows == h * cell.h.den
}

/// A pick names the cell that is listed at its place, and nothing outside the lists.
pub proof fn law_picks_name_what_is_listed(l: usize, c: usize)
    ensures
        picked((l, c)) is Some <==> l < all_cells().len() && c < all_cells()[l as int].len(),
        picked((l, c)) matches Some(cell) ==> cell == all_cells()[l as int][c as int],
{
}

/// A cell is a corner if its edges are: it begins at the start or in the middle, and takes a half
/// or the whole, on each axis as the name of the corner says.
pub proof fn law_corners_are_halves(cell: SnapCell)
    requires
        cell.valid(),
    ensures
        cell.is_corner(TiledCorners::Top) <==> is_part(cell, 0, 2, 2, 0, 1, 2),
        cell.is_corner(TiledCorners::Bottom) <==> is_part(cell, 0, 2, 2, 1, 1, 2),
        cell.is_corner(TiledCorners::Left) <==> is_part(cell, 0, 1, 2, 0, 2, 2),
        cell.is_corner(TiledCorners::Right) <==> is_part(cell, 1, 1, 2, 0, 2, 2),
        cell.is_corner(TiledCorners::TopLeft) <==> is_part(cell, 0, 1, 2, 0, 1, 2),
        cell.is_corner(TiledCorners::TopRight) <==> is_part(cell, 1, 1, 2, 0, 1, 2),
        cell.is_corner(TiledCorners::BottomLeft) <==> is_part(cell, 0, 1, 2, 1, 1, 2),
        cell.is_corner(TiledCorners::BottomRight) <==> is_part(cell, 1, 1, 2, 1, 1, 2),
{
    lemma_same_shares(cell.x);
    lemma_same_shares(cell.y);
    lemma_same_shares(cell.w);
    lemma_same_shares(cell.h);
}

} // verus!
