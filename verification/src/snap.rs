//! Snap layouts: how a work area is divided into the cells a window can be dropped into.
//!
//! A cell is a fraction of the work area, so a layout does not depend on resolution. The same
//! fractions give the rectangle a window is snapped to and the thumbnail drawn for it.

use crate::fraction::{law_round_div_is_nearest, round_div, round_quotient, Fraction};
use crate::geometry::{fits, max, trunc_div, Point, Rectangle, Size};
use vstd::prelude::*;

verus! {

/// The edges and corners of the work area a window can be snapped to.
#[derive(Debug, Clone, Copy, PartialEq, Eq, Structural)]
pub enum TiledCorners {
    Top,
    TopRight,
    Right,
    BottomRight,
    Bottom,
    BottomLeft,
    Left,
    TopLeft,
}

/// The part of one axis that a tiled window takes.
pub enum Share {
    Full,
    First,
    Second,
}

/// Where a tiled window begins on an axis that starts at `origin` and is `extent` long.
pub open spec fn tiled_start(share: Share, origin: int, extent: int, inner: int) -> int {
    match share {
        Share::Full => origin + inner,
        Share::First => origin + inner,
        Share::Second => origin + trunc_div(extent, 2) + trunc_div(inner, 2),
    }
}

/// How long a tiled window is on an axis that is `extent` long.
pub open spec fn tiled_len(share: Share, extent: int, inner: int) -> int {
    match share {
        Share::Full => extent - 2 * inner,
        _ => trunc_div(extent, 2) - trunc_div(3 * inner, 2),
    }
}

impl TiledCorners {
    pub open spec fn column(self) -> Share {
        match self {
            TiledCorners::Top | TiledCorners::Bottom => Share::Full,
            TiledCorners::Left | TiledCorners::TopLeft | TiledCorners::BottomLeft => Share::First,
            _ => Share::Second,
        }
    }

    pub open spec fn row(self) -> Share {
        match self {
            TiledCorners::Left | TiledCorners::Right => Share::Full,
            TiledCorners::Top | TiledCorners::TopLeft | TiledCorners::TopRight => Share::First,
            _ => Share::Second,
        }
    }

    /// The rectangle has representable coordinates.
    pub open spec fn placeable(self, area: Rectangle, inner: int) -> bool {
        &&& fits(tiled_start(self.column(), area.loc.x as int, area.size.w as int, inner))
        &&& fits(tiled_start(self.row(), area.loc.y as int, area.size.h as int, inner))
        &&& fits(tiled_len(self.column(), area.size.w as int, inner))
        &&& fits(tiled_len(self.row(), area.size.h as int, inner))
    }

    /// `r` is where the corner lies in `area`.
    pub open spec fn lands_on(self, area: Rectangle, inner: int, r: Rectangle) -> bool {
        &&& r.loc.x == tiled_start(self.column(), area.loc.x as int, area.size.w as int, inner)
        &&& r.loc.y == tiled_start(self.row(), area.loc.y as int, area.size.h as int, inner)
        &&& r.size.w == tiled_len(self.column(), area.size.w as int, inner)
        &&& r.size.h == tiled_len(self.row(), area.size.h as int, inner)
    }

    /// Where a window snapped here lies: `inner` away from the edges of `area` and from the
    /// neighbouring window, the middle being half the area rounded toward zero.
    pub fn relative_geometry(&self, area: Rectangle, gaps: (i32, i32)) -> (r: Rectangle)
        requires
            self.placeable(area, gaps.1 as int),
        ensures
            self.lands_on(area, gaps.1 as int, r),
    {
        let inner: i64 = gaps.1 as i64;
        let x: i64 = area.loc.x as i64;
        let y: i64 = area.loc.y as i64;
        let w: i64 = area.size.w as i64;
        let h: i64 = area.size.h as i64;
        let (left, width): (i64, i64) = match self {
            TiledCorners::Top | TiledCorners::Bottom => (x + inner, w - 2 * inner),
            TiledCorners::Left | TiledCorners::TopLeft | TiledCorners::BottomLeft => (
                x + inner,
                w / 2 - 3 * inner / 2,
            ),
            TiledCorners::Right | TiledCorners::TopRight | TiledCorners::BottomRight => (
                x + w / 2 + inner / 2,
                w / 2 - 3 * inner / 2,
            ),
        };
        let (top, height): (i64, i64) = match self {
            TiledCorners::Left | TiledCorners::Right => (y + inner, h - 2 * inner),
            TiledCorners::Top | TiledCorners::TopLeft | TiledCorners::TopRight => (
                y + inner,
                h / 2 - 3 * inner / 2,
            ),
            TiledCorners::Bottom | TiledCorners::BottomLeft | TiledCorners::BottomRight => (
                y + h / 2 + inner / 2,
                h / 2 - 3 * inner / 2,
            ),
        };
        Rectangle {
            loc: Point { x: left as i32, y: top as i32 },
            size: Size { w: width as i32, h: height as i32 },
        }
    }
}

/// One cell of a layout: `x`/`y` is the top left corner and `w`/`h` the size, each a fraction
/// of the work area.
#[derive(Debug, Clone, Copy, PartialEq, Eq, Structural)]
pub struct SnapCell {
    pub x: Fraction,
    pub y: Fraction,
    pub w: Fraction,
    pub h: Fraction,
}

/// Pixels from the start of an axis of length `len` to the fraction `f` of it.
pub open spec fn near_edge(f: Fraction, len: int) -> int {
    round_div(f.num * len, f.den as int)
}

/// Pixels from the start of an axis of length `len` to the fraction `f + g` of it.
pub open spec fn far_edge(f: Fraction, g: Fraction, len: int) -> int {
    round_div((f.num * g.den + g.num * f.den) * len, f.den * g.den)
}

/// Where the cell begins: a gap from where its fraction of the axis begins. Fractions are measured
/// in the axis less one gap, so that the last cell ends a gap from the end of the axis.
pub open spec fn cell_start(f: Fraction, origin: int, extent: int, inner: int) -> int {
    origin + inner + near_edge(f, extent - inner)
}

/// What is left of the cell once the gap is taken off.
pub open spec fn cell_room(f: Fraction, g: Fraction, extent: int, inner: int) -> int {
    far_edge(f, g, extent - inner) - near_edge(f, extent - inner) - inner
}

/// How long the cell is. It never vanishes.
pub open spec fn cell_len(f: Fraction, g: Fraction, extent: int, inner: int) -> int {
    max(cell_room(f, g, extent, inner), 1)
}

/// Both edges of a cell on one axis, as `(start, length)`.
fn cell_span(f: Fraction, g: Fraction, origin: i32, extent: i32, inner: i32) -> (r: (i128, i128))
    requires
        f.den > 0,
        g.den > 0,
    ensures
        r.0 == cell_start(f, origin as int, extent as int, inner as int),
        r.1 == cell_len(f, g, extent as int, inner as int),
        -0x10_0000_0000_0000_0000 < r.0 < 0x10_0000_0000_0000_0000,
        1 <= r.1 < 0x20_0000_0000_0000_0000,
{
    let len: i128 = extent as i128 - inner as i128;
    let f_num: i128 = f.num as i128;
    let f_den: i128 = f.den as i128;
    let g_num: i128 = g.num as i128;
    let g_den: i128 = g.den as i128;
    assert(-0x1_0000_0000_0000 <= f_num * len <= 0x1_0000_0000_0000) by (nonlinear_arith)
        requires
            0 <= f_num <= 0xffff,
            -0x1_0000_0000 <= len <= 0x1_0000_0000,
    ;
    assert(0 <= f_num * g_den <= 0xffff_0000 && 0 <= g_num * f_den <= 0xffff_0000 && 0 < f_den
        * g_den <= 0xffff_0000) by (nonlinear_arith)
        requires
            0 <= f_num <= 0xffff,
            0 <= g_num <= 0xffff,
            0 < f_den <= 0xffff,
            0 < g_den <= 0xffff,
    ;
    let total: i128 = f_num * g_den + g_num * f_den;
    assert(-0x2_0000_0000_0000_0000 <= total * len <= 0x2_0000_0000_0000_0000) by (nonlinear_arith)
        requires
            0 <= total <= 0x1_ffff_0000,
            -0x1_0000_0000 <= len <= 0x1_0000_0000,
    ;
    let near: i128 = round_quotient(f_num * len, f_den);
    let far: i128 = round_quotient(total * len, f_den * g_den);
    proof {
        lemma_round_bound((f_num * len) as int, f_den as int);
        lemma_round_bound((total * len) as int, (f_den * g_den) as int);
    }
    let room: i128 = far - near - inner as i128;
    (origin as i128 + inner as i128 + near, if room > 1 {
        room
    } else {
        1
    })
}

/// A rounded quotient is no further from zero than what was divided.
proof fn lemma_round_bound(n: int, d: int)
    requires
        d > 0,
    ensures
        -max(n, -n) - 1 <= round_div(n, d) <= max(n, -n) + 1,
{
    law_round_div_is_nearest(n, d);
    let q = round_div(n, d);
    let a = max(n, -n);
    assert(-a - 1 <= q <= a + 1) by (nonlinear_arith)
        requires
            d > 0,
            -a <= n <= a,
            -d <= 2 * (q * d - n) <= d,
    ;
}

/// The fractions are the same number.
pub open spec fn same(a: Fraction, b: Fraction) -> bool {
    a.num * b.den == b.num * a.den
}

pub fn same_fraction(a: Fraction, b: Fraction) -> (r: bool)
    ensures
        r == same(a, b),
{
    assert(a.num * b.den <= 0xffff_ffff && b.num * a.den <= 0xffff_ffff) by (nonlinear_arith)
        requires
            a.num <= 0xffff,
            b.num <= 0xffff,
            a.den <= 0xffff,
            b.den <= 0xffff,
    ;
    a.num as u64 * b.den as u64 == b.num as u64 * a.den as u64
}

/// Where a share of an axis begins.
pub open spec fn share_start(share: Share) -> Fraction {
    match share {
        Share::Second => Fraction::new(1, 2),
        _ => Fraction::new(0, 1),
    }
}

/// How much of an axis a share is.
pub open spec fn share_len(share: Share) -> Fraction {
    match share {
        Share::Full => Fraction::new(1, 1),
        _ => Fraction::new(1, 2),
    }
}

impl SnapCell {
    pub open spec fn valid(self) -> bool {
        self.x.den > 0 && self.y.den > 0 && self.w.den > 0 && self.h.den > 0
    }

    /// The rectangle has representable coordinates.
    pub open spec fn placeable(self, area: Rectangle, inner: int) -> bool {
        &&& fits(cell_start(self.x, area.loc.x as int, area.size.w as int, inner))
        &&& fits(cell_start(self.y, area.loc.y as int, area.size.h as int, inner))
        &&& fits(cell_len(self.x, self.w, area.size.w as int, inner))
        &&& fits(cell_len(self.y, self.h, area.size.h as int, inner))
    }

    /// `r` is where the cell lies in `area`.
    pub open spec fn lands_on(self, area: Rectangle, inner: int, r: Rectangle) -> bool {
        &&& r.loc.x == cell_start(self.x, area.loc.x as int, area.size.w as int, inner)
        &&& r.loc.y == cell_start(self.y, area.loc.y as int, area.size.h as int, inner)
        &&& r.size.w == cell_len(self.x, self.w, area.size.w as int, inner)
        &&& r.size.h == cell_len(self.y, self.h, area.size.h as int, inner)
    }

    /// The cell takes the same fractions of the work area as `corner`.
    pub open spec fn is_corner(self, corner: TiledCorners) -> bool {
        &&& same(self.x, share_start(corner.column()))
        &&& same(self.w, share_len(corner.column()))
        &&& same(self.y, share_start(corner.row()))
        &&& same(self.h, share_len(corner.row()))
    }

    pub fn new(x: Fraction, y: Fraction, w: Fraction, h: Fraction) -> (r: SnapCell)
        ensures
            r == (SnapCell { x, y, w, h }),
    {
        SnapCell { x, y, w, h }
    }

    /// Where this cell lands on `work_area`: `inner` away from the outer edges and from the
    /// neighbouring cells. Both edges are rounded from their fraction, so that two cells
    /// sharing an edge neither overlap nor leave a seam.
    pub fn relative_geometry(&self, work_area: Rectangle, gaps: (i32, i32)) -> (r: Rectangle)
        requires
            self.valid(),
            self.placeable(work_area, gaps.1 as int),
        ensures
            self.lands_on(work_area, gaps.1 as int, r),
    {
        let (x, w) = cell_span(self.x, self.w, work_area.loc.x, work_area.size.w, gaps.1);
        let (y, h) = cell_span(self.y, self.h, work_area.loc.y, work_area.size.h, gaps.1);
        Rectangle {
            loc: Point { x: x as i32, y: y as i32 },
            size: Size { w: w as i32, h: h as i32 },
        }
    }

    /// The snapped state this cell is the same rectangle as, if there is one.
    pub fn as_tiled_corner(&self) -> (r: Option<TiledCorners>)
        requires
            self.valid(),
        ensures
            r matches Some(corner) ==> self.is_corner(corner),
            r is None ==> forall|corner: TiledCorners| !self.is_corner(corner),
    {
        let full_w = same_fraction(self.w, Fraction::new(1, 1));
        let full_h = same_fraction(self.h, Fraction::new(1, 1));
        let half_w = same_fraction(self.w, Fraction::new(1, 2));
        let half_h = same_fraction(self.h, Fraction::new(1, 2));
        let left = same_fraction(self.x, Fraction::new(0, 1));
        let right = same_fraction(self.x, Fraction::new(1, 2));
        let top = same_fraction(self.y, Fraction::new(0, 1));
        let bottom = same_fraction(self.y, Fraction::new(1, 2));
        if full_w && half_h && left && top {
            Some(TiledCorners::Top)
        } else if full_w && half_h && left && bottom {
            Some(TiledCorners::Bottom)
        } else if half_w && full_h && left && top {
            Some(TiledCorners::Left)
        } else if half_w && full_h && right && top {
            Some(TiledCorners::Right)
        } else if half_w && half_h && left && top {
            Some(TiledCorners::TopLeft)
        } else if half_w && half_h && right && top {
            Some(TiledCorners::TopRight)
        } else if half_w && half_h && left && bottom {
            Some(TiledCorners::BottomLeft)
        } else if half_w && half_h && right && bottom {
            Some(TiledCorners::BottomRight)
        } else {
            None
        }
    }
}

} // verus!
