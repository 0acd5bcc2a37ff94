//! Points, sizes and rectangles in whole pixels.
//!
//! Arithmetic on coordinates saturates at the bounds of `i32`. A rectangle covers its left and
//! top edge and not its right and bottom one.

use vstd::prelude::*;

verus! {

/// The `i32` nearest to `v`.
pub open spec fn sat(v: int) -> int {
    if v < i32::MIN {
        i32::MIN as int
    } else if v > i32::MAX {
        i32::MAX as int
    } else {
        v
    }
}

/// Whether `v` is representable as an `i32`.
pub open spec fn fits(v: int) -> bool {
    i32::MIN <= v <= i32::MAX
}

/// `n / d` rounded toward zero, the way machine division rounds.
pub open spec fn trunc_div(n: int, d: int) -> int
    recommends
        d > 0,
{
    if n >= 0 {
        n / d
    } else {
        -((-n) / d)
    }
}

pub open spec fn min(a: int, b: int) -> int {
    if a < b {
        a
    } else {
        b
    }
}

pub open spec fn max(a: int, b: int) -> int {
    if a > b {
        a
    } else {
        b
    }
}

/// The `i32` nearest to `v`.
pub fn saturate(v: i64) -> (r: i32)
    ensures
        r == sat(v as int),
{
    if v < i32::MIN as i64 {
        i32::MIN
    } else if v > i32::MAX as i64 {
        i32::MAX
    } else {
        v as i32
    }
}

#[derive(Debug, Clone, Copy, PartialEq, Eq, Structural)]
pub struct Point {
    pub x: i32,
    pub y: i32,
}

#[derive(Debug, Clone, Copy, PartialEq, Eq, Structural)]
pub struct Size {
    pub w: i32,
    pub h: i32,
}

#[derive(Debug, Clone, Copy, PartialEq, Eq, Structural)]
pub struct Rectangle {
    pub loc: Point,
    pub size: Size,
}

impl Point {
    /// Componentwise saturating sum.
    pub open spec fn plus(self, other: Point) -> Point {
        Point { x: sat(self.x + other.x) as i32, y: sat(self.y + other.y) as i32 }
    }

    /// Componentwise saturating difference.
    pub open spec fn minus(self, other: Point) -> Point {
        Point { x: sat(self.x - other.x) as i32, y: sat(self.y - other.y) as i32 }
    }

    /// This point moved by `other`.
    pub fn translate(self, other: Point) -> (r: Point)
        ensures
            r == self.plus(other),
    {
        Point {
            x: saturate(self.x as i64 + other.x as i64),
            y: saturate(self.y as i64 + other.y as i64),
        }
    }

    /// This point seen from `origin`.
    pub fn relative_to(self, origin: Point) -> (r: Point)
        ensures
            r == self.minus(origin),
    {
        Point {
            x: saturate(self.x as i64 - origin.x as i64),
            y: saturate(self.y as i64 - origin.y as i64),
        }
    }
}

impl Size {
    /// No side is negative.
    pub open spec fn valid(self) -> bool {
        self.w >= 0 && self.h >= 0
    }
}

impl Rectangle {
    pub open spec fn valid(self) -> bool {
        self.size.valid()
    }

    /// The first column right of the rectangle.
    pub open spec fn right(self) -> int {
        sat(self.loc.x + self.size.w)
    }

    /// The first row below the rectangle.
    pub open spec fn bottom(self) -> int {
        sat(self.loc.y + self.size.h)
    }

    /// `p` lies on one of the rectangle's pixels.
    pub open spec fn covers(self, p: Point) -> bool {
        &&& self.loc.x <= p.x < self.right()
        &&& self.loc.y <= p.y < self.bottom()
    }

    /// The rectangles share area; touching edges do not count.
    pub open spec fn meets(self, other: Rectangle) -> bool {
        &&& self.loc.x < other.right()
        &&& other.loc.x < self.right()
        &&& self.loc.y < other.bottom()
        &&& other.loc.y < self.bottom()
    }

    /// The rectangles share area or touch at an edge or corner.
    pub open spec fn adjoins(self, other: Rectangle) -> bool {
        &&& self.loc.x <= other.right()
        &&& other.loc.x <= self.right()
        &&& self.loc.y <= other.bottom()
        &&& other.loc.y <= self.bottom()
    }

    /// The area two rectangles share.
    pub open spec fn common_area(self, other: Rectangle) -> Option<Rectangle> {
        if self.meets(other) {
            let left = max(self.loc.x as int, other.loc.x as int);
            let top = max(self.loc.y as int, other.loc.y as int);
            Some(
                Rectangle {
                    loc: Point { x: left as i32, y: top as i32 },
                    size: Size {
                        w: sat(min(self.right(), other.right()) - left) as i32,
                        h: sat(min(self.bottom(), other.bottom()) - top) as i32,
                    },
                },
            )
        } else {
            None
        }
    }

    pub fn right_edge(self) -> (r: i32)
        ensures
            r == self.right(),
    {
        saturate(self.loc.x as i64 + self.size.w as i64)
    }

    pub fn bottom_edge(self) -> (r: i32)
        ensures
            r == self.bottom(),
    {
        saturate(self.loc.y as i64 + self.size.h as i64)
    }

    /// Whether `point` is inside the rectangle.
    pub fn contains(self, point: Point) -> (r: bool)
        ensures
            r == self.covers(point),
    {
        point.x >= self.loc.x && point.x < self.right_edge() && point.y >= self.loc.y && point.y
            < self.bottom_edge()
    }

    /// Whether the rectangles overlap; touching alone does not count.
    pub fn overlaps(self, other: Rectangle) -> (r: bool)
        ensures
            r == self.meets(other),
    {
        self.loc.x < other.right_edge() && other.loc.x < self.right_edge() && self.loc.y
            < other.bottom_edge() && other.loc.y < self.bottom_edge()
    }

    /// Whether the rectangles overlap or touch.
    pub fn overlaps_or_touches(self, other: Rectangle) -> (r: bool)
        ensures
            r == self.adjoins(other),
    {
        self.loc.x <= other.right_edge() && other.loc.x <= self.right_edge() && self.loc.y
            <= other.bottom_edge() && other.loc.y <= self.bottom_edge()
    }

    /// The overlapping area, `None` where there is none.
    pub fn intersection(self, other: Rectangle) -> (r: Option<Rectangle>)
        ensures
            r == self.common_area(other),
    {
        if !self.overlaps(other) {
            return None;
        }
        let left: i32 = if self.loc.x > other.loc.x { self.loc.x } else { other.loc.x };
        let top: i32 = if self.loc.y > other.loc.y { self.loc.y } else { other.loc.y };
        let right: i32 = if self.right_edge() < other.right_edge() {
            self.right_edge()
        } else {
            other.right_edge()
        };
        let bottom: i32 = if self.bottom_edge() < other.bottom_edge() {
            self.bottom_edge()
        } else {
            other.bottom_edge()
        };
        Some(
            Rectangle {
                loc: Point { x: left, y: top },
                size: Size {
                    w: saturate(right as i64 - left as i64),
                    h: saturate(bottom as i64 - top as i64),
                },
            },
        )
    }

    /// Overlapping is symmetric, and so is the overlapping area.
    pub proof fn law_intersection_symmetric(self, other: Rectangle)
        ensures
            self.meets(other) == other.meets(self),
            self.common_area(other) == other.common_area(self),
    {
    }

    /// The overlapping area of two valid rectangles consists of exactly the pixels that both
    /// cover.
    pub proof fn law_intersection_is_common_pixels(self, other: Rectangle, p: Point)
        requires
            self.valid(),
            other.valid(),
        ensures
            (self.covers(p) && other.covers(p)) <==> (self.common_area(other) matches Some(r)
                && r.covers(p)),
    {
    }
}

/// Saturating changes nothing that an `i32` can hold, and stops at the bound that was passed
/// otherwise.
pub proof fn law_saturation_stops_at_the_bounds(v: int)
    ensures
        fits(v) <==> -0x8000_0000 <= v <= 0x7fff_ffff,
        fits(v) ==> sat(v) == v,
        v > 0x7fff_ffff ==> sat(v) == 0x7fff_ffff,
        v < -0x8000_0000 ==> sat(v) == -0x8000_0000,
{
}

/// Division rounds toward zero: what is left over is less than the divisor and has the sign of
/// what was divided.
pub proof fn law_division_rounds_toward_zero(n: int, d: int)
    requires
        d > 0,
    ensures
        n >= 0 ==> 0 <= n - trunc_div(n, d) * d < d,
        n <= 0 ==> -d < n - trunc_div(n, d) * d <= 0,
{
    let m = if n >= 0 {
        n
    } else {
        -n
    };
    let q = m / d;
    assert(0 <= m - q * d < d) by (nonlinear_arith)
        requires
            d > 0,
            q == m / d,
    ;
    assert((-q) * d == -(q * d)) by (nonlinear_arith);
}

/// A point that is moved goes as far as it is moved by, and comes back when it is seen from
/// there: on each axis by itself, where nothing saturates.
pub proof fn law_moving_there_and_back(p: Point, by: Point)
    ensures
        fits(p.x + by.x) ==> p.plus(by).x - p.x == by.x && p.plus(by).minus(by).x == p.x,
        fits(p.y + by.y) ==> p.plus(by).y - p.y == by.y && p.plus(by).minus(by).y == p.y,
        fits(p.x - by.x) ==> p.minus(by).x + by.x == p.x && p.minus(by).plus(by).x == p.x,
        fits(p.y - by.y) ==> p.minus(by).y + by.y == p.y && p.minus(by).plus(by).y == p.y,
        p.x + by.x > i32::MAX ==> p.plus(by).x == i32::MAX,
        p.x + by.x < i32::MIN ==> p.plus(by).x == i32::MIN,
        p.y + by.y > i32::MAX ==> p.plus(by).y == i32::MAX,
        p.y + by.y < i32::MIN ==> p.plus(by).y == i32::MIN,
        p.x - by.x > i32::MAX ==> p.minus(by).x == i32::MAX,
        p.x - by.x < i32::MIN ==> p.minus(by).x == i32::MIN,
        p.y - by.y > i32::MAX ==> p.minus(by).y == i32::MAX,
        p.y - by.y < i32::MIN ==> p.minus(by).y == i32::MIN,
{
}

/// A rectangle covers as many columns and rows as its size says, from its corner on.
pub proof fn law_rectangles_cover_their_size(r: Rectangle, p: Point)
    requires
        fits(r.loc.x + r.size.w),
        fits(r.loc.y + r.size.h),
    ensures
        r.covers(p) <==> 0 <= p.x - r.loc.x < r.size.w && 0 <= p.y - r.loc.y < r.size.h,
        r.right() - r.loc.x == r.size.w,
        r.bottom() - r.loc.y == r.size.h,
{
}

/// Two rectangles overlap where one begins before the other ends, on both axes, and touch where
/// it begins where the other ends. What they share begins with the later one and ends with the
/// earlier one.
pub proof fn law_overlap_begins_late_and_ends_early(a: Rectangle, b: Rectangle)
    requires
        a.valid(),
        b.valid(),
        fits(a.loc.x + a.size.w),
        fits(a.loc.y + a.size.h),
        fits(b.loc.x + b.size.w),
        fits(b.loc.y + b.size.h),
    ensures
        a.meets(b) <==> a.loc.x - b.loc.x < b.size.w && b.loc.x - a.loc.x < a.size.w && a.loc.y
            - b.loc.y < b.size.h && b.loc.y - a.loc.y < a.size.h,
        a.adjoins(b) <==> a.loc.x - b.loc.x <= b.size.w && b.loc.x - a.loc.x <= a.size.w && a.loc.y
            - b.loc.y <= b.size.h && b.loc.y - a.loc.y <= a.size.h,
        a.common_area(b) is Some <==> a.meets(b),
        a.common_area(b) matches Some(r) ==> {
            &&& r.loc.x >= a.loc.x && r.loc.x >= b.loc.x
            &&& r.loc.x == a.loc.x || r.loc.x == b.loc.x
            &&& r.loc.y >= a.loc.y && r.loc.y >= b.loc.y
            &&& r.loc.y == a.loc.y || r.loc.y == b.loc.y
            &&& r.loc.x + r.size.w <= a.loc.x + a.size.w
            &&& r.loc.x + r.size.w <= b.loc.x + b.size.w
            &&& r.loc.x + r.size.w == a.loc.x + a.size.w || r.loc.x + r.size.w == b.loc.x + b.size.w
            &&& r.loc.y + r.size.h <= a.loc.y + a.size.h
            &&& r.loc.y + r.size.h <= b.loc.y + b.size.h
            &&& r.loc.y + r.size.h == a.loc.y + a.size.h || r.loc.y + r.size.h == b.loc.y + b.size.h
        },
{
}

} // verus!
