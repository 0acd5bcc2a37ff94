//! The zones along the edges of an output that snap a window dropped there.

use crate::geometry::{trunc_div, Point, Rectangle};
use crate::snap::{Share, TiledCorners};
use vstd::prelude::*;

verus! {

#[derive(Debug, Clone, Copy, PartialEq, Eq, Structural)]
pub enum SnappingZone {
    Maximize,
    Top,
    TopLeft,
    Left,
    BottomLeft,
    Bottom,
    BottomRight,
    Right,
    TopRight,
}

/// A direction a window can be moved in.
#[derive(Debug, Clone, Copy, PartialEq, Eq, Structural)]
pub enum Direction {
    Left,
    Right,
    Up,
    Down,
}

/// Depth of the zones on the left, right and bottom edge.
pub const SNAP_RANGE: i32 = 32;

/// Depth of the zone on the top edge that maximizes.
pub const SNAP_RANGE_MAXIMIZE: i32 = 22;

/// Depth of the zone below it that snaps to the top half.
pub const SNAP_RANGE_TOP: i32 = 16;

/// `p` is in the band along the top edge that maximizes.
pub open spec fn in_maximize_band(p: Point, output: Rectangle) -> bool {
    p.y < output.loc.y + SNAP_RANGE_MAXIMIZE
}

/// `p` is in the band along the top edge that snaps in any way.
pub open spec fn in_top_band(p: Point, output: Rectangle) -> bool {
    p.y < output.loc.y + SNAP_RANGE_MAXIMIZE + SNAP_RANGE_TOP
}

pub open spec fn in_left_band(p: Point, output: Rectangle) -> bool {
    p.x < output.loc.x + SNAP_RANGE
}

pub open spec fn in_right_band(p: Point, output: Rectangle) -> bool {
    p.x > output.loc.x + output.size.w - SNAP_RANGE
}

pub open spec fn in_bottom_band(p: Point, output: Rectangle) -> bool {
    p.y > output.loc.y + output.size.h - SNAP_RANGE
}

pub open spec fn in_left_sixth(p: Point, output: Rectangle) -> bool {
    p.x < output.loc.x + trunc_div(output.size.w as int, 6)
}

pub open spec fn in_right_sixth(p: Point, output: Rectangle) -> bool {
    p.x > output.loc.x + trunc_div(output.size.w * 5, 6)
}

pub open spec fn in_top_quarter(p: Point, output: Rectangle) -> bool {
    p.y < output.loc.y + trunc_div(output.size.h as int, 4)
}

pub open spec fn in_bottom_quarter(p: Point, output: Rectangle) -> bool {
    p.y > output.loc.y + trunc_div(output.size.h * 3, 4)
}

/// `p` is in neither of the outer sixths.
pub open spec fn in_middle(p: Point, output: Rectangle) -> bool {
    !in_left_sixth(p, output) && !in_right_sixth(p, output)
}

impl SnappingZone {
    /// `p` is in the zone on an output with the geometry `output`.
    pub open spec fn claims(self, p: Point, output: Rectangle) -> bool {
        output.covers(p) && match self {
            SnappingZone::Maximize => in_maximize_band(p, output) && in_middle(p, output),
            SnappingZone::Top => in_top_band(p, output) && !in_maximize_band(p, output)
                && in_middle(p, output),
            SnappingZone::TopLeft => (in_top_band(p, output) && in_left_sixth(p, output)) || (
            in_left_band(p, output) && in_top_quarter(p, output)),
            SnappingZone::Left => in_left_band(p, output) && !in_top_quarter(p, output)
                && !in_bottom_quarter(p, output),
            SnappingZone::BottomLeft => (in_bottom_band(p, output) && in_left_sixth(p, output)) || (
            in_left_band(p, output) && in_bottom_quarter(p, output)),
            SnappingZone::Bottom => in_bottom_band(p, output) && in_middle(p, output),
            SnappingZone::BottomRight => (in_bottom_band(p, output) && in_right_sixth(p, output))
                || (in_right_band(p, output) && in_bottom_quarter(p, output)),
            SnappingZone::Right => in_right_band(p, output) && !in_top_quarter(p, output)
                && !in_bottom_quarter(p, output),
            SnappingZone::TopRight => (in_top_band(p, output) && in_right_sixth(p, output)) || (
            in_right_band(p, output) && in_top_quarter(p, output)),
        }
    }

    /// Whether `point` is in this zone.
    pub fn contains(&self, point: Point, output_geometry: Rectangle) -> (r: bool)
        ensures
            r == self.claims(point, output_geometry),
    {
        if !output_geometry.contains(point) {
            return false;
        }
        let px: i64 = point.x as i64;
        let py: i64 = point.y as i64;
        let x: i64 = output_geometry.loc.x as i64;
        let y: i64 = output_geometry.loc.y as i64;
        let w: i64 = output_geometry.size.w as i64;
        let h: i64 = output_geometry.size.h as i64;
        let maximize_band = py < y + SNAP_RANGE_MAXIMIZE as i64;
        let top_band = py < y + SNAP_RANGE_MAXIMIZE as i64 + SNAP_RANGE_TOP as i64;
        let left_band = px < x + SNAP_RANGE as i64;
        let right_band = px > x + w - SNAP_RANGE as i64;
        let bottom_band = py > y + h - SNAP_RANGE as i64;
        let left_sixth = px < x + w / 6;
        let right_sixth = px > x + w * 5 / 6;
        let top_quarter = py < y + h / 4;
        let bottom_quarter = py > y + h * 3 / 4;
        match self {
            SnappingZone::Maximize => maximize_band && !left_sixth && !right_sixth,
            SnappingZone::Top => top_band && !maximize_band && !left_sixth && !right_sixth,
            SnappingZone::TopLeft => (top_band && left_sixth) || (left_band && top_quarter),
            SnappingZone::Left => left_band && !top_quarter && !bottom_quarter,
            SnappingZone::BottomLeft => (bottom_band && left_sixth) || (left_band
                && bottom_quarter),
            SnappingZone::Bottom => bottom_band && !left_sixth && !right_sixth,
            SnappingZone::BottomRight => (bottom_band && right_sixth) || (right_band
                && bottom_quarter),
            SnappingZone::Right => right_band && !top_quarter && !bottom_quarter,
            SnappingZone::TopRight => (top_band && right_sixth) || (right_band && top_quarter),
        }
    }

    /// The snapped state the zone leads to; maximizing is none of them.
    pub open spec fn tiled(self) -> Option<TiledCorners> {
        match self {
            SnappingZone::Maximize => None,
            SnappingZone::Top => Some(TiledCorners::Top),
            SnappingZone::TopLeft => Some(TiledCorners::TopLeft),
            SnappingZone::Left => Some(TiledCorners::Left),
            SnappingZone::BottomLeft => Some(TiledCorners::BottomLeft),
            SnappingZone::Bottom => Some(TiledCorners::Bottom),
            SnappingZone::BottomRight => Some(TiledCorners::BottomRight),
            SnappingZone::Right => Some(TiledCorners::Right),
            SnappingZone::TopRight => Some(TiledCorners::TopRight),
        }
    }

    pub fn corner(&self) -> (r: Option<TiledCorners>)
        ensures
            r == self.tiled(),
    {
        match self {
            SnappingZone::Maximize => None,
            SnappingZone::Top => Some(TiledCorners::Top),
            SnappingZone::TopLeft => Some(TiledCorners::TopLeft),
            SnappingZone::Left => Some(TiledCorners::Left),
            SnappingZone::BottomLeft => Some(TiledCorners::BottomLeft),
            SnappingZone::Bottom => Some(TiledCorners::Bottom),
            SnappingZone::BottomRight => Some(TiledCorners::BottomRight),
            SnappingZone::Right => Some(TiledCorners::Right),
            SnappingZone::TopRight => Some(TiledCorners::TopRight),
        }
    }

    /// The overlay has representable coordinates.
    pub open spec fn placeable(self, area: Rectangle, inner: int) -> bool {
        self.tiled() matches Some(corner) ==> corner.placeable(area, inner)
    }

    /// `r` is where a window dropped in the zone will lie in `area`.
    pub open spec fn lands_on(self, area: Rectangle, inner: int, r: Rectangle) -> bool {
        match self.tiled() {
            Some(corner) => corner.lands_on(area, inner, r),
            None => r == area,
        }
    }

    /// The outline to draw while the pointer is in this zone.
    pub fn overlay_geometry(&self, non_exclusive_geometry: Rectangle, gaps: (i32, i32)) -> (r:
        Rectangle)
        requires
            self.placeable(non_exclusive_geometry, gaps.1 as int),
        ensures
            self.lands_on(non_exclusive_geometry, gaps.1 as int, r),
    {
        match self.corner() {
            Some(corner) => corner.relative_geometry(non_exclusive_geometry, gaps),
            None => non_exclusive_geometry,
        }
    }

    /// The moves that bring a floating window into the snapped state of the zone.
    pub open spec fn moves(self) -> Seq<Direction> {
        match self {
            SnappingZone::Maximize => seq![],
            SnappingZone::Top => seq![Direction::Up],
            SnappingZone::TopLeft => seq![Direction::Up, Direction::Left],
            SnappingZone::Left => seq![Direction::Left],
            SnappingZone::BottomLeft => seq![Direction::Down, Direction::Left],
            SnappingZone::Bottom => seq![Direction::Down],
            SnappingZone::BottomRight => seq![Direction::Down, Direction::Right],
            SnappingZone::Right => seq![Direction::Right],
            SnappingZone::TopRight => seq![Direction::Up, Direction::Right],
        }
    }

    pub fn directions(&self) -> (r: Vec<Direction>)
        ensures
            r@ == self.moves(),
    {
        match self {
            SnappingZone::Maximize => vec![],
            SnappingZone::Top => vec![Direction::Up],
            SnappingZone::TopLeft => vec![Direction::Up, Direction::Left],
            SnappingZone::Left => vec![Direction::Left],
            SnappingZone::BottomLeft => vec![Direction::Down, Direction::Left],
            SnappingZone::Bottom => vec![Direction::Down],
            SnappingZone::BottomRight => vec![Direction::Down, Direction::Right],
            SnappingZone::Right => vec![Direction::Right],
            SnappingZone::TopRight => vec![Direction::Up, Direction::Right],
        }
    }
}

/// The zones in the order in which they are tried.
pub open spec fn zone_order() -> Seq<SnappingZone> {
    seq![
        SnappingZone::Maximize,
        SnappingZone::Top,
        SnappingZone::TopLeft,
        SnappingZone::Left,
        SnappingZone::BottomLeft,
        SnappingZone::Bottom,
        SnappingZone::BottomRight,
        SnappingZone::Right,
        SnappingZone::TopRight,
    ]
}

/// The first of the zones from `from` on that claims `p`.
pub open spec fn first_claim(p: Point, output: Rectangle, from: int) -> Option<SnappingZone>
    decreases zone_order().len() - from,
{
    if from < 0 || from >= zone_order().len() {
        None
    } else if zone_order()[from].claims(p, output) {
        Some(zone_order()[from])
    } else {
        first_claim(p, output, from + 1)
    }
}

/// The zone under `p`.
pub open spec fn zone_under(p: Point, output: Rectangle) -> Option<SnappingZone> {
    first_claim(p, output, 0)
}

/// The zone under `point` on an output with the geometry `output`: the first that contains it.
pub fn zone_at(point: Point, output: Rectangle) -> (r: Option<SnappingZone>)
    ensures
        r == zone_under(point, output),
{
    let zones: [SnappingZone; 9] = [
        SnappingZone::Maximize,
        SnappingZone::Top,
        SnappingZone::TopLeft,
        SnappingZone::Left,
        SnappingZone::BottomLeft,
        SnappingZone::Bottom,
        SnappingZone::BottomRight,
        SnappingZone::Right,
        SnappingZone::TopRight,
    ];
    assert(zones@ =~= zone_order());
    let mut i: usize = 0;
    while i < 9
        invariant
            i <= 9,
            zones@ == zone_order(),
            zone_under(point, output) == first_claim(point, output, i as int),
        decreases 9 - i,
    {
        if zones[i].contains(point, output) {
            return Some(zones[i]);
        }
        i = i + 1;
    }
    None
}

/// A zone only ever claims points of its output.
pub proof fn law_zone_is_on_the_output(p: Point, output: Rectangle)
    ensures
        zone_under(p, output) is Some ==> output.covers(p),
{
    reveal_with_fuel(first_claim, 10);
}

/// On an output of at least 192 by 152 pixels no point is in two zones.
pub proof fn law_zones_are_disjoint(p: Point, output: Rectangle, a: SnappingZone, b: SnappingZone)
    requires
        output.size.w >= 192,
        output.size.h >= 152,
        a.claims(p, output),
        b.claims(p, output),
    ensures
        a == b,
{
}

/// There the order in which the zones are tried does not matter.
pub proof fn law_zone_order_is_irrelevant(p: Point, output: Rectangle, zone: SnappingZone)
    requires
        output.size.w >= 192,
        output.size.h >= 152,
    ensures
        zone_under(p, output) == Some(zone) <==> zone.claims(p, output),
{
    reveal_with_fuel(first_claim, 10);
    if zone.claims(p, output) {
        assert forall|i: int| 0 <= i < 9 && #[trigger] zone_order()[i].claims(
            p,
            output,
        ) implies zone_order()[i] == zone by {
            law_zones_are_disjoint(p, output, zone_order()[i], zone);
        }
        let at = match zone {
            SnappingZone::Maximize => 0,
            SnappingZone::Top => 1,
            SnappingZone::TopLeft => 2,
            SnappingZone::Left => 3,
            SnappingZone::BottomLeft => 4,
            SnappingZone::Bottom => 5,
            SnappingZone::BottomRight => 6,
            SnappingZone::Right => 7,
            SnappingZone::TopRight => 8int,
        };
        assert(zone_order()[at] == zone);
    }
}

/// Away from the edges no zone claims the pointer.
pub proof fn law_the_inside_is_free(p: Point, output: Rectangle)
    requires
        p.y >= output.loc.y + SNAP_RANGE_MAXIMIZE + SNAP_RANGE_TOP,
        p.y <= output.loc.y + output.size.h - SNAP_RANGE,
        p.x >= output.loc.x + SNAP_RANGE,
        p.x <= output.loc.x + output.size.w - SNAP_RANGE,
    ensures
        zone_under(p, output) is None,
{
    reveal_with_fuel(first_claim, 10);
}

/// Every point of the output that is close to an edge is in a zone, and no other is: within 32
/// pixels of the left, the right and the bottom edge, and 38 of the top edge.
pub proof fn law_zones_are_the_edges(p: Point, output: Rectangle)
    requires
        output.covers(p),
    ensures
        zone_under(p, output) is Some <==> p.x - output.loc.x < 32 || output.loc.x + output.size.w
            - p.x < 32 || output.loc.y + output.size.h - p.y < 32 || p.y - output.loc.y < 38,
{
    reveal_with_fuel(first_claim, 10);
}

/// Where each zone lies, as seen from the corner of the output: the corner zones reach a quarter
/// of the way down the sides and a sixth of the way along the top and the bottom, the others take
/// what is left of their edge, and the top edge is shared by two of them.
pub proof fn law_zones_lie_where_their_names_say(p: Point, output: Rectangle)
    requires
        output.valid(),
        output.covers(p),
    ensures
        ({
            let (dx, dy) = (p.x - output.loc.x, p.y - output.loc.y);
            let (w, h) = (output.size.w, output.size.h);
            let (left, right) = (dx < 32, w - dx < 32);
            let (top, bottom) = (dy < 38, h - dy < 32);
            let (upper, lower) = (4 * (dy + 1) <= h, 4 * dy > 3 * h);
            let (first, last) = (6 * (dx + 1) <= w, 6 * dx > 5 * w);
            &&& SnappingZone::Maximize.claims(p, output) <==> dy < 22 && !first && !last
            &&& SnappingZone::Top.claims(p, output) <==> 22 <= dy < 38 && !first && !last
            &&& SnappingZone::TopLeft.claims(p, output) <==> (top && first) || (left && upper)
            &&& SnappingZone::TopRight.claims(p, output) <==> (top && last) || (right && upper)
            &&& SnappingZone::BottomLeft.claims(p, output) <==> (bottom && first) || (left
                && lower)
            &&& SnappingZone::BottomRight.claims(p, output) <==> (bottom && last) || (right
                && lower)
            &&& SnappingZone::Left.claims(p, output) <==> left && !upper && !lower
            &&& SnappingZone::Right.claims(p, output) <==> right && !upper && !lower
            &&& SnappingZone::Bottom.claims(p, output) <==> bottom && !first && !last
        }),
{
}

/// The zone at each place of an output of at least 192 by 152 pixels. Along the sides the height
/// decides, along the rest of the top and the bottom edge the way across does.
pub proof fn law_zone_at_each_place(p: Point, output: Rectangle)
    requires
        output.size.w >= 192,
        output.size.h >= 152,
        output.covers(p),
    ensures
        ({
            let (dx, dy) = (p.x - output.loc.x, p.y - output.loc.y);
            let (w, h) = (output.size.w, output.size.h);
            zone_under(p, output) == if dx < 32 {
                if 4 * (dy + 1) <= h {
                    Some(SnappingZone::TopLeft)
                } else if 4 * dy > 3 * h {
                    Some(SnappingZone::BottomLeft)
                } else {
                    Some(SnappingZone::Left)
                }
            } else if w - dx < 32 {
                if 4 * (dy + 1) <= h {
                    Some(SnappingZone::TopRight)
                } else if 4 * dy > 3 * h {
                    Some(SnappingZone::BottomRight)
                } else {
                    Some(SnappingZone::Right)
                }
            } else if dy < 38 {
                if 6 * (dx + 1) <= w {
                    Some(SnappingZone::TopLeft)
                } else if 6 * dx > 5 * w {
                    Some(SnappingZone::TopRight)
                } else if dy < 22 {
                    Some(SnappingZone::Maximize)
                } else {
                    Some(SnappingZone::Top)
                }
            } else if h - dy < 32 {
                if 6 * (dx + 1) <= w {
                    Some(SnappingZone::BottomLeft)
                } else if 6 * dx > 5 * w {
                    Some(SnappingZone::BottomRight)
                } else {
                    Some(SnappingZone::Bottom)
                }
            } else {
                None
            }
        }),
{
    reveal_with_fuel(first_claim, 10);
}

/// Which of two zones goes before the other where both claim a point: maximizing first, then
/// round the output from the top over the left to the right.
pub open spec fn precedence(zone: SnappingZone) -> int {
    match zone {
        SnappingZone::Maximize => 0,
        SnappingZone::Top => 1,
        SnappingZone::TopLeft => 2,
        SnappingZone::Left => 3,
        SnappingZone::BottomLeft => 4,
        SnappingZone::Bottom => 5,
        SnappingZone::BottomRight => 6,
        SnappingZone::Right => 7,
        SnappingZone::TopRight => 8,
    }
}

/// The zone under a point is one that claims it, and no zone that claims it goes before; where
/// there is none, no zone claims the point.
pub proof fn law_the_first_zone_wins(p: Point, output: Rectangle, other: SnappingZone)
    requires
        other.claims(p, output),
    ensures
        zone_under(p, output) matches Some(zone) && zone.claims(p, output) && precedence(zone)
            <= precedence(other),
{
    reveal_with_fuel(first_claim, 10);
    assert(zone_order()[precedence(other)] == other);
}

/// The overlay of a zone is the rectangle of the snapped state of the same name; maximizing takes
/// all of the area.
pub proof fn law_overlays_have_the_names_of_zones(area: Rectangle, inner: int, r: Rectangle)
    ensures
        SnappingZone::Maximize.lands_on(area, inner, r) <==> r == area,
        SnappingZone::Top.lands_on(area, inner, r) <==> TiledCorners::Top.lands_on(area, inner, r),
        SnappingZone::TopLeft.lands_on(area, inner, r) <==> TiledCorners::TopLeft.lands_on(
            area,
            inner,
            r,
        ),
        SnappingZone::Left.lands_on(area, inner, r) <==> TiledCorners::Left.lands_on(
            area,
            inner,
            r,
        ),
        SnappingZone::BottomLeft.lands_on(area, inner, r) <==> TiledCorners::BottomLeft.lands_on(
            area,
            inner,
            r,
        ),
        SnappingZone::Bottom.lands_on(area, inner, r) <==> TiledCorners::Bottom.lands_on(
            area,
            inner,
            r,
        ),
        SnappingZone::BottomRight.lands_on(area, inner, r) <==> TiledCorners::BottomRight.lands_on(
            area,
            inner,
            r,
        ),
        SnappingZone::Right.lands_on(area, inner, r) <==> TiledCorners::Right.lands_on(
            area,
            inner,
            r,
        ),
        SnappingZone::TopRight.lands_on(area, inner, r) <==> TiledCorners::TopRight.lands_on(
            area,
            inner,
            r,
        ),
{
}

/// The moves of a zone lead to its snapped state: up or down for the half of the height it takes,
/// and then left or right for the half of the width. Maximizing takes no moves.
pub proof fn law_moves_lead_to_the_snapped_state(zone: SnappingZone)
    ensures
        zone == SnappingZone::Maximize ==> zone.moves() == Seq::<Direction>::empty() && zone.tiled()
            is None,
        zone.tiled() is None ==> zone == SnappingZone::Maximize,
        zone.tiled() matches Some(corner) ==> {
            let vertical: Seq<Direction> = match corner.row() {
                Share::Full => seq![],
                Share::First => seq![Direction::Up],
                Share::Second => seq![Direction::Down],
            };
            let horizontal: Seq<Direction> = match corner.column() {
                Share::Full => seq![],
                Share::First => seq![Direction::Left],
                Share::Second => seq![Direction::Right],
            };
            zone.moves() == vertical + horizontal
        },
{
    if let Some(corner) = zone.tiled() {
        let vertical: Seq<Direction> = match corner.row() {
            Share::Full => seq![],
            Share::First => seq![Direction::Up],
            Share::Second => seq![Direction::Down],
        };
        let horizontal: Seq<Direction> = match corner.column() {
            Share::Full => seq![],
            Share::First => seq![Direction::Left],
            Share::Second => seq![Direction::Right],
        };
        assert(zone.moves() =~= vertical + horizontal);
    }
}

} // verus!
