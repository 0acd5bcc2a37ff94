use wmde_comp::geometry::{Point, Rectangle, Size};
use wmde_comp::snap::TiledCorners;
use wmde_comp::zones::{zone_at, Direction, SnappingZone};

const ZONES: [SnappingZone; 9] = [
    SnappingZone::Maximize,
    SnappingZone::Top,
    SnappingZone::TopLeft,
    SnappingZone::Left,
    SnappingZone::BottomLeft,
    SnappingZone::Bottom,
    SnappingZone::BottomRight,
    SnappingZone::Right,
    SnappingZone::TopRight,
];

fn rect(x: i32, y: i32, w: i32, h: i32) -> Rectangle {
    Rectangle { loc: Point { x, y }, size: Size { w, h } }
}

fn at(x: i32, y: i32) -> Option<SnappingZone> {
    zone_at(Point { x, y }, rect(0, 0, 1920, 1080))
}

#[test]
fn zones_lie_along_the_edges() {
    assert_eq!(at(960, 0), Some(SnappingZone::Maximize));
    assert_eq!(at(960, 21), Some(SnappingZone::Maximize));
    assert_eq!(at(960, 22), Some(SnappingZone::Top));
    assert_eq!(at(960, 37), Some(SnappingZone::Top));
    assert_eq!(at(960, 38), None);
    assert_eq!(at(319, 37), Some(SnappingZone::TopLeft));
    assert_eq!(at(320, 37), Some(SnappingZone::Top));
    assert_eq!(at(1600, 37), Some(SnappingZone::Top));
    assert_eq!(at(1601, 37), Some(SnappingZone::TopRight));
    assert_eq!(at(31, 269), Some(SnappingZone::TopLeft));
    assert_eq!(at(31, 270), Some(SnappingZone::Left));
    assert_eq!(at(31, 810), Some(SnappingZone::Left));
    assert_eq!(at(31, 811), Some(SnappingZone::BottomLeft));
    assert_eq!(at(32, 500), None);
    assert_eq!(at(1888, 500), None);
    assert_eq!(at(1889, 500), Some(SnappingZone::Right));
    assert_eq!(at(960, 1048), None);
    assert_eq!(at(960, 1049), Some(SnappingZone::Bottom));
    assert_eq!(at(319, 1049), Some(SnappingZone::BottomLeft));
    assert_eq!(at(1601, 1049), Some(SnappingZone::BottomRight));
    assert_eq!(at(1919, 1079), Some(SnappingZone::BottomRight));
    assert_eq!(at(1919, 0), Some(SnappingZone::TopRight));
}

#[test]
fn zones_are_on_the_output() {
    assert_eq!(at(-1, 500), None);
    assert_eq!(at(1920, 500), None);
    assert_eq!(at(960, 1080), None);
}

#[test]
fn zones_move_with_the_output() {
    let output = rect(1920, -300, 1920, 1080);
    assert_eq!(
        zone_at(Point { x: 2880, y: -290 }, output),
        Some(SnappingZone::Maximize)
    );
    assert_eq!(zone_at(Point { x: 960, y: -290 }, output), None);
}

#[test]
fn zones_do_not_overlap() {
    let output = rect(0, 0, 192, 152);
    for x in 0..192 {
        for y in 0..152 {
            let p = Point { x, y };
            let claims: Vec<_> = ZONES.iter().filter(|z| z.contains(p, output)).collect();
            assert!(claims.len() <= 1, "{p:?} is claimed by {claims:?}");
            assert_eq!(zone_at(p, output), claims.first().map(|z| **z));
        }
    }
}

#[test]
fn the_first_of_overlapping_zones_wins() {
    // Too small for the zones to keep apart.
    let output = rect(0, 0, 40, 40);
    let p = Point { x: 20, y: 10 };
    assert!(SnappingZone::Maximize.contains(p, output));
    assert!(SnappingZone::Bottom.contains(p, output));
    assert_eq!(zone_at(p, output), Some(SnappingZone::Maximize));
}

#[test]
fn overlays_are_the_snapped_rectangles() {
    let area = rect(0, 30, 1920, 1050);
    assert_eq!(SnappingZone::Maximize.overlay_geometry(area, (0, 8)), area);
    let corners = [
        (SnappingZone::Top, TiledCorners::Top),
        (SnappingZone::TopLeft, TiledCorners::TopLeft),
        (SnappingZone::Left, TiledCorners::Left),
        (SnappingZone::BottomLeft, TiledCorners::BottomLeft),
        (SnappingZone::Bottom, TiledCorners::Bottom),
        (SnappingZone::BottomRight, TiledCorners::BottomRight),
        (SnappingZone::Right, TiledCorners::Right),
        (SnappingZone::TopRight, TiledCorners::TopRight),
    ];
    for (zone, corner) in corners {
        assert_eq!(zone.corner(), Some(corner));
        assert_eq!(
            zone.overlay_geometry(area, (0, 8)),
            corner.relative_geometry(area, (0, 8))
        );
    }
    assert_eq!(SnappingZone::Right.overlay_geometry(area, (0, 8)), rect(964, 38, 948, 1034));
}

#[test]
fn zones_move_windows_in_their_directions() {
    assert_eq!(SnappingZone::Maximize.directions(), vec![]);
    assert_eq!(SnappingZone::Top.directions(), vec![Direction::Up]);
    assert_eq!(SnappingZone::TopLeft.directions(), vec![Direction::Up, Direction::Left]);
    assert_eq!(SnappingZone::Left.directions(), vec![Direction::Left]);
    assert_eq!(SnappingZone::BottomLeft.directions(), vec![Direction::Down, Direction::Left]);
    assert_eq!(SnappingZone::Bottom.directions(), vec![Direction::Down]);
    assert_eq!(SnappingZone::BottomRight.directions(), vec![Direction::Down, Direction::Right]);
    assert_eq!(SnappingZone::Right.directions(), vec![Direction::Right]);
    assert_eq!(SnappingZone::TopRight.directions(), vec![Direction::Up, Direction::Right]);
}
