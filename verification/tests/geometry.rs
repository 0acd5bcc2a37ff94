use wmde_comp::geometry::{saturate, Point, Rectangle, Size};

fn rect(x: i32, y: i32, w: i32, h: i32) -> Rectangle {
    Rectangle { loc: Point { x, y }, size: Size { w, h } }
}

#[test]
fn rectangles_hold_their_near_edges_only() {
    let r = rect(10, 20, 30, 40);
    assert!(r.contains(Point { x: 10, y: 20 }));
    assert!(r.contains(Point { x: 39, y: 59 }));
    assert!(!r.contains(Point { x: 40, y: 59 }));
    assert!(!r.contains(Point { x: 39, y: 60 }));
    assert!(!r.contains(Point { x: 9, y: 20 }));
}

#[test]
fn intersections_are_common_pixels() {
    let a = rect(0, 0, 10, 10);
    let b = rect(5, -5, 10, 10);
    assert_eq!(a.intersection(b), Some(rect(5, 0, 5, 5)));
    assert_eq!(b.intersection(a), Some(rect(5, 0, 5, 5)));
    assert_eq!(a.intersection(rect(10, 0, 5, 5)), None);
    assert!(!a.overlaps(rect(10, 0, 5, 5)));
    assert!(a.overlaps_or_touches(rect(10, 0, 5, 5)));
    assert!(!a.overlaps_or_touches(rect(11, 0, 5, 5)));
    assert!(a.overlaps_or_touches(rect(10, 10, 0, 0)));
}

#[test]
fn coordinates_saturate() {
    assert_eq!(saturate(i64::MAX), i32::MAX);
    assert_eq!(saturate(i64::MIN), i32::MIN);
    assert_eq!(saturate(-7), -7);
    let far = Point { x: i32::MAX, y: i32::MIN };
    assert_eq!(far.translate(Point { x: 1, y: -1 }), far);
    assert_eq!(
        far.relative_to(Point { x: 1, y: -1 }),
        Point { x: i32::MAX - 1, y: i32::MIN + 1 }
    );
    assert_eq!(rect(i32::MAX, 0, 10, 10).right_edge(), i32::MAX);
    assert_eq!(rect(0, 5, 10, 10).bottom_edge(), 15);
}
