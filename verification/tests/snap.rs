use wmde_comp::fraction::Fraction;
use wmde_comp::geometry::{Point, Rectangle, Size};
use wmde_comp::layouts::{picked_cell, snap_layouts};
use wmde_comp::snap::{same_fraction, SnapCell, TiledCorners};

/// Offset so that an origin dropped somewhere in the arithmetic shows up instead of cancelling
/// out, and evenly sized.
fn area() -> Rectangle {
    Rectangle { loc: Point { x: 36, y: 20 }, size: Size { w: 1920, h: 1080 } }
}

/// Odd height, where cells and corners legitimately disagree by a pixel.
fn odd_area() -> Rectangle {
    Rectangle { loc: Point { x: 37, y: 21 }, size: Size { w: 1920, h: 1053 } }
}

fn rect(x: i32, y: i32, w: i32, h: i32) -> Rectangle {
    Rectangle { loc: Point { x, y }, size: Size { w, h } }
}

/// A cell of halves: each number counts halves of the work area.
fn halves(x: u16, y: u16, w: u16, h: u16) -> SnapCell {
    SnapCell::new(
        Fraction::new(x, 2),
        Fraction::new(y, 2),
        Fraction::new(w, 2),
        Fraction::new(h, 2),
    )
}

fn corner_cases() -> Vec<(SnapCell, TiledCorners)> {
    vec![
        (halves(0, 0, 2, 1), TiledCorners::Top),
        (halves(0, 1, 2, 1), TiledCorners::Bottom),
        (halves(0, 0, 1, 2), TiledCorners::Left),
        (halves(1, 0, 1, 2), TiledCorners::Right),
        (halves(0, 0, 1, 1), TiledCorners::TopLeft),
        (halves(1, 0, 1, 1), TiledCorners::TopRight),
        (halves(0, 1, 1, 1), TiledCorners::BottomLeft),
        (halves(1, 1, 1, 1), TiledCorners::BottomRight),
    ]
}

/// Even gaps only: corners mix `inner / 2` and `inner * 3 / 2` in integer arithmetic, so that an
/// odd gap rounds differently there than anywhere else.
#[test]
fn matches_tiled_corners() {
    for inner in [0, 2, 4, 8, 16] {
        for (cell, corner) in corner_cases() {
            assert_eq!(
                cell.relative_geometry(area(), (0, inner)),
                corner.relative_geometry(area(), (0, inner)),
                "cell {cell:?} vs {corner:?} at gap {inner}"
            );
        }
    }
}

#[test]
fn differs_from_tiled_corners_by_at_most_a_pixel_when_odd() {
    for inner in [0, 2, 4, 8, 16] {
        for (cell, corner) in corner_cases() {
            let ours = cell.relative_geometry(odd_area(), (0, inner));
            let theirs = corner.relative_geometry(odd_area(), (0, inner));
            for (a, b, what) in [
                (ours.loc.x, theirs.loc.x, "x"),
                (ours.loc.y, theirs.loc.y, "y"),
                (ours.size.w, theirs.size.w, "width"),
                (ours.size.h, theirs.size.h, "height"),
            ] {
                assert!(
                    (a - b).abs() <= 1,
                    "{what} of {cell:?} vs {corner:?} at gap {inner}: {a} vs {b}"
                );
            }
        }
    }
}

/// Every cell that is geometrically a known snapped state must report itself as one, or dropping
/// on the strip would leave a window in a different state than dragging it to the edge.
#[test]
fn known_cells_map_back_to_tiled_corners() {
    for (cell, corner) in corner_cases() {
        assert_eq!(cell.as_tiled_corner(), Some(corner), "for {cell:?}");
    }
    // A third is not any of them.
    assert_eq!(
        SnapCell::new(
            Fraction::new(1, 3),
            Fraction::new(0, 1),
            Fraction::new(1, 3),
            Fraction::new(1, 1)
        )
        .as_tiled_corner(),
        None
    );
}

/// A thumbnail is a row of columns, made of consecutive cells that share an `x`.
#[test]
fn layouts_are_column_major() {
    for layout in snap_layouts() {
        let mut seen: Vec<f64> = Vec::new();
        let mut current = f64::NAN;
        for cell in &layout.cells {
            let x = cell.x.num as f64 / cell.x.den as f64;
            if x != current {
                assert!(
                    !seen.contains(&x),
                    "{} returns to column {} after leaving it",
                    layout.id,
                    x
                );
                seen.push(x);
                current = x;
            }
        }
    }
}

/// Cells of one layout must not overlap, must stay inside the work area, and must leave the gap
/// between them, including the thirds, where the fractions do not divide evenly.
#[test]
fn cells_tile_without_overlap() {
    for work_area in [area(), odd_area()] {
        for inner in [0, 2, 4, 8, 16] {
            for layout in snap_layouts() {
                let rects: Vec<_> = layout
                    .cells
                    .iter()
                    .map(|c| c.relative_geometry(work_area, (0, inner)))
                    .collect();

                for (i, a) in rects.iter().enumerate() {
                    assert!(
                        a.loc.x >= work_area.loc.x + inner
                            && a.loc.y >= work_area.loc.y + inner
                            && a.loc.x + a.size.w <= work_area.loc.x + work_area.size.w - inner
                            && a.loc.y + a.size.h <= work_area.loc.y + work_area.size.h - inner,
                        "{} cell {i} escapes the work area at gap {inner}: {a:?}",
                        layout.id
                    );
                    for (j, b) in rects.iter().enumerate().skip(i + 1) {
                        assert!(
                            a.intersection(*b).is_none(),
                            "{} cells {i} and {j} overlap at gap {inner}: {a:?} {b:?}",
                            layout.id
                        );
                    }
                }
            }
        }
    }
}

#[test]
fn cells_round_both_edges() {
    let thirds = &snap_layouts()[3];
    assert_eq!(thirds.id, "thirds");
    let rects: Vec<_> =
        thirds.cells.iter().map(|c| c.relative_geometry(rect(0, 0, 1000, 500), (0, 8))).collect();
    // Measured in 992 pixels: the inner edges are at 330.67 and 661.33.
    assert_eq!(rects[0], rect(8, 8, 323, 484));
    assert_eq!(rects[1], rect(339, 8, 322, 484));
    assert_eq!(rects[2], rect(669, 8, 323, 484));
    for pair in rects.windows(2) {
        assert_eq!(pair[0].loc.x + pair[0].size.w + 8, pair[1].loc.x);
    }
}

#[test]
fn cells_agree_with_floating_point() {
    let round = |v: f64| v.round() as i32;
    for (w, h) in [(1920, 1080), (1366, 768), (1080, 1920), (2559, 1439), (7, 5), (0, 0)] {
        for inner in [0, 1, 4, 8, 15] {
            for layout in snap_layouts() {
                for cell in &layout.cells {
                    let f = |a: Fraction| a.num as f64 / a.den as f64;
                    let (aw, ah) = ((w - inner) as f64, (h - inner) as f64);
                    let x0 = 11 + round(f(cell.x) * aw);
                    let y0 = 13 + round(f(cell.y) * ah);
                    let x1 = 11 + round((f(cell.x) + f(cell.w)) * aw);
                    let y1 = 13 + round((f(cell.y) + f(cell.h)) * ah);
                    let expected = rect(
                        x0 + inner,
                        y0 + inner,
                        (x1 - x0 - inner).max(1),
                        (y1 - y0 - inner).max(1),
                    );
                    assert_eq!(cell.relative_geometry(rect(11, 13, w, h), (0, inner)), expected);
                }
            }
        }
    }
}

#[test]
fn odd_gaps_are_kept_at_the_edges() {
    let area = rect(0, 0, 103, 103);
    assert_eq!(halves(0, 0, 1, 2).relative_geometry(area, (0, 3)), rect(3, 3, 47, 97));
    assert_eq!(halves(1, 0, 1, 2).relative_geometry(area, (0, 3)), rect(53, 3, 47, 97));
    for layout in snap_layouts() {
        let rects: Vec<_> =
            layout.cells.iter().map(|c| c.relative_geometry(odd_area(), (0, 7))).collect();
        let a = odd_area();
        assert_eq!(rects.iter().map(|r| r.loc.x).min(), Some(a.loc.x + 7));
        assert_eq!(rects.iter().map(|r| r.loc.y).min(), Some(a.loc.y + 7));
        let right = rects.iter().map(|r| r.loc.x + r.size.w).max();
        assert_eq!(right, Some(a.loc.x + a.size.w - 7));
        let bottom = rects.iter().map(|r| r.loc.y + r.size.h).max();
        assert_eq!(bottom, Some(a.loc.y + a.size.h - 7));
    }
}

#[test]
fn a_cell_without_room_keeps_a_pixel() {
    let cell = halves(0, 0, 1, 1);
    assert_eq!(cell.relative_geometry(rect(0, 0, 10, 10), (0, 16)).size, Size { w: 1, h: 1 });
}

#[test]
fn corners_have_exact_geometry() {
    let a = rect(36, 20, 1920, 1080);
    assert_eq!(TiledCorners::Top.relative_geometry(a, (0, 8)), rect(44, 28, 1904, 528));
    assert_eq!(TiledCorners::Right.relative_geometry(a, (0, 8)), rect(1000, 28, 948, 1064));
    assert_eq!(TiledCorners::BottomLeft.relative_geometry(a, (0, 8)), rect(44, 564, 948, 528));
}

#[test]
fn layouts_are_offered_in_order() {
    let ids: Vec<&str> = snap_layouts().iter().map(|l| l.id).collect();
    assert_eq!(ids, ["halves", "quarters", "left-big", "thirds", "wide-middle"]);
    let counts: Vec<usize> = snap_layouts().iter().map(|l| l.cells.len()).collect();
    assert_eq!(counts, [2, 4, 3, 3, 3]);
}

#[test]
fn picks_name_cells() {
    assert_eq!(picked_cell((1, 3)), Some(halves(1, 1, 1, 1)));
    assert_eq!(picked_cell((1, 4)), None);
    assert_eq!(picked_cell((5, 0)), None);
    for (l, layout) in snap_layouts().iter().enumerate() {
        for (c, cell) in layout.cells.iter().enumerate() {
            assert_eq!(picked_cell((l, c)), Some(*cell));
        }
    }
}

#[test]
fn fractions_are_compared_as_numbers() {
    assert!(same_fraction(Fraction::new(1, 2), Fraction::new(2, 4)));
    assert!(!same_fraction(Fraction::new(1, 3), Fraction::new(1, 2)));
    assert_eq!(Fraction::new(2, 5).part_of(7), 3);
    assert_eq!(Fraction::new(1, 2).part_of(-3), -2);
    assert_eq!(Fraction::new(3, 5).part_of(i32::MIN), -1288490189);
}
