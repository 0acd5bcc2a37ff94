use wmde_comp::geometry::{Point, Rectangle, Size};
use wmde_comp::layouts::snap_layouts;
use wmde_comp::snap_strip::{
    cell_style, strip_geometry, CellFill, Message, SnapStrip, SnapStripInternal, Thumbnail,
};

fn rect(x: i32, y: i32, w: i32, h: i32) -> Rectangle {
    Rectangle { loc: Point { x, y }, size: Size { w, h } }
}

/// A strip with a cell of 10 by 10 pixels for every cell on offer.
fn strip() -> SnapStrip {
    let layouts = snap_layouts();
    SnapStrip::new(rect(0, 30, 1920, 1050), 400, |at, l, cell| {
        let c = layouts[l].cells.iter().position(|c| *c == cell).unwrap();
        rect(at.loc.x + 40 + 60 * l as i32 + 12 * c as i32, at.loc.y + 10, 10, 10)
    })
}

fn columns(thumbnail: &Thumbnail) -> Vec<usize> {
    thumbnail.columns.iter().map(|c| c.len()).collect()
}

#[test]
fn the_strip_hangs_in_the_middle() {
    assert_eq!(strip().geometry(), rect(760, 30, 400, 68));
    assert_eq!(strip_geometry(rect(100, 7, 501, 300), 400), rect(150, 7, 400, 68));
    // One that is wider than the work area sticks out on both sides.
    assert_eq!(strip_geometry(rect(0, 0, 399, 300), 402), rect(-1, 0, 402, 68));
}

#[test]
fn every_cell_can_be_aimed_at() {
    let strip = strip();
    for (l, layout) in snap_layouts().iter().enumerate() {
        for c in 0..layout.cells.len() {
            let corner = Point { x: 800 + 60 * l as i32 + 12 * c as i32, y: 40 };
            assert_eq!(strip.cell_at(corner), Some((l, c)));
            assert!(strip.geometry().contains(corner));
        }
    }
}

#[test]
fn cells_are_picked_by_the_pixel() {
    let strip = strip();
    assert_eq!(strip.cell_at(Point { x: 800, y: 40 }), Some((0, 0)));
    assert_eq!(strip.cell_at(Point { x: 809, y: 49 }), Some((0, 0)));
    assert_eq!(strip.cell_at(Point { x: 810, y: 40 }), None);
    assert_eq!(strip.cell_at(Point { x: 812, y: 40 }), Some((0, 1)));
    assert_eq!(strip.cell_at(Point { x: 896, y: 45 }), Some((1, 3)));
    assert_eq!(strip.cell_at(Point { x: 1040, y: 45 }), Some((4, 0)));
    assert_eq!(strip.cell_at(Point { x: 1040, y: 50 }), None);
}

#[test]
fn the_first_of_overlapping_cells_is_picked() {
    let strip = SnapStrip::new(rect(0, 0, 100, 100), 10, |_, l, _| {
        if l == 0 { rect(0, 0, 1, 1) } else { rect(5, 5, 9, 9) }
    });
    assert_eq!(strip.cell_at(Point { x: 6, y: 6 }), Some((1, 0)));
}

#[test]
fn the_strip_is_told_of_changes_only() {
    let mut strip = strip();
    assert_eq!(strip.hovered(), None);
    assert_eq!(strip.set_hovered(None), None);
    let message = strip.set_hovered(Some((1, 2))).unwrap();
    assert_eq!(message, Message::Hover(Some((1, 2))));
    strip.update(message);
    assert_eq!(strip.hovered(), Some((1, 2)));
    assert_eq!(strip.set_hovered(Some((1, 2))), None);
    assert_eq!(strip.set_hovered(Some((1, 3))), Some(Message::Hover(Some((1, 3)))));
    assert_eq!(strip.set_hovered(None), Some(Message::Hover(None)));
    assert_eq!(strip.geometry(), rect(760, 30, 400, 68));
}

#[test]
fn thumbnails_are_rows_of_columns() {
    let thumbnails = SnapStripInternal::new().view();
    assert_eq!(thumbnails.len(), 5);
    assert_eq!(columns(&thumbnails[0]), [1, 1]);
    assert_eq!(columns(&thumbnails[1]), [2, 2]);
    assert_eq!(columns(&thumbnails[2]), [1, 2]);
    assert_eq!(columns(&thumbnails[3]), [1, 1, 1]);
    assert_eq!(columns(&thumbnails[4]), [1, 1, 1]);
    for (thumbnail, layout) in thumbnails.iter().zip(snap_layouts()) {
        let cells: Vec<_> = thumbnail.columns.iter().flatten().map(|b| b.cell).collect();
        assert_eq!(cells, layout.cells);
    }
}

#[test]
fn the_hovered_cell_alone_is_accented() {
    let mut program = SnapStripInternal::new();
    program.update(Message::Hover(Some((2, 1))));
    assert_eq!(program.hovered(), Some((2, 1)));
    for (l, thumbnail) in program.view().iter().enumerate() {
        for (c, boxed) in thumbnail.columns.iter().flatten().enumerate() {
            assert_eq!(boxed.fill == CellFill::Accent, (l, c) == (2, 1));
        }
    }
    assert_eq!(cell_style(true), CellFill::Accent);
    assert_eq!(cell_style(false), CellFill::Component);
    assert_eq!(strip().view().len(), 5);
}
