//! The layouts on offer, and what holds of every one of them.

use crate::fraction::Fraction;
use crate::snap::SnapCell;
use vstd::prelude::*;

verus! {

/// A layout: the cells a window can be dropped into, column by column from the left and top to
/// bottom within a column.
#[derive(Debug, Clone)]
pub struct SnapLayout {
    pub id: &'static str,
    pub cells: Vec<SnapCell>,
}

/// A cell given by the numerators and denominators of its corner and size.
pub open spec fn cell(x: (u16, u16), y: (u16, u16), w: (u16, u16), h: (u16, u16)) -> SnapCell {
    SnapCell {
        x: Fraction { num: x.0, den: x.1 },
        y: Fraction { num: y.0, den: y.1 },
        w: Fraction { num: w.0, den: w.1 },
        h: Fraction { num: h.0, den: h.1 },
    }
}

fn make_cell(x: (u16, u16), y: (u16, u16), w: (u16, u16), h: (u16, u16)) -> (r: SnapCell)
    ensures
        r == cell(x, y, w, h),
{
    SnapCell::new(
        Fraction::new(x.0, x.1),
        Fraction::new(y.0, y.1),
        Fraction::new(w.0, w.1),
        Fraction::new(h.0, h.1),
    )
}

/// Two columns.
pub open spec fn halves() -> Seq<SnapCell> {
    seq![cell((0, 1), (0, 1), (1, 2), (1, 1)), cell((1, 2), (0, 1), (1, 2), (1, 1))]
}

/// Four quarters.
pub open spec fn quarters() -> Seq<SnapCell> {
    seq![
        cell((0, 1), (0, 1), (1, 2), (1, 2)),
        cell((0, 1), (1, 2), (1, 2), (1, 2)),
        cell((1, 2), (0, 1), (1, 2), (1, 2)),
        cell((1, 2), (1, 2), (1, 2), (1, 2)),
    ]
}

/// One large left, two stacked right.
pub open spec fn left_big() -> Seq<SnapCell> {
    seq![
        cell((0, 1), (0, 1), (1, 2), (1, 1)),
        cell((1, 2), (0, 1), (1, 2), (1, 2)),
        cell((1, 2), (1, 2), (1, 2), (1, 2)),
    ]
}

/// Three columns.
pub open spec fn thirds() -> Seq<SnapCell> {
    seq![
        cell((0, 1), (0, 1), (1, 3), (1, 1)),
        cell((1, 3), (0, 1), (1, 3), (1, 1)),
        cell((2, 3), (0, 1), (1, 3), (1, 1)),
    ]
}

/// Wide middle between two narrow columns.
pub open spec fn wide_middle() -> Seq<SnapCell> {
    seq![
        cell((0, 1), (0, 1), (1, 4), (1, 1)),
        cell((1, 4), (0, 1), (1, 2), (1, 1)),
        cell((3, 4), (0, 1), (1, 4), (1, 1)),
    ]
}

/// The cells of every layout, left to right as offered.
pub open spec fn all_cells() -> Seq<Seq<SnapCell>> {
    seq![halves(), quarters(), left_big(), thirds(), wide_middle()]
}

/// The identifiers of the layouts.
pub open spec fn all_ids() -> Seq<Seq<char>> {
    seq!["halves"@, "quarters"@, "left-big"@, "thirds"@, "wide-middle"@]
}

/// The layouts on offer, left to right.
pub fn snap_layouts() -> (r: Vec<SnapLayout>)
    ensures
        r.len() == all_cells().len(),
        forall|l: int| #![trigger r[l]] 0 <= l < r.len() ==> r[l].cells@ == all_cells()[l],
        forall|l: int| #![trigger r[l]] 0 <= l < r.len() ==> r[l].id@ == all_ids()[l],
{
    let halves_cells: Vec<SnapCell> = vec![
        make_cell((0, 1), (0, 1), (1, 2), (1, 1)),
        make_cell((1, 2), (0, 1), (1, 2), (1, 1)),
    ];
    assert(halves_cells@ =~= halves());
    let quarters_cells: Vec<SnapCell> = vec![
        make_cell((0, 1), (0, 1), (1, 2), (1, 2)),
        make_cell((0, 1), (1, 2), (1, 2), (1, 2)),
        make_cell((1, 2), (0, 1), (1, 2), (1, 2)),
        make_cell((1, 2), (1, 2), (1, 2), (1, 2)),
    ];
    assert(quarters_cells@ =~= quarters());
    let left_big_cells: Vec<SnapCell> = vec![
        make_cell((0, 1), (0, 1), (1, 2), (1, 1)),
        make_cell((1, 2), (0, 1), (1, 2), (1, 2)),
        make_cell((1, 2), (1, 2), (1, 2), (1, 2)),
    ];
    assert(left_big_cells@ =~= left_big());
    let thirds_cells: Vec<SnapCell> = vec![
        make_cell((0, 1), (0, 1), (1, 3), (1, 1)),
        make_cell((1, 3), (0, 1), (1, 3), (1, 1)),
        make_cell((2, 3), (0, 1), (1, 3), (1, 1)),
    ];
    assert(thirds_cells@ =~= thirds());
    let wide_middle_cells: Vec<SnapCell> = vec![
        make_cell((0, 1), (0, 1), (1, 4), (1, 1)),
        make_cell((1, 4), (0, 1), (1, 2), (1, 1)),
        make_cell((3, 4), (0, 1), (1, 4), (1, 1)),
    ];
    assert(wide_middle_cells@ =~= wide_middle());
    vec![
        SnapLayout { id: "halves", cells: halves_cells },
        SnapLayout { id: "quarters", cells: quarters_cells },
        SnapLayout { id: "left-big", cells: left_big_cells },
        SnapLayout { id: "thirds", cells: thirds_cells },
        SnapLayout { id: "wide-middle", cells: wide_middle_cells },
    ]
}

/// The cell that a pick of `(layout, cell)` names.
pub open spec fn picked(pick: (usize, usize)) -> Option<SnapCell> {
    if pick.0 < all_cells().len() && pick.1 < all_cells()[pick.0 as int].len() {
        Some(all_cells()[pick.0 as int][pick.1 as int])
    } else {
        None
    }
}

/// The cell that a pick of `(layout, cell)` names, `None` where there is no such cell.
pub fn picked_cell(pick: (usize, usize)) -> (r: Option<SnapCell>)
    ensures
        r == picked(pick),
{
    let layouts = snap_layouts();
    if pick.0 >= layouts.len() {
        return None;
    }
    let cells = &layouts[pick.0].cells;
    if pick.1 >= cells.len() {
        return None;
    }
    Some(cells[pick.1])
}

/// Every cell on offer is made of fractions.
pub proof fn lemma_cells_are_valid(l: int)
    requires
        0 <= l < all_cells().len(),
    ensures
        forall|c: int|
            #![trigger all_cells()[l][c]]
            0 <= c < all_cells()[l].len() ==> all_cells()[l][c].valid(),
{
    assert(l == 0 || l == 1 || l == 2 || l == 3 || l == 4);
    assert forall|c: int| #![trigger all_cells()[l][c]] 0 <= c < all_cells()[l].len() implies all_cells()[l][c].valid() by {
        assert(c == 0 || c == 1 || c == 2 || c == 3);
    }
}

} // verus!
