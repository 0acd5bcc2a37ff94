//! The layout strip that drops down from the top edge while a window is dragged.
//!
//! It shows a thumbnail of every layout. The strip knows where the cells of the thumbnails are,
//! so that the grab can tell which one it aims at, and what to paint as hovered.

use crate::geometry::{fits, trunc_div, Point, Rectangle, Size};
use crate::layouts::{all_cells, lemma_cells_are_valid, picked, snap_layouts, SnapLayout};
use crate::snap::{same, same_fraction, SnapCell};
use crate::snap_laws::column_major;
use vstd::prelude::*;

verus! {

/// How close to the top edge the pointer has to come for the strip to drop down.
pub const REVEAL_HEIGHT: i32 = 8;

/// How high the strip is: a row of thumbnails and the padding above and below it.
pub const STRIP_HEIGHT: i32 = 68;

/// What the strip is told.
#[derive(Debug, Clone, Copy, PartialEq, Eq)]
pub enum Message {
    /// Paint this cell, as `(layout, cell)`, as hovered.
    Hover(Option<(usize, usize)>),
}

/// The message that makes `hovered` the hovered cell of a strip whose hovered cell is `accented`;
/// none where it is already.
pub open spec fn hover_message(
    accented: Option<(usize, usize)>,
    hovered: Option<(usize, usize)>,
) -> Option<Message> {
    if accented == hovered {
        None
    } else {
        Some(Message::Hover(hovered))
    }
}

/// What is hovered once a message has been taken note of, or none has come.
pub open spec fn hovered_after(
    accented: Option<(usize, usize)>,
    message: Option<Message>,
) -> Option<(usize, usize)> {
    match message {
        Some(Message::Hover(hovered)) => hovered,
        None => accented,
    }
}

/// How a cell of a thumbnail is filled.
#[derive(Debug, Clone, Copy, PartialEq, Eq, Structural)]
pub enum CellFill {
    /// The accent colour.
    Accent,
    /// The neutral colour of a component.
    Component,
}

/// One cell of a thumbnail.
#[derive(Debug, Clone, Copy, PartialEq, Eq, Structural)]
pub struct CellBox {
    pub cell: SnapCell,
    pub fill: CellFill,
}

/// Accent while hovered, neutral otherwise.
pub open spec fn fill_of(hovered: bool) -> CellFill {
    if hovered {
        CellFill::Accent
    } else {
        CellFill::Component
    }
}

pub fn cell_style(hovered: bool) -> (r: CellFill)
    ensures
        r == fill_of(hovered),
{
    if hovered {
        CellFill::Accent
    } else {
        CellFill::Component
    }
}

/// The boxes of a layout's cells, one after the other.
pub open spec fn boxes(cells: Seq<SnapCell>, l: usize, hovered: Option<(usize, usize)>) -> Seq<
    CellBox,
> {
    Seq::new(
        cells.len(),
        |c: int| CellBox { cell: cells[c], fill: fill_of(hovered == Some((l, c as usize))) },
    )
}

/// The columns of a thumbnail.
pub open spec fn contents(columns: Seq<Vec<CellBox>>) -> Seq<Seq<CellBox>> {
    Seq::new(columns.len(), |k: int| columns[k]@)
}

/// `columns` are the boxes in `flat`, in order, a new column beginning exactly where the left
/// edge changes.
pub open spec fn is_grouping(columns: Seq<Seq<CellBox>>, flat: Seq<CellBox>) -> bool {
    &&& columns.flatten_alt() == flat
    &&& forall|k: int| #![trigger columns[k]] 0 <= k < columns.len() ==> columns[k].len() > 0
    &&& forall|k: int, i: int|
        #![trigger columns[k][i]]
        0 <= k < columns.len() && 0 <= i < columns[k].len() ==> same(
            columns[k][0].cell.x,
            columns[k][i].cell.x,
        )
    &&& forall|k: int, m: int|
        #![trigger columns[k], columns[m]]
        0 <= k && m == k + 1 && m < columns.len() ==> !same(
            columns[k][0].cell.x,
            columns[m][0].cell.x,
        )
}

/// A layout drawn small: a row of columns of boxes.
#[derive(Debug)]
pub struct Thumbnail {
    pub columns: Vec<Vec<CellBox>>,
}

impl Thumbnail {
    /// The thumbnail shows the `l`th layout, whose cells are `cells`.
    pub open spec fn shows(
        self,
        cells: Seq<SnapCell>,
        l: usize,
        hovered: Option<(usize, usize)>,
    ) -> bool {
        is_grouping(contents(self.columns@), boxes(cells, l, hovered))
    }
}

/// `hovered` is the cell `(l, c)`.
fn is_hovered(hovered: Option<(usize, usize)>, l: usize, c: usize) -> (r: bool)
    ensures
        r == (hovered == Some((l, c))),
{
    match hovered {
        Some((hl, hc)) => hl == l && hc == c,
        None => false,
    }
}

/// Appends a finished column, unless nothing was collected.
fn finish_column(columns: &mut Vec<Vec<CellBox>>, current: Vec<CellBox>)
    ensures
        final(columns)@ == if current.len() == 0 {
            old(columns)@
        } else {
            old(columns)@.push(current)
        },
{
    if current.len() > 0 {
        columns.push(current);
    }
}

/// The thumbnail of the `l`th layout.
fn thumbnail(layout: &SnapLayout, l: usize, hovered: Option<(usize, usize)>) -> (r: Thumbnail)
    requires
        forall|c: int| #![trigger layout.cells[c]] 0 <= c < layout.cells.len() ==> layout.cells[c].valid(),
    ensures
        r.shows(layout.cells@, l, hovered),
{
    let mut columns: Vec<Vec<CellBox>> = Vec::new();
    let mut current: Vec<CellBox> = Vec::new();
    let ghost flat = boxes(layout.cells@, l, hovered);
    let mut c: usize = 0;
    assert(contents(columns@).flatten_alt() + current@ =~= flat.take(0));
    while c < layout.cells.len()
        invariant
            c <= layout.cells.len(),
            flat == boxes(layout.cells@, l, hovered),
            c == 0 <==> current.len() == 0,
            is_grouping(contents(columns@), contents(columns@).flatten_alt()),
            contents(columns@).flatten_alt() + current@ == flat.take(c as int),
            forall|i: int|
                #![trigger current[i]]
                0 <= i < current.len() ==> same(current[0].cell.x, current[i].cell.x),
            columns.len() > 0 && current.len() > 0 ==> !same(
                columns[columns.len() - 1][0].cell.x,
                current[0].cell.x,
            ),
        decreases layout.cells.len() - c,
    {
        let cell = layout.cells[c];
        let boxed = CellBox { cell, fill: cell_style(is_hovered(hovered, l, c)) };
        assert(boxed == flat[c as int]);
        assert(flat.take(c as int).push(boxed) =~= flat.take(c + 1));
        if current.len() > 0 && same_fraction(current[0].cell.x, cell.x) {
            let ghost before = current@;
            current.push(boxed);
            assert(contents(columns@).flatten_alt() + current@ =~= (contents(columns@).flatten_alt()
                + before).push(boxed));
        } else {
            let ghost before = columns@;
            let ghost whole = current@;
            finish_column(&mut columns, current);
            current = vec![boxed];
            proof {
                assert(whole.len() > 0 ==> columns@.drop_last() =~= before);
                lemma_finish(before, columns@, whole);
                assert(contents(columns@).flatten_alt() + current@ =~= (contents(
                    before,
                ).flatten_alt() + whole).push(boxed));
            }
        }
        c = c + 1;
    }
    let ghost before = columns@;
    let ghost whole = current@;
    finish_column(&mut columns, current);
    proof {
        assert(whole.len() > 0 ==> columns@.drop_last() =~= before);
        lemma_finish(before, columns@, whole);
        assert(flat.take(c as int) =~= flat);
    }
    Thumbnail { columns }
}

/// Finishing a column keeps the grouping.
proof fn lemma_finish(before: Seq<Vec<CellBox>>, after: Seq<Vec<CellBox>>, whole: Seq<CellBox>)
    requires
        is_grouping(contents(before), contents(before).flatten_alt()),
        forall|i: int|
            #![trigger whole[i]]
            0 <= i < whole.len() ==> same(whole[0].cell.x, whole[i].cell.x),
        before.len() > 0 && whole.len() > 0 ==> !same(
            before[before.len() - 1][0].cell.x,
            whole[0].cell.x,
        ),
        whole.len() == 0 ==> after == before,
        whole.len() > 0 ==> after.len() == before.len() + 1 && after.drop_last() == before
            && after.last()@ == whole,
    ensures
        is_grouping(contents(after), contents(after).flatten_alt()),
        contents(after).flatten_alt() == contents(before).flatten_alt() + whole,
{
    if whole.len() == 0 {
        assert(contents(before).flatten_alt() + whole =~= contents(before).flatten_alt());
    } else {
        assert(contents(after).drop_last() =~= contents(before));
        assert(contents(after).last() == whole);
        let old_columns = contents(before);
        let columns = contents(after);
        let n = before.len() as int;
        assert forall|k: int| 0 <= k < n implies #[trigger] columns[k] == old_columns[k] by {
            assert(after.drop_last()[k] == after[k]);
        }
        assert(columns[n] == whole);
        assert forall|k: int| #![trigger columns[k]] 0 <= k < columns.len() implies columns[k].len()
            > 0 by {
            if k < n {
                assert(old_columns[k].len() > 0);
            }
        }
        assert forall|k: int, i: int|
            #![trigger columns[k][i]]
            0 <= k < columns.len() && 0 <= i < columns[k].len() implies same(
            columns[k][0].cell.x,
            columns[k][i].cell.x,
        ) by {
            if k < n {
                assert(columns[k] == old_columns[k]);
                assert(same(old_columns[k][0].cell.x, old_columns[k][i].cell.x));
            } else {
                assert(columns[k][i] == whole[i]);
            }
        }
        assert forall|k: int, m: int|
            #![trigger columns[k], columns[m]]
            0 <= k && m == k + 1 && m < columns.len() implies !same(
            columns[k][0].cell.x,
            columns[m][0].cell.x,
        ) by {
            assert(columns[k] == old_columns[k]);
            if m < n {
                assert(columns[m] == old_columns[m]);
            }
        }
    }
}

/// What the strip draws.
#[derive(Debug)]
pub struct SnapStripInternal {
    hovered: Option<(usize, usize)>,
}

impl SnapStripInternal {
    /// The hovered cell.
    pub closed spec fn accented(self) -> Option<(usize, usize)> {
        self.hovered
    }

    pub fn new() -> (r: SnapStripInternal)
        ensures
            r.accented() is None,
    {
        SnapStripInternal { hovered: None }
    }

    /// The hovered cell.
    pub fn hovered(&self) -> (r: Option<(usize, usize)>)
        ensures
            r == self.accented(),
    {
        self.hovered
    }

    /// Takes note of a message.
    pub fn update(&mut self, message: Message)
        ensures
            message matches Message::Hover(hovered) ==> final(self).accented() == hovered,
            final(self).accented() == hovered_after(old(self).accented(), Some(message)),
    {
        match message {
            Message::Hover(hovered) => {
                self.hovered = hovered;
            },
        }
    }

    /// The thumbnails to draw, left to right: one for every layout, its cells grouped into
    /// columns and the hovered one accented.
    pub fn view(&self) -> (r: Vec<Thumbnail>)
        ensures
            r.len() == all_cells().len(),
            forall|l: int|
                #![trigger r[l]]
                0 <= l < r.len() ==> r[l].shows(all_cells()[l], l as usize, self.accented()),
    {
        let layouts = snap_layouts();
        let mut thumbnails: Vec<Thumbnail> = Vec::new();
        let mut l: usize = 0;
        while l < layouts.len()
            invariant
                l <= layouts.len(),
                layouts.len() == all_cells().len(),
                forall|k: int|
                    #![trigger layouts[k]]
                    0 <= k < layouts.len() ==> layouts[k].cells@ == all_cells()[k],
                thumbnails.len() == l,
                forall|k: int|
                    #![trigger thumbnails[k]]
                    0 <= k < l ==> thumbnails[k].shows(all_cells()[k], k as usize, self.accented()),
            decreases layouts.len() - l,
        {
            proof {
                lemma_cells_are_valid(l as int);
                assert(layouts[l as int].cells@ == all_cells()[l as int]);
            }
            thumbnails.push(thumbnail(&layouts[l], l, self.hovered));
            l = l + 1;
        }
        thumbnails
    }
}

/// Where the columns before the `k`th end.
spec fn offset(columns: Seq<Seq<CellBox>>, k: int) -> int {
    columns.take(k).flatten_alt().len() as int
}

/// A column stands at its offset.
proof fn lemma_column_position(columns: Seq<Seq<CellBox>>, k: int, i: int)
    requires
        0 <= k < columns.len(),
        0 <= i < columns[k].len(),
    ensures
        0 <= offset(columns, k),
        offset(columns, k) + i < columns.flatten_alt().len(),
        columns.flatten_alt()[offset(columns, k) + i] == columns[k][i],
        offset(columns, k + 1) == offset(columns, k) + columns[k].len(),
    decreases columns.len(),
{
    let init = columns.drop_last();
    assert(columns.take(k + 1).drop_last() =~= columns.take(k));
    if k == columns.len() - 1 {
        assert(columns.take(k) =~= init);
    } else {
        lemma_column_position(init, k, i);
        assert(init.take(k) =~= columns.take(k));
        assert(init.take(k + 1) =~= columns.take(k + 1));
    }
}

/// Offsets grow.
proof fn lemma_offsets_grow(columns: Seq<Seq<CellBox>>, a: int, b: int)
    requires
        0 <= a < b <= columns.len(),
        forall|k: int| #![trigger columns[k]] 0 <= k < columns.len() ==> columns[k].len() > 0,
    ensures
        offset(columns, a) < offset(columns, b),
    decreases b - a,
{
    assert(columns[b - 1].len() > 0);
    lemma_column_position(columns, b - 1, 0);
    if a < b - 1 {
        lemma_offsets_grow(columns, a, b - 1);
    }
}

/// No two columns of a thumbnail have the same left edge: a layout that is listed column by
/// column is drawn as it lies.
pub proof fn law_columns_are_distinct(
    thumbnail: Thumbnail,
    cells: Seq<SnapCell>,
    l: usize,
    hovered: Option<(usize, usize)>,
    a: int,
    b: int,
)
    requires
        column_major(cells),
        thumbnail.shows(cells, l, hovered),
        0 <= a < b < thumbnail.columns.len(),
    ensures
        !same(thumbnail.columns[a][0].cell.x, thumbnail.columns[b][0].cell.x),
{
    let columns = contents(thumbnail.columns@);
    let flat = boxes(cells, l, hovered);
    assert(columns[a].len() > 0 && columns[a + 1].len() > 0 && columns[b].len() > 0);
    lemma_column_position(columns, a, 0);
    lemma_column_position(columns, a + 1, 0);
    lemma_column_position(columns, b, 0);
    lemma_offsets_grow(columns, a, a + 1);
    if a + 1 < b {
        lemma_offsets_grow(columns, a + 1, b);
        let i = offset(columns, a);
        let k = offset(columns, a + 1);
        let j = offset(columns, b);
        assert(flat[i].cell == cells[i] && flat[k].cell == cells[k] && flat[j].cell == cells[j]);
        assert(same(cells[i].x, cells[j].x) ==> same(cells[i].x, cells[k].x));
    }
}

/// The middle of a strip of width `width` over a work area.
pub open spec fn centred_x(work_area: Rectangle, width: i32) -> int {
    work_area.loc.x + trunc_div(work_area.size.w - width, 2)
}

/// Where a strip of the given width hangs: against the top edge of the work area, in the middle.
pub fn strip_geometry(work_area: Rectangle, width: i32) -> (r: Rectangle)
    requires
        fits(centred_x(work_area, width)),
    ensures
        r.loc.x == centred_x(work_area, width),
        r.loc.y == work_area.loc.y,
        r.size == (Size { w: width, h: STRIP_HEIGHT }),
{
    let x: i64 = work_area.loc.x as i64 + (work_area.size.w as i64 - width as i64) / 2;
    Rectangle {
        loc: Point { x: x as i32, y: work_area.loc.y },
        size: Size { w: width, h: STRIP_HEIGHT },
    }
}

/// A strip leaves the same room on both sides of the work area or sticks out as far on both, up to
/// a pixel. The odd pixel is on the right.
pub proof fn law_strip_is_centred(work_area: Rectangle, width: i32)
    ensures
        ({
            let left = centred_x(work_area, width) - work_area.loc.x;
            let right = work_area.size.w - width - left;
            &&& -1 <= right - left <= 1
            &&& width <= work_area.size.w ==> 0 <= left <= right
            &&& width >= work_area.size.w ==> right <= left <= 0
        }),
{
}

/// The rectangles of the cells of the `l`th layout.
fn place_row<P: Fn(Rectangle, usize, SnapCell) -> Rectangle>(
    at: Rectangle,
    l: usize,
    cells: &Vec<SnapCell>,
    place: &P,
) -> (r: Vec<Rectangle>)
    requires
        forall|at: Rectangle, l: usize, cell: SnapCell| place.requires((at, l, cell)),
    ensures
        r.len() == cells.len(),
        forall|c: int|
            #![trigger r@[c]]
            0 <= c < cells.len() ==> place.ensures((at, l, cells@[c]), r@[c]),
{
    let mut row: Vec<Rectangle> = Vec::new();
    let mut c: usize = 0;
    while c < cells.len()
        invariant
            forall|at: Rectangle, l: usize, cell: SnapCell| place.requires((at, l, cell)),
            c <= cells.len(),
            row.len() == c,
            forall|i: int|
                #![trigger row@[i]]
                0 <= i < c ==> place.ensures((at, l, cells@[i]), row@[i]),
        decreases cells.len() - c,
    {
        row.push(place(at, l, cells[c]));
        c = c + 1;
    }
    row
}

/// The strip as shown on one output, in coordinates of that output.
#[derive(Debug)]
pub struct SnapStrip {
    elem: SnapStripInternal,
    geometry: Rectangle,
    cells: Vec<Vec<Rectangle>>,
}

impl SnapStrip {
    /// The strip has a place for every cell on offer.
    #[verifier::type_invariant]
    spec fn places_every_cell(self) -> bool {
        &&& self.cells@.len() == all_cells().len()
        &&& forall|l: int|
            #![trigger self.cells@[l]]
            0 <= l < all_cells().len() ==> self.cells@[l]@.len() == all_cells()[l].len()
    }

    /// Where the strip is.
    pub closed spec fn bounds(self) -> Rectangle {
        self.geometry
    }

    /// Where the cells of the thumbnails are.
    pub closed spec fn table(self) -> Seq<Seq<Rectangle>> {
        Seq::new(self.cells@.len(), |l: int| self.cells@[l]@)
    }

    /// What the strip draws.
    pub closed spec fn program(self) -> SnapStripInternal {
        self.elem
    }

    /// `(l, c)` names a cell under `p`.
    pub open spec fn is_under(self, p: Point, l: int, c: int) -> bool {
        &&& 0 <= l < self.table().len()
        &&& 0 <= c < self.table()[l].len()
        &&& self.table()[l][c].covers(p)
    }

    /// `pick` is the first cell under `p`, in the order of the layouts and of their cells.
    pub open spec fn is_pick(self, p: Point, pick: Option<(usize, usize)>) -> bool {
        match pick {
            Some((l, c)) => {
                &&& self.is_under(p, l as int, c as int)
                &&& forall|k: int, i: int| #[trigger]
                    self.is_under(p, k, i) ==> k > l || (k == l && i >= c)
            },
            None => forall|k: int, i: int| !#[trigger] self.is_under(p, k, i),
        }
    }

    /// The strip for a work area, of the given width. `place` gives the rectangle of a cell in a
    /// strip, from where the strip is, the number of the layout and the cell. Width and rectangles
    /// are the caller's to measure, as the thumbnails are drawn: nothing here makes a strip
    /// [`well_placed`].
    pub fn new<P: Fn(Rectangle, usize, SnapCell) -> Rectangle>(
        work_area: Rectangle,
        width: i32,
        place: P,
    ) -> (r: SnapStrip)
        requires
            fits(centred_x(work_area, width)),
            forall|at: Rectangle, l: usize, cell: SnapCell| place.requires((at, l, cell)),
        ensures
            r.bounds().loc.x == centred_x(work_area, width),
            r.bounds().loc.y == work_area.loc.y,
            r.bounds().size == (Size { w: width, h: STRIP_HEIGHT }),
            r.table().len() == all_cells().len(),
            forall|l: int|
                #![trigger r.table()[l]]
                0 <= l < all_cells().len() ==> r.table()[l].len() == all_cells()[l].len(),
            forall|l: int, c: int|
                #![trigger r.table()[l][c]]
                0 <= l < all_cells().len() && 0 <= c < all_cells()[l].len() ==> place.ensures(
                    (r.bounds(), l as usize, all_cells()[l][c]),
                    r.table()[l][c],
                ),
            r.program().accented() is None,
    {
        let geometry = strip_geometry(work_area, width);
        let layouts = snap_layouts();
        let mut cells: Vec<Vec<Rectangle>> = Vec::new();
        let mut l: usize = 0;
        while l < layouts.len()
            invariant
                forall|at: Rectangle, l: usize, cell: SnapCell| place.requires((at, l, cell)),
                l <= layouts.len(),
                layouts.len() == all_cells().len(),
                forall|k: int|
                    #![trigger layouts[k]]
                    0 <= k < layouts.len() ==> layouts[k].cells@ == all_cells()[k],
                cells.len() == l,
                forall|k: int|
                    #![trigger cells@[k]]
                    0 <= k < l ==> cells@[k]@.len() == all_cells()[k].len(),
                forall|k: int, i: int|
                    #![trigger cells@[k]@[i]]
                    0 <= k < l && 0 <= i < all_cells()[k].len() ==> place.ensures(
                        (geometry, k as usize, all_cells()[k][i]),
                        cells@[k]@[i],
                    ),
            decreases layouts.len() - l,
        {
            let layout = &layouts[l];
            let row = place_row(geometry, l, &layout.cells, &place);
            cells.push(row);
            l = l + 1;
        }
        SnapStrip { elem: SnapStripInternal::new(), geometry, cells }
    }

    /// Where the strip is.
    pub fn geometry(&self) -> (r: Rectangle)
        ensures
            r == self.bounds(),
    {
        self.geometry
    }

    /// The layout and cell under `point`, if any.
    pub fn cell_at(&self, point: Point) -> (r: Option<(usize, usize)>)
        ensures
            self.is_pick(point, r),
            r matches Some(pick) ==> picked(pick) is Some,
    {
        proof {
            use_type_invariant(self);
        }
        let mut l: usize = 0;
        while l < self.cells.len()
            invariant
                l <= self.cells.len(),
                self.places_every_cell(),
                forall|k: int, i: int| #[trigger] self.is_under(point, k, i) ==> k >= l,
            decreases self.cells.len() - l,
        {
            let row = &self.cells[l];
            let mut c: usize = 0;
            while c < row.len()
                invariant
                    l < self.cells.len(),
                    self.places_every_cell(),
                    row@ == self.cells@[l as int]@,
                    c <= row.len(),
                    forall|k: int, i: int| #[trigger]
                        self.is_under(point, k, i) ==> k > l || (k == l && i >= c),
                decreases row.len() - c,
            {
                if row[c].contains(point) {
                    assert(self.table()[l as int][c as int] == row[c as int]);
                    assert(self.cells@[l as int]@.len() == all_cells()[l as int].len());
                    return Some((l, c));
                }
                assert(self.table()[l as int][c as int] == row[c as int]);
                c = c + 1;
            }
            l = l + 1;
        }
        None
    }

    /// The hovered cell.
    pub fn hovered(&self) -> (r: Option<(usize, usize)>)
        ensures
            r == self.program().accented(),
    {
        self.elem.hovered()
    }

    /// The message that makes `hovered` the hovered cell; none where it is already.
    pub fn set_hovered(&self, hovered: Option<(usize, usize)>) -> (r: Option<Message>)
        ensures
            r == hover_message(self.program().accented(), hovered),
    {
        let unchanged = match (self.elem.hovered(), hovered) {
            (Some((al, ac)), Some((bl, bc))) => al == bl && ac == bc,
            (None, None) => true,
            _ => false,
        };
        if unchanged {
            None
        } else {
            Some(Message::Hover(hovered))
        }
    }

    /// Hands a message to what the strip draws.
    pub fn update(&mut self, message: Message)
        ensures
            message matches Message::Hover(hovered) ==> final(self).program().accented() == hovered,
            final(self).program().accented() == hovered_after(
                old(self).program().accented(),
                Some(message),
            ),
            final(self).bounds() == old(self).bounds(),
            final(self).table() == old(self).table(),
    {
        proof {
            use_type_invariant(&*self);
        }
        let mut elem = SnapStripInternal { hovered: self.elem.hovered };
        elem.update(message);
        self.elem = elem;
    }

    /// The thumbnails to draw.
    pub fn view(&self) -> (r: Vec<Thumbnail>)
        ensures
            r.len() == all_cells().len(),
            forall|l: int|
                #![trigger r[l]]
                0 <= l < r.len() ==> r[l].shows(
                    all_cells()[l],
                    l as usize,
                    self.program().accented(),
                ),
    {
        self.elem.view()
    }
}

/// There is exactly one pick for every point.
pub proof fn law_pick_is_unique(
    strip: SnapStrip,
    p: Point,
    a: Option<(usize, usize)>,
    b: Option<(usize, usize)>,
)
    requires
        strip.is_pick(p, a),
        strip.is_pick(p, b),
    ensures
        a == b,
{
    if a is Some {
        let (l, c) = a.unwrap();
        assert(strip.is_under(p, l as int, c as int));
    }
    if b is Some {
        let (l, c) = b.unwrap();
        assert(strip.is_under(p, l as int, c as int));
    }
}

/// The boxes of the strip can be told apart: none is empty, and each lies inside the strip and
/// has no pixel in common with another.
pub open spec fn well_placed(strip: SnapStrip) -> bool {
    &&& forall|l: int, c: int|
        #![trigger strip.table()[l][c]]
        0 <= l < strip.table().len() && 0 <= c < strip.table()[l].len() ==> {
            let place = strip.table()[l][c];
            &&& place.covers(place.loc)
            &&& forall|p: Point| #[trigger] place.covers(p) ==> strip.bounds().covers(p)
        }
    &&& forall|l: int, c: int, k: int, i: int|
        #![trigger strip.table()[l][c], strip.table()[k][i]]
        0 <= l < strip.table().len() && 0 <= c < strip.table()[l].len() && 0 <= k
            < strip.table().len() && 0 <= i < strip.table()[k].len() && (l, c) != (k, i)
            ==> !strip.table()[l][c].meets(strip.table()[k][i])
}

/// Boxes that have no pixel in common do not both cover a point.
proof fn lemma_covered_once(a: Rectangle, b: Rectangle, p: Point)
    requires
        a.covers(p),
        b.covers(p),
    ensures
        a.meets(b),
{
}

/// Of a strip whose boxes lie inside it and apart, every pick is a cell of the strip that the
/// pointer is over, the strip is under the pointer, and no other cell is.
pub proof fn law_pick_is_over_the_strip(strip: SnapStrip, p: Point, pick: (usize, usize))
    requires
        well_placed(strip),
        strip.is_pick(p, Some(pick)),
    ensures
        strip.is_under(p, pick.0 as int, pick.1 as int),
        strip.bounds().covers(p),
        forall|l: int, c: int| #[trigger]
            strip.is_under(p, l, c) ==> l == pick.0 && c == pick.1,
{
    let place = strip.table()[pick.0 as int][pick.1 as int];
    assert(place.covers(p));
    assert forall|l: int, c: int| #[trigger] strip.is_under(p, l, c) implies l == pick.0 && c
        == pick.1 by {
        if (l, c) != (pick.0 as int, pick.1 as int) {
            lemma_covered_once(strip.table()[l][c], place, p);
        }
    }
}

/// Of a strip whose boxes lie inside it and apart, every cell can be aimed at: every pixel of its
/// box picks it, and there is such a pixel.
pub proof fn law_every_cell_can_be_picked(strip: SnapStrip, l: usize, c: usize)
    requires
        well_placed(strip),
        l < strip.table().len(),
        c < strip.table()[l as int].len(),
    ensures
        forall|p: Point| #[trigger]
            strip.table()[l as int][c as int].covers(p) ==> strip.is_pick(p, Some((l, c))),
        strip.is_pick(strip.table()[l as int][c as int].loc, Some((l, c))),
{
    let place = strip.table()[l as int][c as int];
    assert forall|p: Point| #[trigger] place.covers(p) implies strip.is_pick(
        p,
        Some((l, c)),
    ) by {
        assert forall|k: int, i: int| #[trigger] strip.is_under(p, k, i) implies k > l || (k == l
            && i >= c) by {
            if (k, i) != (l as int, c as int) {
                lemma_covered_once(strip.table()[k][i], place, p);
            }
        }
    }
}

/// Setting the hovered cell makes it hovered, whatever was before, and sends nothing where it is
/// already.
pub proof fn law_what_is_set_is_hovered(
    accented: Option<(usize, usize)>,
    hovered: Option<(usize, usize)>,
)
    ensures
        hovered_after(accented, hover_message(accented, hovered)) == hovered,
        hover_message(accented, accented) is None,
        hovered_after(accented, None) == accented,
{
}

/// A thumbnail draws the cells of its layout and nothing else, in the order in which they are
/// listed, and fills the hovered one alone with the accent colour.
pub proof fn law_a_thumbnail_draws_its_layout(
    thumbnail: Thumbnail,
    cells: Seq<SnapCell>,
    l: usize,
    hovered: Option<(usize, usize)>,
    c: usize,
)
    requires
        thumbnail.shows(cells, l, hovered),
        c < cells.len(),
    ensures
        ({
            let drawn = contents(thumbnail.columns@).flatten_alt();
            &&& drawn.len() == cells.len()
            &&& drawn[c as int].cell == cells[c as int]
            &&& drawn[c as int].fill == CellFill::Accent <==> hovered == Some((l, c))
            &&& drawn[c as int].fill == CellFill::Component <==> hovered != Some((l, c))
        }),
{
}

/// The columns of a thumbnail: no column is empty, and the cells of one begin at the same left
/// edge, which the next column does not share.
pub proof fn law_a_column_has_one_left_edge(
    thumbnail: Thumbnail,
    cells: Seq<SnapCell>,
    l: usize,
    hovered: Option<(usize, usize)>,
    k: int,
    i: int,
)
    requires
        thumbnail.shows(cells, l, hovered),
        0 <= k < thumbnail.columns.len(),
        0 <= i < thumbnail.columns[k]@.len(),
    ensures
        ({
            let first = thumbnail.columns[k]@[0].cell.x;
            let x = thumbnail.columns[k]@[i].cell.x;
            &&& first.num * x.den == x.num * first.den
            &&& k + 1 < thumbnail.columns.len() ==> thumbnail.columns[k + 1]@.len() > 0 && {
                let next = thumbnail.columns[k + 1]@[0].cell.x;
                first.num * next.den != next.num * first.den
            }
        }),
{
    let columns = contents(thumbnail.columns@);
    assert(columns[k][i] == thumbnail.columns[k]@[i]);
    assert(columns[k][0] == thumbnail.columns[k]@[0]);
    if k + 1 < thumbnail.columns.len() {
        assert(columns[k + 1].len() > 0);
        assert(columns[k + 1] == thumbnail.columns[k + 1]@);
    }
}

/// The pick is the first cell whose box has the pointer, layout by layout and cell by cell, and
/// there is one wherever any box has it.
pub proof fn law_the_first_box_is_picked(
    strip: SnapStrip,
    p: Point,
    pick: Option<(usize, usize)>,
    l: int,
    c: int,
)
    requires
        strip.is_pick(p, pick),
        0 <= l < strip.table().len(),
        0 <= c < strip.table()[l].len(),
    ensures
        strip.table()[l][c].covers(p) ==> (pick matches Some((k, i)) && (k < l || (k == l && i
            <= c))),
        pick matches Some((k, i)) ==> k < strip.table().len() && i < strip.table()[k as int].len()
            && strip.table()[k as int][i as int].covers(p),
{
    assert(strip.table()[l][c].covers(p) ==> strip.is_under(p, l, c));
}

/// A strip is 68 pixels high, drops down within 8 pixels of the top edge, and has its middle in the
/// middle of the work area, to within half a pixel.
pub proof fn law_measures_of_a_strip(work_area: Rectangle, width: i32)
    ensures
        STRIP_HEIGHT == 68,
        REVEAL_HEIGHT == 8,
        2 * (centred_x(work_area, width) - work_area.loc.x) + width - work_area.size.w <= 1,
        2 * (centred_x(work_area, width) - work_area.loc.x) + width - work_area.size.w >= -1,
{
}

} // verus!
