//! What becomes of a window when its move ends.

use crate::geometry::{fits, max, min, sat, Point, Rectangle, Size};
use crate::grabs::ManagedLayer;
use crate::layouts::{all_cells, picked, picked_cell};
use crate::moving::{MoveGrab, MoveGrabState, OutputInfo};
use crate::snap::SnapCell;
use crate::workspaces::{
    cleaned, cleanup_tiling_drag, law_final_sweep_is_complete, Workspaces,
};
use crate::zones::SnappingZone;
use std::collections::HashSet;
use vstd::prelude::*;

verus! {

/// The session as a move that ends finds it.
#[derive(Debug)]
pub struct DropScene {
    pub workspaces: Workspaces,
    /// The workspaces that tile their windows.
    pub tiling: HashSet<u64>,
    /// The output the seat is on, for a move that ended on an output that is gone.
    pub fallback: OutputInfo,
    pub window_alive: bool,
    pub window_size: Size,
}

/// How a window dropped into the floating layer is arranged afterwards.
#[derive(Debug, Clone, Copy, PartialEq, Eq, Structural)]
pub enum Arrange {
    /// It stays where it was dropped.
    Stay,
    /// It is snapped into a cell of a layout.
    SnapToCell { cell: SnapCell },
    Maximize,
    /// It is moved in the directions of the zone.
    SnapToZone { zone: SnappingZone },
}

/// The layer a window is dropped into.
#[derive(Debug, Clone, Copy, PartialEq, Eq, Structural)]
pub enum DropInto {
    Sticky,
    Tiling,
    /// `forget_stack`: the stack under the pointer must not take the window.
    Floating { forget_stack: bool, arrange: Arrange },
}

/// Where a window is dropped.
#[derive(Debug)]
pub struct Placement {
    pub window: u64,
    pub output: u64,
    pub workspace: u64,
    /// The top left corner of the window in the space that all outputs share.
    pub location: Point,
    /// The outputs that the window is no longer on.
    pub leave: HashSet<u64>,
    /// The window belongs to the workspace, and not to every one of the output.
    pub enter_workspace: bool,
    pub into: DropInto,
}

/// What is done once the window has been placed, or left unplaced.
#[derive(Debug, Clone, Copy, PartialEq, Eq, Structural)]
pub enum EndStep {
    /// Drop the placeholder and the indicator of the drag from a workspace.
    CleanUp { workspace: u64 },
    /// Close the overview.
    LeaveOverview,
    /// The pointer looks as usual again.
    ResetCursor,
}

/// What a move that ended comes to.
#[derive(Debug)]
pub struct DropOutcome {
    pub placement: Option<Placement>,
    /// The output the move ended on is gone.
    pub output_gone: bool,
    /// What is done afterwards, in order.
    pub ending: Vec<EndStep>,
}

/// Every one of `workspaces` is cleaned up.
pub open spec fn clean_up(workspaces: Seq<u64>) -> Seq<EndStep> {
    Seq::new(workspaces.len(), |i: int| EndStep::CleanUp { workspace: workspaces[i] })
}

impl DropScene {
    /// The output that a move which ended on `output` is dropped on.
    pub open spec fn target(self, output: u64) -> u64 {
        if self.workspaces.active_on(output) is Some {
            output
        } else {
            self.fallback.id
        }
    }

    /// The workspace that such a move is dropped in.
    pub open spec fn target_space(self, output: u64) -> Option<u64> {
        self.workspaces.active_on(self.target(output))
    }

    /// What is done at the end of a move that ended on `output`, whatever became of the window:
    /// the drag is over, so that no workspace is spared.
    pub open spec fn end_steps(self, output: u64) -> Seq<EndStep> {
        clean_up(cleaned(self.workspaces, output, None)) + seq![
            EndStep::LeaveOverview,
            EndStep::ResetCursor,
        ]
    }

    /// What is done at the end of a move that ended on `output`.
    fn finish(&self, output: u64) -> (r: Vec<EndStep>)
        ensures
            r@ == self.end_steps(output),
    {
        let cleanup = cleanup_tiling_drag(&self.workspaces, output, None);
        let mut steps: Vec<EndStep> = Vec::new();
        let mut i: usize = 0;
        assert(steps@ =~= clean_up(cleanup.workspaces@).take(0));
        while i < cleanup.workspaces.len()
            invariant
                i <= cleanup.workspaces.len(),
                steps@ == clean_up(cleanup.workspaces@).take(i as int),
            decreases cleanup.workspaces.len() - i,
        {
            steps.push(EndStep::CleanUp { workspace: cleanup.workspaces[i] });
            i = i + 1;
            assert(steps@ =~= clean_up(cleanup.workspaces@).take(i as int));
        }
        steps.push(EndStep::LeaveOverview);
        steps.push(EndStep::ResetCursor);
        assert(steps@ =~= self.end_steps(output));
        steps
    }

    /// What panels leave of the fallback output, in the space that all outputs share.
    pub open spec fn fallback_area(self) -> Rectangle {
        Rectangle {
            loc: self.fallback.work_area.loc.plus(self.fallback.geometry.loc),
            size: self.fallback.work_area.size,
        }
    }
}

/// `v` moved into `lo ..= hi`; an empty range is `lo` alone.
pub open spec fn clamped(v: int, lo: int, hi: int) -> int {
    max(lo, min(v, max(lo, hi)))
}

/// `location` pulled into `area`, for a window of size `size`.
pub open spec fn pulled_into(location: Point, area: Rectangle, size: Size) -> Point {
    Point {
        x: clamped(
            location.x as int,
            area.loc.x as int,
            area.loc.x + area.size.w - size.w,
        ) as i32,
        y: clamped(
            location.y as int,
            area.loc.y as int,
            area.loc.y + area.size.h - size.h,
        ) as i32,
    }
}

fn clamp(v: i32, lo: i32, extent: i32, len: i32) -> (r: i32)
    ensures
        r == clamped(v as int, lo as int, lo + extent - len),
{
    let hi: i64 = lo as i64 + extent as i64 - len as i64;
    if v < lo || hi < lo as i64 {
        lo
    } else if v as i64 > hi {
        hi as i32
    } else {
        v
    }
}

/// Pulls a window into an area. One that is larger than the area is pinned to the area's top
/// left corner.
pub fn pull_into(location: Point, area: Rectangle, size: Size) -> (r: Point)
    ensures
        r == pulled_into(location, area, size),
{
    Point {
        x: clamp(location.x, area.loc.x, area.size.w, size.w),
        y: clamp(location.y, area.loc.y, area.size.h, size.h),
    }
}

impl MoveGrabState {
    /// Where the window is dropped.
    pub open spec fn drop_location(self, scene: DropScene, output: u64) -> Point {
        let location = self.location.plus(self.window_offset);
        if scene.workspaces.active_on(output) is Some {
            location
        } else {
            pulled_into(location, scene.fallback_area(), scene.window_size)
        }
    }

    /// How the window is arranged in the floating layer: a picked cell wins over a zone, and
    /// only windows that were floating before are arranged at all.
    pub open spec fn arrangement(self, previous: ManagedLayer) -> Arrange {
        if previous != ManagedLayer::Floating {
            Arrange::Stay
        } else if self.snap_pick is Some && picked(self.snap_pick.unwrap()) is Some {
            Arrange::SnapToCell { cell: picked(self.snap_pick.unwrap()).unwrap() }
        } else {
            match self.snapping_zone {
                None => Arrange::Stay,
                Some(SnappingZone::Maximize) => Arrange::Maximize,
                Some(zone) => Arrange::SnapToZone { zone },
            }
        }
    }

    /// The layer the window is dropped into.
    pub open spec fn destination(self, previous: ManagedLayer, tiles: bool) -> DropInto {
        if previous == ManagedLayer::Sticky {
            DropInto::Sticky
        } else if previous == ManagedLayer::Tiling && tiles {
            DropInto::Tiling
        } else {
            DropInto::Floating {
                forget_stack: self.snap_pick is Some,
                arrange: self.arrangement(previous),
            }
        }
    }

    fn arrange(&self, previous: ManagedLayer) -> (r: Arrange)
        ensures
            r == self.arrangement(previous),
    {
        match previous {
            ManagedLayer::Floating => {},
            _ => {
                return Arrange::Stay;
            },
        }
        if let Some(pick) = self.snap_pick {
            if let Some(cell) = picked_cell(pick) {
                return Arrange::SnapToCell { cell };
            }
        }
        match self.snapping_zone {
            None => Arrange::Stay,
            Some(SnappingZone::Maximize) => Arrange::Maximize,
            Some(zone) => Arrange::SnapToZone { zone },
        }
    }
}

impl MoveGrab {
    /// The grab `self`, whose seat holds `state`, comes to `outcome` when it ends in `scene`.
    pub open spec fn ends(
        self,
        state: Option<MoveGrabState>,
        scene: DropScene,
        outcome: DropOutcome,
    ) -> bool {
        &&& outcome.output_gone == (state is Some && scene.workspaces.active_on(
            self.cursor_output,
        ) is None)
        &&& outcome.placement is Some <==> state is Some && scene.window_alive
            && scene.target_space(self.cursor_output) is Some
        &&& outcome.placement matches Some(p) ==> {
            let s = state.unwrap();
            &&& p.window == s.window
            &&& p.output == scene.target(self.cursor_output)
            &&& Some(p.workspace) == scene.target_space(self.cursor_output)
            &&& p.location == s.drop_location(scene, self.cursor_output)
            &&& p.leave@ == self.window_outputs@.remove(p.output)
            &&& p.enter_workspace == (self.previous != ManagedLayer::Sticky)
            &&& p.into == s.destination(self.previous, scene.tiling@.contains(p.workspace))
        }
        &&& outcome.ending@ == scene.end_steps(self.cursor_output)
    }

    /// Ends the move: takes the seat's state of it and says where the window goes.
    ///
    /// A move that ended on an output that is gone is dropped on the output the seat is on, and
    /// the window is pulled into what panels leave of it. Where there is no workspace there
    /// either, the window is left unplaced, as is one that is gone itself. Whatever became of the
    /// window, what the drag left behind is cleaned up.
    pub fn release(self, state: &mut Option<MoveGrabState>, scene: &DropScene) -> (r: DropOutcome)
        ensures
            *final(state) is None,
            self.ends(*old(state), *scene, r),
    {
        let ending = scene.finish(self.cursor_output);
        let grab_state: MoveGrabState = match state.take() {
            Some(grab_state) => grab_state,
            None => {
                return DropOutcome { placement: None, output_gone: false, ending };
            },
        };
        let here: Option<u64> = scene.workspaces.active_space(self.cursor_output);
        let relocated = here.is_none();
        let output: u64 = if relocated {
            scene.fallback.id
        } else {
            self.cursor_output
        };
        let workspace: u64 = match scene.workspaces.active_space(output) {
            Some(workspace) => workspace,
            None => {
                return DropOutcome { placement: None, output_gone: relocated, ending };
            },
        };
        if !scene.window_alive {
            return DropOutcome { placement: None, output_gone: relocated, ending };
        }
        let mut location = grab_state.location.translate(grab_state.window_offset);
        if relocated {
            let area = Rectangle {
                loc: scene.fallback.work_area.loc.translate(scene.fallback.geometry.loc),
                size: scene.fallback.work_area.size,
            };
            location = pull_into(location, area, scene.window_size);
        }
        let mut leave: HashSet<u64> = self.window_outputs;
        leave.remove(&output);
        let tiles = scene.tiling.contains(&workspace);
        let into = match self.previous {
            ManagedLayer::Sticky => DropInto::Sticky,
            ManagedLayer::Tiling if tiles => DropInto::Tiling,
            _ => DropInto::Floating {
                forget_stack: grab_state.snap_pick.is_some(),
                arrange: grab_state.arrange(self.previous),
            },
        };
        let placement = Placement {
            window: grab_state.window,
            output,
            workspace,
            location,
            leave,
            enter_workspace: self.previous != ManagedLayer::Sticky,
            into,
        };
        DropOutcome { placement: Some(placement), output_gone: relocated, ending }
    }
}

/// Where a snapped window goes back to.
pub open spec fn restored(pre_drag: Option<Rectangle>, snapped: Option<Rectangle>) -> Option<
    Rectangle,
> {
    match pre_drag {
        Some(geometry) => Some(geometry),
        None => snapped,
    }
}

/// The geometry that restoring a snapped window goes back to: where it was before the drag, if
/// that is known, and not where the drag left it.
pub fn restored_geometry(pre_drag: Option<Rectangle>, snapped: Option<Rectangle>) -> (r: Option<
    Rectangle,
>)
    ensures
        r == if pre_drag is Some {
            pre_drag
        } else {
            snapped
        },
        r == restored(pre_drag, snapped),
{
    match pre_drag {
        Some(geometry) => Some(geometry),
        None => snapped,
    }
}

/// Who gets the focus once a move has ended.
#[derive(Debug, Clone, Copy, PartialEq, Eq, Structural)]
pub struct FocusAfterDrop {
    /// The pointer enters the surface of the window that is under it.
    pub pointer: bool,
    /// The window gets the keyboard.
    pub keyboard: bool,
}

/// Who gets the focus: the window that was placed, unless the session is locked. A touch does not
/// bring the pointer along.
pub open spec fn focused(placed: bool, locked: bool, touch: bool) -> FocusAfterDrop {
    FocusAfterDrop { pointer: placed && !locked && !touch, keyboard: placed && !locked }
}

/// Who gets the focus once the window has been placed, or left unplaced.
pub fn focus_after_drop(placed: bool, locked: bool, touch: bool) -> (r: FocusAfterDrop)
    ensures
        r == focused(placed, locked, touch),
{
    let focused = placed && !locked;
    FocusAfterDrop { pointer: focused && !touch, keyboard: focused }
}

/// Neither a window that was not placed nor one on a locked session gets any focus.
pub proof fn law_no_focus_behind_a_lock(placed: bool, locked: bool, touch: bool)
    requires
        !placed || locked,
    ensures
        !focused(placed, locked, touch).pointer,
        !focused(placed, locked, touch).keyboard,
{
}

/// However a move ends, the workspace it ended in is cleaned up, or every workspace if its output
/// is gone, and the overview and the cursor are put back, each once.
pub proof fn law_every_move_is_cleaned_up(scene: DropScene, output: u64, workspace: u64)
    ensures
        scene.end_steps(output).contains(EndStep::CleanUp { workspace }) <==> match
            scene.workspaces.active_on(output) {
            Some(active) => workspace == active,
            None => scene.workspaces.spaces@.contains(workspace),
        },
        ({
            let steps = scene.end_steps(output);
            let n = steps.len() as int;
            &&& n >= 2
            &&& steps[n - 2] == EndStep::LeaveOverview
            &&& steps[n - 1] == EndStep::ResetCursor
            &&& forall|i: int| #![trigger steps[i]] 0 <= i < n - 2 ==> steps[i] is CleanUp
        }),
{
    let spaces = cleaned(scene.workspaces, output, None);
    let steps = scene.end_steps(output);
    if scene.workspaces.active_on(output) is None {
        law_final_sweep_is_complete(scene.workspaces, output);
    }
    assert forall|i: int| #![trigger spaces[i]] 0 <= i < spaces.len() implies steps[i]
        == (EndStep::CleanUp { workspace: spaces[i] }) by {}
    if spaces.contains(workspace) {
        let i = choose|i: int| 0 <= i < spaces.len() && spaces[i] == workspace;
        assert(steps[i] == EndStep::CleanUp { workspace });
    }
    if steps.contains(EndStep::CleanUp { workspace }) {
        let i = choose|i: int|
            0 <= i < steps.len() && steps[i] == (EndStep::CleanUp { workspace });
        assert(i < spaces.len());
        assert(spaces[i] == workspace);
    }
    assert(forall|w: u64| seq![w].contains(workspace) ==> w == workspace);
    assert(spaces.contains(workspace) <==> match scene.workspaces.active_on(output) {
        Some(active) => workspace == active,
        None => scene.workspaces.spaces@.contains(workspace),
    }) by {
        if scene.workspaces.active_on(output) is Some {
            assert(spaces[0] == scene.workspaces.active_on(output).unwrap());
        }
    }
}

/// A window pulled into an area that can hold it is inside the area.
pub proof fn law_pulled_window_is_visible(location: Point, area: Rectangle, size: Size)
    requires
        size.w <= area.size.w,
        size.h <= area.size.h,
    ensures
        pulled_into(location, area, size).x >= area.loc.x,
        pulled_into(location, area, size).y >= area.loc.y,
        pulled_into(location, area, size).x + size.w <= area.loc.x + area.size.w,
        pulled_into(location, area, size).y + size.h <= area.loc.y + area.size.h,
{
}

/// A window that is already inside the area is not moved.
pub proof fn law_visible_window_is_not_moved(location: Point, area: Rectangle, size: Size)
    requires
        area.loc.x <= location.x,
        area.loc.y <= location.y,
        location.x + size.w <= area.loc.x + area.size.w,
        location.y + size.h <= area.loc.y + area.size.h,
    ensures
        pulled_into(location, area, size) == location,
{
}

/// A window that is larger than the area is pinned to its top left corner.
pub proof fn law_oversized_window_is_pinned(location: Point, area: Rectangle, size: Size)
    requires
        size.w >= area.size.w,
        size.h >= area.size.h,
    ensures
        pulled_into(location, area, size) == area.loc,
{
}

/// A window whose output is gone is dropped where it can be seen, if what panels leave of the
/// fallback output can hold it.
pub proof fn law_relocated_window_is_visible(state: MoveGrabState, scene: DropScene, output: u64)
    requires
        scene.workspaces.active_on(output) is None,
        scene.window_size.w <= scene.fallback_area().size.w,
        scene.window_size.h <= scene.fallback_area().size.h,
    ensures
        ({
            let at = state.drop_location(scene, output);
            let area = scene.fallback_area();
            &&& area.loc.x <= at.x
            &&& area.loc.y <= at.y
            &&& at.x + scene.window_size.w <= area.loc.x + area.size.w
            &&& at.y + scene.window_size.h <= area.loc.y + area.size.h
        }),
{
    law_pulled_window_is_visible(
        state.location.plus(state.window_offset),
        scene.fallback_area(),
        scene.window_size,
    );
}

/// A window whose output is there is dropped where it was held: at the same distance from the
/// pointer as when the move began.
pub proof fn law_drop_keeps_the_offset(state: MoveGrabState, scene: DropScene, output: u64)
    requires
        scene.workspaces.active_on(output) is Some,
        fits(state.location.x + state.window_offset.x),
        fits(state.location.y + state.window_offset.y),
    ensures
        state.drop_location(scene, output).x == state.location.x + state.window_offset.x,
        state.drop_location(scene, output).y == state.location.y + state.window_offset.y,
{
}

/// A window is dropped if the move has one that is still there and there is a workspace for it: on
/// the output where the move ended, in the workspace that is active there, or else on the output
/// of the seat, in the one that is active there.
pub proof fn law_a_window_is_dropped_where_there_is_a_workspace(
    grab: MoveGrab,
    state: Option<MoveGrabState>,
    scene: DropScene,
    outcome: DropOutcome,
)
    requires
        grab.ends(state, scene, outcome),
    ensures
        ({
            let active = scene.workspaces.active@;
            let here = active.contains_key(grab.cursor_output);
            let there = active.contains_key(scene.fallback.id);
            &&& outcome.placement is Some <==> state is Some && scene.window_alive && (here
                || there)
            &&& outcome.output_gone <==> state is Some && !here
            &&& outcome.placement matches Some(p) ==> {
                &&& p.window == state.unwrap().window
                &&& here ==> p.output == grab.cursor_output
                &&& !here ==> p.output == scene.fallback.id
                &&& active.contains_pair(p.output, p.workspace)
            }
        }),
{
}

/// The layer that a window is dropped into. It is the tiling layer only for a window that came
/// from there, and only where the workspace tiles; a window that was floating stays floating,
/// whether the workspace tiles or not; and a sticky one stays sticky and enters no workspace.
pub proof fn law_windows_keep_their_layer(
    grab: MoveGrab,
    state: MoveGrabState,
    scene: DropScene,
    outcome: DropOutcome,
    p: Placement,
)
    requires
        grab.ends(Some(state), scene, outcome),
        outcome.placement == Some(p),
    ensures
        p.into is Sticky <==> grab.previous == ManagedLayer::Sticky,
        p.into is Tiling <==> grab.previous == ManagedLayer::Tiling && scene.tiling@.contains(
            p.workspace,
        ),
        grab.previous == ManagedLayer::Floating ==> p.into is Floating,
        p.enter_workspace <==> grab.previous != ManagedLayer::Sticky,
{
}

/// How a window that is dropped into the floating layer is arranged. One that was floating is
/// snapped into the cell that is aimed at, wherever a zone claims the pointer; else a zone
/// maximizes it or snaps it; else it stays. One that was tiled stays. A stack must not take it
/// while a cell is aimed at.
pub proof fn law_a_cell_goes_before_a_zone(
    grab: MoveGrab,
    state: MoveGrabState,
    scene: DropScene,
    outcome: DropOutcome,
    p: Placement,
)
    requires
        grab.ends(Some(state), scene, outcome),
        outcome.placement == Some(p),
    ensures
        p.into matches DropInto::Floating { forget_stack, arrange } ==> {
            let floating = grab.previous == ManagedLayer::Floating;
            let cell = match state.snap_pick {
                Some((l, c)) => if l < all_cells().len() && c < all_cells()[l as int].len() {
                    Some(all_cells()[l as int][c as int])
                } else {
                    None
                },
                None => None,
            };
            &&& forget_stack <==> state.snap_pick is Some
            &&& !floating ==> arrange == Arrange::Stay
            &&& floating && cell is Some ==> arrange == (Arrange::SnapToCell {
                cell: cell.unwrap(),
            })
            &&& floating && cell is None && state.snapping_zone is None ==> arrange
                == Arrange::Stay
            &&& floating && cell is None && state.snapping_zone == Some(SnappingZone::Maximize)
                ==> arrange == Arrange::Maximize
            &&& floating && cell is None ==> (state.snapping_zone matches Some(zone) ==> zone
                != SnappingZone::Maximize ==> arrange == (Arrange::SnapToZone { zone }))
        },
{
}

/// The window leaves every output it was on but the one it is dropped on.
pub proof fn law_a_dropped_window_is_on_one_output(
    grab: MoveGrab,
    state: MoveGrabState,
    scene: DropScene,
    outcome: DropOutcome,
    p: Placement,
    output: u64,
)
    requires
        grab.ends(Some(state), scene, outcome),
        outcome.placement == Some(p),
    ensures
        p.leave@.contains(output) <==> grab.window_outputs@.contains(output) && output != p.output,
{
}

/// Where a window is dropped: where it was held, as far from the pointer as when the move began.
/// Only where its output is gone it is moved, on each axis by itself and no further than it has to
/// be to lie in what panels leave of the output of the seat; if it is too large for that, it
/// begins where that does.
pub proof fn law_a_window_is_dropped_where_it_is_held(
    grab: MoveGrab,
    state: MoveGrabState,
    scene: DropScene,
    outcome: DropOutcome,
    p: Placement,
)
    requires
        grab.ends(Some(state), scene, outcome),
        outcome.placement == Some(p),
    ensures
        ({
            let (x, y) = (
                sat(state.location.x + state.window_offset.x),
                sat(state.location.y + state.window_offset.y),
            );
            let area = scene.fallback.work_area;
            let left = sat(area.loc.x + scene.fallback.geometry.loc.x);
            let top = sat(area.loc.y + scene.fallback.geometry.loc.y);
            let right = left + area.size.w - scene.window_size.w;
            let bottom = top + area.size.h - scene.window_size.h;
            if scene.workspaces.active@.contains_key(grab.cursor_output) {
                p.location.x == x && p.location.y == y
            } else {
                &&& x < left || right < left ==> p.location.x == left
                &&& left <= x <= right ==> p.location.x == x
                &&& left <= right < x ==> p.location.x == right
                &&& y < top || bottom < top ==> p.location.y == top
                &&& top <= y <= bottom ==> p.location.y == y
                &&& top <= bottom < y ==> p.location.y == bottom
            }
        }),
{
}

/// A snapped window goes back to where it was before the drag, if that is known, wherever the drag
/// left it.
pub proof fn law_restoring_forgets_the_drag(before: Rectangle, snapped: Option<Rectangle>)
    ensures
        restored(Some(before), snapped) == Some(before),
        restored(None, snapped) == snapped,
{
}

/// A window that was placed on an open session gets the keyboard, and the pointer unless a touch
/// moved it.
pub proof fn law_a_dropped_window_is_focused(touch: bool)
    ensures
        focused(true, false, touch).keyboard,
        focused(true, false, touch).pointer <==> !touch,
{
}

/// However a move ends, its end is the same: it is the output it ended on that decides what is
/// cleaned up, not what became of the window.
pub proof fn law_the_end_of_a_move_is_always_the_same(
    grab: MoveGrab,
    state: Option<MoveGrabState>,
    scene: DropScene,
    outcome: DropOutcome,
    workspace: u64,
)
    requires
        grab.ends(state, scene, outcome),
    ensures
        ({
            let steps = outcome.ending@;
            let n = steps.len() as int;
            let active = scene.workspaces.active@;
            &&& n >= 2
            &&& steps[n - 2] == EndStep::LeaveOverview
            &&& steps[n - 1] == EndStep::ResetCursor
            &&& forall|i: int| #![trigger steps[i]] 0 <= i < n - 2 ==> steps[i] is CleanUp
            &&& active.contains_key(grab.cursor_output) ==> n == 3 && steps[0]
                == (EndStep::CleanUp { workspace: active[grab.cursor_output] })
            &&& !active.contains_key(grab.cursor_output) ==> n == scene.workspaces.spaces@.len() + 2
            &&& !active.contains_key(grab.cursor_output) ==> (steps.contains(
                EndStep::CleanUp { workspace },
            ) <==> scene.workspaces.spaces@.contains(workspace))
        }),
{
    law_every_move_is_cleaned_up(scene, grab.cursor_output, workspace);
    if !scene.workspaces.active@.contains_key(grab.cursor_output) {
        law_final_sweep_is_complete(scene.workspaces, grab.cursor_output);
    }
}

} // verus!
