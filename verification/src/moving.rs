//! Moving a window with the pointer or a finger.
//!
//! A [`MoveGrab`] is what is installed on the seat; the [`MoveGrabState`] is what the rest of
//! the session sees of it. Both are driven by the motion of the pointer and answer with the
//! effects that the motion has outside.

use crate::geometry::{sat, saturate, Point, Rectangle, Size};
use crate::grabs::{ButtonState, GrabStartData, ManagedLayer, ReleaseMode};
use crate::layouts::picked;
use crate::pending::{ended, SeatMovePendingState};
use crate::snap_strip::{Message, SnapStrip, REVEAL_HEIGHT};
use crate::zones::{zone_at, zone_under, SnappingZone};
use std::collections::HashSet;
use vstd::prelude::*;

verus! {

/// An output, as a motion finds it.
#[derive(Debug, Clone, Copy, PartialEq, Eq, Structural)]
pub struct OutputInfo {
    pub id: u64,
    /// Where the output is in the space that all outputs share.
    pub geometry: Rectangle,
    /// What panels leave of it, in its own coordinates.
    pub work_area: Rectangle,
}

impl OutputInfo {
    /// The output in its own coordinates.
    pub open spec fn own_geometry(self) -> Rectangle {
        Rectangle { loc: Point { x: 0, y: 0 }, size: self.geometry.size }
    }
}

/// The edges of the output under the pointer that the window comes close to.
#[derive(Debug, Clone, Copy, PartialEq, Eq, Structural)]
pub struct EdgeProximity {
    pub left: bool,
    pub right: bool,
    pub top: bool,
    pub bottom: bool,
}

/// A motion of the pointer.
#[derive(Debug, Clone, Copy, PartialEq, Eq, Structural)]
pub struct Motion {
    /// Where the pointer is, rounded down.
    pub floor: Point,
    /// Where the pointer is, rounded to the nearest pixel.
    pub round: Point,
    /// The geometry of the window as the window knows it.
    pub window_geometry: Rectangle,
    /// The edges of the output under the pointer within the snapping threshold.
    pub near: EdgeProximity,
    /// The stack under the pointer that would take the window, if there is one.
    pub stack: Option<Rectangle>,
}

/// What a motion has to change outside.
#[derive(Debug, Clone, Copy, PartialEq, Eq)]
pub enum MoveEffect {
    /// Clean up the tiling drag that ran on `output` and goes on with `dragging_on`.
    CleanupTilingDrag { output: u64, dragging_on: u64 },
    /// The window comes onto an output, and what is shown along with it.
    Enter { output: u64, overlap: Rectangle, indicator: bool, strip: bool },
    /// The window leaves an output, and what is shown along with it.
    Leave { output: u64, indicator: bool, strip: bool },
    /// Show the stack hover on every output of the window.
    ShowStackHover { geometry: Rectangle },
    HideStackHover,
    /// Show the layout strip on every output of the window.
    ShowStrip,
    HideStrip,
    /// Hand the message to the layout strip.
    TellStrip { message: Message },
}

/// What the session sees of a running move.
#[derive(Debug)]
pub struct MoveGrabState {
    pub window: u64,
    /// From the pointer to the top left corner of the window.
    pub window_offset: Point,
    pub indicator_thickness: u8,
    pub previous: ManagedLayer,
    pub snapping_zone: Option<SnappingZone>,
    /// The layout strip, shown while the pointer is at the top edge.
    pub snap_strip: Option<SnapStrip>,
    /// The cell of the strip that is aimed at. It takes precedence over the zone.
    pub snap_pick: Option<(usize, usize)>,
    /// The stack hover.
    pub stacking_indicator: Option<Rectangle>,
    /// Where the window is held, to the nearest pixel.
    pub location: Point,
    pub cursor_output: u64,
}

/// A window being moved.
#[derive(Debug)]
pub struct MoveGrab {
    pub window: u64,
    pub start_data: GrabStartData,
    pub cursor_output: u64,
    /// The outputs the window is on.
    pub window_outputs: HashSet<u64>,
    pub previous: ManagedLayer,
    pub release: ReleaseMode,
}

/// The first output from `from` on that `at` is on or touches.
pub open spec fn output_from(outputs: Seq<OutputInfo>, at: Point, from: int) -> Option<int>
    decreases outputs.len() - from,
{
    if from < 0 || from >= outputs.len() {
        None
    } else if outputs[from].geometry.adjoins(
        Rectangle { loc: at, size: Size { w: 0, h: 0 } },
    ) {
        Some(from)
    } else {
        output_from(outputs, at, from + 1)
    }
}

/// The output under `at`.
pub open spec fn output_under(outputs: Seq<OutputInfo>, at: Point) -> Option<int> {
    output_from(outputs, at, 0)
}

/// The output under a point: the first that it is on or touches.
pub fn output_at(outputs: &Vec<OutputInfo>, at: Point) -> (r: Option<usize>)
    ensures
        r matches Some(i) ==> output_under(outputs@, at) == Some(i as int) && i < outputs.len(),
        r is None ==> output_under(outputs@, at) is None,
{
    let spot = Rectangle { loc: at, size: Size { w: 0, h: 0 } };
    let mut i: usize = 0;
    while i < outputs.len()
        invariant
            i <= outputs.len(),
            spot == (Rectangle { loc: at, size: Size { w: 0, h: 0 } }),
            output_under(outputs@, at) == output_from(outputs@, at, i as int),
        decreases outputs.len() - i,
    {
        if outputs[i].geometry.overlaps_or_touches(spot) {
            return Some(i);
        }
        i = i + 1;
    }
    None
}

/// Where the window is while its pointer is at `round`.
pub open spec fn window_at(motion: Motion, offset: Point) -> Rectangle {
    Rectangle {
        loc: motion.window_geometry.loc.plus(motion.round.plus(offset)),
        size: motion.window_geometry.size,
    }
}

/// Where the pointer has to be on one axis for the window to sit at the edge it is near to.
pub open spec fn snapped(
    near_start: bool,
    near_end: bool,
    origin: i32,
    extent: i32,
    offset: i32,
    len: i32,
    at: i32,
) -> int {
    if near_start {
        sat(origin - offset)
    } else if near_end {
        sat(origin + extent - offset - len)
    } else {
        at as int
    }
}

fn snap_axis(
    near_start: bool,
    near_end: bool,
    origin: i32,
    extent: i32,
    offset: i32,
    len: i32,
    at: i32,
) -> (r: i32)
    ensures
        r == snapped(near_start, near_end, origin, extent, offset, len, at),
{
    if near_start {
        saturate(origin as i64 - offset as i64)
    } else if near_end {
        saturate(origin as i64 + extent as i64 - offset as i64 - len as i64)
    } else {
        at
    }
}

/// Where the window is held once it has been snapped to the edges it is near to. Windows that
/// leave the tiling layer are not snapped.
pub open spec fn held_at(
    previous: ManagedLayer,
    motion: Motion,
    output: Rectangle,
    offset: Point,
) -> Point {
    if previous == ManagedLayer::Tiling {
        motion.round
    } else {
        Point {
            x: snapped(
                motion.near.left,
                motion.near.right,
                output.loc.x,
                output.size.w,
                offset.x,
                motion.window_geometry.size.w,
                motion.round.x,
            ) as i32,
            y: snapped(
                motion.near.top,
                motion.near.bottom,
                output.loc.y,
                output.size.h,
                offset.y,
                motion.window_geometry.size.h,
                motion.round.y,
            ) as i32,
        }
    }
}

fn hold_at(previous: ManagedLayer, motion: Motion, output: Rectangle, offset: Point) -> (r: Point)
    ensures
        r == held_at(previous, motion, output, offset),
{
    match previous {
        ManagedLayer::Tiling => motion.round,
        ManagedLayer::Floating | ManagedLayer::Sticky => Point {
            x: snap_axis(
                motion.near.left,
                motion.near.right,
                output.loc.x,
                output.size.w,
                offset.x,
                motion.window_geometry.size.w,
                motion.round.x,
            ),
            y: snap_axis(
                motion.near.top,
                motion.near.bottom,
                output.loc.y,
                output.size.h,
                offset.y,
                motion.window_geometry.size.h,
                motion.round.y,
            ),
        },
    }
}

/// The outputs the window is on once the first `n` outputs have been looked at.
pub open spec fn outputs_after(
    outputs: Seq<OutputInfo>,
    window: Rectangle,
    on: Set<u64>,
    n: int,
) -> Set<u64>
    decreases n,
{
    if n <= 0 {
        on
    } else {
        let before = outputs_after(outputs, window, on, n - 1);
        let output = outputs[n - 1];
        if output.geometry.common_area(window) is Some {
            before.insert(output.id)
        } else {
            before.remove(output.id)
        }
    }
}

/// The outputs that the window comes onto and leaves, among the first `n`.
pub open spec fn crossings(
    outputs: Seq<OutputInfo>,
    window: Rectangle,
    on: Set<u64>,
    indicator: bool,
    strip: bool,
    n: int,
) -> Seq<MoveEffect>
    decreases n,
{
    if n <= 0 {
        seq![]
    } else {
        let before = crossings(outputs, window, on, indicator, strip, n - 1);
        let was_on = outputs_after(outputs, window, on, n - 1).contains(outputs[n - 1].id);
        let output = outputs[n - 1].id;
        match outputs[n - 1].geometry.common_area(window) {
            Some(overlap) if !was_on => before.push(
                MoveEffect::Enter { output, overlap, indicator, strip },
            ),
            None if was_on => before.push(MoveEffect::Leave { output, indicator, strip }),
            _ => before,
        }
    }
}

/// Updates the outputs the window is on, and reports those it comes onto and leaves.
fn cross_outputs(
    on: &mut HashSet<u64>,
    outputs: &Vec<OutputInfo>,
    window: Rectangle,
    indicator: bool,
    strip: bool,
    effects: &mut Vec<MoveEffect>,
)
    ensures
        final(on)@ == outputs_after(outputs@, window, old(on)@, outputs.len() as int),
        final(effects)@ == old(effects)@ + crossings(
            outputs@,
            window,
            old(on)@,
            indicator,
            strip,
            outputs.len() as int,
        ),
{
    let mut i: usize = 0;
    assert(effects@ =~= old(effects)@ + crossings(outputs@, window, old(on)@, indicator, strip, 0));
    while i < outputs.len()
        invariant
            i <= outputs.len(),
            on@ == outputs_after(outputs@, window, old(on)@, i as int),
            effects@ == old(effects)@ + crossings(
                outputs@,
                window,
                old(on)@,
                indicator,
                strip,
                i as int,
            ),
        decreases outputs.len() - i,
    {
        let output = outputs[i];
        let ghost before = effects@;
        match output.geometry.intersection(window) {
            Some(overlap) => {
                if on.insert(output.id) {
                    effects.push(
                        MoveEffect::Enter { output: output.id, overlap, indicator, strip },
                    );
                }
            },
            None => {
                if on.remove(&output.id) {
                    effects.push(MoveEffect::Leave { output: output.id, indicator, strip });
                }
            },
        }
        i = i + 1;
        assert(effects@ =~= old(effects)@ + crossings(
            outputs@,
            window,
            old(on)@,
            indicator,
            strip,
            i as int,
        ));
    }
}

/// Where the pointer is in the coordinates of the output, rounded down.
pub open spec fn local_position(motion: Motion, output: OutputInfo) -> Point {
    motion.floor.minus(output.geometry.loc)
}

/// The pointer is close enough to the top edge of the work area for the strip to drop down.
pub open spec fn at_top(local: Point, output: OutputInfo) -> bool {
    local.y < output.work_area.loc.y + REVEAL_HEIGHT
}

impl MoveGrabState {
    /// The strip, unless the pointer has just come from another output: a strip is made for one
    /// output only.
    pub open spec fn kept_strip(self, crossed: bool) -> Option<SnapStrip> {
        if crossed {
            None
        } else {
            self.snap_strip
        }
    }

    /// The pick, which goes with the strip.
    pub open spec fn kept_pick(self, crossed: bool) -> Option<(usize, usize)> {
        if crossed {
            None
        } else {
            self.snap_pick
        }
    }

    /// The stack that the pointer may promise to merge with: none while a cell is aimed at.
    pub open spec fn offered_stack(self, crossed: bool, stack: Option<Rectangle>) -> Option<
        Rectangle,
    > {
        if self.kept_pick(crossed) is Some {
            None
        } else {
            stack
        }
    }

    /// The stack hover after the motion. One that stands is not rebuilt.
    pub open spec fn stack_hover_after(self, crossed: bool, stack: Option<Rectangle>) -> Option<
        Rectangle,
    > {
        let offered = self.offered_stack(crossed, stack);
        if (offered is Some) != (self.stacking_indicator is Some) {
            offered
        } else {
            self.stacking_indicator
        }
    }

    /// The strip is shown after the motion: the pointer is at the top edge or over the strip.
    pub open spec fn reveals_strip(self, crossed: bool, local: Point, output: OutputInfo) -> bool {
        &&& self.previous == ManagedLayer::Floating
        &&& (at_top(local, output) || (self.kept_strip(crossed) matches Some(strip)
            && strip.bounds().covers(local)))
    }

    /// What holds of the state `self` becomes when the pointer moves, whatever strip is built.
    pub open spec fn becomes(
        self,
        next: MoveGrabState,
        layer: ManagedLayer,
        crossed: bool,
        motion: Motion,
        output: OutputInfo,
    ) -> bool {
        &&& next.window == self.window
        &&& next.window_offset == self.window_offset
        &&& next.indicator_thickness == self.indicator_thickness
        &&& next.previous == self.previous
        &&& next.cursor_output == output.id
        &&& next.location == held_at(layer, motion, output.geometry, self.window_offset)
        &&& next.stacking_indicator == self.stack_hover_after(
            crossed,
            motion.stack,
        )
        // A strip that stays is the same strip.
        &&& next.snap_strip is Some <==> self.reveals_strip(
            crossed,
            local_position(motion, output),
            output,
        )
        &&& next.snap_strip is Some && self.kept_strip(crossed) is Some ==> next.snap_strip
            == self.kept_strip(crossed)
        // The pick is the cell under the pointer, and one that is on offer.
        &&& match next.snap_strip {
            Some(strip) => strip.is_pick(local_position(motion, output), next.snap_pick),
            None => next.snap_pick is None,
        }
        &&& next.snap_pick matches Some(pick) ==> picked(pick) is Some
        // While a cell is aimed at, no zone claims the pointer.
        &&& next.snapping_zone == if self.previous != ManagedLayer::Floating {
            self.snapping_zone
        } else if next.snap_pick is Some {
            None
        } else {
            zone_under(local_position(motion, output), output.own_geometry())
        }
    }

    /// The effects that the change from `self` to `next` has outside, in order.
    pub open spec fn effects_of(
        self,
        next: MoveGrabState,
        crossed: bool,
        motion: Motion,
        outputs: Seq<OutputInfo>,
        on: Set<u64>,
    ) -> Seq<MoveEffect> {
        hide_strip(crossed && self.snap_strip is Some) + crossings(
            outputs,
            window_at(motion, self.window_offset),
            on,
            self.stacking_indicator is Some,
            self.kept_strip(crossed) is Some,
            outputs.len() as int,
        ) + stack_effect(self.stacking_indicator, self.offered_stack(crossed, motion.stack))
            + strip_effect(self.kept_strip(crossed) is Some, next.snap_strip is Some) + tell_effect(
            next.snap_strip,
            next.snap_pick,
        )
    }
}

/// The strip goes away if `hide`.
pub open spec fn hide_strip(hide: bool) -> Seq<MoveEffect> {
    if hide {
        seq![MoveEffect::HideStrip]
    } else {
        seq![]
    }
}

/// The stack hover appears or goes away.
pub open spec fn stack_effect(before: Option<Rectangle>, offered: Option<Rectangle>) -> Seq<
    MoveEffect,
> {
    match (before, offered) {
        (None, Some(geometry)) => seq![MoveEffect::ShowStackHover { geometry }],
        (Some(_), None) => seq![MoveEffect::HideStackHover],
        _ => seq![],
    }
}

/// The strip appears or goes away.
pub open spec fn strip_effect(before: bool, after: bool) -> Seq<MoveEffect> {
    if !before && after {
        seq![MoveEffect::ShowStrip]
    } else {
        hide_strip(before && !after)
    }
}

/// The strip learns which cell is hovered, if that has changed.
pub open spec fn tell_effect(strip: Option<SnapStrip>, pick: Option<(usize, usize)>) -> Seq<
    MoveEffect,
> {
    match strip {
        Some(strip) if strip.program().accented() != pick => seq![
            MoveEffect::TellStrip { message: Message::Hover(pick) },
        ],
        _ => seq![],
    }
}

/// The pointer has come from another output.
pub open spec fn crossing_effect(from: u64, to: u64) -> Seq<MoveEffect> {
    if from != to {
        seq![MoveEffect::CleanupTilingDrag { output: from, dragging_on: to }]
    } else {
        seq![]
    }
}

impl MoveGrabState {
    /// Shows or hides the stack hover.
    fn update_stack_hover(&mut self, stack: Option<Rectangle>, effects: &mut Vec<MoveEffect>)
        ensures
            final(self).stacking_indicator == old(self).stack_hover_after(false, stack),
            *final(self) == (MoveGrabState {
                stacking_indicator: final(self).stacking_indicator,
                ..*old(self)
            }),
            final(effects)@ == old(effects)@ + stack_effect(
                old(self).stacking_indicator,
                old(self).offered_stack(false, stack),
            ),
    {
        let offered: Option<Rectangle> = if self.snap_pick.is_some() {
            None
        } else {
            stack
        };
        match (self.stacking_indicator, offered) {
            (None, Some(geometry)) => {
                effects.push(MoveEffect::ShowStackHover { geometry });
                self.stacking_indicator = offered;
            },
            (Some(_), None) => {
                effects.push(MoveEffect::HideStackHover);
                self.stacking_indicator = None;
            },
            _ => {},
        }
        assert(effects@ =~= old(effects)@ + stack_effect(
            old(self).stacking_indicator,
            old(self).offered_stack(false, stack),
        ));
    }

    /// Shows or hides the strip and picks the cell under the pointer.
    fn update_strip<F: FnOnce(Rectangle) -> SnapStrip>(
        &mut self,
        local: Point,
        output: OutputInfo,
        build: F,
        effects: &mut Vec<MoveEffect>,
    )
        requires
            build.requires((output.work_area,)),
        ensures
            *final(self) == (MoveGrabState {
                snap_strip: final(self).snap_strip,
                snap_pick: final(self).snap_pick,
                ..*old(self)
            }),
            final(self).snap_strip is Some <==> old(self).reveals_strip(false, local, output),
            final(self).snap_strip is Some && old(self).snap_strip is Some
                ==> final(self).snap_strip == old(self).snap_strip,
            final(self).snap_strip is Some && old(self).snap_strip is None ==> build.ensures(
                (output.work_area,),
                final(self).snap_strip.unwrap(),
            ),
            match final(self).snap_strip {
                Some(strip) => strip.is_pick(local, final(self).snap_pick),
                None => final(self).snap_pick is None,
            },
            final(self).snap_pick matches Some(pick) ==> picked(pick) is Some,
            final(effects)@ == old(effects)@ + strip_effect(
                old(self).snap_strip is Some,
                final(self).snap_strip is Some,
            ) + tell_effect(final(self).snap_strip, final(self).snap_pick),
    {
        let had_strip = self.snap_strip.is_some();
        let shown = match self.previous {
            ManagedLayer::Floating => {
                let over_strip = match &self.snap_strip {
                    Some(strip) => strip.geometry().contains(local),
                    None => false,
                };
                (local.y as i64) < output.work_area.loc.y as i64 + REVEAL_HEIGHT as i64
                    || over_strip
            },
            _ => false,
        };
        if shown {
            if !had_strip {
                self.snap_strip = Some(build(output.work_area));
                effects.push(MoveEffect::ShowStrip);
            }
        } else {
            if had_strip {
                effects.push(MoveEffect::HideStrip);
            }
            self.snap_strip = None;
        }
        assert(effects@ =~= old(effects)@ + strip_effect(had_strip, self.snap_strip is Some));
        let ghost shown_effects = effects@;
        let mut pick: Option<(usize, usize)> = None;
        let mut message: Option<Message> = None;
        match &self.snap_strip {
            Some(strip) => {
                pick = strip.cell_at(local);
                message = strip.set_hovered(pick);
            },
            None => {},
        }
        self.snap_pick = pick;
        match message {
            Some(message) => {
                effects.push(MoveEffect::TellStrip { message });
            },
            None => {},
        }
        assert(effects@ =~= shown_effects + tell_effect(self.snap_strip, self.snap_pick));
    }
}

/// Effects can be appended one group after the other.
proof fn lemma_append_in_turn(
    a: Seq<MoveEffect>,
    b: Seq<MoveEffect>,
    c: Seq<MoveEffect>,
    d: Seq<MoveEffect>,
    e: Seq<MoveEffect>,
    f: Seq<MoveEffect>,
)
    ensures
        a + b + c + d + e + f == a + (b + c + d + e + f),
{
    assert(a + b + c + d + e + f =~= a + (b + c + d + e + f));
}

impl MoveGrab {
    /// The grab `self`, whose seat holds `state`, becomes `next` when the pointer moves, its seat
    /// then holds `next_state`, and `effects` is what changes outside.
    pub open spec fn follows(
        self,
        state: Option<MoveGrabState>,
        outputs: Seq<OutputInfo>,
        motion: Motion,
        next: MoveGrab,
        next_state: Option<MoveGrabState>,
        effects: Seq<MoveEffect>,
    ) -> bool {
        &&& next.window == self.window
        &&& next.start_data == self.start_data
        &&& next.previous == self.previous
        &&& next.release == self.release
        &&& match output_under(outputs, motion.floor) {
            None => {
                &&& next.cursor_output == self.cursor_output
                &&& next.window_outputs@ == self.window_outputs@
                &&& next_state == state
                &&& effects == Seq::<MoveEffect>::empty()
            },
            Some(i) => {
                let output = outputs[i];
                let crossed = self.cursor_output != output.id;
                &&& next.cursor_output == output.id
                &&& (next_state is Some <==> state is Some)
                &&& match (state, next_state) {
                    (Some(before), Some(after)) => {
                        &&& before.becomes(after, self.previous, crossed, motion, output)
                        &&& next.window_outputs@ == outputs_after(
                            outputs,
                            window_at(motion, before.window_offset),
                            self.window_outputs@,
                            outputs.len() as int,
                        )
                        &&& effects == crossing_effect(self.cursor_output, output.id)
                            + before.effects_of(
                            after,
                            crossed,
                            motion,
                            outputs,
                            self.window_outputs@,
                        )
                    },
                    _ => {
                        &&& next.window_outputs@ == self.window_outputs@
                        &&& effects == crossing_effect(self.cursor_output, output.id)
                    },
                }
            },
        }
    }

    /// The pointer moved. `outputs` are the outputs there are, `build` makes the layout strip
    /// for the work area of the output under the pointer, and `state` is what the seat holds of
    /// this grab.
    ///
    /// A pointer that is on no output changes nothing.
    pub fn update_location<F: FnOnce(Rectangle) -> SnapStrip>(
        &mut self,
        state: &mut Option<MoveGrabState>,
        outputs: &Vec<OutputInfo>,
        motion: Motion,
        build: F,
    ) -> (effects: Vec<MoveEffect>)
        requires
            forall|i: int|
                #![trigger outputs[i]]
                0 <= i < outputs.len() ==> build.requires((outputs[i].work_area,)),
        ensures
            old(self).follows(
                *old(state),
                outputs@,
                motion,
                *final(self),
                *final(state),
                effects@,
            ),
            // A strip that is shown and was not kept has been made for the output.
            match (output_under(outputs@, motion.floor), *old(state), *final(state)) {
                (Some(i), Some(before), Some(after)) => before.kept_strip(
                    old(self).cursor_output != outputs@[i].id,
                ) is None && after.snap_strip is Some ==> build.ensures(
                    (outputs@[i].work_area,),
                    after.snap_strip.unwrap(),
                ),
                _ => true,
            },
    {
        let mut effects: Vec<MoveEffect> = Vec::new();
        let output: OutputInfo = match output_at(outputs, motion.floor) {
            Some(i) => outputs[i],
            None => {
                return effects;
            },
        };
        let crossed = self.cursor_output != output.id;
        if crossed {
            effects.push(
                MoveEffect::CleanupTilingDrag {
                    output: self.cursor_output,
                    dragging_on: output.id,
                },
            );
            self.cursor_output = output.id;
        }
        let ghost after_crossing = effects@;
        assert(after_crossing =~= crossing_effect(old(self).cursor_output, output.id));
        match state.take() {
            None => {
                *state = None;
            },
            Some(mut grab_state) => {
                let ghost before = grab_state;
                grab_state.cursor_output = output.id;
                if crossed {
                    if grab_state.snap_strip.is_some() {
                        effects.push(MoveEffect::HideStrip);
                    }
                    grab_state.snap_strip = None;
                    grab_state.snap_pick = None;
                }
                let ghost hidden = effects@;
                assert(hidden =~= after_crossing + hide_strip(crossed && before.snap_strip is Some));
                let window = Rectangle {
                    loc: motion.window_geometry.loc.translate(
                        motion.round.translate(grab_state.window_offset),
                    ),
                    size: motion.window_geometry.size,
                };
                grab_state.location = hold_at(
                    self.previous,
                    motion,
                    output.geometry,
                    grab_state.window_offset,
                );
                let indicator = grab_state.stacking_indicator.is_some();
                let strip = grab_state.snap_strip.is_some();
                cross_outputs(
                    &mut self.window_outputs,
                    outputs,
                    window,
                    indicator,
                    strip,
                    &mut effects,
                );
                grab_state.update_stack_hover(motion.stack, &mut effects);
                let local = motion.floor.relative_to(output.geometry.loc);
                grab_state.update_strip(local, output, build, &mut effects);
                match grab_state.previous {
                    ManagedLayer::Floating => {
                        grab_state.snapping_zone = if grab_state.snap_pick.is_some() {
                            None
                        } else {
                            zone_at(
                                local,
                                Rectangle {
                                    loc: Point { x: 0, y: 0 },
                                    size: output.geometry.size,
                                },
                            )
                        };
                    },
                    _ => {},
                }
                proof {
                    let kept_strip = before.kept_strip(crossed) is Some;
                    lemma_append_in_turn(
                        after_crossing,
                        hide_strip(crossed && before.snap_strip is Some),
                        crossings(
                            outputs@,
                            window_at(motion, before.window_offset),
                            old(self).window_outputs@,
                            before.stacking_indicator is Some,
                            kept_strip,
                            outputs.len() as int,
                        ),
                        stack_effect(
                            before.stacking_indicator,
                            before.offered_stack(crossed, motion.stack),
                        ),
                        strip_effect(kept_strip, grab_state.snap_strip is Some),
                        tell_effect(grab_state.snap_strip, grab_state.snap_pick),
                    );
                }
                *state = Some(grab_state);
            },
        }
        effects
    }
}

/// A button event releases a grab.
pub open spec fn released_by(release: ReleaseMode, state: ButtonState, any_pressed: bool) -> bool {
    match release {
        ReleaseMode::NoMouseButtons => !any_pressed,
        ReleaseMode::Click => state == ButtonState::Pressed,
    }
}

impl MoveGrabState {
    /// The state of a move of `window` that has just begun.
    pub open spec fn at_start(
        start: GrabStartData,
        window: u64,
        window_location: Point,
        cursor_output: u64,
        indicator_thickness: u8,
        previous: ManagedLayer,
    ) -> MoveGrabState {
        MoveGrabState {
            window,
            window_offset: window_location.minus(start.origin()),
            indicator_thickness,
            previous,
            snapping_zone: None,
            snap_strip: None,
            snap_pick: None,
            stacking_indicator: None,
            location: start.origin(),
            cursor_output,
        }
    }

    /// Only floating windows get a strip or a zone, a pick needs a strip and names a cell on
    /// offer, and a pick keeps the zones away.
    pub open spec fn consistent(self) -> bool {
        &&& self.previous != ManagedLayer::Floating ==> self.snap_strip is None && self.snap_pick is None
            && self.snapping_zone is None
        &&& self.snap_pick matches Some(pick) ==> self.snap_strip is Some && self.snapping_zone
            is None && picked(pick) is Some
    }

    /// The window being moved.
    pub fn element(&self) -> (r: u64)
        ensures
            r == self.window,
    {
        self.window
    }
}

impl MoveGrab {
    /// Begins to move a window. The seat's state of the move is set up in `state`, and the
    /// drag that was pending on the seat ends.
    pub fn new(
        start_data: GrabStartData,
        window: u64,
        state: &mut Option<MoveGrabState>,
        pending: Option<&mut SeatMovePendingState>,
        initial_window_location: Point,
        cursor_output: u64,
        indicator_thickness: u8,
        previous_layer: ManagedLayer,
        release: ReleaseMode,
    ) -> (r: MoveGrab)
        ensures
            r.window == window,
            r.start_data == start_data,
            r.cursor_output == cursor_output,
            r.window_outputs@ == Set::<u64>::empty().insert(cursor_output),
            r.previous == previous_layer,
            r.release == release,
            *final(state) == Some(
                MoveGrabState::at_start(
                    start_data,
                    window,
                    initial_window_location,
                    cursor_output,
                    indicator_thickness,
                    previous_layer,
                ),
            ),
            final(state).unwrap().consistent(),
            pending matches Some(p) ==> final(p)@ == ended(p@),
    {
        let mut outputs: HashSet<u64> = HashSet::new();
        outputs.insert(cursor_output);
        *state = Some(
            MoveGrabState {
                window,
                window_offset: initial_window_location.relative_to(start_data.location()),
                indicator_thickness,
                previous: previous_layer,
                snapping_zone: None,
                snap_strip: None,
                snap_pick: None,
                stacking_indicator: None,
                location: start_data.location(),
                cursor_output,
            },
        );
        if let Some(pending) = pending {
            pending.end();
        }
        MoveGrab {
            window,
            start_data,
            cursor_output,
            window_outputs: outputs,
            previous: previous_layer,
            release,
        }
    }

    /// Whether the window comes out of the tiling layer.
    pub fn is_tiling_grab(&self) -> (r: bool)
        ensures
            r == (self.previous == ManagedLayer::Tiling),
    {
        self.previous == ManagedLayer::Tiling
    }

    /// Whether a touch moves the window.
    pub fn is_touch_grab(&self) -> (r: bool)
        ensures
            r == (self.start_data is Touch),
    {
        self.start_data.is_touch()
    }

    /// Whether a button event ends the grab. `any_pressed` tells whether a button is still
    /// down once the event has been handled.
    pub fn button(&self, state: ButtonState, any_pressed: bool) -> (ends: bool)
        ensures
            ends == released_by(self.release, state, any_pressed),
    {
        match self.release {
            ReleaseMode::NoMouseButtons => !any_pressed,
            ReleaseMode::Click => state == ButtonState::Pressed,
        }
    }

    /// Whether a motion ends the grab: the window may be gone.
    pub fn motion_ends(&self, window_alive: bool) -> (ends: bool)
        ensures
            ends == !window_alive,
    {
        !window_alive
    }

    /// Whether an event on a touch point concerns the grab: lifting it ends the grab, moving it
    /// moves the window.
    pub fn concerns_touch(&self, slot: Option<u32>) -> (r: bool)
        ensures
            r == self.start_data.started_by(slot),
    {
        self.start_data.concerns(slot)
    }
}

} // verus!
