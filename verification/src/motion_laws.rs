//! What a motion comes to, told by what it starts from and what can be seen of it.

use crate::geometry::{fits, sat, Point, Rectangle, Size};
use crate::grabs::{ButtonState, GrabStartData, ManagedLayer, ReleaseMode};
use crate::moving::{
    crossing_effect, crossings, hide_strip, output_from, output_under, outputs_after, released_by,
    stack_effect, strip_effect, tell_effect, window_at, Motion, MoveEffect, MoveGrab,
    MoveGrabState, OutputInfo,
};
use crate::moving_laws::{distinct, law_window_is_on_what_it_overlaps};
use crate::snap_strip::Message;
use crate::zones::zone_under;
use vstd::prelude::*;

verus! {

/// A move begins with the window where it is: seen from the pointer, its corner is at the offset
/// that is kept from then on. Nothing is shown yet.
pub proof fn law_a_move_begins_where_the_window_is(
    start: GrabStartData,
    window: u64,
    corner: Point,
    output: u64,
    thickness: u8,
    previous: ManagedLayer,
)
    ensures
        ({
            let state = MoveGrabState::at_start(start, window, corner, output, thickness, previous);
            let pointer = match start {
                GrabStartData::Pointer { location } => location,
                GrabStartData::Touch { location, .. } => location,
            };
            &&& state.location == pointer
            &&& fits(corner.x - pointer.x) ==> pointer.x + state.window_offset.x == corner.x
            &&& fits(corner.y - pointer.y) ==> pointer.y + state.window_offset.y == corner.y
            &&& state.window == window
            &&& state.cursor_output == output
            &&& state.indicator_thickness == thickness
            &&& state.previous == previous
            &&& state.snapping_zone is None
            &&& state.snap_strip is None
            &&& state.snap_pick is None
            &&& state.stacking_indicator is None
        }),
{
}

/// A move that lasts until the buttons are up ends with the last of them, and one that lasts until
/// a click ends with a press, whatever else is down.
pub proof fn law_moves_end_as_they_are_released(state: ButtonState, any_pressed: bool)
    ensures
        released_by(ReleaseMode::NoMouseButtons, state, false),
        !released_by(ReleaseMode::NoMouseButtons, state, true),
        released_by(ReleaseMode::Click, ButtonState::Pressed, any_pressed),
        !released_by(ReleaseMode::Click, ButtonState::Released, any_pressed),
{
}

/// `p` is on the output or at its edge.
pub open spec fn reaches(output: OutputInfo, p: Point) -> bool {
    let r = output.geometry;
    &&& 0 <= p.x - r.loc.x <= r.size.w
    &&& 0 <= p.y - r.loc.y <= r.size.h
}

/// The geometry of every output has edges that can be represented.
pub open spec fn bounded(outputs: Seq<OutputInfo>) -> bool {
    forall|i: int|
        #![trigger outputs[i]]
        0 <= i < outputs.len() ==> {
            let r = outputs[i].geometry;
            &&& r.valid()
            &&& fits(r.loc.x + r.size.w)
            &&& fits(r.loc.y + r.size.h)
        }
}

/// The output under a point is the first that it is on or at the edge of, and there is none only
/// where no output has the point.
pub proof fn law_the_first_output_has_the_pointer(outputs: Seq<OutputInfo>, p: Point)
    requires
        bounded(outputs),
    ensures
        output_under(outputs, p) matches Some(i) ==> 0 <= i < outputs.len() && reaches(
            outputs[i],
            p,
        ),
        output_under(outputs, p) matches Some(i) ==> forall|k: int|
            #![trigger outputs[k]]
            0 <= k < i ==> !reaches(outputs[k], p),
        output_under(outputs, p) is None ==> forall|k: int|
            #![trigger outputs[k]]
            0 <= k < outputs.len() ==> !reaches(outputs[k], p),
{
    lemma_first_output(outputs, p, 0);
}

proof fn lemma_first_output(outputs: Seq<OutputInfo>, p: Point, from: int)
    requires
        bounded(outputs),
        0 <= from,
    ensures
        output_from(outputs, p, from) matches Some(i) ==> from <= i < outputs.len() && reaches(
            outputs[i],
            p,
        ),
        output_from(outputs, p, from) matches Some(i) ==> forall|k: int|
            #![trigger outputs[k]]
            from <= k < i ==> !reaches(outputs[k], p),
        output_from(outputs, p, from) is None ==> forall|k: int|
            #![trigger outputs[k]]
            from <= k < outputs.len() ==> !reaches(outputs[k], p),
    decreases outputs.len() - from,
{
    if from < outputs.len() {
        assert(outputs[from].geometry.valid());
        assert(outputs[from].geometry.adjoins(Rectangle { loc: p, size: Size { w: 0, h: 0 } })
            <==> reaches(outputs[from], p));
        lemma_first_output(outputs, p, from + 1);
    }
}

/// A motion that ends on no output changes nothing at all.
pub proof fn law_nothing_moves_off_the_outputs(
    grab: MoveGrab,
    state: Option<MoveGrabState>,
    outputs: Seq<OutputInfo>,
    motion: Motion,
    next: MoveGrab,
    next_state: Option<MoveGrabState>,
    effects: Seq<MoveEffect>,
)
    requires
        bounded(outputs),
        grab.follows(state, outputs, motion, next, next_state, effects),
        forall|k: int|
            #![trigger outputs[k]]
            0 <= k < outputs.len() ==> !reaches(outputs[k], motion.floor),
    ensures
        next_state == state,
        next.window_outputs@ == grab.window_outputs@,
        next.cursor_output == grab.cursor_output,
        effects.len() == 0,
{
    law_the_first_output_has_the_pointer(outputs, motion.floor);
}

/// What a motion never changes: which window is moved, how it is held, where it comes from and
/// what releases it. The output is the one under the pointer, for the grab and for the seat, and
/// a seat that holds no state of the move gets none.
pub proof fn law_a_motion_keeps_the_move(
    grab: MoveGrab,
    state: Option<MoveGrabState>,
    outputs: Seq<OutputInfo>,
    motion: Motion,
    next: MoveGrab,
    next_state: Option<MoveGrabState>,
    effects: Seq<MoveEffect>,
    i: int,
)
    requires
        grab.follows(state, outputs, motion, next, next_state, effects),
        output_under(outputs, motion.floor) == Some(i),
    ensures
        next.window == grab.window,
        next.start_data == grab.start_data,
        next.previous == grab.previous,
        next.release == grab.release,
        next.cursor_output == outputs[i].id,
        state is None ==> next_state is None && next.window_outputs@ == grab.window_outputs@,
        state matches Some(before) ==> (next_state matches Some(after) && {
            &&& after.window == before.window
            &&& after.window_offset == before.window_offset
            &&& after.indicator_thickness == before.indicator_thickness
            &&& after.previous == before.previous
            &&& after.cursor_output == outputs[i].id
        }),
{
}

/// Where a window is held after a motion. On an axis on which it is near no edge of the output it
/// is held by the pointer, wherever the output is; near an edge, it sits at that edge. A window
/// that comes out of the tiling layer is always held by the pointer.
pub proof fn law_a_window_is_held_by_the_pointer_or_an_edge(
    grab: MoveGrab,
    before: MoveGrabState,
    outputs: Seq<OutputInfo>,
    motion: Motion,
    next: MoveGrab,
    after: MoveGrabState,
    effects: Seq<MoveEffect>,
    i: int,
)
    requires
        grab.follows(Some(before), outputs, motion, next, Some(after), effects),
        output_under(outputs, motion.floor) == Some(i),
    ensures
        grab.previous == ManagedLayer::Tiling ==> after.location == motion.round,
        !motion.near.left && !motion.near.right ==> after.location.x == motion.round.x,
        !motion.near.top && !motion.near.bottom ==> after.location.y == motion.round.y,
        grab.previous != ManagedLayer::Tiling ==> {
            let edge = outputs[i].geometry;
            let offset = before.window_offset;
            let size = motion.window_geometry.size;
            &&& motion.near.left && fits(edge.loc.x - offset.x) ==> after.location.x + offset.x
                == edge.loc.x
            &&& motion.near.right && !motion.near.left && fits(
                edge.loc.x + edge.size.w - offset.x - size.w,
            ) ==> after.location.x + offset.x + size.w == edge.loc.x + edge.size.w
            &&& motion.near.top && fits(edge.loc.y - offset.y) ==> after.location.y + offset.y
                == edge.loc.y
            &&& motion.near.bottom && !motion.near.top && fits(
                edge.loc.y + edge.size.h - offset.y - size.h,
            ) ==> after.location.y + offset.y + size.h == edge.loc.y + edge.size.h
            // Where no pointer could hold it there, the pointer stops at the last pixel there is.
            &&& motion.near.left ==> after.location.x == sat(edge.loc.x - offset.x)
            &&& motion.near.top ==> after.location.y == sat(edge.loc.y - offset.y)
            &&& motion.near.right && !motion.near.left ==> after.location.x == sat(
                edge.loc.x + edge.size.w - offset.x - size.w,
            )
            &&& motion.near.bottom && !motion.near.top ==> after.location.y == sat(
                edge.loc.y + edge.size.h - offset.y - size.h,
            )
        },
{
}

/// Two motions of the same window that are near no edge move it by as much as the pointer moved.
pub proof fn law_a_window_moves_with_the_pointer(
    grab: MoveGrab,
    before: MoveGrabState,
    outputs: Seq<OutputInfo>,
    first: Motion,
    second: Motion,
    grab1: MoveGrab,
    state1: MoveGrabState,
    effects1: Seq<MoveEffect>,
    grab2: MoveGrab,
    state2: MoveGrabState,
    effects2: Seq<MoveEffect>,
)
    requires
        grab.follows(Some(before), outputs, first, grab1, Some(state1), effects1),
        grab1.follows(Some(state1), outputs, second, grab2, Some(state2), effects2),
        output_under(outputs, first.floor) is Some,
        output_under(outputs, second.floor) is Some,
        !first.near.left && !first.near.right && !first.near.top && !first.near.bottom,
        !second.near.left && !second.near.right && !second.near.top && !second.near.bottom,
    ensures
        state2.location.x - state1.location.x == second.round.x - first.round.x,
        state2.location.y - state1.location.y == second.round.y - first.round.y,
        state2.window_offset == state1.window_offset,
{
}

/// The strip is shown while the pointer is within eight pixels of the top of the work area, and
/// for as long as it is over a strip that was shown on the same output; only for windows that
/// were floating. A strip that stays is the same one.
pub proof fn law_when_the_strip_is_shown(
    grab: MoveGrab,
    before: MoveGrabState,
    outputs: Seq<OutputInfo>,
    motion: Motion,
    next: MoveGrab,
    after: MoveGrabState,
    effects: Seq<MoveEffect>,
    i: int,
)
    requires
        grab.follows(Some(before), outputs, motion, next, Some(after), effects),
        output_under(outputs, motion.floor) == Some(i),
        fits(motion.floor.x - outputs[i].geometry.loc.x),
        fits(motion.floor.y - outputs[i].geometry.loc.y),
    ensures
        ({
            let output = outputs[i];
            let local = Point {
                x: (motion.floor.x - output.geometry.loc.x) as i32,
                y: (motion.floor.y - output.geometry.loc.y) as i32,
            };
            let high = local.y - output.work_area.loc.y < 8;
            let here = grab.cursor_output == output.id;
            let floating = before.previous == ManagedLayer::Floating;
            &&& !floating ==> after.snap_strip is None && after.snap_pick is None
                && after.snapping_zone == before.snapping_zone
            &&& floating && high ==> after.snap_strip is Some
            &&& floating && !high && !here ==> after.snap_strip is None
            &&& floating && !high && before.snap_strip is None ==> after.snap_strip is None
            &&& floating && !high && here && before.snap_strip is Some ==> (after.snap_strip is Some
                <==> before.snap_strip.unwrap().bounds().covers(local))
            &&& here && before.snap_strip is Some && after.snap_strip is Some ==> after.snap_strip
                == before.snap_strip
            &&& after.snap_strip matches Some(strip) ==> strip.is_pick(local, after.snap_pick)
            &&& after.snap_strip is None ==> after.snap_pick is None
            &&& floating && after.snap_pick is Some ==> after.snapping_zone is None
            &&& floating && after.snap_pick is None ==> after.snapping_zone == zone_under(
                local,
                Rectangle { loc: Point { x: 0, y: 0 }, size: output.geometry.size },
            )
        }),
{
}

/// The stack hover is shown where a stack would take the window, and nowhere while a cell was
/// aimed at on the same output. One that stands is left as it is.
pub proof fn law_when_the_stack_hover_is_shown(
    grab: MoveGrab,
    before: MoveGrabState,
    outputs: Seq<OutputInfo>,
    motion: Motion,
    next: MoveGrab,
    after: MoveGrabState,
    effects: Seq<MoveEffect>,
    i: int,
)
    requires
        grab.follows(Some(before), outputs, motion, next, Some(after), effects),
        output_under(outputs, motion.floor) == Some(i),
    ensures
        ({
            let aimed = before.snap_pick is Some && grab.cursor_output == outputs[i].id;
            &&& aimed ==> after.stacking_indicator is None
            &&& !aimed ==> (after.stacking_indicator is Some <==> motion.stack is Some)
            &&& after.stacking_indicator is Some && before.stacking_indicator is Some
                ==> after.stacking_indicator == before.stacking_indicator
            &&& after.stacking_indicator is Some && before.stacking_indicator is None
                ==> after.stacking_indicator == motion.stack
        }),
{
}

/// What somebody who carries out the effects of a move has on the screen.
pub struct Screen {
    /// The outputs that the window is on.
    pub outputs: Set<u64>,
    /// The stack hover.
    pub hover: Option<Rectangle>,
    /// The strip.
    pub strip: bool,
    /// The cell of the strip that is hovered.
    pub hovered: Option<(usize, usize)>,
}

/// The screen after an effect has been carried out.
pub open spec fn carried_out(screen: Screen, effect: MoveEffect) -> Screen {
    match effect {
        MoveEffect::CleanupTilingDrag { .. } => screen,
        MoveEffect::Enter { output, .. } => Screen {
            outputs: screen.outputs.insert(output),
            ..screen
        },
        MoveEffect::Leave { output, .. } => Screen {
            outputs: screen.outputs.remove(output),
            ..screen
        },
        MoveEffect::ShowStackHover { geometry } => Screen { hover: Some(geometry), ..screen },
        MoveEffect::HideStackHover => Screen { hover: None, ..screen },
        MoveEffect::ShowStrip => Screen { strip: true, hovered: None, ..screen },
        MoveEffect::HideStrip => Screen { strip: false, hovered: None, ..screen },
        MoveEffect::TellStrip { message: Message::Hover(hovered) } => Screen { hovered, ..screen },
    }
}

/// The screen after all effects have been carried out, in order.
pub open spec fn all_carried_out(screen: Screen, effects: Seq<MoveEffect>) -> Screen
    decreases effects.len(),
{
    if effects.len() == 0 {
        screen
    } else {
        carried_out(all_carried_out(screen, effects.drop_last()), effects.last())
    }
}

/// What the screen has to show of a move.
pub open spec fn due_on_screen(outputs: Set<u64>, state: MoveGrabState) -> Screen {
    Screen {
        outputs,
        hover: state.stacking_indicator,
        strip: state.snap_strip is Some,
        hovered: match state.snap_strip {
            Some(strip) => strip.program().accented(),
            None => None,
        },
    }
}

proof fn lemma_carried_out_in_turn(screen: Screen, a: Seq<MoveEffect>, b: Seq<MoveEffect>)
    ensures
        all_carried_out(screen, a + b) == all_carried_out(all_carried_out(screen, a), b),
    decreases b.len(),
{
    if b.len() == 0 {
        assert(a + b =~= a);
    } else {
        lemma_carried_out_in_turn(screen, a, b.drop_last());
        assert((a + b).drop_last() =~= a + b.drop_last());
        assert((a + b).last() == b.last());
    }
}

proof fn lemma_carried_out_once(screen: Screen, effect: MoveEffect)
    ensures
        all_carried_out(screen, seq![effect]) == carried_out(screen, effect),
        all_carried_out(screen, seq![]) == screen,
{
    assert(seq![effect].drop_last() =~= Seq::<MoveEffect>::empty());
    reveal_with_fuel(all_carried_out, 2);
}

proof fn lemma_crossings_carried_out(
    screen: Screen,
    outputs: Seq<OutputInfo>,
    window: Rectangle,
    on: Set<u64>,
    indicator: bool,
    strip: bool,
    n: int,
)
    requires
        0 <= n <= outputs.len(),
        screen.outputs == on,
    ensures
        all_carried_out(screen, crossings(outputs, window, on, indicator, strip, n)) == (Screen {
            outputs: outputs_after(outputs, window, on, n),
            ..screen
        }),
    decreases n,
{
    if n > 0 {
        lemma_crossings_carried_out(screen, outputs, window, on, indicator, strip, n - 1);
        let before = crossings(outputs, window, on, indicator, strip, n - 1);
        let told = crossings(outputs, window, on, indicator, strip, n);
        let was = outputs_after(outputs, window, on, n - 1);
        let id = outputs[n - 1].id;
        if told.len() == before.len() {
            assert(told == before);
            assert(was.insert(id) =~= was || !was.contains(id));
            assert(was.remove(id) =~= was || was.contains(id));
        } else {
            assert(told.drop_last() =~= before);
        }
    }
}

/// The effects of a motion bring what is on the screen to what the move has to show: who carries
/// them out, in order, shows the window on the outputs it is on, the stack hover and the strip
/// where they belong, and the cell that is aimed at as hovered.
pub proof fn law_effects_keep_the_screen_in_step(
    grab: MoveGrab,
    before: MoveGrabState,
    outputs: Seq<OutputInfo>,
    motion: Motion,
    next: MoveGrab,
    after: MoveGrabState,
    effects: Seq<MoveEffect>,
    i: int,
)
    requires
        grab.follows(Some(before), outputs, motion, next, Some(after), effects),
        output_under(outputs, motion.floor) == Some(i),
        // A strip that is made anew has no cell hovered.
        before.snap_strip is None || grab.cursor_output != outputs[i].id ==> (
        after.snap_strip matches Some(strip) ==> strip.program().accented() is None),
    ensures
        all_carried_out(due_on_screen(grab.window_outputs@, before), effects) == (Screen {
            outputs: next.window_outputs@,
            hover: after.stacking_indicator,
            strip: after.snap_strip is Some,
            hovered: after.snap_pick,
        }),
{
    let output = outputs[i];
    let crossed = grab.cursor_output != output.id;
    let kept = before.kept_strip(crossed) is Some;
    let n = outputs.len() as int;
    let window = window_at(motion, before.window_offset);
    let on = grab.window_outputs@;
    let s0 = due_on_screen(on, before);
    let e0 = crossing_effect(grab.cursor_output, output.id);
    let e1 = hide_strip(crossed && before.snap_strip is Some);
    let e2 = crossings(outputs, window, on, before.stacking_indicator is Some, kept, n);
    let e3 = stack_effect(before.stacking_indicator, before.offered_stack(crossed, motion.stack));
    let e4 = strip_effect(kept, after.snap_strip is Some);
    let e5 = tell_effect(after.snap_strip, after.snap_pick);
    assert(effects == e0 + (e1 + e2 + e3 + e4 + e5));
    lemma_carried_out_in_turn(s0, e0, e1 + e2 + e3 + e4 + e5);
    lemma_carried_out_once(
        s0,
        MoveEffect::CleanupTilingDrag { output: grab.cursor_output, dragging_on: output.id },
    );
    assert(all_carried_out(s0, e0) == s0);
    lemma_carried_out_in_turn(s0, e1 + e2 + e3 + e4, e5);
    lemma_carried_out_in_turn(s0, e1 + e2 + e3, e4);
    lemma_carried_out_in_turn(s0, e1 + e2, e3);
    lemma_carried_out_in_turn(s0, e1, e2);
    lemma_carried_out_once(s0, MoveEffect::HideStrip);
    let s1 = all_carried_out(s0, e1);
    lemma_crossings_carried_out(
        s1,
        outputs,
        window,
        on,
        before.stacking_indicator is Some,
        kept,
        n,
    );
    let s2 = all_carried_out(s1, e2);
    if motion.stack is Some {
        lemma_carried_out_once(
            s2,
            MoveEffect::ShowStackHover { geometry: motion.stack.unwrap() },
        );
    }
    lemma_carried_out_once(s2, MoveEffect::HideStackHover);
    let s3 = all_carried_out(s2, e3);
    lemma_carried_out_once(s3, MoveEffect::ShowStrip);
    lemma_carried_out_once(s3, MoveEffect::HideStrip);
    let s4 = all_carried_out(s3, e4);
    lemma_carried_out_once(s4, MoveEffect::TellStrip { message: Message::Hover(after.snap_pick) });
}

/// A motion tells no more than what changes: one effect if the output under the pointer changes,
/// one for each output that the window comes onto or leaves, and one for each of the stack hover,
/// the strip and the hovered cell if it changes; a strip that does not cross with the pointer goes
/// away in any case.
pub proof fn law_a_motion_tells_no_more_than_what_changes(
    grab: MoveGrab,
    before: MoveGrabState,
    outputs: Seq<OutputInfo>,
    motion: Motion,
    next: MoveGrab,
    after: MoveGrabState,
    effects: Seq<MoveEffect>,
    i: int,
)
    requires
        grab.follows(Some(before), outputs, motion, next, Some(after), effects),
        output_under(outputs, motion.floor) == Some(i),
    ensures
        ({
            let crossed = grab.cursor_output != outputs[i].id;
            let kept = before.snap_strip is Some && !crossed;
            let told = crossings(
                outputs,
                window_at(motion, before.window_offset),
                grab.window_outputs@,
                before.stacking_indicator is Some,
                kept,
                outputs.len() as int,
            );
            let one = |b: bool|
                if b {
                    1int
                } else {
                    0int
                };
            let hover = (before.stacking_indicator is Some) != (after.stacking_indicator is Some);
            let tell = after.snap_strip matches Some(strip) && strip.program().accented()
                != after.snap_pick;
            &&& effects.len() == one(crossed) + one(crossed && before.snap_strip is Some)
                + told.len() + one(hover) + one(kept != (after.snap_strip is Some)) + one(tell)
            &&& crossed ==> effects[0] == (MoveEffect::CleanupTilingDrag {
                output: grab.cursor_output,
                dragging_on: outputs[i].id,
            })
            &&& !crossed ==> forall|a: int|
                #![trigger effects[a]]
                0 <= a < effects.len() ==> !(effects[a] is CleanupTilingDrag)
        }),
{
    let crossed = grab.cursor_output != outputs[i].id;
    let told = crossings(
        outputs,
        window_at(motion, before.window_offset),
        grab.window_outputs@,
        before.stacking_indicator is Some,
        before.kept_strip(crossed) is Some,
        outputs.len() as int,
    );
    lemma_crossings_are_told_in_full(
        outputs,
        window_at(motion, before.window_offset),
        grab.window_outputs@,
        before.stacking_indicator is Some,
        before.kept_strip(crossed) is Some,
        outputs.len() as int,
    );
    if !crossed {
        assert forall|a: int| #![trigger effects[a]] 0 <= a < effects.len() implies !(
        effects[a] is CleanupTilingDrag) by {
            if a < told.len() {
                assert(effects[a] == told[a]);
            }
        }
    }
}

/// Every crossing tells the part of the window that is on the output, and whether the stack hover
/// and the strip go along.
pub open spec fn told_in_full(
    effect: MoveEffect,
    outputs: Seq<OutputInfo>,
    window: Rectangle,
    indicator: bool,
    strip: bool,
) -> bool {
    match effect {
        MoveEffect::Enter { output, overlap, indicator: i, strip: s } => {
            &&& i == indicator
            &&& s == strip
            &&& exists|k: int|
                0 <= k < outputs.len() && (#[trigger] outputs[k]).id == output
                    && outputs[k].geometry.common_area(window) == Some(overlap)
        },
        MoveEffect::Leave { output, indicator: i, strip: s } => {
            &&& i == indicator
            &&& s == strip
            &&& exists|k: int|
                0 <= k < outputs.len() && (#[trigger] outputs[k]).id == output
                    && outputs[k].geometry.common_area(window) is None
        },
        _ => false,
    }
}

proof fn lemma_crossings_are_told_in_full(
    outputs: Seq<OutputInfo>,
    window: Rectangle,
    on: Set<u64>,
    indicator: bool,
    strip: bool,
    n: int,
)
    requires
        0 <= n <= outputs.len(),
    ensures
        forall|a: int|
            #![trigger crossings(outputs, window, on, indicator, strip, n)[a]]
            0 <= a < crossings(outputs, window, on, indicator, strip, n).len() ==> told_in_full(
                crossings(outputs, window, on, indicator, strip, n)[a],
                outputs,
                window,
                indicator,
                strip,
            ),
    decreases n,
{
    if n > 0 {
        lemma_crossings_are_told_in_full(outputs, window, on, indicator, strip, n - 1);
        let before = crossings(outputs, window, on, indicator, strip, n - 1);
        let told = crossings(outputs, window, on, indicator, strip, n);
        assert forall|a: int| #![trigger told[a]] 0 <= a < told.len() implies told_in_full(
            told[a],
            outputs,
            window,
            indicator,
            strip,
        ) by {
            if a < before.len() {
                assert(told[a] == before[a]);
            } else {
                assert(outputs[n - 1].id == outputs[n - 1].id);
            }
        }
    }
}

/// Whatever crossing a motion tells of is told in full: with the part of the window that is on the
/// output, with the stack hover if one was shown, and with the strip if one was shown on the same
/// output.
pub proof fn law_crossings_are_told_in_full(
    grab: MoveGrab,
    before: MoveGrabState,
    outputs: Seq<OutputInfo>,
    motion: Motion,
    next: MoveGrab,
    after: MoveGrabState,
    effects: Seq<MoveEffect>,
    i: int,
    a: int,
)
    requires
        grab.follows(Some(before), outputs, motion, next, Some(after), effects),
        output_under(outputs, motion.floor) == Some(i),
        0 <= a < effects.len(),
        effects[a] is Enter || effects[a] is Leave,
    ensures
        ({
            let offset = before.window_offset;
            let loc = motion.window_geometry.loc;
            let window = Rectangle {
                loc: Point {
                    x: (loc.x + motion.round.x + offset.x) as i32,
                    y: (loc.y + motion.round.y + offset.y) as i32,
                },
                size: motion.window_geometry.size,
            };
            fits(motion.round.x + offset.x) && fits(motion.round.y + offset.y) && fits(
                loc.x + motion.round.x + offset.x,
            ) && fits(loc.y + motion.round.y + offset.y) ==> told_in_full(
                effects[a],
                outputs,
                window,
                before.stacking_indicator is Some,
                before.snap_strip is Some && grab.cursor_output == outputs[i].id,
            )
        }),
{
    let crossed = grab.cursor_output != outputs[i].id;
    let window = window_at(motion, before.window_offset);
    let kept = before.kept_strip(crossed) is Some;
    let n = outputs.len() as int;
    let e0 = crossing_effect(grab.cursor_output, outputs[i].id);
    let e1 = hide_strip(crossed && before.snap_strip is Some);
    let e2 = crossings(
        outputs,
        window,
        grab.window_outputs@,
        before.stacking_indicator is Some,
        kept,
        n,
    );
    lemma_crossings_are_told_in_full(
        outputs,
        window,
        grab.window_outputs@,
        before.stacking_indicator is Some,
        kept,
        n,
    );
    let at = a - e0.len() - e1.len();
    assert(0 <= at < e2.len() && effects[a] == e2[at]);
}

/// After a motion the window is on an output exactly if a pixel of it is.
pub proof fn law_a_window_is_on_the_outputs_it_reaches(
    grab: MoveGrab,
    before: MoveGrabState,
    outputs: Seq<OutputInfo>,
    motion: Motion,
    next: MoveGrab,
    after: MoveGrabState,
    effects: Seq<MoveEffect>,
    k: int,
)
    requires
        grab.follows(Some(before), outputs, motion, next, Some(after), effects),
        output_under(outputs, motion.floor) is Some,
        distinct(outputs),
        bounded(outputs),
        0 <= k < outputs.len(),
        motion.window_geometry.valid(),
        fits(motion.round.x + before.window_offset.x),
        fits(motion.round.y + before.window_offset.y),
        fits(motion.window_geometry.loc.x + motion.round.x + before.window_offset.x),
        fits(motion.window_geometry.loc.y + motion.round.y + before.window_offset.y),
        fits(
            motion.window_geometry.loc.x + motion.round.x + before.window_offset.x
                + motion.window_geometry.size.w,
        ),
        fits(
            motion.window_geometry.loc.y + motion.round.y + before.window_offset.y
                + motion.window_geometry.size.h,
        ),
    ensures
        ({
            let x = motion.window_geometry.loc.x + motion.round.x + before.window_offset.x;
            let y = motion.window_geometry.loc.y + motion.round.y + before.window_offset.y;
            let (w, h) = (motion.window_geometry.size.w, motion.window_geometry.size.h);
            let r = outputs[k].geometry;
            next.window_outputs@.contains(outputs[k].id) <==> r.loc.x < x + w && x < r.loc.x
                + r.size.w && r.loc.y < y + h && y < r.loc.y + r.size.h
        }),
{
    law_window_is_on_what_it_overlaps(
        outputs,
        window_at(motion, before.window_offset),
        grab.window_outputs@,
    );
    assert(outputs[k].geometry.valid());
}

} // verus!
