//! What holds of every move.

use crate::geometry::{fits, Point, Rectangle};
use crate::grabs::ManagedLayer;
use crate::moving::{
    crossings, held_at, local_position, outputs_after, window_at, Motion, MoveEffect,
    MoveGrabState, OutputInfo,
};
use crate::snap_strip::SnapStrip;
use crate::zones::zone_under;
use vstd::prelude::*;

verus! {

/// No two outputs have the same id.
pub open spec fn distinct(outputs: Seq<OutputInfo>) -> bool {
    forall|i: int, j: int|
        #![trigger outputs[i], outputs[j]]
        0 <= i < j < outputs.len() ==> outputs[i].id != outputs[j].id
}

/// A consistent state stays consistent, however the pointer moves.
pub proof fn law_motion_keeps_the_state_consistent(
    before: MoveGrabState,
    after: MoveGrabState,
    layer: ManagedLayer,
    crossed: bool,
    motion: Motion,
    output: OutputInfo,
)
    requires
        before.consistent(),
        before.becomes(after, layer, crossed, motion, output),
    ensures
        after.consistent(),
{
}

/// A strip stays for as long as the pointer is over it, so that it can be aimed at.
pub proof fn law_strip_can_be_aimed_at(
    before: MoveGrabState,
    after: MoveGrabState,
    strip: SnapStrip,
    motion: Motion,
    output: OutputInfo,
)
    requires
        before.previous == ManagedLayer::Floating,
        before.snap_strip == Some(strip),
        strip.bounds().covers(local_position(motion, output)),
        before.becomes(after, before.previous, false, motion, output),
    ensures
        after.snap_strip == Some(strip),
{
}

/// Once the strip is gone, the zones alone decide.
pub proof fn law_zones_decide_without_a_strip(
    before: MoveGrabState,
    after: MoveGrabState,
    crossed: bool,
    motion: Motion,
    output: OutputInfo,
)
    requires
        before.previous == ManagedLayer::Floating,
        before.becomes(after, before.previous, crossed, motion, output),
        after.snap_strip is None,
    ensures
        after.snap_pick is None,
        after.snapping_zone == zone_under(
            local_position(motion, output),
            output.own_geometry(),
        ),
{
}

/// While a cell is aimed at, the next motion promises no merge with a stack.
pub proof fn law_aimed_cell_keeps_stacks_away(
    before: MoveGrabState,
    after: MoveGrabState,
    layer: ManagedLayer,
    motion: Motion,
    output: OutputInfo,
)
    requires
        before.snap_pick is Some,
        before.becomes(after, layer, false, motion, output),
    ensures
        after.stacking_indicator is None,
{
}

/// A window near an edge of the output sits exactly at that edge, the left and the top one
/// before the opposite ones.
pub proof fn law_snapped_window_sits_at_the_edge(
    previous: ManagedLayer,
    motion: Motion,
    output: Rectangle,
    offset: Point,
)
    requires
        previous != ManagedLayer::Tiling,
        fits(output.loc.x - offset.x),
        fits(output.loc.y - offset.y),
        fits(output.loc.x + output.size.w - offset.x - motion.window_geometry.size.w),
        fits(output.loc.y + output.size.h - offset.y - motion.window_geometry.size.h),
    ensures
        ({
            let held = held_at(previous, motion, output, offset);
            let size = motion.window_geometry.size;
            &&& motion.near.left ==> held.x + offset.x == output.loc.x
            &&& motion.near.right && !motion.near.left ==> held.x + offset.x + size.w
                == output.loc.x + output.size.w
            &&& motion.near.top ==> held.y + offset.y == output.loc.y
            &&& motion.near.bottom && !motion.near.top ==> held.y + offset.y + size.h
                == output.loc.y + output.size.h
        }),
{
}

/// After a motion the window is on exactly those of the outputs that it overlaps. Of outputs
/// that are not there nothing changes.
pub proof fn law_window_is_on_what_it_overlaps(
    outputs: Seq<OutputInfo>,
    window: Rectangle,
    on: Set<u64>,
)
    requires
        distinct(outputs),
    ensures
        forall|i: int|
            #![trigger outputs[i]]
            0 <= i < outputs.len() ==> (outputs_after(
                outputs,
                window,
                on,
                outputs.len() as int,
            ).contains(outputs[i].id) <==> outputs[i].geometry.meets(window)),
        forall|id: u64|
            (forall|i: int| #![trigger outputs[i]] 0 <= i < outputs.len() ==> outputs[i].id != id)
                ==> (#[trigger] outputs_after(outputs, window, on, outputs.len() as int).contains(id)
                <==> on.contains(id)),
{
    let n = outputs.len() as int;
    assert forall|i: int| #![trigger outputs[i]] 0 <= i < outputs.len() implies (outputs_after(
        outputs,
        window,
        on,
        n,
    ).contains(outputs[i].id) <==> outputs[i].geometry.meets(window)) by {
        lemma_later_outputs_do_not_matter(outputs, window, on, i + 1, n, outputs[i].id);
    }
    assert forall|id: u64|
        (forall|i: int|
            #![trigger outputs[i]]
            0 <= i < outputs.len() ==> outputs[i].id != id) implies (#[trigger] outputs_after(
        outputs,
        window,
        on,
        n,
    ).contains(id) <==> on.contains(id)) by {
        lemma_later_outputs_do_not_matter(outputs, window, on, 0, n, id);
    }
}

/// Looking at outputs that do not have the id `id` does not change whether the window is on it.
proof fn lemma_later_outputs_do_not_matter(
    outputs: Seq<OutputInfo>,
    window: Rectangle,
    on: Set<u64>,
    from: int,
    n: int,
    id: u64,
)
    requires
        0 <= from <= n <= outputs.len(),
        forall|k: int| #![trigger outputs[k]] from <= k < n ==> outputs[k].id != id,
    ensures
        outputs_after(outputs, window, on, n).contains(id) == outputs_after(
            outputs,
            window,
            on,
            from,
        ).contains(id),
    decreases n - from,
{
    if from < n {
        assert(outputs[n - 1].id != id);
        lemma_later_outputs_do_not_matter(outputs, window, on, from, n - 1, id);
    }
}

/// Every change of the outputs the window is on is reported once, and nothing else is: an output
/// is entered exactly if the window was not on it and is now, and left exactly if it was and is
/// not.
pub proof fn law_crossings_tell_what_changed(
    outputs: Seq<OutputInfo>,
    window: Rectangle,
    on: Set<u64>,
    indicator: bool,
    strip: bool,
    i: int,
)
    requires
        distinct(outputs),
        0 <= i < outputs.len(),
    ensures
        ({
            let id = outputs[i].id;
            let after = outputs_after(outputs, window, on, outputs.len() as int);
            let told = crossings(outputs, window, on, indicator, strip, outputs.len() as int);
            &&& enters(told, id) <==> !on.contains(id) && after.contains(id)
            &&& leaves(told, id) <==> on.contains(id) && !after.contains(id)
            &&& told_once(told)
        }),
{
    let id = outputs[i].id;
    let n = outputs.len() as int;
    assert forall|k: int| #![trigger outputs[k]] 0 <= k < i implies outputs[k].id != id by {
        assert(outputs[k].id != outputs[i].id);
    }
    lemma_later_outputs_do_not_matter(outputs, window, on, i + 1, n, id);
    lemma_later_outputs_do_not_matter(outputs, window, on, 0, i, id);
    lemma_told_of(outputs, window, on, indicator, strip, 0, i, id);
    lemma_told_of(outputs, window, on, indicator, strip, i + 1, n, id);
    let before = crossings(outputs, window, on, indicator, strip, i);
    let told = crossings(outputs, window, on, indicator, strip, i + 1);
    assert(before =~= told || before =~= told.drop_last());
    lemma_one_more(before, told, id);
    lemma_told_once(outputs, window, on, indicator, strip, n);
}

/// The output that the window comes onto or leaves.
pub open spec fn crossed_output(effect: MoveEffect) -> Option<u64> {
    match effect {
        MoveEffect::Enter { output, .. } => Some(output),
        MoveEffect::Leave { output, .. } => Some(output),
        _ => None,
    }
}

/// Every effect is about an output that the window comes onto or leaves, and no two are about the
/// same one.
pub open spec fn told_once(effects: Seq<MoveEffect>) -> bool {
    &&& forall|a: int|
        #![trigger effects[a]]
        0 <= a < effects.len() ==> crossed_output(effects[a]) is Some
    &&& forall|a: int, b: int|
        #![trigger effects[a], effects[b]]
        0 <= a < b < effects.len() ==> crossed_output(effects[a]) != crossed_output(effects[b])
}

/// What is told of the first `n` outputs is told once, and of these outputs only.
proof fn lemma_told_once(
    outputs: Seq<OutputInfo>,
    window: Rectangle,
    on: Set<u64>,
    indicator: bool,
    strip: bool,
    n: int,
)
    requires
        distinct(outputs),
        0 <= n <= outputs.len(),
    ensures
        told_once(crossings(outputs, window, on, indicator, strip, n)),
        forall|a: int|
            #![trigger crossings(outputs, window, on, indicator, strip, n)[a]]
            0 <= a < crossings(outputs, window, on, indicator, strip, n).len() ==> exists|k: int|
                0 <= k < n && crossed_output(
                    crossings(outputs, window, on, indicator, strip, n)[a],
                ) == Some((#[trigger] outputs[k]).id),
    decreases n,
{
    if n > 0 {
        lemma_told_once(outputs, window, on, indicator, strip, n - 1);
        let before = crossings(outputs, window, on, indicator, strip, n - 1);
        let told = crossings(outputs, window, on, indicator, strip, n);
        assert forall|a: int| #![trigger told[a]] 0 <= a < told.len() implies exists|k: int|
            0 <= k < n && crossed_output(told[a]) == Some((#[trigger] outputs[k]).id) by {
            if a < before.len() {
                assert(told[a] == before[a]);
                let k = choose|k: int|
                    0 <= k < n - 1 && crossed_output(before[a]) == Some((#[trigger] outputs[k]).id);
                assert(crossed_output(told[a]) == Some(outputs[k].id));
            } else {
                assert(crossed_output(told[a]) == Some(outputs[n - 1].id));
            }
        }
        assert forall|a: int, b: int|
            #![trigger told[a], told[b]]
            0 <= a < b < told.len() implies crossed_output(told[a]) != crossed_output(told[b]) by {
            assert(told[a] == before[a]);
            if b < before.len() {
                assert(told[b] == before[b]);
            } else {
                let k = choose|k: int|
                    0 <= k < n - 1 && crossed_output(before[a]) == Some((#[trigger] outputs[k]).id);
                assert(outputs[k].id != outputs[n - 1].id);
            }
        }
        assert forall|a: int| #![trigger told[a]] 0 <= a < told.len() implies crossed_output(
            told[a],
        ) is Some by {
            if a < before.len() {
                assert(told[a] == before[a]);
            }
        }
    }
}

/// The window comes onto the output `id`.
pub open spec fn enters(effects: Seq<MoveEffect>, id: u64) -> bool {
    exists|k: int|
        #![trigger effects[k]]
        0 <= k < effects.len() && (effects[k] matches MoveEffect::Enter { output, .. } && output
            == id)
}

/// The window leaves the output `id`.
pub open spec fn leaves(effects: Seq<MoveEffect>, id: u64) -> bool {
    exists|k: int|
        #![trigger effects[k]]
        0 <= k < effects.len() && (effects[k] matches MoveEffect::Leave { output, .. } && output
            == id)
}

/// One more effect is told of, or none.
proof fn lemma_one_more(before: Seq<MoveEffect>, told: Seq<MoveEffect>, id: u64)
    requires
        before == told || (told.len() > 0 && before == told.drop_last()),
    ensures
        before != told ==> (enters(told, id) <==> enters(before, id) || (
        told.last() matches MoveEffect::Enter { output, .. } && output == id)),
        before != told ==> (leaves(told, id) <==> leaves(before, id) || (
        told.last() matches MoveEffect::Leave { output, .. } && output == id)),
{
    if before != told {
        assert forall|k: int| #![trigger told[k]] 0 <= k < before.len() implies told[k]
            == before[k] by {}
        if enters(before, id) {
            let k = choose|k: int|
                #![trigger before[k]]
                0 <= k < before.len() && (before[k] matches MoveEffect::Enter { output, .. }
                    && output == id);
            assert(told[k] == before[k]);
        }
        if leaves(before, id) {
            let k = choose|k: int|
                #![trigger before[k]]
                0 <= k < before.len() && (before[k] matches MoveEffect::Leave { output, .. }
                    && output == id);
            assert(told[k] == before[k]);
        }
        assert(told.last() == told[told.len() - 1]);
    }
}

/// Looking at outputs that do not have the id `id` tells nothing of it.
proof fn lemma_told_of(
    outputs: Seq<OutputInfo>,
    window: Rectangle,
    on: Set<u64>,
    indicator: bool,
    strip: bool,
    from: int,
    n: int,
    id: u64,
)
    requires
        0 <= from <= n <= outputs.len(),
        forall|k: int| #![trigger outputs[k]] from <= k < n ==> outputs[k].id != id,
    ensures
        enters(crossings(outputs, window, on, indicator, strip, n), id) == enters(
            crossings(outputs, window, on, indicator, strip, from),
            id,
        ),
        leaves(crossings(outputs, window, on, indicator, strip, n), id) == leaves(
            crossings(outputs, window, on, indicator, strip, from),
            id,
        ),
    decreases n - from,
{
    if from < n {
        assert(outputs[n - 1].id != id);
        lemma_told_of(outputs, window, on, indicator, strip, from, n - 1, id);
        let before = crossings(outputs, window, on, indicator, strip, n - 1);
        let told = crossings(outputs, window, on, indicator, strip, n);
        assert(before =~= told || before =~= told.drop_last());
        lemma_one_more(before, told, id);
    }
}

/// The window follows the pointer: from the pointer to its corner it is always as far as when the
/// move began.
pub proof fn law_window_follows_the_pointer(motion: Motion, offset: Point)
    requires
        fits(motion.round.x + offset.x),
        fits(motion.round.y + offset.y),
        fits(motion.window_geometry.loc.x + motion.round.x + offset.x),
        fits(motion.window_geometry.loc.y + motion.round.y + offset.y),
    ensures
        window_at(motion, offset).loc.x - motion.window_geometry.loc.x - motion.round.x
            == offset.x,
        window_at(motion, offset).loc.y - motion.window_geometry.loc.y - motion.round.y
            == offset.y,
        window_at(motion, offset).size == motion.window_geometry.size,
{
}

} // verus!
