//! Which workspaces hold what a tiling drag leaves behind.

use std::collections::HashMap;
use vstd::prelude::*;

verus! {

/// The workspaces of the session, by handle.
#[derive(Debug)]
pub struct Workspaces {
    /// The active workspace of each output that still has one.
    pub active: HashMap<u64, u64>,
    /// Every workspace of every output.
    pub spaces: Vec<u64>,
}

impl Workspaces {
    /// The active workspace of `output`, if it still has one.
    pub open spec fn active_on(self, output: u64) -> Option<u64> {
        if self.active@.contains_key(output) {
            Some(self.active@[output])
        } else {
            None
        }
    }

    /// The active workspace of `output`, `None` once the output is gone.
    pub fn active_space(&self, output: u64) -> (r: Option<u64>)
        ensures
            r == self.active_on(output),
    {
        match self.active.get(&output) {
            Some(workspace) => Some(*workspace),
            None => None,
        }
    }
}

/// The workspace to spare while the drag goes on with `dragging_on`.
pub open spec fn spared(workspaces: Workspaces, dragging_on: Option<u64>) -> Option<u64> {
    match dragging_on {
        Some(output) => workspaces.active_on(output),
        None => None,
    }
}

/// The workspaces to clean of a tiling drag that ran on `output` and goes on with `dragging_on`:
/// the active one of the output, or all but the spared one if the output is gone.
pub open spec fn cleaned(workspaces: Workspaces, output: u64, dragging_on: Option<u64>) -> Seq<
    u64,
> {
    match workspaces.active_on(output) {
        Some(workspace) => seq![workspace],
        None => workspaces.spaces@.filter(|w: u64| Some(w) != spared(workspaces, dragging_on)),
    }
}

/// Which workspaces to clean of the placeholder and the indicator of a tiling drag.
#[derive(Debug)]
pub struct TilingCleanup {
    pub workspaces: Vec<u64>,
    /// The output the drag ran on is gone and the placeholder had to be looked for.
    pub swept: bool,
}

/// What to clean up of a tiling drag that ran on `output`.
///
/// As long as the output is there the placeholder is in its active workspace. An output that
/// is gone has handed its workspaces on, so that all of them have to be swept; the workspace
/// the drag goes on with is spared, because nothing would put its placeholder back.
pub fn cleanup_tiling_drag(workspaces: &Workspaces, output: u64, dragging_on: Option<u64>) -> (r:
    TilingCleanup)
    ensures
        r.swept == (workspaces.active_on(output) is None),
        r.workspaces@ == cleaned(*workspaces, output, dragging_on),
{
    match workspaces.active_space(output) {
        Some(workspace) => TilingCleanup { workspaces: vec![workspace], swept: false },
        None => {
            let keep: Option<u64> = match dragging_on {
                Some(dragging_on) => workspaces.active_space(dragging_on),
                None => None,
            };
            let ghost pred = |w: u64| Some(w) != spared(*workspaces, dragging_on);
            let mut sweep: Vec<u64> = Vec::new();
            let mut i: usize = 0;
            assert(sweep@ =~= workspaces.spaces@.take(0).filter(pred)) by {
                reveal(Seq::filter);
            }
            while i < workspaces.spaces.len()
                invariant
                    i <= workspaces.spaces.len(),
                    keep == spared(*workspaces, dragging_on),
                    pred == (|w: u64| Some(w) != spared(*workspaces, dragging_on)),
                    sweep@ == workspaces.spaces@.take(i as int).filter(pred),
                decreases workspaces.spaces.len() - i,
            {
                let handle: u64 = workspaces.spaces[i];
                let kept = match keep {
                    Some(keep) => keep == handle,
                    None => false,
                };
                proof {
                    reveal(Seq::filter);
                    assert(workspaces.spaces@.take(i + 1).drop_last() =~= workspaces.spaces@.take(
                        i as int,
                    ));
                    assert(kept == !pred(handle));
                }
                if !kept {
                    sweep.push(handle);
                }
                i = i + 1;
            }
            assert(workspaces.spaces@.take(i as int) =~= workspaces.spaces@);
            TilingCleanup { workspaces: sweep, swept: true }
        },
    }
}

/// While a drag goes on with an output, the workspace it goes on in is left alone if the output
/// it came from is gone.
pub proof fn law_sweep_spares_the_drag(
    workspaces: Workspaces,
    output: u64,
    dragging_on: u64,
    handle: u64,
)
    requires
        workspaces.active_on(output) is None,
        workspaces.active_on(dragging_on) == Some(handle),
    ensures
        !cleaned(workspaces, output, Some(dragging_on)).contains(handle),
{
    broadcast use vstd::seq_lib::group_filter_ensures;

}

/// Once a drag whose output is gone is over, no workspace is left out of the sweep.
pub proof fn law_final_sweep_is_complete(workspaces: Workspaces, output: u64)
    requires
        workspaces.active_on(output) is None,
    ensures
        cleaned(workspaces, output, None) == workspaces.spaces@,
{
    lemma_filter_all(workspaces.spaces@, |w: u64| Some(w) != spared(workspaces, None));
}

proof fn lemma_filter_all(s: Seq<u64>, pred: spec_fn(u64) -> bool)
    requires
        forall|w: u64| #[trigger] pred(w),
    ensures
        s.filter(pred) == s,
    decreases s.len(),
{
    reveal(Seq::filter);
    if s.len() > 0 {
        lemma_filter_all(s.drop_last(), pred);
        assert(s.drop_last().push(s.last()) =~= s);
    }
}

/// Where the output of a drag is there, its active workspace is cleaned and nothing else; where it
/// is gone, every workspace is that is not spared, and only the active workspace of the
/// output that the drag goes on with is spared.
pub proof fn law_cleanup_goes_where_the_placeholder_is(
    workspaces: Workspaces,
    output: u64,
    dragging_on: Option<u64>,
    w: u64,
)
    ensures
        workspaces.active@.contains_key(output) ==> cleaned(workspaces, output, dragging_on)
            == seq![workspaces.active@[output]],
        !workspaces.active@.contains_key(output) ==> (cleaned(
            workspaces,
            output,
            dragging_on,
        ).contains(w) <==> workspaces.spaces@.contains(w) && !(dragging_on matches Some(on)
            && workspaces.active@.contains_key(on) && workspaces.active@[on] == w)),
{
    lemma_filter_members(
        workspaces.spaces@,
        |v: u64| Some(v) != spared(workspaces, dragging_on),
        w,
    );
}

proof fn lemma_filter_members(s: Seq<u64>, pred: spec_fn(u64) -> bool, w: u64)
    ensures
        s.filter(pred).contains(w) <==> s.contains(w) && pred(w),
    decreases s.len(),
{
    broadcast use vstd::seq_lib::group_seq_properties;

    reveal(Seq::filter);
    if s.len() > 0 {
        lemma_filter_members(s.drop_last(), pred, w);
        assert(s =~= s.drop_last().push(s.last()));
        assert(s.contains(w) <==> s.drop_last().contains(w) || s.last() == w);
    }
}

} // verus!
