//! Whether a drag has been asked for and not begun yet.
//!
//! A drag that a client asks for starts delayed: the move grab is installed only once the
//! pointer has moved, from an idle callback. This marker covers the time until then.
//!
//! It counts rather than flags. A second request can arrive while the grab of the first is
//! still installed, and the old grab is dropped after the new one has marked itself: a flag
//! would be cleared by its predecessor. The floor at zero absorbs the second end of a grab that
//! is promoted and then dropped.

use vstd::prelude::*;

verus! {

/// The drags of a seat that are pending.
#[derive(Debug)]
pub struct SeatMovePendingState {
    count: usize,
}

/// One more drag; the counter wraps like the machine word it is.
pub open spec fn begun(n: usize) -> usize {
    if n == usize::MAX {
        0
    } else {
        (n + 1) as usize
    }
}

/// One drag less, but never below none.
pub open spec fn ended(n: usize) -> usize {
    if n == 0 {
        0
    } else {
        (n - 1) as usize
    }
}

/// Some drag is pending.
pub open spec fn is_pending(n: usize) -> bool {
    n > 0
}

impl View for SeatMovePendingState {
    type V = usize;

    closed spec fn view(&self) -> usize {
        self.count
    }
}

impl Default for SeatMovePendingState {
    fn default() -> (r: Self)
        ensures
            r@ == 0,
    {
        SeatMovePendingState { count: 0 }
    }
}

impl SeatMovePendingState {
    /// Whether a drag is pending.
    pub fn get(&self) -> (r: bool)
        ensures
            r == (self@ > 0),
            r == is_pending(self@),
    {
        self.count > 0
    }

    /// A delayed drag was installed.
    pub fn begin(&mut self)
        ensures
            final(self)@ == begun(old(self)@),
    {
        self.count = self.count.wrapping_add(1);
    }

    /// A delayed drag was promoted or torn down.
    pub fn end(&mut self)
        ensures
            final(self)@ == ended(old(self)@),
    {
        match self.count.checked_sub(1) {
            Some(n) => {
                self.count = n;
            },
            None => {},
        }
    }
}

/// What can happen to the counter.
pub enum PendingEvent {
    Begin,
    End,
}

/// The counter after `history`, starting from none.
pub open spec fn count_after(history: Seq<PendingEvent>) -> usize
    decreases history.len(),
{
    if history.len() == 0 {
        0
    } else {
        let before = count_after(history.drop_last());
        match history.last() {
            PendingEvent::Begin => begun(before),
            PendingEvent::End => ended(before),
        }
    }
}

/// How many more begins than ends there are from `k` on.
pub open spec fn surplus(history: Seq<PendingEvent>, k: int) -> int
    decreases history.len(),
{
    if history.len() <= k || history.len() == 0 {
        0
    } else {
        surplus(history.drop_last(), k) + match history.last() {
            PendingEvent::Begin => 1int,
            PendingEvent::End => -1int,
        }
    }
}

/// The counter is the largest surplus of begins over ends that any end of the history has.
pub proof fn law_count_is_largest_surplus(history: Seq<PendingEvent>)
    requires
        history.len() <= usize::MAX,
    ensures
        forall|k: int| 0 <= k <= history.len() ==> #[trigger] surplus(history, k) <= count_after(
            history,
        ),
        exists|k: int|
            0 <= k <= history.len() && #[trigger] surplus(history, k) == count_after(history),
        count_after(history) <= history.len(),
    decreases history.len(),
{
    if history.len() == 0 {
        assert(surplus(history, 0) == 0);
    } else {
        let init = history.drop_last();
        law_count_is_largest_surplus(init);
        let n = history.len() as int;
        assert(surplus(history, n) == 0);
        assert forall|k: int| 0 <= k <= history.len() implies #[trigger] surplus(history, k)
            <= count_after(history) by {
            if k < n {
                assert(surplus(init, k) <= count_after(init));
            }
        }
        let k = choose|k: int|
            0 <= k <= init.len() && #[trigger] surplus(init, k) == count_after(init);
        if history.last() is Begin || count_after(init) > 0 {
            assert(surplus(history, k) == count_after(history));
        } else {
            assert(surplus(history, n) == count_after(history));
        }
    }
}

/// A drag is pending exactly while the ends since some point have not made up for the begins
/// since then.
pub proof fn law_pending_means_a_begin_is_unanswered(history: Seq<PendingEvent>)
    requires
        history.len() <= usize::MAX,
    ensures
        count_after(history) > 0 <==> exists|k: int|
            0 <= k <= history.len() && #[trigger] surplus(history, k) > 0,
{
    law_count_is_largest_surplus(history);
}

/// A grab that displaces a pending one may begin before or after its predecessor ends: the
/// counter is the same, and the drag stays pending.
pub proof fn law_drop_order_is_irrelevant(n: usize)
    requires
        0 < n < usize::MAX,
    ensures
        ended(begun(n)) == begun(ended(n)),
        ended(begun(n)) > 0,
{
}

/// A grab that ends twice, once when it is promoted and once when it is dropped, costs no more
/// than a single end would have before it began; alone, it leaves nothing pending behind.
pub proof fn law_double_end_is_harmless(n: usize)
    requires
        n < usize::MAX,
    ensures
        ended(ended(begun(n))) == ended(n),
        n == 0 ==> ended(ended(begun(n))) == 0,
{
}

/// A drag that begins is pending, also beside others, and ends one at a time; nothing is pending
/// where none began.
pub proof fn law_drags_are_counted_one_by_one(n: usize)
    ensures
        !is_pending(0),
        n > 0 ==> is_pending(n),
        n < usize::MAX ==> begun(n) == n + 1 && is_pending(begun(n)) && ended(begun(n)) == n,
        begun(usize::MAX) == 0,
        n > 0 ==> ended(n) == n - 1,
        ended(0) == 0,
{
}

} // verus!
