//! Locking the session.
//!
//! A lock is held by a lock client, or by the compositor itself: where no client answers the
//! request to lock, the screen is blanked instead. A blank is a stand-in that a client may take
//! over from; what a client holds is the client's to release.

use crate::geometry::Size;
use std::collections::HashMap;
use vstd::prelude::*;

verus! {

/// The lock of the session.
#[derive(Debug)]
pub struct SessionLock {
    /// The client that holds the lock; none for a blank.
    pub client: Option<u64>,
    /// The surfaces that the client shows, by output.
    pub surfaces: HashMap<u64, u64>,
}

/// Whether the session is locked, and by whom.
#[derive(Debug)]
pub struct LockState {
    pub session_lock: Option<SessionLock>,
}

/// Who holds the session.
pub enum Holder {
    /// It is not locked.
    Nobody,
    /// It is blanked.
    Blank,
    /// A client has locked it.
    Client(u64),
}

/// What can happen to the lock.
pub enum LockEvent {
    /// A client asks for the lock. `holder_alive`: the client that holds it, if one does, is
    /// still there.
    Lock { client: u64, holder_alive: bool },
    /// The client releases its lock.
    Unlock,
    /// The login manager asks to lock.
    SignalLock,
    /// The login manager asks to unlock.
    SignalUnlock,
    /// The client shows a surface.
    Surface,
}

/// Who holds the session after an event.
pub open spec fn holder_after(holder: Holder, event: LockEvent) -> Holder {
    match event {
        LockEvent::Lock { client, holder_alive } => if holder is Client && holder_alive {
            holder
        } else {
            Holder::Client(client)
        },
        LockEvent::Unlock => Holder::Nobody,
        LockEvent::SignalLock => if holder is Nobody {
            Holder::Blank
        } else {
            holder
        },
        LockEvent::SignalUnlock => if holder is Blank {
            Holder::Nobody
        } else {
            holder
        },
        LockEvent::Surface => holder,
    }
}

/// An output, as a lock surface finds it.
#[derive(Debug, Clone, Copy, PartialEq, Eq, Structural)]
pub struct LockOutput {
    pub id: u64,
    pub size: Size,
}

/// A seat and the output it is focused on or active on.
#[derive(Debug, Clone, Copy, PartialEq, Eq, Structural)]
pub struct SeatOutput {
    pub seat: u64,
    pub output: u64,
}

/// What is owed to a new lock surface.
#[derive(Debug)]
pub struct SurfaceSetup {
    /// The size to configure it with.
    pub size: (u32, u32),
    /// The seats that give it the keyboard.
    pub focus: Vec<u64>,
}

/// The seats on `output`, in order.
pub open spec fn seats_on(seats: Seq<SeatOutput>, output: u64) -> Seq<u64>
    decreases seats.len(),
{
    if seats.len() == 0 {
        seq![]
    } else {
        let before = seats_on(seats.drop_last(), output);
        if seats.last().output == output {
            before.push(seats.last().seat)
        } else {
            before
        }
    }
}

/// A client that asks for the lock gets it.
pub open spec fn is_granted(holder: Holder, holder_alive: bool) -> bool {
    match holder {
        Holder::Client(_) => !holder_alive,
        _ => true,
    }
}

/// Somebody else holds the session after an event.
pub open spec fn changes_hands(holder: Holder, event: LockEvent) -> bool {
    holder_after(holder, event) != holder
}

/// A lock surface is shown: somebody holds the session and the output is there.
pub open spec fn shows_surfaces(holder: Holder, output: Option<LockOutput>) -> bool {
    holder != Holder::Nobody && output is Some
}

/// The size a lock surface is configured with.
pub open spec fn configured_size(output: LockOutput) -> (u32, u32) {
    (output.size.w as u32, output.size.h as u32)
}

/// What is shown once a surface is shown on an output.
pub open spec fn shown_with(shown: Map<u64, u64>, output: LockOutput, surface: u64) -> Map<
    u64,
    u64,
> {
    shown.insert(output.id, surface)
}

impl LockState {
    /// Who holds the session.
    pub open spec fn holder(self) -> Holder {
        match self.session_lock {
            None => Holder::Nobody,
            Some(lock) => match lock.client {
                None => Holder::Blank,
                Some(client) => Holder::Client(client),
            },
        }
    }

    /// The surfaces that are shown on the lock.
    pub open spec fn shown(self) -> Map<u64, u64> {
        match self.session_lock {
            None => Map::empty(),
            Some(lock) => lock.surfaces@,
        }
    }

    pub fn new() -> (r: LockState)
        ensures
            r.holder() is Nobody,
            r.shown() == Map::<u64, u64>::empty(),
    {
        LockState { session_lock: None }
    }

    /// Whether the session is locked.
    pub fn is_locked(&self) -> (r: bool)
        ensures
            r == !(self.holder() is Nobody),
    {
        self.session_lock.is_some()
    }

    /// A client asks for the lock. It gets it unless another client holds it and is still
    /// there; it then has no surfaces yet, every output is drawn anew, and the seats are to be
    /// taken away from whatever grabs them.
    pub fn lock(&mut self, client: u64, holder_alive: bool) -> (granted: bool)
        ensures
            granted == !(old(self).holder() is Client && holder_alive),
            granted == is_granted(old(self).holder(), holder_alive),
            final(self).holder() == holder_after(
                old(self).holder(),
                LockEvent::Lock { client, holder_alive },
            ),
            granted ==> final(self).shown() == Map::<u64, u64>::empty(),
            !granted ==> *final(self) == *old(self),
    {
        let taken = match &self.session_lock {
            Some(lock) => lock.client.is_some() && holder_alive,
            None => false,
        };
        if taken {
            return false;
        }
        self.session_lock = Some(SessionLock { client: Some(client), surfaces: HashMap::new() });
        true
    }

    /// The client releases its lock; every output is drawn anew.
    pub fn unlock(&mut self)
        ensures
            final(self).holder() == holder_after(old(self).holder(), LockEvent::Unlock),
            final(self).shown() == Map::<u64, u64>::empty(),
    {
        self.session_lock = None;
    }

    /// The login manager asks to lock. Where nothing holds the session it is blanked, every
    /// output is drawn anew, and the seats are to be taken away from whatever grabs them.
    pub fn signal_lock(&mut self) -> (blanked: bool)
        ensures
            blanked == (old(self).holder() is Nobody),
            blanked == changes_hands(old(self).holder(), LockEvent::SignalLock),
            final(self).holder() == holder_after(old(self).holder(), LockEvent::SignalLock),
            final(self).shown() == old(self).shown(),
            !blanked ==> *final(self) == *old(self),
    {
        if self.session_lock.is_some() {
            return false;
        }
        self.session_lock = Some(SessionLock { client: None, surfaces: HashMap::new() });
        true
    }

    /// The login manager asks to unlock. Only a blank is released, and every output is drawn
    /// anew: a client's lock is the client's to release, once it has authenticated somebody.
    pub fn signal_unlock(&mut self) -> (released: bool)
        ensures
            released == (old(self).holder() is Blank),
            released == changes_hands(old(self).holder(), LockEvent::SignalUnlock),
            final(self).holder() == holder_after(old(self).holder(), LockEvent::SignalUnlock),
            released ==> final(self).shown() == Map::<u64, u64>::empty(),
            !released ==> *final(self) == *old(self),
    {
        let blank = match &self.session_lock {
            Some(lock) => lock.client.is_none(),
            None => false,
        };
        if blank {
            self.session_lock = None;
        }
        blank
    }

    /// A lock surface for an output. On a locked session, and while the output is there, the
    /// surface is configured to the size of the output, shown on it, and given the keyboard of
    /// the seats on it. Otherwise nothing happens.
    pub fn new_surface(
        &mut self,
        surface: u64,
        output: Option<LockOutput>,
        seats: &Vec<SeatOutput>,
    ) -> (r: Option<SurfaceSetup>)
        ensures
            final(self).holder() == holder_after(old(self).holder(), LockEvent::Surface),
            r is Some <==> !(old(self).holder() is Nobody) && output is Some,
            r is Some <==> shows_surfaces(old(self).holder(), output),
            r matches Some(setup) ==> {
                let output = output.unwrap();
                &&& setup.size == (output.size.w as u32, output.size.h as u32)
                &&& setup.size == configured_size(output)
                &&& setup.focus@ == seats_on(seats@, output.id)
                &&& final(self).shown() == old(self).shown().insert(output.id, surface)
                &&& final(self).shown() == shown_with(old(self).shown(), output, surface)
            },
            r is None ==> *final(self) == *old(self),
    {
        let output: LockOutput = match output {
            Some(output) => output,
            None => {
                return None;
            },
        };
        match &mut self.session_lock {
            Some(lock) => {
                lock.surfaces.insert(output.id, surface);
            },
            None => {
                return None;
            },
        }
        let mut focus: Vec<u64> = Vec::new();
        let mut i: usize = 0;
        while i < seats.len()
            invariant
                i <= seats.len(),
                focus@ == seats_on(seats@.take(i as int), output.id),
            decreases seats.len() - i,
        {
            if seats[i].output == output.id {
                focus.push(seats[i].seat);
            }
            assert(seats@.take(i + 1).drop_last() =~= seats@.take(i as int));
            i = i + 1;
        }
        assert(seats@.take(i as int) =~= seats@);
        Some(SurfaceSetup { size: (output.size.w as u32, output.size.h as u32), focus })
    }
}

/// Who holds the session after a history of events.
pub open spec fn holder_after_all(holder: Holder, events: Seq<LockEvent>) -> Holder
    decreases events.len(),
{
    if events.len() == 0 {
        holder
    } else {
        holder_after(holder_after_all(holder, events.drop_last()), events.last())
    }
}

/// As long as the client that holds the lock is there and does not release it, nothing opens
/// the session or takes the lock over: neither the login manager nor another client.
pub proof fn law_a_live_client_keeps_its_lock(client: u64, events: Seq<LockEvent>)
    requires
        forall|i: int|
            #![trigger events[i]]
            0 <= i < events.len() ==> !(events[i] is Unlock) && (events[i] matches LockEvent::Lock {
                holder_alive,
                ..
            } ==> holder_alive),
    ensures
        holder_after_all(Holder::Client(client), events) == Holder::Client(client),
    decreases events.len(),
{
    if events.len() > 0 {
        law_a_live_client_keeps_its_lock(client, events.drop_last());
    }
}

/// The login manager can never open a session that a client has locked.
pub proof fn law_signals_never_open_a_client_lock(holder: Holder)
    requires
        holder is Client,
    ensures
        holder_after(holder, LockEvent::SignalUnlock) == holder,
        holder_after(holder, LockEvent::SignalLock) == holder,
{
}

/// A request to lock always ends in a locked session, whoever makes it.
pub proof fn law_a_request_to_lock_locks(holder: Holder, client: u64, holder_alive: bool)
    ensures
        !(holder_after(holder, LockEvent::SignalLock) is Nobody),
        holder_after(holder, LockEvent::Lock { client, holder_alive }) is Client,
{
}

/// A client may take over from a blank, and from a client that is gone.
pub proof fn law_stale_locks_are_taken_over(holder: Holder, client: u64, holder_alive: bool)
    requires
        !(holder is Client) || !holder_alive,
    ensures
        holder_after(holder, LockEvent::Lock { client, holder_alive }) == Holder::Client(client),
{
}

/// On an open session, asking to unlock undoes asking to lock.
pub proof fn law_signal_unlock_undoes_signal_lock(holder: Holder)
    requires
        holder is Nobody,
    ensures
        holder_after(holder_after(holder, LockEvent::SignalLock), LockEvent::SignalUnlock)
            == holder,
{
}

/// A client is refused exactly if another client holds the session and is still there; one that
/// is not refused holds the session afterwards, and one that is leaves it as it was.
pub proof fn law_only_a_live_client_keeps_others_out(
    holder: Holder,
    client: u64,
    holder_alive: bool,
)
    ensures
        ({
            let after = holder_after(holder, LockEvent::Lock { client, holder_alive });
            &&& !is_granted(holder, holder_alive) <==> (exists|other: u64|
                holder == Holder::Client(other)) && holder_alive
            &&& is_granted(holder, holder_alive) ==> after == Holder::Client(client)
            &&& !is_granted(holder, holder_alive) ==> after == holder
        }),
{
    if let Holder::Client(other) = holder {
        assert(holder == Holder::Client(other));
    }
}

/// Who holds the session after each event, from each holder.
pub proof fn law_each_event_from_each_holder(holder: Holder, other: u64)
    ensures
        holder_after(holder, LockEvent::Unlock) == Holder::Nobody,
        holder_after(holder, LockEvent::Surface) == holder,
        holder_after(Holder::Nobody, LockEvent::SignalLock) == Holder::Blank,
        holder_after(Holder::Blank, LockEvent::SignalLock) == Holder::Blank,
        holder_after(Holder::Client(other), LockEvent::SignalLock) == Holder::Client(other),
        holder_after(Holder::Nobody, LockEvent::SignalUnlock) == Holder::Nobody,
        holder_after(Holder::Blank, LockEvent::SignalUnlock) == Holder::Nobody,
        holder_after(Holder::Client(other), LockEvent::SignalUnlock) == Holder::Client(other),
{
}

/// A lock is a blank exactly if no client is behind it.
pub proof fn law_a_blank_has_no_client(state: LockState)
    ensures
        state.session_lock is None <==> state.holder() == Holder::Nobody,
        state.session_lock matches Some(lock) ==> match lock.client {
            None => state.holder() == Holder::Blank,
            Some(client) => state.holder() == Holder::Client(client),
        },
        state.session_lock matches Some(lock) ==> state.shown() == lock.surfaces@,
        state.session_lock is None ==> state.shown() == Map::<u64, u64>::empty(),
{
}

/// A lock surface is as large as its output, is shown on it, and leaves the other outputs alone.
/// It is shown on a blank as well as on the lock of a client.
pub proof fn law_lock_surfaces_fill_their_output(
    holder: Holder,
    output: LockOutput,
    shown: Map<u64, u64>,
    surface: u64,
    other: u64,
)
    requires
        output.size.valid(),
    ensures
        configured_size(output).0 == output.size.w,
        configured_size(output).1 == output.size.h,
        shown_with(shown, output, surface).contains_pair(output.id, surface),
        other != output.id ==> (shown_with(shown, output, surface).contains_key(other)
            <==> shown.contains_key(other)) && shown_with(shown, output, surface)[other]
            == shown[other],
        shows_surfaces(holder, Some(output)) <==> holder != Holder::Nobody,
        !shows_surfaces(holder, None),
{
}

/// The keyboards that a lock surface gets are those of the seats on its output, in their order:
/// a seat is counted by its own output alone.
pub proof fn law_seats_are_counted_by_their_output(
    first: Seq<SeatOutput>,
    then: Seq<SeatOutput>,
    seat: SeatOutput,
    output: u64,
)
    ensures
        seats_on(first + then, output) == seats_on(first, output) + seats_on(then, output),
        seat.output == output ==> seats_on(seq![seat], output) == seq![seat.seat],
        seat.output != output ==> seats_on(seq![seat], output) == Seq::<u64>::empty(),
    decreases then.len(),
{
    assert(seq![seat].drop_last() =~= Seq::<SeatOutput>::empty());
    reveal_with_fuel(seats_on, 2);
    assert(Seq::<u64>::empty().push(seat.seat) =~= seq![seat.seat]);
    if then.len() == 0 {
        assert(first + then =~= first);
        assert(seats_on(first, output) + seats_on(then, output) =~= seats_on(first, output));
    } else {
        law_seats_are_counted_by_their_output(first, then.drop_last(), seat, output);
        assert((first + then).drop_last() =~= first + then.drop_last());
        assert((first + then).last() == then.last());
        assert(seats_on(first + then, output) =~= seats_on(first, output) + seats_on(
            then,
            output,
        ));
    }
}

} // verus!
