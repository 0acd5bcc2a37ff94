//! A grab that waits for the pointer to move before the real grab is installed.

use crate::grabs::GrabStartData;
use crate::pending::{ended, SeatMovePendingState};
use vstd::prelude::*;

verus! {

/// A grab that stands in for the one that `F` makes.
#[derive(Debug)]
pub struct DelayGrab<F> {
    grab_factory: Option<F>,
    serial: Option<u32>,
    start_data: GrabStartData,
}

/// The real grab is due.
#[derive(Debug)]
pub struct Promotion<F> {
    pub factory: F,
    pub serial: u32,
}

/// The real grab becomes due with a motion: it is the first one that goes far.
pub open spec fn is_due(armed: bool, far: bool) -> bool {
    armed && far
}

/// The real grab is still to become due after a motion.
pub open spec fn stays_armed(armed: bool, far: bool) -> bool {
    armed && !far
}

/// The serial that the real grab is installed under: the one known beforehand goes before that
/// of the motion.
pub open spec fn installed_under(known: Option<u32>, event: u32) -> u32 {
    match known {
        Some(serial) => serial,
        None => event,
    }
}

/// No button is down any more.
pub open spec fn all_released(any_pressed: bool) -> bool {
    !any_pressed
}

impl<F> DelayGrab<F> {
    /// What makes the real grab, until it has been made.
    pub closed spec fn factory(self) -> Option<F> {
        self.grab_factory
    }

    /// The serial that the real grab is installed under, if it is known beforehand.
    pub closed spec fn known_serial(self) -> Option<u32> {
        self.serial
    }

    /// What started the grab.
    pub closed spec fn start(self) -> GrabStartData {
        self.start_data
    }

    pub fn new(factory: F, serial: Option<u32>, start_data: GrabStartData) -> (r: DelayGrab<F>)
        ensures
            r.factory() == Some(factory),
            r.known_serial() == serial,
            r.start() == start_data,
    {
        DelayGrab { grab_factory: Some(factory), serial, start_data }
    }

    /// Whether a touch started the grab.
    pub fn is_touch_grab(&self) -> (r: bool)
        ensures
            r == (self.start() is Touch),
    {
        self.start_data.is_touch()
    }

    /// The pointer moved; `far` tells whether it is at least a unit from where the grab
    /// started. The first such motion makes the real grab due, under the serial known
    /// beforehand or else that of the motion.
    pub fn pointer_motion(&mut self, far: bool, event_serial: u32) -> (r: Option<Promotion<F>>)
        ensures
            final(self).start() == old(self).start(),
            final(self).known_serial() == old(self).known_serial(),
            final(self).factory() == if stays_armed(old(self).factory() is Some, far) {
                old(self).factory()
            } else {
                None
            },
            r is Some <==> is_due(old(self).factory() is Some, far),
            r matches Some(promotion) ==> {
                &&& Some(promotion.factory) == old(self).factory()
                &&& promotion.serial == installed_under(old(self).known_serial(), event_serial)
            },
    {
        if !far {
            return None;
        }
        match self.grab_factory.take() {
            Some(factory) => {
                let serial: u32 = match self.serial {
                    Some(serial) => serial,
                    None => event_serial,
                };
                Some(Promotion { factory, serial })
            },
            None => None,
        }
    }

    /// The touch moved. Where the serial is not known beforehand, `next_serial` gives a new
    /// one.
    pub fn touch_motion<N: FnOnce() -> u32>(&mut self, far: bool, next_serial: N) -> (r: Option<
        Promotion<F>,
    >)
        requires
            next_serial.requires(()),
        ensures
            final(self).start() == old(self).start(),
            final(self).known_serial() == old(self).known_serial(),
            final(self).factory() == if stays_armed(old(self).factory() is Some, far) {
                old(self).factory()
            } else {
                None
            },
            r is Some <==> is_due(old(self).factory() is Some, far),
            r matches Some(promotion) ==> {
                &&& Some(promotion.factory) == old(self).factory()
                &&& match old(self).known_serial() {
                    Some(serial) => promotion.serial == serial,
                    None => next_serial.ensures((), promotion.serial),
                }
            },
    {
        if !far {
            return None;
        }
        match self.grab_factory.take() {
            Some(factory) => {
                let serial: u32 = match self.serial {
                    Some(serial) => serial,
                    None => next_serial(),
                };
                Some(Promotion { factory, serial })
            },
            None => None,
        }
    }

    /// Whether a button event ends the grab: it does once no button is down any more.
    pub fn button(&self, any_pressed: bool) -> (ends: bool)
        ensures
            ends == !any_pressed,
            ends == all_released(any_pressed),
    {
        !any_pressed
    }

    /// Whether lifting a touch point ends the grab: it does if the grab started with it.
    pub fn touch_up(&self, slot: Option<u32>) -> (ends: bool)
        ensures
            ends == self.start().started_by(slot),
    {
        self.start_data.concerns(slot)
    }

    /// The grab goes away, in whatever way: the drag it stood for is no longer pending.
    pub fn teardown(self, pending: Option<&mut SeatMovePendingState>)
        ensures
            pending matches Some(p) ==> final(p)@ == ended(p@),
    {
        if let Some(pending) = pending {
            pending.end();
        }
    }
}

/// A grab that is due is still to be installed.
pub open spec fn is_wanted(locked: bool, has_device: bool) -> bool {
    has_device && !locked
}

/// Whether a grab that is due is still to be installed when its turn comes: the session may
/// have been locked since, or the seat may have lost the device.
pub fn still_wanted(locked: bool, has_device: bool) -> (r: bool)
    ensures
        r == (!locked && has_device),
        r == is_wanted(locked, has_device),
{
    !locked && has_device
}

/// How often the real grab becomes due in a history of motions, each far or not.
pub open spec fn promotions(armed: bool, history: Seq<bool>) -> nat
    decreases history.len(),
{
    if history.len() == 0 {
        0
    } else {
        let later = promotions(stays_armed(armed, history.first()), history.drop_first());
        later + if is_due(armed, history.first()) {
            1nat
        } else {
            0nat
        }
    }
}

/// However the pointer moves, the real grab becomes due once if it ever moves far, and never
/// otherwise.
pub proof fn law_promoted_at_most_once(history: Seq<bool>)
    ensures
        promotions(true, history) == if history.contains(true) {
            1nat
        } else {
            0nat
        },
        promotions(false, history) == 0,
    decreases history.len(),
{
    if history.len() > 0 {
        law_promoted_at_most_once(history.drop_first());
        assert(history.contains(true) <==> (history.first() || history.drop_first().contains(true)))
            by {
            if history.contains(true) {
                let i = choose|i: int| 0 <= i < history.len() && history[i] == true;
                if i > 0 {
                    assert(history.drop_first()[i - 1] == true);
                }
            }
            if history.drop_first().contains(true) {
                let i = choose|i: int|
                    0 <= i < history.drop_first().len() && history.drop_first()[i] == true;
                assert(history[i + 1] == true);
            }
        }
    }
}

/// A motion makes the real grab due if it goes far and none did before, and it is then no longer
/// to become due; a motion that does not go far changes nothing.
pub proof fn law_only_the_first_far_motion_counts(armed: bool)
    ensures
        is_due(true, true) && !stays_armed(true, true),
        !is_due(armed, false) && stays_armed(armed, false) == armed,
        !is_due(false, true) && !stays_armed(false, true),
{
}

/// A serial that is known beforehand is used whatever the motion's is.
pub proof fn law_a_known_serial_is_used(known: u32, event: u32)
    ensures
        installed_under(Some(known), event) == known,
        installed_under(None, event) == event,
{
}

/// No grab is installed behind a lock, nor on a seat that has lost the device.
pub proof fn law_no_grab_is_installed_behind_a_lock(locked: bool, has_device: bool)
    ensures
        !is_wanted(true, has_device),
        !is_wanted(locked, false),
        is_wanted(false, true),
{
}

/// A grab waits for as long as a button is down.
pub proof fn law_a_delayed_grab_ends_with_the_last_button()
    ensures
        all_released(false),
        !all_released(true),
{
}

} // verus!
