//! Taking the seats away from whatever grabs them.
//!
//! A grab sits in front of focus: while one is set, input goes straight to the grab and a lock
//! never gets a say. So as the session locks every grab of every seat is unset, what is under the
//! pointer is looked for anew against the lock, and the keyboard is taken away from whatever had
//! it before the lock.

use vstd::prelude::*;

verus! {

/// How far the grabs of a seat have been cancelled.
#[derive(Debug, Clone, Copy, PartialEq, Eq, Structural)]
pub enum CancelStage {
    Keyboard,
    Touch,
    Pointer,
    /// All grabs are unset; focus is next.
    Focus,
    Done,
}

/// What to do about the seat at a stage, and where to go on.
#[derive(Debug, Clone, Copy, PartialEq, Eq, Structural)]
pub struct CancelStep {
    /// Unset the grab of the device.
    pub unset: bool,
    /// Look for what is under the pointer, if the seat has one.
    pub refocus: bool,
    /// Take the keyboard away.
    pub clear_keyboard: bool,
    pub next: CancelStage,
}

/// The step at a stage. `grabbed` tells of the device that the stage is about whether it is
/// grabbed; it is `None` if the seat has no such device.
pub open spec fn cancel_step(stage: CancelStage, grabbed: Option<bool>) -> CancelStep {
    CancelStep {
        unset: grabbed == Some(true) && (stage == CancelStage::Keyboard || stage
            == CancelStage::Touch || stage == CancelStage::Pointer),
        refocus: stage == CancelStage::Focus,
        clear_keyboard: stage == CancelStage::Focus,
        next: match stage {
            CancelStage::Keyboard => CancelStage::Touch,
            CancelStage::Touch => CancelStage::Pointer,
            CancelStage::Pointer => CancelStage::Focus,
            _ => CancelStage::Done,
        },
    }
}

/// Cancels the grabs of a seat, one device after the other: the keyboard, the touch device and
/// the pointer, each if it is grabbed. Then the pointer is focused anew and the keyboard is taken
/// away, whatever devices the seat has.
pub fn cancel_grabs(stage: CancelStage, grabbed: Option<bool>) -> (r: CancelStep)
    ensures
        r == cancel_step(stage, grabbed),
{
    let unset = match grabbed {
        Some(grabbed) => grabbed,
        None => false,
    };
    match stage {
        CancelStage::Keyboard => CancelStep {
            unset,
            refocus: false,
            clear_keyboard: false,
            next: CancelStage::Touch,
        },
        CancelStage::Touch => CancelStep {
            unset,
            refocus: false,
            clear_keyboard: false,
            next: CancelStage::Pointer,
        },
        CancelStage::Pointer => CancelStep {
            unset,
            refocus: false,
            clear_keyboard: false,
            next: CancelStage::Focus,
        },
        CancelStage::Focus => CancelStep {
            unset: false,
            refocus: true,
            clear_keyboard: true,
            next: CancelStage::Done,
        },
        CancelStage::Done => CancelStep {
            unset: false,
            refocus: false,
            clear_keyboard: false,
            next: CancelStage::Done,
        },
    }
}

/// The pointer is focused on something else than what is under it.
pub open spec fn is_elsewhere(focus: Option<u64>, under: Option<u64>) -> bool {
    focus != under
}

/// Whether the pointer has to be moved onto what is under it now: only if it is not focused on
/// that already.
pub fn refocus_pointer(focus: Option<u64>, under: Option<u64>) -> (r: bool)
    ensures
        r == (focus != under),
        r == is_elsewhere(focus, under),
{
    match (focus, under) {
        (Some(focus), Some(under)) => focus != under,
        (None, None) => false,
        _ => true,
    }
}

/// A seat: of each device, if it is there, whether it is grabbed, and whether something has the
/// keyboard.
pub struct SeatState {
    pub keyboard: Option<bool>,
    pub touch: Option<bool>,
    pub pointer: Option<bool>,
    pub keyboard_focused: bool,
}

/// A device once its grab has been unset, or not.
pub open spec fn device_after(grabbed: Option<bool>, unset: bool) -> Option<bool> {
    if unset && grabbed is Some {
        Some(false)
    } else {
        grabbed
    }
}

/// What is asked about a seat at a stage: whether the device of the stage is grabbed.
pub open spec fn asked(seat: SeatState, stage: CancelStage) -> Option<bool> {
    match stage {
        CancelStage::Keyboard => seat.keyboard,
        CancelStage::Touch => seat.touch,
        CancelStage::Pointer => seat.pointer,
        _ => None,
    }
}

/// The seat after the step of a stage.
pub open spec fn seat_after_step(seat: SeatState, stage: CancelStage) -> SeatState {
    let step = cancel_step(stage, asked(seat, stage));
    SeatState {
        keyboard: device_after(seat.keyboard, stage == CancelStage::Keyboard && step.unset),
        touch: device_after(seat.touch, stage == CancelStage::Touch && step.unset),
        pointer: device_after(seat.pointer, stage == CancelStage::Pointer && step.unset),
        keyboard_focused: seat.keyboard_focused && !step.clear_keyboard,
    }
}

/// How many steps are left at a stage.
pub open spec fn steps_left(stage: CancelStage) -> nat {
    match stage {
        CancelStage::Keyboard => 4,
        CancelStage::Touch => 3,
        CancelStage::Pointer => 2,
        CancelStage::Focus => 1,
        CancelStage::Done => 0,
    }
}

/// The seat once all steps from `stage` on have been taken.
pub open spec fn seat_after(seat: SeatState, stage: CancelStage) -> SeatState
    decreases steps_left(stage),
{
    if stage == CancelStage::Done {
        seat
    } else {
        seat_after(seat_after_step(seat, stage), cancel_step(stage, asked(seat, stage)).next)
    }
}

/// Afterwards nothing of the seat is grabbed and nothing has the keyboard, whatever devices the
/// seat has, and no device has been touched that was not grabbed.
pub proof fn law_no_grab_survives(seat: SeatState)
    ensures
        ({
            let after = seat_after(seat, CancelStage::Keyboard);
            &&& !after.keyboard_focused
            &&& after.keyboard == device_after(seat.keyboard, true)
            &&& after.touch == device_after(seat.touch, true)
            &&& after.pointer == device_after(seat.pointer, true)
            &&& after.keyboard != Some(true)
            &&& after.touch != Some(true)
            &&& after.pointer != Some(true)
        }),
{
    reveal_with_fuel(seat_after, 5);
}

/// The steps come in order: keyboard, touch, pointer, focus. Only a device that is grabbed is
/// unset, only the device whose turn it is, and focus is left alone until every grab is gone.
pub proof fn law_focus_comes_last(grabbed: Option<bool>)
    ensures
        cancel_step(CancelStage::Keyboard, grabbed).next == CancelStage::Touch,
        cancel_step(CancelStage::Touch, grabbed).next == CancelStage::Pointer,
        cancel_step(CancelStage::Pointer, grabbed).next == CancelStage::Focus,
        cancel_step(CancelStage::Focus, grabbed).next == CancelStage::Done,
        cancel_step(CancelStage::Done, grabbed).next == CancelStage::Done,
        forall|stage: CancelStage| #[trigger]
            cancel_step(stage, grabbed).unset <==> grabbed == Some(true) && stage
                != CancelStage::Focus && stage != CancelStage::Done,
        forall|stage: CancelStage| #[trigger]
            cancel_step(stage, grabbed).refocus <==> stage == CancelStage::Focus,
        forall|stage: CancelStage| #[trigger]
            cancel_step(stage, grabbed).clear_keyboard <==> stage == CancelStage::Focus,
{
}

/// The pointer is moved onto what is under it, or off what is not, and stays where it is right.
pub proof fn law_the_pointer_moves_onto_what_is_under_it(a: u64, b: u64)
    ensures
        !is_elsewhere(None, None),
        !is_elsewhere(Some(a), Some(a)),
        a != b ==> is_elsewhere(Some(a), Some(b)),
        is_elsewhere(Some(a), None),
        is_elsewhere(None, Some(a)),
{
}

} // verus!
