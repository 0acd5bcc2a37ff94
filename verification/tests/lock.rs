use wmde_comp::geometry::Size;
use wmde_comp::seats::{cancel_grabs, refocus_pointer, CancelStage};
use wmde_comp::session_lock::{LockOutput, LockState, SeatOutput};

#[test]
fn a_session_starts_open() {
    assert!(!LockState::new().is_locked());
}

#[test]
fn a_live_client_keeps_its_lock() {
    let mut lock = LockState::new();
    assert!(lock.lock(1, false));
    assert!(!lock.lock(2, true));
    assert!(!lock.signal_lock());
    assert!(!lock.signal_unlock());
    assert_eq!(lock.session_lock.as_ref().unwrap().client, Some(1));
    lock.unlock();
    assert!(!lock.is_locked());
}

#[test]
fn a_lock_of_a_dead_client_is_taken_over() {
    let mut lock = LockState::new();
    assert!(lock.lock(1, false));
    assert!(lock.lock(2, false));
    assert_eq!(lock.session_lock.as_ref().unwrap().client, Some(2));
}

#[test]
fn a_blank_is_released_by_the_login_manager() {
    let mut lock = LockState::new();
    assert!(lock.signal_lock());
    assert!(lock.is_locked());
    assert!(!lock.signal_lock());
    assert!(lock.signal_unlock());
    assert!(!lock.is_locked());
    assert!(!lock.signal_unlock());
}

#[test]
fn a_client_takes_over_from_a_blank() {
    let mut lock = LockState::new();
    assert!(lock.signal_lock());
    assert!(lock.lock(9, true));
    assert_eq!(lock.session_lock.as_ref().unwrap().client, Some(9));
    assert!(!lock.signal_unlock());
    assert!(lock.is_locked());
}

#[test]
fn lock_surfaces_get_the_keyboards_of_their_output() {
    let output = LockOutput { id: 5, size: Size { w: 1920, h: 1080 } };
    let seats = vec![
        SeatOutput { seat: 1, output: 5 },
        SeatOutput { seat: 2, output: 6 },
        SeatOutput { seat: 3, output: 5 },
    ];
    let mut lock = LockState::new();
    assert!(lock.new_surface(100, Some(output), &seats).is_none());
    assert!(lock.lock(1, false));
    assert!(lock.new_surface(100, None, &seats).is_none());
    let setup = lock.new_surface(100, Some(output), &seats).unwrap();
    assert_eq!(setup.size, (1920, 1080));
    assert_eq!(setup.focus, vec![1, 3]);
    assert_eq!(lock.session_lock.as_ref().unwrap().surfaces.get(&5), Some(&100));
    // A new lock starts without surfaces.
    assert!(lock.lock(2, false));
    assert!(lock.session_lock.as_ref().unwrap().surfaces.is_empty());
}

#[test]
fn every_grab_of_a_seat_is_cancelled() {
    let step = cancel_grabs(CancelStage::Keyboard, Some(true));
    assert!(step.unset && !step.refocus && !step.clear_keyboard);
    let step = cancel_grabs(step.next, None);
    assert!(!step.unset && !step.clear_keyboard);
    assert_eq!(step.next, CancelStage::Pointer);
    let step = cancel_grabs(step.next, Some(true));
    assert!(step.unset && !step.clear_keyboard);
    assert_eq!(step.next, CancelStage::Focus);
    let step = cancel_grabs(step.next, None);
    assert!(!step.unset && step.refocus && step.clear_keyboard);
    assert_eq!(step.next, CancelStage::Done);
    let step = cancel_grabs(step.next, Some(true));
    assert!(!step.unset && !step.refocus && !step.clear_keyboard);
    assert_eq!(step.next, CancelStage::Done);
}

#[test]
fn devices_that_are_not_grabbed_are_left_alone() {
    assert!(!cancel_grabs(CancelStage::Keyboard, Some(false)).unset);
    assert!(!cancel_grabs(CancelStage::Touch, Some(false)).unset);
    let step = cancel_grabs(CancelStage::Pointer, Some(false));
    assert!(!step.unset);
    assert_eq!(step.next, CancelStage::Focus);
}

/// The keyboard is taken away from a seat without a pointer as well.
#[test]
fn every_seat_loses_the_keyboard() {
    for pointer in [None, Some(false), Some(true)] {
        let step = cancel_grabs(CancelStage::Pointer, pointer);
        assert_eq!(step.next, CancelStage::Focus);
        assert!(cancel_grabs(step.next, None).clear_keyboard);
    }
}

#[test]
fn the_pointer_moves_only_onto_something_else() {
    assert!(refocus_pointer(Some(1), Some(2)));
    assert!(refocus_pointer(Some(1), None));
    assert!(refocus_pointer(None, Some(1)));
    assert!(!refocus_pointer(Some(1), Some(1)));
    assert!(!refocus_pointer(None, None));
}
