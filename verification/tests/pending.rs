use wmde_comp::pending::SeatMovePendingState;

#[test]
fn nothing_is_pending_at_first() {
    assert!(!SeatMovePendingState::default().get());
}

#[test]
fn a_drag_is_pending_until_it_ends() {
    let mut pending = SeatMovePendingState::default();
    pending.begin();
    assert!(pending.get());
    pending.end();
    assert!(!pending.get());
}

/// A second request marks itself before the grab of the first is dropped.
#[test]
fn the_drop_of_a_displaced_grab_does_not_clear_its_successor() {
    let mut pending = SeatMovePendingState::default();
    pending.begin();
    pending.begin();
    pending.end();
    assert!(pending.get());
    pending.end();
    assert!(!pending.get());
}

/// A grab ends once as it is promoted and once as it is dropped.
#[test]
fn ending_twice_is_harmless() {
    let mut pending = SeatMovePendingState::default();
    pending.begin();
    pending.end();
    pending.end();
    assert!(!pending.get());
    pending.begin();
    assert!(pending.get());
}
