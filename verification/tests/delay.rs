use wmde_comp::delay::{still_wanted, DelayGrab};
use wmde_comp::geometry::Point;
use wmde_comp::grabs::GrabStartData;
use wmde_comp::pending::SeatMovePendingState;

fn pointer() -> GrabStartData {
    GrabStartData::Pointer { location: Point { x: 1, y: 2 } }
}

fn touch(slot: u32) -> GrabStartData {
    GrabStartData::Touch { slot: Some(slot), location: Point { x: 1, y: 2 } }
}

#[test]
fn the_first_far_motion_promotes() {
    let mut grab = DelayGrab::new("factory", None, pointer());
    assert!(grab.pointer_motion(false, 1).is_none());
    let promotion = grab.pointer_motion(true, 2).unwrap();
    assert_eq!(promotion.factory, "factory");
    assert_eq!(promotion.serial, 2);
    assert!(grab.pointer_motion(true, 3).is_none());
    assert!(grab.touch_motion(true, || 4).is_none());
}

#[test]
fn a_known_serial_goes_first() {
    let mut grab = DelayGrab::new((), Some(7), pointer());
    assert_eq!(grab.pointer_motion(true, 2).unwrap().serial, 7);
    let mut grab = DelayGrab::new((), Some(7), touch(0));
    assert_eq!(grab.touch_motion(true, || 2).unwrap().serial, 7);
}

#[test]
fn a_touch_takes_a_new_serial() {
    let mut grab = DelayGrab::new((), None, touch(0));
    assert!(grab.touch_motion(false, || 11).is_none());
    assert_eq!(grab.touch_motion(true, || 12).unwrap().serial, 12);
}

#[test]
fn grabs_end_with_what_started_them() {
    let grab = DelayGrab::new((), None, touch(3));
    assert!(grab.is_touch_grab());
    assert!(grab.touch_up(Some(3)));
    assert!(!grab.touch_up(Some(4)));
    assert!(!grab.touch_up(None));
    let grab = DelayGrab::new((), None, pointer());
    assert!(!grab.is_touch_grab());
    assert!(!grab.touch_up(Some(3)));
    assert!(grab.button(false));
    assert!(!grab.button(true));
}

#[test]
fn a_grab_that_goes_away_is_no_longer_pending() {
    let mut pending = SeatMovePendingState::default();
    pending.begin();
    DelayGrab::new((), None, pointer()).teardown(Some(&mut pending));
    assert!(!pending.get());
    DelayGrab::new((), None, pointer()).teardown(None);
}

#[test]
fn a_promotion_can_come_too_late() {
    assert!(still_wanted(false, true));
    assert!(!still_wanted(true, true));
    assert!(!still_wanted(false, false));
    assert!(!still_wanted(true, false));
}
