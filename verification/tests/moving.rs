use std::collections::HashSet;
use wmde_comp::geometry::{Point, Rectangle, Size};
use wmde_comp::grabs::{ButtonState, GrabStartData, ManagedLayer, ReleaseMode};
use wmde_comp::moving::{
    output_at, EdgeProximity, Motion, MoveEffect, MoveGrab, MoveGrabState, OutputInfo,
};
use wmde_comp::pending::SeatMovePendingState;
use wmde_comp::snap_strip::{Message, SnapStrip};
use wmde_comp::zones::SnappingZone;

fn rect(x: i32, y: i32, w: i32, h: i32) -> Rectangle {
    Rectangle { loc: Point { x, y }, size: Size { w, h } }
}

/// Two outputs side by side, the first with a panel at the top.
fn outputs() -> Vec<OutputInfo> {
    vec![
        OutputInfo { id: 1, geometry: rect(0, 0, 1920, 1080), work_area: rect(0, 30, 1920, 1050) },
        OutputInfo { id: 2, geometry: rect(1920, 0, 1920, 1080), work_area: rect(0, 0, 1920, 1080) },
    ]
}

/// A strip with a band for every layout and room between the bands.
fn strip(work_area: Rectangle) -> SnapStrip {
    SnapStrip::new(work_area, 400, |at, l, _| {
        rect(at.loc.x + 50 + 60 * l as i32, at.loc.y + 12, 50, 44)
    })
}

const FAR: EdgeProximity = EdgeProximity { left: false, right: false, top: false, bottom: false };

/// The pointer at `(x, y)`, for a window of 400 by 300 pixels.
fn motion(x: i32, y: i32) -> Motion {
    Motion {
        floor: Point { x, y },
        round: Point { x, y },
        window_geometry: rect(0, 0, 400, 300),
        near: FAR,
        stack: None,
    }
}

/// A grab that holds a window 100 pixels right and 10 below its corner.
fn begin(layer: ManagedLayer) -> (MoveGrab, Option<MoveGrabState>) {
    let mut state = None;
    let grab = MoveGrab::new(
        GrabStartData::Pointer { location: Point { x: 600, y: 510 } },
        77,
        &mut state,
        None,
        Point { x: 500, y: 500 },
        1,
        3,
        layer,
        ReleaseMode::NoMouseButtons,
    );
    (grab, state)
}

fn never(_: Rectangle) -> SnapStrip {
    panic!("no strip is due")
}

#[test]
fn a_move_begins_where_it_is_held() {
    let mut pending = SeatMovePendingState::default();
    pending.begin();
    let mut state = None;
    let grab = MoveGrab::new(
        GrabStartData::Touch { slot: Some(2), location: Point { x: 600, y: 510 } },
        77,
        &mut state,
        Some(&mut pending),
        Point { x: 500, y: 500 },
        1,
        3,
        ManagedLayer::Tiling,
        ReleaseMode::Click,
    );
    let state = state.unwrap();
    assert!(!pending.get());
    assert_eq!(state.element(), 77);
    assert_eq!(state.window_offset, Point { x: -100, y: -10 });
    assert_eq!(state.location, Point { x: 600, y: 510 });
    assert_eq!(state.cursor_output, 1);
    assert_eq!(state.indicator_thickness, 3);
    assert!(state.snap_strip.is_none() && state.snap_pick.is_none());
    assert!(state.snapping_zone.is_none() && state.stacking_indicator.is_none());
    assert_eq!(grab.window_outputs, HashSet::from([1]));
    assert!(grab.is_tiling_grab());
    assert!(grab.is_touch_grab());
    assert!(grab.concerns_touch(Some(2)));
    assert!(!grab.concerns_touch(Some(1)));
}

#[test]
fn the_release_mode_decides_what_ends_a_move() {
    let (grab, _) = begin(ManagedLayer::Floating);
    assert!(!grab.is_tiling_grab() && !grab.is_touch_grab());
    assert!(grab.button(ButtonState::Released, false));
    assert!(!grab.button(ButtonState::Released, true));
    assert!(!grab.button(ButtonState::Pressed, true));
    let click = MoveGrab { release: ReleaseMode::Click, ..grab };
    assert!(click.button(ButtonState::Pressed, true));
    assert!(!click.button(ButtonState::Released, false));
    assert!(click.motion_ends(false));
    assert!(!click.motion_ends(true));
    assert!(!click.concerns_touch(Some(0)));
}

#[test]
fn a_point_belongs_to_the_first_output_it_touches() {
    assert_eq!(output_at(&outputs(), Point { x: 5, y: 5 }), Some(0));
    assert_eq!(output_at(&outputs(), Point { x: 1920, y: 5 }), Some(0));
    assert_eq!(output_at(&outputs(), Point { x: 1921, y: 5 }), Some(1));
    assert_eq!(output_at(&outputs(), Point { x: 5, y: 1081 }), None);
}

#[test]
fn a_pointer_on_no_output_changes_nothing() {
    let (mut grab, mut state) = begin(ManagedLayer::Floating);
    let effects = grab.update_location(&mut state, &outputs(), motion(600, 2000), never);
    assert_eq!(effects, vec![]);
    assert_eq!(state.unwrap().location, Point { x: 600, y: 510 });
}

#[test]
fn a_window_follows_the_pointer() {
    let (mut grab, mut state) = begin(ManagedLayer::Floating);
    let effects = grab.update_location(&mut state, &outputs(), motion(700, 400), never);
    assert_eq!(effects, vec![]);
    assert_eq!(state.unwrap().location, Point { x: 700, y: 400 });
}

#[test]
fn a_move_without_a_state_only_follows_the_output() {
    let (mut grab, _) = begin(ManagedLayer::Floating);
    let mut state = None;
    let effects = grab.update_location(&mut state, &outputs(), motion(2500, 400), never);
    assert_eq!(effects, vec![MoveEffect::CleanupTilingDrag { output: 1, dragging_on: 2 }]);
    assert!(state.is_none());
    assert_eq!(grab.cursor_output, 2);
    assert_eq!(grab.window_outputs, HashSet::from([1]));
}

#[test]
fn windows_snap_to_the_edges_they_are_near_to() {
    let (mut grab, mut state) = begin(ManagedLayer::Floating);
    let near = EdgeProximity { left: true, right: true, top: false, bottom: true };
    let event = Motion { near, ..motion(104, 785) };
    grab.update_location(&mut state, &outputs(), event, never);
    // The corner is at the left edge, and the bottom of the window at the lower one.
    assert_eq!(state.unwrap().location, Point { x: 100, y: 790 });
    let (mut grab, mut state) = begin(ManagedLayer::Sticky);
    let near = EdgeProximity { left: false, right: true, top: true, bottom: true };
    let event = Motion { near, ..motion(1615, 12) };
    grab.update_location(&mut state, &outputs(), event, never);
    assert_eq!(state.unwrap().location, Point { x: 1620, y: 10 });
    let (mut grab, mut state) = begin(ManagedLayer::Tiling);
    let near = EdgeProximity { left: true, right: true, top: true, bottom: true };
    let event = Motion { near, ..motion(104, 785) };
    grab.update_location(&mut state, &outputs(), event, never);
    assert_eq!(state.unwrap().location, Point { x: 104, y: 785 });
}

#[test]
fn a_window_enters_and_leaves_outputs() {
    let (mut grab, mut state) = begin(ManagedLayer::Floating);
    let effects = grab.update_location(&mut state, &outputs(), motion(1700, 500), never);
    assert_eq!(
        effects,
        vec![MoveEffect::Enter {
            output: 2,
            overlap: rect(1920, 490, 80, 300),
            indicator: false,
            strip: false,
        }]
    );
    assert_eq!(grab.window_outputs, HashSet::from([1, 2]));
    let effects = grab.update_location(&mut state, &outputs(), motion(2500, 500), never);
    assert_eq!(
        effects,
        vec![
            MoveEffect::CleanupTilingDrag { output: 1, dragging_on: 2 },
            MoveEffect::Leave { output: 1, indicator: false, strip: false },
        ]
    );
    assert_eq!(grab.window_outputs, HashSet::from([2]));
    assert_eq!(state.unwrap().cursor_output, 2);
}

#[test]
fn the_stack_hover_comes_and_goes() {
    let (mut grab, mut state) = begin(ManagedLayer::Floating);
    let stack = rect(300, 300, 500, 40);
    let event = Motion { stack: Some(stack), ..motion(600, 500) };
    let effects = grab.update_location(&mut state, &outputs(), event, never);
    assert_eq!(effects, vec![MoveEffect::ShowStackHover { geometry: stack }]);
    // One that stands is not rebuilt.
    let event = Motion { stack: Some(rect(0, 0, 1, 1)), ..motion(600, 500) };
    assert_eq!(grab.update_location(&mut state, &outputs(), event, never), vec![]);
    assert_eq!(state.as_ref().unwrap().stacking_indicator, Some(stack));
    let effects = grab.update_location(&mut state, &outputs(), motion(600, 500), never);
    assert_eq!(effects, vec![MoveEffect::HideStackHover]);
    assert_eq!(state.unwrap().stacking_indicator, None);
}

#[test]
fn the_strip_drops_down_at_the_top_edge() {
    let (mut grab, mut state) = begin(ManagedLayer::Floating);
    assert_eq!(grab.update_location(&mut state, &outputs(), motion(960, 38), never), vec![]);
    let effects = grab.update_location(&mut state, &outputs(), motion(960, 37), strip);
    assert_eq!(effects, vec![MoveEffect::ShowStrip]);
    assert_eq!(state.as_ref().unwrap().snap_pick, None);
    assert_eq!(state.as_ref().unwrap().snapping_zone, Some(SnappingZone::Top));
    // Over the strip it stays, and a cell is aimed at.
    let effects = grab.update_location(&mut state, &outputs(), motion(812, 50), never);
    assert_eq!(effects, vec![MoveEffect::TellStrip { message: Message::Hover(Some((0, 0))) }]);
    assert_eq!(state.as_ref().unwrap().snap_pick, Some((0, 0)));
    assert_eq!(state.as_ref().unwrap().snapping_zone, None);
    // Away from it, the zones decide again.
    let effects = grab.update_location(&mut state, &outputs(), motion(5, 500), never);
    assert_eq!(effects, vec![MoveEffect::HideStrip]);
    let state = state.unwrap();
    assert!(state.snap_strip.is_none());
    assert_eq!(state.snap_pick, None);
    assert_eq!(state.snapping_zone, Some(SnappingZone::Left));
}

#[test]
fn a_cell_that_is_aimed_at_keeps_stacks_and_zones_away() {
    let (mut grab, mut state) = begin(ManagedLayer::Floating);
    grab.update_location(&mut state, &outputs(), motion(960, 31), strip);
    assert_eq!(state.as_ref().unwrap().snapping_zone, Some(SnappingZone::Top));
    grab.update_location(&mut state, &outputs(), motion(812, 50), never);
    let stack = rect(300, 30, 500, 40);
    let event = Motion { stack: Some(stack), ..motion(813, 50) };
    let effects = grab.update_location(&mut state, &outputs(), event, never);
    assert!(!effects.contains(&MoveEffect::ShowStackHover { geometry: stack }));
    assert_eq!(state.unwrap().stacking_indicator, None);
}

#[test]
fn a_strip_does_not_cross_to_another_output() {
    let (mut grab, mut state) = begin(ManagedLayer::Floating);
    grab.update_location(&mut state, &outputs(), motion(812, 50 - 13), strip);
    grab.update_location(&mut state, &outputs(), motion(812, 50), never);
    assert_eq!(state.as_ref().unwrap().snap_pick, Some((0, 0)));
    let effects = grab.update_location(&mut state, &outputs(), motion(2732, 50), never);
    assert_eq!(
        effects,
        vec![
            MoveEffect::CleanupTilingDrag { output: 1, dragging_on: 2 },
            MoveEffect::HideStrip,
            MoveEffect::Leave { output: 1, indicator: false, strip: false },
            MoveEffect::Enter {
                output: 2,
                overlap: rect(2632, 40, 400, 300),
                indicator: false,
                strip: false,
            },
        ]
    );
    assert!(state.as_ref().unwrap().snap_strip.is_none());
    assert_eq!(state.unwrap().snap_pick, None);
}

#[test]
fn only_floating_windows_are_snapped() {
    for layer in [ManagedLayer::Tiling, ManagedLayer::Sticky] {
        let (mut grab, mut state) = begin(layer);
        grab.update_location(&mut state, &outputs(), motion(960, 2), never);
        let state = state.unwrap();
        assert!(state.snap_strip.is_none());
        assert_eq!(state.snap_pick, None);
        assert_eq!(state.snapping_zone, None);
    }
}

#[test]
fn a_strip_is_made_for_the_output_under_the_pointer() {
    let (mut grab, mut state) = begin(ManagedLayer::Floating);
    grab.update_location(&mut state, &outputs(), motion(960, 31), strip);
    let geometry = |state: &Option<MoveGrabState>| {
        state.as_ref().unwrap().snap_strip.as_ref().unwrap().geometry()
    };
    assert_eq!(geometry(&state), rect(760, 30, 400, 68));
    // The other output has no panel, and its coordinates are its own.
    grab.update_location(&mut state, &outputs(), motion(2732, 3), strip);
    assert_eq!(geometry(&state), rect(760, 0, 400, 68));
    assert_eq!(state.as_ref().unwrap().snapping_zone, Some(SnappingZone::Maximize));
    grab.update_location(&mut state, &outputs(), motion(2732, 20), never);
    assert_eq!(state.unwrap().snap_pick, Some((0, 0)));
}
