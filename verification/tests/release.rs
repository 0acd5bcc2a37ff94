use std::collections::{HashMap, HashSet};
use wmde_comp::fraction::Fraction;
use wmde_comp::geometry::{Point, Rectangle, Size};
use wmde_comp::grabs::{GrabStartData, ManagedLayer, ReleaseMode};
use wmde_comp::layouts::snap_layouts;
use wmde_comp::moving::{MoveGrab, MoveGrabState, OutputInfo};
use wmde_comp::release::{
    focus_after_drop, pull_into, restored_geometry, Arrange, DropInto, DropScene, EndStep,
    FocusAfterDrop,
};
use wmde_comp::snap::SnapCell;
use wmde_comp::workspaces::Workspaces;
use wmde_comp::zones::SnappingZone;

fn rect(x: i32, y: i32, w: i32, h: i32) -> Rectangle {
    Rectangle { loc: Point { x, y }, size: Size { w, h } }
}

fn scene() -> DropScene {
    DropScene {
        workspaces: Workspaces { active: HashMap::from([(1, 11), (2, 22)]), spaces: vec![11, 22] },
        tiling: HashSet::from([22]),
        fallback: OutputInfo {
            id: 2,
            geometry: rect(1920, 0, 1920, 1080),
            work_area: rect(0, 30, 1920, 1050),
        },
        window_alive: true,
        window_size: Size { w: 400, h: 300 },
    }
}

/// A move that is held at `(600, 510)`, its window at `(500, 500)`.
fn begin(layer: ManagedLayer, output: u64) -> (MoveGrab, Option<MoveGrabState>) {
    let mut state = None;
    let grab = MoveGrab::new(
        GrabStartData::Pointer { location: Point { x: 600, y: 510 } },
        77,
        &mut state,
        None,
        Point { x: 500, y: 500 },
        output,
        3,
        layer,
        ReleaseMode::NoMouseButtons,
    );
    (grab, state)
}

#[test]
fn a_floating_window_stays_where_it_is_dropped() {
    let (mut grab, mut state) = begin(ManagedLayer::Floating, 1);
    grab.window_outputs.insert(2);
    let outcome = grab.release(&mut state, &scene());
    assert!(state.is_none());
    assert!(!outcome.output_gone);
    let placement = outcome.placement.unwrap();
    assert_eq!(placement.window, 77);
    assert_eq!(placement.output, 1);
    assert_eq!(placement.workspace, 11);
    assert_eq!(placement.location, Point { x: 500, y: 500 });
    assert_eq!(placement.leave, HashSet::from([2]));
    assert!(placement.enter_workspace);
    assert_eq!(
        placement.into,
        DropInto::Floating { forget_stack: false, arrange: Arrange::Stay }
    );
}

#[test]
fn a_sticky_window_enters_no_workspace() {
    let (grab, mut state) = begin(ManagedLayer::Sticky, 1);
    let placement = grab.release(&mut state, &scene()).placement.unwrap();
    assert!(!placement.enter_workspace);
    assert_eq!(placement.into, DropInto::Sticky);
}

#[test]
fn a_tiled_window_floats_where_nothing_is_tiled() {
    let (grab, mut state) = begin(ManagedLayer::Tiling, 2);
    assert_eq!(grab.release(&mut state, &scene()).placement.unwrap().into, DropInto::Tiling);
    let (grab, mut state) = begin(ManagedLayer::Tiling, 1);
    assert_eq!(
        grab.release(&mut state, &scene()).placement.unwrap().into,
        DropInto::Floating { forget_stack: false, arrange: Arrange::Stay }
    );
}

#[test]
fn a_picked_cell_wins_over_a_zone() {
    let (grab, mut state) = begin(ManagedLayer::Floating, 1);
    state.as_mut().unwrap().snap_pick = Some((3, 1));
    state.as_mut().unwrap().snapping_zone = Some(SnappingZone::Left);
    let cell = SnapCell::new(
        Fraction::new(1, 3),
        Fraction::new(0, 1),
        Fraction::new(1, 3),
        Fraction::new(1, 1),
    );
    assert_eq!(
        grab.release(&mut state, &scene()).placement.unwrap().into,
        DropInto::Floating { forget_stack: true, arrange: Arrange::SnapToCell { cell } }
    );
}

#[test]
fn a_pick_of_no_cell_leaves_the_zone() {
    let (grab, mut state) = begin(ManagedLayer::Floating, 1);
    state.as_mut().unwrap().snap_pick = Some((9, 0));
    state.as_mut().unwrap().snapping_zone = Some(SnappingZone::Left);
    assert_eq!(
        grab.release(&mut state, &scene()).placement.unwrap().into,
        DropInto::Floating {
            forget_stack: true,
            arrange: Arrange::SnapToZone { zone: SnappingZone::Left },
        }
    );
}

#[test]
fn zones_maximize_or_snap() {
    let (grab, mut state) = begin(ManagedLayer::Floating, 1);
    state.as_mut().unwrap().snapping_zone = Some(SnappingZone::Maximize);
    assert_eq!(
        grab.release(&mut state, &scene()).placement.unwrap().into,
        DropInto::Floating { forget_stack: false, arrange: Arrange::Maximize }
    );
    let (grab, mut state) = begin(ManagedLayer::Floating, 1);
    state.as_mut().unwrap().snapping_zone = Some(SnappingZone::TopRight);
    assert_eq!(
        grab.release(&mut state, &scene()).placement.unwrap().into,
        DropInto::Floating {
            forget_stack: false,
            arrange: Arrange::SnapToZone { zone: SnappingZone::TopRight },
        }
    );
}

#[test]
fn a_window_of_a_lost_output_is_pulled_onto_the_fallback() {
    let (grab, mut state) = begin(ManagedLayer::Floating, 3);
    let outcome = grab.release(&mut state, &scene());
    assert!(outcome.output_gone);
    let placement = outcome.placement.unwrap();
    assert_eq!(placement.output, 2);
    assert_eq!(placement.workspace, 22);
    assert_eq!(placement.location, Point { x: 1920, y: 500 });
    assert_eq!(placement.leave, HashSet::from([3]));
}

#[test]
fn a_window_without_a_workspace_is_left_unplaced() {
    let (grab, mut state) = begin(ManagedLayer::Floating, 3);
    let mut scene = scene();
    scene.workspaces.active.clear();
    let outcome = grab.release(&mut state, &scene);
    assert!(outcome.output_gone);
    assert!(outcome.placement.is_none());
    assert!(state.is_none());
}

#[test]
fn a_window_that_is_gone_is_not_placed() {
    let (grab, mut state) = begin(ManagedLayer::Floating, 1);
    let mut scene = scene();
    scene.window_alive = false;
    let outcome = grab.release(&mut state, &scene);
    assert!(!outcome.output_gone);
    assert!(outcome.placement.is_none());
}

#[test]
fn a_move_without_a_state_places_nothing() {
    let (grab, _) = begin(ManagedLayer::Floating, 3);
    let outcome = grab.release(&mut None, &scene());
    assert!(!outcome.output_gone);
    assert!(outcome.placement.is_none());
}

#[test]
fn windows_are_pulled_just_inside() {
    let area = rect(100, 30, 1000, 700);
    let size = Size { w: 200, h: 100 };
    let pull = |x, y| pull_into(Point { x, y }, area, size);
    assert_eq!(pull(-50, 5000), Point { x: 100, y: 630 });
    assert_eq!(pull(5000, -5), Point { x: 900, y: 30 });
    assert_eq!(pull(400, 300), Point { x: 400, y: 300 });
    assert_eq!(
        pull_into(Point { x: 400, y: 300 }, area, Size { w: 1001, h: 701 }),
        Point { x: 100, y: 30 }
    );
}

#[test]
fn restoring_goes_back_to_before_the_drag() {
    let before = rect(1, 2, 3, 4);
    let snapped = rect(5, 6, 7, 8);
    assert_eq!(restored_geometry(Some(before), Some(snapped)), Some(before));
    assert_eq!(restored_geometry(None, Some(snapped)), Some(snapped));
    assert_eq!(restored_geometry(None, None), None);
}

#[test]
fn a_locked_session_gets_no_focus() {
    let focus = |pointer, keyboard| FocusAfterDrop { pointer, keyboard };
    assert_eq!(focus_after_drop(true, false, false), focus(true, true));
    assert_eq!(focus_after_drop(true, false, true), focus(false, true));
    assert_eq!(focus_after_drop(true, true, false), focus(false, false));
    assert_eq!(focus_after_drop(false, false, false), focus(false, false));
}

#[test]
fn what_is_previewed_is_what_a_release_does() {
    let area = rect(0, 30, 1920, 1050);
    for (l, layout) in snap_layouts().iter().enumerate() {
        for c in 0..layout.cells.len() {
            let (grab, mut state) = begin(ManagedLayer::Floating, 1);
            state.as_mut().unwrap().snap_pick = Some((l, c));
            let preview = state.as_ref().unwrap().preview_geometry(area, (0, 8));
            let placement = grab.release(&mut state, &scene()).placement.unwrap();
            let DropInto::Floating { arrange: Arrange::SnapToCell { cell }, .. } = placement.into
            else {
                panic!("not snapped: {:?}", placement.into)
            };
            assert_eq!(preview, Some(cell.relative_geometry(area, (0, 8))));
        }
    }
    let (grab, mut state) = begin(ManagedLayer::Floating, 1);
    state.as_mut().unwrap().snapping_zone = Some(SnappingZone::BottomRight);
    let preview = state.as_ref().unwrap().preview_geometry(area, (0, 8));
    let placement = grab.release(&mut state, &scene()).placement.unwrap();
    let DropInto::Floating { arrange: Arrange::SnapToZone { zone }, .. } = placement.into else {
        panic!("not snapped: {:?}", placement.into)
    };
    assert_eq!(preview, Some(zone.overlay_geometry(area, (0, 8))));
}

#[test]
fn every_move_is_cleaned_up() {
    let end = |workspaces: &[u64]| {
        let mut steps: Vec<EndStep> =
            workspaces.iter().map(|&workspace| EndStep::CleanUp { workspace }).collect();
        steps.extend([EndStep::LeaveOverview, EndStep::ResetCursor]);
        steps
    };
    let (grab, mut state) = begin(ManagedLayer::Tiling, 1);
    assert_eq!(grab.release(&mut state, &scene()).ending, end(&[11]));
    // The output is gone.
    let (grab, mut state) = begin(ManagedLayer::Tiling, 3);
    assert_eq!(grab.release(&mut state, &scene()).ending, end(&[11, 22]));
    // There is nothing to place.
    let (grab, _) = begin(ManagedLayer::Tiling, 2);
    assert_eq!(grab.release(&mut None, &scene()).ending, end(&[22]));
    let (grab, mut state) = begin(ManagedLayer::Tiling, 2);
    let dead = DropScene { window_alive: false, ..scene() };
    assert_eq!(grab.release(&mut state, &dead).ending, end(&[22]));
}
