use wmde_comp::fraction::Fraction;
use wmde_comp::geometry::{Point, Rectangle, Size};
use wmde_comp::grabs::ManagedLayer;
use wmde_comp::moving::MoveGrabState;
use wmde_comp::render::{RenderScene, RenderStep};
use wmde_comp::snap_strip::SnapStrip;
use wmde_comp::zones::SnappingZone;

fn rect(x: i32, y: i32, w: i32, h: i32) -> Rectangle {
    Rectangle { loc: Point { x, y }, size: Size { w, h } }
}

fn state(previous: ManagedLayer) -> MoveGrabState {
    MoveGrabState {
        window: 77,
        window_offset: Point { x: -100, y: -10 },
        indicator_thickness: 3,
        previous,
        snapping_zone: None,
        snap_strip: None,
        snap_pick: None,
        stacking_indicator: None,
        location: Point { x: 2600, y: 510 },
        cursor_output: 2,
    }
}

fn strip() -> SnapStrip {
    SnapStrip::new(rect(0, 30, 1920, 1050), 400, |at, _, _| at)
}

fn scene(output: u64) -> RenderScene {
    RenderScene {
        output,
        output_geometry: rect(1920 * (output as i32 - 1), 0, 1920, 1080),
        work_area: rect(0, 30, 1920, 1050),
        gaps: (0, 8),
        window_geometry: rect(5, 6, 400, 300),
        elapsed: 75,
    }
}

#[test]
fn a_floating_window_is_drawn_at_its_size() {
    let plan = state(ManagedLayer::Floating).render(scene(2)).unwrap();
    assert_eq!(plan.scale, Fraction::new(1, 1));
    assert_eq!(plan.alpha, Fraction::new(1, 1));
    let origin = Point { x: 580, y: 500 };
    let location = Point { x: 575, y: 494 };
    assert_eq!(
        plan.steps,
        vec![
            RenderStep::Popups { location },
            RenderStep::FocusIndicator { geometry: rect(580, 500, 400, 300), thickness: 3 },
            RenderStep::Window { location, origin },
        ]
    );
}

#[test]
fn a_window_that_leaves_the_tiling_layer_shrinks_around_the_pointer() {
    let plan = state(ManagedLayer::Tiling).render(scene(2)).unwrap();
    // Half of the way to three fifths.
    assert_eq!(plan.scale, Fraction::new(300, 375));
    assert!(plan.steps.contains(&RenderStep::FocusIndicator {
        geometry: rect(600, 502, 320, 240),
        thickness: 3,
    }));
    let late = RenderScene { elapsed: 100_000, ..scene(2) };
    let plan = state(ManagedLayer::Tiling).render(late).unwrap();
    assert_eq!(plan.scale, Fraction::new(225, 375));
    assert!(plan.steps.contains(&RenderStep::FocusIndicator {
        geometry: rect(620, 504, 240, 180),
        thickness: 3,
    }));
    let early = RenderScene { elapsed: 0, ..scene(2) };
    assert_eq!(
        state(ManagedLayer::Tiling).render(early).unwrap().scale,
        Fraction::new(375, 375)
    );
}

#[test]
fn nothing_is_drawn_where_the_window_does_not_reach() {
    assert!(state(ManagedLayer::Floating).render(scene(1)).is_none());
}

#[test]
fn other_outputs_show_the_window_faintly() {
    let mut state = state(ManagedLayer::Floating);
    state.location = Point { x: 1950, y: 510 };
    state.snapping_zone = Some(SnappingZone::Left);
    state.snap_strip = Some(strip());
    let plan = state.render(scene(1)).unwrap();
    assert_eq!(plan.alpha, Fraction::new(2, 5));
    assert_eq!(plan.steps.len(), 3);
    assert!(matches!(plan.steps[0], RenderStep::Popups { .. }));
}

#[test]
fn the_strip_is_on_top_and_the_preview_below() {
    let mut state = state(ManagedLayer::Floating);
    state.indicator_thickness = 0;
    state.stacking_indicator = Some(rect(40, 50, 60, 70));
    state.snapping_zone = Some(SnappingZone::Left);
    state.snap_strip = Some(strip());
    let plan = state.render(scene(2)).unwrap();
    let geometry = rect(8, 38, 948, 1034);
    assert_eq!(plan.steps[0], RenderStep::Strip { location: Point { x: 760, y: 30 } });
    assert_eq!(plan.steps[1], RenderStep::StackHover { location: Point { x: 40, y: 50 } });
    assert!(matches!(plan.steps[2], RenderStep::Popups { .. }));
    assert!(matches!(plan.steps[3], RenderStep::Window { .. }));
    assert_eq!(plan.steps[4], RenderStep::SnapIndicator { geometry, thickness: 1 });
    assert_eq!(plan.steps[5], RenderStep::SnapBackdrop { geometry });
    assert_eq!(plan.steps.len(), 6);
}

#[test]
fn a_picked_cell_is_previewed_before_a_zone() {
    let area = rect(0, 30, 1920, 1050);
    let mut state = state(ManagedLayer::Floating);
    assert_eq!(state.preview_geometry(area, (0, 8)), None);
    state.snapping_zone = Some(SnappingZone::Maximize);
    assert_eq!(state.preview_geometry(area, (0, 8)), Some(area));
    state.snap_pick = Some((0, 1));
    assert_eq!(state.preview_geometry(area, (0, 8)), Some(rect(964, 38, 948, 1034)));
    // A pick that names no cell does not count.
    state.snap_pick = Some((0, 2));
    assert_eq!(state.preview_geometry(area, (0, 8)), Some(area));
}
