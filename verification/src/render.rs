//! What is drawn of a move on an output, and where.

use crate::fraction::{lemma_scaled_down, Fraction};
use crate::geometry::{fits, Point, Rectangle, Size};
use crate::grabs::ManagedLayer;
use crate::layouts::{all_cells, lemma_cells_are_valid, picked, picked_cell};
use crate::moving::MoveGrabState;
use crate::release::Arrange;
use crate::snap::SnapCell;
use vstd::prelude::*;

verus! {

/// How long a window that leaves the tiling layer takes to shrink, in milliseconds.
pub const RESCALE_ANIMATION_DURATION: u64 = 150;

/// The output to draw on, and the window as it is.
#[derive(Debug, Clone, Copy, PartialEq, Eq)]
pub struct RenderScene {
    pub output: u64,
    /// Where the output is in the space that all outputs share.
    pub output_geometry: Rectangle,
    /// What panels leave of it, in its own coordinates.
    pub work_area: Rectangle,
    pub gaps: (i32, i32),
    /// The geometry of the window as the window knows it.
    pub window_geometry: Rectangle,
    /// Milliseconds since the move began.
    pub elapsed: u64,
}

/// Something to draw, in the coordinates of the output.
#[derive(Debug, Clone, Copy, PartialEq, Eq, Structural)]
pub enum RenderStep {
    /// The layout strip.
    Strip { location: Point },
    /// The stack hover.
    StackHover { location: Point },
    /// The popups of the window.
    Popups { location: Point },
    /// The outline of the window.
    FocusIndicator { geometry: Rectangle, thickness: u8 },
    /// The window and its shadow, scaled towards `origin`.
    Window { location: Point, origin: Point },
    /// The outline of where the window will be snapped to.
    SnapIndicator { geometry: Rectangle, thickness: u8 },
    /// The filling of that outline.
    SnapBackdrop { geometry: Rectangle },
}

/// What to draw, from the top, and how.
#[derive(Debug)]
pub struct RenderPlan {
    /// The size of the window, as a fraction of its real one.
    pub scale: Fraction,
    /// The opacity of the window.
    pub alpha: Fraction,
    pub steps: Vec<RenderStep>,
}

/// The size a window is drawn at. One that leaves the tiling layer shrinks evenly to three
/// fifths, the others keep their size.
pub open spec fn drawn_scale(previous: ManagedLayer, elapsed: u64) -> Fraction {
    if previous == ManagedLayer::Tiling {
        if elapsed < RESCALE_ANIMATION_DURATION {
            Fraction { num: (375 - elapsed) as u16, den: 375 }
        } else {
            Fraction { num: 225, den: 375 }
        }
    } else {
        Fraction { num: 1, den: 1 }
    }
}

fn scale_at(previous: ManagedLayer, elapsed: u64) -> (r: Fraction)
    ensures
        r == drawn_scale(previous, elapsed),
        r.is_part(),
{
    match previous {
        ManagedLayer::Tiling => {
            let passed: u16 = if elapsed < RESCALE_ANIMATION_DURATION {
                elapsed as u16
            } else {
                RESCALE_ANIMATION_DURATION as u16
            };
            Fraction::new(375 - passed, 375)
        },
        _ => Fraction::new(1, 1),
    }
}

/// Opaque on the output the pointer is on, faint on the others.
pub open spec fn drawn_alpha(here: bool) -> Fraction {
    if here {
        Fraction { num: 1, den: 1 }
    } else {
        Fraction { num: 2, den: 5 }
    }
}

impl MoveGrabState {
    /// Where the window is in the space that all outputs share.
    pub open spec fn window_area(self, scene: RenderScene) -> Rectangle {
        Rectangle {
            loc: scene.window_geometry.loc.plus(self.location.plus(self.window_offset)),
            size: scene.window_geometry.size,
        }
    }

    /// The window is held at the same place of it whatever its size is, so its corner moves
    /// towards the pointer as it shrinks.
    pub open spec fn drawn_at(self, scene: RenderScene) -> Point {
        let scale = drawn_scale(self.previous, scene.elapsed);
        let scaled = Point {
            x: scale.of(self.window_offset.x as int) as i32,
            y: scale.of(self.window_offset.y as int) as i32,
        };
        self.location.minus(scene.output_geometry.loc).plus(self.window_offset).minus(
            self.window_offset.minus(scaled),
        )
    }

    /// The size the window is drawn at.
    pub open spec fn drawn_size(self, scene: RenderScene) -> Size {
        let scale = drawn_scale(self.previous, scene.elapsed);
        Size {
            w: scale.of(scene.window_geometry.size.w as int) as i32,
            h: scale.of(scene.window_geometry.size.h as int) as i32,
        }
    }

    /// There is something to preview: a cell that is aimed at, or else a zone.
    pub open spec fn has_preview(self) -> bool {
        (self.snap_pick is Some && picked(self.snap_pick.unwrap()) is Some)
            || self.snapping_zone is Some
    }

    /// The preview has representable coordinates.
    pub open spec fn preview_placeable(self, area: Rectangle, inner: int) -> bool {
        if self.snap_pick is Some && picked(self.snap_pick.unwrap()) is Some {
            picked(self.snap_pick.unwrap()).unwrap().placeable(area, inner)
        } else {
            self.snapping_zone matches Some(zone) ==> zone.placeable(area, inner)
        }
    }

    /// `r` is the rectangle that the window will be snapped to.
    pub open spec fn previews(self, area: Rectangle, inner: int, r: Rectangle) -> bool {
        if self.snap_pick is Some && picked(self.snap_pick.unwrap()) is Some {
            picked(self.snap_pick.unwrap()).unwrap().lands_on(area, inner, r)
        } else {
            self.snapping_zone matches Some(zone) && zone.lands_on(area, inner, r)
        }
    }

    /// The rectangle that the window will be snapped to when it is released now.
    pub fn preview_geometry(&self, area: Rectangle, gaps: (i32, i32)) -> (r: Option<Rectangle>)
        requires
            self.preview_placeable(area, gaps.1 as int),
        ensures
            r is Some <==> self.has_preview(),
            r matches Some(geometry) ==> self.previews(area, gaps.1 as int, geometry),
    {
        if let Some(pick) = self.snap_pick {
            if let Some(cell) = picked_cell(pick) {
                proof {
                    lemma_cells_are_valid(pick.0 as int);
                    assert(all_cells()[pick.0 as int][pick.1 as int].valid());
                }
                return Some(cell.relative_geometry(area, gaps));
            }
        }
        match &self.snapping_zone {
            Some(zone) => Some(zone.overlay_geometry(area, gaps)),
            None => None,
        }
    }

    /// What is drawn, from the top, `preview` being the rectangle the window will be snapped to.
    pub open spec fn drawn_steps(self, scene: RenderScene, preview: Option<Rectangle>) -> Seq<
        RenderStep,
    > {
        let here = self.cursor_output == scene.output;
        let origin = self.drawn_at(scene);
        let location = origin.minus(scene.window_geometry.loc);
        strip_steps(self, here) + hover_steps(self) + seq![
            RenderStep::Popups { location },
        ] + focus_steps(self, Rectangle { loc: origin, size: self.drawn_size(scene) }) + seq![
            RenderStep::Window { location, origin },
        ] + preview_steps(self, here, preview)
    }

    /// `plan` is what is drawn of the move on an output.
    pub open spec fn is_drawn(self, scene: RenderScene, plan: Option<RenderPlan>) -> bool {
        &&& plan is Some <==> scene.output_geometry.meets(self.window_area(scene))
        &&& plan matches Some(plan) ==> {
            &&& plan.scale == drawn_scale(self.previous, scene.elapsed)
            &&& plan.alpha == drawn_alpha(self.cursor_output == scene.output)
            &&& if self.has_preview() {
                exists|preview: Rectangle|
                    #![trigger self.drawn_steps(scene, Some(preview))]
                    self.previews(scene.work_area, scene.gaps.1 as int, preview)
                        && plan.steps@ == self.drawn_steps(scene, Some(preview))
            } else {
                plan.steps@ == self.drawn_steps(scene, None)
            }
        }
    }

    /// What is drawn of the move on an output, from the top. Nothing is, where the window does
    /// not reach the output.
    pub fn render(&self, scene: RenderScene) -> (r: Option<RenderPlan>)
        requires
            self.preview_placeable(scene.work_area, scene.gaps.1 as int),
        ensures
            self.is_drawn(scene, r),
    {
        let scale = scale_at(self.previous, scene.elapsed);
        let here = self.cursor_output == scene.output;
        let window = Rectangle {
            loc: scene.window_geometry.loc.translate(self.location.translate(self.window_offset)),
            size: scene.window_geometry.size,
        };
        if scene.output_geometry.intersection(window).is_none() {
            return None;
        }
        let scaled = Point {
            x: scale.part_of(self.window_offset.x),
            y: scale.part_of(self.window_offset.y),
        };
        let origin = self.location.relative_to(scene.output_geometry.loc).translate(
            self.window_offset,
        ).relative_to(self.window_offset.relative_to(scaled));
        let location = origin.relative_to(scene.window_geometry.loc);
        let size = Size {
            w: scale.part_of(scene.window_geometry.size.w),
            h: scale.part_of(scene.window_geometry.size.h),
        };
        let preview = self.preview_geometry(scene.work_area, scene.gaps);

        let mut steps: Vec<RenderStep> = Vec::new();
        if here {
            if let Some(strip) = &self.snap_strip {
                steps.push(RenderStep::Strip { location: strip.geometry().loc });
            }
        }
        assert(steps@ =~= strip_steps(*self, here));
        let ghost s0 = steps@;
        if let Some(hover) = &self.stacking_indicator {
            steps.push(RenderStep::StackHover { location: hover.loc });
        }
        assert(steps@ =~= s0 + hover_steps(*self));
        let ghost s1 = steps@;
        steps.push(RenderStep::Popups { location });
        let geometry = Rectangle { loc: origin, size };
        if self.indicator_thickness > 0 {
            steps.push(
                RenderStep::FocusIndicator { geometry, thickness: self.indicator_thickness },
            );
        }
        steps.push(RenderStep::Window { location, origin });
        assert(steps@ =~= s1 + seq![RenderStep::Popups { location }] + focus_steps(*self, geometry)
            + seq![RenderStep::Window { location, origin }]);
        let ghost s2 = steps@;
        if here {
            if let Some(geometry) = preview {
                let thickness: u8 = if self.indicator_thickness > 1 {
                    self.indicator_thickness
                } else {
                    1
                };
                steps.push(RenderStep::SnapIndicator { geometry, thickness });
                steps.push(RenderStep::SnapBackdrop { geometry });
            }
        }
        assert(steps@ =~= s2 + preview_steps(*self, here, preview));
        assert(steps@ == self.drawn_steps(scene, preview));
        let alpha = if here {
            Fraction::new(1, 1)
        } else {
            Fraction::new(2, 5)
        };
        Some(RenderPlan { scale, alpha, steps })
    }
}

/// The strip is drawn on the output the pointer is on, above everything else.
pub open spec fn strip_steps(state: MoveGrabState, here: bool) -> Seq<RenderStep> {
    match state.snap_strip {
        Some(strip) if here => seq![RenderStep::Strip { location: strip.bounds().loc }],
        _ => seq![],
    }
}

/// The stack hover.
pub open spec fn hover_steps(state: MoveGrabState) -> Seq<RenderStep> {
    match state.stacking_indicator {
        Some(hover) => seq![RenderStep::StackHover { location: hover.loc }],
        None => seq![],
    }
}

/// The outline of the window, unless it has no thickness.
pub open spec fn focus_steps(state: MoveGrabState, geometry: Rectangle) -> Seq<RenderStep> {
    if state.indicator_thickness > 0 {
        seq![RenderStep::FocusIndicator { geometry, thickness: state.indicator_thickness }]
    } else {
        seq![]
    }
}

/// The preview is drawn on the output the pointer is on, below the window. Its outline is at
/// least a pixel thick.
pub open spec fn preview_steps(
    state: MoveGrabState,
    here: bool,
    preview: Option<Rectangle>,
) -> Seq<RenderStep> {
    match preview {
        Some(geometry) if here => {
            let thickness = if state.indicator_thickness > 1 {
                state.indicator_thickness
            } else {
                1
            };
            seq![
                RenderStep::SnapIndicator { geometry, thickness },
                RenderStep::SnapBackdrop { geometry },
            ]
        },
        _ => seq![],
    }
}

/// What is previewed is what a release does: the window is snapped to the rectangle that is shown,
/// and stays where it is if none is. A cell that is aimed at is never passed over.
pub proof fn law_preview_is_what_a_release_does(
    state: MoveGrabState,
    area: Rectangle,
    inner: int,
    r: Rectangle,
)
    requires
        state.consistent(),
    ensures
        match state.arrangement(state.previous) {
            Arrange::Stay => !state.has_preview(),
            Arrange::SnapToCell { cell } => state.has_preview() && (state.previews(area, inner, r)
                <==> cell.lands_on(area, inner, r)),
            Arrange::Maximize => state.has_preview() && (state.previews(area, inner, r) <==> r
                == area),
            Arrange::SnapToZone { zone } => state.has_preview() && (state.previews(area, inner, r)
                <==> zone.lands_on(area, inner, r)),
        },
        state.snap_pick is Some ==> state.arrangement(state.previous) is SnapToCell,
{
}

/// A window is drawn at its real size or, as it leaves the tiling layer, smaller, but never at
/// less than three fifths; and it only ever shrinks.
pub proof fn law_windows_only_shrink(previous: ManagedLayer, earlier: u64, later: u64)
    requires
        earlier <= later,
    ensures
        ({
            let a = drawn_scale(previous, earlier);
            let b = drawn_scale(previous, later);
            &&& b.is_part()
            &&& 3 * b.den <= 5 * b.num
            &&& b.num * a.den <= a.num * b.den
        }),
        previous == ManagedLayer::Tiling && later >= RESCALE_ANIMATION_DURATION ==> 5 * drawn_scale(
            previous,
            later,
        ).num == 3 * drawn_scale(previous, later).den,
        previous != ManagedLayer::Tiling || later == 0 ==> drawn_scale(previous, later).num
            == drawn_scale(previous, later).den,
{
    let a = drawn_scale(previous, earlier);
    let b = drawn_scale(previous, later);
    assert(b.num * a.den <= a.num * b.den) by (nonlinear_arith)
        requires
            a.den == b.den,
            b.num <= a.num,
    ;
}

/// However small the window is drawn, the pointer stays at the same place of it: the way from
/// the pointer to the corner shrinks with the window.
pub proof fn law_window_is_drawn_around_the_pointer(state: MoveGrabState, scene: RenderScene)
    requires
        fits(state.location.x - scene.output_geometry.loc.x),
        fits(state.location.y - scene.output_geometry.loc.y),
        fits(state.location.x - scene.output_geometry.loc.x + state.window_offset.x),
        fits(state.location.y - scene.output_geometry.loc.y + state.window_offset.y),
    ensures
        ({
            let scale = drawn_scale(state.previous, scene.elapsed);
            let drawn = state.drawn_at(scene);
            &&& drawn.x == state.location.x - scene.output_geometry.loc.x + scale.of(
                state.window_offset.x as int,
            )
            &&& drawn.y == state.location.y - scene.output_geometry.loc.y + scale.of(
                state.window_offset.y as int,
            )
        }),
{
    let scale = drawn_scale(state.previous, scene.elapsed);
    lemma_scaled_down(state.window_offset.x as int, scale.num as int, scale.den as int);
    lemma_scaled_down(state.window_offset.y as int, scale.num as int, scale.den as int);
}

/// The cell that the state aims at, if its pick names one that is on offer.
pub open spec fn aimed_cell(state: MoveGrabState) -> Option<SnapCell> {
    match state.snap_pick {
        Some((l, c)) => if l < all_cells().len() && c < all_cells()[l as int].len() {
            Some(all_cells()[l as int][c as int])
        } else {
            None
        },
        None => None,
    }
}

/// What is previewed is the rectangle of the cell that is aimed at, or else that of the zone, and
/// nothing where there is neither.
pub proof fn law_the_preview_is_the_cell_or_the_zone(
    state: MoveGrabState,
    area: Rectangle,
    inner: int,
    r: Rectangle,
)
    ensures
        state.has_preview() <==> aimed_cell(state) is Some || state.snapping_zone is Some,
        aimed_cell(state) matches Some(cell) ==> (state.previews(area, inner, r)
            <==> cell.lands_on(area, inner, r)),
        aimed_cell(state) is None ==> (state.snapping_zone matches Some(zone) ==> (state.previews(
            area,
            inner,
            r,
        ) <==> zone.lands_on(area, inner, r))),
        aimed_cell(state) is None && state.snapping_zone is None ==> !state.previews(
            area,
            inner,
            r,
        ),
{
}

/// A move is drawn on an output exactly if a pixel of the window, where it is held, is on it.
pub proof fn law_a_move_is_drawn_where_the_window_reaches(
    state: MoveGrabState,
    scene: RenderScene,
    plan: Option<RenderPlan>,
)
    requires
        state.is_drawn(scene, plan),
        scene.output_geometry.valid(),
        scene.window_geometry.valid(),
        fits(scene.output_geometry.loc.x + scene.output_geometry.size.w),
        fits(scene.output_geometry.loc.y + scene.output_geometry.size.h),
        fits(state.location.x + state.window_offset.x),
        fits(state.location.y + state.window_offset.y),
        fits(scene.window_geometry.loc.x + state.location.x + state.window_offset.x),
        fits(scene.window_geometry.loc.y + state.location.y + state.window_offset.y),
        fits(
            scene.window_geometry.loc.x + state.location.x + state.window_offset.x
                + scene.window_geometry.size.w,
        ),
        fits(
            scene.window_geometry.loc.y + state.location.y + state.window_offset.y
                + scene.window_geometry.size.h,
        ),
    ensures
        ({
            let x = scene.window_geometry.loc.x + state.location.x + state.window_offset.x;
            let y = scene.window_geometry.loc.y + state.location.y + state.window_offset.y;
            let size = scene.window_geometry.size;
            let o = scene.output_geometry;
            plan is Some <==> o.loc.x < x + size.w && x < o.loc.x + o.size.w && o.loc.y < y + size.h
                && y < o.loc.y + o.size.h
        }),
{
}

/// How large and how opaque a window is drawn. One that leaves the tiling layer loses two fifths
/// of its size evenly within 150 milliseconds, the others nothing; and it is opaque on the output
/// of the pointer and at two fifths on the others.
pub proof fn law_size_and_opacity_of_a_window(
    state: MoveGrabState,
    scene: RenderScene,
    plan: RenderPlan,
)
    requires
        state.is_drawn(scene, Some(plan)),
    ensures
        ({
            let passed = if scene.elapsed < 150 {
                scene.elapsed as int
            } else {
                150
            };
            &&& plan.scale.den > 0
            &&& state.previous == ManagedLayer::Tiling ==> 5 * 150 * (plan.scale.den
                - plan.scale.num) == 2 * passed * plan.scale.den
            &&& state.previous != ManagedLayer::Tiling ==> plan.scale.num == plan.scale.den
            &&& plan.alpha.den > 0
            &&& state.cursor_output == scene.output ==> plan.alpha.num == plan.alpha.den
            &&& state.cursor_output != scene.output ==> 5 * plan.alpha.num == 2 * plan.alpha.den
        }),
{
    if state.previous == ManagedLayer::Tiling {
        let passed = if scene.elapsed < 150 {
            scene.elapsed as int
        } else {
            150
        };
        let den = plan.scale.den as int;
        assert(den == 375 && plan.scale.num == 375 - passed);
        assert(2 * passed * den == 750 * passed) by (nonlinear_arith)
            requires
                den == 375,
        ;
    }
}

/// How far down something is drawn.
pub open spec fn depth(step: RenderStep) -> int {
    match step {
        RenderStep::Strip { .. } => 0,
        RenderStep::StackHover { .. } => 1,
        RenderStep::Popups { .. } => 2,
        RenderStep::FocusIndicator { .. } => 3,
        RenderStep::Window { .. } => 4,
        RenderStep::SnapIndicator { .. } => 5,
        RenderStep::SnapBackdrop { .. } => 6,
    }
}

/// What is drawn of a move lies in order, each thing once: the strip on top, then the stack hover,
/// the popups, the outline, the window, and the outline and the filling of the preview. The
/// popups and the window are always there; the strip and the preview only on the output of the
/// pointer.
pub proof fn law_everything_is_drawn_once_and_in_order(
    state: MoveGrabState,
    scene: RenderScene,
    plan: RenderPlan,
)
    requires
        state.is_drawn(scene, Some(plan)),
    ensures
        ({
            let here = state.cursor_output == scene.output;
            let steps = plan.steps@;
            let one = |b: bool|
                if b {
                    1int
                } else {
                    0int
                };
            &&& forall|a: int, b: int|
                #![trigger steps[a], steps[b]]
                0 <= a < b < steps.len() ==> depth(steps[a]) < depth(steps[b])
            &&& steps.len() == 2 + one(here && state.snap_strip is Some) + one(
                state.stacking_indicator is Some,
            ) + one(state.indicator_thickness > 0) + 2 * one(
                here && (aimed_cell(state) is Some || state.snapping_zone is Some),
            )
        }),
{
    lemma_preview_of(state, scene, plan);
}

/// The preview that a plan draws.
proof fn lemma_preview_of(state: MoveGrabState, scene: RenderScene, plan: RenderPlan) -> (preview:
    Option<Rectangle>)
    requires
        state.is_drawn(scene, Some(plan)),
    ensures
        plan.steps@ == state.drawn_steps(scene, preview),
        preview is Some <==> state.has_preview(),
        preview matches Some(r) ==> state.previews(scene.work_area, scene.gaps.1 as int, r),
{
    if state.has_preview() {
        let r = choose|r: Rectangle|
            #![trigger state.drawn_steps(scene, Some(r))]
            state.previews(scene.work_area, scene.gaps.1 as int, r) && plan.steps@
                == state.drawn_steps(scene, Some(r));
        Some(r)
    } else {
        None
    }
}

/// Where each thing is drawn. The strip and the stack hover are where they are. The corner of the
/// window shrinks towards the pointer, which stays at the same place of it: the outline begins at
/// that corner and is as large as the window is drawn, and the window and its popups are placed so
/// that the window's own geometry begins there. The preview is the rectangle that a release snaps
/// the window to, outlined at least a pixel thick.
pub proof fn law_where_each_thing_is_drawn(
    state: MoveGrabState,
    scene: RenderScene,
    plan: RenderPlan,
    a: int,
)
    requires
        state.is_drawn(scene, Some(plan)),
        0 <= a < plan.steps@.len(),
        fits(state.location.x - scene.output_geometry.loc.x),
        fits(state.location.y - scene.output_geometry.loc.y),
        fits(state.location.x - scene.output_geometry.loc.x + state.window_offset.x),
        fits(state.location.y - scene.output_geometry.loc.y + state.window_offset.y),
        fits(
            state.location.x - scene.output_geometry.loc.x + plan.scale.of(
                state.window_offset.x as int,
            ) - scene.window_geometry.loc.x,
        ),
        fits(
            state.location.y - scene.output_geometry.loc.y + plan.scale.of(
                state.window_offset.y as int,
            ) - scene.window_geometry.loc.y,
        ),
    ensures
        ({
            let x = state.location.x - scene.output_geometry.loc.x + plan.scale.of(
                state.window_offset.x as int,
            );
            let y = state.location.y - scene.output_geometry.loc.y + plan.scale.of(
                state.window_offset.y as int,
            );
            let own = scene.window_geometry;
            let here = state.cursor_output == scene.output;
            match plan.steps@[a] {
                RenderStep::Strip { location } => here && (state.snap_strip matches Some(strip)
                    && location == strip.bounds().loc),
                RenderStep::StackHover { location } => state.stacking_indicator matches Some(hover)
                    && location == hover.loc,
                RenderStep::Popups { location } => location.x + own.loc.x == x && location.y
                    + own.loc.y == y,
                RenderStep::Window { location, origin } => location.x + own.loc.x == x && location.y
                    + own.loc.y == y && origin.x == x && origin.y == y,
                RenderStep::FocusIndicator { geometry, thickness } => {
                    &&& thickness == state.indicator_thickness
                    &&& thickness > 0
                    &&& geometry.loc.x == x
                    &&& geometry.loc.y == y
                    &&& geometry.size.w == plan.scale.of(own.size.w as int)
                    &&& geometry.size.h == plan.scale.of(own.size.h as int)
                },
                RenderStep::SnapIndicator { geometry, thickness } => {
                    &&& here
                    &&& thickness >= 1
                    &&& thickness == state.indicator_thickness || (state.indicator_thickness == 0
                        && thickness == 1)
                    &&& state.previews(scene.work_area, scene.gaps.1 as int, geometry)
                },
                RenderStep::SnapBackdrop { geometry } => {
                    &&& here
                    &&& state.previews(scene.work_area, scene.gaps.1 as int, geometry)
                    &&& a > 0
                    &&& plan.steps@[a - 1] matches RenderStep::SnapIndicator {
                        geometry: outlined,
                        ..
                    }
                    &&& outlined == geometry
                },
            }
        }),
{
    lemma_preview_of(state, scene, plan);
    law_window_is_drawn_around_the_pointer(state, scene);
    lemma_scaled_down(
        scene.window_geometry.size.w as int,
        plan.scale.num as int,
        plan.scale.den as int,
    );
    lemma_scaled_down(
        scene.window_geometry.size.h as int,
        plan.scale.num as int,
        plan.scale.den as int,
    );
}

} // verus!
