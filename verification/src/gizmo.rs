//! The uniform-scale handle: picking, drag-to-scale updating, and draw
//! dispatch.
//!
//! The handle never performs shape intersection or rendering itself; both
//! are external collaborators.  [`Scale::shape_test_kind`] says which shape
//! test the current variant needs, the tester's verdict comes back in as a
//! [`ShapeTestResult`], and [`Scale::draw`] returns a descriptor of the
//! primitive to render.

use vstd::prelude::*;
use crate::fixed::{
    spec_scale_map, spec_round_to_interval, sqrt_floor, lemma_sqrt_floor_unique,
    scale_map, round_to_interval, isqrt, ONE, RATIO_LIMIT, FACTOR_LIMIT,
};
use crate::projection::{
    spec_world_to_screen, world_to_screen, floor_div, Mat4, Rect, ScreenPos, Vec3, DIV_LIMIT,
};

verus! {

/// Which transform family the handle manipulates; carried through to the
/// arrow tester and drawer, which style the arrow by it.
#[derive(Clone, Copy, Debug, PartialEq, Eq, Structural)]
pub enum GizmoMode {
    Translate,
    Rotate,
    Scale,
}

/// The handle's cardinal direction, or the camera-facing view direction.
#[derive(Clone, Copy, Debug, PartialEq, Eq, Structural)]
pub enum GizmoDirection {
    X,
    Y,
    Z,
    View,
}

/// The handle's geometric kind: an axis-aligned line or a planar patch
/// (a view-aligned planar handle renders as a ring).
#[derive(Clone, Copy, Debug, PartialEq, Eq, Structural)]
pub enum TransformKind {
    Axis,
    Plane,
}

/// A ray: 3D origin and direction plus the 2D screen position it came from.
/// Supplied fresh every frame by the input collaborator; this core reads
/// only the screen position.
#[derive(Clone, Copy, Debug, PartialEq, Eq, Structural)]
pub struct Ray {
    pub origin: Vec3,
    pub direction: Vec3,
    pub screen_pos: ScreenPos,
}

/// Per-frame shared context: viewport, view-projection matrix and the
/// snapping configuration, owned and refreshed by the owning controller.
#[derive(Clone, Copy, Debug, PartialEq, Eq, Structural)]
pub struct GizmoConfig {
    pub viewport: Rect,
    pub view_projection: Mat4,
    pub snapping: bool,
    /// Snap interval for scale factors, in `SCALE_ONE` units.
    pub snap_scale: i64,
}

impl GizmoConfig {
    /// Geometry within range, and a positive snap interval when snapping.
    pub open spec fn wf(&self) -> bool {
        &&& self.viewport.wf()
        &&& self.view_projection.wf()
        &&& self.snapping ==> 1 <= self.snap_scale <= FACTOR_LIMIT
    }
}

/// What the external shape tester reported for this frame's ray: whether
/// the handle was hit, the hit parameter used for depth ordering, and a
/// continuous visibility score (Q16, 0 to 1) for hover highlighting.
#[derive(Clone, Copy, Debug, PartialEq, Eq, Structural)]
pub struct ShapeTestResult {
    pub picked: bool,
    pub t: i64,
    pub visibility: i64,
}

/// Which shape test the handle's variant requires.
#[derive(Clone, Copy, Debug, PartialEq, Eq, Structural)]
pub enum ShapeTestKind {
    /// A circle at the outer gizmo radius, for a view-aligned planar handle.
    ViewCircle,
    /// A quad oriented by the given direction.
    Plane { direction: GizmoDirection },
    /// An arrow oriented by the given direction, styled by the mode.
    Arrow { direction: GizmoDirection, mode: GizmoMode },
}

/// A draw primitive descriptor for the external rendering backend.
#[derive(Clone, Copy, Debug, PartialEq, Eq, Structural)]
pub enum DrawPrimitive {
    /// An oriented arrow; color and opacity come from the visual state,
    /// length and style from the manipulation mode.
    Arrow { direction: GizmoDirection, mode: GizmoMode, opacity: i64, focused: bool },
    /// The outer ring at a fixed screen radius, colored from the focus flag.
    ViewCircle { focused: bool },
    /// An oriented quad patch.
    Plane { direction: GizmoDirection, opacity: i64, focused: bool },
}

/// The transform delta of one update call: a uniform scale carried as a
/// 3-vector whose components are all equal, in `SCALE_ONE` units.
#[derive(Clone, Copy, Debug, PartialEq, Eq, Structural)]
pub enum GizmoResult {
    Scale { total: Vec3 },
}

/// Drag reference state, recorded at pick time and read-only during update:
/// the pointer's screen position, and its distance (Q16) from the projected
/// scene origin.
#[derive(Clone, Copy, Debug, PartialEq, Eq, Structural)]
pub struct ScaleState {
    pub start_pos: ScreenPos,
    pub start_delta: i64,
}

/// One uniform-scale sub-gizmo handle: immutable configuration, the visual
/// state shared with the owning controller, and the drag reference state.
#[derive(Clone, Copy, Debug, PartialEq, Eq, Structural)]
pub struct Scale {
    /// Per-frame shared context, refreshed by the owning controller.
    pub config: GizmoConfig,
    /// Which transform family this handle manipulates.
    pub mode: GizmoMode,
    /// The handle's direction.
    pub direction: GizmoDirection,
    /// Line or planar handle.
    pub transform_kind: TransformKind,
    /// Continuous visibility score (Q16), written by pick.
    pub opacity: i64,
    /// Focus flag, written by the owning controller.
    pub focused: bool,
    /// Drag reference state, written by pick.
    pub state: ScaleState,
}

/// Where the scene origin lands on screen under this configuration.
pub open spec fn spec_origin_2d(config: GizmoConfig) -> Option<ScreenPos> {
    spec_world_to_screen(config.viewport, config.view_projection, Vec3 { x: 0, y: 0, z: 0 })
}

/// The rounded-down Euclidean distance between two screen positions.
pub open spec fn spec_screen_distance(a: ScreenPos, b: ScreenPos) -> int {
    sqrt_floor((a.x - b.x) * (a.x - b.x) + (a.y - b.y) * (a.y - b.y))
}

/// The pointer's distance to the projected scene origin, when the origin
/// projects at all.
pub open spec fn spec_distance_from_origin_2d(config: GizmoConfig, cursor_pos: ScreenPos) -> Option<
    int,
> {
    match spec_origin_2d(config) {
        None => None,
        Some(origin) => Some(spec_screen_distance(cursor_pos, origin)),
    }
}

/// The shape-test dispatch table: a view-aligned planar handle uses the
/// outer circle, any other planar handle a quad, an axis handle an arrow.
pub open spec fn spec_shape_test_kind(s: Scale) -> ShapeTestKind {
    match (s.transform_kind, s.direction) {
        (TransformKind::Plane, GizmoDirection::View) => ShapeTestKind::ViewCircle,
        (TransformKind::Plane, _) => ShapeTestKind::Plane { direction: s.direction },
        (TransformKind::Axis, _) => ShapeTestKind::Arrow { direction: s.direction, mode: s.mode },
    }
}

/// The draw dispatch table, the mirror image of the shape-test table.
pub open spec fn spec_draw(s: Scale) -> DrawPrimitive {
    match (s.transform_kind, s.direction) {
        (TransformKind::Axis, _) => DrawPrimitive::Arrow {
            direction: s.direction,
            mode: s.mode,
            opacity: s.opacity,
            focused: s.focused,
        },
        (TransformKind::Plane, GizmoDirection::View) => DrawPrimitive::ViewCircle {
            focused: s.focused,
        },
        (TransformKind::Plane, _) => DrawPrimitive::Plane {
            direction: s.direction,
            opacity: s.opacity,
            focused: s.focused,
        },
    }
}

/// The update computation, exactly as performed.  `None` when the scene
/// origin does not project, when the pick-time pointer coincides with the
/// projected origin (the reference direction would be undefined), or when
/// no successful pick has recorded a positive start distance.
pub open spec fn spec_update(s: Scale, ray: Ray) -> Option<GizmoResult> {
    match spec_origin_2d(s.config) {
        None => None,
        Some(origin) => {
            let vx = s.state.start_pos.x - origin.x;
            let vy = s.state.start_pos.y - origin.y;
            let len = sqrt_floor(vx * vx + vy * vy);
            if len == 0 || s.state.start_delta <= 0 {
                None
            } else {
                let cx = ray.screen_pos.x - s.state.start_pos.x;
                let cy = ray.screen_pos.y - s.state.start_pos.y;
                let dot = (vx * cx + vy * cy) / len;
                let d0 = (dot * ONE) / (s.state.start_delta as int);
                let d = if d0 > RATIO_LIMIT {
                    RATIO_LIMIT as int
                } else if d0 < -RATIO_LIMIT {
                    -RATIO_LIMIT as int
                } else {
                    d0
                };
                let factor0 = spec_scale_map(d);
                let factor = if s.config.snapping {
                    spec_round_to_interval(factor0, s.config.snap_scale as int)
                } else {
                    factor0
                };
                Some(
                    GizmoResult::Scale {
                        total: Vec3 { x: factor as i64, y: factor as i64, z: factor as i64 },
                    },
                )
            }
        }
    }
}

impl Scale {
    /// Configuration in range, and the recorded drag state in range.
    pub open spec fn wf(&self) -> bool {
        &&& self.config.wf()
        &&& self.state.start_pos.wf()
        &&& 0 <= self.state.start_delta <= 0x1_0000_0000
    }

    /// A fresh handle for the given variant, with no drag state recorded.
    pub fn new(
        config: GizmoConfig,
        mode: GizmoMode,
        direction: GizmoDirection,
        transform_kind: TransformKind,
    ) -> (s: Scale)
        ensures
            s == (Scale {
                config,
                mode,
                direction,
                transform_kind,
                opacity: 0,
                focused: false,
                state: ScaleState { start_pos: ScreenPos { x: 0, y: 0 }, start_delta: 0 },
            }),
            config.wf() ==> s.wf(),
    {
        Scale {
            config,
            mode,
            direction,
            transform_kind,
            opacity: 0,
            focused: false,
            state: ScaleState { start_pos: ScreenPos { x: 0, y: 0 }, start_delta: 0 },
        }
    }

    /// Which shape test this handle's variant needs.
    pub fn shape_test_kind(&self) -> (k: ShapeTestKind)
        ensures
            k == spec_shape_test_kind(*self),
    {
        match (self.transform_kind, self.direction) {
            (TransformKind::Plane, GizmoDirection::View) => ShapeTestKind::ViewCircle,
            (TransformKind::Plane, _) => ShapeTestKind::Plane { direction: self.direction },
            (TransformKind::Axis, _) => ShapeTestKind::Arrow {
                direction: self.direction,
                mode: self.mode,
            },
        }
    }

    /// The screen position of the scene origin under the current camera;
    /// recomputed every frame, never cached, since the camera may move
    /// between pick and update.
    pub fn origin_2d(&self) -> (r: Option<ScreenPos>)
        requires
            self.config.wf(),
        ensures
            r == spec_origin_2d(self.config),
            r matches Some(p) ==> p.wf(),
    {
        world_to_screen(self.config.viewport, self.config.view_projection, Vec3::zero())
    }

    /// The pointer's distance to the projected scene origin; `None` exactly
    /// when the origin does not project.
    pub fn distance_from_origin_2d(&self, cursor_pos: ScreenPos) -> (r: Option<i64>)
        requires
            self.config.wf(),
            cursor_pos.wf(),
        ensures
            match spec_distance_from_origin_2d(self.config, cursor_pos) {
                None => r is None,
                Some(d) => r == Some(d as i64) && 0 <= d <= 0x1_0000_0000,
            },
    {
        let origin = match self.origin_2d() {
            Some(o) => o,
            None => {
                return None;
            },
        };
        Some(screen_distance(cursor_pos, origin))
    }

    /// Pick: decide whether the pointer engages this handle, and seed the
    /// drag reference state.
    ///
    /// The caller runs the shape test named by [`Self::shape_test_kind`]
    /// and passes the verdict in.  If the scene origin does not project,
    /// the whole pick fails and the handle is left untouched.  Otherwise
    /// the drag state and the visibility score are recorded whether or not
    /// the shape test hit, and the hit parameter is returned only on a hit.
    /// A pointer exactly on the projected origin cannot seed a drag
    /// direction, so that pixel is never pickable.
    pub fn pick(&mut self, ray: Ray, shape_test: ShapeTestResult) -> (r: Option<i64>)
        requires
            old(self).wf(),
            ray.screen_pos.wf(),
        ensures
            final(self).wf(),
            final(self).config == old(self).config,
            final(self).mode == old(self).mode,
            final(self).direction == old(self).direction,
            final(self).transform_kind == old(self).transform_kind,
            final(self).focused == old(self).focused,
            spec_origin_2d(old(self).config) is None ==> *final(self) == *old(self) && r is None,
            spec_origin_2d(old(self).config) matches Some(origin) ==> {
                let sd = spec_screen_distance(ray.screen_pos, origin);
                &&& final(self).state.start_pos == ray.screen_pos
                &&& final(self).state.start_delta == sd
                &&& final(self).opacity == shape_test.visibility
                &&& r == if shape_test.picked && sd > 0 {
                    Some(shape_test.t)
                } else {
                    None::<i64>
                }
            },
    {
        let origin = match self.origin_2d() {
            Some(o) => o,
            None => {
                return None;
            },
        };
        let start_pos = ray.screen_pos;
        let start_delta = screen_distance(start_pos, origin);

        self.opacity = shape_test.visibility;
        self.state.start_pos = start_pos;
        self.state.start_delta = start_delta;

        if shape_test.picked && start_delta > 0 {
            Some(shape_test.t)
        } else {
            None
        }
    }

    /// Update: turn this frame's pointer position into a uniform scale
    /// delta.
    ///
    /// The reference direction runs from the current projected origin to
    /// the pick-time pointer position; the pointer's displacement since
    /// pick time is projected onto it, normalized by the pick-time
    /// origin distance, and mapped through the scale curve; the result is
    /// snapped when snapping is enabled.  `None` when the origin does not
    /// project this frame, or when no drag reference exists.
    pub fn update(&self, ray: Ray) -> (r: Option<GizmoResult>)
        requires
            self.wf(),
            ray.screen_pos.wf(),
        ensures
            r == spec_update(*self, ray),
            spec_origin_2d(self.config) is None ==> r is None,
            r matches Some(g) ==> (g matches GizmoResult::Scale { total }
                && total.x == total.y && total.y == total.z),
            // without snapping the factor stays strictly positive: the
            // object shrinks toward zero scale but never inverts through it
            !self.config.snapping ==> (r matches Some(g) ==> (g matches GizmoResult::Scale { total }
                && total.x >= 1)),
    {
        let origin = match self.origin_2d() {
            Some(o) => o,
            None => {
                return None;
            },
        };
        let vx = self.state.start_pos.x - origin.x;
        let vy = self.state.start_pos.y - origin.y;
        let vv = square_sum(vx, vy);
        let len = isqrt(vv);
        proof {
            lemma_sqrt_floor_unique(vv as int, len as int);
        }
        if len == 0 || self.state.start_delta <= 0 {
            return None;
        }
        let cx = ray.screen_pos.x - self.state.start_pos.x;
        let cy = ray.screen_pos.y - self.state.start_pos.y;
        proof {
            assert(-0x4000_0000_0000_0000 <= (vx as int) * (cx as int) <= 0x4000_0000_0000_0000)
                by (nonlinear_arith)
                requires
                    -0x8000_0000 <= vx <= 0x8000_0000,
                    -0x8000_0000 <= cx <= 0x8000_0000;
            assert(-0x4000_0000_0000_0000 <= (vy as int) * (cy as int) <= 0x4000_0000_0000_0000)
                by (nonlinear_arith)
                requires
                    -0x8000_0000 <= vy <= 0x8000_0000,
                    -0x8000_0000 <= cy <= 0x8000_0000;
        }
        let num = (vx as i128) * (cx as i128) + (vy as i128) * (cy as i128);
        let dot = floor_div(num, len as i128);
        proof {
            assert(-DIV_LIMIT <= dot * (ONE as int) <= DIV_LIMIT) by (nonlinear_arith)
                requires
                    -0x8000_0000_0000_0000 <= dot <= 0x8000_0000_0000_0000,
                    ONE == 65536,
                    DIV_LIMIT == 0x4000_0000_0000_0000_0000_0000_0000_0000;
        }
        let d_wide = floor_div(dot * (ONE as i128), self.state.start_delta as i128);
        let d: i64 = if d_wide > (RATIO_LIMIT as i128) {
            RATIO_LIMIT
        } else if d_wide < -(RATIO_LIMIT as i128) {
            -RATIO_LIMIT
        } else {
            d_wide as i64
        };
        let raw = scale_map(d);
        let factor = if self.config.snapping {
            round_to_interval(raw, self.config.snap_scale)
        } else {
            raw
        };
        Some(GizmoResult::Scale { total: Vec3 { x: factor, y: factor, z: factor } })
    }

    /// Draw dispatch: select and parameterize the primitive for the
    /// handle's variant from the current visual state.  Pure; callable at
    /// any time, before or after any pick.
    pub fn draw(&self) -> (p: DrawPrimitive)
        ensures
            p == spec_draw(*self),
    {
        match (self.transform_kind, self.direction) {
            (TransformKind::Axis, _) => DrawPrimitive::Arrow {
                direction: self.direction,
                mode: self.mode,
                opacity: self.opacity,
                focused: self.focused,
            },
            (TransformKind::Plane, GizmoDirection::View) => DrawPrimitive::ViewCircle {
                focused: self.focused,
            },
            (TransformKind::Plane, _) => DrawPrimitive::Plane {
                direction: self.direction,
                opacity: self.opacity,
                focused: self.focused,
            },
        }
    }
}

/// The sum of squares of two bounded differences, as a radicand.
fn square_sum(vx: i64, vy: i64) -> (r: u64)
    requires
        -0x8000_0000 <= vx <= 0x8000_0000,
        -0x8000_0000 <= vy <= 0x8000_0000,
    ensures
        r == vx * vx + vy * vy,
{
    proof {
        assert(0 <= (vx as int) * (vx as int) <= 0x4000_0000_0000_0000 && 0 <= (vy as int) * (
        vy as int) <= 0x4000_0000_0000_0000) by (nonlinear_arith)
            requires
                -0x8000_0000 <= vx <= 0x8000_0000,
                -0x8000_0000 <= vy <= 0x8000_0000;
    }
    let xx = (vx as i128) * (vx as i128);
    let yy = (vy as i128) * (vy as i128);
    (xx + yy) as u64
}

/// The rounded-down Euclidean distance between two screen positions.
fn screen_distance(a: ScreenPos, b: ScreenPos) -> (r: i64)
    requires
        a.wf(),
        b.wf(),
    ensures
        r == spec_screen_distance(a, b),
        0 <= r <= 0x1_0000_0000,
{
    let dx = a.x - b.x;
    let dy = a.y - b.y;
    let vv = square_sum(dx, dy);
    let root = isqrt(vv);
    proof {
        lemma_sqrt_floor_unique(vv as int, root as int);
    }
    root as i64
}

} // verus!
