//! Pick, update and draw on the scenario camera: viewport 800x600, identity
//! view-projection, so the scene origin projects to the screen center
//! (400, 300).

use scale_gizmo::fixed::{ONE, SCALE_ONE};
use scale_gizmo::gizmo::{
    DrawPrimitive, GizmoConfig, GizmoDirection, GizmoMode, GizmoResult, Ray, Scale,
    ScaleState, ShapeTestKind, ShapeTestResult, TransformKind,
};
use scale_gizmo::projection::{Mat4, Rect, ScreenPos, Vec3};

fn identity() -> Mat4 {
    Mat4 {
        m00: ONE, m01: 0, m02: 0, m03: 0,
        m10: 0, m11: ONE, m12: 0, m13: 0,
        m20: 0, m21: 0, m22: ONE, m23: 0,
        m30: 0, m31: 0, m32: 0, m33: ONE,
    }
}

fn config(snapping: bool) -> GizmoConfig {
    GizmoConfig {
        viewport: Rect { min_x: 0, min_y: 0, max_x: 800 * ONE, max_y: 600 * ONE },
        view_projection: identity(),
        snapping,
        snap_scale: SCALE_ONE / 4,
    }
}

fn axis_handle(snapping: bool) -> Scale {
    Scale::new(config(snapping), GizmoMode::Scale, GizmoDirection::X, TransformKind::Axis)
}

fn ray_at(x: i64, y: i64) -> Ray {
    Ray {
        origin: Vec3 { x: 0, y: 0, z: -10 * ONE },
        direction: Vec3 { x: 0, y: 0, z: ONE },
        screen_pos: ScreenPos { x: x * ONE, y: y * ONE },
    }
}

fn hit(t: i64) -> ShapeTestResult {
    ShapeTestResult { picked: true, t, visibility: ONE }
}

fn miss(visibility: i64) -> ShapeTestResult {
    ShapeTestResult { picked: false, t: 0, visibility }
}

/// Picks at (500, 300), one hundred pixels right of the projected origin.
fn picked_handle(snapping: bool) -> Scale {
    let mut handle = axis_handle(snapping);
    let r = handle.pick(ray_at(500, 300), hit(77));
    assert_eq!(r, Some(77));
    handle
}

#[test]
fn pick_records_state_even_on_a_miss() {
    let mut handle = axis_handle(false);
    let r = handle.pick(ray_at(500, 300), miss(29491));
    assert_eq!(r, None);
    assert_eq!(
        handle.state,
        ScaleState { start_pos: ScreenPos { x: 500 * ONE, y: 300 * ONE }, start_delta: 100 * ONE }
    );
    assert_eq!(handle.opacity, 29491);
}

#[test]
fn pick_returns_the_hit_parameter_on_a_hit() {
    let mut handle = axis_handle(false);
    let r = handle.pick(ray_at(500, 300), hit(1234));
    assert_eq!(r, Some(1234));
    assert_eq!(handle.state.start_delta, 100 * ONE);
}

#[test]
fn pick_fails_when_origin_is_unprojectable() {
    let mut cfg = config(false);
    cfg.view_projection.m33 = -ONE;
    let mut handle =
        Scale::new(cfg, GizmoMode::Scale, GizmoDirection::X, TransformKind::Axis);
    let before = handle;
    let r = handle.pick(ray_at(500, 300), hit(7));
    assert_eq!(r, None);
    // A hard failure: even the bookkeeping state is left untouched.
    assert_eq!(handle, before);
}

#[test]
fn update_fails_when_origin_is_unprojectable() {
    let mut handle = picked_handle(false);
    handle.config.view_projection.m33 = -ONE;
    assert_eq!(handle.update(ray_at(600, 300)), None);
}

#[test]
fn pointer_on_the_projected_origin_is_not_pickable() {
    let mut handle = axis_handle(false);
    let r = handle.pick(ray_at(400, 300), hit(7));
    assert_eq!(r, None);
    assert_eq!(handle.state.start_delta, 0);
    // And the degenerate reference state never produces a delta.
    assert_eq!(handle.update(ray_at(600, 300)), None);
}

#[test]
fn update_before_any_pick_yields_nothing() {
    let handle = axis_handle(false);
    assert_eq!(handle.update(ray_at(600, 300)), None);
}

#[test]
fn no_motion_keeps_the_identity_scale() {
    let handle = picked_handle(false);
    let r = handle.update(ray_at(500, 300));
    let GizmoResult::Scale { total } = r.expect("origin projects");
    assert_eq!(total, Vec3 { x: SCALE_ONE, y: SCALE_ONE, z: SCALE_ONE });
}

#[test]
fn unit_drag_out_scales_by_the_golden_ratio() {
    let handle = picked_handle(false);
    let r = handle.update(ray_at(600, 300));
    let GizmoResult::Scale { total } = r.expect("origin projects");
    assert_eq!(total.x, 212079);
    assert_eq!(total.y, total.x);
    assert_eq!(total.z, total.x);
    let real = total.x as f64 / SCALE_ONE as f64;
    assert!((real - 1.618034).abs() < 1e-4);
}

#[test]
fn unit_drag_back_shrinks_by_the_golden_ratio() {
    let handle = picked_handle(false);
    let r = handle.update(ray_at(400, 300));
    let GizmoResult::Scale { total } = r.expect("origin projects");
    assert_eq!(total.x, 81007);
    assert_eq!(total.y, total.x);
    assert_eq!(total.z, total.x);
    let real = total.x as f64 / SCALE_ONE as f64;
    assert!((real - 0.618034).abs() < 1e-4);
}

#[test]
fn snapping_quantizes_the_factor() {
    let handle = picked_handle(true);
    let r = handle.update(ray_at(600, 300));
    let GizmoResult::Scale { total } = r.expect("origin projects");
    // The raw factor of about 1.618 snaps to 1.5 with a 0.25 interval.
    assert_eq!(total.x, 3 * SCALE_ONE / 2);
    assert_eq!(total.y, total.x);
    assert_eq!(total.z, total.x);
}

#[test]
fn unsnapped_factor_never_reaches_zero_but_snapping_may() {
    // A drag far past the origin, to eight reference distances on the
    // other side: the raw factor is tiny yet still positive, while the
    // 0.25 snap interval quantizes it to exactly zero.
    let raw = picked_handle(false);
    let GizmoResult::Scale { total } = raw.update(ray_at(-300, 300)).expect("origin projects");
    assert_eq!(total.x, 16136);
    assert!(total.x > 0);
    let snapped = picked_handle(true);
    let GizmoResult::Scale { total } =
        snapped.update(ray_at(-300, 300)).expect("origin projects");
    assert_eq!(total.x, 0);
}

#[test]
fn off_axis_motion_does_not_scale() {
    // Motion perpendicular to the reference direction projects to zero.
    let handle = picked_handle(false);
    let r = handle.update(ray_at(500, 350));
    let GizmoResult::Scale { total } = r.expect("origin projects");
    assert_eq!(total.x, SCALE_ONE);
}

#[test]
fn shape_test_dispatch_follows_the_variant() {
    let axis = axis_handle(false);
    assert_eq!(
        axis.shape_test_kind(),
        ShapeTestKind::Arrow { direction: GizmoDirection::X, mode: GizmoMode::Scale }
    );
    let view_plane =
        Scale::new(config(false), GizmoMode::Scale, GizmoDirection::View, TransformKind::Plane);
    assert_eq!(view_plane.shape_test_kind(), ShapeTestKind::ViewCircle);
    let plane =
        Scale::new(config(false), GizmoMode::Scale, GizmoDirection::Z, TransformKind::Plane);
    assert_eq!(plane.shape_test_kind(), ShapeTestKind::Plane { direction: GizmoDirection::Z });
}

#[test]
fn draw_dispatch_follows_the_variant() {
    let mut axis = axis_handle(false);
    axis.focused = true;
    axis.opacity = ONE / 2;
    assert_eq!(
        axis.draw(),
        DrawPrimitive::Arrow {
            direction: GizmoDirection::X,
            mode: GizmoMode::Scale,
            opacity: ONE / 2,
            focused: true,
        }
    );
    let view_plane =
        Scale::new(config(false), GizmoMode::Scale, GizmoDirection::View, TransformKind::Plane);
    assert_eq!(view_plane.draw(), DrawPrimitive::ViewCircle { focused: false });
    let mut plane =
        Scale::new(config(false), GizmoMode::Scale, GizmoDirection::Y, TransformKind::Plane);
    plane.opacity = ONE / 4;
    assert_eq!(
        plane.draw(),
        DrawPrimitive::Plane { direction: GizmoDirection::Y, opacity: ONE / 4, focused: false }
    );
}

#[test]
fn pick_distance_comes_from_both_axes() {
    // Pointer at (430, 340): 30 right and 40 below the origin, 50 away.
    let mut handle = axis_handle(false);
    handle.pick(ray_at(430, 340), miss(0));
    assert_eq!(handle.state.start_delta, 50 * ONE);
    assert_eq!(handle.origin_2d(), Some(ScreenPos { x: 400 * ONE, y: 300 * ONE }));
    assert_eq!(
        handle.distance_from_origin_2d(ScreenPos { x: 430 * ONE, y: 340 * ONE }),
        Some(50 * ONE)
    );
}
