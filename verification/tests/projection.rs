//! Screen projection on concrete cameras.

use scale_gizmo::fixed::ONE;
use scale_gizmo::projection::{world_to_screen, Mat4, Rect, ScreenPos, Vec3};

fn identity() -> Mat4 {
    Mat4 {
        m00: ONE, m01: 0, m02: 0, m03: 0,
        m10: 0, m11: ONE, m12: 0, m13: 0,
        m20: 0, m21: 0, m22: ONE, m23: 0,
        m30: 0, m31: 0, m32: 0, m33: ONE,
    }
}

fn viewport_800_600() -> Rect {
    Rect { min_x: 0, min_y: 0, max_x: 800 * ONE, max_y: 600 * ONE }
}

#[test]
fn identity_projects_origin_to_center() {
    let r = world_to_screen(viewport_800_600(), identity(), Vec3 { x: 0, y: 0, z: 0 });
    assert_eq!(r, Some(ScreenPos { x: 400 * ONE, y: 300 * ONE }));
}

#[test]
fn identity_projects_unit_x_to_right_edge() {
    let r = world_to_screen(viewport_800_600(), identity(), Vec3 { x: ONE, y: 0, z: 0 });
    assert_eq!(r, Some(ScreenPos { x: 800 * ONE, y: 300 * ONE }));
}

#[test]
fn screen_y_grows_downward() {
    // World +Y maps toward the top of the screen.
    let r = world_to_screen(viewport_800_600(), identity(), Vec3 { x: 0, y: ONE, z: 0 });
    assert_eq!(r, Some(ScreenPos { x: 400 * ONE, y: 0 }));
}

#[test]
fn point_behind_camera_does_not_project() {
    let mut mvp = identity();
    mvp.m33 = -ONE;
    let r = world_to_screen(viewport_800_600(), mvp, Vec3 { x: 0, y: 0, z: 0 });
    assert_eq!(r, None);
}

#[test]
fn degenerate_w_does_not_project() {
    let mut mvp = identity();
    mvp.m33 = 0;
    let r = world_to_screen(viewport_800_600(), mvp, Vec3 { x: 0, y: 0, z: 0 });
    assert_eq!(r, None);
}

#[test]
fn result_far_outside_screen_range_does_not_project() {
    // A huge off-center translation pushes the origin past the coordinate
    // range: that stands for "projects to infinity".
    let mut mvp = identity();
    mvp.m03 = 0x100_0000_0000;
    let r = world_to_screen(viewport_800_600(), mvp, Vec3 { x: 0, y: 0, z: 0 });
    assert_eq!(r, None);
}
