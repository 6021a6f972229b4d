//! Screen projection: maps a 3D point through a view-projection matrix and a
//! viewport rectangle into 2D screen coordinates, all in Q16 fixed point.
//!
//! The projection fails (returns `None`) when the homogeneous W component is
//! not positive — the point is behind or at the camera — or when the result
//! lands so far outside the screen that it no longer fits the coordinate
//! range, which stands for "projects to infinity".

use vstd::prelude::*;
use vstd::arithmetic::div_mod::lemma_fundamental_div_mod_converse;
use crate::fixed::ONE;

verus! {

/// A screen position in Q16 fixed-point pixels.
#[derive(Clone, Copy, Debug, PartialEq, Eq, Structural)]
pub struct ScreenPos {
    pub x: i64,
    pub y: i64,
}

/// A point or direction in 3D world space, Q16 fixed point per component.
#[derive(Clone, Copy, Debug, PartialEq, Eq, Structural)]
pub struct Vec3 {
    pub x: i64,
    pub y: i64,
    pub z: i64,
}

/// A 4x4 view-projection matrix in row-major order, Q16 fixed point.
#[derive(Clone, Copy, Debug, PartialEq, Eq, Structural)]
pub struct Mat4 {
    pub m00: i64, pub m01: i64, pub m02: i64, pub m03: i64,
    pub m10: i64, pub m11: i64, pub m12: i64, pub m13: i64,
    pub m20: i64, pub m21: i64, pub m22: i64, pub m23: i64,
    pub m30: i64, pub m31: i64, pub m32: i64, pub m33: i64,
}

/// A viewport rectangle in Q16 fixed-point pixels.
#[derive(Clone, Copy, Debug, PartialEq, Eq, Structural)]
pub struct Rect {
    pub min_x: i64,
    pub min_y: i64,
    pub max_x: i64,
    pub max_y: i64,
}

/// Largest magnitude of a screen coordinate (16384 whole pixels).
pub const SCREEN_LIMIT: i64 = 0x4000_0000;

/// Largest magnitude of a matrix entry or world coordinate.
pub const WORLD_LIMIT: i64 = 0x100_0000_0000;

/// Dividend bound accepted by the Euclidean division helper.
pub const DIV_LIMIT: i128 = 0x4000_0000_0000_0000_0000_0000_0000_0000;

impl ScreenPos {
    /// The coordinates stay within the screen range.
    pub open spec fn wf(&self) -> bool {
        &&& -SCREEN_LIMIT <= self.x <= SCREEN_LIMIT
        &&& -SCREEN_LIMIT <= self.y <= SCREEN_LIMIT
    }
}

impl Vec3 {
    /// Every component stays within the world range.
    pub open spec fn wf(&self) -> bool {
        &&& -WORLD_LIMIT <= self.x <= WORLD_LIMIT
        &&& -WORLD_LIMIT <= self.y <= WORLD_LIMIT
        &&& -WORLD_LIMIT <= self.z <= WORLD_LIMIT
    }

    /// The origin of the scene.
    pub fn zero() -> (r: Vec3)
        ensures
            r == (Vec3 { x: 0, y: 0, z: 0 }),
    {
        Vec3 { x: 0, y: 0, z: 0 }
    }
}

impl Mat4 {
    /// Every entry stays within the world range.
    pub open spec fn wf(&self) -> bool {
        &&& -WORLD_LIMIT <= self.m00 <= WORLD_LIMIT
        &&& -WORLD_LIMIT <= self.m01 <= WORLD_LIMIT
        &&& -WORLD_LIMIT <= self.m02 <= WORLD_LIMIT
        &&& -WORLD_LIMIT <= self.m03 <= WORLD_LIMIT
        &&& -WORLD_LIMIT <= self.m10 <= WORLD_LIMIT
        &&& -WORLD_LIMIT <= self.m11 <= WORLD_LIMIT
        &&& -WORLD_LIMIT <= self.m12 <= WORLD_LIMIT
        &&& -WORLD_LIMIT <= self.m13 <= WORLD_LIMIT
        &&& -WORLD_LIMIT <= self.m20 <= WORLD_LIMIT
        &&& -WORLD_LIMIT <= self.m21 <= WORLD_LIMIT
        &&& -WORLD_LIMIT <= self.m22 <= WORLD_LIMIT
        &&& -WORLD_LIMIT <= self.m23 <= WORLD_LIMIT
        &&& -WORLD_LIMIT <= self.m30 <= WORLD_LIMIT
        &&& -WORLD_LIMIT <= self.m31 <= WORLD_LIMIT
        &&& -WORLD_LIMIT <= self.m32 <= WORLD_LIMIT
        &&& -WORLD_LIMIT <= self.m33 <= WORLD_LIMIT
    }
}

impl Rect {
    /// The rectangle is ordered and stays within the screen range.
    pub open spec fn wf(&self) -> bool {
        &&& -SCREEN_LIMIT <= self.min_x <= self.max_x <= SCREEN_LIMIT
        &&& -SCREEN_LIMIT <= self.min_y <= self.max_y <= SCREEN_LIMIT
    }
}

/// Horizontal center of the viewport (rounded toward minus infinity).
pub open spec fn spec_center_x(r: Rect) -> int {
    (r.min_x + r.max_x) / 2
}

/// Vertical center of the viewport (rounded toward minus infinity).
pub open spec fn spec_center_y(r: Rect) -> int {
    (r.min_y + r.max_y) / 2
}

/// Half the viewport width (rounded down).
pub open spec fn spec_half_w(r: Rect) -> int {
    (r.max_x - r.min_x) / 2
}

/// Half the viewport height (rounded down).
pub open spec fn spec_half_h(r: Rect) -> int {
    (r.max_y - r.min_y) / 2
}

/// First row of the clip-space transform (the screen X numerator).
pub open spec fn spec_clip_x(m: Mat4, p: Vec3) -> int {
    m.m00 * p.x + m.m01 * p.y + m.m02 * p.z + m.m03 * ONE
}

/// Second row of the clip-space transform (the screen Y numerator).
pub open spec fn spec_clip_y(m: Mat4, p: Vec3) -> int {
    m.m10 * p.x + m.m11 * p.y + m.m12 * p.z + m.m13 * ONE
}

/// Fourth row of the clip-space transform: the homogeneous W component.
pub open spec fn spec_clip_w(m: Mat4, p: Vec3) -> int {
    m.m30 * p.x + m.m31 * p.y + m.m32 * p.z + m.m33 * ONE
}

/// The projection, exactly as computed.  `None` when the point is behind or
/// at the camera (W not positive) or when a coordinate leaves the screen
/// range.  Screen Y grows downward, so the Y axis flips.
pub open spec fn spec_world_to_screen(viewport: Rect, mvp: Mat4, point: Vec3) -> Option<ScreenPos> {
    let w = spec_clip_w(mvp, point);
    if w <= 0 {
        None
    } else {
        let sx = spec_center_x(viewport) + (spec_clip_x(mvp, point) * spec_half_w(viewport)) / w;
        let sy = spec_center_y(viewport) - (spec_clip_y(mvp, point) * spec_half_h(viewport)) / w;
        if -SCREEN_LIMIT <= sx <= SCREEN_LIMIT && -SCREEN_LIMIT <= sy <= SCREEN_LIMIT {
            Some(ScreenPos { x: sx as i64, y: sy as i64 })
        } else {
            None
        }
    }
}

/// Euclidean division (quotient rounded toward minus infinity) of a signed
/// dividend by a positive divisor.
pub(crate) fn floor_div(a: i128, b: i128) -> (q: i128)
    requires
        1 <= b,
        -DIV_LIMIT <= a <= DIV_LIMIT,
    ensures
        q == a as int / b as int,
        0 <= a ==> 0 <= q <= a,
        a < 0 ==> a <= q <= 0,
{
    if a >= 0 {
        let q0: u128 = (a as u128) / (b as u128);
        proof {
            assert(q0 * b <= a) by (nonlinear_arith)
                requires q0 == a as int / b as int, 1 <= b, 0 <= a;
            assert(q0 <= a) by (nonlinear_arith)
                requires q0 * b <= a, 1 <= b, 0 <= q0;
        }
        q0 as i128
    } else {
        let n: u128 = (-a) as u128;
        let d: u128 = b as u128;
        let q0: u128 = n / d;
        let r: u128 = n % d;
        proof {
            assert(n == d * q0 + r && 0 <= r < d) by {
                vstd::arithmetic::div_mod::lemma_fundamental_div_mod(n as int, d as int);
            }
            assert(q0 <= n) by (nonlinear_arith)
                requires n == d * q0 + r, 1 <= d, 0 <= r, 0 <= q0;
        }
        if r == 0 {
            proof {
                assert(a == (-(q0 as int)) * b + 0) by (nonlinear_arith)
                    requires a == -n, n == d * q0, b == d;
                lemma_fundamental_div_mod_converse(a as int, b as int, -(q0 as int), 0);
            }
            -(q0 as i128)
        } else {
            proof {
                assert(a == (-(q0 as int) - 1) * b + (b - r) && 0 < b - r < b) by (nonlinear_arith)
                    requires a == -n, n == d * q0 + r, b == d, 0 < r < d;
                lemma_fundamental_div_mod_converse(a as int, b as int, -(q0 as int) - 1, (b - r) as int);
                // the quotient stays at or above the dividend
                assert(q0 + 1 <= n) by (nonlinear_arith)
                    requires n == d * q0 + r, 1 <= d, 1 <= r, 0 <= q0;
            }
            -((q0 as i128) + 1)
        }
    }
}

/// One row of the matrix applied to the homogeneous point (w = 1).
fn row_dot(a: i64, b: i64, c: i64, d: i64, p: Vec3) -> (r: i128)
    requires
        -WORLD_LIMIT <= a <= WORLD_LIMIT,
        -WORLD_LIMIT <= b <= WORLD_LIMIT,
        -WORLD_LIMIT <= c <= WORLD_LIMIT,
        -WORLD_LIMIT <= d <= WORLD_LIMIT,
        p.wf(),
    ensures
        r == a * p.x + b * p.y + c * p.z + d * ONE,
        -0x8_0000_0000_0000_0000_0000 <= r <= 0x8_0000_0000_0000_0000_0000,
{
    proof {
        assert(-0x1_0000_0000_0000_0000_0000 <= a * p.x <= 0x1_0000_0000_0000_0000_0000)
            by (nonlinear_arith)
            requires -WORLD_LIMIT <= a <= WORLD_LIMIT, -WORLD_LIMIT <= p.x <= WORLD_LIMIT;
        assert(-0x1_0000_0000_0000_0000_0000 <= b * p.y <= 0x1_0000_0000_0000_0000_0000)
            by (nonlinear_arith)
            requires -WORLD_LIMIT <= b <= WORLD_LIMIT, -WORLD_LIMIT <= p.y <= WORLD_LIMIT;
        assert(-0x1_0000_0000_0000_0000_0000 <= c * p.z <= 0x1_0000_0000_0000_0000_0000)
            by (nonlinear_arith)
            requires -WORLD_LIMIT <= c <= WORLD_LIMIT, -WORLD_LIMIT <= p.z <= WORLD_LIMIT;
        assert(-0x1_0000_0000_0000_0000_0000 <= d * ONE <= 0x1_0000_0000_0000_0000_0000)
            by (nonlinear_arith)
            requires -WORLD_LIMIT <= d <= WORLD_LIMIT;
    }
    (a as i128) * (p.x as i128) + (b as i128) * (p.y as i128) + (c as i128) * (p.z as i128)
        + (d as i128) * (ONE as i128)
}

/// Projects a world-space point into viewport pixel space: clip transform,
/// perspective divide and viewport mapping in one rounded step per axis.
/// Pure; used by both picking and updating to re-derive the scene origin's
/// screen position every frame.
pub fn world_to_screen(viewport: Rect, mvp: Mat4, point: Vec3) -> (r: Option<ScreenPos>)
    requires
        viewport.wf(),
        mvp.wf(),
        point.wf(),
    ensures
        r == spec_world_to_screen(viewport, mvp, point),
        r matches Some(p) ==> p.wf(),
{
    let w = row_dot(mvp.m30, mvp.m31, mvp.m32, mvp.m33, point);
    if w <= 0 {
        return None;
    }
    let clip_x = row_dot(mvp.m00, mvp.m01, mvp.m02, mvp.m03, point);
    let clip_y = row_dot(mvp.m10, mvp.m11, mvp.m12, mvp.m13, point);
    let half_w = (((viewport.max_x - viewport.min_x) as u64) / 2) as i64;
    let half_h = (((viewport.max_y - viewport.min_y) as u64) / 2) as i64;
    let center_x = floor_div((viewport.min_x + viewport.max_x) as i128, 2) as i64;
    let center_y = floor_div((viewport.min_y + viewport.max_y) as i128, 2) as i64;
    proof {
        assert(-DIV_LIMIT <= clip_x * half_w <= DIV_LIMIT) by (nonlinear_arith)
            requires
                -0x8_0000_0000_0000_0000_0000 <= clip_x <= 0x8_0000_0000_0000_0000_0000,
                0 <= half_w <= SCREEN_LIMIT,
                DIV_LIMIT == 0x4000_0000_0000_0000_0000_0000_0000_0000;
        assert(-DIV_LIMIT <= clip_y * half_h <= DIV_LIMIT) by (nonlinear_arith)
            requires
                -0x8_0000_0000_0000_0000_0000 <= clip_y <= 0x8_0000_0000_0000_0000_0000,
                0 <= half_h <= SCREEN_LIMIT,
                DIV_LIMIT == 0x4000_0000_0000_0000_0000_0000_0000_0000;
    }
    let sx = (center_x as i128) + floor_div(clip_x * (half_w as i128), w);
    let sy = (center_y as i128) - floor_div(clip_y * (half_h as i128), w);
    let limit = SCREEN_LIMIT as i128;
    if -limit <= sx && sx <= limit && -limit <= sy && sy <= limit {
        Some(ScreenPos { x: sx as i64, y: sy as i64 })
    } else {
        None
    }
}

} // verus!
