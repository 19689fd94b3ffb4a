//! Perspective projection of a camera-space point onto the screen plane,
//! with single-plane near culling, and the depth-derived shade.

use vstd::prelude::*;
use crate::fixed::{clamp, clamp_spec, div_trunc, fx_div, lemma_div_trunc_bound, SCALE};
use crate::geometry::{Vec2, Vec3, MAX_CAM};

verus! {

/// Near-plane depth: points with camera-space z strictly below this are
/// culled (0.1 units).
pub const NEAR_Z: i64 = 100_000;

/// Focal length used as the perspective scale numerator (2.0 units).
pub const FOCAL: i64 = 2_000_000;

/// Depth at which the shade reaches full darkness (10.0 units).
pub const SHADE_FALLOFF: i64 = 10;

/// Largest magnitude a projected screen-plane coordinate can take for a
/// camera-space point within `MAX_CAM` that passes the near-plane test.
pub const MAX_PROJ: i64 = 80_000_000_000_000;

/// A camera-space point is visible when its depth is not strictly below the
/// near plane (a point exactly on the plane is kept).
pub open spec fn visible(z: int) -> bool {
    z >= NEAR_Z
}

/// Screen-plane x of a visible camera-space point: `x * focal / z`,
/// the perspective divide in fixed-point.
pub open spec fn project_x(x: int, z: int) -> int {
    div_trunc(x * FOCAL, z)
}

/// Screen-plane y of a visible camera-space point: `-(y * focal / z)`.
/// The sign flip matches a screen whose y axis grows downward.
pub open spec fn project_y(y: int, z: int) -> int {
    -div_trunc(y * FOCAL, z)
}

/// A projected coordinate of an in-range visible point is itself bounded.
pub proof fn lemma_project_bound(c: int, z: int)
    requires
        -MAX_CAM <= c <= MAX_CAM,
        NEAR_Z <= z,
    ensures
        -MAX_PROJ <= div_trunc(c * FOCAL, z) <= MAX_PROJ,
{
    assert(-(MAX_CAM * FOCAL) <= c * FOCAL <= MAX_CAM * FOCAL) by (nonlinear_arith)
        requires
            -MAX_CAM <= c <= MAX_CAM,
    ;
    lemma_div_trunc_bound(c * FOCAL, MAX_CAM * FOCAL, z as int);
    // Shrinking the divisor from z to NEAR_Z can only grow the magnitude.
    vstd::arithmetic::div_mod::lemma_div_is_ordered_by_denominator(
        MAX_CAM * FOCAL, NEAR_Z as int, z as int);
    assert((MAX_CAM * FOCAL) / (NEAR_Z as int) == MAX_PROJ);
}

/// Projector: cull a point behind the near plane, otherwise scale its x and
/// y by `focal / z` and flip y for screen coordinates.
pub fn project(p: Vec3) -> (r: Option<Vec2>)
    requires
        -MAX_CAM <= p.x <= MAX_CAM,
        -MAX_CAM <= p.y <= MAX_CAM,
    ensures
        r is Some <==> visible(p.z as int),
        r is Some ==> {
            &&& r->Some_0.x == project_x(p.x as int, p.z as int)
            &&& r->Some_0.y == project_y(p.y as int, p.z as int)
            &&& -MAX_PROJ <= r->Some_0.x <= MAX_PROJ
            &&& -MAX_PROJ <= r->Some_0.y <= MAX_PROJ
        },
{
    if p.z < NEAR_Z {
        return None;
    }
    proof {
        lemma_project_bound(p.x as int, p.z as int);
        lemma_project_bound(p.y as int, p.z as int);
        assert(-(MAX_CAM * FOCAL) <= p.x * FOCAL <= MAX_CAM * FOCAL) by (nonlinear_arith)
            requires
                -MAX_CAM <= p.x <= MAX_CAM,
        ;
        assert(-(MAX_CAM * FOCAL) <= p.y * FOCAL <= MAX_CAM * FOCAL) by (nonlinear_arith)
            requires
                -MAX_CAM <= p.y <= MAX_CAM,
        ;
        assert(MAX_CAM * FOCAL <= i64::MAX);
    }
    let sx = fx_div(p.x * FOCAL, p.z);
    let sy = fx_div(p.y * FOCAL, p.z);
    Some(Vec2 { x: sx, y: -sy })
}

/// Shade of a depth: `clamp(1 - depth / 10, 0, 1)` in fixed-point. Farther
/// triangles shade toward 0 (darker), a crude distance fog.
pub open spec fn shade_spec(depth: int) -> int {
    clamp_spec(SCALE - div_trunc(depth, SHADE_FALLOFF as int), 0, SCALE as int)
}

/// Compute the depth-derived shade, always inside `[0, 1]` in fixed-point.
pub fn shade_of_depth(depth: i64) -> (r: i64)
    requires
        -MAX_CAM <= depth <= MAX_CAM,
    ensures
        r == shade_spec(depth as int),
        0 <= r <= SCALE,
{
    proof {
        lemma_div_trunc_bound(depth as int, MAX_CAM as int, SHADE_FALLOFF as int);
    }
    let fall = fx_div(depth, SHADE_FALLOFF);
    clamp(SCALE - fall, 0, SCALE)
}

} // verus!
