//! World-space geometry: 2D and 3D fixed-point points, triangles, the 4x4
//! affine camera transform, and the vertex transformer that applies it.

use vstd::prelude::*;
use crate::fixed::{fx_mul, fx_mul_spec, lemma_fx_mul_bound, SCALE};

verus! {

/// Largest coordinate magnitude the pipeline accepts, in fixed-point steps
/// (one million whole units). Keeps every product inside `i64`.
pub const MAX_COORD: i64 = 1_000_000_000_000;

/// Bound on a camera-space coordinate: a rotation cannot grow a coordinate
/// past `MAX_COORD` per axis term, and the translation adds one more.
pub const MAX_CAM: i64 = 4_000_000_000_000;

/// A 2D fixed-point point (screen-plane or screen coordinates).
#[derive(Clone, Copy, PartialEq, Eq, Structural, Debug)]
pub struct Vec2 {
    pub x: i64,
    pub y: i64,
}

/// A 3D fixed-point point (world space or camera space).
#[derive(Clone, Copy, PartialEq, Eq, Structural, Debug)]
pub struct Vec3 {
    pub x: i64,
    pub y: i64,
    pub z: i64,
}

/// A world-space triangle: three 3D points. Immutable once built.
#[derive(Clone, Copy, PartialEq, Eq, Structural, Debug)]
pub struct Triangle {
    pub p0: Vec3,
    pub p1: Vec3,
    pub p2: Vec3,
}

/// A 4x4 fixed-point matrix, row-major: `mRC` is row `R`, column `C`.
/// Built as `Translate(0,0,distance) * RotateX(pitch) * RotateY(yaw)`.
#[derive(Clone, Copy, PartialEq, Eq, Structural, Debug)]
pub struct Mat4 {
    pub m00: i64, pub m01: i64, pub m02: i64, pub m03: i64,
    pub m10: i64, pub m11: i64, pub m12: i64, pub m13: i64,
    pub m20: i64, pub m21: i64, pub m22: i64, pub m23: i64,
    pub m30: i64, pub m31: i64, pub m32: i64, pub m33: i64,
}

/// A world-space coordinate the pipeline accepts.
pub open spec fn in_coord_range(v: int) -> bool {
    -MAX_COORD <= v <= MAX_COORD
}

/// A well-formed world-space point: all coordinates in range.
pub open spec fn wf_point(p: Vec3) -> bool {
    in_coord_range(p.x as int) && in_coord_range(p.y as int) && in_coord_range(p.z as int)
}

/// A well-formed triangle: all three vertices in range.
pub open spec fn wf_triangle(t: Triangle) -> bool {
    wf_point(t.p0) && wf_point(t.p1) && wf_point(t.p2)
}

/// A well-formed camera transform: an affine matrix whose linear part has
/// entries of at most one unit in magnitude (true of any product of
/// rotations), whose translation is in coordinate range, and whose bottom
/// row is the homogeneous `(0, 0, 0, 1)`.
pub open spec fn wf_mat(m: Mat4) -> bool {
    &&& -SCALE <= m.m00 <= SCALE
    &&& -SCALE <= m.m01 <= SCALE
    &&& -SCALE <= m.m02 <= SCALE
    &&& -SCALE <= m.m10 <= SCALE
    &&& -SCALE <= m.m11 <= SCALE
    &&& -SCALE <= m.m12 <= SCALE
    &&& -SCALE <= m.m20 <= SCALE
    &&& -SCALE <= m.m21 <= SCALE
    &&& -SCALE <= m.m22 <= SCALE
    &&& in_coord_range(m.m03 as int)
    &&& in_coord_range(m.m13 as int)
    &&& in_coord_range(m.m23 as int)
    &&& m.m30 == 0 && m.m31 == 0 && m.m32 == 0 && m.m33 == SCALE
}

/// The identity transform.
pub open spec fn identity_mat() -> Mat4 {
    Mat4 {
        m00: SCALE, m01: 0, m02: 0, m03: 0,
        m10: 0, m11: SCALE, m12: 0, m13: 0,
        m20: 0, m21: 0, m22: SCALE, m23: 0,
        m30: 0, m31: 0, m32: 0, m33: SCALE,
    }
}

/// Rotation about the vertical (y) axis with the given fixed-point sine
/// and cosine.
pub open spec fn rot_y_mat(sy: int, cy: int) -> Mat4 {
    Mat4 {
        m00: cy as i64, m01: 0, m02: sy as i64, m03: 0,
        m10: 0, m11: SCALE, m12: 0, m13: 0,
        m20: (-sy) as i64, m21: 0, m22: cy as i64, m23: 0,
        m30: 0, m31: 0, m32: 0, m33: SCALE,
    }
}

/// Rotation about the horizontal (x) axis with the given fixed-point sine
/// and cosine.
pub open spec fn rot_x_mat(sp: int, cp: int) -> Mat4 {
    Mat4 {
        m00: SCALE, m01: 0, m02: 0, m03: 0,
        m10: 0, m11: cp as i64, m12: (-sp) as i64, m13: 0,
        m20: 0, m21: sp as i64, m22: cp as i64, m23: 0,
        m30: 0, m31: 0, m32: 0, m33: SCALE,
    }
}

/// Translation by `d` along the view (z) axis.
pub open spec fn translate_z_mat(d: int) -> Mat4 {
    Mat4 {
        m00: SCALE, m01: 0, m02: 0, m03: 0,
        m10: 0, m11: SCALE, m12: 0, m13: 0,
        m20: 0, m21: 0, m22: SCALE, m23: d as i64,
        m30: 0, m31: 0, m32: 0, m33: SCALE,
    }
}

/// One entry of a fixed-point matrix product: the row-by-column dot
/// product, each term rounded once.
pub open spec fn mat_mul_entry(
    a0: int, a1: int, a2: int, a3: int, b0: int, b1: int, b2: int, b3: int,
) -> int {
    fx_mul_spec(a0, b0) + fx_mul_spec(a1, b1) + fx_mul_spec(a2, b2) + fx_mul_spec(a3, b3)
}

/// Fixed-point product of two 4x4 matrices.
pub open spec fn mat_mul(a: Mat4, b: Mat4) -> Mat4 {
    Mat4 {
        m00: mat_mul_entry(a.m00 as int, a.m01 as int, a.m02 as int, a.m03 as int,
            b.m00 as int, b.m10 as int, b.m20 as int, b.m30 as int) as i64,
        m01: mat_mul_entry(a.m00 as int, a.m01 as int, a.m02 as int, a.m03 as int,
            b.m01 as int, b.m11 as int, b.m21 as int, b.m31 as int) as i64,
        m02: mat_mul_entry(a.m00 as int, a.m01 as int, a.m02 as int, a.m03 as int,
            b.m02 as int, b.m12 as int, b.m22 as int, b.m32 as int) as i64,
        m03: mat_mul_entry(a.m00 as int, a.m01 as int, a.m02 as int, a.m03 as int,
            b.m03 as int, b.m13 as int, b.m23 as int, b.m33 as int) as i64,
        m10: mat_mul_entry(a.m10 as int, a.m11 as int, a.m12 as int, a.m13 as int,
            b.m00 as int, b.m10 as int, b.m20 as int, b.m30 as int) as i64,
        m11: mat_mul_entry(a.m10 as int, a.m11 as int, a.m12 as int, a.m13 as int,
            b.m01 as int, b.m11 as int, b.m21 as int, b.m31 as int) as i64,
        m12: mat_mul_entry(a.m10 as int, a.m11 as int, a.m12 as int, a.m13 as int,
            b.m02 as int, b.m12 as int, b.m22 as int, b.m32 as int) as i64,
        m13: mat_mul_entry(a.m10 as int, a.m11 as int, a.m12 as int, a.m13 as int,
            b.m03 as int, b.m13 as int, b.m23 as int, b.m33 as int) as i64,
        m20: mat_mul_entry(a.m20 as int, a.m21 as int, a.m22 as int, a.m23 as int,
            b.m00 as int, b.m10 as int, b.m20 as int, b.m30 as int) as i64,
        m21: mat_mul_entry(a.m20 as int, a.m21 as int, a.m22 as int, a.m23 as int,
            b.m01 as int, b.m11 as int, b.m21 as int, b.m31 as int) as i64,
        m22: mat_mul_entry(a.m20 as int, a.m21 as int, a.m22 as int, a.m23 as int,
            b.m02 as int, b.m12 as int, b.m22 as int, b.m32 as int) as i64,
        m23: mat_mul_entry(a.m20 as int, a.m21 as int, a.m22 as int, a.m23 as int,
            b.m03 as int, b.m13 as int, b.m23 as int, b.m33 as int) as i64,
        m30: mat_mul_entry(a.m30 as int, a.m31 as int, a.m32 as int, a.m33 as int,
            b.m00 as int, b.m10 as int, b.m20 as int, b.m30 as int) as i64,
        m31: mat_mul_entry(a.m30 as int, a.m31 as int, a.m32 as int, a.m33 as int,
            b.m01 as int, b.m11 as int, b.m21 as int, b.m31 as int) as i64,
        m32: mat_mul_entry(a.m30 as int, a.m31 as int, a.m32 as int, a.m33 as int,
            b.m02 as int, b.m12 as int, b.m22 as int, b.m32 as int) as i64,
        m33: mat_mul_entry(a.m30 as int, a.m31 as int, a.m32 as int, a.m33 as int,
            b.m03 as int, b.m13 as int, b.m23 as int, b.m33 as int) as i64,
    }
}

/// X coordinate of `m` applied to `(p, 1)`: a row of dot products in
/// fixed-point, the translation column multiplied by the implicit `w = 1`
/// exactly.
pub open spec fn xform_x(m: Mat4, p: Vec3) -> int {
    fx_mul_spec(m.m00 as int, p.x as int) + fx_mul_spec(m.m01 as int, p.y as int)
        + fx_mul_spec(m.m02 as int, p.z as int) + m.m03
}

/// Y coordinate of `m` applied to `(p, 1)`.
pub open spec fn xform_y(m: Mat4, p: Vec3) -> int {
    fx_mul_spec(m.m10 as int, p.x as int) + fx_mul_spec(m.m11 as int, p.y as int)
        + fx_mul_spec(m.m12 as int, p.z as int) + m.m13
}

/// Z coordinate (camera-space depth) of `m` applied to `(p, 1)`.
pub open spec fn xform_z(m: Mat4, p: Vec3) -> int {
    fx_mul_spec(m.m20 as int, p.x as int) + fx_mul_spec(m.m21 as int, p.y as int)
        + fx_mul_spec(m.m22 as int, p.z as int) + m.m23
}

/// A camera-space coordinate stays within `MAX_CAM`.
pub proof fn lemma_xform_bounds(m: Mat4, p: Vec3)
    requires
        wf_mat(m),
        wf_point(p),
    ensures
        -MAX_CAM <= xform_x(m, p) <= MAX_CAM,
        -MAX_CAM <= xform_y(m, p) <= MAX_CAM,
        -MAX_CAM <= xform_z(m, p) <= MAX_CAM,
{
    lemma_fx_mul_bound(m.m00 as int, p.x as int, MAX_COORD as int);
    lemma_fx_mul_bound(m.m01 as int, p.y as int, MAX_COORD as int);
    lemma_fx_mul_bound(m.m02 as int, p.z as int, MAX_COORD as int);
    lemma_fx_mul_bound(m.m10 as int, p.x as int, MAX_COORD as int);
    lemma_fx_mul_bound(m.m11 as int, p.y as int, MAX_COORD as int);
    lemma_fx_mul_bound(m.m12 as int, p.z as int, MAX_COORD as int);
    lemma_fx_mul_bound(m.m20 as int, p.x as int, MAX_COORD as int);
    lemma_fx_mul_bound(m.m21 as int, p.y as int, MAX_COORD as int);
    lemma_fx_mul_bound(m.m22 as int, p.z as int, MAX_COORD as int);
}

/// Vertex transformer: multiply `(p, 1)` by `m` and drop the homogeneous
/// coordinate, yielding the camera-space point.
pub fn transform_point(m: &Mat4, p: Vec3) -> (r: Vec3)
    requires
        wf_mat(*m),
        wf_point(p),
    ensures
        r.x == xform_x(*m, p),
        r.y == xform_y(*m, p),
        r.z == xform_z(*m, p),
        -MAX_CAM <= r.x <= MAX_CAM,
        -MAX_CAM <= r.y <= MAX_CAM,
        -MAX_CAM <= r.z <= MAX_CAM,
{
    proof {
        lemma_xform_bounds(*m, p);
        lemma_fx_mul_bound(m.m00 as int, p.x as int, MAX_COORD as int);
        lemma_fx_mul_bound(m.m01 as int, p.y as int, MAX_COORD as int);
        lemma_fx_mul_bound(m.m02 as int, p.z as int, MAX_COORD as int);
        lemma_fx_mul_bound(m.m10 as int, p.x as int, MAX_COORD as int);
        lemma_fx_mul_bound(m.m11 as int, p.y as int, MAX_COORD as int);
        lemma_fx_mul_bound(m.m12 as int, p.z as int, MAX_COORD as int);
        lemma_fx_mul_bound(m.m20 as int, p.x as int, MAX_COORD as int);
        lemma_fx_mul_bound(m.m21 as int, p.y as int, MAX_COORD as int);
        lemma_fx_mul_bound(m.m22 as int, p.z as int, MAX_COORD as int);
        assert(MAX_COORD * SCALE <= i64::MAX);
        assert(forall|a: int, b: int|
            -SCALE <= a <= SCALE && -MAX_COORD <= b <= MAX_COORD
                ==> -(MAX_COORD * SCALE) <= #[trigger] (a * b) <= MAX_COORD * SCALE)
            by (nonlinear_arith);
    }
    let x = fx_mul(m.m00, p.x) + fx_mul(m.m01, p.y) + fx_mul(m.m02, p.z) + m.m03;
    let y = fx_mul(m.m10, p.x) + fx_mul(m.m11, p.y) + fx_mul(m.m12, p.z) + m.m13;
    let z = fx_mul(m.m20, p.x) + fx_mul(m.m21, p.y) + fx_mul(m.m22, p.z) + m.m23;
    Vec3 { x, y, z }
}

} // verus!
