//! Properties of the pipeline that relate several stages, proved once and
//! for all. Each law is stated over the spec-level pipeline that the
//! executable functions are proved to implement exactly.

use vstd::prelude::*;
use vstd::arithmetic::div_mod::{
    lemma_div_is_ordered_by_denominator, lemma_div_pos_is_pos, lemma_fundamental_div_mod,
};
use vstd::math::abs;
use crate::camera::camera_mat_spec;
use crate::fixed::{
    div_trunc, fx_mul_spec, lemma_fx_mul_bound, lemma_fx_mul_neg, lemma_fx_mul_one,
    lemma_fx_mul_zero, SCALE,
};
use crate::geometry::{
    identity_mat, in_coord_range, mat_mul, rot_x_mat, rot_y_mat, translate_z_mat, wf_point,
    xform_x, xform_y, xform_z, Mat4, Triangle, Vec3, MAX_COORD,
};
use crate::project::{project_x, project_y, visible, FOCAL, NEAR_Z};
use crate::render::{frame_spec, record_spec, tri_visible, RenderRecord};

verus! {

/// The camera transform built from zero angles and zero distance is the
/// identity, and the identity transform moves no point: the camera
/// round-trips every world point unchanged.
pub proof fn lemma_identity_round_trip(p: Vec3)
    requires
        wf_point(p),
    ensures
        camera_mat_spec(0, SCALE as int, 0, SCALE as int, 0) == identity_mat(),
        xform_x(identity_mat(), p) == p.x,
        xform_y(identity_mat(), p) == p.y,
        xform_z(identity_mat(), p) == p.z,
{
    lemma_fx_mul_zero(0);
    lemma_fx_mul_zero(SCALE as int);
    lemma_fx_mul_one(SCALE as int);
    lemma_fx_mul_one(p.x as int);
    lemma_fx_mul_one(p.y as int);
    lemma_fx_mul_one(p.z as int);
    lemma_fx_mul_zero(p.x as int);
    lemma_fx_mul_zero(p.y as int);
    lemma_fx_mul_zero(p.z as int);
}

/// With yaw and pitch zero, a world point on the view axis at depth `z`
/// lands at screen-plane `(0, 0)` exactly, whatever the camera distance:
/// the camera looks straight down the axis.
pub proof fn lemma_axis_point_projects_to_center(z: int, dist: int)
    requires
        NEAR_Z <= z <= MAX_COORD,
        0 <= dist <= MAX_COORD,
    ensures
        ({
            let m = camera_mat_spec(0, SCALE as int, 0, SCALE as int, dist);
            let p = Vec3 { x: 0, y: 0, z: z as i64 };
            &&& xform_z(m, p) == z + dist
            &&& visible(xform_z(m, p))
            &&& project_x(xform_x(m, p), xform_z(m, p)) == 0
            &&& project_y(xform_y(m, p), xform_z(m, p)) == 0
        }),
{
    let m = camera_mat_spec(0, SCALE as int, 0, SCALE as int, dist);
    let p = Vec3 { x: 0, y: 0, z: z as i64 };
    lemma_fx_mul_zero(0);
    lemma_fx_mul_zero(SCALE as int);
    lemma_fx_mul_one(SCALE as int);
    lemma_fx_mul_zero(z);
    lemma_fx_mul_one(z);
    assert(xform_x(m, p) == 0);
    assert(xform_y(m, p) == 0);
    assert(xform_z(m, p) == z + dist);
    assert(0int * FOCAL == 0) by (nonlinear_arith);
    assert(div_trunc(0, z + dist) == 0);
}

/// A triangle with any camera-space vertex strictly behind the near plane
/// is not visible, so the triangle renderer drops it and the frame's
/// render output holds no record for it.
pub proof fn lemma_behind_near_plane_dropped(m: Mat4, t: Triangle)
    requires
        xform_z(m, t.p0) < NEAR_Z || xform_z(m, t.p1) < NEAR_Z || xform_z(m, t.p2) < NEAR_Z,
    ensures
        !tri_visible(m, t),
{
}

/// `r` is the record of some visible triangle of `ts` under `m`.
pub open spec fn record_of_visible(m: Mat4, ts: Seq<Triangle>, r: RenderRecord) -> bool {
    exists|i: int|
        0 <= i < ts.len() && tri_visible(m, #[trigger] ts[i]) && r == record_spec(m, ts[i])
}

/// Every record in a frame's render output is the record of a visible
/// input triangle: a point culled by the near plane can never reach the
/// canvas, because its whole triangle is absent from the output.
pub proof fn lemma_output_only_visible(m: Mat4, ts: Seq<Triangle>)
    ensures
        forall|j: int| 0 <= j < frame_spec(m, ts).len()
            ==> record_of_visible(m, ts, #[trigger] frame_spec(m, ts)[j]),
    decreases ts.len(),
{
    if ts.len() > 0 {
        let prefix = ts.drop_last();
        lemma_output_only_visible(m, prefix);
        assert forall|j: int| 0 <= j < frame_spec(m, ts).len()
            implies record_of_visible(m, ts, #[trigger] frame_spec(m, ts)[j]) by {
            if j < frame_spec(m, prefix).len() {
                assert(frame_spec(m, ts)[j] == frame_spec(m, prefix)[j]);
                let i = choose|i: int|
                    0 <= i < prefix.len() && tri_visible(m, #[trigger] prefix[i])
                        && frame_spec(m, prefix)[j] == record_spec(m, prefix[i]);
                assert(ts[i] == prefix[i]);
                assert(0 <= i < ts.len() && tri_visible(m, ts[i])
                    && frame_spec(m, ts)[j] == record_spec(m, ts[i]));
            } else {
                let i = ts.len() - 1;
                assert(tri_visible(m, ts.last()));
                assert(frame_spec(m, ts)[j] == record_spec(m, ts.last()));
                assert(0 <= i < ts.len() && tri_visible(m, ts[i])
                    && frame_spec(m, ts)[j] == record_spec(m, ts[i]));
            }
        }
    }
}

/// The builder's closed form really is the composite it claims to be: the
/// fixed-point matrix product `Translate(0,0,d) * RotateX(pitch) *
/// RotateY(yaw)`, yaw innermost. Order matters: yaw always spins the
/// object about the world-up axis, and pitch tilts the already-yawed
/// object.
pub proof fn lemma_builder_composes_in_order(sy: int, cy: int, sp: int, cp: int, d: int)
    requires
        -SCALE <= sy <= SCALE,
        -SCALE <= cy <= SCALE,
        -SCALE <= sp <= SCALE,
        -SCALE <= cp <= SCALE,
        in_coord_range(d),
    ensures
        camera_mat_spec(sy, cy, sp, cp, d)
            == mat_mul(translate_z_mat(d), mat_mul(rot_x_mat(sp, cp), rot_y_mat(sy, cy))),
{
    assert forall|b: int| #[trigger] fx_mul_spec(0, b) == 0 && #[trigger] fx_mul_spec(b, 0) == 0
        by {
        lemma_fx_mul_zero(b);
    }
    assert forall|b: int|
        #[trigger] fx_mul_spec(SCALE as int, b) == b
            && #[trigger] fx_mul_spec(b, SCALE as int) == b by {
        lemma_fx_mul_one(b);
    }
    lemma_fx_mul_bound(sp, sy, SCALE as int);
    lemma_fx_mul_bound(sp, cy, SCALE as int);
    lemma_fx_mul_bound(cp, sy, SCALE as int);
    lemma_fx_mul_bound(cp, cy, SCALE as int);
    assert(fx_mul_spec(-sp, -sy) == fx_mul_spec(sp, sy)) by {
        assert((-sp) * (-sy) == sp * sy) by (nonlinear_arith);
    }
    lemma_fx_mul_neg(sp, cy);
    lemma_fx_mul_neg(cp, sy);
    let p = mat_mul(rot_x_mat(sp, cp), rot_y_mat(sy, cy));
    assert(p.m00 == cy);
    assert(p.m01 == 0);
    assert(p.m02 == sy);
    assert(p.m03 == 0);
    assert(p.m10 == fx_mul_spec(sp, sy));
    assert(p.m11 == cp);
    assert(p.m12 == -fx_mul_spec(sp, cy));
    assert(p.m13 == 0);
    assert(p.m20 == -fx_mul_spec(cp, sy));
    assert(p.m21 == sp);
    assert(p.m22 == fx_mul_spec(cp, cy));
    assert(p.m23 == 0);
    assert(p.m30 == 0 && p.m31 == 0 && p.m32 == 0 && p.m33 == SCALE);
    let t = mat_mul(translate_z_mat(d), p);
    assert(t.m00 == cy);
    assert(t.m01 == 0);
    assert(t.m02 == sy);
    assert(t.m03 == 0);
    assert(t.m10 == fx_mul_spec(sp, sy));
    assert(t.m11 == cp);
    assert(t.m12 == -fx_mul_spec(sp, cy));
    assert(t.m13 == 0);
    assert(t.m20 == -fx_mul_spec(cp, sy));
    assert(t.m21 == sp);
    assert(t.m22 == fx_mul_spec(cp, cy));
    assert(t.m23 == d);
    assert(t.m30 == 0 && t.m31 == 0 && t.m32 == 0 && t.m33 == SCALE);
}

/// With the rotation held fixed, the camera distance enters a point's
/// camera-space position only as a translation of its depth: retreating by
/// `d2 - d1` pushes every point deeper by exactly that amount and moves it
/// nowhere else.
pub proof fn lemma_distance_only_deepens(
    sy: int, cy: int, sp: int, cp: int, d1: int, d2: int, p: Vec3,
)
    requires
        in_coord_range(d1),
        in_coord_range(d2),
    ensures
        ({
            let m1 = camera_mat_spec(sy, cy, sp, cp, d1);
            let m2 = camera_mat_spec(sy, cy, sp, cp, d2);
            &&& xform_x(m2, p) == xform_x(m1, p)
            &&& xform_y(m2, p) == xform_y(m1, p)
            &&& xform_z(m2, p) == xform_z(m1, p) + d2 - d1
        }),
{
}

/// Monotonicity in the camera distance: pulling the camera back while
/// holding yaw, pitch and pan fixed never grows the projection of a point
/// that was visible before — points shrink (weakly) as the camera moves
/// away. Truncation to fixed-point steps can hold a coordinate still, so
/// the strict version below needs extra room.
pub proof fn lemma_retreat_shrinks_points(
    sy: int, cy: int, sp: int, cp: int, d1: int, d2: int, p: Vec3,
)
    requires
        in_coord_range(d1),
        in_coord_range(d2),
        d1 < d2,
        visible(xform_z(camera_mat_spec(sy, cy, sp, cp, d1), p)),
    ensures
        ({
            let m1 = camera_mat_spec(sy, cy, sp, cp, d1);
            let m2 = camera_mat_spec(sy, cy, sp, cp, d2);
            &&& visible(xform_z(m2, p))
            &&& abs(project_x(xform_x(m2, p), xform_z(m2, p)))
                <= abs(project_x(xform_x(m1, p), xform_z(m1, p)))
            &&& abs(project_y(xform_y(m2, p), xform_z(m2, p)))
                <= abs(project_y(xform_y(m1, p), xform_z(m1, p)))
        }),
{
    let m1 = camera_mat_spec(sy, cy, sp, cp, d1);
    let m2 = camera_mat_spec(sy, cy, sp, cp, d2);
    lemma_distance_only_deepens(sy, cy, sp, cp, d1, d2, p);
    lemma_projection_shrinks_with_depth(xform_x(m1, p), xform_z(m1, p), xform_z(m2, p));
    lemma_projection_shrinks_with_depth(xform_y(m1, p), xform_z(m1, p), xform_z(m2, p));
}

/// Moving the camera away never grows a projected coordinate: the
/// projection's magnitude is antitone in the camera-space depth. (Strict
/// shrinking needs room below; see the next lemma.)
pub proof fn lemma_projection_shrinks_with_depth(c: int, z1: int, z2: int)
    requires
        NEAR_Z <= z1 < z2,
    ensures
        abs(project_x(c, z2)) <= abs(project_x(c, z1)),
        abs(project_y(c, z2)) <= abs(project_y(c, z1)),
{
    let w = c * FOCAL;
    if w >= 0 {
        lemma_div_is_ordered_by_denominator(w, z1, z2);
        lemma_div_pos_is_pos(w, z1);
        lemma_div_pos_is_pos(w, z2);
    } else {
        lemma_div_is_ordered_by_denominator(-w, z1, z2);
        lemma_div_pos_is_pos(-w, z1);
        lemma_div_pos_is_pos(-w, z2);
    }
}

/// Doubling the camera-space depth of a point that still projects away
/// from the centre strictly shrinks its projected coordinate: points
/// shrink as the camera moves away. (Truncation can hold the coordinate
/// still over small depth changes, so strictness needs both hypotheses.)
pub proof fn lemma_projection_strictly_shrinks(c: int, z1: int, z2: int)
    requires
        NEAR_Z <= z1,
        2 * z1 <= z2,
        1 <= abs(project_x(c, z1)),
    ensures
        abs(project_x(c, z2)) < abs(project_x(c, z1)),
        abs(project_y(c, z2)) < abs(project_y(c, z1)),
{
    let w = if c * FOCAL >= 0 { c * FOCAL } else { -(c * FOCAL) };
    let q1 = w / z1;
    let q2 = w / z2;
    lemma_div_pos_is_pos(w, z1);
    lemma_div_pos_is_pos(w, z2);
    assert(q1 >= 1);
    lemma_fundamental_div_mod(w, z1);
    lemma_fundamental_div_mod(w, z2);
    assert(w == z1 * q1 + w % z1);
    assert(w == z2 * q2 + w % z2);
    assert(0 <= w % z1 < z1);
    assert(0 <= w % z2 < z2);
    if q2 >= q1 {
        assert(z2 * q2 >= 2 * z1 * q1) by (nonlinear_arith)
            requires
                q2 >= q1 >= 1,
                z2 >= 2 * z1,
                z1 >= 1,
        ;
        assert(2 * z1 * q1 >= z1 * q1 + z1) by (nonlinear_arith)
            requires
                q1 >= 1,
                z1 >= 1,
        ;
        assert(false);
    }
}

} // verus!
