//! The per-triangle render step and the per-frame render pass: transform
//! all three vertices, compute the average depth and its shade, project,
//! and drop the whole triangle if any vertex fails the near-plane test.

use vstd::prelude::*;
use crate::fixed::{div_trunc, fx_div, lemma_div_trunc_bound, SCALE};
use crate::geometry::{
    transform_point, wf_mat, wf_triangle, xform_x, xform_y, xform_z, Mat4, Triangle, Vec2,
    MAX_CAM,
};
use crate::project::{
    project, project_x, project_y, shade_spec, shade_of_depth, visible, MAX_PROJ,
};

verus! {

/// One visible triangle, ready to draw: its painter's-algorithm key, its
/// depth shade, and its three projected screen-plane points.
#[derive(Clone, Copy, PartialEq, Eq, Structural, Debug)]
pub struct RenderRecord {
    pub avg_depth: i64,
    pub shade: i64,
    pub p0: Vec2,
    pub p1: Vec2,
    pub p2: Vec2,
}

/// Bounds that every record the renderer emits satisfies.
pub open spec fn wf_record(r: RenderRecord) -> bool {
    &&& -MAX_CAM <= r.avg_depth <= MAX_CAM
    &&& 0 <= r.shade <= SCALE
    &&& -MAX_PROJ <= r.p0.x <= MAX_PROJ && -MAX_PROJ <= r.p0.y <= MAX_PROJ
    &&& -MAX_PROJ <= r.p1.x <= MAX_PROJ && -MAX_PROJ <= r.p1.y <= MAX_PROJ
    &&& -MAX_PROJ <= r.p2.x <= MAX_PROJ && -MAX_PROJ <= r.p2.y <= MAX_PROJ
}

/// Average camera-space depth of a triangle's three vertices.
pub open spec fn avg_depth_spec(m: Mat4, t: Triangle) -> int {
    div_trunc(xform_z(m, t.p0) + xform_z(m, t.p1) + xform_z(m, t.p2), 3)
}

/// A triangle survives the frame exactly when all three camera-space
/// vertices pass the near-plane test.
pub open spec fn tri_visible(m: Mat4, t: Triangle) -> bool {
    visible(xform_z(m, t.p0)) && visible(xform_z(m, t.p1)) && visible(xform_z(m, t.p2))
}

/// Screen-plane projection of one vertex of a visible triangle.
pub open spec fn projected_spec(m: Mat4, p: crate::geometry::Vec3) -> Vec2 {
    Vec2 {
        x: project_x(xform_x(m, p), xform_z(m, p)) as i64,
        y: project_y(xform_y(m, p), xform_z(m, p)) as i64,
    }
}

/// The record a visible triangle renders to.
pub open spec fn record_spec(m: Mat4, t: Triangle) -> RenderRecord {
    RenderRecord {
        avg_depth: avg_depth_spec(m, t) as i64,
        shade: shade_spec(avg_depth_spec(m, t)) as i64,
        p0: projected_spec(m, t.p0),
        p1: projected_spec(m, t.p1),
        p2: projected_spec(m, t.p2),
    }
}

/// The average of three bounded depths stays bounded.
pub proof fn lemma_avg_depth_bound(m: Mat4, t: Triangle)
    requires
        wf_mat(m),
        wf_triangle(t),
    ensures
        -3 * MAX_CAM <= xform_z(m, t.p0) + xform_z(m, t.p1) + xform_z(m, t.p2) <= 3 * MAX_CAM,
        -MAX_CAM <= avg_depth_spec(m, t) <= MAX_CAM,
{
    crate::geometry::lemma_xform_bounds(m, t.p0);
    crate::geometry::lemma_xform_bounds(m, t.p1);
    crate::geometry::lemma_xform_bounds(m, t.p2);
    lemma_div_trunc_bound(
        xform_z(m, t.p0) + xform_z(m, t.p1) + xform_z(m, t.p2), 3 * MAX_CAM, 3);
    assert((3 * MAX_CAM as int) / 3 == MAX_CAM as int);
}

/// Triangle renderer: emits the record for a triangle whose three vertices
/// all project, and drops the triangle wholesale otherwise.
pub fn render_triangle(m: &Mat4, t: &Triangle) -> (r: Option<RenderRecord>)
    requires
        wf_mat(*m),
        wf_triangle(*t),
    ensures
        r is Some <==> tri_visible(*m, *t),
        r is Some ==> r->Some_0 == record_spec(*m, *t) && wf_record(r->Some_0),
{
    let v0 = transform_point(m, t.p0);
    let v1 = transform_point(m, t.p1);
    let v2 = transform_point(m, t.p2);

    proof {
        lemma_avg_depth_bound(*m, *t);
    }
    let avg_depth = fx_div(v0.z + v1.z + v2.z, 3);
    let shade = shade_of_depth(avg_depth);

    let q0 = project(v0);
    let q1 = project(v1);
    let q2 = project(v2);
    match (q0, q1, q2) {
        (Some(p0), Some(p1), Some(p2)) => Some(RenderRecord { avg_depth, shade, p0, p1, p2 }),
        _ => None,
    }
}

/// The frame's render output: the records of the visible triangles, in
/// input order.
pub open spec fn frame_spec(m: Mat4, ts: Seq<Triangle>) -> Seq<RenderRecord>
    decreases ts.len(),
{
    if ts.len() == 0 {
        Seq::empty()
    } else {
        frame_spec(m, ts.drop_last())
            + if tri_visible(m, ts.last()) {
                seq![record_spec(m, ts.last())]
            } else {
                Seq::empty()
            }
    }
}

/// Every record of a frame is the record of some visible input triangle,
/// and is well formed when the inputs are.
pub proof fn lemma_frame_spec_wf(m: Mat4, ts: Seq<Triangle>)
    requires
        wf_mat(m),
        forall|i: int| 0 <= i < ts.len() ==> wf_triangle(#[trigger] ts[i]),
    ensures
        forall|j: int| 0 <= j < frame_spec(m, ts).len()
            ==> wf_record(#[trigger] frame_spec(m, ts)[j]),
    decreases ts.len(),
{
    if ts.len() > 0 {
        let prefix = ts.drop_last();
        assert(forall|i: int| 0 <= i < prefix.len() ==> wf_triangle(#[trigger] prefix[i]));
        lemma_frame_spec_wf(m, prefix);
        if tri_visible(m, ts.last()) {
            lemma_record_spec_wf(m, ts.last());
        }
        assert forall|j: int| 0 <= j < frame_spec(m, ts).len()
            implies wf_record(frame_spec(m, ts)[j]) by {
            if j < frame_spec(m, prefix).len() {
                assert(frame_spec(m, ts)[j] == frame_spec(m, prefix)[j]);
            } else {
                assert(frame_spec(m, ts)[j] == record_spec(m, ts.last()));
            }
        }
    }
}

/// The record of a well-formed visible triangle is well formed.
pub proof fn lemma_record_spec_wf(m: Mat4, t: Triangle)
    requires
        wf_mat(m),
        wf_triangle(t),
        tri_visible(m, t),
    ensures
        wf_record(record_spec(m, t)),
{
    crate::geometry::lemma_xform_bounds(m, t.p0);
    crate::geometry::lemma_xform_bounds(m, t.p1);
    crate::geometry::lemma_xform_bounds(m, t.p2);
    lemma_avg_depth_bound(m, t);
    crate::project::lemma_project_bound(xform_x(m, t.p0), xform_z(m, t.p0));
    crate::project::lemma_project_bound(xform_y(m, t.p0), xform_z(m, t.p0));
    crate::project::lemma_project_bound(xform_x(m, t.p1), xform_z(m, t.p1));
    crate::project::lemma_project_bound(xform_y(m, t.p1), xform_z(m, t.p1));
    crate::project::lemma_project_bound(xform_x(m, t.p2), xform_z(m, t.p2));
    crate::project::lemma_project_bound(xform_y(m, t.p2), xform_z(m, t.p2));
}

/// Render pass over the whole frame: one record per visible triangle, in
/// the order the triangles arrive.
pub fn render_frame(m: &Mat4, tris: &Vec<Triangle>) -> (out: Vec<RenderRecord>)
    requires
        wf_mat(*m),
        forall|i: int| 0 <= i < tris@.len() ==> wf_triangle(#[trigger] tris@[i]),
    ensures
        out@ == frame_spec(*m, tris@),
        forall|j: int| 0 <= j < out@.len() ==> wf_record(#[trigger] out@[j]),
{
    let mut out: Vec<RenderRecord> = Vec::new();
    let n = tris.len();
    let mut i: usize = 0;
    while i < n
        invariant
            i <= n,
            n == tris@.len(),
            wf_mat(*m),
            forall|k: int| 0 <= k < tris@.len() ==> wf_triangle(#[trigger] tris@[k]),
            out@ == frame_spec(*m, tris@.take(i as int)),
        decreases n - i,
    {
        let t = tris[i];
        match render_triangle(m, &t) {
            Some(rec) => {
                out.push(rec);
            },
            None => {},
        }
        proof {
            let taken = tris@.take(i + 1 as int);
            assert(taken.drop_last() =~= tris@.take(i as int));
            assert(taken.last() == tris@[i as int]);
        }
        i = i + 1;
    }
    proof {
        assert(tris@.take(n as int) =~= tris@);
        lemma_frame_spec_wf(*m, tris@);
    }
    out
}

} // verus!
