//! The canvas compositor: maps each sorted render record to one draw
//! command — three screen pixel coordinates, a fill colour derived from
//! the record's shade, and a fixed outline — in back-to-front order.
//! The draw commands are the core's entire output; putting them on an
//! actual canvas is the presentation layer's concern.

use vstd::prelude::*;
use crate::fixed::{div_trunc, fx_div, lemma_div_trunc_bound, SCALE};
use crate::geometry::{in_coord_range, wf_mat, wf_triangle, Mat4, Triangle, Vec2};
use crate::render::{frame_spec, render_frame, wf_record, RenderRecord};
use crate::sort::{sort_records, sorted_desc};

verus! {

/// Screen pixels per projected unit.
pub const RENDER_SCALE: i64 = 100;

/// Gray level a fully lit shade maps to.
pub const GRAY_RANGE: i64 = 200;

/// Outline width in fixed-point pixels (1.0).
pub const STROKE_WIDTH: i64 = 1_000_000;

/// An RGB colour.
#[derive(Clone, Copy, PartialEq, Eq, Structural, Debug)]
pub struct Rgb {
    pub r: u8,
    pub g: u8,
    pub b: u8,
}

/// One filled, outlined triangle to paint, in fixed-point screen pixels.
#[derive(Clone, Copy, PartialEq, Eq, Structural, Debug)]
pub struct DrawCmd {
    pub p0: Vec2,
    pub p1: Vec2,
    pub p2: Vec2,
    pub fill: Rgb,
    pub stroke: Rgb,
    pub stroke_width: i64,
}

/// Screen position of a projected point: canvas centre plus the point
/// scaled to pixels plus the pan offset.
pub open spec fn screen_x_spec(p: Vec2, center: Vec2, pan_x: int) -> int {
    center.x + p.x * RENDER_SCALE + pan_x
}

/// Screen position of a projected point, y axis.
pub open spec fn screen_y_spec(p: Vec2, center: Vec2, pan_y: int) -> int {
    center.y + p.y * RENDER_SCALE + pan_y
}

/// Gray level of a shade in `[0, 1]`: `shade * 200`, truncated.
pub open spec fn gray_spec(shade: int) -> int {
    div_trunc(shade * GRAY_RANGE, SCALE as int)
}

/// The draw command of one record: three screen points, a grayscale fill
/// from the record's shade, and a fixed white outline.
pub open spec fn draw_cmd_spec(r: RenderRecord, center: Vec2, pan_x: int, pan_y: int) -> DrawCmd {
    DrawCmd {
        p0: Vec2 {
            x: screen_x_spec(r.p0, center, pan_x) as i64,
            y: screen_y_spec(r.p0, center, pan_y) as i64,
        },
        p1: Vec2 {
            x: screen_x_spec(r.p1, center, pan_x) as i64,
            y: screen_y_spec(r.p1, center, pan_y) as i64,
        },
        p2: Vec2 {
            x: screen_x_spec(r.p2, center, pan_x) as i64,
            y: screen_y_spec(r.p2, center, pan_y) as i64,
        },
        fill: Rgb {
            r: gray_spec(r.shade as int) as u8,
            g: gray_spec(r.shade as int) as u8,
            b: gray_spec(r.shade as int) as u8,
        },
        stroke: Rgb { r: 255, g: 255, b: 255 },
        stroke_width: STROKE_WIDTH,
    }
}

/// A shade in `[0, 1]` grays to `[0, GRAY_RANGE]`, which fits a colour
/// channel.
pub proof fn lemma_gray_bound(shade: int)
    requires
        0 <= shade <= SCALE,
    ensures
        0 <= gray_spec(shade) <= GRAY_RANGE,
{
    assert(0 <= shade * GRAY_RANGE <= SCALE * GRAY_RANGE) by (nonlinear_arith)
        requires
            0 <= shade <= SCALE,
    ;
    lemma_div_trunc_bound(shade * GRAY_RANGE, SCALE * GRAY_RANGE, SCALE as int);
    crate::fixed::lemma_div_trunc_exact(GRAY_RANGE as int, SCALE as int);
    assert(SCALE * GRAY_RANGE == (SCALE as int) * (GRAY_RANGE as int));
}

/// Compute one record's draw command.
fn draw_one(r: &RenderRecord, center: Vec2, pan_x: i64, pan_y: i64) -> (c: DrawCmd)
    requires
        wf_record(*r),
        in_coord_range(center.x as int),
        in_coord_range(center.y as int),
        in_coord_range(pan_x as int),
        in_coord_range(pan_y as int),
    ensures
        c == draw_cmd_spec(*r, center, pan_x as int, pan_y as int),
{
    proof {
        lemma_gray_bound(r.shade as int);
        assert(0 <= r.shade * GRAY_RANGE <= SCALE * GRAY_RANGE) by (nonlinear_arith)
            requires
                0 <= r.shade <= SCALE,
        ;
    }
    let gray_level = fx_div(r.shade * GRAY_RANGE, SCALE);
    let gray = gray_level as u8;
    let fill = Rgb { r: gray, g: gray, b: gray };
    let stroke = Rgb { r: 255, g: 255, b: 255 };
    DrawCmd {
        p0: Vec2 {
            x: center.x + r.p0.x * RENDER_SCALE + pan_x,
            y: center.y + r.p0.y * RENDER_SCALE + pan_y,
        },
        p1: Vec2 {
            x: center.x + r.p1.x * RENDER_SCALE + pan_x,
            y: center.y + r.p1.y * RENDER_SCALE + pan_y,
        },
        p2: Vec2 {
            x: center.x + r.p2.x * RENDER_SCALE + pan_x,
            y: center.y + r.p2.y * RENDER_SCALE + pan_y,
        },
        fill,
        stroke,
        stroke_width: STROKE_WIDTH,
    }
}

/// Canvas compositor: walk the records in their given order and emit one
/// draw command each.
pub fn compose_frame(records: &Vec<RenderRecord>, center: Vec2, pan_x: i64, pan_y: i64)
    -> (out: Vec<DrawCmd>)
    requires
        forall|j: int| 0 <= j < records@.len() ==> wf_record(#[trigger] records@[j]),
        in_coord_range(center.x as int),
        in_coord_range(center.y as int),
        in_coord_range(pan_x as int),
        in_coord_range(pan_y as int),
    ensures
        out@.len() == records@.len(),
        forall|j: int| 0 <= j < out@.len()
            ==> #[trigger] out@[j]
                == draw_cmd_spec(records@[j], center, pan_x as int, pan_y as int),
{
    let mut out: Vec<DrawCmd> = Vec::new();
    let n = records.len();
    let mut i: usize = 0;
    while i < n
        invariant
            i <= n,
            n == records@.len(),
            forall|j: int| 0 <= j < records@.len() ==> wf_record(#[trigger] records@[j]),
            in_coord_range(center.x as int),
            in_coord_range(center.y as int),
            in_coord_range(pan_x as int),
            in_coord_range(pan_y as int),
            out@.len() == i,
            forall|j: int| 0 <= j < i
                ==> #[trigger] out@[j]
                    == draw_cmd_spec(records@[j], center, pan_x as int, pan_y as int),
        decreases n - i,
    {
        let rec = records[i];
        let cmd = draw_one(&rec, center, pan_x, pan_y);
        out.push(cmd);
        i = i + 1;
    }
    out
}

/// Elements of a permutation of a well-formed frame are well formed.
pub proof fn lemma_permutation_preserves_wf(s1: Seq<RenderRecord>, s2: Seq<RenderRecord>)
    requires
        s1.to_multiset() == s2.to_multiset(),
        forall|j: int| 0 <= j < s1.len() ==> wf_record(#[trigger] s1[j]),
    ensures
        forall|j: int| 0 <= j < s2.len() ==> wf_record(#[trigger] s2[j]),
{
    s1.to_multiset_ensures();
    s2.to_multiset_ensures();
    assert forall|j: int| 0 <= j < s2.len() implies wf_record(s2[j]) by {
        assert(s2.to_multiset().count(s2[j]) > 0);
        assert(s1.contains(s2[j]));
    }
}

/// The whole per-frame pipeline: render every triangle, order the records
/// back to front, and emit the draw commands. The output draws some
/// back-to-front ordering of exactly the frame's visible triangles.
pub fn render_scene(m: &Mat4, tris: &Vec<Triangle>, center: Vec2, pan_x: i64, pan_y: i64)
    -> (out: Vec<DrawCmd>)
    requires
        wf_mat(*m),
        forall|i: int| 0 <= i < tris@.len() ==> wf_triangle(#[trigger] tris@[i]),
        in_coord_range(center.x as int),
        in_coord_range(center.y as int),
        in_coord_range(pan_x as int),
        in_coord_range(pan_y as int),
    ensures
        exists|s: Seq<RenderRecord>|
            {
                &&& s.to_multiset() == frame_spec(*m, tris@).to_multiset()
                &&& sorted_desc(s)
                &&& out@.len() == s.len()
                &&& forall|j: int| 0 <= j < s.len()
                    ==> #[trigger] out@[j]
                        == draw_cmd_spec(s[j], center, pan_x as int, pan_y as int)
            },
{
    let mut records = render_frame(m, tris);
    sort_records(&mut records);
    proof {
        lemma_permutation_preserves_wf(frame_spec(*m, tris@), records@);
    }
    let out = compose_frame(&records, center, pan_x, pan_y);
    proof {
        let s = records@;
        assert(s.to_multiset() == frame_spec(*m, tris@).to_multiset());
        assert(sorted_desc(s));
    }
    out
}

} // verus!
