//! End-to-end scenarios for the rasterization pipeline.

use orbit_raster::camera::build_camera;
use orbit_raster::compose::{compose_frame, render_scene};
use orbit_raster::fixed::SCALE;
use orbit_raster::geometry::{Triangle, Vec2, Vec3};
use orbit_raster::render::{render_frame, render_triangle, RenderRecord};
use orbit_raster::sort::sort_records;

fn tri(p0: (i64, i64, i64), p1: (i64, i64, i64), p2: (i64, i64, i64)) -> Triangle {
    Triangle {
        p0: Vec3 { x: p0.0, y: p0.1, z: p0.2 },
        p1: Vec3 { x: p1.0, y: p1.1, z: p1.2 },
        p2: Vec3 { x: p2.0, y: p2.1, z: p2.2 },
    }
}

fn rec(avg_depth: i64, marker: i64) -> RenderRecord {
    RenderRecord {
        avg_depth,
        shade: 500_000,
        p0: Vec2 { x: marker, y: 0 },
        p1: Vec2 { x: 0, y: 0 },
        p2: Vec2 { x: 0, y: 0 },
    }
}

#[test]
fn front_triangle_projects_exactly() {
    // Triangle {(0,0,2),(1,0,2),(0,1,2)} with zero yaw, zero pitch and zero
    // distance: every vertex passes the near-plane test and the projection
    // scale is focal/2 = 1, so the screen-plane points are (0,0), (1,0)
    // and (0,-1).
    let m = build_camera(0, SCALE, 0, SCALE, 0);
    let t = tri((0, 0, 2 * SCALE), (SCALE, 0, 2 * SCALE), (0, SCALE, 2 * SCALE));
    let r = render_triangle(&m, &t).expect("all three vertices are in front of the near plane");
    assert_eq!(r.avg_depth, 2 * SCALE);
    assert_eq!(r.p0, Vec2 { x: 0, y: 0 });
    assert_eq!(r.p1, Vec2 { x: SCALE, y: 0 });
    assert_eq!(r.p2, Vec2 { x: 0, y: -SCALE });
    // Depth 2 shades to 1 - 2/10 = 0.8.
    assert_eq!(r.shade, 800_000);
}

#[test]
fn triangle_behind_near_plane_renders_nothing() {
    // All vertices at z = 0.05 < 0.1 with zero distance: the whole triangle
    // is dropped and the frame output is empty.
    let m = build_camera(0, SCALE, 0, SCALE, 0);
    let t = tri((0, 0, 50_000), (SCALE, 0, 50_000), (0, SCALE, 50_000));
    assert!(render_triangle(&m, &t).is_none());
    let out = render_frame(&m, &vec![t]);
    assert_eq!(out.len(), 0);
}

#[test]
fn partially_behind_triangle_is_dropped_wholesale() {
    // One vertex behind the near plane is enough to drop the triangle.
    let m = build_camera(0, SCALE, 0, SCALE, 0);
    let t = tri((0, 0, 50_000), (SCALE, 0, 2 * SCALE), (0, SCALE, 2 * SCALE));
    assert!(render_triangle(&m, &t).is_none());
}

#[test]
fn near_plane_boundary_point_is_kept() {
    // The cull is a strict `z < near`: a vertex exactly on the plane stays.
    let m = build_camera(0, SCALE, 0, SCALE, 0);
    let t = tri((0, 0, 100_000), (SCALE, 0, 100_000), (0, SCALE, 100_000));
    assert!(render_triangle(&m, &t).is_some());
}

#[test]
fn deeper_triangle_draws_first() {
    // Two records with depths 5.0 and 2.0: after sorting, the depth-5.0
    // record comes first (painted underneath), the depth-2.0 one second.
    let mut v = vec![rec(2 * SCALE, 1), rec(5 * SCALE, 2)];
    sort_records(&mut v);
    assert_eq!(v[0].avg_depth, 5 * SCALE);
    assert_eq!(v[1].avg_depth, 2 * SCALE);
}

#[test]
fn sorting_twice_changes_nothing() {
    // Sorting is idempotent: re-sorting a sorted frame reproduces it.
    let mut v = vec![rec(SCALE, 1), rec(5 * SCALE, 2), rec(3 * SCALE, 3)];
    sort_records(&mut v);
    let once = v.clone();
    sort_records(&mut v);
    assert_eq!(v, once);
    assert_eq!(v[0].avg_depth, 5 * SCALE);
    assert_eq!(v[1].avg_depth, 3 * SCALE);
    assert_eq!(v[2].avg_depth, SCALE);
}

#[test]
fn equal_depths_keep_arrival_order() {
    // The sort is stable: records of equal depth stay in input order.
    let mut v = vec![rec(3 * SCALE, 20), rec(7 * SCALE, 10), rec(3 * SCALE, 30)];
    sort_records(&mut v);
    assert_eq!(v[0].p0.x, 10);
    assert_eq!(v[1].p0.x, 20);
    assert_eq!(v[2].p0.x, 30);
}

#[test]
fn sorting_empty_frame_is_fine() {
    let mut v: Vec<RenderRecord> = Vec::new();
    sort_records(&mut v);
    assert!(v.is_empty());
}

#[test]
fn scene_draws_back_to_front_with_depth_shading() {
    // Two axis-facing triangles at depths 5 and 2 plus one culled triangle:
    // the culled one vanishes, the far one is drawn first and darker.
    let m = build_camera(0, SCALE, 0, SCALE, 0);
    let far = tri((0, 0, 5 * SCALE), (SCALE, 0, 5 * SCALE), (0, SCALE, 5 * SCALE));
    let near = tri((0, 0, 2 * SCALE), (SCALE, 0, 2 * SCALE), (0, SCALE, 2 * SCALE));
    let culled = tri((0, 0, 50_000), (SCALE, 0, 50_000), (0, SCALE, 50_000));
    let tris = vec![near, far, culled];
    let center = Vec2 { x: 400 * SCALE, y: 300 * SCALE };
    let out = render_scene(&m, &tris, center, 0, 0);
    assert_eq!(out.len(), 2);
    // Depth 5 shades to 0.5 (gray 100); depth 2 shades to 0.8 (gray 160).
    assert_eq!(out[0].fill.r, 100);
    assert_eq!(out[1].fill.r, 160);
    assert_eq!(out[0].stroke.r, 255);
}

#[test]
fn compositor_places_pixels_from_center_scale_and_pan() {
    // screen = center + point * 100 + pan, in fixed-point pixels.
    let r = RenderRecord {
        avg_depth: 2 * SCALE,
        shade: 800_000,
        p0: Vec2 { x: SCALE, y: -SCALE },
        p1: Vec2 { x: 0, y: 0 },
        p2: Vec2 { x: -SCALE, y: SCALE },
    };
    let center = Vec2 { x: 400 * SCALE, y: 300 * SCALE };
    let out = compose_frame(&vec![r], center, 10 * SCALE, -5 * SCALE);
    assert_eq!(out.len(), 1);
    let cmd = &out[0];
    assert_eq!(cmd.p0.x, 400 * SCALE + 100 * SCALE + 10 * SCALE);
    assert_eq!(cmd.p0.y, 300 * SCALE - 100 * SCALE - 5 * SCALE);
    assert_eq!(cmd.p2.x, 400 * SCALE - 100 * SCALE + 10 * SCALE);
    // shade 0.8 -> gray 160, replicated across channels.
    assert_eq!(cmd.fill.r, 160);
    assert_eq!(cmd.fill.g, 160);
    assert_eq!(cmd.fill.b, 160);
    assert_eq!(cmd.stroke_width, SCALE);
}
