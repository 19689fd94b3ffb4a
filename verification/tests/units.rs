//! Unit checks for the fixed-point arithmetic, the camera transform
//! builder, the projector, the shade, and the input fold.

use orbit_raster::camera::{build_camera, CameraState, InputState};
use orbit_raster::fixed::{clamp, fx_div, fx_mul, SCALE};
use orbit_raster::geometry::{transform_point, Vec3};
use orbit_raster::project::{project, shade_of_depth};

fn no_input() -> InputState {
    InputState {
        is_dragging: false,
        primary_down: false,
        secondary_down: false,
        drag_dx: 0,
        drag_dy: 0,
        scroll_y: 0,
    }
}

#[test]
fn fixed_point_products_are_exact() {
    // 1.5 * 2.0 == 3.0
    assert_eq!(fx_mul(1_500_000, 2_000_000), 3_000_000);
    assert_eq!(fx_mul(-1_500_000, 2_000_000), -3_000_000);
    // A sub-step product truncates toward zero on both sides.
    assert_eq!(fx_mul(1, 500_000), 0);
    assert_eq!(fx_mul(-1, 500_000), 0);
}

#[test]
fn division_truncates_toward_zero() {
    assert_eq!(fx_div(7, 2), 3);
    assert_eq!(fx_div(-7, 2), -3);
    assert_eq!(fx_div(0, 5), 0);
}

#[test]
fn clamp_pins_both_ends() {
    assert_eq!(clamp(5, 0, 3), 3);
    assert_eq!(clamp(-5, 0, 3), 0);
    assert_eq!(clamp(2, 0, 3), 2);
}

#[test]
fn camera_matrix_entries_follow_the_closed_form() {
    // sin = 0.6, cos = 0.8 for both angles, distance 1.
    let m = build_camera(600_000, 800_000, 600_000, 800_000, SCALE);
    assert_eq!(m.m00, 800_000);
    assert_eq!(m.m01, 0);
    assert_eq!(m.m02, 600_000);
    assert_eq!(m.m03, 0);
    assert_eq!(m.m10, 360_000); // sin(pitch) * sin(yaw)
    assert_eq!(m.m11, 800_000);
    assert_eq!(m.m12, -480_000); // -sin(pitch) * cos(yaw)
    assert_eq!(m.m20, -480_000); // -cos(pitch) * sin(yaw)
    assert_eq!(m.m21, 600_000);
    assert_eq!(m.m22, 640_000); // cos(pitch) * cos(yaw)
    assert_eq!(m.m23, SCALE);
    assert_eq!((m.m30, m.m31, m.m32, m.m33), (0, 0, 0, SCALE));
}

#[test]
fn zero_angles_and_distance_give_the_identity() {
    // The round-trip: the zero camera moves no point.
    let m = build_camera(0, SCALE, 0, SCALE, 0);
    let p = Vec3 { x: 123_456, y: -654_321, z: 42 };
    let q = transform_point(&m, p);
    assert_eq!((q.x, q.y, q.z), (p.x, p.y, p.z));
}

#[test]
fn distance_translates_along_the_view_axis() {
    let m = build_camera(0, SCALE, 0, SCALE, 7 * SCALE);
    let q = transform_point(&m, Vec3 { x: SCALE, y: 2 * SCALE, z: 3 * SCALE });
    assert_eq!((q.x, q.y, q.z), (SCALE, 2 * SCALE, 10 * SCALE));
}

#[test]
fn transform_applies_rotation_rows() {
    let m = build_camera(600_000, 800_000, 600_000, 800_000, SCALE);
    let q = transform_point(&m, Vec3 { x: SCALE, y: 0, z: 0 });
    assert_eq!(q.x, 800_000);
    assert_eq!(q.y, 360_000);
    assert_eq!(q.z, -480_000 + SCALE);
}

#[test]
fn quarter_yaw_swings_x_toward_the_camera() {
    // sin = 1, cos = 0: rotation about the vertical axis by a quarter turn
    // sends the x axis to -z.
    let m = build_camera(SCALE, 0, 0, SCALE, 0);
    let q = transform_point(&m, Vec3 { x: SCALE, y: 0, z: 0 });
    assert_eq!((q.x, q.y, q.z), (0, 0, -SCALE));
}

#[test]
fn quarter_pitch_tilts_y_into_depth() {
    // Rotation about the horizontal axis by a quarter turn sends the y axis
    // to +z.
    let m = build_camera(0, SCALE, SCALE, 0, 0);
    let q = transform_point(&m, Vec3 { x: 0, y: SCALE, z: 0 });
    assert_eq!((q.x, q.y, q.z), (0, 0, SCALE));
}

#[test]
fn yaw_is_applied_before_pitch() {
    // Quarter yaw then quarter pitch moves the x axis to -z and then to +y.
    // The opposite order would land it on -z instead, so this pins the
    // composition order of the builder.
    let m = build_camera(SCALE, 0, SCALE, 0, 0);
    let q = transform_point(&m, Vec3 { x: SCALE, y: 0, z: 0 });
    assert_eq!((q.x, q.y, q.z), (0, SCALE, 0));
}

#[test]
fn projection_scales_by_focal_over_depth_and_flips_y() {
    // z = 4: scale = 2/4 = 0.5.
    let p = project(Vec3 { x: 1_000_000, y: 2_000_000, z: 4_000_000 }).unwrap();
    assert_eq!(p.x, 500_000);
    assert_eq!(p.y, -1_000_000);
}

#[test]
fn points_behind_the_near_plane_are_absent() {
    assert!(project(Vec3 { x: 0, y: 0, z: 99_999 }).is_none());
    assert!(project(Vec3 { x: 0, y: 0, z: -5_000_000 }).is_none());
    // Exactly on the plane: kept, scale = 2/0.1 = 20.
    let p = project(Vec3 { x: 50_000, y: 0, z: 100_000 }).unwrap();
    assert_eq!(p.x, 1_000_000);
}

#[test]
fn axis_point_projects_to_center_for_any_distance() {
    for dist in [0, SCALE, 10 * SCALE] {
        let m = build_camera(0, SCALE, 0, SCALE, dist);
        let q = transform_point(&m, Vec3 { x: 0, y: 0, z: 2 * SCALE });
        let p = project(q).unwrap();
        assert_eq!((p.x, p.y), (0, 0));
    }
}

#[test]
fn moving_the_camera_away_shrinks_points() {
    let p = Vec3 { x: SCALE, y: SCALE, z: 0 };
    let near = project(transform_point(&build_camera(0, SCALE, 0, SCALE, 2 * SCALE), p)).unwrap();
    let far = project(transform_point(&build_camera(0, SCALE, 0, SCALE, 8 * SCALE), p)).unwrap();
    assert!(far.x.abs() < near.x.abs());
    assert!(far.y.abs() < near.y.abs());
}

#[test]
fn shade_darkens_with_depth_and_clamps() {
    assert_eq!(shade_of_depth(2_000_000), 800_000);
    assert_eq!(shade_of_depth(0), SCALE);
    // Ten units or more: fully dark.
    assert_eq!(shade_of_depth(10_000_000), 0);
    assert_eq!(shade_of_depth(25_000_000), 0);
    // Behind the camera the fog formula saturates at full brightness.
    assert_eq!(shade_of_depth(-5_000_000), SCALE);
}

#[test]
fn primary_drag_rotates() {
    let mut cam = CameraState::new();
    let input = InputState {
        is_dragging: true,
        primary_down: true,
        drag_dx: 100 * SCALE,
        drag_dy: 50 * SCALE,
        ..no_input()
    };
    cam.apply_input(input);
    // yaw -= dx * 0.01, pitch += dy * 0.01.
    assert_eq!(cam.yaw, -SCALE);
    assert_eq!(cam.pitch, 500_000);
    assert_eq!(cam.pan_x, 0);
    assert_eq!(cam.distance, 3 * SCALE);
}

#[test]
fn secondary_drag_pans() {
    let mut cam = CameraState::new();
    let input = InputState {
        is_dragging: true,
        secondary_down: true,
        drag_dx: 100 * SCALE,
        drag_dy: -40 * SCALE,
        ..no_input()
    };
    cam.apply_input(input);
    // pan += d * 0.5.
    assert_eq!(cam.pan_x, 50 * SCALE);
    assert_eq!(cam.pan_y, -20 * SCALE);
    assert_eq!(cam.yaw, 0);
}

#[test]
fn scroll_zooms_multiplicatively() {
    let mut cam = CameraState::new();
    cam.apply_input(InputState { scroll_y: 100 * SCALE, ..no_input() });
    // factor = 1 - 100 * 0.001 = 0.9; distance 3.0 -> 2.7.
    assert_eq!(cam.distance, 2_700_000);
    let mut cam2 = CameraState::new();
    cam2.apply_input(InputState { scroll_y: -1000 * SCALE, ..no_input() });
    // factor = 1 + 1 = 2; distance 3.0 -> 6.0.
    assert_eq!(cam2.distance, 6_000_000);
}

#[test]
fn zoom_factor_bottoms_out_at_one_twentieth() {
    let mut cam = CameraState::new();
    // 1 - 1000 * 0.001 = 0 would collapse the distance; the factor floors
    // at 0.05 instead.
    cam.apply_input(InputState { scroll_y: 1000 * SCALE, ..no_input() });
    assert_eq!(cam.distance, 150_000);
}

#[test]
fn distance_never_reaches_zero() {
    let mut cam = CameraState::new();
    cam.distance = 1_000; // already at the floor
    cam.apply_input(InputState { scroll_y: 1000 * SCALE, ..no_input() });
    assert_eq!(cam.distance, 1_000);
}

#[test]
fn dragging_without_buttons_changes_nothing() {
    let mut cam = CameraState::new();
    let before = cam;
    cam.apply_input(InputState {
        is_dragging: true,
        drag_dx: 10 * SCALE,
        drag_dy: 10 * SCALE,
        ..no_input()
    });
    assert_eq!(cam, before);
}
