use orbit_sandbox::camera::target_camera::{
    TargetCamera, DEFAULT_MAX_DISTANCE, DEFAULT_MIN_DISTANCE,
};
use orbit_sandbox::camera::Camera;
use orbit_sandbox::math::{V3, SCALE};
use orbit_sandbox::matrix::transform_point;
use orbit_sandbox::quat::{QNORM, QS, QTOL};

fn norm_sq(c: &TargetCamera) -> i64 {
    let q = c.rotation;
    q.w * q.w + q.x * q.x + q.y * q.y + q.z * q.z
}

#[test]
fn zoom_out_by_one_notch_adds_a_tenth() {
    // distance 1.0, wheel y = -1, zoom speed 0.1 -> distance 1.1
    let mut c = TargetCamera::new(0, SCALE);
    assert_eq!(c.distance, 1_000_000);
    c.zoom(-1);
    assert_eq!(c.distance, 1_100_000);
}

#[test]
fn zoom_in_by_one_notch_removes_a_tenth() {
    let mut c = TargetCamera::new(0, SCALE);
    c.zoom(1);
    assert_eq!(c.distance, 900_000);
}

#[test]
fn zoom_clamps_at_both_ends_of_the_range() {
    let mut c = TargetCamera::new(0, SCALE);
    c.zoom(i32::MAX);
    assert_eq!(c.distance, DEFAULT_MIN_DISTANCE);
    c.zoom(i32::MIN);
    assert_eq!(c.distance, DEFAULT_MAX_DISTANCE);
}

#[test]
fn zoom_sequences_stay_in_range() {
    let mut c = TargetCamera::new(0, SCALE);
    let deltas = [-3, 17, -2000, 40_000, -123_456, 7, 0, -1, 999_999, -999_999];
    for &d in deltas.iter() {
        c.zoom(d);
        assert!(DEFAULT_MIN_DISTANCE <= c.distance && c.distance <= DEFAULT_MAX_DISTANCE);
    }
}

#[test]
fn rotation_starts_at_the_identity() {
    let c = TargetCamera::new(0, SCALE);
    assert_eq!((c.rotation.w, c.rotation.x, c.rotation.y, c.rotation.z), (QS, 0, 0, 0));
}

#[test]
fn rotate_changes_the_orientation() {
    let mut c = TargetCamera::new(0, SCALE);
    c.rotate(100, 0);
    assert_ne!(c.rotation.y, 0);
}

#[test]
fn rotate_sequences_keep_the_orientation_unit() {
    let mut c = TargetCamera::new(0, SCALE);
    let deltas = [(100, 0), (0, 100), (-250, 80), (1_000_000, -1_000_000), (3, 3), (-1, 2)];
    for &(dx, dy) in deltas.iter() {
        c.rotate(dx, dy);
        let n = norm_sq(&c);
        assert!(QNORM - QTOL <= n && n <= QNORM + QTOL);
    }
}

#[test]
fn view_matrix_sends_the_target_to_distance_down_the_view_axis() {
    let mut c = TargetCamera::new(0, 5 * SCALE);
    // Move and rotate so the matrix is not trivial.
    c.flags.forward = true;
    c.flags.faster = true;
    c.tick_movement();
    c.rotate(137, -59);
    c.rotate(-21, 400);
    c.tick_movement();
    let m = c.get_view_matrix();
    let p = transform_point(&m, &c.target);
    assert_eq!(p, V3 { x: 0, y: 0, z: -c.distance });
}

#[test]
fn default_view_matrix_is_a_pure_translation() {
    let c = TargetCamera::new(0, 2 * SCALE);
    let m = c.get_view_matrix();
    assert_eq!((m.r0.x, m.r0.y, m.r0.z, m.r0.w), (SCALE, 0, 0, 0));
    assert_eq!((m.r1.x, m.r1.y, m.r1.z, m.r1.w), (0, SCALE, 0, 0));
    assert_eq!((m.r2.x, m.r2.y, m.r2.z, m.r2.w), (0, 0, SCALE, -2 * SCALE));
    assert_eq!((m.r3.x, m.r3.y, m.r3.z, m.r3.w), (0, 0, 0, SCALE));
}

#[test]
fn resize_stores_the_exact_aspect_ratio() {
    let mut c = TargetCamera::new(0, SCALE);
    c.resize(800, 600);
    assert_eq!(c.aspect_ratio(), (800, 600));
}

#[test]
fn resize_clamps_a_zero_height_to_one() {
    let mut c = TargetCamera::new(0, SCALE);
    c.resize(123, 0);
    assert_eq!(c.aspect_ratio(), (123, 1));
    c.resize(0, -7);
    assert_eq!(c.aspect_ratio(), (0, 1));
}

#[test]
fn a_later_resize_replaces_the_stored_aspect() {
    let mut c = TargetCamera::new(0, SCALE);
    c.resize(100, 50);
    c.resize(200, 100);
    assert_eq!(c.aspect_ratio(), (200, 100));
}

#[test]
fn a_zero_zoom_delta_changes_nothing() {
    let mut c = TargetCamera::new(0, SCALE);
    c.zoom(0);
    assert_eq!(c.distance, 1_000_000);
}

#[test]
fn pan_forward_moves_the_target_along_minus_z() {
    let mut c = TargetCamera::new(0, SCALE);
    c.flags.forward = true;
    c.tick_movement();
    assert_eq!(c.target, V3 { x: 0, y: 0, z: -50_000 });
    c.flags.faster = true;
    c.tick_movement();
    assert_eq!(c.target, V3 { x: 0, y: 0, z: -200_000 });
}

#[test]
fn opposing_pan_flags_cancel() {
    let mut c = TargetCamera::new(0, SCALE);
    c.flags.left = true;
    c.flags.right = true;
    c.flags.up = true;
    c.tick_movement();
    assert_eq!(c.target, V3 { x: 0, y: 50_000, z: 0 });
}

#[test]
fn orbit_projection_scales_with_the_aspect_ratio() {
    let mut c = TargetCamera::new(0, SCALE);
    c.resize(900, 700);
    let m = c.get_p_matrix();
    // 1 / (45 * 900 / 700) units: SCALE * 700 / (45 * 900)
    assert_eq!(m.r0.x, 1_000_000 * 700 / (45 * 900));
    assert_eq!(m.r1.y, 2_000_000 / 70);
    assert_eq!(m.r2.z, -200_000);
    assert_eq!(m.r2.w, -SCALE);
}

#[test]
fn plain_camera_view_matrix_translates_by_target_and_distance() {
    let c = Camera::new(0, 3 * SCALE);
    let m = c.get_view_matrix();
    assert_eq!((m.r0.w, m.r1.w, m.r2.w), (0, 0, -3 * SCALE));
    let p = transform_point(&m, &c.target);
    assert_eq!(p, V3 { x: 0, y: 0, z: -3 * SCALE });
}

#[test]
fn plain_camera_projection_has_the_fixed_extents() {
    let c = Camera::new(0, SCALE);
    let m = c.get_p_matrix();
    assert_eq!(m.r0.x, 22_222);
    assert_eq!(m.r1.y, 28_571);
    assert_eq!(m.r2.z, -SCALE);
    assert_eq!(m.r2.w, 0);
}
