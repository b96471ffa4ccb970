//! The 2D camera: construction, zoom clamping, panning, and the
//! view-projection product invariant.

use volka::cam2d::Camera2d;
use volka::cam2d::CameraEvent;
use volka::cam2d::HeldKeys;
use volka::cam2d::ZOOM_GAIN;
use volka::cam2d::ZOOM_MIN;
use volka::fixed::FX_ONE;
use volka::mat4::Mat4;
use volka::rng::SplitMix64;

// 800x600 window: aspect ratio 800/600 in fixed point.
const ASPECT: i64 = 800 * FX_ONE / 600;
const SPEED: i64 = 500 * FX_ONE;
const ZOOM_100: i64 = 100 * FX_ONE;

// dt of one sixteen-millisecond frame in fixed point.
const DT_FRAME: i64 = (16 * FX_ONE) / 1000;

fn fxm(a: i64, b: i64) -> i64 {
    let p = (a as i128) * (b as i128);
    if p >= 0 {
        (p / (FX_ONE as i128)) as i64
    } else {
        -((-p / (FX_ONE as i128)) as i64)
    }
}

fn expected_ortho(hw: i64, zoom: i64) -> Mat4 {
    Mat4::orthographic_rh_gl(-hw, hw, -zoom, zoom)
}

#[test]
fn new_camera_has_identity_view_and_matching_product() {
    let cam = Camera2d::new(ASPECT, SPEED, ZOOM_100);
    assert_eq!(cam.view, Mat4::identity());
    assert_eq!(cam.view_projection, cam.projection);
    let hw = fxm(ASPECT, ZOOM_100);
    assert_eq!(cam.projection, expected_ortho(hw, ZOOM_100));
}

#[test]
fn one_wheel_notch_at_frame_dt_hits_the_zoom_floor() {
    let mut cam = Camera2d::new(ASPECT, SPEED, ZOOM_100);
    let evt = CameraEvent::MouseWheel { delta_x: 0, delta_y: FX_ONE };
    cam.on_event(&evt, DT_FRAME);
    // 100 - 1 * 50000 * 0.016 is far below the floor of 50.
    let dec = fxm(fxm(FX_ONE, DT_FRAME), ZOOM_GAIN);
    assert!(ZOOM_100 - dec < ZOOM_MIN);
    assert_eq!(cam.zoom, ZOOM_MIN);
}

#[test]
fn gentle_wheel_moves_zoom_by_the_exact_formula() {
    let mut cam = Camera2d::new(ASPECT, SPEED, ZOOM_100);
    // A tiny delta over a tiny dt stays above the floor.
    let delta: i64 = FX_ONE / 100;
    let dt: i64 = FX_ONE / 1000;
    let evt = CameraEvent::MouseWheel { delta_x: 0, delta_y: delta };
    cam.on_event(&evt, dt);
    let expected = ZOOM_100 - fxm(fxm(delta, dt), ZOOM_GAIN);
    assert_eq!(cam.zoom, expected);
    let hw = fxm(ASPECT, expected);
    assert_eq!(cam.projection, expected_ortho(hw, expected));
}

#[test]
fn zoom_never_drops_below_the_floor() {
    let mut cam = Camera2d::new(ASPECT, SPEED, ZOOM_100);
    let mut rng = SplitMix64::new(99);
    for _ in 0..200 {
        let mag = rng.next_below(1 << 24);
        let sign: i64 = if rng.next_below(2) == 0 { 1 } else { -1 };
        let evt = CameraEvent::MouseWheel { delta_x: 0, delta_y: sign * mag };
        let dt = rng.next_below(FX_ONE);
        cam.on_event(&evt, dt);
        assert!(cam.zoom >= ZOOM_MIN);
    }
}

#[test]
fn view_projection_always_equals_projection_times_view() {
    let mut cam = Camera2d::new(ASPECT, SPEED, ZOOM_100);
    assert_eq!(cam.view_projection, cam.projection.mul_mat4(&cam.view));
    let held = HeldKeys { up: true, down: false, left: false, right: true };
    cam.on_update(&held, DT_FRAME);
    assert_eq!(cam.view_projection, cam.projection.mul_mat4(&cam.view));
    let evt = CameraEvent::MouseWheel { delta_x: 0, delta_y: -3 * FX_ONE };
    cam.on_event(&evt, DT_FRAME);
    assert_eq!(cam.view_projection, cam.projection.mul_mat4(&cam.view));
    cam.set_projection(-2 * FX_ONE, 2 * FX_ONE, -FX_ONE, FX_ONE);
    assert_eq!(cam.view_projection, cam.projection.mul_mat4(&cam.view));
    cam.reload_view_matrix();
    assert_eq!(cam.view_projection, cam.projection.mul_mat4(&cam.view));
}

#[test]
fn idle_update_changes_nothing() {
    let mut cam = Camera2d::new(ASPECT, SPEED, ZOOM_100);
    let held = HeldKeys { up: true, down: false, left: false, right: false };
    cam.on_update(&held, DT_FRAME);
    let pos = cam.position;
    let view = cam.view;
    let proj = cam.projection;
    let vp = cam.view_projection;
    cam.on_update(&HeldKeys::none(), 0);
    assert_eq!(cam.position, pos);
    assert_eq!(cam.view, view);
    assert_eq!(cam.projection, proj);
    assert_eq!(cam.view_projection, vp);
}

#[test]
fn held_keys_pan_by_speed_times_dt() {
    let mut cam = Camera2d::new(ASPECT, SPEED, ZOOM_100);
    let step = fxm(SPEED, DT_FRAME);
    let held = HeldKeys { up: true, down: false, left: true, right: false };
    cam.on_update(&held, DT_FRAME);
    assert_eq!(cam.position.x, -step);
    assert_eq!(cam.position.y, step);
    // Opposite keys cancel.
    let both = HeldKeys { up: true, down: true, left: true, right: true };
    cam.on_update(&both, DT_FRAME);
    assert_eq!(cam.position.x, -step);
    assert_eq!(cam.position.y, step);
    // The view is the inverse translation of the position.
    assert_eq!(cam.view, Mat4::from_translation(step, -step, 0));
}

#[test]
fn a_thousand_wheel_notches_converge_to_the_floor() {
    let mut cam = Camera2d::new(ASPECT, SPEED, ZOOM_100);
    let evt = CameraEvent::MouseWheel { delta_x: 0, delta_y: FX_ONE };
    for _ in 0..1000 {
        cam.on_event(&evt, DT_FRAME);
        assert!(cam.zoom >= ZOOM_MIN);
    }
    assert_eq!(cam.zoom, ZOOM_MIN);
    let hw = fxm(ASPECT, ZOOM_MIN);
    assert_eq!(cam.projection, expected_ortho(hw, ZOOM_MIN));
    assert_eq!(cam.view_projection, cam.projection.mul_mat4(&cam.view));
}

#[test]
fn set_projection_writes_the_orthographic_entries() {
    let mut cam = Camera2d::new(ASPECT, SPEED, ZOOM_100);
    cam.set_projection(-4 * FX_ONE, 4 * FX_ONE, -2 * FX_ONE, 2 * FX_ONE);
    assert_eq!(cam.projection, Mat4::orthographic_rh_gl(
        -4 * FX_ONE,
        4 * FX_ONE,
        -2 * FX_ONE,
        2 * FX_ONE,
    ));
    // Symmetric box: no translation component, scale entries 1/w and 1/h.
    assert_eq!(cam.projection.w_axis.x, 0);
    assert_eq!(cam.projection.w_axis.y, 0);
    assert_eq!(cam.projection.x_axis.x, FX_ONE / 4);
    assert_eq!(cam.projection.y_axis.y, FX_ONE / 2);
    assert_eq!(cam.projection.z_axis.z, -FX_ONE);
}
