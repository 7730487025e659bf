//! Movement axes, direction vectors, acceleration and the velocity
//! update with its speed clamp.

use gameclient::camera::{FPSCamera, MouseSample};
use gameclient::movement::{
    accel_from_player, forward_vector, movement_axis, player_dynamics, strafe_vector, KeyState,
};
use gameclient::trig::{cos_milli, sin_milli, wrap_angle};
use gameclient::vec3::Vec3Fix;

fn still_sample() -> MouseSample {
    MouseSample { dx: 0, dy: 0, finite: true }
}

fn no_keys() -> KeyState {
    KeyState { forward: false, back: false, left: false, right: false, jump: false }
}

fn forward_key() -> KeyState {
    KeyState { forward: true, ..no_keys() }
}

/// A camera tuned as the speed-clamp scenarios ask: target speed 4.0,
/// acceleration 0.8.
fn walking_camera() -> FPSCamera {
    FPSCamera { target_speed: 4_000, acceleration: 800, ..FPSCamera::default() }
}

#[test]
fn sine_model_values() {
    assert_eq!(sin_milli(0), 0);
    assert_eq!(sin_milli(30_000), 500);
    assert_eq!(sin_milli(90_000), 1000);
    assert_eq!(sin_milli(180_000), 0);
    assert_eq!(sin_milli(270_000), -1000);
    assert_eq!(cos_milli(0), 1000);
    assert_eq!(cos_milli(60_000), 500);
    assert_eq!(cos_milli(90_000), 0);
    assert_eq!(cos_milli(180_000), -1000);
}

#[test]
fn wrap_angle_values() {
    assert_eq!(wrap_angle(0), 0);
    assert_eq!(wrap_angle(360_000), 0);
    assert_eq!(wrap_angle(-90_000), 270_000);
    assert_eq!(wrap_angle(725_000), 5_000);
    assert_eq!(wrap_angle(-360_000), 0);
}

#[test]
fn movement_axis_values() {
    assert_eq!(movement_axis(false, false), 0);
    assert_eq!(movement_axis(true, false), 1);
    assert_eq!(movement_axis(false, true), -1);
    assert_eq!(movement_axis(true, true), 0);
}

#[test]
fn forward_vector_along_axes() {
    assert_eq!(forward_vector(0, 0), Vec3Fix { x: 0, y: 0, z: -1000 });
    assert_eq!(forward_vector(90_000, 0), Vec3Fix { x: -1000, y: 0, z: 0 });
    assert_eq!(forward_vector(180_000, 0), Vec3Fix { x: 0, y: 0, z: 1000 });
    assert_eq!(forward_vector(270_000, 0), Vec3Fix { x: 1000, y: 0, z: 0 });
}

#[test]
fn forward_vector_with_pitch() {
    // Looking 30 degrees up: vertical sine 500, horizontal scaled by
    // the cosine 864.
    assert_eq!(forward_vector(0, 30_000), Vec3Fix { x: 0, y: 500, z: -864 });
    assert_eq!(forward_vector(0, -30_000), Vec3Fix { x: 0, y: -500, z: -864 });
}

#[test]
fn strafe_vector_is_horizontal_left() {
    assert_eq!(strafe_vector(0, 0), Vec3Fix { x: -1000, y: 0, z: 0 });
    assert_eq!(strafe_vector(90_000, 0), Vec3Fix { x: 0, y: 0, z: 1000 });
}

#[test]
fn accel_none_while_keyboard_disabled() {
    let mut c = FPSCamera::default();
    c.enable_keyboard = false;
    assert_eq!(accel_from_player(&c, forward_key()), None);
}

#[test]
fn accel_zero_without_keys() {
    let c = FPSCamera::default();
    assert_eq!(accel_from_player(&c, no_keys()), Some(Vec3Fix { x: 0, y: 0, z: 0 }));
}

#[test]
fn accel_opposed_keys_cancel() {
    let c = FPSCamera::default();
    let keys = KeyState { forward: true, back: true, left: true, right: true, jump: false };
    assert_eq!(accel_from_player(&c, keys), Some(Vec3Fix { x: 0, y: 0, z: 0 }));
}

#[test]
fn accel_forward_at_full_magnitude() {
    let c = walking_camera();
    assert_eq!(accel_from_player(&c, forward_key()), Some(Vec3Fix { x: 0, y: 0, z: -800 }));
}

#[test]
fn accel_diagonal_stays_within_magnitude() {
    let c = walking_camera();
    let keys = KeyState { forward: true, left: true, ..no_keys() };
    // Forward plus left, normalised to 0.8 and truncated per component.
    let a = accel_from_player(&c, keys).unwrap();
    assert_eq!(a, Vec3Fix { x: -565, y: 0, z: -565 });
    assert!(a.x * a.x + a.z * a.z <= 800 * 800);
}

#[test]
fn one_tick_from_rest_reaches_accel_speed() {
    let mut c = walking_camera();
    let u = player_dynamics(&mut c, still_sample(), forward_key(), Vec3Fix { x: 0, y: 0, z: 0 },
        1000);
    assert_eq!(u.linvel, Vec3Fix { x: 0, y: 0, z: -800 });
    assert_eq!(u.angvel, Vec3Fix { x: 0, y: 0, z: 0 });
    assert_eq!(c.velocity, u.linvel);
}

#[test]
fn held_forward_clamps_to_exact_target_speed() {
    let mut c = walking_camera();
    let mut current = Vec3Fix { x: 0, y: 0, z: 0 };
    for _ in 0..10 {
        let u = player_dynamics(&mut c, still_sample(), forward_key(), current, 1000);
        current = u.linvel;
        let speed_sq = current.x * current.x + current.z * current.z;
        assert!(speed_sq <= 4_000 * 4_000);
    }
    // Unclamped speed would be 8.0 by now; the clamp holds it at 4.0
    // exactly, direction unchanged.
    assert_eq!(current, Vec3Fix { x: 0, y: 0, z: -4_000 });
}

#[test]
fn clamp_rescales_external_push() {
    let mut c = walking_camera();
    // Moving at 3.9 sideways; the new candidate exceeds 4.0, so it is
    // rescaled back to the previous speed 3.9.
    let current = Vec3Fix { x: 3_900, y: 0, z: 0 };
    let keys = KeyState { right: true, ..no_keys() };
    let u = player_dynamics(&mut c, still_sample(), keys, current, 1000);
    let speed_sq = u.linvel.x * u.linvel.x + u.linvel.z * u.linvel.z;
    assert!(speed_sq <= 3_900 * 3_900);
    assert!(u.linvel.x > 0);
}

#[test]
fn vertical_velocity_carries_over() {
    let mut c = walking_camera();
    let current = Vec3Fix { x: 0, y: -2_500, z: 0 };
    let u = player_dynamics(&mut c, still_sample(), no_keys(), current, 1000);
    assert_eq!(u.linvel, Vec3Fix { x: 0, y: -2_500, z: 0 });
}

#[test]
fn jump_adds_impulse_on_top() {
    let mut c = walking_camera();
    let keys = KeyState { jump: true, ..no_keys() };
    let u = player_dynamics(&mut c, still_sample(), keys, Vec3Fix { x: 0, y: -300, z: 0 }, 1000);
    assert_eq!(u.linvel, Vec3Fix { x: 0, y: 200, z: 0 });
}

#[test]
fn disabled_keyboard_keeps_current_velocity() {
    let mut c = walking_camera();
    c.enable_keyboard = false;
    let current = Vec3Fix { x: 700, y: 0, z: -900 };
    let u = player_dynamics(&mut c, still_sample(), forward_key(), current, 1000);
    assert_eq!(u.linvel, current);
}

#[test]
fn dynamics_reports_rotation_only_on_live_look() {
    let mut c = walking_camera();
    let u = player_dynamics(&mut c, still_sample(), no_keys(), Vec3Fix { x: 0, y: 0, z: 0 }, 1000);
    assert_eq!(u.rotation, Some((0, 0)));
    let nan = MouseSample { dx: 5, dy: 5, finite: false };
    let u2 = player_dynamics(&mut c, nan, no_keys(), Vec3Fix { x: 0, y: 0, z: 0 }, 1000);
    assert_eq!(u2.rotation, None);
}
