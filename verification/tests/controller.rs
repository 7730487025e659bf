//! Camera look-update and cursor-toggle behaviour.

use gameclient::camera::{pitch_yaw, toggle_cursor, FPSCamera, MouseSample};
use gameclient::vec3::Vec3Fix;

fn camera() -> FPSCamera {
    FPSCamera::default()
}

#[test]
fn default_tuning() {
    let c = camera();
    assert_eq!(c.yaw, 0);
    assert_eq!(c.pitch, 0);
    assert_eq!(c.velocity, Vec3Fix { x: 0, y: 0, z: 0 });
    assert!(c.enable_mouse);
    assert!(c.enable_keyboard);
    assert_eq!(c.target_speed, 6_000);
    assert_eq!(c.acceleration, 4_000);
    assert_eq!(c.jump_power, 500);
}

#[test]
fn look_accumulates_yaw() {
    let mut c = camera();
    // -4.5 input units over one second at sensitivity 20 turns 90 degrees.
    let r = pitch_yaw(&mut c, MouseSample { dx: -4_500, dy: 0, finite: true }, 1000);
    assert_eq!(c.yaw, 90_000);
    assert_eq!(c.pitch, 0);
    assert_eq!(r, Some((90_000, 0)));
}

#[test]
fn look_accumulates_pitch() {
    let mut c = camera();
    let r = pitch_yaw(&mut c, MouseSample { dx: 0, dy: 1_500, finite: true }, 1000);
    assert_eq!(c.pitch, 30_000);
    assert_eq!(r, Some((0, 30_000)));
}

#[test]
fn pitch_clamps_at_positive_limit() {
    let mut c = camera();
    pitch_yaw(&mut c, MouseSample { dx: 0, dy: 1_000_000, finite: true }, 1000);
    assert_eq!(c.pitch, 89_990);
}

#[test]
fn pitch_clamps_at_negative_limit() {
    let mut c = camera();
    pitch_yaw(&mut c, MouseSample { dx: 0, dy: -1_000_000, finite: true }, 1000);
    assert_eq!(c.pitch, -89_990);
}

#[test]
fn pitch_stays_clamped_over_adversarial_history() {
    let mut c = camera();
    for i in 0..200 {
        let dy = if i % 2 == 0 { 1_000_000_000 } else { -999_999_999 };
        let dx = if i % 3 == 0 { 777_000_000 } else { -5 };
        pitch_yaw(&mut c, MouseSample { dx, dy, finite: true }, 100_000_000);
        assert!(-89_990 <= c.pitch && c.pitch <= 89_990);
        assert!(0 <= c.yaw && c.yaw < 360_000);
    }
}

#[test]
fn zero_delta_is_identity() {
    let mut c = camera();
    pitch_yaw(&mut c, MouseSample { dx: -4_500, dy: 1_500, finite: true }, 1000);
    let before = c;
    let r = pitch_yaw(&mut c, MouseSample { dx: 0, dy: 0, finite: true }, 1000);
    assert_eq!(c, before);
    assert_eq!(r, Some((before.yaw, before.pitch)));
}

#[test]
fn non_finite_delta_leaves_state_identical() {
    let mut c = camera();
    pitch_yaw(&mut c, MouseSample { dx: 100, dy: 200, finite: true }, 1000);
    let before = c;
    // The sample a NaN mouse delta maps to: not finite, whatever the values.
    let r = pitch_yaw(&mut c, MouseSample { dx: 123_456, dy: 0, finite: false }, 1000);
    assert_eq!(c, before);
    assert_eq!(r, None);
}

#[test]
fn disabled_mouse_leaves_state_identical() {
    let mut c = camera();
    c.enable_mouse = false;
    let before = c;
    let r = pitch_yaw(&mut c, MouseSample { dx: 9_000, dy: 9_000, finite: true }, 1000);
    assert_eq!(c, before);
    assert_eq!(r, None);
}

#[test]
fn toggle_flips_both_enables() {
    let mut c = camera();
    let toggled = toggle_cursor(&mut c, true);
    assert!(toggled);
    assert!(!c.enable_mouse);
    assert!(!c.enable_keyboard);
}

#[test]
fn toggle_is_involution() {
    let mut c = camera();
    let original = c;
    toggle_cursor(&mut c, true);
    // Key released: no edge, no flip.
    toggle_cursor(&mut c, false);
    toggle_cursor(&mut c, true);
    assert_eq!(c.enable_mouse, original.enable_mouse);
    assert_eq!(c.enable_keyboard, original.enable_keyboard);
    assert_eq!(c, original);
}

#[test]
fn toggle_without_press_edge_changes_nothing() {
    let mut c = camera();
    let before = c;
    let toggled = toggle_cursor(&mut c, false);
    assert!(!toggled);
    assert_eq!(c, before);
}
