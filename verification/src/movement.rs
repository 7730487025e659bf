//! Movement: key axes, direction vectors from the camera orientation,
//! per-tick acceleration and the velocity update with its
//! momentum-preserving speed clamp.
//!
//! Policy note: only the horizontal (x/z) components take part in the
//! speed clamp; the vertical component is carried over from the body's
//! current velocity and only the jump impulse changes it.  This keeps
//! gravity and jumps decoupled from the horizontal speed limit.

use vstd::prelude::*;
use crate::camera::{look_spec, CameraModel, FPSCamera, MouseSample, DELTA_LIMIT, DT_LIMIT};
use crate::fixed::{abs_val, isqrt_ceil, mul_div, mul_div_spec, sqrt_ceil};
use crate::trig::{cos_milli, cos_milli_spec, sin_milli, sin_milli_spec};
use crate::vec3::{scale_to_norm, scale_to_norm_spec, Vec3Fix, Vec3Model};

verus! {

/// Bound on the body velocity handed in by the physics world,
/// milli-units per second.
pub const CUR_VEL_LIMIT: i64 = 1_000_000_000;

/// Held movement keys for one tick.
#[derive(Clone, Copy, Debug, PartialEq, Eq, Structural)]
pub struct KeyState {
    pub forward: bool,
    pub back: bool,
    pub left: bool,
    pub right: bool,
    pub jump: bool,
}

/// What the controller writes back to the player body each tick:
/// an optional new orientation (yaw, pitch in milli-degrees), the new
/// linear velocity, and the angular velocity (always forced to zero, so
/// collision torque can never spin the player).
#[derive(Clone, Copy, Debug)]
pub struct BodyUpdate {
    pub rotation: Option<(i64, i64)>,
    pub linvel: Vec3Fix,
    pub angvel: Vec3Fix,
}

/// A movement axis from its two keys: +1, -1, their sum, or 0.
pub open spec fn axis_spec(plus: bool, minus: bool) -> int {
    (if plus {
        1int
    } else {
        0int
    }) - (if minus {
        1int
    } else {
        0int
    })
}

/// One movement axis from a pair of held keys.
pub fn movement_axis(plus: bool, minus: bool) -> (a: i64)
    ensures
        a == axis_spec(plus, minus),
        -1 <= a <= 1,
{
    let mut axis: i64 = 0;
    if plus {
        axis += 1;
    }
    if minus {
        axis -= 1;
    }
    axis
}

/// A pitch angle in `(-90000, 90000)` milli-degrees, reduced to the
/// `[0, 360000)` domain of the trigonometric model.
pub open spec fn pitch_angle(p: int) -> int {
    if p < 0 {
        p + 360_000
    } else {
        p
    }
}

/// The unit look direction for a yaw/pitch pair, in milli-units.
pub open spec fn forward_spec(yaw: int, pitch: int) -> Vec3Model {
    let sy = sin_milli_spec(yaw);
    let cy = cos_milli_spec(yaw);
    let sp = sin_milli_spec(pitch_angle(pitch));
    let cp = cos_milli_spec(pitch_angle(pitch));
    Vec3Model { x: -mul_div_spec(cp, sy, 1000), y: sp, z: -mul_div_spec(cp, cy, 1000) }
}

/// The strafe (rightward-negated) direction: the forward vector crossed
/// with the downward axis, which reduces to swapping and negating the
/// horizontal components.
pub open spec fn strafe_spec(yaw: int, pitch: int) -> Vec3Model {
    Vec3Model { x: forward_spec(yaw, pitch).z, y: 0, z: -forward_spec(yaw, pitch).x }
}

/// Multiply a milli-unit component by an axis in `{-1, 0, 1}`.
fn scale_axis(v: i64, axis: i64) -> (r: i64)
    requires
        -1 <= axis <= 1,
        abs_val(v as int) <= 1000,
    ensures
        r == v as int * axis,
        abs_val(r as int) <= 1000,
{
    if axis == 1 {
        proof {
            assert(v as int * 1 == v);
        }
        v
    } else if axis == -1 {
        proof {
            assert(v as int * -1 == -(v as int));
        }
        -v
    } else {
        proof {
            assert(v as int * 0 == 0);
        }
        0
    }
}

/// The look direction for a camera orientation, computed from the
/// fixed-point trigonometric model.
pub fn forward_vector(yaw: i64, pitch: i64) -> (v: Vec3Fix)
    requires
        0 <= yaw < 360_000,
        -90_000 < pitch < 90_000,
    ensures
        v@ == forward_spec(yaw as int, pitch as int),
        v@.bounded(1000),
{
    let sy = sin_milli(yaw);
    let cy = cos_milli(yaw);
    let pa: i64 = if pitch < 0 {
        pitch + 360_000
    } else {
        pitch
    };
    let sp = sin_milli(pa);
    let cp = cos_milli(pa);
    proof {
        assert(abs_val(cp as int) * abs_val(sy as int) <= 1_000_000) by (nonlinear_arith)
            requires
                abs_val(cp as int) <= 1000,
                abs_val(sy as int) <= 1000,
        ;
        assert(abs_val(cp as int) * abs_val(cy as int) <= 1_000_000) by (nonlinear_arith)
            requires
                abs_val(cp as int) <= 1000,
                abs_val(cy as int) <= 1000,
        ;
    }
    let fx = mul_div(cp, sy, 1000);
    let fz = mul_div(cp, cy, 1000);
    proof {
        vstd::arithmetic::div_mod::lemma_div_is_ordered(
            abs_val(cp as int) * abs_val(sy as int),
            1_000_000,
            1000,
        );
        vstd::arithmetic::div_mod::lemma_div_is_ordered(
            abs_val(cp as int) * abs_val(cy as int),
            1_000_000,
            1000,
        );
    }
    Vec3Fix { x: -fx, y: sp, z: -fz }
}

/// The strafe direction for a camera orientation.
pub fn strafe_vector(yaw: i64, pitch: i64) -> (v: Vec3Fix)
    requires
        0 <= yaw < 360_000,
        -90_000 < pitch < 90_000,
    ensures
        v@ == strafe_spec(yaw as int, pitch as int),
        v@.bounded(1000),
{
    let f = forward_vector(yaw, pitch);
    Vec3Fix { x: f.z, y: 0, z: -f.x }
}

/// The per-tick acceleration impulse: the held keys' combined direction
/// projected onto the horizontal plane and rescaled to the camera's
/// acceleration magnitude; `None` when keyboard movement is disabled,
/// the zero vector when no direction is held.
pub open spec fn accel_spec(c: CameraModel, keys: KeyState) -> Option<Vec3Model> {
    if !c.enable_keyboard {
        None
    } else {
        let axis_f = axis_spec(keys.forward, keys.back);
        let axis_s = axis_spec(keys.left, keys.right);
        let f = forward_spec(c.yaw, c.pitch);
        let s = strafe_spec(c.yaw, c.pitch);
        let raw = Vec3Model {
            x: s.x * axis_s + f.x * axis_f,
            y: 0,
            z: s.z * axis_s + f.z * axis_f,
        };
        Some(scale_to_norm_spec(raw, c.acceleration))
    }
}

/// The acceleration impulse requested by the held keys, or `None` while
/// keyboard movement is disabled.
pub fn accel_from_player(camera: &FPSCamera, keys: KeyState) -> (a: Option<Vec3Fix>)
    requires
        camera@.inv(),
    ensures
        a.is_some() == camera.enable_keyboard,
        a matches Some(v) ==> v@ == accel_spec(camera@, keys).unwrap(),
        a matches Some(v) ==> v@.norm_sq() <= camera@.acceleration * camera@.acceleration,
        a matches Some(v) ==> v@.bounded(camera@.acceleration),
        a matches Some(v) ==> v@.y == 0,
{
    if !camera.enable_keyboard {
        return None;
    }
    let axis_f = movement_axis(keys.forward, keys.back);
    let axis_s = movement_axis(keys.left, keys.right);
    let f = forward_vector(camera.yaw, camera.pitch);
    let s = strafe_vector(camera.yaw, camera.pitch);
    let rx = scale_axis(s.x, axis_s) + scale_axis(f.x, axis_f);
    let rz = scale_axis(s.z, axis_s) + scale_axis(f.z, axis_f);
    let raw = Vec3Fix { x: rx, y: 0, z: rz };
    let dir = scale_to_norm(raw, camera.acceleration);
    proof {
        crate::vec3::lemma_scale_to_norm_spec_norm(raw@, camera@.acceleration);
        crate::vec3::lemma_scale_to_norm_spec_signs(raw@, camera@.acceleration);
    }
    Some(dir)
}

/// `accel_spec` with a disabled keyboard flattened to the zero vector.
pub open spec fn accel_or_zero(c: CameraModel, keys: KeyState) -> Vec3Model {
    match accel_spec(c, keys) {
        Some(a) => a,
        None => Vec3Model { x: 0, y: 0, z: 0 },
    }
}

/// The per-tick velocity update on the model.  The candidate is the
/// body's current velocity plus the acceleration impulse; if its
/// horizontal speed would exceed the target, the horizontal part is
/// rescaled back to the *previous* horizontal speed (momentum feel
/// rather than a hard cap); the vertical component is carried over and
/// a held jump adds the jump impulse.
pub open spec fn velocity_spec(c: CameraModel, keys: KeyState, current: Vec3Model) -> Vec3Model {
    let a = accel_or_zero(c, keys);
    let h = Vec3Model { x: current.x + a.x, y: 0, z: current.z + a.z };
    let clamped = if h.norm_sq() > c.target_speed * c.target_speed {
        scale_to_norm_spec(h, sqrt_ceil(current.norm_sq_xz()))
    } else {
        h
    };
    let vy = current.y + (if keys.jump {
        c.jump_power
    } else {
        0int
    });
    Vec3Model { x: clamped.x, y: vy, z: clamped.z }
}

/// Speed clamp law: starting at or below the target horizontal speed, a
/// single velocity update cannot leave the update above the target
/// horizontal speed, whatever keys are held; and the clamp never flips
/// the direction of a horizontal component of the candidate velocity.
pub proof fn lemma_speed_clamped(c: CameraModel, keys: KeyState, current: Vec3Model)
    requires
        c.inv(),
        current.norm_sq_xz() <= c.target_speed * c.target_speed,
    ensures
        velocity_spec(c, keys, current).norm_sq_xz() <= c.target_speed * c.target_speed,
        ({
            let a = accel_or_zero(c, keys);
            let v = velocity_spec(c, keys, current);
            v.x * (current.x + a.x) >= 0 && v.z * (current.z + a.z) >= 0
        }),
{
    let a = accel_or_zero(c, keys);
    let h = Vec3Model { x: current.x + a.x, y: 0, z: current.z + a.z };
    let t = c.target_speed;
    let v = velocity_spec(c, keys, current);
    if h.norm_sq() > t * t {
        crate::vec3::lemma_norm_sq_nonneg(current);
        let cur = sqrt_ceil(current.norm_sq_xz());
        let cur3 = Vec3Model { x: current.x, y: 0, z: current.z };
        assert(cur3.norm_sq() == current.norm_sq_xz());
        crate::fixed::lemma_sqrt_ceil_bounds(current.norm_sq_xz());
        crate::fixed::lemma_sqrt_ceil_of_square(t);
        crate::fixed::lemma_sqrt_ceil_monotone(current.norm_sq_xz(), t * t);
        assert(0 <= cur <= t);
        crate::vec3::lemma_scale_to_norm_spec_norm(h, cur);
        crate::vec3::lemma_scale_to_norm_spec_signs(h, cur);
        let s = scale_to_norm_spec(h, cur);
        assert(s.y == 0);
        assert(s.y * s.y == 0);
        assert(s.norm_sq() == s.x * s.x + s.z * s.z);
        crate::vec3::lemma_sq_monotone(cur, t);
        assert(v.norm_sq_xz() == s.x * s.x + s.z * s.z);
    } else {
        assert(h.y * h.y == 0);
        assert(v.norm_sq_xz() == h.norm_sq());
        assert(h.x * h.x >= 0 && h.z * h.z >= 0) by (nonlinear_arith);
    }
}

/// The whole per-tick player update: accumulate the look input, compute
/// the new velocity from the keys and the body's current velocity,
/// store it on the camera, and return what must be written to the body
/// (rotation when the look changed, linear velocity, zero angular
/// velocity).
pub fn player_dynamics(
    camera: &mut FPSCamera,
    sample: MouseSample,
    keys: KeyState,
    current: Vec3Fix,
    dt: i64,
) -> (u: BodyUpdate)
    requires
        old(camera)@.inv(),
        abs_val(sample.dx as int) <= DELTA_LIMIT,
        abs_val(sample.dy as int) <= DELTA_LIMIT,
        0 <= dt <= DT_LIMIT,
        current@.bounded(CUR_VEL_LIMIT as int),
    ensures
        final(camera)@ == (CameraModel {
            velocity: velocity_spec(
                look_spec(old(camera)@, sample.dx as int, sample.dy as int, sample.finite, dt as int),
                keys,
                current@,
            ),
            ..look_spec(old(camera)@, sample.dx as int, sample.dy as int, sample.finite, dt as int)
        }),
        final(camera)@.inv(),
        u.linvel == final(camera).velocity,
        u.angvel@ == (Vec3Model { x: 0, y: 0, z: 0 }),
        old(camera).enable_mouse && sample.finite ==> u.rotation == Some(
            (final(camera).yaw, final(camera).pitch),
        ),
        !(old(camera).enable_mouse && sample.finite) ==> u.rotation.is_none(),
{
    let rotation = crate::camera::pitch_yaw(camera, sample, dt);
    let acc = match accel_from_player(camera, keys) {
        Some(a) => a,
        None => Vec3Fix { x: 0, y: 0, z: 0 },
    };
    proof {
        assert(acc@ == accel_or_zero(camera@, keys));
        assert(acc@.bounded(camera@.acceleration));
    }
    let hx: i64 = current.x + acc.x;
    let hz: i64 = current.z + acc.z;
    let h = Vec3Fix { x: hx, y: 0, z: hz };
    proof {
        crate::vec3::lemma_abs_sq(hx as int);
        crate::vec3::lemma_abs_sq(hz as int);
        crate::vec3::lemma_sq_monotone(abs_val(hx as int), 1_500_000_000);
        crate::vec3::lemma_sq_monotone(abs_val(hz as int), 1_500_000_000);
        crate::vec3::lemma_abs_sq(current.x as int);
        crate::vec3::lemma_abs_sq(current.z as int);
        crate::vec3::lemma_sq_monotone(abs_val(current.x as int), CUR_VEL_LIMIT as int);
        crate::vec3::lemma_sq_monotone(abs_val(current.z as int), CUR_VEL_LIMIT as int);
        assert(camera@.target_speed * camera@.target_speed <= 1_000_000_000_000_000_000)
            by (nonlinear_arith)
            requires
                0 <= camera@.target_speed <= 1_000_000_000,
        ;
    }
    let hsq: i64 = hx * hx + hz * hz;
    let t: i64 = camera.target_speed;
    let clamped: Vec3Fix = if hsq > t * t {
        let cur_sq: i64 = current.x * current.x + current.z * current.z;
        let cur: i64 = isqrt_ceil(cur_sq);
        proof {
            if cur > 1_500_000_000 {
                assert((cur - 1) * (cur - 1) >= 1_500_000_000int * 1_500_000_000)
                    by (nonlinear_arith)
                    requires
                        cur - 1 >= 1_500_000_000,
                ;
            }
        }
        scale_to_norm(h, cur)
    } else {
        h
    };
    let vy: i64 = if keys.jump {
        current.y + camera.jump_power
    } else {
        current.y
    };
    let linvel = Vec3Fix { x: clamped.x, y: vy, z: clamped.z };
    proof {
        let c1 = look_spec(old(camera)@, sample.dx as int, sample.dy as int, sample.finite,
            dt as int);
        let a = accel_or_zero(c1, keys);
        let hm = Vec3Model { x: current@.x + a.x, y: 0, z: current@.z + a.z };
        assert(h@ == hm);
        assert(hsq as int == hx as int * hx as int + hz as int * hz as int);
        assert(hm.norm_sq() == hm.x * hm.x + hm.y * hm.y + hm.z * hm.z);
        assert(hm.y * hm.y == 0) by (nonlinear_arith)
            requires
                hm.y == 0,
        ;
        assert(hm.x * hm.x == hx as int * hx as int);
        assert(hm.z * hm.z == hz as int * hz as int);
        assert(hsq as int == hm.norm_sq());
        let cl = if hm.norm_sq() > c1.target_speed * c1.target_speed {
            scale_to_norm_spec(hm, sqrt_ceil(current@.norm_sq_xz()))
        } else {
            hm
        };
        assert(clamped@ == cl);
        assert(linvel@ == velocity_spec(c1, keys, current@));
    }
    camera.velocity = linvel;
    BodyUpdate { rotation, linvel, angvel: Vec3Fix { x: 0, y: 0, z: 0 } }
}

} // verus!
