//! The first-person camera state and its look / toggle updates.
//!
//! Yaw and pitch are milli-degrees; velocity components are milli-units
//! per second.  The look update accumulates mouse deltas at a fixed
//! sensitivity, clamps pitch short of the poles, and ignores frames
//! whose delta is not finite, so degenerate device input can never
//! corrupt the orientation.

use vstd::prelude::*;
use crate::fixed::{abs_val, clamp_fix, clamp_spec, mul_div, mul_div_spec};
use crate::trig::{wrap_angle, wrap_spec};
use crate::vec3::{Vec3Fix, Vec3Model};

verus! {

/// Look sensitivity: angle milli-degrees per second per raw input unit,
/// for deltas and elapsed time in milli-units (the classic 20.0).
pub const SENSITIVITY: i64 = 20;

/// Pitch is clamped to this magnitude in milli-degrees (89.99 degrees)
/// to avoid gimbal flip.
pub const PITCH_LIMIT: i64 = 89_990;

/// Largest tunable speed magnitude, milli-units per second.
pub const SPEED_LIMIT: i64 = 1_000_000_000;

/// Largest tunable per-tick acceleration magnitude, milli-units.
pub const ACCEL_LIMIT: i64 = 500_000_000;

/// Largest tunable jump impulse, milli-units per second.
pub const JUMP_LIMIT: i64 = 500_000_000;

/// Bound on stored velocity components, milli-units per second.
pub const VEL_LIMIT: i64 = 2_000_000_000;

/// Largest accepted accumulated mouse delta per tick, milli-units.
pub const DELTA_LIMIT: i64 = 1_000_000_000;

/// Largest accepted elapsed time per tick, milli-seconds.
pub const DT_LIMIT: i64 = 100_000_000;

/// Default top horizontal speed: 6 units per second.
pub const DEFAULT_TARGET_SPEED: i64 = 6_000;

/// Default per-tick acceleration impulse: 4 units per second.
pub const DEFAULT_ACCELERATION: i64 = 4_000;

/// Default jump impulse: 0.5 units per second.
pub const DEFAULT_JUMP_POWER: i64 = 500;

/// One tick's accumulated mouse motion.  `finite` is false when the
/// device delivered a non-finite (NaN) delta; such a sample must leave
/// the orientation untouched.
#[derive(Clone, Copy, Debug, PartialEq, Eq, Structural)]
pub struct MouseSample {
    pub dx: i64,
    pub dy: i64,
    pub finite: bool,
}

/// First-person camera state: accumulated orientation, last written
/// velocity, input toggles and tuning constants.
#[derive(Clone, Copy, Debug, PartialEq, Eq, Structural)]
pub struct FPSCamera {
    pub yaw: i64,
    pub pitch: i64,
    pub velocity: Vec3Fix,
    pub enable_mouse: bool,
    pub enable_keyboard: bool,
    pub target_speed: i64,
    pub acceleration: i64,
    pub jump_power: i64,
}

/// The mathematical value of an `FPSCamera`.
pub struct CameraModel {
    pub yaw: int,
    pub pitch: int,
    pub velocity: Vec3Model,
    pub enable_mouse: bool,
    pub enable_keyboard: bool,
    pub target_speed: int,
    pub acceleration: int,
    pub jump_power: int,
}

impl View for FPSCamera {
    type V = CameraModel;

    open spec fn view(&self) -> CameraModel {
        CameraModel {
            yaw: self.yaw as int,
            pitch: self.pitch as int,
            velocity: self.velocity@,
            enable_mouse: self.enable_mouse,
            enable_keyboard: self.enable_keyboard,
            target_speed: self.target_speed as int,
            acceleration: self.acceleration as int,
            jump_power: self.jump_power as int,
        }
    }
}

impl CameraModel {
    /// Well-formedness: yaw reduced to one turn, pitch inside the clamp,
    /// tuning constants and velocity within the crate's numeric range.
    pub open spec fn inv(self) -> bool {
        &&& 0 <= self.yaw < 360_000
        &&& -PITCH_LIMIT <= self.pitch <= PITCH_LIMIT
        &&& 0 <= self.target_speed <= SPEED_LIMIT
        &&& 0 <= self.acceleration <= ACCEL_LIMIT
        &&& 0 <= self.jump_power <= JUMP_LIMIT
        &&& self.velocity.bounded(VEL_LIMIT as int)
    }
}

/// The look update on the camera model: yaw decreases with horizontal
/// delta, pitch grows with vertical delta and is clamped; disabled or
/// non-finite frames change nothing.
pub open spec fn look_spec(c: CameraModel, dx: int, dy: int, finite: bool, dt: int) -> CameraModel {
    if !c.enable_mouse || !finite {
        c
    } else {
        CameraModel {
            yaw: wrap_spec(c.yaw - mul_div_spec(dx * SENSITIVITY, dt, 1000)),
            pitch: clamp_spec(
                c.pitch + mul_div_spec(dy * SENSITIVITY, dt, 1000),
                -PITCH_LIMIT as int,
                PITCH_LIMIT as int,
            ),
            ..c
        }
    }
}

/// The cursor-capture toggle on the camera model: both input enables
/// flip together.
pub open spec fn toggle_spec(c: CameraModel) -> CameraModel {
    CameraModel { enable_mouse: !c.enable_mouse, enable_keyboard: !c.enable_keyboard, ..c }
}

/// The look update keeps the camera well-formed; in particular the
/// pitch clamp holds whatever the delta's magnitude.
pub proof fn lemma_look_preserves_inv(c: CameraModel, dx: int, dy: int, finite: bool, dt: int)
    requires
        c.inv(),
    ensures
        look_spec(c, dx, dy, finite, dt).inv(),
{
    if c.enable_mouse && finite {
        vstd::arithmetic::div_mod::lemma_mod_bound(
            c.yaw - mul_div_spec(dx * SENSITIVITY, dt, 1000),
            360_000,
        );
    }
}

/// One look event, for reasoning about whole input histories.
pub struct LookEvent {
    pub dx: int,
    pub dy: int,
    pub finite: bool,
    pub dt: int,
}

/// A history of look updates applied in order.
pub open spec fn look_seq(c: CameraModel, evs: Seq<LookEvent>) -> CameraModel
    decreases evs.len(),
{
    if evs.len() == 0 {
        c
    } else {
        look_seq(look_spec(c, evs[0].dx, evs[0].dy, evs[0].finite, evs[0].dt), evs.drop_first())
    }
}

/// However long and adversarial the input history, the resulting pitch
/// stays within the clamp and the camera stays well-formed.
pub proof fn lemma_pitch_always_clamped(c: CameraModel, evs: Seq<LookEvent>)
    requires
        c.inv(),
    ensures
        look_seq(c, evs).inv(),
        -PITCH_LIMIT <= look_seq(c, evs).pitch <= PITCH_LIMIT,
    decreases evs.len(),
{
    if evs.len() > 0 {
        lemma_look_preserves_inv(c, evs[0].dx, evs[0].dy, evs[0].finite, evs[0].dt);
        lemma_pitch_always_clamped(
            look_spec(c, evs[0].dx, evs[0].dy, evs[0].finite, evs[0].dt),
            evs.drop_first(),
        );
    }
}

/// A zero delta leaves yaw and pitch exactly unchanged.
pub proof fn lemma_look_zero_delta(c: CameraModel, dt: int)
    requires
        c.inv(),
    ensures
        look_spec(c, 0, 0, true, dt) == c,
{
    assert(mul_div_spec(0 * SENSITIVITY, dt, 1000) == 0) by {
        assert(0 * SENSITIVITY == 0);
        assert((0int * dt) == 0) by (nonlinear_arith);
        assert(0int / 1000 == 0) by {
            vstd::arithmetic::div_mod::lemma_div_of0(1000);
        }
    }
    if c.enable_mouse {
        vstd::arithmetic::div_mod::lemma_small_mod(c.yaw as nat, 360_000nat);
        assert(look_spec(c, 0, 0, true, dt) == c);
    }
}

/// A non-finite sample leaves the whole camera state unchanged.
pub proof fn lemma_look_nonfinite_identity(c: CameraModel, dx: int, dy: int, dt: int)
    ensures
        look_spec(c, dx, dy, false, dt) == c,
{
}

/// Two presses of the capture toggle restore the enables exactly.
pub proof fn lemma_toggle_involution(c: CameraModel)
    ensures
        toggle_spec(toggle_spec(c)) == c,
{
}

impl Default for FPSCamera {
    /// The tuning the scene starts from: mouse and keyboard enabled,
    /// top speed 6, acceleration 4, jump impulse 0.5.
    fn default() -> (c: FPSCamera)
        ensures
            c@ == (CameraModel {
                yaw: 0,
                pitch: 0,
                velocity: Vec3Model { x: 0, y: 0, z: 0 },
                enable_mouse: true,
                enable_keyboard: true,
                target_speed: DEFAULT_TARGET_SPEED as int,
                acceleration: DEFAULT_ACCELERATION as int,
                jump_power: DEFAULT_JUMP_POWER as int,
            }),
            c@.inv(),
    {
        FPSCamera {
            yaw: 0,
            pitch: 0,
            velocity: Vec3Fix { x: 0, y: 0, z: 0 },
            enable_mouse: true,
            enable_keyboard: true,
            target_speed: DEFAULT_TARGET_SPEED,
            acceleration: DEFAULT_ACCELERATION,
            jump_power: DEFAULT_JUMP_POWER,
        }
    }
}

/// Accumulate one tick's mouse motion into yaw and pitch.  Returns the
/// updated orientation when mouse look is enabled and the sample is
/// finite, and `None` (leaving the camera untouched) otherwise.
pub fn pitch_yaw(camera: &mut FPSCamera, sample: MouseSample, dt: i64) -> (r: Option<(i64, i64)>)
    requires
        old(camera)@.inv(),
        abs_val(sample.dx as int) <= DELTA_LIMIT,
        abs_val(sample.dy as int) <= DELTA_LIMIT,
        0 <= dt <= DT_LIMIT,
    ensures
        final(camera)@ == look_spec(
            old(camera)@,
            sample.dx as int,
            sample.dy as int,
            sample.finite,
            dt as int,
        ),
        final(camera)@.inv(),
        old(camera).enable_mouse && sample.finite ==> r == Some(
            (final(camera).yaw, final(camera).pitch),
        ),
        !(old(camera).enable_mouse && sample.finite) ==> r.is_none() && *final(camera) == *old(
            camera,
        ),
{
    proof {
        lemma_look_preserves_inv(
            old(camera)@,
            sample.dx as int,
            sample.dy as int,
            sample.finite,
            dt as int,
        );
    }
    if !camera.enable_mouse || !sample.finite {
        return None;
    }
    proof {
        assert(abs_val(sample.dx as int * SENSITIVITY) <= DELTA_LIMIT * SENSITIVITY)
            by (nonlinear_arith)
            requires
                abs_val(sample.dx as int) <= DELTA_LIMIT,
        ;
        assert(abs_val(sample.dx as int * SENSITIVITY) * abs_val(dt as int) <= DELTA_LIMIT
            * SENSITIVITY * DT_LIMIT) by (nonlinear_arith)
            requires
                abs_val(sample.dx as int * SENSITIVITY) <= DELTA_LIMIT * SENSITIVITY,
                0 <= abs_val(dt as int) <= DT_LIMIT,
        ;
        assert(abs_val(sample.dy as int * SENSITIVITY) <= DELTA_LIMIT * SENSITIVITY)
            by (nonlinear_arith)
            requires
                abs_val(sample.dy as int) <= DELTA_LIMIT,
        ;
        assert(abs_val(sample.dy as int * SENSITIVITY) * abs_val(dt as int) <= DELTA_LIMIT
            * SENSITIVITY * DT_LIMIT) by (nonlinear_arith)
            requires
                abs_val(sample.dy as int * SENSITIVITY) <= DELTA_LIMIT * SENSITIVITY,
                0 <= abs_val(dt as int) <= DT_LIMIT,
        ;
    }
    let yaw_step: i64 = mul_div(sample.dx * SENSITIVITY, dt, 1000);
    let pitch_step: i64 = mul_div(sample.dy * SENSITIVITY, dt, 1000);
    camera.yaw = wrap_angle(camera.yaw - yaw_step);
    camera.pitch = clamp_fix(camera.pitch + pitch_step, -PITCH_LIMIT, PITCH_LIMIT);
    Some((camera.yaw, camera.pitch))
}

/// Edge-triggered cursor-capture toggle: on a just-pressed toggle key,
/// flip mouse look and keyboard movement together.  Returns whether the
/// flip happened, so the host can mirror it on the window cursor.
pub fn toggle_cursor(camera: &mut FPSCamera, just_pressed: bool) -> (toggled: bool)
    ensures
        toggled == just_pressed,
        just_pressed ==> final(camera)@ == toggle_spec(old(camera)@),
        !just_pressed ==> *final(camera) == *old(camera),
        old(camera)@.inv() ==> final(camera)@.inv(),
{
    if just_pressed {
        camera.enable_mouse = !camera.enable_mouse;
        camera.enable_keyboard = !camera.enable_keyboard;
        true
    } else {
        false
    }
}

} // verus!
