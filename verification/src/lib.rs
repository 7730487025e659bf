//! First-person player-controller model in fixed-point arithmetic.
//!
//! Orientation, velocity and pose values are held as `i64` milli-units
//! (one world unit, degree or second equals 1000), so the controller's
//! rules — look accumulation with pitch clamping, acceleration with a
//! momentum-preserving speed clamp, jump impulses, projectile spawning
//! and the per-tick pose synchronisation — are exact integer arithmetic
//! with verified contracts.

pub mod camera;
pub mod fixed;
pub mod movement;
pub mod projectile;
pub mod tick;
pub mod trig;
pub mod vec3;
pub mod world;
