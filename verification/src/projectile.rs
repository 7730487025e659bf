//! Projectile spawning on mouse-button press edges.
//!
//! A left press spawns a cube, a right press a sphere, launched along
//! the camera's look direction at a fixed muzzle speed plus the
//! player's own momentum.  Spin and density are randomised by the host:
//! the drawn numbers come in as plain seed values, so the spawn rules
//! themselves are deterministic and fully specified.  While mouse look
//! is disabled (cursor released for the UI) no click spawns anything.

use vstd::prelude::*;
use crate::camera::{CameraModel, FPSCamera};
use crate::movement::{forward_spec, forward_vector};
use crate::vec3::{scale_to_norm, scale_to_norm_spec, Vec3Fix, Vec3Model, POS_LIMIT};

verus! {

/// Muzzle speed multiplier on the unit look direction: 15 units/s.
pub const MUZZLE_SPEED: i64 = 15;

/// Spawned colliders are unit-sized: cuboid half-extent / sphere radius
/// of one world unit, in milli-units.
pub const PROJECTILE_SIZE: i64 = 1000;

/// Density scale: a unit seed maps to densities in `[0, 8)`.
pub const DENSITY_SCALE: i64 = 8;

/// A mouse button, as the spawn rules distinguish them.
#[derive(Clone, Copy, Debug, PartialEq, Eq, Structural)]
pub enum MouseButton {
    Left,
    Right,
    Other,
}

/// One mouse-button transition drained from the host's event stream.
#[derive(Clone, Copy, Debug, PartialEq, Eq, Structural)]
pub struct ButtonEvent {
    pub button: MouseButton,
    pub pressed: bool,
}

/// Host-drawn random values for one potential spawn, each a milli-unit
/// in `[0, 1000)`.
#[derive(Clone, Copy, Debug, PartialEq, Eq, Structural)]
pub struct SpawnSeed {
    pub spin_x: i64,
    pub spin_y: i64,
    pub density_unit: i64,
}

/// Collider shape of a spawned projectile.
#[derive(Clone, Copy, Debug, PartialEq, Eq, Structural)]
pub enum ProjectileShape {
    Cuboid { half_extent: i64 },
    Sphere { radius: i64 },
}

/// A projectile to hand to the physics world and the renderer.
#[derive(Clone, Copy, Debug, PartialEq, Eq, Structural)]
pub struct SpawnedProjectile {
    pub shape: ProjectileShape,
    pub position: Vec3Fix,
    pub linvel: Vec3Fix,
    pub angvel: Vec3Fix,
    pub density: i64,
}

/// Shape of a projectile, on the model side.
pub enum ShapeModel {
    Cuboid { half_extent: int },
    Sphere { radius: int },
}

/// The mathematical value of a `SpawnedProjectile`.
pub struct ProjectileModel {
    pub shape: ShapeModel,
    pub position: Vec3Model,
    pub linvel: Vec3Model,
    pub angvel: Vec3Model,
    pub density: int,
}

impl View for ProjectileShape {
    type V = ShapeModel;

    open spec fn view(&self) -> ShapeModel {
        match *self {
            ProjectileShape::Cuboid { half_extent } => ShapeModel::Cuboid {
                half_extent: half_extent as int,
            },
            ProjectileShape::Sphere { radius } => ShapeModel::Sphere { radius: radius as int },
        }
    }
}

impl View for SpawnedProjectile {
    type V = ProjectileModel;

    open spec fn view(&self) -> ProjectileModel {
        ProjectileModel {
            shape: self.shape@,
            position: self.position@,
            linvel: self.linvel@,
            angvel: self.angvel@,
            density: self.density as int,
        }
    }
}

/// A seed's components are milli-units in `[0, 1000)`.
pub open spec fn seed_in_range(s: SpawnSeed) -> bool {
    &&& 0 <= s.spin_x < 1000
    &&& 0 <= s.spin_y < 1000
    &&& 0 <= s.density_unit < 1000
}

/// Whether a drained button event triggers a spawn: a press edge of the
/// left or right button while mouse look is enabled.
pub open spec fn spawn_qualifies(c: CameraModel, e: ButtonEvent) -> bool {
    &&& c.enable_mouse
    &&& e.pressed
    &&& (e.button == MouseButton::Left || e.button == MouseButton::Right)
}

/// The projectile produced for one qualifying event: spawned one unit
/// ahead of the player, launched forward at muzzle speed plus the
/// player's velocity, with seeded spin and density.
pub open spec fn projectile_spec(
    c: CameraModel,
    translation: Vec3Model,
    e: ButtonEvent,
    seed: SpawnSeed,
) -> ProjectileModel {
    let f = forward_spec(c.yaw, c.pitch);
    let unit = scale_to_norm_spec(f, 1000);
    ProjectileModel {
        shape: if e.button == MouseButton::Left {
            ShapeModel::Cuboid { half_extent: PROJECTILE_SIZE as int }
        } else {
            ShapeModel::Sphere { radius: PROJECTILE_SIZE as int }
        },
        position: Vec3Model {
            x: translation.x + unit.x,
            y: translation.y + unit.y,
            z: translation.z + unit.z,
        },
        linvel: Vec3Model {
            x: f.x * MUZZLE_SPEED + c.velocity.x,
            y: f.y * MUZZLE_SPEED + c.velocity.y,
            z: f.z * MUZZLE_SPEED + c.velocity.z,
        },
        angvel: Vec3Model { x: seed.spin_x as int, y: seed.spin_y as int, z: 1000 },
        density: seed.density_unit * DENSITY_SCALE,
    }
}

/// Projectiles spawned for the first `n` drained events, in order.
pub open spec fn spawn_prefix(
    c: CameraModel,
    translation: Vec3Model,
    events: Seq<ButtonEvent>,
    seeds: Seq<SpawnSeed>,
    n: int,
) -> Seq<ProjectileModel>
    decreases n,
{
    if n <= 0 {
        Seq::empty()
    } else {
        let prev = spawn_prefix(c, translation, events, seeds, n - 1);
        if spawn_qualifies(c, events[n - 1]) {
            prev.push(projectile_spec(c, translation, events[n - 1], seeds[n - 1]))
        } else {
            prev
        }
    }
}

/// While mouse look is disabled no event spawns anything.
pub proof fn lemma_no_spawn_while_released(
    c: CameraModel,
    translation: Vec3Model,
    events: Seq<ButtonEvent>,
    seeds: Seq<SpawnSeed>,
    n: int,
)
    requires
        !c.enable_mouse,
    ensures
        spawn_prefix(c, translation, events, seeds, n).len() == 0,
    decreases n,
{
    if n > 0 {
        lemma_no_spawn_while_released(c, translation, events, seeds, n - 1);
    }
}

/// Drain one tick's button events and produce the projectiles to
/// spawn, consuming one seed per event.
pub fn mouse_click_system(
    camera: &FPSCamera,
    translation: Vec3Fix,
    events: &Vec<ButtonEvent>,
    seeds: &Vec<SpawnSeed>,
) -> (spawned: Vec<SpawnedProjectile>)
    requires
        camera@.inv(),
        translation@.bounded(POS_LIMIT as int),
        seeds@.len() == events@.len(),
        forall|i: int| 0 <= i < seeds@.len() ==> seed_in_range(seeds@[i]),
    ensures
        spawned@.map_values(|p: SpawnedProjectile| p@) == spawn_prefix(
            camera@,
            translation@,
            events@,
            seeds@,
            events@.len() as int,
        ),
        !camera.enable_mouse ==> spawned@.len() == 0,
{
    let mut spawned: Vec<SpawnedProjectile> = Vec::new();
    if !camera.enable_mouse {
        proof {
            lemma_no_spawn_while_released(
                camera@,
                translation@,
                events@,
                seeds@,
                events@.len() as int,
            );
            assert(spawned@.map_values(|p: SpawnedProjectile| p@) =~= spawn_prefix(
                camera@,
                translation@,
                events@,
                seeds@,
                events@.len() as int,
            ));
        }
        return spawned;
    }
    let f = forward_vector(camera.yaw, camera.pitch);
    let unit = scale_to_norm(f, 1000);
    let position = Vec3Fix {
        x: translation.x + unit.x,
        y: translation.y + unit.y,
        z: translation.z + unit.z,
    };
    let linvel = Vec3Fix {
        x: f.x * MUZZLE_SPEED + camera.velocity.x,
        y: f.y * MUZZLE_SPEED + camera.velocity.y,
        z: f.z * MUZZLE_SPEED + camera.velocity.z,
    };
    let n = events.len();
    let mut i: usize = 0;
    while i < n
        invariant
            camera@.inv(),
            camera.enable_mouse,
            n == events@.len(),
            seeds@.len() == events@.len(),
            forall|j: int| 0 <= j < seeds@.len() ==> seed_in_range(seeds@[j]),
            0 <= i <= n,
            f@ == forward_spec(camera@.yaw, camera@.pitch),
            unit@ == scale_to_norm_spec(f@, 1000),
            position@ == (Vec3Model {
                x: translation@.x + unit@.x,
                y: translation@.y + unit@.y,
                z: translation@.z + unit@.z,
            }),
            linvel@ == (Vec3Model {
                x: f@.x * MUZZLE_SPEED + camera@.velocity.x,
                y: f@.y * MUZZLE_SPEED + camera@.velocity.y,
                z: f@.z * MUZZLE_SPEED + camera@.velocity.z,
            }),
            spawned@.map_values(|p: SpawnedProjectile| p@) == spawn_prefix(
                camera@,
                translation@,
                events@,
                seeds@,
                i as int,
            ),
        decreases n - i,
    {
        let e = events[i];
        if e.pressed && (matches!(e.button, MouseButton::Left) || matches!(
            e.button,
            MouseButton::Right,
        )) {
            let seed = seeds[i];
            let shape = if matches!(e.button, MouseButton::Left) {
                ProjectileShape::Cuboid { half_extent: PROJECTILE_SIZE }
            } else {
                ProjectileShape::Sphere { radius: PROJECTILE_SIZE }
            };
            let p = SpawnedProjectile {
                shape,
                position,
                linvel,
                angvel: Vec3Fix { x: seed.spin_x, y: seed.spin_y, z: 1000 },
                density: seed.density_unit * DENSITY_SCALE,
            };
            spawned.push(p);
            proof {
                assert(spawned@.map_values(|p: SpawnedProjectile| p@) =~= spawn_prefix(
                    camera@,
                    translation@,
                    events@,
                    seeds@,
                    i + 1,
                ));
            }
        } else {
            proof {
                assert(spawned@.map_values(|p: SpawnedProjectile| p@) =~= spawn_prefix(
                    camera@,
                    translation@,
                    events@,
                    seeds@,
                    i + 1,
                ));
            }
        }
        i += 1;
    }
    spawned
}

} // verus!
