//! The canonical simulation tick, in its strict phase order: the
//! controller's read-modify-write on the player body, projectile
//! spawning, one physics advance, a full drain of both event queues,
//! and the pose-sync pass that skips the controller-driven player.
//! Running the phases in this order — controller before advance,
//! sync last — is what rules out one-tick camera lag and double
//! writes.

use vstd::prelude::*;
use crate::camera::{look_spec, CameraModel, FPSCamera, MouseSample, DELTA_LIMIT, DT_LIMIT,
    VEL_LIMIT};
use crate::fixed::{abs_val, clamp_fix, clamp_spec};
use crate::movement::{player_dynamics, velocity_spec, BodyUpdate, KeyState, CUR_VEL_LIMIT};
use crate::projectile::{mouse_click_system, seed_in_range, spawn_prefix, ButtonEvent,
    ProjectileModel, SpawnSeed};
use crate::vec3::{Vec3Fix, Vec3Model, POS_LIMIT};
use crate::world::{advance_spec, sync_physics, synced_pose_spec, BodyKind, BodyModel,
    ContactEvent, IntersectionEvent, PhysicsWorld, Pose, PoseModel, WorldModel};

verus! {

/// A vector with each component clamped into `[-lim, lim]`.
pub open spec fn clamp_vec_spec(v: Vec3Model, lim: int) -> Vec3Model {
    Vec3Model {
        x: clamp_spec(v.x, -lim, lim),
        y: clamp_spec(v.y, -lim, lim),
        z: clamp_spec(v.z, -lim, lim),
    }
}

/// Clamp a vector into `[-lim, lim]` per component.
fn clamp_vec(v: Vec3Fix, lim: i64) -> (r: Vec3Fix)
    requires
        0 <= lim,
    ensures
        r@ == clamp_vec_spec(v@, lim as int),
        r@.bounded(lim as int),
{
    Vec3Fix {
        x: clamp_fix(v.x, -lim, lim),
        y: clamp_fix(v.y, -lim, lim),
        z: clamp_fix(v.z, -lim, lim),
    }
}

/// The player body after the controller's write: rotation taken from
/// the look update when it ran, the new linear velocity, angular
/// velocity forced to zero; position and kind untouched.
pub open spec fn player_written_spec(
    b: BodyModel,
    c1: CameraModel,
    looked: bool,
    v: Vec3Model,
) -> BodyModel {
    BodyModel {
        pose: PoseModel {
            position: b.pose.position,
            yaw: if looked {
                c1.yaw
            } else {
                b.pose.yaw
            },
            pitch: if looked {
                c1.pitch
            } else {
                b.pose.pitch
            },
        },
        linvel: v,
        angvel: Vec3Model { x: 0, y: 0, z: 0 },
        ..b
    }
}

/// The body a spawned projectile is registered as: dynamic, at the
/// spawn pose with the camera's orientation, carrying the launch and
/// spin velocities, everything clamped into the world's ranges.
pub open spec fn projectile_body_spec(p: ProjectileModel, c: CameraModel) -> BodyModel {
    BodyModel {
        kind: BodyKind::Dynamic,
        pose: PoseModel {
            position: clamp_vec_spec(p.position, POS_LIMIT as int),
            yaw: c.yaw,
            pitch: c.pitch,
        },
        linvel: clamp_vec_spec(p.linvel, VEL_LIMIT as int),
        angvel: clamp_vec_spec(p.angvel, VEL_LIMIT as int),
    }
}

/// The whole tick on the model: the world after phases 2-4 (controller
/// write, spawns, advance), the camera after the tick, and the spawned
/// projectiles.  The event queues of the returned world are the ones
/// phase 5 hands out before emptying them.
pub open spec fn tick_spec(
    w0: WorldModel,
    c0: CameraModel,
    player_body: int,
    sample: MouseSample,
    keys: KeyState,
    clicks: Seq<ButtonEvent>,
    seeds: Seq<SpawnSeed>,
    dt: int,
) -> (WorldModel, CameraModel, Seq<ProjectileModel>) {
    let c1 = look_spec(c0, sample.dx as int, sample.dy as int, sample.finite, dt);
    let current = clamp_vec_spec(w0.bodies[player_body].linvel, CUR_VEL_LIMIT as int);
    let v = velocity_spec(c1, keys, current);
    let c2 = CameraModel { velocity: v, ..c1 };
    let looked = c0.enable_mouse && sample.finite;
    let w1 = WorldModel {
        bodies: w0.bodies.update(
            player_body,
            player_written_spec(w0.bodies[player_body], c1, looked, v),
        ),
        ..w0
    };
    let ps = spawn_prefix(
        c2,
        w1.bodies[player_body].pose.position,
        clicks,
        seeds,
        clicks.len() as int,
    );
    let w2 = WorldModel {
        bodies: w1.bodies + ps.map(|k: int, p: ProjectileModel| projectile_body_spec(p, c2)),
        ..w1
    };
    (advance_spec(w2, dt), c2, ps)
}

/// Run one simulation tick in the canonical order, on an input
/// snapshot the host has already collected: the controller writes the
/// player body, click edges spawn projectiles, the world advances once,
/// both event queues are drained in full and returned, and Pose Sync
/// copies the resulting dynamic poses onto every visual transform but
/// the player's.
pub fn simulation_tick(
    world: &mut PhysicsWorld,
    camera: &mut FPSCamera,
    player_body: usize,
    player_entity: usize,
    links: &mut Vec<Option<usize>>,
    transforms: &mut Vec<Pose>,
    sample: MouseSample,
    keys: KeyState,
    clicks: &Vec<ButtonEvent>,
    seeds: &Vec<SpawnSeed>,
    dt: i64,
) -> (drained: (Vec<ContactEvent>, Vec<IntersectionEvent>))
    requires
        old(world)@.inv(),
        old(camera)@.inv(),
        player_body < old(world)@.bodies.len(),
        old(links)@.len() == old(transforms)@.len(),
        abs_val(sample.dx as int) <= DELTA_LIMIT,
        abs_val(sample.dy as int) <= DELTA_LIMIT,
        0 <= dt <= DT_LIMIT,
        seeds@.len() == clicks@.len(),
        forall|i: int| 0 <= i < seeds@.len() ==> seed_in_range(seeds@[i]),
    ensures
        final(world)@.inv(),
        final(camera)@.inv(),
        ({
            let t = tick_spec(
                old(world)@,
                old(camera)@,
                player_body as int,
                sample,
                keys,
                clicks@,
                seeds@,
                dt as int,
            );
            &&& final(camera)@ == t.1
            &&& final(world)@.bodies == t.0.bodies
            &&& final(world)@.gravity == t.0.gravity
            &&& final(world)@.contact_events.len() == 0
            &&& final(world)@.intersection_events.len() == 0
            &&& drained.0@ == t.0.contact_events
            &&& drained.1@ == t.0.intersection_events
            &&& final(links)@ == old(links)@ + Seq::new(
                t.2.len(),
                |k: int| Some((old(world)@.bodies.len() + k) as usize),
            )
            &&& final(transforms)@.len() == old(transforms)@.len() + t.2.len()
            &&& (forall|e: int|
                0 <= e < final(transforms)@.len() ==> #[trigger] final(transforms)@[e]@ == (
                match synced_pose_spec(
                    final(world)@,
                    final(links)@[e],
                    Some(player_entity) == Some(e as usize),
                ) {
                    Some(p) => p,
                    None => if e < old(transforms)@.len() {
                        old(transforms)@[e]@
                    } else {
                        projectile_body_spec(t.2[e - old(transforms)@.len()], t.1).pose
                    },
                }))
        }),
{
    let ghost t = tick_spec(
        old(world)@,
        old(camera)@,
        player_body as int,
        sample,
        keys,
        clicks@,
        seeds@,
        dt as int,
    );

    // Phase 2: the controller's single read-modify-write on the player
    // body.
    let b0 = world.bodies[player_body];
    proof {
        assert(b0@ == world@.bodies[player_body as int]);
        assert(b0@.ok());
    }
    let current = clamp_vec(b0.linvel, CUR_VEL_LIMIT);
    let u: BodyUpdate = player_dynamics(camera, sample, keys, current, dt);
    let applied = world.apply_player_update(player_body, &u);
    proof {
        assert(applied);
        assert(world@.bodies[player_body as int] == player_written_spec(
            old(world)@.bodies[player_body as int],
            look_spec(old(camera)@, sample.dx as int, sample.dy as int, sample.finite, dt as int),
            old(camera).enable_mouse && sample.finite,
            velocity_spec(
                look_spec(
                    old(camera)@,
                    sample.dx as int,
                    sample.dy as int,
                    sample.finite,
                    dt as int,
                ),
                keys,
                current@,
            ),
        ));
    }

    // Phase 3: spawn a projectile body for each qualifying click edge;
    // the new bodies join the registry for the *next* phases.
    let b1 = world.bodies[player_body];
    let translation = b1.pose.position;
    proof {
        assert(b1@ == world@.bodies[player_body as int]);
        assert(b1@.ok());
    }
    let spawned = mouse_click_system(camera, translation, clicks, seeds);
    let ghost base = world@;
    let ghost ps = spawned@.map_values(|p: crate::projectile::SpawnedProjectile| p@);
    proof {
        assert(ps == t.2);
    }
    let n = spawned.len();
    let mut k: usize = 0;
    while k < n
        invariant
            world@.inv(),
            camera@.inv(),
            0 <= k <= n,
            n == spawned@.len(),
            n == ps.len(),
            ps == spawned@.map_values(|p: crate::projectile::SpawnedProjectile| p@),
            base.inv(),
            world@.bodies == base.bodies + ps.take(k as int).map(
                |j: int, p: ProjectileModel| projectile_body_spec(p, camera@),
            ),
            world@.gravity == base.gravity,
            world@.contact_events == base.contact_events,
            world@.intersection_events == base.intersection_events,
            links@ == old(links)@ + Seq::new(
                k as nat,
                |j: int| Some((base.bodies.len() + j) as usize),
            ),
            transforms@.len() == old(transforms)@.len() + k,
            forall|e: int|
                0 <= e < old(transforms)@.len() ==> #[trigger] transforms@[e] == old(
                    transforms,
                )@[e],
            forall|j: int|
                0 <= j < k ==> #[trigger] transforms@[old(transforms)@.len() + j]@
                    == projectile_body_spec(ps[j], camera@).pose,
        decreases n - k,
    {
        let p = spawned[k];
        proof {
            assert(p@ == ps[k as int]);
        }
        let pose = Pose {
            position: clamp_vec(p.position, POS_LIMIT),
            yaw: camera.yaw,
            pitch: camera.pitch,
        };
        let lv = clamp_vec(p.linvel, VEL_LIMIT);
        let av = clamp_vec(p.angvel, VEL_LIMIT);
        proof {
            assert(pose@ == projectile_body_spec(ps[k as int], camera@).pose);
        }
        let h = world.create_body(BodyKind::Dynamic, pose, lv, av);
        links.push(Some(h));
        transforms.push(pose);
        proof {
            assert(ps.take(k + 1) =~= ps.take(k as int).push(ps[k as int]));
            assert(ps.take(k + 1).map(|j: int, q: ProjectileModel| projectile_body_spec(q, camera@))
                =~= ps.take(k as int).map(
                |j: int, q: ProjectileModel| projectile_body_spec(q, camera@),
            ).push(projectile_body_spec(ps[k as int], camera@)));
            assert(world@.bodies =~= base.bodies + ps.take(k + 1).map(
                |j: int, q: ProjectileModel| projectile_body_spec(q, camera@),
            ));
            assert(links@ =~= old(links)@ + Seq::new(
                (k + 1) as nat,
                |j: int| Some((base.bodies.len() + j) as usize),
            ));
        }
        k += 1;
    }
    proof {
        assert(ps.take(n as int) =~= ps);
        assert(world@.bodies =~= base.bodies + ps.map(
            |j: int, q: ProjectileModel| projectile_body_spec(q, camera@),
        ));
    }

    // Phase 4: one physics advance.
    world.advance(dt);

    // Phase 5: both event queues drained in full.
    let contacts = world.drain_contact_events();
    let inters = world.drain_intersection_events();

    // Phase 6: Pose Sync onto every transform but the player's.
    let ghost tr_pre = transforms@;
    sync_physics(world, links, Some(player_entity), transforms);
    proof {
        assert forall|e: int| 0 <= e < transforms@.len() implies #[trigger] transforms@[e]@ == (
        match synced_pose_spec(world@, links@[e], Some(player_entity) == Some(e as usize)) {
            Some(p) => p,
            None => if e < old(transforms)@.len() {
                old(transforms)@[e]@
            } else {
                projectile_body_spec(t.2[e - old(transforms)@.len()], t.1).pose
            },
        }) by {
            assert(transforms@[e]@ == (match synced_pose_spec(
                world@,
                links@[e],
                Some(player_entity) == Some(e as usize),
            ) {
                Some(p) => p,
                None => tr_pre[e]@,
            }));
            if e < old(transforms)@.len() {
                assert(tr_pre[e] == old(transforms)@[e]);
            } else {
                let j = e - old(transforms)@.len();
                assert(tr_pre[old(transforms)@.len() + j]@ == projectile_body_spec(
                    ps[j],
                    camera@,
                ).pose);
                assert(old(transforms)@.len() + j == e);
            }
        }
        assert(camera@ == t.1);
        assert(world@.bodies == t.0.bodies);
        assert(world@.gravity == t.0.gravity);
        assert(world@.contact_events.len() == 0);
        assert(contacts@ == t.0.contact_events);
        assert(inters@ == t.0.intersection_events);
        assert(links@ == old(links)@ + Seq::new(
            t.2.len(),
            |j: int| Some((old(world)@.bodies.len() + j) as usize),
        ));
        assert(transforms@.len() == old(transforms)@.len() + t.2.len());
    }
    (contacts, inters)
}

} // verus!
