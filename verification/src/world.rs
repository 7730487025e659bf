//! The physics-world model: a body registry, per-tick integration,
//! drainable event queues, the contact-pair solver filter and the pose
//! synchronisation pass.
//!
//! This is the adapter contract the controller is written against:
//! after `advance`, every dynamic body has integrated one tick of
//! gravity and motion inside a bounded world, static bodies never move,
//! and kinematic bodies move only as externally commanded.  Pose Sync
//! copies resulting dynamic-body poses onto visual transforms, skipping
//! static bodies, stale handles and the controller-driven player.

use vstd::prelude::*;
use crate::camera::{DT_LIMIT, VEL_LIMIT};
use crate::fixed::{abs_val, clamp_fix, clamp_spec, mul_div, mul_div_spec};
use crate::movement::BodyUpdate;
use crate::vec3::{Vec3Fix, Vec3Model, POS_LIMIT};

verus! {

/// Largest accepted gravity magnitude, milli-units per second squared.
pub const GRAVITY_LIMIT: i64 = 1_000_000;

/// Standard downward gravity: 9.81 units per second squared.
pub const DEFAULT_GRAVITY: i64 = 9_810;

/// How a body is simulated.
#[derive(Clone, Copy, Debug, PartialEq, Eq, Structural)]
pub enum BodyKind {
    Static,
    Dynamic,
    Kinematic,
}

/// A placement in world space: position plus the crate's yaw/pitch
/// orientation, all in milli-units.
#[derive(Clone, Copy, Debug, PartialEq, Eq, Structural)]
pub struct Pose {
    pub position: Vec3Fix,
    pub yaw: i64,
    pub pitch: i64,
}

/// The mathematical value of a `Pose`.
pub struct PoseModel {
    pub position: Vec3Model,
    pub yaw: int,
    pub pitch: int,
}

impl View for Pose {
    type V = PoseModel;

    open spec fn view(&self) -> PoseModel {
        PoseModel { position: self.position@, yaw: self.yaw as int, pitch: self.pitch as int }
    }
}

/// A rigid body: kind, pose and velocities.
#[derive(Clone, Copy, Debug, PartialEq, Eq, Structural)]
pub struct Body {
    pub kind: BodyKind,
    pub pose: Pose,
    pub linvel: Vec3Fix,
    pub angvel: Vec3Fix,
}

/// The mathematical value of a `Body`.
pub struct BodyModel {
    pub kind: BodyKind,
    pub pose: PoseModel,
    pub linvel: Vec3Model,
    pub angvel: Vec3Model,
}

impl View for Body {
    type V = BodyModel;

    open spec fn view(&self) -> BodyModel {
        BodyModel { kind: self.kind, pose: self.pose@, linvel: self.linvel@, angvel: self.angvel@ }
    }
}

/// A contact transition between two bodies' colliders.
#[derive(Clone, Copy, Debug, PartialEq, Eq, Structural)]
pub struct ContactEvent {
    pub body_a: usize,
    pub body_b: usize,
    pub started: bool,
}

/// An intersection (sensor overlap) transition.
#[derive(Clone, Copy, Debug, PartialEq, Eq, Structural)]
pub struct IntersectionEvent {
    pub collider_a: usize,
    pub collider_b: usize,
    pub intersecting: bool,
}

/// The physics world: a body registry, gravity, and the two drainable
/// event queues.
pub struct PhysicsWorld {
    pub bodies: Vec<Body>,
    pub gravity: i64,
    pub contact_events: Vec<ContactEvent>,
    pub intersection_events: Vec<IntersectionEvent>,
}

/// The mathematical value of a `PhysicsWorld`.
pub struct WorldModel {
    pub bodies: Seq<BodyModel>,
    pub gravity: int,
    pub contact_events: Seq<ContactEvent>,
    pub intersection_events: Seq<IntersectionEvent>,
}

impl View for PhysicsWorld {
    type V = WorldModel;

    open spec fn view(&self) -> WorldModel {
        WorldModel {
            bodies: self.bodies@.map_values(|b: Body| b@),
            gravity: self.gravity as int,
            contact_events: self.contact_events@,
            intersection_events: self.intersection_events@,
        }
    }
}

impl PoseModel {
    /// A pose within the bounded world and the orientation ranges.
    pub open spec fn ok(self) -> bool {
        &&& self.position.bounded(POS_LIMIT as int)
        &&& 0 <= self.yaw < 360_000
        &&& -90_000 <= self.pitch <= 90_000
    }
}

impl BodyModel {
    /// A body whose pose and velocities are within the crate's ranges.
    pub open spec fn ok(self) -> bool {
        &&& self.pose.ok()
        &&& self.linvel.bounded(VEL_LIMIT as int)
        &&& self.angvel.bounded(VEL_LIMIT as int)
    }
}

impl WorldModel {
    /// Well-formedness of the whole registry.
    pub open spec fn inv(self) -> bool {
        &&& 0 <= self.gravity <= GRAVITY_LIMIT
        &&& forall|i: int| 0 <= i < self.bodies.len() ==> #[trigger] self.bodies[i].ok()
    }
}

/// One tick of semi-implicit integration for a dynamic body: gravity
/// pulls the vertical velocity down, then the position moves by the new
/// velocity, both clamped into the bounded world.
pub open spec fn integrate_body_spec(b: BodyModel, gravity: int, dt: int) -> BodyModel {
    let vy = clamp_spec(
        b.linvel.y - mul_div_spec(gravity, dt, 1000),
        -VEL_LIMIT as int,
        VEL_LIMIT as int,
    );
    let v = Vec3Model { x: b.linvel.x, y: vy, z: b.linvel.z };
    let p = Vec3Model {
        x: clamp_spec(
            b.pose.position.x + mul_div_spec(v.x, dt, 1000),
            -POS_LIMIT as int,
            POS_LIMIT as int,
        ),
        y: clamp_spec(
            b.pose.position.y + mul_div_spec(v.y, dt, 1000),
            -POS_LIMIT as int,
            POS_LIMIT as int,
        ),
        z: clamp_spec(
            b.pose.position.z + mul_div_spec(v.z, dt, 1000),
            -POS_LIMIT as int,
            POS_LIMIT as int,
        ),
    };
    BodyModel { pose: PoseModel { position: p, ..b.pose }, linvel: v, ..b }
}

/// One advance of the whole world: dynamic bodies integrate, static and
/// kinematic bodies stay exactly where they are.
pub open spec fn advance_spec(w: WorldModel, dt: int) -> WorldModel {
    WorldModel {
        bodies: w.bodies.map(
            |i: int, b: BodyModel|
                if b.kind == BodyKind::Dynamic {
                    integrate_body_spec(b, w.gravity, dt)
                } else {
                    b
                },
        ),
        ..w
    }
}

/// The world after a whole run of ticks.
pub open spec fn advance_seq_spec(w: WorldModel, dts: Seq<int>) -> WorldModel
    decreases dts.len(),
{
    if dts.len() == 0 {
        w
    } else {
        advance_seq_spec(advance_spec(w, dts[0]), dts.drop_first())
    }
}

/// A body that is not dynamic keeps its exact state across any number
/// of ticks: in particular a static body's pose, set at creation, is
/// never altered by the simulation.
pub proof fn lemma_static_never_moves(w: WorldModel, dts: Seq<int>, h: int)
    requires
        0 <= h < w.bodies.len(),
        w.bodies[h].kind != BodyKind::Dynamic,
    ensures
        advance_seq_spec(w, dts).bodies.len() == w.bodies.len(),
        advance_seq_spec(w, dts).bodies[h] == w.bodies[h],
    decreases dts.len(),
{
    if dts.len() > 0 {
        lemma_static_never_moves(advance_spec(w, dts[0]), dts.drop_first(), h);
    }
}

impl PhysicsWorld {
    /// An empty world under the given gravity.
    pub fn new(gravity: i64) -> (w: PhysicsWorld)
        requires
            0 <= gravity <= GRAVITY_LIMIT,
        ensures
            w@.inv(),
            w@.bodies.len() == 0,
            w@.gravity == gravity,
            w@.contact_events.len() == 0,
            w@.intersection_events.len() == 0,
    {
        let w = PhysicsWorld {
            bodies: Vec::new(),
            gravity,
            contact_events: Vec::new(),
            intersection_events: Vec::new(),
        };
        proof {
            assert(w@.bodies =~= Seq::<BodyModel>::empty());
        }
        w
    }

    /// Register a body and return its handle.
    pub fn create_body(&mut self, kind: BodyKind, pose: Pose, linvel: Vec3Fix, angvel: Vec3Fix) -> (h:
        usize)
        requires
            old(self)@.inv(),
            pose@.ok(),
            linvel@.bounded(VEL_LIMIT as int),
            angvel@.bounded(VEL_LIMIT as int),
        ensures
            final(self)@.inv(),
            h == old(self)@.bodies.len(),
            final(self)@.bodies == old(self)@.bodies.push(
                BodyModel { kind, pose: pose@, linvel: linvel@, angvel: angvel@ },
            ),
            final(self)@.gravity == old(self)@.gravity,
            final(self)@.contact_events == old(self)@.contact_events,
            final(self)@.intersection_events == old(self)@.intersection_events,
    {
        let h = self.bodies.len();
        let body = Body { kind, pose, linvel, angvel };
        self.bodies.push(body);
        proof {
            assert(self.bodies@.map_values(|b: Body| b@) =~= old(self)@.bodies.push(body@));
            assert forall|i: int| 0 <= i < self@.bodies.len() implies #[trigger] self@.bodies[i].ok() by {
                if i < old(self)@.bodies.len() {
                    assert(old(self)@.bodies.push(body@)[i] == old(self)@.bodies[i]);
                    assert(old(self)@.bodies[i].ok());
                } else {
                    assert(old(self)@.bodies.push(body@)[i] == body@);
                }
            }
        }
        h
    }

    /// Look a body up by handle; a stale handle yields `None`, never an
    /// error.
    pub fn get_body(&self, h: usize) -> (b: Option<Body>)
        ensures
            h < self@.bodies.len() ==> (b matches Some(body) && body@ == self@.bodies[h as int]),
            h >= self@.bodies.len() ==> b.is_none(),
    {
        if h < self.bodies.len() {
            Some(self.bodies[h])
        } else {
            None
        }
    }

    /// Write the controller's per-tick output to the player body:
    /// rotation (when the look changed), linear velocity, and angular
    /// velocity.  Position and kind are untouched.  A stale handle is
    /// skipped and reported by the `false` return.
    pub fn apply_player_update(&mut self, h: usize, u: &BodyUpdate) -> (ok: bool)
        requires
            old(self)@.inv(),
            u.linvel@.bounded(VEL_LIMIT as int),
            u.angvel@.bounded(VEL_LIMIT as int),
            u.rotation matches Some(r) ==> 0 <= r.0 < 360_000 && -90_000 <= r.1 <= 90_000,
        ensures
            final(self)@.inv(),
            ok == (h < old(self)@.bodies.len()),
            !ok ==> final(self)@ == old(self)@,
            ok ==> final(self)@.bodies == old(self)@.bodies.update(
                h as int,
                BodyModel {
                    pose: PoseModel {
                        position: old(self)@.bodies[h as int].pose.position,
                        yaw: match u.rotation {
                            Some(r) => r.0 as int,
                            None => old(self)@.bodies[h as int].pose.yaw,
                        },
                        pitch: match u.rotation {
                            Some(r) => r.1 as int,
                            None => old(self)@.bodies[h as int].pose.pitch,
                        },
                    },
                    linvel: u.linvel@,
                    angvel: u.angvel@,
                    ..old(self)@.bodies[h as int]
                },
            ),
            final(self)@.gravity == old(self)@.gravity,
            final(self)@.contact_events == old(self)@.contact_events,
            final(self)@.intersection_events == old(self)@.intersection_events,
    {
        if h >= self.bodies.len() {
            proof {
                assert(self@ == old(self)@);
            }
            return false;
        }
        let b = self.bodies[h];
        let (yaw, pitch) = match u.rotation {
            Some(r) => r,
            None => (b.pose.yaw, b.pose.pitch),
        };
        let nb = Body {
            kind: b.kind,
            pose: Pose { position: b.pose.position, yaw, pitch },
            linvel: u.linvel,
            angvel: u.angvel,
        };
        self.bodies[h] = nb;
        proof {
            assert(self.bodies@.map_values(|x: Body| x@) =~= old(self)@.bodies.update(
                h as int,
                nb@,
            ));
            assert forall|i: int| 0 <= i < self@.bodies.len() implies #[trigger] self@.bodies[i].ok() by {
                if i != h {
                    assert(old(self)@.bodies.update(h as int, nb@)[i] == old(self)@.bodies[i]);
                    assert(old(self)@.bodies[i].ok());
                } else {
                    assert(old(self)@.bodies.update(h as int, nb@)[i] == nb@);
                    assert(old(self)@.bodies[h as int].ok());
                }
            }
        }
        true
    }

    /// Advance the simulation one tick: every dynamic body integrates
    /// gravity and motion, everything else stays put.
    pub fn advance(&mut self, dt: i64) -> (r: ())
        requires
            old(self)@.inv(),
            0 <= dt <= DT_LIMIT,
        ensures
            final(self)@.inv(),
            final(self)@ == advance_spec(old(self)@, dt as int),
    {
        let n = self.bodies.len();
        let mut i: usize = 0;
        while i < n
            invariant
                old(self)@.inv(),
                0 <= dt <= DT_LIMIT,
                0 <= i <= n,
                n == self@.bodies.len(),
                n == self.bodies@.len(),
                n == old(self)@.bodies.len(),
                self.gravity == old(self).gravity,
                self.contact_events@ == old(self).contact_events@,
                self.intersection_events@ == old(self).intersection_events@,
                forall|j: int| i <= j < n ==> #[trigger] self@.bodies[j] == old(self)@.bodies[j],
                forall|j: int|
                    0 <= j < i ==> #[trigger] self@.bodies[j] == advance_spec(
                        old(self)@,
                        dt as int,
                    ).bodies[j],
                forall|j: int| 0 <= j < n ==> #[trigger] self@.bodies[j].ok(),
            decreases n - i,
        {
            let b = self.bodies[i];
            proof {
                assert(b@ == self@.bodies[i as int]);
                assert(b@.ok());
            }
            if matches!(b.kind, BodyKind::Dynamic) {
                let nb = integrate_body(b, self.gravity, dt);
                let ghost pre = self@;
                self.bodies[i] = nb;
                proof {
                    assert(self.bodies@.map_values(|x: Body| x@) =~= pre.bodies.update(
                        i as int,
                        nb@,
                    ));
                    assert forall|j: int| 0 <= j < n implies #[trigger] self@.bodies[j] == (
                    if j == i as int {
                        nb@
                    } else {
                        pre.bodies[j]
                    }) by {
                        assert(pre.bodies.update(i as int, nb@)[j] == (if j == i as int {
                            nb@
                        } else {
                            pre.bodies[j]
                        }));
                    }
                }
            }
            i += 1;
        }
        proof {
            assert(self@.bodies =~= advance_spec(old(self)@, dt as int).bodies);
            assert(self@ == advance_spec(old(self)@, dt as int));
        }
    }

    /// Drain the contact-event queue: hand every queued event out and
    /// leave the queue empty; an empty queue is a no-op, not an error.
    pub fn drain_contact_events(&mut self) -> (evs: Vec<ContactEvent>)
        ensures
            evs@ == old(self)@.contact_events,
            final(self)@.contact_events.len() == 0,
            final(self)@.bodies == old(self)@.bodies,
            final(self)@.gravity == old(self)@.gravity,
            final(self)@.intersection_events == old(self)@.intersection_events,
    {
        let mut evs: Vec<ContactEvent> = Vec::new();
        core::mem::swap(&mut evs, &mut self.contact_events);
        evs
    }

    /// Drain the intersection-event queue, leaving it empty.
    pub fn drain_intersection_events(&mut self) -> (evs: Vec<IntersectionEvent>)
        ensures
            evs@ == old(self)@.intersection_events,
            final(self)@.intersection_events.len() == 0,
            final(self)@.bodies == old(self)@.bodies,
            final(self)@.gravity == old(self)@.gravity,
            final(self)@.contact_events == old(self)@.contact_events,
    {
        let mut evs: Vec<IntersectionEvent> = Vec::new();
        core::mem::swap(&mut evs, &mut self.intersection_events);
        evs
    }
}

/// One tick of integration for one dynamic body.
fn integrate_body(b: Body, gravity: i64, dt: i64) -> (nb: Body)
    requires
        b@.ok(),
        0 <= gravity <= GRAVITY_LIMIT,
        0 <= dt <= DT_LIMIT,
    ensures
        nb@ == integrate_body_spec(b@, gravity as int, dt as int),
        nb@.ok(),
{
    proof {
        assert(abs_val(gravity as int) * abs_val(dt as int) <= 100_000_000_000_000)
            by (nonlinear_arith)
            requires
                0 <= gravity <= GRAVITY_LIMIT,
                0 <= dt <= DT_LIMIT,
        ;
    }
    let dvy = mul_div(gravity, dt, 1000);
    let vy = clamp_fix(b.linvel.y - dvy, -VEL_LIMIT, VEL_LIMIT);
    let v = Vec3Fix { x: b.linvel.x, y: vy, z: b.linvel.z };
    proof {
        assert(abs_val(v.x as int) * abs_val(dt as int) <= 200_000_000_000_000_000)
            by (nonlinear_arith)
            requires
                abs_val(v.x as int) <= VEL_LIMIT,
                0 <= abs_val(dt as int) <= DT_LIMIT,
        ;
        assert(abs_val(v.y as int) * abs_val(dt as int) <= 200_000_000_000_000_000)
            by (nonlinear_arith)
            requires
                abs_val(v.y as int) <= VEL_LIMIT,
                0 <= abs_val(dt as int) <= DT_LIMIT,
        ;
        assert(abs_val(v.z as int) * abs_val(dt as int) <= 200_000_000_000_000_000)
            by (nonlinear_arith)
            requires
                abs_val(v.z as int) <= VEL_LIMIT,
                0 <= abs_val(dt as int) <= DT_LIMIT,
        ;
    }
    let dx = mul_div(v.x, dt, 1000);
    let dy = mul_div(v.y, dt, 1000);
    let dz = mul_div(v.z, dt, 1000);
    let p = Vec3Fix {
        x: clamp_fix(b.pose.position.x + dx, -POS_LIMIT, POS_LIMIT),
        y: clamp_fix(b.pose.position.y + dy, -POS_LIMIT, POS_LIMIT),
        z: clamp_fix(b.pose.position.z + dz, -POS_LIMIT, POS_LIMIT),
    };
    Body {
        kind: b.kind,
        pose: Pose { position: p, yaw: b.pose.yaw, pitch: b.pose.pitch },
        linvel: v,
        angvel: b.angvel,
    }
}

/// The contact-pair filter: impulses are computed exactly when neither
/// body is static.
pub fn filter_contact_pair(kind_a: BodyKind, kind_b: BodyKind) -> (compute: bool)
    ensures
        compute == (kind_a != BodyKind::Static && kind_b != BodyKind::Static),
{
    !matches!(kind_a, BodyKind::Static) && !matches!(kind_b, BodyKind::Static)
}

/// The pose a visual transform should take from the physics world, if
/// any: its linked body's pose when the link is live, the body is
/// dynamic, and the entity is not the controller-driven player.
pub open spec fn synced_pose_spec(
    w: WorldModel,
    link: Option<usize>,
    is_player: bool,
) -> Option<PoseModel> {
    if is_player {
        None
    } else {
        match link {
            None => None,
            Some(h) => if h < w.bodies.len() && w.bodies[h as int].kind == BodyKind::Dynamic {
                Some(w.bodies[h as int].pose)
            } else {
                None
            },
        }
    }
}

/// A transform linked to a static body is never touched by Pose Sync.
pub proof fn lemma_static_pose_never_synced(w: WorldModel, h: usize, is_player: bool)
    requires
        h < w.bodies.len(),
        w.bodies[h as int].kind == BodyKind::Static,
    ensures
        synced_pose_spec(w, Some(h), is_player).is_none(),
{
}

/// Pose Sync: after an advance, copy each dynamic body's pose onto the
/// visual transform of every entity linked to it, skipping static
/// bodies, stale handles and the player entity the controller already
/// wrote this tick.
pub fn sync_physics(
    world: &PhysicsWorld,
    links: &Vec<Option<usize>>,
    player: Option<usize>,
    transforms: &mut Vec<Pose>,
)
    requires
        links@.len() == old(transforms)@.len(),
    ensures
        final(transforms)@.len() == old(transforms)@.len(),
        forall|e: int|
            0 <= e < final(transforms)@.len() ==> #[trigger] final(transforms)@[e]@ == (match
                synced_pose_spec(world@, links@[e], player == Some(e as usize)) {
                Some(p) => p,
                None => old(transforms)@[e]@,
            }),
{
    let n = links.len();
    let mut e: usize = 0;
    while e < n
        invariant
            n == links@.len(),
            transforms@.len() == links@.len(),
            0 <= e <= n,
            forall|j: int| e <= j < n ==> #[trigger] transforms@[j] == old(transforms)@[j],
            forall|j: int|
                0 <= j < e ==> #[trigger] transforms@[j]@ == (match synced_pose_spec(
                    world@,
                    links@[j],
                    player == Some(j as usize),
                ) {
                    Some(p) => p,
                    None => old(transforms)@[j]@,
                }),
        decreases n - e,
    {
        let is_player = match player {
            Some(p) => p == e,
            None => false,
        };
        if !is_player {
            if let Some(h) = links[e] {
                if h < world.bodies.len() {
                    let b = world.bodies[h];
                    if matches!(b.kind, BodyKind::Dynamic) {
                        transforms[e] = b.pose;
                    }
                }
            }
        }
        e += 1;
    }
}

} // verus!

