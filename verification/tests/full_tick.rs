//! The whole simulation tick in its canonical phase order.

use gameclient::camera::{FPSCamera, MouseSample};
use gameclient::movement::KeyState;
use gameclient::projectile::{ButtonEvent, MouseButton, SpawnSeed};
use gameclient::tick::simulation_tick;
use gameclient::vec3::Vec3Fix;
use gameclient::world::{BodyKind, PhysicsWorld, Pose, DEFAULT_GRAVITY};

fn pose(x: i64, y: i64, z: i64) -> Pose {
    Pose { position: Vec3Fix { x, y, z }, yaw: 0, pitch: 0 }
}

fn v3(x: i64, y: i64, z: i64) -> Vec3Fix {
    Vec3Fix { x, y, z }
}

struct Scene {
    world: PhysicsWorld,
    camera: FPSCamera,
    player: usize,
    links: Vec<Option<usize>>,
    transforms: Vec<Pose>,
}

/// A floor, a falling cube and the player body, with the camera tuned
/// to acceleration 0.8 and target speed 4.0.
fn scene() -> Scene {
    let mut world = PhysicsWorld::new(DEFAULT_GRAVITY);
    let floor = world.create_body(BodyKind::Static, pose(0, 0, 0), v3(0, 0, 0), v3(0, 0, 0));
    let cube = world.create_body(
        BodyKind::Dynamic,
        pose(0, 10_000, 0),
        v3(0, 0, 0),
        v3(0, 0, 0),
    );
    let player = world.create_body(
        BodyKind::Dynamic,
        pose(0, 2_500, 10_000),
        v3(0, 0, 0),
        v3(0, 0, 0),
    );
    let links = vec![Some(floor), Some(cube), Some(player)];
    let transforms = vec![pose(0, 0, 0), pose(0, 10_000, 0), pose(0, 2_500, 10_000)];
    let camera = FPSCamera { target_speed: 4_000, acceleration: 800, ..FPSCamera::default() };
    Scene { world, camera, player, links, transforms }
}

fn still() -> MouseSample {
    MouseSample { dx: 0, dy: 0, finite: true }
}

fn forward() -> KeyState {
    KeyState { forward: true, back: false, left: false, right: false, jump: false }
}

#[test]
fn one_tick_runs_all_phases() {
    let mut s = scene();
    let clicks = vec![ButtonEvent { button: MouseButton::Left, pressed: true }];
    let seeds = vec![SpawnSeed { spin_x: 100, spin_y: 200, density_unit: 300 }];
    let (contacts, intersections) = simulation_tick(
        &mut s.world,
        &mut s.camera,
        s.player,
        2,
        &mut s.links,
        &mut s.transforms,
        still(),
        forward(),
        &clicks,
        &seeds,
        1000,
    );
    // The model produces no contact events of its own; the queues come
    // back drained either way.
    assert!(contacts.is_empty());
    assert!(intersections.is_empty());
    assert!(s.world.contact_events.is_empty());

    // Phase 2 then 4 on the player: the controller wrote (0, 0, -0.8),
    // then one second of gravity pulled it down.
    let player_body = s.world.get_body(s.player).unwrap();
    assert_eq!(player_body.linvel, v3(0, -9_810, -800));
    assert_eq!(player_body.pose.position, v3(0, -7_310, 9_200));
    assert_eq!(player_body.angvel, v3(0, 0, 0));
    assert_eq!(s.camera.velocity, v3(0, 0, -800));

    // Phase 3: the click spawned one projectile body, linked to a new
    // visual entity.
    assert_eq!(s.world.bodies.len(), 4);
    assert_eq!(s.links.len(), 4);
    assert_eq!(s.links[3], Some(3));
    let thrown = s.world.get_body(3).unwrap();
    assert_eq!(thrown.kind, BodyKind::Dynamic);
    assert_eq!(thrown.angvel, v3(100, 200, 1000));
    // Launched at 15 u/s plus the player's fresh velocity, then one
    // second of gravity and motion.
    assert_eq!(thrown.linvel, v3(0, -9_810, -15_800));
    assert_eq!(thrown.pose.position, v3(0, -7_310, -6_800));

    // Phase 6: the cube's transform follows its body, the static
    // floor's and the player's do not.
    assert_eq!(s.transforms[0], pose(0, 0, 0));
    assert_eq!(s.transforms[1], pose(0, 190, 0));
    assert_eq!(s.transforms[2], pose(0, 2_500, 10_000));
    assert_eq!(s.transforms[3].position, v3(0, -7_310, -6_800));
}

#[test]
fn ticks_compose_and_leave_statics_alone() {
    let mut s = scene();
    let no_clicks: Vec<ButtonEvent> = Vec::new();
    let no_seeds: Vec<SpawnSeed> = Vec::new();
    for _ in 0..20 {
        simulation_tick(
            &mut s.world,
            &mut s.camera,
            s.player,
            2,
            &mut s.links,
            &mut s.transforms,
            still(),
            forward(),
            &no_clicks,
            &no_seeds,
            16,
        );
        assert_eq!(s.transforms[0], pose(0, 0, 0));
        assert_eq!(s.world.get_body(0).unwrap().pose, pose(0, 0, 0));
        let h = s.camera.velocity;
        assert!(h.x * h.x + h.z * h.z <= 4_000 * 4_000);
    }
}

#[test]
fn disabled_cursor_tick_spawns_nothing() {
    let mut s = scene();
    s.camera.enable_mouse = false;
    s.camera.enable_keyboard = false;
    let clicks = vec![ButtonEvent { button: MouseButton::Left, pressed: true }];
    let seeds = vec![SpawnSeed { spin_x: 0, spin_y: 0, density_unit: 0 }];
    simulation_tick(
        &mut s.world,
        &mut s.camera,
        s.player,
        2,
        &mut s.links,
        &mut s.transforms,
        still(),
        forward(),
        &clicks,
        &seeds,
        1000,
    );
    assert_eq!(s.world.bodies.len(), 3);
    assert_eq!(s.links.len(), 3);
}
