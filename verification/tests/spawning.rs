//! Projectile spawning on button press edges.

use gameclient::camera::FPSCamera;
use gameclient::projectile::{
    mouse_click_system, ButtonEvent, MouseButton, ProjectileShape, SpawnSeed,
};
use gameclient::vec3::Vec3Fix;

fn seed() -> SpawnSeed {
    SpawnSeed { spin_x: 250, spin_y: 750, density_unit: 500 }
}

fn press(button: MouseButton) -> ButtonEvent {
    ButtonEvent { button, pressed: true }
}

fn release(button: MouseButton) -> ButtonEvent {
    ButtonEvent { button, pressed: false }
}

fn player_position() -> Vec3Fix {
    Vec3Fix { x: 0, y: 2_500, z: 10_000 }
}

#[test]
fn left_press_spawns_cuboid() {
    let c = FPSCamera::default();
    let spawned = mouse_click_system(
        &c,
        player_position(),
        &vec![press(MouseButton::Left)],
        &vec![seed()],
    );
    assert_eq!(spawned.len(), 1);
    let p = &spawned[0];
    assert_eq!(p.shape, ProjectileShape::Cuboid { half_extent: 1000 });
    // One unit ahead of the player along the look direction (-Z).
    assert_eq!(p.position, Vec3Fix { x: 0, y: 2_500, z: 9_000 });
    // Muzzle speed 15 along the look direction, plus the (zero) player
    // velocity.
    assert_eq!(p.linvel, Vec3Fix { x: 0, y: 0, z: -15_000 });
    assert_eq!(p.angvel, Vec3Fix { x: 250, y: 750, z: 1000 });
    assert_eq!(p.density, 4_000);
}

#[test]
fn right_press_spawns_sphere() {
    let c = FPSCamera::default();
    let spawned = mouse_click_system(
        &c,
        player_position(),
        &vec![press(MouseButton::Right)],
        &vec![seed()],
    );
    assert_eq!(spawned.len(), 1);
    assert_eq!(spawned[0].shape, ProjectileShape::Sphere { radius: 1000 });
}

#[test]
fn player_momentum_carries_into_throw() {
    let mut c = FPSCamera::default();
    c.velocity = Vec3Fix { x: 1_200, y: 300, z: -2_000 };
    let spawned = mouse_click_system(
        &c,
        player_position(),
        &vec![press(MouseButton::Left)],
        &vec![seed()],
    );
    assert_eq!(spawned[0].linvel, Vec3Fix { x: 1_200, y: 300, z: -17_000 });
}

#[test]
fn no_spawn_while_mouse_look_disabled() {
    let mut c = FPSCamera::default();
    c.enable_mouse = false;
    let spawned = mouse_click_system(
        &c,
        player_position(),
        &vec![press(MouseButton::Left), press(MouseButton::Right)],
        &vec![seed(), seed()],
    );
    assert_eq!(spawned.len(), 0);
}

#[test]
fn releases_and_other_buttons_spawn_nothing() {
    let c = FPSCamera::default();
    let spawned = mouse_click_system(
        &c,
        player_position(),
        &vec![release(MouseButton::Left), press(MouseButton::Other), release(MouseButton::Right)],
        &vec![seed(), seed(), seed()],
    );
    assert_eq!(spawned.len(), 0);
}

#[test]
fn each_press_spawns_in_order() {
    let c = FPSCamera::default();
    let s1 = SpawnSeed { spin_x: 1, spin_y: 2, density_unit: 100 };
    let s2 = SpawnSeed { spin_x: 3, spin_y: 4, density_unit: 200 };
    let spawned = mouse_click_system(
        &c,
        player_position(),
        &vec![press(MouseButton::Left), release(MouseButton::Left), press(MouseButton::Right)],
        &vec![s1, seed(), s2],
    );
    assert_eq!(spawned.len(), 2);
    assert_eq!(spawned[0].shape, ProjectileShape::Cuboid { half_extent: 1000 });
    assert_eq!(spawned[0].density, 800);
    assert_eq!(spawned[1].shape, ProjectileShape::Sphere { radius: 1000 });
    assert_eq!(spawned[1].density, 1_600);
}

#[test]
fn spawn_direction_follows_look() {
    let c = FPSCamera { yaw: 90_000, ..FPSCamera::default() };
    let spawned = mouse_click_system(
        &c,
        player_position(),
        &vec![press(MouseButton::Left)],
        &vec![seed()],
    );
    // Yaw 90 degrees looks along -X.
    assert_eq!(spawned[0].position, Vec3Fix { x: -1_000, y: 2_500, z: 10_000 });
    assert_eq!(spawned[0].linvel, Vec3Fix { x: -15_000, y: 0, z: 0 });
}
