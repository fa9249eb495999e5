use tower_sim::components::{Bullet, Hitbox, SpawnRequest, Tower, Transform};
use tower_sim::frame::step_frame;
use tower_sim::store::Store;

fn tower_scene() -> (Store, u64) {
    // Tower at origin: shooting period 1.0 s, bullet speed 10.0, body
    // size 1.0, with a hitbox of half-extents 0.5 (a unit cube).
    let mut store = Store::new();
    let id = store.spawn(SpawnRequest {
        transform: Transform::from_xyz(0, 0, 0),
        hitbox: Some(Hitbox::new(500, 500, 500).unwrap()),
        tower: Some(Tower::new(1000, 1000, 10_000).unwrap()),
        bullet: None,
        parent: None,
    });
    (store, id)
}

#[test]
fn full_period_spawns_one_bullet_with_muzzle_offset() {
    let (mut store, tower_id) = tower_scene();
    let ev = step_frame(&mut store, 1000);
    assert_eq!(ev.spawned.len(), 1);
    assert_eq!(store.entities.len(), 2);
    let bullet = store.entities[1];
    assert_eq!(bullet.id, ev.spawned[0]);
    // Offset (0, 0, -(0.5 + 0.052)) from the tower.
    assert_eq!(bullet.transform.pos.x, 0);
    assert_eq!(bullet.transform.pos.y, 0);
    assert_eq!(bullet.transform.pos.z, -552);
    let h = bullet.hitbox.unwrap().half_extents;
    assert_eq!((h.x, h.y, h.z), (50, 50, 50));
    assert_eq!(bullet.parent, Some(tower_id));
    let b = bullet.bullet.unwrap();
    assert_eq!(b.speed, 10_000);
    assert_eq!(b.lifetime.elapsed, 0);
}

#[test]
fn two_half_periods_spawn_exactly_one_bullet() {
    let (mut store, _) = tower_scene();
    let ev1 = step_frame(&mut store, 500);
    assert_eq!(ev1.spawned.len(), 0);
    let ev2 = step_frame(&mut store, 500);
    assert_eq!(ev2.spawned.len(), 1);
    assert_eq!(store.entities.len(), 2);
}

#[test]
fn bullet_advances_along_negative_z() {
    let mut store = Store::new();
    store.spawn(SpawnRequest {
        transform: Transform::from_xyz(0, 0, 0),
        hitbox: Some(Hitbox::new(100, 100, 100).unwrap()),
        tower: None,
        bullet: Some(Bullet::new(10_000).unwrap()),
        parent: None,
    });
    let ev = step_frame(&mut store, 100);
    // Speed 10.0 for 0.1 s: one unit along the negative local +Z axis.
    assert_eq!(store.entities[0].transform.pos.z, -1000);
    assert!(ev.expired.is_empty());
}

#[test]
fn bullet_despawned_when_cumulative_delta_reaches_lifetime() {
    // Lifetime 0.5 s at a fixed 0.2 s per tick: alive after 0.2 and 0.4,
    // despawned on the tick that reaches 0.6.
    let mut store = Store::new();
    let id = store.spawn(SpawnRequest {
        transform: Transform::from_xyz(0, 0, 0),
        hitbox: Some(Hitbox::new(100, 100, 100).unwrap()),
        tower: None,
        bullet: Some(Bullet::new(10_000).unwrap()),
        parent: None,
    });
    let ev1 = step_frame(&mut store, 200);
    assert!(ev1.expired.is_empty());
    assert_eq!(store.entities.len(), 1);
    let ev2 = step_frame(&mut store, 200);
    assert!(ev2.expired.is_empty());
    assert_eq!(store.entities.len(), 1);
    let ev3 = step_frame(&mut store, 200);
    assert_eq!(ev3.expired, vec![id]);
    assert_eq!(store.entities.len(), 0);
}

#[test]
fn swept_test_reports_what_static_test_misses() {
    // Bullet at -0.5 moving to -1.5; target cube at -3.0 with half-extent
    // 0.5. Static gap 1.5 > 0.6, but the swept bound inflates each axis
    // by speed * delta = 1.0, so the motion pass reports the pair.
    let mut store = Store::new();
    let bullet_id = store.spawn(SpawnRequest {
        transform: Transform::from_xyz(0, 0, -500),
        hitbox: Some(Hitbox::new(100, 100, 100).unwrap()),
        tower: None,
        bullet: Some(Bullet::new(10_000).unwrap()),
        parent: None,
    });
    let cube_id = store.spawn(SpawnRequest {
        transform: Transform::from_xyz(0, 0, -3000),
        hitbox: Some(Hitbox::new(500, 500, 500).unwrap()),
        tower: None,
        bullet: None,
        parent: None,
    });
    let ev = step_frame(&mut store, 100);
    assert_eq!(ev.overlaps.len(), 0);
    assert_eq!(ev.swept.len(), 1);
    assert_eq!(ev.swept[0].a, bullet_id);
    assert_eq!(ev.swept[0].b, cube_id);
    assert_eq!(ev.swept[0].delta.z, 1500);
}

#[test]
fn despawn_of_unknown_id_is_ignored() {
    let (mut store, _) = tower_scene();
    let ids = store.apply(&Vec::new(), &vec![4242]);
    assert!(ids.is_empty());
    assert_eq!(store.entities.len(), 1);
}

#[test]
fn spawned_bullet_not_visible_to_same_frame_detector() {
    // The bullet spawned this frame enters the store only at the frame
    // boundary, so the detector never sees it mid-frame even though it
    // spawns clear of the tower anyway.
    let (mut store, _) = tower_scene();
    let ev = step_frame(&mut store, 1000);
    assert_eq!(ev.overlaps.len(), 0);
}
