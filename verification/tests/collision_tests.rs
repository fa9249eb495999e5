use tower_sim::collision::collision;
use tower_sim::components::{Hitbox, SpawnRequest, Transform};
use tower_sim::store::Store;

fn box_at(x: i64, y: i64, z: i64, hx: i64, hy: i64, hz: i64) -> SpawnRequest {
    SpawnRequest {
        transform: Transform::from_xyz(x, y, z),
        hitbox: Some(Hitbox::new(hx, hy, hz).unwrap()),
        tower: None,
        bullet: None,
        parent: None,
    }
}

#[test]
fn overlap_at_exact_boundary() {
    // Half-extents 0.5 + 0.5 against a positional delta of exactly 1.0:
    // touching counts as overlap.
    let mut store = Store::new();
    let a = store.spawn(box_at(0, 0, 0, 500, 500, 500));
    let b = store.spawn(box_at(0, 0, 1000, 500, 500, 500));
    let events = collision(&store);
    assert_eq!(events.len(), 1);
    assert_eq!(events[0].a, a);
    assert_eq!(events[0].b, b);
    assert_eq!(events[0].delta.z, -1000);
}

#[test]
fn no_overlap_just_past_boundary() {
    let mut store = Store::new();
    store.spawn(box_at(0, 0, 0, 500, 500, 500));
    store.spawn(box_at(0, 0, 1010, 500, 500, 500));
    let events = collision(&store);
    assert_eq!(events.len(), 0);
}

#[test]
fn overlap_is_order_independent() {
    // The same two boxes in either spawn order report the same single
    // unordered pair.
    let mut first = Store::new();
    let a1 = first.spawn(box_at(0, 0, 0, 500, 500, 500));
    let b1 = first.spawn(box_at(300, 0, 0, 500, 500, 500));
    let ev1 = collision(&first);

    let mut second = Store::new();
    let b2 = second.spawn(box_at(300, 0, 0, 500, 500, 500));
    let a2 = second.spawn(box_at(0, 0, 0, 500, 500, 500));
    let ev2 = collision(&second);

    assert_eq!(ev1.len(), 1);
    assert_eq!(ev2.len(), 1);
    let ids1 = [ev1[0].a.min(ev1[0].b), ev1[0].a.max(ev1[0].b)];
    let ids2 = [ev2[0].a.min(ev2[0].b), ev2[0].a.max(ev2[0].b)];
    assert_eq!(ids1, [a1.min(b1), a1.max(b1)]);
    assert_eq!(ids2, [a2.min(b2), a2.max(b2)]);
}

#[test]
fn parent_relation_suppresses_overlap() {
    // A projectile coincident with its firing tower is never reported.
    let mut store = Store::new();
    let tower_id = store.spawn(box_at(0, 0, 0, 500, 500, 500));
    let mut bullet = box_at(0, 0, 0, 100, 100, 100);
    bullet.parent = Some(tower_id);
    store.spawn(bullet);
    assert_eq!(collision(&store).len(), 0);
}

#[test]
fn unrelated_coincident_entities_are_reported() {
    let mut store = Store::new();
    store.spawn(box_at(0, 0, 0, 500, 500, 500));
    store.spawn(box_at(0, 0, 0, 100, 100, 100));
    assert_eq!(collision(&store).len(), 1);
}

#[test]
fn dangling_parent_never_matches() {
    // A parent reference to an id no longer (or never) present excludes
    // nothing.
    let mut store = Store::new();
    store.spawn(box_at(0, 0, 0, 500, 500, 500));
    let mut other = box_at(0, 0, 0, 100, 100, 100);
    other.parent = Some(9999);
    store.spawn(other);
    assert_eq!(collision(&store).len(), 1);
}

#[test]
fn exhaustive_over_fifty_entities() {
    // Fifty boxes along the x axis, spaced 3.0 apart with half-extents
    // 2.0: exactly the 49 adjacent pairs overlap (delta 3.0 <= 4.0), no
    // pair two steps apart does (6.0 > 4.0).
    let mut store = Store::new();
    let mut ids = Vec::new();
    for i in 0..50i64 {
        ids.push(store.spawn(box_at(i * 3000, 0, 0, 2000, 2000, 2000)));
    }
    let events = collision(&store);
    assert_eq!(events.len(), 49);
    for (k, ev) in events.iter().enumerate() {
        assert_eq!(ev.a, ids[k]);
        assert_eq!(ev.b, ids[k + 1]);
        assert_eq!(ev.delta.x, -3000);
    }
}
