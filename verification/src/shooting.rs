//! Shooting scheduler.
//!
//! Each tower's timer is advanced by the frame's elapsed time; on the tick
//! that crosses the period boundary the scheduler emits one bullet-spawn
//! request: position offset from the tower along its local backward axis by
//! half the body size plus a fixed muzzle clearance, carrying the tower's
//! orientation, with a fresh lifetime timer, the tower's bullet speed, a
//! small fixed hitbox, and a parent relation pointing at the firing tower.
//! Towers fire independently of each other, one request per period.

use vstd::prelude::*;

use crate::components::{
    spec_add3, Bullet, Entity, Hitbox, SpawnRequest, Tower, Transform, Vec3Fix, BULLET_LIFETIME_MS,
};
use crate::fixed::{mul_div, scale_axis, AXIS_UNIT, DELTA_MAX, DUR_MAX};
use crate::store::Store;
use crate::timer::{spec_tick, Timer, TimerMode};

verus! {

/// Gap between a tower's body and a spawned bullet, in milli-units, so the
/// bullet's own half-extent does not immediately overlap the tower.
pub const MUZZLE_CLEARANCE: u64 = 52;

/// Half-extent of a spawned bullet's hitbox on each axis, in milli-units
/// (a 0.1-unit cube). Together with the muzzle clearance this keeps a
/// fresh bullet's box from touching its tower: the spawn offset of
/// `size / 2` plus clearance exceeds the tower's half-extent plus this.
pub const BULLET_HALF_EXTENT: i64 = 50;

/// The entity with its tower timer advanced by `delta`; entities without a
/// tower are untouched.
pub open spec fn tick_tower_entity(e: Entity, delta: int) -> Entity {
    if e.tower is Some {
        Entity {
            tower: Some(
                Tower { shooting_timer: spec_tick(e.tower->0.shooting_timer, delta), ..e.tower->0 },
            ),
            ..e
        }
    } else {
        e
    }
}

/// Whether this entity's tower fires on a tick by `delta`.
pub open spec fn tower_fires(e: Entity, delta: int) -> bool {
    e.tower is Some && spec_tick(e.tower->0.shooting_timer, delta).fired
}

/// Spawn offset: `size / 2` plus the muzzle clearance, applied along the
/// tower's local backward axis (the negated local +Z direction).
pub open spec fn muzzle_offset(t: Tower, tf: Transform) -> Vec3Fix {
    let m = (t.size / 2 + MUZZLE_CLEARANCE) as int;
    Vec3Fix {
        x: mul_div(-(tf.axis_z.x as int), m, AXIS_UNIT as int) as i64,
        y: mul_div(-(tf.axis_z.y as int), m, AXIS_UNIT as int) as i64,
        z: mul_div(-(tf.axis_z.z as int), m, AXIS_UNIT as int) as i64,
    }
}

/// The spawn request a firing tower emits.
pub open spec fn bullet_request(e: Entity) -> SpawnRequest
    recommends
        e.tower is Some,
{
    let t = e.tower->0;
    SpawnRequest {
        transform: Transform {
            pos: spec_add3(e.transform.pos, muzzle_offset(t, e.transform)),
            axis_z: e.transform.axis_z,
        },
        hitbox: Some(
            Hitbox {
                half_extents: Vec3Fix {
                    x: BULLET_HALF_EXTENT,
                    y: BULLET_HALF_EXTENT,
                    z: BULLET_HALF_EXTENT,
                },
            },
        ),
        tower: None,
        bullet: Some(
            Bullet {
                lifetime: Timer {
                    duration: BULLET_LIFETIME_MS,
                    elapsed: 0,
                    mode: TimerMode::Repeating,
                    fired: false,
                },
                speed: t.bullet_speed,
            },
        ),
        parent: Some(e.id),
    }
}

/// The spawn requests one frame's scheduling pass emits, in entity order.
pub open spec fn shot_requests(s: Seq<Entity>, delta: int) -> Seq<SpawnRequest>
    decreases s.len(),
{
    if s.len() == 0 {
        Seq::empty()
    } else {
        let rest = shot_requests(s.drop_last(), delta);
        if tower_fires(s.last(), delta) {
            rest.push(bullet_request(s.last()))
        } else {
            rest
        }
    }
}

/// No pass emits more requests than there are entities.
pub proof fn lemma_shot_requests_len(s: Seq<Entity>, delta: int)
    ensures
        shot_requests(s, delta).len() <= s.len(),
    decreases s.len(),
{
    if s.len() > 0 {
        lemma_shot_requests_len(s.drop_last(), delta);
    }
}

/// Advance every tower's timer by `delta` and collect the spawn requests
/// of the towers that fired, in entity order.
pub fn tower_shooting(store: &mut Store, delta: u64) -> (reqs: Vec<SpawnRequest>)
    requires
        old(store).wf(),
        delta <= DELTA_MAX,
    ensures
        final(store).wf(),
        final(store).next_id == old(store).next_id,
        final(store).entities@ == old(store).entities@.map_values(
            |e: Entity| tick_tower_entity(e, delta as int),
        ),
        reqs@ == shot_requests(old(store).entities@, delta as int),
        forall|k: int| 0 <= k < reqs@.len() ==> (#[trigger] reqs@[k]).wf(),
{
    let ghost s0 = store.entities@;
    let n = store.entities.len();
    let mut reqs: Vec<SpawnRequest> = Vec::new();
    let mut i: usize = 0;
    while i < n
        invariant
            old(store).wf(),
            s0 == old(store).entities@,
            n == s0.len(),
            delta <= DELTA_MAX,
            store.entities@.len() == n,
            store.next_id == old(store).next_id,
            0 <= i <= n,
            forall|j: int|
                0 <= j < i ==> #[trigger] store.entities@[j] == tick_tower_entity(
                    s0[j],
                    delta as int,
                ),
            forall|j: int| i <= j < n ==> #[trigger] store.entities@[j] == s0[j],
            reqs@ == shot_requests(s0.take(i as int), delta as int),
            forall|k: int| 0 <= k < reqs@.len() ==> (#[trigger] reqs@[k]).wf(),
            forall|j: int|
                0 <= j < store.entities@.len() ==> (#[trigger] store.entities@[j]).wf()
                    && store.entities@[j].id == s0[j].id,
        decreases n - i,
    {
        let e = store.entities[i];
        proof {
            assert(s0.take(i + 1).drop_last() =~= s0.take(i as int));
            assert(s0.take(i + 1).last() == s0[i as int]);
        }
        match e.tower {
            Some(t) => {
                let mut timer = t.shooting_timer;
                proof {
                    assert(s0[i as int].wf());
                    assert(timer.elapsed + delta <= DUR_MAX + DELTA_MAX);
                }
                timer.tick(delta);
                let fired = timer.just_finished();
                let updated = Entity { tower: Some(Tower { shooting_timer: timer, ..t }), ..e };
                store.entities.set(i, updated);
                if fired {
                    let m = t.size / 2 + MUZZLE_CLEARANCE;
                    let off = Vec3Fix {
                        x: scale_axis(-e.transform.axis_z.x, m, AXIS_UNIT),
                        y: scale_axis(-e.transform.axis_z.y, m, AXIS_UNIT),
                        z: scale_axis(-e.transform.axis_z.z, m, AXIS_UNIT),
                    };
                    let req = SpawnRequest {
                        transform: Transform {
                            pos: e.transform.pos.add(off),
                            axis_z: e.transform.axis_z,
                        },
                        hitbox: Some(
                            Hitbox {
                                half_extents: Vec3Fix {
                                    x: BULLET_HALF_EXTENT,
                                    y: BULLET_HALF_EXTENT,
                                    z: BULLET_HALF_EXTENT,
                                },
                            },
                        ),
                        tower: None,
                        bullet: Some(
                            Bullet {
                                lifetime: Timer {
                                    duration: BULLET_LIFETIME_MS,
                                    elapsed: 0,
                                    mode: TimerMode::Repeating,
                                    fired: false,
                                },
                                speed: t.bullet_speed,
                            },
                        ),
                        parent: Some(e.id),
                    };
                    proof {
                        assert(req == bullet_request(s0[i as int]));
                    }
                    reqs.push(req);
                }
            },
            None => {
                proof {
                    assert(store.entities@[i as int] == tick_tower_entity(s0[i as int], delta as int));
                }
            },
        }
        i = i + 1;
    }
    proof {
        assert(s0.take(n as int) =~= s0);
        assert(store.entities@ =~= s0.map_values(|e: Entity| tick_tower_entity(e, delta as int)));
    }
    reqs
}

} // verus!
