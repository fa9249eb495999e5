//! Motion integrator.
//!
//! Each entity carrying both a bullet and a hitbox advances along its
//! negative local +Z axis, scaled by its speed and the frame delta.
//! While moving, a swept overlap test is computed against every non-bullet
//! hitbox entity: each axis sum is inflated by the distance the bullet can
//! travel this frame (`speed * delta`), approximating continuous motion.
//! The detected events are reported but deliberately inert in the baseline
//! core: they are the hook point for response behavior, and no despawn or
//! damage is applied here. The exhaustive detector does not apply this
//! inflation; the swept policy is confined to this pass.

use vstd::prelude::*;

use crate::collision::{overlap_at, overlap_check, OverlapEvent};
use crate::components::{spec_add3, spec_sub3, sub3, Entity, Transform, Vec3Fix};
use crate::fixed::{mul_div, scale_axis, DELTA_MAX};
use crate::store::Store;

verus! {

/// Milli-units per unit times milliseconds per second: the divisor that
/// turns `axis * speed * delta` into a milli-unit displacement.
pub const MOTION_DIV: u64 = 1_000_000;

/// Displacement of a bullet entity over `delta` milliseconds: its local +Z
/// axis scaled by `-speed * delta`.
pub open spec fn displacement(e: Entity, delta: int) -> Vec3Fix
    recommends
        e.bullet is Some,
{
    let sd = (e.bullet->0.speed as int) * delta;
    Vec3Fix {
        x: mul_div(-(e.transform.axis_z.x as int), sd, MOTION_DIV as int) as i64,
        y: mul_div(-(e.transform.axis_z.y as int), sd, MOTION_DIV as int) as i64,
        z: mul_div(-(e.transform.axis_z.z as int), sd, MOTION_DIV as int) as i64,
    }
}

/// The entity advanced by one frame of motion; only entities with both a
/// bullet and a hitbox move.
pub open spec fn move_bullet_entity(e: Entity, delta: int) -> Entity {
    if e.bullet is Some && e.hitbox is Some {
        Entity {
            transform: Transform {
                pos: spec_add3(e.transform.pos, displacement(e, delta)),
                axis_z: e.transform.axis_z,
            },
            ..e
        }
    } else {
        e
    }
}

/// Swept-bound inflation: the distance the bullet can cover this frame,
/// in milli-units.
pub open spec fn swept_inflate(e: Entity, delta: int) -> int
    recommends
        e.bullet is Some,
{
    ((e.bullet->0.speed as int) * delta) / (crate::fixed::AXIS_UNIT as int)
}

/// The motion pass reports bullet `b` against non-bullet `o`: both carry
/// hitboxes and the boxes overlap at the bullet's post-move position with
/// the swept inflation applied.
pub open spec fn swept_pair(b: Entity, o: Entity, delta: int) -> bool {
    &&& b.bullet is Some
    &&& b.hitbox is Some
    &&& o.bullet is None
    &&& o.hitbox is Some
    &&& overlap_at(
        move_bullet_entity(b, delta).transform.pos,
        b.hitbox->0.half_extents,
        o.transform.pos,
        o.hitbox->0.half_extents,
        swept_inflate(b, delta),
    )
}

/// The event emitted for a swept pair: bullet id, other id, and the delta
/// from the bullet's post-move position to the other entity.
pub open spec fn swept_event_of(b: Entity, o: Entity, delta: int) -> OverlapEvent {
    OverlapEvent {
        a: b.id,
        b: o.id,
        delta: spec_sub3(move_bullet_entity(b, delta).transform.pos, o.transform.pos),
    }
}

/// `ev` is the event of some qualifying (bullet, other) pair of `s`.
pub open spec fn sound_swept_event(s: Seq<Entity>, delta: int, ev: OverlapEvent) -> bool {
    exists|i: int, j: int|
        0 <= i < s.len() && 0 <= j < s.len() && swept_pair(s[i], s[j], delta) && ev
            == #[trigger] swept_event_of(s[i], s[j], delta)
}

/// Advance every bullet and report the swept overlaps, exhaustively: every
/// qualifying (bullet, other) pair is reported exactly once, and nothing
/// else is.
pub fn bullet_movement(store: &mut Store, delta: u64) -> (events: Vec<OverlapEvent>)
    requires
        old(store).wf(),
        delta <= DELTA_MAX,
    ensures
        final(store).wf(),
        final(store).next_id == old(store).next_id,
        final(store).entities@ == old(store).entities@.map_values(
            |e: Entity| move_bullet_entity(e, delta as int),
        ),
        forall|i: int, j: int|
            0 <= i < old(store).entities@.len() && 0 <= j < old(store).entities@.len()
                && swept_pair(old(store).entities@[i], old(store).entities@[j], delta as int)
                ==> events@.contains(
                swept_event_of(old(store).entities@[i], old(store).entities@[j], delta as int),
            ),
        forall|k: int|
            0 <= k < events@.len() ==> sound_swept_event(
                old(store).entities@,
                delta as int,
                #[trigger] events@[k],
            ),
        forall|k1: int, k2: int|
            0 <= k1 < k2 < events@.len() ==> !(#[trigger] events@[k1].a == #[trigger] events@[k2].a
                && events@[k1].b == events@[k2].b),
{
    let ghost s0 = store.entities@;
    let n = store.entities.len();
    // First pass: advance every bullet.
    let mut i: usize = 0;
    while i < n
        invariant
            old(store).wf(),
            s0 == old(store).entities@,
            n == s0.len(),
            delta <= DELTA_MAX,
            store.entities@.len() == n,
            store.next_id == old(store).next_id,
            0 <= i <= n,
            forall|j: int|
                0 <= j < i ==> #[trigger] store.entities@[j] == move_bullet_entity(
                    s0[j],
                    delta as int,
                ),
            forall|j: int| i <= j < n ==> #[trigger] store.entities@[j] == s0[j],
        decreases n - i,
    {
        let e = store.entities[i];
        if e.bullet.is_some() && e.hitbox.is_some() {
            let speed = match e.bullet {
                Some(b) => b.speed,
                None => 0,
            };
            proof {
                assert(s0[i as int].wf());
                assert(speed * delta <= 1_000_000_000 * 1_000_000) by (nonlinear_arith)
                    requires
                        speed <= 1_000_000_000,
                        delta <= 1_000_000,
                        0 <= speed,
                        0 <= delta,
                ;
            }
            let sd = speed * delta;
            let disp = Vec3Fix {
                x: scale_axis(-e.transform.axis_z.x, sd, MOTION_DIV),
                y: scale_axis(-e.transform.axis_z.y, sd, MOTION_DIV),
                z: scale_axis(-e.transform.axis_z.z, sd, MOTION_DIV),
            };
            let moved = Entity {
                transform: Transform { pos: e.transform.pos.add(disp), axis_z: e.transform.axis_z },
                ..e
            };
            store.entities.set(i, moved);
            proof {
                assert(store.entities@[i as int] == move_bullet_entity(s0[i as int], delta as int));
            }
        } else {
            proof {
                assert(store.entities@[i as int] == move_bullet_entity(s0[i as int], delta as int));
            }
        }
        i = i + 1;
    }
    proof {
        assert(store.entities@ =~= s0.map_values(|e: Entity| move_bullet_entity(e, delta as int)));
    }
    // Second pass: swept overlap scan of moved bullets against static
    // non-bullet entities.
    let mut events: Vec<OverlapEvent> = Vec::new();
    let ghost mut pairs: Seq<(int, int)> = Seq::empty();
    let mut bi: usize = 0;
    while bi < n
        invariant
            old(store).wf(),
            s0 == old(store).entities@,
            n == s0.len(),
            delta <= DELTA_MAX,
            store.entities@.len() == n,
            store.entities@ == s0.map_values(|e: Entity| move_bullet_entity(e, delta as int)),
            store.next_id == old(store).next_id,
            0 <= bi <= n,
            events@.len() == pairs.len(),
            forall|k: int|
                0 <= k < pairs.len() ==> 0 <= #[trigger] pairs[k].0 < n as int && 0 <= pairs[k].1
                    < n as int,
            forall|k: int|
                0 <= k < pairs.len() ==> swept_pair(
                    s0[#[trigger] pairs[k].0],
                    s0[pairs[k].1],
                    delta as int,
                ) && events@[k] == swept_event_of(s0[pairs[k].0], s0[pairs[k].1], delta as int),
            forall|k1: int, k2: int|
                0 <= k1 < k2 < pairs.len() ==> (#[trigger] pairs[k1]).0 < (#[trigger] pairs[k2]).0
                    || (pairs[k1].0 == pairs[k2].0 && pairs[k1].1 < pairs[k2].1),
            forall|k: int| 0 <= k < pairs.len() ==> (#[trigger] pairs[k]).0 < bi as int,
            forall|a: int, b: int|
                0 <= a < bi as int && 0 <= b < n as int && swept_pair(s0[a], s0[b], delta as int)
                    ==> events@.contains(swept_event_of(s0[a], s0[b], delta as int)),
        decreases n - bi,
    {
        let eb = store.entities[bi];
        if eb.bullet.is_some() && eb.hitbox.is_some() {
            let mut j: usize = 0;
            while j < n
                invariant
                    old(store).wf(),
                    s0 == old(store).entities@,
                    n == s0.len(),
                    delta <= DELTA_MAX,
                    store.entities@.len() == n,
                    store.entities@ == s0.map_values(
                        |e: Entity| move_bullet_entity(e, delta as int),
                    ),
                    store.next_id == old(store).next_id,
                    0 <= bi < n,
                    0 <= j <= n,
                    eb == store.entities@[bi as int],
                    s0[bi as int].bullet is Some && s0[bi as int].hitbox is Some,
                    events@.len() == pairs.len(),
                    forall|k: int|
                        0 <= k < pairs.len() ==> 0 <= #[trigger] pairs[k].0 < n as int && 0
                            <= pairs[k].1 < n as int,
                    forall|k: int|
                        0 <= k < pairs.len() ==> swept_pair(
                            s0[#[trigger] pairs[k].0],
                            s0[pairs[k].1],
                            delta as int,
                        ) && events@[k] == swept_event_of(
                            s0[pairs[k].0],
                            s0[pairs[k].1],
                            delta as int,
                        ),
                    forall|k1: int, k2: int|
                        0 <= k1 < k2 < pairs.len() ==> (#[trigger] pairs[k1]).0
                            < (#[trigger] pairs[k2]).0 || (pairs[k1].0 == pairs[k2].0 && pairs[k1].1
                            < pairs[k2].1),
                    forall|k: int|
                        0 <= k < pairs.len() ==> pairs[k].0 < bi as int || (pairs[k].0 == bi as int
                            && #[trigger] pairs[k].1 < j as int),
                    forall|a: int, b: int|
                        0 <= a < n as int && 0 <= b < n as int && (a < bi as int || (a == bi as int
                            && b < j as int)) && swept_pair(s0[a], s0[b], delta as int)
                            ==> events@.contains(swept_event_of(s0[a], s0[b], delta as int)),
                decreases n - j,
            {
                let eo = store.entities[j];
                let ghost pre = events@;
                let qualifies = match (eo.bullet, eo.hitbox, eb.hitbox) {
                    (None, Some(ho), Some(hb)) => {
                        let speed = match eb.bullet {
                            Some(b) => b.speed,
                            None => 0,
                        };
                        proof {
                            assert(s0[bi as int].wf());
                            assert(speed * delta <= 1_000_000_000 * 1_000_000) by (nonlinear_arith)
                                requires
                                    speed <= 1_000_000_000,
                                    delta <= 1_000_000,
                                    0 <= speed,
                                    0 <= delta,
                            ;
                        }
                        let infl = (speed * delta) / 1000;
                        overlap_check(
                            &eb.transform.pos,
                            &hb.half_extents,
                            &eo.transform.pos,
                            &ho.half_extents,
                            infl,
                        )
                    },
                    _ => false,
                };
                if qualifies {
                    proof {
                        assert(eo == move_bullet_entity(s0[j as int], delta as int));
                        assert(eo == s0[j as int]);
                        assert(swept_pair(s0[bi as int], s0[j as int], delta as int));
                    }
                    let delta_v = sub3(eb.transform.pos, eo.transform.pos);
                    events.push(OverlapEvent { a: eb.id, b: eo.id, delta: delta_v });
                    proof {
                        pairs = pairs.push((bi as int, j as int));
                        assert(events@[pre.len() as int] == swept_event_of(
                            s0[bi as int],
                            s0[j as int],
                            delta as int,
                        ));
                        assert(events@.contains(
                            swept_event_of(s0[bi as int], s0[j as int], delta as int),
                        ));
                    }
                } else {
                    proof {
                        assert(eo == move_bullet_entity(s0[j as int], delta as int));
                        assert(!swept_pair(s0[bi as int], s0[j as int], delta as int));
                    }
                }
                proof {
                    assert forall|x: OverlapEvent| pre.contains(x) implies events@.contains(x) by {
                        let k = choose|k: int| 0 <= k < pre.len() && pre[k] == x;
                        assert(events@[k] == x);
                    }
                }
                j = j + 1;
            }
        } else {
            proof {
                assert(eb == move_bullet_entity(s0[bi as int], delta as int));
                assert forall|b: int|
                    0 <= b < n as int && swept_pair(
                        s0[bi as int],
                        s0[b],
                        delta as int,
                    ) implies events@.contains(
                    swept_event_of(s0[bi as int], s0[b], delta as int),
                ) by {
                    assert(!(s0[bi as int].bullet is Some && s0[bi as int].hitbox is Some));
                }
            }
        }
        bi = bi + 1;
    }
    proof {
        assert forall|k1: int, k2: int|
            0 <= k1 < k2 < events@.len() implies !(events@[k1].a == events@[k2].a && events@[k1].b
            == events@[k2].b) by {
            let p1 = pairs[k1];
            let p2 = pairs[k2];
            if events@[k1].a == events@[k2].a && events@[k1].b == events@[k2].b {
                assert(s0[p1.0].id == s0[p2.0].id && s0[p1.1].id == s0[p2.1].id);
                assert(p1.0 < p2.0 || (p1.0 == p2.0 && p1.1 < p2.1));
                assert(false);
            }
        }
        assert forall|k: int| 0 <= k < events@.len() implies sound_swept_event(
            s0,
            delta as int,
            #[trigger] events@[k],
        ) by {
            let p = pairs[k];
            assert(0 <= p.0 < s0.len() && 0 <= p.1 < s0.len() && swept_pair(
                s0[p.0],
                s0[p.1],
                delta as int,
            ) && events@[k] == swept_event_of(s0[p.0], s0[p.1], delta as int));
        }
    }
    events
}

} // verus!
