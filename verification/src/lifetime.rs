//! Lifetime reaper.
//!
//! Each bullet's lifetime timer is advanced by the frame delta; on the
//! tick that crosses the lifetime boundary the reaper emits a despawn
//! request for that entity. Expiry is terminal: the entity is removed when
//! the frame's deferred mutation batch is applied. Children of a despawned
//! entity are not cascaded here; their parent references simply dangle,
//! and a dangling reference never matches a live id again.

use vstd::prelude::*;

use crate::components::{Bullet, Entity};
use crate::fixed::{DELTA_MAX, DUR_MAX};
use crate::store::Store;
use crate::timer::spec_tick;

verus! {

/// The entity with its lifetime timer advanced by `delta`; entities
/// without a bullet are untouched.
pub open spec fn tick_bullet_entity(e: Entity, delta: int) -> Entity {
    if e.bullet is Some {
        Entity {
            bullet: Some(Bullet { lifetime: spec_tick(e.bullet->0.lifetime, delta), ..e.bullet->0 }),
            ..e
        }
    } else {
        e
    }
}

/// Whether this entity's lifetime expires on a tick by `delta`.
pub open spec fn lifetime_expired(e: Entity, delta: int) -> bool {
    e.bullet is Some && spec_tick(e.bullet->0.lifetime, delta).fired
}

/// The ids despawned by one reaping pass, in entity order.
pub open spec fn expired_ids(s: Seq<Entity>, delta: int) -> Seq<u64>
    decreases s.len(),
{
    if s.len() == 0 {
        Seq::empty()
    } else {
        let rest = expired_ids(s.drop_last(), delta);
        if lifetime_expired(s.last(), delta) {
            rest.push(s.last().id)
        } else {
            rest
        }
    }
}

/// Advance every bullet's lifetime timer by `delta` and collect the ids
/// of the bullets that expired, in entity order.
pub fn bullet_despawn(store: &mut Store, delta: u64) -> (expired: Vec<u64>)
    requires
        old(store).wf(),
        delta <= DELTA_MAX,
    ensures
        final(store).wf(),
        final(store).next_id == old(store).next_id,
        final(store).entities@ == old(store).entities@.map_values(
            |e: Entity| tick_bullet_entity(e, delta as int),
        ),
        expired@ == expired_ids(old(store).entities@, delta as int),
{
    let ghost s0 = store.entities@;
    let n = store.entities.len();
    let mut expired: Vec<u64> = Vec::new();
    let mut i: usize = 0;
    while i < n
        invariant
            old(store).wf(),
            s0 == old(store).entities@,
            n == s0.len(),
            delta <= DELTA_MAX,
            store.entities@.len() == n,
            store.next_id == old(store).next_id,
            0 <= i <= n,
            forall|j: int|
                0 <= j < i ==> #[trigger] store.entities@[j] == tick_bullet_entity(
                    s0[j],
                    delta as int,
                ),
            forall|j: int| i <= j < n ==> #[trigger] store.entities@[j] == s0[j],
            expired@ == expired_ids(s0.take(i as int), delta as int),
            forall|j: int|
                0 <= j < store.entities@.len() ==> (#[trigger] store.entities@[j]).wf()
                    && store.entities@[j].id == s0[j].id,
        decreases n - i,
    {
        let e = store.entities[i];
        proof {
            assert(s0.take(i + 1).drop_last() =~= s0.take(i as int));
            assert(s0.take(i + 1).last() == s0[i as int]);
        }
        match e.bullet {
            Some(b) => {
                let mut timer = b.lifetime;
                proof {
                    assert(s0[i as int].wf());
                    assert(timer.elapsed + delta <= DUR_MAX + DELTA_MAX);
                }
                timer.tick(delta);
                let fired = timer.just_finished();
                let updated = Entity { bullet: Some(Bullet { lifetime: timer, ..b }), ..e };
                store.entities.set(i, updated);
                if fired {
                    expired.push(e.id);
                }
            },
            None => {
                proof {
                    assert(store.entities@[i as int] == tick_bullet_entity(
                        s0[i as int],
                        delta as int,
                    ));
                }
            },
        }
        i = i + 1;
    }
    proof {
        assert(s0.take(n as int) =~= s0);
        assert(store.entities@ =~= s0.map_values(|e: Entity| tick_bullet_entity(e, delta as int)));
    }
    expired
}

} // verus!
