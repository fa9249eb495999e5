//! One simulation frame.
//!
//! Fixed per-frame order: shooting scheduler, motion integrator, collision
//! detector, lifetime reaper, all driven by the same frame-scoped elapsed
//! time; then the frame's buffered spawn and despawn requests are applied
//! to the store as one batch. The contract states the store's final
//! contents as the staged composition of the four passes over the
//! frame-start snapshot.

use vstd::prelude::*;

use crate::collision::{collision, colliding_pair, overlap_event_of, sound_event, OverlapEvent};
use crate::components::{Entity, Hitbox, SpawnRequest, Transform, Vec3Fix};
use crate::fixed::DELTA_MAX;
use crate::lifetime::{bullet_despawn, expired_ids, tick_bullet_entity};
use crate::motion::{bullet_movement, move_bullet_entity, sound_swept_event, swept_event_of, swept_pair};
use crate::shooting::{lemma_shot_requests_len, shot_requests, tick_tower_entity, tower_shooting};
use crate::store::{remove_despawned, spawned_entities, Store};

verus! {

/// Everything one frame reports to the surrounding host: the ids the
/// frame's spawn requests resolved to, the exhaustive detector's overlap
/// events, the motion pass's swept overlap events (inert in the baseline
/// core), and the ids despawned on lifetime expiry.
pub struct FrameEvents {
    pub spawned: Vec<u64>,
    pub overlaps: Vec<OverlapEvent>,
    pub swept: Vec<OverlapEvent>,
    pub expired: Vec<u64>,
}

/// Run one frame over the store: schedule shots, integrate motion, detect
/// collisions, reap expired lifetimes, then apply the deferred mutation
/// batch. `delta` is the frame's elapsed time in milliseconds.
pub fn step_frame(store: &mut Store, delta: u64) -> (ev: FrameEvents)
    requires
        old(store).wf(),
        delta <= DELTA_MAX,
        old(store).next_id + old(store).entities@.len() <= u64::MAX,
    ensures
        final(store).wf(),
        ({
            let s0 = old(store).entities@;
            let s1 = s0.map_values(|e: Entity| tick_tower_entity(e, delta as int));
            let s2 = s1.map_values(|e: Entity| move_bullet_entity(e, delta as int));
            let s3 = s2.map_values(|e: Entity| tick_bullet_entity(e, delta as int));
            let reqs = shot_requests(s0, delta as int);
            &&& ev.expired@ == expired_ids(s2, delta as int)
            &&& final(store).entities@ == remove_despawned(s3, ev.expired@) + spawned_entities(
                reqs,
                old(store).next_id as int,
            )
            &&& final(store).next_id == old(store).next_id + reqs.len()
            &&& ev.spawned@ == Seq::new(reqs.len(), |k: int| (old(store).next_id + k) as u64)
            &&& forall|i: int, j: int|
                0 <= i < j < s2.len() && colliding_pair(s2[i], s2[j]) ==> ev.overlaps@.contains(
                    overlap_event_of(s2[i], s2[j]),
                )
            &&& forall|k: int|
                0 <= k < ev.overlaps@.len() ==> sound_event(s2, #[trigger] ev.overlaps@[k])
            &&& forall|k1: int, k2: int|
                0 <= k1 < k2 < ev.overlaps@.len() ==> !(#[trigger] ev.overlaps@[k1].a
                    == #[trigger] ev.overlaps@[k2].a && ev.overlaps@[k1].b == ev.overlaps@[k2].b)
            &&& forall|i: int, j: int|
                0 <= i < s1.len() && 0 <= j < s1.len() && swept_pair(s1[i], s1[j], delta as int)
                    ==> ev.swept@.contains(swept_event_of(s1[i], s1[j], delta as int))
            &&& forall|k: int|
                0 <= k < ev.swept@.len() ==> sound_swept_event(
                    s1,
                    delta as int,
                    #[trigger] ev.swept@[k],
                )
        }),
{
    let ghost s0 = store.entities@;
    let reqs = tower_shooting(store, delta);
    let swept = bullet_movement(store, delta);
    let overlaps = collision(store);
    let expired = bullet_despawn(store, delta);
    proof {
        lemma_shot_requests_len(s0, delta as int);
    }
    let spawned = store.apply(&reqs, &expired);
    FrameEvents { spawned, overlaps, swept, expired }
}

/// Position of the cube the host may drop into the scene.
pub open spec fn cube_request() -> SpawnRequest {
    SpawnRequest {
        transform: Transform {
            pos: Vec3Fix { x: 0, y: 500, z: (-5000) as i64 },
            axis_z: Vec3Fix { x: 0, y: 0, z: 1000 },
        },
        hitbox: Some(Hitbox { half_extents: Vec3Fix { x: 500, y: 500, z: 500 } }),
        tower: None,
        bullet: None,
        parent: None,
    }
}

/// Input-driven spawner: when the host reports the spawn key was just
/// pressed this frame, request one fixed target cube; otherwise nothing.
pub fn cube_spawner(just_pressed: bool) -> (r: Option<SpawnRequest>)
    ensures
        just_pressed ==> r == Some(cube_request()),
        !just_pressed ==> r is None,
        r is Some ==> r->0.wf(),
{
    if just_pressed {
        Some(
            SpawnRequest {
                transform: Transform {
                    pos: Vec3Fix { x: 0, y: 500, z: -5000 },
                    axis_z: Vec3Fix { x: 0, y: 0, z: 1000 },
                },
                hitbox: Some(Hitbox { half_extents: Vec3Fix { x: 500, y: 500, z: 500 } }),
                tower: None,
                bullet: None,
                parent: None,
            },
        )
    } else {
        None
    }
}

} // verus!
