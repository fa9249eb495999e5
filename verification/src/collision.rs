//! Exhaustive pairwise AABB collision detection.
//!
//! Every unordered pair of distinct entities carrying hitboxes is tested,
//! except pairs related by a declared parent reference in either direction
//! (a projectile never collides with its firing tower). Overlap holds when
//! on all three axes the absolute positional delta is at most the sum of
//! the two half-extents: three independent one-dimensional axis checks on
//! world-axis-aligned boxes, not a full separating-axis test on rotated
//! boxes. The scan is O(n^2) with no spatial partitioning, intended for
//! small entity counts; each qualifying unordered pair is reported at most
//! once per frame.

use vstd::prelude::*;

use crate::components::{spec_sub3, sub3, Entity, Hitbox, Vec3Fix};
use crate::fixed::abs_i;
use crate::store::Store;

verus! {

/// A detected-overlap event: the ids of both participants and their
/// positional delta (first minus second). The baseline core attaches no
/// response to it; it is the integration point for damage or effects.
#[derive(Clone, Copy, PartialEq, Eq, Structural, Debug)]
pub struct OverlapEvent {
    pub a: u64,
    pub b: u64,
    /// Position of `a` minus position of `b`, saturating per axis.
    pub delta: Vec3Fix,
}

/// Boxes centered at `pa` and `pb` with half-extents `ha` and `hb` overlap,
/// with every axis sum inflated by `inflate` (zero for the static test; a
/// swept test inflates by the distance traveled this frame).
pub open spec fn overlap_at(pa: Vec3Fix, ha: Vec3Fix, pb: Vec3Fix, hb: Vec3Fix, inflate: int) -> bool {
    &&& abs_i(pa.x - pb.x) <= ha.x + hb.x + inflate
    &&& abs_i(pa.y - pb.y) <= ha.y + hb.y + inflate
    &&& abs_i(pa.z - pb.z) <= ha.z + hb.z + inflate
}

/// A declared parent relation in either direction suppresses the pair.
pub open spec fn excluded(a: Entity, b: Entity) -> bool {
    a.parent == Some(b.id) || b.parent == Some(a.id)
}

/// The detector reports the unordered pair `(a, b)`: both carry hitboxes,
/// they are distinct, not parent-related, and their boxes overlap.
pub open spec fn colliding_pair(a: Entity, b: Entity) -> bool {
    &&& a.hitbox is Some
    &&& b.hitbox is Some
    &&& a.id != b.id
    &&& !excluded(a, b)
    &&& overlap_at(
        a.transform.pos,
        a.hitbox->0.half_extents,
        b.transform.pos,
        b.hitbox->0.half_extents,
        0,
    )
}

/// The event emitted for the pair `(a, b)`.
pub open spec fn overlap_event_of(a: Entity, b: Entity) -> OverlapEvent {
    OverlapEvent { a: a.id, b: b.id, delta: spec_sub3(a.transform.pos, b.transform.pos) }
}

/// Collision symmetry: the pair test does not depend on the order of its
/// two entities.
pub proof fn lemma_collision_symmetric(a: Entity, b: Entity)
    ensures
        colliding_pair(a, b) == colliding_pair(b, a),
{
}

/// Parent exclusion: a projectile whose parent relation points at an
/// entity never forms a colliding pair with it, in either order, even when
/// geometrically coincident.
pub proof fn lemma_parent_excluded(tower: Entity, bullet: Entity)
    requires
        bullet.parent == Some(tower.id),
    ensures
        !colliding_pair(tower, bullet),
        !colliding_pair(bullet, tower),
{
}

/// Exact axis test, free of overflow: computed in 128-bit arithmetic.
pub fn overlap_check(pa: &Vec3Fix, ha: &Vec3Fix, pb: &Vec3Fix, hb: &Vec3Fix, inflate: u64) -> (r:
    bool)
    ensures
        r == overlap_at(*pa, *ha, *pb, *hb, inflate as int),
{
    let infl = inflate as i128;
    let dx = pa.x as i128 - pb.x as i128;
    let adx = if dx < 0 { -dx } else { dx };
    let dy = pa.y as i128 - pb.y as i128;
    let ady = if dy < 0 { -dy } else { dy };
    let dz = pa.z as i128 - pb.z as i128;
    let adz = if dz < 0 { -dz } else { dz };
    adx <= ha.x as i128 + hb.x as i128 + infl && ady <= ha.y as i128 + hb.y as i128 + infl && adz
        <= ha.z as i128 + hb.z as i128 + infl
}

/// `ev` is the event of some qualifying unordered pair of `s`, smaller
/// index first.
pub open spec fn sound_event(s: Seq<Entity>, ev: OverlapEvent) -> bool {
    exists|i: int, j: int|
        0 <= i < j < s.len() && colliding_pair(s[i], s[j]) && ev == #[trigger] overlap_event_of(
            s[i],
            s[j],
        )
}

/// Exhaustive pairwise scan over the current store snapshot.
///
/// The contract is exhaustive both ways: every qualifying unordered pair
/// (taken with the smaller index first) is reported, everything reported
/// comes from a qualifying pair, and no id pair appears twice.
pub fn collision(store: &Store) -> (events: Vec<OverlapEvent>)
    requires
        store.wf(),
    ensures
        forall|i: int, j: int|
            0 <= i < j < store.entities@.len() && colliding_pair(
                store.entities@[i],
                store.entities@[j],
            ) ==> events@.contains(overlap_event_of(store.entities@[i], store.entities@[j])),
        forall|k: int|
            0 <= k < events@.len() ==> sound_event(store.entities@, #[trigger] events@[k]),
        forall|k1: int, k2: int|
            0 <= k1 < k2 < events@.len() ==> !(#[trigger] events@[k1].a == #[trigger] events@[k2].a
                && events@[k1].b == events@[k2].b),
{
    let s = &store.entities;
    let n = s.len();
    let mut events: Vec<OverlapEvent> = Vec::new();
    let ghost mut pairs: Seq<(int, int)> = Seq::empty();
    let mut i: usize = 0;
    while i < n
        invariant
            store.wf(),
            n == s@.len(),
            s@ == store.entities@,
            0 <= i <= n,
            events@.len() == pairs.len(),
            forall|k: int|
                0 <= k < pairs.len() ==> 0 <= #[trigger] pairs[k].0 < pairs[k].1 < n as int,
            forall|k: int|
                0 <= k < pairs.len() ==> colliding_pair(
                    s@[#[trigger] pairs[k].0],
                    s@[pairs[k].1],
                ) && events@[k] == overlap_event_of(s@[pairs[k].0], s@[pairs[k].1]),
            forall|k1: int, k2: int|
                0 <= k1 < k2 < pairs.len() ==> (#[trigger] pairs[k1]).0 < (#[trigger] pairs[k2]).0
                    || (pairs[k1].0 == pairs[k2].0 && pairs[k1].1 < pairs[k2].1),
            forall|k: int| 0 <= k < pairs.len() ==> (#[trigger] pairs[k]).0 < i as int,
            forall|a: int, b: int|
                0 <= a < b < n as int && a < i as int && colliding_pair(s@[a], s@[b])
                    ==> events@.contains(overlap_event_of(s@[a], s@[b])),
        decreases n - i,
    {
        let ea = s[i];
        let mut j: usize = i + 1;
        while j < n
            invariant
                store.wf(),
                n == s@.len(),
                s@ == store.entities@,
                0 <= i < n,
                i < j <= n,
                ea == s@[i as int],
                events@.len() == pairs.len(),
                forall|k: int|
                    0 <= k < pairs.len() ==> 0 <= #[trigger] pairs[k].0 < pairs[k].1 < n as int,
                forall|k: int|
                    0 <= k < pairs.len() ==> colliding_pair(
                        s@[#[trigger] pairs[k].0],
                        s@[pairs[k].1],
                    ) && events@[k] == overlap_event_of(s@[pairs[k].0], s@[pairs[k].1]),
                forall|k1: int, k2: int|
                    0 <= k1 < k2 < pairs.len() ==> (#[trigger] pairs[k1]).0
                        < (#[trigger] pairs[k2]).0 || (pairs[k1].0 == pairs[k2].0 && pairs[k1].1
                        < pairs[k2].1),
                forall|k: int|
                    0 <= k < pairs.len() ==> pairs[k].0 < i as int || (pairs[k].0 == i as int
                        && #[trigger] pairs[k].1 < j as int),
                forall|a: int, b: int|
                    0 <= a < b < n as int && (a < i as int || (a == i as int && b < j as int))
                        && colliding_pair(s@[a], s@[b]) ==> events@.contains(
                        overlap_event_of(s@[a], s@[b]),
                    ),
            decreases n - j,
        {
            let eb = s[j];
            let qualifies = match (ea.hitbox, eb.hitbox) {
                (Some(ha), Some(hb)) => {
                    let excl = match ea.parent {
                        Some(p) => p == eb.id,
                        None => false,
                    } || match eb.parent {
                        Some(p) => p == ea.id,
                        None => false,
                    };
                    if excl {
                        false
                    } else {
                        overlap_check(
                            &ea.transform.pos,
                            &ha.half_extents,
                            &eb.transform.pos,
                            &hb.half_extents,
                            0,
                        )
                    }
                },
                _ => false,
            };
            let ghost pre = events@;
            if qualifies {
                proof {
                    assert(s@[i as int].id != s@[j as int].id);
                    assert(colliding_pair(s@[i as int], s@[j as int]));
                }
                let delta = sub3(ea.transform.pos, eb.transform.pos);
                events.push(OverlapEvent { a: ea.id, b: eb.id, delta });
                proof {
                    pairs = pairs.push((i as int, j as int));
                    assert(events@[pre.len() as int] == overlap_event_of(
                        s@[i as int],
                        s@[j as int],
                    ));
                    assert(events@.contains(overlap_event_of(s@[i as int], s@[j as int])));
                }
            } else {
                proof {
                    assert(s@[i as int].id != s@[j as int].id);
                    assert(!colliding_pair(s@[i as int], s@[j as int]));
                }
            }
            proof {
                assert forall|x: OverlapEvent| pre.contains(x) implies events@.contains(x) by {
                    let k = choose|k: int| 0 <= k < pre.len() && pre[k] == x;
                    assert(events@[k] == x);
                }
            }
            j = j + 1;
        }
        i = i + 1;
    }
    proof {
        assert forall|k1: int, k2: int|
            0 <= k1 < k2 < events@.len() implies !(events@[k1].a == events@[k2].a && events@[k1].b
            == events@[k2].b) by {
            let p1 = pairs[k1];
            let p2 = pairs[k2];
            if events@[k1].a == events@[k2].a && events@[k1].b == events@[k2].b {
                assert(s@[p1.0].id == s@[p2.0].id && s@[p1.1].id == s@[p2.1].id);
                assert(p1.0 < p2.0 || (p1.0 == p2.0 && p1.1 < p2.1));
                assert(false);
            }
        }
        assert forall|k: int| 0 <= k < events@.len() implies sound_event(
            store.entities@,
            #[trigger] events@[k],
        ) by {
            let p = pairs[k];
            assert(0 <= p.0 < p.1 < store.entities@.len() && colliding_pair(
                store.entities@[p.0],
                store.entities@[p.1],
            ) && events@[k] == overlap_event_of(store.entities@[p.0], store.entities@[p.1]));
        }
    }
    events
}

} // verus!
