//! Entity store: the single shared, frame-scoped collection of live
//! entities.
//!
//! Identifiers are assigned from a monotone counter and never reused, so a
//! dangling parent reference can never alias a later entity. Creation and
//! destruction requests collected during a frame are applied here as one
//! batch at the frame boundary: despawns first, then spawns, so that no
//! system ever observes a partially-mutated store mid-frame.

use vstd::prelude::*;

use crate::components::{entity_of, Entity, SpawnRequest};

verus! {

pub struct Store {
    /// Live entities, in stable iteration order (spawn order).
    pub entities: Vec<Entity>,
    /// Next identifier to hand out; strictly above every live id.
    pub next_id: u64,
}

/// `s` with every entity whose id is listed in `gone` removed, order kept.
pub open spec fn remove_despawned(s: Seq<Entity>, gone: Seq<u64>) -> Seq<Entity>
    decreases s.len(),
{
    if s.len() == 0 {
        s
    } else {
        let rest = remove_despawned(s.drop_last(), gone);
        if gone.contains(s.last().id) {
            rest
        } else {
            rest.push(s.last())
        }
    }
}

/// The entities that a batch of spawn requests becomes, with identifiers
/// assigned sequentially from `base`.
pub open spec fn spawned_entities(reqs: Seq<SpawnRequest>, base: int) -> Seq<Entity> {
    Seq::new(reqs.len(), |k: int| entity_of(reqs[k], base + k))
}

impl Store {
    /// Well-formedness: distinct ids, all below `next_id`, and every
    /// entity's components valid.
    pub open spec fn wf(self) -> bool {
        &&& forall|i: int, j: int|
            0 <= i < j < self.entities@.len() ==> #[trigger] self.entities@[i].id
                != #[trigger] self.entities@[j].id
        &&& forall|i: int|
            0 <= i < self.entities@.len() ==> (#[trigger] self.entities@[i]).wf()
        &&& forall|i: int|
            0 <= i < self.entities@.len() ==> (#[trigger] self.entities@[i]).id < self.next_id
    }

    pub fn new() -> (s: Store)
        ensures
            s.wf(),
            s.entities@.len() == 0,
            s.next_id == 0,
    {
        Store { entities: Vec::new(), next_id: 0 }
    }

    /// Immediate spawn, for scene initialization before the frame loop.
    pub fn spawn(&mut self, req: SpawnRequest) -> (id: u64)
        requires
            old(self).wf(),
            req.wf(),
            old(self).next_id < u64::MAX,
        ensures
            final(self).wf(),
            id == old(self).next_id,
            final(self).next_id == old(self).next_id + 1,
            final(self).entities@ == old(self).entities@.push(
                entity_of(req, old(self).next_id as int),
            ),
    {
        let id = self.next_id;
        self.entities.push(
            Entity {
                id,
                transform: req.transform,
                hitbox: req.hitbox,
                tower: req.tower,
                bullet: req.bullet,
                parent: req.parent,
            },
        );
        self.next_id = self.next_id + 1;
        id
    }

    /// Apply one frame's buffered mutations: remove the despawned
    /// entities, then append the spawned ones with fresh ids. Despawn ids
    /// that match no live entity are silently ignored. Returns the ids
    /// the spawn requests were resolved to, in request order.
    pub fn apply(&mut self, spawns: &Vec<SpawnRequest>, despawns: &Vec<u64>) -> (ids: Vec<u64>)
        requires
            old(self).wf(),
            forall|k: int| 0 <= k < spawns@.len() ==> (#[trigger] spawns@[k]).wf(),
            old(self).next_id + spawns@.len() <= u64::MAX,
        ensures
            final(self).wf(),
            final(self).entities@ == remove_despawned(old(self).entities@, despawns@)
                + spawned_entities(spawns@, old(self).next_id as int),
            final(self).next_id == old(self).next_id + spawns@.len(),
            ids@ == Seq::new(spawns@.len(), |k: int| (old(self).next_id + k) as u64),
    {
        let ghost s0 = self.entities@;
        let ghost base = self.next_id as int;
        let n = self.entities.len();
        let mut kept: Vec<Entity> = Vec::new();
        let mut i: usize = 0;
        while i < n
            invariant
                n == s0.len(),
                self.entities@ == s0,
                0 <= i <= n,
                kept@ == remove_despawned(s0.take(i as int), despawns@),
            decreases n - i,
        {
            let e = self.entities[i];
            proof {
                assert(s0.take(i + 1).drop_last() =~= s0.take(i as int));
                assert(s0.take(i + 1).last() == s0[i as int]);
            }
            if !contains_id(despawns, e.id) {
                kept.push(e);
            }
            i = i + 1;
        }
        self.entities = kept;
        proof {
            assert(s0.take(n as int) =~= s0);
            lemma_remove_despawned_props(s0, despawns@);
            let out = remove_despawned(s0, despawns@);
            assert forall|k: int| 0 <= k < out.len() implies out[k].wf() && out[k].id < base by {
                let i = choose|i: int| 0 <= i < s0.len() && s0[i] == out[k];
            }
            assert(self.entities@ =~= out + spawned_entities(spawns@.take(0), base));
        }
        let mut ids: Vec<u64> = Vec::new();
        let mut k: usize = 0;
        let m = spawns.len();
        while k < m
            invariant
                m == spawns@.len(),
                base + m <= u64::MAX,
                0 <= k <= m,
                self.next_id == base + k,
                forall|t: int| 0 <= t < m ==> (#[trigger] spawns@[t]).wf(),
                self.entities@ == remove_despawned(s0, despawns@) + spawned_entities(
                    spawns@.take(k as int),
                    base,
                ),
                ids@ == Seq::new(k as nat, |t: int| (base + t) as u64),
                self.wf(),
                forall|i: int|
                    0 <= i < self.entities@.len() ==> #[trigger] self.entities@[i].id < base + k
                        || self.entities@[i].id >= base,
            decreases m - k,
        {
            let req = spawns[k];
            let id = self.next_id;
            self.entities.push(
                Entity {
                    id,
                    transform: req.transform,
                    hitbox: req.hitbox,
                    tower: req.tower,
                    bullet: req.bullet,
                    parent: req.parent,
                },
            );
            self.next_id = self.next_id + 1;
            ids.push(id);
            proof {
                assert(spawned_entities(spawns@.take(k + 1), base) =~= spawned_entities(
                    spawns@.take(k as int),
                    base,
                ).push(entity_of(spawns@[k as int], base + k)));
                assert(self.entities@ =~= remove_despawned(s0, despawns@) + spawned_entities(
                    spawns@.take(k + 1),
                    base,
                ));
                assert(ids@ =~= Seq::new((k + 1) as nat, |t: int| (base + t) as u64));
            }
            k = k + 1;
        }
        proof {
            assert(spawns@.take(m as int) =~= spawns@);
        }
        ids
    }
}

/// Linear scan for an id in a despawn list.
fn contains_id(ids: &Vec<u64>, id: u64) -> (r: bool)
    ensures
        r == ids@.contains(id),
{
    let mut i: usize = 0;
    let n = ids.len();
    while i < n
        invariant
            n == ids@.len(),
            0 <= i <= n,
            forall|j: int| 0 <= j < i ==> ids@[j] != id,
        decreases n - i,
    {
        if ids[i] == id {
            return true;
        }
        i = i + 1;
    }
    false
}

/// Everything `remove_despawned` keeps comes from the input sequence: each
/// kept entity occurs in `s`, none of the removed ids survive, and the
/// result is no longer than the input.
pub proof fn lemma_remove_despawned_props(s: Seq<Entity>, gone: Seq<u64>)
    ensures
        remove_despawned(s, gone).len() <= s.len(),
        forall|k: int|
            0 <= k < remove_despawned(s, gone).len() ==> s.contains(
                #[trigger] remove_despawned(s, gone)[k],
            ),
        forall|k: int|
            0 <= k < remove_despawned(s, gone).len() ==> !gone.contains(
                (#[trigger] remove_despawned(s, gone)[k]).id,
            ),
        (forall|i: int, j: int|
            0 <= i < j < s.len() ==> #[trigger] s[i].id != #[trigger] s[j].id) ==> (forall|
            k1: int,
            k2: int,
        |
            0 <= k1 < k2 < remove_despawned(s, gone).len()
                ==> #[trigger] remove_despawned(s, gone)[k1].id
                != #[trigger] remove_despawned(s, gone)[k2].id),
    decreases s.len(),
{
    let out = remove_despawned(s, gone);
    if s.len() == 0 {
    } else {
        let init = s.drop_last();
        lemma_remove_despawned_props(init, gone);
        let rest = remove_despawned(init, gone);
        assert(forall|k: int|
            0 <= k < rest.len() ==> init.contains(#[trigger] rest[k]) && s.contains(rest[k]));
        if (forall|i: int, j: int|
            0 <= i < j < s.len() ==> #[trigger] s[i].id != #[trigger] s[j].id) {
            assert(forall|i: int, j: int|
                0 <= i < j < init.len() ==> #[trigger] init[i].id != #[trigger] init[j].id);
            if !gone.contains(s.last().id) {
                assert forall|k: int| 0 <= k < rest.len() implies rest[k].id != s.last().id by {
                    let i = choose|i: int| 0 <= i < init.len() && init[i] == rest[k];
                    assert(s[i] == init[i]);
                    assert(s.last() == s[s.len() - 1]);
                }
            }
        }
    }
}

} // verus!
