//! Attack hits in the world: which touches between an attack's hit box and a living entity are
//! reported, each pair once per frame.
use vstd::prelude::*;

verus! {

/// The (attacker, hit entity) pairs already reported in a frame, held in the engine's hash set
/// (`bevy::utils::HashSet`); its contents are named by [`pair_contents`].
#[verifier::external_body]
pub struct PairSet {
    set: bevy::utils::HashSet<(u64, u64)>,
}

/// What a pair set holds.
pub uninterp spec fn pair_contents(set: PairSet) -> Set<(u64, u64)>;

impl PairSet {
    /// An empty set (`HashSet::default`).
    #[verifier::external_body]
    pub(crate) fn new() -> (r: PairSet)
        ensures
            pair_contents(r) == Set::<(u64, u64)>::empty(),
    {
        PairSet { set: bevy::utils::HashSet::default() }
    }

    /// Empties the set (`HashSet::clear`).
    #[verifier::external_body]
    pub(crate) fn clear(&mut self)
        ensures
            pair_contents(*final(self)) == Set::<(u64, u64)>::empty(),
    {
        self.set.clear();
    }

    /// Adds a pair (`HashSet::insert`), giving whether it was not there yet.
    #[verifier::external_body]
    pub(crate) fn insert(&mut self, pair: (u64, u64)) -> (r: bool)
        ensures
            r == !pair_contents(*old(self)).contains(pair),
            pair_contents(*final(self)) == pair_contents(*old(self)).insert(pair),
    {
        self.set.insert(pair)
    }

    /// An empty set of reported pairs.
    pub fn empty() -> (r: PairSet)
        ensures
            pair_contents(r) == Set::<(u64, u64)>::empty(),
    {
        PairSet::new()
    }
}

/// A living entity met by an attack's hit box, as the physics engine reports it.
#[derive(Clone, Copy, Debug, PartialEq, Eq, Structural)]
pub struct HitCandidate {
    /// The entity whose attack the hit box is.
    pub attacker: u64,
    /// The living entity.
    pub entity: u64,
    /// The hit box and the entity intersect.
    pub intersecting: bool,
}

/// The hits to report for the candidates, in their order: an intersection of an attack with an
/// entity other than its attacker, the first time the pair (attacker, entity) is met.
pub open spec fn reported_hits(candidates: Seq<HitCandidate>) -> Seq<(u64, u64)>
    decreases candidates.len(),
{
    if candidates.len() == 0 {
        Seq::empty()
    } else {
        let before = reported_hits(candidates.drop_last());
        let c = candidates.last();
        if c.intersecting && c.attacker != c.entity && !before.contains((c.attacker, c.entity)) {
            before.push((c.attacker, c.entity))
        } else {
            before
        }
    }
}

/// A pair is reported at most once in a frame, and only for an intersection of an attack with
/// an entity other than its attacker.
pub proof fn lemma_reported_hits_once(candidates: Seq<HitCandidate>)
    ensures
        forall|i: int, j: int|
            0 <= i < j < reported_hits(candidates).len() ==> #[trigger] reported_hits(candidates)[i]
                != #[trigger] reported_hits(candidates)[j],
        forall|i: int|
            #![trigger reported_hits(candidates)[i]]
            0 <= i < reported_hits(candidates).len() ==> exists|k: int|
            0 <= k < candidates.len() && (#[trigger] candidates[k]).intersecting && candidates[k].attacker
                != candidates[k].entity && reported_hits(candidates)[i] == (candidates[k].attacker, candidates[k].entity),
    decreases candidates.len(),
{
    if candidates.len() > 0 {
        let rest = candidates.drop_last();
        lemma_reported_hits_once(rest);
        let before = reported_hits(rest);
        let r = reported_hits(candidates);
        assert forall|i: int| #![trigger r[i]] 0 <= i < r.len() implies exists|k: int|
            0 <= k < candidates.len() && (#[trigger] candidates[k]).intersecting && candidates[k].attacker
                != candidates[k].entity && r[i] == (candidates[k].attacker, candidates[k].entity) by {
            if i < before.len() {
                let k = choose|k: int|
                    0 <= k < rest.len() && (#[trigger] rest[k]).intersecting && rest[k].attacker != rest[k].entity
                        && before[i] == (rest[k].attacker, rest[k].entity);
                assert(candidates[k] == rest[k]);
            } else {
                assert(candidates[candidates.len() - 1] == candidates.last());
            }
        }
        assert forall|i: int, j: int| 0 <= i < j < r.len() implies #[trigger] r[i] != #[trigger] r[j] by {
            if j >= before.len() {
                assert(!before.contains(r[j]));
                assert(r[i] == before[i]);
            }
        }
    }
}

/// Every hit is reported: each intersection of an attack with an entity other than its attacker
/// has its pair (attacker, entity) among the reported hits, whatever else the attacker touched in
/// the same frame.
pub proof fn lemma_reported_hits_complete(candidates: Seq<HitCandidate>)
    ensures
        forall|k: int|
            0 <= k < candidates.len() && (#[trigger] candidates[k]).intersecting && candidates[k].attacker
                != candidates[k].entity ==> reported_hits(candidates).contains((candidates[k].attacker, candidates[k].entity)),
    decreases candidates.len(),
{
    if candidates.len() > 0 {
        let rest = candidates.drop_last();
        lemma_reported_hits_complete(rest);
        let before = reported_hits(rest);
        let r = reported_hits(candidates);
        assert forall|k: int|
            0 <= k < candidates.len() && (#[trigger] candidates[k]).intersecting && candidates[k].attacker
                != candidates[k].entity implies r.contains((candidates[k].attacker, candidates[k].entity)) by {
            let pair = (candidates[k].attacker, candidates[k].entity);
            if k < rest.len() {
                assert(rest[k] == candidates[k]);
                assert(before.contains(pair));
                let m = choose|m: int| 0 <= m < before.len() && before[m] == pair;
                assert(r[m] == pair);
            } else {
                assert(candidates[k] == candidates.last());
                if before.contains(pair) {
                    let m = choose|m: int| 0 <= m < before.len() && before[m] == pair;
                    assert(r[m] == pair);
                } else {
                    assert(r[before.len() as int] == pair);
                }
            }
        }
    }
}

/// Reports the hits of a frame: the set of reported pairs starts empty, and each intersection
/// of an attack with another entity is reported once (see [`reported_hits`]). The set ends
/// holding the reported pairs.
pub fn attack_collision_system(processed: &mut PairSet, candidates: &Vec<HitCandidate>) -> (events: Vec<(u64, u64)>)
    ensures
        events@ == reported_hits(candidates@),
        pair_contents(*final(processed)) == reported_hits(candidates@).to_set(),
        forall|k: int|
            0 <= k < candidates@.len() && (#[trigger] candidates@[k]).intersecting && candidates@[k].attacker
                != candidates@[k].entity ==> events@.contains((candidates@[k].attacker, candidates@[k].entity)),
        forall|i: int, j: int| 0 <= i < j < events@.len() ==> #[trigger] events@[i] != #[trigger] events@[j],
{
    proof {
        lemma_reported_hits_complete(candidates@);
        lemma_reported_hits_once(candidates@);
    }
    processed.clear();
    let mut events: Vec<(u64, u64)> = Vec::new();
    let mut i: usize = 0;
    proof {
        assert(candidates@.take(0) =~= Seq::<HitCandidate>::empty());
        assert(Seq::<(u64, u64)>::empty().to_set() =~= Set::<(u64, u64)>::empty());
    }
    while i < candidates.len()
        invariant
            0 <= i <= candidates@.len(),
            events@ == reported_hits(candidates@.take(i as int)),
            pair_contents(*processed) == events@.to_set(),
        decreases candidates@.len() - i,
    {
        let c = candidates[i];
        proof {
            assert(candidates@.take(i + 1).drop_last() =~= candidates@.take(i as int));
            assert(candidates@.take(i + 1).last() == c);
        }
        if c.intersecting && c.attacker != c.entity {
            let pair = (c.attacker, c.entity);
            let ghost before = events@;
            let fresh = processed.insert(pair);
            if fresh {
                events.push(pair);
                proof {
                    broadcast use vstd::seq_lib::group_seq_properties;
                    assert(events@.to_set() =~= before.to_set().insert(pair));
                }
            } else {
                proof {
                    assert(before.to_set().insert(pair) =~= before.to_set());
                }
            }
        }
        i = i + 1;
    }
    proof {
        assert(candidates@.take(i as int) =~= candidates@);
    }
    events
}

} // verus!
