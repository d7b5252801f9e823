//! Body and joint handles, the solver's switches, disjoint access to two
//! bodies of one collection, and the broad phase: which pairs of bodies the
//! narrow phase looks at and what becomes of each pair's arbiter.

use vstd::prelude::*;
use crate::collision::arbiter::ArbiterKey;

verus! {

/// Stable handle of a body: its index in the world's body collection.
#[derive(Copy, Clone, Debug, PartialEq, Eq, Hash, PartialOrd, Ord, Structural)]
pub struct BodyHandle(pub usize);

/// Stable handle of a joint: its index in the world's joint collection.
#[derive(Copy, Clone, Debug, PartialEq, Eq, Hash, PartialOrd, Ord, Structural)]
pub struct JointHandle(pub usize);

/// The solver's switches. They may change between steps and take effect on the
/// next one.
#[derive(Copy, Clone, Debug)]
pub struct WorldConfig {
    pub accumulate_impulses: bool,
    pub warm_starting: bool,
    pub position_correction: bool,
}

impl Default for WorldConfig {
    /// Every switch is on.
    fn default() -> (config: WorldConfig)
        ensures
            config.accumulate_impulses,
            config.warm_starting,
            config.position_correction,
    {
        WorldConfig { accumulate_impulses: true, warm_starting: true, position_correction: true }
    }
}

/// Borrows two distinct elements of one collection mutably at the same time,
/// in the order in which the handles were given.
///
/// The collection is parted at the larger index, so the two borrows lie in
/// disjoint halves. Every element other than the two keeps its value.
pub fn bodies_two_mut<T>(bodies: &mut [T], a: BodyHandle, b: BodyHandle) -> (pair: (&mut T, &mut T))
    requires
        a.0 != b.0,
        a.0 < old(bodies)@.len(),
        b.0 < old(bodies)@.len(),
    ensures
        *pair.0 == old(bodies)@[a.0 as int],
        *pair.1 == old(bodies)@[b.0 as int],
        final(bodies)@ == old(bodies)@.update(a.0 as int, *final(pair.0)).update(
            b.0 as int,
            *final(pair.1),
        ),
{
    let (i, j) = if a.0 <= b.0 {
        (a.0, b.0)
    } else {
        (b.0, a.0)
    };
    let (left, right) = bodies.split_at_mut(j);
    let bi = &mut left[i];
    let bj = &mut right[0];
    if a.0 < b.0 {
        (bi, bj)
    } else {
        (bj, bi)
    }
}

/// Whether the broad phase hands the pair `key` to the narrow phase: the two
/// bodies exist, they are distinct with the lower handle first, and at least
/// one of them is dynamic.
pub open spec fn is_candidate(is_static: Seq<bool>, key: ArbiterKey) -> bool {
    &&& key.body1.0 < key.body2.0 < is_static.len()
    &&& !(is_static[key.body1.0 as int] && is_static[key.body2.0 as int])
}

/// Enumerates the pairs of bodies that the narrow phase has to look at.
///
/// `is_static[i]` says whether body `i` has infinite mass. Every unordered
/// pair of distinct bodies of which at least one is dynamic comes out exactly
/// once, as its key, and the keys come out in ascending order.
pub fn broad_phase_pairs(is_static: &[bool]) -> (pairs: Vec<ArbiterKey>)
    ensures
        forall|k: int| 0 <= k < pairs@.len() ==> is_candidate(is_static@, #[trigger] pairs@[k]),
        forall|key: ArbiterKey| is_candidate(is_static@, key) ==> pairs@.contains(key),
        forall|k: int, l: int|
            0 <= k < l < pairs@.len() ==> (#[trigger] pairs@[k]).precedes(#[trigger] pairs@[l]),
{
    let n = is_static.len();
    let mut pairs: Vec<ArbiterKey> = Vec::new();
    let mut i: usize = 0;
    while i < n
        invariant
            n == is_static@.len(),
            i <= n,
            forall|k: int|
                0 <= k < pairs@.len() ==> is_candidate(is_static@, #[trigger] pairs@[k])
                    && pairs@[k].body1.0 < i,
            forall|key: ArbiterKey|
                is_candidate(is_static@, key) && key.body1.0 < i ==> pairs@.contains(key),
            forall|k: int, l: int|
                0 <= k < l < pairs@.len() ==> (#[trigger] pairs@[k]).precedes(
                    #[trigger] pairs@[l],
                ),
        decreases n - i,
    {
        let mut j: usize = i + 1;
        while j < n
            invariant
                n == is_static@.len(),
                i < n,
                i < j <= n,
                forall|k: int|
                    0 <= k < pairs@.len() ==> is_candidate(is_static@, #[trigger] pairs@[k]) && (
                    pairs@[k].body1.0 < i || (pairs@[k].body1.0 == i && pairs@[k].body2.0 < j)),
                forall|key: ArbiterKey|
                    is_candidate(is_static@, key) && (key.body1.0 < i || (key.body1.0 == i
                        && key.body2.0 < j)) ==> pairs@.contains(key),
                forall|k: int, l: int|
                    0 <= k < l < pairs@.len() ==> (#[trigger] pairs@[k]).precedes(
                        #[trigger] pairs@[l],
                    ),
            decreases n - j,
        {
            if !(is_static[i] && is_static[j]) {
                let key = ArbiterKey::new(BodyHandle(i), BodyHandle(j));
                let ghost before = pairs@;
                pairs.push(key);
                proof {
                    assert forall|other: ArbiterKey|
                        is_candidate(is_static@, other) && (other.body1.0 < i || (other.body1.0
                            == i && other.body2.0 < j + 1)) implies pairs@.contains(other) by {
                        if other.body1.0 == i && other.body2.0 == j {
                            assert(pairs@[before.len() as int] == other);
                        } else {
                            assert(before.contains(other));
                            let k = choose|k: int| 0 <= k < before.len() && before[k] == other;
                            assert(pairs@[k] == other);
                        }
                    }
                }
            }
            j += 1;
        }
        i += 1;
    }
    pairs
}

/// What the broad phase does to the arbiter of one pair once the narrow phase
/// has looked at the pair.
#[derive(Copy, Clone, Debug, PartialEq, Eq, Structural)]
pub enum ArbiterAction {
    /// The pair touches and had no arbiter: create one.
    Insert,
    /// The pair touches and has an arbiter: merge the new contacts into it.
    Update,
    /// The pair no longer touches: drop its arbiter.
    Remove,
    /// The pair does not touch and has no arbiter: nothing to do.
    Nothing,
}

impl ArbiterAction {
    /// The action that the rule of the broad phase asks for.
    pub open spec fn of_pair(num_contacts: nat, present: bool) -> ArbiterAction {
        if num_contacts > 0 {
            if present {
                ArbiterAction::Update
            } else {
                ArbiterAction::Insert
            }
        } else {
            if present {
                ArbiterAction::Remove
            } else {
                ArbiterAction::Nothing
            }
        }
    }

    /// The keys of the arbiter collection once the action was carried out for
    /// the pair `key`.
    pub open spec fn apply(self, keys: Set<ArbiterKey>, key: ArbiterKey) -> Set<ArbiterKey> {
        match self {
            ArbiterAction::Insert => keys.insert(key),
            ArbiterAction::Update => keys,
            ArbiterAction::Remove => keys.remove(key),
            ArbiterAction::Nothing => keys,
        }
    }

    /// After its turn in the broad phase a pair has an arbiter exactly if the
    /// narrow phase found a contact, and no other pair gained or lost one.
    pub proof fn arbiter_tracks_contact(
        keys: Set<ArbiterKey>,
        key: ArbiterKey,
        num_contacts: nat,
        other: ArbiterKey,
    )
        requires
            other != key,
        ensures
            ({
                let after = ArbiterAction::of_pair(num_contacts, keys.contains(key)).apply(
                    keys,
                    key,
                );
                &&& after.contains(key) <==> num_contacts > 0
                &&& after.contains(other) <==> keys.contains(other)
            }),
    {
    }
}

/// Decides what becomes of the arbiter of a pair: `num_contacts` is what the
/// narrow phase found for it, `present` whether the pair has an arbiter from
/// an earlier step.
pub fn arbiter_action(num_contacts: usize, present: bool) -> (action: ArbiterAction)
    ensures
        action == ArbiterAction::of_pair(num_contacts as nat, present),
{
    if num_contacts > 0 {
        if present {
            ArbiterAction::Update
        } else {
            ArbiterAction::Insert
        }
    } else {
        if present {
            ArbiterAction::Remove
        } else {
            ArbiterAction::Nothing
        }
    }
}

} // verus!
