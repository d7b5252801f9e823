//! Feature identifiers of contact points, the order-independent key of a body
//! pair, and the matching of a new manifold against the one of the step before.

use vstd::prelude::*;
use crate::collision::collide::EdgeNumber;
use crate::dynamics::world::BodyHandle;

verus! {

/// The most contact points a manifold between two boxes can hold.
pub const MAX_POINTS: usize = 2;

/// Names the edges that produced a contact point: for each of the two boxes
/// the edge the clipped segment came in by and the edge it went out by.
#[derive(Copy, Clone, Debug, PartialEq, Eq, Hash, Structural)]
pub struct FeaturePair {
    pub in_edge1: EdgeNumber,
    pub out_edge1: EdgeNumber,
    pub in_edge2: EdgeNumber,
    pub out_edge2: EdgeNumber,
}

impl FeaturePair {
    /// The 32-bit key of this identifier: one byte per edge slot, `in_edge1`
    /// lowest, then `out_edge1`, `in_edge2` and `out_edge2`.
    pub open spec fn packed(self) -> u32 {
        (self.in_edge1.code() + 0x100 * self.out_edge1.code() + 0x1_0000 * self.in_edge2.code()
            + 0x100_0000 * self.out_edge2.code()) as u32
    }

    /// The identifier whose four slots are read from the four bytes of `v`,
    /// lowest byte first.
    pub open spec fn unpacked(v: u32) -> FeaturePair {
        FeaturePair {
            in_edge1: EdgeNumber::decode((v % 0x100) as u8),
            out_edge1: EdgeNumber::decode((v / 0x100 % 0x100) as u8),
            in_edge2: EdgeNumber::decode((v / 0x1_0000 % 0x100) as u8),
            out_edge2: EdgeNumber::decode((v / 0x100_0000 % 0x100) as u8),
        }
    }

    /// The identifier of the other box's point of view: the slots of the two
    /// boxes change places.
    pub open spec fn flipped(self) -> FeaturePair {
        FeaturePair {
            in_edge1: self.in_edge2,
            out_edge1: self.out_edge2,
            in_edge2: self.in_edge1,
            out_edge2: self.out_edge1,
        }
    }

    #[inline]
    pub fn new(in1: EdgeNumber, out1: EdgeNumber, in2: EdgeNumber, out2: EdgeNumber) -> (fp:
        FeaturePair)
        ensures
            fp == (FeaturePair { in_edge1: in1, out_edge1: out1, in_edge2: in2, out_edge2: out2 }),
    {
        FeaturePair { in_edge1: in1, out_edge1: out1, in_edge2: in2, out_edge2: out2 }
    }

    /// Packs the identifier into its stable 32-bit key.
    #[inline]
    pub fn key(self) -> (k: u32)
        ensures
            k == self.packed(),
    {
        let a: u32 = self.in_edge1.to_u8() as u32;
        let b: u32 = self.out_edge1.to_u8() as u32;
        let c: u32 = self.in_edge2.to_u8() as u32;
        let d: u32 = self.out_edge2.to_u8() as u32;
        assert(a | (b << 8) | (c << 16) | (d << 24) == a + 0x100 * b + 0x1_0000 * c + 0x100_0000
            * d) by (bit_vector)
            requires
                a <= 4,
                b <= 4,
                c <= 4,
                d <= 4,
        ;
        a | (b << 8) | (c << 16) | (d << 24)
    }

    /// Reads an identifier back from a key. Bytes that stand for no edge read
    /// as `NoEdge`.
    #[inline]
    pub fn from_key(v: u32) -> (fp: FeaturePair)
        ensures
            fp == FeaturePair::unpacked(v),
    {
        assert(v & 0xFF == v % 0x100) by (bit_vector);
        assert((v >> 8) & 0xFF == v / 0x100 % 0x100) by (bit_vector);
        assert((v >> 16) & 0xFF == v / 0x1_0000 % 0x100) by (bit_vector);
        assert((v >> 24) & 0xFF == v / 0x100_0000 % 0x100) by (bit_vector);
        FeaturePair {
            in_edge1: EdgeNumber::from_u8((v & 0xFF) as u8),
            out_edge1: EdgeNumber::from_u8(((v >> 8) & 0xFF) as u8),
            in_edge2: EdgeNumber::from_u8(((v >> 16) & 0xFF) as u8),
            out_edge2: EdgeNumber::from_u8(((v >> 24) & 0xFF) as u8),
        }
    }

    /// Packing an identifier and unpacking the key gives the identifier back,
    /// whatever its four slots hold.
    pub proof fn key_round_trip(fp: FeaturePair)
        ensures
            FeaturePair::unpacked(fp.packed()) == fp,
    {
        let a = fp.in_edge1.code() as int;
        let b = fp.out_edge1.code() as int;
        let c = fp.in_edge2.code() as int;
        let d = fp.out_edge2.code() as int;
        let v = fp.packed() as int;
        assert(v == a + 0x100 * b + 0x1_0000 * c + 0x100_0000 * d);
        assert(v % 0x100 == a);
        assert(v / 0x100 % 0x100 == b);
        assert(v / 0x1_0000 % 0x100 == c);
        assert(v / 0x100_0000 % 0x100 == d);
        EdgeNumber::decode_inverts_code(fp.in_edge1);
        EdgeNumber::decode_inverts_code(fp.out_edge1);
        EdgeNumber::decode_inverts_code(fp.in_edge2);
        EdgeNumber::decode_inverts_code(fp.out_edge2);
    }

    /// Two identifiers have the same key only if they are the same identifier.
    pub proof fn key_is_injective(fp: FeaturePair, other: FeaturePair)
        requires
            fp.packed() == other.packed(),
        ensures
            fp == other,
    {
        FeaturePair::key_round_trip(fp);
        FeaturePair::key_round_trip(other);
    }

    /// Flipping twice gives the identifier back.
    pub proof fn flip_is_an_involution(fp: FeaturePair)
        ensures
            fp.flipped().flipped() == fp,
    {
    }
}

impl Default for FeaturePair {
    /// The identifier with no edge in any slot.
    fn default() -> (fp: FeaturePair)
        ensures
            fp == (FeaturePair {
                in_edge1: EdgeNumber::NoEdge,
                out_edge1: EdgeNumber::NoEdge,
                in_edge2: EdgeNumber::NoEdge,
                out_edge2: EdgeNumber::NoEdge,
            }),
    {
        FeaturePair {
            in_edge1: EdgeNumber::NoEdge,
            out_edge1: EdgeNumber::NoEdge,
            in_edge2: EdgeNumber::NoEdge,
            out_edge2: EdgeNumber::NoEdge,
        }
    }
}

/// The key of an unordered body pair: the two handles, lower one first.
#[derive(Copy, Clone, Debug, PartialEq, Eq, Hash, PartialOrd, Ord, Structural)]
pub struct ArbiterKey {
    pub body1: BodyHandle,
    pub body2: BodyHandle,
}

impl ArbiterKey {
    /// The key of the pair `{b1, b2}`.
    pub open spec fn of_pair(b1: BodyHandle, b2: BodyHandle) -> ArbiterKey {
        if b1.0 <= b2.0 {
            ArbiterKey { body1: b1, body2: b2 }
        } else {
            ArbiterKey { body1: b2, body2: b1 }
        }
    }

    /// The order in which keys are visited: by the lower handle, then by the
    /// higher one.
    pub open spec fn precedes(self, other: ArbiterKey) -> bool {
        self.body1.0 < other.body1.0 || (self.body1.0 == other.body1.0 && self.body2.0
            < other.body2.0)
    }

    #[inline]
    pub fn new(b1: BodyHandle, b2: BodyHandle) -> (key: ArbiterKey)
        ensures
            key == ArbiterKey::of_pair(b1, b2),
    {
        if b1.0 <= b2.0 {
            ArbiterKey { body1: b1, body2: b2 }
        } else {
            ArbiterKey { body1: b2, body2: b1 }
        }
    }

    /// A pair has one key whichever body is named first, and the key holds
    /// the two handles in ascending order.
    pub proof fn key_ignores_order(b1: BodyHandle, b2: BodyHandle)
        ensures
            ArbiterKey::of_pair(b1, b2) == ArbiterKey::of_pair(b2, b1),
            ArbiterKey::of_pair(b1, b2).body1.0 <= ArbiterKey::of_pair(b1, b2).body2.0,
            ArbiterKey::of_pair(b1, b2).body1.0 == vstd::math::min(b1.0 as int, b2.0 as int),
            ArbiterKey::of_pair(b1, b2).body2.0 == vstd::math::max(b1.0 as int, b2.0 as int),
    {
    }
}

/// Whether some contact of `previous` has the key of `feature`.
pub open spec fn has_match(previous: Seq<FeaturePair>, feature: FeaturePair) -> bool {
    exists|j: int|
        #![trigger previous[j]]
        0 <= j < previous.len() && previous[j].packed() == feature.packed()
}

/// Whether `j` is the first contact of `previous` that has the key of
/// `feature`.
pub open spec fn is_first_match(previous: Seq<FeaturePair>, feature: FeaturePair, j: int) -> bool {
    &&& 0 <= j < previous.len()
    &&& previous[j].packed() == feature.packed()
    &&& forall|k: int|
        #![trigger previous[k]]
        0 <= k < j ==> previous[k].packed() != feature.packed()
}

/// Looks a contact point up in the manifold of the step before, by the key of
/// its feature identifier. Gives the position of the first contact with that
/// key, or `None` where no contact has it.
pub fn find_contact(previous: &[FeaturePair], feature: FeaturePair) -> (found: Option<usize>)
    ensures
        found is Some <==> has_match(previous@, feature),
        found matches Some(j) ==> is_first_match(previous@, feature, j as int),
{
    let wanted = feature.key();
    let mut j: usize = 0;
    while j < previous.len()
        invariant
            j <= previous@.len(),
            wanted == feature.packed(),
            forall|k: int|
                #![trigger previous@[k]]
                0 <= k < j ==> previous@[k].packed() != feature.packed(),
        decreases previous@.len() - j,
    {
        if previous[j].key() == wanted {
            return Some(j);
        }
        j += 1;
    }
    None
}

/// Decides, for each contact of a new manifold, where its accumulated
/// impulses come from.
///
/// Entry `i` is `Some(j)` where warm starting is on and contact `j` is the
/// first of `previous` with the key of `fresh[i]`: the new contact takes over
/// the impulses of that one. It is `None` where the contact is new or warm
/// starting is off: its impulses start from zero.
pub fn warm_start_sources(previous: &[FeaturePair], fresh: &[FeaturePair], warm_starting: bool) -> (sources:
    Vec<Option<usize>>)
    ensures
        sources@.len() == fresh@.len(),
        forall|i: int|
            0 <= i < fresh@.len() ==> (#[trigger] sources@[i] is Some <==> warm_starting
                && has_match(previous@, fresh@[i])),
        forall|i: int|
            0 <= i < fresh@.len() ==> (#[trigger] sources@[i] matches Some(j) ==> is_first_match(
                previous@,
                fresh@[i],
                j as int,
            )),
{
    let mut sources: Vec<Option<usize>> = Vec::new();
    let mut i: usize = 0;
    while i < fresh.len()
        invariant
            i <= fresh@.len(),
            sources@.len() == i,
            forall|k: int|
                0 <= k < i ==> (#[trigger] sources@[k] is Some <==> warm_starting && has_match(
                    previous@,
                    fresh@[k],
                )),
            forall|k: int|
                0 <= k < i ==> (#[trigger] sources@[k] matches Some(j) ==> is_first_match(
                    previous@,
                    fresh@[k],
                    j as int,
                )),
        decreases fresh@.len() - i,
    {
        let source = if warm_starting {
            find_contact(previous, fresh[i])
        } else {
            None
        };
        sources.push(source);
        i += 1;
    }
    sources
}

/// A manifold that persists unchanged is matched contact by contact: where no
/// two contacts of a manifold share a key, each contact is its own first
/// match.
pub proof fn persistent_contacts_match_themselves(manifold: Seq<FeaturePair>, i: int)
    requires
        0 <= i < manifold.len(),
        forall|k: int, l: int|
            0 <= k < l < manifold.len() ==> manifold[k].packed() != manifold[l].packed(),
    ensures
        has_match(manifold, manifold[i]),
        is_first_match(manifold, manifold[i], i),
{
    assert(manifold[i].packed() == manifold[i].packed());
}

} // verus!
