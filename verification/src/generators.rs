//! The table of public generators: generator 0 blinds, generator `i + 1`
//! carries coordinate `i` of a committed vector.

use crate::group::{all_elements, encodings_of, is_element, GroupElement};
use ark_bls12_377::{g1::Config, G1Affine, G1Projective};
use ark_ec::hashing::curve_maps::wb::WBMap;
use ark_ec::hashing::map_to_curve_hasher::MapToCurveBasedHasher;
use ark_ec::hashing::HashToCurve;
use ark_ff::field_hashers::DefaultFieldHasher;
use ark_serialize::CanonicalSerialize;
use sha2::Sha256;
use vstd::prelude::*;

verus! {

/// What `ark_ec`'s hash to the curve, by the Wahby-Boneh map with SHA-256,
/// makes of the UTF-8 bytes of a message under the UTF-8 bytes of a domain
/// tag: the encoding of a point, or `None` where it fails.
pub uninterp spec fn hash_to_group(domain: Seq<char>, message: Seq<char>) -> Option<Seq<u8>>;

/// The domain tag under which the generators are derived.
pub const DOMAIN_TAG: &'static str = "BLS12377G1_XMD:SHA-256_SSWU_RO_";

/// The most generators that a table holds, 2^47. The accumulator commits to
/// the coefficients of a polynomial, one to each generator but the first,
/// and a polynomial with more coefficients cannot be built.
pub const MAX_GENERATORS: u64 = 0x8000_0000_0000;

/// A fixed, ordered, non-empty sequence of group elements. The view is the
/// sequence of their encodings.
#[derive(Debug)]
pub struct GeneratorTable {
    points: Vec<GroupElement>,
}

impl View for GeneratorTable {
    type V = Seq<Seq<u8>>;

    closed spec fn view(&self) -> Seq<Seq<u8>> {
        encodings_of(self.points@)
    }
}

impl GeneratorTable {
    /// A table holds at least the blinding generator, at most
    /// `MAX_GENERATORS` generators, and elements only.
    #[verifier::type_invariant]
    pub open spec fn wf(self) -> bool {
        1 <= self@.len() <= MAX_GENERATORS && all_elements(self@)
    }

    /// The table of the given generators, unless there are none or more than
    /// `MAX_GENERATORS`.
    pub fn new(points: &[GroupElement]) -> (r: Option<GeneratorTable>)
        ensures
            r is Some <==> 1 <= points@.len() <= MAX_GENERATORS,
            r matches Some(t) ==> t@ == encodings_of(points@) && t.wf(),
    {
        if points.len() == 0 || points.len() as u64 > MAX_GENERATORS {
            return None;
        }
        let mut held: Vec<GroupElement> = Vec::new();
        let mut i: usize = 0;
        while i < points.len()
            invariant
                i <= points.len(),
                held.len() == i,
                forall|k: int| 0 <= k < i ==> held@[k] == points@[k],
                forall|k: int| 0 <= k < i ==> is_element(#[trigger] held@[k]@),
            decreases points.len() - i,
        {
            let p = points[i];
            proof {
                use_type_invariant(&p);
            }
            held.push(p);
            i += 1;
        }
        assert(encodings_of(held@) =~= encodings_of(points@));
        Some(GeneratorTable { points: held })
    }

    /// The table whose generators are the hashes, under `DOMAIN_TAG`, of the
    /// first `count` messages, unless `count` is zero or above
    /// `MAX_GENERATORS`, there are fewer messages, or one of them cannot be
    /// hashed to the group.
    pub fn from_messages(messages: &Vec<String>, count: usize) -> (r: Option<GeneratorTable>)
        ensures
            r is Some <==> 1 <= count <= messages@.len() && count <= MAX_GENERATORS && forall|
                i: int,
            |
                0 <= i < count ==> hash_to_group(DOMAIN_TAG@, #[trigger] messages@[i]@) is Some,
            r matches Some(t) ==> t.wf() && t@.len() == count && forall|i: int|
                0 <= i < count ==> hash_to_group(DOMAIN_TAG@, #[trigger] messages@[i]@) == Some(
                    t@[i],
                ),
    {
        if count == 0 || messages.len() < count || count as u64 > MAX_GENERATORS {
            return None;
        }
        let mut held: Vec<GroupElement> = Vec::new();
        let mut i: usize = 0;
        while i < count
            invariant
                i <= count <= messages@.len(),
                held.len() == i,
                forall|k: int|
                    0 <= k < i ==> hash_to_group(DOMAIN_TAG@, #[trigger] messages@[k]@) == Some(
                        held@[k]@,
                    ),
                forall|k: int| 0 <= k < i ==> is_element(#[trigger] held@[k]@),
            decreases count - i,
        {
            match hash_message(DOMAIN_TAG, messages[i].as_str()) {
                Some(p) => {
                    held.push(p);
                },
                None => {
                    return None;
                },
            }
            i += 1;
        }
        Some(GeneratorTable { points: held })
    }

    /// The number of generators, the blinding generator included.
    pub fn len(&self) -> (r: usize)
        ensures
            r == self@.len(),
            1 <= r <= MAX_GENERATORS,
    {
        proof {
            use_type_invariant(self);
        }
        self.points.len()
    }

    /// Generator `index`.
    pub fn get(&self, index: usize) -> (r: GroupElement)
        requires
            index < self@.len(),
        ensures
            r@ == self@[index as int],
            r.wf(),
    {
        let p = self.points[index];
        proof {
            use_type_invariant(&p);
        }
        p
    }
}

/// `MapToCurveBasedHasher::new`, on the UTF-8 bytes of the domain tag, and
/// `hash`, on those of the message, of `ark_ec`, with
/// `DefaultFieldHasher<Sha256>` and `WBMap` of BLS12-377's G1, then
/// `serialize_compressed`. The hash is documented to lie in the subgroup of
/// prime order: the result is claimed to be an element, and with that the
/// laws of the group.
#[verifier::external_body]
fn hash_message(domain: &str, message: &str) -> (r: Option<GroupElement>)
    ensures
        match r {
            Some(p) => hash_to_group(domain@, message@) == Some(p@) && p.wf(),
            None => hash_to_group(domain@, message@) is None,
        },
{
    let hasher = MapToCurveBasedHasher::<
        G1Projective,
        DefaultFieldHasher<Sha256>,
        WBMap<Config>,
    >::new(domain.as_bytes()).ok()?;
    let point: G1Affine = hasher.hash(message.as_bytes()).ok()?;
    let mut bytes = [0u8; 48];
    point.serialize_compressed(&mut bytes[..]).ok()?;
    Some(GroupElement { bytes })
}

} // verus!
