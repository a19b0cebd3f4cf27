//! The group G1 of BLS12-377. An element is held as the canonical compressed
//! encoding of its point, 48 bytes; the group operations themselves are the
//! work of `ark_ec`, and are spoken of by name.

use crate::scalar::{field_add, modulus, Scalar};
use ark_bls12_377::{Fr, G1Affine};
use ark_ec::CurveGroup;
use ark_ff::{BigInt, PrimeField};
use ark_serialize::{CanonicalDeserialize, CanonicalSerialize};
use vstd::prelude::*;

verus! {

/// What `G1Affine::deserialize_compressed`, followed by `serialize_compressed`,
/// makes of a byte string: the canonical encoding of the point that the bytes
/// decode to, or `None` where they decode to no point of the group.
pub uninterp spec fn canonical_encoding(bytes: Seq<u8>) -> Option<Seq<u8>>;

/// The encoding of the sum of the points that `a` and `b` encode.
pub uninterp spec fn group_add(a: Seq<u8>, b: Seq<u8>) -> Seq<u8>;

/// The encoding of the difference of the points that `a` and `b` encode.
pub uninterp spec fn group_sub(a: Seq<u8>, b: Seq<u8>) -> Seq<u8>;

/// The encoding of the multiple, by `scalar`, of the point that `point`
/// encodes.
pub uninterp spec fn group_scale(point: Seq<u8>, scalar: nat) -> Seq<u8>;

/// The encoding of the neutral element, the point at infinity: an all-zero
/// x-coordinate under the infinity flag, which is bit 6 of the last byte.
pub open spec fn identity_encoding() -> Seq<u8> {
    Seq::new(
        48,
        |i: int|
            if i == 47 {
                0x40u8
            } else {
                0u8
            },
    )
}

/// `bytes` are the canonical encoding of a point of the group.
pub open spec fn encodes_point(bytes: Seq<u8>) -> bool {
    bytes.len() == 48 && canonical_encoding(bytes) == Some(bytes)
}

/// What is taken for granted of the named operations. `ark_ec` documents its
/// curve groups as groups of prime order `r`, whose points are guaranteed to
/// lie in the subgroup of that order, and `r` is the order of `Fr`. Of this
/// are stated, for elements and for scalars below the order:
/// - the neutral element is an element, and so are sums, differences and
///   multiples of elements;
/// - the addition is commutative and associative, the neutral element added
///   to an element leaves it, and a common summand cancels;
/// - a difference with what was taken away added to it is what it was taken
///   from;
/// - the multiple by zero is the neutral element, the multiple by one is the
///   element itself, every multiple of the neutral element is the neutral
///   element, and the multiple by a sum of scalars is the sum of the
///   multiples;
/// - two scalars that take an element other than the neutral one to the
///   same multiple are equal.
#[verifier::opaque]
pub closed spec fn group_laws() -> bool {
    &&& encodes_point(identity_encoding())
    &&& forall|a: Seq<u8>, b: Seq<u8>|
        #![trigger group_add(a, b)]
        encodes_point(a) && encodes_point(b) ==> encodes_point(group_add(a, b)) && group_add(a, b)
            == group_add(b, a)
    &&& forall|a: Seq<u8>, b: Seq<u8>|
        #![trigger group_sub(a, b)]
        encodes_point(a) && encodes_point(b) ==> encodes_point(group_sub(a, b)) && group_add(
            group_sub(a, b),
            b,
        ) == a
    &&& forall|p: Seq<u8>, s: nat|
        #![trigger group_scale(p, s)]
        encodes_point(p) && s < modulus() ==> encodes_point(group_scale(p, s))
    &&& forall|a: Seq<u8>, b: Seq<u8>, c: Seq<u8>|
        #![trigger group_add(group_add(a, b), c)]
        encodes_point(a) && encodes_point(b) && encodes_point(c) ==> group_add(
            group_add(a, b),
            c,
        ) == group_add(a, group_add(b, c))
    &&& forall|a: Seq<u8>|
        #![trigger group_add(identity_encoding(), a)]
        encodes_point(a) ==> group_add(identity_encoding(), a) == a
    &&& forall|a: Seq<u8>, b: Seq<u8>, c: Seq<u8>|
        #![trigger group_add(a, b), group_add(a, c)]
        encodes_point(a) && encodes_point(b) && encodes_point(c) && group_add(a, b) == group_add(
            a,
            c,
        ) ==> b == c
    &&& forall|p: Seq<u8>|
        #![trigger group_scale(p, 0)]
        encodes_point(p) ==> group_scale(p, 0) == identity_encoding()
    &&& forall|p: Seq<u8>|
        #![trigger group_scale(p, 1)]
        encodes_point(p) ==> group_scale(p, 1) == p
    &&& forall|s: nat|
        #![trigger group_scale(identity_encoding(), s)]
        s < modulus() ==> group_scale(identity_encoding(), s) == identity_encoding()
    &&& forall|p: Seq<u8>, s: nat, t: nat|
        #![trigger group_scale(p, s), group_scale(p, t)]
        encodes_point(p) && s < modulus() && t < modulus() ==> group_scale(p, field_add(s, t))
            == group_add(group_scale(p, s), group_scale(p, t))
    &&& forall|p: Seq<u8>, s: nat, t: nat|
        #![trigger group_scale(p, s), group_scale(p, t)]
        encodes_point(p) && p != identity_encoding() && s < modulus() && t < modulus()
            && group_scale(p, s) == group_scale(p, t) ==> s == t
}

/// `bytes` stand for an element of the group: they are the canonical encoding
/// of a point, and the group's laws hold.
pub open spec fn is_element(bytes: Seq<u8>) -> bool {
    encodes_point(bytes) && group_laws()
}

/// Every entry of `items` is an element of the group.
pub open spec fn all_elements(items: Seq<Seq<u8>>) -> bool {
    forall|i: int| 0 <= i < items.len() ==> is_element(#[trigger] items[i])
}

/// The neutral element is an element, once there is any.
pub proof fn lemma_identity_is_element(witness: Seq<u8>)
    requires
        is_element(witness),
    ensures
        is_element(identity_encoding()),
{
    reveal(group_laws);
}

/// The sum of two elements is an element.
pub proof fn lemma_add_is_element(a: Seq<u8>, b: Seq<u8>)
    requires
        is_element(a),
        is_element(b),
    ensures
        is_element(group_add(a, b)),
{
    reveal(group_laws);
}

/// A multiple of an element by a reduced scalar is an element.
pub proof fn lemma_scale_is_element(p: Seq<u8>, s: nat)
    requires
        is_element(p),
        s < modulus(),
    ensures
        is_element(group_scale(p, s)),
{
    reveal(group_laws);
}

/// The addition is commutative.
pub proof fn lemma_add_commutes(a: Seq<u8>, b: Seq<u8>)
    requires
        is_element(a),
        is_element(b),
    ensures
        group_add(a, b) == group_add(b, a),
{
    reveal(group_laws);
}

/// The addition is associative.
pub proof fn lemma_add_associates(a: Seq<u8>, b: Seq<u8>, c: Seq<u8>)
    requires
        is_element(a),
        is_element(b),
        is_element(c),
    ensures
        group_add(group_add(a, b), c) == group_add(a, group_add(b, c)),
{
    reveal(group_laws);
}

/// A common left summand cancels.
pub proof fn lemma_add_cancels(a: Seq<u8>, b: Seq<u8>, c: Seq<u8>)
    requires
        is_element(a),
        is_element(b),
        is_element(c),
        group_add(a, b) == group_add(a, c),
    ensures
        b == c,
{
    reveal(group_laws);
}

/// Distinct reduced scalars take an element other than the neutral one to
/// distinct multiples.
pub proof fn lemma_scale_is_injective(p: Seq<u8>, s: nat, t: nat)
    requires
        is_element(p),
        p != identity_encoding(),
        s < modulus(),
        t < modulus(),
        s != t,
    ensures
        group_scale(p, s) != group_scale(p, t),
{
    reveal(group_laws);
}

/// The neutral element added to an element leaves it, on either side.
pub proof fn lemma_add_identity(a: Seq<u8>)
    requires
        is_element(a),
    ensures
        group_add(identity_encoding(), a) == a,
        group_add(a, identity_encoding()) == a,
{
    reveal(group_laws);
}

/// The difference of two elements is an element, and what was taken away
/// added to it is what it was taken from.
pub proof fn lemma_sub_restores(a: Seq<u8>, b: Seq<u8>)
    requires
        is_element(a),
        is_element(b),
    ensures
        is_element(group_sub(a, b)),
        group_add(group_sub(a, b), b) == a,
{
    reveal(group_laws);
}

/// The multiple by zero is the neutral element, the multiple by one the
/// element itself.
pub proof fn lemma_scale_by_unit(p: Seq<u8>)
    requires
        is_element(p),
    ensures
        group_scale(p, 0) == identity_encoding(),
        group_scale(p, 1) == p,
{
    reveal(group_laws);
}

/// Every multiple of the neutral element is the neutral element.
pub proof fn lemma_scale_of_identity(witness: Seq<u8>, s: nat)
    requires
        is_element(witness),
        s < modulus(),
    ensures
        group_scale(identity_encoding(), s) == identity_encoding(),
{
    reveal(group_laws);
}

/// The multiple by a sum of scalars is the sum of the multiples.
pub proof fn lemma_scale_distributes(p: Seq<u8>, s: nat, t: nat)
    requires
        is_element(p),
        s < modulus(),
        t < modulus(),
    ensures
        group_scale(p, field_add(s, t)) == group_add(group_scale(p, s), group_scale(p, t)),
{
    reveal(group_laws);
}

/// In a sum of two sums the inner summands may change places.
pub proof fn lemma_add_shuffles(a: Seq<u8>, b: Seq<u8>, c: Seq<u8>, d: Seq<u8>)
    requires
        is_element(a),
        is_element(b),
        is_element(c),
        is_element(d),
    ensures
        group_add(group_add(a, b), group_add(c, d)) == group_add(
            group_add(a, c),
            group_add(b, d),
        ),
{
    lemma_add_is_element(c, d);
    lemma_add_is_element(b, d);
    lemma_add_associates(a, b, group_add(c, d));
    lemma_add_associates(b, c, d);
    lemma_add_commutes(b, c);
    lemma_add_associates(c, b, d);
    lemma_add_associates(a, c, group_add(b, d));
}

/// The last two summands of a sum of three may change places.
pub proof fn lemma_add_swaps(a: Seq<u8>, b: Seq<u8>, c: Seq<u8>)
    requires
        is_element(a),
        is_element(b),
        is_element(c),
    ensures
        group_add(group_add(a, b), c) == group_add(group_add(a, c), b),
{
    lemma_add_associates(a, b, c);
    lemma_add_commutes(b, c);
    lemma_add_associates(a, c, b);
}

/// An element of the group, as the canonical compressed encoding of its
/// point. The view is that encoding.
#[derive(Clone, Copy, Debug, PartialEq, Eq)]
pub struct GroupElement {
    pub(crate) bytes: [u8; 48],
}

impl View for GroupElement {
    type V = Seq<u8>;

    closed spec fn view(&self) -> Seq<u8> {
        self.bytes@
    }
}

/// The views of a sequence of elements.
pub open spec fn encodings_of(elements: Seq<GroupElement>) -> Seq<Seq<u8>> {
    Seq::new(elements.len(), |i: int| elements[i]@)
}

impl GroupElement {
    /// Every value of the type is an element of the group.
    #[verifier::type_invariant]
    pub open spec fn wf(self) -> bool {
        is_element(self@)
    }

    /// The neutral element.
    pub fn identity() -> (r: GroupElement)
        ensures
            r@ == identity_encoding(),
            r.wf(),
    {
        neutral()
    }

    /// The element that `bytes` decode to, in canonical form, if any.
    pub fn from_bytes(bytes: &[u8]) -> (r: Option<GroupElement>)
        ensures
            match r {
                Some(p) => canonical_encoding(bytes@) == Some(p@) && p.wf(),
                None => canonical_encoding(bytes@) is None,
            },
    {
        decode(bytes)
    }

    /// The canonical compressed encoding.
    pub fn to_bytes(&self) -> (r: [u8; 48])
        ensures
            r@ == self@,
    {
        self.bytes
    }

    /// Whether two values are the same element.
    pub fn equals(&self, other: &GroupElement) -> (r: bool)
        ensures
            r == (self@ == other@),
    {
        let mut i: usize = 0;
        while i < 48
            invariant
                i <= 48,
                forall|k: int| 0 <= k < i ==> self.bytes@[k] == other.bytes@[k],
            decreases 48 - i,
        {
            if self.bytes[i] != other.bytes[i] {
                return false;
            }
            i += 1;
        }
        assert(self.bytes@ =~= other.bytes@);
        true
    }

    /// The sum of two elements.
    pub fn plus(&self, other: &GroupElement) -> (r: GroupElement)
        ensures
            r@ == group_add(self@, other@),
            r.wf(),
    {
        proof {
            use_type_invariant(self);
            use_type_invariant(other);
        }
        point_add(self, other)
    }

    /// The difference of two elements.
    pub fn minus(&self, other: &GroupElement) -> (r: GroupElement)
        ensures
            r@ == group_sub(self@, other@),
            r.wf(),
    {
        proof {
            use_type_invariant(self);
            use_type_invariant(other);
        }
        point_sub(self, other)
    }

    /// The multiple of an element by a scalar.
    pub fn times(&self, scalar: &Scalar) -> (r: GroupElement)
        ensures
            r@ == group_scale(self@, scalar@),
            r.wf(),
    {
        proof {
            use_type_invariant(self);
            use_type_invariant(scalar);
        }
        point_scale(self, scalar)
    }
}

/// `Affine::identity` of `ark_ec`, serialized: the point at infinity, whose
/// compressed encoding is the zero x-coordinate under the infinity flag. The
/// result is claimed to be an element, and with that the laws of the group.
#[verifier::external_body]
fn neutral() -> (r: GroupElement)
    ensures
        r@ == identity_encoding(),
        r.wf(),
{
    let mut bytes = [0u8; 48];
    G1Affine::identity().serialize_compressed(&mut bytes[..]).unwrap();
    GroupElement { bytes }
}

/// `G1Affine::deserialize_compressed` of `ark_serialize`, which accepts only
/// points on the curve and in the subgroup of prime order, followed by
/// `serialize_compressed` of what it gave. The result is claimed to be an
/// element, and with that the laws of the group.
#[verifier::external_body]
fn decode(bytes: &[u8]) -> (r: Option<GroupElement>)
    ensures
        match r {
            Some(p) => canonical_encoding(bytes@) == Some(p@) && p.wf(),
            None => canonical_encoding(bytes@) is None,
        },
{
    let point = G1Affine::deserialize_compressed(bytes).ok()?;
    let mut out = [0u8; 48];
    point.serialize_compressed(&mut out[..]).ok()?;
    Some(GroupElement { bytes: out })
}

/// `Add` of `ark_ec`'s affine points of G1, brought back to affine form and
/// serialized: the encoding of the sum. The result is claimed to be an
/// element, and with that the laws of the group.
#[verifier::external_body]
fn point_add(a: &GroupElement, b: &GroupElement) -> (r: GroupElement)
    requires
        a.wf(),
        b.wf(),
    ensures
        r@ == group_add(a@, b@),
        r.wf(),
{
    let x = G1Affine::deserialize_compressed(&a.bytes[..]).unwrap();
    let y = G1Affine::deserialize_compressed(&b.bytes[..]).unwrap();
    let mut bytes = [0u8; 48];
    (x + y).into_affine().serialize_compressed(&mut bytes[..]).unwrap();
    GroupElement { bytes }
}

/// `Sub` of `ark_ec`'s affine points of G1, brought back to affine form and
/// serialized: the encoding of the difference. The result is claimed to be
/// an element, and with that the laws of the group.
#[verifier::external_body]
fn point_sub(a: &GroupElement, b: &GroupElement) -> (r: GroupElement)
    requires
        a.wf(),
        b.wf(),
    ensures
        r@ == group_sub(a@, b@),
        r.wf(),
{
    let x = G1Affine::deserialize_compressed(&a.bytes[..]).unwrap();
    let y = G1Affine::deserialize_compressed(&b.bytes[..]).unwrap();
    let mut bytes = [0u8; 48];
    (x - y).into_affine().serialize_compressed(&mut bytes[..]).unwrap();
    GroupElement { bytes }
}

/// `Mul` of `ark_ec`'s affine points of G1 by a scalar of `Fr`, brought back
/// to affine form and serialized: the encoding of the multiple. The result is
/// claimed to be an element, and with that the laws of the group.
#[verifier::external_body]
fn point_scale(p: &GroupElement, s: &Scalar) -> (r: GroupElement)
    requires
        p.wf(),
        s.wf(),
    ensures
        r@ == group_scale(p@, s@),
        r.wf(),
{
    let x = G1Affine::deserialize_compressed(&p.bytes[..]).unwrap();
    let k = Fr::from_bigint(BigInt::new(s.limbs)).unwrap();
    let mut bytes = [0u8; 48];
    (x * k).into_affine().serialize_compressed(&mut bytes[..]).unwrap();
    GroupElement { bytes }
}

} // verus!
