//! Elements of the scalar field of BLS12-377, held as four little-endian
//! 64-bit limbs of the canonical representative.

use ark_bls12_377::Fr;
use ark_ff::{BigInt, PrimeField};
use vstd::prelude::*;

verus! {

/// The order of the scalar field, a 253-bit prime.
pub open spec fn modulus() -> nat {
    8444461749428370424248824938781546531375899335154063827935233455917409239041nat
}

/// The limbs of the modulus, least significant first.
pub const MODULUS_LIMB_0: u64 = 0x0a11_8000_0000_0001;

pub const MODULUS_LIMB_1: u64 = 0x59aa_76fe_d000_0001;

pub const MODULUS_LIMB_2: u64 = 0x60b4_4d1e_5c37_b001;

pub const MODULUS_LIMB_3: u64 = 0x12ab_655e_9a2c_a556;

/// The number that four little-endian 64-bit limbs stand for.
pub open spec fn limbs_value(limbs: Seq<u64>) -> nat {
    (limbs[0] as nat) + (limbs[1] as nat) * 0x1_0000_0000_0000_0000nat + (limbs[2] as nat)
        * 0x1_0000_0000_0000_0000_0000_0000_0000_0000nat + (limbs[3] as nat)
        * 0x1_0000_0000_0000_0000_0000_0000_0000_0000_0000_0000_0000_0000nat
}

/// The number that a little-endian byte string stands for.
pub open spec fn le_bytes_value(bytes: Seq<u8>) -> nat
    decreases bytes.len(),
{
    if bytes.len() == 0 {
        0
    } else {
        (bytes[0] as nat) + 256 * le_bytes_value(bytes.drop_first())
    }
}

/// The additive inverse of `a` in the field.
pub open spec fn field_neg(a: nat) -> nat {
    ((modulus() - a) % (modulus() as int)) as nat
}

/// The sum of `a` and `b` in the field.
pub open spec fn field_add(a: nat, b: nat) -> nat {
    (a + b) % modulus()
}

/// A field element. Its view is the canonical representative, a number below
/// `modulus()`.
#[derive(Clone, Copy, Debug, PartialEq, Eq)]
pub struct Scalar {
    pub(crate) limbs: [u64; 4],
}

impl View for Scalar {
    type V = nat;

    closed spec fn view(&self) -> nat {
        limbs_value(self.limbs@)
    }
}

/// The views of a sequence of scalars.
pub open spec fn values_of(scalars: Seq<Scalar>) -> Seq<nat> {
    Seq::new(scalars.len(), |i: int| scalars[i]@)
}

impl Scalar {
    /// Every scalar is reduced.
    #[verifier::type_invariant]
    pub open spec fn wf(self) -> bool {
        self@ < modulus()
    }

    /// The scalar that stands for `value`.
    pub fn from_u64(value: u64) -> (r: Scalar)
        ensures
            r@ == value,
            r.wf(),
    {
        Scalar { limbs: [value, 0, 0, 0] }
    }

    /// The zero of the field.
    pub fn zero() -> (r: Scalar)
        ensures
            r@ == 0,
            r.wf(),
    {
        Scalar::from_u64(0)
    }

    /// The one of the field.
    pub fn one() -> (r: Scalar)
        ensures
            r@ == 1,
            r.wf(),
    {
        Scalar::from_u64(1)
    }

    /// The scalar with the given limbs, least significant first, unless they
    /// stand for a number that is not below the modulus.
    pub fn from_limbs(limbs: [u64; 4]) -> (r: Option<Scalar>)
        ensures
            r is Some <==> limbs_value(limbs@) < modulus(),
            r matches Some(s) ==> s@ == limbs_value(limbs@) && s.wf(),
    {
        let below = limbs[3] < MODULUS_LIMB_3 || (limbs[3] == MODULUS_LIMB_3 && (limbs[2]
            < MODULUS_LIMB_2 || (limbs[2] == MODULUS_LIMB_2 && (limbs[1] < MODULUS_LIMB_1 || (
        limbs[1] == MODULUS_LIMB_1 && limbs[0] < MODULUS_LIMB_0)))));
        if below {
            Some(Scalar { limbs })
        } else {
            None
        }
    }

    /// The limbs of the canonical representative, least significant first.
    pub fn to_limbs(&self) -> (r: [u64; 4])
        ensures
            limbs_value(r@) == self@,
    {
        self.limbs
    }

    /// Whether this is the zero of the field.
    pub fn is_zero(&self) -> (r: bool)
        ensures
            r == (self@ == 0),
    {
        self.limbs[0] == 0 && self.limbs[1] == 0 && self.limbs[2] == 0 && self.limbs[3] == 0
    }

    /// Whether two scalars are the same field element.
    pub fn equals(&self, other: &Scalar) -> (r: bool)
        ensures
            r == (self@ == other@),
    {
        self.limbs[0] == other.limbs[0] && self.limbs[1] == other.limbs[1] && self.limbs[2]
            == other.limbs[2] && self.limbs[3] == other.limbs[3]
    }

    /// The additive inverse.
    pub fn neg(&self) -> (r: Scalar)
        ensures
            r@ == field_neg(self@),
            r.wf(),
    {
        proof {
            use_type_invariant(self);
        }
        negate(*self)
    }

    /// The field element that a little-endian byte string of any length
    /// stands for, reduced modulo the field order.
    pub fn from_le_bytes_mod_order(bytes: &[u8]) -> (r: Scalar)
        ensures
            r@ == le_bytes_value(bytes@) % modulus(),
            r.wf(),
    {
        reduce_le_bytes(bytes)
    }
}

/// `Neg` of `ark_ff::Fp`, on `Fr`: the result is the additive inverse in the
/// field, as the canonical representative that `into_bigint` gives.
#[verifier::external_body]
fn negate(a: Scalar) -> (r: Scalar)
    requires
        a.wf(),
    ensures
        r@ == field_neg(a@),
        r.wf(),
{
    Scalar { limbs: (-Fr::from_bigint(BigInt::new(a.limbs)).unwrap()).into_bigint().0 }
}

/// `PrimeField::from_le_bytes_mod_order` of `ark_ff`, on `Fr`: the bytes are
/// read as one little-endian number, which is reduced modulo the field order.
#[verifier::external_body]
fn reduce_le_bytes(bytes: &[u8]) -> (r: Scalar)
    ensures
        r@ == le_bytes_value(bytes@) % modulus(),
        r.wf(),
{
    Scalar { limbs: Fr::from_le_bytes_mod_order(bytes).into_bigint().0 }
}

} // verus!
