//! The accumulator: a running group element into which the commitment to a
//! set of roots is folded, under a challenge hashed from the previous value
//! and the commitment.

use crate::commit;
use crate::commit_spec;
use crate::error::Error;
use crate::generators::GeneratorTable;
use crate::group::{group_add, group_scale, group_sub, identity_encoding, GroupElement};
use crate::laws::{
    all_reduced, law_fold_from_identity, law_non_member_is_shown, law_root_is_member,
};
use crate::polynomial::{
    lemma_monic_product, linear_factor, poly_eval, poly_product, roots_poly,
    without_leading_zeros,
};
use crate::scalar::{le_bytes_value, modulus, values_of, Scalar};
use ark_bls12_377::Fr;
use ark_ff::{BigInt, PrimeField};
use ark_poly::univariate::DensePolynomial;
use ark_poly::{DenseUVPolynomial, Polynomial as _};
use sha2::{Digest, Sha256};
use vstd::prelude::*;

verus! {

/// The largest number of roots that one polynomial is built from: the
/// product of polynomials works on a domain of at most 2^47 points. It is
/// two less than `MAX_GENERATORS`, so the polynomial of more roots fits no
/// table.
pub const MAX_ROOTS: u64 = 0x7fff_ffff_fffe;

/// The SHA-256 digest of a byte string, 32 bytes.
pub uninterp spec fn sha256(bytes: Seq<u8>) -> Seq<u8>;

/// The challenge that binds a commitment to the previous accumulator value:
/// the digest of the two encodings, one after the other, read as a
/// little-endian number and reduced modulo the field order.
pub open spec fn challenge_spec(previous: Seq<u8>, commitment: Seq<u8>) -> nat {
    le_bytes_value(sha256(previous + commitment)) % modulus()
}

/// The accumulator value after `commitment` has been folded into `previous`.
pub open spec fn fold_spec(previous: Seq<u8>, commitment: Seq<u8>) -> Seq<u8> {
    group_add(group_scale(previous, challenge_spec(previous, commitment)), commitment)
}

/// A polynomial over the scalar field. The view is the sequence of the
/// coefficients' canonical representatives.
#[derive(Debug, PartialEq, Eq)]
pub struct Polynomial {
    /// Entry `i` is the coefficient of `x^i`.
    pub coeffs: Vec<Scalar>,
}

impl View for Polynomial {
    type V = Seq<nat>;

    open spec fn view(&self) -> Seq<nat> {
        values_of(self.coeffs@)
    }
}

/// One step of the accumulator.
#[allow(non_snake_case)]
#[derive(Clone, Copy, Debug, PartialEq, Eq)]
pub struct State {
    /// The running value after the step.
    pub Accumulator: GroupElement,
    /// The commitment to the roots of the step.
    pub Commitment: GroupElement,
}

/// The value of the polynomial with the given coefficients at `v`.
pub fn evaluate_poly(coeffs: &[Scalar], v: Scalar) -> (r: Scalar)
    ensures
        r@ == poly_eval(values_of(coeffs@), v@),
        r.wf(),
{
    poly_evaluate(coeffs, v)
}

/// The monic polynomial whose roots are `roots`, each as often as it is
/// listed.
pub fn poly_from_roots(roots: &[Scalar]) -> (poly: Polynomial)
    requires
        roots@.len() <= MAX_ROOTS,
    ensures
        poly@ == roots_poly(values_of(roots@)),
        poly@.len() == roots@.len() + 1,
        poly@.last() == 1,
        all_reduced(values_of(roots@)),
{
    let one = Scalar::one();
    let ghost all = values_of(roots@);
    let mut coeffs: Vec<Scalar> = Vec::new();
    coeffs.push(one);
    let mut i: usize = 0;
    assert(all.take(0) =~= Seq::empty());
    assert(values_of(coeffs@) =~= seq![1nat]);
    while i < roots.len()
        invariant
            i <= roots@.len() <= MAX_ROOTS,
            one@ == 1,
            all == values_of(roots@),
            coeffs@.len() == i + 1,
            values_of(coeffs@) == roots_poly(all.take(i as int)),
            values_of(coeffs@).last() == 1,
            forall|k: int| 0 <= k < i ==> (#[trigger] all[k]) < modulus(),
        decreases roots@.len() - i,
    {
        let root = roots[i];
        proof {
            use_type_invariant(&root);
        }
        let neg_root = root.neg();
        let mut linear: Vec<Scalar> = Vec::new();
        linear.push(neg_root);
        linear.push(one);
        proof {
            assert(all.take(i + 1).drop_last() =~= all.take(i as int));
            assert(all.take(i + 1).last() == roots@[i as int]@);
            assert(values_of(linear@) =~= linear_factor(roots@[i as int]@));
            lemma_monic_product(values_of(coeffs@), neg_root@);
        }
        coeffs = poly_mul(&coeffs, &linear);
        i += 1;
    }
    assert(all.take(roots@.len() as int) =~= all);
    Polynomial { coeffs }
}

/// The challenge for folding `p2` into `p1`.
pub fn hash_points_to_fr(p1: &GroupElement, p2: &GroupElement) -> (r: Scalar)
    ensures
        r@ == challenge_spec(p1@, p2@),
        r.wf(),
{
    let first = p1.to_bytes();
    let second = p2.to_bytes();
    let mut buf: Vec<u8> = Vec::new();
    let mut i: usize = 0;
    while i < 48
        invariant
            i <= 48,
            first@.len() == 48,
            buf@ == first@.take(i as int),
        decreases 48 - i,
    {
        buf.push(first[i]);
        assert(buf@ =~= first@.take(i + 1));
        i += 1;
    }
    assert(first@.take(48) =~= first@);
    let mut j: usize = 0;
    while j < 48
        invariant
            j <= 48,
            second@.len() == 48,
            buf@ == first@ + second@.take(j as int),
        decreases 48 - j,
    {
        buf.push(second[j]);
        assert(buf@ =~= first@ + second@.take(j + 1));
        j += 1;
    }
    assert(second@.take(48) =~= second@);
    let hash_bytes = digest(buf.as_slice());
    Scalar::from_le_bytes_mod_order(&hash_bytes)
}

/// Folds `commitment` into `previous`: the challenge times the previous
/// value, plus the commitment.
pub fn fold(previous: &GroupElement, commitment: &GroupElement) -> (next: GroupElement)
    ensures
        next@ == fold_spec(previous@, commitment@),
        next.wf(),
{
    let h = hash_points_to_fr(previous, commitment);
    previous.times(&h).plus(commitment)
}

/// Whether `v` is one of `roots`.
fn is_root(roots: &[Scalar], v: &Scalar) -> (r: bool)
    ensures
        r == values_of(roots@).contains(v@),
{
    let mut k: usize = 0;
    while k < roots.len()
        invariant
            k <= roots@.len(),
            forall|m: int| 0 <= m < k ==> values_of(roots@)[m] != v@,
        decreases roots@.len() - k,
    {
        if roots[k].equals(v) {
            assert(values_of(roots@)[k as int] == v@);
            return true;
        }
        k += 1;
    }
    false
}

/// Commits to the polynomial with the given roots and folds the commitment
/// into `a_prev`. There must be two roots fewer than generators, so that the
/// polynomial has one coefficient for each generator but the first. Folded
/// into the neutral element, the commitment is the new value itself.
pub fn insert(table: &GeneratorTable, roots: &[Scalar], a_prev: GroupElement, r: Scalar) -> (result:
    Result<State, Error>)
    ensures
        match result {
            Ok(state) => {
                &&& roots@.len() + 2 == table@.len()
                &&& state.Commitment@ == commit_spec(table@, roots_poly(values_of(roots@)), r@)
                &&& state.Accumulator@ == fold_spec(a_prev@, state.Commitment@)
                &&& a_prev@ == identity_encoding() ==> state.Accumulator@ == state.Commitment@
            },
            Err(e) => roots@.len() + 2 != table@.len() && e == Error::LengthMismatch,
        },
{
    if roots.len() as u64 > MAX_ROOTS {
        proof {
            use_type_invariant(table);
        }
        return Err(Error::LengthMismatch);
    }
    let poly = poly_from_roots(roots);
    let p_i = match commit(table, poly.coeffs.as_slice(), r) {
        Ok(p) => p,
        Err(e) => {
            return Err(e);
        },
    };
    let next = fold(&a_prev, &p_i);
    proof {
        law_fold_from_identity(p_i@);
    }
    Ok(State { Accumulator: next, Commitment: p_i })
}

/// Shows that `v` is none of `roots`: the polynomial with these roots does
/// not vanish at `v`. Then commits to the polynomial and folds the
/// commitment, less the polynomial's value at `v` times the blinding
/// generator, into `s_prev`. The state holds the commitment itself. A
/// candidate among the roots is refused before the number of roots is
/// looked at; where there are more roots than any table has room for, it is
/// looked for among them one by one.
pub fn check_non_membership(
    table: &GeneratorTable,
    roots: &[Scalar],
    v: Scalar,
    r: Scalar,
    s_prev: GroupElement,
) -> (result: Result<State, Error>)
    ensures
        match result {
            Ok(state) => {
                &&& !values_of(roots@).contains(v@)
                &&& roots@.len() + 2 == table@.len()
                &&& state.Commitment@ == commit_spec(table@, roots_poly(values_of(roots@)), r@)
                &&& state.Accumulator@ == fold_spec(
                    s_prev@,
                    group_sub(
                        state.Commitment@,
                        group_scale(table@[0], poly_eval(roots_poly(values_of(roots@)), v@)),
                    ),
                )
            },
            Err(e) => {
                if values_of(roots@).contains(v@) {
                    e == Error::CandidateIsMember
                } else {
                    e == Error::LengthMismatch && roots@.len() + 2 != table@.len()
                }
            },
        },
{
    if roots.len() as u64 > MAX_ROOTS {
        proof {
            use_type_invariant(table);
        }
        if is_root(roots, &v) {
            return Err(Error::CandidateIsMember);
        }
        return Err(Error::LengthMismatch);
    }
    let poly = poly_from_roots(roots);
    let alpha = evaluate_poly(poly.coeffs.as_slice(), v);
    proof {
        use_type_invariant(&v);
        if values_of(roots@).contains(v@) {
            law_root_is_member(values_of(roots@), v@);
        } else {
            law_non_member_is_shown(values_of(roots@), v@);
        }
    }
    if alpha.is_zero() {
        return Err(Error::CandidateIsMember);
    }
    let p_i = match commit(table, poly.coeffs.as_slice(), r) {
        Ok(p) => p,
        Err(e) => {
            return Err(e);
        },
    };
    let p_i_prime = p_i.minus(&table.get(0).times(&alpha));
    let next = fold(&s_prev, &p_i_prime);
    Ok(State { Accumulator: next, Commitment: p_i })
}

/// `Mul` of `ark_poly`'s `DensePolynomial`, on polynomials made by
/// `from_coefficients_vec`: the product, without zeros at the upper end.
/// Every scalar is reduced, so `from_bigint` gives a field element.
#[verifier::external_body]
fn poly_mul(a: &Vec<Scalar>, b: &Vec<Scalar>) -> (r: Vec<Scalar>)
    requires
        a@.len() + b@.len() <= 0x8000_0000_0000,
    ensures
        values_of(r@) == without_leading_zeros(poly_product(values_of(a@), values_of(b@))),
        forall|i: int| 0 <= i < r@.len() ==> (#[trigger] r@[i]).wf(),
{
    let x = DensePolynomial::from_coefficients_vec(
        a.iter().map(|s| Fr::from_bigint(BigInt::new(s.limbs)).unwrap()).collect(),
    );
    let y = DensePolynomial::from_coefficients_vec(
        b.iter().map(|s| Fr::from_bigint(BigInt::new(s.limbs)).unwrap()).collect(),
    );
    (&x * &y).coeffs.iter().map(|c| Scalar { limbs: c.into_bigint().0 }).collect()
}

/// `Polynomial::evaluate` of `ark_poly`'s `DensePolynomial`, on the
/// polynomial that `from_coefficients_vec` makes of the coefficients: its
/// value at the point, which Horner's rule gives.
#[verifier::external_body]
fn poly_evaluate(coeffs: &[Scalar], point: Scalar) -> (r: Scalar)
    ensures
        r@ == poly_eval(values_of(coeffs@), point@),
        r.wf(),
{
    let p = DensePolynomial::from_coefficients_vec(
        coeffs.iter().map(|s| Fr::from_bigint(BigInt::new(s.limbs)).unwrap()).collect(),
    );
    let x = Fr::from_bigint(BigInt::new(point.limbs)).unwrap();
    Scalar { limbs: p.evaluate(&x).into_bigint().0 }
}

/// `Sha256` of `sha2`: `new`, `update` with the bytes, `finalize`.
#[verifier::external_body]
fn digest(bytes: &[u8]) -> (r: [u8; 32])
    ensures
        r@ == sha256(bytes@),
{
    let mut hasher = Sha256::new();
    hasher.update(bytes);
    hasher.finalize().into()
}

} // verus!
