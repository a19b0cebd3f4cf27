//! Polynomials over the scalar field in coefficient form, index `i` holding
//! the coefficient of `x^i`: their product, their value at a point, and the
//! monic polynomial with given roots.

use crate::field_order::lemma_modulus_is_prime;
use crate::primes::vanishes;
use crate::scalar::{field_neg, modulus};
use vstd::arithmetic::div_mod::{
    lemma_add_mod_noop, lemma_mod_add_multiples_vanish, lemma_mod_bound, lemma_mod_self_0,
    lemma_mod_twice, lemma_mul_mod_noop, lemma_small_mod,
};
use vstd::prelude::*;

verus! {

/// The sum of `a[i] * b[k - i]` over the `i` below `upto` for which `b` has
/// an entry at `k - i`.
pub open spec fn product_sum(a: Seq<nat>, b: Seq<nat>, k: int, upto: nat) -> nat
    decreases upto,
{
    if upto == 0 {
        0
    } else {
        let i = upto - 1;
        product_sum(a, b, k, i as nat) + if 0 <= k - i < b.len() {
            a[i] * b[k - i]
        } else {
            0
        }
    }
}

/// The product of two polynomials, coefficient by coefficient; empty where
/// one of them is.
pub open spec fn poly_product(a: Seq<nat>, b: Seq<nat>) -> Seq<nat> {
    if a.len() == 0 || b.len() == 0 {
        Seq::empty()
    } else {
        Seq::new(
            (a.len() + b.len() - 1) as nat,
            |k: int| product_sum(a, b, k, a.len()) % modulus(),
        )
    }
}

/// The coefficients without the zeros at the upper end.
pub open spec fn without_leading_zeros(p: Seq<nat>) -> Seq<nat>
    decreases p.len(),
{
    if p.len() > 0 && p.last() == 0 {
        without_leading_zeros(p.drop_last())
    } else {
        p
    }
}

/// The value of a polynomial at `x`, by Horner's rule.
pub open spec fn poly_eval(coeffs: Seq<nat>, x: nat) -> nat
    decreases coeffs.len(),
{
    if coeffs.len() == 0 {
        0
    } else {
        (coeffs[0] + x * poly_eval(coeffs.drop_first(), x)) % modulus()
    }
}

/// The polynomial `x + c`.
pub open spec fn monic_linear(c: nat) -> Seq<nat> {
    seq![c, 1nat]
}

/// The linear factor `x - root`.
pub open spec fn linear_factor(root: nat) -> Seq<nat> {
    monic_linear(field_neg(root))
}

/// The product of the factors `x - root` over all roots, starting from the
/// constant polynomial 1 and taking in one factor after the other.
pub open spec fn roots_poly(roots: Seq<nat>) -> Seq<nat>
    decreases roots.len(),
{
    if roots.len() == 0 {
        seq![1nat]
    } else {
        poly_product(roots_poly(roots.drop_last()), linear_factor(roots.last()))
    }
}

/// The product of the differences `x - root` over all roots, in the field.
pub open spec fn root_product(roots: Seq<nat>, x: nat) -> nat
    decreases roots.len(),
{
    if roots.len() == 0 {
        1
    } else {
        (root_product(roots.drop_last(), x) * ((x + field_neg(roots.last())) % modulus()))
            % modulus()
    }
}

/// Coefficient `k` of a product with a factor `x + c`, before reduction.
pub open spec fn shifted_sum(p: Seq<nat>, c: nat, k: int) -> nat {
    (if 0 <= k < p.len() {
        p[k] * c
    } else {
        0
    }) + (if 1 <= k <= p.len() {
        p[k - 1]
    } else {
        0
    })
}

/// In a product with `x + c` only two terms of each coefficient's sum are
/// there.
pub proof fn lemma_product_sum_with_linear(p: Seq<nat>, c: nat, k: int, upto: nat)
    requires
        upto <= p.len(),
    ensures
        product_sum(p, monic_linear(c), k, upto) == (if 0 <= k < upto {
            p[k] * c
        } else {
            0
        }) + (if 1 <= k <= upto {
            p[k - 1]
        } else {
            0
        }),
    decreases upto,
{
    let b = monic_linear(c);
    if upto > 0 {
        let i = upto - 1;
        lemma_product_sum_with_linear(p, c, k, i as nat);
        assert(b[0] == c && b[1] == 1 && b.len() == 2);
        if k - i == 1 {
            assert(p[i] * b[1] == p[i]) by (nonlinear_arith)
                requires
                    b[1] == 1,
            ;
        }
    }
}

/// The coefficients of a product with `x + c`.
pub proof fn lemma_product_with_linear(p: Seq<nat>, c: nat)
    requires
        p.len() >= 1,
    ensures
        poly_product(p, monic_linear(c)).len() == p.len() + 1,
        forall|k: int|
            0 <= k <= p.len() ==> (#[trigger] poly_product(p, monic_linear(c))[k]) == shifted_sum(
                p,
                c,
                k,
            ) % modulus(),
{
    assert forall|k: int| 0 <= k <= p.len() implies (#[trigger] poly_product(p, monic_linear(c))[k])
        == shifted_sum(p, c, k) % modulus() by {
        lemma_product_sum_with_linear(p, c, k, p.len());
    }
}

/// A polynomial with leading coefficient 1 stays so under a product with
/// `x + c`, and gains one coefficient.
pub proof fn lemma_monic_product(p: Seq<nat>, c: nat)
    requires
        p.len() >= 1,
        p.last() == 1,
    ensures
        poly_product(p, monic_linear(c)).len() == p.len() + 1,
        poly_product(p, monic_linear(c)).last() == 1,
        without_leading_zeros(poly_product(p, monic_linear(c))) == poly_product(p, monic_linear(c)),
{
    lemma_product_with_linear(p, c);
    let q = poly_product(p, monic_linear(c));
    assert(q[p.len() as int] == shifted_sum(p, c, p.len() as int) % modulus());
}

/// The polynomial with the given roots has one coefficient more than there
/// are roots, and leading coefficient 1.
pub proof fn lemma_roots_poly_is_monic(roots: Seq<nat>)
    ensures
        roots_poly(roots).len() == roots.len() + 1,
        roots_poly(roots).last() == 1,
    decreases roots.len(),
{
    if roots.len() > 0 {
        lemma_roots_poly_is_monic(roots.drop_last());
        lemma_monic_product(roots_poly(roots.drop_last()), field_neg(roots.last()));
    }
}

/// `a` and `b` leave the same remainder modulo the field order.
pub open spec fn congruent(a: int, b: int) -> bool {
    a % (modulus() as int) == b % (modulus() as int)
}

/// A number is congruent to its remainder.
pub proof fn lemma_congruent_remainder(a: int)
    ensures
        congruent(a % (modulus() as int), a),
{
    lemma_mod_twice(a, modulus() as int);
}

/// Sums of congruent numbers are congruent.
pub proof fn lemma_congruent_sum(a: int, a2: int, b: int, b2: int)
    requires
        congruent(a, a2),
        congruent(b, b2),
    ensures
        congruent(a + b, a2 + b2),
{
    lemma_add_mod_noop(a, b, modulus() as int);
    lemma_add_mod_noop(a2, b2, modulus() as int);
}

/// Products of congruent numbers are congruent.
pub proof fn lemma_congruent_product(a: int, a2: int, b: int, b2: int)
    requires
        congruent(a, a2),
        congruent(b, b2),
    ensures
        congruent(a * b, a2 * b2),
{
    lemma_mul_mod_noop(a, b, modulus() as int);
    lemma_mul_mod_noop(a2, b2, modulus() as int);
}

/// The value of a polynomial is congruent to its lowest coefficient plus `x`
/// times the value of the rest.
pub proof fn lemma_eval_unfolds(p: Seq<nat>, x: nat)
    requires
        p.len() >= 1,
    ensures
        congruent(
            poly_eval(p, x) as int,
            (p[0] as int) + (x as int) * (poly_eval(p.drop_first(), x) as int),
        ),
        poly_eval(p, x) < modulus(),
{
    lemma_congruent_remainder((p[0] + x * poly_eval(p.drop_first(), x)) as int);
}

/// The value of a product with `x + c` is the value of the polynomial times
/// the value of the factor.
pub proof fn lemma_eval_product_with_linear(p: Seq<nat>, c: nat, x: nat)
    requires
        p.len() >= 1,
    ensures
        poly_eval(poly_product(p, monic_linear(c)), x) == (poly_eval(p, x) * (c + x))
            % modulus(),
    decreases p.len(),
{
    let m = modulus() as int;
    let q = poly_product(p, monic_linear(c));
    lemma_product_with_linear(p, c);
    let s = q.drop_first();
    let rest = p.drop_first();
    let p0 = p[0] as int;
    let xi = x as int;
    let ci = c as int;
    let eq = poly_eval(q, x) as int;
    let es = poly_eval(s, x) as int;
    let ep = poly_eval(p, x) as int;
    let er = poly_eval(rest, x) as int;
    assert(q[0] == shifted_sum(p, c, 0) % modulus());
    assert(q[1] == shifted_sum(p, c, 1) % modulus());
    lemma_eval_unfolds(q, x);
    lemma_eval_unfolds(s, x);
    lemma_eval_unfolds(p, x);
    // the lowest coefficient of the product
    assert(congruent(q[0] as int, p0 * ci)) by {
        lemma_congruent_remainder(p0 * ci);
    }
    // the value of the product, through the value of what follows its lowest
    // coefficient
    assert(congruent(eq, p0 * ci + xi * es)) by {
        lemma_congruent_product(xi, xi, es, es);
        lemma_congruent_sum(q[0] as int, p0 * ci, xi * es, xi * es);
    }
    if p.len() == 1 {
        assert(s.drop_first().len() == 0);
        assert(rest.len() == 0);
        assert(xi * poly_eval(s.drop_first(), x) == 0) by (nonlinear_arith)
            requires
                poly_eval(s.drop_first(), x) == 0,
        ;
        assert(xi * er == 0) by (nonlinear_arith)
            requires
                er == 0,
        ;
        assert(s[0] == q[1]);
        assert(congruent(es, p0)) by {
            lemma_congruent_remainder(p0);
        }
        assert(congruent(ep, p0));
        assert(congruent(eq, p0 * ci + xi * p0)) by {
            lemma_congruent_product(xi, xi, es, p0);
            lemma_congruent_sum(p0 * ci, p0 * ci, xi * es, xi * p0);
        }
        assert(congruent(ep * (ci + xi), p0 * (ci + xi))) by {
            lemma_congruent_product(ep, p0, ci + xi, ci + xi);
        }
        assert(p0 * ci + xi * p0 == p0 * (ci + xi)) by (nonlinear_arith);
    } else {
        let q2 = poly_product(rest, monic_linear(c));
        lemma_product_with_linear(rest, c);
        lemma_eval_product_with_linear(rest, c, x);
        lemma_eval_unfolds(q2, x);
        let p1c = (p[1] * c) as int;
        let t = poly_eval(s.drop_first(), x) as int;
        let eq2 = poly_eval(q2, x) as int;
        assert(s.drop_first() =~= q2.drop_first()) by {
            assert forall|k: int| 0 <= k < s.drop_first().len() implies s.drop_first()[k]
                == q2.drop_first()[k] by {
                assert(s.drop_first()[k] == q[k + 2]);
                assert(q2.drop_first()[k] == q2[k + 1]);
                assert(q[k + 2] == shifted_sum(p, c, k + 2) % modulus());
                assert(q2[k + 1] == shifted_sum(rest, c, k + 1) % modulus());
                assert(rest[k] == p[k + 1]);
                if k + 1 < rest.len() {
                    assert(rest[k + 1] == p[k + 2]);
                }
            }
        }
        assert(s[0] == q[1]);
        assert(rest[0] == p[1]);
        assert(q2[0] == shifted_sum(rest, c, 0) % modulus());
        // what follows the lowest coefficient of the product is the product
        // of what follows the lowest coefficient of the polynomial, with
        // that coefficient added to its own lowest
        assert(congruent(es, p1c + p0 + xi * t)) by {
            lemma_congruent_remainder(p1c + p0);
            lemma_congruent_sum(s[0] as int, p1c + p0, xi * t, xi * t);
        }
        assert(congruent(eq2, p1c + xi * t)) by {
            lemma_congruent_remainder(p1c);
            lemma_congruent_sum(q2[0] as int, p1c, xi * t, xi * t);
        }
        assert(congruent(es, eq2 + p0)) by {
            lemma_congruent_sum(eq2, p1c + xi * t, p0, p0);
        }
        assert(congruent(eq2, er * (ci + xi))) by {
            lemma_congruent_remainder(er * (ci + xi));
        }
        assert(congruent(es, er * (ci + xi) + p0)) by {
            lemma_congruent_sum(eq2, er * (ci + xi), p0, p0);
        }
        assert(congruent(eq, p0 * ci + xi * (er * (ci + xi) + p0))) by {
            lemma_congruent_product(xi, xi, es, er * (ci + xi) + p0);
            lemma_congruent_sum(p0 * ci, p0 * ci, xi * es, xi * (er * (ci + xi) + p0));
        }
        assert(congruent(ep * (ci + xi), (p0 + xi * er) * (ci + xi))) by {
            lemma_congruent_product(ep, p0 + xi * er, ci + xi, ci + xi);
        }
        assert(p0 * ci + xi * (er * (ci + xi) + p0) == (p0 + xi * er) * (ci + xi))
            by (nonlinear_arith);
    }
    assert(congruent(eq, ep * (ci + xi)));
    lemma_small_mod(eq as nat, modulus());
}

/// The polynomial with the given roots takes, at any point, the product of
/// the point's differences from the roots.
pub proof fn lemma_roots_poly_evaluates_to_product(roots: Seq<nat>, x: nat)
    ensures
        poly_eval(roots_poly(roots), x) == root_product(roots, x),
    decreases roots.len(),
{
    let m = modulus() as int;
    if roots.len() == 0 {
        let one = seq![1nat];
        assert(one.drop_first().len() == 0);
        assert(x * poly_eval(one.drop_first(), x) == 0) by (nonlinear_arith)
            requires
                poly_eval(one.drop_first(), x) == 0,
        ;
        lemma_small_mod(1, modulus());
    } else {
        let fewer = roots.drop_last();
        let c = field_neg(roots.last());
        lemma_roots_poly_evaluates_to_product(fewer, x);
        lemma_roots_poly_is_monic(fewer);
        lemma_eval_product_with_linear(roots_poly(fewer), c, x);
        let e = root_product(fewer, x) as int;
        let d = (x + c) as int;
        lemma_congruent_remainder(d);
        lemma_congruent_product(e, e, d % m, d);
        assert(d == c + x);
    }
}

/// At one of its roots the polynomial takes the value zero.
pub proof fn lemma_root_product_vanishes(roots: Seq<nat>, x: nat, at: int)
    requires
        0 <= at < roots.len(),
        roots[at] == x,
        x < modulus(),
    ensures
        root_product(roots, x) == 0,
    decreases roots.len(),
{
    let m = modulus() as int;
    let fewer = roots.drop_last();
    let e = root_product(fewer, x) as int;
    let f = ((x + field_neg(roots.last())) as int) % m;
    if at == roots.len() - 1 {
        if x == 0 {
            lemma_small_mod(0, modulus());
        } else {
            lemma_small_mod((modulus() - x) as nat, modulus());
            lemma_mod_self_0(m);
        }
        assert(f == 0);
        assert(e * f == 0) by (nonlinear_arith)
            requires
                f == 0,
        ;
    } else {
        lemma_root_product_vanishes(fewer, x, at);
        assert(e * f == 0) by (nonlinear_arith)
            requires
                e == 0,
        ;
    }
    lemma_small_mod(0, modulus());
}

/// The difference of two distinct reduced scalars is not zero.
pub proof fn lemma_difference_is_nonzero(x: nat, root: nat)
    requires
        x < modulus(),
        root < modulus(),
        x != root,
    ensures
        (x + field_neg(root)) % modulus() != 0,
{
    let m = modulus() as int;
    if root == 0 {
        lemma_small_mod(0, modulus());
        lemma_mod_self_0(m);
        lemma_small_mod(x, modulus());
    } else {
        lemma_small_mod((modulus() - root) as nat, modulus());
        if x < root {
            lemma_small_mod((x + modulus() - root) as nat, modulus());
        } else {
            lemma_small_mod((x - root) as nat, modulus());
            lemma_mod_add_multiples_vanish(x - root, m);
        }
    }
}

/// At a point that is none of its roots the polynomial does not take the
/// value zero: the field has no zero divisors.
pub proof fn lemma_root_product_is_nonzero(roots: Seq<nat>, x: nat)
    requires
        x < modulus(),
        forall|i: int| 0 <= i < roots.len() ==> (#[trigger] roots[i]) < modulus(),
        !roots.contains(x),
    ensures
        root_product(roots, x) != 0,
        root_product(roots, x) < modulus(),
    decreases roots.len(),
{
    if roots.len() > 0 {
        let fewer = roots.drop_last();
        let root = roots.last();
        assert(roots[roots.len() - 1] == root);
        assert(!fewer.contains(x)) by {
            if fewer.contains(x) {
                let i = choose|i: int| 0 <= i < fewer.len() && fewer[i] == x;
                assert(roots[i] == x);
            }
        }
        assert forall|i: int| 0 <= i < fewer.len() implies (#[trigger] fewer[i]) < modulus() by {
            assert(fewer[i] == roots[i]);
        }
        lemma_root_product_is_nonzero(fewer, x);
        let e = root_product(fewer, x);
        let f = (x + field_neg(root)) % modulus();
        lemma_difference_is_nonzero(x, root);
        lemma_mod_bound((x + field_neg(root)) as int, modulus() as int);
        lemma_mod_bound((e * f) as int, modulus() as int);
        lemma_small_mod(e, modulus());
        lemma_small_mod(f, modulus());
        lemma_modulus_is_prime();
        assert(vanishes(e, f, modulus()) ==> e % modulus() == 0 || f % modulus() == 0);
    }
}

/// Coefficient `k` of a polynomial, zero beyond its ends.
pub open spec fn coefficient(p: Seq<nat>, k: int) -> nat {
    if 0 <= k < p.len() {
        p[k]
    } else {
        0
    }
}

/// Coefficient `k` of a product with `x + c`, at any `k`, is congruent to
/// `c` times coefficient `k` plus coefficient `k - 1`.
pub proof fn lemma_coefficient_of_product(p: Seq<nat>, c: nat, k: int)
    requires
        p.len() >= 1,
    ensures
        congruent(
            coefficient(poly_product(p, monic_linear(c)), k) as int,
            (coefficient(p, k) * c + coefficient(p, k - 1)) as int,
        ),
        coefficient(poly_product(p, monic_linear(c)), k) < modulus(),
{
    lemma_product_with_linear(p, c);
    let q = poly_product(p, monic_linear(c));
    if 0 <= k <= p.len() {
        assert(q[k] == shifted_sum(p, c, k) % modulus());
        lemma_congruent_remainder(shifted_sum(p, c, k) as int);
        lemma_mod_bound(shifted_sum(p, c, k) as int, modulus() as int);
    } else {
        assert(coefficient(p, k) * c == 0) by (nonlinear_arith)
            requires
                coefficient(p, k) == 0,
        ;
    }
}

/// Two factors `x + c` and `x + d` may be taken in either order.
pub proof fn lemma_linear_factors_commute(p: Seq<nat>, c: nat, d: nat)
    requires
        p.len() >= 1,
    ensures
        poly_product(poly_product(p, monic_linear(c)), monic_linear(d)) == poly_product(
            poly_product(p, monic_linear(d)),
            monic_linear(c),
        ),
{
    let q = poly_product(p, monic_linear(c));
    let q2 = poly_product(p, monic_linear(d));
    let u = poly_product(q, monic_linear(d));
    let u2 = poly_product(q2, monic_linear(c));
    lemma_product_with_linear(p, c);
    lemma_product_with_linear(p, d);
    lemma_product_with_linear(q, d);
    lemma_product_with_linear(q2, c);
    assert forall|k: int| 0 <= k < u.len() implies u[k] == u2[k] by {
        let a0 = coefficient(p, k) as int;
        let a1 = coefficient(p, k - 1) as int;
        let a2 = coefficient(p, k - 2) as int;
        let (ci, di) = (c as int, d as int);
        lemma_coefficient_of_product(q, d, k);
        lemma_coefficient_of_product(p, c, k);
        lemma_coefficient_of_product(p, c, k - 1);
        lemma_congruent_product(coefficient(q, k) as int, a0 * ci + a1, di, di);
        lemma_congruent_sum(
            coefficient(q, k) * di,
            (a0 * ci + a1) * di,
            coefficient(q, k - 1) as int,
            a1 * ci + a2,
        );
        lemma_coefficient_of_product(q2, c, k);
        lemma_coefficient_of_product(p, d, k);
        lemma_coefficient_of_product(p, d, k - 1);
        lemma_congruent_product(coefficient(q2, k) as int, a0 * di + a1, ci, ci);
        lemma_congruent_sum(
            coefficient(q2, k) * ci,
            (a0 * di + a1) * ci,
            coefficient(q2, k - 1) as int,
            a1 * di + a2,
        );
        assert((a0 * ci + a1) * di + (a1 * ci + a2) == (a0 * di + a1) * ci + (a1 * di + a2))
            by (nonlinear_arith);
        lemma_small_mod(u[k], modulus());
        lemma_small_mod(u2[k], modulus());
    }
    assert(u =~= u2);
}

/// Any one root may be taken as the last.
pub proof fn lemma_roots_move_to_end(roots: Seq<nat>, at: int)
    requires
        0 <= at < roots.len(),
    ensures
        roots_poly(roots) == roots_poly(roots.remove(at).push(roots[at])),
    decreases roots.len(),
{
    let moved = roots.remove(at).push(roots[at]);
    if at == roots.len() - 1 {
        assert(moved =~= roots);
    } else {
        let rest = roots.drop_last();
        let last = roots.last();
        let x = roots[at];
        lemma_roots_move_to_end(rest, at);
        let fewer = rest.remove(at);
        let base = roots_poly(fewer);
        assert(rest[at] == x);
        assert(fewer.push(x).drop_last() =~= fewer);
        assert(fewer.push(last).drop_last() =~= fewer);
        assert(fewer.push(last) =~= roots.remove(at));
        assert(moved.drop_last() =~= fewer.push(last));
        assert(roots_poly(roots) == poly_product(roots_poly(rest), linear_factor(last)));
        assert(roots_poly(fewer.push(x)) == poly_product(base, linear_factor(x)));
        assert(roots_poly(fewer.push(last)) == poly_product(base, linear_factor(last)));
        assert(roots_poly(moved) == poly_product(
            roots_poly(moved.drop_last()),
            linear_factor(moved.last()),
        ));
        lemma_roots_poly_is_monic(fewer);
        lemma_linear_factors_commute(base, field_neg(x), field_neg(last));
    }
}

/// The polynomial does not depend on the order of its roots.
pub proof fn lemma_roots_poly_of_permutation(first: Seq<nat>, second: Seq<nat>)
    requires
        first.to_multiset() == second.to_multiset(),
    ensures
        roots_poly(first) == roots_poly(second),
    decreases second.len(),
{
    first.to_multiset_ensures();
    second.to_multiset_ensures();
    if second.len() > 0 {
        let x = second.last();
        let fewer = second.drop_last();
        assert(fewer.push(x) =~= second);
        fewer.to_multiset_ensures();
        assert(second.to_multiset().count(x) > 0);
        assert(first.contains(x));
        let at = choose|i: int| 0 <= i < first.len() && first[i] == x;
        let rest = first.remove(at);
        assert(rest.to_multiset() =~= fewer.to_multiset()) by {
            assert(fewer.push(x).to_multiset() =~= fewer.to_multiset().insert(x));
            assert(fewer.to_multiset().insert(x).remove(x) =~= fewer.to_multiset());
        }
        lemma_roots_poly_of_permutation(rest, fewer);
        lemma_roots_move_to_end(first, at);
        assert(rest.push(x).drop_last() =~= rest);
    } else {
        assert(first =~= second);
    }
}

} // verus!
