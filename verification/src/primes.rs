//! Prime moduli: powers modulo a number, and the test of Lucas, by which a
//! number `n` is prime once some `g` has order `n - 1` modulo `n`.

use vstd::arithmetic::div_mod::{
    lemma_add_mod_noop, lemma_fundamental_div_mod, lemma_fundamental_div_mod_converse,
    lemma_mod_bound, lemma_mod_multiples_basic, lemma_mod_self_0, lemma_mul_mod_noop,
    lemma_mul_mod_noop_left, lemma_mul_mod_noop_right, lemma_small_mod,
};
use vstd::arithmetic::mul::{
    lemma_mul_is_associative, lemma_mul_is_commutative, lemma_mul_is_distributive_add,
};
use vstd::prelude::*;
use vstd::relations::injective_on;
use vstd::set_lib::{lemma_int_range, lemma_map_size, lemma_subset_equality, set_int_range};

verus! {

/// `b` to the power `e`, modulo `n`.
pub open spec fn power(b: nat, e: nat, n: nat) -> nat
    decreases e,
{
    if e == 0 {
        1
    } else {
        (power(b, (e - 1) as nat, n) * b) % n
    }
}

/// The product of `a` and `b` is a multiple of `n`.
pub open spec fn vanishes(a: nat, b: nat, n: nat) -> bool {
    (a * b) % n == 0
}

/// `n` is prime, in the form in which it is used: a product is a multiple of
/// `n` only where one of its factors is.
pub open spec fn is_prime_modulus(n: nat) -> bool {
    n >= 2 && forall|a: nat, b: nat| #[trigger] vanishes(a, b, n) ==> a % n == 0 || b % n == 0
}

/// The product of the entries of a sequence.
pub open spec fn product(factors: Seq<nat>) -> nat
    decreases factors.len(),
{
    if factors.len() == 0 {
        1
    } else {
        product(factors.drop_last()) * factors.last()
    }
}

/// The greatest common divisor, by Euclid's algorithm.
pub open spec fn gcd(a: nat, b: nat) -> nat
    decreases b,
{
    if b == 0 {
        a
    } else {
        gcd(b, a % b)
    }
}

/// Every entry is a prime modulus.
pub open spec fn all_prime(factors: Seq<nat>) -> bool {
    forall|i: int| 0 <= i < factors.len() ==> is_prime_modulus(#[trigger] factors[i])
}

/// `g` to the power `n - 1` is 1 modulo `n`, but not `g` to the power
/// `(n - 1) / q` for any `q` of the list.
pub open spec fn has_full_order(n: nat, g: nat, factors: Seq<nat>) -> bool {
    &&& power(g, (n - 1) as nat, n) == 1
    &&& forall|i: int|
        0 <= i < factors.len() ==> power(g, ((n - 1) / (#[trigger] factors[i] as int)) as nat, n)
            != 1
}

/// A power modulo `n` is below `n`.
pub proof fn lemma_power_is_reduced(b: nat, e: nat, n: nat)
    requires
        n >= 2,
    ensures
        power(b, e, n) < n,
{
    if e > 0 {
        lemma_mod_bound((power(b, (e - 1) as nat, n) * b) as int, n as int);
    }
}

/// Powers multiply as their exponents add.
pub proof fn lemma_power_adds(b: nat, e1: nat, e2: nat, n: nat)
    requires
        n >= 2,
    ensures
        power(b, e1 + e2, n) == (power(b, e1, n) * power(b, e2, n)) % n,
    decreases e2,
{
    let m = n as int;
    let p1 = power(b, e1, n) as int;
    lemma_power_is_reduced(b, e1, n);
    let p2 = power(b, e2, n) as int;
    if e2 == 0 {
        lemma_small_mod(p1 as nat, n);
        assert(p1 * p2 == p1) by (nonlinear_arith)
            requires
                p2 == 1,
        ;
    } else {
        let q = power(b, (e2 - 1) as nat, n) as int;
        let bi = b as int;
        lemma_power_adds(b, e1, (e2 - 1) as nat, n);
        assert((e1 + e2 - 1) as nat == e1 + (e2 - 1) as nat);
        assert(power(b, e1 + e2, n) == (((p1 * q) % m) * bi) % m);
        assert(p2 == (q * bi) % m);
        lemma_mul_mod_noop_left(p1 * q, bi, m);
        lemma_mul_mod_noop_right(p1, q * bi, m);
        lemma_mul_is_associative(p1, q, bi);
        assert((p1 * p2) % m == (p1 * (q * bi)) % m);
        assert((((p1 * q) % m) * bi) % m == ((p1 * q) * bi) % m);
    }
}

/// Every power of 1 is 1.
pub proof fn lemma_power_of_one(e: nat, n: nat)
    requires
        n >= 2,
    ensures
        power(1, e, n) == 1,
    decreases e,
{
    if e > 0 {
        lemma_power_of_one((e - 1) as nat, n);
        lemma_small_mod(1, n);
    }
}

/// A power of a power is the power by the product of the exponents.
pub proof fn lemma_power_of_power(b: nat, e: nat, k: nat, n: nat)
    requires
        n >= 2,
    ensures
        power(power(b, e, n), k, n) == power(b, e * k, n),
    decreases k,
{
    if k == 0 {
        assert(e * k == 0) by (nonlinear_arith)
            requires
                k == 0,
        ;
    } else {
        lemma_power_of_power(b, e, (k - 1) as nat, n);
        lemma_power_adds(b, e * ((k - 1) as nat), e, n);
        assert(e * ((k - 1) as nat) + e == e * k) by {
            lemma_mul_is_distributive_add(e as int, k - 1, 1);
        }
    }
}

/// Where a power is 1, so is the power by any multiple of the exponent.
pub proof fn lemma_power_by_multiple(b: nat, e: nat, k: nat, n: nat)
    requires
        n >= 2,
        power(b, e, n) == 1,
    ensures
        power(b, e * k, n) == 1,
{
    lemma_power_of_power(b, e, k, n);
    lemma_power_of_one(k, n);
}

/// From a power to the power by twice the exponent: `h * h` leaves `v`.
pub proof fn lemma_power_doubles(b: nat, e: nat, n: nat, h: nat, q: nat, v: nat)
    requires
        n >= 2,
        power(b, e, n) == h,
        h * h == q * n + v,
        v < n,
    ensures
        power(b, 2 * e, n) == v,
{
    lemma_power_adds(b, e, e, n);
    lemma_fundamental_div_mod_converse((h * h) as int, n as int, q as int, v as int);
}

/// From a power to the power by the next exponent: `h * b` leaves `v`.
pub proof fn lemma_power_steps(b: nat, e: nat, n: nat, h: nat, q: nat, v: nat)
    requires
        n >= 2,
        power(b, e, n) == h,
        h * b == q * n + v,
        v < n,
    ensures
        power(b, e + 1, n) == v,
{
    lemma_fundamental_div_mod_converse((h * b) as int, n as int, q as int, v as int);
}

/// The greatest common divisor divides both numbers.
pub proof fn lemma_gcd_divides(a: nat, b: nat)
    requires
        a > 0 || b > 0,
    ensures
        gcd(a, b) > 0,
        a % gcd(a, b) == 0,
        b % gcd(a, b) == 0,
    decreases b,
{
    if b == 0 {
        lemma_mod_self_0(a as int);
        lemma_small_mod(0, a);
    } else {
        let r = a % b;
        let d = gcd(b, r);
        lemma_gcd_divides(b, r);
        lemma_fundamental_div_mod(a as int, b as int);
        let k = (a / b) as int;
        lemma_mul_mod_noop_left(b as int, k, d as int);
        assert((0 * k) % (d as int) == 0) by {
            lemma_small_mod(0, d);
        }
        lemma_add_mod_noop(b * k, r as int, d as int);
        lemma_small_mod(0, d);
    }
}

/// Where two powers of `g` are 1, so is the power by the greatest common
/// divisor of the exponents.
pub proof fn lemma_gcd_power(g: nat, x: nat, y: nat, n: nat)
    requires
        n >= 2,
        power(g, x, n) == 1,
        power(g, y, n) == 1,
    ensures
        power(g, gcd(x, y), n) == 1,
    decreases y,
{
    if y > 0 {
        let r = x % y;
        let k = x / y;
        lemma_fundamental_div_mod(x as int, y as int);
        lemma_power_by_multiple(g, y, k, n);
        lemma_power_adds(g, y * k, r, n);
        lemma_power_is_reduced(g, r, n);
        lemma_small_mod(power(g, r, n), n);
        assert(1 * power(g, r, n) == power(g, r, n));
        lemma_gcd_power(g, y, r, n);
    }
}

/// A divisor, other than 1, of a product of primes is a multiple of one of
/// them.
pub proof fn lemma_divisor_has_factor(factors: Seq<nat>, m: nat)
    requires
        all_prime(factors),
        m > 1,
        product(factors) % m == 0,
    ensures
        exists|i: int| 0 <= i < factors.len() && m % #[trigger] factors[i] == 0,
    decreases factors.len(),
{
    if factors.len() == 0 {
        lemma_small_mod(1, m);
    } else {
        let q = factors.last();
        let fewer = factors.drop_last();
        let rest = product(fewer);
        let last = factors.len() - 1;
        assert(is_prime_modulus(factors[last]));
        let k = (rest * q) / m;
        lemma_fundamental_div_mod((rest * q) as int, m as int);
        assert(rest * q == m * k);
        lemma_mod_multiples_basic(rest as int, q as int);
        assert(vanishes(m, k, q));
        if m % q == 0 {
            assert(m % factors[last] == 0);
        } else {
            let k2 = k / q;
            lemma_fundamental_div_mod(k as int, q as int);
            assert(k == q * k2);
            assert(rest == m * k2) by (nonlinear_arith)
                requires
                    rest * q == m * k,
                    k == q * k2,
                    q > 0,
            ;
            lemma_mul_is_commutative(m as int, k2 as int);
            lemma_mod_multiples_basic(k2 as int, m as int);
            assert(all_prime(fewer));
            lemma_divisor_has_factor(fewer, m);
            let i = choose|i: int| 0 <= i < fewer.len() && m % #[trigger] fewer[i] == 0;
            assert(m % factors[i] == 0);
        }
    }
}

/// Under the conditions of the test, no power of `g` by a positive exponent
/// below `n - 1` is 1.
pub proof fn lemma_order_is_full(n: nat, g: nat, factors: Seq<nat>, e: nat)
    requires
        n >= 2,
        all_prime(factors),
        product(factors) == n - 1,
        has_full_order(n, g, factors),
        0 < e < n - 1,
    ensures
        power(g, e, n) != 1,
{
    if power(g, e, n) == 1 {
        let top = (n - 1) as nat;
        let c = gcd(e, top);
        lemma_gcd_divides(e, top);
        lemma_gcd_power(g, e, top, n);
        assert(c <= e) by {
            if c > e {
                lemma_small_mod(e, c);
            }
        }
        let m = top / c;
        lemma_fundamental_div_mod(top as int, c as int);
        assert(top == c * m);
        assert(m > 1) by (nonlinear_arith)
            requires
                top == c * m,
                c < top,
                c > 0,
        ;
        lemma_mod_multiples_basic(c as int, m as int);
        lemma_divisor_has_factor(factors, m);
        let i = choose|i: int| 0 <= i < factors.len() && m % #[trigger] factors[i] == 0;
        let q = factors[i];
        assert(is_prime_modulus(q));
        let m2 = m / q;
        lemma_fundamental_div_mod(m as int, q as int);
        assert(m == q * m2);
        assert(top == (c * m2) * q) by (nonlinear_arith)
            requires
                top == c * m,
                m == q * m2,
        ;
        lemma_fundamental_div_mod_converse(top as int, q as int, (c * m2) as int, 0);
        lemma_power_by_multiple(g, c, m2, n);
        assert(power(g, ((n - 1) / (factors[i] as int)) as nat, n) == 1);
    }
}

/// A power of `g` and the power by what is missing to `n - 1` multiply to 1.
pub proof fn lemma_power_has_inverse(n: nat, g: nat, i: nat)
    requires
        n >= 2,
        power(g, (n - 1) as nat, n) == 1,
        i <= n - 1,
    ensures
        (power(g, i, n) * power(g, (n - 1 - i) as nat, n)) % n == 1,
        0 < power(g, i, n) < n,
{
    lemma_power_adds(g, i, (n - 1 - i) as nat, n);
    assert(i + (n - 1 - i) as nat == (n - 1) as nat);
    lemma_power_is_reduced(g, i, n);
    if power(g, i, n) == 0 {
        assert(0 * power(g, (n - 1 - i) as nat, n) == 0);
        lemma_small_mod(0, n);
    }
}

/// Where `a * c` leaves 1 and `a * b` leaves `r`, `b` leaves what `r * c`
/// leaves.
pub proof fn lemma_cancel(a: nat, b: nat, c: nat, r: nat, n: nat)
    requires
        n >= 2,
        (a * c) % n == 1,
        (a * b) % n == r % n,
    ensures
        b % n == (r * c) % n,
{
    let m = n as int;
    let (ai, bi, ci, ri) = (a as int, b as int, c as int, r as int);
    // b = b * 1 = b * (a * c) = (a * b) * c = r * c, all modulo n
    lemma_mul_mod_noop_right(bi, ai * ci, m);
    assert(bi * 1 == bi);
    assert(bi * (ai * ci) == (ai * bi) * ci) by (nonlinear_arith);
    lemma_mul_mod_noop_left(ai * bi, ci, m);
    lemma_mul_mod_noop_left(ri, ci, m);
}

/// The test of Lucas: where the prime factors of `n - 1` are known and `g`
/// has order `n - 1` modulo `n`, `n` is prime.
pub proof fn lemma_lucas(n: nat, g: nat, factors: Seq<nat>)
    requires
        n >= 2,
        all_prime(factors),
        product(factors) == n - 1,
        has_full_order(n, g, factors),
    ensures
        is_prime_modulus(n),
{
    let top = (n - 1) as nat;
    let f = |i: int| power(g, i as nat, n) as int;
    let exponents = set_int_range(0, top as int);
    let residues = set_int_range(1, n as int);
    let hit = exponents.map(f);
    lemma_int_range(0, top as int);
    lemma_int_range(1, n as int);
    assert(injective_on(f, exponents)) by {
        assert forall|i: int, j: int|
            exponents.contains(i) && exponents.contains(j) && #[trigger] f(i) == #[trigger] f(
                j,
            ) implies i == j by {
            if i != j {
                let (lo, hi) = if i < j {
                    (i as nat, j as nat)
                } else {
                    (j as nat, i as nat)
                };
                let a = power(g, lo, n);
                let b = power(g, (hi - lo) as nat, n);
                let c = power(g, (top - lo) as nat, n);
                lemma_power_adds(g, lo, (hi - lo) as nat, n);
                assert(lo + (hi - lo) as nat == hi);
                lemma_power_has_inverse(n, g, lo);
                lemma_power_is_reduced(g, (hi - lo) as nat, n);
                lemma_small_mod(a, n);
                lemma_small_mod(b, n);
                lemma_cancel(a, b, c, a, n);
                lemma_order_is_full(n, g, factors, (hi - lo) as nat);
            }
        }
    }
    lemma_map_size(exponents, hit, f);
    assert(hit.subset_of(residues)) by {
        assert forall|r: int| hit.contains(r) implies residues.contains(r) by {
            let i = choose|i: int| exponents.contains(i) && r == f(i);
            lemma_power_has_inverse(n, g, i as nat);
        }
    }
    lemma_subset_equality(hit, residues);
    assert forall|a: nat, b: nat| #[trigger] vanishes(a, b, n) implies a % n == 0 || b % n
        == 0 by {
        let a2 = a % n;
        let b2 = b % n;
        lemma_mod_bound(a as int, n as int);
        lemma_mod_bound(b as int, n as int);
        if a2 != 0 {
            assert(residues.contains(a2 as int));
            assert(hit.contains(a2 as int));
            let i = choose|i: int| exponents.contains(i) && a2 as int == f(i);
            let c = power(g, (top - i) as nat, n);
            lemma_power_has_inverse(n, g, i as nat);
            lemma_mul_mod_noop(a as int, b as int, n as int);
            lemma_small_mod(0, n);
            lemma_cancel(a2, b2, c, 0, n);
            assert(0 * c == 0);
            lemma_small_mod(b2, n);
        }
    }
}

/// A number from 2 on is a prime modulus where no two positive numbers
/// below it multiply to a multiple of it.
pub proof fn lemma_prime_by_residues(q: nat)
    requires
        q >= 2,
        forall|a: nat, b: nat| 0 < a < q && 0 < b < q ==> !#[trigger] vanishes(a, b, q),
    ensures
        is_prime_modulus(q),
{
    assert forall|a: nat, b: nat| #[trigger] vanishes(a, b, q) implies a % q == 0 || b % q
        == 0 by {
        let a2 = a % q;
        let b2 = b % q;
        lemma_mod_bound(a as int, q as int);
        lemma_mod_bound(b as int, q as int);
        lemma_mul_mod_noop(a as int, b as int, q as int);
        if a2 != 0 && b2 != 0 {
            assert(!vanishes(a2, b2, q));
        }
    }
}

/// What a certificate has shown so far: the listed factors are prime, their
/// product is `p`, and `g` to the power `(n - 1) / q` is not 1 for any of
/// them.
pub open spec fn certified(n: nat, g: nat, factors: Seq<nat>, p: nat) -> bool {
    &&& all_prime(factors)
    &&& product(factors) == p
    &&& forall|i: int|
        0 <= i < factors.len() ==> power(g, ((n - 1) / (#[trigger] factors[i] as int)) as nat, n)
            != 1
}

/// Nothing is listed yet.
pub proof fn lemma_certified_start(n: nat, g: nat)
    ensures
        certified(n, g, Seq::empty(), 1),
{
}

/// One more prime factor is listed.
pub proof fn lemma_certified_push(n: nat, g: nat, factors: Seq<nat>, p: nat, q: nat)
    requires
        certified(n, g, factors, p),
        is_prime_modulus(q),
        power(g, ((n - 1) / (q as int)) as nat, n) != 1,
    ensures
        certified(n, g, factors.push(q), p * q),
{
    let longer = factors.push(q);
    assert(longer.drop_last() =~= factors);
    assert forall|i: int| 0 <= i < longer.len() implies is_prime_modulus(#[trigger] longer[i])
        && power(g, ((n - 1) / (longer[i] as int)) as nat, n) != 1 by {
        if i < factors.len() {
            assert(longer[i] == factors[i]);
        }
    }
}

/// The test of Lucas on a finished certificate.
pub proof fn lemma_lucas_certified(n: nat, g: nat, factors: Seq<nat>)
    requires
        n >= 2,
        certified(n, g, factors, (n - 1) as nat),
        power(g, (n - 1) as nat, n) == 1,
    ensures
        is_prime_modulus(n),
{
    lemma_lucas(n, g, factors);
}

/// The product of two numbers below 2^16 is a multiple of `q`.
pub open spec fn small_vanishes(a: u16, b: u16, q: u16) -> bool {
    (a * b) % (q as int) == 0
}

/// A number below 2^16 is a prime modulus where no two positive numbers
/// below it multiply to a multiple of it.
pub proof fn lemma_small_prime(q: u16)
    requires
        q >= 2,
        forall|a: u16, b: u16| 0 < a < q && 0 < b < q ==> !#[trigger] small_vanishes(a, b, q),
    ensures
        is_prime_modulus(q as nat),
{
    assert forall|a: nat, b: nat| 0 < a < q && 0 < b < q implies !#[trigger] vanishes(
        a,
        b,
        q as nat,
    ) by {
        assert(!small_vanishes(a as u16, b as u16, q));
    }
    lemma_prime_by_residues(q as nat);
}

} // verus!
