//! The prime factors of the field order less one, and the primes that
//! their own certificates rest on. The smallest are primes by inspection of
//! all products of residues; each of the others has a certificate by the
//! test of Lucas: a number `g` of order `n - 1` modulo `n`, with the prime
//! factors of `n - 1`. Each step of a power names the quotient and the
//! remainder of one product.

use crate::primes::{
    is_prime_modulus, lemma_certified_push, lemma_certified_start, lemma_lucas_certified,
    lemma_power_doubles, lemma_power_of_power, lemma_power_steps, lemma_small_prime, power,
    small_vanishes,
};
use vstd::prelude::*;

verus! {

/// 2 is prime.
pub proof fn lemma_prime_2()
    ensures
        is_prime_modulus(2),
{
    assert(forall|a: u16, b: u16|
        0 < a < 2 && 0 < b < 2 ==> !#[trigger] small_vanishes(a, b, 2)) by (bit_vector);
    lemma_small_prime(2);
}

/// 3 is prime.
pub proof fn lemma_prime_3()
    ensures
        is_prime_modulus(3),
{
    assert(forall|a: u16, b: u16|
        0 < a < 3 && 0 < b < 3 ==> !#[trigger] small_vanishes(a, b, 3)) by (bit_vector);
    lemma_small_prime(3);
}

/// 5 is prime.
pub proof fn lemma_prime_5()
    ensures
        is_prime_modulus(5),
{
    assert(forall|a: u16, b: u16|
        0 < a < 5 && 0 < b < 5 ==> !#[trigger] small_vanishes(a, b, 5)) by (bit_vector);
    lemma_small_prime(5);
}

/// 7 is prime.
pub proof fn lemma_prime_7()
    ensures
        is_prime_modulus(7),
{
    assert(forall|a: u16, b: u16|
        0 < a < 7 && 0 < b < 7 ==> !#[trigger] small_vanishes(a, b, 7)) by (bit_vector);
    lemma_small_prime(7);
}

/// 13 is prime.
pub proof fn lemma_prime_13()
    ensures
        is_prime_modulus(13),
{
    assert(forall|a: u16, b: u16|
        0 < a < 13 && 0 < b < 13 ==> !#[trigger] small_vanishes(a, b, 13)) by (bit_vector);
    lemma_small_prime(13);
}

/// Modulo 29: 2 to the power `c`, where `n - 1` is `c` times the product
/// of its prime factors.
proof fn lemma_29_root()
    ensures
        power(2, 2, 29) == 4,
{
    let b: nat = 2;
    let n: nat = 29;
    lemma_power_steps(b, 0, n, 1, 0, b);
    let v0: nat = b;
    let v1: nat = 4;
    lemma_power_doubles(b, 1, n, v0, 0, v1);
}

/// Modulo 29: the root to the power 7.
proof fn lemma_29_raised()
    ensures
        power(4, 7, 29) == 28,
{
    let b: nat = 4;
    let n: nat = 29;
    lemma_power_steps(b, 0, n, 1, 0, b);
    let v0: nat = b;
    let v1: nat = 16;
    lemma_power_doubles(b, 1, n, v0, 0, v1);
    let v2: nat = 6;
    lemma_power_steps(b, 2, n, v1, 2, v2);
    let v3: nat = 7;
    lemma_power_doubles(b, 3, n, v2, 1, v3);
    let v4: nat = 28;
    lemma_power_steps(b, 6, n, v3, 0, v4);
}

/// Modulo 29: 2 to the power `(n - 1) / 2`.
proof fn lemma_29_without_2()
    ensures
        power(28, 1, 29) == 28,
{
    let b: nat = 28;
    let n: nat = 29;
    lemma_power_steps(b, 0, n, 1, 0, b);
    let v0: nat = b;
}

/// Modulo 29: 2 to the power `(n - 1) / 7`.
proof fn lemma_29_without_7()
    ensures
        power(4, 2, 29) == 16,
{
    let b: nat = 4;
    let n: nat = 29;
    lemma_power_steps(b, 0, n, 1, 0, b);
    let v0: nat = b;
    let v1: nat = 16;
    lemma_power_doubles(b, 1, n, v0, 0, v1);
}

/// Modulo 29: 2 to the power `n - 1`.
proof fn lemma_29_whole()
    ensures
        power(28, 2, 29) == 1,
{
    let b: nat = 28;
    let n: nat = 29;
    lemma_power_steps(b, 0, n, 1, 0, b);
    let v0: nat = b;
    let v1: nat = 1;
    lemma_power_doubles(b, 1, n, v0, 27, v1);
}

/// 29 is prime: 2 has order `n - 1` modulo it.
pub proof fn lemma_prime_29()
    ensures
        is_prime_modulus(29),
{
    let n: nat = 29;
    let g: nat = 2;
    lemma_29_root();
    lemma_29_raised();
    lemma_power_of_power(g, 2, 7, n);
    assert(power(g, 14, n) == 28);
    lemma_29_without_2();
    lemma_power_of_power(g, 14, 1, n);
    assert(power(g, 14, n) == 28);
    lemma_29_without_7();
    lemma_power_of_power(g, 2, 2, n);
    assert(power(g, 4, n) == 16);
    lemma_29_whole();
    lemma_power_of_power(g, 14, 2, n);
    assert(power(g, 28, n) == 1);
    lemma_prime_2();
    lemma_prime_7();
    lemma_certified_start(n, g);
    let list_0: Seq<nat> = Seq::empty();
    lemma_certified_push(n, g, list_0, 1, 2);
    let list_1 = list_0.push(2);
    lemma_certified_push(n, g, list_1, 2, 2);
    let list_2 = list_1.push(2);
    lemma_certified_push(n, g, list_2, 4, 7);
    let list_3 = list_2.push(7);
    lemma_lucas_certified(n, g, list_3);
}

/// Modulo 41: 6 to the power `c`, where `n - 1` is `c` times the product
/// of its prime factors.
proof fn lemma_41_root()
    ensures
        power(6, 4, 41) == 25,
{
    let b: nat = 6;
    let n: nat = 41;
    lemma_power_steps(b, 0, n, 1, 0, b);
    let v0: nat = b;
    let v1: nat = 36;
    lemma_power_doubles(b, 1, n, v0, 0, v1);
    let v2: nat = 25;
    lemma_power_doubles(b, 2, n, v1, 31, v2);
}

/// Modulo 41: the root to the power 5.
proof fn lemma_41_raised()
    ensures
        power(25, 5, 41) == 40,
{
    let b: nat = 25;
    let n: nat = 41;
    lemma_power_steps(b, 0, n, 1, 0, b);
    let v0: nat = b;
    let v1: nat = 10;
    lemma_power_doubles(b, 1, n, v0, 15, v1);
    let v2: nat = 18;
    lemma_power_doubles(b, 2, n, v1, 2, v2);
    let v3: nat = 40;
    lemma_power_steps(b, 4, n, v2, 10, v3);
}

/// Modulo 41: 6 to the power `(n - 1) / 2`.
proof fn lemma_41_without_2()
    ensures
        power(40, 1, 41) == 40,
{
    let b: nat = 40;
    let n: nat = 41;
    lemma_power_steps(b, 0, n, 1, 0, b);
    let v0: nat = b;
}

/// Modulo 41: 6 to the power `(n - 1) / 5`.
proof fn lemma_41_without_5()
    ensures
        power(25, 2, 41) == 10,
{
    let b: nat = 25;
    let n: nat = 41;
    lemma_power_steps(b, 0, n, 1, 0, b);
    let v0: nat = b;
    let v1: nat = 10;
    lemma_power_doubles(b, 1, n, v0, 15, v1);
}

/// Modulo 41: 6 to the power `n - 1`.
proof fn lemma_41_whole()
    ensures
        power(40, 2, 41) == 1,
{
    let b: nat = 40;
    let n: nat = 41;
    lemma_power_steps(b, 0, n, 1, 0, b);
    let v0: nat = b;
    let v1: nat = 1;
    lemma_power_doubles(b, 1, n, v0, 39, v1);
}

/// 41 is prime: 6 has order `n - 1` modulo it.
pub proof fn lemma_prime_41()
    ensures
        is_prime_modulus(41),
{
    let n: nat = 41;
    let g: nat = 6;
    lemma_41_root();
    lemma_41_raised();
    lemma_power_of_power(g, 4, 5, n);
    assert(power(g, 20, n) == 40);
    lemma_41_without_2();
    lemma_power_of_power(g, 20, 1, n);
    assert(power(g, 20, n) == 40);
    lemma_41_without_5();
    lemma_power_of_power(g, 4, 2, n);
    assert(power(g, 8, n) == 10);
    lemma_41_whole();
    lemma_power_of_power(g, 20, 2, n);
    assert(power(g, 40, n) == 1);
    lemma_prime_2();
    lemma_prime_5();
    lemma_certified_start(n, g);
    let list_0: Seq<nat> = Seq::empty();
    lemma_certified_push(n, g, list_0, 1, 2);
    let list_1 = list_0.push(2);
    lemma_certified_push(n, g, list_1, 2, 2);
    let list_2 = list_1.push(2);
    lemma_certified_push(n, g, list_2, 4, 2);
    let list_3 = list_2.push(2);
    lemma_certified_push(n, g, list_3, 8, 5);
    let list_4 = list_3.push(5);
    lemma_lucas_certified(n, g, list_4);
}

/// Modulo 83: 2 to the power `c`, where `n - 1` is `c` times the product
/// of its prime factors.
proof fn lemma_83_root()
    ensures
        power(2, 1, 83) == 2,
{
    let b: nat = 2;
    let n: nat = 83;
    lemma_power_steps(b, 0, n, 1, 0, b);
    let v0: nat = b;
}

/// Modulo 83: the root to the power 41.
proof fn lemma_83_raised()
    ensures
        power(2, 41, 83) == 82,
{
    let b: nat = 2;
    let n: nat = 83;
    lemma_power_steps(b, 0, n, 1, 0, b);
    let v0: nat = b;
    let v1: nat = 4;
    lemma_power_doubles(b, 1, n, v0, 0, v1);
    let v2: nat = 16;
    lemma_power_doubles(b, 2, n, v1, 0, v2);
    let v3: nat = 32;
    lemma_power_steps(b, 4, n, v2, 0, v3);
    let v4: nat = 28;
    lemma_power_doubles(b, 5, n, v3, 12, v4);
    let v5: nat = 37;
    lemma_power_doubles(b, 10, n, v4, 9, v5);
    let v6: nat = 41;
    lemma_power_doubles(b, 20, n, v5, 16, v6);
    let v7: nat = 82;
    lemma_power_steps(b, 40, n, v6, 0, v7);
}

/// Modulo 83: 2 to the power `(n - 1) / 2`.
proof fn lemma_83_without_2()
    ensures
        power(82, 1, 83) == 82,
{
    let b: nat = 82;
    let n: nat = 83;
    lemma_power_steps(b, 0, n, 1, 0, b);
    let v0: nat = b;
}

/// Modulo 83: 2 to the power `(n - 1) / 41`.
proof fn lemma_83_without_41()
    ensures
        power(2, 2, 83) == 4,
{
    let b: nat = 2;
    let n: nat = 83;
    lemma_power_steps(b, 0, n, 1, 0, b);
    let v0: nat = b;
    let v1: nat = 4;
    lemma_power_doubles(b, 1, n, v0, 0, v1);
}

/// Modulo 83: 2 to the power `n - 1`.
proof fn lemma_83_whole()
    ensures
        power(82, 2, 83) == 1,
{
    let b: nat = 82;
    let n: nat = 83;
    lemma_power_steps(b, 0, n, 1, 0, b);
    let v0: nat = b;
    let v1: nat = 1;
    lemma_power_doubles(b, 1, n, v0, 81, v1);
}

/// 83 is prime: 2 has order `n - 1` modulo it.
pub proof fn lemma_prime_83()
    ensures
        is_prime_modulus(83),
{
    let n: nat = 83;
    let g: nat = 2;
    lemma_83_root();
    lemma_83_raised();
    lemma_power_of_power(g, 1, 41, n);
    assert(power(g, 41, n) == 82);
    lemma_83_without_2();
    lemma_power_of_power(g, 41, 1, n);
    assert(power(g, 41, n) == 82);
    lemma_83_without_41();
    lemma_power_of_power(g, 1, 2, n);
    assert(power(g, 2, n) == 4);
    lemma_83_whole();
    lemma_power_of_power(g, 41, 2, n);
    assert(power(g, 82, n) == 1);
    lemma_prime_2();
    lemma_prime_41();
    lemma_certified_start(n, g);
    let list_0: Seq<nat> = Seq::empty();
    lemma_certified_push(n, g, list_0, 1, 2);
    let list_1 = list_0.push(2);
    lemma_certified_push(n, g, list_1, 2, 41);
    let list_2 = list_1.push(41);
    lemma_lucas_certified(n, g, list_2);
}

/// Modulo 167: 5 to the power `c`, where `n - 1` is `c` times the product
/// of its prime factors.
proof fn lemma_167_root()
    ensures
        power(5, 1, 167) == 5,
{
    let b: nat = 5;
    let n: nat = 167;
    lemma_power_steps(b, 0, n, 1, 0, b);
    let v0: nat = b;
}

/// Modulo 167: the root to the power 83.
proof fn lemma_167_raised()
    ensures
        power(5, 83, 167) == 166,
{
    let b: nat = 5;
    let n: nat = 167;
    lemma_power_steps(b, 0, n, 1, 0, b);
    let v0: nat = b;
    let v1: nat = 25;
    lemma_power_doubles(b, 1, n, v0, 0, v1);
    let v2: nat = 124;
    lemma_power_doubles(b, 2, n, v1, 3, v2);
    let v3: nat = 119;
    lemma_power_steps(b, 4, n, v2, 3, v3);
    let v4: nat = 133;
    lemma_power_doubles(b, 5, n, v3, 84, v4);
    let v5: nat = 154;
    lemma_power_doubles(b, 10, n, v4, 105, v5);
    let v6: nat = 2;
    lemma_power_doubles(b, 20, n, v5, 142, v6);
    let v7: nat = 10;
    lemma_power_steps(b, 40, n, v6, 0, v7);
    let v8: nat = 100;
    lemma_power_doubles(b, 41, n, v7, 0, v8);
    let v9: nat = 166;
    lemma_power_steps(b, 82, n, v8, 2, v9);
}

/// Modulo 167: 5 to the power `(n - 1) / 2`.
proof fn lemma_167_without_2()
    ensures
        power(166, 1, 167) == 166,
{
    let b: nat = 166;
    let n: nat = 167;
    lemma_power_steps(b, 0, n, 1, 0, b);
    let v0: nat = b;
}

/// Modulo 167: 5 to the power `(n - 1) / 83`.
proof fn lemma_167_without_83()
    ensures
        power(5, 2, 167) == 25,
{
    let b: nat = 5;
    let n: nat = 167;
    lemma_power_steps(b, 0, n, 1, 0, b);
    let v0: nat = b;
    let v1: nat = 25;
    lemma_power_doubles(b, 1, n, v0, 0, v1);
}

/// Modulo 167: 5 to the power `n - 1`.
proof fn lemma_167_whole()
    ensures
        power(166, 2, 167) == 1,
{
    let b: nat = 166;
    let n: nat = 167;
    lemma_power_steps(b, 0, n, 1, 0, b);
    let v0: nat = b;
    let v1: nat = 1;
    lemma_power_doubles(b, 1, n, v0, 165, v1);
}

/// 167 is prime: 5 has order `n - 1` modulo it.
pub proof fn lemma_prime_167()
    ensures
        is_prime_modulus(167),
{
    let n: nat = 167;
    let g: nat = 5;
    lemma_167_root();
    lemma_167_raised();
    lemma_power_of_power(g, 1, 83, n);
    assert(power(g, 83, n) == 166);
    lemma_167_without_2();
    lemma_power_of_power(g, 83, 1, n);
    assert(power(g, 83, n) == 166);
    lemma_167_without_83();
    lemma_power_of_power(g, 1, 2, n);
    assert(power(g, 2, n) == 25);
    lemma_167_whole();
    lemma_power_of_power(g, 83, 2, n);
    assert(power(g, 166, n) == 1);
    lemma_prime_2();
    lemma_prime_83();
    lemma_certified_start(n, g);
    let list_0: Seq<nat> = Seq::empty();
    lemma_certified_push(n, g, list_0, 1, 2);
    let list_1 = list_0.push(2);
    lemma_certified_push(n, g, list_1, 2, 83);
    let list_2 = list_1.push(83);
    lemma_lucas_certified(n, g, list_2);
}

/// Modulo 499: 7 to the power `c`, where `n - 1` is `c` times the product
/// of its prime factors.
proof fn lemma_499_root()
    ensures
        power(7, 1, 499) == 7,
{
    let b: nat = 7;
    let n: nat = 499;
    lemma_power_steps(b, 0, n, 1, 0, b);
    let v0: nat = b;
}

/// Modulo 499: the root to the power 83.
proof fn lemma_499_raised()
    ensures
        power(7, 83, 499) == 140,
{
    let b: nat = 7;
    let n: nat = 499;
    lemma_power_steps(b, 0, n, 1, 0, b);
    let v0: nat = b;
    let v1: nat = 49;
    lemma_power_doubles(b, 1, n, v0, 0, v1);
    let v2: nat = 405;
    lemma_power_doubles(b, 2, n, v1, 4, v2);
    let v3: nat = 340;
    lemma_power_steps(b, 4, n, v2, 5, v3);
    let v4: nat = 331;
    lemma_power_doubles(b, 5, n, v3, 231, v4);
    let v5: nat = 280;
    lemma_power_doubles(b, 10, n, v4, 219, v5);
    let v6: nat = 57;
    lemma_power_doubles(b, 20, n, v5, 157, v6);
    let v7: nat = 399;
    lemma_power_steps(b, 40, n, v6, 0, v7);
    let v8: nat = 20;
    lemma_power_doubles(b, 41, n, v7, 319, v8);
    let v9: nat = 140;
    lemma_power_steps(b, 82, n, v8, 0, v9);
}

/// Modulo 499: 7 to the power `(n - 1) / 2`.
proof fn lemma_499_without_2()
    ensures
        power(140, 3, 499) == 498,
{
    let b: nat = 140;
    let n: nat = 499;
    lemma_power_steps(b, 0, n, 1, 0, b);
    let v0: nat = b;
    let v1: nat = 139;
    lemma_power_doubles(b, 1, n, v0, 39, v1);
    let v2: nat = 498;
    lemma_power_steps(b, 2, n, v1, 38, v2);
}

/// Modulo 499: 7 to the power `(n - 1) / 3`.
proof fn lemma_499_without_3()
    ensures
        power(140, 2, 499) == 139,
{
    let b: nat = 140;
    let n: nat = 499;
    lemma_power_steps(b, 0, n, 1, 0, b);
    let v0: nat = b;
    let v1: nat = 139;
    lemma_power_doubles(b, 1, n, v0, 39, v1);
}

/// Modulo 499: 7 to the power `(n - 1) / 83`.
proof fn lemma_499_without_83()
    ensures
        power(7, 6, 499) == 384,
{
    let b: nat = 7;
    let n: nat = 499;
    lemma_power_steps(b, 0, n, 1, 0, b);
    let v0: nat = b;
    let v1: nat = 49;
    lemma_power_doubles(b, 1, n, v0, 0, v1);
    let v2: nat = 343;
    lemma_power_steps(b, 2, n, v1, 0, v2);
    let v3: nat = 384;
    lemma_power_doubles(b, 3, n, v2, 235, v3);
}

/// Modulo 499: 7 to the power `n - 1`.
proof fn lemma_499_whole()
    ensures
        power(140, 6, 499) == 1,
{
    let b: nat = 140;
    let n: nat = 499;
    lemma_power_steps(b, 0, n, 1, 0, b);
    let v0: nat = b;
    let v1: nat = 139;
    lemma_power_doubles(b, 1, n, v0, 39, v1);
    let v2: nat = 498;
    lemma_power_steps(b, 2, n, v1, 38, v2);
    let v3: nat = 1;
    lemma_power_doubles(b, 3, n, v2, 497, v3);
}

/// 499 is prime: 7 has order `n - 1` modulo it.
pub proof fn lemma_prime_499()
    ensures
        is_prime_modulus(499),
{
    let n: nat = 499;
    let g: nat = 7;
    lemma_499_root();
    lemma_499_raised();
    lemma_power_of_power(g, 1, 83, n);
    assert(power(g, 83, n) == 140);
    lemma_499_without_2();
    lemma_power_of_power(g, 83, 3, n);
    assert(power(g, 249, n) == 498);
    lemma_499_without_3();
    lemma_power_of_power(g, 83, 2, n);
    assert(power(g, 166, n) == 139);
    lemma_499_without_83();
    lemma_power_of_power(g, 1, 6, n);
    assert(power(g, 6, n) == 384);
    lemma_499_whole();
    lemma_power_of_power(g, 83, 6, n);
    assert(power(g, 498, n) == 1);
    lemma_prime_2();
    lemma_prime_3();
    lemma_prime_83();
    lemma_certified_start(n, g);
    let list_0: Seq<nat> = Seq::empty();
    lemma_certified_push(n, g, list_0, 1, 2);
    let list_1 = list_0.push(2);
    lemma_certified_push(n, g, list_1, 2, 3);
    let list_2 = list_1.push(3);
    lemma_certified_push(n, g, list_2, 6, 83);
    let list_3 = list_2.push(83);
    lemma_lucas_certified(n, g, list_3);
}

/// Modulo 3511: 7 to the power `c`, where `n - 1` is `c` times the product
/// of its prime factors.
proof fn lemma_3511_root()
    ensures
        power(7, 9, 3511) == 1684,
{
    let b: nat = 7;
    let n: nat = 3511;
    lemma_power_steps(b, 0, n, 1, 0, b);
    let v0: nat = b;
    let v1: nat = 49;
    lemma_power_doubles(b, 1, n, v0, 0, v1);
    let v2: nat = 2401;
    lemma_power_doubles(b, 2, n, v1, 0, v2);
    let v3: nat = 3250;
    lemma_power_doubles(b, 4, n, v2, 1641, v3);
    let v4: nat = 1684;
    lemma_power_steps(b, 8, n, v3, 6, v4);
}

/// Modulo 3511: the root to the power 13.
proof fn lemma_3511_raised()
    ensures
        power(1684, 13, 3511) == 332,
{
    let b: nat = 1684;
    let n: nat = 3511;
    lemma_power_steps(b, 0, n, 1, 0, b);
    let v0: nat = b;
    let v1: nat = 2479;
    lemma_power_doubles(b, 1, n, v0, 807, v1);
    let v2: nat = 57;
    lemma_power_steps(b, 2, n, v1, 1189, v2);
    let v3: nat = 3249;
    lemma_power_doubles(b, 3, n, v2, 0, v3);
    let v4: nat = 1935;
    lemma_power_doubles(b, 6, n, v3, 3006, v4);
    let v5: nat = 332;
    lemma_power_steps(b, 12, n, v4, 928, v5);
}

/// Modulo 3511: 7 to the power `(n - 1) / 2`.
proof fn lemma_3511_without_2()
    ensures
        power(332, 15, 3511) == 3510,
{
    let b: nat = 332;
    let n: nat = 3511;
    lemma_power_steps(b, 0, n, 1, 0, b);
    let v0: nat = b;
    let v1: nat = 1383;
    lemma_power_doubles(b, 1, n, v0, 31, v1);
    let v2: nat = 2726;
    lemma_power_steps(b, 2, n, v1, 130, v2);
    let v3: nat = 1800;
    lemma_power_doubles(b, 3, n, v2, 2116, v3);
    let v4: nat = 730;
    lemma_power_steps(b, 6, n, v3, 170, v4);
    let v5: nat = 2739;
    lemma_power_doubles(b, 7, n, v4, 151, v5);
    let v6: nat = 3510;
    lemma_power_steps(b, 14, n, v5, 258, v6);
}

/// Modulo 3511: 7 to the power `(n - 1) / 3`.
proof fn lemma_3511_without_3()
    ensures
        power(332, 10, 3511) == 2754,
{
    let b: nat = 332;
    let n: nat = 3511;
    lemma_power_steps(b, 0, n, 1, 0, b);
    let v0: nat = b;
    let v1: nat = 1383;
    lemma_power_doubles(b, 1, n, v0, 31, v1);
    let v2: nat = 2705;
    lemma_power_doubles(b, 2, n, v1, 544, v2);
    let v3: nat = 2755;
    lemma_power_steps(b, 4, n, v2, 255, v3);
    let v4: nat = 2754;
    lemma_power_doubles(b, 5, n, v3, 2161, v4);
}

/// Modulo 3511: 7 to the power `(n - 1) / 5`.
proof fn lemma_3511_without_5()
    ensures
        power(332, 6, 3511) == 1800,
{
    let b: nat = 332;
    let n: nat = 3511;
    lemma_power_steps(b, 0, n, 1, 0, b);
    let v0: nat = b;
    let v1: nat = 1383;
    lemma_power_doubles(b, 1, n, v0, 31, v1);
    let v2: nat = 2726;
    lemma_power_steps(b, 2, n, v1, 130, v2);
    let v3: nat = 1800;
    lemma_power_doubles(b, 3, n, v2, 2116, v3);
}

/// Modulo 3511: 7 to the power `(n - 1) / 13`.
proof fn lemma_3511_without_13()
    ensures
        power(1684, 30, 3511) == 494,
{
    let b: nat = 1684;
    let n: nat = 3511;
    lemma_power_steps(b, 0, n, 1, 0, b);
    let v0: nat = b;
    let v1: nat = 2479;
    lemma_power_doubles(b, 1, n, v0, 807, v1);
    let v2: nat = 57;
    lemma_power_steps(b, 2, n, v1, 1189, v2);
    let v3: nat = 3249;
    lemma_power_doubles(b, 3, n, v2, 0, v3);
    let v4: nat = 1178;
    lemma_power_steps(b, 6, n, v3, 1558, v4);
    let v5: nat = 839;
    lemma_power_doubles(b, 7, n, v4, 395, v5);
    let v6: nat = 1454;
    lemma_power_steps(b, 14, n, v5, 402, v6);
    let v7: nat = 494;
    lemma_power_doubles(b, 15, n, v6, 602, v7);
}

/// Modulo 3511: 7 to the power `n - 1`.
proof fn lemma_3511_whole()
    ensures
        power(332, 30, 3511) == 1,
{
    let b: nat = 332;
    let n: nat = 3511;
    lemma_power_steps(b, 0, n, 1, 0, b);
    let v0: nat = b;
    let v1: nat = 1383;
    lemma_power_doubles(b, 1, n, v0, 31, v1);
    let v2: nat = 2726;
    lemma_power_steps(b, 2, n, v1, 130, v2);
    let v3: nat = 1800;
    lemma_power_doubles(b, 3, n, v2, 2116, v3);
    let v4: nat = 730;
    lemma_power_steps(b, 6, n, v3, 170, v4);
    let v5: nat = 2739;
    lemma_power_doubles(b, 7, n, v4, 151, v5);
    let v6: nat = 3510;
    lemma_power_steps(b, 14, n, v5, 258, v6);
    let v7: nat = 1;
    lemma_power_doubles(b, 15, n, v6, 3509, v7);
}

/// 3511 is prime: 7 has order `n - 1` modulo it.
pub proof fn lemma_prime_3511()
    ensures
        is_prime_modulus(3511),
{
    let n: nat = 3511;
    let g: nat = 7;
    lemma_3511_root();
    lemma_3511_raised();
    lemma_power_of_power(g, 9, 13, n);
    assert(power(g, 117, n) == 332);
    lemma_3511_without_2();
    lemma_power_of_power(g, 117, 15, n);
    assert(power(g, 1755, n) == 3510);
    lemma_3511_without_3();
    lemma_power_of_power(g, 117, 10, n);
    assert(power(g, 1170, n) == 2754);
    lemma_3511_without_5();
    lemma_power_of_power(g, 117, 6, n);
    assert(power(g, 702, n) == 1800);
    lemma_3511_without_13();
    lemma_power_of_power(g, 9, 30, n);
    assert(power(g, 270, n) == 494);
    lemma_3511_whole();
    lemma_power_of_power(g, 117, 30, n);
    assert(power(g, 3510, n) == 1);
    lemma_prime_2();
    lemma_prime_3();
    lemma_prime_5();
    lemma_prime_13();
    lemma_certified_start(n, g);
    let list_0: Seq<nat> = Seq::empty();
    lemma_certified_push(n, g, list_0, 1, 2);
    let list_1 = list_0.push(2);
    lemma_certified_push(n, g, list_1, 2, 3);
    let list_2 = list_1.push(3);
    lemma_certified_push(n, g, list_2, 6, 3);
    let list_3 = list_2.push(3);
    lemma_certified_push(n, g, list_3, 18, 3);
    let list_4 = list_3.push(3);
    lemma_certified_push(n, g, list_4, 54, 5);
    let list_5 = list_4.push(5);
    lemma_certified_push(n, g, list_5, 270, 13);
    let list_6 = list_5.push(13);
    lemma_lucas_certified(n, g, list_6);
}

/// Modulo 126397: 5 to the power `c`, where `n - 1` is `c` times the product
/// of its prime factors.
proof fn lemma_126397_root()
    ensures
        power(5, 6, 126397) == 15625,
{
    let b: nat = 5;
    let n: nat = 126397;
    lemma_power_steps(b, 0, n, 1, 0, b);
    let v0: nat = b;
    let v1: nat = 25;
    lemma_power_doubles(b, 1, n, v0, 0, v1);
    let v2: nat = 125;
    lemma_power_steps(b, 2, n, v1, 0, v2);
    let v3: nat = 15625;
    lemma_power_doubles(b, 3, n, v2, 0, v3);
}

/// Part 1 of `lemma_126397_raised`.
proof fn lemma_126397_raised_part_1()
    ensures
        power(15625, 1754, 126397) == 42495,
{
    let b: nat = 15625;
    let n: nat = 126397;
    lemma_power_steps(b, 0, n, 1, 0, b);
    let v0: nat = b;
    let v1: nat = 68018;
    lemma_power_doubles(b, 1, n, v0, 1931, v1);
    let v2: nat = 35274;
    lemma_power_steps(b, 2, n, v1, 8408, v2);
    let v3: nat = 3008;
    lemma_power_doubles(b, 3, n, v2, 9844, v3);
    let v4: nat = 73877;
    lemma_power_doubles(b, 6, n, v3, 71, v4);
    let v5: nat = 70721;
    lemma_power_steps(b, 12, n, v4, 9132, v5);
    let v6: nat = 56948;
    lemma_power_doubles(b, 13, n, v5, 39569, v6);
    let v7: nat = 104017;
    lemma_power_steps(b, 26, n, v6, 7039, v7);
    let v8: nat = 79486;
    lemma_power_doubles(b, 27, n, v7, 85599, v8);
    let v9: nat = 70151;
    lemma_power_doubles(b, 54, n, v8, 49985, v9);
    let v10: nat = 120988;
    lemma_power_steps(b, 108, n, v9, 8671, v10);
    let v11: nat = 59574;
    lemma_power_doubles(b, 109, n, v10, 115810, v11);
    let v12: nat = 56242;
    lemma_power_steps(b, 218, n, v11, 7364, v12);
    let v13: nat = 77639;
    lemma_power_doubles(b, 219, n, v12, 25025, v13);
    let v14: nat = 67788;
    lemma_power_doubles(b, 438, n, v13, 47689, v14);
    let v15: nat = 107037;
    lemma_power_steps(b, 876, n, v14, 8379, v15);
    let v16: nat = 42495;
    lemma_power_doubles(b, 877, n, v15, 90642, v16);
}

/// Modulo 126397: the root to the power 3511.
proof fn lemma_126397_raised()
    ensures
        power(15625, 3511, 126397) == 43300,
{
    let b: nat = 15625;
    let n: nat = 126397;
    lemma_126397_raised_part_1();
    let v0: nat = 42495;
    let v1: nat = 20934;
    lemma_power_steps(b, 1754, n, v0, 5253, v1);
    let v2: nat = 13957;
    lemma_power_doubles(b, 1755, n, v1, 3467, v2);
    let v3: nat = 43300;
    lemma_power_steps(b, 3510, n, v2, 1725, v3);
}

/// Modulo 126397: 5 to the power `(n - 1) / 2`.
proof fn lemma_126397_without_2()
    ensures
        power(43300, 3, 126397) == 126396,
{
    let b: nat = 43300;
    let n: nat = 126397;
    lemma_power_steps(b, 0, n, 1, 0, b);
    let v0: nat = b;
    let v1: nat = 43299;
    lemma_power_doubles(b, 1, n, v0, 14833, v1);
    let v2: nat = 126396;
    lemma_power_steps(b, 2, n, v1, 14832, v2);
}

/// Modulo 126397: 5 to the power `(n - 1) / 3`.
proof fn lemma_126397_without_3()
    ensures
        power(43300, 2, 126397) == 43299,
{
    let b: nat = 43300;
    let n: nat = 126397;
    lemma_power_steps(b, 0, n, 1, 0, b);
    let v0: nat = b;
    let v1: nat = 43299;
    lemma_power_doubles(b, 1, n, v0, 14833, v1);
}

/// Modulo 126397: 5 to the power `(n - 1) / 3511`.
proof fn lemma_126397_without_3511()
    ensures
        power(15625, 6, 126397) == 3008,
{
    let b: nat = 15625;
    let n: nat = 126397;
    lemma_power_steps(b, 0, n, 1, 0, b);
    let v0: nat = b;
    let v1: nat = 68018;
    lemma_power_doubles(b, 1, n, v0, 1931, v1);
    let v2: nat = 35274;
    lemma_power_steps(b, 2, n, v1, 8408, v2);
    let v3: nat = 3008;
    lemma_power_doubles(b, 3, n, v2, 9844, v3);
}

/// Modulo 126397: 5 to the power `n - 1`.
proof fn lemma_126397_whole()
    ensures
        power(43300, 6, 126397) == 1,
{
    let b: nat = 43300;
    let n: nat = 126397;
    lemma_power_steps(b, 0, n, 1, 0, b);
    let v0: nat = b;
    let v1: nat = 43299;
    lemma_power_doubles(b, 1, n, v0, 14833, v1);
    let v2: nat = 126396;
    lemma_power_steps(b, 2, n, v1, 14832, v2);
    let v3: nat = 1;
    lemma_power_doubles(b, 3, n, v2, 126395, v3);
}

/// 126397 is prime: 5 has order `n - 1` modulo it.
pub proof fn lemma_prime_126397()
    ensures
        is_prime_modulus(126397),
{
    let n: nat = 126397;
    let g: nat = 5;
    lemma_126397_root();
    lemma_126397_raised();
    lemma_power_of_power(g, 6, 3511, n);
    assert(power(g, 21066, n) == 43300);
    lemma_126397_without_2();
    lemma_power_of_power(g, 21066, 3, n);
    assert(power(g, 63198, n) == 126396);
    lemma_126397_without_3();
    lemma_power_of_power(g, 21066, 2, n);
    assert(power(g, 42132, n) == 43299);
    lemma_126397_without_3511();
    lemma_power_of_power(g, 6, 6, n);
    assert(power(g, 36, n) == 3008);
    lemma_126397_whole();
    lemma_power_of_power(g, 21066, 6, n);
    assert(power(g, 126396, n) == 1);
    lemma_prime_2();
    lemma_prime_3();
    lemma_prime_3511();
    lemma_certified_start(n, g);
    let list_0: Seq<nat> = Seq::empty();
    lemma_certified_push(n, g, list_0, 1, 2);
    let list_1 = list_0.push(2);
    lemma_certified_push(n, g, list_1, 2, 2);
    let list_2 = list_1.push(2);
    lemma_certified_push(n, g, list_2, 4, 3);
    let list_3 = list_2.push(3);
    lemma_certified_push(n, g, list_3, 12, 3);
    let list_4 = list_3.push(3);
    lemma_certified_push(n, g, list_4, 36, 3511);
    let list_5 = list_4.push(3511);
    lemma_lucas_certified(n, g, list_5);
}

/// Modulo 1832756501: 2 to the power `c`, where `n - 1` is `c` times the product
/// of its prime factors.
proof fn lemma_1832756501_root()
    ensures
        power(2, 50, 0x6d3da515nat) == 0x379eb690nat,
{
    let b: nat = 2;
    let n: nat = 0x6d3da515nat;
    lemma_power_steps(b, 0, n, 1, 0, b);
    let v0: nat = b;
    let v1: nat = 4;
    lemma_power_doubles(b, 1, n, v0, 0, v1);
    let v2: nat = 8;
    lemma_power_steps(b, 2, n, v1, 0, v2);
    let v3: nat = 64;
    lemma_power_doubles(b, 3, n, v2, 0, v3);
    let v4: nat = 4096;
    lemma_power_doubles(b, 6, n, v3, 0, v4);
    let v5: nat = 0x1000000nat;
    lemma_power_doubles(b, 12, n, v4, 0, v5);
    let v6: nat = 0x2000000nat;
    lemma_power_steps(b, 24, n, v5, 0, v6);
    let v7: nat = 0x379eb690nat;
    lemma_power_doubles(b, 25, n, v6, 614320, v7);
}

/// Part 1 of `lemma_1832756501_raised`.
proof fn lemma_1832756501_raised_part_1()
    ensures
        power(0x379eb690nat, 987, 0x6d3da515nat) == 0x5da87483nat,
{
    let b: nat = 0x379eb690nat;
    let n: nat = 0x6d3da515nat;
    lemma_power_steps(b, 0, n, 1, 0, b);
    let v0: nat = b;
    let v1: nat = 0x54702f51nat;
    lemma_power_doubles(b, 1, n, v0, 0x1c51a4b3nat, v1);
    let v2: nat = 0x9f5f3f3nat;
    lemma_power_steps(b, 2, n, v1, 0x2afde269nat, v2);
    let v3: nat = 0x58b515nat;
    lemma_power_doubles(b, 3, n, v2, 0xe88244nat, v3);
    let v4: nat = 0x215a87d7nat;
    lemma_power_steps(b, 6, n, v3, 0x2d2a55nat, v4);
    let v5: nat = 0x64a0a45cnat;
    lemma_power_doubles(b, 7, n, v4, 0xa2f00a1nat, v5);
    let v6: nat = 0x4e3effb3nat;
    lemma_power_steps(b, 14, n, v5, 0x333c0919nat, v6);
    let v7: nat = 0x239b6dffnat;
    lemma_power_doubles(b, 15, n, v6, 0x380ba302nat, v7);
    let v8: nat = 0x311f3f66nat;
    lemma_power_doubles(b, 30, n, v7, 0xb9b2eefnat, v8);
    let v9: nat = 0x47b6c00enat;
    lemma_power_steps(b, 60, n, v8, 0x1902b08anat, v9);
    let v10: nat = 0x69bb80f6nat;
    lemma_power_doubles(b, 61, n, v9, 0x2f141016nat, v10);
    let v11: nat = 0x40a6e1adnat;
    lemma_power_steps(b, 122, n, v10, 0x35d56ca7nat, v11);
    let v12: nat = 0x43177fd0nat;
    lemma_power_doubles(b, 123, n, v11, 0x26434af5nat, v12);
    let v13: nat = 0x10abd1canat;
    lemma_power_doubles(b, 246, n, v12, 0x293493denat, v13);
    let v14: nat = 0x23bc46f8nat;
    lemma_power_steps(b, 492, n, v13, 0x87cf608nat, v14);
    let v15: nat = 0x29c529e1nat;
    lemma_power_doubles(b, 493, n, v14, 0xbb0a2a3nat, v15);
    let v16: nat = 0x5da87483nat;
    lemma_power_steps(b, 986, n, v15, 0x15446d19nat, v16);
}

/// Modulo 1832756501: the root to the power 126397.
proof fn lemma_1832756501_raised()
    ensures
        power(0x379eb690nat, 126397, 0x6d3da515nat) == 0x11f8032fnat,
{
    let b: nat = 0x379eb690nat;
    let n: nat = 0x6d3da515nat;
    lemma_1832756501_raised_part_1();
    let v0: nat = 0x5da87483nat;
    let v1: nat = 0x513c30f5nat;
    lemma_power_doubles(b, 987, n, v0, 0x504c4ec4nat, v1);
    let v2: nat = 0x5aeb64b9nat;
    lemma_power_doubles(b, 1974, n, v1, 0x3c68bec0nat, v2);
    let v3: nat = 0x378c7ff8nat;
    lemma_power_steps(b, 3948, n, v2, 0x2e4aabb8nat, v3);
    let v4: nat = 0x2b50031bnat;
    lemma_power_doubles(b, 3949, n, v3, 0x1c3f1bd1nat, v4);
    let v5: nat = 0x16311610nat;
    lemma_power_steps(b, 7898, n, v4, 0x160d76a0nat, v5);
    let v6: nat = 0x3e0c635dnat;
    lemma_power_doubles(b, 7899, n, v5, 0x48215d7nat, v6);
    let v7: nat = 0x4266626nat;
    lemma_power_steps(b, 15798, n, v6, 0x1f978a02nat, v7);
    let v8: nat = 0x5cc38ab0nat;
    lemma_power_doubles(b, 15799, n, v7, 0x285c24nat, v8);
    let v9: nat = 0x2ceaf9a5nat;
    lemma_power_steps(b, 31598, n, v8, 0x2f3b10afnat, v9);
    let v10: nat = 0x6749e2eenat;
    lemma_power_doubles(b, 31599, n, v9, 0x12782c7fnat, v10);
    let v11: nat = 0x4c9f1e22nat;
    lemma_power_doubles(b, 63198, n, v10, 0x61a9271anat, v11);
    let v12: nat = 0x11f8032fnat;
    lemma_power_steps(b, 126396, n, v11, 0x27030a6dnat, v12);
}

/// Modulo 1832756501: 2 to the power `(n - 1) / 2`.
proof fn lemma_1832756501_without_2()
    ensures
        power(0x11f8032fnat, 145, 0x6d3da515nat) == 0x6d3da514nat,
{
    let b: nat = 0x11f8032fnat;
    let n: nat = 0x6d3da515nat;
    lemma_power_steps(b, 0, n, 1, 0, b);
    let v0: nat = b;
    let v1: nat = 0x4bc518bcnat;
    lemma_power_doubles(b, 1, n, v0, 0x2f4a591nat, v1);
    let v2: nat = 0x4cb848fcnat;
    lemma_power_doubles(b, 2, n, v1, 0x348de9c4nat, v2);
    let v3: nat = 0x18a6f801nat;
    lemma_power_doubles(b, 4, n, v2, 0x35e16193nat, v3);
    let v4: nat = 0x63b46d37nat;
    lemma_power_steps(b, 8, n, v3, 0x40e1418nat, v4);
    let v5: nat = 0x5e518b01nat;
    lemma_power_doubles(b, 9, n, v4, 0x5b004f90nat, v5);
    let v6: nat = 0x31517d50nat;
    lemma_power_doubles(b, 18, n, v5, 0x516f442dnat, v6);
    let v7: nat = 0x10385bdenat;
    lemma_power_doubles(b, 36, n, v6, 0x1643f51anat, v7);
    let v8: nat = 0x11c5078anat;
    lemma_power_doubles(b, 72, n, v7, 0x2688b92nat, v8);
    let v9: nat = 0x6d3da514nat;
    lemma_power_steps(b, 144, n, v8, 0x2ec42banat, v9);
}

/// Modulo 1832756501: 2 to the power `(n - 1) / 5`.
proof fn lemma_1832756501_without_5()
    ensures
        power(0x11f8032fnat, 58, 0x6d3da515nat) == 0x470c3d10nat,
{
    let b: nat = 0x11f8032fnat;
    let n: nat = 0x6d3da515nat;
    lemma_power_steps(b, 0, n, 1, 0, b);
    let v0: nat = b;
    let v1: nat = 0x4bc518bcnat;
    lemma_power_doubles(b, 1, n, v0, 0x2f4a591nat, v1);
    let v2: nat = 0x4c2e26ccnat;
    lemma_power_steps(b, 2, n, v1, 0xc7696d8nat, v2);
    let v3: nat = 0x36800f79nat;
    lemma_power_doubles(b, 3, n, v2, 0x35200a7bnat, v3);
    let v4: nat = 0x5d3ab74bnat;
    lemma_power_steps(b, 6, n, v3, 0x8f6f23cnat, v4);
    let v5: nat = 0x40b6abc1nat;
    lemma_power_doubles(b, 7, n, v4, 0x4f909158nat, v5);
    let v6: nat = 0xfa2723bnat;
    lemma_power_doubles(b, 14, n, v5, 0x2655fdaenat, v6);
    let v7: nat = 0x69717f3bnat;
    lemma_power_steps(b, 28, n, v6, 0x2925ab2nat, v7);
    let v8: nat = 0x470c3d10nat;
    lemma_power_doubles(b, 29, n, v7, 0x65c724a5nat, v8);
}

/// Modulo 1832756501: 2 to the power `(n - 1) / 29`.
proof fn lemma_1832756501_without_29()
    ensures
        power(0x11f8032fnat, 10, 0x6d3da515nat) == 0x6c7bf5cdnat,
{
    let b: nat = 0x11f8032fnat;
    let n: nat = 0x6d3da515nat;
    lemma_power_steps(b, 0, n, 1, 0, b);
    let v0: nat = b;
    let v1: nat = 0x4bc518bcnat;
    lemma_power_doubles(b, 1, n, v0, 0x2f4a591nat, v1);
    let v2: nat = 0x4cb848fcnat;
    lemma_power_doubles(b, 2, n, v1, 0x348de9c4nat, v2);
    let v3: nat = 0x2411b204nat;
    lemma_power_steps(b, 4, n, v2, 0xc9e9740nat, v3);
    let v4: nat = 0x6c7bf5cdnat;
    lemma_power_doubles(b, 5, n, v3, 0xbe8c7f7nat, v4);
}

/// Modulo 1832756501: 2 to the power `(n - 1) / 126397`.
proof fn lemma_1832756501_without_126397()
    ensures
        power(0x379eb690nat, 290, 0x6d3da515nat) == 0x5cc0d175nat,
{
    let b: nat = 0x379eb690nat;
    let n: nat = 0x6d3da515nat;
    lemma_power_steps(b, 0, n, 1, 0, b);
    let v0: nat = b;
    let v1: nat = 0x54702f51nat;
    lemma_power_doubles(b, 1, n, v0, 0x1c51a4b3nat, v1);
    let v2: nat = 0x1813bb8enat;
    lemma_power_doubles(b, 2, n, v1, 0x41445687nat, v2);
    let v3: nat = 0x13662298nat;
    lemma_power_doubles(b, 4, n, v2, 0x54e827cnat, v3);
    let v4: nat = 0x475ef851nat;
    lemma_power_steps(b, 8, n, v3, 0x9e08233nat, v4);
    let v5: nat = 0x5b85d754nat;
    lemma_power_doubles(b, 9, n, v4, 0x2ea11659nat, v5);
    let v6: nat = 0x1a1861efnat;
    lemma_power_doubles(b, 18, n, v5, 0x4cadb55dnat, v6);
    let v7: nat = 0x345db8ddnat;
    lemma_power_doubles(b, 36, n, v6, 0x63bcc34nat, v7);
    let v8: nat = 0x2d8e4039nat;
    lemma_power_doubles(b, 72, n, v7, 0x191a3850nat, v8);
    let v9: nat = 0x570dcbaanat;
    lemma_power_steps(b, 144, n, v8, 0x1731d64enat, v9);
    let v10: nat = 0x5cc0d175nat;
    lemma_power_doubles(b, 145, n, v9, 0x455f8773nat, v10);
}

/// Modulo 1832756501: 2 to the power `n - 1`.
proof fn lemma_1832756501_whole()
    ensures
        power(0x11f8032fnat, 290, 0x6d3da515nat) == 1,
{
    let b: nat = 0x11f8032fnat;
    let n: nat = 0x6d3da515nat;
    lemma_power_steps(b, 0, n, 1, 0, b);
    let v0: nat = b;
    let v1: nat = 0x4bc518bcnat;
    lemma_power_doubles(b, 1, n, v0, 0x2f4a591nat, v1);
    let v2: nat = 0x4cb848fcnat;
    lemma_power_doubles(b, 2, n, v1, 0x348de9c4nat, v2);
    let v3: nat = 0x18a6f801nat;
    lemma_power_doubles(b, 4, n, v2, 0x35e16193nat, v3);
    let v4: nat = 0x63b46d37nat;
    lemma_power_steps(b, 8, n, v3, 0x40e1418nat, v4);
    let v5: nat = 0x5e518b01nat;
    lemma_power_doubles(b, 9, n, v4, 0x5b004f90nat, v5);
    let v6: nat = 0x31517d50nat;
    lemma_power_doubles(b, 18, n, v5, 0x516f442dnat, v6);
    let v7: nat = 0x10385bdenat;
    lemma_power_doubles(b, 36, n, v6, 0x1643f51anat, v7);
    let v8: nat = 0x11c5078anat;
    lemma_power_doubles(b, 72, n, v7, 0x2688b92nat, v8);
    let v9: nat = 0x6d3da514nat;
    lemma_power_steps(b, 144, n, v8, 0x2ec42banat, v9);
    let v10: nat = 1;
    lemma_power_doubles(b, 145, n, v9, 0x6d3da513nat, v10);
}

/// 1832756501 is prime: 2 has order `n - 1` modulo it.
pub proof fn lemma_prime_1832756501()
    ensures
        is_prime_modulus(0x6d3da515nat),
{
    let n: nat = 0x6d3da515nat;
    let g: nat = 2;
    lemma_1832756501_root();
    lemma_1832756501_raised();
    lemma_power_of_power(g, 50, 126397, n);
    assert(power(g, 0x606eeanat, n) == 0x11f8032fnat);
    lemma_1832756501_without_2();
    lemma_power_of_power(g, 0x606eeanat, 145, n);
    assert(power(g, 0x369ed28anat, n) == 0x6d3da514nat);
    lemma_1832756501_without_5();
    lemma_power_of_power(g, 0x606eeanat, 58, n);
    assert(power(g, 0x15d92104nat, n) == 0x470c3d10nat);
    lemma_1832756501_without_29();
    lemma_power_of_power(g, 0x606eeanat, 10, n);
    assert(power(g, 0x3c45524nat, n) == 0x6c7bf5cdnat);
    lemma_1832756501_without_126397();
    lemma_power_of_power(g, 50, 290, n);
    assert(power(g, 14500, n) == 0x5cc0d175nat);
    lemma_1832756501_whole();
    lemma_power_of_power(g, 0x606eeanat, 290, n);
    assert(power(g, 0x6d3da514nat, n) == 1);
    lemma_prime_2();
    lemma_prime_5();
    lemma_prime_29();
    lemma_prime_126397();
    lemma_certified_start(n, g);
    let list_0: Seq<nat> = Seq::empty();
    lemma_certified_push(n, g, list_0, 1, 2);
    let list_1 = list_0.push(2);
    lemma_certified_push(n, g, list_1, 2, 2);
    let list_2 = list_1.push(2);
    lemma_certified_push(n, g, list_2, 4, 5);
    let list_3 = list_2.push(5);
    lemma_certified_push(n, g, list_3, 20, 5);
    let list_4 = list_3.push(5);
    lemma_certified_push(n, g, list_4, 100, 5);
    let list_5 = list_4.push(5);
    lemma_certified_push(n, g, list_5, 500, 29);
    let list_6 = list_5.push(29);
    lemma_certified_push(n, g, list_6, 14500, 126397);
    let list_7 = list_6.push(126397);
    lemma_lucas_certified(n, g, list_7);
}

/// Modulo 49484425527001: 14 to the power `c`, where `n - 1` is `c` times the product
/// of its prime factors.
proof fn lemma_49484425527001_root()
    ensures
        power(14, 900, 0x2d017d9afed9nat) == 0xec6732c9a98nat,
{
    let b: nat = 14;
    let n: nat = 0x2d017d9afed9nat;
    lemma_power_steps(b, 0, n, 1, 0, b);
    let v0: nat = b;
    let v1: nat = 196;
    lemma_power_doubles(b, 1, n, v0, 0, v1);
    let v2: nat = 2744;
    lemma_power_steps(b, 2, n, v1, 0, v2);
    let v3: nat = 0x72e440nat;
    lemma_power_doubles(b, 3, n, v2, 0, v3);
    let v4: nat = 0x6487b80nat;
    lemma_power_steps(b, 6, n, v3, 0, v4);
    let v5: nat = 0x1901cbf54220nat;
    lemma_power_doubles(b, 7, n, v4, 224, v5);
    let v6: nat = 0x6dd07b5516dnat;
    lemma_power_doubles(b, 14, n, v5, 0xde51787314bnat, v6);
    let v7: nat = 0xda60d76fd5bnat;
    lemma_power_doubles(b, 28, n, v6, 0x10bf29076benat, v7);
    let v8: nat = 0x23dc98068b93nat;
    lemma_power_doubles(b, 56, n, v7, 0x4239ec19936nat, v8);
    let v9: nat = 0xe8d94d22556nat;
    lemma_power_doubles(b, 112, n, v8, 0x1c934ff9b3cbnat, v9);
    let v10: nat = 0x17b82d120f50nat;
    lemma_power_steps(b, 224, n, v9, 4, v10);
    let v11: nat = 0xdcb98f840b2nat;
    lemma_power_doubles(b, 225, n, v10, 0xc8038b425fenat, v11);
    let v12: nat = 0xec6732c9a98nat;
    lemma_power_doubles(b, 450, n, v11, 0x43a83b9070cnat, v12);
}

/// Part 1 of `lemma_49484425527001_raised`.
proof fn lemma_49484425527001_raised_part_1()
    ensures
        power(0xec6732c9a98nat, 1747, 0x2d017d9afed9nat) == 0xc8e869678afnat,
{
    let b: nat = 0xec6732c9a98nat;
    let n: nat = 0x2d017d9afed9nat;
    lemma_power_steps(b, 0, n, 1, 0, b);
    let v0: nat = b;
    let v1: nat = 0x20e29438cc4nat;
    lemma_power_doubles(b, 1, n, v0, 0x4d9c29523dcnat, v1);
    let v2: nat = 0x2c8cc480eef3nat;
    lemma_power_steps(b, 2, n, v1, 0xacbc768eb5nat, v2);
    let v3: nat = 0x2b1feaae6f73nat;
    lemma_power_doubles(b, 3, n, v2, 0x2c193a1fcf26nat, v3);
    let v4: nat = 0x1081f5240a09nat;
    lemma_power_doubles(b, 6, n, v3, 0x295278b8fca0nat, v4);
    let v5: nat = 0xa6cad11e2cenat;
    lemma_power_steps(b, 12, n, v4, 0x56b5c8cde9anat, v5);
    let v6: nat = 0x159aa1333dd5nat;
    lemma_power_doubles(b, 13, n, v5, 0x26a22746807nat, v6);
    let v7: nat = 0xa8eaea1cde6nat;
    lemma_power_steps(b, 26, n, v6, 0x717add927e2nat, v7);
    let v8: nat = 0x20d08b62d21bnat;
    lemma_power_doubles(b, 27, n, v7, 0x279fd047931nat, v8);
    let v9: nat = 0x4716ff405b7nat;
    lemma_power_doubles(b, 54, n, v8, 0x17ed006260f2nat, v9);
    let v10: nat = 0x19cc25b9fb57nat;
    lemma_power_steps(b, 108, n, v9, 0x1756a4a2939nat, v10);
    let v11: nat = 0x1807875fe9e9nat;
    lemma_power_doubles(b, 109, n, v10, 0xec9838c01e8nat, v11);
    let v12: nat = 0xb3f1b65f8eenat;
    lemma_power_doubles(b, 218, n, v11, 0xcd46920d65bnat, v12);
    let v13: nat = 0x6dd06a51350nat;
    lemma_power_doubles(b, 436, n, v12, 0x2cf75e26914nat, v13);
    let v14: nat = 0x1ef0d4742ca8nat;
    lemma_power_steps(b, 872, n, v13, 0x240d2baaa98nat, v14);
    let v15: nat = 0x2b1ae7779bc3nat;
    lemma_power_doubles(b, 873, n, v14, 0x15456fc1b245nat, v15);
    let v16: nat = 0xc8e869678afnat;
    lemma_power_steps(b, 1746, n, v15, 0xe26b4b5fc41nat, v16);
}

/// Part 2 of `lemma_49484425527001_raised`.
proof fn lemma_49484425527001_raised_part_2()
    ensures
        power(0xec6732c9a98nat, 0x1b4f69nat, 0x2d017d9afed9nat) == 0x2bf9b2d8bd79nat,
{
    let b: nat = 0xec6732c9a98nat;
    let n: nat = 0x2d017d9afed9nat;
    lemma_49484425527001_raised_part_1();
    let v0: nat = 0xc8e869678afnat;
    let v1: nat = 0x171148c6f99nat;
    lemma_power_doubles(b, 1747, n, v0, 0x380dc6ae348nat, v1);
    let v2: nat = 0x292400b32977nat;
    lemma_power_steps(b, 3494, n, v1, 0x792ad283c9nat, v2);
    let v3: nat = 0x261c1eeb256dnat;
    lemma_power_doubles(b, 3495, n, v2, 0x259b7e740884nat, v3);
    let v4: nat = 0x19f268ca5203nat;
    lemma_power_steps(b, 6990, n, v3, 0xc82e331573dnat, v4);
    let v5: nat = 0x2c3e6b8c2c6anat;
    lemma_power_doubles(b, 6991, n, v4, 0xef5812f9737nat, v5);
    let v6: nat = 0x157edc2e6a13nat;
    lemma_power_doubles(b, 13982, n, v5, 0x2b7ea6fddfb9nat, v6);
    let v7: nat = 0x29d7300e8a8anat;
    lemma_power_steps(b, 27964, n, v6, 0x70e8ffdd9eenat, v7);
    let v8: nat = 0x209837573ba2nat;
    lemma_power_doubles(b, 27965, n, v7, 0x26e5df871792nat, v8);
    let v9: nat = 0x17c25fa880dnat;
    lemma_power_steps(b, 55930, n, v8, 0xab35db1855bnat, v9);
    let v10: nat = 0x1ea4f747ea61nat;
    lemma_power_doubles(b, 55931, n, v9, 0xc8afabb88nat, v10);
    let v11: nat = 0x18cde1852a9cnat;
    lemma_power_doubles(b, 111862, n, v10, 0x14dda02e522dnat, v11);
    let v12: nat = 0x2b7b503b1a1cnat;
    lemma_power_steps(b, 223724, n, v11, 0x824a2a55424nat, v12);
    let v13: nat = 0x2bb3976721a2nat;
    lemma_power_doubles(b, 223725, n, v12, 0x2a02597dd41enat, v13);
    let v14: nat = 0x236ad8e044a9nat;
    lemma_power_doubles(b, 447450, n, v13, 0x2a6f5e6801d3nat, v14);
    let v15: nat = 0x275cf5fdcaaenat;
    lemma_power_doubles(b, 894900, n, v14, 0x1bdf29d06c1bnat, v15);
    let v16: nat = 0x2bf9b2d8bd79nat;
    lemma_power_steps(b, 0x1b4f68nat, n, v15, 0xcec37bddc2fnat, v16);
}

/// Modulo 49484425527001: the root to the power 1832756501.
proof fn lemma_49484425527001_raised()
    ensures
        power(0xec6732c9a98nat, 0x6d3da515nat, 0x2d017d9afed9nat) == 0x173d1ad68e8anat,
{
    let b: nat = 0xec6732c9a98nat;
    let n: nat = 0x2d017d9afed9nat;
    lemma_49484425527001_raised_part_2();
    let v0: nat = 0x2bf9b2d8bd79nat;
    let v1: nat = 0x789d9d6de25nat;
    lemma_power_doubles(b, 0x1b4f69nat, n, v0, 0x2af7f23f9decnat, v1);
    let v2: nat = 0x10f98ca50e78nat;
    lemma_power_doubles(b, 0x369ed2nat, n, v1, 0x143400fcf49nat, v2);
    let v3: nat = 0x28e262cdcfa5nat;
    lemma_power_steps(b, 0x6d3da4nat, n, v2, 0x5929f790993nat, v3);
    let v4: nat = 0x193b85211f3enat;
    lemma_power_doubles(b, 0x6d3da5nat, n, v3, 0x2523e7998f13nat, v4);
    let v5: nat = 0xfe5ef8be4acnat;
    lemma_power_doubles(b, 0xda7b4anat, n, v4, 0xe2587205a18nat, v5);
    let v6: nat = 0x133f0e7aa468nat;
    lemma_power_doubles(b, 0x1b4f694nat, n, v5, 0x59db1a37f68nat, v6);
    let v7: nat = 0x1c03076c65eenat;
    lemma_power_doubles(b, 0x369ed28nat, n, v6, 0x83b025857a2nat, v7);
    let v8: nat = 0x1c97bce7f902nat;
    lemma_power_steps(b, 0x6d3da50nat, n, v7, 0x93236dba5fenat, v8);
    let v9: nat = 0x9258a564f7nat;
    lemma_power_doubles(b, 0x6d3da51nat, n, v8, 0x122a50b14955nat, v9);
    let v10: nat = 0x1417779d04e8nat;
    lemma_power_doubles(b, 0xda7b4a2nat, n, v9, 0x1dbe07d11nat, v10);
    let v11: nat = 0x18abc7334501nat;
    lemma_power_steps(b, 0x1b4f6944nat, n, v10, 0x6989355c157nat, v11);
    let v12: nat = 0x18196b006479nat;
    lemma_power_doubles(b, 0x1b4f6945nat, n, v11, 0xd8624b8ecc8nat, v12);
    let v13: nat = 0x1359a9f9871cnat;
    lemma_power_doubles(b, 0x369ed28anat, n, v12, 0xce78a87079dnat, v13);
    let v14: nat = 0x173d1ad68e8anat;
    lemma_power_steps(b, 0x6d3da514nat, n, v13, 0x65a43973106nat, v14);
}

/// Modulo 49484425527001: 14 to the power `(n - 1) / 2`.
proof fn lemma_49484425527001_without_2()
    ensures
        power(0x173d1ad68e8anat, 15, 0x2d017d9afed9nat) == 0x2d017d9afed8nat,
{
    let b: nat = 0x173d1ad68e8anat;
    let n: nat = 0x2d017d9afed9nat;
    lemma_power_steps(b, 0, n, 1, 0, b);
    let v0: nat = b;
    let v1: nat = 0x1d8ff5f4fc2nat;
    lemma_power_doubles(b, 1, n, v0, 0xbffcfc38672nat, v1);
    let v2: nat = 0x24cbce5375fcnat;
    lemma_power_steps(b, 2, n, v1, 0xf43b499a58nat, v2);
    let v3: nat = 0x3efa5e38570nat;
    lemma_power_doubles(b, 3, n, v2, 0x1e157fa5bba0nat, v3);
    let v4: nat = 0x1efefd53ebf3nat;
    lemma_power_steps(b, 6, n, v3, 0x2084c2dabb5nat, v4);
    let v5: nat = 0x20379161b882nat;
    lemma_power_doubles(b, 7, n, v4, 0x1558ec4a66ffnat, v5);
    let v6: nat = 0x2d017d9afed8nat;
    lemma_power_steps(b, 14, n, v5, 0x10a29e9f1f9cnat, v6);
}

/// Modulo 49484425527001: 14 to the power `(n - 1) / 3`.
proof fn lemma_49484425527001_without_3()
    ensures
        power(0x173d1ad68e8anat, 10, 0x2d017d9afed9nat) == 0x9bb2d591ec9nat,
{
    let b: nat = 0x173d1ad68e8anat;
    let n: nat = 0x2d017d9afed9nat;
    lemma_power_steps(b, 0, n, 1, 0, b);
    let v0: nat = b;
    let v1: nat = 0x1d8ff5f4fc2nat;
    lemma_power_doubles(b, 1, n, v0, 0xbffcfc38672nat, v1);
    let v2: nat = 0x913c1bdf1fdnat;
    lemma_power_doubles(b, 2, n, v1, 0x136b0f8edfnat, v2);
    let v3: nat = 0x9bb2d591ecanat;
    lemma_power_steps(b, 4, n, v2, 0x4afde512758nat, v3);
    let v4: nat = 0x9bb2d591ec9nat;
    lemma_power_doubles(b, 5, n, v3, 0x21aa4755293nat, v4);
}

/// Modulo 49484425527001: 14 to the power `(n - 1) / 5`.
proof fn lemma_49484425527001_without_5()
    ensures
        power(0x173d1ad68e8anat, 6, 0x2d017d9afed9nat) == 0x3efa5e38570nat,
{
    let b: nat = 0x173d1ad68e8anat;
    let n: nat = 0x2d017d9afed9nat;
    lemma_power_steps(b, 0, n, 1, 0, b);
    let v0: nat = b;
    let v1: nat = 0x1d8ff5f4fc2nat;
    lemma_power_doubles(b, 1, n, v0, 0xbffcfc38672nat, v1);
    let v2: nat = 0x24cbce5375fcnat;
    lemma_power_steps(b, 2, n, v1, 0xf43b499a58nat, v2);
    let v3: nat = 0x3efa5e38570nat;
    lemma_power_doubles(b, 3, n, v2, 0x1e157fa5bba0nat, v3);
}

/// Modulo 49484425527001: 14 to the power `(n - 1) / 1832756501`.
proof fn lemma_49484425527001_without_1832756501()
    ensures
        power(0xec6732c9a98nat, 30, 0x2d017d9afed9nat) == 0xa01087eb1bcnat,
{
    let b: nat = 0xec6732c9a98nat;
    let n: nat = 0x2d017d9afed9nat;
    lemma_power_steps(b, 0, n, 1, 0, b);
    let v0: nat = b;
    let v1: nat = 0x20e29438cc4nat;
    lemma_power_doubles(b, 1, n, v0, 0x4d9c29523dcnat, v1);
    let v2: nat = 0x2c8cc480eef3nat;
    lemma_power_steps(b, 2, n, v1, 0xacbc768eb5nat, v2);
    let v3: nat = 0x2b1feaae6f73nat;
    lemma_power_doubles(b, 3, n, v2, 0x2c193a1fcf26nat, v3);
    let v4: nat = 0x33933126c18nat;
    lemma_power_steps(b, 6, n, v3, 0xe2859fbe1b0nat, v4);
    let v5: nat = 0x46b4e665c1bnat;
    lemma_power_doubles(b, 7, n, v4, 0x3b1a5baa2dnat, v5);
    let v6: nat = 0x179dc1d57fbanat;
    lemma_power_steps(b, 14, n, v5, 0x17367034bfenat, v6);
    let v7: nat = 0xa01087eb1bcnat;
    lemma_power_doubles(b, 15, n, v6, 0xc646f595ba8nat, v7);
}

/// Modulo 49484425527001: 14 to the power `n - 1`.
proof fn lemma_49484425527001_whole()
    ensures
        power(0x173d1ad68e8anat, 30, 0x2d017d9afed9nat) == 1,
{
    let b: nat = 0x173d1ad68e8anat;
    let n: nat = 0x2d017d9afed9nat;
    lemma_power_steps(b, 0, n, 1, 0, b);
    let v0: nat = b;
    let v1: nat = 0x1d8ff5f4fc2nat;
    lemma_power_doubles(b, 1, n, v0, 0xbffcfc38672nat, v1);
    let v2: nat = 0x24cbce5375fcnat;
    lemma_power_steps(b, 2, n, v1, 0xf43b499a58nat, v2);
    let v3: nat = 0x3efa5e38570nat;
    lemma_power_doubles(b, 3, n, v2, 0x1e157fa5bba0nat, v3);
    let v4: nat = 0x1efefd53ebf3nat;
    lemma_power_steps(b, 6, n, v3, 0x2084c2dabb5nat, v4);
    let v5: nat = 0x20379161b882nat;
    lemma_power_doubles(b, 7, n, v4, 0x1558ec4a66ffnat, v5);
    let v6: nat = 0x2d017d9afed8nat;
    lemma_power_steps(b, 14, n, v5, 0x10a29e9f1f9cnat, v6);
    let v7: nat = 1;
    lemma_power_doubles(b, 15, n, v6, 0x2d017d9afed7nat, v7);
}

/// 49484425527001 is prime: 14 has order `n - 1` modulo it.
pub proof fn lemma_prime_49484425527001()
    ensures
        is_prime_modulus(0x2d017d9afed9nat),
{
    let n: nat = 0x2d017d9afed9nat;
    let g: nat = 14;
    lemma_49484425527001_root();
    lemma_49484425527001_raised();
    lemma_power_of_power(g, 900, 0x6d3da515nat, n);
    assert(power(g, 0x1800cb85dd4nat, n) == 0x173d1ad68e8anat);
    lemma_49484425527001_without_2();
    lemma_power_of_power(g, 0x1800cb85dd4nat, 15, n);
    assert(power(g, 0x1680becd7f6cnat, n) == 0x2d017d9afed8nat);
    lemma_49484425527001_without_3();
    lemma_power_of_power(g, 0x1800cb85dd4nat, 10, n);
    assert(power(g, 0xf007f33aa48nat, n) == 0x9bb2d591ec9nat);
    lemma_49484425527001_without_5();
    lemma_power_of_power(g, 0x1800cb85dd4nat, 6, n);
    assert(power(g, 0x9004c5232f8nat, n) == 0x3efa5e38570nat);
    lemma_49484425527001_without_1832756501();
    lemma_power_of_power(g, 900, 30, n);
    assert(power(g, 27000, n) == 0xa01087eb1bcnat);
    lemma_49484425527001_whole();
    lemma_power_of_power(g, 0x1800cb85dd4nat, 30, n);
    assert(power(g, 0x2d017d9afed8nat, n) == 1);
    lemma_prime_2();
    lemma_prime_3();
    lemma_prime_5();
    lemma_prime_1832756501();
    lemma_certified_start(n, g);
    let list_0: Seq<nat> = Seq::empty();
    lemma_certified_push(n, g, list_0, 1, 2);
    let list_1 = list_0.push(2);
    lemma_certified_push(n, g, list_1, 2, 2);
    let list_2 = list_1.push(2);
    lemma_certified_push(n, g, list_2, 4, 2);
    let list_3 = list_2.push(2);
    lemma_certified_push(n, g, list_3, 8, 3);
    let list_4 = list_3.push(3);
    lemma_certified_push(n, g, list_4, 24, 3);
    let list_5 = list_4.push(3);
    lemma_certified_push(n, g, list_5, 72, 3);
    let list_6 = list_5.push(3);
    lemma_certified_push(n, g, list_6, 216, 5);
    let list_7 = list_6.push(5);
    lemma_certified_push(n, g, list_7, 1080, 5);
    let list_8 = list_7.push(5);
    lemma_certified_push(n, g, list_8, 5400, 5);
    let list_9 = list_8.push(5);
    lemma_certified_push(n, g, list_9, 27000, 0x6d3da515nat);
    let list_10 = list_9.push(0x6d3da515nat);
    lemma_lucas_certified(n, g, list_10);
}

/// Modulo 958612291309063373: 2 to the power `c`, where `n - 1` is `c` times the product
/// of its prime factors.
proof fn lemma_958612291309063373_root()
    ensures
        power(2, 2, 0xd4daccccccccccdnat) == 4,
{
    let b: nat = 2;
    let n: nat = 0xd4daccccccccccdnat;
    lemma_power_steps(b, 0, n, 1, 0, b);
    let v0: nat = b;
    let v1: nat = 4;
    lemma_power_doubles(b, 1, n, v0, 0, v1);
}

/// Part 1 of `lemma_958612291309063373_raised`.
proof fn lemma_958612291309063373_raised_part_1()
    ensures
        power(4, 11520, 0xd4daccccccccccdnat) == 0x1d78dbfc2f0f4ednat,
{
    let b: nat = 4;
    let n: nat = 0xd4daccccccccccdnat;
    lemma_power_steps(b, 0, n, 1, 0, b);
    let v0: nat = b;
    let v1: nat = 16;
    lemma_power_doubles(b, 1, n, v0, 0, v1);
    let v2: nat = 256;
    lemma_power_doubles(b, 2, n, v1, 0, v2);
    let v3: nat = 1024;
    lemma_power_steps(b, 4, n, v2, 0, v3);
    let v4: nat = 0x100000nat;
    lemma_power_doubles(b, 5, n, v3, 0, v4);
    let v5: nat = 0x400000nat;
    lemma_power_steps(b, 10, n, v4, 0, v5);
    let v6: nat = 0x100000000000nat;
    lemma_power_doubles(b, 11, n, v5, 0, v6);
    let v7: nat = 0x579799995c05975nat;
    lemma_power_doubles(b, 22, n, v6, 0x133e40b7nat, v7);
    let v8: nat = 0x89839998a349907nat;
    lemma_power_steps(b, 44, n, v7, 1, v8);
    let v9: nat = 0xcc03e045948503bnat;
    lemma_power_doubles(b, 45, n, v8, 0x58d72b29d2d45cenat, v9);
    let v10: nat = 0xbd77be2c5d2133anat;
    lemma_power_doubles(b, 90, n, v9, 0xc38aed9648e43dbnat, v10);
    let v11: nat = 0x190eac8ce16a237nat;
    lemma_power_doubles(b, 180, n, v10, 0xa8a68020c8f22a1nat, v11);
    let v12: nat = 0x297d3c3699e5dd0nat;
    lemma_power_doubles(b, 360, n, v11, 0x2f3232ed1c7205nat, v12);
    let v13: nat = 0x68581bca4c87014nat;
    lemma_power_doubles(b, 720, n, v12, 0x81644f93b9bc9cnat, v13);
    let v14: nat = 0x15f964d0f838455nat;
    lemma_power_doubles(b, 1440, n, v13, 0x3326a0b6405f227nat, v14);
    let v15: nat = 0x6414ea239d5180enat;
    lemma_power_doubles(b, 2880, n, v14, 0x244bdc2dd35cd7nat, v15);
    let v16: nat = 0x1d78dbfc2f0f4ednat;
    lemma_power_doubles(b, 5760, n, v15, 0x2f0ea4d8d145b33nat, v16);
}

/// Part 2 of `lemma_958612291309063373_raised`.
proof fn lemma_958612291309063373_raised_part_2()
    ensures
        power(4, 0x5a02fanat, 0xd4daccccccccccdnat) == 0x73da1aa9bdc547bnat,
{
    let b: nat = 4;
    let n: nat = 0xd4daccccccccccdnat;
    lemma_958612291309063373_raised_part_1();
    let v0: nat = 0x1d78dbfc2f0f4ednat;
    let v1: nat = 0x75e36ff0bc3d3b4nat;
    lemma_power_steps(b, 11520, n, v0, 0, v1);
    let v2: nat = 0x11cfeaeb55ad1c7nat;
    lemma_power_doubles(b, 11521, n, v1, 0x414ab82cdacf7ednat, v2);
    let v3: nat = 0x4e00fe71502a6e0nat;
    lemma_power_doubles(b, 23042, n, v2, 0x17d95a700f6915nat, v3);
    let v4: nat = 0x63292cf873dceb3nat;
    lemma_power_steps(b, 46084, n, v3, 1, v4);
    let v5: nat = 0x1241076d6fb66f9nat;
    lemma_power_doubles(b, 46085, n, v4, 0x2e31fb08813d2f0nat, v5);
    let v6: nat = 0x49041db5bed9be4nat;
    lemma_power_steps(b, 92170, n, v5, 0, v6);
    let v7: nat = 0x80bfca66785fe9enat;
    lemma_power_doubles(b, 92171, n, v6, 0x190c00e81cf763anat, v7);
    let v8: nat = 0x5949900047e60denat;
    lemma_power_steps(b, 184342, n, v7, 2, v8);
    let v9: nat = 0x3dc1334e2c7c735nat;
    lemma_power_doubles(b, 184343, n, v8, 0x257430bbe055e8bnat, v9);
    let v10: nat = 0x222a006be525007nat;
    lemma_power_steps(b, 368686, n, v9, 1, v10);
    let v11: nat = 0xcbcbd85746f3b85nat;
    lemma_power_doubles(b, 368687, n, v10, 0x57bc518155b75cnat, v11);
    let v12: nat = 0xb09efaf6b5687adnat;
    lemma_power_steps(b, 737374, n, v11, 3, v12);
    let v13: nat = 0x22cdd14fdc1693enat;
    lemma_power_doubles(b, 737375, n, v12, 0x928e28751ec8857nat, v13);
    let v14: nat = 0xa4823e9f63db23cnat;
    lemma_power_doubles(b, 0x1680benat, n, v13, 0x5b0d94328b1be8nat, v14);
    let v15: nat = 0x137894172906289nat;
    lemma_power_steps(b, 0x2d017cnat, n, v14, 3, v15);
    let v16: nat = 0x73da1aa9bdc547bnat;
    lemma_power_doubles(b, 0x2d017dnat, n, v15, 0x1c7f7a08f43c2enat, v16);
}

/// Part 3 of `lemma_958612291309063373_raised`.
proof fn lemma_958612291309063373_raised_part_3()
    ensures
        power(4, 0x1680becd6nat, 0xd4daccccccccccdnat) == 0x3dda7a92438dd86nat,
{
    let b: nat = 4;
    let n: nat = 0xd4daccccccccccdnat;
    lemma_958612291309063373_raised_part_2();
    let v0: nat = 0x73da1aa9bdc547bnat;
    let v1: nat = 0x25b2d10d5d7b852nat;
    lemma_power_steps(b, 0x5a02fanat, n, v0, 2, v1);
    let v2: nat = 0x5da6f280e7bd302nat;
    lemma_power_doubles(b, 0x5a02fbnat, n, v1, 0x6ad3f593cec44anat, v2);
    let v3: nat = 0x4f56515cd027bbcnat;
    lemma_power_doubles(b, 0xb405f6nat, n, v2, 0x293488e502d1168nat, v3);
    let v4: nat = 0xb98516f307d6b7bnat;
    lemma_power_doubles(b, 0x1680becnat, n, v3, 0x1d924025b43e0e9nat, v4);
    let v5: nat = 0x6783f565b8f4785nat;
    lemma_power_steps(b, 0x2d017d8nat, n, v4, 3, v5);
    let v6: nat = 0xcc9a5561d6a7d17nat;
    lemma_power_doubles(b, 0x2d017d9nat, n, v5, 0x325774d17c0c60anat, v6);
    let v7: nat = 0xb3d8ef20f438df5nat;
    lemma_power_steps(b, 0x5a02fb2nat, n, v6, 3, v7);
    let v8: nat = 0xbbd20d4fd88f4a0nat;
    lemma_power_doubles(b, 0x5a02fb3nat, n, v7, 0x97f562aab20373dnat, v8);
    let v9: nat = 0x9fbaf3c4c34440dnat;
    lemma_power_doubles(b, 0xb405f66nat, n, v8, 0xa5bb0bfe5c19fbfnat, v9);
    let v10: nat = 0x5b68aca6aa9cdnat;
    lemma_power_steps(b, 0x1680beccnat, n, v9, 3, v10);
    let v11: nat = 0xaf766888e65f06bnat;
    lemma_power_doubles(b, 0x1680becdnat, n, v10, 0x27413f7d4b6nat, v11);
    let v12: nat = 0xcb23cae734225bcnat;
    lemma_power_doubles(b, 0x2d017d9anat, n, v11, 0x90a398f32c742f1nat, v12);
    let v13: nat = 0xadfec5366a23089nat;
    lemma_power_steps(b, 0x5a02fb34nat, n, v12, 3, v13);
    let v14: nat = 0x92f36d8d341842nat;
    lemma_power_doubles(b, 0x5a02fb35nat, n, v13, 0x8e3ae336af1d54bnat, v14);
    let v15: nat = 0x24bcdb634d06108nat;
    lemma_power_steps(b, 0xb405f66anat, n, v14, 0, v15);
    let v16: nat = 0x3dda7a92438dd86nat;
    lemma_power_doubles(b, 0xb405f66bnat, n, v15, 0x6573bfa3c6fda2nat, v16);
}

/// Part 4 of `lemma_958612291309063373_raised`.
proof fn lemma_958612291309063373_raised_part_4()
    ensures
        power(4, 0x2d017d9afecnat, 0xd4daccccccccccdnat) == 0xac43e474dde8ff6nat,
{
    let b: nat = 4;
    let n: nat = 0xd4daccccccccccdnat;
    lemma_958612291309063373_raised_part_3();
    let v0: nat = 0x3dda7a92438dd86nat;
    let v1: nat = 0x228f1d7c416a94bnat;
    lemma_power_steps(b, 0x1680becd6nat, n, v0, 1, v1);
    let v2: nat = 0x75a1914f10f2522nat;
    lemma_power_doubles(b, 0x1680becd7nat, n, v1, 0x59c6a72eecd233nat, v2);
    let v3: nat = 0x2cd0aba2aa2faeenat;
    lemma_power_steps(b, 0x2d017d9aenat, n, v2, 2, v3);
    let v4: nat = 0x31cfd8fa6c69241nat;
    lemma_power_doubles(b, 0x2d017d9afnat, n, v3, 0x96f7e4ee03af0fnat, v4);
    let v5: nat = 0xc73f63e9b1a4904nat;
    lemma_power_steps(b, 0x5a02fb35enat, n, v4, 0, v5);
    let v6: nat = 0x4873c883c2e7cd9nat;
    lemma_power_doubles(b, 0x5a02fb35fnat, n, v5, 0xba82a9b9b47f813nat, v6);
    let v7: nat = 0x4cf455423ed2697nat;
    lemma_power_steps(b, 0xb405f66benat, n, v6, 1, v7);
    let v8: nat = 0x7a6d8fb3c32c37fnat;
    lemma_power_doubles(b, 0xb405f66bfnat, n, v7, 0x1bd25c4a4060fdanat, v8);
    let v9: nat = 0x4000a5357317462nat;
    lemma_power_steps(b, 0x1680becd7enat, n, v8, 2, v9);
    let v10: nat = 0xaca3dc0f4ae4942nat;
    lemma_power_doubles(b, 0x1680becd7fnat, n, v9, 0x133ea4110b95d4anat, v10);
    let v11: nat = 0x190afe42446abd7nat;
    lemma_power_doubles(b, 0x2d017d9afenat, n, v10, 0x8c05f0eb0082de1nat, v11);
    let v12: nat = 0x642bf90911aaf5cnat;
    lemma_power_steps(b, 0x5a02fb35fcnat, n, v11, 0, v12);
    let v13: nat = 0x38d1f0d64dacc99nat;
    lemma_power_doubles(b, 0x5a02fb35fdnat, n, v12, 0x2f2456491c48e53nat, v13);
    let v14: nat = 0xe6cf68c69e6597nat;
    lemma_power_steps(b, 0xb405f66bfanat, n, v13, 1, v14);
    let v15: nat = 0x1369c8b135c91a1nat;
    lemma_power_doubles(b, 0xb405f66bfbnat, n, v14, 0xfa47c4cb7a330nat, v15);
    let v16: nat = 0xac43e474dde8ff6nat;
    lemma_power_doubles(b, 0x1680becd7f6nat, n, v15, 0x1c543bf1761477nat, v16);
}

/// Modulo 958612291309063373: the root to the power 49484425527001.
proof fn lemma_958612291309063373_raised()
    ensures
        power(4, 0x2d017d9afed9nat, 0xd4daccccccccccdnat) == 0x22661fd5271f782nat,
{
    let b: nat = 4;
    let n: nat = 0xd4daccccccccccdnat;
    lemma_958612291309063373_raised_part_4();
    let v0: nat = 0xac43e474dde8ff6nat;
    let v1: nat = 0x327f2b6d113d971nat;
    lemma_power_steps(b, 0x2d017d9afecnat, n, v0, 3, v1);
    let v2: nat = 0x9f625880775dfe7nat;
    lemma_power_doubles(b, 0x2d017d9afednat, n, v1, 0xbfac9a620473e2nat, v2);
    let v3: nat = 0xd3d3c86843de602nat;
    lemma_power_steps(b, 0x5a02fb35fdanat, n, v2, 2, v3);
    let v4: nat = 0xc305e24a1e634dfnat;
    lemma_power_doubles(b, 0x5a02fb35fdbnat, n, v3, 0xd2ce090408aefb9nat, v4);
    let v5: nat = 0x19022facb7ed71nat;
    lemma_power_doubles(b, 0xb405f66bfb6nat, n, v4, 0xb2af63b50852010nat, v5);
    let v6: nat = 0x7306ee5bb02e447nat;
    lemma_power_doubles(b, 0x1680becd7f6cnat, n, v5, 0x2f0333dba602nat, v6);
    let v7: nat = 0x22661fd5271f782nat;
    lemma_power_steps(b, 0x2d017d9afed8nat, n, v6, 2, v7);
}

/// Part 1 of `lemma_958612291309063373_without_2`.
proof fn lemma_958612291309063373_without_2_part_1()
    ensures
        power(0x22661fd5271f782nat, 2420, 0xd4daccccccccccdnat) == 0x94ee5b57e45304dnat,
{
    let b: nat = 0x22661fd5271f782nat;
    let n: nat = 0xd4daccccccccccdnat;
    lemma_power_steps(b, 0, n, 1, 0, b);
    let v0: nat = b;
    let v1: nat = 0x2598c9d01399224nat;
    lemma_power_doubles(b, 1, n, v0, 0x58f22d9230bb60nat, v1);
    let v2: nat = 0xa33ecea8e201376nat;
    lemma_power_doubles(b, 2, n, v1, 0x6a40a4a6a90802nat, v2);
    let v3: nat = 0x7786e181a3fcca7nat;
    lemma_power_doubles(b, 4, n, v2, 0x7d32c2a5fa6a4b1nat, v3);
    let v4: nat = 0x4bd14175602a0bfnat;
    lemma_power_steps(b, 8, n, v3, 0x1351028e2cd214bnat, v4);
    let v5: nat = 0x14d801f04f58518nat;
    lemma_power_doubles(b, 9, n, v4, 0x1b0172312ccef0dnat, v5);
    let v6: nat = 0x932eb59b604dfa7nat;
    lemma_power_doubles(b, 18, n, v5, 0x20a8734b915cfdnat, v6);
    let v7: nat = 0x73625490fce5a07nat;
    lemma_power_steps(b, 36, n, v6, 0x17c929e6dddc0e3nat, v7);
    let v8: nat = 0xaaf25b4c70a364dnat;
    lemma_power_doubles(b, 37, n, v7, 0x3e8c1d7456d8d74nat, v8);
    let v9: nat = 0xadaa2654f87a036nat;
    lemma_power_steps(b, 74, n, v8, 0x1ba053b402e3574nat, v9);
    let v10: nat = 0x15976c859590d07nat;
    lemma_power_doubles(b, 75, n, v9, 0x8db0accb75877d1nat, v10);
    let v11: nat = 0xd3c92deb6b86225nat;
    lemma_power_steps(b, 150, n, v10, 0x37d45fdaccee0dnat, v11);
    let v12: nat = 0x6b75ff02a210962nat;
    lemma_power_doubles(b, 151, n, v11, 0xd2b8eec5f6c8fd3nat, v12);
    let v13: nat = 0x7f953a20e33204enat;
    lemma_power_doubles(b, 302, n, v12, 0x364094b9b0c8e0enat, v13);
    let v14: nat = 0x714b30876e0c5d7nat;
    lemma_power_steps(b, 604, n, v13, 0x149e4cf986a72d9nat, v14);
    let v15: nat = 0x1a345c1fbcde8b0nat;
    lemma_power_doubles(b, 605, n, v14, 0x3c4d3172eb17965nat, v15);
    let v16: nat = 0x94ee5b57e45304dnat;
    lemma_power_doubles(b, 1210, n, v15, 0x339dda9b836b7fnat, v16);
}

/// Modulo 958612291309063373: 2 to the power `(n - 1) / 2`.
proof fn lemma_958612291309063373_without_2()
    ensures
        power(0x22661fd5271f782nat, 4843, 0xd4daccccccccccdnat) == 0xd4dacccccccccccnat,
{
    let b: nat = 0x22661fd5271f782nat;
    let n: nat = 0xd4daccccccccccdnat;
    lemma_958612291309063373_without_2_part_1();
    let v0: nat = 0x94ee5b57e45304dnat;
    let v1: nat = 0x169e6e2074e4504nat;
    lemma_power_steps(b, 2420, n, v0, 0x181181c2b19c16enat, v1);
    let v2: nat = 0x33460279220372enat;
    lemma_power_doubles(b, 2421, n, v1, 0x26750fe296b46anat, v2);
    let v3: nat = 0xd4dacccccccccccnat;
    lemma_power_steps(b, 4842, n, v2, 0x849431e48504d0nat, v3);
}

/// Modulo 958612291309063373: 2 to the power `(n - 1) / 29`.
proof fn lemma_958612291309063373_without_29()
    ensures
        power(0x22661fd5271f782nat, 334, 0xd4daccccccccccdnat) == 0x761ceeb7111f9d2nat,
{
    let b: nat = 0x22661fd5271f782nat;
    let n: nat = 0xd4daccccccccccdnat;
    lemma_power_steps(b, 0, n, 1, 0, b);
    let v0: nat = b;
    let v1: nat = 0x2598c9d01399224nat;
    lemma_power_doubles(b, 1, n, v0, 0x58f22d9230bb60nat, v1);
    let v2: nat = 0xa33ecea8e201376nat;
    lemma_power_doubles(b, 2, n, v1, 0x6a40a4a6a90802nat, v2);
    let v3: nat = 0x1548cc6e9142dacnat;
    lemma_power_steps(b, 4, n, v2, 0x1a61b5afd5cc740nat, v3);
    let v4: nat = 0x1b06676f013a4c4nat;
    lemma_power_doubles(b, 5, n, v3, 0x220da09ebb61fcnat, v4);
    let v5: nat = 0x9f37d12f83c8fb2nat;
    lemma_power_doubles(b, 10, n, v4, 0x36e6480283bfd6nat, v5);
    let v6: nat = 0x79ed1659f86fda0nat;
    lemma_power_doubles(b, 20, n, v5, 0x7718dda9ed6c2b4nat, v6);
    let v7: nat = 0x504bd68c430fb15nat;
    lemma_power_steps(b, 40, n, v6, 0x13b44537375f0d7nat, v7);
    let v8: nat = 0x22e1ee1889e2cc1nat;
    lemma_power_doubles(b, 41, n, v7, 0x1e4a61cb3940ed8nat, v8);
    let v9: nat = 0xfde6602604484dnat;
    lemma_power_steps(b, 82, n, v8, 0x5a324e15644b89nat, v9);
    let v10: nat = 0x23232225250a804nat;
    lemma_power_doubles(b, 83, n, v9, 0x12edc2628dbbb9nat, v10);
    let v11: nat = 0x685c8d7a7519bb6nat;
    lemma_power_steps(b, 166, n, v10, 0x5adae70f91db9anat, v11);
    let v12: nat = 0x761ceeb7111f9d2nat;
    lemma_power_doubles(b, 167, n, v11, 0x332afc3960f99danat, v12);
}

/// Modulo 958612291309063373: 2 to the power `(n - 1) / 167`.
proof fn lemma_958612291309063373_without_167()
    ensures
        power(0x22661fd5271f782nat, 58, 0xd4daccccccccccdnat) == 0xcce5d68bdced856nat,
{
    let b: nat = 0x22661fd5271f782nat;
    let n: nat = 0xd4daccccccccccdnat;
    lemma_power_steps(b, 0, n, 1, 0, b);
    let v0: nat = b;
    let v1: nat = 0x2598c9d01399224nat;
    lemma_power_doubles(b, 1, n, v0, 0x58f22d9230bb60nat, v1);
    let v2: nat = 0x3a41f4f11a94707nat;
    lemma_power_steps(b, 2, n, v1, 0x613703b1565845nat, v2);
    let v3: nat = 0xb4e20ccd5f446ddnat;
    lemma_power_doubles(b, 3, n, v2, 0xff1e6ebef908a4nat, v3);
    let v4: nat = 0xb0a87ae96b3df15nat;
    lemma_power_steps(b, 6, n, v3, 0x1d3b6831655b8b9nat, v4);
    let v5: nat = 0x2319b648b1225f5nat;
    lemma_power_doubles(b, 7, n, v4, 0x929deccf57738d4nat, v5);
    let v6: nat = 0x405dfd63331bec3nat;
    lemma_power_doubles(b, 14, n, v5, 0x5c9c60126ef48enat, v6);
    let v7: nat = 0xc910b3f8456a8bcnat;
    lemma_power_steps(b, 28, n, v6, 0xa66f7ab442c872nat, v7);
    let v8: nat = 0xcce5d68bdced856nat;
    lemma_power_doubles(b, 29, n, v7, 0xbdedc52ae9a38a2nat, v8);
}

/// Part 1 of `lemma_958612291309063373_without_49484425527001`.
proof fn lemma_958612291309063373_without_49484425527001_part_1()
    ensures
        power(4, 2420, 0xd4daccccccccccdnat) == 0x63b9d6fe6115a1bnat,
{
    let b: nat = 4;
    let n: nat = 0xd4daccccccccccdnat;
    lemma_power_steps(b, 0, n, 1, 0, b);
    let v0: nat = b;
    let v1: nat = 16;
    lemma_power_doubles(b, 1, n, v0, 0, v1);
    let v2: nat = 256;
    lemma_power_doubles(b, 2, n, v1, 0, v2);
    let v3: nat = 65536;
    lemma_power_doubles(b, 4, n, v2, 0, v3);
    let v4: nat = 262144;
    lemma_power_steps(b, 8, n, v3, 0, v4);
    let v5: nat = 0x1000000000nat;
    lemma_power_doubles(b, 9, n, v4, 0, v5);
    let v6: nat = 0x35cf33333332f5anat;
    lemma_power_doubles(b, 18, n, v5, 4926, v6);
    let v7: nat = 0x261ffffffff09bnat;
    lemma_power_steps(b, 36, n, v6, 1, v7);
    let v8: nat = 0x3688a25f3d7b79enat;
    lemma_power_doubles(b, 37, n, v7, 0x6d42416a5f27nat, v8);
    let v9: nat = 0x547bcb029211abnat;
    lemma_power_steps(b, 74, n, v8, 1, v9);
    let v10: nat = 0xbf33ab680332f0dnat;
    lemma_power_doubles(b, 75, n, v9, 0x21883a454dddcnat, v10);
    let v11: nat = 0x7e3e4739a6655cdnat;
    lemma_power_steps(b, 150, n, v10, 3, v11);
    let v12: nat = 0xa216d3805154e4dnat;
    lemma_power_doubles(b, 151, n, v11, 0x4adfd7d872a574cnat, v12);
    let v13: nat = 0x3e9dc86f280b3aanat;
    lemma_power_doubles(b, 302, n, v12, 0x7b6e5f600658d7bnat, v13);
    let v14: nat = 0x259c54efd3601dbnat;
    lemma_power_steps(b, 604, n, v13, 1, v14);
    let v15: nat = 0x497299447dad2b7nat;
    lemma_power_doubles(b, 605, n, v14, 0x6a54acd8bf192anat, v15);
    let v16: nat = 0x63b9d6fe6115a1bnat;
    lemma_power_doubles(b, 1210, n, v15, 0x1958069cd38f78enat, v16);
}

/// Modulo 958612291309063373: 2 to the power `(n - 1) / 49484425527001`.
proof fn lemma_958612291309063373_without_49484425527001()
    ensures
        power(4, 9686, 0xd4daccccccccccdnat) == 0x87244829d4d3639nat,
{
    let b: nat = 4;
    let n: nat = 0xd4daccccccccccdnat;
    lemma_958612291309063373_without_49484425527001_part_1();
    let v0: nat = 0x63b9d6fe6115a1bnat;
    let v1: nat = 0xba0c8f2cb789b9fnat;
    lemma_power_steps(b, 2420, n, v0, 1, v1);
    let v2: nat = 0x7062036465c5c7bnat;
    lemma_power_doubles(b, 2421, n, v1, 0xa29e81ec483d15enat, v2);
    let v3: nat = 0x17d273f7fd7d852nat;
    lemma_power_steps(b, 4842, n, v2, 2, v3);
    let v4: nat = 0x87244829d4d3639nat;
    lemma_power_doubles(b, 4843, n, v3, 0x2aa8570c1e5437nat, v4);
}

/// Part 1 of `lemma_958612291309063373_whole`.
proof fn lemma_958612291309063373_whole_part_1()
    ensures
        power(0x22661fd5271f782nat, 2420, 0xd4daccccccccccdnat) == 0x94ee5b57e45304dnat,
{
    let b: nat = 0x22661fd5271f782nat;
    let n: nat = 0xd4daccccccccccdnat;
    lemma_power_steps(b, 0, n, 1, 0, b);
    let v0: nat = b;
    let v1: nat = 0x2598c9d01399224nat;
    lemma_power_doubles(b, 1, n, v0, 0x58f22d9230bb60nat, v1);
    let v2: nat = 0xa33ecea8e201376nat;
    lemma_power_doubles(b, 2, n, v1, 0x6a40a4a6a90802nat, v2);
    let v3: nat = 0x7786e181a3fcca7nat;
    lemma_power_doubles(b, 4, n, v2, 0x7d32c2a5fa6a4b1nat, v3);
    let v4: nat = 0x4bd14175602a0bfnat;
    lemma_power_steps(b, 8, n, v3, 0x1351028e2cd214bnat, v4);
    let v5: nat = 0x14d801f04f58518nat;
    lemma_power_doubles(b, 9, n, v4, 0x1b0172312ccef0dnat, v5);
    let v6: nat = 0x932eb59b604dfa7nat;
    lemma_power_doubles(b, 18, n, v5, 0x20a8734b915cfdnat, v6);
    let v7: nat = 0x73625490fce5a07nat;
    lemma_power_steps(b, 36, n, v6, 0x17c929e6dddc0e3nat, v7);
    let v8: nat = 0xaaf25b4c70a364dnat;
    lemma_power_doubles(b, 37, n, v7, 0x3e8c1d7456d8d74nat, v8);
    let v9: nat = 0xadaa2654f87a036nat;
    lemma_power_steps(b, 74, n, v8, 0x1ba053b402e3574nat, v9);
    let v10: nat = 0x15976c859590d07nat;
    lemma_power_doubles(b, 75, n, v9, 0x8db0accb75877d1nat, v10);
    let v11: nat = 0xd3c92deb6b86225nat;
    lemma_power_steps(b, 150, n, v10, 0x37d45fdaccee0dnat, v11);
    let v12: nat = 0x6b75ff02a210962nat;
    lemma_power_doubles(b, 151, n, v11, 0xd2b8eec5f6c8fd3nat, v12);
    let v13: nat = 0x7f953a20e33204enat;
    lemma_power_doubles(b, 302, n, v12, 0x364094b9b0c8e0enat, v13);
    let v14: nat = 0x714b30876e0c5d7nat;
    lemma_power_steps(b, 604, n, v13, 0x149e4cf986a72d9nat, v14);
    let v15: nat = 0x1a345c1fbcde8b0nat;
    lemma_power_doubles(b, 605, n, v14, 0x3c4d3172eb17965nat, v15);
    let v16: nat = 0x94ee5b57e45304dnat;
    lemma_power_doubles(b, 1210, n, v15, 0x339dda9b836b7fnat, v16);
}

/// Modulo 958612291309063373: 2 to the power `n - 1`.
proof fn lemma_958612291309063373_whole()
    ensures
        power(0x22661fd5271f782nat, 9686, 0xd4daccccccccccdnat) == 1,
{
    let b: nat = 0x22661fd5271f782nat;
    let n: nat = 0xd4daccccccccccdnat;
    lemma_958612291309063373_whole_part_1();
    let v0: nat = 0x94ee5b57e45304dnat;
    let v1: nat = 0x169e6e2074e4504nat;
    lemma_power_steps(b, 2420, n, v0, 0x181181c2b19c16enat, v1);
    let v2: nat = 0x33460279220372enat;
    lemma_power_doubles(b, 2421, n, v1, 0x26750fe296b46anat, v2);
    let v3: nat = 0xd4dacccccccccccnat;
    lemma_power_steps(b, 4842, n, v2, 0x849431e48504d0nat, v3);
    let v4: nat = 1;
    lemma_power_doubles(b, 4843, n, v3, 0xd4daccccccccccbnat, v4);
}

/// 958612291309063373 is prime: 2 has order `n - 1` modulo it.
pub proof fn lemma_prime_958612291309063373()
    ensures
        is_prime_modulus(0xd4daccccccccccdnat),
{
    let n: nat = 0xd4daccccccccccdnat;
    let g: nat = 2;
    lemma_958612291309063373_root();
    lemma_958612291309063373_raised();
    lemma_power_of_power(g, 2, 0x2d017d9afed9nat, n);
    assert(power(g, 0x5a02fb35fdb2nat, n) == 0x22661fd5271f782nat);
    lemma_958612291309063373_without_2();
    lemma_power_of_power(g, 0x5a02fb35fdb2nat, 4843, n);
    assert(power(g, 0x6a6d66666666666nat, n) == 0xd4dacccccccccccnat);
    lemma_958612291309063373_without_29();
    lemma_power_of_power(g, 0x5a02fb35fdb2nat, 334, n);
    assert(power(g, 0x756fe3c070fe3cnat, n) == 0x761ceeb7111f9d2nat);
    lemma_958612291309063373_without_167();
    lemma_power_of_power(g, 0x5a02fb35fdb2nat, 58, n);
    assert(power(g, 0x1464acea3b7a54nat, n) == 0xcce5d68bdced856nat);
    lemma_958612291309063373_without_49484425527001();
    lemma_power_of_power(g, 2, 9686, n);
    assert(power(g, 19372, n) == 0x87244829d4d3639nat);
    lemma_958612291309063373_whole();
    lemma_power_of_power(g, 0x5a02fb35fdb2nat, 9686, n);
    assert(power(g, 0xd4dacccccccccccnat, n) == 1);
    lemma_prime_2();
    lemma_prime_29();
    lemma_prime_167();
    lemma_prime_49484425527001();
    lemma_certified_start(n, g);
    let list_0: Seq<nat> = Seq::empty();
    lemma_certified_push(n, g, list_0, 1, 2);
    let list_1 = list_0.push(2);
    lemma_certified_push(n, g, list_1, 2, 2);
    let list_2 = list_1.push(2);
    lemma_certified_push(n, g, list_2, 4, 29);
    let list_3 = list_2.push(29);
    lemma_certified_push(n, g, list_3, 116, 167);
    let list_4 = list_3.push(167);
    lemma_certified_push(n, g, list_4, 19372, 0x2d017d9afed9nat);
    let list_5 = list_4.push(0x2d017d9afed9nat);
    lemma_lucas_certified(n, g, list_5);
}

/// Part 1 of `lemma_9586122913090633729_root`.
proof fn lemma_9586122913090633729_root_part_1()
    ensures
        power(11, 65536, 0x8508c00000000001nat) == 0x202bd9d4abb23401nat,
{
    let b: nat = 11;
    let n: nat = 0x8508c00000000001nat;
    lemma_power_steps(b, 0, n, 1, 0, b);
    let v0: nat = b;
    let v1: nat = 121;
    lemma_power_doubles(b, 1, n, v0, 0, v1);
    let v2: nat = 14641;
    lemma_power_doubles(b, 2, n, v1, 0, v2);
    let v3: nat = 0xcc6db61nat;
    lemma_power_doubles(b, 4, n, v2, 0, v3);
    let v4: nat = 0xa33f092e0b1ac1nat;
    lemma_power_doubles(b, 8, n, v3, 0, v4);
    let v5: nat = 0x5bb19558e4532503nat;
    lemma_power_doubles(b, 16, n, v4, 0xc851c70ea07enat, v5);
    let v6: nat = 0x4303fb80c08310cnat;
    lemma_power_doubles(b, 32, n, v5, 0x3f3325465143acfdnat, v6);
    let v7: nat = 0x66b5ebd65277f976nat;
    lemma_power_doubles(b, 64, n, v6, 0x21c245e7ad9f1anat, v7);
    let v8: nat = 0x6bc07ffddde3ebffnat;
    lemma_power_doubles(b, 128, n, v7, 0x4f4c895398e6d665nat, v8);
    let v9: nat = 0xa0646c971a5208enat;
    lemma_power_doubles(b, 256, n, v8, 0x5746419f34230773nat, v9);
    let v10: nat = 0x682d7da0177d4b7nat;
    lemma_power_doubles(b, 512, n, v9, 0xc1606255b7fa0dnat, v10);
    let v11: nat = 0x7f353cd244982105nat;
    lemma_power_doubles(b, 1024, n, v10, 0x51949a9c4979ccnat, v11);
    let v12: nat = 0x4b0e46ac38a4964nat;
    lemma_power_doubles(b, 2048, n, v11, 0x79a30bbb1ea800b5nat, v12);
    let v13: nat = 0xe1504ee110e0c56nat;
    lemma_power_doubles(b, 4096, n, v12, 0x2a58637bcc22banat, v13);
    let v14: nat = 0xe1463e7415be1e6nat;
    lemma_power_doubles(b, 8192, n, v13, 0x17d9a6984a44afenat, v14);
    let v15: nat = 0xd64a2720961d8e5nat;
    lemma_power_doubles(b, 16384, n, v14, 0x17d7853237841bfnat, v15);
    let v16: nat = 0x202bd9d4abb23401nat;
    lemma_power_doubles(b, 32768, n, v15, 0x1592cc5839b08d8nat, v16);
}

/// Part 2 of `lemma_9586122913090633729_root`.
proof fn lemma_9586122913090633729_root_part_2()
    ensures
        power(11, 0x100000000nat, 0x8508c00000000001nat) == 0x22305efbecc8db68nat,
{
    let b: nat = 11;
    let n: nat = 0x8508c00000000001nat;
    lemma_9586122913090633729_root_part_1();
    let v0: nat = 0x202bd9d4abb23401nat;
    let v1: nat = 0x492939ec0de8a71bnat;
    lemma_power_doubles(b, 65536, n, v0, 0x7c7a741a40bc0e6nat, v1);
    let v2: nat = 0x4f5298c383f3f565nat;
    lemma_power_doubles(b, 131072, n, v1, 0x283bfb6c88104774nat, v2);
    let v3: nat = 0x4f76a6f427bd8288nat;
    lemma_power_doubles(b, 262144, n, v2, 0x2f4bf68aff3af751nat, v3);
    let v4: nat = 0x54ddfdda6b0f0256nat;
    lemma_power_doubles(b, 524288, n, v3, 0x2f76ff75044f65eanat, v4);
    let v5: nat = 0x644f3e42547ed27enat;
    lemma_power_doubles(b, 0x100000nat, n, v4, 0x3623c50ad59aa266nat, v5);
    let v6: nat = 0x423f0c1db735f39anat;
    lemma_power_doubles(b, 0x200000nat, n, v5, 0x4ba27dd0d9e5026anat, v6);
    let v7: nat = 0x1c040e4a54a51b63nat;
    lemma_power_doubles(b, 0x400000nat, n, v6, 0x20fd003e9cec9d41nat, v7);
    let v8: nat = 0x3140ce497147f43enat;
    lemma_power_doubles(b, 0x800000nat, n, v7, 0x5e65f67d744140bnat, v8);
    let v9: nat = 0xc53c70e63b2d0a7nat;
    lemma_power_doubles(b, 0x1000000nat, n, v8, 0x123c2625bbb76e5dnat, v9);
    let v10: nat = 0x69fc1298ce4dcb3cnat;
    lemma_power_doubles(b, 0x2000000nat, n, v9, 0x1246bf32dfe01b5nat, v10);
    let v11: nat = 0x131232654cab685enat;
    lemma_power_doubles(b, 0x4000000nat, n, v10, 0x546f5f9326c4cdb2nat, v11);
    let v12: nat = 0x5fb5681085a3792cnat;
    lemma_power_doubles(b, 0x8000000nat, n, v11, 0x2bbe2d7e27d0958nat, v12);
    let v13: nat = 0x396a55f1c70fdeanat;
    lemma_power_doubles(b, 0x10000000nat, n, v12, 0x44db046c22f1a1a6nat, v13);
    let v14: nat = 0x71cdb986b74f4a46nat;
    lemma_power_doubles(b, 0x20000000nat, n, v13, 0x18c78fa1490f9enat, v14);
    let v15: nat = 0x23354ae42619df77nat;
    lemma_power_doubles(b, 0x40000000nat, n, v14, 0x615a5722daa6abadnat, v15);
    let v16: nat = 0x22305efbecc8db68nat;
    lemma_power_doubles(b, 0x80000000nat, n, v15, 0x95169f0cf85ade9nat, v16);
}

/// Modulo 9586122913090633729: 11 to the power `c`, where `n - 1` is `c` times the product
/// of its prime factors.
proof fn lemma_9586122913090633729_root()
    ensures
        power(11, 0x200000000000nat, 0x8508c00000000001nat) == 0x74f3162c8cd13a14nat,
{
    let b: nat = 11;
    let n: nat = 0x8508c00000000001nat;
    lemma_9586122913090633729_root_part_2();
    let v0: nat = 0x22305efbecc8db68nat;
    let v1: nat = 0x143d822020f45ca7nat;
    lemma_power_doubles(b, 0x100000000nat, n, v0, 0x8c94def2d96bd99nat, v1);
    let v2: nat = 0x3417f127d50694bbnat;
    lemma_power_doubles(b, 0x200000000nat, n, v1, 0x3145502aad9e036nat, v2);
    let v3: nat = 0x44c60415cd10eeeanat;
    lemma_power_doubles(b, 0x400000000nat, n, v2, 0x1466168eb01bd1afnat, v3);
    let v4: nat = 0x5667c1ea7539557dnat;
    lemma_power_doubles(b, 0x800000000nat, n, v3, 0x238da03b0afe9867nat, v4);
    let v5: nat = 0x3f4d4014db313716nat;
    lemma_power_doubles(b, 0x1000000000nat, n, v4, 0x381eb76a950507f3nat, v5);
    let v6: nat = 0x8a2421eba3401fnat;
    lemma_power_doubles(b, 0x2000000000nat, n, v5, 0x1e1ef503daa335c5nat, v6);
    let v7: nat = 0x479bd05fed807751nat;
    lemma_power_doubles(b, 0x4000000000nat, n, v6, 0x8f71b4090c70nat, v7);
    let v8: nat = 0x38db085456e265a8nat;
    lemma_power_doubles(b, 0x8000000000nat, n, v7, 0x268b832d2bba01f9nat, v8);
    let v9: nat = 0x35fe2982a65f5e3nat;
    lemma_power_doubles(b, 0x10000000000nat, n, v8, 0x184c782c5a98085dnat, v9);
    let v10: nat = 0x3ecb7d0909fdcc55nat;
    lemma_power_doubles(b, 0x20000000000nat, n, v9, 0x15e9d1634c7af4nat, v10);
    let v11: nat = 0x2784fda9f2335a1enat;
    lemma_power_doubles(b, 0x40000000000nat, n, v10, 0x1da3f64b8ae63a1bnat, v11);
    let v12: nat = 0x58cc06ca30add2e4nat;
    lemma_power_doubles(b, 0x80000000000nat, n, v11, 0xbbd617f8eff48a0nat, v12);
    let v13: nat = 0x74f3162c8cd13a14nat;
    lemma_power_doubles(b, 0x100000000000nat, n, v12, 0x3b450ebfa911a0fcnat, v13);
}

/// Modulo 9586122913090633729: the root to the power 499.
proof fn lemma_9586122913090633729_raised()
    ensures
        power(0x74f3162c8cd13a14nat, 499, 0x8508c00000000001nat) == 0x5ac62961e167210dnat,
{
    let b: nat = 0x74f3162c8cd13a14nat;
    let n: nat = 0x8508c00000000001nat;
    lemma_power_steps(b, 0, n, 1, 0, b);
    let v0: nat = b;
    let v1: nat = 0x3da8237578671e7enat;
    lemma_power_doubles(b, 1, n, v0, 0x66cf45f0496df312nat, v1);
    let v2: nat = 0x69a6a6eb7ad846dfnat;
    lemma_power_steps(b, 2, n, v1, 0x3633be0e16fca6f9nat, v2);
    let v3: nat = 0x47993001c6a7517fnat;
    lemma_power_doubles(b, 3, n, v2, 0x53e77bac714764c2nat, v3);
    let v4: nat = 0x54efedb1cb302b4fnat;
    lemma_power_steps(b, 6, n, v3, 0x3ef114729f07f89dnat, v4);
    let v5: nat = 0xefe2ceffe7e3c48nat;
    lemma_power_doubles(b, 7, n, v4, 0x363aaa0d90756619nat, v5);
    let v6: nat = 0x640a1ec6bd599718nat;
    lemma_power_steps(b, 14, n, v5, 0xd2e1e0854f36e88nat, v6);
    let v7: nat = 0x4e93dd1b0fa16a02nat;
    lemma_power_doubles(b, 15, n, v6, 0x4b3a6478c83be83enat, v7);
    let v8: nat = 0x2aaf1843a5ce35f4nat;
    lemma_power_steps(b, 30, n, v7, 0x4513bc7cc8748634nat, v8);
    let v9: nat = 0x1102012331e7f4denat;
    lemma_power_doubles(b, 31, n, v8, 0xdb1f43c3626fbb2nat, v9);
    let v10: nat = 0x3fdf2abb6e2d1df2nat;
    lemma_power_doubles(b, 62, n, v9, 0x22ca3e160aed292nat, v10);
    let v11: nat = 0x2427832f546b1f2cnat;
    lemma_power_doubles(b, 124, n, v10, 0x1eaa720c2e299998nat, v11);
    let v12: nat = 0x6592597319ffe7cnat;
    lemma_power_steps(b, 248, n, v11, 0x1fc8774c2eba68f4nat, v12);
    let v13: nat = 0x47b624e24dee3064nat;
    lemma_power_doubles(b, 249, n, v12, 0x4d8ccf45141bacnat, v13);
    let v14: nat = 0x5ac62961e167210dnat;
    lemma_power_steps(b, 498, n, v13, 0x3f0a89105dcf4ec3nat, v14);
}

/// Modulo 9586122913090633729: 11 to the power `(n - 1) / 2`.
proof fn lemma_9586122913090633729_without_2()
    ensures
        power(0x5ac62961e167210dnat, 273, 0x8508c00000000001nat) == 0x8508c00000000000nat,
{
    let b: nat = 0x5ac62961e167210dnat;
    let n: nat = 0x8508c00000000001nat;
    lemma_power_steps(b, 0, n, 1, 0, b);
    let v0: nat = b;
    let v1: nat = 0x5641a8e316ec190cnat;
    lemma_power_doubles(b, 1, n, v0, 0x3df03e9b5fce419dnat, v1);
    let v2: nat = 0x56505420f0707740nat;
    lemma_power_doubles(b, 2, n, v1, 0x37ed45335022e150nat, v2);
    let v3: nat = 0x1c51948cacc56754nat;
    lemma_power_doubles(b, 4, n, v2, 0x38004c73e2c728acnat, v3);
    let v4: nat = 0x2e2cb75adc53598nat;
    lemma_power_doubles(b, 8, n, v3, 0x607337b63377df8nat, v4);
    let v5: nat = 0x5dd58a21d2178b3fnat;
    lemma_power_steps(b, 16, n, v4, 0x1f81b4994fcc579nat, v5);
    let v6: nat = 0x66c2e34fc44d17f6nat;
    lemma_power_doubles(b, 17, n, v5, 0x422f518be8c2618bnat, v6);
    let v7: nat = 0x2086176ee6bcb79nat;
    lemma_power_doubles(b, 34, n, v6, 0x4f6090452dce54ebnat, v7);
    let v8: nat = 0x62fc2dbb0ae42f84nat;
    lemma_power_doubles(b, 68, n, v7, 0x7f389a9faefadnat, v8);
    let v9: nat = 0x23386577dc1be36enat;
    lemma_power_doubles(b, 136, n, v8, 0x49a68c7b1fd5d8a2nat, v9);
    let v10: nat = 0x8508c00000000000nat;
    lemma_power_steps(b, 272, n, v9, 0x1808373ff4fdba96nat, v10);
}

/// Modulo 9586122913090633729: 11 to the power `(n - 1) / 3`.
proof fn lemma_9586122913090633729_without_3()
    ensures
        power(0x5ac62961e167210dnat, 182, 0x8508c00000000001nat) == 0x119d401ac614291cnat,
{
    let b: nat = 0x5ac62961e167210dnat;
    let n: nat = 0x8508c00000000001nat;
    lemma_power_steps(b, 0, n, 1, 0, b);
    let v0: nat = b;
    let v1: nat = 0x5641a8e316ec190cnat;
    lemma_power_doubles(b, 1, n, v0, 0x3df03e9b5fce419dnat, v1);
    let v2: nat = 0x56505420f0707740nat;
    lemma_power_doubles(b, 2, n, v1, 0x37ed45335022e150nat, v2);
    let v3: nat = 0x729ee8a031173692nat;
    lemma_power_steps(b, 4, n, v2, 0x3ae52159bebe17aenat, v3);
    let v4: nat = 0x5da1773e80f33b3fnat;
    lemma_power_doubles(b, 5, n, v3, 0x62c184403ceab005nat, v4);
    let v5: nat = 0x66af122790587763nat;
    lemma_power_steps(b, 10, n, v4, 0x3fe33d728bfda9d0nat, v5);
    let v6: nat = 0x3aaf3b45067759f0nat;
    lemma_power_doubles(b, 11, n, v5, 0x4f41f5c6a545d659nat, v6);
    let v7: nat = 0x6bcf11a7510ba187nat;
    lemma_power_doubles(b, 22, n, v6, 0x19e31994abad1f79nat, v7);
    let v8: nat = 0x2ed805014d7697d0nat;
    lemma_power_steps(b, 44, n, v7, 0x498fd9bcf444030bnat, v8);
    let v9: nat = 0x51d98086f7eec29bnat;
    lemma_power_doubles(b, 45, n, v8, 0x107e9d5c75d84665nat, v9);
    let v10: nat = 0x119d401ac614291dnat;
    lemma_power_steps(b, 90, n, v9, 0x37d9568b1f7eb3c2nat, v10);
    let v11: nat = 0x119d401ac614291cnat;
    lemma_power_doubles(b, 91, n, v10, 0x2550af8890e242dnat, v11);
}

/// Modulo 9586122913090633729: 11 to the power `(n - 1) / 7`.
proof fn lemma_9586122913090633729_without_7()
    ensures
        power(0x5ac62961e167210dnat, 78, 0x8508c00000000001nat) == 0x22ca21daf5ddc8banat,
{
    let b: nat = 0x5ac62961e167210dnat;
    let n: nat = 0x8508c00000000001nat;
    lemma_power_steps(b, 0, n, 1, 0, b);
    let v0: nat = b;
    let v1: nat = 0x5641a8e316ec190cnat;
    lemma_power_doubles(b, 1, n, v0, 0x3df03e9b5fce419dnat, v1);
    let v2: nat = 0x56505420f0707740nat;
    lemma_power_doubles(b, 2, n, v1, 0x37ed45335022e150nat, v2);
    let v3: nat = 0x1c51948cacc56754nat;
    lemma_power_doubles(b, 4, n, v2, 0x38004c73e2c728acnat, v3);
    let v4: nat = 0x7794245cc3f4077anat;
    lemma_power_steps(b, 8, n, v3, 0x1352a71edb300bcanat, v4);
    let v5: nat = 0x2b56cedfb4bb654nat;
    lemma_power_doubles(b, 9, n, v4, 0x6b7beec4217c2fd0nat, v5);
    let v6: nat = 0xc987fbf82deef43nat;
    lemma_power_steps(b, 18, n, v5, 0x1d9264532462701nat, v6);
    let v7: nat = 0x6d8fa14ed9fbf164nat;
    lemma_power_doubles(b, 19, n, v6, 0x1314bcf09d63a25nat, v7);
    let v8: nat = 0x46110df604320e30nat;
    lemma_power_steps(b, 38, n, v7, 0x4ac1eb8f8af317e4nat, v8);
    let v9: nat = 0x22ca21daf5ddc8banat;
    lemma_power_doubles(b, 39, n, v8, 0x24e71ca015ab8046nat, v9);
}

/// Modulo 9586122913090633729: 11 to the power `(n - 1) / 13`.
proof fn lemma_9586122913090633729_without_13()
    ensures
        power(0x5ac62961e167210dnat, 42, 0x8508c00000000001nat) == 0x4671b9751910b411nat,
{
    let b: nat = 0x5ac62961e167210dnat;
    let n: nat = 0x8508c00000000001nat;
    lemma_power_steps(b, 0, n, 1, 0, b);
    let v0: nat = b;
    let v1: nat = 0x5641a8e316ec190cnat;
    lemma_power_doubles(b, 1, n, v0, 0x3df03e9b5fce419dnat, v1);
    let v2: nat = 0x56505420f0707740nat;
    lemma_power_doubles(b, 2, n, v1, 0x37ed45335022e150nat, v2);
    let v3: nat = 0x729ee8a031173692nat;
    lemma_power_steps(b, 4, n, v2, 0x3ae52159bebe17aenat, v3);
    let v4: nat = 0x5da1773e80f33b3fnat;
    lemma_power_doubles(b, 5, n, v3, 0x62c184403ceab005nat, v4);
    let v5: nat = 0x5ca4b682bbb376d0nat;
    lemma_power_doubles(b, 10, n, v4, 0x41e5f059cb9ca2b1nat, v5);
    let v6: nat = 0x64deed3a8a465830nat;
    lemma_power_steps(b, 20, n, v5, 0x3f36c70cbdd78060nat, v6);
    let v7: nat = 0x4671b9751910b411nat;
    lemma_power_doubles(b, 21, n, v6, 0x4c7bc6b2ff9054efnat, v7);
}

/// Modulo 9586122913090633729: 11 to the power `(n - 1) / 499`.
proof fn lemma_9586122913090633729_without_499()
    ensures
        power(0x74f3162c8cd13a14nat, 546, 0x8508c00000000001nat) == 0x1945d0ed6114f227nat,
{
    let b: nat = 0x74f3162c8cd13a14nat;
    let n: nat = 0x8508c00000000001nat;
    lemma_power_steps(b, 0, n, 1, 0, b);
    let v0: nat = b;
    let v1: nat = 0x3da8237578671e7enat;
    lemma_power_doubles(b, 1, n, v0, 0x66cf45f0496df312nat, v1);
    let v2: nat = 0x129340cb41139b56nat;
    lemma_power_doubles(b, 2, n, v1, 0x1c9368806bf22aaenat, v2);
    let v3: nat = 0x838da2b61cd74a2nat;
    lemma_power_doubles(b, 4, n, v2, 0x297f69ab737cc42nat, v3);
    let v4: nat = 0x638dd6f4f691eaa6nat;
    lemma_power_doubles(b, 8, n, v3, 0x8216bdce054bdenat, v4);
    let v5: nat = 0x394e09b71f0db53enat;
    lemma_power_steps(b, 16, n, v4, 0x578473448d083bbanat, v5);
    let v6: nat = 0x23022499f27f2756nat;
    lemma_power_doubles(b, 17, n, v5, 0x18af28aafa1d93aenat, v6);
    let v7: nat = 0x215aefa838632e6enat;
    lemma_power_doubles(b, 34, n, v6, 0x9366aaa6cfc2276nat, v7);
    let v8: nat = 0x768ceeae52315ba4nat;
    lemma_power_doubles(b, 68, n, v7, 0x85cf06ebf4e5ba0nat, v8);
    let v9: nat = 0x4afb60997a6a1f64nat;
    lemma_power_doubles(b, 136, n, v8, 0x69a4ca8fcb2be1acnat, v9);
    let v10: nat = 0x42d8fdeaa6002933nat;
    lemma_power_steps(b, 272, n, v9, 0x41ea8acd460af29dnat, v10);
    let v11: nat = 0x1945d0ed6114f227nat;
    lemma_power_doubles(b, 273, n, v10, 0x219703bcc98c6e02nat, v11);
}

/// Modulo 9586122913090633729: 11 to the power `n - 1`.
proof fn lemma_9586122913090633729_whole()
    ensures
        power(0x5ac62961e167210dnat, 546, 0x8508c00000000001nat) == 1,
{
    let b: nat = 0x5ac62961e167210dnat;
    let n: nat = 0x8508c00000000001nat;
    lemma_power_steps(b, 0, n, 1, 0, b);
    let v0: nat = b;
    let v1: nat = 0x5641a8e316ec190cnat;
    lemma_power_doubles(b, 1, n, v0, 0x3df03e9b5fce419dnat, v1);
    let v2: nat = 0x56505420f0707740nat;
    lemma_power_doubles(b, 2, n, v1, 0x37ed45335022e150nat, v2);
    let v3: nat = 0x1c51948cacc56754nat;
    lemma_power_doubles(b, 4, n, v2, 0x38004c73e2c728acnat, v3);
    let v4: nat = 0x2e2cb75adc53598nat;
    lemma_power_doubles(b, 8, n, v3, 0x607337b63377df8nat, v4);
    let v5: nat = 0x5dd58a21d2178b3fnat;
    lemma_power_steps(b, 16, n, v4, 0x1f81b4994fcc579nat, v5);
    let v6: nat = 0x66c2e34fc44d17f6nat;
    lemma_power_doubles(b, 17, n, v5, 0x422f518be8c2618bnat, v6);
    let v7: nat = 0x2086176ee6bcb79nat;
    lemma_power_doubles(b, 34, n, v6, 0x4f6090452dce54ebnat, v7);
    let v8: nat = 0x62fc2dbb0ae42f84nat;
    lemma_power_doubles(b, 68, n, v7, 0x7f389a9faefadnat, v8);
    let v9: nat = 0x23386577dc1be36enat;
    lemma_power_doubles(b, 136, n, v8, 0x49a68c7b1fd5d8a2nat, v9);
    let v10: nat = 0x8508c00000000000nat;
    lemma_power_steps(b, 272, n, v9, 0x1808373ff4fdba96nat, v10);
    let v11: nat = 1;
    lemma_power_doubles(b, 273, n, v10, 0x8508bfffffffffffnat, v11);
}

/// 9586122913090633729 is prime: 11 has order `n - 1` modulo it.
pub proof fn lemma_prime_9586122913090633729()
    ensures
        is_prime_modulus(0x8508c00000000001nat),
{
    let n: nat = 0x8508c00000000001nat;
    let g: nat = 11;
    lemma_9586122913090633729_root();
    lemma_9586122913090633729_raised();
    lemma_power_of_power(g, 0x200000000000nat, 499, n);
    assert(power(g, 0x3e600000000000nat, n) == 0x5ac62961e167210dnat);
    lemma_9586122913090633729_without_2();
    lemma_power_of_power(g, 0x3e600000000000nat, 273, n);
    assert(power(g, 0x4284600000000000nat, n) == 0x8508c00000000000nat);
    lemma_9586122913090633729_without_3();
    lemma_power_of_power(g, 0x3e600000000000nat, 182, n);
    assert(power(g, 0x2c58400000000000nat, n) == 0x119d401ac614291cnat);
    lemma_9586122913090633729_without_7();
    lemma_power_of_power(g, 0x3e600000000000nat, 78, n);
    assert(power(g, 0x1301400000000000nat, n) == 0x22ca21daf5ddc8banat);
    lemma_9586122913090633729_without_13();
    lemma_power_of_power(g, 0x3e600000000000nat, 42, n);
    assert(power(g, 0xa3bc00000000000nat, n) == 0x4671b9751910b411nat);
    lemma_9586122913090633729_without_499();
    lemma_power_of_power(g, 0x200000000000nat, 546, n);
    assert(power(g, 0x44400000000000nat, n) == 0x1945d0ed6114f227nat);
    lemma_9586122913090633729_whole();
    lemma_power_of_power(g, 0x3e600000000000nat, 546, n);
    assert(power(g, 0x8508c00000000000nat, n) == 1);
    lemma_prime_2();
    lemma_prime_3();
    lemma_prime_7();
    lemma_prime_13();
    lemma_prime_499();
    lemma_certified_start(n, g);
    let list_0: Seq<nat> = Seq::empty();
    lemma_certified_push(n, g, list_0, 1, 2);
    let list_1 = list_0.push(2);
    lemma_certified_push(n, g, list_1, 2, 2);
    let list_2 = list_1.push(2);
    lemma_certified_push(n, g, list_2, 4, 2);
    let list_3 = list_2.push(2);
    lemma_certified_push(n, g, list_3, 8, 2);
    let list_4 = list_3.push(2);
    lemma_certified_push(n, g, list_4, 16, 2);
    let list_5 = list_4.push(2);
    lemma_certified_push(n, g, list_5, 32, 2);
    let list_6 = list_5.push(2);
    lemma_certified_push(n, g, list_6, 64, 2);
    let list_7 = list_6.push(2);
    lemma_certified_push(n, g, list_7, 128, 2);
    let list_8 = list_7.push(2);
    lemma_certified_push(n, g, list_8, 256, 2);
    let list_9 = list_8.push(2);
    lemma_certified_push(n, g, list_9, 512, 2);
    let list_10 = list_9.push(2);
    lemma_certified_push(n, g, list_10, 1024, 2);
    let list_11 = list_10.push(2);
    lemma_certified_push(n, g, list_11, 2048, 2);
    let list_12 = list_11.push(2);
    lemma_certified_push(n, g, list_12, 4096, 2);
    let list_13 = list_12.push(2);
    lemma_certified_push(n, g, list_13, 8192, 2);
    let list_14 = list_13.push(2);
    lemma_certified_push(n, g, list_14, 16384, 2);
    let list_15 = list_14.push(2);
    lemma_certified_push(n, g, list_15, 32768, 2);
    let list_16 = list_15.push(2);
    lemma_certified_push(n, g, list_16, 65536, 2);
    let list_17 = list_16.push(2);
    lemma_certified_push(n, g, list_17, 131072, 2);
    let list_18 = list_17.push(2);
    lemma_certified_push(n, g, list_18, 262144, 2);
    let list_19 = list_18.push(2);
    lemma_certified_push(n, g, list_19, 524288, 2);
    let list_20 = list_19.push(2);
    lemma_certified_push(n, g, list_20, 0x100000nat, 2);
    let list_21 = list_20.push(2);
    lemma_certified_push(n, g, list_21, 0x200000nat, 2);
    let list_22 = list_21.push(2);
    lemma_certified_push(n, g, list_22, 0x400000nat, 2);
    let list_23 = list_22.push(2);
    lemma_certified_push(n, g, list_23, 0x800000nat, 2);
    let list_24 = list_23.push(2);
    lemma_certified_push(n, g, list_24, 0x1000000nat, 2);
    let list_25 = list_24.push(2);
    lemma_certified_push(n, g, list_25, 0x2000000nat, 2);
    let list_26 = list_25.push(2);
    lemma_certified_push(n, g, list_26, 0x4000000nat, 2);
    let list_27 = list_26.push(2);
    lemma_certified_push(n, g, list_27, 0x8000000nat, 2);
    let list_28 = list_27.push(2);
    lemma_certified_push(n, g, list_28, 0x10000000nat, 2);
    let list_29 = list_28.push(2);
    lemma_certified_push(n, g, list_29, 0x20000000nat, 2);
    let list_30 = list_29.push(2);
    lemma_certified_push(n, g, list_30, 0x40000000nat, 2);
    let list_31 = list_30.push(2);
    lemma_certified_push(n, g, list_31, 0x80000000nat, 2);
    let list_32 = list_31.push(2);
    lemma_certified_push(n, g, list_32, 0x100000000nat, 2);
    let list_33 = list_32.push(2);
    lemma_certified_push(n, g, list_33, 0x200000000nat, 2);
    let list_34 = list_33.push(2);
    lemma_certified_push(n, g, list_34, 0x400000000nat, 2);
    let list_35 = list_34.push(2);
    lemma_certified_push(n, g, list_35, 0x800000000nat, 2);
    let list_36 = list_35.push(2);
    lemma_certified_push(n, g, list_36, 0x1000000000nat, 2);
    let list_37 = list_36.push(2);
    lemma_certified_push(n, g, list_37, 0x2000000000nat, 2);
    let list_38 = list_37.push(2);
    lemma_certified_push(n, g, list_38, 0x4000000000nat, 2);
    let list_39 = list_38.push(2);
    lemma_certified_push(n, g, list_39, 0x8000000000nat, 2);
    let list_40 = list_39.push(2);
    lemma_certified_push(n, g, list_40, 0x10000000000nat, 2);
    let list_41 = list_40.push(2);
    lemma_certified_push(n, g, list_41, 0x20000000000nat, 2);
    let list_42 = list_41.push(2);
    lemma_certified_push(n, g, list_42, 0x40000000000nat, 2);
    let list_43 = list_42.push(2);
    lemma_certified_push(n, g, list_43, 0x80000000000nat, 2);
    let list_44 = list_43.push(2);
    lemma_certified_push(n, g, list_44, 0x100000000000nat, 2);
    let list_45 = list_44.push(2);
    lemma_certified_push(n, g, list_45, 0x200000000000nat, 2);
    let list_46 = list_45.push(2);
    lemma_certified_push(n, g, list_46, 0x400000000000nat, 3);
    let list_47 = list_46.push(3);
    lemma_certified_push(n, g, list_47, 0xc00000000000nat, 7);
    let list_48 = list_47.push(7);
    lemma_certified_push(n, g, list_48, 0x5400000000000nat, 13);
    let list_49 = list_48.push(13);
    lemma_certified_push(n, g, list_49, 0x44400000000000nat, 499);
    let list_50 = list_49.push(499);
    lemma_lucas_certified(n, g, list_50);
}

} // verus!
