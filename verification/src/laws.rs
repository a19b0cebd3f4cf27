//! What holds of the commitment scheme and the accumulator as a whole:
//! honest openings verify and tampered openings do not; commitments add; a
//! root is never shown to be a non-member and every other candidate is; the
//! first fold leaves the commitment, and the order of the roots is
//! immaterial.

use crate::accumulator::{challenge_spec, fold_spec, sha256};
use crate::group::{
    all_elements, group_add, group_scale, group_sub, identity_encoding, is_element,
    lemma_add_cancels, lemma_add_commutes, lemma_add_identity, lemma_add_is_element,
    lemma_add_shuffles, lemma_add_swaps, lemma_identity_is_element, lemma_scale_by_unit,
    lemma_scale_distributes, lemma_scale_is_element, lemma_scale_is_injective,
    lemma_scale_of_identity, lemma_sub_restores,
};
use crate::polynomial::{
    lemma_root_product_is_nonzero, lemma_root_product_vanishes,
    lemma_roots_poly_evaluates_to_product, lemma_roots_poly_of_permutation, poly_eval,
    roots_poly,
};
use crate::scalar::{field_add, le_bytes_value, modulus};
use crate::sums::{
    enumerates, index_set, lemma_entries_are_elements, lemma_enumeration_reads_entries,
    lemma_one_opened_entry, lemma_sum_is_element, lemma_sum_shifts, lemma_sum_splits,
    lemma_sum_takes_out, lemma_sums_add, lemma_unopened_are_all, opened_entries, sum_from,
    unopened_entries,
};
use vstd::arithmetic::div_mod::lemma_mod_bound;
use crate::{
    batch_check_spec, check_spec, commit_spec, coordinate_terms, opening_terms, witness_spec,
};
use vstd::prelude::*;

verus! {

/// Every entry of `values` is a reduced scalar.
pub open spec fn all_reduced(values: Seq<nat>) -> bool {
    forall|i: int| 0 <= i < values.len() ==> (#[trigger] values[i]) < modulus()
}

/// The terms of the coordinates are elements of the group.
pub proof fn lemma_coordinate_terms_are_elements(generators: Seq<Seq<u8>>, values: Seq<nat>)
    requires
        generators.len() >= 1,
        all_elements(generators),
        all_reduced(values),
        values.len() >= generators.len() - 1,
    ensures
        all_elements(coordinate_terms(generators, values)),
{
    let terms = coordinate_terms(generators, values);
    assert forall|i: int| 0 <= i < terms.len() implies is_element(#[trigger] terms[i]) by {
        assert(is_element(generators[i + 1]));
        assert(values[i] < modulus());
        lemma_scale_is_element(generators[i + 1], values[i]);
    }
}

/// The terms of opened values are elements of the group.
pub proof fn lemma_opening_terms_are_elements(
    generators: Seq<Seq<u8>>,
    values: Seq<nat>,
    indices: Seq<usize>,
)
    requires
        all_elements(generators),
        all_reduced(values),
        values.len() == indices.len(),
        forall|k: int| 0 <= k < indices.len() ==> indices[k] < generators.len() - 1,
    ensures
        all_elements(opening_terms(generators, values, indices)),
{
    let terms = opening_terms(generators, values, indices);
    assert forall|k: int| 0 <= k < terms.len() implies is_element(#[trigger] terms[k]) by {
        assert(is_element(generators[indices[k] + 1]));
        assert(values[k] < modulus());
        lemma_scale_is_element(generators[indices[k] + 1], values[k]);
    }
}

/// Round trip: the opening of any coordinate `j` of a vector verifies
/// against the commitment to the vector, with generator `j + 1`.
pub proof fn law_opening_verifies(
    generators: Seq<Seq<u8>>,
    values: Seq<nat>,
    blinding: nat,
    j: int,
)
    requires
        generators.len() >= 1,
        all_elements(generators),
        all_reduced(values),
        blinding < modulus(),
        values.len() == generators.len() - 1,
        0 <= j < values.len(),
    ensures
        check_spec(
            commit_spec(generators, values, blinding),
            values[j],
            witness_spec(generators, values, blinding, set![j]),
            generators[j + 1],
        ),
{
    let terms = coordinate_terms(generators, values);
    let zero = identity_encoding();
    let blind = group_scale(generators[0], blinding);
    let opened = set![j];
    let others = sum_from(zero, unopened_entries(terms, opened));
    lemma_coordinate_terms_are_elements(generators, values);
    lemma_identity_is_element(generators[0]);
    lemma_scale_is_element(generators[0], blinding);
    lemma_entries_are_elements(terms, opened);
    lemma_sum_is_element(zero, unopened_entries(terms, opened));
    lemma_sum_splits(zero, terms, opened);
    lemma_one_opened_entry(terms, j);
    let picked = seq![terms[j]];
    assert(sum_from(others, picked) == group_add(others, terms[j])) by {
        assert(picked.drop_last() =~= Seq::<Seq<u8>>::empty());
        assert(sum_from(others, picked.drop_last()) == others);
    }
    lemma_add_swaps(others, blind, terms[j]);
    lemma_add_is_element(others, terms[j]);
    lemma_add_commutes(group_add(others, terms[j]), blind);
}

/// Batch round trip: the opening of any non-empty set of distinct
/// coordinates verifies against the commitment to the vector, with the
/// indices in ascending order.
pub proof fn law_batch_opening_verifies(
    generators: Seq<Seq<u8>>,
    values: Seq<nat>,
    blinding: nat,
    indices: Seq<usize>,
    sorted: Seq<usize>,
)
    requires
        generators.len() >= 1,
        all_elements(generators),
        all_reduced(values),
        blinding < modulus(),
        values.len() == generators.len() - 1,
        indices.len() > 0,
        indices.no_duplicates(),
        forall|k: int| 0 <= k < indices.len() ==> indices[k] < values.len(),
        enumerates(sorted, index_set(indices), values.len() as int),
    ensures
        batch_check_spec(
            generators,
            commit_spec(generators, values, blinding),
            opened_entries(values, index_set(indices)),
            witness_spec(generators, values, blinding, index_set(indices)),
            sorted,
        ),
{
    let terms = coordinate_terms(generators, values);
    let zero = identity_encoding();
    let blind = group_scale(generators[0], blinding);
    let opened = index_set(indices);
    let left = unopened_entries(terms, opened);
    let picked = opened_entries(terms, opened);
    let others = sum_from(zero, left);
    lemma_coordinate_terms_are_elements(generators, values);
    lemma_identity_is_element(generators[0]);
    lemma_scale_is_element(generators[0], blinding);
    lemma_entries_are_elements(terms, opened);
    lemma_sum_is_element(zero, left);
    lemma_sum_is_element(zero, terms);
    lemma_sum_splits(zero, terms, opened);
    lemma_enumeration_reads_entries(terms, opened, sorted);
    lemma_enumeration_reads_entries(values, opened, sorted);
    assert(opening_terms(generators, opened_entries(values, opened), sorted) =~= picked);
    lemma_sum_shifts(others, blind, picked);
    lemma_add_commutes(sum_from(zero, terms), blind);
}

/// A reduced scalar changes when a reduced scalar other than zero is added
/// to it.
pub proof fn lemma_adding_changes(value: nat, delta: nat)
    requires
        value < modulus(),
        0 < delta < modulus(),
    ensures
        field_add(value, delta) != value,
        field_add(value, delta) < modulus(),
{
    if value + delta < modulus() {
        vstd::arithmetic::div_mod::lemma_small_mod(value + delta, modulus());
    } else {
        vstd::arithmetic::div_mod::lemma_small_mod((value + delta - modulus()) as nat, modulus());
        vstd::arithmetic::div_mod::lemma_mod_add_multiples_vanish(
            value + delta - modulus(),
            modulus() as int,
        );
    }
}

/// Tamper detection: where an opening verifies, it no longer does once a
/// scalar other than zero has been added to the opened value. The generator
/// must not be the neutral element, all of whose multiples are the same.
pub proof fn law_tampered_opening_fails(
    commitment: Seq<u8>,
    value: nat,
    delta: nat,
    witness: Seq<u8>,
    generator: Seq<u8>,
)
    requires
        is_element(witness),
        is_element(generator),
        generator != identity_encoding(),
        value < modulus(),
        0 < delta < modulus(),
        check_spec(commitment, value, witness, generator),
    ensures
        !check_spec(commitment, field_add(value, delta), witness, generator),
{
    let other = field_add(value, delta);
    lemma_adding_changes(value, delta);
    lemma_scale_is_element(generator, value);
    lemma_scale_is_element(generator, other);
    lemma_scale_is_injective(generator, value, other);
    if check_spec(commitment, other, witness, generator) {
        lemma_add_cancels(witness, group_scale(generator, value), group_scale(generator, other));
    }
}

/// Tamper detection for batches: where an opening of several values
/// verifies, it no longer does once a scalar other than zero has been added
/// to one of the opened values. The generator of that value must not be the
/// neutral element.
pub proof fn law_tampered_batch_opening_fails(
    generators: Seq<Seq<u8>>,
    commitment: Seq<u8>,
    values: Seq<nat>,
    witness: Seq<u8>,
    indices: Seq<usize>,
    at: int,
    delta: nat,
)
    requires
        all_elements(generators),
        is_element(witness),
        all_reduced(values),
        values.len() == indices.len(),
        forall|k: int| 0 <= k < indices.len() ==> indices[k] < generators.len() - 1,
        0 <= at < values.len(),
        generators[indices[at] + 1] != identity_encoding(),
        0 < delta < modulus(),
        batch_check_spec(generators, commitment, values, witness, indices),
    ensures
        !batch_check_spec(
            generators,
            commitment,
            values.update(at, field_add(values[at], delta)),
            witness,
            indices,
        ),
{
    let other = field_add(values[at], delta);
    let changed = values.update(at, other);
    let generator = generators[indices[at] + 1];
    let terms = opening_terms(generators, values, indices);
    let terms2 = opening_terms(generators, changed, indices);
    lemma_adding_changes(values[at], delta);
    assert(all_reduced(changed));
    lemma_opening_terms_are_elements(generators, values, indices);
    lemma_opening_terms_are_elements(generators, changed, indices);
    lemma_sum_takes_out(witness, terms, at);
    lemma_sum_takes_out(witness, terms2, at);
    assert(terms.remove(at) =~= terms2.remove(at));
    let others = sum_from(witness, terms.remove(at));
    lemma_sum_is_element(witness, terms.remove(at));
    assert(is_element(generator));
    assert(terms[at] == group_scale(generator, values[at]));
    assert(terms2[at] == group_scale(generator, other));
    lemma_scale_is_injective(generator, values[at], other);
    if batch_check_spec(generators, commitment, changed, witness, indices) {
        lemma_add_cancels(others, terms[at], terms2[at]);
    }
}

/// Non-membership is never shown of a root: at a candidate that is one of
/// the roots, the polynomial with these roots takes the value zero.
pub proof fn law_root_is_member(roots: Seq<nat>, candidate: nat)
    requires
        candidate < modulus(),
        roots.contains(candidate),
    ensures
        poly_eval(roots_poly(roots), candidate) == 0,
{
    let at = choose|i: int| 0 <= i < roots.len() && roots[i] == candidate;
    lemma_roots_poly_evaluates_to_product(roots, candidate);
    lemma_root_product_vanishes(roots, candidate, at);
}

/// Non-membership is shown of every other candidate: at a candidate that is
/// none of the roots, the polynomial with these roots does not take the
/// value zero.
pub proof fn law_non_member_is_shown(roots: Seq<nat>, candidate: nat)
    requires
        all_reduced(roots),
        candidate < modulus(),
        !roots.contains(candidate),
    ensures
        poly_eval(roots_poly(roots), candidate) != 0,
{
    lemma_roots_poly_evaluates_to_product(roots, candidate);
    lemma_root_product_is_nonzero(roots, candidate);
}

/// The sums, in the field, of the entries of two vectors.
pub open spec fn sum_of_vectors(first: Seq<nat>, second: Seq<nat>) -> Seq<nat> {
    Seq::new(first.len(), |i: int| field_add(first[i], second[i]))
}

/// The vector of `length` zeros.
pub open spec fn zero_vector(length: nat) -> Seq<nat> {
    Seq::new(length, |i: int| 0nat)
}

/// Commitments add: the sum of the commitments to two vectors is the
/// commitment to the sum of the vectors, under the sum of the blinding
/// scalars.
pub proof fn law_commit_is_additive(
    generators: Seq<Seq<u8>>,
    first: Seq<nat>,
    second: Seq<nat>,
    blinding1: nat,
    blinding2: nat,
)
    requires
        generators.len() >= 1,
        all_elements(generators),
        all_reduced(first),
        all_reduced(second),
        blinding1 < modulus(),
        blinding2 < modulus(),
        first.len() == generators.len() - 1,
        second.len() == generators.len() - 1,
    ensures
        group_add(
            commit_spec(generators, first, blinding1),
            commit_spec(generators, second, blinding2),
        ) == commit_spec(
            generators,
            sum_of_vectors(first, second),
            field_add(blinding1, blinding2),
        ),
{
    let zero = identity_encoding();
    let both = sum_of_vectors(first, second);
    let terms1 = coordinate_terms(generators, first);
    let terms2 = coordinate_terms(generators, second);
    let terms = coordinate_terms(generators, both);
    lemma_coordinate_terms_are_elements(generators, first);
    lemma_coordinate_terms_are_elements(generators, second);
    lemma_identity_is_element(generators[0]);
    assert forall|i: int| 0 <= i < terms.len() implies #[trigger] terms[i] == group_add(
        terms1[i],
        terms2[i],
    ) by {
        assert(is_element(generators[i + 1]));
        assert(first[i] < modulus() && second[i] < modulus());
        lemma_scale_distributes(generators[i + 1], first[i], second[i]);
    }
    lemma_sums_add(terms1, terms2, terms);
    lemma_scale_is_element(generators[0], blinding1);
    lemma_scale_is_element(generators[0], blinding2);
    lemma_sum_is_element(zero, terms1);
    lemma_sum_is_element(zero, terms2);
    lemma_scale_distributes(generators[0], blinding1, blinding2);
    lemma_add_shuffles(
        group_scale(generators[0], blinding1),
        sum_from(zero, terms1),
        group_scale(generators[0], blinding2),
        sum_from(zero, terms2),
    );
}

/// A sum of neutral elements from the neutral element is the neutral
/// element.
pub proof fn lemma_sum_of_nothing(terms: Seq<Seq<u8>>)
    requires
        is_element(identity_encoding()),
        forall|i: int| 0 <= i < terms.len() ==> #[trigger] terms[i] == identity_encoding(),
    ensures
        sum_from(identity_encoding(), terms) == identity_encoding(),
    decreases terms.len(),
{
    if terms.len() > 0 {
        lemma_sum_of_nothing(terms.drop_last());
        lemma_add_identity(identity_encoding());
    }
}

/// The commitment to the vector of zeros is the blinding term alone.
pub proof fn law_commit_to_nothing(generators: Seq<Seq<u8>>, blinding: nat)
    requires
        generators.len() >= 1,
        all_elements(generators),
        blinding < modulus(),
    ensures
        commit_spec(generators, zero_vector((generators.len() - 1) as nat), blinding)
            == group_scale(generators[0], blinding),
{
    let terms = coordinate_terms(generators, zero_vector((generators.len() - 1) as nat));
    lemma_identity_is_element(generators[0]);
    assert forall|i: int| 0 <= i < terms.len() implies #[trigger] terms[i]
        == identity_encoding() by {
        assert(is_element(generators[i + 1]));
        lemma_scale_by_unit(generators[i + 1]);
    }
    lemma_sum_of_nothing(terms);
    lemma_scale_is_element(generators[0], blinding);
    lemma_add_identity(group_scale(generators[0], blinding));
}

/// The commitment to a vector with a single one, under the blinding scalar
/// zero, is the generator of the coordinate of the one.
pub proof fn law_commit_to_unit(generators: Seq<Seq<u8>>, values: Seq<nat>, j: int)
    requires
        generators.len() >= 1,
        all_elements(generators),
        values.len() == generators.len() - 1,
        0 <= j < values.len(),
        values[j] == 1,
        forall|i: int| 0 <= i < values.len() && i != j ==> values[i] == 0,
    ensures
        commit_spec(generators, values, 0) == generators[j + 1],
{
    let zero = identity_encoding();
    let terms = coordinate_terms(generators, values);
    let opened = set![j];
    let left = unopened_entries(terms, opened);
    lemma_identity_is_element(generators[0]);
    assert(all_reduced(values)) by {
        assert forall|i: int| 0 <= i < values.len() implies (#[trigger] values[i]) < modulus() by {
            if i != j {
                assert(values[i] == 0);
            }
        }
    }
    lemma_coordinate_terms_are_elements(generators, values);
    lemma_entries_are_elements(terms, opened);
    assert forall|i: int| 0 <= i < terms.len() && !opened.contains(i) implies #[trigger] terms[i]
        == zero by {
        assert(is_element(generators[i + 1]));
        assert(values[i] == 0);
        lemma_scale_by_unit(generators[i + 1]);
    }
    lemma_unopened_are_all(terms, opened, zero);
    lemma_sum_of_nothing(left);
    lemma_sum_splits(zero, terms, opened);
    lemma_one_opened_entry(terms, j);
    let picked = seq![terms[j]];
    assert(sum_from(zero, picked) == group_add(zero, terms[j])) by {
        assert(picked.drop_last() =~= Seq::<Seq<u8>>::empty());
        assert(sum_from(zero, picked.drop_last()) == zero);
    }
    assert(is_element(generators[j + 1]));
    lemma_scale_by_unit(generators[j + 1]);
    lemma_scale_by_unit(generators[0]);
    lemma_add_identity(generators[j + 1]);
}

/// The first fold: folded into the neutral element, a commitment is the new
/// accumulator value itself.
pub proof fn law_fold_from_identity(commitment: Seq<u8>)
    requires
        is_element(commitment),
    ensures
        fold_spec(identity_encoding(), commitment) == commitment,
{
    let digest = le_bytes_value(sha256(identity_encoding() + commitment));
    lemma_mod_bound(digest as int, modulus() as int);
    lemma_scale_of_identity(commitment, challenge_spec(identity_encoding(), commitment));
    lemma_add_identity(commitment);
}

/// What the non-membership fold takes away from the commitment can be added
/// back: the adjusted commitment plus the polynomial's value times the
/// blinding generator is the commitment.
pub proof fn law_adjustment_is_undone(generator: Seq<u8>, commitment: Seq<u8>, value: nat)
    requires
        is_element(generator),
        is_element(commitment),
        value < modulus(),
    ensures
        is_element(group_sub(commitment, group_scale(generator, value))),
        group_add(
            group_sub(commitment, group_scale(generator, value)),
            group_scale(generator, value),
        ) == commitment,
{
    lemma_scale_is_element(generator, value);
    lemma_sub_restores(commitment, group_scale(generator, value));
}

/// The order of the roots is immaterial: two lists of the same roots, each
/// as often in the one as in the other, are committed to alike, so `insert`
/// and `check_non_membership` give the same state for both.
pub proof fn law_root_order_is_immaterial(
    generators: Seq<Seq<u8>>,
    first: Seq<nat>,
    second: Seq<nat>,
    blinding: nat,
)
    requires
        first.to_multiset() == second.to_multiset(),
    ensures
        roots_poly(first) == roots_poly(second),
        commit_spec(generators, roots_poly(first), blinding) == commit_spec(
            generators,
            roots_poly(second),
            blinding,
        ),
{
    lemma_roots_poly_of_permutation(first, second);
}

} // verus!
