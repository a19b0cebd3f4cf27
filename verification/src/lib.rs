//! Pedersen-style vector commitments over the G1 group of BLS12-377, with
//! single and batch openings, and an accumulator that folds committed root
//! sets into a running group element.
//!
//! A commitment to the values `v` under the blinding scalar `r` is
//! `r * G[0] + v[0] * G[1] + ... + v[n - 1] * G[n]`, where `G` is the table
//! of generators. An opening hands out some of the values together with a
//! witness, the same sum without the terms of the opened values.

pub mod accumulator;
pub mod error;
pub mod field_order;
pub mod generators;
pub mod group;
pub mod laws;
pub mod polynomial;
pub mod prime_factors;
pub mod primes;
pub mod scalar;
pub mod sums;

pub use crate::accumulator::{
    check_non_membership, evaluate_poly, fold, hash_points_to_fr, insert, poly_from_roots,
    Polynomial, State,
};
pub use crate::error::Error;
pub use crate::generators::GeneratorTable;
pub use crate::group::GroupElement;
pub use crate::scalar::Scalar;

use crate::group::{group_add, group_scale, identity_encoding};
use crate::laws::{law_batch_opening_verifies, law_opening_verifies};
use crate::scalar::{modulus, values_of};
use crate::sums::{
    enumerates, index_set, lemma_opened_entries_count, opened_entries, strictly_increasing,
    sum_from, unopened_entries,
};
use vstd::prelude::*;

verus! {

/// The terms of the coordinates: entry `i` is `values[i] * generators[i + 1]`.
pub open spec fn coordinate_terms(generators: Seq<Seq<u8>>, values: Seq<nat>) -> Seq<Seq<u8>> {
    Seq::new(
        (generators.len() - 1) as nat,
        |i: int| group_scale(generators[i + 1], values[i]),
    )
}

/// The commitment to `values` under `blinding`: the blinding term plus the
/// sum, taken from the neutral element, of the terms of all coordinates.
pub open spec fn commit_spec(generators: Seq<Seq<u8>>, values: Seq<nat>, blinding: nat) -> Seq<u8> {
    group_add(
        group_scale(generators[0], blinding),
        sum_from(identity_encoding(), coordinate_terms(generators, values)),
    )
}

/// The witness of an opening at the positions in `opened`: the sum, taken
/// from the neutral element, of the terms of all other coordinates, plus the
/// blinding term.
pub open spec fn witness_spec(
    generators: Seq<Seq<u8>>,
    values: Seq<nat>,
    blinding: nat,
    opened: Set<int>,
) -> Seq<u8> {
    group_add(
        sum_from(
            identity_encoding(),
            unopened_entries(coordinate_terms(generators, values), opened),
        ),
        group_scale(generators[0], blinding),
    )
}

/// An opening of one value is valid: the commitment is the witness plus the
/// term of the value.
pub open spec fn check_spec(
    commitment: Seq<u8>,
    value: nat,
    witness: Seq<u8>,
    generator: Seq<u8>,
) -> bool {
    commitment == group_add(witness, group_scale(generator, value))
}

/// The terms of the opened values: entry `k` is
/// `values[k] * generators[indices[k] + 1]`.
pub open spec fn opening_terms(
    generators: Seq<Seq<u8>>,
    values: Seq<nat>,
    indices: Seq<usize>,
) -> Seq<Seq<u8>> {
    Seq::new(indices.len(), |k: int| group_scale(generators[indices[k] + 1], values[k]))
}

/// An opening of several values is valid: the commitment is the witness with
/// the terms of the opened values added one after the other.
pub open spec fn batch_check_spec(
    generators: Seq<Seq<u8>>,
    commitment: Seq<u8>,
    values: Seq<nat>,
    witness: Seq<u8>,
    indices: Seq<usize>,
) -> bool {
    commitment == sum_from(witness, opening_terms(generators, values, indices))
}

/// Every index names a coordinate: it is below the number of generators less
/// one.
pub open spec fn indices_in_range(generators: Seq<Seq<u8>>, indices: Seq<usize>) -> bool {
    forall|k: int| 0 <= k < indices.len() ==> (#[trigger] indices[k]) < generators.len() - 1
}

/// Commits to `v` under the blinding scalar `r`. The vector must have one
/// value for each generator but the first.
pub fn commit(table: &GeneratorTable, v: &[Scalar], r: Scalar) -> (result: Result<
    GroupElement,
    Error,
>)
    ensures
        match result {
            Ok(c) => v@.len() == table@.len() - 1 && c@ == commit_spec(
                table@,
                values_of(v@),
                r@,
            ) && c.wf(),
            Err(e) => v@.len() != table@.len() - 1 && e == Error::LengthMismatch,
        },
{
    let n = table.len() - 1;
    if v.len() != n {
        return Err(Error::LengthMismatch);
    }
    let ghost terms = coordinate_terms(table@, values_of(v@));
    let blind = table.get(0).times(&r);
    let mut h = GroupElement::identity();
    let mut i: usize = 0;
    assert(terms.take(0) =~= Seq::empty());
    while i < n
        invariant
            i <= n,
            n == table@.len() - 1,
            v@.len() == n,
            terms == coordinate_terms(table@, values_of(v@)),
            h@ == sum_from(identity_encoding(), terms.take(i as int)),
        decreases n - i,
    {
        let term = table.get(i + 1).times(&v[i]);
        proof {
            assert(terms.take(i + 1).drop_last() =~= terms.take(i as int));
            assert(terms.take(i + 1).last() == term@);
        }
        h = h.plus(&term);
        i += 1;
    }
    assert(terms.take(n as int) =~= terms);
    Ok(blind.plus(&h))
}

/// Opens coordinate `j` of the vector `v` that was committed under `r`: the
/// value, the blinding scalar, and the witness, which verifies against the
/// commitment. An index beyond the vector is refused first, then a vector
/// that does not have one value for each generator but the first.
pub fn open(table: &GeneratorTable, v: &[Scalar], r: Scalar, j: usize) -> (result: Result<
    (Scalar, Scalar, GroupElement),
    Error,
>)
    ensures
        match result {
            Ok((value, blinding, witness)) => {
                &&& j < v@.len()
                &&& v@.len() == table@.len() - 1
                &&& value@ == v@[j as int]@
                &&& blinding@ == r@
                &&& witness@ == witness_spec(table@, values_of(v@), r@, set![j as int])
                &&& witness.wf()
                &&& check_spec(
                    commit_spec(table@, values_of(v@), r@),
                    value@,
                    witness@,
                    table@[j + 1],
                )
            },
            Err(e) => {
                if j >= v@.len() {
                    e == Error::IndexOutOfBounds
                } else {
                    e == Error::LengthMismatch && v@.len() != table@.len() - 1
                }
            },
        },
{
    if j >= v.len() {
        return Err(Error::IndexOutOfBounds);
    }
    let n = table.len() - 1;
    if v.len() != n {
        return Err(Error::LengthMismatch);
    }
    let ghost terms = coordinate_terms(table@, values_of(v@));
    let ghost opened = set![j as int];
    let blind = table.get(0).times(&r);
    let mut sum = GroupElement::identity();
    let mut i: usize = 0;
    assert(terms.take(0) =~= Seq::empty());
    while i < n
        invariant
            i <= n,
            n == table@.len() - 1,
            v@.len() == n,
            terms == coordinate_terms(table@, values_of(v@)),
            opened == set![j as int],
            sum@ == sum_from(identity_encoding(), unopened_entries(terms.take(i as int), opened)),
            forall|k: int| 0 <= k < i ==> (#[trigger] values_of(v@)[k]) < modulus(),
        decreases n - i,
    {
        let value = v[i];
        proof {
            use_type_invariant(&value);
            assert(terms.take(i + 1).drop_last() =~= terms.take(i as int));
        }
        if i != j {
            let term = table.get(i + 1).times(&value);
            proof {
                assert(terms.take(i + 1).last() == term@);
                assert(unopened_entries(terms.take(i + 1), opened).drop_last()
                    =~= unopened_entries(terms.take(i as int), opened));
            }
            sum = sum.plus(&term);
        }
        i += 1;
    }
    assert(terms.take(n as int) =~= terms);
    let witness = sum.plus(&blind);
    proof {
        use_type_invariant(table);
        use_type_invariant(&r);
        law_opening_verifies(table@, values_of(v@), r@, j as int);
    }
    Ok((v[j], r, witness))
}

/// Whether the opening of one value is valid against the commitment `c`.
/// `h_j` is the generator of the opened coordinate, generator `j + 1` of the
/// table.
pub fn check(c: GroupElement, v_j: Scalar, witness: GroupElement, h_j: GroupElement) -> (result:
    bool)
    ensures
        result == check_spec(c@, v_j@, witness@, h_j@),
{
    let sum = witness.plus(&h_j.times(&v_j));
    c.equals(&sum)
}

/// Whether `indices` lists `i`.
fn lists(indices: &Vec<usize>, i: usize) -> (r: bool)
    ensures
        r == index_set(indices@).contains(i as int),
{
    let mut k: usize = 0;
    while k < indices.len()
        invariant
            k <= indices@.len(),
            forall|m: int| 0 <= m < k ==> indices@[m] != i,
        decreases indices@.len() - k,
    {
        if indices[k] == i {
            return true;
        }
        k += 1;
    }
    false
}

/// Whether some index occurs twice.
fn repeats(indices: &Vec<usize>) -> (r: bool)
    ensures
        r == !indices@.no_duplicates(),
{
    let mut a: usize = 0;
    while a < indices.len()
        invariant
            a <= indices@.len(),
            forall|i: int, j: int|
                0 <= i < a && i < j < indices@.len() ==> indices@[i] != indices@[j],
        decreases indices@.len() - a,
    {
        let mut b: usize = a + 1;
        while b < indices.len()
            invariant
                a < b <= indices@.len(),
                forall|j: int| a < j < b ==> indices@[a as int] != indices@[j],
            decreases indices@.len() - b,
        {
            if indices[a] == indices[b] {
                return true;
            }
            b += 1;
        }
        a += 1;
    }
    assert forall|i: int, j: int|
        0 <= i < indices@.len() && 0 <= j < indices@.len() && i != j implies indices@[i]
        != indices@[j] by {
        if i < j {
        } else {
            assert(indices@[j] != indices@[i]);
        }
    }
    false
}

/// Whether some index is not below `bound`.
fn exceeds(indices: &Vec<usize>, bound: usize) -> (r: bool)
    ensures
        r == exists|k: int| 0 <= k < indices@.len() && indices@[k] >= bound,
{
    let mut k: usize = 0;
    while k < indices.len()
        invariant
            k <= indices@.len(),
            forall|m: int| 0 <= m < k ==> indices@[m] < bound,
        decreases indices@.len() - k,
    {
        if indices[k] >= bound {
            return true;
        }
        k += 1;
    }
    false
}

/// Opens the coordinates that `indices` lists, in any order: the opened
/// values in ascending order of their index, the blinding scalar, and the
/// witness, which verifies against the commitment with the indices in
/// ascending order. The indices are looked at first: there must be some, no
/// two the same, each within the vector. Then the vector must have one value
/// for each generator but the first.
pub fn batch_open(table: &GeneratorTable, v: &[Scalar], r: Scalar, indices: Vec<usize>) -> (result:
    Result<(Vec<Scalar>, Scalar, GroupElement), Error>)
    ensures
        match result {
            Ok((values, blinding, witness)) => {
                &&& indices@.len() > 0
                &&& indices@.no_duplicates()
                &&& forall|k: int| 0 <= k < indices@.len() ==> indices@[k] < v@.len()
                &&& v@.len() == table@.len() - 1
                &&& values@.len() == indices@.len()
                &&& values_of(values@) == opened_entries(values_of(v@), index_set(indices@))
                &&& blinding@ == r@
                &&& witness@ == witness_spec(table@, values_of(v@), r@, index_set(indices@))
                &&& witness.wf()
                &&& forall|sorted: Seq<usize>| #[trigger]
                    enumerates(sorted, index_set(indices@), v@.len() as int) ==> batch_check_spec(
                        table@,
                        commit_spec(table@, values_of(v@), r@),
                        values_of(values@),
                        witness@,
                        sorted,
                    )
            },
            Err(e) => {
                if indices@.len() == 0 {
                    e == Error::EmptyIndices
                } else if !indices@.no_duplicates() {
                    e == Error::DuplicateIndex
                } else if exists|k: int| 0 <= k < indices@.len() && indices@[k] >= v@.len() {
                    e == Error::IndexOutOfBounds
                } else {
                    e == Error::LengthMismatch && v@.len() != table@.len() - 1
                }
            },
        },
{
    if indices.len() == 0 {
        return Err(Error::EmptyIndices);
    }
    if repeats(&indices) {
        return Err(Error::DuplicateIndex);
    }
    if exceeds(&indices, v.len()) {
        return Err(Error::IndexOutOfBounds);
    }
    let n = table.len() - 1;
    if v.len() != n {
        return Err(Error::LengthMismatch);
    }
    let ghost terms = coordinate_terms(table@, values_of(v@));
    let ghost all = values_of(v@);
    let ghost opened = index_set(indices@);
    let blind = table.get(0).times(&r);
    let mut sum = GroupElement::identity();
    let mut i: usize = 0;
    assert(terms.take(0) =~= Seq::empty());
    while i < n
        invariant
            i <= n,
            n == table@.len() - 1,
            v@.len() == n,
            terms == coordinate_terms(table@, values_of(v@)),
            opened == index_set(indices@),
            sum@ == sum_from(identity_encoding(), unopened_entries(terms.take(i as int), opened)),
        decreases n - i,
    {
        proof {
            assert(terms.take(i + 1).drop_last() =~= terms.take(i as int));
        }
        if !lists(&indices, i) {
            let term = table.get(i + 1).times(&v[i]);
            proof {
                assert(terms.take(i + 1).last() == term@);
                assert(unopened_entries(terms.take(i + 1), opened).drop_last()
                    =~= unopened_entries(terms.take(i as int), opened));
            }
            sum = sum.plus(&term);
        }
        i += 1;
    }
    assert(terms.take(n as int) =~= terms);
    let witness = sum.plus(&blind);
    let mut values: Vec<Scalar> = Vec::new();
    let mut j: usize = 0;
    assert(all.take(0) =~= Seq::empty());
    assert(values_of(values@) =~= Seq::empty());
    while j < v.len()
        invariant
            j <= v@.len(),
            all == values_of(v@),
            opened == index_set(indices@),
            values_of(values@) == opened_entries(all.take(j as int), opened),
            forall|k: int| 0 <= k < j ==> (#[trigger] all[k]) < modulus(),
        decreases v@.len() - j,
    {
        let value = v[j];
        proof {
            use_type_invariant(&value);
            assert(all.take(j + 1).drop_last() =~= all.take(j as int));
            assert(all.take(j + 1).last() == v@[j as int]@);
        }
        if lists(&indices, j) {
            let ghost before = values_of(values@);
            values.push(v[j]);
            assert(values_of(values@) =~= before.push(v@[j as int]@));
        }
        j += 1;
    }
    assert(all.take(v@.len() as int) =~= all);
    proof {
        lemma_opened_entries_count(all, indices@);
        use_type_invariant(table);
        use_type_invariant(&r);
        assert forall|sorted: Seq<usize>| #[trigger]
            enumerates(sorted, opened, v@.len() as int) implies batch_check_spec(
            table@,
            commit_spec(table@, all, r@),
            values_of(values@),
            witness@,
            sorted,
        ) by {
            law_batch_opening_verifies(table@, all, r@, indices@, sorted);
        }
    }
    Ok((values, r, witness))
}

/// Whether the opening of several values is valid against the commitment
/// `c`. There must be one index for each value, and the indices must be
/// strictly increasing. An opening with an index that names no coordinate
/// is not valid.
pub fn batch_check(
    table: &GeneratorTable,
    c: GroupElement,
    values: &[Scalar],
    witness: GroupElement,
    indices: &[usize],
) -> (result: Result<bool, Error>)
    ensures
        match result {
            Ok(valid) => {
                &&& values@.len() == indices@.len()
                &&& strictly_increasing(indices@)
                &&& valid == (indices_in_range(table@, indices@) && batch_check_spec(
                    table@,
                    c@,
                    values_of(values@),
                    witness@,
                    indices@,
                ))
            },
            Err(e) => {
                if values@.len() != indices@.len() {
                    e == Error::LengthMismatch
                } else {
                    e == Error::UnsortedOrDuplicate && !strictly_increasing(indices@)
                }
            },
        },
{
    if values.len() != indices.len() {
        return Err(Error::LengthMismatch);
    }
    let mut k: usize = 1;
    while k < indices.len()
        invariant
            1 <= k,
            values@.len() == indices@.len(),
            forall|a: int, b: int|
                0 <= a < b < k && b < indices@.len() ==> indices@[a] < indices@[b],
        decreases indices@.len() - k,
    {
        if indices[k - 1] >= indices[k] {
            assert(!strictly_increasing(indices@)) by {
                let a = k - 1;
                let b = k as int;
                assert(0 <= a < b < indices@.len() && !(indices@[a] < indices@[b]));
            }
            return Err(Error::UnsortedOrDuplicate);
        }
        assert forall|a: int, b: int| 0 <= a < b < k + 1 && b < indices@.len() implies indices@[a]
            < indices@[b] by {
            if b == k && a < k - 1 {
                assert(indices@[a] < indices@[k - 1]);
            }
        }
        k += 1;
    }
    let coordinates = table.len() - 1;
    let ghost terms = opening_terms(table@, values_of(values@), indices@);
    let mut sum = witness;
    let mut i: usize = 0;
    assert(terms.take(0) =~= Seq::empty());
    while i < indices.len()
        invariant
            i <= indices@.len(),
            values@.len() == indices@.len(),
            strictly_increasing(indices@),
            coordinates == table@.len() - 1,
            forall|m: int| 0 <= m < i ==> indices@[m] < coordinates,
            terms == opening_terms(table@, values_of(values@), indices@),
            sum@ == sum_from(witness@, terms.take(i as int)),
        decreases indices@.len() - i,
    {
        if indices[i] >= coordinates {
            assert(!indices_in_range(table@, indices@));
            return Ok(false);
        }
        let term = table.get(indices[i] + 1).times(&values[i]);
        proof {
            assert(terms.take(i + 1).drop_last() =~= terms.take(i as int));
            assert(terms.take(i + 1).last() == term@);
        }
        sum = sum.plus(&term);
        i += 1;
    }
    assert(terms.take(indices@.len() as int) =~= terms);
    Ok(c.equals(&sum))
}

} // verus!
