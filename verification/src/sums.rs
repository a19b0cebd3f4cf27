//! Sums of group elements taken in order, and the entries of a sequence that
//! a set of positions picks out or leaves.

use crate::group::{
    all_elements, group_add, identity_encoding, is_element, lemma_add_identity,
    lemma_add_is_element, lemma_add_shuffles, lemma_add_swaps,
};
use vstd::prelude::*;
use vstd::set_lib::{lemma_int_range, lemma_len_subset, set_int_range};

verus! {

/// `start` with the entries of `terms` added to it one after the other.
pub open spec fn sum_from(start: Seq<u8>, terms: Seq<Seq<u8>>) -> Seq<u8>
    decreases terms.len(),
{
    if terms.len() == 0 {
        start
    } else {
        group_add(sum_from(start, terms.drop_last()), terms.last())
    }
}

/// The entries of `items` at the positions in `opened`, in ascending order
/// of position.
pub open spec fn opened_entries<A>(items: Seq<A>, opened: Set<int>) -> Seq<A>
    decreases items.len(),
{
    if items.len() == 0 {
        Seq::empty()
    } else if opened.contains(items.len() - 1) {
        opened_entries(items.drop_last(), opened).push(items.last())
    } else {
        opened_entries(items.drop_last(), opened)
    }
}

/// The entries of `items` at the positions that are not in `opened`, in
/// ascending order of position.
pub open spec fn unopened_entries<A>(items: Seq<A>, opened: Set<int>) -> Seq<A>
    decreases items.len(),
{
    if items.len() == 0 {
        Seq::empty()
    } else if opened.contains(items.len() - 1) {
        unopened_entries(items.drop_last(), opened)
    } else {
        unopened_entries(items.drop_last(), opened).push(items.last())
    }
}

/// `positions` is strictly increasing.
pub open spec fn strictly_increasing(positions: Seq<usize>) -> bool {
    forall|i: int, j: int| 0 <= i < j < positions.len() ==> positions[i] < positions[j]
}

/// `positions` lists, each once and in ascending order, the members of
/// `opened` below `bound`, and nothing else.
pub open spec fn enumerates(positions: Seq<usize>, opened: Set<int>, bound: int) -> bool {
    &&& strictly_increasing(positions)
    &&& forall|k: int| 0 <= k < positions.len() ==> (#[trigger] positions[k]) < bound
    &&& forall|k: int| 0 <= k < positions.len() ==> opened.contains(#[trigger] positions[k] as int)
    &&& forall|i: int|
        0 <= i < bound && opened.contains(i) ==> exists|k: int|
            0 <= k < positions.len() && #[trigger] positions[k] == i
}

/// A sum of elements is an element.
pub proof fn lemma_sum_is_element(start: Seq<u8>, terms: Seq<Seq<u8>>)
    requires
        is_element(start),
        all_elements(terms),
    ensures
        is_element(sum_from(start, terms)),
    decreases terms.len(),
{
    if terms.len() > 0 {
        lemma_sum_is_element(start, terms.drop_last());
        lemma_add_is_element(sum_from(start, terms.drop_last()), terms.last());
    }
}

/// A summand added to the start may as well be added at the end.
pub proof fn lemma_sum_shifts(start: Seq<u8>, x: Seq<u8>, terms: Seq<Seq<u8>>)
    requires
        is_element(start),
        is_element(x),
        all_elements(terms),
    ensures
        sum_from(group_add(start, x), terms) == group_add(sum_from(start, terms), x),
    decreases terms.len(),
{
    if terms.len() > 0 {
        let rest = terms.drop_last();
        lemma_sum_shifts(start, x, rest);
        lemma_sum_is_element(start, rest);
        lemma_add_swaps(sum_from(start, rest), x, terms.last());
    }
}

/// Any one term may be taken out of a sum and added at the end.
pub proof fn lemma_sum_takes_out(start: Seq<u8>, terms: Seq<Seq<u8>>, at: int)
    requires
        is_element(start),
        all_elements(terms),
        0 <= at < terms.len(),
    ensures
        all_elements(terms.remove(at)),
        sum_from(start, terms) == group_add(sum_from(start, terms.remove(at)), terms[at]),
    decreases terms.len(),
{
    let rest = terms.drop_last();
    if at == terms.len() - 1 {
        assert(terms.remove(at) =~= rest);
    } else {
        lemma_sum_takes_out(start, rest, at);
        let fewer = rest.remove(at);
        assert(terms.remove(at).drop_last() =~= fewer);
        assert(terms.remove(at).last() == terms.last());
        assert(rest[at] == terms[at]);
        lemma_sum_is_element(start, fewer);
        lemma_add_swaps(sum_from(start, fewer), terms[at], terms.last());
        assert forall|i: int| 0 <= i < terms.remove(at).len() implies is_element(
            #[trigger] terms.remove(at)[i],
        ) by {
            if i < at {
                assert(terms.remove(at)[i] == terms[i]);
            } else {
                assert(terms.remove(at)[i] == terms[i + 1]);
            }
        }
    }
}

/// Two sums from the neutral element add up to the sum of the terms added in
/// pairs.
pub proof fn lemma_sums_add(first: Seq<Seq<u8>>, second: Seq<Seq<u8>>, both: Seq<Seq<u8>>)
    requires
        is_element(identity_encoding()),
        all_elements(first),
        all_elements(second),
        first.len() == second.len() == both.len(),
        forall|i: int| 0 <= i < both.len() ==> #[trigger] both[i] == group_add(first[i], second[i]),
    ensures
        all_elements(both),
        group_add(sum_from(identity_encoding(), first), sum_from(identity_encoding(), second))
            == sum_from(identity_encoding(), both),
    decreases both.len(),
{
    let zero = identity_encoding();
    assert forall|i: int| 0 <= i < both.len() implies is_element(#[trigger] both[i]) by {
        lemma_add_is_element(first[i], second[i]);
    }
    if both.len() == 0 {
        lemma_add_identity(zero);
    } else {
        lemma_sums_add(first.drop_last(), second.drop_last(), both.drop_last());
        lemma_sum_is_element(zero, first.drop_last());
        lemma_sum_is_element(zero, second.drop_last());
        lemma_add_shuffles(
            sum_from(zero, first.drop_last()),
            first.last(),
            sum_from(zero, second.drop_last()),
            second.last(),
        );
    }
}

/// What a set of positions picks out of elements, and what it leaves, are
/// elements.
pub proof fn lemma_entries_are_elements(terms: Seq<Seq<u8>>, opened: Set<int>)
    requires
        all_elements(terms),
    ensures
        all_elements(opened_entries(terms, opened)),
        all_elements(unopened_entries(terms, opened)),
    decreases terms.len(),
{
    if terms.len() > 0 {
        lemma_entries_are_elements(terms.drop_last(), opened);
    }
}

/// A sum may be taken in two passes: first over the terms that a set of
/// positions leaves, then over those that it picks out.
pub proof fn lemma_sum_splits(start: Seq<u8>, terms: Seq<Seq<u8>>, opened: Set<int>)
    requires
        is_element(start),
        all_elements(terms),
    ensures
        sum_from(start, terms) == sum_from(
            sum_from(start, unopened_entries(terms, opened)),
            opened_entries(terms, opened),
        ),
    decreases terms.len(),
{
    if terms.len() > 0 {
        let rest = terms.drop_last();
        let left = unopened_entries(rest, opened);
        let picked = opened_entries(rest, opened);
        lemma_sum_splits(start, rest, opened);
        lemma_entries_are_elements(rest, opened);
        if opened.contains(terms.len() - 1) {
            assert(opened_entries(terms, opened).drop_last() =~= picked);
        } else {
            assert(unopened_entries(terms, opened).drop_last() =~= left);
            lemma_sum_is_element(start, left);
            lemma_sum_shifts(sum_from(start, left), terms.last(), picked);
        }
    }
}

/// A strictly increasing list of the picked positions reads the picked
/// entries off in their order.
pub proof fn lemma_enumeration_reads_entries<A>(
    items: Seq<A>,
    opened: Set<int>,
    positions: Seq<usize>,
)
    requires
        enumerates(positions, opened, items.len() as int),
    ensures
        opened_entries(items, opened) == Seq::new(
            positions.len(),
            |k: int| items[positions[k] as int],
        ),
    decreases items.len(),
{
    let read = Seq::new(positions.len(), |k: int| items[positions[k] as int]);
    if items.len() == 0 {
        assert(positions.len() == 0) by {
            if positions.len() > 0 {
                assert(positions[0] < 0);
            }
        }
        assert(opened_entries(items, opened) =~= read);
    } else {
        let top = items.len() - 1;
        let rest = items.drop_last();
        if opened.contains(top) {
            let k = choose|k: int| 0 <= k < positions.len() && #[trigger] positions[k] == top;
            assert(k == positions.len() - 1) by {
                if k < positions.len() - 1 {
                    assert(positions[k] < positions[positions.len() - 1]);
                }
            }
            let fewer = positions.drop_last();
            assert(enumerates(fewer, opened, top)) by {
                assert forall|i: int| 0 <= i < top && opened.contains(i) implies exists|j: int|
                    0 <= j < fewer.len() && #[trigger] fewer[j] == i by {
                    let j = choose|j: int| 0 <= j < positions.len() && #[trigger] positions[j] == i;
                    assert(fewer[j] == i);
                }
                assert forall|j: int| 0 <= j < fewer.len() implies (#[trigger] fewer[j]) < top by {
                    assert(positions[j] < positions[k]);
                }
            }
            lemma_enumeration_reads_entries(rest, opened, fewer);
            assert(opened_entries(items, opened) =~= read);
        } else {
            assert(enumerates(positions, opened, top)) by {
                assert forall|j: int| 0 <= j < positions.len() implies (#[trigger] positions[j])
                    < top by {
                    assert(opened.contains(positions[j] as int));
                }
            }
            lemma_enumeration_reads_entries(rest, opened, positions);
            assert(opened_entries(items, opened) =~= read);
        }
    }
}

/// Where every entry that a set of positions leaves is `x`, what it leaves
/// is `x` throughout.
pub proof fn lemma_unopened_are_all<A>(items: Seq<A>, opened: Set<int>, x: A)
    requires
        forall|i: int| 0 <= i < items.len() && !opened.contains(i) ==> #[trigger] items[i] == x,
    ensures
        forall|i: int|
            0 <= i < unopened_entries(items, opened).len() ==> (#[trigger] unopened_entries(
                items,
                opened,
            )[i]) == x,
    decreases items.len(),
{
    if items.len() > 0 {
        let rest = items.drop_last();
        let top = items.len() - 1;
        assert forall|i: int| 0 <= i < rest.len() && !opened.contains(i) implies #[trigger] rest[i]
            == x by {
            assert(rest[i] == items[i]);
        }
        lemma_unopened_are_all(rest, opened, x);
        let fewer = unopened_entries(rest, opened);
        let left = unopened_entries(items, opened);
        assert forall|i: int| 0 <= i < left.len() implies (#[trigger] left[i]) == x by {
            if opened.contains(top) {
                assert(left == fewer);
            } else {
                assert(left == fewer.push(items.last()));
                if i < fewer.len() {
                    assert(left[i] == fewer[i]);
                } else {
                    assert(items[top] == x);
                }
            }
        }
    }
}

/// What a single position picks out is the entry at it.
pub proof fn lemma_one_opened_entry<A>(items: Seq<A>, at: int)
    requires
        0 <= at < items.len(),
    ensures
        opened_entries(items, set![at]) == seq![items[at]],
    decreases items.len(),
{
    let rest = items.drop_last();
    if at == items.len() - 1 {
        lemma_no_opened_entry(rest, set![at]);
        assert(opened_entries(items, set![at]) =~= seq![items[at]]);
    } else {
        lemma_one_opened_entry(rest, at);
    }
}

/// Positions beyond the sequence pick nothing out of it.
pub proof fn lemma_no_opened_entry<A>(items: Seq<A>, opened: Set<int>)
    requires
        forall|i: int| 0 <= i < items.len() ==> !opened.contains(i),
    ensures
        opened_entries(items, opened) == Seq::<A>::empty(),
        unopened_entries(items, opened) == items,
    decreases items.len(),
{
    if items.len() > 0 {
        lemma_no_opened_entry(items.drop_last(), opened);
        assert(unopened_entries(items, opened) =~= items);
    }
}

/// The set of the positions that `indices` lists.
pub open spec fn index_set(indices: Seq<usize>) -> Set<int> {
    Set::new(|i: int| exists|k: int| 0 <= k < indices.len() && indices[k] == i)
}

/// As many entries are picked out as there are positions of the sequence in
/// the set.
pub proof fn lemma_opened_count<A>(items: Seq<A>, opened: Set<int>)
    ensures
        opened.intersect(set_int_range(0, items.len() as int)).finite(),
        opened_entries(items, opened).len() == opened.intersect(
            set_int_range(0, items.len() as int),
        ).len(),
    decreases items.len(),
{
    let n = items.len() as int;
    let within = opened.intersect(set_int_range(0, n));
    lemma_int_range(0, n);
    lemma_len_subset(within, set_int_range(0, n));
    if n == 0 {
        assert(within =~= Set::empty());
    } else {
        let rest = items.drop_last();
        let fewer = opened.intersect(set_int_range(0, n - 1));
        lemma_opened_count(rest, opened);
        if opened.contains(n - 1) {
            assert(within =~= fewer.insert(n - 1));
        } else {
            assert(within =~= fewer);
        }
    }
}

/// A list without repetitions lists as many positions as it is long.
pub proof fn lemma_index_set_count(indices: Seq<usize>)
    requires
        indices.no_duplicates(),
    ensures
        index_set(indices).finite(),
        index_set(indices).len() == indices.len(),
    decreases indices.len(),
{
    if indices.len() == 0 {
        assert(index_set(indices) =~= Set::empty());
    } else {
        let fewer = indices.drop_last();
        let last = indices.last() as int;
        lemma_index_set_count(fewer);
        assert(!index_set(fewer).contains(last)) by {
            if index_set(fewer).contains(last) {
                let k = choose|k: int| 0 <= k < fewer.len() && fewer[k] == last;
                assert(indices[k] == indices[indices.len() - 1]);
            }
        }
        assert(index_set(indices) =~= index_set(fewer).insert(last)) by {
            assert forall|i: int| index_set(indices).contains(i) implies index_set(fewer).insert(
                last,
            ).contains(i) by {
                let k = choose|k: int| 0 <= k < indices.len() && indices[k] == i;
                if k < fewer.len() {
                    assert(fewer[k] == i);
                }
            }
            assert forall|i: int| index_set(fewer).insert(last).contains(i) implies index_set(
                indices,
            ).contains(i) by {
                if i == last {
                    assert(indices[indices.len() - 1] == i);
                } else {
                    let k = choose|k: int| 0 <= k < fewer.len() && fewer[k] == i;
                    assert(indices[k] == i);
                }
            }
        }
    }
}

/// Distinct positions within a sequence pick out as many entries as there
/// are positions.
pub proof fn lemma_opened_entries_count<A>(items: Seq<A>, indices: Seq<usize>)
    requires
        indices.no_duplicates(),
        forall|k: int| 0 <= k < indices.len() ==> indices[k] < items.len(),
    ensures
        opened_entries(items, index_set(indices)).len() == indices.len(),
{
    let opened = index_set(indices);
    lemma_opened_count(items, opened);
    lemma_index_set_count(indices);
    assert(opened.intersect(set_int_range(0, items.len() as int)) =~= opened);
}

} // verus!
