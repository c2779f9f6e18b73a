//! The mathematical model of adjacent pairing, and the laws that follow from it.
//!
//! Everything here speaks of plain sequences. The adapter's contracts are
//! stated over these functions, applied to the items that the adapter has yet
//! to pair: the item it carries, if any, followed by what its source has left.
//!
//! One call for the next pair is modelled by [`first_pair`] and
//! [`pending_after`], a run of calls by [`produced_pairs`] and
//! [`pending_after_pairs`], and the whole result in closed form by
//! [`adjacent_pairs_of`].
use vstd::prelude::*;

verus! {

/// How many adjacent pairs a run of `elements` items holds: one less than the
/// number of items, and none for an empty run.
pub open spec fn pair_count(elements: int) -> int {
    if elements > 0 {
        elements - 1
    } else {
        0
    }
}

/// The overlapping pairs of neighbours in `items`, in order: item 0 with item 1,
/// item 1 with item 2, and so on.
pub open spec fn adjacent_pairs_of<T>(items: Seq<T>) -> Seq<(T, T)> {
    Seq::new(pair_count(items.len() as int) as nat, |i: int| (items[i], items[i + 1]))
}

/// The items still to be paired: the carried item, if there is one, then what
/// the source has left.
pub open spec fn pending_items<T>(carried: Option<T>, rest: Seq<T>) -> Seq<T> {
    match carried {
        Some(item) => seq![item] + rest,
        None => rest,
    }
}

/// What one call produces from the pending items: their first two as a pair,
/// or nothing where fewer than two are pending.
pub open spec fn first_pair<T>(pending: Seq<T>) -> Option<(T, T)> {
    if pending.len() >= 2 {
        Some((pending[0], pending[1]))
    } else {
        None
    }
}

/// What is pending after one call: all but the first item where a pair was
/// produced, and nothing where none was, so that a lone last item is dropped.
pub open spec fn pending_after<T>(pending: Seq<T>) -> Seq<T> {
    if pending.len() >= 2 {
        pending.skip(1)
    } else {
        Seq::empty()
    }
}

/// The pairs that call after call produces from the pending items, up to the
/// first call that produces nothing.
pub open spec fn produced_pairs<T>(pending: Seq<T>) -> Seq<(T, T)>
    decreases pending.len(),
{
    match first_pair(pending) {
        Some(pair) => seq![pair] + produced_pairs(pending_after(pending)),
        None => Seq::empty(),
    }
}

/// What is pending after `calls` calls.
pub open spec fn pending_after_pairs<T>(pending: Seq<T>, calls: nat) -> Seq<T>
    decreases calls,
{
    if calls == 0 {
        pending
    } else {
        pending_after_pairs(pending_after(pending), (calls - 1) as nat)
    }
}

/// Whether cloning a `T` always gives a value equal to the one cloned.
///
/// Each item but the first and the last appears in two pairs: once as it came
/// from the source and once as a clone. Where cloning is exact the two are the
/// same value.
pub open spec fn clone_is_exact<T: Clone>() -> bool {
    forall|value: T, copy: T| #[trigger] vstd::pervasive::strictly_cloned(value, copy) ==> value == copy
}

/// The number of pairs still to come when the source reports `size` items left
/// and an item is carried or not: the pair count of `size` items and the
/// carried one.
pub open spec fn remaining_pairs(size: usize, carrying: bool) -> usize {
    pair_count(size + if carrying { 1int } else { 0int }) as usize
}

/// The bounds on the number of pairs still to come, from the bounds that the
/// source reports on its own items. A missing upper bound stays missing.
pub open spec fn remaining_pair_bounds(reported: (usize, Option<usize>), carrying: bool) -> (
    usize,
    Option<usize>,
) {
    (
        remaining_pairs(reported.0, carrying),
        match reported.1 {
            Some(upper) => Some(remaining_pairs(upper, carrying)),
            None => None,
        },
    )
}

/// Call after call produces exactly the adjacent pairs of the items, in order.
pub proof fn lemma_produced_pairs<T>(items: Seq<T>)
    ensures
        produced_pairs(items) == adjacent_pairs_of(items),
    decreases items.len(),
{
    if items.len() >= 2 {
        lemma_produced_pairs(items.skip(1));
        assert(seq![(items[0], items[1])] + adjacent_pairs_of(items.skip(1)) =~= adjacent_pairs_of(
            items,
        ));
    } else {
        assert(produced_pairs(items) =~= adjacent_pairs_of(items));
    }
}

/// From `n` items exactly `n - 1` pairs are produced, and none from an empty
/// run.
pub proof fn lemma_pair_count<T>(items: Seq<T>)
    ensures
        items.len() == 0 ==> produced_pairs(items).len() == 0,
        items.len() >= 1 ==> produced_pairs(items).len() == items.len() - 1,
{
    lemma_produced_pairs(items);
}

/// The pair with index `i` is item `i` with item `i + 1`: the pairs keep the
/// order of the items, skip none and repeat none.
pub proof fn lemma_pair_at<T>(items: Seq<T>, i: int)
    requires
        0 <= i,
        i + 2 <= items.len(),
    ensures
        i < produced_pairs(items).len(),
        produced_pairs(items)[i] == (items[i], items[i + 1]),
{
    lemma_produced_pairs(items);
}

/// Once a call has produced nothing, nothing is pending, and every later call
/// produces nothing again.
pub proof fn lemma_exhaustion_is_permanent<T>(pending: Seq<T>, later: nat)
    requires
        first_pair(pending) is None,
    ensures
        pending_after(pending).len() == 0,
        pending_after_pairs(pending_after(pending), later).len() == 0,
        first_pair(pending_after_pairs(pending_after(pending), later)) is None,
    decreases later,
{
    if later > 0 {
        lemma_exhaustion_is_permanent(pending_after(pending), (later - 1) as nat);
        assert(pending_after(pending_after(pending)) =~= pending_after(pending));
    }
}

/// As long as pairs are produced, each call uses up exactly one item: after
/// `taken` pairs the first `taken` items are gone and the others are pending,
/// and the pairs still to come are those of the items without their first
/// `taken`.
pub proof fn lemma_pending_after_pairs<T>(items: Seq<T>, taken: nat)
    requires
        taken <= adjacent_pairs_of(items).len(),
    ensures
        pending_after_pairs(items, taken) == items.skip(taken as int),
        produced_pairs(pending_after_pairs(items, taken)) == adjacent_pairs_of(items).skip(
            taken as int,
        ),
    decreases taken,
{
    if taken > 0 {
        lemma_pending_after_pairs(items.skip(1), (taken - 1) as nat);
        assert(items.skip(1).skip(taken - 1) =~= items.skip(taken as int));
    } else {
        assert(items.skip(0) =~= items);
    }
    lemma_produced_pairs(items.skip(taken as int));
    assert(adjacent_pairs_of(items.skip(taken as int)) =~= adjacent_pairs_of(items).skip(
        taken as int,
    ));
}

/// The number computed from a reported size never exceeds that size: it is
/// the size itself where an item is carried, and one less, but not below zero,
/// where none is.
pub proof fn lemma_remaining_pairs(size: usize, carrying: bool)
    ensures
        remaining_pairs(size, carrying) == pair_count(size + if carrying { 1int } else { 0int }),
        remaining_pairs(size, carrying) <= size,
        carrying ==> remaining_pairs(size, carrying) == size,
        !carrying && size > 0 ==> remaining_pairs(size, carrying) == size - 1,
        !carrying && size == 0 ==> remaining_pairs(size, carrying) == 0,
{
}

/// Where the source reports its size exactly, the bounds on the pairs are exact
/// too: both equal the number of pairs that the pending items will give.
pub proof fn lemma_exact_bounds<T>(carried: Option<T>, rest: Seq<T>, reported: (usize, Option<usize>))
    requires
        reported.0 == rest.len(),
        reported.1 == Some(reported.0),
    ensures
        remaining_pair_bounds(reported, carried is Some).0 == produced_pairs(
            pending_items(carried, rest),
        ).len(),
        remaining_pair_bounds(reported, carried is Some).1 == Some(
            remaining_pair_bounds(reported, carried is Some).0,
        ),
{
    lemma_produced_pairs(pending_items(carried, rest));
}

/// How many items are pending after some calls depends only on how many were
/// pending before: whether an item is the one that the source gave or a clone
/// of it makes no difference to the count.
pub proof fn lemma_pending_count<T>(pending: Seq<T>, other: Seq<T>, calls: nat)
    requires
        pending.len() == other.len(),
    ensures
        pending_after_pairs(pending, calls).len() == pending_after_pairs(other, calls).len(),
    decreases calls,
{
    if calls > 0 {
        lemma_pending_count(pending_after(pending), pending_after(other), (calls - 1) as nat);
    }
}

/// After `taken` pairs have been produced from `items`, a source that reports
/// its size exactly leads to `items.len() - 1 - taken` as the lower and the
/// upper bound, and to zero where there were no items at all: the bounds
/// shrink by one with each pair produced.
pub proof fn lemma_exact_bounds_after<T>(
    items: Seq<T>,
    taken: nat,
    carried: Option<T>,
    rest: Seq<T>,
    reported: (usize, Option<usize>),
)
    requires
        taken <= produced_pairs(items).len(),
        pending_items(carried, rest).len() == pending_after_pairs(items, taken).len(),
        reported.0 == rest.len(),
        reported.1 == Some(reported.0),
    ensures
        remaining_pair_bounds(reported, carried is Some).0 == pair_count(items.len() - taken),
        items.len() >= 1 ==> remaining_pair_bounds(reported, carried is Some).0 == items.len() - 1
            - taken,
        items.len() == 0 ==> remaining_pair_bounds(reported, carried is Some).0 == 0,
        remaining_pair_bounds(reported, carried is Some).1 == Some(
            remaining_pair_bounds(reported, carried is Some).0,
        ),
{
    lemma_produced_pairs(items);
    lemma_pending_after_pairs(items, taken);
}

} // verus!
