//! # adjacent-pair-iterator
//! A library that takes an iterator and turns it into an iterator over adjacent pairs.
//!
//! ## Example:
//! ```
//! use adjacent_pair_iterator::AdjacentPairIterator;
//!
//! let vector = vec![1, 2, 3, 4];
//! let mut iterator = vector.into_iter().adjacent_pairs();
//!
//! assert_eq!((1, 2), iterator.next().unwrap());
//! assert_eq!((2, 3), iterator.next().unwrap());
//! assert_eq!((3, 4), iterator.next().unwrap());
//!
//! assert_eq!(None, iterator.next());
//! ```
pub mod description;
pub mod pairing;
pub mod test_helpers;

use crate::description::{compact_description_of, compact_text, pretty_description_of, pretty_text};
use crate::pairing::{
    clone_is_exact, first_pair, pending_after, pending_items, remaining_pair_bounds, remaining_pairs,
};
use core::fmt::Write;
use vstd::prelude::*;
use vstd::std_specs::iter::IteratorSpec;

verus! {

/// An iterator over adjacent pairs of values in the underlying `IteratorType`.
///
/// This is usually created using [`AdjacentPairIterator::adjacent_pairs`].
///
/// It owns the wrapped iterator and one slot: the item that ended the last
/// pair, kept because it begins the next one. The items it has yet to pair
/// are that carried item, if any, followed by what the wrapped iterator will
/// still yield.
pub struct AdjacentPairs<IteratorType: Iterator> {
    iterator: IteratorType,
    last_item: Option<IteratorType::Item>,
}

impl<IteratorType: Iterator> AdjacentPairs<IteratorType> {
    /// The wrapped iterator.
    pub closed spec fn source(&self) -> IteratorType {
        self.iterator
    }

    /// The item carried over from the last pair, if any.
    pub closed spec fn carried(&self) -> Option<IteratorType::Item> {
        self.last_item
    }

    /// The adapter that wraps `source` and carries nothing yet.
    pub closed spec fn wrapping(source: IteratorType) -> Self {
        AdjacentPairs { iterator: source, last_item: None }
    }

    /// A fresh adapter has the iterator it wraps as its source, and carries
    /// nothing.
    pub proof fn lemma_wrapping(source: IteratorType)
        ensures
            Self::wrapping(source).source() == source,
            Self::wrapping(source).carried() is None,
    {
    }
}

impl<IteratorType> AdjacentPairs<IteratorType> where
    IteratorType: Iterator,
    IteratorType::Item: Clone,
 {
    /// Wraps `iterator`, which may be empty or hold a single item. Nothing is
    /// pulled from it yet.
    pub fn new(iterator: IteratorType) -> (pairs: AdjacentPairs<IteratorType>)
        ensures
            pairs == Self::wrapping(iterator),
            pairs.source() == iterator,
            pairs.carried() is None,
    {
        AdjacentPairs { iterator, last_item: None }
    }

    /// The number of pairs still to come if the wrapped iterator has `size`
    /// items left: the carried item counts as one more item, and the pairs are
    /// one fewer than the items.
    pub fn remaining_pairs_for_given_size(&self, size: usize) -> (pairs: usize)
        ensures
            pairs == remaining_pairs(size, self.carried() is Some),
    {
        if self.last_item.is_some() {
            size
        } else if size > 0 {
            size - 1
        } else {
            0
        }
    }

    /// The bounds on the pairs still to come, given the bounds `reported` by the
    /// wrapped iterator on its own remaining items. An exact report gives exact
    /// bounds, and a missing upper bound stays missing.
    pub fn size_hint_for(&self, reported: (usize, Option<usize>)) -> (bounds: (usize, Option<usize>))
        ensures
            bounds == remaining_pair_bounds(reported, self.carried() is Some),
    {
        let (lower, upper) = reported;
        (
            self.remaining_pairs_for_given_size(lower),
            match upper {
                Some(upper) => Some(self.remaining_pairs_for_given_size(upper)),
                None => None,
            },
        )
    }
}

impl<IteratorType> Clone for AdjacentPairs<IteratorType> where
    IteratorType: Iterator + Clone,
    IteratorType::Item: Clone,
 {
    /// A second adapter at the same place: its wrapped iterator is a clone of
    /// this one's, and it carries a clone of the carried item, or nothing where
    /// nothing is carried.
    fn clone(&self) -> (copy: Self)
        ensures
            cloned(self.source(), copy.source()),
            self.carried() is None ==> copy.carried() is None,
            self.carried() matches Some(item) ==> copy.carried() matches Some(kept) && cloned(
                item,
                kept,
            ),
    {
        AdjacentPairs { iterator: self.iterator.clone(), last_item: self.last_item.clone() }
    }
}

impl<IteratorType> Iterator for AdjacentPairs<IteratorType> where
    IteratorType: Iterator,
    IteratorType::Item: Clone,
 {
    type Item = (IteratorType::Item, IteratorType::Item);

    /// Produces the next pair, or `None` once fewer than two items are pending.
    ///
    /// Whatever the wrapped iterator does, the second item of a pair is cloned
    /// into the carry slot, a carried item becomes the first item of the pair,
    /// and nothing is carried after `None`.
    ///
    /// Where the wrapped iterator keeps to the iterator laws, the pair is made
    /// of the first two pending items, and one item fewer is pending afterwards:
    /// the second item of the pair, as a clone, and the rest unchanged. With fewer
    /// than two pending items the answer is `None` and nothing at all is pending
    /// afterwards: a lone trailing item is dropped, not carried, and every later
    /// call answers `None` again. Where cloning is exact this is one step of
    /// the model in [`crate::pairing`].
    fn next(&mut self) -> (pair: Option<Self::Item>)
        ensures
            pair is None ==> final(self).carried() is None,
            pair matches Some((_, current)) ==> final(self).carried() matches Some(kept) && cloned(
                current,
                kept,
            ),
            pair matches Some((previous, _)) ==> (old(self).carried() matches Some(kept) ==> previous
                == kept),
            old(self).source().obeys_prophetic_iter_laws()
                ==> final(self).source().obeys_prophetic_iter_laws(),
            old(self).source().obeys_prophetic_iter_laws() ==> ({
                let before = pending_items(old(self).carried(), old(self).source().remaining());
                let after = pending_items(final(self).carried(), final(self).source().remaining());
                &&& pair == first_pair(before)
                &&& after.len() == pending_after(before).len()
                &&& pair is Some ==> cloned(before[1], after[0]) && after.skip(1) == before.skip(2)
                &&& clone_is_exact::<IteratorType::Item>() ==> after == pending_after(before)
            }),
    {
        let last_item = match self.last_item.take() {
            Some(item) => item,
            None => match self.iterator.next() {
                Some(item) => item,
                None => {
                    return None;
                },
            },
        };
        match self.iterator.next() {
            Some(current_item) => {
                self.last_item = Some(current_item.clone());
                Some((last_item, current_item))
            },
            None => None,
        }
    }

    /// Bounds on the number of pairs still to come, computed afresh from what
    /// the wrapped iterator reports now.
    fn size_hint(&self) -> (bounds: (usize, Option<usize>))
        ensures
            exists|reported: (usize, Option<usize>)|
                bounds == #[trigger] remaining_pair_bounds(reported, self.carried() is Some),
    {
        let reported = source_size_hint(&self.iterator);
        self.size_hint_for(reported)
    }
}

/// What the adapter will yield depends on what the wrapped iterator will
/// yield, so it claims no sequence of its own here: the contract of its `next`
/// states its behaviour in terms of the wrapped iterator's laws.
impl<IteratorType> vstd::std_specs::iter::IteratorSpecImpl for AdjacentPairs<IteratorType> where
    IteratorType: Iterator,
    IteratorType::Item: Clone,
 {
    open spec fn obeys_prophetic_iter_laws(&self) -> bool {
        false
    }

    open spec fn remaining(&self) -> Seq<Self::Item> {
        Seq::empty()
    }

    open spec fn will_return_none(&self) -> bool {
        false
    }

    open spec fn decrease(&self) -> Option<nat> {
        None
    }

    open spec fn initial_value_relation(&self, init: &Self) -> bool {
        true
    }

    open spec fn peek(&self, index: int) -> Option<Self::Item> {
        None
    }
}

impl<IteratorType> core::iter::FusedIterator for AdjacentPairs<IteratorType> where
    IteratorType: core::iter::FusedIterator,
    IteratorType::Item: Clone,
 {
}

impl<IteratorType> ExactSizeIterator for AdjacentPairs<IteratorType> where
    IteratorType: ExactSizeIterator,
    IteratorType::Item: Clone,
 {
}

impl<IteratorType> AdjacentPairs<IteratorType> where
    IteratorType: Iterator + core::fmt::Debug,
 {
    /// The adapter on one line: its name, and one field named `iterator` that
    /// holds the wrapped iterator's own representation. The carried item is not
    /// shown. Fails only where the wrapped iterator's formatting fails, with its
    /// error.
    pub fn describe(&self) -> (text: Result<String, core::fmt::Error>)
        ensures
            text matches Ok(line) ==> exists|inner: Seq<char>| line@ == #[trigger] compact_text(inner),
    {
        let mut inner = String::new();
        let outcome = write_debug(&mut inner, &self.iterator);
        compact_description_of(outcome, inner.as_str())
    }

    /// The adapter over several lines, the field on a line of its own and the
    /// wrapped iterator's multi-line representation indented below it. The
    /// carried item is not shown. Fails only where the wrapped iterator's
    /// formatting fails, with its error.
    pub fn describe_pretty(&self) -> (text: Result<String, core::fmt::Error>)
        ensures
            text matches Ok(lines) ==> exists|inner: Seq<char>| lines@ == #[trigger] pretty_text(inner),
    {
        let mut inner = String::new();
        let outcome = write_pretty_debug(&mut inner, &self.iterator);
        pretty_description_of(outcome, inner.as_str())
    }
}

impl<Source> From<Source> for AdjacentPairs<Source> where
    Source: Iterator,
    Source::Item: Clone,
 {
    /// Wraps `source`, as [`AdjacentPairs::new`] does.
    fn from(source: Source) -> (pairs: Self)
        ensures
            pairs.source() == source,
            pairs.carried() is None,
    {
        Self::new(source)
    }
}

impl<Source> vstd::std_specs::convert::FromSpecImpl<Source> for AdjacentPairs<Source> where
    Source: Iterator,
    Source::Item: Clone,
 {
    open spec fn obeys_from_spec() -> bool {
        true
    }

    open spec fn from_spec(source: Source) -> Self {
        Self::wrapping(source)
    }
}

/// Extends all iterators with clonable items with the `adjacent_pairs` method.
pub trait AdjacentPairIterator {
    type Iterator: Iterator;

    /// Return an iterator of adjacent pairs in `Self`. It carries nothing yet.
    fn adjacent_pairs(self) -> (pairs: AdjacentPairs<Self::Iterator>)
        ensures
            pairs.carried() is None,
    ;
}

impl<Source> AdjacentPairIterator for Source where Source: Iterator, Source::Item: Clone {
    type Iterator = Source;

    /// Wraps the iterator itself, as [`AdjacentPairs::new`] does.
    fn adjacent_pairs(self) -> (pairs: AdjacentPairs<Source>)
        ensures
            pairs == AdjacentPairs::wrapping(self),
            pairs.source() == self,
    {
        AdjacentPairs::new(self)
    }
}

/// The error of `core::fmt`: formatting failed. It carries nothing.
#[verifier::external_type_specification]
#[verifier::external_body]
pub struct ExFmtError(core::fmt::Error);

/// `Iterator::size_hint` on the wrapped iterator. Nothing is claimed of the
/// bounds: they are whatever that iterator chooses to report.
#[verifier::external_body]
fn source_size_hint<IteratorType: Iterator>(iterator: &IteratorType) -> (reported: (
    usize,
    Option<usize>,
)) {
    iterator.size_hint()
}

/// `write!` into a `String` with `{:?}`: appends the one-line `Debug` form of
/// `value`. Nothing is claimed of what is written; the outcome is that of the
/// value's own formatting.
#[verifier::external_body]
fn write_debug<Value: core::fmt::Debug>(text: &mut String, value: &Value) -> (outcome: Result<
    (),
    core::fmt::Error,
>) {
    write!(text, "{:?}", value)
}

/// `write!` into a `String` with `{:#?}`: appends the multi-line `Debug` form
/// of `value`. Nothing is claimed of what is written; the outcome is that of
/// the value's own formatting.
#[verifier::external_body]
fn write_pretty_debug<Value: core::fmt::Debug>(text: &mut String, value: &Value) -> (outcome: Result<
    (),
    core::fmt::Error,
>) {
    write!(text, "{:#?}", value)
}

} // verus!
