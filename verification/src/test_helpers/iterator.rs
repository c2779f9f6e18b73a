//! A source of exactly two items that is no iterator itself, and its iterator.
use crate::pairing::pending_items;
use crate::{AdjacentPairIterator, AdjacentPairs};
use vstd::prelude::*;

verus! {

/// Two items, to be iterated over by value.
pub struct NoStdIntoIterator<T>(T, T);

impl<T> NoStdIntoIterator<T> {
    /// The two items, in order.
    pub closed spec fn items(&self) -> Seq<T> {
        seq![self.0, self.1]
    }

    /// The iterator over the two items, before anything is pulled from it.
    pub closed spec fn iterator(&self) -> NoStdIterator<T> {
        NoStdIterator { first: Some(self.0), second: Some(self.1) }
    }

    /// The iterator has the two items left, in order.
    pub proof fn lemma_iterator(&self)
        ensures
            self.iterator().items() == self.items(),
    {
        assert(self.iterator().items() =~= self.items());
    }
}

impl<T> From<[T; 2]> for NoStdIntoIterator<T> {
    /// Holds the two items of `array`, in order.
    fn from(array: [T; 2]) -> (iterable: Self)
        ensures
            iterable.items() == array@,
    {
        let (first, second) = pair_of_array(array);
        assert(seq![first, second] =~= array@);
        NoStdIntoIterator(first, second)
    }
}

impl<T> vstd::std_specs::convert::FromSpecImpl<[T; 2]> for NoStdIntoIterator<T> {
    open spec fn obeys_from_spec() -> bool {
        true
    }

    closed spec fn from_spec(array: [T; 2]) -> Self {
        NoStdIntoIterator(array@[0], array@[1])
    }
}

impl<T> IntoIterator for NoStdIntoIterator<T> {
    type Item = T;

    type IntoIter = NoStdIterator<T>;

    /// An iterator that yields the first item, then the second.
    fn into_iter(self) -> (iterator: NoStdIterator<T>)
        ensures
            iterator == self.iterator(),
            iterator.items() == self.items(),
    {
        proof {
            self.lemma_iterator();
        }
        let NoStdIntoIterator(first, second) = self;
        NoStdIterator { first: Some(first), second: Some(second) }
    }
}

/// The iterator of a [`NoStdIntoIterator`]: at most two items are left in it.
pub struct NoStdIterator<T> {
    first: Option<T>,
    second: Option<T>,
}

impl<T> NoStdIterator<T> {
    /// The items still to be yielded, in order.
    pub closed spec fn items(&self) -> Seq<T> {
        pending_items(self.first, pending_items(self.second, Seq::empty()))
    }
}

impl<T> Iterator for NoStdIterator<T> {
    type Item = T;

    /// Yields the first item left, or `None` once both are gone.
    fn next(&mut self) -> (item: Option<T>)
        ensures
            old(self).items().len() > 0 ==> item == Some(old(self).items()[0]),
            old(self).items().len() > 0 ==> final(self).items() == old(self).items().drop_first(),
            old(self).items().len() == 0 ==> item is None,
            old(self).items().len() == 0 ==> final(self).items() == old(self).items(),
    {
        let item = match self.first.take() {
            Some(item) => Some(item),
            None => self.second.take(),
        };
        assert(old(self).items().len() > 0 ==> self.items() =~= old(self).items().drop_first());
        item
    }
}

impl<T> vstd::std_specs::iter::IteratorSpecImpl for NoStdIterator<T> {
    open spec fn obeys_prophetic_iter_laws(&self) -> bool {
        true
    }

    open spec fn remaining(&self) -> Seq<T> {
        self.items()
    }

    open spec fn will_return_none(&self) -> bool {
        true
    }

    open spec fn decrease(&self) -> Option<nat> {
        Some(self.items().len())
    }

    open spec fn initial_value_relation(&self, init: &Self) -> bool {
        init.items() == self.items()
    }

    open spec fn peek(&self, index: int) -> Option<T> {
        if 0 <= index < self.items().len() {
            Some(self.items()[index])
        } else {
            None
        }
    }
}

impl<T: Clone> From<NoStdIntoIterator<T>> for AdjacentPairs<NoStdIterator<T>> {
    /// Wraps the iterator of `iterable`.
    fn from(iterable: NoStdIntoIterator<T>) -> (pairs: Self)
        ensures
            pairs.source() == iterable.iterator(),
            pairs.source().items() == iterable.items(),
            pairs.carried() is None,
    {
        AdjacentPairs::new(iterable.into_iter())
    }
}

impl<T: Clone> vstd::std_specs::convert::FromSpecImpl<NoStdIntoIterator<T>> for AdjacentPairs<NoStdIterator<T>> {
    open spec fn obeys_from_spec() -> bool {
        true
    }

    open spec fn from_spec(iterable: NoStdIntoIterator<T>) -> Self {
        AdjacentPairs::wrapping(iterable.iterator())
    }
}

impl<T: Clone> AdjacentPairIterator for NoStdIntoIterator<T> {
    type Iterator = NoStdIterator<T>;

    /// An iterator over the one pair that the two items make.
    fn adjacent_pairs(self) -> (pairs: AdjacentPairs<NoStdIterator<T>>)
        ensures
            pairs == AdjacentPairs::wrapping(self.iterator()),
            pairs.source() == self.iterator(),
            pairs.source().items() == self.items(),
    {
        AdjacentPairs::new(self.into_iter())
    }
}

/// `<(T, T)>::from` for an array of two items: the tuple holds the items of
/// the array in their order.
#[verifier::external_body]
fn pair_of_array<T>(array: [T; 2]) -> (pair: (T, T))
    ensures
        pair.0 == array@[0],
        pair.1 == array@[1],
{
    <(T, T)>::from(array)
}

} // verus!
