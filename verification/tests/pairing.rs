use adjacent_pair_iterator::{AdjacentPairIterator, AdjacentPairs};

fn pairs_of(items: Vec<u32>) -> Vec<(u32, u32)> {
    let mut pairs = Vec::new();
    let mut iterator = items.into_iter().adjacent_pairs();
    while let Some(pair) = iterator.next() {
        pairs.push(pair);
    }
    pairs
}

#[test]
fn produces_one_pair_less_than_there_are_items() {
    for length in 0..20u32 {
        let items: Vec<u32> = (0..length).collect();
        let expected = if length == 0 { 0 } else { length as usize - 1 };
        assert_eq!(expected, pairs_of(items).len());
    }
}

#[test]
fn each_pair_holds_an_item_and_its_successor() {
    let items = vec![7, 3, 3, 9, 1, 4, 4, 4, 0];
    let pairs = pairs_of(items.clone());
    assert_eq!(items.len() - 1, pairs.len());
    for index in 0..pairs.len() {
        assert_eq!((items[index], items[index + 1]), pairs[index]);
    }
}

#[test]
fn produces_the_expected_pairs_of_six_items() {
    assert_eq!(vec![(1, 2), (2, 3), (3, 4), (4, 5), (5, 6)], pairs_of(vec![1, 2, 3, 4, 5, 6]));
}

#[test]
fn stays_exhausted_once_exhausted() {
    for length in 0..5u32 {
        let items: Vec<u32> = (0..length).collect();
        let mut iterator = items.into_iter().adjacent_pairs();
        while iterator.next().is_some() {}
        for _ in 0..10 {
            assert_eq!(None, iterator.next());
        }
    }
}

#[test]
fn does_not_offer_a_lone_last_item_again() {
    let mut source = vec![1].into_iter();
    {
        let mut iterator = AdjacentPairs::new(&mut source);
        assert_eq!(None, iterator.next());
        assert_eq!(None, iterator.next());
    }
    assert_eq!(None, source.next());
}

#[test]
fn pulls_each_item_once() {
    let mut pulled = 0;
    let source = (0..5).inspect(|_| pulled += 1);
    let mut iterator = source.adjacent_pairs();
    while iterator.next().is_some() {}
    drop(iterator);
    assert_eq!(5, pulled);
}

#[test]
fn pairs_items_that_are_cloned_and_not_copied() {
    let items = vec![String::from("a"), String::from("b"), String::from("c")];
    let mut iterator = items.into_iter().adjacent_pairs();
    assert_eq!(Some((String::from("a"), String::from("b"))), iterator.next());
    assert_eq!(Some((String::from("b"), String::from("c"))), iterator.next());
    assert_eq!(None, iterator.next());
}

#[test]
fn works_on_an_endless_source() {
    let mut iterator = (0u64..).adjacent_pairs();
    for index in 0..1000 {
        assert_eq!(Some((index, index + 1)), iterator.next());
    }
}

#[test]
fn new_and_from_and_the_method_wrap_alike() {
    let mut by_new = AdjacentPairs::new(vec![1, 2, 3].into_iter());
    let mut by_from: AdjacentPairs<_> = AdjacentPairs::from(vec![1, 2, 3].into_iter());
    let mut by_method = vec![1, 2, 3].into_iter().adjacent_pairs();
    for _ in 0..4 {
        let expected = by_new.next();
        assert_eq!(expected, by_from.next());
        assert_eq!(expected, by_method.next());
    }
}

#[test]
fn a_clone_resumes_where_the_adapter_stands() {
    let mut adapter = vec![1, 2, 3, 4, 5].into_iter().adjacent_pairs();
    assert_eq!(Some((1, 2)), adapter.next());
    let mut copy = adapter.clone();
    assert_eq!(adapter.size_hint(), copy.size_hint());
    assert_eq!(Some((2, 3)), copy.next());
    assert_eq!(Some((3, 4)), copy.next());
    assert_eq!(Some((4, 5)), copy.next());
    assert_eq!(None, copy.next());
    assert_eq!(Some((2, 3)), adapter.next());
    assert_eq!(Some((3, 4)), adapter.next());
    assert_eq!(Some((4, 5)), adapter.next());
    assert_eq!(None, adapter.next());
}

#[test]
fn a_clone_taken_before_any_pull_carries_nothing() {
    let adapter = vec![1, 2].into_iter().adjacent_pairs();
    let mut copy = adapter.clone();
    assert_eq!(Some((1, 2)), copy.next());
    assert_eq!(None, copy.next());
}

#[test]
fn works_in_a_for_loop() {
    let mut seen = Vec::new();
    for (previous, current) in [10, 20, 30].iter().adjacent_pairs() {
        seen.push(current - previous);
    }
    assert_eq!(vec![10, 10], seen);
}
