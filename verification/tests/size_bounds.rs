use adjacent_pair_iterator::{AdjacentPairIterator, AdjacentPairs};

#[test]
fn reports_exact_bounds_before_each_call() {
    let array = [1, 2, 3, 4, 5, 6];
    let mut iterator = array.iter().adjacent_pairs();
    for remaining in (0..=5usize).rev() {
        assert_eq!((remaining, Some(remaining)), iterator.size_hint());
        assert_eq!(remaining, iterator.len());
        assert_eq!(remaining > 0, iterator.next().is_some());
    }
    assert_eq!((0, Some(0)), iterator.size_hint());
    assert_eq!(None, iterator.next());
    assert_eq!((0, Some(0)), iterator.size_hint());
}

#[test]
fn bound_after_some_pairs_is_items_less_one_less_pairs() {
    for length in 0..12usize {
        let items: Vec<usize> = (0..length).collect();
        let mut iterator = items.into_iter().adjacent_pairs();
        let mut taken = 0;
        loop {
            let expected = if length >= 1 + taken { length - 1 - taken } else { 0 };
            assert_eq!((expected, Some(expected)), iterator.size_hint());
            if iterator.next().is_none() {
                break;
            }
            taken += 1;
        }
    }
}

#[test]
fn reports_nothing_left_for_empty_and_single_sources() {
    let empty: [u8; 0] = [];
    assert_eq!((0, Some(0)), empty.iter().adjacent_pairs().size_hint());
    assert_eq!((0, Some(0)), [1u8].iter().adjacent_pairs().size_hint());
    assert_eq!((1, Some(1)), [1u8, 2].iter().adjacent_pairs().size_hint());
}

#[test]
fn counts_the_carried_item() {
    let mut iterator = AdjacentPairs::new([1, 2, 3].iter());
    assert_eq!(0, iterator.remaining_pairs_for_given_size(0));
    assert_eq!(0, iterator.remaining_pairs_for_given_size(1));
    assert_eq!(1, iterator.remaining_pairs_for_given_size(2));
    assert_eq!(9, iterator.remaining_pairs_for_given_size(10));
    assert_eq!(usize::MAX - 1, iterator.remaining_pairs_for_given_size(usize::MAX));
    iterator.next();
    assert_eq!(0, iterator.remaining_pairs_for_given_size(0));
    assert_eq!(1, iterator.remaining_pairs_for_given_size(1));
    assert_eq!(2, iterator.remaining_pairs_for_given_size(2));
    assert_eq!(10, iterator.remaining_pairs_for_given_size(10));
    assert_eq!(usize::MAX, iterator.remaining_pairs_for_given_size(usize::MAX));
}

#[test]
fn carries_nothing_once_exhausted() {
    let mut iterator = AdjacentPairs::new([1, 2].iter());
    assert!(iterator.next().is_some());
    assert_eq!(3, iterator.remaining_pairs_for_given_size(3));
    assert!(iterator.next().is_none());
    assert_eq!(2, iterator.remaining_pairs_for_given_size(3));
}

#[test]
fn adjusts_both_bounds_of_a_report() {
    let mut iterator = AdjacentPairs::new([1, 2, 3].iter());
    assert_eq!((0, None), iterator.size_hint_for((0, None)));
    assert_eq!((2, Some(6)), iterator.size_hint_for((3, Some(7))));
    assert_eq!((0, Some(0)), iterator.size_hint_for((0, Some(0))));
    assert_eq!((0, Some(0)), iterator.size_hint_for((1, Some(1))));
    iterator.next();
    assert_eq!((0, None), iterator.size_hint_for((0, None)));
    assert_eq!((3, Some(7)), iterator.size_hint_for((3, Some(7))));
    assert_eq!((1, Some(1)), iterator.size_hint_for((1, Some(1))));
}

#[test]
fn adjusts_the_bounds_of_an_inexact_report() {
    let mut iterator = (0u32..10).filter(|item| item % 2 == 0).adjacent_pairs();
    assert_eq!((0, Some(9)), iterator.size_hint());
    assert_eq!(Some((0, 2)), iterator.next());
    assert_eq!((0, Some(7)), iterator.size_hint());
}

#[test]
fn keeps_a_missing_upper_bound_missing() {
    let endless = std::iter::repeat(1u8).adjacent_pairs();
    assert_eq!((usize::MAX - 1, None), endless.size_hint());
}

#[test]
fn does_not_overflow_on_an_endless_source() {
    let mut endless = std::iter::repeat(1u8).adjacent_pairs();
    assert_eq!(Some((1, 1)), endless.next());
    assert_eq!((usize::MAX, None), endless.size_hint());
}
