use adjacent_pair_iterator::test_helpers::iterator::NoStdIntoIterator;
use adjacent_pair_iterator::test_helpers::string::NoStdString;
use adjacent_pair_iterator::{AdjacentPairIterator, AdjacentPairs};

#[test]
fn should_provide_nothing_without_items() {
    let array: [i32; 0] = [];
    let mut iterator = array.iter().adjacent_pairs();

    assert_eq!(None, iterator.next());
}

#[test]
fn should_provide_nothing_for_only_one_input() {
    let array = [1];
    let mut iterator = array.iter().adjacent_pairs();

    assert_eq!(None, iterator.next());
}

#[test]
fn should_provide_pair_for_two_inputs() {
    let array = [1, 2];
    let mut iterator = array.iter().adjacent_pairs();

    assert_eq!(Some((&1, &2)), iterator.next());
    assert_eq!(None, iterator.next());
}

#[test]
fn should_provide_two_pairs_for_three_inputs() {
    let array = [1, 2, 3];
    let mut iterator = array.iter().adjacent_pairs();

    assert_eq!(Some((&1, &2)), iterator.next());
    assert_eq!(Some((&2, &3)), iterator.next());
    assert_eq!(None, iterator.next());
}

#[test]
fn should_provide_many_pairs() {
    let array = [1, 2, 3, 4, 5, 6];
    let mut iterator = array.iter().adjacent_pairs();

    assert_eq!(Some((&1, &2)), iterator.next());
    assert_eq!(Some((&2, &3)), iterator.next());
    assert_eq!(Some((&3, &4)), iterator.next());
    assert_eq!(Some((&4, &5)), iterator.next());
    assert_eq!(Some((&5, &6)), iterator.next());
    assert_eq!(None, iterator.next());
}

#[test]
fn should_work_with_into_iterator() {
    let iterable = NoStdIntoIterator::from([1, 2]);
    let mut iterator = iterable.adjacent_pairs();

    assert_eq!(Some((1, 2)), iterator.next());
    assert_eq!(None, iterator.next());
}

#[test]
fn should_update_its_size_hint() {
    let array = [0; 5];
    let mut iterator = array.iter().adjacent_pairs();

    assert_eq!((4, Some(4)), iterator.size_hint());
    iterator.next();
    assert_eq!((3, Some(3)), iterator.size_hint());
    iterator.next();
    assert_eq!((2, Some(2)), iterator.size_hint());
    iterator.next();
    assert_eq!((1, Some(1)), iterator.size_hint());
    iterator.next();
    assert_eq!((0, Some(0)), iterator.size_hint());
    assert!(iterator.next().is_none());
}

#[test]
fn should_debug_print() {
    let array = [1, 2];
    let iterator = array.iter().adjacent_pairs();

    let debug_output = NoStdString::format(&iterator.describe().unwrap()).unwrap();
    assert_eq!("AdjacentPairs { iterator: Iter([1, 2]) }", debug_output);

    // NOTE: With stripped commas because this changed between 1.31 and now (1.56)
    let expected_pretty_debug_output = r#"AdjacentPairs {
    iterator: Iter(
        [
            1
            2
        ]
    )
}"#;
    let pretty_debug_output_without_commas = NoStdString::format(&iterator.describe_pretty().unwrap())
        .unwrap()
        .removing(b',');
    assert_eq!(expected_pretty_debug_output, pretty_debug_output_without_commas);
}

#[test]
fn should_convert_from_iterable() {
    let iterable = NoStdIntoIterator::from([1, 2]);
    let mut iterator: AdjacentPairs<_> = From::from(iterable);
    assert_eq!(Some((1, 2)), iterator.next());
}
