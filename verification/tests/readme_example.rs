use adjacent_pair_iterator::AdjacentPairIterator;

fn readme_example() -> String {
    let vector = vec![1, 2, 3, 4];
    let mut output = String::new();
    for pair in vector.into_iter().adjacent_pairs() {
        output.push_str(&format!("{:?}\n", pair));
    }
    output
}

#[test]
fn readme_example_output_is_as_expected() {
    let expected_output = r#"(1, 2)
(2, 3)
(3, 4)
"#;
    assert_eq!(expected_output, readme_example());
}
