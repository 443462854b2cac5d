use ord20_indexer::indexer::{Indexer, InputOffsets};

fn outputs() -> Vec<(String, u64)> {
    vec![
        ("output1".to_string(), 10),
        ("output2".to_string(), 5),
        ("output3".to_string(), 20),
    ]
}

#[test]
fn test_calculate_ordinal_position_01() {
    let ordinal_offset = 10;
    let outputs = outputs();
    assert_eq!(
        Indexer::calculate_ordinal_position(usize::MAX, ordinal_offset, &outputs),
        1
    );
}

#[test]
fn test_calculate_ordinal_position_02() {
    let ordinal_offset = 0;
    let outputs = outputs();
    assert_eq!(
        Indexer::calculate_ordinal_position(usize::MAX, ordinal_offset, &outputs),
        0
    );
}

#[test]
fn test_calculate_ordinal_position_03() {
    let ordinal_offset = 40;
    let outputs = outputs();
    assert_eq!(
        Indexer::calculate_ordinal_position(usize::MAX, ordinal_offset, &outputs),
        3
    );
}

#[test]
fn first_input_always_lands_on_first_output() {
    assert_eq!(Indexer::calculate_ordinal_position(0, 40, &outputs()), 0);
    assert_eq!(Indexer::calculate_ordinal_position(0, 0, &Vec::new()), 0);
    assert_eq!(Indexer::calculate_ordinal_position(0, u64::MAX, &outputs()), 0);
}

#[test]
fn position_boundaries() {
    assert_eq!(Indexer::calculate_ordinal_position(1, 9, &outputs()), 0);
    assert_eq!(Indexer::calculate_ordinal_position(1, 14, &outputs()), 1);
    assert_eq!(Indexer::calculate_ordinal_position(1, 15, &outputs()), 2);
    assert_eq!(Indexer::calculate_ordinal_position(1, 34, &outputs()), 2);
    assert_eq!(Indexer::calculate_ordinal_position(1, 35, &outputs()), 3);
    assert_eq!(Indexer::calculate_ordinal_position(2, 0, &Vec::new()), 0);
}

#[test]
fn position_with_large_output_values() {
    let outputs = vec![("a".to_string(), u64::MAX), ("b".to_string(), u64::MAX)];
    assert_eq!(Indexer::calculate_ordinal_position(1, u64::MAX - 1, &outputs), 0);
    assert_eq!(Indexer::calculate_ordinal_position(1, u64::MAX, &outputs), 1);
}

#[test]
fn input_offsets_count_values_in_order() {
    let mut offsets = InputOffsets::new();
    assert_eq!(offsets.offset_for(0), Some(0));
    assert_eq!(offsets.next_missing(3), Some(0));
    assert!(offsets.record(10));
    assert_eq!(offsets.next_missing(3), Some(1));
    assert!(offsets.record(5));
    assert!(offsets.record(20));
    assert_eq!(offsets.next_missing(3), None);
    assert_eq!(offsets.offset_for(3), Some(35));
    assert_eq!(offsets.offset_for(2), None);
    assert_eq!(offsets.next_missing(5), Some(3));
    assert_eq!(offsets.offset_for(5), None);
}

#[test]
fn input_offsets_refuse_overflow() {
    let mut offsets = InputOffsets::new();
    assert!(offsets.record(u64::MAX));
    assert!(!offsets.record(1));
    assert_eq!(offsets.offset_for(1), Some(u64::MAX));
    assert_eq!(offsets.next_missing(2), Some(1));
}
