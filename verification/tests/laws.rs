use indices::TryIndicesError;
use indices::TryIndicesOrderedError;
use indices::indices_slice;
use indices::insertion_sort;
use indices::materialize;
use indices::try_indices_slice;
use indices::validate_ordered;
use indices::validate_unordered;

#[test]
fn insertion_sort_sorts_ascending() {
    let mut values = vec![3, 1, 2];
    insertion_sort(&mut values);
    assert_eq!(values, vec![1, 2, 3]);
}

#[test]
fn insertion_sort_keeps_duplicates() {
    let mut values = vec![2, 2, 1, 5, 1];
    insertion_sort(&mut values);
    assert_eq!(values, vec![1, 1, 2, 2, 5]);
}

#[test]
fn insertion_sort_handles_empty_and_single() {
    let mut empty: Vec<usize> = vec![];
    insertion_sort(&mut empty);
    assert!(empty.is_empty());
    let mut single = vec![7];
    insertion_sort(&mut single);
    assert_eq!(single, vec![7]);
}

#[test]
fn validate_unordered_accepts_distinct_in_bounds() {
    assert_eq!(validate_unordered(5, &vec![1, 3]), Ok(()));
    assert_eq!(validate_unordered(5, &vec![4, 0, 2]), Ok(()));
}

#[test]
fn validate_unordered_rejects_duplicates() {
    assert_eq!(
        validate_unordered(5, &vec![3, 3]),
        Err(TryIndicesError::DuplicateIndex)
    );
    assert_eq!(
        validate_unordered(5, &vec![0, 2, 0]),
        Err(TryIndicesError::DuplicateIndex)
    );
}

#[test]
fn validate_unordered_rejects_out_of_bounds() {
    assert_eq!(
        validate_unordered(5, &vec![3, 5]),
        Err(TryIndicesError::IndexOutOfBounds)
    );
    assert_eq!(
        validate_unordered(0, &vec![0]),
        Err(TryIndicesError::IndexOutOfBounds)
    );
}

#[test]
fn validate_unordered_bounds_take_precedence_over_duplicates() {
    assert_eq!(
        validate_unordered(5, &vec![7, 7]),
        Err(TryIndicesError::IndexOutOfBounds)
    );
    assert_eq!(
        validate_unordered(5, &vec![1, 1, 9]),
        Err(TryIndicesError::IndexOutOfBounds)
    );
}

#[test]
fn validate_ordered_accepts_strictly_increasing_in_bounds() {
    assert_eq!(validate_ordered(5, &vec![1, 3]), Ok(()));
    assert_eq!(validate_ordered(5, &vec![0, 2, 4]), Ok(()));
}

#[test]
fn validate_ordered_rejects_misordered_whatever_the_bounds() {
    assert_eq!(
        validate_ordered(5, &vec![3, 1]),
        Err(TryIndicesOrderedError::InvalidIndex)
    );
    assert_eq!(
        validate_ordered(5, &vec![3, 3]),
        Err(TryIndicesOrderedError::InvalidIndex)
    );
    assert_eq!(
        validate_ordered(3, &vec![9, 1]),
        Err(TryIndicesOrderedError::InvalidIndex)
    );
}

#[test]
fn validate_ordered_rejects_bounds_only_when_ordering_holds() {
    assert_eq!(
        validate_ordered(5, &vec![3, 5]),
        Err(TryIndicesOrderedError::IndexOutOfBounds)
    );
    assert_eq!(
        validate_ordered(0, &vec![0]),
        Err(TryIndicesOrderedError::IndexOutOfBounds)
    );
}

#[test]
fn validation_is_idempotent() {
    let cases: Vec<(usize, Vec<usize>)> = vec![
        (5, vec![1, 3]),
        (5, vec![3, 3]),
        (5, vec![3, 5]),
        (0, vec![]),
        (0, vec![0]),
    ];
    for (length, positions) in cases {
        assert_eq!(
            validate_unordered(length, &positions),
            validate_unordered(length, &positions)
        );
        assert_eq!(
            validate_ordered(length, &positions),
            validate_ordered(length, &positions)
        );
    }
}

#[test]
fn empty_positions_always_succeed() {
    let none: Vec<usize> = vec![];
    assert_eq!(validate_unordered(0, &none), Ok(()));
    assert_eq!(validate_unordered(9, &none), Ok(()));
    assert_eq!(validate_ordered(0, &none), Ok(()));
    assert_eq!(validate_ordered(9, &none), Ok(()));
    let empty_data: Vec<u8> = vec![];
    assert!(indices_slice(&empty_data, &none).is_empty());
}

#[test]
fn materialize_preserves_requested_order() {
    let data = vec![50, 40, 30, 20, 10];
    let positions = vec![4, 0, 2];
    let handles = materialize(&data, &positions);
    let targets: Vec<usize> = handles.iter().map(|h| h.position()).collect();
    assert_eq!(targets, positions);
}

#[test]
fn disjoint_writes_commute() {
    let base = vec![5, 4, 3, 2, 1];
    let positions = vec![1, 3, 4];
    let values = vec![10, 20, 30];

    let mut forward = base.clone();
    let handles = indices_slice(&forward, &positions);
    for (h, v) in handles.iter().zip(values.iter()) {
        h.write(&mut forward, *v);
    }

    let mut backward = base.clone();
    let handles = indices_slice(&backward, &positions);
    for (h, v) in handles.iter().zip(values.iter()).rev() {
        h.write(&mut backward, *v);
    }

    let mut direct = base.clone();
    direct[1] = 10;
    direct[3] = 20;
    direct[4] = 30;

    assert_eq!(forward, direct);
    assert_eq!(backward, direct);
    assert_eq!(forward, vec![5, 10, 3, 20, 30]);
}

#[test]
fn try_indices_slice_agrees_with_validation() {
    let data = vec![5, 4, 3, 2, 1];
    let good = vec![2, 0];
    assert!(try_indices_slice(&data, &good).is_ok());
    assert_eq!(validate_unordered(data.len(), &good), Ok(()));
    let dup = vec![2, 2];
    assert_eq!(
        try_indices_slice(&data, &dup).unwrap_err(),
        TryIndicesError::DuplicateIndex
    );
    let oob = vec![2, 9];
    assert_eq!(
        try_indices_slice(&data, &oob).unwrap_err(),
        TryIndicesError::IndexOutOfBounds
    );
}
