use unsw_regression::partition::{check_permutation, PartitionError, Split, UnswNb15Dataset};

fn indices(dataset: &UnswNb15Dataset) -> Vec<usize> {
    (0..dataset.len()).map(|i| dataset.get(i).unwrap()).collect()
}

#[test]
fn train_and_test_lengths_add_up() {
    for len in [0usize, 1, 2, 9, 10, 11, 99, 100, 442, 1000] {
        let train = UnswNb15Dataset::train(len);
        let test = UnswNb15Dataset::test(len);
        assert_eq!(train.len(), len * 8 / 10);
        assert_eq!(train.len() + test.len(), len);
    }
}

#[test]
fn fixed_split_of_442_records() {
    assert_eq!(UnswNb15Dataset::train(442).len(), 353);
    assert_eq!(UnswNb15Dataset::test(442).len(), 89);
}

#[test]
fn train_and_test_are_disjoint_and_cover_the_dataset() {
    let len = 250;
    let train = indices(&UnswNb15Dataset::train(len));
    let test = indices(&UnswNb15Dataset::test(len));
    let mut seen = vec![0u32; len];
    for k in train.iter().chain(test.iter()) {
        assert!(*k < len);
        seen[*k] += 1;
    }
    assert!(seen.iter().all(|count| *count == 1));
}

#[test]
fn disjoint_for_other_seeds_and_shares() {
    for seed in [0u64, 1, 7, 42, u64::MAX] {
        for (numerator, denominator) in [(1usize, 2usize), (1, 3), (9, 10), (2, 7)] {
            let len = 123;
            let train =
                UnswNb15Dataset::partition(len, "train", seed, numerator, denominator).unwrap();
            let test =
                UnswNb15Dataset::partition(len, "test", seed, numerator, denominator).unwrap();
            assert_eq!(train.len(), len * numerator / denominator);
            assert_eq!(train.len() + test.len(), len);
            let mut all = indices(&train);
            all.extend(indices(&test));
            all.sort();
            assert_eq!(all, (0..len).collect::<Vec<usize>>());
        }
    }
}

#[test]
fn partitioning_twice_gives_the_same_indices() {
    let first = UnswNb15Dataset::partition(500, "train", 42, 8, 10).unwrap();
    let second = UnswNb15Dataset::partition(500, "train", 42, 8, 10).unwrap();
    assert_eq!(indices(&first), indices(&second));
    assert_eq!(indices(&first), indices(&UnswNb15Dataset::train(500)));
    let test_first = UnswNb15Dataset::new("test", 500);
    let test_second = UnswNb15Dataset::test(500);
    assert_eq!(indices(&test_first), indices(&test_second));
}

#[test]
fn the_permutation_is_shuffled() {
    let len = 1000;
    let mut all = indices(&UnswNb15Dataset::train(len));
    all.extend(indices(&UnswNb15Dataset::test(len)));
    assert_ne!(all, (0..len).collect::<Vec<usize>>());
    let other = UnswNb15Dataset::partition(len, "train", 43, 8, 10).unwrap();
    assert_ne!(indices(&other), indices(&UnswNb15Dataset::train(len)));
}

#[test]
fn get_past_the_end_is_none() {
    let train = UnswNb15Dataset::train(10);
    assert_eq!(train.len(), 8);
    assert!(train.get(7).is_some());
    assert_eq!(train.get(8), None);
    assert_eq!(train.get(usize::MAX), None);
    let empty = UnswNb15Dataset::train(0);
    assert_eq!(empty.len(), 0);
    assert_eq!(empty.get(0), None);
}

#[test]
fn unknown_split_name_is_refused() {
    assert_eq!(Split::parse("train"), Ok(Split::Train));
    assert_eq!(Split::parse("test"), Ok(Split::Test));
    assert_eq!(Split::parse("valid"), Err(PartitionError::InvalidSplit));
    assert_eq!(Split::parse(""), Err(PartitionError::InvalidSplit));
    assert_eq!(Split::parse("Train"), Err(PartitionError::InvalidSplit));
    let refused = UnswNb15Dataset::partition(10, "validation", 42, 8, 10);
    assert_eq!(refused.err(), Some(PartitionError::InvalidSplit));
    let both_wrong = UnswNb15Dataset::partition(10, "validation", 42, 0, 10);
    assert_eq!(both_wrong.err(), Some(PartitionError::InvalidSplit));
}

#[test]
fn share_outside_zero_and_one_is_refused() {
    for (numerator, denominator) in [(0usize, 10usize), (10, 10), (11, 10), (1, 0), (0, 0)] {
        let refused = UnswNb15Dataset::partition(10, "train", 42, numerator, denominator);
        assert_eq!(refused.err(), Some(PartitionError::InvalidRatio));
    }
}

#[test]
fn from_order_cuts_a_given_permutation() {
    let order = vec![3usize, 0, 4, 1, 2];
    let train = UnswNb15Dataset::from_order(order.clone(), Split::Train, 8, 10).unwrap();
    let test = UnswNb15Dataset::from_order(order.clone(), Split::Test, 8, 10).unwrap();
    assert_eq!(indices(&train), vec![3, 0, 4, 1]);
    assert_eq!(indices(&test), vec![2]);
    let half = UnswNb15Dataset::from_order(order.clone(), Split::Train, 1, 2).unwrap();
    assert_eq!(indices(&half), vec![3, 0]);
    let refused = UnswNb15Dataset::from_order(order, Split::Train, 5, 5);
    assert_eq!(refused.err(), Some(PartitionError::InvalidRatio));
}

#[test]
fn split_point_does_not_overflow_for_large_shares() {
    let order: Vec<usize> = (0..7).collect();
    let train =
        UnswNb15Dataset::from_order(order, Split::Train, usize::MAX - 1, usize::MAX).unwrap();
    assert_eq!(train.len(), 6);
}

#[test]
fn check_permutation_accepts_exactly_the_permutations() {
    assert!(check_permutation(&vec![]));
    assert!(check_permutation(&vec![0]));
    assert!(check_permutation(&vec![2, 0, 1]));
    assert!(check_permutation(&(0..100).rev().collect()));
    assert!(!check_permutation(&vec![1]));
    assert!(!check_permutation(&vec![0, 0]));
    assert!(!check_permutation(&vec![0, 2]));
    assert!(!check_permutation(&vec![1, 2, 3]));
    assert!(!check_permutation(&vec![2, 1, 1]));
    assert!(!check_permutation(&vec![usize::MAX, 0]));
    for len in [0usize, 1, 5, 64] {
        let train = UnswNb15Dataset::train(len);
        let test = UnswNb15Dataset::test(len);
        let mut order = indices(&train);
        order.extend(indices(&test));
        assert!(check_permutation(&order));
    }
}
