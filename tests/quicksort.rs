use benchmarks::quicksort::{
    generate_random_sequence, partition, quicksort, quicksort_with_cutoff, SERIAL_CUTOFF,
};
use benchmarks::{Joiner, Parallel, ParallelLH, Serial, Work};

fn sorted_copy(v: &[i32]) -> Vec<i32> {
    let mut s = v.to_vec();
    s.sort();
    s
}

fn sort_with<J: Joiner>(v: &[i32], cutoff: usize) -> Vec<i32> {
    let mut w = v.to_vec();
    quicksort_with_cutoff::<J>(&mut w, &Work::new(None, None), cutoff);
    w
}

#[test]
fn quicksort_five_elements_every_strategy() {
    let input = vec![5, 3, 4, 1, 2];
    assert_eq!(sort_with::<Serial>(&input, 0), vec![1, 2, 3, 4, 5]);
    assert_eq!(sort_with::<Parallel>(&input, 0), vec![1, 2, 3, 4, 5]);
    assert_eq!(sort_with::<ParallelLH>(&input, 0), vec![1, 2, 3, 4, 5]);
    let mut v = input.clone();
    quicksort::<Parallel>(&mut v, &Work::new(None, None));
    assert_eq!(v, vec![1, 2, 3, 4, 5]);
}

#[test]
fn quicksort_edge_inputs() {
    for input in [
        vec![],
        vec![7],
        vec![2, 2, 2, 2],
        vec![9, 8, 7, 6, 5, 4, 3, 2, 1],
        vec![i32::MIN, i32::MAX, 0, -1, 1],
    ] {
        for cutoff in [0usize, 2, 100] {
            assert_eq!(sort_with::<Serial>(&input, cutoff), sorted_copy(&input));
            assert_eq!(sort_with::<Parallel>(&input, cutoff), sorted_copy(&input));
        }
    }
}

#[test]
fn quicksort_random_sequences() {
    for len in [0usize, 1, 10, 1000, SERIAL_CUTOFF + 3000] {
        let input = generate_random_sequence(len);
        assert_eq!(input.len(), len);
        let expected = sorted_copy(&input);
        for cutoff in [0usize, 16, SERIAL_CUTOFF] {
            assert_eq!(sort_with::<Serial>(&input, cutoff), expected);
            assert_eq!(sort_with::<Parallel>(&input, cutoff), expected);
            assert_eq!(sort_with::<ParallelLH>(&input, cutoff), expected);
        }
        let mut v = input.clone();
        quicksort::<Parallel>(&mut v, &Work::new(None, None));
        assert_eq!(v, expected);
    }
}

#[test]
fn partition_places_last_element() {
    let mut v = vec![5, 3, 4, 1, 2];
    let b = partition(&mut v);
    assert_eq!(b, 1);
    assert_eq!(v, vec![1, 2, 4, 5, 3]);
    assert!(v[..b].iter().all(|x| *x <= 2));
    assert!(v[b + 1..].iter().all(|x| *x > 2));
    assert_eq!(sorted_copy(&v), vec![1, 2, 3, 4, 5]);
}

#[test]
fn partition_invariant_on_random_inputs() {
    for len in [1usize, 2, 3, 50, 500] {
        let input = generate_random_sequence(len);
        let mut v = input.clone();
        let b = partition(&mut v);
        assert_eq!(v[b], input[len - 1]);
        assert!(v[..b].iter().all(|x| *x <= v[b]));
        assert!(v[b + 1..].iter().all(|x| *x > v[b]));
        let at_most = input[..len - 1].iter().filter(|x| **x <= input[len - 1]).count();
        assert_eq!(b, at_most);
        assert_eq!(sorted_copy(&v), sorted_copy(&input));
    }
}

#[test]
fn partition_single_and_equal() {
    let mut one = vec![4];
    assert_eq!(partition(&mut one), 0);
    let mut same = vec![3, 3, 3];
    assert_eq!(partition(&mut same), 2);
    let mut equal_pivot = vec![2, 7, 2, 1, 2];
    assert_eq!(partition(&mut equal_pivot), 3);
    assert_eq!(equal_pivot, vec![2, 2, 1, 2, 7]);
    let mut max_last = vec![1, 5, 2, 9];
    assert_eq!(partition(&mut max_last), 3);
    let mut min_last = vec![4, 5, 2, 0];
    assert_eq!(partition(&mut min_last), 0);
    assert_eq!(min_last[0], 0);
}
