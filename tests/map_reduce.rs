use benchmarks::map_reduce::map_reduce;
use benchmarks::map_reduce::map_reduce_fib;
use benchmarks::{Joiner, Parallel, ParallelLH, Serial, Work};

fn max_of<J: Joiner>(items: &[i32]) -> i32 {
    map_reduce::<J, _, _, _, _, _>(items, &|x: &i32| *x, &|a: i32, b: i32| a.max(b), &|| i32::MIN)
}

#[test]
fn map_reduce_max_every_strategy() {
    let items = vec![1, 2, 3, 4, 5];
    assert_eq!(max_of::<Serial>(&items), 5);
    assert_eq!(max_of::<Parallel>(&items), 5);
    assert_eq!(max_of::<ParallelLH>(&items), 5);
}

#[test]
fn map_reduce_empty_and_single() {
    assert_eq!(max_of::<Parallel>(&[]), i32::MIN);
    assert_eq!(max_of::<Serial>(&[-7]), -7);
}

#[test]
fn map_reduce_sum_same_under_serial_and_parallel() {
    let items: Vec<u64> = (1..=1000).collect();
    let map = |x: &u64| x * x;
    let reduce = |a: u64, b: u64| a + b;
    let identity = || 0u64;
    let s = map_reduce::<Serial, _, _, _, _, _>(&items, &map, &reduce, &identity);
    let p = map_reduce::<Parallel, _, _, _, _, _>(&items, &map, &reduce, &identity);
    assert_eq!(s, 333_833_500);
    assert_eq!(s, p);
}

#[test]
fn map_reduce_keeps_branch_order() {
    let items: Vec<u32> = (0..10).collect();
    let map = |x: &u32| vec![*x];
    let reduce = |mut a: Vec<u32>, mut b: Vec<u32>| {
        a.append(&mut b);
        a
    };
    let identity = || Vec::new();
    let p = map_reduce::<Parallel, _, _, _, _, _>(&items, &map, &reduce, &identity);
    assert_eq!(p, items);
}

#[test]
fn fib_reduce_wraps_and_reduces() {
    assert_eq!(map_reduce_fib::reduce(999_999_999, 2), 1);
    assert_eq!(map_reduce_fib::reduce(u32::MAX, 1), 0);
    assert_eq!(map_reduce_fib::reduce(u32::MAX, u32::MAX), 294_967_294);
    assert_eq!(map_reduce_fib::reduce(3, 4), 7);
    assert_eq!(map_reduce_fib::identity(), 0);
}

#[test]
fn fib_map_reduce_over_inputs() {
    let work = Work::new(None, None);
    assert_eq!(map_reduce_fib::map::<Serial>(10, &work, 0), 55);
    let items = vec![10u32; 4];
    let map = |n: &u32| map_reduce_fib::map::<Parallel>(*n, &work, 5);
    let r = map_reduce::<Parallel, _, _, _, _, _>(
        &items,
        &map,
        &map_reduce_fib::reduce,
        &map_reduce_fib::identity,
    );
    assert_eq!(r, 220);
}
