use crate::Joiner;
use vstd::prelude::*;

pub mod map_reduce_fib;
pub mod players;

verus! {

/// Whether `r` is a result that the balanced map-reduce of `items` can give:
/// `identity` on no item, `map` on one, and otherwise `reduce` on results of
/// the two halves split at the midpoint, the first half's result first.
pub open spec fn is_tree_result<T, MAP, REDUCE, ID, R>(
    items: Seq<T>,
    map: MAP,
    reduce: REDUCE,
    identity: ID,
    r: R,
) -> bool where MAP: Fn(&T) -> R, REDUCE: Fn(R, R) -> R, ID: Fn() -> R
    decreases items.len(),
{
    if items.len() == 0 {
        identity.ensures((), r)
    } else if items.len() == 1 {
        map.ensures((&items[0],), r)
    } else {
        let mid = (items.len() / 2) as int;
        exists|ra: R, rb: R|
            {
                &&& is_tree_result(items.subrange(0, mid), map, reduce, identity, ra)
                &&& is_tree_result(items.subrange(mid, items.len() as int), map, reduce, identity, rb)
                &&& #[trigger] reduce.ensures((ra, rb), r)
            }
    }
}

/// Whether every call of `f` on the same arguments gives the same result.
pub open spec fn is_functional1<A, F: Fn(&A) -> R, R>(f: F) -> bool {
    forall|a: &A, r1: R, r2: R| f.ensures((a,), r1) && f.ensures((a,), r2) ==> r1 == r2
}

pub open spec fn is_functional2<F: Fn(R, R) -> R, R>(f: F) -> bool {
    forall|a: R, b: R, r1: R, r2: R|
        f.ensures((a, b), r1) && f.ensures((a, b), r2) ==> r1 == r2
}

pub open spec fn is_functional0<F: Fn() -> R, R>(f: F) -> bool {
    forall|r1: R, r2: R| f.ensures((), r1) && f.ensures((), r2) ==> r1 == r2
}

/// Maps each item and combines the results pairwise over a balanced split of
/// `items`, forking the two halves under the strategy `J`. No item gives
/// `identity()`; one item gives `map` of it.
pub fn map_reduce<J, T, MAP, REDUCE, ID, R>(
    items: &[T],
    map: &MAP,
    reduce: &REDUCE,
    identity: &ID,
) -> (r: R) where
    J: Joiner,
    T: Sync,
    MAP: Fn(&T) -> R + Sync,
    REDUCE: Fn(R, R) -> R + Sync,
    ID: Fn() -> R + Sync,
    R: Send,

    requires
        forall|x: &T| map.requires((x,)),
        forall|a: R, b: R| reduce.requires((a, b)),
        identity.requires(()),
    ensures
        is_tree_result(items@, *map, *reduce, *identity, r),
    decreases items@.len(),
{
    if items.len() == 0 {
        return identity();
    } else if items.len() == 1 {
        return map(&items[0]);
    }
    let (s1, s2) = items.split_at(items.len() / 2);
    let left = (|| -> (r: R)
        requires
            forall|x: &T| map.requires((x,)),
            forall|a: R, b: R| reduce.requires((a, b)),
            identity.requires(()),
        ensures
            is_tree_result(s1@, *map, *reduce, *identity, r),
    { map_reduce::<J, T, MAP, REDUCE, ID, R>(s1, map, reduce, identity) });
    let right = (|| -> (r: R)
        requires
            forall|x: &T| map.requires((x,)),
            forall|a: R, b: R| reduce.requires((a, b)),
            identity.requires(()),
        ensures
            is_tree_result(s2@, *map, *reduce, *identity, r),
    { map_reduce::<J, T, MAP, REDUCE, ID, R>(s2, map, reduce, identity) });
    let (ra, rb) = J::join(left, right);
    let r = reduce(ra, rb);
    assert(is_tree_result(s1@, *map, *reduce, *identity, ra) && is_tree_result(s2@, *map, *reduce, *identity, rb) && reduce.ensures((ra, rb), r));
    r
}

/// The balanced map-reduce has one result when `map`, `reduce` and
/// `identity` each give one result per argument: so every strategy, which
/// only decides where the two halves run, computes the same value.
pub proof fn lemma_map_reduce_unique<T, MAP, REDUCE, ID, R>(
    items: Seq<T>,
    map: MAP,
    reduce: REDUCE,
    identity: ID,
    r1: R,
    r2: R,
) where MAP: Fn(&T) -> R, REDUCE: Fn(R, R) -> R, ID: Fn() -> R
    requires
        is_functional1(map),
        is_functional2(reduce),
        is_functional0(identity),
        is_tree_result(items, map, reduce, identity, r1),
        is_tree_result(items, map, reduce, identity, r2),
    ensures
        r1 == r2,
    decreases items.len(),
{
    if items.len() > 1 {
        let mid = (items.len() / 2) as int;
        let (a1, b1) = choose|ra: R, rb: R|
            {
                &&& is_tree_result(items.subrange(0, mid), map, reduce, identity, ra)
                &&& is_tree_result(items.subrange(mid, items.len() as int), map, reduce, identity, rb)
                &&& #[trigger] reduce.ensures((ra, rb), r1)
            };
        let (a2, b2) = choose|ra: R, rb: R|
            {
                &&& is_tree_result(items.subrange(0, mid), map, reduce, identity, ra)
                &&& is_tree_result(items.subrange(mid, items.len() as int), map, reduce, identity, rb)
                &&& #[trigger] reduce.ensures((ra, rb), r2)
            };
        lemma_map_reduce_unique(items.subrange(0, mid), map, reduce, identity, a1, a2);
        lemma_map_reduce_unique(items.subrange(mid, items.len() as int), map, reduce, identity, b1, b2);
    }
}

/// Hands back `f` unchanged: its bounds tie the lifetime of the futures that
/// `f` returns to the IDs that it borrows.
pub fn map_constrain<'a, F, FUT, R>(f: F) -> (r: F) where
    F: Fn(&'a mut usize) -> FUT + Sync + 'a,
    FUT: std::future::Future<Output = R> + 'a,

    ensures
        r == f,
{
    f
}

} // verus!
