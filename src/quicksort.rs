use crate::{Joiner, Work};
use vstd::prelude::*;

verus! {

broadcast use vstd::seq_lib::group_to_multiset_ensures;

/// Inputs of at most this many elements are sorted without further splitting.
pub const SERIAL_CUTOFF: usize = 5 * 1024;

/// Whether `s` is in non-decreasing order.
pub open spec fn is_sorted(s: Seq<i32>) -> bool {
    forall|i: int, j: int| 0 <= i <= j < s.len() ==> s[i] <= s[j]
}

/// Whether `s` holds the same elements as `t`, counted with multiplicity.
pub open spec fn is_permutation(s: Seq<i32>, t: Seq<i32>) -> bool {
    s.to_multiset() == t.to_multiset()
}

/// Whether `b` splits `s` around the element at `b`: all before it are at most
/// that element, all after it greater.
pub open spec fn is_partitioned_at(s: Seq<i32>, b: int) -> bool {
    &&& 0 <= b < s.len()
    &&& forall|i: int| 0 <= i < b ==> s[i] <= s[b]
    &&& forall|i: int| b < i < s.len() ==> s[i] > s[b]
}

/// `s` with the elements at `i` and `j` exchanged.
pub open spec fn swapped(s: Seq<i32>, i: int, j: int) -> Seq<i32> {
    s.update(i, s[j]).update(j, s[i])
}

/// The scan of `partition` from index `i` on, with `swap` the next slot for
/// an element at most `pivot`: each such element at `i` is exchanged into
/// the slot, which then moves one on. The scan stops before the last index
/// and gives the sequence and the final slot; the slot never passes `i`.
pub open spec fn partition_scan(s: Seq<i32>, pivot: i32, i: int, swap: int) -> (Seq<i32>, int)
    decreases s.len() - 1 - i,
{
    if !(0 <= swap <= i < s.len() - 1) {
        (s, swap)
    } else if s[i] <= pivot {
        partition_scan(swapped(s, swap, i), pivot, i + 1, swap + 1)
    } else {
        partition_scan(s, pivot, i + 1, swap)
    }
}

/// What `partition` makes of a non-empty `s`: the scan with the last element
/// as pivot, then the pivot exchanged into the final slot, which is returned.
pub open spec fn partition_result(s: Seq<i32>) -> (Seq<i32>, int) {
    let (t, b) = partition_scan(s, s.last(), 0, 0);
    (swapped(t, b, s.len() - 1), b)
}

fn swap_at(s: &mut [i32], i: usize, j: usize)
    requires
        i < old(s).len(),
        j < old(s).len(),
    ensures
        final(s)@ == swapped(old(s)@, i as int, j as int),
        is_permutation(final(s)@, old(s)@),
{
    let a = s[i];
    let b = s[j];
    s[i] = b;
    s[j] = a;
    proof {
        let s0 = old(s)@;
        let s1 = s0.update(i as int, b);
        assert(s1.to_multiset() == s0.to_multiset().insert(b).remove(a));
        assert(s1.update(j as int, a).to_multiset() == s1.to_multiset().insert(a).remove(s1[j as int]));
        if i == j {
            assert(s1.update(j as int, a) =~= s0);
        } else {
            assert(s0.to_multiset().insert(b).remove(a).insert(a).remove(b) =~= s0.to_multiset());
        }
    }
}

/// Partitions `input` around its last element in one left-to-right pass and
/// returns where that element ends up. `input` must not be empty.
///
/// The boundary is the number of the other elements that are at most the
/// pivot: all of them come before it, all greater ones after.
pub fn partition(input: &mut [i32]) -> (r: usize)
    requires
        old(input).len() > 0,
    ensures
        (final(input)@, r as int) == partition_result(old(input)@),
        final(input)@.len() == old(input)@.len(),
        is_permutation(final(input)@, old(input)@),
        final(input)@[r as int] == old(input)@.last(),
        is_partitioned_at(final(input)@, r as int),
{
    let pivot_index = input.len() - 1;
    let pivot = input[pivot_index];
    let mut swap: usize = 0;
    let mut i: usize = 0;
    while i < pivot_index
        invariant
            swap <= i <= pivot_index,
            pivot_index == input@.len() - 1,
            input@.len() == old(input)@.len(),
            input@[pivot_index as int] == pivot,
            pivot == old(input)@.last(),
            is_permutation(input@, old(input)@),
            forall|k: int| 0 <= k < swap ==> input@[k] <= pivot,
            forall|k: int| swap <= k < i ==> input@[k] > pivot,
            partition_scan(old(input)@, pivot, 0, 0) == partition_scan(
                input@,
                pivot,
                i as int,
                swap as int,
            ),
        decreases pivot_index - i,
    {
        if input[i] <= pivot {
            if swap != i {
                swap_at(input, swap, i);
            } else {
                assert(swapped(input@, i as int, i as int) =~= input@);
            }
            swap += 1;
        }
        i += 1;
    }
    assert(swapped(input@, swap as int, swap as int) =~= input@);
    if swap != pivot_index {
        swap_at(input, swap, pivot_index);
    }
    swap
}

/// Relies on `slice::sort_unstable`: it sorts the elements in place.
#[verifier::external_body]
fn sort_in_place(v: &mut Vec<i32>)
    ensures
        is_sorted(final(v)@),
        is_permutation(final(v)@, old(v)@),
{
    v.sort_unstable();
}

/// Sorts `input` under the strategy `J` with the default cutoff.
pub fn quicksort<J: Joiner>(input: &mut Vec<i32>, work: &Work)
    ensures
        is_sorted(final(input)@),
        is_permutation(final(input)@, old(input)@),
{
    quicksort_with_cutoff::<J>(input, work, SERIAL_CUTOFF);
}

/// Sorts `input` under the strategy `J`. An input of at most `serial_cutoff`
/// elements does `work` and is sorted on the spot; a longer one is
/// partitioned, and the parts before and after the pivot are sorted by the
/// two operands of a fork, each owning its part.
///
/// The parts are moved out of `input` to their operands and moved back once
/// both are sorted: an operand here cannot hold a mutable borrow of `input`,
/// so the parts are disjoint by ownership rather than by slicing.
pub fn quicksort_with_cutoff<J: Joiner>(input: &mut Vec<i32>, work: &Work, serial_cutoff: usize)
    ensures
        is_sorted(final(input)@),
        is_permutation(final(input)@, old(input)@),
    decreases old(input)@.len(),
{
    if input.len() <= serial_cutoff {
        work.do_work::<J>();
        sort_in_place(input);
        return;
    }
    let mid = partition(input.as_mut_slice());
    let ghost s1 = input@;
    let rest = input.split_off(mid + 1);
    let pivot = input[mid];
    input.truncate(mid);
    let left = input.split_off(0);
    proof {
        assert(left@ =~= s1.subrange(0, mid as int));
        assert(s1 =~= left@ + seq![pivot] + rest@);
    }
    let sort_left = (move || -> (r: Vec<i32>)
        ensures
            is_sorted(r@),
            is_permutation(r@, left@),
    {
        let mut v = left;
        quicksort_with_cutoff::<J>(&mut v, work, serial_cutoff);
        v
    });
    let sort_rest = (move || -> (r: Vec<i32>)
        ensures
            is_sorted(r@),
            is_permutation(r@, rest@),
    {
        let mut v = rest;
        quicksort_with_cutoff::<J>(&mut v, work, serial_cutoff);
        v
    });
    let (mut sorted_left, mut sorted_rest) = J::join(sort_left, sort_rest);
    let ghost l = sorted_left@;
    let ghost r = sorted_rest@;
    input.append(&mut sorted_left);
    input.push(pivot);
    input.append(&mut sorted_rest);
    proof {
        assert(input@ =~= l + seq![pivot] + r);
        lemma_joined_sorted(l, pivot, r, left@, rest@);
        vstd::seq_lib::lemma_multiset_commutative(l, seq![pivot]);
        vstd::seq_lib::lemma_multiset_commutative(l + seq![pivot], r);
        vstd::seq_lib::lemma_multiset_commutative(left@, seq![pivot]);
        vstd::seq_lib::lemma_multiset_commutative(left@ + seq![pivot], rest@);
    }
}

/// Two sorted runs drawn from the two sides of a partition, with the pivot
/// between them, make a sorted sequence.
proof fn lemma_joined_sorted(l: Seq<i32>, pivot: i32, r: Seq<i32>, l0: Seq<i32>, r0: Seq<i32>)
    requires
        is_sorted(l),
        is_sorted(r),
        is_permutation(l, l0),
        is_permutation(r, r0),
        forall|i: int| 0 <= i < l0.len() ==> l0[i] <= pivot,
        forall|i: int| 0 <= i < r0.len() ==> r0[i] >= pivot,
    ensures
        is_sorted(l + seq![pivot] + r),
{
    assert forall|i: int| 0 <= i < l.len() implies l[i] <= pivot by {
        assert(l.to_multiset().count(l[i]) > 0);
        assert(l0.contains(l[i]));
        let k = choose|k: int| 0 <= k < l0.len() && l0[k] == l[i];
    }
    assert forall|i: int| 0 <= i < r.len() implies r[i] >= pivot by {
        assert(r.to_multiset().count(r[i]) > 0);
        assert(r0.contains(r[i]));
        let k = choose|k: int| 0 <= k < r0.len() && r0[k] == r[i];
    }
}

/// Relies on `rand::random`: a value drawn from the thread-local generator.
#[verifier::external_body]
fn random_i32() -> (r: i32) {
    rand::random()
}

/// `len` values drawn uniformly from all of `i32`.
pub fn generate_random_sequence(len: usize) -> (r: Vec<i32>)
    ensures
        r@.len() == len,
{
    let mut v: Vec<i32> = Vec::new();
    let mut k: usize = 0;
    while k < len
        invariant
            k <= len,
            v@.len() == k,
        decreases len - k,
    {
        v.push(random_i32());
        k += 1;
    }
    v
}

} // verus!
