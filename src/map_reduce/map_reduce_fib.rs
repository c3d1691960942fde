use crate::fib::{fib, spec_fib, spec_fib_calls};
use crate::{Joiner, Parallel, Work};
use vstd::prelude::*;

verus! {

/// The modulus that `reduce` keeps its sums below.
pub const MODULUS: u32 = 1_000_000_000;

/// Does `work` at this leaf under the strategy `J`, then computes the `n`th
/// Fibonacci number in parallel with no further simulated work.
pub fn map<J: Joiner>(n: u32, work: &Work, serial_cutoff: u32) -> (r: u32)
    requires
        spec_fib_calls(n as nat) <= u32::MAX,
    ensures
        r == spec_fib(n as nat),
{
    work.do_work::<J>();
    let fib_work = Work::new(None, None);
    let (value, _calls) = fib::<Parallel>(n, &fib_work, serial_cutoff);
    value
}

/// The wrapping sum of `f1` and `f2`, reduced modulo one billion.
pub fn reduce(f1: u32, f2: u32) -> (r: u32)
    ensures
        r == ((f1 as int + f2 as int) % 0x1_0000_0000) % (MODULUS as int),
{
    f1.wrapping_add(f2) % MODULUS
}

pub fn identity() -> (r: u32)
    ensures
        r == 0,
{
    0
}

} // verus!
