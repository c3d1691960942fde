use crate::{Joiner, Serial, Work};
use vstd::prelude::*;

verus! {

/// The `n`th Fibonacci number.
pub open spec fn spec_fib(n: nat) -> nat
    decreases n,
{
    if n <= 1 {
        n
    } else {
        spec_fib((n - 1) as nat) + spec_fib((n - 2) as nat)
    }
}

/// The number of calls made by the naive recursive definition of `spec_fib`
/// on `n`, counting one per leaf of its call tree.
pub open spec fn spec_fib_calls(n: nat) -> nat
    decreases n,
{
    if n <= 1 {
        1
    } else {
        spec_fib_calls((n - 1) as nat) + spec_fib_calls((n - 2) as nat)
    }
}

/// A Fibonacci number never exceeds the count of leaves in its call tree.
pub proof fn lemma_fib_le_calls(n: nat)
    ensures
        spec_fib(n) <= spec_fib_calls(n),
    decreases n,
{
    if n > 1 {
        lemma_fib_le_calls((n - 1) as nat);
        lemma_fib_le_calls((n - 2) as nat);
    }
}

/// The leaf count grows with `n`.
pub proof fn lemma_fib_calls_monotone(m: nat, n: nat)
    requires
        m <= n,
    ensures
        spec_fib_calls(m) <= spec_fib_calls(n),
    decreases n,
{
    if m < n {
        if n >= 2 {
            lemma_fib_calls_monotone(m, (n - 1) as nat);
        }
    }
}

/// Whether the call count of `fib` on `n`, and so its value, fits in a `u32`.
pub fn fib_fits(n: u32) -> (r: bool)
    ensures
        r == (spec_fib_calls(n as nat) <= u32::MAX),
{
    // `a` and `b` are the call counts of `k` and `k + 1`.
    let mut a: u64 = 1;
    let mut b: u64 = 1;
    let mut k: u32 = 0;
    while k < n
        invariant
            k <= n,
            a == spec_fib_calls(k as nat),
            b == spec_fib_calls(k as nat + 1),
            a <= u32::MAX,
            b <= u32::MAX,
        decreases n - k,
    {
        let c = a + b;
        if c > u32::MAX as u64 {
            proof {
                assert(spec_fib_calls(k as nat + 2) == c);
                if k + 1 < n {
                    lemma_fib_calls_monotone(k as nat + 2, n as nat);
                }
            }
            return k + 1 == n;
        }
        a = b;
        b = c;
        k += 1;
    }
    true
}

/// The naive Fibonacci recursion, forking at each inner node under the
/// strategy `J` and doing `work` at each leaf. Returns the value and the
/// number of leaves of the call tree.
///
/// A parallel strategy switches to `Serial` once `n` is at most
/// `serial_cutoff`; a cutoff of zero never switches.
pub fn fib<J: Joiner>(n: u32, work: &Work, serial_cutoff: u32) -> (r: (u32, u32))
    requires
        spec_fib_calls(n as nat) <= u32::MAX,
    ensures
        r.0 == spec_fib(n as nat),
        r.1 == spec_fib_calls(n as nat),
    decreases n, 1int,
{
    if n <= 1 {
        work.do_work::<J>();
        return (n, 1);
    }
    proof {
        lemma_fib_calls_monotone((n - 1) as nat, n as nat);
        lemma_fib_calls_monotone((n - 2) as nat, n as nat);
        lemma_fib_le_calls(n as nat);
    }
    let ((fib1, calls1), (fib2, calls2)) = if J::is_parallel() && n <= serial_cutoff {
        fib_children::<Serial>(n, work, serial_cutoff)
    } else {
        fib_children::<J>(n, work, serial_cutoff)
    };
    (fib1 + fib2, calls1 + calls2)
}

/// The two recursive calls of an inner node, forked under the strategy `J`.
fn fib_children<J: Joiner>(n: u32, work: &Work, serial_cutoff: u32) -> (r: (
    (u32, u32),
    (u32, u32),
))
    requires
        2 <= n,
        spec_fib_calls(n as nat) <= u32::MAX,
    ensures
        r.0.0 == spec_fib((n - 1) as nat),
        r.0.1 == spec_fib_calls((n - 1) as nat),
        r.1.0 == spec_fib((n - 2) as nat),
        r.1.1 == spec_fib_calls((n - 2) as nat),
    decreases n, 0int,
{
    proof {
        lemma_fib_calls_monotone((n - 1) as nat, n as nat);
        lemma_fib_calls_monotone((n - 2) as nat, n as nat);
    }
    let left = (|| -> (r: (u32, u32))
        ensures
            r.0 == spec_fib((n - 1) as nat),
            r.1 == spec_fib_calls((n - 1) as nat),
    { fib::<J>(n - 1, work, serial_cutoff) });
    let right = (|| -> (r: (u32, u32))
        ensures
            r.0 == spec_fib((n - 2) as nat),
            r.1 == spec_fib_calls((n - 2) as nat),
    { fib::<J>(n - 2, work, serial_cutoff) });
    J::join(left, right)
}

} // verus!
