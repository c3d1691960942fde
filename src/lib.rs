use vstd::prelude::*;

pub mod fib;
pub mod latency;
pub mod map_reduce;
pub mod quicksort;

pub use latency::{incurs_latency, inject_latency, Probability, Stall, Work};

verus! {

/// How a run executes its fork points, as chosen by a driver.
#[derive(Copy, Clone, Debug, PartialEq, Eq, Structural)]
pub enum ExecutionMode {
    LatencyHiding,
    Parallel,
    Serial,
}

/// Failure to read an execution mode from its textual name.
#[derive(Copy, Clone, Debug, PartialEq, Eq, Structural)]
pub enum ParseExecutionModeError {
    ParseError,
}

impl ParseExecutionModeError {
    /// A human-readable description of the failure.
    pub fn message(&self) -> (r: &'static str)
        ensures
            r@ == "Argument for execution mode could not be parsed"@,
    {
        "Argument for execution mode could not be parsed"
    }
}

/// Failure to read a latency probability.
#[derive(Copy, Clone, Debug, PartialEq, Eq, Structural)]
pub enum ParseLatencyPError {
    /// The value read lies outside [0.0, 1.0].
    OutOfBounds,
    /// The text is not a number.
    ParseError,
}

impl ParseLatencyPError {
    /// A human-readable description of the failure.
    pub fn message(&self) -> (r: &'static str)
        ensures
            *self == ParseLatencyPError::OutOfBounds ==> r@ == "Latency p not in range [0.0, 1.0]"@,
            *self == ParseLatencyPError::ParseError ==> r@
                == "Argument for latency p could not be parsed"@,
    {
        match self {
            ParseLatencyPError::OutOfBounds => "Latency p not in range [0.0, 1.0]",
            ParseLatencyPError::ParseError => "Argument for latency p could not be parsed",
        }
    }
}

/// An execution strategy: how the two operands of a fork point are run.
///
/// Whatever the strategy, `join` runs each operand exactly once and hands back
/// both results, the first operand's result first. No order between the two
/// operands is promised.
pub trait Joiner {
    /// Whether forks may run their operands on different workers.
    spec fn spec_parallel() -> bool;

    /// Whether simulated latency suspends the worker instead of blocking it.
    spec fn spec_latency_hiding() -> bool;

    fn is_parallel() -> (r: bool)
        ensures
            r == Self::spec_parallel(),
    ;

    fn is_latency_hiding() -> (r: bool)
        ensures
            r == Self::spec_latency_hiding(),
    ;

    fn join<A, B, RA, RB>(oper_a: A, oper_b: B) -> (r: (RA, RB)) where
        A: FnOnce() -> RA + Send,
        B: FnOnce() -> RB + Send,
        RA: Send,
        RB: Send,

        requires
            oper_a.requires(()),
            oper_b.requires(()),
        ensures
            oper_a.ensures((), r.0),
            oper_b.ensures((), r.1),
    ;
}

/// Relies on rayon::join: it runs both closures, possibly in parallel, and
/// returns their results as a pair in argument order.
#[verifier::external_body]
fn fork_join<A, B, RA, RB>(oper_a: A, oper_b: B) -> (r: (RA, RB)) where
    A: FnOnce() -> RA + Send,
    B: FnOnce() -> RB + Send,
    RA: Send,
    RB: Send,

    requires
        oper_a.requires(()),
        oper_b.requires(()),
    ensures
        oper_a.ensures((), r.0),
        oper_b.ensures((), r.1),
{
    rayon::join(oper_a, oper_b)
}

/// Runs both operands on the calling thread, the first then the second.
pub struct Serial;

impl Joiner for Serial {
    open spec fn spec_parallel() -> bool {
        false
    }

    open spec fn spec_latency_hiding() -> bool {
        false
    }

    fn is_parallel() -> (r: bool) {
        false
    }

    fn is_latency_hiding() -> (r: bool) {
        false
    }

    fn join<A, B, RA, RB>(oper_a: A, oper_b: B) -> (r: (RA, RB)) where
        A: FnOnce() -> RA + Send,
        B: FnOnce() -> RB + Send,
        RA: Send,
        RB: Send,
    {
        let ra = oper_a();
        let rb = oper_b();
        (ra, rb)
    }
}

/// Work-stealing fork: one operand runs here, the other may be stolen.
pub struct Parallel;

impl Joiner for Parallel {
    open spec fn spec_parallel() -> bool {
        true
    }

    open spec fn spec_latency_hiding() -> bool {
        false
    }

    fn is_parallel() -> (r: bool) {
        true
    }

    fn is_latency_hiding() -> (r: bool) {
        false
    }

    fn join<A, B, RA, RB>(oper_a: A, oper_b: B) -> (r: (RA, RB)) where
        A: FnOnce() -> RA + Send,
        B: FnOnce() -> RB + Send,
        RA: Send,
        RB: Send,
    {
        fork_join(oper_a, oper_b)
    }
}

/// A second name for the `Parallel` strategy: the same `rayon::join` fork,
/// kept so that runs can be labelled apart.
pub struct ParallelOldRayon;

impl Joiner for ParallelOldRayon {
    open spec fn spec_parallel() -> bool {
        true
    }

    open spec fn spec_latency_hiding() -> bool {
        false
    }

    fn is_parallel() -> (r: bool) {
        true
    }

    fn is_latency_hiding() -> (r: bool) {
        false
    }

    fn join<A, B, RA, RB>(oper_a: A, oper_b: B) -> (r: (RA, RB)) where
        A: FnOnce() -> RA + Send,
        B: FnOnce() -> RB + Send,
        RA: Send,
        RB: Send,
    {
        fork_join(oper_a, oper_b)
    }
}

/// Work-stealing fork whose simulated latency releases the worker.
pub struct ParallelLH;

impl Joiner for ParallelLH {
    open spec fn spec_parallel() -> bool {
        true
    }

    open spec fn spec_latency_hiding() -> bool {
        true
    }

    fn is_parallel() -> (r: bool) {
        true
    }

    fn is_latency_hiding() -> (r: bool) {
        true
    }

    fn join<A, B, RA, RB>(oper_a: A, oper_b: B) -> (r: (RA, RB)) where
        A: FnOnce() -> RA + Send,
        B: FnOnce() -> RB + Send,
        RA: Send,
        RB: Send,
    {
        fork_join(oper_a, oper_b)
    }
}

} // verus!
