use crate::Joiner;
use rand::Rng;
use std::time::Duration;
use std::time::Instant;
use vstd::prelude::*;

verus! {

/// The resolution of a `Probability`: one unit is one part in a million.
pub const PARTS_PER_MILLION: u32 = 1_000_000;

#[verifier::external_type_specification]
#[verifier::external_body]
pub struct ExInstant(std::time::Instant);

/// A probability in [0, 1], held as a whole number of parts per million.
#[derive(Copy, Clone, Debug, PartialEq, Eq, Structural)]
pub struct Probability {
    parts: u32,
}

impl Probability {
    #[verifier::type_invariant]
    spec fn within_unit(self) -> bool {
        self.parts <= PARTS_PER_MILLION
    }

    /// The probability, in parts per million.
    pub closed spec fn spec_parts(self) -> nat {
        self.parts as nat
    }

    /// The probability `parts / 1_000_000`, if that is at most one.
    pub fn from_parts_per_million(parts: u32) -> (r: Option<Probability>)
        ensures
            r is Some <==> parts <= PARTS_PER_MILLION,
            r matches Some(p) ==> p.spec_parts() == parts,
    {
        if parts <= PARTS_PER_MILLION {
            Some(Probability { parts })
        } else {
            None
        }
    }

    /// Whether a uniform draw `d` out of `0..1_000_000` falls inside this
    /// probability.
    pub open spec fn spec_fires_on(self, d: nat) -> bool {
        d < self.spec_parts()
    }

    pub fn fires_on(&self, d: u32) -> (r: bool)
        ensures
            r == self.spec_fires_on(d as nat),
    {
        d < self.parts_per_million()
    }

    pub fn parts_per_million(&self) -> (r: u32)
        ensures
            r == self.spec_parts(),
            r <= PARTS_PER_MILLION,
    {
        proof {
            use_type_invariant(self);
        }
        self.parts
    }
}

/// Relies on rand's `Rng::gen_range` over the thread-local generator: a value
/// drawn from `0..bound`, which must not be empty.
#[verifier::external_body]
pub(crate) fn random_below(bound: u32) -> (r: u32)
    requires
        bound > 0,
    ensures
        r < bound,
{
    rand::thread_rng().gen_range(0..bound)
}

/// Whether a leaf incurs latency, drawn with the given probability.
///
/// One uniform draw `d` in `0..1_000_000` decides: latency is incurred when
/// `d` is below the probability's parts per million.
pub fn incurs_latency(p: Probability) -> (r: bool)
    ensures
        exists|d: nat| d < PARTS_PER_MILLION && r == #[trigger] p.spec_fires_on(d),
        p.spec_parts() == 0 ==> !r,
        p.spec_parts() == PARTS_PER_MILLION ==> r,
{
    let d = random_below(PARTS_PER_MILLION);
    let r = p.fires_on(d);
    assert(d < PARTS_PER_MILLION && r == p.spec_fires_on(d as nat));
    r
}

/// The time spent at a leaf of a computation.
#[derive(Copy, Clone, Debug, PartialEq, Eq, Structural)]
pub enum Stall {
    /// Nothing is spent.
    Nothing,
    /// The worker is released to the scheduler for the given milliseconds.
    Suspend { ms: u64 },
    /// The worker is held for the given milliseconds.
    Block { ms: u64 },
}

/// Simulated work that a leaf of a computation performs.
#[derive(Copy, Clone, Debug, PartialEq, Eq, Structural)]
pub enum Work {
    DoNothing,
    PureLatency { work_ms: u64 },
    LatencyOrCompute { work_ms: u64, latency_p: Probability },
}

/// Simulated latency of `ms` milliseconds, under a strategy that hides
/// latency or one that does not.
pub open spec fn latency_stall(latency_hiding: bool, ms: u64) -> Stall {
    if latency_hiding {
        Stall::Suspend { ms }
    } else {
        Stall::Block { ms }
    }
}

impl Work {
    /// The stall of a leaf, given whether the strategy hides latency and
    /// whether the latency oracle fired (consulted only by `LatencyOrCompute`).
    pub open spec fn spec_stall(self, latency_hiding: bool, latency_drawn: bool) -> Stall {
        match self {
            Work::DoNothing => Stall::Nothing,
            Work::PureLatency { work_ms } => latency_stall(latency_hiding, work_ms),
            Work::LatencyOrCompute { work_ms, .. } => if latency_drawn {
                latency_stall(latency_hiding, work_ms)
            } else {
                Stall::Block { ms: work_ms }
            },
        }
    }

    /// Builds the work from its optional parts: no duration gives no work, a
    /// duration alone pure latency, a duration with a probability a draw
    /// between latency and computation.
    pub fn new(work_ms: Option<u64>, latency_p: Option<Probability>) -> (r: Work)
        requires
            work_ms is Some || latency_p is None,
        ensures
            work_ms is None ==> r == Work::DoNothing,
            work_ms matches Some(ms) ==> r == match latency_p {
                None => Work::PureLatency { work_ms: ms },
                Some(p) => Work::LatencyOrCompute { work_ms: ms, latency_p: p },
            },
    {
        match (work_ms, latency_p) {
            (Some(work_ms), None) => Work::PureLatency { work_ms },
            (Some(work_ms), Some(latency_p)) => Work::LatencyOrCompute { work_ms, latency_p },
            (None, _) => Work::DoNothing,
        }
    }

    pub fn stall(&self, latency_hiding: bool, latency_drawn: bool) -> (r: Stall)
        ensures
            r == self.spec_stall(latency_hiding, latency_drawn),
    {
        match self {
            Work::DoNothing => Stall::Nothing,
            Work::PureLatency { work_ms } => latency(latency_hiding, *work_ms),
            Work::LatencyOrCompute { work_ms, .. } => {
                if latency_drawn {
                    latency(latency_hiding, *work_ms)
                } else {
                    Stall::Block { ms: *work_ms }
                }
            },
        }
    }

    /// Performs this work at a leaf under the strategy `J`, and returns the
    /// stall that was spent. `LatencyOrCompute` makes one draw of the latency
    /// oracle against its probability; the other kinds draw nothing.
    pub fn do_work<J: Joiner>(&self) -> (r: Stall)
        ensures
            !(self is LatencyOrCompute) ==> r == self.spec_stall(
                J::spec_latency_hiding(),
                false,
            ),
            self matches Work::LatencyOrCompute { latency_p, .. } ==> exists|d: nat|
                d < PARTS_PER_MILLION && r == self.spec_stall(
                    J::spec_latency_hiding(),
                    #[trigger] latency_p.spec_fires_on(d),
                ),
    {
        let drawn = match self {
            Work::LatencyOrCompute { latency_p, .. } => incurs_latency(*latency_p),
            _ => false,
        };
        let r = self.stall(J::is_latency_hiding(), drawn);
        proof {
            if let Work::LatencyOrCompute { latency_p, .. } = *self {
                let d = choose|d: nat| d < PARTS_PER_MILLION && drawn == #[trigger] latency_p.spec_fires_on(d);
                assert(d < PARTS_PER_MILLION && r == self.spec_stall(
                    J::spec_latency_hiding(),
                    latency_p.spec_fires_on(d),
                ));
            }
        }
        spend(r);
        r
    }
}

fn latency(latency_hiding: bool, ms: u64) -> (r: Stall)
    ensures
        r == latency_stall(latency_hiding, ms),
{
    if latency_hiding {
        Stall::Suspend { ms }
    } else {
        Stall::Block { ms }
    }
}

/// Injects `latency_ms` of latency under the strategy `J`: suspended when it
/// hides latency, blocking otherwise. Returns the stall that was spent.
pub fn inject_latency<J: Joiner>(latency_ms: u64) -> (r: Stall)
    ensures
        r == latency_stall(J::spec_latency_hiding(), latency_ms),
{
    let r = latency(J::is_latency_hiding(), latency_ms);
    spend(r);
    r
}

fn spend(s: Stall) {
    match s {
        Stall::Nothing => {},
        Stall::Suspend { ms } => suspend_for_ms(ms),
        Stall::Block { ms } => block_for_ms(ms),
    }
}

/// Relies on async_io's `block_on` and `Timer::after`: the calling thread
/// waits until the timer of `ms` milliseconds fires.
#[verifier::external_body]
pub(crate) fn block_for_ms(ms: u64) {
    async_io::block_on(async_io::Timer::after(Duration::from_millis(ms)));
}

/// Relies on rayon's `yield_now`: runs one pending job of the pool on this
/// worker, if there is one, and reports whether it did.
#[verifier::external_body]
fn yield_to_pool() -> (r: bool) {
    matches!(rayon::yield_now(), Some(rayon::Yield::Executed))
}

/// Relies on `Instant::now`: the current instant of the monotonic clock.
#[verifier::external_body]
fn now() -> (r: Instant) {
    Instant::now()
}

/// Relies on `Instant::elapsed`: whole milliseconds since `start`.
#[verifier::external_body]
fn millis_since(start: &Instant) -> (r: u64) {
    start.elapsed().as_millis() as u64
}

/// Spends `ms` milliseconds while letting this worker run other jobs of the
/// pool: each round runs one pending job, or waits a millisecond when there is
/// none. What is left when the rounds run out is waited for in one piece.
///
/// rayon offers no way to park a job on a timer and resume it elsewhere, so
/// this is an approximation of suspension: the jobs run nested on this
/// worker's stack, the wait resumes on the same thread, and a long job taken
/// up here can stretch the stall beyond `ms`.
fn suspend_for_ms(ms: u64) {
    let start = now();
    let mut left: u64 = ms;
    while left > 0
        decreases left,
    {
        if !yield_to_pool() {
            block_for_ms(1);
        }
        let spent = millis_since(&start);
        left = if spent >= ms {
            0
        } else if ms - spent < left {
            ms - spent
        } else {
            left - 1
        };
    }
    let spent = millis_since(&start);
    if spent < ms {
        block_for_ms(ms - spent);
    }
}

} // verus!
