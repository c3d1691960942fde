use benchmarks::latency::PARTS_PER_MILLION;
use benchmarks::{
    incurs_latency, inject_latency, ExecutionMode, Parallel, ParallelLH, ParseExecutionModeError,
    ParseLatencyPError, Probability, Serial, Stall, Work,
};

fn p(parts: u32) -> Probability {
    Probability::from_parts_per_million(parts).unwrap()
}

#[test]
fn probability_bounds() {
    assert!(Probability::from_parts_per_million(0).is_some());
    assert!(Probability::from_parts_per_million(PARTS_PER_MILLION).is_some());
    assert!(Probability::from_parts_per_million(PARTS_PER_MILLION + 1).is_none());
    assert_eq!(p(250_000).parts_per_million(), 250_000);
    assert!(p(10).fires_on(9));
    assert!(!p(10).fires_on(10));
    assert!(!p(0).fires_on(0));
}

#[test]
fn incurs_latency_never_and_always() {
    for _ in 0..10_000 {
        assert!(!incurs_latency(p(0)));
        assert!(incurs_latency(p(PARTS_PER_MILLION)));
    }
}

#[test]
fn incurs_latency_frequency_converges() {
    let trials = 200_000;
    let hits = (0..trials).filter(|_| incurs_latency(p(300_000))).count();
    let freq = hits as f64 / trials as f64;
    assert!((freq - 0.3).abs() < 0.01, "frequency {}", freq);
}

#[test]
fn work_new_variants() {
    assert_eq!(Work::new(None, None), Work::DoNothing);
    assert_eq!(Work::new(Some(5), None), Work::PureLatency { work_ms: 5 });
    assert_eq!(
        Work::new(Some(5), Some(p(1))),
        Work::LatencyOrCompute { work_ms: 5, latency_p: p(1) }
    );
}

#[test]
fn stall_of_each_work() {
    let lc = Work::new(Some(7), Some(p(500_000)));
    assert_eq!(Work::DoNothing.stall(true, true), Stall::Nothing);
    assert_eq!(Work::new(Some(3), None).stall(true, false), Stall::Suspend { ms: 3 });
    assert_eq!(Work::new(Some(3), None).stall(false, false), Stall::Block { ms: 3 });
    assert_eq!(lc.stall(true, true), Stall::Suspend { ms: 7 });
    assert_eq!(lc.stall(false, true), Stall::Block { ms: 7 });
    assert_eq!(lc.stall(true, false), Stall::Block { ms: 7 });
}

#[test]
fn do_work_under_each_strategy() {
    assert_eq!(Work::DoNothing.do_work::<ParallelLH>(), Stall::Nothing);
    let pure = Work::new(Some(2), None);
    assert_eq!(pure.do_work::<Serial>(), Stall::Block { ms: 2 });
    assert_eq!(pure.do_work::<Parallel>(), Stall::Block { ms: 2 });
    assert_eq!(pure.do_work::<ParallelLH>(), Stall::Suspend { ms: 2 });
    let always = Work::new(Some(1), Some(p(PARTS_PER_MILLION)));
    assert_eq!(always.do_work::<ParallelLH>(), Stall::Suspend { ms: 1 });
    let never = Work::new(Some(1), Some(p(0)));
    assert_eq!(never.do_work::<ParallelLH>(), Stall::Block { ms: 1 });
}

#[test]
fn latency_takes_its_time() {
    let start = std::time::Instant::now();
    assert_eq!(inject_latency::<Serial>(20), Stall::Block { ms: 20 });
    assert!(start.elapsed().as_millis() >= 20);
    let start = std::time::Instant::now();
    assert_eq!(inject_latency::<ParallelLH>(20), Stall::Suspend { ms: 20 });
    assert!(start.elapsed().as_millis() >= 20);
    assert_eq!(inject_latency::<Parallel>(0), Stall::Block { ms: 0 });
}

#[test]
fn error_messages() {
    assert_eq!(
        ParseExecutionModeError::ParseError.message(),
        "Argument for execution mode could not be parsed"
    );
    assert_eq!(ParseLatencyPError::OutOfBounds.message(), "Latency p not in range [0.0, 1.0]");
    assert_eq!(
        ParseLatencyPError::ParseError.message(),
        "Argument for latency p could not be parsed"
    );
    assert_ne!(ExecutionMode::Serial, ExecutionMode::Parallel);
}
