use afk_resume::accumulator::IdleAccumulator;
use afk_resume::probe::ProbeSignal;
use afk_resume::probe::ProbeSignal::{Active, Idle, Unknown};

fn run(probes: &[ProbeSignal]) -> IdleAccumulator {
    let mut acc = IdleAccumulator::new();
    for p in probes {
        acc.observe(*p);
    }
    acc
}

#[test]
fn counter_is_the_trailing_idle_run() {
    assert_eq!(run(&[]).current(), 0);
    assert_eq!(run(&[Idle, Idle, Idle]).current(), 3);
    assert_eq!(run(&[Idle, Idle, Active]).current(), 0);
    assert_eq!(run(&[Idle, Active, Idle, Idle]).current(), 2);
    assert_eq!(run(&[Idle, Unknown, Idle]).current(), 2);
    assert_eq!(run(&[Active, Unknown, Unknown]).current(), 0);
    assert_eq!(run(&[Unknown, Idle, Unknown, Active, Unknown, Idle]).current(), 1);
}

#[test]
fn takeover_at_the_threshold_and_beyond() {
    let mut acc = IdleAccumulator::new();
    assert!(acc.should_take_over(0));
    assert!(!acc.should_take_over(1));
    acc.observe(ProbeSignal::Idle);
    acc.observe(ProbeSignal::Idle);
    assert!(acc.should_take_over(2));
    assert!(!acc.should_take_over(3));
    acc.observe(ProbeSignal::Idle);
    assert!(acc.should_take_over(3));
    acc.observe(ProbeSignal::Active);
    assert!(!acc.should_take_over(1));
}
