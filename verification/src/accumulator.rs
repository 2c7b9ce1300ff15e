use vstd::prelude::*;

use crate::probe::ProbeSignal;

verus! {

/// What one probe observation does to the consecutive-idle counter:
/// `Idle` increments it (saturating at the machine bound), `Active`
/// resets it to zero, `Unknown` leaves it unchanged.
pub open spec fn observe_step(count: u64, probe: ProbeSignal) -> u64 {
    match probe {
        ProbeSignal::Idle => if count < u64::MAX { (count + 1) as u64 } else { count },
        ProbeSignal::Active => 0,
        ProbeSignal::Unknown => count,
    }
}

/// The counter a fresh accumulator holds after observing `probes` in order.
pub open spec fn run_count(probes: Seq<ProbeSignal>) -> u64
    decreases probes.len(),
{
    if probes.len() == 0 {
        0
    } else {
        observe_step(run_count(probes.drop_last()), probes.last())
    }
}

/// The length of the trailing run of `Idle` observations: an `Active`
/// observation ends any run, an `Unknown` observation is transparent.
pub open spec fn trailing_idle_run(probes: Seq<ProbeSignal>) -> nat
    decreases probes.len(),
{
    if probes.len() == 0 {
        0
    } else {
        match probes.last() {
            ProbeSignal::Idle => trailing_idle_run(probes.drop_last()) + 1,
            ProbeSignal::Active => 0,
            ProbeSignal::Unknown => trailing_idle_run(probes.drop_last()),
        }
    }
}

proof fn lemma_trailing_idle_run_le_len(probes: Seq<ProbeSignal>)
    ensures
        trailing_idle_run(probes) <= probes.len(),
    decreases probes.len(),
{
    if probes.len() > 0 {
        lemma_trailing_idle_run_le_len(probes.drop_last());
    }
}

/// Law: for every sequence of probes (short of the machine bound on the
/// counter), the accumulated counter equals the length of the trailing
/// run of `Idle` observations.
pub proof fn lemma_count_is_trailing_idle_run(probes: Seq<ProbeSignal>)
    requires
        probes.len() < u64::MAX,
    ensures
        run_count(probes) == trailing_idle_run(probes),
    decreases probes.len(),
{
    if probes.len() > 0 {
        lemma_count_is_trailing_idle_run(probes.drop_last());
        lemma_trailing_idle_run_le_len(probes.drop_last());
    }
}

/// Counts consecutive idle probes. Mutated by exactly one actor (the
/// controller's loop body); reset to zero on any non-idle probe.
pub struct IdleAccumulator {
    idle_count: u64,
}

impl IdleAccumulator {
    /// The current number of consecutive idle observations.
    pub closed spec fn count(&self) -> u64 {
        self.idle_count
    }

    pub fn new() -> (acc: IdleAccumulator)
        ensures
            acc.count() == 0,
    {
        IdleAccumulator { idle_count: 0 }
    }

    /// Feed one probe result into the state machine.
    pub fn observe(&mut self, probe: ProbeSignal)
        ensures
            final(self).count() == observe_step(old(self).count(), probe),
    {
        match probe {
            ProbeSignal::Idle => {
                if self.idle_count < u64::MAX {
                    self.idle_count = self.idle_count + 1;
                }
            }
            ProbeSignal::Active => {
                self.idle_count = 0;
            }
            ProbeSignal::Unknown => {}
        }
    }

    /// Has the account been idle for at least `threshold` consecutive probes?
    pub fn should_take_over(&self, threshold: u64) -> (r: bool)
        ensures
            r == (self.count() >= threshold),
    {
        self.idle_count >= threshold
    }

    /// The counter itself, for callers that report or log it.
    pub fn current(&self) -> (c: u64)
        ensures
            c == self.count(),
    {
        self.idle_count
    }
}

} // verus!
