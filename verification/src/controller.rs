use vstd::prelude::*;

use crate::accumulator::{observe_step, run_count, IdleAccumulator};
use crate::cursor::{QueueError, Track, TrackQueueCursor};
use crate::probe::{DeviceInfo, ProbeSignal};

verus! {

/// The configuration one monitoring session consumes, validated
/// upstream: an explicit immutable value, no ambient state.
pub struct ControllerConfig {
    /// Name of the playback device the session watches and seizes.
    pub target_device_name: String,
    /// Name of the fallback playlist played during idle episodes.
    pub afk_playlist_name: String,
    /// Consecutive idle probes before a takeover; positive.
    pub idle_threshold: u64,
    /// Seconds between two probes; positive.
    pub check_interval_seconds: u64,
    /// The account's market/region code, used when listing tracks.
    pub market: String,
}

impl ControllerConfig {
    /// Both tunables are positive counts.
    pub open spec fn wf(&self) -> bool {
        &&& self.idle_threshold >= 1
        &&& self.check_interval_seconds >= 1
    }
}

/// Fatal to session start: monitoring is meaningless without a
/// resolvable target device, so the session never begins.
#[derive(Clone, Copy, PartialEq, Eq, Structural, Debug)]
pub enum SessionError {
    DeviceNotFound,
}

/// What the controller asks of the rest of one tick, once the fresh
/// probe has been fed in.
#[derive(Clone, Copy, PartialEq, Eq, Structural, Debug)]
pub enum TickDirective {
    /// Below the idle threshold: sleep until the next tick.
    Sleep,
    /// The takeover branch. `transfer_needed` asks for a device
    /// transfer (not yet done in this idle episode); `refill_needed`
    /// says the track buffer is exhausted and must be refilled before a
    /// track can be popped and enqueued. At most one track is enqueued
    /// per tick: the branch runs once per tick, never in a sub-loop.
    Takeover { transfer_needed: bool, refill_needed: bool },
}

/// The timed loop's brain. It owns the idle accumulator, the track
/// buffer and the per-episode transferred flag, and decides on every
/// tick whether to seize the device, refill, and enqueue. The caller
/// performs the remote calls and the sleeping and feeds every outcome
/// back in.
pub struct AutoResumeController {
    config: ControllerConfig,
    device_id: String,
    acc: IdleAccumulator,
    cursor: TrackQueueCursor,
    transferred: bool,
}

impl AutoResumeController {
    /// The session configuration, as handed to `new`.
    pub closed spec fn config_spec(&self) -> ControllerConfig {
        self.config
    }

    /// The id of the target device, resolved once at session start.
    pub closed spec fn device_id_spec(&self) -> String {
        self.device_id
    }

    /// The current count of consecutive idle probes.
    pub closed spec fn count(&self) -> u64 {
        self.acc.count()
    }

    /// Whether the device has already been transferred in this idle
    /// episode.
    pub closed spec fn transferred_flag(&self) -> bool {
        self.transferred
    }

    /// The tracks still buffered, next to play last.
    pub closed spec fn queue(&self) -> Seq<Track> {
        self.cursor.tracks()
    }

    /// Resolve the target device by name against the devices currently
    /// available, and start a passive session: counter zero, no episode
    /// in progress, empty track buffer. Fails fast with
    /// `DeviceNotFound` when no available device carries the configured
    /// name.
    pub fn new(config: ControllerConfig, devices: &Vec<DeviceInfo>) -> (r: Result<
        AutoResumeController,
        SessionError,
    >)
        requires
            config.wf(),
        ensures
            (r is Ok) == (exists|i: int|
                0 <= i < devices@.len() && devices@[i].name@ == config.target_device_name@),
            r is Ok ==> {
                let ctl = r.unwrap();
                &&& ctl.config_spec() == config
                &&& ctl.count() == 0
                &&& !ctl.transferred_flag()
                &&& ctl.queue() == Seq::<Track>::empty()
                &&& exists|i: int|
                    {
                        &&& 0 <= i < devices@.len()
                        &&& devices@[i].name@ == config.target_device_name@
                        &&& ctl.device_id_spec()@ == devices@[i].id@
                        &&& forall|j: int|
                            0 <= j < i ==> devices@[j].name@ != config.target_device_name@
                    }
            },
            r is Err ==> r == Err::<AutoResumeController, SessionError>(SessionError::DeviceNotFound),
    {
        let mut i: usize = 0;
        while i < devices.len()
            invariant
                0 <= i <= devices@.len(),
                forall|j: int| 0 <= j < i ==> devices@[j].name@ != config.target_device_name@,
            decreases devices@.len() - i,
        {
            let d = &devices[i];
            if d.name == config.target_device_name {
                let ctl = AutoResumeController {
                    device_id: d.id.clone(),
                    config,
                    acc: IdleAccumulator::new(),
                    cursor: TrackQueueCursor::new(),
                    transferred: false,
                };
                proof {
                    assert(0 <= i < devices@.len() && devices@[i as int].name@
                        == ctl.config_spec().target_device_name@ && ctl.device_id_spec()@
                        == devices@[i as int].id@);
                }
                return Ok(ctl);
            }
            i = i + 1;
        }
        Err(SessionError::DeviceNotFound)
    }

    /// Feed the tick's fresh probe in and decide the rest of the tick.
    /// The accumulator takes one `observe` step; an `Active` probe also
    /// closes the episode by clearing the transferred flag. The
    /// takeover branch is directed exactly when the stepped counter has
    /// reached the threshold.
    pub fn begin_tick(&mut self, probe: ProbeSignal) -> (d: TickDirective)
        ensures
            final(self).count() == observe_step(old(self).count(), probe),
            final(self).transferred_flag() == (old(self).transferred_flag() && !(probe
                is Active)),
            final(self).queue() == old(self).queue(),
            final(self).config_spec() == old(self).config_spec(),
            final(self).device_id_spec() == old(self).device_id_spec(),
            final(self).count() >= final(self).config_spec().idle_threshold ==> d
                == (TickDirective::Takeover {
                transfer_needed: !final(self).transferred_flag(),
                refill_needed: final(self).queue().len() == 0,
            }),
            final(self).count() < final(self).config_spec().idle_threshold ==> d
                == TickDirective::Sleep,
    {
        self.acc.observe(probe);
        match probe {
            ProbeSignal::Active => {
                self.transferred = false;
            }
            _ => {}
        }
        if self.acc.should_take_over(self.config.idle_threshold) {
            TickDirective::Takeover {
                transfer_needed: !self.transferred,
                refill_needed: self.cursor.is_empty(),
            }
        } else {
            TickDirective::Sleep
        }
    }

    /// The bounded within-tick retry policy for the device transfer: a
    /// failed attempt is retried once on the same tick; after the
    /// second attempt the tick gives up and defers to the next one.
    pub fn should_retry_transfer(&self, attempts_made: u64, last_succeeded: bool) -> (r: bool)
        ensures
            r == transfer_retry_allowed(attempts_made, last_succeeded),
    {
        !last_succeeded && attempts_made < 2
    }

    /// Record the final outcome of this tick's transfer attempts. A
    /// success marks the episode as transferred; a failure changes
    /// nothing — in particular the accumulator is unaffected by the
    /// transfer outcome, and the episode is not abandoned.
    pub fn record_transfer(&mut self, success: bool)
        ensures
            final(self).transferred_flag() == (old(self).transferred_flag() || success),
            final(self).count() == old(self).count(),
            final(self).queue() == old(self).queue(),
            final(self).config_spec() == old(self).config_spec(),
            final(self).device_id_spec() == old(self).device_id_spec(),
    {
        if success {
            self.transferred = true;
        }
    }

    /// Replace the track buffer with a fresh full listing of the
    /// fallback playlist.
    pub fn refill_queue(&mut self, tracks: Vec<Track>)
        ensures
            final(self).queue() == tracks@,
            final(self).count() == old(self).count(),
            final(self).transferred_flag() == old(self).transferred_flag(),
            final(self).config_spec() == old(self).config_spec(),
            final(self).device_id_spec() == old(self).device_id_spec(),
    {
        self.cursor.refill(tracks);
    }

    /// Pop the track to enqueue on this tick: the last of the buffer.
    /// `Exhausted` (buffer empty even after the directed refill: the
    /// playlist has no tracks) leaves the state unchanged.
    pub fn next_track(&mut self) -> (r: Result<Track, QueueError>)
        ensures
            old(self).queue().len() == 0 ==> {
                &&& r == Err::<Track, QueueError>(QueueError::Exhausted)
                &&& final(self).queue() == old(self).queue()
            },
            old(self).queue().len() > 0 ==> {
                &&& r == Ok::<Track, QueueError>(old(self).queue().last())
                &&& final(self).queue() == old(self).queue().drop_last()
            },
            final(self).count() == old(self).count(),
            final(self).transferred_flag() == old(self).transferred_flag(),
            final(self).config_spec() == old(self).config_spec(),
            final(self).device_id_spec() == old(self).device_id_spec(),
    {
        self.cursor.next()
    }

    /// The resolved id of the target device, for the remote transfer
    /// and enqueue calls.
    pub fn device_id(&self) -> (id: &String)
        ensures
            id == self.device_id_spec(),
    {
        &self.device_id
    }

    /// The current count of consecutive idle probes.
    pub fn idle_count(&self) -> (c: u64)
        ensures
            c == self.count(),
    {
        self.acc.current()
    }

    /// How many tracks are still buffered.
    pub fn queued_len(&self) -> (n: usize)
        ensures
            n == self.queue().len(),
    {
        self.cursor.len()
    }

    /// Seconds to sleep between ticks.
    pub fn check_interval_seconds(&self) -> (s: u64)
        ensures
            s == self.config_spec().check_interval_seconds,
    {
        self.config.check_interval_seconds
    }

    /// The configured name of the fallback playlist.
    pub fn afk_playlist_name(&self) -> (n: &String)
        ensures
            n == self.config_spec().afk_playlist_name,
    {
        &self.config.afk_playlist_name
    }

    /// The account's market/region code.
    pub fn market(&self) -> (m: &String)
        ensures
            m == self.config_spec().market,
    {
        &self.config.market
    }
}

/// The within-tick transfer retry policy as a predicate: retry exactly
/// when the last attempt failed and fewer than two attempts were made.
pub open spec fn transfer_retry_allowed(attempts_made: u64, last_succeeded: bool) -> bool {
    !last_succeeded && attempts_made < 2
}

/// The transferred flag a fresh session holds after processing `probes`
/// tick by tick, when every directed transfer succeeds: an `Active`
/// probe clears it, and a tick whose stepped counter reaches the
/// threshold sets it.
pub open spec fn run_transferred(probes: Seq<ProbeSignal>, threshold: u64) -> bool
    decreases probes.len(),
{
    if probes.len() == 0 {
        false
    } else {
        (run_transferred(probes.drop_last(), threshold) && !(probes.last() is Active))
            || run_count(probes) >= threshold
    }
}

/// Whether the last tick of `probes` issues a device transfer: the
/// takeover branch runs and the episode has not been transferred yet.
pub open spec fn transfer_issued(probes: Seq<ProbeSignal>, threshold: u64) -> bool {
    &&& probes.len() > 0
    &&& run_count(probes) >= threshold
    &&& !(run_transferred(probes.drop_last(), threshold) && !(probes.last() is Active))
}

/// How many device transfers a fresh session issues over `probes`,
/// when every issued transfer succeeds.
pub open spec fn count_transfers(probes: Seq<ProbeSignal>, threshold: u64) -> nat
    decreases probes.len(),
{
    if probes.len() == 0 {
        0
    } else {
        count_transfers(probes.drop_last(), threshold) + if transfer_issued(probes, threshold) {
            1nat
        } else {
            0nat
        }
    }
}

/// Law (model fidelity): driving a fresh controller tick by tick
/// through `probes` — performing a successful transfer exactly when the
/// directive asks for one — leaves the counter and the transferred flag
/// at what the episode model says, and issues exactly
/// `count_transfers` device transfers.
pub fn replay_ticks(ctl: &mut AutoResumeController, probes: &Vec<ProbeSignal>) -> (transfers: u64)
    requires
        old(ctl).count() == 0,
        !old(ctl).transferred_flag(),
    ensures
        final(ctl).count() == run_count(probes@),
        final(ctl).transferred_flag() == run_transferred(
            probes@,
            final(ctl).config_spec().idle_threshold,
        ),
        final(ctl).config_spec() == old(ctl).config_spec(),
        final(ctl).device_id_spec() == old(ctl).device_id_spec(),
        final(ctl).queue() == old(ctl).queue(),
        transfers as nat == count_transfers(probes@, final(ctl).config_spec().idle_threshold),
{
    let ghost threshold = ctl.config_spec().idle_threshold;
    let mut transfers: u64 = 0;
    let mut i: usize = 0;
    proof {
        assert(probes@.take(0) =~= Seq::<ProbeSignal>::empty());
    }
    while i < probes.len()
        invariant
            0 <= i <= probes@.len(),
            transfers <= i,
            ctl.count() == run_count(probes@.take(i as int)),
            ctl.transferred_flag() == run_transferred(probes@.take(i as int), threshold),
            ctl.config_spec() == old(ctl).config_spec(),
            ctl.device_id_spec() == old(ctl).device_id_spec(),
            ctl.queue() == old(ctl).queue(),
            threshold == ctl.config_spec().idle_threshold,
            transfers as nat == count_transfers(probes@.take(i as int), threshold),
        decreases probes@.len() - i,
    {
        let directive = ctl.begin_tick(probes[i]);
        match directive {
            TickDirective::Takeover { transfer_needed: true, refill_needed: _ } => {
                ctl.record_transfer(true);
                transfers = transfers + 1;
            }
            _ => {}
        }
        proof {
            assert(probes@.take(i as int + 1).drop_last() =~= probes@.take(i as int));
            assert(probes@.take(i as int + 1).last() == probes@[i as int]);
        }
        i = i + 1;
    }
    proof {
        assert(probes@.take(probes@.len() as int) =~= probes@);
    }
    transfers
}

/// Once set, the transferred flag survives every tick up to the next
/// `Active` probe.
proof fn lemma_transferred_persists(probes: Seq<ProbeSignal>, threshold: u64, i: int, j: int)
    requires
        0 <= i <= j <= probes.len(),
        run_transferred(probes.take(i), threshold),
        forall|k: int| i <= k < j ==> !(probes[k] is Active),
    ensures
        run_transferred(probes.take(j), threshold),
    decreases j - i,
{
    if i < j {
        lemma_transferred_persists(probes, threshold, i, j - 1);
        assert(probes.take(j).drop_last() =~= probes.take(j - 1));
        assert(probes.take(j).last() == probes[j - 1]);
    }
}

/// While the counter has never reached the threshold, no episode has
/// begun and the flag is clear.
proof fn lemma_not_transferred_below_threshold(probes: Seq<ProbeSignal>, threshold: u64, i: int)
    requires
        0 <= i <= probes.len(),
        forall|k: int| 0 <= k <= i ==> run_count(#[trigger] probes.take(k)) < threshold,
    ensures
        !run_transferred(probes.take(i), threshold),
    decreases i,
{
    if i > 0 {
        lemma_not_transferred_below_threshold(probes, threshold, i - 1);
        assert(probes.take(i).drop_last() =~= probes.take(i - 1));
    }
}

/// Law: the tick on which the counter first reaches the threshold
/// issues a device transfer.
pub proof fn lemma_takeover_triggers_transfer(probes: Seq<ProbeSignal>, threshold: u64, i: int)
    requires
        0 <= i < probes.len(),
        run_count(probes.take(i + 1)) >= threshold,
        forall|k: int| 0 <= k <= i ==> run_count(#[trigger] probes.take(k)) < threshold,
    ensures
        transfer_issued(probes.take(i + 1), threshold),
{
    lemma_not_transferred_below_threshold(probes, threshold, i);
    assert(probes.take(i + 1).drop_last() =~= probes.take(i));
    assert(probes.take(i + 1).len() == i + 1);
}

/// Law: at most one device transfer per idle episode. If transfers are
/// issued on two distinct ticks, an `Active` probe was observed between
/// them; until real playback resumes, the first successful transfer is
/// the only one.
pub proof fn lemma_no_second_transfer_without_active(
    probes: Seq<ProbeSignal>,
    threshold: u64,
    i: int,
    j: int,
)
    requires
        0 <= i < j < probes.len(),
        transfer_issued(probes.take(i + 1), threshold),
        transfer_issued(probes.take(j + 1), threshold),
    ensures
        exists|k: int| i < k <= j && probes[k] is Active,
{
    if forall|k: int| i < k <= j ==> !(#[trigger] probes[k] is Active) {
        assert(run_transferred(probes.take(i + 1), threshold)) by {
            assert(probes.take(i + 1).len() == i + 1);
            assert(run_count(probes.take(i + 1)) >= threshold);
        }
        lemma_transferred_persists(probes, threshold, i + 1, j);
        assert(probes.take(j + 1).drop_last() =~= probes.take(j));
        assert(probes.take(j + 1).last() == probes[j]);
        assert(!(probes[j] is Active));
        assert(!transfer_issued(probes.take(j + 1), threshold));
    } else {
        let k = choose|k: int| !(i < k <= j ==> !(#[trigger] probes[k] is Active));
        assert(i < k <= j && probes[k] is Active);
    }
}

/// Law: within one idle episode — a run of probes with no `Active`
/// among them — exactly one device transfer is issued if the counter
/// ever reaches the threshold, and none otherwise.
pub proof fn lemma_exactly_one_transfer_per_episode(probes: Seq<ProbeSignal>, threshold: u64)
    requires
        forall|k: int| 0 <= k < probes.len() ==> !(#[trigger] probes[k] is Active),
    ensures
        run_transferred(probes, threshold) == (exists|i: int|
            0 <= i < probes.len() && run_count(#[trigger] probes.take(i + 1)) >= threshold),
        count_transfers(probes, threshold) == if run_transferred(probes, threshold) {
            1nat
        } else {
            0nat
        },
    decreases probes.len(),
{
    if probes.len() > 0 {
        let prior = probes.drop_last();
        assert(forall|k: int| 0 <= k < prior.len() ==> !(#[trigger] prior[k] is Active)) by {
            assert(forall|k: int| 0 <= k < prior.len() ==> prior[k] == probes[k]);
        }
        lemma_exactly_one_transfer_per_episode(prior, threshold);
        assert(probes.take(probes.len() as int) =~= probes);
        assert(forall|j: int| 0 <= j <= prior.len() ==> prior.take(j) =~= probes.take(j));
        if run_transferred(prior, threshold) {
            let i = choose|i: int|
                0 <= i < prior.len() && run_count(#[trigger] prior.take(i + 1)) >= threshold;
            assert(run_count(probes.take(i + 1)) >= threshold);
        } else if run_count(probes) >= threshold {
            assert(run_count(probes.take(probes.len() - 1 + 1)) >= threshold);
        } else {
            if exists|i: int|
                0 <= i < probes.len() && run_count(#[trigger] probes.take(i + 1)) >= threshold {
                let i = choose|i: int|
                    0 <= i < probes.len() && run_count(#[trigger] probes.take(i + 1)) >= threshold;
                if i < probes.len() - 1 {
                    assert(run_count(prior.take(i + 1)) >= threshold);
                }
            }
        }
    }
}

/// Law: the within-tick retry policy. A takeover tick whose first
/// transfer attempt fails is prescribed exactly one retry on that same
/// tick; a successful attempt is not retried; after the second attempt
/// the tick gives up (until the next tick re-enters the branch).
pub proof fn lemma_transfer_retried_within_tick()
    ensures
        transfer_retry_allowed(1, false),
        !transfer_retry_allowed(1, true),
        forall|n: u64| n >= 2 ==> !transfer_retry_allowed(n, false),
{
}

} // verus!
