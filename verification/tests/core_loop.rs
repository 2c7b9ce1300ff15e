use afk_resume::controller::{
    replay_ticks, AutoResumeController, ControllerConfig, SessionError, TickDirective,
};
use afk_resume::cursor::{QueueError, Track};
use afk_resume::probe::{DeviceInfo, ProbeSignal};

fn config(threshold: u64, interval: u64) -> ControllerConfig {
    ControllerConfig {
        target_device_name: "spotifyd-box".to_string(),
        afk_playlist_name: "afk tunes".to_string(),
        idle_threshold: threshold,
        check_interval_seconds: interval,
        market: "NL".to_string(),
    }
}

fn devices_with_target() -> Vec<DeviceInfo> {
    vec![
        DeviceInfo { id: "phone-id".to_string(), name: "phone".to_string(), is_active: false },
        DeviceInfo {
            id: "box-id".to_string(),
            name: "spotifyd-box".to_string(),
            is_active: false,
        },
    ]
}

fn tracks(ids: &[&str]) -> Vec<Track> {
    ids.iter().map(|id| Track { id: id.to_string() }).collect()
}

#[test]
fn session_fails_fast_without_target_device() {
    let devices = vec![DeviceInfo {
        id: "phone-id".to_string(),
        name: "phone".to_string(),
        is_active: true,
    }];
    let r = AutoResumeController::new(config(3, 5), &devices);
    assert!(matches!(r, Err(SessionError::DeviceNotFound)));
}

#[test]
fn session_resolves_first_device_with_target_name() {
    let devices = vec![
        DeviceInfo { id: "first".to_string(), name: "spotifyd-box".to_string(), is_active: false },
        DeviceInfo { id: "second".to_string(), name: "spotifyd-box".to_string(), is_active: true },
    ];
    let ctl = AutoResumeController::new(config(3, 5), &devices).unwrap();
    assert_eq!(ctl.device_id().as_str(), "first");
    assert_eq!(ctl.idle_count(), 0);
}

#[test]
fn threshold_three_triggers_exactly_one_takeover() {
    let mut ctl = AutoResumeController::new(config(3, 5), &devices_with_target()).unwrap();
    assert_eq!(ctl.begin_tick(ProbeSignal::Idle), TickDirective::Sleep);
    assert_eq!(ctl.begin_tick(ProbeSignal::Idle), TickDirective::Sleep);
    let d3 = ctl.begin_tick(ProbeSignal::Idle);
    assert_eq!(d3, TickDirective::Takeover { transfer_needed: true, refill_needed: true });
    ctl.record_transfer(true);
    // Subsequent idle ticks stay in the takeover branch but never ask
    // for a second transfer until an Active probe closes the episode.
    let d4 = ctl.begin_tick(ProbeSignal::Idle);
    assert_eq!(d4, TickDirective::Takeover { transfer_needed: false, refill_needed: true });
    let d5 = ctl.begin_tick(ProbeSignal::Idle);
    assert_eq!(d5, TickDirective::Takeover { transfer_needed: false, refill_needed: true });
    assert_eq!(ctl.begin_tick(ProbeSignal::Active), TickDirective::Sleep);
    assert_eq!(ctl.idle_count(), 0);
    // A fresh episode asks for a transfer again.
    ctl.begin_tick(ProbeSignal::Idle);
    ctl.begin_tick(ProbeSignal::Idle);
    let d9 = ctl.begin_tick(ProbeSignal::Idle);
    assert_eq!(d9, TickDirective::Takeover { transfer_needed: true, refill_needed: true });
}

#[test]
fn unknown_probe_leaves_accumulator_untouched() {
    let mut ctl = AutoResumeController::new(config(3, 5), &devices_with_target()).unwrap();
    ctl.begin_tick(ProbeSignal::Idle);
    ctl.begin_tick(ProbeSignal::Unknown);
    assert_eq!(ctl.idle_count(), 1);
    ctl.begin_tick(ProbeSignal::Idle);
    assert_eq!(ctl.idle_count(), 2);
    let d = ctl.begin_tick(ProbeSignal::Idle);
    assert_eq!(d, TickDirective::Takeover { transfer_needed: true, refill_needed: true });
}

#[test]
fn transfer_failure_is_retried_within_the_tick() {
    let mut ctl = AutoResumeController::new(config(1, 5), &devices_with_target()).unwrap();
    let d = ctl.begin_tick(ProbeSignal::Idle);
    assert_eq!(d, TickDirective::Takeover { transfer_needed: true, refill_needed: true });
    let count_before = ctl.idle_count();
    // First attempt fails: the policy prescribes one retry on this same
    // tick, and no third attempt.
    assert!(ctl.should_retry_transfer(1, false));
    assert!(!ctl.should_retry_transfer(1, true));
    assert!(!ctl.should_retry_transfer(2, false));
    ctl.record_transfer(false);
    // The accumulator is unaffected by the transfer outcome, and the
    // next tick asks for the transfer again.
    assert_eq!(ctl.idle_count(), count_before);
    let d2 = ctl.begin_tick(ProbeSignal::Idle);
    assert_eq!(d2, TickDirective::Takeover { transfer_needed: true, refill_needed: true });
}

#[test]
fn end_to_end_idle_episode() {
    // idle_threshold=2, check_interval=5s; probes at t=0,5,10s are all
    // Idle: the takeover triggers at t=5s, one transfer is issued once,
    // and one enqueue per tick follows until a probe returns Active.
    let mut ctl = AutoResumeController::new(config(2, 5), &devices_with_target()).unwrap();
    assert_eq!(ctl.check_interval_seconds(), 5);

    // t=0s
    assert_eq!(ctl.begin_tick(ProbeSignal::Idle), TickDirective::Sleep);

    // t=5s: counter reaches 2.
    let d = ctl.begin_tick(ProbeSignal::Idle);
    assert_eq!(d, TickDirective::Takeover { transfer_needed: true, refill_needed: true });
    ctl.record_transfer(true);
    ctl.refill_queue(tracks(&["a", "b", "c"]));
    let first = ctl.next_track().unwrap();
    assert_eq!(first.id, "c");

    // t=10s: no second transfer, no refill needed, one more enqueue.
    let d = ctl.begin_tick(ProbeSignal::Idle);
    assert_eq!(d, TickDirective::Takeover { transfer_needed: false, refill_needed: false });
    let second = ctl.next_track().unwrap();
    assert_eq!(second.id, "b");

    // t=15s: the user resumed; counter resets, episode closes.
    assert_eq!(ctl.begin_tick(ProbeSignal::Active), TickDirective::Sleep);
    assert_eq!(ctl.idle_count(), 0);

    // No further enqueue until the threshold is crossed again.
    assert_eq!(ctl.begin_tick(ProbeSignal::Idle), TickDirective::Sleep);
    let d = ctl.begin_tick(ProbeSignal::Idle);
    assert_eq!(d, TickDirective::Takeover { transfer_needed: true, refill_needed: false });
}

#[test]
fn replay_counts_one_transfer_per_episode() {
    let idle = ProbeSignal::Idle;
    let active = ProbeSignal::Active;
    let unknown = ProbeSignal::Unknown;
    let mut ctl = AutoResumeController::new(config(3, 5), &devices_with_target()).unwrap();
    // Two idle episodes separated by an Active probe: one transfer each.
    let probes = vec![idle, idle, idle, idle, unknown, active, idle, idle, idle];
    assert_eq!(replay_ticks(&mut ctl, &probes), 2);
    assert_eq!(ctl.idle_count(), 3);
    // A run that never reaches the threshold issues none.
    let mut ctl = AutoResumeController::new(config(3, 5), &devices_with_target()).unwrap();
    assert_eq!(replay_ticks(&mut ctl, &vec![idle, idle, active, idle, idle]), 0);
}

#[test]
fn exhausted_queue_directs_refill_and_full_replay() {
    let mut ctl = AutoResumeController::new(config(1, 5), &devices_with_target()).unwrap();
    let d = ctl.begin_tick(ProbeSignal::Idle);
    assert_eq!(d, TickDirective::Takeover { transfer_needed: true, refill_needed: true });
    ctl.record_transfer(true);
    ctl.refill_queue(tracks(&["x"]));
    assert_eq!(ctl.next_track().unwrap().id, "x");
    assert_eq!(ctl.next_track(), Err(QueueError::Exhausted));
    // The next tick notices the exhausted buffer; a refill is an
    // independent full replay of the playlist.
    let d = ctl.begin_tick(ProbeSignal::Idle);
    assert_eq!(d, TickDirective::Takeover { transfer_needed: false, refill_needed: true });
    ctl.refill_queue(tracks(&["x"]));
    assert_eq!(ctl.next_track().unwrap().id, "x");
}
