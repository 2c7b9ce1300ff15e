use afk_resume::probe::{probe_status, DeviceInfo, PlaybackSnapshot, ProbeSignal};

fn device(id: &str, name: &str, is_active: bool) -> DeviceInfo {
    DeviceInfo { id: id.to_string(), name: name.to_string(), is_active }
}

fn target() -> String {
    "spotifyd-box".to_string()
}

#[test]
fn failed_remote_call_is_unknown() {
    assert_eq!(probe_status(&None, &target()), ProbeSignal::Unknown);
}

#[test]
fn no_playback_anywhere_is_idle() {
    let snapshot = PlaybackSnapshot {
        is_playing: false,
        devices: vec![device("d1", "spotifyd-box", true)],
    };
    assert_eq!(probe_status(&Some(snapshot), &target()), ProbeSignal::Idle);
}

#[test]
fn playing_on_target_device_is_active() {
    let snapshot = PlaybackSnapshot {
        is_playing: true,
        devices: vec![device("d1", "phone", false), device("d2", "spotifyd-box", true)],
    };
    assert_eq!(probe_status(&Some(snapshot), &target()), ProbeSignal::Active);
}

#[test]
fn active_session_elsewhere_is_idle() {
    // Something is playing, but on a different device: the target is
    // unoccupied, so the probe reports Idle, not Active.
    let snapshot = PlaybackSnapshot {
        is_playing: true,
        devices: vec![device("d1", "phone", true), device("d2", "spotifyd-box", false)],
    };
    assert_eq!(probe_status(&Some(snapshot), &target()), ProbeSignal::Idle);
}

#[test]
fn target_found_inactive_is_idle() {
    let snapshot = PlaybackSnapshot {
        is_playing: true,
        devices: vec![device("d1", "spotifyd-box", false), device("d2", "phone", true)],
    };
    assert_eq!(probe_status(&Some(snapshot), &target()), ProbeSignal::Idle);
}

#[test]
fn no_device_matches_is_idle() {
    let snapshot = PlaybackSnapshot {
        is_playing: true,
        devices: vec![device("d1", "phone", false), device("d2", "laptop", false)],
    };
    assert_eq!(probe_status(&Some(snapshot), &target()), ProbeSignal::Idle);
}

#[test]
fn playing_with_empty_device_list_is_unknown() {
    let snapshot = PlaybackSnapshot { is_playing: true, devices: Vec::new() };
    assert_eq!(probe_status(&Some(snapshot), &target()), ProbeSignal::Unknown);
}

#[test]
fn device_names_match_exactly() {
    let snapshot = PlaybackSnapshot {
        is_playing: true,
        devices: vec![device("d1", "SPOTIFYD-BOX", true)],
    };
    assert_eq!(probe_status(&Some(snapshot), &target()), ProbeSignal::Idle);
}
