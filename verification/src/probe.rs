use vstd::prelude::*;

verus! {

/// The tri-state answer of one playback-status probe: is the target
/// device actively playing right now?
///
/// `Idle` covers both "nothing playing anywhere" and "something playing
/// on a different device": either way the target device is unoccupied.
/// `Unknown` is a probe that could not be completed and must be treated
/// as a no-op by the caller.
#[derive(Clone, Copy, PartialEq, Eq, Structural, Debug)]
pub enum ProbeSignal {
    Idle,
    Active,
    Unknown,
}

/// One playback device as the remote account reports it.
pub struct DeviceInfo {
    pub id: String,
    pub name: String,
    pub is_active: bool,
}

/// What one successful remote status call reports: whether anything is
/// playing on the account, and the devices currently known to it.
pub struct PlaybackSnapshot {
    pub is_playing: bool,
    pub devices: Vec<DeviceInfo>,
}

/// The in-order scan of the device list: the first device that is either
/// named `target` or active decides. A target-named device decides by
/// whether it is active; an active device under another name means the
/// target is unoccupied.
pub open spec fn scan_devices(devices: Seq<DeviceInfo>, target: Seq<char>) -> ProbeSignal
    decreases devices.len(),
{
    if devices.len() == 0 {
        ProbeSignal::Idle
    } else if devices[0].name@ == target {
        if devices[0].is_active {
            ProbeSignal::Active
        } else {
            ProbeSignal::Idle
        }
    } else if devices[0].is_active {
        ProbeSignal::Idle
    } else {
        scan_devices(devices.drop_first(), target)
    }
}

/// The probe's full answer: a missing snapshot (the remote call failed)
/// is `Unknown`; no playback at all is `Idle`; playback with an empty
/// device list cannot be attributed and is `Unknown`; otherwise the
/// device scan decides.
pub open spec fn probe_spec(snapshot: Option<PlaybackSnapshot>, target: Seq<char>) -> ProbeSignal {
    match snapshot {
        Option::None => ProbeSignal::Unknown,
        Option::Some(s) => if !s.is_playing {
            ProbeSignal::Idle
        } else if s.devices@.len() == 0 {
            ProbeSignal::Unknown
        } else {
            scan_devices(s.devices@, target)
        },
    }
}

/// Normalize one sampled read of the remote playback state to the
/// tri-state signal. `snapshot` is `None` when the remote call failed.
pub fn probe_status(snapshot: &Option<PlaybackSnapshot>, target_device_name: &String) -> (r:
    ProbeSignal)
    ensures
        r == probe_spec(*snapshot, target_device_name@),
{
    match snapshot {
        Option::None => ProbeSignal::Unknown,
        Option::Some(s) => {
            if !s.is_playing {
                return ProbeSignal::Idle;
            }
            if s.devices.len() == 0 {
                return ProbeSignal::Unknown;
            }
            let ghost all = s.devices@;
            proof {
                assert(all.skip(0) =~= all);
            }
            let mut i: usize = 0;
            while i < s.devices.len()
                invariant
                    0 <= i <= all.len(),
                    all == s.devices@,
                    all.len() > 0,
                    s.is_playing,
                    *snapshot == Option::Some(*s),
                    scan_devices(all.skip(i as int), target_device_name@) == scan_devices(
                        all,
                        target_device_name@,
                    ),
                decreases all.len() - i,
            {
                proof {
                    assert(all.skip(i as int)[0] == all[i as int]);
                }
                let d = &s.devices[i];
                if d.name == *target_device_name {
                    if d.is_active {
                        return ProbeSignal::Active;
                    } else {
                        return ProbeSignal::Idle;
                    }
                } else if d.is_active {
                    return ProbeSignal::Idle;
                }
                proof {
                    assert(all.skip(i as int).drop_first() =~= all.skip(i as int + 1));
                }
                i = i + 1;
            }
            proof {
                assert(all.skip(all.len() as int).len() == 0);
            }
            ProbeSignal::Idle
        },
    }
}

proof fn lemma_scan_no_target_active_is_idle(devices: Seq<DeviceInfo>, target: Seq<char>)
    requires
        forall|i: int|
            0 <= i < devices.len() && devices[i].is_active ==> devices[i].name@ != target,
    ensures
        scan_devices(devices, target) == ProbeSignal::Idle,
    decreases devices.len(),
{
    if devices.len() > 0 {
        if devices[0].name@ == target || devices[0].is_active {
        } else {
            assert(forall|i: int|
                0 <= i < devices.drop_first().len() && devices.drop_first()[i].is_active
                    ==> devices.drop_first()[i].name@ != target) by {
                assert(forall|i: int|
                    0 <= i < devices.drop_first().len() ==> devices.drop_first()[i] == devices[i
                        + 1]);
            }
            lemma_scan_no_target_active_is_idle(devices.drop_first(), target);
        }
    }
}

/// Law: when the probe observes an active session on some device other
/// than the target (and the target device itself is not the active one),
/// the result is `Idle`, not `Active`.
pub proof fn lemma_active_elsewhere_is_idle(snapshot: PlaybackSnapshot, target: Seq<char>)
    requires
        snapshot.is_playing,
        exists|i: int|
            0 <= i < snapshot.devices@.len() && snapshot.devices@[i].is_active
                && snapshot.devices@[i].name@ != target,
        forall|i: int|
            0 <= i < snapshot.devices@.len() && snapshot.devices@[i].is_active
                ==> snapshot.devices@[i].name@ != target,
    ensures
        probe_spec(Some(snapshot), target) == ProbeSignal::Idle,
{
    lemma_scan_no_target_active_is_idle(snapshot.devices@, target);
}

} // verus!
