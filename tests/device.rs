use spotic::device::{
    DeviceAction, DeviceError, DeviceEvent, DeviceInfo, DevicePhase, DeviceReconciler,
    DEVICE_CACHE_TTL_MS, MAX_TRANSFER_WAIT_MS, POLL_INTERVAL_MS,
};

fn device(id: &str, name: &str) -> DeviceInfo {
    DeviceInfo { id: Some(id.to_string()), name: name.to_string() }
}

fn step(r: &mut DeviceReconciler, e: DeviceEvent) -> DeviceAction {
    assert!(r.accepts_event(&e));
    r.step(e)
}

fn is_proceed(a: &DeviceAction) -> bool {
    matches!(a, DeviceAction::Proceed)
}

#[test]
fn standard_timings() {
    let r = DeviceReconciler::standard();
    assert_eq!(r.ttl, DEVICE_CACHE_TTL_MS);
    assert_eq!(DEVICE_CACHE_TTL_MS, 3000);
    assert_eq!(POLL_INTERVAL_MS, 100);
    assert_eq!(MAX_TRANSFER_WAIT_MS, 1000);
}

#[test]
fn second_ensure_within_ttl_makes_no_call() {
    let mut r = DeviceReconciler::standard();
    assert!(matches!(step(&mut r, DeviceEvent::Ensure { now: 10_000 }), DeviceAction::QueryPlayback));
    let a = step(
        &mut r,
        DeviceEvent::Playback { active: Some(device("d1", "Desk")), now: 10_000 },
    );
    assert!(is_proceed(&a));
    // one second later: answered from the cache
    assert!(is_proceed(&step(&mut r, DeviceEvent::Ensure { now: 11_000 })));
    // four seconds after the confirmation: asks again
    assert!(matches!(step(&mut r, DeviceEvent::Ensure { now: 14_000 }), DeviceAction::QueryPlayback));
}

#[test]
fn nothing_playing_lists_devices() {
    let mut r = DeviceReconciler::standard();
    step(&mut r, DeviceEvent::Ensure { now: 0 });
    let a = step(&mut r, DeviceEvent::Playback { active: None, now: 5 });
    assert!(matches!(a, DeviceAction::ListDevices));
}

#[test]
fn no_device_available() {
    let mut r = DeviceReconciler::standard();
    step(&mut r, DeviceEvent::Ensure { now: 0 });
    step(&mut r, DeviceEvent::Playback { active: None, now: 5 });
    let a = step(&mut r, DeviceEvent::Devices { devices: vec![] });
    assert!(matches!(a, DeviceAction::Fail(DeviceError::NoDeviceAvailable)));
    assert!(r.cached.is_none());
}

#[test]
fn single_device_is_taken_without_asking() {
    let mut r = DeviceReconciler::standard();
    step(&mut r, DeviceEvent::Ensure { now: 0 });
    step(&mut r, DeviceEvent::Playback { active: None, now: 5 });
    match step(&mut r, DeviceEvent::Devices { devices: vec![device("d9", "Desk")] }) {
        DeviceAction::Transfer { device_id } => assert_eq!(device_id, "d9"),
        _ => panic!("expected a transfer"),
    }
    assert!(matches!(step(&mut r, DeviceEvent::Transferred { now: 20 }), DeviceAction::Poll));
    let a = step(&mut r, DeviceEvent::Polled { name: Some("Desk".to_string()), now: 30 });
    assert!(is_proceed(&a));
    let cached = r.cached.as_ref().unwrap();
    assert_eq!(cached.device.name, "Desk");
    assert_eq!(cached.checked_at, 30);
    assert!(cached.is_valid(3029));
    assert!(!cached.is_valid(3030));
}

#[test]
fn two_devices_are_offered_by_name() {
    let mut r = DeviceReconciler::standard();
    step(&mut r, DeviceEvent::Ensure { now: 0 });
    step(&mut r, DeviceEvent::Playback { active: None, now: 5 });
    let a = step(
        &mut r,
        DeviceEvent::Devices { devices: vec![device("a", "Phone"), device("b", "Desk")] },
    );
    match a {
        DeviceAction::Choose { names } => {
            assert_eq!(names, vec!["Phone".to_string(), "Desk".to_string()])
        }
        _ => panic!("expected a choice"),
    }
    assert!(!r.accepts_event(&DeviceEvent::Chosen { index: 2 }));
    match step(&mut r, DeviceEvent::Chosen { index: 1 }) {
        DeviceAction::Transfer { device_id } => assert_eq!(device_id, "b"),
        _ => panic!("expected a transfer"),
    }
}

#[test]
fn device_without_id_cannot_be_set() {
    let mut r = DeviceReconciler::standard();
    let a = step(
        &mut r,
        DeviceEvent::SetDevice { device: DeviceInfo { id: None, name: "Ghost".to_string() } },
    );
    assert!(matches!(a, DeviceAction::Fail(DeviceError::MissingId)));
}

#[test]
fn transfer_that_never_shows_times_out() {
    let mut r = DeviceReconciler::standard();
    let a = step(&mut r, DeviceEvent::SetDevice { device: device("x", "Desk") });
    assert!(matches!(a, DeviceAction::Transfer { .. }));
    let mut now: u64 = 50_000;
    let mut action = step(&mut r, DeviceEvent::Transferred { now });
    let mut polls = 0;
    let mut poll_times = Vec::new();
    loop {
        match action {
            DeviceAction::Poll => {
                polls += 1;
                poll_times.push(now);
                action = step(
                    &mut r,
                    DeviceEvent::Polled { name: Some("Laptop".to_string()), now },
                );
            }
            DeviceAction::Sleep { millis } => {
                assert_eq!(millis, 100);
                now += millis;
                action = step(&mut r, DeviceEvent::Woke { now });
            }
            DeviceAction::Fail(e) => {
                assert_eq!(e, DeviceError::TransferTimeout);
                break;
            }
            _ => panic!("unexpected action"),
        }
    }
    assert_eq!(polls, 10);
    assert_eq!(now - 50_000, 1000);
    for w in poll_times.windows(2) {
        assert_eq!(w[1] - w[0], 100);
    }
    assert!(r.cached.is_none());
    assert!(matches!(r.phase, DevicePhase::Idle));
}

#[test]
fn confirmed_device_replaces_the_cache() {
    let mut r = DeviceReconciler::new(3000, 100, 1000);
    step(&mut r, DeviceEvent::Ensure { now: 0 });
    step(&mut r, DeviceEvent::Playback { active: Some(device("a", "Phone")), now: 0 });
    step(&mut r, DeviceEvent::SetDevice { device: device("b", "Desk") });
    step(&mut r, DeviceEvent::Transferred { now: 100 });
    let a = step(&mut r, DeviceEvent::Polled { name: Some("Desk".to_string()), now: 200 });
    assert!(is_proceed(&a));
    assert_eq!(r.cached.as_ref().unwrap().device.name, "Desk");
    assert_eq!(r.cached.as_ref().unwrap().checked_at, 200);
}

#[test]
fn zero_ttl_always_asks() {
    let mut r = DeviceReconciler::new(0, 100, 1000);
    step(&mut r, DeviceEvent::Ensure { now: 0 });
    step(&mut r, DeviceEvent::Playback { active: Some(device("a", "Phone")), now: 0 });
    assert!(matches!(step(&mut r, DeviceEvent::Ensure { now: 0 }), DeviceAction::QueryPlayback));
}
