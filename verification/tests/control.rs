use beatcore::catalog::catalog_from_names;
use beatcore::controller::{
    resolve_device, AudioCommand, ControlState, DeviceChoice, Phase, StartFailure,
};
use beatcore::detector::BeatDetector;

#[test]
fn fresh_controller_is_idle() {
    let c = ControlState::new();
    assert_eq!(c.phase, Phase::Idle);
    assert_eq!(c.active_session, None);
    assert!(!c.is_session_active(0));
}

#[test]
fn successful_select_starts_streaming() {
    let mut c = ControlState::new();
    let mut d = BeatDetector::new();
    let prev = c.begin_select(&mut d);
    assert_eq!(prev, None);
    let sid = c.finish_select(&Ok(()));
    assert_eq!(sid, Some(0));
    assert_eq!(c.phase, Phase::Streaming);
    assert!(c.is_session_active(0));
}

#[test]
fn failed_select_remains_idle() {
    let mut c = ControlState::new();
    let mut d = BeatDetector::new();
    c.begin_select(&mut d);
    let sid = c.finish_select(&Err(StartFailure::Build));
    assert_eq!(sid, None);
    assert_eq!(c.phase, Phase::Idle);
    assert!(!c.is_session_active(0));
}

#[test]
fn switching_retires_the_old_session() {
    let mut c = ControlState::new();
    let mut d = BeatDetector::new();
    c.begin_select(&mut d);
    let first: u64 = c.finish_select(&Ok(())).unwrap();
    assert!(c.is_session_active(first));

    // Feed the detector some history, then switch devices.
    d.detect(30000, 0);
    let prev = c.begin_select(&mut d);
    assert_eq!(prev, Some(first));
    // Between teardown and the new stream, no session accepts frames.
    assert!(!c.is_session_active(first));
    let second: u64 = c.finish_select(&Ok(())).unwrap();

    // The new session is live, the old one stays retired for good, and the
    // detector was reset before the new stream could deliver blocks.
    assert_ne!(first, second);
    assert!(c.is_session_active(second));
    assert!(!c.is_session_active(first));
    assert!(d.detect(6000, 5));
}

#[test]
fn stop_is_terminal() {
    let mut c = ControlState::new();
    let mut d = BeatDetector::new();
    c.begin_select(&mut d);
    let sid: u64 = c.finish_select(&Ok(())).unwrap();
    c.handle_stop();
    assert_eq!(c.phase, Phase::Terminated);
    assert!(!c.is_session_active(sid));
}

#[test]
fn device_resolution_falls_back_to_default() {
    assert_eq!(resolve_device(1, 3, false), Some(DeviceChoice::Requested(1)));
    assert_eq!(resolve_device(3, 3, true), Some(DeviceChoice::FallbackDefault));
    assert_eq!(resolve_device(0, 0, true), Some(DeviceChoice::FallbackDefault));
    assert_eq!(resolve_device(5, 2, false), None);
}

#[test]
fn commands_carry_their_payload() {
    let cmd = AudioCommand::SelectDevice(4);
    match cmd {
        AudioCommand::SelectDevice(i) => assert_eq!(i, 4),
        AudioCommand::Stop => unreachable!(),
    }
    assert_eq!(AudioCommand::Stop, AudioCommand::Stop);
}

#[test]
fn catalog_assigns_ordinals_and_placeholder_names() {
    let names: Vec<Option<String>> = vec![
        Some(String::from("Mic")),
        None,
        Some(String::from("Line In")),
    ];
    let devices = catalog_from_names(&names);
    assert_eq!(devices.len(), 3);
    assert_eq!(devices[0].index, 0);
    assert_eq!(devices[0].name, "Mic");
    assert_eq!(devices[1].index, 1);
    assert_eq!(devices[1].name, "Unknown");
    assert_eq!(devices[2].index, 2);
    assert_eq!(devices[2].name, "Line In");
}

#[test]
fn empty_enumeration_yields_empty_catalog() {
    let devices = catalog_from_names(&Vec::new());
    assert!(devices.is_empty());
}
