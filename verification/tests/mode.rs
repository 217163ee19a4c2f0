use opendeck_k1pro::commands::{heartbeat_commands, host_switch_commands};
use opendeck_k1pro::mode::{HostAction, ModeState, StandaloneAction};
use opendeck_k1pro::protocol::InputEvent;

fn knob_one(pressed: bool) -> InputEvent {
    InputEvent::EncoderPress { knob: 0, pressed }
}

fn status_report(scr: i64) -> Vec<u8> {
    let mut data = vec![0u8; 12];
    data[0] = 0x04;
    data[1..7].copy_from_slice(b"DEVCFG");
    data.extend_from_slice(format!("{{\"scr\": {}, \"Stream Dock\": \"Disconnected\"}}", scr).as_bytes());
    data.push(0);
    data
}

fn ack_report(code: u8, state: u8) -> Vec<u8> {
    let mut data = vec![0u8; 12];
    data[0] = 0x04;
    data[1..4].copy_from_slice(b"ACK");
    data[10] = code;
    data[11] = state;
    data
}

#[test]
fn host_events_are_forwarded() {
    let s = ModeState::new();
    assert_eq!(s.host_action(InputEvent::Key { position: 2, pressed: true }, 0), HostAction::KeyDown(2));
    assert_eq!(s.host_action(InputEvent::Key { position: 2, pressed: false }, 0), HostAction::KeyUp(2));
    assert_eq!(s.host_action(InputEvent::EncoderPress { knob: 1, pressed: true }, 0), HostAction::EncoderDown(1));
    assert_eq!(s.host_action(InputEvent::EncoderPress { knob: 2, pressed: false }, 0), HostAction::EncoderUp(2));
    assert_eq!(s.host_action(InputEvent::EncoderTurn { knob: 2, ticks: -1 }, 0), HostAction::EncoderChange(2, -1));
    assert_eq!(s.host_action(InputEvent::Unhandled { code: 0x77 }, 0), HostAction::Unhandled(0x77));
    assert_eq!(s.on_input_report(&ack_report(0x61, 0), 0), Some(HostAction::EncoderChange(1, 1)));
    assert_eq!(s.on_input_report(&ack_report(0x04, 1), 0), Some(HostAction::KeyDown(4)));
    assert_eq!(s.on_input_report(&status_report(0), 0), None);
}

#[test]
fn knob_one_click_enters_standalone_after_cooldown() {
    let s = ModeState::new();
    assert_eq!(s.host_action(knob_one(true), 5), HostAction::EnterStandalone);
    assert_eq!(s.host_action(knob_one(false), 5), HostAction::Ignore);

    let mut back = ModeState { standalone: true, host_since: None, standalone_since: Some(100), overlay_seen: None };
    back.finish_host_switch(10_000);
    assert!(!back.standalone);
    assert_eq!(back.host_since, Some(10_000));
    assert_eq!(back.host_action(knob_one(true), 10_999), HostAction::Ignore);
    assert_eq!(back.host_action(knob_one(true), 11_000), HostAction::EnterStandalone);
    assert_eq!(back.host_action(knob_one(true), 9_000), HostAction::Ignore);
}

#[test]
fn standalone_switch_failure_changes_nothing() {
    let mut s = ModeState::new();
    assert!(s.standalone_switch_needed());
    assert_eq!(s.finish_standalone_switch(0x0500_0003, 50), Err(0x0500_0003));
    assert_eq!(s, ModeState::new());
    assert_eq!(s.finish_standalone_switch(0, 50), Ok(()));
    assert!(s.standalone);
    assert_eq!(s.standalone_since, Some(50));
    assert!(!s.standalone_switch_needed());
    assert_eq!(s.host_action(InputEvent::Key { position: 0, pressed: true }, 60), HostAction::Ignore);
    assert!(s.heartbeat_commands().is_empty());
    assert_eq!(s.host_switch_commands(), host_switch_commands());
}

#[test]
fn home_page_reconnects_only_after_cooldowns() {
    let mut s = ModeState::new();
    assert_eq!(s.on_status_page(0, 10_000), StandaloneAction::Ignore);
    s.finish_standalone_switch(0, 1_000).unwrap();
    assert_eq!(s.on_status_page(0, 2_499), StandaloneAction::Ignore);
    assert_eq!(s.on_status_page(2, 3_000), StandaloneAction::Ignore);
    assert_eq!(s.overlay_seen, Some(3_000));
    assert_eq!(s.on_status_page(0, 4_000), StandaloneAction::Ignore);
    assert_eq!(s.on_status_page(-1, 9_000), StandaloneAction::Ignore);
    assert_eq!(s.on_status_page(0, 4_500), StandaloneAction::ReturnToHost);
    let mut t = s;
    assert_eq!(t.on_standalone_report(&status_report(1), 5_000), StandaloneAction::Ignore);
    assert_eq!(t.overlay_seen, Some(5_000));
    assert_eq!(t.on_standalone_report(&status_report(0), 6_500), StandaloneAction::ReturnToHost);
    assert_eq!(t.on_standalone_report(&ack_report(0x25, 1), 9_000), StandaloneAction::Ignore);
}

#[test]
fn round_trip_back_to_host() {
    let mut s = ModeState::new();
    s.finish_standalone_switch(0, 100).unwrap();
    let cmds = s.host_switch_commands();
    assert_eq!(cmds, host_switch_commands());
    s.finish_host_switch(2_000);
    assert_eq!(
        s,
        ModeState { standalone: false, host_since: Some(2_000), standalone_since: Some(100), overlay_seen: None }
    );
    assert!(s.host_switch_commands().is_empty());
    s.finish_host_switch(3_000);
    assert_eq!(s.host_since, Some(2_000));
    assert_eq!(s.heartbeat_commands(), heartbeat_commands());
}
