use opendeck_k1pro::commands::{
    after_key_brightness, connect_commands, default_lighting_commands, heartbeat_commands,
    host_switch_commands, keep_reporting_commands, key_brightness_command, TransportCommand,
};
use opendeck_k1pro::protocol::status_report_scr;
use opendeck_k1pro::text::{c_string_to_string, find_nul, wide_to_string};

#[test]
fn wide_strings_convert_with_replacement() {
    let codes: Vec<u32> = "8730DB782625".chars().map(|c| c as u32).collect();
    assert_eq!(wide_to_string(&codes), "8730DB782625");
    assert_eq!(wide_to_string(&[0x41, 0xD800, 0x1F600, 0x110000, 0x42]), "A?\u{1F600}?B");
    assert_eq!(wide_to_string(&[]), "");
}

#[test]
fn c_strings_stop_at_the_first_zero() {
    assert_eq!(c_string_to_string(b"/dev/hidraw5\0garbage\0"), "/dev/hidraw5");
    assert_eq!(c_string_to_string(b"V3.010\0"), "V3.010");
    assert_eq!(c_string_to_string(b"\0abc"), "");
    assert_eq!(c_string_to_string(b"no terminator"), "no terminator");
    assert_eq!(c_string_to_string(b"a\xffb\0"), "a\u{FFFD}b");
    assert_eq!(find_nul(b"ab\0c\0"), Some(2));
    assert_eq!(find_nul(b"abc"), None);
}

#[test]
fn lossy_decoding_keeps_valid_text() {
    assert_eq!(c_string_to_string("héllo\0".as_bytes()), "héllo");
    assert_eq!(c_string_to_string(b"\xf0\x28"), "\u{FFFD}(");
}

fn status(json: &[u8]) -> Vec<u8> {
    let mut data = vec![0x04, b'D', b'E', b'V', b'C', b'F', b'G', 0, 0, 0, 0, 0];
    data.extend_from_slice(json);
    data.push(0);
    data
}

#[test]
fn json_members_are_read_as_integers() {
    assert_eq!(status_report_scr(&status(b"{\"scr\": 7}")), Some(7));
    assert_eq!(status_report_scr(&status(b"{\"slpt\": 7}")), None);
    assert_eq!(status_report_scr(&status(b"[1, 2]")), None);
    assert_eq!(status_report_scr(&status(b"{")), None);
    assert_eq!(status_report_scr(&status(b"{\"scr\": 9223372036854775808}")), None);
    assert_eq!(status_report_scr(&status(b"{\"scr\": 9223372036854775807}")), Some(i64::MAX));
    assert_eq!(status_report_scr(&status(b"{\"n\": \"\xff\", \"scr\": 4}")), Some(4));
}

fn report_setup() -> Vec<TransportCommand> {
    vec![
        TransportCommand::SetReportSize { input: 513, output: 1025, feature: 0 },
        TransportCommand::SetReportId(0x04),
    ]
}

#[test]
fn handshake_sequences() {
    let mut connect = report_setup();
    connect.extend([
        TransportCommand::WakeupScreen,
        TransportCommand::SetKeyBrightness(100),
        TransportCommand::ClearAllKeys,
        TransportCommand::Refresh,
    ]);
    assert_eq!(connect_commands(), connect);
    assert_eq!(
        default_lighting_commands(),
        vec![TransportCommand::SetKeyboardLightingSpeed(3), TransportCommand::SetKeyboardLightingEffects(0)]
    );
    let mut keep = report_setup();
    keep.push(TransportCommand::KeyboardOsModeSwitch(0));
    assert_eq!(keep_reporting_commands(), keep);

    let mut host = vec![
        TransportCommand::SetKeyboardBacklightBrightness(4),
        TransportCommand::SetKeyboardLightingSpeed(3),
        TransportCommand::SetKeyboardLightingEffects(0),
        TransportCommand::SetKeyboardRgbBacklight(0, 150, 255),
    ];
    host.extend(connect);
    host.push(TransportCommand::KeyboardOsModeSwitch(0));
    assert_eq!(host_switch_commands(), host);

    let mut heartbeat = vec![TransportCommand::Heartbeat];
    heartbeat.extend(keep);
    assert_eq!(heartbeat_commands(), heartbeat);
}

#[test]
fn key_brightness_failure_stops_the_sequence() {
    assert_eq!(key_brightness_command(70), TransportCommand::SetKeyBrightness(70));
    assert_eq!(after_key_brightness(0x0500_0001), Err(0x0500_0001));
    let mut after = vec![TransportCommand::Refresh];
    after.extend(keep_reporting_commands());
    assert_eq!(after_key_brightness(0), Ok(after));
}
