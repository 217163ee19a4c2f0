use opendeck_k1pro::mappings::{device_to_opendeck, opendeck_to_device, KEY_COUNT};
use opendeck_k1pro::protocol::{
    classify_input, classify_read_status, commit_report, decode_input_report,
    default_color_report, status_report_payload, status_report_scr, InputEvent, ReadStatus,
};

#[test]
fn key_positions_map_to_hardware_codes() {
    let expected = [0x05u8, 0x03, 0x01, 0x06, 0x04, 0x02];
    for (pos, code) in expected.iter().enumerate() {
        assert_eq!(opendeck_to_device(pos as u8), Some(*code));
        assert_eq!(device_to_opendeck(*code), Some(pos as u8));
    }
    assert_eq!(opendeck_to_device(KEY_COUNT as u8), None);
    assert_eq!(opendeck_to_device(255), None);
    assert_eq!(device_to_opendeck(0x00), None);
    assert_eq!(device_to_opendeck(0x07), None);
    assert_eq!(device_to_opendeck(0x25), None);
}

#[test]
fn mapping_round_trip_over_all_bytes() {
    for v in 0..=255u8 {
        if let Some(code) = opendeck_to_device(v) {
            assert_eq!(device_to_opendeck(code), Some(v));
        }
        if let Some(pos) = device_to_opendeck(v) {
            assert_eq!(opendeck_to_device(pos), Some(v));
        }
    }
}

#[test]
fn hardware_codes_are_classified() {
    assert_eq!(classify_input(0x05, 1), InputEvent::Key { position: 0, pressed: true });
    assert_eq!(classify_input(0x02, 0), InputEvent::Key { position: 5, pressed: false });
    assert_eq!(classify_input(0x02, 2), InputEvent::Key { position: 5, pressed: false });
    assert_eq!(classify_input(0x25, 1), InputEvent::EncoderPress { knob: 0, pressed: true });
    assert_eq!(classify_input(0x30, 0), InputEvent::EncoderPress { knob: 1, pressed: false });
    assert_eq!(classify_input(0x31, 1), InputEvent::EncoderPress { knob: 2, pressed: true });
    assert_eq!(classify_input(0x50, 0), InputEvent::EncoderTurn { knob: 0, ticks: -1 });
    assert_eq!(classify_input(0x51, 0), InputEvent::EncoderTurn { knob: 0, ticks: 1 });
    assert_eq!(classify_input(0x60, 0), InputEvent::EncoderTurn { knob: 1, ticks: -1 });
    assert_eq!(classify_input(0x61, 0), InputEvent::EncoderTurn { knob: 1, ticks: 1 });
    assert_eq!(classify_input(0x90, 0), InputEvent::EncoderTurn { knob: 2, ticks: -1 });
    assert_eq!(classify_input(0x91, 0), InputEvent::EncoderTurn { knob: 2, ticks: 1 });
    assert_eq!(classify_input(0x77, 1), InputEvent::Unhandled { code: 0x77 });
}

fn ack_report(code: u8, state: u8) -> Vec<u8> {
    let mut data = vec![0u8; 16];
    data[0] = 0x04;
    data[1..4].copy_from_slice(b"ACK");
    data[6..8].copy_from_slice(b"OK");
    data[10] = code;
    data[11] = state;
    data
}

#[test]
fn input_reports_are_decoded() {
    assert_eq!(decode_input_report(&ack_report(0x51, 0)), Some((0x51, 0)));
    assert_eq!(decode_input_report(&ack_report(0x03, 1)[..12]), Some((0x03, 1)));
    assert_eq!(decode_input_report(&ack_report(0x03, 1)[..11]), None);
    let mut wrong_id = ack_report(0x03, 1);
    wrong_id[0] = 0x05;
    assert_eq!(decode_input_report(&wrong_id), None);
    let mut wrong_tag = ack_report(0x03, 1);
    wrong_tag[3] = b'X';
    assert_eq!(decode_input_report(&wrong_tag), None);
    assert_eq!(decode_input_report(&[]), None);
}

#[test]
fn read_statuses_are_classified() {
    assert_eq!(classify_read_status(0), ReadStatus::Data);
    assert_eq!(classify_read_status(0x0500_0302), ReadStatus::Timeout);
    assert_eq!(classify_read_status(0x0500_0301), ReadStatus::Fault(0x0500_0301));
    assert_eq!(classify_read_status(1), ReadStatus::Fault(1));
}

fn status_report(json: &str, terminated: bool) -> Vec<u8> {
    let mut data = vec![0u8; 12];
    data[0] = 0x04;
    data[1..7].copy_from_slice(b"DEVCFG");
    data.extend_from_slice(json.as_bytes());
    if terminated {
        data.push(0);
        data.extend_from_slice(b"junk");
    }
    data
}

#[test]
fn status_reports_give_their_page() {
    let report = status_report("{\"version\": \" V3.010.03.013\", \"scr\": 2, \"os\": \"Windows\"}", true);
    assert_eq!(
        status_report_payload(&report),
        Some(b"{\"version\": \" V3.010.03.013\", \"scr\": 2, \"os\": \"Windows\"}".to_vec())
    );
    assert_eq!(status_report_scr(&report), Some(2));
    assert_eq!(status_report_scr(&status_report("{\"scr\": 0}", true)), Some(0));
    assert_eq!(status_report_scr(&status_report("{\"scr\": -3}", true)), Some(-3));
}

#[test]
fn status_reports_without_a_page_give_none() {
    assert_eq!(status_report_payload(&status_report("{\"scr\": 1}", false)), None);
    assert_eq!(status_report_scr(&status_report("{\"scr\": 1}", false)), None);
    assert_eq!(status_report_scr(&status_report("{\"os\": \"Windows\"}", true)), None);
    assert_eq!(status_report_scr(&status_report("{\"scr\": \"1\"}", true)), None);
    assert_eq!(status_report_scr(&status_report("{\"scr\": 1.5}", true)), None);
    assert_eq!(status_report_scr(&status_report("not json", true)), None);
    assert_eq!(status_report_scr(&status_report("", true)), None);
    let mut other = status_report("{\"scr\": 1}", true);
    other[1] = b'X';
    assert_eq!(status_report_scr(&other), None);
    assert_eq!(status_report_scr(&other[..5]), None);
}

#[test]
fn default_backlight_report_bytes() {
    let report = default_color_report();
    assert_eq!(report.len(), 513);
    assert_eq!(report[0], 0x04);
    assert_eq!(&report[1..4], b"CRT");
    assert_eq!(&report[4..6], &[0, 0]);
    assert_eq!(&report[6..11], b"COLOR");
    assert_eq!(&report[11..15], &[150, 0, 255, 255]);
    assert!(report[15..].iter().all(|&b| b == 0));
}

#[test]
fn commit_report_bytes() {
    let report = commit_report();
    assert_eq!(report.len(), 513);
    assert_eq!(report[0], 0x04);
    assert_eq!(&report[1..4], b"CRT");
    assert_eq!(&report[6..10], b"CPOS");
    assert_eq!(&report[10..12], &[0, 0]);
    assert_eq!(report[12], 0x57);
    assert!(report[13..].iter().all(|&b| b == 0));
}
