//! Reports that the K1 Pro sends on its vendor interface, and the raw
//! backlight reports that the plugin writes to it.
use vstd::prelude::*;

use crate::backlight::{snap_color, spec_snap_color};
use crate::mappings::{device_to_opendeck, spec_device_to_opendeck};
use crate::text::{
    c_string_bytes, first_nul, lemma_first_nul, json_int_member, json_integer_member, lossy_utf8,
    utf8_lossy,
};

verus! {

/// Report id of every vendor report.
pub const REPORT_ID: u8 = 0x04;

/// Status that the host library returns when a read timed out.
pub const READ_TIMEOUT_STATUS: u32 = 0x0500_0302;

/// Size of the raw reports written to the vendor interface.
pub const RAW_REPORT_LEN: usize = 513;

/// What a hardware event code and its state byte stand for.
#[derive(PartialEq, Eq, Structural, Clone, Copy, Debug)]
pub enum InputEvent {
    /// A display key, by logical position, pressed or released.
    Key { position: u8, pressed: bool },
    /// A knob click, pressed or released.
    EncoderPress { knob: u8, pressed: bool },
    /// A knob rotation by one tick (-1 left, +1 right).
    EncoderTurn { knob: u8, ticks: i16 },
    /// A code that the plugin does not handle.
    Unhandled { code: u8 },
}

/// The knob of a click code.
pub open spec fn knob_of_press_code(code: u8) -> Option<u8> {
    if code == 0x25 {
        Some(0u8)
    } else if code == 0x30 {
        Some(1u8)
    } else if code == 0x31 {
        Some(2u8)
    } else {
        None
    }
}

/// The knob and direction of a rotation code.
pub open spec fn turn_of_code(code: u8) -> Option<(u8, i16)> {
    if code == 0x50 {
        Some((0u8, -1i16))
    } else if code == 0x51 {
        Some((0u8, 1i16))
    } else if code == 0x60 {
        Some((1u8, -1i16))
    } else if code == 0x61 {
        Some((1u8, 1i16))
    } else if code == 0x90 {
        Some((2u8, -1i16))
    } else if code == 0x91 {
        Some((2u8, 1i16))
    } else {
        None
    }
}

/// Meaning of a hardware code: display keys first, then knob clicks, then
/// knob rotations. A state byte of 1 is a press, any other value a release.
pub open spec fn spec_classify_input(code: u8, state: u8) -> InputEvent {
    if let Some(position) = spec_device_to_opendeck(code) {
        InputEvent::Key { position, pressed: state == 1 }
    } else if let Some(knob) = knob_of_press_code(code) {
        InputEvent::EncoderPress { knob, pressed: state == 1 }
    } else if let Some((knob, ticks)) = turn_of_code(code) {
        InputEvent::EncoderTurn { knob, ticks }
    } else {
        InputEvent::Unhandled { code }
    }
}

/// Classifies a hardware event code.
pub fn classify_input(code: u8, state: u8) -> (event: InputEvent)
    ensures
        event == spec_classify_input(code, state),
{
    let pressed = state == 0x01;
    if let Some(position) = device_to_opendeck(code) {
        InputEvent::Key { position, pressed }
    } else if code == 0x25 || code == 0x30 || code == 0x31 {
        let knob: u8 = if code == 0x25 {
            0
        } else if code == 0x30 {
            1
        } else {
            2
        };
        InputEvent::EncoderPress { knob, pressed }
    } else if code == 0x50 || code == 0x51 || code == 0x60 || code == 0x61 || code == 0x90
        || code == 0x91 {
        let (knob, ticks): (u8, i16) = if code == 0x50 {
            (0, -1)
        } else if code == 0x51 {
            (0, 1)
        } else if code == 0x60 {
            (1, -1)
        } else if code == 0x61 {
            (1, 1)
        } else if code == 0x90 {
            (2, -1)
        } else {
            (2, 1)
        };
        InputEvent::EncoderTurn { knob, ticks }
    } else {
        InputEvent::Unhandled { code }
    }
}

/// Every classified event stays inside the device layout: positions below
/// six, knobs below three, and rotations of exactly one tick.
pub proof fn lemma_classified_events_in_layout(code: u8, state: u8)
    ensures
        match spec_classify_input(code, state) {
            InputEvent::Key { position, .. } => position < 6,
            InputEvent::EncoderPress { knob, .. } => knob < 3,
            InputEvent::EncoderTurn { knob, ticks } => knob < 3 && (ticks == 1 || ticks == -1),
            InputEvent::Unhandled { code: c } => c == code,
        },
{
}

/// An input report: report id 4, `ACK` at bytes 1 to 3, at least 12 bytes.
pub open spec fn is_input_report(data: Seq<u8>) -> bool {
    &&& data.len() >= 12
    &&& data[0] == 0x04
    &&& data[1] == 65
    &&& data[2] == 67
    &&& data[3] == 75
}

/// Reads the event code (byte 10) and state (byte 11) of an input report;
/// `None` for any other report.
pub fn decode_input_report(data: &[u8]) -> (r: Option<(u8, u8)>)
    ensures
        r == (if is_input_report(data@) {
            Some((data@[10], data@[11]))
        } else {
            None
        }),
{
    if data.len() >= 12 && data[0] == 0x04 && data[1] == 65 && data[2] == 67 && data[3] == 75 {
        Some((data[10], data[11]))
    } else {
        None
    }
}

/// Outcome of a read on the vendor interface.
#[derive(PartialEq, Eq, Structural, Clone, Copy, Debug)]
pub enum ReadStatus {
    /// The read returned data (possibly none).
    Data,
    /// The read timed out; the loop goes on.
    Timeout,
    /// Any other status: the device is gone or broken.
    Fault(u32),
}

/// Classifies the status code of a read.
pub fn classify_read_status(status: u32) -> (r: ReadStatus)
    ensures
        r == (if status == 0 {
            ReadStatus::Data
        } else if status == READ_TIMEOUT_STATUS {
            ReadStatus::Timeout
        } else {
            ReadStatus::Fault(status)
        }),
{
    if status == 0 {
        ReadStatus::Data
    } else if status == READ_TIMEOUT_STATUS {
        ReadStatus::Timeout
    } else {
        ReadStatus::Fault(status)
    }
}

/// A status report: report id 4, `DEVCFG` at bytes 1 to 6, at least 12 bytes.
pub open spec fn is_status_report(data: Seq<u8>) -> bool {
    &&& data.len() >= 12
    &&& data[0] == 0x04
    &&& data[1] == 68
    &&& data[2] == 69
    &&& data[3] == 86
    &&& data[4] == 67
    &&& data[5] == 70
    &&& data[6] == 71
}

/// The JSON bytes of a status report: from byte 12 up to the first zero
/// byte; `None` when the report is no status report or the JSON is not
/// terminated.
pub open spec fn spec_status_payload(data: Seq<u8>) -> Option<Seq<u8>> {
    if is_status_report(data) && first_nul(data.skip(12)) is Some {
        Some(c_string_bytes(data.skip(12)))
    } else {
        None
    }
}

/// Extracts the JSON bytes of a status report.
pub fn status_report_payload(data: &[u8]) -> (r: Option<Vec<u8>>)
    ensures
        match r {
            Some(v) => spec_status_payload(data@) == Some(v@),
            None => spec_status_payload(data@) is None,
        },
{
    if data.len() >= 12 && data[0] == 0x04 && data[1] == 68 && data[2] == 69 && data[3] == 86
        && data[4] == 67 && data[5] == 70 && data[6] == 71 {
        let n = data.len();
        let mut json: Vec<u8> = Vec::new();
        let mut i: usize = 12;
        while i < n
            invariant
                n == data@.len(),
                12 <= i <= n,
                is_status_report(data@),
                json@ == data@.subrange(12, i as int),
                forall|j: int| 12 <= j < i ==> data@[j] != 0,
            decreases n - i,
        {
            if data[i] == 0 {
                proof {
                    let rest = data@.skip(12);
                    assert(json@ =~= rest.take(i - 12));
                    assert forall|j: int| 0 <= j < i - 12 implies rest[j] != 0 by {
                        assert(rest[j] == data@[j + 12]);
                    }
                    lemma_first_nul(rest, i - 12);
                    assert(c_string_bytes(rest) == rest.take(i - 12));
                    assert(is_status_report(data@));
                }
                return Some(json);
            }
            json.push(data[i]);
            i = i + 1;
        }
        proof {
            let rest = data@.skip(12);
            assert forall|j: int| 0 <= j < rest.len() implies rest[j] != 0 by {
                assert(rest[j] == data@[j + 12]);
            }
        }
        None
    } else {
        None
    }
}

/// The screen page (`scr`) that a status report announces.
pub open spec fn spec_status_scr(data: Seq<u8>) -> Option<i64> {
    match spec_status_payload(data) {
        Some(json) => json_int_member(lossy_utf8(json), "scr"@),
        None => None,
    }
}

/// Reads the screen page (`scr`) of a status report: the JSON text is
/// decoded the lossy way and its integer member `scr` is read.
pub fn status_report_scr(data: &[u8]) -> (r: Option<i64>)
    ensures
        r == spec_status_scr(data@),
{
    match status_report_payload(data) {
        Some(json) => {
            let text = utf8_lossy(json.as_slice());
            json_integer_member(text.as_str(), "scr")
        },
        None => None,
    }
}

/// The raw `COLOR` report that sets the default backlight: the default
/// cyan (0, 150, 255) in its saturated form at the fixed hardware brightness.
pub open spec fn spec_default_color_report() -> Seq<u8> {
    spec_color_report(spec_snap_color((0u8, 150u8, 255u8)))
}

/// The raw `CPOS` report that commits backlight settings in Windows mode:
/// `CRT` at 1..4, `CPOS` at 6..10, `W` at 12, zero elsewhere.
pub open spec fn spec_commit_report() -> Seq<u8> {
    Seq::new(
        513,
        |i: int|
            if i == 0 {
                4u8
            } else if i == 1 {
                67u8
            } else if i == 2 {
                82u8
            } else if i == 3 {
                84u8
            } else if i == 6 {
                67u8
            } else if i == 7 {
                80u8
            } else if i == 8 {
                79u8
            } else if i == 9 {
                83u8
            } else if i == 12 {
                0x57u8
            } else {
                0u8
            },
    )
}

/// Builds a raw report of 513 zero bytes with the given bytes set.
fn raw_report(entries: &[(usize, u8)]) -> (report: Vec<u8>)
    requires
        forall|k: int| 0 <= k < entries@.len() ==> entries@[k].0 < RAW_REPORT_LEN,
    ensures
        report@.len() == RAW_REPORT_LEN,
        forall|i: int|
            0 <= i < RAW_REPORT_LEN ==> report@[i] == last_entry_value(entries@, i),
{
    let mut report: Vec<u8> = vec![0u8; RAW_REPORT_LEN];
    let n = entries.len();
    for k in 0..n
        invariant
            n == entries@.len(),
            forall|k: int| 0 <= k < entries@.len() ==> entries@[k].0 < RAW_REPORT_LEN,
            report@.len() == RAW_REPORT_LEN,
            forall|i: int|
                0 <= i < RAW_REPORT_LEN ==> report@[i] == last_entry_value(
                    entries@.take(k as int),
                    i,
                ),
    {
        let (at, value) = entries[k];
        report.set(at, value);
        proof {
            assert forall|i: int| 0 <= i < RAW_REPORT_LEN implies report@[i] == last_entry_value(
                entries@.take(k + 1),
                i,
            ) by {
                assert(entries@.take(k + 1).drop_last() =~= entries@.take(k as int));
            }
        }
    }
    assert(entries@.take(n as int) =~= entries@);
    report
}

/// The value that the last entry for index `i` sets, or zero.
pub open spec fn last_entry_value(entries: Seq<(usize, u8)>, i: int) -> u8
    decreases entries.len(),
{
    if entries.len() == 0 {
        0
    } else if entries.last().0 == i {
        entries.last().1
    } else {
        last_entry_value(entries.drop_last(), i)
    }
}

/// Builds the default `COLOR` report: brightness 150 and the colour
/// (0, 255, 255).
pub fn default_color_report() -> (report: Vec<u8>)
    ensures
        report@ == spec_default_color_report(),
        report@ == spec_color_report((0u8, 255u8, 255u8)),
{
    let report = color_report(snap_color((0, 150, 255)));
    assert(spec_snap_color((0u8, 150u8, 255u8)) == (0u8, 255u8, 255u8));
    report
}

/// Builds the `CPOS` commit report.
pub fn commit_report() -> (report: Vec<u8>)
    ensures
        report@ == spec_commit_report(),
{
    let entries: [(usize, u8); 9] = [
        (0, 4),
        (1, 67),
        (2, 82),
        (3, 84),
        (6, 67),
        (7, 80),
        (8, 79),
        (9, 83),
        (12, 0x57),
    ];
    let report = raw_report(&entries);
    proof {
        reveal_with_fuel(last_entry_value, 10);
    }
    assert(report@ =~= spec_commit_report());
    report
}

/// The raw `COLOR` report for a colour at the fixed hardware brightness 150:
/// `CRT` at 1..4, `COLOR` at 6..11, 150 at 11, red, green, blue at 12..15,
/// zero elsewhere.
pub open spec fn spec_color_report(c: (u8, u8, u8)) -> Seq<u8> {
    Seq::new(
        513,
        |i: int|
            if i == 0 {
                4u8
            } else if i == 1 {
                67u8
            } else if i == 2 {
                82u8
            } else if i == 3 {
                84u8
            } else if i == 6 {
                67u8
            } else if i == 7 {
                79u8
            } else if i == 8 {
                76u8
            } else if i == 9 {
                79u8
            } else if i == 10 {
                82u8
            } else if i == 11 {
                150u8
            } else if i == 12 {
                c.0
            } else if i == 13 {
                c.1
            } else if i == 14 {
                c.2
            } else {
                0u8
            },
    )
}

/// Builds the raw `COLOR` report for a colour.
pub fn color_report(c: (u8, u8, u8)) -> (report: Vec<u8>)
    ensures
        report@ == spec_color_report(c),
{
    let entries: [(usize, u8); 10] = [
        (0, 4),
        (1, 67),
        (2, 82),
        (3, 84),
        (6, 67),
        (7, 79),
        (8, 76),
        (9, 79),
        (10, 82),
        (11, 150),
    ];
    let mut report = raw_report(&entries);
    report.set(12, c.0);
    report.set(13, c.1);
    report.set(14, c.2);
    proof {
        reveal_with_fuel(last_entry_value, 11);
    }
    assert(report@ =~= spec_color_report(c));
    report
}

/// The hardware codes of the device reference: knob clicks 0x25, 0x30,
/// 0x31 for knobs 0, 1, 2; rotations 0x50/0x51, 0x60/0x61, 0x90/0x91 left (-1)
/// and right (+1) for knobs 0, 1, 2; a state byte of 1 is a press.
pub proof fn lemma_knob_codes(state: u8)
    ensures
        spec_classify_input(0x25, state) == (InputEvent::EncoderPress { knob: 0, pressed: state == 1 }),
        spec_classify_input(0x30, state) == (InputEvent::EncoderPress { knob: 1, pressed: state == 1 }),
        spec_classify_input(0x31, state) == (InputEvent::EncoderPress { knob: 2, pressed: state == 1 }),
        spec_classify_input(0x50, state) == (InputEvent::EncoderTurn { knob: 0, ticks: -1i16 }),
        spec_classify_input(0x51, state) == (InputEvent::EncoderTurn { knob: 0, ticks: 1 }),
        spec_classify_input(0x60, state) == (InputEvent::EncoderTurn { knob: 1, ticks: -1i16 }),
        spec_classify_input(0x61, state) == (InputEvent::EncoderTurn { knob: 1, ticks: 1 }),
        spec_classify_input(0x90, state) == (InputEvent::EncoderTurn { knob: 2, ticks: -1i16 }),
        spec_classify_input(0x91, state) == (InputEvent::EncoderTurn { knob: 2, ticks: 1 }),
        spec_classify_input(0x05, state) == (InputEvent::Key { position: 0, pressed: state == 1 }),
        spec_classify_input(0x03, state) == (InputEvent::Key { position: 1, pressed: state == 1 }),
        spec_classify_input(0x01, state) == (InputEvent::Key { position: 2, pressed: state == 1 }),
        spec_classify_input(0x06, state) == (InputEvent::Key { position: 3, pressed: state == 1 }),
        spec_classify_input(0x04, state) == (InputEvent::Key { position: 4, pressed: state == 1 }),
        spec_classify_input(0x02, state) == (InputEvent::Key { position: 5, pressed: state == 1 }),
{
}

} // verus!
