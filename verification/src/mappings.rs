//! Logical key positions of the OpenDeck layout and the key codes of the
//! K1 Pro hardware.
use vstd::prelude::*;

verus! {

/// Namespace of the device ids (two characters, as in the plugin manifest).
pub const DEVICE_NAMESPACE: &'static str = "k1";

/// Rows of display keys.
pub const ROW_COUNT: usize = 2;

/// Columns of display keys.
pub const COL_COUNT: usize = 3;

/// Number of display keys.
pub const KEY_COUNT: usize = 6;

/// Number of rotary encoders.
pub const ENCODER_COUNT: usize = 3;

/// The hardware code of a logical position, or `None` outside `0..6`.
///
/// Row 1 holds positions 0, 1, 2 (codes 0x05, 0x03, 0x01); row 2 holds
/// positions 3, 4, 5 (codes 0x06, 0x04, 0x02).
pub open spec fn spec_opendeck_to_device(position: u8) -> Option<u8> {
    if position == 0 {
        Some(0x05u8)
    } else if position == 1 {
        Some(0x03u8)
    } else if position == 2 {
        Some(0x01u8)
    } else if position == 3 {
        Some(0x06u8)
    } else if position == 4 {
        Some(0x04u8)
    } else if position == 5 {
        Some(0x02u8)
    } else {
        None
    }
}

/// The logical position of a hardware key code, or `None` for any other code.
pub open spec fn spec_device_to_opendeck(hw_code: u8) -> Option<u8> {
    if hw_code == 0x05 {
        Some(0u8)
    } else if hw_code == 0x03 {
        Some(1u8)
    } else if hw_code == 0x01 {
        Some(2u8)
    } else if hw_code == 0x06 {
        Some(3u8)
    } else if hw_code == 0x04 {
        Some(4u8)
    } else if hw_code == 0x02 {
        Some(5u8)
    } else {
        None
    }
}

/// Converts an OpenDeck logical position (0..5) to the hardware key code.
pub fn opendeck_to_device(position: u8) -> (code: Option<u8>)
    ensures
        code == spec_opendeck_to_device(position),
{
    match position {
        0 => Some(0x05),
        1 => Some(0x03),
        2 => Some(0x01),
        3 => Some(0x06),
        4 => Some(0x04),
        5 => Some(0x02),
        _ => None,
    }
}

/// Converts a hardware key code to the OpenDeck logical position.
pub fn device_to_opendeck(hw_code: u8) -> (position: Option<u8>)
    ensures
        position == spec_device_to_opendeck(hw_code),
{
    match hw_code {
        0x05 => Some(0),
        0x03 => Some(1),
        0x01 => Some(2),
        0x06 => Some(3),
        0x04 => Some(4),
        0x02 => Some(5),
        _ => None,
    }
}

/// The two conversions are inverse to each other: every logical position
/// below the key count has a code that maps back to it, every code that has a
/// position maps back to that code, and exactly the positions below the key
/// count and the codes 1 to 6 are mapped.
pub proof fn lemma_key_mapping_round_trip(position: u8, hw_code: u8)
    ensures
        spec_opendeck_to_device(position) is Some <==> position < KEY_COUNT,
        spec_device_to_opendeck(hw_code) is Some <==> 1 <= hw_code <= 6,
        spec_opendeck_to_device(position) matches Some(c) ==> spec_device_to_opendeck(c) == Some(
            position,
        ),
        spec_device_to_opendeck(hw_code) matches Some(p) ==> spec_opendeck_to_device(p) == Some(
            hw_code,
        ),
{
}

} // verus!
