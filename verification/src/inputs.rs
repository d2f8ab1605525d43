//! Decoding of polled input lines.
//!
//! Each tick the pad hands back one raw byte over the bus, and three
//! auxiliary lines (left bump, right bump, menu) are sampled directly.
//! The byte decodes to one of the discrete pad codes below, or to zero
//! when it is unrecognized or the bus read failed; zero reads as "no new
//! input" and leaves the motion state untouched.  The auxiliary lines
//! produce at most one token per poll, with a fixed overwrite precedence:
//! left bump, then right bump, then menu, so menu wins when all three are
//! asserted.

use vstd::prelude::*;

verus! {

pub const NUMPAD_UP: u8 = 0b1111_1011;

pub const NUMPAD_DOWN: u8 = 0b1111_0111;

pub const NUMPAD_LEFT: u8 = 0b1110_1111;

pub const NUMPAD_RIGHT: u8 = 0b1101_1111;

pub const NUMPAD_SELECT: u8 = 0b1111_1101;

pub const NUMPAD_START: u8 = 0b1111_1110;

pub const NUMPAD_BUTTON_A: u8 = 0b1011_1111;

pub const NUMPAD_BUTTON_B: u8 = 0b0111_1111;

pub const NUMPAD_IDLE: u8 = 0b1111_1111;

/// True of the four codes that command movement.
pub open spec fn is_directional(code: u8) -> bool {
    ||| code == NUMPAD_UP
    ||| code == NUMPAD_DOWN
    ||| code == NUMPAD_LEFT
    ||| code == NUMPAD_RIGHT
}

/// True of every code the pad can report.
pub open spec fn is_known_code(code: u8) -> bool {
    ||| is_directional(code)
    ||| code == NUMPAD_SELECT
    ||| code == NUMPAD_START
    ||| code == NUMPAD_BUTTON_A
    ||| code == NUMPAD_BUTTON_B
    ||| code == NUMPAD_IDLE
}

/// The code a raw pad byte decodes to: a recognized code passes through,
/// anything else reads as zero ("no new input").
pub open spec fn decoded_code(byte: u8) -> u8 {
    if is_known_code(byte) {
        byte
    } else {
        0
    }
}

/// Filters a raw pad byte down to the recognized codes.
pub fn decode_code(byte: u8) -> (code: u8)
    ensures
        code == decoded_code(byte),
{
    if byte == NUMPAD_UP || byte == NUMPAD_DOWN || byte == NUMPAD_LEFT || byte == NUMPAD_RIGHT
        || byte == NUMPAD_SELECT || byte == NUMPAD_START || byte == NUMPAD_BUTTON_A || byte
        == NUMPAD_BUTTON_B || byte == NUMPAD_IDLE {
        byte
    } else {
        0
    }
}

/// The auxiliary token for one poll of the three side lines.
///
/// Each active line overwrites the token of the one checked before it:
/// left bump, then right bump, then menu, so menu's token stands whenever
/// its line is low.
pub fn aux_token(left_low: bool, right_low: bool, menu_low: bool) -> (token: String)
    ensures
        menu_low ==> token@ == "BUMP"@,
        !menu_low && right_low ==> token@ == "RIGHT_BUMP"@,
        !menu_low && !right_low && left_low ==> token@ == "LEFT_BUMP"@,
        !menu_low && !right_low && !left_low ==> token@ == ""@,
{
    proof {
        reveal_strlit("");
    }
    let mut token = String::new();
    if left_low {
        token = "LEFT_BUMP".to_owned();
    }
    if right_low {
        token = "RIGHT_BUMP".to_owned();
    }
    if menu_low {
        token = "BUMP".to_owned();
    }
    token
}

/// Decodes one whole poll: the raw pad byte (or `None` when the bus read
/// failed, which reads as "no new input") together with the three
/// auxiliary lines.
pub fn decode_poll(pad_byte: Option<u8>, left_low: bool, right_low: bool, menu_low: bool) -> (r: (
    u8,
    String,
))
    ensures
        r.0 == match pad_byte {
            Some(b) => decoded_code(b),
            None => 0,
        },
        menu_low ==> r.1@ == "BUMP"@,
        !menu_low && right_low ==> r.1@ == "RIGHT_BUMP"@,
        !menu_low && !right_low && left_low ==> r.1@ == "LEFT_BUMP"@,
        !menu_low && !right_low && !left_low ==> r.1@ == ""@,
{
    let code = match pad_byte {
        Some(b) => decode_code(b),
        None => 0,
    };
    (code, aux_token(left_low, right_low, menu_low))
}

} // verus!
