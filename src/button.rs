use vstd::prelude::*;

verus! {

/// A red, green and blue intensity for the button's light.
#[derive(Clone, Copy, Debug, PartialEq, Eq, Structural)]
pub struct Color(pub u8, pub u8, pub u8);

/// Length of the report that configures the button.
pub const CONFIG_REPORT_LEN: usize = 64;

/// First byte of a report that sets the light's colour.
pub const SET_COLOR_TAG: u8 = 1;

/// The two header bytes that open a configuration report.
pub const CONFIG_HEADER_0: u8 = 0x50;

pub const CONFIG_HEADER_1: u8 = 0xdd;

/// The button sends both its key sequences.
pub const ACTION_BOTH: u8 = 2;

/// Key codes used in the button's key sequences.
pub const KEY_T: u8 = 0x17;

pub const KEY_U: u8 = 0x18;

pub const KEY_CTRL_LEFT: u8 = 0x70;

pub const KEY_ALT_LEFT: u8 = 0x72;

pub const KEY_CMD_LEFT: u8 = 0x73;

/// Where the primary and the secondary key sequences start in a
/// configuration report.
pub const PRIMARY_KEYS_AT: usize = 10;

pub const SECONDARY_KEYS_AT: usize = 34;

/// The report that sets the light to `color`.
pub open spec fn color_report_spec(color: Color) -> Seq<u8> {
    seq![SET_COLOR_TAG, color.0, color.1, color.2]
}

/// Byte `i` of the configuration report: a header, the colours shown while
/// released and while pressed, and two key sequences (control, alt and
/// command, then `T` for the primary and `U` for the secondary); every other
/// byte is zero.
pub open spec fn config_byte(released: Color, pressed: Color, i: int) -> u8 {
    if i == 0 {
        CONFIG_HEADER_0
    } else if i == 1 {
        CONFIG_HEADER_1
    } else if i == 2 {
        ACTION_BOTH
    } else if i == 4 {
        released.0
    } else if i == 5 {
        released.1
    } else if i == 6 {
        released.2
    } else if i == 7 {
        pressed.0
    } else if i == 8 {
        pressed.1
    } else if i == 9 {
        pressed.2
    } else if i == PRIMARY_KEYS_AT || i == SECONDARY_KEYS_AT {
        KEY_CTRL_LEFT
    } else if i == PRIMARY_KEYS_AT + 1 || i == SECONDARY_KEYS_AT + 1 {
        KEY_ALT_LEFT
    } else if i == PRIMARY_KEYS_AT + 2 || i == SECONDARY_KEYS_AT + 2 {
        KEY_CMD_LEFT
    } else if i == PRIMARY_KEYS_AT + 3 {
        KEY_T
    } else if i == SECONDARY_KEYS_AT + 3 {
        KEY_U
    } else {
        0
    }
}

/// The report that sets the light to `color`.
pub fn color_report(color: &Color) -> (r: Vec<u8>)
    ensures
        r@ == color_report_spec(*color),
{
    vec![SET_COLOR_TAG, color.0, color.1, color.2]
}

/// The configuration report: the colour shown while released, the colour
/// shown while pressed, and the key sequences the button sends.
pub fn config_report(released: &Color, pressed: &Color) -> (r: Vec<u8>)
    ensures
        r@.len() == CONFIG_REPORT_LEN,
        forall|i: int| 0 <= i < CONFIG_REPORT_LEN ==> r@[i] == config_byte(*released, *pressed, i),
{
    let mut buf: Vec<u8> = Vec::new();
    let mut i: usize = 0;
    while i < CONFIG_REPORT_LEN
        invariant
            i <= CONFIG_REPORT_LEN,
            buf@.len() == i,
            forall|j: int| 0 <= j < i ==> buf@[j] == 0,
        decreases CONFIG_REPORT_LEN - i,
    {
        buf.push(0);
        i = i + 1;
    }
    buf.set(0, CONFIG_HEADER_0);
    buf.set(1, CONFIG_HEADER_1);
    buf.set(2, ACTION_BOTH);
    buf.set(4, released.0);
    buf.set(5, released.1);
    buf.set(6, released.2);
    buf.set(7, pressed.0);
    buf.set(8, pressed.1);
    buf.set(9, pressed.2);
    buf.set(PRIMARY_KEYS_AT, KEY_CTRL_LEFT);
    buf.set(PRIMARY_KEYS_AT + 1, KEY_ALT_LEFT);
    buf.set(PRIMARY_KEYS_AT + 2, KEY_CMD_LEFT);
    buf.set(PRIMARY_KEYS_AT + 3, KEY_T);
    buf.set(SECONDARY_KEYS_AT, KEY_CTRL_LEFT);
    buf.set(SECONDARY_KEYS_AT + 1, KEY_ALT_LEFT);
    buf.set(SECONDARY_KEYS_AT + 2, KEY_CMD_LEFT);
    buf.set(SECONDARY_KEYS_AT + 3, KEY_U);
    buf
}

} // verus!
