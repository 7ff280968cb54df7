//! The report builder: composes boot-protocol keyboard and mouse reports
//! from resolver and extractor output.  Field layout follows the HID boot
//! protocol: 8 keyboard bytes, 5 mouse bytes.

use crate::keycodes::KeyCodes;
use crate::layout::{
    LEFT_BUTTON_COL, LEFT_BUTTON_ROW, MOVE_DOWN_COL, MOVE_DOWN_ROW, MOVE_LEFT_COL, MOVE_LEFT_ROW,
    MOVE_RIGHT_COL, MOVE_RIGHT_ROW, MOVE_UP_COL, MOVE_UP_ROW, RIGHT_BUTTON_COL, RIGHT_BUTTON_ROW,
};
use crate::matrix::ActivationMatrix;
use vstd::prelude::*;

verus! {

/// How far one active directional cell moves the pointer per report.
pub const MOUSE_STEP: i8 = 3;

/// A boot-protocol keyboard input report: modifier byte, reserved byte,
/// LED byte (always 0 here), and six key-code slots (0 = empty slot).
#[derive(Clone, Copy, Debug, PartialEq, Eq)]
pub struct KeyboardReport {
    pub modifier: u8,
    pub reserved: u8,
    pub leds: u8,
    pub keycodes: [u8; 6],
}

/// A boot-protocol mouse input report: button bitmask (bit 0 = left,
/// bit 1 = right), relative X and Y deltas, wheel and pan (always 0 here).
#[derive(Clone, Copy, Debug, PartialEq, Eq)]
pub struct MouseReport {
    pub buttons: u8,
    pub x: i8,
    pub y: i8,
    pub wheel: i8,
    pub pan: i8,
}

/// Compose a keyboard report from resolved keys, the overflow flag and the
/// modifier byte.  Keys fill the slots in resolution order with trailing
/// zeros; on overflow every slot carries the error-rollover sentinel, while
/// the modifier byte is still included.
pub fn build_keyboard(keys: &Vec<KeyCodes>, overflow: bool, modifiers: u8) -> (rep: KeyboardReport)
    requires
        !overflow ==> keys@.len() <= 6,
    ensures
        rep.modifier == modifiers,
        rep.reserved == 0,
        rep.leds == 0,
        !overflow ==> forall|i: int|
            0 <= i < 6 ==> rep.keycodes[i] == (if i < keys@.len() {
                keys@[i].spec_code()
            } else {
                0u8
            }),
        overflow ==> forall|i: int| 0 <= i < 6 ==> rep.keycodes[i] == KeyCodes::ErrOvf.spec_code(),
{
    let mut slots: [u8; 6] = [0; 6];
    if overflow {
        let sentinel: u8 = KeyCodes::ErrOvf.code();
        slots = [sentinel; 6];
    } else {
        let mut i: usize = 0;
        while i < keys.len()
            invariant
                i <= keys@.len() <= 6,
                forall|j: int| 0 <= j < i ==> slots[j] == keys@[j].spec_code(),
                forall|j: int| i <= j < 6 ==> slots[j] == 0,
            decreases keys@.len() - i,
        {
            slots[i] = keys[i].code();
            i += 1;
        }
    }
    KeyboardReport { modifier: modifiers, reserved: 0, leds: 0, keycodes: slots }
}

/// The mouse button bitmask read from the two dedicated button cells.
pub open spec fn spec_mouse_buttons(m: ActivationMatrix) -> u8 {
    (if m.active(LEFT_BUTTON_ROW as int, LEFT_BUTTON_COL as int) {
        1u8
    } else {
        0u8
    }) | (if m.active(RIGHT_BUTTON_ROW as int, RIGHT_BUTTON_COL as int) {
        2u8
    } else {
        0u8
    })
}

/// The X delta: left and right directional cells contribute opposing fixed
/// steps; simultaneous opposite signals cancel arithmetically.
pub open spec fn spec_mouse_x(m: ActivationMatrix) -> int {
    (if m.active(MOVE_LEFT_ROW as int, MOVE_LEFT_COL as int) {
        -(MOUSE_STEP as int)
    } else {
        0
    }) + (if m.active(MOVE_RIGHT_ROW as int, MOVE_RIGHT_COL as int) {
        MOUSE_STEP as int
    } else {
        0
    })
}

/// The Y delta: up is negative, down positive, cancelling as for X.
pub open spec fn spec_mouse_y(m: ActivationMatrix) -> int {
    (if m.active(MOVE_UP_ROW as int, MOVE_UP_COL as int) {
        -(MOUSE_STEP as int)
    } else {
        0
    }) + (if m.active(MOVE_DOWN_ROW as int, MOVE_DOWN_COL as int) {
        MOUSE_STEP as int
    } else {
        0
    })
}

/// Compose a mouse report from the dedicated directional and button cells.
pub fn build_mouse(m: &ActivationMatrix) -> (rep: MouseReport)
    ensures
        rep.buttons == spec_mouse_buttons(*m),
        rep.x as int == spec_mouse_x(*m),
        rep.y as int == spec_mouse_y(*m),
        rep.wheel == 0,
        rep.pan == 0,
{
    let bl: u8 = if m.get(LEFT_BUTTON_ROW, LEFT_BUTTON_COL) {
        1
    } else {
        0
    };
    let br: u8 = if m.get(RIGHT_BUTTON_ROW, RIGHT_BUTTON_COL) {
        2
    } else {
        0
    };
    let mut x: i8 = 0;
    let mut y: i8 = 0;
    if m.get(MOVE_LEFT_ROW, MOVE_LEFT_COL) {
        x = x - MOUSE_STEP;
    }
    if m.get(MOVE_RIGHT_ROW, MOVE_RIGHT_COL) {
        x = x + MOUSE_STEP;
    }
    if m.get(MOVE_UP_ROW, MOVE_UP_COL) {
        y = y - MOUSE_STEP;
    }
    if m.get(MOVE_DOWN_ROW, MOVE_DOWN_COL) {
        y = y + MOUSE_STEP;
    }
    MouseReport { buttons: bl | br, x, y, wheel: 0, pan: 0 }
}

} // verus!
