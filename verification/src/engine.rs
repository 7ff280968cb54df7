//! Per-cycle orchestration: route a fresh activation matrix to the
//! keyboard or the mouse channel and compose the report to submit.  The
//! caller drives the tick loop, performs the hardware sweep, and hands the
//! chosen report to the transport.

use crate::keycodes::KeyCodes;
use crate::layout::{FN_KEY_COL, FN_KEY_ROW, MODE_KEY_COL, MODE_KEY_ROW};
use crate::matrix::ActivationMatrix;
use crate::modifier::{extract, spec_modifiers};
use crate::report::{
    build_keyboard, build_mouse, spec_mouse_buttons, spec_mouse_x, spec_mouse_y, KeyboardReport,
    MouseReport,
};
use crate::resolver::{resolve, resolved_keys};
use vstd::prelude::*;

verus! {

/// Whether the function layer is engaged: its key cell is held.
pub open spec fn fn_layer_engaged(m: ActivationMatrix) -> bool {
    m.active(FN_KEY_ROW as int, FN_KEY_COL as int)
}

/// Whether this cycle routes to the keyboard channel (the mode-switch cell
/// is inactive); an active mode-switch cell routes to the mouse channel.
pub open spec fn spec_routes_keyboard(m: ActivationMatrix) -> bool {
    !m.active(MODE_KEY_ROW as int, MODE_KEY_COL as int)
}

/// Read the routing decision for this cycle from the mode-switch cell:
/// `true` for keyboard, `false` for mouse.
pub fn mode_switch(m: &ActivationMatrix) -> (keyboard: bool)
    ensures
        keyboard == spec_routes_keyboard(*m),
{
    !m.get(MODE_KEY_ROW, MODE_KEY_COL)
}

/// The six key-code slots owed for a matrix: the resolved keys in row-major
/// order padded with zeros, or six rollover sentinels past six keys.
pub open spec fn spec_keyboard_slots(m: ActivationMatrix) -> Seq<u8> {
    let keys = resolved_keys(m, fn_layer_engaged(m));
    if keys.len() <= 6 {
        Seq::new(6, |i: int| if i < keys.len() { keys[i].spec_code() } else { 0u8 })
    } else {
        Seq::new(6, |i: int| KeyCodes::ErrOvf.spec_code())
    }
}

/// What the keyboard report for a matrix must hold.
pub open spec fn keyboard_report_matches(m: ActivationMatrix, rep: KeyboardReport) -> bool {
    &&& rep.modifier == spec_modifiers(m)
    &&& rep.reserved == 0
    &&& rep.leds == 0
    &&& rep.keycodes@ == spec_keyboard_slots(m)
}

/// What the mouse report for a matrix must hold.
pub open spec fn mouse_report_matches(m: ActivationMatrix, rep: MouseReport) -> bool {
    &&& rep.buttons == spec_mouse_buttons(m)
    &&& rep.x as int == spec_mouse_x(m)
    &&& rep.y as int == spec_mouse_y(m)
    &&& rep.wheel == 0
    &&& rep.pan == 0
}

/// What one scan cycle asks the transport to do: with an empty matrix,
/// submit a zeroed report on both channels; otherwise submit the composed
/// report on the routed channel.
pub enum ReportAction {
    Idle { keyboard: KeyboardReport, mouse: MouseReport },
    Keyboard { report: KeyboardReport },
    Mouse { report: MouseReport },
}

/// Turn one scanned matrix into the report action for this cycle.
pub fn process_matrix(m: &ActivationMatrix) -> (a: ReportAction)
    ensures
        !m.spec_any_active() ==> (a matches ReportAction::Idle { keyboard, mouse }
            && keyboard.modifier == 0 && keyboard.reserved == 0 && keyboard.leds == 0 && (forall|
            i: int,
        |
            0 <= i < 6 ==> keyboard.keycodes[i] == 0) && mouse.buttons == 0 && mouse.x == 0
            && mouse.y == 0 && mouse.wheel == 0 && mouse.pan == 0),
        m.spec_any_active() && spec_routes_keyboard(*m) ==> (a matches ReportAction::Keyboard {
            report,
        } && keyboard_report_matches(*m, report)),
        m.spec_any_active() && !spec_routes_keyboard(*m) ==> (a matches ReportAction::Mouse {
            report,
        } && mouse_report_matches(*m, report)),
{
    if !m.any_active() {
        let keyboard = KeyboardReport {
            modifier: 0,
            reserved: 0,
            leds: 0,
            keycodes: [0, 0, 0, 0, 0, 0],
        };
        let mouse = MouseReport { buttons: 0, x: 0, y: 0, wheel: 0, pan: 0 };
        ReportAction::Idle { keyboard, mouse }
    } else if mode_switch(m) {
        let fn_layer = m.get(FN_KEY_ROW, FN_KEY_COL);
        let (keys, overflow) = resolve(m, fn_layer);
        let modifiers = extract(m);
        let report = build_keyboard(&keys, overflow, modifiers);
        proof {
            assert(report.keycodes@ =~= spec_keyboard_slots(*m));
        }
        ReportAction::Keyboard { report }
    } else {
        let report = build_mouse(m);
        ReportAction::Mouse { report }
    }
}

} // verus!
