//! Report building scenarios: empty matrix, single keys, modifiers,
//! rollover, and the mouse report's button bits and cancelling deltas.

use wavier_keys::keycodes::KeyCodes;
use wavier_keys::matrix::ActivationMatrix;
use wavier_keys::modifier::extract;
use wavier_keys::report::{build_keyboard, build_mouse};
use wavier_keys::resolver::resolve;

fn matrix_with(active: &[(usize, usize)]) -> ActivationMatrix {
    let mut cells = [[false; 15]; 5];
    for &(r, c) in active {
        cells[r][c] = true;
    }
    ActivationMatrix { cells }
}

fn keyboard_report_for(m: &ActivationMatrix) -> wavier_keys::report::KeyboardReport {
    let fn_layer = m.get(2, 14);
    let (keys, overflow) = resolve(m, fn_layer);
    let modifiers = extract(m);
    build_keyboard(&keys, overflow, modifiers)
}

#[test]
fn empty_matrix_yields_zeroed_reports() {
    let m = ActivationMatrix::empty();
    let kb = keyboard_report_for(&m);
    assert_eq!(kb.modifier, 0);
    assert_eq!(kb.reserved, 0);
    assert_eq!(kb.leds, 0);
    assert_eq!(kb.keycodes, [0; 6]);
    let ms = build_mouse(&m);
    assert_eq!(ms.buttons, 0);
    assert_eq!(ms.x, 0);
    assert_eq!(ms.y, 0);
    assert_eq!(ms.wheel, 0);
    assert_eq!(ms.pan, 0);
}

#[test]
fn single_letter_key_fills_slot_zero() {
    // (1, 1) carries KeyQ, HID usage 0x14.
    let m = matrix_with(&[(1, 1)]);
    let kb = keyboard_report_for(&m);
    assert_eq!(kb.modifier, 0);
    assert_eq!(kb.keycodes, [0x14, 0, 0, 0, 0, 0]);
}

#[test]
fn left_shift_with_letter_sets_modifier_bit_one() {
    // (3, 0) is the left-shift cell; (1, 1) carries KeyQ.
    let m = matrix_with(&[(3, 0), (1, 1)]);
    let kb = keyboard_report_for(&m);
    assert_eq!(kb.modifier, 0b0000_0010);
    assert_eq!(kb.keycodes, [0x14, 0, 0, 0, 0, 0]);
}

#[test]
fn seven_keys_fill_every_slot_with_the_rollover_sentinel() {
    let m = matrix_with(&[(0, 1), (0, 2), (0, 3), (0, 4), (0, 5), (0, 6), (0, 7)]);
    let kb = keyboard_report_for(&m);
    assert_eq!(kb.keycodes, [0x01; 6]);
}

#[test]
fn modifier_byte_survives_rollover() {
    let m = matrix_with(&[(0, 1), (0, 2), (0, 3), (0, 4), (0, 5), (0, 6), (0, 7), (4, 0)]);
    let kb = keyboard_report_for(&m);
    assert_eq!(kb.keycodes, [0x01; 6]);
    assert_eq!(kb.modifier, 0b0000_0001);
}

#[test]
fn function_layer_changes_the_top_row_mapping() {
    // The function-layer cell (2, 14) plus (0, 1): F1 instead of Key1.
    let m = matrix_with(&[(2, 14), (0, 1)]);
    let kb = keyboard_report_for(&m);
    assert_eq!(kb.keycodes, [0x3a, 0, 0, 0, 0, 0]);
    let base = matrix_with(&[(0, 1)]);
    let kb_base = keyboard_report_for(&base);
    assert_eq!(kb_base.keycodes, [0x1e, 0, 0, 0, 0, 0]);
}

#[test]
fn keyboard_builder_zero_fills_trailing_slots() {
    let keys = vec![KeyCodes::KeyA, KeyCodes::KeyB];
    let kb = build_keyboard(&keys, false, 0);
    assert_eq!(kb.keycodes, [0x04, 0x05, 0, 0, 0, 0]);
}

#[test]
fn keyboard_builder_overflow_ignores_the_key_list() {
    let keys = vec![KeyCodes::ErrOvf; 6];
    let kb = build_keyboard(&keys, true, 0x05);
    assert_eq!(kb.keycodes, [0x01; 6]);
    assert_eq!(kb.modifier, 0x05);
}

#[test]
fn mouse_buttons_set_independent_bits() {
    let left = build_mouse(&matrix_with(&[(2, 10)]));
    assert_eq!(left.buttons, 0b01);
    let right = build_mouse(&matrix_with(&[(2, 11)]));
    assert_eq!(right.buttons, 0b10);
    let both = build_mouse(&matrix_with(&[(2, 10), (2, 11)]));
    assert_eq!(both.buttons, 0b11);
}

#[test]
fn mouse_deltas_follow_the_directional_cells() {
    let left = build_mouse(&matrix_with(&[(2, 6)]));
    assert_eq!((left.x, left.y), (-3, 0));
    let right = build_mouse(&matrix_with(&[(2, 9)]));
    assert_eq!((right.x, right.y), (3, 0));
    let up = build_mouse(&matrix_with(&[(2, 8)]));
    assert_eq!((up.x, up.y), (0, -3));
    let down = build_mouse(&matrix_with(&[(2, 7)]));
    assert_eq!((down.x, down.y), (0, 3));
}

#[test]
fn opposite_mouse_directions_cancel_arithmetically() {
    let m = matrix_with(&[(2, 6), (2, 9), (2, 8), (2, 7)]);
    let ms = build_mouse(&m);
    assert_eq!(ms.x, 0);
    assert_eq!(ms.y, 0);
}
