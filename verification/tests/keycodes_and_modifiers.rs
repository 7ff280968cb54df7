//! Key-code values against the HID usage table, modifier mask bits, and
//! modifier extraction as a pure function of its eight fixed cells.

use wavier_keys::keycodes::{KeyCodes, ModifierMasks};
use wavier_keys::matrix::ActivationMatrix;
use wavier_keys::modifier::extract;

fn matrix_with(active: &[(usize, usize)]) -> ActivationMatrix {
    let mut cells = [[false; 15]; 5];
    for &(r, c) in active {
        cells[r][c] = true;
    }
    ActivationMatrix { cells }
}

const MODIFIER_CELLS: [((usize, usize), u8); 8] = [
    ((4, 0), 0x01),  // left ctrl
    ((3, 0), 0x02),  // left shift
    ((4, 2), 0x04),  // left alt
    ((4, 1), 0x08),  // left gui
    ((4, 10), 0x10), // right ctrl
    ((3, 11), 0x20), // right shift
    ((4, 8), 0x40),  // right alt
    ((4, 9), 0x80),  // right gui
];

#[test]
fn key_codes_match_the_hid_usage_table() {
    assert_eq!(KeyCodes::Reserved.code(), 0x00);
    assert_eq!(KeyCodes::ErrOvf.code(), 0x01);
    assert_eq!(KeyCodes::KeyA.code(), 0x04);
    assert_eq!(KeyCodes::KeyZ.code(), 0x1d);
    assert_eq!(KeyCodes::Key1.code(), 0x1e);
    assert_eq!(KeyCodes::Key0.code(), 0x27);
    assert_eq!(KeyCodes::Enter.code(), 0x28);
    assert_eq!(KeyCodes::Space.code(), 0x2c);
    assert_eq!(KeyCodes::F1.code(), 0x3a);
    assert_eq!(KeyCodes::F12.code(), 0x45);
    assert_eq!(KeyCodes::F13.code(), 0x68);
    assert_eq!(KeyCodes::Right.code(), 0x4f);
    assert_eq!(KeyCodes::Up.code(), 0x52);
    assert_eq!(KeyCodes::K00.code(), 0xb0);
    assert_eq!(KeyCodes::LeftCtrl.code(), 0xe0);
    assert_eq!(KeyCodes::RightMeta.code(), 0xe7);
    assert_eq!(KeyCodes::MediaPlayPause.code(), 0xe8);
    assert_eq!(KeyCodes::MediaCalc.code(), 0xfb);
}

#[test]
fn modifier_masks_cover_the_eight_bits_in_order() {
    let masks = [
        ModifierMasks::LeftCtrl,
        ModifierMasks::LeftShift,
        ModifierMasks::LeftAlt,
        ModifierMasks::LeftGui,
        ModifierMasks::RightCtrl,
        ModifierMasks::RightShift,
        ModifierMasks::RightAlt,
        ModifierMasks::RightGui,
    ];
    for (i, mm) in masks.iter().enumerate() {
        assert_eq!(mm.mask(), 1u8 << i);
    }
}

#[test]
fn each_modifier_cell_sets_exactly_its_own_bit() {
    for &((r, c), bit) in MODIFIER_CELLS.iter() {
        let m = matrix_with(&[(r, c)]);
        assert_eq!(extract(&m), bit);
    }
}

#[test]
fn toggling_one_modifier_cell_toggles_exactly_one_bit() {
    // Against a background with some other modifiers held, flipping one
    // modifier cell changes precisely its own bit.
    let background = [(4, 0), (3, 11)];
    for &((r, c), bit) in MODIFIER_CELLS.iter() {
        let without = matrix_with(&background);
        let mut with_cells = background.to_vec();
        with_cells.push((r, c));
        let with = matrix_with(&with_cells);
        let a = extract(&without);
        let b = extract(&with);
        if background.contains(&(r, c)) {
            assert_eq!(a, b);
        } else {
            assert_eq!(a ^ b, bit);
        }
    }
}

#[test]
fn modifier_extraction_ignores_every_other_cell() {
    // Activate every cell that is not one of the eight modifier cells.
    let mut cells = [[true; 15]; 5];
    for &((r, c), _) in MODIFIER_CELLS.iter() {
        cells[r][c] = false;
    }
    let m = ActivationMatrix { cells };
    assert_eq!(extract(&m), 0);
    assert_eq!(extract(&ActivationMatrix::empty()), 0);
}

#[test]
fn all_eight_modifiers_together_fill_the_byte() {
    let positions: Vec<(usize, usize)> = MODIFIER_CELLS.iter().map(|&(p, _)| p).collect();
    let m = matrix_with(&positions);
    assert_eq!(extract(&m), 0xff);
}
