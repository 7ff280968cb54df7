//! Layout resolution: row-major ordering, the six-key cap with the
//! all-or-nothing rollover rule, and base- versus function-layer mapping.

use wavier_keys::keycodes::KeyCodes;
use wavier_keys::layout::{base_key, fn_key, layer_key};
use wavier_keys::matrix::ActivationMatrix;
use wavier_keys::resolver::resolve;

fn matrix_with(active: &[(usize, usize)]) -> ActivationMatrix {
    let mut cells = [[false; 15]; 5];
    for &(r, c) in active {
        cells[r][c] = true;
    }
    ActivationMatrix { cells }
}

#[test]
fn resolve_returns_active_keys_in_row_major_order() {
    // Cells listed out of order; the result must follow the scan order.
    let m = matrix_with(&[(1, 1), (0, 1), (3, 1)]);
    let (keys, overflow) = resolve(&m, false);
    assert!(!overflow);
    assert_eq!(keys, vec![KeyCodes::Key1, KeyCodes::KeyQ, KeyCodes::KeyZ]);
}

#[test]
fn resolve_skips_no_key_cells() {
    // (3, 0) and (4, 0) map to Reserved in the base layout.
    let m = matrix_with(&[(3, 0), (4, 0), (2, 1)]);
    let (keys, overflow) = resolve(&m, false);
    assert!(!overflow);
    assert_eq!(keys, vec![KeyCodes::KeyA]);
}

#[test]
fn resolve_exactly_six_keys_is_not_overflow() {
    let m = matrix_with(&[(0, 1), (0, 2), (0, 3), (0, 4), (0, 5), (0, 6)]);
    let (keys, overflow) = resolve(&m, false);
    assert!(!overflow);
    assert_eq!(
        keys,
        vec![
            KeyCodes::Key1,
            KeyCodes::Key2,
            KeyCodes::Key3,
            KeyCodes::Key4,
            KeyCodes::Key5,
            KeyCodes::Key6,
        ]
    );
}

#[test]
fn resolve_seven_keys_yields_six_rollover_sentinels() {
    let m = matrix_with(&[(0, 1), (0, 2), (0, 3), (0, 4), (0, 5), (0, 6), (0, 7)]);
    let (keys, overflow) = resolve(&m, false);
    assert!(overflow);
    assert_eq!(keys, vec![KeyCodes::ErrOvf; 6]);
}

#[test]
fn resolve_many_keys_still_yields_six_rollover_sentinels() {
    let m = matrix_with(&[
        (0, 1),
        (0, 2),
        (0, 3),
        (1, 1),
        (1, 2),
        (1, 3),
        (2, 1),
        (2, 2),
        (3, 1),
    ]);
    let (keys, overflow) = resolve(&m, false);
    assert!(overflow);
    assert_eq!(keys, vec![KeyCodes::ErrOvf; 6]);
}

#[test]
fn resolve_empty_matrix_yields_no_keys() {
    let m = ActivationMatrix::empty();
    let (keys, overflow) = resolve(&m, false);
    assert!(!overflow);
    assert!(keys.is_empty());
}

#[test]
fn resolve_uses_function_layer_mapping() {
    // (0, 1) maps to Key1 in the base grid but to F1 in the function grid.
    let m = matrix_with(&[(0, 1)]);
    let (base_keys, _) = resolve(&m, false);
    let (fn_keys, _) = resolve(&m, true);
    assert_eq!(base_keys, vec![KeyCodes::Key1]);
    assert_eq!(fn_keys, vec![KeyCodes::F1]);
}

#[test]
fn layout_grids_agree_outside_the_top_row() {
    for r in 1usize..5 {
        for c in 0usize..15 {
            assert_eq!(base_key(r, c), fn_key(r, c));
        }
    }
}

#[test]
fn layer_key_selects_the_grid() {
    assert_eq!(layer_key(false, 0, 1), KeyCodes::Key1);
    assert_eq!(layer_key(true, 0, 1), KeyCodes::F1);
    assert_eq!(layer_key(false, 0, 13), KeyCodes::Grave);
    assert_eq!(layer_key(true, 0, 13), KeyCodes::F13);
}

#[test]
fn special_cells_carry_no_key_in_either_grid() {
    // The function-layer cell and the mode-switch cell resolve to no key.
    assert_eq!(base_key(2, 14), KeyCodes::Reserved);
    assert_eq!(fn_key(2, 14), KeyCodes::Reserved);
    assert_eq!(base_key(3, 14), KeyCodes::Reserved);
    assert_eq!(fn_key(3, 14), KeyCodes::Reserved);
}
