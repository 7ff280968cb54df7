//! The idle state machine over real tick sequences, routing through the
//! mode-switch cell, and the scan's idempotence over unchanged samples.

use wavier_keys::engine::{mode_switch, process_matrix, ReportAction};
use wavier_keys::matrix::{scan, ActivationMatrix};
use wavier_keys::mode::{IdleState, Mode, IDLE_WINDOW_TICKS, SLOW_SCAN_FACTOR};

fn matrix_with(active: &[(usize, usize)]) -> ActivationMatrix {
    let mut cells = [[false; 15]; 5];
    for &(r, c) in active {
        cells[r][c] = true;
    }
    ActivationMatrix { cells }
}

/// One loop iteration as the device runs it: idle check, scan when the
/// cadence says so, record what the scan observed, advance the frame.
/// Returns whether this tick scanned.
fn run_tick(state: &mut IdleState, hw_active: bool) -> bool {
    let scanned = state.begin_tick();
    if scanned {
        state.record_scan(hw_active);
    }
    state.advance_frame();
    scanned
}

#[test]
fn boot_state_is_normal_at_frame_zero() {
    let s = IdleState::new();
    assert_eq!(s.mode, Mode::Normal);
    assert_eq!(s.frame, 0);
    assert_eq!(s.last_input_frame, 0);
}

#[test]
fn cadence_constants_match_the_configured_periods() {
    // 5 ms fast ticks, a 5 s idle window, and a 20 ms saving period.
    assert_eq!(IDLE_WINDOW_TICKS, 1000);
    assert_eq!(SLOW_SCAN_FACTOR, 4);
}

#[test]
fn idle_window_elapses_to_saving_exactly_once() {
    let mut s = IdleState::new();
    // Activity on the first tick: the machine stamps frame 0.
    run_tick(&mut s, true);
    assert_eq!(s.mode, Mode::Normal);
    // One frame short of a full window of inactivity: still Normal.
    for _ in 0..IDLE_WINDOW_TICKS - 1 {
        run_tick(&mut s, false);
        assert_eq!(s.mode, Mode::Normal);
    }
    // The tick on which the window fully elapses switches to Saving.
    run_tick(&mut s, false);
    assert_eq!(s.mode, Mode::Saving);
    // Continued inactivity keeps it there.
    for _ in 0..3 * IDLE_WINDOW_TICKS {
        run_tick(&mut s, false);
        assert_eq!(s.mode, Mode::Saving);
    }
}

#[test]
fn saving_scans_only_on_the_slow_cadence() {
    let mut s = IdleState::new();
    run_tick(&mut s, true);
    for _ in 0..IDLE_WINDOW_TICKS {
        run_tick(&mut s, false);
    }
    assert_eq!(s.mode, Mode::Saving);
    let mut scans: u32 = 0;
    let mut ticks: u32 = 0;
    while ticks < 4 * SLOW_SCAN_FACTOR {
        if run_tick(&mut s, false) {
            scans += 1;
        }
        ticks += 1;
    }
    assert_eq!(scans, 4);
}

#[test]
fn activity_reverts_saving_to_normal_on_a_scanning_tick() {
    let mut s = IdleState::new();
    run_tick(&mut s, true);
    for _ in 0..IDLE_WINDOW_TICKS {
        run_tick(&mut s, false);
    }
    assert_eq!(s.mode, Mode::Saving);
    // Hold a key until a slow-cadence tick actually scans it.
    let mut reverted_after: u32 = 0;
    while s.mode == Mode::Saving {
        run_tick(&mut s, true);
        reverted_after += 1;
        assert!(reverted_after <= SLOW_SCAN_FACTOR);
    }
    assert_eq!(s.mode, Mode::Normal);
}

#[test]
fn mode_switch_cell_selects_the_mouse_channel() {
    let mouse_matrix = matrix_with(&[(3, 14)]);
    assert!(!mode_switch(&mouse_matrix));
    let keyboard_matrix = matrix_with(&[(1, 1)]);
    assert!(mode_switch(&keyboard_matrix));
}

#[test]
fn process_matrix_routes_by_the_mode_switch_cell() {
    // Mode-switch cell held: the cycle produces a mouse report.
    let mouse_matrix = matrix_with(&[(3, 14), (2, 10)]);
    match process_matrix(&mouse_matrix) {
        ReportAction::Mouse { report } => assert_eq!(report.buttons, 0b01),
        _ => panic!("expected mouse routing"),
    }
    // Mode-switch cell released: the cycle produces a keyboard report.
    let keyboard_matrix = matrix_with(&[(1, 1)]);
    match process_matrix(&keyboard_matrix) {
        ReportAction::Keyboard { report } => {
            assert_eq!(report.keycodes, [0x14, 0, 0, 0, 0, 0]);
        },
        _ => panic!("expected keyboard routing"),
    }
}

#[test]
fn process_matrix_idles_on_an_empty_matrix() {
    let m = ActivationMatrix::empty();
    match process_matrix(&m) {
        ReportAction::Idle { keyboard, mouse } => {
            assert_eq!(keyboard.modifier, 0);
            assert_eq!(keyboard.keycodes, [0; 6]);
            assert_eq!(mouse.buttons, 0);
            assert_eq!(mouse.x, 0);
            assert_eq!(mouse.y, 0);
        },
        _ => panic!("expected idle output"),
    }
}

#[test]
fn scan_is_idempotent_over_unchanged_samples() {
    let mut samples = [[false; 15]; 5];
    samples[2][3] = true;
    samples[4][14] = true;
    let (m1, a1) = scan(&samples);
    let (m2, a2) = scan(&samples);
    assert_eq!(m1.cells, m2.cells);
    assert_eq!(a1, a2);
    assert!(a1);
    let (m3, a3) = scan(&[[false; 15]; 5]);
    assert!(!a3);
    assert_eq!(m3.cells, [[false; 15]; 5]);
}

#[test]
fn scan_reports_the_sampled_levels_unchanged() {
    let mut samples = [[false; 15]; 5];
    samples[0][0] = true;
    samples[3][14] = true;
    let (m, any) = scan(&samples);
    assert!(any);
    for r in 0usize..5 {
        for c in 0usize..15 {
            assert_eq!(m.get(r, c), samples[r][c]);
        }
    }
}
