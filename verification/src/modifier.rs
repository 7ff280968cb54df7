//! The modifier extractor: eight fixed matrix cells, one per bit of the
//! HID modifier byte.  Extraction is independent of the layout resolver;
//! a modifier cell that also maps to a layout entry is double-reported.

use crate::keycodes::ModifierMasks;
use crate::layout::{
    LEFT_ALT_COL, LEFT_ALT_ROW, LEFT_CTRL_COL, LEFT_CTRL_ROW, LEFT_GUI_COL, LEFT_GUI_ROW,
    LEFT_SHIFT_COL, LEFT_SHIFT_ROW, RIGHT_ALT_COL, RIGHT_ALT_ROW, RIGHT_CTRL_COL, RIGHT_CTRL_ROW,
    RIGHT_GUI_COL, RIGHT_GUI_ROW, RIGHT_SHIFT_COL, RIGHT_SHIFT_ROW,
};
use crate::matrix::ActivationMatrix;
use vstd::prelude::*;

verus! {

/// The matrix row of a modifier key's fixed cell.
pub open spec fn modifier_row(mm: ModifierMasks) -> int {
    match mm {
        ModifierMasks::LeftCtrl => LEFT_CTRL_ROW as int,
        ModifierMasks::LeftShift => LEFT_SHIFT_ROW as int,
        ModifierMasks::LeftAlt => LEFT_ALT_ROW as int,
        ModifierMasks::LeftGui => LEFT_GUI_ROW as int,
        ModifierMasks::RightCtrl => RIGHT_CTRL_ROW as int,
        ModifierMasks::RightShift => RIGHT_SHIFT_ROW as int,
        ModifierMasks::RightAlt => RIGHT_ALT_ROW as int,
        ModifierMasks::RightGui => RIGHT_GUI_ROW as int,
    }
}

/// The matrix column of a modifier key's fixed cell.
pub open spec fn modifier_col(mm: ModifierMasks) -> int {
    match mm {
        ModifierMasks::LeftCtrl => LEFT_CTRL_COL as int,
        ModifierMasks::LeftShift => LEFT_SHIFT_COL as int,
        ModifierMasks::LeftAlt => LEFT_ALT_COL as int,
        ModifierMasks::LeftGui => LEFT_GUI_COL as int,
        ModifierMasks::RightCtrl => RIGHT_CTRL_COL as int,
        ModifierMasks::RightShift => RIGHT_SHIFT_COL as int,
        ModifierMasks::RightAlt => RIGHT_ALT_COL as int,
        ModifierMasks::RightGui => RIGHT_GUI_COL as int,
    }
}

/// Whether a modifier key's cell is currently active.
pub open spec fn modifier_active(m: ActivationMatrix, mm: ModifierMasks) -> bool {
    m.active(modifier_row(mm), modifier_col(mm))
}

/// The modifier byte: each active modifier cell sets its own bit.
pub open spec fn spec_modifiers(m: ActivationMatrix) -> u8 {
    (if modifier_active(m, ModifierMasks::LeftCtrl) {
        1u8
    } else {
        0u8
    }) | (if modifier_active(m, ModifierMasks::LeftShift) {
        2u8
    } else {
        0u8
    }) | (if modifier_active(m, ModifierMasks::LeftAlt) {
        4u8
    } else {
        0u8
    }) | (if modifier_active(m, ModifierMasks::LeftGui) {
        8u8
    } else {
        0u8
    }) | (if modifier_active(m, ModifierMasks::RightCtrl) {
        16u8
    } else {
        0u8
    }) | (if modifier_active(m, ModifierMasks::RightShift) {
        32u8
    } else {
        0u8
    }) | (if modifier_active(m, ModifierMasks::RightAlt) {
        64u8
    } else {
        0u8
    }) | (if modifier_active(m, ModifierMasks::RightGui) {
        128u8
    } else {
        0u8
    })
}

/// Build the modifier byte from the eight fixed cells.
pub fn extract(m: &ActivationMatrix) -> (bits: u8)
    ensures
        bits == spec_modifiers(*m),
{
    let b0: u8 = if m.get(LEFT_CTRL_ROW, LEFT_CTRL_COL) {
        ModifierMasks::LeftCtrl.mask()
    } else {
        0
    };
    let b1: u8 = if m.get(LEFT_SHIFT_ROW, LEFT_SHIFT_COL) {
        ModifierMasks::LeftShift.mask()
    } else {
        0
    };
    let b2: u8 = if m.get(LEFT_ALT_ROW, LEFT_ALT_COL) {
        ModifierMasks::LeftAlt.mask()
    } else {
        0
    };
    let b3: u8 = if m.get(LEFT_GUI_ROW, LEFT_GUI_COL) {
        ModifierMasks::LeftGui.mask()
    } else {
        0
    };
    let b4: u8 = if m.get(RIGHT_CTRL_ROW, RIGHT_CTRL_COL) {
        ModifierMasks::RightCtrl.mask()
    } else {
        0
    };
    let b5: u8 = if m.get(RIGHT_SHIFT_ROW, RIGHT_SHIFT_COL) {
        ModifierMasks::RightShift.mask()
    } else {
        0
    };
    let b6: u8 = if m.get(RIGHT_ALT_ROW, RIGHT_ALT_COL) {
        ModifierMasks::RightAlt.mask()
    } else {
        0
    };
    let b7: u8 = if m.get(RIGHT_GUI_ROW, RIGHT_GUI_COL) {
        ModifierMasks::RightGui.mask()
    } else {
        0
    };
    b0 | b1 | b2 | b3 | b4 | b5 | b6 | b7
}

/// Each modifier key owns exactly its assigned bit: bit `mm` of the
/// modifier byte is set if and only if `mm`'s cell is active, whatever the
/// rest of the matrix holds.
pub proof fn lemma_modifier_bit(m: ActivationMatrix, mm: ModifierMasks)
    ensures
        spec_modifiers(m) & mm.spec_mask() == (if modifier_active(m, mm) {
            mm.spec_mask()
        } else {
            0u8
        }),
{
    let t0: u8 = if modifier_active(m, ModifierMasks::LeftCtrl) { 1u8 } else { 0u8 };
    let t1: u8 = if modifier_active(m, ModifierMasks::LeftShift) { 2u8 } else { 0u8 };
    let t2: u8 = if modifier_active(m, ModifierMasks::LeftAlt) { 4u8 } else { 0u8 };
    let t3: u8 = if modifier_active(m, ModifierMasks::LeftGui) { 8u8 } else { 0u8 };
    let t4: u8 = if modifier_active(m, ModifierMasks::RightCtrl) { 16u8 } else { 0u8 };
    let t5: u8 = if modifier_active(m, ModifierMasks::RightShift) { 32u8 } else { 0u8 };
    let t6: u8 = if modifier_active(m, ModifierMasks::RightAlt) { 64u8 } else { 0u8 };
    let t7: u8 = if modifier_active(m, ModifierMasks::RightGui) { 128u8 } else { 0u8 };
    assert(spec_modifiers(m) == t0 | t1 | t2 | t3 | t4 | t5 | t6 | t7);
    assert((t0 | t1 | t2 | t3 | t4 | t5 | t6 | t7) & 1 == t0
        && (t0 | t1 | t2 | t3 | t4 | t5 | t6 | t7) & 2 == t1
        && (t0 | t1 | t2 | t3 | t4 | t5 | t6 | t7) & 4 == t2
        && (t0 | t1 | t2 | t3 | t4 | t5 | t6 | t7) & 8 == t3
        && (t0 | t1 | t2 | t3 | t4 | t5 | t6 | t7) & 16 == t4
        && (t0 | t1 | t2 | t3 | t4 | t5 | t6 | t7) & 32 == t5
        && (t0 | t1 | t2 | t3 | t4 | t5 | t6 | t7) & 64 == t6
        && (t0 | t1 | t2 | t3 | t4 | t5 | t6 | t7) & 128 == t7) by (bit_vector)
        requires
            t0 == 0 || t0 == 1,
            t1 == 0 || t1 == 2,
            t2 == 0 || t2 == 4,
            t3 == 0 || t3 == 8,
            t4 == 0 || t4 == 16,
            t5 == 0 || t5 == 32,
            t6 == 0 || t6 == 64,
            t7 == 0 || t7 == 128,
    ;
}

/// The modifier byte is a pure function of the eight fixed cells: two
/// matrices that agree on those cells yield the same byte.
pub proof fn lemma_modifiers_cells_only(m1: ActivationMatrix, m2: ActivationMatrix)
    requires
        forall|mm: ModifierMasks| #[trigger] modifier_active(m1, mm) == modifier_active(m2, mm),
    ensures
        spec_modifiers(m1) == spec_modifiers(m2),
{
    assert(modifier_active(m1, ModifierMasks::LeftCtrl) == modifier_active(
        m2,
        ModifierMasks::LeftCtrl,
    ));
    assert(modifier_active(m1, ModifierMasks::LeftShift) == modifier_active(
        m2,
        ModifierMasks::LeftShift,
    ));
    assert(modifier_active(m1, ModifierMasks::LeftAlt) == modifier_active(
        m2,
        ModifierMasks::LeftAlt,
    ));
    assert(modifier_active(m1, ModifierMasks::LeftGui) == modifier_active(
        m2,
        ModifierMasks::LeftGui,
    ));
    assert(modifier_active(m1, ModifierMasks::RightCtrl) == modifier_active(
        m2,
        ModifierMasks::RightCtrl,
    ));
    assert(modifier_active(m1, ModifierMasks::RightShift) == modifier_active(
        m2,
        ModifierMasks::RightShift,
    ));
    assert(modifier_active(m1, ModifierMasks::RightAlt) == modifier_active(
        m2,
        ModifierMasks::RightAlt,
    ));
    assert(modifier_active(m1, ModifierMasks::RightGui) == modifier_active(
        m2,
        ModifierMasks::RightGui,
    ));
}

/// Toggling one modifier cell toggles exactly its own bit: the two bytes
/// differ precisely by that modifier's mask, and every other modifier's
/// bit is unchanged.
pub proof fn lemma_modifier_toggle(m1: ActivationMatrix, m2: ActivationMatrix, mm: ModifierMasks)
    requires
        modifier_active(m1, mm) == !modifier_active(m2, mm),
        forall|o: ModifierMasks| o != mm ==> #[trigger] modifier_active(m1, o) == modifier_active(
            m2,
            o,
        ),
    ensures
        spec_modifiers(m1) ^ spec_modifiers(m2) == mm.spec_mask(),
        spec_modifiers(m1) & mm.spec_mask() != spec_modifiers(m2) & mm.spec_mask(),
        forall|o: ModifierMasks| o != mm ==> #[trigger] (spec_modifiers(m1) & o.spec_mask())
            == spec_modifiers(m2) & o.spec_mask(),
{
    let x = spec_modifiers(m1);
    let y = spec_modifiers(m2);
    assert forall|o: ModifierMasks| o != mm implies #[trigger] (x & o.spec_mask()) == y
        & o.spec_mask() by {
        lemma_modifier_bit(m1, o);
        lemma_modifier_bit(m2, o);
    }
    lemma_modifier_bit(m1, ModifierMasks::LeftCtrl);
    lemma_modifier_bit(m2, ModifierMasks::LeftCtrl);
    lemma_modifier_bit(m1, ModifierMasks::LeftShift);
    lemma_modifier_bit(m2, ModifierMasks::LeftShift);
    lemma_modifier_bit(m1, ModifierMasks::LeftAlt);
    lemma_modifier_bit(m2, ModifierMasks::LeftAlt);
    lemma_modifier_bit(m1, ModifierMasks::LeftGui);
    lemma_modifier_bit(m2, ModifierMasks::LeftGui);
    lemma_modifier_bit(m1, ModifierMasks::RightCtrl);
    lemma_modifier_bit(m2, ModifierMasks::RightCtrl);
    lemma_modifier_bit(m1, ModifierMasks::RightShift);
    lemma_modifier_bit(m2, ModifierMasks::RightShift);
    lemma_modifier_bit(m1, ModifierMasks::RightAlt);
    lemma_modifier_bit(m2, ModifierMasks::RightAlt);
    lemma_modifier_bit(m1, ModifierMasks::RightGui);
    lemma_modifier_bit(m2, ModifierMasks::RightGui);
    match mm {
        ModifierMasks::LeftCtrl => {
            assert(x ^ y == 1) by (bit_vector)
                requires
                    x & 1 != y & 1,
                    x & 2 == y & 2,
                    x & 4 == y & 4,
                    x & 8 == y & 8,
                    x & 16 == y & 16,
                    x & 32 == y & 32,
                    x & 64 == y & 64,
                    x & 128 == y & 128,
            ;
        },
        ModifierMasks::LeftShift => {
            assert(x ^ y == 2) by (bit_vector)
                requires
                    x & 1 == y & 1,
                    x & 2 != y & 2,
                    x & 4 == y & 4,
                    x & 8 == y & 8,
                    x & 16 == y & 16,
                    x & 32 == y & 32,
                    x & 64 == y & 64,
                    x & 128 == y & 128,
            ;
        },
        ModifierMasks::LeftAlt => {
            assert(x ^ y == 4) by (bit_vector)
                requires
                    x & 1 == y & 1,
                    x & 2 == y & 2,
                    x & 4 != y & 4,
                    x & 8 == y & 8,
                    x & 16 == y & 16,
                    x & 32 == y & 32,
                    x & 64 == y & 64,
                    x & 128 == y & 128,
            ;
        },
        ModifierMasks::LeftGui => {
            assert(x ^ y == 8) by (bit_vector)
                requires
                    x & 1 == y & 1,
                    x & 2 == y & 2,
                    x & 4 == y & 4,
                    x & 8 != y & 8,
                    x & 16 == y & 16,
                    x & 32 == y & 32,
                    x & 64 == y & 64,
                    x & 128 == y & 128,
            ;
        },
        ModifierMasks::RightCtrl => {
            assert(x ^ y == 16) by (bit_vector)
                requires
                    x & 1 == y & 1,
                    x & 2 == y & 2,
                    x & 4 == y & 4,
                    x & 8 == y & 8,
                    x & 16 != y & 16,
                    x & 32 == y & 32,
                    x & 64 == y & 64,
                    x & 128 == y & 128,
            ;
        },
        ModifierMasks::RightShift => {
            assert(x ^ y == 32) by (bit_vector)
                requires
                    x & 1 == y & 1,
                    x & 2 == y & 2,
                    x & 4 == y & 4,
                    x & 8 == y & 8,
                    x & 16 == y & 16,
                    x & 32 != y & 32,
                    x & 64 == y & 64,
                    x & 128 == y & 128,
            ;
        },
        ModifierMasks::RightAlt => {
            assert(x ^ y == 64) by (bit_vector)
                requires
                    x & 1 == y & 1,
                    x & 2 == y & 2,
                    x & 4 == y & 4,
                    x & 8 == y & 8,
                    x & 16 == y & 16,
                    x & 32 == y & 32,
                    x & 64 != y & 64,
                    x & 128 == y & 128,
            ;
        },
        ModifierMasks::RightGui => {
            assert(x ^ y == 128) by (bit_vector)
                requires
                    x & 1 == y & 1,
                    x & 2 == y & 2,
                    x & 4 == y & 4,
                    x & 8 == y & 8,
                    x & 16 == y & 16,
                    x & 32 == y & 32,
                    x & 64 == y & 64,
                    x & 128 != y & 128,
            ;
        },
    }
}

} // verus!
