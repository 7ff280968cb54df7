//! The layout resolver: turns an activation matrix and the function-layer
//! flag into the ordered list of active key identities, with the
//! all-or-nothing rollover-overflow rule.

use crate::keycodes::KeyCodes;
use crate::layout::{layer_key, spec_layer_key};
use crate::matrix::ActivationMatrix;
use vstd::prelude::*;

verus! {

/// Whether cell (`r`, `c`) contributes a key under the selected layer:
/// the switch is closed and the layout entry is not the "no key" sentinel.
pub open spec fn cell_resolves(m: ActivationMatrix, fn_layer: bool, r: int, c: int) -> bool {
    m.active(r, c) && spec_layer_key(fn_layer, r, c) != KeyCodes::Reserved
}

/// The keys contributed by columns `0 .. c_end` of row `r`, in column order.
pub open spec fn row_keys(m: ActivationMatrix, fn_layer: bool, r: int, c_end: int) -> Seq<
    KeyCodes,
>
    decreases c_end,
{
    if c_end <= 0 {
        Seq::empty()
    } else if cell_resolves(m, fn_layer, r, c_end - 1) {
        row_keys(m, fn_layer, r, c_end - 1).push(spec_layer_key(fn_layer, r, c_end - 1))
    } else {
        row_keys(m, fn_layer, r, c_end - 1)
    }
}

/// The keys contributed by rows `0 .. r_end`, row-major.
pub open spec fn rows_keys(m: ActivationMatrix, fn_layer: bool, r_end: int) -> Seq<KeyCodes>
    decreases r_end,
{
    if r_end <= 0 {
        Seq::empty()
    } else {
        rows_keys(m, fn_layer, r_end - 1) + row_keys(m, fn_layer, r_end - 1, 15)
    }
}

/// Every active, meaningful cell's key identity, in row-major scan order:
/// the canonical ordering of simultaneous keys in a report.
pub open spec fn resolved_keys(m: ActivationMatrix, fn_layer: bool) -> Seq<KeyCodes> {
    rows_keys(m, fn_layer, 5)
}

/// Six copies of the error-rollover sentinel: the whole-report overflow
/// signal of the boot protocol.
pub open spec fn rollover_keys() -> Seq<KeyCodes> {
    Seq::new(6, |i: int| KeyCodes::ErrOvf)
}

/// Resolve the matrix under the selected layer.  Up to six simultaneous
/// keys are reported in row-major order; a seventh discards the list and
/// replaces it with six rollover sentinels (`overflow` then reports `true`).
pub fn resolve(m: &ActivationMatrix, fn_layer: bool) -> (res: (Vec<KeyCodes>, bool))
    ensures
        resolved_keys(*m, fn_layer).len() <= 6 ==> res.0@ == resolved_keys(*m, fn_layer)
            && res.1 == false,
        resolved_keys(*m, fn_layer).len() > 6 ==> res.0@ == rollover_keys() && res.1 == true,
        res.0@.len() <= 6,
{
    let mut keys: Vec<KeyCodes> = Vec::new();
    let mut r: usize = 0;
    while r < 5
        invariant
            r <= 5,
            keys@ == rows_keys(*m, fn_layer, r as int),
        decreases 5 - r,
    {
        let mut c: usize = 0;
        assert(keys@ =~= rows_keys(*m, fn_layer, r as int) + row_keys(*m, fn_layer, r as int, 0));
        while c < 15
            invariant
                r < 5,
                c <= 15,
                keys@ == rows_keys(*m, fn_layer, r as int) + row_keys(
                    *m,
                    fn_layer,
                    r as int,
                    c as int,
                ),
            decreases 15 - c,
        {
            if m.get(r, c) {
                let k = layer_key(fn_layer, r, c);
                if !matches!(k, KeyCodes::Reserved) {
                    keys.push(k);
                }
            }
            assert(keys@ =~= rows_keys(*m, fn_layer, r as int) + row_keys(
                *m,
                fn_layer,
                r as int,
                c as int + 1,
            ));
            c += 1;
        }
        r += 1;
    }
    if keys.len() <= 6 {
        (keys, false)
    } else {
        let mut ovf: Vec<KeyCodes> = Vec::new();
        ovf.push(KeyCodes::ErrOvf);
        ovf.push(KeyCodes::ErrOvf);
        ovf.push(KeyCodes::ErrOvf);
        ovf.push(KeyCodes::ErrOvf);
        ovf.push(KeyCodes::ErrOvf);
        ovf.push(KeyCodes::ErrOvf);
        assert(ovf@ =~= rollover_keys());
        (ovf, true)
    }
}

} // verus!
