//! Core logic of a USB composite keyboard/mouse device: matrix scanning,
//! layout resolution, modifier extraction, HID report building, and the
//! idle/power-save state machine.  Hardware access (GPIO, USB transport)
//! stays outside; this crate works on plain sampled values.

use vstd::prelude::*;

pub mod engine;
pub mod keycodes;
pub mod layout;
pub mod matrix;
pub mod mode;
pub mod modifier;
pub mod report;
pub mod resolver;

verus! {

} // verus!
