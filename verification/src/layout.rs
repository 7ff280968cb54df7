//! The key-position table: which semantic key identity each matrix cell
//! carries, for the base layer and for the function layer, plus the fixed
//! positions with special meaning (modifiers, mode switch, function-layer
//! key, pointer movement and pointer buttons).

use crate::keycodes::KeyCodes;
use vstd::prelude::*;

verus! {

/// Cell that switches routing between keyboard and mouse reports.
pub const MODE_KEY_ROW: usize = 3;
pub const MODE_KEY_COL: usize = 14;

/// Cell that engages the function layer while held.
pub const FN_KEY_ROW: usize = 2;
pub const FN_KEY_COL: usize = 14;

pub const LEFT_CTRL_ROW: usize = 4;
pub const LEFT_CTRL_COL: usize = 0;
pub const LEFT_SHIFT_ROW: usize = 3;
pub const LEFT_SHIFT_COL: usize = 0;
pub const LEFT_ALT_ROW: usize = 4;
pub const LEFT_ALT_COL: usize = 2;
pub const LEFT_GUI_ROW: usize = 4;
pub const LEFT_GUI_COL: usize = 1;
pub const RIGHT_CTRL_ROW: usize = 4;
pub const RIGHT_CTRL_COL: usize = 10;
pub const RIGHT_SHIFT_ROW: usize = 3;
pub const RIGHT_SHIFT_COL: usize = 11;
pub const RIGHT_ALT_ROW: usize = 4;
pub const RIGHT_ALT_COL: usize = 8;

/// The right GUI cell maps to no layout entry; it still owns its modifier bit.
pub const RIGHT_GUI_ROW: usize = 4;
pub const RIGHT_GUI_COL: usize = 9;

pub const MOVE_LEFT_ROW: usize = 2;
pub const MOVE_LEFT_COL: usize = 6;
pub const MOVE_DOWN_ROW: usize = 2;
pub const MOVE_DOWN_COL: usize = 7;
pub const MOVE_UP_ROW: usize = 2;
pub const MOVE_UP_COL: usize = 8;
pub const MOVE_RIGHT_ROW: usize = 2;
pub const MOVE_RIGHT_COL: usize = 9;
pub const LEFT_BUTTON_ROW: usize = 2;
pub const LEFT_BUTTON_COL: usize = 10;
pub const RIGHT_BUTTON_ROW: usize = 2;
pub const RIGHT_BUTTON_COL: usize = 11;

/// The base-layer key identity at cell (`r`, `c`).
pub open spec fn spec_base_key(r: int, c: int) -> KeyCodes
    recommends
        0 <= r < 5,
        0 <= c < 15,
{
    if r == 0 {
        if c == 0 {
            KeyCodes::Escape
        } else if c == 1 {
            KeyCodes::Key1
        } else if c == 2 {
            KeyCodes::Key2
        } else if c == 3 {
            KeyCodes::Key3
        } else if c == 4 {
            KeyCodes::Key4
        } else if c == 5 {
            KeyCodes::Key5
        } else if c == 6 {
            KeyCodes::Key6
        } else if c == 7 {
            KeyCodes::Key7
        } else if c == 8 {
            KeyCodes::Key8
        } else if c == 9 {
            KeyCodes::Key9
        } else if c == 10 {
            KeyCodes::Key0
        } else if c == 11 {
            KeyCodes::Minus
        } else if c == 12 {
            KeyCodes::Equal
        } else if c == 13 {
            KeyCodes::Grave
        } else {
            KeyCodes::BackSpace
        }
    } else if r == 1 {
        if c == 0 {
            KeyCodes::Tab
        } else if c == 1 {
            KeyCodes::KeyQ
        } else if c == 2 {
            KeyCodes::KeyW
        } else if c == 3 {
            KeyCodes::KeyE
        } else if c == 4 {
            KeyCodes::KeyR
        } else if c == 5 {
            KeyCodes::KeyT
        } else if c == 6 {
            KeyCodes::KeyY
        } else if c == 7 {
            KeyCodes::KeyU
        } else if c == 8 {
            KeyCodes::KeyI
        } else if c == 9 {
            KeyCodes::KeyO
        } else if c == 10 {
            KeyCodes::KeyP
        } else if c == 11 {
            KeyCodes::LeftBrace
        } else if c == 12 {
            KeyCodes::RightBrace
        } else if c == 13 {
            KeyCodes::BackSlash
        } else {
            KeyCodes::Delete
        }
    } else if r == 2 {
        if c == 0 {
            KeyCodes::CapsLock
        } else if c == 1 {
            KeyCodes::KeyA
        } else if c == 2 {
            KeyCodes::KeyS
        } else if c == 3 {
            KeyCodes::KeyD
        } else if c == 4 {
            KeyCodes::KeyF
        } else if c == 5 {
            KeyCodes::KeyG
        } else if c == 6 {
            KeyCodes::KeyH
        } else if c == 7 {
            KeyCodes::KeyJ
        } else if c == 8 {
            KeyCodes::KeyK
        } else if c == 9 {
            KeyCodes::KeyL
        } else if c == 10 {
            KeyCodes::SemiColon
        } else if c == 11 {
            KeyCodes::Apostrophe
        } else if c == 12 {
            KeyCodes::Reserved
        } else if c == 13 {
            KeyCodes::Enter
        } else {
            KeyCodes::Reserved
        }
    } else if r == 3 {
        if c == 0 {
            KeyCodes::Reserved
        } else if c == 1 {
            KeyCodes::KeyZ
        } else if c == 2 {
            KeyCodes::KeyX
        } else if c == 3 {
            KeyCodes::KeyC
        } else if c == 4 {
            KeyCodes::KeyV
        } else if c == 5 {
            KeyCodes::KeyB
        } else if c == 6 {
            KeyCodes::KeyN
        } else if c == 7 {
            KeyCodes::KeyM
        } else if c == 8 {
            KeyCodes::Comma
        } else if c == 9 {
            KeyCodes::Dot
        } else if c == 10 {
            KeyCodes::Slash
        } else if c == 11 {
            KeyCodes::Reserved
        } else if c == 12 {
            KeyCodes::Reserved
        } else if c == 13 {
            KeyCodes::Up
        } else {
            KeyCodes::Reserved
        }
    } else if r == 4 {
        if c == 0 {
            KeyCodes::Reserved
        } else if c == 1 {
            KeyCodes::Reserved
        } else if c == 2 {
            KeyCodes::Reserved
        } else if c == 3 {
            KeyCodes::Reserved
        } else if c == 4 {
            KeyCodes::Reserved
        } else if c == 5 {
            KeyCodes::Space
        } else if c == 6 {
            KeyCodes::Reserved
        } else if c == 7 {
            KeyCodes::Reserved
        } else if c == 8 {
            KeyCodes::Reserved
        } else if c == 9 {
            KeyCodes::Reserved
        } else if c == 10 {
            KeyCodes::Reserved
        } else if c == 11 {
            KeyCodes::Left
        } else if c == 12 {
            KeyCodes::Reserved
        } else if c == 13 {
            KeyCodes::Down
        } else {
            KeyCodes::Right
        }
    } else {
        KeyCodes::Reserved
    }
}

/// The function-layer key identity at cell (`r`, `c`).
pub open spec fn spec_fn_key(r: int, c: int) -> KeyCodes
    recommends
        0 <= r < 5,
        0 <= c < 15,
{
    if r == 0 {
        if c == 0 {
            KeyCodes::Escape
        } else if c == 1 {
            KeyCodes::F1
        } else if c == 2 {
            KeyCodes::F2
        } else if c == 3 {
            KeyCodes::F3
        } else if c == 4 {
            KeyCodes::F4
        } else if c == 5 {
            KeyCodes::F5
        } else if c == 6 {
            KeyCodes::F6
        } else if c == 7 {
            KeyCodes::F7
        } else if c == 8 {
            KeyCodes::F8
        } else if c == 9 {
            KeyCodes::F9
        } else if c == 10 {
            KeyCodes::F10
        } else if c == 11 {
            KeyCodes::F11
        } else if c == 12 {
            KeyCodes::F12
        } else if c == 13 {
            KeyCodes::F13
        } else {
            KeyCodes::BackSpace
        }
    } else if r == 1 {
        if c == 0 {
            KeyCodes::Tab
        } else if c == 1 {
            KeyCodes::KeyQ
        } else if c == 2 {
            KeyCodes::KeyW
        } else if c == 3 {
            KeyCodes::KeyE
        } else if c == 4 {
            KeyCodes::KeyR
        } else if c == 5 {
            KeyCodes::KeyT
        } else if c == 6 {
            KeyCodes::KeyY
        } else if c == 7 {
            KeyCodes::KeyU
        } else if c == 8 {
            KeyCodes::KeyI
        } else if c == 9 {
            KeyCodes::KeyO
        } else if c == 10 {
            KeyCodes::KeyP
        } else if c == 11 {
            KeyCodes::LeftBrace
        } else if c == 12 {
            KeyCodes::RightBrace
        } else if c == 13 {
            KeyCodes::BackSlash
        } else {
            KeyCodes::Delete
        }
    } else if r == 2 {
        if c == 0 {
            KeyCodes::CapsLock
        } else if c == 1 {
            KeyCodes::KeyA
        } else if c == 2 {
            KeyCodes::KeyS
        } else if c == 3 {
            KeyCodes::KeyD
        } else if c == 4 {
            KeyCodes::KeyF
        } else if c == 5 {
            KeyCodes::KeyG
        } else if c == 6 {
            KeyCodes::KeyH
        } else if c == 7 {
            KeyCodes::KeyJ
        } else if c == 8 {
            KeyCodes::KeyK
        } else if c == 9 {
            KeyCodes::KeyL
        } else if c == 10 {
            KeyCodes::SemiColon
        } else if c == 11 {
            KeyCodes::Apostrophe
        } else if c == 12 {
            KeyCodes::Reserved
        } else if c == 13 {
            KeyCodes::Enter
        } else {
            KeyCodes::Reserved
        }
    } else if r == 3 {
        if c == 0 {
            KeyCodes::Reserved
        } else if c == 1 {
            KeyCodes::KeyZ
        } else if c == 2 {
            KeyCodes::KeyX
        } else if c == 3 {
            KeyCodes::KeyC
        } else if c == 4 {
            KeyCodes::KeyV
        } else if c == 5 {
            KeyCodes::KeyB
        } else if c == 6 {
            KeyCodes::KeyN
        } else if c == 7 {
            KeyCodes::KeyM
        } else if c == 8 {
            KeyCodes::Comma
        } else if c == 9 {
            KeyCodes::Dot
        } else if c == 10 {
            KeyCodes::Slash
        } else if c == 11 {
            KeyCodes::Reserved
        } else if c == 12 {
            KeyCodes::Reserved
        } else if c == 13 {
            KeyCodes::Up
        } else {
            KeyCodes::Reserved
        }
    } else if r == 4 {
        if c == 0 {
            KeyCodes::Reserved
        } else if c == 1 {
            KeyCodes::Reserved
        } else if c == 2 {
            KeyCodes::Reserved
        } else if c == 3 {
            KeyCodes::Reserved
        } else if c == 4 {
            KeyCodes::Reserved
        } else if c == 5 {
            KeyCodes::Space
        } else if c == 6 {
            KeyCodes::Reserved
        } else if c == 7 {
            KeyCodes::Reserved
        } else if c == 8 {
            KeyCodes::Reserved
        } else if c == 9 {
            KeyCodes::Reserved
        } else if c == 10 {
            KeyCodes::Reserved
        } else if c == 11 {
            KeyCodes::Left
        } else if c == 12 {
            KeyCodes::Reserved
        } else if c == 13 {
            KeyCodes::Down
        } else {
            KeyCodes::Right
        }
    } else {
        KeyCodes::Reserved
    }
}

/// The key identity at cell (`r`, `c`) under the selected layer.
pub open spec fn spec_layer_key(fn_layer: bool, r: int, c: int) -> KeyCodes
    recommends
        0 <= r < 5,
        0 <= c < 15,
{
    if fn_layer {
        spec_fn_key(r, c)
    } else {
        spec_base_key(r, c)
    }
}

/// The base-layer key identity at cell (`r`, `c`).
pub fn base_key(r: usize, c: usize) -> (k: KeyCodes)
    requires
        r < 5,
        c < 15,
    ensures
        k == spec_base_key(r as int, c as int),
{
    if r == 0 {
        if c == 0 {
            KeyCodes::Escape
        } else if c == 1 {
            KeyCodes::Key1
        } else if c == 2 {
            KeyCodes::Key2
        } else if c == 3 {
            KeyCodes::Key3
        } else if c == 4 {
            KeyCodes::Key4
        } else if c == 5 {
            KeyCodes::Key5
        } else if c == 6 {
            KeyCodes::Key6
        } else if c == 7 {
            KeyCodes::Key7
        } else if c == 8 {
            KeyCodes::Key8
        } else if c == 9 {
            KeyCodes::Key9
        } else if c == 10 {
            KeyCodes::Key0
        } else if c == 11 {
            KeyCodes::Minus
        } else if c == 12 {
            KeyCodes::Equal
        } else if c == 13 {
            KeyCodes::Grave
        } else {
            KeyCodes::BackSpace
        }
    } else if r == 1 {
        if c == 0 {
            KeyCodes::Tab
        } else if c == 1 {
            KeyCodes::KeyQ
        } else if c == 2 {
            KeyCodes::KeyW
        } else if c == 3 {
            KeyCodes::KeyE
        } else if c == 4 {
            KeyCodes::KeyR
        } else if c == 5 {
            KeyCodes::KeyT
        } else if c == 6 {
            KeyCodes::KeyY
        } else if c == 7 {
            KeyCodes::KeyU
        } else if c == 8 {
            KeyCodes::KeyI
        } else if c == 9 {
            KeyCodes::KeyO
        } else if c == 10 {
            KeyCodes::KeyP
        } else if c == 11 {
            KeyCodes::LeftBrace
        } else if c == 12 {
            KeyCodes::RightBrace
        } else if c == 13 {
            KeyCodes::BackSlash
        } else {
            KeyCodes::Delete
        }
    } else if r == 2 {
        if c == 0 {
            KeyCodes::CapsLock
        } else if c == 1 {
            KeyCodes::KeyA
        } else if c == 2 {
            KeyCodes::KeyS
        } else if c == 3 {
            KeyCodes::KeyD
        } else if c == 4 {
            KeyCodes::KeyF
        } else if c == 5 {
            KeyCodes::KeyG
        } else if c == 6 {
            KeyCodes::KeyH
        } else if c == 7 {
            KeyCodes::KeyJ
        } else if c == 8 {
            KeyCodes::KeyK
        } else if c == 9 {
            KeyCodes::KeyL
        } else if c == 10 {
            KeyCodes::SemiColon
        } else if c == 11 {
            KeyCodes::Apostrophe
        } else if c == 12 {
            KeyCodes::Reserved
        } else if c == 13 {
            KeyCodes::Enter
        } else {
            KeyCodes::Reserved
        }
    } else if r == 3 {
        if c == 0 {
            KeyCodes::Reserved
        } else if c == 1 {
            KeyCodes::KeyZ
        } else if c == 2 {
            KeyCodes::KeyX
        } else if c == 3 {
            KeyCodes::KeyC
        } else if c == 4 {
            KeyCodes::KeyV
        } else if c == 5 {
            KeyCodes::KeyB
        } else if c == 6 {
            KeyCodes::KeyN
        } else if c == 7 {
            KeyCodes::KeyM
        } else if c == 8 {
            KeyCodes::Comma
        } else if c == 9 {
            KeyCodes::Dot
        } else if c == 10 {
            KeyCodes::Slash
        } else if c == 11 {
            KeyCodes::Reserved
        } else if c == 12 {
            KeyCodes::Reserved
        } else if c == 13 {
            KeyCodes::Up
        } else {
            KeyCodes::Reserved
        }
    } else if r == 4 {
        if c == 0 {
            KeyCodes::Reserved
        } else if c == 1 {
            KeyCodes::Reserved
        } else if c == 2 {
            KeyCodes::Reserved
        } else if c == 3 {
            KeyCodes::Reserved
        } else if c == 4 {
            KeyCodes::Reserved
        } else if c == 5 {
            KeyCodes::Space
        } else if c == 6 {
            KeyCodes::Reserved
        } else if c == 7 {
            KeyCodes::Reserved
        } else if c == 8 {
            KeyCodes::Reserved
        } else if c == 9 {
            KeyCodes::Reserved
        } else if c == 10 {
            KeyCodes::Reserved
        } else if c == 11 {
            KeyCodes::Left
        } else if c == 12 {
            KeyCodes::Reserved
        } else if c == 13 {
            KeyCodes::Down
        } else {
            KeyCodes::Right
        }
    } else {
        KeyCodes::Reserved
    }
}

/// The function-layer key identity at cell (`r`, `c`).
pub fn fn_key(r: usize, c: usize) -> (k: KeyCodes)
    requires
        r < 5,
        c < 15,
    ensures
        k == spec_fn_key(r as int, c as int),
{
    if r == 0 {
        if c == 0 {
            KeyCodes::Escape
        } else if c == 1 {
            KeyCodes::F1
        } else if c == 2 {
            KeyCodes::F2
        } else if c == 3 {
            KeyCodes::F3
        } else if c == 4 {
            KeyCodes::F4
        } else if c == 5 {
            KeyCodes::F5
        } else if c == 6 {
            KeyCodes::F6
        } else if c == 7 {
            KeyCodes::F7
        } else if c == 8 {
            KeyCodes::F8
        } else if c == 9 {
            KeyCodes::F9
        } else if c == 10 {
            KeyCodes::F10
        } else if c == 11 {
            KeyCodes::F11
        } else if c == 12 {
            KeyCodes::F12
        } else if c == 13 {
            KeyCodes::F13
        } else {
            KeyCodes::BackSpace
        }
    } else if r == 1 {
        if c == 0 {
            KeyCodes::Tab
        } else if c == 1 {
            KeyCodes::KeyQ
        } else if c == 2 {
            KeyCodes::KeyW
        } else if c == 3 {
            KeyCodes::KeyE
        } else if c == 4 {
            KeyCodes::KeyR
        } else if c == 5 {
            KeyCodes::KeyT
        } else if c == 6 {
            KeyCodes::KeyY
        } else if c == 7 {
            KeyCodes::KeyU
        } else if c == 8 {
            KeyCodes::KeyI
        } else if c == 9 {
            KeyCodes::KeyO
        } else if c == 10 {
            KeyCodes::KeyP
        } else if c == 11 {
            KeyCodes::LeftBrace
        } else if c == 12 {
            KeyCodes::RightBrace
        } else if c == 13 {
            KeyCodes::BackSlash
        } else {
            KeyCodes::Delete
        }
    } else if r == 2 {
        if c == 0 {
            KeyCodes::CapsLock
        } else if c == 1 {
            KeyCodes::KeyA
        } else if c == 2 {
            KeyCodes::KeyS
        } else if c == 3 {
            KeyCodes::KeyD
        } else if c == 4 {
            KeyCodes::KeyF
        } else if c == 5 {
            KeyCodes::KeyG
        } else if c == 6 {
            KeyCodes::KeyH
        } else if c == 7 {
            KeyCodes::KeyJ
        } else if c == 8 {
            KeyCodes::KeyK
        } else if c == 9 {
            KeyCodes::KeyL
        } else if c == 10 {
            KeyCodes::SemiColon
        } else if c == 11 {
            KeyCodes::Apostrophe
        } else if c == 12 {
            KeyCodes::Reserved
        } else if c == 13 {
            KeyCodes::Enter
        } else {
            KeyCodes::Reserved
        }
    } else if r == 3 {
        if c == 0 {
            KeyCodes::Reserved
        } else if c == 1 {
            KeyCodes::KeyZ
        } else if c == 2 {
            KeyCodes::KeyX
        } else if c == 3 {
            KeyCodes::KeyC
        } else if c == 4 {
            KeyCodes::KeyV
        } else if c == 5 {
            KeyCodes::KeyB
        } else if c == 6 {
            KeyCodes::KeyN
        } else if c == 7 {
            KeyCodes::KeyM
        } else if c == 8 {
            KeyCodes::Comma
        } else if c == 9 {
            KeyCodes::Dot
        } else if c == 10 {
            KeyCodes::Slash
        } else if c == 11 {
            KeyCodes::Reserved
        } else if c == 12 {
            KeyCodes::Reserved
        } else if c == 13 {
            KeyCodes::Up
        } else {
            KeyCodes::Reserved
        }
    } else if r == 4 {
        if c == 0 {
            KeyCodes::Reserved
        } else if c == 1 {
            KeyCodes::Reserved
        } else if c == 2 {
            KeyCodes::Reserved
        } else if c == 3 {
            KeyCodes::Reserved
        } else if c == 4 {
            KeyCodes::Reserved
        } else if c == 5 {
            KeyCodes::Space
        } else if c == 6 {
            KeyCodes::Reserved
        } else if c == 7 {
            KeyCodes::Reserved
        } else if c == 8 {
            KeyCodes::Reserved
        } else if c == 9 {
            KeyCodes::Reserved
        } else if c == 10 {
            KeyCodes::Reserved
        } else if c == 11 {
            KeyCodes::Left
        } else if c == 12 {
            KeyCodes::Reserved
        } else if c == 13 {
            KeyCodes::Down
        } else {
            KeyCodes::Right
        }
    } else {
        KeyCodes::Reserved
    }
}

/// The key identity at cell (`r`, `c`) under the selected layer.
pub fn layer_key(fn_layer: bool, r: usize, c: usize) -> (k: KeyCodes)
    requires
        r < 5,
        c < 15,
    ensures
        k == spec_layer_key(fn_layer, r as int, c as int),
{
    if fn_layer {
        fn_key(r, c)
    } else {
        base_key(r, c)
    }
}

} // verus!
