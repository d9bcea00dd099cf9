//! Physical key identities.
//!
//! A key is known by its key code: the lower-case ASCII code of the character
//! it prints, or, for keys that print nothing, the scancode with bit 30 set.

use vstd::prelude::*;

verus! {

/// The code of a physical key.
pub type Key = u32;

pub const KEY_QUOTE: Key = 0x27;
pub const KEY_SEMICOLON: Key = 0x3B;
pub const KEY_A: Key = 0x61;
pub const KEY_C: Key = 0x63;
pub const KEY_D: Key = 0x64;
pub const KEY_E: Key = 0x65;
pub const KEY_F: Key = 0x66;
pub const KEY_G: Key = 0x67;
pub const KEY_H: Key = 0x68;
pub const KEY_J: Key = 0x6A;
pub const KEY_K: Key = 0x6B;
pub const KEY_L: Key = 0x6C;
pub const KEY_O: Key = 0x6F;
pub const KEY_P: Key = 0x70;
pub const KEY_S: Key = 0x73;
pub const KEY_T: Key = 0x74;
pub const KEY_U: Key = 0x75;
pub const KEY_V: Key = 0x76;
pub const KEY_W: Key = 0x77;
pub const KEY_X: Key = 0x78;
pub const KEY_Y: Key = 0x79;
pub const KEY_Z: Key = 0x7A;
pub const KEY_LCTRL: Key = 0x4000_00E0;
pub const KEY_RCTRL: Key = 0x4000_00E4;

/// The key that switches the keyboard on and off while Ctrl is held.
pub const KEY_TOGGLE: Key = 0x6B;

/// Whether `key` is one of the two Ctrl keys.
pub open spec fn is_ctrl_key(key: Key) -> bool {
    key == KEY_LCTRL || key == KEY_RCTRL
}

/// Whether `key` is one of the four keys that adjust octave and velocity.
pub open spec fn is_adjust_key(key: Key) -> bool {
    key == KEY_Z || key == KEY_X || key == KEY_C || key == KEY_V
}

/// Tells the two Ctrl keys from all others.
pub fn ctrl_key(key: Key) -> (ctrl: bool)
    ensures
        ctrl == is_ctrl_key(key),
{
    key == KEY_LCTRL || key == KEY_RCTRL
}

} // verus!
