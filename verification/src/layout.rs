//! The fixed piano layout: the home row plays the white keys from C upwards,
//! the row above it the black keys between them.

use vstd::prelude::*;
use crate::keys::{
    Key, KEY_A, KEY_D, KEY_E, KEY_F, KEY_G, KEY_H, KEY_J, KEY_K, KEY_L, KEY_O, KEY_P, KEY_QUOTE,
    KEY_S, KEY_SEMICOLON, KEY_T, KEY_U, KEY_W, KEY_Y,
};
use crate::keys::{is_adjust_key, is_ctrl_key};
use crate::note::{Letter, Octave};

verus! {

/// The layout as a table: for each key that plays a note, how many octaves
/// above the base octave the note lies, and its letter.
pub open spec fn layout_table() -> Map<Key, (Octave, Letter)> {
    map![
        KEY_A => (0i32, Letter::C),
        KEY_W => (0i32, Letter::Csh),
        KEY_S => (0i32, Letter::D),
        KEY_E => (0i32, Letter::Dsh),
        KEY_D => (0i32, Letter::E),
        KEY_F => (0i32, Letter::F),
        KEY_T => (0i32, Letter::Fsh),
        KEY_G => (0i32, Letter::G),
        KEY_Y => (0i32, Letter::Gsh),
        KEY_H => (0i32, Letter::A),
        KEY_U => (0i32, Letter::Ash),
        KEY_J => (0i32, Letter::B),
        KEY_K => (1i32, Letter::C),
        KEY_O => (1i32, Letter::Csh),
        KEY_L => (1i32, Letter::D),
        KEY_P => (1i32, Letter::Dsh),
        KEY_SEMICOLON => (1i32, Letter::E),
        KEY_QUOTE => (1i32, Letter::F),
    ]
}

/// The note that `key` plays, as the octave above the base octave and the
/// letter; `None` for a key that plays nothing.
pub open spec fn layout(key: Key) -> Option<(Octave, Letter)> {
    if layout_table().contains_key(key) {
        Some(layout_table()[key])
    } else {
        None
    }
}

/// Looks `key` up in the layout.
pub fn lookup(key: Key) -> (note: Option<(Octave, Letter)>)
    ensures
        note == layout(key),
{
    if key == KEY_A {
        Some((0, Letter::C))
    } else if key == KEY_W {
        Some((0, Letter::Csh))
    } else if key == KEY_S {
        Some((0, Letter::D))
    } else if key == KEY_E {
        Some((0, Letter::Dsh))
    } else if key == KEY_D {
        Some((0, Letter::E))
    } else if key == KEY_F {
        Some((0, Letter::F))
    } else if key == KEY_T {
        Some((0, Letter::Fsh))
    } else if key == KEY_G {
        Some((0, Letter::G))
    } else if key == KEY_Y {
        Some((0, Letter::Gsh))
    } else if key == KEY_H {
        Some((0, Letter::A))
    } else if key == KEY_U {
        Some((0, Letter::Ash))
    } else if key == KEY_J {
        Some((0, Letter::B))
    } else if key == KEY_K {
        Some((1, Letter::C))
    } else if key == KEY_O {
        Some((1, Letter::Csh))
    } else if key == KEY_L {
        Some((1, Letter::D))
    } else if key == KEY_P {
        Some((1, Letter::Dsh))
    } else if key == KEY_SEMICOLON {
        Some((1, Letter::E))
    } else if key == KEY_QUOTE {
        Some((1, Letter::F))
    } else {
        None
    }
}

/// The layout has a note for exactly eighteen keys.
pub proof fn layout_has_eighteen_keys()
    ensures
        layout_table().dom().finite(),
        layout_table().dom().len() == 18,
{
    let listed = set![
        KEY_A, KEY_W, KEY_S, KEY_E, KEY_D, KEY_F, KEY_T, KEY_G, KEY_Y, KEY_H, KEY_U, KEY_J,
        KEY_K, KEY_O, KEY_L, KEY_P, KEY_SEMICOLON, KEY_QUOTE
    ];
    assert(layout_table().dom() =~= listed);
    broadcast use vstd::set::group_set_axioms;
}

/// Every note of the layout lies in the base octave or in the one above it.
pub proof fn layout_offsets(key: Key)
    ensures
        layout(key) matches Some((offset, _)) ==> offset == 0 || offset == 1,
{
}

/// No Ctrl key and no adjusting key plays a note.
pub proof fn layout_leaves_out_control_keys(key: Key)
    requires
        is_ctrl_key(key) || is_adjust_key(key),
    ensures
        layout(key).is_none(),
{
}

} // verus!
