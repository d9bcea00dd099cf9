//! The keyboard itself: its state, the transition function that says what
//! every key event does, and the methods that carry it out.

use std::collections::HashMap;
use vstd::prelude::*;
use crate::keys::{is_ctrl_key, ctrl_key, Key, KEY_C, KEY_TOGGLE, KEY_V, KEY_X, KEY_Z};
use crate::layout::{layout, lookup};
use crate::note::{
    Letter, NoteEvent, Octave, Velocity, FULL_VELOCITY, HIGHEST_OCTAVE, LOWEST_OCTAVE,
    VELOCITY_STEP,
};

verus! {

/// The state of a keyboard as a mathematical value.
pub struct KeyboardModel {
    /// The octave in which the first twelve keys of the layout sound.
    pub base_octave: Octave,
    /// The velocity given to the notes that start.
    pub base_velocity: Velocity,
    /// Whether the keyboard reacts to anything but Ctrl and the toggle.
    pub is_active: bool,
    /// Whether a Ctrl key is held.
    pub is_ctrl_pressed: bool,
    /// For each key that sounds, the octave in which it started to sound.
    pub pressed_notes: Map<Key, Octave>,
}

impl KeyboardModel {
    /// The base octave and the velocity lie within the limits that the
    /// adjusting keys respect.
    pub open spec fn in_bounds(self) -> bool {
        &&& LOWEST_OCTAVE <= self.base_octave <= HIGHEST_OCTAVE
        &&& self.base_velocity <= FULL_VELOCITY
    }

    /// The octave of the note that `key` plays can be computed: it is a
    /// machine integer.
    pub open spec fn note_fits(self, key: Key) -> bool {
        match layout(key) {
            Some((offset, _)) => self.base_octave + offset <= Octave::MAX,
            None => true,
        }
    }

    /// An event of `key` can be handled: where it asks for the note of the
    /// key, on an active keyboard with no Ctrl held, the note fits.
    pub open spec fn can_handle(self, key: Key) -> bool {
        self.is_active && !self.is_ctrl_pressed ==> self.note_fits(key)
    }
}

/// The octave that lies `offset` octaves above `base`.
pub open spec fn octave_above(base: Octave, offset: Octave) -> Octave {
    (base + offset) as Octave
}

/// Where the sum is a machine integer, the octave above is the sum.
pub proof fn octave_above_adds(base: Octave, offset: Octave)
    requires
        Octave::MIN <= base + offset <= Octave::MAX,
    ensures
        octave_above(base, offset) == base + offset,
{
}

/// One step of the base octave down, unless it is at its lowest.
pub open spec fn octave_down(s: KeyboardModel) -> KeyboardModel {
    if s.base_octave > LOWEST_OCTAVE {
        KeyboardModel { base_octave: (s.base_octave - 1) as Octave, ..s }
    } else {
        s
    }
}

/// One step of the base octave up, unless it is at its highest.
pub open spec fn octave_up(s: KeyboardModel) -> KeyboardModel {
    if s.base_octave < HIGHEST_OCTAVE {
        KeyboardModel { base_octave: (s.base_octave + 1) as Octave, ..s }
    } else {
        s
    }
}

/// One step of the velocity down, if it then still is above zero.
pub open spec fn velocity_down(s: KeyboardModel) -> KeyboardModel {
    if s.base_velocity - VELOCITY_STEP > 0 {
        KeyboardModel { base_velocity: (s.base_velocity - VELOCITY_STEP) as Velocity, ..s }
    } else {
        s
    }
}

/// One step of the velocity up, if it then still is below full.
pub open spec fn velocity_up(s: KeyboardModel) -> KeyboardModel {
    if s.base_velocity + VELOCITY_STEP < FULL_VELOCITY {
        KeyboardModel { base_velocity: (s.base_velocity + VELOCITY_STEP) as Velocity, ..s }
    } else {
        s
    }
}

/// The note that `key` plays now: its letter, and its octave counted from
/// the base octave.
pub open spec fn note_of(s: KeyboardModel, key: Key) -> Option<(Letter, Octave)> {
    match layout(key) {
        Some((offset, letter)) => Some((letter, octave_above(s.base_octave, offset))),
        None => None,
    }
}

/// A key goes down on an active keyboard with no Ctrl held. A key that plays
/// a note and does not sound yet starts to sound and is remembered with its
/// octave; any other key does nothing.
pub open spec fn note_on(s: KeyboardModel, key: Key) -> (KeyboardModel, Option<NoteEvent>) {
    match note_of(s, key) {
        Some((letter, octave)) => if s.pressed_notes.contains_key(key) {
            (s, None)
        } else {
            (
                KeyboardModel { pressed_notes: s.pressed_notes.insert(key, octave), ..s },
                Some(NoteEvent::On(letter, octave, s.base_velocity)),
            )
        },
        None => (s, None),
    }
}

/// A key goes up on an active keyboard with no Ctrl held. A key that plays a
/// note stops in the octave in which it started, or, if it was not known to
/// sound, in the octave in which it would start now; it is forgotten.
pub open spec fn note_off(s: KeyboardModel, key: Key) -> (KeyboardModel, Option<NoteEvent>) {
    match note_of(s, key) {
        Some((letter, octave)) => (
            KeyboardModel { pressed_notes: s.pressed_notes.remove(key), ..s },
            Some(
                NoteEvent::Off(
                    letter,
                    if s.pressed_notes.contains_key(key) {
                        s.pressed_notes[key]
                    } else {
                        octave
                    },
                ),
            ),
        ),
        None => (s, None),
    }
}

/// What one key event does: the state after it and the event it gives.
///
/// - A Ctrl key sets the Ctrl flag to `is_pressed`, whatever else holds.
/// - While Ctrl is held, pressing the toggle key switches the keyboard on or
///   off, and every other event does nothing.
/// - A keyboard that is off does nothing.
/// - Pressing an adjusting key moves the base octave or the velocity by one
///   step within its limits.
/// - Every other press is a note on, every other release a note off.
pub open spec fn step(s: KeyboardModel, key: Key, is_pressed: bool) -> (
    KeyboardModel,
    Option<NoteEvent>,
) {
    if is_ctrl_key(key) {
        (KeyboardModel { is_ctrl_pressed: is_pressed, ..s }, None)
    } else if s.is_ctrl_pressed {
        if key == KEY_TOGGLE && is_pressed {
            (KeyboardModel { is_active: !s.is_active, ..s }, None)
        } else {
            (s, None)
        }
    } else if !s.is_active {
        (s, None)
    } else if is_pressed && key == KEY_Z {
        (octave_down(s), None)
    } else if is_pressed && key == KEY_X {
        (octave_up(s), None)
    } else if is_pressed && key == KEY_C {
        (velocity_down(s), None)
    } else if is_pressed && key == KEY_V {
        (velocity_up(s), None)
    } else if is_pressed {
        note_on(s, key)
    } else {
        note_off(s, key)
    }
}

/// Turns key presses and releases into the notes of a piano.
#[derive(Clone, Debug)]
pub struct MusicalKeyboard {
    /// The current base octave.
    pub octave: Octave,
    /// The velocity of the notes that start.
    pub velocity: Velocity,
    /// Whether the keyboard is switched on.
    pub is_active: bool,
    /// Whether a Ctrl key is held.
    pub is_ctrl_pressed: bool,
    /// The keys that sound, each with the octave in which it started.
    pub currently_pressed_keys: HashMap<Key, Octave>,
}

impl View for MusicalKeyboard {
    type V = KeyboardModel;

    open spec fn view(&self) -> KeyboardModel {
        KeyboardModel {
            base_octave: self.octave,
            base_velocity: self.velocity,
            is_active: self.is_active,
            is_ctrl_pressed: self.is_ctrl_pressed,
            pressed_notes: self.currently_pressed_keys@,
        }
    }
}

impl MusicalKeyboard {
    /// A keyboard with the given base octave, velocity and switch, with no
    /// Ctrl held and no key sounding.
    pub fn new(octave: Octave, velocity: Velocity, is_active: bool) -> (keyboard: MusicalKeyboard)
        ensures
            keyboard@ == (KeyboardModel {
                base_octave: octave,
                base_velocity: velocity,
                is_active,
                is_ctrl_pressed: false,
                pressed_notes: Map::empty(),
            }),
    {
        MusicalKeyboard {
            octave,
            velocity,
            is_active,
            is_ctrl_pressed: false,
            currently_pressed_keys: HashMap::with_capacity(64),
        }
    }

    /// A keyboard that is switched on, in octave 2, at full velocity.
    pub fn default() -> (keyboard: MusicalKeyboard)
        ensures
            keyboard@ == (KeyboardModel {
                base_octave: 2,
                base_velocity: FULL_VELOCITY,
                is_active: true,
                is_ctrl_pressed: false,
                pressed_notes: Map::empty(),
            }),
            keyboard@.in_bounds(),
    {
        MusicalKeyboard::new(2, FULL_VELOCITY, true)
    }

    /// Handles a key that went down.
    pub fn key_pressed(&mut self, key: Key) -> (event: Option<NoteEvent>)
        requires
            old(self)@.can_handle(key),
        ensures
            (final(self)@, event) == step(old(self)@, key, true),
            old(self)@.in_bounds() ==> final(self)@.in_bounds(),
    {
        self.handle_input(key, true)
    }

    /// Handles a key that went up.
    pub fn key_released(&mut self, key: Key) -> (event: Option<NoteEvent>)
        requires
            old(self)@.can_handle(key),
        ensures
            (final(self)@, event) == step(old(self)@, key, false),
            old(self)@.in_bounds() ==> final(self)@.in_bounds(),
    {
        self.handle_input(key, false)
    }

    /// Handles one key event:
    /// - Z steps the octave down, X steps it up;
    /// - C steps the velocity down, V steps it up;
    /// - Ctrl + K switches the keyboard on and off;
    /// - the home row and part of the row above start notes and stop them.
    pub fn handle_input(&mut self, key: Key, is_pressed: bool) -> (event: Option<NoteEvent>)
        requires
            old(self)@.can_handle(key),
        ensures
            (final(self)@, event) == step(old(self)@, key, is_pressed),
            old(self)@.in_bounds() ==> final(self)@.in_bounds(),
    {
        if ctrl_key(key) {
            self.is_ctrl_pressed = is_pressed;
            return None;
        }
        if self.is_ctrl_pressed {
            if key == KEY_TOGGLE && is_pressed {
                self.is_active = !self.is_active;
            }
            return None;
        }
        if !self.is_active {
            return None;
        }
        if !is_pressed {
            return self.maybe_note_off(key);
        }
        if key == KEY_Z {
            if self.octave > LOWEST_OCTAVE {
                self.octave -= 1;
            }
        } else if key == KEY_X {
            if self.octave < HIGHEST_OCTAVE {
                self.octave += 1;
            }
        } else if key == KEY_C {
            if self.velocity > VELOCITY_STEP {
                self.velocity -= VELOCITY_STEP;
            }
        } else if key == KEY_V {
            if self.velocity < FULL_VELOCITY - VELOCITY_STEP {
                self.velocity += VELOCITY_STEP;
            }
        } else {
            return self.maybe_note_on(key);
        }
        None
    }

    /// The note that `key` plays in the current base octave, if it plays one.
    /// The keys model a piano, with A as its C.
    pub fn maybe_note(&mut self, key: Key) -> (note: Option<(Letter, Octave)>)
        requires
            old(self)@.note_fits(key),
        ensures
            *final(self) == *old(self),
            note == note_of(old(self)@, key),
    {
        match lookup(key) {
            Some((offset, letter)) => Some((letter, offset + self.octave)),
            None => None,
        }
    }

    /// A key that plays a note went down: the note starts, unless the key
    /// sounds already, as it does when the window system repeats a held key.
    pub fn maybe_note_on(&mut self, key: Key) -> (event: Option<NoteEvent>)
        requires
            old(self)@.note_fits(key),
        ensures
            (final(self)@, event) == note_on(old(self)@, key),
    {
        match self.maybe_note(key) {
            Some((letter, octave)) => {
                if self.currently_pressed_keys.contains_key(&key) {
                    None
                } else {
                    self.currently_pressed_keys.insert(key, octave);
                    Some(NoteEvent::On(letter, octave, self.velocity))
                }
            },
            None => None,
        }
    }

    /// A key that plays a note went up: the note stops.
    pub fn maybe_note_off(&mut self, key: Key) -> (event: Option<NoteEvent>)
        requires
            old(self)@.note_fits(key),
        ensures
            (final(self)@, event) == note_off(old(self)@, key),
    {
        match self.maybe_note(key) {
            Some((letter, octave)) => {
                match self.currently_pressed_keys.remove(&key) {
                    Some(old_octave) => Some(NoteEvent::Off(letter, old_octave)),
                    None => Some(NoteEvent::Off(letter, octave)),
                }
            },
            None => None,
        }
    }
}

} // verus!
