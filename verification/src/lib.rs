//! A computer keyboard played as a piano.
//!
//! Every physical key press and release is handed to a [`MusicalKeyboard`],
//! which answers with at most one [`NoteEvent`]. The keyboard keeps a base
//! octave, a velocity, an on/off switch, the state of the Ctrl modifier and
//! the octave at which each held key started to sound.
//!
//! The behaviour is stated once, as the transition function
//! [`keyboard::step`] over the abstract state [`KeyboardModel`]; the
//! executable methods are proved to follow it, and the module `laws` proves
//! what follows for whole sessions.

pub mod keys;
pub mod note;
pub mod layout;
pub mod keyboard;
pub mod laws;

pub use keyboard::{KeyboardModel, MusicalKeyboard};
pub use keys::Key;
pub use note::{Letter, NoteEvent, Octave, Velocity};
