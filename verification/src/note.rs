//! Notes and the events that start and stop them.

use vstd::prelude::*;

verus! {

/// The twelve pitch classes of the chromatic scale, sharps spelled `sh`.
#[derive(Copy, Clone, Debug, PartialEq, Eq, Structural, Hash)]
pub enum Letter {
    C,
    Csh,
    D,
    Dsh,
    E,
    F,
    Fsh,
    G,
    Gsh,
    A,
    Ash,
    B,
}

/// The register of a note; higher is higher in pitch.
pub type Octave = i32;

/// The loudness of a note in hundredths: 0 is silent, 100 is full.
pub type Velocity = u8;

/// The loudest velocity.
pub const FULL_VELOCITY: Velocity = 100;

/// By how much one press of a velocity key changes the velocity.
pub const VELOCITY_STEP: Velocity = 5;

/// The lowest base octave that the octave keys reach.
pub const LOWEST_OCTAVE: Octave = -2;

/// The highest base octave that the octave keys reach.
pub const HIGHEST_OCTAVE: Octave = 12;

/// What the keyboard tells its listener.
#[derive(Copy, Clone, Debug, PartialEq, Eq, Structural)]
pub enum NoteEvent {
    /// A note starts to sound, with its velocity.
    On(Letter, Octave, Velocity),
    /// A note stops sounding.
    Off(Letter, Octave),
}

} // verus!
