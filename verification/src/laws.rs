//! What holds of every keyboard and of every session played on it, proved
//! from the transition function.

use vstd::prelude::*;
use crate::keyboard::{note_on, octave_above, step, KeyboardModel};
use crate::keys::{is_ctrl_key, Key, KEY_TOGGLE};
use crate::layout::layout;
use crate::note::{
    Letter, NoteEvent, FULL_VELOCITY, HIGHEST_OCTAVE, LOWEST_OCTAVE, VELOCITY_STEP,
};

verus! {

/// The state that a session leaves: `events` handled one after the other,
/// each a key and whether it went down, starting in `s`.
pub open spec fn run(s: KeyboardModel, events: Seq<(Key, bool)>) -> KeyboardModel
    decreases events.len(),
{
    if events.len() == 0 {
        s
    } else {
        step(run(s, events.drop_last()), events.last().0, events.last().1).0
    }
}

/// Whether `events` holds no release of `key`.
pub open spec fn never_released(events: Seq<(Key, bool)>, key: Key) -> bool {
    forall|i: int| 0 <= i < events.len() ==> #[trigger] events[i] != (key, false)
}

/// A Ctrl key changes the Ctrl flag and nothing else, and gives no event,
/// whether the keyboard is on or off.
pub proof fn ctrl_key_only_sets_flag(s: KeyboardModel, key: Key, is_pressed: bool)
    requires
        is_ctrl_key(key),
    ensures
        step(s, key, is_pressed) == (KeyboardModel { is_ctrl_pressed: is_pressed, ..s }, None::<NoteEvent>),
{
}

/// Only the key of an event can start to sound by it, and only when it goes
/// down; every key that sounds afterwards and sounded before has kept its
/// octave.
pub proof fn sounding_keys_change_by_own_events(
    s: KeyboardModel,
    key: Key,
    is_pressed: bool,
    other: Key,
)
    ensures
        step(s, key, is_pressed).0.pressed_notes.contains_key(other) ==> {
            ||| s.pressed_notes.contains_key(other) && step(
                s,
                key,
                is_pressed,
            ).0.pressed_notes[other] == s.pressed_notes[other]
            ||| other == key && is_pressed && layout(key).is_some()
        },
        s.pressed_notes.contains_key(other) && !(other == key && !is_pressed) ==> step(
            s,
            key,
            is_pressed,
        ).0.pressed_notes.contains_key(other),
{
}

/// A key that sounds keeps sounding, in the octave in which it started,
/// through every session that does not release it.
pub proof fn sounding_octave_is_kept(s: KeyboardModel, key: Key, events: Seq<(Key, bool)>)
    requires
        s.pressed_notes.contains_key(key),
        never_released(events, key),
    ensures
        run(s, events).pressed_notes.contains_key(key),
        run(s, events).pressed_notes[key] == s.pressed_notes[key],
    decreases events.len(),
{
    if events.len() > 0 {
        let earlier = events.drop_last();
        assert forall|i: int| 0 <= i < earlier.len() implies #[trigger] earlier[i] != (
            key,
            false,
        ) by {
            assert(earlier[i] == events[i]);
        }
        sounding_octave_is_kept(s, key, earlier);
        assert(events.last() == events[events.len() - 1]);
        sounding_keys_change_by_own_events(
            run(s, earlier),
            events.last().0,
            events.last().1,
            key,
        );
    }
}

/// Whether `events` holds no press of `key`.
pub open spec fn never_pressed(events: Seq<(Key, bool)>, key: Key) -> bool {
    forall|i: int| 0 <= i < events.len() ==> #[trigger] events[i] != (key, true)
}

/// A key that does not sound stays silent through every session that does
/// not press it.
pub proof fn silent_key_stays_silent(s: KeyboardModel, key: Key, events: Seq<(Key, bool)>)
    requires
        !s.pressed_notes.contains_key(key),
        never_pressed(events, key),
    ensures
        !run(s, events).pressed_notes.contains_key(key),
    decreases events.len(),
{
    if events.len() > 0 {
        let earlier = events.drop_last();
        assert forall|i: int| 0 <= i < earlier.len() implies #[trigger] earlier[i] != (
            key,
            true,
        ) by {
            assert(earlier[i] == events[i]);
        }
        silent_key_stays_silent(s, key, earlier);
        assert(events.last() == events[events.len() - 1]);
        sounding_keys_change_by_own_events(
            run(s, earlier),
            events.last().0,
            events.last().1,
            key,
        );
    }
}

/// A key of the layout that is released on an active keyboard with no Ctrl
/// held is forgotten, and stays so until it is pressed again.
pub proof fn released_key_is_forgotten(s: KeyboardModel, key: Key, after: Seq<(Key, bool)>)
    requires
        s.is_active,
        !s.is_ctrl_pressed,
        layout(key).is_some(),
        never_pressed(after, key),
    ensures
        !run(step(s, key, false).0, after).pressed_notes.contains_key(key),
{
    silent_key_stays_silent(step(s, key, false).0, key, after);
}

/// An event is given exactly for a key of the layout, on an active keyboard
/// with no Ctrl held, that goes up or that goes down without sounding
/// already. Going down it gives a note on, going up a note off.
pub proof fn event_is_given_exactly_for_notes(s: KeyboardModel, key: Key, is_pressed: bool)
    ensures
        step(s, key, is_pressed).1.is_some() <==> {
            &&& s.is_active
            &&& !s.is_ctrl_pressed
            &&& layout(key).is_some()
            &&& is_pressed ==> !s.pressed_notes.contains_key(key)
        },
        step(s, key, is_pressed).1 matches Some(NoteEvent::On(_, _, _)) ==> is_pressed,
        step(s, key, is_pressed).1 matches Some(NoteEvent::Off(_, _)) ==> !is_pressed,
{
}

/// A key that sounds never starts again: pressing it gives no event and
/// changes no note, in whatever state the keyboard is.
pub proof fn sounding_key_does_not_start_again(s: KeyboardModel, key: Key)
    requires
        s.pressed_notes.contains_key(key),
    ensures
        step(s, key, true).1.is_none(),
        step(s, key, true).0.pressed_notes == s.pressed_notes,
{
}

/// Pressing a key of the layout that does not sound, on an active keyboard
/// with no Ctrl held, starts its note; pressing it again gives nothing, as
/// long as it was not released in between, whatever else happened.
pub proof fn repeated_press_is_suppressed(s: KeyboardModel, key: Key, between: Seq<(Key, bool)>)
    requires
        s.is_active,
        !s.is_ctrl_pressed,
        layout(key).is_some(),
        !s.pressed_notes.contains_key(key),
        never_released(between, key),
    ensures
        step(s, key, true).1 == Some(
            NoteEvent::On(
                layout(key).unwrap().1,
                octave_above(s.base_octave, layout(key).unwrap().0),
                s.base_velocity,
            ),
        ),
        step(run(step(s, key, true).0, between), key, true).1.is_none(),
        step(run(step(s, key, true).0, between), key, true).0.pressed_notes == run(
            step(s, key, true).0,
            between,
        ).pressed_notes,
{
    let pressed = step(s, key, true).0;
    assert(pressed.pressed_notes.contains_key(key));
    sounding_octave_is_kept(pressed, key, between);
}

/// A note stops in the octave in which it started. Press a key of the layout
/// that does not sound, on an active keyboard with no Ctrl held; let anything
/// happen but its release, the base octave may move; then release it while
/// the keyboard is active with no Ctrl held: the note off names the letter
/// and the octave of the note on.
pub proof fn release_reports_octave_of_press(
    s: KeyboardModel,
    key: Key,
    between: Seq<(Key, bool)>,
)
    requires
        s.is_active,
        !s.is_ctrl_pressed,
        layout(key).is_some(),
        !s.pressed_notes.contains_key(key),
        never_released(between, key),
        run(step(s, key, true).0, between).is_active,
        !run(step(s, key, true).0, between).is_ctrl_pressed,
    ensures
        step(s, key, true).1 == Some(
            NoteEvent::On(
                layout(key).unwrap().1,
                octave_above(s.base_octave, layout(key).unwrap().0),
                s.base_velocity,
            ),
        ),
        step(run(step(s, key, true).0, between), key, false).1 == Some(
            NoteEvent::Off(
                layout(key).unwrap().1,
                octave_above(s.base_octave, layout(key).unwrap().0),
            ),
        ),
        !step(run(step(s, key, true).0, between), key, false).0.pressed_notes.contains_key(key),
{
    let pressed = step(s, key, true).0;
    assert(pressed.pressed_notes.contains_key(key));
    sounding_octave_is_kept(pressed, key, between);
}

/// A key that is not known to sound stops, when released on an active
/// keyboard with no Ctrl held, in the octave in which it would start now.
pub proof fn release_without_press_uses_base_octave(s: KeyboardModel, key: Key)
    requires
        s.is_active,
        !s.is_ctrl_pressed,
        layout(key).is_some(),
        !s.pressed_notes.contains_key(key),
    ensures
        step(s, key, false) == (
            s,
            Some(
                NoteEvent::Off(
                    layout(key).unwrap().1,
                    octave_above(s.base_octave, layout(key).unwrap().0),
                ),
            ),
        ),
{
    assert(s.pressed_notes.remove(key) =~= s.pressed_notes);
}

/// No event moves the base octave or the velocity by more than one step, and
/// none moves either across a limit: a base octave that is at most the
/// highest stays so, one that is at least the lowest stays so, a velocity
/// that is at most full stays so, and one above zero stays above zero.
pub proof fn step_keeps_bounds(s: KeyboardModel, key: Key, is_pressed: bool)
    ensures
        ({
            let t = step(s, key, is_pressed).0;
            &&& t.base_octave == s.base_octave || t.base_octave == s.base_octave - 1
                || t.base_octave == s.base_octave + 1
            &&& t.base_velocity == s.base_velocity || t.base_velocity == s.base_velocity
                - VELOCITY_STEP || t.base_velocity == s.base_velocity + VELOCITY_STEP
            &&& s.base_octave <= HIGHEST_OCTAVE ==> t.base_octave <= HIGHEST_OCTAVE
            &&& s.base_octave >= LOWEST_OCTAVE ==> t.base_octave >= LOWEST_OCTAVE
            &&& s.base_velocity <= FULL_VELOCITY ==> t.base_velocity <= FULL_VELOCITY
            &&& s.base_velocity > 0 ==> t.base_velocity > 0
            &&& s.in_bounds() ==> t.in_bounds()
        }),
{
}

/// On a keyboard within its limits every key can be handled: the octave of
/// its note is a machine integer, the base octave or the one above it.
pub proof fn notes_fit_within_bounds(s: KeyboardModel, key: Key)
    requires
        s.in_bounds(),
    ensures
        s.note_fits(key),
        s.can_handle(key),
        layout(key) matches Some((offset, _)) ==> LOWEST_OCTAVE <= octave_above(
            s.base_octave,
            offset,
        ) <= HIGHEST_OCTAVE + 1 && octave_above(s.base_octave, offset) == s.base_octave + offset,
{
}

/// However often the octave and velocity keys are pressed, and whatever else
/// happens, a keyboard that is within its limits stays within them.
pub proof fn bounds_hold_forever(s: KeyboardModel, events: Seq<(Key, bool)>)
    requires
        s.in_bounds(),
    ensures
        run(s, events).in_bounds(),
    decreases events.len(),
{
    if events.len() > 0 {
        bounds_hold_forever(s, events.drop_last());
        step_keeps_bounds(run(s, events.drop_last()), events.last().0, events.last().1);
    }
}

/// A keyboard that is off gives no event and keeps its base octave, its
/// velocity and its sounding keys, whatever key goes down or up. It is
/// switched on again by the toggle key going down while Ctrl is held, and by
/// nothing else.
pub proof fn inactive_keyboard_is_silent(s: KeyboardModel, key: Key, is_pressed: bool)
    requires
        !s.is_active,
    ensures
        step(s, key, is_pressed).1.is_none(),
        step(s, key, is_pressed).0.base_octave == s.base_octave,
        step(s, key, is_pressed).0.base_velocity == s.base_velocity,
        step(s, key, is_pressed).0.pressed_notes == s.pressed_notes,
        step(s, key, is_pressed).0.is_active <==> s.is_ctrl_pressed && key == KEY_TOGGLE
            && is_pressed,
{
}

/// Without Ctrl the toggle key is a key like any other: pressing it leaves
/// the switch as it is, and on an active keyboard it plays its note, the C
/// above the base octave, unless it sounds already.
pub proof fn toggle_key_without_ctrl_plays(s: KeyboardModel)
    requires
        !s.is_ctrl_pressed,
    ensures
        step(s, KEY_TOGGLE, true).0.is_active == s.is_active,
        s.is_active ==> step(s, KEY_TOGGLE, true) == note_on(s, KEY_TOGGLE),
        s.is_active && !s.pressed_notes.contains_key(KEY_TOGGLE) ==> step(s, KEY_TOGGLE, true).1
            == Some(NoteEvent::On(Letter::C, octave_above(s.base_octave, 1), s.base_velocity)),
        s.is_active && s.pressed_notes.contains_key(KEY_TOGGLE) ==> step(
            s,
            KEY_TOGGLE,
            true,
        ).1.is_none(),
{
}

/// While Ctrl is held nothing but the toggle happens: no event is given, and
/// base octave, velocity and sounding keys stay as they are.
pub proof fn ctrl_chord_is_inert(s: KeyboardModel, key: Key, is_pressed: bool)
    requires
        s.is_ctrl_pressed,
        !is_ctrl_key(key),
    ensures
        step(s, key, is_pressed).1.is_none(),
        step(s, key, is_pressed).0 == (KeyboardModel {
            is_active: if key == KEY_TOGGLE && is_pressed {
                !s.is_active
            } else {
                s.is_active
            },
            ..s
        }),
{
}

} // verus!
