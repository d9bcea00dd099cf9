use musical_keyboard::keys::{
    KEY_A, KEY_C, KEY_D, KEY_K, KEY_LCTRL, KEY_RCTRL, KEY_SEMICOLON, KEY_V, KEY_X, KEY_Z,
};
use musical_keyboard::{Letter, MusicalKeyboard, NoteEvent};

const KEY_Q: u32 = 0x71;

#[test]
fn default_keyboard_is_active_in_octave_two_at_full_velocity() {
    let keyboard = MusicalKeyboard::default();
    assert_eq!(keyboard.octave, 2);
    assert_eq!(keyboard.velocity, 100);
    assert!(keyboard.is_active);
    assert!(!keyboard.is_ctrl_pressed);
    assert!(keyboard.currently_pressed_keys.is_empty());
}

#[test]
fn new_keyboard_takes_its_arguments() {
    let keyboard = MusicalKeyboard::new(-1, 40, false);
    assert_eq!(keyboard.octave, -1);
    assert_eq!(keyboard.velocity, 40);
    assert!(!keyboard.is_active);
    assert!(!keyboard.is_ctrl_pressed);
    assert!(keyboard.currently_pressed_keys.is_empty());
}

#[test]
fn first_key_of_the_home_row_plays_c() {
    let mut keyboard = MusicalKeyboard::default();
    assert_eq!(keyboard.key_pressed(KEY_A), Some(NoteEvent::On(Letter::C, 2, 100)));
}

#[test]
fn unmapped_key_is_ignored_and_upper_e_sounds_an_octave_up() {
    let mut keyboard = MusicalKeyboard::default();
    assert_eq!(keyboard.key_pressed(KEY_Q), None);
    assert!(keyboard.currently_pressed_keys.is_empty());
    assert_eq!(keyboard.key_pressed(KEY_SEMICOLON), Some(NoteEvent::On(Letter::E, 3, 100)));
    assert_eq!(keyboard.key_released(KEY_SEMICOLON), Some(NoteEvent::Off(Letter::E, 3)));
    assert!(keyboard.currently_pressed_keys.is_empty());
}

#[test]
fn octave_up_and_velocity_down_shape_the_next_note() {
    let mut keyboard = MusicalKeyboard::default();
    assert_eq!(keyboard.key_pressed(KEY_A), Some(NoteEvent::On(Letter::C, 2, 100)));
    assert_eq!(keyboard.key_pressed(KEY_X), None);
    assert_eq!(keyboard.octave, 3);
    assert_eq!(keyboard.key_pressed(KEY_C), None);
    assert_eq!(keyboard.velocity, 95);
    assert_eq!(keyboard.key_pressed(KEY_SEMICOLON), Some(NoteEvent::On(Letter::E, 4, 95)));
}

#[test]
fn example_session() {
    let mut keyboard = MusicalKeyboard::default();
    assert_eq!(keyboard.key_pressed(KEY_A), Some(NoteEvent::On(Letter::C, 2, 100)));
    keyboard.key_pressed(KEY_X);
    assert_eq!(keyboard.key_pressed(KEY_D), Some(NoteEvent::On(Letter::E, 3, 100)));
    assert_eq!(keyboard.key_released(KEY_D), Some(NoteEvent::Off(Letter::E, 3)));
    keyboard.key_pressed(KEY_C);
    assert_eq!(keyboard.key_pressed(KEY_SEMICOLON), Some(NoteEvent::On(Letter::E, 4, 95)));
}

#[test]
fn held_key_does_not_start_again() {
    let mut keyboard = MusicalKeyboard::default();
    assert_eq!(keyboard.key_pressed(KEY_A), Some(NoteEvent::On(Letter::C, 2, 100)));
    assert_eq!(keyboard.key_pressed(KEY_A), None);
    assert_eq!(keyboard.key_pressed(KEY_A), None);
    assert_eq!(keyboard.currently_pressed_keys.len(), 1);
    assert_eq!(keyboard.key_released(KEY_A), Some(NoteEvent::Off(Letter::C, 2)));
    assert_eq!(keyboard.key_pressed(KEY_A), Some(NoteEvent::On(Letter::C, 2, 100)));
}

#[test]
fn note_stops_in_the_octave_in_which_it_started() {
    let mut keyboard = MusicalKeyboard::default();
    assert_eq!(keyboard.key_pressed(KEY_A), Some(NoteEvent::On(Letter::C, 2, 100)));
    assert_eq!(keyboard.key_pressed(KEY_X), None);
    assert_eq!(keyboard.key_pressed(KEY_X), None);
    assert_eq!(keyboard.octave, 4);
    assert_eq!(keyboard.key_released(KEY_A), Some(NoteEvent::Off(Letter::C, 2)));
    assert!(keyboard.currently_pressed_keys.is_empty());
}

#[test]
fn repeated_press_keeps_the_remembered_octave() {
    let mut keyboard = MusicalKeyboard::default();
    assert_eq!(keyboard.key_pressed(KEY_K), Some(NoteEvent::On(Letter::C, 3, 100)));
    assert_eq!(keyboard.key_pressed(KEY_Z), None);
    assert_eq!(keyboard.key_pressed(KEY_K), None);
    assert_eq!(keyboard.currently_pressed_keys.get(&KEY_K), Some(&3));
    assert_eq!(keyboard.key_released(KEY_K), Some(NoteEvent::Off(Letter::C, 3)));
}

#[test]
fn release_without_press_uses_the_current_base_octave() {
    let mut keyboard = MusicalKeyboard::new(5, 100, true);
    assert_eq!(keyboard.key_released(KEY_SEMICOLON), Some(NoteEvent::Off(Letter::E, 6)));
    assert_eq!(keyboard.key_released(KEY_A), Some(NoteEvent::Off(Letter::C, 5)));
    assert!(keyboard.currently_pressed_keys.is_empty());
}

#[test]
fn octave_stops_at_twelve_and_at_minus_two() {
    let mut keyboard = MusicalKeyboard::default();
    for _ in 0..9 {
        assert_eq!(keyboard.key_pressed(KEY_X), None);
    }
    assert_eq!(keyboard.octave, 11);
    keyboard.key_pressed(KEY_X);
    assert_eq!(keyboard.octave, 12);
    for _ in 0..5 {
        keyboard.key_pressed(KEY_X);
        assert_eq!(keyboard.octave, 12);
    }
    for _ in 0..14 {
        assert_eq!(keyboard.key_pressed(KEY_Z), None);
    }
    assert_eq!(keyboard.octave, -2);
    for _ in 0..5 {
        keyboard.key_pressed(KEY_Z);
        assert_eq!(keyboard.octave, -2);
    }
    assert_eq!(keyboard.key_pressed(KEY_K), Some(NoteEvent::On(Letter::C, -1, 100)));
}

#[test]
fn velocity_moves_in_steps_of_five_between_zero_and_full() {
    let mut keyboard = MusicalKeyboard::default();
    assert_eq!(keyboard.key_pressed(KEY_V), None);
    assert_eq!(keyboard.velocity, 100);
    assert_eq!(keyboard.key_pressed(KEY_C), None);
    assert_eq!(keyboard.velocity, 95);
    assert_eq!(keyboard.key_pressed(KEY_C), None);
    assert_eq!(keyboard.velocity, 90);
    for _ in 0..17 {
        keyboard.key_pressed(KEY_C);
    }
    assert_eq!(keyboard.velocity, 5);
    for _ in 0..5 {
        keyboard.key_pressed(KEY_C);
        assert_eq!(keyboard.velocity, 5);
    }
    keyboard.key_pressed(KEY_V);
    assert_eq!(keyboard.velocity, 10);
    for _ in 0..17 {
        keyboard.key_pressed(KEY_V);
    }
    assert_eq!(keyboard.velocity, 95);
    for _ in 0..5 {
        keyboard.key_pressed(KEY_V);
        assert_eq!(keyboard.velocity, 95);
    }
}

#[test]
fn velocity_off_the_grid_stays_inside() {
    let mut keyboard = MusicalKeyboard::new(2, 7, true);
    keyboard.key_pressed(KEY_C);
    assert_eq!(keyboard.velocity, 2);
    keyboard.key_pressed(KEY_C);
    assert_eq!(keyboard.velocity, 2);
    let mut keyboard = MusicalKeyboard::new(2, 94, true);
    keyboard.key_pressed(KEY_V);
    assert_eq!(keyboard.velocity, 99);
    keyboard.key_pressed(KEY_V);
    assert_eq!(keyboard.velocity, 99);
}

#[test]
fn adjusting_keys_do_nothing_on_release() {
    let mut keyboard = MusicalKeyboard::default();
    assert_eq!(keyboard.key_released(KEY_X), None);
    assert_eq!(keyboard.key_released(KEY_Z), None);
    assert_eq!(keyboard.key_released(KEY_C), None);
    assert_eq!(keyboard.key_released(KEY_V), None);
    assert_eq!(keyboard.octave, 2);
    assert_eq!(keyboard.velocity, 100);
    assert!(keyboard.currently_pressed_keys.is_empty());
}

#[test]
fn inactive_keyboard_is_silent() {
    let mut keyboard = MusicalKeyboard::new(2, 50, false);
    assert_eq!(keyboard.key_pressed(KEY_A), None);
    assert_eq!(keyboard.key_released(KEY_A), None);
    assert_eq!(keyboard.key_pressed(KEY_X), None);
    assert_eq!(keyboard.key_pressed(KEY_Z), None);
    assert_eq!(keyboard.key_pressed(KEY_C), None);
    assert_eq!(keyboard.key_pressed(KEY_V), None);
    assert_eq!(keyboard.key_pressed(KEY_K), None);
    assert_eq!(keyboard.octave, 2);
    assert_eq!(keyboard.velocity, 50);
    assert!(!keyboard.is_active);
    assert!(keyboard.currently_pressed_keys.is_empty());
}

#[test]
fn ctrl_and_toggle_key_switch_the_keyboard() {
    let mut keyboard = MusicalKeyboard::new(2, 100, false);
    assert_eq!(keyboard.key_pressed(KEY_LCTRL), None);
    assert!(keyboard.is_ctrl_pressed);
    assert_eq!(keyboard.key_released(KEY_K), None);
    assert!(!keyboard.is_active);
    assert_eq!(keyboard.key_pressed(KEY_K), None);
    assert!(keyboard.is_active);
    assert_eq!(keyboard.key_released(KEY_K), None);
    assert_eq!(keyboard.key_released(KEY_LCTRL), None);
    assert!(!keyboard.is_ctrl_pressed);
    assert_eq!(keyboard.key_pressed(KEY_A), Some(NoteEvent::On(Letter::C, 2, 100)));
    assert_eq!(keyboard.key_pressed(KEY_RCTRL), None);
    assert!(keyboard.is_ctrl_pressed);
    assert_eq!(keyboard.key_pressed(KEY_K), None);
    assert!(!keyboard.is_active);
    assert_eq!(keyboard.key_released(KEY_RCTRL), None);
    assert!(!keyboard.is_ctrl_pressed);
    assert_eq!(keyboard.currently_pressed_keys.len(), 1);
}

#[test]
fn toggle_key_without_ctrl_plays_its_note() {
    let mut keyboard = MusicalKeyboard::default();
    assert_eq!(keyboard.key_pressed(KEY_K), Some(NoteEvent::On(Letter::C, 3, 100)));
    assert!(keyboard.is_active);
    assert_eq!(keyboard.key_released(KEY_K), Some(NoteEvent::Off(Letter::C, 3)));
    assert!(keyboard.is_active);
}

#[test]
fn ctrl_with_any_other_key_does_nothing() {
    let mut keyboard = MusicalKeyboard::default();
    keyboard.key_pressed(KEY_LCTRL);
    assert_eq!(keyboard.key_pressed(KEY_A), None);
    assert_eq!(keyboard.key_released(KEY_A), None);
    assert_eq!(keyboard.key_pressed(KEY_X), None);
    assert_eq!(keyboard.key_pressed(KEY_C), None);
    assert_eq!(keyboard.octave, 2);
    assert_eq!(keyboard.velocity, 100);
    assert!(keyboard.is_active);
    assert!(keyboard.currently_pressed_keys.is_empty());
}

#[test]
fn release_on_an_inactive_keyboard_is_not_seen() {
    let mut keyboard = MusicalKeyboard::default();
    assert_eq!(keyboard.key_pressed(KEY_A), Some(NoteEvent::On(Letter::C, 2, 100)));
    keyboard.key_pressed(KEY_LCTRL);
    keyboard.key_pressed(KEY_K);
    keyboard.key_released(KEY_LCTRL);
    assert_eq!(keyboard.key_released(KEY_A), None);
    assert_eq!(keyboard.currently_pressed_keys.get(&KEY_A), Some(&2));
}

#[test]
fn handle_input_is_what_press_and_release_call() {
    let mut by_name = MusicalKeyboard::default();
    let mut direct = MusicalKeyboard::default();
    assert_eq!(by_name.key_pressed(KEY_D), direct.handle_input(KEY_D, true));
    assert_eq!(by_name.key_released(KEY_D), direct.handle_input(KEY_D, false));
    assert_eq!(direct.handle_input(KEY_D, false), Some(NoteEvent::Off(Letter::E, 2)));
}

#[test]
fn clone_keeps_the_state() {
    let mut keyboard = MusicalKeyboard::default();
    keyboard.key_pressed(KEY_A);
    keyboard.key_pressed(KEY_X);
    let mut copy = keyboard.clone();
    assert_eq!(copy.octave, 3);
    assert_eq!(copy.key_released(KEY_A), Some(NoteEvent::Off(Letter::C, 2)));
    assert_eq!(keyboard.currently_pressed_keys.len(), 1);
}
