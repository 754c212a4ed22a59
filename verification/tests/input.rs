use morse_trainer::buffer::Signal;
use morse_trainer::input::{
    classify_press, interpret_key, Action, Edge, InputEvent, Interpreter, Key, KeyLevels,
    KeyState, KeyTracker,
};

fn levels(morse: bool, letter: bool, word: bool, backspace: bool, quit: bool) -> KeyLevels {
    KeyLevels {
        morse,
        letter_separator: letter,
        word_separator: word,
        backspace,
        quit,
    }
}

fn none_down() -> KeyLevels {
    levels(false, false, false, false, false)
}

#[test]
fn a_press_of_exactly_the_threshold_is_a_dot() {
    assert_eq!(classify_press(150, 150), Signal::Dot);
    assert_eq!(classify_press(0, 150), Signal::Dot);
    assert_eq!(classify_press(149, 150), Signal::Dot);
    assert_eq!(classify_press(0, 0), Signal::Dot);
    assert_eq!(classify_press(u64::MAX, u64::MAX), Signal::Dot);
}

#[test]
fn a_press_of_one_millisecond_more_is_a_dash() {
    assert_eq!(classify_press(151, 150), Signal::Dash);
    assert_eq!(classify_press(1, 0), Signal::Dash);
}

#[test]
fn a_press_is_a_dash_however_long() {
    assert_eq!(classify_press(3_600_000, 150), Signal::Dash);
    assert_eq!(classify_press(u64::MAX, 150), Signal::Dash);
}

#[test]
fn discrete_keys_map_to_their_actions() {
    assert_eq!(interpret_key(Key::Dot), Action::Append(Signal::Dot));
    assert_eq!(interpret_key(Key::Dash), Action::Append(Signal::Dash));
    assert_eq!(interpret_key(Key::LetterSeparator), Action::Append(Signal::LetterGap));
    assert_eq!(interpret_key(Key::WordSeparator), Action::Append(Signal::WordGap));
    assert_eq!(interpret_key(Key::Backspace), Action::Backspace);
    assert_eq!(interpret_key(Key::Quit), Action::Quit);
}

#[test]
fn unmapped_keys_are_ignored() {
    assert_eq!(interpret_key(Key::Other), Action::Ignore);
}

#[test]
fn key_state_goes_from_idle_to_pressed_and_back() {
    let mut key = KeyState::Idle;
    assert_eq!(key.observe(false, 0), Edge::Steady);
    assert_eq!(key, KeyState::Idle);
    assert_eq!(key.observe(true, 10), Edge::Press);
    assert_eq!(key, KeyState::Pressed { since_ms: 10 });
    assert_eq!(key.observe(true, 15), Edge::Steady);
    assert_eq!(key, KeyState::Pressed { since_ms: 10 });
    assert_eq!(key.observe(false, 130), Edge::Release { held_ms: 120 });
    assert_eq!(key, KeyState::Idle);
    assert_eq!(key.observe(false, 135), Edge::Steady);
}

#[test]
fn a_release_before_the_press_time_lasted_no_time() {
    let mut key = KeyState::Pressed { since_ms: 500 };
    assert_eq!(key.observe(false, 400), Edge::Release { held_ms: 0 });
}

#[test]
fn a_short_press_of_the_morse_key_is_a_dot_on_release() {
    let mut tracker = KeyTracker::new();
    assert!(tracker.poll(&levels(true, false, false, false, false), 1_000, 150).is_empty());
    assert!(tracker.poll(&levels(true, false, false, false, false), 1_005, 150).is_empty());
    let actions = tracker.poll(&none_down(), 1_150, 150);
    assert_eq!(actions, vec![Action::Append(Signal::Dot)]);
    assert!(tracker.poll(&none_down(), 1_155, 150).is_empty());
}

#[test]
fn a_long_press_of_the_morse_key_is_a_dash_on_release() {
    let mut tracker = KeyTracker::new();
    assert!(tracker.poll(&levels(true, false, false, false, false), 1_000, 150).is_empty());
    let actions = tracker.poll(&none_down(), 1_151, 150);
    assert_eq!(actions, vec![Action::Append(Signal::Dash)]);
}

#[test]
fn a_held_key_never_repeats() {
    let mut tracker = KeyTracker::new();
    for tick in 0..200u64 {
        let actions = tracker.poll(&levels(true, true, true, true, false), tick * 5, 150);
        assert!(actions.is_empty());
    }
    let actions = tracker.poll(&none_down(), 1_000, 150);
    assert_eq!(
        actions,
        vec![
            Action::Append(Signal::Dash),
            Action::Append(Signal::LetterGap),
            Action::Append(Signal::WordGap),
            Action::Backspace,
        ]
    );
    for tick in 0..10u64 {
        assert!(tracker.poll(&none_down(), 1_005 + tick * 5, 150).is_empty());
    }
}

#[test]
fn separators_and_backspace_act_on_release_not_on_press() {
    let mut tracker = KeyTracker::new();
    assert!(tracker.poll(&levels(false, true, false, false, false), 0, 150).is_empty());
    assert_eq!(tracker.poll(&none_down(), 5, 150), vec![Action::Append(Signal::LetterGap)]);
    assert!(tracker.poll(&levels(false, false, true, false, false), 10, 150).is_empty());
    assert_eq!(tracker.poll(&none_down(), 15, 150), vec![Action::Append(Signal::WordGap)]);
    assert!(tracker.poll(&levels(false, false, false, true, false), 20, 150).is_empty());
    assert_eq!(tracker.poll(&none_down(), 25, 150), vec![Action::Backspace]);
}

#[test]
fn a_quit_key_comes_before_everything_else() {
    let mut tracker = KeyTracker::new();
    tracker.poll(&levels(true, true, false, false, false), 0, 150);
    let before = tracker;
    let actions = tracker.poll(&levels(false, false, false, false, true), 100, 150);
    assert_eq!(actions, vec![Action::Quit]);
    assert_eq!(tracker, before);
}

#[test]
fn the_threshold_is_the_callers_choice() {
    let mut tracker = KeyTracker::new();
    tracker.poll(&levels(true, false, false, false, false), 0, 300);
    assert_eq!(tracker.poll(&none_down(), 300, 300), vec![Action::Append(Signal::Dot)]);
    tracker.poll(&levels(true, false, false, false, false), 1_000, 300);
    assert_eq!(tracker.poll(&none_down(), 1_301, 300), vec![Action::Append(Signal::Dash)]);
}

#[test]
fn duration_interpreter_reads_polls() {
    let mut interpreter = Interpreter::duration(150);
    let down = InputEvent::Levels(levels(true, false, false, false, false));
    let up = InputEvent::Levels(none_down());
    assert!(interpreter.interpret(&down, 0).is_empty());
    assert_eq!(interpreter.interpret(&up, 100), vec![Action::Append(Signal::Dot)]);
    assert!(interpreter.interpret(&down, 200).is_empty());
    assert_eq!(interpreter.interpret(&up, 500), vec![Action::Append(Signal::Dash)]);
}

#[test]
fn duration_interpreter_ignores_key_presses() {
    let mut interpreter = Interpreter::duration(150);
    let before = interpreter;
    assert!(interpreter.interpret(&InputEvent::Press(Key::Dot), 0).is_empty());
    assert_eq!(interpreter, before);
}

#[test]
fn discrete_interpreter_reads_key_presses() {
    let mut interpreter = Interpreter::discrete();
    assert_eq!(
        interpreter.interpret(&InputEvent::Press(Key::Dash), 0),
        vec![Action::Append(Signal::Dash)]
    );
    assert_eq!(
        interpreter.interpret(&InputEvent::Press(Key::Backspace), 1),
        vec![Action::Backspace]
    );
    assert_eq!(interpreter.interpret(&InputEvent::Press(Key::Quit), 2), vec![Action::Quit]);
    assert_eq!(interpreter.interpret(&InputEvent::Press(Key::Other), 3), vec![Action::Ignore]);
    assert_eq!(interpreter, Interpreter::Discrete);
}

#[test]
fn discrete_interpreter_ignores_polls() {
    let mut interpreter = Interpreter::discrete();
    let event = InputEvent::Levels(levels(true, true, true, true, true));
    assert!(interpreter.interpret(&event, 0).is_empty());
}
