use morse_trainer::buffer::Signal;
use morse_trainer::input::{Action, InputEvent, Interpreter, Key, KeyLevels};
use morse_trainer::session::{Phase, Session, StepOutcome};
use morse_trainer::stats::Stats;

fn words(list: &[&str]) -> Vec<String> {
    list.iter().map(|w| w.to_string()).collect()
}

fn actions_for(morse: &str) -> Vec<Action> {
    morse
        .chars()
        .map(|c| match c {
            '.' => Action::Append(Signal::Dot),
            '-' => Action::Append(Signal::Dash),
            '/' => Action::Append(Signal::LetterGap),
            ' ' => Action::Append(Signal::WordGap),
            _ => Action::Ignore,
        })
        .collect()
}

fn type_signals(session: &mut Session, morse: &str) -> StepOutcome {
    let mut last = StepOutcome { word_completed: false, finished: session.is_finished() };
    for action in actions_for(morse) {
        last = session.step(&vec![action]);
    }
    last
}

fn key(morse_down: bool) -> InputEvent {
    InputEvent::Levels(KeyLevels {
        morse: morse_down,
        letter_separator: false,
        word_separator: false,
        backspace: false,
        quit: false,
    })
}

#[test]
fn a_new_session_awaits_the_first_word() {
    let session = Session::new(words(&["CAT", "DOG"]), 0, 100);
    assert_eq!(session.phase(), Phase::AwaitingInput { word_index: 0 });
    assert!(!session.is_finished());
    assert_eq!(session.word_index(), 0);
    assert_eq!(session.word_count(), 2);
    assert_eq!(session.current_word(), Some(&"CAT".to_string()));
    assert_eq!(session.morse(), "");
    assert_eq!(session.decoded(), "");
}

#[test]
fn a_session_without_words_is_over_at_once() {
    let mut session = Session::new(Vec::new(), 0, 100);
    assert_eq!(session.phase(), Phase::SessionComplete);
    assert_eq!(session.current_word(), None);
    let outcome = session.step(&actions_for(".-"));
    assert_eq!(outcome, StepOutcome { word_completed: false, finished: true });
    assert_eq!(session.morse(), "");
}

#[test]
fn input_grows_the_buffer_and_the_decoded_text() {
    let mut session = Session::new(words(&["CAT"]), 0, 100);
    let outcome = session.step(&actions_for("-.-."));
    assert_eq!(outcome, StepOutcome { word_completed: false, finished: false });
    assert_eq!(session.morse(), "-.-.");
    assert_eq!(session.decoded(), "C");
    session.step(&actions_for("/"));
    session.step(&actions_for("."));
    assert_eq!(session.morse(), "-.-./.");
    assert_eq!(session.decoded(), "CE");
    assert_eq!(session.word_index(), 0);
}

#[test]
fn backspace_on_an_empty_buffer_is_no_error() {
    let mut session = Session::new(words(&["CAT"]), 0, 100);
    let outcome = session.step(&vec![Action::Backspace]);
    assert_eq!(outcome, StepOutcome { word_completed: false, finished: false });
    assert_eq!(session.morse(), "");
    assert_eq!(session.decoded(), "");
    assert_eq!(session.phase(), Phase::AwaitingInput { word_index: 0 });
}

#[test]
fn backspace_takes_back_the_last_signal() {
    let mut session = Session::new(words(&["CAT"]), 0, 100);
    session.step(&actions_for("-.-.."));
    assert_eq!(session.decoded(), "\u{FFFD}");
    session.step(&vec![Action::Backspace]);
    assert_eq!(session.morse(), "-.-.");
    assert_eq!(session.decoded(), "C");
}

#[test]
fn ignored_actions_change_nothing() {
    let mut session = Session::new(words(&["CAT"]), 0, 100);
    session.step(&actions_for("-"));
    let outcome = session.step(&vec![Action::Ignore, Action::Ignore]);
    assert_eq!(outcome, StepOutcome { word_completed: false, finished: false });
    assert_eq!(session.morse(), "-");
    let outcome = session.step(&Vec::new());
    assert_eq!(outcome, StepOutcome { word_completed: false, finished: false });
    assert_eq!(session.morse(), "-");
    assert_eq!(session.decoded(), "T");
}

#[test]
fn a_completed_word_advances_by_one_and_clears_the_buffer() {
    let mut session = Session::new(words(&["CAT", "DOG"]), 0, 100);
    let outcome = type_signals(&mut session, "-.-./.-/-");
    assert_eq!(outcome, StepOutcome { word_completed: true, finished: false });
    assert_eq!(session.word_index(), 1);
    assert_eq!(session.morse(), "");
    assert_eq!(session.decoded(), "");
    assert_eq!(session.phase(), Phase::AwaitingInput { word_index: 1 });
    assert_eq!(session.current_word(), Some(&"DOG".to_string()));
}

#[test]
fn the_word_is_checked_once_per_step_after_all_its_actions() {
    let mut session = Session::new(words(&["CAT"]), 0, 100);
    let mut actions = actions_for("-.-./.-/-");
    actions.push(Action::Append(Signal::Dot));
    let outcome = session.step(&actions);
    assert_eq!(outcome, StepOutcome { word_completed: false, finished: false });
    assert_eq!(session.decoded(), "CAN");
    let outcome = session.step(&vec![Action::Backspace]);
    assert_eq!(outcome, StepOutcome { word_completed: true, finished: true });
}

#[test]
fn the_last_word_ends_the_session() {
    let mut session = Session::new(words(&["E", "T"]), 0, 100);
    assert_eq!(
        session.step(&actions_for(".")),
        StepOutcome { word_completed: true, finished: false }
    );
    assert_eq!(
        session.step(&actions_for("-")),
        StepOutcome { word_completed: true, finished: true }
    );
    assert_eq!(session.phase(), Phase::SessionComplete);
    assert_eq!(session.word_index(), 2);
    assert_eq!(session.current_word(), None);
    assert_eq!(session.morse(), "");
    assert_eq!(session.decoded(), "");
}

#[test]
fn a_finished_session_takes_no_more_input() {
    let mut session = Session::new(words(&["E"]), 0, 100);
    session.step(&actions_for("."));
    assert!(session.is_finished());
    let outcome = session.step(&actions_for(".-/-"));
    assert_eq!(outcome, StepOutcome { word_completed: false, finished: true });
    assert_eq!(session.word_index(), 1);
    assert_eq!(session.morse(), "");
    let outcome = session.step(&vec![Action::Quit]);
    assert_eq!(outcome, StepOutcome { word_completed: false, finished: true });
}

#[test]
fn quit_ends_the_session_whatever_was_typed() {
    let mut session = Session::new(words(&["CAT", "DOG"]), 0, 100);
    session.step(&actions_for("-.-./.-"));
    let outcome = session.step(&vec![Action::Quit]);
    assert_eq!(outcome, StepOutcome { word_completed: false, finished: true });
    assert_eq!(session.phase(), Phase::SessionComplete);
    assert_eq!(session.word_index(), 0);
    assert_eq!(session.morse(), "-.-./.-");
    assert_eq!(session.decoded(), "CA");
    assert_eq!(session.current_word(), Some(&"CAT".to_string()));
}

#[test]
fn quit_leaves_the_rest_of_its_step_undone() {
    let mut session = Session::new(words(&["E"]), 0, 100);
    let outcome = session.step(&vec![Action::Append(Signal::Dot), Action::Quit]);
    assert_eq!(outcome, StepOutcome { word_completed: false, finished: true });
    assert_eq!(session.morse(), "");
    assert_eq!(session.word_index(), 0);
}

#[test]
fn the_match_is_exact_and_case_sensitive() {
    let mut session = Session::new(words(&["cat"]), 0, 100);
    let outcome = type_signals(&mut session, "-.-./.-/-");
    assert_eq!(outcome, StepOutcome { word_completed: false, finished: false });
    assert_eq!(session.decoded(), "CAT");
    let mut session = Session::new(words(&["CA T"]), 0, 100);
    type_signals(&mut session, "-.-./.-/-");
    assert_eq!(session.word_index(), 0);
    session.step(&vec![Action::Backspace]);
    let outcome = type_signals(&mut session, " -");
    assert_eq!(outcome, StepOutcome { word_completed: true, finished: true });
}

#[test]
fn end_to_end_cat_in_duration_mode() {
    let mut interpreter = Interpreter::duration(150);
    let mut session = Session::new(words(&["CAT"]), 0, 100);
    let mut now: u64 = 0;
    let mut last = StepOutcome { word_completed: false, finished: false };
    let letter = |down: bool| InputEvent::Levels(KeyLevels {
        morse: false,
        letter_separator: down,
        word_separator: false,
        backspace: false,
        quit: false,
    });
    for c in "-.-./.-/-".chars() {
        let (down, held) = match c {
            '.' => (key(true), 100),
            '-' => (key(true), 300),
            _ => (letter(true), 50),
        };
        let up = if c == '/' { letter(false) } else { key(false) };
        let actions = interpreter.interpret(&down, now);
        assert!(actions.is_empty());
        last = session.step(&actions);
        assert!(!last.finished);
        now += held;
        let actions = interpreter.interpret(&up, now);
        assert_eq!(actions.len(), 1);
        last = session.step(&actions);
        now += 20;
    }
    assert_eq!(last, StepOutcome { word_completed: true, finished: true });
    assert_eq!(session.phase(), Phase::SessionComplete);
    assert_eq!(session.word_index(), 1);
    assert_eq!(session.final_stats(now).words, 1);
}

#[test]
fn wrongly_grouped_signals_do_not_spell_cat() {
    let mut session = Session::new(words(&["CAT"]), 0, 100);
    let outcome = type_signals(&mut session, ".-./-.-./-");
    assert_eq!(outcome, StepOutcome { word_completed: false, finished: false });
    assert_eq!(session.decoded(), "RCT");
    assert_eq!(session.word_index(), 0);
    let mut session = Session::new(words(&["CAT"]), 0, 100);
    type_signals(&mut session, "-.-..--");
    assert_eq!(session.decoded(), "\u{FFFD}");
    assert!(!session.is_finished());
}

#[test]
fn end_to_end_in_discrete_mode() {
    let mut interpreter = Interpreter::discrete();
    let mut session = Session::new(words(&["HI", "OK"]), 0, 100);
    let keys = [
        Key::Dot, Key::Dot, Key::Dot, Key::Dot, Key::LetterSeparator, Key::Dot, Key::Other,
        Key::Dot, Key::Dash, Key::Backspace, Key::Dash, Key::Dash, Key::Dash,
        Key::LetterSeparator, Key::Dash, Key::Dot, Key::Dash,
    ];
    let mut completed = 0;
    for (i, k) in keys.iter().enumerate() {
        let actions = interpreter.interpret(&InputEvent::Press(*k), i as u64);
        let outcome = session.step(&actions);
        if outcome.word_completed {
            completed += 1;
        }
    }
    assert_eq!(completed, 2);
    assert!(session.is_finished());
    assert_eq!(session.word_index(), 2);
}

#[test]
fn an_empty_target_is_complete_without_input() {
    let mut session = Session::new(words(&["", "E"]), 0, 100);
    let outcome = session.step(&Vec::new());
    assert_eq!(outcome, StepOutcome { word_completed: true, finished: false });
    assert_eq!(session.word_index(), 1);
}

#[test]
fn live_stats_count_completed_words_only() {
    let mut session = Session::new(words(&["E", "T", "A"]), 1_000, 100);
    assert_eq!(session.live_stats(1_000), Stats { words: 0, elapsed_ms: 0, wpm_tenths: 0 });
    session.step(&actions_for("."));
    session.step(&actions_for("-"));
    session.step(&actions_for("."));
    assert_eq!(
        session.live_stats(61_000),
        Stats { words: 2, elapsed_ms: 60_000, wpm_tenths: 20 }
    );
}

#[test]
fn final_stats_count_every_word_of_the_list() {
    let mut session = Session::new(words(&["E", "T", "A"]), 1_000, 100);
    session.step(&actions_for("."));
    session.step(&vec![Action::Quit]);
    assert_eq!(
        session.final_stats(31_000),
        Stats { words: 3, elapsed_ms: 30_000, wpm_tenths: 60 }
    );
}

#[test]
fn refresh_is_due_after_more_than_the_interval() {
    let mut session = Session::new(words(&["E"]), 1_000, 100);
    assert_eq!(session.refresh(1_000), None);
    assert_eq!(session.refresh(1_100), None);
    assert_eq!(
        session.refresh(1_101),
        Some(Stats { words: 0, elapsed_ms: 101, wpm_tenths: 0 })
    );
    assert_eq!(session.refresh(1_201), None);
    assert_eq!(
        session.refresh(1_202),
        Some(Stats { words: 0, elapsed_ms: 202, wpm_tenths: 0 })
    );
    assert_eq!(session.refresh(900), None);
}

#[test]
fn until_refresh_is_what_is_left_of_the_interval() {
    let mut session = Session::new(words(&["E"]), 1_000, 100);
    assert_eq!(session.until_refresh(1_000), 100);
    assert_eq!(session.until_refresh(1_040), 60);
    assert_eq!(session.until_refresh(1_100), 0);
    assert_eq!(session.until_refresh(5_000), 0);
    assert_eq!(session.until_refresh(500), 100);
    session.refresh(1_200);
    assert_eq!(session.until_refresh(1_250), 50);
}

#[test]
fn the_summary_reports_what_was_left() {
    let mut session = Session::new(words(&["CAT", "DOG"]), 0, 100);
    session.step(&actions_for("-.-./.-"));
    session.step(&vec![Action::Quit]);
    let summary = session.summary(120_000);
    assert_eq!(summary.stats, Stats { words: 2, elapsed_ms: 120_000, wpm_tenths: 10 });
    assert_eq!(summary.morse, "-.-./.-");
    assert_eq!(summary.decoded, "CA");
}

#[test]
fn the_summary_after_the_last_word_has_an_empty_buffer() {
    let mut session = Session::new(words(&["E"]), 0, 100);
    session.step(&actions_for("."));
    let summary = session.summary(1_000);
    assert_eq!(summary.stats, Stats { words: 1, elapsed_ms: 1_000, wpm_tenths: 600 });
    assert_eq!(summary.morse, "");
    assert_eq!(summary.decoded, "");
}
