//! The input interpreter: from key activity to edits of the Morse buffer.
//!
//! There are two ways to key Morse. In duration mode one key is pressed for
//! a short or a long time, and the keyboard is polled: the interpreter sees
//! which keys are down at each poll and acts on the changes. In discrete mode
//! a dot key and a dash key are pressed, and the interpreter sees one event
//! per key press.

use vstd::prelude::*;
use crate::buffer::Signal;
use crate::stats::{elapsed_between, elapsed_ms};

verus! {

/// The longest press, in milliseconds, that still counts as a dot unless the
/// user chooses another threshold.
pub const DEFAULT_THRESHOLD_MS: u64 = 150;

/// What one interpreted input asks of the session.
#[derive(Clone, Copy, Debug, PartialEq, Eq, Structural)]
pub enum Action {
    /// Append one signal to the buffer.
    Append(Signal),
    /// Remove the last signal of the buffer, if there is one.
    Backspace,
    /// End the session now.
    Quit,
    /// Do nothing.
    Ignore,
}

/// A key of discrete mode, by what it is bound to.
#[derive(Clone, Copy, Debug, PartialEq, Eq, Structural)]
pub enum Key {
    /// The dot key.
    Dot,
    /// The dash key.
    Dash,
    /// The key that ends a letter.
    LetterSeparator,
    /// The key that ends a word.
    WordSeparator,
    /// The key that removes the last signal.
    Backspace,
    /// A key that ends the session.
    Quit,
    /// Any key that is bound to nothing.
    Other,
}

/// The action that one press of `key` stands for in discrete mode.
pub open spec fn key_action(key: Key) -> Action {
    match key {
        Key::Dot => Action::Append(Signal::Dot),
        Key::Dash => Action::Append(Signal::Dash),
        Key::LetterSeparator => Action::Append(Signal::LetterGap),
        Key::WordSeparator => Action::Append(Signal::WordGap),
        Key::Backspace => Action::Backspace,
        Key::Quit => Action::Quit,
        Key::Other => Action::Ignore,
    }
}

/// Interprets one key press of discrete mode. Keys bound to nothing are
/// ignored.
pub fn interpret_key(key: Key) -> (action: Action)
    ensures
        action == key_action(key),
{
    match key {
        Key::Dot => Action::Append(Signal::Dot),
        Key::Dash => Action::Append(Signal::Dash),
        Key::LetterSeparator => Action::Append(Signal::LetterGap),
        Key::WordSeparator => Action::Append(Signal::WordGap),
        Key::Backspace => Action::Backspace,
        Key::Quit => Action::Quit,
        Key::Other => Action::Ignore,
    }
}

/// The signal of a press that lasted `held_ms`: a dot up to and including the
/// threshold, a dash above it, however long.
pub open spec fn press_signal(held_ms: u64, threshold_ms: u64) -> Signal {
    if held_ms <= threshold_ms {
        Signal::Dot
    } else {
        Signal::Dash
    }
}

/// Classifies a finished press of the Morse key by its duration.
pub fn classify_press(held_ms: u64, threshold_ms: u64) -> (signal: Signal)
    ensures
        signal == press_signal(held_ms, threshold_ms),
        held_ms <= threshold_ms ==> signal == Signal::Dot,
        held_ms > threshold_ms ==> signal == Signal::Dash,
{
    if held_ms <= threshold_ms {
        Signal::Dot
    } else {
        Signal::Dash
    }
}

/// What is known of one key between two polls.
#[derive(Clone, Copy, Debug, PartialEq, Eq, Structural)]
pub enum KeyState {
    /// The key was up at the last poll.
    Idle,
    /// The key was down at the last poll, and has been since the poll at
    /// `since_ms`.
    Pressed { since_ms: u64 },
}

/// What a poll found out about one key.
#[derive(Clone, Copy, Debug, PartialEq, Eq, Structural)]
pub enum Edge {
    /// The key is as it was: still up, or still held down.
    Steady,
    /// The key went down.
    Press,
    /// The key came up after `held_ms`.
    Release { held_ms: u64 },
}

impl KeyState {
    /// The state after a poll at `now_ms` that found the key down or up.
    pub open spec fn next(self, down: bool, now_ms: u64) -> KeyState {
        match self {
            KeyState::Idle => if down {
                KeyState::Pressed { since_ms: now_ms }
            } else {
                KeyState::Idle
            },
            KeyState::Pressed { since_ms } => if down {
                KeyState::Pressed { since_ms }
            } else {
                KeyState::Idle
            },
        }
    }

    /// The change that a poll at `now_ms` sees. A key that is held down over
    /// several polls gives one press and, when it comes up, one release.
    pub open spec fn edge(self, down: bool, now_ms: u64) -> Edge {
        match self {
            KeyState::Idle => if down {
                Edge::Press
            } else {
                Edge::Steady
            },
            KeyState::Pressed { since_ms } => if down {
                Edge::Steady
            } else {
                Edge::Release { held_ms: elapsed_between(since_ms, now_ms) }
            },
        }
    }

    /// Takes in one poll of the key and reports the change.
    pub fn observe(&mut self, down: bool, now_ms: u64) -> (edge: Edge)
        ensures
            *final(self) == old(self).next(down, now_ms),
            edge == old(self).edge(down, now_ms),
    {
        match *self {
            KeyState::Idle => {
                if down {
                    *self = KeyState::Pressed { since_ms: now_ms };
                    Edge::Press
                } else {
                    Edge::Steady
                }
            },
            KeyState::Pressed { since_ms } => {
                if down {
                    Edge::Steady
                } else {
                    *self = KeyState::Idle;
                    Edge::Release { held_ms: elapsed_ms(since_ms, now_ms) }
                }
            },
        }
    }
}

/// Which of the five keys of duration mode are down at one poll.
#[derive(Clone, Copy, Debug, PartialEq, Eq, Structural)]
pub struct KeyLevels {
    /// The Morse key.
    pub morse: bool,
    /// The key that ends a letter.
    pub letter_separator: bool,
    /// The key that ends a word.
    pub word_separator: bool,
    /// The key that removes the last signal.
    pub backspace: bool,
    /// Any of the keys that end the session.
    pub quit: bool,
}

/// The four keys that duration mode follows from poll to poll.
#[derive(Clone, Copy, Debug, PartialEq, Eq, Structural)]
pub struct KeyTracker {
    /// The Morse key.
    pub morse: KeyState,
    /// The key that ends a letter.
    pub letter_separator: KeyState,
    /// The key that ends a word.
    pub word_separator: KeyState,
    /// The key that removes the last signal.
    pub backspace: KeyState,
}

/// What the release of the Morse key asks for: a dot or a dash, by how long
/// the key was held. A press, or no change, asks for nothing.
pub open spec fn morse_key_actions(edge: Edge, threshold_ms: u64) -> Seq<Action> {
    match edge {
        Edge::Release { held_ms } => seq![Action::Append(press_signal(held_ms, threshold_ms))],
        _ => Seq::<Action>::empty(),
    }
}

/// What the release of one of the other keys asks for: its action, once. A
/// press, or no change, asks for nothing.
pub open spec fn release_actions(edge: Edge, action: Action) -> Seq<Action> {
    match edge {
        Edge::Release { held_ms } => seq![action],
        _ => Seq::<Action>::empty(),
    }
}

impl KeyTracker {
    /// The tracker after a poll at `now_ms`. A poll that finds a quit key
    /// down ends the session before any key is looked at.
    pub open spec fn next(self, levels: KeyLevels, now_ms: u64) -> KeyTracker {
        if levels.quit {
            self
        } else {
            KeyTracker {
                morse: self.morse.next(levels.morse, now_ms),
                letter_separator: self.letter_separator.next(levels.letter_separator, now_ms),
                word_separator: self.word_separator.next(levels.word_separator, now_ms),
                backspace: self.backspace.next(levels.backspace, now_ms),
            }
        }
    }

    /// The actions of a poll at `now_ms`, in the order in which they apply:
    /// the Morse key first, then the letter separator, the word separator and
    /// backspace.
    pub open spec fn actions(self, levels: KeyLevels, now_ms: u64, threshold_ms: u64) -> Seq<
        Action,
    > {
        if levels.quit {
            seq![Action::Quit]
        } else {
            morse_key_actions(self.morse.edge(levels.morse, now_ms), threshold_ms)
                + release_actions(
                self.letter_separator.edge(levels.letter_separator, now_ms),
                Action::Append(Signal::LetterGap),
            ) + release_actions(
                self.word_separator.edge(levels.word_separator, now_ms),
                Action::Append(Signal::WordGap),
            ) + release_actions(self.backspace.edge(levels.backspace, now_ms), Action::Backspace)
        }
    }

    /// A tracker that has seen every key up.
    pub fn new() -> (tracker: KeyTracker)
        ensures
            tracker == (KeyTracker {
                morse: KeyState::Idle,
                letter_separator: KeyState::Idle,
                word_separator: KeyState::Idle,
                backspace: KeyState::Idle,
            }),
    {
        KeyTracker {
            morse: KeyState::Idle,
            letter_separator: KeyState::Idle,
            word_separator: KeyState::Idle,
            backspace: KeyState::Idle,
        }
    }

    /// Takes in one poll of the keyboard and returns the actions it asks for.
    pub fn poll(&mut self, levels: &KeyLevels, now_ms: u64, threshold_ms: u64) -> (actions: Vec<
        Action,
    >)
        ensures
            *final(self) == old(self).next(*levels, now_ms),
            actions@ == old(self).actions(*levels, now_ms, threshold_ms),
    {
        let mut actions: Vec<Action> = Vec::new();
        if levels.quit {
            actions.push(Action::Quit);
            return actions;
        }
        if let Edge::Release { held_ms } = self.morse.observe(levels.morse, now_ms) {
            actions.push(Action::Append(classify_press(held_ms, threshold_ms)));
        }
        if let Edge::Release { held_ms } = self.letter_separator.observe(
            levels.letter_separator,
            now_ms,
        ) {
            actions.push(Action::Append(Signal::LetterGap));
        }
        if let Edge::Release { held_ms } = self.word_separator.observe(
            levels.word_separator,
            now_ms,
        ) {
            actions.push(Action::Append(Signal::WordGap));
        }
        if let Edge::Release { held_ms } = self.backspace.observe(levels.backspace, now_ms) {
            actions.push(Action::Backspace);
        }
        actions
    }
}

/// One input as the surrounding program hands it over.
#[derive(Clone, Copy, Debug, PartialEq, Eq, Structural)]
pub enum InputEvent {
    /// A poll of the keyboard: which keys are down now.
    Levels(KeyLevels),
    /// One key press.
    Press(Key),
}

/// The input interpreter in one of its two modes.
#[derive(Clone, Copy, Debug, PartialEq, Eq, Structural)]
pub enum Interpreter {
    /// Duration mode: polls of the keyboard, read against the last poll.
    Duration { tracker: KeyTracker, threshold_ms: u64 },
    /// Discrete mode: key presses, each read by itself.
    Discrete,
}

impl Interpreter {
    /// The interpreter after `event`. Only a poll in duration mode leaves a
    /// trace.
    pub open spec fn next(self, event: InputEvent, now_ms: u64) -> Interpreter {
        match self {
            Interpreter::Duration { tracker, threshold_ms } => match event {
                InputEvent::Levels(levels) => Interpreter::Duration {
                    tracker: tracker.next(levels, now_ms),
                    threshold_ms,
                },
                InputEvent::Press(key) => self,
            },
            Interpreter::Discrete => self,
        }
    }

    /// The actions that `event` asks for. An event of the other mode asks for
    /// nothing.
    pub open spec fn actions(self, event: InputEvent, now_ms: u64) -> Seq<Action> {
        match self {
            Interpreter::Duration { tracker, threshold_ms } => match event {
                InputEvent::Levels(levels) => tracker.actions(levels, now_ms, threshold_ms),
                InputEvent::Press(key) => Seq::<Action>::empty(),
            },
            Interpreter::Discrete => match event {
                InputEvent::Levels(levels) => Seq::<Action>::empty(),
                InputEvent::Press(key) => seq![key_action(key)],
            },
        }
    }

    /// An interpreter for duration mode that has seen every key up.
    pub fn duration(threshold_ms: u64) -> (interpreter: Interpreter)
        ensures
            interpreter == (Interpreter::Duration {
                tracker: KeyTracker {
                    morse: KeyState::Idle,
                    letter_separator: KeyState::Idle,
                    word_separator: KeyState::Idle,
                    backspace: KeyState::Idle,
                },
                threshold_ms,
            }),
    {
        Interpreter::Duration { tracker: KeyTracker::new(), threshold_ms }
    }

    /// An interpreter for discrete mode.
    pub fn discrete() -> (interpreter: Interpreter)
        ensures
            interpreter == Interpreter::Discrete,
    {
        Interpreter::Discrete
    }

    /// Interprets one input that arrived at `now_ms`, and returns the actions
    /// it asks for in the order in which they apply.
    pub fn interpret(&mut self, event: &InputEvent, now_ms: u64) -> (actions: Vec<Action>)
        ensures
            *final(self) == old(self).next(*event, now_ms),
            actions@ == old(self).actions(*event, now_ms),
    {
        match *self {
            Interpreter::Duration { tracker, threshold_ms } => match *event {
                InputEvent::Levels(levels) => {
                    let mut tracker = tracker;
                    let actions = tracker.poll(&levels, now_ms, threshold_ms);
                    *self = Interpreter::Duration { tracker, threshold_ms };
                    actions
                },
                InputEvent::Press(_) => Vec::new(),
            },
            Interpreter::Discrete => match *event {
                InputEvent::Levels(_) => Vec::new(),
                InputEvent::Press(key) => {
                    let mut actions: Vec<Action> = Vec::new();
                    actions.push(interpret_key(key));
                    actions
                },
            },
        }
    }
}

/// A press of exactly the threshold is a dot; a press of one millisecond
/// more is a dash.
pub proof fn lemma_threshold_is_a_dot(threshold_ms: u64)
    ensures
        press_signal(threshold_ms, threshold_ms) == Signal::Dot,
        threshold_ms < u64::MAX ==> press_signal((threshold_ms + 1) as u64, threshold_ms)
            == Signal::Dash,
{
}

/// A key that is held down from one poll to the next does nothing at the
/// second poll, whatever it was before the first, and keeps the time of its
/// press.
pub proof fn lemma_held_key_does_not_repeat(state: KeyState, first_ms: u64, second_ms: u64)
    ensures
        state.next(true, first_ms).edge(true, second_ms) == Edge::Steady,
        state.next(true, first_ms).next(true, second_ms) == state.next(true, first_ms),
{
}

/// A key that is up at two polls in a row does nothing at the second: a
/// release is reported once.
pub proof fn lemma_release_is_reported_once(state: KeyState, first_ms: u64, second_ms: u64)
    ensures
        state.next(false, first_ms).edge(false, second_ms) == Edge::Steady,
{
}

/// Every action of a poll appends one signal, removes one, or ends the
/// session; and a poll asks for four actions at most.
pub proof fn lemma_poll_actions(
    tracker: KeyTracker,
    levels: KeyLevels,
    now_ms: u64,
    threshold_ms: u64,
)
    ensures
        tracker.actions(levels, now_ms, threshold_ms).len() <= 4,
        forall|k: int|
            0 <= k < tracker.actions(levels, now_ms, threshold_ms).len() ==> (
            #[trigger] tracker.actions(levels, now_ms, threshold_ms)[k]) != Action::Ignore,
{
}

} // verus!
