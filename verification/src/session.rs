//! The session controller: which word is to be typed, what has been typed
//! for it, and when the session is over.
//!
//! A session awaits input for one word at a time. Every step applies the
//! actions of one input to the Morse buffer and decodes it again. When the
//! decoded text is the word to type, the session moves on to the next word
//! with an empty buffer, or ends after the last one. A quit action ends the
//! session at once. A session that has ended takes no further input.

use vstd::prelude::*;
use crate::buffer::{all_signal_chars, MorseBuffer};
use crate::decoder::{decode_text, lemma_decode_empty, lemma_decoded_text_is_trimmed};
use crate::input::Action;
use crate::text::{string_views, trim};
use crate::stats::{elapsed_between, elapsed_ms, speed_tenths, stats_at, Stats};

verus! {

/// The buffer after one action. Backspace on an empty buffer changes
/// nothing; quitting and ignoring do not touch the buffer.
pub open spec fn apply_action(buffer: Seq<char>, action: Action) -> Seq<char> {
    match action {
        Action::Append(signal) => buffer.push(signal.mark()),
        Action::Backspace => if buffer.len() > 0 {
            buffer.drop_last()
        } else {
            buffer
        },
        Action::Quit => buffer,
        Action::Ignore => buffer,
    }
}

/// The buffer after all of `actions`, applied in order.
pub open spec fn apply_actions(buffer: Seq<char>, actions: Seq<Action>) -> Seq<char>
    decreases actions.len(),
{
    if actions.len() == 0 {
        buffer
    } else {
        apply_action(apply_actions(buffer, actions.drop_last()), actions.last())
    }
}

/// Where a session stands.
#[derive(Clone, Copy, Debug, PartialEq, Eq, Structural)]
pub enum Phase {
    /// The word at `word_index` is being typed.
    AwaitingInput { word_index: usize },
    /// The session is over.
    SessionComplete,
}

/// What one step did to the session.
#[derive(Clone, Copy, Debug, PartialEq, Eq, Structural)]
pub struct StepOutcome {
    /// The step completed a word, and the session went on to the next one or
    /// ended.
    pub word_completed: bool,
    /// The session is over after this step.
    pub finished: bool,
}

/// What is reported when a session has ended.
#[derive(Debug)]
pub struct Summary {
    /// The number of words practised, the whole time and the average speed.
    pub stats: Stats,
    /// The Morse buffer as it was left.
    pub morse: String,
    /// The decoded text as it was left.
    pub decoded: String,
}

/// The state of a session as the contracts see it.
pub struct SessionView {
    /// The words to type, in order.
    pub words: Seq<Seq<char>>,
    /// How many words have been completed; the place of the current word.
    pub word_index: nat,
    /// The Morse typed so far for the current word.
    pub buffer: Seq<char>,
    /// The text shown as decoded.
    pub decoded: Seq<char>,
    /// Whether the session is over.
    pub finished: bool,
    /// When the session started.
    pub started_ms: u64,
    /// When the live statistics were last refreshed.
    pub last_refresh_ms: u64,
    /// The time between two refreshes of the live statistics.
    pub refresh_ms: u64,
}

impl SessionView {
    /// What holds of every session: the decoded text is that of the buffer,
    /// the buffer holds signals only, no more words are completed than there
    /// are, and a session that is not over has a word to type.
    pub open spec fn wf(self) -> bool {
        &&& self.word_index <= self.words.len()
        &&& self.finished || self.word_index < self.words.len()
        &&& self.decoded == decode_text(self.buffer)
        &&& all_signal_chars(self.buffer)
    }

    /// The session at `now_ms` with nothing typed yet. Without any word it
    /// is over from the start.
    pub open spec fn start(words: Seq<Seq<char>>, now_ms: u64, refresh_ms: u64) -> SessionView {
        SessionView {
            words,
            word_index: 0,
            buffer: Seq::<char>::empty(),
            decoded: Seq::<char>::empty(),
            finished: words.len() == 0,
            started_ms: now_ms,
            last_refresh_ms: now_ms,
            refresh_ms,
        }
    }

    /// Whether the buffer `buffer` spells the word that is to be typed.
    pub open spec fn completes(self, buffer: Seq<char>) -> bool {
        self.word_index < self.words.len() && decode_text(buffer) == self.words[self.word_index
            as int]
    }

    /// Whether the buffer after `actions`, decoded and trimmed, is the word
    /// that is to be typed.
    pub open spec fn types_word(self, actions: Seq<Action>) -> bool {
        trim(decode_text(apply_actions(self.buffer, actions))) == self.words[self.word_index
            as int]
    }

    /// The session after the current word was completed: one word further,
    /// with an empty buffer and no decoded text, and over if that was the
    /// last word.
    pub open spec fn advance(self) -> SessionView {
        SessionView {
            word_index: self.word_index + 1,
            buffer: Seq::<char>::empty(),
            decoded: Seq::<char>::empty(),
            finished: self.word_index + 1 >= self.words.len(),
            ..self
        }
    }

    /// The session after one step with the given actions.
    ///
    /// A session that is over stays as it is. A quit action among the
    /// actions ends the session, and nothing else of that step applies.
    /// Otherwise all the actions are applied to the buffer in order and the
    /// buffer is decoded; if it then spells the current word, the session
    /// advances.
    pub open spec fn step(self, actions: Seq<Action>) -> SessionView {
        if self.finished {
            self
        } else if actions.contains(Action::Quit) {
            SessionView { finished: true, ..self }
        } else {
            let buffer = apply_actions(self.buffer, actions);
            if self.completes(buffer) {
                self.advance()
            } else {
                SessionView { buffer, decoded: decode_text(buffer), ..self }
            }
        }
    }

    /// Whether the live statistics are due for a refresh at `now_ms`: more
    /// than the refresh time has passed since the last one.
    pub open spec fn refresh_due(self, now_ms: u64) -> bool {
        elapsed_between(self.last_refresh_ms, now_ms) > self.refresh_ms
    }

    /// The time from `now_ms` until the live statistics are next due.
    pub open spec fn until_refresh(self, now_ms: u64) -> u64 {
        let elapsed = elapsed_between(self.last_refresh_ms, now_ms);
        if elapsed <= self.refresh_ms {
            (self.refresh_ms - elapsed) as u64
        } else {
            0
        }
    }

    /// Where the session stands.
    pub open spec fn phase(self) -> Phase {
        if self.finished {
            Phase::SessionComplete
        } else {
            Phase::AwaitingInput { word_index: self.word_index as usize }
        }
    }

    /// The statistics while the session runs: the words completed so far
    /// over the time since the start. The word in progress does not count.
    pub open spec fn live_stats(self, now_ms: u64) -> Stats {
        let elapsed = elapsed_between(self.started_ms, now_ms);
        Stats {
            words: self.word_index as usize,
            elapsed_ms: elapsed,
            wpm_tenths: speed_tenths(self.word_index, elapsed as nat),
        }
    }

    /// The statistics at the end of the session: all the words of the list
    /// over the whole time, whether or not every word was completed.
    pub open spec fn final_stats(self, now_ms: u64) -> Stats {
        let elapsed = elapsed_between(self.started_ms, now_ms);
        Stats {
            words: self.words.len() as usize,
            elapsed_ms: elapsed,
            wpm_tenths: speed_tenths(self.words.len(), elapsed as nat),
        }
    }
}

/// One training run.
pub struct Session {
    words: Vec<String>,
    word_index: usize,
    buffer: MorseBuffer,
    decoded: String,
    finished: bool,
    started_ms: u64,
    last_refresh_ms: u64,
    refresh_ms: u64,
}

impl View for Session {
    type V = SessionView;

    closed spec fn view(&self) -> SessionView {
        SessionView {
            words: string_views(self.words@),
            word_index: self.word_index as nat,
            buffer: self.buffer@,
            decoded: self.decoded@,
            finished: self.finished,
            started_ms: self.started_ms,
            last_refresh_ms: self.last_refresh_ms,
            refresh_ms: self.refresh_ms,
        }
    }
}

impl Session {
    /// Whether the session is in a state that its own operations can reach.
    pub open spec fn wf(&self) -> bool {
        self@.wf()
    }

    /// Starts a session at `now_ms` for the given words, with the live
    /// statistics refreshed every `refresh_ms` milliseconds. A session
    /// without words is over at once.
    pub fn new(words: Vec<String>, now_ms: u64, refresh_ms: u64) -> (session: Session)
        ensures
            session.wf(),
            session@ == SessionView::start(string_views(words@), now_ms, refresh_ms),
    {
        let finished = words.len() == 0;
        let session = Session {
            words,
            word_index: 0,
            buffer: MorseBuffer::new(),
            decoded: String::new(),
            finished,
            started_ms: now_ms,
            last_refresh_ms: now_ms,
            refresh_ms,
        };
        proof {
            lemma_decode_empty();
        }
        session
    }

    /// Takes one step: applies the actions of one input, decodes the buffer
    /// and moves on if the current word is complete.
    pub fn step(&mut self, actions: &Vec<Action>) -> (outcome: StepOutcome)
        requires
            old(self).wf(),
        ensures
            final(self).wf(),
            final(self)@ == old(self)@.step(actions@),
            outcome.finished == final(self)@.finished,
            outcome.word_completed == (final(self)@.word_index == old(self)@.word_index + 1),
    {
        if self.finished {
            return StepOutcome { word_completed: false, finished: true };
        }
        if has_quit(actions) {
            self.finished = true;
            return StepOutcome { word_completed: false, finished: true };
        }
        let mut i: usize = 0;
        while i < actions.len()
            invariant
                i <= actions.len(),
                self.buffer@ == apply_actions(old(self).buffer@, actions@.take(i as int)),
                self.words == old(self).words,
                self.word_index == old(self).word_index,
                self.decoded == old(self).decoded,
                self.finished == old(self).finished,
                self.started_ms == old(self).started_ms,
                self.last_refresh_ms == old(self).last_refresh_ms,
                self.refresh_ms == old(self).refresh_ms,
            decreases actions.len() - i,
        {
            proof {
                assert(actions@.take(i + 1).drop_last() =~= actions@.take(i as int));
            }
            match actions[i] {
                Action::Append(signal) => {
                    self.buffer.push(signal);
                },
                Action::Backspace => {
                    self.buffer.backspace();
                },
                Action::Quit => {},
                Action::Ignore => {},
            }
            i += 1;
        }
        proof {
            assert(actions@.take(i as int) =~= actions@);
            self.buffer.lemma_only_signals();
        }
        self.decoded = self.buffer.decode();
        assert(self.word_index < self.words.len());
        if self.decoded == self.words[self.word_index] {
            self.word_index += 1;
            self.buffer.clear();
            self.decoded = String::new();
            self.finished = self.word_index >= self.words.len();
            proof {
                lemma_decode_empty();
            }
            StepOutcome { word_completed: true, finished: self.finished }
        } else {
            StepOutcome { word_completed: false, finished: false }
        }
    }
}

impl Session {
    /// Where the session stands.
    pub fn phase(&self) -> (phase: Phase)
        ensures
            phase == self@.phase(),
    {
        if self.finished {
            Phase::SessionComplete
        } else {
            Phase::AwaitingInput { word_index: self.word_index }
        }
    }

    /// Whether the session is over.
    pub fn is_finished(&self) -> (finished: bool)
        ensures
            finished == self@.finished,
    {
        self.finished
    }

    /// The number of words completed so far, which is the place of the
    /// current word in the list.
    pub fn word_index(&self) -> (index: usize)
        ensures
            index == self@.word_index,
    {
        self.word_index
    }

    /// The number of words in the list.
    pub fn word_count(&self) -> (count: usize)
        ensures
            count == self@.words.len(),
    {
        self.words.len()
    }

    /// The word that is to be typed, or `None` once every word is completed.
    pub fn current_word(&self) -> (word: Option<&String>)
        ensures
            match word {
                Some(w) => self@.word_index < self@.words.len()
                    && w@ == self@.words[self@.word_index as int],
                None => self@.word_index >= self@.words.len(),
            },
    {
        if self.word_index < self.words.len() {
            Some(&self.words[self.word_index])
        } else {
            None
        }
    }

    /// The Morse typed so far for the current word.
    pub fn morse(&self) -> (text: String)
        ensures
            text@ == self@.buffer,
    {
        self.buffer.to_text()
    }

    /// The decoded text as of the last step.
    pub fn decoded(&self) -> (text: &String)
        ensures
            text@ == self@.decoded,
    {
        &self.decoded
    }

    /// Says whether the live statistics are due at `now_ms`. If they are,
    /// returns them and counts the refresh time anew from `now_ms`; if they
    /// are not, changes nothing.
    pub fn refresh(&mut self, now_ms: u64) -> (stats: Option<Stats>)
        ensures
            old(self).wf() ==> final(self).wf(),
            old(self)@.refresh_due(now_ms) ==> stats == Some(old(self)@.live_stats(now_ms))
                && final(self)@ == (SessionView { last_refresh_ms: now_ms, ..old(self)@ }),
            !old(self)@.refresh_due(now_ms) ==> stats is None && final(self)@ == old(self)@,
    {
        if elapsed_ms(self.last_refresh_ms, now_ms) > self.refresh_ms {
            self.last_refresh_ms = now_ms;
            Some(stats_at(self.word_index, self.started_ms, now_ms))
        } else {
            None
        }
    }

    /// The time from `now_ms` until the live statistics are next due: how
    /// long a wait for input may last before a refresh.
    pub fn until_refresh(&self, now_ms: u64) -> (wait_ms: u64)
        ensures
            wait_ms == self@.until_refresh(now_ms),
    {
        let elapsed = elapsed_ms(self.last_refresh_ms, now_ms);
        if elapsed <= self.refresh_ms {
            self.refresh_ms - elapsed
        } else {
            0
        }
    }

    /// The statistics at `now_ms` while the session runs.
    pub fn live_stats(&self, now_ms: u64) -> (stats: Stats)
        ensures
            stats == self@.live_stats(now_ms),
    {
        stats_at(self.word_index, self.started_ms, now_ms)
    }

    /// The statistics of a session that ended at `now_ms`.
    pub fn final_stats(&self, now_ms: u64) -> (stats: Stats)
        ensures
            stats == self@.final_stats(now_ms),
    {
        stats_at(self.words.len(), self.started_ms, now_ms)
    }

    /// The report on a session that ended at `now_ms`: the final statistics,
    /// and the buffer and the decoded text as they were left.
    pub fn summary(&self, now_ms: u64) -> (summary: Summary)
        ensures
            summary.stats == self@.final_stats(now_ms),
            summary.morse@ == self@.buffer,
            summary.decoded@ == self@.decoded,
    {
        Summary {
            stats: self.final_stats(now_ms),
            morse: self.buffer.to_text(),
            decoded: self.decoded.clone(),
        }
    }
}

/// Whether one of `actions` is a quit action.
fn has_quit(actions: &Vec<Action>) -> (found: bool)
    ensures
        found == actions@.contains(Action::Quit),
{
    let mut i: usize = 0;
    while i < actions.len()
        invariant
            i <= actions.len(),
            forall|k: int| 0 <= k < i ==> actions@[k] != Action::Quit,
        decreases actions.len() - i,
    {
        if let Action::Quit = actions[i] {
            return true;
        }
        i += 1;
    }
    false
}

/// Actions keep a buffer of signals a buffer of signals.
pub proof fn lemma_actions_keep_signals(buffer: Seq<char>, actions: Seq<Action>)
    requires
        all_signal_chars(buffer),
    ensures
        all_signal_chars(apply_actions(buffer, actions)),
    decreases actions.len(),
{
    if actions.len() > 0 {
        lemma_actions_keep_signals(buffer, actions.drop_last());
    }
}

/// Backspace on an empty buffer leaves the buffer as it is, and the step is
/// the same as one without any input.
pub proof fn lemma_backspace_on_empty_buffer(session: SessionView)
    requires
        session.buffer.len() == 0,
    ensures
        apply_action(session.buffer, Action::Backspace) == session.buffer,
        apply_actions(session.buffer, seq![Action::Backspace]) == session.buffer,
        session.step(seq![Action::Backspace]) == session.step(Seq::<Action>::empty()),
{
    assert(apply_actions(session.buffer, seq![Action::Backspace].drop_last()) == session.buffer);
}

/// Once the decoded text, trimmed, is the word to type, the step moves on by
/// exactly one word and leaves an empty buffer and no decoded text; after
/// the last word the session is over. Any other text leaves the session at
/// its word.
pub proof fn lemma_word_completion(session: SessionView, actions: Seq<Action>)
    requires
        session.wf(),
        !session.finished,
        !actions.contains(Action::Quit),
    ensures
        session.types_word(actions) ==> {
            &&& session.step(actions).word_index == session.word_index + 1
            &&& session.step(actions).buffer == Seq::<char>::empty()
            &&& session.step(actions).decoded == Seq::<char>::empty()
            &&& session.step(actions).finished == (session.word_index + 1
                == session.words.len())
        },
        !session.types_word(actions) ==> {
            &&& session.step(actions).word_index == session.word_index
            &&& session.step(actions).buffer == apply_actions(session.buffer, actions)
            &&& session.step(actions).decoded == decode_text(session.step(actions).buffer)
            &&& !session.step(actions).finished
        },
{
    lemma_decoded_text_is_trimmed(apply_actions(session.buffer, actions));
}

/// A step keeps a session well formed, never goes back a word and never
/// skips one, and changes nothing once the session is over.
pub proof fn lemma_step(session: SessionView, actions: Seq<Action>)
    requires
        session.wf(),
    ensures
        session.step(actions).wf(),
        session.step(actions).words == session.words,
        session.word_index <= session.step(actions).word_index <= session.word_index + 1,
        session.finished ==> session.step(actions) == session,
        actions.contains(Action::Quit) ==> session.step(actions).finished && session.step(
            actions,
        ).word_index == session.word_index && session.step(actions).buffer == session.buffer,
{
    lemma_actions_keep_signals(session.buffer, actions);
    lemma_decode_empty();
}

} // verus!
