//! The Morse buffer: the dots, dashes and separators typed so far for the
//! current word.

use vstd::prelude::*;
use crate::decoder::{decode_chars, decode_text, LETTER_SEPARATOR, WORD_SEPARATOR};
use crate::text::string_of;

verus! {

/// One element of a Morse buffer.
#[derive(Clone, Copy, Debug, PartialEq, Eq, Structural)]
pub enum Signal {
    /// A short press.
    Dot,
    /// A long press.
    Dash,
    /// The end of a letter.
    LetterGap,
    /// The end of a word.
    WordGap,
}

impl Signal {
    /// The character that stands for this signal in a buffer.
    pub open spec fn mark(self) -> char {
        match self {
            Signal::Dot => '.',
            Signal::Dash => '-',
            Signal::LetterGap => LETTER_SEPARATOR,
            Signal::WordGap => WORD_SEPARATOR,
        }
    }

    /// The character that stands for this signal in a buffer.
    pub fn to_char(self) -> (c: char)
        ensures
            c == self.mark(),
            is_signal_char(c),
    {
        match self {
            Signal::Dot => '.',
            Signal::Dash => '-',
            Signal::LetterGap => LETTER_SEPARATOR,
            Signal::WordGap => WORD_SEPARATOR,
        }
    }
}

/// Whether `c` is one of the four characters a Morse buffer is made of.
pub open spec fn is_signal_char(c: char) -> bool {
    c == '.' || c == '-' || c == LETTER_SEPARATOR || c == WORD_SEPARATOR
}

/// Whether every character of `s` is one a Morse buffer may hold.
pub open spec fn all_signal_chars(s: Seq<char>) -> bool {
    forall|i: int| 0 <= i < s.len() ==> is_signal_char(#[trigger] s[i])
}

/// An ordered sequence of dots, dashes, letter separators and word
/// separators. It cannot hold anything else.
pub struct MorseBuffer {
    signals: Vec<Signal>,
}

impl View for MorseBuffer {
    type V = Seq<char>;

    /// The buffer as characters, one per signal.
    closed spec fn view(&self) -> Seq<char> {
        self.signals@.map_values(|signal: Signal| signal.mark())
    }
}

impl MorseBuffer {
    /// Whatever was done to a buffer, it holds dots, dashes, `/` and spaces
    /// only.
    pub proof fn lemma_only_signals(self)
        ensures
            all_signal_chars(self@),
    {
    }

    /// An empty buffer.
    pub fn new() -> (buffer: MorseBuffer)
        ensures
            buffer@ == Seq::<char>::empty(),
    {
        let buffer = MorseBuffer { signals: Vec::new() };
        buffer
    }

    /// The number of signals in the buffer.
    pub fn len(&self) -> (n: usize)
        ensures
            n == self@.len(),
    {
        self.signals.len()
    }

    /// Whether the buffer holds no signal.
    pub fn is_empty(&self) -> (empty: bool)
        ensures
            empty == (self@.len() == 0),
    {
        self.signals.len() == 0
    }

    /// Appends one signal at the end.
    pub fn push(&mut self, signal: Signal)
        ensures
            final(self)@ == old(self)@.push(signal.mark()),
    {
        self.signals.push(signal);
    }

    /// Removes the last signal, if there is one, and says whether it did. On
    /// an empty buffer nothing changes.
    pub fn backspace(&mut self) -> (removed: bool)
        ensures
            removed == (old(self)@.len() > 0),
            removed ==> final(self)@ == old(self)@.drop_last(),
            !removed ==> final(self)@ == old(self)@,
    {
        match self.signals.pop() {
            Some(_) => {
                true
            },
            None => false,
        }
    }

    /// Removes every signal.
    pub fn clear(&mut self)
        ensures
            final(self)@ == Seq::<char>::empty(),
    {
        self.signals.clear();
    }

    /// The buffer as a vector of characters, one per signal.
    pub fn to_chars(&self) -> (chars: Vec<char>)
        ensures
            chars@ == self@,
    {
        let mut chars: Vec<char> = Vec::new();
        let mut i: usize = 0;
        while i < self.signals.len()
            invariant
                i <= self.signals.len(),
                chars@ == self@.take(i as int),
            decreases self.signals.len() - i,
        {
            chars.push(self.signals[i].to_char());
            i += 1;
        }
        chars
    }

    /// The buffer as text: one character per signal, all of them dots,
    /// dashes, `/` or spaces.
    pub fn to_text(&self) -> (text: String)
        ensures
            text@ == self@,
            all_signal_chars(text@),
    {
        let chars = self.to_chars();
        string_of(&chars)
    }

    /// The text that the buffer spells.
    pub fn decode(&self) -> (text: String)
        ensures
            text@ == decode_text(self@),
    {
        let chars = self.to_chars();
        let decoded = decode_chars(&chars);
        string_of(&decoded)
    }
}

} // verus!
