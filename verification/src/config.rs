//! What the user may choose for a session, and what holds where nothing is
//! chosen.

use vstd::prelude::*;
use crate::input::DEFAULT_THRESHOLD_MS;
use crate::text::{chars_of, string_of};

verus! {

/// The number of words of a session unless the user asks for another.
pub const DEFAULT_WORD_COUNT: usize = 10;

/// The language of a session unless the user asks for another.
pub open spec fn default_language() -> Seq<char> {
    "en"@
}

/// The choices for one session.
#[derive(Debug)]
pub struct Config {
    /// The code of the language whose words are practised.
    pub language_code: String,
    /// The number of words to practise.
    pub word_count: usize,
    /// The longest press, in milliseconds, that counts as a dot.
    pub threshold_ms: u64,
}

impl Config {
    /// The choices of the user, completed by the defaults: English, ten
    /// words, and a threshold of 150 milliseconds.
    pub fn from_choices(
        language_code: Option<String>,
        word_count: Option<usize>,
        threshold_ms: Option<u64>,
    ) -> (config: Config)
        ensures
            config.language_code@ == match language_code {
                Some(code) => code@,
                None => default_language(),
            },
            config.word_count == match word_count {
                Some(count) => count,
                None => DEFAULT_WORD_COUNT,
            },
            config.threshold_ms == match threshold_ms {
                Some(threshold) => threshold,
                None => DEFAULT_THRESHOLD_MS,
            },
    {
        Config {
            language_code: match language_code {
                Some(code) => code,
                None => string_of(&chars_of("en")),
            },
            word_count: match word_count {
                Some(count) => count,
                None => DEFAULT_WORD_COUNT,
            },
            threshold_ms: match threshold_ms {
                Some(threshold) => threshold,
                None => DEFAULT_THRESHOLD_MS,
            },
        }
    }
}

} // verus!
