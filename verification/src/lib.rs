//! Core of a Morse code typing trainer: the symbol table, the decoder that
//! turns a raw Morse buffer into text, the interpreter that turns key activity
//! into buffer edits, and the session controller that tracks the words to type.
//!
//! The modules, leaves first: `symbols` holds the table of the thirty-six
//! codes; `decoder` turns a buffer into text; `buffer` is the buffer itself;
//! `input` reads key activity in either of two modes; `session` steps through
//! the words and `stats` measures the speed; `words` picks the words of a
//! session out of a word file; `table` formats the reference table; `config`
//! holds the defaults.

pub mod buffer;
pub mod config;
pub mod decoder;
pub mod input;
pub mod session;
pub mod stats;
pub mod symbols;
pub mod table;
pub mod text;
pub mod words;

pub use decoder::decode_morse;
pub use symbols::{latin_to_morse_mapping, morse_mapping};
pub use table::format_morse_table;
pub use words::load_words;
