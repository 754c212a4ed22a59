//! The word source: from the bytes of a word file to the words of one
//! session.
//!
//! A word file is a JSON document with an array under `words`. Each entry of
//! the array is an object that gives a word in English under `englishWord`
//! and in the file's own language under `targetWord`. The words are put in
//! upper case, shuffled, and cut down to the number asked for.

use vstd::prelude::*;
use rand::seq::SliceRandom;
use serde_json::Value;
use crate::text::{chars_of, same_text, string_of, string_views};

verus! {

/// A JSON parse error of `serde_json`.
#[verifier::external_type_specification]
#[verifier::external_body]
pub struct ExJsonError(serde_json::Error);

/// The thread-local random number generator of `rand`.
#[verifier::external_type_specification]
#[verifier::external_body]
pub struct ExThreadRng(rand::rngs::ThreadRng);

/// What a member of an entry holds: a text, or anything else.
#[derive(Debug, PartialEq, Eq)]
pub enum Field {
    Text(String),
    Other,
}

/// One element of an array: an object with its members in the order in
/// which `serde_json` walks them, or anything else.
#[derive(Debug, PartialEq, Eq)]
pub enum Entry {
    Object(Vec<(String, Field)>),
    Other,
}

/// What a member of the document holds: an array, or anything else.
#[derive(Debug, PartialEq, Eq)]
pub enum Member {
    Array(Vec<Entry>),
    Other,
}

/// A JSON document as far as the word source reads it, which is three levels
/// down: an object with its members in the order in which `serde_json` walks
/// them, or anything else.
#[derive(Debug, PartialEq, Eq)]
pub enum Document {
    Object(Vec<(String, Member)>),
    Other,
}

/// Why a word file gave no words.
#[derive(Debug)]
pub enum WordsError {
    /// The bytes are not a JSON document.
    InvalidJson(serde_json::Error),
    /// The document is no object, or has no array under `words`.
    InvalidWords,
}

/// The document that `serde_json` reads from `bytes`, or `None` where it
/// rejects them.
pub uninterp spec fn json_document(bytes: Seq<u8>) -> Option<Document>;

/// `s` in upper case, as `str::to_uppercase` gives it.
pub uninterp spec fn uppercase(s: Seq<char>) -> Seq<char>;

/// `serde_json::from_slice`, read into a `serde_json::Value` and handed on
/// as a `Document`, variant by variant: the same bytes always give the same
/// document, or are always rejected.
#[verifier::external_body]
fn parse_json(bytes: &[u8]) -> (parsed: Result<Document, serde_json::Error>)
    ensures
        match parsed {
            Ok(doc) => json_document(bytes@) == Some(doc),
            Err(_) => json_document(bytes@) is None,
        },
{
    Ok(match serde_json::from_slice::<Value>(bytes)? {
        Value::Object(members) => Document::Object(members.into_iter().map(|(key, member)| (key, match member {
            Value::Array(items) => Member::Array(items.into_iter().map(|item| match item {
                Value::Object(fields) => Entry::Object(fields.into_iter().map(|(key, field)| (key, match field {
                    Value::String(text) => Field::Text(text),
                    _ => Field::Other,
                })).collect()),
                _ => Entry::Other,
            }).collect()),
            _ => Member::Other,
        })).collect()),
        _ => Document::Other,
    })
}

/// Specification of `str::to_uppercase`: the result depends on the
/// characters of `s` alone.
pub assume_specification[ str::to_uppercase ](s: &str) -> (upper: String)
    ensures
        upper@ == uppercase(s@),
;

/// Specification of `rand::thread_rng`: it hands out the generator of the
/// current thread.
pub assume_specification[ rand::thread_rng ]() -> (rng: rand::rngs::ThreadRng)
;

/// `SliceRandom::shuffle` on the words: whatever the generator yields, the
/// same words are there afterwards, in some order.
#[verifier::external_body]
fn shuffle_words(words: &mut Vec<String>, rng: &mut rand::rngs::ThreadRng)
    ensures
        string_views(final(words)@).to_multiset() == string_views(old(words)@).to_multiset(),
{
    words.shuffle(rng);
}

/// The directory of the word files, with the slash that ends it.
pub open spec fn words_directory() -> Seq<char> {
    "thousand-most-common-words/words/"@
}

/// Where the word file of a language is kept.
pub open spec fn words_path_of(language_code: Seq<char>) -> Seq<char> {
    words_directory() + language_code + ".json"@
}

/// The member that gives an entry's word: the English one for the language
/// code `en`, the one in the file's own language for every other.
pub open spec fn word_key(language_code: Seq<char>) -> Seq<char> {
    if language_code == "en"@ {
        "englishWord"@
    } else {
        "targetWord"@
    }
}

/// The value of the first of `members` whose key is `key`.
pub open spec fn find_member<T>(members: Seq<(String, T)>, key: Seq<char>) -> Option<T>
    decreases members.len(),
{
    if members.len() == 0 {
        None
    } else if members[0].0@ == key {
        Some(members[0].1)
    } else {
        find_member(members.drop_first(), key)
    }
}

/// The word that one entry gives under `key`, in upper case, or `None` where
/// the entry is no object or has no text there.
pub open spec fn entry_word(entry: Entry, key: Seq<char>) -> Option<Seq<char>> {
    match entry {
        Entry::Object(fields) => match find_member(fields@, key) {
            Some(Field::Text(word)) => Some(uppercase(word@)),
            _ => None,
        },
        Entry::Other => None,
    }
}

/// The words of `entries` in order, entries without a word left out.
pub open spec fn entry_words(entries: Seq<Entry>, key: Seq<char>) -> Seq<Seq<char>>
    decreases entries.len(),
{
    if entries.len() == 0 {
        Seq::<Seq<char>>::empty()
    } else {
        let before = entry_words(entries.drop_last(), key);
        match entry_word(entries.last(), key) {
            Some(word) => before.push(word),
            None => before,
        }
    }
}

/// All the words of a document for a language, in the order of the file, or
/// `None` where the document is no object or has no array under `words`.
pub open spec fn word_list(doc: Document, language_code: Seq<char>) -> Option<Seq<Seq<char>>> {
    match doc {
        Document::Object(members) => match find_member(members@, "words"@) {
            Some(Member::Array(entries)) => Some(
                entry_words(entries@, word_key(language_code)),
            ),
            _ => None,
        },
        Document::Other => None,
    }
}

/// How many words a session gets out of `available` when `count` are asked
/// for.
pub open spec fn chosen_len(available: nat, count: nat) -> nat {
    if count <= available {
        count
    } else {
        available
    }
}

/// Where the word file of `language_code` is kept.
pub fn words_path(language_code: &str) -> (path: String)
    ensures
        path@ == words_path_of(language_code@),
{
    let mut path = string_of(&chars_of("thousand-most-common-words/words/"));
    path.append(language_code);
    path.append(".json");
    path
}

/// The value of the first of `members` whose key is `key`.
pub fn member<'a, T>(members: &'a Vec<(String, T)>, key: &str) -> (found: Option<&'a T>)
    ensures
        match found {
            Some(value) => find_member(members@, key@) == Some(*value),
            None => find_member(members@, key@) is None,
        },
{
    let mut i: usize = 0;
    assert(members@.skip(0) =~= members@);
    while i < members.len()
        invariant
            i <= members.len(),
            find_member(members@, key@) == find_member(members@.skip(i as int), key@),
        decreases members.len() - i,
    {
        proof {
            assert(members@.skip(i as int).drop_first() =~= members@.skip(i + 1));
        }
        if same_text(members[i].0.as_str(), key) {
            return Some(&members[i].1);
        }
        i += 1;
    }
    None
}

/// The word that `entry` gives under `key`, in upper case.
pub fn word_of(entry: &Entry, key: &str) -> (word: Option<String>)
    ensures
        match word {
            Some(w) => entry_word(*entry, key@) == Some(w@),
            None => entry_word(*entry, key@) is None,
        },
{
    match entry {
        Entry::Object(fields) => match member(fields, key) {
            Some(Field::Text(word)) => Some(word.as_str().to_uppercase()),
            _ => None,
        },
        Entry::Other => None,
    }
}

/// All the words of a word file for a language, in upper case and in the
/// order of the file. Entries that give no text for the language are left
/// out. `None` where the document is no object or has no array under
/// `words`.
pub fn extract_words(doc: &Document, language_code: &str) -> (words: Option<Vec<String>>)
    ensures
        match words {
            Some(list) => word_list(*doc, language_code@) == Some(string_views(list@)),
            None => word_list(*doc, language_code@) is None,
        },
{
    let key = if same_text(language_code, "en") {
        "englishWord"
    } else {
        "targetWord"
    };
    let entries = match doc {
        Document::Object(members) => match member(members, "words") {
            Some(Member::Array(entries)) => entries,
            _ => {
                return None;
            },
        },
        Document::Other => {
            return None;
        },
    };
    let mut list: Vec<String> = Vec::new();
    let mut i: usize = 0;
    while i < entries.len()
        invariant
            i <= entries.len(),
            string_views(list@) == entry_words(entries@.take(i as int), key@),
        decreases entries.len() - i,
    {
        proof {
            assert(entries@.take(i + 1).drop_last() =~= entries@.take(i as int));
        }
        match word_of(&entries[i], key) {
            Some(word) => {
                list.push(word);
            },
            None => {},
        }
        i += 1;
    }
    assert(entries@.take(i as int) =~= entries@);
    Some(list)
}

/// The first `count` of `words`, or all of them where there are fewer.
pub fn first_words(words: Vec<String>, count: usize) -> (chosen: Vec<String>)
    ensures
        chosen@ == words@.take(chosen_len(words@.len(), count as nat) as int),
{
    let mut chosen = words;
    if count < chosen.len() {
        chosen.truncate(count);
    }
    chosen
}

/// The first words of a list are among the words of the list.
pub proof fn lemma_take_is_part(words: Seq<Seq<char>>, n: int)
    requires
        0 <= n <= words.len(),
    ensures
        words.take(n).to_multiset().subset_of(words.to_multiset()),
{
    vstd::seq_lib::lemma_multiset_commutative(words.take(n), words.skip(n));
    assert(words.take(n) + words.skip(n) =~= words);
}

/// Picks the words of a session out of `words`: shuffles them and keeps the
/// first `count`, or all of them where there are fewer. Which words stay and
/// in which order is left to chance; every one of them is among `words`, no
/// more often than it is there.
pub fn choose_words(words: Vec<String>, count: usize) -> (chosen: Vec<String>)
    ensures
        chosen@.len() == chosen_len(words@.len(), count as nat),
        string_views(chosen@).to_multiset().subset_of(string_views(words@).to_multiset()),
{
    let mut shuffled = words;
    let mut rng = rand::thread_rng();
    shuffle_words(&mut shuffled, &mut rng);
    proof {
        string_views(shuffled@).to_multiset_ensures();
        string_views(words@).to_multiset_ensures();
        let n = chosen_len(shuffled@.len(), count as nat) as int;
        lemma_take_is_part(string_views(shuffled@), n);
        assert(string_views(shuffled@.take(n)) =~= string_views(shuffled@).take(n));
    }
    first_words(shuffled, count)
}

/// Reads the bytes of a word file and picks the words of a session: up to
/// `count` of the file's words for the language, in upper case and in a
/// random order.
///
/// Fails with `InvalidJson` exactly where the bytes are no JSON document,
/// and with `InvalidWords` exactly where the document is no object or has no
/// array under `words`.
pub fn load_words(bytes: &[u8], language_code: &str, count: usize) -> (loaded: Result<
    Vec<String>,
    WordsError,
>)
    ensures
        match loaded {
            Ok(list) => json_document(bytes@) matches Some(doc) && word_list(doc, language_code@)
                matches Some(all) && list@.len() == chosen_len(all.len(), count as nat)
                && string_views(list@).to_multiset().subset_of(all.to_multiset()),
            Err(WordsError::InvalidJson(_)) => json_document(bytes@) is None,
            Err(WordsError::InvalidWords) => json_document(bytes@) matches Some(doc) && word_list(
                doc,
                language_code@,
            ) is None,
        },
{
    match parse_json(bytes) {
        Ok(doc) => match extract_words(&doc, language_code) {
            Some(all) => Ok(choose_words(all, count)),
            None => Err(WordsError::InvalidWords),
        },
        Err(error) => Err(WordsError::InvalidJson(error)),
    }
}

} // verus!
