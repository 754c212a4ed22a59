//! The decoder: from a raw Morse buffer to the text it spells.
//!
//! A buffer is cut into words at every word separator and each word into
//! letters at every letter separator. Empty pieces are dropped, each letter is
//! looked up in the symbol table, and the decoded words are joined by single
//! spaces.

use vstd::prelude::*;
use crate::symbols::{
    entries_view, find_symbol, is_symbol, lemma_find_symbol_sound, lemma_round_trip,
    lemma_table_is_bijection, morse_mapping, symbol_of, symbol_table,
};
use crate::text::{chars_of, is_whitespace, spells, string_of, trim};

verus! {

/// The mark between two letters of one word.
pub const LETTER_SEPARATOR: char = '/';

/// The mark between two words.
pub const WORD_SEPARATOR: char = ' ';

/// What is shown for a letter whose code is not in the symbol table.
pub const PLACEHOLDER: char = '\u{FFFD}';

/// The pieces of `s` between the occurrences of `sep`, empty pieces included:
/// one more piece than there are separators in `s`.
pub open spec fn split(s: Seq<char>, sep: char) -> Seq<Seq<char>>
    decreases s.len(),
{
    if s.len() == 0 {
        seq![Seq::<char>::empty()]
    } else {
        let before = split(s.drop_last(), sep);
        if s.last() == sep {
            before.push(Seq::<char>::empty())
        } else {
            before.drop_last().push(before.last().push(s.last()))
        }
    }
}

/// Whether `piece` has at least one character.
pub open spec fn non_empty(piece: Seq<char>) -> bool {
    piece.len() > 0
}

/// The non-empty pieces of `s` between the occurrences of `sep`.
pub open spec fn fields(s: Seq<char>, sep: char) -> Seq<Seq<char>> {
    split(s, sep).filter(|piece: Seq<char>| non_empty(piece))
}

/// The character shown for one letter's code.
pub open spec fn decode_letter(code: Seq<char>) -> char {
    match symbol_of(code) {
        Some(c) => c,
        None => PLACEHOLDER,
    }
}

/// The text of one word: its letters, decoded one by one.
pub open spec fn decode_word(word: Seq<char>) -> Seq<char> {
    fields(word, LETTER_SEPARATOR).map_values(|code: Seq<char>| decode_letter(code))
}

/// The decoded words of a buffer, those without any letter left out.
pub open spec fn decoded_words(buffer: Seq<char>) -> Seq<Seq<char>> {
    fields(buffer, WORD_SEPARATOR).map_values(|word: Seq<char>| decode_word(word)).filter(
        |text: Seq<char>| non_empty(text),
    )
}

/// The words of `words` in order, with one space between neighbours.
pub open spec fn join_words(words: Seq<Seq<char>>) -> Seq<char>
    decreases words.len(),
{
    if words.len() == 0 {
        Seq::<char>::empty()
    } else if words.len() == 1 {
        words[0]
    } else {
        join_words(words.drop_last()).push(WORD_SEPARATOR) + words.last()
    }
}

/// The text that a Morse buffer spells.
pub open spec fn decode_text(buffer: Seq<char>) -> Seq<char> {
    join_words(decoded_words(buffer))
}

/// The views of a vector of character vectors.
pub open spec fn piece_views(pieces: Seq<Vec<char>>) -> Seq<Seq<char>> {
    pieces.map_values(|piece: Vec<char>| piece@)
}

/// Cutting a sequence that ends in a separator opens a new, empty piece;
/// any other last character extends the last piece.
pub proof fn lemma_split_step(s: Seq<char>, sep: char, i: int)
    requires
        0 <= i < s.len(),
    ensures
        split(s.take(i), sep).len() > 0,
        s[i] == sep ==> split(s.take(i + 1), sep) == split(s.take(i), sep).push(
            Seq::<char>::empty(),
        ),
        s[i] != sep ==> split(s.take(i + 1), sep) == split(s.take(i), sep).drop_last().push(
            split(s.take(i), sep).last().push(s[i]),
        ),
{
    assert(s.take(i + 1).drop_last() =~= s.take(i));
}

/// The non-empty pieces of `s` between the occurrences of `sep`, in order.
pub fn split_fields(s: &Vec<char>, sep: char) -> (pieces: Vec<Vec<char>>)
    ensures
        piece_views(pieces@) == fields(s@, sep),
{
    let mut pieces: Vec<Vec<char>> = Vec::new();
    let mut current: Vec<char> = Vec::new();
    let ghost keep = |piece: Seq<char>| non_empty(piece);
    let mut i: usize = 0;
    while i < s.len()
        invariant
            i <= s.len(),
            keep == |piece: Seq<char>| non_empty(piece),
            split(s@.take(i as int), sep).len() > 0,
            current@ == split(s@.take(i as int), sep).last(),
            piece_views(pieces@) == split(s@.take(i as int), sep).drop_last().filter(keep),
        decreases s.len() - i,
    {
        let c = s[i];
        proof {
            lemma_split_step(s@, sep, i as int);
        }
        let ghost before = split(s@.take(i as int), sep);
        if c == sep {
            proof {
                assert(before.push(Seq::<char>::empty()).drop_last() =~= before);
                assert(before =~= before.drop_last().push(before.last()));
                before.drop_last().lemma_filter_push(before.last(), keep);
            }
            if current.len() > 0 {
                pieces.push(current);
            }
            current = Vec::new();
        } else {
            proof {
                assert(before.drop_last().push(before.last().push(c)).drop_last()
                    =~= before.drop_last());
            }
            current.push(c);
        }
        i += 1;
    }
    proof {
        assert(s@.take(i as int) =~= s@);
        let all = split(s@, sep);
        assert(all =~= all.drop_last().push(all.last()));
        all.drop_last().lemma_filter_push(all.last(), keep);
    }
    if current.len() > 0 {
        pieces.push(current);
    }
    pieces
}

/// The character of the first entry of `table` whose code is `code`.
fn lookup(table: &Vec<(&'static str, char)>, code: &Vec<char>) -> (symbol: Option<char>)
    ensures
        symbol == find_symbol(entries_view(table@), code@),
{
    let ghost entries = entries_view(table@);
    let mut i: usize = 0;
    assert(entries.skip(0) =~= entries);
    while i < table.len()
        invariant
            i <= table.len(),
            entries == entries_view(table@),
            find_symbol(entries, code@) == find_symbol(entries.skip(i as int), code@),
        decreases table.len() - i,
    {
        let entry = table[i];
        proof {
            assert(entries.skip(i as int).drop_first() =~= entries.skip(i + 1));
        }
        if spells(entry.0, code) {
            return Some(entry.1);
        }
        i += 1;
    }
    None
}

/// The character that the Morse code `code` stands for, or `None` where it is
/// not one of the thirty-six codes of the symbol table.
pub fn decode_symbol(code: &str) -> (symbol: Option<char>)
    ensures
        symbol == symbol_of(code@),
{
    let table = morse_mapping();
    let chars = chars_of(code);
    lookup(&table, &chars)
}

/// Decodes the letters of one word with the given table.
fn decode_word_with(table: &Vec<(&'static str, char)>, word: &Vec<char>) -> (text: Vec<char>)
    requires
        entries_view(table@) == symbol_table(),
    ensures
        text@ == decode_word(word@),
{
    let letters = split_fields(word, LETTER_SEPARATOR);
    let ghost codes = fields(word@, LETTER_SEPARATOR);
    let ghost decode = |code: Seq<char>| decode_letter(code);
    let mut text: Vec<char> = Vec::new();
    let mut i: usize = 0;
    while i < letters.len()
        invariant
            i <= letters.len(),
            entries_view(table@) == symbol_table(),
            piece_views(letters@) == codes,
            decode == |code: Seq<char>| decode_letter(code),
            text@ == codes.take(i as int).map_values(decode),
        decreases letters.len() - i,
    {
        let c = match lookup(table, &letters[i]) {
            Some(c) => c,
            None => PLACEHOLDER,
        };
        text.push(c);
        i += 1;
    }
    text
}

/// The text that the Morse buffer `buffer` spells, character by character.
pub fn decode_chars(buffer: &Vec<char>) -> (text: Vec<char>)
    ensures
        text@ == decode_text(buffer@),
{
    let table = morse_mapping();
    let words = split_fields(buffer, WORD_SEPARATOR);
    let ghost raw = fields(buffer@, WORD_SEPARATOR);
    let ghost decode = |word: Seq<char>| decode_word(word);
    let ghost keep = |text: Seq<char>| non_empty(text);
    let mut text: Vec<char> = Vec::new();
    let mut i: usize = 0;
    while i < words.len()
        invariant
            i <= words.len(),
            entries_view(table@) == symbol_table(),
            piece_views(words@) == raw,
            decode == |word: Seq<char>| decode_word(word),
            keep == |text: Seq<char>| non_empty(text),
            text@ == join_words(raw.take(i as int).map_values(decode).filter(keep)),
            forall|k: int|
                0 <= k < raw.take(i as int).map_values(decode).filter(keep).len() ==> non_empty(
                    #[trigger] raw.take(i as int).map_values(decode).filter(keep)[k],
                ),
        decreases words.len() - i,
    {
        let word = decode_word_with(&table, &words[i]);
        let ghost done = raw.take(i as int).map_values(decode).filter(keep);
        proof {
            assert(raw.take(i + 1) =~= raw.take(i as int).push(raw[i as int]));
            raw.take(i as int).lemma_push_map_commute(decode, raw[i as int]);
            raw.take(i as int).map_values(decode).lemma_filter_push(word@, keep);
        }
        if word.len() > 0 {
            proof {
                if done.len() > 0 {
                    assert(done.push(word@).drop_last() =~= done);
                }
            }
            if text.len() > 0 {
                text.push(WORD_SEPARATOR);
            }
            let mut k: usize = 0;
            let ghost head = text@;
            while k < word.len()
                invariant
                    k <= word.len(),
                    text@ == head + word@.take(k as int),
                decreases word.len() - k,
            {
                text.push(word[k]);
                k += 1;
            }
        }
        i += 1;
    }
    assert(raw.take(i as int) =~= raw);
    text
}

/// The text that the Morse buffer `morse` spells.
///
/// Dots and dashes between separators form one letter; `/` ends a letter and
/// a space ends a word. A letter whose code is not in the symbol table shows
/// as the placeholder character. Runs of separators count as one, and the
/// result neither starts nor ends with a space.
pub fn decode_morse(morse: &str) -> (text: String)
    ensures
        text@ == decode_text(morse@),
{
    let buffer = chars_of(morse);
    let decoded = decode_chars(&buffer);
    string_of(&decoded)
}

/// A sequence without any separator is a single piece.
pub proof fn lemma_split_without_separator(s: Seq<char>, sep: char)
    requires
        forall|k: int| 0 <= k < s.len() ==> s[k] != sep,
    ensures
        split(s, sep) == seq![s],
    decreases s.len(),
{
    if s.len() > 0 {
        lemma_split_without_separator(s.drop_last(), sep);
        assert(s.drop_last().push(s.last()) =~= s);
    } else {
        assert(s =~= Seq::<char>::empty());
    }
}

/// A non-empty sequence without any separator is its own single field.
pub proof fn lemma_fields_without_separator(s: Seq<char>, sep: char)
    requires
        s.len() > 0,
        forall|k: int| 0 <= k < s.len() ==> s[k] != sep,
    ensures
        fields(s, sep) == seq![s],
{
    let keep = |piece: Seq<char>| non_empty(piece);
    lemma_split_without_separator(s, sep);
    Seq::<Seq<char>>::empty().lemma_filter_push(s, keep);
}

/// The empty buffer spells the empty text.
pub proof fn lemma_decode_empty()
    ensures
        decode_text(Seq::<char>::empty()) == Seq::<char>::empty(),
{
    Seq::<Seq<char>>::empty().lemma_filter_push(
        Seq::<char>::empty(),
        |piece: Seq<char>| non_empty(piece),
    );
}

/// A buffer that holds one letter and no separator spells one character: the
/// letter's symbol, or the placeholder where the symbol table has no such
/// code.
pub proof fn lemma_decode_single_letter(code: Seq<char>)
    requires
        code.len() > 0,
        forall|k: int|
            0 <= k < code.len() ==> code[k] != LETTER_SEPARATOR && code[k] != WORD_SEPARATOR,
    ensures
        decode_text(code) == seq![decode_letter(code)],
{
    let keep = |piece: Seq<char>| non_empty(piece);
    let none = Seq::<Seq<char>>::empty();
    lemma_fields_without_separator(code, WORD_SEPARATOR);
    lemma_fields_without_separator(code, LETTER_SEPARATOR);
    let words = fields(code, WORD_SEPARATOR).map_values(|word: Seq<char>| decode_word(word));
    assert(words =~= none.push(decode_word(code)));
    none.lemma_filter_push(decode_word(code), keep);
}

/// A buffer that holds exactly the code of one entry of the symbol table
/// spells exactly that entry's character.
pub proof fn lemma_decode_table_entry(code: Seq<char>, c: char)
    requires
        symbol_table().contains((code, c)),
    ensures
        decode_text(code) == seq![c],
{
    lemma_table_is_bijection();
    lemma_round_trip(code, c);
    lemma_decode_single_letter(code);
}

/// Decoding has no hidden state: equal buffers spell equal texts, however
/// often they are decoded.
pub proof fn lemma_decode_is_a_function(first: Seq<char>, second: Seq<char>)
    requires
        first == second,
    ensures
        decode_text(first) == decode_text(second),
{
}

/// A decoded letter is a letter, a digit or the placeholder, and never white
/// space.
pub proof fn lemma_decoded_letter(code: Seq<char>)
    ensures
        is_symbol(decode_letter(code)) || decode_letter(code) == PLACEHOLDER,
        !is_whitespace(decode_letter(code)),
{
    lemma_find_symbol_sound(symbol_table(), code);
}

/// Joined words start with the first character of the first word and end
/// with the last character of the last word.
pub proof fn lemma_join_words_ends(words: Seq<Seq<char>>)
    requires
        words.len() > 0,
        forall|k: int| 0 <= k < words.len() ==> non_empty(#[trigger] words[k]),
    ensures
        join_words(words).len() > 0,
        join_words(words)[0] == words[0][0],
        join_words(words).last() == words.last().last(),
    decreases words.len(),
{
    if words.len() > 1 {
        lemma_join_words_ends(words.drop_last());
    }
}

/// Decoded text neither starts nor ends with white space: trimming it
/// changes nothing.
pub proof fn lemma_decoded_text_is_trimmed(buffer: Seq<char>)
    ensures
        trim(decode_text(buffer)) == decode_text(buffer),
{
    let keep = |text: Seq<char>| non_empty(text);
    let decode = |word: Seq<char>| decode_word(word);
    let all = fields(buffer, WORD_SEPARATOR).map_values(decode);
    let words = decoded_words(buffer);
    if words.len() > 0 {
        lemma_join_words_ends(words);
        let first = words[0];
        let last = words.last();
        all.lemma_filter_contains_rev(keep, first);
        all.lemma_filter_contains_rev(keep, last);
        let i = choose|i: int| 0 <= i < all.len() && all[i] == first;
        let j = choose|j: int| 0 <= j < all.len() && all[j] == last;
        let first_codes = fields(fields(buffer, WORD_SEPARATOR)[i], LETTER_SEPARATOR);
        let last_codes = fields(fields(buffer, WORD_SEPARATOR)[j], LETTER_SEPARATOR);
        lemma_decoded_letter(first_codes[0]);
        lemma_decoded_letter(last_codes.last());
    }
}

/// Cutting at a separator cuts each side by itself: the pieces of
/// `left`, `sep`, `right` are the pieces of `left` followed by those of
/// `right`.
pub proof fn lemma_split_at_separator(left: Seq<char>, sep: char, right: Seq<char>)
    ensures
        split(left.push(sep) + right, sep) == split(left, sep) + split(right, sep),
    decreases right.len(),
{
    let whole = left.push(sep) + right;
    if right.len() == 0 {
        assert(whole.drop_last() =~= left);
    } else {
        lemma_split_at_separator(left, sep, right.drop_last());
        assert(whole.drop_last() =~= left.push(sep) + right.drop_last());
    }
}

/// The non-empty pieces of `left`, `sep`, `right` are those of `left`
/// followed by those of `right`.
pub proof fn lemma_fields_at_separator(left: Seq<char>, sep: char, right: Seq<char>)
    ensures
        fields(left.push(sep) + right, sep) == fields(left, sep) + fields(right, sep),
{
    lemma_split_at_separator(left, sep, right);
}

/// A letter separator joins the letters on its two sides into one word.
pub proof fn lemma_decode_word_at_separator(left: Seq<char>, right: Seq<char>)
    ensures
        decode_word(left.push(LETTER_SEPARATOR) + right) == decode_word(left) + decode_word(
            right,
        ),
{
    lemma_fields_at_separator(left, LETTER_SEPARATOR, right);
}

/// The decoded words of a buffer with a word separator in it are those
/// before the separator followed by those after it.
pub proof fn lemma_decoded_words_at_separator(left: Seq<char>, right: Seq<char>)
    ensures
        decoded_words(left.push(WORD_SEPARATOR) + right) == decoded_words(left) + decoded_words(
            right,
        ),
{
    let decode = |word: Seq<char>| decode_word(word);
    let keep = |text: Seq<char>| non_empty(text);
    lemma_fields_at_separator(left, WORD_SEPARATOR, right);
    let a = fields(left, WORD_SEPARATOR);
    let b = fields(right, WORD_SEPARATOR);
    assert((a + b).map_values(decode) =~= a.map_values(decode) + b.map_values(decode));
}

/// Joining two runs of words puts one space between them.
pub proof fn lemma_join_words_concat(first: Seq<Seq<char>>, second: Seq<Seq<char>>)
    requires
        first.len() > 0,
        second.len() > 0,
    ensures
        join_words(first + second) == join_words(first).push(WORD_SEPARATOR) + join_words(
            second,
        ),
    decreases second.len(),
{
    let all = first + second;
    if second.len() == 1 {
        assert(all.drop_last() =~= first);
    } else {
        assert(all.drop_last() =~= first + second.drop_last());
        lemma_join_words_concat(first, second.drop_last());
    }
}

/// A word separator puts one space between the texts on its two sides, and
/// nothing where one of the sides spells nothing.
pub proof fn lemma_decode_text_at_separator(left: Seq<char>, right: Seq<char>)
    ensures
        decode_text(left.push(WORD_SEPARATOR) + right) == if decoded_words(left).len() == 0 {
            decode_text(right)
        } else if decoded_words(right).len() == 0 {
            decode_text(left)
        } else {
            decode_text(left).push(WORD_SEPARATOR) + decode_text(right)
        },
{
    lemma_decoded_words_at_separator(left, right);
    if decoded_words(left).len() > 0 && decoded_words(right).len() > 0 {
        lemma_join_words_concat(decoded_words(left), decoded_words(right));
    }
}

/// A word without any word separator in it spells its letters, or nothing
/// where it has no letter.
pub proof fn lemma_decode_single_word(word: Seq<char>)
    requires
        forall|k: int| 0 <= k < word.len() ==> word[k] != WORD_SEPARATOR,
    ensures
        decode_text(word) == decode_word(word),
        decoded_words(word).len() == if decode_word(word).len() > 0 {
            1nat
        } else {
            0nat
        },
{
    let keep = |piece: Seq<char>| non_empty(piece);
    let decode = |w: Seq<char>| decode_word(w);
    let none = Seq::<Seq<char>>::empty();
    lemma_split_without_separator(word, WORD_SEPARATOR);
    none.lemma_filter_push(word, keep);
    if word.len() > 0 {
        assert(fields(word, WORD_SEPARATOR).map_values(decode) =~= none.push(decode_word(word)));
        none.lemma_filter_push(decode_word(word), keep);
    }
}

} // verus!
