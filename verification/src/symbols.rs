//! The symbol table: the fixed correspondence between Morse codes and the
//! twenty-six letters and ten digits.

use vstd::prelude::*;

verus! {

/// The table, one `(code, character)` pair per symbol: the letters in
/// alphabetical order, then the digits `1` to `9` and `0`.
pub open spec fn symbol_table() -> Seq<(Seq<char>, char)> {
    seq![
        (".-"@, 'A'),
        ("-..."@, 'B'),
        ("-.-."@, 'C'),
        ("-.."@, 'D'),
        ("."@, 'E'),
        ("..-."@, 'F'),
        ("--."@, 'G'),
        ("...."@, 'H'),
        (".."@, 'I'),
        (".---"@, 'J'),
        ("-.-"@, 'K'),
        (".-.."@, 'L'),
        ("--"@, 'M'),
        ("-."@, 'N'),
        ("---"@, 'O'),
        (".--."@, 'P'),
        ("--.-"@, 'Q'),
        (".-."@, 'R'),
        ("..."@, 'S'),
        ("-"@, 'T'),
        ("..-"@, 'U'),
        ("...-"@, 'V'),
        (".--"@, 'W'),
        ("-..-"@, 'X'),
        ("-.--"@, 'Y'),
        ("--.."@, 'Z'),
        (".----"@, '1'),
        ("..---"@, '2'),
        ("...--"@, '3'),
        ("....-"@, '4'),
        ("....."@, '5'),
        ("-...."@, '6'),
        ("--..."@, '7'),
        ("---.."@, '8'),
        ("----."@, '9'),
        ("-----"@, '0'),
    ]
}

/// What a table held as string slices says, entry by entry.
pub open spec fn entries_view(entries: Seq<(&'static str, char)>) -> Seq<(Seq<char>, char)> {
    entries.map_values(|e: (&'static str, char)| (e.0@, e.1))
}

/// What a character-keyed table held as string slices says, entry by entry.
pub open spec fn reversed_view(entries: Seq<(char, &'static str)>) -> Seq<(Seq<char>, char)> {
    entries.map_values(|e: (char, &'static str)| (e.1@, e.0))
}

/// The character of the first entry of `table` whose code is `code`.
pub open spec fn find_symbol(table: Seq<(Seq<char>, char)>, code: Seq<char>) -> Option<char>
    decreases table.len(),
{
    if table.len() == 0 {
        None
    } else if table[0].0 == code {
        Some(table[0].1)
    } else {
        find_symbol(table.drop_first(), code)
    }
}

/// The code of the first entry of `table` whose character is `c`.
pub open spec fn find_code(table: Seq<(Seq<char>, char)>, c: char) -> Option<Seq<char>>
    decreases table.len(),
{
    if table.len() == 0 {
        None
    } else if table[0].1 == c {
        Some(table[0].0)
    } else {
        find_code(table.drop_first(), c)
    }
}

/// The character that `code` stands for, if it is one of the thirty-six codes.
pub open spec fn symbol_of(code: Seq<char>) -> Option<char> {
    find_symbol(symbol_table(), code)
}

/// The lower-case ASCII letters folded to upper case; every other character
/// unchanged.
pub open spec fn fold_case(c: char) -> char {
    if 'a' <= c <= 'z' {
        ((c as u8) - 32) as char
    } else {
        c
    }
}

/// The Morse code of `c`, if `c` is a letter (in either case) or a digit.
pub open spec fn code_of(c: char) -> Option<Seq<char>> {
    find_code(symbol_table(), fold_case(c))
}

/// The Morse-to-character table: the entries of `symbol_table`, in its
/// order.
pub fn morse_mapping() -> (table: Vec<(&'static str, char)>)
    ensures
        entries_view(table@) == symbol_table(),
{
    let mut table: Vec<(&'static str, char)> = Vec::new();
    table.push((".-", 'A'));
    table.push(("-...", 'B'));
    table.push(("-.-.", 'C'));
    table.push(("-..", 'D'));
    table.push((".", 'E'));
    table.push(("..-.", 'F'));
    table.push(("--.", 'G'));
    table.push(("....", 'H'));
    table.push(("..", 'I'));
    table.push((".---", 'J'));
    table.push(("-.-", 'K'));
    table.push((".-..", 'L'));
    table.push(("--", 'M'));
    table.push(("-.", 'N'));
    table.push(("---", 'O'));
    table.push((".--.", 'P'));
    table.push(("--.-", 'Q'));
    table.push((".-.", 'R'));
    table.push(("...", 'S'));
    table.push(("-", 'T'));
    table.push(("..-", 'U'));
    table.push(("...-", 'V'));
    table.push((".--", 'W'));
    table.push(("-..-", 'X'));
    table.push(("-.--", 'Y'));
    table.push(("--..", 'Z'));
    table.push((".----", '1'));
    table.push(("..---", '2'));
    table.push(("...--", '3'));
    table.push(("....-", '4'));
    table.push((".....", '5'));
    table.push(("-....", '6'));
    table.push(("--...", '7'));
    table.push(("---..", '8'));
    table.push(("----.", '9'));
    table.push(("-----", '0'));
    table
}

/// The character-to-Morse table: the entries of `morse_mapping` in the same
/// order, each turned round.
pub fn latin_to_morse_mapping() -> (table: Vec<(char, &'static str)>)
    ensures
        reversed_view(table@) == symbol_table(),
{
    let forward = morse_mapping();
    let mut table: Vec<(char, &'static str)> = Vec::new();
    let mut i: usize = 0;
    while i < forward.len()
        invariant
            i <= forward.len(),
            table.len() == i,
            forall|k: int| 0 <= k < i ==> table@[k] == (forward@[k].1, forward@[k].0),
        decreases forward.len() - i,
    {
        let entry = forward[i];
        table.push((entry.1, entry.0));
        i += 1;
    }
    table
}

/// The code of the first entry of `mapping` whose character is `c`.
pub fn code_for(mapping: &Vec<(char, &'static str)>, c: char) -> (code: Option<&'static str>)
    ensures
        match code {
            Some(s) => find_code(reversed_view(mapping@), c) == Some(s@),
            None => find_code(reversed_view(mapping@), c) is None,
        },
{
    let ghost entries = reversed_view(mapping@);
    let mut i: usize = 0;
    assert(entries.skip(0) =~= entries);
    while i < mapping.len()
        invariant
            i <= mapping.len(),
            entries == reversed_view(mapping@),
            find_code(entries, c) == find_code(entries.skip(i as int), c),
        decreases mapping.len() - i,
    {
        let entry = mapping[i];
        proof {
            assert(entries.skip(i as int).drop_first() =~= entries.skip(i + 1));
        }
        if entry.0 == c {
            return Some(entry.1);
        }
        i += 1;
    }
    None
}

/// `c` with the lower-case ASCII letters folded to upper case.
pub fn to_upper_ascii(c: char) -> (upper: char)
    ensures
        upper == fold_case(c),
{
    if 'a' <= c && c <= 'z' {
        ((c as u8) - 32) as char
    } else {
        c
    }
}

/// The Morse code of `c`, or `None` where `c` is neither a letter nor a
/// digit. Letters are looked up without regard to their case.
pub fn encode_symbol(c: char) -> (code: Option<&'static str>)
    ensures
        match code {
            Some(s) => code_of(c) == Some(s@),
            None => code_of(c) is None,
        },
{
    let mapping = latin_to_morse_mapping();
    code_for(&mapping, to_upper_ascii(c))
}

/// Whether `c` is one of the two marks that codes are made of.
pub open spec fn is_mark(c: char) -> bool {
    c == '.' || c == '-'
}

/// Whether `c` is an upper-case ASCII letter or an ASCII digit.
pub open spec fn is_symbol(c: char) -> bool {
    ('A' <= c <= 'Z') || ('0' <= c <= '9')
}

/// A code read as a binary numeral behind a leading one, a dash counting as
/// one and any other character as zero. The codes of the table all have
/// different numbers, which tells them apart.
spec fn code_number(code: Seq<char>) -> nat
    decreases code.len(),
{
    if code.len() == 0 {
        1
    } else {
        2 * code_number(code.drop_last()) + if code.last() == '-' {
            1nat
        } else {
            0nat
        }
    }
}

/// The place in the symbol table of the code with the given number.
spec fn rank_of_number(key: nat) -> int {
    if key == 5 {
        0
    } else if key == 24 {
        1
    } else if key == 26 {
        2
    } else if key == 12 {
        3
    } else if key == 2 {
        4
    } else if key == 18 {
        5
    } else if key == 14 {
        6
    } else if key == 16 {
        7
    } else if key == 4 {
        8
    } else if key == 23 {
        9
    } else if key == 13 {
        10
    } else if key == 20 {
        11
    } else if key == 7 {
        12
    } else if key == 6 {
        13
    } else if key == 15 {
        14
    } else if key == 22 {
        15
    } else if key == 29 {
        16
    } else if key == 10 {
        17
    } else if key == 8 {
        18
    } else if key == 3 {
        19
    } else if key == 9 {
        20
    } else if key == 17 {
        21
    } else if key == 11 {
        22
    } else if key == 25 {
        23
    } else if key == 27 {
        24
    } else if key == 28 {
        25
    } else if key == 47 {
        26
    } else if key == 39 {
        27
    } else if key == 35 {
        28
    } else if key == 33 {
        29
    } else if key == 32 {
        30
    } else if key == 48 {
        31
    } else if key == 56 {
        32
    } else if key == 60 {
        33
    } else if key == 62 {
        34
    } else if key == 63 {
        35
    } else {
        -1
    }
}

/// The place in the symbol table of the given character.
spec fn rank_of_symbol(c: char) -> int {
    if 'A' <= c <= 'Z' {
        c as int - 'A' as int
    } else if '1' <= c <= '9' {
        26 + (c as int - '1' as int)
    } else if c == '0' {
        35
    } else {
        -1
    }
}

/// Each entry can be told from its code alone and from its character alone;
/// its code is one to five marks and its character a letter or a digit.
proof fn lemma_entry(i: int)
    requires
        0 <= i < 36,
    ensures
        rank_of_number(code_number(symbol_table()[i].0)) == i,
        rank_of_symbol(symbol_table()[i].1) == i,
        1 <= symbol_table()[i].0.len() <= 5,
        forall|k: int| 0 <= k < symbol_table()[i].0.len() ==> is_mark(symbol_table()[i].0[k]),
        is_symbol(symbol_table()[i].1),
{
    reveal_with_fuel(code_number, 6);
    if i == 0 {
        reveal_strlit(".-");
    } else if i == 1 {
        reveal_strlit("-...");
    } else if i == 2 {
        reveal_strlit("-.-.");
    } else if i == 3 {
        reveal_strlit("-..");
    } else if i == 4 {
        reveal_strlit(".");
    } else if i == 5 {
        reveal_strlit("..-.");
    } else if i == 6 {
        reveal_strlit("--.");
    } else if i == 7 {
        reveal_strlit("....");
    } else if i == 8 {
        reveal_strlit("..");
    } else if i == 9 {
        reveal_strlit(".---");
    } else if i == 10 {
        reveal_strlit("-.-");
    } else if i == 11 {
        reveal_strlit(".-..");
    } else if i == 12 {
        reveal_strlit("--");
    } else if i == 13 {
        reveal_strlit("-.");
    } else if i == 14 {
        reveal_strlit("---");
    } else if i == 15 {
        reveal_strlit(".--.");
    } else if i == 16 {
        reveal_strlit("--.-");
    } else if i == 17 {
        reveal_strlit(".-.");
    } else if i == 18 {
        reveal_strlit("...");
    } else if i == 19 {
        reveal_strlit("-");
    } else if i == 20 {
        reveal_strlit("..-");
    } else if i == 21 {
        reveal_strlit("...-");
    } else if i == 22 {
        reveal_strlit(".--");
    } else if i == 23 {
        reveal_strlit("-..-");
    } else if i == 24 {
        reveal_strlit("-.--");
    } else if i == 25 {
        reveal_strlit("--..");
    } else if i == 26 {
        reveal_strlit(".----");
    } else if i == 27 {
        reveal_strlit("..---");
    } else if i == 28 {
        reveal_strlit("...--");
    } else if i == 29 {
        reveal_strlit("....-");
    } else if i == 30 {
        reveal_strlit(".....");
    } else if i == 31 {
        reveal_strlit("-....");
    } else if i == 32 {
        reveal_strlit("--...");
    } else if i == 33 {
        reveal_strlit("---..");
    } else if i == 34 {
        reveal_strlit("----.");
    } else if i == 35 {
        reveal_strlit("-----");
    }
}

/// The symbol table is a bijection between thirty-six codes and thirty-six
/// characters: no code and no character occurs in two entries. Every code is
/// made of one to five dots and dashes, and every character is an upper-case
/// letter or a digit.
pub proof fn lemma_table_is_bijection()
    ensures
        symbol_table().len() == 36,
        forall|i: int, j: int|
            0 <= i < 36 && 0 <= j < 36 && i != j ==> #[trigger] symbol_table()[i].0
                != #[trigger] symbol_table()[j].0,
        forall|i: int, j: int|
            0 <= i < 36 && 0 <= j < 36 && i != j ==> #[trigger] symbol_table()[i].1
                != #[trigger] symbol_table()[j].1,
        forall|i: int|
            0 <= i < 36 ==> 1 <= (#[trigger] symbol_table()[i]).0.len() <= 5 && is_symbol(
                symbol_table()[i].1,
            ),
        forall|i: int, k: int|
            0 <= i < 36 && 0 <= k < symbol_table()[i].0.len() ==> is_mark(
                #[trigger] symbol_table()[i].0[k],
            ),
{
    assert forall|i: int, j: int| 0 <= i < 36 && 0 <= j < 36 && i != j implies #[trigger]
        symbol_table()[i].0 != #[trigger] symbol_table()[j].0 by {
        lemma_entry(i);
        lemma_entry(j);
    }
    assert forall|i: int| 0 <= i < 36 implies 1 <= (#[trigger] symbol_table()[i]).0.len() <= 5
        && is_symbol(symbol_table()[i].1) by {
        lemma_entry(i);
    }
    assert forall|i: int, k: int|
        0 <= i < 36 && 0 <= k < symbol_table()[i].0.len() implies is_mark(
        #[trigger] symbol_table()[i].0[k],
    ) by {
        lemma_entry(i);
    }
}

/// A lookup by code answers with an entry of the table, and with `None` only
/// where no entry has the code.
pub proof fn lemma_find_symbol_sound(table: Seq<(Seq<char>, char)>, code: Seq<char>)
    ensures
        match find_symbol(table, code) {
            Some(c) => table.contains((code, c)),
            None => forall|k: int| 0 <= k < table.len() ==> (#[trigger] table[k]).0 != code,
        },
    decreases table.len(),
{
    if table.len() > 0 && table[0].0 != code {
        let rest = table.drop_first();
        lemma_find_symbol_sound(rest, code);
        if find_symbol(rest, code) is None {
            assert forall|k: int| 0 <= k < table.len() implies (#[trigger] table[k]).0
                != code by {
                if k > 0 {
                    assert(rest[k - 1] == table[k]);
                }
            }
        }
    }
}

/// A lookup by character answers with an entry of the table, and with `None`
/// only where no entry has the character.
pub proof fn lemma_find_code_sound(table: Seq<(Seq<char>, char)>, c: char)
    ensures
        match find_code(table, c) {
            Some(code) => table.contains((code, c)),
            None => forall|k: int| 0 <= k < table.len() ==> (#[trigger] table[k]).1 != c,
        },
    decreases table.len(),
{
    if table.len() > 0 && table[0].1 != c {
        let rest = table.drop_first();
        lemma_find_code_sound(rest, c);
        if find_code(rest, c) is None {
            assert forall|k: int| 0 <= k < table.len() implies (#[trigger] table[k]).1 != c by {
                if k > 0 {
                    assert(rest[k - 1] == table[k]);
                }
            }
        }
    }
}

/// The two directions of the symbol table agree: a code stands for a
/// character exactly when that character's code is this code, and both hold
/// exactly of the pairs listed in the table.
pub proof fn lemma_round_trip(code: Seq<char>, c: char)
    ensures
        symbol_of(code) == Some(c) <==> symbol_table().contains((code, c)),
        find_code(symbol_table(), c) == Some(code) <==> symbol_table().contains((code, c)),
{
    lemma_table_is_bijection();
    lemma_find_symbol_sound(symbol_table(), code);
    lemma_find_code_sound(symbol_table(), c);
}

} // verus!
