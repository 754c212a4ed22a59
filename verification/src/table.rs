//! The reference table shown beside the exercise: every letter and digit
//! with its Morse code, eight to a line.

use vstd::prelude::*;
use crate::symbols::{code_for, find_code, latin_to_morse_mapping, reversed_view, symbol_table};
use crate::text::{chars_of, string_of, string_views};

verus! {

/// The number of symbols on one line of the table.
pub const CELLS_PER_ROW: usize = 8;

/// The width to which a code is filled up with spaces.
pub const CODE_WIDTH: usize = 8;

/// `s`, followed by as many spaces as it takes to make it `width` characters
/// long. A longer `s` is left as it is.
pub open spec fn pad_right(s: Seq<char>, width: nat) -> Seq<char> {
    if s.len() >= width {
        s
    } else {
        s + Seq::new((width - s.len()) as nat, |i: int| ' ')
    }
}

/// One cell of the table: two spaces, the character, a colon, a space, and
/// the code filled up to eight characters.
pub open spec fn table_cell(c: char, code: Seq<char>) -> Seq<char> {
    seq![' ', ' ', c, ':', ' '] + pad_right(code, CODE_WIDTH as nat)
}

/// The cell of `c`, or nothing where `c` has no code.
pub open spec fn cell_of(c: char) -> Seq<char> {
    match find_code(symbol_table(), c) {
        Some(code) => table_cell(c, code),
        None => Seq::<char>::empty(),
    }
}

/// The cells of `symbols`, one after the other.
pub open spec fn cells_of(symbols: Seq<char>) -> Seq<char>
    decreases symbols.len(),
{
    if symbols.len() == 0 {
        Seq::<char>::empty()
    } else {
        cells_of(symbols.drop_last()) + cell_of(symbols.last())
    }
}

/// The number of lines that `count` symbols take.
pub open spec fn row_count(count: nat) -> nat {
    ((count + CELLS_PER_ROW as int - 1) / (CELLS_PER_ROW as int)) as nat
}

/// Where line `row` ends among `count` symbols.
pub open spec fn row_end(count: nat, row: int) -> int {
    if (row + 1) * CELLS_PER_ROW as int <= count {
        (row + 1) * CELLS_PER_ROW as int
    } else {
        count as int
    }
}

/// The lines for `symbols`: eight cells each, and what is left on the last.
pub open spec fn table_rows(symbols: Seq<char>) -> Seq<Seq<char>> {
    Seq::new(
        row_count(symbols.len()),
        |row: int|
            cells_of(symbols.subrange(row * CELLS_PER_ROW as int, row_end(symbols.len(), row))),
    )
}

/// The whole table: a heading and the lines of the letters, an empty line,
/// a heading and the lines of the digits.
pub open spec fn morse_table_lines() -> Seq<Seq<char>> {
    seq!["LETTERS:"@] + table_rows("ABCDEFGHIJKLMNOPQRSTUVWXYZ"@) + seq![""@, "NUMBERS:"@]
        + table_rows("1234567890"@)
}

/// Appends the cell of `c` to `row`.
fn push_cell(row: &mut Vec<char>, mapping: &Vec<(char, &'static str)>, c: char)
    requires
        reversed_view(mapping@) == symbol_table(),
    ensures
        final(row)@ == old(row)@ + cell_of(c),
{
    match code_for(mapping, c) {
        Some(code) => {
            row.push(' ');
            row.push(' ');
            row.push(c);
            row.push(':');
            row.push(' ');
            let symbols = chars_of(code);
            let ghost head = row@;
            let mut k: usize = 0;
            while k < symbols.len()
                invariant
                    k <= symbols.len(),
                    row@ == head + symbols@.take(k as int),
                decreases symbols.len() - k,
            {
                row.push(symbols[k]);
                k += 1;
            }
            let mut width: usize = symbols.len();
            while width < CODE_WIDTH
                invariant
                    symbols.len() <= width,
                    width <= CODE_WIDTH || width == symbols.len(),
                    row@ == head + symbols@ + Seq::new(
                        (width - symbols.len()) as nat,
                        |i: int| ' ',
                    ),
                decreases CODE_WIDTH - width,
            {
                row.push(' ');
                width += 1;
            }
        },
        None => {},
    }
}

/// The lines of the table for the characters of `symbols`.
fn format_rows(mapping: &Vec<(char, &'static str)>, symbols: &str) -> (rows: Vec<String>)
    requires
        reversed_view(mapping@) == symbol_table(),
    ensures
        string_views(rows@) == table_rows(symbols@),
{
    let chars = chars_of(symbols);
    let count = chars.len();
    let mut rows: Vec<String> = Vec::new();
    let mut start: usize = 0;
    while start < count
        invariant
            count == chars.len(),
            reversed_view(mapping@) == symbol_table(),
            start <= count,
            start % CELLS_PER_ROW == 0 || start == count,
            rows.len() == row_count(start as nat),
            forall|r: int|
                0 <= r < rows.len() ==> (#[trigger] rows@[r])@ == cells_of(
                    chars@.subrange(r * CELLS_PER_ROW as int, row_end(count as nat, r)),
                ),
        decreases count - start,
    {
        let end = if count - start >= CELLS_PER_ROW {
            start + CELLS_PER_ROW
        } else {
            count
        };
        let mut row: Vec<char> = Vec::new();
        let mut k: usize = start;
        while k < end
            invariant
                start <= k <= end <= count,
                count == chars.len(),
                reversed_view(mapping@) == symbol_table(),
                row@ == cells_of(chars@.subrange(start as int, k as int)),
            decreases end - k,
        {
            proof {
                assert(chars@.subrange(start as int, k + 1).drop_last() =~= chars@.subrange(
                    start as int,
                    k as int,
                ));
            }
            push_cell(&mut row, mapping, chars[k]);
            k += 1;
        }
        rows.push(string_of(&row));
        start = end;
    }
    rows
}

/// The reference table, line by line: `LETTERS:`, the letters `A` to `Z`
/// with their codes, an empty line, `NUMBERS:`, and the digits `1` to `9`
/// and `0` with their codes.
pub fn format_morse_table() -> (table: Vec<String>)
    ensures
        string_views(table@) == morse_table_lines(),
{
    let mapping = latin_to_morse_mapping();
    let mut table: Vec<String> = Vec::new();
    table.push(string_of(&chars_of("LETTERS:")));
    let mut letter_lines = format_rows(&mapping, "ABCDEFGHIJKLMNOPQRSTUVWXYZ");
    table.append(&mut letter_lines);
    table.push(String::new());
    table.push(string_of(&chars_of("NUMBERS:")));
    let mut number_lines = format_rows(&mapping, "1234567890");
    table.append(&mut number_lines);
    proof {
        reveal_strlit("");
        assert(""@ =~= Seq::<char>::empty());
    }
    table
}

} // verus!
