use morse_trainer::table::format_morse_table;

#[test]
fn the_table_has_its_nine_lines() {
    let table = format_morse_table();
    let expected = vec![
        "LETTERS:",
        "  A: .-        B: -...      C: -.-.      D: -..       E: .         F: ..-.      G: --.       H: ....    ",
        "  I: ..        J: .---      K: -.-       L: .-..      M: --        N: -.        O: ---       P: .--.    ",
        "  Q: --.-      R: .-.       S: ...       T: -         U: ..-       V: ...-      W: .--       X: -..-    ",
        "  Y: -.--      Z: --..    ",
        "",
        "NUMBERS:",
        "  1: .----     2: ..---     3: ...--     4: ....-     5: .....     6: -....     7: --...     8: ---..   ",
        "  9: ----.     0: -----   ",
    ];
    assert_eq!(table, expected);
}

#[test]
fn every_cell_is_thirteen_characters_wide() {
    let table = format_morse_table();
    for (i, line) in table.iter().enumerate() {
        if i == 0 || i == 5 || i == 6 {
            continue;
        }
        assert_eq!(line.chars().count() % 13, 0);
        assert!(line.chars().count() <= 8 * 13);
        assert!(line.starts_with("  "));
    }
}

#[test]
fn the_table_is_the_same_every_time() {
    assert_eq!(format_morse_table(), format_morse_table());
}
