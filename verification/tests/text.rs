use morse_trainer::text::{chars_of, same_text, spells, string_of};

#[test]
fn chars_of_lists_the_characters() {
    assert_eq!(chars_of(".-/ "), vec!['.', '-', '/', ' ']);
    assert_eq!(chars_of(""), Vec::<char>::new());
    assert_eq!(chars_of("é\u{FFFD}"), vec!['é', '\u{FFFD}']);
}

#[test]
fn string_of_puts_the_characters_together() {
    assert_eq!(string_of(&vec!['A', ' ', 'B']), "A B");
    assert_eq!(string_of(&Vec::new()), "");
    assert_eq!(string_of(&chars_of("-.-. é")), "-.-. é");
}

#[test]
fn spells_compares_character_by_character() {
    assert!(spells(".-", &vec!['.', '-']));
    assert!(spells("", &Vec::new()));
    assert!(!spells(".-", &vec!['.']));
    assert!(!spells(".", &vec!['.', '-']));
    assert!(!spells(".-", &vec!['-', '.']));
    assert!(spells("é", &vec!['é']));
}

#[test]
fn same_text_is_equality() {
    assert!(same_text("en", "en"));
    assert!(same_text("", ""));
    assert!(!same_text("en", "de"));
    assert!(!same_text("en", "eng"));
    assert!(!same_text("eng", "en"));
}
