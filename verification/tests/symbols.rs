use morse_trainer::symbols::{code_for, encode_symbol, latin_to_morse_mapping, to_upper_ascii};

#[test]
fn encode_symbol_gives_the_code_of_letters_and_digits() {
    assert_eq!(encode_symbol('A'), Some(".-"));
    assert_eq!(encode_symbol('Z'), Some("--.."));
    assert_eq!(encode_symbol('0'), Some("-----"));
    assert_eq!(encode_symbol('5'), Some("....."));
}

#[test]
fn encode_symbol_ignores_the_case_of_letters() {
    assert_eq!(encode_symbol('a'), Some(".-"));
    assert_eq!(encode_symbol('q'), encode_symbol('Q'));
    assert_eq!(encode_symbol('z'), Some("--.."));
}

#[test]
fn encode_symbol_knows_nothing_else() {
    assert_eq!(encode_symbol(' '), None);
    assert_eq!(encode_symbol('/'), None);
    assert_eq!(encode_symbol('.'), None);
    assert_eq!(encode_symbol('\u{FFFD}'), None);
    assert_eq!(encode_symbol('É'), None);
}

#[test]
fn to_upper_ascii_folds_ascii_letters_only() {
    assert_eq!(to_upper_ascii('a'), 'A');
    assert_eq!(to_upper_ascii('z'), 'Z');
    assert_eq!(to_upper_ascii('M'), 'M');
    assert_eq!(to_upper_ascii('7'), '7');
    assert_eq!(to_upper_ascii('é'), 'é');
    assert_eq!(to_upper_ascii('`'), '`');
    assert_eq!(to_upper_ascii('{'), '{');
}

#[test]
fn code_for_looks_up_exactly() {
    let mapping = latin_to_morse_mapping();
    assert_eq!(code_for(&mapping, 'S'), Some("..."));
    assert_eq!(code_for(&mapping, 's'), None);
    assert_eq!(code_for(&Vec::new(), 'S'), None);
}

#[test]
fn encoding_and_decoding_are_inverse() {
    for c in "ABCDEFGHIJKLMNOPQRSTUVWXYZ0123456789".chars() {
        let code = encode_symbol(c).unwrap();
        assert_eq!(morse_trainer::decoder::decode_symbol(code), Some(c));
    }
}
