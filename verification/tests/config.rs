use morse_trainer::config::{Config, DEFAULT_WORD_COUNT};
use morse_trainer::input::DEFAULT_THRESHOLD_MS;

#[test]
fn defaults_are_english_ten_words_and_150_ms() {
    let config = Config::from_choices(None, None, None);
    assert_eq!(config.language_code, "en");
    assert_eq!(config.word_count, 10);
    assert_eq!(config.threshold_ms, 150);
    assert_eq!(DEFAULT_WORD_COUNT, 10);
    assert_eq!(DEFAULT_THRESHOLD_MS, 150);
}

#[test]
fn choices_replace_the_defaults() {
    let config = Config::from_choices(Some("de".to_string()), Some(3), Some(200));
    assert_eq!(config.language_code, "de");
    assert_eq!(config.word_count, 3);
    assert_eq!(config.threshold_ms, 200);
}

#[test]
fn each_choice_is_taken_by_itself() {
    let config = Config::from_choices(None, Some(0), None);
    assert_eq!(config.language_code, "en");
    assert_eq!(config.word_count, 0);
    assert_eq!(config.threshold_ms, 150);
    let config = Config::from_choices(Some(String::new()), None, Some(0));
    assert_eq!(config.language_code, "");
    assert_eq!(config.word_count, 10);
    assert_eq!(config.threshold_ms, 0);
}
