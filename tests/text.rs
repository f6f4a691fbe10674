use osa_nif::pattern::Pattern;
use osa_nif::text::{
    has_question_mark, is_whitespace_char, weight_from_signals, word_count, ScorerError,
    TextScorer, NOISE_PATTERN, URGENCY_PATTERN,
};

fn weight(text: &str) -> u32 {
    TextScorer::new().expect("fixed patterns compile").weight_millis(text)
}

#[test]
fn word_count_empty_and_blank() {
    assert_eq!(word_count(""), 0);
    assert_eq!(word_count("   "), 0);
    assert_eq!(word_count("a b  c"), 3);
}

#[test]
fn word_count_mixed_whitespace() {
    assert_eq!(word_count("\tone\ntwo\r\n  three  "), 3);
    assert_eq!(word_count("word"), 1);
    assert_eq!(word_count("\u{3000}wide\u{00A0}space\u{2028}line"), 3);
    assert_eq!(word_count("\u{200B}"), 1);
}

#[test]
fn word_count_agrees_with_split_whitespace() {
    let samples = ["", " x ", "a\u{85}b", "héllo wörld  ", "\u{1680}\u{205F}z", "日本 語"];
    for s in samples {
        assert_eq!(word_count(s), s.split_whitespace().count());
    }
}

#[test]
fn whitespace_agrees_with_std_for_every_char() {
    for u in 0u32..=0x10FFFF {
        if let Some(c) = char::from_u32(u) {
            assert_eq!(is_whitespace_char(c), c.is_whitespace(), "U+{:04X}", u);
        }
    }
}

#[test]
fn question_mark_detection() {
    assert!(has_question_mark("why?"));
    assert!(!has_question_mark("why"));
    assert!(!has_question_mark(""));
}

#[test]
fn signals_formula() {
    assert_eq!(weight_from_signals(0, false, false, false), 500);
    assert_eq!(weight_from_signals(15, true, true, false), 880);
    assert_eq!(weight_from_signals(10, false, false, true), 220);
    assert_eq!(weight_from_signals(99, false, false, false), 698);
    assert_eq!(weight_from_signals(100, false, false, false), 700);
    assert_eq!(weight_from_signals(usize::MAX, false, false, false), 700);
    assert_eq!(weight_from_signals(100, true, true, false), 1000);
    assert_eq!(weight_from_signals(0, false, false, true), 200);
}

#[test]
fn weight_of_empty_text() {
    assert_eq!(weight(""), 500);
}

#[test]
fn weight_of_long_text_saturates() {
    let long = "a".repeat(100_000);
    assert_eq!(weight(&long), 700);
    assert_eq!(weight(&"b".repeat(100)), 700);
}

#[test]
fn weight_stays_in_unit_range() {
    let samples = ["", "?", "urgent asap now? hello", "hi", "??????????", "ok ok ok ok"];
    for s in samples {
        let w = weight(s);
        assert!(w <= 1000);
        let f = w as f64 / 1000.0;
        assert!((0.0..=1.0).contains(&f));
    }
}

#[test]
fn weight_counts_characters_not_bytes() {
    // five characters, fifteen bytes
    assert_eq!(weight("日本語日本"), 510);
}

#[test]
fn weight_question_and_urgency() {
    // 15 characters: length bonus 30, question 150, urgency 200
    assert_eq!(weight("Is this urgent?"), 880);
}

#[test]
fn weight_noise_penalty_applied_once() {
    // 10 characters: length bonus 20, one penalty for two small-talk words
    assert_eq!(weight("hey thanks"), 220);
    assert_eq!(weight("hey"), 206);
}

#[test]
fn weight_urgency_and_noise_both_apply() {
    // 9 characters: length bonus 18, urgency 200, noise -300
    assert_eq!(weight("hi urgent"), 418);
}

#[test]
fn whole_words_only() {
    // 8 characters, no small-talk word
    assert_eq!(weight("shellout"), 516);
    assert_eq!(weight("nowhere"), 514);
    assert_eq!(weight("hello, shellout"), 230);
}

#[test]
fn urgency_ignores_case() {
    let lower = weight("urgent");
    assert_eq!(lower, 712);
    assert_eq!(weight("URGENT"), lower);
    assert_eq!(weight("Urgent"), lower);
}

#[test]
fn fixed_patterns_on_their_own() {
    assert!(Pattern::new(URGENCY_PATTERN).is_some());
    assert!(Pattern::new(NOISE_PATTERN).is_some());
    // 9 characters: length bonus 18, urgency 200
    assert_eq!(weight("do it NOW"), 718);
    // 11 characters: length bonus 22, noise -300
    assert_eq!(weight("Hello there"), 222);
}

#[test]
fn fixed_patterns_compile() {
    let scorer: Result<TextScorer, ScorerError> = TextScorer::new();
    assert!(scorer.is_ok());
}

#[test]
fn invalid_pattern_is_refused() {
    assert!(Pattern::new("(unclosed").is_none());
}
