use sentiment::analysis::scan;
use sentiment::analyze;
use sentiment::negativity;
use sentiment::positivity;
use sentiment::tokenize_with_no_punctuation;
use sentiment::Lexicon;

#[test]
fn tokenize_empty_yields_one_empty_token() {
    let tokens = tokenize_with_no_punctuation("");
    assert_eq!(tokens, vec!["".to_string()]);
}

#[test]
fn tokenize_keeps_digits_and_hyphens() {
    let tokens = tokenize_with_no_punctuation("Well-done 123 A1");
    assert_eq!(
        tokens,
        vec!["well-done".to_string(), "123".to_string(), "a1".to_string()]
    );
}

#[test]
fn tokenize_keeps_single_spaces_and_empty_pieces() {
    assert_eq!(
        tokenize_with_no_punctuation(" a"),
        vec!["".to_string(), "a".to_string()]
    );
    assert_eq!(
        tokenize_with_no_punctuation("a  b"),
        vec!["a".to_string(), "b".to_string()]
    );
    assert_eq!(
        tokenize_with_no_punctuation("a b"),
        vec!["a".to_string(), "b".to_string()]
    );
}

#[test]
fn tokenize_strips_non_ascii_letters() {
    let tokens = tokenize_with_no_punctuation("caf\u{e9}");
    assert_eq!(tokens, vec!["caf".to_string(), "".to_string()]);
}

#[test]
fn tokenize_output_has_only_word_characters() {
    let tokens = tokenize_with_no_punctuation("He said: \"WOW!!\"  (twice), no-more...");
    for t in &tokens {
        for c in t.chars() {
            assert!(c.is_ascii_lowercase() || c.is_ascii_digit() || c == '-');
        }
    }
}

#[test]
fn negativity_sums_absolute_weights() {
    let sentiment = negativity("this is bad, awful and bad".to_string());
    assert_eq!(sentiment.score, 9u128);
    assert_eq!(
        sentiment.words,
        vec!["bad".to_string(), "awful".to_string(), "bad".to_string()]
    );
    assert_eq!(sentiment.tokens, 6);
}

#[test]
fn polarity_word_lists_are_disjoint() {
    let text = "a good day, a bad day, a plain day".to_string();
    let pos = positivity(text.clone());
    let neg = negativity(text);
    for w in &pos.words {
        assert!(!neg.words.contains(w));
    }
    assert_eq!(pos.words, vec!["good".to_string()]);
    assert_eq!(neg.words, vec!["bad".to_string()]);
}

#[test]
fn analyze_score_decomposes() {
    let text = "the good, the bad and the ugly".to_string();
    let combined = analyze(text.clone());
    let pos = positivity(text.clone());
    let neg = negativity(text);
    assert_eq!(combined.score, pos.score as i128 - neg.score as i128);
    assert_eq!(combined.positive.score, pos.score);
    assert_eq!(combined.negative.score, neg.score);
    assert_eq!(combined.score, -3i128);
}

#[test]
fn analyze_is_deterministic() {
    let text = "What a wonderful, terrible world".to_string();
    let first = analyze(text.clone());
    let second = analyze(text);
    assert_eq!(first.score, second.score);
    assert_eq!(first.positive.score, second.positive.score);
    assert_eq!(first.positive.tokens, second.positive.tokens);
    assert_eq!(first.positive.words, second.positive.words);
    assert_eq!(first.negative.score, second.negative.score);
    assert_eq!(first.negative.tokens, second.negative.tokens);
    assert_eq!(first.negative.words, second.negative.words);
}

#[test]
fn analyze_empty_text() {
    let analysis = analyze("".to_string());
    assert_eq!(analysis.score, 0i128);
    assert_eq!(analysis.positive.tokens, 1);
    assert_eq!(analysis.positive.words, Vec::<String>::new());
}

#[test]
fn from_json_rejects_malformed_text() {
    assert!(Lexicon::from_json("not json at all").is_none());
    assert!(Lexicon::from_json("[1, 2, 3]").is_none());
    assert!(Lexicon::from_json("{\"a\": 1.5}").is_none());
    assert!(Lexicon::from_json("{\"a\": \"b\"}").is_none());
}

#[test]
fn from_json_parses_words_and_weights() {
    let lex = Lexicon::from_json("{\"like\": 2, \"hate\": -3}").unwrap();
    assert_eq!(lex.lookup(&"like".to_string()), Some(2));
    assert_eq!(lex.lookup(&"hate".to_string()), Some(-3));
    assert_eq!(lex.lookup(&"absent".to_string()), None);
}

#[test]
fn from_entries_later_entry_wins() {
    let lex = Lexicon::from_entries(vec![
        ("a".to_string(), 1),
        ("b".to_string(), -2),
        ("a".to_string(), 4),
    ]);
    assert_eq!(lex.lookup(&"a".to_string()), Some(4));
    assert_eq!(lex.lookup(&"b".to_string()), Some(-2));
}

#[test]
fn zero_weight_matches_neither_polarity() {
    let lex = Lexicon::from_entries(vec![("flat".to_string(), 0)]);
    let tokens = tokenize_with_no_punctuation("flat ground");
    let pos = scan(&lex, &tokens, false);
    let neg = scan(&lex, &tokens, true);
    assert_eq!(pos.score, 0u128);
    assert_eq!(neg.score, 0u128);
    assert_eq!(pos.words, Vec::<String>::new());
    assert_eq!(neg.words, Vec::<String>::new());
}

#[test]
fn scan_with_injected_lexicon() {
    let lex = Lexicon::from_entries(vec![
        ("up".to_string(), 5),
        ("down".to_string(), -4),
    ]);
    let tokens = tokenize_with_no_punctuation("Up, down; UP!");
    let pos = scan(&lex, &tokens, false);
    let neg = scan(&lex, &tokens, true);
    assert_eq!(pos.score, 10u128);
    assert_eq!(pos.words, vec!["up".to_string(), "up".to_string()]);
    assert_eq!(neg.score, 4u128);
    assert_eq!(neg.words, vec!["down".to_string()]);
    assert_eq!(pos.tokens, 4);
}

#[test]
fn bundled_lexicon_loads() {
    let lex = Lexicon::bundled().unwrap();
    assert_eq!(lex.lookup(&"like".to_string()), Some(2));
    assert_eq!(lex.lookup(&"jam".to_string()), None);
}
