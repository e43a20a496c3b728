use sentiment::analyze;
use sentiment::negativity;
use sentiment::positivity;
use sentiment::tokenize_with_no_punctuation;

#[test]
fn decode_affin() {
    let json = sentiment::afinn::AFINN_JSON;
    assert!(json.len() != 0usize);
}

#[test]
fn tokenize() {
    let tokens = tokenize_with_no_punctuation("staRt,./     {middle//////end");
    assert_eq!(
        tokens,
        vec!["start".to_string(), "middle".to_string(), "end".to_string()]
    );
}

#[test]
fn test_negativity() {
    let sentiment = negativity("I do not like jam tarts".to_string());
    assert_eq!(sentiment.score, 0u128);
    assert_eq!(sentiment.words, Vec::<String>::new());
}

#[test]
fn test_positivity() {
    let sentiment = positivity("I do not like jam tarts".to_string());
    assert_eq!(sentiment.score, 2u128);
    assert_eq!(sentiment.words, vec!["like"]);
}

#[test]
fn test_analyze() {
    let analysis = analyze("I do not like jam tarts".to_string());
    assert_eq!(analysis.score, 2i128);
}
