//! The relevance heuristic and the token estimate, on exact values.

use assistant_core::context::{detect_language, estimate_tokens};
use assistant_core::relevance::calculate_relevance;

#[test]
fn relevance_counts_phrase_word_and_identifier() {
    // Phrase match (1.0) + one word match (0.1) + one defined identifier
    // contained in the query (0.5) = 1.6, divided by ten: 0.16.
    assert_eq!(calculate_relevance("fn main", "main"), 160);
}

#[test]
fn relevance_lowercases_both_sides() {
    // The identifier pattern works on the raw text, so "FN MAIN" defines
    // nothing; the phrase and word matches see lowercased text.
    assert_eq!(calculate_relevance("FN MAIN", "main"), 110);
}

#[test]
fn relevance_is_zero_without_any_match() {
    assert_eq!(calculate_relevance("alpha beta", "gamma"), 0);
}

#[test]
fn relevance_clamps_at_one() {
    let content = "hit ".repeat(200);
    assert_eq!(calculate_relevance(&content, "hit"), 1000);
}

#[test]
fn relevance_identifier_keywords() {
    // "class Widget" defines "widget" (lowercased), contained in the query:
    // one word match (0.1) plus the identifier bonus (0.5).
    assert_eq!(calculate_relevance("class Widget", "widget factory"), 60);
    // Keyword without the query containing the identifier: word match only.
    assert_eq!(calculate_relevance("struct Other", "widget"), 0);
}

#[test]
fn relevance_stays_within_unit_range() {
    for (c, q) in [
        ("", ""),
        ("fn a fn b fn c", "a b c fn"),
        ("x", "x x x x x x x x x x x x"),
    ] {
        let r = calculate_relevance(c, q);
        assert!(r <= 1000);
    }
}

#[test]
fn empty_query_matches_everywhere() {
    // An empty string is a substring of any content: the phrase match fires.
    assert_eq!(calculate_relevance("anything", ""), 100);
}

#[test]
fn token_estimate_rounds_up_quarters() {
    assert_eq!(estimate_tokens(""), 0);
    assert_eq!(estimate_tokens("abcd"), 1);
    assert_eq!(estimate_tokens("abcde"), 2);
    assert_eq!(estimate_tokens("12345678"), 2);
}

#[test]
fn token_estimate_counts_utf8_bytes() {
    // Four two-byte characters: eight bytes, two tokens.
    assert_eq!(estimate_tokens("\u{e9}\u{e9}\u{e9}\u{e9}"), 2);
}

#[test]
fn language_detection_by_extension() {
    assert_eq!(detect_language(&Some("src/main.rs".to_string())).as_deref(), Some("rust"));
    assert_eq!(detect_language(&Some("a.py".to_string())).as_deref(), Some("python"));
    assert_eq!(detect_language(&Some("a.tsx".to_string())).as_deref(), Some("typescript"));
    assert_eq!(detect_language(&Some("a.yml".to_string())).as_deref(), Some("yaml"));
    assert_eq!(detect_language(&Some("a.weird".to_string())).as_deref(), Some("text"));
    assert_eq!(detect_language(&Some("noextension".to_string())), None);
    assert_eq!(detect_language(&None), None);
    // Only the final path component decides: a dotted directory lends an
    // extensionless or hidden file no extension.
    assert_eq!(detect_language(&Some("a/b/c.rs".to_string())).as_deref(), Some("rust"));
    assert_eq!(detect_language(&Some("src.d/main".to_string())), None);
    assert_eq!(detect_language(&Some("dir/.gitignore".to_string())), None);
}
