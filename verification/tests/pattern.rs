use brrr::markup::clean_html;
use brrr::pattern::{
    Patterns, ANSWER_PATTERN, CATEGORY_PATTERN, CLUE_PATTERN, DOUBLE_ANSWER_PATTERN,
    DOUBLE_CLUE_PATTERN, EMPHASIS_PATTERN, FINAL_ANSWER_PATTERN, FINAL_CLUE_PATTERN,
};
use regex::Regex;

fn library_patterns() -> [&'static str; 8] {
    [
        EMPHASIS_PATTERN,
        CATEGORY_PATTERN,
        CLUE_PATTERN,
        ANSWER_PATTERN,
        DOUBLE_CLUE_PATTERN,
        DOUBLE_ANSWER_PATTERN,
        FINAL_CLUE_PATTERN,
        FINAL_ANSWER_PATTERN,
    ]
}

fn assemble_from(texts: [&str; 8]) -> bool {
    Patterns::assemble(
        Regex::new(texts[0]),
        Regex::new(texts[1]),
        Regex::new(texts[2]),
        Regex::new(texts[3]),
        Regex::new(texts[4]),
        Regex::new(texts[5]),
        Regex::new(texts[6]),
        Regex::new(texts[7]),
    )
    .is_ok()
}

#[test]
fn every_library_pattern_compiles() {
    for pattern in library_patterns() {
        assert!(Regex::new(pattern).is_ok());
    }
    assert!(Patterns::new().is_ok());
}

#[test]
fn assemble_succeeds_when_every_expression_compiled() {
    assert!(assemble_from(library_patterns()));
}

#[test]
fn assemble_fails_when_any_expression_was_rejected() {
    for slot in 0..8 {
        let mut texts = library_patterns();
        texts[slot] = "(unclosed";
        assert!(Regex::new(texts[slot]).is_err());
        assert!(!assemble_from(texts));
    }
}

#[test]
fn assembled_set_holds_the_expressions_given() {
    let patterns = Patterns::assemble(
        Regex::new(EMPHASIS_PATTERN),
        Regex::new(CATEGORY_PATTERN),
        Regex::new(CLUE_PATTERN),
        Regex::new(ANSWER_PATTERN),
        Regex::new(DOUBLE_CLUE_PATTERN),
        Regex::new(DOUBLE_ANSWER_PATTERN),
        Regex::new(FINAL_CLUE_PATTERN),
        Regex::new(FINAL_ANSWER_PATTERN),
    )
    .expect("every expression compiled");
    assert_eq!(clean_html(&patterns, "<i>x</i> &amp; <b>y</b>"), "x & y");
    let found = patterns.find_categories("<td class=\"category_name\">ONE</td>");
    assert_eq!(found.len(), 1);
    assert_eq!(found[0][1].as_deref(), Some("ONE"));
    let clues = patterns.find_clues("<td id=\"clue_DJ_3_2\" class=\"clue_text\">c</td>", true);
    assert_eq!(clues.len(), 1);
    assert_eq!(clues[0][1].as_deref(), Some("3"));
    assert_eq!(clues[0][2].as_deref(), Some("2"));
    assert_eq!(clues[0][3].as_deref(), Some("c"));
    assert!(patterns
        .find_clues("<td id=\"clue_DJ_3_2\" class=\"clue_text\">c</td>", false)
        .is_empty());
}
