use minipl::subscanners::{CommentScanner, CommentState, IntScanner, StringScanner, WordScanner};
use minipl::token::{Keyword, Token};

#[test]
fn word_scanner_collects_a_word() {
    let mut scanner = WordScanner::new();
    for c in "for_2".chars() {
        assert!(!scanner.consume(c));
    }
    assert!(scanner.consume(' '));
    assert!(scanner.consume(';'));
    assert_eq!(scanner.into_token(), Token::Identifier("for_2".to_string()));
    let mut scanner = WordScanner::new();
    for c in "for".chars() {
        assert!(!scanner.consume(c));
    }
    assert!(scanner.consume('('));
    assert_eq!(scanner.into_token(), Token::Reserved(Keyword::For));
}

#[test]
fn int_scanner_collects_digits() {
    let mut scanner = IntScanner::new();
    assert!(!scanner.is_literal());
    for c in "0123".chars() {
        assert!(!scanner.consume(c));
    }
    assert!(scanner.consume('a'));
    assert!(scanner.consume('.'));
    assert!(scanner.is_literal());
    assert_eq!(scanner.into_token(), Token::Int(123));
    let mut scanner = IntScanner::new();
    for c in "2147483648".chars() {
        assert!(!scanner.consume(c));
    }
    assert!(!scanner.is_literal());
}

#[test]
fn string_scanner_resolves_escapes() {
    let mut scanner = StringScanner::new();
    for c in "a \\\" b\\\\\\n\\q".chars() {
        assert!(!scanner.consume(c));
    }
    assert!(scanner.consume('"'));
    assert_eq!(scanner.into_token(), Token::String("a \" b\\\n\\q".to_string()));
}

#[test]
fn string_scanner_starts_empty() {
    let mut scanner = StringScanner::new();
    assert!(scanner.consume('"'));
    assert_eq!(scanner.into_token(), Token::String(String::new()));
}

#[test]
fn line_comment_ends_with_the_line() {
    let mut scanner = CommentScanner { state: CommentState::Line };
    for c in "a */ b".chars() {
        assert!(!scanner.consume(c));
    }
    assert!(scanner.consume('\n'));
    assert_eq!(scanner.state, CommentState::Line);
}

#[test]
fn block_comment_ends_with_star_slash() {
    let mut scanner = CommentScanner { state: CommentState::Multiline };
    for c in "a\n/ * /".chars() {
        assert!(!scanner.consume(c));
    }
    assert_eq!(scanner.state, CommentState::Multiline);
    assert!(!scanner.consume('*'));
    assert_eq!(scanner.state, CommentState::MultilineEnding);
    assert!(scanner.consume('/'));
}

#[test]
fn second_star_leads_back_into_the_comment() {
    let mut scanner = CommentScanner { state: CommentState::Multiline };
    assert!(!scanner.consume('*'));
    assert!(!scanner.consume('*'));
    assert_eq!(scanner.state, CommentState::Multiline);
    assert!(!scanner.consume('/'));
}
