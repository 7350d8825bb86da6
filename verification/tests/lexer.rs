use sqruff_lib_core::dialects::syntax::SyntaxKind;
use sqruff_lib_core::parser::lexer::Matcher;
use sqruff_lib_dialects::lexer::{block_comment, numeric_literal};

fn lexed_numeric(text: &str) -> Option<String> {
    let matcher = Matcher::native("numeric_literal", numeric_literal, SyntaxKind::NumericLiteral);
    let found = matcher.matches(text);
    if found.elements.is_empty() {
        None
    } else {
        Some(text[..text.len() - found.forward_string.len()].to_string())
    }
}

fn lexed_comment(text: &str) -> Option<String> {
    let matcher = Matcher::native("block_comment", block_comment, SyntaxKind::BlockComment);
    let found = matcher.matches(text);
    if found.elements.is_empty() {
        None
    } else {
        Some(text[..text.len() - found.forward_string.len()].to_string())
    }
}

#[test]
fn numeric_integer_before_space() {
    assert_eq!(lexed_numeric("123 abc"), Some("123".to_string()));
}

#[test]
fn numeric_integer_at_end_of_input() {
    assert_eq!(lexed_numeric("42"), Some("42".to_string()));
}

#[test]
fn numeric_decimal_with_exponent() {
    assert_eq!(lexed_numeric("1.5e10, x"), Some("1.5e10".to_string()));
    assert_eq!(lexed_numeric("2E-3)"), Some("2E-3".to_string()));
    assert_eq!(lexed_numeric("7e+12;"), Some("7e+12".to_string()));
}

#[test]
fn numeric_leading_dot() {
    assert_eq!(lexed_numeric(".5 "), Some(".5".to_string()));
    assert_eq!(lexed_numeric(".25e2"), Some(".25e2".to_string()));
}

#[test]
fn numeric_trailing_dot() {
    assert_eq!(lexed_numeric("1. "), Some("1.".to_string()));
    assert_eq!(lexed_numeric("1.e3"), Some("1.e3".to_string()));
}

#[test]
fn numeric_lone_dot_is_rejected() {
    assert_eq!(lexed_numeric("."), None);
    assert_eq!(lexed_numeric(".x"), None);
}

#[test]
fn numeric_exponent_needs_digits() {
    assert_eq!(lexed_numeric("1e"), None);
    assert_eq!(lexed_numeric("1e+"), None);
    assert_eq!(lexed_numeric("1ex"), None);
}

#[test]
fn numeric_followed_by_identifier_characters_is_rejected() {
    assert_eq!(lexed_numeric("12abc"), None);
    assert_eq!(lexed_numeric("1_000"), None);
    assert_eq!(lexed_numeric("1.2.3"), None);
}

#[test]
fn numeric_needs_a_digit_or_dot_first() {
    assert_eq!(lexed_numeric(""), None);
    assert_eq!(lexed_numeric("abc"), None);
    assert_eq!(lexed_numeric("-1"), None);
}

#[test]
fn numeric_followed_by_operator() {
    assert_eq!(lexed_numeric("3+4"), Some("3".to_string()));
    assert_eq!(lexed_numeric("3e2-4"), Some("3e2".to_string()));
}

#[test]
fn comment_simple() {
    assert_eq!(lexed_comment("/* a */ b"), Some("/* a */".to_string()));
}

#[test]
fn comment_smallest() {
    assert_eq!(lexed_comment("/**/x"), Some("/**/".to_string()));
}

#[test]
fn comment_nested() {
    assert_eq!(
        lexed_comment("/* a /* b */ c */ d */"),
        Some("/* a /* b */ c */".to_string())
    );
}

#[test]
fn comment_spanning_lines() {
    assert_eq!(
        lexed_comment("/* one\ntwo */\nselect"),
        Some("/* one\ntwo */".to_string())
    );
}

#[test]
fn comment_unterminated_is_rejected() {
    assert_eq!(lexed_comment("/* a"), None);
    assert_eq!(lexed_comment("/* a /* b */"), None);
    assert_eq!(lexed_comment("/*/"), None);
}

#[test]
fn comment_needs_opening() {
    assert_eq!(lexed_comment(""), None);
    assert_eq!(lexed_comment("/"), None);
    assert_eq!(lexed_comment("/ *"), None);
    assert_eq!(lexed_comment("-- x"), None);
}

#[test]
fn comment_stops_at_nul() {
    assert_eq!(lexed_comment("/* a \0 */"), None);
}

#[test]
fn numeric_depends_on_the_literal_and_its_follower_only() {
    for rest in [" ", ")", ",x", "+1", "\n", ""] {
        let text = format!("12.5E-3{rest}");
        assert_eq!(lexed_numeric(&text), Some("12.5E-3".to_string()));
    }
}

#[test]
fn comment_depends_on_its_own_text_only() {
    for rest in ["", "x", "*/", "/*", " select 1"] {
        let text = format!("/* a /* b */ */{rest}");
        assert_eq!(lexed_comment(&text), Some("/* a /* b */ */".to_string()));
    }
}
