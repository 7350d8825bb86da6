use sqruff_lib_dialects::keywords::keyword_lines;
use sqruff_lib_dialects::keywords::anti_template;
use sqruff_lib_dialects::text::same_text;

#[test]
fn anti_template_of_several_keywords() {
    assert_eq!(anti_template(&vec!["SELECT", "FROM", "WHERE"]), "^(SELECT|FROM|WHERE)$");
}

#[test]
fn anti_template_of_one_keyword() {
    assert_eq!(anti_template(&vec!["NOT"]), "^(NOT)$");
}

#[test]
fn anti_template_of_no_keywords() {
    assert_eq!(anti_template(&vec![]), "^()$");
}

#[test]
fn same_text_compares_characters() {
    assert!(same_text("equals", "equals"));
    assert!(!same_text("equals", "equal"));
    assert!(!same_text("comma", "commb"));
    assert!(same_text("", ""));
    assert!(same_text("é", "é"));
    assert!(!same_text("é", "e"));
}

#[test]
fn keyword_lines_follow_str_lines_and_trim() {
    assert_eq!(keyword_lines("A\r\n\u{a0}B\u{3000}\n\t\r\nC\r"), vec!["A", "B", "C"]);
    assert_eq!(keyword_lines(""), Vec::<&str>::new());
    assert_eq!(keyword_lines("\n\n"), Vec::<&str>::new());
}
