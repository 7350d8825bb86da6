use sqruff_lib_core::dialects::Dialect;
use sqruff_lib_core::dialects::syntax::SyntaxKind;
use sqruff_lib_core::parser::lexer::{Matcher, Pattern};
use sqruff_lib_core::parser::segments::Tables;
use sqruff_lib_dialects::ansi::lexer_matchers;
use sqruff_lib_dialects::dialect_lexers::{
    athena_lexer_matchers, bigquery_lexer_matchers, clickhouse_lexer_matchers, db2_lexer_matchers,
};
use sqruff_lib_dialects::lexer::{block_comment, numeric_literal};
use sqruff_lib_dialects::lexer_rules::{
    insert_lexer_rules, patch_lexer_rules, LexPattern, LexRule, Recogniser, Scanner, StartTest, TokenKind,
};

fn syntax_kind(kind: TokenKind) -> SyntaxKind {
    match kind {
        TokenKind::Whitespace => SyntaxKind::Whitespace,
        TokenKind::InlineComment => SyntaxKind::InlineComment,
        TokenKind::BlockComment => SyntaxKind::BlockComment,
        TokenKind::Newline => SyntaxKind::Newline,
        TokenKind::SingleQuote => SyntaxKind::SingleQuote,
        TokenKind::DoubleQuote => SyntaxKind::DoubleQuote,
        TokenKind::BackQuote => SyntaxKind::BackQuote,
        TokenKind::DollarQuote => SyntaxKind::DollarQuote,
        TokenKind::NumericLiteral => SyntaxKind::NumericLiteral,
        TokenKind::LikeOperator => SyntaxKind::LikeOperator,
        TokenKind::CastingOperator => SyntaxKind::CastingOperator,
        TokenKind::RawComparisonOperator => SyntaxKind::RawComparisonOperator,
        TokenKind::Dot => SyntaxKind::Dot,
        TokenKind::Comma => SyntaxKind::Comma,
        TokenKind::Plus => SyntaxKind::Plus,
        TokenKind::Minus => SyntaxKind::Minus,
        TokenKind::Divide => SyntaxKind::Divide,
        TokenKind::Percent => SyntaxKind::Percent,
        TokenKind::Question => SyntaxKind::Question,
        TokenKind::Ampersand => SyntaxKind::Ampersand,
        TokenKind::VerticalBar => SyntaxKind::VerticalBar,
        TokenKind::Caret => SyntaxKind::Caret,
        TokenKind::Star => SyntaxKind::Star,
        TokenKind::StartBracket => SyntaxKind::StartBracket,
        TokenKind::EndBracket => SyntaxKind::EndBracket,
        TokenKind::StartSquareBracket => SyntaxKind::StartSquareBracket,
        TokenKind::EndSquareBracket => SyntaxKind::EndSquareBracket,
        TokenKind::StartCurlyBracket => SyntaxKind::StartCurlyBracket,
        TokenKind::EndCurlyBracket => SyntaxKind::EndCurlyBracket,
        TokenKind::Colon => SyntaxKind::Colon,
        TokenKind::Semicolon => SyntaxKind::Semicolon,
        TokenKind::Word => SyntaxKind::Word,
        TokenKind::RightArrow => SyntaxKind::RightArrow,
        TokenKind::QuestionMark => SyntaxKind::QuestionMark,
        TokenKind::AtSignLiteral => SyntaxKind::AtSignLiteral,
        TokenKind::Lambda => SyntaxKind::Lambda,
    }
}

fn start_test(test: StartTest) -> fn(&str) -> bool {
    match test {
        StartTest::Anything => |_| true,
        StartTest::DollarSign => |s| s.starts_with("$"),
        StartTest::QuoteOrStringPrefix => |s| s.starts_with(['\'', 'R', 'r', 'B', 'b'].as_ref()),
        StartTest::DoubleQuoteOrStringPrefix => |s| s.starts_with(['"', 'R', 'r', 'B', 'b']),
    }
}

fn pattern(p: &LexPattern) -> Pattern {
    match p.recogniser {
        Recogniser::Literal(t) => Pattern::string(p.name, t, syntax_kind(p.token)),
        Recogniser::Regex(r) => Pattern::regex(p.name, r, syntax_kind(p.token)),
        Recogniser::Native(Scanner::NumericLiteral) => Pattern::native(p.name, numeric_literal, syntax_kind(p.token)),
        Recogniser::Native(Scanner::BlockComment) => Pattern::native(p.name, block_comment, syntax_kind(p.token)),
        Recogniser::Legacy(test, r) => Pattern::legacy(p.name, start_test(test), r, syntax_kind(p.token)),
    }
}

fn matcher(rule: &LexRule) -> Matcher {
    let mut m = Matcher::new(pattern(&rule.pattern));
    if let Some(sub) = &rule.subdivider {
        m = m.subdivider(pattern(sub));
    }
    if let Some(trim) = &rule.trimmer {
        m = m.post_subdivide(pattern(trim));
    }
    m
}

fn names(rules: &[LexRule]) -> Vec<&'static str> {
    rules.iter().map(|r| r.pattern.name).collect()
}

fn sqruff_names(dialect: &Dialect) -> Vec<&'static str> {
    dialect.lexer_matchers().iter().map(|m| m.name()).collect()
}

fn lex(rules: &[LexRule], text: &str) -> Vec<(String, SyntaxKind)> {
    let mut d = Dialect::new();
    d.set_lexer_matchers(rules.iter().map(matcher).collect());
    d.expand();
    let (segments, errors) = d.lexer().lex(&Tables::default(), text);
    assert!(errors.is_empty());
    segments
        .iter()
        .filter(|s| s.get_type() != SyntaxKind::EndOfFile)
        .map(|s| (s.raw().to_string(), s.get_type()))
        .collect()
}

fn ansi_dialect() -> Dialect {
    let mut d = Dialect::new();
    d.set_lexer_matchers(lexer_matchers().iter().map(matcher).collect());
    d
}

const ANSI_NAMES: [&str; 35] = [
    "whitespace",
    "inline_comment",
    "block_comment",
    "single_quote",
    "double_quote",
    "back_quote",
    "dollar_quote",
    "numeric_literal",
    "like_operator",
    "newline",
    "casting_operator",
    "equals",
    "greater_than",
    "less_than",
    "not",
    "dot",
    "comma",
    "plus",
    "minus",
    "divide",
    "percent",
    "question",
    "ampersand",
    "vertical_bar",
    "caret",
    "star",
    "start_bracket",
    "end_bracket",
    "start_square_bracket",
    "end_square_bracket",
    "start_curly_bracket",
    "end_curly_bracket",
    "colon",
    "semicolon",
    "word",
];

#[test]
fn ansi_rules_in_order() {
    assert_eq!(names(&lexer_matchers()), ANSI_NAMES.to_vec());
}

#[test]
fn ansi_rules_build_in_sqruff() {
    let d = ansi_dialect();
    assert_eq!(sqruff_names(&d), ANSI_NAMES.to_vec());
}

#[test]
fn ansi_block_comment_is_subdivided() {
    let rules = lexer_matchers();
    let rule = &rules[2];
    assert_eq!(rule.pattern.name, "block_comment");
    assert_eq!(rule.subdivider.map(|p| p.name), Some("newline"));
    assert_eq!(rule.trimmer.map(|p| p.name), Some("whitespace"));
    let m = matcher(rule);
    let found = m.matches("/* a\n b */ rest");
    assert_eq!(found.forward_string, " rest");
    assert_eq!(found.elements.len(), 4);
}

#[test]
fn ansi_rules_lex_a_statement() {
    let tokens = lex(&lexer_matchers(), "select a.b, 1.5e3 /* c */ from t;");
    assert_eq!(
        tokens,
        vec![
            ("select".to_string(), SyntaxKind::Word),
            (" ".to_string(), SyntaxKind::Whitespace),
            ("a".to_string(), SyntaxKind::Word),
            (".".to_string(), SyntaxKind::Dot),
            ("b".to_string(), SyntaxKind::Word),
            (",".to_string(), SyntaxKind::Comma),
            (" ".to_string(), SyntaxKind::Whitespace),
            ("1.5e3".to_string(), SyntaxKind::NumericLiteral),
            (" ".to_string(), SyntaxKind::Whitespace),
            ("/* c */".to_string(), SyntaxKind::BlockComment),
            (" ".to_string(), SyntaxKind::Whitespace),
            ("from".to_string(), SyntaxKind::Word),
            (" ".to_string(), SyntaxKind::Whitespace),
            ("t".to_string(), SyntaxKind::Word),
            (";".to_string(), SyntaxKind::Semicolon),
        ]
    );
}

#[test]
fn ansi_rules_lex_operators_and_quotes() {
    let tokens = lex(&lexer_matchers(), "x::int = 'a''b' -- note");
    let kinds: Vec<SyntaxKind> = tokens.iter().map(|t| t.1).collect();
    assert_eq!(
        kinds,
        vec![
            SyntaxKind::Word,
            SyntaxKind::CastingOperator,
            SyntaxKind::Word,
            SyntaxKind::Whitespace,
            SyntaxKind::RawComparisonOperator,
            SyntaxKind::Whitespace,
            SyntaxKind::SingleQuote,
            SyntaxKind::Whitespace,
            SyntaxKind::InlineComment,
        ]
    );
}

#[test]
fn insert_rules_matches_sqruff() {
    let mut rules = lexer_matchers();
    let added = vec![
        LexRule::literal("right_arrow", "=>", TokenKind::RightArrow),
        LexRule::literal("lambda", "->", TokenKind::Lambda),
    ];
    insert_lexer_rules(&mut rules, added.clone(), "comma");
    let mut d = ansi_dialect();
    d.insert_lexer_matchers(added.iter().map(matcher).collect(), "comma");
    assert_eq!(names(&rules), sqruff_names(&d));
    assert_eq!(names(&rules)[16], "right_arrow");
    assert_eq!(names(&rules)[17], "lambda");
    assert_eq!(names(&rules)[18], "comma");
    assert_eq!(rules.len(), 37);
}

#[test]
fn patch_rules_matches_sqruff() {
    let mut rules = lexer_matchers();
    let patch = vec![
        LexRule::regex("word", "[a-z]+", TokenKind::Word),
        LexRule::regex("unknown_rule", "x", TokenKind::Word),
        LexRule::literal("star", "**", TokenKind::Star),
    ];
    patch_lexer_rules(&mut rules, patch.clone());
    let mut d = ansi_dialect();
    d.patch_lexer_matchers(patch.iter().map(matcher).collect());
    assert_eq!(names(&rules), sqruff_names(&d));
    assert_eq!(names(&rules), ANSI_NAMES.to_vec());
    match rules[34].pattern.recogniser {
        Recogniser::Regex(r) => assert_eq!(r, "[a-z]+"),
        _ => panic!("word should be a regular expression"),
    }
    match rules[25].pattern.recogniser {
        Recogniser::Literal(t) => assert_eq!(t, "**"),
        _ => panic!("star should be a literal"),
    }
}

#[test]
fn patch_rules_last_replacement_wins() {
    let mut rules = lexer_matchers();
    let patch = vec![
        LexRule::literal("comma", ";", TokenKind::Comma),
        LexRule::literal("comma", ",,", TokenKind::Comma),
    ];
    patch_lexer_rules(&mut rules, patch);
    match rules[16].pattern.recogniser {
        Recogniser::Literal(t) => assert_eq!(t, ",,"),
        _ => panic!("comma should be a literal"),
    }
}

#[test]
fn db2_rules_match_sqruff() {
    let rules = db2_lexer_matchers();
    let mut d = ansi_dialect();
    d.insert_lexer_matchers(vec![Matcher::string("right_arrow", "=>", SyntaxKind::RightArrow)], "equals");
    d.patch_lexer_matchers(vec![
        Matcher::regex("inline_comment", r"(--)[^\n]*", SyntaxKind::InlineComment),
        Matcher::regex("word", r"[0-9a-zA-Z_#]+", SyntaxKind::Word),
    ]);
    assert_eq!(names(&rules), sqruff_names(&d));
    assert_eq!(names(&rules)[11], "right_arrow");
    assert_eq!(names(&rules)[12], "equals");
    let tokens = lex(&rules, "a => col#1");
    assert_eq!(
        tokens,
        vec![
            ("a".to_string(), SyntaxKind::Word),
            (" ".to_string(), SyntaxKind::Whitespace),
            ("=>".to_string(), SyntaxKind::RightArrow),
            (" ".to_string(), SyntaxKind::Whitespace),
            ("col#1".to_string(), SyntaxKind::Word),
        ]
    );
}

#[test]
fn bigquery_rules_in_order() {
    let rules = bigquery_lexer_matchers();
    let n = names(&rules);
    assert_eq!(n.len(), 38);
    assert_eq!(&n[11..15], &["right_arrow", "question_mark", "at_sign_literal", "equals"]);
    let single = matcher(&rules[3]);
    assert_eq!(single.matches("r'raw' x").forward_string, " x");
    let kinds: Vec<SyntaxKind> = lex(&rules, "@p1 ? =>").iter().map(|t| t.1).collect();
    assert_eq!(
        kinds,
        vec![
            SyntaxKind::AtSignLiteral,
            SyntaxKind::Whitespace,
            SyntaxKind::QuestionMark,
            SyntaxKind::Whitespace,
            SyntaxKind::RightArrow,
        ]
    );
}

#[test]
fn clickhouse_rules_in_order() {
    let rules = clickhouse_lexer_matchers();
    let n = names(&rules);
    assert_eq!(n.len(), 36);
    assert_eq!(&n[8..11], &["like_operator", "lambda", "newline"]);
    assert_eq!(matcher(&rules[9]).matches("-> x").forward_string, " x");
}

#[test]
fn athena_rules_in_order() {
    let rules = athena_lexer_matchers();
    let n = names(&rules);
    assert_eq!(n.len(), 36);
    assert_eq!(&n[7..10], &["numeric_literal", "right_arrow", "like_operator"]);
}

fn distinct(names: &[&'static str]) -> bool {
    let mut sorted = names.to_vec();
    sorted.sort();
    sorted.dedup();
    sorted.len() == names.len()
}

#[test]
fn dialect_rule_names_are_distinct() {
    assert!(distinct(&names(&lexer_matchers())));
    assert!(distinct(&names(&db2_lexer_matchers())));
    assert!(distinct(&names(&bigquery_lexer_matchers())));
    assert!(distinct(&names(&clickhouse_lexer_matchers())));
    assert!(distinct(&names(&athena_lexer_matchers())));
}
