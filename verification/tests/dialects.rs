use sqruff_lib_dialects::ansi_dialect::{ansi_dialect, ansi_raw_dialect, keyword_set};
use sqruff_lib_dialects::db2_dialect::{db2_dialect, db2_raw_dialect};
use sqruff_lib_dialects::dialect::{DialectModel, DialectName, Element};
use sqruff_lib_dialects::dialects::{athena_dialect, bigquery_raw_dialect, clickhouse_raw_dialect};
use sqruff_lib_dialects::grammar::Grammar;
use sqruff_lib_dialects::keywords::keyword_lines;

const UNRESERVED: &str = "ABORT\n  ACTION \n\nADD\n";
const RESERVED: &str = "SELECT\nFROM\nNATURAL\nWHERE\n";

fn element<'a>(d: &'a DialectModel, name: &str) -> Option<&'a Element> {
    d.library.iter().rev().find(|(n, _)| *n == name).map(|(_, e)| e)
}

fn set(d: &DialectModel, label: &str) -> Vec<&'static str> {
    let mut words = d.set(label).words();
    words.sort();
    words.dedup();
    words
}

#[test]
fn keyword_lines_trims_and_skips_empty_lines() {
    assert_eq!(keyword_lines(UNRESERVED), vec!["ABORT", "ACTION", "ADD"]);
    let mut words = keyword_set("B\n A\n\n").words();
    words.sort();
    assert_eq!(words, vec!["A", "B"]);
}

#[test]
fn ansi_raw_dialect_holds_sets_brackets_and_library() {
    let d = ansi_raw_dialect(UNRESERVED, RESERVED);
    assert_eq!(d.name, DialectName::Ansi);
    assert_eq!(set(&d, "reserved_keywords"), vec!["FROM", "NATURAL", "SELECT", "WHERE"]);
    assert_eq!(set(&d, "unreserved_keywords"), vec!["ABORT", "ACTION", "ADD"]);
    assert_eq!(set(&d, "date_part_function_name"), vec!["DATEADD"]);
    assert!(set(&d, "value_table_functions").is_empty());
    assert!(d.bracket_sets.iter().any(|(l, ps)| *l == "bracket_pairs" && ps.len() == 3));
    assert!(d.library.len() > 250);
    match element(&d, "CommaSegment") {
        Some(Element::Grammar(Grammar::StringParser { template, kind })) => {
            assert_eq!(*template, ",");
            assert_eq!(*kind, "comma");
        }
        other => panic!("{other:?}"),
    }
    match element(&d, "StatementSegment") {
        Some(Element::Node { kind, grammar: Grammar::OneOf { elements, .. } }) => {
            assert_eq!(*kind, "statement");
            assert_eq!(elements.len(), 39);
        }
        other => panic!("{other:?}"),
    }
    assert!(matches!(element(&d, "NakedIdentifierSegment"), Some(Element::IdentifierNotIn { .. })));
    assert!(matches!(element(&d, "CTEColumnList"), Some(Element::Node { kind: "cte_column_list", .. })));
}

#[test]
fn expansion_resolves_generators_and_adds_keyword_parsers() {
    let d = ansi_dialect(UNRESERVED, RESERVED);
    match element(&d, "NakedIdentifierSegment") {
        Some(Element::Grammar(Grammar::RegexParser { kind, anti_template: Some(words), .. })) => {
            assert_eq!(*kind, "naked_identifier");
            let mut words = words.clone();
            words.sort();
            assert_eq!(words, vec!["FROM", "NATURAL", "SELECT", "WHERE"]);
        }
        other => panic!("{other:?}"),
    }
    match element(&d, "BareFunctionSegment") {
        Some(Element::Grammar(Grammar::MultiStringParser { templates, kind })) => {
            assert_eq!(*kind, "bare_function");
            assert_eq!(templates.len(), 3);
        }
        other => panic!("{other:?}"),
    }
    match element(&d, "SELECT") {
        Some(Element::Grammar(Grammar::StringParser { template, kind })) => {
            assert_eq!(*template, "SELECT");
            assert_eq!(*kind, "keyword");
        }
        other => panic!("{other:?}"),
    }
    assert!(element(&d, "ABORT").is_some());
    assert!(element(&d, "NOT_A_KEYWORD").is_none());
}

#[test]
fn db2_dialect_changes_keywords_joins_and_statements() {
    let d = db2_raw_dialect(UNRESERVED, RESERVED, &["DAYS", "HOURS"]);
    assert_eq!(d.name, DialectName::Db2);
    assert_eq!(set(&d, "reserved_keywords"), vec!["FROM", "SELECT", "WHERE"]);
    assert!(set(&d, "unreserved_keywords").contains(&"DAYS"));
    assert!(matches!(element(&d, "NaturalJoinKeywordsGrammar"), Some(Element::Grammar(Grammar::Nothing))));
    match element(&d, "StatementSegment") {
        Some(Element::Node { kind, grammar: Grammar::OneOf { elements, .. } }) => {
            assert_eq!(*kind, "statement");
            assert_eq!(elements.len(), 41);
            assert!(matches!(&elements[40], Grammar::Ref { name: "DeclareGlobalTempTableSegment", .. }));
        }
        other => panic!("{other:?}"),
    }
    assert!(d.lexer.iter().any(|r| r.pattern.name == "right_arrow"));
    let expanded = db2_dialect(UNRESERVED, RESERVED, &["DAYS"]);
    assert!(element(&expanded, "DAYS").is_some());
    assert!(element(&expanded, "NATURAL").is_some());
}

#[test]
fn other_dialects_have_their_names_and_sets() {
    let a = athena_dialect(UNRESERVED, RESERVED, &["UNLOAD"], &["LIMIT"]);
    assert_eq!(a.name, DialectName::Athena);
    assert!(set(&a, "unreserved_keywords").contains(&"UNLOAD"));
    assert!(a.bracket_sets.iter().any(|(l, _)| *l == "angle_bracket_pairs"));
    let b = bigquery_raw_dialect(UNRESERVED, RESERVED, "QUALIFY\n", "SELECT\n");
    assert_eq!(b.name, DialectName::Bigquery);
    assert_eq!(set(&b, "unreserved_keywords"), vec!["QUALIFY"]);
    assert_eq!(set(&b, "extended_datetime_units"), vec!["DATE", "DATETIME", "TIME"]);
    assert_eq!(set(&b, "value_table_functions"), vec!["UNNEST"]);
    let c = clickhouse_raw_dialect(UNRESERVED, RESERVED, &["FINAL"]);
    assert_eq!(c.name, DialectName::Clickhouse);
    assert!(set(&c, "datetime_units").contains(&"NANOSECOND"));
    assert!(c.lexer.iter().any(|r| r.pattern.name == "lambda"));
}

#[test]
fn databricks_changes_keywords_and_lexer() {
    let spark = ansi_raw_dialect(UNRESERVED, RESERVED);
    let d = sqruff_lib_dialects::databricks::databricks_raw_dialect(spark, &["ZORDER"], &["SELECT", "FROM"]);
    assert_eq!(d.name, DialectName::Databricks);
    assert_eq!(set(&d, "reserved_keywords"), vec!["FROM", "SELECT"]);
    let unreserved = set(&d, "unreserved_keywords");
    assert!(unreserved.contains(&"ZORDER"));
    assert!(unreserved.contains(&"NATURAL"));
    assert!(!unreserved.contains(&"SELECT"));
    assert!(set(&d, "date_part_function_name").contains(&"TIMEDIFF"));
    let names: Vec<&str> = d.lexer.iter().map(|r| r.pattern.name).collect();
    let arrow = names.iter().position(|n| *n == "right_arrow").unwrap();
    assert_eq!(names[arrow + 1], "equals");
}

#[test]
fn clickhouse_terminators_insert_before_where() {
    let c = clickhouse_raw_dialect(UNRESERVED, RESERVED, &["FINAL"]);
    match element(&c, "FromClauseTerminatorGrammar") {
        Some(Element::Grammar(Grammar::OneOf { elements, .. })) => {
            let words: Vec<String> = elements
                .iter()
                .map(|g| match g {
                    Grammar::Keyword { word } => word.to_string(),
                    Grammar::Ref { name, .. } => name.to_string(),
                    other => format!("{other:?}"),
                })
                .collect();
            let w = words.iter().position(|x| x == "WHERE").unwrap();
            assert_eq!(&words[w - 3..w], &["PREWHERE", "INTO", "FORMAT"]);
            assert_eq!(words.last().unwrap(), "SettingsClauseSegment");
        }
        other => panic!("{other:?}"),
    }
}
