use sqruff_lib_dialects::ansi::{bare_functions, bracket_pairs, date_part_function_names, datetime_units};
use sqruff_lib_dialects::databricks;
use sqruff_lib_dialects::db2;
use sqruff_lib_dialects::dialect_sets;
use sqruff_lib_dialects::sets::WordSet;

fn sorted(set: &WordSet) -> Vec<&'static str> {
    let mut words = set.words();
    words.sort();
    words
}

#[test]
fn word_set_insert_keeps_one_copy() {
    let mut s = WordSet::new();
    s.insert("A");
    s.insert("B");
    s.insert("A");
    assert_eq!(sorted(&s), vec!["A", "B"]);
    assert!(s.contains("A"));
    assert!(!s.contains("C"));
}

#[test]
fn word_set_remove_and_clear() {
    let mut s = WordSet::from_words(&["A", "B", "C"]);
    s.remove("B");
    s.remove("Z");
    assert_eq!(sorted(&s), vec!["A", "C"]);
    s.clear();
    assert!(s.words().is_empty());
}

#[test]
fn word_set_retain_absent() {
    let mut s = WordSet::from_words(&["A", "B", "C", "D"]);
    s.retain_absent(&["B", "D", "E"]);
    assert_eq!(sorted(&s), vec!["A", "C"]);
}

#[test]
fn ansi_word_sets() {
    assert_eq!(sorted(&bare_functions()), vec!["current_date", "current_time", "current_timestamp"]);
    assert_eq!(
        sorted(&datetime_units()),
        vec![
            "DAY",
            "DAYOFYEAR",
            "HOUR",
            "MILLISECOND",
            "MINUTE",
            "MONTH",
            "QUARTER",
            "SECOND",
            "WEEK",
            "WEEKDAY",
            "YEAR"
        ]
    );
    assert_eq!(sorted(&date_part_function_names()), vec!["DATEADD"]);
}

#[test]
fn ansi_bracket_pairs() {
    assert_eq!(
        bracket_pairs(),
        vec![
            ("round", "StartBracketSegment", "EndBracketSegment", true),
            ("square", "StartSquareBracketSegment", "EndSquareBracketSegment", false),
            ("curly", "StartCurlyBracketSegment", "EndCurlyBracketSegment", false),
        ]
    );
}

#[test]
fn db2_keywords_drop_natural() {
    let mut reserved = WordSet::from_words(&["NATURAL", "SELECT", "FROM"]);
    let mut unreserved = WordSet::from_words(&["ABS"]);
    db2::keyword_sets(&mut reserved, &mut unreserved, &["ACTIVATE", "ABS", "ALIAS"]);
    assert_eq!(sorted(&reserved), vec!["FROM", "SELECT"]);
    assert_eq!(sorted(&unreserved), vec!["ABS", "ACTIVATE", "ALIAS"]);
}

#[test]
fn databricks_keywords_are_disjoint() {
    let mut unreserved = WordSet::from_words(&["A", "B", "R1"]);
    let mut reserved = WordSet::from_words(&["S1", "S2"]);
    databricks::keyword_sets(&mut unreserved, &mut reserved, &["C", "D"], &["R1", "S2", "D"]);
    assert_eq!(sorted(&reserved), vec!["D", "R1", "S2"]);
    assert_eq!(sorted(&unreserved), vec!["A", "B", "C", "S1"]);
    for word in reserved.words() {
        assert!(!unreserved.contains(word));
    }
}

#[test]
fn bigquery_datetime_units_extend_ansi() {
    let mut units = datetime_units();
    dialect_sets::bigquery_datetime_units(&mut units);
    let words = sorted(&units);
    assert_eq!(words.len(), 15);
    for unit in ["WEEKDAY", "MILLISECOND", "ISOWEEK", "ISOYEAR", "DAYOFWEEK", "MICROSECOND"] {
        assert!(words.contains(&unit));
    }
}

#[test]
fn bigquery_date_parts_replace_ansi() {
    let mut names = date_part_function_names();
    dialect_sets::bigquery_date_part_function_names(&mut names);
    let words = sorted(&names);
    assert!(!words.contains(&"DATEADD"));
    assert_eq!(words.len(), 10);
    assert_eq!(words[0], "DATETIME_DIFF");
}

#[test]
fn bigquery_value_tables_and_units() {
    let mut functions = WordSet::new();
    dialect_sets::bigquery_value_table_functions(&mut functions);
    assert_eq!(sorted(&functions), vec!["UNNEST"]);
    assert_eq!(sorted(&dialect_sets::bigquery_extended_datetime_units()), vec!["DATE", "DATETIME", "TIME"]);
    assert_eq!(
        dialect_sets::angle_bracket_pair(),
        ("angle", "StartAngleBracketSegment", "EndAngleBracketSegment", false)
    );
}

#[test]
fn clickhouse_datetime_units_replace_ansi() {
    let mut units = datetime_units();
    dialect_sets::clickhouse_datetime_units(&mut units);
    let words = sorted(&units);
    assert_eq!(words.len(), 52);
    assert!(words.contains(&"SQL_TSI_NANOSECOND"));
    assert!(!words.contains(&"WEEKDAY"));
    assert!(!words.contains(&"DAYOFYEAR"));
}
