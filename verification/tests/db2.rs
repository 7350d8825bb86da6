use sqruff_lib_dialects::ansi::{
    from_clause_terminator_grammar, group_by_clause_terminator_grammar, having_clause_terminator_grammar,
    order_by_clause_terminators, where_clause_terminator_grammar,
};
use sqruff_lib_dialects::db2::clause_terminators;
use sqruff_lib_dialects::grammar::Grammar;

fn alternatives(g: &Grammar) -> Vec<String> {
    match g {
        Grammar::OneOf { elements, terminators } => {
            assert!(terminators.is_empty());
            elements
                .iter()
                .map(|e| match e {
                    Grammar::Keyword { word } => word.to_string(),
                    Grammar::Ref { name, .. } => name.to_string(),
                    Grammar::Sequence { elements, .. } => elements
                        .iter()
                        .map(|k| match k {
                            Grammar::Keyword { word } => word.to_string(),
                            other => panic!("unexpected {other:?}"),
                        })
                        .collect::<Vec<_>>()
                        .join(" "),
                    other => panic!("unexpected {other:?}"),
                })
                .collect()
        }
        other => panic!("expected a choice, got {other:?}"),
    }
}

#[test]
fn ansi_from_clause_terminators() {
    assert_eq!(
        alternatives(&from_clause_terminator_grammar()),
        vec![
            "WHERE",
            "LIMIT",
            "GROUP BY",
            "ORDER BY",
            "HAVING",
            "QUALIFY",
            "WINDOW",
            "SetOperatorSegment",
            "WithNoSchemaBindingClauseSegment",
            "WithDataClauseSegment",
            "FETCH"
        ]
    );
}

#[test]
fn db2_clause_terminators_add_offset() {
    let ansi = [
        from_clause_terminator_grammar(),
        where_clause_terminator_grammar(),
        group_by_clause_terminator_grammar(),
        having_clause_terminator_grammar(),
        order_by_clause_terminators(),
    ];
    let db2 = clause_terminators();
    let names: Vec<&str> = db2.iter().map(|(n, _)| *n).collect();
    assert_eq!(
        names,
        vec![
            "FromClauseTerminatorGrammar",
            "WhereClauseTerminatorGrammar",
            "GroupByClauseTerminatorGrammar",
            "HavingClauseTerminatorGrammar",
            "OrderByClauseTerminators"
        ]
    );
    for (a, (_, d)) in ansi.iter().zip(db2.iter()) {
        let mut expected = alternatives(a);
        expected.push("OFFSET".to_string());
        assert_eq!(alternatives(d), expected);
    }
}

#[test]
fn db2_order_by_terminators() {
    let db2 = clause_terminators();
    assert_eq!(
        alternatives(&db2[4].1),
        vec!["LIMIT", "HAVING", "QUALIFY", "WINDOW", "FrameClauseUnitGrammar", "SEPARATOR", "FETCH", "OFFSET"]
    );
}
