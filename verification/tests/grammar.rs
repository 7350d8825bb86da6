use sqruff_lib_dialects::ansi::{
    explainable_stmt, frame_extent, get_unordered_select_statement_segment_grammar, select_clause_element,
    select_clause_segment, select_clause_terminators, select_statement, statement_segment,
    wildcard_expression_segment,
};
use sqruff_lib_dialects::grammar::{Grammar, ParseMode};

fn name(g: &Grammar) -> String {
    match g {
        Grammar::Ref { name, optional } => format!("{}{}", name, if *optional { "?" } else { "" }),
        Grammar::Keyword { word } => word.to_string(),
        Grammar::Sequence { elements, .. } => format!("({})", elements.iter().map(name).collect::<Vec<_>>().join(" ")),
        Grammar::OneOf { elements, .. } => format!("[{}]", elements.iter().map(name).collect::<Vec<_>>().join("|")),
        Grammar::Delimited { elements, allow_trailing, .. } => format!(
            "{{{}{}}}",
            elements.iter().map(name).collect::<Vec<_>>().join("|"),
            if *allow_trailing { ",..." } else { "" }
        ),
        Grammar::Indent => "<indent>".to_string(),
        Grammar::Dedent => "<dedent>".to_string(),
        other => format!("{other:?}"),
    }
}

fn names(gs: &[Grammar]) -> Vec<String> {
    gs.iter().map(name).collect()
}

#[test]
fn select_clause_element_shape() {
    assert_eq!(
        name(&select_clause_element()),
        "[WildcardExpressionSegment|(BaseExpressionElementGrammar AliasExpressionSegment?)]"
    );
}

#[test]
fn frame_extent_shape() {
    assert_eq!(
        name(&frame_extent()),
        "[(CURRENT ROW)|([NumericLiteralSegment|(INTERVAL QuotedLiteralSegment)|UNBOUNDED] [PRECEDING|FOLLOWING])]"
    );
}

#[test]
fn explainable_stmt_shape() {
    assert_eq!(
        name(&explainable_stmt()),
        "[SelectableGrammar|InsertStatementSegment|UpdateStatementSegment|DeleteStatementSegment]"
    );
}

#[test]
fn unordered_select_statement_shape() {
    match get_unordered_select_statement_segment_grammar() {
        Grammar::Sequence { elements, terminators, parse_mode } => {
            assert_eq!(
                names(&elements),
                vec![
                    "SelectClauseSegment",
                    "<dedent>",
                    "FromClauseSegment?",
                    "WhereClauseSegment?",
                    "GroupByClauseSegment?",
                    "HavingClauseSegment?",
                    "OverlapsClauseSegment?",
                    "NamedWindowSegment?",
                ]
            );
            assert_eq!(
                names(&terminators),
                vec![
                    "SetOperatorSegment",
                    "WithNoSchemaBindingClauseSegment",
                    "WithDataClauseSegment",
                    "OrderByClauseSegment",
                    "LimitClauseSegment",
                ]
            );
            assert!(matches!(parse_mode, ParseMode::GreedyOnceStarted));
        }
        other => panic!("expected a sequence, got {other:?}"),
    }
}

#[test]
fn select_statement_extends_unordered() {
    match select_statement() {
        Grammar::Sequence { elements, terminators, parse_mode } => {
            assert_eq!(elements.len(), 12);
            assert_eq!(
                names(&elements[8..]),
                vec![
                    "OrderByClauseSegment?",
                    "FetchClauseSegment?",
                    "LimitClauseSegment?",
                    "NamedWindowSegment?",
                ]
            );
            assert_eq!(name(&elements[0]), "SelectClauseSegment");
            assert_eq!(
                names(&terminators),
                vec!["SetOperatorSegment", "WithNoSchemaBindingClauseSegment", "WithDataClauseSegment"]
            );
            assert!(matches!(parse_mode, ParseMode::GreedyOnceStarted));
        }
        other => panic!("expected a sequence, got {other:?}"),
    }
}

#[test]
fn select_clause_segment_shape() {
    match select_clause_segment() {
        Grammar::Sequence { elements, terminators, parse_mode } => {
            assert_eq!(
                names(&elements),
                vec!["SELECT", "SelectClauseModifierSegment?", "<indent>", "{SelectClauseElementSegment,...}"]
            );
            assert_eq!(names(&terminators), vec!["SelectClauseTerminatorGrammar"]);
            assert!(matches!(parse_mode, ParseMode::GreedyOnceStarted));
        }
        other => panic!("expected a sequence, got {other:?}"),
    }
}

#[test]
fn statement_segment_shape() {
    match statement_segment() {
        Grammar::OneOf { elements, terminators } => {
            assert_eq!(elements.len(), 39);
            assert_eq!(name(&elements[0]), "SelectableGrammar");
            assert_eq!(name(&elements[33]), "ExplainStatementSegment");
            assert_eq!(name(&elements[38]), "DropTriggerStatementSegment");
            assert_eq!(names(&terminators), vec!["DelimiterGrammar"]);
        }
        other => panic!("expected a choice, got {other:?}"),
    }
}

#[test]
fn wildcard_expression_segment_shape() {
    assert_eq!(name(&wildcard_expression_segment()), "(WildcardIdentifierSegment)");
}

#[test]
fn select_clause_terminators_shape() {
    assert_eq!(
        names(&select_clause_terminators()),
        vec!["FROM", "WHERE", "(ORDER BY)", "LIMIT", "OVERLAPS", "SetOperatorSegment", "FETCH"]
    );
}

#[test]
fn copy_inserts_at_position_and_appends_terminators() {
    let base = Grammar::sequence(vec![Grammar::keyword("A"), Grammar::keyword("C")])
        .terminators(vec![Grammar::reference("T1")]);
    let copied = base.copy(Some(vec![Grammar::keyword("B")]), Some(1), None, None, vec![Grammar::reference("T2")], false);
    match copied {
        Grammar::Sequence { elements, terminators, .. } => {
            assert_eq!(names(&elements), vec!["A", "B", "C"]);
            assert_eq!(names(&terminators), vec!["T1", "T2"]);
        }
        other => panic!("expected a sequence, got {other:?}"),
    }
}

#[test]
fn copy_without_insert_keeps_elements() {
    let base = Grammar::sequence(vec![Grammar::keyword("A")]).terminators(vec![Grammar::reference("T1")]);
    let copied = base.copy(None, None, None, None, vec![Grammar::reference("T2")], true);
    assert_eq!(name(&copied), "(A)");
    match copied {
        Grammar::Sequence { terminators, .. } => assert_eq!(names(&terminators), vec!["T2"]),
        other => panic!("expected a sequence, got {other:?}"),
    }
}

#[test]
fn duplicate_is_equal_in_shape() {
    let g = select_statement();
    assert_eq!(name(&g.duplicate()), name(&g));
}

#[test]
fn copy_inserts_before_an_element_and_removes_others() {
    let base = Grammar::one_of(vec![Grammar::keyword("A"), Grammar::keyword("B"), Grammar::keyword("C")]);
    let before = Grammar::keyword("B");
    let remove = vec![Grammar::keyword("C")];
    let copied = base.copy(Some(vec![Grammar::keyword("X")]), None, Some(&before), Some(&remove), vec![], false);
    match copied {
        Grammar::OneOf { elements, .. } => assert_eq!(names(&elements), vec!["A", "X", "B"]),
        other => panic!("{other:?}"),
    }
}

#[test]
fn copy_of_a_list_keeps_its_delimiter() {
    let base = Grammar::delimited(vec![Grammar::reference("A")]).delimiter_without_gaps(Grammar::reference("DotSegment"));
    let copied = base.copy(Some(vec![Grammar::reference("B")]), Some(0), None, None, vec![], false);
    match copied {
        Grammar::Delimited { elements, delimiter, allow_gaps, .. } => {
            assert_eq!(names(&elements), vec!["B", "A"]);
            assert_eq!(delimiter.map(|d| name(&d)), Some("DotSegment".to_string()));
            assert!(!allow_gaps);
        }
        other => panic!("{other:?}"),
    }
}

#[test]
fn same_compares_values() {
    let a = Grammar::one_of(vec![Grammar::keyword("A"), Grammar::reference("B")]);
    let b = Grammar::one_of(vec![Grammar::keyword("A"), Grammar::reference("B")]);
    let c = Grammar::one_of(vec![Grammar::keyword("A"), Grammar::optional_reference("B")]);
    assert!(a.same(&b));
    assert!(!a.same(&c));
}

#[test]
fn copy_matches_references_by_name_and_optionality() {
    // A keyword is a reference to its own name: a reference to `B` finds the keyword `B`.
    let base = Grammar::sequence(vec![Grammar::keyword("A"), Grammar::keyword("B"), Grammar::reference("C")]);
    let before = Grammar::reference("B");
    let copied = base.copy(Some(vec![Grammar::keyword("X")]), None, Some(&before), None, vec![], false);
    match copied {
        Grammar::Sequence { elements, .. } => assert_eq!(names(&elements), vec!["A", "X", "B", "C"]),
        other => panic!("{other:?}"),
    }
    // An optional reference only matches optional ones.
    let base = Grammar::sequence(vec![Grammar::reference("C"), Grammar::optional_reference("C")]);
    let before = Grammar::optional_reference("C");
    let copied = base.copy(Some(vec![Grammar::keyword("X")]), None, Some(&before), None, vec![], false);
    match copied {
        Grammar::Sequence { elements, .. } => assert_eq!(names(&elements), vec!["C", "X", "C?"]),
        other => panic!("{other:?}"),
    }
    // Removal by reference takes out the keyword of the same name.
    let base = Grammar::one_of(vec![Grammar::keyword("A"), Grammar::keyword("B")]);
    let remove = vec![Grammar::reference("A")];
    let copied = base.copy(None, None, None, Some(&remove), vec![], false);
    match copied {
        Grammar::OneOf { elements, .. } => assert_eq!(names(&elements), vec!["B"]),
        other => panic!("{other:?}"),
    }
}
