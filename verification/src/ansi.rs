//! Grammar fragments of the ANSI dialect that other dialects reuse.

use crate::grammar::{views, Grammar, GrammarView, ParseMode};
use crate::sets::{texts, WordSet};
use crate::lexer_rules::{
    names_distinct, rules_view, LexPattern, LexPatternView, LexRule, LexRuleView, RecogniserView, Scanner, StartTest, TokenKind,
};
use vstd::prelude::*;

verus! {

/// References to the dialect elements `names`, in order.
pub open spec fn references(names: Seq<Seq<char>>) -> Seq<GrammarView> {
    names.map_values(|n: Seq<char>| GrammarView::reference(n))
}

/// The grammar of a select-clause element.
pub open spec fn select_clause_element_grammar() -> GrammarView {
    GrammarView::one_of(
        seq![
            GrammarView::reference("WildcardExpressionSegment"@),
            GrammarView::sequence(
                seq![
                    GrammarView::reference("BaseExpressionElementGrammar"@),
                    GrammarView::optional_reference("AliasExpressionSegment"@),
                ],
            ),
        ],
    )
}

/// An element of a select clause: a wildcard (`*`, `t.*`, ...) or an
/// expression with an optional alias.
pub fn select_clause_element() -> (g: Grammar)
    ensures
        g@ =~~= select_clause_element_grammar(),
{
    let parts = vec![
        Grammar::reference("BaseExpressionElementGrammar"),
        Grammar::optional_reference("AliasExpressionSegment"),
    ];
    assert(views(parts@) =~= seq![
                        GrammarView::reference("BaseExpressionElementGrammar"@),
                        GrammarView::optional_reference("AliasExpressionSegment"@),
                    ]);
    let expression = Grammar::sequence(parts);
    let alts = vec![Grammar::reference("WildcardExpressionSegment"), expression];
    assert(views(alts@) =~= seq![GrammarView::reference("WildcardExpressionSegment"@), expression@]);
    Grammar::one_of(alts)
}

/// The frame extent of a window: `CURRENT ROW`, or a bound (a number, an
/// `INTERVAL` literal or `UNBOUNDED`) followed by `PRECEDING` or `FOLLOWING`.
pub fn frame_extent() -> (g: Grammar)
    ensures
        g@ =~~= GrammarView::one_of(
            seq![
                GrammarView::sequence(
                    seq![GrammarView::keyword("CURRENT"@), GrammarView::keyword("ROW"@)],
                ),
                GrammarView::sequence(
                    seq![
                        GrammarView::one_of(
                            seq![
                                GrammarView::reference("NumericLiteralSegment"@),
                                GrammarView::sequence(
                                    seq![
                                        GrammarView::keyword("INTERVAL"@),
                                        GrammarView::reference("QuotedLiteralSegment"@),
                                    ],
                                ),
                                GrammarView::keyword("UNBOUNDED"@),
                            ],
                        ),
                        GrammarView::one_of(
                            seq![
                                GrammarView::keyword("PRECEDING"@),
                                GrammarView::keyword("FOLLOWING"@),
                            ],
                        ),
                    ],
                ),
            ],
        ),
{
    let current_row = vec![Grammar::keyword("CURRENT"), Grammar::keyword("ROW")];
    assert(views(current_row@) =~= seq![GrammarView::keyword("CURRENT"@), GrammarView::keyword("ROW"@)]);
    let current_row = Grammar::sequence(current_row);

    let interval = vec![Grammar::keyword("INTERVAL"), Grammar::reference("QuotedLiteralSegment")];
    assert(views(interval@) =~= seq![
        GrammarView::keyword("INTERVAL"@),
        GrammarView::reference("QuotedLiteralSegment"@),
    ]);
    let interval = Grammar::sequence(interval);

    let bounds = vec![Grammar::reference("NumericLiteralSegment"), interval, Grammar::keyword("UNBOUNDED")];
    assert(views(bounds@) =~= seq![
        GrammarView::reference("NumericLiteralSegment"@),
        interval@,
        GrammarView::keyword("UNBOUNDED"@),
    ]);
    let bound = Grammar::one_of(bounds);

    let directions = vec![Grammar::keyword("PRECEDING"), Grammar::keyword("FOLLOWING")];
    assert(views(directions@) =~= seq![
        GrammarView::keyword("PRECEDING"@),
        GrammarView::keyword("FOLLOWING"@),
    ]);
    let direction = Grammar::one_of(directions);

    let bounded = vec![bound, direction];
    assert(views(bounded@) =~= seq![bound@, direction@]);
    let bounded = Grammar::sequence(bounded);

    let alternatives = vec![current_row, bounded];
    assert(views(alternatives@) =~= seq![current_row@, bounded@]);
    Grammar::one_of(alternatives)
}

/// The statements that `EXPLAIN` accepts.
pub open spec fn explainable_statements() -> Seq<Seq<char>> {
    seq![
        "SelectableGrammar"@,
        "InsertStatementSegment"@,
        "UpdateStatementSegment"@,
        "DeleteStatementSegment"@,
    ]
}

/// The grammar of a statement that EXPLAIN takes.
pub open spec fn explainable_statement_grammar() -> GrammarView {
    GrammarView::one_of(references(explainable_statements()))
}

/// A statement that `EXPLAIN` accepts: one of [`explainable_statements`].
pub fn explainable_stmt() -> (g: Grammar)
    ensures
        g@ =~~= explainable_statement_grammar(),
{
    let alternatives = vec![
        Grammar::reference("SelectableGrammar"),
        Grammar::reference("InsertStatementSegment"),
        Grammar::reference("UpdateStatementSegment"),
        Grammar::reference("DeleteStatementSegment"),
    ];
    assert(views(alternatives@) =~= references(explainable_statements()));
    Grammar::one_of(alternatives)
}

/// The clauses of a select statement that has no `ORDER BY`, `FETCH` or
/// `LIMIT`: the select clause, then the optional clauses in order.
pub open spec fn unordered_select_clauses() -> Seq<GrammarView> {
    seq![
        GrammarView::reference("SelectClauseSegment"@),
        GrammarView::Dedent,
        GrammarView::optional_reference("FromClauseSegment"@),
        GrammarView::optional_reference("WhereClauseSegment"@),
        GrammarView::optional_reference("GroupByClauseSegment"@),
        GrammarView::optional_reference("HavingClauseSegment"@),
        GrammarView::optional_reference("OverlapsClauseSegment"@),
        GrammarView::optional_reference("NamedWindowSegment"@),
    ]
}

/// What ends a select statement that has no `ORDER BY`, `FETCH` or `LIMIT`.
pub open spec fn unordered_select_terminators() -> Seq<Seq<char>> {
    seq![
        "SetOperatorSegment"@,
        "WithNoSchemaBindingClauseSegment"@,
        "WithDataClauseSegment"@,
        "OrderByClauseSegment"@,
        "LimitClauseSegment"@,
    ]
}

/// A select statement without `ORDER BY`, `FETCH` or `LIMIT`: the clauses
/// of [`unordered_select_clauses`], ended by [`unordered_select_terminators`],
/// parsed greedily once started.
pub open spec fn unordered_select_statement() -> GrammarView {
    GrammarView::Sequence {
        elements: unordered_select_clauses(),
        terminators: references(unordered_select_terminators()),
        parse_mode: ParseMode::GreedyOnceStarted,
    }
}

/// The grammar of [`unordered_select_statement`].
pub fn get_unordered_select_statement_segment_grammar() -> (g: Grammar)
    ensures
        g@ =~~= unordered_select_statement(),
{
    let clauses = vec![
        Grammar::reference("SelectClauseSegment"),
        Grammar::Dedent,
        Grammar::optional_reference("FromClauseSegment"),
        Grammar::optional_reference("WhereClauseSegment"),
        Grammar::optional_reference("GroupByClauseSegment"),
        Grammar::optional_reference("HavingClauseSegment"),
        Grammar::optional_reference("OverlapsClauseSegment"),
        Grammar::optional_reference("NamedWindowSegment"),
    ];
    assert(views(clauses@) =~= unordered_select_clauses());
    let terminators = vec![
        Grammar::reference("SetOperatorSegment"),
        Grammar::reference("WithNoSchemaBindingClauseSegment"),
        Grammar::reference("WithDataClauseSegment"),
        Grammar::reference("OrderByClauseSegment"),
        Grammar::reference("LimitClauseSegment"),
    ];
    assert(views(terminators@) =~= references(unordered_select_terminators()));
    Grammar::sequence(clauses).terminators(terminators).greedy_once_started()
}

/// The clauses that a full select statement adds at the end.
pub open spec fn ordering_clauses() -> Seq<GrammarView> {
    seq![
        GrammarView::optional_reference("OrderByClauseSegment"@),
        GrammarView::optional_reference("FetchClauseSegment"@),
        GrammarView::optional_reference("LimitClauseSegment"@),
        GrammarView::optional_reference("NamedWindowSegment"@),
    ]
}

/// What ends a full select statement.
pub open spec fn select_terminators() -> Seq<Seq<char>> {
    seq!["SetOperatorSegment"@, "WithNoSchemaBindingClauseSegment"@, "WithDataClauseSegment"@]
}

/// The grammar of a select statement.
pub open spec fn select_statement_grammar() -> GrammarView {
    unordered_select_statement().copied(
        Some(ordering_clauses()),
        None,
        None,
        None,
        references(select_terminators()),
        true,
    )
}

/// A full select statement: the unordered select statement, copied with the
/// [`ordering_clauses`] appended and its terminators replaced by
/// [`select_terminators`].
pub fn select_statement() -> (g: Grammar)
    ensures
        g@ == select_statement_grammar(),
{
    let unordered = get_unordered_select_statement_segment_grammar();
    let ordering = vec![
        Grammar::optional_reference("OrderByClauseSegment"),
        Grammar::optional_reference("FetchClauseSegment"),
        Grammar::optional_reference("LimitClauseSegment"),
        Grammar::optional_reference("NamedWindowSegment"),
    ];
    assert(views(ordering@) =~= ordering_clauses());
    let terminators = vec![
        Grammar::reference("SetOperatorSegment"),
        Grammar::reference("WithNoSchemaBindingClauseSegment"),
        Grammar::reference("WithDataClauseSegment"),
    ];
    assert(views(terminators@) =~= references(select_terminators()));
    unordered.copy(Some(ordering), None, None, None, terminators, true)
}

/// A select statement holds every clause of the unordered select statement,
/// in the same order and at the same places, followed by `ORDER BY`, `FETCH`,
/// `LIMIT` and the named window, each optional; it is parsed in the same mode,
/// and `ORDER BY` and `LIMIT` no longer end it.
pub proof fn law_select_statement_extends_unordered()
    ensures
        ({
            let full = unordered_select_statement().copied(
                Some(ordering_clauses()),
                None,
                None,
                None,
                references(select_terminators()),
                true,
            );
            let base = unordered_select_statement();
            &&& full->Sequence_elements.take(base->Sequence_elements.len() as int)
                == base->Sequence_elements
            &&& full->Sequence_elements.skip(base->Sequence_elements.len() as int)
                == ordering_clauses()
            &&& full->Sequence_parse_mode == base->Sequence_parse_mode
            &&& !full->Sequence_terminators.contains(GrammarView::reference("OrderByClauseSegment"@))
            &&& !full->Sequence_terminators.contains(GrammarView::reference("LimitClauseSegment"@))
            &&& forall|t: GrammarView| #[trigger] full->Sequence_terminators.contains(t)
                ==> base->Sequence_terminators.contains(t)
        }),
{
    let full = unordered_select_statement().copied(
        Some(ordering_clauses()),
        None,
        None,
        None,
        references(select_terminators()),
        true,
    );
    let base = unordered_select_statement();
    assert(full->Sequence_elements.take(8) =~= base->Sequence_elements);
    assert(full->Sequence_elements.skip(8) =~= ordering_clauses());
    reveal_strlit("OrderByClauseSegment");
    reveal_strlit("LimitClauseSegment");
    reveal_strlit("SetOperatorSegment");
    reveal_strlit("WithNoSchemaBindingClauseSegment");
    reveal_strlit("WithDataClauseSegment");
    let ts = full->Sequence_terminators;
    assert(ts =~= seq![
        GrammarView::reference("SetOperatorSegment"@),
        GrammarView::reference("WithNoSchemaBindingClauseSegment"@),
        GrammarView::reference("WithDataClauseSegment"@),
    ]);
    assert forall|t: GrammarView| #[trigger] ts.contains(t) implies base->Sequence_terminators.contains(t) by {
        let k = choose|k: int| 0 <= k < ts.len() && ts[k] == t;
        assert(base->Sequence_terminators[k] == ts[k]);
    }
    assert(!ts.contains(GrammarView::reference("OrderByClauseSegment"@))) by {
        if ts.contains(GrammarView::reference("OrderByClauseSegment"@)) {
            let k = choose|k: int| 0 <= k < ts.len() && ts[k] == GrammarView::reference("OrderByClauseSegment"@);
            assert(ts[k]->Ref_name[0] == 'O');
        }
    }
    assert(!ts.contains(GrammarView::reference("LimitClauseSegment"@))) by {
        if ts.contains(GrammarView::reference("LimitClauseSegment"@)) {
            let k = choose|k: int| 0 <= k < ts.len() && ts[k] == GrammarView::reference("LimitClauseSegment"@);
            assert(ts[k]->Ref_name[0] == 'L');
        }
    }
}

/// The grammar of the select clause.
pub open spec fn select_clause_grammar() -> GrammarView {
    (GrammarView::Sequence {
        elements: seq![
            GrammarView::keyword("SELECT"@),
            GrammarView::optional_reference("SelectClauseModifierSegment"@),
            GrammarView::Indent,
            GrammarView::Delimited {
                elements: seq![GrammarView::reference("SelectClauseElementSegment"@)],
                allow_trailing: true,
                delimiter: None,
                terminators: Seq::empty(),
                allow_gaps: true,
            },
        ],
        terminators: seq![GrammarView::reference("SelectClauseTerminatorGrammar"@)],
        parse_mode: ParseMode::GreedyOnceStarted,
    })
}

/// The select clause: `SELECT`, an optional modifier, an indent, then a
/// comma-separated list of select-clause elements that may end in a comma;
/// ended by the select-clause terminators and parsed greedily once started.
pub fn select_clause_segment() -> (g: Grammar)
    ensures
        g@ =~~= select_clause_grammar(),
{
    let items = vec![Grammar::reference("SelectClauseElementSegment")];
    assert(views(items@) =~= seq![GrammarView::reference("SelectClauseElementSegment"@)]);
    let items = Grammar::delimited(items).allow_trailing();
    let parts = vec![
        Grammar::keyword("SELECT"),
        Grammar::optional_reference("SelectClauseModifierSegment"),
        Grammar::Indent,
        items,
    ];
    assert(views(parts@) =~= seq![
        GrammarView::keyword("SELECT"@),
        GrammarView::optional_reference("SelectClauseModifierSegment"@),
        GrammarView::Indent,
        items@,
    ]);
    let terminators = vec![Grammar::reference("SelectClauseTerminatorGrammar")];
    assert(views(terminators@) =~= seq![GrammarView::reference("SelectClauseTerminatorGrammar"@)]);
    Grammar::sequence(parts).terminators(terminators).greedy_once_started()
}

/// The kinds of statement that the dialect parses, in the order in which they
/// are tried.
pub open spec fn statement_kinds() -> Seq<Seq<char>> {
    seq![
        "SelectableGrammar"@,
        "MergeStatementSegment"@,
        "InsertStatementSegment"@,
        "TransactionStatementSegment"@,
        "DropTableStatementSegment"@,
        "DropViewStatementSegment"@,
        "CreateUserStatementSegment"@,
        "DropUserStatementSegment"@,
        "TruncateStatementSegment"@,
        "AccessStatementSegment"@,
        "CreateTableStatementSegment"@,
        "CreateRoleStatementSegment"@,
        "DropRoleStatementSegment"@,
        "AlterTableStatementSegment"@,
        "CreateSchemaStatementSegment"@,
        "SetSchemaStatementSegment"@,
        "DropSchemaStatementSegment"@,
        "DropTypeStatementSegment"@,
        "CreateDatabaseStatementSegment"@,
        "DropDatabaseStatementSegment"@,
        "CreateIndexStatementSegment"@,
        "DropIndexStatementSegment"@,
        "CreateViewStatementSegment"@,
        "DeleteStatementSegment"@,
        "UpdateStatementSegment"@,
        "CreateCastStatementSegment"@,
        "DropCastStatementSegment"@,
        "CreateFunctionStatementSegment"@,
        "DropFunctionStatementSegment"@,
        "CreateModelStatementSegment"@,
        "DropModelStatementSegment"@,
        "DescribeStatementSegment"@,
        "UseStatementSegment"@,
        "ExplainStatementSegment"@,
        "CreateSequenceStatementSegment"@,
        "AlterSequenceStatementSegment"@,
        "DropSequenceStatementSegment"@,
        "CreateTriggerStatementSegment"@,
        "DropTriggerStatementSegment"@,
    ]
}

/// The grammar of a statement.
pub open spec fn statement_grammar() -> GrammarView {
    (GrammarView::OneOf {
        elements: references(statement_kinds()),
        terminators: seq![GrammarView::reference("DelimiterGrammar"@)],
    })
}

/// A statement: one of [`statement_kinds`], ended by a delimiter.
pub fn statement_segment() -> (g: Grammar)
    ensures
        g@ =~~= statement_grammar(),
{
    let alternatives = vec![
        Grammar::reference("SelectableGrammar"),
        Grammar::reference("MergeStatementSegment"),
        Grammar::reference("InsertStatementSegment"),
        Grammar::reference("TransactionStatementSegment"),
        Grammar::reference("DropTableStatementSegment"),
        Grammar::reference("DropViewStatementSegment"),
        Grammar::reference("CreateUserStatementSegment"),
        Grammar::reference("DropUserStatementSegment"),
        Grammar::reference("TruncateStatementSegment"),
        Grammar::reference("AccessStatementSegment"),
        Grammar::reference("CreateTableStatementSegment"),
        Grammar::reference("CreateRoleStatementSegment"),
        Grammar::reference("DropRoleStatementSegment"),
        Grammar::reference("AlterTableStatementSegment"),
        Grammar::reference("CreateSchemaStatementSegment"),
        Grammar::reference("SetSchemaStatementSegment"),
        Grammar::reference("DropSchemaStatementSegment"),
        Grammar::reference("DropTypeStatementSegment"),
        Grammar::reference("CreateDatabaseStatementSegment"),
        Grammar::reference("DropDatabaseStatementSegment"),
        Grammar::reference("CreateIndexStatementSegment"),
        Grammar::reference("DropIndexStatementSegment"),
        Grammar::reference("CreateViewStatementSegment"),
        Grammar::reference("DeleteStatementSegment"),
        Grammar::reference("UpdateStatementSegment"),
        Grammar::reference("CreateCastStatementSegment"),
        Grammar::reference("DropCastStatementSegment"),
        Grammar::reference("CreateFunctionStatementSegment"),
        Grammar::reference("DropFunctionStatementSegment"),
        Grammar::reference("CreateModelStatementSegment"),
        Grammar::reference("DropModelStatementSegment"),
        Grammar::reference("DescribeStatementSegment"),
        Grammar::reference("UseStatementSegment"),
        Grammar::reference("ExplainStatementSegment"),
        Grammar::reference("CreateSequenceStatementSegment"),
        Grammar::reference("AlterSequenceStatementSegment"),
        Grammar::reference("DropSequenceStatementSegment"),
        Grammar::reference("CreateTriggerStatementSegment"),
        Grammar::reference("DropTriggerStatementSegment"),
    ];
    assert(views(alternatives@) =~= references(statement_kinds()));
    let terminators = vec![Grammar::reference("DelimiterGrammar")];
    assert(views(terminators@) =~= seq![GrammarView::reference("DelimiterGrammar"@)]);
    Grammar::one_of(alternatives).terminators(terminators)
}

/// The grammar of a wildcard expression.
pub open spec fn wildcard_expression_grammar() -> GrammarView {
    GrammarView::sequence(seq![GrammarView::reference("WildcardIdentifierSegment"@)])
}

/// A wildcard expression: a sequence of one wildcard identifier.
pub fn wildcard_expression_segment() -> (g: Grammar)
    ensures
        g@ =~~= wildcard_expression_grammar(),
{
    let parts = vec![Grammar::reference("WildcardIdentifierSegment")];
    assert(views(parts@) =~= seq![GrammarView::reference("WildcardIdentifierSegment"@)]);
    Grammar::sequence(parts)
}

/// The terminators of the select clause.
pub open spec fn select_clause_terminator_grammars() -> Seq<GrammarView> {
    seq![
        GrammarView::keyword("FROM"@),
        GrammarView::keyword("WHERE"@),
        GrammarView::sequence(seq![GrammarView::keyword("ORDER"@), GrammarView::keyword("BY"@)]),
        GrammarView::keyword("LIMIT"@),
        GrammarView::keyword("OVERLAPS"@),
        GrammarView::reference("SetOperatorSegment"@),
        GrammarView::keyword("FETCH"@),
    ]
}

/// What ends a select clause: `FROM`, `WHERE`, `ORDER BY`, `LIMIT`,
/// `OVERLAPS`, a set operator, or `FETCH`.
pub fn select_clause_terminators() -> (ts: Vec<Grammar>)
    ensures
        views(ts@) =~~= select_clause_terminator_grammars(),
{
    let order_by = vec![Grammar::keyword("ORDER"), Grammar::keyword("BY")];
    assert(views(order_by@) =~= seq![GrammarView::keyword("ORDER"@), GrammarView::keyword("BY"@)]);
    let order_by = Grammar::sequence(order_by);
    let ts = vec![
        Grammar::keyword("FROM"),
        Grammar::keyword("WHERE"),
        order_by,
        Grammar::keyword("LIMIT"),
        Grammar::keyword("OVERLAPS"),
        Grammar::reference("SetOperatorSegment"),
        Grammar::keyword("FETCH"),
    ];
    assert(views(ts@) =~= seq![
        GrammarView::keyword("FROM"@),
        GrammarView::keyword("WHERE"@),
        order_by@,
        GrammarView::keyword("LIMIT"@),
        GrammarView::keyword("OVERLAPS"@),
        GrammarView::reference("SetOperatorSegment"@),
        GrammarView::keyword("FETCH"@),
    ]);
    ts
}


/// A sequence of two keywords, such as `ORDER BY`.
pub open spec fn two_keywords(first: Seq<char>, second: Seq<char>) -> GrammarView {
    GrammarView::sequence(seq![GrammarView::keyword(first), GrammarView::keyword(second)])
}

/// The sequence of the keywords `first` and `second`.
fn keyword_pair(first: &'static str, second: &'static str) -> (g: Grammar)
    ensures
        g@ =~~= two_keywords(first@, second@),
{
    let words = vec![Grammar::keyword(first), Grammar::keyword(second)];
    assert(views(words@) =~= seq![GrammarView::keyword(first@), GrammarView::keyword(second@)]);
    Grammar::sequence(words)
}

/// The alternatives of `FromClauseTerminatorGrammar`, in order.
pub open spec fn from_clause_terminator_grammar_alternatives() -> Seq<GrammarView> {
    seq![
        GrammarView::keyword("WHERE"@),
        GrammarView::keyword("LIMIT"@),
        two_keywords("GROUP"@, "BY"@),
        two_keywords("ORDER"@, "BY"@),
        GrammarView::keyword("HAVING"@),
        GrammarView::keyword("QUALIFY"@),
        GrammarView::keyword("WINDOW"@),
        GrammarView::reference("SetOperatorSegment"@),
        GrammarView::reference("WithNoSchemaBindingClauseSegment"@),
        GrammarView::reference("WithDataClauseSegment"@),
        GrammarView::keyword("FETCH"@),
    ]
}

/// What ends a `FROM` clause. The dialect element `FromClauseTerminatorGrammar`: one of [`from_clause_terminator_grammar_alternatives`].
pub fn from_clause_terminator_grammar() -> (g: Grammar)
    ensures
        g@ =~~= GrammarView::one_of(from_clause_terminator_grammar_alternatives()),
{
    let group_by = keyword_pair("GROUP", "BY");
    let order_by = keyword_pair("ORDER", "BY");
    let alternatives = vec![
        Grammar::keyword("WHERE"),
        Grammar::keyword("LIMIT"),
        group_by,
        order_by,
        Grammar::keyword("HAVING"),
        Grammar::keyword("QUALIFY"),
        Grammar::keyword("WINDOW"),
        Grammar::reference("SetOperatorSegment"),
        Grammar::reference("WithNoSchemaBindingClauseSegment"),
        Grammar::reference("WithDataClauseSegment"),
        Grammar::keyword("FETCH"),
    ];
    assert(views(alternatives@) =~= seq![
        GrammarView::keyword("WHERE"@),
        GrammarView::keyword("LIMIT"@),
        group_by@,
        order_by@,
        GrammarView::keyword("HAVING"@),
        GrammarView::keyword("QUALIFY"@),
        GrammarView::keyword("WINDOW"@),
        GrammarView::reference("SetOperatorSegment"@),
        GrammarView::reference("WithNoSchemaBindingClauseSegment"@),
        GrammarView::reference("WithDataClauseSegment"@),
        GrammarView::keyword("FETCH"@),
    ]);
    Grammar::one_of(alternatives)
}

/// The alternatives of `WhereClauseTerminatorGrammar`, in order.
pub open spec fn where_clause_terminator_grammar_alternatives() -> Seq<GrammarView> {
    seq![
        GrammarView::keyword("LIMIT"@),
        two_keywords("GROUP"@, "BY"@),
        two_keywords("ORDER"@, "BY"@),
        GrammarView::keyword("HAVING"@),
        GrammarView::keyword("QUALIFY"@),
        GrammarView::keyword("WINDOW"@),
        GrammarView::keyword("OVERLAPS"@),
        GrammarView::keyword("FETCH"@),
    ]
}

/// What ends a `WHERE` clause. The dialect element `WhereClauseTerminatorGrammar`: one of [`where_clause_terminator_grammar_alternatives`].
pub fn where_clause_terminator_grammar() -> (g: Grammar)
    ensures
        g@ =~~= GrammarView::one_of(where_clause_terminator_grammar_alternatives()),
{
    let group_by = keyword_pair("GROUP", "BY");
    let order_by = keyword_pair("ORDER", "BY");
    let alternatives = vec![
        Grammar::keyword("LIMIT"),
        group_by,
        order_by,
        Grammar::keyword("HAVING"),
        Grammar::keyword("QUALIFY"),
        Grammar::keyword("WINDOW"),
        Grammar::keyword("OVERLAPS"),
        Grammar::keyword("FETCH"),
    ];
    assert(views(alternatives@) =~= seq![
        GrammarView::keyword("LIMIT"@),
        group_by@,
        order_by@,
        GrammarView::keyword("HAVING"@),
        GrammarView::keyword("QUALIFY"@),
        GrammarView::keyword("WINDOW"@),
        GrammarView::keyword("OVERLAPS"@),
        GrammarView::keyword("FETCH"@),
    ]);
    Grammar::one_of(alternatives)
}

/// The alternatives of `GroupByClauseTerminatorGrammar`, in order.
pub open spec fn group_by_clause_terminator_grammar_alternatives() -> Seq<GrammarView> {
    seq![
        two_keywords("ORDER"@, "BY"@),
        GrammarView::keyword("LIMIT"@),
        GrammarView::keyword("HAVING"@),
        GrammarView::keyword("QUALIFY"@),
        GrammarView::keyword("WINDOW"@),
        GrammarView::keyword("FETCH"@),
    ]
}

/// What ends a `GROUP BY` clause. The dialect element `GroupByClauseTerminatorGrammar`: one of [`group_by_clause_terminator_grammar_alternatives`].
pub fn group_by_clause_terminator_grammar() -> (g: Grammar)
    ensures
        g@ =~~= GrammarView::one_of(group_by_clause_terminator_grammar_alternatives()),
{
    let order_by = keyword_pair("ORDER", "BY");
    let alternatives = vec![
        order_by,
        Grammar::keyword("LIMIT"),
        Grammar::keyword("HAVING"),
        Grammar::keyword("QUALIFY"),
        Grammar::keyword("WINDOW"),
        Grammar::keyword("FETCH"),
    ];
    assert(views(alternatives@) =~= seq![
        order_by@,
        GrammarView::keyword("LIMIT"@),
        GrammarView::keyword("HAVING"@),
        GrammarView::keyword("QUALIFY"@),
        GrammarView::keyword("WINDOW"@),
        GrammarView::keyword("FETCH"@),
    ]);
    Grammar::one_of(alternatives)
}

/// The alternatives of `HavingClauseTerminatorGrammar`, in order.
pub open spec fn having_clause_terminator_grammar_alternatives() -> Seq<GrammarView> {
    seq![
        two_keywords("ORDER"@, "BY"@),
        GrammarView::keyword("LIMIT"@),
        GrammarView::keyword("QUALIFY"@),
        GrammarView::keyword("WINDOW"@),
        GrammarView::keyword("FETCH"@),
    ]
}

/// What ends a `HAVING` clause. The dialect element `HavingClauseTerminatorGrammar`: one of [`having_clause_terminator_grammar_alternatives`].
pub fn having_clause_terminator_grammar() -> (g: Grammar)
    ensures
        g@ =~~= GrammarView::one_of(having_clause_terminator_grammar_alternatives()),
{
    let order_by = keyword_pair("ORDER", "BY");
    let alternatives = vec![
        order_by,
        Grammar::keyword("LIMIT"),
        Grammar::keyword("QUALIFY"),
        Grammar::keyword("WINDOW"),
        Grammar::keyword("FETCH"),
    ];
    assert(views(alternatives@) =~= seq![
        order_by@,
        GrammarView::keyword("LIMIT"@),
        GrammarView::keyword("QUALIFY"@),
        GrammarView::keyword("WINDOW"@),
        GrammarView::keyword("FETCH"@),
    ]);
    Grammar::one_of(alternatives)
}

/// The alternatives of `OrderByClauseTerminators`, in order.
pub open spec fn order_by_clause_terminators_alternatives() -> Seq<GrammarView> {
    seq![
        GrammarView::keyword("LIMIT"@),
        GrammarView::keyword("HAVING"@),
        GrammarView::keyword("QUALIFY"@),
        GrammarView::keyword("WINDOW"@),
        GrammarView::reference("FrameClauseUnitGrammar"@),
        GrammarView::keyword("SEPARATOR"@),
        GrammarView::keyword("FETCH"@),
    ]
}

/// What ends an `ORDER BY` clause. The dialect element `OrderByClauseTerminators`: one of [`order_by_clause_terminators_alternatives`].
pub fn order_by_clause_terminators() -> (g: Grammar)
    ensures
        g@ =~~= GrammarView::one_of(order_by_clause_terminators_alternatives()),
{
    let alternatives = vec![
        Grammar::keyword("LIMIT"),
        Grammar::keyword("HAVING"),
        Grammar::keyword("QUALIFY"),
        Grammar::keyword("WINDOW"),
        Grammar::reference("FrameClauseUnitGrammar"),
        Grammar::keyword("SEPARATOR"),
        Grammar::keyword("FETCH"),
    ];
    assert(views(alternatives@) =~= seq![
        GrammarView::keyword("LIMIT"@),
        GrammarView::keyword("HAVING"@),
        GrammarView::keyword("QUALIFY"@),
        GrammarView::keyword("WINDOW"@),
        GrammarView::reference("FrameClauseUnitGrammar"@),
        GrammarView::keyword("SEPARATOR"@),
        GrammarView::keyword("FETCH"@),
    ]);
    Grammar::one_of(alternatives)
}

/// The functions that ANSI SQL calls without parentheses.
pub fn bare_functions() -> (s: WordSet)
    ensures
        s@ == set!["current_timestamp"@, "current_time"@, "current_date"@],
{
    let words = ["current_timestamp", "current_time", "current_date"];
    let s = WordSet::from_words(&words);
    assert(texts(words@) =~= seq!["current_timestamp"@, "current_time"@, "current_date"@]);
    assert(s@ =~= set!["current_timestamp"@, "current_time"@, "current_date"@]);
    s
}

/// The units of ANSI date and time intervals.
pub open spec fn datetime_unit_names() -> Seq<Seq<char>> {
    seq!["DAY"@, "DAYOFYEAR"@, "HOUR"@, "MILLISECOND"@, "MINUTE"@, "MONTH"@, "QUARTER"@, "SECOND"@, "WEEK"@, "WEEKDAY"@, "YEAR"@]
}

/// The units of ANSI date and time intervals: [`datetime_unit_names`].
pub fn datetime_units() -> (s: WordSet)
    ensures
        s@ == datetime_unit_names().to_set(),
{
    let words = ["DAY", "DAYOFYEAR", "HOUR", "MILLISECOND", "MINUTE", "MONTH", "QUARTER", "SECOND", "WEEK", "WEEKDAY", "YEAR"];
    let s = WordSet::from_words(&words);
    assert(texts(words@) =~= datetime_unit_names());
    s
}

/// The ANSI functions that take a date part.
pub fn date_part_function_names() -> (s: WordSet)
    ensures
        s@ == set!["DATEADD"@],
{
    let words = ["DATEADD"];
    let s = WordSet::from_words(&words);
    assert(texts(words@) =~= seq!["DATEADD"@]);
    assert(texts(words@)[0] == "DATEADD"@);
    assert(s@ =~= set!["DATEADD"@]);
    s
}

/// A kind of bracket: its name, the dialect elements that open and close it,
/// and whether the parser keeps bracketed spans of it from one pass to the
/// next.
pub type BracketPair = (&'static str, &'static str, &'static str, bool);

/// The ANSI brackets: round ones (kept between passes), square and curly ones.
pub fn bracket_pairs() -> (pairs: Vec<BracketPair>)
    ensures
        pairs@.len() == 3,
        pairs@[0].0@ == "round"@ && pairs@[0].1@ == "StartBracketSegment"@ && pairs@[0].2@ == "EndBracketSegment"@
            && pairs@[0].3,
        pairs@[1].0@ == "square"@ && pairs@[1].1@ == "StartSquareBracketSegment"@ && pairs@[1].2@
            == "EndSquareBracketSegment"@ && !pairs@[1].3,
        pairs@[2].0@ == "curly"@ && pairs@[2].1@ == "StartCurlyBracketSegment"@ && pairs@[2].2@
            == "EndCurlyBracketSegment"@ && !pairs@[2].3,
{
    vec![
        ("round", "StartBracketSegment", "EndBracketSegment", true),
        ("square", "StartSquareBracketSegment", "EndSquareBracketSegment", false),
        ("curly", "StartCurlyBracketSegment", "EndCurlyBracketSegment", false),
    ]
}

/// The ANSI lexer rules, in the order in which the lexer tries them.
pub open spec fn ansi_lexer_table() -> Seq<LexRuleView> {
    seq![
        LexRuleView::regex("whitespace"@, r"[^\S\r\n]+"@, TokenKind::Whitespace),
        LexRuleView::regex("inline_comment"@, r"(--|#)[^\n]*"@, TokenKind::InlineComment),
        LexRuleView {
            subdivider: Some(LexPatternView {
                name: "newline"@,
                recogniser: RecogniserView::Legacy(StartTest::Anything, r"\r\n|\n"@),
                token: TokenKind::Newline,
            }),
            trimmer: Some(LexPatternView {
                name: "whitespace"@,
                recogniser: RecogniserView::Legacy(StartTest::Anything, r"[^\S\r\n]+"@),
                token: TokenKind::Whitespace,
            }),
            ..LexRuleView::native("block_comment"@, Scanner::BlockComment, TokenKind::BlockComment)
        },
        LexRuleView::regex("single_quote"@, r"'([^'\\]|\\.|'')*'"@, TokenKind::SingleQuote),
        LexRuleView::regex("double_quote"@, r#""([^"\\]|\\.)*""#@, TokenKind::DoubleQuote),
        LexRuleView::regex("back_quote"@, r"`[^`]*`"@, TokenKind::BackQuote),
        LexRuleView::legacy("dollar_quote"@, StartTest::DollarSign, r"\$(\w*)\$[\s\S]*?\$\1\$"@, TokenKind::DollarQuote),
        LexRuleView::native("numeric_literal"@, Scanner::NumericLiteral, TokenKind::NumericLiteral),
        LexRuleView::regex("like_operator"@, r"!?~~?\*?"@, TokenKind::LikeOperator),
        LexRuleView::regex("newline"@, r"(\r\n|\n)"@, TokenKind::Newline),
        LexRuleView::literal("casting_operator"@, "::"@, TokenKind::CastingOperator),
        LexRuleView::literal("equals"@, "="@, TokenKind::RawComparisonOperator),
        LexRuleView::literal("greater_than"@, ">"@, TokenKind::RawComparisonOperator),
        LexRuleView::literal("less_than"@, "<"@, TokenKind::RawComparisonOperator),
        LexRuleView::literal("not"@, "!"@, TokenKind::RawComparisonOperator),
        LexRuleView::literal("dot"@, "."@, TokenKind::Dot),
        LexRuleView::literal("comma"@, ","@, TokenKind::Comma),
        LexRuleView::literal("plus"@, "+"@, TokenKind::Plus),
        LexRuleView::literal("minus"@, "-"@, TokenKind::Minus),
        LexRuleView::literal("divide"@, "/"@, TokenKind::Divide),
        LexRuleView::literal("percent"@, "%"@, TokenKind::Percent),
        LexRuleView::literal("question"@, "?"@, TokenKind::Question),
        LexRuleView::literal("ampersand"@, "&"@, TokenKind::Ampersand),
        LexRuleView::literal("vertical_bar"@, "|"@, TokenKind::VerticalBar),
        LexRuleView::literal("caret"@, "^"@, TokenKind::Caret),
        LexRuleView::literal("star"@, "*"@, TokenKind::Star),
        LexRuleView::literal("start_bracket"@, "("@, TokenKind::StartBracket),
        LexRuleView::literal("end_bracket"@, ")"@, TokenKind::EndBracket),
        LexRuleView::literal("start_square_bracket"@, "["@, TokenKind::StartSquareBracket),
        LexRuleView::literal("end_square_bracket"@, "]"@, TokenKind::EndSquareBracket),
        LexRuleView::literal("start_curly_bracket"@, "{"@, TokenKind::StartCurlyBracket),
        LexRuleView::literal("end_curly_bracket"@, "}"@, TokenKind::EndCurlyBracket),
        LexRuleView::literal("colon"@, ":"@, TokenKind::Colon),
        LexRuleView::literal("semicolon"@, ";"@, TokenKind::Semicolon),
        LexRuleView::regex("word"@, "[\\p{L}\\p{N}_]+"@, TokenKind::Word),
    ]
}

/// The ANSI lexer rules; see [`ansi_lexer_table`].
pub fn lexer_matchers() -> (rules: Vec<LexRule>)
    ensures
        rules_view(rules@) == ansi_lexer_table(),
{
    let rules = vec![
        LexRule::regex("whitespace", r"[^\S\r\n]+", TokenKind::Whitespace),
        LexRule::regex("inline_comment", r"(--|#)[^\n]*", TokenKind::InlineComment),
        LexRule::native("block_comment", Scanner::BlockComment, TokenKind::BlockComment)
            .subdivider(LexPattern::legacy("newline", StartTest::Anything, r"\r\n|\n", TokenKind::Newline))
            .post_subdivide(
                LexPattern::legacy("whitespace", StartTest::Anything, r"[^\S\r\n]+", TokenKind::Whitespace),
            ),
        LexRule::regex("single_quote", r"'([^'\\]|\\.|'')*'", TokenKind::SingleQuote),
        LexRule::regex("double_quote", r#""([^"\\]|\\.)*""#, TokenKind::DoubleQuote),
        LexRule::regex("back_quote", r"`[^`]*`", TokenKind::BackQuote),
        LexRule::legacy("dollar_quote", StartTest::DollarSign, r"\$(\w*)\$[\s\S]*?\$\1\$", TokenKind::DollarQuote),
        LexRule::native("numeric_literal", Scanner::NumericLiteral, TokenKind::NumericLiteral),
        LexRule::regex("like_operator", r"!?~~?\*?", TokenKind::LikeOperator),
        LexRule::regex("newline", r"(\r\n|\n)", TokenKind::Newline),
        LexRule::literal("casting_operator", "::", TokenKind::CastingOperator),
        LexRule::literal("equals", "=", TokenKind::RawComparisonOperator),
        LexRule::literal("greater_than", ">", TokenKind::RawComparisonOperator),
        LexRule::literal("less_than", "<", TokenKind::RawComparisonOperator),
        LexRule::literal("not", "!", TokenKind::RawComparisonOperator),
        LexRule::literal("dot", ".", TokenKind::Dot),
        LexRule::literal("comma", ",", TokenKind::Comma),
        LexRule::literal("plus", "+", TokenKind::Plus),
        LexRule::literal("minus", "-", TokenKind::Minus),
        LexRule::literal("divide", "/", TokenKind::Divide),
        LexRule::literal("percent", "%", TokenKind::Percent),
        LexRule::literal("question", "?", TokenKind::Question),
        LexRule::literal("ampersand", "&", TokenKind::Ampersand),
        LexRule::literal("vertical_bar", "|", TokenKind::VerticalBar),
        LexRule::literal("caret", "^", TokenKind::Caret),
        LexRule::literal("star", "*", TokenKind::Star),
        LexRule::literal("start_bracket", "(", TokenKind::StartBracket),
        LexRule::literal("end_bracket", ")", TokenKind::EndBracket),
        LexRule::literal("start_square_bracket", "[", TokenKind::StartSquareBracket),
        LexRule::literal("end_square_bracket", "]", TokenKind::EndSquareBracket),
        LexRule::literal("start_curly_bracket", "{", TokenKind::StartCurlyBracket),
        LexRule::literal("end_curly_bracket", "}", TokenKind::EndCurlyBracket),
        LexRule::literal("colon", ":", TokenKind::Colon),
        LexRule::literal("semicolon", ";", TokenKind::Semicolon),
        LexRule::regex("word", "[\\p{L}\\p{N}_]+", TokenKind::Word),
    ];
    assert(rules_view(rules@) =~= ansi_lexer_table());
    rules
}


/// The position of the ANSI lexer rule named `name`, told apart by the
/// length of the name and its first and third characters; -1 for a name that
/// none of the rules has.
pub open spec fn ansi_rule_position(name: Seq<char>) -> int {
    if name.len() == 10 && name[0] == 'w' && name[2] == 'i' {
        0
    } else if name.len() == 14 && name[0] == 'i' && name[2] == 'l' {
        1
    } else if name.len() == 13 && name[0] == 'b' && name[2] == 'o' {
        2
    } else if name.len() == 12 && name[0] == 's' && name[2] == 'n' {
        3
    } else if name.len() == 12 && name[0] == 'd' && name[2] == 'u' {
        4
    } else if name.len() == 10 && name[0] == 'b' && name[2] == 'c' {
        5
    } else if name.len() == 12 && name[0] == 'd' && name[2] == 'l' {
        6
    } else if name.len() == 15 && name[0] == 'n' && name[2] == 'm' {
        7
    } else if name.len() == 13 && name[0] == 'l' && name[2] == 'k' {
        8
    } else if name.len() == 7 && name[0] == 'n' && name[2] == 'w' {
        9
    } else if name.len() == 16 && name[0] == 'c' && name[2] == 's' {
        10
    } else if name.len() == 6 && name[0] == 'e' && name[2] == 'u' {
        11
    } else if name.len() == 12 && name[0] == 'g' && name[2] == 'e' {
        12
    } else if name.len() == 9 && name[0] == 'l' && name[2] == 's' {
        13
    } else if name.len() == 3 && name[0] == 'n' && name[2] == 't' {
        14
    } else if name.len() == 3 && name[0] == 'd' && name[2] == 't' {
        15
    } else if name.len() == 5 && name[0] == 'c' && name[2] == 'm' {
        16
    } else if name.len() == 4 && name[0] == 'p' && name[2] == 'u' {
        17
    } else if name.len() == 5 && name[0] == 'm' && name[2] == 'n' {
        18
    } else if name.len() == 6 && name[0] == 'd' && name[2] == 'v' {
        19
    } else if name.len() == 7 && name[0] == 'p' && name[2] == 'r' {
        20
    } else if name.len() == 8 && name[0] == 'q' && name[2] == 'e' {
        21
    } else if name.len() == 9 && name[0] == 'a' && name[2] == 'p' {
        22
    } else if name.len() == 12 && name[0] == 'v' && name[2] == 'r' {
        23
    } else if name.len() == 5 && name[0] == 'c' && name[2] == 'r' {
        24
    } else if name.len() == 4 && name[0] == 's' && name[2] == 'a' {
        25
    } else if name.len() == 13 && name[0] == 's' && name[2] == 'a' {
        26
    } else if name.len() == 11 && name[0] == 'e' && name[2] == 'd' {
        27
    } else if name.len() == 20 && name[0] == 's' && name[2] == 'a' {
        28
    } else if name.len() == 18 && name[0] == 'e' && name[2] == 'd' {
        29
    } else if name.len() == 19 && name[0] == 's' && name[2] == 'a' {
        30
    } else if name.len() == 17 && name[0] == 'e' && name[2] == 'd' {
        31
    } else if name.len() == 5 && name[0] == 'c' && name[2] == 'l' {
        32
    } else if name.len() == 9 && name[0] == 's' && name[2] == 'm' {
        33
    } else if name.len() == 4 && name[0] == 'w' && name[2] == 'r' {
        34
    } else {
        -1
    }
}

/// Each ANSI lexer rule is at the position that its name gives.
pub proof fn lemma_ansi_rule_positions()
    ensures
        forall|i: int|
            0 <= i < ansi_lexer_table().len() ==> ansi_rule_position(#[trigger] ansi_lexer_table()[i].name()) == i,
{
    reveal_strlit("whitespace");
    reveal_strlit("inline_comment");
    reveal_strlit("block_comment");
    reveal_strlit("single_quote");
    reveal_strlit("double_quote");
    reveal_strlit("back_quote");
    reveal_strlit("dollar_quote");
    reveal_strlit("numeric_literal");
    reveal_strlit("like_operator");
    reveal_strlit("newline");
    reveal_strlit("casting_operator");
    reveal_strlit("equals");
    reveal_strlit("greater_than");
    reveal_strlit("less_than");
    reveal_strlit("not");
    reveal_strlit("dot");
    reveal_strlit("comma");
    reveal_strlit("plus");
    reveal_strlit("minus");
    reveal_strlit("divide");
    reveal_strlit("percent");
    reveal_strlit("question");
    reveal_strlit("ampersand");
    reveal_strlit("vertical_bar");
    reveal_strlit("caret");
    reveal_strlit("star");
    reveal_strlit("start_bracket");
    reveal_strlit("end_bracket");
    reveal_strlit("start_square_bracket");
    reveal_strlit("end_square_bracket");
    reveal_strlit("start_curly_bracket");
    reveal_strlit("end_curly_bracket");
    reveal_strlit("colon");
    reveal_strlit("semicolon");
    reveal_strlit("word");
    let t = ansi_lexer_table();
    assert forall|i: int| 0 <= i < t.len() implies ansi_rule_position(#[trigger] t[i].name()) == i by {}
}

/// The ANSI lexer rules have distinct names, so each one can be found again
/// by its name when a dialect inserts rules in front of it or patches it.
pub proof fn law_ansi_lexer_names_distinct()
    ensures
        names_distinct(ansi_lexer_table()),
{
    lemma_ansi_rule_positions();
}

} // verus!
