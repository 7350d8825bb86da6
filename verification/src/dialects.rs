//! The Athena, BigQuery and ClickHouse dialects assembled from the ANSI
//! dialect: their names, keyword and word sets, brackets, lexer rules and
//! grammar changes, before and after expansion.

use crate::ansi::ansi_lexer_table;
use crate::ansi_dialect::{ansi_raw_dialect, ansi_raw_dialect_view, keyword_set};
use crate::athena_grammar::{apply_athena_grammar_changes, athena_grammar_changes};
use crate::bigquery_grammar::{
    apply_bigquery_grammar_changes, bigquery_grammar_changes, lemma_bigquery_changes_set_operator_segment, set_operator_segment_element,
};
use crate::clickhouse_grammar::{
    apply_clickhouse_grammar_changes, clickhouse_grammar_changes, lemma_clickhouse_changes_pre_where_clause_segment,
    pre_where_clause_segment_element,
};
use crate::dialect::{BracketPairView, DialectModel, DialectName, DialectView, ElementView, expanded, pair_set, pair_view};
use crate::grammar::GrammarView;
use crate::dialect_lexers::{
    athena_added_rules, athena_lexer_matchers, bigquery_added_rules, bigquery_lexer_matchers, bigquery_replaced_rules,
    clickhouse_added_rules, clickhouse_lexer_matchers,
};
use crate::dialect_sets::{
    angle_bracket_pair, bigquery_added_datetime_units, bigquery_date_part_function_name_list,
    bigquery_date_part_function_names, bigquery_datetime_units, bigquery_value_table_functions,
    clickhouse_datetime_unit_list, clickhouse_datetime_units,
};
use crate::keywords::{keyword_list, text_lines};
use crate::lexer_rules::{inserted, patched};
use crate::sets::texts;
use vstd::prelude::*;

verus! {

/// The angle brackets of Athena and BigQuery.
pub open spec fn angle_brackets() -> Set<BracketPairView> {
    set![("angle"@, "StartAngleBracketSegment"@, "EndAngleBracketSegment"@, false)]
}

/// Adds the angle brackets to `d`.
fn add_angle_brackets(d: &mut DialectModel)
    ensures
        final(d)@ == old(d)@.with_brackets("angle_bracket_pairs"@, angle_brackets()),
{
    let pairs = vec![angle_bracket_pair()];
    proof {
        let f = |p: (&'static str, &'static str, &'static str, bool)| pair_view(p);
        let s = pairs@.map_values(f);
        assert(s =~= seq![("angle"@, "StartAngleBracketSegment"@, "EndAngleBracketSegment"@, false)]);
        assert forall|x: BracketPairView| s.to_set().contains(x) <==> angle_brackets().contains(x) by {
            if s.contains(x) {
                let i = choose|i: int| 0 <= i < s.len() && s[i] == x;
                assert(i == 0);
            }
            if angle_brackets().contains(x) {
                assert(s[0] == x);
            }
        }
        assert(pair_set(pairs@) =~= angle_brackets());
    }
    d.add_bracket_pairs("angle_bracket_pairs", &pairs);
}

/// The Athena dialect before expansion: the ANSI one under the Athena name,
/// with Athena's own unreserved and reserved keywords, its lexer rule for
/// `->`, angle brackets, and its grammar changes.
pub open spec fn athena_raw_dialect_view(
    ansi_unreserved: Seq<char>,
    ansi_reserved: Seq<char>,
    athena_unreserved: Seq<Seq<char>>,
    athena_reserved: Seq<Seq<char>>,
) -> DialectView {
    let d = ansi_raw_dialect_view(ansi_unreserved, ansi_reserved);
    let d = DialectView { name: DialectName::Athena, ..d };
    let d = d.with_set("unreserved_keywords"@, d.set("unreserved_keywords"@).union(athena_unreserved.to_set()));
    let d = d.with_set("reserved_keywords"@, d.set("reserved_keywords"@).union(athena_reserved.to_set()));
    let d = d.with_lexer(inserted(ansi_lexer_table(), athena_added_rules(), "like_operator"@));
    let d = d.with_brackets("angle_bracket_pairs"@, angle_brackets());
    athena_grammar_changes(d)
}

/// The Athena dialect before expansion; see [`athena_raw_dialect_view`].
pub fn athena_raw_dialect(
    ansi_unreserved: &'static str,
    ansi_reserved: &'static str,
    athena_unreserved: &[&'static str],
    athena_reserved: &[&'static str],
) -> (d: DialectModel)
    ensures
        d@ == athena_raw_dialect_view(ansi_unreserved@, ansi_reserved@, texts(athena_unreserved@), texts(athena_reserved@)),
{
    let mut d = ansi_raw_dialect(ansi_unreserved, ansi_reserved);
    d.name = DialectName::Athena;
    d.extend_set("unreserved_keywords", athena_unreserved);
    d.extend_set("reserved_keywords", athena_reserved);
    d.set_lexer(athena_lexer_matchers());
    add_angle_brackets(&mut d);
    apply_athena_grammar_changes(&mut d);
    d
}

/// The Athena dialect, expanded.
pub fn athena_dialect(
    ansi_unreserved: &'static str,
    ansi_reserved: &'static str,
    athena_unreserved: &[&'static str],
    athena_reserved: &[&'static str],
) -> (d: DialectModel)
    ensures
        d@ == expanded(
            athena_raw_dialect_view(ansi_unreserved@, ansi_reserved@, texts(athena_unreserved@), texts(athena_reserved@)),
        ),
{
    let mut d = athena_raw_dialect(ansi_unreserved, ansi_reserved, athena_unreserved, athena_reserved);
    d.expand();
    d
}

/// The BigQuery word sets: its own keyword lists (one keyword per line) in
/// place of the ANSI ones, more date and time units, the units only some
/// functions take, its date-part functions, `UNNEST` as a value table
/// function, and angle brackets.
pub open spec fn bigquery_sets(d: DialectView, unreserved: Seq<char>, reserved: Seq<char>) -> DialectView {
    let d = d.with_set("unreserved_keywords"@, keyword_list(text_lines(unreserved)).to_set());
    let d = d.with_set("reserved_keywords"@, keyword_list(text_lines(reserved)).to_set());
    let d = d.with_set("datetime_units"@, d.set("datetime_units"@).union(bigquery_added_datetime_units().to_set()));
    let d = d.with_set(
        "extended_datetime_units"@,
        d.set("extended_datetime_units"@).union(seq!["DATE"@, "DATETIME"@, "TIME"@].to_set()),
    );
    let d = d.with_set("date_part_function_name"@, bigquery_date_part_function_name_list().to_set());
    let d = d.with_set("value_table_functions"@, d.set("value_table_functions"@).insert("UNNEST"@));
    d.with_brackets("angle_bracket_pairs"@, angle_brackets())
}

fn apply_bigquery_sets(d: &mut DialectModel, unreserved: &'static str, reserved: &'static str)
    ensures
        final(d)@ == bigquery_sets(old(d)@, unreserved@, reserved@),
{
    d.put_set("unreserved_keywords", keyword_set(unreserved));
    d.put_set("reserved_keywords", keyword_set(reserved));
    let mut units = d.set("datetime_units");
    bigquery_datetime_units(&mut units);
    d.put_set("datetime_units", units);
    let extended = ["DATE", "DATETIME", "TIME"];
    assert(texts(extended@) =~= seq!["DATE"@, "DATETIME"@, "TIME"@]);
    d.extend_set("extended_datetime_units", &extended);
    let mut names = d.set("date_part_function_name");
    bigquery_date_part_function_names(&mut names);
    d.put_set("date_part_function_name", names);
    let mut functions = d.set("value_table_functions");
    bigquery_value_table_functions(&mut functions);
    d.put_set("value_table_functions", functions);
    add_angle_brackets(d);
}

/// The BigQuery dialect before expansion: the ANSI one under the BigQuery
/// name, with its lexer rules, its word sets (see [`bigquery_sets`]) and its
/// grammar changes.
pub open spec fn bigquery_raw_dialect_view(
    ansi_unreserved: Seq<char>,
    ansi_reserved: Seq<char>,
    unreserved: Seq<char>,
    reserved: Seq<char>,
) -> DialectView {
    let d = ansi_raw_dialect_view(ansi_unreserved, ansi_reserved);
    let d = DialectView { name: DialectName::Bigquery, ..d };
    let d = d.with_lexer(patched(inserted(ansi_lexer_table(), bigquery_added_rules(), "equals"@), bigquery_replaced_rules()));
    let d = bigquery_sets(d, unreserved, reserved);
    bigquery_grammar_changes(d)
}

/// The BigQuery dialect before expansion; see [`bigquery_raw_dialect_view`].
pub fn bigquery_raw_dialect(
    ansi_unreserved: &'static str,
    ansi_reserved: &'static str,
    unreserved: &'static str,
    reserved: &'static str,
) -> (d: DialectModel)
    ensures
        d@ == bigquery_raw_dialect_view(ansi_unreserved@, ansi_reserved@, unreserved@, reserved@),
{
    let mut d = ansi_raw_dialect(ansi_unreserved, ansi_reserved);
    d.name = DialectName::Bigquery;
    d.set_lexer(bigquery_lexer_matchers());
    apply_bigquery_sets(&mut d, unreserved, reserved);
    apply_bigquery_grammar_changes(&mut d);
    d
}

/// The BigQuery dialect, expanded.
pub fn bigquery_dialect(
    ansi_unreserved: &'static str,
    ansi_reserved: &'static str,
    unreserved: &'static str,
    reserved: &'static str,
) -> (d: DialectModel)
    ensures
        d@ == expanded(bigquery_raw_dialect_view(ansi_unreserved@, ansi_reserved@, unreserved@, reserved@)),
{
    let mut d = bigquery_raw_dialect(ansi_unreserved, ansi_reserved, unreserved, reserved);
    d.expand();
    d
}

/// The ClickHouse dialect before expansion: the ANSI one under the ClickHouse
/// name, with its own unreserved keywords, its date and time units, its
/// lexer rule for `->` and its grammar changes.
pub open spec fn clickhouse_raw_dialect_view(
    ansi_unreserved: Seq<char>,
    ansi_reserved: Seq<char>,
    unreserved: Seq<Seq<char>>,
) -> DialectView {
    let d = ansi_raw_dialect_view(ansi_unreserved, ansi_reserved);
    let d = DialectView { name: DialectName::Clickhouse, ..d };
    let d = d.with_set("unreserved_keywords"@, d.set("unreserved_keywords"@).union(unreserved.to_set()));
    let d = d.with_set("datetime_units"@, clickhouse_datetime_unit_list().to_set());
    let d = d.with_lexer(inserted(ansi_lexer_table(), clickhouse_added_rules(), "newline"@));
    clickhouse_grammar_changes(d)
}

/// The ClickHouse dialect before expansion; see [`clickhouse_raw_dialect_view`].
pub fn clickhouse_raw_dialect(
    ansi_unreserved: &'static str,
    ansi_reserved: &'static str,
    unreserved: &[&'static str],
) -> (d: DialectModel)
    ensures
        d@ == clickhouse_raw_dialect_view(ansi_unreserved@, ansi_reserved@, texts(unreserved@)),
{
    let mut d = ansi_raw_dialect(ansi_unreserved, ansi_reserved);
    d.name = DialectName::Clickhouse;
    d.extend_set("unreserved_keywords", unreserved);
    let mut units = d.set("datetime_units");
    clickhouse_datetime_units(&mut units);
    d.put_set("datetime_units", units);
    d.set_lexer(clickhouse_lexer_matchers());
    apply_clickhouse_grammar_changes(&mut d);
    d
}

/// The ClickHouse dialect, expanded.
pub fn clickhouse_dialect(
    ansi_unreserved: &'static str,
    ansi_reserved: &'static str,
    unreserved: &[&'static str],
) -> (d: DialectModel)
    ensures
        d@ == expanded(clickhouse_raw_dialect_view(ansi_unreserved@, ansi_reserved@, texts(unreserved@))),
{
    let mut d = clickhouse_raw_dialect(ansi_unreserved, ansi_reserved, unreserved);
    d.expand();
    d
}


/// In the BigQuery dialect `SetOperatorSegment` is a `set_operator` node that
/// is one of `UNION` followed by `DISTINCT` or `ALL`, `INTERSECT DISTINCT` and
/// `EXCEPT DISTINCT`: `UNION ALL` and `UNION DISTINCT` are set operators. The
/// BigQuery grammar changes set it so whatever dialect they start from.
pub proof fn law_bigquery_set_operators(
    d: DialectView,
    ansi_unreserved: Seq<char>,
    ansi_reserved: Seq<char>,
    unreserved: Seq<char>,
    reserved: Seq<char>,
)
    ensures
        ({
            let union_op = GrammarView::sequence(seq![
                GrammarView::keyword("UNION"@),
                GrammarView::one_of(seq![GrammarView::keyword("DISTINCT"@), GrammarView::keyword("ALL"@)]),
            ]);
            let intersect = GrammarView::sequence(seq![GrammarView::keyword("INTERSECT"@), GrammarView::keyword("DISTINCT"@)]);
            let except = GrammarView::sequence(seq![GrammarView::keyword("EXCEPT"@), GrammarView::keyword("DISTINCT"@)]);
            let op = ElementView::Node { kind: "set_operator"@, grammar: GrammarView::one_of(seq![union_op, intersect, except]) };
            &&& bigquery_grammar_changes(d).element("SetOperatorSegment"@) == Some(op)
            &&& bigquery_raw_dialect_view(ansi_unreserved, ansi_reserved, unreserved, reserved).element("SetOperatorSegment"@) == Some(op)
        }),
{
    let union_op = GrammarView::sequence(seq![
        GrammarView::keyword("UNION"@),
        GrammarView::one_of(seq![GrammarView::keyword("DISTINCT"@), GrammarView::keyword("ALL"@)]),
    ]);
    let intersect = GrammarView::sequence(seq![GrammarView::keyword("INTERSECT"@), GrammarView::keyword("DISTINCT"@)]);
    let except = GrammarView::sequence(seq![GrammarView::keyword("EXCEPT"@), GrammarView::keyword("DISTINCT"@)]);
    let op = ElementView::Node { kind: "set_operator"@, grammar: GrammarView::one_of(seq![union_op, intersect, except]) };
    assert(set_operator_segment_element() =~~= op);
    lemma_bigquery_changes_set_operator_segment(d);
    let a = ansi_raw_dialect_view(ansi_unreserved, ansi_reserved);
    let a = DialectView { name: DialectName::Bigquery, ..a };
    let a = a.with_lexer(patched(inserted(ansi_lexer_table(), bigquery_added_rules(), "equals"@), bigquery_replaced_rules()));
    lemma_bigquery_changes_set_operator_segment(bigquery_sets(a, unreserved, reserved));
}

/// In the ClickHouse dialect `PreWhereClauseSegment` is a `pre_where_clause`
/// node: `PREWHERE`, an implicit indent, then an `ExpressionSegment` in round
/// brackets or a bare one, then a dedent; so `PREWHERE x = 1` and
/// `PREWHERE (x = 1)` are both `PREWHERE` clauses. The ClickHouse grammar
/// changes set it so whatever dialect they start from.
pub proof fn law_clickhouse_prewhere_clause(
    d: DialectView,
    ansi_unreserved: Seq<char>,
    ansi_reserved: Seq<char>,
    unreserved: Seq<Seq<char>>,
)
    ensures
        ({
            let bracketed = GrammarView::Bracketed {
                elements: seq![GrammarView::reference("ExpressionSegment"@)],
                bracket_type: "round"@,
            };
            let condition = GrammarView::one_of(seq![bracketed, GrammarView::reference("ExpressionSegment"@)]);
            let prewhere = ElementView::Node {
                kind: "pre_where_clause"@,
                grammar: GrammarView::sequence(seq![GrammarView::keyword("PREWHERE"@), GrammarView::ImplicitIndent, condition, GrammarView::Dedent]),
            };
            &&& clickhouse_grammar_changes(d).element("PreWhereClauseSegment"@) == Some(prewhere)
            &&& clickhouse_raw_dialect_view(ansi_unreserved, ansi_reserved, unreserved).element("PreWhereClauseSegment"@) == Some(prewhere)
        }),
{
    let bracketed = GrammarView::Bracketed {
        elements: seq![GrammarView::reference("ExpressionSegment"@)],
        bracket_type: "round"@,
    };
    let condition = GrammarView::one_of(seq![bracketed, GrammarView::reference("ExpressionSegment"@)]);
    let prewhere = ElementView::Node {
        kind: "pre_where_clause"@,
        grammar: GrammarView::sequence(seq![GrammarView::keyword("PREWHERE"@), GrammarView::ImplicitIndent, condition, GrammarView::Dedent]),
    };
    assert(pre_where_clause_segment_element() =~~= prewhere);
    lemma_clickhouse_changes_pre_where_clause_segment(d);
    let a = ansi_raw_dialect_view(ansi_unreserved, ansi_reserved);
    let a = DialectView { name: DialectName::Clickhouse, ..a };
    let a = a.with_set("unreserved_keywords"@, a.set("unreserved_keywords"@).union(unreserved.to_set()));
    let a = a.with_set("datetime_units"@, clickhouse_datetime_unit_list().to_set());
    let a = a.with_lexer(inserted(ansi_lexer_table(), clickhouse_added_rules(), "newline"@));
    lemma_clickhouse_changes_pre_where_clause_segment(a);
}

} // verus!
