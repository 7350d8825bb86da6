//! The DB2 dialect assembled from the expanded ANSI dialect: its name, its
//! keywords, its join and clause grammars, its lexer rules and the elements it
//! adds.

use crate::ansi::statement_segment;
use crate::ansi_dialect::{ansi_dialect, ansi_raw_dialect_view};
use crate::db2::{ansi_clause_terminators, clause_terminators, with_offset};
use crate::db2_library::{add_db2_library, db2_library, offset_clause_segment_element, within_group_clause_segment_element, right_arrow_segment_element, named_argument_segment_element, post_function_grammar_element, declare_distribution_clause_segment_element, labeled_duration_grammar_element};
use crate::dialect::{DialectModel, DialectName, DialectView, ElementView, expanded, has_grammar, law_expansion_keeps_elements_and_covers_keywords};
use crate::ansi_laws::{law_ansi_clause_terminators_in_library, law_ansi_library_holds_the_fragments};
use crate::db2::law_db2_terminators_add_offset;
use crate::ansi::{references, statement_kinds};
use crate::dialect_lexers::{db2_added_rules, db2_lexer_matchers, db2_replaced_rules};
use crate::ansi::ansi_lexer_table;
use crate::grammar::{Grammar, GrammarView, ParseMode, views};
use crate::lexer_rules::{inserted, patched};
use crate::sets::texts;
use vstd::prelude::*;

verus! {

/// The dialect with the grammars of `ts` put in, one after the other (see
/// [`DialectView::with_grammar`]).
pub open spec fn with_grammars(d: DialectView, ts: Seq<(Seq<char>, GrammarView)>) -> DialectView
    decreases ts.len(),
{
    if ts.len() == 0 {
        d
    } else {
        with_grammars(d, ts.drop_last()).with_grammar(ts.last().0, ts.last().1)
    }
}

/// The DB2 clause terminators: each ANSI one with `OFFSET` as one more alternative.
pub open spec fn db2_clause_terminators() -> Seq<(Seq<char>, GrammarView)> {
    ansi_clause_terminators().map_values(|t: (Seq<char>, GrammarView)| (t.0, with_offset(t.1)))
}

/// The DB2 statement grammar: the ANSI one with the stored-procedure call and
/// the declaration of global temporary tables as two more alternatives.
pub open spec fn db2_statement_grammar() -> GrammarView {
    (GrammarView::OneOf {
        elements: crate::ansi::references(crate::ansi::statement_kinds()),
        terminators: seq![GrammarView::reference("DelimiterGrammar"@)],
    }).copied(
        Some(seq![GrammarView::reference("CallStoredProcedureSegment"@), GrammarView::reference("DeclareGlobalTempTableSegment"@)]),
        None,
        None,
        None,
        Seq::empty(),
        false,
    )
}

/// The DB2 grammar of `FunctionContentsExpressionGrammar`.
pub open spec fn db2_function_contents_expression_grammar_grammar() -> GrammarView {
    GrammarView::OneOf { elements: seq![GrammarView::Ref { name: "ExpressionSegment"@, optional: false }, GrammarView::Ref { name: "NamedArgumentSegment"@, optional: false }], terminators: seq![] }
}

fn build_db2_function_contents_expression_grammar() -> (g: Grammar)
    ensures
        g@ =~~= db2_function_contents_expression_grammar_grammar(),
{
    let g1: Vec<Grammar> = vec![Grammar::reference("ExpressionSegment"), Grammar::reference("NamedArgumentSegment")];
    assert(views(g1@) =~~= seq![GrammarView::Ref { name: "ExpressionSegment"@, optional: false }, GrammarView::Ref { name: "NamedArgumentSegment"@, optional: false }]);
    let g2: Vec<Grammar> = Vec::new();
    assert(views(g2@) =~= Seq::<GrammarView>::empty());
    let g3 = Grammar::one_of_with(g1, g2);
    g3
}

/// The DB2 grammar of `ConditionalCrossJoinKeywordsGrammar`.
pub open spec fn db2_conditional_cross_join_keywords_grammar_grammar() -> GrammarView {
    GrammarView::Nothing
}

fn build_db2_conditional_cross_join_keywords_grammar() -> (g: Grammar)
    ensures
        g@ =~~= db2_conditional_cross_join_keywords_grammar_grammar(),
{
    Grammar::nothing()
}

/// The DB2 grammar of `NaturalJoinKeywordsGrammar`.
pub open spec fn db2_natural_join_keywords_grammar_grammar() -> GrammarView {
    GrammarView::Nothing
}

fn build_db2_natural_join_keywords_grammar() -> (g: Grammar)
    ensures
        g@ =~~= db2_natural_join_keywords_grammar_grammar(),
{
    Grammar::nothing()
}

/// The DB2 grammar of `UnconditionalCrossJoinKeywordsGrammar`.
pub open spec fn db2_unconditional_cross_join_keywords_grammar_grammar() -> GrammarView {
    GrammarView::Keyword { word: "CROSS"@ }
}

fn build_db2_unconditional_cross_join_keywords_grammar() -> (g: Grammar)
    ensures
        g@ =~~= db2_unconditional_cross_join_keywords_grammar_grammar(),
{
    Grammar::keyword("CROSS")
}

/// The DB2 grammar of `PreTableFunctionKeywordsGrammar`.
pub open spec fn db2_pre_table_function_keywords_grammar_grammar() -> GrammarView {
    GrammarView::OneOf { elements: seq![GrammarView::Keyword { word: "LATERAL"@ }], terminators: seq![] }
}

fn build_db2_pre_table_function_keywords_grammar() -> (g: Grammar)
    ensures
        g@ =~~= db2_pre_table_function_keywords_grammar_grammar(),
{
    let g1: Vec<Grammar> = vec![Grammar::keyword("LATERAL")];
    assert(views(g1@) =~~= seq![GrammarView::Keyword { word: "LATERAL"@ }]);
    let g2: Vec<Grammar> = Vec::new();
    assert(views(g2@) =~= Seq::<GrammarView>::empty());
    let g3 = Grammar::one_of_with(g1, g2);
    g3
}

/// The DB2 grammar of `LimitClauseSegment`.
pub open spec fn db2_limit_clause_segment_grammar() -> GrammarView {
    GrammarView::OneOf { elements: seq![GrammarView::Sequence { elements: seq![GrammarView::Keyword { word: "LIMIT"@ }, GrammarView::Indent, GrammarView::OneOf { elements: seq![GrammarView::Bracketed { elements: seq![GrammarView::OneOf { elements: seq![GrammarView::Ref { name: "NumericLiteralSegment"@, optional: false }, GrammarView::Ref { name: "ExpressionSegment"@, optional: false }, GrammarView::Keyword { word: "ALL"@ }], terminators: seq![] }], bracket_type: "round"@ }, GrammarView::OneOf { elements: seq![GrammarView::Ref { name: "NumericLiteralSegment"@, optional: false }, GrammarView::Ref { name: "ExpressionSegment"@, optional: false }, GrammarView::Keyword { word: "ALL"@ }], terminators: seq![] }], terminators: seq![] }, GrammarView::Optional { grammar: Box::new(GrammarView::OneOf { elements: seq![GrammarView::Sequence { elements: seq![GrammarView::Keyword { word: "OFFSET"@ }, GrammarView::OneOf { elements: seq![GrammarView::Ref { name: "NumericLiteralSegment"@, optional: false }, GrammarView::Ref { name: "ExpressionSegment"@, optional: false }], terminators: seq![] }], terminators: seq![], parse_mode: ParseMode::Strict }, GrammarView::Sequence { elements: seq![GrammarView::Ref { name: "CommaSegment"@, optional: false }, GrammarView::Ref { name: "NumericLiteralSegment"@, optional: false }], terminators: seq![], parse_mode: ParseMode::Strict }], terminators: seq![] }) }, GrammarView::Dedent], terminators: seq![], parse_mode: ParseMode::Strict }, GrammarView::Sequence { elements: seq![GrammarView::Ref { name: "OffsetClauseSegment"@, optional: true }, GrammarView::Ref { name: "FetchClauseSegment"@, optional: true }], terminators: seq![], parse_mode: ParseMode::Strict }], terminators: seq![] }
}

fn build_db2_limit_clause_segment() -> (g: Grammar)
    ensures
        g@ =~~= db2_limit_clause_segment_grammar(),
{
    let g1: Vec<Grammar> = vec![Grammar::reference("NumericLiteralSegment"), Grammar::reference("ExpressionSegment"), Grammar::keyword("ALL")];
    assert(views(g1@) =~~= seq![GrammarView::Ref { name: "NumericLiteralSegment"@, optional: false }, GrammarView::Ref { name: "ExpressionSegment"@, optional: false }, GrammarView::Keyword { word: "ALL"@ }]);
    let g2: Vec<Grammar> = Vec::new();
    assert(views(g2@) =~= Seq::<GrammarView>::empty());
    let g3 = Grammar::one_of_with(g1, g2);
    let g4: Vec<Grammar> = vec![g3];
    assert(views(g4@) =~~= seq![GrammarView::OneOf { elements: seq![GrammarView::Ref { name: "NumericLiteralSegment"@, optional: false }, GrammarView::Ref { name: "ExpressionSegment"@, optional: false }, GrammarView::Keyword { word: "ALL"@ }], terminators: seq![] }]);
    let g5 = Grammar::bracketed_with(g4, "round");
    let g6: Vec<Grammar> = vec![Grammar::reference("NumericLiteralSegment"), Grammar::reference("ExpressionSegment"), Grammar::keyword("ALL")];
    assert(views(g6@) =~~= seq![GrammarView::Ref { name: "NumericLiteralSegment"@, optional: false }, GrammarView::Ref { name: "ExpressionSegment"@, optional: false }, GrammarView::Keyword { word: "ALL"@ }]);
    let g7: Vec<Grammar> = Vec::new();
    assert(views(g7@) =~= Seq::<GrammarView>::empty());
    let g8 = Grammar::one_of_with(g6, g7);
    let g9: Vec<Grammar> = vec![g5, g8];
    assert(views(g9@) =~~= seq![GrammarView::Bracketed { elements: seq![GrammarView::OneOf { elements: seq![GrammarView::Ref { name: "NumericLiteralSegment"@, optional: false }, GrammarView::Ref { name: "ExpressionSegment"@, optional: false }, GrammarView::Keyword { word: "ALL"@ }], terminators: seq![] }], bracket_type: "round"@ }, GrammarView::OneOf { elements: seq![GrammarView::Ref { name: "NumericLiteralSegment"@, optional: false }, GrammarView::Ref { name: "ExpressionSegment"@, optional: false }, GrammarView::Keyword { word: "ALL"@ }], terminators: seq![] }]);
    let g10: Vec<Grammar> = Vec::new();
    assert(views(g10@) =~= Seq::<GrammarView>::empty());
    let g11 = Grammar::one_of_with(g9, g10);
    let g12: Vec<Grammar> = vec![Grammar::reference("NumericLiteralSegment"), Grammar::reference("ExpressionSegment")];
    assert(views(g12@) =~~= seq![GrammarView::Ref { name: "NumericLiteralSegment"@, optional: false }, GrammarView::Ref { name: "ExpressionSegment"@, optional: false }]);
    let g13: Vec<Grammar> = Vec::new();
    assert(views(g13@) =~= Seq::<GrammarView>::empty());
    let g14 = Grammar::one_of_with(g12, g13);
    let g15: Vec<Grammar> = vec![Grammar::keyword("OFFSET"), g14];
    assert(views(g15@) =~~= seq![GrammarView::Keyword { word: "OFFSET"@ }, GrammarView::OneOf { elements: seq![GrammarView::Ref { name: "NumericLiteralSegment"@, optional: false }, GrammarView::Ref { name: "ExpressionSegment"@, optional: false }], terminators: seq![] }]);
    let g16: Vec<Grammar> = Vec::new();
    assert(views(g16@) =~= Seq::<GrammarView>::empty());
    let g17 = Grammar::sequence_with(g15, g16, ParseMode::Strict);
    let g18: Vec<Grammar> = vec![Grammar::reference("CommaSegment"), Grammar::reference("NumericLiteralSegment")];
    assert(views(g18@) =~~= seq![GrammarView::Ref { name: "CommaSegment"@, optional: false }, GrammarView::Ref { name: "NumericLiteralSegment"@, optional: false }]);
    let g19: Vec<Grammar> = Vec::new();
    assert(views(g19@) =~= Seq::<GrammarView>::empty());
    let g20 = Grammar::sequence_with(g18, g19, ParseMode::Strict);
    let g21: Vec<Grammar> = vec![g17, g20];
    assert(views(g21@) =~~= seq![GrammarView::Sequence { elements: seq![GrammarView::Keyword { word: "OFFSET"@ }, GrammarView::OneOf { elements: seq![GrammarView::Ref { name: "NumericLiteralSegment"@, optional: false }, GrammarView::Ref { name: "ExpressionSegment"@, optional: false }], terminators: seq![] }], terminators: seq![], parse_mode: ParseMode::Strict }, GrammarView::Sequence { elements: seq![GrammarView::Ref { name: "CommaSegment"@, optional: false }, GrammarView::Ref { name: "NumericLiteralSegment"@, optional: false }], terminators: seq![], parse_mode: ParseMode::Strict }]);
    let g22: Vec<Grammar> = Vec::new();
    assert(views(g22@) =~= Seq::<GrammarView>::empty());
    let g23 = Grammar::one_of_with(g21, g22);
    let g24 = g23.optional();
    let g25: Vec<Grammar> = vec![Grammar::keyword("LIMIT"), Grammar::indent(), g11, g24, Grammar::dedent()];
    assert(views(g25@) =~~= seq![GrammarView::Keyword { word: "LIMIT"@ }, GrammarView::Indent, GrammarView::OneOf { elements: seq![GrammarView::Bracketed { elements: seq![GrammarView::OneOf { elements: seq![GrammarView::Ref { name: "NumericLiteralSegment"@, optional: false }, GrammarView::Ref { name: "ExpressionSegment"@, optional: false }, GrammarView::Keyword { word: "ALL"@ }], terminators: seq![] }], bracket_type: "round"@ }, GrammarView::OneOf { elements: seq![GrammarView::Ref { name: "NumericLiteralSegment"@, optional: false }, GrammarView::Ref { name: "ExpressionSegment"@, optional: false }, GrammarView::Keyword { word: "ALL"@ }], terminators: seq![] }], terminators: seq![] }, GrammarView::Optional { grammar: Box::new(GrammarView::OneOf { elements: seq![GrammarView::Sequence { elements: seq![GrammarView::Keyword { word: "OFFSET"@ }, GrammarView::OneOf { elements: seq![GrammarView::Ref { name: "NumericLiteralSegment"@, optional: false }, GrammarView::Ref { name: "ExpressionSegment"@, optional: false }], terminators: seq![] }], terminators: seq![], parse_mode: ParseMode::Strict }, GrammarView::Sequence { elements: seq![GrammarView::Ref { name: "CommaSegment"@, optional: false }, GrammarView::Ref { name: "NumericLiteralSegment"@, optional: false }], terminators: seq![], parse_mode: ParseMode::Strict }], terminators: seq![] }) }, GrammarView::Dedent]);
    let g26: Vec<Grammar> = Vec::new();
    assert(views(g26@) =~= Seq::<GrammarView>::empty());
    let g27 = Grammar::sequence_with(g25, g26, ParseMode::Strict);
    let g28: Vec<Grammar> = vec![Grammar::optional_reference("OffsetClauseSegment"), Grammar::optional_reference("FetchClauseSegment")];
    assert(views(g28@) =~~= seq![GrammarView::Ref { name: "OffsetClauseSegment"@, optional: true }, GrammarView::Ref { name: "FetchClauseSegment"@, optional: true }]);
    let g29: Vec<Grammar> = Vec::new();
    assert(views(g29@) =~= Seq::<GrammarView>::empty());
    let g30 = Grammar::sequence_with(g28, g29, ParseMode::Strict);
    let g31: Vec<Grammar> = vec![g27, g30];
    assert(views(g31@) =~~= seq![GrammarView::Sequence { elements: seq![GrammarView::Keyword { word: "LIMIT"@ }, GrammarView::Indent, GrammarView::OneOf { elements: seq![GrammarView::Bracketed { elements: seq![GrammarView::OneOf { elements: seq![GrammarView::Ref { name: "NumericLiteralSegment"@, optional: false }, GrammarView::Ref { name: "ExpressionSegment"@, optional: false }, GrammarView::Keyword { word: "ALL"@ }], terminators: seq![] }], bracket_type: "round"@ }, GrammarView::OneOf { elements: seq![GrammarView::Ref { name: "NumericLiteralSegment"@, optional: false }, GrammarView::Ref { name: "ExpressionSegment"@, optional: false }, GrammarView::Keyword { word: "ALL"@ }], terminators: seq![] }], terminators: seq![] }, GrammarView::Optional { grammar: Box::new(GrammarView::OneOf { elements: seq![GrammarView::Sequence { elements: seq![GrammarView::Keyword { word: "OFFSET"@ }, GrammarView::OneOf { elements: seq![GrammarView::Ref { name: "NumericLiteralSegment"@, optional: false }, GrammarView::Ref { name: "ExpressionSegment"@, optional: false }], terminators: seq![] }], terminators: seq![], parse_mode: ParseMode::Strict }, GrammarView::Sequence { elements: seq![GrammarView::Ref { name: "CommaSegment"@, optional: false }, GrammarView::Ref { name: "NumericLiteralSegment"@, optional: false }], terminators: seq![], parse_mode: ParseMode::Strict }], terminators: seq![] }) }, GrammarView::Dedent], terminators: seq![], parse_mode: ParseMode::Strict }, GrammarView::Sequence { elements: seq![GrammarView::Ref { name: "OffsetClauseSegment"@, optional: true }, GrammarView::Ref { name: "FetchClauseSegment"@, optional: true }], terminators: seq![], parse_mode: ParseMode::Strict }]);
    let g32: Vec<Grammar> = Vec::new();
    assert(views(g32@) =~= Seq::<GrammarView>::empty());
    let g33 = Grammar::one_of_with(g31, g32);
    g33
}

/// The DB2 grammar of `ValuesClauseSegment`.
pub open spec fn db2_values_clause_segment_grammar() -> GrammarView {
    GrammarView::Sequence { elements: seq![GrammarView::Keyword { word: "VALUES"@ }, GrammarView::Delimited { elements: seq![GrammarView::OneOf { elements: seq![GrammarView::InMode { grammar: Box::new(GrammarView::Bracketed { elements: seq![GrammarView::Delimited { elements: seq![GrammarView::OneOf { elements: seq![GrammarView::Keyword { word: "DEFAULT"@ }, GrammarView::Ref { name: "ExpressionSegment"@, optional: false }], terminators: seq![] }], allow_trailing: false, delimiter: None, terminators: seq![], allow_gaps: true }], bracket_type: "round"@ }), parse_mode: ParseMode::Greedy }, GrammarView::Keyword { word: "DEFAULT"@ }, GrammarView::Ref { name: "ExpressionSegment"@, optional: false }], terminators: seq![] }], allow_trailing: false, delimiter: None, terminators: seq![], allow_gaps: true }, GrammarView::Ref { name: "OrderByClauseSegment"@, optional: true }, GrammarView::Ref { name: "LimitClauseSegment"@, optional: true }], terminators: seq![], parse_mode: ParseMode::Strict }
}

fn build_db2_values_clause_segment() -> (g: Grammar)
    ensures
        g@ =~~= db2_values_clause_segment_grammar(),
{
    let g1: Vec<Grammar> = vec![Grammar::keyword("DEFAULT"), Grammar::reference("ExpressionSegment")];
    assert(views(g1@) =~~= seq![GrammarView::Keyword { word: "DEFAULT"@ }, GrammarView::Ref { name: "ExpressionSegment"@, optional: false }]);
    let g2: Vec<Grammar> = Vec::new();
    assert(views(g2@) =~= Seq::<GrammarView>::empty());
    let g3 = Grammar::one_of_with(g1, g2);
    let g4: Vec<Grammar> = vec![g3];
    assert(views(g4@) =~~= seq![GrammarView::OneOf { elements: seq![GrammarView::Keyword { word: "DEFAULT"@ }, GrammarView::Ref { name: "ExpressionSegment"@, optional: false }], terminators: seq![] }]);
    let g5: Vec<Grammar> = Vec::new();
    assert(views(g5@) =~= Seq::<GrammarView>::empty());
    let g6 = Grammar::delimited_with(g4, false, None, g5, true);
    let g7: Vec<Grammar> = vec![g6];
    assert(views(g7@) =~~= seq![GrammarView::Delimited { elements: seq![GrammarView::OneOf { elements: seq![GrammarView::Keyword { word: "DEFAULT"@ }, GrammarView::Ref { name: "ExpressionSegment"@, optional: false }], terminators: seq![] }], allow_trailing: false, delimiter: None, terminators: seq![], allow_gaps: true }]);
    let g8 = Grammar::bracketed_with(g7, "round");
    let g9 = g8.in_mode(ParseMode::Greedy);
    let g10: Vec<Grammar> = vec![g9, Grammar::keyword("DEFAULT"), Grammar::reference("ExpressionSegment")];
    assert(views(g10@) =~~= seq![GrammarView::InMode { grammar: Box::new(GrammarView::Bracketed { elements: seq![GrammarView::Delimited { elements: seq![GrammarView::OneOf { elements: seq![GrammarView::Keyword { word: "DEFAULT"@ }, GrammarView::Ref { name: "ExpressionSegment"@, optional: false }], terminators: seq![] }], allow_trailing: false, delimiter: None, terminators: seq![], allow_gaps: true }], bracket_type: "round"@ }), parse_mode: ParseMode::Greedy }, GrammarView::Keyword { word: "DEFAULT"@ }, GrammarView::Ref { name: "ExpressionSegment"@, optional: false }]);
    let g11: Vec<Grammar> = Vec::new();
    assert(views(g11@) =~= Seq::<GrammarView>::empty());
    let g12 = Grammar::one_of_with(g10, g11);
    let g13: Vec<Grammar> = vec![g12];
    assert(views(g13@) =~~= seq![GrammarView::OneOf { elements: seq![GrammarView::InMode { grammar: Box::new(GrammarView::Bracketed { elements: seq![GrammarView::Delimited { elements: seq![GrammarView::OneOf { elements: seq![GrammarView::Keyword { word: "DEFAULT"@ }, GrammarView::Ref { name: "ExpressionSegment"@, optional: false }], terminators: seq![] }], allow_trailing: false, delimiter: None, terminators: seq![], allow_gaps: true }], bracket_type: "round"@ }), parse_mode: ParseMode::Greedy }, GrammarView::Keyword { word: "DEFAULT"@ }, GrammarView::Ref { name: "ExpressionSegment"@, optional: false }], terminators: seq![] }]);
    let g14: Vec<Grammar> = Vec::new();
    assert(views(g14@) =~= Seq::<GrammarView>::empty());
    let g15 = Grammar::delimited_with(g13, false, None, g14, true);
    let g16: Vec<Grammar> = vec![Grammar::keyword("VALUES"), g15, Grammar::optional_reference("OrderByClauseSegment"), Grammar::optional_reference("LimitClauseSegment")];
    assert(views(g16@) =~~= seq![GrammarView::Keyword { word: "VALUES"@ }, GrammarView::Delimited { elements: seq![GrammarView::OneOf { elements: seq![GrammarView::InMode { grammar: Box::new(GrammarView::Bracketed { elements: seq![GrammarView::Delimited { elements: seq![GrammarView::OneOf { elements: seq![GrammarView::Keyword { word: "DEFAULT"@ }, GrammarView::Ref { name: "ExpressionSegment"@, optional: false }], terminators: seq![] }], allow_trailing: false, delimiter: None, terminators: seq![], allow_gaps: true }], bracket_type: "round"@ }), parse_mode: ParseMode::Greedy }, GrammarView::Keyword { word: "DEFAULT"@ }, GrammarView::Ref { name: "ExpressionSegment"@, optional: false }], terminators: seq![] }], allow_trailing: false, delimiter: None, terminators: seq![], allow_gaps: true }, GrammarView::Ref { name: "OrderByClauseSegment"@, optional: true }, GrammarView::Ref { name: "LimitClauseSegment"@, optional: true }]);
    let g17: Vec<Grammar> = Vec::new();
    assert(views(g17@) =~= Seq::<GrammarView>::empty());
    let g18 = Grammar::sequence_with(g16, g17, ParseMode::Strict);
    g18
}

/// The DB2 keyword and join changes: the DB2 name, `NATURAL` no longer
/// reserved, DB2's own unreserved keywords, and the DB2 grammars of function
/// arguments and join keywords.
pub open spec fn db2_keyword_changes(d: DialectView, db2_unreserved: Seq<Seq<char>>) -> DialectView {
    let d = DialectView { name: DialectName::Db2, ..d };
    let d = d.with_set("reserved_keywords"@, d.set("reserved_keywords"@).remove("NATURAL"@));
    let d = d.with_set("unreserved_keywords"@, d.set("unreserved_keywords"@).union(db2_unreserved.to_set()));
    let d = d.with_grammar("FunctionContentsExpressionGrammar"@, db2_function_contents_expression_grammar_grammar());
    let d = d.with_grammar("ConditionalCrossJoinKeywordsGrammar"@, db2_conditional_cross_join_keywords_grammar_grammar());
    let d = d.with_grammar("NaturalJoinKeywordsGrammar"@, db2_natural_join_keywords_grammar_grammar());
    let d = d.with_grammar("UnconditionalCrossJoinKeywordsGrammar"@, db2_unconditional_cross_join_keywords_grammar_grammar());
    d.with_grammar("PreTableFunctionKeywordsGrammar"@, db2_pre_table_function_keywords_grammar_grammar())
}

/// The DB2 lexer rules, the elements DB2 adds, and its grammars of `LIMIT`,
/// `VALUES` and statements.
pub open spec fn db2_grammar_changes(d: DialectView) -> DialectView {
    let d = d.with_lexer(patched(inserted(ansi_lexer_table(), db2_added_rules(), "equals"@), db2_replaced_rules()));
    let d = DialectView { library: db2_library(d.library), ..d };
    let d = d.with_grammar("LimitClauseSegment"@, db2_limit_clause_segment_grammar());
    let d = d.with_grammar("ValuesClauseSegment"@, db2_values_clause_segment_grammar());
    d.with_grammar("StatementSegment"@, db2_statement_grammar())
}

/// The DB2 dialect before expansion, for the ANSI lists of unreserved and
/// reserved keywords and DB2's own unreserved keywords: the expanded ANSI
/// dialect with the DB2 changes.
pub open spec fn db2_raw_dialect_view(
    ansi_unreserved: Seq<char>,
    ansi_reserved: Seq<char>,
    db2_unreserved: Seq<Seq<char>>,
) -> DialectView {
    let d = expanded(ansi_raw_dialect_view(ansi_unreserved, ansi_reserved));
    let d = db2_keyword_changes(d, db2_unreserved);
    let d = with_grammars(d, db2_clause_terminators());
    db2_grammar_changes(d)
}

fn apply_db2_keyword_changes(d: &mut DialectModel, db2_unreserved: &[&'static str])
    ensures
        final(d)@ == db2_keyword_changes(old(d)@, texts(db2_unreserved@)),
{
    d.name = DialectName::Db2;
    d.remove_from_set("reserved_keywords", "NATURAL");
    d.extend_set("unreserved_keywords", db2_unreserved);
    d.replace_grammar("FunctionContentsExpressionGrammar", build_db2_function_contents_expression_grammar());
    d.replace_grammar("ConditionalCrossJoinKeywordsGrammar", build_db2_conditional_cross_join_keywords_grammar());
    d.replace_grammar("NaturalJoinKeywordsGrammar", build_db2_natural_join_keywords_grammar());
    d.replace_grammar("UnconditionalCrossJoinKeywordsGrammar", build_db2_unconditional_cross_join_keywords_grammar());
    d.replace_grammar("PreTableFunctionKeywordsGrammar", build_db2_pre_table_function_keywords_grammar());
}

fn apply_db2_clause_terminators(d: &mut DialectModel)
    ensures
        final(d)@ == with_grammars(old(d)@, db2_clause_terminators()),
{
    let ts = clause_terminators();
    let ghost d0 = d@;
    let ghost tv = db2_clause_terminators();
    let mut i: usize = 0;
    while i < ts.len()
        invariant
            i <= ts.len(),
            tv.len() == ts.len(),
            forall|j: int| 0 <= j < ts@.len() ==> (#[trigger] ts@[j]).0@ == tv[j].0 && ts@[j].1@ == tv[j].1,
            d@ == with_grammars(d0, tv.take(i as int)),
        decreases ts.len() - i,
    {
        let name = ts[i].0;
        let g = ts[i].1.duplicate();
        assert(tv.take(i + 1).drop_last() =~= tv.take(i as int));
        d.replace_grammar(name, g);
        i += 1;
    }
    assert(tv.take(ts.len() as int) =~= tv);
}

fn apply_db2_grammar_changes(d: &mut DialectModel)
    ensures
        final(d)@ == db2_grammar_changes(old(d)@),
{
    d.set_lexer(db2_lexer_matchers());
    add_db2_library(d);
    d.replace_grammar("LimitClauseSegment", build_db2_limit_clause_segment());
    d.replace_grammar("ValuesClauseSegment", build_db2_values_clause_segment());
    let insert = vec![Grammar::reference("CallStoredProcedureSegment"), Grammar::reference("DeclareGlobalTempTableSegment")];
    assert(views(insert@) =~~= seq![GrammarView::reference("CallStoredProcedureSegment"@), GrammarView::reference("DeclareGlobalTempTableSegment"@)]);
    let statements = statement_segment().copy(Some(insert), None, None, None, Vec::new(), false);
    d.replace_grammar("StatementSegment", statements);
}

/// The DB2 dialect before expansion: the expanded ANSI dialect under the DB2
/// name, with `NATURAL` no longer reserved, DB2's own unreserved keywords, its
/// join and clause grammars, its lexer rules and the elements it adds.
pub fn db2_raw_dialect(
    ansi_unreserved: &'static str,
    ansi_reserved: &'static str,
    db2_unreserved: &[&'static str],
) -> (d: DialectModel)
    ensures
        d@ == db2_raw_dialect_view(ansi_unreserved@, ansi_reserved@, texts(db2_unreserved@)),
{
    let mut d = ansi_dialect(ansi_unreserved, ansi_reserved);
    apply_db2_keyword_changes(&mut d, db2_unreserved);
    apply_db2_clause_terminators(&mut d);
    apply_db2_grammar_changes(&mut d);
    d
}

/// The DB2 dialect, expanded.
pub fn db2_dialect(
    ansi_unreserved: &'static str,
    ansi_reserved: &'static str,
    db2_unreserved: &[&'static str],
) -> (d: DialectModel)
    ensures
        d@ == expanded(db2_raw_dialect_view(ansi_unreserved@, ansi_reserved@, texts(db2_unreserved@))),
{
    let mut d = db2_raw_dialect(ansi_unreserved, ansi_reserved, db2_unreserved);
    d.expand();
    d
}

proof fn lemma_db2_library_keeps_from_clause_terminator_grammar(m: Map<Seq<char>, ElementView>)
    requires
        m.dom().contains("FromClauseTerminatorGrammar"@),
    ensures
        db2_library(m).dom().contains("FromClauseTerminatorGrammar"@),
        db2_library(m)["FromClauseTerminatorGrammar"@] == m["FromClauseTerminatorGrammar"@],
{
    reveal(db2_library);
    reveal_strlit("FromClauseTerminatorGrammar");
    reveal_strlit("RightArrowSegment");
    reveal_strlit("LabeledDurationGrammar");
    reveal_strlit("SpecialRegisterGrammar");
    reveal_strlit("BareFunctionSegment");
    reveal_strlit("CopyOptionsSegment");
    reveal_strlit("DeclareGlobalTempTableSegment");
    reveal_strlit("DeclareDistributionClauseSegment");
    reveal_strlit("NamedArgumentSegment");
    reveal_strlit("OffsetClauseSegment");
    reveal_strlit("NakedIdentifierSegment");
    reveal_strlit("PostFunctionGrammar");
    reveal_strlit("Expression_C_Grammar");
    reveal_strlit("WithinGroupClauseSegment");
    assert("FromClauseTerminatorGrammar"@.len() != "RightArrowSegment"@.len());
    assert("FromClauseTerminatorGrammar"@.len() != "LabeledDurationGrammar"@.len());
    assert("FromClauseTerminatorGrammar"@.len() != "SpecialRegisterGrammar"@.len());
    assert("FromClauseTerminatorGrammar"@.len() != "BareFunctionSegment"@.len());
    assert("FromClauseTerminatorGrammar"@.len() != "CopyOptionsSegment"@.len());
    assert("FromClauseTerminatorGrammar"@.len() != "DeclareGlobalTempTableSegment"@.len());
    assert("FromClauseTerminatorGrammar"@.len() != "DeclareDistributionClauseSegment"@.len());
    assert("FromClauseTerminatorGrammar"@.len() != "NamedArgumentSegment"@.len());
    assert("FromClauseTerminatorGrammar"@.len() != "OffsetClauseSegment"@.len());
    assert("FromClauseTerminatorGrammar"@.len() != "NakedIdentifierSegment"@.len());
    assert("FromClauseTerminatorGrammar"@.len() != "PostFunctionGrammar"@.len());
    assert("FromClauseTerminatorGrammar"@.len() != "Expression_C_Grammar"@.len());
    assert("FromClauseTerminatorGrammar"@.len() != "WithinGroupClauseSegment"@.len());
}

proof fn lemma_db2_library_keeps_where_clause_terminator_grammar(m: Map<Seq<char>, ElementView>)
    requires
        m.dom().contains("WhereClauseTerminatorGrammar"@),
    ensures
        db2_library(m).dom().contains("WhereClauseTerminatorGrammar"@),
        db2_library(m)["WhereClauseTerminatorGrammar"@] == m["WhereClauseTerminatorGrammar"@],
{
    reveal(db2_library);
    reveal_strlit("WhereClauseTerminatorGrammar");
    reveal_strlit("RightArrowSegment");
    reveal_strlit("LabeledDurationGrammar");
    reveal_strlit("SpecialRegisterGrammar");
    reveal_strlit("BareFunctionSegment");
    reveal_strlit("CopyOptionsSegment");
    reveal_strlit("DeclareGlobalTempTableSegment");
    reveal_strlit("DeclareDistributionClauseSegment");
    reveal_strlit("NamedArgumentSegment");
    reveal_strlit("OffsetClauseSegment");
    reveal_strlit("NakedIdentifierSegment");
    reveal_strlit("PostFunctionGrammar");
    reveal_strlit("Expression_C_Grammar");
    reveal_strlit("WithinGroupClauseSegment");
    assert("WhereClauseTerminatorGrammar"@.len() != "RightArrowSegment"@.len());
    assert("WhereClauseTerminatorGrammar"@.len() != "LabeledDurationGrammar"@.len());
    assert("WhereClauseTerminatorGrammar"@.len() != "SpecialRegisterGrammar"@.len());
    assert("WhereClauseTerminatorGrammar"@.len() != "BareFunctionSegment"@.len());
    assert("WhereClauseTerminatorGrammar"@.len() != "CopyOptionsSegment"@.len());
    assert("WhereClauseTerminatorGrammar"@.len() != "DeclareGlobalTempTableSegment"@.len());
    assert("WhereClauseTerminatorGrammar"@.len() != "DeclareDistributionClauseSegment"@.len());
    assert("WhereClauseTerminatorGrammar"@.len() != "NamedArgumentSegment"@.len());
    assert("WhereClauseTerminatorGrammar"@.len() != "OffsetClauseSegment"@.len());
    assert("WhereClauseTerminatorGrammar"@.len() != "NakedIdentifierSegment"@.len());
    assert("WhereClauseTerminatorGrammar"@.len() != "PostFunctionGrammar"@.len());
    assert("WhereClauseTerminatorGrammar"@.len() != "Expression_C_Grammar"@.len());
    assert("WhereClauseTerminatorGrammar"@.len() != "WithinGroupClauseSegment"@.len());
}

proof fn lemma_db2_library_keeps_group_by_clause_terminator_grammar(m: Map<Seq<char>, ElementView>)
    requires
        m.dom().contains("GroupByClauseTerminatorGrammar"@),
    ensures
        db2_library(m).dom().contains("GroupByClauseTerminatorGrammar"@),
        db2_library(m)["GroupByClauseTerminatorGrammar"@] == m["GroupByClauseTerminatorGrammar"@],
{
    reveal(db2_library);
    reveal_strlit("GroupByClauseTerminatorGrammar");
    reveal_strlit("RightArrowSegment");
    reveal_strlit("LabeledDurationGrammar");
    reveal_strlit("SpecialRegisterGrammar");
    reveal_strlit("BareFunctionSegment");
    reveal_strlit("CopyOptionsSegment");
    reveal_strlit("DeclareGlobalTempTableSegment");
    reveal_strlit("DeclareDistributionClauseSegment");
    reveal_strlit("NamedArgumentSegment");
    reveal_strlit("OffsetClauseSegment");
    reveal_strlit("NakedIdentifierSegment");
    reveal_strlit("PostFunctionGrammar");
    reveal_strlit("Expression_C_Grammar");
    reveal_strlit("WithinGroupClauseSegment");
    assert("GroupByClauseTerminatorGrammar"@.len() != "RightArrowSegment"@.len());
    assert("GroupByClauseTerminatorGrammar"@.len() != "LabeledDurationGrammar"@.len());
    assert("GroupByClauseTerminatorGrammar"@.len() != "SpecialRegisterGrammar"@.len());
    assert("GroupByClauseTerminatorGrammar"@.len() != "BareFunctionSegment"@.len());
    assert("GroupByClauseTerminatorGrammar"@.len() != "CopyOptionsSegment"@.len());
    assert("GroupByClauseTerminatorGrammar"@.len() != "DeclareGlobalTempTableSegment"@.len());
    assert("GroupByClauseTerminatorGrammar"@.len() != "DeclareDistributionClauseSegment"@.len());
    assert("GroupByClauseTerminatorGrammar"@.len() != "NamedArgumentSegment"@.len());
    assert("GroupByClauseTerminatorGrammar"@.len() != "OffsetClauseSegment"@.len());
    assert("GroupByClauseTerminatorGrammar"@.len() != "NakedIdentifierSegment"@.len());
    assert("GroupByClauseTerminatorGrammar"@.len() != "PostFunctionGrammar"@.len());
    assert("GroupByClauseTerminatorGrammar"@.len() != "Expression_C_Grammar"@.len());
    assert("GroupByClauseTerminatorGrammar"@.len() != "WithinGroupClauseSegment"@.len());
}

proof fn lemma_db2_library_keeps_having_clause_terminator_grammar(m: Map<Seq<char>, ElementView>)
    requires
        m.dom().contains("HavingClauseTerminatorGrammar"@),
    ensures
        db2_library(m).dom().contains("HavingClauseTerminatorGrammar"@),
        db2_library(m)["HavingClauseTerminatorGrammar"@] == m["HavingClauseTerminatorGrammar"@],
{
    reveal(db2_library);
    reveal_strlit("HavingClauseTerminatorGrammar");
    reveal_strlit("RightArrowSegment");
    reveal_strlit("LabeledDurationGrammar");
    reveal_strlit("SpecialRegisterGrammar");
    reveal_strlit("BareFunctionSegment");
    reveal_strlit("CopyOptionsSegment");
    reveal_strlit("DeclareGlobalTempTableSegment");
    reveal_strlit("DeclareDistributionClauseSegment");
    reveal_strlit("NamedArgumentSegment");
    reveal_strlit("OffsetClauseSegment");
    reveal_strlit("NakedIdentifierSegment");
    reveal_strlit("PostFunctionGrammar");
    reveal_strlit("Expression_C_Grammar");
    reveal_strlit("WithinGroupClauseSegment");
    assert("HavingClauseTerminatorGrammar"@.len() != "RightArrowSegment"@.len());
    assert("HavingClauseTerminatorGrammar"@.len() != "LabeledDurationGrammar"@.len());
    assert("HavingClauseTerminatorGrammar"@.len() != "SpecialRegisterGrammar"@.len());
    assert("HavingClauseTerminatorGrammar"@.len() != "BareFunctionSegment"@.len());
    assert("HavingClauseTerminatorGrammar"@.len() != "CopyOptionsSegment"@.len());
    assert("HavingClauseTerminatorGrammar"@[0] != "DeclareGlobalTempTableSegment"@[0]);
    assert("HavingClauseTerminatorGrammar"@.len() != "DeclareDistributionClauseSegment"@.len());
    assert("HavingClauseTerminatorGrammar"@.len() != "NamedArgumentSegment"@.len());
    assert("HavingClauseTerminatorGrammar"@.len() != "OffsetClauseSegment"@.len());
    assert("HavingClauseTerminatorGrammar"@.len() != "NakedIdentifierSegment"@.len());
    assert("HavingClauseTerminatorGrammar"@.len() != "PostFunctionGrammar"@.len());
    assert("HavingClauseTerminatorGrammar"@.len() != "Expression_C_Grammar"@.len());
    assert("HavingClauseTerminatorGrammar"@.len() != "WithinGroupClauseSegment"@.len());
}

proof fn lemma_db2_library_keeps_order_by_clause_terminators(m: Map<Seq<char>, ElementView>)
    requires
        m.dom().contains("OrderByClauseTerminators"@),
    ensures
        db2_library(m).dom().contains("OrderByClauseTerminators"@),
        db2_library(m)["OrderByClauseTerminators"@] == m["OrderByClauseTerminators"@],
{
    reveal(db2_library);
    reveal_strlit("OrderByClauseTerminators");
    reveal_strlit("RightArrowSegment");
    reveal_strlit("LabeledDurationGrammar");
    reveal_strlit("SpecialRegisterGrammar");
    reveal_strlit("BareFunctionSegment");
    reveal_strlit("CopyOptionsSegment");
    reveal_strlit("DeclareGlobalTempTableSegment");
    reveal_strlit("DeclareDistributionClauseSegment");
    reveal_strlit("NamedArgumentSegment");
    reveal_strlit("OffsetClauseSegment");
    reveal_strlit("NakedIdentifierSegment");
    reveal_strlit("PostFunctionGrammar");
    reveal_strlit("Expression_C_Grammar");
    reveal_strlit("WithinGroupClauseSegment");
    assert("OrderByClauseTerminators"@.len() != "RightArrowSegment"@.len());
    assert("OrderByClauseTerminators"@.len() != "LabeledDurationGrammar"@.len());
    assert("OrderByClauseTerminators"@.len() != "SpecialRegisterGrammar"@.len());
    assert("OrderByClauseTerminators"@.len() != "BareFunctionSegment"@.len());
    assert("OrderByClauseTerminators"@.len() != "CopyOptionsSegment"@.len());
    assert("OrderByClauseTerminators"@.len() != "DeclareGlobalTempTableSegment"@.len());
    assert("OrderByClauseTerminators"@.len() != "DeclareDistributionClauseSegment"@.len());
    assert("OrderByClauseTerminators"@.len() != "NamedArgumentSegment"@.len());
    assert("OrderByClauseTerminators"@.len() != "OffsetClauseSegment"@.len());
    assert("OrderByClauseTerminators"@.len() != "NakedIdentifierSegment"@.len());
    assert("OrderByClauseTerminators"@.len() != "PostFunctionGrammar"@.len());
    assert("OrderByClauseTerminators"@.len() != "Expression_C_Grammar"@.len());
    assert("OrderByClauseTerminators"@[0] != "WithinGroupClauseSegment"@[0]);
}

proof fn lemma_db2_library_keeps_statement_segment(m: Map<Seq<char>, ElementView>)
    requires
        m.dom().contains("StatementSegment"@),
    ensures
        db2_library(m).dom().contains("StatementSegment"@),
        db2_library(m)["StatementSegment"@] == m["StatementSegment"@],
{
    reveal(db2_library);
    reveal_strlit("StatementSegment");
    reveal_strlit("RightArrowSegment");
    reveal_strlit("LabeledDurationGrammar");
    reveal_strlit("SpecialRegisterGrammar");
    reveal_strlit("BareFunctionSegment");
    reveal_strlit("CopyOptionsSegment");
    reveal_strlit("DeclareGlobalTempTableSegment");
    reveal_strlit("DeclareDistributionClauseSegment");
    reveal_strlit("NamedArgumentSegment");
    reveal_strlit("OffsetClauseSegment");
    reveal_strlit("NakedIdentifierSegment");
    reveal_strlit("PostFunctionGrammar");
    reveal_strlit("Expression_C_Grammar");
    reveal_strlit("WithinGroupClauseSegment");
    assert("StatementSegment"@.len() != "RightArrowSegment"@.len());
    assert("StatementSegment"@.len() != "LabeledDurationGrammar"@.len());
    assert("StatementSegment"@.len() != "SpecialRegisterGrammar"@.len());
    assert("StatementSegment"@.len() != "BareFunctionSegment"@.len());
    assert("StatementSegment"@.len() != "CopyOptionsSegment"@.len());
    assert("StatementSegment"@.len() != "DeclareGlobalTempTableSegment"@.len());
    assert("StatementSegment"@.len() != "DeclareDistributionClauseSegment"@.len());
    assert("StatementSegment"@.len() != "NamedArgumentSegment"@.len());
    assert("StatementSegment"@.len() != "OffsetClauseSegment"@.len());
    assert("StatementSegment"@.len() != "NakedIdentifierSegment"@.len());
    assert("StatementSegment"@.len() != "PostFunctionGrammar"@.len());
    assert("StatementSegment"@.len() != "Expression_C_Grammar"@.len());
    assert("StatementSegment"@.len() != "WithinGroupClauseSegment"@.len());
}

/// In the DB2 dialect each clause terminator is the ANSI one (as the ANSI
/// library holds it) with `OFFSET` as one more, last, alternative; and the
/// statement node has the ANSI statements followed by the stored-procedure
/// call and the declaration of global temporary tables.
#[verifier::rlimit(100)]
pub proof fn law_db2_dialect_terminators_and_statements(
    ansi_unreserved: Seq<char>,
    ansi_reserved: Seq<char>,
    db2_unreserved: Seq<Seq<char>>,
)
    ensures
        ({
            let a = ansi_raw_dialect_view(ansi_unreserved, ansi_reserved);
            let d = db2_raw_dialect_view(ansi_unreserved, ansi_reserved, db2_unreserved);
            &&& forall|i: int| 0 <= i < ansi_clause_terminators().len() ==> {
                let name = #[trigger] ansi_clause_terminators()[i].0;
                let ansi = ansi_clause_terminators()[i].1;
                &&& a.element(name) == Some(ElementView::Grammar(ansi))
                &&& d.element(name) == Some(ElementView::Grammar(with_offset(ansi)))
                &&& with_offset(ansi).elements() == ansi.elements().push(GrammarView::keyword("OFFSET"@))
            }
            &&& d.element("StatementSegment"@) == Some(ElementView::Node { kind: "statement"@, grammar: db2_statement_grammar() })
            &&& db2_statement_grammar().elements() == references(statement_kinds()).push(
                GrammarView::reference("CallStoredProcedureSegment"@),
            ).push(GrammarView::reference("DeclareGlobalTempTableSegment"@))
            &&& db2_statement_grammar().elements().len() == 41
        }),
{
    reveal_strlit("BareFunctionSegment");
    reveal_strlit("ConditionalCrossJoinKeywordsGrammar");
    reveal_strlit("CopyOptionsSegment");
    reveal_strlit("DeclareDistributionClauseSegment");
    reveal_strlit("DeclareGlobalTempTableSegment");
    reveal_strlit("Expression_C_Grammar");
    reveal_strlit("FromClauseTerminatorGrammar");
    reveal_strlit("FunctionContentsExpressionGrammar");
    reveal_strlit("GroupByClauseTerminatorGrammar");
    reveal_strlit("HavingClauseTerminatorGrammar");
    reveal_strlit("LabeledDurationGrammar");
    reveal_strlit("LimitClauseSegment");
    reveal_strlit("NakedIdentifierSegment");
    reveal_strlit("NamedArgumentSegment");
    reveal_strlit("NaturalJoinKeywordsGrammar");
    reveal_strlit("OffsetClauseSegment");
    reveal_strlit("OrderByClauseTerminators");
    reveal_strlit("PostFunctionGrammar");
    reveal_strlit("PreTableFunctionKeywordsGrammar");
    reveal_strlit("RightArrowSegment");
    reveal_strlit("SpecialRegisterGrammar");
    reveal_strlit("StatementSegment");
    reveal_strlit("UnconditionalCrossJoinKeywordsGrammar");
    reveal_strlit("ValuesClauseSegment");
    reveal_strlit("WhereClauseTerminatorGrammar");
    reveal_strlit("WithinGroupClauseSegment");
    assert("FunctionContentsExpressionGrammar"@.len() != "FromClauseTerminatorGrammar"@.len());
    assert("FunctionContentsExpressionGrammar"@.len() != "WhereClauseTerminatorGrammar"@.len());
    assert("FunctionContentsExpressionGrammar"@.len() != "GroupByClauseTerminatorGrammar"@.len());
    assert("FunctionContentsExpressionGrammar"@.len() != "HavingClauseTerminatorGrammar"@.len());
    assert("FunctionContentsExpressionGrammar"@.len() != "OrderByClauseTerminators"@.len());
    assert("FunctionContentsExpressionGrammar"@.len() != "StatementSegment"@.len());
    assert("ConditionalCrossJoinKeywordsGrammar"@.len() != "FromClauseTerminatorGrammar"@.len());
    assert("ConditionalCrossJoinKeywordsGrammar"@.len() != "WhereClauseTerminatorGrammar"@.len());
    assert("ConditionalCrossJoinKeywordsGrammar"@.len() != "GroupByClauseTerminatorGrammar"@.len());
    assert("ConditionalCrossJoinKeywordsGrammar"@.len() != "HavingClauseTerminatorGrammar"@.len());
    assert("ConditionalCrossJoinKeywordsGrammar"@.len() != "OrderByClauseTerminators"@.len());
    assert("ConditionalCrossJoinKeywordsGrammar"@.len() != "StatementSegment"@.len());
    assert("NaturalJoinKeywordsGrammar"@.len() != "FromClauseTerminatorGrammar"@.len());
    assert("NaturalJoinKeywordsGrammar"@.len() != "WhereClauseTerminatorGrammar"@.len());
    assert("NaturalJoinKeywordsGrammar"@.len() != "GroupByClauseTerminatorGrammar"@.len());
    assert("NaturalJoinKeywordsGrammar"@.len() != "HavingClauseTerminatorGrammar"@.len());
    assert("NaturalJoinKeywordsGrammar"@.len() != "OrderByClauseTerminators"@.len());
    assert("NaturalJoinKeywordsGrammar"@.len() != "StatementSegment"@.len());
    assert("UnconditionalCrossJoinKeywordsGrammar"@.len() != "FromClauseTerminatorGrammar"@.len());
    assert("UnconditionalCrossJoinKeywordsGrammar"@.len() != "WhereClauseTerminatorGrammar"@.len());
    assert("UnconditionalCrossJoinKeywordsGrammar"@.len() != "GroupByClauseTerminatorGrammar"@.len());
    assert("UnconditionalCrossJoinKeywordsGrammar"@.len() != "HavingClauseTerminatorGrammar"@.len());
    assert("UnconditionalCrossJoinKeywordsGrammar"@.len() != "OrderByClauseTerminators"@.len());
    assert("UnconditionalCrossJoinKeywordsGrammar"@.len() != "StatementSegment"@.len());
    assert("PreTableFunctionKeywordsGrammar"@.len() != "FromClauseTerminatorGrammar"@.len());
    assert("PreTableFunctionKeywordsGrammar"@.len() != "WhereClauseTerminatorGrammar"@.len());
    assert("PreTableFunctionKeywordsGrammar"@.len() != "GroupByClauseTerminatorGrammar"@.len());
    assert("PreTableFunctionKeywordsGrammar"@.len() != "HavingClauseTerminatorGrammar"@.len());
    assert("PreTableFunctionKeywordsGrammar"@.len() != "OrderByClauseTerminators"@.len());
    assert("PreTableFunctionKeywordsGrammar"@.len() != "StatementSegment"@.len());
    assert("FromClauseTerminatorGrammar"@.len() != "WhereClauseTerminatorGrammar"@.len());
    assert("FromClauseTerminatorGrammar"@.len() != "GroupByClauseTerminatorGrammar"@.len());
    assert("FromClauseTerminatorGrammar"@.len() != "HavingClauseTerminatorGrammar"@.len());
    assert("FromClauseTerminatorGrammar"@.len() != "OrderByClauseTerminators"@.len());
    assert("FromClauseTerminatorGrammar"@.len() != "StatementSegment"@.len());
    assert("WhereClauseTerminatorGrammar"@.len() != "FromClauseTerminatorGrammar"@.len());
    assert("WhereClauseTerminatorGrammar"@.len() != "GroupByClauseTerminatorGrammar"@.len());
    assert("WhereClauseTerminatorGrammar"@.len() != "HavingClauseTerminatorGrammar"@.len());
    assert("WhereClauseTerminatorGrammar"@.len() != "OrderByClauseTerminators"@.len());
    assert("WhereClauseTerminatorGrammar"@.len() != "StatementSegment"@.len());
    assert("GroupByClauseTerminatorGrammar"@.len() != "FromClauseTerminatorGrammar"@.len());
    assert("GroupByClauseTerminatorGrammar"@.len() != "WhereClauseTerminatorGrammar"@.len());
    assert("GroupByClauseTerminatorGrammar"@.len() != "HavingClauseTerminatorGrammar"@.len());
    assert("GroupByClauseTerminatorGrammar"@.len() != "OrderByClauseTerminators"@.len());
    assert("GroupByClauseTerminatorGrammar"@.len() != "StatementSegment"@.len());
    assert("HavingClauseTerminatorGrammar"@.len() != "FromClauseTerminatorGrammar"@.len());
    assert("HavingClauseTerminatorGrammar"@.len() != "WhereClauseTerminatorGrammar"@.len());
    assert("HavingClauseTerminatorGrammar"@.len() != "GroupByClauseTerminatorGrammar"@.len());
    assert("HavingClauseTerminatorGrammar"@.len() != "OrderByClauseTerminators"@.len());
    assert("HavingClauseTerminatorGrammar"@.len() != "StatementSegment"@.len());
    assert("OrderByClauseTerminators"@.len() != "FromClauseTerminatorGrammar"@.len());
    assert("OrderByClauseTerminators"@.len() != "WhereClauseTerminatorGrammar"@.len());
    assert("OrderByClauseTerminators"@.len() != "GroupByClauseTerminatorGrammar"@.len());
    assert("OrderByClauseTerminators"@.len() != "HavingClauseTerminatorGrammar"@.len());
    assert("OrderByClauseTerminators"@.len() != "StatementSegment"@.len());
    assert("LimitClauseSegment"@.len() != "FromClauseTerminatorGrammar"@.len());
    assert("LimitClauseSegment"@.len() != "WhereClauseTerminatorGrammar"@.len());
    assert("LimitClauseSegment"@.len() != "GroupByClauseTerminatorGrammar"@.len());
    assert("LimitClauseSegment"@.len() != "HavingClauseTerminatorGrammar"@.len());
    assert("LimitClauseSegment"@.len() != "OrderByClauseTerminators"@.len());
    assert("LimitClauseSegment"@.len() != "StatementSegment"@.len());
    assert("ValuesClauseSegment"@.len() != "FromClauseTerminatorGrammar"@.len());
    assert("ValuesClauseSegment"@.len() != "WhereClauseTerminatorGrammar"@.len());
    assert("ValuesClauseSegment"@.len() != "GroupByClauseTerminatorGrammar"@.len());
    assert("ValuesClauseSegment"@.len() != "HavingClauseTerminatorGrammar"@.len());
    assert("ValuesClauseSegment"@.len() != "OrderByClauseTerminators"@.len());
    assert("ValuesClauseSegment"@.len() != "StatementSegment"@.len());
    let a = ansi_raw_dialect_view(ansi_unreserved, ansi_reserved);
    law_ansi_clause_terminators_in_library(ansi_unreserved, ansi_reserved);
    law_ansi_library_holds_the_fragments(ansi_unreserved, ansi_reserved);
    law_db2_terminators_add_offset();
    assert(db2_clause_terminators()[0] == ("FromClauseTerminatorGrammar"@, with_offset(ansi_clause_terminators()[0].1)));
    assert(db2_clause_terminators()[1] == ("WhereClauseTerminatorGrammar"@, with_offset(ansi_clause_terminators()[1].1)));
    assert(db2_clause_terminators()[2] == ("GroupByClauseTerminatorGrammar"@, with_offset(ansi_clause_terminators()[2].1)));
    assert(db2_clause_terminators()[3] == ("HavingClauseTerminatorGrammar"@, with_offset(ansi_clause_terminators()[3].1)));
    assert(db2_clause_terminators()[4] == ("OrderByClauseTerminators"@, with_offset(ansi_clause_terminators()[4].1)));
    law_expansion_keeps_elements_and_covers_keywords(a, "FromClauseTerminatorGrammar"@);
    law_expansion_keeps_elements_and_covers_keywords(a, "WhereClauseTerminatorGrammar"@);
    law_expansion_keeps_elements_and_covers_keywords(a, "GroupByClauseTerminatorGrammar"@);
    law_expansion_keeps_elements_and_covers_keywords(a, "HavingClauseTerminatorGrammar"@);
    law_expansion_keeps_elements_and_covers_keywords(a, "OrderByClauseTerminators"@);
    law_expansion_keeps_elements_and_covers_keywords(a, "StatementSegment"@);
    let e = expanded(a);
    let k = db2_keyword_changes(e, db2_unreserved);
    let w = with_grammars(k, db2_clause_terminators());
    reveal_with_fuel(with_grammars, 6);
    assert(db2_clause_terminators().len() == 5);
    lemma_db2_library_keeps_from_clause_terminator_grammar(w.with_lexer(patched(inserted(ansi_lexer_table(), db2_added_rules(), "equals"@), db2_replaced_rules())).library);
    lemma_db2_library_keeps_where_clause_terminator_grammar(w.with_lexer(patched(inserted(ansi_lexer_table(), db2_added_rules(), "equals"@), db2_replaced_rules())).library);
    lemma_db2_library_keeps_group_by_clause_terminator_grammar(w.with_lexer(patched(inserted(ansi_lexer_table(), db2_added_rules(), "equals"@), db2_replaced_rules())).library);
    lemma_db2_library_keeps_having_clause_terminator_grammar(w.with_lexer(patched(inserted(ansi_lexer_table(), db2_added_rules(), "equals"@), db2_replaced_rules())).library);
    lemma_db2_library_keeps_order_by_clause_terminators(w.with_lexer(patched(inserted(ansi_lexer_table(), db2_added_rules(), "equals"@), db2_replaced_rules())).library);
    lemma_db2_library_keeps_statement_segment(w.with_lexer(patched(inserted(ansi_lexer_table(), db2_added_rules(), "equals"@), db2_replaced_rules())).library);
    let es = references(statement_kinds());
    let ins = seq![GrammarView::reference("CallStoredProcedureSegment"@), GrammarView::reference("DeclareGlobalTempTableSegment"@)];
    assert(es.take(es.len() as int) + ins + es.skip(es.len() as int) =~= es.push(ins[0]).push(ins[1]));
    assert(es.len() == 39);
    assert forall|i: int| 0 <= i < ansi_clause_terminators().len() implies {
        let name = #[trigger] ansi_clause_terminators()[i].0;
        let ansi = ansi_clause_terminators()[i].1;
        &&& a.element(name) == Some(ElementView::Grammar(ansi))
        &&& db2_raw_dialect_view(ansi_unreserved, ansi_reserved, db2_unreserved).element(name) == Some(ElementView::Grammar(with_offset(ansi)))
        &&& with_offset(ansi).elements() == ansi.elements().push(GrammarView::keyword("OFFSET"@))
    } by {
        if i == 0 {
            assert(ansi_clause_terminators()[i].0 == "FromClauseTerminatorGrammar"@);
        }
        else if i == 1 {
            assert(ansi_clause_terminators()[i].0 == "WhereClauseTerminatorGrammar"@);
        }
        else if i == 2 {
            assert(ansi_clause_terminators()[i].0 == "GroupByClauseTerminatorGrammar"@);
        }
        else if i == 3 {
            assert(ansi_clause_terminators()[i].0 == "HavingClauseTerminatorGrammar"@);
        }
        else if i == 4 {
            assert(ansi_clause_terminators()[i].0 == "OrderByClauseTerminators"@);
        }
    }
}


proof fn lemma_db2_library_sets_offset_clause(m: Map<Seq<char>, ElementView>)
    ensures
        db2_library(m).dom().contains("OffsetClauseSegment"@),
        db2_library(m)["OffsetClauseSegment"@] == offset_clause_segment_element(),
{
    reveal(db2_library);
    reveal_strlit("OffsetClauseSegment");
    reveal_strlit("NakedIdentifierSegment");
    reveal_strlit("PostFunctionGrammar");
    reveal_strlit("Expression_C_Grammar");
    reveal_strlit("WithinGroupClauseSegment");
    assert("OffsetClauseSegment"@.len() != "NakedIdentifierSegment"@.len());
    assert("OffsetClauseSegment"@[0] != "PostFunctionGrammar"@[0]);
    assert("OffsetClauseSegment"@.len() != "Expression_C_Grammar"@.len());
    assert("OffsetClauseSegment"@.len() != "WithinGroupClauseSegment"@.len());
}

/// In the DB2 dialect an `OFFSET` clause is the keyword `OFFSET`, then a
/// numeric literal or an expression, then `ROW` or `ROWS`: both
/// `OFFSET 10 ROW` and `OFFSET 10 ROWS` are offset clauses. The DB2 library
/// holds that element whatever library it is added to.
pub proof fn law_db2_offset_clause(
    ansi_unreserved: Seq<char>,
    ansi_reserved: Seq<char>,
    db2_unreserved: Seq<Seq<char>>,
    lib: Map<Seq<char>, ElementView>,
)
    ensures
        ({
            let offset = ElementView::Node {
                kind: "offset_clause"@,
                grammar: GrammarView::sequence(seq![
                    GrammarView::keyword("OFFSET"@),
                    GrammarView::one_of(seq![GrammarView::reference("NumericLiteralSegment"@), GrammarView::reference("ExpressionSegment"@)]),
                    GrammarView::one_of(seq![GrammarView::keyword("ROW"@), GrammarView::keyword("ROWS"@)]),
                ]),
            };
            &&& db2_library(lib).dom().contains("OffsetClauseSegment"@)
            &&& db2_library(lib)["OffsetClauseSegment"@] == offset
            &&& db2_raw_dialect_view(ansi_unreserved, ansi_reserved, db2_unreserved).element("OffsetClauseSegment"@) == Some(offset)
        }),
{
    let offset = ElementView::Node {
        kind: "offset_clause"@,
        grammar: GrammarView::sequence(seq![
            GrammarView::keyword("OFFSET"@),
            GrammarView::one_of(seq![GrammarView::reference("NumericLiteralSegment"@), GrammarView::reference("ExpressionSegment"@)]),
            GrammarView::one_of(seq![GrammarView::keyword("ROW"@), GrammarView::keyword("ROWS"@)]),
        ]),
    };
    assert(offset_clause_segment_element() =~~= offset);
    lemma_db2_library_sets_offset_clause(lib);
    let d = expanded(ansi_raw_dialect_view(ansi_unreserved, ansi_reserved));
    let d = db2_keyword_changes(d, db2_unreserved);
    let d = with_grammars(d, db2_clause_terminators());
    let d = d.with_lexer(patched(inserted(ansi_lexer_table(), db2_added_rules(), "equals"@), db2_replaced_rules()));
    lemma_db2_library_sets_offset_clause(d.library);
    reveal_strlit("OffsetClauseSegment");
    reveal_strlit("LimitClauseSegment");
    reveal_strlit("ValuesClauseSegment");
    reveal_strlit("StatementSegment");
    assert("OffsetClauseSegment"@.len() != "LimitClauseSegment"@.len());
    assert("OffsetClauseSegment"@[0] != "ValuesClauseSegment"@[0]);
    assert("OffsetClauseSegment"@.len() != "StatementSegment"@.len());
}


proof fn lemma_db2_library_sets_within_group_clause(m: Map<Seq<char>, ElementView>)
    ensures
        db2_library(m).dom().contains("WithinGroupClauseSegment"@),
        db2_library(m)["WithinGroupClauseSegment"@] == within_group_clause_segment_element(),
{
    reveal(db2_library);
}

/// In the DB2 dialect `WithinGroupClauseSegment` is a `withingroup_clause`
/// node: `WITHIN GROUP` and, in round brackets, an optional `ORDER BY` clause.
/// The DB2 library holds that element whatever library it is added to.
pub proof fn law_db2_within_group_clause(
    ansi_unreserved: Seq<char>,
    ansi_reserved: Seq<char>,
    db2_unreserved: Seq<Seq<char>>,
    lib: Map<Seq<char>, ElementView>,
)
    ensures
        ({
            let e = (ElementView::Node { kind: "withingroup_clause"@, grammar: GrammarView::sequence(seq![GrammarView::keyword("WITHIN"@), GrammarView::keyword("GROUP"@), (GrammarView::Bracketed { elements: seq![GrammarView::optional_reference("OrderByClauseSegment"@)], bracket_type: "round"@ })]) });
            &&& db2_library(lib).dom().contains("WithinGroupClauseSegment"@)
            &&& db2_library(lib)["WithinGroupClauseSegment"@] == e
            &&& db2_raw_dialect_view(ansi_unreserved, ansi_reserved, db2_unreserved).element("WithinGroupClauseSegment"@) == Some(e)
        }),
{
    lemma_db2_library_sets_within_group_clause(lib);
    let d = expanded(ansi_raw_dialect_view(ansi_unreserved, ansi_reserved));
    let d = db2_keyword_changes(d, db2_unreserved);
    let d = with_grammars(d, db2_clause_terminators());
    let d = d.with_lexer(patched(inserted(ansi_lexer_table(), db2_added_rules(), "equals"@), db2_replaced_rules()));
    lemma_db2_library_sets_within_group_clause(d.library);
    reveal_strlit("WithinGroupClauseSegment");
    reveal_strlit("LimitClauseSegment");
    reveal_strlit("ValuesClauseSegment");
    reveal_strlit("StatementSegment");
    assert("WithinGroupClauseSegment"@.len() != "LimitClauseSegment"@.len());
    assert("WithinGroupClauseSegment"@.len() != "ValuesClauseSegment"@.len());
    assert("WithinGroupClauseSegment"@.len() != "StatementSegment"@.len());
}


proof fn lemma_db2_library_sets_right_arrow_segment(m: Map<Seq<char>, ElementView>)
    ensures
        db2_library(m).dom().contains("RightArrowSegment"@),
        db2_library(m)["RightArrowSegment"@] == right_arrow_segment_element(),
{
    reveal(db2_library);
    reveal_strlit("RightArrowSegment");
    reveal_strlit("BareFunctionSegment");
    assert("RightArrowSegment"@.len() != "BareFunctionSegment"@.len());
    reveal_strlit("CopyOptionsSegment");
    assert("RightArrowSegment"@.len() != "CopyOptionsSegment"@.len());
    reveal_strlit("DeclareDistributionClauseSegment");
    assert("RightArrowSegment"@.len() != "DeclareDistributionClauseSegment"@.len());
    reveal_strlit("DeclareGlobalTempTableSegment");
    assert("RightArrowSegment"@.len() != "DeclareGlobalTempTableSegment"@.len());
    reveal_strlit("Expression_C_Grammar");
    assert("RightArrowSegment"@.len() != "Expression_C_Grammar"@.len());
    reveal_strlit("LabeledDurationGrammar");
    assert("RightArrowSegment"@.len() != "LabeledDurationGrammar"@.len());
    reveal_strlit("NakedIdentifierSegment");
    assert("RightArrowSegment"@.len() != "NakedIdentifierSegment"@.len());
    reveal_strlit("NamedArgumentSegment");
    assert("RightArrowSegment"@.len() != "NamedArgumentSegment"@.len());
    reveal_strlit("OffsetClauseSegment");
    assert("RightArrowSegment"@.len() != "OffsetClauseSegment"@.len());
    reveal_strlit("PostFunctionGrammar");
    assert("RightArrowSegment"@.len() != "PostFunctionGrammar"@.len());
    reveal_strlit("SpecialRegisterGrammar");
    assert("RightArrowSegment"@.len() != "SpecialRegisterGrammar"@.len());
    reveal_strlit("WithinGroupClauseSegment");
    assert("RightArrowSegment"@.len() != "WithinGroupClauseSegment"@.len());
}

/// In the DB2 dialect `RightArrowSegment` is the segment `=>`, of kind
/// `right_arrow`.
/// The DB2 library holds that element whatever library it is added to.
pub proof fn law_db2_right_arrow(
    ansi_unreserved: Seq<char>,
    ansi_reserved: Seq<char>,
    db2_unreserved: Seq<Seq<char>>,
    lib: Map<Seq<char>, ElementView>,
)
    ensures
        ({
            let e = ElementView::Grammar((GrammarView::StringParser { template: "=>"@, kind: "right_arrow"@ }));
            &&& db2_library(lib).dom().contains("RightArrowSegment"@)
            &&& db2_library(lib)["RightArrowSegment"@] == e
            &&& db2_raw_dialect_view(ansi_unreserved, ansi_reserved, db2_unreserved).element("RightArrowSegment"@) == Some(e)
        }),
{
    lemma_db2_library_sets_right_arrow_segment(lib);
    let d = expanded(ansi_raw_dialect_view(ansi_unreserved, ansi_reserved));
    let d = db2_keyword_changes(d, db2_unreserved);
    let d = with_grammars(d, db2_clause_terminators());
    let d = d.with_lexer(patched(inserted(ansi_lexer_table(), db2_added_rules(), "equals"@), db2_replaced_rules()));
    lemma_db2_library_sets_right_arrow_segment(d.library);
    reveal_strlit("RightArrowSegment");
    reveal_strlit("LimitClauseSegment");
    reveal_strlit("ValuesClauseSegment");
    reveal_strlit("StatementSegment");
    assert("RightArrowSegment"@.len() != "LimitClauseSegment"@.len());
    assert("RightArrowSegment"@.len() != "ValuesClauseSegment"@.len());
    assert("RightArrowSegment"@.len() != "StatementSegment"@.len());
}

proof fn lemma_db2_library_sets_named_argument_segment(m: Map<Seq<char>, ElementView>)
    ensures
        db2_library(m).dom().contains("NamedArgumentSegment"@),
        db2_library(m)["NamedArgumentSegment"@] == named_argument_segment_element(),
{
    reveal(db2_library);
    reveal_strlit("NamedArgumentSegment");
    reveal_strlit("Expression_C_Grammar");
    assert("NamedArgumentSegment"@[0] != "Expression_C_Grammar"@[0]);
    reveal_strlit("NakedIdentifierSegment");
    assert("NamedArgumentSegment"@.len() != "NakedIdentifierSegment"@.len());
    reveal_strlit("OffsetClauseSegment");
    assert("NamedArgumentSegment"@.len() != "OffsetClauseSegment"@.len());
    reveal_strlit("PostFunctionGrammar");
    assert("NamedArgumentSegment"@.len() != "PostFunctionGrammar"@.len());
    reveal_strlit("WithinGroupClauseSegment");
    assert("NamedArgumentSegment"@.len() != "WithinGroupClauseSegment"@.len());
}

/// In the DB2 dialect `NamedArgumentSegment` is a `named_argument` node: an
/// identifier, `=>`, then an expression.
/// The DB2 library holds that element whatever library it is added to.
pub proof fn law_db2_named_argument(
    ansi_unreserved: Seq<char>,
    ansi_reserved: Seq<char>,
    db2_unreserved: Seq<Seq<char>>,
    lib: Map<Seq<char>, ElementView>,
)
    ensures
        ({
            let e = (ElementView::Node { kind: "named_argument"@, grammar: GrammarView::sequence(seq![GrammarView::reference("NakedIdentifierSegment"@), GrammarView::reference("RightArrowSegment"@), GrammarView::reference("ExpressionSegment"@)]) });
            &&& db2_library(lib).dom().contains("NamedArgumentSegment"@)
            &&& db2_library(lib)["NamedArgumentSegment"@] == e
            &&& db2_raw_dialect_view(ansi_unreserved, ansi_reserved, db2_unreserved).element("NamedArgumentSegment"@) == Some(e)
        }),
{
    lemma_db2_library_sets_named_argument_segment(lib);
    let d = expanded(ansi_raw_dialect_view(ansi_unreserved, ansi_reserved));
    let d = db2_keyword_changes(d, db2_unreserved);
    let d = with_grammars(d, db2_clause_terminators());
    let d = d.with_lexer(patched(inserted(ansi_lexer_table(), db2_added_rules(), "equals"@), db2_replaced_rules()));
    lemma_db2_library_sets_named_argument_segment(d.library);
    reveal_strlit("NamedArgumentSegment");
    reveal_strlit("LimitClauseSegment");
    reveal_strlit("ValuesClauseSegment");
    reveal_strlit("StatementSegment");
    assert("NamedArgumentSegment"@.len() != "LimitClauseSegment"@.len());
    assert("NamedArgumentSegment"@.len() != "ValuesClauseSegment"@.len());
    assert("NamedArgumentSegment"@.len() != "StatementSegment"@.len());
}

proof fn lemma_db2_library_sets_post_function_grammar(m: Map<Seq<char>, ElementView>)
    ensures
        db2_library(m).dom().contains("PostFunctionGrammar"@),
        db2_library(m)["PostFunctionGrammar"@] == post_function_grammar_element(),
{
    reveal(db2_library);
    reveal_strlit("PostFunctionGrammar");
    reveal_strlit("Expression_C_Grammar");
    assert("PostFunctionGrammar"@.len() != "Expression_C_Grammar"@.len());
    reveal_strlit("WithinGroupClauseSegment");
    assert("PostFunctionGrammar"@.len() != "WithinGroupClauseSegment"@.len());
}

/// In the DB2 dialect `PostFunctionGrammar` is an `OVER` clause or a
/// `WITHIN GROUP` clause.
/// The DB2 library holds that element whatever library it is added to.
pub proof fn law_db2_post_function(
    ansi_unreserved: Seq<char>,
    ansi_reserved: Seq<char>,
    db2_unreserved: Seq<Seq<char>>,
    lib: Map<Seq<char>, ElementView>,
)
    ensures
        ({
            let e = ElementView::Grammar(GrammarView::one_of(seq![GrammarView::reference("OverClauseSegment"@), GrammarView::reference("WithinGroupClauseSegment"@)]));
            &&& db2_library(lib).dom().contains("PostFunctionGrammar"@)
            &&& db2_library(lib)["PostFunctionGrammar"@] == e
            &&& db2_raw_dialect_view(ansi_unreserved, ansi_reserved, db2_unreserved).element("PostFunctionGrammar"@) == Some(e)
        }),
{
    lemma_db2_library_sets_post_function_grammar(lib);
    let d = expanded(ansi_raw_dialect_view(ansi_unreserved, ansi_reserved));
    let d = db2_keyword_changes(d, db2_unreserved);
    let d = with_grammars(d, db2_clause_terminators());
    let d = d.with_lexer(patched(inserted(ansi_lexer_table(), db2_added_rules(), "equals"@), db2_replaced_rules()));
    lemma_db2_library_sets_post_function_grammar(d.library);
    reveal_strlit("PostFunctionGrammar");
    reveal_strlit("LimitClauseSegment");
    reveal_strlit("ValuesClauseSegment");
    reveal_strlit("StatementSegment");
    assert("PostFunctionGrammar"@.len() != "LimitClauseSegment"@.len());
    assert("PostFunctionGrammar"@[0] != "ValuesClauseSegment"@[0]);
    assert("PostFunctionGrammar"@.len() != "StatementSegment"@.len());
}

proof fn lemma_db2_library_sets_declare_distribution_clause_segment(m: Map<Seq<char>, ElementView>)
    ensures
        db2_library(m).dom().contains("DeclareDistributionClauseSegment"@),
        db2_library(m)["DeclareDistributionClauseSegment"@] == declare_distribution_clause_segment_element(),
{
    reveal(db2_library);
    reveal_strlit("DeclareDistributionClauseSegment");
    reveal_strlit("Expression_C_Grammar");
    assert("DeclareDistributionClauseSegment"@.len() != "Expression_C_Grammar"@.len());
    reveal_strlit("NakedIdentifierSegment");
    assert("DeclareDistributionClauseSegment"@.len() != "NakedIdentifierSegment"@.len());
    reveal_strlit("NamedArgumentSegment");
    assert("DeclareDistributionClauseSegment"@.len() != "NamedArgumentSegment"@.len());
    reveal_strlit("OffsetClauseSegment");
    assert("DeclareDistributionClauseSegment"@.len() != "OffsetClauseSegment"@.len());
    reveal_strlit("PostFunctionGrammar");
    assert("DeclareDistributionClauseSegment"@.len() != "PostFunctionGrammar"@.len());
    reveal_strlit("WithinGroupClauseSegment");
    assert("DeclareDistributionClauseSegment"@.len() != "WithinGroupClauseSegment"@.len());
}

/// In the DB2 dialect `DeclareDistributionClauseSegment` is a
/// `distribution_segment` node: `DISTRIBUTE`, `BY` or `ON`, then either an
/// optional `HASH` and a bracketed list of columns, or `RANDOM`.
/// The DB2 library holds that element whatever library it is added to.
pub proof fn law_db2_declare_distribution_clause(
    ansi_unreserved: Seq<char>,
    ansi_reserved: Seq<char>,
    db2_unreserved: Seq<Seq<char>>,
    lib: Map<Seq<char>, ElementView>,
)
    ensures
        ({
            let e = (ElementView::Node { kind: "distribution_segment"@, grammar: GrammarView::sequence(seq![GrammarView::keyword("DISTRIBUTE"@), GrammarView::one_of(seq![GrammarView::keyword("BY"@), GrammarView::keyword("ON"@)]), GrammarView::one_of(seq![GrammarView::sequence(seq![(GrammarView::Optional { grammar: Box::new(GrammarView::keyword("HASH"@)) }), (GrammarView::Bracketed { elements: seq![GrammarView::delimited(seq![GrammarView::reference("ColumnReferenceSegment"@)])], bracket_type: "round"@ })]), GrammarView::keyword("RANDOM"@)])]) });
            &&& db2_library(lib).dom().contains("DeclareDistributionClauseSegment"@)
            &&& db2_library(lib)["DeclareDistributionClauseSegment"@] == e
            &&& db2_raw_dialect_view(ansi_unreserved, ansi_reserved, db2_unreserved).element("DeclareDistributionClauseSegment"@) == Some(e)
        }),
{
    lemma_db2_library_sets_declare_distribution_clause_segment(lib);
    let d = expanded(ansi_raw_dialect_view(ansi_unreserved, ansi_reserved));
    let d = db2_keyword_changes(d, db2_unreserved);
    let d = with_grammars(d, db2_clause_terminators());
    let d = d.with_lexer(patched(inserted(ansi_lexer_table(), db2_added_rules(), "equals"@), db2_replaced_rules()));
    lemma_db2_library_sets_declare_distribution_clause_segment(d.library);
    reveal_strlit("DeclareDistributionClauseSegment");
    reveal_strlit("LimitClauseSegment");
    reveal_strlit("ValuesClauseSegment");
    reveal_strlit("StatementSegment");
    assert("DeclareDistributionClauseSegment"@.len() != "LimitClauseSegment"@.len());
    assert("DeclareDistributionClauseSegment"@.len() != "ValuesClauseSegment"@.len());
    assert("DeclareDistributionClauseSegment"@.len() != "StatementSegment"@.len());
}

proof fn lemma_db2_library_sets_labeled_duration_grammar(m: Map<Seq<char>, ElementView>)
    ensures
        db2_library(m).dom().contains("LabeledDurationGrammar"@),
        db2_library(m)["LabeledDurationGrammar"@] == labeled_duration_grammar_element(),
{
    reveal(db2_library);
    reveal_strlit("LabeledDurationGrammar");
    reveal_strlit("BareFunctionSegment");
    assert("LabeledDurationGrammar"@.len() != "BareFunctionSegment"@.len());
    reveal_strlit("CopyOptionsSegment");
    assert("LabeledDurationGrammar"@.len() != "CopyOptionsSegment"@.len());
    reveal_strlit("DeclareDistributionClauseSegment");
    assert("LabeledDurationGrammar"@.len() != "DeclareDistributionClauseSegment"@.len());
    reveal_strlit("DeclareGlobalTempTableSegment");
    assert("LabeledDurationGrammar"@.len() != "DeclareGlobalTempTableSegment"@.len());
    reveal_strlit("Expression_C_Grammar");
    assert("LabeledDurationGrammar"@.len() != "Expression_C_Grammar"@.len());
    reveal_strlit("NakedIdentifierSegment");
    assert("LabeledDurationGrammar"@[0] != "NakedIdentifierSegment"@[0]);
    reveal_strlit("NamedArgumentSegment");
    assert("LabeledDurationGrammar"@.len() != "NamedArgumentSegment"@.len());
    reveal_strlit("OffsetClauseSegment");
    assert("LabeledDurationGrammar"@.len() != "OffsetClauseSegment"@.len());
    reveal_strlit("PostFunctionGrammar");
    assert("LabeledDurationGrammar"@.len() != "PostFunctionGrammar"@.len());
    reveal_strlit("SpecialRegisterGrammar");
    assert("LabeledDurationGrammar"@[0] != "SpecialRegisterGrammar"@[0]);
    reveal_strlit("WithinGroupClauseSegment");
    assert("LabeledDurationGrammar"@.len() != "WithinGroupClauseSegment"@.len());
}

/// In the DB2 dialect `LabeledDurationGrammar` is a value (a literal, a bare
/// function, a function, a column or a primary expression) followed by one of
/// the units `DAY`, `HOUR`, `MICROSECOND`, `MINUTE`, `MONTH`, `SECOND` and
/// `YEAR`, each also in its plural form.
/// The DB2 library holds that element whatever library it is added to.
pub proof fn law_db2_labeled_duration(
    ansi_unreserved: Seq<char>,
    ansi_reserved: Seq<char>,
    db2_unreserved: Seq<Seq<char>>,
    lib: Map<Seq<char>, ElementView>,
)
    ensures
        ({
            let e = ElementView::Grammar(GrammarView::sequence(seq![GrammarView::one_of(seq![GrammarView::reference("LiteralGrammar"@), GrammarView::reference("BareFunctionSegment"@), GrammarView::reference("FunctionSegment"@), GrammarView::reference("ColumnReferenceSegment"@), GrammarView::reference("Expression_D_Grammar"@)]), GrammarView::one_of(seq![GrammarView::keyword("DAY"@), GrammarView::keyword("DAYS"@), GrammarView::keyword("HOUR"@), GrammarView::keyword("HOURS"@), GrammarView::keyword("MICROSECOND"@), GrammarView::keyword("MICROSECONDS"@), GrammarView::keyword("MINUTE"@), GrammarView::keyword("MINUTES"@), GrammarView::keyword("MONTH"@), GrammarView::keyword("MONTHS"@), GrammarView::keyword("SECOND"@), GrammarView::keyword("SECONDS"@), GrammarView::keyword("YEAR"@), GrammarView::keyword("YEARS"@)])]));
            &&& db2_library(lib).dom().contains("LabeledDurationGrammar"@)
            &&& db2_library(lib)["LabeledDurationGrammar"@] == e
            &&& db2_raw_dialect_view(ansi_unreserved, ansi_reserved, db2_unreserved).element("LabeledDurationGrammar"@) == Some(e)
        }),
{
    lemma_db2_library_sets_labeled_duration_grammar(lib);
    let d = expanded(ansi_raw_dialect_view(ansi_unreserved, ansi_reserved));
    let d = db2_keyword_changes(d, db2_unreserved);
    let d = with_grammars(d, db2_clause_terminators());
    let d = d.with_lexer(patched(inserted(ansi_lexer_table(), db2_added_rules(), "equals"@), db2_replaced_rules()));
    lemma_db2_library_sets_labeled_duration_grammar(d.library);
    reveal_strlit("LabeledDurationGrammar");
    reveal_strlit("LimitClauseSegment");
    reveal_strlit("ValuesClauseSegment");
    reveal_strlit("StatementSegment");
    assert("LabeledDurationGrammar"@.len() != "LimitClauseSegment"@.len());
    assert("LabeledDurationGrammar"@.len() != "ValuesClauseSegment"@.len());
    assert("LabeledDurationGrammar"@.len() != "StatementSegment"@.len());
}

/// The DB2 keyword changes, whatever dialect they start from, leave DB2
/// without natural joins and conditional cross joins (their grammars match
/// nothing), make `CROSS` its unconditional cross join, allow `LATERAL` before
/// a table function, and let a function's argument be an expression or a
/// named argument (a node keeps its kind).
pub proof fn law_db2_join_keywords(d: DialectView, db2_unreserved: Seq<Seq<char>>)
    ensures
        has_grammar(db2_keyword_changes(d, db2_unreserved).element("NaturalJoinKeywordsGrammar"@), GrammarView::Nothing),
        has_grammar(db2_keyword_changes(d, db2_unreserved).element("ConditionalCrossJoinKeywordsGrammar"@), GrammarView::Nothing),
        has_grammar(
            db2_keyword_changes(d, db2_unreserved).element("UnconditionalCrossJoinKeywordsGrammar"@),
            GrammarView::keyword("CROSS"@),
        ),
        has_grammar(
            db2_keyword_changes(d, db2_unreserved).element("PreTableFunctionKeywordsGrammar"@),
            GrammarView::one_of(seq![GrammarView::keyword("LATERAL"@)]),
        ),
        has_grammar(
            db2_keyword_changes(d, db2_unreserved).element("FunctionContentsExpressionGrammar"@),
            GrammarView::one_of(seq![GrammarView::reference("ExpressionSegment"@), GrammarView::reference("NamedArgumentSegment"@)]),
        ),
{
    reveal_strlit("FunctionContentsExpressionGrammar");
    reveal_strlit("ConditionalCrossJoinKeywordsGrammar");
    reveal_strlit("NaturalJoinKeywordsGrammar");
    reveal_strlit("UnconditionalCrossJoinKeywordsGrammar");
    reveal_strlit("PreTableFunctionKeywordsGrammar");
    assert("FunctionContentsExpressionGrammar"@.len() != "ConditionalCrossJoinKeywordsGrammar"@.len());
    assert("FunctionContentsExpressionGrammar"@.len() != "NaturalJoinKeywordsGrammar"@.len());
    assert("FunctionContentsExpressionGrammar"@.len() != "UnconditionalCrossJoinKeywordsGrammar"@.len());
    assert("FunctionContentsExpressionGrammar"@.len() != "PreTableFunctionKeywordsGrammar"@.len());
    assert("ConditionalCrossJoinKeywordsGrammar"@.len() != "NaturalJoinKeywordsGrammar"@.len());
    assert("ConditionalCrossJoinKeywordsGrammar"@.len() != "UnconditionalCrossJoinKeywordsGrammar"@.len());
    assert("ConditionalCrossJoinKeywordsGrammar"@.len() != "PreTableFunctionKeywordsGrammar"@.len());
    assert("NaturalJoinKeywordsGrammar"@.len() != "UnconditionalCrossJoinKeywordsGrammar"@.len());
    assert("NaturalJoinKeywordsGrammar"@.len() != "PreTableFunctionKeywordsGrammar"@.len());
    assert("UnconditionalCrossJoinKeywordsGrammar"@.len() != "PreTableFunctionKeywordsGrammar"@.len());
}

} // verus!
