//! The grammar changes of the ClickHouse dialect: the elements it adds and the
//! grammars it replaces, in order. Each element or grammar is stated as a
//! value and built by a function proved to give that value.

use crate::dialect::{DialectModel, DialectView, Element, ElementView, has_grammar};
use crate::grammar::{Grammar, GrammarView, ParseMode, views, word_set};
use vstd::prelude::*;

verus! {

/// The ClickHouse element `NonWithSelectableGrammar`.
pub open spec fn non_with_selectable_grammar_element() -> ElementView {
    ElementView::Grammar(GrammarView::OneOf { elements: seq![GrammarView::Ref { name: "SetExpressionSegment"@, optional: false }, GrammarView::OneOf { elements: seq![GrammarView::Bracketed { elements: seq![GrammarView::Ref { name: "SelectStatementSegment"@, optional: false }], bracket_type: "round"@ }, GrammarView::Ref { name: "SelectStatementSegment"@, optional: false }], terminators: seq![] }, GrammarView::Ref { name: "NonSetSelectableGrammar"@, optional: false }, GrammarView::Ref { name: "UpdateStatementSegment"@, optional: false }, GrammarView::Ref { name: "InsertStatementSegment"@, optional: false }, GrammarView::Ref { name: "DeleteStatementSegment"@, optional: false }], terminators: seq![] })
}

fn build_non_with_selectable_grammar() -> (e: Element)
    ensures
        e@ =~~= non_with_selectable_grammar_element(),
{
    let g1: Vec<Grammar> = vec![Grammar::reference("SelectStatementSegment")];
    assert(views(g1@) =~~= seq![GrammarView::Ref { name: "SelectStatementSegment"@, optional: false }]);
    let g2 = Grammar::bracketed_with(g1, "round");
    let g3: Vec<Grammar> = vec![g2, Grammar::reference("SelectStatementSegment")];
    assert(views(g3@) =~~= seq![GrammarView::Bracketed { elements: seq![GrammarView::Ref { name: "SelectStatementSegment"@, optional: false }], bracket_type: "round"@ }, GrammarView::Ref { name: "SelectStatementSegment"@, optional: false }]);
    let g4: Vec<Grammar> = Vec::new();
    assert(views(g4@) =~= Seq::<GrammarView>::empty());
    let g5 = Grammar::one_of_with(g3, g4);
    let g6: Vec<Grammar> = vec![Grammar::reference("SetExpressionSegment"), g5, Grammar::reference("NonSetSelectableGrammar"), Grammar::reference("UpdateStatementSegment"), Grammar::reference("InsertStatementSegment"), Grammar::reference("DeleteStatementSegment")];
    assert(views(g6@) =~~= seq![GrammarView::Ref { name: "SetExpressionSegment"@, optional: false }, GrammarView::OneOf { elements: seq![GrammarView::Bracketed { elements: seq![GrammarView::Ref { name: "SelectStatementSegment"@, optional: false }], bracket_type: "round"@ }, GrammarView::Ref { name: "SelectStatementSegment"@, optional: false }], terminators: seq![] }, GrammarView::Ref { name: "NonSetSelectableGrammar"@, optional: false }, GrammarView::Ref { name: "UpdateStatementSegment"@, optional: false }, GrammarView::Ref { name: "InsertStatementSegment"@, optional: false }, GrammarView::Ref { name: "DeleteStatementSegment"@, optional: false }]);
    let g7: Vec<Grammar> = Vec::new();
    assert(views(g7@) =~= Seq::<GrammarView>::empty());
    let g8 = Grammar::one_of_with(g6, g7);
    Element::Grammar(g8)
}

/// The ClickHouse element `SelectClauseTerminatorGrammar`.
pub open spec fn select_clause_terminator_grammar_element() -> ElementView {
    ElementView::Grammar((GrammarView::OneOf { elements: seq![GrammarView::Keyword { word: "FROM"@ }, GrammarView::Keyword { word: "WHERE"@ }, GrammarView::Sequence { elements: seq![GrammarView::Keyword { word: "ORDER"@ }, GrammarView::Keyword { word: "BY"@ }], terminators: seq![], parse_mode: ParseMode::Strict }, GrammarView::Keyword { word: "LIMIT"@ }, GrammarView::Keyword { word: "OVERLAPS"@ }, GrammarView::Ref { name: "SetOperatorSegment"@, optional: false }, GrammarView::Keyword { word: "FETCH"@ }], terminators: seq![] }).copied(Some(seq![GrammarView::Keyword { word: "PREWHERE"@ }, GrammarView::Keyword { word: "INTO"@ }, GrammarView::Keyword { word: "FORMAT"@ }]), None, Some(GrammarView::Keyword { word: "WHERE"@ }), None, seq![], false))
}

fn build_select_clause_terminator_grammar() -> (e: Element)
    ensures
        e@ =~~= select_clause_terminator_grammar_element(),
{
    let g1: Vec<Grammar> = vec![Grammar::keyword("ORDER"), Grammar::keyword("BY")];
    assert(views(g1@) =~~= seq![GrammarView::Keyword { word: "ORDER"@ }, GrammarView::Keyword { word: "BY"@ }]);
    let g2: Vec<Grammar> = Vec::new();
    assert(views(g2@) =~= Seq::<GrammarView>::empty());
    let g3 = Grammar::sequence_with(g1, g2, ParseMode::Strict);
    let g4: Vec<Grammar> = vec![Grammar::keyword("FROM"), Grammar::keyword("WHERE"), g3, Grammar::keyword("LIMIT"), Grammar::keyword("OVERLAPS"), Grammar::reference("SetOperatorSegment"), Grammar::keyword("FETCH")];
    assert(views(g4@) =~~= seq![GrammarView::Keyword { word: "FROM"@ }, GrammarView::Keyword { word: "WHERE"@ }, GrammarView::Sequence { elements: seq![GrammarView::Keyword { word: "ORDER"@ }, GrammarView::Keyword { word: "BY"@ }], terminators: seq![], parse_mode: ParseMode::Strict }, GrammarView::Keyword { word: "LIMIT"@ }, GrammarView::Keyword { word: "OVERLAPS"@ }, GrammarView::Ref { name: "SetOperatorSegment"@, optional: false }, GrammarView::Keyword { word: "FETCH"@ }]);
    let g5: Vec<Grammar> = Vec::new();
    assert(views(g5@) =~= Seq::<GrammarView>::empty());
    let g6 = Grammar::one_of_with(g4, g5);
    let g7 = g6;
    assert(g7@ =~~= GrammarView::OneOf { elements: seq![GrammarView::Keyword { word: "FROM"@ }, GrammarView::Keyword { word: "WHERE"@ }, GrammarView::Sequence { elements: seq![GrammarView::Keyword { word: "ORDER"@ }, GrammarView::Keyword { word: "BY"@ }], terminators: seq![], parse_mode: ParseMode::Strict }, GrammarView::Keyword { word: "LIMIT"@ }, GrammarView::Keyword { word: "OVERLAPS"@ }, GrammarView::Ref { name: "SetOperatorSegment"@, optional: false }, GrammarView::Keyword { word: "FETCH"@ }], terminators: seq![] });
    let g8: Vec<Grammar> = vec![Grammar::keyword("PREWHERE"), Grammar::keyword("INTO"), Grammar::keyword("FORMAT")];
    assert(views(g8@) =~~= seq![GrammarView::Keyword { word: "PREWHERE"@ }, GrammarView::Keyword { word: "INTO"@ }, GrammarView::Keyword { word: "FORMAT"@ }]);
    let g9 = Grammar::keyword("WHERE");
    assert(g7@.elements()[1] =~~= g9@);
    let g10: Vec<Grammar> = Vec::new();
    assert(views(g10@) =~= Seq::<GrammarView>::empty());
    let g11 = g7.copy(Some(g8), None, Some(&g9), None, g10, false);
    Element::Grammar(g11)
}

/// The ClickHouse element `FromClauseTerminatorGrammar`.
pub open spec fn from_clause_terminator_grammar_element() -> ElementView {
    ElementView::Grammar(((GrammarView::OneOf { elements: seq![GrammarView::Keyword { word: "WHERE"@ }, GrammarView::Keyword { word: "LIMIT"@ }, GrammarView::Sequence { elements: seq![GrammarView::Keyword { word: "GROUP"@ }, GrammarView::Keyword { word: "BY"@ }], terminators: seq![], parse_mode: ParseMode::Strict }, GrammarView::Sequence { elements: seq![GrammarView::Keyword { word: "ORDER"@ }, GrammarView::Keyword { word: "BY"@ }], terminators: seq![], parse_mode: ParseMode::Strict }, GrammarView::Keyword { word: "HAVING"@ }, GrammarView::Keyword { word: "QUALIFY"@ }, GrammarView::Keyword { word: "WINDOW"@ }, GrammarView::Ref { name: "SetOperatorSegment"@, optional: false }, GrammarView::Ref { name: "WithNoSchemaBindingClauseSegment"@, optional: false }, GrammarView::Ref { name: "WithDataClauseSegment"@, optional: false }, GrammarView::Keyword { word: "FETCH"@ }], terminators: seq![] }).copied(Some(seq![GrammarView::Keyword { word: "PREWHERE"@ }, GrammarView::Keyword { word: "INTO"@ }, GrammarView::Keyword { word: "FORMAT"@ }]), None, Some(GrammarView::Keyword { word: "WHERE"@ }), None, seq![], false)).copied(Some(seq![GrammarView::Ref { name: "SettingsClauseSegment"@, optional: false }]), None, None, None, seq![], false))
}

fn build_from_clause_terminator_grammar() -> (e: Element)
    ensures
        e@ =~~= from_clause_terminator_grammar_element(),
{
    let g1: Vec<Grammar> = vec![Grammar::keyword("GROUP"), Grammar::keyword("BY")];
    assert(views(g1@) =~~= seq![GrammarView::Keyword { word: "GROUP"@ }, GrammarView::Keyword { word: "BY"@ }]);
    let g2: Vec<Grammar> = Vec::new();
    assert(views(g2@) =~= Seq::<GrammarView>::empty());
    let g3 = Grammar::sequence_with(g1, g2, ParseMode::Strict);
    let g4: Vec<Grammar> = vec![Grammar::keyword("ORDER"), Grammar::keyword("BY")];
    assert(views(g4@) =~~= seq![GrammarView::Keyword { word: "ORDER"@ }, GrammarView::Keyword { word: "BY"@ }]);
    let g5: Vec<Grammar> = Vec::new();
    assert(views(g5@) =~= Seq::<GrammarView>::empty());
    let g6 = Grammar::sequence_with(g4, g5, ParseMode::Strict);
    let g7: Vec<Grammar> = vec![Grammar::keyword("WHERE"), Grammar::keyword("LIMIT"), g3, g6, Grammar::keyword("HAVING"), Grammar::keyword("QUALIFY"), Grammar::keyword("WINDOW"), Grammar::reference("SetOperatorSegment"), Grammar::reference("WithNoSchemaBindingClauseSegment"), Grammar::reference("WithDataClauseSegment"), Grammar::keyword("FETCH")];
    assert(views(g7@) =~~= seq![GrammarView::Keyword { word: "WHERE"@ }, GrammarView::Keyword { word: "LIMIT"@ }, GrammarView::Sequence { elements: seq![GrammarView::Keyword { word: "GROUP"@ }, GrammarView::Keyword { word: "BY"@ }], terminators: seq![], parse_mode: ParseMode::Strict }, GrammarView::Sequence { elements: seq![GrammarView::Keyword { word: "ORDER"@ }, GrammarView::Keyword { word: "BY"@ }], terminators: seq![], parse_mode: ParseMode::Strict }, GrammarView::Keyword { word: "HAVING"@ }, GrammarView::Keyword { word: "QUALIFY"@ }, GrammarView::Keyword { word: "WINDOW"@ }, GrammarView::Ref { name: "SetOperatorSegment"@, optional: false }, GrammarView::Ref { name: "WithNoSchemaBindingClauseSegment"@, optional: false }, GrammarView::Ref { name: "WithDataClauseSegment"@, optional: false }, GrammarView::Keyword { word: "FETCH"@ }]);
    let g8: Vec<Grammar> = Vec::new();
    assert(views(g8@) =~= Seq::<GrammarView>::empty());
    let g9 = Grammar::one_of_with(g7, g8);
    let g10 = g9;
    assert(g10@ =~~= GrammarView::OneOf { elements: seq![GrammarView::Keyword { word: "WHERE"@ }, GrammarView::Keyword { word: "LIMIT"@ }, GrammarView::Sequence { elements: seq![GrammarView::Keyword { word: "GROUP"@ }, GrammarView::Keyword { word: "BY"@ }], terminators: seq![], parse_mode: ParseMode::Strict }, GrammarView::Sequence { elements: seq![GrammarView::Keyword { word: "ORDER"@ }, GrammarView::Keyword { word: "BY"@ }], terminators: seq![], parse_mode: ParseMode::Strict }, GrammarView::Keyword { word: "HAVING"@ }, GrammarView::Keyword { word: "QUALIFY"@ }, GrammarView::Keyword { word: "WINDOW"@ }, GrammarView::Ref { name: "SetOperatorSegment"@, optional: false }, GrammarView::Ref { name: "WithNoSchemaBindingClauseSegment"@, optional: false }, GrammarView::Ref { name: "WithDataClauseSegment"@, optional: false }, GrammarView::Keyword { word: "FETCH"@ }], terminators: seq![] });
    let g11: Vec<Grammar> = vec![Grammar::keyword("PREWHERE"), Grammar::keyword("INTO"), Grammar::keyword("FORMAT")];
    assert(views(g11@) =~~= seq![GrammarView::Keyword { word: "PREWHERE"@ }, GrammarView::Keyword { word: "INTO"@ }, GrammarView::Keyword { word: "FORMAT"@ }]);
    let g12 = Grammar::keyword("WHERE");
    assert(g10@.elements()[0] =~~= g12@);
    let g13: Vec<Grammar> = Vec::new();
    assert(views(g13@) =~= Seq::<GrammarView>::empty());
    let g14 = g10.copy(Some(g11), None, Some(&g12), None, g13, false);
    let g15 = g14;
    assert(g15@ =~~= (GrammarView::OneOf { elements: seq![GrammarView::Keyword { word: "WHERE"@ }, GrammarView::Keyword { word: "LIMIT"@ }, GrammarView::Sequence { elements: seq![GrammarView::Keyword { word: "GROUP"@ }, GrammarView::Keyword { word: "BY"@ }], terminators: seq![], parse_mode: ParseMode::Strict }, GrammarView::Sequence { elements: seq![GrammarView::Keyword { word: "ORDER"@ }, GrammarView::Keyword { word: "BY"@ }], terminators: seq![], parse_mode: ParseMode::Strict }, GrammarView::Keyword { word: "HAVING"@ }, GrammarView::Keyword { word: "QUALIFY"@ }, GrammarView::Keyword { word: "WINDOW"@ }, GrammarView::Ref { name: "SetOperatorSegment"@, optional: false }, GrammarView::Ref { name: "WithNoSchemaBindingClauseSegment"@, optional: false }, GrammarView::Ref { name: "WithDataClauseSegment"@, optional: false }, GrammarView::Keyword { word: "FETCH"@ }], terminators: seq![] }).copied(Some(seq![GrammarView::Keyword { word: "PREWHERE"@ }, GrammarView::Keyword { word: "INTO"@ }, GrammarView::Keyword { word: "FORMAT"@ }]), None, Some(GrammarView::Keyword { word: "WHERE"@ }), None, seq![], false));
    let g16: Vec<Grammar> = vec![Grammar::reference("SettingsClauseSegment")];
    assert(views(g16@) =~~= seq![GrammarView::Ref { name: "SettingsClauseSegment"@, optional: false }]);
    let g17: Vec<Grammar> = Vec::new();
    assert(views(g17@) =~= Seq::<GrammarView>::empty());
    let g18 = g15.copy(Some(g16), None, None, None, g17, false);
    Element::Grammar(g18)
}

/// The ClickHouse element `DateTimeLiteralGrammar`.
pub open spec fn date_time_literal_grammar_element() -> ElementView {
    ElementView::Grammar(GrammarView::Sequence { elements: seq![GrammarView::OneOf { elements: seq![GrammarView::Keyword { word: "DATE"@ }, GrammarView::Keyword { word: "TIME"@ }, GrammarView::Keyword { word: "TIMESTAMP"@ }], terminators: seq![] }, GrammarView::TypedParser { template: "single_quote"@, kind: "date_constructor_literal"@ }], terminators: seq![], parse_mode: ParseMode::Strict })
}

fn build_date_time_literal_grammar() -> (e: Element)
    ensures
        e@ =~~= date_time_literal_grammar_element(),
{
    let g1: Vec<Grammar> = vec![Grammar::keyword("DATE"), Grammar::keyword("TIME"), Grammar::keyword("TIMESTAMP")];
    assert(views(g1@) =~~= seq![GrammarView::Keyword { word: "DATE"@ }, GrammarView::Keyword { word: "TIME"@ }, GrammarView::Keyword { word: "TIMESTAMP"@ }]);
    let g2: Vec<Grammar> = Vec::new();
    assert(views(g2@) =~= Seq::<GrammarView>::empty());
    let g3 = Grammar::one_of_with(g1, g2);
    let g4: Vec<Grammar> = vec![g3, Grammar::typed_parser("single_quote", "date_constructor_literal")];
    assert(views(g4@) =~~= seq![GrammarView::OneOf { elements: seq![GrammarView::Keyword { word: "DATE"@ }, GrammarView::Keyword { word: "TIME"@ }, GrammarView::Keyword { word: "TIMESTAMP"@ }], terminators: seq![] }, GrammarView::TypedParser { template: "single_quote"@, kind: "date_constructor_literal"@ }]);
    let g5: Vec<Grammar> = Vec::new();
    assert(views(g5@) =~= Seq::<GrammarView>::empty());
    let g6 = Grammar::sequence_with(g4, g5, ParseMode::Strict);
    Element::Grammar(g6)
}

/// The ClickHouse grammar of `FromExpressionElementSegment`.
pub open spec fn from_expression_element_segment_grammar() -> GrammarView {
    GrammarView::Sequence { elements: seq![GrammarView::Ref { name: "PreTableFunctionKeywordsGrammar"@, optional: true }, GrammarView::OneOf { elements: seq![GrammarView::Bracketed { elements: seq![GrammarView::Ref { name: "TableExpressionSegment"@, optional: false }], bracket_type: "round"@ }, GrammarView::Ref { name: "TableExpressionSegment"@, optional: false }], terminators: seq![] }, GrammarView::Optional { grammar: Box::new(GrammarView::Exclude { grammar: Box::new(GrammarView::Ref { name: "AliasExpressionSegment"@, optional: false }), exclude: Box::new(GrammarView::OneOf { elements: seq![GrammarView::Ref { name: "FromClauseTerminatorGrammar"@, optional: false }, GrammarView::Ref { name: "SamplingExpressionSegment"@, optional: false }, GrammarView::Ref { name: "JoinLikeClauseGrammar"@, optional: false }, GrammarView::Keyword { word: "FINAL"@ }, GrammarView::Ref { name: "JoinClauseSegment"@, optional: false }], terminators: seq![] }) }) }, GrammarView::Optional { grammar: Box::new(GrammarView::Keyword { word: "FINAL"@ }) }, GrammarView::Optional { grammar: Box::new(GrammarView::Sequence { elements: seq![GrammarView::Keyword { word: "WITH"@ }, GrammarView::Keyword { word: "OFFSET"@ }, GrammarView::Ref { name: "AliasExpressionSegment"@, optional: false }], terminators: seq![], parse_mode: ParseMode::Strict }) }, GrammarView::Ref { name: "SamplingExpressionSegment"@, optional: true }, GrammarView::Ref { name: "PostTableExpressionGrammar"@, optional: true }], terminators: seq![], parse_mode: ParseMode::Strict }
}

fn build_from_expression_element_segment() -> (g: Grammar)
    ensures
        g@ =~~= from_expression_element_segment_grammar(),
{
    let g1: Vec<Grammar> = vec![Grammar::reference("TableExpressionSegment")];
    assert(views(g1@) =~~= seq![GrammarView::Ref { name: "TableExpressionSegment"@, optional: false }]);
    let g2 = Grammar::bracketed_with(g1, "round");
    let g3: Vec<Grammar> = vec![g2, Grammar::reference("TableExpressionSegment")];
    assert(views(g3@) =~~= seq![GrammarView::Bracketed { elements: seq![GrammarView::Ref { name: "TableExpressionSegment"@, optional: false }], bracket_type: "round"@ }, GrammarView::Ref { name: "TableExpressionSegment"@, optional: false }]);
    let g4: Vec<Grammar> = Vec::new();
    assert(views(g4@) =~= Seq::<GrammarView>::empty());
    let g5 = Grammar::one_of_with(g3, g4);
    let g6: Vec<Grammar> = vec![Grammar::reference("FromClauseTerminatorGrammar"), Grammar::reference("SamplingExpressionSegment"), Grammar::reference("JoinLikeClauseGrammar"), Grammar::keyword("FINAL"), Grammar::reference("JoinClauseSegment")];
    assert(views(g6@) =~~= seq![GrammarView::Ref { name: "FromClauseTerminatorGrammar"@, optional: false }, GrammarView::Ref { name: "SamplingExpressionSegment"@, optional: false }, GrammarView::Ref { name: "JoinLikeClauseGrammar"@, optional: false }, GrammarView::Keyword { word: "FINAL"@ }, GrammarView::Ref { name: "JoinClauseSegment"@, optional: false }]);
    let g7: Vec<Grammar> = Vec::new();
    assert(views(g7@) =~= Seq::<GrammarView>::empty());
    let g8 = Grammar::one_of_with(g6, g7);
    let g9 = Grammar::reference("AliasExpressionSegment").exclude(g8);
    let g10 = g9.optional();
    let g11 = Grammar::keyword("FINAL").optional();
    let g12: Vec<Grammar> = vec![Grammar::keyword("WITH"), Grammar::keyword("OFFSET"), Grammar::reference("AliasExpressionSegment")];
    assert(views(g12@) =~~= seq![GrammarView::Keyword { word: "WITH"@ }, GrammarView::Keyword { word: "OFFSET"@ }, GrammarView::Ref { name: "AliasExpressionSegment"@, optional: false }]);
    let g13: Vec<Grammar> = Vec::new();
    assert(views(g13@) =~= Seq::<GrammarView>::empty());
    let g14 = Grammar::sequence_with(g12, g13, ParseMode::Strict);
    let g15 = g14.optional();
    let g16: Vec<Grammar> = vec![Grammar::optional_reference("PreTableFunctionKeywordsGrammar"), g5, g10, g11, g15, Grammar::optional_reference("SamplingExpressionSegment"), Grammar::optional_reference("PostTableExpressionGrammar")];
    assert(views(g16@) =~~= seq![GrammarView::Ref { name: "PreTableFunctionKeywordsGrammar"@, optional: true }, GrammarView::OneOf { elements: seq![GrammarView::Bracketed { elements: seq![GrammarView::Ref { name: "TableExpressionSegment"@, optional: false }], bracket_type: "round"@ }, GrammarView::Ref { name: "TableExpressionSegment"@, optional: false }], terminators: seq![] }, GrammarView::Optional { grammar: Box::new(GrammarView::Exclude { grammar: Box::new(GrammarView::Ref { name: "AliasExpressionSegment"@, optional: false }), exclude: Box::new(GrammarView::OneOf { elements: seq![GrammarView::Ref { name: "FromClauseTerminatorGrammar"@, optional: false }, GrammarView::Ref { name: "SamplingExpressionSegment"@, optional: false }, GrammarView::Ref { name: "JoinLikeClauseGrammar"@, optional: false }, GrammarView::Keyword { word: "FINAL"@ }, GrammarView::Ref { name: "JoinClauseSegment"@, optional: false }], terminators: seq![] }) }) }, GrammarView::Optional { grammar: Box::new(GrammarView::Keyword { word: "FINAL"@ }) }, GrammarView::Optional { grammar: Box::new(GrammarView::Sequence { elements: seq![GrammarView::Keyword { word: "WITH"@ }, GrammarView::Keyword { word: "OFFSET"@ }, GrammarView::Ref { name: "AliasExpressionSegment"@, optional: false }], terminators: seq![], parse_mode: ParseMode::Strict }) }, GrammarView::Ref { name: "SamplingExpressionSegment"@, optional: true }, GrammarView::Ref { name: "PostTableExpressionGrammar"@, optional: true }]);
    let g17: Vec<Grammar> = Vec::new();
    assert(views(g17@) =~= Seq::<GrammarView>::empty());
    let g18 = Grammar::sequence_with(g16, g17, ParseMode::Strict);
    g18
}

/// The ClickHouse grammar of `JoinClauseSegment`.
pub open spec fn join_clause_segment_grammar() -> GrammarView {
    GrammarView::OneOf { elements: seq![GrammarView::Sequence { elements: seq![GrammarView::Ref { name: "JoinTypeKeywords"@, optional: true }, GrammarView::Ref { name: "JoinKeywordsGrammar"@, optional: false }, GrammarView::Indent, GrammarView::Ref { name: "FromExpressionElementSegment"@, optional: false }, GrammarView::Dedent, GrammarView::Conditional { meta: Box::new(GrammarView::Indent), setting: "indented_using_on"@ }, GrammarView::Optional { grammar: Box::new(GrammarView::OneOf { elements: seq![GrammarView::Ref { name: "JoinOnConditionSegment"@, optional: false }, GrammarView::Sequence { elements: seq![GrammarView::Keyword { word: "USING"@ }, GrammarView::Conditional { meta: Box::new(GrammarView::Indent), setting: "indented_using_on"@ }, GrammarView::Delimited { elements: seq![GrammarView::OneOf { elements: seq![GrammarView::InMode { grammar: Box::new(GrammarView::Bracketed { elements: seq![GrammarView::Delimited { elements: seq![GrammarView::Ref { name: "SingleIdentifierGrammar"@, optional: false }], allow_trailing: false, delimiter: None, terminators: seq![], allow_gaps: true }], bracket_type: "round"@ }), parse_mode: ParseMode::Greedy }, GrammarView::Delimited { elements: seq![GrammarView::Ref { name: "SingleIdentifierGrammar"@, optional: false }], allow_trailing: false, delimiter: None, terminators: seq![], allow_gaps: true }], terminators: seq![] }], allow_trailing: false, delimiter: None, terminators: seq![], allow_gaps: true }, GrammarView::Conditional { meta: Box::new(GrammarView::Dedent), setting: "indented_using_on"@ }], terminators: seq![], parse_mode: ParseMode::Strict }], terminators: seq![] }) }, GrammarView::Conditional { meta: Box::new(GrammarView::Dedent), setting: "indented_using_on"@ }], terminators: seq![], parse_mode: ParseMode::Strict }], terminators: seq![] }
}

fn build_join_clause_segment() -> (g: Grammar)
    ensures
        g@ =~~= join_clause_segment_grammar(),
{
    let g1 = Grammar::conditional(Grammar::indent(), "indented_using_on");
    let g2 = Grammar::conditional(Grammar::indent(), "indented_using_on");
    let g3: Vec<Grammar> = vec![Grammar::reference("SingleIdentifierGrammar")];
    assert(views(g3@) =~~= seq![GrammarView::Ref { name: "SingleIdentifierGrammar"@, optional: false }]);
    let g4: Vec<Grammar> = Vec::new();
    assert(views(g4@) =~= Seq::<GrammarView>::empty());
    let g5 = Grammar::delimited_with(g3, false, None, g4, true);
    let g6: Vec<Grammar> = vec![g5];
    assert(views(g6@) =~~= seq![GrammarView::Delimited { elements: seq![GrammarView::Ref { name: "SingleIdentifierGrammar"@, optional: false }], allow_trailing: false, delimiter: None, terminators: seq![], allow_gaps: true }]);
    let g7 = Grammar::bracketed_with(g6, "round");
    let g8 = g7.in_mode(ParseMode::Greedy);
    let g9: Vec<Grammar> = vec![Grammar::reference("SingleIdentifierGrammar")];
    assert(views(g9@) =~~= seq![GrammarView::Ref { name: "SingleIdentifierGrammar"@, optional: false }]);
    let g10: Vec<Grammar> = Vec::new();
    assert(views(g10@) =~= Seq::<GrammarView>::empty());
    let g11 = Grammar::delimited_with(g9, false, None, g10, true);
    let g12: Vec<Grammar> = vec![g8, g11];
    assert(views(g12@) =~~= seq![GrammarView::InMode { grammar: Box::new(GrammarView::Bracketed { elements: seq![GrammarView::Delimited { elements: seq![GrammarView::Ref { name: "SingleIdentifierGrammar"@, optional: false }], allow_trailing: false, delimiter: None, terminators: seq![], allow_gaps: true }], bracket_type: "round"@ }), parse_mode: ParseMode::Greedy }, GrammarView::Delimited { elements: seq![GrammarView::Ref { name: "SingleIdentifierGrammar"@, optional: false }], allow_trailing: false, delimiter: None, terminators: seq![], allow_gaps: true }]);
    let g13: Vec<Grammar> = Vec::new();
    assert(views(g13@) =~= Seq::<GrammarView>::empty());
    let g14 = Grammar::one_of_with(g12, g13);
    let g15: Vec<Grammar> = vec![g14];
    assert(views(g15@) =~~= seq![GrammarView::OneOf { elements: seq![GrammarView::InMode { grammar: Box::new(GrammarView::Bracketed { elements: seq![GrammarView::Delimited { elements: seq![GrammarView::Ref { name: "SingleIdentifierGrammar"@, optional: false }], allow_trailing: false, delimiter: None, terminators: seq![], allow_gaps: true }], bracket_type: "round"@ }), parse_mode: ParseMode::Greedy }, GrammarView::Delimited { elements: seq![GrammarView::Ref { name: "SingleIdentifierGrammar"@, optional: false }], allow_trailing: false, delimiter: None, terminators: seq![], allow_gaps: true }], terminators: seq![] }]);
    let g16: Vec<Grammar> = Vec::new();
    assert(views(g16@) =~= Seq::<GrammarView>::empty());
    let g17 = Grammar::delimited_with(g15, false, None, g16, true);
    let g18 = Grammar::conditional(Grammar::dedent(), "indented_using_on");
    let g19: Vec<Grammar> = vec![Grammar::keyword("USING"), g2, g17, g18];
    assert(views(g19@) =~~= seq![GrammarView::Keyword { word: "USING"@ }, GrammarView::Conditional { meta: Box::new(GrammarView::Indent), setting: "indented_using_on"@ }, GrammarView::Delimited { elements: seq![GrammarView::OneOf { elements: seq![GrammarView::InMode { grammar: Box::new(GrammarView::Bracketed { elements: seq![GrammarView::Delimited { elements: seq![GrammarView::Ref { name: "SingleIdentifierGrammar"@, optional: false }], allow_trailing: false, delimiter: None, terminators: seq![], allow_gaps: true }], bracket_type: "round"@ }), parse_mode: ParseMode::Greedy }, GrammarView::Delimited { elements: seq![GrammarView::Ref { name: "SingleIdentifierGrammar"@, optional: false }], allow_trailing: false, delimiter: None, terminators: seq![], allow_gaps: true }], terminators: seq![] }], allow_trailing: false, delimiter: None, terminators: seq![], allow_gaps: true }, GrammarView::Conditional { meta: Box::new(GrammarView::Dedent), setting: "indented_using_on"@ }]);
    let g20: Vec<Grammar> = Vec::new();
    assert(views(g20@) =~= Seq::<GrammarView>::empty());
    let g21 = Grammar::sequence_with(g19, g20, ParseMode::Strict);
    let g22: Vec<Grammar> = vec![Grammar::reference("JoinOnConditionSegment"), g21];
    assert(views(g22@) =~~= seq![GrammarView::Ref { name: "JoinOnConditionSegment"@, optional: false }, GrammarView::Sequence { elements: seq![GrammarView::Keyword { word: "USING"@ }, GrammarView::Conditional { meta: Box::new(GrammarView::Indent), setting: "indented_using_on"@ }, GrammarView::Delimited { elements: seq![GrammarView::OneOf { elements: seq![GrammarView::InMode { grammar: Box::new(GrammarView::Bracketed { elements: seq![GrammarView::Delimited { elements: seq![GrammarView::Ref { name: "SingleIdentifierGrammar"@, optional: false }], allow_trailing: false, delimiter: None, terminators: seq![], allow_gaps: true }], bracket_type: "round"@ }), parse_mode: ParseMode::Greedy }, GrammarView::Delimited { elements: seq![GrammarView::Ref { name: "SingleIdentifierGrammar"@, optional: false }], allow_trailing: false, delimiter: None, terminators: seq![], allow_gaps: true }], terminators: seq![] }], allow_trailing: false, delimiter: None, terminators: seq![], allow_gaps: true }, GrammarView::Conditional { meta: Box::new(GrammarView::Dedent), setting: "indented_using_on"@ }], terminators: seq![], parse_mode: ParseMode::Strict }]);
    let g23: Vec<Grammar> = Vec::new();
    assert(views(g23@) =~= Seq::<GrammarView>::empty());
    let g24 = Grammar::one_of_with(g22, g23);
    let g25 = g24.optional();
    let g26 = Grammar::conditional(Grammar::dedent(), "indented_using_on");
    let g27: Vec<Grammar> = vec![Grammar::optional_reference("JoinTypeKeywords"), Grammar::reference("JoinKeywordsGrammar"), Grammar::indent(), Grammar::reference("FromExpressionElementSegment"), Grammar::dedent(), g1, g25, g26];
    assert(views(g27@) =~~= seq![GrammarView::Ref { name: "JoinTypeKeywords"@, optional: true }, GrammarView::Ref { name: "JoinKeywordsGrammar"@, optional: false }, GrammarView::Indent, GrammarView::Ref { name: "FromExpressionElementSegment"@, optional: false }, GrammarView::Dedent, GrammarView::Conditional { meta: Box::new(GrammarView::Indent), setting: "indented_using_on"@ }, GrammarView::Optional { grammar: Box::new(GrammarView::OneOf { elements: seq![GrammarView::Ref { name: "JoinOnConditionSegment"@, optional: false }, GrammarView::Sequence { elements: seq![GrammarView::Keyword { word: "USING"@ }, GrammarView::Conditional { meta: Box::new(GrammarView::Indent), setting: "indented_using_on"@ }, GrammarView::Delimited { elements: seq![GrammarView::OneOf { elements: seq![GrammarView::InMode { grammar: Box::new(GrammarView::Bracketed { elements: seq![GrammarView::Delimited { elements: seq![GrammarView::Ref { name: "SingleIdentifierGrammar"@, optional: false }], allow_trailing: false, delimiter: None, terminators: seq![], allow_gaps: true }], bracket_type: "round"@ }), parse_mode: ParseMode::Greedy }, GrammarView::Delimited { elements: seq![GrammarView::Ref { name: "SingleIdentifierGrammar"@, optional: false }], allow_trailing: false, delimiter: None, terminators: seq![], allow_gaps: true }], terminators: seq![] }], allow_trailing: false, delimiter: None, terminators: seq![], allow_gaps: true }, GrammarView::Conditional { meta: Box::new(GrammarView::Dedent), setting: "indented_using_on"@ }], terminators: seq![], parse_mode: ParseMode::Strict }], terminators: seq![] }) }, GrammarView::Conditional { meta: Box::new(GrammarView::Dedent), setting: "indented_using_on"@ }]);
    let g28: Vec<Grammar> = Vec::new();
    assert(views(g28@) =~= Seq::<GrammarView>::empty());
    let g29 = Grammar::sequence_with(g27, g28, ParseMode::Strict);
    let g30: Vec<Grammar> = vec![g29];
    assert(views(g30@) =~~= seq![GrammarView::Sequence { elements: seq![GrammarView::Ref { name: "JoinTypeKeywords"@, optional: true }, GrammarView::Ref { name: "JoinKeywordsGrammar"@, optional: false }, GrammarView::Indent, GrammarView::Ref { name: "FromExpressionElementSegment"@, optional: false }, GrammarView::Dedent, GrammarView::Conditional { meta: Box::new(GrammarView::Indent), setting: "indented_using_on"@ }, GrammarView::Optional { grammar: Box::new(GrammarView::OneOf { elements: seq![GrammarView::Ref { name: "JoinOnConditionSegment"@, optional: false }, GrammarView::Sequence { elements: seq![GrammarView::Keyword { word: "USING"@ }, GrammarView::Conditional { meta: Box::new(GrammarView::Indent), setting: "indented_using_on"@ }, GrammarView::Delimited { elements: seq![GrammarView::OneOf { elements: seq![GrammarView::InMode { grammar: Box::new(GrammarView::Bracketed { elements: seq![GrammarView::Delimited { elements: seq![GrammarView::Ref { name: "SingleIdentifierGrammar"@, optional: false }], allow_trailing: false, delimiter: None, terminators: seq![], allow_gaps: true }], bracket_type: "round"@ }), parse_mode: ParseMode::Greedy }, GrammarView::Delimited { elements: seq![GrammarView::Ref { name: "SingleIdentifierGrammar"@, optional: false }], allow_trailing: false, delimiter: None, terminators: seq![], allow_gaps: true }], terminators: seq![] }], allow_trailing: false, delimiter: None, terminators: seq![], allow_gaps: true }, GrammarView::Conditional { meta: Box::new(GrammarView::Dedent), setting: "indented_using_on"@ }], terminators: seq![], parse_mode: ParseMode::Strict }], terminators: seq![] }) }, GrammarView::Conditional { meta: Box::new(GrammarView::Dedent), setting: "indented_using_on"@ }], terminators: seq![], parse_mode: ParseMode::Strict }]);
    let g31: Vec<Grammar> = Vec::new();
    assert(views(g31@) =~= Seq::<GrammarView>::empty());
    let g32 = Grammar::one_of_with(g30, g31);
    g32
}

/// The ClickHouse grammar of `SelectClauseModifierSegment`.
pub open spec fn select_clause_modifier_segment_grammar() -> GrammarView {
    GrammarView::OneOf { elements: seq![GrammarView::Sequence { elements: seq![GrammarView::Keyword { word: "DISTINCT"@ }, GrammarView::Optional { grammar: Box::new(GrammarView::Sequence { elements: seq![GrammarView::Keyword { word: "ON"@ }, GrammarView::Bracketed { elements: seq![GrammarView::Delimited { elements: seq![GrammarView::Ref { name: "ExpressionSegment"@, optional: false }], allow_trailing: false, delimiter: None, terminators: seq![], allow_gaps: true }], bracket_type: "round"@ }], terminators: seq![], parse_mode: ParseMode::Strict }) }], terminators: seq![], parse_mode: ParseMode::Strict }, GrammarView::Keyword { word: "ALL"@ }], terminators: seq![] }
}

fn build_select_clause_modifier_segment() -> (g: Grammar)
    ensures
        g@ =~~= select_clause_modifier_segment_grammar(),
{
    let g1: Vec<Grammar> = vec![Grammar::reference("ExpressionSegment")];
    assert(views(g1@) =~~= seq![GrammarView::Ref { name: "ExpressionSegment"@, optional: false }]);
    let g2: Vec<Grammar> = Vec::new();
    assert(views(g2@) =~= Seq::<GrammarView>::empty());
    let g3 = Grammar::delimited_with(g1, false, None, g2, true);
    let g4: Vec<Grammar> = vec![g3];
    assert(views(g4@) =~~= seq![GrammarView::Delimited { elements: seq![GrammarView::Ref { name: "ExpressionSegment"@, optional: false }], allow_trailing: false, delimiter: None, terminators: seq![], allow_gaps: true }]);
    let g5 = Grammar::bracketed_with(g4, "round");
    let g6: Vec<Grammar> = vec![Grammar::keyword("ON"), g5];
    assert(views(g6@) =~~= seq![GrammarView::Keyword { word: "ON"@ }, GrammarView::Bracketed { elements: seq![GrammarView::Delimited { elements: seq![GrammarView::Ref { name: "ExpressionSegment"@, optional: false }], allow_trailing: false, delimiter: None, terminators: seq![], allow_gaps: true }], bracket_type: "round"@ }]);
    let g7: Vec<Grammar> = Vec::new();
    assert(views(g7@) =~= Seq::<GrammarView>::empty());
    let g8 = Grammar::sequence_with(g6, g7, ParseMode::Strict);
    let g9 = g8.optional();
    let g10: Vec<Grammar> = vec![Grammar::keyword("DISTINCT"), g9];
    assert(views(g10@) =~~= seq![GrammarView::Keyword { word: "DISTINCT"@ }, GrammarView::Optional { grammar: Box::new(GrammarView::Sequence { elements: seq![GrammarView::Keyword { word: "ON"@ }, GrammarView::Bracketed { elements: seq![GrammarView::Delimited { elements: seq![GrammarView::Ref { name: "ExpressionSegment"@, optional: false }], allow_trailing: false, delimiter: None, terminators: seq![], allow_gaps: true }], bracket_type: "round"@ }], terminators: seq![], parse_mode: ParseMode::Strict }) }]);
    let g11: Vec<Grammar> = Vec::new();
    assert(views(g11@) =~= Seq::<GrammarView>::empty());
    let g12 = Grammar::sequence_with(g10, g11, ParseMode::Strict);
    let g13: Vec<Grammar> = vec![g12, Grammar::keyword("ALL")];
    assert(views(g13@) =~~= seq![GrammarView::Sequence { elements: seq![GrammarView::Keyword { word: "DISTINCT"@ }, GrammarView::Optional { grammar: Box::new(GrammarView::Sequence { elements: seq![GrammarView::Keyword { word: "ON"@ }, GrammarView::Bracketed { elements: seq![GrammarView::Delimited { elements: seq![GrammarView::Ref { name: "ExpressionSegment"@, optional: false }], allow_trailing: false, delimiter: None, terminators: seq![], allow_gaps: true }], bracket_type: "round"@ }], terminators: seq![], parse_mode: ParseMode::Strict }) }], terminators: seq![], parse_mode: ParseMode::Strict }, GrammarView::Keyword { word: "ALL"@ }]);
    let g14: Vec<Grammar> = Vec::new();
    assert(views(g14@) =~= Seq::<GrammarView>::empty());
    let g15 = Grammar::one_of_with(g13, g14);
    g15
}

/// The ClickHouse grammar of `OrderByClauseSegment`.
pub open spec fn order_by_clause_segment_grammar() -> GrammarView {
    GrammarView::Sequence { elements: seq![GrammarView::Keyword { word: "ORDER"@ }, GrammarView::Keyword { word: "BY"@ }, GrammarView::Indent, GrammarView::Delimited { elements: seq![GrammarView::Sequence { elements: seq![GrammarView::OneOf { elements: seq![GrammarView::Ref { name: "ColumnReferenceSegment"@, optional: false }, GrammarView::Ref { name: "NumericLiteralSegment"@, optional: false }, GrammarView::Ref { name: "ExpressionSegment"@, optional: false }], terminators: seq![] }, GrammarView::Optional { grammar: Box::new(GrammarView::OneOf { elements: seq![GrammarView::Keyword { word: "ASC"@ }, GrammarView::Keyword { word: "DESC"@ }], terminators: seq![] }) }, GrammarView::Optional { grammar: Box::new(GrammarView::Sequence { elements: seq![GrammarView::Keyword { word: "NULLS"@ }, GrammarView::OneOf { elements: seq![GrammarView::Keyword { word: "FIRST"@ }, GrammarView::Keyword { word: "LAST"@ }], terminators: seq![] }], terminators: seq![], parse_mode: ParseMode::Strict }) }, GrammarView::Ref { name: "WithFillSegment"@, optional: true }], terminators: seq![], parse_mode: ParseMode::Strict }], allow_trailing: false, delimiter: None, terminators: seq![GrammarView::Keyword { word: "LIMIT"@ }, GrammarView::Ref { name: "FrameClauseUnitGrammar"@, optional: false }], allow_gaps: true }, GrammarView::Dedent], terminators: seq![], parse_mode: ParseMode::Strict }
}

fn build_order_by_clause_segment() -> (g: Grammar)
    ensures
        g@ =~~= order_by_clause_segment_grammar(),
{
    let g1: Vec<Grammar> = vec![Grammar::reference("ColumnReferenceSegment"), Grammar::reference("NumericLiteralSegment"), Grammar::reference("ExpressionSegment")];
    assert(views(g1@) =~~= seq![GrammarView::Ref { name: "ColumnReferenceSegment"@, optional: false }, GrammarView::Ref { name: "NumericLiteralSegment"@, optional: false }, GrammarView::Ref { name: "ExpressionSegment"@, optional: false }]);
    let g2: Vec<Grammar> = Vec::new();
    assert(views(g2@) =~= Seq::<GrammarView>::empty());
    let g3 = Grammar::one_of_with(g1, g2);
    let g4: Vec<Grammar> = vec![Grammar::keyword("ASC"), Grammar::keyword("DESC")];
    assert(views(g4@) =~~= seq![GrammarView::Keyword { word: "ASC"@ }, GrammarView::Keyword { word: "DESC"@ }]);
    let g5: Vec<Grammar> = Vec::new();
    assert(views(g5@) =~= Seq::<GrammarView>::empty());
    let g6 = Grammar::one_of_with(g4, g5);
    let g7 = g6.optional();
    let g8: Vec<Grammar> = vec![Grammar::keyword("FIRST"), Grammar::keyword("LAST")];
    assert(views(g8@) =~~= seq![GrammarView::Keyword { word: "FIRST"@ }, GrammarView::Keyword { word: "LAST"@ }]);
    let g9: Vec<Grammar> = Vec::new();
    assert(views(g9@) =~= Seq::<GrammarView>::empty());
    let g10 = Grammar::one_of_with(g8, g9);
    let g11: Vec<Grammar> = vec![Grammar::keyword("NULLS"), g10];
    assert(views(g11@) =~~= seq![GrammarView::Keyword { word: "NULLS"@ }, GrammarView::OneOf { elements: seq![GrammarView::Keyword { word: "FIRST"@ }, GrammarView::Keyword { word: "LAST"@ }], terminators: seq![] }]);
    let g12: Vec<Grammar> = Vec::new();
    assert(views(g12@) =~= Seq::<GrammarView>::empty());
    let g13 = Grammar::sequence_with(g11, g12, ParseMode::Strict);
    let g14 = g13.optional();
    let g15: Vec<Grammar> = vec![g3, g7, g14, Grammar::optional_reference("WithFillSegment")];
    assert(views(g15@) =~~= seq![GrammarView::OneOf { elements: seq![GrammarView::Ref { name: "ColumnReferenceSegment"@, optional: false }, GrammarView::Ref { name: "NumericLiteralSegment"@, optional: false }, GrammarView::Ref { name: "ExpressionSegment"@, optional: false }], terminators: seq![] }, GrammarView::Optional { grammar: Box::new(GrammarView::OneOf { elements: seq![GrammarView::Keyword { word: "ASC"@ }, GrammarView::Keyword { word: "DESC"@ }], terminators: seq![] }) }, GrammarView::Optional { grammar: Box::new(GrammarView::Sequence { elements: seq![GrammarView::Keyword { word: "NULLS"@ }, GrammarView::OneOf { elements: seq![GrammarView::Keyword { word: "FIRST"@ }, GrammarView::Keyword { word: "LAST"@ }], terminators: seq![] }], terminators: seq![], parse_mode: ParseMode::Strict }) }, GrammarView::Ref { name: "WithFillSegment"@, optional: true }]);
    let g16: Vec<Grammar> = Vec::new();
    assert(views(g16@) =~= Seq::<GrammarView>::empty());
    let g17 = Grammar::sequence_with(g15, g16, ParseMode::Strict);
    let g18: Vec<Grammar> = vec![g17];
    assert(views(g18@) =~~= seq![GrammarView::Sequence { elements: seq![GrammarView::OneOf { elements: seq![GrammarView::Ref { name: "ColumnReferenceSegment"@, optional: false }, GrammarView::Ref { name: "NumericLiteralSegment"@, optional: false }, GrammarView::Ref { name: "ExpressionSegment"@, optional: false }], terminators: seq![] }, GrammarView::Optional { grammar: Box::new(GrammarView::OneOf { elements: seq![GrammarView::Keyword { word: "ASC"@ }, GrammarView::Keyword { word: "DESC"@ }], terminators: seq![] }) }, GrammarView::Optional { grammar: Box::new(GrammarView::Sequence { elements: seq![GrammarView::Keyword { word: "NULLS"@ }, GrammarView::OneOf { elements: seq![GrammarView::Keyword { word: "FIRST"@ }, GrammarView::Keyword { word: "LAST"@ }], terminators: seq![] }], terminators: seq![], parse_mode: ParseMode::Strict }) }, GrammarView::Ref { name: "WithFillSegment"@, optional: true }], terminators: seq![], parse_mode: ParseMode::Strict }]);
    let g19: Vec<Grammar> = vec![Grammar::keyword("LIMIT"), Grammar::reference("FrameClauseUnitGrammar")];
    assert(views(g19@) =~~= seq![GrammarView::Keyword { word: "LIMIT"@ }, GrammarView::Ref { name: "FrameClauseUnitGrammar"@, optional: false }]);
    let g20 = Grammar::delimited_with(g18, false, None, g19, true);
    let g21: Vec<Grammar> = vec![Grammar::keyword("ORDER"), Grammar::keyword("BY"), Grammar::indent(), g20, Grammar::dedent()];
    assert(views(g21@) =~~= seq![GrammarView::Keyword { word: "ORDER"@ }, GrammarView::Keyword { word: "BY"@ }, GrammarView::Indent, GrammarView::Delimited { elements: seq![GrammarView::Sequence { elements: seq![GrammarView::OneOf { elements: seq![GrammarView::Ref { name: "ColumnReferenceSegment"@, optional: false }, GrammarView::Ref { name: "NumericLiteralSegment"@, optional: false }, GrammarView::Ref { name: "ExpressionSegment"@, optional: false }], terminators: seq![] }, GrammarView::Optional { grammar: Box::new(GrammarView::OneOf { elements: seq![GrammarView::Keyword { word: "ASC"@ }, GrammarView::Keyword { word: "DESC"@ }], terminators: seq![] }) }, GrammarView::Optional { grammar: Box::new(GrammarView::Sequence { elements: seq![GrammarView::Keyword { word: "NULLS"@ }, GrammarView::OneOf { elements: seq![GrammarView::Keyword { word: "FIRST"@ }, GrammarView::Keyword { word: "LAST"@ }], terminators: seq![] }], terminators: seq![], parse_mode: ParseMode::Strict }) }, GrammarView::Ref { name: "WithFillSegment"@, optional: true }], terminators: seq![], parse_mode: ParseMode::Strict }], allow_trailing: false, delimiter: None, terminators: seq![GrammarView::Keyword { word: "LIMIT"@ }, GrammarView::Ref { name: "FrameClauseUnitGrammar"@, optional: false }], allow_gaps: true }, GrammarView::Dedent]);
    let g22: Vec<Grammar> = Vec::new();
    assert(views(g22@) =~= Seq::<GrammarView>::empty());
    let g23 = Grammar::sequence_with(g21, g22, ParseMode::Strict);
    g23
}

/// The ClickHouse element `NakedIdentifierSegment`.
pub open spec fn naked_identifier_segment_element() -> ElementView {
    ElementView::IdentifierNotIn { pattern: "[a-zA-Z_][0-9a-zA-Z_]*"@, kind: "naked_identifier"@, set: "reserved_keywords"@ }
}

fn build_naked_identifier_segment() -> (e: Element)
    ensures
        e@ =~~= naked_identifier_segment_element(),
{
    Element::IdentifierNotIn { pattern: "[a-zA-Z_][0-9a-zA-Z_]*", kind: "naked_identifier", set: "reserved_keywords" }
}

/// The ClickHouse element `BackQuotedIdentifierSegment`.
pub open spec fn back_quoted_identifier_segment_element() -> ElementView {
    ElementView::Grammar(GrammarView::TypedParser { template: "back_quote"@, kind: "quoted_identifier"@ })
}

fn build_back_quoted_identifier_segment() -> (e: Element)
    ensures
        e@ =~~= back_quoted_identifier_segment_element(),
{
    Element::Grammar(Grammar::typed_parser("back_quote", "quoted_identifier"))
}

/// The ClickHouse element `SingleIdentifierGrammar`.
pub open spec fn single_identifier_grammar_element() -> ElementView {
    ElementView::Grammar(GrammarView::OneOf { elements: seq![GrammarView::Ref { name: "NakedIdentifierSegment"@, optional: false }, GrammarView::Ref { name: "QuotedIdentifierSegment"@, optional: false }, GrammarView::Ref { name: "SingleQuotedIdentifierSegment"@, optional: false }, GrammarView::Ref { name: "BackQuotedIdentifierSegment"@, optional: false }], terminators: seq![] })
}

fn build_single_identifier_grammar() -> (e: Element)
    ensures
        e@ =~~= single_identifier_grammar_element(),
{
    let g1: Vec<Grammar> = vec![Grammar::reference("NakedIdentifierSegment"), Grammar::reference("QuotedIdentifierSegment"), Grammar::reference("SingleQuotedIdentifierSegment"), Grammar::reference("BackQuotedIdentifierSegment")];
    assert(views(g1@) =~~= seq![GrammarView::Ref { name: "NakedIdentifierSegment"@, optional: false }, GrammarView::Ref { name: "QuotedIdentifierSegment"@, optional: false }, GrammarView::Ref { name: "SingleQuotedIdentifierSegment"@, optional: false }, GrammarView::Ref { name: "BackQuotedIdentifierSegment"@, optional: false }]);
    let g2: Vec<Grammar> = Vec::new();
    assert(views(g2@) =~= Seq::<GrammarView>::empty());
    let g3 = Grammar::one_of_with(g1, g2);
    Element::Grammar(g3)
}

/// The ClickHouse element `ExceptClauseSegment`.
pub open spec fn except_clause_segment_element() -> ElementView {
    ElementView::Node { kind: "select_except_clause"@, grammar: GrammarView::Sequence { elements: seq![GrammarView::Keyword { word: "EXCEPT"@ }, GrammarView::OneOf { elements: seq![GrammarView::Bracketed { elements: seq![GrammarView::Delimited { elements: seq![GrammarView::Ref { name: "SingleIdentifierGrammar"@, optional: false }], allow_trailing: false, delimiter: None, terminators: seq![], allow_gaps: true }], bracket_type: "round"@ }, GrammarView::Ref { name: "SingleIdentifierGrammar"@, optional: false }], terminators: seq![] }], terminators: seq![], parse_mode: ParseMode::Strict } }
}

fn build_except_clause_segment() -> (e: Element)
    ensures
        e@ =~~= except_clause_segment_element(),
{
    let g1: Vec<Grammar> = vec![Grammar::reference("SingleIdentifierGrammar")];
    assert(views(g1@) =~~= seq![GrammarView::Ref { name: "SingleIdentifierGrammar"@, optional: false }]);
    let g2: Vec<Grammar> = Vec::new();
    assert(views(g2@) =~= Seq::<GrammarView>::empty());
    let g3 = Grammar::delimited_with(g1, false, None, g2, true);
    let g4: Vec<Grammar> = vec![g3];
    assert(views(g4@) =~~= seq![GrammarView::Delimited { elements: seq![GrammarView::Ref { name: "SingleIdentifierGrammar"@, optional: false }], allow_trailing: false, delimiter: None, terminators: seq![], allow_gaps: true }]);
    let g5 = Grammar::bracketed_with(g4, "round");
    let g6: Vec<Grammar> = vec![g5, Grammar::reference("SingleIdentifierGrammar")];
    assert(views(g6@) =~~= seq![GrammarView::Bracketed { elements: seq![GrammarView::Delimited { elements: seq![GrammarView::Ref { name: "SingleIdentifierGrammar"@, optional: false }], allow_trailing: false, delimiter: None, terminators: seq![], allow_gaps: true }], bracket_type: "round"@ }, GrammarView::Ref { name: "SingleIdentifierGrammar"@, optional: false }]);
    let g7: Vec<Grammar> = Vec::new();
    assert(views(g7@) =~= Seq::<GrammarView>::empty());
    let g8 = Grammar::one_of_with(g6, g7);
    let g9: Vec<Grammar> = vec![Grammar::keyword("EXCEPT"), g8];
    assert(views(g9@) =~~= seq![GrammarView::Keyword { word: "EXCEPT"@ }, GrammarView::OneOf { elements: seq![GrammarView::Bracketed { elements: seq![GrammarView::Delimited { elements: seq![GrammarView::Ref { name: "SingleIdentifierGrammar"@, optional: false }], allow_trailing: false, delimiter: None, terminators: seq![], allow_gaps: true }], bracket_type: "round"@ }, GrammarView::Ref { name: "SingleIdentifierGrammar"@, optional: false }], terminators: seq![] }]);
    let g10: Vec<Grammar> = Vec::new();
    assert(views(g10@) =~= Seq::<GrammarView>::empty());
    let g11 = Grammar::sequence_with(g9, g10, ParseMode::Strict);
    Element::Node { kind: "select_except_clause", grammar: g11 }
}

/// The ClickHouse element `QuotedLiteralSegment`.
pub open spec fn quoted_literal_segment_element() -> ElementView {
    ElementView::Grammar(GrammarView::OneOf { elements: seq![GrammarView::TypedParser { template: "single_quote"@, kind: "quoted_literal"@ }, GrammarView::TypedParser { template: "dollar_quote"@, kind: "quoted_literal"@ }], terminators: seq![] })
}

fn build_quoted_literal_segment() -> (e: Element)
    ensures
        e@ =~~= quoted_literal_segment_element(),
{
    let g1: Vec<Grammar> = vec![Grammar::typed_parser("single_quote", "quoted_literal"), Grammar::typed_parser("dollar_quote", "quoted_literal")];
    assert(views(g1@) =~~= seq![GrammarView::TypedParser { template: "single_quote"@, kind: "quoted_literal"@ }, GrammarView::TypedParser { template: "dollar_quote"@, kind: "quoted_literal"@ }]);
    let g2: Vec<Grammar> = Vec::new();
    assert(views(g2@) =~= Seq::<GrammarView>::empty());
    let g3 = Grammar::one_of_with(g1, g2);
    Element::Grammar(g3)
}

/// The ClickHouse element `TupleSegment`.
pub open spec fn tuple_segment_element() -> ElementView {
    ElementView::Node { kind: "tuple"@, grammar: GrammarView::Bracketed { elements: seq![GrammarView::Delimited { elements: seq![GrammarView::Ref { name: "BaseExpressionElementGrammar"@, optional: false }], allow_trailing: false, delimiter: None, terminators: seq![], allow_gaps: true }], bracket_type: "round"@ } }
}

fn build_tuple_segment() -> (e: Element)
    ensures
        e@ =~~= tuple_segment_element(),
{
    let g1: Vec<Grammar> = vec![Grammar::reference("BaseExpressionElementGrammar")];
    assert(views(g1@) =~~= seq![GrammarView::Ref { name: "BaseExpressionElementGrammar"@, optional: false }]);
    let g2: Vec<Grammar> = Vec::new();
    assert(views(g2@) =~= Seq::<GrammarView>::empty());
    let g3 = Grammar::delimited_with(g1, false, None, g2, true);
    let g4: Vec<Grammar> = vec![g3];
    assert(views(g4@) =~~= seq![GrammarView::Delimited { elements: seq![GrammarView::Ref { name: "BaseExpressionElementGrammar"@, optional: false }], allow_trailing: false, delimiter: None, terminators: seq![], allow_gaps: true }]);
    let g5 = Grammar::bracketed_with(g4, "round");
    Element::Node { kind: "tuple", grammar: g5 }
}

/// The ClickHouse grammar of `WildcardExpressionSegment`.
pub open spec fn wildcard_expression_segment_grammar() -> GrammarView {
    (GrammarView::Sequence { elements: seq![GrammarView::Ref { name: "WildcardIdentifierSegment"@, optional: false }], terminators: seq![], parse_mode: ParseMode::Strict }).copied(Some(seq![GrammarView::Ref { name: "ExceptClauseSegment"@, optional: true }]), None, None, None, seq![], false)
}

fn build_wildcard_expression_segment() -> (g: Grammar)
    ensures
        g@ =~~= wildcard_expression_segment_grammar(),
{
    let g1: Vec<Grammar> = vec![Grammar::reference("WildcardIdentifierSegment")];
    assert(views(g1@) =~~= seq![GrammarView::Ref { name: "WildcardIdentifierSegment"@, optional: false }]);
    let g2: Vec<Grammar> = Vec::new();
    assert(views(g2@) =~= Seq::<GrammarView>::empty());
    let g3 = Grammar::sequence_with(g1, g2, ParseMode::Strict);
    let g4 = g3;
    assert(g4@ =~~= GrammarView::Sequence { elements: seq![GrammarView::Ref { name: "WildcardIdentifierSegment"@, optional: false }], terminators: seq![], parse_mode: ParseMode::Strict });
    let g5: Vec<Grammar> = vec![Grammar::optional_reference("ExceptClauseSegment")];
    assert(views(g5@) =~~= seq![GrammarView::Ref { name: "ExceptClauseSegment"@, optional: true }]);
    let g6: Vec<Grammar> = Vec::new();
    assert(views(g6@) =~= Seq::<GrammarView>::empty());
    let g7 = g4.copy(Some(g5), None, None, None, g6, false);
    g7
}

/// The ClickHouse element `SettingsClauseSegment`.
pub open spec fn settings_clause_segment_element() -> ElementView {
    ElementView::Grammar(GrammarView::Optional { grammar: Box::new(GrammarView::Sequence { elements: seq![GrammarView::Keyword { word: "SETTINGS"@ }, GrammarView::Delimited { elements: seq![GrammarView::Optional { grammar: Box::new(GrammarView::Sequence { elements: seq![GrammarView::Ref { name: "NakedIdentifierSegment"@, optional: false }, GrammarView::Ref { name: "EqualsSegment"@, optional: false }, GrammarView::OneOf { elements: seq![GrammarView::Ref { name: "NakedIdentifierSegment"@, optional: false }, GrammarView::Ref { name: "NumericLiteralSegment"@, optional: false }, GrammarView::Ref { name: "QuotedLiteralSegment"@, optional: false }, GrammarView::Ref { name: "BooleanLiteralGrammar"@, optional: false }], terminators: seq![] }], terminators: seq![], parse_mode: ParseMode::Strict }) }], allow_trailing: false, delimiter: None, terminators: seq![], allow_gaps: true }], terminators: seq![], parse_mode: ParseMode::Strict }) })
}

fn build_settings_clause_segment() -> (e: Element)
    ensures
        e@ =~~= settings_clause_segment_element(),
{
    let g1: Vec<Grammar> = vec![Grammar::reference("NakedIdentifierSegment"), Grammar::reference("NumericLiteralSegment"), Grammar::reference("QuotedLiteralSegment"), Grammar::reference("BooleanLiteralGrammar")];
    assert(views(g1@) =~~= seq![GrammarView::Ref { name: "NakedIdentifierSegment"@, optional: false }, GrammarView::Ref { name: "NumericLiteralSegment"@, optional: false }, GrammarView::Ref { name: "QuotedLiteralSegment"@, optional: false }, GrammarView::Ref { name: "BooleanLiteralGrammar"@, optional: false }]);
    let g2: Vec<Grammar> = Vec::new();
    assert(views(g2@) =~= Seq::<GrammarView>::empty());
    let g3 = Grammar::one_of_with(g1, g2);
    let g4: Vec<Grammar> = vec![Grammar::reference("NakedIdentifierSegment"), Grammar::reference("EqualsSegment"), g3];
    assert(views(g4@) =~~= seq![GrammarView::Ref { name: "NakedIdentifierSegment"@, optional: false }, GrammarView::Ref { name: "EqualsSegment"@, optional: false }, GrammarView::OneOf { elements: seq![GrammarView::Ref { name: "NakedIdentifierSegment"@, optional: false }, GrammarView::Ref { name: "NumericLiteralSegment"@, optional: false }, GrammarView::Ref { name: "QuotedLiteralSegment"@, optional: false }, GrammarView::Ref { name: "BooleanLiteralGrammar"@, optional: false }], terminators: seq![] }]);
    let g5: Vec<Grammar> = Vec::new();
    assert(views(g5@) =~= Seq::<GrammarView>::empty());
    let g6 = Grammar::sequence_with(g4, g5, ParseMode::Strict);
    let g7 = g6.optional();
    let g8: Vec<Grammar> = vec![g7];
    assert(views(g8@) =~~= seq![GrammarView::Optional { grammar: Box::new(GrammarView::Sequence { elements: seq![GrammarView::Ref { name: "NakedIdentifierSegment"@, optional: false }, GrammarView::Ref { name: "EqualsSegment"@, optional: false }, GrammarView::OneOf { elements: seq![GrammarView::Ref { name: "NakedIdentifierSegment"@, optional: false }, GrammarView::Ref { name: "NumericLiteralSegment"@, optional: false }, GrammarView::Ref { name: "QuotedLiteralSegment"@, optional: false }, GrammarView::Ref { name: "BooleanLiteralGrammar"@, optional: false }], terminators: seq![] }], terminators: seq![], parse_mode: ParseMode::Strict }) }]);
    let g9: Vec<Grammar> = Vec::new();
    assert(views(g9@) =~= Seq::<GrammarView>::empty());
    let g10 = Grammar::delimited_with(g8, false, None, g9, true);
    let g11: Vec<Grammar> = vec![Grammar::keyword("SETTINGS"), g10];
    assert(views(g11@) =~~= seq![GrammarView::Keyword { word: "SETTINGS"@ }, GrammarView::Delimited { elements: seq![GrammarView::Optional { grammar: Box::new(GrammarView::Sequence { elements: seq![GrammarView::Ref { name: "NakedIdentifierSegment"@, optional: false }, GrammarView::Ref { name: "EqualsSegment"@, optional: false }, GrammarView::OneOf { elements: seq![GrammarView::Ref { name: "NakedIdentifierSegment"@, optional: false }, GrammarView::Ref { name: "NumericLiteralSegment"@, optional: false }, GrammarView::Ref { name: "QuotedLiteralSegment"@, optional: false }, GrammarView::Ref { name: "BooleanLiteralGrammar"@, optional: false }], terminators: seq![] }], terminators: seq![], parse_mode: ParseMode::Strict }) }], allow_trailing: false, delimiter: None, terminators: seq![], allow_gaps: true }]);
    let g12: Vec<Grammar> = Vec::new();
    assert(views(g12@) =~= Seq::<GrammarView>::empty());
    let g13 = Grammar::sequence_with(g11, g12, ParseMode::Strict);
    let g14 = g13.optional();
    Element::Grammar(g14)
}

/// The ClickHouse element `FormatValueSegment`.
pub open spec fn format_value_segment_element() -> ElementView {
    ElementView::Grammar(GrammarView::RegexParser { pattern: "[a-zA-Z]*"@, kind: "word"@, anti_template: None })
}

fn build_format_value_segment() -> (e: Element)
    ensures
        e@ =~~= format_value_segment_element(),
{
    Element::Grammar(Grammar::regex_parser("[a-zA-Z]*", "word"))
}

/// The ClickHouse element `IntoOutfileClauseSegment`.
pub open spec fn into_outfile_clause_segment_element() -> ElementView {
    ElementView::Grammar(GrammarView::Sequence { elements: seq![GrammarView::Keyword { word: "INTO"@ }, GrammarView::Keyword { word: "OUTFILE"@ }, GrammarView::Ref { name: "QuotedLiteralSegment"@, optional: false }, GrammarView::Ref { name: "FormatClauseSegment"@, optional: true }], terminators: seq![], parse_mode: ParseMode::Strict })
}

fn build_into_outfile_clause_segment() -> (e: Element)
    ensures
        e@ =~~= into_outfile_clause_segment_element(),
{
    let g1: Vec<Grammar> = vec![Grammar::keyword("INTO"), Grammar::keyword("OUTFILE"), Grammar::reference("QuotedLiteralSegment"), Grammar::optional_reference("FormatClauseSegment")];
    assert(views(g1@) =~~= seq![GrammarView::Keyword { word: "INTO"@ }, GrammarView::Keyword { word: "OUTFILE"@ }, GrammarView::Ref { name: "QuotedLiteralSegment"@, optional: false }, GrammarView::Ref { name: "FormatClauseSegment"@, optional: true }]);
    let g2: Vec<Grammar> = Vec::new();
    assert(views(g2@) =~= Seq::<GrammarView>::empty());
    let g3 = Grammar::sequence_with(g1, g2, ParseMode::Strict);
    Element::Grammar(g3)
}

/// The ClickHouse element `FormatClauseSegment`.
pub open spec fn format_clause_segment_element() -> ElementView {
    ElementView::Grammar(GrammarView::Sequence { elements: seq![GrammarView::Keyword { word: "FORMAT"@ }, GrammarView::Ref { name: "FormatValueSegment"@, optional: false }, GrammarView::Ref { name: "SettingsClauseSegment"@, optional: true }], terminators: seq![], parse_mode: ParseMode::Strict })
}

fn build_format_clause_segment() -> (e: Element)
    ensures
        e@ =~~= format_clause_segment_element(),
{
    let g1: Vec<Grammar> = vec![Grammar::keyword("FORMAT"), Grammar::reference("FormatValueSegment"), Grammar::optional_reference("SettingsClauseSegment")];
    assert(views(g1@) =~~= seq![GrammarView::Keyword { word: "FORMAT"@ }, GrammarView::Ref { name: "FormatValueSegment"@, optional: false }, GrammarView::Ref { name: "SettingsClauseSegment"@, optional: true }]);
    let g2: Vec<Grammar> = Vec::new();
    assert(views(g2@) =~= Seq::<GrammarView>::empty());
    let g3 = Grammar::sequence_with(g1, g2, ParseMode::Strict);
    Element::Grammar(g3)
}

/// The ClickHouse element `MergeTreesOrderByClauseSegment`.
pub open spec fn merge_trees_order_by_clause_segment_element() -> ElementView {
    ElementView::Node { kind: "merge_tree_order_by_clause"@, grammar: GrammarView::Sequence { elements: seq![GrammarView::Keyword { word: "ORDER"@ }, GrammarView::Keyword { word: "BY"@ }, GrammarView::OneOf { elements: seq![GrammarView::Sequence { elements: seq![GrammarView::Keyword { word: "TUPLE"@ }, GrammarView::Bracketed { elements: seq![], bracket_type: "round"@ }], terminators: seq![], parse_mode: ParseMode::Strict }, GrammarView::Bracketed { elements: seq![GrammarView::Delimited { elements: seq![GrammarView::Ref { name: "ColumnReferenceSegment"@, optional: false }, GrammarView::Ref { name: "ExpressionSegment"@, optional: false }], allow_trailing: false, delimiter: None, terminators: seq![], allow_gaps: true }], bracket_type: "round"@ }, GrammarView::Ref { name: "ColumnReferenceSegment"@, optional: false }], terminators: seq![] }], terminators: seq![], parse_mode: ParseMode::Strict } }
}

fn build_merge_trees_order_by_clause_segment() -> (e: Element)
    ensures
        e@ =~~= merge_trees_order_by_clause_segment_element(),
{
    let g1: Vec<Grammar> = Vec::new();
    assert(views(g1@) =~= Seq::<GrammarView>::empty());
    let g2 = Grammar::bracketed_with(g1, "round");
    let g3: Vec<Grammar> = vec![Grammar::keyword("TUPLE"), g2];
    assert(views(g3@) =~~= seq![GrammarView::Keyword { word: "TUPLE"@ }, GrammarView::Bracketed { elements: seq![], bracket_type: "round"@ }]);
    let g4: Vec<Grammar> = Vec::new();
    assert(views(g4@) =~= Seq::<GrammarView>::empty());
    let g5 = Grammar::sequence_with(g3, g4, ParseMode::Strict);
    let g6: Vec<Grammar> = vec![Grammar::reference("ColumnReferenceSegment"), Grammar::reference("ExpressionSegment")];
    assert(views(g6@) =~~= seq![GrammarView::Ref { name: "ColumnReferenceSegment"@, optional: false }, GrammarView::Ref { name: "ExpressionSegment"@, optional: false }]);
    let g7: Vec<Grammar> = Vec::new();
    assert(views(g7@) =~= Seq::<GrammarView>::empty());
    let g8 = Grammar::delimited_with(g6, false, None, g7, true);
    let g9: Vec<Grammar> = vec![g8];
    assert(views(g9@) =~~= seq![GrammarView::Delimited { elements: seq![GrammarView::Ref { name: "ColumnReferenceSegment"@, optional: false }, GrammarView::Ref { name: "ExpressionSegment"@, optional: false }], allow_trailing: false, delimiter: None, terminators: seq![], allow_gaps: true }]);
    let g10 = Grammar::bracketed_with(g9, "round");
    let g11: Vec<Grammar> = vec![g5, g10, Grammar::reference("ColumnReferenceSegment")];
    assert(views(g11@) =~~= seq![GrammarView::Sequence { elements: seq![GrammarView::Keyword { word: "TUPLE"@ }, GrammarView::Bracketed { elements: seq![], bracket_type: "round"@ }], terminators: seq![], parse_mode: ParseMode::Strict }, GrammarView::Bracketed { elements: seq![GrammarView::Delimited { elements: seq![GrammarView::Ref { name: "ColumnReferenceSegment"@, optional: false }, GrammarView::Ref { name: "ExpressionSegment"@, optional: false }], allow_trailing: false, delimiter: None, terminators: seq![], allow_gaps: true }], bracket_type: "round"@ }, GrammarView::Ref { name: "ColumnReferenceSegment"@, optional: false }]);
    let g12: Vec<Grammar> = Vec::new();
    assert(views(g12@) =~= Seq::<GrammarView>::empty());
    let g13 = Grammar::one_of_with(g11, g12);
    let g14: Vec<Grammar> = vec![Grammar::keyword("ORDER"), Grammar::keyword("BY"), g13];
    assert(views(g14@) =~~= seq![GrammarView::Keyword { word: "ORDER"@ }, GrammarView::Keyword { word: "BY"@ }, GrammarView::OneOf { elements: seq![GrammarView::Sequence { elements: seq![GrammarView::Keyword { word: "TUPLE"@ }, GrammarView::Bracketed { elements: seq![], bracket_type: "round"@ }], terminators: seq![], parse_mode: ParseMode::Strict }, GrammarView::Bracketed { elements: seq![GrammarView::Delimited { elements: seq![GrammarView::Ref { name: "ColumnReferenceSegment"@, optional: false }, GrammarView::Ref { name: "ExpressionSegment"@, optional: false }], allow_trailing: false, delimiter: None, terminators: seq![], allow_gaps: true }], bracket_type: "round"@ }, GrammarView::Ref { name: "ColumnReferenceSegment"@, optional: false }], terminators: seq![] }]);
    let g15: Vec<Grammar> = Vec::new();
    assert(views(g15@) =~= Seq::<GrammarView>::empty());
    let g16 = Grammar::sequence_with(g14, g15, ParseMode::Strict);
    Element::Node { kind: "merge_tree_order_by_clause", grammar: g16 }
}

/// The ClickHouse element `JoinTypeKeywords`.
pub open spec fn join_type_keywords_element() -> ElementView {
    ElementView::Grammar(GrammarView::Sequence { elements: seq![GrammarView::Optional { grammar: Box::new(GrammarView::Keyword { word: "GLOBAL"@ }) }, GrammarView::OneOf { elements: seq![GrammarView::Sequence { elements: seq![GrammarView::Keyword { word: "INNER"@ }, GrammarView::Optional { grammar: Box::new(GrammarView::OneOf { elements: seq![GrammarView::Keyword { word: "ALL"@ }, GrammarView::Keyword { word: "ANY"@ }], terminators: seq![] }) }], terminators: seq![], parse_mode: ParseMode::Strict }, GrammarView::Sequence { elements: seq![GrammarView::Optional { grammar: Box::new(GrammarView::OneOf { elements: seq![GrammarView::Keyword { word: "ALL"@ }, GrammarView::Keyword { word: "ANY"@ }], terminators: seq![] }) }, GrammarView::Keyword { word: "INNER"@ }], terminators: seq![], parse_mode: ParseMode::Strict }, GrammarView::Sequence { elements: seq![GrammarView::Keyword { word: "FULL"@ }, GrammarView::Optional { grammar: Box::new(GrammarView::Keyword { word: "ALL"@ }) }, GrammarView::Optional { grammar: Box::new(GrammarView::Keyword { word: "OUTER"@ }) }], terminators: seq![], parse_mode: ParseMode::Strict }, GrammarView::Sequence { elements: seq![GrammarView::Optional { grammar: Box::new(GrammarView::Keyword { word: "ALL"@ }) }, GrammarView::Keyword { word: "FULL"@ }, GrammarView::Optional { grammar: Box::new(GrammarView::Keyword { word: "OUTER"@ }) }], terminators: seq![], parse_mode: ParseMode::Strict }, GrammarView::Sequence { elements: seq![GrammarView::Keyword { word: "LEFT"@ }, GrammarView::Optional { grammar: Box::new(GrammarView::OneOf { elements: seq![GrammarView::Keyword { word: "ANTI"@ }, GrammarView::Keyword { word: "SEMI"@ }, GrammarView::Optional { grammar: Box::new(GrammarView::OneOf { elements: seq![GrammarView::Keyword { word: "ANY"@ }, GrammarView::Keyword { word: "ALL"@ }], terminators: seq![] }) }, GrammarView::Keyword { word: "ASOF"@ }], terminators: seq![] }) }, GrammarView::Optional { grammar: Box::new(GrammarView::Keyword { word: "OUTER"@ }) }], terminators: seq![], parse_mode: ParseMode::Strict }, GrammarView::Sequence { elements: seq![GrammarView::OneOf { elements: seq![GrammarView::Keyword { word: "ANTI"@ }, GrammarView::Keyword { word: "SEMI"@ }, GrammarView::Optional { grammar: Box::new(GrammarView::OneOf { elements: seq![GrammarView::Keyword { word: "ANY"@ }, GrammarView::Keyword { word: "ALL"@ }], terminators: seq![] }) }, GrammarView::Keyword { word: "ASOF"@ }], terminators: seq![] }, GrammarView::Keyword { word: "LEFT"@ }], terminators: seq![], parse_mode: ParseMode::Strict }, GrammarView::Sequence { elements: seq![GrammarView::Keyword { word: "RIGHT"@ }, GrammarView::Optional { grammar: Box::new(GrammarView::OneOf { elements: seq![GrammarView::Keyword { word: "OUTER"@ }, GrammarView::Keyword { word: "ANTI"@ }, GrammarView::Keyword { word: "SEMI"@ }, GrammarView::Optional { grammar: Box::new(GrammarView::OneOf { elements: seq![GrammarView::Keyword { word: "ANY"@ }, GrammarView::Keyword { word: "ALL"@ }], terminators: seq![] }) }], terminators: seq![] }) }, GrammarView::Optional { grammar: Box::new(GrammarView::Keyword { word: "OUTER"@ }) }], terminators: seq![], parse_mode: ParseMode::Strict }, GrammarView::Sequence { elements: seq![GrammarView::OneOf { elements: seq![GrammarView::Keyword { word: "ANTI"@ }, GrammarView::Keyword { word: "SEMI"@ }, GrammarView::Optional { grammar: Box::new(GrammarView::OneOf { elements: seq![GrammarView::Keyword { word: "ANY"@ }, GrammarView::Keyword { word: "ALL"@ }], terminators: seq![] }) }], terminators: seq![] }, GrammarView::Keyword { word: "RIGHT"@ }], terminators: seq![], parse_mode: ParseMode::Strict }, GrammarView::Keyword { word: "CROSS"@ }, GrammarView::Keyword { word: "PASTE"@ }, GrammarView::Keyword { word: "ASOF"@ }, GrammarView::Keyword { word: "ANY"@ }, GrammarView::Keyword { word: "ALL"@ }], terminators: seq![] }], terminators: seq![], parse_mode: ParseMode::Strict })
}

#[verifier::rlimit(100)]
fn build_join_type_keywords() -> (e: Element)
    ensures
        e@ =~~= join_type_keywords_element(),
{
    let g1 = Grammar::keyword("GLOBAL").optional();
    let g2: Vec<Grammar> = vec![Grammar::keyword("ALL"), Grammar::keyword("ANY")];
    assert(views(g2@) =~~= seq![GrammarView::Keyword { word: "ALL"@ }, GrammarView::Keyword { word: "ANY"@ }]);
    let g3: Vec<Grammar> = Vec::new();
    assert(views(g3@) =~= Seq::<GrammarView>::empty());
    let g4 = Grammar::one_of_with(g2, g3);
    let g5 = g4.optional();
    let g6: Vec<Grammar> = vec![Grammar::keyword("INNER"), g5];
    assert(views(g6@) =~~= seq![GrammarView::Keyword { word: "INNER"@ }, GrammarView::Optional { grammar: Box::new(GrammarView::OneOf { elements: seq![GrammarView::Keyword { word: "ALL"@ }, GrammarView::Keyword { word: "ANY"@ }], terminators: seq![] }) }]);
    let g7: Vec<Grammar> = Vec::new();
    assert(views(g7@) =~= Seq::<GrammarView>::empty());
    let g8 = Grammar::sequence_with(g6, g7, ParseMode::Strict);
    let g9: Vec<Grammar> = vec![Grammar::keyword("ALL"), Grammar::keyword("ANY")];
    assert(views(g9@) =~~= seq![GrammarView::Keyword { word: "ALL"@ }, GrammarView::Keyword { word: "ANY"@ }]);
    let g10: Vec<Grammar> = Vec::new();
    assert(views(g10@) =~= Seq::<GrammarView>::empty());
    let g11 = Grammar::one_of_with(g9, g10);
    let g12 = g11.optional();
    let g13: Vec<Grammar> = vec![g12, Grammar::keyword("INNER")];
    assert(views(g13@) =~~= seq![GrammarView::Optional { grammar: Box::new(GrammarView::OneOf { elements: seq![GrammarView::Keyword { word: "ALL"@ }, GrammarView::Keyword { word: "ANY"@ }], terminators: seq![] }) }, GrammarView::Keyword { word: "INNER"@ }]);
    let g14: Vec<Grammar> = Vec::new();
    assert(views(g14@) =~= Seq::<GrammarView>::empty());
    let g15 = Grammar::sequence_with(g13, g14, ParseMode::Strict);
    let g16 = Grammar::keyword("ALL").optional();
    let g17 = Grammar::keyword("OUTER").optional();
    let g18: Vec<Grammar> = vec![Grammar::keyword("FULL"), g16, g17];
    assert(views(g18@) =~~= seq![GrammarView::Keyword { word: "FULL"@ }, GrammarView::Optional { grammar: Box::new(GrammarView::Keyword { word: "ALL"@ }) }, GrammarView::Optional { grammar: Box::new(GrammarView::Keyword { word: "OUTER"@ }) }]);
    let g19: Vec<Grammar> = Vec::new();
    assert(views(g19@) =~= Seq::<GrammarView>::empty());
    let g20 = Grammar::sequence_with(g18, g19, ParseMode::Strict);
    let g21 = Grammar::keyword("ALL").optional();
    let g22 = Grammar::keyword("OUTER").optional();
    let g23: Vec<Grammar> = vec![g21, Grammar::keyword("FULL"), g22];
    assert(views(g23@) =~~= seq![GrammarView::Optional { grammar: Box::new(GrammarView::Keyword { word: "ALL"@ }) }, GrammarView::Keyword { word: "FULL"@ }, GrammarView::Optional { grammar: Box::new(GrammarView::Keyword { word: "OUTER"@ }) }]);
    let g24: Vec<Grammar> = Vec::new();
    assert(views(g24@) =~= Seq::<GrammarView>::empty());
    let g25 = Grammar::sequence_with(g23, g24, ParseMode::Strict);
    let g26: Vec<Grammar> = vec![Grammar::keyword("ANY"), Grammar::keyword("ALL")];
    assert(views(g26@) =~~= seq![GrammarView::Keyword { word: "ANY"@ }, GrammarView::Keyword { word: "ALL"@ }]);
    let g27: Vec<Grammar> = Vec::new();
    assert(views(g27@) =~= Seq::<GrammarView>::empty());
    let g28 = Grammar::one_of_with(g26, g27);
    let g29 = g28.optional();
    let g30: Vec<Grammar> = vec![Grammar::keyword("ANTI"), Grammar::keyword("SEMI"), g29, Grammar::keyword("ASOF")];
    assert(views(g30@) =~~= seq![GrammarView::Keyword { word: "ANTI"@ }, GrammarView::Keyword { word: "SEMI"@ }, GrammarView::Optional { grammar: Box::new(GrammarView::OneOf { elements: seq![GrammarView::Keyword { word: "ANY"@ }, GrammarView::Keyword { word: "ALL"@ }], terminators: seq![] }) }, GrammarView::Keyword { word: "ASOF"@ }]);
    let g31: Vec<Grammar> = Vec::new();
    assert(views(g31@) =~= Seq::<GrammarView>::empty());
    let g32 = Grammar::one_of_with(g30, g31);
    let g33 = g32.optional();
    let g34 = Grammar::keyword("OUTER").optional();
    let g35: Vec<Grammar> = vec![Grammar::keyword("LEFT"), g33, g34];
    assert(views(g35@) =~~= seq![GrammarView::Keyword { word: "LEFT"@ }, GrammarView::Optional { grammar: Box::new(GrammarView::OneOf { elements: seq![GrammarView::Keyword { word: "ANTI"@ }, GrammarView::Keyword { word: "SEMI"@ }, GrammarView::Optional { grammar: Box::new(GrammarView::OneOf { elements: seq![GrammarView::Keyword { word: "ANY"@ }, GrammarView::Keyword { word: "ALL"@ }], terminators: seq![] }) }, GrammarView::Keyword { word: "ASOF"@ }], terminators: seq![] }) }, GrammarView::Optional { grammar: Box::new(GrammarView::Keyword { word: "OUTER"@ }) }]);
    let g36: Vec<Grammar> = Vec::new();
    assert(views(g36@) =~= Seq::<GrammarView>::empty());
    let g37 = Grammar::sequence_with(g35, g36, ParseMode::Strict);
    let g38: Vec<Grammar> = vec![Grammar::keyword("ANY"), Grammar::keyword("ALL")];
    assert(views(g38@) =~~= seq![GrammarView::Keyword { word: "ANY"@ }, GrammarView::Keyword { word: "ALL"@ }]);
    let g39: Vec<Grammar> = Vec::new();
    assert(views(g39@) =~= Seq::<GrammarView>::empty());
    let g40 = Grammar::one_of_with(g38, g39);
    let g41 = g40.optional();
    let g42: Vec<Grammar> = vec![Grammar::keyword("ANTI"), Grammar::keyword("SEMI"), g41, Grammar::keyword("ASOF")];
    assert(views(g42@) =~~= seq![GrammarView::Keyword { word: "ANTI"@ }, GrammarView::Keyword { word: "SEMI"@ }, GrammarView::Optional { grammar: Box::new(GrammarView::OneOf { elements: seq![GrammarView::Keyword { word: "ANY"@ }, GrammarView::Keyword { word: "ALL"@ }], terminators: seq![] }) }, GrammarView::Keyword { word: "ASOF"@ }]);
    let g43: Vec<Grammar> = Vec::new();
    assert(views(g43@) =~= Seq::<GrammarView>::empty());
    let g44 = Grammar::one_of_with(g42, g43);
    let g45: Vec<Grammar> = vec![g44, Grammar::keyword("LEFT")];
    assert(views(g45@) =~~= seq![GrammarView::OneOf { elements: seq![GrammarView::Keyword { word: "ANTI"@ }, GrammarView::Keyword { word: "SEMI"@ }, GrammarView::Optional { grammar: Box::new(GrammarView::OneOf { elements: seq![GrammarView::Keyword { word: "ANY"@ }, GrammarView::Keyword { word: "ALL"@ }], terminators: seq![] }) }, GrammarView::Keyword { word: "ASOF"@ }], terminators: seq![] }, GrammarView::Keyword { word: "LEFT"@ }]);
    let g46: Vec<Grammar> = Vec::new();
    assert(views(g46@) =~= Seq::<GrammarView>::empty());
    let g47 = Grammar::sequence_with(g45, g46, ParseMode::Strict);
    let g48: Vec<Grammar> = vec![Grammar::keyword("ANY"), Grammar::keyword("ALL")];
    assert(views(g48@) =~~= seq![GrammarView::Keyword { word: "ANY"@ }, GrammarView::Keyword { word: "ALL"@ }]);
    let g49: Vec<Grammar> = Vec::new();
    assert(views(g49@) =~= Seq::<GrammarView>::empty());
    let g50 = Grammar::one_of_with(g48, g49);
    let g51 = g50.optional();
    let g52: Vec<Grammar> = vec![Grammar::keyword("OUTER"), Grammar::keyword("ANTI"), Grammar::keyword("SEMI"), g51];
    assert(views(g52@) =~~= seq![GrammarView::Keyword { word: "OUTER"@ }, GrammarView::Keyword { word: "ANTI"@ }, GrammarView::Keyword { word: "SEMI"@ }, GrammarView::Optional { grammar: Box::new(GrammarView::OneOf { elements: seq![GrammarView::Keyword { word: "ANY"@ }, GrammarView::Keyword { word: "ALL"@ }], terminators: seq![] }) }]);
    let g53: Vec<Grammar> = Vec::new();
    assert(views(g53@) =~= Seq::<GrammarView>::empty());
    let g54 = Grammar::one_of_with(g52, g53);
    let g55 = g54.optional();
    let g56 = Grammar::keyword("OUTER").optional();
    let g57: Vec<Grammar> = vec![Grammar::keyword("RIGHT"), g55, g56];
    assert(views(g57@) =~~= seq![GrammarView::Keyword { word: "RIGHT"@ }, GrammarView::Optional { grammar: Box::new(GrammarView::OneOf { elements: seq![GrammarView::Keyword { word: "OUTER"@ }, GrammarView::Keyword { word: "ANTI"@ }, GrammarView::Keyword { word: "SEMI"@ }, GrammarView::Optional { grammar: Box::new(GrammarView::OneOf { elements: seq![GrammarView::Keyword { word: "ANY"@ }, GrammarView::Keyword { word: "ALL"@ }], terminators: seq![] }) }], terminators: seq![] }) }, GrammarView::Optional { grammar: Box::new(GrammarView::Keyword { word: "OUTER"@ }) }]);
    let g58: Vec<Grammar> = Vec::new();
    assert(views(g58@) =~= Seq::<GrammarView>::empty());
    let g59 = Grammar::sequence_with(g57, g58, ParseMode::Strict);
    let g60: Vec<Grammar> = vec![Grammar::keyword("ANY"), Grammar::keyword("ALL")];
    assert(views(g60@) =~~= seq![GrammarView::Keyword { word: "ANY"@ }, GrammarView::Keyword { word: "ALL"@ }]);
    let g61: Vec<Grammar> = Vec::new();
    assert(views(g61@) =~= Seq::<GrammarView>::empty());
    let g62 = Grammar::one_of_with(g60, g61);
    let g63 = g62.optional();
    let g64: Vec<Grammar> = vec![Grammar::keyword("ANTI"), Grammar::keyword("SEMI"), g63];
    assert(views(g64@) =~~= seq![GrammarView::Keyword { word: "ANTI"@ }, GrammarView::Keyword { word: "SEMI"@ }, GrammarView::Optional { grammar: Box::new(GrammarView::OneOf { elements: seq![GrammarView::Keyword { word: "ANY"@ }, GrammarView::Keyword { word: "ALL"@ }], terminators: seq![] }) }]);
    let g65: Vec<Grammar> = Vec::new();
    assert(views(g65@) =~= Seq::<GrammarView>::empty());
    let g66 = Grammar::one_of_with(g64, g65);
    let g67: Vec<Grammar> = vec![g66, Grammar::keyword("RIGHT")];
    assert(views(g67@) =~~= seq![GrammarView::OneOf { elements: seq![GrammarView::Keyword { word: "ANTI"@ }, GrammarView::Keyword { word: "SEMI"@ }, GrammarView::Optional { grammar: Box::new(GrammarView::OneOf { elements: seq![GrammarView::Keyword { word: "ANY"@ }, GrammarView::Keyword { word: "ALL"@ }], terminators: seq![] }) }], terminators: seq![] }, GrammarView::Keyword { word: "RIGHT"@ }]);
    let g68: Vec<Grammar> = Vec::new();
    assert(views(g68@) =~= Seq::<GrammarView>::empty());
    let g69 = Grammar::sequence_with(g67, g68, ParseMode::Strict);
    let g70: Vec<Grammar> = vec![g8, g15, g20, g25, g37, g47, g59, g69, Grammar::keyword("CROSS"), Grammar::keyword("PASTE"), Grammar::keyword("ASOF"), Grammar::keyword("ANY"), Grammar::keyword("ALL")];
    assert(views(g70@) =~~= seq![GrammarView::Sequence { elements: seq![GrammarView::Keyword { word: "INNER"@ }, GrammarView::Optional { grammar: Box::new(GrammarView::OneOf { elements: seq![GrammarView::Keyword { word: "ALL"@ }, GrammarView::Keyword { word: "ANY"@ }], terminators: seq![] }) }], terminators: seq![], parse_mode: ParseMode::Strict }, GrammarView::Sequence { elements: seq![GrammarView::Optional { grammar: Box::new(GrammarView::OneOf { elements: seq![GrammarView::Keyword { word: "ALL"@ }, GrammarView::Keyword { word: "ANY"@ }], terminators: seq![] }) }, GrammarView::Keyword { word: "INNER"@ }], terminators: seq![], parse_mode: ParseMode::Strict }, GrammarView::Sequence { elements: seq![GrammarView::Keyword { word: "FULL"@ }, GrammarView::Optional { grammar: Box::new(GrammarView::Keyword { word: "ALL"@ }) }, GrammarView::Optional { grammar: Box::new(GrammarView::Keyword { word: "OUTER"@ }) }], terminators: seq![], parse_mode: ParseMode::Strict }, GrammarView::Sequence { elements: seq![GrammarView::Optional { grammar: Box::new(GrammarView::Keyword { word: "ALL"@ }) }, GrammarView::Keyword { word: "FULL"@ }, GrammarView::Optional { grammar: Box::new(GrammarView::Keyword { word: "OUTER"@ }) }], terminators: seq![], parse_mode: ParseMode::Strict }, GrammarView::Sequence { elements: seq![GrammarView::Keyword { word: "LEFT"@ }, GrammarView::Optional { grammar: Box::new(GrammarView::OneOf { elements: seq![GrammarView::Keyword { word: "ANTI"@ }, GrammarView::Keyword { word: "SEMI"@ }, GrammarView::Optional { grammar: Box::new(GrammarView::OneOf { elements: seq![GrammarView::Keyword { word: "ANY"@ }, GrammarView::Keyword { word: "ALL"@ }], terminators: seq![] }) }, GrammarView::Keyword { word: "ASOF"@ }], terminators: seq![] }) }, GrammarView::Optional { grammar: Box::new(GrammarView::Keyword { word: "OUTER"@ }) }], terminators: seq![], parse_mode: ParseMode::Strict }, GrammarView::Sequence { elements: seq![GrammarView::OneOf { elements: seq![GrammarView::Keyword { word: "ANTI"@ }, GrammarView::Keyword { word: "SEMI"@ }, GrammarView::Optional { grammar: Box::new(GrammarView::OneOf { elements: seq![GrammarView::Keyword { word: "ANY"@ }, GrammarView::Keyword { word: "ALL"@ }], terminators: seq![] }) }, GrammarView::Keyword { word: "ASOF"@ }], terminators: seq![] }, GrammarView::Keyword { word: "LEFT"@ }], terminators: seq![], parse_mode: ParseMode::Strict }, GrammarView::Sequence { elements: seq![GrammarView::Keyword { word: "RIGHT"@ }, GrammarView::Optional { grammar: Box::new(GrammarView::OneOf { elements: seq![GrammarView::Keyword { word: "OUTER"@ }, GrammarView::Keyword { word: "ANTI"@ }, GrammarView::Keyword { word: "SEMI"@ }, GrammarView::Optional { grammar: Box::new(GrammarView::OneOf { elements: seq![GrammarView::Keyword { word: "ANY"@ }, GrammarView::Keyword { word: "ALL"@ }], terminators: seq![] }) }], terminators: seq![] }) }, GrammarView::Optional { grammar: Box::new(GrammarView::Keyword { word: "OUTER"@ }) }], terminators: seq![], parse_mode: ParseMode::Strict }, GrammarView::Sequence { elements: seq![GrammarView::OneOf { elements: seq![GrammarView::Keyword { word: "ANTI"@ }, GrammarView::Keyword { word: "SEMI"@ }, GrammarView::Optional { grammar: Box::new(GrammarView::OneOf { elements: seq![GrammarView::Keyword { word: "ANY"@ }, GrammarView::Keyword { word: "ALL"@ }], terminators: seq![] }) }], terminators: seq![] }, GrammarView::Keyword { word: "RIGHT"@ }], terminators: seq![], parse_mode: ParseMode::Strict }, GrammarView::Keyword { word: "CROSS"@ }, GrammarView::Keyword { word: "PASTE"@ }, GrammarView::Keyword { word: "ASOF"@ }, GrammarView::Keyword { word: "ANY"@ }, GrammarView::Keyword { word: "ALL"@ }]);
    let g71: Vec<Grammar> = Vec::new();
    assert(views(g71@) =~= Seq::<GrammarView>::empty());
    let g72 = Grammar::one_of_with(g70, g71);
    let g73: Vec<Grammar> = vec![g1, g72];
    assert(views(g73@) =~~= seq![GrammarView::Optional { grammar: Box::new(GrammarView::Keyword { word: "GLOBAL"@ }) }, GrammarView::OneOf { elements: seq![GrammarView::Sequence { elements: seq![GrammarView::Keyword { word: "INNER"@ }, GrammarView::Optional { grammar: Box::new(GrammarView::OneOf { elements: seq![GrammarView::Keyword { word: "ALL"@ }, GrammarView::Keyword { word: "ANY"@ }], terminators: seq![] }) }], terminators: seq![], parse_mode: ParseMode::Strict }, GrammarView::Sequence { elements: seq![GrammarView::Optional { grammar: Box::new(GrammarView::OneOf { elements: seq![GrammarView::Keyword { word: "ALL"@ }, GrammarView::Keyword { word: "ANY"@ }], terminators: seq![] }) }, GrammarView::Keyword { word: "INNER"@ }], terminators: seq![], parse_mode: ParseMode::Strict }, GrammarView::Sequence { elements: seq![GrammarView::Keyword { word: "FULL"@ }, GrammarView::Optional { grammar: Box::new(GrammarView::Keyword { word: "ALL"@ }) }, GrammarView::Optional { grammar: Box::new(GrammarView::Keyword { word: "OUTER"@ }) }], terminators: seq![], parse_mode: ParseMode::Strict }, GrammarView::Sequence { elements: seq![GrammarView::Optional { grammar: Box::new(GrammarView::Keyword { word: "ALL"@ }) }, GrammarView::Keyword { word: "FULL"@ }, GrammarView::Optional { grammar: Box::new(GrammarView::Keyword { word: "OUTER"@ }) }], terminators: seq![], parse_mode: ParseMode::Strict }, GrammarView::Sequence { elements: seq![GrammarView::Keyword { word: "LEFT"@ }, GrammarView::Optional { grammar: Box::new(GrammarView::OneOf { elements: seq![GrammarView::Keyword { word: "ANTI"@ }, GrammarView::Keyword { word: "SEMI"@ }, GrammarView::Optional { grammar: Box::new(GrammarView::OneOf { elements: seq![GrammarView::Keyword { word: "ANY"@ }, GrammarView::Keyword { word: "ALL"@ }], terminators: seq![] }) }, GrammarView::Keyword { word: "ASOF"@ }], terminators: seq![] }) }, GrammarView::Optional { grammar: Box::new(GrammarView::Keyword { word: "OUTER"@ }) }], terminators: seq![], parse_mode: ParseMode::Strict }, GrammarView::Sequence { elements: seq![GrammarView::OneOf { elements: seq![GrammarView::Keyword { word: "ANTI"@ }, GrammarView::Keyword { word: "SEMI"@ }, GrammarView::Optional { grammar: Box::new(GrammarView::OneOf { elements: seq![GrammarView::Keyword { word: "ANY"@ }, GrammarView::Keyword { word: "ALL"@ }], terminators: seq![] }) }, GrammarView::Keyword { word: "ASOF"@ }], terminators: seq![] }, GrammarView::Keyword { word: "LEFT"@ }], terminators: seq![], parse_mode: ParseMode::Strict }, GrammarView::Sequence { elements: seq![GrammarView::Keyword { word: "RIGHT"@ }, GrammarView::Optional { grammar: Box::new(GrammarView::OneOf { elements: seq![GrammarView::Keyword { word: "OUTER"@ }, GrammarView::Keyword { word: "ANTI"@ }, GrammarView::Keyword { word: "SEMI"@ }, GrammarView::Optional { grammar: Box::new(GrammarView::OneOf { elements: seq![GrammarView::Keyword { word: "ANY"@ }, GrammarView::Keyword { word: "ALL"@ }], terminators: seq![] }) }], terminators: seq![] }) }, GrammarView::Optional { grammar: Box::new(GrammarView::Keyword { word: "OUTER"@ }) }], terminators: seq![], parse_mode: ParseMode::Strict }, GrammarView::Sequence { elements: seq![GrammarView::OneOf { elements: seq![GrammarView::Keyword { word: "ANTI"@ }, GrammarView::Keyword { word: "SEMI"@ }, GrammarView::Optional { grammar: Box::new(GrammarView::OneOf { elements: seq![GrammarView::Keyword { word: "ANY"@ }, GrammarView::Keyword { word: "ALL"@ }], terminators: seq![] }) }], terminators: seq![] }, GrammarView::Keyword { word: "RIGHT"@ }], terminators: seq![], parse_mode: ParseMode::Strict }, GrammarView::Keyword { word: "CROSS"@ }, GrammarView::Keyword { word: "PASTE"@ }, GrammarView::Keyword { word: "ASOF"@ }, GrammarView::Keyword { word: "ANY"@ }, GrammarView::Keyword { word: "ALL"@ }], terminators: seq![] }]);
    let g74: Vec<Grammar> = Vec::new();
    assert(views(g74@) =~= Seq::<GrammarView>::empty());
    let g75 = Grammar::sequence_with(g73, g74, ParseMode::Strict);
    Element::Grammar(g75)
}

/// The ClickHouse element `LambdaFunctionSegment`.
pub open spec fn lambda_function_segment_element() -> ElementView {
    ElementView::Grammar(GrammarView::TypedParser { template: "lambda"@, kind: "lambda"@ })
}

fn build_lambda_function_segment() -> (e: Element)
    ensures
        e@ =~~= lambda_function_segment_element(),
{
    Element::Grammar(Grammar::typed_parser("lambda", "lambda"))
}

/// The ClickHouse element `BinaryOperatorGrammar`.
pub open spec fn binary_operator_grammar_element() -> ElementView {
    ElementView::Grammar(GrammarView::OneOf { elements: seq![GrammarView::Ref { name: "ArithmeticBinaryOperatorGrammar"@, optional: false }, GrammarView::Ref { name: "StringBinaryOperatorGrammar"@, optional: false }, GrammarView::Ref { name: "BooleanBinaryOperatorGrammar"@, optional: false }, GrammarView::Ref { name: "ComparisonOperatorGrammar"@, optional: false }, GrammarView::Ref { name: "LambdaFunctionSegment"@, optional: false }], terminators: seq![] })
}

fn build_binary_operator_grammar() -> (e: Element)
    ensures
        e@ =~~= binary_operator_grammar_element(),
{
    let g1: Vec<Grammar> = vec![Grammar::reference("ArithmeticBinaryOperatorGrammar"), Grammar::reference("StringBinaryOperatorGrammar"), Grammar::reference("BooleanBinaryOperatorGrammar"), Grammar::reference("ComparisonOperatorGrammar"), Grammar::reference("LambdaFunctionSegment")];
    assert(views(g1@) =~~= seq![GrammarView::Ref { name: "ArithmeticBinaryOperatorGrammar"@, optional: false }, GrammarView::Ref { name: "StringBinaryOperatorGrammar"@, optional: false }, GrammarView::Ref { name: "BooleanBinaryOperatorGrammar"@, optional: false }, GrammarView::Ref { name: "ComparisonOperatorGrammar"@, optional: false }, GrammarView::Ref { name: "LambdaFunctionSegment"@, optional: false }]);
    let g2: Vec<Grammar> = Vec::new();
    assert(views(g2@) =~= Seq::<GrammarView>::empty());
    let g3 = Grammar::one_of_with(g1, g2);
    Element::Grammar(g3)
}

/// The ClickHouse element `JoinLikeClauseGrammar`.
pub open spec fn join_like_clause_grammar_element() -> ElementView {
    ElementView::Grammar(GrammarView::Sequence { elements: seq![GrammarView::AnyNumberOf { elements: seq![GrammarView::Ref { name: "ArrayJoinClauseSegment"@, optional: false }], terminators: seq![], min_times: 1, max_times: None }, GrammarView::Ref { name: "AliasExpressionSegment"@, optional: true }], terminators: seq![], parse_mode: ParseMode::Strict })
}

fn build_join_like_clause_grammar() -> (e: Element)
    ensures
        e@ =~~= join_like_clause_grammar_element(),
{
    let g1: Vec<Grammar> = vec![Grammar::reference("ArrayJoinClauseSegment")];
    assert(views(g1@) =~~= seq![GrammarView::Ref { name: "ArrayJoinClauseSegment"@, optional: false }]);
    let g2: Vec<Grammar> = Vec::new();
    assert(views(g2@) =~= Seq::<GrammarView>::empty());
    let g3 = Grammar::any_number_of_with(g1, g2, 1, None);
    let g4: Vec<Grammar> = vec![g3, Grammar::optional_reference("AliasExpressionSegment")];
    assert(views(g4@) =~~= seq![GrammarView::AnyNumberOf { elements: seq![GrammarView::Ref { name: "ArrayJoinClauseSegment"@, optional: false }], terminators: seq![], min_times: 1, max_times: None }, GrammarView::Ref { name: "AliasExpressionSegment"@, optional: true }]);
    let g5: Vec<Grammar> = Vec::new();
    assert(views(g5@) =~= Seq::<GrammarView>::empty());
    let g6 = Grammar::sequence_with(g4, g5, ParseMode::Strict);
    Element::Grammar(g6)
}

/// The ClickHouse element `InOperatorGrammar`.
pub open spec fn in_operator_grammar_element() -> ElementView {
    ElementView::Grammar(GrammarView::Sequence { elements: seq![GrammarView::Optional { grammar: Box::new(GrammarView::Keyword { word: "GLOBAL"@ }) }, GrammarView::Optional { grammar: Box::new(GrammarView::Keyword { word: "NOT"@ }) }, GrammarView::Keyword { word: "IN"@ }, GrammarView::OneOf { elements: seq![GrammarView::Ref { name: "FunctionSegment"@, optional: false }, GrammarView::Ref { name: "ArrayLiteralSegment"@, optional: false }, GrammarView::Ref { name: "TupleSegment"@, optional: false }, GrammarView::Ref { name: "SingleIdentifierGrammar"@, optional: false }, GrammarView::InMode { grammar: Box::new(GrammarView::Bracketed { elements: seq![GrammarView::Delimited { elements: seq![GrammarView::Ref { name: "Expression_A_Grammar"@, optional: false }], allow_trailing: false, delimiter: None, terminators: seq![], allow_gaps: true }, GrammarView::Ref { name: "SelectableGrammar"@, optional: false }], bracket_type: "round"@ }), parse_mode: ParseMode::Greedy }], terminators: seq![] }], terminators: seq![], parse_mode: ParseMode::Strict })
}

fn build_in_operator_grammar() -> (e: Element)
    ensures
        e@ =~~= in_operator_grammar_element(),
{
    let g1 = Grammar::keyword("GLOBAL").optional();
    let g2 = Grammar::keyword("NOT").optional();
    let g3: Vec<Grammar> = vec![Grammar::reference("Expression_A_Grammar")];
    assert(views(g3@) =~~= seq![GrammarView::Ref { name: "Expression_A_Grammar"@, optional: false }]);
    let g4: Vec<Grammar> = Vec::new();
    assert(views(g4@) =~= Seq::<GrammarView>::empty());
    let g5 = Grammar::delimited_with(g3, false, None, g4, true);
    let g6: Vec<Grammar> = vec![g5, Grammar::reference("SelectableGrammar")];
    assert(views(g6@) =~~= seq![GrammarView::Delimited { elements: seq![GrammarView::Ref { name: "Expression_A_Grammar"@, optional: false }], allow_trailing: false, delimiter: None, terminators: seq![], allow_gaps: true }, GrammarView::Ref { name: "SelectableGrammar"@, optional: false }]);
    let g7 = Grammar::bracketed_with(g6, "round");
    let g8 = g7.in_mode(ParseMode::Greedy);
    let g9: Vec<Grammar> = vec![Grammar::reference("FunctionSegment"), Grammar::reference("ArrayLiteralSegment"), Grammar::reference("TupleSegment"), Grammar::reference("SingleIdentifierGrammar"), g8];
    assert(views(g9@) =~~= seq![GrammarView::Ref { name: "FunctionSegment"@, optional: false }, GrammarView::Ref { name: "ArrayLiteralSegment"@, optional: false }, GrammarView::Ref { name: "TupleSegment"@, optional: false }, GrammarView::Ref { name: "SingleIdentifierGrammar"@, optional: false }, GrammarView::InMode { grammar: Box::new(GrammarView::Bracketed { elements: seq![GrammarView::Delimited { elements: seq![GrammarView::Ref { name: "Expression_A_Grammar"@, optional: false }], allow_trailing: false, delimiter: None, terminators: seq![], allow_gaps: true }, GrammarView::Ref { name: "SelectableGrammar"@, optional: false }], bracket_type: "round"@ }), parse_mode: ParseMode::Greedy }]);
    let g10: Vec<Grammar> = Vec::new();
    assert(views(g10@) =~= Seq::<GrammarView>::empty());
    let g11 = Grammar::one_of_with(g9, g10);
    let g12: Vec<Grammar> = vec![g1, g2, Grammar::keyword("IN"), g11];
    assert(views(g12@) =~~= seq![GrammarView::Optional { grammar: Box::new(GrammarView::Keyword { word: "GLOBAL"@ }) }, GrammarView::Optional { grammar: Box::new(GrammarView::Keyword { word: "NOT"@ }) }, GrammarView::Keyword { word: "IN"@ }, GrammarView::OneOf { elements: seq![GrammarView::Ref { name: "FunctionSegment"@, optional: false }, GrammarView::Ref { name: "ArrayLiteralSegment"@, optional: false }, GrammarView::Ref { name: "TupleSegment"@, optional: false }, GrammarView::Ref { name: "SingleIdentifierGrammar"@, optional: false }, GrammarView::InMode { grammar: Box::new(GrammarView::Bracketed { elements: seq![GrammarView::Delimited { elements: seq![GrammarView::Ref { name: "Expression_A_Grammar"@, optional: false }], allow_trailing: false, delimiter: None, terminators: seq![], allow_gaps: true }, GrammarView::Ref { name: "SelectableGrammar"@, optional: false }], bracket_type: "round"@ }), parse_mode: ParseMode::Greedy }], terminators: seq![] }]);
    let g13: Vec<Grammar> = Vec::new();
    assert(views(g13@) =~= Seq::<GrammarView>::empty());
    let g14 = Grammar::sequence_with(g12, g13, ParseMode::Strict);
    Element::Grammar(g14)
}

/// The ClickHouse element `PreWhereClauseSegment`.
pub open spec fn pre_where_clause_segment_element() -> ElementView {
    ElementView::Node { kind: "pre_where_clause"@, grammar: GrammarView::Sequence { elements: seq![GrammarView::Keyword { word: "PREWHERE"@ }, GrammarView::ImplicitIndent, GrammarView::OneOf { elements: seq![GrammarView::Bracketed { elements: seq![GrammarView::Ref { name: "ExpressionSegment"@, optional: false }], bracket_type: "round"@ }, GrammarView::Ref { name: "ExpressionSegment"@, optional: false }], terminators: seq![] }, GrammarView::Dedent], terminators: seq![], parse_mode: ParseMode::Strict } }
}

fn build_pre_where_clause_segment() -> (e: Element)
    ensures
        e@ =~~= pre_where_clause_segment_element(),
{
    let g1: Vec<Grammar> = vec![Grammar::reference("ExpressionSegment")];
    assert(views(g1@) =~~= seq![GrammarView::Ref { name: "ExpressionSegment"@, optional: false }]);
    let g2 = Grammar::bracketed_with(g1, "round");
    let g3: Vec<Grammar> = vec![g2, Grammar::reference("ExpressionSegment")];
    assert(views(g3@) =~~= seq![GrammarView::Bracketed { elements: seq![GrammarView::Ref { name: "ExpressionSegment"@, optional: false }], bracket_type: "round"@ }, GrammarView::Ref { name: "ExpressionSegment"@, optional: false }]);
    let g4: Vec<Grammar> = Vec::new();
    assert(views(g4@) =~= Seq::<GrammarView>::empty());
    let g5 = Grammar::one_of_with(g3, g4);
    let g6: Vec<Grammar> = vec![Grammar::keyword("PREWHERE"), Grammar::implicit_indent(), g5, Grammar::dedent()];
    assert(views(g6@) =~~= seq![GrammarView::Keyword { word: "PREWHERE"@ }, GrammarView::ImplicitIndent, GrammarView::OneOf { elements: seq![GrammarView::Bracketed { elements: seq![GrammarView::Ref { name: "ExpressionSegment"@, optional: false }], bracket_type: "round"@ }, GrammarView::Ref { name: "ExpressionSegment"@, optional: false }], terminators: seq![] }, GrammarView::Dedent]);
    let g7: Vec<Grammar> = Vec::new();
    assert(views(g7@) =~= Seq::<GrammarView>::empty());
    let g8 = Grammar::sequence_with(g6, g7, ParseMode::Strict);
    Element::Node { kind: "pre_where_clause", grammar: g8 }
}

/// The ClickHouse element `QualifyClauseSegment`.
pub open spec fn qualify_clause_segment_element() -> ElementView {
    ElementView::Node { kind: "qualify_clause"@, grammar: GrammarView::Sequence { elements: seq![GrammarView::Keyword { word: "QUALIFY"@ }, GrammarView::ImplicitIndent, GrammarView::OneOf { elements: seq![GrammarView::Bracketed { elements: seq![GrammarView::Ref { name: "ExpressionSegment"@, optional: false }], bracket_type: "round"@ }, GrammarView::Ref { name: "ExpressionSegment"@, optional: false }], terminators: seq![] }, GrammarView::Dedent], terminators: seq![], parse_mode: ParseMode::Strict } }
}

fn build_qualify_clause_segment() -> (e: Element)
    ensures
        e@ =~~= qualify_clause_segment_element(),
{
    let g1: Vec<Grammar> = vec![Grammar::reference("ExpressionSegment")];
    assert(views(g1@) =~~= seq![GrammarView::Ref { name: "ExpressionSegment"@, optional: false }]);
    let g2 = Grammar::bracketed_with(g1, "round");
    let g3: Vec<Grammar> = vec![g2, Grammar::reference("ExpressionSegment")];
    assert(views(g3@) =~~= seq![GrammarView::Bracketed { elements: seq![GrammarView::Ref { name: "ExpressionSegment"@, optional: false }], bracket_type: "round"@ }, GrammarView::Ref { name: "ExpressionSegment"@, optional: false }]);
    let g4: Vec<Grammar> = Vec::new();
    assert(views(g4@) =~= Seq::<GrammarView>::empty());
    let g5 = Grammar::one_of_with(g3, g4);
    let g6: Vec<Grammar> = vec![Grammar::keyword("QUALIFY"), Grammar::implicit_indent(), g5, Grammar::dedent()];
    assert(views(g6@) =~~= seq![GrammarView::Keyword { word: "QUALIFY"@ }, GrammarView::ImplicitIndent, GrammarView::OneOf { elements: seq![GrammarView::Bracketed { elements: seq![GrammarView::Ref { name: "ExpressionSegment"@, optional: false }], bracket_type: "round"@ }, GrammarView::Ref { name: "ExpressionSegment"@, optional: false }], terminators: seq![] }, GrammarView::Dedent]);
    let g7: Vec<Grammar> = Vec::new();
    assert(views(g7@) =~= Seq::<GrammarView>::empty());
    let g8 = Grammar::sequence_with(g6, g7, ParseMode::Strict);
    Element::Node { kind: "qualify_clause", grammar: g8 }
}

/// The ClickHouse grammar of `UnorderedSelectStatementSegment`.
pub open spec fn unordered_select_statement_segment_grammar() -> GrammarView {
    (GrammarView::Sequence { elements: seq![GrammarView::Ref { name: "SelectClauseSegment"@, optional: false }, GrammarView::Dedent, GrammarView::Ref { name: "FromClauseSegment"@, optional: true }, GrammarView::Ref { name: "WhereClauseSegment"@, optional: true }, GrammarView::Ref { name: "GroupByClauseSegment"@, optional: true }, GrammarView::Ref { name: "HavingClauseSegment"@, optional: true }, GrammarView::Ref { name: "OverlapsClauseSegment"@, optional: true }, GrammarView::Ref { name: "NamedWindowSegment"@, optional: true }], terminators: seq![GrammarView::Ref { name: "SetOperatorSegment"@, optional: false }, GrammarView::Ref { name: "WithNoSchemaBindingClauseSegment"@, optional: false }, GrammarView::Ref { name: "WithDataClauseSegment"@, optional: false }, GrammarView::Ref { name: "OrderByClauseSegment"@, optional: false }, GrammarView::Ref { name: "LimitClauseSegment"@, optional: false }], parse_mode: ParseMode::GreedyOnceStarted }).copied(Some(seq![GrammarView::Ref { name: "PreWhereClauseSegment"@, optional: true }]), None, Some(GrammarView::Ref { name: "WhereClauseSegment"@, optional: true }), None, seq![], false)
}

fn build_unordered_select_statement_segment() -> (g: Grammar)
    ensures
        g@ =~~= unordered_select_statement_segment_grammar(),
{
    let g1: Vec<Grammar> = vec![Grammar::reference("SelectClauseSegment"), Grammar::dedent(), Grammar::optional_reference("FromClauseSegment"), Grammar::optional_reference("WhereClauseSegment"), Grammar::optional_reference("GroupByClauseSegment"), Grammar::optional_reference("HavingClauseSegment"), Grammar::optional_reference("OverlapsClauseSegment"), Grammar::optional_reference("NamedWindowSegment")];
    assert(views(g1@) =~~= seq![GrammarView::Ref { name: "SelectClauseSegment"@, optional: false }, GrammarView::Dedent, GrammarView::Ref { name: "FromClauseSegment"@, optional: true }, GrammarView::Ref { name: "WhereClauseSegment"@, optional: true }, GrammarView::Ref { name: "GroupByClauseSegment"@, optional: true }, GrammarView::Ref { name: "HavingClauseSegment"@, optional: true }, GrammarView::Ref { name: "OverlapsClauseSegment"@, optional: true }, GrammarView::Ref { name: "NamedWindowSegment"@, optional: true }]);
    let g2: Vec<Grammar> = vec![Grammar::reference("SetOperatorSegment"), Grammar::reference("WithNoSchemaBindingClauseSegment"), Grammar::reference("WithDataClauseSegment"), Grammar::reference("OrderByClauseSegment"), Grammar::reference("LimitClauseSegment")];
    assert(views(g2@) =~~= seq![GrammarView::Ref { name: "SetOperatorSegment"@, optional: false }, GrammarView::Ref { name: "WithNoSchemaBindingClauseSegment"@, optional: false }, GrammarView::Ref { name: "WithDataClauseSegment"@, optional: false }, GrammarView::Ref { name: "OrderByClauseSegment"@, optional: false }, GrammarView::Ref { name: "LimitClauseSegment"@, optional: false }]);
    let g3 = Grammar::sequence_with(g1, g2, ParseMode::GreedyOnceStarted);
    let g4 = g3;
    assert(g4@ =~~= GrammarView::Sequence { elements: seq![GrammarView::Ref { name: "SelectClauseSegment"@, optional: false }, GrammarView::Dedent, GrammarView::Ref { name: "FromClauseSegment"@, optional: true }, GrammarView::Ref { name: "WhereClauseSegment"@, optional: true }, GrammarView::Ref { name: "GroupByClauseSegment"@, optional: true }, GrammarView::Ref { name: "HavingClauseSegment"@, optional: true }, GrammarView::Ref { name: "OverlapsClauseSegment"@, optional: true }, GrammarView::Ref { name: "NamedWindowSegment"@, optional: true }], terminators: seq![GrammarView::Ref { name: "SetOperatorSegment"@, optional: false }, GrammarView::Ref { name: "WithNoSchemaBindingClauseSegment"@, optional: false }, GrammarView::Ref { name: "WithDataClauseSegment"@, optional: false }, GrammarView::Ref { name: "OrderByClauseSegment"@, optional: false }, GrammarView::Ref { name: "LimitClauseSegment"@, optional: false }], parse_mode: ParseMode::GreedyOnceStarted });
    let g5: Vec<Grammar> = vec![Grammar::optional_reference("PreWhereClauseSegment")];
    assert(views(g5@) =~~= seq![GrammarView::Ref { name: "PreWhereClauseSegment"@, optional: true }]);
    let g6 = Grammar::optional_reference("WhereClauseSegment");
    assert(g4@.elements()[3] =~~= g6@);
    let g7: Vec<Grammar> = Vec::new();
    assert(views(g7@) =~= Seq::<GrammarView>::empty());
    let g8 = g4.copy(Some(g5), None, Some(&g6), None, g7, false);
    g8
}

/// The ClickHouse element `WithFillSegment`.
pub open spec fn with_fill_segment_element() -> ElementView {
    ElementView::Grammar(GrammarView::Sequence { elements: seq![GrammarView::Keyword { word: "WITH"@ }, GrammarView::Keyword { word: "FILL"@ }, GrammarView::Optional { grammar: Box::new(GrammarView::Sequence { elements: seq![GrammarView::Keyword { word: "FROM"@ }, GrammarView::Ref { name: "ExpressionSegment"@, optional: false }], terminators: seq![], parse_mode: ParseMode::Strict }) }, GrammarView::Optional { grammar: Box::new(GrammarView::Sequence { elements: seq![GrammarView::Keyword { word: "TO"@ }, GrammarView::Ref { name: "ExpressionSegment"@, optional: false }], terminators: seq![], parse_mode: ParseMode::Strict }) }, GrammarView::Optional { grammar: Box::new(GrammarView::Sequence { elements: seq![GrammarView::Keyword { word: "STEP"@ }, GrammarView::OneOf { elements: seq![GrammarView::Ref { name: "NumericLiteralSegment"@, optional: false }, GrammarView::Ref { name: "IntervalExpressionSegment"@, optional: false }], terminators: seq![] }], terminators: seq![], parse_mode: ParseMode::Strict }) }], terminators: seq![], parse_mode: ParseMode::Strict })
}

fn build_with_fill_segment() -> (e: Element)
    ensures
        e@ =~~= with_fill_segment_element(),
{
    let g1: Vec<Grammar> = vec![Grammar::keyword("FROM"), Grammar::reference("ExpressionSegment")];
    assert(views(g1@) =~~= seq![GrammarView::Keyword { word: "FROM"@ }, GrammarView::Ref { name: "ExpressionSegment"@, optional: false }]);
    let g2: Vec<Grammar> = Vec::new();
    assert(views(g2@) =~= Seq::<GrammarView>::empty());
    let g3 = Grammar::sequence_with(g1, g2, ParseMode::Strict);
    let g4 = g3.optional();
    let g5: Vec<Grammar> = vec![Grammar::keyword("TO"), Grammar::reference("ExpressionSegment")];
    assert(views(g5@) =~~= seq![GrammarView::Keyword { word: "TO"@ }, GrammarView::Ref { name: "ExpressionSegment"@, optional: false }]);
    let g6: Vec<Grammar> = Vec::new();
    assert(views(g6@) =~= Seq::<GrammarView>::empty());
    let g7 = Grammar::sequence_with(g5, g6, ParseMode::Strict);
    let g8 = g7.optional();
    let g9: Vec<Grammar> = vec![Grammar::reference("NumericLiteralSegment"), Grammar::reference("IntervalExpressionSegment")];
    assert(views(g9@) =~~= seq![GrammarView::Ref { name: "NumericLiteralSegment"@, optional: false }, GrammarView::Ref { name: "IntervalExpressionSegment"@, optional: false }]);
    let g10: Vec<Grammar> = Vec::new();
    assert(views(g10@) =~= Seq::<GrammarView>::empty());
    let g11 = Grammar::one_of_with(g9, g10);
    let g12: Vec<Grammar> = vec![Grammar::keyword("STEP"), g11];
    assert(views(g12@) =~~= seq![GrammarView::Keyword { word: "STEP"@ }, GrammarView::OneOf { elements: seq![GrammarView::Ref { name: "NumericLiteralSegment"@, optional: false }, GrammarView::Ref { name: "IntervalExpressionSegment"@, optional: false }], terminators: seq![] }]);
    let g13: Vec<Grammar> = Vec::new();
    assert(views(g13@) =~= Seq::<GrammarView>::empty());
    let g14 = Grammar::sequence_with(g12, g13, ParseMode::Strict);
    let g15 = g14.optional();
    let g16: Vec<Grammar> = vec![Grammar::keyword("WITH"), Grammar::keyword("FILL"), g4, g8, g15];
    assert(views(g16@) =~~= seq![GrammarView::Keyword { word: "WITH"@ }, GrammarView::Keyword { word: "FILL"@ }, GrammarView::Optional { grammar: Box::new(GrammarView::Sequence { elements: seq![GrammarView::Keyword { word: "FROM"@ }, GrammarView::Ref { name: "ExpressionSegment"@, optional: false }], terminators: seq![], parse_mode: ParseMode::Strict }) }, GrammarView::Optional { grammar: Box::new(GrammarView::Sequence { elements: seq![GrammarView::Keyword { word: "TO"@ }, GrammarView::Ref { name: "ExpressionSegment"@, optional: false }], terminators: seq![], parse_mode: ParseMode::Strict }) }, GrammarView::Optional { grammar: Box::new(GrammarView::Sequence { elements: seq![GrammarView::Keyword { word: "STEP"@ }, GrammarView::OneOf { elements: seq![GrammarView::Ref { name: "NumericLiteralSegment"@, optional: false }, GrammarView::Ref { name: "IntervalExpressionSegment"@, optional: false }], terminators: seq![] }], terminators: seq![], parse_mode: ParseMode::Strict }) }]);
    let g17: Vec<Grammar> = Vec::new();
    assert(views(g17@) =~= Seq::<GrammarView>::empty());
    let g18 = Grammar::sequence_with(g16, g17, ParseMode::Strict);
    Element::Grammar(g18)
}

/// The ClickHouse grammar of `DatatypeSegment`.
pub open spec fn datatype_segment_grammar() -> GrammarView {
    GrammarView::OneOf { elements: seq![GrammarView::Sequence { elements: seq![GrammarView::StringParser { template: "NULLABLE"@, kind: "data_type_identifier"@ }, GrammarView::Bracketed { elements: seq![GrammarView::Ref { name: "DatatypeSegment"@, optional: false }], bracket_type: "round"@ }], terminators: seq![], parse_mode: ParseMode::Strict }, GrammarView::Sequence { elements: seq![GrammarView::StringParser { template: "LOWCARDINALITY"@, kind: "data_type_identifier"@ }, GrammarView::Bracketed { elements: seq![GrammarView::Ref { name: "DatatypeSegment"@, optional: false }], bracket_type: "round"@ }], terminators: seq![], parse_mode: ParseMode::Strict }, GrammarView::Sequence { elements: seq![GrammarView::StringParser { template: "DATETIME64"@, kind: "data_type_identifier"@ }, GrammarView::Bracketed { elements: seq![GrammarView::Optional { grammar: Box::new(GrammarView::Delimited { elements: seq![GrammarView::OneOf { elements: seq![GrammarView::Ref { name: "NumericLiteralSegment"@, optional: false }, GrammarView::Ref { name: "QuotedLiteralSegment"@, optional: false }], terminators: seq![] }], allow_trailing: false, delimiter: None, terminators: seq![], allow_gaps: true }) }], bracket_type: "round"@ }], terminators: seq![], parse_mode: ParseMode::Strict }, GrammarView::Sequence { elements: seq![GrammarView::StringParser { template: "DATETIME"@, kind: "data_type_identifier"@ }, GrammarView::Optional { grammar: Box::new(GrammarView::Bracketed { elements: seq![GrammarView::Ref { name: "QuotedLiteralSegment"@, optional: false }], bracket_type: "round"@ }) }], terminators: seq![], parse_mode: ParseMode::Strict }, GrammarView::Sequence { elements: seq![GrammarView::StringParser { template: "FIXEDSTRING"@, kind: "data_type_identifier"@ }, GrammarView::Bracketed { elements: seq![GrammarView::Ref { name: "NumericLiteralSegment"@, optional: false }], bracket_type: "round"@ }], terminators: seq![], parse_mode: ParseMode::Strict }, GrammarView::Sequence { elements: seq![GrammarView::StringParser { template: "ARRAY"@, kind: "data_type_identifier"@ }, GrammarView::Bracketed { elements: seq![GrammarView::Ref { name: "DatatypeSegment"@, optional: false }], bracket_type: "round"@ }], terminators: seq![], parse_mode: ParseMode::Strict }, GrammarView::Sequence { elements: seq![GrammarView::StringParser { template: "MAP"@, kind: "data_type_identifier"@ }, GrammarView::Bracketed { elements: seq![GrammarView::Delimited { elements: seq![GrammarView::Ref { name: "DatatypeSegment"@, optional: false }], allow_trailing: false, delimiter: None, terminators: seq![], allow_gaps: true }], bracket_type: "round"@ }], terminators: seq![], parse_mode: ParseMode::Strict }, GrammarView::Sequence { elements: seq![GrammarView::StringParser { template: "TUPLE"@, kind: "data_type_identifier"@ }, GrammarView::Bracketed { elements: seq![GrammarView::Delimited { elements: seq![GrammarView::OneOf { elements: seq![GrammarView::Sequence { elements: seq![GrammarView::OneOf { elements: seq![GrammarView::Ref { name: "SingleIdentifierGrammar"@, optional: false }, GrammarView::Ref { name: "QuotedIdentifierSegment"@, optional: false }], terminators: seq![] }, GrammarView::Ref { name: "DatatypeSegment"@, optional: false }], terminators: seq![], parse_mode: ParseMode::Strict }, GrammarView::Ref { name: "DatatypeSegment"@, optional: false }], terminators: seq![] }], allow_trailing: false, delimiter: None, terminators: seq![], allow_gaps: true }], bracket_type: "round"@ }], terminators: seq![], parse_mode: ParseMode::Strict }, GrammarView::Sequence { elements: seq![GrammarView::StringParser { template: "NESTED"@, kind: "data_type_identifier"@ }, GrammarView::Bracketed { elements: seq![GrammarView::Delimited { elements: seq![GrammarView::Sequence { elements: seq![GrammarView::Ref { name: "SingleIdentifierGrammar"@, optional: false }, GrammarView::Ref { name: "DatatypeSegment"@, optional: false }], terminators: seq![], parse_mode: ParseMode::Strict }], allow_trailing: false, delimiter: None, terminators: seq![], allow_gaps: true }], bracket_type: "round"@ }], terminators: seq![], parse_mode: ParseMode::Strict }, GrammarView::StringParser { template: "JSON"@, kind: "data_type_identifier"@ }, GrammarView::Sequence { elements: seq![GrammarView::OneOf { elements: seq![GrammarView::StringParser { template: "ENUM8"@, kind: "data_type_identifier"@ }, GrammarView::StringParser { template: "ENUM16"@, kind: "data_type_identifier"@ }], terminators: seq![] }, GrammarView::Bracketed { elements: seq![GrammarView::Delimited { elements: seq![GrammarView::Sequence { elements: seq![GrammarView::Ref { name: "QuotedLiteralSegment"@, optional: false }, GrammarView::Ref { name: "EqualsSegment"@, optional: false }, GrammarView::Ref { name: "NumericLiteralSegment"@, optional: false }], terminators: seq![], parse_mode: ParseMode::Strict }], allow_trailing: false, delimiter: None, terminators: seq![], allow_gaps: true }], bracket_type: "round"@ }], terminators: seq![], parse_mode: ParseMode::Strict }, GrammarView::Sequence { elements: seq![GrammarView::OneOf { elements: seq![GrammarView::StringParser { template: "DECIMAL"@, kind: "data_type_identifier"@ }, GrammarView::StringParser { template: "NUMERIC"@, kind: "data_type_identifier"@ }], terminators: seq![] }, GrammarView::Ref { name: "BracketedArguments"@, optional: true }], terminators: seq![], parse_mode: ParseMode::Strict }, GrammarView::Sequence { elements: seq![GrammarView::OneOf { elements: seq![GrammarView::StringParser { template: "DECIMAL32"@, kind: "data_type_identifier"@ }, GrammarView::StringParser { template: "DECIMAL64"@, kind: "data_type_identifier"@ }, GrammarView::StringParser { template: "DECIMAL128"@, kind: "data_type_identifier"@ }, GrammarView::StringParser { template: "DECIMAL256"@, kind: "data_type_identifier"@ }], terminators: seq![] }, GrammarView::Bracketed { elements: seq![GrammarView::Ref { name: "NumericLiteralSegment"@, optional: false }], bracket_type: "round"@ }], terminators: seq![], parse_mode: ParseMode::Strict }, GrammarView::Ref { name: "TupleTypeSegment"@, optional: false }, GrammarView::Ref { name: "DatatypeIdentifierSegment"@, optional: false }, GrammarView::Ref { name: "NumericLiteralSegment"@, optional: false }, GrammarView::Sequence { elements: seq![GrammarView::StringParser { template: "DATETIME64"@, kind: "data_type_identifier"@ }, GrammarView::Optional { grammar: Box::new(GrammarView::Bracketed { elements: seq![GrammarView::Optional { grammar: Box::new(GrammarView::Delimited { elements: seq![GrammarView::Ref { name: "NumericLiteralSegment"@, optional: false }, GrammarView::Ref { name: "QuotedLiteralSegment"@, optional: true }], allow_trailing: false, delimiter: None, terminators: seq![], allow_gaps: true }) }], bracket_type: "round"@ }) }], terminators: seq![], parse_mode: ParseMode::Strict }, GrammarView::Sequence { elements: seq![GrammarView::StringParser { template: "ARRAY"@, kind: "data_type_identifier"@ }, GrammarView::Bracketed { elements: seq![GrammarView::Ref { name: "DatatypeSegment"@, optional: false }], bracket_type: "round"@ }], terminators: seq![], parse_mode: ParseMode::Strict }], terminators: seq![] }
}

#[verifier::rlimit(100)]
fn build_datatype_segment() -> (g: Grammar)
    ensures
        g@ =~~= datatype_segment_grammar(),
{
    let g1: Vec<Grammar> = vec![Grammar::reference("DatatypeSegment")];
    assert(views(g1@) =~~= seq![GrammarView::Ref { name: "DatatypeSegment"@, optional: false }]);
    let g2 = Grammar::bracketed_with(g1, "round");
    let g3: Vec<Grammar> = vec![Grammar::string_parser("NULLABLE", "data_type_identifier"), g2];
    assert(views(g3@) =~~= seq![GrammarView::StringParser { template: "NULLABLE"@, kind: "data_type_identifier"@ }, GrammarView::Bracketed { elements: seq![GrammarView::Ref { name: "DatatypeSegment"@, optional: false }], bracket_type: "round"@ }]);
    let g4: Vec<Grammar> = Vec::new();
    assert(views(g4@) =~= Seq::<GrammarView>::empty());
    let g5 = Grammar::sequence_with(g3, g4, ParseMode::Strict);
    let g6: Vec<Grammar> = vec![Grammar::reference("DatatypeSegment")];
    assert(views(g6@) =~~= seq![GrammarView::Ref { name: "DatatypeSegment"@, optional: false }]);
    let g7 = Grammar::bracketed_with(g6, "round");
    let g8: Vec<Grammar> = vec![Grammar::string_parser("LOWCARDINALITY", "data_type_identifier"), g7];
    assert(views(g8@) =~~= seq![GrammarView::StringParser { template: "LOWCARDINALITY"@, kind: "data_type_identifier"@ }, GrammarView::Bracketed { elements: seq![GrammarView::Ref { name: "DatatypeSegment"@, optional: false }], bracket_type: "round"@ }]);
    let g9: Vec<Grammar> = Vec::new();
    assert(views(g9@) =~= Seq::<GrammarView>::empty());
    let g10 = Grammar::sequence_with(g8, g9, ParseMode::Strict);
    let g11: Vec<Grammar> = vec![Grammar::reference("NumericLiteralSegment"), Grammar::reference("QuotedLiteralSegment")];
    assert(views(g11@) =~~= seq![GrammarView::Ref { name: "NumericLiteralSegment"@, optional: false }, GrammarView::Ref { name: "QuotedLiteralSegment"@, optional: false }]);
    let g12: Vec<Grammar> = Vec::new();
    assert(views(g12@) =~= Seq::<GrammarView>::empty());
    let g13 = Grammar::one_of_with(g11, g12);
    let g14: Vec<Grammar> = vec![g13];
    assert(views(g14@) =~~= seq![GrammarView::OneOf { elements: seq![GrammarView::Ref { name: "NumericLiteralSegment"@, optional: false }, GrammarView::Ref { name: "QuotedLiteralSegment"@, optional: false }], terminators: seq![] }]);
    let g15: Vec<Grammar> = Vec::new();
    assert(views(g15@) =~= Seq::<GrammarView>::empty());
    let g16 = Grammar::delimited_with(g14, false, None, g15, true);
    let g17 = g16.optional();
    let g18: Vec<Grammar> = vec![g17];
    assert(views(g18@) =~~= seq![GrammarView::Optional { grammar: Box::new(GrammarView::Delimited { elements: seq![GrammarView::OneOf { elements: seq![GrammarView::Ref { name: "NumericLiteralSegment"@, optional: false }, GrammarView::Ref { name: "QuotedLiteralSegment"@, optional: false }], terminators: seq![] }], allow_trailing: false, delimiter: None, terminators: seq![], allow_gaps: true }) }]);
    let g19 = Grammar::bracketed_with(g18, "round");
    let g20: Vec<Grammar> = vec![Grammar::string_parser("DATETIME64", "data_type_identifier"), g19];
    assert(views(g20@) =~~= seq![GrammarView::StringParser { template: "DATETIME64"@, kind: "data_type_identifier"@ }, GrammarView::Bracketed { elements: seq![GrammarView::Optional { grammar: Box::new(GrammarView::Delimited { elements: seq![GrammarView::OneOf { elements: seq![GrammarView::Ref { name: "NumericLiteralSegment"@, optional: false }, GrammarView::Ref { name: "QuotedLiteralSegment"@, optional: false }], terminators: seq![] }], allow_trailing: false, delimiter: None, terminators: seq![], allow_gaps: true }) }], bracket_type: "round"@ }]);
    let g21: Vec<Grammar> = Vec::new();
    assert(views(g21@) =~= Seq::<GrammarView>::empty());
    let g22 = Grammar::sequence_with(g20, g21, ParseMode::Strict);
    let g23: Vec<Grammar> = vec![Grammar::reference("QuotedLiteralSegment")];
    assert(views(g23@) =~~= seq![GrammarView::Ref { name: "QuotedLiteralSegment"@, optional: false }]);
    let g24 = Grammar::bracketed_with(g23, "round");
    let g25 = g24.optional();
    let g26: Vec<Grammar> = vec![Grammar::string_parser("DATETIME", "data_type_identifier"), g25];
    assert(views(g26@) =~~= seq![GrammarView::StringParser { template: "DATETIME"@, kind: "data_type_identifier"@ }, GrammarView::Optional { grammar: Box::new(GrammarView::Bracketed { elements: seq![GrammarView::Ref { name: "QuotedLiteralSegment"@, optional: false }], bracket_type: "round"@ }) }]);
    let g27: Vec<Grammar> = Vec::new();
    assert(views(g27@) =~= Seq::<GrammarView>::empty());
    let g28 = Grammar::sequence_with(g26, g27, ParseMode::Strict);
    let g29: Vec<Grammar> = vec![Grammar::reference("NumericLiteralSegment")];
    assert(views(g29@) =~~= seq![GrammarView::Ref { name: "NumericLiteralSegment"@, optional: false }]);
    let g30 = Grammar::bracketed_with(g29, "round");
    let g31: Vec<Grammar> = vec![Grammar::string_parser("FIXEDSTRING", "data_type_identifier"), g30];
    assert(views(g31@) =~~= seq![GrammarView::StringParser { template: "FIXEDSTRING"@, kind: "data_type_identifier"@ }, GrammarView::Bracketed { elements: seq![GrammarView::Ref { name: "NumericLiteralSegment"@, optional: false }], bracket_type: "round"@ }]);
    let g32: Vec<Grammar> = Vec::new();
    assert(views(g32@) =~= Seq::<GrammarView>::empty());
    let g33 = Grammar::sequence_with(g31, g32, ParseMode::Strict);
    let g34: Vec<Grammar> = vec![Grammar::reference("DatatypeSegment")];
    assert(views(g34@) =~~= seq![GrammarView::Ref { name: "DatatypeSegment"@, optional: false }]);
    let g35 = Grammar::bracketed_with(g34, "round");
    let g36: Vec<Grammar> = vec![Grammar::string_parser("ARRAY", "data_type_identifier"), g35];
    assert(views(g36@) =~~= seq![GrammarView::StringParser { template: "ARRAY"@, kind: "data_type_identifier"@ }, GrammarView::Bracketed { elements: seq![GrammarView::Ref { name: "DatatypeSegment"@, optional: false }], bracket_type: "round"@ }]);
    let g37: Vec<Grammar> = Vec::new();
    assert(views(g37@) =~= Seq::<GrammarView>::empty());
    let g38 = Grammar::sequence_with(g36, g37, ParseMode::Strict);
    let g39: Vec<Grammar> = vec![Grammar::reference("DatatypeSegment")];
    assert(views(g39@) =~~= seq![GrammarView::Ref { name: "DatatypeSegment"@, optional: false }]);
    let g40: Vec<Grammar> = Vec::new();
    assert(views(g40@) =~= Seq::<GrammarView>::empty());
    let g41 = Grammar::delimited_with(g39, false, None, g40, true);
    let g42: Vec<Grammar> = vec![g41];
    assert(views(g42@) =~~= seq![GrammarView::Delimited { elements: seq![GrammarView::Ref { name: "DatatypeSegment"@, optional: false }], allow_trailing: false, delimiter: None, terminators: seq![], allow_gaps: true }]);
    let g43 = Grammar::bracketed_with(g42, "round");
    let g44: Vec<Grammar> = vec![Grammar::string_parser("MAP", "data_type_identifier"), g43];
    assert(views(g44@) =~~= seq![GrammarView::StringParser { template: "MAP"@, kind: "data_type_identifier"@ }, GrammarView::Bracketed { elements: seq![GrammarView::Delimited { elements: seq![GrammarView::Ref { name: "DatatypeSegment"@, optional: false }], allow_trailing: false, delimiter: None, terminators: seq![], allow_gaps: true }], bracket_type: "round"@ }]);
    let g45: Vec<Grammar> = Vec::new();
    assert(views(g45@) =~= Seq::<GrammarView>::empty());
    let g46 = Grammar::sequence_with(g44, g45, ParseMode::Strict);
    let g47: Vec<Grammar> = vec![Grammar::reference("SingleIdentifierGrammar"), Grammar::reference("QuotedIdentifierSegment")];
    assert(views(g47@) =~~= seq![GrammarView::Ref { name: "SingleIdentifierGrammar"@, optional: false }, GrammarView::Ref { name: "QuotedIdentifierSegment"@, optional: false }]);
    let g48: Vec<Grammar> = Vec::new();
    assert(views(g48@) =~= Seq::<GrammarView>::empty());
    let g49 = Grammar::one_of_with(g47, g48);
    let g50: Vec<Grammar> = vec![g49, Grammar::reference("DatatypeSegment")];
    assert(views(g50@) =~~= seq![GrammarView::OneOf { elements: seq![GrammarView::Ref { name: "SingleIdentifierGrammar"@, optional: false }, GrammarView::Ref { name: "QuotedIdentifierSegment"@, optional: false }], terminators: seq![] }, GrammarView::Ref { name: "DatatypeSegment"@, optional: false }]);
    let g51: Vec<Grammar> = Vec::new();
    assert(views(g51@) =~= Seq::<GrammarView>::empty());
    let g52 = Grammar::sequence_with(g50, g51, ParseMode::Strict);
    let g53: Vec<Grammar> = vec![g52, Grammar::reference("DatatypeSegment")];
    assert(views(g53@) =~~= seq![GrammarView::Sequence { elements: seq![GrammarView::OneOf { elements: seq![GrammarView::Ref { name: "SingleIdentifierGrammar"@, optional: false }, GrammarView::Ref { name: "QuotedIdentifierSegment"@, optional: false }], terminators: seq![] }, GrammarView::Ref { name: "DatatypeSegment"@, optional: false }], terminators: seq![], parse_mode: ParseMode::Strict }, GrammarView::Ref { name: "DatatypeSegment"@, optional: false }]);
    let g54: Vec<Grammar> = Vec::new();
    assert(views(g54@) =~= Seq::<GrammarView>::empty());
    let g55 = Grammar::one_of_with(g53, g54);
    let g56: Vec<Grammar> = vec![g55];
    assert(views(g56@) =~~= seq![GrammarView::OneOf { elements: seq![GrammarView::Sequence { elements: seq![GrammarView::OneOf { elements: seq![GrammarView::Ref { name: "SingleIdentifierGrammar"@, optional: false }, GrammarView::Ref { name: "QuotedIdentifierSegment"@, optional: false }], terminators: seq![] }, GrammarView::Ref { name: "DatatypeSegment"@, optional: false }], terminators: seq![], parse_mode: ParseMode::Strict }, GrammarView::Ref { name: "DatatypeSegment"@, optional: false }], terminators: seq![] }]);
    let g57: Vec<Grammar> = Vec::new();
    assert(views(g57@) =~= Seq::<GrammarView>::empty());
    let g58 = Grammar::delimited_with(g56, false, None, g57, true);
    let g59: Vec<Grammar> = vec![g58];
    assert(views(g59@) =~~= seq![GrammarView::Delimited { elements: seq![GrammarView::OneOf { elements: seq![GrammarView::Sequence { elements: seq![GrammarView::OneOf { elements: seq![GrammarView::Ref { name: "SingleIdentifierGrammar"@, optional: false }, GrammarView::Ref { name: "QuotedIdentifierSegment"@, optional: false }], terminators: seq![] }, GrammarView::Ref { name: "DatatypeSegment"@, optional: false }], terminators: seq![], parse_mode: ParseMode::Strict }, GrammarView::Ref { name: "DatatypeSegment"@, optional: false }], terminators: seq![] }], allow_trailing: false, delimiter: None, terminators: seq![], allow_gaps: true }]);
    let g60 = Grammar::bracketed_with(g59, "round");
    let g61: Vec<Grammar> = vec![Grammar::string_parser("TUPLE", "data_type_identifier"), g60];
    assert(views(g61@) =~~= seq![GrammarView::StringParser { template: "TUPLE"@, kind: "data_type_identifier"@ }, GrammarView::Bracketed { elements: seq![GrammarView::Delimited { elements: seq![GrammarView::OneOf { elements: seq![GrammarView::Sequence { elements: seq![GrammarView::OneOf { elements: seq![GrammarView::Ref { name: "SingleIdentifierGrammar"@, optional: false }, GrammarView::Ref { name: "QuotedIdentifierSegment"@, optional: false }], terminators: seq![] }, GrammarView::Ref { name: "DatatypeSegment"@, optional: false }], terminators: seq![], parse_mode: ParseMode::Strict }, GrammarView::Ref { name: "DatatypeSegment"@, optional: false }], terminators: seq![] }], allow_trailing: false, delimiter: None, terminators: seq![], allow_gaps: true }], bracket_type: "round"@ }]);
    let g62: Vec<Grammar> = Vec::new();
    assert(views(g62@) =~= Seq::<GrammarView>::empty());
    let g63 = Grammar::sequence_with(g61, g62, ParseMode::Strict);
    let g64: Vec<Grammar> = vec![Grammar::reference("SingleIdentifierGrammar"), Grammar::reference("DatatypeSegment")];
    assert(views(g64@) =~~= seq![GrammarView::Ref { name: "SingleIdentifierGrammar"@, optional: false }, GrammarView::Ref { name: "DatatypeSegment"@, optional: false }]);
    let g65: Vec<Grammar> = Vec::new();
    assert(views(g65@) =~= Seq::<GrammarView>::empty());
    let g66 = Grammar::sequence_with(g64, g65, ParseMode::Strict);
    let g67: Vec<Grammar> = vec![g66];
    assert(views(g67@) =~~= seq![GrammarView::Sequence { elements: seq![GrammarView::Ref { name: "SingleIdentifierGrammar"@, optional: false }, GrammarView::Ref { name: "DatatypeSegment"@, optional: false }], terminators: seq![], parse_mode: ParseMode::Strict }]);
    let g68: Vec<Grammar> = Vec::new();
    assert(views(g68@) =~= Seq::<GrammarView>::empty());
    let g69 = Grammar::delimited_with(g67, false, None, g68, true);
    let g70: Vec<Grammar> = vec![g69];
    assert(views(g70@) =~~= seq![GrammarView::Delimited { elements: seq![GrammarView::Sequence { elements: seq![GrammarView::Ref { name: "SingleIdentifierGrammar"@, optional: false }, GrammarView::Ref { name: "DatatypeSegment"@, optional: false }], terminators: seq![], parse_mode: ParseMode::Strict }], allow_trailing: false, delimiter: None, terminators: seq![], allow_gaps: true }]);
    let g71 = Grammar::bracketed_with(g70, "round");
    let g72: Vec<Grammar> = vec![Grammar::string_parser("NESTED", "data_type_identifier"), g71];
    assert(views(g72@) =~~= seq![GrammarView::StringParser { template: "NESTED"@, kind: "data_type_identifier"@ }, GrammarView::Bracketed { elements: seq![GrammarView::Delimited { elements: seq![GrammarView::Sequence { elements: seq![GrammarView::Ref { name: "SingleIdentifierGrammar"@, optional: false }, GrammarView::Ref { name: "DatatypeSegment"@, optional: false }], terminators: seq![], parse_mode: ParseMode::Strict }], allow_trailing: false, delimiter: None, terminators: seq![], allow_gaps: true }], bracket_type: "round"@ }]);
    let g73: Vec<Grammar> = Vec::new();
    assert(views(g73@) =~= Seq::<GrammarView>::empty());
    let g74 = Grammar::sequence_with(g72, g73, ParseMode::Strict);
    let g75: Vec<Grammar> = vec![Grammar::string_parser("ENUM8", "data_type_identifier"), Grammar::string_parser("ENUM16", "data_type_identifier")];
    assert(views(g75@) =~~= seq![GrammarView::StringParser { template: "ENUM8"@, kind: "data_type_identifier"@ }, GrammarView::StringParser { template: "ENUM16"@, kind: "data_type_identifier"@ }]);
    let g76: Vec<Grammar> = Vec::new();
    assert(views(g76@) =~= Seq::<GrammarView>::empty());
    let g77 = Grammar::one_of_with(g75, g76);
    let g78: Vec<Grammar> = vec![Grammar::reference("QuotedLiteralSegment"), Grammar::reference("EqualsSegment"), Grammar::reference("NumericLiteralSegment")];
    assert(views(g78@) =~~= seq![GrammarView::Ref { name: "QuotedLiteralSegment"@, optional: false }, GrammarView::Ref { name: "EqualsSegment"@, optional: false }, GrammarView::Ref { name: "NumericLiteralSegment"@, optional: false }]);
    let g79: Vec<Grammar> = Vec::new();
    assert(views(g79@) =~= Seq::<GrammarView>::empty());
    let g80 = Grammar::sequence_with(g78, g79, ParseMode::Strict);
    let g81: Vec<Grammar> = vec![g80];
    assert(views(g81@) =~~= seq![GrammarView::Sequence { elements: seq![GrammarView::Ref { name: "QuotedLiteralSegment"@, optional: false }, GrammarView::Ref { name: "EqualsSegment"@, optional: false }, GrammarView::Ref { name: "NumericLiteralSegment"@, optional: false }], terminators: seq![], parse_mode: ParseMode::Strict }]);
    let g82: Vec<Grammar> = Vec::new();
    assert(views(g82@) =~= Seq::<GrammarView>::empty());
    let g83 = Grammar::delimited_with(g81, false, None, g82, true);
    let g84: Vec<Grammar> = vec![g83];
    assert(views(g84@) =~~= seq![GrammarView::Delimited { elements: seq![GrammarView::Sequence { elements: seq![GrammarView::Ref { name: "QuotedLiteralSegment"@, optional: false }, GrammarView::Ref { name: "EqualsSegment"@, optional: false }, GrammarView::Ref { name: "NumericLiteralSegment"@, optional: false }], terminators: seq![], parse_mode: ParseMode::Strict }], allow_trailing: false, delimiter: None, terminators: seq![], allow_gaps: true }]);
    let g85 = Grammar::bracketed_with(g84, "round");
    let g86: Vec<Grammar> = vec![g77, g85];
    assert(views(g86@) =~~= seq![GrammarView::OneOf { elements: seq![GrammarView::StringParser { template: "ENUM8"@, kind: "data_type_identifier"@ }, GrammarView::StringParser { template: "ENUM16"@, kind: "data_type_identifier"@ }], terminators: seq![] }, GrammarView::Bracketed { elements: seq![GrammarView::Delimited { elements: seq![GrammarView::Sequence { elements: seq![GrammarView::Ref { name: "QuotedLiteralSegment"@, optional: false }, GrammarView::Ref { name: "EqualsSegment"@, optional: false }, GrammarView::Ref { name: "NumericLiteralSegment"@, optional: false }], terminators: seq![], parse_mode: ParseMode::Strict }], allow_trailing: false, delimiter: None, terminators: seq![], allow_gaps: true }], bracket_type: "round"@ }]);
    let g87: Vec<Grammar> = Vec::new();
    assert(views(g87@) =~= Seq::<GrammarView>::empty());
    let g88 = Grammar::sequence_with(g86, g87, ParseMode::Strict);
    let g89: Vec<Grammar> = vec![Grammar::string_parser("DECIMAL", "data_type_identifier"), Grammar::string_parser("NUMERIC", "data_type_identifier")];
    assert(views(g89@) =~~= seq![GrammarView::StringParser { template: "DECIMAL"@, kind: "data_type_identifier"@ }, GrammarView::StringParser { template: "NUMERIC"@, kind: "data_type_identifier"@ }]);
    let g90: Vec<Grammar> = Vec::new();
    assert(views(g90@) =~= Seq::<GrammarView>::empty());
    let g91 = Grammar::one_of_with(g89, g90);
    let g92: Vec<Grammar> = vec![g91, Grammar::optional_reference("BracketedArguments")];
    assert(views(g92@) =~~= seq![GrammarView::OneOf { elements: seq![GrammarView::StringParser { template: "DECIMAL"@, kind: "data_type_identifier"@ }, GrammarView::StringParser { template: "NUMERIC"@, kind: "data_type_identifier"@ }], terminators: seq![] }, GrammarView::Ref { name: "BracketedArguments"@, optional: true }]);
    let g93: Vec<Grammar> = Vec::new();
    assert(views(g93@) =~= Seq::<GrammarView>::empty());
    let g94 = Grammar::sequence_with(g92, g93, ParseMode::Strict);
    let g95: Vec<Grammar> = vec![Grammar::string_parser("DECIMAL32", "data_type_identifier"), Grammar::string_parser("DECIMAL64", "data_type_identifier"), Grammar::string_parser("DECIMAL128", "data_type_identifier"), Grammar::string_parser("DECIMAL256", "data_type_identifier")];
    assert(views(g95@) =~~= seq![GrammarView::StringParser { template: "DECIMAL32"@, kind: "data_type_identifier"@ }, GrammarView::StringParser { template: "DECIMAL64"@, kind: "data_type_identifier"@ }, GrammarView::StringParser { template: "DECIMAL128"@, kind: "data_type_identifier"@ }, GrammarView::StringParser { template: "DECIMAL256"@, kind: "data_type_identifier"@ }]);
    let g96: Vec<Grammar> = Vec::new();
    assert(views(g96@) =~= Seq::<GrammarView>::empty());
    let g97 = Grammar::one_of_with(g95, g96);
    let g98: Vec<Grammar> = vec![Grammar::reference("NumericLiteralSegment")];
    assert(views(g98@) =~~= seq![GrammarView::Ref { name: "NumericLiteralSegment"@, optional: false }]);
    let g99 = Grammar::bracketed_with(g98, "round");
    let g100: Vec<Grammar> = vec![g97, g99];
    assert(views(g100@) =~~= seq![GrammarView::OneOf { elements: seq![GrammarView::StringParser { template: "DECIMAL32"@, kind: "data_type_identifier"@ }, GrammarView::StringParser { template: "DECIMAL64"@, kind: "data_type_identifier"@ }, GrammarView::StringParser { template: "DECIMAL128"@, kind: "data_type_identifier"@ }, GrammarView::StringParser { template: "DECIMAL256"@, kind: "data_type_identifier"@ }], terminators: seq![] }, GrammarView::Bracketed { elements: seq![GrammarView::Ref { name: "NumericLiteralSegment"@, optional: false }], bracket_type: "round"@ }]);
    let g101: Vec<Grammar> = Vec::new();
    assert(views(g101@) =~= Seq::<GrammarView>::empty());
    let g102 = Grammar::sequence_with(g100, g101, ParseMode::Strict);
    let g103: Vec<Grammar> = vec![Grammar::reference("NumericLiteralSegment"), Grammar::optional_reference("QuotedLiteralSegment")];
    assert(views(g103@) =~~= seq![GrammarView::Ref { name: "NumericLiteralSegment"@, optional: false }, GrammarView::Ref { name: "QuotedLiteralSegment"@, optional: true }]);
    let g104: Vec<Grammar> = Vec::new();
    assert(views(g104@) =~= Seq::<GrammarView>::empty());
    let g105 = Grammar::delimited_with(g103, false, None, g104, true);
    let g106 = g105.optional();
    let g107: Vec<Grammar> = vec![g106];
    assert(views(g107@) =~~= seq![GrammarView::Optional { grammar: Box::new(GrammarView::Delimited { elements: seq![GrammarView::Ref { name: "NumericLiteralSegment"@, optional: false }, GrammarView::Ref { name: "QuotedLiteralSegment"@, optional: true }], allow_trailing: false, delimiter: None, terminators: seq![], allow_gaps: true }) }]);
    let g108 = Grammar::bracketed_with(g107, "round");
    let g109 = g108.optional();
    let g110: Vec<Grammar> = vec![Grammar::string_parser("DATETIME64", "data_type_identifier"), g109];
    assert(views(g110@) =~~= seq![GrammarView::StringParser { template: "DATETIME64"@, kind: "data_type_identifier"@ }, GrammarView::Optional { grammar: Box::new(GrammarView::Bracketed { elements: seq![GrammarView::Optional { grammar: Box::new(GrammarView::Delimited { elements: seq![GrammarView::Ref { name: "NumericLiteralSegment"@, optional: false }, GrammarView::Ref { name: "QuotedLiteralSegment"@, optional: true }], allow_trailing: false, delimiter: None, terminators: seq![], allow_gaps: true }) }], bracket_type: "round"@ }) }]);
    let g111: Vec<Grammar> = Vec::new();
    assert(views(g111@) =~= Seq::<GrammarView>::empty());
    let g112 = Grammar::sequence_with(g110, g111, ParseMode::Strict);
    let g113: Vec<Grammar> = vec![Grammar::reference("DatatypeSegment")];
    assert(views(g113@) =~~= seq![GrammarView::Ref { name: "DatatypeSegment"@, optional: false }]);
    let g114 = Grammar::bracketed_with(g113, "round");
    let g115: Vec<Grammar> = vec![Grammar::string_parser("ARRAY", "data_type_identifier"), g114];
    assert(views(g115@) =~~= seq![GrammarView::StringParser { template: "ARRAY"@, kind: "data_type_identifier"@ }, GrammarView::Bracketed { elements: seq![GrammarView::Ref { name: "DatatypeSegment"@, optional: false }], bracket_type: "round"@ }]);
    let g116: Vec<Grammar> = Vec::new();
    assert(views(g116@) =~= Seq::<GrammarView>::empty());
    let g117 = Grammar::sequence_with(g115, g116, ParseMode::Strict);
    let g118: Vec<Grammar> = vec![g5, g10, g22, g28, g33, g38, g46, g63, g74, Grammar::string_parser("JSON", "data_type_identifier"), g88, g94, g102, Grammar::reference("TupleTypeSegment"), Grammar::reference("DatatypeIdentifierSegment"), Grammar::reference("NumericLiteralSegment"), g112, g117];
    assert(views(g118@) =~~= seq![GrammarView::Sequence { elements: seq![GrammarView::StringParser { template: "NULLABLE"@, kind: "data_type_identifier"@ }, GrammarView::Bracketed { elements: seq![GrammarView::Ref { name: "DatatypeSegment"@, optional: false }], bracket_type: "round"@ }], terminators: seq![], parse_mode: ParseMode::Strict }, GrammarView::Sequence { elements: seq![GrammarView::StringParser { template: "LOWCARDINALITY"@, kind: "data_type_identifier"@ }, GrammarView::Bracketed { elements: seq![GrammarView::Ref { name: "DatatypeSegment"@, optional: false }], bracket_type: "round"@ }], terminators: seq![], parse_mode: ParseMode::Strict }, GrammarView::Sequence { elements: seq![GrammarView::StringParser { template: "DATETIME64"@, kind: "data_type_identifier"@ }, GrammarView::Bracketed { elements: seq![GrammarView::Optional { grammar: Box::new(GrammarView::Delimited { elements: seq![GrammarView::OneOf { elements: seq![GrammarView::Ref { name: "NumericLiteralSegment"@, optional: false }, GrammarView::Ref { name: "QuotedLiteralSegment"@, optional: false }], terminators: seq![] }], allow_trailing: false, delimiter: None, terminators: seq![], allow_gaps: true }) }], bracket_type: "round"@ }], terminators: seq![], parse_mode: ParseMode::Strict }, GrammarView::Sequence { elements: seq![GrammarView::StringParser { template: "DATETIME"@, kind: "data_type_identifier"@ }, GrammarView::Optional { grammar: Box::new(GrammarView::Bracketed { elements: seq![GrammarView::Ref { name: "QuotedLiteralSegment"@, optional: false }], bracket_type: "round"@ }) }], terminators: seq![], parse_mode: ParseMode::Strict }, GrammarView::Sequence { elements: seq![GrammarView::StringParser { template: "FIXEDSTRING"@, kind: "data_type_identifier"@ }, GrammarView::Bracketed { elements: seq![GrammarView::Ref { name: "NumericLiteralSegment"@, optional: false }], bracket_type: "round"@ }], terminators: seq![], parse_mode: ParseMode::Strict }, GrammarView::Sequence { elements: seq![GrammarView::StringParser { template: "ARRAY"@, kind: "data_type_identifier"@ }, GrammarView::Bracketed { elements: seq![GrammarView::Ref { name: "DatatypeSegment"@, optional: false }], bracket_type: "round"@ }], terminators: seq![], parse_mode: ParseMode::Strict }, GrammarView::Sequence { elements: seq![GrammarView::StringParser { template: "MAP"@, kind: "data_type_identifier"@ }, GrammarView::Bracketed { elements: seq![GrammarView::Delimited { elements: seq![GrammarView::Ref { name: "DatatypeSegment"@, optional: false }], allow_trailing: false, delimiter: None, terminators: seq![], allow_gaps: true }], bracket_type: "round"@ }], terminators: seq![], parse_mode: ParseMode::Strict }, GrammarView::Sequence { elements: seq![GrammarView::StringParser { template: "TUPLE"@, kind: "data_type_identifier"@ }, GrammarView::Bracketed { elements: seq![GrammarView::Delimited { elements: seq![GrammarView::OneOf { elements: seq![GrammarView::Sequence { elements: seq![GrammarView::OneOf { elements: seq![GrammarView::Ref { name: "SingleIdentifierGrammar"@, optional: false }, GrammarView::Ref { name: "QuotedIdentifierSegment"@, optional: false }], terminators: seq![] }, GrammarView::Ref { name: "DatatypeSegment"@, optional: false }], terminators: seq![], parse_mode: ParseMode::Strict }, GrammarView::Ref { name: "DatatypeSegment"@, optional: false }], terminators: seq![] }], allow_trailing: false, delimiter: None, terminators: seq![], allow_gaps: true }], bracket_type: "round"@ }], terminators: seq![], parse_mode: ParseMode::Strict }, GrammarView::Sequence { elements: seq![GrammarView::StringParser { template: "NESTED"@, kind: "data_type_identifier"@ }, GrammarView::Bracketed { elements: seq![GrammarView::Delimited { elements: seq![GrammarView::Sequence { elements: seq![GrammarView::Ref { name: "SingleIdentifierGrammar"@, optional: false }, GrammarView::Ref { name: "DatatypeSegment"@, optional: false }], terminators: seq![], parse_mode: ParseMode::Strict }], allow_trailing: false, delimiter: None, terminators: seq![], allow_gaps: true }], bracket_type: "round"@ }], terminators: seq![], parse_mode: ParseMode::Strict }, GrammarView::StringParser { template: "JSON"@, kind: "data_type_identifier"@ }, GrammarView::Sequence { elements: seq![GrammarView::OneOf { elements: seq![GrammarView::StringParser { template: "ENUM8"@, kind: "data_type_identifier"@ }, GrammarView::StringParser { template: "ENUM16"@, kind: "data_type_identifier"@ }], terminators: seq![] }, GrammarView::Bracketed { elements: seq![GrammarView::Delimited { elements: seq![GrammarView::Sequence { elements: seq![GrammarView::Ref { name: "QuotedLiteralSegment"@, optional: false }, GrammarView::Ref { name: "EqualsSegment"@, optional: false }, GrammarView::Ref { name: "NumericLiteralSegment"@, optional: false }], terminators: seq![], parse_mode: ParseMode::Strict }], allow_trailing: false, delimiter: None, terminators: seq![], allow_gaps: true }], bracket_type: "round"@ }], terminators: seq![], parse_mode: ParseMode::Strict }, GrammarView::Sequence { elements: seq![GrammarView::OneOf { elements: seq![GrammarView::StringParser { template: "DECIMAL"@, kind: "data_type_identifier"@ }, GrammarView::StringParser { template: "NUMERIC"@, kind: "data_type_identifier"@ }], terminators: seq![] }, GrammarView::Ref { name: "BracketedArguments"@, optional: true }], terminators: seq![], parse_mode: ParseMode::Strict }, GrammarView::Sequence { elements: seq![GrammarView::OneOf { elements: seq![GrammarView::StringParser { template: "DECIMAL32"@, kind: "data_type_identifier"@ }, GrammarView::StringParser { template: "DECIMAL64"@, kind: "data_type_identifier"@ }, GrammarView::StringParser { template: "DECIMAL128"@, kind: "data_type_identifier"@ }, GrammarView::StringParser { template: "DECIMAL256"@, kind: "data_type_identifier"@ }], terminators: seq![] }, GrammarView::Bracketed { elements: seq![GrammarView::Ref { name: "NumericLiteralSegment"@, optional: false }], bracket_type: "round"@ }], terminators: seq![], parse_mode: ParseMode::Strict }, GrammarView::Ref { name: "TupleTypeSegment"@, optional: false }, GrammarView::Ref { name: "DatatypeIdentifierSegment"@, optional: false }, GrammarView::Ref { name: "NumericLiteralSegment"@, optional: false }, GrammarView::Sequence { elements: seq![GrammarView::StringParser { template: "DATETIME64"@, kind: "data_type_identifier"@ }, GrammarView::Optional { grammar: Box::new(GrammarView::Bracketed { elements: seq![GrammarView::Optional { grammar: Box::new(GrammarView::Delimited { elements: seq![GrammarView::Ref { name: "NumericLiteralSegment"@, optional: false }, GrammarView::Ref { name: "QuotedLiteralSegment"@, optional: true }], allow_trailing: false, delimiter: None, terminators: seq![], allow_gaps: true }) }], bracket_type: "round"@ }) }], terminators: seq![], parse_mode: ParseMode::Strict }, GrammarView::Sequence { elements: seq![GrammarView::StringParser { template: "ARRAY"@, kind: "data_type_identifier"@ }, GrammarView::Bracketed { elements: seq![GrammarView::Ref { name: "DatatypeSegment"@, optional: false }], bracket_type: "round"@ }], terminators: seq![], parse_mode: ParseMode::Strict }]);
    let g119: Vec<Grammar> = Vec::new();
    assert(views(g119@) =~= Seq::<GrammarView>::empty());
    let g120 = Grammar::one_of_with(g118, g119);
    g120
}

/// The ClickHouse element `TupleTypeSegment`.
pub open spec fn tuple_type_segment_element() -> ElementView {
    ElementView::Grammar(GrammarView::Sequence { elements: seq![GrammarView::Keyword { word: "TUPLE"@ }, GrammarView::Ref { name: "TupleTypeSchemaSegment"@, optional: false }], terminators: seq![], parse_mode: ParseMode::Strict })
}

fn build_tuple_type_segment() -> (e: Element)
    ensures
        e@ =~~= tuple_type_segment_element(),
{
    let g1: Vec<Grammar> = vec![Grammar::keyword("TUPLE"), Grammar::reference("TupleTypeSchemaSegment")];
    assert(views(g1@) =~~= seq![GrammarView::Keyword { word: "TUPLE"@ }, GrammarView::Ref { name: "TupleTypeSchemaSegment"@, optional: false }]);
    let g2: Vec<Grammar> = Vec::new();
    assert(views(g2@) =~= Seq::<GrammarView>::empty());
    let g3 = Grammar::sequence_with(g1, g2, ParseMode::Strict);
    Element::Grammar(g3)
}

/// The ClickHouse element `TupleTypeSchemaSegment`.
pub open spec fn tuple_type_schema_segment_element() -> ElementView {
    ElementView::Grammar(GrammarView::Bracketed { elements: seq![GrammarView::Delimited { elements: seq![GrammarView::Sequence { elements: seq![GrammarView::Ref { name: "SingleIdentifierGrammar"@, optional: false }, GrammarView::Ref { name: "DatatypeSegment"@, optional: false }], terminators: seq![], parse_mode: ParseMode::Strict }], allow_trailing: false, delimiter: None, terminators: seq![], allow_gaps: true }], bracket_type: "round"@ })
}

fn build_tuple_type_schema_segment() -> (e: Element)
    ensures
        e@ =~~= tuple_type_schema_segment_element(),
{
    let g1: Vec<Grammar> = vec![Grammar::reference("SingleIdentifierGrammar"), Grammar::reference("DatatypeSegment")];
    assert(views(g1@) =~~= seq![GrammarView::Ref { name: "SingleIdentifierGrammar"@, optional: false }, GrammarView::Ref { name: "DatatypeSegment"@, optional: false }]);
    let g2: Vec<Grammar> = Vec::new();
    assert(views(g2@) =~= Seq::<GrammarView>::empty());
    let g3 = Grammar::sequence_with(g1, g2, ParseMode::Strict);
    let g4: Vec<Grammar> = vec![g3];
    assert(views(g4@) =~~= seq![GrammarView::Sequence { elements: seq![GrammarView::Ref { name: "SingleIdentifierGrammar"@, optional: false }, GrammarView::Ref { name: "DatatypeSegment"@, optional: false }], terminators: seq![], parse_mode: ParseMode::Strict }]);
    let g5: Vec<Grammar> = Vec::new();
    assert(views(g5@) =~= Seq::<GrammarView>::empty());
    let g6 = Grammar::delimited_with(g4, false, None, g5, true);
    let g7: Vec<Grammar> = vec![g6];
    assert(views(g7@) =~~= seq![GrammarView::Delimited { elements: seq![GrammarView::Sequence { elements: seq![GrammarView::Ref { name: "SingleIdentifierGrammar"@, optional: false }, GrammarView::Ref { name: "DatatypeSegment"@, optional: false }], terminators: seq![], parse_mode: ParseMode::Strict }], allow_trailing: false, delimiter: None, terminators: seq![], allow_gaps: true }]);
    let g8 = Grammar::bracketed_with(g7, "round");
    Element::Grammar(g8)
}

/// The ClickHouse grammar of `BracketedArguments`.
pub open spec fn bracketed_arguments_grammar() -> GrammarView {
    GrammarView::Bracketed { elements: seq![GrammarView::Optional { grammar: Box::new(GrammarView::Delimited { elements: seq![GrammarView::OneOf { elements: seq![GrammarView::Ref { name: "DatatypeIdentifierSegment"@, optional: false }, GrammarView::Ref { name: "NumericLiteralSegment"@, optional: false }], terminators: seq![] }], allow_trailing: false, delimiter: None, terminators: seq![], allow_gaps: true }) }], bracket_type: "round"@ }
}

fn build_bracketed_arguments() -> (g: Grammar)
    ensures
        g@ =~~= bracketed_arguments_grammar(),
{
    let g1: Vec<Grammar> = vec![Grammar::reference("DatatypeIdentifierSegment"), Grammar::reference("NumericLiteralSegment")];
    assert(views(g1@) =~~= seq![GrammarView::Ref { name: "DatatypeIdentifierSegment"@, optional: false }, GrammarView::Ref { name: "NumericLiteralSegment"@, optional: false }]);
    let g2: Vec<Grammar> = Vec::new();
    assert(views(g2@) =~= Seq::<GrammarView>::empty());
    let g3 = Grammar::one_of_with(g1, g2);
    let g4: Vec<Grammar> = vec![g3];
    assert(views(g4@) =~~= seq![GrammarView::OneOf { elements: seq![GrammarView::Ref { name: "DatatypeIdentifierSegment"@, optional: false }, GrammarView::Ref { name: "NumericLiteralSegment"@, optional: false }], terminators: seq![] }]);
    let g5: Vec<Grammar> = Vec::new();
    assert(views(g5@) =~= Seq::<GrammarView>::empty());
    let g6 = Grammar::delimited_with(g4, false, None, g5, true);
    let g7 = g6.optional();
    let g8: Vec<Grammar> = vec![g7];
    assert(views(g8@) =~~= seq![GrammarView::Optional { grammar: Box::new(GrammarView::Delimited { elements: seq![GrammarView::OneOf { elements: seq![GrammarView::Ref { name: "DatatypeIdentifierSegment"@, optional: false }, GrammarView::Ref { name: "NumericLiteralSegment"@, optional: false }], terminators: seq![] }], allow_trailing: false, delimiter: None, terminators: seq![], allow_gaps: true }) }]);
    let g9 = Grammar::bracketed_with(g8, "round");
    g9
}

/// The ClickHouse element `ArrayJoinClauseSegment`.
pub open spec fn array_join_clause_segment_element() -> ElementView {
    ElementView::Node { kind: "array_join_clause"@, grammar: GrammarView::Sequence { elements: seq![GrammarView::Optional { grammar: Box::new(GrammarView::Keyword { word: "LEFT"@ }) }, GrammarView::Keyword { word: "ARRAY"@ }, GrammarView::Ref { name: "JoinKeywordsGrammar"@, optional: false }, GrammarView::Indent, GrammarView::Delimited { elements: seq![GrammarView::Ref { name: "SelectClauseElementSegment"@, optional: false }], allow_trailing: false, delimiter: None, terminators: seq![], allow_gaps: true }, GrammarView::Dedent], terminators: seq![], parse_mode: ParseMode::Strict } }
}

fn build_array_join_clause_segment() -> (e: Element)
    ensures
        e@ =~~= array_join_clause_segment_element(),
{
    let g1 = Grammar::keyword("LEFT").optional();
    let g2: Vec<Grammar> = vec![Grammar::reference("SelectClauseElementSegment")];
    assert(views(g2@) =~~= seq![GrammarView::Ref { name: "SelectClauseElementSegment"@, optional: false }]);
    let g3: Vec<Grammar> = Vec::new();
    assert(views(g3@) =~= Seq::<GrammarView>::empty());
    let g4 = Grammar::delimited_with(g2, false, None, g3, true);
    let g5: Vec<Grammar> = vec![g1, Grammar::keyword("ARRAY"), Grammar::reference("JoinKeywordsGrammar"), Grammar::indent(), g4, Grammar::dedent()];
    assert(views(g5@) =~~= seq![GrammarView::Optional { grammar: Box::new(GrammarView::Keyword { word: "LEFT"@ }) }, GrammarView::Keyword { word: "ARRAY"@ }, GrammarView::Ref { name: "JoinKeywordsGrammar"@, optional: false }, GrammarView::Indent, GrammarView::Delimited { elements: seq![GrammarView::Ref { name: "SelectClauseElementSegment"@, optional: false }], allow_trailing: false, delimiter: None, terminators: seq![], allow_gaps: true }, GrammarView::Dedent]);
    let g6: Vec<Grammar> = Vec::new();
    assert(views(g6@) =~= Seq::<GrammarView>::empty());
    let g7 = Grammar::sequence_with(g5, g6, ParseMode::Strict);
    Element::Node { kind: "array_join_clause", grammar: g7 }
}

/// The ClickHouse grammar of `CTEDefinitionSegment`.
pub open spec fn c_t_e_definition_segment_grammar() -> GrammarView {
    GrammarView::OneOf { elements: seq![GrammarView::Sequence { elements: seq![GrammarView::Ref { name: "SingleIdentifierGrammar"@, optional: false }, GrammarView::Ref { name: "CTEColumnList"@, optional: true }, GrammarView::Keyword { word: "AS"@ }, GrammarView::InMode { grammar: Box::new(GrammarView::Bracketed { elements: seq![GrammarView::Ref { name: "SelectableGrammar"@, optional: false }], bracket_type: "round"@ }), parse_mode: ParseMode::Greedy }], terminators: seq![], parse_mode: ParseMode::Strict }, GrammarView::Sequence { elements: seq![GrammarView::Ref { name: "ExpressionSegment"@, optional: false }, GrammarView::Keyword { word: "AS"@ }, GrammarView::Ref { name: "SingleIdentifierGrammar"@, optional: false }], terminators: seq![], parse_mode: ParseMode::Strict }], terminators: seq![] }
}

fn build_c_t_e_definition_segment() -> (g: Grammar)
    ensures
        g@ =~~= c_t_e_definition_segment_grammar(),
{
    let g1: Vec<Grammar> = vec![Grammar::reference("SelectableGrammar")];
    assert(views(g1@) =~~= seq![GrammarView::Ref { name: "SelectableGrammar"@, optional: false }]);
    let g2 = Grammar::bracketed_with(g1, "round");
    let g3 = g2.in_mode(ParseMode::Greedy);
    let g4: Vec<Grammar> = vec![Grammar::reference("SingleIdentifierGrammar"), Grammar::optional_reference("CTEColumnList"), Grammar::keyword("AS"), g3];
    assert(views(g4@) =~~= seq![GrammarView::Ref { name: "SingleIdentifierGrammar"@, optional: false }, GrammarView::Ref { name: "CTEColumnList"@, optional: true }, GrammarView::Keyword { word: "AS"@ }, GrammarView::InMode { grammar: Box::new(GrammarView::Bracketed { elements: seq![GrammarView::Ref { name: "SelectableGrammar"@, optional: false }], bracket_type: "round"@ }), parse_mode: ParseMode::Greedy }]);
    let g5: Vec<Grammar> = Vec::new();
    assert(views(g5@) =~= Seq::<GrammarView>::empty());
    let g6 = Grammar::sequence_with(g4, g5, ParseMode::Strict);
    let g7: Vec<Grammar> = vec![Grammar::reference("ExpressionSegment"), Grammar::keyword("AS"), Grammar::reference("SingleIdentifierGrammar")];
    assert(views(g7@) =~~= seq![GrammarView::Ref { name: "ExpressionSegment"@, optional: false }, GrammarView::Keyword { word: "AS"@ }, GrammarView::Ref { name: "SingleIdentifierGrammar"@, optional: false }]);
    let g8: Vec<Grammar> = Vec::new();
    assert(views(g8@) =~= Seq::<GrammarView>::empty());
    let g9 = Grammar::sequence_with(g7, g8, ParseMode::Strict);
    let g10: Vec<Grammar> = vec![g6, g9];
    assert(views(g10@) =~~= seq![GrammarView::Sequence { elements: seq![GrammarView::Ref { name: "SingleIdentifierGrammar"@, optional: false }, GrammarView::Ref { name: "CTEColumnList"@, optional: true }, GrammarView::Keyword { word: "AS"@ }, GrammarView::InMode { grammar: Box::new(GrammarView::Bracketed { elements: seq![GrammarView::Ref { name: "SelectableGrammar"@, optional: false }], bracket_type: "round"@ }), parse_mode: ParseMode::Greedy }], terminators: seq![], parse_mode: ParseMode::Strict }, GrammarView::Sequence { elements: seq![GrammarView::Ref { name: "ExpressionSegment"@, optional: false }, GrammarView::Keyword { word: "AS"@ }, GrammarView::Ref { name: "SingleIdentifierGrammar"@, optional: false }], terminators: seq![], parse_mode: ParseMode::Strict }]);
    let g11: Vec<Grammar> = Vec::new();
    assert(views(g11@) =~= Seq::<GrammarView>::empty());
    let g12 = Grammar::one_of_with(g10, g11);
    g12
}

/// The ClickHouse element `TableEngineFunctionSegment`.
pub open spec fn table_engine_function_segment_element() -> ElementView {
    ElementView::Node { kind: "table_engine_function"@, grammar: GrammarView::Sequence { elements: seq![GrammarView::Exclude { grammar: Box::new(GrammarView::Ref { name: "FunctionNameSegment"@, optional: false }), exclude: Box::new(GrammarView::OneOf { elements: seq![GrammarView::Ref { name: "DatePartFunctionNameSegment"@, optional: false }, GrammarView::Ref { name: "ValuesClauseSegment"@, optional: false }], terminators: seq![] }) }, GrammarView::Optional { grammar: Box::new(GrammarView::InMode { grammar: Box::new(GrammarView::Bracketed { elements: seq![GrammarView::Ref { name: "FunctionContentsGrammar"@, optional: true }], bracket_type: "round"@ }), parse_mode: ParseMode::Greedy }) }], terminators: seq![], parse_mode: ParseMode::Strict } }
}

fn build_table_engine_function_segment() -> (e: Element)
    ensures
        e@ =~~= table_engine_function_segment_element(),
{
    let g1: Vec<Grammar> = vec![Grammar::reference("DatePartFunctionNameSegment"), Grammar::reference("ValuesClauseSegment")];
    assert(views(g1@) =~~= seq![GrammarView::Ref { name: "DatePartFunctionNameSegment"@, optional: false }, GrammarView::Ref { name: "ValuesClauseSegment"@, optional: false }]);
    let g2: Vec<Grammar> = Vec::new();
    assert(views(g2@) =~= Seq::<GrammarView>::empty());
    let g3 = Grammar::one_of_with(g1, g2);
    let g4 = Grammar::reference("FunctionNameSegment").exclude(g3);
    let g5: Vec<Grammar> = vec![Grammar::optional_reference("FunctionContentsGrammar")];
    assert(views(g5@) =~~= seq![GrammarView::Ref { name: "FunctionContentsGrammar"@, optional: true }]);
    let g6 = Grammar::bracketed_with(g5, "round");
    let g7 = g6.in_mode(ParseMode::Greedy);
    let g8 = g7.optional();
    let g9: Vec<Grammar> = vec![g4, g8];
    assert(views(g9@) =~~= seq![GrammarView::Exclude { grammar: Box::new(GrammarView::Ref { name: "FunctionNameSegment"@, optional: false }), exclude: Box::new(GrammarView::OneOf { elements: seq![GrammarView::Ref { name: "DatePartFunctionNameSegment"@, optional: false }, GrammarView::Ref { name: "ValuesClauseSegment"@, optional: false }], terminators: seq![] }) }, GrammarView::Optional { grammar: Box::new(GrammarView::InMode { grammar: Box::new(GrammarView::Bracketed { elements: seq![GrammarView::Ref { name: "FunctionContentsGrammar"@, optional: true }], bracket_type: "round"@ }), parse_mode: ParseMode::Greedy }) }]);
    let g10: Vec<Grammar> = Vec::new();
    assert(views(g10@) =~= Seq::<GrammarView>::empty());
    let g11 = Grammar::sequence_with(g9, g10, ParseMode::Strict);
    Element::Node { kind: "table_engine_function", grammar: g11 }
}

/// The ClickHouse element `OnClusterClauseSegment`.
pub open spec fn on_cluster_clause_segment_element() -> ElementView {
    ElementView::Node { kind: "on_cluster_clause"@, grammar: GrammarView::Sequence { elements: seq![GrammarView::Keyword { word: "ON"@ }, GrammarView::Keyword { word: "CLUSTER"@ }, GrammarView::OneOf { elements: seq![GrammarView::Ref { name: "SingleIdentifierGrammar"@, optional: false }, GrammarView::Ref { name: "QuotedLiteralSegment"@, optional: false }], terminators: seq![] }], terminators: seq![], parse_mode: ParseMode::Strict } }
}

fn build_on_cluster_clause_segment() -> (e: Element)
    ensures
        e@ =~~= on_cluster_clause_segment_element(),
{
    let g1: Vec<Grammar> = vec![Grammar::reference("SingleIdentifierGrammar"), Grammar::reference("QuotedLiteralSegment")];
    assert(views(g1@) =~~= seq![GrammarView::Ref { name: "SingleIdentifierGrammar"@, optional: false }, GrammarView::Ref { name: "QuotedLiteralSegment"@, optional: false }]);
    let g2: Vec<Grammar> = Vec::new();
    assert(views(g2@) =~= Seq::<GrammarView>::empty());
    let g3 = Grammar::one_of_with(g1, g2);
    let g4: Vec<Grammar> = vec![Grammar::keyword("ON"), Grammar::keyword("CLUSTER"), g3];
    assert(views(g4@) =~~= seq![GrammarView::Keyword { word: "ON"@ }, GrammarView::Keyword { word: "CLUSTER"@ }, GrammarView::OneOf { elements: seq![GrammarView::Ref { name: "SingleIdentifierGrammar"@, optional: false }, GrammarView::Ref { name: "QuotedLiteralSegment"@, optional: false }], terminators: seq![] }]);
    let g5: Vec<Grammar> = Vec::new();
    assert(views(g5@) =~= Seq::<GrammarView>::empty());
    let g6 = Grammar::sequence_with(g4, g5, ParseMode::Strict);
    Element::Node { kind: "on_cluster_clause", grammar: g6 }
}

/// The ClickHouse element `TableEngineSegment`.
pub open spec fn table_engine_segment_element() -> ElementView {
    ElementView::Node { kind: "engine"@, grammar: GrammarView::Sequence { elements: seq![GrammarView::Keyword { word: "ENGINE"@ }, GrammarView::Ref { name: "EqualsSegment"@, optional: true }, GrammarView::Sequence { elements: seq![GrammarView::Ref { name: "TableEngineFunctionSegment"@, optional: false }, GrammarView::AnySetOf { elements: seq![GrammarView::Ref { name: "MergeTreesOrderByClauseSegment"@, optional: false }, GrammarView::Sequence { elements: seq![GrammarView::Keyword { word: "PARTITION"@ }, GrammarView::Keyword { word: "BY"@ }, GrammarView::Ref { name: "ExpressionSegment"@, optional: false }], terminators: seq![], parse_mode: ParseMode::Strict }, GrammarView::Sequence { elements: seq![GrammarView::Keyword { word: "PRIMARY"@ }, GrammarView::Keyword { word: "KEY"@ }, GrammarView::Ref { name: "ExpressionSegment"@, optional: false }], terminators: seq![], parse_mode: ParseMode::Strict }, GrammarView::Sequence { elements: seq![GrammarView::Keyword { word: "SAMPLE"@ }, GrammarView::Keyword { word: "BY"@ }, GrammarView::Ref { name: "ExpressionSegment"@, optional: false }], terminators: seq![], parse_mode: ParseMode::Strict }, GrammarView::Ref { name: "SettingsClauseSegment"@, optional: true }] }], terminators: seq![], parse_mode: ParseMode::Strict }], terminators: seq![], parse_mode: ParseMode::Strict } }
}

fn build_table_engine_segment() -> (e: Element)
    ensures
        e@ =~~= table_engine_segment_element(),
{
    let g1: Vec<Grammar> = vec![Grammar::keyword("PARTITION"), Grammar::keyword("BY"), Grammar::reference("ExpressionSegment")];
    assert(views(g1@) =~~= seq![GrammarView::Keyword { word: "PARTITION"@ }, GrammarView::Keyword { word: "BY"@ }, GrammarView::Ref { name: "ExpressionSegment"@, optional: false }]);
    let g2: Vec<Grammar> = Vec::new();
    assert(views(g2@) =~= Seq::<GrammarView>::empty());
    let g3 = Grammar::sequence_with(g1, g2, ParseMode::Strict);
    let g4: Vec<Grammar> = vec![Grammar::keyword("PRIMARY"), Grammar::keyword("KEY"), Grammar::reference("ExpressionSegment")];
    assert(views(g4@) =~~= seq![GrammarView::Keyword { word: "PRIMARY"@ }, GrammarView::Keyword { word: "KEY"@ }, GrammarView::Ref { name: "ExpressionSegment"@, optional: false }]);
    let g5: Vec<Grammar> = Vec::new();
    assert(views(g5@) =~= Seq::<GrammarView>::empty());
    let g6 = Grammar::sequence_with(g4, g5, ParseMode::Strict);
    let g7: Vec<Grammar> = vec![Grammar::keyword("SAMPLE"), Grammar::keyword("BY"), Grammar::reference("ExpressionSegment")];
    assert(views(g7@) =~~= seq![GrammarView::Keyword { word: "SAMPLE"@ }, GrammarView::Keyword { word: "BY"@ }, GrammarView::Ref { name: "ExpressionSegment"@, optional: false }]);
    let g8: Vec<Grammar> = Vec::new();
    assert(views(g8@) =~= Seq::<GrammarView>::empty());
    let g9 = Grammar::sequence_with(g7, g8, ParseMode::Strict);
    let g10: Vec<Grammar> = vec![Grammar::reference("MergeTreesOrderByClauseSegment"), g3, g6, g9, Grammar::optional_reference("SettingsClauseSegment")];
    assert(views(g10@) =~~= seq![GrammarView::Ref { name: "MergeTreesOrderByClauseSegment"@, optional: false }, GrammarView::Sequence { elements: seq![GrammarView::Keyword { word: "PARTITION"@ }, GrammarView::Keyword { word: "BY"@ }, GrammarView::Ref { name: "ExpressionSegment"@, optional: false }], terminators: seq![], parse_mode: ParseMode::Strict }, GrammarView::Sequence { elements: seq![GrammarView::Keyword { word: "PRIMARY"@ }, GrammarView::Keyword { word: "KEY"@ }, GrammarView::Ref { name: "ExpressionSegment"@, optional: false }], terminators: seq![], parse_mode: ParseMode::Strict }, GrammarView::Sequence { elements: seq![GrammarView::Keyword { word: "SAMPLE"@ }, GrammarView::Keyword { word: "BY"@ }, GrammarView::Ref { name: "ExpressionSegment"@, optional: false }], terminators: seq![], parse_mode: ParseMode::Strict }, GrammarView::Ref { name: "SettingsClauseSegment"@, optional: true }]);
    let g11 = Grammar::any_set_of(g10);
    let g12: Vec<Grammar> = vec![Grammar::reference("TableEngineFunctionSegment"), g11];
    assert(views(g12@) =~~= seq![GrammarView::Ref { name: "TableEngineFunctionSegment"@, optional: false }, GrammarView::AnySetOf { elements: seq![GrammarView::Ref { name: "MergeTreesOrderByClauseSegment"@, optional: false }, GrammarView::Sequence { elements: seq![GrammarView::Keyword { word: "PARTITION"@ }, GrammarView::Keyword { word: "BY"@ }, GrammarView::Ref { name: "ExpressionSegment"@, optional: false }], terminators: seq![], parse_mode: ParseMode::Strict }, GrammarView::Sequence { elements: seq![GrammarView::Keyword { word: "PRIMARY"@ }, GrammarView::Keyword { word: "KEY"@ }, GrammarView::Ref { name: "ExpressionSegment"@, optional: false }], terminators: seq![], parse_mode: ParseMode::Strict }, GrammarView::Sequence { elements: seq![GrammarView::Keyword { word: "SAMPLE"@ }, GrammarView::Keyword { word: "BY"@ }, GrammarView::Ref { name: "ExpressionSegment"@, optional: false }], terminators: seq![], parse_mode: ParseMode::Strict }, GrammarView::Ref { name: "SettingsClauseSegment"@, optional: true }] }]);
    let g13: Vec<Grammar> = Vec::new();
    assert(views(g13@) =~= Seq::<GrammarView>::empty());
    let g14 = Grammar::sequence_with(g12, g13, ParseMode::Strict);
    let g15: Vec<Grammar> = vec![Grammar::keyword("ENGINE"), Grammar::optional_reference("EqualsSegment"), g14];
    assert(views(g15@) =~~= seq![GrammarView::Keyword { word: "ENGINE"@ }, GrammarView::Ref { name: "EqualsSegment"@, optional: true }, GrammarView::Sequence { elements: seq![GrammarView::Ref { name: "TableEngineFunctionSegment"@, optional: false }, GrammarView::AnySetOf { elements: seq![GrammarView::Ref { name: "MergeTreesOrderByClauseSegment"@, optional: false }, GrammarView::Sequence { elements: seq![GrammarView::Keyword { word: "PARTITION"@ }, GrammarView::Keyword { word: "BY"@ }, GrammarView::Ref { name: "ExpressionSegment"@, optional: false }], terminators: seq![], parse_mode: ParseMode::Strict }, GrammarView::Sequence { elements: seq![GrammarView::Keyword { word: "PRIMARY"@ }, GrammarView::Keyword { word: "KEY"@ }, GrammarView::Ref { name: "ExpressionSegment"@, optional: false }], terminators: seq![], parse_mode: ParseMode::Strict }, GrammarView::Sequence { elements: seq![GrammarView::Keyword { word: "SAMPLE"@ }, GrammarView::Keyword { word: "BY"@ }, GrammarView::Ref { name: "ExpressionSegment"@, optional: false }], terminators: seq![], parse_mode: ParseMode::Strict }, GrammarView::Ref { name: "SettingsClauseSegment"@, optional: true }] }], terminators: seq![], parse_mode: ParseMode::Strict }]);
    let g16: Vec<Grammar> = Vec::new();
    assert(views(g16@) =~= Seq::<GrammarView>::empty());
    let g17 = Grammar::sequence_with(g15, g16, ParseMode::Strict);
    Element::Node { kind: "engine", grammar: g17 }
}

/// The ClickHouse element `DatabaseEngineFunctionSegment`.
pub open spec fn database_engine_function_segment_element() -> ElementView {
    ElementView::Node { kind: "engine_function"@, grammar: GrammarView::Sequence { elements: seq![GrammarView::OneOf { elements: seq![GrammarView::Keyword { word: "ATOMIC"@ }, GrammarView::Keyword { word: "MYSQL"@ }, GrammarView::Keyword { word: "MATERIALIZEDMYSQL"@ }, GrammarView::Keyword { word: "LAZY"@ }, GrammarView::Keyword { word: "POSTGRESQL"@ }, GrammarView::Keyword { word: "MATERIALIZEDPOSTGRESQL"@ }, GrammarView::Keyword { word: "REPLICATED"@ }, GrammarView::Keyword { word: "SQLITE"@ }], terminators: seq![] }, GrammarView::Optional { grammar: Box::new(GrammarView::InMode { grammar: Box::new(GrammarView::Bracketed { elements: seq![GrammarView::Ref { name: "FunctionContentsGrammar"@, optional: true }], bracket_type: "round"@ }), parse_mode: ParseMode::Greedy }) }], terminators: seq![], parse_mode: ParseMode::Strict } }
}

fn build_database_engine_function_segment() -> (e: Element)
    ensures
        e@ =~~= database_engine_function_segment_element(),
{
    let g1: Vec<Grammar> = vec![Grammar::keyword("ATOMIC"), Grammar::keyword("MYSQL"), Grammar::keyword("MATERIALIZEDMYSQL"), Grammar::keyword("LAZY"), Grammar::keyword("POSTGRESQL"), Grammar::keyword("MATERIALIZEDPOSTGRESQL"), Grammar::keyword("REPLICATED"), Grammar::keyword("SQLITE")];
    assert(views(g1@) =~~= seq![GrammarView::Keyword { word: "ATOMIC"@ }, GrammarView::Keyword { word: "MYSQL"@ }, GrammarView::Keyword { word: "MATERIALIZEDMYSQL"@ }, GrammarView::Keyword { word: "LAZY"@ }, GrammarView::Keyword { word: "POSTGRESQL"@ }, GrammarView::Keyword { word: "MATERIALIZEDPOSTGRESQL"@ }, GrammarView::Keyword { word: "REPLICATED"@ }, GrammarView::Keyword { word: "SQLITE"@ }]);
    let g2: Vec<Grammar> = Vec::new();
    assert(views(g2@) =~= Seq::<GrammarView>::empty());
    let g3 = Grammar::one_of_with(g1, g2);
    let g4: Vec<Grammar> = vec![Grammar::optional_reference("FunctionContentsGrammar")];
    assert(views(g4@) =~~= seq![GrammarView::Ref { name: "FunctionContentsGrammar"@, optional: true }]);
    let g5 = Grammar::bracketed_with(g4, "round");
    let g6 = g5.in_mode(ParseMode::Greedy);
    let g7 = g6.optional();
    let g8: Vec<Grammar> = vec![g3, g7];
    assert(views(g8@) =~~= seq![GrammarView::OneOf { elements: seq![GrammarView::Keyword { word: "ATOMIC"@ }, GrammarView::Keyword { word: "MYSQL"@ }, GrammarView::Keyword { word: "MATERIALIZEDMYSQL"@ }, GrammarView::Keyword { word: "LAZY"@ }, GrammarView::Keyword { word: "POSTGRESQL"@ }, GrammarView::Keyword { word: "MATERIALIZEDPOSTGRESQL"@ }, GrammarView::Keyword { word: "REPLICATED"@ }, GrammarView::Keyword { word: "SQLITE"@ }], terminators: seq![] }, GrammarView::Optional { grammar: Box::new(GrammarView::InMode { grammar: Box::new(GrammarView::Bracketed { elements: seq![GrammarView::Ref { name: "FunctionContentsGrammar"@, optional: true }], bracket_type: "round"@ }), parse_mode: ParseMode::Greedy }) }]);
    let g9: Vec<Grammar> = Vec::new();
    assert(views(g9@) =~= Seq::<GrammarView>::empty());
    let g10 = Grammar::sequence_with(g8, g9, ParseMode::Strict);
    Element::Node { kind: "engine_function", grammar: g10 }
}

/// The ClickHouse element `DatabaseEngineSegment`.
pub open spec fn database_engine_segment_element() -> ElementView {
    ElementView::Node { kind: "database_engine"@, grammar: GrammarView::Sequence { elements: seq![GrammarView::Keyword { word: "ENGINE"@ }, GrammarView::Ref { name: "EqualsSegment"@, optional: false }, GrammarView::Sequence { elements: seq![GrammarView::Ref { name: "DatabaseEngineFunctionSegment"@, optional: false }, GrammarView::AnySetOf { elements: seq![GrammarView::Ref { name: "MergeTreesOrderByClauseSegment"@, optional: false }, GrammarView::Optional { grammar: Box::new(GrammarView::Sequence { elements: seq![GrammarView::Keyword { word: "PARTITION"@ }, GrammarView::Keyword { word: "BY"@ }, GrammarView::Ref { name: "ExpressionSegment"@, optional: false }], terminators: seq![], parse_mode: ParseMode::Strict }) }, GrammarView::Optional { grammar: Box::new(GrammarView::Sequence { elements: seq![GrammarView::Keyword { word: "PRIMARY"@ }, GrammarView::Keyword { word: "KEY"@ }, GrammarView::Ref { name: "ExpressionSegment"@, optional: false }], terminators: seq![], parse_mode: ParseMode::Strict }) }, GrammarView::Optional { grammar: Box::new(GrammarView::Sequence { elements: seq![GrammarView::Keyword { word: "SAMPLE"@ }, GrammarView::Keyword { word: "BY"@ }, GrammarView::Ref { name: "ExpressionSegment"@, optional: false }], terminators: seq![], parse_mode: ParseMode::Strict }) }, GrammarView::Ref { name: "SettingsClauseSegment"@, optional: true }] }], terminators: seq![], parse_mode: ParseMode::Strict }], terminators: seq![], parse_mode: ParseMode::Strict } }
}

fn build_database_engine_segment() -> (e: Element)
    ensures
        e@ =~~= database_engine_segment_element(),
{
    let g1: Vec<Grammar> = vec![Grammar::keyword("PARTITION"), Grammar::keyword("BY"), Grammar::reference("ExpressionSegment")];
    assert(views(g1@) =~~= seq![GrammarView::Keyword { word: "PARTITION"@ }, GrammarView::Keyword { word: "BY"@ }, GrammarView::Ref { name: "ExpressionSegment"@, optional: false }]);
    let g2: Vec<Grammar> = Vec::new();
    assert(views(g2@) =~= Seq::<GrammarView>::empty());
    let g3 = Grammar::sequence_with(g1, g2, ParseMode::Strict);
    let g4 = g3.optional();
    let g5: Vec<Grammar> = vec![Grammar::keyword("PRIMARY"), Grammar::keyword("KEY"), Grammar::reference("ExpressionSegment")];
    assert(views(g5@) =~~= seq![GrammarView::Keyword { word: "PRIMARY"@ }, GrammarView::Keyword { word: "KEY"@ }, GrammarView::Ref { name: "ExpressionSegment"@, optional: false }]);
    let g6: Vec<Grammar> = Vec::new();
    assert(views(g6@) =~= Seq::<GrammarView>::empty());
    let g7 = Grammar::sequence_with(g5, g6, ParseMode::Strict);
    let g8 = g7.optional();
    let g9: Vec<Grammar> = vec![Grammar::keyword("SAMPLE"), Grammar::keyword("BY"), Grammar::reference("ExpressionSegment")];
    assert(views(g9@) =~~= seq![GrammarView::Keyword { word: "SAMPLE"@ }, GrammarView::Keyword { word: "BY"@ }, GrammarView::Ref { name: "ExpressionSegment"@, optional: false }]);
    let g10: Vec<Grammar> = Vec::new();
    assert(views(g10@) =~= Seq::<GrammarView>::empty());
    let g11 = Grammar::sequence_with(g9, g10, ParseMode::Strict);
    let g12 = g11.optional();
    let g13: Vec<Grammar> = vec![Grammar::reference("MergeTreesOrderByClauseSegment"), g4, g8, g12, Grammar::optional_reference("SettingsClauseSegment")];
    assert(views(g13@) =~~= seq![GrammarView::Ref { name: "MergeTreesOrderByClauseSegment"@, optional: false }, GrammarView::Optional { grammar: Box::new(GrammarView::Sequence { elements: seq![GrammarView::Keyword { word: "PARTITION"@ }, GrammarView::Keyword { word: "BY"@ }, GrammarView::Ref { name: "ExpressionSegment"@, optional: false }], terminators: seq![], parse_mode: ParseMode::Strict }) }, GrammarView::Optional { grammar: Box::new(GrammarView::Sequence { elements: seq![GrammarView::Keyword { word: "PRIMARY"@ }, GrammarView::Keyword { word: "KEY"@ }, GrammarView::Ref { name: "ExpressionSegment"@, optional: false }], terminators: seq![], parse_mode: ParseMode::Strict }) }, GrammarView::Optional { grammar: Box::new(GrammarView::Sequence { elements: seq![GrammarView::Keyword { word: "SAMPLE"@ }, GrammarView::Keyword { word: "BY"@ }, GrammarView::Ref { name: "ExpressionSegment"@, optional: false }], terminators: seq![], parse_mode: ParseMode::Strict }) }, GrammarView::Ref { name: "SettingsClauseSegment"@, optional: true }]);
    let g14 = Grammar::any_set_of(g13);
    let g15: Vec<Grammar> = vec![Grammar::reference("DatabaseEngineFunctionSegment"), g14];
    assert(views(g15@) =~~= seq![GrammarView::Ref { name: "DatabaseEngineFunctionSegment"@, optional: false }, GrammarView::AnySetOf { elements: seq![GrammarView::Ref { name: "MergeTreesOrderByClauseSegment"@, optional: false }, GrammarView::Optional { grammar: Box::new(GrammarView::Sequence { elements: seq![GrammarView::Keyword { word: "PARTITION"@ }, GrammarView::Keyword { word: "BY"@ }, GrammarView::Ref { name: "ExpressionSegment"@, optional: false }], terminators: seq![], parse_mode: ParseMode::Strict }) }, GrammarView::Optional { grammar: Box::new(GrammarView::Sequence { elements: seq![GrammarView::Keyword { word: "PRIMARY"@ }, GrammarView::Keyword { word: "KEY"@ }, GrammarView::Ref { name: "ExpressionSegment"@, optional: false }], terminators: seq![], parse_mode: ParseMode::Strict }) }, GrammarView::Optional { grammar: Box::new(GrammarView::Sequence { elements: seq![GrammarView::Keyword { word: "SAMPLE"@ }, GrammarView::Keyword { word: "BY"@ }, GrammarView::Ref { name: "ExpressionSegment"@, optional: false }], terminators: seq![], parse_mode: ParseMode::Strict }) }, GrammarView::Ref { name: "SettingsClauseSegment"@, optional: true }] }]);
    let g16: Vec<Grammar> = Vec::new();
    assert(views(g16@) =~= Seq::<GrammarView>::empty());
    let g17 = Grammar::sequence_with(g15, g16, ParseMode::Strict);
    let g18: Vec<Grammar> = vec![Grammar::keyword("ENGINE"), Grammar::reference("EqualsSegment"), g17];
    assert(views(g18@) =~~= seq![GrammarView::Keyword { word: "ENGINE"@ }, GrammarView::Ref { name: "EqualsSegment"@, optional: false }, GrammarView::Sequence { elements: seq![GrammarView::Ref { name: "DatabaseEngineFunctionSegment"@, optional: false }, GrammarView::AnySetOf { elements: seq![GrammarView::Ref { name: "MergeTreesOrderByClauseSegment"@, optional: false }, GrammarView::Optional { grammar: Box::new(GrammarView::Sequence { elements: seq![GrammarView::Keyword { word: "PARTITION"@ }, GrammarView::Keyword { word: "BY"@ }, GrammarView::Ref { name: "ExpressionSegment"@, optional: false }], terminators: seq![], parse_mode: ParseMode::Strict }) }, GrammarView::Optional { grammar: Box::new(GrammarView::Sequence { elements: seq![GrammarView::Keyword { word: "PRIMARY"@ }, GrammarView::Keyword { word: "KEY"@ }, GrammarView::Ref { name: "ExpressionSegment"@, optional: false }], terminators: seq![], parse_mode: ParseMode::Strict }) }, GrammarView::Optional { grammar: Box::new(GrammarView::Sequence { elements: seq![GrammarView::Keyword { word: "SAMPLE"@ }, GrammarView::Keyword { word: "BY"@ }, GrammarView::Ref { name: "ExpressionSegment"@, optional: false }], terminators: seq![], parse_mode: ParseMode::Strict }) }, GrammarView::Ref { name: "SettingsClauseSegment"@, optional: true }] }], terminators: seq![], parse_mode: ParseMode::Strict }]);
    let g19: Vec<Grammar> = Vec::new();
    assert(views(g19@) =~= Seq::<GrammarView>::empty());
    let g20 = Grammar::sequence_with(g18, g19, ParseMode::Strict);
    Element::Node { kind: "database_engine", grammar: g20 }
}

/// The ClickHouse element `ColumnTTLSegment`.
pub open spec fn column_t_t_l_segment_element() -> ElementView {
    ElementView::Node { kind: "column_ttl_segment"@, grammar: GrammarView::Sequence { elements: seq![GrammarView::Keyword { word: "TTL"@ }, GrammarView::Ref { name: "ExpressionSegment"@, optional: false }], terminators: seq![], parse_mode: ParseMode::Strict } }
}

fn build_column_t_t_l_segment() -> (e: Element)
    ensures
        e@ =~~= column_t_t_l_segment_element(),
{
    let g1: Vec<Grammar> = vec![Grammar::keyword("TTL"), Grammar::reference("ExpressionSegment")];
    assert(views(g1@) =~~= seq![GrammarView::Keyword { word: "TTL"@ }, GrammarView::Ref { name: "ExpressionSegment"@, optional: false }]);
    let g2: Vec<Grammar> = Vec::new();
    assert(views(g2@) =~= Seq::<GrammarView>::empty());
    let g3 = Grammar::sequence_with(g1, g2, ParseMode::Strict);
    Element::Node { kind: "column_ttl_segment", grammar: g3 }
}

/// The ClickHouse element `TableTTLSegment`.
pub open spec fn table_t_t_l_segment_element() -> ElementView {
    ElementView::Node { kind: "table_ttl_segment"@, grammar: GrammarView::Sequence { elements: seq![GrammarView::Keyword { word: "TTL"@ }, GrammarView::Delimited { elements: seq![GrammarView::Sequence { elements: seq![GrammarView::Ref { name: "ExpressionSegment"@, optional: false }, GrammarView::Optional { grammar: Box::new(GrammarView::OneOf { elements: seq![GrammarView::Keyword { word: "DELETE"@ }, GrammarView::Sequence { elements: seq![GrammarView::Keyword { word: "TO"@ }, GrammarView::Keyword { word: "VOLUME"@ }, GrammarView::Ref { name: "QuotedLiteralSegment"@, optional: false }], terminators: seq![], parse_mode: ParseMode::Strict }, GrammarView::Sequence { elements: seq![GrammarView::Keyword { word: "TO"@ }, GrammarView::Keyword { word: "DISK"@ }, GrammarView::Ref { name: "QuotedLiteralSegment"@, optional: false }], terminators: seq![], parse_mode: ParseMode::Strict }], terminators: seq![] }) }, GrammarView::Ref { name: "WhereClauseSegment"@, optional: true }, GrammarView::Ref { name: "GroupByClauseSegment"@, optional: true }], terminators: seq![], parse_mode: ParseMode::Strict }], allow_trailing: false, delimiter: None, terminators: seq![], allow_gaps: true }], terminators: seq![], parse_mode: ParseMode::Strict } }
}

fn build_table_t_t_l_segment() -> (e: Element)
    ensures
        e@ =~~= table_t_t_l_segment_element(),
{
    let g1: Vec<Grammar> = vec![Grammar::keyword("TO"), Grammar::keyword("VOLUME"), Grammar::reference("QuotedLiteralSegment")];
    assert(views(g1@) =~~= seq![GrammarView::Keyword { word: "TO"@ }, GrammarView::Keyword { word: "VOLUME"@ }, GrammarView::Ref { name: "QuotedLiteralSegment"@, optional: false }]);
    let g2: Vec<Grammar> = Vec::new();
    assert(views(g2@) =~= Seq::<GrammarView>::empty());
    let g3 = Grammar::sequence_with(g1, g2, ParseMode::Strict);
    let g4: Vec<Grammar> = vec![Grammar::keyword("TO"), Grammar::keyword("DISK"), Grammar::reference("QuotedLiteralSegment")];
    assert(views(g4@) =~~= seq![GrammarView::Keyword { word: "TO"@ }, GrammarView::Keyword { word: "DISK"@ }, GrammarView::Ref { name: "QuotedLiteralSegment"@, optional: false }]);
    let g5: Vec<Grammar> = Vec::new();
    assert(views(g5@) =~= Seq::<GrammarView>::empty());
    let g6 = Grammar::sequence_with(g4, g5, ParseMode::Strict);
    let g7: Vec<Grammar> = vec![Grammar::keyword("DELETE"), g3, g6];
    assert(views(g7@) =~~= seq![GrammarView::Keyword { word: "DELETE"@ }, GrammarView::Sequence { elements: seq![GrammarView::Keyword { word: "TO"@ }, GrammarView::Keyword { word: "VOLUME"@ }, GrammarView::Ref { name: "QuotedLiteralSegment"@, optional: false }], terminators: seq![], parse_mode: ParseMode::Strict }, GrammarView::Sequence { elements: seq![GrammarView::Keyword { word: "TO"@ }, GrammarView::Keyword { word: "DISK"@ }, GrammarView::Ref { name: "QuotedLiteralSegment"@, optional: false }], terminators: seq![], parse_mode: ParseMode::Strict }]);
    let g8: Vec<Grammar> = Vec::new();
    assert(views(g8@) =~= Seq::<GrammarView>::empty());
    let g9 = Grammar::one_of_with(g7, g8);
    let g10 = g9.optional();
    let g11: Vec<Grammar> = vec![Grammar::reference("ExpressionSegment"), g10, Grammar::optional_reference("WhereClauseSegment"), Grammar::optional_reference("GroupByClauseSegment")];
    assert(views(g11@) =~~= seq![GrammarView::Ref { name: "ExpressionSegment"@, optional: false }, GrammarView::Optional { grammar: Box::new(GrammarView::OneOf { elements: seq![GrammarView::Keyword { word: "DELETE"@ }, GrammarView::Sequence { elements: seq![GrammarView::Keyword { word: "TO"@ }, GrammarView::Keyword { word: "VOLUME"@ }, GrammarView::Ref { name: "QuotedLiteralSegment"@, optional: false }], terminators: seq![], parse_mode: ParseMode::Strict }, GrammarView::Sequence { elements: seq![GrammarView::Keyword { word: "TO"@ }, GrammarView::Keyword { word: "DISK"@ }, GrammarView::Ref { name: "QuotedLiteralSegment"@, optional: false }], terminators: seq![], parse_mode: ParseMode::Strict }], terminators: seq![] }) }, GrammarView::Ref { name: "WhereClauseSegment"@, optional: true }, GrammarView::Ref { name: "GroupByClauseSegment"@, optional: true }]);
    let g12: Vec<Grammar> = Vec::new();
    assert(views(g12@) =~= Seq::<GrammarView>::empty());
    let g13 = Grammar::sequence_with(g11, g12, ParseMode::Strict);
    let g14: Vec<Grammar> = vec![g13];
    assert(views(g14@) =~~= seq![GrammarView::Sequence { elements: seq![GrammarView::Ref { name: "ExpressionSegment"@, optional: false }, GrammarView::Optional { grammar: Box::new(GrammarView::OneOf { elements: seq![GrammarView::Keyword { word: "DELETE"@ }, GrammarView::Sequence { elements: seq![GrammarView::Keyword { word: "TO"@ }, GrammarView::Keyword { word: "VOLUME"@ }, GrammarView::Ref { name: "QuotedLiteralSegment"@, optional: false }], terminators: seq![], parse_mode: ParseMode::Strict }, GrammarView::Sequence { elements: seq![GrammarView::Keyword { word: "TO"@ }, GrammarView::Keyword { word: "DISK"@ }, GrammarView::Ref { name: "QuotedLiteralSegment"@, optional: false }], terminators: seq![], parse_mode: ParseMode::Strict }], terminators: seq![] }) }, GrammarView::Ref { name: "WhereClauseSegment"@, optional: true }, GrammarView::Ref { name: "GroupByClauseSegment"@, optional: true }], terminators: seq![], parse_mode: ParseMode::Strict }]);
    let g15: Vec<Grammar> = Vec::new();
    assert(views(g15@) =~= Seq::<GrammarView>::empty());
    let g16 = Grammar::delimited_with(g14, false, None, g15, true);
    let g17: Vec<Grammar> = vec![Grammar::keyword("TTL"), g16];
    assert(views(g17@) =~~= seq![GrammarView::Keyword { word: "TTL"@ }, GrammarView::Delimited { elements: seq![GrammarView::Sequence { elements: seq![GrammarView::Ref { name: "ExpressionSegment"@, optional: false }, GrammarView::Optional { grammar: Box::new(GrammarView::OneOf { elements: seq![GrammarView::Keyword { word: "DELETE"@ }, GrammarView::Sequence { elements: seq![GrammarView::Keyword { word: "TO"@ }, GrammarView::Keyword { word: "VOLUME"@ }, GrammarView::Ref { name: "QuotedLiteralSegment"@, optional: false }], terminators: seq![], parse_mode: ParseMode::Strict }, GrammarView::Sequence { elements: seq![GrammarView::Keyword { word: "TO"@ }, GrammarView::Keyword { word: "DISK"@ }, GrammarView::Ref { name: "QuotedLiteralSegment"@, optional: false }], terminators: seq![], parse_mode: ParseMode::Strict }], terminators: seq![] }) }, GrammarView::Ref { name: "WhereClauseSegment"@, optional: true }, GrammarView::Ref { name: "GroupByClauseSegment"@, optional: true }], terminators: seq![], parse_mode: ParseMode::Strict }], allow_trailing: false, delimiter: None, terminators: seq![], allow_gaps: true }]);
    let g18: Vec<Grammar> = Vec::new();
    assert(views(g18@) =~= Seq::<GrammarView>::empty());
    let g19 = Grammar::sequence_with(g17, g18, ParseMode::Strict);
    Element::Node { kind: "table_ttl_segment", grammar: g19 }
}

/// The ClickHouse element `ColumnConstraintSegment`.
pub open spec fn column_constraint_segment_element() -> ElementView {
    ElementView::Node { kind: "column_constraint_segment"@, grammar: GrammarView::AnySetOf { elements: seq![GrammarView::Sequence { elements: seq![GrammarView::Optional { grammar: Box::new(GrammarView::Sequence { elements: seq![GrammarView::Keyword { word: "CONSTRAINT"@ }, GrammarView::Ref { name: "ObjectReferenceSegment"@, optional: false }], terminators: seq![], parse_mode: ParseMode::Strict }) }, GrammarView::OneOf { elements: seq![GrammarView::Sequence { elements: seq![GrammarView::Optional { grammar: Box::new(GrammarView::Keyword { word: "NOT"@ }) }, GrammarView::Keyword { word: "NULL"@ }], terminators: seq![], parse_mode: ParseMode::Strict }, GrammarView::Sequence { elements: seq![GrammarView::Keyword { word: "CHECK"@ }, GrammarView::Bracketed { elements: seq![GrammarView::Ref { name: "ExpressionSegment"@, optional: false }], bracket_type: "round"@ }], terminators: seq![], parse_mode: ParseMode::Strict }, GrammarView::Sequence { elements: seq![GrammarView::OneOf { elements: seq![GrammarView::Keyword { word: "DEFAULT"@ }, GrammarView::Keyword { word: "MATERIALIZED"@ }, GrammarView::Keyword { word: "ALIAS"@ }], terminators: seq![] }, GrammarView::OneOf { elements: seq![GrammarView::Ref { name: "LiteralGrammar"@, optional: false }, GrammarView::Ref { name: "FunctionSegment"@, optional: false }, GrammarView::Ref { name: "BareFunctionSegment"@, optional: false }], terminators: seq![] }], terminators: seq![], parse_mode: ParseMode::Strict }, GrammarView::Sequence { elements: seq![GrammarView::Keyword { word: "EPHEMERAL"@ }, GrammarView::Optional { grammar: Box::new(GrammarView::OneOf { elements: seq![GrammarView::Ref { name: "LiteralGrammar"@, optional: false }, GrammarView::Ref { name: "FunctionSegment"@, optional: false }, GrammarView::Ref { name: "BareFunctionSegment"@, optional: false }], terminators: seq![] }) }], terminators: seq![], parse_mode: ParseMode::Strict }, GrammarView::Ref { name: "PrimaryKeyGrammar"@, optional: false }, GrammarView::Optional { grammar: Box::new(GrammarView::Sequence { elements: seq![GrammarView::Keyword { word: "CODEC"@ }, GrammarView::Ref { name: "FunctionContentsGrammar"@, optional: false }], terminators: seq![], parse_mode: ParseMode::Strict }) }, GrammarView::Ref { name: "ColumnTTLSegment"@, optional: false }], terminators: seq![] }], terminators: seq![], parse_mode: ParseMode::Strict }] } }
}

#[verifier::rlimit(100)]
fn build_column_constraint_segment() -> (e: Element)
    ensures
        e@ =~~= column_constraint_segment_element(),
{
    let g1: Vec<Grammar> = vec![Grammar::keyword("CONSTRAINT"), Grammar::reference("ObjectReferenceSegment")];
    assert(views(g1@) =~~= seq![GrammarView::Keyword { word: "CONSTRAINT"@ }, GrammarView::Ref { name: "ObjectReferenceSegment"@, optional: false }]);
    let g2: Vec<Grammar> = Vec::new();
    assert(views(g2@) =~= Seq::<GrammarView>::empty());
    let g3 = Grammar::sequence_with(g1, g2, ParseMode::Strict);
    let g4 = g3.optional();
    let g5 = Grammar::keyword("NOT").optional();
    let g6: Vec<Grammar> = vec![g5, Grammar::keyword("NULL")];
    assert(views(g6@) =~~= seq![GrammarView::Optional { grammar: Box::new(GrammarView::Keyword { word: "NOT"@ }) }, GrammarView::Keyword { word: "NULL"@ }]);
    let g7: Vec<Grammar> = Vec::new();
    assert(views(g7@) =~= Seq::<GrammarView>::empty());
    let g8 = Grammar::sequence_with(g6, g7, ParseMode::Strict);
    let g9: Vec<Grammar> = vec![Grammar::reference("ExpressionSegment")];
    assert(views(g9@) =~~= seq![GrammarView::Ref { name: "ExpressionSegment"@, optional: false }]);
    let g10 = Grammar::bracketed_with(g9, "round");
    let g11: Vec<Grammar> = vec![Grammar::keyword("CHECK"), g10];
    assert(views(g11@) =~~= seq![GrammarView::Keyword { word: "CHECK"@ }, GrammarView::Bracketed { elements: seq![GrammarView::Ref { name: "ExpressionSegment"@, optional: false }], bracket_type: "round"@ }]);
    let g12: Vec<Grammar> = Vec::new();
    assert(views(g12@) =~= Seq::<GrammarView>::empty());
    let g13 = Grammar::sequence_with(g11, g12, ParseMode::Strict);
    let g14: Vec<Grammar> = vec![Grammar::keyword("DEFAULT"), Grammar::keyword("MATERIALIZED"), Grammar::keyword("ALIAS")];
    assert(views(g14@) =~~= seq![GrammarView::Keyword { word: "DEFAULT"@ }, GrammarView::Keyword { word: "MATERIALIZED"@ }, GrammarView::Keyword { word: "ALIAS"@ }]);
    let g15: Vec<Grammar> = Vec::new();
    assert(views(g15@) =~= Seq::<GrammarView>::empty());
    let g16 = Grammar::one_of_with(g14, g15);
    let g17: Vec<Grammar> = vec![Grammar::reference("LiteralGrammar"), Grammar::reference("FunctionSegment"), Grammar::reference("BareFunctionSegment")];
    assert(views(g17@) =~~= seq![GrammarView::Ref { name: "LiteralGrammar"@, optional: false }, GrammarView::Ref { name: "FunctionSegment"@, optional: false }, GrammarView::Ref { name: "BareFunctionSegment"@, optional: false }]);
    let g18: Vec<Grammar> = Vec::new();
    assert(views(g18@) =~= Seq::<GrammarView>::empty());
    let g19 = Grammar::one_of_with(g17, g18);
    let g20: Vec<Grammar> = vec![g16, g19];
    assert(views(g20@) =~~= seq![GrammarView::OneOf { elements: seq![GrammarView::Keyword { word: "DEFAULT"@ }, GrammarView::Keyword { word: "MATERIALIZED"@ }, GrammarView::Keyword { word: "ALIAS"@ }], terminators: seq![] }, GrammarView::OneOf { elements: seq![GrammarView::Ref { name: "LiteralGrammar"@, optional: false }, GrammarView::Ref { name: "FunctionSegment"@, optional: false }, GrammarView::Ref { name: "BareFunctionSegment"@, optional: false }], terminators: seq![] }]);
    let g21: Vec<Grammar> = Vec::new();
    assert(views(g21@) =~= Seq::<GrammarView>::empty());
    let g22 = Grammar::sequence_with(g20, g21, ParseMode::Strict);
    let g23: Vec<Grammar> = vec![Grammar::reference("LiteralGrammar"), Grammar::reference("FunctionSegment"), Grammar::reference("BareFunctionSegment")];
    assert(views(g23@) =~~= seq![GrammarView::Ref { name: "LiteralGrammar"@, optional: false }, GrammarView::Ref { name: "FunctionSegment"@, optional: false }, GrammarView::Ref { name: "BareFunctionSegment"@, optional: false }]);
    let g24: Vec<Grammar> = Vec::new();
    assert(views(g24@) =~= Seq::<GrammarView>::empty());
    let g25 = Grammar::one_of_with(g23, g24);
    let g26 = g25.optional();
    let g27: Vec<Grammar> = vec![Grammar::keyword("EPHEMERAL"), g26];
    assert(views(g27@) =~~= seq![GrammarView::Keyword { word: "EPHEMERAL"@ }, GrammarView::Optional { grammar: Box::new(GrammarView::OneOf { elements: seq![GrammarView::Ref { name: "LiteralGrammar"@, optional: false }, GrammarView::Ref { name: "FunctionSegment"@, optional: false }, GrammarView::Ref { name: "BareFunctionSegment"@, optional: false }], terminators: seq![] }) }]);
    let g28: Vec<Grammar> = Vec::new();
    assert(views(g28@) =~= Seq::<GrammarView>::empty());
    let g29 = Grammar::sequence_with(g27, g28, ParseMode::Strict);
    let g30: Vec<Grammar> = vec![Grammar::keyword("CODEC"), Grammar::reference("FunctionContentsGrammar")];
    assert(views(g30@) =~~= seq![GrammarView::Keyword { word: "CODEC"@ }, GrammarView::Ref { name: "FunctionContentsGrammar"@, optional: false }]);
    let g31: Vec<Grammar> = Vec::new();
    assert(views(g31@) =~= Seq::<GrammarView>::empty());
    let g32 = Grammar::sequence_with(g30, g31, ParseMode::Strict);
    let g33 = g32.optional();
    let g34: Vec<Grammar> = vec![g8, g13, g22, g29, Grammar::reference("PrimaryKeyGrammar"), g33, Grammar::reference("ColumnTTLSegment")];
    assert(views(g34@) =~~= seq![GrammarView::Sequence { elements: seq![GrammarView::Optional { grammar: Box::new(GrammarView::Keyword { word: "NOT"@ }) }, GrammarView::Keyword { word: "NULL"@ }], terminators: seq![], parse_mode: ParseMode::Strict }, GrammarView::Sequence { elements: seq![GrammarView::Keyword { word: "CHECK"@ }, GrammarView::Bracketed { elements: seq![GrammarView::Ref { name: "ExpressionSegment"@, optional: false }], bracket_type: "round"@ }], terminators: seq![], parse_mode: ParseMode::Strict }, GrammarView::Sequence { elements: seq![GrammarView::OneOf { elements: seq![GrammarView::Keyword { word: "DEFAULT"@ }, GrammarView::Keyword { word: "MATERIALIZED"@ }, GrammarView::Keyword { word: "ALIAS"@ }], terminators: seq![] }, GrammarView::OneOf { elements: seq![GrammarView::Ref { name: "LiteralGrammar"@, optional: false }, GrammarView::Ref { name: "FunctionSegment"@, optional: false }, GrammarView::Ref { name: "BareFunctionSegment"@, optional: false }], terminators: seq![] }], terminators: seq![], parse_mode: ParseMode::Strict }, GrammarView::Sequence { elements: seq![GrammarView::Keyword { word: "EPHEMERAL"@ }, GrammarView::Optional { grammar: Box::new(GrammarView::OneOf { elements: seq![GrammarView::Ref { name: "LiteralGrammar"@, optional: false }, GrammarView::Ref { name: "FunctionSegment"@, optional: false }, GrammarView::Ref { name: "BareFunctionSegment"@, optional: false }], terminators: seq![] }) }], terminators: seq![], parse_mode: ParseMode::Strict }, GrammarView::Ref { name: "PrimaryKeyGrammar"@, optional: false }, GrammarView::Optional { grammar: Box::new(GrammarView::Sequence { elements: seq![GrammarView::Keyword { word: "CODEC"@ }, GrammarView::Ref { name: "FunctionContentsGrammar"@, optional: false }], terminators: seq![], parse_mode: ParseMode::Strict }) }, GrammarView::Ref { name: "ColumnTTLSegment"@, optional: false }]);
    let g35: Vec<Grammar> = Vec::new();
    assert(views(g35@) =~= Seq::<GrammarView>::empty());
    let g36 = Grammar::one_of_with(g34, g35);
    let g37: Vec<Grammar> = vec![g4, g36];
    assert(views(g37@) =~~= seq![GrammarView::Optional { grammar: Box::new(GrammarView::Sequence { elements: seq![GrammarView::Keyword { word: "CONSTRAINT"@ }, GrammarView::Ref { name: "ObjectReferenceSegment"@, optional: false }], terminators: seq![], parse_mode: ParseMode::Strict }) }, GrammarView::OneOf { elements: seq![GrammarView::Sequence { elements: seq![GrammarView::Optional { grammar: Box::new(GrammarView::Keyword { word: "NOT"@ }) }, GrammarView::Keyword { word: "NULL"@ }], terminators: seq![], parse_mode: ParseMode::Strict }, GrammarView::Sequence { elements: seq![GrammarView::Keyword { word: "CHECK"@ }, GrammarView::Bracketed { elements: seq![GrammarView::Ref { name: "ExpressionSegment"@, optional: false }], bracket_type: "round"@ }], terminators: seq![], parse_mode: ParseMode::Strict }, GrammarView::Sequence { elements: seq![GrammarView::OneOf { elements: seq![GrammarView::Keyword { word: "DEFAULT"@ }, GrammarView::Keyword { word: "MATERIALIZED"@ }, GrammarView::Keyword { word: "ALIAS"@ }], terminators: seq![] }, GrammarView::OneOf { elements: seq![GrammarView::Ref { name: "LiteralGrammar"@, optional: false }, GrammarView::Ref { name: "FunctionSegment"@, optional: false }, GrammarView::Ref { name: "BareFunctionSegment"@, optional: false }], terminators: seq![] }], terminators: seq![], parse_mode: ParseMode::Strict }, GrammarView::Sequence { elements: seq![GrammarView::Keyword { word: "EPHEMERAL"@ }, GrammarView::Optional { grammar: Box::new(GrammarView::OneOf { elements: seq![GrammarView::Ref { name: "LiteralGrammar"@, optional: false }, GrammarView::Ref { name: "FunctionSegment"@, optional: false }, GrammarView::Ref { name: "BareFunctionSegment"@, optional: false }], terminators: seq![] }) }], terminators: seq![], parse_mode: ParseMode::Strict }, GrammarView::Ref { name: "PrimaryKeyGrammar"@, optional: false }, GrammarView::Optional { grammar: Box::new(GrammarView::Sequence { elements: seq![GrammarView::Keyword { word: "CODEC"@ }, GrammarView::Ref { name: "FunctionContentsGrammar"@, optional: false }], terminators: seq![], parse_mode: ParseMode::Strict }) }, GrammarView::Ref { name: "ColumnTTLSegment"@, optional: false }], terminators: seq![] }]);
    let g38: Vec<Grammar> = Vec::new();
    assert(views(g38@) =~= Seq::<GrammarView>::empty());
    let g39 = Grammar::sequence_with(g37, g38, ParseMode::Strict);
    let g40: Vec<Grammar> = vec![g39];
    assert(views(g40@) =~~= seq![GrammarView::Sequence { elements: seq![GrammarView::Optional { grammar: Box::new(GrammarView::Sequence { elements: seq![GrammarView::Keyword { word: "CONSTRAINT"@ }, GrammarView::Ref { name: "ObjectReferenceSegment"@, optional: false }], terminators: seq![], parse_mode: ParseMode::Strict }) }, GrammarView::OneOf { elements: seq![GrammarView::Sequence { elements: seq![GrammarView::Optional { grammar: Box::new(GrammarView::Keyword { word: "NOT"@ }) }, GrammarView::Keyword { word: "NULL"@ }], terminators: seq![], parse_mode: ParseMode::Strict }, GrammarView::Sequence { elements: seq![GrammarView::Keyword { word: "CHECK"@ }, GrammarView::Bracketed { elements: seq![GrammarView::Ref { name: "ExpressionSegment"@, optional: false }], bracket_type: "round"@ }], terminators: seq![], parse_mode: ParseMode::Strict }, GrammarView::Sequence { elements: seq![GrammarView::OneOf { elements: seq![GrammarView::Keyword { word: "DEFAULT"@ }, GrammarView::Keyword { word: "MATERIALIZED"@ }, GrammarView::Keyword { word: "ALIAS"@ }], terminators: seq![] }, GrammarView::OneOf { elements: seq![GrammarView::Ref { name: "LiteralGrammar"@, optional: false }, GrammarView::Ref { name: "FunctionSegment"@, optional: false }, GrammarView::Ref { name: "BareFunctionSegment"@, optional: false }], terminators: seq![] }], terminators: seq![], parse_mode: ParseMode::Strict }, GrammarView::Sequence { elements: seq![GrammarView::Keyword { word: "EPHEMERAL"@ }, GrammarView::Optional { grammar: Box::new(GrammarView::OneOf { elements: seq![GrammarView::Ref { name: "LiteralGrammar"@, optional: false }, GrammarView::Ref { name: "FunctionSegment"@, optional: false }, GrammarView::Ref { name: "BareFunctionSegment"@, optional: false }], terminators: seq![] }) }], terminators: seq![], parse_mode: ParseMode::Strict }, GrammarView::Ref { name: "PrimaryKeyGrammar"@, optional: false }, GrammarView::Optional { grammar: Box::new(GrammarView::Sequence { elements: seq![GrammarView::Keyword { word: "CODEC"@ }, GrammarView::Ref { name: "FunctionContentsGrammar"@, optional: false }], terminators: seq![], parse_mode: ParseMode::Strict }) }, GrammarView::Ref { name: "ColumnTTLSegment"@, optional: false }], terminators: seq![] }], terminators: seq![], parse_mode: ParseMode::Strict }]);
    let g41 = Grammar::any_set_of(g40);
    Element::Node { kind: "column_constraint_segment", grammar: g41 }
}

/// The ClickHouse grammar of `CreateDatabaseStatementSegment`.
pub open spec fn create_database_statement_segment_grammar() -> GrammarView {
    GrammarView::Sequence { elements: seq![GrammarView::Keyword { word: "CREATE"@ }, GrammarView::Keyword { word: "DATABASE"@ }, GrammarView::Ref { name: "IfNotExistsGrammar"@, optional: true }, GrammarView::Ref { name: "DatabaseReferenceSegment"@, optional: false }, GrammarView::AnySetOf { elements: seq![GrammarView::Ref { name: "OnClusterClauseSegment"@, optional: true }, GrammarView::Ref { name: "DatabaseEngineSegment"@, optional: true }, GrammarView::Optional { grammar: Box::new(GrammarView::Sequence { elements: seq![GrammarView::Keyword { word: "COMMENT"@ }, GrammarView::Ref { name: "SingleIdentifierGrammar"@, optional: false }], terminators: seq![], parse_mode: ParseMode::Strict }) }] }, GrammarView::Optional { grammar: Box::new(GrammarView::AnyNumberOf { elements: seq![GrammarView::Keyword { word: "TABLE"@ }, GrammarView::Keyword { word: "OVERRIDE"@ }, GrammarView::Ref { name: "TableReferenceSegment"@, optional: false }, GrammarView::Optional { grammar: Box::new(GrammarView::Bracketed { elements: seq![GrammarView::Delimited { elements: seq![GrammarView::Ref { name: "TableConstraintSegment"@, optional: false }, GrammarView::Ref { name: "ColumnDefinitionSegment"@, optional: false }, GrammarView::Ref { name: "ColumnConstraintSegment"@, optional: false }], allow_trailing: false, delimiter: None, terminators: seq![], allow_gaps: true }], bracket_type: "round"@ }) }], terminators: seq![], min_times: 0, max_times: None }) }], terminators: seq![], parse_mode: ParseMode::Strict }
}

fn build_create_database_statement_segment() -> (g: Grammar)
    ensures
        g@ =~~= create_database_statement_segment_grammar(),
{
    let g1: Vec<Grammar> = vec![Grammar::keyword("COMMENT"), Grammar::reference("SingleIdentifierGrammar")];
    assert(views(g1@) =~~= seq![GrammarView::Keyword { word: "COMMENT"@ }, GrammarView::Ref { name: "SingleIdentifierGrammar"@, optional: false }]);
    let g2: Vec<Grammar> = Vec::new();
    assert(views(g2@) =~= Seq::<GrammarView>::empty());
    let g3 = Grammar::sequence_with(g1, g2, ParseMode::Strict);
    let g4 = g3.optional();
    let g5: Vec<Grammar> = vec![Grammar::optional_reference("OnClusterClauseSegment"), Grammar::optional_reference("DatabaseEngineSegment"), g4];
    assert(views(g5@) =~~= seq![GrammarView::Ref { name: "OnClusterClauseSegment"@, optional: true }, GrammarView::Ref { name: "DatabaseEngineSegment"@, optional: true }, GrammarView::Optional { grammar: Box::new(GrammarView::Sequence { elements: seq![GrammarView::Keyword { word: "COMMENT"@ }, GrammarView::Ref { name: "SingleIdentifierGrammar"@, optional: false }], terminators: seq![], parse_mode: ParseMode::Strict }) }]);
    let g6 = Grammar::any_set_of(g5);
    let g7: Vec<Grammar> = vec![Grammar::reference("TableConstraintSegment"), Grammar::reference("ColumnDefinitionSegment"), Grammar::reference("ColumnConstraintSegment")];
    assert(views(g7@) =~~= seq![GrammarView::Ref { name: "TableConstraintSegment"@, optional: false }, GrammarView::Ref { name: "ColumnDefinitionSegment"@, optional: false }, GrammarView::Ref { name: "ColumnConstraintSegment"@, optional: false }]);
    let g8: Vec<Grammar> = Vec::new();
    assert(views(g8@) =~= Seq::<GrammarView>::empty());
    let g9 = Grammar::delimited_with(g7, false, None, g8, true);
    let g10: Vec<Grammar> = vec![g9];
    assert(views(g10@) =~~= seq![GrammarView::Delimited { elements: seq![GrammarView::Ref { name: "TableConstraintSegment"@, optional: false }, GrammarView::Ref { name: "ColumnDefinitionSegment"@, optional: false }, GrammarView::Ref { name: "ColumnConstraintSegment"@, optional: false }], allow_trailing: false, delimiter: None, terminators: seq![], allow_gaps: true }]);
    let g11 = Grammar::bracketed_with(g10, "round");
    let g12 = g11.optional();
    let g13: Vec<Grammar> = vec![Grammar::keyword("TABLE"), Grammar::keyword("OVERRIDE"), Grammar::reference("TableReferenceSegment"), g12];
    assert(views(g13@) =~~= seq![GrammarView::Keyword { word: "TABLE"@ }, GrammarView::Keyword { word: "OVERRIDE"@ }, GrammarView::Ref { name: "TableReferenceSegment"@, optional: false }, GrammarView::Optional { grammar: Box::new(GrammarView::Bracketed { elements: seq![GrammarView::Delimited { elements: seq![GrammarView::Ref { name: "TableConstraintSegment"@, optional: false }, GrammarView::Ref { name: "ColumnDefinitionSegment"@, optional: false }, GrammarView::Ref { name: "ColumnConstraintSegment"@, optional: false }], allow_trailing: false, delimiter: None, terminators: seq![], allow_gaps: true }], bracket_type: "round"@ }) }]);
    let g14: Vec<Grammar> = Vec::new();
    assert(views(g14@) =~= Seq::<GrammarView>::empty());
    let g15 = Grammar::any_number_of_with(g13, g14, 0, None);
    let g16 = g15.optional();
    let g17: Vec<Grammar> = vec![Grammar::keyword("CREATE"), Grammar::keyword("DATABASE"), Grammar::optional_reference("IfNotExistsGrammar"), Grammar::reference("DatabaseReferenceSegment"), g6, g16];
    assert(views(g17@) =~~= seq![GrammarView::Keyword { word: "CREATE"@ }, GrammarView::Keyword { word: "DATABASE"@ }, GrammarView::Ref { name: "IfNotExistsGrammar"@, optional: true }, GrammarView::Ref { name: "DatabaseReferenceSegment"@, optional: false }, GrammarView::AnySetOf { elements: seq![GrammarView::Ref { name: "OnClusterClauseSegment"@, optional: true }, GrammarView::Ref { name: "DatabaseEngineSegment"@, optional: true }, GrammarView::Optional { grammar: Box::new(GrammarView::Sequence { elements: seq![GrammarView::Keyword { word: "COMMENT"@ }, GrammarView::Ref { name: "SingleIdentifierGrammar"@, optional: false }], terminators: seq![], parse_mode: ParseMode::Strict }) }] }, GrammarView::Optional { grammar: Box::new(GrammarView::AnyNumberOf { elements: seq![GrammarView::Keyword { word: "TABLE"@ }, GrammarView::Keyword { word: "OVERRIDE"@ }, GrammarView::Ref { name: "TableReferenceSegment"@, optional: false }, GrammarView::Optional { grammar: Box::new(GrammarView::Bracketed { elements: seq![GrammarView::Delimited { elements: seq![GrammarView::Ref { name: "TableConstraintSegment"@, optional: false }, GrammarView::Ref { name: "ColumnDefinitionSegment"@, optional: false }, GrammarView::Ref { name: "ColumnConstraintSegment"@, optional: false }], allow_trailing: false, delimiter: None, terminators: seq![], allow_gaps: true }], bracket_type: "round"@ }) }], terminators: seq![], min_times: 0, max_times: None }) }]);
    let g18: Vec<Grammar> = Vec::new();
    assert(views(g18@) =~= Seq::<GrammarView>::empty());
    let g19 = Grammar::sequence_with(g17, g18, ParseMode::Strict);
    g19
}

/// The ClickHouse element `RenameStatementSegment`.
pub open spec fn rename_statement_segment_element() -> ElementView {
    ElementView::Node { kind: "rename_table_statement"@, grammar: GrammarView::Sequence { elements: seq![GrammarView::Keyword { word: "RENAME"@ }, GrammarView::OneOf { elements: seq![GrammarView::Sequence { elements: seq![GrammarView::Keyword { word: "TABLE"@ }, GrammarView::Delimited { elements: seq![GrammarView::Sequence { elements: seq![GrammarView::Ref { name: "TableReferenceSegment"@, optional: false }, GrammarView::Keyword { word: "TO"@ }, GrammarView::Ref { name: "TableReferenceSegment"@, optional: false }], terminators: seq![], parse_mode: ParseMode::Strict }], allow_trailing: false, delimiter: None, terminators: seq![], allow_gaps: true }], terminators: seq![], parse_mode: ParseMode::Strict }, GrammarView::Sequence { elements: seq![GrammarView::Keyword { word: "DATABASE"@ }, GrammarView::Delimited { elements: seq![GrammarView::Sequence { elements: seq![GrammarView::Ref { name: "DatabaseReferenceSegment"@, optional: false }, GrammarView::Keyword { word: "TO"@ }, GrammarView::Ref { name: "DatabaseReferenceSegment"@, optional: false }], terminators: seq![], parse_mode: ParseMode::Strict }], allow_trailing: false, delimiter: None, terminators: seq![], allow_gaps: true }], terminators: seq![], parse_mode: ParseMode::Strict }, GrammarView::Sequence { elements: seq![GrammarView::Keyword { word: "DICTIONARY"@ }, GrammarView::Delimited { elements: seq![GrammarView::Sequence { elements: seq![GrammarView::Ref { name: "ObjectReferenceSegment"@, optional: false }, GrammarView::Keyword { word: "TO"@ }, GrammarView::Ref { name: "ObjectReferenceSegment"@, optional: false }], terminators: seq![], parse_mode: ParseMode::Strict }], allow_trailing: false, delimiter: None, terminators: seq![], allow_gaps: true }], terminators: seq![], parse_mode: ParseMode::Strict }], terminators: seq![] }, GrammarView::Ref { name: "OnClusterClauseSegment"@, optional: true }], terminators: seq![], parse_mode: ParseMode::Strict } }
}

fn build_rename_statement_segment() -> (e: Element)
    ensures
        e@ =~~= rename_statement_segment_element(),
{
    let g1: Vec<Grammar> = vec![Grammar::reference("TableReferenceSegment"), Grammar::keyword("TO"), Grammar::reference("TableReferenceSegment")];
    assert(views(g1@) =~~= seq![GrammarView::Ref { name: "TableReferenceSegment"@, optional: false }, GrammarView::Keyword { word: "TO"@ }, GrammarView::Ref { name: "TableReferenceSegment"@, optional: false }]);
    let g2: Vec<Grammar> = Vec::new();
    assert(views(g2@) =~= Seq::<GrammarView>::empty());
    let g3 = Grammar::sequence_with(g1, g2, ParseMode::Strict);
    let g4: Vec<Grammar> = vec![g3];
    assert(views(g4@) =~~= seq![GrammarView::Sequence { elements: seq![GrammarView::Ref { name: "TableReferenceSegment"@, optional: false }, GrammarView::Keyword { word: "TO"@ }, GrammarView::Ref { name: "TableReferenceSegment"@, optional: false }], terminators: seq![], parse_mode: ParseMode::Strict }]);
    let g5: Vec<Grammar> = Vec::new();
    assert(views(g5@) =~= Seq::<GrammarView>::empty());
    let g6 = Grammar::delimited_with(g4, false, None, g5, true);
    let g7: Vec<Grammar> = vec![Grammar::keyword("TABLE"), g6];
    assert(views(g7@) =~~= seq![GrammarView::Keyword { word: "TABLE"@ }, GrammarView::Delimited { elements: seq![GrammarView::Sequence { elements: seq![GrammarView::Ref { name: "TableReferenceSegment"@, optional: false }, GrammarView::Keyword { word: "TO"@ }, GrammarView::Ref { name: "TableReferenceSegment"@, optional: false }], terminators: seq![], parse_mode: ParseMode::Strict }], allow_trailing: false, delimiter: None, terminators: seq![], allow_gaps: true }]);
    let g8: Vec<Grammar> = Vec::new();
    assert(views(g8@) =~= Seq::<GrammarView>::empty());
    let g9 = Grammar::sequence_with(g7, g8, ParseMode::Strict);
    let g10: Vec<Grammar> = vec![Grammar::reference("DatabaseReferenceSegment"), Grammar::keyword("TO"), Grammar::reference("DatabaseReferenceSegment")];
    assert(views(g10@) =~~= seq![GrammarView::Ref { name: "DatabaseReferenceSegment"@, optional: false }, GrammarView::Keyword { word: "TO"@ }, GrammarView::Ref { name: "DatabaseReferenceSegment"@, optional: false }]);
    let g11: Vec<Grammar> = Vec::new();
    assert(views(g11@) =~= Seq::<GrammarView>::empty());
    let g12 = Grammar::sequence_with(g10, g11, ParseMode::Strict);
    let g13: Vec<Grammar> = vec![g12];
    assert(views(g13@) =~~= seq![GrammarView::Sequence { elements: seq![GrammarView::Ref { name: "DatabaseReferenceSegment"@, optional: false }, GrammarView::Keyword { word: "TO"@ }, GrammarView::Ref { name: "DatabaseReferenceSegment"@, optional: false }], terminators: seq![], parse_mode: ParseMode::Strict }]);
    let g14: Vec<Grammar> = Vec::new();
    assert(views(g14@) =~= Seq::<GrammarView>::empty());
    let g15 = Grammar::delimited_with(g13, false, None, g14, true);
    let g16: Vec<Grammar> = vec![Grammar::keyword("DATABASE"), g15];
    assert(views(g16@) =~~= seq![GrammarView::Keyword { word: "DATABASE"@ }, GrammarView::Delimited { elements: seq![GrammarView::Sequence { elements: seq![GrammarView::Ref { name: "DatabaseReferenceSegment"@, optional: false }, GrammarView::Keyword { word: "TO"@ }, GrammarView::Ref { name: "DatabaseReferenceSegment"@, optional: false }], terminators: seq![], parse_mode: ParseMode::Strict }], allow_trailing: false, delimiter: None, terminators: seq![], allow_gaps: true }]);
    let g17: Vec<Grammar> = Vec::new();
    assert(views(g17@) =~= Seq::<GrammarView>::empty());
    let g18 = Grammar::sequence_with(g16, g17, ParseMode::Strict);
    let g19: Vec<Grammar> = vec![Grammar::reference("ObjectReferenceSegment"), Grammar::keyword("TO"), Grammar::reference("ObjectReferenceSegment")];
    assert(views(g19@) =~~= seq![GrammarView::Ref { name: "ObjectReferenceSegment"@, optional: false }, GrammarView::Keyword { word: "TO"@ }, GrammarView::Ref { name: "ObjectReferenceSegment"@, optional: false }]);
    let g20: Vec<Grammar> = Vec::new();
    assert(views(g20@) =~= Seq::<GrammarView>::empty());
    let g21 = Grammar::sequence_with(g19, g20, ParseMode::Strict);
    let g22: Vec<Grammar> = vec![g21];
    assert(views(g22@) =~~= seq![GrammarView::Sequence { elements: seq![GrammarView::Ref { name: "ObjectReferenceSegment"@, optional: false }, GrammarView::Keyword { word: "TO"@ }, GrammarView::Ref { name: "ObjectReferenceSegment"@, optional: false }], terminators: seq![], parse_mode: ParseMode::Strict }]);
    let g23: Vec<Grammar> = Vec::new();
    assert(views(g23@) =~= Seq::<GrammarView>::empty());
    let g24 = Grammar::delimited_with(g22, false, None, g23, true);
    let g25: Vec<Grammar> = vec![Grammar::keyword("DICTIONARY"), g24];
    assert(views(g25@) =~~= seq![GrammarView::Keyword { word: "DICTIONARY"@ }, GrammarView::Delimited { elements: seq![GrammarView::Sequence { elements: seq![GrammarView::Ref { name: "ObjectReferenceSegment"@, optional: false }, GrammarView::Keyword { word: "TO"@ }, GrammarView::Ref { name: "ObjectReferenceSegment"@, optional: false }], terminators: seq![], parse_mode: ParseMode::Strict }], allow_trailing: false, delimiter: None, terminators: seq![], allow_gaps: true }]);
    let g26: Vec<Grammar> = Vec::new();
    assert(views(g26@) =~= Seq::<GrammarView>::empty());
    let g27 = Grammar::sequence_with(g25, g26, ParseMode::Strict);
    let g28: Vec<Grammar> = vec![g9, g18, g27];
    assert(views(g28@) =~~= seq![GrammarView::Sequence { elements: seq![GrammarView::Keyword { word: "TABLE"@ }, GrammarView::Delimited { elements: seq![GrammarView::Sequence { elements: seq![GrammarView::Ref { name: "TableReferenceSegment"@, optional: false }, GrammarView::Keyword { word: "TO"@ }, GrammarView::Ref { name: "TableReferenceSegment"@, optional: false }], terminators: seq![], parse_mode: ParseMode::Strict }], allow_trailing: false, delimiter: None, terminators: seq![], allow_gaps: true }], terminators: seq![], parse_mode: ParseMode::Strict }, GrammarView::Sequence { elements: seq![GrammarView::Keyword { word: "DATABASE"@ }, GrammarView::Delimited { elements: seq![GrammarView::Sequence { elements: seq![GrammarView::Ref { name: "DatabaseReferenceSegment"@, optional: false }, GrammarView::Keyword { word: "TO"@ }, GrammarView::Ref { name: "DatabaseReferenceSegment"@, optional: false }], terminators: seq![], parse_mode: ParseMode::Strict }], allow_trailing: false, delimiter: None, terminators: seq![], allow_gaps: true }], terminators: seq![], parse_mode: ParseMode::Strict }, GrammarView::Sequence { elements: seq![GrammarView::Keyword { word: "DICTIONARY"@ }, GrammarView::Delimited { elements: seq![GrammarView::Sequence { elements: seq![GrammarView::Ref { name: "ObjectReferenceSegment"@, optional: false }, GrammarView::Keyword { word: "TO"@ }, GrammarView::Ref { name: "ObjectReferenceSegment"@, optional: false }], terminators: seq![], parse_mode: ParseMode::Strict }], allow_trailing: false, delimiter: None, terminators: seq![], allow_gaps: true }], terminators: seq![], parse_mode: ParseMode::Strict }]);
    let g29: Vec<Grammar> = Vec::new();
    assert(views(g29@) =~= Seq::<GrammarView>::empty());
    let g30 = Grammar::one_of_with(g28, g29);
    let g31: Vec<Grammar> = vec![Grammar::keyword("RENAME"), g30, Grammar::optional_reference("OnClusterClauseSegment")];
    assert(views(g31@) =~~= seq![GrammarView::Keyword { word: "RENAME"@ }, GrammarView::OneOf { elements: seq![GrammarView::Sequence { elements: seq![GrammarView::Keyword { word: "TABLE"@ }, GrammarView::Delimited { elements: seq![GrammarView::Sequence { elements: seq![GrammarView::Ref { name: "TableReferenceSegment"@, optional: false }, GrammarView::Keyword { word: "TO"@ }, GrammarView::Ref { name: "TableReferenceSegment"@, optional: false }], terminators: seq![], parse_mode: ParseMode::Strict }], allow_trailing: false, delimiter: None, terminators: seq![], allow_gaps: true }], terminators: seq![], parse_mode: ParseMode::Strict }, GrammarView::Sequence { elements: seq![GrammarView::Keyword { word: "DATABASE"@ }, GrammarView::Delimited { elements: seq![GrammarView::Sequence { elements: seq![GrammarView::Ref { name: "DatabaseReferenceSegment"@, optional: false }, GrammarView::Keyword { word: "TO"@ }, GrammarView::Ref { name: "DatabaseReferenceSegment"@, optional: false }], terminators: seq![], parse_mode: ParseMode::Strict }], allow_trailing: false, delimiter: None, terminators: seq![], allow_gaps: true }], terminators: seq![], parse_mode: ParseMode::Strict }, GrammarView::Sequence { elements: seq![GrammarView::Keyword { word: "DICTIONARY"@ }, GrammarView::Delimited { elements: seq![GrammarView::Sequence { elements: seq![GrammarView::Ref { name: "ObjectReferenceSegment"@, optional: false }, GrammarView::Keyword { word: "TO"@ }, GrammarView::Ref { name: "ObjectReferenceSegment"@, optional: false }], terminators: seq![], parse_mode: ParseMode::Strict }], allow_trailing: false, delimiter: None, terminators: seq![], allow_gaps: true }], terminators: seq![], parse_mode: ParseMode::Strict }], terminators: seq![] }, GrammarView::Ref { name: "OnClusterClauseSegment"@, optional: true }]);
    let g32: Vec<Grammar> = Vec::new();
    assert(views(g32@) =~= Seq::<GrammarView>::empty());
    let g33 = Grammar::sequence_with(g31, g32, ParseMode::Strict);
    Element::Node { kind: "rename_table_statement", grammar: g33 }
}

/// The ClickHouse grammar of `CreateTableStatementSegment`.
pub open spec fn create_table_statement_segment_grammar() -> GrammarView {
    GrammarView::OneOf { elements: seq![GrammarView::Sequence { elements: seq![GrammarView::Keyword { word: "CREATE"@ }, GrammarView::Ref { name: "OrReplaceGrammar"@, optional: true }, GrammarView::Keyword { word: "TABLE"@ }, GrammarView::Ref { name: "IfNotExistsGrammar"@, optional: true }, GrammarView::Ref { name: "TableReferenceSegment"@, optional: false }, GrammarView::Ref { name: "OnClusterClauseSegment"@, optional: true }, GrammarView::OneOf { elements: seq![GrammarView::Sequence { elements: seq![GrammarView::Optional { grammar: Box::new(GrammarView::Bracketed { elements: seq![GrammarView::Delimited { elements: seq![GrammarView::OneOf { elements: seq![GrammarView::Ref { name: "TableConstraintSegment"@, optional: false }, GrammarView::Ref { name: "ColumnDefinitionSegment"@, optional: false }, GrammarView::Ref { name: "ColumnConstraintSegment"@, optional: false }], terminators: seq![] }], allow_trailing: false, delimiter: None, terminators: seq![], allow_gaps: true }], bracket_type: "round"@ }) }, GrammarView::Ref { name: "TableEngineSegment"@, optional: false }, GrammarView::Optional { grammar: Box::new(GrammarView::Sequence { elements: seq![GrammarView::Keyword { word: "AS"@ }, GrammarView::Ref { name: "SelectableGrammar"@, optional: false }], terminators: seq![], parse_mode: ParseMode::Strict }) }], terminators: seq![], parse_mode: ParseMode::Strict }, GrammarView::Sequence { elements: seq![GrammarView::Keyword { word: "AS"@ }, GrammarView::Ref { name: "TableReferenceSegment"@, optional: false }, GrammarView::Ref { name: "TableEngineSegment"@, optional: true }], terminators: seq![], parse_mode: ParseMode::Strict }, GrammarView::Sequence { elements: seq![GrammarView::Keyword { word: "AS"@ }, GrammarView::Ref { name: "FunctionSegment"@, optional: false }], terminators: seq![], parse_mode: ParseMode::Strict }], terminators: seq![] }, GrammarView::Optional { grammar: Box::new(GrammarView::AnySetOf { elements: seq![GrammarView::Sequence { elements: seq![GrammarView::Keyword { word: "COMMENT"@ }, GrammarView::OneOf { elements: seq![GrammarView::Ref { name: "SingleIdentifierGrammar"@, optional: false }, GrammarView::Ref { name: "QuotedIdentifierSegment"@, optional: false }], terminators: seq![] }], terminators: seq![], parse_mode: ParseMode::Strict }, GrammarView::Ref { name: "TableTTLSegment"@, optional: false }] }) }, GrammarView::Ref { name: "TableEndClauseSegment"@, optional: true }], terminators: seq![], parse_mode: ParseMode::Strict }, GrammarView::Sequence { elements: seq![GrammarView::Keyword { word: "CREATE"@ }, GrammarView::Keyword { word: "TEMPORARY"@ }, GrammarView::Keyword { word: "TABLE"@ }, GrammarView::Ref { name: "IfNotExistsGrammar"@, optional: true }, GrammarView::Ref { name: "TableReferenceSegment"@, optional: false }, GrammarView::OneOf { elements: seq![GrammarView::Sequence { elements: seq![GrammarView::Optional { grammar: Box::new(GrammarView::Bracketed { elements: seq![GrammarView::Delimited { elements: seq![GrammarView::OneOf { elements: seq![GrammarView::Ref { name: "TableConstraintSegment"@, optional: false }, GrammarView::Ref { name: "ColumnDefinitionSegment"@, optional: false }, GrammarView::Ref { name: "ColumnConstraintSegment"@, optional: false }], terminators: seq![] }], allow_trailing: false, delimiter: None, terminators: seq![], allow_gaps: true }], bracket_type: "round"@ }) }, GrammarView::Ref { name: "TableEngineSegment"@, optional: false }, GrammarView::Optional { grammar: Box::new(GrammarView::Sequence { elements: seq![GrammarView::Keyword { word: "AS"@ }, GrammarView::Ref { name: "SelectableGrammar"@, optional: false }], terminators: seq![], parse_mode: ParseMode::Strict }) }], terminators: seq![], parse_mode: ParseMode::Strict }, GrammarView::Sequence { elements: seq![GrammarView::Keyword { word: "AS"@ }, GrammarView::Ref { name: "TableReferenceSegment"@, optional: false }, GrammarView::Ref { name: "TableEngineSegment"@, optional: true }], terminators: seq![], parse_mode: ParseMode::Strict }, GrammarView::Sequence { elements: seq![GrammarView::Keyword { word: "AS"@ }, GrammarView::Ref { name: "FunctionSegment"@, optional: false }], terminators: seq![], parse_mode: ParseMode::Strict }, GrammarView::Sequence { elements: seq![GrammarView::Keyword { word: "AS"@ }, GrammarView::Ref { name: "SelectableGrammar"@, optional: false }], terminators: seq![], parse_mode: ParseMode::Strict }], terminators: seq![] }, GrammarView::Optional { grammar: Box::new(GrammarView::AnySetOf { elements: seq![GrammarView::Sequence { elements: seq![GrammarView::Keyword { word: "COMMENT"@ }, GrammarView::OneOf { elements: seq![GrammarView::Ref { name: "SingleIdentifierGrammar"@, optional: false }, GrammarView::Ref { name: "QuotedIdentifierSegment"@, optional: false }], terminators: seq![] }], terminators: seq![], parse_mode: ParseMode::Strict }, GrammarView::Ref { name: "TableTTLSegment"@, optional: false }] }) }, GrammarView::Ref { name: "TableEndClauseSegment"@, optional: true }], terminators: seq![], parse_mode: ParseMode::Strict }], terminators: seq![] }
}

#[verifier::rlimit(100)]
fn build_create_table_statement_segment() -> (g: Grammar)
    ensures
        g@ =~~= create_table_statement_segment_grammar(),
{
    let g1: Vec<Grammar> = vec![Grammar::reference("TableConstraintSegment"), Grammar::reference("ColumnDefinitionSegment"), Grammar::reference("ColumnConstraintSegment")];
    assert(views(g1@) =~~= seq![GrammarView::Ref { name: "TableConstraintSegment"@, optional: false }, GrammarView::Ref { name: "ColumnDefinitionSegment"@, optional: false }, GrammarView::Ref { name: "ColumnConstraintSegment"@, optional: false }]);
    let g2: Vec<Grammar> = Vec::new();
    assert(views(g2@) =~= Seq::<GrammarView>::empty());
    let g3 = Grammar::one_of_with(g1, g2);
    let g4: Vec<Grammar> = vec![g3];
    assert(views(g4@) =~~= seq![GrammarView::OneOf { elements: seq![GrammarView::Ref { name: "TableConstraintSegment"@, optional: false }, GrammarView::Ref { name: "ColumnDefinitionSegment"@, optional: false }, GrammarView::Ref { name: "ColumnConstraintSegment"@, optional: false }], terminators: seq![] }]);
    let g5: Vec<Grammar> = Vec::new();
    assert(views(g5@) =~= Seq::<GrammarView>::empty());
    let g6 = Grammar::delimited_with(g4, false, None, g5, true);
    let g7: Vec<Grammar> = vec![g6];
    assert(views(g7@) =~~= seq![GrammarView::Delimited { elements: seq![GrammarView::OneOf { elements: seq![GrammarView::Ref { name: "TableConstraintSegment"@, optional: false }, GrammarView::Ref { name: "ColumnDefinitionSegment"@, optional: false }, GrammarView::Ref { name: "ColumnConstraintSegment"@, optional: false }], terminators: seq![] }], allow_trailing: false, delimiter: None, terminators: seq![], allow_gaps: true }]);
    let g8 = Grammar::bracketed_with(g7, "round");
    let g9 = g8.optional();
    let g10: Vec<Grammar> = vec![Grammar::keyword("AS"), Grammar::reference("SelectableGrammar")];
    assert(views(g10@) =~~= seq![GrammarView::Keyword { word: "AS"@ }, GrammarView::Ref { name: "SelectableGrammar"@, optional: false }]);
    let g11: Vec<Grammar> = Vec::new();
    assert(views(g11@) =~= Seq::<GrammarView>::empty());
    let g12 = Grammar::sequence_with(g10, g11, ParseMode::Strict);
    let g13 = g12.optional();
    let g14: Vec<Grammar> = vec![g9, Grammar::reference("TableEngineSegment"), g13];
    assert(views(g14@) =~~= seq![GrammarView::Optional { grammar: Box::new(GrammarView::Bracketed { elements: seq![GrammarView::Delimited { elements: seq![GrammarView::OneOf { elements: seq![GrammarView::Ref { name: "TableConstraintSegment"@, optional: false }, GrammarView::Ref { name: "ColumnDefinitionSegment"@, optional: false }, GrammarView::Ref { name: "ColumnConstraintSegment"@, optional: false }], terminators: seq![] }], allow_trailing: false, delimiter: None, terminators: seq![], allow_gaps: true }], bracket_type: "round"@ }) }, GrammarView::Ref { name: "TableEngineSegment"@, optional: false }, GrammarView::Optional { grammar: Box::new(GrammarView::Sequence { elements: seq![GrammarView::Keyword { word: "AS"@ }, GrammarView::Ref { name: "SelectableGrammar"@, optional: false }], terminators: seq![], parse_mode: ParseMode::Strict }) }]);
    let g15: Vec<Grammar> = Vec::new();
    assert(views(g15@) =~= Seq::<GrammarView>::empty());
    let g16 = Grammar::sequence_with(g14, g15, ParseMode::Strict);
    let g17: Vec<Grammar> = vec![Grammar::keyword("AS"), Grammar::reference("TableReferenceSegment"), Grammar::optional_reference("TableEngineSegment")];
    assert(views(g17@) =~~= seq![GrammarView::Keyword { word: "AS"@ }, GrammarView::Ref { name: "TableReferenceSegment"@, optional: false }, GrammarView::Ref { name: "TableEngineSegment"@, optional: true }]);
    let g18: Vec<Grammar> = Vec::new();
    assert(views(g18@) =~= Seq::<GrammarView>::empty());
    let g19 = Grammar::sequence_with(g17, g18, ParseMode::Strict);
    let g20: Vec<Grammar> = vec![Grammar::keyword("AS"), Grammar::reference("FunctionSegment")];
    assert(views(g20@) =~~= seq![GrammarView::Keyword { word: "AS"@ }, GrammarView::Ref { name: "FunctionSegment"@, optional: false }]);
    let g21: Vec<Grammar> = Vec::new();
    assert(views(g21@) =~= Seq::<GrammarView>::empty());
    let g22 = Grammar::sequence_with(g20, g21, ParseMode::Strict);
    let g23: Vec<Grammar> = vec![g16, g19, g22];
    assert(views(g23@) =~~= seq![GrammarView::Sequence { elements: seq![GrammarView::Optional { grammar: Box::new(GrammarView::Bracketed { elements: seq![GrammarView::Delimited { elements: seq![GrammarView::OneOf { elements: seq![GrammarView::Ref { name: "TableConstraintSegment"@, optional: false }, GrammarView::Ref { name: "ColumnDefinitionSegment"@, optional: false }, GrammarView::Ref { name: "ColumnConstraintSegment"@, optional: false }], terminators: seq![] }], allow_trailing: false, delimiter: None, terminators: seq![], allow_gaps: true }], bracket_type: "round"@ }) }, GrammarView::Ref { name: "TableEngineSegment"@, optional: false }, GrammarView::Optional { grammar: Box::new(GrammarView::Sequence { elements: seq![GrammarView::Keyword { word: "AS"@ }, GrammarView::Ref { name: "SelectableGrammar"@, optional: false }], terminators: seq![], parse_mode: ParseMode::Strict }) }], terminators: seq![], parse_mode: ParseMode::Strict }, GrammarView::Sequence { elements: seq![GrammarView::Keyword { word: "AS"@ }, GrammarView::Ref { name: "TableReferenceSegment"@, optional: false }, GrammarView::Ref { name: "TableEngineSegment"@, optional: true }], terminators: seq![], parse_mode: ParseMode::Strict }, GrammarView::Sequence { elements: seq![GrammarView::Keyword { word: "AS"@ }, GrammarView::Ref { name: "FunctionSegment"@, optional: false }], terminators: seq![], parse_mode: ParseMode::Strict }]);
    let g24: Vec<Grammar> = Vec::new();
    assert(views(g24@) =~= Seq::<GrammarView>::empty());
    let g25 = Grammar::one_of_with(g23, g24);
    let g26: Vec<Grammar> = vec![Grammar::reference("SingleIdentifierGrammar"), Grammar::reference("QuotedIdentifierSegment")];
    assert(views(g26@) =~~= seq![GrammarView::Ref { name: "SingleIdentifierGrammar"@, optional: false }, GrammarView::Ref { name: "QuotedIdentifierSegment"@, optional: false }]);
    let g27: Vec<Grammar> = Vec::new();
    assert(views(g27@) =~= Seq::<GrammarView>::empty());
    let g28 = Grammar::one_of_with(g26, g27);
    let g29: Vec<Grammar> = vec![Grammar::keyword("COMMENT"), g28];
    assert(views(g29@) =~~= seq![GrammarView::Keyword { word: "COMMENT"@ }, GrammarView::OneOf { elements: seq![GrammarView::Ref { name: "SingleIdentifierGrammar"@, optional: false }, GrammarView::Ref { name: "QuotedIdentifierSegment"@, optional: false }], terminators: seq![] }]);
    let g30: Vec<Grammar> = Vec::new();
    assert(views(g30@) =~= Seq::<GrammarView>::empty());
    let g31 = Grammar::sequence_with(g29, g30, ParseMode::Strict);
    let g32: Vec<Grammar> = vec![g31, Grammar::reference("TableTTLSegment")];
    assert(views(g32@) =~~= seq![GrammarView::Sequence { elements: seq![GrammarView::Keyword { word: "COMMENT"@ }, GrammarView::OneOf { elements: seq![GrammarView::Ref { name: "SingleIdentifierGrammar"@, optional: false }, GrammarView::Ref { name: "QuotedIdentifierSegment"@, optional: false }], terminators: seq![] }], terminators: seq![], parse_mode: ParseMode::Strict }, GrammarView::Ref { name: "TableTTLSegment"@, optional: false }]);
    let g33 = Grammar::any_set_of(g32);
    let g34 = g33.optional();
    let g35: Vec<Grammar> = vec![Grammar::keyword("CREATE"), Grammar::optional_reference("OrReplaceGrammar"), Grammar::keyword("TABLE"), Grammar::optional_reference("IfNotExistsGrammar"), Grammar::reference("TableReferenceSegment"), Grammar::optional_reference("OnClusterClauseSegment"), g25, g34, Grammar::optional_reference("TableEndClauseSegment")];
    assert(views(g35@) =~~= seq![GrammarView::Keyword { word: "CREATE"@ }, GrammarView::Ref { name: "OrReplaceGrammar"@, optional: true }, GrammarView::Keyword { word: "TABLE"@ }, GrammarView::Ref { name: "IfNotExistsGrammar"@, optional: true }, GrammarView::Ref { name: "TableReferenceSegment"@, optional: false }, GrammarView::Ref { name: "OnClusterClauseSegment"@, optional: true }, GrammarView::OneOf { elements: seq![GrammarView::Sequence { elements: seq![GrammarView::Optional { grammar: Box::new(GrammarView::Bracketed { elements: seq![GrammarView::Delimited { elements: seq![GrammarView::OneOf { elements: seq![GrammarView::Ref { name: "TableConstraintSegment"@, optional: false }, GrammarView::Ref { name: "ColumnDefinitionSegment"@, optional: false }, GrammarView::Ref { name: "ColumnConstraintSegment"@, optional: false }], terminators: seq![] }], allow_trailing: false, delimiter: None, terminators: seq![], allow_gaps: true }], bracket_type: "round"@ }) }, GrammarView::Ref { name: "TableEngineSegment"@, optional: false }, GrammarView::Optional { grammar: Box::new(GrammarView::Sequence { elements: seq![GrammarView::Keyword { word: "AS"@ }, GrammarView::Ref { name: "SelectableGrammar"@, optional: false }], terminators: seq![], parse_mode: ParseMode::Strict }) }], terminators: seq![], parse_mode: ParseMode::Strict }, GrammarView::Sequence { elements: seq![GrammarView::Keyword { word: "AS"@ }, GrammarView::Ref { name: "TableReferenceSegment"@, optional: false }, GrammarView::Ref { name: "TableEngineSegment"@, optional: true }], terminators: seq![], parse_mode: ParseMode::Strict }, GrammarView::Sequence { elements: seq![GrammarView::Keyword { word: "AS"@ }, GrammarView::Ref { name: "FunctionSegment"@, optional: false }], terminators: seq![], parse_mode: ParseMode::Strict }], terminators: seq![] }, GrammarView::Optional { grammar: Box::new(GrammarView::AnySetOf { elements: seq![GrammarView::Sequence { elements: seq![GrammarView::Keyword { word: "COMMENT"@ }, GrammarView::OneOf { elements: seq![GrammarView::Ref { name: "SingleIdentifierGrammar"@, optional: false }, GrammarView::Ref { name: "QuotedIdentifierSegment"@, optional: false }], terminators: seq![] }], terminators: seq![], parse_mode: ParseMode::Strict }, GrammarView::Ref { name: "TableTTLSegment"@, optional: false }] }) }, GrammarView::Ref { name: "TableEndClauseSegment"@, optional: true }]);
    let g36: Vec<Grammar> = Vec::new();
    assert(views(g36@) =~= Seq::<GrammarView>::empty());
    let g37 = Grammar::sequence_with(g35, g36, ParseMode::Strict);
    let g38: Vec<Grammar> = vec![Grammar::reference("TableConstraintSegment"), Grammar::reference("ColumnDefinitionSegment"), Grammar::reference("ColumnConstraintSegment")];
    assert(views(g38@) =~~= seq![GrammarView::Ref { name: "TableConstraintSegment"@, optional: false }, GrammarView::Ref { name: "ColumnDefinitionSegment"@, optional: false }, GrammarView::Ref { name: "ColumnConstraintSegment"@, optional: false }]);
    let g39: Vec<Grammar> = Vec::new();
    assert(views(g39@) =~= Seq::<GrammarView>::empty());
    let g40 = Grammar::one_of_with(g38, g39);
    let g41: Vec<Grammar> = vec![g40];
    assert(views(g41@) =~~= seq![GrammarView::OneOf { elements: seq![GrammarView::Ref { name: "TableConstraintSegment"@, optional: false }, GrammarView::Ref { name: "ColumnDefinitionSegment"@, optional: false }, GrammarView::Ref { name: "ColumnConstraintSegment"@, optional: false }], terminators: seq![] }]);
    let g42: Vec<Grammar> = Vec::new();
    assert(views(g42@) =~= Seq::<GrammarView>::empty());
    let g43 = Grammar::delimited_with(g41, false, None, g42, true);
    let g44: Vec<Grammar> = vec![g43];
    assert(views(g44@) =~~= seq![GrammarView::Delimited { elements: seq![GrammarView::OneOf { elements: seq![GrammarView::Ref { name: "TableConstraintSegment"@, optional: false }, GrammarView::Ref { name: "ColumnDefinitionSegment"@, optional: false }, GrammarView::Ref { name: "ColumnConstraintSegment"@, optional: false }], terminators: seq![] }], allow_trailing: false, delimiter: None, terminators: seq![], allow_gaps: true }]);
    let g45 = Grammar::bracketed_with(g44, "round");
    let g46 = g45.optional();
    let g47: Vec<Grammar> = vec![Grammar::keyword("AS"), Grammar::reference("SelectableGrammar")];
    assert(views(g47@) =~~= seq![GrammarView::Keyword { word: "AS"@ }, GrammarView::Ref { name: "SelectableGrammar"@, optional: false }]);
    let g48: Vec<Grammar> = Vec::new();
    assert(views(g48@) =~= Seq::<GrammarView>::empty());
    let g49 = Grammar::sequence_with(g47, g48, ParseMode::Strict);
    let g50 = g49.optional();
    let g51: Vec<Grammar> = vec![g46, Grammar::reference("TableEngineSegment"), g50];
    assert(views(g51@) =~~= seq![GrammarView::Optional { grammar: Box::new(GrammarView::Bracketed { elements: seq![GrammarView::Delimited { elements: seq![GrammarView::OneOf { elements: seq![GrammarView::Ref { name: "TableConstraintSegment"@, optional: false }, GrammarView::Ref { name: "ColumnDefinitionSegment"@, optional: false }, GrammarView::Ref { name: "ColumnConstraintSegment"@, optional: false }], terminators: seq![] }], allow_trailing: false, delimiter: None, terminators: seq![], allow_gaps: true }], bracket_type: "round"@ }) }, GrammarView::Ref { name: "TableEngineSegment"@, optional: false }, GrammarView::Optional { grammar: Box::new(GrammarView::Sequence { elements: seq![GrammarView::Keyword { word: "AS"@ }, GrammarView::Ref { name: "SelectableGrammar"@, optional: false }], terminators: seq![], parse_mode: ParseMode::Strict }) }]);
    let g52: Vec<Grammar> = Vec::new();
    assert(views(g52@) =~= Seq::<GrammarView>::empty());
    let g53 = Grammar::sequence_with(g51, g52, ParseMode::Strict);
    let g54: Vec<Grammar> = vec![Grammar::keyword("AS"), Grammar::reference("TableReferenceSegment"), Grammar::optional_reference("TableEngineSegment")];
    assert(views(g54@) =~~= seq![GrammarView::Keyword { word: "AS"@ }, GrammarView::Ref { name: "TableReferenceSegment"@, optional: false }, GrammarView::Ref { name: "TableEngineSegment"@, optional: true }]);
    let g55: Vec<Grammar> = Vec::new();
    assert(views(g55@) =~= Seq::<GrammarView>::empty());
    let g56 = Grammar::sequence_with(g54, g55, ParseMode::Strict);
    let g57: Vec<Grammar> = vec![Grammar::keyword("AS"), Grammar::reference("FunctionSegment")];
    assert(views(g57@) =~~= seq![GrammarView::Keyword { word: "AS"@ }, GrammarView::Ref { name: "FunctionSegment"@, optional: false }]);
    let g58: Vec<Grammar> = Vec::new();
    assert(views(g58@) =~= Seq::<GrammarView>::empty());
    let g59 = Grammar::sequence_with(g57, g58, ParseMode::Strict);
    let g60: Vec<Grammar> = vec![Grammar::keyword("AS"), Grammar::reference("SelectableGrammar")];
    assert(views(g60@) =~~= seq![GrammarView::Keyword { word: "AS"@ }, GrammarView::Ref { name: "SelectableGrammar"@, optional: false }]);
    let g61: Vec<Grammar> = Vec::new();
    assert(views(g61@) =~= Seq::<GrammarView>::empty());
    let g62 = Grammar::sequence_with(g60, g61, ParseMode::Strict);
    let g63: Vec<Grammar> = vec![g53, g56, g59, g62];
    assert(views(g63@) =~~= seq![GrammarView::Sequence { elements: seq![GrammarView::Optional { grammar: Box::new(GrammarView::Bracketed { elements: seq![GrammarView::Delimited { elements: seq![GrammarView::OneOf { elements: seq![GrammarView::Ref { name: "TableConstraintSegment"@, optional: false }, GrammarView::Ref { name: "ColumnDefinitionSegment"@, optional: false }, GrammarView::Ref { name: "ColumnConstraintSegment"@, optional: false }], terminators: seq![] }], allow_trailing: false, delimiter: None, terminators: seq![], allow_gaps: true }], bracket_type: "round"@ }) }, GrammarView::Ref { name: "TableEngineSegment"@, optional: false }, GrammarView::Optional { grammar: Box::new(GrammarView::Sequence { elements: seq![GrammarView::Keyword { word: "AS"@ }, GrammarView::Ref { name: "SelectableGrammar"@, optional: false }], terminators: seq![], parse_mode: ParseMode::Strict }) }], terminators: seq![], parse_mode: ParseMode::Strict }, GrammarView::Sequence { elements: seq![GrammarView::Keyword { word: "AS"@ }, GrammarView::Ref { name: "TableReferenceSegment"@, optional: false }, GrammarView::Ref { name: "TableEngineSegment"@, optional: true }], terminators: seq![], parse_mode: ParseMode::Strict }, GrammarView::Sequence { elements: seq![GrammarView::Keyword { word: "AS"@ }, GrammarView::Ref { name: "FunctionSegment"@, optional: false }], terminators: seq![], parse_mode: ParseMode::Strict }, GrammarView::Sequence { elements: seq![GrammarView::Keyword { word: "AS"@ }, GrammarView::Ref { name: "SelectableGrammar"@, optional: false }], terminators: seq![], parse_mode: ParseMode::Strict }]);
    let g64: Vec<Grammar> = Vec::new();
    assert(views(g64@) =~= Seq::<GrammarView>::empty());
    let g65 = Grammar::one_of_with(g63, g64);
    let g66: Vec<Grammar> = vec![Grammar::reference("SingleIdentifierGrammar"), Grammar::reference("QuotedIdentifierSegment")];
    assert(views(g66@) =~~= seq![GrammarView::Ref { name: "SingleIdentifierGrammar"@, optional: false }, GrammarView::Ref { name: "QuotedIdentifierSegment"@, optional: false }]);
    let g67: Vec<Grammar> = Vec::new();
    assert(views(g67@) =~= Seq::<GrammarView>::empty());
    let g68 = Grammar::one_of_with(g66, g67);
    let g69: Vec<Grammar> = vec![Grammar::keyword("COMMENT"), g68];
    assert(views(g69@) =~~= seq![GrammarView::Keyword { word: "COMMENT"@ }, GrammarView::OneOf { elements: seq![GrammarView::Ref { name: "SingleIdentifierGrammar"@, optional: false }, GrammarView::Ref { name: "QuotedIdentifierSegment"@, optional: false }], terminators: seq![] }]);
    let g70: Vec<Grammar> = Vec::new();
    assert(views(g70@) =~= Seq::<GrammarView>::empty());
    let g71 = Grammar::sequence_with(g69, g70, ParseMode::Strict);
    let g72: Vec<Grammar> = vec![g71, Grammar::reference("TableTTLSegment")];
    assert(views(g72@) =~~= seq![GrammarView::Sequence { elements: seq![GrammarView::Keyword { word: "COMMENT"@ }, GrammarView::OneOf { elements: seq![GrammarView::Ref { name: "SingleIdentifierGrammar"@, optional: false }, GrammarView::Ref { name: "QuotedIdentifierSegment"@, optional: false }], terminators: seq![] }], terminators: seq![], parse_mode: ParseMode::Strict }, GrammarView::Ref { name: "TableTTLSegment"@, optional: false }]);
    let g73 = Grammar::any_set_of(g72);
    let g74 = g73.optional();
    let g75: Vec<Grammar> = vec![Grammar::keyword("CREATE"), Grammar::keyword("TEMPORARY"), Grammar::keyword("TABLE"), Grammar::optional_reference("IfNotExistsGrammar"), Grammar::reference("TableReferenceSegment"), g65, g74, Grammar::optional_reference("TableEndClauseSegment")];
    assert(views(g75@) =~~= seq![GrammarView::Keyword { word: "CREATE"@ }, GrammarView::Keyword { word: "TEMPORARY"@ }, GrammarView::Keyword { word: "TABLE"@ }, GrammarView::Ref { name: "IfNotExistsGrammar"@, optional: true }, GrammarView::Ref { name: "TableReferenceSegment"@, optional: false }, GrammarView::OneOf { elements: seq![GrammarView::Sequence { elements: seq![GrammarView::Optional { grammar: Box::new(GrammarView::Bracketed { elements: seq![GrammarView::Delimited { elements: seq![GrammarView::OneOf { elements: seq![GrammarView::Ref { name: "TableConstraintSegment"@, optional: false }, GrammarView::Ref { name: "ColumnDefinitionSegment"@, optional: false }, GrammarView::Ref { name: "ColumnConstraintSegment"@, optional: false }], terminators: seq![] }], allow_trailing: false, delimiter: None, terminators: seq![], allow_gaps: true }], bracket_type: "round"@ }) }, GrammarView::Ref { name: "TableEngineSegment"@, optional: false }, GrammarView::Optional { grammar: Box::new(GrammarView::Sequence { elements: seq![GrammarView::Keyword { word: "AS"@ }, GrammarView::Ref { name: "SelectableGrammar"@, optional: false }], terminators: seq![], parse_mode: ParseMode::Strict }) }], terminators: seq![], parse_mode: ParseMode::Strict }, GrammarView::Sequence { elements: seq![GrammarView::Keyword { word: "AS"@ }, GrammarView::Ref { name: "TableReferenceSegment"@, optional: false }, GrammarView::Ref { name: "TableEngineSegment"@, optional: true }], terminators: seq![], parse_mode: ParseMode::Strict }, GrammarView::Sequence { elements: seq![GrammarView::Keyword { word: "AS"@ }, GrammarView::Ref { name: "FunctionSegment"@, optional: false }], terminators: seq![], parse_mode: ParseMode::Strict }, GrammarView::Sequence { elements: seq![GrammarView::Keyword { word: "AS"@ }, GrammarView::Ref { name: "SelectableGrammar"@, optional: false }], terminators: seq![], parse_mode: ParseMode::Strict }], terminators: seq![] }, GrammarView::Optional { grammar: Box::new(GrammarView::AnySetOf { elements: seq![GrammarView::Sequence { elements: seq![GrammarView::Keyword { word: "COMMENT"@ }, GrammarView::OneOf { elements: seq![GrammarView::Ref { name: "SingleIdentifierGrammar"@, optional: false }, GrammarView::Ref { name: "QuotedIdentifierSegment"@, optional: false }], terminators: seq![] }], terminators: seq![], parse_mode: ParseMode::Strict }, GrammarView::Ref { name: "TableTTLSegment"@, optional: false }] }) }, GrammarView::Ref { name: "TableEndClauseSegment"@, optional: true }]);
    let g76: Vec<Grammar> = Vec::new();
    assert(views(g76@) =~= Seq::<GrammarView>::empty());
    let g77 = Grammar::sequence_with(g75, g76, ParseMode::Strict);
    let g78: Vec<Grammar> = vec![g37, g77];
    assert(views(g78@) =~~= seq![GrammarView::Sequence { elements: seq![GrammarView::Keyword { word: "CREATE"@ }, GrammarView::Ref { name: "OrReplaceGrammar"@, optional: true }, GrammarView::Keyword { word: "TABLE"@ }, GrammarView::Ref { name: "IfNotExistsGrammar"@, optional: true }, GrammarView::Ref { name: "TableReferenceSegment"@, optional: false }, GrammarView::Ref { name: "OnClusterClauseSegment"@, optional: true }, GrammarView::OneOf { elements: seq![GrammarView::Sequence { elements: seq![GrammarView::Optional { grammar: Box::new(GrammarView::Bracketed { elements: seq![GrammarView::Delimited { elements: seq![GrammarView::OneOf { elements: seq![GrammarView::Ref { name: "TableConstraintSegment"@, optional: false }, GrammarView::Ref { name: "ColumnDefinitionSegment"@, optional: false }, GrammarView::Ref { name: "ColumnConstraintSegment"@, optional: false }], terminators: seq![] }], allow_trailing: false, delimiter: None, terminators: seq![], allow_gaps: true }], bracket_type: "round"@ }) }, GrammarView::Ref { name: "TableEngineSegment"@, optional: false }, GrammarView::Optional { grammar: Box::new(GrammarView::Sequence { elements: seq![GrammarView::Keyword { word: "AS"@ }, GrammarView::Ref { name: "SelectableGrammar"@, optional: false }], terminators: seq![], parse_mode: ParseMode::Strict }) }], terminators: seq![], parse_mode: ParseMode::Strict }, GrammarView::Sequence { elements: seq![GrammarView::Keyword { word: "AS"@ }, GrammarView::Ref { name: "TableReferenceSegment"@, optional: false }, GrammarView::Ref { name: "TableEngineSegment"@, optional: true }], terminators: seq![], parse_mode: ParseMode::Strict }, GrammarView::Sequence { elements: seq![GrammarView::Keyword { word: "AS"@ }, GrammarView::Ref { name: "FunctionSegment"@, optional: false }], terminators: seq![], parse_mode: ParseMode::Strict }], terminators: seq![] }, GrammarView::Optional { grammar: Box::new(GrammarView::AnySetOf { elements: seq![GrammarView::Sequence { elements: seq![GrammarView::Keyword { word: "COMMENT"@ }, GrammarView::OneOf { elements: seq![GrammarView::Ref { name: "SingleIdentifierGrammar"@, optional: false }, GrammarView::Ref { name: "QuotedIdentifierSegment"@, optional: false }], terminators: seq![] }], terminators: seq![], parse_mode: ParseMode::Strict }, GrammarView::Ref { name: "TableTTLSegment"@, optional: false }] }) }, GrammarView::Ref { name: "TableEndClauseSegment"@, optional: true }], terminators: seq![], parse_mode: ParseMode::Strict }, GrammarView::Sequence { elements: seq![GrammarView::Keyword { word: "CREATE"@ }, GrammarView::Keyword { word: "TEMPORARY"@ }, GrammarView::Keyword { word: "TABLE"@ }, GrammarView::Ref { name: "IfNotExistsGrammar"@, optional: true }, GrammarView::Ref { name: "TableReferenceSegment"@, optional: false }, GrammarView::OneOf { elements: seq![GrammarView::Sequence { elements: seq![GrammarView::Optional { grammar: Box::new(GrammarView::Bracketed { elements: seq![GrammarView::Delimited { elements: seq![GrammarView::OneOf { elements: seq![GrammarView::Ref { name: "TableConstraintSegment"@, optional: false }, GrammarView::Ref { name: "ColumnDefinitionSegment"@, optional: false }, GrammarView::Ref { name: "ColumnConstraintSegment"@, optional: false }], terminators: seq![] }], allow_trailing: false, delimiter: None, terminators: seq![], allow_gaps: true }], bracket_type: "round"@ }) }, GrammarView::Ref { name: "TableEngineSegment"@, optional: false }, GrammarView::Optional { grammar: Box::new(GrammarView::Sequence { elements: seq![GrammarView::Keyword { word: "AS"@ }, GrammarView::Ref { name: "SelectableGrammar"@, optional: false }], terminators: seq![], parse_mode: ParseMode::Strict }) }], terminators: seq![], parse_mode: ParseMode::Strict }, GrammarView::Sequence { elements: seq![GrammarView::Keyword { word: "AS"@ }, GrammarView::Ref { name: "TableReferenceSegment"@, optional: false }, GrammarView::Ref { name: "TableEngineSegment"@, optional: true }], terminators: seq![], parse_mode: ParseMode::Strict }, GrammarView::Sequence { elements: seq![GrammarView::Keyword { word: "AS"@ }, GrammarView::Ref { name: "FunctionSegment"@, optional: false }], terminators: seq![], parse_mode: ParseMode::Strict }, GrammarView::Sequence { elements: seq![GrammarView::Keyword { word: "AS"@ }, GrammarView::Ref { name: "SelectableGrammar"@, optional: false }], terminators: seq![], parse_mode: ParseMode::Strict }], terminators: seq![] }, GrammarView::Optional { grammar: Box::new(GrammarView::AnySetOf { elements: seq![GrammarView::Sequence { elements: seq![GrammarView::Keyword { word: "COMMENT"@ }, GrammarView::OneOf { elements: seq![GrammarView::Ref { name: "SingleIdentifierGrammar"@, optional: false }, GrammarView::Ref { name: "QuotedIdentifierSegment"@, optional: false }], terminators: seq![] }], terminators: seq![], parse_mode: ParseMode::Strict }, GrammarView::Ref { name: "TableTTLSegment"@, optional: false }] }) }, GrammarView::Ref { name: "TableEndClauseSegment"@, optional: true }], terminators: seq![], parse_mode: ParseMode::Strict }]);
    let g79: Vec<Grammar> = Vec::new();
    assert(views(g79@) =~= Seq::<GrammarView>::empty());
    let g80 = Grammar::one_of_with(g78, g79);
    g80
}

/// The ClickHouse element `CreateMaterializedViewStatementSegment`.
pub open spec fn create_materialized_view_statement_segment_element() -> ElementView {
    ElementView::Node { kind: "create_materialized_view_statement"@, grammar: GrammarView::Sequence { elements: seq![GrammarView::Keyword { word: "CREATE"@ }, GrammarView::Keyword { word: "MATERIALIZED"@ }, GrammarView::Keyword { word: "VIEW"@ }, GrammarView::Ref { name: "IfNotExistsGrammar"@, optional: true }, GrammarView::Ref { name: "TableReferenceSegment"@, optional: false }, GrammarView::Ref { name: "OnClusterClauseSegment"@, optional: true }, GrammarView::OneOf { elements: seq![GrammarView::Sequence { elements: seq![GrammarView::Keyword { word: "TO"@ }, GrammarView::Ref { name: "TableReferenceSegment"@, optional: false }, GrammarView::Optional { grammar: Box::new(GrammarView::Bracketed { elements: seq![GrammarView::Delimited { elements: seq![GrammarView::Ref { name: "SingleIdentifierGrammar"@, optional: false }], allow_trailing: false, delimiter: None, terminators: seq![], allow_gaps: true }], bracket_type: "round"@ }) }, GrammarView::Ref { name: "TableEngineSegment"@, optional: true }], terminators: seq![], parse_mode: ParseMode::Strict }, GrammarView::Sequence { elements: seq![GrammarView::Ref { name: "TableEngineSegment"@, optional: true }, GrammarView::Optional { grammar: Box::new(GrammarView::Sequence { elements: seq![GrammarView::Keyword { word: "PARTITION"@ }, GrammarView::Keyword { word: "BY"@ }, GrammarView::Ref { name: "ExpressionSegment"@, optional: false }], terminators: seq![], parse_mode: ParseMode::Strict }) }, GrammarView::Ref { name: "MergeTreesOrderByClauseSegment"@, optional: true }, GrammarView::Ref { name: "TableTTLSegment"@, optional: true }, GrammarView::Ref { name: "SettingsClauseSegment"@, optional: true }, GrammarView::Optional { grammar: Box::new(GrammarView::Keyword { word: "POPULATE"@ }) }], terminators: seq![], parse_mode: ParseMode::Strict }], terminators: seq![] }, GrammarView::Keyword { word: "AS"@ }, GrammarView::Ref { name: "SelectableGrammar"@, optional: false }, GrammarView::Ref { name: "TableEndClauseSegment"@, optional: true }], terminators: seq![], parse_mode: ParseMode::Strict } }
}

fn build_create_materialized_view_statement_segment() -> (e: Element)
    ensures
        e@ =~~= create_materialized_view_statement_segment_element(),
{
    let g1: Vec<Grammar> = vec![Grammar::reference("SingleIdentifierGrammar")];
    assert(views(g1@) =~~= seq![GrammarView::Ref { name: "SingleIdentifierGrammar"@, optional: false }]);
    let g2: Vec<Grammar> = Vec::new();
    assert(views(g2@) =~= Seq::<GrammarView>::empty());
    let g3 = Grammar::delimited_with(g1, false, None, g2, true);
    let g4: Vec<Grammar> = vec![g3];
    assert(views(g4@) =~~= seq![GrammarView::Delimited { elements: seq![GrammarView::Ref { name: "SingleIdentifierGrammar"@, optional: false }], allow_trailing: false, delimiter: None, terminators: seq![], allow_gaps: true }]);
    let g5 = Grammar::bracketed_with(g4, "round");
    let g6 = g5.optional();
    let g7: Vec<Grammar> = vec![Grammar::keyword("TO"), Grammar::reference("TableReferenceSegment"), g6, Grammar::optional_reference("TableEngineSegment")];
    assert(views(g7@) =~~= seq![GrammarView::Keyword { word: "TO"@ }, GrammarView::Ref { name: "TableReferenceSegment"@, optional: false }, GrammarView::Optional { grammar: Box::new(GrammarView::Bracketed { elements: seq![GrammarView::Delimited { elements: seq![GrammarView::Ref { name: "SingleIdentifierGrammar"@, optional: false }], allow_trailing: false, delimiter: None, terminators: seq![], allow_gaps: true }], bracket_type: "round"@ }) }, GrammarView::Ref { name: "TableEngineSegment"@, optional: true }]);
    let g8: Vec<Grammar> = Vec::new();
    assert(views(g8@) =~= Seq::<GrammarView>::empty());
    let g9 = Grammar::sequence_with(g7, g8, ParseMode::Strict);
    let g10: Vec<Grammar> = vec![Grammar::keyword("PARTITION"), Grammar::keyword("BY"), Grammar::reference("ExpressionSegment")];
    assert(views(g10@) =~~= seq![GrammarView::Keyword { word: "PARTITION"@ }, GrammarView::Keyword { word: "BY"@ }, GrammarView::Ref { name: "ExpressionSegment"@, optional: false }]);
    let g11: Vec<Grammar> = Vec::new();
    assert(views(g11@) =~= Seq::<GrammarView>::empty());
    let g12 = Grammar::sequence_with(g10, g11, ParseMode::Strict);
    let g13 = g12.optional();
    let g14 = Grammar::keyword("POPULATE").optional();
    let g15: Vec<Grammar> = vec![Grammar::optional_reference("TableEngineSegment"), g13, Grammar::optional_reference("MergeTreesOrderByClauseSegment"), Grammar::optional_reference("TableTTLSegment"), Grammar::optional_reference("SettingsClauseSegment"), g14];
    assert(views(g15@) =~~= seq![GrammarView::Ref { name: "TableEngineSegment"@, optional: true }, GrammarView::Optional { grammar: Box::new(GrammarView::Sequence { elements: seq![GrammarView::Keyword { word: "PARTITION"@ }, GrammarView::Keyword { word: "BY"@ }, GrammarView::Ref { name: "ExpressionSegment"@, optional: false }], terminators: seq![], parse_mode: ParseMode::Strict }) }, GrammarView::Ref { name: "MergeTreesOrderByClauseSegment"@, optional: true }, GrammarView::Ref { name: "TableTTLSegment"@, optional: true }, GrammarView::Ref { name: "SettingsClauseSegment"@, optional: true }, GrammarView::Optional { grammar: Box::new(GrammarView::Keyword { word: "POPULATE"@ }) }]);
    let g16: Vec<Grammar> = Vec::new();
    assert(views(g16@) =~= Seq::<GrammarView>::empty());
    let g17 = Grammar::sequence_with(g15, g16, ParseMode::Strict);
    let g18: Vec<Grammar> = vec![g9, g17];
    assert(views(g18@) =~~= seq![GrammarView::Sequence { elements: seq![GrammarView::Keyword { word: "TO"@ }, GrammarView::Ref { name: "TableReferenceSegment"@, optional: false }, GrammarView::Optional { grammar: Box::new(GrammarView::Bracketed { elements: seq![GrammarView::Delimited { elements: seq![GrammarView::Ref { name: "SingleIdentifierGrammar"@, optional: false }], allow_trailing: false, delimiter: None, terminators: seq![], allow_gaps: true }], bracket_type: "round"@ }) }, GrammarView::Ref { name: "TableEngineSegment"@, optional: true }], terminators: seq![], parse_mode: ParseMode::Strict }, GrammarView::Sequence { elements: seq![GrammarView::Ref { name: "TableEngineSegment"@, optional: true }, GrammarView::Optional { grammar: Box::new(GrammarView::Sequence { elements: seq![GrammarView::Keyword { word: "PARTITION"@ }, GrammarView::Keyword { word: "BY"@ }, GrammarView::Ref { name: "ExpressionSegment"@, optional: false }], terminators: seq![], parse_mode: ParseMode::Strict }) }, GrammarView::Ref { name: "MergeTreesOrderByClauseSegment"@, optional: true }, GrammarView::Ref { name: "TableTTLSegment"@, optional: true }, GrammarView::Ref { name: "SettingsClauseSegment"@, optional: true }, GrammarView::Optional { grammar: Box::new(GrammarView::Keyword { word: "POPULATE"@ }) }], terminators: seq![], parse_mode: ParseMode::Strict }]);
    let g19: Vec<Grammar> = Vec::new();
    assert(views(g19@) =~= Seq::<GrammarView>::empty());
    let g20 = Grammar::one_of_with(g18, g19);
    let g21: Vec<Grammar> = vec![Grammar::keyword("CREATE"), Grammar::keyword("MATERIALIZED"), Grammar::keyword("VIEW"), Grammar::optional_reference("IfNotExistsGrammar"), Grammar::reference("TableReferenceSegment"), Grammar::optional_reference("OnClusterClauseSegment"), g20, Grammar::keyword("AS"), Grammar::reference("SelectableGrammar"), Grammar::optional_reference("TableEndClauseSegment")];
    assert(views(g21@) =~~= seq![GrammarView::Keyword { word: "CREATE"@ }, GrammarView::Keyword { word: "MATERIALIZED"@ }, GrammarView::Keyword { word: "VIEW"@ }, GrammarView::Ref { name: "IfNotExistsGrammar"@, optional: true }, GrammarView::Ref { name: "TableReferenceSegment"@, optional: false }, GrammarView::Ref { name: "OnClusterClauseSegment"@, optional: true }, GrammarView::OneOf { elements: seq![GrammarView::Sequence { elements: seq![GrammarView::Keyword { word: "TO"@ }, GrammarView::Ref { name: "TableReferenceSegment"@, optional: false }, GrammarView::Optional { grammar: Box::new(GrammarView::Bracketed { elements: seq![GrammarView::Delimited { elements: seq![GrammarView::Ref { name: "SingleIdentifierGrammar"@, optional: false }], allow_trailing: false, delimiter: None, terminators: seq![], allow_gaps: true }], bracket_type: "round"@ }) }, GrammarView::Ref { name: "TableEngineSegment"@, optional: true }], terminators: seq![], parse_mode: ParseMode::Strict }, GrammarView::Sequence { elements: seq![GrammarView::Ref { name: "TableEngineSegment"@, optional: true }, GrammarView::Optional { grammar: Box::new(GrammarView::Sequence { elements: seq![GrammarView::Keyword { word: "PARTITION"@ }, GrammarView::Keyword { word: "BY"@ }, GrammarView::Ref { name: "ExpressionSegment"@, optional: false }], terminators: seq![], parse_mode: ParseMode::Strict }) }, GrammarView::Ref { name: "MergeTreesOrderByClauseSegment"@, optional: true }, GrammarView::Ref { name: "TableTTLSegment"@, optional: true }, GrammarView::Ref { name: "SettingsClauseSegment"@, optional: true }, GrammarView::Optional { grammar: Box::new(GrammarView::Keyword { word: "POPULATE"@ }) }], terminators: seq![], parse_mode: ParseMode::Strict }], terminators: seq![] }, GrammarView::Keyword { word: "AS"@ }, GrammarView::Ref { name: "SelectableGrammar"@, optional: false }, GrammarView::Ref { name: "TableEndClauseSegment"@, optional: true }]);
    let g22: Vec<Grammar> = Vec::new();
    assert(views(g22@) =~= Seq::<GrammarView>::empty());
    let g23 = Grammar::sequence_with(g21, g22, ParseMode::Strict);
    Element::Node { kind: "create_materialized_view_statement", grammar: g23 }
}

/// The ClickHouse grammar of `DropTableStatementSegment`.
pub open spec fn drop_table_statement_segment_grammar() -> GrammarView {
    GrammarView::Sequence { elements: seq![GrammarView::Keyword { word: "DROP"@ }, GrammarView::Optional { grammar: Box::new(GrammarView::Keyword { word: "TEMPORARY"@ }) }, GrammarView::Keyword { word: "TABLE"@ }, GrammarView::Ref { name: "IfExistsGrammar"@, optional: true }, GrammarView::Ref { name: "TableReferenceSegment"@, optional: false }, GrammarView::Ref { name: "OnClusterClauseSegment"@, optional: true }, GrammarView::Optional { grammar: Box::new(GrammarView::Keyword { word: "SYNC"@ }) }], terminators: seq![], parse_mode: ParseMode::Strict }
}

fn build_drop_table_statement_segment() -> (g: Grammar)
    ensures
        g@ =~~= drop_table_statement_segment_grammar(),
{
    let g1 = Grammar::keyword("TEMPORARY").optional();
    let g2 = Grammar::keyword("SYNC").optional();
    let g3: Vec<Grammar> = vec![Grammar::keyword("DROP"), g1, Grammar::keyword("TABLE"), Grammar::optional_reference("IfExistsGrammar"), Grammar::reference("TableReferenceSegment"), Grammar::optional_reference("OnClusterClauseSegment"), g2];
    assert(views(g3@) =~~= seq![GrammarView::Keyword { word: "DROP"@ }, GrammarView::Optional { grammar: Box::new(GrammarView::Keyword { word: "TEMPORARY"@ }) }, GrammarView::Keyword { word: "TABLE"@ }, GrammarView::Ref { name: "IfExistsGrammar"@, optional: true }, GrammarView::Ref { name: "TableReferenceSegment"@, optional: false }, GrammarView::Ref { name: "OnClusterClauseSegment"@, optional: true }, GrammarView::Optional { grammar: Box::new(GrammarView::Keyword { word: "SYNC"@ }) }]);
    let g4: Vec<Grammar> = Vec::new();
    assert(views(g4@) =~= Seq::<GrammarView>::empty());
    let g5 = Grammar::sequence_with(g3, g4, ParseMode::Strict);
    g5
}

/// The ClickHouse grammar of `DropDatabaseStatementSegment`.
pub open spec fn drop_database_statement_segment_grammar() -> GrammarView {
    GrammarView::Sequence { elements: seq![GrammarView::Keyword { word: "DROP"@ }, GrammarView::Keyword { word: "DATABASE"@ }, GrammarView::Ref { name: "IfExistsGrammar"@, optional: true }, GrammarView::Ref { name: "DatabaseReferenceSegment"@, optional: false }, GrammarView::Ref { name: "OnClusterClauseSegment"@, optional: true }, GrammarView::Optional { grammar: Box::new(GrammarView::Keyword { word: "SYNC"@ }) }], terminators: seq![], parse_mode: ParseMode::Strict }
}

fn build_drop_database_statement_segment() -> (g: Grammar)
    ensures
        g@ =~~= drop_database_statement_segment_grammar(),
{
    let g1 = Grammar::keyword("SYNC").optional();
    let g2: Vec<Grammar> = vec![Grammar::keyword("DROP"), Grammar::keyword("DATABASE"), Grammar::optional_reference("IfExistsGrammar"), Grammar::reference("DatabaseReferenceSegment"), Grammar::optional_reference("OnClusterClauseSegment"), g1];
    assert(views(g2@) =~~= seq![GrammarView::Keyword { word: "DROP"@ }, GrammarView::Keyword { word: "DATABASE"@ }, GrammarView::Ref { name: "IfExistsGrammar"@, optional: true }, GrammarView::Ref { name: "DatabaseReferenceSegment"@, optional: false }, GrammarView::Ref { name: "OnClusterClauseSegment"@, optional: true }, GrammarView::Optional { grammar: Box::new(GrammarView::Keyword { word: "SYNC"@ }) }]);
    let g3: Vec<Grammar> = Vec::new();
    assert(views(g3@) =~= Seq::<GrammarView>::empty());
    let g4 = Grammar::sequence_with(g2, g3, ParseMode::Strict);
    g4
}

/// The ClickHouse element `DropDictionaryStatementSegment`.
pub open spec fn drop_dictionary_statement_segment_element() -> ElementView {
    ElementView::Node { kind: "drop_dictionary_statement"@, grammar: GrammarView::Sequence { elements: seq![GrammarView::Keyword { word: "DROP"@ }, GrammarView::Keyword { word: "DICTIONARY"@ }, GrammarView::Ref { name: "IfExistsGrammar"@, optional: true }, GrammarView::Ref { name: "SingleIdentifierGrammar"@, optional: false }, GrammarView::Optional { grammar: Box::new(GrammarView::Keyword { word: "SYNC"@ }) }], terminators: seq![], parse_mode: ParseMode::Strict } }
}

fn build_drop_dictionary_statement_segment() -> (e: Element)
    ensures
        e@ =~~= drop_dictionary_statement_segment_element(),
{
    let g1 = Grammar::keyword("SYNC").optional();
    let g2: Vec<Grammar> = vec![Grammar::keyword("DROP"), Grammar::keyword("DICTIONARY"), Grammar::optional_reference("IfExistsGrammar"), Grammar::reference("SingleIdentifierGrammar"), g1];
    assert(views(g2@) =~~= seq![GrammarView::Keyword { word: "DROP"@ }, GrammarView::Keyword { word: "DICTIONARY"@ }, GrammarView::Ref { name: "IfExistsGrammar"@, optional: true }, GrammarView::Ref { name: "SingleIdentifierGrammar"@, optional: false }, GrammarView::Optional { grammar: Box::new(GrammarView::Keyword { word: "SYNC"@ }) }]);
    let g3: Vec<Grammar> = Vec::new();
    assert(views(g3@) =~= Seq::<GrammarView>::empty());
    let g4 = Grammar::sequence_with(g2, g3, ParseMode::Strict);
    Element::Node { kind: "drop_dictionary_statement", grammar: g4 }
}

/// The ClickHouse grammar of `DropUserStatementSegment`.
pub open spec fn drop_user_statement_segment_grammar() -> GrammarView {
    GrammarView::Sequence { elements: seq![GrammarView::Keyword { word: "DROP"@ }, GrammarView::Keyword { word: "USER"@ }, GrammarView::Ref { name: "IfExistsGrammar"@, optional: true }, GrammarView::Ref { name: "SingleIdentifierGrammar"@, optional: false }, GrammarView::Ref { name: "OnClusterClauseSegment"@, optional: true }], terminators: seq![], parse_mode: ParseMode::Strict }
}

fn build_drop_user_statement_segment() -> (g: Grammar)
    ensures
        g@ =~~= drop_user_statement_segment_grammar(),
{
    let g1: Vec<Grammar> = vec![Grammar::keyword("DROP"), Grammar::keyword("USER"), Grammar::optional_reference("IfExistsGrammar"), Grammar::reference("SingleIdentifierGrammar"), Grammar::optional_reference("OnClusterClauseSegment")];
    assert(views(g1@) =~~= seq![GrammarView::Keyword { word: "DROP"@ }, GrammarView::Keyword { word: "USER"@ }, GrammarView::Ref { name: "IfExistsGrammar"@, optional: true }, GrammarView::Ref { name: "SingleIdentifierGrammar"@, optional: false }, GrammarView::Ref { name: "OnClusterClauseSegment"@, optional: true }]);
    let g2: Vec<Grammar> = Vec::new();
    assert(views(g2@) =~= Seq::<GrammarView>::empty());
    let g3 = Grammar::sequence_with(g1, g2, ParseMode::Strict);
    g3
}

/// The ClickHouse grammar of `DropRoleStatementSegment`.
pub open spec fn drop_role_statement_segment_grammar() -> GrammarView {
    GrammarView::Sequence { elements: seq![GrammarView::Keyword { word: "DROP"@ }, GrammarView::Keyword { word: "ROLE"@ }, GrammarView::Ref { name: "IfExistsGrammar"@, optional: true }, GrammarView::Ref { name: "SingleIdentifierGrammar"@, optional: false }, GrammarView::Ref { name: "OnClusterClauseSegment"@, optional: true }], terminators: seq![], parse_mode: ParseMode::Strict }
}

fn build_drop_role_statement_segment() -> (g: Grammar)
    ensures
        g@ =~~= drop_role_statement_segment_grammar(),
{
    let g1: Vec<Grammar> = vec![Grammar::keyword("DROP"), Grammar::keyword("ROLE"), Grammar::optional_reference("IfExistsGrammar"), Grammar::reference("SingleIdentifierGrammar"), Grammar::optional_reference("OnClusterClauseSegment")];
    assert(views(g1@) =~~= seq![GrammarView::Keyword { word: "DROP"@ }, GrammarView::Keyword { word: "ROLE"@ }, GrammarView::Ref { name: "IfExistsGrammar"@, optional: true }, GrammarView::Ref { name: "SingleIdentifierGrammar"@, optional: false }, GrammarView::Ref { name: "OnClusterClauseSegment"@, optional: true }]);
    let g2: Vec<Grammar> = Vec::new();
    assert(views(g2@) =~= Seq::<GrammarView>::empty());
    let g3 = Grammar::sequence_with(g1, g2, ParseMode::Strict);
    g3
}

/// The ClickHouse element `DropQuotaStatementSegment`.
pub open spec fn drop_quota_statement_segment_element() -> ElementView {
    ElementView::Node { kind: "drop_quota_statement"@, grammar: GrammarView::Sequence { elements: seq![GrammarView::Keyword { word: "DROP"@ }, GrammarView::Keyword { word: "QUOTA"@ }, GrammarView::Ref { name: "IfExistsGrammar"@, optional: true }, GrammarView::Ref { name: "SingleIdentifierGrammar"@, optional: false }, GrammarView::Ref { name: "OnClusterClauseSegment"@, optional: true }], terminators: seq![], parse_mode: ParseMode::Strict } }
}

fn build_drop_quota_statement_segment() -> (e: Element)
    ensures
        e@ =~~= drop_quota_statement_segment_element(),
{
    let g1: Vec<Grammar> = vec![Grammar::keyword("DROP"), Grammar::keyword("QUOTA"), Grammar::optional_reference("IfExistsGrammar"), Grammar::reference("SingleIdentifierGrammar"), Grammar::optional_reference("OnClusterClauseSegment")];
    assert(views(g1@) =~~= seq![GrammarView::Keyword { word: "DROP"@ }, GrammarView::Keyword { word: "QUOTA"@ }, GrammarView::Ref { name: "IfExistsGrammar"@, optional: true }, GrammarView::Ref { name: "SingleIdentifierGrammar"@, optional: false }, GrammarView::Ref { name: "OnClusterClauseSegment"@, optional: true }]);
    let g2: Vec<Grammar> = Vec::new();
    assert(views(g2@) =~= Seq::<GrammarView>::empty());
    let g3 = Grammar::sequence_with(g1, g2, ParseMode::Strict);
    Element::Node { kind: "drop_quota_statement", grammar: g3 }
}

/// The ClickHouse grammar of `DropViewStatementSegment`.
pub open spec fn drop_view_statement_segment_grammar() -> GrammarView {
    GrammarView::Sequence { elements: seq![GrammarView::Keyword { word: "DROP"@ }, GrammarView::Keyword { word: "VIEW"@ }, GrammarView::Ref { name: "IfExistsGrammar"@, optional: true }, GrammarView::Ref { name: "TableReferenceSegment"@, optional: false }, GrammarView::Ref { name: "OnClusterClauseSegment"@, optional: true }, GrammarView::Optional { grammar: Box::new(GrammarView::Keyword { word: "SYNC"@ }) }], terminators: seq![], parse_mode: ParseMode::Strict }
}

fn build_drop_view_statement_segment() -> (g: Grammar)
    ensures
        g@ =~~= drop_view_statement_segment_grammar(),
{
    let g1 = Grammar::keyword("SYNC").optional();
    let g2: Vec<Grammar> = vec![Grammar::keyword("DROP"), Grammar::keyword("VIEW"), Grammar::optional_reference("IfExistsGrammar"), Grammar::reference("TableReferenceSegment"), Grammar::optional_reference("OnClusterClauseSegment"), g1];
    assert(views(g2@) =~~= seq![GrammarView::Keyword { word: "DROP"@ }, GrammarView::Keyword { word: "VIEW"@ }, GrammarView::Ref { name: "IfExistsGrammar"@, optional: true }, GrammarView::Ref { name: "TableReferenceSegment"@, optional: false }, GrammarView::Ref { name: "OnClusterClauseSegment"@, optional: true }, GrammarView::Optional { grammar: Box::new(GrammarView::Keyword { word: "SYNC"@ }) }]);
    let g3: Vec<Grammar> = Vec::new();
    assert(views(g3@) =~= Seq::<GrammarView>::empty());
    let g4 = Grammar::sequence_with(g2, g3, ParseMode::Strict);
    g4
}

/// The ClickHouse grammar of `DropFunctionStatementSegment`.
pub open spec fn drop_function_statement_segment_grammar() -> GrammarView {
    GrammarView::Sequence { elements: seq![GrammarView::Keyword { word: "DROP"@ }, GrammarView::Keyword { word: "FUNCTION"@ }, GrammarView::Ref { name: "IfExistsGrammar"@, optional: true }, GrammarView::Ref { name: "SingleIdentifierGrammar"@, optional: false }, GrammarView::Ref { name: "OnClusterClauseSegment"@, optional: true }], terminators: seq![], parse_mode: ParseMode::Strict }
}

fn build_drop_function_statement_segment() -> (g: Grammar)
    ensures
        g@ =~~= drop_function_statement_segment_grammar(),
{
    let g1: Vec<Grammar> = vec![Grammar::keyword("DROP"), Grammar::keyword("FUNCTION"), Grammar::optional_reference("IfExistsGrammar"), Grammar::reference("SingleIdentifierGrammar"), Grammar::optional_reference("OnClusterClauseSegment")];
    assert(views(g1@) =~~= seq![GrammarView::Keyword { word: "DROP"@ }, GrammarView::Keyword { word: "FUNCTION"@ }, GrammarView::Ref { name: "IfExistsGrammar"@, optional: true }, GrammarView::Ref { name: "SingleIdentifierGrammar"@, optional: false }, GrammarView::Ref { name: "OnClusterClauseSegment"@, optional: true }]);
    let g2: Vec<Grammar> = Vec::new();
    assert(views(g2@) =~= Seq::<GrammarView>::empty());
    let g3 = Grammar::sequence_with(g1, g2, ParseMode::Strict);
    g3
}

/// The ClickHouse element `SystemMergesSegment`.
pub open spec fn system_merges_segment_element() -> ElementView {
    ElementView::Node { kind: "system_merges_segment"@, grammar: GrammarView::Sequence { elements: seq![GrammarView::OneOf { elements: seq![GrammarView::Keyword { word: "START"@ }, GrammarView::Keyword { word: "STOP"@ }], terminators: seq![] }, GrammarView::Keyword { word: "MERGES"@ }, GrammarView::OneOf { elements: seq![GrammarView::Sequence { elements: seq![GrammarView::Keyword { word: "ON"@ }, GrammarView::Keyword { word: "VOLUME"@ }, GrammarView::Ref { name: "ObjectReferenceSegment"@, optional: false }], terminators: seq![], parse_mode: ParseMode::Strict }, GrammarView::Ref { name: "TableReferenceSegment"@, optional: false }], terminators: seq![] }], terminators: seq![], parse_mode: ParseMode::Strict } }
}

fn build_system_merges_segment() -> (e: Element)
    ensures
        e@ =~~= system_merges_segment_element(),
{
    let g1: Vec<Grammar> = vec![Grammar::keyword("START"), Grammar::keyword("STOP")];
    assert(views(g1@) =~~= seq![GrammarView::Keyword { word: "START"@ }, GrammarView::Keyword { word: "STOP"@ }]);
    let g2: Vec<Grammar> = Vec::new();
    assert(views(g2@) =~= Seq::<GrammarView>::empty());
    let g3 = Grammar::one_of_with(g1, g2);
    let g4: Vec<Grammar> = vec![Grammar::keyword("ON"), Grammar::keyword("VOLUME"), Grammar::reference("ObjectReferenceSegment")];
    assert(views(g4@) =~~= seq![GrammarView::Keyword { word: "ON"@ }, GrammarView::Keyword { word: "VOLUME"@ }, GrammarView::Ref { name: "ObjectReferenceSegment"@, optional: false }]);
    let g5: Vec<Grammar> = Vec::new();
    assert(views(g5@) =~= Seq::<GrammarView>::empty());
    let g6 = Grammar::sequence_with(g4, g5, ParseMode::Strict);
    let g7: Vec<Grammar> = vec![g6, Grammar::reference("TableReferenceSegment")];
    assert(views(g7@) =~~= seq![GrammarView::Sequence { elements: seq![GrammarView::Keyword { word: "ON"@ }, GrammarView::Keyword { word: "VOLUME"@ }, GrammarView::Ref { name: "ObjectReferenceSegment"@, optional: false }], terminators: seq![], parse_mode: ParseMode::Strict }, GrammarView::Ref { name: "TableReferenceSegment"@, optional: false }]);
    let g8: Vec<Grammar> = Vec::new();
    assert(views(g8@) =~= Seq::<GrammarView>::empty());
    let g9 = Grammar::one_of_with(g7, g8);
    let g10: Vec<Grammar> = vec![g3, Grammar::keyword("MERGES"), g9];
    assert(views(g10@) =~~= seq![GrammarView::OneOf { elements: seq![GrammarView::Keyword { word: "START"@ }, GrammarView::Keyword { word: "STOP"@ }], terminators: seq![] }, GrammarView::Keyword { word: "MERGES"@ }, GrammarView::OneOf { elements: seq![GrammarView::Sequence { elements: seq![GrammarView::Keyword { word: "ON"@ }, GrammarView::Keyword { word: "VOLUME"@ }, GrammarView::Ref { name: "ObjectReferenceSegment"@, optional: false }], terminators: seq![], parse_mode: ParseMode::Strict }, GrammarView::Ref { name: "TableReferenceSegment"@, optional: false }], terminators: seq![] }]);
    let g11: Vec<Grammar> = Vec::new();
    assert(views(g11@) =~= Seq::<GrammarView>::empty());
    let g12 = Grammar::sequence_with(g10, g11, ParseMode::Strict);
    Element::Node { kind: "system_merges_segment", grammar: g12 }
}

/// The ClickHouse element `SystemTTLMergesSegment`.
pub open spec fn system_t_t_l_merges_segment_element() -> ElementView {
    ElementView::Node { kind: "system_ttl_merges_segment"@, grammar: GrammarView::Sequence { elements: seq![GrammarView::OneOf { elements: seq![GrammarView::Keyword { word: "START"@ }, GrammarView::Keyword { word: "STOP"@ }], terminators: seq![] }, GrammarView::Keyword { word: "TTL"@ }, GrammarView::Keyword { word: "MERGES"@ }, GrammarView::Ref { name: "TableReferenceSegment"@, optional: true }], terminators: seq![], parse_mode: ParseMode::Strict } }
}

fn build_system_t_t_l_merges_segment() -> (e: Element)
    ensures
        e@ =~~= system_t_t_l_merges_segment_element(),
{
    let g1: Vec<Grammar> = vec![Grammar::keyword("START"), Grammar::keyword("STOP")];
    assert(views(g1@) =~~= seq![GrammarView::Keyword { word: "START"@ }, GrammarView::Keyword { word: "STOP"@ }]);
    let g2: Vec<Grammar> = Vec::new();
    assert(views(g2@) =~= Seq::<GrammarView>::empty());
    let g3 = Grammar::one_of_with(g1, g2);
    let g4: Vec<Grammar> = vec![g3, Grammar::keyword("TTL"), Grammar::keyword("MERGES"), Grammar::optional_reference("TableReferenceSegment")];
    assert(views(g4@) =~~= seq![GrammarView::OneOf { elements: seq![GrammarView::Keyword { word: "START"@ }, GrammarView::Keyword { word: "STOP"@ }], terminators: seq![] }, GrammarView::Keyword { word: "TTL"@ }, GrammarView::Keyword { word: "MERGES"@ }, GrammarView::Ref { name: "TableReferenceSegment"@, optional: true }]);
    let g5: Vec<Grammar> = Vec::new();
    assert(views(g5@) =~= Seq::<GrammarView>::empty());
    let g6 = Grammar::sequence_with(g4, g5, ParseMode::Strict);
    Element::Node { kind: "system_ttl_merges_segment", grammar: g6 }
}

/// The ClickHouse element `SystemMovesSegment`.
pub open spec fn system_moves_segment_element() -> ElementView {
    ElementView::Node { kind: "system_moves_segment"@, grammar: GrammarView::Sequence { elements: seq![GrammarView::OneOf { elements: seq![GrammarView::Keyword { word: "START"@ }, GrammarView::Keyword { word: "STOP"@ }], terminators: seq![] }, GrammarView::Keyword { word: "MOVES"@ }, GrammarView::Ref { name: "TableReferenceSegment"@, optional: true }], terminators: seq![], parse_mode: ParseMode::Strict } }
}

fn build_system_moves_segment() -> (e: Element)
    ensures
        e@ =~~= system_moves_segment_element(),
{
    let g1: Vec<Grammar> = vec![Grammar::keyword("START"), Grammar::keyword("STOP")];
    assert(views(g1@) =~~= seq![GrammarView::Keyword { word: "START"@ }, GrammarView::Keyword { word: "STOP"@ }]);
    let g2: Vec<Grammar> = Vec::new();
    assert(views(g2@) =~= Seq::<GrammarView>::empty());
    let g3 = Grammar::one_of_with(g1, g2);
    let g4: Vec<Grammar> = vec![g3, Grammar::keyword("MOVES"), Grammar::optional_reference("TableReferenceSegment")];
    assert(views(g4@) =~~= seq![GrammarView::OneOf { elements: seq![GrammarView::Keyword { word: "START"@ }, GrammarView::Keyword { word: "STOP"@ }], terminators: seq![] }, GrammarView::Keyword { word: "MOVES"@ }, GrammarView::Ref { name: "TableReferenceSegment"@, optional: true }]);
    let g5: Vec<Grammar> = Vec::new();
    assert(views(g5@) =~= Seq::<GrammarView>::empty());
    let g6 = Grammar::sequence_with(g4, g5, ParseMode::Strict);
    Element::Node { kind: "system_moves_segment", grammar: g6 }
}

/// The ClickHouse element `SystemReplicaSegment`.
pub open spec fn system_replica_segment_element() -> ElementView {
    ElementView::Node { kind: "system_replica_segment"@, grammar: GrammarView::OneOf { elements: seq![GrammarView::Sequence { elements: seq![GrammarView::Keyword { word: "SYNC"@ }, GrammarView::Keyword { word: "REPLICA"@ }, GrammarView::Ref { name: "OnClusterClauseSegment"@, optional: true }, GrammarView::Ref { name: "TableReferenceSegment"@, optional: false }, GrammarView::Optional { grammar: Box::new(GrammarView::Keyword { word: "STRICT"@ }) }], terminators: seq![], parse_mode: ParseMode::Strict }, GrammarView::Sequence { elements: seq![GrammarView::Keyword { word: "DROP"@ }, GrammarView::Keyword { word: "REPLICA"@ }, GrammarView::Ref { name: "SingleIdentifierGrammar"@, optional: false }, GrammarView::Optional { grammar: Box::new(GrammarView::Sequence { elements: seq![GrammarView::Keyword { word: "FROM"@ }, GrammarView::OneOf { elements: seq![GrammarView::Sequence { elements: seq![GrammarView::Keyword { word: "DATABASE"@ }, GrammarView::Ref { name: "ObjectReferenceSegment"@, optional: false }], terminators: seq![], parse_mode: ParseMode::Strict }, GrammarView::Sequence { elements: seq![GrammarView::Keyword { word: "TABLE"@ }, GrammarView::Ref { name: "TableReferenceSegment"@, optional: false }], terminators: seq![], parse_mode: ParseMode::Strict }, GrammarView::Sequence { elements: seq![GrammarView::Keyword { word: "ZKPATH"@ }, GrammarView::Ref { name: "PathSegment"@, optional: false }], terminators: seq![], parse_mode: ParseMode::Strict }], terminators: seq![] }], terminators: seq![], parse_mode: ParseMode::Strict }) }], terminators: seq![], parse_mode: ParseMode::Strict }, GrammarView::Sequence { elements: seq![GrammarView::Keyword { word: "RESTART"@ }, GrammarView::Keyword { word: "REPLICA"@ }, GrammarView::Ref { name: "TableReferenceSegment"@, optional: false }], terminators: seq![], parse_mode: ParseMode::Strict }, GrammarView::Sequence { elements: seq![GrammarView::Keyword { word: "RESTORE"@ }, GrammarView::Keyword { word: "REPLICA"@ }, GrammarView::Ref { name: "TableReferenceSegment"@, optional: false }, GrammarView::Ref { name: "OnClusterClauseSegment"@, optional: true }], terminators: seq![], parse_mode: ParseMode::Strict }], terminators: seq![] } }
}

fn build_system_replica_segment() -> (e: Element)
    ensures
        e@ =~~= system_replica_segment_element(),
{
    let g1 = Grammar::keyword("STRICT").optional();
    let g2: Vec<Grammar> = vec![Grammar::keyword("SYNC"), Grammar::keyword("REPLICA"), Grammar::optional_reference("OnClusterClauseSegment"), Grammar::reference("TableReferenceSegment"), g1];
    assert(views(g2@) =~~= seq![GrammarView::Keyword { word: "SYNC"@ }, GrammarView::Keyword { word: "REPLICA"@ }, GrammarView::Ref { name: "OnClusterClauseSegment"@, optional: true }, GrammarView::Ref { name: "TableReferenceSegment"@, optional: false }, GrammarView::Optional { grammar: Box::new(GrammarView::Keyword { word: "STRICT"@ }) }]);
    let g3: Vec<Grammar> = Vec::new();
    assert(views(g3@) =~= Seq::<GrammarView>::empty());
    let g4 = Grammar::sequence_with(g2, g3, ParseMode::Strict);
    let g5: Vec<Grammar> = vec![Grammar::keyword("DATABASE"), Grammar::reference("ObjectReferenceSegment")];
    assert(views(g5@) =~~= seq![GrammarView::Keyword { word: "DATABASE"@ }, GrammarView::Ref { name: "ObjectReferenceSegment"@, optional: false }]);
    let g6: Vec<Grammar> = Vec::new();
    assert(views(g6@) =~= Seq::<GrammarView>::empty());
    let g7 = Grammar::sequence_with(g5, g6, ParseMode::Strict);
    let g8: Vec<Grammar> = vec![Grammar::keyword("TABLE"), Grammar::reference("TableReferenceSegment")];
    assert(views(g8@) =~~= seq![GrammarView::Keyword { word: "TABLE"@ }, GrammarView::Ref { name: "TableReferenceSegment"@, optional: false }]);
    let g9: Vec<Grammar> = Vec::new();
    assert(views(g9@) =~= Seq::<GrammarView>::empty());
    let g10 = Grammar::sequence_with(g8, g9, ParseMode::Strict);
    let g11: Vec<Grammar> = vec![Grammar::keyword("ZKPATH"), Grammar::reference("PathSegment")];
    assert(views(g11@) =~~= seq![GrammarView::Keyword { word: "ZKPATH"@ }, GrammarView::Ref { name: "PathSegment"@, optional: false }]);
    let g12: Vec<Grammar> = Vec::new();
    assert(views(g12@) =~= Seq::<GrammarView>::empty());
    let g13 = Grammar::sequence_with(g11, g12, ParseMode::Strict);
    let g14: Vec<Grammar> = vec![g7, g10, g13];
    assert(views(g14@) =~~= seq![GrammarView::Sequence { elements: seq![GrammarView::Keyword { word: "DATABASE"@ }, GrammarView::Ref { name: "ObjectReferenceSegment"@, optional: false }], terminators: seq![], parse_mode: ParseMode::Strict }, GrammarView::Sequence { elements: seq![GrammarView::Keyword { word: "TABLE"@ }, GrammarView::Ref { name: "TableReferenceSegment"@, optional: false }], terminators: seq![], parse_mode: ParseMode::Strict }, GrammarView::Sequence { elements: seq![GrammarView::Keyword { word: "ZKPATH"@ }, GrammarView::Ref { name: "PathSegment"@, optional: false }], terminators: seq![], parse_mode: ParseMode::Strict }]);
    let g15: Vec<Grammar> = Vec::new();
    assert(views(g15@) =~= Seq::<GrammarView>::empty());
    let g16 = Grammar::one_of_with(g14, g15);
    let g17: Vec<Grammar> = vec![Grammar::keyword("FROM"), g16];
    assert(views(g17@) =~~= seq![GrammarView::Keyword { word: "FROM"@ }, GrammarView::OneOf { elements: seq![GrammarView::Sequence { elements: seq![GrammarView::Keyword { word: "DATABASE"@ }, GrammarView::Ref { name: "ObjectReferenceSegment"@, optional: false }], terminators: seq![], parse_mode: ParseMode::Strict }, GrammarView::Sequence { elements: seq![GrammarView::Keyword { word: "TABLE"@ }, GrammarView::Ref { name: "TableReferenceSegment"@, optional: false }], terminators: seq![], parse_mode: ParseMode::Strict }, GrammarView::Sequence { elements: seq![GrammarView::Keyword { word: "ZKPATH"@ }, GrammarView::Ref { name: "PathSegment"@, optional: false }], terminators: seq![], parse_mode: ParseMode::Strict }], terminators: seq![] }]);
    let g18: Vec<Grammar> = Vec::new();
    assert(views(g18@) =~= Seq::<GrammarView>::empty());
    let g19 = Grammar::sequence_with(g17, g18, ParseMode::Strict);
    let g20 = g19.optional();
    let g21: Vec<Grammar> = vec![Grammar::keyword("DROP"), Grammar::keyword("REPLICA"), Grammar::reference("SingleIdentifierGrammar"), g20];
    assert(views(g21@) =~~= seq![GrammarView::Keyword { word: "DROP"@ }, GrammarView::Keyword { word: "REPLICA"@ }, GrammarView::Ref { name: "SingleIdentifierGrammar"@, optional: false }, GrammarView::Optional { grammar: Box::new(GrammarView::Sequence { elements: seq![GrammarView::Keyword { word: "FROM"@ }, GrammarView::OneOf { elements: seq![GrammarView::Sequence { elements: seq![GrammarView::Keyword { word: "DATABASE"@ }, GrammarView::Ref { name: "ObjectReferenceSegment"@, optional: false }], terminators: seq![], parse_mode: ParseMode::Strict }, GrammarView::Sequence { elements: seq![GrammarView::Keyword { word: "TABLE"@ }, GrammarView::Ref { name: "TableReferenceSegment"@, optional: false }], terminators: seq![], parse_mode: ParseMode::Strict }, GrammarView::Sequence { elements: seq![GrammarView::Keyword { word: "ZKPATH"@ }, GrammarView::Ref { name: "PathSegment"@, optional: false }], terminators: seq![], parse_mode: ParseMode::Strict }], terminators: seq![] }], terminators: seq![], parse_mode: ParseMode::Strict }) }]);
    let g22: Vec<Grammar> = Vec::new();
    assert(views(g22@) =~= Seq::<GrammarView>::empty());
    let g23 = Grammar::sequence_with(g21, g22, ParseMode::Strict);
    let g24: Vec<Grammar> = vec![Grammar::keyword("RESTART"), Grammar::keyword("REPLICA"), Grammar::reference("TableReferenceSegment")];
    assert(views(g24@) =~~= seq![GrammarView::Keyword { word: "RESTART"@ }, GrammarView::Keyword { word: "REPLICA"@ }, GrammarView::Ref { name: "TableReferenceSegment"@, optional: false }]);
    let g25: Vec<Grammar> = Vec::new();
    assert(views(g25@) =~= Seq::<GrammarView>::empty());
    let g26 = Grammar::sequence_with(g24, g25, ParseMode::Strict);
    let g27: Vec<Grammar> = vec![Grammar::keyword("RESTORE"), Grammar::keyword("REPLICA"), Grammar::reference("TableReferenceSegment"), Grammar::optional_reference("OnClusterClauseSegment")];
    assert(views(g27@) =~~= seq![GrammarView::Keyword { word: "RESTORE"@ }, GrammarView::Keyword { word: "REPLICA"@ }, GrammarView::Ref { name: "TableReferenceSegment"@, optional: false }, GrammarView::Ref { name: "OnClusterClauseSegment"@, optional: true }]);
    let g28: Vec<Grammar> = Vec::new();
    assert(views(g28@) =~= Seq::<GrammarView>::empty());
    let g29 = Grammar::sequence_with(g27, g28, ParseMode::Strict);
    let g30: Vec<Grammar> = vec![g4, g23, g26, g29];
    assert(views(g30@) =~~= seq![GrammarView::Sequence { elements: seq![GrammarView::Keyword { word: "SYNC"@ }, GrammarView::Keyword { word: "REPLICA"@ }, GrammarView::Ref { name: "OnClusterClauseSegment"@, optional: true }, GrammarView::Ref { name: "TableReferenceSegment"@, optional: false }, GrammarView::Optional { grammar: Box::new(GrammarView::Keyword { word: "STRICT"@ }) }], terminators: seq![], parse_mode: ParseMode::Strict }, GrammarView::Sequence { elements: seq![GrammarView::Keyword { word: "DROP"@ }, GrammarView::Keyword { word: "REPLICA"@ }, GrammarView::Ref { name: "SingleIdentifierGrammar"@, optional: false }, GrammarView::Optional { grammar: Box::new(GrammarView::Sequence { elements: seq![GrammarView::Keyword { word: "FROM"@ }, GrammarView::OneOf { elements: seq![GrammarView::Sequence { elements: seq![GrammarView::Keyword { word: "DATABASE"@ }, GrammarView::Ref { name: "ObjectReferenceSegment"@, optional: false }], terminators: seq![], parse_mode: ParseMode::Strict }, GrammarView::Sequence { elements: seq![GrammarView::Keyword { word: "TABLE"@ }, GrammarView::Ref { name: "TableReferenceSegment"@, optional: false }], terminators: seq![], parse_mode: ParseMode::Strict }, GrammarView::Sequence { elements: seq![GrammarView::Keyword { word: "ZKPATH"@ }, GrammarView::Ref { name: "PathSegment"@, optional: false }], terminators: seq![], parse_mode: ParseMode::Strict }], terminators: seq![] }], terminators: seq![], parse_mode: ParseMode::Strict }) }], terminators: seq![], parse_mode: ParseMode::Strict }, GrammarView::Sequence { elements: seq![GrammarView::Keyword { word: "RESTART"@ }, GrammarView::Keyword { word: "REPLICA"@ }, GrammarView::Ref { name: "TableReferenceSegment"@, optional: false }], terminators: seq![], parse_mode: ParseMode::Strict }, GrammarView::Sequence { elements: seq![GrammarView::Keyword { word: "RESTORE"@ }, GrammarView::Keyword { word: "REPLICA"@ }, GrammarView::Ref { name: "TableReferenceSegment"@, optional: false }, GrammarView::Ref { name: "OnClusterClauseSegment"@, optional: true }], terminators: seq![], parse_mode: ParseMode::Strict }]);
    let g31: Vec<Grammar> = Vec::new();
    assert(views(g31@) =~= Seq::<GrammarView>::empty());
    let g32 = Grammar::one_of_with(g30, g31);
    Element::Node { kind: "system_replica_segment", grammar: g32 }
}

/// The ClickHouse element `SystemFilesystemSegment`.
pub open spec fn system_filesystem_segment_element() -> ElementView {
    ElementView::Node { kind: "system_filesystem_segment"@, grammar: GrammarView::Sequence { elements: seq![GrammarView::Keyword { word: "DROP"@ }, GrammarView::Keyword { word: "FILESYSTEM"@ }, GrammarView::Keyword { word: "CACHE"@ }], terminators: seq![], parse_mode: ParseMode::Strict } }
}

fn build_system_filesystem_segment() -> (e: Element)
    ensures
        e@ =~~= system_filesystem_segment_element(),
{
    let g1: Vec<Grammar> = vec![Grammar::keyword("DROP"), Grammar::keyword("FILESYSTEM"), Grammar::keyword("CACHE")];
    assert(views(g1@) =~~= seq![GrammarView::Keyword { word: "DROP"@ }, GrammarView::Keyword { word: "FILESYSTEM"@ }, GrammarView::Keyword { word: "CACHE"@ }]);
    let g2: Vec<Grammar> = Vec::new();
    assert(views(g2@) =~= Seq::<GrammarView>::empty());
    let g3 = Grammar::sequence_with(g1, g2, ParseMode::Strict);
    Element::Node { kind: "system_filesystem_segment", grammar: g3 }
}

/// The ClickHouse element `SystemReplicatedSegment`.
pub open spec fn system_replicated_segment_element() -> ElementView {
    ElementView::Node { kind: "system_replicated_segment"@, grammar: GrammarView::Sequence { elements: seq![GrammarView::OneOf { elements: seq![GrammarView::Keyword { word: "START"@ }, GrammarView::Keyword { word: "STOP"@ }], terminators: seq![] }, GrammarView::Keyword { word: "REPLICATED"@ }, GrammarView::Keyword { word: "SENDS"@ }, GrammarView::Ref { name: "TableReferenceSegment"@, optional: true }], terminators: seq![], parse_mode: ParseMode::Strict } }
}

fn build_system_replicated_segment() -> (e: Element)
    ensures
        e@ =~~= system_replicated_segment_element(),
{
    let g1: Vec<Grammar> = vec![Grammar::keyword("START"), Grammar::keyword("STOP")];
    assert(views(g1@) =~~= seq![GrammarView::Keyword { word: "START"@ }, GrammarView::Keyword { word: "STOP"@ }]);
    let g2: Vec<Grammar> = Vec::new();
    assert(views(g2@) =~= Seq::<GrammarView>::empty());
    let g3 = Grammar::one_of_with(g1, g2);
    let g4: Vec<Grammar> = vec![g3, Grammar::keyword("REPLICATED"), Grammar::keyword("SENDS"), Grammar::optional_reference("TableReferenceSegment")];
    assert(views(g4@) =~~= seq![GrammarView::OneOf { elements: seq![GrammarView::Keyword { word: "START"@ }, GrammarView::Keyword { word: "STOP"@ }], terminators: seq![] }, GrammarView::Keyword { word: "REPLICATED"@ }, GrammarView::Keyword { word: "SENDS"@ }, GrammarView::Ref { name: "TableReferenceSegment"@, optional: true }]);
    let g5: Vec<Grammar> = Vec::new();
    assert(views(g5@) =~= Seq::<GrammarView>::empty());
    let g6 = Grammar::sequence_with(g4, g5, ParseMode::Strict);
    Element::Node { kind: "system_replicated_segment", grammar: g6 }
}

/// The ClickHouse element `SystemReplicationSegment`.
pub open spec fn system_replication_segment_element() -> ElementView {
    ElementView::Node { kind: "system_replication_segment"@, grammar: GrammarView::Sequence { elements: seq![GrammarView::OneOf { elements: seq![GrammarView::Keyword { word: "START"@ }, GrammarView::Keyword { word: "STOP"@ }], terminators: seq![] }, GrammarView::Keyword { word: "REPLICATION"@ }, GrammarView::Keyword { word: "QUEUES"@ }, GrammarView::Ref { name: "TableReferenceSegment"@, optional: true }], terminators: seq![], parse_mode: ParseMode::Strict } }
}

fn build_system_replication_segment() -> (e: Element)
    ensures
        e@ =~~= system_replication_segment_element(),
{
    let g1: Vec<Grammar> = vec![Grammar::keyword("START"), Grammar::keyword("STOP")];
    assert(views(g1@) =~~= seq![GrammarView::Keyword { word: "START"@ }, GrammarView::Keyword { word: "STOP"@ }]);
    let g2: Vec<Grammar> = Vec::new();
    assert(views(g2@) =~= Seq::<GrammarView>::empty());
    let g3 = Grammar::one_of_with(g1, g2);
    let g4: Vec<Grammar> = vec![g3, Grammar::keyword("REPLICATION"), Grammar::keyword("QUEUES"), Grammar::optional_reference("TableReferenceSegment")];
    assert(views(g4@) =~~= seq![GrammarView::OneOf { elements: seq![GrammarView::Keyword { word: "START"@ }, GrammarView::Keyword { word: "STOP"@ }], terminators: seq![] }, GrammarView::Keyword { word: "REPLICATION"@ }, GrammarView::Keyword { word: "QUEUES"@ }, GrammarView::Ref { name: "TableReferenceSegment"@, optional: true }]);
    let g5: Vec<Grammar> = Vec::new();
    assert(views(g5@) =~= Seq::<GrammarView>::empty());
    let g6 = Grammar::sequence_with(g4, g5, ParseMode::Strict);
    Element::Node { kind: "system_replication_segment", grammar: g6 }
}

/// The ClickHouse element `SystemFetchesSegment`.
pub open spec fn system_fetches_segment_element() -> ElementView {
    ElementView::Node { kind: "system_fetches_segment"@, grammar: GrammarView::Sequence { elements: seq![GrammarView::OneOf { elements: seq![GrammarView::Keyword { word: "START"@ }, GrammarView::Keyword { word: "STOP"@ }], terminators: seq![] }, GrammarView::Keyword { word: "FETCHES"@ }, GrammarView::Ref { name: "TableReferenceSegment"@, optional: true }], terminators: seq![], parse_mode: ParseMode::Strict } }
}

fn build_system_fetches_segment() -> (e: Element)
    ensures
        e@ =~~= system_fetches_segment_element(),
{
    let g1: Vec<Grammar> = vec![Grammar::keyword("START"), Grammar::keyword("STOP")];
    assert(views(g1@) =~~= seq![GrammarView::Keyword { word: "START"@ }, GrammarView::Keyword { word: "STOP"@ }]);
    let g2: Vec<Grammar> = Vec::new();
    assert(views(g2@) =~= Seq::<GrammarView>::empty());
    let g3 = Grammar::one_of_with(g1, g2);
    let g4: Vec<Grammar> = vec![g3, Grammar::keyword("FETCHES"), Grammar::optional_reference("TableReferenceSegment")];
    assert(views(g4@) =~~= seq![GrammarView::OneOf { elements: seq![GrammarView::Keyword { word: "START"@ }, GrammarView::Keyword { word: "STOP"@ }], terminators: seq![] }, GrammarView::Keyword { word: "FETCHES"@ }, GrammarView::Ref { name: "TableReferenceSegment"@, optional: true }]);
    let g5: Vec<Grammar> = Vec::new();
    assert(views(g5@) =~= Seq::<GrammarView>::empty());
    let g6 = Grammar::sequence_with(g4, g5, ParseMode::Strict);
    Element::Node { kind: "system_fetches_segment", grammar: g6 }
}

/// The ClickHouse element `SystemDistributedSegment`.
pub open spec fn system_distributed_segment_element() -> ElementView {
    ElementView::Node { kind: "system_distributed_segment"@, grammar: GrammarView::Sequence { elements: seq![GrammarView::OneOf { elements: seq![GrammarView::Sequence { elements: seq![GrammarView::OneOf { elements: seq![GrammarView::Keyword { word: "START"@ }, GrammarView::Keyword { word: "STOP"@ }], terminators: seq![] }, GrammarView::Keyword { word: "DISTRIBUTED"@ }, GrammarView::Keyword { word: "SENDS"@ }, GrammarView::Ref { name: "TableReferenceSegment"@, optional: false }], terminators: seq![], parse_mode: ParseMode::Strict }, GrammarView::Sequence { elements: seq![GrammarView::Keyword { word: "FLUSH"@ }, GrammarView::Keyword { word: "DISTRIBUTED"@ }, GrammarView::Ref { name: "TableReferenceSegment"@, optional: false }], terminators: seq![], parse_mode: ParseMode::Strict }], terminators: seq![] }], terminators: seq![], parse_mode: ParseMode::Strict } }
}

fn build_system_distributed_segment() -> (e: Element)
    ensures
        e@ =~~= system_distributed_segment_element(),
{
    let g1: Vec<Grammar> = vec![Grammar::keyword("START"), Grammar::keyword("STOP")];
    assert(views(g1@) =~~= seq![GrammarView::Keyword { word: "START"@ }, GrammarView::Keyword { word: "STOP"@ }]);
    let g2: Vec<Grammar> = Vec::new();
    assert(views(g2@) =~= Seq::<GrammarView>::empty());
    let g3 = Grammar::one_of_with(g1, g2);
    let g4: Vec<Grammar> = vec![g3, Grammar::keyword("DISTRIBUTED"), Grammar::keyword("SENDS"), Grammar::reference("TableReferenceSegment")];
    assert(views(g4@) =~~= seq![GrammarView::OneOf { elements: seq![GrammarView::Keyword { word: "START"@ }, GrammarView::Keyword { word: "STOP"@ }], terminators: seq![] }, GrammarView::Keyword { word: "DISTRIBUTED"@ }, GrammarView::Keyword { word: "SENDS"@ }, GrammarView::Ref { name: "TableReferenceSegment"@, optional: false }]);
    let g5: Vec<Grammar> = Vec::new();
    assert(views(g5@) =~= Seq::<GrammarView>::empty());
    let g6 = Grammar::sequence_with(g4, g5, ParseMode::Strict);
    let g7: Vec<Grammar> = vec![Grammar::keyword("FLUSH"), Grammar::keyword("DISTRIBUTED"), Grammar::reference("TableReferenceSegment")];
    assert(views(g7@) =~~= seq![GrammarView::Keyword { word: "FLUSH"@ }, GrammarView::Keyword { word: "DISTRIBUTED"@ }, GrammarView::Ref { name: "TableReferenceSegment"@, optional: false }]);
    let g8: Vec<Grammar> = Vec::new();
    assert(views(g8@) =~= Seq::<GrammarView>::empty());
    let g9 = Grammar::sequence_with(g7, g8, ParseMode::Strict);
    let g10: Vec<Grammar> = vec![g6, g9];
    assert(views(g10@) =~~= seq![GrammarView::Sequence { elements: seq![GrammarView::OneOf { elements: seq![GrammarView::Keyword { word: "START"@ }, GrammarView::Keyword { word: "STOP"@ }], terminators: seq![] }, GrammarView::Keyword { word: "DISTRIBUTED"@ }, GrammarView::Keyword { word: "SENDS"@ }, GrammarView::Ref { name: "TableReferenceSegment"@, optional: false }], terminators: seq![], parse_mode: ParseMode::Strict }, GrammarView::Sequence { elements: seq![GrammarView::Keyword { word: "FLUSH"@ }, GrammarView::Keyword { word: "DISTRIBUTED"@ }, GrammarView::Ref { name: "TableReferenceSegment"@, optional: false }], terminators: seq![], parse_mode: ParseMode::Strict }]);
    let g11: Vec<Grammar> = Vec::new();
    assert(views(g11@) =~= Seq::<GrammarView>::empty());
    let g12 = Grammar::one_of_with(g10, g11);
    let g13: Vec<Grammar> = vec![g12];
    assert(views(g13@) =~~= seq![GrammarView::OneOf { elements: seq![GrammarView::Sequence { elements: seq![GrammarView::OneOf { elements: seq![GrammarView::Keyword { word: "START"@ }, GrammarView::Keyword { word: "STOP"@ }], terminators: seq![] }, GrammarView::Keyword { word: "DISTRIBUTED"@ }, GrammarView::Keyword { word: "SENDS"@ }, GrammarView::Ref { name: "TableReferenceSegment"@, optional: false }], terminators: seq![], parse_mode: ParseMode::Strict }, GrammarView::Sequence { elements: seq![GrammarView::Keyword { word: "FLUSH"@ }, GrammarView::Keyword { word: "DISTRIBUTED"@ }, GrammarView::Ref { name: "TableReferenceSegment"@, optional: false }], terminators: seq![], parse_mode: ParseMode::Strict }], terminators: seq![] }]);
    let g14: Vec<Grammar> = Vec::new();
    assert(views(g14@) =~= Seq::<GrammarView>::empty());
    let g15 = Grammar::sequence_with(g13, g14, ParseMode::Strict);
    Element::Node { kind: "system_distributed_segment", grammar: g15 }
}

/// The ClickHouse element `SystemModelSegment`.
pub open spec fn system_model_segment_element() -> ElementView {
    ElementView::Node { kind: "system_model_segment"@, grammar: GrammarView::Sequence { elements: seq![GrammarView::Keyword { word: "RELOAD"@ }, GrammarView::OneOf { elements: seq![GrammarView::Sequence { elements: seq![GrammarView::Keyword { word: "MODELS"@ }, GrammarView::Ref { name: "OnClusterClauseSegment"@, optional: true }], terminators: seq![], parse_mode: ParseMode::Strict }, GrammarView::Sequence { elements: seq![GrammarView::Keyword { word: "MODEL"@ }, GrammarView::AnySetOf { elements: seq![GrammarView::Ref { name: "OnClusterClauseSegment"@, optional: true }, GrammarView::Ref { name: "PathSegment"@, optional: false }] }], terminators: seq![], parse_mode: ParseMode::Strict }], terminators: seq![] }], terminators: seq![], parse_mode: ParseMode::Strict } }
}

fn build_system_model_segment() -> (e: Element)
    ensures
        e@ =~~= system_model_segment_element(),
{
    let g1: Vec<Grammar> = vec![Grammar::keyword("MODELS"), Grammar::optional_reference("OnClusterClauseSegment")];
    assert(views(g1@) =~~= seq![GrammarView::Keyword { word: "MODELS"@ }, GrammarView::Ref { name: "OnClusterClauseSegment"@, optional: true }]);
    let g2: Vec<Grammar> = Vec::new();
    assert(views(g2@) =~= Seq::<GrammarView>::empty());
    let g3 = Grammar::sequence_with(g1, g2, ParseMode::Strict);
    let g4: Vec<Grammar> = vec![Grammar::optional_reference("OnClusterClauseSegment"), Grammar::reference("PathSegment")];
    assert(views(g4@) =~~= seq![GrammarView::Ref { name: "OnClusterClauseSegment"@, optional: true }, GrammarView::Ref { name: "PathSegment"@, optional: false }]);
    let g5 = Grammar::any_set_of(g4);
    let g6: Vec<Grammar> = vec![Grammar::keyword("MODEL"), g5];
    assert(views(g6@) =~~= seq![GrammarView::Keyword { word: "MODEL"@ }, GrammarView::AnySetOf { elements: seq![GrammarView::Ref { name: "OnClusterClauseSegment"@, optional: true }, GrammarView::Ref { name: "PathSegment"@, optional: false }] }]);
    let g7: Vec<Grammar> = Vec::new();
    assert(views(g7@) =~= Seq::<GrammarView>::empty());
    let g8 = Grammar::sequence_with(g6, g7, ParseMode::Strict);
    let g9: Vec<Grammar> = vec![g3, g8];
    assert(views(g9@) =~~= seq![GrammarView::Sequence { elements: seq![GrammarView::Keyword { word: "MODELS"@ }, GrammarView::Ref { name: "OnClusterClauseSegment"@, optional: true }], terminators: seq![], parse_mode: ParseMode::Strict }, GrammarView::Sequence { elements: seq![GrammarView::Keyword { word: "MODEL"@ }, GrammarView::AnySetOf { elements: seq![GrammarView::Ref { name: "OnClusterClauseSegment"@, optional: true }, GrammarView::Ref { name: "PathSegment"@, optional: false }] }], terminators: seq![], parse_mode: ParseMode::Strict }]);
    let g10: Vec<Grammar> = Vec::new();
    assert(views(g10@) =~= Seq::<GrammarView>::empty());
    let g11 = Grammar::one_of_with(g9, g10);
    let g12: Vec<Grammar> = vec![Grammar::keyword("RELOAD"), g11];
    assert(views(g12@) =~~= seq![GrammarView::Keyword { word: "RELOAD"@ }, GrammarView::OneOf { elements: seq![GrammarView::Sequence { elements: seq![GrammarView::Keyword { word: "MODELS"@ }, GrammarView::Ref { name: "OnClusterClauseSegment"@, optional: true }], terminators: seq![], parse_mode: ParseMode::Strict }, GrammarView::Sequence { elements: seq![GrammarView::Keyword { word: "MODEL"@ }, GrammarView::AnySetOf { elements: seq![GrammarView::Ref { name: "OnClusterClauseSegment"@, optional: true }, GrammarView::Ref { name: "PathSegment"@, optional: false }] }], terminators: seq![], parse_mode: ParseMode::Strict }], terminators: seq![] }]);
    let g13: Vec<Grammar> = Vec::new();
    assert(views(g13@) =~= Seq::<GrammarView>::empty());
    let g14 = Grammar::sequence_with(g12, g13, ParseMode::Strict);
    Element::Node { kind: "system_model_segment", grammar: g14 }
}

/// The ClickHouse element `SystemFileSegment`.
pub open spec fn system_file_segment_element() -> ElementView {
    ElementView::Node { kind: "system_file_segment"@, grammar: GrammarView::Sequence { elements: seq![GrammarView::Keyword { word: "SYNC"@ }, GrammarView::Keyword { word: "FILE"@ }, GrammarView::Keyword { word: "CACHE"@ }], terminators: seq![], parse_mode: ParseMode::Strict } }
}

fn build_system_file_segment() -> (e: Element)
    ensures
        e@ =~~= system_file_segment_element(),
{
    let g1: Vec<Grammar> = vec![Grammar::keyword("SYNC"), Grammar::keyword("FILE"), Grammar::keyword("CACHE")];
    assert(views(g1@) =~~= seq![GrammarView::Keyword { word: "SYNC"@ }, GrammarView::Keyword { word: "FILE"@ }, GrammarView::Keyword { word: "CACHE"@ }]);
    let g2: Vec<Grammar> = Vec::new();
    assert(views(g2@) =~= Seq::<GrammarView>::empty());
    let g3 = Grammar::sequence_with(g1, g2, ParseMode::Strict);
    Element::Node { kind: "system_file_segment", grammar: g3 }
}

/// The ClickHouse element `SystemUnfreezeSegment`.
pub open spec fn system_unfreeze_segment_element() -> ElementView {
    ElementView::Node { kind: "system_unfreeze_segment"@, grammar: GrammarView::Sequence { elements: seq![GrammarView::Keyword { word: "UNFREEZE"@ }, GrammarView::Keyword { word: "WITH"@ }, GrammarView::Keyword { word: "NAME"@ }, GrammarView::Ref { name: "ObjectReferenceSegment"@, optional: false }], terminators: seq![], parse_mode: ParseMode::Strict } }
}

fn build_system_unfreeze_segment() -> (e: Element)
    ensures
        e@ =~~= system_unfreeze_segment_element(),
{
    let g1: Vec<Grammar> = vec![Grammar::keyword("UNFREEZE"), Grammar::keyword("WITH"), Grammar::keyword("NAME"), Grammar::reference("ObjectReferenceSegment")];
    assert(views(g1@) =~~= seq![GrammarView::Keyword { word: "UNFREEZE"@ }, GrammarView::Keyword { word: "WITH"@ }, GrammarView::Keyword { word: "NAME"@ }, GrammarView::Ref { name: "ObjectReferenceSegment"@, optional: false }]);
    let g2: Vec<Grammar> = Vec::new();
    assert(views(g2@) =~= Seq::<GrammarView>::empty());
    let g3 = Grammar::sequence_with(g1, g2, ParseMode::Strict);
    Element::Node { kind: "system_unfreeze_segment", grammar: g3 }
}

/// The ClickHouse element `SystemStatementSegment`.
pub open spec fn system_statement_segment_element() -> ElementView {
    ElementView::Node { kind: "system_statement"@, grammar: GrammarView::Sequence { elements: seq![GrammarView::Keyword { word: "SYSTEM"@ }, GrammarView::OneOf { elements: seq![GrammarView::Ref { name: "SystemMergesSegment"@, optional: false }, GrammarView::Ref { name: "SystemTTLMergesSegment"@, optional: false }, GrammarView::Ref { name: "SystemMovesSegment"@, optional: false }, GrammarView::Ref { name: "SystemReplicaSegment"@, optional: false }, GrammarView::Ref { name: "SystemReplicatedSegment"@, optional: false }, GrammarView::Ref { name: "SystemReplicationSegment"@, optional: false }, GrammarView::Ref { name: "SystemFetchesSegment"@, optional: false }, GrammarView::Ref { name: "SystemDistributedSegment"@, optional: false }, GrammarView::Ref { name: "SystemFileSegment"@, optional: false }, GrammarView::Ref { name: "SystemFilesystemSegment"@, optional: false }, GrammarView::Ref { name: "SystemUnfreezeSegment"@, optional: false }, GrammarView::Ref { name: "SystemModelSegment"@, optional: false }], terminators: seq![] }], terminators: seq![], parse_mode: ParseMode::Strict } }
}

fn build_system_statement_segment() -> (e: Element)
    ensures
        e@ =~~= system_statement_segment_element(),
{
    let g1: Vec<Grammar> = vec![Grammar::reference("SystemMergesSegment"), Grammar::reference("SystemTTLMergesSegment"), Grammar::reference("SystemMovesSegment"), Grammar::reference("SystemReplicaSegment"), Grammar::reference("SystemReplicatedSegment"), Grammar::reference("SystemReplicationSegment"), Grammar::reference("SystemFetchesSegment"), Grammar::reference("SystemDistributedSegment"), Grammar::reference("SystemFileSegment"), Grammar::reference("SystemFilesystemSegment"), Grammar::reference("SystemUnfreezeSegment"), Grammar::reference("SystemModelSegment")];
    assert(views(g1@) =~~= seq![GrammarView::Ref { name: "SystemMergesSegment"@, optional: false }, GrammarView::Ref { name: "SystemTTLMergesSegment"@, optional: false }, GrammarView::Ref { name: "SystemMovesSegment"@, optional: false }, GrammarView::Ref { name: "SystemReplicaSegment"@, optional: false }, GrammarView::Ref { name: "SystemReplicatedSegment"@, optional: false }, GrammarView::Ref { name: "SystemReplicationSegment"@, optional: false }, GrammarView::Ref { name: "SystemFetchesSegment"@, optional: false }, GrammarView::Ref { name: "SystemDistributedSegment"@, optional: false }, GrammarView::Ref { name: "SystemFileSegment"@, optional: false }, GrammarView::Ref { name: "SystemFilesystemSegment"@, optional: false }, GrammarView::Ref { name: "SystemUnfreezeSegment"@, optional: false }, GrammarView::Ref { name: "SystemModelSegment"@, optional: false }]);
    let g2: Vec<Grammar> = Vec::new();
    assert(views(g2@) =~= Seq::<GrammarView>::empty());
    let g3 = Grammar::one_of_with(g1, g2);
    let g4: Vec<Grammar> = vec![Grammar::keyword("SYSTEM"), g3];
    assert(views(g4@) =~~= seq![GrammarView::Keyword { word: "SYSTEM"@ }, GrammarView::OneOf { elements: seq![GrammarView::Ref { name: "SystemMergesSegment"@, optional: false }, GrammarView::Ref { name: "SystemTTLMergesSegment"@, optional: false }, GrammarView::Ref { name: "SystemMovesSegment"@, optional: false }, GrammarView::Ref { name: "SystemReplicaSegment"@, optional: false }, GrammarView::Ref { name: "SystemReplicatedSegment"@, optional: false }, GrammarView::Ref { name: "SystemReplicationSegment"@, optional: false }, GrammarView::Ref { name: "SystemFetchesSegment"@, optional: false }, GrammarView::Ref { name: "SystemDistributedSegment"@, optional: false }, GrammarView::Ref { name: "SystemFileSegment"@, optional: false }, GrammarView::Ref { name: "SystemFilesystemSegment"@, optional: false }, GrammarView::Ref { name: "SystemUnfreezeSegment"@, optional: false }, GrammarView::Ref { name: "SystemModelSegment"@, optional: false }], terminators: seq![] }]);
    let g5: Vec<Grammar> = Vec::new();
    assert(views(g5@) =~= Seq::<GrammarView>::empty());
    let g6 = Grammar::sequence_with(g4, g5, ParseMode::Strict);
    Element::Node { kind: "system_statement", grammar: g6 }
}

/// The ClickHouse grammar of `AlterTableStatementSegment`.
pub open spec fn alter_table_statement_segment_grammar() -> GrammarView {
    GrammarView::Sequence { elements: seq![GrammarView::Keyword { word: "ALTER"@ }, GrammarView::Keyword { word: "TABLE"@ }, GrammarView::Ref { name: "IfExistsGrammar"@, optional: true }, GrammarView::Ref { name: "TableReferenceSegment"@, optional: false }, GrammarView::Ref { name: "OnClusterClauseSegment"@, optional: true }, GrammarView::OneOf { elements: seq![GrammarView::Sequence { elements: seq![GrammarView::Keyword { word: "DROP"@ }, GrammarView::Keyword { word: "COLUMN"@ }, GrammarView::Ref { name: "IfExistsGrammar"@, optional: true }, GrammarView::Ref { name: "SingleIdentifierGrammar"@, optional: false }], terminators: seq![], parse_mode: ParseMode::Strict }, GrammarView::Sequence { elements: seq![GrammarView::Keyword { word: "ADD"@ }, GrammarView::Keyword { word: "COLUMN"@ }, GrammarView::Ref { name: "IfNotExistsGrammar"@, optional: true }, GrammarView::Ref { name: "SingleIdentifierGrammar"@, optional: false }, GrammarView::Optional { grammar: Box::new(GrammarView::OneOf { elements: seq![GrammarView::Sequence { elements: seq![GrammarView::Ref { name: "DatatypeSegment"@, optional: false }, GrammarView::Optional { grammar: Box::new(GrammarView::Sequence { elements: seq![GrammarView::Keyword { word: "DEFAULT"@ }, GrammarView::Ref { name: "ExpressionSegment"@, optional: false }], terminators: seq![], parse_mode: ParseMode::Strict }) }, GrammarView::Optional { grammar: Box::new(GrammarView::Sequence { elements: seq![GrammarView::Keyword { word: "MATERIALIZED"@ }, GrammarView::Ref { name: "ExpressionSegment"@, optional: false }], terminators: seq![], parse_mode: ParseMode::Strict }) }, GrammarView::Optional { grammar: Box::new(GrammarView::Sequence { elements: seq![GrammarView::Keyword { word: "CODEC"@ }, GrammarView::Bracketed { elements: seq![GrammarView::Delimited { elements: seq![GrammarView::OneOf { elements: seq![GrammarView::Ref { name: "FunctionSegment"@, optional: false }, GrammarView::Ref { name: "SingleIdentifierGrammar"@, optional: false }], terminators: seq![] }], allow_trailing: false, delimiter: None, terminators: seq![], allow_gaps: true }], bracket_type: "round"@ }], terminators: seq![], parse_mode: ParseMode::Strict }) }], terminators: seq![], parse_mode: ParseMode::Strict }, GrammarView::Sequence { elements: seq![GrammarView::Ref { name: "DatatypeSegment"@, optional: false }, GrammarView::Keyword { word: "ALIAS"@ }, GrammarView::Ref { name: "ExpressionSegment"@, optional: false }], terminators: seq![], parse_mode: ParseMode::Strict }, GrammarView::Sequence { elements: seq![GrammarView::Keyword { word: "ALIAS"@ }, GrammarView::Ref { name: "ExpressionSegment"@, optional: false }], terminators: seq![], parse_mode: ParseMode::Strict }, GrammarView::Sequence { elements: seq![GrammarView::Keyword { word: "DEFAULT"@ }, GrammarView::Ref { name: "ExpressionSegment"@, optional: false }], terminators: seq![], parse_mode: ParseMode::Strict }, GrammarView::Sequence { elements: seq![GrammarView::Keyword { word: "MATERIALIZED"@ }, GrammarView::Ref { name: "ExpressionSegment"@, optional: false }], terminators: seq![], parse_mode: ParseMode::Strict }], terminators: seq![] }) }, GrammarView::Optional { grammar: Box::new(GrammarView::OneOf { elements: seq![GrammarView::Sequence { elements: seq![GrammarView::Keyword { word: "AFTER"@ }, GrammarView::Ref { name: "SingleIdentifierGrammar"@, optional: false }], terminators: seq![], parse_mode: ParseMode::Strict }, GrammarView::Keyword { word: "FIRST"@ }], terminators: seq![] }) }], terminators: seq![], parse_mode: ParseMode::Strict }, GrammarView::Sequence { elements: seq![GrammarView::Keyword { word: "ADD"@ }, GrammarView::Keyword { word: "ALIAS"@ }, GrammarView::Ref { name: "IfNotExistsGrammar"@, optional: true }, GrammarView::Ref { name: "SingleIdentifierGrammar"@, optional: false }, GrammarView::Keyword { word: "FOR"@ }, GrammarView::Ref { name: "SingleIdentifierGrammar"@, optional: false }], terminators: seq![], parse_mode: ParseMode::Strict }, GrammarView::Sequence { elements: seq![GrammarView::Keyword { word: "RENAME"@ }, GrammarView::Keyword { word: "COLUMN"@ }, GrammarView::Ref { name: "IfExistsGrammar"@, optional: true }, GrammarView::Ref { name: "SingleIdentifierGrammar"@, optional: false }, GrammarView::Keyword { word: "TO"@ }, GrammarView::Ref { name: "SingleIdentifierGrammar"@, optional: false }], terminators: seq![], parse_mode: ParseMode::Strict }, GrammarView::Sequence { elements: seq![GrammarView::Keyword { word: "COMMENT"@ }, GrammarView::Keyword { word: "COLUMN"@ }, GrammarView::Ref { name: "IfExistsGrammar"@, optional: true }, GrammarView::Ref { name: "SingleIdentifierGrammar"@, optional: false }, GrammarView::Ref { name: "QuotedLiteralSegment"@, optional: false }], terminators: seq![], parse_mode: ParseMode::Strict }, GrammarView::Sequence { elements: seq![GrammarView::Keyword { word: "COMMENT"@ }, GrammarView::Ref { name: "QuotedLiteralSegment"@, optional: false }], terminators: seq![], parse_mode: ParseMode::Strict }, GrammarView::Sequence { elements: seq![GrammarView::Keyword { word: "MODIFY"@ }, GrammarView::Keyword { word: "COMMENT"@ }, GrammarView::Ref { name: "QuotedLiteralSegment"@, optional: false }], terminators: seq![], parse_mode: ParseMode::Strict }, GrammarView::Sequence { elements: seq![GrammarView::Keyword { word: "MODIFY"@ }, GrammarView::Keyword { word: "COLUMN"@ }, GrammarView::Ref { name: "IfExistsGrammar"@, optional: true }, GrammarView::Ref { name: "SingleIdentifierGrammar"@, optional: false }, GrammarView::Optional { grammar: Box::new(GrammarView::OneOf { elements: seq![GrammarView::Sequence { elements: seq![GrammarView::Keyword { word: "TYPE"@ }, GrammarView::Ref { name: "DatatypeSegment"@, optional: false }, GrammarView::Optional { grammar: Box::new(GrammarView::Sequence { elements: seq![GrammarView::Keyword { word: "DEFAULT"@ }, GrammarView::Ref { name: "ExpressionSegment"@, optional: false }], terminators: seq![], parse_mode: ParseMode::Strict }) }, GrammarView::Optional { grammar: Box::new(GrammarView::Sequence { elements: seq![GrammarView::Keyword { word: "MATERIALIZED"@ }, GrammarView::Ref { name: "ExpressionSegment"@, optional: false }], terminators: seq![], parse_mode: ParseMode::Strict }) }, GrammarView::Optional { grammar: Box::new(GrammarView::Sequence { elements: seq![GrammarView::Keyword { word: "CODEC"@ }, GrammarView::Bracketed { elements: seq![GrammarView::Delimited { elements: seq![GrammarView::OneOf { elements: seq![GrammarView::Ref { name: "FunctionSegment"@, optional: false }, GrammarView::Ref { name: "SingleIdentifierGrammar"@, optional: false }], terminators: seq![] }], allow_trailing: false, delimiter: None, terminators: seq![], allow_gaps: true }], bracket_type: "round"@ }], terminators: seq![], parse_mode: ParseMode::Strict }) }], terminators: seq![], parse_mode: ParseMode::Strict }, GrammarView::Sequence { elements: seq![GrammarView::Ref { name: "DatatypeSegment"@, optional: true }, GrammarView::Optional { grammar: Box::new(GrammarView::Sequence { elements: seq![GrammarView::Keyword { word: "DEFAULT"@ }, GrammarView::Ref { name: "ExpressionSegment"@, optional: false }], terminators: seq![], parse_mode: ParseMode::Strict }) }, GrammarView::Optional { grammar: Box::new(GrammarView::Sequence { elements: seq![GrammarView::Keyword { word: "MATERIALIZED"@ }, GrammarView::Ref { name: "ExpressionSegment"@, optional: false }], terminators: seq![], parse_mode: ParseMode::Strict }) }, GrammarView::Optional { grammar: Box::new(GrammarView::Sequence { elements: seq![GrammarView::Keyword { word: "ALIAS"@ }, GrammarView::Ref { name: "ExpressionSegment"@, optional: false }], terminators: seq![], parse_mode: ParseMode::Strict }) }, GrammarView::Optional { grammar: Box::new(GrammarView::Sequence { elements: seq![GrammarView::Keyword { word: "CODEC"@ }, GrammarView::Bracketed { elements: seq![GrammarView::Delimited { elements: seq![GrammarView::OneOf { elements: seq![GrammarView::Ref { name: "FunctionSegment"@, optional: false }, GrammarView::Ref { name: "SingleIdentifierGrammar"@, optional: false }], terminators: seq![] }], allow_trailing: false, delimiter: None, terminators: seq![], allow_gaps: true }], bracket_type: "round"@ }], terminators: seq![], parse_mode: ParseMode::Strict }) }], terminators: seq![], parse_mode: ParseMode::Strict }, GrammarView::Sequence { elements: seq![GrammarView::Keyword { word: "ALIAS"@ }, GrammarView::Ref { name: "ExpressionSegment"@, optional: false }], terminators: seq![], parse_mode: ParseMode::Strict }, GrammarView::Sequence { elements: seq![GrammarView::Keyword { word: "REMOVE"@ }, GrammarView::Ref { name: "ALIAS"@, optional: false }], terminators: seq![], parse_mode: ParseMode::Strict }, GrammarView::Sequence { elements: seq![GrammarView::Keyword { word: "REMOVE"@ }, GrammarView::OneOf { elements: seq![GrammarView::Keyword { word: "ALIAS"@ }, GrammarView::Keyword { word: "DEFAULT"@ }, GrammarView::Keyword { word: "MATERIALIZED"@ }, GrammarView::Keyword { word: "CODEC"@ }, GrammarView::Keyword { word: "COMMENT"@ }, GrammarView::Keyword { word: "TTL"@ }], terminators: seq![] }], terminators: seq![], parse_mode: ParseMode::Strict }, GrammarView::Sequence { elements: seq![GrammarView::Keyword { word: "MODIFY"@ }, GrammarView::Keyword { word: "SETTING"@ }, GrammarView::Ref { name: "SingleIdentifierGrammar"@, optional: false }, GrammarView::Ref { name: "EqualsSegment"@, optional: false }, GrammarView::Ref { name: "LiteralGrammar"@, optional: false }], terminators: seq![], parse_mode: ParseMode::Strict }, GrammarView::Sequence { elements: seq![GrammarView::Keyword { word: "RESET"@ }, GrammarView::Keyword { word: "SETTING"@ }, GrammarView::Ref { name: "SingleIdentifierGrammar"@, optional: false }], terminators: seq![], parse_mode: ParseMode::Strict }], terminators: seq![] }) }, GrammarView::Optional { grammar: Box::new(GrammarView::OneOf { elements: seq![GrammarView::Sequence { elements: seq![GrammarView::Keyword { word: "AFTER"@ }, GrammarView::Ref { name: "SingleIdentifierGrammar"@, optional: false }], terminators: seq![], parse_mode: ParseMode::Strict }, GrammarView::Keyword { word: "FIRST"@ }], terminators: seq![] }) }], terminators: seq![], parse_mode: ParseMode::Strict }, GrammarView::Sequence { elements: seq![GrammarView::Keyword { word: "ALTER"@ }, GrammarView::Keyword { word: "COLUMN"@ }, GrammarView::Ref { name: "IfExistsGrammar"@, optional: true }, GrammarView::Ref { name: "SingleIdentifierGrammar"@, optional: false }, GrammarView::OneOf { elements: seq![GrammarView::Sequence { elements: seq![GrammarView::Keyword { word: "TYPE"@ }, GrammarView::Ref { name: "DatatypeSegment"@, optional: false }], terminators: seq![], parse_mode: ParseMode::Strict }, GrammarView::Ref { name: "DatatypeSegment"@, optional: false }], terminators: seq![] }, GrammarView::Optional { grammar: Box::new(GrammarView::OneOf { elements: seq![GrammarView::Sequence { elements: seq![GrammarView::Keyword { word: "AFTER"@ }, GrammarView::Ref { name: "SingleIdentifierGrammar"@, optional: false }], terminators: seq![], parse_mode: ParseMode::Strict }, GrammarView::Keyword { word: "FIRST"@ }], terminators: seq![] }) }], terminators: seq![], parse_mode: ParseMode::Strict }, GrammarView::Sequence { elements: seq![GrammarView::Keyword { word: "REMOVE"@ }, GrammarView::Keyword { word: "TTL"@ }], terminators: seq![], parse_mode: ParseMode::Strict }, GrammarView::Sequence { elements: seq![GrammarView::Keyword { word: "MODIFY"@ }, GrammarView::Keyword { word: "TTL"@ }, GrammarView::Ref { name: "ExpressionSegment"@, optional: false }], terminators: seq![], parse_mode: ParseMode::Strict }, GrammarView::Sequence { elements: seq![GrammarView::Keyword { word: "MODIFY"@ }, GrammarView::Keyword { word: "QUERY"@ }, GrammarView::Ref { name: "SelectStatementSegment"@, optional: false }], terminators: seq![], parse_mode: ParseMode::Strict }, GrammarView::Sequence { elements: seq![GrammarView::Keyword { word: "MATERIALIZE"@ }, GrammarView::Keyword { word: "COLUMN"@ }, GrammarView::Ref { name: "SingleIdentifierGrammar"@, optional: false }, GrammarView::Optional { grammar: Box::new(GrammarView::OneOf { elements: seq![GrammarView::Sequence { elements: seq![GrammarView::Keyword { word: "IN"@ }, GrammarView::Keyword { word: "PARTITION"@ }, GrammarView::Ref { name: "SingleIdentifierGrammar"@, optional: false }], terminators: seq![], parse_mode: ParseMode::Strict }, GrammarView::Sequence { elements: seq![GrammarView::Keyword { word: "IN"@ }, GrammarView::Keyword { word: "PARTITION"@ }, GrammarView::Keyword { word: "ID"@ }, GrammarView::Ref { name: "QuotedLiteralSegment"@, optional: false }], terminators: seq![], parse_mode: ParseMode::Strict }], terminators: seq![] }) }], terminators: seq![], parse_mode: ParseMode::Strict }, GrammarView::Sequence { elements: seq![GrammarView::Keyword { word: "DROP"@ }, GrammarView::OneOf { elements: seq![GrammarView::Keyword { word: "PARTITION"@ }, GrammarView::Keyword { word: "PART"@ }], terminators: seq![] }, GrammarView::Ref { name: "SingleIdentifierGrammar"@, optional: false }], terminators: seq![], parse_mode: ParseMode::Strict }, GrammarView::Sequence { elements: seq![GrammarView::Keyword { word: "REPLACE"@ }, GrammarView::Keyword { word: "PARTITION"@ }, GrammarView::Ref { name: "SingleIdentifierGrammar"@, optional: false }, GrammarView::Keyword { word: "FROM"@ }, GrammarView::Ref { name: "TableReferenceSegment"@, optional: false }], terminators: seq![], parse_mode: ParseMode::Strict }], terminators: seq![] }], terminators: seq![], parse_mode: ParseMode::Strict }
}

#[verifier::rlimit(100)]
fn build_alter_table_statement_segment() -> (g: Grammar)
    ensures
        g@ =~~= alter_table_statement_segment_grammar(),
{
    let g1: Vec<Grammar> = vec![Grammar::keyword("DROP"), Grammar::keyword("COLUMN"), Grammar::optional_reference("IfExistsGrammar"), Grammar::reference("SingleIdentifierGrammar")];
    assert(views(g1@) =~~= seq![GrammarView::Keyword { word: "DROP"@ }, GrammarView::Keyword { word: "COLUMN"@ }, GrammarView::Ref { name: "IfExistsGrammar"@, optional: true }, GrammarView::Ref { name: "SingleIdentifierGrammar"@, optional: false }]);
    let g2: Vec<Grammar> = Vec::new();
    assert(views(g2@) =~= Seq::<GrammarView>::empty());
    let g3 = Grammar::sequence_with(g1, g2, ParseMode::Strict);
    let g4: Vec<Grammar> = vec![Grammar::keyword("DEFAULT"), Grammar::reference("ExpressionSegment")];
    assert(views(g4@) =~~= seq![GrammarView::Keyword { word: "DEFAULT"@ }, GrammarView::Ref { name: "ExpressionSegment"@, optional: false }]);
    let g5: Vec<Grammar> = Vec::new();
    assert(views(g5@) =~= Seq::<GrammarView>::empty());
    let g6 = Grammar::sequence_with(g4, g5, ParseMode::Strict);
    let g7 = g6.optional();
    let g8: Vec<Grammar> = vec![Grammar::keyword("MATERIALIZED"), Grammar::reference("ExpressionSegment")];
    assert(views(g8@) =~~= seq![GrammarView::Keyword { word: "MATERIALIZED"@ }, GrammarView::Ref { name: "ExpressionSegment"@, optional: false }]);
    let g9: Vec<Grammar> = Vec::new();
    assert(views(g9@) =~= Seq::<GrammarView>::empty());
    let g10 = Grammar::sequence_with(g8, g9, ParseMode::Strict);
    let g11 = g10.optional();
    let g12: Vec<Grammar> = vec![Grammar::reference("FunctionSegment"), Grammar::reference("SingleIdentifierGrammar")];
    assert(views(g12@) =~~= seq![GrammarView::Ref { name: "FunctionSegment"@, optional: false }, GrammarView::Ref { name: "SingleIdentifierGrammar"@, optional: false }]);
    let g13: Vec<Grammar> = Vec::new();
    assert(views(g13@) =~= Seq::<GrammarView>::empty());
    let g14 = Grammar::one_of_with(g12, g13);
    let g15: Vec<Grammar> = vec![g14];
    assert(views(g15@) =~~= seq![GrammarView::OneOf { elements: seq![GrammarView::Ref { name: "FunctionSegment"@, optional: false }, GrammarView::Ref { name: "SingleIdentifierGrammar"@, optional: false }], terminators: seq![] }]);
    let g16: Vec<Grammar> = Vec::new();
    assert(views(g16@) =~= Seq::<GrammarView>::empty());
    let g17 = Grammar::delimited_with(g15, false, None, g16, true);
    let g18: Vec<Grammar> = vec![g17];
    assert(views(g18@) =~~= seq![GrammarView::Delimited { elements: seq![GrammarView::OneOf { elements: seq![GrammarView::Ref { name: "FunctionSegment"@, optional: false }, GrammarView::Ref { name: "SingleIdentifierGrammar"@, optional: false }], terminators: seq![] }], allow_trailing: false, delimiter: None, terminators: seq![], allow_gaps: true }]);
    let g19 = Grammar::bracketed_with(g18, "round");
    let g20: Vec<Grammar> = vec![Grammar::keyword("CODEC"), g19];
    assert(views(g20@) =~~= seq![GrammarView::Keyword { word: "CODEC"@ }, GrammarView::Bracketed { elements: seq![GrammarView::Delimited { elements: seq![GrammarView::OneOf { elements: seq![GrammarView::Ref { name: "FunctionSegment"@, optional: false }, GrammarView::Ref { name: "SingleIdentifierGrammar"@, optional: false }], terminators: seq![] }], allow_trailing: false, delimiter: None, terminators: seq![], allow_gaps: true }], bracket_type: "round"@ }]);
    let g21: Vec<Grammar> = Vec::new();
    assert(views(g21@) =~= Seq::<GrammarView>::empty());
    let g22 = Grammar::sequence_with(g20, g21, ParseMode::Strict);
    let g23 = g22.optional();
    let g24: Vec<Grammar> = vec![Grammar::reference("DatatypeSegment"), g7, g11, g23];
    assert(views(g24@) =~~= seq![GrammarView::Ref { name: "DatatypeSegment"@, optional: false }, GrammarView::Optional { grammar: Box::new(GrammarView::Sequence { elements: seq![GrammarView::Keyword { word: "DEFAULT"@ }, GrammarView::Ref { name: "ExpressionSegment"@, optional: false }], terminators: seq![], parse_mode: ParseMode::Strict }) }, GrammarView::Optional { grammar: Box::new(GrammarView::Sequence { elements: seq![GrammarView::Keyword { word: "MATERIALIZED"@ }, GrammarView::Ref { name: "ExpressionSegment"@, optional: false }], terminators: seq![], parse_mode: ParseMode::Strict }) }, GrammarView::Optional { grammar: Box::new(GrammarView::Sequence { elements: seq![GrammarView::Keyword { word: "CODEC"@ }, GrammarView::Bracketed { elements: seq![GrammarView::Delimited { elements: seq![GrammarView::OneOf { elements: seq![GrammarView::Ref { name: "FunctionSegment"@, optional: false }, GrammarView::Ref { name: "SingleIdentifierGrammar"@, optional: false }], terminators: seq![] }], allow_trailing: false, delimiter: None, terminators: seq![], allow_gaps: true }], bracket_type: "round"@ }], terminators: seq![], parse_mode: ParseMode::Strict }) }]);
    let g25: Vec<Grammar> = Vec::new();
    assert(views(g25@) =~= Seq::<GrammarView>::empty());
    let g26 = Grammar::sequence_with(g24, g25, ParseMode::Strict);
    let g27: Vec<Grammar> = vec![Grammar::reference("DatatypeSegment"), Grammar::keyword("ALIAS"), Grammar::reference("ExpressionSegment")];
    assert(views(g27@) =~~= seq![GrammarView::Ref { name: "DatatypeSegment"@, optional: false }, GrammarView::Keyword { word: "ALIAS"@ }, GrammarView::Ref { name: "ExpressionSegment"@, optional: false }]);
    let g28: Vec<Grammar> = Vec::new();
    assert(views(g28@) =~= Seq::<GrammarView>::empty());
    let g29 = Grammar::sequence_with(g27, g28, ParseMode::Strict);
    let g30: Vec<Grammar> = vec![Grammar::keyword("ALIAS"), Grammar::reference("ExpressionSegment")];
    assert(views(g30@) =~~= seq![GrammarView::Keyword { word: "ALIAS"@ }, GrammarView::Ref { name: "ExpressionSegment"@, optional: false }]);
    let g31: Vec<Grammar> = Vec::new();
    assert(views(g31@) =~= Seq::<GrammarView>::empty());
    let g32 = Grammar::sequence_with(g30, g31, ParseMode::Strict);
    let g33: Vec<Grammar> = vec![Grammar::keyword("DEFAULT"), Grammar::reference("ExpressionSegment")];
    assert(views(g33@) =~~= seq![GrammarView::Keyword { word: "DEFAULT"@ }, GrammarView::Ref { name: "ExpressionSegment"@, optional: false }]);
    let g34: Vec<Grammar> = Vec::new();
    assert(views(g34@) =~= Seq::<GrammarView>::empty());
    let g35 = Grammar::sequence_with(g33, g34, ParseMode::Strict);
    let g36: Vec<Grammar> = vec![Grammar::keyword("MATERIALIZED"), Grammar::reference("ExpressionSegment")];
    assert(views(g36@) =~~= seq![GrammarView::Keyword { word: "MATERIALIZED"@ }, GrammarView::Ref { name: "ExpressionSegment"@, optional: false }]);
    let g37: Vec<Grammar> = Vec::new();
    assert(views(g37@) =~= Seq::<GrammarView>::empty());
    let g38 = Grammar::sequence_with(g36, g37, ParseMode::Strict);
    let g39: Vec<Grammar> = vec![g26, g29, g32, g35, g38];
    assert(views(g39@) =~~= seq![GrammarView::Sequence { elements: seq![GrammarView::Ref { name: "DatatypeSegment"@, optional: false }, GrammarView::Optional { grammar: Box::new(GrammarView::Sequence { elements: seq![GrammarView::Keyword { word: "DEFAULT"@ }, GrammarView::Ref { name: "ExpressionSegment"@, optional: false }], terminators: seq![], parse_mode: ParseMode::Strict }) }, GrammarView::Optional { grammar: Box::new(GrammarView::Sequence { elements: seq![GrammarView::Keyword { word: "MATERIALIZED"@ }, GrammarView::Ref { name: "ExpressionSegment"@, optional: false }], terminators: seq![], parse_mode: ParseMode::Strict }) }, GrammarView::Optional { grammar: Box::new(GrammarView::Sequence { elements: seq![GrammarView::Keyword { word: "CODEC"@ }, GrammarView::Bracketed { elements: seq![GrammarView::Delimited { elements: seq![GrammarView::OneOf { elements: seq![GrammarView::Ref { name: "FunctionSegment"@, optional: false }, GrammarView::Ref { name: "SingleIdentifierGrammar"@, optional: false }], terminators: seq![] }], allow_trailing: false, delimiter: None, terminators: seq![], allow_gaps: true }], bracket_type: "round"@ }], terminators: seq![], parse_mode: ParseMode::Strict }) }], terminators: seq![], parse_mode: ParseMode::Strict }, GrammarView::Sequence { elements: seq![GrammarView::Ref { name: "DatatypeSegment"@, optional: false }, GrammarView::Keyword { word: "ALIAS"@ }, GrammarView::Ref { name: "ExpressionSegment"@, optional: false }], terminators: seq![], parse_mode: ParseMode::Strict }, GrammarView::Sequence { elements: seq![GrammarView::Keyword { word: "ALIAS"@ }, GrammarView::Ref { name: "ExpressionSegment"@, optional: false }], terminators: seq![], parse_mode: ParseMode::Strict }, GrammarView::Sequence { elements: seq![GrammarView::Keyword { word: "DEFAULT"@ }, GrammarView::Ref { name: "ExpressionSegment"@, optional: false }], terminators: seq![], parse_mode: ParseMode::Strict }, GrammarView::Sequence { elements: seq![GrammarView::Keyword { word: "MATERIALIZED"@ }, GrammarView::Ref { name: "ExpressionSegment"@, optional: false }], terminators: seq![], parse_mode: ParseMode::Strict }]);
    let g40: Vec<Grammar> = Vec::new();
    assert(views(g40@) =~= Seq::<GrammarView>::empty());
    let g41 = Grammar::one_of_with(g39, g40);
    let g42 = g41.optional();
    let g43: Vec<Grammar> = vec![Grammar::keyword("AFTER"), Grammar::reference("SingleIdentifierGrammar")];
    assert(views(g43@) =~~= seq![GrammarView::Keyword { word: "AFTER"@ }, GrammarView::Ref { name: "SingleIdentifierGrammar"@, optional: false }]);
    let g44: Vec<Grammar> = Vec::new();
    assert(views(g44@) =~= Seq::<GrammarView>::empty());
    let g45 = Grammar::sequence_with(g43, g44, ParseMode::Strict);
    let g46: Vec<Grammar> = vec![g45, Grammar::keyword("FIRST")];
    assert(views(g46@) =~~= seq![GrammarView::Sequence { elements: seq![GrammarView::Keyword { word: "AFTER"@ }, GrammarView::Ref { name: "SingleIdentifierGrammar"@, optional: false }], terminators: seq![], parse_mode: ParseMode::Strict }, GrammarView::Keyword { word: "FIRST"@ }]);
    let g47: Vec<Grammar> = Vec::new();
    assert(views(g47@) =~= Seq::<GrammarView>::empty());
    let g48 = Grammar::one_of_with(g46, g47);
    let g49 = g48.optional();
    let g50: Vec<Grammar> = vec![Grammar::keyword("ADD"), Grammar::keyword("COLUMN"), Grammar::optional_reference("IfNotExistsGrammar"), Grammar::reference("SingleIdentifierGrammar"), g42, g49];
    assert(views(g50@) =~~= seq![GrammarView::Keyword { word: "ADD"@ }, GrammarView::Keyword { word: "COLUMN"@ }, GrammarView::Ref { name: "IfNotExistsGrammar"@, optional: true }, GrammarView::Ref { name: "SingleIdentifierGrammar"@, optional: false }, GrammarView::Optional { grammar: Box::new(GrammarView::OneOf { elements: seq![GrammarView::Sequence { elements: seq![GrammarView::Ref { name: "DatatypeSegment"@, optional: false }, GrammarView::Optional { grammar: Box::new(GrammarView::Sequence { elements: seq![GrammarView::Keyword { word: "DEFAULT"@ }, GrammarView::Ref { name: "ExpressionSegment"@, optional: false }], terminators: seq![], parse_mode: ParseMode::Strict }) }, GrammarView::Optional { grammar: Box::new(GrammarView::Sequence { elements: seq![GrammarView::Keyword { word: "MATERIALIZED"@ }, GrammarView::Ref { name: "ExpressionSegment"@, optional: false }], terminators: seq![], parse_mode: ParseMode::Strict }) }, GrammarView::Optional { grammar: Box::new(GrammarView::Sequence { elements: seq![GrammarView::Keyword { word: "CODEC"@ }, GrammarView::Bracketed { elements: seq![GrammarView::Delimited { elements: seq![GrammarView::OneOf { elements: seq![GrammarView::Ref { name: "FunctionSegment"@, optional: false }, GrammarView::Ref { name: "SingleIdentifierGrammar"@, optional: false }], terminators: seq![] }], allow_trailing: false, delimiter: None, terminators: seq![], allow_gaps: true }], bracket_type: "round"@ }], terminators: seq![], parse_mode: ParseMode::Strict }) }], terminators: seq![], parse_mode: ParseMode::Strict }, GrammarView::Sequence { elements: seq![GrammarView::Ref { name: "DatatypeSegment"@, optional: false }, GrammarView::Keyword { word: "ALIAS"@ }, GrammarView::Ref { name: "ExpressionSegment"@, optional: false }], terminators: seq![], parse_mode: ParseMode::Strict }, GrammarView::Sequence { elements: seq![GrammarView::Keyword { word: "ALIAS"@ }, GrammarView::Ref { name: "ExpressionSegment"@, optional: false }], terminators: seq![], parse_mode: ParseMode::Strict }, GrammarView::Sequence { elements: seq![GrammarView::Keyword { word: "DEFAULT"@ }, GrammarView::Ref { name: "ExpressionSegment"@, optional: false }], terminators: seq![], parse_mode: ParseMode::Strict }, GrammarView::Sequence { elements: seq![GrammarView::Keyword { word: "MATERIALIZED"@ }, GrammarView::Ref { name: "ExpressionSegment"@, optional: false }], terminators: seq![], parse_mode: ParseMode::Strict }], terminators: seq![] }) }, GrammarView::Optional { grammar: Box::new(GrammarView::OneOf { elements: seq![GrammarView::Sequence { elements: seq![GrammarView::Keyword { word: "AFTER"@ }, GrammarView::Ref { name: "SingleIdentifierGrammar"@, optional: false }], terminators: seq![], parse_mode: ParseMode::Strict }, GrammarView::Keyword { word: "FIRST"@ }], terminators: seq![] }) }]);
    let g51: Vec<Grammar> = Vec::new();
    assert(views(g51@) =~= Seq::<GrammarView>::empty());
    let g52 = Grammar::sequence_with(g50, g51, ParseMode::Strict);
    let g53: Vec<Grammar> = vec![Grammar::keyword("ADD"), Grammar::keyword("ALIAS"), Grammar::optional_reference("IfNotExistsGrammar"), Grammar::reference("SingleIdentifierGrammar"), Grammar::keyword("FOR"), Grammar::reference("SingleIdentifierGrammar")];
    assert(views(g53@) =~~= seq![GrammarView::Keyword { word: "ADD"@ }, GrammarView::Keyword { word: "ALIAS"@ }, GrammarView::Ref { name: "IfNotExistsGrammar"@, optional: true }, GrammarView::Ref { name: "SingleIdentifierGrammar"@, optional: false }, GrammarView::Keyword { word: "FOR"@ }, GrammarView::Ref { name: "SingleIdentifierGrammar"@, optional: false }]);
    let g54: Vec<Grammar> = Vec::new();
    assert(views(g54@) =~= Seq::<GrammarView>::empty());
    let g55 = Grammar::sequence_with(g53, g54, ParseMode::Strict);
    let g56: Vec<Grammar> = vec![Grammar::keyword("RENAME"), Grammar::keyword("COLUMN"), Grammar::optional_reference("IfExistsGrammar"), Grammar::reference("SingleIdentifierGrammar"), Grammar::keyword("TO"), Grammar::reference("SingleIdentifierGrammar")];
    assert(views(g56@) =~~= seq![GrammarView::Keyword { word: "RENAME"@ }, GrammarView::Keyword { word: "COLUMN"@ }, GrammarView::Ref { name: "IfExistsGrammar"@, optional: true }, GrammarView::Ref { name: "SingleIdentifierGrammar"@, optional: false }, GrammarView::Keyword { word: "TO"@ }, GrammarView::Ref { name: "SingleIdentifierGrammar"@, optional: false }]);
    let g57: Vec<Grammar> = Vec::new();
    assert(views(g57@) =~= Seq::<GrammarView>::empty());
    let g58 = Grammar::sequence_with(g56, g57, ParseMode::Strict);
    let g59: Vec<Grammar> = vec![Grammar::keyword("COMMENT"), Grammar::keyword("COLUMN"), Grammar::optional_reference("IfExistsGrammar"), Grammar::reference("SingleIdentifierGrammar"), Grammar::reference("QuotedLiteralSegment")];
    assert(views(g59@) =~~= seq![GrammarView::Keyword { word: "COMMENT"@ }, GrammarView::Keyword { word: "COLUMN"@ }, GrammarView::Ref { name: "IfExistsGrammar"@, optional: true }, GrammarView::Ref { name: "SingleIdentifierGrammar"@, optional: false }, GrammarView::Ref { name: "QuotedLiteralSegment"@, optional: false }]);
    let g60: Vec<Grammar> = Vec::new();
    assert(views(g60@) =~= Seq::<GrammarView>::empty());
    let g61 = Grammar::sequence_with(g59, g60, ParseMode::Strict);
    let g62: Vec<Grammar> = vec![Grammar::keyword("COMMENT"), Grammar::reference("QuotedLiteralSegment")];
    assert(views(g62@) =~~= seq![GrammarView::Keyword { word: "COMMENT"@ }, GrammarView::Ref { name: "QuotedLiteralSegment"@, optional: false }]);
    let g63: Vec<Grammar> = Vec::new();
    assert(views(g63@) =~= Seq::<GrammarView>::empty());
    let g64 = Grammar::sequence_with(g62, g63, ParseMode::Strict);
    let g65: Vec<Grammar> = vec![Grammar::keyword("MODIFY"), Grammar::keyword("COMMENT"), Grammar::reference("QuotedLiteralSegment")];
    assert(views(g65@) =~~= seq![GrammarView::Keyword { word: "MODIFY"@ }, GrammarView::Keyword { word: "COMMENT"@ }, GrammarView::Ref { name: "QuotedLiteralSegment"@, optional: false }]);
    let g66: Vec<Grammar> = Vec::new();
    assert(views(g66@) =~= Seq::<GrammarView>::empty());
    let g67 = Grammar::sequence_with(g65, g66, ParseMode::Strict);
    let g68: Vec<Grammar> = vec![Grammar::keyword("DEFAULT"), Grammar::reference("ExpressionSegment")];
    assert(views(g68@) =~~= seq![GrammarView::Keyword { word: "DEFAULT"@ }, GrammarView::Ref { name: "ExpressionSegment"@, optional: false }]);
    let g69: Vec<Grammar> = Vec::new();
    assert(views(g69@) =~= Seq::<GrammarView>::empty());
    let g70 = Grammar::sequence_with(g68, g69, ParseMode::Strict);
    let g71 = g70.optional();
    let g72: Vec<Grammar> = vec![Grammar::keyword("MATERIALIZED"), Grammar::reference("ExpressionSegment")];
    assert(views(g72@) =~~= seq![GrammarView::Keyword { word: "MATERIALIZED"@ }, GrammarView::Ref { name: "ExpressionSegment"@, optional: false }]);
    let g73: Vec<Grammar> = Vec::new();
    assert(views(g73@) =~= Seq::<GrammarView>::empty());
    let g74 = Grammar::sequence_with(g72, g73, ParseMode::Strict);
    let g75 = g74.optional();
    let g76: Vec<Grammar> = vec![Grammar::reference("FunctionSegment"), Grammar::reference("SingleIdentifierGrammar")];
    assert(views(g76@) =~~= seq![GrammarView::Ref { name: "FunctionSegment"@, optional: false }, GrammarView::Ref { name: "SingleIdentifierGrammar"@, optional: false }]);
    let g77: Vec<Grammar> = Vec::new();
    assert(views(g77@) =~= Seq::<GrammarView>::empty());
    let g78 = Grammar::one_of_with(g76, g77);
    let g79: Vec<Grammar> = vec![g78];
    assert(views(g79@) =~~= seq![GrammarView::OneOf { elements: seq![GrammarView::Ref { name: "FunctionSegment"@, optional: false }, GrammarView::Ref { name: "SingleIdentifierGrammar"@, optional: false }], terminators: seq![] }]);
    let g80: Vec<Grammar> = Vec::new();
    assert(views(g80@) =~= Seq::<GrammarView>::empty());
    let g81 = Grammar::delimited_with(g79, false, None, g80, true);
    let g82: Vec<Grammar> = vec![g81];
    assert(views(g82@) =~~= seq![GrammarView::Delimited { elements: seq![GrammarView::OneOf { elements: seq![GrammarView::Ref { name: "FunctionSegment"@, optional: false }, GrammarView::Ref { name: "SingleIdentifierGrammar"@, optional: false }], terminators: seq![] }], allow_trailing: false, delimiter: None, terminators: seq![], allow_gaps: true }]);
    let g83 = Grammar::bracketed_with(g82, "round");
    let g84: Vec<Grammar> = vec![Grammar::keyword("CODEC"), g83];
    assert(views(g84@) =~~= seq![GrammarView::Keyword { word: "CODEC"@ }, GrammarView::Bracketed { elements: seq![GrammarView::Delimited { elements: seq![GrammarView::OneOf { elements: seq![GrammarView::Ref { name: "FunctionSegment"@, optional: false }, GrammarView::Ref { name: "SingleIdentifierGrammar"@, optional: false }], terminators: seq![] }], allow_trailing: false, delimiter: None, terminators: seq![], allow_gaps: true }], bracket_type: "round"@ }]);
    let g85: Vec<Grammar> = Vec::new();
    assert(views(g85@) =~= Seq::<GrammarView>::empty());
    let g86 = Grammar::sequence_with(g84, g85, ParseMode::Strict);
    let g87 = g86.optional();
    let g88: Vec<Grammar> = vec![Grammar::keyword("TYPE"), Grammar::reference("DatatypeSegment"), g71, g75, g87];
    assert(views(g88@) =~~= seq![GrammarView::Keyword { word: "TYPE"@ }, GrammarView::Ref { name: "DatatypeSegment"@, optional: false }, GrammarView::Optional { grammar: Box::new(GrammarView::Sequence { elements: seq![GrammarView::Keyword { word: "DEFAULT"@ }, GrammarView::Ref { name: "ExpressionSegment"@, optional: false }], terminators: seq![], parse_mode: ParseMode::Strict }) }, GrammarView::Optional { grammar: Box::new(GrammarView::Sequence { elements: seq![GrammarView::Keyword { word: "MATERIALIZED"@ }, GrammarView::Ref { name: "ExpressionSegment"@, optional: false }], terminators: seq![], parse_mode: ParseMode::Strict }) }, GrammarView::Optional { grammar: Box::new(GrammarView::Sequence { elements: seq![GrammarView::Keyword { word: "CODEC"@ }, GrammarView::Bracketed { elements: seq![GrammarView::Delimited { elements: seq![GrammarView::OneOf { elements: seq![GrammarView::Ref { name: "FunctionSegment"@, optional: false }, GrammarView::Ref { name: "SingleIdentifierGrammar"@, optional: false }], terminators: seq![] }], allow_trailing: false, delimiter: None, terminators: seq![], allow_gaps: true }], bracket_type: "round"@ }], terminators: seq![], parse_mode: ParseMode::Strict }) }]);
    let g89: Vec<Grammar> = Vec::new();
    assert(views(g89@) =~= Seq::<GrammarView>::empty());
    let g90 = Grammar::sequence_with(g88, g89, ParseMode::Strict);
    let g91: Vec<Grammar> = vec![Grammar::keyword("DEFAULT"), Grammar::reference("ExpressionSegment")];
    assert(views(g91@) =~~= seq![GrammarView::Keyword { word: "DEFAULT"@ }, GrammarView::Ref { name: "ExpressionSegment"@, optional: false }]);
    let g92: Vec<Grammar> = Vec::new();
    assert(views(g92@) =~= Seq::<GrammarView>::empty());
    let g93 = Grammar::sequence_with(g91, g92, ParseMode::Strict);
    let g94 = g93.optional();
    let g95: Vec<Grammar> = vec![Grammar::keyword("MATERIALIZED"), Grammar::reference("ExpressionSegment")];
    assert(views(g95@) =~~= seq![GrammarView::Keyword { word: "MATERIALIZED"@ }, GrammarView::Ref { name: "ExpressionSegment"@, optional: false }]);
    let g96: Vec<Grammar> = Vec::new();
    assert(views(g96@) =~= Seq::<GrammarView>::empty());
    let g97 = Grammar::sequence_with(g95, g96, ParseMode::Strict);
    let g98 = g97.optional();
    let g99: Vec<Grammar> = vec![Grammar::keyword("ALIAS"), Grammar::reference("ExpressionSegment")];
    assert(views(g99@) =~~= seq![GrammarView::Keyword { word: "ALIAS"@ }, GrammarView::Ref { name: "ExpressionSegment"@, optional: false }]);
    let g100: Vec<Grammar> = Vec::new();
    assert(views(g100@) =~= Seq::<GrammarView>::empty());
    let g101 = Grammar::sequence_with(g99, g100, ParseMode::Strict);
    let g102 = g101.optional();
    let g103: Vec<Grammar> = vec![Grammar::reference("FunctionSegment"), Grammar::reference("SingleIdentifierGrammar")];
    assert(views(g103@) =~~= seq![GrammarView::Ref { name: "FunctionSegment"@, optional: false }, GrammarView::Ref { name: "SingleIdentifierGrammar"@, optional: false }]);
    let g104: Vec<Grammar> = Vec::new();
    assert(views(g104@) =~= Seq::<GrammarView>::empty());
    let g105 = Grammar::one_of_with(g103, g104);
    let g106: Vec<Grammar> = vec![g105];
    assert(views(g106@) =~~= seq![GrammarView::OneOf { elements: seq![GrammarView::Ref { name: "FunctionSegment"@, optional: false }, GrammarView::Ref { name: "SingleIdentifierGrammar"@, optional: false }], terminators: seq![] }]);
    let g107: Vec<Grammar> = Vec::new();
    assert(views(g107@) =~= Seq::<GrammarView>::empty());
    let g108 = Grammar::delimited_with(g106, false, None, g107, true);
    let g109: Vec<Grammar> = vec![g108];
    assert(views(g109@) =~~= seq![GrammarView::Delimited { elements: seq![GrammarView::OneOf { elements: seq![GrammarView::Ref { name: "FunctionSegment"@, optional: false }, GrammarView::Ref { name: "SingleIdentifierGrammar"@, optional: false }], terminators: seq![] }], allow_trailing: false, delimiter: None, terminators: seq![], allow_gaps: true }]);
    let g110 = Grammar::bracketed_with(g109, "round");
    let g111: Vec<Grammar> = vec![Grammar::keyword("CODEC"), g110];
    assert(views(g111@) =~~= seq![GrammarView::Keyword { word: "CODEC"@ }, GrammarView::Bracketed { elements: seq![GrammarView::Delimited { elements: seq![GrammarView::OneOf { elements: seq![GrammarView::Ref { name: "FunctionSegment"@, optional: false }, GrammarView::Ref { name: "SingleIdentifierGrammar"@, optional: false }], terminators: seq![] }], allow_trailing: false, delimiter: None, terminators: seq![], allow_gaps: true }], bracket_type: "round"@ }]);
    let g112: Vec<Grammar> = Vec::new();
    assert(views(g112@) =~= Seq::<GrammarView>::empty());
    let g113 = Grammar::sequence_with(g111, g112, ParseMode::Strict);
    let g114 = g113.optional();
    let g115: Vec<Grammar> = vec![Grammar::optional_reference("DatatypeSegment"), g94, g98, g102, g114];
    assert(views(g115@) =~~= seq![GrammarView::Ref { name: "DatatypeSegment"@, optional: true }, GrammarView::Optional { grammar: Box::new(GrammarView::Sequence { elements: seq![GrammarView::Keyword { word: "DEFAULT"@ }, GrammarView::Ref { name: "ExpressionSegment"@, optional: false }], terminators: seq![], parse_mode: ParseMode::Strict }) }, GrammarView::Optional { grammar: Box::new(GrammarView::Sequence { elements: seq![GrammarView::Keyword { word: "MATERIALIZED"@ }, GrammarView::Ref { name: "ExpressionSegment"@, optional: false }], terminators: seq![], parse_mode: ParseMode::Strict }) }, GrammarView::Optional { grammar: Box::new(GrammarView::Sequence { elements: seq![GrammarView::Keyword { word: "ALIAS"@ }, GrammarView::Ref { name: "ExpressionSegment"@, optional: false }], terminators: seq![], parse_mode: ParseMode::Strict }) }, GrammarView::Optional { grammar: Box::new(GrammarView::Sequence { elements: seq![GrammarView::Keyword { word: "CODEC"@ }, GrammarView::Bracketed { elements: seq![GrammarView::Delimited { elements: seq![GrammarView::OneOf { elements: seq![GrammarView::Ref { name: "FunctionSegment"@, optional: false }, GrammarView::Ref { name: "SingleIdentifierGrammar"@, optional: false }], terminators: seq![] }], allow_trailing: false, delimiter: None, terminators: seq![], allow_gaps: true }], bracket_type: "round"@ }], terminators: seq![], parse_mode: ParseMode::Strict }) }]);
    let g116: Vec<Grammar> = Vec::new();
    assert(views(g116@) =~= Seq::<GrammarView>::empty());
    let g117 = Grammar::sequence_with(g115, g116, ParseMode::Strict);
    let g118: Vec<Grammar> = vec![Grammar::keyword("ALIAS"), Grammar::reference("ExpressionSegment")];
    assert(views(g118@) =~~= seq![GrammarView::Keyword { word: "ALIAS"@ }, GrammarView::Ref { name: "ExpressionSegment"@, optional: false }]);
    let g119: Vec<Grammar> = Vec::new();
    assert(views(g119@) =~= Seq::<GrammarView>::empty());
    let g120 = Grammar::sequence_with(g118, g119, ParseMode::Strict);
    let g121: Vec<Grammar> = vec![Grammar::keyword("REMOVE"), Grammar::reference("ALIAS")];
    assert(views(g121@) =~~= seq![GrammarView::Keyword { word: "REMOVE"@ }, GrammarView::Ref { name: "ALIAS"@, optional: false }]);
    let g122: Vec<Grammar> = Vec::new();
    assert(views(g122@) =~= Seq::<GrammarView>::empty());
    let g123 = Grammar::sequence_with(g121, g122, ParseMode::Strict);
    let g124: Vec<Grammar> = vec![Grammar::keyword("ALIAS"), Grammar::keyword("DEFAULT"), Grammar::keyword("MATERIALIZED"), Grammar::keyword("CODEC"), Grammar::keyword("COMMENT"), Grammar::keyword("TTL")];
    assert(views(g124@) =~~= seq![GrammarView::Keyword { word: "ALIAS"@ }, GrammarView::Keyword { word: "DEFAULT"@ }, GrammarView::Keyword { word: "MATERIALIZED"@ }, GrammarView::Keyword { word: "CODEC"@ }, GrammarView::Keyword { word: "COMMENT"@ }, GrammarView::Keyword { word: "TTL"@ }]);
    let g125: Vec<Grammar> = Vec::new();
    assert(views(g125@) =~= Seq::<GrammarView>::empty());
    let g126 = Grammar::one_of_with(g124, g125);
    let g127: Vec<Grammar> = vec![Grammar::keyword("REMOVE"), g126];
    assert(views(g127@) =~~= seq![GrammarView::Keyword { word: "REMOVE"@ }, GrammarView::OneOf { elements: seq![GrammarView::Keyword { word: "ALIAS"@ }, GrammarView::Keyword { word: "DEFAULT"@ }, GrammarView::Keyword { word: "MATERIALIZED"@ }, GrammarView::Keyword { word: "CODEC"@ }, GrammarView::Keyword { word: "COMMENT"@ }, GrammarView::Keyword { word: "TTL"@ }], terminators: seq![] }]);
    let g128: Vec<Grammar> = Vec::new();
    assert(views(g128@) =~= Seq::<GrammarView>::empty());
    let g129 = Grammar::sequence_with(g127, g128, ParseMode::Strict);
    let g130: Vec<Grammar> = vec![Grammar::keyword("MODIFY"), Grammar::keyword("SETTING"), Grammar::reference("SingleIdentifierGrammar"), Grammar::reference("EqualsSegment"), Grammar::reference("LiteralGrammar")];
    assert(views(g130@) =~~= seq![GrammarView::Keyword { word: "MODIFY"@ }, GrammarView::Keyword { word: "SETTING"@ }, GrammarView::Ref { name: "SingleIdentifierGrammar"@, optional: false }, GrammarView::Ref { name: "EqualsSegment"@, optional: false }, GrammarView::Ref { name: "LiteralGrammar"@, optional: false }]);
    let g131: Vec<Grammar> = Vec::new();
    assert(views(g131@) =~= Seq::<GrammarView>::empty());
    let g132 = Grammar::sequence_with(g130, g131, ParseMode::Strict);
    let g133: Vec<Grammar> = vec![Grammar::keyword("RESET"), Grammar::keyword("SETTING"), Grammar::reference("SingleIdentifierGrammar")];
    assert(views(g133@) =~~= seq![GrammarView::Keyword { word: "RESET"@ }, GrammarView::Keyword { word: "SETTING"@ }, GrammarView::Ref { name: "SingleIdentifierGrammar"@, optional: false }]);
    let g134: Vec<Grammar> = Vec::new();
    assert(views(g134@) =~= Seq::<GrammarView>::empty());
    let g135 = Grammar::sequence_with(g133, g134, ParseMode::Strict);
    let g136: Vec<Grammar> = vec![g90, g117, g120, g123, g129, g132, g135];
    assert(views(g136@) =~~= seq![GrammarView::Sequence { elements: seq![GrammarView::Keyword { word: "TYPE"@ }, GrammarView::Ref { name: "DatatypeSegment"@, optional: false }, GrammarView::Optional { grammar: Box::new(GrammarView::Sequence { elements: seq![GrammarView::Keyword { word: "DEFAULT"@ }, GrammarView::Ref { name: "ExpressionSegment"@, optional: false }], terminators: seq![], parse_mode: ParseMode::Strict }) }, GrammarView::Optional { grammar: Box::new(GrammarView::Sequence { elements: seq![GrammarView::Keyword { word: "MATERIALIZED"@ }, GrammarView::Ref { name: "ExpressionSegment"@, optional: false }], terminators: seq![], parse_mode: ParseMode::Strict }) }, GrammarView::Optional { grammar: Box::new(GrammarView::Sequence { elements: seq![GrammarView::Keyword { word: "CODEC"@ }, GrammarView::Bracketed { elements: seq![GrammarView::Delimited { elements: seq![GrammarView::OneOf { elements: seq![GrammarView::Ref { name: "FunctionSegment"@, optional: false }, GrammarView::Ref { name: "SingleIdentifierGrammar"@, optional: false }], terminators: seq![] }], allow_trailing: false, delimiter: None, terminators: seq![], allow_gaps: true }], bracket_type: "round"@ }], terminators: seq![], parse_mode: ParseMode::Strict }) }], terminators: seq![], parse_mode: ParseMode::Strict }, GrammarView::Sequence { elements: seq![GrammarView::Ref { name: "DatatypeSegment"@, optional: true }, GrammarView::Optional { grammar: Box::new(GrammarView::Sequence { elements: seq![GrammarView::Keyword { word: "DEFAULT"@ }, GrammarView::Ref { name: "ExpressionSegment"@, optional: false }], terminators: seq![], parse_mode: ParseMode::Strict }) }, GrammarView::Optional { grammar: Box::new(GrammarView::Sequence { elements: seq![GrammarView::Keyword { word: "MATERIALIZED"@ }, GrammarView::Ref { name: "ExpressionSegment"@, optional: false }], terminators: seq![], parse_mode: ParseMode::Strict }) }, GrammarView::Optional { grammar: Box::new(GrammarView::Sequence { elements: seq![GrammarView::Keyword { word: "ALIAS"@ }, GrammarView::Ref { name: "ExpressionSegment"@, optional: false }], terminators: seq![], parse_mode: ParseMode::Strict }) }, GrammarView::Optional { grammar: Box::new(GrammarView::Sequence { elements: seq![GrammarView::Keyword { word: "CODEC"@ }, GrammarView::Bracketed { elements: seq![GrammarView::Delimited { elements: seq![GrammarView::OneOf { elements: seq![GrammarView::Ref { name: "FunctionSegment"@, optional: false }, GrammarView::Ref { name: "SingleIdentifierGrammar"@, optional: false }], terminators: seq![] }], allow_trailing: false, delimiter: None, terminators: seq![], allow_gaps: true }], bracket_type: "round"@ }], terminators: seq![], parse_mode: ParseMode::Strict }) }], terminators: seq![], parse_mode: ParseMode::Strict }, GrammarView::Sequence { elements: seq![GrammarView::Keyword { word: "ALIAS"@ }, GrammarView::Ref { name: "ExpressionSegment"@, optional: false }], terminators: seq![], parse_mode: ParseMode::Strict }, GrammarView::Sequence { elements: seq![GrammarView::Keyword { word: "REMOVE"@ }, GrammarView::Ref { name: "ALIAS"@, optional: false }], terminators: seq![], parse_mode: ParseMode::Strict }, GrammarView::Sequence { elements: seq![GrammarView::Keyword { word: "REMOVE"@ }, GrammarView::OneOf { elements: seq![GrammarView::Keyword { word: "ALIAS"@ }, GrammarView::Keyword { word: "DEFAULT"@ }, GrammarView::Keyword { word: "MATERIALIZED"@ }, GrammarView::Keyword { word: "CODEC"@ }, GrammarView::Keyword { word: "COMMENT"@ }, GrammarView::Keyword { word: "TTL"@ }], terminators: seq![] }], terminators: seq![], parse_mode: ParseMode::Strict }, GrammarView::Sequence { elements: seq![GrammarView::Keyword { word: "MODIFY"@ }, GrammarView::Keyword { word: "SETTING"@ }, GrammarView::Ref { name: "SingleIdentifierGrammar"@, optional: false }, GrammarView::Ref { name: "EqualsSegment"@, optional: false }, GrammarView::Ref { name: "LiteralGrammar"@, optional: false }], terminators: seq![], parse_mode: ParseMode::Strict }, GrammarView::Sequence { elements: seq![GrammarView::Keyword { word: "RESET"@ }, GrammarView::Keyword { word: "SETTING"@ }, GrammarView::Ref { name: "SingleIdentifierGrammar"@, optional: false }], terminators: seq![], parse_mode: ParseMode::Strict }]);
    let g137: Vec<Grammar> = Vec::new();
    assert(views(g137@) =~= Seq::<GrammarView>::empty());
    let g138 = Grammar::one_of_with(g136, g137);
    let g139 = g138.optional();
    let g140: Vec<Grammar> = vec![Grammar::keyword("AFTER"), Grammar::reference("SingleIdentifierGrammar")];
    assert(views(g140@) =~~= seq![GrammarView::Keyword { word: "AFTER"@ }, GrammarView::Ref { name: "SingleIdentifierGrammar"@, optional: false }]);
    let g141: Vec<Grammar> = Vec::new();
    assert(views(g141@) =~= Seq::<GrammarView>::empty());
    let g142 = Grammar::sequence_with(g140, g141, ParseMode::Strict);
    let g143: Vec<Grammar> = vec![g142, Grammar::keyword("FIRST")];
    assert(views(g143@) =~~= seq![GrammarView::Sequence { elements: seq![GrammarView::Keyword { word: "AFTER"@ }, GrammarView::Ref { name: "SingleIdentifierGrammar"@, optional: false }], terminators: seq![], parse_mode: ParseMode::Strict }, GrammarView::Keyword { word: "FIRST"@ }]);
    let g144: Vec<Grammar> = Vec::new();
    assert(views(g144@) =~= Seq::<GrammarView>::empty());
    let g145 = Grammar::one_of_with(g143, g144);
    let g146 = g145.optional();
    let g147: Vec<Grammar> = vec![Grammar::keyword("MODIFY"), Grammar::keyword("COLUMN"), Grammar::optional_reference("IfExistsGrammar"), Grammar::reference("SingleIdentifierGrammar"), g139, g146];
    assert(views(g147@) =~~= seq![GrammarView::Keyword { word: "MODIFY"@ }, GrammarView::Keyword { word: "COLUMN"@ }, GrammarView::Ref { name: "IfExistsGrammar"@, optional: true }, GrammarView::Ref { name: "SingleIdentifierGrammar"@, optional: false }, GrammarView::Optional { grammar: Box::new(GrammarView::OneOf { elements: seq![GrammarView::Sequence { elements: seq![GrammarView::Keyword { word: "TYPE"@ }, GrammarView::Ref { name: "DatatypeSegment"@, optional: false }, GrammarView::Optional { grammar: Box::new(GrammarView::Sequence { elements: seq![GrammarView::Keyword { word: "DEFAULT"@ }, GrammarView::Ref { name: "ExpressionSegment"@, optional: false }], terminators: seq![], parse_mode: ParseMode::Strict }) }, GrammarView::Optional { grammar: Box::new(GrammarView::Sequence { elements: seq![GrammarView::Keyword { word: "MATERIALIZED"@ }, GrammarView::Ref { name: "ExpressionSegment"@, optional: false }], terminators: seq![], parse_mode: ParseMode::Strict }) }, GrammarView::Optional { grammar: Box::new(GrammarView::Sequence { elements: seq![GrammarView::Keyword { word: "CODEC"@ }, GrammarView::Bracketed { elements: seq![GrammarView::Delimited { elements: seq![GrammarView::OneOf { elements: seq![GrammarView::Ref { name: "FunctionSegment"@, optional: false }, GrammarView::Ref { name: "SingleIdentifierGrammar"@, optional: false }], terminators: seq![] }], allow_trailing: false, delimiter: None, terminators: seq![], allow_gaps: true }], bracket_type: "round"@ }], terminators: seq![], parse_mode: ParseMode::Strict }) }], terminators: seq![], parse_mode: ParseMode::Strict }, GrammarView::Sequence { elements: seq![GrammarView::Ref { name: "DatatypeSegment"@, optional: true }, GrammarView::Optional { grammar: Box::new(GrammarView::Sequence { elements: seq![GrammarView::Keyword { word: "DEFAULT"@ }, GrammarView::Ref { name: "ExpressionSegment"@, optional: false }], terminators: seq![], parse_mode: ParseMode::Strict }) }, GrammarView::Optional { grammar: Box::new(GrammarView::Sequence { elements: seq![GrammarView::Keyword { word: "MATERIALIZED"@ }, GrammarView::Ref { name: "ExpressionSegment"@, optional: false }], terminators: seq![], parse_mode: ParseMode::Strict }) }, GrammarView::Optional { grammar: Box::new(GrammarView::Sequence { elements: seq![GrammarView::Keyword { word: "ALIAS"@ }, GrammarView::Ref { name: "ExpressionSegment"@, optional: false }], terminators: seq![], parse_mode: ParseMode::Strict }) }, GrammarView::Optional { grammar: Box::new(GrammarView::Sequence { elements: seq![GrammarView::Keyword { word: "CODEC"@ }, GrammarView::Bracketed { elements: seq![GrammarView::Delimited { elements: seq![GrammarView::OneOf { elements: seq![GrammarView::Ref { name: "FunctionSegment"@, optional: false }, GrammarView::Ref { name: "SingleIdentifierGrammar"@, optional: false }], terminators: seq![] }], allow_trailing: false, delimiter: None, terminators: seq![], allow_gaps: true }], bracket_type: "round"@ }], terminators: seq![], parse_mode: ParseMode::Strict }) }], terminators: seq![], parse_mode: ParseMode::Strict }, GrammarView::Sequence { elements: seq![GrammarView::Keyword { word: "ALIAS"@ }, GrammarView::Ref { name: "ExpressionSegment"@, optional: false }], terminators: seq![], parse_mode: ParseMode::Strict }, GrammarView::Sequence { elements: seq![GrammarView::Keyword { word: "REMOVE"@ }, GrammarView::Ref { name: "ALIAS"@, optional: false }], terminators: seq![], parse_mode: ParseMode::Strict }, GrammarView::Sequence { elements: seq![GrammarView::Keyword { word: "REMOVE"@ }, GrammarView::OneOf { elements: seq![GrammarView::Keyword { word: "ALIAS"@ }, GrammarView::Keyword { word: "DEFAULT"@ }, GrammarView::Keyword { word: "MATERIALIZED"@ }, GrammarView::Keyword { word: "CODEC"@ }, GrammarView::Keyword { word: "COMMENT"@ }, GrammarView::Keyword { word: "TTL"@ }], terminators: seq![] }], terminators: seq![], parse_mode: ParseMode::Strict }, GrammarView::Sequence { elements: seq![GrammarView::Keyword { word: "MODIFY"@ }, GrammarView::Keyword { word: "SETTING"@ }, GrammarView::Ref { name: "SingleIdentifierGrammar"@, optional: false }, GrammarView::Ref { name: "EqualsSegment"@, optional: false }, GrammarView::Ref { name: "LiteralGrammar"@, optional: false }], terminators: seq![], parse_mode: ParseMode::Strict }, GrammarView::Sequence { elements: seq![GrammarView::Keyword { word: "RESET"@ }, GrammarView::Keyword { word: "SETTING"@ }, GrammarView::Ref { name: "SingleIdentifierGrammar"@, optional: false }], terminators: seq![], parse_mode: ParseMode::Strict }], terminators: seq![] }) }, GrammarView::Optional { grammar: Box::new(GrammarView::OneOf { elements: seq![GrammarView::Sequence { elements: seq![GrammarView::Keyword { word: "AFTER"@ }, GrammarView::Ref { name: "SingleIdentifierGrammar"@, optional: false }], terminators: seq![], parse_mode: ParseMode::Strict }, GrammarView::Keyword { word: "FIRST"@ }], terminators: seq![] }) }]);
    let g148: Vec<Grammar> = Vec::new();
    assert(views(g148@) =~= Seq::<GrammarView>::empty());
    let g149 = Grammar::sequence_with(g147, g148, ParseMode::Strict);
    let g150: Vec<Grammar> = vec![Grammar::keyword("TYPE"), Grammar::reference("DatatypeSegment")];
    assert(views(g150@) =~~= seq![GrammarView::Keyword { word: "TYPE"@ }, GrammarView::Ref { name: "DatatypeSegment"@, optional: false }]);
    let g151: Vec<Grammar> = Vec::new();
    assert(views(g151@) =~= Seq::<GrammarView>::empty());
    let g152 = Grammar::sequence_with(g150, g151, ParseMode::Strict);
    let g153: Vec<Grammar> = vec![g152, Grammar::reference("DatatypeSegment")];
    assert(views(g153@) =~~= seq![GrammarView::Sequence { elements: seq![GrammarView::Keyword { word: "TYPE"@ }, GrammarView::Ref { name: "DatatypeSegment"@, optional: false }], terminators: seq![], parse_mode: ParseMode::Strict }, GrammarView::Ref { name: "DatatypeSegment"@, optional: false }]);
    let g154: Vec<Grammar> = Vec::new();
    assert(views(g154@) =~= Seq::<GrammarView>::empty());
    let g155 = Grammar::one_of_with(g153, g154);
    let g156: Vec<Grammar> = vec![Grammar::keyword("AFTER"), Grammar::reference("SingleIdentifierGrammar")];
    assert(views(g156@) =~~= seq![GrammarView::Keyword { word: "AFTER"@ }, GrammarView::Ref { name: "SingleIdentifierGrammar"@, optional: false }]);
    let g157: Vec<Grammar> = Vec::new();
    assert(views(g157@) =~= Seq::<GrammarView>::empty());
    let g158 = Grammar::sequence_with(g156, g157, ParseMode::Strict);
    let g159: Vec<Grammar> = vec![g158, Grammar::keyword("FIRST")];
    assert(views(g159@) =~~= seq![GrammarView::Sequence { elements: seq![GrammarView::Keyword { word: "AFTER"@ }, GrammarView::Ref { name: "SingleIdentifierGrammar"@, optional: false }], terminators: seq![], parse_mode: ParseMode::Strict }, GrammarView::Keyword { word: "FIRST"@ }]);
    let g160: Vec<Grammar> = Vec::new();
    assert(views(g160@) =~= Seq::<GrammarView>::empty());
    let g161 = Grammar::one_of_with(g159, g160);
    let g162 = g161.optional();
    let g163: Vec<Grammar> = vec![Grammar::keyword("ALTER"), Grammar::keyword("COLUMN"), Grammar::optional_reference("IfExistsGrammar"), Grammar::reference("SingleIdentifierGrammar"), g155, g162];
    assert(views(g163@) =~~= seq![GrammarView::Keyword { word: "ALTER"@ }, GrammarView::Keyword { word: "COLUMN"@ }, GrammarView::Ref { name: "IfExistsGrammar"@, optional: true }, GrammarView::Ref { name: "SingleIdentifierGrammar"@, optional: false }, GrammarView::OneOf { elements: seq![GrammarView::Sequence { elements: seq![GrammarView::Keyword { word: "TYPE"@ }, GrammarView::Ref { name: "DatatypeSegment"@, optional: false }], terminators: seq![], parse_mode: ParseMode::Strict }, GrammarView::Ref { name: "DatatypeSegment"@, optional: false }], terminators: seq![] }, GrammarView::Optional { grammar: Box::new(GrammarView::OneOf { elements: seq![GrammarView::Sequence { elements: seq![GrammarView::Keyword { word: "AFTER"@ }, GrammarView::Ref { name: "SingleIdentifierGrammar"@, optional: false }], terminators: seq![], parse_mode: ParseMode::Strict }, GrammarView::Keyword { word: "FIRST"@ }], terminators: seq![] }) }]);
    let g164: Vec<Grammar> = Vec::new();
    assert(views(g164@) =~= Seq::<GrammarView>::empty());
    let g165 = Grammar::sequence_with(g163, g164, ParseMode::Strict);
    let g166: Vec<Grammar> = vec![Grammar::keyword("REMOVE"), Grammar::keyword("TTL")];
    assert(views(g166@) =~~= seq![GrammarView::Keyword { word: "REMOVE"@ }, GrammarView::Keyword { word: "TTL"@ }]);
    let g167: Vec<Grammar> = Vec::new();
    assert(views(g167@) =~= Seq::<GrammarView>::empty());
    let g168 = Grammar::sequence_with(g166, g167, ParseMode::Strict);
    let g169: Vec<Grammar> = vec![Grammar::keyword("MODIFY"), Grammar::keyword("TTL"), Grammar::reference("ExpressionSegment")];
    assert(views(g169@) =~~= seq![GrammarView::Keyword { word: "MODIFY"@ }, GrammarView::Keyword { word: "TTL"@ }, GrammarView::Ref { name: "ExpressionSegment"@, optional: false }]);
    let g170: Vec<Grammar> = Vec::new();
    assert(views(g170@) =~= Seq::<GrammarView>::empty());
    let g171 = Grammar::sequence_with(g169, g170, ParseMode::Strict);
    let g172: Vec<Grammar> = vec![Grammar::keyword("MODIFY"), Grammar::keyword("QUERY"), Grammar::reference("SelectStatementSegment")];
    assert(views(g172@) =~~= seq![GrammarView::Keyword { word: "MODIFY"@ }, GrammarView::Keyword { word: "QUERY"@ }, GrammarView::Ref { name: "SelectStatementSegment"@, optional: false }]);
    let g173: Vec<Grammar> = Vec::new();
    assert(views(g173@) =~= Seq::<GrammarView>::empty());
    let g174 = Grammar::sequence_with(g172, g173, ParseMode::Strict);
    let g175: Vec<Grammar> = vec![Grammar::keyword("IN"), Grammar::keyword("PARTITION"), Grammar::reference("SingleIdentifierGrammar")];
    assert(views(g175@) =~~= seq![GrammarView::Keyword { word: "IN"@ }, GrammarView::Keyword { word: "PARTITION"@ }, GrammarView::Ref { name: "SingleIdentifierGrammar"@, optional: false }]);
    let g176: Vec<Grammar> = Vec::new();
    assert(views(g176@) =~= Seq::<GrammarView>::empty());
    let g177 = Grammar::sequence_with(g175, g176, ParseMode::Strict);
    let g178: Vec<Grammar> = vec![Grammar::keyword("IN"), Grammar::keyword("PARTITION"), Grammar::keyword("ID"), Grammar::reference("QuotedLiteralSegment")];
    assert(views(g178@) =~~= seq![GrammarView::Keyword { word: "IN"@ }, GrammarView::Keyword { word: "PARTITION"@ }, GrammarView::Keyword { word: "ID"@ }, GrammarView::Ref { name: "QuotedLiteralSegment"@, optional: false }]);
    let g179: Vec<Grammar> = Vec::new();
    assert(views(g179@) =~= Seq::<GrammarView>::empty());
    let g180 = Grammar::sequence_with(g178, g179, ParseMode::Strict);
    let g181: Vec<Grammar> = vec![g177, g180];
    assert(views(g181@) =~~= seq![GrammarView::Sequence { elements: seq![GrammarView::Keyword { word: "IN"@ }, GrammarView::Keyword { word: "PARTITION"@ }, GrammarView::Ref { name: "SingleIdentifierGrammar"@, optional: false }], terminators: seq![], parse_mode: ParseMode::Strict }, GrammarView::Sequence { elements: seq![GrammarView::Keyword { word: "IN"@ }, GrammarView::Keyword { word: "PARTITION"@ }, GrammarView::Keyword { word: "ID"@ }, GrammarView::Ref { name: "QuotedLiteralSegment"@, optional: false }], terminators: seq![], parse_mode: ParseMode::Strict }]);
    let g182: Vec<Grammar> = Vec::new();
    assert(views(g182@) =~= Seq::<GrammarView>::empty());
    let g183 = Grammar::one_of_with(g181, g182);
    let g184 = g183.optional();
    let g185: Vec<Grammar> = vec![Grammar::keyword("MATERIALIZE"), Grammar::keyword("COLUMN"), Grammar::reference("SingleIdentifierGrammar"), g184];
    assert(views(g185@) =~~= seq![GrammarView::Keyword { word: "MATERIALIZE"@ }, GrammarView::Keyword { word: "COLUMN"@ }, GrammarView::Ref { name: "SingleIdentifierGrammar"@, optional: false }, GrammarView::Optional { grammar: Box::new(GrammarView::OneOf { elements: seq![GrammarView::Sequence { elements: seq![GrammarView::Keyword { word: "IN"@ }, GrammarView::Keyword { word: "PARTITION"@ }, GrammarView::Ref { name: "SingleIdentifierGrammar"@, optional: false }], terminators: seq![], parse_mode: ParseMode::Strict }, GrammarView::Sequence { elements: seq![GrammarView::Keyword { word: "IN"@ }, GrammarView::Keyword { word: "PARTITION"@ }, GrammarView::Keyword { word: "ID"@ }, GrammarView::Ref { name: "QuotedLiteralSegment"@, optional: false }], terminators: seq![], parse_mode: ParseMode::Strict }], terminators: seq![] }) }]);
    let g186: Vec<Grammar> = Vec::new();
    assert(views(g186@) =~= Seq::<GrammarView>::empty());
    let g187 = Grammar::sequence_with(g185, g186, ParseMode::Strict);
    let g188: Vec<Grammar> = vec![Grammar::keyword("PARTITION"), Grammar::keyword("PART")];
    assert(views(g188@) =~~= seq![GrammarView::Keyword { word: "PARTITION"@ }, GrammarView::Keyword { word: "PART"@ }]);
    let g189: Vec<Grammar> = Vec::new();
    assert(views(g189@) =~= Seq::<GrammarView>::empty());
    let g190 = Grammar::one_of_with(g188, g189);
    let g191: Vec<Grammar> = vec![Grammar::keyword("DROP"), g190, Grammar::reference("SingleIdentifierGrammar")];
    assert(views(g191@) =~~= seq![GrammarView::Keyword { word: "DROP"@ }, GrammarView::OneOf { elements: seq![GrammarView::Keyword { word: "PARTITION"@ }, GrammarView::Keyword { word: "PART"@ }], terminators: seq![] }, GrammarView::Ref { name: "SingleIdentifierGrammar"@, optional: false }]);
    let g192: Vec<Grammar> = Vec::new();
    assert(views(g192@) =~= Seq::<GrammarView>::empty());
    let g193 = Grammar::sequence_with(g191, g192, ParseMode::Strict);
    let g194: Vec<Grammar> = vec![Grammar::keyword("REPLACE"), Grammar::keyword("PARTITION"), Grammar::reference("SingleIdentifierGrammar"), Grammar::keyword("FROM"), Grammar::reference("TableReferenceSegment")];
    assert(views(g194@) =~~= seq![GrammarView::Keyword { word: "REPLACE"@ }, GrammarView::Keyword { word: "PARTITION"@ }, GrammarView::Ref { name: "SingleIdentifierGrammar"@, optional: false }, GrammarView::Keyword { word: "FROM"@ }, GrammarView::Ref { name: "TableReferenceSegment"@, optional: false }]);
    let g195: Vec<Grammar> = Vec::new();
    assert(views(g195@) =~= Seq::<GrammarView>::empty());
    let g196 = Grammar::sequence_with(g194, g195, ParseMode::Strict);
    let g197: Vec<Grammar> = vec![g3, g52, g55, g58, g61, g64, g67, g149, g165, g168, g171, g174, g187, g193, g196];
    assert(views(g197@) =~~= seq![GrammarView::Sequence { elements: seq![GrammarView::Keyword { word: "DROP"@ }, GrammarView::Keyword { word: "COLUMN"@ }, GrammarView::Ref { name: "IfExistsGrammar"@, optional: true }, GrammarView::Ref { name: "SingleIdentifierGrammar"@, optional: false }], terminators: seq![], parse_mode: ParseMode::Strict }, GrammarView::Sequence { elements: seq![GrammarView::Keyword { word: "ADD"@ }, GrammarView::Keyword { word: "COLUMN"@ }, GrammarView::Ref { name: "IfNotExistsGrammar"@, optional: true }, GrammarView::Ref { name: "SingleIdentifierGrammar"@, optional: false }, GrammarView::Optional { grammar: Box::new(GrammarView::OneOf { elements: seq![GrammarView::Sequence { elements: seq![GrammarView::Ref { name: "DatatypeSegment"@, optional: false }, GrammarView::Optional { grammar: Box::new(GrammarView::Sequence { elements: seq![GrammarView::Keyword { word: "DEFAULT"@ }, GrammarView::Ref { name: "ExpressionSegment"@, optional: false }], terminators: seq![], parse_mode: ParseMode::Strict }) }, GrammarView::Optional { grammar: Box::new(GrammarView::Sequence { elements: seq![GrammarView::Keyword { word: "MATERIALIZED"@ }, GrammarView::Ref { name: "ExpressionSegment"@, optional: false }], terminators: seq![], parse_mode: ParseMode::Strict }) }, GrammarView::Optional { grammar: Box::new(GrammarView::Sequence { elements: seq![GrammarView::Keyword { word: "CODEC"@ }, GrammarView::Bracketed { elements: seq![GrammarView::Delimited { elements: seq![GrammarView::OneOf { elements: seq![GrammarView::Ref { name: "FunctionSegment"@, optional: false }, GrammarView::Ref { name: "SingleIdentifierGrammar"@, optional: false }], terminators: seq![] }], allow_trailing: false, delimiter: None, terminators: seq![], allow_gaps: true }], bracket_type: "round"@ }], terminators: seq![], parse_mode: ParseMode::Strict }) }], terminators: seq![], parse_mode: ParseMode::Strict }, GrammarView::Sequence { elements: seq![GrammarView::Ref { name: "DatatypeSegment"@, optional: false }, GrammarView::Keyword { word: "ALIAS"@ }, GrammarView::Ref { name: "ExpressionSegment"@, optional: false }], terminators: seq![], parse_mode: ParseMode::Strict }, GrammarView::Sequence { elements: seq![GrammarView::Keyword { word: "ALIAS"@ }, GrammarView::Ref { name: "ExpressionSegment"@, optional: false }], terminators: seq![], parse_mode: ParseMode::Strict }, GrammarView::Sequence { elements: seq![GrammarView::Keyword { word: "DEFAULT"@ }, GrammarView::Ref { name: "ExpressionSegment"@, optional: false }], terminators: seq![], parse_mode: ParseMode::Strict }, GrammarView::Sequence { elements: seq![GrammarView::Keyword { word: "MATERIALIZED"@ }, GrammarView::Ref { name: "ExpressionSegment"@, optional: false }], terminators: seq![], parse_mode: ParseMode::Strict }], terminators: seq![] }) }, GrammarView::Optional { grammar: Box::new(GrammarView::OneOf { elements: seq![GrammarView::Sequence { elements: seq![GrammarView::Keyword { word: "AFTER"@ }, GrammarView::Ref { name: "SingleIdentifierGrammar"@, optional: false }], terminators: seq![], parse_mode: ParseMode::Strict }, GrammarView::Keyword { word: "FIRST"@ }], terminators: seq![] }) }], terminators: seq![], parse_mode: ParseMode::Strict }, GrammarView::Sequence { elements: seq![GrammarView::Keyword { word: "ADD"@ }, GrammarView::Keyword { word: "ALIAS"@ }, GrammarView::Ref { name: "IfNotExistsGrammar"@, optional: true }, GrammarView::Ref { name: "SingleIdentifierGrammar"@, optional: false }, GrammarView::Keyword { word: "FOR"@ }, GrammarView::Ref { name: "SingleIdentifierGrammar"@, optional: false }], terminators: seq![], parse_mode: ParseMode::Strict }, GrammarView::Sequence { elements: seq![GrammarView::Keyword { word: "RENAME"@ }, GrammarView::Keyword { word: "COLUMN"@ }, GrammarView::Ref { name: "IfExistsGrammar"@, optional: true }, GrammarView::Ref { name: "SingleIdentifierGrammar"@, optional: false }, GrammarView::Keyword { word: "TO"@ }, GrammarView::Ref { name: "SingleIdentifierGrammar"@, optional: false }], terminators: seq![], parse_mode: ParseMode::Strict }, GrammarView::Sequence { elements: seq![GrammarView::Keyword { word: "COMMENT"@ }, GrammarView::Keyword { word: "COLUMN"@ }, GrammarView::Ref { name: "IfExistsGrammar"@, optional: true }, GrammarView::Ref { name: "SingleIdentifierGrammar"@, optional: false }, GrammarView::Ref { name: "QuotedLiteralSegment"@, optional: false }], terminators: seq![], parse_mode: ParseMode::Strict }, GrammarView::Sequence { elements: seq![GrammarView::Keyword { word: "COMMENT"@ }, GrammarView::Ref { name: "QuotedLiteralSegment"@, optional: false }], terminators: seq![], parse_mode: ParseMode::Strict }, GrammarView::Sequence { elements: seq![GrammarView::Keyword { word: "MODIFY"@ }, GrammarView::Keyword { word: "COMMENT"@ }, GrammarView::Ref { name: "QuotedLiteralSegment"@, optional: false }], terminators: seq![], parse_mode: ParseMode::Strict }, GrammarView::Sequence { elements: seq![GrammarView::Keyword { word: "MODIFY"@ }, GrammarView::Keyword { word: "COLUMN"@ }, GrammarView::Ref { name: "IfExistsGrammar"@, optional: true }, GrammarView::Ref { name: "SingleIdentifierGrammar"@, optional: false }, GrammarView::Optional { grammar: Box::new(GrammarView::OneOf { elements: seq![GrammarView::Sequence { elements: seq![GrammarView::Keyword { word: "TYPE"@ }, GrammarView::Ref { name: "DatatypeSegment"@, optional: false }, GrammarView::Optional { grammar: Box::new(GrammarView::Sequence { elements: seq![GrammarView::Keyword { word: "DEFAULT"@ }, GrammarView::Ref { name: "ExpressionSegment"@, optional: false }], terminators: seq![], parse_mode: ParseMode::Strict }) }, GrammarView::Optional { grammar: Box::new(GrammarView::Sequence { elements: seq![GrammarView::Keyword { word: "MATERIALIZED"@ }, GrammarView::Ref { name: "ExpressionSegment"@, optional: false }], terminators: seq![], parse_mode: ParseMode::Strict }) }, GrammarView::Optional { grammar: Box::new(GrammarView::Sequence { elements: seq![GrammarView::Keyword { word: "CODEC"@ }, GrammarView::Bracketed { elements: seq![GrammarView::Delimited { elements: seq![GrammarView::OneOf { elements: seq![GrammarView::Ref { name: "FunctionSegment"@, optional: false }, GrammarView::Ref { name: "SingleIdentifierGrammar"@, optional: false }], terminators: seq![] }], allow_trailing: false, delimiter: None, terminators: seq![], allow_gaps: true }], bracket_type: "round"@ }], terminators: seq![], parse_mode: ParseMode::Strict }) }], terminators: seq![], parse_mode: ParseMode::Strict }, GrammarView::Sequence { elements: seq![GrammarView::Ref { name: "DatatypeSegment"@, optional: true }, GrammarView::Optional { grammar: Box::new(GrammarView::Sequence { elements: seq![GrammarView::Keyword { word: "DEFAULT"@ }, GrammarView::Ref { name: "ExpressionSegment"@, optional: false }], terminators: seq![], parse_mode: ParseMode::Strict }) }, GrammarView::Optional { grammar: Box::new(GrammarView::Sequence { elements: seq![GrammarView::Keyword { word: "MATERIALIZED"@ }, GrammarView::Ref { name: "ExpressionSegment"@, optional: false }], terminators: seq![], parse_mode: ParseMode::Strict }) }, GrammarView::Optional { grammar: Box::new(GrammarView::Sequence { elements: seq![GrammarView::Keyword { word: "ALIAS"@ }, GrammarView::Ref { name: "ExpressionSegment"@, optional: false }], terminators: seq![], parse_mode: ParseMode::Strict }) }, GrammarView::Optional { grammar: Box::new(GrammarView::Sequence { elements: seq![GrammarView::Keyword { word: "CODEC"@ }, GrammarView::Bracketed { elements: seq![GrammarView::Delimited { elements: seq![GrammarView::OneOf { elements: seq![GrammarView::Ref { name: "FunctionSegment"@, optional: false }, GrammarView::Ref { name: "SingleIdentifierGrammar"@, optional: false }], terminators: seq![] }], allow_trailing: false, delimiter: None, terminators: seq![], allow_gaps: true }], bracket_type: "round"@ }], terminators: seq![], parse_mode: ParseMode::Strict }) }], terminators: seq![], parse_mode: ParseMode::Strict }, GrammarView::Sequence { elements: seq![GrammarView::Keyword { word: "ALIAS"@ }, GrammarView::Ref { name: "ExpressionSegment"@, optional: false }], terminators: seq![], parse_mode: ParseMode::Strict }, GrammarView::Sequence { elements: seq![GrammarView::Keyword { word: "REMOVE"@ }, GrammarView::Ref { name: "ALIAS"@, optional: false }], terminators: seq![], parse_mode: ParseMode::Strict }, GrammarView::Sequence { elements: seq![GrammarView::Keyword { word: "REMOVE"@ }, GrammarView::OneOf { elements: seq![GrammarView::Keyword { word: "ALIAS"@ }, GrammarView::Keyword { word: "DEFAULT"@ }, GrammarView::Keyword { word: "MATERIALIZED"@ }, GrammarView::Keyword { word: "CODEC"@ }, GrammarView::Keyword { word: "COMMENT"@ }, GrammarView::Keyword { word: "TTL"@ }], terminators: seq![] }], terminators: seq![], parse_mode: ParseMode::Strict }, GrammarView::Sequence { elements: seq![GrammarView::Keyword { word: "MODIFY"@ }, GrammarView::Keyword { word: "SETTING"@ }, GrammarView::Ref { name: "SingleIdentifierGrammar"@, optional: false }, GrammarView::Ref { name: "EqualsSegment"@, optional: false }, GrammarView::Ref { name: "LiteralGrammar"@, optional: false }], terminators: seq![], parse_mode: ParseMode::Strict }, GrammarView::Sequence { elements: seq![GrammarView::Keyword { word: "RESET"@ }, GrammarView::Keyword { word: "SETTING"@ }, GrammarView::Ref { name: "SingleIdentifierGrammar"@, optional: false }], terminators: seq![], parse_mode: ParseMode::Strict }], terminators: seq![] }) }, GrammarView::Optional { grammar: Box::new(GrammarView::OneOf { elements: seq![GrammarView::Sequence { elements: seq![GrammarView::Keyword { word: "AFTER"@ }, GrammarView::Ref { name: "SingleIdentifierGrammar"@, optional: false }], terminators: seq![], parse_mode: ParseMode::Strict }, GrammarView::Keyword { word: "FIRST"@ }], terminators: seq![] }) }], terminators: seq![], parse_mode: ParseMode::Strict }, GrammarView::Sequence { elements: seq![GrammarView::Keyword { word: "ALTER"@ }, GrammarView::Keyword { word: "COLUMN"@ }, GrammarView::Ref { name: "IfExistsGrammar"@, optional: true }, GrammarView::Ref { name: "SingleIdentifierGrammar"@, optional: false }, GrammarView::OneOf { elements: seq![GrammarView::Sequence { elements: seq![GrammarView::Keyword { word: "TYPE"@ }, GrammarView::Ref { name: "DatatypeSegment"@, optional: false }], terminators: seq![], parse_mode: ParseMode::Strict }, GrammarView::Ref { name: "DatatypeSegment"@, optional: false }], terminators: seq![] }, GrammarView::Optional { grammar: Box::new(GrammarView::OneOf { elements: seq![GrammarView::Sequence { elements: seq![GrammarView::Keyword { word: "AFTER"@ }, GrammarView::Ref { name: "SingleIdentifierGrammar"@, optional: false }], terminators: seq![], parse_mode: ParseMode::Strict }, GrammarView::Keyword { word: "FIRST"@ }], terminators: seq![] }) }], terminators: seq![], parse_mode: ParseMode::Strict }, GrammarView::Sequence { elements: seq![GrammarView::Keyword { word: "REMOVE"@ }, GrammarView::Keyword { word: "TTL"@ }], terminators: seq![], parse_mode: ParseMode::Strict }, GrammarView::Sequence { elements: seq![GrammarView::Keyword { word: "MODIFY"@ }, GrammarView::Keyword { word: "TTL"@ }, GrammarView::Ref { name: "ExpressionSegment"@, optional: false }], terminators: seq![], parse_mode: ParseMode::Strict }, GrammarView::Sequence { elements: seq![GrammarView::Keyword { word: "MODIFY"@ }, GrammarView::Keyword { word: "QUERY"@ }, GrammarView::Ref { name: "SelectStatementSegment"@, optional: false }], terminators: seq![], parse_mode: ParseMode::Strict }, GrammarView::Sequence { elements: seq![GrammarView::Keyword { word: "MATERIALIZE"@ }, GrammarView::Keyword { word: "COLUMN"@ }, GrammarView::Ref { name: "SingleIdentifierGrammar"@, optional: false }, GrammarView::Optional { grammar: Box::new(GrammarView::OneOf { elements: seq![GrammarView::Sequence { elements: seq![GrammarView::Keyword { word: "IN"@ }, GrammarView::Keyword { word: "PARTITION"@ }, GrammarView::Ref { name: "SingleIdentifierGrammar"@, optional: false }], terminators: seq![], parse_mode: ParseMode::Strict }, GrammarView::Sequence { elements: seq![GrammarView::Keyword { word: "IN"@ }, GrammarView::Keyword { word: "PARTITION"@ }, GrammarView::Keyword { word: "ID"@ }, GrammarView::Ref { name: "QuotedLiteralSegment"@, optional: false }], terminators: seq![], parse_mode: ParseMode::Strict }], terminators: seq![] }) }], terminators: seq![], parse_mode: ParseMode::Strict }, GrammarView::Sequence { elements: seq![GrammarView::Keyword { word: "DROP"@ }, GrammarView::OneOf { elements: seq![GrammarView::Keyword { word: "PARTITION"@ }, GrammarView::Keyword { word: "PART"@ }], terminators: seq![] }, GrammarView::Ref { name: "SingleIdentifierGrammar"@, optional: false }], terminators: seq![], parse_mode: ParseMode::Strict }, GrammarView::Sequence { elements: seq![GrammarView::Keyword { word: "REPLACE"@ }, GrammarView::Keyword { word: "PARTITION"@ }, GrammarView::Ref { name: "SingleIdentifierGrammar"@, optional: false }, GrammarView::Keyword { word: "FROM"@ }, GrammarView::Ref { name: "TableReferenceSegment"@, optional: false }], terminators: seq![], parse_mode: ParseMode::Strict }]);
    let g198: Vec<Grammar> = Vec::new();
    assert(views(g198@) =~= Seq::<GrammarView>::empty());
    let g199 = Grammar::one_of_with(g197, g198);
    let g200: Vec<Grammar> = vec![Grammar::keyword("ALTER"), Grammar::keyword("TABLE"), Grammar::optional_reference("IfExistsGrammar"), Grammar::reference("TableReferenceSegment"), Grammar::optional_reference("OnClusterClauseSegment"), g199];
    assert(views(g200@) =~~= seq![GrammarView::Keyword { word: "ALTER"@ }, GrammarView::Keyword { word: "TABLE"@ }, GrammarView::Ref { name: "IfExistsGrammar"@, optional: true }, GrammarView::Ref { name: "TableReferenceSegment"@, optional: false }, GrammarView::Ref { name: "OnClusterClauseSegment"@, optional: true }, GrammarView::OneOf { elements: seq![GrammarView::Sequence { elements: seq![GrammarView::Keyword { word: "DROP"@ }, GrammarView::Keyword { word: "COLUMN"@ }, GrammarView::Ref { name: "IfExistsGrammar"@, optional: true }, GrammarView::Ref { name: "SingleIdentifierGrammar"@, optional: false }], terminators: seq![], parse_mode: ParseMode::Strict }, GrammarView::Sequence { elements: seq![GrammarView::Keyword { word: "ADD"@ }, GrammarView::Keyword { word: "COLUMN"@ }, GrammarView::Ref { name: "IfNotExistsGrammar"@, optional: true }, GrammarView::Ref { name: "SingleIdentifierGrammar"@, optional: false }, GrammarView::Optional { grammar: Box::new(GrammarView::OneOf { elements: seq![GrammarView::Sequence { elements: seq![GrammarView::Ref { name: "DatatypeSegment"@, optional: false }, GrammarView::Optional { grammar: Box::new(GrammarView::Sequence { elements: seq![GrammarView::Keyword { word: "DEFAULT"@ }, GrammarView::Ref { name: "ExpressionSegment"@, optional: false }], terminators: seq![], parse_mode: ParseMode::Strict }) }, GrammarView::Optional { grammar: Box::new(GrammarView::Sequence { elements: seq![GrammarView::Keyword { word: "MATERIALIZED"@ }, GrammarView::Ref { name: "ExpressionSegment"@, optional: false }], terminators: seq![], parse_mode: ParseMode::Strict }) }, GrammarView::Optional { grammar: Box::new(GrammarView::Sequence { elements: seq![GrammarView::Keyword { word: "CODEC"@ }, GrammarView::Bracketed { elements: seq![GrammarView::Delimited { elements: seq![GrammarView::OneOf { elements: seq![GrammarView::Ref { name: "FunctionSegment"@, optional: false }, GrammarView::Ref { name: "SingleIdentifierGrammar"@, optional: false }], terminators: seq![] }], allow_trailing: false, delimiter: None, terminators: seq![], allow_gaps: true }], bracket_type: "round"@ }], terminators: seq![], parse_mode: ParseMode::Strict }) }], terminators: seq![], parse_mode: ParseMode::Strict }, GrammarView::Sequence { elements: seq![GrammarView::Ref { name: "DatatypeSegment"@, optional: false }, GrammarView::Keyword { word: "ALIAS"@ }, GrammarView::Ref { name: "ExpressionSegment"@, optional: false }], terminators: seq![], parse_mode: ParseMode::Strict }, GrammarView::Sequence { elements: seq![GrammarView::Keyword { word: "ALIAS"@ }, GrammarView::Ref { name: "ExpressionSegment"@, optional: false }], terminators: seq![], parse_mode: ParseMode::Strict }, GrammarView::Sequence { elements: seq![GrammarView::Keyword { word: "DEFAULT"@ }, GrammarView::Ref { name: "ExpressionSegment"@, optional: false }], terminators: seq![], parse_mode: ParseMode::Strict }, GrammarView::Sequence { elements: seq![GrammarView::Keyword { word: "MATERIALIZED"@ }, GrammarView::Ref { name: "ExpressionSegment"@, optional: false }], terminators: seq![], parse_mode: ParseMode::Strict }], terminators: seq![] }) }, GrammarView::Optional { grammar: Box::new(GrammarView::OneOf { elements: seq![GrammarView::Sequence { elements: seq![GrammarView::Keyword { word: "AFTER"@ }, GrammarView::Ref { name: "SingleIdentifierGrammar"@, optional: false }], terminators: seq![], parse_mode: ParseMode::Strict }, GrammarView::Keyword { word: "FIRST"@ }], terminators: seq![] }) }], terminators: seq![], parse_mode: ParseMode::Strict }, GrammarView::Sequence { elements: seq![GrammarView::Keyword { word: "ADD"@ }, GrammarView::Keyword { word: "ALIAS"@ }, GrammarView::Ref { name: "IfNotExistsGrammar"@, optional: true }, GrammarView::Ref { name: "SingleIdentifierGrammar"@, optional: false }, GrammarView::Keyword { word: "FOR"@ }, GrammarView::Ref { name: "SingleIdentifierGrammar"@, optional: false }], terminators: seq![], parse_mode: ParseMode::Strict }, GrammarView::Sequence { elements: seq![GrammarView::Keyword { word: "RENAME"@ }, GrammarView::Keyword { word: "COLUMN"@ }, GrammarView::Ref { name: "IfExistsGrammar"@, optional: true }, GrammarView::Ref { name: "SingleIdentifierGrammar"@, optional: false }, GrammarView::Keyword { word: "TO"@ }, GrammarView::Ref { name: "SingleIdentifierGrammar"@, optional: false }], terminators: seq![], parse_mode: ParseMode::Strict }, GrammarView::Sequence { elements: seq![GrammarView::Keyword { word: "COMMENT"@ }, GrammarView::Keyword { word: "COLUMN"@ }, GrammarView::Ref { name: "IfExistsGrammar"@, optional: true }, GrammarView::Ref { name: "SingleIdentifierGrammar"@, optional: false }, GrammarView::Ref { name: "QuotedLiteralSegment"@, optional: false }], terminators: seq![], parse_mode: ParseMode::Strict }, GrammarView::Sequence { elements: seq![GrammarView::Keyword { word: "COMMENT"@ }, GrammarView::Ref { name: "QuotedLiteralSegment"@, optional: false }], terminators: seq![], parse_mode: ParseMode::Strict }, GrammarView::Sequence { elements: seq![GrammarView::Keyword { word: "MODIFY"@ }, GrammarView::Keyword { word: "COMMENT"@ }, GrammarView::Ref { name: "QuotedLiteralSegment"@, optional: false }], terminators: seq![], parse_mode: ParseMode::Strict }, GrammarView::Sequence { elements: seq![GrammarView::Keyword { word: "MODIFY"@ }, GrammarView::Keyword { word: "COLUMN"@ }, GrammarView::Ref { name: "IfExistsGrammar"@, optional: true }, GrammarView::Ref { name: "SingleIdentifierGrammar"@, optional: false }, GrammarView::Optional { grammar: Box::new(GrammarView::OneOf { elements: seq![GrammarView::Sequence { elements: seq![GrammarView::Keyword { word: "TYPE"@ }, GrammarView::Ref { name: "DatatypeSegment"@, optional: false }, GrammarView::Optional { grammar: Box::new(GrammarView::Sequence { elements: seq![GrammarView::Keyword { word: "DEFAULT"@ }, GrammarView::Ref { name: "ExpressionSegment"@, optional: false }], terminators: seq![], parse_mode: ParseMode::Strict }) }, GrammarView::Optional { grammar: Box::new(GrammarView::Sequence { elements: seq![GrammarView::Keyword { word: "MATERIALIZED"@ }, GrammarView::Ref { name: "ExpressionSegment"@, optional: false }], terminators: seq![], parse_mode: ParseMode::Strict }) }, GrammarView::Optional { grammar: Box::new(GrammarView::Sequence { elements: seq![GrammarView::Keyword { word: "CODEC"@ }, GrammarView::Bracketed { elements: seq![GrammarView::Delimited { elements: seq![GrammarView::OneOf { elements: seq![GrammarView::Ref { name: "FunctionSegment"@, optional: false }, GrammarView::Ref { name: "SingleIdentifierGrammar"@, optional: false }], terminators: seq![] }], allow_trailing: false, delimiter: None, terminators: seq![], allow_gaps: true }], bracket_type: "round"@ }], terminators: seq![], parse_mode: ParseMode::Strict }) }], terminators: seq![], parse_mode: ParseMode::Strict }, GrammarView::Sequence { elements: seq![GrammarView::Ref { name: "DatatypeSegment"@, optional: true }, GrammarView::Optional { grammar: Box::new(GrammarView::Sequence { elements: seq![GrammarView::Keyword { word: "DEFAULT"@ }, GrammarView::Ref { name: "ExpressionSegment"@, optional: false }], terminators: seq![], parse_mode: ParseMode::Strict }) }, GrammarView::Optional { grammar: Box::new(GrammarView::Sequence { elements: seq![GrammarView::Keyword { word: "MATERIALIZED"@ }, GrammarView::Ref { name: "ExpressionSegment"@, optional: false }], terminators: seq![], parse_mode: ParseMode::Strict }) }, GrammarView::Optional { grammar: Box::new(GrammarView::Sequence { elements: seq![GrammarView::Keyword { word: "ALIAS"@ }, GrammarView::Ref { name: "ExpressionSegment"@, optional: false }], terminators: seq![], parse_mode: ParseMode::Strict }) }, GrammarView::Optional { grammar: Box::new(GrammarView::Sequence { elements: seq![GrammarView::Keyword { word: "CODEC"@ }, GrammarView::Bracketed { elements: seq![GrammarView::Delimited { elements: seq![GrammarView::OneOf { elements: seq![GrammarView::Ref { name: "FunctionSegment"@, optional: false }, GrammarView::Ref { name: "SingleIdentifierGrammar"@, optional: false }], terminators: seq![] }], allow_trailing: false, delimiter: None, terminators: seq![], allow_gaps: true }], bracket_type: "round"@ }], terminators: seq![], parse_mode: ParseMode::Strict }) }], terminators: seq![], parse_mode: ParseMode::Strict }, GrammarView::Sequence { elements: seq![GrammarView::Keyword { word: "ALIAS"@ }, GrammarView::Ref { name: "ExpressionSegment"@, optional: false }], terminators: seq![], parse_mode: ParseMode::Strict }, GrammarView::Sequence { elements: seq![GrammarView::Keyword { word: "REMOVE"@ }, GrammarView::Ref { name: "ALIAS"@, optional: false }], terminators: seq![], parse_mode: ParseMode::Strict }, GrammarView::Sequence { elements: seq![GrammarView::Keyword { word: "REMOVE"@ }, GrammarView::OneOf { elements: seq![GrammarView::Keyword { word: "ALIAS"@ }, GrammarView::Keyword { word: "DEFAULT"@ }, GrammarView::Keyword { word: "MATERIALIZED"@ }, GrammarView::Keyword { word: "CODEC"@ }, GrammarView::Keyword { word: "COMMENT"@ }, GrammarView::Keyword { word: "TTL"@ }], terminators: seq![] }], terminators: seq![], parse_mode: ParseMode::Strict }, GrammarView::Sequence { elements: seq![GrammarView::Keyword { word: "MODIFY"@ }, GrammarView::Keyword { word: "SETTING"@ }, GrammarView::Ref { name: "SingleIdentifierGrammar"@, optional: false }, GrammarView::Ref { name: "EqualsSegment"@, optional: false }, GrammarView::Ref { name: "LiteralGrammar"@, optional: false }], terminators: seq![], parse_mode: ParseMode::Strict }, GrammarView::Sequence { elements: seq![GrammarView::Keyword { word: "RESET"@ }, GrammarView::Keyword { word: "SETTING"@ }, GrammarView::Ref { name: "SingleIdentifierGrammar"@, optional: false }], terminators: seq![], parse_mode: ParseMode::Strict }], terminators: seq![] }) }, GrammarView::Optional { grammar: Box::new(GrammarView::OneOf { elements: seq![GrammarView::Sequence { elements: seq![GrammarView::Keyword { word: "AFTER"@ }, GrammarView::Ref { name: "SingleIdentifierGrammar"@, optional: false }], terminators: seq![], parse_mode: ParseMode::Strict }, GrammarView::Keyword { word: "FIRST"@ }], terminators: seq![] }) }], terminators: seq![], parse_mode: ParseMode::Strict }, GrammarView::Sequence { elements: seq![GrammarView::Keyword { word: "ALTER"@ }, GrammarView::Keyword { word: "COLUMN"@ }, GrammarView::Ref { name: "IfExistsGrammar"@, optional: true }, GrammarView::Ref { name: "SingleIdentifierGrammar"@, optional: false }, GrammarView::OneOf { elements: seq![GrammarView::Sequence { elements: seq![GrammarView::Keyword { word: "TYPE"@ }, GrammarView::Ref { name: "DatatypeSegment"@, optional: false }], terminators: seq![], parse_mode: ParseMode::Strict }, GrammarView::Ref { name: "DatatypeSegment"@, optional: false }], terminators: seq![] }, GrammarView::Optional { grammar: Box::new(GrammarView::OneOf { elements: seq![GrammarView::Sequence { elements: seq![GrammarView::Keyword { word: "AFTER"@ }, GrammarView::Ref { name: "SingleIdentifierGrammar"@, optional: false }], terminators: seq![], parse_mode: ParseMode::Strict }, GrammarView::Keyword { word: "FIRST"@ }], terminators: seq![] }) }], terminators: seq![], parse_mode: ParseMode::Strict }, GrammarView::Sequence { elements: seq![GrammarView::Keyword { word: "REMOVE"@ }, GrammarView::Keyword { word: "TTL"@ }], terminators: seq![], parse_mode: ParseMode::Strict }, GrammarView::Sequence { elements: seq![GrammarView::Keyword { word: "MODIFY"@ }, GrammarView::Keyword { word: "TTL"@ }, GrammarView::Ref { name: "ExpressionSegment"@, optional: false }], terminators: seq![], parse_mode: ParseMode::Strict }, GrammarView::Sequence { elements: seq![GrammarView::Keyword { word: "MODIFY"@ }, GrammarView::Keyword { word: "QUERY"@ }, GrammarView::Ref { name: "SelectStatementSegment"@, optional: false }], terminators: seq![], parse_mode: ParseMode::Strict }, GrammarView::Sequence { elements: seq![GrammarView::Keyword { word: "MATERIALIZE"@ }, GrammarView::Keyword { word: "COLUMN"@ }, GrammarView::Ref { name: "SingleIdentifierGrammar"@, optional: false }, GrammarView::Optional { grammar: Box::new(GrammarView::OneOf { elements: seq![GrammarView::Sequence { elements: seq![GrammarView::Keyword { word: "IN"@ }, GrammarView::Keyword { word: "PARTITION"@ }, GrammarView::Ref { name: "SingleIdentifierGrammar"@, optional: false }], terminators: seq![], parse_mode: ParseMode::Strict }, GrammarView::Sequence { elements: seq![GrammarView::Keyword { word: "IN"@ }, GrammarView::Keyword { word: "PARTITION"@ }, GrammarView::Keyword { word: "ID"@ }, GrammarView::Ref { name: "QuotedLiteralSegment"@, optional: false }], terminators: seq![], parse_mode: ParseMode::Strict }], terminators: seq![] }) }], terminators: seq![], parse_mode: ParseMode::Strict }, GrammarView::Sequence { elements: seq![GrammarView::Keyword { word: "DROP"@ }, GrammarView::OneOf { elements: seq![GrammarView::Keyword { word: "PARTITION"@ }, GrammarView::Keyword { word: "PART"@ }], terminators: seq![] }, GrammarView::Ref { name: "SingleIdentifierGrammar"@, optional: false }], terminators: seq![], parse_mode: ParseMode::Strict }, GrammarView::Sequence { elements: seq![GrammarView::Keyword { word: "REPLACE"@ }, GrammarView::Keyword { word: "PARTITION"@ }, GrammarView::Ref { name: "SingleIdentifierGrammar"@, optional: false }, GrammarView::Keyword { word: "FROM"@ }, GrammarView::Ref { name: "TableReferenceSegment"@, optional: false }], terminators: seq![], parse_mode: ParseMode::Strict }], terminators: seq![] }]);
    let g201: Vec<Grammar> = Vec::new();
    assert(views(g201@) =~= Seq::<GrammarView>::empty());
    let g202 = Grammar::sequence_with(g200, g201, ParseMode::Strict);
    g202
}

/// The ClickHouse grammar of `StatementSegment`.
pub open spec fn statement_segment_grammar() -> GrammarView {
    (GrammarView::OneOf { elements: seq![GrammarView::Ref { name: "SelectableGrammar"@, optional: false }, GrammarView::Ref { name: "MergeStatementSegment"@, optional: false }, GrammarView::Ref { name: "InsertStatementSegment"@, optional: false }, GrammarView::Ref { name: "TransactionStatementSegment"@, optional: false }, GrammarView::Ref { name: "DropTableStatementSegment"@, optional: false }, GrammarView::Ref { name: "DropViewStatementSegment"@, optional: false }, GrammarView::Ref { name: "CreateUserStatementSegment"@, optional: false }, GrammarView::Ref { name: "DropUserStatementSegment"@, optional: false }, GrammarView::Ref { name: "TruncateStatementSegment"@, optional: false }, GrammarView::Ref { name: "AccessStatementSegment"@, optional: false }, GrammarView::Ref { name: "CreateTableStatementSegment"@, optional: false }, GrammarView::Ref { name: "CreateRoleStatementSegment"@, optional: false }, GrammarView::Ref { name: "DropRoleStatementSegment"@, optional: false }, GrammarView::Ref { name: "AlterTableStatementSegment"@, optional: false }, GrammarView::Ref { name: "CreateSchemaStatementSegment"@, optional: false }, GrammarView::Ref { name: "SetSchemaStatementSegment"@, optional: false }, GrammarView::Ref { name: "DropSchemaStatementSegment"@, optional: false }, GrammarView::Ref { name: "DropTypeStatementSegment"@, optional: false }, GrammarView::Ref { name: "CreateDatabaseStatementSegment"@, optional: false }, GrammarView::Ref { name: "DropDatabaseStatementSegment"@, optional: false }, GrammarView::Ref { name: "CreateIndexStatementSegment"@, optional: false }, GrammarView::Ref { name: "DropIndexStatementSegment"@, optional: false }, GrammarView::Ref { name: "CreateViewStatementSegment"@, optional: false }, GrammarView::Ref { name: "DeleteStatementSegment"@, optional: false }, GrammarView::Ref { name: "UpdateStatementSegment"@, optional: false }, GrammarView::Ref { name: "CreateCastStatementSegment"@, optional: false }, GrammarView::Ref { name: "DropCastStatementSegment"@, optional: false }, GrammarView::Ref { name: "CreateFunctionStatementSegment"@, optional: false }, GrammarView::Ref { name: "DropFunctionStatementSegment"@, optional: false }, GrammarView::Ref { name: "CreateModelStatementSegment"@, optional: false }, GrammarView::Ref { name: "DropModelStatementSegment"@, optional: false }, GrammarView::Ref { name: "DescribeStatementSegment"@, optional: false }, GrammarView::Ref { name: "UseStatementSegment"@, optional: false }, GrammarView::Ref { name: "ExplainStatementSegment"@, optional: false }, GrammarView::Ref { name: "CreateSequenceStatementSegment"@, optional: false }, GrammarView::Ref { name: "AlterSequenceStatementSegment"@, optional: false }, GrammarView::Ref { name: "DropSequenceStatementSegment"@, optional: false }, GrammarView::Ref { name: "CreateTriggerStatementSegment"@, optional: false }, GrammarView::Ref { name: "DropTriggerStatementSegment"@, optional: false }], terminators: seq![GrammarView::Ref { name: "DelimiterGrammar"@, optional: false }] }).copied(Some(seq![GrammarView::Ref { name: "CreateMaterializedViewStatementSegment"@, optional: false }, GrammarView::Ref { name: "DropDictionaryStatementSegment"@, optional: false }, GrammarView::Ref { name: "DropQuotaStatementSegment"@, optional: false }, GrammarView::Ref { name: "DropSettingProfileStatementSegment"@, optional: false }, GrammarView::Ref { name: "SystemStatementSegment"@, optional: false }, GrammarView::Ref { name: "RenameStatementSegment"@, optional: false }, GrammarView::Ref { name: "AlterTableStatementSegment"@, optional: false }]), None, None, None, seq![], false)
}

fn build_statement_segment() -> (g: Grammar)
    ensures
        g@ =~~= statement_segment_grammar(),
{
    let g1: Vec<Grammar> = vec![Grammar::reference("SelectableGrammar"), Grammar::reference("MergeStatementSegment"), Grammar::reference("InsertStatementSegment"), Grammar::reference("TransactionStatementSegment"), Grammar::reference("DropTableStatementSegment"), Grammar::reference("DropViewStatementSegment"), Grammar::reference("CreateUserStatementSegment"), Grammar::reference("DropUserStatementSegment"), Grammar::reference("TruncateStatementSegment"), Grammar::reference("AccessStatementSegment"), Grammar::reference("CreateTableStatementSegment"), Grammar::reference("CreateRoleStatementSegment"), Grammar::reference("DropRoleStatementSegment"), Grammar::reference("AlterTableStatementSegment"), Grammar::reference("CreateSchemaStatementSegment"), Grammar::reference("SetSchemaStatementSegment"), Grammar::reference("DropSchemaStatementSegment"), Grammar::reference("DropTypeStatementSegment"), Grammar::reference("CreateDatabaseStatementSegment"), Grammar::reference("DropDatabaseStatementSegment"), Grammar::reference("CreateIndexStatementSegment"), Grammar::reference("DropIndexStatementSegment"), Grammar::reference("CreateViewStatementSegment"), Grammar::reference("DeleteStatementSegment"), Grammar::reference("UpdateStatementSegment"), Grammar::reference("CreateCastStatementSegment"), Grammar::reference("DropCastStatementSegment"), Grammar::reference("CreateFunctionStatementSegment"), Grammar::reference("DropFunctionStatementSegment"), Grammar::reference("CreateModelStatementSegment"), Grammar::reference("DropModelStatementSegment"), Grammar::reference("DescribeStatementSegment"), Grammar::reference("UseStatementSegment"), Grammar::reference("ExplainStatementSegment"), Grammar::reference("CreateSequenceStatementSegment"), Grammar::reference("AlterSequenceStatementSegment"), Grammar::reference("DropSequenceStatementSegment"), Grammar::reference("CreateTriggerStatementSegment"), Grammar::reference("DropTriggerStatementSegment")];
    assert(views(g1@) =~~= seq![GrammarView::Ref { name: "SelectableGrammar"@, optional: false }, GrammarView::Ref { name: "MergeStatementSegment"@, optional: false }, GrammarView::Ref { name: "InsertStatementSegment"@, optional: false }, GrammarView::Ref { name: "TransactionStatementSegment"@, optional: false }, GrammarView::Ref { name: "DropTableStatementSegment"@, optional: false }, GrammarView::Ref { name: "DropViewStatementSegment"@, optional: false }, GrammarView::Ref { name: "CreateUserStatementSegment"@, optional: false }, GrammarView::Ref { name: "DropUserStatementSegment"@, optional: false }, GrammarView::Ref { name: "TruncateStatementSegment"@, optional: false }, GrammarView::Ref { name: "AccessStatementSegment"@, optional: false }, GrammarView::Ref { name: "CreateTableStatementSegment"@, optional: false }, GrammarView::Ref { name: "CreateRoleStatementSegment"@, optional: false }, GrammarView::Ref { name: "DropRoleStatementSegment"@, optional: false }, GrammarView::Ref { name: "AlterTableStatementSegment"@, optional: false }, GrammarView::Ref { name: "CreateSchemaStatementSegment"@, optional: false }, GrammarView::Ref { name: "SetSchemaStatementSegment"@, optional: false }, GrammarView::Ref { name: "DropSchemaStatementSegment"@, optional: false }, GrammarView::Ref { name: "DropTypeStatementSegment"@, optional: false }, GrammarView::Ref { name: "CreateDatabaseStatementSegment"@, optional: false }, GrammarView::Ref { name: "DropDatabaseStatementSegment"@, optional: false }, GrammarView::Ref { name: "CreateIndexStatementSegment"@, optional: false }, GrammarView::Ref { name: "DropIndexStatementSegment"@, optional: false }, GrammarView::Ref { name: "CreateViewStatementSegment"@, optional: false }, GrammarView::Ref { name: "DeleteStatementSegment"@, optional: false }, GrammarView::Ref { name: "UpdateStatementSegment"@, optional: false }, GrammarView::Ref { name: "CreateCastStatementSegment"@, optional: false }, GrammarView::Ref { name: "DropCastStatementSegment"@, optional: false }, GrammarView::Ref { name: "CreateFunctionStatementSegment"@, optional: false }, GrammarView::Ref { name: "DropFunctionStatementSegment"@, optional: false }, GrammarView::Ref { name: "CreateModelStatementSegment"@, optional: false }, GrammarView::Ref { name: "DropModelStatementSegment"@, optional: false }, GrammarView::Ref { name: "DescribeStatementSegment"@, optional: false }, GrammarView::Ref { name: "UseStatementSegment"@, optional: false }, GrammarView::Ref { name: "ExplainStatementSegment"@, optional: false }, GrammarView::Ref { name: "CreateSequenceStatementSegment"@, optional: false }, GrammarView::Ref { name: "AlterSequenceStatementSegment"@, optional: false }, GrammarView::Ref { name: "DropSequenceStatementSegment"@, optional: false }, GrammarView::Ref { name: "CreateTriggerStatementSegment"@, optional: false }, GrammarView::Ref { name: "DropTriggerStatementSegment"@, optional: false }]);
    let g2: Vec<Grammar> = vec![Grammar::reference("DelimiterGrammar")];
    assert(views(g2@) =~~= seq![GrammarView::Ref { name: "DelimiterGrammar"@, optional: false }]);
    let g3 = Grammar::one_of_with(g1, g2);
    let g4 = g3;
    assert(g4@ =~~= GrammarView::OneOf { elements: seq![GrammarView::Ref { name: "SelectableGrammar"@, optional: false }, GrammarView::Ref { name: "MergeStatementSegment"@, optional: false }, GrammarView::Ref { name: "InsertStatementSegment"@, optional: false }, GrammarView::Ref { name: "TransactionStatementSegment"@, optional: false }, GrammarView::Ref { name: "DropTableStatementSegment"@, optional: false }, GrammarView::Ref { name: "DropViewStatementSegment"@, optional: false }, GrammarView::Ref { name: "CreateUserStatementSegment"@, optional: false }, GrammarView::Ref { name: "DropUserStatementSegment"@, optional: false }, GrammarView::Ref { name: "TruncateStatementSegment"@, optional: false }, GrammarView::Ref { name: "AccessStatementSegment"@, optional: false }, GrammarView::Ref { name: "CreateTableStatementSegment"@, optional: false }, GrammarView::Ref { name: "CreateRoleStatementSegment"@, optional: false }, GrammarView::Ref { name: "DropRoleStatementSegment"@, optional: false }, GrammarView::Ref { name: "AlterTableStatementSegment"@, optional: false }, GrammarView::Ref { name: "CreateSchemaStatementSegment"@, optional: false }, GrammarView::Ref { name: "SetSchemaStatementSegment"@, optional: false }, GrammarView::Ref { name: "DropSchemaStatementSegment"@, optional: false }, GrammarView::Ref { name: "DropTypeStatementSegment"@, optional: false }, GrammarView::Ref { name: "CreateDatabaseStatementSegment"@, optional: false }, GrammarView::Ref { name: "DropDatabaseStatementSegment"@, optional: false }, GrammarView::Ref { name: "CreateIndexStatementSegment"@, optional: false }, GrammarView::Ref { name: "DropIndexStatementSegment"@, optional: false }, GrammarView::Ref { name: "CreateViewStatementSegment"@, optional: false }, GrammarView::Ref { name: "DeleteStatementSegment"@, optional: false }, GrammarView::Ref { name: "UpdateStatementSegment"@, optional: false }, GrammarView::Ref { name: "CreateCastStatementSegment"@, optional: false }, GrammarView::Ref { name: "DropCastStatementSegment"@, optional: false }, GrammarView::Ref { name: "CreateFunctionStatementSegment"@, optional: false }, GrammarView::Ref { name: "DropFunctionStatementSegment"@, optional: false }, GrammarView::Ref { name: "CreateModelStatementSegment"@, optional: false }, GrammarView::Ref { name: "DropModelStatementSegment"@, optional: false }, GrammarView::Ref { name: "DescribeStatementSegment"@, optional: false }, GrammarView::Ref { name: "UseStatementSegment"@, optional: false }, GrammarView::Ref { name: "ExplainStatementSegment"@, optional: false }, GrammarView::Ref { name: "CreateSequenceStatementSegment"@, optional: false }, GrammarView::Ref { name: "AlterSequenceStatementSegment"@, optional: false }, GrammarView::Ref { name: "DropSequenceStatementSegment"@, optional: false }, GrammarView::Ref { name: "CreateTriggerStatementSegment"@, optional: false }, GrammarView::Ref { name: "DropTriggerStatementSegment"@, optional: false }], terminators: seq![GrammarView::Ref { name: "DelimiterGrammar"@, optional: false }] });
    let g5: Vec<Grammar> = vec![Grammar::reference("CreateMaterializedViewStatementSegment"), Grammar::reference("DropDictionaryStatementSegment"), Grammar::reference("DropQuotaStatementSegment"), Grammar::reference("DropSettingProfileStatementSegment"), Grammar::reference("SystemStatementSegment"), Grammar::reference("RenameStatementSegment"), Grammar::reference("AlterTableStatementSegment")];
    assert(views(g5@) =~~= seq![GrammarView::Ref { name: "CreateMaterializedViewStatementSegment"@, optional: false }, GrammarView::Ref { name: "DropDictionaryStatementSegment"@, optional: false }, GrammarView::Ref { name: "DropQuotaStatementSegment"@, optional: false }, GrammarView::Ref { name: "DropSettingProfileStatementSegment"@, optional: false }, GrammarView::Ref { name: "SystemStatementSegment"@, optional: false }, GrammarView::Ref { name: "RenameStatementSegment"@, optional: false }, GrammarView::Ref { name: "AlterTableStatementSegment"@, optional: false }]);
    let g6: Vec<Grammar> = Vec::new();
    assert(views(g6@) =~= Seq::<GrammarView>::empty());
    let g7 = g4.copy(Some(g5), None, None, None, g6, false);
    g7
}

/// The ClickHouse element `LimitClauseComponentSegment`.
pub open spec fn limit_clause_component_segment_element() -> ElementView {
    ElementView::Grammar(GrammarView::OneOf { elements: seq![GrammarView::Bracketed { elements: seq![GrammarView::OneOf { elements: seq![GrammarView::Ref { name: "NumericLiteralSegment"@, optional: false }, GrammarView::Ref { name: "ExpressionSegment"@, optional: false }], terminators: seq![] }], bracket_type: "round"@ }, GrammarView::OneOf { elements: seq![GrammarView::Ref { name: "NumericLiteralSegment"@, optional: false }, GrammarView::Ref { name: "ExpressionSegment"@, optional: false }], terminators: seq![] }], terminators: seq![] })
}

fn build_limit_clause_component_segment() -> (e: Element)
    ensures
        e@ =~~= limit_clause_component_segment_element(),
{
    let g1: Vec<Grammar> = vec![Grammar::reference("NumericLiteralSegment"), Grammar::reference("ExpressionSegment")];
    assert(views(g1@) =~~= seq![GrammarView::Ref { name: "NumericLiteralSegment"@, optional: false }, GrammarView::Ref { name: "ExpressionSegment"@, optional: false }]);
    let g2: Vec<Grammar> = Vec::new();
    assert(views(g2@) =~= Seq::<GrammarView>::empty());
    let g3 = Grammar::one_of_with(g1, g2);
    let g4: Vec<Grammar> = vec![g3];
    assert(views(g4@) =~~= seq![GrammarView::OneOf { elements: seq![GrammarView::Ref { name: "NumericLiteralSegment"@, optional: false }, GrammarView::Ref { name: "ExpressionSegment"@, optional: false }], terminators: seq![] }]);
    let g5 = Grammar::bracketed_with(g4, "round");
    let g6: Vec<Grammar> = vec![Grammar::reference("NumericLiteralSegment"), Grammar::reference("ExpressionSegment")];
    assert(views(g6@) =~~= seq![GrammarView::Ref { name: "NumericLiteralSegment"@, optional: false }, GrammarView::Ref { name: "ExpressionSegment"@, optional: false }]);
    let g7: Vec<Grammar> = Vec::new();
    assert(views(g7@) =~= Seq::<GrammarView>::empty());
    let g8 = Grammar::one_of_with(g6, g7);
    let g9: Vec<Grammar> = vec![g5, g8];
    assert(views(g9@) =~~= seq![GrammarView::Bracketed { elements: seq![GrammarView::OneOf { elements: seq![GrammarView::Ref { name: "NumericLiteralSegment"@, optional: false }, GrammarView::Ref { name: "ExpressionSegment"@, optional: false }], terminators: seq![] }], bracket_type: "round"@ }, GrammarView::OneOf { elements: seq![GrammarView::Ref { name: "NumericLiteralSegment"@, optional: false }, GrammarView::Ref { name: "ExpressionSegment"@, optional: false }], terminators: seq![] }]);
    let g10: Vec<Grammar> = Vec::new();
    assert(views(g10@) =~= Seq::<GrammarView>::empty());
    let g11 = Grammar::one_of_with(g9, g10);
    Element::Grammar(g11)
}

/// The ClickHouse grammar of `LimitClauseSegment`.
pub open spec fn limit_clause_segment_grammar() -> GrammarView {
    GrammarView::Sequence { elements: seq![GrammarView::Keyword { word: "LIMIT"@ }, GrammarView::Indent, GrammarView::Sequence { elements: seq![GrammarView::Ref { name: "LimitClauseComponentSegment"@, optional: false }, GrammarView::Optional { grammar: Box::new(GrammarView::OneOf { elements: seq![GrammarView::Sequence { elements: seq![GrammarView::Keyword { word: "OFFSET"@ }, GrammarView::Ref { name: "LimitClauseComponentSegment"@, optional: false }], terminators: seq![], parse_mode: ParseMode::Strict }, GrammarView::Sequence { elements: seq![GrammarView::Ref { name: "CommaSegment"@, optional: false }, GrammarView::Ref { name: "LimitClauseComponentSegment"@, optional: false }], terminators: seq![], parse_mode: ParseMode::Strict }], terminators: seq![] }) }, GrammarView::Optional { grammar: Box::new(GrammarView::Sequence { elements: seq![GrammarView::Keyword { word: "BY"@ }, GrammarView::OneOf { elements: seq![GrammarView::Ref { name: "BracketedColumnReferenceListGrammar"@, optional: false }, GrammarView::Ref { name: "ColumnReferenceSegment"@, optional: false }], terminators: seq![] }], terminators: seq![], parse_mode: ParseMode::Strict }) }], terminators: seq![], parse_mode: ParseMode::Strict }, GrammarView::Dedent], terminators: seq![], parse_mode: ParseMode::Strict }
}

fn build_limit_clause_segment() -> (g: Grammar)
    ensures
        g@ =~~= limit_clause_segment_grammar(),
{
    let g1: Vec<Grammar> = vec![Grammar::keyword("OFFSET"), Grammar::reference("LimitClauseComponentSegment")];
    assert(views(g1@) =~~= seq![GrammarView::Keyword { word: "OFFSET"@ }, GrammarView::Ref { name: "LimitClauseComponentSegment"@, optional: false }]);
    let g2: Vec<Grammar> = Vec::new();
    assert(views(g2@) =~= Seq::<GrammarView>::empty());
    let g3 = Grammar::sequence_with(g1, g2, ParseMode::Strict);
    let g4: Vec<Grammar> = vec![Grammar::reference("CommaSegment"), Grammar::reference("LimitClauseComponentSegment")];
    assert(views(g4@) =~~= seq![GrammarView::Ref { name: "CommaSegment"@, optional: false }, GrammarView::Ref { name: "LimitClauseComponentSegment"@, optional: false }]);
    let g5: Vec<Grammar> = Vec::new();
    assert(views(g5@) =~= Seq::<GrammarView>::empty());
    let g6 = Grammar::sequence_with(g4, g5, ParseMode::Strict);
    let g7: Vec<Grammar> = vec![g3, g6];
    assert(views(g7@) =~~= seq![GrammarView::Sequence { elements: seq![GrammarView::Keyword { word: "OFFSET"@ }, GrammarView::Ref { name: "LimitClauseComponentSegment"@, optional: false }], terminators: seq![], parse_mode: ParseMode::Strict }, GrammarView::Sequence { elements: seq![GrammarView::Ref { name: "CommaSegment"@, optional: false }, GrammarView::Ref { name: "LimitClauseComponentSegment"@, optional: false }], terminators: seq![], parse_mode: ParseMode::Strict }]);
    let g8: Vec<Grammar> = Vec::new();
    assert(views(g8@) =~= Seq::<GrammarView>::empty());
    let g9 = Grammar::one_of_with(g7, g8);
    let g10 = g9.optional();
    let g11: Vec<Grammar> = vec![Grammar::reference("BracketedColumnReferenceListGrammar"), Grammar::reference("ColumnReferenceSegment")];
    assert(views(g11@) =~~= seq![GrammarView::Ref { name: "BracketedColumnReferenceListGrammar"@, optional: false }, GrammarView::Ref { name: "ColumnReferenceSegment"@, optional: false }]);
    let g12: Vec<Grammar> = Vec::new();
    assert(views(g12@) =~= Seq::<GrammarView>::empty());
    let g13 = Grammar::one_of_with(g11, g12);
    let g14: Vec<Grammar> = vec![Grammar::keyword("BY"), g13];
    assert(views(g14@) =~~= seq![GrammarView::Keyword { word: "BY"@ }, GrammarView::OneOf { elements: seq![GrammarView::Ref { name: "BracketedColumnReferenceListGrammar"@, optional: false }, GrammarView::Ref { name: "ColumnReferenceSegment"@, optional: false }], terminators: seq![] }]);
    let g15: Vec<Grammar> = Vec::new();
    assert(views(g15@) =~= Seq::<GrammarView>::empty());
    let g16 = Grammar::sequence_with(g14, g15, ParseMode::Strict);
    let g17 = g16.optional();
    let g18: Vec<Grammar> = vec![Grammar::reference("LimitClauseComponentSegment"), g10, g17];
    assert(views(g18@) =~~= seq![GrammarView::Ref { name: "LimitClauseComponentSegment"@, optional: false }, GrammarView::Optional { grammar: Box::new(GrammarView::OneOf { elements: seq![GrammarView::Sequence { elements: seq![GrammarView::Keyword { word: "OFFSET"@ }, GrammarView::Ref { name: "LimitClauseComponentSegment"@, optional: false }], terminators: seq![], parse_mode: ParseMode::Strict }, GrammarView::Sequence { elements: seq![GrammarView::Ref { name: "CommaSegment"@, optional: false }, GrammarView::Ref { name: "LimitClauseComponentSegment"@, optional: false }], terminators: seq![], parse_mode: ParseMode::Strict }], terminators: seq![] }) }, GrammarView::Optional { grammar: Box::new(GrammarView::Sequence { elements: seq![GrammarView::Keyword { word: "BY"@ }, GrammarView::OneOf { elements: seq![GrammarView::Ref { name: "BracketedColumnReferenceListGrammar"@, optional: false }, GrammarView::Ref { name: "ColumnReferenceSegment"@, optional: false }], terminators: seq![] }], terminators: seq![], parse_mode: ParseMode::Strict }) }]);
    let g19: Vec<Grammar> = Vec::new();
    assert(views(g19@) =~= Seq::<GrammarView>::empty());
    let g20 = Grammar::sequence_with(g18, g19, ParseMode::Strict);
    let g21: Vec<Grammar> = vec![Grammar::keyword("LIMIT"), Grammar::indent(), g20, Grammar::dedent()];
    assert(views(g21@) =~~= seq![GrammarView::Keyword { word: "LIMIT"@ }, GrammarView::Indent, GrammarView::Sequence { elements: seq![GrammarView::Ref { name: "LimitClauseComponentSegment"@, optional: false }, GrammarView::Optional { grammar: Box::new(GrammarView::OneOf { elements: seq![GrammarView::Sequence { elements: seq![GrammarView::Keyword { word: "OFFSET"@ }, GrammarView::Ref { name: "LimitClauseComponentSegment"@, optional: false }], terminators: seq![], parse_mode: ParseMode::Strict }, GrammarView::Sequence { elements: seq![GrammarView::Ref { name: "CommaSegment"@, optional: false }, GrammarView::Ref { name: "LimitClauseComponentSegment"@, optional: false }], terminators: seq![], parse_mode: ParseMode::Strict }], terminators: seq![] }) }, GrammarView::Optional { grammar: Box::new(GrammarView::Sequence { elements: seq![GrammarView::Keyword { word: "BY"@ }, GrammarView::OneOf { elements: seq![GrammarView::Ref { name: "BracketedColumnReferenceListGrammar"@, optional: false }, GrammarView::Ref { name: "ColumnReferenceSegment"@, optional: false }], terminators: seq![] }], terminators: seq![], parse_mode: ParseMode::Strict }) }], terminators: seq![], parse_mode: ParseMode::Strict }, GrammarView::Dedent]);
    let g22: Vec<Grammar> = Vec::new();
    assert(views(g22@) =~= Seq::<GrammarView>::empty());
    let g23 = Grammar::sequence_with(g21, g22, ParseMode::Strict);
    g23
}

/// The ClickHouse grammar of `IntervalExpressionSegment`.
pub open spec fn interval_expression_segment_grammar() -> GrammarView {
    GrammarView::Sequence { elements: seq![GrammarView::Keyword { word: "INTERVAL"@ }, GrammarView::OneOf { elements: seq![GrammarView::Sequence { elements: seq![GrammarView::Ref { name: "NumericLiteralSegment"@, optional: false }, GrammarView::Ref { name: "DatetimeUnitSegment"@, optional: false }], terminators: seq![], parse_mode: ParseMode::Strict }, GrammarView::Ref { name: "QuotedLiteralSegment"@, optional: false }, GrammarView::Sequence { elements: seq![GrammarView::Ref { name: "QuotedLiteralSegment"@, optional: false }, GrammarView::Ref { name: "DatetimeUnitSegment"@, optional: false }], terminators: seq![], parse_mode: ParseMode::Strict }, GrammarView::Sequence { elements: seq![GrammarView::Ref { name: "ExpressionSegment"@, optional: false }, GrammarView::Ref { name: "DatetimeUnitSegment"@, optional: false }], terminators: seq![], parse_mode: ParseMode::Strict }], terminators: seq![] }], terminators: seq![], parse_mode: ParseMode::Strict }
}

fn build_interval_expression_segment() -> (g: Grammar)
    ensures
        g@ =~~= interval_expression_segment_grammar(),
{
    let g1: Vec<Grammar> = vec![Grammar::reference("NumericLiteralSegment"), Grammar::reference("DatetimeUnitSegment")];
    assert(views(g1@) =~~= seq![GrammarView::Ref { name: "NumericLiteralSegment"@, optional: false }, GrammarView::Ref { name: "DatetimeUnitSegment"@, optional: false }]);
    let g2: Vec<Grammar> = Vec::new();
    assert(views(g2@) =~= Seq::<GrammarView>::empty());
    let g3 = Grammar::sequence_with(g1, g2, ParseMode::Strict);
    let g4: Vec<Grammar> = vec![Grammar::reference("QuotedLiteralSegment"), Grammar::reference("DatetimeUnitSegment")];
    assert(views(g4@) =~~= seq![GrammarView::Ref { name: "QuotedLiteralSegment"@, optional: false }, GrammarView::Ref { name: "DatetimeUnitSegment"@, optional: false }]);
    let g5: Vec<Grammar> = Vec::new();
    assert(views(g5@) =~= Seq::<GrammarView>::empty());
    let g6 = Grammar::sequence_with(g4, g5, ParseMode::Strict);
    let g7: Vec<Grammar> = vec![Grammar::reference("ExpressionSegment"), Grammar::reference("DatetimeUnitSegment")];
    assert(views(g7@) =~~= seq![GrammarView::Ref { name: "ExpressionSegment"@, optional: false }, GrammarView::Ref { name: "DatetimeUnitSegment"@, optional: false }]);
    let g8: Vec<Grammar> = Vec::new();
    assert(views(g8@) =~= Seq::<GrammarView>::empty());
    let g9 = Grammar::sequence_with(g7, g8, ParseMode::Strict);
    let g10: Vec<Grammar> = vec![g3, Grammar::reference("QuotedLiteralSegment"), g6, g9];
    assert(views(g10@) =~~= seq![GrammarView::Sequence { elements: seq![GrammarView::Ref { name: "NumericLiteralSegment"@, optional: false }, GrammarView::Ref { name: "DatetimeUnitSegment"@, optional: false }], terminators: seq![], parse_mode: ParseMode::Strict }, GrammarView::Ref { name: "QuotedLiteralSegment"@, optional: false }, GrammarView::Sequence { elements: seq![GrammarView::Ref { name: "QuotedLiteralSegment"@, optional: false }, GrammarView::Ref { name: "DatetimeUnitSegment"@, optional: false }], terminators: seq![], parse_mode: ParseMode::Strict }, GrammarView::Sequence { elements: seq![GrammarView::Ref { name: "ExpressionSegment"@, optional: false }, GrammarView::Ref { name: "DatetimeUnitSegment"@, optional: false }], terminators: seq![], parse_mode: ParseMode::Strict }]);
    let g11: Vec<Grammar> = Vec::new();
    assert(views(g11@) =~= Seq::<GrammarView>::empty());
    let g12 = Grammar::one_of_with(g10, g11);
    let g13: Vec<Grammar> = vec![Grammar::keyword("INTERVAL"), g12];
    assert(views(g13@) =~~= seq![GrammarView::Keyword { word: "INTERVAL"@ }, GrammarView::OneOf { elements: seq![GrammarView::Sequence { elements: seq![GrammarView::Ref { name: "NumericLiteralSegment"@, optional: false }, GrammarView::Ref { name: "DatetimeUnitSegment"@, optional: false }], terminators: seq![], parse_mode: ParseMode::Strict }, GrammarView::Ref { name: "QuotedLiteralSegment"@, optional: false }, GrammarView::Sequence { elements: seq![GrammarView::Ref { name: "QuotedLiteralSegment"@, optional: false }, GrammarView::Ref { name: "DatetimeUnitSegment"@, optional: false }], terminators: seq![], parse_mode: ParseMode::Strict }, GrammarView::Sequence { elements: seq![GrammarView::Ref { name: "ExpressionSegment"@, optional: false }, GrammarView::Ref { name: "DatetimeUnitSegment"@, optional: false }], terminators: seq![], parse_mode: ParseMode::Strict }], terminators: seq![] }]);
    let g14: Vec<Grammar> = Vec::new();
    assert(views(g14@) =~= Seq::<GrammarView>::empty());
    let g15 = Grammar::sequence_with(g13, g14, ParseMode::Strict);
    g15
}

/// The ClickHouse grammar of `ColumnDefinitionSegment`.
pub open spec fn column_definition_segment_grammar() -> GrammarView {
    GrammarView::Sequence { elements: seq![GrammarView::OneOf { elements: seq![GrammarView::Ref { name: "SingleIdentifierGrammar"@, optional: false }, GrammarView::Ref { name: "QuotedIdentifierSegment"@, optional: false }], terminators: seq![] }, GrammarView::Ref { name: "DatatypeSegment"@, optional: false }, GrammarView::Optional { grammar: Box::new(GrammarView::AnyNumberOf { elements: seq![GrammarView::OneOf { elements: seq![GrammarView::Sequence { elements: seq![GrammarView::Keyword { word: "DEFAULT"@ }, GrammarView::OneOf { elements: seq![GrammarView::Ref { name: "LiteralGrammar"@, optional: false }, GrammarView::Ref { name: "FunctionSegment"@, optional: false }, GrammarView::Ref { name: "ExpressionSegment"@, optional: false }], terminators: seq![] }], terminators: seq![], parse_mode: ParseMode::Strict }, GrammarView::Sequence { elements: seq![GrammarView::Keyword { word: "ALIAS"@ }, GrammarView::Ref { name: "ExpressionSegment"@, optional: false }], terminators: seq![], parse_mode: ParseMode::Strict }, GrammarView::Sequence { elements: seq![GrammarView::Keyword { word: "MATERIALIZED"@ }, GrammarView::Ref { name: "ExpressionSegment"@, optional: false }], terminators: seq![], parse_mode: ParseMode::Strict }, GrammarView::Sequence { elements: seq![GrammarView::Keyword { word: "CODEC"@ }, GrammarView::Bracketed { elements: seq![GrammarView::Delimited { elements: seq![GrammarView::Ref { name: "FunctionSegment"@, optional: false }, GrammarView::Ref { name: "SingleIdentifierGrammar"@, optional: false }], allow_trailing: false, delimiter: None, terminators: seq![], allow_gaps: true }], bracket_type: "round"@ }], terminators: seq![], parse_mode: ParseMode::Strict }, GrammarView::Sequence { elements: seq![GrammarView::Keyword { word: "COMMENT"@ }, GrammarView::Ref { name: "QuotedLiteralSegment"@, optional: false }], terminators: seq![], parse_mode: ParseMode::Strict }, GrammarView::Ref { name: "ColumnConstraintSegment"@, optional: false }], terminators: seq![] }], terminators: seq![], min_times: 0, max_times: None }) }], terminators: seq![], parse_mode: ParseMode::Strict }
}

fn build_column_definition_segment() -> (g: Grammar)
    ensures
        g@ =~~= column_definition_segment_grammar(),
{
    let g1: Vec<Grammar> = vec![Grammar::reference("SingleIdentifierGrammar"), Grammar::reference("QuotedIdentifierSegment")];
    assert(views(g1@) =~~= seq![GrammarView::Ref { name: "SingleIdentifierGrammar"@, optional: false }, GrammarView::Ref { name: "QuotedIdentifierSegment"@, optional: false }]);
    let g2: Vec<Grammar> = Vec::new();
    assert(views(g2@) =~= Seq::<GrammarView>::empty());
    let g3 = Grammar::one_of_with(g1, g2);
    let g4: Vec<Grammar> = vec![Grammar::reference("LiteralGrammar"), Grammar::reference("FunctionSegment"), Grammar::reference("ExpressionSegment")];
    assert(views(g4@) =~~= seq![GrammarView::Ref { name: "LiteralGrammar"@, optional: false }, GrammarView::Ref { name: "FunctionSegment"@, optional: false }, GrammarView::Ref { name: "ExpressionSegment"@, optional: false }]);
    let g5: Vec<Grammar> = Vec::new();
    assert(views(g5@) =~= Seq::<GrammarView>::empty());
    let g6 = Grammar::one_of_with(g4, g5);
    let g7: Vec<Grammar> = vec![Grammar::keyword("DEFAULT"), g6];
    assert(views(g7@) =~~= seq![GrammarView::Keyword { word: "DEFAULT"@ }, GrammarView::OneOf { elements: seq![GrammarView::Ref { name: "LiteralGrammar"@, optional: false }, GrammarView::Ref { name: "FunctionSegment"@, optional: false }, GrammarView::Ref { name: "ExpressionSegment"@, optional: false }], terminators: seq![] }]);
    let g8: Vec<Grammar> = Vec::new();
    assert(views(g8@) =~= Seq::<GrammarView>::empty());
    let g9 = Grammar::sequence_with(g7, g8, ParseMode::Strict);
    let g10: Vec<Grammar> = vec![Grammar::keyword("ALIAS"), Grammar::reference("ExpressionSegment")];
    assert(views(g10@) =~~= seq![GrammarView::Keyword { word: "ALIAS"@ }, GrammarView::Ref { name: "ExpressionSegment"@, optional: false }]);
    let g11: Vec<Grammar> = Vec::new();
    assert(views(g11@) =~= Seq::<GrammarView>::empty());
    let g12 = Grammar::sequence_with(g10, g11, ParseMode::Strict);
    let g13: Vec<Grammar> = vec![Grammar::keyword("MATERIALIZED"), Grammar::reference("ExpressionSegment")];
    assert(views(g13@) =~~= seq![GrammarView::Keyword { word: "MATERIALIZED"@ }, GrammarView::Ref { name: "ExpressionSegment"@, optional: false }]);
    let g14: Vec<Grammar> = Vec::new();
    assert(views(g14@) =~= Seq::<GrammarView>::empty());
    let g15 = Grammar::sequence_with(g13, g14, ParseMode::Strict);
    let g16: Vec<Grammar> = vec![Grammar::reference("FunctionSegment"), Grammar::reference("SingleIdentifierGrammar")];
    assert(views(g16@) =~~= seq![GrammarView::Ref { name: "FunctionSegment"@, optional: false }, GrammarView::Ref { name: "SingleIdentifierGrammar"@, optional: false }]);
    let g17: Vec<Grammar> = Vec::new();
    assert(views(g17@) =~= Seq::<GrammarView>::empty());
    let g18 = Grammar::delimited_with(g16, false, None, g17, true);
    let g19: Vec<Grammar> = vec![g18];
    assert(views(g19@) =~~= seq![GrammarView::Delimited { elements: seq![GrammarView::Ref { name: "FunctionSegment"@, optional: false }, GrammarView::Ref { name: "SingleIdentifierGrammar"@, optional: false }], allow_trailing: false, delimiter: None, terminators: seq![], allow_gaps: true }]);
    let g20 = Grammar::bracketed_with(g19, "round");
    let g21: Vec<Grammar> = vec![Grammar::keyword("CODEC"), g20];
    assert(views(g21@) =~~= seq![GrammarView::Keyword { word: "CODEC"@ }, GrammarView::Bracketed { elements: seq![GrammarView::Delimited { elements: seq![GrammarView::Ref { name: "FunctionSegment"@, optional: false }, GrammarView::Ref { name: "SingleIdentifierGrammar"@, optional: false }], allow_trailing: false, delimiter: None, terminators: seq![], allow_gaps: true }], bracket_type: "round"@ }]);
    let g22: Vec<Grammar> = Vec::new();
    assert(views(g22@) =~= Seq::<GrammarView>::empty());
    let g23 = Grammar::sequence_with(g21, g22, ParseMode::Strict);
    let g24: Vec<Grammar> = vec![Grammar::keyword("COMMENT"), Grammar::reference("QuotedLiteralSegment")];
    assert(views(g24@) =~~= seq![GrammarView::Keyword { word: "COMMENT"@ }, GrammarView::Ref { name: "QuotedLiteralSegment"@, optional: false }]);
    let g25: Vec<Grammar> = Vec::new();
    assert(views(g25@) =~= Seq::<GrammarView>::empty());
    let g26 = Grammar::sequence_with(g24, g25, ParseMode::Strict);
    let g27: Vec<Grammar> = vec![g9, g12, g15, g23, g26, Grammar::reference("ColumnConstraintSegment")];
    assert(views(g27@) =~~= seq![GrammarView::Sequence { elements: seq![GrammarView::Keyword { word: "DEFAULT"@ }, GrammarView::OneOf { elements: seq![GrammarView::Ref { name: "LiteralGrammar"@, optional: false }, GrammarView::Ref { name: "FunctionSegment"@, optional: false }, GrammarView::Ref { name: "ExpressionSegment"@, optional: false }], terminators: seq![] }], terminators: seq![], parse_mode: ParseMode::Strict }, GrammarView::Sequence { elements: seq![GrammarView::Keyword { word: "ALIAS"@ }, GrammarView::Ref { name: "ExpressionSegment"@, optional: false }], terminators: seq![], parse_mode: ParseMode::Strict }, GrammarView::Sequence { elements: seq![GrammarView::Keyword { word: "MATERIALIZED"@ }, GrammarView::Ref { name: "ExpressionSegment"@, optional: false }], terminators: seq![], parse_mode: ParseMode::Strict }, GrammarView::Sequence { elements: seq![GrammarView::Keyword { word: "CODEC"@ }, GrammarView::Bracketed { elements: seq![GrammarView::Delimited { elements: seq![GrammarView::Ref { name: "FunctionSegment"@, optional: false }, GrammarView::Ref { name: "SingleIdentifierGrammar"@, optional: false }], allow_trailing: false, delimiter: None, terminators: seq![], allow_gaps: true }], bracket_type: "round"@ }], terminators: seq![], parse_mode: ParseMode::Strict }, GrammarView::Sequence { elements: seq![GrammarView::Keyword { word: "COMMENT"@ }, GrammarView::Ref { name: "QuotedLiteralSegment"@, optional: false }], terminators: seq![], parse_mode: ParseMode::Strict }, GrammarView::Ref { name: "ColumnConstraintSegment"@, optional: false }]);
    let g28: Vec<Grammar> = Vec::new();
    assert(views(g28@) =~= Seq::<GrammarView>::empty());
    let g29 = Grammar::one_of_with(g27, g28);
    let g30: Vec<Grammar> = vec![g29];
    assert(views(g30@) =~~= seq![GrammarView::OneOf { elements: seq![GrammarView::Sequence { elements: seq![GrammarView::Keyword { word: "DEFAULT"@ }, GrammarView::OneOf { elements: seq![GrammarView::Ref { name: "LiteralGrammar"@, optional: false }, GrammarView::Ref { name: "FunctionSegment"@, optional: false }, GrammarView::Ref { name: "ExpressionSegment"@, optional: false }], terminators: seq![] }], terminators: seq![], parse_mode: ParseMode::Strict }, GrammarView::Sequence { elements: seq![GrammarView::Keyword { word: "ALIAS"@ }, GrammarView::Ref { name: "ExpressionSegment"@, optional: false }], terminators: seq![], parse_mode: ParseMode::Strict }, GrammarView::Sequence { elements: seq![GrammarView::Keyword { word: "MATERIALIZED"@ }, GrammarView::Ref { name: "ExpressionSegment"@, optional: false }], terminators: seq![], parse_mode: ParseMode::Strict }, GrammarView::Sequence { elements: seq![GrammarView::Keyword { word: "CODEC"@ }, GrammarView::Bracketed { elements: seq![GrammarView::Delimited { elements: seq![GrammarView::Ref { name: "FunctionSegment"@, optional: false }, GrammarView::Ref { name: "SingleIdentifierGrammar"@, optional: false }], allow_trailing: false, delimiter: None, terminators: seq![], allow_gaps: true }], bracket_type: "round"@ }], terminators: seq![], parse_mode: ParseMode::Strict }, GrammarView::Sequence { elements: seq![GrammarView::Keyword { word: "COMMENT"@ }, GrammarView::Ref { name: "QuotedLiteralSegment"@, optional: false }], terminators: seq![], parse_mode: ParseMode::Strict }, GrammarView::Ref { name: "ColumnConstraintSegment"@, optional: false }], terminators: seq![] }]);
    let g31: Vec<Grammar> = Vec::new();
    assert(views(g31@) =~= Seq::<GrammarView>::empty());
    let g32 = Grammar::any_number_of_with(g30, g31, 0, None);
    let g33 = g32.optional();
    let g34: Vec<Grammar> = vec![g3, Grammar::reference("DatatypeSegment"), g33];
    assert(views(g34@) =~~= seq![GrammarView::OneOf { elements: seq![GrammarView::Ref { name: "SingleIdentifierGrammar"@, optional: false }, GrammarView::Ref { name: "QuotedIdentifierSegment"@, optional: false }], terminators: seq![] }, GrammarView::Ref { name: "DatatypeSegment"@, optional: false }, GrammarView::Optional { grammar: Box::new(GrammarView::AnyNumberOf { elements: seq![GrammarView::OneOf { elements: seq![GrammarView::Sequence { elements: seq![GrammarView::Keyword { word: "DEFAULT"@ }, GrammarView::OneOf { elements: seq![GrammarView::Ref { name: "LiteralGrammar"@, optional: false }, GrammarView::Ref { name: "FunctionSegment"@, optional: false }, GrammarView::Ref { name: "ExpressionSegment"@, optional: false }], terminators: seq![] }], terminators: seq![], parse_mode: ParseMode::Strict }, GrammarView::Sequence { elements: seq![GrammarView::Keyword { word: "ALIAS"@ }, GrammarView::Ref { name: "ExpressionSegment"@, optional: false }], terminators: seq![], parse_mode: ParseMode::Strict }, GrammarView::Sequence { elements: seq![GrammarView::Keyword { word: "MATERIALIZED"@ }, GrammarView::Ref { name: "ExpressionSegment"@, optional: false }], terminators: seq![], parse_mode: ParseMode::Strict }, GrammarView::Sequence { elements: seq![GrammarView::Keyword { word: "CODEC"@ }, GrammarView::Bracketed { elements: seq![GrammarView::Delimited { elements: seq![GrammarView::Ref { name: "FunctionSegment"@, optional: false }, GrammarView::Ref { name: "SingleIdentifierGrammar"@, optional: false }], allow_trailing: false, delimiter: None, terminators: seq![], allow_gaps: true }], bracket_type: "round"@ }], terminators: seq![], parse_mode: ParseMode::Strict }, GrammarView::Sequence { elements: seq![GrammarView::Keyword { word: "COMMENT"@ }, GrammarView::Ref { name: "QuotedLiteralSegment"@, optional: false }], terminators: seq![], parse_mode: ParseMode::Strict }, GrammarView::Ref { name: "ColumnConstraintSegment"@, optional: false }], terminators: seq![] }], terminators: seq![], min_times: 0, max_times: None }) }]);
    let g35: Vec<Grammar> = Vec::new();
    assert(views(g35@) =~= Seq::<GrammarView>::empty());
    let g36 = Grammar::sequence_with(g34, g35, ParseMode::Strict);
    g36
}

/// Changes 1 to 20 of the ClickHouse grammar changes.
pub open spec fn clickhouse_changes_part_0(d: DialectView) -> DialectView {
    let d = d.with_element("NonWithSelectableGrammar"@, non_with_selectable_grammar_element());
    let d = d.with_element("SelectClauseTerminatorGrammar"@, select_clause_terminator_grammar_element());
    let d = d.with_element("FromClauseTerminatorGrammar"@, from_clause_terminator_grammar_element());
    let d = d.with_element("DateTimeLiteralGrammar"@, date_time_literal_grammar_element());
    let d = d.with_grammar("FromExpressionElementSegment"@, from_expression_element_segment_grammar());
    let d = d.with_grammar("JoinClauseSegment"@, join_clause_segment_grammar());
    let d = d.with_grammar("SelectClauseModifierSegment"@, select_clause_modifier_segment_grammar());
    let d = d.with_grammar("OrderByClauseSegment"@, order_by_clause_segment_grammar());
    let d = d.with_element("NakedIdentifierSegment"@, naked_identifier_segment_element());
    let d = d.with_element("BackQuotedIdentifierSegment"@, back_quoted_identifier_segment_element());
    let d = d.with_element("SingleIdentifierGrammar"@, single_identifier_grammar_element());
    let d = d.with_element("ExceptClauseSegment"@, except_clause_segment_element());
    let d = d.with_element("QuotedLiteralSegment"@, quoted_literal_segment_element());
    let d = d.with_element("TupleSegment"@, tuple_segment_element());
    let d = d.with_grammar("WildcardExpressionSegment"@, wildcard_expression_segment_grammar());
    let d = d.with_element("SettingsClauseSegment"@, settings_clause_segment_element());
    let d = d.with_element("FormatValueSegment"@, format_value_segment_element());
    let d = d.with_element("IntoOutfileClauseSegment"@, into_outfile_clause_segment_element());
    let d = d.with_element("FormatClauseSegment"@, format_clause_segment_element());
    let d = d.with_element("MergeTreesOrderByClauseSegment"@, merge_trees_order_by_clause_segment_element());
    d
}

fn apply_clickhouse_changes_part_0(d: &mut DialectModel)
    ensures
        final(d)@ == clickhouse_changes_part_0(old(d)@),
{
    d.add("NonWithSelectableGrammar", build_non_with_selectable_grammar());
    d.add("SelectClauseTerminatorGrammar", build_select_clause_terminator_grammar());
    d.add("FromClauseTerminatorGrammar", build_from_clause_terminator_grammar());
    d.add("DateTimeLiteralGrammar", build_date_time_literal_grammar());
    d.replace_grammar("FromExpressionElementSegment", build_from_expression_element_segment());
    d.replace_grammar("JoinClauseSegment", build_join_clause_segment());
    d.replace_grammar("SelectClauseModifierSegment", build_select_clause_modifier_segment());
    d.replace_grammar("OrderByClauseSegment", build_order_by_clause_segment());
    d.add("NakedIdentifierSegment", build_naked_identifier_segment());
    d.add("BackQuotedIdentifierSegment", build_back_quoted_identifier_segment());
    d.add("SingleIdentifierGrammar", build_single_identifier_grammar());
    d.add("ExceptClauseSegment", build_except_clause_segment());
    d.add("QuotedLiteralSegment", build_quoted_literal_segment());
    d.add("TupleSegment", build_tuple_segment());
    d.replace_grammar("WildcardExpressionSegment", build_wildcard_expression_segment());
    d.add("SettingsClauseSegment", build_settings_clause_segment());
    d.add("FormatValueSegment", build_format_value_segment());
    d.add("IntoOutfileClauseSegment", build_into_outfile_clause_segment());
    d.add("FormatClauseSegment", build_format_clause_segment());
    d.add("MergeTreesOrderByClauseSegment", build_merge_trees_order_by_clause_segment());
}

/// Changes 21 to 40 of the ClickHouse grammar changes.
pub open spec fn clickhouse_changes_part_1(d: DialectView) -> DialectView {
    let d = d.with_element("JoinTypeKeywords"@, join_type_keywords_element());
    let d = d.with_element("LambdaFunctionSegment"@, lambda_function_segment_element());
    let d = d.with_element("BinaryOperatorGrammar"@, binary_operator_grammar_element());
    let d = d.with_element("JoinLikeClauseGrammar"@, join_like_clause_grammar_element());
    let d = d.with_element("InOperatorGrammar"@, in_operator_grammar_element());
    let d = d.with_element("PreWhereClauseSegment"@, pre_where_clause_segment_element());
    let d = d.with_element("QualifyClauseSegment"@, qualify_clause_segment_element());
    let d = d.with_grammar("UnorderedSelectStatementSegment"@, unordered_select_statement_segment_grammar());
    let d = d.with_element("WithFillSegment"@, with_fill_segment_element());
    let d = d.with_grammar("DatatypeSegment"@, datatype_segment_grammar());
    let d = d.with_element("TupleTypeSegment"@, tuple_type_segment_element());
    let d = d.with_element("TupleTypeSchemaSegment"@, tuple_type_schema_segment_element());
    let d = d.with_grammar("BracketedArguments"@, bracketed_arguments_grammar());
    let d = d.with_element("ArrayJoinClauseSegment"@, array_join_clause_segment_element());
    let d = d.with_grammar("CTEDefinitionSegment"@, c_t_e_definition_segment_grammar());
    let d = d.with_element("TableEngineFunctionSegment"@, table_engine_function_segment_element());
    let d = d.with_element("OnClusterClauseSegment"@, on_cluster_clause_segment_element());
    let d = d.with_element("TableEngineSegment"@, table_engine_segment_element());
    let d = d.with_element("DatabaseEngineFunctionSegment"@, database_engine_function_segment_element());
    let d = d.with_element("DatabaseEngineSegment"@, database_engine_segment_element());
    d
}

fn apply_clickhouse_changes_part_1(d: &mut DialectModel)
    ensures
        final(d)@ == clickhouse_changes_part_1(old(d)@),
{
    d.add("JoinTypeKeywords", build_join_type_keywords());
    d.add("LambdaFunctionSegment", build_lambda_function_segment());
    d.add("BinaryOperatorGrammar", build_binary_operator_grammar());
    d.add("JoinLikeClauseGrammar", build_join_like_clause_grammar());
    d.add("InOperatorGrammar", build_in_operator_grammar());
    d.add("PreWhereClauseSegment", build_pre_where_clause_segment());
    d.add("QualifyClauseSegment", build_qualify_clause_segment());
    d.replace_grammar("UnorderedSelectStatementSegment", build_unordered_select_statement_segment());
    d.add("WithFillSegment", build_with_fill_segment());
    d.replace_grammar("DatatypeSegment", build_datatype_segment());
    d.add("TupleTypeSegment", build_tuple_type_segment());
    d.add("TupleTypeSchemaSegment", build_tuple_type_schema_segment());
    d.replace_grammar("BracketedArguments", build_bracketed_arguments());
    d.add("ArrayJoinClauseSegment", build_array_join_clause_segment());
    d.replace_grammar("CTEDefinitionSegment", build_c_t_e_definition_segment());
    d.add("TableEngineFunctionSegment", build_table_engine_function_segment());
    d.add("OnClusterClauseSegment", build_on_cluster_clause_segment());
    d.add("TableEngineSegment", build_table_engine_segment());
    d.add("DatabaseEngineFunctionSegment", build_database_engine_function_segment());
    d.add("DatabaseEngineSegment", build_database_engine_segment());
}

/// Changes 41 to 60 of the ClickHouse grammar changes.
pub open spec fn clickhouse_changes_part_2(d: DialectView) -> DialectView {
    let d = d.with_element("ColumnTTLSegment"@, column_t_t_l_segment_element());
    let d = d.with_element("TableTTLSegment"@, table_t_t_l_segment_element());
    let d = d.with_element("ColumnConstraintSegment"@, column_constraint_segment_element());
    let d = d.with_grammar("CreateDatabaseStatementSegment"@, create_database_statement_segment_grammar());
    let d = d.with_element("RenameStatementSegment"@, rename_statement_segment_element());
    let d = d.with_grammar("CreateTableStatementSegment"@, create_table_statement_segment_grammar());
    let d = d.with_element("CreateMaterializedViewStatementSegment"@, create_materialized_view_statement_segment_element());
    let d = d.with_grammar("DropTableStatementSegment"@, drop_table_statement_segment_grammar());
    let d = d.with_grammar("DropDatabaseStatementSegment"@, drop_database_statement_segment_grammar());
    let d = d.with_element("DropDictionaryStatementSegment"@, drop_dictionary_statement_segment_element());
    let d = d.with_grammar("DropUserStatementSegment"@, drop_user_statement_segment_grammar());
    let d = d.with_grammar("DropRoleStatementSegment"@, drop_role_statement_segment_grammar());
    let d = d.with_element("DropQuotaStatementSegment"@, drop_quota_statement_segment_element());
    let d = d.with_grammar("DropViewStatementSegment"@, drop_view_statement_segment_grammar());
    let d = d.with_grammar("DropFunctionStatementSegment"@, drop_function_statement_segment_grammar());
    let d = d.with_element("SystemMergesSegment"@, system_merges_segment_element());
    let d = d.with_element("SystemTTLMergesSegment"@, system_t_t_l_merges_segment_element());
    let d = d.with_element("SystemMovesSegment"@, system_moves_segment_element());
    let d = d.with_element("SystemReplicaSegment"@, system_replica_segment_element());
    let d = d.with_element("SystemFilesystemSegment"@, system_filesystem_segment_element());
    d
}

fn apply_clickhouse_changes_part_2(d: &mut DialectModel)
    ensures
        final(d)@ == clickhouse_changes_part_2(old(d)@),
{
    d.add("ColumnTTLSegment", build_column_t_t_l_segment());
    d.add("TableTTLSegment", build_table_t_t_l_segment());
    d.add("ColumnConstraintSegment", build_column_constraint_segment());
    d.replace_grammar("CreateDatabaseStatementSegment", build_create_database_statement_segment());
    d.add("RenameStatementSegment", build_rename_statement_segment());
    d.replace_grammar("CreateTableStatementSegment", build_create_table_statement_segment());
    d.add("CreateMaterializedViewStatementSegment", build_create_materialized_view_statement_segment());
    d.replace_grammar("DropTableStatementSegment", build_drop_table_statement_segment());
    d.replace_grammar("DropDatabaseStatementSegment", build_drop_database_statement_segment());
    d.add("DropDictionaryStatementSegment", build_drop_dictionary_statement_segment());
    d.replace_grammar("DropUserStatementSegment", build_drop_user_statement_segment());
    d.replace_grammar("DropRoleStatementSegment", build_drop_role_statement_segment());
    d.add("DropQuotaStatementSegment", build_drop_quota_statement_segment());
    d.replace_grammar("DropViewStatementSegment", build_drop_view_statement_segment());
    d.replace_grammar("DropFunctionStatementSegment", build_drop_function_statement_segment());
    d.add("SystemMergesSegment", build_system_merges_segment());
    d.add("SystemTTLMergesSegment", build_system_t_t_l_merges_segment());
    d.add("SystemMovesSegment", build_system_moves_segment());
    d.add("SystemReplicaSegment", build_system_replica_segment());
    d.add("SystemFilesystemSegment", build_system_filesystem_segment());
}

/// Changes 61 to 74 of the ClickHouse grammar changes.
pub open spec fn clickhouse_changes_part_3(d: DialectView) -> DialectView {
    let d = d.with_element("SystemReplicatedSegment"@, system_replicated_segment_element());
    let d = d.with_element("SystemReplicationSegment"@, system_replication_segment_element());
    let d = d.with_element("SystemFetchesSegment"@, system_fetches_segment_element());
    let d = d.with_element("SystemDistributedSegment"@, system_distributed_segment_element());
    let d = d.with_element("SystemModelSegment"@, system_model_segment_element());
    let d = d.with_element("SystemFileSegment"@, system_file_segment_element());
    let d = d.with_element("SystemUnfreezeSegment"@, system_unfreeze_segment_element());
    let d = d.with_element("SystemStatementSegment"@, system_statement_segment_element());
    let d = d.with_grammar("AlterTableStatementSegment"@, alter_table_statement_segment_grammar());
    let d = d.with_grammar("StatementSegment"@, statement_segment_grammar());
    let d = d.with_element("LimitClauseComponentSegment"@, limit_clause_component_segment_element());
    let d = d.with_grammar("LimitClauseSegment"@, limit_clause_segment_grammar());
    let d = d.with_grammar("IntervalExpressionSegment"@, interval_expression_segment_grammar());
    let d = d.with_grammar("ColumnDefinitionSegment"@, column_definition_segment_grammar());
    d
}

fn apply_clickhouse_changes_part_3(d: &mut DialectModel)
    ensures
        final(d)@ == clickhouse_changes_part_3(old(d)@),
{
    d.add("SystemReplicatedSegment", build_system_replicated_segment());
    d.add("SystemReplicationSegment", build_system_replication_segment());
    d.add("SystemFetchesSegment", build_system_fetches_segment());
    d.add("SystemDistributedSegment", build_system_distributed_segment());
    d.add("SystemModelSegment", build_system_model_segment());
    d.add("SystemFileSegment", build_system_file_segment());
    d.add("SystemUnfreezeSegment", build_system_unfreeze_segment());
    d.add("SystemStatementSegment", build_system_statement_segment());
    d.replace_grammar("AlterTableStatementSegment", build_alter_table_statement_segment());
    d.replace_grammar("StatementSegment", build_statement_segment());
    d.add("LimitClauseComponentSegment", build_limit_clause_component_segment());
    d.replace_grammar("LimitClauseSegment", build_limit_clause_segment());
    d.replace_grammar("IntervalExpressionSegment", build_interval_expression_segment());
    d.replace_grammar("ColumnDefinitionSegment", build_column_definition_segment());
}

/// The ClickHouse grammar changes, in order (opaque: `reveal(clickhouse_grammar_changes)` shows its parts).
#[verifier::opaque]
pub open spec fn clickhouse_grammar_changes(d: DialectView) -> DialectView {
    clickhouse_changes_part_3(clickhouse_changes_part_2(clickhouse_changes_part_1(clickhouse_changes_part_0(d))))
}

/// Applies the ClickHouse grammar changes to `d`.
pub fn apply_clickhouse_grammar_changes(d: &mut DialectModel)
    ensures
        final(d)@ == clickhouse_grammar_changes(old(d)@),
{
    apply_clickhouse_changes_part_0(d);
    apply_clickhouse_changes_part_1(d);
    apply_clickhouse_changes_part_2(d);
    apply_clickhouse_changes_part_3(d);
    proof {
        reveal(clickhouse_grammar_changes);
    }
}

proof fn lemma_clickhouse_part_1_sets_pre_where_clause_segment(d: DialectView)
    ensures
        clickhouse_changes_part_1(d).element("PreWhereClauseSegment"@) == Some(pre_where_clause_segment_element()),
{
    reveal_strlit("PreWhereClauseSegment");
    reveal_strlit("ArrayJoinClauseSegment");
    assert("PreWhereClauseSegment"@.len() != "ArrayJoinClauseSegment"@.len());
    reveal_strlit("BracketedArguments");
    assert("PreWhereClauseSegment"@.len() != "BracketedArguments"@.len());
    reveal_strlit("CTEDefinitionSegment");
    assert("PreWhereClauseSegment"@.len() != "CTEDefinitionSegment"@.len());
    reveal_strlit("DatabaseEngineFunctionSegment");
    assert("PreWhereClauseSegment"@.len() != "DatabaseEngineFunctionSegment"@.len());
    reveal_strlit("DatabaseEngineSegment");
    assert("PreWhereClauseSegment"@[0] != "DatabaseEngineSegment"@[0]);
    reveal_strlit("DatatypeSegment");
    assert("PreWhereClauseSegment"@.len() != "DatatypeSegment"@.len());
    reveal_strlit("OnClusterClauseSegment");
    assert("PreWhereClauseSegment"@.len() != "OnClusterClauseSegment"@.len());
    reveal_strlit("QualifyClauseSegment");
    assert("PreWhereClauseSegment"@.len() != "QualifyClauseSegment"@.len());
    reveal_strlit("TableEngineFunctionSegment");
    assert("PreWhereClauseSegment"@.len() != "TableEngineFunctionSegment"@.len());
    reveal_strlit("TableEngineSegment");
    assert("PreWhereClauseSegment"@.len() != "TableEngineSegment"@.len());
    reveal_strlit("TupleTypeSchemaSegment");
    assert("PreWhereClauseSegment"@.len() != "TupleTypeSchemaSegment"@.len());
    reveal_strlit("TupleTypeSegment");
    assert("PreWhereClauseSegment"@.len() != "TupleTypeSegment"@.len());
    reveal_strlit("UnorderedSelectStatementSegment");
    assert("PreWhereClauseSegment"@.len() != "UnorderedSelectStatementSegment"@.len());
    reveal_strlit("WithFillSegment");
    assert("PreWhereClauseSegment"@.len() != "WithFillSegment"@.len());
}

proof fn lemma_clickhouse_part_2_keeps_pre_where_clause_segment(d: DialectView)
    ensures
        clickhouse_changes_part_2(d).element("PreWhereClauseSegment"@) == d.element("PreWhereClauseSegment"@),
{
    reveal_strlit("PreWhereClauseSegment");
    reveal_strlit("ColumnConstraintSegment");
    assert("PreWhereClauseSegment"@.len() != "ColumnConstraintSegment"@.len());
    reveal_strlit("ColumnTTLSegment");
    assert("PreWhereClauseSegment"@.len() != "ColumnTTLSegment"@.len());
    reveal_strlit("CreateDatabaseStatementSegment");
    assert("PreWhereClauseSegment"@.len() != "CreateDatabaseStatementSegment"@.len());
    reveal_strlit("CreateMaterializedViewStatementSegment");
    assert("PreWhereClauseSegment"@.len() != "CreateMaterializedViewStatementSegment"@.len());
    reveal_strlit("CreateTableStatementSegment");
    assert("PreWhereClauseSegment"@.len() != "CreateTableStatementSegment"@.len());
    reveal_strlit("DropDatabaseStatementSegment");
    assert("PreWhereClauseSegment"@.len() != "DropDatabaseStatementSegment"@.len());
    reveal_strlit("DropDictionaryStatementSegment");
    assert("PreWhereClauseSegment"@.len() != "DropDictionaryStatementSegment"@.len());
    reveal_strlit("DropFunctionStatementSegment");
    assert("PreWhereClauseSegment"@.len() != "DropFunctionStatementSegment"@.len());
    reveal_strlit("DropQuotaStatementSegment");
    assert("PreWhereClauseSegment"@.len() != "DropQuotaStatementSegment"@.len());
    reveal_strlit("DropRoleStatementSegment");
    assert("PreWhereClauseSegment"@.len() != "DropRoleStatementSegment"@.len());
    reveal_strlit("DropTableStatementSegment");
    assert("PreWhereClauseSegment"@.len() != "DropTableStatementSegment"@.len());
    reveal_strlit("DropUserStatementSegment");
    assert("PreWhereClauseSegment"@.len() != "DropUserStatementSegment"@.len());
    reveal_strlit("DropViewStatementSegment");
    assert("PreWhereClauseSegment"@.len() != "DropViewStatementSegment"@.len());
    reveal_strlit("RenameStatementSegment");
    assert("PreWhereClauseSegment"@.len() != "RenameStatementSegment"@.len());
    reveal_strlit("SystemFilesystemSegment");
    assert("PreWhereClauseSegment"@.len() != "SystemFilesystemSegment"@.len());
    reveal_strlit("SystemMergesSegment");
    assert("PreWhereClauseSegment"@.len() != "SystemMergesSegment"@.len());
    reveal_strlit("SystemMovesSegment");
    assert("PreWhereClauseSegment"@.len() != "SystemMovesSegment"@.len());
    reveal_strlit("SystemReplicaSegment");
    assert("PreWhereClauseSegment"@.len() != "SystemReplicaSegment"@.len());
    reveal_strlit("SystemTTLMergesSegment");
    assert("PreWhereClauseSegment"@.len() != "SystemTTLMergesSegment"@.len());
    reveal_strlit("TableTTLSegment");
    assert("PreWhereClauseSegment"@.len() != "TableTTLSegment"@.len());
}

proof fn lemma_clickhouse_part_3_keeps_pre_where_clause_segment(d: DialectView)
    ensures
        clickhouse_changes_part_3(d).element("PreWhereClauseSegment"@) == d.element("PreWhereClauseSegment"@),
{
    reveal_strlit("PreWhereClauseSegment");
    reveal_strlit("AlterTableStatementSegment");
    assert("PreWhereClauseSegment"@.len() != "AlterTableStatementSegment"@.len());
    reveal_strlit("ColumnDefinitionSegment");
    assert("PreWhereClauseSegment"@.len() != "ColumnDefinitionSegment"@.len());
    reveal_strlit("IntervalExpressionSegment");
    assert("PreWhereClauseSegment"@.len() != "IntervalExpressionSegment"@.len());
    reveal_strlit("LimitClauseComponentSegment");
    assert("PreWhereClauseSegment"@.len() != "LimitClauseComponentSegment"@.len());
    reveal_strlit("LimitClauseSegment");
    assert("PreWhereClauseSegment"@.len() != "LimitClauseSegment"@.len());
    reveal_strlit("StatementSegment");
    assert("PreWhereClauseSegment"@.len() != "StatementSegment"@.len());
    reveal_strlit("SystemDistributedSegment");
    assert("PreWhereClauseSegment"@.len() != "SystemDistributedSegment"@.len());
    reveal_strlit("SystemFetchesSegment");
    assert("PreWhereClauseSegment"@.len() != "SystemFetchesSegment"@.len());
    reveal_strlit("SystemFileSegment");
    assert("PreWhereClauseSegment"@.len() != "SystemFileSegment"@.len());
    reveal_strlit("SystemModelSegment");
    assert("PreWhereClauseSegment"@.len() != "SystemModelSegment"@.len());
    reveal_strlit("SystemReplicatedSegment");
    assert("PreWhereClauseSegment"@.len() != "SystemReplicatedSegment"@.len());
    reveal_strlit("SystemReplicationSegment");
    assert("PreWhereClauseSegment"@.len() != "SystemReplicationSegment"@.len());
    reveal_strlit("SystemStatementSegment");
    assert("PreWhereClauseSegment"@.len() != "SystemStatementSegment"@.len());
    reveal_strlit("SystemUnfreezeSegment");
    assert("PreWhereClauseSegment"@[0] != "SystemUnfreezeSegment"@[0]);
}

/// After the ClickHouse grammar changes, `PreWhereClauseSegment` is what their last change of that
/// name sets, whatever dialect they start from.
pub proof fn lemma_clickhouse_changes_pre_where_clause_segment(d: DialectView)
    ensures
        clickhouse_grammar_changes(d).element("PreWhereClauseSegment"@) == Some(pre_where_clause_segment_element()),
{
    reveal(clickhouse_grammar_changes);
    let d0 = d;
    let d1 = clickhouse_changes_part_0(d0);
    let d2 = clickhouse_changes_part_1(d1);
    let d3 = clickhouse_changes_part_2(d2);
    let d4 = clickhouse_changes_part_3(d3);
    lemma_clickhouse_part_1_sets_pre_where_clause_segment(d1);
    lemma_clickhouse_part_2_keeps_pre_where_clause_segment(d2);
    lemma_clickhouse_part_3_keeps_pre_where_clause_segment(d3);
}


proof fn lemma_clickhouse_part_0_sets_format_clause_segment(d: DialectView)
    ensures
        clickhouse_changes_part_0(d).element("FormatClauseSegment"@) == Some(format_clause_segment_element()),
{
    reveal_strlit("FormatClauseSegment");
    reveal_strlit("MergeTreesOrderByClauseSegment");
    assert("FormatClauseSegment"@.len() != "MergeTreesOrderByClauseSegment"@.len());
}

proof fn lemma_clickhouse_part_1_keeps_format_clause_segment(d: DialectView)
    ensures
        clickhouse_changes_part_1(d).element("FormatClauseSegment"@) == d.element("FormatClauseSegment"@),
{
    reveal_strlit("FormatClauseSegment");
    reveal_strlit("ArrayJoinClauseSegment");
    assert("FormatClauseSegment"@.len() != "ArrayJoinClauseSegment"@.len());
    reveal_strlit("BinaryOperatorGrammar");
    assert("FormatClauseSegment"@.len() != "BinaryOperatorGrammar"@.len());
    reveal_strlit("BracketedArguments");
    assert("FormatClauseSegment"@.len() != "BracketedArguments"@.len());
    reveal_strlit("CTEDefinitionSegment");
    assert("FormatClauseSegment"@.len() != "CTEDefinitionSegment"@.len());
    reveal_strlit("DatabaseEngineFunctionSegment");
    assert("FormatClauseSegment"@.len() != "DatabaseEngineFunctionSegment"@.len());
    reveal_strlit("DatabaseEngineSegment");
    assert("FormatClauseSegment"@.len() != "DatabaseEngineSegment"@.len());
    reveal_strlit("DatatypeSegment");
    assert("FormatClauseSegment"@.len() != "DatatypeSegment"@.len());
    reveal_strlit("InOperatorGrammar");
    assert("FormatClauseSegment"@.len() != "InOperatorGrammar"@.len());
    reveal_strlit("JoinLikeClauseGrammar");
    assert("FormatClauseSegment"@.len() != "JoinLikeClauseGrammar"@.len());
    reveal_strlit("JoinTypeKeywords");
    assert("FormatClauseSegment"@.len() != "JoinTypeKeywords"@.len());
    reveal_strlit("LambdaFunctionSegment");
    assert("FormatClauseSegment"@.len() != "LambdaFunctionSegment"@.len());
    reveal_strlit("OnClusterClauseSegment");
    assert("FormatClauseSegment"@.len() != "OnClusterClauseSegment"@.len());
    reveal_strlit("PreWhereClauseSegment");
    assert("FormatClauseSegment"@.len() != "PreWhereClauseSegment"@.len());
    reveal_strlit("QualifyClauseSegment");
    assert("FormatClauseSegment"@.len() != "QualifyClauseSegment"@.len());
    reveal_strlit("TableEngineFunctionSegment");
    assert("FormatClauseSegment"@.len() != "TableEngineFunctionSegment"@.len());
    reveal_strlit("TableEngineSegment");
    assert("FormatClauseSegment"@.len() != "TableEngineSegment"@.len());
    reveal_strlit("TupleTypeSchemaSegment");
    assert("FormatClauseSegment"@.len() != "TupleTypeSchemaSegment"@.len());
    reveal_strlit("TupleTypeSegment");
    assert("FormatClauseSegment"@.len() != "TupleTypeSegment"@.len());
    reveal_strlit("UnorderedSelectStatementSegment");
    assert("FormatClauseSegment"@.len() != "UnorderedSelectStatementSegment"@.len());
    reveal_strlit("WithFillSegment");
    assert("FormatClauseSegment"@.len() != "WithFillSegment"@.len());
}

proof fn lemma_clickhouse_part_2_keeps_format_clause_segment(d: DialectView)
    ensures
        clickhouse_changes_part_2(d).element("FormatClauseSegment"@) == d.element("FormatClauseSegment"@),
{
    reveal_strlit("FormatClauseSegment");
    reveal_strlit("ColumnConstraintSegment");
    assert("FormatClauseSegment"@.len() != "ColumnConstraintSegment"@.len());
    reveal_strlit("ColumnTTLSegment");
    assert("FormatClauseSegment"@.len() != "ColumnTTLSegment"@.len());
    reveal_strlit("CreateDatabaseStatementSegment");
    assert("FormatClauseSegment"@.len() != "CreateDatabaseStatementSegment"@.len());
    reveal_strlit("CreateMaterializedViewStatementSegment");
    assert("FormatClauseSegment"@.len() != "CreateMaterializedViewStatementSegment"@.len());
    reveal_strlit("CreateTableStatementSegment");
    assert("FormatClauseSegment"@.len() != "CreateTableStatementSegment"@.len());
    reveal_strlit("DropDatabaseStatementSegment");
    assert("FormatClauseSegment"@.len() != "DropDatabaseStatementSegment"@.len());
    reveal_strlit("DropDictionaryStatementSegment");
    assert("FormatClauseSegment"@.len() != "DropDictionaryStatementSegment"@.len());
    reveal_strlit("DropFunctionStatementSegment");
    assert("FormatClauseSegment"@.len() != "DropFunctionStatementSegment"@.len());
    reveal_strlit("DropQuotaStatementSegment");
    assert("FormatClauseSegment"@.len() != "DropQuotaStatementSegment"@.len());
    reveal_strlit("DropRoleStatementSegment");
    assert("FormatClauseSegment"@.len() != "DropRoleStatementSegment"@.len());
    reveal_strlit("DropTableStatementSegment");
    assert("FormatClauseSegment"@.len() != "DropTableStatementSegment"@.len());
    reveal_strlit("DropUserStatementSegment");
    assert("FormatClauseSegment"@.len() != "DropUserStatementSegment"@.len());
    reveal_strlit("DropViewStatementSegment");
    assert("FormatClauseSegment"@.len() != "DropViewStatementSegment"@.len());
    reveal_strlit("RenameStatementSegment");
    assert("FormatClauseSegment"@.len() != "RenameStatementSegment"@.len());
    reveal_strlit("SystemFilesystemSegment");
    assert("FormatClauseSegment"@.len() != "SystemFilesystemSegment"@.len());
    reveal_strlit("SystemMergesSegment");
    assert("FormatClauseSegment"@[0] != "SystemMergesSegment"@[0]);
    reveal_strlit("SystemMovesSegment");
    assert("FormatClauseSegment"@.len() != "SystemMovesSegment"@.len());
    reveal_strlit("SystemReplicaSegment");
    assert("FormatClauseSegment"@.len() != "SystemReplicaSegment"@.len());
    reveal_strlit("SystemTTLMergesSegment");
    assert("FormatClauseSegment"@.len() != "SystemTTLMergesSegment"@.len());
    reveal_strlit("TableTTLSegment");
    assert("FormatClauseSegment"@.len() != "TableTTLSegment"@.len());
}

proof fn lemma_clickhouse_part_3_keeps_format_clause_segment(d: DialectView)
    ensures
        clickhouse_changes_part_3(d).element("FormatClauseSegment"@) == d.element("FormatClauseSegment"@),
{
    reveal_strlit("FormatClauseSegment");
    reveal_strlit("AlterTableStatementSegment");
    assert("FormatClauseSegment"@.len() != "AlterTableStatementSegment"@.len());
    reveal_strlit("ColumnDefinitionSegment");
    assert("FormatClauseSegment"@.len() != "ColumnDefinitionSegment"@.len());
    reveal_strlit("IntervalExpressionSegment");
    assert("FormatClauseSegment"@.len() != "IntervalExpressionSegment"@.len());
    reveal_strlit("LimitClauseComponentSegment");
    assert("FormatClauseSegment"@.len() != "LimitClauseComponentSegment"@.len());
    reveal_strlit("LimitClauseSegment");
    assert("FormatClauseSegment"@.len() != "LimitClauseSegment"@.len());
    reveal_strlit("StatementSegment");
    assert("FormatClauseSegment"@.len() != "StatementSegment"@.len());
    reveal_strlit("SystemDistributedSegment");
    assert("FormatClauseSegment"@.len() != "SystemDistributedSegment"@.len());
    reveal_strlit("SystemFetchesSegment");
    assert("FormatClauseSegment"@.len() != "SystemFetchesSegment"@.len());
    reveal_strlit("SystemFileSegment");
    assert("FormatClauseSegment"@.len() != "SystemFileSegment"@.len());
    reveal_strlit("SystemModelSegment");
    assert("FormatClauseSegment"@.len() != "SystemModelSegment"@.len());
    reveal_strlit("SystemReplicatedSegment");
    assert("FormatClauseSegment"@.len() != "SystemReplicatedSegment"@.len());
    reveal_strlit("SystemReplicationSegment");
    assert("FormatClauseSegment"@.len() != "SystemReplicationSegment"@.len());
    reveal_strlit("SystemStatementSegment");
    assert("FormatClauseSegment"@.len() != "SystemStatementSegment"@.len());
    reveal_strlit("SystemUnfreezeSegment");
    assert("FormatClauseSegment"@.len() != "SystemUnfreezeSegment"@.len());
}

/// After the ClickHouse grammar changes, `FormatClauseSegment` is what their last change of that
/// name sets, whatever dialect they start from.
pub proof fn lemma_clickhouse_changes_format_clause_segment(d: DialectView)
    ensures
        clickhouse_grammar_changes(d).element("FormatClauseSegment"@) == Some(format_clause_segment_element()),
{
    reveal(clickhouse_grammar_changes);
    let d0 = d;
    let d1 = clickhouse_changes_part_0(d0);
    let d2 = clickhouse_changes_part_1(d1);
    let d3 = clickhouse_changes_part_2(d2);
    let d4 = clickhouse_changes_part_3(d3);
    lemma_clickhouse_part_0_sets_format_clause_segment(d0);
    lemma_clickhouse_part_1_keeps_format_clause_segment(d1);
    lemma_clickhouse_part_2_keeps_format_clause_segment(d2);
    lemma_clickhouse_part_3_keeps_format_clause_segment(d3);
}


/// The ClickHouse grammar changes make `FormatClauseSegment` the grammar
/// `FORMAT`, a format name, then an optional `SETTINGS` clause; whatever dialect they start from.
pub proof fn law_clickhouse_format_clause(d: DialectView)
    ensures
        ({
            let e = ElementView::Grammar(GrammarView::sequence(seq![GrammarView::keyword("FORMAT"@), GrammarView::reference("FormatValueSegment"@), GrammarView::optional_reference("SettingsClauseSegment"@)]));
            &&& clickhouse_grammar_changes(d).element("FormatClauseSegment"@) == Some(e)
        }),
{
    lemma_clickhouse_changes_format_clause_segment(d);
}

proof fn lemma_clickhouse_part_1_sets_array_join_clause_segment(d: DialectView)
    ensures
        clickhouse_changes_part_1(d).element("ArrayJoinClauseSegment"@) == Some(array_join_clause_segment_element()),
{
    reveal_strlit("ArrayJoinClauseSegment");
    reveal_strlit("CTEDefinitionSegment");
    assert("ArrayJoinClauseSegment"@.len() != "CTEDefinitionSegment"@.len());
    reveal_strlit("DatabaseEngineFunctionSegment");
    assert("ArrayJoinClauseSegment"@.len() != "DatabaseEngineFunctionSegment"@.len());
    reveal_strlit("DatabaseEngineSegment");
    assert("ArrayJoinClauseSegment"@.len() != "DatabaseEngineSegment"@.len());
    reveal_strlit("OnClusterClauseSegment");
    assert("ArrayJoinClauseSegment"@[0] != "OnClusterClauseSegment"@[0]);
    reveal_strlit("TableEngineFunctionSegment");
    assert("ArrayJoinClauseSegment"@.len() != "TableEngineFunctionSegment"@.len());
    reveal_strlit("TableEngineSegment");
    assert("ArrayJoinClauseSegment"@.len() != "TableEngineSegment"@.len());
}

proof fn lemma_clickhouse_part_2_keeps_array_join_clause_segment(d: DialectView)
    ensures
        clickhouse_changes_part_2(d).element("ArrayJoinClauseSegment"@) == d.element("ArrayJoinClauseSegment"@),
{
    reveal_strlit("ArrayJoinClauseSegment");
    reveal_strlit("ColumnConstraintSegment");
    assert("ArrayJoinClauseSegment"@.len() != "ColumnConstraintSegment"@.len());
    reveal_strlit("ColumnTTLSegment");
    assert("ArrayJoinClauseSegment"@.len() != "ColumnTTLSegment"@.len());
    reveal_strlit("CreateDatabaseStatementSegment");
    assert("ArrayJoinClauseSegment"@.len() != "CreateDatabaseStatementSegment"@.len());
    reveal_strlit("CreateMaterializedViewStatementSegment");
    assert("ArrayJoinClauseSegment"@.len() != "CreateMaterializedViewStatementSegment"@.len());
    reveal_strlit("CreateTableStatementSegment");
    assert("ArrayJoinClauseSegment"@.len() != "CreateTableStatementSegment"@.len());
    reveal_strlit("DropDatabaseStatementSegment");
    assert("ArrayJoinClauseSegment"@.len() != "DropDatabaseStatementSegment"@.len());
    reveal_strlit("DropDictionaryStatementSegment");
    assert("ArrayJoinClauseSegment"@.len() != "DropDictionaryStatementSegment"@.len());
    reveal_strlit("DropFunctionStatementSegment");
    assert("ArrayJoinClauseSegment"@.len() != "DropFunctionStatementSegment"@.len());
    reveal_strlit("DropQuotaStatementSegment");
    assert("ArrayJoinClauseSegment"@.len() != "DropQuotaStatementSegment"@.len());
    reveal_strlit("DropRoleStatementSegment");
    assert("ArrayJoinClauseSegment"@.len() != "DropRoleStatementSegment"@.len());
    reveal_strlit("DropTableStatementSegment");
    assert("ArrayJoinClauseSegment"@.len() != "DropTableStatementSegment"@.len());
    reveal_strlit("DropUserStatementSegment");
    assert("ArrayJoinClauseSegment"@.len() != "DropUserStatementSegment"@.len());
    reveal_strlit("DropViewStatementSegment");
    assert("ArrayJoinClauseSegment"@.len() != "DropViewStatementSegment"@.len());
    reveal_strlit("RenameStatementSegment");
    assert("ArrayJoinClauseSegment"@[0] != "RenameStatementSegment"@[0]);
    reveal_strlit("SystemFilesystemSegment");
    assert("ArrayJoinClauseSegment"@.len() != "SystemFilesystemSegment"@.len());
    reveal_strlit("SystemMergesSegment");
    assert("ArrayJoinClauseSegment"@.len() != "SystemMergesSegment"@.len());
    reveal_strlit("SystemMovesSegment");
    assert("ArrayJoinClauseSegment"@.len() != "SystemMovesSegment"@.len());
    reveal_strlit("SystemReplicaSegment");
    assert("ArrayJoinClauseSegment"@.len() != "SystemReplicaSegment"@.len());
    reveal_strlit("SystemTTLMergesSegment");
    assert("ArrayJoinClauseSegment"@[0] != "SystemTTLMergesSegment"@[0]);
    reveal_strlit("TableTTLSegment");
    assert("ArrayJoinClauseSegment"@.len() != "TableTTLSegment"@.len());
}

proof fn lemma_clickhouse_part_3_keeps_array_join_clause_segment(d: DialectView)
    ensures
        clickhouse_changes_part_3(d).element("ArrayJoinClauseSegment"@) == d.element("ArrayJoinClauseSegment"@),
{
    reveal_strlit("ArrayJoinClauseSegment");
    reveal_strlit("AlterTableStatementSegment");
    assert("ArrayJoinClauseSegment"@.len() != "AlterTableStatementSegment"@.len());
    reveal_strlit("ColumnDefinitionSegment");
    assert("ArrayJoinClauseSegment"@.len() != "ColumnDefinitionSegment"@.len());
    reveal_strlit("IntervalExpressionSegment");
    assert("ArrayJoinClauseSegment"@.len() != "IntervalExpressionSegment"@.len());
    reveal_strlit("LimitClauseComponentSegment");
    assert("ArrayJoinClauseSegment"@.len() != "LimitClauseComponentSegment"@.len());
    reveal_strlit("LimitClauseSegment");
    assert("ArrayJoinClauseSegment"@.len() != "LimitClauseSegment"@.len());
    reveal_strlit("StatementSegment");
    assert("ArrayJoinClauseSegment"@.len() != "StatementSegment"@.len());
    reveal_strlit("SystemDistributedSegment");
    assert("ArrayJoinClauseSegment"@.len() != "SystemDistributedSegment"@.len());
    reveal_strlit("SystemFetchesSegment");
    assert("ArrayJoinClauseSegment"@.len() != "SystemFetchesSegment"@.len());
    reveal_strlit("SystemFileSegment");
    assert("ArrayJoinClauseSegment"@.len() != "SystemFileSegment"@.len());
    reveal_strlit("SystemModelSegment");
    assert("ArrayJoinClauseSegment"@.len() != "SystemModelSegment"@.len());
    reveal_strlit("SystemReplicatedSegment");
    assert("ArrayJoinClauseSegment"@.len() != "SystemReplicatedSegment"@.len());
    reveal_strlit("SystemReplicationSegment");
    assert("ArrayJoinClauseSegment"@.len() != "SystemReplicationSegment"@.len());
    reveal_strlit("SystemStatementSegment");
    assert("ArrayJoinClauseSegment"@[0] != "SystemStatementSegment"@[0]);
    reveal_strlit("SystemUnfreezeSegment");
    assert("ArrayJoinClauseSegment"@.len() != "SystemUnfreezeSegment"@.len());
}

/// After the ClickHouse grammar changes, `ArrayJoinClauseSegment` is what their last change of that
/// name sets, whatever dialect they start from.
pub proof fn lemma_clickhouse_changes_array_join_clause_segment(d: DialectView)
    ensures
        clickhouse_grammar_changes(d).element("ArrayJoinClauseSegment"@) == Some(array_join_clause_segment_element()),
{
    reveal(clickhouse_grammar_changes);
    let d0 = d;
    let d1 = clickhouse_changes_part_0(d0);
    let d2 = clickhouse_changes_part_1(d1);
    let d3 = clickhouse_changes_part_2(d2);
    let d4 = clickhouse_changes_part_3(d3);
    lemma_clickhouse_part_1_sets_array_join_clause_segment(d1);
    lemma_clickhouse_part_2_keeps_array_join_clause_segment(d2);
    lemma_clickhouse_part_3_keeps_array_join_clause_segment(d3);
}


/// The ClickHouse grammar changes make `ArrayJoinClauseSegment` an
/// `array_join_clause` node: an optional `LEFT`, `ARRAY`, the join keywords,
/// an indent, a comma-separated list of select-clause elements and a dedent;
/// so both `ARRAY JOIN` and `LEFT ARRAY JOIN` are array joins; whatever dialect they start from.
pub proof fn law_clickhouse_array_join_clause(d: DialectView)
    ensures
        ({
            let e = (ElementView::Node { kind: "array_join_clause"@, grammar: GrammarView::sequence(seq![(GrammarView::Optional { grammar: Box::new(GrammarView::keyword("LEFT"@)) }), GrammarView::keyword("ARRAY"@), GrammarView::reference("JoinKeywordsGrammar"@), GrammarView::Indent, GrammarView::delimited(seq![GrammarView::reference("SelectClauseElementSegment"@)]), GrammarView::Dedent]) });
            &&& clickhouse_grammar_changes(d).element("ArrayJoinClauseSegment"@) == Some(e)
        }),
{
    lemma_clickhouse_changes_array_join_clause_segment(d);
}

proof fn lemma_clickhouse_part_0_sets_into_outfile_clause_segment(d: DialectView)
    ensures
        clickhouse_changes_part_0(d).element("IntoOutfileClauseSegment"@) == Some(into_outfile_clause_segment_element()),
{
    reveal_strlit("IntoOutfileClauseSegment");
    reveal_strlit("FormatClauseSegment");
    assert("IntoOutfileClauseSegment"@.len() != "FormatClauseSegment"@.len());
    reveal_strlit("MergeTreesOrderByClauseSegment");
    assert("IntoOutfileClauseSegment"@.len() != "MergeTreesOrderByClauseSegment"@.len());
}

proof fn lemma_clickhouse_part_1_keeps_into_outfile_clause_segment(d: DialectView)
    ensures
        clickhouse_changes_part_1(d).element("IntoOutfileClauseSegment"@) == d.element("IntoOutfileClauseSegment"@),
{
    reveal_strlit("IntoOutfileClauseSegment");
    reveal_strlit("ArrayJoinClauseSegment");
    assert("IntoOutfileClauseSegment"@.len() != "ArrayJoinClauseSegment"@.len());
    reveal_strlit("BinaryOperatorGrammar");
    assert("IntoOutfileClauseSegment"@.len() != "BinaryOperatorGrammar"@.len());
    reveal_strlit("BracketedArguments");
    assert("IntoOutfileClauseSegment"@.len() != "BracketedArguments"@.len());
    reveal_strlit("CTEDefinitionSegment");
    assert("IntoOutfileClauseSegment"@.len() != "CTEDefinitionSegment"@.len());
    reveal_strlit("DatabaseEngineFunctionSegment");
    assert("IntoOutfileClauseSegment"@.len() != "DatabaseEngineFunctionSegment"@.len());
    reveal_strlit("DatabaseEngineSegment");
    assert("IntoOutfileClauseSegment"@.len() != "DatabaseEngineSegment"@.len());
    reveal_strlit("DatatypeSegment");
    assert("IntoOutfileClauseSegment"@.len() != "DatatypeSegment"@.len());
    reveal_strlit("InOperatorGrammar");
    assert("IntoOutfileClauseSegment"@.len() != "InOperatorGrammar"@.len());
    reveal_strlit("JoinLikeClauseGrammar");
    assert("IntoOutfileClauseSegment"@.len() != "JoinLikeClauseGrammar"@.len());
    reveal_strlit("JoinTypeKeywords");
    assert("IntoOutfileClauseSegment"@.len() != "JoinTypeKeywords"@.len());
    reveal_strlit("LambdaFunctionSegment");
    assert("IntoOutfileClauseSegment"@.len() != "LambdaFunctionSegment"@.len());
    reveal_strlit("OnClusterClauseSegment");
    assert("IntoOutfileClauseSegment"@.len() != "OnClusterClauseSegment"@.len());
    reveal_strlit("PreWhereClauseSegment");
    assert("IntoOutfileClauseSegment"@.len() != "PreWhereClauseSegment"@.len());
    reveal_strlit("QualifyClauseSegment");
    assert("IntoOutfileClauseSegment"@.len() != "QualifyClauseSegment"@.len());
    reveal_strlit("TableEngineFunctionSegment");
    assert("IntoOutfileClauseSegment"@.len() != "TableEngineFunctionSegment"@.len());
    reveal_strlit("TableEngineSegment");
    assert("IntoOutfileClauseSegment"@.len() != "TableEngineSegment"@.len());
    reveal_strlit("TupleTypeSchemaSegment");
    assert("IntoOutfileClauseSegment"@.len() != "TupleTypeSchemaSegment"@.len());
    reveal_strlit("TupleTypeSegment");
    assert("IntoOutfileClauseSegment"@.len() != "TupleTypeSegment"@.len());
    reveal_strlit("UnorderedSelectStatementSegment");
    assert("IntoOutfileClauseSegment"@.len() != "UnorderedSelectStatementSegment"@.len());
    reveal_strlit("WithFillSegment");
    assert("IntoOutfileClauseSegment"@.len() != "WithFillSegment"@.len());
}

proof fn lemma_clickhouse_part_2_keeps_into_outfile_clause_segment(d: DialectView)
    ensures
        clickhouse_changes_part_2(d).element("IntoOutfileClauseSegment"@) == d.element("IntoOutfileClauseSegment"@),
{
    reveal_strlit("IntoOutfileClauseSegment");
    reveal_strlit("ColumnConstraintSegment");
    assert("IntoOutfileClauseSegment"@.len() != "ColumnConstraintSegment"@.len());
    reveal_strlit("ColumnTTLSegment");
    assert("IntoOutfileClauseSegment"@.len() != "ColumnTTLSegment"@.len());
    reveal_strlit("CreateDatabaseStatementSegment");
    assert("IntoOutfileClauseSegment"@.len() != "CreateDatabaseStatementSegment"@.len());
    reveal_strlit("CreateMaterializedViewStatementSegment");
    assert("IntoOutfileClauseSegment"@.len() != "CreateMaterializedViewStatementSegment"@.len());
    reveal_strlit("CreateTableStatementSegment");
    assert("IntoOutfileClauseSegment"@.len() != "CreateTableStatementSegment"@.len());
    reveal_strlit("DropDatabaseStatementSegment");
    assert("IntoOutfileClauseSegment"@.len() != "DropDatabaseStatementSegment"@.len());
    reveal_strlit("DropDictionaryStatementSegment");
    assert("IntoOutfileClauseSegment"@.len() != "DropDictionaryStatementSegment"@.len());
    reveal_strlit("DropFunctionStatementSegment");
    assert("IntoOutfileClauseSegment"@.len() != "DropFunctionStatementSegment"@.len());
    reveal_strlit("DropQuotaStatementSegment");
    assert("IntoOutfileClauseSegment"@.len() != "DropQuotaStatementSegment"@.len());
    reveal_strlit("DropRoleStatementSegment");
    assert("IntoOutfileClauseSegment"@[0] != "DropRoleStatementSegment"@[0]);
    reveal_strlit("DropTableStatementSegment");
    assert("IntoOutfileClauseSegment"@.len() != "DropTableStatementSegment"@.len());
    reveal_strlit("DropUserStatementSegment");
    assert("IntoOutfileClauseSegment"@[0] != "DropUserStatementSegment"@[0]);
    reveal_strlit("DropViewStatementSegment");
    assert("IntoOutfileClauseSegment"@[0] != "DropViewStatementSegment"@[0]);
    reveal_strlit("RenameStatementSegment");
    assert("IntoOutfileClauseSegment"@.len() != "RenameStatementSegment"@.len());
    reveal_strlit("SystemFilesystemSegment");
    assert("IntoOutfileClauseSegment"@.len() != "SystemFilesystemSegment"@.len());
    reveal_strlit("SystemMergesSegment");
    assert("IntoOutfileClauseSegment"@.len() != "SystemMergesSegment"@.len());
    reveal_strlit("SystemMovesSegment");
    assert("IntoOutfileClauseSegment"@.len() != "SystemMovesSegment"@.len());
    reveal_strlit("SystemReplicaSegment");
    assert("IntoOutfileClauseSegment"@.len() != "SystemReplicaSegment"@.len());
    reveal_strlit("SystemTTLMergesSegment");
    assert("IntoOutfileClauseSegment"@.len() != "SystemTTLMergesSegment"@.len());
    reveal_strlit("TableTTLSegment");
    assert("IntoOutfileClauseSegment"@.len() != "TableTTLSegment"@.len());
}

proof fn lemma_clickhouse_part_3_keeps_into_outfile_clause_segment(d: DialectView)
    ensures
        clickhouse_changes_part_3(d).element("IntoOutfileClauseSegment"@) == d.element("IntoOutfileClauseSegment"@),
{
    reveal_strlit("IntoOutfileClauseSegment");
    reveal_strlit("AlterTableStatementSegment");
    assert("IntoOutfileClauseSegment"@.len() != "AlterTableStatementSegment"@.len());
    reveal_strlit("ColumnDefinitionSegment");
    assert("IntoOutfileClauseSegment"@.len() != "ColumnDefinitionSegment"@.len());
    reveal_strlit("IntervalExpressionSegment");
    assert("IntoOutfileClauseSegment"@.len() != "IntervalExpressionSegment"@.len());
    reveal_strlit("LimitClauseComponentSegment");
    assert("IntoOutfileClauseSegment"@.len() != "LimitClauseComponentSegment"@.len());
    reveal_strlit("LimitClauseSegment");
    assert("IntoOutfileClauseSegment"@.len() != "LimitClauseSegment"@.len());
    reveal_strlit("StatementSegment");
    assert("IntoOutfileClauseSegment"@.len() != "StatementSegment"@.len());
    reveal_strlit("SystemDistributedSegment");
    assert("IntoOutfileClauseSegment"@[0] != "SystemDistributedSegment"@[0]);
    reveal_strlit("SystemFetchesSegment");
    assert("IntoOutfileClauseSegment"@.len() != "SystemFetchesSegment"@.len());
    reveal_strlit("SystemFileSegment");
    assert("IntoOutfileClauseSegment"@.len() != "SystemFileSegment"@.len());
    reveal_strlit("SystemModelSegment");
    assert("IntoOutfileClauseSegment"@.len() != "SystemModelSegment"@.len());
    reveal_strlit("SystemReplicatedSegment");
    assert("IntoOutfileClauseSegment"@.len() != "SystemReplicatedSegment"@.len());
    reveal_strlit("SystemReplicationSegment");
    assert("IntoOutfileClauseSegment"@[0] != "SystemReplicationSegment"@[0]);
    reveal_strlit("SystemStatementSegment");
    assert("IntoOutfileClauseSegment"@.len() != "SystemStatementSegment"@.len());
    reveal_strlit("SystemUnfreezeSegment");
    assert("IntoOutfileClauseSegment"@.len() != "SystemUnfreezeSegment"@.len());
}

/// After the ClickHouse grammar changes, `IntoOutfileClauseSegment` is what their last change of that
/// name sets, whatever dialect they start from.
pub proof fn lemma_clickhouse_changes_into_outfile_clause_segment(d: DialectView)
    ensures
        clickhouse_grammar_changes(d).element("IntoOutfileClauseSegment"@) == Some(into_outfile_clause_segment_element()),
{
    reveal(clickhouse_grammar_changes);
    let d0 = d;
    let d1 = clickhouse_changes_part_0(d0);
    let d2 = clickhouse_changes_part_1(d1);
    let d3 = clickhouse_changes_part_2(d2);
    let d4 = clickhouse_changes_part_3(d3);
    lemma_clickhouse_part_0_sets_into_outfile_clause_segment(d0);
    lemma_clickhouse_part_1_keeps_into_outfile_clause_segment(d1);
    lemma_clickhouse_part_2_keeps_into_outfile_clause_segment(d2);
    lemma_clickhouse_part_3_keeps_into_outfile_clause_segment(d3);
}


/// The ClickHouse grammar changes make `IntoOutfileClauseSegment` the grammar
/// `INTO OUTFILE`, a quoted file name, then an optional `FORMAT` clause; whatever dialect they start from.
pub proof fn law_clickhouse_into_outfile_clause(d: DialectView)
    ensures
        ({
            let e = ElementView::Grammar(GrammarView::sequence(seq![GrammarView::keyword("INTO"@), GrammarView::keyword("OUTFILE"@), GrammarView::reference("QuotedLiteralSegment"@), GrammarView::optional_reference("FormatClauseSegment"@)]));
            &&& clickhouse_grammar_changes(d).element("IntoOutfileClauseSegment"@) == Some(e)
        }),
{
    lemma_clickhouse_changes_into_outfile_clause_segment(d);
}

proof fn lemma_clickhouse_part_1_sets_on_cluster_clause_segment(d: DialectView)
    ensures
        clickhouse_changes_part_1(d).element("OnClusterClauseSegment"@) == Some(on_cluster_clause_segment_element()),
{
    reveal_strlit("OnClusterClauseSegment");
    reveal_strlit("DatabaseEngineFunctionSegment");
    assert("OnClusterClauseSegment"@.len() != "DatabaseEngineFunctionSegment"@.len());
    reveal_strlit("DatabaseEngineSegment");
    assert("OnClusterClauseSegment"@.len() != "DatabaseEngineSegment"@.len());
    reveal_strlit("TableEngineSegment");
    assert("OnClusterClauseSegment"@.len() != "TableEngineSegment"@.len());
}

proof fn lemma_clickhouse_part_2_keeps_on_cluster_clause_segment(d: DialectView)
    ensures
        clickhouse_changes_part_2(d).element("OnClusterClauseSegment"@) == d.element("OnClusterClauseSegment"@),
{
    reveal_strlit("OnClusterClauseSegment");
    reveal_strlit("ColumnConstraintSegment");
    assert("OnClusterClauseSegment"@.len() != "ColumnConstraintSegment"@.len());
    reveal_strlit("ColumnTTLSegment");
    assert("OnClusterClauseSegment"@.len() != "ColumnTTLSegment"@.len());
    reveal_strlit("CreateDatabaseStatementSegment");
    assert("OnClusterClauseSegment"@.len() != "CreateDatabaseStatementSegment"@.len());
    reveal_strlit("CreateMaterializedViewStatementSegment");
    assert("OnClusterClauseSegment"@.len() != "CreateMaterializedViewStatementSegment"@.len());
    reveal_strlit("CreateTableStatementSegment");
    assert("OnClusterClauseSegment"@.len() != "CreateTableStatementSegment"@.len());
    reveal_strlit("DropDatabaseStatementSegment");
    assert("OnClusterClauseSegment"@.len() != "DropDatabaseStatementSegment"@.len());
    reveal_strlit("DropDictionaryStatementSegment");
    assert("OnClusterClauseSegment"@.len() != "DropDictionaryStatementSegment"@.len());
    reveal_strlit("DropFunctionStatementSegment");
    assert("OnClusterClauseSegment"@.len() != "DropFunctionStatementSegment"@.len());
    reveal_strlit("DropQuotaStatementSegment");
    assert("OnClusterClauseSegment"@.len() != "DropQuotaStatementSegment"@.len());
    reveal_strlit("DropRoleStatementSegment");
    assert("OnClusterClauseSegment"@.len() != "DropRoleStatementSegment"@.len());
    reveal_strlit("DropTableStatementSegment");
    assert("OnClusterClauseSegment"@.len() != "DropTableStatementSegment"@.len());
    reveal_strlit("DropUserStatementSegment");
    assert("OnClusterClauseSegment"@.len() != "DropUserStatementSegment"@.len());
    reveal_strlit("DropViewStatementSegment");
    assert("OnClusterClauseSegment"@.len() != "DropViewStatementSegment"@.len());
    reveal_strlit("RenameStatementSegment");
    assert("OnClusterClauseSegment"@[0] != "RenameStatementSegment"@[0]);
    reveal_strlit("SystemFilesystemSegment");
    assert("OnClusterClauseSegment"@.len() != "SystemFilesystemSegment"@.len());
    reveal_strlit("SystemMergesSegment");
    assert("OnClusterClauseSegment"@.len() != "SystemMergesSegment"@.len());
    reveal_strlit("SystemMovesSegment");
    assert("OnClusterClauseSegment"@.len() != "SystemMovesSegment"@.len());
    reveal_strlit("SystemReplicaSegment");
    assert("OnClusterClauseSegment"@.len() != "SystemReplicaSegment"@.len());
    reveal_strlit("SystemTTLMergesSegment");
    assert("OnClusterClauseSegment"@[0] != "SystemTTLMergesSegment"@[0]);
    reveal_strlit("TableTTLSegment");
    assert("OnClusterClauseSegment"@.len() != "TableTTLSegment"@.len());
}

proof fn lemma_clickhouse_part_3_keeps_on_cluster_clause_segment(d: DialectView)
    ensures
        clickhouse_changes_part_3(d).element("OnClusterClauseSegment"@) == d.element("OnClusterClauseSegment"@),
{
    reveal_strlit("OnClusterClauseSegment");
    reveal_strlit("AlterTableStatementSegment");
    assert("OnClusterClauseSegment"@.len() != "AlterTableStatementSegment"@.len());
    reveal_strlit("ColumnDefinitionSegment");
    assert("OnClusterClauseSegment"@.len() != "ColumnDefinitionSegment"@.len());
    reveal_strlit("IntervalExpressionSegment");
    assert("OnClusterClauseSegment"@.len() != "IntervalExpressionSegment"@.len());
    reveal_strlit("LimitClauseComponentSegment");
    assert("OnClusterClauseSegment"@.len() != "LimitClauseComponentSegment"@.len());
    reveal_strlit("LimitClauseSegment");
    assert("OnClusterClauseSegment"@.len() != "LimitClauseSegment"@.len());
    reveal_strlit("StatementSegment");
    assert("OnClusterClauseSegment"@.len() != "StatementSegment"@.len());
    reveal_strlit("SystemDistributedSegment");
    assert("OnClusterClauseSegment"@.len() != "SystemDistributedSegment"@.len());
    reveal_strlit("SystemFetchesSegment");
    assert("OnClusterClauseSegment"@.len() != "SystemFetchesSegment"@.len());
    reveal_strlit("SystemFileSegment");
    assert("OnClusterClauseSegment"@.len() != "SystemFileSegment"@.len());
    reveal_strlit("SystemModelSegment");
    assert("OnClusterClauseSegment"@.len() != "SystemModelSegment"@.len());
    reveal_strlit("SystemReplicatedSegment");
    assert("OnClusterClauseSegment"@.len() != "SystemReplicatedSegment"@.len());
    reveal_strlit("SystemReplicationSegment");
    assert("OnClusterClauseSegment"@.len() != "SystemReplicationSegment"@.len());
    reveal_strlit("SystemStatementSegment");
    assert("OnClusterClauseSegment"@[0] != "SystemStatementSegment"@[0]);
    reveal_strlit("SystemUnfreezeSegment");
    assert("OnClusterClauseSegment"@.len() != "SystemUnfreezeSegment"@.len());
}

/// After the ClickHouse grammar changes, `OnClusterClauseSegment` is what their last change of that
/// name sets, whatever dialect they start from.
pub proof fn lemma_clickhouse_changes_on_cluster_clause_segment(d: DialectView)
    ensures
        clickhouse_grammar_changes(d).element("OnClusterClauseSegment"@) == Some(on_cluster_clause_segment_element()),
{
    reveal(clickhouse_grammar_changes);
    let d0 = d;
    let d1 = clickhouse_changes_part_0(d0);
    let d2 = clickhouse_changes_part_1(d1);
    let d3 = clickhouse_changes_part_2(d2);
    let d4 = clickhouse_changes_part_3(d3);
    lemma_clickhouse_part_1_sets_on_cluster_clause_segment(d1);
    lemma_clickhouse_part_2_keeps_on_cluster_clause_segment(d2);
    lemma_clickhouse_part_3_keeps_on_cluster_clause_segment(d3);
}


/// The ClickHouse grammar changes make `OnClusterClauseSegment` an
/// `on_cluster_clause` node: `ON CLUSTER` and a cluster named by an identifier
/// or a quoted literal; whatever dialect they start from.
pub proof fn law_clickhouse_on_cluster_clause(d: DialectView)
    ensures
        ({
            let e = (ElementView::Node { kind: "on_cluster_clause"@, grammar: GrammarView::sequence(seq![GrammarView::keyword("ON"@), GrammarView::keyword("CLUSTER"@), GrammarView::one_of(seq![GrammarView::reference("SingleIdentifierGrammar"@), GrammarView::reference("QuotedLiteralSegment"@)])]) });
            &&& clickhouse_grammar_changes(d).element("OnClusterClauseSegment"@) == Some(e)
        }),
{
    lemma_clickhouse_changes_on_cluster_clause_segment(d);
}

proof fn lemma_clickhouse_part_1_sets_tuple_type_segment(d: DialectView)
    ensures
        clickhouse_changes_part_1(d).element("TupleTypeSegment"@) == Some(tuple_type_segment_element()),
{
    reveal_strlit("TupleTypeSegment");
    reveal_strlit("ArrayJoinClauseSegment");
    assert("TupleTypeSegment"@.len() != "ArrayJoinClauseSegment"@.len());
    reveal_strlit("BracketedArguments");
    assert("TupleTypeSegment"@.len() != "BracketedArguments"@.len());
    reveal_strlit("CTEDefinitionSegment");
    assert("TupleTypeSegment"@.len() != "CTEDefinitionSegment"@.len());
    reveal_strlit("DatabaseEngineFunctionSegment");
    assert("TupleTypeSegment"@.len() != "DatabaseEngineFunctionSegment"@.len());
    reveal_strlit("DatabaseEngineSegment");
    assert("TupleTypeSegment"@.len() != "DatabaseEngineSegment"@.len());
    reveal_strlit("OnClusterClauseSegment");
    assert("TupleTypeSegment"@.len() != "OnClusterClauseSegment"@.len());
    reveal_strlit("TableEngineFunctionSegment");
    assert("TupleTypeSegment"@.len() != "TableEngineFunctionSegment"@.len());
    reveal_strlit("TableEngineSegment");
    assert("TupleTypeSegment"@.len() != "TableEngineSegment"@.len());
    reveal_strlit("TupleTypeSchemaSegment");
    assert("TupleTypeSegment"@.len() != "TupleTypeSchemaSegment"@.len());
}

proof fn lemma_clickhouse_part_2_keeps_tuple_type_segment(d: DialectView)
    ensures
        clickhouse_changes_part_2(d).element("TupleTypeSegment"@) == d.element("TupleTypeSegment"@),
{
    reveal_strlit("TupleTypeSegment");
    reveal_strlit("ColumnConstraintSegment");
    assert("TupleTypeSegment"@.len() != "ColumnConstraintSegment"@.len());
    reveal_strlit("ColumnTTLSegment");
    assert("TupleTypeSegment"@[0] != "ColumnTTLSegment"@[0]);
    reveal_strlit("CreateDatabaseStatementSegment");
    assert("TupleTypeSegment"@.len() != "CreateDatabaseStatementSegment"@.len());
    reveal_strlit("CreateMaterializedViewStatementSegment");
    assert("TupleTypeSegment"@.len() != "CreateMaterializedViewStatementSegment"@.len());
    reveal_strlit("CreateTableStatementSegment");
    assert("TupleTypeSegment"@.len() != "CreateTableStatementSegment"@.len());
    reveal_strlit("DropDatabaseStatementSegment");
    assert("TupleTypeSegment"@.len() != "DropDatabaseStatementSegment"@.len());
    reveal_strlit("DropDictionaryStatementSegment");
    assert("TupleTypeSegment"@.len() != "DropDictionaryStatementSegment"@.len());
    reveal_strlit("DropFunctionStatementSegment");
    assert("TupleTypeSegment"@.len() != "DropFunctionStatementSegment"@.len());
    reveal_strlit("DropQuotaStatementSegment");
    assert("TupleTypeSegment"@.len() != "DropQuotaStatementSegment"@.len());
    reveal_strlit("DropRoleStatementSegment");
    assert("TupleTypeSegment"@.len() != "DropRoleStatementSegment"@.len());
    reveal_strlit("DropTableStatementSegment");
    assert("TupleTypeSegment"@.len() != "DropTableStatementSegment"@.len());
    reveal_strlit("DropUserStatementSegment");
    assert("TupleTypeSegment"@.len() != "DropUserStatementSegment"@.len());
    reveal_strlit("DropViewStatementSegment");
    assert("TupleTypeSegment"@.len() != "DropViewStatementSegment"@.len());
    reveal_strlit("RenameStatementSegment");
    assert("TupleTypeSegment"@.len() != "RenameStatementSegment"@.len());
    reveal_strlit("SystemFilesystemSegment");
    assert("TupleTypeSegment"@.len() != "SystemFilesystemSegment"@.len());
    reveal_strlit("SystemMergesSegment");
    assert("TupleTypeSegment"@.len() != "SystemMergesSegment"@.len());
    reveal_strlit("SystemMovesSegment");
    assert("TupleTypeSegment"@.len() != "SystemMovesSegment"@.len());
    reveal_strlit("SystemReplicaSegment");
    assert("TupleTypeSegment"@.len() != "SystemReplicaSegment"@.len());
    reveal_strlit("SystemTTLMergesSegment");
    assert("TupleTypeSegment"@.len() != "SystemTTLMergesSegment"@.len());
    reveal_strlit("TableTTLSegment");
    assert("TupleTypeSegment"@.len() != "TableTTLSegment"@.len());
}

proof fn lemma_clickhouse_part_3_keeps_tuple_type_segment(d: DialectView)
    ensures
        clickhouse_changes_part_3(d).element("TupleTypeSegment"@) == d.element("TupleTypeSegment"@),
{
    reveal_strlit("TupleTypeSegment");
    reveal_strlit("AlterTableStatementSegment");
    assert("TupleTypeSegment"@.len() != "AlterTableStatementSegment"@.len());
    reveal_strlit("ColumnDefinitionSegment");
    assert("TupleTypeSegment"@.len() != "ColumnDefinitionSegment"@.len());
    reveal_strlit("IntervalExpressionSegment");
    assert("TupleTypeSegment"@.len() != "IntervalExpressionSegment"@.len());
    reveal_strlit("LimitClauseComponentSegment");
    assert("TupleTypeSegment"@.len() != "LimitClauseComponentSegment"@.len());
    reveal_strlit("LimitClauseSegment");
    assert("TupleTypeSegment"@.len() != "LimitClauseSegment"@.len());
    reveal_strlit("StatementSegment");
    assert("TupleTypeSegment"@[0] != "StatementSegment"@[0]);
    reveal_strlit("SystemDistributedSegment");
    assert("TupleTypeSegment"@.len() != "SystemDistributedSegment"@.len());
    reveal_strlit("SystemFetchesSegment");
    assert("TupleTypeSegment"@.len() != "SystemFetchesSegment"@.len());
    reveal_strlit("SystemFileSegment");
    assert("TupleTypeSegment"@.len() != "SystemFileSegment"@.len());
    reveal_strlit("SystemModelSegment");
    assert("TupleTypeSegment"@.len() != "SystemModelSegment"@.len());
    reveal_strlit("SystemReplicatedSegment");
    assert("TupleTypeSegment"@.len() != "SystemReplicatedSegment"@.len());
    reveal_strlit("SystemReplicationSegment");
    assert("TupleTypeSegment"@.len() != "SystemReplicationSegment"@.len());
    reveal_strlit("SystemStatementSegment");
    assert("TupleTypeSegment"@.len() != "SystemStatementSegment"@.len());
    reveal_strlit("SystemUnfreezeSegment");
    assert("TupleTypeSegment"@.len() != "SystemUnfreezeSegment"@.len());
}

/// After the ClickHouse grammar changes, `TupleTypeSegment` is what their last change of that
/// name sets, whatever dialect they start from.
pub proof fn lemma_clickhouse_changes_tuple_type_segment(d: DialectView)
    ensures
        clickhouse_grammar_changes(d).element("TupleTypeSegment"@) == Some(tuple_type_segment_element()),
{
    reveal(clickhouse_grammar_changes);
    let d0 = d;
    let d1 = clickhouse_changes_part_0(d0);
    let d2 = clickhouse_changes_part_1(d1);
    let d3 = clickhouse_changes_part_2(d2);
    let d4 = clickhouse_changes_part_3(d3);
    lemma_clickhouse_part_1_sets_tuple_type_segment(d1);
    lemma_clickhouse_part_2_keeps_tuple_type_segment(d2);
    lemma_clickhouse_part_3_keeps_tuple_type_segment(d3);
}


/// The ClickHouse grammar changes make `TupleTypeSegment` the grammar `TUPLE`
/// and a tuple schema; whatever dialect they start from.
pub proof fn law_clickhouse_tuple_type(d: DialectView)
    ensures
        ({
            let e = ElementView::Grammar(GrammarView::sequence(seq![GrammarView::keyword("TUPLE"@), GrammarView::reference("TupleTypeSchemaSegment"@)]));
            &&& clickhouse_grammar_changes(d).element("TupleTypeSegment"@) == Some(e)
        }),
{
    lemma_clickhouse_changes_tuple_type_segment(d);
}

proof fn lemma_clickhouse_part_2_sets_drop_dictionary_statement_segment(d: DialectView)
    ensures
        clickhouse_changes_part_2(d).element("DropDictionaryStatementSegment"@) == Some(drop_dictionary_statement_segment_element()),
{
    reveal_strlit("DropDictionaryStatementSegment");
    reveal_strlit("DropFunctionStatementSegment");
    assert("DropDictionaryStatementSegment"@.len() != "DropFunctionStatementSegment"@.len());
    reveal_strlit("DropQuotaStatementSegment");
    assert("DropDictionaryStatementSegment"@.len() != "DropQuotaStatementSegment"@.len());
    reveal_strlit("DropRoleStatementSegment");
    assert("DropDictionaryStatementSegment"@.len() != "DropRoleStatementSegment"@.len());
    reveal_strlit("DropUserStatementSegment");
    assert("DropDictionaryStatementSegment"@.len() != "DropUserStatementSegment"@.len());
    reveal_strlit("DropViewStatementSegment");
    assert("DropDictionaryStatementSegment"@.len() != "DropViewStatementSegment"@.len());
    reveal_strlit("SystemFilesystemSegment");
    assert("DropDictionaryStatementSegment"@.len() != "SystemFilesystemSegment"@.len());
    reveal_strlit("SystemMergesSegment");
    assert("DropDictionaryStatementSegment"@.len() != "SystemMergesSegment"@.len());
    reveal_strlit("SystemMovesSegment");
    assert("DropDictionaryStatementSegment"@.len() != "SystemMovesSegment"@.len());
    reveal_strlit("SystemReplicaSegment");
    assert("DropDictionaryStatementSegment"@.len() != "SystemReplicaSegment"@.len());
    reveal_strlit("SystemTTLMergesSegment");
    assert("DropDictionaryStatementSegment"@.len() != "SystemTTLMergesSegment"@.len());
}

proof fn lemma_clickhouse_part_3_keeps_drop_dictionary_statement_segment(d: DialectView)
    ensures
        clickhouse_changes_part_3(d).element("DropDictionaryStatementSegment"@) == d.element("DropDictionaryStatementSegment"@),
{
    reveal_strlit("DropDictionaryStatementSegment");
    reveal_strlit("AlterTableStatementSegment");
    assert("DropDictionaryStatementSegment"@.len() != "AlterTableStatementSegment"@.len());
    reveal_strlit("ColumnDefinitionSegment");
    assert("DropDictionaryStatementSegment"@.len() != "ColumnDefinitionSegment"@.len());
    reveal_strlit("IntervalExpressionSegment");
    assert("DropDictionaryStatementSegment"@.len() != "IntervalExpressionSegment"@.len());
    reveal_strlit("LimitClauseComponentSegment");
    assert("DropDictionaryStatementSegment"@.len() != "LimitClauseComponentSegment"@.len());
    reveal_strlit("LimitClauseSegment");
    assert("DropDictionaryStatementSegment"@.len() != "LimitClauseSegment"@.len());
    reveal_strlit("StatementSegment");
    assert("DropDictionaryStatementSegment"@.len() != "StatementSegment"@.len());
    reveal_strlit("SystemDistributedSegment");
    assert("DropDictionaryStatementSegment"@.len() != "SystemDistributedSegment"@.len());
    reveal_strlit("SystemFetchesSegment");
    assert("DropDictionaryStatementSegment"@.len() != "SystemFetchesSegment"@.len());
    reveal_strlit("SystemFileSegment");
    assert("DropDictionaryStatementSegment"@.len() != "SystemFileSegment"@.len());
    reveal_strlit("SystemModelSegment");
    assert("DropDictionaryStatementSegment"@.len() != "SystemModelSegment"@.len());
    reveal_strlit("SystemReplicatedSegment");
    assert("DropDictionaryStatementSegment"@.len() != "SystemReplicatedSegment"@.len());
    reveal_strlit("SystemReplicationSegment");
    assert("DropDictionaryStatementSegment"@.len() != "SystemReplicationSegment"@.len());
    reveal_strlit("SystemStatementSegment");
    assert("DropDictionaryStatementSegment"@.len() != "SystemStatementSegment"@.len());
    reveal_strlit("SystemUnfreezeSegment");
    assert("DropDictionaryStatementSegment"@.len() != "SystemUnfreezeSegment"@.len());
}

/// After the ClickHouse grammar changes, `DropDictionaryStatementSegment` is what their last change of that
/// name sets, whatever dialect they start from.
pub proof fn lemma_clickhouse_changes_drop_dictionary_statement_segment(d: DialectView)
    ensures
        clickhouse_grammar_changes(d).element("DropDictionaryStatementSegment"@) == Some(drop_dictionary_statement_segment_element()),
{
    reveal(clickhouse_grammar_changes);
    let d0 = d;
    let d1 = clickhouse_changes_part_0(d0);
    let d2 = clickhouse_changes_part_1(d1);
    let d3 = clickhouse_changes_part_2(d2);
    let d4 = clickhouse_changes_part_3(d3);
    lemma_clickhouse_part_2_sets_drop_dictionary_statement_segment(d2);
    lemma_clickhouse_part_3_keeps_drop_dictionary_statement_segment(d3);
}


/// The ClickHouse grammar changes make `DropDictionaryStatementSegment` a
/// `drop_dictionary_statement` node: `DROP DICTIONARY`, an optional
/// `IF EXISTS`, an identifier, then an optional `SYNC`; whatever dialect they start from.
pub proof fn law_clickhouse_drop_dictionary_statement(d: DialectView)
    ensures
        ({
            let e = (ElementView::Node { kind: "drop_dictionary_statement"@, grammar: GrammarView::sequence(seq![GrammarView::keyword("DROP"@), GrammarView::keyword("DICTIONARY"@), GrammarView::optional_reference("IfExistsGrammar"@), GrammarView::reference("SingleIdentifierGrammar"@), (GrammarView::Optional { grammar: Box::new(GrammarView::keyword("SYNC"@)) })]) });
            &&& clickhouse_grammar_changes(d).element("DropDictionaryStatementSegment"@) == Some(e)
        }),
{
    lemma_clickhouse_changes_drop_dictionary_statement_segment(d);
}

proof fn lemma_clickhouse_part_1_sets_qualify_clause_segment(d: DialectView)
    ensures
        clickhouse_changes_part_1(d).element("QualifyClauseSegment"@) == Some(qualify_clause_segment_element()),
{
    reveal_strlit("QualifyClauseSegment");
    reveal_strlit("ArrayJoinClauseSegment");
    assert("QualifyClauseSegment"@.len() != "ArrayJoinClauseSegment"@.len());
    reveal_strlit("BracketedArguments");
    assert("QualifyClauseSegment"@.len() != "BracketedArguments"@.len());
    reveal_strlit("CTEDefinitionSegment");
    assert("QualifyClauseSegment"@[0] != "CTEDefinitionSegment"@[0]);
    reveal_strlit("DatabaseEngineFunctionSegment");
    assert("QualifyClauseSegment"@.len() != "DatabaseEngineFunctionSegment"@.len());
    reveal_strlit("DatabaseEngineSegment");
    assert("QualifyClauseSegment"@.len() != "DatabaseEngineSegment"@.len());
    reveal_strlit("DatatypeSegment");
    assert("QualifyClauseSegment"@.len() != "DatatypeSegment"@.len());
    reveal_strlit("OnClusterClauseSegment");
    assert("QualifyClauseSegment"@.len() != "OnClusterClauseSegment"@.len());
    reveal_strlit("TableEngineFunctionSegment");
    assert("QualifyClauseSegment"@.len() != "TableEngineFunctionSegment"@.len());
    reveal_strlit("TableEngineSegment");
    assert("QualifyClauseSegment"@.len() != "TableEngineSegment"@.len());
    reveal_strlit("TupleTypeSchemaSegment");
    assert("QualifyClauseSegment"@.len() != "TupleTypeSchemaSegment"@.len());
    reveal_strlit("TupleTypeSegment");
    assert("QualifyClauseSegment"@.len() != "TupleTypeSegment"@.len());
    reveal_strlit("UnorderedSelectStatementSegment");
    assert("QualifyClauseSegment"@.len() != "UnorderedSelectStatementSegment"@.len());
    reveal_strlit("WithFillSegment");
    assert("QualifyClauseSegment"@.len() != "WithFillSegment"@.len());
}

proof fn lemma_clickhouse_part_2_keeps_qualify_clause_segment(d: DialectView)
    ensures
        clickhouse_changes_part_2(d).element("QualifyClauseSegment"@) == d.element("QualifyClauseSegment"@),
{
    reveal_strlit("QualifyClauseSegment");
    reveal_strlit("ColumnConstraintSegment");
    assert("QualifyClauseSegment"@.len() != "ColumnConstraintSegment"@.len());
    reveal_strlit("ColumnTTLSegment");
    assert("QualifyClauseSegment"@.len() != "ColumnTTLSegment"@.len());
    reveal_strlit("CreateDatabaseStatementSegment");
    assert("QualifyClauseSegment"@.len() != "CreateDatabaseStatementSegment"@.len());
    reveal_strlit("CreateMaterializedViewStatementSegment");
    assert("QualifyClauseSegment"@.len() != "CreateMaterializedViewStatementSegment"@.len());
    reveal_strlit("CreateTableStatementSegment");
    assert("QualifyClauseSegment"@.len() != "CreateTableStatementSegment"@.len());
    reveal_strlit("DropDatabaseStatementSegment");
    assert("QualifyClauseSegment"@.len() != "DropDatabaseStatementSegment"@.len());
    reveal_strlit("DropDictionaryStatementSegment");
    assert("QualifyClauseSegment"@.len() != "DropDictionaryStatementSegment"@.len());
    reveal_strlit("DropFunctionStatementSegment");
    assert("QualifyClauseSegment"@.len() != "DropFunctionStatementSegment"@.len());
    reveal_strlit("DropQuotaStatementSegment");
    assert("QualifyClauseSegment"@.len() != "DropQuotaStatementSegment"@.len());
    reveal_strlit("DropRoleStatementSegment");
    assert("QualifyClauseSegment"@.len() != "DropRoleStatementSegment"@.len());
    reveal_strlit("DropTableStatementSegment");
    assert("QualifyClauseSegment"@.len() != "DropTableStatementSegment"@.len());
    reveal_strlit("DropUserStatementSegment");
    assert("QualifyClauseSegment"@.len() != "DropUserStatementSegment"@.len());
    reveal_strlit("DropViewStatementSegment");
    assert("QualifyClauseSegment"@.len() != "DropViewStatementSegment"@.len());
    reveal_strlit("RenameStatementSegment");
    assert("QualifyClauseSegment"@.len() != "RenameStatementSegment"@.len());
    reveal_strlit("SystemFilesystemSegment");
    assert("QualifyClauseSegment"@.len() != "SystemFilesystemSegment"@.len());
    reveal_strlit("SystemMergesSegment");
    assert("QualifyClauseSegment"@.len() != "SystemMergesSegment"@.len());
    reveal_strlit("SystemMovesSegment");
    assert("QualifyClauseSegment"@.len() != "SystemMovesSegment"@.len());
    reveal_strlit("SystemReplicaSegment");
    assert("QualifyClauseSegment"@[0] != "SystemReplicaSegment"@[0]);
    reveal_strlit("SystemTTLMergesSegment");
    assert("QualifyClauseSegment"@.len() != "SystemTTLMergesSegment"@.len());
    reveal_strlit("TableTTLSegment");
    assert("QualifyClauseSegment"@.len() != "TableTTLSegment"@.len());
}

proof fn lemma_clickhouse_part_3_keeps_qualify_clause_segment(d: DialectView)
    ensures
        clickhouse_changes_part_3(d).element("QualifyClauseSegment"@) == d.element("QualifyClauseSegment"@),
{
    reveal_strlit("QualifyClauseSegment");
    reveal_strlit("AlterTableStatementSegment");
    assert("QualifyClauseSegment"@.len() != "AlterTableStatementSegment"@.len());
    reveal_strlit("ColumnDefinitionSegment");
    assert("QualifyClauseSegment"@.len() != "ColumnDefinitionSegment"@.len());
    reveal_strlit("IntervalExpressionSegment");
    assert("QualifyClauseSegment"@.len() != "IntervalExpressionSegment"@.len());
    reveal_strlit("LimitClauseComponentSegment");
    assert("QualifyClauseSegment"@.len() != "LimitClauseComponentSegment"@.len());
    reveal_strlit("LimitClauseSegment");
    assert("QualifyClauseSegment"@.len() != "LimitClauseSegment"@.len());
    reveal_strlit("StatementSegment");
    assert("QualifyClauseSegment"@.len() != "StatementSegment"@.len());
    reveal_strlit("SystemDistributedSegment");
    assert("QualifyClauseSegment"@.len() != "SystemDistributedSegment"@.len());
    reveal_strlit("SystemFetchesSegment");
    assert("QualifyClauseSegment"@[0] != "SystemFetchesSegment"@[0]);
    reveal_strlit("SystemFileSegment");
    assert("QualifyClauseSegment"@.len() != "SystemFileSegment"@.len());
    reveal_strlit("SystemModelSegment");
    assert("QualifyClauseSegment"@.len() != "SystemModelSegment"@.len());
    reveal_strlit("SystemReplicatedSegment");
    assert("QualifyClauseSegment"@.len() != "SystemReplicatedSegment"@.len());
    reveal_strlit("SystemReplicationSegment");
    assert("QualifyClauseSegment"@.len() != "SystemReplicationSegment"@.len());
    reveal_strlit("SystemStatementSegment");
    assert("QualifyClauseSegment"@.len() != "SystemStatementSegment"@.len());
    reveal_strlit("SystemUnfreezeSegment");
    assert("QualifyClauseSegment"@.len() != "SystemUnfreezeSegment"@.len());
}

/// After the ClickHouse grammar changes, `QualifyClauseSegment` is what their last change of that
/// name sets, whatever dialect they start from.
pub proof fn lemma_clickhouse_changes_qualify_clause_segment(d: DialectView)
    ensures
        clickhouse_grammar_changes(d).element("QualifyClauseSegment"@) == Some(qualify_clause_segment_element()),
{
    reveal(clickhouse_grammar_changes);
    let d0 = d;
    let d1 = clickhouse_changes_part_0(d0);
    let d2 = clickhouse_changes_part_1(d1);
    let d3 = clickhouse_changes_part_2(d2);
    let d4 = clickhouse_changes_part_3(d3);
    lemma_clickhouse_part_1_sets_qualify_clause_segment(d1);
    lemma_clickhouse_part_2_keeps_qualify_clause_segment(d2);
    lemma_clickhouse_part_3_keeps_qualify_clause_segment(d3);
}


/// The ClickHouse grammar changes make `QualifyClauseSegment` a `qualify_clause`
/// node: `QUALIFY`, an implicit indent, an expression in round brackets or a
/// bare one, then a dedent; whatever dialect they start from.
pub proof fn law_clickhouse_qualify_clause(d: DialectView)
    ensures
        ({
            let e = (ElementView::Node { kind: "qualify_clause"@, grammar: GrammarView::sequence(seq![GrammarView::keyword("QUALIFY"@), GrammarView::ImplicitIndent, GrammarView::one_of(seq![(GrammarView::Bracketed { elements: seq![GrammarView::reference("ExpressionSegment"@)], bracket_type: "round"@ }), GrammarView::reference("ExpressionSegment"@)]), GrammarView::Dedent]) });
            &&& clickhouse_grammar_changes(d).element("QualifyClauseSegment"@) == Some(e)
        }),
{
    lemma_clickhouse_changes_qualify_clause_segment(d);
}

proof fn lemma_clickhouse_part_3_sets_system_file_segment(d: DialectView)
    ensures
        clickhouse_changes_part_3(d).element("SystemFileSegment"@) == Some(system_file_segment_element()),
{
    reveal_strlit("SystemFileSegment");
    reveal_strlit("AlterTableStatementSegment");
    assert("SystemFileSegment"@.len() != "AlterTableStatementSegment"@.len());
    reveal_strlit("ColumnDefinitionSegment");
    assert("SystemFileSegment"@.len() != "ColumnDefinitionSegment"@.len());
    reveal_strlit("IntervalExpressionSegment");
    assert("SystemFileSegment"@.len() != "IntervalExpressionSegment"@.len());
    reveal_strlit("LimitClauseComponentSegment");
    assert("SystemFileSegment"@.len() != "LimitClauseComponentSegment"@.len());
    reveal_strlit("LimitClauseSegment");
    assert("SystemFileSegment"@.len() != "LimitClauseSegment"@.len());
    reveal_strlit("StatementSegment");
    assert("SystemFileSegment"@.len() != "StatementSegment"@.len());
    reveal_strlit("SystemStatementSegment");
    assert("SystemFileSegment"@.len() != "SystemStatementSegment"@.len());
    reveal_strlit("SystemUnfreezeSegment");
    assert("SystemFileSegment"@.len() != "SystemUnfreezeSegment"@.len());
}

/// After the ClickHouse grammar changes, `SystemFileSegment` is what their last change of that
/// name sets, whatever dialect they start from.
pub proof fn lemma_clickhouse_changes_system_file_segment(d: DialectView)
    ensures
        clickhouse_grammar_changes(d).element("SystemFileSegment"@) == Some(system_file_segment_element()),
{
    reveal(clickhouse_grammar_changes);
    let d0 = d;
    let d1 = clickhouse_changes_part_0(d0);
    let d2 = clickhouse_changes_part_1(d1);
    let d3 = clickhouse_changes_part_2(d2);
    let d4 = clickhouse_changes_part_3(d3);
    lemma_clickhouse_part_3_sets_system_file_segment(d3);
}


/// The ClickHouse grammar changes make `SystemFileSegment` a
/// `system_file_segment` node: `SYNC FILE CACHE`; whatever dialect they start from.
pub proof fn law_clickhouse_system_file(d: DialectView)
    ensures
        ({
            let e = (ElementView::Node { kind: "system_file_segment"@, grammar: GrammarView::sequence(seq![GrammarView::keyword("SYNC"@), GrammarView::keyword("FILE"@), GrammarView::keyword("CACHE"@)]) });
            &&& clickhouse_grammar_changes(d).element("SystemFileSegment"@) == Some(e)
        }),
{
    lemma_clickhouse_changes_system_file_segment(d);
}

proof fn lemma_clickhouse_part_2_sets_column_t_t_l_segment(d: DialectView)
    ensures
        clickhouse_changes_part_2(d).element("ColumnTTLSegment"@) == Some(column_t_t_l_segment_element()),
{
    reveal_strlit("ColumnTTLSegment");
    reveal_strlit("ColumnConstraintSegment");
    assert("ColumnTTLSegment"@.len() != "ColumnConstraintSegment"@.len());
    reveal_strlit("CreateDatabaseStatementSegment");
    assert("ColumnTTLSegment"@.len() != "CreateDatabaseStatementSegment"@.len());
    reveal_strlit("CreateMaterializedViewStatementSegment");
    assert("ColumnTTLSegment"@.len() != "CreateMaterializedViewStatementSegment"@.len());
    reveal_strlit("CreateTableStatementSegment");
    assert("ColumnTTLSegment"@.len() != "CreateTableStatementSegment"@.len());
    reveal_strlit("DropDatabaseStatementSegment");
    assert("ColumnTTLSegment"@.len() != "DropDatabaseStatementSegment"@.len());
    reveal_strlit("DropDictionaryStatementSegment");
    assert("ColumnTTLSegment"@.len() != "DropDictionaryStatementSegment"@.len());
    reveal_strlit("DropFunctionStatementSegment");
    assert("ColumnTTLSegment"@.len() != "DropFunctionStatementSegment"@.len());
    reveal_strlit("DropQuotaStatementSegment");
    assert("ColumnTTLSegment"@.len() != "DropQuotaStatementSegment"@.len());
    reveal_strlit("DropRoleStatementSegment");
    assert("ColumnTTLSegment"@.len() != "DropRoleStatementSegment"@.len());
    reveal_strlit("DropTableStatementSegment");
    assert("ColumnTTLSegment"@.len() != "DropTableStatementSegment"@.len());
    reveal_strlit("DropUserStatementSegment");
    assert("ColumnTTLSegment"@.len() != "DropUserStatementSegment"@.len());
    reveal_strlit("DropViewStatementSegment");
    assert("ColumnTTLSegment"@.len() != "DropViewStatementSegment"@.len());
    reveal_strlit("RenameStatementSegment");
    assert("ColumnTTLSegment"@.len() != "RenameStatementSegment"@.len());
    reveal_strlit("SystemFilesystemSegment");
    assert("ColumnTTLSegment"@.len() != "SystemFilesystemSegment"@.len());
    reveal_strlit("SystemMergesSegment");
    assert("ColumnTTLSegment"@.len() != "SystemMergesSegment"@.len());
    reveal_strlit("SystemMovesSegment");
    assert("ColumnTTLSegment"@.len() != "SystemMovesSegment"@.len());
    reveal_strlit("SystemReplicaSegment");
    assert("ColumnTTLSegment"@.len() != "SystemReplicaSegment"@.len());
    reveal_strlit("SystemTTLMergesSegment");
    assert("ColumnTTLSegment"@.len() != "SystemTTLMergesSegment"@.len());
    reveal_strlit("TableTTLSegment");
    assert("ColumnTTLSegment"@.len() != "TableTTLSegment"@.len());
}

proof fn lemma_clickhouse_part_3_keeps_column_t_t_l_segment(d: DialectView)
    ensures
        clickhouse_changes_part_3(d).element("ColumnTTLSegment"@) == d.element("ColumnTTLSegment"@),
{
    reveal_strlit("ColumnTTLSegment");
    reveal_strlit("AlterTableStatementSegment");
    assert("ColumnTTLSegment"@.len() != "AlterTableStatementSegment"@.len());
    reveal_strlit("ColumnDefinitionSegment");
    assert("ColumnTTLSegment"@.len() != "ColumnDefinitionSegment"@.len());
    reveal_strlit("IntervalExpressionSegment");
    assert("ColumnTTLSegment"@.len() != "IntervalExpressionSegment"@.len());
    reveal_strlit("LimitClauseComponentSegment");
    assert("ColumnTTLSegment"@.len() != "LimitClauseComponentSegment"@.len());
    reveal_strlit("LimitClauseSegment");
    assert("ColumnTTLSegment"@.len() != "LimitClauseSegment"@.len());
    reveal_strlit("StatementSegment");
    assert("ColumnTTLSegment"@[0] != "StatementSegment"@[0]);
    reveal_strlit("SystemDistributedSegment");
    assert("ColumnTTLSegment"@.len() != "SystemDistributedSegment"@.len());
    reveal_strlit("SystemFetchesSegment");
    assert("ColumnTTLSegment"@.len() != "SystemFetchesSegment"@.len());
    reveal_strlit("SystemFileSegment");
    assert("ColumnTTLSegment"@.len() != "SystemFileSegment"@.len());
    reveal_strlit("SystemModelSegment");
    assert("ColumnTTLSegment"@.len() != "SystemModelSegment"@.len());
    reveal_strlit("SystemReplicatedSegment");
    assert("ColumnTTLSegment"@.len() != "SystemReplicatedSegment"@.len());
    reveal_strlit("SystemReplicationSegment");
    assert("ColumnTTLSegment"@.len() != "SystemReplicationSegment"@.len());
    reveal_strlit("SystemStatementSegment");
    assert("ColumnTTLSegment"@.len() != "SystemStatementSegment"@.len());
    reveal_strlit("SystemUnfreezeSegment");
    assert("ColumnTTLSegment"@.len() != "SystemUnfreezeSegment"@.len());
}

/// After the ClickHouse grammar changes, `ColumnTTLSegment` is what their last change of that
/// name sets, whatever dialect they start from.
pub proof fn lemma_clickhouse_changes_column_t_t_l_segment(d: DialectView)
    ensures
        clickhouse_grammar_changes(d).element("ColumnTTLSegment"@) == Some(column_t_t_l_segment_element()),
{
    reveal(clickhouse_grammar_changes);
    let d0 = d;
    let d1 = clickhouse_changes_part_0(d0);
    let d2 = clickhouse_changes_part_1(d1);
    let d3 = clickhouse_changes_part_2(d2);
    let d4 = clickhouse_changes_part_3(d3);
    lemma_clickhouse_part_2_sets_column_t_t_l_segment(d2);
    lemma_clickhouse_part_3_keeps_column_t_t_l_segment(d3);
}


/// The ClickHouse grammar changes make `ColumnTTLSegment` a `column_ttl_segment`
/// node: `TTL` and an expression; whatever dialect they start from.
pub proof fn law_clickhouse_column_t_t_l(d: DialectView)
    ensures
        ({
            let e = (ElementView::Node { kind: "column_ttl_segment"@, grammar: GrammarView::sequence(seq![GrammarView::keyword("TTL"@), GrammarView::reference("ExpressionSegment"@)]) });
            &&& clickhouse_grammar_changes(d).element("ColumnTTLSegment"@) == Some(e)
        }),
{
    lemma_clickhouse_changes_column_t_t_l_segment(d);
}

proof fn lemma_clickhouse_part_0_sets_select_clause_modifier_segment(d: DialectView)
    ensures
        has_grammar(clickhouse_changes_part_0(d).element("SelectClauseModifierSegment"@), select_clause_modifier_segment_grammar()),
{
    reveal_strlit("SelectClauseModifierSegment");
    reveal_strlit("BackQuotedIdentifierSegment");
    assert("SelectClauseModifierSegment"@[0] != "BackQuotedIdentifierSegment"@[0]);
    reveal_strlit("ExceptClauseSegment");
    assert("SelectClauseModifierSegment"@.len() != "ExceptClauseSegment"@.len());
    reveal_strlit("FormatClauseSegment");
    assert("SelectClauseModifierSegment"@.len() != "FormatClauseSegment"@.len());
    reveal_strlit("FormatValueSegment");
    assert("SelectClauseModifierSegment"@.len() != "FormatValueSegment"@.len());
    reveal_strlit("IntoOutfileClauseSegment");
    assert("SelectClauseModifierSegment"@.len() != "IntoOutfileClauseSegment"@.len());
    reveal_strlit("MergeTreesOrderByClauseSegment");
    assert("SelectClauseModifierSegment"@.len() != "MergeTreesOrderByClauseSegment"@.len());
    reveal_strlit("NakedIdentifierSegment");
    assert("SelectClauseModifierSegment"@.len() != "NakedIdentifierSegment"@.len());
    reveal_strlit("OrderByClauseSegment");
    assert("SelectClauseModifierSegment"@.len() != "OrderByClauseSegment"@.len());
    reveal_strlit("QuotedLiteralSegment");
    assert("SelectClauseModifierSegment"@.len() != "QuotedLiteralSegment"@.len());
    reveal_strlit("SettingsClauseSegment");
    assert("SelectClauseModifierSegment"@.len() != "SettingsClauseSegment"@.len());
    reveal_strlit("SingleIdentifierGrammar");
    assert("SelectClauseModifierSegment"@.len() != "SingleIdentifierGrammar"@.len());
    reveal_strlit("TupleSegment");
    assert("SelectClauseModifierSegment"@.len() != "TupleSegment"@.len());
    reveal_strlit("WildcardExpressionSegment");
    assert("SelectClauseModifierSegment"@.len() != "WildcardExpressionSegment"@.len());
}

proof fn lemma_clickhouse_part_1_keeps_select_clause_modifier_segment(d: DialectView)
    ensures
        clickhouse_changes_part_1(d).element("SelectClauseModifierSegment"@) == d.element("SelectClauseModifierSegment"@),
{
    reveal_strlit("SelectClauseModifierSegment");
    reveal_strlit("ArrayJoinClauseSegment");
    assert("SelectClauseModifierSegment"@.len() != "ArrayJoinClauseSegment"@.len());
    reveal_strlit("BinaryOperatorGrammar");
    assert("SelectClauseModifierSegment"@.len() != "BinaryOperatorGrammar"@.len());
    reveal_strlit("BracketedArguments");
    assert("SelectClauseModifierSegment"@.len() != "BracketedArguments"@.len());
    reveal_strlit("CTEDefinitionSegment");
    assert("SelectClauseModifierSegment"@.len() != "CTEDefinitionSegment"@.len());
    reveal_strlit("DatabaseEngineFunctionSegment");
    assert("SelectClauseModifierSegment"@.len() != "DatabaseEngineFunctionSegment"@.len());
    reveal_strlit("DatabaseEngineSegment");
    assert("SelectClauseModifierSegment"@.len() != "DatabaseEngineSegment"@.len());
    reveal_strlit("DatatypeSegment");
    assert("SelectClauseModifierSegment"@.len() != "DatatypeSegment"@.len());
    reveal_strlit("InOperatorGrammar");
    assert("SelectClauseModifierSegment"@.len() != "InOperatorGrammar"@.len());
    reveal_strlit("JoinLikeClauseGrammar");
    assert("SelectClauseModifierSegment"@.len() != "JoinLikeClauseGrammar"@.len());
    reveal_strlit("JoinTypeKeywords");
    assert("SelectClauseModifierSegment"@.len() != "JoinTypeKeywords"@.len());
    reveal_strlit("LambdaFunctionSegment");
    assert("SelectClauseModifierSegment"@.len() != "LambdaFunctionSegment"@.len());
    reveal_strlit("OnClusterClauseSegment");
    assert("SelectClauseModifierSegment"@.len() != "OnClusterClauseSegment"@.len());
    reveal_strlit("PreWhereClauseSegment");
    assert("SelectClauseModifierSegment"@.len() != "PreWhereClauseSegment"@.len());
    reveal_strlit("QualifyClauseSegment");
    assert("SelectClauseModifierSegment"@.len() != "QualifyClauseSegment"@.len());
    reveal_strlit("TableEngineFunctionSegment");
    assert("SelectClauseModifierSegment"@.len() != "TableEngineFunctionSegment"@.len());
    reveal_strlit("TableEngineSegment");
    assert("SelectClauseModifierSegment"@.len() != "TableEngineSegment"@.len());
    reveal_strlit("TupleTypeSchemaSegment");
    assert("SelectClauseModifierSegment"@.len() != "TupleTypeSchemaSegment"@.len());
    reveal_strlit("TupleTypeSegment");
    assert("SelectClauseModifierSegment"@.len() != "TupleTypeSegment"@.len());
    reveal_strlit("UnorderedSelectStatementSegment");
    assert("SelectClauseModifierSegment"@.len() != "UnorderedSelectStatementSegment"@.len());
    reveal_strlit("WithFillSegment");
    assert("SelectClauseModifierSegment"@.len() != "WithFillSegment"@.len());
}

proof fn lemma_clickhouse_part_2_keeps_select_clause_modifier_segment(d: DialectView)
    ensures
        clickhouse_changes_part_2(d).element("SelectClauseModifierSegment"@) == d.element("SelectClauseModifierSegment"@),
{
    reveal_strlit("SelectClauseModifierSegment");
    reveal_strlit("ColumnConstraintSegment");
    assert("SelectClauseModifierSegment"@.len() != "ColumnConstraintSegment"@.len());
    reveal_strlit("ColumnTTLSegment");
    assert("SelectClauseModifierSegment"@.len() != "ColumnTTLSegment"@.len());
    reveal_strlit("CreateDatabaseStatementSegment");
    assert("SelectClauseModifierSegment"@.len() != "CreateDatabaseStatementSegment"@.len());
    reveal_strlit("CreateMaterializedViewStatementSegment");
    assert("SelectClauseModifierSegment"@.len() != "CreateMaterializedViewStatementSegment"@.len());
    reveal_strlit("CreateTableStatementSegment");
    assert("SelectClauseModifierSegment"@[0] != "CreateTableStatementSegment"@[0]);
    reveal_strlit("DropDatabaseStatementSegment");
    assert("SelectClauseModifierSegment"@.len() != "DropDatabaseStatementSegment"@.len());
    reveal_strlit("DropDictionaryStatementSegment");
    assert("SelectClauseModifierSegment"@.len() != "DropDictionaryStatementSegment"@.len());
    reveal_strlit("DropFunctionStatementSegment");
    assert("SelectClauseModifierSegment"@.len() != "DropFunctionStatementSegment"@.len());
    reveal_strlit("DropQuotaStatementSegment");
    assert("SelectClauseModifierSegment"@.len() != "DropQuotaStatementSegment"@.len());
    reveal_strlit("DropRoleStatementSegment");
    assert("SelectClauseModifierSegment"@.len() != "DropRoleStatementSegment"@.len());
    reveal_strlit("DropTableStatementSegment");
    assert("SelectClauseModifierSegment"@.len() != "DropTableStatementSegment"@.len());
    reveal_strlit("DropUserStatementSegment");
    assert("SelectClauseModifierSegment"@.len() != "DropUserStatementSegment"@.len());
    reveal_strlit("DropViewStatementSegment");
    assert("SelectClauseModifierSegment"@.len() != "DropViewStatementSegment"@.len());
    reveal_strlit("RenameStatementSegment");
    assert("SelectClauseModifierSegment"@.len() != "RenameStatementSegment"@.len());
    reveal_strlit("SystemFilesystemSegment");
    assert("SelectClauseModifierSegment"@.len() != "SystemFilesystemSegment"@.len());
    reveal_strlit("SystemMergesSegment");
    assert("SelectClauseModifierSegment"@.len() != "SystemMergesSegment"@.len());
    reveal_strlit("SystemMovesSegment");
    assert("SelectClauseModifierSegment"@.len() != "SystemMovesSegment"@.len());
    reveal_strlit("SystemReplicaSegment");
    assert("SelectClauseModifierSegment"@.len() != "SystemReplicaSegment"@.len());
    reveal_strlit("SystemTTLMergesSegment");
    assert("SelectClauseModifierSegment"@.len() != "SystemTTLMergesSegment"@.len());
    reveal_strlit("TableTTLSegment");
    assert("SelectClauseModifierSegment"@.len() != "TableTTLSegment"@.len());
}

proof fn lemma_clickhouse_part_3_keeps_select_clause_modifier_segment(d: DialectView)
    ensures
        clickhouse_changes_part_3(d).element("SelectClauseModifierSegment"@) == d.element("SelectClauseModifierSegment"@),
{
    reveal_strlit("SelectClauseModifierSegment");
    reveal_strlit("AlterTableStatementSegment");
    assert("SelectClauseModifierSegment"@.len() != "AlterTableStatementSegment"@.len());
    reveal_strlit("ColumnDefinitionSegment");
    assert("SelectClauseModifierSegment"@.len() != "ColumnDefinitionSegment"@.len());
    reveal_strlit("IntervalExpressionSegment");
    assert("SelectClauseModifierSegment"@.len() != "IntervalExpressionSegment"@.len());
    reveal_strlit("LimitClauseComponentSegment");
    assert("SelectClauseModifierSegment"@[0] != "LimitClauseComponentSegment"@[0]);
    reveal_strlit("LimitClauseSegment");
    assert("SelectClauseModifierSegment"@.len() != "LimitClauseSegment"@.len());
    reveal_strlit("StatementSegment");
    assert("SelectClauseModifierSegment"@.len() != "StatementSegment"@.len());
    reveal_strlit("SystemDistributedSegment");
    assert("SelectClauseModifierSegment"@.len() != "SystemDistributedSegment"@.len());
    reveal_strlit("SystemFetchesSegment");
    assert("SelectClauseModifierSegment"@.len() != "SystemFetchesSegment"@.len());
    reveal_strlit("SystemFileSegment");
    assert("SelectClauseModifierSegment"@.len() != "SystemFileSegment"@.len());
    reveal_strlit("SystemModelSegment");
    assert("SelectClauseModifierSegment"@.len() != "SystemModelSegment"@.len());
    reveal_strlit("SystemReplicatedSegment");
    assert("SelectClauseModifierSegment"@.len() != "SystemReplicatedSegment"@.len());
    reveal_strlit("SystemReplicationSegment");
    assert("SelectClauseModifierSegment"@.len() != "SystemReplicationSegment"@.len());
    reveal_strlit("SystemStatementSegment");
    assert("SelectClauseModifierSegment"@.len() != "SystemStatementSegment"@.len());
    reveal_strlit("SystemUnfreezeSegment");
    assert("SelectClauseModifierSegment"@.len() != "SystemUnfreezeSegment"@.len());
}

/// After the ClickHouse grammar changes, `SelectClauseModifierSegment` has the grammar that their last
/// change of that name gives it, whatever dialect they start from.
pub proof fn lemma_clickhouse_changes_select_clause_modifier_segment(d: DialectView)
    ensures
        has_grammar(clickhouse_grammar_changes(d).element("SelectClauseModifierSegment"@), select_clause_modifier_segment_grammar()),
{
    reveal(clickhouse_grammar_changes);
    let d0 = d;
    let d1 = clickhouse_changes_part_0(d0);
    let d2 = clickhouse_changes_part_1(d1);
    let d3 = clickhouse_changes_part_2(d2);
    let d4 = clickhouse_changes_part_3(d3);
    lemma_clickhouse_part_0_sets_select_clause_modifier_segment(d0);
    lemma_clickhouse_part_1_keeps_select_clause_modifier_segment(d1);
    lemma_clickhouse_part_2_keeps_select_clause_modifier_segment(d2);
    lemma_clickhouse_part_3_keeps_select_clause_modifier_segment(d3);
}


/// The ClickHouse grammar changes give `SelectClauseModifierSegment` the
/// grammar: `DISTINCT` with an optional `ON` and a bracketed list of
/// expressions, or `ALL`; whatever dialect they start from (a node keeps its kind).
pub proof fn law_clickhouse_select_clause_modifier(d: DialectView)
    ensures
        ({
            let g = GrammarView::one_of(seq![GrammarView::sequence(seq![GrammarView::keyword("DISTINCT"@), (GrammarView::Optional { grammar: Box::new(GrammarView::sequence(seq![GrammarView::keyword("ON"@), (GrammarView::Bracketed { elements: seq![GrammarView::delimited(seq![GrammarView::reference("ExpressionSegment"@)])], bracket_type: "round"@ })])) })]), GrammarView::keyword("ALL"@)]);
            has_grammar(clickhouse_grammar_changes(d).element("SelectClauseModifierSegment"@), g)
        }),
{
    lemma_clickhouse_changes_select_clause_modifier_segment(d);
}

proof fn lemma_clickhouse_part_2_sets_drop_table_statement_segment(d: DialectView)
    ensures
        has_grammar(clickhouse_changes_part_2(d).element("DropTableStatementSegment"@), drop_table_statement_segment_grammar()),
{
    reveal_strlit("DropTableStatementSegment");
    reveal_strlit("DropDatabaseStatementSegment");
    assert("DropTableStatementSegment"@.len() != "DropDatabaseStatementSegment"@.len());
    reveal_strlit("DropDictionaryStatementSegment");
    assert("DropTableStatementSegment"@.len() != "DropDictionaryStatementSegment"@.len());
    reveal_strlit("DropFunctionStatementSegment");
    assert("DropTableStatementSegment"@.len() != "DropFunctionStatementSegment"@.len());
    reveal_strlit("DropQuotaStatementSegment");
    assert("DropTableStatementSegment"@[4] != "DropQuotaStatementSegment"@[4]);
    reveal_strlit("DropRoleStatementSegment");
    assert("DropTableStatementSegment"@.len() != "DropRoleStatementSegment"@.len());
    reveal_strlit("DropUserStatementSegment");
    assert("DropTableStatementSegment"@.len() != "DropUserStatementSegment"@.len());
    reveal_strlit("DropViewStatementSegment");
    assert("DropTableStatementSegment"@.len() != "DropViewStatementSegment"@.len());
    reveal_strlit("SystemFilesystemSegment");
    assert("DropTableStatementSegment"@.len() != "SystemFilesystemSegment"@.len());
    reveal_strlit("SystemMergesSegment");
    assert("DropTableStatementSegment"@.len() != "SystemMergesSegment"@.len());
    reveal_strlit("SystemMovesSegment");
    assert("DropTableStatementSegment"@.len() != "SystemMovesSegment"@.len());
    reveal_strlit("SystemReplicaSegment");
    assert("DropTableStatementSegment"@.len() != "SystemReplicaSegment"@.len());
    reveal_strlit("SystemTTLMergesSegment");
    assert("DropTableStatementSegment"@.len() != "SystemTTLMergesSegment"@.len());
}

proof fn lemma_clickhouse_part_3_keeps_drop_table_statement_segment(d: DialectView)
    ensures
        clickhouse_changes_part_3(d).element("DropTableStatementSegment"@) == d.element("DropTableStatementSegment"@),
{
    reveal_strlit("DropTableStatementSegment");
    reveal_strlit("AlterTableStatementSegment");
    assert("DropTableStatementSegment"@.len() != "AlterTableStatementSegment"@.len());
    reveal_strlit("ColumnDefinitionSegment");
    assert("DropTableStatementSegment"@.len() != "ColumnDefinitionSegment"@.len());
    reveal_strlit("IntervalExpressionSegment");
    assert("DropTableStatementSegment"@[0] != "IntervalExpressionSegment"@[0]);
    reveal_strlit("LimitClauseComponentSegment");
    assert("DropTableStatementSegment"@.len() != "LimitClauseComponentSegment"@.len());
    reveal_strlit("LimitClauseSegment");
    assert("DropTableStatementSegment"@.len() != "LimitClauseSegment"@.len());
    reveal_strlit("StatementSegment");
    assert("DropTableStatementSegment"@.len() != "StatementSegment"@.len());
    reveal_strlit("SystemDistributedSegment");
    assert("DropTableStatementSegment"@.len() != "SystemDistributedSegment"@.len());
    reveal_strlit("SystemFetchesSegment");
    assert("DropTableStatementSegment"@.len() != "SystemFetchesSegment"@.len());
    reveal_strlit("SystemFileSegment");
    assert("DropTableStatementSegment"@.len() != "SystemFileSegment"@.len());
    reveal_strlit("SystemModelSegment");
    assert("DropTableStatementSegment"@.len() != "SystemModelSegment"@.len());
    reveal_strlit("SystemReplicatedSegment");
    assert("DropTableStatementSegment"@.len() != "SystemReplicatedSegment"@.len());
    reveal_strlit("SystemReplicationSegment");
    assert("DropTableStatementSegment"@.len() != "SystemReplicationSegment"@.len());
    reveal_strlit("SystemStatementSegment");
    assert("DropTableStatementSegment"@.len() != "SystemStatementSegment"@.len());
    reveal_strlit("SystemUnfreezeSegment");
    assert("DropTableStatementSegment"@.len() != "SystemUnfreezeSegment"@.len());
}

/// After the ClickHouse grammar changes, `DropTableStatementSegment` has the grammar that their last
/// change of that name gives it, whatever dialect they start from.
pub proof fn lemma_clickhouse_changes_drop_table_statement_segment(d: DialectView)
    ensures
        has_grammar(clickhouse_grammar_changes(d).element("DropTableStatementSegment"@), drop_table_statement_segment_grammar()),
{
    reveal(clickhouse_grammar_changes);
    let d0 = d;
    let d1 = clickhouse_changes_part_0(d0);
    let d2 = clickhouse_changes_part_1(d1);
    let d3 = clickhouse_changes_part_2(d2);
    let d4 = clickhouse_changes_part_3(d3);
    lemma_clickhouse_part_2_sets_drop_table_statement_segment(d2);
    lemma_clickhouse_part_3_keeps_drop_table_statement_segment(d3);
}


/// The ClickHouse grammar changes give `DropTableStatementSegment` the grammar
/// `DROP`, an optional `TEMPORARY`, `TABLE`, an optional `IF EXISTS`, a table
/// reference, an optional `ON CLUSTER` clause, then an optional `SYNC`; whatever dialect they start from (a node keeps its kind).
pub proof fn law_clickhouse_drop_table_statement(d: DialectView)
    ensures
        ({
            let g = GrammarView::sequence(seq![GrammarView::keyword("DROP"@), (GrammarView::Optional { grammar: Box::new(GrammarView::keyword("TEMPORARY"@)) }), GrammarView::keyword("TABLE"@), GrammarView::optional_reference("IfExistsGrammar"@), GrammarView::reference("TableReferenceSegment"@), GrammarView::optional_reference("OnClusterClauseSegment"@), (GrammarView::Optional { grammar: Box::new(GrammarView::keyword("SYNC"@)) })]);
            has_grammar(clickhouse_grammar_changes(d).element("DropTableStatementSegment"@), g)
        }),
{
    lemma_clickhouse_changes_drop_table_statement_segment(d);
}

proof fn lemma_clickhouse_part_2_sets_drop_database_statement_segment(d: DialectView)
    ensures
        has_grammar(clickhouse_changes_part_2(d).element("DropDatabaseStatementSegment"@), drop_database_statement_segment_grammar()),
{
    reveal_strlit("DropDatabaseStatementSegment");
    reveal_strlit("DropDictionaryStatementSegment");
    assert("DropDatabaseStatementSegment"@.len() != "DropDictionaryStatementSegment"@.len());
    reveal_strlit("DropFunctionStatementSegment");
    assert("DropDatabaseStatementSegment"@[4] != "DropFunctionStatementSegment"@[4]);
    reveal_strlit("DropQuotaStatementSegment");
    assert("DropDatabaseStatementSegment"@.len() != "DropQuotaStatementSegment"@.len());
    reveal_strlit("DropRoleStatementSegment");
    assert("DropDatabaseStatementSegment"@.len() != "DropRoleStatementSegment"@.len());
    reveal_strlit("DropUserStatementSegment");
    assert("DropDatabaseStatementSegment"@.len() != "DropUserStatementSegment"@.len());
    reveal_strlit("DropViewStatementSegment");
    assert("DropDatabaseStatementSegment"@.len() != "DropViewStatementSegment"@.len());
    reveal_strlit("SystemFilesystemSegment");
    assert("DropDatabaseStatementSegment"@.len() != "SystemFilesystemSegment"@.len());
    reveal_strlit("SystemMergesSegment");
    assert("DropDatabaseStatementSegment"@.len() != "SystemMergesSegment"@.len());
    reveal_strlit("SystemMovesSegment");
    assert("DropDatabaseStatementSegment"@.len() != "SystemMovesSegment"@.len());
    reveal_strlit("SystemReplicaSegment");
    assert("DropDatabaseStatementSegment"@.len() != "SystemReplicaSegment"@.len());
    reveal_strlit("SystemTTLMergesSegment");
    assert("DropDatabaseStatementSegment"@.len() != "SystemTTLMergesSegment"@.len());
}

proof fn lemma_clickhouse_part_3_keeps_drop_database_statement_segment(d: DialectView)
    ensures
        clickhouse_changes_part_3(d).element("DropDatabaseStatementSegment"@) == d.element("DropDatabaseStatementSegment"@),
{
    reveal_strlit("DropDatabaseStatementSegment");
    reveal_strlit("AlterTableStatementSegment");
    assert("DropDatabaseStatementSegment"@.len() != "AlterTableStatementSegment"@.len());
    reveal_strlit("ColumnDefinitionSegment");
    assert("DropDatabaseStatementSegment"@.len() != "ColumnDefinitionSegment"@.len());
    reveal_strlit("IntervalExpressionSegment");
    assert("DropDatabaseStatementSegment"@.len() != "IntervalExpressionSegment"@.len());
    reveal_strlit("LimitClauseComponentSegment");
    assert("DropDatabaseStatementSegment"@.len() != "LimitClauseComponentSegment"@.len());
    reveal_strlit("LimitClauseSegment");
    assert("DropDatabaseStatementSegment"@.len() != "LimitClauseSegment"@.len());
    reveal_strlit("StatementSegment");
    assert("DropDatabaseStatementSegment"@.len() != "StatementSegment"@.len());
    reveal_strlit("SystemDistributedSegment");
    assert("DropDatabaseStatementSegment"@.len() != "SystemDistributedSegment"@.len());
    reveal_strlit("SystemFetchesSegment");
    assert("DropDatabaseStatementSegment"@.len() != "SystemFetchesSegment"@.len());
    reveal_strlit("SystemFileSegment");
    assert("DropDatabaseStatementSegment"@.len() != "SystemFileSegment"@.len());
    reveal_strlit("SystemModelSegment");
    assert("DropDatabaseStatementSegment"@.len() != "SystemModelSegment"@.len());
    reveal_strlit("SystemReplicatedSegment");
    assert("DropDatabaseStatementSegment"@.len() != "SystemReplicatedSegment"@.len());
    reveal_strlit("SystemReplicationSegment");
    assert("DropDatabaseStatementSegment"@.len() != "SystemReplicationSegment"@.len());
    reveal_strlit("SystemStatementSegment");
    assert("DropDatabaseStatementSegment"@.len() != "SystemStatementSegment"@.len());
    reveal_strlit("SystemUnfreezeSegment");
    assert("DropDatabaseStatementSegment"@.len() != "SystemUnfreezeSegment"@.len());
}

/// After the ClickHouse grammar changes, `DropDatabaseStatementSegment` has the grammar that their last
/// change of that name gives it, whatever dialect they start from.
pub proof fn lemma_clickhouse_changes_drop_database_statement_segment(d: DialectView)
    ensures
        has_grammar(clickhouse_grammar_changes(d).element("DropDatabaseStatementSegment"@), drop_database_statement_segment_grammar()),
{
    reveal(clickhouse_grammar_changes);
    let d0 = d;
    let d1 = clickhouse_changes_part_0(d0);
    let d2 = clickhouse_changes_part_1(d1);
    let d3 = clickhouse_changes_part_2(d2);
    let d4 = clickhouse_changes_part_3(d3);
    lemma_clickhouse_part_2_sets_drop_database_statement_segment(d2);
    lemma_clickhouse_part_3_keeps_drop_database_statement_segment(d3);
}


/// The ClickHouse grammar changes give `DropDatabaseStatementSegment` the
/// grammar `DROP DATABASE`, an optional `IF EXISTS`, a database reference, an
/// optional `ON CLUSTER` clause, then an optional `SYNC`; whatever dialect they start from (a node keeps its kind).
pub proof fn law_clickhouse_drop_database_statement(d: DialectView)
    ensures
        ({
            let g = GrammarView::sequence(seq![GrammarView::keyword("DROP"@), GrammarView::keyword("DATABASE"@), GrammarView::optional_reference("IfExistsGrammar"@), GrammarView::reference("DatabaseReferenceSegment"@), GrammarView::optional_reference("OnClusterClauseSegment"@), (GrammarView::Optional { grammar: Box::new(GrammarView::keyword("SYNC"@)) })]);
            has_grammar(clickhouse_grammar_changes(d).element("DropDatabaseStatementSegment"@), g)
        }),
{
    lemma_clickhouse_changes_drop_database_statement_segment(d);
}

proof fn lemma_clickhouse_part_2_sets_system_filesystem_segment(d: DialectView)
    ensures
        clickhouse_changes_part_2(d).element("SystemFilesystemSegment"@) == Some(system_filesystem_segment_element()),
{
    reveal_strlit("SystemFilesystemSegment");
}

proof fn lemma_clickhouse_part_3_keeps_system_filesystem_segment(d: DialectView)
    ensures
        clickhouse_changes_part_3(d).element("SystemFilesystemSegment"@) == d.element("SystemFilesystemSegment"@),
{
    reveal_strlit("SystemFilesystemSegment");
    reveal_strlit("AlterTableStatementSegment");
    assert("SystemFilesystemSegment"@.len() != "AlterTableStatementSegment"@.len());
    reveal_strlit("ColumnDefinitionSegment");
    assert("SystemFilesystemSegment"@[0] != "ColumnDefinitionSegment"@[0]);
    reveal_strlit("IntervalExpressionSegment");
    assert("SystemFilesystemSegment"@.len() != "IntervalExpressionSegment"@.len());
    reveal_strlit("LimitClauseComponentSegment");
    assert("SystemFilesystemSegment"@.len() != "LimitClauseComponentSegment"@.len());
    reveal_strlit("LimitClauseSegment");
    assert("SystemFilesystemSegment"@.len() != "LimitClauseSegment"@.len());
    reveal_strlit("StatementSegment");
    assert("SystemFilesystemSegment"@.len() != "StatementSegment"@.len());
    reveal_strlit("SystemDistributedSegment");
    assert("SystemFilesystemSegment"@.len() != "SystemDistributedSegment"@.len());
    reveal_strlit("SystemFetchesSegment");
    assert("SystemFilesystemSegment"@.len() != "SystemFetchesSegment"@.len());
    reveal_strlit("SystemFileSegment");
    assert("SystemFilesystemSegment"@.len() != "SystemFileSegment"@.len());
    reveal_strlit("SystemModelSegment");
    assert("SystemFilesystemSegment"@.len() != "SystemModelSegment"@.len());
    reveal_strlit("SystemReplicatedSegment");
    assert("SystemFilesystemSegment"@[6] != "SystemReplicatedSegment"@[6]);
    reveal_strlit("SystemReplicationSegment");
    assert("SystemFilesystemSegment"@.len() != "SystemReplicationSegment"@.len());
    reveal_strlit("SystemStatementSegment");
    assert("SystemFilesystemSegment"@.len() != "SystemStatementSegment"@.len());
    reveal_strlit("SystemUnfreezeSegment");
    assert("SystemFilesystemSegment"@.len() != "SystemUnfreezeSegment"@.len());
}

/// After the ClickHouse grammar changes, `SystemFilesystemSegment` is what their last change of that
/// name sets, whatever dialect they start from.
pub proof fn lemma_clickhouse_changes_system_filesystem_segment(d: DialectView)
    ensures
        clickhouse_grammar_changes(d).element("SystemFilesystemSegment"@) == Some(system_filesystem_segment_element()),
{
    reveal(clickhouse_grammar_changes);
    let d0 = d;
    let d1 = clickhouse_changes_part_0(d0);
    let d2 = clickhouse_changes_part_1(d1);
    let d3 = clickhouse_changes_part_2(d2);
    let d4 = clickhouse_changes_part_3(d3);
    lemma_clickhouse_part_2_sets_system_filesystem_segment(d2);
    lemma_clickhouse_part_3_keeps_system_filesystem_segment(d3);
}


/// The ClickHouse grammar changes make `SystemFilesystemSegment` a
/// `system_filesystem_segment` node: `DROP FILESYSTEM CACHE`; whatever dialect they start from.
pub proof fn law_clickhouse_system_filesystem(d: DialectView)
    ensures
        ({
            let e = (ElementView::Node { kind: "system_filesystem_segment"@, grammar: GrammarView::sequence(seq![GrammarView::keyword("DROP"@), GrammarView::keyword("FILESYSTEM"@), GrammarView::keyword("CACHE"@)]) });
            &&& clickhouse_grammar_changes(d).element("SystemFilesystemSegment"@) == Some(e)
        }),
{
    lemma_clickhouse_changes_system_filesystem_segment(d);
}

proof fn lemma_clickhouse_part_2_sets_drop_quota_statement_segment(d: DialectView)
    ensures
        clickhouse_changes_part_2(d).element("DropQuotaStatementSegment"@) == Some(drop_quota_statement_segment_element()),
{
    reveal_strlit("DropQuotaStatementSegment");
    reveal_strlit("DropFunctionStatementSegment");
    assert("DropQuotaStatementSegment"@.len() != "DropFunctionStatementSegment"@.len());
    reveal_strlit("DropViewStatementSegment");
    assert("DropQuotaStatementSegment"@.len() != "DropViewStatementSegment"@.len());
    reveal_strlit("SystemFilesystemSegment");
    assert("DropQuotaStatementSegment"@.len() != "SystemFilesystemSegment"@.len());
    reveal_strlit("SystemMergesSegment");
    assert("DropQuotaStatementSegment"@.len() != "SystemMergesSegment"@.len());
    reveal_strlit("SystemMovesSegment");
    assert("DropQuotaStatementSegment"@.len() != "SystemMovesSegment"@.len());
    reveal_strlit("SystemReplicaSegment");
    assert("DropQuotaStatementSegment"@.len() != "SystemReplicaSegment"@.len());
    reveal_strlit("SystemTTLMergesSegment");
    assert("DropQuotaStatementSegment"@.len() != "SystemTTLMergesSegment"@.len());
}

proof fn lemma_clickhouse_part_3_keeps_drop_quota_statement_segment(d: DialectView)
    ensures
        clickhouse_changes_part_3(d).element("DropQuotaStatementSegment"@) == d.element("DropQuotaStatementSegment"@),
{
    reveal_strlit("DropQuotaStatementSegment");
    reveal_strlit("AlterTableStatementSegment");
    assert("DropQuotaStatementSegment"@.len() != "AlterTableStatementSegment"@.len());
    reveal_strlit("ColumnDefinitionSegment");
    assert("DropQuotaStatementSegment"@.len() != "ColumnDefinitionSegment"@.len());
    reveal_strlit("IntervalExpressionSegment");
    assert("DropQuotaStatementSegment"@[0] != "IntervalExpressionSegment"@[0]);
    reveal_strlit("LimitClauseComponentSegment");
    assert("DropQuotaStatementSegment"@.len() != "LimitClauseComponentSegment"@.len());
    reveal_strlit("LimitClauseSegment");
    assert("DropQuotaStatementSegment"@.len() != "LimitClauseSegment"@.len());
    reveal_strlit("StatementSegment");
    assert("DropQuotaStatementSegment"@.len() != "StatementSegment"@.len());
    reveal_strlit("SystemDistributedSegment");
    assert("DropQuotaStatementSegment"@.len() != "SystemDistributedSegment"@.len());
    reveal_strlit("SystemFetchesSegment");
    assert("DropQuotaStatementSegment"@.len() != "SystemFetchesSegment"@.len());
    reveal_strlit("SystemFileSegment");
    assert("DropQuotaStatementSegment"@.len() != "SystemFileSegment"@.len());
    reveal_strlit("SystemModelSegment");
    assert("DropQuotaStatementSegment"@.len() != "SystemModelSegment"@.len());
    reveal_strlit("SystemReplicatedSegment");
    assert("DropQuotaStatementSegment"@.len() != "SystemReplicatedSegment"@.len());
    reveal_strlit("SystemReplicationSegment");
    assert("DropQuotaStatementSegment"@.len() != "SystemReplicationSegment"@.len());
    reveal_strlit("SystemStatementSegment");
    assert("DropQuotaStatementSegment"@.len() != "SystemStatementSegment"@.len());
    reveal_strlit("SystemUnfreezeSegment");
    assert("DropQuotaStatementSegment"@.len() != "SystemUnfreezeSegment"@.len());
}

/// After the ClickHouse grammar changes, `DropQuotaStatementSegment` is what their last change of that
/// name sets, whatever dialect they start from.
pub proof fn lemma_clickhouse_changes_drop_quota_statement_segment(d: DialectView)
    ensures
        clickhouse_grammar_changes(d).element("DropQuotaStatementSegment"@) == Some(drop_quota_statement_segment_element()),
{
    reveal(clickhouse_grammar_changes);
    let d0 = d;
    let d1 = clickhouse_changes_part_0(d0);
    let d2 = clickhouse_changes_part_1(d1);
    let d3 = clickhouse_changes_part_2(d2);
    let d4 = clickhouse_changes_part_3(d3);
    lemma_clickhouse_part_2_sets_drop_quota_statement_segment(d2);
    lemma_clickhouse_part_3_keeps_drop_quota_statement_segment(d3);
}


/// The ClickHouse grammar changes make `DropQuotaStatementSegment` a
/// `drop_quota_statement` node: `DROP QUOTA`, an optional `IF EXISTS`, an
/// identifier, then an optional `ON CLUSTER` clause; whatever dialect they start from.
pub proof fn law_clickhouse_drop_quota_statement(d: DialectView)
    ensures
        ({
            let e = (ElementView::Node { kind: "drop_quota_statement"@, grammar: GrammarView::sequence(seq![GrammarView::keyword("DROP"@), GrammarView::keyword("QUOTA"@), GrammarView::optional_reference("IfExistsGrammar"@), GrammarView::reference("SingleIdentifierGrammar"@), GrammarView::optional_reference("OnClusterClauseSegment"@)]) });
            &&& clickhouse_grammar_changes(d).element("DropQuotaStatementSegment"@) == Some(e)
        }),
{
    lemma_clickhouse_changes_drop_quota_statement_segment(d);
}

} // verus!
