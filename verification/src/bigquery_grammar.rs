//! The grammar changes of the BigQuery dialect: the elements it adds and the
//! grammars it replaces, in order. Each element or grammar is stated as a
//! value and built by a function proved to give that value.

use crate::dialect::{DialectModel, DialectView, Element, ElementView, has_grammar};
use crate::grammar::{Grammar, GrammarView, ParseMode, views, word_set};
use vstd::prelude::*;

verus! {

/// The BigQuery element `NonWithSelectableGrammar`.
pub open spec fn non_with_selectable_grammar_element() -> ElementView {
    ElementView::Grammar(GrammarView::OneOf { elements: seq![GrammarView::Ref { name: "SetExpressionSegment"@, optional: false }, GrammarView::OneOf { elements: seq![GrammarView::Bracketed { elements: seq![GrammarView::Ref { name: "SelectStatementSegment"@, optional: false }], bracket_type: "round"@ }, GrammarView::Ref { name: "SelectStatementSegment"@, optional: false }], terminators: seq![] }, GrammarView::Ref { name: "NonSetSelectableGrammar"@, optional: false }, GrammarView::Ref { name: "UpdateStatementSegment"@, optional: false }, GrammarView::Ref { name: "InsertStatementSegment"@, optional: false }, GrammarView::Ref { name: "DeleteStatementSegment"@, optional: false }, GrammarView::Ref { name: "MergeStatementSegment"@, optional: false }], terminators: seq![] })
}

fn build_non_with_selectable_grammar() -> (e: Element)
    ensures
        e@ =~~= non_with_selectable_grammar_element(),
{
    let g1: Vec<Grammar> = vec![Grammar::reference("SelectStatementSegment")];
    assert(views(g1@) =~~= seq![GrammarView::Ref { name: "SelectStatementSegment"@, optional: false }]);
    let g2 = Grammar::bracketed_with(g1, "round");
    let g3: Vec<Grammar> = vec![g2, Grammar::reference("SelectStatementSegment")];
    assert(views(g3@) =~~= seq![GrammarView::Bracketed { elements: seq![GrammarView::Ref { name: "SelectStatementSegment"@, optional: false }], bracket_type: "round"@ }, GrammarView::Ref { name: "SelectStatementSegment"@, optional: false }]);
    let g4: Vec<Grammar> = Vec::new();
    assert(views(g4@) =~= Seq::<GrammarView>::empty());
    let g5 = Grammar::one_of_with(g3, g4);
    let g6: Vec<Grammar> = vec![Grammar::reference("SetExpressionSegment"), g5, Grammar::reference("NonSetSelectableGrammar"), Grammar::reference("UpdateStatementSegment"), Grammar::reference("InsertStatementSegment"), Grammar::reference("DeleteStatementSegment"), Grammar::reference("MergeStatementSegment")];
    assert(views(g6@) =~~= seq![GrammarView::Ref { name: "SetExpressionSegment"@, optional: false }, GrammarView::OneOf { elements: seq![GrammarView::Bracketed { elements: seq![GrammarView::Ref { name: "SelectStatementSegment"@, optional: false }], bracket_type: "round"@ }, GrammarView::Ref { name: "SelectStatementSegment"@, optional: false }], terminators: seq![] }, GrammarView::Ref { name: "NonSetSelectableGrammar"@, optional: false }, GrammarView::Ref { name: "UpdateStatementSegment"@, optional: false }, GrammarView::Ref { name: "InsertStatementSegment"@, optional: false }, GrammarView::Ref { name: "DeleteStatementSegment"@, optional: false }, GrammarView::Ref { name: "MergeStatementSegment"@, optional: false }]);
    let g7: Vec<Grammar> = Vec::new();
    assert(views(g7@) =~= Seq::<GrammarView>::empty());
    let g8 = Grammar::one_of_with(g6, g7);
    Element::Grammar(g8)
}

/// The BigQuery element `DoubleQuotedLiteralSegment`.
pub open spec fn double_quoted_literal_segment_element() -> ElementView {
    ElementView::Grammar(GrammarView::TypedParser { template: "double_quote"@, kind: "quoted_literal"@ })
}

fn build_double_quoted_literal_segment() -> (e: Element)
    ensures
        e@ =~~= double_quoted_literal_segment_element(),
{
    Element::Grammar(Grammar::typed_parser("double_quote", "quoted_literal"))
}

/// The BigQuery element `SingleQuotedLiteralSegment`.
pub open spec fn single_quoted_literal_segment_element() -> ElementView {
    ElementView::Grammar(GrammarView::TypedParser { template: "single_quote"@, kind: "quoted_literal"@ })
}

fn build_single_quoted_literal_segment() -> (e: Element)
    ensures
        e@ =~~= single_quoted_literal_segment_element(),
{
    Element::Grammar(Grammar::typed_parser("single_quote", "quoted_literal"))
}

/// The BigQuery element `DoubleQuotedUDFBody`.
pub open spec fn double_quoted_u_d_f_body_element() -> ElementView {
    ElementView::Grammar(GrammarView::TypedParser { template: "double_quote"@, kind: "udf_body"@ })
}

fn build_double_quoted_u_d_f_body() -> (e: Element)
    ensures
        e@ =~~= double_quoted_u_d_f_body_element(),
{
    Element::Grammar(Grammar::typed_parser("double_quote", "udf_body"))
}

/// The BigQuery element `SingleQuotedUDFBody`.
pub open spec fn single_quoted_u_d_f_body_element() -> ElementView {
    ElementView::Grammar(GrammarView::TypedParser { template: "single_quote"@, kind: "udf_body"@ })
}

fn build_single_quoted_u_d_f_body() -> (e: Element)
    ensures
        e@ =~~= single_quoted_u_d_f_body_element(),
{
    Element::Grammar(Grammar::typed_parser("single_quote", "udf_body"))
}

/// The BigQuery element `StartAngleBracketSegment`.
pub open spec fn start_angle_bracket_segment_element() -> ElementView {
    ElementView::Grammar(GrammarView::StringParser { template: "<"@, kind: "start_angle_bracket"@ })
}

fn build_start_angle_bracket_segment() -> (e: Element)
    ensures
        e@ =~~= start_angle_bracket_segment_element(),
{
    Element::Grammar(Grammar::string_parser("<", "start_angle_bracket"))
}

/// The BigQuery element `EndAngleBracketSegment`.
pub open spec fn end_angle_bracket_segment_element() -> ElementView {
    ElementView::Grammar(GrammarView::StringParser { template: ">"@, kind: "end_angle_bracket"@ })
}

fn build_end_angle_bracket_segment() -> (e: Element)
    ensures
        e@ =~~= end_angle_bracket_segment_element(),
{
    Element::Grammar(Grammar::string_parser(">", "end_angle_bracket"))
}

/// The BigQuery element `RightArrowSegment`.
pub open spec fn right_arrow_segment_element() -> ElementView {
    ElementView::Grammar(GrammarView::StringParser { template: "=>"@, kind: "right_arrow"@ })
}

fn build_right_arrow_segment() -> (e: Element)
    ensures
        e@ =~~= right_arrow_segment_element(),
{
    Element::Grammar(Grammar::string_parser("=>", "right_arrow"))
}

/// The BigQuery element `DashSegment`.
pub open spec fn dash_segment_element() -> ElementView {
    ElementView::Grammar(GrammarView::StringParser { template: "-"@, kind: "dash"@ })
}

fn build_dash_segment() -> (e: Element)
    ensures
        e@ =~~= dash_segment_element(),
{
    Element::Grammar(Grammar::string_parser("-", "dash"))
}

/// The BigQuery element `SingleIdentifierFullGrammar`.
pub open spec fn single_identifier_full_grammar_element() -> ElementView {
    ElementView::Grammar(GrammarView::OneOf { elements: seq![GrammarView::Ref { name: "NakedIdentifierSegment"@, optional: false }, GrammarView::Ref { name: "QuotedIdentifierSegment"@, optional: false }, GrammarView::Ref { name: "NakedIdentifierFullSegment"@, optional: false }], terminators: seq![] })
}

fn build_single_identifier_full_grammar() -> (e: Element)
    ensures
        e@ =~~= single_identifier_full_grammar_element(),
{
    let g1: Vec<Grammar> = vec![Grammar::reference("NakedIdentifierSegment"), Grammar::reference("QuotedIdentifierSegment"), Grammar::reference("NakedIdentifierFullSegment")];
    assert(views(g1@) =~~= seq![GrammarView::Ref { name: "NakedIdentifierSegment"@, optional: false }, GrammarView::Ref { name: "QuotedIdentifierSegment"@, optional: false }, GrammarView::Ref { name: "NakedIdentifierFullSegment"@, optional: false }]);
    let g2: Vec<Grammar> = Vec::new();
    assert(views(g2@) =~= Seq::<GrammarView>::empty());
    let g3 = Grammar::one_of_with(g1, g2);
    Element::Grammar(g3)
}

/// The BigQuery element `QuestionMarkSegment`.
pub open spec fn question_mark_segment_element() -> ElementView {
    ElementView::Grammar(GrammarView::StringParser { template: "?"@, kind: "question_mark"@ })
}

fn build_question_mark_segment() -> (e: Element)
    ensures
        e@ =~~= question_mark_segment_element(),
{
    Element::Grammar(Grammar::string_parser("?", "question_mark"))
}

/// The BigQuery element `AtSignLiteralSegment`.
pub open spec fn at_sign_literal_segment_element() -> ElementView {
    ElementView::Grammar(GrammarView::TypedParser { template: "at_sign_literal"@, kind: "at_sign_literal"@ })
}

fn build_at_sign_literal_segment() -> (e: Element)
    ensures
        e@ =~~= at_sign_literal_segment_element(),
{
    Element::Grammar(Grammar::typed_parser("at_sign_literal", "at_sign_literal"))
}

/// The BigQuery element `DefaultDeclareOptionsGrammar`.
pub open spec fn default_declare_options_grammar_element() -> ElementView {
    ElementView::Grammar(GrammarView::Sequence { elements: seq![GrammarView::Keyword { word: "DEFAULT"@ }, GrammarView::OneOf { elements: seq![GrammarView::Ref { name: "LiteralGrammar"@, optional: false }, GrammarView::Bracketed { elements: seq![GrammarView::Ref { name: "SelectStatementSegment"@, optional: false }], bracket_type: "round"@ }, GrammarView::Ref { name: "BareFunctionSegment"@, optional: false }, GrammarView::Ref { name: "FunctionSegment"@, optional: false }, GrammarView::Ref { name: "ArrayLiteralSegment"@, optional: false }, GrammarView::Ref { name: "TupleSegment"@, optional: false }, GrammarView::Ref { name: "BaseExpressionElementGrammar"@, optional: false }], terminators: seq![GrammarView::Ref { name: "SemicolonSegment"@, optional: false }] }], terminators: seq![], parse_mode: ParseMode::Strict })
}

fn build_default_declare_options_grammar() -> (e: Element)
    ensures
        e@ =~~= default_declare_options_grammar_element(),
{
    let g1: Vec<Grammar> = vec![Grammar::reference("SelectStatementSegment")];
    assert(views(g1@) =~~= seq![GrammarView::Ref { name: "SelectStatementSegment"@, optional: false }]);
    let g2 = Grammar::bracketed_with(g1, "round");
    let g3: Vec<Grammar> = vec![Grammar::reference("LiteralGrammar"), g2, Grammar::reference("BareFunctionSegment"), Grammar::reference("FunctionSegment"), Grammar::reference("ArrayLiteralSegment"), Grammar::reference("TupleSegment"), Grammar::reference("BaseExpressionElementGrammar")];
    assert(views(g3@) =~~= seq![GrammarView::Ref { name: "LiteralGrammar"@, optional: false }, GrammarView::Bracketed { elements: seq![GrammarView::Ref { name: "SelectStatementSegment"@, optional: false }], bracket_type: "round"@ }, GrammarView::Ref { name: "BareFunctionSegment"@, optional: false }, GrammarView::Ref { name: "FunctionSegment"@, optional: false }, GrammarView::Ref { name: "ArrayLiteralSegment"@, optional: false }, GrammarView::Ref { name: "TupleSegment"@, optional: false }, GrammarView::Ref { name: "BaseExpressionElementGrammar"@, optional: false }]);
    let g4: Vec<Grammar> = vec![Grammar::reference("SemicolonSegment")];
    assert(views(g4@) =~~= seq![GrammarView::Ref { name: "SemicolonSegment"@, optional: false }]);
    let g5 = Grammar::one_of_with(g3, g4);
    let g6: Vec<Grammar> = vec![Grammar::keyword("DEFAULT"), g5];
    assert(views(g6@) =~~= seq![GrammarView::Keyword { word: "DEFAULT"@ }, GrammarView::OneOf { elements: seq![GrammarView::Ref { name: "LiteralGrammar"@, optional: false }, GrammarView::Bracketed { elements: seq![GrammarView::Ref { name: "SelectStatementSegment"@, optional: false }], bracket_type: "round"@ }, GrammarView::Ref { name: "BareFunctionSegment"@, optional: false }, GrammarView::Ref { name: "FunctionSegment"@, optional: false }, GrammarView::Ref { name: "ArrayLiteralSegment"@, optional: false }, GrammarView::Ref { name: "TupleSegment"@, optional: false }, GrammarView::Ref { name: "BaseExpressionElementGrammar"@, optional: false }], terminators: seq![GrammarView::Ref { name: "SemicolonSegment"@, optional: false }] }]);
    let g7: Vec<Grammar> = Vec::new();
    assert(views(g7@) =~= Seq::<GrammarView>::empty());
    let g8 = Grammar::sequence_with(g6, g7, ParseMode::Strict);
    Element::Grammar(g8)
}

/// The BigQuery element `ExtendedDatetimeUnitSegment`.
pub open spec fn extended_datetime_unit_segment_element() -> ElementView {
    ElementView::WordsOf { set: "extended_datetime_units"@, kind: "date_part"@ }
}

fn build_extended_datetime_unit_segment() -> (e: Element)
    ensures
        e@ =~~= extended_datetime_unit_segment_element(),
{
    Element::WordsOf { set: "extended_datetime_units", kind: "date_part" }
}

/// The BigQuery element `NakedIdentifierFullSegment`.
pub open spec fn naked_identifier_full_segment_element() -> ElementView {
    ElementView::Grammar(GrammarView::RegexParser { pattern: "[A-Z_][A-Z0-9_]*"@, kind: "naked_identifier_all"@, anti_template: None })
}

fn build_naked_identifier_full_segment() -> (e: Element)
    ensures
        e@ =~~= naked_identifier_full_segment_element(),
{
    Element::Grammar(Grammar::regex_parser("[A-Z_][A-Z0-9_]*", "naked_identifier_all"))
}

/// The BigQuery element `NakedIdentifierPart`.
pub open spec fn naked_identifier_part_element() -> ElementView {
    ElementView::Grammar(GrammarView::RegexParser { pattern: "[A-Z0-9_]+"@, kind: "naked_identifier"@, anti_template: None })
}

fn build_naked_identifier_part() -> (e: Element)
    ensures
        e@ =~~= naked_identifier_part_element(),
{
    Element::Grammar(Grammar::regex_parser("[A-Z0-9_]+", "naked_identifier"))
}

/// The BigQuery element `ProcedureParameterGrammar`.
pub open spec fn procedure_parameter_grammar_element() -> ElementView {
    ElementView::Grammar(GrammarView::OneOf { elements: seq![GrammarView::Sequence { elements: seq![GrammarView::Optional { grammar: Box::new(GrammarView::OneOf { elements: seq![GrammarView::Keyword { word: "IN"@ }, GrammarView::Keyword { word: "OUT"@ }, GrammarView::Keyword { word: "INOUT"@ }], terminators: seq![] }) }, GrammarView::Ref { name: "ParameterNameSegment"@, optional: true }, GrammarView::OneOf { elements: seq![GrammarView::Sequence { elements: seq![GrammarView::Keyword { word: "ANY"@ }, GrammarView::Keyword { word: "TYPE"@ }], terminators: seq![], parse_mode: ParseMode::Strict }, GrammarView::Ref { name: "DatatypeSegment"@, optional: false }], terminators: seq![] }], terminators: seq![], parse_mode: ParseMode::Strict }, GrammarView::OneOf { elements: seq![GrammarView::Sequence { elements: seq![GrammarView::Keyword { word: "ANY"@ }, GrammarView::Keyword { word: "TYPE"@ }], terminators: seq![], parse_mode: ParseMode::Strict }, GrammarView::Ref { name: "DatatypeSegment"@, optional: false }], terminators: seq![] }], terminators: seq![] })
}

fn build_procedure_parameter_grammar() -> (e: Element)
    ensures
        e@ =~~= procedure_parameter_grammar_element(),
{
    let g1: Vec<Grammar> = vec![Grammar::keyword("IN"), Grammar::keyword("OUT"), Grammar::keyword("INOUT")];
    assert(views(g1@) =~~= seq![GrammarView::Keyword { word: "IN"@ }, GrammarView::Keyword { word: "OUT"@ }, GrammarView::Keyword { word: "INOUT"@ }]);
    let g2: Vec<Grammar> = Vec::new();
    assert(views(g2@) =~= Seq::<GrammarView>::empty());
    let g3 = Grammar::one_of_with(g1, g2);
    let g4 = g3.optional();
    let g5: Vec<Grammar> = vec![Grammar::keyword("ANY"), Grammar::keyword("TYPE")];
    assert(views(g5@) =~~= seq![GrammarView::Keyword { word: "ANY"@ }, GrammarView::Keyword { word: "TYPE"@ }]);
    let g6: Vec<Grammar> = Vec::new();
    assert(views(g6@) =~= Seq::<GrammarView>::empty());
    let g7 = Grammar::sequence_with(g5, g6, ParseMode::Strict);
    let g8: Vec<Grammar> = vec![g7, Grammar::reference("DatatypeSegment")];
    assert(views(g8@) =~~= seq![GrammarView::Sequence { elements: seq![GrammarView::Keyword { word: "ANY"@ }, GrammarView::Keyword { word: "TYPE"@ }], terminators: seq![], parse_mode: ParseMode::Strict }, GrammarView::Ref { name: "DatatypeSegment"@, optional: false }]);
    let g9: Vec<Grammar> = Vec::new();
    assert(views(g9@) =~= Seq::<GrammarView>::empty());
    let g10 = Grammar::one_of_with(g8, g9);
    let g11: Vec<Grammar> = vec![g4, Grammar::optional_reference("ParameterNameSegment"), g10];
    assert(views(g11@) =~~= seq![GrammarView::Optional { grammar: Box::new(GrammarView::OneOf { elements: seq![GrammarView::Keyword { word: "IN"@ }, GrammarView::Keyword { word: "OUT"@ }, GrammarView::Keyword { word: "INOUT"@ }], terminators: seq![] }) }, GrammarView::Ref { name: "ParameterNameSegment"@, optional: true }, GrammarView::OneOf { elements: seq![GrammarView::Sequence { elements: seq![GrammarView::Keyword { word: "ANY"@ }, GrammarView::Keyword { word: "TYPE"@ }], terminators: seq![], parse_mode: ParseMode::Strict }, GrammarView::Ref { name: "DatatypeSegment"@, optional: false }], terminators: seq![] }]);
    let g12: Vec<Grammar> = Vec::new();
    assert(views(g12@) =~= Seq::<GrammarView>::empty());
    let g13 = Grammar::sequence_with(g11, g12, ParseMode::Strict);
    let g14: Vec<Grammar> = vec![Grammar::keyword("ANY"), Grammar::keyword("TYPE")];
    assert(views(g14@) =~~= seq![GrammarView::Keyword { word: "ANY"@ }, GrammarView::Keyword { word: "TYPE"@ }]);
    let g15: Vec<Grammar> = Vec::new();
    assert(views(g15@) =~= Seq::<GrammarView>::empty());
    let g16 = Grammar::sequence_with(g14, g15, ParseMode::Strict);
    let g17: Vec<Grammar> = vec![g16, Grammar::reference("DatatypeSegment")];
    assert(views(g17@) =~~= seq![GrammarView::Sequence { elements: seq![GrammarView::Keyword { word: "ANY"@ }, GrammarView::Keyword { word: "TYPE"@ }], terminators: seq![], parse_mode: ParseMode::Strict }, GrammarView::Ref { name: "DatatypeSegment"@, optional: false }]);
    let g18: Vec<Grammar> = Vec::new();
    assert(views(g18@) =~= Seq::<GrammarView>::empty());
    let g19 = Grammar::one_of_with(g17, g18);
    let g20: Vec<Grammar> = vec![g13, g19];
    assert(views(g20@) =~~= seq![GrammarView::Sequence { elements: seq![GrammarView::Optional { grammar: Box::new(GrammarView::OneOf { elements: seq![GrammarView::Keyword { word: "IN"@ }, GrammarView::Keyword { word: "OUT"@ }, GrammarView::Keyword { word: "INOUT"@ }], terminators: seq![] }) }, GrammarView::Ref { name: "ParameterNameSegment"@, optional: true }, GrammarView::OneOf { elements: seq![GrammarView::Sequence { elements: seq![GrammarView::Keyword { word: "ANY"@ }, GrammarView::Keyword { word: "TYPE"@ }], terminators: seq![], parse_mode: ParseMode::Strict }, GrammarView::Ref { name: "DatatypeSegment"@, optional: false }], terminators: seq![] }], terminators: seq![], parse_mode: ParseMode::Strict }, GrammarView::OneOf { elements: seq![GrammarView::Sequence { elements: seq![GrammarView::Keyword { word: "ANY"@ }, GrammarView::Keyword { word: "TYPE"@ }], terminators: seq![], parse_mode: ParseMode::Strict }, GrammarView::Ref { name: "DatatypeSegment"@, optional: false }], terminators: seq![] }]);
    let g21: Vec<Grammar> = Vec::new();
    assert(views(g21@) =~= Seq::<GrammarView>::empty());
    let g22 = Grammar::one_of_with(g20, g21);
    Element::Grammar(g22)
}

/// The BigQuery element `NakedIdentifierSegment`.
pub open spec fn naked_identifier_segment_element() -> ElementView {
    ElementView::IdentifierNotIn { pattern: "[A-Z_][A-Z0-9_]*"@, kind: "naked_identifier"@, set: "reserved_keywords"@ }
}

fn build_naked_identifier_segment() -> (e: Element)
    ensures
        e@ =~~= naked_identifier_segment_element(),
{
    Element::IdentifierNotIn { pattern: "[A-Z_][A-Z0-9_]*", kind: "naked_identifier", set: "reserved_keywords" }
}

/// The BigQuery element `FunctionContentsExpressionGrammar`.
pub open spec fn function_contents_expression_grammar_element() -> ElementView {
    ElementView::Grammar(GrammarView::OneOf { elements: seq![GrammarView::Ref { name: "DatetimeUnitSegment"@, optional: false }, GrammarView::Ref { name: "DatePartWeekSegment"@, optional: false }, GrammarView::Sequence { elements: seq![GrammarView::Ref { name: "ExpressionSegment"@, optional: false }, GrammarView::Optional { grammar: Box::new(GrammarView::Sequence { elements: seq![GrammarView::OneOf { elements: seq![GrammarView::Keyword { word: "IGNORE"@ }, GrammarView::Keyword { word: "RESPECT"@ }], terminators: seq![] }, GrammarView::Keyword { word: "NULLS"@ }], terminators: seq![], parse_mode: ParseMode::Strict }) }], terminators: seq![], parse_mode: ParseMode::Strict }, GrammarView::Sequence { elements: seq![GrammarView::Ref { name: "ExpressionSegment"@, optional: false }, GrammarView::Keyword { word: "HAVING"@ }, GrammarView::OneOf { elements: seq![GrammarView::Keyword { word: "MIN"@ }, GrammarView::Keyword { word: "MAX"@ }], terminators: seq![] }, GrammarView::Ref { name: "ExpressionSegment"@, optional: false }], terminators: seq![], parse_mode: ParseMode::Strict }, GrammarView::Ref { name: "NamedArgumentSegment"@, optional: false }], terminators: seq![] })
}

fn build_function_contents_expression_grammar() -> (e: Element)
    ensures
        e@ =~~= function_contents_expression_grammar_element(),
{
    let g1: Vec<Grammar> = vec![Grammar::keyword("IGNORE"), Grammar::keyword("RESPECT")];
    assert(views(g1@) =~~= seq![GrammarView::Keyword { word: "IGNORE"@ }, GrammarView::Keyword { word: "RESPECT"@ }]);
    let g2: Vec<Grammar> = Vec::new();
    assert(views(g2@) =~= Seq::<GrammarView>::empty());
    let g3 = Grammar::one_of_with(g1, g2);
    let g4: Vec<Grammar> = vec![g3, Grammar::keyword("NULLS")];
    assert(views(g4@) =~~= seq![GrammarView::OneOf { elements: seq![GrammarView::Keyword { word: "IGNORE"@ }, GrammarView::Keyword { word: "RESPECT"@ }], terminators: seq![] }, GrammarView::Keyword { word: "NULLS"@ }]);
    let g5: Vec<Grammar> = Vec::new();
    assert(views(g5@) =~= Seq::<GrammarView>::empty());
    let g6 = Grammar::sequence_with(g4, g5, ParseMode::Strict);
    let g7 = g6.optional();
    let g8: Vec<Grammar> = vec![Grammar::reference("ExpressionSegment"), g7];
    assert(views(g8@) =~~= seq![GrammarView::Ref { name: "ExpressionSegment"@, optional: false }, GrammarView::Optional { grammar: Box::new(GrammarView::Sequence { elements: seq![GrammarView::OneOf { elements: seq![GrammarView::Keyword { word: "IGNORE"@ }, GrammarView::Keyword { word: "RESPECT"@ }], terminators: seq![] }, GrammarView::Keyword { word: "NULLS"@ }], terminators: seq![], parse_mode: ParseMode::Strict }) }]);
    let g9: Vec<Grammar> = Vec::new();
    assert(views(g9@) =~= Seq::<GrammarView>::empty());
    let g10 = Grammar::sequence_with(g8, g9, ParseMode::Strict);
    let g11: Vec<Grammar> = vec![Grammar::keyword("MIN"), Grammar::keyword("MAX")];
    assert(views(g11@) =~~= seq![GrammarView::Keyword { word: "MIN"@ }, GrammarView::Keyword { word: "MAX"@ }]);
    let g12: Vec<Grammar> = Vec::new();
    assert(views(g12@) =~= Seq::<GrammarView>::empty());
    let g13 = Grammar::one_of_with(g11, g12);
    let g14: Vec<Grammar> = vec![Grammar::reference("ExpressionSegment"), Grammar::keyword("HAVING"), g13, Grammar::reference("ExpressionSegment")];
    assert(views(g14@) =~~= seq![GrammarView::Ref { name: "ExpressionSegment"@, optional: false }, GrammarView::Keyword { word: "HAVING"@ }, GrammarView::OneOf { elements: seq![GrammarView::Keyword { word: "MIN"@ }, GrammarView::Keyword { word: "MAX"@ }], terminators: seq![] }, GrammarView::Ref { name: "ExpressionSegment"@, optional: false }]);
    let g15: Vec<Grammar> = Vec::new();
    assert(views(g15@) =~= Seq::<GrammarView>::empty());
    let g16 = Grammar::sequence_with(g14, g15, ParseMode::Strict);
    let g17: Vec<Grammar> = vec![Grammar::reference("DatetimeUnitSegment"), Grammar::reference("DatePartWeekSegment"), g10, g16, Grammar::reference("NamedArgumentSegment")];
    assert(views(g17@) =~~= seq![GrammarView::Ref { name: "DatetimeUnitSegment"@, optional: false }, GrammarView::Ref { name: "DatePartWeekSegment"@, optional: false }, GrammarView::Sequence { elements: seq![GrammarView::Ref { name: "ExpressionSegment"@, optional: false }, GrammarView::Optional { grammar: Box::new(GrammarView::Sequence { elements: seq![GrammarView::OneOf { elements: seq![GrammarView::Keyword { word: "IGNORE"@ }, GrammarView::Keyword { word: "RESPECT"@ }], terminators: seq![] }, GrammarView::Keyword { word: "NULLS"@ }], terminators: seq![], parse_mode: ParseMode::Strict }) }], terminators: seq![], parse_mode: ParseMode::Strict }, GrammarView::Sequence { elements: seq![GrammarView::Ref { name: "ExpressionSegment"@, optional: false }, GrammarView::Keyword { word: "HAVING"@ }, GrammarView::OneOf { elements: seq![GrammarView::Keyword { word: "MIN"@ }, GrammarView::Keyword { word: "MAX"@ }], terminators: seq![] }, GrammarView::Ref { name: "ExpressionSegment"@, optional: false }], terminators: seq![], parse_mode: ParseMode::Strict }, GrammarView::Ref { name: "NamedArgumentSegment"@, optional: false }]);
    let g18: Vec<Grammar> = Vec::new();
    assert(views(g18@) =~= Seq::<GrammarView>::empty());
    let g19 = Grammar::one_of_with(g17, g18);
    Element::Grammar(g19)
}

/// The BigQuery element `TrimParametersGrammar`.
pub open spec fn trim_parameters_grammar_element() -> ElementView {
    ElementView::Grammar(GrammarView::Nothing)
}

fn build_trim_parameters_grammar() -> (e: Element)
    ensures
        e@ =~~= trim_parameters_grammar_element(),
{
    Element::Grammar(Grammar::nothing())
}

/// The BigQuery element `ParameterNameSegment`.
pub open spec fn parameter_name_segment_element() -> ElementView {
    ElementView::Grammar(GrammarView::OneOf { elements: seq![GrammarView::RegexParser { pattern: "[A-Z_][A-Z0-9_]*"@, kind: "parameter"@, anti_template: None }, GrammarView::RegexParser { pattern: "`[^`]*`"@, kind: "parameter"@, anti_template: None }], terminators: seq![] })
}

fn build_parameter_name_segment() -> (e: Element)
    ensures
        e@ =~~= parameter_name_segment_element(),
{
    let g1: Vec<Grammar> = vec![Grammar::regex_parser("[A-Z_][A-Z0-9_]*", "parameter"), Grammar::regex_parser("`[^`]*`", "parameter")];
    assert(views(g1@) =~~= seq![GrammarView::RegexParser { pattern: "[A-Z_][A-Z0-9_]*"@, kind: "parameter"@, anti_template: None }, GrammarView::RegexParser { pattern: "`[^`]*`"@, kind: "parameter"@, anti_template: None }]);
    let g2: Vec<Grammar> = Vec::new();
    assert(views(g2@) =~= Seq::<GrammarView>::empty());
    let g3 = Grammar::one_of_with(g1, g2);
    Element::Grammar(g3)
}

/// The BigQuery element `DateTimeLiteralGrammar`.
pub open spec fn date_time_literal_grammar_element() -> ElementView {
    ElementView::Grammar(GrammarView::Sequence { elements: seq![GrammarView::OneOf { elements: seq![GrammarView::Keyword { word: "DATE"@ }, GrammarView::Keyword { word: "DATETIME"@ }, GrammarView::Keyword { word: "TIME"@ }, GrammarView::Keyword { word: "TIMESTAMP"@ }], terminators: seq![] }, GrammarView::TypedParser { template: "single_quote"@, kind: "date_constructor_literal"@ }], terminators: seq![], parse_mode: ParseMode::Strict })
}

fn build_date_time_literal_grammar() -> (e: Element)
    ensures
        e@ =~~= date_time_literal_grammar_element(),
{
    let g1: Vec<Grammar> = vec![Grammar::keyword("DATE"), Grammar::keyword("DATETIME"), Grammar::keyword("TIME"), Grammar::keyword("TIMESTAMP")];
    assert(views(g1@) =~~= seq![GrammarView::Keyword { word: "DATE"@ }, GrammarView::Keyword { word: "DATETIME"@ }, GrammarView::Keyword { word: "TIME"@ }, GrammarView::Keyword { word: "TIMESTAMP"@ }]);
    let g2: Vec<Grammar> = Vec::new();
    assert(views(g2@) =~= Seq::<GrammarView>::empty());
    let g3 = Grammar::one_of_with(g1, g2);
    let g4: Vec<Grammar> = vec![g3, Grammar::typed_parser("single_quote", "date_constructor_literal")];
    assert(views(g4@) =~~= seq![GrammarView::OneOf { elements: seq![GrammarView::Keyword { word: "DATE"@ }, GrammarView::Keyword { word: "DATETIME"@ }, GrammarView::Keyword { word: "TIME"@ }, GrammarView::Keyword { word: "TIMESTAMP"@ }], terminators: seq![] }, GrammarView::TypedParser { template: "single_quote"@, kind: "date_constructor_literal"@ }]);
    let g5: Vec<Grammar> = Vec::new();
    assert(views(g5@) =~= Seq::<GrammarView>::empty());
    let g6 = Grammar::sequence_with(g4, g5, ParseMode::Strict);
    Element::Grammar(g6)
}

/// The BigQuery element `JoinLikeClauseGrammar`.
pub open spec fn join_like_clause_grammar_element() -> ElementView {
    ElementView::Grammar(GrammarView::Sequence { elements: seq![GrammarView::AnyNumberOf { elements: seq![GrammarView::Ref { name: "FromPivotExpressionSegment"@, optional: false }, GrammarView::Ref { name: "FromUnpivotExpressionSegment"@, optional: false }], terminators: seq![], min_times: 1, max_times: None }, GrammarView::Ref { name: "AliasExpressionSegment"@, optional: true }], terminators: seq![], parse_mode: ParseMode::Strict })
}

fn build_join_like_clause_grammar() -> (e: Element)
    ensures
        e@ =~~= join_like_clause_grammar_element(),
{
    let g1: Vec<Grammar> = vec![Grammar::reference("FromPivotExpressionSegment"), Grammar::reference("FromUnpivotExpressionSegment")];
    assert(views(g1@) =~~= seq![GrammarView::Ref { name: "FromPivotExpressionSegment"@, optional: false }, GrammarView::Ref { name: "FromUnpivotExpressionSegment"@, optional: false }]);
    let g2: Vec<Grammar> = Vec::new();
    assert(views(g2@) =~= Seq::<GrammarView>::empty());
    let g3 = Grammar::any_number_of_with(g1, g2, 1, None);
    let g4: Vec<Grammar> = vec![g3, Grammar::optional_reference("AliasExpressionSegment")];
    assert(views(g4@) =~~= seq![GrammarView::AnyNumberOf { elements: seq![GrammarView::Ref { name: "FromPivotExpressionSegment"@, optional: false }, GrammarView::Ref { name: "FromUnpivotExpressionSegment"@, optional: false }], terminators: seq![], min_times: 1, max_times: None }, GrammarView::Ref { name: "AliasExpressionSegment"@, optional: true }]);
    let g5: Vec<Grammar> = Vec::new();
    assert(views(g5@) =~= Seq::<GrammarView>::empty());
    let g6 = Grammar::sequence_with(g4, g5, ParseMode::Strict);
    Element::Grammar(g6)
}

/// The BigQuery element `NaturalJoinKeywordsGrammar`.
pub open spec fn natural_join_keywords_grammar_element() -> ElementView {
    ElementView::Grammar(GrammarView::Nothing)
}

fn build_natural_join_keywords_grammar() -> (e: Element)
    ensures
        e@ =~~= natural_join_keywords_grammar_element(),
{
    Element::Grammar(Grammar::nothing())
}

/// The BigQuery element `AccessorGrammar`.
pub open spec fn accessor_grammar_element() -> ElementView {
    ElementView::Grammar(GrammarView::AnyNumberOf { elements: seq![GrammarView::Ref { name: "ArrayAccessorSegment"@, optional: false }, GrammarView::Ref { name: "SemiStructuredAccessorSegment"@, optional: false }], terminators: seq![], min_times: 0, max_times: None })
}

fn build_accessor_grammar() -> (e: Element)
    ensures
        e@ =~~= accessor_grammar_element(),
{
    let g1: Vec<Grammar> = vec![Grammar::reference("ArrayAccessorSegment"), Grammar::reference("SemiStructuredAccessorSegment")];
    assert(views(g1@) =~~= seq![GrammarView::Ref { name: "ArrayAccessorSegment"@, optional: false }, GrammarView::Ref { name: "SemiStructuredAccessorSegment"@, optional: false }]);
    let g2: Vec<Grammar> = Vec::new();
    assert(views(g2@) =~= Seq::<GrammarView>::empty());
    let g3 = Grammar::any_number_of_with(g1, g2, 0, None);
    Element::Grammar(g3)
}

/// The BigQuery element `MergeIntoLiteralGrammar`.
pub open spec fn merge_into_literal_grammar_element() -> ElementView {
    ElementView::Grammar(GrammarView::Sequence { elements: seq![GrammarView::Keyword { word: "MERGE"@ }, GrammarView::Optional { grammar: Box::new(GrammarView::Keyword { word: "INTO"@ }) }], terminators: seq![], parse_mode: ParseMode::Strict })
}

fn build_merge_into_literal_grammar() -> (e: Element)
    ensures
        e@ =~~= merge_into_literal_grammar_element(),
{
    let g1 = Grammar::keyword("INTO").optional();
    let g2: Vec<Grammar> = vec![Grammar::keyword("MERGE"), g1];
    assert(views(g2@) =~~= seq![GrammarView::Keyword { word: "MERGE"@ }, GrammarView::Optional { grammar: Box::new(GrammarView::Keyword { word: "INTO"@ }) }]);
    let g3: Vec<Grammar> = Vec::new();
    assert(views(g3@) =~= Seq::<GrammarView>::empty());
    let g4 = Grammar::sequence_with(g2, g3, ParseMode::Strict);
    Element::Grammar(g4)
}

/// The BigQuery element `PrimaryKeyGrammar`.
pub open spec fn primary_key_grammar_element() -> ElementView {
    ElementView::Grammar(GrammarView::Nothing)
}

fn build_primary_key_grammar() -> (e: Element)
    ensures
        e@ =~~= primary_key_grammar_element(),
{
    Element::Grammar(Grammar::nothing())
}

/// The BigQuery element `ForeignKeyGrammar`.
pub open spec fn foreign_key_grammar_element() -> ElementView {
    ElementView::Grammar(GrammarView::Nothing)
}

fn build_foreign_key_grammar() -> (e: Element)
    ensures
        e@ =~~= foreign_key_grammar_element(),
{
    Element::Grammar(Grammar::nothing())
}

/// The BigQuery element `ProcedureParameterListSegment`.
pub open spec fn procedure_parameter_list_segment_element() -> ElementView {
    ElementView::Node { kind: "procedure_parameter_list"@, grammar: GrammarView::Bracketed { elements: seq![GrammarView::Optional { grammar: Box::new(GrammarView::Delimited { elements: seq![GrammarView::Ref { name: "ProcedureParameterGrammar"@, optional: false }], allow_trailing: false, delimiter: None, terminators: seq![], allow_gaps: true }) }], bracket_type: "round"@ } }
}

fn build_procedure_parameter_list_segment() -> (e: Element)
    ensures
        e@ =~~= procedure_parameter_list_segment_element(),
{
    let g1: Vec<Grammar> = vec![Grammar::reference("ProcedureParameterGrammar")];
    assert(views(g1@) =~~= seq![GrammarView::Ref { name: "ProcedureParameterGrammar"@, optional: false }]);
    let g2: Vec<Grammar> = Vec::new();
    assert(views(g2@) =~= Seq::<GrammarView>::empty());
    let g3 = Grammar::delimited_with(g1, false, None, g2, true);
    let g4 = g3.optional();
    let g5: Vec<Grammar> = vec![g4];
    assert(views(g5@) =~~= seq![GrammarView::Optional { grammar: Box::new(GrammarView::Delimited { elements: seq![GrammarView::Ref { name: "ProcedureParameterGrammar"@, optional: false }], allow_trailing: false, delimiter: None, terminators: seq![], allow_gaps: true }) }]);
    let g6 = Grammar::bracketed_with(g5, "round");
    Element::Node { kind: "procedure_parameter_list", grammar: g6 }
}

/// The BigQuery element `ProcedureStatements`.
pub open spec fn procedure_statements_element() -> ElementView {
    ElementView::Node { kind: "procedure_statements"@, grammar: GrammarView::InMode { grammar: Box::new(GrammarView::AnyNumberOf { elements: seq![GrammarView::Sequence { elements: seq![GrammarView::Ref { name: "StatementSegment"@, optional: false }, GrammarView::Ref { name: "DelimiterGrammar"@, optional: false }], terminators: seq![], parse_mode: ParseMode::Strict }], terminators: seq![GrammarView::Keyword { word: "END"@ }], min_times: 0, max_times: None }), parse_mode: ParseMode::Greedy } }
}

fn build_procedure_statements() -> (e: Element)
    ensures
        e@ =~~= procedure_statements_element(),
{
    let g1: Vec<Grammar> = vec![Grammar::reference("StatementSegment"), Grammar::reference("DelimiterGrammar")];
    assert(views(g1@) =~~= seq![GrammarView::Ref { name: "StatementSegment"@, optional: false }, GrammarView::Ref { name: "DelimiterGrammar"@, optional: false }]);
    let g2: Vec<Grammar> = Vec::new();
    assert(views(g2@) =~= Seq::<GrammarView>::empty());
    let g3 = Grammar::sequence_with(g1, g2, ParseMode::Strict);
    let g4: Vec<Grammar> = vec![g3];
    assert(views(g4@) =~~= seq![GrammarView::Sequence { elements: seq![GrammarView::Ref { name: "StatementSegment"@, optional: false }, GrammarView::Ref { name: "DelimiterGrammar"@, optional: false }], terminators: seq![], parse_mode: ParseMode::Strict }]);
    let g5: Vec<Grammar> = vec![Grammar::keyword("END")];
    assert(views(g5@) =~~= seq![GrammarView::Keyword { word: "END"@ }]);
    let g6 = Grammar::any_number_of_with(g4, g5, 0, None);
    let g7 = g6.in_mode(ParseMode::Greedy);
    Element::Node { kind: "procedure_statements", grammar: g7 }
}

/// The BigQuery element `CreateProcedureStatementSegment`.
pub open spec fn create_procedure_statement_segment_element() -> ElementView {
    ElementView::Node { kind: "create_procedure_statement"@, grammar: GrammarView::Sequence { elements: seq![GrammarView::Keyword { word: "CREATE"@ }, GrammarView::Ref { name: "OrReplaceGrammar"@, optional: true }, GrammarView::Keyword { word: "PROCEDURE"@ }, GrammarView::Ref { name: "IfNotExistsGrammar"@, optional: true }, GrammarView::Ref { name: "ProcedureNameSegment"@, optional: false }, GrammarView::Ref { name: "ProcedureParameterListSegment"@, optional: false }, GrammarView::Optional { grammar: Box::new(GrammarView::Sequence { elements: seq![GrammarView::Keyword { word: "OPTIONS"@ }, GrammarView::Keyword { word: "STRICT_MODE"@ }, GrammarView::StringParser { template: "strict_mode"@, kind: "procedure_option"@ }, GrammarView::Ref { name: "EqualsSegment"@, optional: false }, GrammarView::Ref { name: "BooleanLiteralGrammar"@, optional: true }], terminators: seq![], parse_mode: ParseMode::Strict }) }, GrammarView::Keyword { word: "BEGIN"@ }, GrammarView::Indent, GrammarView::Ref { name: "ProcedureStatements"@, optional: false }, GrammarView::Dedent, GrammarView::Keyword { word: "END"@ }], terminators: seq![], parse_mode: ParseMode::Strict } }
}

fn build_create_procedure_statement_segment() -> (e: Element)
    ensures
        e@ =~~= create_procedure_statement_segment_element(),
{
    let g1: Vec<Grammar> = vec![Grammar::keyword("OPTIONS"), Grammar::keyword("STRICT_MODE"), Grammar::string_parser("strict_mode", "procedure_option"), Grammar::reference("EqualsSegment"), Grammar::optional_reference("BooleanLiteralGrammar")];
    assert(views(g1@) =~~= seq![GrammarView::Keyword { word: "OPTIONS"@ }, GrammarView::Keyword { word: "STRICT_MODE"@ }, GrammarView::StringParser { template: "strict_mode"@, kind: "procedure_option"@ }, GrammarView::Ref { name: "EqualsSegment"@, optional: false }, GrammarView::Ref { name: "BooleanLiteralGrammar"@, optional: true }]);
    let g2: Vec<Grammar> = Vec::new();
    assert(views(g2@) =~= Seq::<GrammarView>::empty());
    let g3 = Grammar::sequence_with(g1, g2, ParseMode::Strict);
    let g4 = g3.optional();
    let g5: Vec<Grammar> = vec![Grammar::keyword("CREATE"), Grammar::optional_reference("OrReplaceGrammar"), Grammar::keyword("PROCEDURE"), Grammar::optional_reference("IfNotExistsGrammar"), Grammar::reference("ProcedureNameSegment"), Grammar::reference("ProcedureParameterListSegment"), g4, Grammar::keyword("BEGIN"), Grammar::indent(), Grammar::reference("ProcedureStatements"), Grammar::dedent(), Grammar::keyword("END")];
    assert(views(g5@) =~~= seq![GrammarView::Keyword { word: "CREATE"@ }, GrammarView::Ref { name: "OrReplaceGrammar"@, optional: true }, GrammarView::Keyword { word: "PROCEDURE"@ }, GrammarView::Ref { name: "IfNotExistsGrammar"@, optional: true }, GrammarView::Ref { name: "ProcedureNameSegment"@, optional: false }, GrammarView::Ref { name: "ProcedureParameterListSegment"@, optional: false }, GrammarView::Optional { grammar: Box::new(GrammarView::Sequence { elements: seq![GrammarView::Keyword { word: "OPTIONS"@ }, GrammarView::Keyword { word: "STRICT_MODE"@ }, GrammarView::StringParser { template: "strict_mode"@, kind: "procedure_option"@ }, GrammarView::Ref { name: "EqualsSegment"@, optional: false }, GrammarView::Ref { name: "BooleanLiteralGrammar"@, optional: true }], terminators: seq![], parse_mode: ParseMode::Strict }) }, GrammarView::Keyword { word: "BEGIN"@ }, GrammarView::Indent, GrammarView::Ref { name: "ProcedureStatements"@, optional: false }, GrammarView::Dedent, GrammarView::Keyword { word: "END"@ }]);
    let g6: Vec<Grammar> = Vec::new();
    assert(views(g6@) =~= Seq::<GrammarView>::empty());
    let g7 = Grammar::sequence_with(g5, g6, ParseMode::Strict);
    Element::Node { kind: "create_procedure_statement", grammar: g7 }
}

/// The BigQuery element `CallStatementSegment`.
pub open spec fn call_statement_segment_element() -> ElementView {
    ElementView::Node { kind: "call_statement"@, grammar: GrammarView::Sequence { elements: seq![GrammarView::Keyword { word: "CALL"@ }, GrammarView::Ref { name: "ProcedureNameSegment"@, optional: false }, GrammarView::Bracketed { elements: seq![GrammarView::Optional { grammar: Box::new(GrammarView::Delimited { elements: seq![GrammarView::Ref { name: "ExpressionSegment"@, optional: false }], allow_trailing: false, delimiter: None, terminators: seq![], allow_gaps: true }) }], bracket_type: "round"@ }], terminators: seq![], parse_mode: ParseMode::Strict } }
}

fn build_call_statement_segment() -> (e: Element)
    ensures
        e@ =~~= call_statement_segment_element(),
{
    let g1: Vec<Grammar> = vec![Grammar::reference("ExpressionSegment")];
    assert(views(g1@) =~~= seq![GrammarView::Ref { name: "ExpressionSegment"@, optional: false }]);
    let g2: Vec<Grammar> = Vec::new();
    assert(views(g2@) =~= Seq::<GrammarView>::empty());
    let g3 = Grammar::delimited_with(g1, false, None, g2, true);
    let g4 = g3.optional();
    let g5: Vec<Grammar> = vec![g4];
    assert(views(g5@) =~~= seq![GrammarView::Optional { grammar: Box::new(GrammarView::Delimited { elements: seq![GrammarView::Ref { name: "ExpressionSegment"@, optional: false }], allow_trailing: false, delimiter: None, terminators: seq![], allow_gaps: true }) }]);
    let g6 = Grammar::bracketed_with(g5, "round");
    let g7: Vec<Grammar> = vec![Grammar::keyword("CALL"), Grammar::reference("ProcedureNameSegment"), g6];
    assert(views(g7@) =~~= seq![GrammarView::Keyword { word: "CALL"@ }, GrammarView::Ref { name: "ProcedureNameSegment"@, optional: false }, GrammarView::Bracketed { elements: seq![GrammarView::Optional { grammar: Box::new(GrammarView::Delimited { elements: seq![GrammarView::Ref { name: "ExpressionSegment"@, optional: false }], allow_trailing: false, delimiter: None, terminators: seq![], allow_gaps: true }) }], bracket_type: "round"@ }]);
    let g8: Vec<Grammar> = Vec::new();
    assert(views(g8@) =~= Seq::<GrammarView>::empty());
    let g9 = Grammar::sequence_with(g7, g8, ParseMode::Strict);
    Element::Node { kind: "call_statement", grammar: g9 }
}

/// The BigQuery element `ReturnStatementSegment`.
pub open spec fn return_statement_segment_element() -> ElementView {
    ElementView::Node { kind: "return_statement"@, grammar: GrammarView::Sequence { elements: seq![GrammarView::Keyword { word: "RETURN"@ }], terminators: seq![], parse_mode: ParseMode::Strict } }
}

fn build_return_statement_segment() -> (e: Element)
    ensures
        e@ =~~= return_statement_segment_element(),
{
    let g1: Vec<Grammar> = vec![Grammar::keyword("RETURN")];
    assert(views(g1@) =~~= seq![GrammarView::Keyword { word: "RETURN"@ }]);
    let g2: Vec<Grammar> = Vec::new();
    assert(views(g2@) =~= Seq::<GrammarView>::empty());
    let g3 = Grammar::sequence_with(g1, g2, ParseMode::Strict);
    Element::Node { kind: "return_statement", grammar: g3 }
}

/// The BigQuery element `BreakStatementSegment`.
pub open spec fn break_statement_segment_element() -> ElementView {
    ElementView::Node { kind: "break_statement"@, grammar: GrammarView::Sequence { elements: seq![GrammarView::Keyword { word: "BREAK"@ }], terminators: seq![], parse_mode: ParseMode::Strict } }
}

fn build_break_statement_segment() -> (e: Element)
    ensures
        e@ =~~= break_statement_segment_element(),
{
    let g1: Vec<Grammar> = vec![Grammar::keyword("BREAK")];
    assert(views(g1@) =~~= seq![GrammarView::Keyword { word: "BREAK"@ }]);
    let g2: Vec<Grammar> = Vec::new();
    assert(views(g2@) =~= Seq::<GrammarView>::empty());
    let g3 = Grammar::sequence_with(g1, g2, ParseMode::Strict);
    Element::Node { kind: "break_statement", grammar: g3 }
}

/// The BigQuery element `LeaveStatementSegment`.
pub open spec fn leave_statement_segment_element() -> ElementView {
    ElementView::Node { kind: "leave_statement"@, grammar: GrammarView::Sequence { elements: seq![GrammarView::Keyword { word: "LEAVE"@ }], terminators: seq![], parse_mode: ParseMode::Strict } }
}

fn build_leave_statement_segment() -> (e: Element)
    ensures
        e@ =~~= leave_statement_segment_element(),
{
    let g1: Vec<Grammar> = vec![Grammar::keyword("LEAVE")];
    assert(views(g1@) =~~= seq![GrammarView::Keyword { word: "LEAVE"@ }]);
    let g2: Vec<Grammar> = Vec::new();
    assert(views(g2@) =~= Seq::<GrammarView>::empty());
    let g3 = Grammar::sequence_with(g1, g2, ParseMode::Strict);
    Element::Node { kind: "leave_statement", grammar: g3 }
}

/// The BigQuery element `ContinueStatementSegment`.
pub open spec fn continue_statement_segment_element() -> ElementView {
    ElementView::Node { kind: "continue_statement"@, grammar: GrammarView::OneOf { elements: seq![GrammarView::Keyword { word: "CONTINUE"@ }, GrammarView::Keyword { word: "ITERATE"@ }], terminators: seq![] } }
}

fn build_continue_statement_segment() -> (e: Element)
    ensures
        e@ =~~= continue_statement_segment_element(),
{
    let g1: Vec<Grammar> = vec![Grammar::keyword("CONTINUE"), Grammar::keyword("ITERATE")];
    assert(views(g1@) =~~= seq![GrammarView::Keyword { word: "CONTINUE"@ }, GrammarView::Keyword { word: "ITERATE"@ }]);
    let g2: Vec<Grammar> = Vec::new();
    assert(views(g2@) =~= Seq::<GrammarView>::empty());
    let g3 = Grammar::one_of_with(g1, g2);
    Element::Node { kind: "continue_statement", grammar: g3 }
}

/// The BigQuery element `RaiseStatementSegment`.
pub open spec fn raise_statement_segment_element() -> ElementView {
    ElementView::Node { kind: "raise_statement"@, grammar: GrammarView::Sequence { elements: seq![GrammarView::Keyword { word: "RAISE"@ }, GrammarView::Optional { grammar: Box::new(GrammarView::Sequence { elements: seq![GrammarView::Keyword { word: "USING"@ }, GrammarView::Keyword { word: "MESSAGE"@ }, GrammarView::Ref { name: "EqualsSegment"@, optional: false }, GrammarView::Ref { name: "ExpressionSegment"@, optional: true }], terminators: seq![], parse_mode: ParseMode::Strict }) }], terminators: seq![], parse_mode: ParseMode::Strict } }
}

fn build_raise_statement_segment() -> (e: Element)
    ensures
        e@ =~~= raise_statement_segment_element(),
{
    let g1: Vec<Grammar> = vec![Grammar::keyword("USING"), Grammar::keyword("MESSAGE"), Grammar::reference("EqualsSegment"), Grammar::optional_reference("ExpressionSegment")];
    assert(views(g1@) =~~= seq![GrammarView::Keyword { word: "USING"@ }, GrammarView::Keyword { word: "MESSAGE"@ }, GrammarView::Ref { name: "EqualsSegment"@, optional: false }, GrammarView::Ref { name: "ExpressionSegment"@, optional: true }]);
    let g2: Vec<Grammar> = Vec::new();
    assert(views(g2@) =~= Seq::<GrammarView>::empty());
    let g3 = Grammar::sequence_with(g1, g2, ParseMode::Strict);
    let g4 = g3.optional();
    let g5: Vec<Grammar> = vec![Grammar::keyword("RAISE"), g4];
    assert(views(g5@) =~~= seq![GrammarView::Keyword { word: "RAISE"@ }, GrammarView::Optional { grammar: Box::new(GrammarView::Sequence { elements: seq![GrammarView::Keyword { word: "USING"@ }, GrammarView::Keyword { word: "MESSAGE"@ }, GrammarView::Ref { name: "EqualsSegment"@, optional: false }, GrammarView::Ref { name: "ExpressionSegment"@, optional: true }], terminators: seq![], parse_mode: ParseMode::Strict }) }]);
    let g6: Vec<Grammar> = Vec::new();
    assert(views(g6@) =~= Seq::<GrammarView>::empty());
    let g7 = Grammar::sequence_with(g5, g6, ParseMode::Strict);
    Element::Node { kind: "raise_statement", grammar: g7 }
}

/// The BigQuery element `QualifyClauseSegment`.
pub open spec fn qualify_clause_segment_element() -> ElementView {
    ElementView::Node { kind: "qualify_clause"@, grammar: GrammarView::Sequence { elements: seq![GrammarView::Keyword { word: "QUALIFY"@ }, GrammarView::Indent, GrammarView::OneOf { elements: seq![GrammarView::Bracketed { elements: seq![GrammarView::Ref { name: "ExpressionSegment"@, optional: false }], bracket_type: "round"@ }, GrammarView::Ref { name: "ExpressionSegment"@, optional: false }], terminators: seq![] }, GrammarView::Dedent], terminators: seq![], parse_mode: ParseMode::Strict } }
}

fn build_qualify_clause_segment() -> (e: Element)
    ensures
        e@ =~~= qualify_clause_segment_element(),
{
    let g1: Vec<Grammar> = vec![Grammar::reference("ExpressionSegment")];
    assert(views(g1@) =~~= seq![GrammarView::Ref { name: "ExpressionSegment"@, optional: false }]);
    let g2 = Grammar::bracketed_with(g1, "round");
    let g3: Vec<Grammar> = vec![g2, Grammar::reference("ExpressionSegment")];
    assert(views(g3@) =~~= seq![GrammarView::Bracketed { elements: seq![GrammarView::Ref { name: "ExpressionSegment"@, optional: false }], bracket_type: "round"@ }, GrammarView::Ref { name: "ExpressionSegment"@, optional: false }]);
    let g4: Vec<Grammar> = Vec::new();
    assert(views(g4@) =~= Seq::<GrammarView>::empty());
    let g5 = Grammar::one_of_with(g3, g4);
    let g6: Vec<Grammar> = vec![Grammar::keyword("QUALIFY"), Grammar::indent(), g5, Grammar::dedent()];
    assert(views(g6@) =~~= seq![GrammarView::Keyword { word: "QUALIFY"@ }, GrammarView::Indent, GrammarView::OneOf { elements: seq![GrammarView::Bracketed { elements: seq![GrammarView::Ref { name: "ExpressionSegment"@, optional: false }], bracket_type: "round"@ }, GrammarView::Ref { name: "ExpressionSegment"@, optional: false }], terminators: seq![] }, GrammarView::Dedent]);
    let g7: Vec<Grammar> = Vec::new();
    assert(views(g7@) =~= Seq::<GrammarView>::empty());
    let g8 = Grammar::sequence_with(g6, g7, ParseMode::Strict);
    Element::Node { kind: "qualify_clause", grammar: g8 }
}

/// The BigQuery element `SetOperatorSegment`.
pub open spec fn set_operator_segment_element() -> ElementView {
    ElementView::Node { kind: "set_operator"@, grammar: GrammarView::OneOf { elements: seq![GrammarView::Sequence { elements: seq![GrammarView::Keyword { word: "UNION"@ }, GrammarView::OneOf { elements: seq![GrammarView::Keyword { word: "DISTINCT"@ }, GrammarView::Keyword { word: "ALL"@ }], terminators: seq![] }], terminators: seq![], parse_mode: ParseMode::Strict }, GrammarView::Sequence { elements: seq![GrammarView::Keyword { word: "INTERSECT"@ }, GrammarView::Keyword { word: "DISTINCT"@ }], terminators: seq![], parse_mode: ParseMode::Strict }, GrammarView::Sequence { elements: seq![GrammarView::Keyword { word: "EXCEPT"@ }, GrammarView::Keyword { word: "DISTINCT"@ }], terminators: seq![], parse_mode: ParseMode::Strict }], terminators: seq![] } }
}

fn build_set_operator_segment() -> (e: Element)
    ensures
        e@ =~~= set_operator_segment_element(),
{
    let g1: Vec<Grammar> = vec![Grammar::keyword("DISTINCT"), Grammar::keyword("ALL")];
    assert(views(g1@) =~~= seq![GrammarView::Keyword { word: "DISTINCT"@ }, GrammarView::Keyword { word: "ALL"@ }]);
    let g2: Vec<Grammar> = Vec::new();
    assert(views(g2@) =~= Seq::<GrammarView>::empty());
    let g3 = Grammar::one_of_with(g1, g2);
    let g4: Vec<Grammar> = vec![Grammar::keyword("UNION"), g3];
    assert(views(g4@) =~~= seq![GrammarView::Keyword { word: "UNION"@ }, GrammarView::OneOf { elements: seq![GrammarView::Keyword { word: "DISTINCT"@ }, GrammarView::Keyword { word: "ALL"@ }], terminators: seq![] }]);
    let g5: Vec<Grammar> = Vec::new();
    assert(views(g5@) =~= Seq::<GrammarView>::empty());
    let g6 = Grammar::sequence_with(g4, g5, ParseMode::Strict);
    let g7: Vec<Grammar> = vec![Grammar::keyword("INTERSECT"), Grammar::keyword("DISTINCT")];
    assert(views(g7@) =~~= seq![GrammarView::Keyword { word: "INTERSECT"@ }, GrammarView::Keyword { word: "DISTINCT"@ }]);
    let g8: Vec<Grammar> = Vec::new();
    assert(views(g8@) =~= Seq::<GrammarView>::empty());
    let g9 = Grammar::sequence_with(g7, g8, ParseMode::Strict);
    let g10: Vec<Grammar> = vec![Grammar::keyword("EXCEPT"), Grammar::keyword("DISTINCT")];
    assert(views(g10@) =~~= seq![GrammarView::Keyword { word: "EXCEPT"@ }, GrammarView::Keyword { word: "DISTINCT"@ }]);
    let g11: Vec<Grammar> = Vec::new();
    assert(views(g11@) =~= Seq::<GrammarView>::empty());
    let g12 = Grammar::sequence_with(g10, g11, ParseMode::Strict);
    let g13: Vec<Grammar> = vec![g6, g9, g12];
    assert(views(g13@) =~~= seq![GrammarView::Sequence { elements: seq![GrammarView::Keyword { word: "UNION"@ }, GrammarView::OneOf { elements: seq![GrammarView::Keyword { word: "DISTINCT"@ }, GrammarView::Keyword { word: "ALL"@ }], terminators: seq![] }], terminators: seq![], parse_mode: ParseMode::Strict }, GrammarView::Sequence { elements: seq![GrammarView::Keyword { word: "INTERSECT"@ }, GrammarView::Keyword { word: "DISTINCT"@ }], terminators: seq![], parse_mode: ParseMode::Strict }, GrammarView::Sequence { elements: seq![GrammarView::Keyword { word: "EXCEPT"@ }, GrammarView::Keyword { word: "DISTINCT"@ }], terminators: seq![], parse_mode: ParseMode::Strict }]);
    let g14: Vec<Grammar> = Vec::new();
    assert(views(g14@) =~= Seq::<GrammarView>::empty());
    let g15 = Grammar::one_of_with(g13, g14);
    Element::Node { kind: "set_operator", grammar: g15 }
}

/// The BigQuery grammar of `SetExpressionSegment`.
pub open spec fn set_expression_segment_grammar() -> GrammarView {
    GrammarView::Sequence { elements: seq![GrammarView::OneOf { elements: seq![GrammarView::Ref { name: "NonSetSelectableGrammar"@, optional: false }, GrammarView::Bracketed { elements: seq![GrammarView::Ref { name: "SetExpressionSegment"@, optional: false }], bracket_type: "round"@ }], terminators: seq![] }, GrammarView::AnyNumberOf { elements: seq![GrammarView::Sequence { elements: seq![GrammarView::Ref { name: "SetOperatorSegment"@, optional: false }, GrammarView::OneOf { elements: seq![GrammarView::Ref { name: "NonSetSelectableGrammar"@, optional: false }, GrammarView::Bracketed { elements: seq![GrammarView::Ref { name: "SetExpressionSegment"@, optional: false }], bracket_type: "round"@ }], terminators: seq![] }], terminators: seq![], parse_mode: ParseMode::Strict }], terminators: seq![], min_times: 1, max_times: None }, GrammarView::Ref { name: "OrderByClauseSegment"@, optional: true }, GrammarView::Ref { name: "LimitClauseSegment"@, optional: true }, GrammarView::Ref { name: "NamedWindowSegment"@, optional: true }], terminators: seq![], parse_mode: ParseMode::Strict }
}

fn build_set_expression_segment() -> (g: Grammar)
    ensures
        g@ =~~= set_expression_segment_grammar(),
{
    let g1: Vec<Grammar> = vec![Grammar::reference("SetExpressionSegment")];
    assert(views(g1@) =~~= seq![GrammarView::Ref { name: "SetExpressionSegment"@, optional: false }]);
    let g2 = Grammar::bracketed_with(g1, "round");
    let g3: Vec<Grammar> = vec![Grammar::reference("NonSetSelectableGrammar"), g2];
    assert(views(g3@) =~~= seq![GrammarView::Ref { name: "NonSetSelectableGrammar"@, optional: false }, GrammarView::Bracketed { elements: seq![GrammarView::Ref { name: "SetExpressionSegment"@, optional: false }], bracket_type: "round"@ }]);
    let g4: Vec<Grammar> = Vec::new();
    assert(views(g4@) =~= Seq::<GrammarView>::empty());
    let g5 = Grammar::one_of_with(g3, g4);
    let g6: Vec<Grammar> = vec![Grammar::reference("SetExpressionSegment")];
    assert(views(g6@) =~~= seq![GrammarView::Ref { name: "SetExpressionSegment"@, optional: false }]);
    let g7 = Grammar::bracketed_with(g6, "round");
    let g8: Vec<Grammar> = vec![Grammar::reference("NonSetSelectableGrammar"), g7];
    assert(views(g8@) =~~= seq![GrammarView::Ref { name: "NonSetSelectableGrammar"@, optional: false }, GrammarView::Bracketed { elements: seq![GrammarView::Ref { name: "SetExpressionSegment"@, optional: false }], bracket_type: "round"@ }]);
    let g9: Vec<Grammar> = Vec::new();
    assert(views(g9@) =~= Seq::<GrammarView>::empty());
    let g10 = Grammar::one_of_with(g8, g9);
    let g11: Vec<Grammar> = vec![Grammar::reference("SetOperatorSegment"), g10];
    assert(views(g11@) =~~= seq![GrammarView::Ref { name: "SetOperatorSegment"@, optional: false }, GrammarView::OneOf { elements: seq![GrammarView::Ref { name: "NonSetSelectableGrammar"@, optional: false }, GrammarView::Bracketed { elements: seq![GrammarView::Ref { name: "SetExpressionSegment"@, optional: false }], bracket_type: "round"@ }], terminators: seq![] }]);
    let g12: Vec<Grammar> = Vec::new();
    assert(views(g12@) =~= Seq::<GrammarView>::empty());
    let g13 = Grammar::sequence_with(g11, g12, ParseMode::Strict);
    let g14: Vec<Grammar> = vec![g13];
    assert(views(g14@) =~~= seq![GrammarView::Sequence { elements: seq![GrammarView::Ref { name: "SetOperatorSegment"@, optional: false }, GrammarView::OneOf { elements: seq![GrammarView::Ref { name: "NonSetSelectableGrammar"@, optional: false }, GrammarView::Bracketed { elements: seq![GrammarView::Ref { name: "SetExpressionSegment"@, optional: false }], bracket_type: "round"@ }], terminators: seq![] }], terminators: seq![], parse_mode: ParseMode::Strict }]);
    let g15: Vec<Grammar> = Vec::new();
    assert(views(g15@) =~= Seq::<GrammarView>::empty());
    let g16 = Grammar::any_number_of_with(g14, g15, 1, None);
    let g17: Vec<Grammar> = vec![g5, g16, Grammar::optional_reference("OrderByClauseSegment"), Grammar::optional_reference("LimitClauseSegment"), Grammar::optional_reference("NamedWindowSegment")];
    assert(views(g17@) =~~= seq![GrammarView::OneOf { elements: seq![GrammarView::Ref { name: "NonSetSelectableGrammar"@, optional: false }, GrammarView::Bracketed { elements: seq![GrammarView::Ref { name: "SetExpressionSegment"@, optional: false }], bracket_type: "round"@ }], terminators: seq![] }, GrammarView::AnyNumberOf { elements: seq![GrammarView::Sequence { elements: seq![GrammarView::Ref { name: "SetOperatorSegment"@, optional: false }, GrammarView::OneOf { elements: seq![GrammarView::Ref { name: "NonSetSelectableGrammar"@, optional: false }, GrammarView::Bracketed { elements: seq![GrammarView::Ref { name: "SetExpressionSegment"@, optional: false }], bracket_type: "round"@ }], terminators: seq![] }], terminators: seq![], parse_mode: ParseMode::Strict }], terminators: seq![], min_times: 1, max_times: None }, GrammarView::Ref { name: "OrderByClauseSegment"@, optional: true }, GrammarView::Ref { name: "LimitClauseSegment"@, optional: true }, GrammarView::Ref { name: "NamedWindowSegment"@, optional: true }]);
    let g18: Vec<Grammar> = Vec::new();
    assert(views(g18@) =~= Seq::<GrammarView>::empty());
    let g19 = Grammar::sequence_with(g17, g18, ParseMode::Strict);
    g19
}

/// The BigQuery grammar of `UnorderedSelectStatementSegment`.
pub open spec fn unordered_select_statement_segment_grammar() -> GrammarView {
    (GrammarView::Sequence { elements: seq![GrammarView::Ref { name: "SelectClauseSegment"@, optional: false }, GrammarView::Dedent, GrammarView::Ref { name: "FromClauseSegment"@, optional: true }, GrammarView::Ref { name: "WhereClauseSegment"@, optional: true }, GrammarView::Ref { name: "GroupByClauseSegment"@, optional: true }, GrammarView::Ref { name: "HavingClauseSegment"@, optional: true }, GrammarView::Ref { name: "OverlapsClauseSegment"@, optional: true }, GrammarView::Ref { name: "NamedWindowSegment"@, optional: true }], terminators: seq![GrammarView::Ref { name: "SetOperatorSegment"@, optional: false }, GrammarView::Ref { name: "WithNoSchemaBindingClauseSegment"@, optional: false }, GrammarView::Ref { name: "WithDataClauseSegment"@, optional: false }, GrammarView::Ref { name: "OrderByClauseSegment"@, optional: false }, GrammarView::Ref { name: "LimitClauseSegment"@, optional: false }], parse_mode: ParseMode::GreedyOnceStarted }).copied(Some(seq![GrammarView::Ref { name: "QualifyClauseSegment"@, optional: true }]), None, Some(GrammarView::Ref { name: "OverlapsClauseSegment"@, optional: true }), None, seq![], false)
}

fn build_unordered_select_statement_segment() -> (g: Grammar)
    ensures
        g@ =~~= unordered_select_statement_segment_grammar(),
{
    let g1: Vec<Grammar> = vec![Grammar::reference("SelectClauseSegment"), Grammar::dedent(), Grammar::optional_reference("FromClauseSegment"), Grammar::optional_reference("WhereClauseSegment"), Grammar::optional_reference("GroupByClauseSegment"), Grammar::optional_reference("HavingClauseSegment"), Grammar::optional_reference("OverlapsClauseSegment"), Grammar::optional_reference("NamedWindowSegment")];
    assert(views(g1@) =~~= seq![GrammarView::Ref { name: "SelectClauseSegment"@, optional: false }, GrammarView::Dedent, GrammarView::Ref { name: "FromClauseSegment"@, optional: true }, GrammarView::Ref { name: "WhereClauseSegment"@, optional: true }, GrammarView::Ref { name: "GroupByClauseSegment"@, optional: true }, GrammarView::Ref { name: "HavingClauseSegment"@, optional: true }, GrammarView::Ref { name: "OverlapsClauseSegment"@, optional: true }, GrammarView::Ref { name: "NamedWindowSegment"@, optional: true }]);
    let g2: Vec<Grammar> = vec![Grammar::reference("SetOperatorSegment"), Grammar::reference("WithNoSchemaBindingClauseSegment"), Grammar::reference("WithDataClauseSegment"), Grammar::reference("OrderByClauseSegment"), Grammar::reference("LimitClauseSegment")];
    assert(views(g2@) =~~= seq![GrammarView::Ref { name: "SetOperatorSegment"@, optional: false }, GrammarView::Ref { name: "WithNoSchemaBindingClauseSegment"@, optional: false }, GrammarView::Ref { name: "WithDataClauseSegment"@, optional: false }, GrammarView::Ref { name: "OrderByClauseSegment"@, optional: false }, GrammarView::Ref { name: "LimitClauseSegment"@, optional: false }]);
    let g3 = Grammar::sequence_with(g1, g2, ParseMode::GreedyOnceStarted);
    let g4 = g3;
    assert(g4@ =~~= GrammarView::Sequence { elements: seq![GrammarView::Ref { name: "SelectClauseSegment"@, optional: false }, GrammarView::Dedent, GrammarView::Ref { name: "FromClauseSegment"@, optional: true }, GrammarView::Ref { name: "WhereClauseSegment"@, optional: true }, GrammarView::Ref { name: "GroupByClauseSegment"@, optional: true }, GrammarView::Ref { name: "HavingClauseSegment"@, optional: true }, GrammarView::Ref { name: "OverlapsClauseSegment"@, optional: true }, GrammarView::Ref { name: "NamedWindowSegment"@, optional: true }], terminators: seq![GrammarView::Ref { name: "SetOperatorSegment"@, optional: false }, GrammarView::Ref { name: "WithNoSchemaBindingClauseSegment"@, optional: false }, GrammarView::Ref { name: "WithDataClauseSegment"@, optional: false }, GrammarView::Ref { name: "OrderByClauseSegment"@, optional: false }, GrammarView::Ref { name: "LimitClauseSegment"@, optional: false }], parse_mode: ParseMode::GreedyOnceStarted });
    let g5: Vec<Grammar> = vec![Grammar::optional_reference("QualifyClauseSegment")];
    assert(views(g5@) =~~= seq![GrammarView::Ref { name: "QualifyClauseSegment"@, optional: true }]);
    let g6 = Grammar::optional_reference("OverlapsClauseSegment");
    assert(g4@.elements()[6] =~~= g6@);
    let g7: Vec<Grammar> = Vec::new();
    assert(views(g7@) =~= Seq::<GrammarView>::empty());
    let g8 = g4.copy(Some(g5), None, Some(&g6), None, g7, false);
    g8
}

/// The BigQuery element `MultiStatementSegment`.
pub open spec fn multi_statement_segment_element() -> ElementView {
    ElementView::Node { kind: "multi_statement_segment"@, grammar: GrammarView::OneOf { elements: seq![GrammarView::Ref { name: "ForInStatementSegment"@, optional: false }, GrammarView::Ref { name: "RepeatStatementSegment"@, optional: false }, GrammarView::Ref { name: "WhileStatementSegment"@, optional: false }, GrammarView::Ref { name: "LoopStatementSegment"@, optional: false }, GrammarView::Ref { name: "IfStatementSegment"@, optional: false }, GrammarView::Ref { name: "CreateProcedureStatementSegment"@, optional: false }], terminators: seq![] } }
}

fn build_multi_statement_segment() -> (e: Element)
    ensures
        e@ =~~= multi_statement_segment_element(),
{
    let g1: Vec<Grammar> = vec![Grammar::reference("ForInStatementSegment"), Grammar::reference("RepeatStatementSegment"), Grammar::reference("WhileStatementSegment"), Grammar::reference("LoopStatementSegment"), Grammar::reference("IfStatementSegment"), Grammar::reference("CreateProcedureStatementSegment")];
    assert(views(g1@) =~~= seq![GrammarView::Ref { name: "ForInStatementSegment"@, optional: false }, GrammarView::Ref { name: "RepeatStatementSegment"@, optional: false }, GrammarView::Ref { name: "WhileStatementSegment"@, optional: false }, GrammarView::Ref { name: "LoopStatementSegment"@, optional: false }, GrammarView::Ref { name: "IfStatementSegment"@, optional: false }, GrammarView::Ref { name: "CreateProcedureStatementSegment"@, optional: false }]);
    let g2: Vec<Grammar> = Vec::new();
    assert(views(g2@) =~= Seq::<GrammarView>::empty());
    let g3 = Grammar::one_of_with(g1, g2);
    Element::Node { kind: "multi_statement_segment", grammar: g3 }
}

/// The BigQuery grammar of `FileSegment`.
pub open spec fn file_segment_grammar() -> GrammarView {
    GrammarView::Sequence { elements: seq![GrammarView::Sequence { elements: seq![GrammarView::OneOf { elements: seq![GrammarView::Ref { name: "MultiStatementSegment"@, optional: false }, GrammarView::Ref { name: "StatementSegment"@, optional: false }], terminators: seq![] }], terminators: seq![], parse_mode: ParseMode::Strict }, GrammarView::AnyNumberOf { elements: seq![GrammarView::Ref { name: "DelimiterGrammar"@, optional: false }, GrammarView::OneOf { elements: seq![GrammarView::Ref { name: "MultiStatementSegment"@, optional: false }, GrammarView::Ref { name: "StatementSegment"@, optional: false }], terminators: seq![] }], terminators: seq![], min_times: 0, max_times: None }, GrammarView::Ref { name: "DelimiterGrammar"@, optional: true }], terminators: seq![], parse_mode: ParseMode::Strict }
}

fn build_file_segment() -> (g: Grammar)
    ensures
        g@ =~~= file_segment_grammar(),
{
    let g1: Vec<Grammar> = vec![Grammar::reference("MultiStatementSegment"), Grammar::reference("StatementSegment")];
    assert(views(g1@) =~~= seq![GrammarView::Ref { name: "MultiStatementSegment"@, optional: false }, GrammarView::Ref { name: "StatementSegment"@, optional: false }]);
    let g2: Vec<Grammar> = Vec::new();
    assert(views(g2@) =~= Seq::<GrammarView>::empty());
    let g3 = Grammar::one_of_with(g1, g2);
    let g4: Vec<Grammar> = vec![g3];
    assert(views(g4@) =~~= seq![GrammarView::OneOf { elements: seq![GrammarView::Ref { name: "MultiStatementSegment"@, optional: false }, GrammarView::Ref { name: "StatementSegment"@, optional: false }], terminators: seq![] }]);
    let g5: Vec<Grammar> = Vec::new();
    assert(views(g5@) =~= Seq::<GrammarView>::empty());
    let g6 = Grammar::sequence_with(g4, g5, ParseMode::Strict);
    let g7: Vec<Grammar> = vec![Grammar::reference("MultiStatementSegment"), Grammar::reference("StatementSegment")];
    assert(views(g7@) =~~= seq![GrammarView::Ref { name: "MultiStatementSegment"@, optional: false }, GrammarView::Ref { name: "StatementSegment"@, optional: false }]);
    let g8: Vec<Grammar> = Vec::new();
    assert(views(g8@) =~= Seq::<GrammarView>::empty());
    let g9 = Grammar::one_of_with(g7, g8);
    let g10: Vec<Grammar> = vec![Grammar::reference("DelimiterGrammar"), g9];
    assert(views(g10@) =~~= seq![GrammarView::Ref { name: "DelimiterGrammar"@, optional: false }, GrammarView::OneOf { elements: seq![GrammarView::Ref { name: "MultiStatementSegment"@, optional: false }, GrammarView::Ref { name: "StatementSegment"@, optional: false }], terminators: seq![] }]);
    let g11: Vec<Grammar> = Vec::new();
    assert(views(g11@) =~= Seq::<GrammarView>::empty());
    let g12 = Grammar::any_number_of_with(g10, g11, 0, None);
    let g13: Vec<Grammar> = vec![g6, g12, Grammar::optional_reference("DelimiterGrammar")];
    assert(views(g13@) =~~= seq![GrammarView::Sequence { elements: seq![GrammarView::OneOf { elements: seq![GrammarView::Ref { name: "MultiStatementSegment"@, optional: false }, GrammarView::Ref { name: "StatementSegment"@, optional: false }], terminators: seq![] }], terminators: seq![], parse_mode: ParseMode::Strict }, GrammarView::AnyNumberOf { elements: seq![GrammarView::Ref { name: "DelimiterGrammar"@, optional: false }, GrammarView::OneOf { elements: seq![GrammarView::Ref { name: "MultiStatementSegment"@, optional: false }, GrammarView::Ref { name: "StatementSegment"@, optional: false }], terminators: seq![] }], terminators: seq![], min_times: 0, max_times: None }, GrammarView::Ref { name: "DelimiterGrammar"@, optional: true }]);
    let g14: Vec<Grammar> = Vec::new();
    assert(views(g14@) =~= Seq::<GrammarView>::empty());
    let g15 = Grammar::sequence_with(g13, g14, ParseMode::Strict);
    g15
}

/// The BigQuery grammar of `StatementSegment`.
pub open spec fn statement_segment_grammar() -> GrammarView {
    (GrammarView::OneOf { elements: seq![GrammarView::Ref { name: "SelectableGrammar"@, optional: false }, GrammarView::Ref { name: "MergeStatementSegment"@, optional: false }, GrammarView::Ref { name: "InsertStatementSegment"@, optional: false }, GrammarView::Ref { name: "TransactionStatementSegment"@, optional: false }, GrammarView::Ref { name: "DropTableStatementSegment"@, optional: false }, GrammarView::Ref { name: "DropViewStatementSegment"@, optional: false }, GrammarView::Ref { name: "CreateUserStatementSegment"@, optional: false }, GrammarView::Ref { name: "DropUserStatementSegment"@, optional: false }, GrammarView::Ref { name: "TruncateStatementSegment"@, optional: false }, GrammarView::Ref { name: "AccessStatementSegment"@, optional: false }, GrammarView::Ref { name: "CreateTableStatementSegment"@, optional: false }, GrammarView::Ref { name: "CreateRoleStatementSegment"@, optional: false }, GrammarView::Ref { name: "DropRoleStatementSegment"@, optional: false }, GrammarView::Ref { name: "AlterTableStatementSegment"@, optional: false }, GrammarView::Ref { name: "CreateSchemaStatementSegment"@, optional: false }, GrammarView::Ref { name: "SetSchemaStatementSegment"@, optional: false }, GrammarView::Ref { name: "DropSchemaStatementSegment"@, optional: false }, GrammarView::Ref { name: "DropTypeStatementSegment"@, optional: false }, GrammarView::Ref { name: "CreateDatabaseStatementSegment"@, optional: false }, GrammarView::Ref { name: "DropDatabaseStatementSegment"@, optional: false }, GrammarView::Ref { name: "CreateIndexStatementSegment"@, optional: false }, GrammarView::Ref { name: "DropIndexStatementSegment"@, optional: false }, GrammarView::Ref { name: "CreateViewStatementSegment"@, optional: false }, GrammarView::Ref { name: "DeleteStatementSegment"@, optional: false }, GrammarView::Ref { name: "UpdateStatementSegment"@, optional: false }, GrammarView::Ref { name: "CreateCastStatementSegment"@, optional: false }, GrammarView::Ref { name: "DropCastStatementSegment"@, optional: false }, GrammarView::Ref { name: "CreateFunctionStatementSegment"@, optional: false }, GrammarView::Ref { name: "DropFunctionStatementSegment"@, optional: false }, GrammarView::Ref { name: "CreateModelStatementSegment"@, optional: false }, GrammarView::Ref { name: "DropModelStatementSegment"@, optional: false }, GrammarView::Ref { name: "DescribeStatementSegment"@, optional: false }, GrammarView::Ref { name: "UseStatementSegment"@, optional: false }, GrammarView::Ref { name: "ExplainStatementSegment"@, optional: false }, GrammarView::Ref { name: "CreateSequenceStatementSegment"@, optional: false }, GrammarView::Ref { name: "AlterSequenceStatementSegment"@, optional: false }, GrammarView::Ref { name: "DropSequenceStatementSegment"@, optional: false }, GrammarView::Ref { name: "CreateTriggerStatementSegment"@, optional: false }, GrammarView::Ref { name: "DropTriggerStatementSegment"@, optional: false }], terminators: seq![GrammarView::Ref { name: "DelimiterGrammar"@, optional: false }] }).copied(Some(seq![GrammarView::Ref { name: "DeclareStatementSegment"@, optional: false }, GrammarView::Ref { name: "SetStatementSegment"@, optional: false }, GrammarView::Ref { name: "ExportStatementSegment"@, optional: false }, GrammarView::Ref { name: "CreateExternalTableStatementSegment"@, optional: false }, GrammarView::Ref { name: "AssertStatementSegment"@, optional: false }, GrammarView::Ref { name: "CallStatementSegment"@, optional: false }, GrammarView::Ref { name: "ReturnStatementSegment"@, optional: false }, GrammarView::Ref { name: "BreakStatementSegment"@, optional: false }, GrammarView::Ref { name: "LeaveStatementSegment"@, optional: false }, GrammarView::Ref { name: "ContinueStatementSegment"@, optional: false }, GrammarView::Ref { name: "RaiseStatementSegment"@, optional: false }, GrammarView::Ref { name: "AlterViewStatementSegment"@, optional: false }, GrammarView::Ref { name: "CreateMaterializedViewStatementSegment"@, optional: false }, GrammarView::Ref { name: "AlterMaterializedViewStatementSegment"@, optional: false }, GrammarView::Ref { name: "DropMaterializedViewStatementSegment"@, optional: false }]), None, None, None, seq![], false)
}

fn build_statement_segment() -> (g: Grammar)
    ensures
        g@ =~~= statement_segment_grammar(),
{
    let g1: Vec<Grammar> = vec![Grammar::reference("SelectableGrammar"), Grammar::reference("MergeStatementSegment"), Grammar::reference("InsertStatementSegment"), Grammar::reference("TransactionStatementSegment"), Grammar::reference("DropTableStatementSegment"), Grammar::reference("DropViewStatementSegment"), Grammar::reference("CreateUserStatementSegment"), Grammar::reference("DropUserStatementSegment"), Grammar::reference("TruncateStatementSegment"), Grammar::reference("AccessStatementSegment"), Grammar::reference("CreateTableStatementSegment"), Grammar::reference("CreateRoleStatementSegment"), Grammar::reference("DropRoleStatementSegment"), Grammar::reference("AlterTableStatementSegment"), Grammar::reference("CreateSchemaStatementSegment"), Grammar::reference("SetSchemaStatementSegment"), Grammar::reference("DropSchemaStatementSegment"), Grammar::reference("DropTypeStatementSegment"), Grammar::reference("CreateDatabaseStatementSegment"), Grammar::reference("DropDatabaseStatementSegment"), Grammar::reference("CreateIndexStatementSegment"), Grammar::reference("DropIndexStatementSegment"), Grammar::reference("CreateViewStatementSegment"), Grammar::reference("DeleteStatementSegment"), Grammar::reference("UpdateStatementSegment"), Grammar::reference("CreateCastStatementSegment"), Grammar::reference("DropCastStatementSegment"), Grammar::reference("CreateFunctionStatementSegment"), Grammar::reference("DropFunctionStatementSegment"), Grammar::reference("CreateModelStatementSegment"), Grammar::reference("DropModelStatementSegment"), Grammar::reference("DescribeStatementSegment"), Grammar::reference("UseStatementSegment"), Grammar::reference("ExplainStatementSegment"), Grammar::reference("CreateSequenceStatementSegment"), Grammar::reference("AlterSequenceStatementSegment"), Grammar::reference("DropSequenceStatementSegment"), Grammar::reference("CreateTriggerStatementSegment"), Grammar::reference("DropTriggerStatementSegment")];
    assert(views(g1@) =~~= seq![GrammarView::Ref { name: "SelectableGrammar"@, optional: false }, GrammarView::Ref { name: "MergeStatementSegment"@, optional: false }, GrammarView::Ref { name: "InsertStatementSegment"@, optional: false }, GrammarView::Ref { name: "TransactionStatementSegment"@, optional: false }, GrammarView::Ref { name: "DropTableStatementSegment"@, optional: false }, GrammarView::Ref { name: "DropViewStatementSegment"@, optional: false }, GrammarView::Ref { name: "CreateUserStatementSegment"@, optional: false }, GrammarView::Ref { name: "DropUserStatementSegment"@, optional: false }, GrammarView::Ref { name: "TruncateStatementSegment"@, optional: false }, GrammarView::Ref { name: "AccessStatementSegment"@, optional: false }, GrammarView::Ref { name: "CreateTableStatementSegment"@, optional: false }, GrammarView::Ref { name: "CreateRoleStatementSegment"@, optional: false }, GrammarView::Ref { name: "DropRoleStatementSegment"@, optional: false }, GrammarView::Ref { name: "AlterTableStatementSegment"@, optional: false }, GrammarView::Ref { name: "CreateSchemaStatementSegment"@, optional: false }, GrammarView::Ref { name: "SetSchemaStatementSegment"@, optional: false }, GrammarView::Ref { name: "DropSchemaStatementSegment"@, optional: false }, GrammarView::Ref { name: "DropTypeStatementSegment"@, optional: false }, GrammarView::Ref { name: "CreateDatabaseStatementSegment"@, optional: false }, GrammarView::Ref { name: "DropDatabaseStatementSegment"@, optional: false }, GrammarView::Ref { name: "CreateIndexStatementSegment"@, optional: false }, GrammarView::Ref { name: "DropIndexStatementSegment"@, optional: false }, GrammarView::Ref { name: "CreateViewStatementSegment"@, optional: false }, GrammarView::Ref { name: "DeleteStatementSegment"@, optional: false }, GrammarView::Ref { name: "UpdateStatementSegment"@, optional: false }, GrammarView::Ref { name: "CreateCastStatementSegment"@, optional: false }, GrammarView::Ref { name: "DropCastStatementSegment"@, optional: false }, GrammarView::Ref { name: "CreateFunctionStatementSegment"@, optional: false }, GrammarView::Ref { name: "DropFunctionStatementSegment"@, optional: false }, GrammarView::Ref { name: "CreateModelStatementSegment"@, optional: false }, GrammarView::Ref { name: "DropModelStatementSegment"@, optional: false }, GrammarView::Ref { name: "DescribeStatementSegment"@, optional: false }, GrammarView::Ref { name: "UseStatementSegment"@, optional: false }, GrammarView::Ref { name: "ExplainStatementSegment"@, optional: false }, GrammarView::Ref { name: "CreateSequenceStatementSegment"@, optional: false }, GrammarView::Ref { name: "AlterSequenceStatementSegment"@, optional: false }, GrammarView::Ref { name: "DropSequenceStatementSegment"@, optional: false }, GrammarView::Ref { name: "CreateTriggerStatementSegment"@, optional: false }, GrammarView::Ref { name: "DropTriggerStatementSegment"@, optional: false }]);
    let g2: Vec<Grammar> = vec![Grammar::reference("DelimiterGrammar")];
    assert(views(g2@) =~~= seq![GrammarView::Ref { name: "DelimiterGrammar"@, optional: false }]);
    let g3 = Grammar::one_of_with(g1, g2);
    let g4 = g3;
    assert(g4@ =~~= GrammarView::OneOf { elements: seq![GrammarView::Ref { name: "SelectableGrammar"@, optional: false }, GrammarView::Ref { name: "MergeStatementSegment"@, optional: false }, GrammarView::Ref { name: "InsertStatementSegment"@, optional: false }, GrammarView::Ref { name: "TransactionStatementSegment"@, optional: false }, GrammarView::Ref { name: "DropTableStatementSegment"@, optional: false }, GrammarView::Ref { name: "DropViewStatementSegment"@, optional: false }, GrammarView::Ref { name: "CreateUserStatementSegment"@, optional: false }, GrammarView::Ref { name: "DropUserStatementSegment"@, optional: false }, GrammarView::Ref { name: "TruncateStatementSegment"@, optional: false }, GrammarView::Ref { name: "AccessStatementSegment"@, optional: false }, GrammarView::Ref { name: "CreateTableStatementSegment"@, optional: false }, GrammarView::Ref { name: "CreateRoleStatementSegment"@, optional: false }, GrammarView::Ref { name: "DropRoleStatementSegment"@, optional: false }, GrammarView::Ref { name: "AlterTableStatementSegment"@, optional: false }, GrammarView::Ref { name: "CreateSchemaStatementSegment"@, optional: false }, GrammarView::Ref { name: "SetSchemaStatementSegment"@, optional: false }, GrammarView::Ref { name: "DropSchemaStatementSegment"@, optional: false }, GrammarView::Ref { name: "DropTypeStatementSegment"@, optional: false }, GrammarView::Ref { name: "CreateDatabaseStatementSegment"@, optional: false }, GrammarView::Ref { name: "DropDatabaseStatementSegment"@, optional: false }, GrammarView::Ref { name: "CreateIndexStatementSegment"@, optional: false }, GrammarView::Ref { name: "DropIndexStatementSegment"@, optional: false }, GrammarView::Ref { name: "CreateViewStatementSegment"@, optional: false }, GrammarView::Ref { name: "DeleteStatementSegment"@, optional: false }, GrammarView::Ref { name: "UpdateStatementSegment"@, optional: false }, GrammarView::Ref { name: "CreateCastStatementSegment"@, optional: false }, GrammarView::Ref { name: "DropCastStatementSegment"@, optional: false }, GrammarView::Ref { name: "CreateFunctionStatementSegment"@, optional: false }, GrammarView::Ref { name: "DropFunctionStatementSegment"@, optional: false }, GrammarView::Ref { name: "CreateModelStatementSegment"@, optional: false }, GrammarView::Ref { name: "DropModelStatementSegment"@, optional: false }, GrammarView::Ref { name: "DescribeStatementSegment"@, optional: false }, GrammarView::Ref { name: "UseStatementSegment"@, optional: false }, GrammarView::Ref { name: "ExplainStatementSegment"@, optional: false }, GrammarView::Ref { name: "CreateSequenceStatementSegment"@, optional: false }, GrammarView::Ref { name: "AlterSequenceStatementSegment"@, optional: false }, GrammarView::Ref { name: "DropSequenceStatementSegment"@, optional: false }, GrammarView::Ref { name: "CreateTriggerStatementSegment"@, optional: false }, GrammarView::Ref { name: "DropTriggerStatementSegment"@, optional: false }], terminators: seq![GrammarView::Ref { name: "DelimiterGrammar"@, optional: false }] });
    let g5: Vec<Grammar> = vec![Grammar::reference("DeclareStatementSegment"), Grammar::reference("SetStatementSegment"), Grammar::reference("ExportStatementSegment"), Grammar::reference("CreateExternalTableStatementSegment"), Grammar::reference("AssertStatementSegment"), Grammar::reference("CallStatementSegment"), Grammar::reference("ReturnStatementSegment"), Grammar::reference("BreakStatementSegment"), Grammar::reference("LeaveStatementSegment"), Grammar::reference("ContinueStatementSegment"), Grammar::reference("RaiseStatementSegment"), Grammar::reference("AlterViewStatementSegment"), Grammar::reference("CreateMaterializedViewStatementSegment"), Grammar::reference("AlterMaterializedViewStatementSegment"), Grammar::reference("DropMaterializedViewStatementSegment")];
    assert(views(g5@) =~~= seq![GrammarView::Ref { name: "DeclareStatementSegment"@, optional: false }, GrammarView::Ref { name: "SetStatementSegment"@, optional: false }, GrammarView::Ref { name: "ExportStatementSegment"@, optional: false }, GrammarView::Ref { name: "CreateExternalTableStatementSegment"@, optional: false }, GrammarView::Ref { name: "AssertStatementSegment"@, optional: false }, GrammarView::Ref { name: "CallStatementSegment"@, optional: false }, GrammarView::Ref { name: "ReturnStatementSegment"@, optional: false }, GrammarView::Ref { name: "BreakStatementSegment"@, optional: false }, GrammarView::Ref { name: "LeaveStatementSegment"@, optional: false }, GrammarView::Ref { name: "ContinueStatementSegment"@, optional: false }, GrammarView::Ref { name: "RaiseStatementSegment"@, optional: false }, GrammarView::Ref { name: "AlterViewStatementSegment"@, optional: false }, GrammarView::Ref { name: "CreateMaterializedViewStatementSegment"@, optional: false }, GrammarView::Ref { name: "AlterMaterializedViewStatementSegment"@, optional: false }, GrammarView::Ref { name: "DropMaterializedViewStatementSegment"@, optional: false }]);
    let g6: Vec<Grammar> = Vec::new();
    assert(views(g6@) =~= Seq::<GrammarView>::empty());
    let g7 = g4.copy(Some(g5), None, None, None, g6, false);
    g7
}

/// The BigQuery element `AssertStatementSegment`.
pub open spec fn assert_statement_segment_element() -> ElementView {
    ElementView::Node { kind: "assert_statement"@, grammar: GrammarView::Sequence { elements: seq![GrammarView::Keyword { word: "ASSERT"@ }, GrammarView::Ref { name: "ExpressionSegment"@, optional: false }, GrammarView::Optional { grammar: Box::new(GrammarView::Sequence { elements: seq![GrammarView::Keyword { word: "AS"@ }, GrammarView::Ref { name: "QuotedLiteralSegment"@, optional: false }], terminators: seq![], parse_mode: ParseMode::Strict }) }], terminators: seq![], parse_mode: ParseMode::Strict } }
}

fn build_assert_statement_segment() -> (e: Element)
    ensures
        e@ =~~= assert_statement_segment_element(),
{
    let g1: Vec<Grammar> = vec![Grammar::keyword("AS"), Grammar::reference("QuotedLiteralSegment")];
    assert(views(g1@) =~~= seq![GrammarView::Keyword { word: "AS"@ }, GrammarView::Ref { name: "QuotedLiteralSegment"@, optional: false }]);
    let g2: Vec<Grammar> = Vec::new();
    assert(views(g2@) =~= Seq::<GrammarView>::empty());
    let g3 = Grammar::sequence_with(g1, g2, ParseMode::Strict);
    let g4 = g3.optional();
    let g5: Vec<Grammar> = vec![Grammar::keyword("ASSERT"), Grammar::reference("ExpressionSegment"), g4];
    assert(views(g5@) =~~= seq![GrammarView::Keyword { word: "ASSERT"@ }, GrammarView::Ref { name: "ExpressionSegment"@, optional: false }, GrammarView::Optional { grammar: Box::new(GrammarView::Sequence { elements: seq![GrammarView::Keyword { word: "AS"@ }, GrammarView::Ref { name: "QuotedLiteralSegment"@, optional: false }], terminators: seq![], parse_mode: ParseMode::Strict }) }]);
    let g6: Vec<Grammar> = Vec::new();
    assert(views(g6@) =~= Seq::<GrammarView>::empty());
    let g7 = Grammar::sequence_with(g5, g6, ParseMode::Strict);
    Element::Node { kind: "assert_statement", grammar: g7 }
}

/// The BigQuery element `ForInStatementsSegment`.
pub open spec fn for_in_statements_segment_element() -> ElementView {
    ElementView::Node { kind: "for_in_statements"@, grammar: GrammarView::InMode { grammar: Box::new(GrammarView::AnyNumberOf { elements: seq![GrammarView::Sequence { elements: seq![GrammarView::OneOf { elements: seq![GrammarView::Ref { name: "StatementSegment"@, optional: false }, GrammarView::Ref { name: "MultiStatementSegment"@, optional: false }], terminators: seq![] }, GrammarView::Ref { name: "DelimiterGrammar"@, optional: false }], terminators: seq![], parse_mode: ParseMode::Strict }], terminators: seq![GrammarView::Sequence { elements: seq![GrammarView::Keyword { word: "END"@ }, GrammarView::Keyword { word: "FOR"@ }], terminators: seq![], parse_mode: ParseMode::Strict }], min_times: 0, max_times: None }), parse_mode: ParseMode::Greedy } }
}

fn build_for_in_statements_segment() -> (e: Element)
    ensures
        e@ =~~= for_in_statements_segment_element(),
{
    let g1: Vec<Grammar> = vec![Grammar::reference("StatementSegment"), Grammar::reference("MultiStatementSegment")];
    assert(views(g1@) =~~= seq![GrammarView::Ref { name: "StatementSegment"@, optional: false }, GrammarView::Ref { name: "MultiStatementSegment"@, optional: false }]);
    let g2: Vec<Grammar> = Vec::new();
    assert(views(g2@) =~= Seq::<GrammarView>::empty());
    let g3 = Grammar::one_of_with(g1, g2);
    let g4: Vec<Grammar> = vec![g3, Grammar::reference("DelimiterGrammar")];
    assert(views(g4@) =~~= seq![GrammarView::OneOf { elements: seq![GrammarView::Ref { name: "StatementSegment"@, optional: false }, GrammarView::Ref { name: "MultiStatementSegment"@, optional: false }], terminators: seq![] }, GrammarView::Ref { name: "DelimiterGrammar"@, optional: false }]);
    let g5: Vec<Grammar> = Vec::new();
    assert(views(g5@) =~= Seq::<GrammarView>::empty());
    let g6 = Grammar::sequence_with(g4, g5, ParseMode::Strict);
    let g7: Vec<Grammar> = vec![g6];
    assert(views(g7@) =~~= seq![GrammarView::Sequence { elements: seq![GrammarView::OneOf { elements: seq![GrammarView::Ref { name: "StatementSegment"@, optional: false }, GrammarView::Ref { name: "MultiStatementSegment"@, optional: false }], terminators: seq![] }, GrammarView::Ref { name: "DelimiterGrammar"@, optional: false }], terminators: seq![], parse_mode: ParseMode::Strict }]);
    let g8: Vec<Grammar> = vec![Grammar::keyword("END"), Grammar::keyword("FOR")];
    assert(views(g8@) =~~= seq![GrammarView::Keyword { word: "END"@ }, GrammarView::Keyword { word: "FOR"@ }]);
    let g9: Vec<Grammar> = Vec::new();
    assert(views(g9@) =~= Seq::<GrammarView>::empty());
    let g10 = Grammar::sequence_with(g8, g9, ParseMode::Strict);
    let g11: Vec<Grammar> = vec![g10];
    assert(views(g11@) =~~= seq![GrammarView::Sequence { elements: seq![GrammarView::Keyword { word: "END"@ }, GrammarView::Keyword { word: "FOR"@ }], terminators: seq![], parse_mode: ParseMode::Strict }]);
    let g12 = Grammar::any_number_of_with(g7, g11, 0, None);
    let g13 = g12.in_mode(ParseMode::Greedy);
    Element::Node { kind: "for_in_statements", grammar: g13 }
}

/// The BigQuery element `ForInStatementSegment`.
pub open spec fn for_in_statement_segment_element() -> ElementView {
    ElementView::Node { kind: "for_in_statement"@, grammar: GrammarView::Sequence { elements: seq![GrammarView::Keyword { word: "FOR"@ }, GrammarView::Ref { name: "SingleIdentifierGrammar"@, optional: false }, GrammarView::Keyword { word: "IN"@ }, GrammarView::Indent, GrammarView::Ref { name: "SelectableGrammar"@, optional: false }, GrammarView::Dedent, GrammarView::Keyword { word: "DO"@ }, GrammarView::Indent, GrammarView::Ref { name: "ForInStatementsSegment"@, optional: false }, GrammarView::Dedent, GrammarView::Keyword { word: "END"@ }, GrammarView::Keyword { word: "FOR"@ }], terminators: seq![], parse_mode: ParseMode::Strict } }
}

fn build_for_in_statement_segment() -> (e: Element)
    ensures
        e@ =~~= for_in_statement_segment_element(),
{
    let g1: Vec<Grammar> = vec![Grammar::keyword("FOR"), Grammar::reference("SingleIdentifierGrammar"), Grammar::keyword("IN"), Grammar::indent(), Grammar::reference("SelectableGrammar"), Grammar::dedent(), Grammar::keyword("DO"), Grammar::indent(), Grammar::reference("ForInStatementsSegment"), Grammar::dedent(), Grammar::keyword("END"), Grammar::keyword("FOR")];
    assert(views(g1@) =~~= seq![GrammarView::Keyword { word: "FOR"@ }, GrammarView::Ref { name: "SingleIdentifierGrammar"@, optional: false }, GrammarView::Keyword { word: "IN"@ }, GrammarView::Indent, GrammarView::Ref { name: "SelectableGrammar"@, optional: false }, GrammarView::Dedent, GrammarView::Keyword { word: "DO"@ }, GrammarView::Indent, GrammarView::Ref { name: "ForInStatementsSegment"@, optional: false }, GrammarView::Dedent, GrammarView::Keyword { word: "END"@ }, GrammarView::Keyword { word: "FOR"@ }]);
    let g2: Vec<Grammar> = Vec::new();
    assert(views(g2@) =~= Seq::<GrammarView>::empty());
    let g3 = Grammar::sequence_with(g1, g2, ParseMode::Strict);
    Element::Node { kind: "for_in_statement", grammar: g3 }
}

/// The BigQuery element `RepeatStatementsSegment`.
pub open spec fn repeat_statements_segment_element() -> ElementView {
    ElementView::Node { kind: "repeat_statements"@, grammar: GrammarView::InMode { grammar: Box::new(GrammarView::AnyNumberOf { elements: seq![GrammarView::Sequence { elements: seq![GrammarView::OneOf { elements: seq![GrammarView::Ref { name: "StatementSegment"@, optional: false }, GrammarView::Ref { name: "MultiStatementSegment"@, optional: false }], terminators: seq![] }, GrammarView::Ref { name: "DelimiterGrammar"@, optional: false }], terminators: seq![], parse_mode: ParseMode::Strict }], terminators: seq![GrammarView::Keyword { word: "UNTIL"@ }], min_times: 0, max_times: None }), parse_mode: ParseMode::Greedy } }
}

fn build_repeat_statements_segment() -> (e: Element)
    ensures
        e@ =~~= repeat_statements_segment_element(),
{
    let g1: Vec<Grammar> = vec![Grammar::reference("StatementSegment"), Grammar::reference("MultiStatementSegment")];
    assert(views(g1@) =~~= seq![GrammarView::Ref { name: "StatementSegment"@, optional: false }, GrammarView::Ref { name: "MultiStatementSegment"@, optional: false }]);
    let g2: Vec<Grammar> = Vec::new();
    assert(views(g2@) =~= Seq::<GrammarView>::empty());
    let g3 = Grammar::one_of_with(g1, g2);
    let g4: Vec<Grammar> = vec![g3, Grammar::reference("DelimiterGrammar")];
    assert(views(g4@) =~~= seq![GrammarView::OneOf { elements: seq![GrammarView::Ref { name: "StatementSegment"@, optional: false }, GrammarView::Ref { name: "MultiStatementSegment"@, optional: false }], terminators: seq![] }, GrammarView::Ref { name: "DelimiterGrammar"@, optional: false }]);
    let g5: Vec<Grammar> = Vec::new();
    assert(views(g5@) =~= Seq::<GrammarView>::empty());
    let g6 = Grammar::sequence_with(g4, g5, ParseMode::Strict);
    let g7: Vec<Grammar> = vec![g6];
    assert(views(g7@) =~~= seq![GrammarView::Sequence { elements: seq![GrammarView::OneOf { elements: seq![GrammarView::Ref { name: "StatementSegment"@, optional: false }, GrammarView::Ref { name: "MultiStatementSegment"@, optional: false }], terminators: seq![] }, GrammarView::Ref { name: "DelimiterGrammar"@, optional: false }], terminators: seq![], parse_mode: ParseMode::Strict }]);
    let g8: Vec<Grammar> = vec![Grammar::keyword("UNTIL")];
    assert(views(g8@) =~~= seq![GrammarView::Keyword { word: "UNTIL"@ }]);
    let g9 = Grammar::any_number_of_with(g7, g8, 0, None);
    let g10 = g9.in_mode(ParseMode::Greedy);
    Element::Node { kind: "repeat_statements", grammar: g10 }
}

/// The BigQuery element `RepeatStatementSegment`.
pub open spec fn repeat_statement_segment_element() -> ElementView {
    ElementView::Node { kind: "repeat_statement"@, grammar: GrammarView::Sequence { elements: seq![GrammarView::Keyword { word: "REPEAT"@ }, GrammarView::Indent, GrammarView::Ref { name: "RepeatStatementsSegment"@, optional: false }, GrammarView::Keyword { word: "UNTIL"@ }, GrammarView::Ref { name: "ExpressionSegment"@, optional: false }, GrammarView::Dedent, GrammarView::Keyword { word: "END"@ }, GrammarView::Keyword { word: "REPEAT"@ }], terminators: seq![], parse_mode: ParseMode::Strict } }
}

fn build_repeat_statement_segment() -> (e: Element)
    ensures
        e@ =~~= repeat_statement_segment_element(),
{
    let g1: Vec<Grammar> = vec![Grammar::keyword("REPEAT"), Grammar::indent(), Grammar::reference("RepeatStatementsSegment"), Grammar::keyword("UNTIL"), Grammar::reference("ExpressionSegment"), Grammar::dedent(), Grammar::keyword("END"), Grammar::keyword("REPEAT")];
    assert(views(g1@) =~~= seq![GrammarView::Keyword { word: "REPEAT"@ }, GrammarView::Indent, GrammarView::Ref { name: "RepeatStatementsSegment"@, optional: false }, GrammarView::Keyword { word: "UNTIL"@ }, GrammarView::Ref { name: "ExpressionSegment"@, optional: false }, GrammarView::Dedent, GrammarView::Keyword { word: "END"@ }, GrammarView::Keyword { word: "REPEAT"@ }]);
    let g2: Vec<Grammar> = Vec::new();
    assert(views(g2@) =~= Seq::<GrammarView>::empty());
    let g3 = Grammar::sequence_with(g1, g2, ParseMode::Strict);
    Element::Node { kind: "repeat_statement", grammar: g3 }
}

/// The BigQuery element `IfStatementsSegment`.
pub open spec fn if_statements_segment_element() -> ElementView {
    ElementView::Node { kind: "if_statements"@, grammar: GrammarView::InMode { grammar: Box::new(GrammarView::AnyNumberOf { elements: seq![GrammarView::Sequence { elements: seq![GrammarView::OneOf { elements: seq![GrammarView::Ref { name: "StatementSegment"@, optional: false }, GrammarView::Ref { name: "MultiStatementSegment"@, optional: false }], terminators: seq![] }, GrammarView::Ref { name: "DelimiterGrammar"@, optional: false }], terminators: seq![], parse_mode: ParseMode::Strict }], terminators: seq![GrammarView::Keyword { word: "ELSE"@ }, GrammarView::Keyword { word: "ELSEIF"@ }, GrammarView::Sequence { elements: seq![GrammarView::Keyword { word: "END"@ }, GrammarView::Keyword { word: "IF"@ }], terminators: seq![], parse_mode: ParseMode::Strict }], min_times: 0, max_times: None }), parse_mode: ParseMode::Greedy } }
}

fn build_if_statements_segment() -> (e: Element)
    ensures
        e@ =~~= if_statements_segment_element(),
{
    let g1: Vec<Grammar> = vec![Grammar::reference("StatementSegment"), Grammar::reference("MultiStatementSegment")];
    assert(views(g1@) =~~= seq![GrammarView::Ref { name: "StatementSegment"@, optional: false }, GrammarView::Ref { name: "MultiStatementSegment"@, optional: false }]);
    let g2: Vec<Grammar> = Vec::new();
    assert(views(g2@) =~= Seq::<GrammarView>::empty());
    let g3 = Grammar::one_of_with(g1, g2);
    let g4: Vec<Grammar> = vec![g3, Grammar::reference("DelimiterGrammar")];
    assert(views(g4@) =~~= seq![GrammarView::OneOf { elements: seq![GrammarView::Ref { name: "StatementSegment"@, optional: false }, GrammarView::Ref { name: "MultiStatementSegment"@, optional: false }], terminators: seq![] }, GrammarView::Ref { name: "DelimiterGrammar"@, optional: false }]);
    let g5: Vec<Grammar> = Vec::new();
    assert(views(g5@) =~= Seq::<GrammarView>::empty());
    let g6 = Grammar::sequence_with(g4, g5, ParseMode::Strict);
    let g7: Vec<Grammar> = vec![g6];
    assert(views(g7@) =~~= seq![GrammarView::Sequence { elements: seq![GrammarView::OneOf { elements: seq![GrammarView::Ref { name: "StatementSegment"@, optional: false }, GrammarView::Ref { name: "MultiStatementSegment"@, optional: false }], terminators: seq![] }, GrammarView::Ref { name: "DelimiterGrammar"@, optional: false }], terminators: seq![], parse_mode: ParseMode::Strict }]);
    let g8: Vec<Grammar> = vec![Grammar::keyword("END"), Grammar::keyword("IF")];
    assert(views(g8@) =~~= seq![GrammarView::Keyword { word: "END"@ }, GrammarView::Keyword { word: "IF"@ }]);
    let g9: Vec<Grammar> = Vec::new();
    assert(views(g9@) =~= Seq::<GrammarView>::empty());
    let g10 = Grammar::sequence_with(g8, g9, ParseMode::Strict);
    let g11: Vec<Grammar> = vec![Grammar::keyword("ELSE"), Grammar::keyword("ELSEIF"), g10];
    assert(views(g11@) =~~= seq![GrammarView::Keyword { word: "ELSE"@ }, GrammarView::Keyword { word: "ELSEIF"@ }, GrammarView::Sequence { elements: seq![GrammarView::Keyword { word: "END"@ }, GrammarView::Keyword { word: "IF"@ }], terminators: seq![], parse_mode: ParseMode::Strict }]);
    let g12 = Grammar::any_number_of_with(g7, g11, 0, None);
    let g13 = g12.in_mode(ParseMode::Greedy);
    Element::Node { kind: "if_statements", grammar: g13 }
}

/// The BigQuery element `IfStatementSegment`.
pub open spec fn if_statement_segment_element() -> ElementView {
    ElementView::Node { kind: "if_statement"@, grammar: GrammarView::Sequence { elements: seq![GrammarView::Keyword { word: "IF"@ }, GrammarView::Ref { name: "ExpressionSegment"@, optional: false }, GrammarView::Keyword { word: "THEN"@ }, GrammarView::Indent, GrammarView::Ref { name: "IfStatementsSegment"@, optional: false }, GrammarView::Dedent, GrammarView::AnyNumberOf { elements: seq![GrammarView::Sequence { elements: seq![GrammarView::Keyword { word: "ELSEIF"@ }, GrammarView::Ref { name: "ExpressionSegment"@, optional: false }, GrammarView::Keyword { word: "THEN"@ }, GrammarView::Indent, GrammarView::Ref { name: "IfStatementsSegment"@, optional: false }, GrammarView::Dedent], terminators: seq![], parse_mode: ParseMode::Strict }], terminators: seq![], min_times: 0, max_times: None }, GrammarView::Optional { grammar: Box::new(GrammarView::Sequence { elements: seq![GrammarView::Keyword { word: "ELSE"@ }, GrammarView::Indent, GrammarView::Ref { name: "IfStatementsSegment"@, optional: false }, GrammarView::Dedent], terminators: seq![], parse_mode: ParseMode::Strict }) }, GrammarView::Keyword { word: "END"@ }, GrammarView::Keyword { word: "IF"@ }], terminators: seq![], parse_mode: ParseMode::Strict } }
}

fn build_if_statement_segment() -> (e: Element)
    ensures
        e@ =~~= if_statement_segment_element(),
{
    let g1: Vec<Grammar> = vec![Grammar::keyword("ELSEIF"), Grammar::reference("ExpressionSegment"), Grammar::keyword("THEN"), Grammar::indent(), Grammar::reference("IfStatementsSegment"), Grammar::dedent()];
    assert(views(g1@) =~~= seq![GrammarView::Keyword { word: "ELSEIF"@ }, GrammarView::Ref { name: "ExpressionSegment"@, optional: false }, GrammarView::Keyword { word: "THEN"@ }, GrammarView::Indent, GrammarView::Ref { name: "IfStatementsSegment"@, optional: false }, GrammarView::Dedent]);
    let g2: Vec<Grammar> = Vec::new();
    assert(views(g2@) =~= Seq::<GrammarView>::empty());
    let g3 = Grammar::sequence_with(g1, g2, ParseMode::Strict);
    let g4: Vec<Grammar> = vec![g3];
    assert(views(g4@) =~~= seq![GrammarView::Sequence { elements: seq![GrammarView::Keyword { word: "ELSEIF"@ }, GrammarView::Ref { name: "ExpressionSegment"@, optional: false }, GrammarView::Keyword { word: "THEN"@ }, GrammarView::Indent, GrammarView::Ref { name: "IfStatementsSegment"@, optional: false }, GrammarView::Dedent], terminators: seq![], parse_mode: ParseMode::Strict }]);
    let g5: Vec<Grammar> = Vec::new();
    assert(views(g5@) =~= Seq::<GrammarView>::empty());
    let g6 = Grammar::any_number_of_with(g4, g5, 0, None);
    let g7: Vec<Grammar> = vec![Grammar::keyword("ELSE"), Grammar::indent(), Grammar::reference("IfStatementsSegment"), Grammar::dedent()];
    assert(views(g7@) =~~= seq![GrammarView::Keyword { word: "ELSE"@ }, GrammarView::Indent, GrammarView::Ref { name: "IfStatementsSegment"@, optional: false }, GrammarView::Dedent]);
    let g8: Vec<Grammar> = Vec::new();
    assert(views(g8@) =~= Seq::<GrammarView>::empty());
    let g9 = Grammar::sequence_with(g7, g8, ParseMode::Strict);
    let g10 = g9.optional();
    let g11: Vec<Grammar> = vec![Grammar::keyword("IF"), Grammar::reference("ExpressionSegment"), Grammar::keyword("THEN"), Grammar::indent(), Grammar::reference("IfStatementsSegment"), Grammar::dedent(), g6, g10, Grammar::keyword("END"), Grammar::keyword("IF")];
    assert(views(g11@) =~~= seq![GrammarView::Keyword { word: "IF"@ }, GrammarView::Ref { name: "ExpressionSegment"@, optional: false }, GrammarView::Keyword { word: "THEN"@ }, GrammarView::Indent, GrammarView::Ref { name: "IfStatementsSegment"@, optional: false }, GrammarView::Dedent, GrammarView::AnyNumberOf { elements: seq![GrammarView::Sequence { elements: seq![GrammarView::Keyword { word: "ELSEIF"@ }, GrammarView::Ref { name: "ExpressionSegment"@, optional: false }, GrammarView::Keyword { word: "THEN"@ }, GrammarView::Indent, GrammarView::Ref { name: "IfStatementsSegment"@, optional: false }, GrammarView::Dedent], terminators: seq![], parse_mode: ParseMode::Strict }], terminators: seq![], min_times: 0, max_times: None }, GrammarView::Optional { grammar: Box::new(GrammarView::Sequence { elements: seq![GrammarView::Keyword { word: "ELSE"@ }, GrammarView::Indent, GrammarView::Ref { name: "IfStatementsSegment"@, optional: false }, GrammarView::Dedent], terminators: seq![], parse_mode: ParseMode::Strict }) }, GrammarView::Keyword { word: "END"@ }, GrammarView::Keyword { word: "IF"@ }]);
    let g12: Vec<Grammar> = Vec::new();
    assert(views(g12@) =~= Seq::<GrammarView>::empty());
    let g13 = Grammar::sequence_with(g11, g12, ParseMode::Strict);
    Element::Node { kind: "if_statement", grammar: g13 }
}

/// The BigQuery element `LoopStatementsSegment`.
pub open spec fn loop_statements_segment_element() -> ElementView {
    ElementView::Node { kind: "loop_statements"@, grammar: GrammarView::InMode { grammar: Box::new(GrammarView::AnyNumberOf { elements: seq![GrammarView::Sequence { elements: seq![GrammarView::OneOf { elements: seq![GrammarView::Ref { name: "StatementSegment"@, optional: false }, GrammarView::Ref { name: "MultiStatementSegment"@, optional: false }], terminators: seq![] }, GrammarView::Ref { name: "DelimiterGrammar"@, optional: false }], terminators: seq![], parse_mode: ParseMode::Strict }], terminators: seq![GrammarView::Sequence { elements: seq![GrammarView::Keyword { word: "END"@ }, GrammarView::Keyword { word: "LOOP"@ }], terminators: seq![], parse_mode: ParseMode::Strict }], min_times: 0, max_times: None }), parse_mode: ParseMode::Greedy } }
}

fn build_loop_statements_segment() -> (e: Element)
    ensures
        e@ =~~= loop_statements_segment_element(),
{
    let g1: Vec<Grammar> = vec![Grammar::reference("StatementSegment"), Grammar::reference("MultiStatementSegment")];
    assert(views(g1@) =~~= seq![GrammarView::Ref { name: "StatementSegment"@, optional: false }, GrammarView::Ref { name: "MultiStatementSegment"@, optional: false }]);
    let g2: Vec<Grammar> = Vec::new();
    assert(views(g2@) =~= Seq::<GrammarView>::empty());
    let g3 = Grammar::one_of_with(g1, g2);
    let g4: Vec<Grammar> = vec![g3, Grammar::reference("DelimiterGrammar")];
    assert(views(g4@) =~~= seq![GrammarView::OneOf { elements: seq![GrammarView::Ref { name: "StatementSegment"@, optional: false }, GrammarView::Ref { name: "MultiStatementSegment"@, optional: false }], terminators: seq![] }, GrammarView::Ref { name: "DelimiterGrammar"@, optional: false }]);
    let g5: Vec<Grammar> = Vec::new();
    assert(views(g5@) =~= Seq::<GrammarView>::empty());
    let g6 = Grammar::sequence_with(g4, g5, ParseMode::Strict);
    let g7: Vec<Grammar> = vec![g6];
    assert(views(g7@) =~~= seq![GrammarView::Sequence { elements: seq![GrammarView::OneOf { elements: seq![GrammarView::Ref { name: "StatementSegment"@, optional: false }, GrammarView::Ref { name: "MultiStatementSegment"@, optional: false }], terminators: seq![] }, GrammarView::Ref { name: "DelimiterGrammar"@, optional: false }], terminators: seq![], parse_mode: ParseMode::Strict }]);
    let g8: Vec<Grammar> = vec![Grammar::keyword("END"), Grammar::keyword("LOOP")];
    assert(views(g8@) =~~= seq![GrammarView::Keyword { word: "END"@ }, GrammarView::Keyword { word: "LOOP"@ }]);
    let g9: Vec<Grammar> = Vec::new();
    assert(views(g9@) =~= Seq::<GrammarView>::empty());
    let g10 = Grammar::sequence_with(g8, g9, ParseMode::Strict);
    let g11: Vec<Grammar> = vec![g10];
    assert(views(g11@) =~~= seq![GrammarView::Sequence { elements: seq![GrammarView::Keyword { word: "END"@ }, GrammarView::Keyword { word: "LOOP"@ }], terminators: seq![], parse_mode: ParseMode::Strict }]);
    let g12 = Grammar::any_number_of_with(g7, g11, 0, None);
    let g13 = g12.in_mode(ParseMode::Greedy);
    Element::Node { kind: "loop_statements", grammar: g13 }
}

/// The BigQuery element `LoopStatementSegment`.
pub open spec fn loop_statement_segment_element() -> ElementView {
    ElementView::Node { kind: "loop_statement"@, grammar: GrammarView::Sequence { elements: seq![GrammarView::Keyword { word: "LOOP"@ }, GrammarView::Indent, GrammarView::Ref { name: "LoopStatementsSegment"@, optional: false }, GrammarView::Dedent, GrammarView::Keyword { word: "END"@ }, GrammarView::Keyword { word: "LOOP"@ }], terminators: seq![], parse_mode: ParseMode::Strict } }
}

fn build_loop_statement_segment() -> (e: Element)
    ensures
        e@ =~~= loop_statement_segment_element(),
{
    let g1: Vec<Grammar> = vec![Grammar::keyword("LOOP"), Grammar::indent(), Grammar::reference("LoopStatementsSegment"), Grammar::dedent(), Grammar::keyword("END"), Grammar::keyword("LOOP")];
    assert(views(g1@) =~~= seq![GrammarView::Keyword { word: "LOOP"@ }, GrammarView::Indent, GrammarView::Ref { name: "LoopStatementsSegment"@, optional: false }, GrammarView::Dedent, GrammarView::Keyword { word: "END"@ }, GrammarView::Keyword { word: "LOOP"@ }]);
    let g2: Vec<Grammar> = Vec::new();
    assert(views(g2@) =~= Seq::<GrammarView>::empty());
    let g3 = Grammar::sequence_with(g1, g2, ParseMode::Strict);
    Element::Node { kind: "loop_statement", grammar: g3 }
}

/// The BigQuery element `WhileStatementsSegment`.
pub open spec fn while_statements_segment_element() -> ElementView {
    ElementView::Node { kind: "while_statements"@, grammar: GrammarView::InMode { grammar: Box::new(GrammarView::AnyNumberOf { elements: seq![GrammarView::Sequence { elements: seq![GrammarView::Ref { name: "StatementSegment"@, optional: false }, GrammarView::Ref { name: "DelimiterGrammar"@, optional: false }], terminators: seq![], parse_mode: ParseMode::Strict }], terminators: seq![GrammarView::Sequence { elements: seq![GrammarView::Keyword { word: "END"@ }, GrammarView::Keyword { word: "WHILE"@ }], terminators: seq![], parse_mode: ParseMode::Strict }], min_times: 0, max_times: None }), parse_mode: ParseMode::Greedy } }
}

fn build_while_statements_segment() -> (e: Element)
    ensures
        e@ =~~= while_statements_segment_element(),
{
    let g1: Vec<Grammar> = vec![Grammar::reference("StatementSegment"), Grammar::reference("DelimiterGrammar")];
    assert(views(g1@) =~~= seq![GrammarView::Ref { name: "StatementSegment"@, optional: false }, GrammarView::Ref { name: "DelimiterGrammar"@, optional: false }]);
    let g2: Vec<Grammar> = Vec::new();
    assert(views(g2@) =~= Seq::<GrammarView>::empty());
    let g3 = Grammar::sequence_with(g1, g2, ParseMode::Strict);
    let g4: Vec<Grammar> = vec![g3];
    assert(views(g4@) =~~= seq![GrammarView::Sequence { elements: seq![GrammarView::Ref { name: "StatementSegment"@, optional: false }, GrammarView::Ref { name: "DelimiterGrammar"@, optional: false }], terminators: seq![], parse_mode: ParseMode::Strict }]);
    let g5: Vec<Grammar> = vec![Grammar::keyword("END"), Grammar::keyword("WHILE")];
    assert(views(g5@) =~~= seq![GrammarView::Keyword { word: "END"@ }, GrammarView::Keyword { word: "WHILE"@ }]);
    let g6: Vec<Grammar> = Vec::new();
    assert(views(g6@) =~= Seq::<GrammarView>::empty());
    let g7 = Grammar::sequence_with(g5, g6, ParseMode::Strict);
    let g8: Vec<Grammar> = vec![g7];
    assert(views(g8@) =~~= seq![GrammarView::Sequence { elements: seq![GrammarView::Keyword { word: "END"@ }, GrammarView::Keyword { word: "WHILE"@ }], terminators: seq![], parse_mode: ParseMode::Strict }]);
    let g9 = Grammar::any_number_of_with(g4, g8, 0, None);
    let g10 = g9.in_mode(ParseMode::Greedy);
    Element::Node { kind: "while_statements", grammar: g10 }
}

/// The BigQuery element `WhileStatementSegment`.
pub open spec fn while_statement_segment_element() -> ElementView {
    ElementView::Node { kind: "while_statement"@, grammar: GrammarView::Sequence { elements: seq![GrammarView::Keyword { word: "WHILE"@ }, GrammarView::Ref { name: "ExpressionSegment"@, optional: false }, GrammarView::Keyword { word: "DO"@ }, GrammarView::Indent, GrammarView::Ref { name: "WhileStatementsSegment"@, optional: false }, GrammarView::Dedent, GrammarView::Keyword { word: "END"@ }, GrammarView::Keyword { word: "WHILE"@ }], terminators: seq![], parse_mode: ParseMode::Strict } }
}

fn build_while_statement_segment() -> (e: Element)
    ensures
        e@ =~~= while_statement_segment_element(),
{
    let g1: Vec<Grammar> = vec![Grammar::keyword("WHILE"), Grammar::reference("ExpressionSegment"), Grammar::keyword("DO"), Grammar::indent(), Grammar::reference("WhileStatementsSegment"), Grammar::dedent(), Grammar::keyword("END"), Grammar::keyword("WHILE")];
    assert(views(g1@) =~~= seq![GrammarView::Keyword { word: "WHILE"@ }, GrammarView::Ref { name: "ExpressionSegment"@, optional: false }, GrammarView::Keyword { word: "DO"@ }, GrammarView::Indent, GrammarView::Ref { name: "WhileStatementsSegment"@, optional: false }, GrammarView::Dedent, GrammarView::Keyword { word: "END"@ }, GrammarView::Keyword { word: "WHILE"@ }]);
    let g2: Vec<Grammar> = Vec::new();
    assert(views(g2@) =~= Seq::<GrammarView>::empty());
    let g3 = Grammar::sequence_with(g1, g2, ParseMode::Strict);
    Element::Node { kind: "while_statement", grammar: g3 }
}

/// The BigQuery grammar of `SelectClauseModifierSegment`.
pub open spec fn select_clause_modifier_segment_grammar() -> GrammarView {
    GrammarView::Sequence { elements: seq![GrammarView::Optional { grammar: Box::new(GrammarView::OneOf { elements: seq![GrammarView::Keyword { word: "DISTINCT"@ }, GrammarView::Keyword { word: "ALL"@ }], terminators: seq![] }) }, GrammarView::Optional { grammar: Box::new(GrammarView::Sequence { elements: seq![GrammarView::Keyword { word: "AS"@ }, GrammarView::OneOf { elements: seq![GrammarView::Keyword { word: "STRUCT"@ }, GrammarView::Keyword { word: "VALUE"@ }], terminators: seq![] }], terminators: seq![], parse_mode: ParseMode::Strict }) }], terminators: seq![], parse_mode: ParseMode::Strict }
}

fn build_select_clause_modifier_segment() -> (g: Grammar)
    ensures
        g@ =~~= select_clause_modifier_segment_grammar(),
{
    let g1: Vec<Grammar> = vec![Grammar::keyword("DISTINCT"), Grammar::keyword("ALL")];
    assert(views(g1@) =~~= seq![GrammarView::Keyword { word: "DISTINCT"@ }, GrammarView::Keyword { word: "ALL"@ }]);
    let g2: Vec<Grammar> = Vec::new();
    assert(views(g2@) =~= Seq::<GrammarView>::empty());
    let g3 = Grammar::one_of_with(g1, g2);
    let g4 = g3.optional();
    let g5: Vec<Grammar> = vec![Grammar::keyword("STRUCT"), Grammar::keyword("VALUE")];
    assert(views(g5@) =~~= seq![GrammarView::Keyword { word: "STRUCT"@ }, GrammarView::Keyword { word: "VALUE"@ }]);
    let g6: Vec<Grammar> = Vec::new();
    assert(views(g6@) =~= Seq::<GrammarView>::empty());
    let g7 = Grammar::one_of_with(g5, g6);
    let g8: Vec<Grammar> = vec![Grammar::keyword("AS"), g7];
    assert(views(g8@) =~~= seq![GrammarView::Keyword { word: "AS"@ }, GrammarView::OneOf { elements: seq![GrammarView::Keyword { word: "STRUCT"@ }, GrammarView::Keyword { word: "VALUE"@ }], terminators: seq![] }]);
    let g9: Vec<Grammar> = Vec::new();
    assert(views(g9@) =~= Seq::<GrammarView>::empty());
    let g10 = Grammar::sequence_with(g8, g9, ParseMode::Strict);
    let g11 = g10.optional();
    let g12: Vec<Grammar> = vec![g4, g11];
    assert(views(g12@) =~~= seq![GrammarView::Optional { grammar: Box::new(GrammarView::OneOf { elements: seq![GrammarView::Keyword { word: "DISTINCT"@ }, GrammarView::Keyword { word: "ALL"@ }], terminators: seq![] }) }, GrammarView::Optional { grammar: Box::new(GrammarView::Sequence { elements: seq![GrammarView::Keyword { word: "AS"@ }, GrammarView::OneOf { elements: seq![GrammarView::Keyword { word: "STRUCT"@ }, GrammarView::Keyword { word: "VALUE"@ }], terminators: seq![] }], terminators: seq![], parse_mode: ParseMode::Strict }) }]);
    let g13: Vec<Grammar> = Vec::new();
    assert(views(g13@) =~= Seq::<GrammarView>::empty());
    let g14 = Grammar::sequence_with(g12, g13, ParseMode::Strict);
    g14
}

/// The BigQuery grammar of `IntervalExpressionSegment`.
pub open spec fn interval_expression_segment_grammar() -> GrammarView {
    GrammarView::Sequence { elements: seq![GrammarView::Keyword { word: "INTERVAL"@ }, GrammarView::Ref { name: "ExpressionSegment"@, optional: false }, GrammarView::OneOf { elements: seq![GrammarView::Ref { name: "QuotedLiteralSegment"@, optional: false }, GrammarView::Ref { name: "DatetimeUnitSegment"@, optional: false }, GrammarView::Sequence { elements: seq![GrammarView::Ref { name: "DatetimeUnitSegment"@, optional: false }, GrammarView::Keyword { word: "TO"@ }, GrammarView::Ref { name: "DatetimeUnitSegment"@, optional: false }], terminators: seq![], parse_mode: ParseMode::Strict }], terminators: seq![] }], terminators: seq![], parse_mode: ParseMode::Strict }
}

fn build_interval_expression_segment() -> (g: Grammar)
    ensures
        g@ =~~= interval_expression_segment_grammar(),
{
    let g1: Vec<Grammar> = vec![Grammar::reference("DatetimeUnitSegment"), Grammar::keyword("TO"), Grammar::reference("DatetimeUnitSegment")];
    assert(views(g1@) =~~= seq![GrammarView::Ref { name: "DatetimeUnitSegment"@, optional: false }, GrammarView::Keyword { word: "TO"@ }, GrammarView::Ref { name: "DatetimeUnitSegment"@, optional: false }]);
    let g2: Vec<Grammar> = Vec::new();
    assert(views(g2@) =~= Seq::<GrammarView>::empty());
    let g3 = Grammar::sequence_with(g1, g2, ParseMode::Strict);
    let g4: Vec<Grammar> = vec![Grammar::reference("QuotedLiteralSegment"), Grammar::reference("DatetimeUnitSegment"), g3];
    assert(views(g4@) =~~= seq![GrammarView::Ref { name: "QuotedLiteralSegment"@, optional: false }, GrammarView::Ref { name: "DatetimeUnitSegment"@, optional: false }, GrammarView::Sequence { elements: seq![GrammarView::Ref { name: "DatetimeUnitSegment"@, optional: false }, GrammarView::Keyword { word: "TO"@ }, GrammarView::Ref { name: "DatetimeUnitSegment"@, optional: false }], terminators: seq![], parse_mode: ParseMode::Strict }]);
    let g5: Vec<Grammar> = Vec::new();
    assert(views(g5@) =~= Seq::<GrammarView>::empty());
    let g6 = Grammar::one_of_with(g4, g5);
    let g7: Vec<Grammar> = vec![Grammar::keyword("INTERVAL"), Grammar::reference("ExpressionSegment"), g6];
    assert(views(g7@) =~~= seq![GrammarView::Keyword { word: "INTERVAL"@ }, GrammarView::Ref { name: "ExpressionSegment"@, optional: false }, GrammarView::OneOf { elements: seq![GrammarView::Ref { name: "QuotedLiteralSegment"@, optional: false }, GrammarView::Ref { name: "DatetimeUnitSegment"@, optional: false }, GrammarView::Sequence { elements: seq![GrammarView::Ref { name: "DatetimeUnitSegment"@, optional: false }, GrammarView::Keyword { word: "TO"@ }, GrammarView::Ref { name: "DatetimeUnitSegment"@, optional: false }], terminators: seq![], parse_mode: ParseMode::Strict }], terminators: seq![] }]);
    let g8: Vec<Grammar> = Vec::new();
    assert(views(g8@) =~= Seq::<GrammarView>::empty());
    let g9 = Grammar::sequence_with(g7, g8, ParseMode::Strict);
    g9
}

/// The BigQuery element `DateTimeFunctionContentsSegment`.
pub open spec fn date_time_function_contents_segment_element() -> ElementView {
    ElementView::Node { kind: "function_contents"@, grammar: GrammarView::Bracketed { elements: seq![GrammarView::Delimited { elements: seq![GrammarView::Ref { name: "DatetimeUnitSegment"@, optional: false }, GrammarView::Ref { name: "DatePartWeekSegment"@, optional: false }, GrammarView::Ref { name: "FunctionContentsGrammar"@, optional: false }], allow_trailing: false, delimiter: None, terminators: seq![], allow_gaps: true }], bracket_type: "round"@ } }
}

fn build_date_time_function_contents_segment() -> (e: Element)
    ensures
        e@ =~~= date_time_function_contents_segment_element(),
{
    let g1: Vec<Grammar> = vec![Grammar::reference("DatetimeUnitSegment"), Grammar::reference("DatePartWeekSegment"), Grammar::reference("FunctionContentsGrammar")];
    assert(views(g1@) =~~= seq![GrammarView::Ref { name: "DatetimeUnitSegment"@, optional: false }, GrammarView::Ref { name: "DatePartWeekSegment"@, optional: false }, GrammarView::Ref { name: "FunctionContentsGrammar"@, optional: false }]);
    let g2: Vec<Grammar> = Vec::new();
    assert(views(g2@) =~= Seq::<GrammarView>::empty());
    let g3 = Grammar::delimited_with(g1, false, None, g2, true);
    let g4: Vec<Grammar> = vec![g3];
    assert(views(g4@) =~~= seq![GrammarView::Delimited { elements: seq![GrammarView::Ref { name: "DatetimeUnitSegment"@, optional: false }, GrammarView::Ref { name: "DatePartWeekSegment"@, optional: false }, GrammarView::Ref { name: "FunctionContentsGrammar"@, optional: false }], allow_trailing: false, delimiter: None, terminators: seq![], allow_gaps: true }]);
    let g5 = Grammar::bracketed_with(g4, "round");
    Element::Node { kind: "function_contents", grammar: g5 }
}

/// The BigQuery element `ExtractFunctionContentsSegment`.
pub open spec fn extract_function_contents_segment_element() -> ElementView {
    ElementView::Node { kind: "function_contents"@, grammar: GrammarView::Bracketed { elements: seq![GrammarView::OneOf { elements: seq![GrammarView::Ref { name: "DatetimeUnitSegment"@, optional: false }, GrammarView::Ref { name: "DatePartWeekSegment"@, optional: false }, GrammarView::Ref { name: "ExtendedDatetimeUnitSegment"@, optional: false }], terminators: seq![] }, GrammarView::Keyword { word: "FROM"@ }, GrammarView::Ref { name: "ExpressionSegment"@, optional: false }], bracket_type: "round"@ } }
}

fn build_extract_function_contents_segment() -> (e: Element)
    ensures
        e@ =~~= extract_function_contents_segment_element(),
{
    let g1: Vec<Grammar> = vec![Grammar::reference("DatetimeUnitSegment"), Grammar::reference("DatePartWeekSegment"), Grammar::reference("ExtendedDatetimeUnitSegment")];
    assert(views(g1@) =~~= seq![GrammarView::Ref { name: "DatetimeUnitSegment"@, optional: false }, GrammarView::Ref { name: "DatePartWeekSegment"@, optional: false }, GrammarView::Ref { name: "ExtendedDatetimeUnitSegment"@, optional: false }]);
    let g2: Vec<Grammar> = Vec::new();
    assert(views(g2@) =~= Seq::<GrammarView>::empty());
    let g3 = Grammar::one_of_with(g1, g2);
    let g4: Vec<Grammar> = vec![g3, Grammar::keyword("FROM"), Grammar::reference("ExpressionSegment")];
    assert(views(g4@) =~~= seq![GrammarView::OneOf { elements: seq![GrammarView::Ref { name: "DatetimeUnitSegment"@, optional: false }, GrammarView::Ref { name: "DatePartWeekSegment"@, optional: false }, GrammarView::Ref { name: "ExtendedDatetimeUnitSegment"@, optional: false }], terminators: seq![] }, GrammarView::Keyword { word: "FROM"@ }, GrammarView::Ref { name: "ExpressionSegment"@, optional: false }]);
    let g5 = Grammar::bracketed_with(g4, "round");
    Element::Node { kind: "function_contents", grammar: g5 }
}

/// The BigQuery element `NormalizeFunctionContentsSegment`.
pub open spec fn normalize_function_contents_segment_element() -> ElementView {
    ElementView::Node { kind: "function_contents"@, grammar: GrammarView::Bracketed { elements: seq![GrammarView::Ref { name: "ExpressionSegment"@, optional: false }, GrammarView::Optional { grammar: Box::new(GrammarView::Sequence { elements: seq![GrammarView::Ref { name: "CommaSegment"@, optional: false }, GrammarView::OneOf { elements: seq![GrammarView::Keyword { word: "NFC"@ }, GrammarView::Keyword { word: "NFKC"@ }, GrammarView::Keyword { word: "NFD"@ }, GrammarView::Keyword { word: "NFKD"@ }], terminators: seq![] }], terminators: seq![], parse_mode: ParseMode::Strict }) }], bracket_type: "round"@ } }
}

fn build_normalize_function_contents_segment() -> (e: Element)
    ensures
        e@ =~~= normalize_function_contents_segment_element(),
{
    let g1: Vec<Grammar> = vec![Grammar::keyword("NFC"), Grammar::keyword("NFKC"), Grammar::keyword("NFD"), Grammar::keyword("NFKD")];
    assert(views(g1@) =~~= seq![GrammarView::Keyword { word: "NFC"@ }, GrammarView::Keyword { word: "NFKC"@ }, GrammarView::Keyword { word: "NFD"@ }, GrammarView::Keyword { word: "NFKD"@ }]);
    let g2: Vec<Grammar> = Vec::new();
    assert(views(g2@) =~= Seq::<GrammarView>::empty());
    let g3 = Grammar::one_of_with(g1, g2);
    let g4: Vec<Grammar> = vec![Grammar::reference("CommaSegment"), g3];
    assert(views(g4@) =~~= seq![GrammarView::Ref { name: "CommaSegment"@, optional: false }, GrammarView::OneOf { elements: seq![GrammarView::Keyword { word: "NFC"@ }, GrammarView::Keyword { word: "NFKC"@ }, GrammarView::Keyword { word: "NFD"@ }, GrammarView::Keyword { word: "NFKD"@ }], terminators: seq![] }]);
    let g5: Vec<Grammar> = Vec::new();
    assert(views(g5@) =~= Seq::<GrammarView>::empty());
    let g6 = Grammar::sequence_with(g4, g5, ParseMode::Strict);
    let g7 = g6.optional();
    let g8: Vec<Grammar> = vec![Grammar::reference("ExpressionSegment"), g7];
    assert(views(g8@) =~~= seq![GrammarView::Ref { name: "ExpressionSegment"@, optional: false }, GrammarView::Optional { grammar: Box::new(GrammarView::Sequence { elements: seq![GrammarView::Ref { name: "CommaSegment"@, optional: false }, GrammarView::OneOf { elements: seq![GrammarView::Keyword { word: "NFC"@ }, GrammarView::Keyword { word: "NFKC"@ }, GrammarView::Keyword { word: "NFD"@ }, GrammarView::Keyword { word: "NFKD"@ }], terminators: seq![] }], terminators: seq![], parse_mode: ParseMode::Strict }) }]);
    let g9 = Grammar::bracketed_with(g8, "round");
    Element::Node { kind: "function_contents", grammar: g9 }
}

/// The BigQuery element `ExtractFunctionNameSegment`.
pub open spec fn extract_function_name_segment_element() -> ElementView {
    ElementView::Node { kind: "function_name"@, grammar: GrammarView::StringParser { template: "EXTRACT"@, kind: "function_name_identifier"@ } }
}

fn build_extract_function_name_segment() -> (e: Element)
    ensures
        e@ =~~= extract_function_name_segment_element(),
{
    Element::Node { kind: "function_name", grammar: Grammar::string_parser("EXTRACT", "function_name_identifier") }
}

/// The BigQuery element `ArrayFunctionNameSegment`.
pub open spec fn array_function_name_segment_element() -> ElementView {
    ElementView::Node { kind: "function_name"@, grammar: GrammarView::StringParser { template: "ARRAY"@, kind: "function_name_identifier"@ } }
}

fn build_array_function_name_segment() -> (e: Element)
    ensures
        e@ =~~= array_function_name_segment_element(),
{
    Element::Node { kind: "function_name", grammar: Grammar::string_parser("ARRAY", "function_name_identifier") }
}

/// The BigQuery element `DatePartWeekSegment`.
pub open spec fn date_part_week_segment_element() -> ElementView {
    ElementView::Node { kind: "date_part_week"@, grammar: GrammarView::Sequence { elements: seq![GrammarView::Keyword { word: "WEEK"@ }, GrammarView::Bracketed { elements: seq![GrammarView::OneOf { elements: seq![GrammarView::Keyword { word: "SUNDAY"@ }, GrammarView::Keyword { word: "MONDAY"@ }, GrammarView::Keyword { word: "TUESDAY"@ }, GrammarView::Keyword { word: "WEDNESDAY"@ }, GrammarView::Keyword { word: "THURSDAY"@ }, GrammarView::Keyword { word: "FRIDAY"@ }, GrammarView::Keyword { word: "SATURDAY"@ }], terminators: seq![] }], bracket_type: "round"@ }], terminators: seq![], parse_mode: ParseMode::Strict } }
}

fn build_date_part_week_segment() -> (e: Element)
    ensures
        e@ =~~= date_part_week_segment_element(),
{
    let g1: Vec<Grammar> = vec![Grammar::keyword("SUNDAY"), Grammar::keyword("MONDAY"), Grammar::keyword("TUESDAY"), Grammar::keyword("WEDNESDAY"), Grammar::keyword("THURSDAY"), Grammar::keyword("FRIDAY"), Grammar::keyword("SATURDAY")];
    assert(views(g1@) =~~= seq![GrammarView::Keyword { word: "SUNDAY"@ }, GrammarView::Keyword { word: "MONDAY"@ }, GrammarView::Keyword { word: "TUESDAY"@ }, GrammarView::Keyword { word: "WEDNESDAY"@ }, GrammarView::Keyword { word: "THURSDAY"@ }, GrammarView::Keyword { word: "FRIDAY"@ }, GrammarView::Keyword { word: "SATURDAY"@ }]);
    let g2: Vec<Grammar> = Vec::new();
    assert(views(g2@) =~= Seq::<GrammarView>::empty());
    let g3 = Grammar::one_of_with(g1, g2);
    let g4: Vec<Grammar> = vec![g3];
    assert(views(g4@) =~~= seq![GrammarView::OneOf { elements: seq![GrammarView::Keyword { word: "SUNDAY"@ }, GrammarView::Keyword { word: "MONDAY"@ }, GrammarView::Keyword { word: "TUESDAY"@ }, GrammarView::Keyword { word: "WEDNESDAY"@ }, GrammarView::Keyword { word: "THURSDAY"@ }, GrammarView::Keyword { word: "FRIDAY"@ }, GrammarView::Keyword { word: "SATURDAY"@ }], terminators: seq![] }]);
    let g5 = Grammar::bracketed_with(g4, "round");
    let g6: Vec<Grammar> = vec![Grammar::keyword("WEEK"), g5];
    assert(views(g6@) =~~= seq![GrammarView::Keyword { word: "WEEK"@ }, GrammarView::Bracketed { elements: seq![GrammarView::OneOf { elements: seq![GrammarView::Keyword { word: "SUNDAY"@ }, GrammarView::Keyword { word: "MONDAY"@ }, GrammarView::Keyword { word: "TUESDAY"@ }, GrammarView::Keyword { word: "WEDNESDAY"@ }, GrammarView::Keyword { word: "THURSDAY"@ }, GrammarView::Keyword { word: "FRIDAY"@ }, GrammarView::Keyword { word: "SATURDAY"@ }], terminators: seq![] }], bracket_type: "round"@ }]);
    let g7: Vec<Grammar> = Vec::new();
    assert(views(g7@) =~= Seq::<GrammarView>::empty());
    let g8 = Grammar::sequence_with(g6, g7, ParseMode::Strict);
    Element::Node { kind: "date_part_week", grammar: g8 }
}

/// The BigQuery element `NormalizeFunctionNameSegment`.
pub open spec fn normalize_function_name_segment_element() -> ElementView {
    ElementView::Node { kind: "function_name"@, grammar: GrammarView::OneOf { elements: seq![GrammarView::StringParser { template: "NORMALIZE"@, kind: "function_name_identifier"@ }, GrammarView::StringParser { template: "NORMALIZE_AND_CASEFOLD"@, kind: "function_name_identifier"@ }], terminators: seq![] } }
}

fn build_normalize_function_name_segment() -> (e: Element)
    ensures
        e@ =~~= normalize_function_name_segment_element(),
{
    let g1: Vec<Grammar> = vec![Grammar::string_parser("NORMALIZE", "function_name_identifier"), Grammar::string_parser("NORMALIZE_AND_CASEFOLD", "function_name_identifier")];
    assert(views(g1@) =~~= seq![GrammarView::StringParser { template: "NORMALIZE"@, kind: "function_name_identifier"@ }, GrammarView::StringParser { template: "NORMALIZE_AND_CASEFOLD"@, kind: "function_name_identifier"@ }]);
    let g2: Vec<Grammar> = Vec::new();
    assert(views(g2@) =~= Seq::<GrammarView>::empty());
    let g3 = Grammar::one_of_with(g1, g2);
    Element::Node { kind: "function_name", grammar: g3 }
}

/// The BigQuery grammar of `FunctionNameSegment`.
pub open spec fn function_name_segment_grammar() -> GrammarView {
    GrammarView::Sequence { elements: seq![GrammarView::AnyNumberOf { elements: seq![GrammarView::Sequence { elements: seq![GrammarView::OneOf { elements: seq![GrammarView::Keyword { word: "SAFE"@ }, GrammarView::Ref { name: "SingleIdentifierGrammar"@, optional: false }], terminators: seq![] }, GrammarView::Ref { name: "DotSegment"@, optional: false }], terminators: seq![GrammarView::Ref { name: "BracketedSegment"@, optional: false }], parse_mode: ParseMode::Strict }], terminators: seq![], min_times: 0, max_times: None }, GrammarView::OneOf { elements: seq![GrammarView::Ref { name: "FunctionNameIdentifierSegment"@, optional: false }, GrammarView::Ref { name: "QuotedIdentifierSegment"@, optional: false }], terminators: seq![GrammarView::Ref { name: "BracketedSegment"@, optional: false }] }], terminators: seq![], parse_mode: ParseMode::Strict }
}

fn build_function_name_segment() -> (g: Grammar)
    ensures
        g@ =~~= function_name_segment_grammar(),
{
    let g1: Vec<Grammar> = vec![Grammar::keyword("SAFE"), Grammar::reference("SingleIdentifierGrammar")];
    assert(views(g1@) =~~= seq![GrammarView::Keyword { word: "SAFE"@ }, GrammarView::Ref { name: "SingleIdentifierGrammar"@, optional: false }]);
    let g2: Vec<Grammar> = Vec::new();
    assert(views(g2@) =~= Seq::<GrammarView>::empty());
    let g3 = Grammar::one_of_with(g1, g2);
    let g4: Vec<Grammar> = vec![g3, Grammar::reference("DotSegment")];
    assert(views(g4@) =~~= seq![GrammarView::OneOf { elements: seq![GrammarView::Keyword { word: "SAFE"@ }, GrammarView::Ref { name: "SingleIdentifierGrammar"@, optional: false }], terminators: seq![] }, GrammarView::Ref { name: "DotSegment"@, optional: false }]);
    let g5: Vec<Grammar> = vec![Grammar::reference("BracketedSegment")];
    assert(views(g5@) =~~= seq![GrammarView::Ref { name: "BracketedSegment"@, optional: false }]);
    let g6 = Grammar::sequence_with(g4, g5, ParseMode::Strict);
    let g7: Vec<Grammar> = vec![g6];
    assert(views(g7@) =~~= seq![GrammarView::Sequence { elements: seq![GrammarView::OneOf { elements: seq![GrammarView::Keyword { word: "SAFE"@ }, GrammarView::Ref { name: "SingleIdentifierGrammar"@, optional: false }], terminators: seq![] }, GrammarView::Ref { name: "DotSegment"@, optional: false }], terminators: seq![GrammarView::Ref { name: "BracketedSegment"@, optional: false }], parse_mode: ParseMode::Strict }]);
    let g8: Vec<Grammar> = Vec::new();
    assert(views(g8@) =~= Seq::<GrammarView>::empty());
    let g9 = Grammar::any_number_of_with(g7, g8, 0, None);
    let g10: Vec<Grammar> = vec![Grammar::reference("FunctionNameIdentifierSegment"), Grammar::reference("QuotedIdentifierSegment")];
    assert(views(g10@) =~~= seq![GrammarView::Ref { name: "FunctionNameIdentifierSegment"@, optional: false }, GrammarView::Ref { name: "QuotedIdentifierSegment"@, optional: false }]);
    let g11: Vec<Grammar> = vec![Grammar::reference("BracketedSegment")];
    assert(views(g11@) =~~= seq![GrammarView::Ref { name: "BracketedSegment"@, optional: false }]);
    let g12 = Grammar::one_of_with(g10, g11);
    let g13: Vec<Grammar> = vec![g9, g12];
    assert(views(g13@) =~~= seq![GrammarView::AnyNumberOf { elements: seq![GrammarView::Sequence { elements: seq![GrammarView::OneOf { elements: seq![GrammarView::Keyword { word: "SAFE"@ }, GrammarView::Ref { name: "SingleIdentifierGrammar"@, optional: false }], terminators: seq![] }, GrammarView::Ref { name: "DotSegment"@, optional: false }], terminators: seq![GrammarView::Ref { name: "BracketedSegment"@, optional: false }], parse_mode: ParseMode::Strict }], terminators: seq![], min_times: 0, max_times: None }, GrammarView::OneOf { elements: seq![GrammarView::Ref { name: "FunctionNameIdentifierSegment"@, optional: false }, GrammarView::Ref { name: "QuotedIdentifierSegment"@, optional: false }], terminators: seq![GrammarView::Ref { name: "BracketedSegment"@, optional: false }] }]);
    let g14: Vec<Grammar> = Vec::new();
    assert(views(g14@) =~= Seq::<GrammarView>::empty());
    let g15 = Grammar::sequence_with(g13, g14, ParseMode::Strict);
    g15
}

/// The BigQuery grammar of `FunctionSegment`.
pub open spec fn function_segment_grammar() -> GrammarView {
    GrammarView::WithoutGaps { grammar: Box::new(GrammarView::Sequence { elements: seq![GrammarView::OneOf { elements: seq![GrammarView::Sequence { elements: seq![GrammarView::Ref { name: "ExtractFunctionNameSegment"@, optional: false }, GrammarView::Ref { name: "ExtractFunctionContentsSegment"@, optional: false }], terminators: seq![], parse_mode: ParseMode::Strict }, GrammarView::Sequence { elements: seq![GrammarView::Ref { name: "NormalizeFunctionNameSegment"@, optional: false }, GrammarView::Ref { name: "NormalizeFunctionContentsSegment"@, optional: false }], terminators: seq![], parse_mode: ParseMode::Strict }, GrammarView::Sequence { elements: seq![GrammarView::Exclude { grammar: Box::new(GrammarView::Ref { name: "DatePartFunctionNameSegment"@, optional: false }), exclude: Box::new(GrammarView::Ref { name: "ExtractFunctionNameSegment"@, optional: false }) }, GrammarView::Ref { name: "DateTimeFunctionContentsSegment"@, optional: false }], terminators: seq![], parse_mode: ParseMode::Strict }, GrammarView::Sequence { elements: seq![GrammarView::Sequence { elements: seq![GrammarView::Exclude { grammar: Box::new(GrammarView::Ref { name: "FunctionNameSegment"@, optional: false }), exclude: Box::new(GrammarView::OneOf { elements: seq![GrammarView::Ref { name: "DatePartFunctionNameSegment"@, optional: false }, GrammarView::Ref { name: "NormalizeFunctionNameSegment"@, optional: false }, GrammarView::Ref { name: "ValuesClauseSegment"@, optional: false }], terminators: seq![] }) }, GrammarView::Ref { name: "FunctionContentsSegment"@, optional: false }], terminators: seq![], parse_mode: ParseMode::Strict }, GrammarView::Ref { name: "ArrayAccessorSegment"@, optional: true }, GrammarView::Ref { name: "SemiStructuredAccessorSegment"@, optional: true }, GrammarView::Ref { name: "PostFunctionGrammar"@, optional: true }], terminators: seq![], parse_mode: ParseMode::Strict }], terminators: seq![] }], terminators: seq![], parse_mode: ParseMode::Strict }) }
}

fn build_function_segment() -> (g: Grammar)
    ensures
        g@ =~~= function_segment_grammar(),
{
    let g1: Vec<Grammar> = vec![Grammar::reference("ExtractFunctionNameSegment"), Grammar::reference("ExtractFunctionContentsSegment")];
    assert(views(g1@) =~~= seq![GrammarView::Ref { name: "ExtractFunctionNameSegment"@, optional: false }, GrammarView::Ref { name: "ExtractFunctionContentsSegment"@, optional: false }]);
    let g2: Vec<Grammar> = Vec::new();
    assert(views(g2@) =~= Seq::<GrammarView>::empty());
    let g3 = Grammar::sequence_with(g1, g2, ParseMode::Strict);
    let g4: Vec<Grammar> = vec![Grammar::reference("NormalizeFunctionNameSegment"), Grammar::reference("NormalizeFunctionContentsSegment")];
    assert(views(g4@) =~~= seq![GrammarView::Ref { name: "NormalizeFunctionNameSegment"@, optional: false }, GrammarView::Ref { name: "NormalizeFunctionContentsSegment"@, optional: false }]);
    let g5: Vec<Grammar> = Vec::new();
    assert(views(g5@) =~= Seq::<GrammarView>::empty());
    let g6 = Grammar::sequence_with(g4, g5, ParseMode::Strict);
    let g7 = Grammar::reference("DatePartFunctionNameSegment").exclude(Grammar::reference("ExtractFunctionNameSegment"));
    let g8: Vec<Grammar> = vec![g7, Grammar::reference("DateTimeFunctionContentsSegment")];
    assert(views(g8@) =~~= seq![GrammarView::Exclude { grammar: Box::new(GrammarView::Ref { name: "DatePartFunctionNameSegment"@, optional: false }), exclude: Box::new(GrammarView::Ref { name: "ExtractFunctionNameSegment"@, optional: false }) }, GrammarView::Ref { name: "DateTimeFunctionContentsSegment"@, optional: false }]);
    let g9: Vec<Grammar> = Vec::new();
    assert(views(g9@) =~= Seq::<GrammarView>::empty());
    let g10 = Grammar::sequence_with(g8, g9, ParseMode::Strict);
    let g11: Vec<Grammar> = vec![Grammar::reference("DatePartFunctionNameSegment"), Grammar::reference("NormalizeFunctionNameSegment"), Grammar::reference("ValuesClauseSegment")];
    assert(views(g11@) =~~= seq![GrammarView::Ref { name: "DatePartFunctionNameSegment"@, optional: false }, GrammarView::Ref { name: "NormalizeFunctionNameSegment"@, optional: false }, GrammarView::Ref { name: "ValuesClauseSegment"@, optional: false }]);
    let g12: Vec<Grammar> = Vec::new();
    assert(views(g12@) =~= Seq::<GrammarView>::empty());
    let g13 = Grammar::one_of_with(g11, g12);
    let g14 = Grammar::reference("FunctionNameSegment").exclude(g13);
    let g15: Vec<Grammar> = vec![g14, Grammar::reference("FunctionContentsSegment")];
    assert(views(g15@) =~~= seq![GrammarView::Exclude { grammar: Box::new(GrammarView::Ref { name: "FunctionNameSegment"@, optional: false }), exclude: Box::new(GrammarView::OneOf { elements: seq![GrammarView::Ref { name: "DatePartFunctionNameSegment"@, optional: false }, GrammarView::Ref { name: "NormalizeFunctionNameSegment"@, optional: false }, GrammarView::Ref { name: "ValuesClauseSegment"@, optional: false }], terminators: seq![] }) }, GrammarView::Ref { name: "FunctionContentsSegment"@, optional: false }]);
    let g16: Vec<Grammar> = Vec::new();
    assert(views(g16@) =~= Seq::<GrammarView>::empty());
    let g17 = Grammar::sequence_with(g15, g16, ParseMode::Strict);
    let g18: Vec<Grammar> = vec![g17, Grammar::optional_reference("ArrayAccessorSegment"), Grammar::optional_reference("SemiStructuredAccessorSegment"), Grammar::optional_reference("PostFunctionGrammar")];
    assert(views(g18@) =~~= seq![GrammarView::Sequence { elements: seq![GrammarView::Exclude { grammar: Box::new(GrammarView::Ref { name: "FunctionNameSegment"@, optional: false }), exclude: Box::new(GrammarView::OneOf { elements: seq![GrammarView::Ref { name: "DatePartFunctionNameSegment"@, optional: false }, GrammarView::Ref { name: "NormalizeFunctionNameSegment"@, optional: false }, GrammarView::Ref { name: "ValuesClauseSegment"@, optional: false }], terminators: seq![] }) }, GrammarView::Ref { name: "FunctionContentsSegment"@, optional: false }], terminators: seq![], parse_mode: ParseMode::Strict }, GrammarView::Ref { name: "ArrayAccessorSegment"@, optional: true }, GrammarView::Ref { name: "SemiStructuredAccessorSegment"@, optional: true }, GrammarView::Ref { name: "PostFunctionGrammar"@, optional: true }]);
    let g19: Vec<Grammar> = Vec::new();
    assert(views(g19@) =~= Seq::<GrammarView>::empty());
    let g20 = Grammar::sequence_with(g18, g19, ParseMode::Strict);
    let g21: Vec<Grammar> = vec![g3, g6, g10, g20];
    assert(views(g21@) =~~= seq![GrammarView::Sequence { elements: seq![GrammarView::Ref { name: "ExtractFunctionNameSegment"@, optional: false }, GrammarView::Ref { name: "ExtractFunctionContentsSegment"@, optional: false }], terminators: seq![], parse_mode: ParseMode::Strict }, GrammarView::Sequence { elements: seq![GrammarView::Ref { name: "NormalizeFunctionNameSegment"@, optional: false }, GrammarView::Ref { name: "NormalizeFunctionContentsSegment"@, optional: false }], terminators: seq![], parse_mode: ParseMode::Strict }, GrammarView::Sequence { elements: seq![GrammarView::Exclude { grammar: Box::new(GrammarView::Ref { name: "DatePartFunctionNameSegment"@, optional: false }), exclude: Box::new(GrammarView::Ref { name: "ExtractFunctionNameSegment"@, optional: false }) }, GrammarView::Ref { name: "DateTimeFunctionContentsSegment"@, optional: false }], terminators: seq![], parse_mode: ParseMode::Strict }, GrammarView::Sequence { elements: seq![GrammarView::Sequence { elements: seq![GrammarView::Exclude { grammar: Box::new(GrammarView::Ref { name: "FunctionNameSegment"@, optional: false }), exclude: Box::new(GrammarView::OneOf { elements: seq![GrammarView::Ref { name: "DatePartFunctionNameSegment"@, optional: false }, GrammarView::Ref { name: "NormalizeFunctionNameSegment"@, optional: false }, GrammarView::Ref { name: "ValuesClauseSegment"@, optional: false }], terminators: seq![] }) }, GrammarView::Ref { name: "FunctionContentsSegment"@, optional: false }], terminators: seq![], parse_mode: ParseMode::Strict }, GrammarView::Ref { name: "ArrayAccessorSegment"@, optional: true }, GrammarView::Ref { name: "SemiStructuredAccessorSegment"@, optional: true }, GrammarView::Ref { name: "PostFunctionGrammar"@, optional: true }], terminators: seq![], parse_mode: ParseMode::Strict }]);
    let g22: Vec<Grammar> = Vec::new();
    assert(views(g22@) =~= Seq::<GrammarView>::empty());
    let g23 = Grammar::one_of_with(g21, g22);
    let g24: Vec<Grammar> = vec![g23];
    assert(views(g24@) =~~= seq![GrammarView::OneOf { elements: seq![GrammarView::Sequence { elements: seq![GrammarView::Ref { name: "ExtractFunctionNameSegment"@, optional: false }, GrammarView::Ref { name: "ExtractFunctionContentsSegment"@, optional: false }], terminators: seq![], parse_mode: ParseMode::Strict }, GrammarView::Sequence { elements: seq![GrammarView::Ref { name: "NormalizeFunctionNameSegment"@, optional: false }, GrammarView::Ref { name: "NormalizeFunctionContentsSegment"@, optional: false }], terminators: seq![], parse_mode: ParseMode::Strict }, GrammarView::Sequence { elements: seq![GrammarView::Exclude { grammar: Box::new(GrammarView::Ref { name: "DatePartFunctionNameSegment"@, optional: false }), exclude: Box::new(GrammarView::Ref { name: "ExtractFunctionNameSegment"@, optional: false }) }, GrammarView::Ref { name: "DateTimeFunctionContentsSegment"@, optional: false }], terminators: seq![], parse_mode: ParseMode::Strict }, GrammarView::Sequence { elements: seq![GrammarView::Sequence { elements: seq![GrammarView::Exclude { grammar: Box::new(GrammarView::Ref { name: "FunctionNameSegment"@, optional: false }), exclude: Box::new(GrammarView::OneOf { elements: seq![GrammarView::Ref { name: "DatePartFunctionNameSegment"@, optional: false }, GrammarView::Ref { name: "NormalizeFunctionNameSegment"@, optional: false }, GrammarView::Ref { name: "ValuesClauseSegment"@, optional: false }], terminators: seq![] }) }, GrammarView::Ref { name: "FunctionContentsSegment"@, optional: false }], terminators: seq![], parse_mode: ParseMode::Strict }, GrammarView::Ref { name: "ArrayAccessorSegment"@, optional: true }, GrammarView::Ref { name: "SemiStructuredAccessorSegment"@, optional: true }, GrammarView::Ref { name: "PostFunctionGrammar"@, optional: true }], terminators: seq![], parse_mode: ParseMode::Strict }], terminators: seq![] }]);
    let g25: Vec<Grammar> = Vec::new();
    assert(views(g25@) =~= Seq::<GrammarView>::empty());
    let g26 = Grammar::sequence_with(g24, g25, ParseMode::Strict);
    let g27 = g26.without_gaps();
    g27
}

/// The BigQuery grammar of `FunctionDefinitionGrammar`.
pub open spec fn function_definition_grammar_grammar() -> GrammarView {
    GrammarView::Sequence { elements: seq![GrammarView::AnyNumberOf { elements: seq![GrammarView::Optional { grammar: Box::new(GrammarView::Sequence { elements: seq![GrammarView::OneOf { elements: seq![GrammarView::Keyword { word: "DETERMINISTIC"@ }, GrammarView::Sequence { elements: seq![GrammarView::Keyword { word: "NOT"@ }, GrammarView::Keyword { word: "DETERMINISTIC"@ }], terminators: seq![], parse_mode: ParseMode::Strict }], terminators: seq![] }], terminators: seq![], parse_mode: ParseMode::Strict }) }, GrammarView::Sequence { elements: seq![GrammarView::Keyword { word: "LANGUAGE"@ }, GrammarView::Ref { name: "NakedIdentifierSegment"@, optional: false }, GrammarView::Optional { grammar: Box::new(GrammarView::Sequence { elements: seq![GrammarView::Keyword { word: "OPTIONS"@ }, GrammarView::Bracketed { elements: seq![GrammarView::Delimited { elements: seq![GrammarView::Sequence { elements: seq![GrammarView::Ref { name: "ParameterNameSegment"@, optional: false }, GrammarView::Ref { name: "EqualsSegment"@, optional: false }, GrammarView::Anything], terminators: seq![], parse_mode: ParseMode::Strict }, GrammarView::Ref { name: "CommaSegment"@, optional: false }], allow_trailing: false, delimiter: None, terminators: seq![], allow_gaps: true }], bracket_type: "round"@ }], terminators: seq![], parse_mode: ParseMode::Strict }) }], terminators: seq![], parse_mode: ParseMode::Strict }, GrammarView::Sequence { elements: seq![GrammarView::Keyword { word: "AS"@ }, GrammarView::OneOf { elements: seq![GrammarView::Ref { name: "DoubleQuotedUDFBody"@, optional: false }, GrammarView::Ref { name: "SingleQuotedUDFBody"@, optional: false }, GrammarView::Bracketed { elements: seq![GrammarView::OneOf { elements: seq![GrammarView::Ref { name: "ExpressionSegment"@, optional: false }, GrammarView::Ref { name: "SelectStatementSegment"@, optional: false }], terminators: seq![] }], bracket_type: "round"@ }], terminators: seq![] }], terminators: seq![], parse_mode: ParseMode::Strict }], terminators: seq![], min_times: 0, max_times: None }], terminators: seq![], parse_mode: ParseMode::Strict }
}

#[verifier::rlimit(100)]
fn build_function_definition_grammar() -> (g: Grammar)
    ensures
        g@ =~~= function_definition_grammar_grammar(),
{
    let g1: Vec<Grammar> = vec![Grammar::keyword("NOT"), Grammar::keyword("DETERMINISTIC")];
    assert(views(g1@) =~~= seq![GrammarView::Keyword { word: "NOT"@ }, GrammarView::Keyword { word: "DETERMINISTIC"@ }]);
    let g2: Vec<Grammar> = Vec::new();
    assert(views(g2@) =~= Seq::<GrammarView>::empty());
    let g3 = Grammar::sequence_with(g1, g2, ParseMode::Strict);
    let g4: Vec<Grammar> = vec![Grammar::keyword("DETERMINISTIC"), g3];
    assert(views(g4@) =~~= seq![GrammarView::Keyword { word: "DETERMINISTIC"@ }, GrammarView::Sequence { elements: seq![GrammarView::Keyword { word: "NOT"@ }, GrammarView::Keyword { word: "DETERMINISTIC"@ }], terminators: seq![], parse_mode: ParseMode::Strict }]);
    let g5: Vec<Grammar> = Vec::new();
    assert(views(g5@) =~= Seq::<GrammarView>::empty());
    let g6 = Grammar::one_of_with(g4, g5);
    let g7: Vec<Grammar> = vec![g6];
    assert(views(g7@) =~~= seq![GrammarView::OneOf { elements: seq![GrammarView::Keyword { word: "DETERMINISTIC"@ }, GrammarView::Sequence { elements: seq![GrammarView::Keyword { word: "NOT"@ }, GrammarView::Keyword { word: "DETERMINISTIC"@ }], terminators: seq![], parse_mode: ParseMode::Strict }], terminators: seq![] }]);
    let g8: Vec<Grammar> = Vec::new();
    assert(views(g8@) =~= Seq::<GrammarView>::empty());
    let g9 = Grammar::sequence_with(g7, g8, ParseMode::Strict);
    let g10 = g9.optional();
    let g11: Vec<Grammar> = vec![Grammar::reference("ParameterNameSegment"), Grammar::reference("EqualsSegment"), Grammar::anything()];
    assert(views(g11@) =~~= seq![GrammarView::Ref { name: "ParameterNameSegment"@, optional: false }, GrammarView::Ref { name: "EqualsSegment"@, optional: false }, GrammarView::Anything]);
    let g12: Vec<Grammar> = Vec::new();
    assert(views(g12@) =~= Seq::<GrammarView>::empty());
    let g13 = Grammar::sequence_with(g11, g12, ParseMode::Strict);
    let g14: Vec<Grammar> = vec![g13, Grammar::reference("CommaSegment")];
    assert(views(g14@) =~~= seq![GrammarView::Sequence { elements: seq![GrammarView::Ref { name: "ParameterNameSegment"@, optional: false }, GrammarView::Ref { name: "EqualsSegment"@, optional: false }, GrammarView::Anything], terminators: seq![], parse_mode: ParseMode::Strict }, GrammarView::Ref { name: "CommaSegment"@, optional: false }]);
    let g15: Vec<Grammar> = Vec::new();
    assert(views(g15@) =~= Seq::<GrammarView>::empty());
    let g16 = Grammar::delimited_with(g14, false, None, g15, true);
    let g17: Vec<Grammar> = vec![g16];
    assert(views(g17@) =~~= seq![GrammarView::Delimited { elements: seq![GrammarView::Sequence { elements: seq![GrammarView::Ref { name: "ParameterNameSegment"@, optional: false }, GrammarView::Ref { name: "EqualsSegment"@, optional: false }, GrammarView::Anything], terminators: seq![], parse_mode: ParseMode::Strict }, GrammarView::Ref { name: "CommaSegment"@, optional: false }], allow_trailing: false, delimiter: None, terminators: seq![], allow_gaps: true }]);
    let g18 = Grammar::bracketed_with(g17, "round");
    let g19: Vec<Grammar> = vec![Grammar::keyword("OPTIONS"), g18];
    assert(views(g19@) =~~= seq![GrammarView::Keyword { word: "OPTIONS"@ }, GrammarView::Bracketed { elements: seq![GrammarView::Delimited { elements: seq![GrammarView::Sequence { elements: seq![GrammarView::Ref { name: "ParameterNameSegment"@, optional: false }, GrammarView::Ref { name: "EqualsSegment"@, optional: false }, GrammarView::Anything], terminators: seq![], parse_mode: ParseMode::Strict }, GrammarView::Ref { name: "CommaSegment"@, optional: false }], allow_trailing: false, delimiter: None, terminators: seq![], allow_gaps: true }], bracket_type: "round"@ }]);
    let g20: Vec<Grammar> = Vec::new();
    assert(views(g20@) =~= Seq::<GrammarView>::empty());
    let g21 = Grammar::sequence_with(g19, g20, ParseMode::Strict);
    let g22 = g21.optional();
    let g23: Vec<Grammar> = vec![Grammar::keyword("LANGUAGE"), Grammar::reference("NakedIdentifierSegment"), g22];
    assert(views(g23@) =~~= seq![GrammarView::Keyword { word: "LANGUAGE"@ }, GrammarView::Ref { name: "NakedIdentifierSegment"@, optional: false }, GrammarView::Optional { grammar: Box::new(GrammarView::Sequence { elements: seq![GrammarView::Keyword { word: "OPTIONS"@ }, GrammarView::Bracketed { elements: seq![GrammarView::Delimited { elements: seq![GrammarView::Sequence { elements: seq![GrammarView::Ref { name: "ParameterNameSegment"@, optional: false }, GrammarView::Ref { name: "EqualsSegment"@, optional: false }, GrammarView::Anything], terminators: seq![], parse_mode: ParseMode::Strict }, GrammarView::Ref { name: "CommaSegment"@, optional: false }], allow_trailing: false, delimiter: None, terminators: seq![], allow_gaps: true }], bracket_type: "round"@ }], terminators: seq![], parse_mode: ParseMode::Strict }) }]);
    let g24: Vec<Grammar> = Vec::new();
    assert(views(g24@) =~= Seq::<GrammarView>::empty());
    let g25 = Grammar::sequence_with(g23, g24, ParseMode::Strict);
    let g26: Vec<Grammar> = vec![Grammar::reference("ExpressionSegment"), Grammar::reference("SelectStatementSegment")];
    assert(views(g26@) =~~= seq![GrammarView::Ref { name: "ExpressionSegment"@, optional: false }, GrammarView::Ref { name: "SelectStatementSegment"@, optional: false }]);
    let g27: Vec<Grammar> = Vec::new();
    assert(views(g27@) =~= Seq::<GrammarView>::empty());
    let g28 = Grammar::one_of_with(g26, g27);
    let g29: Vec<Grammar> = vec![g28];
    assert(views(g29@) =~~= seq![GrammarView::OneOf { elements: seq![GrammarView::Ref { name: "ExpressionSegment"@, optional: false }, GrammarView::Ref { name: "SelectStatementSegment"@, optional: false }], terminators: seq![] }]);
    let g30 = Grammar::bracketed_with(g29, "round");
    let g31: Vec<Grammar> = vec![Grammar::reference("DoubleQuotedUDFBody"), Grammar::reference("SingleQuotedUDFBody"), g30];
    assert(views(g31@) =~~= seq![GrammarView::Ref { name: "DoubleQuotedUDFBody"@, optional: false }, GrammarView::Ref { name: "SingleQuotedUDFBody"@, optional: false }, GrammarView::Bracketed { elements: seq![GrammarView::OneOf { elements: seq![GrammarView::Ref { name: "ExpressionSegment"@, optional: false }, GrammarView::Ref { name: "SelectStatementSegment"@, optional: false }], terminators: seq![] }], bracket_type: "round"@ }]);
    let g32: Vec<Grammar> = Vec::new();
    assert(views(g32@) =~= Seq::<GrammarView>::empty());
    let g33 = Grammar::one_of_with(g31, g32);
    let g34: Vec<Grammar> = vec![Grammar::keyword("AS"), g33];
    assert(views(g34@) =~~= seq![GrammarView::Keyword { word: "AS"@ }, GrammarView::OneOf { elements: seq![GrammarView::Ref { name: "DoubleQuotedUDFBody"@, optional: false }, GrammarView::Ref { name: "SingleQuotedUDFBody"@, optional: false }, GrammarView::Bracketed { elements: seq![GrammarView::OneOf { elements: seq![GrammarView::Ref { name: "ExpressionSegment"@, optional: false }, GrammarView::Ref { name: "SelectStatementSegment"@, optional: false }], terminators: seq![] }], bracket_type: "round"@ }], terminators: seq![] }]);
    let g35: Vec<Grammar> = Vec::new();
    assert(views(g35@) =~= Seq::<GrammarView>::empty());
    let g36 = Grammar::sequence_with(g34, g35, ParseMode::Strict);
    let g37: Vec<Grammar> = vec![g10, g25, g36];
    assert(views(g37@) =~~= seq![GrammarView::Optional { grammar: Box::new(GrammarView::Sequence { elements: seq![GrammarView::OneOf { elements: seq![GrammarView::Keyword { word: "DETERMINISTIC"@ }, GrammarView::Sequence { elements: seq![GrammarView::Keyword { word: "NOT"@ }, GrammarView::Keyword { word: "DETERMINISTIC"@ }], terminators: seq![], parse_mode: ParseMode::Strict }], terminators: seq![] }], terminators: seq![], parse_mode: ParseMode::Strict }) }, GrammarView::Sequence { elements: seq![GrammarView::Keyword { word: "LANGUAGE"@ }, GrammarView::Ref { name: "NakedIdentifierSegment"@, optional: false }, GrammarView::Optional { grammar: Box::new(GrammarView::Sequence { elements: seq![GrammarView::Keyword { word: "OPTIONS"@ }, GrammarView::Bracketed { elements: seq![GrammarView::Delimited { elements: seq![GrammarView::Sequence { elements: seq![GrammarView::Ref { name: "ParameterNameSegment"@, optional: false }, GrammarView::Ref { name: "EqualsSegment"@, optional: false }, GrammarView::Anything], terminators: seq![], parse_mode: ParseMode::Strict }, GrammarView::Ref { name: "CommaSegment"@, optional: false }], allow_trailing: false, delimiter: None, terminators: seq![], allow_gaps: true }], bracket_type: "round"@ }], terminators: seq![], parse_mode: ParseMode::Strict }) }], terminators: seq![], parse_mode: ParseMode::Strict }, GrammarView::Sequence { elements: seq![GrammarView::Keyword { word: "AS"@ }, GrammarView::OneOf { elements: seq![GrammarView::Ref { name: "DoubleQuotedUDFBody"@, optional: false }, GrammarView::Ref { name: "SingleQuotedUDFBody"@, optional: false }, GrammarView::Bracketed { elements: seq![GrammarView::OneOf { elements: seq![GrammarView::Ref { name: "ExpressionSegment"@, optional: false }, GrammarView::Ref { name: "SelectStatementSegment"@, optional: false }], terminators: seq![] }], bracket_type: "round"@ }], terminators: seq![] }], terminators: seq![], parse_mode: ParseMode::Strict }]);
    let g38: Vec<Grammar> = Vec::new();
    assert(views(g38@) =~= Seq::<GrammarView>::empty());
    let g39 = Grammar::any_number_of_with(g37, g38, 0, None);
    let g40: Vec<Grammar> = vec![g39];
    assert(views(g40@) =~~= seq![GrammarView::AnyNumberOf { elements: seq![GrammarView::Optional { grammar: Box::new(GrammarView::Sequence { elements: seq![GrammarView::OneOf { elements: seq![GrammarView::Keyword { word: "DETERMINISTIC"@ }, GrammarView::Sequence { elements: seq![GrammarView::Keyword { word: "NOT"@ }, GrammarView::Keyword { word: "DETERMINISTIC"@ }], terminators: seq![], parse_mode: ParseMode::Strict }], terminators: seq![] }], terminators: seq![], parse_mode: ParseMode::Strict }) }, GrammarView::Sequence { elements: seq![GrammarView::Keyword { word: "LANGUAGE"@ }, GrammarView::Ref { name: "NakedIdentifierSegment"@, optional: false }, GrammarView::Optional { grammar: Box::new(GrammarView::Sequence { elements: seq![GrammarView::Keyword { word: "OPTIONS"@ }, GrammarView::Bracketed { elements: seq![GrammarView::Delimited { elements: seq![GrammarView::Sequence { elements: seq![GrammarView::Ref { name: "ParameterNameSegment"@, optional: false }, GrammarView::Ref { name: "EqualsSegment"@, optional: false }, GrammarView::Anything], terminators: seq![], parse_mode: ParseMode::Strict }, GrammarView::Ref { name: "CommaSegment"@, optional: false }], allow_trailing: false, delimiter: None, terminators: seq![], allow_gaps: true }], bracket_type: "round"@ }], terminators: seq![], parse_mode: ParseMode::Strict }) }], terminators: seq![], parse_mode: ParseMode::Strict }, GrammarView::Sequence { elements: seq![GrammarView::Keyword { word: "AS"@ }, GrammarView::OneOf { elements: seq![GrammarView::Ref { name: "DoubleQuotedUDFBody"@, optional: false }, GrammarView::Ref { name: "SingleQuotedUDFBody"@, optional: false }, GrammarView::Bracketed { elements: seq![GrammarView::OneOf { elements: seq![GrammarView::Ref { name: "ExpressionSegment"@, optional: false }, GrammarView::Ref { name: "SelectStatementSegment"@, optional: false }], terminators: seq![] }], bracket_type: "round"@ }], terminators: seq![] }], terminators: seq![], parse_mode: ParseMode::Strict }], terminators: seq![], min_times: 0, max_times: None }]);
    let g41: Vec<Grammar> = Vec::new();
    assert(views(g41@) =~= Seq::<GrammarView>::empty());
    let g42 = Grammar::sequence_with(g40, g41, ParseMode::Strict);
    g42
}

/// The BigQuery grammar of `WildcardExpressionSegment`.
pub open spec fn wildcard_expression_segment_grammar() -> GrammarView {
    (GrammarView::Sequence { elements: seq![GrammarView::Ref { name: "WildcardIdentifierSegment"@, optional: false }], terminators: seq![], parse_mode: ParseMode::Strict }).copied(Some(seq![GrammarView::Ref { name: "ExceptClauseSegment"@, optional: true }, GrammarView::Ref { name: "ReplaceClauseSegment"@, optional: true }]), None, None, None, seq![], false)
}

fn build_wildcard_expression_segment() -> (g: Grammar)
    ensures
        g@ =~~= wildcard_expression_segment_grammar(),
{
    let g1: Vec<Grammar> = vec![Grammar::reference("WildcardIdentifierSegment")];
    assert(views(g1@) =~~= seq![GrammarView::Ref { name: "WildcardIdentifierSegment"@, optional: false }]);
    let g2: Vec<Grammar> = Vec::new();
    assert(views(g2@) =~= Seq::<GrammarView>::empty());
    let g3 = Grammar::sequence_with(g1, g2, ParseMode::Strict);
    let g4 = g3;
    assert(g4@ =~~= GrammarView::Sequence { elements: seq![GrammarView::Ref { name: "WildcardIdentifierSegment"@, optional: false }], terminators: seq![], parse_mode: ParseMode::Strict });
    let g5: Vec<Grammar> = vec![Grammar::optional_reference("ExceptClauseSegment"), Grammar::optional_reference("ReplaceClauseSegment")];
    assert(views(g5@) =~~= seq![GrammarView::Ref { name: "ExceptClauseSegment"@, optional: true }, GrammarView::Ref { name: "ReplaceClauseSegment"@, optional: true }]);
    let g6: Vec<Grammar> = Vec::new();
    assert(views(g6@) =~= Seq::<GrammarView>::empty());
    let g7 = g4.copy(Some(g5), None, None, None, g6, false);
    g7
}

/// The BigQuery element `ExceptClauseSegment`.
pub open spec fn except_clause_segment_element() -> ElementView {
    ElementView::Node { kind: "select_except_clause"@, grammar: GrammarView::Sequence { elements: seq![GrammarView::Keyword { word: "EXCEPT"@ }, GrammarView::Bracketed { elements: seq![GrammarView::Delimited { elements: seq![GrammarView::Ref { name: "SingleIdentifierGrammar"@, optional: false }], allow_trailing: false, delimiter: None, terminators: seq![], allow_gaps: true }], bracket_type: "round"@ }], terminators: seq![], parse_mode: ParseMode::Strict } }
}

fn build_except_clause_segment() -> (e: Element)
    ensures
        e@ =~~= except_clause_segment_element(),
{
    let g1: Vec<Grammar> = vec![Grammar::reference("SingleIdentifierGrammar")];
    assert(views(g1@) =~~= seq![GrammarView::Ref { name: "SingleIdentifierGrammar"@, optional: false }]);
    let g2: Vec<Grammar> = Vec::new();
    assert(views(g2@) =~= Seq::<GrammarView>::empty());
    let g3 = Grammar::delimited_with(g1, false, None, g2, true);
    let g4: Vec<Grammar> = vec![g3];
    assert(views(g4@) =~~= seq![GrammarView::Delimited { elements: seq![GrammarView::Ref { name: "SingleIdentifierGrammar"@, optional: false }], allow_trailing: false, delimiter: None, terminators: seq![], allow_gaps: true }]);
    let g5 = Grammar::bracketed_with(g4, "round");
    let g6: Vec<Grammar> = vec![Grammar::keyword("EXCEPT"), g5];
    assert(views(g6@) =~~= seq![GrammarView::Keyword { word: "EXCEPT"@ }, GrammarView::Bracketed { elements: seq![GrammarView::Delimited { elements: seq![GrammarView::Ref { name: "SingleIdentifierGrammar"@, optional: false }], allow_trailing: false, delimiter: None, terminators: seq![], allow_gaps: true }], bracket_type: "round"@ }]);
    let g7: Vec<Grammar> = Vec::new();
    assert(views(g7@) =~= Seq::<GrammarView>::empty());
    let g8 = Grammar::sequence_with(g6, g7, ParseMode::Strict);
    Element::Node { kind: "select_except_clause", grammar: g8 }
}

/// The BigQuery element `ReplaceClauseSegment`.
pub open spec fn replace_clause_segment_element() -> ElementView {
    ElementView::Node { kind: "select_replace_clause"@, grammar: GrammarView::Sequence { elements: seq![GrammarView::Keyword { word: "REPLACE"@ }, GrammarView::Bracketed { elements: seq![GrammarView::Delimited { elements: seq![GrammarView::Ref { name: "SelectClauseElementSegment"@, optional: false }], allow_trailing: false, delimiter: None, terminators: seq![], allow_gaps: true }], bracket_type: "round"@ }], terminators: seq![], parse_mode: ParseMode::Strict } }
}

fn build_replace_clause_segment() -> (e: Element)
    ensures
        e@ =~~= replace_clause_segment_element(),
{
    let g1: Vec<Grammar> = vec![Grammar::reference("SelectClauseElementSegment")];
    assert(views(g1@) =~~= seq![GrammarView::Ref { name: "SelectClauseElementSegment"@, optional: false }]);
    let g2: Vec<Grammar> = Vec::new();
    assert(views(g2@) =~= Seq::<GrammarView>::empty());
    let g3 = Grammar::delimited_with(g1, false, None, g2, true);
    let g4: Vec<Grammar> = vec![g3];
    assert(views(g4@) =~~= seq![GrammarView::Delimited { elements: seq![GrammarView::Ref { name: "SelectClauseElementSegment"@, optional: false }], allow_trailing: false, delimiter: None, terminators: seq![], allow_gaps: true }]);
    let g5 = Grammar::bracketed_with(g4, "round");
    let g6: Vec<Grammar> = vec![Grammar::keyword("REPLACE"), g5];
    assert(views(g6@) =~~= seq![GrammarView::Keyword { word: "REPLACE"@ }, GrammarView::Bracketed { elements: seq![GrammarView::Delimited { elements: seq![GrammarView::Ref { name: "SelectClauseElementSegment"@, optional: false }], allow_trailing: false, delimiter: None, terminators: seq![], allow_gaps: true }], bracket_type: "round"@ }]);
    let g7: Vec<Grammar> = Vec::new();
    assert(views(g7@) =~= Seq::<GrammarView>::empty());
    let g8 = Grammar::sequence_with(g6, g7, ParseMode::Strict);
    Element::Node { kind: "select_replace_clause", grammar: g8 }
}

/// The BigQuery grammar of `DatatypeSegment`.
pub open spec fn datatype_segment_grammar() -> GrammarView {
    GrammarView::OneOf { elements: seq![GrammarView::Sequence { elements: seq![GrammarView::Ref { name: "DatatypeIdentifierSegment"@, optional: false }, GrammarView::Ref { name: "BracketedArguments"@, optional: true }], terminators: seq![], parse_mode: ParseMode::Strict }, GrammarView::Sequence { elements: seq![GrammarView::Keyword { word: "ANY"@ }, GrammarView::Keyword { word: "TYPE"@ }], terminators: seq![], parse_mode: ParseMode::Strict }, GrammarView::Ref { name: "ArrayTypeSegment"@, optional: false }, GrammarView::Ref { name: "StructTypeSegment"@, optional: false }], terminators: seq![] }
}

fn build_datatype_segment() -> (g: Grammar)
    ensures
        g@ =~~= datatype_segment_grammar(),
{
    let g1: Vec<Grammar> = vec![Grammar::reference("DatatypeIdentifierSegment"), Grammar::optional_reference("BracketedArguments")];
    assert(views(g1@) =~~= seq![GrammarView::Ref { name: "DatatypeIdentifierSegment"@, optional: false }, GrammarView::Ref { name: "BracketedArguments"@, optional: true }]);
    let g2: Vec<Grammar> = Vec::new();
    assert(views(g2@) =~= Seq::<GrammarView>::empty());
    let g3 = Grammar::sequence_with(g1, g2, ParseMode::Strict);
    let g4: Vec<Grammar> = vec![Grammar::keyword("ANY"), Grammar::keyword("TYPE")];
    assert(views(g4@) =~~= seq![GrammarView::Keyword { word: "ANY"@ }, GrammarView::Keyword { word: "TYPE"@ }]);
    let g5: Vec<Grammar> = Vec::new();
    assert(views(g5@) =~= Seq::<GrammarView>::empty());
    let g6 = Grammar::sequence_with(g4, g5, ParseMode::Strict);
    let g7: Vec<Grammar> = vec![g3, g6, Grammar::reference("ArrayTypeSegment"), Grammar::reference("StructTypeSegment")];
    assert(views(g7@) =~~= seq![GrammarView::Sequence { elements: seq![GrammarView::Ref { name: "DatatypeIdentifierSegment"@, optional: false }, GrammarView::Ref { name: "BracketedArguments"@, optional: true }], terminators: seq![], parse_mode: ParseMode::Strict }, GrammarView::Sequence { elements: seq![GrammarView::Keyword { word: "ANY"@ }, GrammarView::Keyword { word: "TYPE"@ }], terminators: seq![], parse_mode: ParseMode::Strict }, GrammarView::Ref { name: "ArrayTypeSegment"@, optional: false }, GrammarView::Ref { name: "StructTypeSegment"@, optional: false }]);
    let g8: Vec<Grammar> = Vec::new();
    assert(views(g8@) =~= Seq::<GrammarView>::empty());
    let g9 = Grammar::one_of_with(g7, g8);
    g9
}

/// The BigQuery grammar of `StructTypeSegment`.
pub open spec fn struct_type_segment_grammar() -> GrammarView {
    GrammarView::Sequence { elements: seq![GrammarView::Keyword { word: "STRUCT"@ }, GrammarView::Ref { name: "StructTypeSchemaSegment"@, optional: true }], terminators: seq![], parse_mode: ParseMode::Strict }
}

fn build_struct_type_segment() -> (g: Grammar)
    ensures
        g@ =~~= struct_type_segment_grammar(),
{
    let g1: Vec<Grammar> = vec![Grammar::keyword("STRUCT"), Grammar::optional_reference("StructTypeSchemaSegment")];
    assert(views(g1@) =~~= seq![GrammarView::Keyword { word: "STRUCT"@ }, GrammarView::Ref { name: "StructTypeSchemaSegment"@, optional: true }]);
    let g2: Vec<Grammar> = Vec::new();
    assert(views(g2@) =~= Seq::<GrammarView>::empty());
    let g3 = Grammar::sequence_with(g1, g2, ParseMode::Strict);
    g3
}

/// The BigQuery element `ArrayFunctionContentsSegment`.
pub open spec fn array_function_contents_segment_element() -> ElementView {
    ElementView::Node { kind: "function_contents"@, grammar: GrammarView::Bracketed { elements: seq![GrammarView::Ref { name: "SelectableGrammar"@, optional: false }], bracket_type: "round"@ } }
}

fn build_array_function_contents_segment() -> (e: Element)
    ensures
        e@ =~~= array_function_contents_segment_element(),
{
    let g1: Vec<Grammar> = vec![Grammar::reference("SelectableGrammar")];
    assert(views(g1@) =~~= seq![GrammarView::Ref { name: "SelectableGrammar"@, optional: false }]);
    let g2 = Grammar::bracketed_with(g1, "round");
    Element::Node { kind: "function_contents", grammar: g2 }
}

/// The BigQuery grammar of `ArrayExpressionSegment`.
pub open spec fn array_expression_segment_grammar() -> GrammarView {
    GrammarView::Sequence { elements: seq![GrammarView::Ref { name: "ArrayFunctionNameSegment"@, optional: false }, GrammarView::Ref { name: "ArrayFunctionContentsSegment"@, optional: false }], terminators: seq![], parse_mode: ParseMode::Strict }
}

fn build_array_expression_segment() -> (g: Grammar)
    ensures
        g@ =~~= array_expression_segment_grammar(),
{
    let g1: Vec<Grammar> = vec![Grammar::reference("ArrayFunctionNameSegment"), Grammar::reference("ArrayFunctionContentsSegment")];
    assert(views(g1@) =~~= seq![GrammarView::Ref { name: "ArrayFunctionNameSegment"@, optional: false }, GrammarView::Ref { name: "ArrayFunctionContentsSegment"@, optional: false }]);
    let g2: Vec<Grammar> = Vec::new();
    assert(views(g2@) =~= Seq::<GrammarView>::empty());
    let g3 = Grammar::sequence_with(g1, g2, ParseMode::Strict);
    g3
}

/// The BigQuery element `TupleSegment`.
pub open spec fn tuple_segment_element() -> ElementView {
    ElementView::Node { kind: "tuple"@, grammar: GrammarView::Bracketed { elements: seq![GrammarView::Delimited { elements: seq![GrammarView::Ref { name: "BaseExpressionElementGrammar"@, optional: false }], allow_trailing: false, delimiter: None, terminators: seq![], allow_gaps: true }], bracket_type: "round"@ } }
}

fn build_tuple_segment() -> (e: Element)
    ensures
        e@ =~~= tuple_segment_element(),
{
    let g1: Vec<Grammar> = vec![Grammar::reference("BaseExpressionElementGrammar")];
    assert(views(g1@) =~~= seq![GrammarView::Ref { name: "BaseExpressionElementGrammar"@, optional: false }]);
    let g2: Vec<Grammar> = Vec::new();
    assert(views(g2@) =~= Seq::<GrammarView>::empty());
    let g3 = Grammar::delimited_with(g1, false, None, g2, true);
    let g4: Vec<Grammar> = vec![g3];
    assert(views(g4@) =~~= seq![GrammarView::Delimited { elements: seq![GrammarView::Ref { name: "BaseExpressionElementGrammar"@, optional: false }], allow_trailing: false, delimiter: None, terminators: seq![], allow_gaps: true }]);
    let g5 = Grammar::bracketed_with(g4, "round");
    Element::Node { kind: "tuple", grammar: g5 }
}

/// The BigQuery element `NamedArgumentSegment`.
pub open spec fn named_argument_segment_element() -> ElementView {
    ElementView::Node { kind: "named_argument"@, grammar: GrammarView::Sequence { elements: seq![GrammarView::Ref { name: "NakedIdentifierSegment"@, optional: false }, GrammarView::Ref { name: "RightArrowSegment"@, optional: false }, GrammarView::Ref { name: "ExpressionSegment"@, optional: false }], terminators: seq![], parse_mode: ParseMode::Strict } }
}

fn build_named_argument_segment() -> (e: Element)
    ensures
        e@ =~~= named_argument_segment_element(),
{
    let g1: Vec<Grammar> = vec![Grammar::reference("NakedIdentifierSegment"), Grammar::reference("RightArrowSegment"), Grammar::reference("ExpressionSegment")];
    assert(views(g1@) =~~= seq![GrammarView::Ref { name: "NakedIdentifierSegment"@, optional: false }, GrammarView::Ref { name: "RightArrowSegment"@, optional: false }, GrammarView::Ref { name: "ExpressionSegment"@, optional: false }]);
    let g2: Vec<Grammar> = Vec::new();
    assert(views(g2@) =~= Seq::<GrammarView>::empty());
    let g3 = Grammar::sequence_with(g1, g2, ParseMode::Strict);
    Element::Node { kind: "named_argument", grammar: g3 }
}

/// The BigQuery element `SemiStructuredAccessorSegment`.
pub open spec fn semi_structured_accessor_segment_element() -> ElementView {
    ElementView::Node { kind: "semi_structured_expression"@, grammar: GrammarView::Sequence { elements: seq![GrammarView::AnyNumberOf { elements: seq![GrammarView::Sequence { elements: seq![GrammarView::Ref { name: "DotSegment"@, optional: false }, GrammarView::OneOf { elements: seq![GrammarView::Ref { name: "SingleIdentifierGrammar"@, optional: false }, GrammarView::Ref { name: "StarSegment"@, optional: false }], terminators: seq![] }], terminators: seq![], parse_mode: ParseMode::Strict }, GrammarView::Ref { name: "ArrayAccessorSegment"@, optional: true }], terminators: seq![], min_times: 1, max_times: None }], terminators: seq![], parse_mode: ParseMode::Strict } }
}

fn build_semi_structured_accessor_segment() -> (e: Element)
    ensures
        e@ =~~= semi_structured_accessor_segment_element(),
{
    let g1: Vec<Grammar> = vec![Grammar::reference("SingleIdentifierGrammar"), Grammar::reference("StarSegment")];
    assert(views(g1@) =~~= seq![GrammarView::Ref { name: "SingleIdentifierGrammar"@, optional: false }, GrammarView::Ref { name: "StarSegment"@, optional: false }]);
    let g2: Vec<Grammar> = Vec::new();
    assert(views(g2@) =~= Seq::<GrammarView>::empty());
    let g3 = Grammar::one_of_with(g1, g2);
    let g4: Vec<Grammar> = vec![Grammar::reference("DotSegment"), g3];
    assert(views(g4@) =~~= seq![GrammarView::Ref { name: "DotSegment"@, optional: false }, GrammarView::OneOf { elements: seq![GrammarView::Ref { name: "SingleIdentifierGrammar"@, optional: false }, GrammarView::Ref { name: "StarSegment"@, optional: false }], terminators: seq![] }]);
    let g5: Vec<Grammar> = Vec::new();
    assert(views(g5@) =~= Seq::<GrammarView>::empty());
    let g6 = Grammar::sequence_with(g4, g5, ParseMode::Strict);
    let g7: Vec<Grammar> = vec![g6, Grammar::optional_reference("ArrayAccessorSegment")];
    assert(views(g7@) =~~= seq![GrammarView::Sequence { elements: seq![GrammarView::Ref { name: "DotSegment"@, optional: false }, GrammarView::OneOf { elements: seq![GrammarView::Ref { name: "SingleIdentifierGrammar"@, optional: false }, GrammarView::Ref { name: "StarSegment"@, optional: false }], terminators: seq![] }], terminators: seq![], parse_mode: ParseMode::Strict }, GrammarView::Ref { name: "ArrayAccessorSegment"@, optional: true }]);
    let g8: Vec<Grammar> = Vec::new();
    assert(views(g8@) =~= Seq::<GrammarView>::empty());
    let g9 = Grammar::any_number_of_with(g7, g8, 1, None);
    let g10: Vec<Grammar> = vec![g9];
    assert(views(g10@) =~~= seq![GrammarView::AnyNumberOf { elements: seq![GrammarView::Sequence { elements: seq![GrammarView::Ref { name: "DotSegment"@, optional: false }, GrammarView::OneOf { elements: seq![GrammarView::Ref { name: "SingleIdentifierGrammar"@, optional: false }, GrammarView::Ref { name: "StarSegment"@, optional: false }], terminators: seq![] }], terminators: seq![], parse_mode: ParseMode::Strict }, GrammarView::Ref { name: "ArrayAccessorSegment"@, optional: true }], terminators: seq![], min_times: 1, max_times: None }]);
    let g11: Vec<Grammar> = Vec::new();
    assert(views(g11@) =~= Seq::<GrammarView>::empty());
    let g12 = Grammar::sequence_with(g10, g11, ParseMode::Strict);
    Element::Node { kind: "semi_structured_expression", grammar: g12 }
}

/// The BigQuery grammar of `ColumnReferenceSegment`.
pub open spec fn column_reference_segment_grammar() -> GrammarView {
    GrammarView::WithoutGaps { grammar: Box::new(GrammarView::Sequence { elements: seq![GrammarView::Ref { name: "SingleIdentifierGrammar"@, optional: false }, GrammarView::Optional { grammar: Box::new(GrammarView::WithoutGaps { grammar: Box::new(GrammarView::Sequence { elements: seq![GrammarView::Ref { name: "ObjectReferenceDelimiterGrammar"@, optional: false }, GrammarView::Delimited { elements: seq![GrammarView::Ref { name: "SingleIdentifierFullGrammar"@, optional: false }], allow_trailing: false, delimiter: Some(Box::new(GrammarView::Ref { name: "ObjectReferenceDelimiterGrammar"@, optional: false })), terminators: seq![GrammarView::Keyword { word: "ON"@ }, GrammarView::Keyword { word: "AS"@ }, GrammarView::Keyword { word: "USING"@ }, GrammarView::Ref { name: "CommaSegment"@, optional: false }, GrammarView::Ref { name: "CastOperatorSegment"@, optional: false }, GrammarView::Ref { name: "StartSquareBracketSegment"@, optional: false }, GrammarView::Ref { name: "StartBracketSegment"@, optional: false }, GrammarView::Ref { name: "BinaryOperatorGrammar"@, optional: false }, GrammarView::Ref { name: "ColonSegment"@, optional: false }, GrammarView::Ref { name: "DelimiterGrammar"@, optional: false }, GrammarView::Ref { name: "BracketedSegment"@, optional: false }], allow_gaps: false }], terminators: seq![], parse_mode: ParseMode::Strict }) }) }], terminators: seq![], parse_mode: ParseMode::Strict }) }
}

fn build_column_reference_segment() -> (g: Grammar)
    ensures
        g@ =~~= column_reference_segment_grammar(),
{
    let g1: Vec<Grammar> = vec![Grammar::reference("SingleIdentifierFullGrammar")];
    assert(views(g1@) =~~= seq![GrammarView::Ref { name: "SingleIdentifierFullGrammar"@, optional: false }]);
    let g2: Vec<Grammar> = vec![Grammar::keyword("ON"), Grammar::keyword("AS"), Grammar::keyword("USING"), Grammar::reference("CommaSegment"), Grammar::reference("CastOperatorSegment"), Grammar::reference("StartSquareBracketSegment"), Grammar::reference("StartBracketSegment"), Grammar::reference("BinaryOperatorGrammar"), Grammar::reference("ColonSegment"), Grammar::reference("DelimiterGrammar"), Grammar::reference("BracketedSegment")];
    assert(views(g2@) =~~= seq![GrammarView::Keyword { word: "ON"@ }, GrammarView::Keyword { word: "AS"@ }, GrammarView::Keyword { word: "USING"@ }, GrammarView::Ref { name: "CommaSegment"@, optional: false }, GrammarView::Ref { name: "CastOperatorSegment"@, optional: false }, GrammarView::Ref { name: "StartSquareBracketSegment"@, optional: false }, GrammarView::Ref { name: "StartBracketSegment"@, optional: false }, GrammarView::Ref { name: "BinaryOperatorGrammar"@, optional: false }, GrammarView::Ref { name: "ColonSegment"@, optional: false }, GrammarView::Ref { name: "DelimiterGrammar"@, optional: false }, GrammarView::Ref { name: "BracketedSegment"@, optional: false }]);
    let g3 = Grammar::delimited_with(g1, false, Some(Grammar::reference("ObjectReferenceDelimiterGrammar")), g2, false);
    let g4: Vec<Grammar> = vec![Grammar::reference("ObjectReferenceDelimiterGrammar"), g3];
    assert(views(g4@) =~~= seq![GrammarView::Ref { name: "ObjectReferenceDelimiterGrammar"@, optional: false }, GrammarView::Delimited { elements: seq![GrammarView::Ref { name: "SingleIdentifierFullGrammar"@, optional: false }], allow_trailing: false, delimiter: Some(Box::new(GrammarView::Ref { name: "ObjectReferenceDelimiterGrammar"@, optional: false })), terminators: seq![GrammarView::Keyword { word: "ON"@ }, GrammarView::Keyword { word: "AS"@ }, GrammarView::Keyword { word: "USING"@ }, GrammarView::Ref { name: "CommaSegment"@, optional: false }, GrammarView::Ref { name: "CastOperatorSegment"@, optional: false }, GrammarView::Ref { name: "StartSquareBracketSegment"@, optional: false }, GrammarView::Ref { name: "StartBracketSegment"@, optional: false }, GrammarView::Ref { name: "BinaryOperatorGrammar"@, optional: false }, GrammarView::Ref { name: "ColonSegment"@, optional: false }, GrammarView::Ref { name: "DelimiterGrammar"@, optional: false }, GrammarView::Ref { name: "BracketedSegment"@, optional: false }], allow_gaps: false }]);
    let g5: Vec<Grammar> = Vec::new();
    assert(views(g5@) =~= Seq::<GrammarView>::empty());
    let g6 = Grammar::sequence_with(g4, g5, ParseMode::Strict);
    let g7 = g6.without_gaps();
    let g8 = g7.optional();
    let g9: Vec<Grammar> = vec![Grammar::reference("SingleIdentifierGrammar"), g8];
    assert(views(g9@) =~~= seq![GrammarView::Ref { name: "SingleIdentifierGrammar"@, optional: false }, GrammarView::Optional { grammar: Box::new(GrammarView::WithoutGaps { grammar: Box::new(GrammarView::Sequence { elements: seq![GrammarView::Ref { name: "ObjectReferenceDelimiterGrammar"@, optional: false }, GrammarView::Delimited { elements: seq![GrammarView::Ref { name: "SingleIdentifierFullGrammar"@, optional: false }], allow_trailing: false, delimiter: Some(Box::new(GrammarView::Ref { name: "ObjectReferenceDelimiterGrammar"@, optional: false })), terminators: seq![GrammarView::Keyword { word: "ON"@ }, GrammarView::Keyword { word: "AS"@ }, GrammarView::Keyword { word: "USING"@ }, GrammarView::Ref { name: "CommaSegment"@, optional: false }, GrammarView::Ref { name: "CastOperatorSegment"@, optional: false }, GrammarView::Ref { name: "StartSquareBracketSegment"@, optional: false }, GrammarView::Ref { name: "StartBracketSegment"@, optional: false }, GrammarView::Ref { name: "BinaryOperatorGrammar"@, optional: false }, GrammarView::Ref { name: "ColonSegment"@, optional: false }, GrammarView::Ref { name: "DelimiterGrammar"@, optional: false }, GrammarView::Ref { name: "BracketedSegment"@, optional: false }], allow_gaps: false }], terminators: seq![], parse_mode: ParseMode::Strict }) }) }]);
    let g10: Vec<Grammar> = Vec::new();
    assert(views(g10@) =~= Seq::<GrammarView>::empty());
    let g11 = Grammar::sequence_with(g9, g10, ParseMode::Strict);
    let g12 = g11.without_gaps();
    g12
}

/// The BigQuery grammar of `TableReferenceSegment`.
pub open spec fn table_reference_segment_grammar() -> GrammarView {
    GrammarView::Delimited { elements: seq![GrammarView::WithoutGaps { grammar: Box::new(GrammarView::Sequence { elements: seq![GrammarView::Ref { name: "SingleIdentifierGrammar"@, optional: false }, GrammarView::Optional { grammar: Box::new(GrammarView::AnyNumberOf { elements: seq![GrammarView::WithoutGaps { grammar: Box::new(GrammarView::Sequence { elements: seq![GrammarView::Ref { name: "DashSegment"@, optional: false }, GrammarView::Ref { name: "NakedIdentifierPart"@, optional: false }], terminators: seq![], parse_mode: ParseMode::Strict }) }], terminators: seq![], min_times: 0, max_times: None }) }], terminators: seq![], parse_mode: ParseMode::Strict }) }], allow_trailing: false, delimiter: Some(Box::new(GrammarView::Ref { name: "ObjectReferenceDelimiterGrammar"@, optional: false })), terminators: seq![GrammarView::Keyword { word: "ON"@ }, GrammarView::Keyword { word: "AS"@ }, GrammarView::Keyword { word: "USING"@ }, GrammarView::Ref { name: "CommaSegment"@, optional: false }, GrammarView::Ref { name: "CastOperatorSegment"@, optional: false }, GrammarView::Ref { name: "StartSquareBracketSegment"@, optional: false }, GrammarView::Ref { name: "StartBracketSegment"@, optional: false }, GrammarView::Ref { name: "ColonSegment"@, optional: false }, GrammarView::Ref { name: "DelimiterGrammar"@, optional: false }, GrammarView::Ref { name: "JoinLikeClauseGrammar"@, optional: false }, GrammarView::Ref { name: "BracketedSegment"@, optional: false }], allow_gaps: false }
}

fn build_table_reference_segment() -> (g: Grammar)
    ensures
        g@ =~~= table_reference_segment_grammar(),
{
    let g1: Vec<Grammar> = vec![Grammar::reference("DashSegment"), Grammar::reference("NakedIdentifierPart")];
    assert(views(g1@) =~~= seq![GrammarView::Ref { name: "DashSegment"@, optional: false }, GrammarView::Ref { name: "NakedIdentifierPart"@, optional: false }]);
    let g2: Vec<Grammar> = Vec::new();
    assert(views(g2@) =~= Seq::<GrammarView>::empty());
    let g3 = Grammar::sequence_with(g1, g2, ParseMode::Strict);
    let g4 = g3.without_gaps();
    let g5: Vec<Grammar> = vec![g4];
    assert(views(g5@) =~~= seq![GrammarView::WithoutGaps { grammar: Box::new(GrammarView::Sequence { elements: seq![GrammarView::Ref { name: "DashSegment"@, optional: false }, GrammarView::Ref { name: "NakedIdentifierPart"@, optional: false }], terminators: seq![], parse_mode: ParseMode::Strict }) }]);
    let g6: Vec<Grammar> = Vec::new();
    assert(views(g6@) =~= Seq::<GrammarView>::empty());
    let g7 = Grammar::any_number_of_with(g5, g6, 0, None);
    let g8 = g7.optional();
    let g9: Vec<Grammar> = vec![Grammar::reference("SingleIdentifierGrammar"), g8];
    assert(views(g9@) =~~= seq![GrammarView::Ref { name: "SingleIdentifierGrammar"@, optional: false }, GrammarView::Optional { grammar: Box::new(GrammarView::AnyNumberOf { elements: seq![GrammarView::WithoutGaps { grammar: Box::new(GrammarView::Sequence { elements: seq![GrammarView::Ref { name: "DashSegment"@, optional: false }, GrammarView::Ref { name: "NakedIdentifierPart"@, optional: false }], terminators: seq![], parse_mode: ParseMode::Strict }) }], terminators: seq![], min_times: 0, max_times: None }) }]);
    let g10: Vec<Grammar> = Vec::new();
    assert(views(g10@) =~= Seq::<GrammarView>::empty());
    let g11 = Grammar::sequence_with(g9, g10, ParseMode::Strict);
    let g12 = g11.without_gaps();
    let g13: Vec<Grammar> = vec![g12];
    assert(views(g13@) =~~= seq![GrammarView::WithoutGaps { grammar: Box::new(GrammarView::Sequence { elements: seq![GrammarView::Ref { name: "SingleIdentifierGrammar"@, optional: false }, GrammarView::Optional { grammar: Box::new(GrammarView::AnyNumberOf { elements: seq![GrammarView::WithoutGaps { grammar: Box::new(GrammarView::Sequence { elements: seq![GrammarView::Ref { name: "DashSegment"@, optional: false }, GrammarView::Ref { name: "NakedIdentifierPart"@, optional: false }], terminators: seq![], parse_mode: ParseMode::Strict }) }], terminators: seq![], min_times: 0, max_times: None }) }], terminators: seq![], parse_mode: ParseMode::Strict }) }]);
    let g14: Vec<Grammar> = vec![Grammar::keyword("ON"), Grammar::keyword("AS"), Grammar::keyword("USING"), Grammar::reference("CommaSegment"), Grammar::reference("CastOperatorSegment"), Grammar::reference("StartSquareBracketSegment"), Grammar::reference("StartBracketSegment"), Grammar::reference("ColonSegment"), Grammar::reference("DelimiterGrammar"), Grammar::reference("JoinLikeClauseGrammar"), Grammar::reference("BracketedSegment")];
    assert(views(g14@) =~~= seq![GrammarView::Keyword { word: "ON"@ }, GrammarView::Keyword { word: "AS"@ }, GrammarView::Keyword { word: "USING"@ }, GrammarView::Ref { name: "CommaSegment"@, optional: false }, GrammarView::Ref { name: "CastOperatorSegment"@, optional: false }, GrammarView::Ref { name: "StartSquareBracketSegment"@, optional: false }, GrammarView::Ref { name: "StartBracketSegment"@, optional: false }, GrammarView::Ref { name: "ColonSegment"@, optional: false }, GrammarView::Ref { name: "DelimiterGrammar"@, optional: false }, GrammarView::Ref { name: "JoinLikeClauseGrammar"@, optional: false }, GrammarView::Ref { name: "BracketedSegment"@, optional: false }]);
    let g15 = Grammar::delimited_with(g13, false, Some(Grammar::reference("ObjectReferenceDelimiterGrammar")), g14, false);
    g15
}

/// The BigQuery element `DeclareStatementSegment`.
pub open spec fn declare_statement_segment_element() -> ElementView {
    ElementView::Node { kind: "declare_segment"@, grammar: GrammarView::Sequence { elements: seq![GrammarView::Keyword { word: "DECLARE"@ }, GrammarView::Delimited { elements: seq![GrammarView::Ref { name: "SingleIdentifierFullGrammar"@, optional: false }], allow_trailing: false, delimiter: None, terminators: seq![], allow_gaps: true }, GrammarView::OneOf { elements: seq![GrammarView::Ref { name: "DefaultDeclareOptionsGrammar"@, optional: false }, GrammarView::Sequence { elements: seq![GrammarView::Ref { name: "DatatypeSegment"@, optional: false }, GrammarView::Ref { name: "DefaultDeclareOptionsGrammar"@, optional: true }], terminators: seq![], parse_mode: ParseMode::Strict }], terminators: seq![] }], terminators: seq![], parse_mode: ParseMode::Strict } }
}

fn build_declare_statement_segment() -> (e: Element)
    ensures
        e@ =~~= declare_statement_segment_element(),
{
    let g1: Vec<Grammar> = vec![Grammar::reference("SingleIdentifierFullGrammar")];
    assert(views(g1@) =~~= seq![GrammarView::Ref { name: "SingleIdentifierFullGrammar"@, optional: false }]);
    let g2: Vec<Grammar> = Vec::new();
    assert(views(g2@) =~= Seq::<GrammarView>::empty());
    let g3 = Grammar::delimited_with(g1, false, None, g2, true);
    let g4: Vec<Grammar> = vec![Grammar::reference("DatatypeSegment"), Grammar::optional_reference("DefaultDeclareOptionsGrammar")];
    assert(views(g4@) =~~= seq![GrammarView::Ref { name: "DatatypeSegment"@, optional: false }, GrammarView::Ref { name: "DefaultDeclareOptionsGrammar"@, optional: true }]);
    let g5: Vec<Grammar> = Vec::new();
    assert(views(g5@) =~= Seq::<GrammarView>::empty());
    let g6 = Grammar::sequence_with(g4, g5, ParseMode::Strict);
    let g7: Vec<Grammar> = vec![Grammar::reference("DefaultDeclareOptionsGrammar"), g6];
    assert(views(g7@) =~~= seq![GrammarView::Ref { name: "DefaultDeclareOptionsGrammar"@, optional: false }, GrammarView::Sequence { elements: seq![GrammarView::Ref { name: "DatatypeSegment"@, optional: false }, GrammarView::Ref { name: "DefaultDeclareOptionsGrammar"@, optional: true }], terminators: seq![], parse_mode: ParseMode::Strict }]);
    let g8: Vec<Grammar> = Vec::new();
    assert(views(g8@) =~= Seq::<GrammarView>::empty());
    let g9 = Grammar::one_of_with(g7, g8);
    let g10: Vec<Grammar> = vec![Grammar::keyword("DECLARE"), g3, g9];
    assert(views(g10@) =~~= seq![GrammarView::Keyword { word: "DECLARE"@ }, GrammarView::Delimited { elements: seq![GrammarView::Ref { name: "SingleIdentifierFullGrammar"@, optional: false }], allow_trailing: false, delimiter: None, terminators: seq![], allow_gaps: true }, GrammarView::OneOf { elements: seq![GrammarView::Ref { name: "DefaultDeclareOptionsGrammar"@, optional: false }, GrammarView::Sequence { elements: seq![GrammarView::Ref { name: "DatatypeSegment"@, optional: false }, GrammarView::Ref { name: "DefaultDeclareOptionsGrammar"@, optional: true }], terminators: seq![], parse_mode: ParseMode::Strict }], terminators: seq![] }]);
    let g11: Vec<Grammar> = Vec::new();
    assert(views(g11@) =~= Seq::<GrammarView>::empty());
    let g12 = Grammar::sequence_with(g10, g11, ParseMode::Strict);
    Element::Node { kind: "declare_segment", grammar: g12 }
}

/// The BigQuery element `SetStatementSegment`.
pub open spec fn set_statement_segment_element() -> ElementView {
    ElementView::Node { kind: "set_segment"@, grammar: GrammarView::Sequence { elements: seq![GrammarView::Keyword { word: "SET"@ }, GrammarView::OneOf { elements: seq![GrammarView::Ref { name: "NakedIdentifierSegment"@, optional: false }, GrammarView::Bracketed { elements: seq![GrammarView::Delimited { elements: seq![GrammarView::Ref { name: "NakedIdentifierSegment"@, optional: false }], allow_trailing: false, delimiter: None, terminators: seq![], allow_gaps: true }], bracket_type: "round"@ }], terminators: seq![] }, GrammarView::Ref { name: "EqualsSegment"@, optional: false }, GrammarView::Delimited { elements: seq![GrammarView::OneOf { elements: seq![GrammarView::Ref { name: "LiteralGrammar"@, optional: false }, GrammarView::Bracketed { elements: seq![GrammarView::Ref { name: "SelectStatementSegment"@, optional: false }], bracket_type: "round"@ }, GrammarView::Ref { name: "BareFunctionSegment"@, optional: false }, GrammarView::Ref { name: "FunctionSegment"@, optional: false }, GrammarView::Bracketed { elements: seq![GrammarView::Delimited { elements: seq![GrammarView::OneOf { elements: seq![GrammarView::Ref { name: "LiteralGrammar"@, optional: false }, GrammarView::Bracketed { elements: seq![GrammarView::Ref { name: "SelectStatementSegment"@, optional: false }], bracket_type: "round"@ }, GrammarView::Ref { name: "BareFunctionSegment"@, optional: false }, GrammarView::Ref { name: "FunctionSegment"@, optional: false }], terminators: seq![] }], allow_trailing: false, delimiter: None, terminators: seq![], allow_gaps: true }], bracket_type: "round"@ }, GrammarView::Ref { name: "ArrayLiteralSegment"@, optional: false }, GrammarView::Ref { name: "ExpressionSegment"@, optional: false }], terminators: seq![] }], allow_trailing: false, delimiter: None, terminators: seq![], allow_gaps: true }], terminators: seq![], parse_mode: ParseMode::Strict } }
}

fn build_set_statement_segment() -> (e: Element)
    ensures
        e@ =~~= set_statement_segment_element(),
{
    let g1: Vec<Grammar> = vec![Grammar::reference("NakedIdentifierSegment")];
    assert(views(g1@) =~~= seq![GrammarView::Ref { name: "NakedIdentifierSegment"@, optional: false }]);
    let g2: Vec<Grammar> = Vec::new();
    assert(views(g2@) =~= Seq::<GrammarView>::empty());
    let g3 = Grammar::delimited_with(g1, false, None, g2, true);
    let g4: Vec<Grammar> = vec![g3];
    assert(views(g4@) =~~= seq![GrammarView::Delimited { elements: seq![GrammarView::Ref { name: "NakedIdentifierSegment"@, optional: false }], allow_trailing: false, delimiter: None, terminators: seq![], allow_gaps: true }]);
    let g5 = Grammar::bracketed_with(g4, "round");
    let g6: Vec<Grammar> = vec![Grammar::reference("NakedIdentifierSegment"), g5];
    assert(views(g6@) =~~= seq![GrammarView::Ref { name: "NakedIdentifierSegment"@, optional: false }, GrammarView::Bracketed { elements: seq![GrammarView::Delimited { elements: seq![GrammarView::Ref { name: "NakedIdentifierSegment"@, optional: false }], allow_trailing: false, delimiter: None, terminators: seq![], allow_gaps: true }], bracket_type: "round"@ }]);
    let g7: Vec<Grammar> = Vec::new();
    assert(views(g7@) =~= Seq::<GrammarView>::empty());
    let g8 = Grammar::one_of_with(g6, g7);
    let g9: Vec<Grammar> = vec![Grammar::reference("SelectStatementSegment")];
    assert(views(g9@) =~~= seq![GrammarView::Ref { name: "SelectStatementSegment"@, optional: false }]);
    let g10 = Grammar::bracketed_with(g9, "round");
    let g11: Vec<Grammar> = vec![Grammar::reference("SelectStatementSegment")];
    assert(views(g11@) =~~= seq![GrammarView::Ref { name: "SelectStatementSegment"@, optional: false }]);
    let g12 = Grammar::bracketed_with(g11, "round");
    let g13: Vec<Grammar> = vec![Grammar::reference("LiteralGrammar"), g12, Grammar::reference("BareFunctionSegment"), Grammar::reference("FunctionSegment")];
    assert(views(g13@) =~~= seq![GrammarView::Ref { name: "LiteralGrammar"@, optional: false }, GrammarView::Bracketed { elements: seq![GrammarView::Ref { name: "SelectStatementSegment"@, optional: false }], bracket_type: "round"@ }, GrammarView::Ref { name: "BareFunctionSegment"@, optional: false }, GrammarView::Ref { name: "FunctionSegment"@, optional: false }]);
    let g14: Vec<Grammar> = Vec::new();
    assert(views(g14@) =~= Seq::<GrammarView>::empty());
    let g15 = Grammar::one_of_with(g13, g14);
    let g16: Vec<Grammar> = vec![g15];
    assert(views(g16@) =~~= seq![GrammarView::OneOf { elements: seq![GrammarView::Ref { name: "LiteralGrammar"@, optional: false }, GrammarView::Bracketed { elements: seq![GrammarView::Ref { name: "SelectStatementSegment"@, optional: false }], bracket_type: "round"@ }, GrammarView::Ref { name: "BareFunctionSegment"@, optional: false }, GrammarView::Ref { name: "FunctionSegment"@, optional: false }], terminators: seq![] }]);
    let g17: Vec<Grammar> = Vec::new();
    assert(views(g17@) =~= Seq::<GrammarView>::empty());
    let g18 = Grammar::delimited_with(g16, false, None, g17, true);
    let g19: Vec<Grammar> = vec![g18];
    assert(views(g19@) =~~= seq![GrammarView::Delimited { elements: seq![GrammarView::OneOf { elements: seq![GrammarView::Ref { name: "LiteralGrammar"@, optional: false }, GrammarView::Bracketed { elements: seq![GrammarView::Ref { name: "SelectStatementSegment"@, optional: false }], bracket_type: "round"@ }, GrammarView::Ref { name: "BareFunctionSegment"@, optional: false }, GrammarView::Ref { name: "FunctionSegment"@, optional: false }], terminators: seq![] }], allow_trailing: false, delimiter: None, terminators: seq![], allow_gaps: true }]);
    let g20 = Grammar::bracketed_with(g19, "round");
    let g21: Vec<Grammar> = vec![Grammar::reference("LiteralGrammar"), g10, Grammar::reference("BareFunctionSegment"), Grammar::reference("FunctionSegment"), g20, Grammar::reference("ArrayLiteralSegment"), Grammar::reference("ExpressionSegment")];
    assert(views(g21@) =~~= seq![GrammarView::Ref { name: "LiteralGrammar"@, optional: false }, GrammarView::Bracketed { elements: seq![GrammarView::Ref { name: "SelectStatementSegment"@, optional: false }], bracket_type: "round"@ }, GrammarView::Ref { name: "BareFunctionSegment"@, optional: false }, GrammarView::Ref { name: "FunctionSegment"@, optional: false }, GrammarView::Bracketed { elements: seq![GrammarView::Delimited { elements: seq![GrammarView::OneOf { elements: seq![GrammarView::Ref { name: "LiteralGrammar"@, optional: false }, GrammarView::Bracketed { elements: seq![GrammarView::Ref { name: "SelectStatementSegment"@, optional: false }], bracket_type: "round"@ }, GrammarView::Ref { name: "BareFunctionSegment"@, optional: false }, GrammarView::Ref { name: "FunctionSegment"@, optional: false }], terminators: seq![] }], allow_trailing: false, delimiter: None, terminators: seq![], allow_gaps: true }], bracket_type: "round"@ }, GrammarView::Ref { name: "ArrayLiteralSegment"@, optional: false }, GrammarView::Ref { name: "ExpressionSegment"@, optional: false }]);
    let g22: Vec<Grammar> = Vec::new();
    assert(views(g22@) =~= Seq::<GrammarView>::empty());
    let g23 = Grammar::one_of_with(g21, g22);
    let g24: Vec<Grammar> = vec![g23];
    assert(views(g24@) =~~= seq![GrammarView::OneOf { elements: seq![GrammarView::Ref { name: "LiteralGrammar"@, optional: false }, GrammarView::Bracketed { elements: seq![GrammarView::Ref { name: "SelectStatementSegment"@, optional: false }], bracket_type: "round"@ }, GrammarView::Ref { name: "BareFunctionSegment"@, optional: false }, GrammarView::Ref { name: "FunctionSegment"@, optional: false }, GrammarView::Bracketed { elements: seq![GrammarView::Delimited { elements: seq![GrammarView::OneOf { elements: seq![GrammarView::Ref { name: "LiteralGrammar"@, optional: false }, GrammarView::Bracketed { elements: seq![GrammarView::Ref { name: "SelectStatementSegment"@, optional: false }], bracket_type: "round"@ }, GrammarView::Ref { name: "BareFunctionSegment"@, optional: false }, GrammarView::Ref { name: "FunctionSegment"@, optional: false }], terminators: seq![] }], allow_trailing: false, delimiter: None, terminators: seq![], allow_gaps: true }], bracket_type: "round"@ }, GrammarView::Ref { name: "ArrayLiteralSegment"@, optional: false }, GrammarView::Ref { name: "ExpressionSegment"@, optional: false }], terminators: seq![] }]);
    let g25: Vec<Grammar> = Vec::new();
    assert(views(g25@) =~= Seq::<GrammarView>::empty());
    let g26 = Grammar::delimited_with(g24, false, None, g25, true);
    let g27: Vec<Grammar> = vec![Grammar::keyword("SET"), g8, Grammar::reference("EqualsSegment"), g26];
    assert(views(g27@) =~~= seq![GrammarView::Keyword { word: "SET"@ }, GrammarView::OneOf { elements: seq![GrammarView::Ref { name: "NakedIdentifierSegment"@, optional: false }, GrammarView::Bracketed { elements: seq![GrammarView::Delimited { elements: seq![GrammarView::Ref { name: "NakedIdentifierSegment"@, optional: false }], allow_trailing: false, delimiter: None, terminators: seq![], allow_gaps: true }], bracket_type: "round"@ }], terminators: seq![] }, GrammarView::Ref { name: "EqualsSegment"@, optional: false }, GrammarView::Delimited { elements: seq![GrammarView::OneOf { elements: seq![GrammarView::Ref { name: "LiteralGrammar"@, optional: false }, GrammarView::Bracketed { elements: seq![GrammarView::Ref { name: "SelectStatementSegment"@, optional: false }], bracket_type: "round"@ }, GrammarView::Ref { name: "BareFunctionSegment"@, optional: false }, GrammarView::Ref { name: "FunctionSegment"@, optional: false }, GrammarView::Bracketed { elements: seq![GrammarView::Delimited { elements: seq![GrammarView::OneOf { elements: seq![GrammarView::Ref { name: "LiteralGrammar"@, optional: false }, GrammarView::Bracketed { elements: seq![GrammarView::Ref { name: "SelectStatementSegment"@, optional: false }], bracket_type: "round"@ }, GrammarView::Ref { name: "BareFunctionSegment"@, optional: false }, GrammarView::Ref { name: "FunctionSegment"@, optional: false }], terminators: seq![] }], allow_trailing: false, delimiter: None, terminators: seq![], allow_gaps: true }], bracket_type: "round"@ }, GrammarView::Ref { name: "ArrayLiteralSegment"@, optional: false }, GrammarView::Ref { name: "ExpressionSegment"@, optional: false }], terminators: seq![] }], allow_trailing: false, delimiter: None, terminators: seq![], allow_gaps: true }]);
    let g28: Vec<Grammar> = Vec::new();
    assert(views(g28@) =~= Seq::<GrammarView>::empty());
    let g29 = Grammar::sequence_with(g27, g28, ParseMode::Strict);
    Element::Node { kind: "set_segment", grammar: g29 }
}

/// The BigQuery element `PartitionBySegment`.
pub open spec fn partition_by_segment_element() -> ElementView {
    ElementView::Node { kind: "partition_by_segment"@, grammar: GrammarView::Sequence { elements: seq![GrammarView::Keyword { word: "PARTITION"@ }, GrammarView::Keyword { word: "BY"@ }, GrammarView::Ref { name: "ExpressionSegment"@, optional: false }], terminators: seq![], parse_mode: ParseMode::Strict } }
}

fn build_partition_by_segment() -> (e: Element)
    ensures
        e@ =~~= partition_by_segment_element(),
{
    let g1: Vec<Grammar> = vec![Grammar::keyword("PARTITION"), Grammar::keyword("BY"), Grammar::reference("ExpressionSegment")];
    assert(views(g1@) =~~= seq![GrammarView::Keyword { word: "PARTITION"@ }, GrammarView::Keyword { word: "BY"@ }, GrammarView::Ref { name: "ExpressionSegment"@, optional: false }]);
    let g2: Vec<Grammar> = Vec::new();
    assert(views(g2@) =~= Seq::<GrammarView>::empty());
    let g3 = Grammar::sequence_with(g1, g2, ParseMode::Strict);
    Element::Node { kind: "partition_by_segment", grammar: g3 }
}

/// The BigQuery element `ClusterBySegment`.
pub open spec fn cluster_by_segment_element() -> ElementView {
    ElementView::Node { kind: "cluster_by_segment"@, grammar: GrammarView::Sequence { elements: seq![GrammarView::Keyword { word: "CLUSTER"@ }, GrammarView::Keyword { word: "BY"@ }, GrammarView::Delimited { elements: seq![GrammarView::Ref { name: "ExpressionSegment"@, optional: false }], allow_trailing: false, delimiter: None, terminators: seq![], allow_gaps: true }], terminators: seq![], parse_mode: ParseMode::Strict } }
}

fn build_cluster_by_segment() -> (e: Element)
    ensures
        e@ =~~= cluster_by_segment_element(),
{
    let g1: Vec<Grammar> = vec![Grammar::reference("ExpressionSegment")];
    assert(views(g1@) =~~= seq![GrammarView::Ref { name: "ExpressionSegment"@, optional: false }]);
    let g2: Vec<Grammar> = Vec::new();
    assert(views(g2@) =~= Seq::<GrammarView>::empty());
    let g3 = Grammar::delimited_with(g1, false, None, g2, true);
    let g4: Vec<Grammar> = vec![Grammar::keyword("CLUSTER"), Grammar::keyword("BY"), g3];
    assert(views(g4@) =~~= seq![GrammarView::Keyword { word: "CLUSTER"@ }, GrammarView::Keyword { word: "BY"@ }, GrammarView::Delimited { elements: seq![GrammarView::Ref { name: "ExpressionSegment"@, optional: false }], allow_trailing: false, delimiter: None, terminators: seq![], allow_gaps: true }]);
    let g5: Vec<Grammar> = Vec::new();
    assert(views(g5@) =~= Seq::<GrammarView>::empty());
    let g6 = Grammar::sequence_with(g4, g5, ParseMode::Strict);
    Element::Node { kind: "cluster_by_segment", grammar: g6 }
}

/// The BigQuery element `OptionsSegment`.
pub open spec fn options_segment_element() -> ElementView {
    ElementView::Node { kind: "options_segment"@, grammar: GrammarView::Sequence { elements: seq![GrammarView::Keyword { word: "OPTIONS"@ }, GrammarView::Bracketed { elements: seq![GrammarView::Delimited { elements: seq![GrammarView::Sequence { elements: seq![GrammarView::Ref { name: "ParameterNameSegment"@, optional: false }, GrammarView::Ref { name: "EqualsSegment"@, optional: false }, GrammarView::Ref { name: "BaseExpressionElementGrammar"@, optional: false }], terminators: seq![], parse_mode: ParseMode::Strict }], allow_trailing: false, delimiter: None, terminators: seq![], allow_gaps: true }], bracket_type: "round"@ }], terminators: seq![], parse_mode: ParseMode::Strict } }
}

fn build_options_segment() -> (e: Element)
    ensures
        e@ =~~= options_segment_element(),
{
    let g1: Vec<Grammar> = vec![Grammar::reference("ParameterNameSegment"), Grammar::reference("EqualsSegment"), Grammar::reference("BaseExpressionElementGrammar")];
    assert(views(g1@) =~~= seq![GrammarView::Ref { name: "ParameterNameSegment"@, optional: false }, GrammarView::Ref { name: "EqualsSegment"@, optional: false }, GrammarView::Ref { name: "BaseExpressionElementGrammar"@, optional: false }]);
    let g2: Vec<Grammar> = Vec::new();
    assert(views(g2@) =~= Seq::<GrammarView>::empty());
    let g3 = Grammar::sequence_with(g1, g2, ParseMode::Strict);
    let g4: Vec<Grammar> = vec![g3];
    assert(views(g4@) =~~= seq![GrammarView::Sequence { elements: seq![GrammarView::Ref { name: "ParameterNameSegment"@, optional: false }, GrammarView::Ref { name: "EqualsSegment"@, optional: false }, GrammarView::Ref { name: "BaseExpressionElementGrammar"@, optional: false }], terminators: seq![], parse_mode: ParseMode::Strict }]);
    let g5: Vec<Grammar> = Vec::new();
    assert(views(g5@) =~= Seq::<GrammarView>::empty());
    let g6 = Grammar::delimited_with(g4, false, None, g5, true);
    let g7: Vec<Grammar> = vec![g6];
    assert(views(g7@) =~~= seq![GrammarView::Delimited { elements: seq![GrammarView::Sequence { elements: seq![GrammarView::Ref { name: "ParameterNameSegment"@, optional: false }, GrammarView::Ref { name: "EqualsSegment"@, optional: false }, GrammarView::Ref { name: "BaseExpressionElementGrammar"@, optional: false }], terminators: seq![], parse_mode: ParseMode::Strict }], allow_trailing: false, delimiter: None, terminators: seq![], allow_gaps: true }]);
    let g8 = Grammar::bracketed_with(g7, "round");
    let g9: Vec<Grammar> = vec![Grammar::keyword("OPTIONS"), g8];
    assert(views(g9@) =~~= seq![GrammarView::Keyword { word: "OPTIONS"@ }, GrammarView::Bracketed { elements: seq![GrammarView::Delimited { elements: seq![GrammarView::Sequence { elements: seq![GrammarView::Ref { name: "ParameterNameSegment"@, optional: false }, GrammarView::Ref { name: "EqualsSegment"@, optional: false }, GrammarView::Ref { name: "BaseExpressionElementGrammar"@, optional: false }], terminators: seq![], parse_mode: ParseMode::Strict }], allow_trailing: false, delimiter: None, terminators: seq![], allow_gaps: true }], bracket_type: "round"@ }]);
    let g10: Vec<Grammar> = Vec::new();
    assert(views(g10@) =~= Seq::<GrammarView>::empty());
    let g11 = Grammar::sequence_with(g9, g10, ParseMode::Strict);
    Element::Node { kind: "options_segment", grammar: g11 }
}

/// The BigQuery grammar of `ColumnDefinitionSegment`.
pub open spec fn column_definition_segment_grammar() -> GrammarView {
    GrammarView::Sequence { elements: seq![GrammarView::Ref { name: "SingleIdentifierGrammar"@, optional: false }, GrammarView::Ref { name: "DatatypeSegment"@, optional: false }, GrammarView::AnyNumberOf { elements: seq![GrammarView::Ref { name: "ColumnConstraintSegment"@, optional: false }], terminators: seq![], min_times: 0, max_times: None }, GrammarView::Ref { name: "OptionsSegment"@, optional: true }], terminators: seq![], parse_mode: ParseMode::Strict }
}

fn build_column_definition_segment() -> (g: Grammar)
    ensures
        g@ =~~= column_definition_segment_grammar(),
{
    let g1: Vec<Grammar> = vec![Grammar::reference("ColumnConstraintSegment")];
    assert(views(g1@) =~~= seq![GrammarView::Ref { name: "ColumnConstraintSegment"@, optional: false }]);
    let g2: Vec<Grammar> = Vec::new();
    assert(views(g2@) =~= Seq::<GrammarView>::empty());
    let g3 = Grammar::any_number_of_with(g1, g2, 0, None);
    let g4: Vec<Grammar> = vec![Grammar::reference("SingleIdentifierGrammar"), Grammar::reference("DatatypeSegment"), g3, Grammar::optional_reference("OptionsSegment")];
    assert(views(g4@) =~~= seq![GrammarView::Ref { name: "SingleIdentifierGrammar"@, optional: false }, GrammarView::Ref { name: "DatatypeSegment"@, optional: false }, GrammarView::AnyNumberOf { elements: seq![GrammarView::Ref { name: "ColumnConstraintSegment"@, optional: false }], terminators: seq![], min_times: 0, max_times: None }, GrammarView::Ref { name: "OptionsSegment"@, optional: true }]);
    let g5: Vec<Grammar> = Vec::new();
    assert(views(g5@) =~= Seq::<GrammarView>::empty());
    let g6 = Grammar::sequence_with(g4, g5, ParseMode::Strict);
    g6
}

/// The BigQuery grammar of `CreateTableStatementSegment`.
pub open spec fn create_table_statement_segment_grammar() -> GrammarView {
    GrammarView::Sequence { elements: seq![GrammarView::Keyword { word: "CREATE"@ }, GrammarView::Ref { name: "OrReplaceGrammar"@, optional: true }, GrammarView::Ref { name: "TemporaryTransientGrammar"@, optional: true }, GrammarView::Keyword { word: "TABLE"@ }, GrammarView::Ref { name: "IfNotExistsGrammar"@, optional: true }, GrammarView::Ref { name: "TableReferenceSegment"@, optional: false }, GrammarView::Optional { grammar: Box::new(GrammarView::Sequence { elements: seq![GrammarView::OneOf { elements: seq![GrammarView::Keyword { word: "COPY"@ }, GrammarView::Keyword { word: "LIKE"@ }, GrammarView::Keyword { word: "CLONE"@ }], terminators: seq![] }, GrammarView::Ref { name: "TableReferenceSegment"@, optional: false }], terminators: seq![], parse_mode: ParseMode::Strict }) }, GrammarView::Optional { grammar: Box::new(GrammarView::Sequence { elements: seq![GrammarView::Bracketed { elements: seq![GrammarView::Delimited { elements: seq![GrammarView::Ref { name: "ColumnDefinitionSegment"@, optional: false }], allow_trailing: true, delimiter: None, terminators: seq![], allow_gaps: true }], bracket_type: "round"@ }], terminators: seq![], parse_mode: ParseMode::Strict }) }, GrammarView::Ref { name: "PartitionBySegment"@, optional: true }, GrammarView::Ref { name: "ClusterBySegment"@, optional: true }, GrammarView::Ref { name: "OptionsSegment"@, optional: true }, GrammarView::Optional { grammar: Box::new(GrammarView::Sequence { elements: seq![GrammarView::Keyword { word: "AS"@ }, GrammarView::OneOf { elements: seq![GrammarView::Bracketed { elements: seq![GrammarView::Ref { name: "SelectableGrammar"@, optional: false }], bracket_type: "round"@ }, GrammarView::Ref { name: "SelectableGrammar"@, optional: false }], terminators: seq![] }], terminators: seq![], parse_mode: ParseMode::Strict }) }], terminators: seq![], parse_mode: ParseMode::Strict }
}

fn build_create_table_statement_segment() -> (g: Grammar)
    ensures
        g@ =~~= create_table_statement_segment_grammar(),
{
    let g1: Vec<Grammar> = vec![Grammar::keyword("COPY"), Grammar::keyword("LIKE"), Grammar::keyword("CLONE")];
    assert(views(g1@) =~~= seq![GrammarView::Keyword { word: "COPY"@ }, GrammarView::Keyword { word: "LIKE"@ }, GrammarView::Keyword { word: "CLONE"@ }]);
    let g2: Vec<Grammar> = Vec::new();
    assert(views(g2@) =~= Seq::<GrammarView>::empty());
    let g3 = Grammar::one_of_with(g1, g2);
    let g4: Vec<Grammar> = vec![g3, Grammar::reference("TableReferenceSegment")];
    assert(views(g4@) =~~= seq![GrammarView::OneOf { elements: seq![GrammarView::Keyword { word: "COPY"@ }, GrammarView::Keyword { word: "LIKE"@ }, GrammarView::Keyword { word: "CLONE"@ }], terminators: seq![] }, GrammarView::Ref { name: "TableReferenceSegment"@, optional: false }]);
    let g5: Vec<Grammar> = Vec::new();
    assert(views(g5@) =~= Seq::<GrammarView>::empty());
    let g6 = Grammar::sequence_with(g4, g5, ParseMode::Strict);
    let g7 = g6.optional();
    let g8: Vec<Grammar> = vec![Grammar::reference("ColumnDefinitionSegment")];
    assert(views(g8@) =~~= seq![GrammarView::Ref { name: "ColumnDefinitionSegment"@, optional: false }]);
    let g9: Vec<Grammar> = Vec::new();
    assert(views(g9@) =~= Seq::<GrammarView>::empty());
    let g10 = Grammar::delimited_with(g8, true, None, g9, true);
    let g11: Vec<Grammar> = vec![g10];
    assert(views(g11@) =~~= seq![GrammarView::Delimited { elements: seq![GrammarView::Ref { name: "ColumnDefinitionSegment"@, optional: false }], allow_trailing: true, delimiter: None, terminators: seq![], allow_gaps: true }]);
    let g12 = Grammar::bracketed_with(g11, "round");
    let g13: Vec<Grammar> = vec![g12];
    assert(views(g13@) =~~= seq![GrammarView::Bracketed { elements: seq![GrammarView::Delimited { elements: seq![GrammarView::Ref { name: "ColumnDefinitionSegment"@, optional: false }], allow_trailing: true, delimiter: None, terminators: seq![], allow_gaps: true }], bracket_type: "round"@ }]);
    let g14: Vec<Grammar> = Vec::new();
    assert(views(g14@) =~= Seq::<GrammarView>::empty());
    let g15 = Grammar::sequence_with(g13, g14, ParseMode::Strict);
    let g16 = g15.optional();
    let g17: Vec<Grammar> = vec![Grammar::reference("SelectableGrammar")];
    assert(views(g17@) =~~= seq![GrammarView::Ref { name: "SelectableGrammar"@, optional: false }]);
    let g18 = Grammar::bracketed_with(g17, "round");
    let g19: Vec<Grammar> = vec![g18, Grammar::reference("SelectableGrammar")];
    assert(views(g19@) =~~= seq![GrammarView::Bracketed { elements: seq![GrammarView::Ref { name: "SelectableGrammar"@, optional: false }], bracket_type: "round"@ }, GrammarView::Ref { name: "SelectableGrammar"@, optional: false }]);
    let g20: Vec<Grammar> = Vec::new();
    assert(views(g20@) =~= Seq::<GrammarView>::empty());
    let g21 = Grammar::one_of_with(g19, g20);
    let g22: Vec<Grammar> = vec![Grammar::keyword("AS"), g21];
    assert(views(g22@) =~~= seq![GrammarView::Keyword { word: "AS"@ }, GrammarView::OneOf { elements: seq![GrammarView::Bracketed { elements: seq![GrammarView::Ref { name: "SelectableGrammar"@, optional: false }], bracket_type: "round"@ }, GrammarView::Ref { name: "SelectableGrammar"@, optional: false }], terminators: seq![] }]);
    let g23: Vec<Grammar> = Vec::new();
    assert(views(g23@) =~= Seq::<GrammarView>::empty());
    let g24 = Grammar::sequence_with(g22, g23, ParseMode::Strict);
    let g25 = g24.optional();
    let g26: Vec<Grammar> = vec![Grammar::keyword("CREATE"), Grammar::optional_reference("OrReplaceGrammar"), Grammar::optional_reference("TemporaryTransientGrammar"), Grammar::keyword("TABLE"), Grammar::optional_reference("IfNotExistsGrammar"), Grammar::reference("TableReferenceSegment"), g7, g16, Grammar::optional_reference("PartitionBySegment"), Grammar::optional_reference("ClusterBySegment"), Grammar::optional_reference("OptionsSegment"), g25];
    assert(views(g26@) =~~= seq![GrammarView::Keyword { word: "CREATE"@ }, GrammarView::Ref { name: "OrReplaceGrammar"@, optional: true }, GrammarView::Ref { name: "TemporaryTransientGrammar"@, optional: true }, GrammarView::Keyword { word: "TABLE"@ }, GrammarView::Ref { name: "IfNotExistsGrammar"@, optional: true }, GrammarView::Ref { name: "TableReferenceSegment"@, optional: false }, GrammarView::Optional { grammar: Box::new(GrammarView::Sequence { elements: seq![GrammarView::OneOf { elements: seq![GrammarView::Keyword { word: "COPY"@ }, GrammarView::Keyword { word: "LIKE"@ }, GrammarView::Keyword { word: "CLONE"@ }], terminators: seq![] }, GrammarView::Ref { name: "TableReferenceSegment"@, optional: false }], terminators: seq![], parse_mode: ParseMode::Strict }) }, GrammarView::Optional { grammar: Box::new(GrammarView::Sequence { elements: seq![GrammarView::Bracketed { elements: seq![GrammarView::Delimited { elements: seq![GrammarView::Ref { name: "ColumnDefinitionSegment"@, optional: false }], allow_trailing: true, delimiter: None, terminators: seq![], allow_gaps: true }], bracket_type: "round"@ }], terminators: seq![], parse_mode: ParseMode::Strict }) }, GrammarView::Ref { name: "PartitionBySegment"@, optional: true }, GrammarView::Ref { name: "ClusterBySegment"@, optional: true }, GrammarView::Ref { name: "OptionsSegment"@, optional: true }, GrammarView::Optional { grammar: Box::new(GrammarView::Sequence { elements: seq![GrammarView::Keyword { word: "AS"@ }, GrammarView::OneOf { elements: seq![GrammarView::Bracketed { elements: seq![GrammarView::Ref { name: "SelectableGrammar"@, optional: false }], bracket_type: "round"@ }, GrammarView::Ref { name: "SelectableGrammar"@, optional: false }], terminators: seq![] }], terminators: seq![], parse_mode: ParseMode::Strict }) }]);
    let g27: Vec<Grammar> = Vec::new();
    assert(views(g27@) =~= Seq::<GrammarView>::empty());
    let g28 = Grammar::sequence_with(g26, g27, ParseMode::Strict);
    g28
}

/// The BigQuery grammar of `AlterTableStatementSegment`.
pub open spec fn alter_table_statement_segment_grammar() -> GrammarView {
    GrammarView::Sequence { elements: seq![GrammarView::Keyword { word: "ALTER"@ }, GrammarView::Keyword { word: "TABLE"@ }, GrammarView::Ref { name: "IfExistsGrammar"@, optional: true }, GrammarView::Ref { name: "TableReferenceSegment"@, optional: false }, GrammarView::OneOf { elements: seq![GrammarView::Sequence { elements: seq![GrammarView::Keyword { word: "SET"@ }, GrammarView::Ref { name: "OptionsSegment"@, optional: false }], terminators: seq![], parse_mode: ParseMode::Strict }, GrammarView::Delimited { elements: seq![GrammarView::Sequence { elements: seq![GrammarView::Keyword { word: "ADD"@ }, GrammarView::Keyword { word: "COLUMN"@ }, GrammarView::Ref { name: "IfNotExistsGrammar"@, optional: true }, GrammarView::Ref { name: "ColumnDefinitionSegment"@, optional: false }], terminators: seq![], parse_mode: ParseMode::Strict }], allow_trailing: true, delimiter: None, terminators: seq![], allow_gaps: true }, GrammarView::Sequence { elements: seq![GrammarView::Keyword { word: "RENAME"@ }, GrammarView::Keyword { word: "TO"@ }, GrammarView::Ref { name: "TableReferenceSegment"@, optional: false }], terminators: seq![], parse_mode: ParseMode::Strict }, GrammarView::Delimited { elements: seq![GrammarView::Sequence { elements: seq![GrammarView::Keyword { word: "RENAME"@ }, GrammarView::Keyword { word: "COLUMN"@ }, GrammarView::Ref { name: "IfExistsGrammar"@, optional: true }, GrammarView::Ref { name: "SingleIdentifierGrammar"@, optional: false }, GrammarView::Keyword { word: "TO"@ }, GrammarView::Ref { name: "SingleIdentifierGrammar"@, optional: false }], terminators: seq![], parse_mode: ParseMode::Strict }], allow_trailing: true, delimiter: None, terminators: seq![], allow_gaps: true }, GrammarView::Delimited { elements: seq![GrammarView::Sequence { elements: seq![GrammarView::Keyword { word: "DROP"@ }, GrammarView::Keyword { word: "COLUMN"@ }, GrammarView::Ref { name: "IfExistsGrammar"@, optional: true }, GrammarView::Ref { name: "SingleIdentifierGrammar"@, optional: false }], terminators: seq![], parse_mode: ParseMode::Strict }], allow_trailing: false, delimiter: None, terminators: seq![], allow_gaps: true }, GrammarView::Delimited { elements: seq![GrammarView::Sequence { elements: seq![GrammarView::Keyword { word: "ALTER"@ }, GrammarView::Keyword { word: "COLUMN"@ }, GrammarView::Ref { name: "IfExistsGrammar"@, optional: true }, GrammarView::Ref { name: "SingleIdentifierGrammar"@, optional: false }, GrammarView::OneOf { elements: seq![GrammarView::Sequence { elements: seq![GrammarView::Keyword { word: "SET"@ }, GrammarView::OneOf { elements: seq![GrammarView::Ref { name: "OptionsSegment"@, optional: false }, GrammarView::Sequence { elements: seq![GrammarView::Keyword { word: "DATA"@ }, GrammarView::Keyword { word: "TYPE"@ }, GrammarView::Ref { name: "DatatypeSegment"@, optional: false }], terminators: seq![], parse_mode: ParseMode::Strict }, GrammarView::Sequence { elements: seq![GrammarView::Keyword { word: "DEFAULT"@ }, GrammarView::OneOf { elements: seq![GrammarView::Ref { name: "LiteralGrammar"@, optional: false }, GrammarView::Ref { name: "FunctionSegment"@, optional: false }], terminators: seq![] }], terminators: seq![], parse_mode: ParseMode::Strict }], terminators: seq![] }], terminators: seq![], parse_mode: ParseMode::Strict }, GrammarView::Sequence { elements: seq![GrammarView::Keyword { word: "DROP"@ }, GrammarView::OneOf { elements: seq![GrammarView::Keyword { word: "DEFAULT"@ }, GrammarView::Sequence { elements: seq![GrammarView::Keyword { word: "NOT"@ }, GrammarView::Keyword { word: "NULL"@ }], terminators: seq![], parse_mode: ParseMode::Strict }], terminators: seq![] }], terminators: seq![], parse_mode: ParseMode::Strict }], terminators: seq![] }], terminators: seq![], parse_mode: ParseMode::Strict }], allow_trailing: false, delimiter: None, terminators: seq![], allow_gaps: true }], terminators: seq![] }], terminators: seq![], parse_mode: ParseMode::Strict }
}

#[verifier::rlimit(100)]
fn build_alter_table_statement_segment() -> (g: Grammar)
    ensures
        g@ =~~= alter_table_statement_segment_grammar(),
{
    let g1: Vec<Grammar> = vec![Grammar::keyword("SET"), Grammar::reference("OptionsSegment")];
    assert(views(g1@) =~~= seq![GrammarView::Keyword { word: "SET"@ }, GrammarView::Ref { name: "OptionsSegment"@, optional: false }]);
    let g2: Vec<Grammar> = Vec::new();
    assert(views(g2@) =~= Seq::<GrammarView>::empty());
    let g3 = Grammar::sequence_with(g1, g2, ParseMode::Strict);
    let g4: Vec<Grammar> = vec![Grammar::keyword("ADD"), Grammar::keyword("COLUMN"), Grammar::optional_reference("IfNotExistsGrammar"), Grammar::reference("ColumnDefinitionSegment")];
    assert(views(g4@) =~~= seq![GrammarView::Keyword { word: "ADD"@ }, GrammarView::Keyword { word: "COLUMN"@ }, GrammarView::Ref { name: "IfNotExistsGrammar"@, optional: true }, GrammarView::Ref { name: "ColumnDefinitionSegment"@, optional: false }]);
    let g5: Vec<Grammar> = Vec::new();
    assert(views(g5@) =~= Seq::<GrammarView>::empty());
    let g6 = Grammar::sequence_with(g4, g5, ParseMode::Strict);
    let g7: Vec<Grammar> = vec![g6];
    assert(views(g7@) =~~= seq![GrammarView::Sequence { elements: seq![GrammarView::Keyword { word: "ADD"@ }, GrammarView::Keyword { word: "COLUMN"@ }, GrammarView::Ref { name: "IfNotExistsGrammar"@, optional: true }, GrammarView::Ref { name: "ColumnDefinitionSegment"@, optional: false }], terminators: seq![], parse_mode: ParseMode::Strict }]);
    let g8: Vec<Grammar> = Vec::new();
    assert(views(g8@) =~= Seq::<GrammarView>::empty());
    let g9 = Grammar::delimited_with(g7, true, None, g8, true);
    let g10: Vec<Grammar> = vec![Grammar::keyword("RENAME"), Grammar::keyword("TO"), Grammar::reference("TableReferenceSegment")];
    assert(views(g10@) =~~= seq![GrammarView::Keyword { word: "RENAME"@ }, GrammarView::Keyword { word: "TO"@ }, GrammarView::Ref { name: "TableReferenceSegment"@, optional: false }]);
    let g11: Vec<Grammar> = Vec::new();
    assert(views(g11@) =~= Seq::<GrammarView>::empty());
    let g12 = Grammar::sequence_with(g10, g11, ParseMode::Strict);
    let g13: Vec<Grammar> = vec![Grammar::keyword("RENAME"), Grammar::keyword("COLUMN"), Grammar::optional_reference("IfExistsGrammar"), Grammar::reference("SingleIdentifierGrammar"), Grammar::keyword("TO"), Grammar::reference("SingleIdentifierGrammar")];
    assert(views(g13@) =~~= seq![GrammarView::Keyword { word: "RENAME"@ }, GrammarView::Keyword { word: "COLUMN"@ }, GrammarView::Ref { name: "IfExistsGrammar"@, optional: true }, GrammarView::Ref { name: "SingleIdentifierGrammar"@, optional: false }, GrammarView::Keyword { word: "TO"@ }, GrammarView::Ref { name: "SingleIdentifierGrammar"@, optional: false }]);
    let g14: Vec<Grammar> = Vec::new();
    assert(views(g14@) =~= Seq::<GrammarView>::empty());
    let g15 = Grammar::sequence_with(g13, g14, ParseMode::Strict);
    let g16: Vec<Grammar> = vec![g15];
    assert(views(g16@) =~~= seq![GrammarView::Sequence { elements: seq![GrammarView::Keyword { word: "RENAME"@ }, GrammarView::Keyword { word: "COLUMN"@ }, GrammarView::Ref { name: "IfExistsGrammar"@, optional: true }, GrammarView::Ref { name: "SingleIdentifierGrammar"@, optional: false }, GrammarView::Keyword { word: "TO"@ }, GrammarView::Ref { name: "SingleIdentifierGrammar"@, optional: false }], terminators: seq![], parse_mode: ParseMode::Strict }]);
    let g17: Vec<Grammar> = Vec::new();
    assert(views(g17@) =~= Seq::<GrammarView>::empty());
    let g18 = Grammar::delimited_with(g16, true, None, g17, true);
    let g19: Vec<Grammar> = vec![Grammar::keyword("DROP"), Grammar::keyword("COLUMN"), Grammar::optional_reference("IfExistsGrammar"), Grammar::reference("SingleIdentifierGrammar")];
    assert(views(g19@) =~~= seq![GrammarView::Keyword { word: "DROP"@ }, GrammarView::Keyword { word: "COLUMN"@ }, GrammarView::Ref { name: "IfExistsGrammar"@, optional: true }, GrammarView::Ref { name: "SingleIdentifierGrammar"@, optional: false }]);
    let g20: Vec<Grammar> = Vec::new();
    assert(views(g20@) =~= Seq::<GrammarView>::empty());
    let g21 = Grammar::sequence_with(g19, g20, ParseMode::Strict);
    let g22: Vec<Grammar> = vec![g21];
    assert(views(g22@) =~~= seq![GrammarView::Sequence { elements: seq![GrammarView::Keyword { word: "DROP"@ }, GrammarView::Keyword { word: "COLUMN"@ }, GrammarView::Ref { name: "IfExistsGrammar"@, optional: true }, GrammarView::Ref { name: "SingleIdentifierGrammar"@, optional: false }], terminators: seq![], parse_mode: ParseMode::Strict }]);
    let g23: Vec<Grammar> = Vec::new();
    assert(views(g23@) =~= Seq::<GrammarView>::empty());
    let g24 = Grammar::delimited_with(g22, false, None, g23, true);
    let g25: Vec<Grammar> = vec![Grammar::keyword("DATA"), Grammar::keyword("TYPE"), Grammar::reference("DatatypeSegment")];
    assert(views(g25@) =~~= seq![GrammarView::Keyword { word: "DATA"@ }, GrammarView::Keyword { word: "TYPE"@ }, GrammarView::Ref { name: "DatatypeSegment"@, optional: false }]);
    let g26: Vec<Grammar> = Vec::new();
    assert(views(g26@) =~= Seq::<GrammarView>::empty());
    let g27 = Grammar::sequence_with(g25, g26, ParseMode::Strict);
    let g28: Vec<Grammar> = vec![Grammar::reference("LiteralGrammar"), Grammar::reference("FunctionSegment")];
    assert(views(g28@) =~~= seq![GrammarView::Ref { name: "LiteralGrammar"@, optional: false }, GrammarView::Ref { name: "FunctionSegment"@, optional: false }]);
    let g29: Vec<Grammar> = Vec::new();
    assert(views(g29@) =~= Seq::<GrammarView>::empty());
    let g30 = Grammar::one_of_with(g28, g29);
    let g31: Vec<Grammar> = vec![Grammar::keyword("DEFAULT"), g30];
    assert(views(g31@) =~~= seq![GrammarView::Keyword { word: "DEFAULT"@ }, GrammarView::OneOf { elements: seq![GrammarView::Ref { name: "LiteralGrammar"@, optional: false }, GrammarView::Ref { name: "FunctionSegment"@, optional: false }], terminators: seq![] }]);
    let g32: Vec<Grammar> = Vec::new();
    assert(views(g32@) =~= Seq::<GrammarView>::empty());
    let g33 = Grammar::sequence_with(g31, g32, ParseMode::Strict);
    let g34: Vec<Grammar> = vec![Grammar::reference("OptionsSegment"), g27, g33];
    assert(views(g34@) =~~= seq![GrammarView::Ref { name: "OptionsSegment"@, optional: false }, GrammarView::Sequence { elements: seq![GrammarView::Keyword { word: "DATA"@ }, GrammarView::Keyword { word: "TYPE"@ }, GrammarView::Ref { name: "DatatypeSegment"@, optional: false }], terminators: seq![], parse_mode: ParseMode::Strict }, GrammarView::Sequence { elements: seq![GrammarView::Keyword { word: "DEFAULT"@ }, GrammarView::OneOf { elements: seq![GrammarView::Ref { name: "LiteralGrammar"@, optional: false }, GrammarView::Ref { name: "FunctionSegment"@, optional: false }], terminators: seq![] }], terminators: seq![], parse_mode: ParseMode::Strict }]);
    let g35: Vec<Grammar> = Vec::new();
    assert(views(g35@) =~= Seq::<GrammarView>::empty());
    let g36 = Grammar::one_of_with(g34, g35);
    let g37: Vec<Grammar> = vec![Grammar::keyword("SET"), g36];
    assert(views(g37@) =~~= seq![GrammarView::Keyword { word: "SET"@ }, GrammarView::OneOf { elements: seq![GrammarView::Ref { name: "OptionsSegment"@, optional: false }, GrammarView::Sequence { elements: seq![GrammarView::Keyword { word: "DATA"@ }, GrammarView::Keyword { word: "TYPE"@ }, GrammarView::Ref { name: "DatatypeSegment"@, optional: false }], terminators: seq![], parse_mode: ParseMode::Strict }, GrammarView::Sequence { elements: seq![GrammarView::Keyword { word: "DEFAULT"@ }, GrammarView::OneOf { elements: seq![GrammarView::Ref { name: "LiteralGrammar"@, optional: false }, GrammarView::Ref { name: "FunctionSegment"@, optional: false }], terminators: seq![] }], terminators: seq![], parse_mode: ParseMode::Strict }], terminators: seq![] }]);
    let g38: Vec<Grammar> = Vec::new();
    assert(views(g38@) =~= Seq::<GrammarView>::empty());
    let g39 = Grammar::sequence_with(g37, g38, ParseMode::Strict);
    let g40: Vec<Grammar> = vec![Grammar::keyword("NOT"), Grammar::keyword("NULL")];
    assert(views(g40@) =~~= seq![GrammarView::Keyword { word: "NOT"@ }, GrammarView::Keyword { word: "NULL"@ }]);
    let g41: Vec<Grammar> = Vec::new();
    assert(views(g41@) =~= Seq::<GrammarView>::empty());
    let g42 = Grammar::sequence_with(g40, g41, ParseMode::Strict);
    let g43: Vec<Grammar> = vec![Grammar::keyword("DEFAULT"), g42];
    assert(views(g43@) =~~= seq![GrammarView::Keyword { word: "DEFAULT"@ }, GrammarView::Sequence { elements: seq![GrammarView::Keyword { word: "NOT"@ }, GrammarView::Keyword { word: "NULL"@ }], terminators: seq![], parse_mode: ParseMode::Strict }]);
    let g44: Vec<Grammar> = Vec::new();
    assert(views(g44@) =~= Seq::<GrammarView>::empty());
    let g45 = Grammar::one_of_with(g43, g44);
    let g46: Vec<Grammar> = vec![Grammar::keyword("DROP"), g45];
    assert(views(g46@) =~~= seq![GrammarView::Keyword { word: "DROP"@ }, GrammarView::OneOf { elements: seq![GrammarView::Keyword { word: "DEFAULT"@ }, GrammarView::Sequence { elements: seq![GrammarView::Keyword { word: "NOT"@ }, GrammarView::Keyword { word: "NULL"@ }], terminators: seq![], parse_mode: ParseMode::Strict }], terminators: seq![] }]);
    let g47: Vec<Grammar> = Vec::new();
    assert(views(g47@) =~= Seq::<GrammarView>::empty());
    let g48 = Grammar::sequence_with(g46, g47, ParseMode::Strict);
    let g49: Vec<Grammar> = vec![g39, g48];
    assert(views(g49@) =~~= seq![GrammarView::Sequence { elements: seq![GrammarView::Keyword { word: "SET"@ }, GrammarView::OneOf { elements: seq![GrammarView::Ref { name: "OptionsSegment"@, optional: false }, GrammarView::Sequence { elements: seq![GrammarView::Keyword { word: "DATA"@ }, GrammarView::Keyword { word: "TYPE"@ }, GrammarView::Ref { name: "DatatypeSegment"@, optional: false }], terminators: seq![], parse_mode: ParseMode::Strict }, GrammarView::Sequence { elements: seq![GrammarView::Keyword { word: "DEFAULT"@ }, GrammarView::OneOf { elements: seq![GrammarView::Ref { name: "LiteralGrammar"@, optional: false }, GrammarView::Ref { name: "FunctionSegment"@, optional: false }], terminators: seq![] }], terminators: seq![], parse_mode: ParseMode::Strict }], terminators: seq![] }], terminators: seq![], parse_mode: ParseMode::Strict }, GrammarView::Sequence { elements: seq![GrammarView::Keyword { word: "DROP"@ }, GrammarView::OneOf { elements: seq![GrammarView::Keyword { word: "DEFAULT"@ }, GrammarView::Sequence { elements: seq![GrammarView::Keyword { word: "NOT"@ }, GrammarView::Keyword { word: "NULL"@ }], terminators: seq![], parse_mode: ParseMode::Strict }], terminators: seq![] }], terminators: seq![], parse_mode: ParseMode::Strict }]);
    let g50: Vec<Grammar> = Vec::new();
    assert(views(g50@) =~= Seq::<GrammarView>::empty());
    let g51 = Grammar::one_of_with(g49, g50);
    let g52: Vec<Grammar> = vec![Grammar::keyword("ALTER"), Grammar::keyword("COLUMN"), Grammar::optional_reference("IfExistsGrammar"), Grammar::reference("SingleIdentifierGrammar"), g51];
    assert(views(g52@) =~~= seq![GrammarView::Keyword { word: "ALTER"@ }, GrammarView::Keyword { word: "COLUMN"@ }, GrammarView::Ref { name: "IfExistsGrammar"@, optional: true }, GrammarView::Ref { name: "SingleIdentifierGrammar"@, optional: false }, GrammarView::OneOf { elements: seq![GrammarView::Sequence { elements: seq![GrammarView::Keyword { word: "SET"@ }, GrammarView::OneOf { elements: seq![GrammarView::Ref { name: "OptionsSegment"@, optional: false }, GrammarView::Sequence { elements: seq![GrammarView::Keyword { word: "DATA"@ }, GrammarView::Keyword { word: "TYPE"@ }, GrammarView::Ref { name: "DatatypeSegment"@, optional: false }], terminators: seq![], parse_mode: ParseMode::Strict }, GrammarView::Sequence { elements: seq![GrammarView::Keyword { word: "DEFAULT"@ }, GrammarView::OneOf { elements: seq![GrammarView::Ref { name: "LiteralGrammar"@, optional: false }, GrammarView::Ref { name: "FunctionSegment"@, optional: false }], terminators: seq![] }], terminators: seq![], parse_mode: ParseMode::Strict }], terminators: seq![] }], terminators: seq![], parse_mode: ParseMode::Strict }, GrammarView::Sequence { elements: seq![GrammarView::Keyword { word: "DROP"@ }, GrammarView::OneOf { elements: seq![GrammarView::Keyword { word: "DEFAULT"@ }, GrammarView::Sequence { elements: seq![GrammarView::Keyword { word: "NOT"@ }, GrammarView::Keyword { word: "NULL"@ }], terminators: seq![], parse_mode: ParseMode::Strict }], terminators: seq![] }], terminators: seq![], parse_mode: ParseMode::Strict }], terminators: seq![] }]);
    let g53: Vec<Grammar> = Vec::new();
    assert(views(g53@) =~= Seq::<GrammarView>::empty());
    let g54 = Grammar::sequence_with(g52, g53, ParseMode::Strict);
    let g55: Vec<Grammar> = vec![g54];
    assert(views(g55@) =~~= seq![GrammarView::Sequence { elements: seq![GrammarView::Keyword { word: "ALTER"@ }, GrammarView::Keyword { word: "COLUMN"@ }, GrammarView::Ref { name: "IfExistsGrammar"@, optional: true }, GrammarView::Ref { name: "SingleIdentifierGrammar"@, optional: false }, GrammarView::OneOf { elements: seq![GrammarView::Sequence { elements: seq![GrammarView::Keyword { word: "SET"@ }, GrammarView::OneOf { elements: seq![GrammarView::Ref { name: "OptionsSegment"@, optional: false }, GrammarView::Sequence { elements: seq![GrammarView::Keyword { word: "DATA"@ }, GrammarView::Keyword { word: "TYPE"@ }, GrammarView::Ref { name: "DatatypeSegment"@, optional: false }], terminators: seq![], parse_mode: ParseMode::Strict }, GrammarView::Sequence { elements: seq![GrammarView::Keyword { word: "DEFAULT"@ }, GrammarView::OneOf { elements: seq![GrammarView::Ref { name: "LiteralGrammar"@, optional: false }, GrammarView::Ref { name: "FunctionSegment"@, optional: false }], terminators: seq![] }], terminators: seq![], parse_mode: ParseMode::Strict }], terminators: seq![] }], terminators: seq![], parse_mode: ParseMode::Strict }, GrammarView::Sequence { elements: seq![GrammarView::Keyword { word: "DROP"@ }, GrammarView::OneOf { elements: seq![GrammarView::Keyword { word: "DEFAULT"@ }, GrammarView::Sequence { elements: seq![GrammarView::Keyword { word: "NOT"@ }, GrammarView::Keyword { word: "NULL"@ }], terminators: seq![], parse_mode: ParseMode::Strict }], terminators: seq![] }], terminators: seq![], parse_mode: ParseMode::Strict }], terminators: seq![] }], terminators: seq![], parse_mode: ParseMode::Strict }]);
    let g56: Vec<Grammar> = Vec::new();
    assert(views(g56@) =~= Seq::<GrammarView>::empty());
    let g57 = Grammar::delimited_with(g55, false, None, g56, true);
    let g58: Vec<Grammar> = vec![g3, g9, g12, g18, g24, g57];
    assert(views(g58@) =~~= seq![GrammarView::Sequence { elements: seq![GrammarView::Keyword { word: "SET"@ }, GrammarView::Ref { name: "OptionsSegment"@, optional: false }], terminators: seq![], parse_mode: ParseMode::Strict }, GrammarView::Delimited { elements: seq![GrammarView::Sequence { elements: seq![GrammarView::Keyword { word: "ADD"@ }, GrammarView::Keyword { word: "COLUMN"@ }, GrammarView::Ref { name: "IfNotExistsGrammar"@, optional: true }, GrammarView::Ref { name: "ColumnDefinitionSegment"@, optional: false }], terminators: seq![], parse_mode: ParseMode::Strict }], allow_trailing: true, delimiter: None, terminators: seq![], allow_gaps: true }, GrammarView::Sequence { elements: seq![GrammarView::Keyword { word: "RENAME"@ }, GrammarView::Keyword { word: "TO"@ }, GrammarView::Ref { name: "TableReferenceSegment"@, optional: false }], terminators: seq![], parse_mode: ParseMode::Strict }, GrammarView::Delimited { elements: seq![GrammarView::Sequence { elements: seq![GrammarView::Keyword { word: "RENAME"@ }, GrammarView::Keyword { word: "COLUMN"@ }, GrammarView::Ref { name: "IfExistsGrammar"@, optional: true }, GrammarView::Ref { name: "SingleIdentifierGrammar"@, optional: false }, GrammarView::Keyword { word: "TO"@ }, GrammarView::Ref { name: "SingleIdentifierGrammar"@, optional: false }], terminators: seq![], parse_mode: ParseMode::Strict }], allow_trailing: true, delimiter: None, terminators: seq![], allow_gaps: true }, GrammarView::Delimited { elements: seq![GrammarView::Sequence { elements: seq![GrammarView::Keyword { word: "DROP"@ }, GrammarView::Keyword { word: "COLUMN"@ }, GrammarView::Ref { name: "IfExistsGrammar"@, optional: true }, GrammarView::Ref { name: "SingleIdentifierGrammar"@, optional: false }], terminators: seq![], parse_mode: ParseMode::Strict }], allow_trailing: false, delimiter: None, terminators: seq![], allow_gaps: true }, GrammarView::Delimited { elements: seq![GrammarView::Sequence { elements: seq![GrammarView::Keyword { word: "ALTER"@ }, GrammarView::Keyword { word: "COLUMN"@ }, GrammarView::Ref { name: "IfExistsGrammar"@, optional: true }, GrammarView::Ref { name: "SingleIdentifierGrammar"@, optional: false }, GrammarView::OneOf { elements: seq![GrammarView::Sequence { elements: seq![GrammarView::Keyword { word: "SET"@ }, GrammarView::OneOf { elements: seq![GrammarView::Ref { name: "OptionsSegment"@, optional: false }, GrammarView::Sequence { elements: seq![GrammarView::Keyword { word: "DATA"@ }, GrammarView::Keyword { word: "TYPE"@ }, GrammarView::Ref { name: "DatatypeSegment"@, optional: false }], terminators: seq![], parse_mode: ParseMode::Strict }, GrammarView::Sequence { elements: seq![GrammarView::Keyword { word: "DEFAULT"@ }, GrammarView::OneOf { elements: seq![GrammarView::Ref { name: "LiteralGrammar"@, optional: false }, GrammarView::Ref { name: "FunctionSegment"@, optional: false }], terminators: seq![] }], terminators: seq![], parse_mode: ParseMode::Strict }], terminators: seq![] }], terminators: seq![], parse_mode: ParseMode::Strict }, GrammarView::Sequence { elements: seq![GrammarView::Keyword { word: "DROP"@ }, GrammarView::OneOf { elements: seq![GrammarView::Keyword { word: "DEFAULT"@ }, GrammarView::Sequence { elements: seq![GrammarView::Keyword { word: "NOT"@ }, GrammarView::Keyword { word: "NULL"@ }], terminators: seq![], parse_mode: ParseMode::Strict }], terminators: seq![] }], terminators: seq![], parse_mode: ParseMode::Strict }], terminators: seq![] }], terminators: seq![], parse_mode: ParseMode::Strict }], allow_trailing: false, delimiter: None, terminators: seq![], allow_gaps: true }]);
    let g59: Vec<Grammar> = Vec::new();
    assert(views(g59@) =~= Seq::<GrammarView>::empty());
    let g60 = Grammar::one_of_with(g58, g59);
    let g61: Vec<Grammar> = vec![Grammar::keyword("ALTER"), Grammar::keyword("TABLE"), Grammar::optional_reference("IfExistsGrammar"), Grammar::reference("TableReferenceSegment"), g60];
    assert(views(g61@) =~~= seq![GrammarView::Keyword { word: "ALTER"@ }, GrammarView::Keyword { word: "TABLE"@ }, GrammarView::Ref { name: "IfExistsGrammar"@, optional: true }, GrammarView::Ref { name: "TableReferenceSegment"@, optional: false }, GrammarView::OneOf { elements: seq![GrammarView::Sequence { elements: seq![GrammarView::Keyword { word: "SET"@ }, GrammarView::Ref { name: "OptionsSegment"@, optional: false }], terminators: seq![], parse_mode: ParseMode::Strict }, GrammarView::Delimited { elements: seq![GrammarView::Sequence { elements: seq![GrammarView::Keyword { word: "ADD"@ }, GrammarView::Keyword { word: "COLUMN"@ }, GrammarView::Ref { name: "IfNotExistsGrammar"@, optional: true }, GrammarView::Ref { name: "ColumnDefinitionSegment"@, optional: false }], terminators: seq![], parse_mode: ParseMode::Strict }], allow_trailing: true, delimiter: None, terminators: seq![], allow_gaps: true }, GrammarView::Sequence { elements: seq![GrammarView::Keyword { word: "RENAME"@ }, GrammarView::Keyword { word: "TO"@ }, GrammarView::Ref { name: "TableReferenceSegment"@, optional: false }], terminators: seq![], parse_mode: ParseMode::Strict }, GrammarView::Delimited { elements: seq![GrammarView::Sequence { elements: seq![GrammarView::Keyword { word: "RENAME"@ }, GrammarView::Keyword { word: "COLUMN"@ }, GrammarView::Ref { name: "IfExistsGrammar"@, optional: true }, GrammarView::Ref { name: "SingleIdentifierGrammar"@, optional: false }, GrammarView::Keyword { word: "TO"@ }, GrammarView::Ref { name: "SingleIdentifierGrammar"@, optional: false }], terminators: seq![], parse_mode: ParseMode::Strict }], allow_trailing: true, delimiter: None, terminators: seq![], allow_gaps: true }, GrammarView::Delimited { elements: seq![GrammarView::Sequence { elements: seq![GrammarView::Keyword { word: "DROP"@ }, GrammarView::Keyword { word: "COLUMN"@ }, GrammarView::Ref { name: "IfExistsGrammar"@, optional: true }, GrammarView::Ref { name: "SingleIdentifierGrammar"@, optional: false }], terminators: seq![], parse_mode: ParseMode::Strict }], allow_trailing: false, delimiter: None, terminators: seq![], allow_gaps: true }, GrammarView::Delimited { elements: seq![GrammarView::Sequence { elements: seq![GrammarView::Keyword { word: "ALTER"@ }, GrammarView::Keyword { word: "COLUMN"@ }, GrammarView::Ref { name: "IfExistsGrammar"@, optional: true }, GrammarView::Ref { name: "SingleIdentifierGrammar"@, optional: false }, GrammarView::OneOf { elements: seq![GrammarView::Sequence { elements: seq![GrammarView::Keyword { word: "SET"@ }, GrammarView::OneOf { elements: seq![GrammarView::Ref { name: "OptionsSegment"@, optional: false }, GrammarView::Sequence { elements: seq![GrammarView::Keyword { word: "DATA"@ }, GrammarView::Keyword { word: "TYPE"@ }, GrammarView::Ref { name: "DatatypeSegment"@, optional: false }], terminators: seq![], parse_mode: ParseMode::Strict }, GrammarView::Sequence { elements: seq![GrammarView::Keyword { word: "DEFAULT"@ }, GrammarView::OneOf { elements: seq![GrammarView::Ref { name: "LiteralGrammar"@, optional: false }, GrammarView::Ref { name: "FunctionSegment"@, optional: false }], terminators: seq![] }], terminators: seq![], parse_mode: ParseMode::Strict }], terminators: seq![] }], terminators: seq![], parse_mode: ParseMode::Strict }, GrammarView::Sequence { elements: seq![GrammarView::Keyword { word: "DROP"@ }, GrammarView::OneOf { elements: seq![GrammarView::Keyword { word: "DEFAULT"@ }, GrammarView::Sequence { elements: seq![GrammarView::Keyword { word: "NOT"@ }, GrammarView::Keyword { word: "NULL"@ }], terminators: seq![], parse_mode: ParseMode::Strict }], terminators: seq![] }], terminators: seq![], parse_mode: ParseMode::Strict }], terminators: seq![] }], terminators: seq![], parse_mode: ParseMode::Strict }], allow_trailing: false, delimiter: None, terminators: seq![], allow_gaps: true }], terminators: seq![] }]);
    let g62: Vec<Grammar> = Vec::new();
    assert(views(g62@) =~= Seq::<GrammarView>::empty());
    let g63 = Grammar::sequence_with(g61, g62, ParseMode::Strict);
    g63
}

/// The BigQuery element `CreateExternalTableStatementSegment`.
pub open spec fn create_external_table_statement_segment_element() -> ElementView {
    ElementView::Node { kind: "create_external_table_statement"@, grammar: GrammarView::Sequence { elements: seq![GrammarView::Keyword { word: "CREATE"@ }, GrammarView::Optional { grammar: Box::new(GrammarView::Sequence { elements: seq![GrammarView::Optional { grammar: Box::new(GrammarView::Keyword { word: "OR"@ }) }, GrammarView::Optional { grammar: Box::new(GrammarView::Keyword { word: "REPLACE"@ }) }], terminators: seq![], parse_mode: ParseMode::Strict }) }, GrammarView::Keyword { word: "EXTERNAL"@ }, GrammarView::Keyword { word: "TABLE"@ }, GrammarView::Optional { grammar: Box::new(GrammarView::Sequence { elements: seq![GrammarView::Optional { grammar: Box::new(GrammarView::Keyword { word: "IF"@ }) }, GrammarView::Optional { grammar: Box::new(GrammarView::Keyword { word: "NOT"@ }) }, GrammarView::Optional { grammar: Box::new(GrammarView::Keyword { word: "EXISTS"@ }) }], terminators: seq![], parse_mode: ParseMode::Strict }) }, GrammarView::Ref { name: "TableReferenceSegment"@, optional: false }, GrammarView::Optional { grammar: Box::new(GrammarView::Bracketed { elements: seq![GrammarView::Delimited { elements: seq![GrammarView::Ref { name: "ColumnDefinitionSegment"@, optional: false }], allow_trailing: true, delimiter: None, terminators: seq![], allow_gaps: true }], bracket_type: "round"@ }) }, GrammarView::AnyNumberOf { elements: seq![GrammarView::Optional { grammar: Box::new(GrammarView::Sequence { elements: seq![GrammarView::Keyword { word: "WITH"@ }, GrammarView::Keyword { word: "CONNECTION"@ }, GrammarView::Ref { name: "TableReferenceSegment"@, optional: false }], terminators: seq![], parse_mode: ParseMode::Strict }) }, GrammarView::Optional { grammar: Box::new(GrammarView::Sequence { elements: seq![GrammarView::Keyword { word: "WITH"@ }, GrammarView::Keyword { word: "PARTITION"@ }, GrammarView::Keyword { word: "COLUMNS"@ }, GrammarView::Optional { grammar: Box::new(GrammarView::Bracketed { elements: seq![GrammarView::Delimited { elements: seq![GrammarView::Ref { name: "ColumnDefinitionSegment"@, optional: false }], allow_trailing: true, delimiter: None, terminators: seq![], allow_gaps: true }], bracket_type: "round"@ }) }], terminators: seq![], parse_mode: ParseMode::Strict }) }, GrammarView::Ref { name: "OptionsSegment"@, optional: true }], terminators: seq![], min_times: 0, max_times: None }], terminators: seq![], parse_mode: ParseMode::Strict } }
}

fn build_create_external_table_statement_segment() -> (e: Element)
    ensures
        e@ =~~= create_external_table_statement_segment_element(),
{
    let g1 = Grammar::keyword("OR").optional();
    let g2 = Grammar::keyword("REPLACE").optional();
    let g3: Vec<Grammar> = vec![g1, g2];
    assert(views(g3@) =~~= seq![GrammarView::Optional { grammar: Box::new(GrammarView::Keyword { word: "OR"@ }) }, GrammarView::Optional { grammar: Box::new(GrammarView::Keyword { word: "REPLACE"@ }) }]);
    let g4: Vec<Grammar> = Vec::new();
    assert(views(g4@) =~= Seq::<GrammarView>::empty());
    let g5 = Grammar::sequence_with(g3, g4, ParseMode::Strict);
    let g6 = g5.optional();
    let g7 = Grammar::keyword("IF").optional();
    let g8 = Grammar::keyword("NOT").optional();
    let g9 = Grammar::keyword("EXISTS").optional();
    let g10: Vec<Grammar> = vec![g7, g8, g9];
    assert(views(g10@) =~~= seq![GrammarView::Optional { grammar: Box::new(GrammarView::Keyword { word: "IF"@ }) }, GrammarView::Optional { grammar: Box::new(GrammarView::Keyword { word: "NOT"@ }) }, GrammarView::Optional { grammar: Box::new(GrammarView::Keyword { word: "EXISTS"@ }) }]);
    let g11: Vec<Grammar> = Vec::new();
    assert(views(g11@) =~= Seq::<GrammarView>::empty());
    let g12 = Grammar::sequence_with(g10, g11, ParseMode::Strict);
    let g13 = g12.optional();
    let g14: Vec<Grammar> = vec![Grammar::reference("ColumnDefinitionSegment")];
    assert(views(g14@) =~~= seq![GrammarView::Ref { name: "ColumnDefinitionSegment"@, optional: false }]);
    let g15: Vec<Grammar> = Vec::new();
    assert(views(g15@) =~= Seq::<GrammarView>::empty());
    let g16 = Grammar::delimited_with(g14, true, None, g15, true);
    let g17: Vec<Grammar> = vec![g16];
    assert(views(g17@) =~~= seq![GrammarView::Delimited { elements: seq![GrammarView::Ref { name: "ColumnDefinitionSegment"@, optional: false }], allow_trailing: true, delimiter: None, terminators: seq![], allow_gaps: true }]);
    let g18 = Grammar::bracketed_with(g17, "round");
    let g19 = g18.optional();
    let g20: Vec<Grammar> = vec![Grammar::keyword("WITH"), Grammar::keyword("CONNECTION"), Grammar::reference("TableReferenceSegment")];
    assert(views(g20@) =~~= seq![GrammarView::Keyword { word: "WITH"@ }, GrammarView::Keyword { word: "CONNECTION"@ }, GrammarView::Ref { name: "TableReferenceSegment"@, optional: false }]);
    let g21: Vec<Grammar> = Vec::new();
    assert(views(g21@) =~= Seq::<GrammarView>::empty());
    let g22 = Grammar::sequence_with(g20, g21, ParseMode::Strict);
    let g23 = g22.optional();
    let g24: Vec<Grammar> = vec![Grammar::reference("ColumnDefinitionSegment")];
    assert(views(g24@) =~~= seq![GrammarView::Ref { name: "ColumnDefinitionSegment"@, optional: false }]);
    let g25: Vec<Grammar> = Vec::new();
    assert(views(g25@) =~= Seq::<GrammarView>::empty());
    let g26 = Grammar::delimited_with(g24, true, None, g25, true);
    let g27: Vec<Grammar> = vec![g26];
    assert(views(g27@) =~~= seq![GrammarView::Delimited { elements: seq![GrammarView::Ref { name: "ColumnDefinitionSegment"@, optional: false }], allow_trailing: true, delimiter: None, terminators: seq![], allow_gaps: true }]);
    let g28 = Grammar::bracketed_with(g27, "round");
    let g29 = g28.optional();
    let g30: Vec<Grammar> = vec![Grammar::keyword("WITH"), Grammar::keyword("PARTITION"), Grammar::keyword("COLUMNS"), g29];
    assert(views(g30@) =~~= seq![GrammarView::Keyword { word: "WITH"@ }, GrammarView::Keyword { word: "PARTITION"@ }, GrammarView::Keyword { word: "COLUMNS"@ }, GrammarView::Optional { grammar: Box::new(GrammarView::Bracketed { elements: seq![GrammarView::Delimited { elements: seq![GrammarView::Ref { name: "ColumnDefinitionSegment"@, optional: false }], allow_trailing: true, delimiter: None, terminators: seq![], allow_gaps: true }], bracket_type: "round"@ }) }]);
    let g31: Vec<Grammar> = Vec::new();
    assert(views(g31@) =~= Seq::<GrammarView>::empty());
    let g32 = Grammar::sequence_with(g30, g31, ParseMode::Strict);
    let g33 = g32.optional();
    let g34: Vec<Grammar> = vec![g23, g33, Grammar::optional_reference("OptionsSegment")];
    assert(views(g34@) =~~= seq![GrammarView::Optional { grammar: Box::new(GrammarView::Sequence { elements: seq![GrammarView::Keyword { word: "WITH"@ }, GrammarView::Keyword { word: "CONNECTION"@ }, GrammarView::Ref { name: "TableReferenceSegment"@, optional: false }], terminators: seq![], parse_mode: ParseMode::Strict }) }, GrammarView::Optional { grammar: Box::new(GrammarView::Sequence { elements: seq![GrammarView::Keyword { word: "WITH"@ }, GrammarView::Keyword { word: "PARTITION"@ }, GrammarView::Keyword { word: "COLUMNS"@ }, GrammarView::Optional { grammar: Box::new(GrammarView::Bracketed { elements: seq![GrammarView::Delimited { elements: seq![GrammarView::Ref { name: "ColumnDefinitionSegment"@, optional: false }], allow_trailing: true, delimiter: None, terminators: seq![], allow_gaps: true }], bracket_type: "round"@ }) }], terminators: seq![], parse_mode: ParseMode::Strict }) }, GrammarView::Ref { name: "OptionsSegment"@, optional: true }]);
    let g35: Vec<Grammar> = Vec::new();
    assert(views(g35@) =~= Seq::<GrammarView>::empty());
    let g36 = Grammar::any_number_of_with(g34, g35, 0, None);
    let g37: Vec<Grammar> = vec![Grammar::keyword("CREATE"), g6, Grammar::keyword("EXTERNAL"), Grammar::keyword("TABLE"), g13, Grammar::reference("TableReferenceSegment"), g19, g36];
    assert(views(g37@) =~~= seq![GrammarView::Keyword { word: "CREATE"@ }, GrammarView::Optional { grammar: Box::new(GrammarView::Sequence { elements: seq![GrammarView::Optional { grammar: Box::new(GrammarView::Keyword { word: "OR"@ }) }, GrammarView::Optional { grammar: Box::new(GrammarView::Keyword { word: "REPLACE"@ }) }], terminators: seq![], parse_mode: ParseMode::Strict }) }, GrammarView::Keyword { word: "EXTERNAL"@ }, GrammarView::Keyword { word: "TABLE"@ }, GrammarView::Optional { grammar: Box::new(GrammarView::Sequence { elements: seq![GrammarView::Optional { grammar: Box::new(GrammarView::Keyword { word: "IF"@ }) }, GrammarView::Optional { grammar: Box::new(GrammarView::Keyword { word: "NOT"@ }) }, GrammarView::Optional { grammar: Box::new(GrammarView::Keyword { word: "EXISTS"@ }) }], terminators: seq![], parse_mode: ParseMode::Strict }) }, GrammarView::Ref { name: "TableReferenceSegment"@, optional: false }, GrammarView::Optional { grammar: Box::new(GrammarView::Bracketed { elements: seq![GrammarView::Delimited { elements: seq![GrammarView::Ref { name: "ColumnDefinitionSegment"@, optional: false }], allow_trailing: true, delimiter: None, terminators: seq![], allow_gaps: true }], bracket_type: "round"@ }) }, GrammarView::AnyNumberOf { elements: seq![GrammarView::Optional { grammar: Box::new(GrammarView::Sequence { elements: seq![GrammarView::Keyword { word: "WITH"@ }, GrammarView::Keyword { word: "CONNECTION"@ }, GrammarView::Ref { name: "TableReferenceSegment"@, optional: false }], terminators: seq![], parse_mode: ParseMode::Strict }) }, GrammarView::Optional { grammar: Box::new(GrammarView::Sequence { elements: seq![GrammarView::Keyword { word: "WITH"@ }, GrammarView::Keyword { word: "PARTITION"@ }, GrammarView::Keyword { word: "COLUMNS"@ }, GrammarView::Optional { grammar: Box::new(GrammarView::Bracketed { elements: seq![GrammarView::Delimited { elements: seq![GrammarView::Ref { name: "ColumnDefinitionSegment"@, optional: false }], allow_trailing: true, delimiter: None, terminators: seq![], allow_gaps: true }], bracket_type: "round"@ }) }], terminators: seq![], parse_mode: ParseMode::Strict }) }, GrammarView::Ref { name: "OptionsSegment"@, optional: true }], terminators: seq![], min_times: 0, max_times: None }]);
    let g38: Vec<Grammar> = Vec::new();
    assert(views(g38@) =~= Seq::<GrammarView>::empty());
    let g39 = Grammar::sequence_with(g37, g38, ParseMode::Strict);
    Element::Node { kind: "create_external_table_statement", grammar: g39 }
}

/// The BigQuery element `CreateExternalTableStatementSegment`.
pub open spec fn create_external_table_statement_segment_2_element() -> ElementView {
    ElementView::Node { kind: "create_external_table_statement"@, grammar: GrammarView::Sequence { elements: seq![GrammarView::Keyword { word: "CREATE"@ }, GrammarView::Optional { grammar: Box::new(GrammarView::Sequence { elements: seq![GrammarView::Optional { grammar: Box::new(GrammarView::Keyword { word: "OR"@ }) }, GrammarView::Optional { grammar: Box::new(GrammarView::Keyword { word: "REPLACE"@ }) }], terminators: seq![], parse_mode: ParseMode::Strict }) }, GrammarView::Keyword { word: "EXTERNAL"@ }, GrammarView::Keyword { word: "TABLE"@ }, GrammarView::Optional { grammar: Box::new(GrammarView::Sequence { elements: seq![GrammarView::Optional { grammar: Box::new(GrammarView::Keyword { word: "IF"@ }) }, GrammarView::Optional { grammar: Box::new(GrammarView::Keyword { word: "NOT"@ }) }, GrammarView::Optional { grammar: Box::new(GrammarView::Keyword { word: "EXISTS"@ }) }], terminators: seq![], parse_mode: ParseMode::Strict }) }, GrammarView::Ref { name: "TableReferenceSegment"@, optional: false }, GrammarView::Optional { grammar: Box::new(GrammarView::Bracketed { elements: seq![GrammarView::Delimited { elements: seq![GrammarView::Ref { name: "ColumnDefinitionSegment"@, optional: false }], allow_trailing: true, delimiter: None, terminators: seq![], allow_gaps: true }], bracket_type: "round"@ }) }, GrammarView::AnyNumberOf { elements: seq![GrammarView::Optional { grammar: Box::new(GrammarView::Sequence { elements: seq![GrammarView::Keyword { word: "WITH"@ }, GrammarView::Keyword { word: "CONNECTION"@ }, GrammarView::Ref { name: "TableReferenceSegment"@, optional: false }], terminators: seq![], parse_mode: ParseMode::Strict }) }, GrammarView::Optional { grammar: Box::new(GrammarView::Sequence { elements: seq![GrammarView::Keyword { word: "WITH"@ }, GrammarView::Keyword { word: "PARTITION"@ }, GrammarView::Keyword { word: "COLUMNS"@ }, GrammarView::Optional { grammar: Box::new(GrammarView::Bracketed { elements: seq![GrammarView::Delimited { elements: seq![GrammarView::Ref { name: "ColumnDefinitionSegment"@, optional: false }], allow_trailing: true, delimiter: None, terminators: seq![], allow_gaps: true }], bracket_type: "round"@ }) }], terminators: seq![], parse_mode: ParseMode::Strict }) }, GrammarView::Ref { name: "OptionsSegment"@, optional: true }], terminators: seq![], min_times: 0, max_times: None }], terminators: seq![], parse_mode: ParseMode::Strict } }
}

fn build_create_external_table_statement_segment_2() -> (e: Element)
    ensures
        e@ =~~= create_external_table_statement_segment_2_element(),
{
    let g1 = Grammar::keyword("OR").optional();
    let g2 = Grammar::keyword("REPLACE").optional();
    let g3: Vec<Grammar> = vec![g1, g2];
    assert(views(g3@) =~~= seq![GrammarView::Optional { grammar: Box::new(GrammarView::Keyword { word: "OR"@ }) }, GrammarView::Optional { grammar: Box::new(GrammarView::Keyword { word: "REPLACE"@ }) }]);
    let g4: Vec<Grammar> = Vec::new();
    assert(views(g4@) =~= Seq::<GrammarView>::empty());
    let g5 = Grammar::sequence_with(g3, g4, ParseMode::Strict);
    let g6 = g5.optional();
    let g7 = Grammar::keyword("IF").optional();
    let g8 = Grammar::keyword("NOT").optional();
    let g9 = Grammar::keyword("EXISTS").optional();
    let g10: Vec<Grammar> = vec![g7, g8, g9];
    assert(views(g10@) =~~= seq![GrammarView::Optional { grammar: Box::new(GrammarView::Keyword { word: "IF"@ }) }, GrammarView::Optional { grammar: Box::new(GrammarView::Keyword { word: "NOT"@ }) }, GrammarView::Optional { grammar: Box::new(GrammarView::Keyword { word: "EXISTS"@ }) }]);
    let g11: Vec<Grammar> = Vec::new();
    assert(views(g11@) =~= Seq::<GrammarView>::empty());
    let g12 = Grammar::sequence_with(g10, g11, ParseMode::Strict);
    let g13 = g12.optional();
    let g14: Vec<Grammar> = vec![Grammar::reference("ColumnDefinitionSegment")];
    assert(views(g14@) =~~= seq![GrammarView::Ref { name: "ColumnDefinitionSegment"@, optional: false }]);
    let g15: Vec<Grammar> = Vec::new();
    assert(views(g15@) =~= Seq::<GrammarView>::empty());
    let g16 = Grammar::delimited_with(g14, true, None, g15, true);
    let g17: Vec<Grammar> = vec![g16];
    assert(views(g17@) =~~= seq![GrammarView::Delimited { elements: seq![GrammarView::Ref { name: "ColumnDefinitionSegment"@, optional: false }], allow_trailing: true, delimiter: None, terminators: seq![], allow_gaps: true }]);
    let g18 = Grammar::bracketed_with(g17, "round");
    let g19 = g18.optional();
    let g20: Vec<Grammar> = vec![Grammar::keyword("WITH"), Grammar::keyword("CONNECTION"), Grammar::reference("TableReferenceSegment")];
    assert(views(g20@) =~~= seq![GrammarView::Keyword { word: "WITH"@ }, GrammarView::Keyword { word: "CONNECTION"@ }, GrammarView::Ref { name: "TableReferenceSegment"@, optional: false }]);
    let g21: Vec<Grammar> = Vec::new();
    assert(views(g21@) =~= Seq::<GrammarView>::empty());
    let g22 = Grammar::sequence_with(g20, g21, ParseMode::Strict);
    let g23 = g22.optional();
    let g24: Vec<Grammar> = vec![Grammar::reference("ColumnDefinitionSegment")];
    assert(views(g24@) =~~= seq![GrammarView::Ref { name: "ColumnDefinitionSegment"@, optional: false }]);
    let g25: Vec<Grammar> = Vec::new();
    assert(views(g25@) =~= Seq::<GrammarView>::empty());
    let g26 = Grammar::delimited_with(g24, true, None, g25, true);
    let g27: Vec<Grammar> = vec![g26];
    assert(views(g27@) =~~= seq![GrammarView::Delimited { elements: seq![GrammarView::Ref { name: "ColumnDefinitionSegment"@, optional: false }], allow_trailing: true, delimiter: None, terminators: seq![], allow_gaps: true }]);
    let g28 = Grammar::bracketed_with(g27, "round");
    let g29 = g28.optional();
    let g30: Vec<Grammar> = vec![Grammar::keyword("WITH"), Grammar::keyword("PARTITION"), Grammar::keyword("COLUMNS"), g29];
    assert(views(g30@) =~~= seq![GrammarView::Keyword { word: "WITH"@ }, GrammarView::Keyword { word: "PARTITION"@ }, GrammarView::Keyword { word: "COLUMNS"@ }, GrammarView::Optional { grammar: Box::new(GrammarView::Bracketed { elements: seq![GrammarView::Delimited { elements: seq![GrammarView::Ref { name: "ColumnDefinitionSegment"@, optional: false }], allow_trailing: true, delimiter: None, terminators: seq![], allow_gaps: true }], bracket_type: "round"@ }) }]);
    let g31: Vec<Grammar> = Vec::new();
    assert(views(g31@) =~= Seq::<GrammarView>::empty());
    let g32 = Grammar::sequence_with(g30, g31, ParseMode::Strict);
    let g33 = g32.optional();
    let g34: Vec<Grammar> = vec![g23, g33, Grammar::optional_reference("OptionsSegment")];
    assert(views(g34@) =~~= seq![GrammarView::Optional { grammar: Box::new(GrammarView::Sequence { elements: seq![GrammarView::Keyword { word: "WITH"@ }, GrammarView::Keyword { word: "CONNECTION"@ }, GrammarView::Ref { name: "TableReferenceSegment"@, optional: false }], terminators: seq![], parse_mode: ParseMode::Strict }) }, GrammarView::Optional { grammar: Box::new(GrammarView::Sequence { elements: seq![GrammarView::Keyword { word: "WITH"@ }, GrammarView::Keyword { word: "PARTITION"@ }, GrammarView::Keyword { word: "COLUMNS"@ }, GrammarView::Optional { grammar: Box::new(GrammarView::Bracketed { elements: seq![GrammarView::Delimited { elements: seq![GrammarView::Ref { name: "ColumnDefinitionSegment"@, optional: false }], allow_trailing: true, delimiter: None, terminators: seq![], allow_gaps: true }], bracket_type: "round"@ }) }], terminators: seq![], parse_mode: ParseMode::Strict }) }, GrammarView::Ref { name: "OptionsSegment"@, optional: true }]);
    let g35: Vec<Grammar> = Vec::new();
    assert(views(g35@) =~= Seq::<GrammarView>::empty());
    let g36 = Grammar::any_number_of_with(g34, g35, 0, None);
    let g37: Vec<Grammar> = vec![Grammar::keyword("CREATE"), g6, Grammar::keyword("EXTERNAL"), Grammar::keyword("TABLE"), g13, Grammar::reference("TableReferenceSegment"), g19, g36];
    assert(views(g37@) =~~= seq![GrammarView::Keyword { word: "CREATE"@ }, GrammarView::Optional { grammar: Box::new(GrammarView::Sequence { elements: seq![GrammarView::Optional { grammar: Box::new(GrammarView::Keyword { word: "OR"@ }) }, GrammarView::Optional { grammar: Box::new(GrammarView::Keyword { word: "REPLACE"@ }) }], terminators: seq![], parse_mode: ParseMode::Strict }) }, GrammarView::Keyword { word: "EXTERNAL"@ }, GrammarView::Keyword { word: "TABLE"@ }, GrammarView::Optional { grammar: Box::new(GrammarView::Sequence { elements: seq![GrammarView::Optional { grammar: Box::new(GrammarView::Keyword { word: "IF"@ }) }, GrammarView::Optional { grammar: Box::new(GrammarView::Keyword { word: "NOT"@ }) }, GrammarView::Optional { grammar: Box::new(GrammarView::Keyword { word: "EXISTS"@ }) }], terminators: seq![], parse_mode: ParseMode::Strict }) }, GrammarView::Ref { name: "TableReferenceSegment"@, optional: false }, GrammarView::Optional { grammar: Box::new(GrammarView::Bracketed { elements: seq![GrammarView::Delimited { elements: seq![GrammarView::Ref { name: "ColumnDefinitionSegment"@, optional: false }], allow_trailing: true, delimiter: None, terminators: seq![], allow_gaps: true }], bracket_type: "round"@ }) }, GrammarView::AnyNumberOf { elements: seq![GrammarView::Optional { grammar: Box::new(GrammarView::Sequence { elements: seq![GrammarView::Keyword { word: "WITH"@ }, GrammarView::Keyword { word: "CONNECTION"@ }, GrammarView::Ref { name: "TableReferenceSegment"@, optional: false }], terminators: seq![], parse_mode: ParseMode::Strict }) }, GrammarView::Optional { grammar: Box::new(GrammarView::Sequence { elements: seq![GrammarView::Keyword { word: "WITH"@ }, GrammarView::Keyword { word: "PARTITION"@ }, GrammarView::Keyword { word: "COLUMNS"@ }, GrammarView::Optional { grammar: Box::new(GrammarView::Bracketed { elements: seq![GrammarView::Delimited { elements: seq![GrammarView::Ref { name: "ColumnDefinitionSegment"@, optional: false }], allow_trailing: true, delimiter: None, terminators: seq![], allow_gaps: true }], bracket_type: "round"@ }) }], terminators: seq![], parse_mode: ParseMode::Strict }) }, GrammarView::Ref { name: "OptionsSegment"@, optional: true }], terminators: seq![], min_times: 0, max_times: None }]);
    let g38: Vec<Grammar> = Vec::new();
    assert(views(g38@) =~= Seq::<GrammarView>::empty());
    let g39 = Grammar::sequence_with(g37, g38, ParseMode::Strict);
    Element::Node { kind: "create_external_table_statement", grammar: g39 }
}

/// The BigQuery grammar of `CreateViewStatementSegment`.
pub open spec fn create_view_statement_segment_grammar() -> GrammarView {
    GrammarView::Sequence { elements: seq![GrammarView::Keyword { word: "CREATE"@ }, GrammarView::Ref { name: "OrReplaceGrammar"@, optional: true }, GrammarView::Keyword { word: "VIEW"@ }, GrammarView::Ref { name: "IfNotExistsGrammar"@, optional: true }, GrammarView::Ref { name: "TableReferenceSegment"@, optional: false }, GrammarView::Ref { name: "BracketedColumnReferenceListGrammar"@, optional: true }, GrammarView::Ref { name: "OptionsSegment"@, optional: true }, GrammarView::Keyword { word: "AS"@ }, GrammarView::OneOf { elements: seq![GrammarView::Bracketed { elements: seq![GrammarView::Ref { name: "SelectableGrammar"@, optional: false }], bracket_type: "round"@ }, GrammarView::Ref { name: "SelectableGrammar"@, optional: false }], terminators: seq![] }], terminators: seq![], parse_mode: ParseMode::Strict }
}

fn build_create_view_statement_segment() -> (g: Grammar)
    ensures
        g@ =~~= create_view_statement_segment_grammar(),
{
    let g1: Vec<Grammar> = vec![Grammar::reference("SelectableGrammar")];
    assert(views(g1@) =~~= seq![GrammarView::Ref { name: "SelectableGrammar"@, optional: false }]);
    let g2 = Grammar::bracketed_with(g1, "round");
    let g3: Vec<Grammar> = vec![g2, Grammar::reference("SelectableGrammar")];
    assert(views(g3@) =~~= seq![GrammarView::Bracketed { elements: seq![GrammarView::Ref { name: "SelectableGrammar"@, optional: false }], bracket_type: "round"@ }, GrammarView::Ref { name: "SelectableGrammar"@, optional: false }]);
    let g4: Vec<Grammar> = Vec::new();
    assert(views(g4@) =~= Seq::<GrammarView>::empty());
    let g5 = Grammar::one_of_with(g3, g4);
    let g6: Vec<Grammar> = vec![Grammar::keyword("CREATE"), Grammar::optional_reference("OrReplaceGrammar"), Grammar::keyword("VIEW"), Grammar::optional_reference("IfNotExistsGrammar"), Grammar::reference("TableReferenceSegment"), Grammar::optional_reference("BracketedColumnReferenceListGrammar"), Grammar::optional_reference("OptionsSegment"), Grammar::keyword("AS"), g5];
    assert(views(g6@) =~~= seq![GrammarView::Keyword { word: "CREATE"@ }, GrammarView::Ref { name: "OrReplaceGrammar"@, optional: true }, GrammarView::Keyword { word: "VIEW"@ }, GrammarView::Ref { name: "IfNotExistsGrammar"@, optional: true }, GrammarView::Ref { name: "TableReferenceSegment"@, optional: false }, GrammarView::Ref { name: "BracketedColumnReferenceListGrammar"@, optional: true }, GrammarView::Ref { name: "OptionsSegment"@, optional: true }, GrammarView::Keyword { word: "AS"@ }, GrammarView::OneOf { elements: seq![GrammarView::Bracketed { elements: seq![GrammarView::Ref { name: "SelectableGrammar"@, optional: false }], bracket_type: "round"@ }, GrammarView::Ref { name: "SelectableGrammar"@, optional: false }], terminators: seq![] }]);
    let g7: Vec<Grammar> = Vec::new();
    assert(views(g7@) =~= Seq::<GrammarView>::empty());
    let g8 = Grammar::sequence_with(g6, g7, ParseMode::Strict);
    g8
}

/// The BigQuery element `AlterViewStatementSegment`.
pub open spec fn alter_view_statement_segment_element() -> ElementView {
    ElementView::Node { kind: "alter_view_statement"@, grammar: GrammarView::Sequence { elements: seq![GrammarView::Keyword { word: "ALTER"@ }, GrammarView::Keyword { word: "VIEW"@ }, GrammarView::Ref { name: "IfExistsGrammar"@, optional: true }, GrammarView::Ref { name: "TableReferenceSegment"@, optional: false }, GrammarView::Keyword { word: "SET"@ }, GrammarView::Ref { name: "OptionsSegment"@, optional: false }], terminators: seq![], parse_mode: ParseMode::Strict } }
}

fn build_alter_view_statement_segment() -> (e: Element)
    ensures
        e@ =~~= alter_view_statement_segment_element(),
{
    let g1: Vec<Grammar> = vec![Grammar::keyword("ALTER"), Grammar::keyword("VIEW"), Grammar::optional_reference("IfExistsGrammar"), Grammar::reference("TableReferenceSegment"), Grammar::keyword("SET"), Grammar::reference("OptionsSegment")];
    assert(views(g1@) =~~= seq![GrammarView::Keyword { word: "ALTER"@ }, GrammarView::Keyword { word: "VIEW"@ }, GrammarView::Ref { name: "IfExistsGrammar"@, optional: true }, GrammarView::Ref { name: "TableReferenceSegment"@, optional: false }, GrammarView::Keyword { word: "SET"@ }, GrammarView::Ref { name: "OptionsSegment"@, optional: false }]);
    let g2: Vec<Grammar> = Vec::new();
    assert(views(g2@) =~= Seq::<GrammarView>::empty());
    let g3 = Grammar::sequence_with(g1, g2, ParseMode::Strict);
    Element::Node { kind: "alter_view_statement", grammar: g3 }
}

/// The BigQuery element `CreateMaterializedViewStatementSegment`.
pub open spec fn create_materialized_view_statement_segment_element() -> ElementView {
    ElementView::Node { kind: "create_materialized_view_statement"@, grammar: GrammarView::Sequence { elements: seq![GrammarView::Keyword { word: "CREATE"@ }, GrammarView::Ref { name: "OrReplaceGrammar"@, optional: true }, GrammarView::Keyword { word: "MATERIALIZED"@ }, GrammarView::Keyword { word: "VIEW"@ }, GrammarView::Ref { name: "IfNotExistsGrammar"@, optional: true }, GrammarView::Ref { name: "TableReferenceSegment"@, optional: false }, GrammarView::Ref { name: "PartitionBySegment"@, optional: true }, GrammarView::Ref { name: "ClusterBySegment"@, optional: true }, GrammarView::Ref { name: "OptionsSegment"@, optional: true }, GrammarView::Keyword { word: "AS"@ }, GrammarView::OneOf { elements: seq![GrammarView::Bracketed { elements: seq![GrammarView::Ref { name: "SelectableGrammar"@, optional: false }], bracket_type: "round"@ }, GrammarView::Ref { name: "SelectableGrammar"@, optional: false }], terminators: seq![] }], terminators: seq![], parse_mode: ParseMode::Strict } }
}

fn build_create_materialized_view_statement_segment() -> (e: Element)
    ensures
        e@ =~~= create_materialized_view_statement_segment_element(),
{
    let g1: Vec<Grammar> = vec![Grammar::reference("SelectableGrammar")];
    assert(views(g1@) =~~= seq![GrammarView::Ref { name: "SelectableGrammar"@, optional: false }]);
    let g2 = Grammar::bracketed_with(g1, "round");
    let g3: Vec<Grammar> = vec![g2, Grammar::reference("SelectableGrammar")];
    assert(views(g3@) =~~= seq![GrammarView::Bracketed { elements: seq![GrammarView::Ref { name: "SelectableGrammar"@, optional: false }], bracket_type: "round"@ }, GrammarView::Ref { name: "SelectableGrammar"@, optional: false }]);
    let g4: Vec<Grammar> = Vec::new();
    assert(views(g4@) =~= Seq::<GrammarView>::empty());
    let g5 = Grammar::one_of_with(g3, g4);
    let g6: Vec<Grammar> = vec![Grammar::keyword("CREATE"), Grammar::optional_reference("OrReplaceGrammar"), Grammar::keyword("MATERIALIZED"), Grammar::keyword("VIEW"), Grammar::optional_reference("IfNotExistsGrammar"), Grammar::reference("TableReferenceSegment"), Grammar::optional_reference("PartitionBySegment"), Grammar::optional_reference("ClusterBySegment"), Grammar::optional_reference("OptionsSegment"), Grammar::keyword("AS"), g5];
    assert(views(g6@) =~~= seq![GrammarView::Keyword { word: "CREATE"@ }, GrammarView::Ref { name: "OrReplaceGrammar"@, optional: true }, GrammarView::Keyword { word: "MATERIALIZED"@ }, GrammarView::Keyword { word: "VIEW"@ }, GrammarView::Ref { name: "IfNotExistsGrammar"@, optional: true }, GrammarView::Ref { name: "TableReferenceSegment"@, optional: false }, GrammarView::Ref { name: "PartitionBySegment"@, optional: true }, GrammarView::Ref { name: "ClusterBySegment"@, optional: true }, GrammarView::Ref { name: "OptionsSegment"@, optional: true }, GrammarView::Keyword { word: "AS"@ }, GrammarView::OneOf { elements: seq![GrammarView::Bracketed { elements: seq![GrammarView::Ref { name: "SelectableGrammar"@, optional: false }], bracket_type: "round"@ }, GrammarView::Ref { name: "SelectableGrammar"@, optional: false }], terminators: seq![] }]);
    let g7: Vec<Grammar> = Vec::new();
    assert(views(g7@) =~= Seq::<GrammarView>::empty());
    let g8 = Grammar::sequence_with(g6, g7, ParseMode::Strict);
    Element::Node { kind: "create_materialized_view_statement", grammar: g8 }
}

/// The BigQuery element `AlterMaterializedViewStatementSegment`.
pub open spec fn alter_materialized_view_statement_segment_element() -> ElementView {
    ElementView::Node { kind: "alter_materialized_view_set_options_statement"@, grammar: GrammarView::Sequence { elements: seq![GrammarView::Keyword { word: "ALTER"@ }, GrammarView::Keyword { word: "MATERIALIZED"@ }, GrammarView::Keyword { word: "VIEW"@ }, GrammarView::Ref { name: "IfExistsGrammar"@, optional: true }, GrammarView::Ref { name: "TableReferenceSegment"@, optional: false }, GrammarView::Keyword { word: "SET"@ }, GrammarView::Ref { name: "OptionsSegment"@, optional: false }], terminators: seq![], parse_mode: ParseMode::Strict } }
}

fn build_alter_materialized_view_statement_segment() -> (e: Element)
    ensures
        e@ =~~= alter_materialized_view_statement_segment_element(),
{
    let g1: Vec<Grammar> = vec![Grammar::keyword("ALTER"), Grammar::keyword("MATERIALIZED"), Grammar::keyword("VIEW"), Grammar::optional_reference("IfExistsGrammar"), Grammar::reference("TableReferenceSegment"), Grammar::keyword("SET"), Grammar::reference("OptionsSegment")];
    assert(views(g1@) =~~= seq![GrammarView::Keyword { word: "ALTER"@ }, GrammarView::Keyword { word: "MATERIALIZED"@ }, GrammarView::Keyword { word: "VIEW"@ }, GrammarView::Ref { name: "IfExistsGrammar"@, optional: true }, GrammarView::Ref { name: "TableReferenceSegment"@, optional: false }, GrammarView::Keyword { word: "SET"@ }, GrammarView::Ref { name: "OptionsSegment"@, optional: false }]);
    let g2: Vec<Grammar> = Vec::new();
    assert(views(g2@) =~= Seq::<GrammarView>::empty());
    let g3 = Grammar::sequence_with(g1, g2, ParseMode::Strict);
    Element::Node { kind: "alter_materialized_view_set_options_statement", grammar: g3 }
}

/// The BigQuery element `DropMaterializedViewStatementSegment`.
pub open spec fn drop_materialized_view_statement_segment_element() -> ElementView {
    ElementView::Node { kind: "drop_materialized_view_statement"@, grammar: GrammarView::Sequence { elements: seq![GrammarView::Keyword { word: "DROP"@ }, GrammarView::Keyword { word: "MATERIALIZED"@ }, GrammarView::Keyword { word: "VIEW"@ }, GrammarView::Ref { name: "IfExistsGrammar"@, optional: true }, GrammarView::Ref { name: "TableReferenceSegment"@, optional: false }], terminators: seq![], parse_mode: ParseMode::Strict } }
}

fn build_drop_materialized_view_statement_segment() -> (e: Element)
    ensures
        e@ =~~= drop_materialized_view_statement_segment_element(),
{
    let g1: Vec<Grammar> = vec![Grammar::keyword("DROP"), Grammar::keyword("MATERIALIZED"), Grammar::keyword("VIEW"), Grammar::optional_reference("IfExistsGrammar"), Grammar::reference("TableReferenceSegment")];
    assert(views(g1@) =~~= seq![GrammarView::Keyword { word: "DROP"@ }, GrammarView::Keyword { word: "MATERIALIZED"@ }, GrammarView::Keyword { word: "VIEW"@ }, GrammarView::Ref { name: "IfExistsGrammar"@, optional: true }, GrammarView::Ref { name: "TableReferenceSegment"@, optional: false }]);
    let g2: Vec<Grammar> = Vec::new();
    assert(views(g2@) =~= Seq::<GrammarView>::empty());
    let g3 = Grammar::sequence_with(g1, g2, ParseMode::Strict);
    Element::Node { kind: "drop_materialized_view_statement", grammar: g3 }
}

/// The BigQuery element `ParameterizedSegment`.
pub open spec fn parameterized_segment_element() -> ElementView {
    ElementView::Node { kind: "parameterized_expression"@, grammar: GrammarView::OneOf { elements: seq![GrammarView::Ref { name: "AtSignLiteralSegment"@, optional: false }, GrammarView::Ref { name: "QuestionMarkSegment"@, optional: false }], terminators: seq![] } }
}

fn build_parameterized_segment() -> (e: Element)
    ensures
        e@ =~~= parameterized_segment_element(),
{
    let g1: Vec<Grammar> = vec![Grammar::reference("AtSignLiteralSegment"), Grammar::reference("QuestionMarkSegment")];
    assert(views(g1@) =~~= seq![GrammarView::Ref { name: "AtSignLiteralSegment"@, optional: false }, GrammarView::Ref { name: "QuestionMarkSegment"@, optional: false }]);
    let g2: Vec<Grammar> = Vec::new();
    assert(views(g2@) =~= Seq::<GrammarView>::empty());
    let g3 = Grammar::one_of_with(g1, g2);
    Element::Node { kind: "parameterized_expression", grammar: g3 }
}

/// The BigQuery element `PivotForClauseSegment`.
pub open spec fn pivot_for_clause_segment_element() -> ElementView {
    ElementView::Node { kind: "pivot_for_clause"@, grammar: GrammarView::Sequence { elements: seq![GrammarView::Ref { name: "BaseExpressionElementGrammar"@, optional: false }], terminators: seq![GrammarView::Keyword { word: "IN"@ }], parse_mode: ParseMode::Greedy } }
}

fn build_pivot_for_clause_segment() -> (e: Element)
    ensures
        e@ =~~= pivot_for_clause_segment_element(),
{
    let g1: Vec<Grammar> = vec![Grammar::reference("BaseExpressionElementGrammar")];
    assert(views(g1@) =~~= seq![GrammarView::Ref { name: "BaseExpressionElementGrammar"@, optional: false }]);
    let g2: Vec<Grammar> = vec![Grammar::keyword("IN")];
    assert(views(g2@) =~~= seq![GrammarView::Keyword { word: "IN"@ }]);
    let g3 = Grammar::sequence_with(g1, g2, ParseMode::Greedy);
    Element::Node { kind: "pivot_for_clause", grammar: g3 }
}

/// The BigQuery element `FromPivotExpressionSegment`.
pub open spec fn from_pivot_expression_segment_element() -> ElementView {
    ElementView::Node { kind: "from_pivot_expression"@, grammar: GrammarView::Sequence { elements: seq![GrammarView::Keyword { word: "PIVOT"@ }, GrammarView::Bracketed { elements: seq![GrammarView::Delimited { elements: seq![GrammarView::Sequence { elements: seq![GrammarView::Ref { name: "FunctionSegment"@, optional: false }, GrammarView::Ref { name: "AliasExpressionSegment"@, optional: true }], terminators: seq![], parse_mode: ParseMode::Strict }], allow_trailing: false, delimiter: None, terminators: seq![], allow_gaps: true }, GrammarView::Keyword { word: "FOR"@ }, GrammarView::Ref { name: "PivotForClauseSegment"@, optional: false }, GrammarView::Keyword { word: "IN"@ }, GrammarView::Bracketed { elements: seq![GrammarView::Delimited { elements: seq![GrammarView::Sequence { elements: seq![GrammarView::Ref { name: "LiteralGrammar"@, optional: false }, GrammarView::Ref { name: "AliasExpressionSegment"@, optional: true }], terminators: seq![], parse_mode: ParseMode::Strict }], allow_trailing: false, delimiter: None, terminators: seq![], allow_gaps: true }], bracket_type: "round"@ }], bracket_type: "round"@ }], terminators: seq![], parse_mode: ParseMode::Strict } }
}

fn build_from_pivot_expression_segment() -> (e: Element)
    ensures
        e@ =~~= from_pivot_expression_segment_element(),
{
    let g1: Vec<Grammar> = vec![Grammar::reference("FunctionSegment"), Grammar::optional_reference("AliasExpressionSegment")];
    assert(views(g1@) =~~= seq![GrammarView::Ref { name: "FunctionSegment"@, optional: false }, GrammarView::Ref { name: "AliasExpressionSegment"@, optional: true }]);
    let g2: Vec<Grammar> = Vec::new();
    assert(views(g2@) =~= Seq::<GrammarView>::empty());
    let g3 = Grammar::sequence_with(g1, g2, ParseMode::Strict);
    let g4: Vec<Grammar> = vec![g3];
    assert(views(g4@) =~~= seq![GrammarView::Sequence { elements: seq![GrammarView::Ref { name: "FunctionSegment"@, optional: false }, GrammarView::Ref { name: "AliasExpressionSegment"@, optional: true }], terminators: seq![], parse_mode: ParseMode::Strict }]);
    let g5: Vec<Grammar> = Vec::new();
    assert(views(g5@) =~= Seq::<GrammarView>::empty());
    let g6 = Grammar::delimited_with(g4, false, None, g5, true);
    let g7: Vec<Grammar> = vec![Grammar::reference("LiteralGrammar"), Grammar::optional_reference("AliasExpressionSegment")];
    assert(views(g7@) =~~= seq![GrammarView::Ref { name: "LiteralGrammar"@, optional: false }, GrammarView::Ref { name: "AliasExpressionSegment"@, optional: true }]);
    let g8: Vec<Grammar> = Vec::new();
    assert(views(g8@) =~= Seq::<GrammarView>::empty());
    let g9 = Grammar::sequence_with(g7, g8, ParseMode::Strict);
    let g10: Vec<Grammar> = vec![g9];
    assert(views(g10@) =~~= seq![GrammarView::Sequence { elements: seq![GrammarView::Ref { name: "LiteralGrammar"@, optional: false }, GrammarView::Ref { name: "AliasExpressionSegment"@, optional: true }], terminators: seq![], parse_mode: ParseMode::Strict }]);
    let g11: Vec<Grammar> = Vec::new();
    assert(views(g11@) =~= Seq::<GrammarView>::empty());
    let g12 = Grammar::delimited_with(g10, false, None, g11, true);
    let g13: Vec<Grammar> = vec![g12];
    assert(views(g13@) =~~= seq![GrammarView::Delimited { elements: seq![GrammarView::Sequence { elements: seq![GrammarView::Ref { name: "LiteralGrammar"@, optional: false }, GrammarView::Ref { name: "AliasExpressionSegment"@, optional: true }], terminators: seq![], parse_mode: ParseMode::Strict }], allow_trailing: false, delimiter: None, terminators: seq![], allow_gaps: true }]);
    let g14 = Grammar::bracketed_with(g13, "round");
    let g15: Vec<Grammar> = vec![g6, Grammar::keyword("FOR"), Grammar::reference("PivotForClauseSegment"), Grammar::keyword("IN"), g14];
    assert(views(g15@) =~~= seq![GrammarView::Delimited { elements: seq![GrammarView::Sequence { elements: seq![GrammarView::Ref { name: "FunctionSegment"@, optional: false }, GrammarView::Ref { name: "AliasExpressionSegment"@, optional: true }], terminators: seq![], parse_mode: ParseMode::Strict }], allow_trailing: false, delimiter: None, terminators: seq![], allow_gaps: true }, GrammarView::Keyword { word: "FOR"@ }, GrammarView::Ref { name: "PivotForClauseSegment"@, optional: false }, GrammarView::Keyword { word: "IN"@ }, GrammarView::Bracketed { elements: seq![GrammarView::Delimited { elements: seq![GrammarView::Sequence { elements: seq![GrammarView::Ref { name: "LiteralGrammar"@, optional: false }, GrammarView::Ref { name: "AliasExpressionSegment"@, optional: true }], terminators: seq![], parse_mode: ParseMode::Strict }], allow_trailing: false, delimiter: None, terminators: seq![], allow_gaps: true }], bracket_type: "round"@ }]);
    let g16 = Grammar::bracketed_with(g15, "round");
    let g17: Vec<Grammar> = vec![Grammar::keyword("PIVOT"), g16];
    assert(views(g17@) =~~= seq![GrammarView::Keyword { word: "PIVOT"@ }, GrammarView::Bracketed { elements: seq![GrammarView::Delimited { elements: seq![GrammarView::Sequence { elements: seq![GrammarView::Ref { name: "FunctionSegment"@, optional: false }, GrammarView::Ref { name: "AliasExpressionSegment"@, optional: true }], terminators: seq![], parse_mode: ParseMode::Strict }], allow_trailing: false, delimiter: None, terminators: seq![], allow_gaps: true }, GrammarView::Keyword { word: "FOR"@ }, GrammarView::Ref { name: "PivotForClauseSegment"@, optional: false }, GrammarView::Keyword { word: "IN"@ }, GrammarView::Bracketed { elements: seq![GrammarView::Delimited { elements: seq![GrammarView::Sequence { elements: seq![GrammarView::Ref { name: "LiteralGrammar"@, optional: false }, GrammarView::Ref { name: "AliasExpressionSegment"@, optional: true }], terminators: seq![], parse_mode: ParseMode::Strict }], allow_trailing: false, delimiter: None, terminators: seq![], allow_gaps: true }], bracket_type: "round"@ }], bracket_type: "round"@ }]);
    let g18: Vec<Grammar> = Vec::new();
    assert(views(g18@) =~= Seq::<GrammarView>::empty());
    let g19 = Grammar::sequence_with(g17, g18, ParseMode::Strict);
    Element::Node { kind: "from_pivot_expression", grammar: g19 }
}

/// The BigQuery element `UnpivotAliasExpressionSegment`.
pub open spec fn unpivot_alias_expression_segment_element() -> ElementView {
    ElementView::Node { kind: "alias_expression"@, grammar: GrammarView::Sequence { elements: seq![GrammarView::Indent, GrammarView::Optional { grammar: Box::new(GrammarView::Keyword { word: "AS"@ }) }, GrammarView::OneOf { elements: seq![GrammarView::Ref { name: "QuotedLiteralSegment"@, optional: false }, GrammarView::Ref { name: "NumericLiteralSegment"@, optional: false }], terminators: seq![] }, GrammarView::Dedent], terminators: seq![], parse_mode: ParseMode::Strict } }
}

fn build_unpivot_alias_expression_segment() -> (e: Element)
    ensures
        e@ =~~= unpivot_alias_expression_segment_element(),
{
    let g1 = Grammar::keyword("AS").optional();
    let g2: Vec<Grammar> = vec![Grammar::reference("QuotedLiteralSegment"), Grammar::reference("NumericLiteralSegment")];
    assert(views(g2@) =~~= seq![GrammarView::Ref { name: "QuotedLiteralSegment"@, optional: false }, GrammarView::Ref { name: "NumericLiteralSegment"@, optional: false }]);
    let g3: Vec<Grammar> = Vec::new();
    assert(views(g3@) =~= Seq::<GrammarView>::empty());
    let g4 = Grammar::one_of_with(g2, g3);
    let g5: Vec<Grammar> = vec![Grammar::indent(), g1, g4, Grammar::dedent()];
    assert(views(g5@) =~~= seq![GrammarView::Indent, GrammarView::Optional { grammar: Box::new(GrammarView::Keyword { word: "AS"@ }) }, GrammarView::OneOf { elements: seq![GrammarView::Ref { name: "QuotedLiteralSegment"@, optional: false }, GrammarView::Ref { name: "NumericLiteralSegment"@, optional: false }], terminators: seq![] }, GrammarView::Dedent]);
    let g6: Vec<Grammar> = Vec::new();
    assert(views(g6@) =~= Seq::<GrammarView>::empty());
    let g7 = Grammar::sequence_with(g5, g6, ParseMode::Strict);
    Element::Node { kind: "alias_expression", grammar: g7 }
}

/// The BigQuery element `InsertStatementSegment`.
pub open spec fn insert_statement_segment_element() -> ElementView {
    ElementView::Node { kind: "insert_statement"@, grammar: GrammarView::Sequence { elements: seq![GrammarView::Keyword { word: "INSERT"@ }, GrammarView::Optional { grammar: Box::new(GrammarView::Keyword { word: "INTO"@ }) }, GrammarView::Ref { name: "TableReferenceSegment"@, optional: false }, GrammarView::Ref { name: "BracketedColumnReferenceListGrammar"@, optional: true }, GrammarView::Ref { name: "SelectableGrammar"@, optional: false }], terminators: seq![], parse_mode: ParseMode::Strict } }
}

fn build_insert_statement_segment() -> (e: Element)
    ensures
        e@ =~~= insert_statement_segment_element(),
{
    let g1 = Grammar::keyword("INTO").optional();
    let g2: Vec<Grammar> = vec![Grammar::keyword("INSERT"), g1, Grammar::reference("TableReferenceSegment"), Grammar::optional_reference("BracketedColumnReferenceListGrammar"), Grammar::reference("SelectableGrammar")];
    assert(views(g2@) =~~= seq![GrammarView::Keyword { word: "INSERT"@ }, GrammarView::Optional { grammar: Box::new(GrammarView::Keyword { word: "INTO"@ }) }, GrammarView::Ref { name: "TableReferenceSegment"@, optional: false }, GrammarView::Ref { name: "BracketedColumnReferenceListGrammar"@, optional: true }, GrammarView::Ref { name: "SelectableGrammar"@, optional: false }]);
    let g3: Vec<Grammar> = Vec::new();
    assert(views(g3@) =~= Seq::<GrammarView>::empty());
    let g4 = Grammar::sequence_with(g2, g3, ParseMode::Strict);
    Element::Node { kind: "insert_statement", grammar: g4 }
}

/// The BigQuery element `SamplingExpressionSegment`.
pub open spec fn sampling_expression_segment_element() -> ElementView {
    ElementView::Node { kind: "sample_expression"@, grammar: GrammarView::Sequence { elements: seq![GrammarView::Keyword { word: "TABLESAMPLE"@ }, GrammarView::Keyword { word: "SYSTEM"@ }, GrammarView::Bracketed { elements: seq![GrammarView::Ref { name: "NumericLiteralSegment"@, optional: false }, GrammarView::Keyword { word: "PERCENT"@ }], bracket_type: "round"@ }], terminators: seq![], parse_mode: ParseMode::Strict } }
}

fn build_sampling_expression_segment() -> (e: Element)
    ensures
        e@ =~~= sampling_expression_segment_element(),
{
    let g1: Vec<Grammar> = vec![Grammar::reference("NumericLiteralSegment"), Grammar::keyword("PERCENT")];
    assert(views(g1@) =~~= seq![GrammarView::Ref { name: "NumericLiteralSegment"@, optional: false }, GrammarView::Keyword { word: "PERCENT"@ }]);
    let g2 = Grammar::bracketed_with(g1, "round");
    let g3: Vec<Grammar> = vec![Grammar::keyword("TABLESAMPLE"), Grammar::keyword("SYSTEM"), g2];
    assert(views(g3@) =~~= seq![GrammarView::Keyword { word: "TABLESAMPLE"@ }, GrammarView::Keyword { word: "SYSTEM"@ }, GrammarView::Bracketed { elements: seq![GrammarView::Ref { name: "NumericLiteralSegment"@, optional: false }, GrammarView::Keyword { word: "PERCENT"@ }], bracket_type: "round"@ }]);
    let g4: Vec<Grammar> = Vec::new();
    assert(views(g4@) =~= Seq::<GrammarView>::empty());
    let g5 = Grammar::sequence_with(g3, g4, ParseMode::Strict);
    Element::Node { kind: "sample_expression", grammar: g5 }
}

/// The BigQuery element `MergeMatchSegment`.
pub open spec fn merge_match_segment_element() -> ElementView {
    ElementView::Node { kind: "merge_match"@, grammar: GrammarView::AnyNumberOf { elements: seq![GrammarView::Ref { name: "MergeMatchedClauseSegment"@, optional: false }, GrammarView::Ref { name: "MergeNotMatchedByTargetClauseSegment"@, optional: false }, GrammarView::Ref { name: "MergeNotMatchedBySourceClauseSegment"@, optional: false }], terminators: seq![], min_times: 1, max_times: None } }
}

fn build_merge_match_segment() -> (e: Element)
    ensures
        e@ =~~= merge_match_segment_element(),
{
    let g1: Vec<Grammar> = vec![Grammar::reference("MergeMatchedClauseSegment"), Grammar::reference("MergeNotMatchedByTargetClauseSegment"), Grammar::reference("MergeNotMatchedBySourceClauseSegment")];
    assert(views(g1@) =~~= seq![GrammarView::Ref { name: "MergeMatchedClauseSegment"@, optional: false }, GrammarView::Ref { name: "MergeNotMatchedByTargetClauseSegment"@, optional: false }, GrammarView::Ref { name: "MergeNotMatchedBySourceClauseSegment"@, optional: false }]);
    let g2: Vec<Grammar> = Vec::new();
    assert(views(g2@) =~= Seq::<GrammarView>::empty());
    let g3 = Grammar::any_number_of_with(g1, g2, 1, None);
    Element::Node { kind: "merge_match", grammar: g3 }
}

/// The BigQuery element `MergeNotMatchedByTargetClauseSegment`.
pub open spec fn merge_not_matched_by_target_clause_segment_element() -> ElementView {
    ElementView::Node { kind: "not_matched_by_target_clause"@, grammar: GrammarView::Sequence { elements: seq![GrammarView::Keyword { word: "WHEN"@ }, GrammarView::Keyword { word: "NOT"@ }, GrammarView::Keyword { word: "MATCHED"@ }, GrammarView::Optional { grammar: Box::new(GrammarView::Sequence { elements: seq![GrammarView::Keyword { word: "BY"@ }, GrammarView::Keyword { word: "TARGET"@ }], terminators: seq![], parse_mode: ParseMode::Strict }) }, GrammarView::Optional { grammar: Box::new(GrammarView::Sequence { elements: seq![GrammarView::Keyword { word: "AND"@ }, GrammarView::Ref { name: "ExpressionSegment"@, optional: false }], terminators: seq![], parse_mode: ParseMode::Strict }) }, GrammarView::Keyword { word: "THEN"@ }, GrammarView::Indent, GrammarView::Ref { name: "MergeInsertClauseSegment"@, optional: false }, GrammarView::Dedent], terminators: seq![], parse_mode: ParseMode::Strict } }
}

fn build_merge_not_matched_by_target_clause_segment() -> (e: Element)
    ensures
        e@ =~~= merge_not_matched_by_target_clause_segment_element(),
{
    let g1: Vec<Grammar> = vec![Grammar::keyword("BY"), Grammar::keyword("TARGET")];
    assert(views(g1@) =~~= seq![GrammarView::Keyword { word: "BY"@ }, GrammarView::Keyword { word: "TARGET"@ }]);
    let g2: Vec<Grammar> = Vec::new();
    assert(views(g2@) =~= Seq::<GrammarView>::empty());
    let g3 = Grammar::sequence_with(g1, g2, ParseMode::Strict);
    let g4 = g3.optional();
    let g5: Vec<Grammar> = vec![Grammar::keyword("AND"), Grammar::reference("ExpressionSegment")];
    assert(views(g5@) =~~= seq![GrammarView::Keyword { word: "AND"@ }, GrammarView::Ref { name: "ExpressionSegment"@, optional: false }]);
    let g6: Vec<Grammar> = Vec::new();
    assert(views(g6@) =~= Seq::<GrammarView>::empty());
    let g7 = Grammar::sequence_with(g5, g6, ParseMode::Strict);
    let g8 = g7.optional();
    let g9: Vec<Grammar> = vec![Grammar::keyword("WHEN"), Grammar::keyword("NOT"), Grammar::keyword("MATCHED"), g4, g8, Grammar::keyword("THEN"), Grammar::indent(), Grammar::reference("MergeInsertClauseSegment"), Grammar::dedent()];
    assert(views(g9@) =~~= seq![GrammarView::Keyword { word: "WHEN"@ }, GrammarView::Keyword { word: "NOT"@ }, GrammarView::Keyword { word: "MATCHED"@ }, GrammarView::Optional { grammar: Box::new(GrammarView::Sequence { elements: seq![GrammarView::Keyword { word: "BY"@ }, GrammarView::Keyword { word: "TARGET"@ }], terminators: seq![], parse_mode: ParseMode::Strict }) }, GrammarView::Optional { grammar: Box::new(GrammarView::Sequence { elements: seq![GrammarView::Keyword { word: "AND"@ }, GrammarView::Ref { name: "ExpressionSegment"@, optional: false }], terminators: seq![], parse_mode: ParseMode::Strict }) }, GrammarView::Keyword { word: "THEN"@ }, GrammarView::Indent, GrammarView::Ref { name: "MergeInsertClauseSegment"@, optional: false }, GrammarView::Dedent]);
    let g10: Vec<Grammar> = Vec::new();
    assert(views(g10@) =~= Seq::<GrammarView>::empty());
    let g11 = Grammar::sequence_with(g9, g10, ParseMode::Strict);
    Element::Node { kind: "not_matched_by_target_clause", grammar: g11 }
}

/// The BigQuery element `MergeNotMatchedBySourceClauseSegment`.
pub open spec fn merge_not_matched_by_source_clause_segment_element() -> ElementView {
    ElementView::Node { kind: "merge_when_matched_clause"@, grammar: GrammarView::Sequence { elements: seq![GrammarView::Keyword { word: "WHEN"@ }, GrammarView::Keyword { word: "NOT"@ }, GrammarView::Keyword { word: "MATCHED"@ }, GrammarView::Keyword { word: "BY"@ }, GrammarView::Keyword { word: "SOURCE"@ }, GrammarView::Optional { grammar: Box::new(GrammarView::Sequence { elements: seq![GrammarView::Keyword { word: "AND"@ }, GrammarView::Ref { name: "ExpressionSegment"@, optional: false }], terminators: seq![], parse_mode: ParseMode::Strict }) }, GrammarView::Keyword { word: "THEN"@ }, GrammarView::Indent, GrammarView::OneOf { elements: seq![GrammarView::Ref { name: "MergeUpdateClauseSegment"@, optional: false }, GrammarView::Ref { name: "MergeDeleteClauseSegment"@, optional: false }], terminators: seq![] }, GrammarView::Dedent], terminators: seq![], parse_mode: ParseMode::Strict } }
}

fn build_merge_not_matched_by_source_clause_segment() -> (e: Element)
    ensures
        e@ =~~= merge_not_matched_by_source_clause_segment_element(),
{
    let g1: Vec<Grammar> = vec![Grammar::keyword("AND"), Grammar::reference("ExpressionSegment")];
    assert(views(g1@) =~~= seq![GrammarView::Keyword { word: "AND"@ }, GrammarView::Ref { name: "ExpressionSegment"@, optional: false }]);
    let g2: Vec<Grammar> = Vec::new();
    assert(views(g2@) =~= Seq::<GrammarView>::empty());
    let g3 = Grammar::sequence_with(g1, g2, ParseMode::Strict);
    let g4 = g3.optional();
    let g5: Vec<Grammar> = vec![Grammar::reference("MergeUpdateClauseSegment"), Grammar::reference("MergeDeleteClauseSegment")];
    assert(views(g5@) =~~= seq![GrammarView::Ref { name: "MergeUpdateClauseSegment"@, optional: false }, GrammarView::Ref { name: "MergeDeleteClauseSegment"@, optional: false }]);
    let g6: Vec<Grammar> = Vec::new();
    assert(views(g6@) =~= Seq::<GrammarView>::empty());
    let g7 = Grammar::one_of_with(g5, g6);
    let g8: Vec<Grammar> = vec![Grammar::keyword("WHEN"), Grammar::keyword("NOT"), Grammar::keyword("MATCHED"), Grammar::keyword("BY"), Grammar::keyword("SOURCE"), g4, Grammar::keyword("THEN"), Grammar::indent(), g7, Grammar::dedent()];
    assert(views(g8@) =~~= seq![GrammarView::Keyword { word: "WHEN"@ }, GrammarView::Keyword { word: "NOT"@ }, GrammarView::Keyword { word: "MATCHED"@ }, GrammarView::Keyword { word: "BY"@ }, GrammarView::Keyword { word: "SOURCE"@ }, GrammarView::Optional { grammar: Box::new(GrammarView::Sequence { elements: seq![GrammarView::Keyword { word: "AND"@ }, GrammarView::Ref { name: "ExpressionSegment"@, optional: false }], terminators: seq![], parse_mode: ParseMode::Strict }) }, GrammarView::Keyword { word: "THEN"@ }, GrammarView::Indent, GrammarView::OneOf { elements: seq![GrammarView::Ref { name: "MergeUpdateClauseSegment"@, optional: false }, GrammarView::Ref { name: "MergeDeleteClauseSegment"@, optional: false }], terminators: seq![] }, GrammarView::Dedent]);
    let g9: Vec<Grammar> = Vec::new();
    assert(views(g9@) =~= Seq::<GrammarView>::empty());
    let g10 = Grammar::sequence_with(g8, g9, ParseMode::Strict);
    Element::Node { kind: "merge_when_matched_clause", grammar: g10 }
}

/// The BigQuery element `MergeInsertClauseSegment`.
pub open spec fn merge_insert_clause_segment_element() -> ElementView {
    ElementView::Node { kind: "merge_insert_clause"@, grammar: GrammarView::OneOf { elements: seq![GrammarView::Sequence { elements: seq![GrammarView::Keyword { word: "INSERT"@ }, GrammarView::Indent, GrammarView::Ref { name: "BracketedColumnReferenceListGrammar"@, optional: true }, GrammarView::Dedent, GrammarView::Ref { name: "ValuesClauseSegment"@, optional: true }], terminators: seq![], parse_mode: ParseMode::Strict }, GrammarView::Sequence { elements: seq![GrammarView::Keyword { word: "INSERT"@ }, GrammarView::Keyword { word: "ROW"@ }], terminators: seq![], parse_mode: ParseMode::Strict }], terminators: seq![] } }
}

fn build_merge_insert_clause_segment() -> (e: Element)
    ensures
        e@ =~~= merge_insert_clause_segment_element(),
{
    let g1: Vec<Grammar> = vec![Grammar::keyword("INSERT"), Grammar::indent(), Grammar::optional_reference("BracketedColumnReferenceListGrammar"), Grammar::dedent(), Grammar::optional_reference("ValuesClauseSegment")];
    assert(views(g1@) =~~= seq![GrammarView::Keyword { word: "INSERT"@ }, GrammarView::Indent, GrammarView::Ref { name: "BracketedColumnReferenceListGrammar"@, optional: true }, GrammarView::Dedent, GrammarView::Ref { name: "ValuesClauseSegment"@, optional: true }]);
    let g2: Vec<Grammar> = Vec::new();
    assert(views(g2@) =~= Seq::<GrammarView>::empty());
    let g3 = Grammar::sequence_with(g1, g2, ParseMode::Strict);
    let g4: Vec<Grammar> = vec![Grammar::keyword("INSERT"), Grammar::keyword("ROW")];
    assert(views(g4@) =~~= seq![GrammarView::Keyword { word: "INSERT"@ }, GrammarView::Keyword { word: "ROW"@ }]);
    let g5: Vec<Grammar> = Vec::new();
    assert(views(g5@) =~= Seq::<GrammarView>::empty());
    let g6 = Grammar::sequence_with(g4, g5, ParseMode::Strict);
    let g7: Vec<Grammar> = vec![g3, g6];
    assert(views(g7@) =~~= seq![GrammarView::Sequence { elements: seq![GrammarView::Keyword { word: "INSERT"@ }, GrammarView::Indent, GrammarView::Ref { name: "BracketedColumnReferenceListGrammar"@, optional: true }, GrammarView::Dedent, GrammarView::Ref { name: "ValuesClauseSegment"@, optional: true }], terminators: seq![], parse_mode: ParseMode::Strict }, GrammarView::Sequence { elements: seq![GrammarView::Keyword { word: "INSERT"@ }, GrammarView::Keyword { word: "ROW"@ }], terminators: seq![], parse_mode: ParseMode::Strict }]);
    let g8: Vec<Grammar> = Vec::new();
    assert(views(g8@) =~= Seq::<GrammarView>::empty());
    let g9 = Grammar::one_of_with(g7, g8);
    Element::Node { kind: "merge_insert_clause", grammar: g9 }
}

/// The BigQuery element `DeleteStatementSegment`.
pub open spec fn delete_statement_segment_element() -> ElementView {
    ElementView::Node { kind: "delete_statement"@, grammar: GrammarView::Sequence { elements: seq![GrammarView::Keyword { word: "DELETE"@ }, GrammarView::Optional { grammar: Box::new(GrammarView::Keyword { word: "FROM"@ }) }, GrammarView::Ref { name: "TableReferenceSegment"@, optional: false }, GrammarView::Ref { name: "AliasExpressionSegment"@, optional: true }, GrammarView::Ref { name: "WhereClauseSegment"@, optional: true }], terminators: seq![], parse_mode: ParseMode::Strict } }
}

fn build_delete_statement_segment() -> (e: Element)
    ensures
        e@ =~~= delete_statement_segment_element(),
{
    let g1 = Grammar::keyword("FROM").optional();
    let g2: Vec<Grammar> = vec![Grammar::keyword("DELETE"), g1, Grammar::reference("TableReferenceSegment"), Grammar::optional_reference("AliasExpressionSegment"), Grammar::optional_reference("WhereClauseSegment")];
    assert(views(g2@) =~~= seq![GrammarView::Keyword { word: "DELETE"@ }, GrammarView::Optional { grammar: Box::new(GrammarView::Keyword { word: "FROM"@ }) }, GrammarView::Ref { name: "TableReferenceSegment"@, optional: false }, GrammarView::Ref { name: "AliasExpressionSegment"@, optional: true }, GrammarView::Ref { name: "WhereClauseSegment"@, optional: true }]);
    let g3: Vec<Grammar> = Vec::new();
    assert(views(g3@) =~= Seq::<GrammarView>::empty());
    let g4 = Grammar::sequence_with(g2, g3, ParseMode::Strict);
    Element::Node { kind: "delete_statement", grammar: g4 }
}

/// The BigQuery element `ExportStatementSegment`.
pub open spec fn export_statement_segment_element() -> ElementView {
    ElementView::Node { kind: "export_statement"@, grammar: GrammarView::Sequence { elements: seq![GrammarView::Keyword { word: "EXPORT"@ }, GrammarView::Keyword { word: "DATA"@ }, GrammarView::Optional { grammar: Box::new(GrammarView::Sequence { elements: seq![GrammarView::Keyword { word: "WITH"@ }, GrammarView::Keyword { word: "CONNECTION"@ }, GrammarView::Ref { name: "ObjectReferenceSegment"@, optional: false }], terminators: seq![], parse_mode: ParseMode::Strict }) }, GrammarView::Keyword { word: "OPTIONS"@ }, GrammarView::Bracketed { elements: seq![GrammarView::Delimited { elements: seq![GrammarView::Sequence { elements: seq![GrammarView::OneOf { elements: seq![GrammarView::StringParser { template: "compression"@, kind: "export_option"@ }, GrammarView::StringParser { template: "field_delimiter"@, kind: "export_option"@ }, GrammarView::StringParser { template: "format"@, kind: "export_option"@ }, GrammarView::StringParser { template: "uri"@, kind: "export_option"@ }], terminators: seq![] }, GrammarView::Ref { name: "EqualsSegment"@, optional: false }, GrammarView::Ref { name: "QuotedLiteralSegment"@, optional: false }], terminators: seq![], parse_mode: ParseMode::Strict }, GrammarView::Sequence { elements: seq![GrammarView::OneOf { elements: seq![GrammarView::StringParser { template: "header"@, kind: "export_option"@ }, GrammarView::StringParser { template: "overwrite"@, kind: "export_option"@ }, GrammarView::StringParser { template: "use_avro_logical_types"@, kind: "export_option"@ }], terminators: seq![] }, GrammarView::Ref { name: "EqualsSegment"@, optional: false }, GrammarView::OneOf { elements: seq![GrammarView::Keyword { word: "TRUE"@ }, GrammarView::Keyword { word: "FALSE"@ }], terminators: seq![] }], terminators: seq![], parse_mode: ParseMode::Strict }], allow_trailing: false, delimiter: None, terminators: seq![], allow_gaps: true }], bracket_type: "round"@ }, GrammarView::Keyword { word: "AS"@ }, GrammarView::Ref { name: "SelectableGrammar"@, optional: false }], terminators: seq![], parse_mode: ParseMode::Strict } }
}

fn build_export_statement_segment() -> (e: Element)
    ensures
        e@ =~~= export_statement_segment_element(),
{
    let g1: Vec<Grammar> = vec![Grammar::keyword("WITH"), Grammar::keyword("CONNECTION"), Grammar::reference("ObjectReferenceSegment")];
    assert(views(g1@) =~~= seq![GrammarView::Keyword { word: "WITH"@ }, GrammarView::Keyword { word: "CONNECTION"@ }, GrammarView::Ref { name: "ObjectReferenceSegment"@, optional: false }]);
    let g2: Vec<Grammar> = Vec::new();
    assert(views(g2@) =~= Seq::<GrammarView>::empty());
    let g3 = Grammar::sequence_with(g1, g2, ParseMode::Strict);
    let g4 = g3.optional();
    let g5: Vec<Grammar> = vec![Grammar::string_parser("compression", "export_option"), Grammar::string_parser("field_delimiter", "export_option"), Grammar::string_parser("format", "export_option"), Grammar::string_parser("uri", "export_option")];
    assert(views(g5@) =~~= seq![GrammarView::StringParser { template: "compression"@, kind: "export_option"@ }, GrammarView::StringParser { template: "field_delimiter"@, kind: "export_option"@ }, GrammarView::StringParser { template: "format"@, kind: "export_option"@ }, GrammarView::StringParser { template: "uri"@, kind: "export_option"@ }]);
    let g6: Vec<Grammar> = Vec::new();
    assert(views(g6@) =~= Seq::<GrammarView>::empty());
    let g7 = Grammar::one_of_with(g5, g6);
    let g8: Vec<Grammar> = vec![g7, Grammar::reference("EqualsSegment"), Grammar::reference("QuotedLiteralSegment")];
    assert(views(g8@) =~~= seq![GrammarView::OneOf { elements: seq![GrammarView::StringParser { template: "compression"@, kind: "export_option"@ }, GrammarView::StringParser { template: "field_delimiter"@, kind: "export_option"@ }, GrammarView::StringParser { template: "format"@, kind: "export_option"@ }, GrammarView::StringParser { template: "uri"@, kind: "export_option"@ }], terminators: seq![] }, GrammarView::Ref { name: "EqualsSegment"@, optional: false }, GrammarView::Ref { name: "QuotedLiteralSegment"@, optional: false }]);
    let g9: Vec<Grammar> = Vec::new();
    assert(views(g9@) =~= Seq::<GrammarView>::empty());
    let g10 = Grammar::sequence_with(g8, g9, ParseMode::Strict);
    let g11: Vec<Grammar> = vec![Grammar::string_parser("header", "export_option"), Grammar::string_parser("overwrite", "export_option"), Grammar::string_parser("use_avro_logical_types", "export_option")];
    assert(views(g11@) =~~= seq![GrammarView::StringParser { template: "header"@, kind: "export_option"@ }, GrammarView::StringParser { template: "overwrite"@, kind: "export_option"@ }, GrammarView::StringParser { template: "use_avro_logical_types"@, kind: "export_option"@ }]);
    let g12: Vec<Grammar> = Vec::new();
    assert(views(g12@) =~= Seq::<GrammarView>::empty());
    let g13 = Grammar::one_of_with(g11, g12);
    let g14: Vec<Grammar> = vec![Grammar::keyword("TRUE"), Grammar::keyword("FALSE")];
    assert(views(g14@) =~~= seq![GrammarView::Keyword { word: "TRUE"@ }, GrammarView::Keyword { word: "FALSE"@ }]);
    let g15: Vec<Grammar> = Vec::new();
    assert(views(g15@) =~= Seq::<GrammarView>::empty());
    let g16 = Grammar::one_of_with(g14, g15);
    let g17: Vec<Grammar> = vec![g13, Grammar::reference("EqualsSegment"), g16];
    assert(views(g17@) =~~= seq![GrammarView::OneOf { elements: seq![GrammarView::StringParser { template: "header"@, kind: "export_option"@ }, GrammarView::StringParser { template: "overwrite"@, kind: "export_option"@ }, GrammarView::StringParser { template: "use_avro_logical_types"@, kind: "export_option"@ }], terminators: seq![] }, GrammarView::Ref { name: "EqualsSegment"@, optional: false }, GrammarView::OneOf { elements: seq![GrammarView::Keyword { word: "TRUE"@ }, GrammarView::Keyword { word: "FALSE"@ }], terminators: seq![] }]);
    let g18: Vec<Grammar> = Vec::new();
    assert(views(g18@) =~= Seq::<GrammarView>::empty());
    let g19 = Grammar::sequence_with(g17, g18, ParseMode::Strict);
    let g20: Vec<Grammar> = vec![g10, g19];
    assert(views(g20@) =~~= seq![GrammarView::Sequence { elements: seq![GrammarView::OneOf { elements: seq![GrammarView::StringParser { template: "compression"@, kind: "export_option"@ }, GrammarView::StringParser { template: "field_delimiter"@, kind: "export_option"@ }, GrammarView::StringParser { template: "format"@, kind: "export_option"@ }, GrammarView::StringParser { template: "uri"@, kind: "export_option"@ }], terminators: seq![] }, GrammarView::Ref { name: "EqualsSegment"@, optional: false }, GrammarView::Ref { name: "QuotedLiteralSegment"@, optional: false }], terminators: seq![], parse_mode: ParseMode::Strict }, GrammarView::Sequence { elements: seq![GrammarView::OneOf { elements: seq![GrammarView::StringParser { template: "header"@, kind: "export_option"@ }, GrammarView::StringParser { template: "overwrite"@, kind: "export_option"@ }, GrammarView::StringParser { template: "use_avro_logical_types"@, kind: "export_option"@ }], terminators: seq![] }, GrammarView::Ref { name: "EqualsSegment"@, optional: false }, GrammarView::OneOf { elements: seq![GrammarView::Keyword { word: "TRUE"@ }, GrammarView::Keyword { word: "FALSE"@ }], terminators: seq![] }], terminators: seq![], parse_mode: ParseMode::Strict }]);
    let g21: Vec<Grammar> = Vec::new();
    assert(views(g21@) =~= Seq::<GrammarView>::empty());
    let g22 = Grammar::delimited_with(g20, false, None, g21, true);
    let g23: Vec<Grammar> = vec![g22];
    assert(views(g23@) =~~= seq![GrammarView::Delimited { elements: seq![GrammarView::Sequence { elements: seq![GrammarView::OneOf { elements: seq![GrammarView::StringParser { template: "compression"@, kind: "export_option"@ }, GrammarView::StringParser { template: "field_delimiter"@, kind: "export_option"@ }, GrammarView::StringParser { template: "format"@, kind: "export_option"@ }, GrammarView::StringParser { template: "uri"@, kind: "export_option"@ }], terminators: seq![] }, GrammarView::Ref { name: "EqualsSegment"@, optional: false }, GrammarView::Ref { name: "QuotedLiteralSegment"@, optional: false }], terminators: seq![], parse_mode: ParseMode::Strict }, GrammarView::Sequence { elements: seq![GrammarView::OneOf { elements: seq![GrammarView::StringParser { template: "header"@, kind: "export_option"@ }, GrammarView::StringParser { template: "overwrite"@, kind: "export_option"@ }, GrammarView::StringParser { template: "use_avro_logical_types"@, kind: "export_option"@ }], terminators: seq![] }, GrammarView::Ref { name: "EqualsSegment"@, optional: false }, GrammarView::OneOf { elements: seq![GrammarView::Keyword { word: "TRUE"@ }, GrammarView::Keyword { word: "FALSE"@ }], terminators: seq![] }], terminators: seq![], parse_mode: ParseMode::Strict }], allow_trailing: false, delimiter: None, terminators: seq![], allow_gaps: true }]);
    let g24 = Grammar::bracketed_with(g23, "round");
    let g25: Vec<Grammar> = vec![Grammar::keyword("EXPORT"), Grammar::keyword("DATA"), g4, Grammar::keyword("OPTIONS"), g24, Grammar::keyword("AS"), Grammar::reference("SelectableGrammar")];
    assert(views(g25@) =~~= seq![GrammarView::Keyword { word: "EXPORT"@ }, GrammarView::Keyword { word: "DATA"@ }, GrammarView::Optional { grammar: Box::new(GrammarView::Sequence { elements: seq![GrammarView::Keyword { word: "WITH"@ }, GrammarView::Keyword { word: "CONNECTION"@ }, GrammarView::Ref { name: "ObjectReferenceSegment"@, optional: false }], terminators: seq![], parse_mode: ParseMode::Strict }) }, GrammarView::Keyword { word: "OPTIONS"@ }, GrammarView::Bracketed { elements: seq![GrammarView::Delimited { elements: seq![GrammarView::Sequence { elements: seq![GrammarView::OneOf { elements: seq![GrammarView::StringParser { template: "compression"@, kind: "export_option"@ }, GrammarView::StringParser { template: "field_delimiter"@, kind: "export_option"@ }, GrammarView::StringParser { template: "format"@, kind: "export_option"@ }, GrammarView::StringParser { template: "uri"@, kind: "export_option"@ }], terminators: seq![] }, GrammarView::Ref { name: "EqualsSegment"@, optional: false }, GrammarView::Ref { name: "QuotedLiteralSegment"@, optional: false }], terminators: seq![], parse_mode: ParseMode::Strict }, GrammarView::Sequence { elements: seq![GrammarView::OneOf { elements: seq![GrammarView::StringParser { template: "header"@, kind: "export_option"@ }, GrammarView::StringParser { template: "overwrite"@, kind: "export_option"@ }, GrammarView::StringParser { template: "use_avro_logical_types"@, kind: "export_option"@ }], terminators: seq![] }, GrammarView::Ref { name: "EqualsSegment"@, optional: false }, GrammarView::OneOf { elements: seq![GrammarView::Keyword { word: "TRUE"@ }, GrammarView::Keyword { word: "FALSE"@ }], terminators: seq![] }], terminators: seq![], parse_mode: ParseMode::Strict }], allow_trailing: false, delimiter: None, terminators: seq![], allow_gaps: true }], bracket_type: "round"@ }, GrammarView::Keyword { word: "AS"@ }, GrammarView::Ref { name: "SelectableGrammar"@, optional: false }]);
    let g26: Vec<Grammar> = Vec::new();
    assert(views(g26@) =~= Seq::<GrammarView>::empty());
    let g27 = Grammar::sequence_with(g25, g26, ParseMode::Strict);
    Element::Node { kind: "export_statement", grammar: g27 }
}

/// The BigQuery element `ProcedureNameSegment`.
pub open spec fn procedure_name_segment_element() -> ElementView {
    ElementView::Node { kind: "procedure_name"@, grammar: GrammarView::WithoutGaps { grammar: Box::new(GrammarView::Sequence { elements: seq![GrammarView::AnyNumberOf { elements: seq![GrammarView::Sequence { elements: seq![GrammarView::Ref { name: "SingleIdentifierGrammar"@, optional: false }, GrammarView::Ref { name: "DotSegment"@, optional: false }], terminators: seq![], parse_mode: ParseMode::Strict }], terminators: seq![], min_times: 0, max_times: None }, GrammarView::OneOf { elements: seq![GrammarView::Ref { name: "ProcedureNameIdentifierSegment"@, optional: false }, GrammarView::Ref { name: "QuotedIdentifierSegment"@, optional: false }], terminators: seq![] }], terminators: seq![], parse_mode: ParseMode::Strict }) } }
}

fn build_procedure_name_segment() -> (e: Element)
    ensures
        e@ =~~= procedure_name_segment_element(),
{
    let g1: Vec<Grammar> = vec![Grammar::reference("SingleIdentifierGrammar"), Grammar::reference("DotSegment")];
    assert(views(g1@) =~~= seq![GrammarView::Ref { name: "SingleIdentifierGrammar"@, optional: false }, GrammarView::Ref { name: "DotSegment"@, optional: false }]);
    let g2: Vec<Grammar> = Vec::new();
    assert(views(g2@) =~= Seq::<GrammarView>::empty());
    let g3 = Grammar::sequence_with(g1, g2, ParseMode::Strict);
    let g4: Vec<Grammar> = vec![g3];
    assert(views(g4@) =~~= seq![GrammarView::Sequence { elements: seq![GrammarView::Ref { name: "SingleIdentifierGrammar"@, optional: false }, GrammarView::Ref { name: "DotSegment"@, optional: false }], terminators: seq![], parse_mode: ParseMode::Strict }]);
    let g5: Vec<Grammar> = Vec::new();
    assert(views(g5@) =~= Seq::<GrammarView>::empty());
    let g6 = Grammar::any_number_of_with(g4, g5, 0, None);
    let g7: Vec<Grammar> = vec![Grammar::reference("ProcedureNameIdentifierSegment"), Grammar::reference("QuotedIdentifierSegment")];
    assert(views(g7@) =~~= seq![GrammarView::Ref { name: "ProcedureNameIdentifierSegment"@, optional: false }, GrammarView::Ref { name: "QuotedIdentifierSegment"@, optional: false }]);
    let g8: Vec<Grammar> = Vec::new();
    assert(views(g8@) =~= Seq::<GrammarView>::empty());
    let g9 = Grammar::one_of_with(g7, g8);
    let g10: Vec<Grammar> = vec![g6, g9];
    assert(views(g10@) =~~= seq![GrammarView::AnyNumberOf { elements: seq![GrammarView::Sequence { elements: seq![GrammarView::Ref { name: "SingleIdentifierGrammar"@, optional: false }, GrammarView::Ref { name: "DotSegment"@, optional: false }], terminators: seq![], parse_mode: ParseMode::Strict }], terminators: seq![], min_times: 0, max_times: None }, GrammarView::OneOf { elements: seq![GrammarView::Ref { name: "ProcedureNameIdentifierSegment"@, optional: false }, GrammarView::Ref { name: "QuotedIdentifierSegment"@, optional: false }], terminators: seq![] }]);
    let g11: Vec<Grammar> = Vec::new();
    assert(views(g11@) =~= Seq::<GrammarView>::empty());
    let g12 = Grammar::sequence_with(g10, g11, ParseMode::Strict);
    let g13 = g12.without_gaps();
    Element::Node { kind: "procedure_name", grammar: g13 }
}

/// The BigQuery element `QuotedIdentifierSegment`.
pub open spec fn quoted_identifier_segment_element() -> ElementView {
    ElementView::Grammar(GrammarView::TypedParser { template: "back_quote"@, kind: "quoted_identifier"@ })
}

fn build_quoted_identifier_segment() -> (e: Element)
    ensures
        e@ =~~= quoted_identifier_segment_element(),
{
    Element::Grammar(Grammar::typed_parser("back_quote", "quoted_identifier"))
}

/// The BigQuery element `NumericLiteralSegment`.
pub open spec fn numeric_literal_segment_element() -> ElementView {
    ElementView::Grammar(GrammarView::OneOf { elements: seq![GrammarView::TypedParser { template: "numeric_literal"@, kind: "numeric_literal"@ }, GrammarView::Ref { name: "ParameterizedSegment"@, optional: false }], terminators: seq![] })
}

fn build_numeric_literal_segment() -> (e: Element)
    ensures
        e@ =~~= numeric_literal_segment_element(),
{
    let g1: Vec<Grammar> = vec![Grammar::typed_parser("numeric_literal", "numeric_literal"), Grammar::reference("ParameterizedSegment")];
    assert(views(g1@) =~~= seq![GrammarView::TypedParser { template: "numeric_literal"@, kind: "numeric_literal"@ }, GrammarView::Ref { name: "ParameterizedSegment"@, optional: false }]);
    let g2: Vec<Grammar> = Vec::new();
    assert(views(g2@) =~= Seq::<GrammarView>::empty());
    let g3 = Grammar::one_of_with(g1, g2);
    Element::Grammar(g3)
}

/// The BigQuery element `QuotedLiteralSegment`.
pub open spec fn quoted_literal_segment_element() -> ElementView {
    ElementView::Grammar(GrammarView::OneOf { elements: seq![GrammarView::Ref { name: "SingleQuotedLiteralSegment"@, optional: false }, GrammarView::Ref { name: "DoubleQuotedLiteralSegment"@, optional: false }], terminators: seq![] })
}

fn build_quoted_literal_segment() -> (e: Element)
    ensures
        e@ =~~= quoted_literal_segment_element(),
{
    let g1: Vec<Grammar> = vec![Grammar::reference("SingleQuotedLiteralSegment"), Grammar::reference("DoubleQuotedLiteralSegment")];
    assert(views(g1@) =~~= seq![GrammarView::Ref { name: "SingleQuotedLiteralSegment"@, optional: false }, GrammarView::Ref { name: "DoubleQuotedLiteralSegment"@, optional: false }]);
    let g2: Vec<Grammar> = Vec::new();
    assert(views(g2@) =~= Seq::<GrammarView>::empty());
    let g3 = Grammar::one_of_with(g1, g2);
    Element::Grammar(g3)
}

/// The BigQuery element `LiteralGrammar`.
pub open spec fn literal_grammar_element() -> ElementView {
    ElementView::Grammar((GrammarView::OneOf { elements: seq![GrammarView::Ref { name: "QuotedLiteralSegment"@, optional: false }, GrammarView::Ref { name: "NumericLiteralSegment"@, optional: false }, GrammarView::Ref { name: "BooleanLiteralGrammar"@, optional: false }, GrammarView::Ref { name: "QualifiedNumericLiteralSegment"@, optional: false }, GrammarView::Ref { name: "NullLiteralSegment"@, optional: false }, GrammarView::Ref { name: "DateTimeLiteralGrammar"@, optional: false }, GrammarView::Ref { name: "ArrayLiteralSegment"@, optional: false }, GrammarView::Ref { name: "TypedArrayLiteralSegment"@, optional: false }, GrammarView::Ref { name: "ObjectLiteralSegment"@, optional: false }], terminators: seq![] }).copied(Some(seq![GrammarView::Ref { name: "ParameterizedSegment"@, optional: false }]), None, None, None, seq![], false))
}

fn build_literal_grammar() -> (e: Element)
    ensures
        e@ =~~= literal_grammar_element(),
{
    let g1: Vec<Grammar> = vec![Grammar::reference("QuotedLiteralSegment"), Grammar::reference("NumericLiteralSegment"), Grammar::reference("BooleanLiteralGrammar"), Grammar::reference("QualifiedNumericLiteralSegment"), Grammar::reference("NullLiteralSegment"), Grammar::reference("DateTimeLiteralGrammar"), Grammar::reference("ArrayLiteralSegment"), Grammar::reference("TypedArrayLiteralSegment"), Grammar::reference("ObjectLiteralSegment")];
    assert(views(g1@) =~~= seq![GrammarView::Ref { name: "QuotedLiteralSegment"@, optional: false }, GrammarView::Ref { name: "NumericLiteralSegment"@, optional: false }, GrammarView::Ref { name: "BooleanLiteralGrammar"@, optional: false }, GrammarView::Ref { name: "QualifiedNumericLiteralSegment"@, optional: false }, GrammarView::Ref { name: "NullLiteralSegment"@, optional: false }, GrammarView::Ref { name: "DateTimeLiteralGrammar"@, optional: false }, GrammarView::Ref { name: "ArrayLiteralSegment"@, optional: false }, GrammarView::Ref { name: "TypedArrayLiteralSegment"@, optional: false }, GrammarView::Ref { name: "ObjectLiteralSegment"@, optional: false }]);
    let g2: Vec<Grammar> = Vec::new();
    assert(views(g2@) =~= Seq::<GrammarView>::empty());
    let g3 = Grammar::one_of_with(g1, g2);
    let g4 = g3;
    assert(g4@ =~~= GrammarView::OneOf { elements: seq![GrammarView::Ref { name: "QuotedLiteralSegment"@, optional: false }, GrammarView::Ref { name: "NumericLiteralSegment"@, optional: false }, GrammarView::Ref { name: "BooleanLiteralGrammar"@, optional: false }, GrammarView::Ref { name: "QualifiedNumericLiteralSegment"@, optional: false }, GrammarView::Ref { name: "NullLiteralSegment"@, optional: false }, GrammarView::Ref { name: "DateTimeLiteralGrammar"@, optional: false }, GrammarView::Ref { name: "ArrayLiteralSegment"@, optional: false }, GrammarView::Ref { name: "TypedArrayLiteralSegment"@, optional: false }, GrammarView::Ref { name: "ObjectLiteralSegment"@, optional: false }], terminators: seq![] });
    let g5: Vec<Grammar> = vec![Grammar::reference("ParameterizedSegment")];
    assert(views(g5@) =~~= seq![GrammarView::Ref { name: "ParameterizedSegment"@, optional: false }]);
    let g6: Vec<Grammar> = Vec::new();
    assert(views(g6@) =~= Seq::<GrammarView>::empty());
    let g7 = g4.copy(Some(g5), None, None, None, g6, false);
    Element::Grammar(g7)
}

/// The BigQuery element `PostTableExpressionGrammar`.
pub open spec fn post_table_expression_grammar_element() -> ElementView {
    ElementView::Grammar(GrammarView::Sequence { elements: seq![GrammarView::Optional { grammar: Box::new(GrammarView::Sequence { elements: seq![GrammarView::Keyword { word: "FOR"@ }, GrammarView::OneOf { elements: seq![GrammarView::Keyword { word: "SYSTEM_TIME"@ }, GrammarView::Sequence { elements: seq![GrammarView::Keyword { word: "SYSTEM"@ }, GrammarView::Keyword { word: "TIME"@ }], terminators: seq![], parse_mode: ParseMode::Strict }], terminators: seq![] }, GrammarView::Keyword { word: "AS"@ }, GrammarView::Keyword { word: "OF"@ }, GrammarView::Ref { name: "ExpressionSegment"@, optional: false }], terminators: seq![], parse_mode: ParseMode::Strict }) }, GrammarView::Optional { grammar: Box::new(GrammarView::Sequence { elements: seq![GrammarView::Keyword { word: "WITH"@ }, GrammarView::Keyword { word: "OFFSET"@ }, GrammarView::Optional { grammar: Box::new(GrammarView::Sequence { elements: seq![GrammarView::Keyword { word: "AS"@ }, GrammarView::Ref { name: "SingleIdentifierGrammar"@, optional: false }], terminators: seq![], parse_mode: ParseMode::Strict }) }], terminators: seq![], parse_mode: ParseMode::Strict }) }], terminators: seq![], parse_mode: ParseMode::Strict })
}

fn build_post_table_expression_grammar() -> (e: Element)
    ensures
        e@ =~~= post_table_expression_grammar_element(),
{
    let g1: Vec<Grammar> = vec![Grammar::keyword("SYSTEM"), Grammar::keyword("TIME")];
    assert(views(g1@) =~~= seq![GrammarView::Keyword { word: "SYSTEM"@ }, GrammarView::Keyword { word: "TIME"@ }]);
    let g2: Vec<Grammar> = Vec::new();
    assert(views(g2@) =~= Seq::<GrammarView>::empty());
    let g3 = Grammar::sequence_with(g1, g2, ParseMode::Strict);
    let g4: Vec<Grammar> = vec![Grammar::keyword("SYSTEM_TIME"), g3];
    assert(views(g4@) =~~= seq![GrammarView::Keyword { word: "SYSTEM_TIME"@ }, GrammarView::Sequence { elements: seq![GrammarView::Keyword { word: "SYSTEM"@ }, GrammarView::Keyword { word: "TIME"@ }], terminators: seq![], parse_mode: ParseMode::Strict }]);
    let g5: Vec<Grammar> = Vec::new();
    assert(views(g5@) =~= Seq::<GrammarView>::empty());
    let g6 = Grammar::one_of_with(g4, g5);
    let g7: Vec<Grammar> = vec![Grammar::keyword("FOR"), g6, Grammar::keyword("AS"), Grammar::keyword("OF"), Grammar::reference("ExpressionSegment")];
    assert(views(g7@) =~~= seq![GrammarView::Keyword { word: "FOR"@ }, GrammarView::OneOf { elements: seq![GrammarView::Keyword { word: "SYSTEM_TIME"@ }, GrammarView::Sequence { elements: seq![GrammarView::Keyword { word: "SYSTEM"@ }, GrammarView::Keyword { word: "TIME"@ }], terminators: seq![], parse_mode: ParseMode::Strict }], terminators: seq![] }, GrammarView::Keyword { word: "AS"@ }, GrammarView::Keyword { word: "OF"@ }, GrammarView::Ref { name: "ExpressionSegment"@, optional: false }]);
    let g8: Vec<Grammar> = Vec::new();
    assert(views(g8@) =~= Seq::<GrammarView>::empty());
    let g9 = Grammar::sequence_with(g7, g8, ParseMode::Strict);
    let g10 = g9.optional();
    let g11: Vec<Grammar> = vec![Grammar::keyword("AS"), Grammar::reference("SingleIdentifierGrammar")];
    assert(views(g11@) =~~= seq![GrammarView::Keyword { word: "AS"@ }, GrammarView::Ref { name: "SingleIdentifierGrammar"@, optional: false }]);
    let g12: Vec<Grammar> = Vec::new();
    assert(views(g12@) =~= Seq::<GrammarView>::empty());
    let g13 = Grammar::sequence_with(g11, g12, ParseMode::Strict);
    let g14 = g13.optional();
    let g15: Vec<Grammar> = vec![Grammar::keyword("WITH"), Grammar::keyword("OFFSET"), g14];
    assert(views(g15@) =~~= seq![GrammarView::Keyword { word: "WITH"@ }, GrammarView::Keyword { word: "OFFSET"@ }, GrammarView::Optional { grammar: Box::new(GrammarView::Sequence { elements: seq![GrammarView::Keyword { word: "AS"@ }, GrammarView::Ref { name: "SingleIdentifierGrammar"@, optional: false }], terminators: seq![], parse_mode: ParseMode::Strict }) }]);
    let g16: Vec<Grammar> = Vec::new();
    assert(views(g16@) =~= Seq::<GrammarView>::empty());
    let g17 = Grammar::sequence_with(g15, g16, ParseMode::Strict);
    let g18 = g17.optional();
    let g19: Vec<Grammar> = vec![g10, g18];
    assert(views(g19@) =~~= seq![GrammarView::Optional { grammar: Box::new(GrammarView::Sequence { elements: seq![GrammarView::Keyword { word: "FOR"@ }, GrammarView::OneOf { elements: seq![GrammarView::Keyword { word: "SYSTEM_TIME"@ }, GrammarView::Sequence { elements: seq![GrammarView::Keyword { word: "SYSTEM"@ }, GrammarView::Keyword { word: "TIME"@ }], terminators: seq![], parse_mode: ParseMode::Strict }], terminators: seq![] }, GrammarView::Keyword { word: "AS"@ }, GrammarView::Keyword { word: "OF"@ }, GrammarView::Ref { name: "ExpressionSegment"@, optional: false }], terminators: seq![], parse_mode: ParseMode::Strict }) }, GrammarView::Optional { grammar: Box::new(GrammarView::Sequence { elements: seq![GrammarView::Keyword { word: "WITH"@ }, GrammarView::Keyword { word: "OFFSET"@ }, GrammarView::Optional { grammar: Box::new(GrammarView::Sequence { elements: seq![GrammarView::Keyword { word: "AS"@ }, GrammarView::Ref { name: "SingleIdentifierGrammar"@, optional: false }], terminators: seq![], parse_mode: ParseMode::Strict }) }], terminators: seq![], parse_mode: ParseMode::Strict }) }]);
    let g20: Vec<Grammar> = Vec::new();
    assert(views(g20@) =~= Seq::<GrammarView>::empty());
    let g21 = Grammar::sequence_with(g19, g20, ParseMode::Strict);
    Element::Grammar(g21)
}

/// Changes 1 to 20 of the BigQuery grammar changes.
pub open spec fn bigquery_changes_part_0(d: DialectView) -> DialectView {
    let d = d.with_element("NonWithSelectableGrammar"@, non_with_selectable_grammar_element());
    let d = d.with_element("DoubleQuotedLiteralSegment"@, double_quoted_literal_segment_element());
    let d = d.with_element("SingleQuotedLiteralSegment"@, single_quoted_literal_segment_element());
    let d = d.with_element("DoubleQuotedUDFBody"@, double_quoted_u_d_f_body_element());
    let d = d.with_element("SingleQuotedUDFBody"@, single_quoted_u_d_f_body_element());
    let d = d.with_element("StartAngleBracketSegment"@, start_angle_bracket_segment_element());
    let d = d.with_element("EndAngleBracketSegment"@, end_angle_bracket_segment_element());
    let d = d.with_element("RightArrowSegment"@, right_arrow_segment_element());
    let d = d.with_element("DashSegment"@, dash_segment_element());
    let d = d.with_element("SingleIdentifierFullGrammar"@, single_identifier_full_grammar_element());
    let d = d.with_element("QuestionMarkSegment"@, question_mark_segment_element());
    let d = d.with_element("AtSignLiteralSegment"@, at_sign_literal_segment_element());
    let d = d.with_element("DefaultDeclareOptionsGrammar"@, default_declare_options_grammar_element());
    let d = d.with_element("ExtendedDatetimeUnitSegment"@, extended_datetime_unit_segment_element());
    let d = d.with_element("NakedIdentifierFullSegment"@, naked_identifier_full_segment_element());
    let d = d.with_element("NakedIdentifierPart"@, naked_identifier_part_element());
    let d = d.with_element("ProcedureParameterGrammar"@, procedure_parameter_grammar_element());
    let d = d.with_element("NakedIdentifierSegment"@, naked_identifier_segment_element());
    let d = d.with_element("FunctionContentsExpressionGrammar"@, function_contents_expression_grammar_element());
    let d = d.with_element("TrimParametersGrammar"@, trim_parameters_grammar_element());
    d
}

fn apply_bigquery_changes_part_0(d: &mut DialectModel)
    ensures
        final(d)@ == bigquery_changes_part_0(old(d)@),
{
    d.add("NonWithSelectableGrammar", build_non_with_selectable_grammar());
    d.add("DoubleQuotedLiteralSegment", build_double_quoted_literal_segment());
    d.add("SingleQuotedLiteralSegment", build_single_quoted_literal_segment());
    d.add("DoubleQuotedUDFBody", build_double_quoted_u_d_f_body());
    d.add("SingleQuotedUDFBody", build_single_quoted_u_d_f_body());
    d.add("StartAngleBracketSegment", build_start_angle_bracket_segment());
    d.add("EndAngleBracketSegment", build_end_angle_bracket_segment());
    d.add("RightArrowSegment", build_right_arrow_segment());
    d.add("DashSegment", build_dash_segment());
    d.add("SingleIdentifierFullGrammar", build_single_identifier_full_grammar());
    d.add("QuestionMarkSegment", build_question_mark_segment());
    d.add("AtSignLiteralSegment", build_at_sign_literal_segment());
    d.add("DefaultDeclareOptionsGrammar", build_default_declare_options_grammar());
    d.add("ExtendedDatetimeUnitSegment", build_extended_datetime_unit_segment());
    d.add("NakedIdentifierFullSegment", build_naked_identifier_full_segment());
    d.add("NakedIdentifierPart", build_naked_identifier_part());
    d.add("ProcedureParameterGrammar", build_procedure_parameter_grammar());
    d.add("NakedIdentifierSegment", build_naked_identifier_segment());
    d.add("FunctionContentsExpressionGrammar", build_function_contents_expression_grammar());
    d.add("TrimParametersGrammar", build_trim_parameters_grammar());
}

/// Changes 21 to 40 of the BigQuery grammar changes.
pub open spec fn bigquery_changes_part_1(d: DialectView) -> DialectView {
    let d = d.with_element("ParameterNameSegment"@, parameter_name_segment_element());
    let d = d.with_element("DateTimeLiteralGrammar"@, date_time_literal_grammar_element());
    let d = d.with_element("JoinLikeClauseGrammar"@, join_like_clause_grammar_element());
    let d = d.with_element("NaturalJoinKeywordsGrammar"@, natural_join_keywords_grammar_element());
    let d = d.with_element("AccessorGrammar"@, accessor_grammar_element());
    let d = d.with_element("MergeIntoLiteralGrammar"@, merge_into_literal_grammar_element());
    let d = d.with_element("PrimaryKeyGrammar"@, primary_key_grammar_element());
    let d = d.with_element("ForeignKeyGrammar"@, foreign_key_grammar_element());
    let d = d.with_element("ProcedureParameterListSegment"@, procedure_parameter_list_segment_element());
    let d = d.with_element("ProcedureStatements"@, procedure_statements_element());
    let d = d.with_element("CreateProcedureStatementSegment"@, create_procedure_statement_segment_element());
    let d = d.with_element("CallStatementSegment"@, call_statement_segment_element());
    let d = d.with_element("ReturnStatementSegment"@, return_statement_segment_element());
    let d = d.with_element("BreakStatementSegment"@, break_statement_segment_element());
    let d = d.with_element("LeaveStatementSegment"@, leave_statement_segment_element());
    let d = d.with_element("ContinueStatementSegment"@, continue_statement_segment_element());
    let d = d.with_element("RaiseStatementSegment"@, raise_statement_segment_element());
    let d = d.with_element("QualifyClauseSegment"@, qualify_clause_segment_element());
    let d = d.with_element("SetOperatorSegment"@, set_operator_segment_element());
    let d = d.with_grammar("SetExpressionSegment"@, set_expression_segment_grammar());
    d
}

fn apply_bigquery_changes_part_1(d: &mut DialectModel)
    ensures
        final(d)@ == bigquery_changes_part_1(old(d)@),
{
    d.add("ParameterNameSegment", build_parameter_name_segment());
    d.add("DateTimeLiteralGrammar", build_date_time_literal_grammar());
    d.add("JoinLikeClauseGrammar", build_join_like_clause_grammar());
    d.add("NaturalJoinKeywordsGrammar", build_natural_join_keywords_grammar());
    d.add("AccessorGrammar", build_accessor_grammar());
    d.add("MergeIntoLiteralGrammar", build_merge_into_literal_grammar());
    d.add("PrimaryKeyGrammar", build_primary_key_grammar());
    d.add("ForeignKeyGrammar", build_foreign_key_grammar());
    d.add("ProcedureParameterListSegment", build_procedure_parameter_list_segment());
    d.add("ProcedureStatements", build_procedure_statements());
    d.add("CreateProcedureStatementSegment", build_create_procedure_statement_segment());
    d.add("CallStatementSegment", build_call_statement_segment());
    d.add("ReturnStatementSegment", build_return_statement_segment());
    d.add("BreakStatementSegment", build_break_statement_segment());
    d.add("LeaveStatementSegment", build_leave_statement_segment());
    d.add("ContinueStatementSegment", build_continue_statement_segment());
    d.add("RaiseStatementSegment", build_raise_statement_segment());
    d.add("QualifyClauseSegment", build_qualify_clause_segment());
    d.add("SetOperatorSegment", build_set_operator_segment());
    d.replace_grammar("SetExpressionSegment", build_set_expression_segment());
}

/// Changes 41 to 60 of the BigQuery grammar changes.
pub open spec fn bigquery_changes_part_2(d: DialectView) -> DialectView {
    let d = d.with_grammar("UnorderedSelectStatementSegment"@, unordered_select_statement_segment_grammar());
    let d = d.with_element("MultiStatementSegment"@, multi_statement_segment_element());
    let d = d.with_grammar("FileSegment"@, file_segment_grammar());
    let d = d.with_grammar("StatementSegment"@, statement_segment_grammar());
    let d = d.with_element("AssertStatementSegment"@, assert_statement_segment_element());
    let d = d.with_element("ForInStatementsSegment"@, for_in_statements_segment_element());
    let d = d.with_element("ForInStatementSegment"@, for_in_statement_segment_element());
    let d = d.with_element("RepeatStatementsSegment"@, repeat_statements_segment_element());
    let d = d.with_element("RepeatStatementSegment"@, repeat_statement_segment_element());
    let d = d.with_element("IfStatementsSegment"@, if_statements_segment_element());
    let d = d.with_element("IfStatementSegment"@, if_statement_segment_element());
    let d = d.with_element("LoopStatementsSegment"@, loop_statements_segment_element());
    let d = d.with_element("LoopStatementSegment"@, loop_statement_segment_element());
    let d = d.with_element("WhileStatementsSegment"@, while_statements_segment_element());
    let d = d.with_element("WhileStatementSegment"@, while_statement_segment_element());
    let d = d.with_grammar("SelectClauseModifierSegment"@, select_clause_modifier_segment_grammar());
    let d = d.with_grammar("IntervalExpressionSegment"@, interval_expression_segment_grammar());
    let d = d.with_element("DateTimeFunctionContentsSegment"@, date_time_function_contents_segment_element());
    let d = d.with_element("ExtractFunctionContentsSegment"@, extract_function_contents_segment_element());
    let d = d.with_element("NormalizeFunctionContentsSegment"@, normalize_function_contents_segment_element());
    d
}

fn apply_bigquery_changes_part_2(d: &mut DialectModel)
    ensures
        final(d)@ == bigquery_changes_part_2(old(d)@),
{
    d.replace_grammar("UnorderedSelectStatementSegment", build_unordered_select_statement_segment());
    d.add("MultiStatementSegment", build_multi_statement_segment());
    d.replace_grammar("FileSegment", build_file_segment());
    d.replace_grammar("StatementSegment", build_statement_segment());
    d.add("AssertStatementSegment", build_assert_statement_segment());
    d.add("ForInStatementsSegment", build_for_in_statements_segment());
    d.add("ForInStatementSegment", build_for_in_statement_segment());
    d.add("RepeatStatementsSegment", build_repeat_statements_segment());
    d.add("RepeatStatementSegment", build_repeat_statement_segment());
    d.add("IfStatementsSegment", build_if_statements_segment());
    d.add("IfStatementSegment", build_if_statement_segment());
    d.add("LoopStatementsSegment", build_loop_statements_segment());
    d.add("LoopStatementSegment", build_loop_statement_segment());
    d.add("WhileStatementsSegment", build_while_statements_segment());
    d.add("WhileStatementSegment", build_while_statement_segment());
    d.replace_grammar("SelectClauseModifierSegment", build_select_clause_modifier_segment());
    d.replace_grammar("IntervalExpressionSegment", build_interval_expression_segment());
    d.add("DateTimeFunctionContentsSegment", build_date_time_function_contents_segment());
    d.add("ExtractFunctionContentsSegment", build_extract_function_contents_segment());
    d.add("NormalizeFunctionContentsSegment", build_normalize_function_contents_segment());
}

/// Changes 61 to 80 of the BigQuery grammar changes.
pub open spec fn bigquery_changes_part_3(d: DialectView) -> DialectView {
    let d = d.with_element("ExtractFunctionNameSegment"@, extract_function_name_segment_element());
    let d = d.with_element("ArrayFunctionNameSegment"@, array_function_name_segment_element());
    let d = d.with_element("DatePartWeekSegment"@, date_part_week_segment_element());
    let d = d.with_element("NormalizeFunctionNameSegment"@, normalize_function_name_segment_element());
    let d = d.with_grammar("FunctionNameSegment"@, function_name_segment_grammar());
    let d = d.with_grammar("FunctionSegment"@, function_segment_grammar());
    let d = d.with_grammar("FunctionDefinitionGrammar"@, function_definition_grammar_grammar());
    let d = d.with_grammar("WildcardExpressionSegment"@, wildcard_expression_segment_grammar());
    let d = d.with_element("ExceptClauseSegment"@, except_clause_segment_element());
    let d = d.with_element("ReplaceClauseSegment"@, replace_clause_segment_element());
    let d = d.with_grammar("DatatypeSegment"@, datatype_segment_grammar());
    let d = d.with_grammar("StructTypeSegment"@, struct_type_segment_grammar());
    let d = d.with_element("ArrayFunctionContentsSegment"@, array_function_contents_segment_element());
    let d = d.with_grammar("ArrayExpressionSegment"@, array_expression_segment_grammar());
    let d = d.with_element("TupleSegment"@, tuple_segment_element());
    let d = d.with_element("NamedArgumentSegment"@, named_argument_segment_element());
    let d = d.with_element("SemiStructuredAccessorSegment"@, semi_structured_accessor_segment_element());
    let d = d.with_grammar("ColumnReferenceSegment"@, column_reference_segment_grammar());
    let d = d.with_grammar("TableReferenceSegment"@, table_reference_segment_grammar());
    let d = d.with_element("DeclareStatementSegment"@, declare_statement_segment_element());
    d
}

fn apply_bigquery_changes_part_3(d: &mut DialectModel)
    ensures
        final(d)@ == bigquery_changes_part_3(old(d)@),
{
    d.add("ExtractFunctionNameSegment", build_extract_function_name_segment());
    d.add("ArrayFunctionNameSegment", build_array_function_name_segment());
    d.add("DatePartWeekSegment", build_date_part_week_segment());
    d.add("NormalizeFunctionNameSegment", build_normalize_function_name_segment());
    d.replace_grammar("FunctionNameSegment", build_function_name_segment());
    d.replace_grammar("FunctionSegment", build_function_segment());
    d.replace_grammar("FunctionDefinitionGrammar", build_function_definition_grammar());
    d.replace_grammar("WildcardExpressionSegment", build_wildcard_expression_segment());
    d.add("ExceptClauseSegment", build_except_clause_segment());
    d.add("ReplaceClauseSegment", build_replace_clause_segment());
    d.replace_grammar("DatatypeSegment", build_datatype_segment());
    d.replace_grammar("StructTypeSegment", build_struct_type_segment());
    d.add("ArrayFunctionContentsSegment", build_array_function_contents_segment());
    d.replace_grammar("ArrayExpressionSegment", build_array_expression_segment());
    d.add("TupleSegment", build_tuple_segment());
    d.add("NamedArgumentSegment", build_named_argument_segment());
    d.add("SemiStructuredAccessorSegment", build_semi_structured_accessor_segment());
    d.replace_grammar("ColumnReferenceSegment", build_column_reference_segment());
    d.replace_grammar("TableReferenceSegment", build_table_reference_segment());
    d.add("DeclareStatementSegment", build_declare_statement_segment());
}

/// Changes 81 to 100 of the BigQuery grammar changes.
pub open spec fn bigquery_changes_part_4(d: DialectView) -> DialectView {
    let d = d.with_element("SetStatementSegment"@, set_statement_segment_element());
    let d = d.with_element("PartitionBySegment"@, partition_by_segment_element());
    let d = d.with_element("ClusterBySegment"@, cluster_by_segment_element());
    let d = d.with_element("OptionsSegment"@, options_segment_element());
    let d = d.with_grammar("ColumnDefinitionSegment"@, column_definition_segment_grammar());
    let d = d.with_grammar("CreateTableStatementSegment"@, create_table_statement_segment_grammar());
    let d = d.with_grammar("AlterTableStatementSegment"@, alter_table_statement_segment_grammar());
    let d = d.with_element("CreateExternalTableStatementSegment"@, create_external_table_statement_segment_element());
    let d = d.with_element("CreateExternalTableStatementSegment"@, create_external_table_statement_segment_2_element());
    let d = d.with_grammar("CreateViewStatementSegment"@, create_view_statement_segment_grammar());
    let d = d.with_element("AlterViewStatementSegment"@, alter_view_statement_segment_element());
    let d = d.with_element("CreateMaterializedViewStatementSegment"@, create_materialized_view_statement_segment_element());
    let d = d.with_element("AlterMaterializedViewStatementSegment"@, alter_materialized_view_statement_segment_element());
    let d = d.with_element("DropMaterializedViewStatementSegment"@, drop_materialized_view_statement_segment_element());
    let d = d.with_element("ParameterizedSegment"@, parameterized_segment_element());
    let d = d.with_element("PivotForClauseSegment"@, pivot_for_clause_segment_element());
    let d = d.with_element("FromPivotExpressionSegment"@, from_pivot_expression_segment_element());
    let d = d.with_element("UnpivotAliasExpressionSegment"@, unpivot_alias_expression_segment_element());
    let d = d.with_element("InsertStatementSegment"@, insert_statement_segment_element());
    let d = d.with_element("SamplingExpressionSegment"@, sampling_expression_segment_element());
    d
}

fn apply_bigquery_changes_part_4(d: &mut DialectModel)
    ensures
        final(d)@ == bigquery_changes_part_4(old(d)@),
{
    d.add("SetStatementSegment", build_set_statement_segment());
    d.add("PartitionBySegment", build_partition_by_segment());
    d.add("ClusterBySegment", build_cluster_by_segment());
    d.add("OptionsSegment", build_options_segment());
    d.replace_grammar("ColumnDefinitionSegment", build_column_definition_segment());
    d.replace_grammar("CreateTableStatementSegment", build_create_table_statement_segment());
    d.replace_grammar("AlterTableStatementSegment", build_alter_table_statement_segment());
    d.add("CreateExternalTableStatementSegment", build_create_external_table_statement_segment());
    d.add("CreateExternalTableStatementSegment", build_create_external_table_statement_segment_2());
    d.replace_grammar("CreateViewStatementSegment", build_create_view_statement_segment());
    d.add("AlterViewStatementSegment", build_alter_view_statement_segment());
    d.add("CreateMaterializedViewStatementSegment", build_create_materialized_view_statement_segment());
    d.add("AlterMaterializedViewStatementSegment", build_alter_materialized_view_statement_segment());
    d.add("DropMaterializedViewStatementSegment", build_drop_materialized_view_statement_segment());
    d.add("ParameterizedSegment", build_parameterized_segment());
    d.add("PivotForClauseSegment", build_pivot_for_clause_segment());
    d.add("FromPivotExpressionSegment", build_from_pivot_expression_segment());
    d.add("UnpivotAliasExpressionSegment", build_unpivot_alias_expression_segment());
    d.add("InsertStatementSegment", build_insert_statement_segment());
    d.add("SamplingExpressionSegment", build_sampling_expression_segment());
}

/// Changes 101 to 112 of the BigQuery grammar changes.
pub open spec fn bigquery_changes_part_5(d: DialectView) -> DialectView {
    let d = d.with_element("MergeMatchSegment"@, merge_match_segment_element());
    let d = d.with_element("MergeNotMatchedByTargetClauseSegment"@, merge_not_matched_by_target_clause_segment_element());
    let d = d.with_element("MergeNotMatchedBySourceClauseSegment"@, merge_not_matched_by_source_clause_segment_element());
    let d = d.with_element("MergeInsertClauseSegment"@, merge_insert_clause_segment_element());
    let d = d.with_element("DeleteStatementSegment"@, delete_statement_segment_element());
    let d = d.with_element("ExportStatementSegment"@, export_statement_segment_element());
    let d = d.with_element("ProcedureNameSegment"@, procedure_name_segment_element());
    let d = d.with_element("QuotedIdentifierSegment"@, quoted_identifier_segment_element());
    let d = d.with_element("NumericLiteralSegment"@, numeric_literal_segment_element());
    let d = d.with_element("QuotedLiteralSegment"@, quoted_literal_segment_element());
    let d = d.with_element("LiteralGrammar"@, literal_grammar_element());
    let d = d.with_element("PostTableExpressionGrammar"@, post_table_expression_grammar_element());
    d
}

fn apply_bigquery_changes_part_5(d: &mut DialectModel)
    ensures
        final(d)@ == bigquery_changes_part_5(old(d)@),
{
    d.add("MergeMatchSegment", build_merge_match_segment());
    d.add("MergeNotMatchedByTargetClauseSegment", build_merge_not_matched_by_target_clause_segment());
    d.add("MergeNotMatchedBySourceClauseSegment", build_merge_not_matched_by_source_clause_segment());
    d.add("MergeInsertClauseSegment", build_merge_insert_clause_segment());
    d.add("DeleteStatementSegment", build_delete_statement_segment());
    d.add("ExportStatementSegment", build_export_statement_segment());
    d.add("ProcedureNameSegment", build_procedure_name_segment());
    d.add("QuotedIdentifierSegment", build_quoted_identifier_segment());
    d.add("NumericLiteralSegment", build_numeric_literal_segment());
    d.add("QuotedLiteralSegment", build_quoted_literal_segment());
    d.add("LiteralGrammar", build_literal_grammar());
    d.add("PostTableExpressionGrammar", build_post_table_expression_grammar());
}

/// The BigQuery grammar changes, in order (opaque: `reveal(bigquery_grammar_changes)` shows its parts).
#[verifier::opaque]
pub open spec fn bigquery_grammar_changes(d: DialectView) -> DialectView {
    bigquery_changes_part_5(bigquery_changes_part_4(bigquery_changes_part_3(bigquery_changes_part_2(bigquery_changes_part_1(bigquery_changes_part_0(d))))))
}

/// Applies the BigQuery grammar changes to `d`.
pub fn apply_bigquery_grammar_changes(d: &mut DialectModel)
    ensures
        final(d)@ == bigquery_grammar_changes(old(d)@),
{
    apply_bigquery_changes_part_0(d);
    apply_bigquery_changes_part_1(d);
    apply_bigquery_changes_part_2(d);
    apply_bigquery_changes_part_3(d);
    apply_bigquery_changes_part_4(d);
    apply_bigquery_changes_part_5(d);
    proof {
        reveal(bigquery_grammar_changes);
    }
}

proof fn lemma_bigquery_part_1_sets_set_operator_segment(d: DialectView)
    ensures
        bigquery_changes_part_1(d).element("SetOperatorSegment"@) == Some(set_operator_segment_element()),
{
    reveal_strlit("SetOperatorSegment");
    reveal_strlit("SetExpressionSegment");
    assert("SetOperatorSegment"@.len() != "SetExpressionSegment"@.len());
}

proof fn lemma_bigquery_part_2_keeps_set_operator_segment(d: DialectView)
    ensures
        bigquery_changes_part_2(d).element("SetOperatorSegment"@) == d.element("SetOperatorSegment"@),
{
    reveal_strlit("SetOperatorSegment");
    reveal_strlit("AssertStatementSegment");
    assert("SetOperatorSegment"@.len() != "AssertStatementSegment"@.len());
    reveal_strlit("DateTimeFunctionContentsSegment");
    assert("SetOperatorSegment"@.len() != "DateTimeFunctionContentsSegment"@.len());
    reveal_strlit("ExtractFunctionContentsSegment");
    assert("SetOperatorSegment"@.len() != "ExtractFunctionContentsSegment"@.len());
    reveal_strlit("FileSegment");
    assert("SetOperatorSegment"@.len() != "FileSegment"@.len());
    reveal_strlit("ForInStatementSegment");
    assert("SetOperatorSegment"@.len() != "ForInStatementSegment"@.len());
    reveal_strlit("ForInStatementsSegment");
    assert("SetOperatorSegment"@.len() != "ForInStatementsSegment"@.len());
    reveal_strlit("IfStatementSegment");
    assert("SetOperatorSegment"@[0] != "IfStatementSegment"@[0]);
    reveal_strlit("IfStatementsSegment");
    assert("SetOperatorSegment"@.len() != "IfStatementsSegment"@.len());
    reveal_strlit("IntervalExpressionSegment");
    assert("SetOperatorSegment"@.len() != "IntervalExpressionSegment"@.len());
    reveal_strlit("LoopStatementSegment");
    assert("SetOperatorSegment"@.len() != "LoopStatementSegment"@.len());
    reveal_strlit("LoopStatementsSegment");
    assert("SetOperatorSegment"@.len() != "LoopStatementsSegment"@.len());
    reveal_strlit("MultiStatementSegment");
    assert("SetOperatorSegment"@.len() != "MultiStatementSegment"@.len());
    reveal_strlit("NormalizeFunctionContentsSegment");
    assert("SetOperatorSegment"@.len() != "NormalizeFunctionContentsSegment"@.len());
    reveal_strlit("RepeatStatementSegment");
    assert("SetOperatorSegment"@.len() != "RepeatStatementSegment"@.len());
    reveal_strlit("RepeatStatementsSegment");
    assert("SetOperatorSegment"@.len() != "RepeatStatementsSegment"@.len());
    reveal_strlit("SelectClauseModifierSegment");
    assert("SetOperatorSegment"@.len() != "SelectClauseModifierSegment"@.len());
    reveal_strlit("StatementSegment");
    assert("SetOperatorSegment"@.len() != "StatementSegment"@.len());
    reveal_strlit("UnorderedSelectStatementSegment");
    assert("SetOperatorSegment"@.len() != "UnorderedSelectStatementSegment"@.len());
    reveal_strlit("WhileStatementSegment");
    assert("SetOperatorSegment"@.len() != "WhileStatementSegment"@.len());
    reveal_strlit("WhileStatementsSegment");
    assert("SetOperatorSegment"@.len() != "WhileStatementsSegment"@.len());
}

proof fn lemma_bigquery_part_3_keeps_set_operator_segment(d: DialectView)
    ensures
        bigquery_changes_part_3(d).element("SetOperatorSegment"@) == d.element("SetOperatorSegment"@),
{
    reveal_strlit("SetOperatorSegment");
    reveal_strlit("ArrayExpressionSegment");
    assert("SetOperatorSegment"@.len() != "ArrayExpressionSegment"@.len());
    reveal_strlit("ArrayFunctionContentsSegment");
    assert("SetOperatorSegment"@.len() != "ArrayFunctionContentsSegment"@.len());
    reveal_strlit("ArrayFunctionNameSegment");
    assert("SetOperatorSegment"@.len() != "ArrayFunctionNameSegment"@.len());
    reveal_strlit("ColumnReferenceSegment");
    assert("SetOperatorSegment"@.len() != "ColumnReferenceSegment"@.len());
    reveal_strlit("DatatypeSegment");
    assert("SetOperatorSegment"@.len() != "DatatypeSegment"@.len());
    reveal_strlit("DatePartWeekSegment");
    assert("SetOperatorSegment"@.len() != "DatePartWeekSegment"@.len());
    reveal_strlit("DeclareStatementSegment");
    assert("SetOperatorSegment"@.len() != "DeclareStatementSegment"@.len());
    reveal_strlit("ExceptClauseSegment");
    assert("SetOperatorSegment"@.len() != "ExceptClauseSegment"@.len());
    reveal_strlit("ExtractFunctionNameSegment");
    assert("SetOperatorSegment"@.len() != "ExtractFunctionNameSegment"@.len());
    reveal_strlit("FunctionDefinitionGrammar");
    assert("SetOperatorSegment"@.len() != "FunctionDefinitionGrammar"@.len());
    reveal_strlit("FunctionNameSegment");
    assert("SetOperatorSegment"@.len() != "FunctionNameSegment"@.len());
    reveal_strlit("FunctionSegment");
    assert("SetOperatorSegment"@.len() != "FunctionSegment"@.len());
    reveal_strlit("NamedArgumentSegment");
    assert("SetOperatorSegment"@.len() != "NamedArgumentSegment"@.len());
    reveal_strlit("NormalizeFunctionNameSegment");
    assert("SetOperatorSegment"@.len() != "NormalizeFunctionNameSegment"@.len());
    reveal_strlit("ReplaceClauseSegment");
    assert("SetOperatorSegment"@.len() != "ReplaceClauseSegment"@.len());
    reveal_strlit("SemiStructuredAccessorSegment");
    assert("SetOperatorSegment"@.len() != "SemiStructuredAccessorSegment"@.len());
    reveal_strlit("StructTypeSegment");
    assert("SetOperatorSegment"@.len() != "StructTypeSegment"@.len());
    reveal_strlit("TableReferenceSegment");
    assert("SetOperatorSegment"@.len() != "TableReferenceSegment"@.len());
    reveal_strlit("TupleSegment");
    assert("SetOperatorSegment"@.len() != "TupleSegment"@.len());
    reveal_strlit("WildcardExpressionSegment");
    assert("SetOperatorSegment"@.len() != "WildcardExpressionSegment"@.len());
}

proof fn lemma_bigquery_part_4_keeps_set_operator_segment(d: DialectView)
    ensures
        bigquery_changes_part_4(d).element("SetOperatorSegment"@) == d.element("SetOperatorSegment"@),
{
    reveal_strlit("SetOperatorSegment");
    reveal_strlit("AlterMaterializedViewStatementSegment");
    assert("SetOperatorSegment"@.len() != "AlterMaterializedViewStatementSegment"@.len());
    reveal_strlit("AlterTableStatementSegment");
    assert("SetOperatorSegment"@.len() != "AlterTableStatementSegment"@.len());
    reveal_strlit("AlterViewStatementSegment");
    assert("SetOperatorSegment"@.len() != "AlterViewStatementSegment"@.len());
    reveal_strlit("ClusterBySegment");
    assert("SetOperatorSegment"@.len() != "ClusterBySegment"@.len());
    reveal_strlit("ColumnDefinitionSegment");
    assert("SetOperatorSegment"@.len() != "ColumnDefinitionSegment"@.len());
    reveal_strlit("CreateExternalTableStatementSegment");
    assert("SetOperatorSegment"@.len() != "CreateExternalTableStatementSegment"@.len());
    reveal_strlit("CreateMaterializedViewStatementSegment");
    assert("SetOperatorSegment"@.len() != "CreateMaterializedViewStatementSegment"@.len());
    reveal_strlit("CreateTableStatementSegment");
    assert("SetOperatorSegment"@.len() != "CreateTableStatementSegment"@.len());
    reveal_strlit("CreateViewStatementSegment");
    assert("SetOperatorSegment"@.len() != "CreateViewStatementSegment"@.len());
    reveal_strlit("DropMaterializedViewStatementSegment");
    assert("SetOperatorSegment"@.len() != "DropMaterializedViewStatementSegment"@.len());
    reveal_strlit("FromPivotExpressionSegment");
    assert("SetOperatorSegment"@.len() != "FromPivotExpressionSegment"@.len());
    reveal_strlit("InsertStatementSegment");
    assert("SetOperatorSegment"@.len() != "InsertStatementSegment"@.len());
    reveal_strlit("OptionsSegment");
    assert("SetOperatorSegment"@.len() != "OptionsSegment"@.len());
    reveal_strlit("ParameterizedSegment");
    assert("SetOperatorSegment"@.len() != "ParameterizedSegment"@.len());
    reveal_strlit("PartitionBySegment");
    assert("SetOperatorSegment"@[0] != "PartitionBySegment"@[0]);
    reveal_strlit("PivotForClauseSegment");
    assert("SetOperatorSegment"@.len() != "PivotForClauseSegment"@.len());
    reveal_strlit("SamplingExpressionSegment");
    assert("SetOperatorSegment"@.len() != "SamplingExpressionSegment"@.len());
    reveal_strlit("SetStatementSegment");
    assert("SetOperatorSegment"@.len() != "SetStatementSegment"@.len());
    reveal_strlit("UnpivotAliasExpressionSegment");
    assert("SetOperatorSegment"@.len() != "UnpivotAliasExpressionSegment"@.len());
}

proof fn lemma_bigquery_part_5_keeps_set_operator_segment(d: DialectView)
    ensures
        bigquery_changes_part_5(d).element("SetOperatorSegment"@) == d.element("SetOperatorSegment"@),
{
    reveal_strlit("SetOperatorSegment");
    reveal_strlit("DeleteStatementSegment");
    assert("SetOperatorSegment"@.len() != "DeleteStatementSegment"@.len());
    reveal_strlit("ExportStatementSegment");
    assert("SetOperatorSegment"@.len() != "ExportStatementSegment"@.len());
    reveal_strlit("LiteralGrammar");
    assert("SetOperatorSegment"@.len() != "LiteralGrammar"@.len());
    reveal_strlit("MergeInsertClauseSegment");
    assert("SetOperatorSegment"@.len() != "MergeInsertClauseSegment"@.len());
    reveal_strlit("MergeMatchSegment");
    assert("SetOperatorSegment"@.len() != "MergeMatchSegment"@.len());
    reveal_strlit("MergeNotMatchedBySourceClauseSegment");
    assert("SetOperatorSegment"@.len() != "MergeNotMatchedBySourceClauseSegment"@.len());
    reveal_strlit("MergeNotMatchedByTargetClauseSegment");
    assert("SetOperatorSegment"@.len() != "MergeNotMatchedByTargetClauseSegment"@.len());
    reveal_strlit("NumericLiteralSegment");
    assert("SetOperatorSegment"@.len() != "NumericLiteralSegment"@.len());
    reveal_strlit("PostTableExpressionGrammar");
    assert("SetOperatorSegment"@.len() != "PostTableExpressionGrammar"@.len());
    reveal_strlit("ProcedureNameSegment");
    assert("SetOperatorSegment"@.len() != "ProcedureNameSegment"@.len());
    reveal_strlit("QuotedIdentifierSegment");
    assert("SetOperatorSegment"@.len() != "QuotedIdentifierSegment"@.len());
    reveal_strlit("QuotedLiteralSegment");
    assert("SetOperatorSegment"@.len() != "QuotedLiteralSegment"@.len());
}

/// After the BigQuery grammar changes, `SetOperatorSegment` is what their last change of that
/// name sets, whatever dialect they start from.
pub proof fn lemma_bigquery_changes_set_operator_segment(d: DialectView)
    ensures
        bigquery_grammar_changes(d).element("SetOperatorSegment"@) == Some(set_operator_segment_element()),
{
    reveal(bigquery_grammar_changes);
    let d0 = d;
    let d1 = bigquery_changes_part_0(d0);
    let d2 = bigquery_changes_part_1(d1);
    let d3 = bigquery_changes_part_2(d2);
    let d4 = bigquery_changes_part_3(d3);
    let d5 = bigquery_changes_part_4(d4);
    let d6 = bigquery_changes_part_5(d5);
    lemma_bigquery_part_1_sets_set_operator_segment(d1);
    lemma_bigquery_part_2_keeps_set_operator_segment(d2);
    lemma_bigquery_part_3_keeps_set_operator_segment(d3);
    lemma_bigquery_part_4_keeps_set_operator_segment(d4);
    lemma_bigquery_part_5_keeps_set_operator_segment(d5);
}


proof fn lemma_bigquery_part_1_sets_qualify_clause_segment(d: DialectView)
    ensures
        bigquery_changes_part_1(d).element("QualifyClauseSegment"@) == Some(qualify_clause_segment_element()),
{
    reveal_strlit("QualifyClauseSegment");
    reveal_strlit("SetExpressionSegment");
    assert("QualifyClauseSegment"@[0] != "SetExpressionSegment"@[0]);
    reveal_strlit("SetOperatorSegment");
    assert("QualifyClauseSegment"@.len() != "SetOperatorSegment"@.len());
}

proof fn lemma_bigquery_part_2_keeps_qualify_clause_segment(d: DialectView)
    ensures
        bigquery_changes_part_2(d).element("QualifyClauseSegment"@) == d.element("QualifyClauseSegment"@),
{
    reveal_strlit("QualifyClauseSegment");
    reveal_strlit("AssertStatementSegment");
    assert("QualifyClauseSegment"@.len() != "AssertStatementSegment"@.len());
    reveal_strlit("DateTimeFunctionContentsSegment");
    assert("QualifyClauseSegment"@.len() != "DateTimeFunctionContentsSegment"@.len());
    reveal_strlit("ExtractFunctionContentsSegment");
    assert("QualifyClauseSegment"@.len() != "ExtractFunctionContentsSegment"@.len());
    reveal_strlit("FileSegment");
    assert("QualifyClauseSegment"@.len() != "FileSegment"@.len());
    reveal_strlit("ForInStatementSegment");
    assert("QualifyClauseSegment"@.len() != "ForInStatementSegment"@.len());
    reveal_strlit("ForInStatementsSegment");
    assert("QualifyClauseSegment"@.len() != "ForInStatementsSegment"@.len());
    reveal_strlit("IfStatementSegment");
    assert("QualifyClauseSegment"@.len() != "IfStatementSegment"@.len());
    reveal_strlit("IfStatementsSegment");
    assert("QualifyClauseSegment"@.len() != "IfStatementsSegment"@.len());
    reveal_strlit("IntervalExpressionSegment");
    assert("QualifyClauseSegment"@.len() != "IntervalExpressionSegment"@.len());
    reveal_strlit("LoopStatementSegment");
    assert("QualifyClauseSegment"@[0] != "LoopStatementSegment"@[0]);
    reveal_strlit("LoopStatementsSegment");
    assert("QualifyClauseSegment"@.len() != "LoopStatementsSegment"@.len());
    reveal_strlit("MultiStatementSegment");
    assert("QualifyClauseSegment"@.len() != "MultiStatementSegment"@.len());
    reveal_strlit("NormalizeFunctionContentsSegment");
    assert("QualifyClauseSegment"@.len() != "NormalizeFunctionContentsSegment"@.len());
    reveal_strlit("RepeatStatementSegment");
    assert("QualifyClauseSegment"@.len() != "RepeatStatementSegment"@.len());
    reveal_strlit("RepeatStatementsSegment");
    assert("QualifyClauseSegment"@.len() != "RepeatStatementsSegment"@.len());
    reveal_strlit("SelectClauseModifierSegment");
    assert("QualifyClauseSegment"@.len() != "SelectClauseModifierSegment"@.len());
    reveal_strlit("StatementSegment");
    assert("QualifyClauseSegment"@.len() != "StatementSegment"@.len());
    reveal_strlit("UnorderedSelectStatementSegment");
    assert("QualifyClauseSegment"@.len() != "UnorderedSelectStatementSegment"@.len());
    reveal_strlit("WhileStatementSegment");
    assert("QualifyClauseSegment"@.len() != "WhileStatementSegment"@.len());
    reveal_strlit("WhileStatementsSegment");
    assert("QualifyClauseSegment"@.len() != "WhileStatementsSegment"@.len());
}

proof fn lemma_bigquery_part_3_keeps_qualify_clause_segment(d: DialectView)
    ensures
        bigquery_changes_part_3(d).element("QualifyClauseSegment"@) == d.element("QualifyClauseSegment"@),
{
    reveal_strlit("QualifyClauseSegment");
    reveal_strlit("ArrayExpressionSegment");
    assert("QualifyClauseSegment"@.len() != "ArrayExpressionSegment"@.len());
    reveal_strlit("ArrayFunctionContentsSegment");
    assert("QualifyClauseSegment"@.len() != "ArrayFunctionContentsSegment"@.len());
    reveal_strlit("ArrayFunctionNameSegment");
    assert("QualifyClauseSegment"@.len() != "ArrayFunctionNameSegment"@.len());
    reveal_strlit("ColumnReferenceSegment");
    assert("QualifyClauseSegment"@.len() != "ColumnReferenceSegment"@.len());
    reveal_strlit("DatatypeSegment");
    assert("QualifyClauseSegment"@.len() != "DatatypeSegment"@.len());
    reveal_strlit("DatePartWeekSegment");
    assert("QualifyClauseSegment"@.len() != "DatePartWeekSegment"@.len());
    reveal_strlit("DeclareStatementSegment");
    assert("QualifyClauseSegment"@.len() != "DeclareStatementSegment"@.len());
    reveal_strlit("ExceptClauseSegment");
    assert("QualifyClauseSegment"@.len() != "ExceptClauseSegment"@.len());
    reveal_strlit("ExtractFunctionNameSegment");
    assert("QualifyClauseSegment"@.len() != "ExtractFunctionNameSegment"@.len());
    reveal_strlit("FunctionDefinitionGrammar");
    assert("QualifyClauseSegment"@.len() != "FunctionDefinitionGrammar"@.len());
    reveal_strlit("FunctionNameSegment");
    assert("QualifyClauseSegment"@.len() != "FunctionNameSegment"@.len());
    reveal_strlit("FunctionSegment");
    assert("QualifyClauseSegment"@.len() != "FunctionSegment"@.len());
    reveal_strlit("NamedArgumentSegment");
    assert("QualifyClauseSegment"@[0] != "NamedArgumentSegment"@[0]);
    reveal_strlit("NormalizeFunctionNameSegment");
    assert("QualifyClauseSegment"@.len() != "NormalizeFunctionNameSegment"@.len());
    reveal_strlit("ReplaceClauseSegment");
    assert("QualifyClauseSegment"@[0] != "ReplaceClauseSegment"@[0]);
    reveal_strlit("SemiStructuredAccessorSegment");
    assert("QualifyClauseSegment"@.len() != "SemiStructuredAccessorSegment"@.len());
    reveal_strlit("StructTypeSegment");
    assert("QualifyClauseSegment"@.len() != "StructTypeSegment"@.len());
    reveal_strlit("TableReferenceSegment");
    assert("QualifyClauseSegment"@.len() != "TableReferenceSegment"@.len());
    reveal_strlit("TupleSegment");
    assert("QualifyClauseSegment"@.len() != "TupleSegment"@.len());
    reveal_strlit("WildcardExpressionSegment");
    assert("QualifyClauseSegment"@.len() != "WildcardExpressionSegment"@.len());
}

proof fn lemma_bigquery_part_4_keeps_qualify_clause_segment(d: DialectView)
    ensures
        bigquery_changes_part_4(d).element("QualifyClauseSegment"@) == d.element("QualifyClauseSegment"@),
{
    reveal_strlit("QualifyClauseSegment");
    reveal_strlit("AlterMaterializedViewStatementSegment");
    assert("QualifyClauseSegment"@.len() != "AlterMaterializedViewStatementSegment"@.len());
    reveal_strlit("AlterTableStatementSegment");
    assert("QualifyClauseSegment"@.len() != "AlterTableStatementSegment"@.len());
    reveal_strlit("AlterViewStatementSegment");
    assert("QualifyClauseSegment"@.len() != "AlterViewStatementSegment"@.len());
    reveal_strlit("ClusterBySegment");
    assert("QualifyClauseSegment"@.len() != "ClusterBySegment"@.len());
    reveal_strlit("ColumnDefinitionSegment");
    assert("QualifyClauseSegment"@.len() != "ColumnDefinitionSegment"@.len());
    reveal_strlit("CreateExternalTableStatementSegment");
    assert("QualifyClauseSegment"@.len() != "CreateExternalTableStatementSegment"@.len());
    reveal_strlit("CreateMaterializedViewStatementSegment");
    assert("QualifyClauseSegment"@.len() != "CreateMaterializedViewStatementSegment"@.len());
    reveal_strlit("CreateTableStatementSegment");
    assert("QualifyClauseSegment"@.len() != "CreateTableStatementSegment"@.len());
    reveal_strlit("CreateViewStatementSegment");
    assert("QualifyClauseSegment"@.len() != "CreateViewStatementSegment"@.len());
    reveal_strlit("DropMaterializedViewStatementSegment");
    assert("QualifyClauseSegment"@.len() != "DropMaterializedViewStatementSegment"@.len());
    reveal_strlit("FromPivotExpressionSegment");
    assert("QualifyClauseSegment"@.len() != "FromPivotExpressionSegment"@.len());
    reveal_strlit("InsertStatementSegment");
    assert("QualifyClauseSegment"@.len() != "InsertStatementSegment"@.len());
    reveal_strlit("OptionsSegment");
    assert("QualifyClauseSegment"@.len() != "OptionsSegment"@.len());
    reveal_strlit("ParameterizedSegment");
    assert("QualifyClauseSegment"@[0] != "ParameterizedSegment"@[0]);
    reveal_strlit("PartitionBySegment");
    assert("QualifyClauseSegment"@.len() != "PartitionBySegment"@.len());
    reveal_strlit("PivotForClauseSegment");
    assert("QualifyClauseSegment"@.len() != "PivotForClauseSegment"@.len());
    reveal_strlit("SamplingExpressionSegment");
    assert("QualifyClauseSegment"@.len() != "SamplingExpressionSegment"@.len());
    reveal_strlit("SetStatementSegment");
    assert("QualifyClauseSegment"@.len() != "SetStatementSegment"@.len());
    reveal_strlit("UnpivotAliasExpressionSegment");
    assert("QualifyClauseSegment"@.len() != "UnpivotAliasExpressionSegment"@.len());
}

proof fn lemma_bigquery_part_5_keeps_qualify_clause_segment(d: DialectView)
    ensures
        bigquery_changes_part_5(d).element("QualifyClauseSegment"@) == d.element("QualifyClauseSegment"@),
{
    reveal_strlit("QualifyClauseSegment");
    reveal_strlit("DeleteStatementSegment");
    assert("QualifyClauseSegment"@.len() != "DeleteStatementSegment"@.len());
    reveal_strlit("ExportStatementSegment");
    assert("QualifyClauseSegment"@.len() != "ExportStatementSegment"@.len());
    reveal_strlit("LiteralGrammar");
    assert("QualifyClauseSegment"@.len() != "LiteralGrammar"@.len());
    reveal_strlit("MergeInsertClauseSegment");
    assert("QualifyClauseSegment"@.len() != "MergeInsertClauseSegment"@.len());
    reveal_strlit("MergeMatchSegment");
    assert("QualifyClauseSegment"@.len() != "MergeMatchSegment"@.len());
    reveal_strlit("MergeNotMatchedBySourceClauseSegment");
    assert("QualifyClauseSegment"@.len() != "MergeNotMatchedBySourceClauseSegment"@.len());
    reveal_strlit("MergeNotMatchedByTargetClauseSegment");
    assert("QualifyClauseSegment"@.len() != "MergeNotMatchedByTargetClauseSegment"@.len());
    reveal_strlit("NumericLiteralSegment");
    assert("QualifyClauseSegment"@.len() != "NumericLiteralSegment"@.len());
    reveal_strlit("PostTableExpressionGrammar");
    assert("QualifyClauseSegment"@.len() != "PostTableExpressionGrammar"@.len());
    reveal_strlit("ProcedureNameSegment");
    assert("QualifyClauseSegment"@[0] != "ProcedureNameSegment"@[0]);
    reveal_strlit("QuotedIdentifierSegment");
    assert("QualifyClauseSegment"@.len() != "QuotedIdentifierSegment"@.len());
    reveal_strlit("QuotedLiteralSegment");
    assert("QualifyClauseSegment"@[2] != "QuotedLiteralSegment"@[2]);
}

/// After the BigQuery grammar changes, `QualifyClauseSegment` is what their last change of that
/// name sets, whatever dialect they start from.
pub proof fn lemma_bigquery_changes_qualify_clause_segment(d: DialectView)
    ensures
        bigquery_grammar_changes(d).element("QualifyClauseSegment"@) == Some(qualify_clause_segment_element()),
{
    reveal(bigquery_grammar_changes);
    let d0 = d;
    let d1 = bigquery_changes_part_0(d0);
    let d2 = bigquery_changes_part_1(d1);
    let d3 = bigquery_changes_part_2(d2);
    let d4 = bigquery_changes_part_3(d3);
    let d5 = bigquery_changes_part_4(d4);
    let d6 = bigquery_changes_part_5(d5);
    lemma_bigquery_part_1_sets_qualify_clause_segment(d1);
    lemma_bigquery_part_2_keeps_qualify_clause_segment(d2);
    lemma_bigquery_part_3_keeps_qualify_clause_segment(d3);
    lemma_bigquery_part_4_keeps_qualify_clause_segment(d4);
    lemma_bigquery_part_5_keeps_qualify_clause_segment(d5);
}


/// The BigQuery grammar changes make `QualifyClauseSegment` a `qualify_clause`
/// node: `QUALIFY`, an indent, an `ExpressionSegment` in round brackets or a
/// bare one, then a dedent; whatever dialect they start from.
pub proof fn law_bigquery_qualify_clause(d: DialectView)
    ensures
        ({
            let e = (ElementView::Node { kind: "qualify_clause"@, grammar: GrammarView::sequence(seq![GrammarView::keyword("QUALIFY"@), GrammarView::Indent, GrammarView::one_of(seq![(GrammarView::Bracketed { elements: seq![GrammarView::reference("ExpressionSegment"@)], bracket_type: "round"@ }), GrammarView::reference("ExpressionSegment"@)]), GrammarView::Dedent]) });
            &&& bigquery_grammar_changes(d).element("QualifyClauseSegment"@) == Some(e)
        }),
{
    lemma_bigquery_changes_qualify_clause_segment(d);
}

proof fn lemma_bigquery_part_3_sets_except_clause_segment(d: DialectView)
    ensures
        bigquery_changes_part_3(d).element("ExceptClauseSegment"@) == Some(except_clause_segment_element()),
{
    reveal_strlit("ExceptClauseSegment");
    reveal_strlit("ArrayExpressionSegment");
    assert("ExceptClauseSegment"@.len() != "ArrayExpressionSegment"@.len());
    reveal_strlit("ArrayFunctionContentsSegment");
    assert("ExceptClauseSegment"@.len() != "ArrayFunctionContentsSegment"@.len());
    reveal_strlit("ColumnReferenceSegment");
    assert("ExceptClauseSegment"@.len() != "ColumnReferenceSegment"@.len());
    reveal_strlit("DatatypeSegment");
    assert("ExceptClauseSegment"@.len() != "DatatypeSegment"@.len());
    reveal_strlit("DeclareStatementSegment");
    assert("ExceptClauseSegment"@.len() != "DeclareStatementSegment"@.len());
    reveal_strlit("NamedArgumentSegment");
    assert("ExceptClauseSegment"@.len() != "NamedArgumentSegment"@.len());
    reveal_strlit("ReplaceClauseSegment");
    assert("ExceptClauseSegment"@.len() != "ReplaceClauseSegment"@.len());
    reveal_strlit("SemiStructuredAccessorSegment");
    assert("ExceptClauseSegment"@.len() != "SemiStructuredAccessorSegment"@.len());
    reveal_strlit("StructTypeSegment");
    assert("ExceptClauseSegment"@.len() != "StructTypeSegment"@.len());
    reveal_strlit("TableReferenceSegment");
    assert("ExceptClauseSegment"@.len() != "TableReferenceSegment"@.len());
    reveal_strlit("TupleSegment");
    assert("ExceptClauseSegment"@.len() != "TupleSegment"@.len());
}

proof fn lemma_bigquery_part_4_keeps_except_clause_segment(d: DialectView)
    ensures
        bigquery_changes_part_4(d).element("ExceptClauseSegment"@) == d.element("ExceptClauseSegment"@),
{
    reveal_strlit("ExceptClauseSegment");
    reveal_strlit("AlterMaterializedViewStatementSegment");
    assert("ExceptClauseSegment"@.len() != "AlterMaterializedViewStatementSegment"@.len());
    reveal_strlit("AlterTableStatementSegment");
    assert("ExceptClauseSegment"@.len() != "AlterTableStatementSegment"@.len());
    reveal_strlit("AlterViewStatementSegment");
    assert("ExceptClauseSegment"@.len() != "AlterViewStatementSegment"@.len());
    reveal_strlit("ClusterBySegment");
    assert("ExceptClauseSegment"@.len() != "ClusterBySegment"@.len());
    reveal_strlit("ColumnDefinitionSegment");
    assert("ExceptClauseSegment"@.len() != "ColumnDefinitionSegment"@.len());
    reveal_strlit("CreateExternalTableStatementSegment");
    assert("ExceptClauseSegment"@.len() != "CreateExternalTableStatementSegment"@.len());
    reveal_strlit("CreateMaterializedViewStatementSegment");
    assert("ExceptClauseSegment"@.len() != "CreateMaterializedViewStatementSegment"@.len());
    reveal_strlit("CreateTableStatementSegment");
    assert("ExceptClauseSegment"@.len() != "CreateTableStatementSegment"@.len());
    reveal_strlit("CreateViewStatementSegment");
    assert("ExceptClauseSegment"@.len() != "CreateViewStatementSegment"@.len());
    reveal_strlit("DropMaterializedViewStatementSegment");
    assert("ExceptClauseSegment"@.len() != "DropMaterializedViewStatementSegment"@.len());
    reveal_strlit("FromPivotExpressionSegment");
    assert("ExceptClauseSegment"@.len() != "FromPivotExpressionSegment"@.len());
    reveal_strlit("InsertStatementSegment");
    assert("ExceptClauseSegment"@.len() != "InsertStatementSegment"@.len());
    reveal_strlit("OptionsSegment");
    assert("ExceptClauseSegment"@.len() != "OptionsSegment"@.len());
    reveal_strlit("ParameterizedSegment");
    assert("ExceptClauseSegment"@.len() != "ParameterizedSegment"@.len());
    reveal_strlit("PartitionBySegment");
    assert("ExceptClauseSegment"@.len() != "PartitionBySegment"@.len());
    reveal_strlit("PivotForClauseSegment");
    assert("ExceptClauseSegment"@.len() != "PivotForClauseSegment"@.len());
    reveal_strlit("SamplingExpressionSegment");
    assert("ExceptClauseSegment"@.len() != "SamplingExpressionSegment"@.len());
    reveal_strlit("SetStatementSegment");
    assert("ExceptClauseSegment"@[0] != "SetStatementSegment"@[0]);
    reveal_strlit("UnpivotAliasExpressionSegment");
    assert("ExceptClauseSegment"@.len() != "UnpivotAliasExpressionSegment"@.len());
}

proof fn lemma_bigquery_part_5_keeps_except_clause_segment(d: DialectView)
    ensures
        bigquery_changes_part_5(d).element("ExceptClauseSegment"@) == d.element("ExceptClauseSegment"@),
{
    reveal_strlit("ExceptClauseSegment");
    reveal_strlit("DeleteStatementSegment");
    assert("ExceptClauseSegment"@.len() != "DeleteStatementSegment"@.len());
    reveal_strlit("ExportStatementSegment");
    assert("ExceptClauseSegment"@.len() != "ExportStatementSegment"@.len());
    reveal_strlit("LiteralGrammar");
    assert("ExceptClauseSegment"@.len() != "LiteralGrammar"@.len());
    reveal_strlit("MergeInsertClauseSegment");
    assert("ExceptClauseSegment"@.len() != "MergeInsertClauseSegment"@.len());
    reveal_strlit("MergeMatchSegment");
    assert("ExceptClauseSegment"@.len() != "MergeMatchSegment"@.len());
    reveal_strlit("MergeNotMatchedBySourceClauseSegment");
    assert("ExceptClauseSegment"@.len() != "MergeNotMatchedBySourceClauseSegment"@.len());
    reveal_strlit("MergeNotMatchedByTargetClauseSegment");
    assert("ExceptClauseSegment"@.len() != "MergeNotMatchedByTargetClauseSegment"@.len());
    reveal_strlit("NumericLiteralSegment");
    assert("ExceptClauseSegment"@.len() != "NumericLiteralSegment"@.len());
    reveal_strlit("PostTableExpressionGrammar");
    assert("ExceptClauseSegment"@.len() != "PostTableExpressionGrammar"@.len());
    reveal_strlit("ProcedureNameSegment");
    assert("ExceptClauseSegment"@.len() != "ProcedureNameSegment"@.len());
    reveal_strlit("QuotedIdentifierSegment");
    assert("ExceptClauseSegment"@.len() != "QuotedIdentifierSegment"@.len());
    reveal_strlit("QuotedLiteralSegment");
    assert("ExceptClauseSegment"@.len() != "QuotedLiteralSegment"@.len());
}

/// After the BigQuery grammar changes, `ExceptClauseSegment` is what their last change of that
/// name sets, whatever dialect they start from.
pub proof fn lemma_bigquery_changes_except_clause_segment(d: DialectView)
    ensures
        bigquery_grammar_changes(d).element("ExceptClauseSegment"@) == Some(except_clause_segment_element()),
{
    reveal(bigquery_grammar_changes);
    let d0 = d;
    let d1 = bigquery_changes_part_0(d0);
    let d2 = bigquery_changes_part_1(d1);
    let d3 = bigquery_changes_part_2(d2);
    let d4 = bigquery_changes_part_3(d3);
    let d5 = bigquery_changes_part_4(d4);
    let d6 = bigquery_changes_part_5(d5);
    lemma_bigquery_part_3_sets_except_clause_segment(d3);
    lemma_bigquery_part_4_keeps_except_clause_segment(d4);
    lemma_bigquery_part_5_keeps_except_clause_segment(d5);
}


/// The BigQuery grammar changes make `ExceptClauseSegment` a `select_except_clause`
/// node: `EXCEPT` and, in round brackets, a comma-separated list of
/// identifiers, as in `SELECT * EXCEPT (a, b)`; whatever dialect they start from.
pub proof fn law_bigquery_except_clause(d: DialectView)
    ensures
        ({
            let e = (ElementView::Node { kind: "select_except_clause"@, grammar: GrammarView::sequence(seq![GrammarView::keyword("EXCEPT"@), (GrammarView::Bracketed { elements: seq![GrammarView::delimited(seq![GrammarView::reference("SingleIdentifierGrammar"@)])], bracket_type: "round"@ })]) });
            &&& bigquery_grammar_changes(d).element("ExceptClauseSegment"@) == Some(e)
        }),
{
    lemma_bigquery_changes_except_clause_segment(d);
}

proof fn lemma_bigquery_part_3_sets_replace_clause_segment(d: DialectView)
    ensures
        bigquery_changes_part_3(d).element("ReplaceClauseSegment"@) == Some(replace_clause_segment_element()),
{
    reveal_strlit("ReplaceClauseSegment");
    reveal_strlit("ArrayExpressionSegment");
    assert("ReplaceClauseSegment"@.len() != "ArrayExpressionSegment"@.len());
    reveal_strlit("ArrayFunctionContentsSegment");
    assert("ReplaceClauseSegment"@.len() != "ArrayFunctionContentsSegment"@.len());
    reveal_strlit("ColumnReferenceSegment");
    assert("ReplaceClauseSegment"@.len() != "ColumnReferenceSegment"@.len());
    reveal_strlit("DatatypeSegment");
    assert("ReplaceClauseSegment"@.len() != "DatatypeSegment"@.len());
    reveal_strlit("DeclareStatementSegment");
    assert("ReplaceClauseSegment"@.len() != "DeclareStatementSegment"@.len());
    reveal_strlit("NamedArgumentSegment");
    assert("ReplaceClauseSegment"@[0] != "NamedArgumentSegment"@[0]);
    reveal_strlit("SemiStructuredAccessorSegment");
    assert("ReplaceClauseSegment"@.len() != "SemiStructuredAccessorSegment"@.len());
    reveal_strlit("StructTypeSegment");
    assert("ReplaceClauseSegment"@.len() != "StructTypeSegment"@.len());
    reveal_strlit("TableReferenceSegment");
    assert("ReplaceClauseSegment"@.len() != "TableReferenceSegment"@.len());
    reveal_strlit("TupleSegment");
    assert("ReplaceClauseSegment"@.len() != "TupleSegment"@.len());
}

proof fn lemma_bigquery_part_4_keeps_replace_clause_segment(d: DialectView)
    ensures
        bigquery_changes_part_4(d).element("ReplaceClauseSegment"@) == d.element("ReplaceClauseSegment"@),
{
    reveal_strlit("ReplaceClauseSegment");
    reveal_strlit("AlterMaterializedViewStatementSegment");
    assert("ReplaceClauseSegment"@.len() != "AlterMaterializedViewStatementSegment"@.len());
    reveal_strlit("AlterTableStatementSegment");
    assert("ReplaceClauseSegment"@.len() != "AlterTableStatementSegment"@.len());
    reveal_strlit("AlterViewStatementSegment");
    assert("ReplaceClauseSegment"@.len() != "AlterViewStatementSegment"@.len());
    reveal_strlit("ClusterBySegment");
    assert("ReplaceClauseSegment"@.len() != "ClusterBySegment"@.len());
    reveal_strlit("ColumnDefinitionSegment");
    assert("ReplaceClauseSegment"@.len() != "ColumnDefinitionSegment"@.len());
    reveal_strlit("CreateExternalTableStatementSegment");
    assert("ReplaceClauseSegment"@.len() != "CreateExternalTableStatementSegment"@.len());
    reveal_strlit("CreateMaterializedViewStatementSegment");
    assert("ReplaceClauseSegment"@.len() != "CreateMaterializedViewStatementSegment"@.len());
    reveal_strlit("CreateTableStatementSegment");
    assert("ReplaceClauseSegment"@.len() != "CreateTableStatementSegment"@.len());
    reveal_strlit("CreateViewStatementSegment");
    assert("ReplaceClauseSegment"@.len() != "CreateViewStatementSegment"@.len());
    reveal_strlit("DropMaterializedViewStatementSegment");
    assert("ReplaceClauseSegment"@.len() != "DropMaterializedViewStatementSegment"@.len());
    reveal_strlit("FromPivotExpressionSegment");
    assert("ReplaceClauseSegment"@.len() != "FromPivotExpressionSegment"@.len());
    reveal_strlit("InsertStatementSegment");
    assert("ReplaceClauseSegment"@.len() != "InsertStatementSegment"@.len());
    reveal_strlit("OptionsSegment");
    assert("ReplaceClauseSegment"@.len() != "OptionsSegment"@.len());
    reveal_strlit("ParameterizedSegment");
    assert("ReplaceClauseSegment"@[0] != "ParameterizedSegment"@[0]);
    reveal_strlit("PartitionBySegment");
    assert("ReplaceClauseSegment"@.len() != "PartitionBySegment"@.len());
    reveal_strlit("PivotForClauseSegment");
    assert("ReplaceClauseSegment"@.len() != "PivotForClauseSegment"@.len());
    reveal_strlit("SamplingExpressionSegment");
    assert("ReplaceClauseSegment"@.len() != "SamplingExpressionSegment"@.len());
    reveal_strlit("SetStatementSegment");
    assert("ReplaceClauseSegment"@.len() != "SetStatementSegment"@.len());
    reveal_strlit("UnpivotAliasExpressionSegment");
    assert("ReplaceClauseSegment"@.len() != "UnpivotAliasExpressionSegment"@.len());
}

proof fn lemma_bigquery_part_5_keeps_replace_clause_segment(d: DialectView)
    ensures
        bigquery_changes_part_5(d).element("ReplaceClauseSegment"@) == d.element("ReplaceClauseSegment"@),
{
    reveal_strlit("ReplaceClauseSegment");
    reveal_strlit("DeleteStatementSegment");
    assert("ReplaceClauseSegment"@.len() != "DeleteStatementSegment"@.len());
    reveal_strlit("ExportStatementSegment");
    assert("ReplaceClauseSegment"@.len() != "ExportStatementSegment"@.len());
    reveal_strlit("LiteralGrammar");
    assert("ReplaceClauseSegment"@.len() != "LiteralGrammar"@.len());
    reveal_strlit("MergeInsertClauseSegment");
    assert("ReplaceClauseSegment"@.len() != "MergeInsertClauseSegment"@.len());
    reveal_strlit("MergeMatchSegment");
    assert("ReplaceClauseSegment"@.len() != "MergeMatchSegment"@.len());
    reveal_strlit("MergeNotMatchedBySourceClauseSegment");
    assert("ReplaceClauseSegment"@.len() != "MergeNotMatchedBySourceClauseSegment"@.len());
    reveal_strlit("MergeNotMatchedByTargetClauseSegment");
    assert("ReplaceClauseSegment"@.len() != "MergeNotMatchedByTargetClauseSegment"@.len());
    reveal_strlit("NumericLiteralSegment");
    assert("ReplaceClauseSegment"@.len() != "NumericLiteralSegment"@.len());
    reveal_strlit("PostTableExpressionGrammar");
    assert("ReplaceClauseSegment"@.len() != "PostTableExpressionGrammar"@.len());
    reveal_strlit("ProcedureNameSegment");
    assert("ReplaceClauseSegment"@[0] != "ProcedureNameSegment"@[0]);
    reveal_strlit("QuotedIdentifierSegment");
    assert("ReplaceClauseSegment"@.len() != "QuotedIdentifierSegment"@.len());
    reveal_strlit("QuotedLiteralSegment");
    assert("ReplaceClauseSegment"@[0] != "QuotedLiteralSegment"@[0]);
}

/// After the BigQuery grammar changes, `ReplaceClauseSegment` is what their last change of that
/// name sets, whatever dialect they start from.
pub proof fn lemma_bigquery_changes_replace_clause_segment(d: DialectView)
    ensures
        bigquery_grammar_changes(d).element("ReplaceClauseSegment"@) == Some(replace_clause_segment_element()),
{
    reveal(bigquery_grammar_changes);
    let d0 = d;
    let d1 = bigquery_changes_part_0(d0);
    let d2 = bigquery_changes_part_1(d1);
    let d3 = bigquery_changes_part_2(d2);
    let d4 = bigquery_changes_part_3(d3);
    let d5 = bigquery_changes_part_4(d4);
    let d6 = bigquery_changes_part_5(d5);
    lemma_bigquery_part_3_sets_replace_clause_segment(d3);
    lemma_bigquery_part_4_keeps_replace_clause_segment(d4);
    lemma_bigquery_part_5_keeps_replace_clause_segment(d5);
}


/// The BigQuery grammar changes make `ReplaceClauseSegment` a
/// `select_replace_clause` node: `REPLACE` and, in round brackets, a
/// comma-separated list of select-clause elements, as in
/// `SELECT * REPLACE (a + 1 AS a)`; whatever dialect they start from.
pub proof fn law_bigquery_replace_clause(d: DialectView)
    ensures
        ({
            let e = (ElementView::Node { kind: "select_replace_clause"@, grammar: GrammarView::sequence(seq![GrammarView::keyword("REPLACE"@), (GrammarView::Bracketed { elements: seq![GrammarView::delimited(seq![GrammarView::reference("SelectClauseElementSegment"@)])], bracket_type: "round"@ })]) });
            &&& bigquery_grammar_changes(d).element("ReplaceClauseSegment"@) == Some(e)
        }),
{
    lemma_bigquery_changes_replace_clause_segment(d);
}

proof fn lemma_bigquery_part_4_sets_partition_by_segment(d: DialectView)
    ensures
        bigquery_changes_part_4(d).element("PartitionBySegment"@) == Some(partition_by_segment_element()),
{
    reveal_strlit("PartitionBySegment");
    reveal_strlit("AlterMaterializedViewStatementSegment");
    assert("PartitionBySegment"@.len() != "AlterMaterializedViewStatementSegment"@.len());
    reveal_strlit("AlterTableStatementSegment");
    assert("PartitionBySegment"@.len() != "AlterTableStatementSegment"@.len());
    reveal_strlit("AlterViewStatementSegment");
    assert("PartitionBySegment"@.len() != "AlterViewStatementSegment"@.len());
    reveal_strlit("ClusterBySegment");
    assert("PartitionBySegment"@.len() != "ClusterBySegment"@.len());
    reveal_strlit("ColumnDefinitionSegment");
    assert("PartitionBySegment"@.len() != "ColumnDefinitionSegment"@.len());
    reveal_strlit("CreateExternalTableStatementSegment");
    assert("PartitionBySegment"@.len() != "CreateExternalTableStatementSegment"@.len());
    reveal_strlit("CreateMaterializedViewStatementSegment");
    assert("PartitionBySegment"@.len() != "CreateMaterializedViewStatementSegment"@.len());
    reveal_strlit("CreateTableStatementSegment");
    assert("PartitionBySegment"@.len() != "CreateTableStatementSegment"@.len());
    reveal_strlit("CreateViewStatementSegment");
    assert("PartitionBySegment"@.len() != "CreateViewStatementSegment"@.len());
    reveal_strlit("DropMaterializedViewStatementSegment");
    assert("PartitionBySegment"@.len() != "DropMaterializedViewStatementSegment"@.len());
    reveal_strlit("FromPivotExpressionSegment");
    assert("PartitionBySegment"@.len() != "FromPivotExpressionSegment"@.len());
    reveal_strlit("InsertStatementSegment");
    assert("PartitionBySegment"@.len() != "InsertStatementSegment"@.len());
    reveal_strlit("OptionsSegment");
    assert("PartitionBySegment"@.len() != "OptionsSegment"@.len());
    reveal_strlit("ParameterizedSegment");
    assert("PartitionBySegment"@.len() != "ParameterizedSegment"@.len());
    reveal_strlit("PivotForClauseSegment");
    assert("PartitionBySegment"@.len() != "PivotForClauseSegment"@.len());
    reveal_strlit("SamplingExpressionSegment");
    assert("PartitionBySegment"@.len() != "SamplingExpressionSegment"@.len());
    reveal_strlit("UnpivotAliasExpressionSegment");
    assert("PartitionBySegment"@.len() != "UnpivotAliasExpressionSegment"@.len());
}

proof fn lemma_bigquery_part_5_keeps_partition_by_segment(d: DialectView)
    ensures
        bigquery_changes_part_5(d).element("PartitionBySegment"@) == d.element("PartitionBySegment"@),
{
    reveal_strlit("PartitionBySegment");
    reveal_strlit("DeleteStatementSegment");
    assert("PartitionBySegment"@.len() != "DeleteStatementSegment"@.len());
    reveal_strlit("ExportStatementSegment");
    assert("PartitionBySegment"@.len() != "ExportStatementSegment"@.len());
    reveal_strlit("LiteralGrammar");
    assert("PartitionBySegment"@.len() != "LiteralGrammar"@.len());
    reveal_strlit("MergeInsertClauseSegment");
    assert("PartitionBySegment"@.len() != "MergeInsertClauseSegment"@.len());
    reveal_strlit("MergeMatchSegment");
    assert("PartitionBySegment"@.len() != "MergeMatchSegment"@.len());
    reveal_strlit("MergeNotMatchedBySourceClauseSegment");
    assert("PartitionBySegment"@.len() != "MergeNotMatchedBySourceClauseSegment"@.len());
    reveal_strlit("MergeNotMatchedByTargetClauseSegment");
    assert("PartitionBySegment"@.len() != "MergeNotMatchedByTargetClauseSegment"@.len());
    reveal_strlit("NumericLiteralSegment");
    assert("PartitionBySegment"@.len() != "NumericLiteralSegment"@.len());
    reveal_strlit("PostTableExpressionGrammar");
    assert("PartitionBySegment"@.len() != "PostTableExpressionGrammar"@.len());
    reveal_strlit("ProcedureNameSegment");
    assert("PartitionBySegment"@.len() != "ProcedureNameSegment"@.len());
    reveal_strlit("QuotedIdentifierSegment");
    assert("PartitionBySegment"@.len() != "QuotedIdentifierSegment"@.len());
    reveal_strlit("QuotedLiteralSegment");
    assert("PartitionBySegment"@.len() != "QuotedLiteralSegment"@.len());
}

/// After the BigQuery grammar changes, `PartitionBySegment` is what their last change of that
/// name sets, whatever dialect they start from.
pub proof fn lemma_bigquery_changes_partition_by_segment(d: DialectView)
    ensures
        bigquery_grammar_changes(d).element("PartitionBySegment"@) == Some(partition_by_segment_element()),
{
    reveal(bigquery_grammar_changes);
    let d0 = d;
    let d1 = bigquery_changes_part_0(d0);
    let d2 = bigquery_changes_part_1(d1);
    let d3 = bigquery_changes_part_2(d2);
    let d4 = bigquery_changes_part_3(d3);
    let d5 = bigquery_changes_part_4(d4);
    let d6 = bigquery_changes_part_5(d5);
    lemma_bigquery_part_4_sets_partition_by_segment(d4);
    lemma_bigquery_part_5_keeps_partition_by_segment(d5);
}


/// The BigQuery grammar changes make `PartitionBySegment` a `partition_by_segment`
/// node: `PARTITION BY` and an expression; whatever dialect they start from.
pub proof fn law_bigquery_partition_by(d: DialectView)
    ensures
        ({
            let e = (ElementView::Node { kind: "partition_by_segment"@, grammar: GrammarView::sequence(seq![GrammarView::keyword("PARTITION"@), GrammarView::keyword("BY"@), GrammarView::reference("ExpressionSegment"@)]) });
            &&& bigquery_grammar_changes(d).element("PartitionBySegment"@) == Some(e)
        }),
{
    lemma_bigquery_changes_partition_by_segment(d);
}

proof fn lemma_bigquery_part_1_sets_call_statement_segment(d: DialectView)
    ensures
        bigquery_changes_part_1(d).element("CallStatementSegment"@) == Some(call_statement_segment_element()),
{
    reveal_strlit("CallStatementSegment");
    reveal_strlit("BreakStatementSegment");
    assert("CallStatementSegment"@.len() != "BreakStatementSegment"@.len());
    reveal_strlit("ContinueStatementSegment");
    assert("CallStatementSegment"@.len() != "ContinueStatementSegment"@.len());
    reveal_strlit("LeaveStatementSegment");
    assert("CallStatementSegment"@.len() != "LeaveStatementSegment"@.len());
    reveal_strlit("QualifyClauseSegment");
    assert("CallStatementSegment"@[0] != "QualifyClauseSegment"@[0]);
    reveal_strlit("RaiseStatementSegment");
    assert("CallStatementSegment"@.len() != "RaiseStatementSegment"@.len());
    reveal_strlit("ReturnStatementSegment");
    assert("CallStatementSegment"@.len() != "ReturnStatementSegment"@.len());
    reveal_strlit("SetExpressionSegment");
    assert("CallStatementSegment"@[0] != "SetExpressionSegment"@[0]);
    reveal_strlit("SetOperatorSegment");
    assert("CallStatementSegment"@.len() != "SetOperatorSegment"@.len());
}

proof fn lemma_bigquery_part_2_keeps_call_statement_segment(d: DialectView)
    ensures
        bigquery_changes_part_2(d).element("CallStatementSegment"@) == d.element("CallStatementSegment"@),
{
    reveal_strlit("CallStatementSegment");
    reveal_strlit("AssertStatementSegment");
    assert("CallStatementSegment"@.len() != "AssertStatementSegment"@.len());
    reveal_strlit("DateTimeFunctionContentsSegment");
    assert("CallStatementSegment"@.len() != "DateTimeFunctionContentsSegment"@.len());
    reveal_strlit("ExtractFunctionContentsSegment");
    assert("CallStatementSegment"@.len() != "ExtractFunctionContentsSegment"@.len());
    reveal_strlit("FileSegment");
    assert("CallStatementSegment"@.len() != "FileSegment"@.len());
    reveal_strlit("ForInStatementSegment");
    assert("CallStatementSegment"@.len() != "ForInStatementSegment"@.len());
    reveal_strlit("ForInStatementsSegment");
    assert("CallStatementSegment"@.len() != "ForInStatementsSegment"@.len());
    reveal_strlit("IfStatementSegment");
    assert("CallStatementSegment"@.len() != "IfStatementSegment"@.len());
    reveal_strlit("IfStatementsSegment");
    assert("CallStatementSegment"@.len() != "IfStatementsSegment"@.len());
    reveal_strlit("IntervalExpressionSegment");
    assert("CallStatementSegment"@.len() != "IntervalExpressionSegment"@.len());
    reveal_strlit("LoopStatementSegment");
    assert("CallStatementSegment"@[0] != "LoopStatementSegment"@[0]);
    reveal_strlit("LoopStatementsSegment");
    assert("CallStatementSegment"@.len() != "LoopStatementsSegment"@.len());
    reveal_strlit("MultiStatementSegment");
    assert("CallStatementSegment"@.len() != "MultiStatementSegment"@.len());
    reveal_strlit("NormalizeFunctionContentsSegment");
    assert("CallStatementSegment"@.len() != "NormalizeFunctionContentsSegment"@.len());
    reveal_strlit("RepeatStatementSegment");
    assert("CallStatementSegment"@.len() != "RepeatStatementSegment"@.len());
    reveal_strlit("RepeatStatementsSegment");
    assert("CallStatementSegment"@.len() != "RepeatStatementsSegment"@.len());
    reveal_strlit("SelectClauseModifierSegment");
    assert("CallStatementSegment"@.len() != "SelectClauseModifierSegment"@.len());
    reveal_strlit("StatementSegment");
    assert("CallStatementSegment"@.len() != "StatementSegment"@.len());
    reveal_strlit("UnorderedSelectStatementSegment");
    assert("CallStatementSegment"@.len() != "UnorderedSelectStatementSegment"@.len());
    reveal_strlit("WhileStatementSegment");
    assert("CallStatementSegment"@.len() != "WhileStatementSegment"@.len());
    reveal_strlit("WhileStatementsSegment");
    assert("CallStatementSegment"@.len() != "WhileStatementsSegment"@.len());
}

proof fn lemma_bigquery_part_3_keeps_call_statement_segment(d: DialectView)
    ensures
        bigquery_changes_part_3(d).element("CallStatementSegment"@) == d.element("CallStatementSegment"@),
{
    reveal_strlit("CallStatementSegment");
    reveal_strlit("ArrayExpressionSegment");
    assert("CallStatementSegment"@.len() != "ArrayExpressionSegment"@.len());
    reveal_strlit("ArrayFunctionContentsSegment");
    assert("CallStatementSegment"@.len() != "ArrayFunctionContentsSegment"@.len());
    reveal_strlit("ArrayFunctionNameSegment");
    assert("CallStatementSegment"@.len() != "ArrayFunctionNameSegment"@.len());
    reveal_strlit("ColumnReferenceSegment");
    assert("CallStatementSegment"@.len() != "ColumnReferenceSegment"@.len());
    reveal_strlit("DatatypeSegment");
    assert("CallStatementSegment"@.len() != "DatatypeSegment"@.len());
    reveal_strlit("DatePartWeekSegment");
    assert("CallStatementSegment"@.len() != "DatePartWeekSegment"@.len());
    reveal_strlit("DeclareStatementSegment");
    assert("CallStatementSegment"@.len() != "DeclareStatementSegment"@.len());
    reveal_strlit("ExceptClauseSegment");
    assert("CallStatementSegment"@.len() != "ExceptClauseSegment"@.len());
    reveal_strlit("ExtractFunctionNameSegment");
    assert("CallStatementSegment"@.len() != "ExtractFunctionNameSegment"@.len());
    reveal_strlit("FunctionDefinitionGrammar");
    assert("CallStatementSegment"@.len() != "FunctionDefinitionGrammar"@.len());
    reveal_strlit("FunctionNameSegment");
    assert("CallStatementSegment"@.len() != "FunctionNameSegment"@.len());
    reveal_strlit("FunctionSegment");
    assert("CallStatementSegment"@.len() != "FunctionSegment"@.len());
    reveal_strlit("NamedArgumentSegment");
    assert("CallStatementSegment"@[0] != "NamedArgumentSegment"@[0]);
    reveal_strlit("NormalizeFunctionNameSegment");
    assert("CallStatementSegment"@.len() != "NormalizeFunctionNameSegment"@.len());
    reveal_strlit("ReplaceClauseSegment");
    assert("CallStatementSegment"@[0] != "ReplaceClauseSegment"@[0]);
    reveal_strlit("SemiStructuredAccessorSegment");
    assert("CallStatementSegment"@.len() != "SemiStructuredAccessorSegment"@.len());
    reveal_strlit("StructTypeSegment");
    assert("CallStatementSegment"@.len() != "StructTypeSegment"@.len());
    reveal_strlit("TableReferenceSegment");
    assert("CallStatementSegment"@.len() != "TableReferenceSegment"@.len());
    reveal_strlit("TupleSegment");
    assert("CallStatementSegment"@.len() != "TupleSegment"@.len());
    reveal_strlit("WildcardExpressionSegment");
    assert("CallStatementSegment"@.len() != "WildcardExpressionSegment"@.len());
}

proof fn lemma_bigquery_part_4_keeps_call_statement_segment(d: DialectView)
    ensures
        bigquery_changes_part_4(d).element("CallStatementSegment"@) == d.element("CallStatementSegment"@),
{
    reveal_strlit("CallStatementSegment");
    reveal_strlit("AlterMaterializedViewStatementSegment");
    assert("CallStatementSegment"@.len() != "AlterMaterializedViewStatementSegment"@.len());
    reveal_strlit("AlterTableStatementSegment");
    assert("CallStatementSegment"@.len() != "AlterTableStatementSegment"@.len());
    reveal_strlit("AlterViewStatementSegment");
    assert("CallStatementSegment"@.len() != "AlterViewStatementSegment"@.len());
    reveal_strlit("ClusterBySegment");
    assert("CallStatementSegment"@.len() != "ClusterBySegment"@.len());
    reveal_strlit("ColumnDefinitionSegment");
    assert("CallStatementSegment"@.len() != "ColumnDefinitionSegment"@.len());
    reveal_strlit("CreateExternalTableStatementSegment");
    assert("CallStatementSegment"@.len() != "CreateExternalTableStatementSegment"@.len());
    reveal_strlit("CreateMaterializedViewStatementSegment");
    assert("CallStatementSegment"@.len() != "CreateMaterializedViewStatementSegment"@.len());
    reveal_strlit("CreateTableStatementSegment");
    assert("CallStatementSegment"@.len() != "CreateTableStatementSegment"@.len());
    reveal_strlit("CreateViewStatementSegment");
    assert("CallStatementSegment"@.len() != "CreateViewStatementSegment"@.len());
    reveal_strlit("DropMaterializedViewStatementSegment");
    assert("CallStatementSegment"@.len() != "DropMaterializedViewStatementSegment"@.len());
    reveal_strlit("FromPivotExpressionSegment");
    assert("CallStatementSegment"@.len() != "FromPivotExpressionSegment"@.len());
    reveal_strlit("InsertStatementSegment");
    assert("CallStatementSegment"@.len() != "InsertStatementSegment"@.len());
    reveal_strlit("OptionsSegment");
    assert("CallStatementSegment"@.len() != "OptionsSegment"@.len());
    reveal_strlit("ParameterizedSegment");
    assert("CallStatementSegment"@[0] != "ParameterizedSegment"@[0]);
    reveal_strlit("PartitionBySegment");
    assert("CallStatementSegment"@.len() != "PartitionBySegment"@.len());
    reveal_strlit("PivotForClauseSegment");
    assert("CallStatementSegment"@.len() != "PivotForClauseSegment"@.len());
    reveal_strlit("SamplingExpressionSegment");
    assert("CallStatementSegment"@.len() != "SamplingExpressionSegment"@.len());
    reveal_strlit("SetStatementSegment");
    assert("CallStatementSegment"@.len() != "SetStatementSegment"@.len());
    reveal_strlit("UnpivotAliasExpressionSegment");
    assert("CallStatementSegment"@.len() != "UnpivotAliasExpressionSegment"@.len());
}

proof fn lemma_bigquery_part_5_keeps_call_statement_segment(d: DialectView)
    ensures
        bigquery_changes_part_5(d).element("CallStatementSegment"@) == d.element("CallStatementSegment"@),
{
    reveal_strlit("CallStatementSegment");
    reveal_strlit("DeleteStatementSegment");
    assert("CallStatementSegment"@.len() != "DeleteStatementSegment"@.len());
    reveal_strlit("ExportStatementSegment");
    assert("CallStatementSegment"@.len() != "ExportStatementSegment"@.len());
    reveal_strlit("LiteralGrammar");
    assert("CallStatementSegment"@.len() != "LiteralGrammar"@.len());
    reveal_strlit("MergeInsertClauseSegment");
    assert("CallStatementSegment"@.len() != "MergeInsertClauseSegment"@.len());
    reveal_strlit("MergeMatchSegment");
    assert("CallStatementSegment"@.len() != "MergeMatchSegment"@.len());
    reveal_strlit("MergeNotMatchedBySourceClauseSegment");
    assert("CallStatementSegment"@.len() != "MergeNotMatchedBySourceClauseSegment"@.len());
    reveal_strlit("MergeNotMatchedByTargetClauseSegment");
    assert("CallStatementSegment"@.len() != "MergeNotMatchedByTargetClauseSegment"@.len());
    reveal_strlit("NumericLiteralSegment");
    assert("CallStatementSegment"@.len() != "NumericLiteralSegment"@.len());
    reveal_strlit("PostTableExpressionGrammar");
    assert("CallStatementSegment"@.len() != "PostTableExpressionGrammar"@.len());
    reveal_strlit("ProcedureNameSegment");
    assert("CallStatementSegment"@[0] != "ProcedureNameSegment"@[0]);
    reveal_strlit("QuotedIdentifierSegment");
    assert("CallStatementSegment"@.len() != "QuotedIdentifierSegment"@.len());
    reveal_strlit("QuotedLiteralSegment");
    assert("CallStatementSegment"@[0] != "QuotedLiteralSegment"@[0]);
}

/// After the BigQuery grammar changes, `CallStatementSegment` is what their last change of that
/// name sets, whatever dialect they start from.
pub proof fn lemma_bigquery_changes_call_statement_segment(d: DialectView)
    ensures
        bigquery_grammar_changes(d).element("CallStatementSegment"@) == Some(call_statement_segment_element()),
{
    reveal(bigquery_grammar_changes);
    let d0 = d;
    let d1 = bigquery_changes_part_0(d0);
    let d2 = bigquery_changes_part_1(d1);
    let d3 = bigquery_changes_part_2(d2);
    let d4 = bigquery_changes_part_3(d3);
    let d5 = bigquery_changes_part_4(d4);
    let d6 = bigquery_changes_part_5(d5);
    lemma_bigquery_part_1_sets_call_statement_segment(d1);
    lemma_bigquery_part_2_keeps_call_statement_segment(d2);
    lemma_bigquery_part_3_keeps_call_statement_segment(d3);
    lemma_bigquery_part_4_keeps_call_statement_segment(d4);
    lemma_bigquery_part_5_keeps_call_statement_segment(d5);
}


/// The BigQuery grammar changes make `CallStatementSegment` a `call_statement`
/// node: `CALL`, a procedure name and, in round brackets, an optional
/// comma-separated list of expressions; whatever dialect they start from.
pub proof fn law_bigquery_call_statement(d: DialectView)
    ensures
        ({
            let e = (ElementView::Node { kind: "call_statement"@, grammar: GrammarView::sequence(seq![GrammarView::keyword("CALL"@), GrammarView::reference("ProcedureNameSegment"@), (GrammarView::Bracketed { elements: seq![(GrammarView::Optional { grammar: Box::new(GrammarView::delimited(seq![GrammarView::reference("ExpressionSegment"@)])) })], bracket_type: "round"@ })]) });
            &&& bigquery_grammar_changes(d).element("CallStatementSegment"@) == Some(e)
        }),
{
    lemma_bigquery_changes_call_statement_segment(d);
}

proof fn lemma_bigquery_part_1_sets_return_statement_segment(d: DialectView)
    ensures
        bigquery_changes_part_1(d).element("ReturnStatementSegment"@) == Some(return_statement_segment_element()),
{
    reveal_strlit("ReturnStatementSegment");
    reveal_strlit("BreakStatementSegment");
    assert("ReturnStatementSegment"@.len() != "BreakStatementSegment"@.len());
    reveal_strlit("ContinueStatementSegment");
    assert("ReturnStatementSegment"@.len() != "ContinueStatementSegment"@.len());
    reveal_strlit("LeaveStatementSegment");
    assert("ReturnStatementSegment"@.len() != "LeaveStatementSegment"@.len());
    reveal_strlit("QualifyClauseSegment");
    assert("ReturnStatementSegment"@.len() != "QualifyClauseSegment"@.len());
    reveal_strlit("RaiseStatementSegment");
    assert("ReturnStatementSegment"@.len() != "RaiseStatementSegment"@.len());
    reveal_strlit("SetExpressionSegment");
    assert("ReturnStatementSegment"@.len() != "SetExpressionSegment"@.len());
    reveal_strlit("SetOperatorSegment");
    assert("ReturnStatementSegment"@.len() != "SetOperatorSegment"@.len());
}

proof fn lemma_bigquery_part_2_keeps_return_statement_segment(d: DialectView)
    ensures
        bigquery_changes_part_2(d).element("ReturnStatementSegment"@) == d.element("ReturnStatementSegment"@),
{
    reveal_strlit("ReturnStatementSegment");
    reveal_strlit("AssertStatementSegment");
    assert("ReturnStatementSegment"@[0] != "AssertStatementSegment"@[0]);
    reveal_strlit("DateTimeFunctionContentsSegment");
    assert("ReturnStatementSegment"@.len() != "DateTimeFunctionContentsSegment"@.len());
    reveal_strlit("ExtractFunctionContentsSegment");
    assert("ReturnStatementSegment"@.len() != "ExtractFunctionContentsSegment"@.len());
    reveal_strlit("FileSegment");
    assert("ReturnStatementSegment"@.len() != "FileSegment"@.len());
    reveal_strlit("ForInStatementSegment");
    assert("ReturnStatementSegment"@.len() != "ForInStatementSegment"@.len());
    reveal_strlit("ForInStatementsSegment");
    assert("ReturnStatementSegment"@[0] != "ForInStatementsSegment"@[0]);
    reveal_strlit("IfStatementSegment");
    assert("ReturnStatementSegment"@.len() != "IfStatementSegment"@.len());
    reveal_strlit("IfStatementsSegment");
    assert("ReturnStatementSegment"@.len() != "IfStatementsSegment"@.len());
    reveal_strlit("IntervalExpressionSegment");
    assert("ReturnStatementSegment"@.len() != "IntervalExpressionSegment"@.len());
    reveal_strlit("LoopStatementSegment");
    assert("ReturnStatementSegment"@.len() != "LoopStatementSegment"@.len());
    reveal_strlit("LoopStatementsSegment");
    assert("ReturnStatementSegment"@.len() != "LoopStatementsSegment"@.len());
    reveal_strlit("MultiStatementSegment");
    assert("ReturnStatementSegment"@.len() != "MultiStatementSegment"@.len());
    reveal_strlit("NormalizeFunctionContentsSegment");
    assert("ReturnStatementSegment"@.len() != "NormalizeFunctionContentsSegment"@.len());
    reveal_strlit("RepeatStatementSegment");
    assert("ReturnStatementSegment"@[2] != "RepeatStatementSegment"@[2]);
    reveal_strlit("RepeatStatementsSegment");
    assert("ReturnStatementSegment"@.len() != "RepeatStatementsSegment"@.len());
    reveal_strlit("SelectClauseModifierSegment");
    assert("ReturnStatementSegment"@.len() != "SelectClauseModifierSegment"@.len());
    reveal_strlit("StatementSegment");
    assert("ReturnStatementSegment"@.len() != "StatementSegment"@.len());
    reveal_strlit("UnorderedSelectStatementSegment");
    assert("ReturnStatementSegment"@.len() != "UnorderedSelectStatementSegment"@.len());
    reveal_strlit("WhileStatementSegment");
    assert("ReturnStatementSegment"@.len() != "WhileStatementSegment"@.len());
    reveal_strlit("WhileStatementsSegment");
    assert("ReturnStatementSegment"@[0] != "WhileStatementsSegment"@[0]);
}

proof fn lemma_bigquery_part_3_keeps_return_statement_segment(d: DialectView)
    ensures
        bigquery_changes_part_3(d).element("ReturnStatementSegment"@) == d.element("ReturnStatementSegment"@),
{
    reveal_strlit("ReturnStatementSegment");
    reveal_strlit("ArrayExpressionSegment");
    assert("ReturnStatementSegment"@[0] != "ArrayExpressionSegment"@[0]);
    reveal_strlit("ArrayFunctionContentsSegment");
    assert("ReturnStatementSegment"@.len() != "ArrayFunctionContentsSegment"@.len());
    reveal_strlit("ArrayFunctionNameSegment");
    assert("ReturnStatementSegment"@.len() != "ArrayFunctionNameSegment"@.len());
    reveal_strlit("ColumnReferenceSegment");
    assert("ReturnStatementSegment"@[0] != "ColumnReferenceSegment"@[0]);
    reveal_strlit("DatatypeSegment");
    assert("ReturnStatementSegment"@.len() != "DatatypeSegment"@.len());
    reveal_strlit("DatePartWeekSegment");
    assert("ReturnStatementSegment"@.len() != "DatePartWeekSegment"@.len());
    reveal_strlit("DeclareStatementSegment");
    assert("ReturnStatementSegment"@.len() != "DeclareStatementSegment"@.len());
    reveal_strlit("ExceptClauseSegment");
    assert("ReturnStatementSegment"@.len() != "ExceptClauseSegment"@.len());
    reveal_strlit("ExtractFunctionNameSegment");
    assert("ReturnStatementSegment"@.len() != "ExtractFunctionNameSegment"@.len());
    reveal_strlit("FunctionDefinitionGrammar");
    assert("ReturnStatementSegment"@.len() != "FunctionDefinitionGrammar"@.len());
    reveal_strlit("FunctionNameSegment");
    assert("ReturnStatementSegment"@.len() != "FunctionNameSegment"@.len());
    reveal_strlit("FunctionSegment");
    assert("ReturnStatementSegment"@.len() != "FunctionSegment"@.len());
    reveal_strlit("NamedArgumentSegment");
    assert("ReturnStatementSegment"@.len() != "NamedArgumentSegment"@.len());
    reveal_strlit("NormalizeFunctionNameSegment");
    assert("ReturnStatementSegment"@.len() != "NormalizeFunctionNameSegment"@.len());
    reveal_strlit("ReplaceClauseSegment");
    assert("ReturnStatementSegment"@.len() != "ReplaceClauseSegment"@.len());
    reveal_strlit("SemiStructuredAccessorSegment");
    assert("ReturnStatementSegment"@.len() != "SemiStructuredAccessorSegment"@.len());
    reveal_strlit("StructTypeSegment");
    assert("ReturnStatementSegment"@.len() != "StructTypeSegment"@.len());
    reveal_strlit("TableReferenceSegment");
    assert("ReturnStatementSegment"@.len() != "TableReferenceSegment"@.len());
    reveal_strlit("TupleSegment");
    assert("ReturnStatementSegment"@.len() != "TupleSegment"@.len());
    reveal_strlit("WildcardExpressionSegment");
    assert("ReturnStatementSegment"@.len() != "WildcardExpressionSegment"@.len());
}

proof fn lemma_bigquery_part_4_keeps_return_statement_segment(d: DialectView)
    ensures
        bigquery_changes_part_4(d).element("ReturnStatementSegment"@) == d.element("ReturnStatementSegment"@),
{
    reveal_strlit("ReturnStatementSegment");
    reveal_strlit("AlterMaterializedViewStatementSegment");
    assert("ReturnStatementSegment"@.len() != "AlterMaterializedViewStatementSegment"@.len());
    reveal_strlit("AlterTableStatementSegment");
    assert("ReturnStatementSegment"@.len() != "AlterTableStatementSegment"@.len());
    reveal_strlit("AlterViewStatementSegment");
    assert("ReturnStatementSegment"@.len() != "AlterViewStatementSegment"@.len());
    reveal_strlit("ClusterBySegment");
    assert("ReturnStatementSegment"@.len() != "ClusterBySegment"@.len());
    reveal_strlit("ColumnDefinitionSegment");
    assert("ReturnStatementSegment"@.len() != "ColumnDefinitionSegment"@.len());
    reveal_strlit("CreateExternalTableStatementSegment");
    assert("ReturnStatementSegment"@.len() != "CreateExternalTableStatementSegment"@.len());
    reveal_strlit("CreateMaterializedViewStatementSegment");
    assert("ReturnStatementSegment"@.len() != "CreateMaterializedViewStatementSegment"@.len());
    reveal_strlit("CreateTableStatementSegment");
    assert("ReturnStatementSegment"@.len() != "CreateTableStatementSegment"@.len());
    reveal_strlit("CreateViewStatementSegment");
    assert("ReturnStatementSegment"@.len() != "CreateViewStatementSegment"@.len());
    reveal_strlit("DropMaterializedViewStatementSegment");
    assert("ReturnStatementSegment"@.len() != "DropMaterializedViewStatementSegment"@.len());
    reveal_strlit("FromPivotExpressionSegment");
    assert("ReturnStatementSegment"@.len() != "FromPivotExpressionSegment"@.len());
    reveal_strlit("InsertStatementSegment");
    assert("ReturnStatementSegment"@[0] != "InsertStatementSegment"@[0]);
    reveal_strlit("OptionsSegment");
    assert("ReturnStatementSegment"@.len() != "OptionsSegment"@.len());
    reveal_strlit("ParameterizedSegment");
    assert("ReturnStatementSegment"@.len() != "ParameterizedSegment"@.len());
    reveal_strlit("PartitionBySegment");
    assert("ReturnStatementSegment"@.len() != "PartitionBySegment"@.len());
    reveal_strlit("PivotForClauseSegment");
    assert("ReturnStatementSegment"@.len() != "PivotForClauseSegment"@.len());
    reveal_strlit("SamplingExpressionSegment");
    assert("ReturnStatementSegment"@.len() != "SamplingExpressionSegment"@.len());
    reveal_strlit("SetStatementSegment");
    assert("ReturnStatementSegment"@.len() != "SetStatementSegment"@.len());
    reveal_strlit("UnpivotAliasExpressionSegment");
    assert("ReturnStatementSegment"@.len() != "UnpivotAliasExpressionSegment"@.len());
}

proof fn lemma_bigquery_part_5_keeps_return_statement_segment(d: DialectView)
    ensures
        bigquery_changes_part_5(d).element("ReturnStatementSegment"@) == d.element("ReturnStatementSegment"@),
{
    reveal_strlit("ReturnStatementSegment");
    reveal_strlit("DeleteStatementSegment");
    assert("ReturnStatementSegment"@[0] != "DeleteStatementSegment"@[0]);
    reveal_strlit("ExportStatementSegment");
    assert("ReturnStatementSegment"@[0] != "ExportStatementSegment"@[0]);
    reveal_strlit("LiteralGrammar");
    assert("ReturnStatementSegment"@.len() != "LiteralGrammar"@.len());
    reveal_strlit("MergeInsertClauseSegment");
    assert("ReturnStatementSegment"@.len() != "MergeInsertClauseSegment"@.len());
    reveal_strlit("MergeMatchSegment");
    assert("ReturnStatementSegment"@.len() != "MergeMatchSegment"@.len());
    reveal_strlit("MergeNotMatchedBySourceClauseSegment");
    assert("ReturnStatementSegment"@.len() != "MergeNotMatchedBySourceClauseSegment"@.len());
    reveal_strlit("MergeNotMatchedByTargetClauseSegment");
    assert("ReturnStatementSegment"@.len() != "MergeNotMatchedByTargetClauseSegment"@.len());
    reveal_strlit("NumericLiteralSegment");
    assert("ReturnStatementSegment"@.len() != "NumericLiteralSegment"@.len());
    reveal_strlit("PostTableExpressionGrammar");
    assert("ReturnStatementSegment"@.len() != "PostTableExpressionGrammar"@.len());
    reveal_strlit("ProcedureNameSegment");
    assert("ReturnStatementSegment"@.len() != "ProcedureNameSegment"@.len());
    reveal_strlit("QuotedIdentifierSegment");
    assert("ReturnStatementSegment"@.len() != "QuotedIdentifierSegment"@.len());
    reveal_strlit("QuotedLiteralSegment");
    assert("ReturnStatementSegment"@.len() != "QuotedLiteralSegment"@.len());
}

/// After the BigQuery grammar changes, `ReturnStatementSegment` is what their last change of that
/// name sets, whatever dialect they start from.
pub proof fn lemma_bigquery_changes_return_statement_segment(d: DialectView)
    ensures
        bigquery_grammar_changes(d).element("ReturnStatementSegment"@) == Some(return_statement_segment_element()),
{
    reveal(bigquery_grammar_changes);
    let d0 = d;
    let d1 = bigquery_changes_part_0(d0);
    let d2 = bigquery_changes_part_1(d1);
    let d3 = bigquery_changes_part_2(d2);
    let d4 = bigquery_changes_part_3(d3);
    let d5 = bigquery_changes_part_4(d4);
    let d6 = bigquery_changes_part_5(d5);
    lemma_bigquery_part_1_sets_return_statement_segment(d1);
    lemma_bigquery_part_2_keeps_return_statement_segment(d2);
    lemma_bigquery_part_3_keeps_return_statement_segment(d3);
    lemma_bigquery_part_4_keeps_return_statement_segment(d4);
    lemma_bigquery_part_5_keeps_return_statement_segment(d5);
}


/// The BigQuery grammar changes make `ReturnStatementSegment` a
/// `return_statement` node: the keyword `RETURN` alone; whatever dialect they start from.
pub proof fn law_bigquery_return_statement(d: DialectView)
    ensures
        ({
            let e = (ElementView::Node { kind: "return_statement"@, grammar: GrammarView::sequence(seq![GrammarView::keyword("RETURN"@)]) });
            &&& bigquery_grammar_changes(d).element("ReturnStatementSegment"@) == Some(e)
        }),
{
    lemma_bigquery_changes_return_statement_segment(d);
}

proof fn lemma_bigquery_part_1_sets_break_statement_segment(d: DialectView)
    ensures
        bigquery_changes_part_1(d).element("BreakStatementSegment"@) == Some(break_statement_segment_element()),
{
    reveal_strlit("BreakStatementSegment");
    reveal_strlit("ContinueStatementSegment");
    assert("BreakStatementSegment"@.len() != "ContinueStatementSegment"@.len());
    reveal_strlit("LeaveStatementSegment");
    assert("BreakStatementSegment"@[0] != "LeaveStatementSegment"@[0]);
    reveal_strlit("QualifyClauseSegment");
    assert("BreakStatementSegment"@.len() != "QualifyClauseSegment"@.len());
    reveal_strlit("RaiseStatementSegment");
    assert("BreakStatementSegment"@[0] != "RaiseStatementSegment"@[0]);
    reveal_strlit("SetExpressionSegment");
    assert("BreakStatementSegment"@.len() != "SetExpressionSegment"@.len());
    reveal_strlit("SetOperatorSegment");
    assert("BreakStatementSegment"@.len() != "SetOperatorSegment"@.len());
}

proof fn lemma_bigquery_part_2_keeps_break_statement_segment(d: DialectView)
    ensures
        bigquery_changes_part_2(d).element("BreakStatementSegment"@) == d.element("BreakStatementSegment"@),
{
    reveal_strlit("BreakStatementSegment");
    reveal_strlit("AssertStatementSegment");
    assert("BreakStatementSegment"@.len() != "AssertStatementSegment"@.len());
    reveal_strlit("DateTimeFunctionContentsSegment");
    assert("BreakStatementSegment"@.len() != "DateTimeFunctionContentsSegment"@.len());
    reveal_strlit("ExtractFunctionContentsSegment");
    assert("BreakStatementSegment"@.len() != "ExtractFunctionContentsSegment"@.len());
    reveal_strlit("FileSegment");
    assert("BreakStatementSegment"@.len() != "FileSegment"@.len());
    reveal_strlit("ForInStatementSegment");
    assert("BreakStatementSegment"@[0] != "ForInStatementSegment"@[0]);
    reveal_strlit("ForInStatementsSegment");
    assert("BreakStatementSegment"@.len() != "ForInStatementsSegment"@.len());
    reveal_strlit("IfStatementSegment");
    assert("BreakStatementSegment"@.len() != "IfStatementSegment"@.len());
    reveal_strlit("IfStatementsSegment");
    assert("BreakStatementSegment"@.len() != "IfStatementsSegment"@.len());
    reveal_strlit("IntervalExpressionSegment");
    assert("BreakStatementSegment"@.len() != "IntervalExpressionSegment"@.len());
    reveal_strlit("LoopStatementSegment");
    assert("BreakStatementSegment"@.len() != "LoopStatementSegment"@.len());
    reveal_strlit("LoopStatementsSegment");
    assert("BreakStatementSegment"@[0] != "LoopStatementsSegment"@[0]);
    reveal_strlit("MultiStatementSegment");
    assert("BreakStatementSegment"@[0] != "MultiStatementSegment"@[0]);
    reveal_strlit("NormalizeFunctionContentsSegment");
    assert("BreakStatementSegment"@.len() != "NormalizeFunctionContentsSegment"@.len());
    reveal_strlit("RepeatStatementSegment");
    assert("BreakStatementSegment"@.len() != "RepeatStatementSegment"@.len());
    reveal_strlit("RepeatStatementsSegment");
    assert("BreakStatementSegment"@.len() != "RepeatStatementsSegment"@.len());
    reveal_strlit("SelectClauseModifierSegment");
    assert("BreakStatementSegment"@.len() != "SelectClauseModifierSegment"@.len());
    reveal_strlit("StatementSegment");
    assert("BreakStatementSegment"@.len() != "StatementSegment"@.len());
    reveal_strlit("UnorderedSelectStatementSegment");
    assert("BreakStatementSegment"@.len() != "UnorderedSelectStatementSegment"@.len());
    reveal_strlit("WhileStatementSegment");
    assert("BreakStatementSegment"@[0] != "WhileStatementSegment"@[0]);
    reveal_strlit("WhileStatementsSegment");
    assert("BreakStatementSegment"@.len() != "WhileStatementsSegment"@.len());
}

proof fn lemma_bigquery_part_3_keeps_break_statement_segment(d: DialectView)
    ensures
        bigquery_changes_part_3(d).element("BreakStatementSegment"@) == d.element("BreakStatementSegment"@),
{
    reveal_strlit("BreakStatementSegment");
    reveal_strlit("ArrayExpressionSegment");
    assert("BreakStatementSegment"@.len() != "ArrayExpressionSegment"@.len());
    reveal_strlit("ArrayFunctionContentsSegment");
    assert("BreakStatementSegment"@.len() != "ArrayFunctionContentsSegment"@.len());
    reveal_strlit("ArrayFunctionNameSegment");
    assert("BreakStatementSegment"@.len() != "ArrayFunctionNameSegment"@.len());
    reveal_strlit("ColumnReferenceSegment");
    assert("BreakStatementSegment"@.len() != "ColumnReferenceSegment"@.len());
    reveal_strlit("DatatypeSegment");
    assert("BreakStatementSegment"@.len() != "DatatypeSegment"@.len());
    reveal_strlit("DatePartWeekSegment");
    assert("BreakStatementSegment"@.len() != "DatePartWeekSegment"@.len());
    reveal_strlit("DeclareStatementSegment");
    assert("BreakStatementSegment"@.len() != "DeclareStatementSegment"@.len());
    reveal_strlit("ExceptClauseSegment");
    assert("BreakStatementSegment"@.len() != "ExceptClauseSegment"@.len());
    reveal_strlit("ExtractFunctionNameSegment");
    assert("BreakStatementSegment"@.len() != "ExtractFunctionNameSegment"@.len());
    reveal_strlit("FunctionDefinitionGrammar");
    assert("BreakStatementSegment"@.len() != "FunctionDefinitionGrammar"@.len());
    reveal_strlit("FunctionNameSegment");
    assert("BreakStatementSegment"@.len() != "FunctionNameSegment"@.len());
    reveal_strlit("FunctionSegment");
    assert("BreakStatementSegment"@.len() != "FunctionSegment"@.len());
    reveal_strlit("NamedArgumentSegment");
    assert("BreakStatementSegment"@.len() != "NamedArgumentSegment"@.len());
    reveal_strlit("NormalizeFunctionNameSegment");
    assert("BreakStatementSegment"@.len() != "NormalizeFunctionNameSegment"@.len());
    reveal_strlit("ReplaceClauseSegment");
    assert("BreakStatementSegment"@.len() != "ReplaceClauseSegment"@.len());
    reveal_strlit("SemiStructuredAccessorSegment");
    assert("BreakStatementSegment"@.len() != "SemiStructuredAccessorSegment"@.len());
    reveal_strlit("StructTypeSegment");
    assert("BreakStatementSegment"@.len() != "StructTypeSegment"@.len());
    reveal_strlit("TableReferenceSegment");
    assert("BreakStatementSegment"@[0] != "TableReferenceSegment"@[0]);
    reveal_strlit("TupleSegment");
    assert("BreakStatementSegment"@.len() != "TupleSegment"@.len());
    reveal_strlit("WildcardExpressionSegment");
    assert("BreakStatementSegment"@.len() != "WildcardExpressionSegment"@.len());
}

proof fn lemma_bigquery_part_4_keeps_break_statement_segment(d: DialectView)
    ensures
        bigquery_changes_part_4(d).element("BreakStatementSegment"@) == d.element("BreakStatementSegment"@),
{
    reveal_strlit("BreakStatementSegment");
    reveal_strlit("AlterMaterializedViewStatementSegment");
    assert("BreakStatementSegment"@.len() != "AlterMaterializedViewStatementSegment"@.len());
    reveal_strlit("AlterTableStatementSegment");
    assert("BreakStatementSegment"@.len() != "AlterTableStatementSegment"@.len());
    reveal_strlit("AlterViewStatementSegment");
    assert("BreakStatementSegment"@.len() != "AlterViewStatementSegment"@.len());
    reveal_strlit("ClusterBySegment");
    assert("BreakStatementSegment"@.len() != "ClusterBySegment"@.len());
    reveal_strlit("ColumnDefinitionSegment");
    assert("BreakStatementSegment"@.len() != "ColumnDefinitionSegment"@.len());
    reveal_strlit("CreateExternalTableStatementSegment");
    assert("BreakStatementSegment"@.len() != "CreateExternalTableStatementSegment"@.len());
    reveal_strlit("CreateMaterializedViewStatementSegment");
    assert("BreakStatementSegment"@.len() != "CreateMaterializedViewStatementSegment"@.len());
    reveal_strlit("CreateTableStatementSegment");
    assert("BreakStatementSegment"@.len() != "CreateTableStatementSegment"@.len());
    reveal_strlit("CreateViewStatementSegment");
    assert("BreakStatementSegment"@.len() != "CreateViewStatementSegment"@.len());
    reveal_strlit("DropMaterializedViewStatementSegment");
    assert("BreakStatementSegment"@.len() != "DropMaterializedViewStatementSegment"@.len());
    reveal_strlit("FromPivotExpressionSegment");
    assert("BreakStatementSegment"@.len() != "FromPivotExpressionSegment"@.len());
    reveal_strlit("InsertStatementSegment");
    assert("BreakStatementSegment"@.len() != "InsertStatementSegment"@.len());
    reveal_strlit("OptionsSegment");
    assert("BreakStatementSegment"@.len() != "OptionsSegment"@.len());
    reveal_strlit("ParameterizedSegment");
    assert("BreakStatementSegment"@.len() != "ParameterizedSegment"@.len());
    reveal_strlit("PartitionBySegment");
    assert("BreakStatementSegment"@.len() != "PartitionBySegment"@.len());
    reveal_strlit("PivotForClauseSegment");
    assert("BreakStatementSegment"@[0] != "PivotForClauseSegment"@[0]);
    reveal_strlit("SamplingExpressionSegment");
    assert("BreakStatementSegment"@.len() != "SamplingExpressionSegment"@.len());
    reveal_strlit("SetStatementSegment");
    assert("BreakStatementSegment"@.len() != "SetStatementSegment"@.len());
    reveal_strlit("UnpivotAliasExpressionSegment");
    assert("BreakStatementSegment"@.len() != "UnpivotAliasExpressionSegment"@.len());
}

proof fn lemma_bigquery_part_5_keeps_break_statement_segment(d: DialectView)
    ensures
        bigquery_changes_part_5(d).element("BreakStatementSegment"@) == d.element("BreakStatementSegment"@),
{
    reveal_strlit("BreakStatementSegment");
    reveal_strlit("DeleteStatementSegment");
    assert("BreakStatementSegment"@.len() != "DeleteStatementSegment"@.len());
    reveal_strlit("ExportStatementSegment");
    assert("BreakStatementSegment"@.len() != "ExportStatementSegment"@.len());
    reveal_strlit("LiteralGrammar");
    assert("BreakStatementSegment"@.len() != "LiteralGrammar"@.len());
    reveal_strlit("MergeInsertClauseSegment");
    assert("BreakStatementSegment"@.len() != "MergeInsertClauseSegment"@.len());
    reveal_strlit("MergeMatchSegment");
    assert("BreakStatementSegment"@.len() != "MergeMatchSegment"@.len());
    reveal_strlit("MergeNotMatchedBySourceClauseSegment");
    assert("BreakStatementSegment"@.len() != "MergeNotMatchedBySourceClauseSegment"@.len());
    reveal_strlit("MergeNotMatchedByTargetClauseSegment");
    assert("BreakStatementSegment"@.len() != "MergeNotMatchedByTargetClauseSegment"@.len());
    reveal_strlit("NumericLiteralSegment");
    assert("BreakStatementSegment"@[0] != "NumericLiteralSegment"@[0]);
    reveal_strlit("PostTableExpressionGrammar");
    assert("BreakStatementSegment"@.len() != "PostTableExpressionGrammar"@.len());
    reveal_strlit("ProcedureNameSegment");
    assert("BreakStatementSegment"@.len() != "ProcedureNameSegment"@.len());
    reveal_strlit("QuotedIdentifierSegment");
    assert("BreakStatementSegment"@.len() != "QuotedIdentifierSegment"@.len());
    reveal_strlit("QuotedLiteralSegment");
    assert("BreakStatementSegment"@.len() != "QuotedLiteralSegment"@.len());
}

/// After the BigQuery grammar changes, `BreakStatementSegment` is what their last change of that
/// name sets, whatever dialect they start from.
pub proof fn lemma_bigquery_changes_break_statement_segment(d: DialectView)
    ensures
        bigquery_grammar_changes(d).element("BreakStatementSegment"@) == Some(break_statement_segment_element()),
{
    reveal(bigquery_grammar_changes);
    let d0 = d;
    let d1 = bigquery_changes_part_0(d0);
    let d2 = bigquery_changes_part_1(d1);
    let d3 = bigquery_changes_part_2(d2);
    let d4 = bigquery_changes_part_3(d3);
    let d5 = bigquery_changes_part_4(d4);
    let d6 = bigquery_changes_part_5(d5);
    lemma_bigquery_part_1_sets_break_statement_segment(d1);
    lemma_bigquery_part_2_keeps_break_statement_segment(d2);
    lemma_bigquery_part_3_keeps_break_statement_segment(d3);
    lemma_bigquery_part_4_keeps_break_statement_segment(d4);
    lemma_bigquery_part_5_keeps_break_statement_segment(d5);
}


/// The BigQuery grammar changes make `BreakStatementSegment` a `break_statement`
/// node: the keyword `BREAK` alone; whatever dialect they start from.
pub proof fn law_bigquery_break_statement(d: DialectView)
    ensures
        ({
            let e = (ElementView::Node { kind: "break_statement"@, grammar: GrammarView::sequence(seq![GrammarView::keyword("BREAK"@)]) });
            &&& bigquery_grammar_changes(d).element("BreakStatementSegment"@) == Some(e)
        }),
{
    lemma_bigquery_changes_break_statement_segment(d);
}

proof fn lemma_bigquery_part_1_sets_leave_statement_segment(d: DialectView)
    ensures
        bigquery_changes_part_1(d).element("LeaveStatementSegment"@) == Some(leave_statement_segment_element()),
{
    reveal_strlit("LeaveStatementSegment");
    reveal_strlit("ContinueStatementSegment");
    assert("LeaveStatementSegment"@.len() != "ContinueStatementSegment"@.len());
    reveal_strlit("QualifyClauseSegment");
    assert("LeaveStatementSegment"@.len() != "QualifyClauseSegment"@.len());
    reveal_strlit("RaiseStatementSegment");
    assert("LeaveStatementSegment"@[0] != "RaiseStatementSegment"@[0]);
    reveal_strlit("SetExpressionSegment");
    assert("LeaveStatementSegment"@.len() != "SetExpressionSegment"@.len());
    reveal_strlit("SetOperatorSegment");
    assert("LeaveStatementSegment"@.len() != "SetOperatorSegment"@.len());
}

proof fn lemma_bigquery_part_2_keeps_leave_statement_segment(d: DialectView)
    ensures
        bigquery_changes_part_2(d).element("LeaveStatementSegment"@) == d.element("LeaveStatementSegment"@),
{
    reveal_strlit("LeaveStatementSegment");
    reveal_strlit("AssertStatementSegment");
    assert("LeaveStatementSegment"@.len() != "AssertStatementSegment"@.len());
    reveal_strlit("DateTimeFunctionContentsSegment");
    assert("LeaveStatementSegment"@.len() != "DateTimeFunctionContentsSegment"@.len());
    reveal_strlit("ExtractFunctionContentsSegment");
    assert("LeaveStatementSegment"@.len() != "ExtractFunctionContentsSegment"@.len());
    reveal_strlit("FileSegment");
    assert("LeaveStatementSegment"@.len() != "FileSegment"@.len());
    reveal_strlit("ForInStatementSegment");
    assert("LeaveStatementSegment"@[0] != "ForInStatementSegment"@[0]);
    reveal_strlit("ForInStatementsSegment");
    assert("LeaveStatementSegment"@.len() != "ForInStatementsSegment"@.len());
    reveal_strlit("IfStatementSegment");
    assert("LeaveStatementSegment"@.len() != "IfStatementSegment"@.len());
    reveal_strlit("IfStatementsSegment");
    assert("LeaveStatementSegment"@.len() != "IfStatementsSegment"@.len());
    reveal_strlit("IntervalExpressionSegment");
    assert("LeaveStatementSegment"@.len() != "IntervalExpressionSegment"@.len());
    reveal_strlit("LoopStatementSegment");
    assert("LeaveStatementSegment"@.len() != "LoopStatementSegment"@.len());
    reveal_strlit("LoopStatementsSegment");
    assert("LeaveStatementSegment"@[1] != "LoopStatementsSegment"@[1]);
    reveal_strlit("MultiStatementSegment");
    assert("LeaveStatementSegment"@[0] != "MultiStatementSegment"@[0]);
    reveal_strlit("NormalizeFunctionContentsSegment");
    assert("LeaveStatementSegment"@.len() != "NormalizeFunctionContentsSegment"@.len());
    reveal_strlit("RepeatStatementSegment");
    assert("LeaveStatementSegment"@.len() != "RepeatStatementSegment"@.len());
    reveal_strlit("RepeatStatementsSegment");
    assert("LeaveStatementSegment"@.len() != "RepeatStatementsSegment"@.len());
    reveal_strlit("SelectClauseModifierSegment");
    assert("LeaveStatementSegment"@.len() != "SelectClauseModifierSegment"@.len());
    reveal_strlit("StatementSegment");
    assert("LeaveStatementSegment"@.len() != "StatementSegment"@.len());
    reveal_strlit("UnorderedSelectStatementSegment");
    assert("LeaveStatementSegment"@.len() != "UnorderedSelectStatementSegment"@.len());
    reveal_strlit("WhileStatementSegment");
    assert("LeaveStatementSegment"@[0] != "WhileStatementSegment"@[0]);
    reveal_strlit("WhileStatementsSegment");
    assert("LeaveStatementSegment"@.len() != "WhileStatementsSegment"@.len());
}

proof fn lemma_bigquery_part_3_keeps_leave_statement_segment(d: DialectView)
    ensures
        bigquery_changes_part_3(d).element("LeaveStatementSegment"@) == d.element("LeaveStatementSegment"@),
{
    reveal_strlit("LeaveStatementSegment");
    reveal_strlit("ArrayExpressionSegment");
    assert("LeaveStatementSegment"@.len() != "ArrayExpressionSegment"@.len());
    reveal_strlit("ArrayFunctionContentsSegment");
    assert("LeaveStatementSegment"@.len() != "ArrayFunctionContentsSegment"@.len());
    reveal_strlit("ArrayFunctionNameSegment");
    assert("LeaveStatementSegment"@.len() != "ArrayFunctionNameSegment"@.len());
    reveal_strlit("ColumnReferenceSegment");
    assert("LeaveStatementSegment"@.len() != "ColumnReferenceSegment"@.len());
    reveal_strlit("DatatypeSegment");
    assert("LeaveStatementSegment"@.len() != "DatatypeSegment"@.len());
    reveal_strlit("DatePartWeekSegment");
    assert("LeaveStatementSegment"@.len() != "DatePartWeekSegment"@.len());
    reveal_strlit("DeclareStatementSegment");
    assert("LeaveStatementSegment"@.len() != "DeclareStatementSegment"@.len());
    reveal_strlit("ExceptClauseSegment");
    assert("LeaveStatementSegment"@.len() != "ExceptClauseSegment"@.len());
    reveal_strlit("ExtractFunctionNameSegment");
    assert("LeaveStatementSegment"@.len() != "ExtractFunctionNameSegment"@.len());
    reveal_strlit("FunctionDefinitionGrammar");
    assert("LeaveStatementSegment"@.len() != "FunctionDefinitionGrammar"@.len());
    reveal_strlit("FunctionNameSegment");
    assert("LeaveStatementSegment"@.len() != "FunctionNameSegment"@.len());
    reveal_strlit("FunctionSegment");
    assert("LeaveStatementSegment"@.len() != "FunctionSegment"@.len());
    reveal_strlit("NamedArgumentSegment");
    assert("LeaveStatementSegment"@.len() != "NamedArgumentSegment"@.len());
    reveal_strlit("NormalizeFunctionNameSegment");
    assert("LeaveStatementSegment"@.len() != "NormalizeFunctionNameSegment"@.len());
    reveal_strlit("ReplaceClauseSegment");
    assert("LeaveStatementSegment"@.len() != "ReplaceClauseSegment"@.len());
    reveal_strlit("SemiStructuredAccessorSegment");
    assert("LeaveStatementSegment"@.len() != "SemiStructuredAccessorSegment"@.len());
    reveal_strlit("StructTypeSegment");
    assert("LeaveStatementSegment"@.len() != "StructTypeSegment"@.len());
    reveal_strlit("TableReferenceSegment");
    assert("LeaveStatementSegment"@[0] != "TableReferenceSegment"@[0]);
    reveal_strlit("TupleSegment");
    assert("LeaveStatementSegment"@.len() != "TupleSegment"@.len());
    reveal_strlit("WildcardExpressionSegment");
    assert("LeaveStatementSegment"@.len() != "WildcardExpressionSegment"@.len());
}

proof fn lemma_bigquery_part_4_keeps_leave_statement_segment(d: DialectView)
    ensures
        bigquery_changes_part_4(d).element("LeaveStatementSegment"@) == d.element("LeaveStatementSegment"@),
{
    reveal_strlit("LeaveStatementSegment");
    reveal_strlit("AlterMaterializedViewStatementSegment");
    assert("LeaveStatementSegment"@.len() != "AlterMaterializedViewStatementSegment"@.len());
    reveal_strlit("AlterTableStatementSegment");
    assert("LeaveStatementSegment"@.len() != "AlterTableStatementSegment"@.len());
    reveal_strlit("AlterViewStatementSegment");
    assert("LeaveStatementSegment"@.len() != "AlterViewStatementSegment"@.len());
    reveal_strlit("ClusterBySegment");
    assert("LeaveStatementSegment"@.len() != "ClusterBySegment"@.len());
    reveal_strlit("ColumnDefinitionSegment");
    assert("LeaveStatementSegment"@.len() != "ColumnDefinitionSegment"@.len());
    reveal_strlit("CreateExternalTableStatementSegment");
    assert("LeaveStatementSegment"@.len() != "CreateExternalTableStatementSegment"@.len());
    reveal_strlit("CreateMaterializedViewStatementSegment");
    assert("LeaveStatementSegment"@.len() != "CreateMaterializedViewStatementSegment"@.len());
    reveal_strlit("CreateTableStatementSegment");
    assert("LeaveStatementSegment"@.len() != "CreateTableStatementSegment"@.len());
    reveal_strlit("CreateViewStatementSegment");
    assert("LeaveStatementSegment"@.len() != "CreateViewStatementSegment"@.len());
    reveal_strlit("DropMaterializedViewStatementSegment");
    assert("LeaveStatementSegment"@.len() != "DropMaterializedViewStatementSegment"@.len());
    reveal_strlit("FromPivotExpressionSegment");
    assert("LeaveStatementSegment"@.len() != "FromPivotExpressionSegment"@.len());
    reveal_strlit("InsertStatementSegment");
    assert("LeaveStatementSegment"@.len() != "InsertStatementSegment"@.len());
    reveal_strlit("OptionsSegment");
    assert("LeaveStatementSegment"@.len() != "OptionsSegment"@.len());
    reveal_strlit("ParameterizedSegment");
    assert("LeaveStatementSegment"@.len() != "ParameterizedSegment"@.len());
    reveal_strlit("PartitionBySegment");
    assert("LeaveStatementSegment"@.len() != "PartitionBySegment"@.len());
    reveal_strlit("PivotForClauseSegment");
    assert("LeaveStatementSegment"@[0] != "PivotForClauseSegment"@[0]);
    reveal_strlit("SamplingExpressionSegment");
    assert("LeaveStatementSegment"@.len() != "SamplingExpressionSegment"@.len());
    reveal_strlit("SetStatementSegment");
    assert("LeaveStatementSegment"@.len() != "SetStatementSegment"@.len());
    reveal_strlit("UnpivotAliasExpressionSegment");
    assert("LeaveStatementSegment"@.len() != "UnpivotAliasExpressionSegment"@.len());
}

proof fn lemma_bigquery_part_5_keeps_leave_statement_segment(d: DialectView)
    ensures
        bigquery_changes_part_5(d).element("LeaveStatementSegment"@) == d.element("LeaveStatementSegment"@),
{
    reveal_strlit("LeaveStatementSegment");
    reveal_strlit("DeleteStatementSegment");
    assert("LeaveStatementSegment"@.len() != "DeleteStatementSegment"@.len());
    reveal_strlit("ExportStatementSegment");
    assert("LeaveStatementSegment"@.len() != "ExportStatementSegment"@.len());
    reveal_strlit("LiteralGrammar");
    assert("LeaveStatementSegment"@.len() != "LiteralGrammar"@.len());
    reveal_strlit("MergeInsertClauseSegment");
    assert("LeaveStatementSegment"@.len() != "MergeInsertClauseSegment"@.len());
    reveal_strlit("MergeMatchSegment");
    assert("LeaveStatementSegment"@.len() != "MergeMatchSegment"@.len());
    reveal_strlit("MergeNotMatchedBySourceClauseSegment");
    assert("LeaveStatementSegment"@.len() != "MergeNotMatchedBySourceClauseSegment"@.len());
    reveal_strlit("MergeNotMatchedByTargetClauseSegment");
    assert("LeaveStatementSegment"@.len() != "MergeNotMatchedByTargetClauseSegment"@.len());
    reveal_strlit("NumericLiteralSegment");
    assert("LeaveStatementSegment"@[0] != "NumericLiteralSegment"@[0]);
    reveal_strlit("PostTableExpressionGrammar");
    assert("LeaveStatementSegment"@.len() != "PostTableExpressionGrammar"@.len());
    reveal_strlit("ProcedureNameSegment");
    assert("LeaveStatementSegment"@.len() != "ProcedureNameSegment"@.len());
    reveal_strlit("QuotedIdentifierSegment");
    assert("LeaveStatementSegment"@.len() != "QuotedIdentifierSegment"@.len());
    reveal_strlit("QuotedLiteralSegment");
    assert("LeaveStatementSegment"@.len() != "QuotedLiteralSegment"@.len());
}

/// After the BigQuery grammar changes, `LeaveStatementSegment` is what their last change of that
/// name sets, whatever dialect they start from.
pub proof fn lemma_bigquery_changes_leave_statement_segment(d: DialectView)
    ensures
        bigquery_grammar_changes(d).element("LeaveStatementSegment"@) == Some(leave_statement_segment_element()),
{
    reveal(bigquery_grammar_changes);
    let d0 = d;
    let d1 = bigquery_changes_part_0(d0);
    let d2 = bigquery_changes_part_1(d1);
    let d3 = bigquery_changes_part_2(d2);
    let d4 = bigquery_changes_part_3(d3);
    let d5 = bigquery_changes_part_4(d4);
    let d6 = bigquery_changes_part_5(d5);
    lemma_bigquery_part_1_sets_leave_statement_segment(d1);
    lemma_bigquery_part_2_keeps_leave_statement_segment(d2);
    lemma_bigquery_part_3_keeps_leave_statement_segment(d3);
    lemma_bigquery_part_4_keeps_leave_statement_segment(d4);
    lemma_bigquery_part_5_keeps_leave_statement_segment(d5);
}


/// The BigQuery grammar changes make `LeaveStatementSegment` a `leave_statement`
/// node: the keyword `LEAVE` alone; whatever dialect they start from.
pub proof fn law_bigquery_leave_statement(d: DialectView)
    ensures
        ({
            let e = (ElementView::Node { kind: "leave_statement"@, grammar: GrammarView::sequence(seq![GrammarView::keyword("LEAVE"@)]) });
            &&& bigquery_grammar_changes(d).element("LeaveStatementSegment"@) == Some(e)
        }),
{
    lemma_bigquery_changes_leave_statement_segment(d);
}

proof fn lemma_bigquery_part_1_sets_continue_statement_segment(d: DialectView)
    ensures
        bigquery_changes_part_1(d).element("ContinueStatementSegment"@) == Some(continue_statement_segment_element()),
{
    reveal_strlit("ContinueStatementSegment");
    reveal_strlit("QualifyClauseSegment");
    assert("ContinueStatementSegment"@.len() != "QualifyClauseSegment"@.len());
    reveal_strlit("RaiseStatementSegment");
    assert("ContinueStatementSegment"@.len() != "RaiseStatementSegment"@.len());
    reveal_strlit("SetExpressionSegment");
    assert("ContinueStatementSegment"@.len() != "SetExpressionSegment"@.len());
    reveal_strlit("SetOperatorSegment");
    assert("ContinueStatementSegment"@.len() != "SetOperatorSegment"@.len());
}

proof fn lemma_bigquery_part_2_keeps_continue_statement_segment(d: DialectView)
    ensures
        bigquery_changes_part_2(d).element("ContinueStatementSegment"@) == d.element("ContinueStatementSegment"@),
{
    reveal_strlit("ContinueStatementSegment");
    reveal_strlit("AssertStatementSegment");
    assert("ContinueStatementSegment"@.len() != "AssertStatementSegment"@.len());
    reveal_strlit("DateTimeFunctionContentsSegment");
    assert("ContinueStatementSegment"@.len() != "DateTimeFunctionContentsSegment"@.len());
    reveal_strlit("ExtractFunctionContentsSegment");
    assert("ContinueStatementSegment"@.len() != "ExtractFunctionContentsSegment"@.len());
    reveal_strlit("FileSegment");
    assert("ContinueStatementSegment"@.len() != "FileSegment"@.len());
    reveal_strlit("ForInStatementSegment");
    assert("ContinueStatementSegment"@.len() != "ForInStatementSegment"@.len());
    reveal_strlit("ForInStatementsSegment");
    assert("ContinueStatementSegment"@.len() != "ForInStatementsSegment"@.len());
    reveal_strlit("IfStatementSegment");
    assert("ContinueStatementSegment"@.len() != "IfStatementSegment"@.len());
    reveal_strlit("IfStatementsSegment");
    assert("ContinueStatementSegment"@.len() != "IfStatementsSegment"@.len());
    reveal_strlit("IntervalExpressionSegment");
    assert("ContinueStatementSegment"@.len() != "IntervalExpressionSegment"@.len());
    reveal_strlit("LoopStatementSegment");
    assert("ContinueStatementSegment"@.len() != "LoopStatementSegment"@.len());
    reveal_strlit("LoopStatementsSegment");
    assert("ContinueStatementSegment"@.len() != "LoopStatementsSegment"@.len());
    reveal_strlit("MultiStatementSegment");
    assert("ContinueStatementSegment"@.len() != "MultiStatementSegment"@.len());
    reveal_strlit("NormalizeFunctionContentsSegment");
    assert("ContinueStatementSegment"@.len() != "NormalizeFunctionContentsSegment"@.len());
    reveal_strlit("RepeatStatementSegment");
    assert("ContinueStatementSegment"@.len() != "RepeatStatementSegment"@.len());
    reveal_strlit("RepeatStatementsSegment");
    assert("ContinueStatementSegment"@.len() != "RepeatStatementsSegment"@.len());
    reveal_strlit("SelectClauseModifierSegment");
    assert("ContinueStatementSegment"@.len() != "SelectClauseModifierSegment"@.len());
    reveal_strlit("StatementSegment");
    assert("ContinueStatementSegment"@.len() != "StatementSegment"@.len());
    reveal_strlit("UnorderedSelectStatementSegment");
    assert("ContinueStatementSegment"@.len() != "UnorderedSelectStatementSegment"@.len());
    reveal_strlit("WhileStatementSegment");
    assert("ContinueStatementSegment"@.len() != "WhileStatementSegment"@.len());
    reveal_strlit("WhileStatementsSegment");
    assert("ContinueStatementSegment"@.len() != "WhileStatementsSegment"@.len());
}

proof fn lemma_bigquery_part_3_keeps_continue_statement_segment(d: DialectView)
    ensures
        bigquery_changes_part_3(d).element("ContinueStatementSegment"@) == d.element("ContinueStatementSegment"@),
{
    reveal_strlit("ContinueStatementSegment");
    reveal_strlit("ArrayExpressionSegment");
    assert("ContinueStatementSegment"@.len() != "ArrayExpressionSegment"@.len());
    reveal_strlit("ArrayFunctionContentsSegment");
    assert("ContinueStatementSegment"@.len() != "ArrayFunctionContentsSegment"@.len());
    reveal_strlit("ArrayFunctionNameSegment");
    assert("ContinueStatementSegment"@[0] != "ArrayFunctionNameSegment"@[0]);
    reveal_strlit("ColumnReferenceSegment");
    assert("ContinueStatementSegment"@.len() != "ColumnReferenceSegment"@.len());
    reveal_strlit("DatatypeSegment");
    assert("ContinueStatementSegment"@.len() != "DatatypeSegment"@.len());
    reveal_strlit("DatePartWeekSegment");
    assert("ContinueStatementSegment"@.len() != "DatePartWeekSegment"@.len());
    reveal_strlit("DeclareStatementSegment");
    assert("ContinueStatementSegment"@.len() != "DeclareStatementSegment"@.len());
    reveal_strlit("ExceptClauseSegment");
    assert("ContinueStatementSegment"@.len() != "ExceptClauseSegment"@.len());
    reveal_strlit("ExtractFunctionNameSegment");
    assert("ContinueStatementSegment"@.len() != "ExtractFunctionNameSegment"@.len());
    reveal_strlit("FunctionDefinitionGrammar");
    assert("ContinueStatementSegment"@.len() != "FunctionDefinitionGrammar"@.len());
    reveal_strlit("FunctionNameSegment");
    assert("ContinueStatementSegment"@.len() != "FunctionNameSegment"@.len());
    reveal_strlit("FunctionSegment");
    assert("ContinueStatementSegment"@.len() != "FunctionSegment"@.len());
    reveal_strlit("NamedArgumentSegment");
    assert("ContinueStatementSegment"@.len() != "NamedArgumentSegment"@.len());
    reveal_strlit("NormalizeFunctionNameSegment");
    assert("ContinueStatementSegment"@.len() != "NormalizeFunctionNameSegment"@.len());
    reveal_strlit("ReplaceClauseSegment");
    assert("ContinueStatementSegment"@.len() != "ReplaceClauseSegment"@.len());
    reveal_strlit("SemiStructuredAccessorSegment");
    assert("ContinueStatementSegment"@.len() != "SemiStructuredAccessorSegment"@.len());
    reveal_strlit("StructTypeSegment");
    assert("ContinueStatementSegment"@.len() != "StructTypeSegment"@.len());
    reveal_strlit("TableReferenceSegment");
    assert("ContinueStatementSegment"@.len() != "TableReferenceSegment"@.len());
    reveal_strlit("TupleSegment");
    assert("ContinueStatementSegment"@.len() != "TupleSegment"@.len());
    reveal_strlit("WildcardExpressionSegment");
    assert("ContinueStatementSegment"@.len() != "WildcardExpressionSegment"@.len());
}

proof fn lemma_bigquery_part_4_keeps_continue_statement_segment(d: DialectView)
    ensures
        bigquery_changes_part_4(d).element("ContinueStatementSegment"@) == d.element("ContinueStatementSegment"@),
{
    reveal_strlit("ContinueStatementSegment");
    reveal_strlit("AlterMaterializedViewStatementSegment");
    assert("ContinueStatementSegment"@.len() != "AlterMaterializedViewStatementSegment"@.len());
    reveal_strlit("AlterTableStatementSegment");
    assert("ContinueStatementSegment"@.len() != "AlterTableStatementSegment"@.len());
    reveal_strlit("AlterViewStatementSegment");
    assert("ContinueStatementSegment"@.len() != "AlterViewStatementSegment"@.len());
    reveal_strlit("ClusterBySegment");
    assert("ContinueStatementSegment"@.len() != "ClusterBySegment"@.len());
    reveal_strlit("ColumnDefinitionSegment");
    assert("ContinueStatementSegment"@.len() != "ColumnDefinitionSegment"@.len());
    reveal_strlit("CreateExternalTableStatementSegment");
    assert("ContinueStatementSegment"@.len() != "CreateExternalTableStatementSegment"@.len());
    reveal_strlit("CreateMaterializedViewStatementSegment");
    assert("ContinueStatementSegment"@.len() != "CreateMaterializedViewStatementSegment"@.len());
    reveal_strlit("CreateTableStatementSegment");
    assert("ContinueStatementSegment"@.len() != "CreateTableStatementSegment"@.len());
    reveal_strlit("CreateViewStatementSegment");
    assert("ContinueStatementSegment"@.len() != "CreateViewStatementSegment"@.len());
    reveal_strlit("DropMaterializedViewStatementSegment");
    assert("ContinueStatementSegment"@.len() != "DropMaterializedViewStatementSegment"@.len());
    reveal_strlit("FromPivotExpressionSegment");
    assert("ContinueStatementSegment"@.len() != "FromPivotExpressionSegment"@.len());
    reveal_strlit("InsertStatementSegment");
    assert("ContinueStatementSegment"@.len() != "InsertStatementSegment"@.len());
    reveal_strlit("OptionsSegment");
    assert("ContinueStatementSegment"@.len() != "OptionsSegment"@.len());
    reveal_strlit("ParameterizedSegment");
    assert("ContinueStatementSegment"@.len() != "ParameterizedSegment"@.len());
    reveal_strlit("PartitionBySegment");
    assert("ContinueStatementSegment"@.len() != "PartitionBySegment"@.len());
    reveal_strlit("PivotForClauseSegment");
    assert("ContinueStatementSegment"@.len() != "PivotForClauseSegment"@.len());
    reveal_strlit("SamplingExpressionSegment");
    assert("ContinueStatementSegment"@.len() != "SamplingExpressionSegment"@.len());
    reveal_strlit("SetStatementSegment");
    assert("ContinueStatementSegment"@.len() != "SetStatementSegment"@.len());
    reveal_strlit("UnpivotAliasExpressionSegment");
    assert("ContinueStatementSegment"@.len() != "UnpivotAliasExpressionSegment"@.len());
}

proof fn lemma_bigquery_part_5_keeps_continue_statement_segment(d: DialectView)
    ensures
        bigquery_changes_part_5(d).element("ContinueStatementSegment"@) == d.element("ContinueStatementSegment"@),
{
    reveal_strlit("ContinueStatementSegment");
    reveal_strlit("DeleteStatementSegment");
    assert("ContinueStatementSegment"@.len() != "DeleteStatementSegment"@.len());
    reveal_strlit("ExportStatementSegment");
    assert("ContinueStatementSegment"@.len() != "ExportStatementSegment"@.len());
    reveal_strlit("LiteralGrammar");
    assert("ContinueStatementSegment"@.len() != "LiteralGrammar"@.len());
    reveal_strlit("MergeInsertClauseSegment");
    assert("ContinueStatementSegment"@[0] != "MergeInsertClauseSegment"@[0]);
    reveal_strlit("MergeMatchSegment");
    assert("ContinueStatementSegment"@.len() != "MergeMatchSegment"@.len());
    reveal_strlit("MergeNotMatchedBySourceClauseSegment");
    assert("ContinueStatementSegment"@.len() != "MergeNotMatchedBySourceClauseSegment"@.len());
    reveal_strlit("MergeNotMatchedByTargetClauseSegment");
    assert("ContinueStatementSegment"@.len() != "MergeNotMatchedByTargetClauseSegment"@.len());
    reveal_strlit("NumericLiteralSegment");
    assert("ContinueStatementSegment"@.len() != "NumericLiteralSegment"@.len());
    reveal_strlit("PostTableExpressionGrammar");
    assert("ContinueStatementSegment"@.len() != "PostTableExpressionGrammar"@.len());
    reveal_strlit("ProcedureNameSegment");
    assert("ContinueStatementSegment"@.len() != "ProcedureNameSegment"@.len());
    reveal_strlit("QuotedIdentifierSegment");
    assert("ContinueStatementSegment"@.len() != "QuotedIdentifierSegment"@.len());
    reveal_strlit("QuotedLiteralSegment");
    assert("ContinueStatementSegment"@.len() != "QuotedLiteralSegment"@.len());
}

/// After the BigQuery grammar changes, `ContinueStatementSegment` is what their last change of that
/// name sets, whatever dialect they start from.
pub proof fn lemma_bigquery_changes_continue_statement_segment(d: DialectView)
    ensures
        bigquery_grammar_changes(d).element("ContinueStatementSegment"@) == Some(continue_statement_segment_element()),
{
    reveal(bigquery_grammar_changes);
    let d0 = d;
    let d1 = bigquery_changes_part_0(d0);
    let d2 = bigquery_changes_part_1(d1);
    let d3 = bigquery_changes_part_2(d2);
    let d4 = bigquery_changes_part_3(d3);
    let d5 = bigquery_changes_part_4(d4);
    let d6 = bigquery_changes_part_5(d5);
    lemma_bigquery_part_1_sets_continue_statement_segment(d1);
    lemma_bigquery_part_2_keeps_continue_statement_segment(d2);
    lemma_bigquery_part_3_keeps_continue_statement_segment(d3);
    lemma_bigquery_part_4_keeps_continue_statement_segment(d4);
    lemma_bigquery_part_5_keeps_continue_statement_segment(d5);
}


/// The BigQuery grammar changes make `ContinueStatementSegment` a
/// `continue_statement` node: `CONTINUE` or `ITERATE`; whatever dialect they start from.
pub proof fn law_bigquery_continue_statement(d: DialectView)
    ensures
        ({
            let e = (ElementView::Node { kind: "continue_statement"@, grammar: GrammarView::one_of(seq![GrammarView::keyword("CONTINUE"@), GrammarView::keyword("ITERATE"@)]) });
            &&& bigquery_grammar_changes(d).element("ContinueStatementSegment"@) == Some(e)
        }),
{
    lemma_bigquery_changes_continue_statement_segment(d);
}

proof fn lemma_bigquery_part_2_sets_loop_statement_segment(d: DialectView)
    ensures
        bigquery_changes_part_2(d).element("LoopStatementSegment"@) == Some(loop_statement_segment_element()),
{
    reveal_strlit("LoopStatementSegment");
    reveal_strlit("DateTimeFunctionContentsSegment");
    assert("LoopStatementSegment"@.len() != "DateTimeFunctionContentsSegment"@.len());
    reveal_strlit("ExtractFunctionContentsSegment");
    assert("LoopStatementSegment"@.len() != "ExtractFunctionContentsSegment"@.len());
    reveal_strlit("IntervalExpressionSegment");
    assert("LoopStatementSegment"@.len() != "IntervalExpressionSegment"@.len());
    reveal_strlit("NormalizeFunctionContentsSegment");
    assert("LoopStatementSegment"@.len() != "NormalizeFunctionContentsSegment"@.len());
    reveal_strlit("SelectClauseModifierSegment");
    assert("LoopStatementSegment"@.len() != "SelectClauseModifierSegment"@.len());
    reveal_strlit("WhileStatementSegment");
    assert("LoopStatementSegment"@.len() != "WhileStatementSegment"@.len());
    reveal_strlit("WhileStatementsSegment");
    assert("LoopStatementSegment"@.len() != "WhileStatementsSegment"@.len());
}

proof fn lemma_bigquery_part_3_keeps_loop_statement_segment(d: DialectView)
    ensures
        bigquery_changes_part_3(d).element("LoopStatementSegment"@) == d.element("LoopStatementSegment"@),
{
    reveal_strlit("LoopStatementSegment");
    reveal_strlit("ArrayExpressionSegment");
    assert("LoopStatementSegment"@.len() != "ArrayExpressionSegment"@.len());
    reveal_strlit("ArrayFunctionContentsSegment");
    assert("LoopStatementSegment"@.len() != "ArrayFunctionContentsSegment"@.len());
    reveal_strlit("ArrayFunctionNameSegment");
    assert("LoopStatementSegment"@.len() != "ArrayFunctionNameSegment"@.len());
    reveal_strlit("ColumnReferenceSegment");
    assert("LoopStatementSegment"@.len() != "ColumnReferenceSegment"@.len());
    reveal_strlit("DatatypeSegment");
    assert("LoopStatementSegment"@.len() != "DatatypeSegment"@.len());
    reveal_strlit("DatePartWeekSegment");
    assert("LoopStatementSegment"@.len() != "DatePartWeekSegment"@.len());
    reveal_strlit("DeclareStatementSegment");
    assert("LoopStatementSegment"@.len() != "DeclareStatementSegment"@.len());
    reveal_strlit("ExceptClauseSegment");
    assert("LoopStatementSegment"@.len() != "ExceptClauseSegment"@.len());
    reveal_strlit("ExtractFunctionNameSegment");
    assert("LoopStatementSegment"@.len() != "ExtractFunctionNameSegment"@.len());
    reveal_strlit("FunctionDefinitionGrammar");
    assert("LoopStatementSegment"@.len() != "FunctionDefinitionGrammar"@.len());
    reveal_strlit("FunctionNameSegment");
    assert("LoopStatementSegment"@.len() != "FunctionNameSegment"@.len());
    reveal_strlit("FunctionSegment");
    assert("LoopStatementSegment"@.len() != "FunctionSegment"@.len());
    reveal_strlit("NamedArgumentSegment");
    assert("LoopStatementSegment"@[0] != "NamedArgumentSegment"@[0]);
    reveal_strlit("NormalizeFunctionNameSegment");
    assert("LoopStatementSegment"@.len() != "NormalizeFunctionNameSegment"@.len());
    reveal_strlit("ReplaceClauseSegment");
    assert("LoopStatementSegment"@[0] != "ReplaceClauseSegment"@[0]);
    reveal_strlit("SemiStructuredAccessorSegment");
    assert("LoopStatementSegment"@.len() != "SemiStructuredAccessorSegment"@.len());
    reveal_strlit("StructTypeSegment");
    assert("LoopStatementSegment"@.len() != "StructTypeSegment"@.len());
    reveal_strlit("TableReferenceSegment");
    assert("LoopStatementSegment"@.len() != "TableReferenceSegment"@.len());
    reveal_strlit("TupleSegment");
    assert("LoopStatementSegment"@.len() != "TupleSegment"@.len());
    reveal_strlit("WildcardExpressionSegment");
    assert("LoopStatementSegment"@.len() != "WildcardExpressionSegment"@.len());
}

proof fn lemma_bigquery_part_4_keeps_loop_statement_segment(d: DialectView)
    ensures
        bigquery_changes_part_4(d).element("LoopStatementSegment"@) == d.element("LoopStatementSegment"@),
{
    reveal_strlit("LoopStatementSegment");
    reveal_strlit("AlterMaterializedViewStatementSegment");
    assert("LoopStatementSegment"@.len() != "AlterMaterializedViewStatementSegment"@.len());
    reveal_strlit("AlterTableStatementSegment");
    assert("LoopStatementSegment"@.len() != "AlterTableStatementSegment"@.len());
    reveal_strlit("AlterViewStatementSegment");
    assert("LoopStatementSegment"@.len() != "AlterViewStatementSegment"@.len());
    reveal_strlit("ClusterBySegment");
    assert("LoopStatementSegment"@.len() != "ClusterBySegment"@.len());
    reveal_strlit("ColumnDefinitionSegment");
    assert("LoopStatementSegment"@.len() != "ColumnDefinitionSegment"@.len());
    reveal_strlit("CreateExternalTableStatementSegment");
    assert("LoopStatementSegment"@.len() != "CreateExternalTableStatementSegment"@.len());
    reveal_strlit("CreateMaterializedViewStatementSegment");
    assert("LoopStatementSegment"@.len() != "CreateMaterializedViewStatementSegment"@.len());
    reveal_strlit("CreateTableStatementSegment");
    assert("LoopStatementSegment"@.len() != "CreateTableStatementSegment"@.len());
    reveal_strlit("CreateViewStatementSegment");
    assert("LoopStatementSegment"@.len() != "CreateViewStatementSegment"@.len());
    reveal_strlit("DropMaterializedViewStatementSegment");
    assert("LoopStatementSegment"@.len() != "DropMaterializedViewStatementSegment"@.len());
    reveal_strlit("FromPivotExpressionSegment");
    assert("LoopStatementSegment"@.len() != "FromPivotExpressionSegment"@.len());
    reveal_strlit("InsertStatementSegment");
    assert("LoopStatementSegment"@.len() != "InsertStatementSegment"@.len());
    reveal_strlit("OptionsSegment");
    assert("LoopStatementSegment"@.len() != "OptionsSegment"@.len());
    reveal_strlit("ParameterizedSegment");
    assert("LoopStatementSegment"@[0] != "ParameterizedSegment"@[0]);
    reveal_strlit("PartitionBySegment");
    assert("LoopStatementSegment"@.len() != "PartitionBySegment"@.len());
    reveal_strlit("PivotForClauseSegment");
    assert("LoopStatementSegment"@.len() != "PivotForClauseSegment"@.len());
    reveal_strlit("SamplingExpressionSegment");
    assert("LoopStatementSegment"@.len() != "SamplingExpressionSegment"@.len());
    reveal_strlit("SetStatementSegment");
    assert("LoopStatementSegment"@.len() != "SetStatementSegment"@.len());
    reveal_strlit("UnpivotAliasExpressionSegment");
    assert("LoopStatementSegment"@.len() != "UnpivotAliasExpressionSegment"@.len());
}

proof fn lemma_bigquery_part_5_keeps_loop_statement_segment(d: DialectView)
    ensures
        bigquery_changes_part_5(d).element("LoopStatementSegment"@) == d.element("LoopStatementSegment"@),
{
    reveal_strlit("LoopStatementSegment");
    reveal_strlit("DeleteStatementSegment");
    assert("LoopStatementSegment"@.len() != "DeleteStatementSegment"@.len());
    reveal_strlit("ExportStatementSegment");
    assert("LoopStatementSegment"@.len() != "ExportStatementSegment"@.len());
    reveal_strlit("LiteralGrammar");
    assert("LoopStatementSegment"@.len() != "LiteralGrammar"@.len());
    reveal_strlit("MergeInsertClauseSegment");
    assert("LoopStatementSegment"@.len() != "MergeInsertClauseSegment"@.len());
    reveal_strlit("MergeMatchSegment");
    assert("LoopStatementSegment"@.len() != "MergeMatchSegment"@.len());
    reveal_strlit("MergeNotMatchedBySourceClauseSegment");
    assert("LoopStatementSegment"@.len() != "MergeNotMatchedBySourceClauseSegment"@.len());
    reveal_strlit("MergeNotMatchedByTargetClauseSegment");
    assert("LoopStatementSegment"@.len() != "MergeNotMatchedByTargetClauseSegment"@.len());
    reveal_strlit("NumericLiteralSegment");
    assert("LoopStatementSegment"@.len() != "NumericLiteralSegment"@.len());
    reveal_strlit("PostTableExpressionGrammar");
    assert("LoopStatementSegment"@.len() != "PostTableExpressionGrammar"@.len());
    reveal_strlit("ProcedureNameSegment");
    assert("LoopStatementSegment"@[0] != "ProcedureNameSegment"@[0]);
    reveal_strlit("QuotedIdentifierSegment");
    assert("LoopStatementSegment"@.len() != "QuotedIdentifierSegment"@.len());
    reveal_strlit("QuotedLiteralSegment");
    assert("LoopStatementSegment"@[0] != "QuotedLiteralSegment"@[0]);
}

/// After the BigQuery grammar changes, `LoopStatementSegment` is what their last change of that
/// name sets, whatever dialect they start from.
pub proof fn lemma_bigquery_changes_loop_statement_segment(d: DialectView)
    ensures
        bigquery_grammar_changes(d).element("LoopStatementSegment"@) == Some(loop_statement_segment_element()),
{
    reveal(bigquery_grammar_changes);
    let d0 = d;
    let d1 = bigquery_changes_part_0(d0);
    let d2 = bigquery_changes_part_1(d1);
    let d3 = bigquery_changes_part_2(d2);
    let d4 = bigquery_changes_part_3(d3);
    let d5 = bigquery_changes_part_4(d4);
    let d6 = bigquery_changes_part_5(d5);
    lemma_bigquery_part_2_sets_loop_statement_segment(d2);
    lemma_bigquery_part_3_keeps_loop_statement_segment(d3);
    lemma_bigquery_part_4_keeps_loop_statement_segment(d4);
    lemma_bigquery_part_5_keeps_loop_statement_segment(d5);
}


/// The BigQuery grammar changes make `LoopStatementSegment` a `loop_statement`
/// node: `LOOP`, an indent, the statements of the loop, a dedent, then
/// `END LOOP`; whatever dialect they start from.
pub proof fn law_bigquery_loop_statement(d: DialectView)
    ensures
        ({
            let e = (ElementView::Node { kind: "loop_statement"@, grammar: GrammarView::sequence(seq![GrammarView::keyword("LOOP"@), GrammarView::Indent, GrammarView::reference("LoopStatementsSegment"@), GrammarView::Dedent, GrammarView::keyword("END"@), GrammarView::keyword("LOOP"@)]) });
            &&& bigquery_grammar_changes(d).element("LoopStatementSegment"@) == Some(e)
        }),
{
    lemma_bigquery_changes_loop_statement_segment(d);
}

proof fn lemma_bigquery_part_2_sets_while_statement_segment(d: DialectView)
    ensures
        bigquery_changes_part_2(d).element("WhileStatementSegment"@) == Some(while_statement_segment_element()),
{
    reveal_strlit("WhileStatementSegment");
    reveal_strlit("DateTimeFunctionContentsSegment");
    assert("WhileStatementSegment"@.len() != "DateTimeFunctionContentsSegment"@.len());
    reveal_strlit("ExtractFunctionContentsSegment");
    assert("WhileStatementSegment"@.len() != "ExtractFunctionContentsSegment"@.len());
    reveal_strlit("IntervalExpressionSegment");
    assert("WhileStatementSegment"@.len() != "IntervalExpressionSegment"@.len());
    reveal_strlit("NormalizeFunctionContentsSegment");
    assert("WhileStatementSegment"@.len() != "NormalizeFunctionContentsSegment"@.len());
    reveal_strlit("SelectClauseModifierSegment");
    assert("WhileStatementSegment"@.len() != "SelectClauseModifierSegment"@.len());
}

proof fn lemma_bigquery_part_3_keeps_while_statement_segment(d: DialectView)
    ensures
        bigquery_changes_part_3(d).element("WhileStatementSegment"@) == d.element("WhileStatementSegment"@),
{
    reveal_strlit("WhileStatementSegment");
    reveal_strlit("ArrayExpressionSegment");
    assert("WhileStatementSegment"@.len() != "ArrayExpressionSegment"@.len());
    reveal_strlit("ArrayFunctionContentsSegment");
    assert("WhileStatementSegment"@.len() != "ArrayFunctionContentsSegment"@.len());
    reveal_strlit("ArrayFunctionNameSegment");
    assert("WhileStatementSegment"@.len() != "ArrayFunctionNameSegment"@.len());
    reveal_strlit("ColumnReferenceSegment");
    assert("WhileStatementSegment"@.len() != "ColumnReferenceSegment"@.len());
    reveal_strlit("DatatypeSegment");
    assert("WhileStatementSegment"@.len() != "DatatypeSegment"@.len());
    reveal_strlit("DatePartWeekSegment");
    assert("WhileStatementSegment"@.len() != "DatePartWeekSegment"@.len());
    reveal_strlit("DeclareStatementSegment");
    assert("WhileStatementSegment"@.len() != "DeclareStatementSegment"@.len());
    reveal_strlit("ExceptClauseSegment");
    assert("WhileStatementSegment"@.len() != "ExceptClauseSegment"@.len());
    reveal_strlit("ExtractFunctionNameSegment");
    assert("WhileStatementSegment"@.len() != "ExtractFunctionNameSegment"@.len());
    reveal_strlit("FunctionDefinitionGrammar");
    assert("WhileStatementSegment"@.len() != "FunctionDefinitionGrammar"@.len());
    reveal_strlit("FunctionNameSegment");
    assert("WhileStatementSegment"@.len() != "FunctionNameSegment"@.len());
    reveal_strlit("FunctionSegment");
    assert("WhileStatementSegment"@.len() != "FunctionSegment"@.len());
    reveal_strlit("NamedArgumentSegment");
    assert("WhileStatementSegment"@.len() != "NamedArgumentSegment"@.len());
    reveal_strlit("NormalizeFunctionNameSegment");
    assert("WhileStatementSegment"@.len() != "NormalizeFunctionNameSegment"@.len());
    reveal_strlit("ReplaceClauseSegment");
    assert("WhileStatementSegment"@.len() != "ReplaceClauseSegment"@.len());
    reveal_strlit("SemiStructuredAccessorSegment");
    assert("WhileStatementSegment"@.len() != "SemiStructuredAccessorSegment"@.len());
    reveal_strlit("StructTypeSegment");
    assert("WhileStatementSegment"@.len() != "StructTypeSegment"@.len());
    reveal_strlit("TableReferenceSegment");
    assert("WhileStatementSegment"@[0] != "TableReferenceSegment"@[0]);
    reveal_strlit("TupleSegment");
    assert("WhileStatementSegment"@.len() != "TupleSegment"@.len());
    reveal_strlit("WildcardExpressionSegment");
    assert("WhileStatementSegment"@.len() != "WildcardExpressionSegment"@.len());
}

proof fn lemma_bigquery_part_4_keeps_while_statement_segment(d: DialectView)
    ensures
        bigquery_changes_part_4(d).element("WhileStatementSegment"@) == d.element("WhileStatementSegment"@),
{
    reveal_strlit("WhileStatementSegment");
    reveal_strlit("AlterMaterializedViewStatementSegment");
    assert("WhileStatementSegment"@.len() != "AlterMaterializedViewStatementSegment"@.len());
    reveal_strlit("AlterTableStatementSegment");
    assert("WhileStatementSegment"@.len() != "AlterTableStatementSegment"@.len());
    reveal_strlit("AlterViewStatementSegment");
    assert("WhileStatementSegment"@.len() != "AlterViewStatementSegment"@.len());
    reveal_strlit("ClusterBySegment");
    assert("WhileStatementSegment"@.len() != "ClusterBySegment"@.len());
    reveal_strlit("ColumnDefinitionSegment");
    assert("WhileStatementSegment"@.len() != "ColumnDefinitionSegment"@.len());
    reveal_strlit("CreateExternalTableStatementSegment");
    assert("WhileStatementSegment"@.len() != "CreateExternalTableStatementSegment"@.len());
    reveal_strlit("CreateMaterializedViewStatementSegment");
    assert("WhileStatementSegment"@.len() != "CreateMaterializedViewStatementSegment"@.len());
    reveal_strlit("CreateTableStatementSegment");
    assert("WhileStatementSegment"@.len() != "CreateTableStatementSegment"@.len());
    reveal_strlit("CreateViewStatementSegment");
    assert("WhileStatementSegment"@.len() != "CreateViewStatementSegment"@.len());
    reveal_strlit("DropMaterializedViewStatementSegment");
    assert("WhileStatementSegment"@.len() != "DropMaterializedViewStatementSegment"@.len());
    reveal_strlit("FromPivotExpressionSegment");
    assert("WhileStatementSegment"@.len() != "FromPivotExpressionSegment"@.len());
    reveal_strlit("InsertStatementSegment");
    assert("WhileStatementSegment"@.len() != "InsertStatementSegment"@.len());
    reveal_strlit("OptionsSegment");
    assert("WhileStatementSegment"@.len() != "OptionsSegment"@.len());
    reveal_strlit("ParameterizedSegment");
    assert("WhileStatementSegment"@.len() != "ParameterizedSegment"@.len());
    reveal_strlit("PartitionBySegment");
    assert("WhileStatementSegment"@.len() != "PartitionBySegment"@.len());
    reveal_strlit("PivotForClauseSegment");
    assert("WhileStatementSegment"@[0] != "PivotForClauseSegment"@[0]);
    reveal_strlit("SamplingExpressionSegment");
    assert("WhileStatementSegment"@.len() != "SamplingExpressionSegment"@.len());
    reveal_strlit("SetStatementSegment");
    assert("WhileStatementSegment"@.len() != "SetStatementSegment"@.len());
    reveal_strlit("UnpivotAliasExpressionSegment");
    assert("WhileStatementSegment"@.len() != "UnpivotAliasExpressionSegment"@.len());
}

proof fn lemma_bigquery_part_5_keeps_while_statement_segment(d: DialectView)
    ensures
        bigquery_changes_part_5(d).element("WhileStatementSegment"@) == d.element("WhileStatementSegment"@),
{
    reveal_strlit("WhileStatementSegment");
    reveal_strlit("DeleteStatementSegment");
    assert("WhileStatementSegment"@.len() != "DeleteStatementSegment"@.len());
    reveal_strlit("ExportStatementSegment");
    assert("WhileStatementSegment"@.len() != "ExportStatementSegment"@.len());
    reveal_strlit("LiteralGrammar");
    assert("WhileStatementSegment"@.len() != "LiteralGrammar"@.len());
    reveal_strlit("MergeInsertClauseSegment");
    assert("WhileStatementSegment"@.len() != "MergeInsertClauseSegment"@.len());
    reveal_strlit("MergeMatchSegment");
    assert("WhileStatementSegment"@.len() != "MergeMatchSegment"@.len());
    reveal_strlit("MergeNotMatchedBySourceClauseSegment");
    assert("WhileStatementSegment"@.len() != "MergeNotMatchedBySourceClauseSegment"@.len());
    reveal_strlit("MergeNotMatchedByTargetClauseSegment");
    assert("WhileStatementSegment"@.len() != "MergeNotMatchedByTargetClauseSegment"@.len());
    reveal_strlit("NumericLiteralSegment");
    assert("WhileStatementSegment"@[0] != "NumericLiteralSegment"@[0]);
    reveal_strlit("PostTableExpressionGrammar");
    assert("WhileStatementSegment"@.len() != "PostTableExpressionGrammar"@.len());
    reveal_strlit("ProcedureNameSegment");
    assert("WhileStatementSegment"@.len() != "ProcedureNameSegment"@.len());
    reveal_strlit("QuotedIdentifierSegment");
    assert("WhileStatementSegment"@.len() != "QuotedIdentifierSegment"@.len());
    reveal_strlit("QuotedLiteralSegment");
    assert("WhileStatementSegment"@.len() != "QuotedLiteralSegment"@.len());
}

/// After the BigQuery grammar changes, `WhileStatementSegment` is what their last change of that
/// name sets, whatever dialect they start from.
pub proof fn lemma_bigquery_changes_while_statement_segment(d: DialectView)
    ensures
        bigquery_grammar_changes(d).element("WhileStatementSegment"@) == Some(while_statement_segment_element()),
{
    reveal(bigquery_grammar_changes);
    let d0 = d;
    let d1 = bigquery_changes_part_0(d0);
    let d2 = bigquery_changes_part_1(d1);
    let d3 = bigquery_changes_part_2(d2);
    let d4 = bigquery_changes_part_3(d3);
    let d5 = bigquery_changes_part_4(d4);
    let d6 = bigquery_changes_part_5(d5);
    lemma_bigquery_part_2_sets_while_statement_segment(d2);
    lemma_bigquery_part_3_keeps_while_statement_segment(d3);
    lemma_bigquery_part_4_keeps_while_statement_segment(d4);
    lemma_bigquery_part_5_keeps_while_statement_segment(d5);
}


/// The BigQuery grammar changes make `WhileStatementSegment` a
/// `while_statement` node: `WHILE`, a condition, `DO`, an indent, the
/// statements of the loop, a dedent, then `END WHILE`; whatever dialect they start from.
pub proof fn law_bigquery_while_statement(d: DialectView)
    ensures
        ({
            let e = (ElementView::Node { kind: "while_statement"@, grammar: GrammarView::sequence(seq![GrammarView::keyword("WHILE"@), GrammarView::reference("ExpressionSegment"@), GrammarView::keyword("DO"@), GrammarView::Indent, GrammarView::reference("WhileStatementsSegment"@), GrammarView::Dedent, GrammarView::keyword("END"@), GrammarView::keyword("WHILE"@)]) });
            &&& bigquery_grammar_changes(d).element("WhileStatementSegment"@) == Some(e)
        }),
{
    lemma_bigquery_changes_while_statement_segment(d);
}

proof fn lemma_bigquery_part_4_sets_cluster_by_segment(d: DialectView)
    ensures
        bigquery_changes_part_4(d).element("ClusterBySegment"@) == Some(cluster_by_segment_element()),
{
    reveal_strlit("ClusterBySegment");
    reveal_strlit("AlterMaterializedViewStatementSegment");
    assert("ClusterBySegment"@.len() != "AlterMaterializedViewStatementSegment"@.len());
    reveal_strlit("AlterTableStatementSegment");
    assert("ClusterBySegment"@.len() != "AlterTableStatementSegment"@.len());
    reveal_strlit("AlterViewStatementSegment");
    assert("ClusterBySegment"@.len() != "AlterViewStatementSegment"@.len());
    reveal_strlit("ColumnDefinitionSegment");
    assert("ClusterBySegment"@.len() != "ColumnDefinitionSegment"@.len());
    reveal_strlit("CreateExternalTableStatementSegment");
    assert("ClusterBySegment"@.len() != "CreateExternalTableStatementSegment"@.len());
    reveal_strlit("CreateMaterializedViewStatementSegment");
    assert("ClusterBySegment"@.len() != "CreateMaterializedViewStatementSegment"@.len());
    reveal_strlit("CreateTableStatementSegment");
    assert("ClusterBySegment"@.len() != "CreateTableStatementSegment"@.len());
    reveal_strlit("CreateViewStatementSegment");
    assert("ClusterBySegment"@.len() != "CreateViewStatementSegment"@.len());
    reveal_strlit("DropMaterializedViewStatementSegment");
    assert("ClusterBySegment"@.len() != "DropMaterializedViewStatementSegment"@.len());
    reveal_strlit("FromPivotExpressionSegment");
    assert("ClusterBySegment"@.len() != "FromPivotExpressionSegment"@.len());
    reveal_strlit("InsertStatementSegment");
    assert("ClusterBySegment"@.len() != "InsertStatementSegment"@.len());
    reveal_strlit("OptionsSegment");
    assert("ClusterBySegment"@.len() != "OptionsSegment"@.len());
    reveal_strlit("ParameterizedSegment");
    assert("ClusterBySegment"@.len() != "ParameterizedSegment"@.len());
    reveal_strlit("PivotForClauseSegment");
    assert("ClusterBySegment"@.len() != "PivotForClauseSegment"@.len());
    reveal_strlit("SamplingExpressionSegment");
    assert("ClusterBySegment"@.len() != "SamplingExpressionSegment"@.len());
    reveal_strlit("UnpivotAliasExpressionSegment");
    assert("ClusterBySegment"@.len() != "UnpivotAliasExpressionSegment"@.len());
}

proof fn lemma_bigquery_part_5_keeps_cluster_by_segment(d: DialectView)
    ensures
        bigquery_changes_part_5(d).element("ClusterBySegment"@) == d.element("ClusterBySegment"@),
{
    reveal_strlit("ClusterBySegment");
    reveal_strlit("DeleteStatementSegment");
    assert("ClusterBySegment"@.len() != "DeleteStatementSegment"@.len());
    reveal_strlit("ExportStatementSegment");
    assert("ClusterBySegment"@.len() != "ExportStatementSegment"@.len());
    reveal_strlit("LiteralGrammar");
    assert("ClusterBySegment"@.len() != "LiteralGrammar"@.len());
    reveal_strlit("MergeInsertClauseSegment");
    assert("ClusterBySegment"@.len() != "MergeInsertClauseSegment"@.len());
    reveal_strlit("MergeMatchSegment");
    assert("ClusterBySegment"@.len() != "MergeMatchSegment"@.len());
    reveal_strlit("MergeNotMatchedBySourceClauseSegment");
    assert("ClusterBySegment"@.len() != "MergeNotMatchedBySourceClauseSegment"@.len());
    reveal_strlit("MergeNotMatchedByTargetClauseSegment");
    assert("ClusterBySegment"@.len() != "MergeNotMatchedByTargetClauseSegment"@.len());
    reveal_strlit("NumericLiteralSegment");
    assert("ClusterBySegment"@.len() != "NumericLiteralSegment"@.len());
    reveal_strlit("PostTableExpressionGrammar");
    assert("ClusterBySegment"@.len() != "PostTableExpressionGrammar"@.len());
    reveal_strlit("ProcedureNameSegment");
    assert("ClusterBySegment"@.len() != "ProcedureNameSegment"@.len());
    reveal_strlit("QuotedIdentifierSegment");
    assert("ClusterBySegment"@.len() != "QuotedIdentifierSegment"@.len());
    reveal_strlit("QuotedLiteralSegment");
    assert("ClusterBySegment"@.len() != "QuotedLiteralSegment"@.len());
}

/// After the BigQuery grammar changes, `ClusterBySegment` is what their last change of that
/// name sets, whatever dialect they start from.
pub proof fn lemma_bigquery_changes_cluster_by_segment(d: DialectView)
    ensures
        bigquery_grammar_changes(d).element("ClusterBySegment"@) == Some(cluster_by_segment_element()),
{
    reveal(bigquery_grammar_changes);
    let d0 = d;
    let d1 = bigquery_changes_part_0(d0);
    let d2 = bigquery_changes_part_1(d1);
    let d3 = bigquery_changes_part_2(d2);
    let d4 = bigquery_changes_part_3(d3);
    let d5 = bigquery_changes_part_4(d4);
    let d6 = bigquery_changes_part_5(d5);
    lemma_bigquery_part_4_sets_cluster_by_segment(d4);
    lemma_bigquery_part_5_keeps_cluster_by_segment(d5);
}


/// The BigQuery grammar changes make `ClusterBySegment` a `cluster_by_segment`
/// node: `CLUSTER BY` and a comma-separated list of expressions; whatever dialect they start from.
pub proof fn law_bigquery_cluster_by(d: DialectView)
    ensures
        ({
            let e = (ElementView::Node { kind: "cluster_by_segment"@, grammar: GrammarView::sequence(seq![GrammarView::keyword("CLUSTER"@), GrammarView::keyword("BY"@), GrammarView::delimited(seq![GrammarView::reference("ExpressionSegment"@)])]) });
            &&& bigquery_grammar_changes(d).element("ClusterBySegment"@) == Some(e)
        }),
{
    lemma_bigquery_changes_cluster_by_segment(d);
}

proof fn lemma_bigquery_part_2_sets_select_clause_modifier_segment(d: DialectView)
    ensures
        has_grammar(bigquery_changes_part_2(d).element("SelectClauseModifierSegment"@), select_clause_modifier_segment_grammar()),
{
    reveal_strlit("SelectClauseModifierSegment");
    reveal_strlit("DateTimeFunctionContentsSegment");
    assert("SelectClauseModifierSegment"@.len() != "DateTimeFunctionContentsSegment"@.len());
    reveal_strlit("ExtractFunctionContentsSegment");
    assert("SelectClauseModifierSegment"@.len() != "ExtractFunctionContentsSegment"@.len());
    reveal_strlit("IntervalExpressionSegment");
    assert("SelectClauseModifierSegment"@.len() != "IntervalExpressionSegment"@.len());
    reveal_strlit("NormalizeFunctionContentsSegment");
    assert("SelectClauseModifierSegment"@.len() != "NormalizeFunctionContentsSegment"@.len());
}

proof fn lemma_bigquery_part_3_keeps_select_clause_modifier_segment(d: DialectView)
    ensures
        bigquery_changes_part_3(d).element("SelectClauseModifierSegment"@) == d.element("SelectClauseModifierSegment"@),
{
    reveal_strlit("SelectClauseModifierSegment");
    reveal_strlit("ArrayExpressionSegment");
    assert("SelectClauseModifierSegment"@.len() != "ArrayExpressionSegment"@.len());
    reveal_strlit("ArrayFunctionContentsSegment");
    assert("SelectClauseModifierSegment"@.len() != "ArrayFunctionContentsSegment"@.len());
    reveal_strlit("ArrayFunctionNameSegment");
    assert("SelectClauseModifierSegment"@.len() != "ArrayFunctionNameSegment"@.len());
    reveal_strlit("ColumnReferenceSegment");
    assert("SelectClauseModifierSegment"@.len() != "ColumnReferenceSegment"@.len());
    reveal_strlit("DatatypeSegment");
    assert("SelectClauseModifierSegment"@.len() != "DatatypeSegment"@.len());
    reveal_strlit("DatePartWeekSegment");
    assert("SelectClauseModifierSegment"@.len() != "DatePartWeekSegment"@.len());
    reveal_strlit("DeclareStatementSegment");
    assert("SelectClauseModifierSegment"@.len() != "DeclareStatementSegment"@.len());
    reveal_strlit("ExceptClauseSegment");
    assert("SelectClauseModifierSegment"@.len() != "ExceptClauseSegment"@.len());
    reveal_strlit("ExtractFunctionNameSegment");
    assert("SelectClauseModifierSegment"@.len() != "ExtractFunctionNameSegment"@.len());
    reveal_strlit("FunctionDefinitionGrammar");
    assert("SelectClauseModifierSegment"@.len() != "FunctionDefinitionGrammar"@.len());
    reveal_strlit("FunctionNameSegment");
    assert("SelectClauseModifierSegment"@.len() != "FunctionNameSegment"@.len());
    reveal_strlit("FunctionSegment");
    assert("SelectClauseModifierSegment"@.len() != "FunctionSegment"@.len());
    reveal_strlit("NamedArgumentSegment");
    assert("SelectClauseModifierSegment"@.len() != "NamedArgumentSegment"@.len());
    reveal_strlit("NormalizeFunctionNameSegment");
    assert("SelectClauseModifierSegment"@.len() != "NormalizeFunctionNameSegment"@.len());
    reveal_strlit("ReplaceClauseSegment");
    assert("SelectClauseModifierSegment"@.len() != "ReplaceClauseSegment"@.len());
    reveal_strlit("SemiStructuredAccessorSegment");
    assert("SelectClauseModifierSegment"@.len() != "SemiStructuredAccessorSegment"@.len());
    reveal_strlit("StructTypeSegment");
    assert("SelectClauseModifierSegment"@.len() != "StructTypeSegment"@.len());
    reveal_strlit("TableReferenceSegment");
    assert("SelectClauseModifierSegment"@.len() != "TableReferenceSegment"@.len());
    reveal_strlit("TupleSegment");
    assert("SelectClauseModifierSegment"@.len() != "TupleSegment"@.len());
    reveal_strlit("WildcardExpressionSegment");
    assert("SelectClauseModifierSegment"@.len() != "WildcardExpressionSegment"@.len());
}

proof fn lemma_bigquery_part_4_keeps_select_clause_modifier_segment(d: DialectView)
    ensures
        bigquery_changes_part_4(d).element("SelectClauseModifierSegment"@) == d.element("SelectClauseModifierSegment"@),
{
    reveal_strlit("SelectClauseModifierSegment");
    reveal_strlit("AlterMaterializedViewStatementSegment");
    assert("SelectClauseModifierSegment"@.len() != "AlterMaterializedViewStatementSegment"@.len());
    reveal_strlit("AlterTableStatementSegment");
    assert("SelectClauseModifierSegment"@.len() != "AlterTableStatementSegment"@.len());
    reveal_strlit("AlterViewStatementSegment");
    assert("SelectClauseModifierSegment"@.len() != "AlterViewStatementSegment"@.len());
    reveal_strlit("ClusterBySegment");
    assert("SelectClauseModifierSegment"@.len() != "ClusterBySegment"@.len());
    reveal_strlit("ColumnDefinitionSegment");
    assert("SelectClauseModifierSegment"@.len() != "ColumnDefinitionSegment"@.len());
    reveal_strlit("CreateExternalTableStatementSegment");
    assert("SelectClauseModifierSegment"@.len() != "CreateExternalTableStatementSegment"@.len());
    reveal_strlit("CreateMaterializedViewStatementSegment");
    assert("SelectClauseModifierSegment"@.len() != "CreateMaterializedViewStatementSegment"@.len());
    reveal_strlit("CreateTableStatementSegment");
    assert("SelectClauseModifierSegment"@[0] != "CreateTableStatementSegment"@[0]);
    reveal_strlit("CreateViewStatementSegment");
    assert("SelectClauseModifierSegment"@.len() != "CreateViewStatementSegment"@.len());
    reveal_strlit("DropMaterializedViewStatementSegment");
    assert("SelectClauseModifierSegment"@.len() != "DropMaterializedViewStatementSegment"@.len());
    reveal_strlit("FromPivotExpressionSegment");
    assert("SelectClauseModifierSegment"@.len() != "FromPivotExpressionSegment"@.len());
    reveal_strlit("InsertStatementSegment");
    assert("SelectClauseModifierSegment"@.len() != "InsertStatementSegment"@.len());
    reveal_strlit("OptionsSegment");
    assert("SelectClauseModifierSegment"@.len() != "OptionsSegment"@.len());
    reveal_strlit("ParameterizedSegment");
    assert("SelectClauseModifierSegment"@.len() != "ParameterizedSegment"@.len());
    reveal_strlit("PartitionBySegment");
    assert("SelectClauseModifierSegment"@.len() != "PartitionBySegment"@.len());
    reveal_strlit("PivotForClauseSegment");
    assert("SelectClauseModifierSegment"@.len() != "PivotForClauseSegment"@.len());
    reveal_strlit("SamplingExpressionSegment");
    assert("SelectClauseModifierSegment"@.len() != "SamplingExpressionSegment"@.len());
    reveal_strlit("SetStatementSegment");
    assert("SelectClauseModifierSegment"@.len() != "SetStatementSegment"@.len());
    reveal_strlit("UnpivotAliasExpressionSegment");
    assert("SelectClauseModifierSegment"@.len() != "UnpivotAliasExpressionSegment"@.len());
}

proof fn lemma_bigquery_part_5_keeps_select_clause_modifier_segment(d: DialectView)
    ensures
        bigquery_changes_part_5(d).element("SelectClauseModifierSegment"@) == d.element("SelectClauseModifierSegment"@),
{
    reveal_strlit("SelectClauseModifierSegment");
    reveal_strlit("DeleteStatementSegment");
    assert("SelectClauseModifierSegment"@.len() != "DeleteStatementSegment"@.len());
    reveal_strlit("ExportStatementSegment");
    assert("SelectClauseModifierSegment"@.len() != "ExportStatementSegment"@.len());
    reveal_strlit("LiteralGrammar");
    assert("SelectClauseModifierSegment"@.len() != "LiteralGrammar"@.len());
    reveal_strlit("MergeInsertClauseSegment");
    assert("SelectClauseModifierSegment"@.len() != "MergeInsertClauseSegment"@.len());
    reveal_strlit("MergeMatchSegment");
    assert("SelectClauseModifierSegment"@.len() != "MergeMatchSegment"@.len());
    reveal_strlit("MergeNotMatchedBySourceClauseSegment");
    assert("SelectClauseModifierSegment"@.len() != "MergeNotMatchedBySourceClauseSegment"@.len());
    reveal_strlit("MergeNotMatchedByTargetClauseSegment");
    assert("SelectClauseModifierSegment"@.len() != "MergeNotMatchedByTargetClauseSegment"@.len());
    reveal_strlit("NumericLiteralSegment");
    assert("SelectClauseModifierSegment"@.len() != "NumericLiteralSegment"@.len());
    reveal_strlit("PostTableExpressionGrammar");
    assert("SelectClauseModifierSegment"@.len() != "PostTableExpressionGrammar"@.len());
    reveal_strlit("ProcedureNameSegment");
    assert("SelectClauseModifierSegment"@.len() != "ProcedureNameSegment"@.len());
    reveal_strlit("QuotedIdentifierSegment");
    assert("SelectClauseModifierSegment"@.len() != "QuotedIdentifierSegment"@.len());
    reveal_strlit("QuotedLiteralSegment");
    assert("SelectClauseModifierSegment"@.len() != "QuotedLiteralSegment"@.len());
}

/// After the BigQuery grammar changes, `SelectClauseModifierSegment` has the grammar that their last
/// change of that name gives it, whatever dialect they start from.
pub proof fn lemma_bigquery_changes_select_clause_modifier_segment(d: DialectView)
    ensures
        has_grammar(bigquery_grammar_changes(d).element("SelectClauseModifierSegment"@), select_clause_modifier_segment_grammar()),
{
    reveal(bigquery_grammar_changes);
    let d0 = d;
    let d1 = bigquery_changes_part_0(d0);
    let d2 = bigquery_changes_part_1(d1);
    let d3 = bigquery_changes_part_2(d2);
    let d4 = bigquery_changes_part_3(d3);
    let d5 = bigquery_changes_part_4(d4);
    let d6 = bigquery_changes_part_5(d5);
    lemma_bigquery_part_2_sets_select_clause_modifier_segment(d2);
    lemma_bigquery_part_3_keeps_select_clause_modifier_segment(d3);
    lemma_bigquery_part_4_keeps_select_clause_modifier_segment(d4);
    lemma_bigquery_part_5_keeps_select_clause_modifier_segment(d5);
}


/// The BigQuery grammar changes give `SelectClauseModifierSegment` the
/// grammar: an optional `DISTINCT` or `ALL`, then an optional `AS STRUCT` or
/// `AS VALUE`; whatever dialect they start from (a node keeps its kind).
pub proof fn law_bigquery_select_clause_modifier(d: DialectView)
    ensures
        ({
            let g = GrammarView::sequence(seq![(GrammarView::Optional { grammar: Box::new(GrammarView::one_of(seq![GrammarView::keyword("DISTINCT"@), GrammarView::keyword("ALL"@)])) }), (GrammarView::Optional { grammar: Box::new(GrammarView::sequence(seq![GrammarView::keyword("AS"@), GrammarView::one_of(seq![GrammarView::keyword("STRUCT"@), GrammarView::keyword("VALUE"@)])])) })]);
            has_grammar(bigquery_grammar_changes(d).element("SelectClauseModifierSegment"@), g)
        }),
{
    lemma_bigquery_changes_select_clause_modifier_segment(d);
}

proof fn lemma_bigquery_part_2_sets_interval_expression_segment(d: DialectView)
    ensures
        has_grammar(bigquery_changes_part_2(d).element("IntervalExpressionSegment"@), interval_expression_segment_grammar()),
{
    reveal_strlit("IntervalExpressionSegment");
    reveal_strlit("DateTimeFunctionContentsSegment");
    assert("IntervalExpressionSegment"@.len() != "DateTimeFunctionContentsSegment"@.len());
    reveal_strlit("ExtractFunctionContentsSegment");
    assert("IntervalExpressionSegment"@.len() != "ExtractFunctionContentsSegment"@.len());
    reveal_strlit("NormalizeFunctionContentsSegment");
    assert("IntervalExpressionSegment"@.len() != "NormalizeFunctionContentsSegment"@.len());
}

proof fn lemma_bigquery_part_3_keeps_interval_expression_segment(d: DialectView)
    ensures
        bigquery_changes_part_3(d).element("IntervalExpressionSegment"@) == d.element("IntervalExpressionSegment"@),
{
    reveal_strlit("IntervalExpressionSegment");
    reveal_strlit("ArrayExpressionSegment");
    assert("IntervalExpressionSegment"@.len() != "ArrayExpressionSegment"@.len());
    reveal_strlit("ArrayFunctionContentsSegment");
    assert("IntervalExpressionSegment"@.len() != "ArrayFunctionContentsSegment"@.len());
    reveal_strlit("ArrayFunctionNameSegment");
    assert("IntervalExpressionSegment"@.len() != "ArrayFunctionNameSegment"@.len());
    reveal_strlit("ColumnReferenceSegment");
    assert("IntervalExpressionSegment"@.len() != "ColumnReferenceSegment"@.len());
    reveal_strlit("DatatypeSegment");
    assert("IntervalExpressionSegment"@.len() != "DatatypeSegment"@.len());
    reveal_strlit("DatePartWeekSegment");
    assert("IntervalExpressionSegment"@.len() != "DatePartWeekSegment"@.len());
    reveal_strlit("DeclareStatementSegment");
    assert("IntervalExpressionSegment"@.len() != "DeclareStatementSegment"@.len());
    reveal_strlit("ExceptClauseSegment");
    assert("IntervalExpressionSegment"@.len() != "ExceptClauseSegment"@.len());
    reveal_strlit("ExtractFunctionNameSegment");
    assert("IntervalExpressionSegment"@.len() != "ExtractFunctionNameSegment"@.len());
    reveal_strlit("FunctionDefinitionGrammar");
    assert("IntervalExpressionSegment"@[0] != "FunctionDefinitionGrammar"@[0]);
    reveal_strlit("FunctionNameSegment");
    assert("IntervalExpressionSegment"@.len() != "FunctionNameSegment"@.len());
    reveal_strlit("FunctionSegment");
    assert("IntervalExpressionSegment"@.len() != "FunctionSegment"@.len());
    reveal_strlit("NamedArgumentSegment");
    assert("IntervalExpressionSegment"@.len() != "NamedArgumentSegment"@.len());
    reveal_strlit("NormalizeFunctionNameSegment");
    assert("IntervalExpressionSegment"@.len() != "NormalizeFunctionNameSegment"@.len());
    reveal_strlit("ReplaceClauseSegment");
    assert("IntervalExpressionSegment"@.len() != "ReplaceClauseSegment"@.len());
    reveal_strlit("SemiStructuredAccessorSegment");
    assert("IntervalExpressionSegment"@.len() != "SemiStructuredAccessorSegment"@.len());
    reveal_strlit("StructTypeSegment");
    assert("IntervalExpressionSegment"@.len() != "StructTypeSegment"@.len());
    reveal_strlit("TableReferenceSegment");
    assert("IntervalExpressionSegment"@.len() != "TableReferenceSegment"@.len());
    reveal_strlit("TupleSegment");
    assert("IntervalExpressionSegment"@.len() != "TupleSegment"@.len());
    reveal_strlit("WildcardExpressionSegment");
    assert("IntervalExpressionSegment"@[0] != "WildcardExpressionSegment"@[0]);
}

proof fn lemma_bigquery_part_4_keeps_interval_expression_segment(d: DialectView)
    ensures
        bigquery_changes_part_4(d).element("IntervalExpressionSegment"@) == d.element("IntervalExpressionSegment"@),
{
    reveal_strlit("IntervalExpressionSegment");
    reveal_strlit("AlterMaterializedViewStatementSegment");
    assert("IntervalExpressionSegment"@.len() != "AlterMaterializedViewStatementSegment"@.len());
    reveal_strlit("AlterTableStatementSegment");
    assert("IntervalExpressionSegment"@.len() != "AlterTableStatementSegment"@.len());
    reveal_strlit("AlterViewStatementSegment");
    assert("IntervalExpressionSegment"@[0] != "AlterViewStatementSegment"@[0]);
    reveal_strlit("ClusterBySegment");
    assert("IntervalExpressionSegment"@.len() != "ClusterBySegment"@.len());
    reveal_strlit("ColumnDefinitionSegment");
    assert("IntervalExpressionSegment"@.len() != "ColumnDefinitionSegment"@.len());
    reveal_strlit("CreateExternalTableStatementSegment");
    assert("IntervalExpressionSegment"@.len() != "CreateExternalTableStatementSegment"@.len());
    reveal_strlit("CreateMaterializedViewStatementSegment");
    assert("IntervalExpressionSegment"@.len() != "CreateMaterializedViewStatementSegment"@.len());
    reveal_strlit("CreateTableStatementSegment");
    assert("IntervalExpressionSegment"@.len() != "CreateTableStatementSegment"@.len());
    reveal_strlit("CreateViewStatementSegment");
    assert("IntervalExpressionSegment"@.len() != "CreateViewStatementSegment"@.len());
    reveal_strlit("DropMaterializedViewStatementSegment");
    assert("IntervalExpressionSegment"@.len() != "DropMaterializedViewStatementSegment"@.len());
    reveal_strlit("FromPivotExpressionSegment");
    assert("IntervalExpressionSegment"@.len() != "FromPivotExpressionSegment"@.len());
    reveal_strlit("InsertStatementSegment");
    assert("IntervalExpressionSegment"@.len() != "InsertStatementSegment"@.len());
    reveal_strlit("OptionsSegment");
    assert("IntervalExpressionSegment"@.len() != "OptionsSegment"@.len());
    reveal_strlit("ParameterizedSegment");
    assert("IntervalExpressionSegment"@.len() != "ParameterizedSegment"@.len());
    reveal_strlit("PartitionBySegment");
    assert("IntervalExpressionSegment"@.len() != "PartitionBySegment"@.len());
    reveal_strlit("PivotForClauseSegment");
    assert("IntervalExpressionSegment"@.len() != "PivotForClauseSegment"@.len());
    reveal_strlit("SamplingExpressionSegment");
    assert("IntervalExpressionSegment"@[0] != "SamplingExpressionSegment"@[0]);
    reveal_strlit("SetStatementSegment");
    assert("IntervalExpressionSegment"@.len() != "SetStatementSegment"@.len());
    reveal_strlit("UnpivotAliasExpressionSegment");
    assert("IntervalExpressionSegment"@.len() != "UnpivotAliasExpressionSegment"@.len());
}

proof fn lemma_bigquery_part_5_keeps_interval_expression_segment(d: DialectView)
    ensures
        bigquery_changes_part_5(d).element("IntervalExpressionSegment"@) == d.element("IntervalExpressionSegment"@),
{
    reveal_strlit("IntervalExpressionSegment");
    reveal_strlit("DeleteStatementSegment");
    assert("IntervalExpressionSegment"@.len() != "DeleteStatementSegment"@.len());
    reveal_strlit("ExportStatementSegment");
    assert("IntervalExpressionSegment"@.len() != "ExportStatementSegment"@.len());
    reveal_strlit("LiteralGrammar");
    assert("IntervalExpressionSegment"@.len() != "LiteralGrammar"@.len());
    reveal_strlit("MergeInsertClauseSegment");
    assert("IntervalExpressionSegment"@.len() != "MergeInsertClauseSegment"@.len());
    reveal_strlit("MergeMatchSegment");
    assert("IntervalExpressionSegment"@.len() != "MergeMatchSegment"@.len());
    reveal_strlit("MergeNotMatchedBySourceClauseSegment");
    assert("IntervalExpressionSegment"@.len() != "MergeNotMatchedBySourceClauseSegment"@.len());
    reveal_strlit("MergeNotMatchedByTargetClauseSegment");
    assert("IntervalExpressionSegment"@.len() != "MergeNotMatchedByTargetClauseSegment"@.len());
    reveal_strlit("NumericLiteralSegment");
    assert("IntervalExpressionSegment"@.len() != "NumericLiteralSegment"@.len());
    reveal_strlit("PostTableExpressionGrammar");
    assert("IntervalExpressionSegment"@.len() != "PostTableExpressionGrammar"@.len());
    reveal_strlit("ProcedureNameSegment");
    assert("IntervalExpressionSegment"@.len() != "ProcedureNameSegment"@.len());
    reveal_strlit("QuotedIdentifierSegment");
    assert("IntervalExpressionSegment"@.len() != "QuotedIdentifierSegment"@.len());
    reveal_strlit("QuotedLiteralSegment");
    assert("IntervalExpressionSegment"@.len() != "QuotedLiteralSegment"@.len());
}

/// After the BigQuery grammar changes, `IntervalExpressionSegment` has the grammar that their last
/// change of that name gives it, whatever dialect they start from.
pub proof fn lemma_bigquery_changes_interval_expression_segment(d: DialectView)
    ensures
        has_grammar(bigquery_grammar_changes(d).element("IntervalExpressionSegment"@), interval_expression_segment_grammar()),
{
    reveal(bigquery_grammar_changes);
    let d0 = d;
    let d1 = bigquery_changes_part_0(d0);
    let d2 = bigquery_changes_part_1(d1);
    let d3 = bigquery_changes_part_2(d2);
    let d4 = bigquery_changes_part_3(d3);
    let d5 = bigquery_changes_part_4(d4);
    let d6 = bigquery_changes_part_5(d5);
    lemma_bigquery_part_2_sets_interval_expression_segment(d2);
    lemma_bigquery_part_3_keeps_interval_expression_segment(d3);
    lemma_bigquery_part_4_keeps_interval_expression_segment(d4);
    lemma_bigquery_part_5_keeps_interval_expression_segment(d5);
}


/// The BigQuery grammar changes give `IntervalExpressionSegment` the grammar
/// `INTERVAL`, an expression, then a quoted literal, a date-time unit, or a
/// range of units `unit TO unit`; whatever dialect they start from (a node keeps its kind).
pub proof fn law_bigquery_interval_expression(d: DialectView)
    ensures
        ({
            let g = GrammarView::sequence(seq![GrammarView::keyword("INTERVAL"@), GrammarView::reference("ExpressionSegment"@), GrammarView::one_of(seq![GrammarView::reference("QuotedLiteralSegment"@), GrammarView::reference("DatetimeUnitSegment"@), GrammarView::sequence(seq![GrammarView::reference("DatetimeUnitSegment"@), GrammarView::keyword("TO"@), GrammarView::reference("DatetimeUnitSegment"@)])])]);
            has_grammar(bigquery_grammar_changes(d).element("IntervalExpressionSegment"@), g)
        }),
{
    lemma_bigquery_changes_interval_expression_segment(d);
}

proof fn lemma_bigquery_part_2_sets_repeat_statement_segment(d: DialectView)
    ensures
        bigquery_changes_part_2(d).element("RepeatStatementSegment"@) == Some(repeat_statement_segment_element()),
{
    reveal_strlit("RepeatStatementSegment");
    reveal_strlit("DateTimeFunctionContentsSegment");
    assert("RepeatStatementSegment"@.len() != "DateTimeFunctionContentsSegment"@.len());
    reveal_strlit("ExtractFunctionContentsSegment");
    assert("RepeatStatementSegment"@.len() != "ExtractFunctionContentsSegment"@.len());
    reveal_strlit("IfStatementSegment");
    assert("RepeatStatementSegment"@.len() != "IfStatementSegment"@.len());
    reveal_strlit("IfStatementsSegment");
    assert("RepeatStatementSegment"@.len() != "IfStatementsSegment"@.len());
    reveal_strlit("IntervalExpressionSegment");
    assert("RepeatStatementSegment"@.len() != "IntervalExpressionSegment"@.len());
    reveal_strlit("LoopStatementSegment");
    assert("RepeatStatementSegment"@.len() != "LoopStatementSegment"@.len());
    reveal_strlit("LoopStatementsSegment");
    assert("RepeatStatementSegment"@.len() != "LoopStatementsSegment"@.len());
    reveal_strlit("NormalizeFunctionContentsSegment");
    assert("RepeatStatementSegment"@.len() != "NormalizeFunctionContentsSegment"@.len());
    reveal_strlit("SelectClauseModifierSegment");
    assert("RepeatStatementSegment"@.len() != "SelectClauseModifierSegment"@.len());
    reveal_strlit("WhileStatementSegment");
    assert("RepeatStatementSegment"@.len() != "WhileStatementSegment"@.len());
    reveal_strlit("WhileStatementsSegment");
    assert("RepeatStatementSegment"@[0] != "WhileStatementsSegment"@[0]);
}

proof fn lemma_bigquery_part_3_keeps_repeat_statement_segment(d: DialectView)
    ensures
        bigquery_changes_part_3(d).element("RepeatStatementSegment"@) == d.element("RepeatStatementSegment"@),
{
    reveal_strlit("RepeatStatementSegment");
    reveal_strlit("ArrayExpressionSegment");
    assert("RepeatStatementSegment"@[0] != "ArrayExpressionSegment"@[0]);
    reveal_strlit("ArrayFunctionContentsSegment");
    assert("RepeatStatementSegment"@.len() != "ArrayFunctionContentsSegment"@.len());
    reveal_strlit("ArrayFunctionNameSegment");
    assert("RepeatStatementSegment"@.len() != "ArrayFunctionNameSegment"@.len());
    reveal_strlit("ColumnReferenceSegment");
    assert("RepeatStatementSegment"@[0] != "ColumnReferenceSegment"@[0]);
    reveal_strlit("DatatypeSegment");
    assert("RepeatStatementSegment"@.len() != "DatatypeSegment"@.len());
    reveal_strlit("DatePartWeekSegment");
    assert("RepeatStatementSegment"@.len() != "DatePartWeekSegment"@.len());
    reveal_strlit("DeclareStatementSegment");
    assert("RepeatStatementSegment"@.len() != "DeclareStatementSegment"@.len());
    reveal_strlit("ExceptClauseSegment");
    assert("RepeatStatementSegment"@.len() != "ExceptClauseSegment"@.len());
    reveal_strlit("ExtractFunctionNameSegment");
    assert("RepeatStatementSegment"@.len() != "ExtractFunctionNameSegment"@.len());
    reveal_strlit("FunctionDefinitionGrammar");
    assert("RepeatStatementSegment"@.len() != "FunctionDefinitionGrammar"@.len());
    reveal_strlit("FunctionNameSegment");
    assert("RepeatStatementSegment"@.len() != "FunctionNameSegment"@.len());
    reveal_strlit("FunctionSegment");
    assert("RepeatStatementSegment"@.len() != "FunctionSegment"@.len());
    reveal_strlit("NamedArgumentSegment");
    assert("RepeatStatementSegment"@.len() != "NamedArgumentSegment"@.len());
    reveal_strlit("NormalizeFunctionNameSegment");
    assert("RepeatStatementSegment"@.len() != "NormalizeFunctionNameSegment"@.len());
    reveal_strlit("ReplaceClauseSegment");
    assert("RepeatStatementSegment"@.len() != "ReplaceClauseSegment"@.len());
    reveal_strlit("SemiStructuredAccessorSegment");
    assert("RepeatStatementSegment"@.len() != "SemiStructuredAccessorSegment"@.len());
    reveal_strlit("StructTypeSegment");
    assert("RepeatStatementSegment"@.len() != "StructTypeSegment"@.len());
    reveal_strlit("TableReferenceSegment");
    assert("RepeatStatementSegment"@.len() != "TableReferenceSegment"@.len());
    reveal_strlit("TupleSegment");
    assert("RepeatStatementSegment"@.len() != "TupleSegment"@.len());
    reveal_strlit("WildcardExpressionSegment");
    assert("RepeatStatementSegment"@.len() != "WildcardExpressionSegment"@.len());
}

proof fn lemma_bigquery_part_4_keeps_repeat_statement_segment(d: DialectView)
    ensures
        bigquery_changes_part_4(d).element("RepeatStatementSegment"@) == d.element("RepeatStatementSegment"@),
{
    reveal_strlit("RepeatStatementSegment");
    reveal_strlit("AlterMaterializedViewStatementSegment");
    assert("RepeatStatementSegment"@.len() != "AlterMaterializedViewStatementSegment"@.len());
    reveal_strlit("AlterTableStatementSegment");
    assert("RepeatStatementSegment"@.len() != "AlterTableStatementSegment"@.len());
    reveal_strlit("AlterViewStatementSegment");
    assert("RepeatStatementSegment"@.len() != "AlterViewStatementSegment"@.len());
    reveal_strlit("ClusterBySegment");
    assert("RepeatStatementSegment"@.len() != "ClusterBySegment"@.len());
    reveal_strlit("ColumnDefinitionSegment");
    assert("RepeatStatementSegment"@.len() != "ColumnDefinitionSegment"@.len());
    reveal_strlit("CreateExternalTableStatementSegment");
    assert("RepeatStatementSegment"@.len() != "CreateExternalTableStatementSegment"@.len());
    reveal_strlit("CreateMaterializedViewStatementSegment");
    assert("RepeatStatementSegment"@.len() != "CreateMaterializedViewStatementSegment"@.len());
    reveal_strlit("CreateTableStatementSegment");
    assert("RepeatStatementSegment"@.len() != "CreateTableStatementSegment"@.len());
    reveal_strlit("CreateViewStatementSegment");
    assert("RepeatStatementSegment"@.len() != "CreateViewStatementSegment"@.len());
    reveal_strlit("DropMaterializedViewStatementSegment");
    assert("RepeatStatementSegment"@.len() != "DropMaterializedViewStatementSegment"@.len());
    reveal_strlit("FromPivotExpressionSegment");
    assert("RepeatStatementSegment"@.len() != "FromPivotExpressionSegment"@.len());
    reveal_strlit("InsertStatementSegment");
    assert("RepeatStatementSegment"@[0] != "InsertStatementSegment"@[0]);
    reveal_strlit("OptionsSegment");
    assert("RepeatStatementSegment"@.len() != "OptionsSegment"@.len());
    reveal_strlit("ParameterizedSegment");
    assert("RepeatStatementSegment"@.len() != "ParameterizedSegment"@.len());
    reveal_strlit("PartitionBySegment");
    assert("RepeatStatementSegment"@.len() != "PartitionBySegment"@.len());
    reveal_strlit("PivotForClauseSegment");
    assert("RepeatStatementSegment"@.len() != "PivotForClauseSegment"@.len());
    reveal_strlit("SamplingExpressionSegment");
    assert("RepeatStatementSegment"@.len() != "SamplingExpressionSegment"@.len());
    reveal_strlit("SetStatementSegment");
    assert("RepeatStatementSegment"@.len() != "SetStatementSegment"@.len());
    reveal_strlit("UnpivotAliasExpressionSegment");
    assert("RepeatStatementSegment"@.len() != "UnpivotAliasExpressionSegment"@.len());
}

proof fn lemma_bigquery_part_5_keeps_repeat_statement_segment(d: DialectView)
    ensures
        bigquery_changes_part_5(d).element("RepeatStatementSegment"@) == d.element("RepeatStatementSegment"@),
{
    reveal_strlit("RepeatStatementSegment");
    reveal_strlit("DeleteStatementSegment");
    assert("RepeatStatementSegment"@[0] != "DeleteStatementSegment"@[0]);
    reveal_strlit("ExportStatementSegment");
    assert("RepeatStatementSegment"@[0] != "ExportStatementSegment"@[0]);
    reveal_strlit("LiteralGrammar");
    assert("RepeatStatementSegment"@.len() != "LiteralGrammar"@.len());
    reveal_strlit("MergeInsertClauseSegment");
    assert("RepeatStatementSegment"@.len() != "MergeInsertClauseSegment"@.len());
    reveal_strlit("MergeMatchSegment");
    assert("RepeatStatementSegment"@.len() != "MergeMatchSegment"@.len());
    reveal_strlit("MergeNotMatchedBySourceClauseSegment");
    assert("RepeatStatementSegment"@.len() != "MergeNotMatchedBySourceClauseSegment"@.len());
    reveal_strlit("MergeNotMatchedByTargetClauseSegment");
    assert("RepeatStatementSegment"@.len() != "MergeNotMatchedByTargetClauseSegment"@.len());
    reveal_strlit("NumericLiteralSegment");
    assert("RepeatStatementSegment"@.len() != "NumericLiteralSegment"@.len());
    reveal_strlit("PostTableExpressionGrammar");
    assert("RepeatStatementSegment"@.len() != "PostTableExpressionGrammar"@.len());
    reveal_strlit("ProcedureNameSegment");
    assert("RepeatStatementSegment"@.len() != "ProcedureNameSegment"@.len());
    reveal_strlit("QuotedIdentifierSegment");
    assert("RepeatStatementSegment"@.len() != "QuotedIdentifierSegment"@.len());
    reveal_strlit("QuotedLiteralSegment");
    assert("RepeatStatementSegment"@.len() != "QuotedLiteralSegment"@.len());
}

/// After the BigQuery grammar changes, `RepeatStatementSegment` is what their last change of that
/// name sets, whatever dialect they start from.
pub proof fn lemma_bigquery_changes_repeat_statement_segment(d: DialectView)
    ensures
        bigquery_grammar_changes(d).element("RepeatStatementSegment"@) == Some(repeat_statement_segment_element()),
{
    reveal(bigquery_grammar_changes);
    let d0 = d;
    let d1 = bigquery_changes_part_0(d0);
    let d2 = bigquery_changes_part_1(d1);
    let d3 = bigquery_changes_part_2(d2);
    let d4 = bigquery_changes_part_3(d3);
    let d5 = bigquery_changes_part_4(d4);
    let d6 = bigquery_changes_part_5(d5);
    lemma_bigquery_part_2_sets_repeat_statement_segment(d2);
    lemma_bigquery_part_3_keeps_repeat_statement_segment(d3);
    lemma_bigquery_part_4_keeps_repeat_statement_segment(d4);
    lemma_bigquery_part_5_keeps_repeat_statement_segment(d5);
}


/// The BigQuery grammar changes make `RepeatStatementSegment` a
/// `repeat_statement` node: `REPEAT`, an indent, the statements of the loop,
/// `UNTIL` and a condition, a dedent, then `END REPEAT`; whatever dialect they start from.
pub proof fn law_bigquery_repeat_statement(d: DialectView)
    ensures
        ({
            let e = (ElementView::Node { kind: "repeat_statement"@, grammar: GrammarView::sequence(seq![GrammarView::keyword("REPEAT"@), GrammarView::Indent, GrammarView::reference("RepeatStatementsSegment"@), GrammarView::keyword("UNTIL"@), GrammarView::reference("ExpressionSegment"@), GrammarView::Dedent, GrammarView::keyword("END"@), GrammarView::keyword("REPEAT"@)]) });
            &&& bigquery_grammar_changes(d).element("RepeatStatementSegment"@) == Some(e)
        }),
{
    lemma_bigquery_changes_repeat_statement_segment(d);
}

proof fn lemma_bigquery_part_2_sets_assert_statement_segment(d: DialectView)
    ensures
        bigquery_changes_part_2(d).element("AssertStatementSegment"@) == Some(assert_statement_segment_element()),
{
    reveal_strlit("AssertStatementSegment");
    reveal_strlit("DateTimeFunctionContentsSegment");
    assert("AssertStatementSegment"@.len() != "DateTimeFunctionContentsSegment"@.len());
    reveal_strlit("ExtractFunctionContentsSegment");
    assert("AssertStatementSegment"@.len() != "ExtractFunctionContentsSegment"@.len());
    reveal_strlit("ForInStatementSegment");
    assert("AssertStatementSegment"@.len() != "ForInStatementSegment"@.len());
    reveal_strlit("ForInStatementsSegment");
    assert("AssertStatementSegment"@[0] != "ForInStatementsSegment"@[0]);
    reveal_strlit("IfStatementSegment");
    assert("AssertStatementSegment"@.len() != "IfStatementSegment"@.len());
    reveal_strlit("IfStatementsSegment");
    assert("AssertStatementSegment"@.len() != "IfStatementsSegment"@.len());
    reveal_strlit("IntervalExpressionSegment");
    assert("AssertStatementSegment"@.len() != "IntervalExpressionSegment"@.len());
    reveal_strlit("LoopStatementSegment");
    assert("AssertStatementSegment"@.len() != "LoopStatementSegment"@.len());
    reveal_strlit("LoopStatementsSegment");
    assert("AssertStatementSegment"@.len() != "LoopStatementsSegment"@.len());
    reveal_strlit("NormalizeFunctionContentsSegment");
    assert("AssertStatementSegment"@.len() != "NormalizeFunctionContentsSegment"@.len());
    reveal_strlit("RepeatStatementSegment");
    assert("AssertStatementSegment"@[0] != "RepeatStatementSegment"@[0]);
    reveal_strlit("RepeatStatementsSegment");
    assert("AssertStatementSegment"@.len() != "RepeatStatementsSegment"@.len());
    reveal_strlit("SelectClauseModifierSegment");
    assert("AssertStatementSegment"@.len() != "SelectClauseModifierSegment"@.len());
    reveal_strlit("WhileStatementSegment");
    assert("AssertStatementSegment"@.len() != "WhileStatementSegment"@.len());
    reveal_strlit("WhileStatementsSegment");
    assert("AssertStatementSegment"@[0] != "WhileStatementsSegment"@[0]);
}

proof fn lemma_bigquery_part_3_keeps_assert_statement_segment(d: DialectView)
    ensures
        bigquery_changes_part_3(d).element("AssertStatementSegment"@) == d.element("AssertStatementSegment"@),
{
    reveal_strlit("AssertStatementSegment");
    reveal_strlit("ArrayExpressionSegment");
    assert("AssertStatementSegment"@[1] != "ArrayExpressionSegment"@[1]);
    reveal_strlit("ArrayFunctionContentsSegment");
    assert("AssertStatementSegment"@.len() != "ArrayFunctionContentsSegment"@.len());
    reveal_strlit("ArrayFunctionNameSegment");
    assert("AssertStatementSegment"@.len() != "ArrayFunctionNameSegment"@.len());
    reveal_strlit("ColumnReferenceSegment");
    assert("AssertStatementSegment"@[0] != "ColumnReferenceSegment"@[0]);
    reveal_strlit("DatatypeSegment");
    assert("AssertStatementSegment"@.len() != "DatatypeSegment"@.len());
    reveal_strlit("DatePartWeekSegment");
    assert("AssertStatementSegment"@.len() != "DatePartWeekSegment"@.len());
    reveal_strlit("DeclareStatementSegment");
    assert("AssertStatementSegment"@.len() != "DeclareStatementSegment"@.len());
    reveal_strlit("ExceptClauseSegment");
    assert("AssertStatementSegment"@.len() != "ExceptClauseSegment"@.len());
    reveal_strlit("ExtractFunctionNameSegment");
    assert("AssertStatementSegment"@.len() != "ExtractFunctionNameSegment"@.len());
    reveal_strlit("FunctionDefinitionGrammar");
    assert("AssertStatementSegment"@.len() != "FunctionDefinitionGrammar"@.len());
    reveal_strlit("FunctionNameSegment");
    assert("AssertStatementSegment"@.len() != "FunctionNameSegment"@.len());
    reveal_strlit("FunctionSegment");
    assert("AssertStatementSegment"@.len() != "FunctionSegment"@.len());
    reveal_strlit("NamedArgumentSegment");
    assert("AssertStatementSegment"@.len() != "NamedArgumentSegment"@.len());
    reveal_strlit("NormalizeFunctionNameSegment");
    assert("AssertStatementSegment"@.len() != "NormalizeFunctionNameSegment"@.len());
    reveal_strlit("ReplaceClauseSegment");
    assert("AssertStatementSegment"@.len() != "ReplaceClauseSegment"@.len());
    reveal_strlit("SemiStructuredAccessorSegment");
    assert("AssertStatementSegment"@.len() != "SemiStructuredAccessorSegment"@.len());
    reveal_strlit("StructTypeSegment");
    assert("AssertStatementSegment"@.len() != "StructTypeSegment"@.len());
    reveal_strlit("TableReferenceSegment");
    assert("AssertStatementSegment"@.len() != "TableReferenceSegment"@.len());
    reveal_strlit("TupleSegment");
    assert("AssertStatementSegment"@.len() != "TupleSegment"@.len());
    reveal_strlit("WildcardExpressionSegment");
    assert("AssertStatementSegment"@.len() != "WildcardExpressionSegment"@.len());
}

proof fn lemma_bigquery_part_4_keeps_assert_statement_segment(d: DialectView)
    ensures
        bigquery_changes_part_4(d).element("AssertStatementSegment"@) == d.element("AssertStatementSegment"@),
{
    reveal_strlit("AssertStatementSegment");
    reveal_strlit("AlterMaterializedViewStatementSegment");
    assert("AssertStatementSegment"@.len() != "AlterMaterializedViewStatementSegment"@.len());
    reveal_strlit("AlterTableStatementSegment");
    assert("AssertStatementSegment"@.len() != "AlterTableStatementSegment"@.len());
    reveal_strlit("AlterViewStatementSegment");
    assert("AssertStatementSegment"@.len() != "AlterViewStatementSegment"@.len());
    reveal_strlit("ClusterBySegment");
    assert("AssertStatementSegment"@.len() != "ClusterBySegment"@.len());
    reveal_strlit("ColumnDefinitionSegment");
    assert("AssertStatementSegment"@.len() != "ColumnDefinitionSegment"@.len());
    reveal_strlit("CreateExternalTableStatementSegment");
    assert("AssertStatementSegment"@.len() != "CreateExternalTableStatementSegment"@.len());
    reveal_strlit("CreateMaterializedViewStatementSegment");
    assert("AssertStatementSegment"@.len() != "CreateMaterializedViewStatementSegment"@.len());
    reveal_strlit("CreateTableStatementSegment");
    assert("AssertStatementSegment"@.len() != "CreateTableStatementSegment"@.len());
    reveal_strlit("CreateViewStatementSegment");
    assert("AssertStatementSegment"@.len() != "CreateViewStatementSegment"@.len());
    reveal_strlit("DropMaterializedViewStatementSegment");
    assert("AssertStatementSegment"@.len() != "DropMaterializedViewStatementSegment"@.len());
    reveal_strlit("FromPivotExpressionSegment");
    assert("AssertStatementSegment"@.len() != "FromPivotExpressionSegment"@.len());
    reveal_strlit("InsertStatementSegment");
    assert("AssertStatementSegment"@[0] != "InsertStatementSegment"@[0]);
    reveal_strlit("OptionsSegment");
    assert("AssertStatementSegment"@.len() != "OptionsSegment"@.len());
    reveal_strlit("ParameterizedSegment");
    assert("AssertStatementSegment"@.len() != "ParameterizedSegment"@.len());
    reveal_strlit("PartitionBySegment");
    assert("AssertStatementSegment"@.len() != "PartitionBySegment"@.len());
    reveal_strlit("PivotForClauseSegment");
    assert("AssertStatementSegment"@.len() != "PivotForClauseSegment"@.len());
    reveal_strlit("SamplingExpressionSegment");
    assert("AssertStatementSegment"@.len() != "SamplingExpressionSegment"@.len());
    reveal_strlit("SetStatementSegment");
    assert("AssertStatementSegment"@.len() != "SetStatementSegment"@.len());
    reveal_strlit("UnpivotAliasExpressionSegment");
    assert("AssertStatementSegment"@.len() != "UnpivotAliasExpressionSegment"@.len());
}

proof fn lemma_bigquery_part_5_keeps_assert_statement_segment(d: DialectView)
    ensures
        bigquery_changes_part_5(d).element("AssertStatementSegment"@) == d.element("AssertStatementSegment"@),
{
    reveal_strlit("AssertStatementSegment");
    reveal_strlit("DeleteStatementSegment");
    assert("AssertStatementSegment"@[0] != "DeleteStatementSegment"@[0]);
    reveal_strlit("ExportStatementSegment");
    assert("AssertStatementSegment"@[0] != "ExportStatementSegment"@[0]);
    reveal_strlit("LiteralGrammar");
    assert("AssertStatementSegment"@.len() != "LiteralGrammar"@.len());
    reveal_strlit("MergeInsertClauseSegment");
    assert("AssertStatementSegment"@.len() != "MergeInsertClauseSegment"@.len());
    reveal_strlit("MergeMatchSegment");
    assert("AssertStatementSegment"@.len() != "MergeMatchSegment"@.len());
    reveal_strlit("MergeNotMatchedBySourceClauseSegment");
    assert("AssertStatementSegment"@.len() != "MergeNotMatchedBySourceClauseSegment"@.len());
    reveal_strlit("MergeNotMatchedByTargetClauseSegment");
    assert("AssertStatementSegment"@.len() != "MergeNotMatchedByTargetClauseSegment"@.len());
    reveal_strlit("NumericLiteralSegment");
    assert("AssertStatementSegment"@.len() != "NumericLiteralSegment"@.len());
    reveal_strlit("PostTableExpressionGrammar");
    assert("AssertStatementSegment"@.len() != "PostTableExpressionGrammar"@.len());
    reveal_strlit("ProcedureNameSegment");
    assert("AssertStatementSegment"@.len() != "ProcedureNameSegment"@.len());
    reveal_strlit("QuotedIdentifierSegment");
    assert("AssertStatementSegment"@.len() != "QuotedIdentifierSegment"@.len());
    reveal_strlit("QuotedLiteralSegment");
    assert("AssertStatementSegment"@.len() != "QuotedLiteralSegment"@.len());
}

/// After the BigQuery grammar changes, `AssertStatementSegment` is what their last change of that
/// name sets, whatever dialect they start from.
pub proof fn lemma_bigquery_changes_assert_statement_segment(d: DialectView)
    ensures
        bigquery_grammar_changes(d).element("AssertStatementSegment"@) == Some(assert_statement_segment_element()),
{
    reveal(bigquery_grammar_changes);
    let d0 = d;
    let d1 = bigquery_changes_part_0(d0);
    let d2 = bigquery_changes_part_1(d1);
    let d3 = bigquery_changes_part_2(d2);
    let d4 = bigquery_changes_part_3(d3);
    let d5 = bigquery_changes_part_4(d4);
    let d6 = bigquery_changes_part_5(d5);
    lemma_bigquery_part_2_sets_assert_statement_segment(d2);
    lemma_bigquery_part_3_keeps_assert_statement_segment(d3);
    lemma_bigquery_part_4_keeps_assert_statement_segment(d4);
    lemma_bigquery_part_5_keeps_assert_statement_segment(d5);
}


/// The BigQuery grammar changes make `AssertStatementSegment` an
/// `assert_statement` node: `ASSERT`, a condition, then an optional `AS` and
/// a quoted message; whatever dialect they start from.
pub proof fn law_bigquery_assert_statement(d: DialectView)
    ensures
        ({
            let e = (ElementView::Node { kind: "assert_statement"@, grammar: GrammarView::sequence(seq![GrammarView::keyword("ASSERT"@), GrammarView::reference("ExpressionSegment"@), (GrammarView::Optional { grammar: Box::new(GrammarView::sequence(seq![GrammarView::keyword("AS"@), GrammarView::reference("QuotedLiteralSegment"@)])) })]) });
            &&& bigquery_grammar_changes(d).element("AssertStatementSegment"@) == Some(e)
        }),
{
    lemma_bigquery_changes_assert_statement_segment(d);
}

proof fn lemma_bigquery_part_1_sets_raise_statement_segment(d: DialectView)
    ensures
        bigquery_changes_part_1(d).element("RaiseStatementSegment"@) == Some(raise_statement_segment_element()),
{
    reveal_strlit("RaiseStatementSegment");
    reveal_strlit("QualifyClauseSegment");
    assert("RaiseStatementSegment"@.len() != "QualifyClauseSegment"@.len());
    reveal_strlit("SetExpressionSegment");
    assert("RaiseStatementSegment"@.len() != "SetExpressionSegment"@.len());
    reveal_strlit("SetOperatorSegment");
    assert("RaiseStatementSegment"@.len() != "SetOperatorSegment"@.len());
}

proof fn lemma_bigquery_part_2_keeps_raise_statement_segment(d: DialectView)
    ensures
        bigquery_changes_part_2(d).element("RaiseStatementSegment"@) == d.element("RaiseStatementSegment"@),
{
    reveal_strlit("RaiseStatementSegment");
    reveal_strlit("AssertStatementSegment");
    assert("RaiseStatementSegment"@.len() != "AssertStatementSegment"@.len());
    reveal_strlit("DateTimeFunctionContentsSegment");
    assert("RaiseStatementSegment"@.len() != "DateTimeFunctionContentsSegment"@.len());
    reveal_strlit("ExtractFunctionContentsSegment");
    assert("RaiseStatementSegment"@.len() != "ExtractFunctionContentsSegment"@.len());
    reveal_strlit("FileSegment");
    assert("RaiseStatementSegment"@.len() != "FileSegment"@.len());
    reveal_strlit("ForInStatementSegment");
    assert("RaiseStatementSegment"@[0] != "ForInStatementSegment"@[0]);
    reveal_strlit("ForInStatementsSegment");
    assert("RaiseStatementSegment"@.len() != "ForInStatementsSegment"@.len());
    reveal_strlit("IfStatementSegment");
    assert("RaiseStatementSegment"@.len() != "IfStatementSegment"@.len());
    reveal_strlit("IfStatementsSegment");
    assert("RaiseStatementSegment"@.len() != "IfStatementsSegment"@.len());
    reveal_strlit("IntervalExpressionSegment");
    assert("RaiseStatementSegment"@.len() != "IntervalExpressionSegment"@.len());
    reveal_strlit("LoopStatementSegment");
    assert("RaiseStatementSegment"@.len() != "LoopStatementSegment"@.len());
    reveal_strlit("LoopStatementsSegment");
    assert("RaiseStatementSegment"@[0] != "LoopStatementsSegment"@[0]);
    reveal_strlit("MultiStatementSegment");
    assert("RaiseStatementSegment"@[0] != "MultiStatementSegment"@[0]);
    reveal_strlit("NormalizeFunctionContentsSegment");
    assert("RaiseStatementSegment"@.len() != "NormalizeFunctionContentsSegment"@.len());
    reveal_strlit("RepeatStatementSegment");
    assert("RaiseStatementSegment"@.len() != "RepeatStatementSegment"@.len());
    reveal_strlit("RepeatStatementsSegment");
    assert("RaiseStatementSegment"@.len() != "RepeatStatementsSegment"@.len());
    reveal_strlit("SelectClauseModifierSegment");
    assert("RaiseStatementSegment"@.len() != "SelectClauseModifierSegment"@.len());
    reveal_strlit("StatementSegment");
    assert("RaiseStatementSegment"@.len() != "StatementSegment"@.len());
    reveal_strlit("UnorderedSelectStatementSegment");
    assert("RaiseStatementSegment"@.len() != "UnorderedSelectStatementSegment"@.len());
    reveal_strlit("WhileStatementSegment");
    assert("RaiseStatementSegment"@[0] != "WhileStatementSegment"@[0]);
    reveal_strlit("WhileStatementsSegment");
    assert("RaiseStatementSegment"@.len() != "WhileStatementsSegment"@.len());
}

proof fn lemma_bigquery_part_3_keeps_raise_statement_segment(d: DialectView)
    ensures
        bigquery_changes_part_3(d).element("RaiseStatementSegment"@) == d.element("RaiseStatementSegment"@),
{
    reveal_strlit("RaiseStatementSegment");
    reveal_strlit("ArrayExpressionSegment");
    assert("RaiseStatementSegment"@.len() != "ArrayExpressionSegment"@.len());
    reveal_strlit("ArrayFunctionContentsSegment");
    assert("RaiseStatementSegment"@.len() != "ArrayFunctionContentsSegment"@.len());
    reveal_strlit("ArrayFunctionNameSegment");
    assert("RaiseStatementSegment"@.len() != "ArrayFunctionNameSegment"@.len());
    reveal_strlit("ColumnReferenceSegment");
    assert("RaiseStatementSegment"@.len() != "ColumnReferenceSegment"@.len());
    reveal_strlit("DatatypeSegment");
    assert("RaiseStatementSegment"@.len() != "DatatypeSegment"@.len());
    reveal_strlit("DatePartWeekSegment");
    assert("RaiseStatementSegment"@.len() != "DatePartWeekSegment"@.len());
    reveal_strlit("DeclareStatementSegment");
    assert("RaiseStatementSegment"@.len() != "DeclareStatementSegment"@.len());
    reveal_strlit("ExceptClauseSegment");
    assert("RaiseStatementSegment"@.len() != "ExceptClauseSegment"@.len());
    reveal_strlit("ExtractFunctionNameSegment");
    assert("RaiseStatementSegment"@.len() != "ExtractFunctionNameSegment"@.len());
    reveal_strlit("FunctionDefinitionGrammar");
    assert("RaiseStatementSegment"@.len() != "FunctionDefinitionGrammar"@.len());
    reveal_strlit("FunctionNameSegment");
    assert("RaiseStatementSegment"@.len() != "FunctionNameSegment"@.len());
    reveal_strlit("FunctionSegment");
    assert("RaiseStatementSegment"@.len() != "FunctionSegment"@.len());
    reveal_strlit("NamedArgumentSegment");
    assert("RaiseStatementSegment"@.len() != "NamedArgumentSegment"@.len());
    reveal_strlit("NormalizeFunctionNameSegment");
    assert("RaiseStatementSegment"@.len() != "NormalizeFunctionNameSegment"@.len());
    reveal_strlit("ReplaceClauseSegment");
    assert("RaiseStatementSegment"@.len() != "ReplaceClauseSegment"@.len());
    reveal_strlit("SemiStructuredAccessorSegment");
    assert("RaiseStatementSegment"@.len() != "SemiStructuredAccessorSegment"@.len());
    reveal_strlit("StructTypeSegment");
    assert("RaiseStatementSegment"@.len() != "StructTypeSegment"@.len());
    reveal_strlit("TableReferenceSegment");
    assert("RaiseStatementSegment"@[0] != "TableReferenceSegment"@[0]);
    reveal_strlit("TupleSegment");
    assert("RaiseStatementSegment"@.len() != "TupleSegment"@.len());
    reveal_strlit("WildcardExpressionSegment");
    assert("RaiseStatementSegment"@.len() != "WildcardExpressionSegment"@.len());
}

proof fn lemma_bigquery_part_4_keeps_raise_statement_segment(d: DialectView)
    ensures
        bigquery_changes_part_4(d).element("RaiseStatementSegment"@) == d.element("RaiseStatementSegment"@),
{
    reveal_strlit("RaiseStatementSegment");
    reveal_strlit("AlterMaterializedViewStatementSegment");
    assert("RaiseStatementSegment"@.len() != "AlterMaterializedViewStatementSegment"@.len());
    reveal_strlit("AlterTableStatementSegment");
    assert("RaiseStatementSegment"@.len() != "AlterTableStatementSegment"@.len());
    reveal_strlit("AlterViewStatementSegment");
    assert("RaiseStatementSegment"@.len() != "AlterViewStatementSegment"@.len());
    reveal_strlit("ClusterBySegment");
    assert("RaiseStatementSegment"@.len() != "ClusterBySegment"@.len());
    reveal_strlit("ColumnDefinitionSegment");
    assert("RaiseStatementSegment"@.len() != "ColumnDefinitionSegment"@.len());
    reveal_strlit("CreateExternalTableStatementSegment");
    assert("RaiseStatementSegment"@.len() != "CreateExternalTableStatementSegment"@.len());
    reveal_strlit("CreateMaterializedViewStatementSegment");
    assert("RaiseStatementSegment"@.len() != "CreateMaterializedViewStatementSegment"@.len());
    reveal_strlit("CreateTableStatementSegment");
    assert("RaiseStatementSegment"@.len() != "CreateTableStatementSegment"@.len());
    reveal_strlit("CreateViewStatementSegment");
    assert("RaiseStatementSegment"@.len() != "CreateViewStatementSegment"@.len());
    reveal_strlit("DropMaterializedViewStatementSegment");
    assert("RaiseStatementSegment"@.len() != "DropMaterializedViewStatementSegment"@.len());
    reveal_strlit("FromPivotExpressionSegment");
    assert("RaiseStatementSegment"@.len() != "FromPivotExpressionSegment"@.len());
    reveal_strlit("InsertStatementSegment");
    assert("RaiseStatementSegment"@.len() != "InsertStatementSegment"@.len());
    reveal_strlit("OptionsSegment");
    assert("RaiseStatementSegment"@.len() != "OptionsSegment"@.len());
    reveal_strlit("ParameterizedSegment");
    assert("RaiseStatementSegment"@.len() != "ParameterizedSegment"@.len());
    reveal_strlit("PartitionBySegment");
    assert("RaiseStatementSegment"@.len() != "PartitionBySegment"@.len());
    reveal_strlit("PivotForClauseSegment");
    assert("RaiseStatementSegment"@[0] != "PivotForClauseSegment"@[0]);
    reveal_strlit("SamplingExpressionSegment");
    assert("RaiseStatementSegment"@.len() != "SamplingExpressionSegment"@.len());
    reveal_strlit("SetStatementSegment");
    assert("RaiseStatementSegment"@.len() != "SetStatementSegment"@.len());
    reveal_strlit("UnpivotAliasExpressionSegment");
    assert("RaiseStatementSegment"@.len() != "UnpivotAliasExpressionSegment"@.len());
}

proof fn lemma_bigquery_part_5_keeps_raise_statement_segment(d: DialectView)
    ensures
        bigquery_changes_part_5(d).element("RaiseStatementSegment"@) == d.element("RaiseStatementSegment"@),
{
    reveal_strlit("RaiseStatementSegment");
    reveal_strlit("DeleteStatementSegment");
    assert("RaiseStatementSegment"@.len() != "DeleteStatementSegment"@.len());
    reveal_strlit("ExportStatementSegment");
    assert("RaiseStatementSegment"@.len() != "ExportStatementSegment"@.len());
    reveal_strlit("LiteralGrammar");
    assert("RaiseStatementSegment"@.len() != "LiteralGrammar"@.len());
    reveal_strlit("MergeInsertClauseSegment");
    assert("RaiseStatementSegment"@.len() != "MergeInsertClauseSegment"@.len());
    reveal_strlit("MergeMatchSegment");
    assert("RaiseStatementSegment"@.len() != "MergeMatchSegment"@.len());
    reveal_strlit("MergeNotMatchedBySourceClauseSegment");
    assert("RaiseStatementSegment"@.len() != "MergeNotMatchedBySourceClauseSegment"@.len());
    reveal_strlit("MergeNotMatchedByTargetClauseSegment");
    assert("RaiseStatementSegment"@.len() != "MergeNotMatchedByTargetClauseSegment"@.len());
    reveal_strlit("NumericLiteralSegment");
    assert("RaiseStatementSegment"@[0] != "NumericLiteralSegment"@[0]);
    reveal_strlit("PostTableExpressionGrammar");
    assert("RaiseStatementSegment"@.len() != "PostTableExpressionGrammar"@.len());
    reveal_strlit("ProcedureNameSegment");
    assert("RaiseStatementSegment"@.len() != "ProcedureNameSegment"@.len());
    reveal_strlit("QuotedIdentifierSegment");
    assert("RaiseStatementSegment"@.len() != "QuotedIdentifierSegment"@.len());
    reveal_strlit("QuotedLiteralSegment");
    assert("RaiseStatementSegment"@.len() != "QuotedLiteralSegment"@.len());
}

/// After the BigQuery grammar changes, `RaiseStatementSegment` is what their last change of that
/// name sets, whatever dialect they start from.
pub proof fn lemma_bigquery_changes_raise_statement_segment(d: DialectView)
    ensures
        bigquery_grammar_changes(d).element("RaiseStatementSegment"@) == Some(raise_statement_segment_element()),
{
    reveal(bigquery_grammar_changes);
    let d0 = d;
    let d1 = bigquery_changes_part_0(d0);
    let d2 = bigquery_changes_part_1(d1);
    let d3 = bigquery_changes_part_2(d2);
    let d4 = bigquery_changes_part_3(d3);
    let d5 = bigquery_changes_part_4(d4);
    let d6 = bigquery_changes_part_5(d5);
    lemma_bigquery_part_1_sets_raise_statement_segment(d1);
    lemma_bigquery_part_2_keeps_raise_statement_segment(d2);
    lemma_bigquery_part_3_keeps_raise_statement_segment(d3);
    lemma_bigquery_part_4_keeps_raise_statement_segment(d4);
    lemma_bigquery_part_5_keeps_raise_statement_segment(d5);
}


/// The BigQuery grammar changes make `RaiseStatementSegment` a
/// `raise_statement` node: `RAISE`, then an optional `USING MESSAGE =` and an
/// optional expression; whatever dialect they start from.
pub proof fn law_bigquery_raise_statement(d: DialectView)
    ensures
        ({
            let e = (ElementView::Node { kind: "raise_statement"@, grammar: GrammarView::sequence(seq![GrammarView::keyword("RAISE"@), (GrammarView::Optional { grammar: Box::new(GrammarView::sequence(seq![GrammarView::keyword("USING"@), GrammarView::keyword("MESSAGE"@), GrammarView::reference("EqualsSegment"@), GrammarView::optional_reference("ExpressionSegment"@)])) })]) });
            &&& bigquery_grammar_changes(d).element("RaiseStatementSegment"@) == Some(e)
        }),
{
    lemma_bigquery_changes_raise_statement_segment(d);
}

} // verus!
