//! The grammar changes of the Databricks dialect: the elements it adds and the
//! grammars it replaces, in order. Each element or grammar is stated as a
//! value and built by a function proved to give that value.

use crate::dialect::{DialectModel, DialectView, Element, ElementView, has_grammar};
use crate::grammar::{Grammar, GrammarView, ParseMode, views, word_set};
use vstd::prelude::*;

verus! {

/// The Databricks element `DoubleQuotedUDFBody`.
pub open spec fn double_quoted_u_d_f_body_element() -> ElementView {
    ElementView::Grammar(GrammarView::TypedParser { template: "double_quote"@, kind: "udf_body"@ })
}

fn build_double_quoted_u_d_f_body() -> (e: Element)
    ensures
        e@ =~~= double_quoted_u_d_f_body_element(),
{
    Element::Grammar(Grammar::typed_parser("double_quote", "udf_body"))
}

/// The Databricks element `SingleQuotedUDFBody`.
pub open spec fn single_quoted_u_d_f_body_element() -> ElementView {
    ElementView::Grammar(GrammarView::TypedParser { template: "single_quote"@, kind: "udf_body"@ })
}

fn build_single_quoted_u_d_f_body() -> (e: Element)
    ensures
        e@ =~~= single_quoted_u_d_f_body_element(),
{
    Element::Grammar(Grammar::typed_parser("single_quote", "udf_body"))
}

/// The Databricks element `DollarQuotedUDFBody`.
pub open spec fn dollar_quoted_u_d_f_body_element() -> ElementView {
    ElementView::Grammar(GrammarView::TypedParser { template: "dollar_quote"@, kind: "udf_body"@ })
}

fn build_dollar_quoted_u_d_f_body() -> (e: Element)
    ensures
        e@ =~~= dollar_quoted_u_d_f_body_element(),
{
    Element::Grammar(Grammar::typed_parser("dollar_quote", "udf_body"))
}

/// The Databricks element `RightArrowSegment`.
pub open spec fn right_arrow_segment_element() -> ElementView {
    ElementView::Grammar(GrammarView::StringParser { template: "=>"@, kind: "right_arrow"@ })
}

fn build_right_arrow_segment() -> (e: Element)
    ensures
        e@ =~~= right_arrow_segment_element(),
{
    Element::Grammar(Grammar::string_parser("=>", "right_arrow"))
}

/// The Databricks element `NamedArgumentSegment`.
pub open spec fn named_argument_segment_element() -> ElementView {
    ElementView::Node { kind: "named_argument"@, grammar: GrammarView::Sequence { elements: seq![GrammarView::Ref { name: "NakedIdentifierSegment"@, optional: false }, GrammarView::Ref { name: "RightArrowSegment"@, optional: false }, GrammarView::Ref { name: "ExpressionSegment"@, optional: false }], terminators: seq![], parse_mode: ParseMode::Strict } }
}

fn build_named_argument_segment() -> (e: Element)
    ensures
        e@ =~~= named_argument_segment_element(),
{
    let g1: Vec<Grammar> = vec![Grammar::reference("NakedIdentifierSegment"), Grammar::reference("RightArrowSegment"), Grammar::reference("ExpressionSegment")];
    assert(views(g1@) =~~= seq![GrammarView::Ref { name: "NakedIdentifierSegment"@, optional: false }, GrammarView::Ref { name: "RightArrowSegment"@, optional: false }, GrammarView::Ref { name: "ExpressionSegment"@, optional: false }]);
    let g2: Vec<Grammar> = Vec::new();
    assert(views(g2@) =~= Seq::<GrammarView>::empty());
    let g3 = Grammar::sequence_with(g1, g2, ParseMode::Strict);
    Element::Node { kind: "named_argument", grammar: g3 }
}

/// The Databricks element `FunctionParameterListGrammarWithComments`.
pub open spec fn function_parameter_list_grammar_with_comments_element() -> ElementView {
    ElementView::Node { kind: "function_parameter_list_with_comments"@, grammar: GrammarView::Bracketed { elements: seq![GrammarView::Optional { grammar: Box::new(GrammarView::Delimited { elements: seq![GrammarView::Sequence { elements: seq![GrammarView::Ref { name: "FunctionParameterGrammar"@, optional: false }, GrammarView::AnyNumberOf { elements: seq![GrammarView::Sequence { elements: seq![GrammarView::Keyword { word: "DEFAULT"@ }, GrammarView::Ref { name: "LiteralGrammar"@, optional: false }], terminators: seq![], parse_mode: ParseMode::Strict }, GrammarView::Ref { name: "CommentClauseSegment"@, optional: false }], terminators: seq![], min_times: 0, max_times: None }], terminators: seq![], parse_mode: ParseMode::Strict }], allow_trailing: false, delimiter: None, terminators: seq![], allow_gaps: true }) }], bracket_type: "round"@ } }
}

fn build_function_parameter_list_grammar_with_comments() -> (e: Element)
    ensures
        e@ =~~= function_parameter_list_grammar_with_comments_element(),
{
    let g1: Vec<Grammar> = vec![Grammar::keyword("DEFAULT"), Grammar::reference("LiteralGrammar")];
    assert(views(g1@) =~~= seq![GrammarView::Keyword { word: "DEFAULT"@ }, GrammarView::Ref { name: "LiteralGrammar"@, optional: false }]);
    let g2: Vec<Grammar> = Vec::new();
    assert(views(g2@) =~= Seq::<GrammarView>::empty());
    let g3 = Grammar::sequence_with(g1, g2, ParseMode::Strict);
    let g4: Vec<Grammar> = vec![g3, Grammar::reference("CommentClauseSegment")];
    assert(views(g4@) =~~= seq![GrammarView::Sequence { elements: seq![GrammarView::Keyword { word: "DEFAULT"@ }, GrammarView::Ref { name: "LiteralGrammar"@, optional: false }], terminators: seq![], parse_mode: ParseMode::Strict }, GrammarView::Ref { name: "CommentClauseSegment"@, optional: false }]);
    let g5: Vec<Grammar> = Vec::new();
    assert(views(g5@) =~= Seq::<GrammarView>::empty());
    let g6 = Grammar::any_number_of_with(g4, g5, 0, None);
    let g7: Vec<Grammar> = vec![Grammar::reference("FunctionParameterGrammar"), g6];
    assert(views(g7@) =~~= seq![GrammarView::Ref { name: "FunctionParameterGrammar"@, optional: false }, GrammarView::AnyNumberOf { elements: seq![GrammarView::Sequence { elements: seq![GrammarView::Keyword { word: "DEFAULT"@ }, GrammarView::Ref { name: "LiteralGrammar"@, optional: false }], terminators: seq![], parse_mode: ParseMode::Strict }, GrammarView::Ref { name: "CommentClauseSegment"@, optional: false }], terminators: seq![], min_times: 0, max_times: None }]);
    let g8: Vec<Grammar> = Vec::new();
    assert(views(g8@) =~= Seq::<GrammarView>::empty());
    let g9 = Grammar::sequence_with(g7, g8, ParseMode::Strict);
    let g10: Vec<Grammar> = vec![g9];
    assert(views(g10@) =~~= seq![GrammarView::Sequence { elements: seq![GrammarView::Ref { name: "FunctionParameterGrammar"@, optional: false }, GrammarView::AnyNumberOf { elements: seq![GrammarView::Sequence { elements: seq![GrammarView::Keyword { word: "DEFAULT"@ }, GrammarView::Ref { name: "LiteralGrammar"@, optional: false }], terminators: seq![], parse_mode: ParseMode::Strict }, GrammarView::Ref { name: "CommentClauseSegment"@, optional: false }], terminators: seq![], min_times: 0, max_times: None }], terminators: seq![], parse_mode: ParseMode::Strict }]);
    let g11: Vec<Grammar> = Vec::new();
    assert(views(g11@) =~= Seq::<GrammarView>::empty());
    let g12 = Grammar::delimited_with(g10, false, None, g11, true);
    let g13 = g12.optional();
    let g14: Vec<Grammar> = vec![g13];
    assert(views(g14@) =~~= seq![GrammarView::Optional { grammar: Box::new(GrammarView::Delimited { elements: seq![GrammarView::Sequence { elements: seq![GrammarView::Ref { name: "FunctionParameterGrammar"@, optional: false }, GrammarView::AnyNumberOf { elements: seq![GrammarView::Sequence { elements: seq![GrammarView::Keyword { word: "DEFAULT"@ }, GrammarView::Ref { name: "LiteralGrammar"@, optional: false }], terminators: seq![], parse_mode: ParseMode::Strict }, GrammarView::Ref { name: "CommentClauseSegment"@, optional: false }], terminators: seq![], min_times: 0, max_times: None }], terminators: seq![], parse_mode: ParseMode::Strict }], allow_trailing: false, delimiter: None, terminators: seq![], allow_gaps: true }) }]);
    let g15 = Grammar::bracketed_with(g14, "round");
    Element::Node { kind: "function_parameter_list_with_comments", grammar: g15 }
}

/// The Databricks element `DatabricksFunctionDefinitionGrammar`.
pub open spec fn databricks_function_definition_grammar_element() -> ElementView {
    ElementView::Node { kind: "function_definition"@, grammar: GrammarView::Sequence { elements: seq![GrammarView::AnyNumberOf { elements: seq![GrammarView::Sequence { elements: seq![GrammarView::Keyword { word: "LANGUAGE"@ }, GrammarView::OneOf { elements: seq![GrammarView::Keyword { word: "SQL"@ }, GrammarView::Keyword { word: "PYTHON"@ }], terminators: seq![] }], terminators: seq![], parse_mode: ParseMode::Strict }, GrammarView::OneOf { elements: seq![GrammarView::Keyword { word: "DETERMINISTIC"@ }, GrammarView::Sequence { elements: seq![GrammarView::Keyword { word: "NOT"@ }, GrammarView::Keyword { word: "DETERMINISTIC"@ }], terminators: seq![], parse_mode: ParseMode::Strict }], terminators: seq![] }, GrammarView::Ref { name: "CommentClauseSegment"@, optional: false }, GrammarView::OneOf { elements: seq![GrammarView::Sequence { elements: seq![GrammarView::Keyword { word: "CONTAINS"@ }, GrammarView::Keyword { word: "SQL"@ }], terminators: seq![], parse_mode: ParseMode::Strict }, GrammarView::Sequence { elements: seq![GrammarView::Keyword { word: "READS"@ }, GrammarView::Keyword { word: "SQL"@ }, GrammarView::Keyword { word: "DATA"@ }], terminators: seq![], parse_mode: ParseMode::Strict }], terminators: seq![] }], terminators: seq![], min_times: 0, max_times: None }, GrammarView::OneOf { elements: seq![GrammarView::Sequence { elements: seq![GrammarView::Keyword { word: "AS"@ }, GrammarView::OneOf { elements: seq![GrammarView::Ref { name: "DoubleQuotedUDFBody"@, optional: false }, GrammarView::Ref { name: "SingleQuotedUDFBody"@, optional: false }, GrammarView::Ref { name: "DollarQuotedUDFBody"@, optional: false }, GrammarView::Bracketed { elements: seq![GrammarView::OneOf { elements: seq![GrammarView::Ref { name: "SelectStatementSegment"@, optional: false }, GrammarView::Ref { name: "ExpressionSegment"@, optional: false }], terminators: seq![] }], bracket_type: "round"@ }], terminators: seq![] }], terminators: seq![], parse_mode: ParseMode::Strict }, GrammarView::Sequence { elements: seq![GrammarView::Keyword { word: "RETURN"@ }, GrammarView::OneOf { elements: seq![GrammarView::Ref { name: "WithCompoundStatementSegment"@, optional: false }, GrammarView::Ref { name: "SelectStatementSegment"@, optional: false }, GrammarView::Ref { name: "ExpressionSegment"@, optional: false }], terminators: seq![] }], terminators: seq![], parse_mode: ParseMode::Strict }], terminators: seq![] }], terminators: seq![], parse_mode: ParseMode::Strict } }
}

#[verifier::rlimit(100)]
fn build_databricks_function_definition_grammar() -> (e: Element)
    ensures
        e@ =~~= databricks_function_definition_grammar_element(),
{
    let g1: Vec<Grammar> = vec![Grammar::keyword("SQL"), Grammar::keyword("PYTHON")];
    assert(views(g1@) =~~= seq![GrammarView::Keyword { word: "SQL"@ }, GrammarView::Keyword { word: "PYTHON"@ }]);
    let g2: Vec<Grammar> = Vec::new();
    assert(views(g2@) =~= Seq::<GrammarView>::empty());
    let g3 = Grammar::one_of_with(g1, g2);
    let g4: Vec<Grammar> = vec![Grammar::keyword("LANGUAGE"), g3];
    assert(views(g4@) =~~= seq![GrammarView::Keyword { word: "LANGUAGE"@ }, GrammarView::OneOf { elements: seq![GrammarView::Keyword { word: "SQL"@ }, GrammarView::Keyword { word: "PYTHON"@ }], terminators: seq![] }]);
    let g5: Vec<Grammar> = Vec::new();
    assert(views(g5@) =~= Seq::<GrammarView>::empty());
    let g6 = Grammar::sequence_with(g4, g5, ParseMode::Strict);
    let g7: Vec<Grammar> = vec![Grammar::keyword("NOT"), Grammar::keyword("DETERMINISTIC")];
    assert(views(g7@) =~~= seq![GrammarView::Keyword { word: "NOT"@ }, GrammarView::Keyword { word: "DETERMINISTIC"@ }]);
    let g8: Vec<Grammar> = Vec::new();
    assert(views(g8@) =~= Seq::<GrammarView>::empty());
    let g9 = Grammar::sequence_with(g7, g8, ParseMode::Strict);
    let g10: Vec<Grammar> = vec![Grammar::keyword("DETERMINISTIC"), g9];
    assert(views(g10@) =~~= seq![GrammarView::Keyword { word: "DETERMINISTIC"@ }, GrammarView::Sequence { elements: seq![GrammarView::Keyword { word: "NOT"@ }, GrammarView::Keyword { word: "DETERMINISTIC"@ }], terminators: seq![], parse_mode: ParseMode::Strict }]);
    let g11: Vec<Grammar> = Vec::new();
    assert(views(g11@) =~= Seq::<GrammarView>::empty());
    let g12 = Grammar::one_of_with(g10, g11);
    let g13: Vec<Grammar> = vec![Grammar::keyword("CONTAINS"), Grammar::keyword("SQL")];
    assert(views(g13@) =~~= seq![GrammarView::Keyword { word: "CONTAINS"@ }, GrammarView::Keyword { word: "SQL"@ }]);
    let g14: Vec<Grammar> = Vec::new();
    assert(views(g14@) =~= Seq::<GrammarView>::empty());
    let g15 = Grammar::sequence_with(g13, g14, ParseMode::Strict);
    let g16: Vec<Grammar> = vec![Grammar::keyword("READS"), Grammar::keyword("SQL"), Grammar::keyword("DATA")];
    assert(views(g16@) =~~= seq![GrammarView::Keyword { word: "READS"@ }, GrammarView::Keyword { word: "SQL"@ }, GrammarView::Keyword { word: "DATA"@ }]);
    let g17: Vec<Grammar> = Vec::new();
    assert(views(g17@) =~= Seq::<GrammarView>::empty());
    let g18 = Grammar::sequence_with(g16, g17, ParseMode::Strict);
    let g19: Vec<Grammar> = vec![g15, g18];
    assert(views(g19@) =~~= seq![GrammarView::Sequence { elements: seq![GrammarView::Keyword { word: "CONTAINS"@ }, GrammarView::Keyword { word: "SQL"@ }], terminators: seq![], parse_mode: ParseMode::Strict }, GrammarView::Sequence { elements: seq![GrammarView::Keyword { word: "READS"@ }, GrammarView::Keyword { word: "SQL"@ }, GrammarView::Keyword { word: "DATA"@ }], terminators: seq![], parse_mode: ParseMode::Strict }]);
    let g20: Vec<Grammar> = Vec::new();
    assert(views(g20@) =~= Seq::<GrammarView>::empty());
    let g21 = Grammar::one_of_with(g19, g20);
    let g22: Vec<Grammar> = vec![g6, g12, Grammar::reference("CommentClauseSegment"), g21];
    assert(views(g22@) =~~= seq![GrammarView::Sequence { elements: seq![GrammarView::Keyword { word: "LANGUAGE"@ }, GrammarView::OneOf { elements: seq![GrammarView::Keyword { word: "SQL"@ }, GrammarView::Keyword { word: "PYTHON"@ }], terminators: seq![] }], terminators: seq![], parse_mode: ParseMode::Strict }, GrammarView::OneOf { elements: seq![GrammarView::Keyword { word: "DETERMINISTIC"@ }, GrammarView::Sequence { elements: seq![GrammarView::Keyword { word: "NOT"@ }, GrammarView::Keyword { word: "DETERMINISTIC"@ }], terminators: seq![], parse_mode: ParseMode::Strict }], terminators: seq![] }, GrammarView::Ref { name: "CommentClauseSegment"@, optional: false }, GrammarView::OneOf { elements: seq![GrammarView::Sequence { elements: seq![GrammarView::Keyword { word: "CONTAINS"@ }, GrammarView::Keyword { word: "SQL"@ }], terminators: seq![], parse_mode: ParseMode::Strict }, GrammarView::Sequence { elements: seq![GrammarView::Keyword { word: "READS"@ }, GrammarView::Keyword { word: "SQL"@ }, GrammarView::Keyword { word: "DATA"@ }], terminators: seq![], parse_mode: ParseMode::Strict }], terminators: seq![] }]);
    let g23: Vec<Grammar> = Vec::new();
    assert(views(g23@) =~= Seq::<GrammarView>::empty());
    let g24 = Grammar::any_number_of_with(g22, g23, 0, None);
    let g25: Vec<Grammar> = vec![Grammar::reference("SelectStatementSegment"), Grammar::reference("ExpressionSegment")];
    assert(views(g25@) =~~= seq![GrammarView::Ref { name: "SelectStatementSegment"@, optional: false }, GrammarView::Ref { name: "ExpressionSegment"@, optional: false }]);
    let g26: Vec<Grammar> = Vec::new();
    assert(views(g26@) =~= Seq::<GrammarView>::empty());
    let g27 = Grammar::one_of_with(g25, g26);
    let g28: Vec<Grammar> = vec![g27];
    assert(views(g28@) =~~= seq![GrammarView::OneOf { elements: seq![GrammarView::Ref { name: "SelectStatementSegment"@, optional: false }, GrammarView::Ref { name: "ExpressionSegment"@, optional: false }], terminators: seq![] }]);
    let g29 = Grammar::bracketed_with(g28, "round");
    let g30: Vec<Grammar> = vec![Grammar::reference("DoubleQuotedUDFBody"), Grammar::reference("SingleQuotedUDFBody"), Grammar::reference("DollarQuotedUDFBody"), g29];
    assert(views(g30@) =~~= seq![GrammarView::Ref { name: "DoubleQuotedUDFBody"@, optional: false }, GrammarView::Ref { name: "SingleQuotedUDFBody"@, optional: false }, GrammarView::Ref { name: "DollarQuotedUDFBody"@, optional: false }, GrammarView::Bracketed { elements: seq![GrammarView::OneOf { elements: seq![GrammarView::Ref { name: "SelectStatementSegment"@, optional: false }, GrammarView::Ref { name: "ExpressionSegment"@, optional: false }], terminators: seq![] }], bracket_type: "round"@ }]);
    let g31: Vec<Grammar> = Vec::new();
    assert(views(g31@) =~= Seq::<GrammarView>::empty());
    let g32 = Grammar::one_of_with(g30, g31);
    let g33: Vec<Grammar> = vec![Grammar::keyword("AS"), g32];
    assert(views(g33@) =~~= seq![GrammarView::Keyword { word: "AS"@ }, GrammarView::OneOf { elements: seq![GrammarView::Ref { name: "DoubleQuotedUDFBody"@, optional: false }, GrammarView::Ref { name: "SingleQuotedUDFBody"@, optional: false }, GrammarView::Ref { name: "DollarQuotedUDFBody"@, optional: false }, GrammarView::Bracketed { elements: seq![GrammarView::OneOf { elements: seq![GrammarView::Ref { name: "SelectStatementSegment"@, optional: false }, GrammarView::Ref { name: "ExpressionSegment"@, optional: false }], terminators: seq![] }], bracket_type: "round"@ }], terminators: seq![] }]);
    let g34: Vec<Grammar> = Vec::new();
    assert(views(g34@) =~= Seq::<GrammarView>::empty());
    let g35 = Grammar::sequence_with(g33, g34, ParseMode::Strict);
    let g36: Vec<Grammar> = vec![Grammar::reference("WithCompoundStatementSegment"), Grammar::reference("SelectStatementSegment"), Grammar::reference("ExpressionSegment")];
    assert(views(g36@) =~~= seq![GrammarView::Ref { name: "WithCompoundStatementSegment"@, optional: false }, GrammarView::Ref { name: "SelectStatementSegment"@, optional: false }, GrammarView::Ref { name: "ExpressionSegment"@, optional: false }]);
    let g37: Vec<Grammar> = Vec::new();
    assert(views(g37@) =~= Seq::<GrammarView>::empty());
    let g38 = Grammar::one_of_with(g36, g37);
    let g39: Vec<Grammar> = vec![Grammar::keyword("RETURN"), g38];
    assert(views(g39@) =~~= seq![GrammarView::Keyword { word: "RETURN"@ }, GrammarView::OneOf { elements: seq![GrammarView::Ref { name: "WithCompoundStatementSegment"@, optional: false }, GrammarView::Ref { name: "SelectStatementSegment"@, optional: false }, GrammarView::Ref { name: "ExpressionSegment"@, optional: false }], terminators: seq![] }]);
    let g40: Vec<Grammar> = Vec::new();
    assert(views(g40@) =~= Seq::<GrammarView>::empty());
    let g41 = Grammar::sequence_with(g39, g40, ParseMode::Strict);
    let g42: Vec<Grammar> = vec![g35, g41];
    assert(views(g42@) =~~= seq![GrammarView::Sequence { elements: seq![GrammarView::Keyword { word: "AS"@ }, GrammarView::OneOf { elements: seq![GrammarView::Ref { name: "DoubleQuotedUDFBody"@, optional: false }, GrammarView::Ref { name: "SingleQuotedUDFBody"@, optional: false }, GrammarView::Ref { name: "DollarQuotedUDFBody"@, optional: false }, GrammarView::Bracketed { elements: seq![GrammarView::OneOf { elements: seq![GrammarView::Ref { name: "SelectStatementSegment"@, optional: false }, GrammarView::Ref { name: "ExpressionSegment"@, optional: false }], terminators: seq![] }], bracket_type: "round"@ }], terminators: seq![] }], terminators: seq![], parse_mode: ParseMode::Strict }, GrammarView::Sequence { elements: seq![GrammarView::Keyword { word: "RETURN"@ }, GrammarView::OneOf { elements: seq![GrammarView::Ref { name: "WithCompoundStatementSegment"@, optional: false }, GrammarView::Ref { name: "SelectStatementSegment"@, optional: false }, GrammarView::Ref { name: "ExpressionSegment"@, optional: false }], terminators: seq![] }], terminators: seq![], parse_mode: ParseMode::Strict }]);
    let g43: Vec<Grammar> = Vec::new();
    assert(views(g43@) =~= Seq::<GrammarView>::empty());
    let g44 = Grammar::one_of_with(g42, g43);
    let g45: Vec<Grammar> = vec![g24, g44];
    assert(views(g45@) =~~= seq![GrammarView::AnyNumberOf { elements: seq![GrammarView::Sequence { elements: seq![GrammarView::Keyword { word: "LANGUAGE"@ }, GrammarView::OneOf { elements: seq![GrammarView::Keyword { word: "SQL"@ }, GrammarView::Keyword { word: "PYTHON"@ }], terminators: seq![] }], terminators: seq![], parse_mode: ParseMode::Strict }, GrammarView::OneOf { elements: seq![GrammarView::Keyword { word: "DETERMINISTIC"@ }, GrammarView::Sequence { elements: seq![GrammarView::Keyword { word: "NOT"@ }, GrammarView::Keyword { word: "DETERMINISTIC"@ }], terminators: seq![], parse_mode: ParseMode::Strict }], terminators: seq![] }, GrammarView::Ref { name: "CommentClauseSegment"@, optional: false }, GrammarView::OneOf { elements: seq![GrammarView::Sequence { elements: seq![GrammarView::Keyword { word: "CONTAINS"@ }, GrammarView::Keyword { word: "SQL"@ }], terminators: seq![], parse_mode: ParseMode::Strict }, GrammarView::Sequence { elements: seq![GrammarView::Keyword { word: "READS"@ }, GrammarView::Keyword { word: "SQL"@ }, GrammarView::Keyword { word: "DATA"@ }], terminators: seq![], parse_mode: ParseMode::Strict }], terminators: seq![] }], terminators: seq![], min_times: 0, max_times: None }, GrammarView::OneOf { elements: seq![GrammarView::Sequence { elements: seq![GrammarView::Keyword { word: "AS"@ }, GrammarView::OneOf { elements: seq![GrammarView::Ref { name: "DoubleQuotedUDFBody"@, optional: false }, GrammarView::Ref { name: "SingleQuotedUDFBody"@, optional: false }, GrammarView::Ref { name: "DollarQuotedUDFBody"@, optional: false }, GrammarView::Bracketed { elements: seq![GrammarView::OneOf { elements: seq![GrammarView::Ref { name: "SelectStatementSegment"@, optional: false }, GrammarView::Ref { name: "ExpressionSegment"@, optional: false }], terminators: seq![] }], bracket_type: "round"@ }], terminators: seq![] }], terminators: seq![], parse_mode: ParseMode::Strict }, GrammarView::Sequence { elements: seq![GrammarView::Keyword { word: "RETURN"@ }, GrammarView::OneOf { elements: seq![GrammarView::Ref { name: "WithCompoundStatementSegment"@, optional: false }, GrammarView::Ref { name: "SelectStatementSegment"@, optional: false }, GrammarView::Ref { name: "ExpressionSegment"@, optional: false }], terminators: seq![] }], terminators: seq![], parse_mode: ParseMode::Strict }], terminators: seq![] }]);
    let g46: Vec<Grammar> = Vec::new();
    assert(views(g46@) =~= Seq::<GrammarView>::empty());
    let g47 = Grammar::sequence_with(g45, g46, ParseMode::Strict);
    Element::Node { kind: "function_definition", grammar: g47 }
}

/// The Databricks element `CreateDatabricksFunctionStatementSegment`.
pub open spec fn create_databricks_function_statement_segment_element() -> ElementView {
    ElementView::Node { kind: "create_function_statement"@, grammar: GrammarView::Sequence { elements: seq![GrammarView::Keyword { word: "CREATE"@ }, GrammarView::Ref { name: "OrReplaceGrammar"@, optional: true }, GrammarView::Ref { name: "TemporaryGrammar"@, optional: true }, GrammarView::Keyword { word: "FUNCTION"@ }, GrammarView::Ref { name: "IfNotExistsGrammar"@, optional: true }, GrammarView::Ref { name: "FunctionNameSegment"@, optional: false }, GrammarView::Ref { name: "FunctionParameterListGrammarWithComments"@, optional: false }, GrammarView::Optional { grammar: Box::new(GrammarView::Sequence { elements: seq![GrammarView::Keyword { word: "RETURNS"@ }, GrammarView::Ref { name: "DatatypeSegment"@, optional: false }], terminators: seq![], parse_mode: ParseMode::Strict }) }, GrammarView::Ref { name: "DatabricksFunctionDefinitionGrammar"@, optional: false }], terminators: seq![], parse_mode: ParseMode::Strict } }
}

fn build_create_databricks_function_statement_segment() -> (e: Element)
    ensures
        e@ =~~= create_databricks_function_statement_segment_element(),
{
    let g1: Vec<Grammar> = vec![Grammar::keyword("RETURNS"), Grammar::reference("DatatypeSegment")];
    assert(views(g1@) =~~= seq![GrammarView::Keyword { word: "RETURNS"@ }, GrammarView::Ref { name: "DatatypeSegment"@, optional: false }]);
    let g2: Vec<Grammar> = Vec::new();
    assert(views(g2@) =~= Seq::<GrammarView>::empty());
    let g3 = Grammar::sequence_with(g1, g2, ParseMode::Strict);
    let g4 = g3.optional();
    let g5: Vec<Grammar> = vec![Grammar::keyword("CREATE"), Grammar::optional_reference("OrReplaceGrammar"), Grammar::optional_reference("TemporaryGrammar"), Grammar::keyword("FUNCTION"), Grammar::optional_reference("IfNotExistsGrammar"), Grammar::reference("FunctionNameSegment"), Grammar::reference("FunctionParameterListGrammarWithComments"), g4, Grammar::reference("DatabricksFunctionDefinitionGrammar")];
    assert(views(g5@) =~~= seq![GrammarView::Keyword { word: "CREATE"@ }, GrammarView::Ref { name: "OrReplaceGrammar"@, optional: true }, GrammarView::Ref { name: "TemporaryGrammar"@, optional: true }, GrammarView::Keyword { word: "FUNCTION"@ }, GrammarView::Ref { name: "IfNotExistsGrammar"@, optional: true }, GrammarView::Ref { name: "FunctionNameSegment"@, optional: false }, GrammarView::Ref { name: "FunctionParameterListGrammarWithComments"@, optional: false }, GrammarView::Optional { grammar: Box::new(GrammarView::Sequence { elements: seq![GrammarView::Keyword { word: "RETURNS"@ }, GrammarView::Ref { name: "DatatypeSegment"@, optional: false }], terminators: seq![], parse_mode: ParseMode::Strict }) }, GrammarView::Ref { name: "DatabricksFunctionDefinitionGrammar"@, optional: false }]);
    let g6: Vec<Grammar> = Vec::new();
    assert(views(g6@) =~= Seq::<GrammarView>::empty());
    let g7 = Grammar::sequence_with(g5, g6, ParseMode::Strict);
    Element::Node { kind: "create_function_statement", grammar: g7 }
}

/// The Databricks element `PrincipalIdentifierSegment`.
pub open spec fn principal_identifier_segment_element() -> ElementView {
    ElementView::Grammar(GrammarView::OneOf { elements: seq![GrammarView::Ref { name: "NakedIdentifierSegment"@, optional: false }, GrammarView::Ref { name: "BackQuotedIdentifierSegment"@, optional: false }], terminators: seq![] })
}

fn build_principal_identifier_segment() -> (e: Element)
    ensures
        e@ =~~= principal_identifier_segment_element(),
{
    let g1: Vec<Grammar> = vec![Grammar::reference("NakedIdentifierSegment"), Grammar::reference("BackQuotedIdentifierSegment")];
    assert(views(g1@) =~~= seq![GrammarView::Ref { name: "NakedIdentifierSegment"@, optional: false }, GrammarView::Ref { name: "BackQuotedIdentifierSegment"@, optional: false }]);
    let g2: Vec<Grammar> = Vec::new();
    assert(views(g2@) =~= Seq::<GrammarView>::empty());
    let g3 = Grammar::one_of_with(g1, g2);
    Element::Grammar(g3)
}

/// The Databricks element `SetOwnerGrammar`.
pub open spec fn set_owner_grammar_element() -> ElementView {
    ElementView::Grammar(GrammarView::Sequence { elements: seq![GrammarView::Optional { grammar: Box::new(GrammarView::Keyword { word: "SET"@ }) }, GrammarView::Keyword { word: "OWNER"@ }, GrammarView::Keyword { word: "TO"@ }, GrammarView::Ref { name: "PrincipalIdentifierSegment"@, optional: false }], terminators: seq![], parse_mode: ParseMode::Strict })
}

fn build_set_owner_grammar() -> (e: Element)
    ensures
        e@ =~~= set_owner_grammar_element(),
{
    let g1 = Grammar::keyword("SET").optional();
    let g2: Vec<Grammar> = vec![g1, Grammar::keyword("OWNER"), Grammar::keyword("TO"), Grammar::reference("PrincipalIdentifierSegment")];
    assert(views(g2@) =~~= seq![GrammarView::Optional { grammar: Box::new(GrammarView::Keyword { word: "SET"@ }) }, GrammarView::Keyword { word: "OWNER"@ }, GrammarView::Keyword { word: "TO"@ }, GrammarView::Ref { name: "PrincipalIdentifierSegment"@, optional: false }]);
    let g3: Vec<Grammar> = Vec::new();
    assert(views(g3@) =~= Seq::<GrammarView>::empty());
    let g4 = Grammar::sequence_with(g2, g3, ParseMode::Strict);
    Element::Grammar(g4)
}

/// The Databricks element `PredictiveOptimizationGrammar`.
pub open spec fn predictive_optimization_grammar_element() -> ElementView {
    ElementView::Grammar(GrammarView::Sequence { elements: seq![GrammarView::OneOf { elements: seq![GrammarView::Keyword { word: "ENABLE"@ }, GrammarView::Keyword { word: "DISABLE"@ }, GrammarView::Keyword { word: "INHERIT"@ }], terminators: seq![] }, GrammarView::Keyword { word: "PREDICTIVE"@ }, GrammarView::Keyword { word: "OPTIMIZATION"@ }], terminators: seq![], parse_mode: ParseMode::Strict })
}

fn build_predictive_optimization_grammar() -> (e: Element)
    ensures
        e@ =~~= predictive_optimization_grammar_element(),
{
    let g1: Vec<Grammar> = vec![Grammar::keyword("ENABLE"), Grammar::keyword("DISABLE"), Grammar::keyword("INHERIT")];
    assert(views(g1@) =~~= seq![GrammarView::Keyword { word: "ENABLE"@ }, GrammarView::Keyword { word: "DISABLE"@ }, GrammarView::Keyword { word: "INHERIT"@ }]);
    let g2: Vec<Grammar> = Vec::new();
    assert(views(g2@) =~= Seq::<GrammarView>::empty());
    let g3 = Grammar::one_of_with(g1, g2);
    let g4: Vec<Grammar> = vec![g3, Grammar::keyword("PREDICTIVE"), Grammar::keyword("OPTIMIZATION")];
    assert(views(g4@) =~~= seq![GrammarView::OneOf { elements: seq![GrammarView::Keyword { word: "ENABLE"@ }, GrammarView::Keyword { word: "DISABLE"@ }, GrammarView::Keyword { word: "INHERIT"@ }], terminators: seq![] }, GrammarView::Keyword { word: "PREDICTIVE"@ }, GrammarView::Keyword { word: "OPTIMIZATION"@ }]);
    let g5: Vec<Grammar> = Vec::new();
    assert(views(g5@) =~= Seq::<GrammarView>::empty());
    let g6 = Grammar::sequence_with(g4, g5, ParseMode::Strict);
    Element::Grammar(g6)
}

/// The Databricks element `SetTagsGrammar`.
pub open spec fn set_tags_grammar_element() -> ElementView {
    ElementView::Grammar(GrammarView::Sequence { elements: seq![GrammarView::Keyword { word: "SET"@ }, GrammarView::Keyword { word: "TAGS"@ }, GrammarView::Ref { name: "BracketedPropertyListGrammar"@, optional: false }], terminators: seq![], parse_mode: ParseMode::Strict })
}

fn build_set_tags_grammar() -> (e: Element)
    ensures
        e@ =~~= set_tags_grammar_element(),
{
    let g1: Vec<Grammar> = vec![Grammar::keyword("SET"), Grammar::keyword("TAGS"), Grammar::reference("BracketedPropertyListGrammar")];
    assert(views(g1@) =~~= seq![GrammarView::Keyword { word: "SET"@ }, GrammarView::Keyword { word: "TAGS"@ }, GrammarView::Ref { name: "BracketedPropertyListGrammar"@, optional: false }]);
    let g2: Vec<Grammar> = Vec::new();
    assert(views(g2@) =~= Seq::<GrammarView>::empty());
    let g3 = Grammar::sequence_with(g1, g2, ParseMode::Strict);
    Element::Grammar(g3)
}

/// The Databricks element `UnsetTagsGrammar`.
pub open spec fn unset_tags_grammar_element() -> ElementView {
    ElementView::Grammar(GrammarView::Sequence { elements: seq![GrammarView::Keyword { word: "UNSET"@ }, GrammarView::Keyword { word: "TAGS"@ }, GrammarView::Ref { name: "BracketedPropertyNameListGrammar"@, optional: false }], terminators: seq![], parse_mode: ParseMode::Strict })
}

fn build_unset_tags_grammar() -> (e: Element)
    ensures
        e@ =~~= unset_tags_grammar_element(),
{
    let g1: Vec<Grammar> = vec![Grammar::keyword("UNSET"), Grammar::keyword("TAGS"), Grammar::reference("BracketedPropertyNameListGrammar")];
    assert(views(g1@) =~~= seq![GrammarView::Keyword { word: "UNSET"@ }, GrammarView::Keyword { word: "TAGS"@ }, GrammarView::Ref { name: "BracketedPropertyNameListGrammar"@, optional: false }]);
    let g2: Vec<Grammar> = Vec::new();
    assert(views(g2@) =~= Seq::<GrammarView>::empty());
    let g3 = Grammar::sequence_with(g1, g2, ParseMode::Strict);
    Element::Grammar(g3)
}

/// The Databricks element `ColumnDefaultGrammar`.
pub open spec fn column_default_grammar_element() -> ElementView {
    ElementView::Grammar(GrammarView::Sequence { elements: seq![GrammarView::Keyword { word: "DEFAULT"@ }, GrammarView::Ref { name: "LiteralGrammar"@, optional: false }], terminators: seq![], parse_mode: ParseMode::Strict })
}

fn build_column_default_grammar() -> (e: Element)
    ensures
        e@ =~~= column_default_grammar_element(),
{
    let g1: Vec<Grammar> = vec![Grammar::keyword("DEFAULT"), Grammar::reference("LiteralGrammar")];
    assert(views(g1@) =~~= seq![GrammarView::Keyword { word: "DEFAULT"@ }, GrammarView::Ref { name: "LiteralGrammar"@, optional: false }]);
    let g2: Vec<Grammar> = Vec::new();
    assert(views(g2@) =~= Seq::<GrammarView>::empty());
    let g3 = Grammar::sequence_with(g1, g2, ParseMode::Strict);
    Element::Grammar(g3)
}

/// The Databricks element `ConstraintOptionGrammar`.
pub open spec fn constraint_option_grammar_element() -> ElementView {
    ElementView::Grammar(GrammarView::Sequence { elements: seq![GrammarView::Optional { grammar: Box::new(GrammarView::Sequence { elements: seq![GrammarView::Keyword { word: "ENABLE"@ }, GrammarView::Keyword { word: "NOVALIDATE"@ }], terminators: seq![], parse_mode: ParseMode::Strict }) }, GrammarView::Optional { grammar: Box::new(GrammarView::Sequence { elements: seq![GrammarView::Keyword { word: "NOT"@ }, GrammarView::Keyword { word: "ENFORCED"@ }], terminators: seq![], parse_mode: ParseMode::Strict }) }, GrammarView::Optional { grammar: Box::new(GrammarView::Keyword { word: "DEFERRABLE"@ }) }, GrammarView::Optional { grammar: Box::new(GrammarView::Sequence { elements: seq![GrammarView::Keyword { word: "INITIALLY"@ }, GrammarView::Keyword { word: "DEFERRED"@ }], terminators: seq![], parse_mode: ParseMode::Strict }) }, GrammarView::Optional { grammar: Box::new(GrammarView::OneOf { elements: seq![GrammarView::Keyword { word: "NORELY"@ }, GrammarView::Keyword { word: "RELY"@ }], terminators: seq![] }) }], terminators: seq![], parse_mode: ParseMode::Strict })
}

fn build_constraint_option_grammar() -> (e: Element)
    ensures
        e@ =~~= constraint_option_grammar_element(),
{
    let g1: Vec<Grammar> = vec![Grammar::keyword("ENABLE"), Grammar::keyword("NOVALIDATE")];
    assert(views(g1@) =~~= seq![GrammarView::Keyword { word: "ENABLE"@ }, GrammarView::Keyword { word: "NOVALIDATE"@ }]);
    let g2: Vec<Grammar> = Vec::new();
    assert(views(g2@) =~= Seq::<GrammarView>::empty());
    let g3 = Grammar::sequence_with(g1, g2, ParseMode::Strict);
    let g4 = g3.optional();
    let g5: Vec<Grammar> = vec![Grammar::keyword("NOT"), Grammar::keyword("ENFORCED")];
    assert(views(g5@) =~~= seq![GrammarView::Keyword { word: "NOT"@ }, GrammarView::Keyword { word: "ENFORCED"@ }]);
    let g6: Vec<Grammar> = Vec::new();
    assert(views(g6@) =~= Seq::<GrammarView>::empty());
    let g7 = Grammar::sequence_with(g5, g6, ParseMode::Strict);
    let g8 = g7.optional();
    let g9 = Grammar::keyword("DEFERRABLE").optional();
    let g10: Vec<Grammar> = vec![Grammar::keyword("INITIALLY"), Grammar::keyword("DEFERRED")];
    assert(views(g10@) =~~= seq![GrammarView::Keyword { word: "INITIALLY"@ }, GrammarView::Keyword { word: "DEFERRED"@ }]);
    let g11: Vec<Grammar> = Vec::new();
    assert(views(g11@) =~= Seq::<GrammarView>::empty());
    let g12 = Grammar::sequence_with(g10, g11, ParseMode::Strict);
    let g13 = g12.optional();
    let g14: Vec<Grammar> = vec![Grammar::keyword("NORELY"), Grammar::keyword("RELY")];
    assert(views(g14@) =~~= seq![GrammarView::Keyword { word: "NORELY"@ }, GrammarView::Keyword { word: "RELY"@ }]);
    let g15: Vec<Grammar> = Vec::new();
    assert(views(g15@) =~= Seq::<GrammarView>::empty());
    let g16 = Grammar::one_of_with(g14, g15);
    let g17 = g16.optional();
    let g18: Vec<Grammar> = vec![g4, g8, g9, g13, g17];
    assert(views(g18@) =~~= seq![GrammarView::Optional { grammar: Box::new(GrammarView::Sequence { elements: seq![GrammarView::Keyword { word: "ENABLE"@ }, GrammarView::Keyword { word: "NOVALIDATE"@ }], terminators: seq![], parse_mode: ParseMode::Strict }) }, GrammarView::Optional { grammar: Box::new(GrammarView::Sequence { elements: seq![GrammarView::Keyword { word: "NOT"@ }, GrammarView::Keyword { word: "ENFORCED"@ }], terminators: seq![], parse_mode: ParseMode::Strict }) }, GrammarView::Optional { grammar: Box::new(GrammarView::Keyword { word: "DEFERRABLE"@ }) }, GrammarView::Optional { grammar: Box::new(GrammarView::Sequence { elements: seq![GrammarView::Keyword { word: "INITIALLY"@ }, GrammarView::Keyword { word: "DEFERRED"@ }], terminators: seq![], parse_mode: ParseMode::Strict }) }, GrammarView::Optional { grammar: Box::new(GrammarView::OneOf { elements: seq![GrammarView::Keyword { word: "NORELY"@ }, GrammarView::Keyword { word: "RELY"@ }], terminators: seq![] }) }]);
    let g19: Vec<Grammar> = Vec::new();
    assert(views(g19@) =~= Seq::<GrammarView>::empty());
    let g20 = Grammar::sequence_with(g18, g19, ParseMode::Strict);
    Element::Grammar(g20)
}

/// The Databricks element `ForeignKeyOptionGrammar`.
pub open spec fn foreign_key_option_grammar_element() -> ElementView {
    ElementView::Grammar(GrammarView::Sequence { elements: seq![GrammarView::Optional { grammar: Box::new(GrammarView::Sequence { elements: seq![GrammarView::Keyword { word: "MATCH"@ }, GrammarView::Keyword { word: "FULL"@ }], terminators: seq![], parse_mode: ParseMode::Strict }) }, GrammarView::Optional { grammar: Box::new(GrammarView::Sequence { elements: seq![GrammarView::Keyword { word: "ON"@ }, GrammarView::Keyword { word: "UPDATE"@ }, GrammarView::Keyword { word: "NO"@ }, GrammarView::Keyword { word: "ACTION"@ }], terminators: seq![], parse_mode: ParseMode::Strict }) }, GrammarView::Optional { grammar: Box::new(GrammarView::Sequence { elements: seq![GrammarView::Keyword { word: "ON"@ }, GrammarView::Keyword { word: "DELETE"@ }, GrammarView::Keyword { word: "NO"@ }, GrammarView::Keyword { word: "ACTION"@ }], terminators: seq![], parse_mode: ParseMode::Strict }) }], terminators: seq![], parse_mode: ParseMode::Strict })
}

fn build_foreign_key_option_grammar() -> (e: Element)
    ensures
        e@ =~~= foreign_key_option_grammar_element(),
{
    let g1: Vec<Grammar> = vec![Grammar::keyword("MATCH"), Grammar::keyword("FULL")];
    assert(views(g1@) =~~= seq![GrammarView::Keyword { word: "MATCH"@ }, GrammarView::Keyword { word: "FULL"@ }]);
    let g2: Vec<Grammar> = Vec::new();
    assert(views(g2@) =~= Seq::<GrammarView>::empty());
    let g3 = Grammar::sequence_with(g1, g2, ParseMode::Strict);
    let g4 = g3.optional();
    let g5: Vec<Grammar> = vec![Grammar::keyword("ON"), Grammar::keyword("UPDATE"), Grammar::keyword("NO"), Grammar::keyword("ACTION")];
    assert(views(g5@) =~~= seq![GrammarView::Keyword { word: "ON"@ }, GrammarView::Keyword { word: "UPDATE"@ }, GrammarView::Keyword { word: "NO"@ }, GrammarView::Keyword { word: "ACTION"@ }]);
    let g6: Vec<Grammar> = Vec::new();
    assert(views(g6@) =~= Seq::<GrammarView>::empty());
    let g7 = Grammar::sequence_with(g5, g6, ParseMode::Strict);
    let g8 = g7.optional();
    let g9: Vec<Grammar> = vec![Grammar::keyword("ON"), Grammar::keyword("DELETE"), Grammar::keyword("NO"), Grammar::keyword("ACTION")];
    assert(views(g9@) =~~= seq![GrammarView::Keyword { word: "ON"@ }, GrammarView::Keyword { word: "DELETE"@ }, GrammarView::Keyword { word: "NO"@ }, GrammarView::Keyword { word: "ACTION"@ }]);
    let g10: Vec<Grammar> = Vec::new();
    assert(views(g10@) =~= Seq::<GrammarView>::empty());
    let g11 = Grammar::sequence_with(g9, g10, ParseMode::Strict);
    let g12 = g11.optional();
    let g13: Vec<Grammar> = vec![g4, g8, g12];
    assert(views(g13@) =~~= seq![GrammarView::Optional { grammar: Box::new(GrammarView::Sequence { elements: seq![GrammarView::Keyword { word: "MATCH"@ }, GrammarView::Keyword { word: "FULL"@ }], terminators: seq![], parse_mode: ParseMode::Strict }) }, GrammarView::Optional { grammar: Box::new(GrammarView::Sequence { elements: seq![GrammarView::Keyword { word: "ON"@ }, GrammarView::Keyword { word: "UPDATE"@ }, GrammarView::Keyword { word: "NO"@ }, GrammarView::Keyword { word: "ACTION"@ }], terminators: seq![], parse_mode: ParseMode::Strict }) }, GrammarView::Optional { grammar: Box::new(GrammarView::Sequence { elements: seq![GrammarView::Keyword { word: "ON"@ }, GrammarView::Keyword { word: "DELETE"@ }, GrammarView::Keyword { word: "NO"@ }, GrammarView::Keyword { word: "ACTION"@ }], terminators: seq![], parse_mode: ParseMode::Strict }) }]);
    let g14: Vec<Grammar> = Vec::new();
    assert(views(g14@) =~= Seq::<GrammarView>::empty());
    let g15 = Grammar::sequence_with(g13, g14, ParseMode::Strict);
    Element::Grammar(g15)
}

/// The Databricks element `DropConstraintGrammar`.
pub open spec fn drop_constraint_grammar_element() -> ElementView {
    ElementView::Grammar(GrammarView::Sequence { elements: seq![GrammarView::Keyword { word: "DROP"@ }, GrammarView::OneOf { elements: seq![GrammarView::Sequence { elements: seq![GrammarView::Ref { name: "PrimaryKeyGrammar"@, optional: false }, GrammarView::Ref { name: "IfExistsGrammar"@, optional: true }, GrammarView::Optional { grammar: Box::new(GrammarView::OneOf { elements: seq![GrammarView::Keyword { word: "RESTRICT"@ }, GrammarView::Keyword { word: "CASCADE"@ }], terminators: seq![] }) }], terminators: seq![], parse_mode: ParseMode::Strict }, GrammarView::Sequence { elements: seq![GrammarView::Ref { name: "ForeignKeyGrammar"@, optional: false }, GrammarView::Ref { name: "IfExistsGrammar"@, optional: true }, GrammarView::Bracketed { elements: seq![GrammarView::Delimited { elements: seq![GrammarView::Ref { name: "ColumnReferenceSegment"@, optional: false }], allow_trailing: false, delimiter: None, terminators: seq![], allow_gaps: true }], bracket_type: "round"@ }], terminators: seq![], parse_mode: ParseMode::Strict }, GrammarView::Sequence { elements: seq![GrammarView::Keyword { word: "CONSTRAINT"@ }, GrammarView::Ref { name: "IfExistsGrammar"@, optional: true }, GrammarView::Ref { name: "ObjectReferenceSegment"@, optional: false }, GrammarView::Optional { grammar: Box::new(GrammarView::OneOf { elements: seq![GrammarView::Keyword { word: "RESTRICT"@ }, GrammarView::Keyword { word: "CASCADE"@ }], terminators: seq![] }) }], terminators: seq![], parse_mode: ParseMode::Strict }], terminators: seq![] }], terminators: seq![], parse_mode: ParseMode::Strict })
}

fn build_drop_constraint_grammar() -> (e: Element)
    ensures
        e@ =~~= drop_constraint_grammar_element(),
{
    let g1: Vec<Grammar> = vec![Grammar::keyword("RESTRICT"), Grammar::keyword("CASCADE")];
    assert(views(g1@) =~~= seq![GrammarView::Keyword { word: "RESTRICT"@ }, GrammarView::Keyword { word: "CASCADE"@ }]);
    let g2: Vec<Grammar> = Vec::new();
    assert(views(g2@) =~= Seq::<GrammarView>::empty());
    let g3 = Grammar::one_of_with(g1, g2);
    let g4 = g3.optional();
    let g5: Vec<Grammar> = vec![Grammar::reference("PrimaryKeyGrammar"), Grammar::optional_reference("IfExistsGrammar"), g4];
    assert(views(g5@) =~~= seq![GrammarView::Ref { name: "PrimaryKeyGrammar"@, optional: false }, GrammarView::Ref { name: "IfExistsGrammar"@, optional: true }, GrammarView::Optional { grammar: Box::new(GrammarView::OneOf { elements: seq![GrammarView::Keyword { word: "RESTRICT"@ }, GrammarView::Keyword { word: "CASCADE"@ }], terminators: seq![] }) }]);
    let g6: Vec<Grammar> = Vec::new();
    assert(views(g6@) =~= Seq::<GrammarView>::empty());
    let g7 = Grammar::sequence_with(g5, g6, ParseMode::Strict);
    let g8: Vec<Grammar> = vec![Grammar::reference("ColumnReferenceSegment")];
    assert(views(g8@) =~~= seq![GrammarView::Ref { name: "ColumnReferenceSegment"@, optional: false }]);
    let g9: Vec<Grammar> = Vec::new();
    assert(views(g9@) =~= Seq::<GrammarView>::empty());
    let g10 = Grammar::delimited_with(g8, false, None, g9, true);
    let g11: Vec<Grammar> = vec![g10];
    assert(views(g11@) =~~= seq![GrammarView::Delimited { elements: seq![GrammarView::Ref { name: "ColumnReferenceSegment"@, optional: false }], allow_trailing: false, delimiter: None, terminators: seq![], allow_gaps: true }]);
    let g12 = Grammar::bracketed_with(g11, "round");
    let g13: Vec<Grammar> = vec![Grammar::reference("ForeignKeyGrammar"), Grammar::optional_reference("IfExistsGrammar"), g12];
    assert(views(g13@) =~~= seq![GrammarView::Ref { name: "ForeignKeyGrammar"@, optional: false }, GrammarView::Ref { name: "IfExistsGrammar"@, optional: true }, GrammarView::Bracketed { elements: seq![GrammarView::Delimited { elements: seq![GrammarView::Ref { name: "ColumnReferenceSegment"@, optional: false }], allow_trailing: false, delimiter: None, terminators: seq![], allow_gaps: true }], bracket_type: "round"@ }]);
    let g14: Vec<Grammar> = Vec::new();
    assert(views(g14@) =~= Seq::<GrammarView>::empty());
    let g15 = Grammar::sequence_with(g13, g14, ParseMode::Strict);
    let g16: Vec<Grammar> = vec![Grammar::keyword("RESTRICT"), Grammar::keyword("CASCADE")];
    assert(views(g16@) =~~= seq![GrammarView::Keyword { word: "RESTRICT"@ }, GrammarView::Keyword { word: "CASCADE"@ }]);
    let g17: Vec<Grammar> = Vec::new();
    assert(views(g17@) =~= Seq::<GrammarView>::empty());
    let g18 = Grammar::one_of_with(g16, g17);
    let g19 = g18.optional();
    let g20: Vec<Grammar> = vec![Grammar::keyword("CONSTRAINT"), Grammar::optional_reference("IfExistsGrammar"), Grammar::reference("ObjectReferenceSegment"), g19];
    assert(views(g20@) =~~= seq![GrammarView::Keyword { word: "CONSTRAINT"@ }, GrammarView::Ref { name: "IfExistsGrammar"@, optional: true }, GrammarView::Ref { name: "ObjectReferenceSegment"@, optional: false }, GrammarView::Optional { grammar: Box::new(GrammarView::OneOf { elements: seq![GrammarView::Keyword { word: "RESTRICT"@ }, GrammarView::Keyword { word: "CASCADE"@ }], terminators: seq![] }) }]);
    let g21: Vec<Grammar> = Vec::new();
    assert(views(g21@) =~= Seq::<GrammarView>::empty());
    let g22 = Grammar::sequence_with(g20, g21, ParseMode::Strict);
    let g23: Vec<Grammar> = vec![g7, g15, g22];
    assert(views(g23@) =~~= seq![GrammarView::Sequence { elements: seq![GrammarView::Ref { name: "PrimaryKeyGrammar"@, optional: false }, GrammarView::Ref { name: "IfExistsGrammar"@, optional: true }, GrammarView::Optional { grammar: Box::new(GrammarView::OneOf { elements: seq![GrammarView::Keyword { word: "RESTRICT"@ }, GrammarView::Keyword { word: "CASCADE"@ }], terminators: seq![] }) }], terminators: seq![], parse_mode: ParseMode::Strict }, GrammarView::Sequence { elements: seq![GrammarView::Ref { name: "ForeignKeyGrammar"@, optional: false }, GrammarView::Ref { name: "IfExistsGrammar"@, optional: true }, GrammarView::Bracketed { elements: seq![GrammarView::Delimited { elements: seq![GrammarView::Ref { name: "ColumnReferenceSegment"@, optional: false }], allow_trailing: false, delimiter: None, terminators: seq![], allow_gaps: true }], bracket_type: "round"@ }], terminators: seq![], parse_mode: ParseMode::Strict }, GrammarView::Sequence { elements: seq![GrammarView::Keyword { word: "CONSTRAINT"@ }, GrammarView::Ref { name: "IfExistsGrammar"@, optional: true }, GrammarView::Ref { name: "ObjectReferenceSegment"@, optional: false }, GrammarView::Optional { grammar: Box::new(GrammarView::OneOf { elements: seq![GrammarView::Keyword { word: "RESTRICT"@ }, GrammarView::Keyword { word: "CASCADE"@ }], terminators: seq![] }) }], terminators: seq![], parse_mode: ParseMode::Strict }]);
    let g24: Vec<Grammar> = Vec::new();
    assert(views(g24@) =~= Seq::<GrammarView>::empty());
    let g25 = Grammar::one_of_with(g23, g24);
    let g26: Vec<Grammar> = vec![Grammar::keyword("DROP"), g25];
    assert(views(g26@) =~~= seq![GrammarView::Keyword { word: "DROP"@ }, GrammarView::OneOf { elements: seq![GrammarView::Sequence { elements: seq![GrammarView::Ref { name: "PrimaryKeyGrammar"@, optional: false }, GrammarView::Ref { name: "IfExistsGrammar"@, optional: true }, GrammarView::Optional { grammar: Box::new(GrammarView::OneOf { elements: seq![GrammarView::Keyword { word: "RESTRICT"@ }, GrammarView::Keyword { word: "CASCADE"@ }], terminators: seq![] }) }], terminators: seq![], parse_mode: ParseMode::Strict }, GrammarView::Sequence { elements: seq![GrammarView::Ref { name: "ForeignKeyGrammar"@, optional: false }, GrammarView::Ref { name: "IfExistsGrammar"@, optional: true }, GrammarView::Bracketed { elements: seq![GrammarView::Delimited { elements: seq![GrammarView::Ref { name: "ColumnReferenceSegment"@, optional: false }], allow_trailing: false, delimiter: None, terminators: seq![], allow_gaps: true }], bracket_type: "round"@ }], terminators: seq![], parse_mode: ParseMode::Strict }, GrammarView::Sequence { elements: seq![GrammarView::Keyword { word: "CONSTRAINT"@ }, GrammarView::Ref { name: "IfExistsGrammar"@, optional: true }, GrammarView::Ref { name: "ObjectReferenceSegment"@, optional: false }, GrammarView::Optional { grammar: Box::new(GrammarView::OneOf { elements: seq![GrammarView::Keyword { word: "RESTRICT"@ }, GrammarView::Keyword { word: "CASCADE"@ }], terminators: seq![] }) }], terminators: seq![], parse_mode: ParseMode::Strict }], terminators: seq![] }]);
    let g27: Vec<Grammar> = Vec::new();
    assert(views(g27@) =~= Seq::<GrammarView>::empty());
    let g28 = Grammar::sequence_with(g26, g27, ParseMode::Strict);
    Element::Grammar(g28)
}

/// The Databricks element `AlterPartitionGrammar`.
pub open spec fn alter_partition_grammar_element() -> ElementView {
    ElementView::Grammar(GrammarView::Sequence { elements: seq![GrammarView::Keyword { word: "PARTITION"@ }, GrammarView::Bracketed { elements: seq![GrammarView::Delimited { elements: seq![GrammarView::AnyNumberOf { elements: seq![GrammarView::OneOf { elements: seq![GrammarView::Ref { name: "ColumnReferenceSegment"@, optional: false }, GrammarView::Ref { name: "SetClauseSegment"@, optional: false }], terminators: seq![] }], terminators: seq![], min_times: 1, max_times: None }], allow_trailing: false, delimiter: None, terminators: seq![], allow_gaps: true }], bracket_type: "round"@ }], terminators: seq![], parse_mode: ParseMode::Strict })
}

fn build_alter_partition_grammar() -> (e: Element)
    ensures
        e@ =~~= alter_partition_grammar_element(),
{
    let g1: Vec<Grammar> = vec![Grammar::reference("ColumnReferenceSegment"), Grammar::reference("SetClauseSegment")];
    assert(views(g1@) =~~= seq![GrammarView::Ref { name: "ColumnReferenceSegment"@, optional: false }, GrammarView::Ref { name: "SetClauseSegment"@, optional: false }]);
    let g2: Vec<Grammar> = Vec::new();
    assert(views(g2@) =~= Seq::<GrammarView>::empty());
    let g3 = Grammar::one_of_with(g1, g2);
    let g4: Vec<Grammar> = vec![g3];
    assert(views(g4@) =~~= seq![GrammarView::OneOf { elements: seq![GrammarView::Ref { name: "ColumnReferenceSegment"@, optional: false }, GrammarView::Ref { name: "SetClauseSegment"@, optional: false }], terminators: seq![] }]);
    let g5: Vec<Grammar> = Vec::new();
    assert(views(g5@) =~= Seq::<GrammarView>::empty());
    let g6 = Grammar::any_number_of_with(g4, g5, 1, None);
    let g7: Vec<Grammar> = vec![g6];
    assert(views(g7@) =~~= seq![GrammarView::AnyNumberOf { elements: seq![GrammarView::OneOf { elements: seq![GrammarView::Ref { name: "ColumnReferenceSegment"@, optional: false }, GrammarView::Ref { name: "SetClauseSegment"@, optional: false }], terminators: seq![] }], terminators: seq![], min_times: 1, max_times: None }]);
    let g8: Vec<Grammar> = Vec::new();
    assert(views(g8@) =~= Seq::<GrammarView>::empty());
    let g9 = Grammar::delimited_with(g7, false, None, g8, true);
    let g10: Vec<Grammar> = vec![g9];
    assert(views(g10@) =~~= seq![GrammarView::Delimited { elements: seq![GrammarView::AnyNumberOf { elements: seq![GrammarView::OneOf { elements: seq![GrammarView::Ref { name: "ColumnReferenceSegment"@, optional: false }, GrammarView::Ref { name: "SetClauseSegment"@, optional: false }], terminators: seq![] }], terminators: seq![], min_times: 1, max_times: None }], allow_trailing: false, delimiter: None, terminators: seq![], allow_gaps: true }]);
    let g11 = Grammar::bracketed_with(g10, "round");
    let g12: Vec<Grammar> = vec![Grammar::keyword("PARTITION"), g11];
    assert(views(g12@) =~~= seq![GrammarView::Keyword { word: "PARTITION"@ }, GrammarView::Bracketed { elements: seq![GrammarView::Delimited { elements: seq![GrammarView::AnyNumberOf { elements: seq![GrammarView::OneOf { elements: seq![GrammarView::Ref { name: "ColumnReferenceSegment"@, optional: false }, GrammarView::Ref { name: "SetClauseSegment"@, optional: false }], terminators: seq![] }], terminators: seq![], min_times: 1, max_times: None }], allow_trailing: false, delimiter: None, terminators: seq![], allow_gaps: true }], bracket_type: "round"@ }]);
    let g13: Vec<Grammar> = Vec::new();
    assert(views(g13@) =~= Seq::<GrammarView>::empty());
    let g14 = Grammar::sequence_with(g12, g13, ParseMode::Strict);
    Element::Grammar(g14)
}

/// The Databricks element `RowFilterClauseGrammar`.
pub open spec fn row_filter_clause_grammar_element() -> ElementView {
    ElementView::Grammar(GrammarView::Sequence { elements: seq![GrammarView::Keyword { word: "ROW"@ }, GrammarView::Keyword { word: "FILTER"@ }, GrammarView::Ref { name: "ObjectReferenceSegment"@, optional: false }, GrammarView::Keyword { word: "ON"@ }, GrammarView::Bracketed { elements: seq![GrammarView::Optional { grammar: Box::new(GrammarView::Delimited { elements: seq![GrammarView::OneOf { elements: seq![GrammarView::Ref { name: "ColumnReferenceSegment"@, optional: false }, GrammarView::Ref { name: "LiteralGrammar"@, optional: false }], terminators: seq![] }], allow_trailing: false, delimiter: None, terminators: seq![], allow_gaps: true }) }], bracket_type: "round"@ }], terminators: seq![], parse_mode: ParseMode::Strict })
}

fn build_row_filter_clause_grammar() -> (e: Element)
    ensures
        e@ =~~= row_filter_clause_grammar_element(),
{
    let g1: Vec<Grammar> = vec![Grammar::reference("ColumnReferenceSegment"), Grammar::reference("LiteralGrammar")];
    assert(views(g1@) =~~= seq![GrammarView::Ref { name: "ColumnReferenceSegment"@, optional: false }, GrammarView::Ref { name: "LiteralGrammar"@, optional: false }]);
    let g2: Vec<Grammar> = Vec::new();
    assert(views(g2@) =~= Seq::<GrammarView>::empty());
    let g3 = Grammar::one_of_with(g1, g2);
    let g4: Vec<Grammar> = vec![g3];
    assert(views(g4@) =~~= seq![GrammarView::OneOf { elements: seq![GrammarView::Ref { name: "ColumnReferenceSegment"@, optional: false }, GrammarView::Ref { name: "LiteralGrammar"@, optional: false }], terminators: seq![] }]);
    let g5: Vec<Grammar> = Vec::new();
    assert(views(g5@) =~= Seq::<GrammarView>::empty());
    let g6 = Grammar::delimited_with(g4, false, None, g5, true);
    let g7 = g6.optional();
    let g8: Vec<Grammar> = vec![g7];
    assert(views(g8@) =~~= seq![GrammarView::Optional { grammar: Box::new(GrammarView::Delimited { elements: seq![GrammarView::OneOf { elements: seq![GrammarView::Ref { name: "ColumnReferenceSegment"@, optional: false }, GrammarView::Ref { name: "LiteralGrammar"@, optional: false }], terminators: seq![] }], allow_trailing: false, delimiter: None, terminators: seq![], allow_gaps: true }) }]);
    let g9 = Grammar::bracketed_with(g8, "round");
    let g10: Vec<Grammar> = vec![Grammar::keyword("ROW"), Grammar::keyword("FILTER"), Grammar::reference("ObjectReferenceSegment"), Grammar::keyword("ON"), g9];
    assert(views(g10@) =~~= seq![GrammarView::Keyword { word: "ROW"@ }, GrammarView::Keyword { word: "FILTER"@ }, GrammarView::Ref { name: "ObjectReferenceSegment"@, optional: false }, GrammarView::Keyword { word: "ON"@ }, GrammarView::Bracketed { elements: seq![GrammarView::Optional { grammar: Box::new(GrammarView::Delimited { elements: seq![GrammarView::OneOf { elements: seq![GrammarView::Ref { name: "ColumnReferenceSegment"@, optional: false }, GrammarView::Ref { name: "LiteralGrammar"@, optional: false }], terminators: seq![] }], allow_trailing: false, delimiter: None, terminators: seq![], allow_gaps: true }) }], bracket_type: "round"@ }]);
    let g11: Vec<Grammar> = Vec::new();
    assert(views(g11@) =~= Seq::<GrammarView>::empty());
    let g12 = Grammar::sequence_with(g10, g11, ParseMode::Strict);
    Element::Grammar(g12)
}

/// The Databricks element `PropertiesBackTickedIdentifierSegment`.
pub open spec fn properties_back_ticked_identifier_segment_element() -> ElementView {
    ElementView::Grammar(GrammarView::RegexParser { pattern: "`.+`"@, kind: "properties_naked_identifier"@, anti_template: None })
}

fn build_properties_back_ticked_identifier_segment() -> (e: Element)
    ensures
        e@ =~~= properties_back_ticked_identifier_segment_element(),
{
    Element::Grammar(Grammar::regex_parser("`.+`", "properties_naked_identifier"))
}

/// The Databricks element `MaskStatementSegment`.
pub open spec fn mask_statement_segment_element() -> ElementView {
    ElementView::Node { kind: "mask_statement"@, grammar: GrammarView::Sequence { elements: seq![GrammarView::Keyword { word: "MASK"@ }, GrammarView::Ref { name: "FunctionNameSegment"@, optional: false }, GrammarView::Optional { grammar: Box::new(GrammarView::Sequence { elements: seq![GrammarView::Keyword { word: "USING"@ }, GrammarView::Keyword { word: "COLUMNS"@ }, GrammarView::Bracketed { elements: seq![GrammarView::AnyNumberOf { elements: seq![GrammarView::OneOf { elements: seq![GrammarView::Ref { name: "ColumnReferenceSegment"@, optional: false }, GrammarView::Ref { name: "ExpressionSegment"@, optional: false }], terminators: seq![] }], terminators: seq![], min_times: 0, max_times: None }], bracket_type: "round"@ }], terminators: seq![], parse_mode: ParseMode::Strict }) }], terminators: seq![], parse_mode: ParseMode::Strict } }
}

fn build_mask_statement_segment() -> (e: Element)
    ensures
        e@ =~~= mask_statement_segment_element(),
{
    let g1: Vec<Grammar> = vec![Grammar::reference("ColumnReferenceSegment"), Grammar::reference("ExpressionSegment")];
    assert(views(g1@) =~~= seq![GrammarView::Ref { name: "ColumnReferenceSegment"@, optional: false }, GrammarView::Ref { name: "ExpressionSegment"@, optional: false }]);
    let g2: Vec<Grammar> = Vec::new();
    assert(views(g2@) =~= Seq::<GrammarView>::empty());
    let g3 = Grammar::one_of_with(g1, g2);
    let g4: Vec<Grammar> = vec![g3];
    assert(views(g4@) =~~= seq![GrammarView::OneOf { elements: seq![GrammarView::Ref { name: "ColumnReferenceSegment"@, optional: false }, GrammarView::Ref { name: "ExpressionSegment"@, optional: false }], terminators: seq![] }]);
    let g5: Vec<Grammar> = Vec::new();
    assert(views(g5@) =~= Seq::<GrammarView>::empty());
    let g6 = Grammar::any_number_of_with(g4, g5, 0, None);
    let g7: Vec<Grammar> = vec![g6];
    assert(views(g7@) =~~= seq![GrammarView::AnyNumberOf { elements: seq![GrammarView::OneOf { elements: seq![GrammarView::Ref { name: "ColumnReferenceSegment"@, optional: false }, GrammarView::Ref { name: "ExpressionSegment"@, optional: false }], terminators: seq![] }], terminators: seq![], min_times: 0, max_times: None }]);
    let g8 = Grammar::bracketed_with(g7, "round");
    let g9: Vec<Grammar> = vec![Grammar::keyword("USING"), Grammar::keyword("COLUMNS"), g8];
    assert(views(g9@) =~~= seq![GrammarView::Keyword { word: "USING"@ }, GrammarView::Keyword { word: "COLUMNS"@ }, GrammarView::Bracketed { elements: seq![GrammarView::AnyNumberOf { elements: seq![GrammarView::OneOf { elements: seq![GrammarView::Ref { name: "ColumnReferenceSegment"@, optional: false }, GrammarView::Ref { name: "ExpressionSegment"@, optional: false }], terminators: seq![] }], terminators: seq![], min_times: 0, max_times: None }], bracket_type: "round"@ }]);
    let g10: Vec<Grammar> = Vec::new();
    assert(views(g10@) =~= Seq::<GrammarView>::empty());
    let g11 = Grammar::sequence_with(g9, g10, ParseMode::Strict);
    let g12 = g11.optional();
    let g13: Vec<Grammar> = vec![Grammar::keyword("MASK"), Grammar::reference("FunctionNameSegment"), g12];
    assert(views(g13@) =~~= seq![GrammarView::Keyword { word: "MASK"@ }, GrammarView::Ref { name: "FunctionNameSegment"@, optional: false }, GrammarView::Optional { grammar: Box::new(GrammarView::Sequence { elements: seq![GrammarView::Keyword { word: "USING"@ }, GrammarView::Keyword { word: "COLUMNS"@ }, GrammarView::Bracketed { elements: seq![GrammarView::AnyNumberOf { elements: seq![GrammarView::OneOf { elements: seq![GrammarView::Ref { name: "ColumnReferenceSegment"@, optional: false }, GrammarView::Ref { name: "ExpressionSegment"@, optional: false }], terminators: seq![] }], terminators: seq![], min_times: 0, max_times: None }], bracket_type: "round"@ }], terminators: seq![], parse_mode: ParseMode::Strict }) }]);
    let g14: Vec<Grammar> = Vec::new();
    assert(views(g14@) =~= Seq::<GrammarView>::empty());
    let g15 = Grammar::sequence_with(g13, g14, ParseMode::Strict);
    Element::Node { kind: "mask_statement", grammar: g15 }
}

/// The Databricks element `CatalogReferenceSegment`.
pub open spec fn catalog_reference_segment_element() -> ElementView {
    ElementView::Grammar(GrammarView::Ref { name: "ObjectReferenceSegment"@, optional: false })
}

fn build_catalog_reference_segment() -> (e: Element)
    ensures
        e@ =~~= catalog_reference_segment_element(),
{
    Element::Grammar(Grammar::reference("ObjectReferenceSegment"))
}

/// The Databricks element `AlterCatalogStatementSegment`.
pub open spec fn alter_catalog_statement_segment_element() -> ElementView {
    ElementView::Grammar(GrammarView::Sequence { elements: seq![GrammarView::Keyword { word: "ALTER"@ }, GrammarView::Keyword { word: "CATALOG"@ }, GrammarView::Ref { name: "CatalogReferenceSegment"@, optional: false }, GrammarView::OneOf { elements: seq![GrammarView::Ref { name: "SetOwnerGrammar"@, optional: false }, GrammarView::Ref { name: "SetTagsGrammar"@, optional: false }, GrammarView::Ref { name: "UnsetTagsGrammar"@, optional: false }, GrammarView::Ref { name: "PredictiveOptimizationGrammar"@, optional: false }], terminators: seq![] }], terminators: seq![], parse_mode: ParseMode::Strict })
}

fn build_alter_catalog_statement_segment() -> (e: Element)
    ensures
        e@ =~~= alter_catalog_statement_segment_element(),
{
    let g1: Vec<Grammar> = vec![Grammar::reference("SetOwnerGrammar"), Grammar::reference("SetTagsGrammar"), Grammar::reference("UnsetTagsGrammar"), Grammar::reference("PredictiveOptimizationGrammar")];
    assert(views(g1@) =~~= seq![GrammarView::Ref { name: "SetOwnerGrammar"@, optional: false }, GrammarView::Ref { name: "SetTagsGrammar"@, optional: false }, GrammarView::Ref { name: "UnsetTagsGrammar"@, optional: false }, GrammarView::Ref { name: "PredictiveOptimizationGrammar"@, optional: false }]);
    let g2: Vec<Grammar> = Vec::new();
    assert(views(g2@) =~= Seq::<GrammarView>::empty());
    let g3 = Grammar::one_of_with(g1, g2);
    let g4: Vec<Grammar> = vec![Grammar::keyword("ALTER"), Grammar::keyword("CATALOG"), Grammar::reference("CatalogReferenceSegment"), g3];
    assert(views(g4@) =~~= seq![GrammarView::Keyword { word: "ALTER"@ }, GrammarView::Keyword { word: "CATALOG"@ }, GrammarView::Ref { name: "CatalogReferenceSegment"@, optional: false }, GrammarView::OneOf { elements: seq![GrammarView::Ref { name: "SetOwnerGrammar"@, optional: false }, GrammarView::Ref { name: "SetTagsGrammar"@, optional: false }, GrammarView::Ref { name: "UnsetTagsGrammar"@, optional: false }, GrammarView::Ref { name: "PredictiveOptimizationGrammar"@, optional: false }], terminators: seq![] }]);
    let g5: Vec<Grammar> = Vec::new();
    assert(views(g5@) =~= Seq::<GrammarView>::empty());
    let g6 = Grammar::sequence_with(g4, g5, ParseMode::Strict);
    Element::Grammar(g6)
}

/// The Databricks element `CreateCatalogStatementSegment`.
pub open spec fn create_catalog_statement_segment_element() -> ElementView {
    ElementView::Grammar(GrammarView::Sequence { elements: seq![GrammarView::Keyword { word: "CREATE"@ }, GrammarView::Keyword { word: "CATALOG"@ }, GrammarView::Ref { name: "IfNotExistsGrammar"@, optional: true }, GrammarView::Ref { name: "CatalogReferenceSegment"@, optional: false }, GrammarView::Ref { name: "CommentGrammar"@, optional: true }], terminators: seq![], parse_mode: ParseMode::Strict })
}

fn build_create_catalog_statement_segment() -> (e: Element)
    ensures
        e@ =~~= create_catalog_statement_segment_element(),
{
    let g1: Vec<Grammar> = vec![Grammar::keyword("CREATE"), Grammar::keyword("CATALOG"), Grammar::optional_reference("IfNotExistsGrammar"), Grammar::reference("CatalogReferenceSegment"), Grammar::optional_reference("CommentGrammar")];
    assert(views(g1@) =~~= seq![GrammarView::Keyword { word: "CREATE"@ }, GrammarView::Keyword { word: "CATALOG"@ }, GrammarView::Ref { name: "IfNotExistsGrammar"@, optional: true }, GrammarView::Ref { name: "CatalogReferenceSegment"@, optional: false }, GrammarView::Ref { name: "CommentGrammar"@, optional: true }]);
    let g2: Vec<Grammar> = Vec::new();
    assert(views(g2@) =~= Seq::<GrammarView>::empty());
    let g3 = Grammar::sequence_with(g1, g2, ParseMode::Strict);
    Element::Grammar(g3)
}

/// The Databricks element `DropCatalogStatementSegment`.
pub open spec fn drop_catalog_statement_segment_element() -> ElementView {
    ElementView::Grammar(GrammarView::Sequence { elements: seq![GrammarView::Keyword { word: "DROP"@ }, GrammarView::Keyword { word: "CATALOG"@ }, GrammarView::Ref { name: "IfExistsGrammar"@, optional: true }, GrammarView::Ref { name: "CatalogReferenceSegment"@, optional: false }, GrammarView::Ref { name: "DropBehaviorGrammar"@, optional: true }], terminators: seq![], parse_mode: ParseMode::Strict })
}

fn build_drop_catalog_statement_segment() -> (e: Element)
    ensures
        e@ =~~= drop_catalog_statement_segment_element(),
{
    let g1: Vec<Grammar> = vec![Grammar::keyword("DROP"), Grammar::keyword("CATALOG"), Grammar::optional_reference("IfExistsGrammar"), Grammar::reference("CatalogReferenceSegment"), Grammar::optional_reference("DropBehaviorGrammar")];
    assert(views(g1@) =~~= seq![GrammarView::Keyword { word: "DROP"@ }, GrammarView::Keyword { word: "CATALOG"@ }, GrammarView::Ref { name: "IfExistsGrammar"@, optional: true }, GrammarView::Ref { name: "CatalogReferenceSegment"@, optional: false }, GrammarView::Ref { name: "DropBehaviorGrammar"@, optional: true }]);
    let g2: Vec<Grammar> = Vec::new();
    assert(views(g2@) =~= Seq::<GrammarView>::empty());
    let g3 = Grammar::sequence_with(g1, g2, ParseMode::Strict);
    Element::Grammar(g3)
}

/// The Databricks element `UseCatalogStatementSegment`.
pub open spec fn use_catalog_statement_segment_element() -> ElementView {
    ElementView::Grammar(GrammarView::Sequence { elements: seq![GrammarView::Keyword { word: "USE"@ }, GrammarView::Keyword { word: "CATALOG"@ }, GrammarView::Ref { name: "CatalogReferenceSegment"@, optional: false }], terminators: seq![], parse_mode: ParseMode::Strict })
}

fn build_use_catalog_statement_segment() -> (e: Element)
    ensures
        e@ =~~= use_catalog_statement_segment_element(),
{
    let g1: Vec<Grammar> = vec![Grammar::keyword("USE"), Grammar::keyword("CATALOG"), Grammar::reference("CatalogReferenceSegment")];
    assert(views(g1@) =~~= seq![GrammarView::Keyword { word: "USE"@ }, GrammarView::Keyword { word: "CATALOG"@ }, GrammarView::Ref { name: "CatalogReferenceSegment"@, optional: false }]);
    let g2: Vec<Grammar> = Vec::new();
    assert(views(g2@) =~= Seq::<GrammarView>::empty());
    let g3 = Grammar::sequence_with(g1, g2, ParseMode::Strict);
    Element::Grammar(g3)
}

/// The Databricks element `UseDatabaseStatementSegment`.
pub open spec fn use_database_statement_segment_element() -> ElementView {
    ElementView::Grammar(GrammarView::Sequence { elements: seq![GrammarView::Keyword { word: "USE"@ }, GrammarView::Optional { grammar: Box::new(GrammarView::OneOf { elements: seq![GrammarView::Keyword { word: "DATABASE"@ }, GrammarView::Keyword { word: "SCHEMA"@ }], terminators: seq![] }) }, GrammarView::Ref { name: "DatabaseReferenceSegment"@, optional: false }], terminators: seq![], parse_mode: ParseMode::Strict })
}

fn build_use_database_statement_segment() -> (e: Element)
    ensures
        e@ =~~= use_database_statement_segment_element(),
{
    let g1: Vec<Grammar> = vec![Grammar::keyword("DATABASE"), Grammar::keyword("SCHEMA")];
    assert(views(g1@) =~~= seq![GrammarView::Keyword { word: "DATABASE"@ }, GrammarView::Keyword { word: "SCHEMA"@ }]);
    let g2: Vec<Grammar> = Vec::new();
    assert(views(g2@) =~= Seq::<GrammarView>::empty());
    let g3 = Grammar::one_of_with(g1, g2);
    let g4 = g3.optional();
    let g5: Vec<Grammar> = vec![Grammar::keyword("USE"), g4, Grammar::reference("DatabaseReferenceSegment")];
    assert(views(g5@) =~~= seq![GrammarView::Keyword { word: "USE"@ }, GrammarView::Optional { grammar: Box::new(GrammarView::OneOf { elements: seq![GrammarView::Keyword { word: "DATABASE"@ }, GrammarView::Keyword { word: "SCHEMA"@ }], terminators: seq![] }) }, GrammarView::Ref { name: "DatabaseReferenceSegment"@, optional: false }]);
    let g6: Vec<Grammar> = Vec::new();
    assert(views(g6@) =~= Seq::<GrammarView>::empty());
    let g7 = Grammar::sequence_with(g5, g6, ParseMode::Strict);
    Element::Grammar(g7)
}

/// The Databricks element `SetTimeZoneStatementSegment`.
pub open spec fn set_time_zone_statement_segment_element() -> ElementView {
    ElementView::Grammar(GrammarView::Sequence { elements: seq![GrammarView::Keyword { word: "SET"@ }, GrammarView::Keyword { word: "TIME"@ }, GrammarView::Keyword { word: "ZONE"@ }, GrammarView::OneOf { elements: seq![GrammarView::Keyword { word: "LOCAL"@ }, GrammarView::Ref { name: "QuotedLiteralSegment"@, optional: false }, GrammarView::Ref { name: "IntervalExpressionSegment"@, optional: false }], terminators: seq![] }], terminators: seq![], parse_mode: ParseMode::Strict })
}

fn build_set_time_zone_statement_segment() -> (e: Element)
    ensures
        e@ =~~= set_time_zone_statement_segment_element(),
{
    let g1: Vec<Grammar> = vec![Grammar::keyword("LOCAL"), Grammar::reference("QuotedLiteralSegment"), Grammar::reference("IntervalExpressionSegment")];
    assert(views(g1@) =~~= seq![GrammarView::Keyword { word: "LOCAL"@ }, GrammarView::Ref { name: "QuotedLiteralSegment"@, optional: false }, GrammarView::Ref { name: "IntervalExpressionSegment"@, optional: false }]);
    let g2: Vec<Grammar> = Vec::new();
    assert(views(g2@) =~= Seq::<GrammarView>::empty());
    let g3 = Grammar::one_of_with(g1, g2);
    let g4: Vec<Grammar> = vec![Grammar::keyword("SET"), Grammar::keyword("TIME"), Grammar::keyword("ZONE"), g3];
    assert(views(g4@) =~~= seq![GrammarView::Keyword { word: "SET"@ }, GrammarView::Keyword { word: "TIME"@ }, GrammarView::Keyword { word: "ZONE"@ }, GrammarView::OneOf { elements: seq![GrammarView::Keyword { word: "LOCAL"@ }, GrammarView::Ref { name: "QuotedLiteralSegment"@, optional: false }, GrammarView::Ref { name: "IntervalExpressionSegment"@, optional: false }], terminators: seq![] }]);
    let g5: Vec<Grammar> = Vec::new();
    assert(views(g5@) =~= Seq::<GrammarView>::empty());
    let g6 = Grammar::sequence_with(g4, g5, ParseMode::Strict);
    Element::Grammar(g6)
}

/// The Databricks element `OptimizeTableStatementSegment`.
pub open spec fn optimize_table_statement_segment_element() -> ElementView {
    ElementView::Grammar(GrammarView::Sequence { elements: seq![GrammarView::Keyword { word: "OPTIMIZE"@ }, GrammarView::Ref { name: "TableReferenceSegment"@, optional: false }, GrammarView::Optional { grammar: Box::new(GrammarView::Sequence { elements: seq![GrammarView::Keyword { word: "WHERE"@ }, GrammarView::Ref { name: "ExpressionSegment"@, optional: false }], terminators: seq![], parse_mode: ParseMode::Strict }) }, GrammarView::Optional { grammar: Box::new(GrammarView::Sequence { elements: seq![GrammarView::Keyword { word: "ZORDER"@ }, GrammarView::Keyword { word: "BY"@ }, GrammarView::Bracketed { elements: seq![GrammarView::Delimited { elements: seq![GrammarView::Ref { name: "ColumnReferenceSegment"@, optional: false }], allow_trailing: false, delimiter: None, terminators: seq![], allow_gaps: true }], bracket_type: "round"@ }], terminators: seq![], parse_mode: ParseMode::Strict }) }], terminators: seq![], parse_mode: ParseMode::Strict })
}

fn build_optimize_table_statement_segment() -> (e: Element)
    ensures
        e@ =~~= optimize_table_statement_segment_element(),
{
    let g1: Vec<Grammar> = vec![Grammar::keyword("WHERE"), Grammar::reference("ExpressionSegment")];
    assert(views(g1@) =~~= seq![GrammarView::Keyword { word: "WHERE"@ }, GrammarView::Ref { name: "ExpressionSegment"@, optional: false }]);
    let g2: Vec<Grammar> = Vec::new();
    assert(views(g2@) =~= Seq::<GrammarView>::empty());
    let g3 = Grammar::sequence_with(g1, g2, ParseMode::Strict);
    let g4 = g3.optional();
    let g5: Vec<Grammar> = vec![Grammar::reference("ColumnReferenceSegment")];
    assert(views(g5@) =~~= seq![GrammarView::Ref { name: "ColumnReferenceSegment"@, optional: false }]);
    let g6: Vec<Grammar> = Vec::new();
    assert(views(g6@) =~= Seq::<GrammarView>::empty());
    let g7 = Grammar::delimited_with(g5, false, None, g6, true);
    let g8: Vec<Grammar> = vec![g7];
    assert(views(g8@) =~~= seq![GrammarView::Delimited { elements: seq![GrammarView::Ref { name: "ColumnReferenceSegment"@, optional: false }], allow_trailing: false, delimiter: None, terminators: seq![], allow_gaps: true }]);
    let g9 = Grammar::bracketed_with(g8, "round");
    let g10: Vec<Grammar> = vec![Grammar::keyword("ZORDER"), Grammar::keyword("BY"), g9];
    assert(views(g10@) =~~= seq![GrammarView::Keyword { word: "ZORDER"@ }, GrammarView::Keyword { word: "BY"@ }, GrammarView::Bracketed { elements: seq![GrammarView::Delimited { elements: seq![GrammarView::Ref { name: "ColumnReferenceSegment"@, optional: false }], allow_trailing: false, delimiter: None, terminators: seq![], allow_gaps: true }], bracket_type: "round"@ }]);
    let g11: Vec<Grammar> = Vec::new();
    assert(views(g11@) =~= Seq::<GrammarView>::empty());
    let g12 = Grammar::sequence_with(g10, g11, ParseMode::Strict);
    let g13 = g12.optional();
    let g14: Vec<Grammar> = vec![Grammar::keyword("OPTIMIZE"), Grammar::reference("TableReferenceSegment"), g4, g13];
    assert(views(g14@) =~~= seq![GrammarView::Keyword { word: "OPTIMIZE"@ }, GrammarView::Ref { name: "TableReferenceSegment"@, optional: false }, GrammarView::Optional { grammar: Box::new(GrammarView::Sequence { elements: seq![GrammarView::Keyword { word: "WHERE"@ }, GrammarView::Ref { name: "ExpressionSegment"@, optional: false }], terminators: seq![], parse_mode: ParseMode::Strict }) }, GrammarView::Optional { grammar: Box::new(GrammarView::Sequence { elements: seq![GrammarView::Keyword { word: "ZORDER"@ }, GrammarView::Keyword { word: "BY"@ }, GrammarView::Bracketed { elements: seq![GrammarView::Delimited { elements: seq![GrammarView::Ref { name: "ColumnReferenceSegment"@, optional: false }], allow_trailing: false, delimiter: None, terminators: seq![], allow_gaps: true }], bracket_type: "round"@ }], terminators: seq![], parse_mode: ParseMode::Strict }) }]);
    let g15: Vec<Grammar> = Vec::new();
    assert(views(g15@) =~= Seq::<GrammarView>::empty());
    let g16 = Grammar::sequence_with(g14, g15, ParseMode::Strict);
    Element::Grammar(g16)
}

/// The Databricks element `DatabaseReferenceSegment`.
pub open spec fn database_reference_segment_element() -> ElementView {
    ElementView::Grammar(GrammarView::Ref { name: "ObjectReferenceSegment"@, optional: false })
}

fn build_database_reference_segment() -> (e: Element)
    ensures
        e@ =~~= database_reference_segment_element(),
{
    Element::Grammar(Grammar::reference("ObjectReferenceSegment"))
}

/// The Databricks element `TableReferenceSegment`.
pub open spec fn table_reference_segment_element() -> ElementView {
    ElementView::Node { kind: "table_reference"@, grammar: GrammarView::Ref { name: "ObjectReferenceSegment"@, optional: false } }
}

fn build_table_reference_segment() -> (e: Element)
    ensures
        e@ =~~= table_reference_segment_element(),
{
    Element::Node { kind: "table_reference", grammar: Grammar::reference("ObjectReferenceSegment") }
}

/// The Databricks element `SchemaReferenceSegment`.
pub open spec fn schema_reference_segment_element() -> ElementView {
    ElementView::Grammar(GrammarView::Ref { name: "ObjectReferenceSegment"@, optional: false })
}

fn build_schema_reference_segment() -> (e: Element)
    ensures
        e@ =~~= schema_reference_segment_element(),
{
    Element::Grammar(Grammar::reference("ObjectReferenceSegment"))
}

/// The Databricks element `IdentifierClauseSegment`.
pub open spec fn identifier_clause_segment_element() -> ElementView {
    ElementView::Grammar(GrammarView::Sequence { elements: seq![GrammarView::Keyword { word: "IDENTIFIER"@ }, GrammarView::Bracketed { elements: seq![GrammarView::Ref { name: "SingleIdentifierGrammar"@, optional: false }], bracket_type: "round"@ }], terminators: seq![], parse_mode: ParseMode::Strict })
}

fn build_identifier_clause_segment() -> (e: Element)
    ensures
        e@ =~~= identifier_clause_segment_element(),
{
    let g1: Vec<Grammar> = vec![Grammar::reference("SingleIdentifierGrammar")];
    assert(views(g1@) =~~= seq![GrammarView::Ref { name: "SingleIdentifierGrammar"@, optional: false }]);
    let g2 = Grammar::bracketed_with(g1, "round");
    let g3: Vec<Grammar> = vec![Grammar::keyword("IDENTIFIER"), g2];
    assert(views(g3@) =~~= seq![GrammarView::Keyword { word: "IDENTIFIER"@ }, GrammarView::Bracketed { elements: seq![GrammarView::Ref { name: "SingleIdentifierGrammar"@, optional: false }], bracket_type: "round"@ }]);
    let g4: Vec<Grammar> = Vec::new();
    assert(views(g4@) =~= Seq::<GrammarView>::empty());
    let g5 = Grammar::sequence_with(g3, g4, ParseMode::Strict);
    Element::Grammar(g5)
}

/// The Databricks element `AlterVolumeStatementSegment`.
pub open spec fn alter_volume_statement_segment_element() -> ElementView {
    ElementView::Node { kind: "alter_volume_statement"@, grammar: GrammarView::Sequence { elements: seq![GrammarView::Keyword { word: "ALTER"@ }, GrammarView::Keyword { word: "VOLUME"@ }, GrammarView::Ref { name: "VolumeReferenceSegment"@, optional: false }, GrammarView::OneOf { elements: seq![GrammarView::Sequence { elements: seq![GrammarView::Keyword { word: "RENAME"@ }, GrammarView::Keyword { word: "TO"@ }, GrammarView::Ref { name: "VolumeReferenceSegment"@, optional: false }], terminators: seq![], parse_mode: ParseMode::Strict }, GrammarView::Ref { name: "SetOwnerGrammar"@, optional: false }, GrammarView::Ref { name: "SetTagsGrammar"@, optional: false }, GrammarView::Ref { name: "UnsetTagsGrammar"@, optional: false }], terminators: seq![] }], terminators: seq![], parse_mode: ParseMode::Strict } }
}

fn build_alter_volume_statement_segment() -> (e: Element)
    ensures
        e@ =~~= alter_volume_statement_segment_element(),
{
    let g1: Vec<Grammar> = vec![Grammar::keyword("RENAME"), Grammar::keyword("TO"), Grammar::reference("VolumeReferenceSegment")];
    assert(views(g1@) =~~= seq![GrammarView::Keyword { word: "RENAME"@ }, GrammarView::Keyword { word: "TO"@ }, GrammarView::Ref { name: "VolumeReferenceSegment"@, optional: false }]);
    let g2: Vec<Grammar> = Vec::new();
    assert(views(g2@) =~= Seq::<GrammarView>::empty());
    let g3 = Grammar::sequence_with(g1, g2, ParseMode::Strict);
    let g4: Vec<Grammar> = vec![g3, Grammar::reference("SetOwnerGrammar"), Grammar::reference("SetTagsGrammar"), Grammar::reference("UnsetTagsGrammar")];
    assert(views(g4@) =~~= seq![GrammarView::Sequence { elements: seq![GrammarView::Keyword { word: "RENAME"@ }, GrammarView::Keyword { word: "TO"@ }, GrammarView::Ref { name: "VolumeReferenceSegment"@, optional: false }], terminators: seq![], parse_mode: ParseMode::Strict }, GrammarView::Ref { name: "SetOwnerGrammar"@, optional: false }, GrammarView::Ref { name: "SetTagsGrammar"@, optional: false }, GrammarView::Ref { name: "UnsetTagsGrammar"@, optional: false }]);
    let g5: Vec<Grammar> = Vec::new();
    assert(views(g5@) =~= Seq::<GrammarView>::empty());
    let g6 = Grammar::one_of_with(g4, g5);
    let g7: Vec<Grammar> = vec![Grammar::keyword("ALTER"), Grammar::keyword("VOLUME"), Grammar::reference("VolumeReferenceSegment"), g6];
    assert(views(g7@) =~~= seq![GrammarView::Keyword { word: "ALTER"@ }, GrammarView::Keyword { word: "VOLUME"@ }, GrammarView::Ref { name: "VolumeReferenceSegment"@, optional: false }, GrammarView::OneOf { elements: seq![GrammarView::Sequence { elements: seq![GrammarView::Keyword { word: "RENAME"@ }, GrammarView::Keyword { word: "TO"@ }, GrammarView::Ref { name: "VolumeReferenceSegment"@, optional: false }], terminators: seq![], parse_mode: ParseMode::Strict }, GrammarView::Ref { name: "SetOwnerGrammar"@, optional: false }, GrammarView::Ref { name: "SetTagsGrammar"@, optional: false }, GrammarView::Ref { name: "UnsetTagsGrammar"@, optional: false }], terminators: seq![] }]);
    let g8: Vec<Grammar> = Vec::new();
    assert(views(g8@) =~= Seq::<GrammarView>::empty());
    let g9 = Grammar::sequence_with(g7, g8, ParseMode::Strict);
    Element::Node { kind: "alter_volume_statement", grammar: g9 }
}

/// The Databricks element `CreateVolumeStatementSegment`.
pub open spec fn create_volume_statement_segment_element() -> ElementView {
    ElementView::Node { kind: "create_volume_statement"@, grammar: GrammarView::OneOf { elements: seq![GrammarView::Sequence { elements: seq![GrammarView::Keyword { word: "CREATE"@ }, GrammarView::Keyword { word: "VOLUME"@ }, GrammarView::Ref { name: "IfNotExistsGrammar"@, optional: true }, GrammarView::Ref { name: "VolumeReferenceSegment"@, optional: false }, GrammarView::Ref { name: "CommentGrammar"@, optional: true }], terminators: seq![], parse_mode: ParseMode::Strict }, GrammarView::Sequence { elements: seq![GrammarView::Keyword { word: "CREATE"@ }, GrammarView::Keyword { word: "EXTERNAL"@ }, GrammarView::Keyword { word: "VOLUME"@ }, GrammarView::Ref { name: "IfNotExistsGrammar"@, optional: true }, GrammarView::Ref { name: "VolumeReferenceSegment"@, optional: false }, GrammarView::Ref { name: "LocationGrammar"@, optional: false }, GrammarView::Ref { name: "CommentGrammar"@, optional: true }], terminators: seq![], parse_mode: ParseMode::Strict }], terminators: seq![] } }
}

fn build_create_volume_statement_segment() -> (e: Element)
    ensures
        e@ =~~= create_volume_statement_segment_element(),
{
    let g1: Vec<Grammar> = vec![Grammar::keyword("CREATE"), Grammar::keyword("VOLUME"), Grammar::optional_reference("IfNotExistsGrammar"), Grammar::reference("VolumeReferenceSegment"), Grammar::optional_reference("CommentGrammar")];
    assert(views(g1@) =~~= seq![GrammarView::Keyword { word: "CREATE"@ }, GrammarView::Keyword { word: "VOLUME"@ }, GrammarView::Ref { name: "IfNotExistsGrammar"@, optional: true }, GrammarView::Ref { name: "VolumeReferenceSegment"@, optional: false }, GrammarView::Ref { name: "CommentGrammar"@, optional: true }]);
    let g2: Vec<Grammar> = Vec::new();
    assert(views(g2@) =~= Seq::<GrammarView>::empty());
    let g3 = Grammar::sequence_with(g1, g2, ParseMode::Strict);
    let g4: Vec<Grammar> = vec![Grammar::keyword("CREATE"), Grammar::keyword("EXTERNAL"), Grammar::keyword("VOLUME"), Grammar::optional_reference("IfNotExistsGrammar"), Grammar::reference("VolumeReferenceSegment"), Grammar::reference("LocationGrammar"), Grammar::optional_reference("CommentGrammar")];
    assert(views(g4@) =~~= seq![GrammarView::Keyword { word: "CREATE"@ }, GrammarView::Keyword { word: "EXTERNAL"@ }, GrammarView::Keyword { word: "VOLUME"@ }, GrammarView::Ref { name: "IfNotExistsGrammar"@, optional: true }, GrammarView::Ref { name: "VolumeReferenceSegment"@, optional: false }, GrammarView::Ref { name: "LocationGrammar"@, optional: false }, GrammarView::Ref { name: "CommentGrammar"@, optional: true }]);
    let g5: Vec<Grammar> = Vec::new();
    assert(views(g5@) =~= Seq::<GrammarView>::empty());
    let g6 = Grammar::sequence_with(g4, g5, ParseMode::Strict);
    let g7: Vec<Grammar> = vec![g3, g6];
    assert(views(g7@) =~~= seq![GrammarView::Sequence { elements: seq![GrammarView::Keyword { word: "CREATE"@ }, GrammarView::Keyword { word: "VOLUME"@ }, GrammarView::Ref { name: "IfNotExistsGrammar"@, optional: true }, GrammarView::Ref { name: "VolumeReferenceSegment"@, optional: false }, GrammarView::Ref { name: "CommentGrammar"@, optional: true }], terminators: seq![], parse_mode: ParseMode::Strict }, GrammarView::Sequence { elements: seq![GrammarView::Keyword { word: "CREATE"@ }, GrammarView::Keyword { word: "EXTERNAL"@ }, GrammarView::Keyword { word: "VOLUME"@ }, GrammarView::Ref { name: "IfNotExistsGrammar"@, optional: true }, GrammarView::Ref { name: "VolumeReferenceSegment"@, optional: false }, GrammarView::Ref { name: "LocationGrammar"@, optional: false }, GrammarView::Ref { name: "CommentGrammar"@, optional: true }], terminators: seq![], parse_mode: ParseMode::Strict }]);
    let g8: Vec<Grammar> = Vec::new();
    assert(views(g8@) =~= Seq::<GrammarView>::empty());
    let g9 = Grammar::one_of_with(g7, g8);
    Element::Node { kind: "create_volume_statement", grammar: g9 }
}

/// The Databricks element `DropVolumeStatementSegment`.
pub open spec fn drop_volume_statement_segment_element() -> ElementView {
    ElementView::Node { kind: "drop_volume_statement"@, grammar: GrammarView::Sequence { elements: seq![GrammarView::Keyword { word: "DROP"@ }, GrammarView::Keyword { word: "VOLUME"@ }, GrammarView::Ref { name: "IfExistsGrammar"@, optional: true }, GrammarView::Ref { name: "VolumeReferenceSegment"@, optional: false }], terminators: seq![], parse_mode: ParseMode::Strict } }
}

fn build_drop_volume_statement_segment() -> (e: Element)
    ensures
        e@ =~~= drop_volume_statement_segment_element(),
{
    let g1: Vec<Grammar> = vec![Grammar::keyword("DROP"), Grammar::keyword("VOLUME"), Grammar::optional_reference("IfExistsGrammar"), Grammar::reference("VolumeReferenceSegment")];
    assert(views(g1@) =~~= seq![GrammarView::Keyword { word: "DROP"@ }, GrammarView::Keyword { word: "VOLUME"@ }, GrammarView::Ref { name: "IfExistsGrammar"@, optional: true }, GrammarView::Ref { name: "VolumeReferenceSegment"@, optional: false }]);
    let g2: Vec<Grammar> = Vec::new();
    assert(views(g2@) =~= Seq::<GrammarView>::empty());
    let g3 = Grammar::sequence_with(g1, g2, ParseMode::Strict);
    Element::Node { kind: "drop_volume_statement", grammar: g3 }
}

/// The Databricks element `VolumeReferenceSegment`.
pub open spec fn volume_reference_segment_element() -> ElementView {
    ElementView::Node { kind: "volume_reference"@, grammar: GrammarView::Ref { name: "ObjectReferenceSegment"@, optional: false } }
}

fn build_volume_reference_segment() -> (e: Element)
    ensures
        e@ =~~= volume_reference_segment_element(),
{
    Element::Node { kind: "volume_reference", grammar: Grammar::reference("ObjectReferenceSegment") }
}

/// The Databricks element `DeclareOrReplaceVariableStatementSegment`.
pub open spec fn declare_or_replace_variable_statement_segment_element() -> ElementView {
    ElementView::Grammar(GrammarView::Sequence { elements: seq![GrammarView::Keyword { word: "DECLARE"@ }, GrammarView::Ref { name: "OrReplaceGrammar"@, optional: true }, GrammarView::Optional { grammar: Box::new(GrammarView::Keyword { word: "VARIABLE"@ }) }, GrammarView::Ref { name: "SingleIdentifierGrammar"@, optional: false }, GrammarView::Ref { name: "DatatypeSegment"@, optional: true }, GrammarView::Optional { grammar: Box::new(GrammarView::Sequence { elements: seq![GrammarView::OneOf { elements: seq![GrammarView::Keyword { word: "DEFAULT"@ }, GrammarView::Ref { name: "EqualsSegment"@, optional: false }], terminators: seq![] }, GrammarView::Ref { name: "ExpressionSegment"@, optional: false }], terminators: seq![], parse_mode: ParseMode::Strict }) }], terminators: seq![], parse_mode: ParseMode::Strict })
}

fn build_declare_or_replace_variable_statement_segment() -> (e: Element)
    ensures
        e@ =~~= declare_or_replace_variable_statement_segment_element(),
{
    let g1 = Grammar::keyword("VARIABLE").optional();
    let g2: Vec<Grammar> = vec![Grammar::keyword("DEFAULT"), Grammar::reference("EqualsSegment")];
    assert(views(g2@) =~~= seq![GrammarView::Keyword { word: "DEFAULT"@ }, GrammarView::Ref { name: "EqualsSegment"@, optional: false }]);
    let g3: Vec<Grammar> = Vec::new();
    assert(views(g3@) =~= Seq::<GrammarView>::empty());
    let g4 = Grammar::one_of_with(g2, g3);
    let g5: Vec<Grammar> = vec![g4, Grammar::reference("ExpressionSegment")];
    assert(views(g5@) =~~= seq![GrammarView::OneOf { elements: seq![GrammarView::Keyword { word: "DEFAULT"@ }, GrammarView::Ref { name: "EqualsSegment"@, optional: false }], terminators: seq![] }, GrammarView::Ref { name: "ExpressionSegment"@, optional: false }]);
    let g6: Vec<Grammar> = Vec::new();
    assert(views(g6@) =~= Seq::<GrammarView>::empty());
    let g7 = Grammar::sequence_with(g5, g6, ParseMode::Strict);
    let g8 = g7.optional();
    let g9: Vec<Grammar> = vec![Grammar::keyword("DECLARE"), Grammar::optional_reference("OrReplaceGrammar"), g1, Grammar::reference("SingleIdentifierGrammar"), Grammar::optional_reference("DatatypeSegment"), g8];
    assert(views(g9@) =~~= seq![GrammarView::Keyword { word: "DECLARE"@ }, GrammarView::Ref { name: "OrReplaceGrammar"@, optional: true }, GrammarView::Optional { grammar: Box::new(GrammarView::Keyword { word: "VARIABLE"@ }) }, GrammarView::Ref { name: "SingleIdentifierGrammar"@, optional: false }, GrammarView::Ref { name: "DatatypeSegment"@, optional: true }, GrammarView::Optional { grammar: Box::new(GrammarView::Sequence { elements: seq![GrammarView::OneOf { elements: seq![GrammarView::Keyword { word: "DEFAULT"@ }, GrammarView::Ref { name: "EqualsSegment"@, optional: false }], terminators: seq![] }, GrammarView::Ref { name: "ExpressionSegment"@, optional: false }], terminators: seq![], parse_mode: ParseMode::Strict }) }]);
    let g10: Vec<Grammar> = Vec::new();
    assert(views(g10@) =~= Seq::<GrammarView>::empty());
    let g11 = Grammar::sequence_with(g9, g10, ParseMode::Strict);
    Element::Grammar(g11)
}

/// The Databricks element `CommentOnStatementSegment`.
pub open spec fn comment_on_statement_segment_element() -> ElementView {
    ElementView::Grammar(GrammarView::Sequence { elements: seq![GrammarView::Keyword { word: "COMMENT"@ }, GrammarView::Keyword { word: "ON"@ }, GrammarView::OneOf { elements: seq![GrammarView::Sequence { elements: seq![GrammarView::Keyword { word: "CATALOG"@ }, GrammarView::Ref { name: "CatalogReferenceSegment"@, optional: false }], terminators: seq![], parse_mode: ParseMode::Strict }, GrammarView::Sequence { elements: seq![GrammarView::OneOf { elements: seq![GrammarView::Keyword { word: "DATABASE"@ }, GrammarView::Keyword { word: "SCHEMA"@ }], terminators: seq![] }, GrammarView::Ref { name: "DatabaseReferenceSegment"@, optional: false }], terminators: seq![], parse_mode: ParseMode::Strict }, GrammarView::Sequence { elements: seq![GrammarView::Keyword { word: "TABLE"@ }, GrammarView::Ref { name: "TableReferenceSegment"@, optional: false }], terminators: seq![], parse_mode: ParseMode::Strict }, GrammarView::Sequence { elements: seq![GrammarView::Keyword { word: "VOLUME"@ }, GrammarView::Ref { name: "VolumeReferenceSegment"@, optional: false }], terminators: seq![], parse_mode: ParseMode::Strict }, GrammarView::Sequence { elements: seq![GrammarView::OneOf { elements: seq![GrammarView::Keyword { word: "CONNECTION"@ }, GrammarView::Keyword { word: "PROVIDER"@ }, GrammarView::Keyword { word: "RECIPIENT"@ }, GrammarView::Keyword { word: "SHARE"@ }], terminators: seq![] }, GrammarView::Ref { name: "ObjectReferenceSegment"@, optional: false }], terminators: seq![], parse_mode: ParseMode::Strict }], terminators: seq![] }, GrammarView::Keyword { word: "IS"@ }, GrammarView::OneOf { elements: seq![GrammarView::Ref { name: "QuotedLiteralSegment"@, optional: false }, GrammarView::Keyword { word: "NULL"@ }], terminators: seq![] }], terminators: seq![], parse_mode: ParseMode::Strict })
}

fn build_comment_on_statement_segment() -> (e: Element)
    ensures
        e@ =~~= comment_on_statement_segment_element(),
{
    let g1: Vec<Grammar> = vec![Grammar::keyword("CATALOG"), Grammar::reference("CatalogReferenceSegment")];
    assert(views(g1@) =~~= seq![GrammarView::Keyword { word: "CATALOG"@ }, GrammarView::Ref { name: "CatalogReferenceSegment"@, optional: false }]);
    let g2: Vec<Grammar> = Vec::new();
    assert(views(g2@) =~= Seq::<GrammarView>::empty());
    let g3 = Grammar::sequence_with(g1, g2, ParseMode::Strict);
    let g4: Vec<Grammar> = vec![Grammar::keyword("DATABASE"), Grammar::keyword("SCHEMA")];
    assert(views(g4@) =~~= seq![GrammarView::Keyword { word: "DATABASE"@ }, GrammarView::Keyword { word: "SCHEMA"@ }]);
    let g5: Vec<Grammar> = Vec::new();
    assert(views(g5@) =~= Seq::<GrammarView>::empty());
    let g6 = Grammar::one_of_with(g4, g5);
    let g7: Vec<Grammar> = vec![g6, Grammar::reference("DatabaseReferenceSegment")];
    assert(views(g7@) =~~= seq![GrammarView::OneOf { elements: seq![GrammarView::Keyword { word: "DATABASE"@ }, GrammarView::Keyword { word: "SCHEMA"@ }], terminators: seq![] }, GrammarView::Ref { name: "DatabaseReferenceSegment"@, optional: false }]);
    let g8: Vec<Grammar> = Vec::new();
    assert(views(g8@) =~= Seq::<GrammarView>::empty());
    let g9 = Grammar::sequence_with(g7, g8, ParseMode::Strict);
    let g10: Vec<Grammar> = vec![Grammar::keyword("TABLE"), Grammar::reference("TableReferenceSegment")];
    assert(views(g10@) =~~= seq![GrammarView::Keyword { word: "TABLE"@ }, GrammarView::Ref { name: "TableReferenceSegment"@, optional: false }]);
    let g11: Vec<Grammar> = Vec::new();
    assert(views(g11@) =~= Seq::<GrammarView>::empty());
    let g12 = Grammar::sequence_with(g10, g11, ParseMode::Strict);
    let g13: Vec<Grammar> = vec![Grammar::keyword("VOLUME"), Grammar::reference("VolumeReferenceSegment")];
    assert(views(g13@) =~~= seq![GrammarView::Keyword { word: "VOLUME"@ }, GrammarView::Ref { name: "VolumeReferenceSegment"@, optional: false }]);
    let g14: Vec<Grammar> = Vec::new();
    assert(views(g14@) =~= Seq::<GrammarView>::empty());
    let g15 = Grammar::sequence_with(g13, g14, ParseMode::Strict);
    let g16: Vec<Grammar> = vec![Grammar::keyword("CONNECTION"), Grammar::keyword("PROVIDER"), Grammar::keyword("RECIPIENT"), Grammar::keyword("SHARE")];
    assert(views(g16@) =~~= seq![GrammarView::Keyword { word: "CONNECTION"@ }, GrammarView::Keyword { word: "PROVIDER"@ }, GrammarView::Keyword { word: "RECIPIENT"@ }, GrammarView::Keyword { word: "SHARE"@ }]);
    let g17: Vec<Grammar> = Vec::new();
    assert(views(g17@) =~= Seq::<GrammarView>::empty());
    let g18 = Grammar::one_of_with(g16, g17);
    let g19: Vec<Grammar> = vec![g18, Grammar::reference("ObjectReferenceSegment")];
    assert(views(g19@) =~~= seq![GrammarView::OneOf { elements: seq![GrammarView::Keyword { word: "CONNECTION"@ }, GrammarView::Keyword { word: "PROVIDER"@ }, GrammarView::Keyword { word: "RECIPIENT"@ }, GrammarView::Keyword { word: "SHARE"@ }], terminators: seq![] }, GrammarView::Ref { name: "ObjectReferenceSegment"@, optional: false }]);
    let g20: Vec<Grammar> = Vec::new();
    assert(views(g20@) =~= Seq::<GrammarView>::empty());
    let g21 = Grammar::sequence_with(g19, g20, ParseMode::Strict);
    let g22: Vec<Grammar> = vec![g3, g9, g12, g15, g21];
    assert(views(g22@) =~~= seq![GrammarView::Sequence { elements: seq![GrammarView::Keyword { word: "CATALOG"@ }, GrammarView::Ref { name: "CatalogReferenceSegment"@, optional: false }], terminators: seq![], parse_mode: ParseMode::Strict }, GrammarView::Sequence { elements: seq![GrammarView::OneOf { elements: seq![GrammarView::Keyword { word: "DATABASE"@ }, GrammarView::Keyword { word: "SCHEMA"@ }], terminators: seq![] }, GrammarView::Ref { name: "DatabaseReferenceSegment"@, optional: false }], terminators: seq![], parse_mode: ParseMode::Strict }, GrammarView::Sequence { elements: seq![GrammarView::Keyword { word: "TABLE"@ }, GrammarView::Ref { name: "TableReferenceSegment"@, optional: false }], terminators: seq![], parse_mode: ParseMode::Strict }, GrammarView::Sequence { elements: seq![GrammarView::Keyword { word: "VOLUME"@ }, GrammarView::Ref { name: "VolumeReferenceSegment"@, optional: false }], terminators: seq![], parse_mode: ParseMode::Strict }, GrammarView::Sequence { elements: seq![GrammarView::OneOf { elements: seq![GrammarView::Keyword { word: "CONNECTION"@ }, GrammarView::Keyword { word: "PROVIDER"@ }, GrammarView::Keyword { word: "RECIPIENT"@ }, GrammarView::Keyword { word: "SHARE"@ }], terminators: seq![] }, GrammarView::Ref { name: "ObjectReferenceSegment"@, optional: false }], terminators: seq![], parse_mode: ParseMode::Strict }]);
    let g23: Vec<Grammar> = Vec::new();
    assert(views(g23@) =~= Seq::<GrammarView>::empty());
    let g24 = Grammar::one_of_with(g22, g23);
    let g25: Vec<Grammar> = vec![Grammar::reference("QuotedLiteralSegment"), Grammar::keyword("NULL")];
    assert(views(g25@) =~~= seq![GrammarView::Ref { name: "QuotedLiteralSegment"@, optional: false }, GrammarView::Keyword { word: "NULL"@ }]);
    let g26: Vec<Grammar> = Vec::new();
    assert(views(g26@) =~= Seq::<GrammarView>::empty());
    let g27 = Grammar::one_of_with(g25, g26);
    let g28: Vec<Grammar> = vec![Grammar::keyword("COMMENT"), Grammar::keyword("ON"), g24, Grammar::keyword("IS"), g27];
    assert(views(g28@) =~~= seq![GrammarView::Keyword { word: "COMMENT"@ }, GrammarView::Keyword { word: "ON"@ }, GrammarView::OneOf { elements: seq![GrammarView::Sequence { elements: seq![GrammarView::Keyword { word: "CATALOG"@ }, GrammarView::Ref { name: "CatalogReferenceSegment"@, optional: false }], terminators: seq![], parse_mode: ParseMode::Strict }, GrammarView::Sequence { elements: seq![GrammarView::OneOf { elements: seq![GrammarView::Keyword { word: "DATABASE"@ }, GrammarView::Keyword { word: "SCHEMA"@ }], terminators: seq![] }, GrammarView::Ref { name: "DatabaseReferenceSegment"@, optional: false }], terminators: seq![], parse_mode: ParseMode::Strict }, GrammarView::Sequence { elements: seq![GrammarView::Keyword { word: "TABLE"@ }, GrammarView::Ref { name: "TableReferenceSegment"@, optional: false }], terminators: seq![], parse_mode: ParseMode::Strict }, GrammarView::Sequence { elements: seq![GrammarView::Keyword { word: "VOLUME"@ }, GrammarView::Ref { name: "VolumeReferenceSegment"@, optional: false }], terminators: seq![], parse_mode: ParseMode::Strict }, GrammarView::Sequence { elements: seq![GrammarView::OneOf { elements: seq![GrammarView::Keyword { word: "CONNECTION"@ }, GrammarView::Keyword { word: "PROVIDER"@ }, GrammarView::Keyword { word: "RECIPIENT"@ }, GrammarView::Keyword { word: "SHARE"@ }], terminators: seq![] }, GrammarView::Ref { name: "ObjectReferenceSegment"@, optional: false }], terminators: seq![], parse_mode: ParseMode::Strict }], terminators: seq![] }, GrammarView::Keyword { word: "IS"@ }, GrammarView::OneOf { elements: seq![GrammarView::Ref { name: "QuotedLiteralSegment"@, optional: false }, GrammarView::Keyword { word: "NULL"@ }], terminators: seq![] }]);
    let g29: Vec<Grammar> = Vec::new();
    assert(views(g29@) =~= Seq::<GrammarView>::empty());
    let g30 = Grammar::sequence_with(g28, g29, ParseMode::Strict);
    Element::Grammar(g30)
}

/// The Databricks element `ShowDatabasesSchemasGrammar`.
pub open spec fn show_databases_schemas_grammar_element() -> ElementView {
    ElementView::Grammar(GrammarView::Sequence { elements: seq![GrammarView::OneOf { elements: seq![GrammarView::Keyword { word: "DATABASES"@ }, GrammarView::Keyword { word: "SCHEMAS"@ }], terminators: seq![] }, GrammarView::Optional { grammar: Box::new(GrammarView::Sequence { elements: seq![GrammarView::OneOf { elements: seq![GrammarView::Keyword { word: "FROM"@ }, GrammarView::Keyword { word: "IN"@ }], terminators: seq![] }, GrammarView::Ref { name: "DatabaseReferenceSegment"@, optional: false }], terminators: seq![], parse_mode: ParseMode::Strict }) }, GrammarView::Optional { grammar: Box::new(GrammarView::Sequence { elements: seq![GrammarView::Optional { grammar: Box::new(GrammarView::Keyword { word: "LIKE"@ }) }, GrammarView::Ref { name: "QuotedLiteralSegment"@, optional: false }], terminators: seq![], parse_mode: ParseMode::Strict }) }], terminators: seq![], parse_mode: ParseMode::Strict })
}

fn build_show_databases_schemas_grammar() -> (e: Element)
    ensures
        e@ =~~= show_databases_schemas_grammar_element(),
{
    let g1: Vec<Grammar> = vec![Grammar::keyword("DATABASES"), Grammar::keyword("SCHEMAS")];
    assert(views(g1@) =~~= seq![GrammarView::Keyword { word: "DATABASES"@ }, GrammarView::Keyword { word: "SCHEMAS"@ }]);
    let g2: Vec<Grammar> = Vec::new();
    assert(views(g2@) =~= Seq::<GrammarView>::empty());
    let g3 = Grammar::one_of_with(g1, g2);
    let g4: Vec<Grammar> = vec![Grammar::keyword("FROM"), Grammar::keyword("IN")];
    assert(views(g4@) =~~= seq![GrammarView::Keyword { word: "FROM"@ }, GrammarView::Keyword { word: "IN"@ }]);
    let g5: Vec<Grammar> = Vec::new();
    assert(views(g5@) =~= Seq::<GrammarView>::empty());
    let g6 = Grammar::one_of_with(g4, g5);
    let g7: Vec<Grammar> = vec![g6, Grammar::reference("DatabaseReferenceSegment")];
    assert(views(g7@) =~~= seq![GrammarView::OneOf { elements: seq![GrammarView::Keyword { word: "FROM"@ }, GrammarView::Keyword { word: "IN"@ }], terminators: seq![] }, GrammarView::Ref { name: "DatabaseReferenceSegment"@, optional: false }]);
    let g8: Vec<Grammar> = Vec::new();
    assert(views(g8@) =~= Seq::<GrammarView>::empty());
    let g9 = Grammar::sequence_with(g7, g8, ParseMode::Strict);
    let g10 = g9.optional();
    let g11 = Grammar::keyword("LIKE").optional();
    let g12: Vec<Grammar> = vec![g11, Grammar::reference("QuotedLiteralSegment")];
    assert(views(g12@) =~~= seq![GrammarView::Optional { grammar: Box::new(GrammarView::Keyword { word: "LIKE"@ }) }, GrammarView::Ref { name: "QuotedLiteralSegment"@, optional: false }]);
    let g13: Vec<Grammar> = Vec::new();
    assert(views(g13@) =~= Seq::<GrammarView>::empty());
    let g14 = Grammar::sequence_with(g12, g13, ParseMode::Strict);
    let g15 = g14.optional();
    let g16: Vec<Grammar> = vec![g3, g10, g15];
    assert(views(g16@) =~~= seq![GrammarView::OneOf { elements: seq![GrammarView::Keyword { word: "DATABASES"@ }, GrammarView::Keyword { word: "SCHEMAS"@ }], terminators: seq![] }, GrammarView::Optional { grammar: Box::new(GrammarView::Sequence { elements: seq![GrammarView::OneOf { elements: seq![GrammarView::Keyword { word: "FROM"@ }, GrammarView::Keyword { word: "IN"@ }], terminators: seq![] }, GrammarView::Ref { name: "DatabaseReferenceSegment"@, optional: false }], terminators: seq![], parse_mode: ParseMode::Strict }) }, GrammarView::Optional { grammar: Box::new(GrammarView::Sequence { elements: seq![GrammarView::Optional { grammar: Box::new(GrammarView::Keyword { word: "LIKE"@ }) }, GrammarView::Ref { name: "QuotedLiteralSegment"@, optional: false }], terminators: seq![], parse_mode: ParseMode::Strict }) }]);
    let g17: Vec<Grammar> = Vec::new();
    assert(views(g17@) =~= Seq::<GrammarView>::empty());
    let g18 = Grammar::sequence_with(g16, g17, ParseMode::Strict);
    Element::Grammar(g18)
}

/// The Databricks element `ShowFunctionsGrammar`.
pub open spec fn show_functions_grammar_element() -> ElementView {
    ElementView::Grammar(GrammarView::Sequence { elements: seq![GrammarView::Optional { grammar: Box::new(GrammarView::OneOf { elements: seq![GrammarView::Keyword { word: "USER"@ }, GrammarView::Keyword { word: "SYSTEM"@ }, GrammarView::Keyword { word: "ALL"@ }], terminators: seq![] }) }, GrammarView::Keyword { word: "FUNCTIONS"@ }, GrammarView::Optional { grammar: Box::new(GrammarView::Sequence { elements: seq![GrammarView::Optional { grammar: Box::new(GrammarView::Sequence { elements: seq![GrammarView::OneOf { elements: seq![GrammarView::Keyword { word: "FROM"@ }, GrammarView::Keyword { word: "IN"@ }], terminators: seq![] }, GrammarView::Ref { name: "DatabaseReferenceSegment"@, optional: false }], terminators: seq![], parse_mode: ParseMode::Strict }) }, GrammarView::Optional { grammar: Box::new(GrammarView::Sequence { elements: seq![GrammarView::Optional { grammar: Box::new(GrammarView::Keyword { word: "LIKE"@ }) }, GrammarView::OneOf { elements: seq![GrammarView::WithoutGaps { grammar: Box::new(GrammarView::Sequence { elements: seq![GrammarView::Ref { name: "DatabaseReferenceSegment"@, optional: false }, GrammarView::Ref { name: "DotSegment"@, optional: false }, GrammarView::Ref { name: "FunctionNameSegment"@, optional: false }], terminators: seq![], parse_mode: ParseMode::Strict }) }, GrammarView::Ref { name: "FunctionNameSegment"@, optional: false }, GrammarView::Ref { name: "QuotedLiteralSegment"@, optional: false }], terminators: seq![] }], terminators: seq![], parse_mode: ParseMode::Strict }) }], terminators: seq![], parse_mode: ParseMode::Strict }) }], terminators: seq![], parse_mode: ParseMode::Strict })
}

fn build_show_functions_grammar() -> (e: Element)
    ensures
        e@ =~~= show_functions_grammar_element(),
{
    let g1: Vec<Grammar> = vec![Grammar::keyword("USER"), Grammar::keyword("SYSTEM"), Grammar::keyword("ALL")];
    assert(views(g1@) =~~= seq![GrammarView::Keyword { word: "USER"@ }, GrammarView::Keyword { word: "SYSTEM"@ }, GrammarView::Keyword { word: "ALL"@ }]);
    let g2: Vec<Grammar> = Vec::new();
    assert(views(g2@) =~= Seq::<GrammarView>::empty());
    let g3 = Grammar::one_of_with(g1, g2);
    let g4 = g3.optional();
    let g5: Vec<Grammar> = vec![Grammar::keyword("FROM"), Grammar::keyword("IN")];
    assert(views(g5@) =~~= seq![GrammarView::Keyword { word: "FROM"@ }, GrammarView::Keyword { word: "IN"@ }]);
    let g6: Vec<Grammar> = Vec::new();
    assert(views(g6@) =~= Seq::<GrammarView>::empty());
    let g7 = Grammar::one_of_with(g5, g6);
    let g8: Vec<Grammar> = vec![g7, Grammar::reference("DatabaseReferenceSegment")];
    assert(views(g8@) =~~= seq![GrammarView::OneOf { elements: seq![GrammarView::Keyword { word: "FROM"@ }, GrammarView::Keyword { word: "IN"@ }], terminators: seq![] }, GrammarView::Ref { name: "DatabaseReferenceSegment"@, optional: false }]);
    let g9: Vec<Grammar> = Vec::new();
    assert(views(g9@) =~= Seq::<GrammarView>::empty());
    let g10 = Grammar::sequence_with(g8, g9, ParseMode::Strict);
    let g11 = g10.optional();
    let g12 = Grammar::keyword("LIKE").optional();
    let g13: Vec<Grammar> = vec![Grammar::reference("DatabaseReferenceSegment"), Grammar::reference("DotSegment"), Grammar::reference("FunctionNameSegment")];
    assert(views(g13@) =~~= seq![GrammarView::Ref { name: "DatabaseReferenceSegment"@, optional: false }, GrammarView::Ref { name: "DotSegment"@, optional: false }, GrammarView::Ref { name: "FunctionNameSegment"@, optional: false }]);
    let g14: Vec<Grammar> = Vec::new();
    assert(views(g14@) =~= Seq::<GrammarView>::empty());
    let g15 = Grammar::sequence_with(g13, g14, ParseMode::Strict);
    let g16 = g15.without_gaps();
    let g17: Vec<Grammar> = vec![g16, Grammar::reference("FunctionNameSegment"), Grammar::reference("QuotedLiteralSegment")];
    assert(views(g17@) =~~= seq![GrammarView::WithoutGaps { grammar: Box::new(GrammarView::Sequence { elements: seq![GrammarView::Ref { name: "DatabaseReferenceSegment"@, optional: false }, GrammarView::Ref { name: "DotSegment"@, optional: false }, GrammarView::Ref { name: "FunctionNameSegment"@, optional: false }], terminators: seq![], parse_mode: ParseMode::Strict }) }, GrammarView::Ref { name: "FunctionNameSegment"@, optional: false }, GrammarView::Ref { name: "QuotedLiteralSegment"@, optional: false }]);
    let g18: Vec<Grammar> = Vec::new();
    assert(views(g18@) =~= Seq::<GrammarView>::empty());
    let g19 = Grammar::one_of_with(g17, g18);
    let g20: Vec<Grammar> = vec![g12, g19];
    assert(views(g20@) =~~= seq![GrammarView::Optional { grammar: Box::new(GrammarView::Keyword { word: "LIKE"@ }) }, GrammarView::OneOf { elements: seq![GrammarView::WithoutGaps { grammar: Box::new(GrammarView::Sequence { elements: seq![GrammarView::Ref { name: "DatabaseReferenceSegment"@, optional: false }, GrammarView::Ref { name: "DotSegment"@, optional: false }, GrammarView::Ref { name: "FunctionNameSegment"@, optional: false }], terminators: seq![], parse_mode: ParseMode::Strict }) }, GrammarView::Ref { name: "FunctionNameSegment"@, optional: false }, GrammarView::Ref { name: "QuotedLiteralSegment"@, optional: false }], terminators: seq![] }]);
    let g21: Vec<Grammar> = Vec::new();
    assert(views(g21@) =~= Seq::<GrammarView>::empty());
    let g22 = Grammar::sequence_with(g20, g21, ParseMode::Strict);
    let g23 = g22.optional();
    let g24: Vec<Grammar> = vec![g11, g23];
    assert(views(g24@) =~~= seq![GrammarView::Optional { grammar: Box::new(GrammarView::Sequence { elements: seq![GrammarView::OneOf { elements: seq![GrammarView::Keyword { word: "FROM"@ }, GrammarView::Keyword { word: "IN"@ }], terminators: seq![] }, GrammarView::Ref { name: "DatabaseReferenceSegment"@, optional: false }], terminators: seq![], parse_mode: ParseMode::Strict }) }, GrammarView::Optional { grammar: Box::new(GrammarView::Sequence { elements: seq![GrammarView::Optional { grammar: Box::new(GrammarView::Keyword { word: "LIKE"@ }) }, GrammarView::OneOf { elements: seq![GrammarView::WithoutGaps { grammar: Box::new(GrammarView::Sequence { elements: seq![GrammarView::Ref { name: "DatabaseReferenceSegment"@, optional: false }, GrammarView::Ref { name: "DotSegment"@, optional: false }, GrammarView::Ref { name: "FunctionNameSegment"@, optional: false }], terminators: seq![], parse_mode: ParseMode::Strict }) }, GrammarView::Ref { name: "FunctionNameSegment"@, optional: false }, GrammarView::Ref { name: "QuotedLiteralSegment"@, optional: false }], terminators: seq![] }], terminators: seq![], parse_mode: ParseMode::Strict }) }]);
    let g25: Vec<Grammar> = Vec::new();
    assert(views(g25@) =~= Seq::<GrammarView>::empty());
    let g26 = Grammar::sequence_with(g24, g25, ParseMode::Strict);
    let g27 = g26.optional();
    let g28: Vec<Grammar> = vec![g4, Grammar::keyword("FUNCTIONS"), g27];
    assert(views(g28@) =~~= seq![GrammarView::Optional { grammar: Box::new(GrammarView::OneOf { elements: seq![GrammarView::Keyword { word: "USER"@ }, GrammarView::Keyword { word: "SYSTEM"@ }, GrammarView::Keyword { word: "ALL"@ }], terminators: seq![] }) }, GrammarView::Keyword { word: "FUNCTIONS"@ }, GrammarView::Optional { grammar: Box::new(GrammarView::Sequence { elements: seq![GrammarView::Optional { grammar: Box::new(GrammarView::Sequence { elements: seq![GrammarView::OneOf { elements: seq![GrammarView::Keyword { word: "FROM"@ }, GrammarView::Keyword { word: "IN"@ }], terminators: seq![] }, GrammarView::Ref { name: "DatabaseReferenceSegment"@, optional: false }], terminators: seq![], parse_mode: ParseMode::Strict }) }, GrammarView::Optional { grammar: Box::new(GrammarView::Sequence { elements: seq![GrammarView::Optional { grammar: Box::new(GrammarView::Keyword { word: "LIKE"@ }) }, GrammarView::OneOf { elements: seq![GrammarView::WithoutGaps { grammar: Box::new(GrammarView::Sequence { elements: seq![GrammarView::Ref { name: "DatabaseReferenceSegment"@, optional: false }, GrammarView::Ref { name: "DotSegment"@, optional: false }, GrammarView::Ref { name: "FunctionNameSegment"@, optional: false }], terminators: seq![], parse_mode: ParseMode::Strict }) }, GrammarView::Ref { name: "FunctionNameSegment"@, optional: false }, GrammarView::Ref { name: "QuotedLiteralSegment"@, optional: false }], terminators: seq![] }], terminators: seq![], parse_mode: ParseMode::Strict }) }], terminators: seq![], parse_mode: ParseMode::Strict }) }]);
    let g29: Vec<Grammar> = Vec::new();
    assert(views(g29@) =~= Seq::<GrammarView>::empty());
    let g30 = Grammar::sequence_with(g28, g29, ParseMode::Strict);
    Element::Grammar(g30)
}

/// The Databricks element `ShowTablesGrammar`.
pub open spec fn show_tables_grammar_element() -> ElementView {
    ElementView::Grammar(GrammarView::Sequence { elements: seq![GrammarView::Keyword { word: "TABLES"@ }, GrammarView::Optional { grammar: Box::new(GrammarView::Sequence { elements: seq![GrammarView::OneOf { elements: seq![GrammarView::Keyword { word: "FROM"@ }, GrammarView::Keyword { word: "IN"@ }], terminators: seq![] }, GrammarView::Ref { name: "DatabaseReferenceSegment"@, optional: false }], terminators: seq![], parse_mode: ParseMode::Strict }) }, GrammarView::Optional { grammar: Box::new(GrammarView::Sequence { elements: seq![GrammarView::Optional { grammar: Box::new(GrammarView::Keyword { word: "LIKE"@ }) }, GrammarView::Ref { name: "QuotedLiteralSegment"@, optional: false }], terminators: seq![], parse_mode: ParseMode::Strict }) }], terminators: seq![], parse_mode: ParseMode::Strict })
}

fn build_show_tables_grammar() -> (e: Element)
    ensures
        e@ =~~= show_tables_grammar_element(),
{
    let g1: Vec<Grammar> = vec![Grammar::keyword("FROM"), Grammar::keyword("IN")];
    assert(views(g1@) =~~= seq![GrammarView::Keyword { word: "FROM"@ }, GrammarView::Keyword { word: "IN"@ }]);
    let g2: Vec<Grammar> = Vec::new();
    assert(views(g2@) =~= Seq::<GrammarView>::empty());
    let g3 = Grammar::one_of_with(g1, g2);
    let g4: Vec<Grammar> = vec![g3, Grammar::reference("DatabaseReferenceSegment")];
    assert(views(g4@) =~~= seq![GrammarView::OneOf { elements: seq![GrammarView::Keyword { word: "FROM"@ }, GrammarView::Keyword { word: "IN"@ }], terminators: seq![] }, GrammarView::Ref { name: "DatabaseReferenceSegment"@, optional: false }]);
    let g5: Vec<Grammar> = Vec::new();
    assert(views(g5@) =~= Seq::<GrammarView>::empty());
    let g6 = Grammar::sequence_with(g4, g5, ParseMode::Strict);
    let g7 = g6.optional();
    let g8 = Grammar::keyword("LIKE").optional();
    let g9: Vec<Grammar> = vec![g8, Grammar::reference("QuotedLiteralSegment")];
    assert(views(g9@) =~~= seq![GrammarView::Optional { grammar: Box::new(GrammarView::Keyword { word: "LIKE"@ }) }, GrammarView::Ref { name: "QuotedLiteralSegment"@, optional: false }]);
    let g10: Vec<Grammar> = Vec::new();
    assert(views(g10@) =~= Seq::<GrammarView>::empty());
    let g11 = Grammar::sequence_with(g9, g10, ParseMode::Strict);
    let g12 = g11.optional();
    let g13: Vec<Grammar> = vec![Grammar::keyword("TABLES"), g7, g12];
    assert(views(g13@) =~~= seq![GrammarView::Keyword { word: "TABLES"@ }, GrammarView::Optional { grammar: Box::new(GrammarView::Sequence { elements: seq![GrammarView::OneOf { elements: seq![GrammarView::Keyword { word: "FROM"@ }, GrammarView::Keyword { word: "IN"@ }], terminators: seq![] }, GrammarView::Ref { name: "DatabaseReferenceSegment"@, optional: false }], terminators: seq![], parse_mode: ParseMode::Strict }) }, GrammarView::Optional { grammar: Box::new(GrammarView::Sequence { elements: seq![GrammarView::Optional { grammar: Box::new(GrammarView::Keyword { word: "LIKE"@ }) }, GrammarView::Ref { name: "QuotedLiteralSegment"@, optional: false }], terminators: seq![], parse_mode: ParseMode::Strict }) }]);
    let g14: Vec<Grammar> = Vec::new();
    assert(views(g14@) =~= Seq::<GrammarView>::empty());
    let g15 = Grammar::sequence_with(g13, g14, ParseMode::Strict);
    Element::Grammar(g15)
}

/// The Databricks element `ShowViewsGrammar`.
pub open spec fn show_views_grammar_element() -> ElementView {
    ElementView::Grammar(GrammarView::Sequence { elements: seq![GrammarView::Keyword { word: "VIEWS"@ }, GrammarView::Optional { grammar: Box::new(GrammarView::Sequence { elements: seq![GrammarView::OneOf { elements: seq![GrammarView::Keyword { word: "FROM"@ }, GrammarView::Keyword { word: "IN"@ }], terminators: seq![] }, GrammarView::Ref { name: "DatabaseReferenceSegment"@, optional: false }], terminators: seq![], parse_mode: ParseMode::Strict }) }, GrammarView::Optional { grammar: Box::new(GrammarView::Sequence { elements: seq![GrammarView::Optional { grammar: Box::new(GrammarView::Keyword { word: "LIKE"@ }) }, GrammarView::Ref { name: "QuotedLiteralSegment"@, optional: false }], terminators: seq![], parse_mode: ParseMode::Strict }) }], terminators: seq![], parse_mode: ParseMode::Strict })
}

fn build_show_views_grammar() -> (e: Element)
    ensures
        e@ =~~= show_views_grammar_element(),
{
    let g1: Vec<Grammar> = vec![Grammar::keyword("FROM"), Grammar::keyword("IN")];
    assert(views(g1@) =~~= seq![GrammarView::Keyword { word: "FROM"@ }, GrammarView::Keyword { word: "IN"@ }]);
    let g2: Vec<Grammar> = Vec::new();
    assert(views(g2@) =~= Seq::<GrammarView>::empty());
    let g3 = Grammar::one_of_with(g1, g2);
    let g4: Vec<Grammar> = vec![g3, Grammar::reference("DatabaseReferenceSegment")];
    assert(views(g4@) =~~= seq![GrammarView::OneOf { elements: seq![GrammarView::Keyword { word: "FROM"@ }, GrammarView::Keyword { word: "IN"@ }], terminators: seq![] }, GrammarView::Ref { name: "DatabaseReferenceSegment"@, optional: false }]);
    let g5: Vec<Grammar> = Vec::new();
    assert(views(g5@) =~= Seq::<GrammarView>::empty());
    let g6 = Grammar::sequence_with(g4, g5, ParseMode::Strict);
    let g7 = g6.optional();
    let g8 = Grammar::keyword("LIKE").optional();
    let g9: Vec<Grammar> = vec![g8, Grammar::reference("QuotedLiteralSegment")];
    assert(views(g9@) =~~= seq![GrammarView::Optional { grammar: Box::new(GrammarView::Keyword { word: "LIKE"@ }) }, GrammarView::Ref { name: "QuotedLiteralSegment"@, optional: false }]);
    let g10: Vec<Grammar> = Vec::new();
    assert(views(g10@) =~= Seq::<GrammarView>::empty());
    let g11 = Grammar::sequence_with(g9, g10, ParseMode::Strict);
    let g12 = g11.optional();
    let g13: Vec<Grammar> = vec![Grammar::keyword("VIEWS"), g7, g12];
    assert(views(g13@) =~~= seq![GrammarView::Keyword { word: "VIEWS"@ }, GrammarView::Optional { grammar: Box::new(GrammarView::Sequence { elements: seq![GrammarView::OneOf { elements: seq![GrammarView::Keyword { word: "FROM"@ }, GrammarView::Keyword { word: "IN"@ }], terminators: seq![] }, GrammarView::Ref { name: "DatabaseReferenceSegment"@, optional: false }], terminators: seq![], parse_mode: ParseMode::Strict }) }, GrammarView::Optional { grammar: Box::new(GrammarView::Sequence { elements: seq![GrammarView::Optional { grammar: Box::new(GrammarView::Keyword { word: "LIKE"@ }) }, GrammarView::Ref { name: "QuotedLiteralSegment"@, optional: false }], terminators: seq![], parse_mode: ParseMode::Strict }) }]);
    let g14: Vec<Grammar> = Vec::new();
    assert(views(g14@) =~= Seq::<GrammarView>::empty());
    let g15 = Grammar::sequence_with(g13, g14, ParseMode::Strict);
    Element::Grammar(g15)
}

/// The Databricks element `InsertBracketedColumnReferenceListGrammar`.
pub open spec fn insert_bracketed_column_reference_list_grammar_element() -> ElementView {
    ElementView::Grammar(GrammarView::OneOf { elements: seq![GrammarView::Ref { name: "BracketedColumnReferenceListGrammar"@, optional: false }, GrammarView::Sequence { elements: seq![GrammarView::Keyword { word: "BY"@ }, GrammarView::Keyword { word: "NAME"@ }], terminators: seq![], parse_mode: ParseMode::Strict }], terminators: seq![] })
}

fn build_insert_bracketed_column_reference_list_grammar() -> (e: Element)
    ensures
        e@ =~~= insert_bracketed_column_reference_list_grammar_element(),
{
    let g1: Vec<Grammar> = vec![Grammar::keyword("BY"), Grammar::keyword("NAME")];
    assert(views(g1@) =~~= seq![GrammarView::Keyword { word: "BY"@ }, GrammarView::Keyword { word: "NAME"@ }]);
    let g2: Vec<Grammar> = Vec::new();
    assert(views(g2@) =~= Seq::<GrammarView>::empty());
    let g3 = Grammar::sequence_with(g1, g2, ParseMode::Strict);
    let g4: Vec<Grammar> = vec![Grammar::reference("BracketedColumnReferenceListGrammar"), g3];
    assert(views(g4@) =~~= seq![GrammarView::Ref { name: "BracketedColumnReferenceListGrammar"@, optional: false }, GrammarView::Sequence { elements: seq![GrammarView::Keyword { word: "BY"@ }, GrammarView::Keyword { word: "NAME"@ }], terminators: seq![], parse_mode: ParseMode::Strict }]);
    let g5: Vec<Grammar> = Vec::new();
    assert(views(g5@) =~= Seq::<GrammarView>::empty());
    let g6 = Grammar::one_of_with(g4, g5);
    Element::Grammar(g6)
}

/// The Databricks grammar of `GeneratedColumnDefinitionSegment`.
pub open spec fn generated_column_definition_segment_grammar() -> GrammarView {
    GrammarView::Sequence { elements: seq![GrammarView::Ref { name: "SingleIdentifierGrammar"@, optional: false }, GrammarView::Ref { name: "DatatypeSegment"@, optional: false }, GrammarView::Optional { grammar: Box::new(GrammarView::Bracketed { elements: seq![GrammarView::Anything], bracket_type: "round"@ }) }, GrammarView::OneOf { elements: seq![GrammarView::Sequence { elements: seq![GrammarView::Keyword { word: "GENERATED"@ }, GrammarView::Keyword { word: "ALWAYS"@ }, GrammarView::Keyword { word: "AS"@ }, GrammarView::Bracketed { elements: seq![GrammarView::OneOf { elements: seq![GrammarView::Ref { name: "FunctionSegment"@, optional: false }, GrammarView::Ref { name: "BareFunctionSegment"@, optional: false }], terminators: seq![] }], bracket_type: "round"@ }], terminators: seq![], parse_mode: ParseMode::Strict }, GrammarView::Sequence { elements: seq![GrammarView::Keyword { word: "GENERATED"@ }, GrammarView::OneOf { elements: seq![GrammarView::Keyword { word: "ALWAYS"@ }, GrammarView::Sequence { elements: seq![GrammarView::Keyword { word: "BY"@ }, GrammarView::Keyword { word: "DEFAULT"@ }], terminators: seq![], parse_mode: ParseMode::Strict }], terminators: seq![] }, GrammarView::Keyword { word: "AS"@ }, GrammarView::Keyword { word: "IDENTITY"@ }, GrammarView::Optional { grammar: Box::new(GrammarView::Bracketed { elements: seq![GrammarView::Optional { grammar: Box::new(GrammarView::Sequence { elements: seq![GrammarView::Keyword { word: "START"@ }, GrammarView::Keyword { word: "WITH"@ }, GrammarView::Ref { name: "NumericLiteralSegment"@, optional: false }], terminators: seq![], parse_mode: ParseMode::Strict }) }, GrammarView::Optional { grammar: Box::new(GrammarView::Sequence { elements: seq![GrammarView::Keyword { word: "INCREMENT"@ }, GrammarView::Keyword { word: "BY"@ }, GrammarView::Ref { name: "NumericLiteralSegment"@, optional: false }], terminators: seq![], parse_mode: ParseMode::Strict }) }], bracket_type: "round"@ }) }], terminators: seq![], parse_mode: ParseMode::Strict }], terminators: seq![] }, GrammarView::AnyNumberOf { elements: seq![GrammarView::Ref { name: "ColumnConstraintSegment"@, optional: true }], terminators: seq![], min_times: 0, max_times: None }], terminators: seq![], parse_mode: ParseMode::Strict }
}

#[verifier::rlimit(100)]
fn build_generated_column_definition_segment() -> (g: Grammar)
    ensures
        g@ =~~= generated_column_definition_segment_grammar(),
{
    let g1: Vec<Grammar> = vec![Grammar::anything()];
    assert(views(g1@) =~~= seq![GrammarView::Anything]);
    let g2 = Grammar::bracketed_with(g1, "round");
    let g3 = g2.optional();
    let g4: Vec<Grammar> = vec![Grammar::reference("FunctionSegment"), Grammar::reference("BareFunctionSegment")];
    assert(views(g4@) =~~= seq![GrammarView::Ref { name: "FunctionSegment"@, optional: false }, GrammarView::Ref { name: "BareFunctionSegment"@, optional: false }]);
    let g5: Vec<Grammar> = Vec::new();
    assert(views(g5@) =~= Seq::<GrammarView>::empty());
    let g6 = Grammar::one_of_with(g4, g5);
    let g7: Vec<Grammar> = vec![g6];
    assert(views(g7@) =~~= seq![GrammarView::OneOf { elements: seq![GrammarView::Ref { name: "FunctionSegment"@, optional: false }, GrammarView::Ref { name: "BareFunctionSegment"@, optional: false }], terminators: seq![] }]);
    let g8 = Grammar::bracketed_with(g7, "round");
    let g9: Vec<Grammar> = vec![Grammar::keyword("GENERATED"), Grammar::keyword("ALWAYS"), Grammar::keyword("AS"), g8];
    assert(views(g9@) =~~= seq![GrammarView::Keyword { word: "GENERATED"@ }, GrammarView::Keyword { word: "ALWAYS"@ }, GrammarView::Keyword { word: "AS"@ }, GrammarView::Bracketed { elements: seq![GrammarView::OneOf { elements: seq![GrammarView::Ref { name: "FunctionSegment"@, optional: false }, GrammarView::Ref { name: "BareFunctionSegment"@, optional: false }], terminators: seq![] }], bracket_type: "round"@ }]);
    let g10: Vec<Grammar> = Vec::new();
    assert(views(g10@) =~= Seq::<GrammarView>::empty());
    let g11 = Grammar::sequence_with(g9, g10, ParseMode::Strict);
    let g12: Vec<Grammar> = vec![Grammar::keyword("BY"), Grammar::keyword("DEFAULT")];
    assert(views(g12@) =~~= seq![GrammarView::Keyword { word: "BY"@ }, GrammarView::Keyword { word: "DEFAULT"@ }]);
    let g13: Vec<Grammar> = Vec::new();
    assert(views(g13@) =~= Seq::<GrammarView>::empty());
    let g14 = Grammar::sequence_with(g12, g13, ParseMode::Strict);
    let g15: Vec<Grammar> = vec![Grammar::keyword("ALWAYS"), g14];
    assert(views(g15@) =~~= seq![GrammarView::Keyword { word: "ALWAYS"@ }, GrammarView::Sequence { elements: seq![GrammarView::Keyword { word: "BY"@ }, GrammarView::Keyword { word: "DEFAULT"@ }], terminators: seq![], parse_mode: ParseMode::Strict }]);
    let g16: Vec<Grammar> = Vec::new();
    assert(views(g16@) =~= Seq::<GrammarView>::empty());
    let g17 = Grammar::one_of_with(g15, g16);
    let g18: Vec<Grammar> = vec![Grammar::keyword("START"), Grammar::keyword("WITH"), Grammar::reference("NumericLiteralSegment")];
    assert(views(g18@) =~~= seq![GrammarView::Keyword { word: "START"@ }, GrammarView::Keyword { word: "WITH"@ }, GrammarView::Ref { name: "NumericLiteralSegment"@, optional: false }]);
    let g19: Vec<Grammar> = Vec::new();
    assert(views(g19@) =~= Seq::<GrammarView>::empty());
    let g20 = Grammar::sequence_with(g18, g19, ParseMode::Strict);
    let g21 = g20.optional();
    let g22: Vec<Grammar> = vec![Grammar::keyword("INCREMENT"), Grammar::keyword("BY"), Grammar::reference("NumericLiteralSegment")];
    assert(views(g22@) =~~= seq![GrammarView::Keyword { word: "INCREMENT"@ }, GrammarView::Keyword { word: "BY"@ }, GrammarView::Ref { name: "NumericLiteralSegment"@, optional: false }]);
    let g23: Vec<Grammar> = Vec::new();
    assert(views(g23@) =~= Seq::<GrammarView>::empty());
    let g24 = Grammar::sequence_with(g22, g23, ParseMode::Strict);
    let g25 = g24.optional();
    let g26: Vec<Grammar> = vec![g21, g25];
    assert(views(g26@) =~~= seq![GrammarView::Optional { grammar: Box::new(GrammarView::Sequence { elements: seq![GrammarView::Keyword { word: "START"@ }, GrammarView::Keyword { word: "WITH"@ }, GrammarView::Ref { name: "NumericLiteralSegment"@, optional: false }], terminators: seq![], parse_mode: ParseMode::Strict }) }, GrammarView::Optional { grammar: Box::new(GrammarView::Sequence { elements: seq![GrammarView::Keyword { word: "INCREMENT"@ }, GrammarView::Keyword { word: "BY"@ }, GrammarView::Ref { name: "NumericLiteralSegment"@, optional: false }], terminators: seq![], parse_mode: ParseMode::Strict }) }]);
    let g27 = Grammar::bracketed_with(g26, "round");
    let g28 = g27.optional();
    let g29: Vec<Grammar> = vec![Grammar::keyword("GENERATED"), g17, Grammar::keyword("AS"), Grammar::keyword("IDENTITY"), g28];
    assert(views(g29@) =~~= seq![GrammarView::Keyword { word: "GENERATED"@ }, GrammarView::OneOf { elements: seq![GrammarView::Keyword { word: "ALWAYS"@ }, GrammarView::Sequence { elements: seq![GrammarView::Keyword { word: "BY"@ }, GrammarView::Keyword { word: "DEFAULT"@ }], terminators: seq![], parse_mode: ParseMode::Strict }], terminators: seq![] }, GrammarView::Keyword { word: "AS"@ }, GrammarView::Keyword { word: "IDENTITY"@ }, GrammarView::Optional { grammar: Box::new(GrammarView::Bracketed { elements: seq![GrammarView::Optional { grammar: Box::new(GrammarView::Sequence { elements: seq![GrammarView::Keyword { word: "START"@ }, GrammarView::Keyword { word: "WITH"@ }, GrammarView::Ref { name: "NumericLiteralSegment"@, optional: false }], terminators: seq![], parse_mode: ParseMode::Strict }) }, GrammarView::Optional { grammar: Box::new(GrammarView::Sequence { elements: seq![GrammarView::Keyword { word: "INCREMENT"@ }, GrammarView::Keyword { word: "BY"@ }, GrammarView::Ref { name: "NumericLiteralSegment"@, optional: false }], terminators: seq![], parse_mode: ParseMode::Strict }) }], bracket_type: "round"@ }) }]);
    let g30: Vec<Grammar> = Vec::new();
    assert(views(g30@) =~= Seq::<GrammarView>::empty());
    let g31 = Grammar::sequence_with(g29, g30, ParseMode::Strict);
    let g32: Vec<Grammar> = vec![g11, g31];
    assert(views(g32@) =~~= seq![GrammarView::Sequence { elements: seq![GrammarView::Keyword { word: "GENERATED"@ }, GrammarView::Keyword { word: "ALWAYS"@ }, GrammarView::Keyword { word: "AS"@ }, GrammarView::Bracketed { elements: seq![GrammarView::OneOf { elements: seq![GrammarView::Ref { name: "FunctionSegment"@, optional: false }, GrammarView::Ref { name: "BareFunctionSegment"@, optional: false }], terminators: seq![] }], bracket_type: "round"@ }], terminators: seq![], parse_mode: ParseMode::Strict }, GrammarView::Sequence { elements: seq![GrammarView::Keyword { word: "GENERATED"@ }, GrammarView::OneOf { elements: seq![GrammarView::Keyword { word: "ALWAYS"@ }, GrammarView::Sequence { elements: seq![GrammarView::Keyword { word: "BY"@ }, GrammarView::Keyword { word: "DEFAULT"@ }], terminators: seq![], parse_mode: ParseMode::Strict }], terminators: seq![] }, GrammarView::Keyword { word: "AS"@ }, GrammarView::Keyword { word: "IDENTITY"@ }, GrammarView::Optional { grammar: Box::new(GrammarView::Bracketed { elements: seq![GrammarView::Optional { grammar: Box::new(GrammarView::Sequence { elements: seq![GrammarView::Keyword { word: "START"@ }, GrammarView::Keyword { word: "WITH"@ }, GrammarView::Ref { name: "NumericLiteralSegment"@, optional: false }], terminators: seq![], parse_mode: ParseMode::Strict }) }, GrammarView::Optional { grammar: Box::new(GrammarView::Sequence { elements: seq![GrammarView::Keyword { word: "INCREMENT"@ }, GrammarView::Keyword { word: "BY"@ }, GrammarView::Ref { name: "NumericLiteralSegment"@, optional: false }], terminators: seq![], parse_mode: ParseMode::Strict }) }], bracket_type: "round"@ }) }], terminators: seq![], parse_mode: ParseMode::Strict }]);
    let g33: Vec<Grammar> = Vec::new();
    assert(views(g33@) =~= Seq::<GrammarView>::empty());
    let g34 = Grammar::one_of_with(g32, g33);
    let g35: Vec<Grammar> = vec![Grammar::optional_reference("ColumnConstraintSegment")];
    assert(views(g35@) =~~= seq![GrammarView::Ref { name: "ColumnConstraintSegment"@, optional: true }]);
    let g36: Vec<Grammar> = Vec::new();
    assert(views(g36@) =~= Seq::<GrammarView>::empty());
    let g37 = Grammar::any_number_of_with(g35, g36, 0, None);
    let g38: Vec<Grammar> = vec![Grammar::reference("SingleIdentifierGrammar"), Grammar::reference("DatatypeSegment"), g3, g34, g37];
    assert(views(g38@) =~~= seq![GrammarView::Ref { name: "SingleIdentifierGrammar"@, optional: false }, GrammarView::Ref { name: "DatatypeSegment"@, optional: false }, GrammarView::Optional { grammar: Box::new(GrammarView::Bracketed { elements: seq![GrammarView::Anything], bracket_type: "round"@ }) }, GrammarView::OneOf { elements: seq![GrammarView::Sequence { elements: seq![GrammarView::Keyword { word: "GENERATED"@ }, GrammarView::Keyword { word: "ALWAYS"@ }, GrammarView::Keyword { word: "AS"@ }, GrammarView::Bracketed { elements: seq![GrammarView::OneOf { elements: seq![GrammarView::Ref { name: "FunctionSegment"@, optional: false }, GrammarView::Ref { name: "BareFunctionSegment"@, optional: false }], terminators: seq![] }], bracket_type: "round"@ }], terminators: seq![], parse_mode: ParseMode::Strict }, GrammarView::Sequence { elements: seq![GrammarView::Keyword { word: "GENERATED"@ }, GrammarView::OneOf { elements: seq![GrammarView::Keyword { word: "ALWAYS"@ }, GrammarView::Sequence { elements: seq![GrammarView::Keyword { word: "BY"@ }, GrammarView::Keyword { word: "DEFAULT"@ }], terminators: seq![], parse_mode: ParseMode::Strict }], terminators: seq![] }, GrammarView::Keyword { word: "AS"@ }, GrammarView::Keyword { word: "IDENTITY"@ }, GrammarView::Optional { grammar: Box::new(GrammarView::Bracketed { elements: seq![GrammarView::Optional { grammar: Box::new(GrammarView::Sequence { elements: seq![GrammarView::Keyword { word: "START"@ }, GrammarView::Keyword { word: "WITH"@ }, GrammarView::Ref { name: "NumericLiteralSegment"@, optional: false }], terminators: seq![], parse_mode: ParseMode::Strict }) }, GrammarView::Optional { grammar: Box::new(GrammarView::Sequence { elements: seq![GrammarView::Keyword { word: "INCREMENT"@ }, GrammarView::Keyword { word: "BY"@ }, GrammarView::Ref { name: "NumericLiteralSegment"@, optional: false }], terminators: seq![], parse_mode: ParseMode::Strict }) }], bracket_type: "round"@ }) }], terminators: seq![], parse_mode: ParseMode::Strict }], terminators: seq![] }, GrammarView::AnyNumberOf { elements: seq![GrammarView::Ref { name: "ColumnConstraintSegment"@, optional: true }], terminators: seq![], min_times: 0, max_times: None }]);
    let g39: Vec<Grammar> = Vec::new();
    assert(views(g39@) =~= Seq::<GrammarView>::empty());
    let g40 = Grammar::sequence_with(g38, g39, ParseMode::Strict);
    g40
}

/// The Databricks grammar of `FunctionContentsExpressionGrammar`.
pub open spec fn function_contents_expression_grammar_grammar() -> GrammarView {
    GrammarView::OneOf { elements: seq![GrammarView::Ref { name: "ExpressionSegment"@, optional: false }, GrammarView::Ref { name: "NamedArgumentSegment"@, optional: false }], terminators: seq![] }
}

fn build_function_contents_expression_grammar() -> (g: Grammar)
    ensures
        g@ =~~= function_contents_expression_grammar_grammar(),
{
    let g1: Vec<Grammar> = vec![Grammar::reference("ExpressionSegment"), Grammar::reference("NamedArgumentSegment")];
    assert(views(g1@) =~~= seq![GrammarView::Ref { name: "ExpressionSegment"@, optional: false }, GrammarView::Ref { name: "NamedArgumentSegment"@, optional: false }]);
    let g2: Vec<Grammar> = Vec::new();
    assert(views(g2@) =~= Seq::<GrammarView>::empty());
    let g3 = Grammar::one_of_with(g1, g2);
    g3
}

/// The Databricks grammar of `PropertiesNakedIdentifierSegment`.
pub open spec fn properties_naked_identifier_segment_grammar() -> GrammarView {
    GrammarView::RegexParser { pattern: "[A-Z_][A-Z0-9_]*"@, kind: "properties_naked_identifier"@, anti_template: None }
}

fn build_properties_naked_identifier_segment() -> (g: Grammar)
    ensures
        g@ =~~= properties_naked_identifier_segment_grammar(),
{
    Grammar::regex_parser("[A-Z_][A-Z0-9_]*", "properties_naked_identifier")
}

/// The Databricks grammar of `PropertyNameSegment`.
pub open spec fn property_name_segment_grammar() -> GrammarView {
    GrammarView::Sequence { elements: seq![GrammarView::OneOf { elements: seq![GrammarView::Delimited { elements: seq![GrammarView::OneOf { elements: seq![GrammarView::Ref { name: "PropertiesNakedIdentifierSegment"@, optional: false }, GrammarView::Ref { name: "PropertiesBackTickedIdentifierSegment"@, optional: false }], terminators: seq![] }], allow_trailing: false, delimiter: Some(Box::new(GrammarView::Ref { name: "DotSegment"@, optional: false })), terminators: seq![], allow_gaps: false }, GrammarView::Ref { name: "SingleIdentifierGrammar"@, optional: false }], terminators: seq![] }], terminators: seq![], parse_mode: ParseMode::Strict }
}

fn build_property_name_segment() -> (g: Grammar)
    ensures
        g@ =~~= property_name_segment_grammar(),
{
    let g1: Vec<Grammar> = vec![Grammar::reference("PropertiesNakedIdentifierSegment"), Grammar::reference("PropertiesBackTickedIdentifierSegment")];
    assert(views(g1@) =~~= seq![GrammarView::Ref { name: "PropertiesNakedIdentifierSegment"@, optional: false }, GrammarView::Ref { name: "PropertiesBackTickedIdentifierSegment"@, optional: false }]);
    let g2: Vec<Grammar> = Vec::new();
    assert(views(g2@) =~= Seq::<GrammarView>::empty());
    let g3 = Grammar::one_of_with(g1, g2);
    let g4: Vec<Grammar> = vec![g3];
    assert(views(g4@) =~~= seq![GrammarView::OneOf { elements: seq![GrammarView::Ref { name: "PropertiesNakedIdentifierSegment"@, optional: false }, GrammarView::Ref { name: "PropertiesBackTickedIdentifierSegment"@, optional: false }], terminators: seq![] }]);
    let g5: Vec<Grammar> = Vec::new();
    assert(views(g5@) =~= Seq::<GrammarView>::empty());
    let g6 = Grammar::delimited_with(g4, false, Some(Grammar::reference("DotSegment")), g5, false);
    let g7: Vec<Grammar> = vec![g6, Grammar::reference("SingleIdentifierGrammar")];
    assert(views(g7@) =~~= seq![GrammarView::Delimited { elements: seq![GrammarView::OneOf { elements: seq![GrammarView::Ref { name: "PropertiesNakedIdentifierSegment"@, optional: false }, GrammarView::Ref { name: "PropertiesBackTickedIdentifierSegment"@, optional: false }], terminators: seq![] }], allow_trailing: false, delimiter: Some(Box::new(GrammarView::Ref { name: "DotSegment"@, optional: false })), terminators: seq![], allow_gaps: false }, GrammarView::Ref { name: "SingleIdentifierGrammar"@, optional: false }]);
    let g8: Vec<Grammar> = Vec::new();
    assert(views(g8@) =~= Seq::<GrammarView>::empty());
    let g9 = Grammar::one_of_with(g7, g8);
    let g10: Vec<Grammar> = vec![g9];
    assert(views(g10@) =~~= seq![GrammarView::OneOf { elements: seq![GrammarView::Delimited { elements: seq![GrammarView::OneOf { elements: seq![GrammarView::Ref { name: "PropertiesNakedIdentifierSegment"@, optional: false }, GrammarView::Ref { name: "PropertiesBackTickedIdentifierSegment"@, optional: false }], terminators: seq![] }], allow_trailing: false, delimiter: Some(Box::new(GrammarView::Ref { name: "DotSegment"@, optional: false })), terminators: seq![], allow_gaps: false }, GrammarView::Ref { name: "SingleIdentifierGrammar"@, optional: false }], terminators: seq![] }]);
    let g11: Vec<Grammar> = Vec::new();
    assert(views(g11@) =~= Seq::<GrammarView>::empty());
    let g12 = Grammar::sequence_with(g10, g11, ParseMode::Strict);
    g12
}

/// The Databricks grammar of `TableConstraintSegment`.
pub open spec fn table_constraint_segment_grammar() -> GrammarView {
    GrammarView::Sequence { elements: seq![GrammarView::Keyword { word: "CONSTRAINT"@ }, GrammarView::OneOf { elements: seq![GrammarView::Sequence { elements: seq![GrammarView::Ref { name: "ObjectReferenceSegment"@, optional: true }, GrammarView::Ref { name: "PrimaryKeyGrammar"@, optional: false }, GrammarView::Bracketed { elements: seq![GrammarView::Delimited { elements: seq![GrammarView::Ref { name: "ColumnReferenceSegment"@, optional: false }, GrammarView::Optional { grammar: Box::new(GrammarView::Keyword { word: "TIMESERIES"@ }) }], allow_trailing: false, delimiter: None, terminators: seq![], allow_gaps: true }], bracket_type: "round"@ }, GrammarView::Ref { name: "ConstraintOptionGrammar"@, optional: true }], terminators: seq![], parse_mode: ParseMode::Strict }, GrammarView::Sequence { elements: seq![GrammarView::Ref { name: "ObjectReferenceSegment"@, optional: true }, GrammarView::Indent, GrammarView::Ref { name: "ForeignKeyGrammar"@, optional: false }, GrammarView::Bracketed { elements: seq![GrammarView::Delimited { elements: seq![GrammarView::Ref { name: "ColumnReferenceSegment"@, optional: false }], allow_trailing: false, delimiter: None, terminators: seq![], allow_gaps: true }], bracket_type: "round"@ }, GrammarView::Keyword { word: "REFERENCES"@ }, GrammarView::Ref { name: "TableReferenceSegment"@, optional: false }, GrammarView::Ref { name: "BracketedColumnReferenceListGrammar"@, optional: true }, GrammarView::Optional { grammar: Box::new(GrammarView::OneOf { elements: seq![GrammarView::Ref { name: "ForeignKeyOptionGrammar"@, optional: false }, GrammarView::Ref { name: "ConstraintOptionGrammar"@, optional: false }], terminators: seq![] }) }, GrammarView::Dedent], terminators: seq![], parse_mode: ParseMode::Strict }, GrammarView::Sequence { elements: seq![GrammarView::Ref { name: "ObjectReferenceSegment"@, optional: false }, GrammarView::Keyword { word: "CHECK"@ }, GrammarView::Bracketed { elements: seq![GrammarView::Ref { name: "ExpressionSegment"@, optional: false }], bracket_type: "round"@ }, GrammarView::Optional { grammar: Box::new(GrammarView::Keyword { word: "ENFORCED"@ }) }], terminators: seq![], parse_mode: ParseMode::Strict }], terminators: seq![] }], terminators: seq![], parse_mode: ParseMode::Strict }
}

fn build_table_constraint_segment() -> (g: Grammar)
    ensures
        g@ =~~= table_constraint_segment_grammar(),
{
    let g1 = Grammar::keyword("TIMESERIES").optional();
    let g2: Vec<Grammar> = vec![Grammar::reference("ColumnReferenceSegment"), g1];
    assert(views(g2@) =~~= seq![GrammarView::Ref { name: "ColumnReferenceSegment"@, optional: false }, GrammarView::Optional { grammar: Box::new(GrammarView::Keyword { word: "TIMESERIES"@ }) }]);
    let g3: Vec<Grammar> = Vec::new();
    assert(views(g3@) =~= Seq::<GrammarView>::empty());
    let g4 = Grammar::delimited_with(g2, false, None, g3, true);
    let g5: Vec<Grammar> = vec![g4];
    assert(views(g5@) =~~= seq![GrammarView::Delimited { elements: seq![GrammarView::Ref { name: "ColumnReferenceSegment"@, optional: false }, GrammarView::Optional { grammar: Box::new(GrammarView::Keyword { word: "TIMESERIES"@ }) }], allow_trailing: false, delimiter: None, terminators: seq![], allow_gaps: true }]);
    let g6 = Grammar::bracketed_with(g5, "round");
    let g7: Vec<Grammar> = vec![Grammar::optional_reference("ObjectReferenceSegment"), Grammar::reference("PrimaryKeyGrammar"), g6, Grammar::optional_reference("ConstraintOptionGrammar")];
    assert(views(g7@) =~~= seq![GrammarView::Ref { name: "ObjectReferenceSegment"@, optional: true }, GrammarView::Ref { name: "PrimaryKeyGrammar"@, optional: false }, GrammarView::Bracketed { elements: seq![GrammarView::Delimited { elements: seq![GrammarView::Ref { name: "ColumnReferenceSegment"@, optional: false }, GrammarView::Optional { grammar: Box::new(GrammarView::Keyword { word: "TIMESERIES"@ }) }], allow_trailing: false, delimiter: None, terminators: seq![], allow_gaps: true }], bracket_type: "round"@ }, GrammarView::Ref { name: "ConstraintOptionGrammar"@, optional: true }]);
    let g8: Vec<Grammar> = Vec::new();
    assert(views(g8@) =~= Seq::<GrammarView>::empty());
    let g9 = Grammar::sequence_with(g7, g8, ParseMode::Strict);
    let g10: Vec<Grammar> = vec![Grammar::reference("ColumnReferenceSegment")];
    assert(views(g10@) =~~= seq![GrammarView::Ref { name: "ColumnReferenceSegment"@, optional: false }]);
    let g11: Vec<Grammar> = Vec::new();
    assert(views(g11@) =~= Seq::<GrammarView>::empty());
    let g12 = Grammar::delimited_with(g10, false, None, g11, true);
    let g13: Vec<Grammar> = vec![g12];
    assert(views(g13@) =~~= seq![GrammarView::Delimited { elements: seq![GrammarView::Ref { name: "ColumnReferenceSegment"@, optional: false }], allow_trailing: false, delimiter: None, terminators: seq![], allow_gaps: true }]);
    let g14 = Grammar::bracketed_with(g13, "round");
    let g15: Vec<Grammar> = vec![Grammar::reference("ForeignKeyOptionGrammar"), Grammar::reference("ConstraintOptionGrammar")];
    assert(views(g15@) =~~= seq![GrammarView::Ref { name: "ForeignKeyOptionGrammar"@, optional: false }, GrammarView::Ref { name: "ConstraintOptionGrammar"@, optional: false }]);
    let g16: Vec<Grammar> = Vec::new();
    assert(views(g16@) =~= Seq::<GrammarView>::empty());
    let g17 = Grammar::one_of_with(g15, g16);
    let g18 = g17.optional();
    let g19: Vec<Grammar> = vec![Grammar::optional_reference("ObjectReferenceSegment"), Grammar::indent(), Grammar::reference("ForeignKeyGrammar"), g14, Grammar::keyword("REFERENCES"), Grammar::reference("TableReferenceSegment"), Grammar::optional_reference("BracketedColumnReferenceListGrammar"), g18, Grammar::dedent()];
    assert(views(g19@) =~~= seq![GrammarView::Ref { name: "ObjectReferenceSegment"@, optional: true }, GrammarView::Indent, GrammarView::Ref { name: "ForeignKeyGrammar"@, optional: false }, GrammarView::Bracketed { elements: seq![GrammarView::Delimited { elements: seq![GrammarView::Ref { name: "ColumnReferenceSegment"@, optional: false }], allow_trailing: false, delimiter: None, terminators: seq![], allow_gaps: true }], bracket_type: "round"@ }, GrammarView::Keyword { word: "REFERENCES"@ }, GrammarView::Ref { name: "TableReferenceSegment"@, optional: false }, GrammarView::Ref { name: "BracketedColumnReferenceListGrammar"@, optional: true }, GrammarView::Optional { grammar: Box::new(GrammarView::OneOf { elements: seq![GrammarView::Ref { name: "ForeignKeyOptionGrammar"@, optional: false }, GrammarView::Ref { name: "ConstraintOptionGrammar"@, optional: false }], terminators: seq![] }) }, GrammarView::Dedent]);
    let g20: Vec<Grammar> = Vec::new();
    assert(views(g20@) =~= Seq::<GrammarView>::empty());
    let g21 = Grammar::sequence_with(g19, g20, ParseMode::Strict);
    let g22: Vec<Grammar> = vec![Grammar::reference("ExpressionSegment")];
    assert(views(g22@) =~~= seq![GrammarView::Ref { name: "ExpressionSegment"@, optional: false }]);
    let g23 = Grammar::bracketed_with(g22, "round");
    let g24 = Grammar::keyword("ENFORCED").optional();
    let g25: Vec<Grammar> = vec![Grammar::reference("ObjectReferenceSegment"), Grammar::keyword("CHECK"), g23, g24];
    assert(views(g25@) =~~= seq![GrammarView::Ref { name: "ObjectReferenceSegment"@, optional: false }, GrammarView::Keyword { word: "CHECK"@ }, GrammarView::Bracketed { elements: seq![GrammarView::Ref { name: "ExpressionSegment"@, optional: false }], bracket_type: "round"@ }, GrammarView::Optional { grammar: Box::new(GrammarView::Keyword { word: "ENFORCED"@ }) }]);
    let g26: Vec<Grammar> = Vec::new();
    assert(views(g26@) =~= Seq::<GrammarView>::empty());
    let g27 = Grammar::sequence_with(g25, g26, ParseMode::Strict);
    let g28: Vec<Grammar> = vec![g9, g21, g27];
    assert(views(g28@) =~~= seq![GrammarView::Sequence { elements: seq![GrammarView::Ref { name: "ObjectReferenceSegment"@, optional: true }, GrammarView::Ref { name: "PrimaryKeyGrammar"@, optional: false }, GrammarView::Bracketed { elements: seq![GrammarView::Delimited { elements: seq![GrammarView::Ref { name: "ColumnReferenceSegment"@, optional: false }, GrammarView::Optional { grammar: Box::new(GrammarView::Keyword { word: "TIMESERIES"@ }) }], allow_trailing: false, delimiter: None, terminators: seq![], allow_gaps: true }], bracket_type: "round"@ }, GrammarView::Ref { name: "ConstraintOptionGrammar"@, optional: true }], terminators: seq![], parse_mode: ParseMode::Strict }, GrammarView::Sequence { elements: seq![GrammarView::Ref { name: "ObjectReferenceSegment"@, optional: true }, GrammarView::Indent, GrammarView::Ref { name: "ForeignKeyGrammar"@, optional: false }, GrammarView::Bracketed { elements: seq![GrammarView::Delimited { elements: seq![GrammarView::Ref { name: "ColumnReferenceSegment"@, optional: false }], allow_trailing: false, delimiter: None, terminators: seq![], allow_gaps: true }], bracket_type: "round"@ }, GrammarView::Keyword { word: "REFERENCES"@ }, GrammarView::Ref { name: "TableReferenceSegment"@, optional: false }, GrammarView::Ref { name: "BracketedColumnReferenceListGrammar"@, optional: true }, GrammarView::Optional { grammar: Box::new(GrammarView::OneOf { elements: seq![GrammarView::Ref { name: "ForeignKeyOptionGrammar"@, optional: false }, GrammarView::Ref { name: "ConstraintOptionGrammar"@, optional: false }], terminators: seq![] }) }, GrammarView::Dedent], terminators: seq![], parse_mode: ParseMode::Strict }, GrammarView::Sequence { elements: seq![GrammarView::Ref { name: "ObjectReferenceSegment"@, optional: false }, GrammarView::Keyword { word: "CHECK"@ }, GrammarView::Bracketed { elements: seq![GrammarView::Ref { name: "ExpressionSegment"@, optional: false }], bracket_type: "round"@ }, GrammarView::Optional { grammar: Box::new(GrammarView::Keyword { word: "ENFORCED"@ }) }], terminators: seq![], parse_mode: ParseMode::Strict }]);
    let g29: Vec<Grammar> = Vec::new();
    assert(views(g29@) =~= Seq::<GrammarView>::empty());
    let g30 = Grammar::one_of_with(g28, g29);
    let g31: Vec<Grammar> = vec![Grammar::keyword("CONSTRAINT"), g30];
    assert(views(g31@) =~~= seq![GrammarView::Keyword { word: "CONSTRAINT"@ }, GrammarView::OneOf { elements: seq![GrammarView::Sequence { elements: seq![GrammarView::Ref { name: "ObjectReferenceSegment"@, optional: true }, GrammarView::Ref { name: "PrimaryKeyGrammar"@, optional: false }, GrammarView::Bracketed { elements: seq![GrammarView::Delimited { elements: seq![GrammarView::Ref { name: "ColumnReferenceSegment"@, optional: false }, GrammarView::Optional { grammar: Box::new(GrammarView::Keyword { word: "TIMESERIES"@ }) }], allow_trailing: false, delimiter: None, terminators: seq![], allow_gaps: true }], bracket_type: "round"@ }, GrammarView::Ref { name: "ConstraintOptionGrammar"@, optional: true }], terminators: seq![], parse_mode: ParseMode::Strict }, GrammarView::Sequence { elements: seq![GrammarView::Ref { name: "ObjectReferenceSegment"@, optional: true }, GrammarView::Indent, GrammarView::Ref { name: "ForeignKeyGrammar"@, optional: false }, GrammarView::Bracketed { elements: seq![GrammarView::Delimited { elements: seq![GrammarView::Ref { name: "ColumnReferenceSegment"@, optional: false }], allow_trailing: false, delimiter: None, terminators: seq![], allow_gaps: true }], bracket_type: "round"@ }, GrammarView::Keyword { word: "REFERENCES"@ }, GrammarView::Ref { name: "TableReferenceSegment"@, optional: false }, GrammarView::Ref { name: "BracketedColumnReferenceListGrammar"@, optional: true }, GrammarView::Optional { grammar: Box::new(GrammarView::OneOf { elements: seq![GrammarView::Ref { name: "ForeignKeyOptionGrammar"@, optional: false }, GrammarView::Ref { name: "ConstraintOptionGrammar"@, optional: false }], terminators: seq![] }) }, GrammarView::Dedent], terminators: seq![], parse_mode: ParseMode::Strict }, GrammarView::Sequence { elements: seq![GrammarView::Ref { name: "ObjectReferenceSegment"@, optional: false }, GrammarView::Keyword { word: "CHECK"@ }, GrammarView::Bracketed { elements: seq![GrammarView::Ref { name: "ExpressionSegment"@, optional: false }], bracket_type: "round"@ }, GrammarView::Optional { grammar: Box::new(GrammarView::Keyword { word: "ENFORCED"@ }) }], terminators: seq![], parse_mode: ParseMode::Strict }], terminators: seq![] }]);
    let g32: Vec<Grammar> = Vec::new();
    assert(views(g32@) =~= Seq::<GrammarView>::empty());
    let g33 = Grammar::sequence_with(g31, g32, ParseMode::Strict);
    g33
}

/// The Databricks grammar of `AlterDatabaseStatementSegment`.
pub open spec fn alter_database_statement_segment_grammar() -> GrammarView {
    GrammarView::Sequence { elements: seq![GrammarView::Keyword { word: "ALTER"@ }, GrammarView::OneOf { elements: seq![GrammarView::Keyword { word: "DATABASE"@ }, GrammarView::Keyword { word: "SCHEMA"@ }], terminators: seq![] }, GrammarView::Ref { name: "DatabaseReferenceSegment"@, optional: false }, GrammarView::OneOf { elements: seq![GrammarView::Sequence { elements: seq![GrammarView::Keyword { word: "SET"@ }, GrammarView::Ref { name: "DatabasePropertiesGrammar"@, optional: false }], terminators: seq![], parse_mode: ParseMode::Strict }, GrammarView::Ref { name: "SetOwnerGrammar"@, optional: false }, GrammarView::Ref { name: "SetTagsGrammar"@, optional: false }, GrammarView::Ref { name: "UnsetTagsGrammar"@, optional: false }, GrammarView::Ref { name: "PredictiveOptimizationGrammar"@, optional: false }], terminators: seq![] }], terminators: seq![], parse_mode: ParseMode::Strict }
}

fn build_alter_database_statement_segment() -> (g: Grammar)
    ensures
        g@ =~~= alter_database_statement_segment_grammar(),
{
    let g1: Vec<Grammar> = vec![Grammar::keyword("DATABASE"), Grammar::keyword("SCHEMA")];
    assert(views(g1@) =~~= seq![GrammarView::Keyword { word: "DATABASE"@ }, GrammarView::Keyword { word: "SCHEMA"@ }]);
    let g2: Vec<Grammar> = Vec::new();
    assert(views(g2@) =~= Seq::<GrammarView>::empty());
    let g3 = Grammar::one_of_with(g1, g2);
    let g4: Vec<Grammar> = vec![Grammar::keyword("SET"), Grammar::reference("DatabasePropertiesGrammar")];
    assert(views(g4@) =~~= seq![GrammarView::Keyword { word: "SET"@ }, GrammarView::Ref { name: "DatabasePropertiesGrammar"@, optional: false }]);
    let g5: Vec<Grammar> = Vec::new();
    assert(views(g5@) =~= Seq::<GrammarView>::empty());
    let g6 = Grammar::sequence_with(g4, g5, ParseMode::Strict);
    let g7: Vec<Grammar> = vec![g6, Grammar::reference("SetOwnerGrammar"), Grammar::reference("SetTagsGrammar"), Grammar::reference("UnsetTagsGrammar"), Grammar::reference("PredictiveOptimizationGrammar")];
    assert(views(g7@) =~~= seq![GrammarView::Sequence { elements: seq![GrammarView::Keyword { word: "SET"@ }, GrammarView::Ref { name: "DatabasePropertiesGrammar"@, optional: false }], terminators: seq![], parse_mode: ParseMode::Strict }, GrammarView::Ref { name: "SetOwnerGrammar"@, optional: false }, GrammarView::Ref { name: "SetTagsGrammar"@, optional: false }, GrammarView::Ref { name: "UnsetTagsGrammar"@, optional: false }, GrammarView::Ref { name: "PredictiveOptimizationGrammar"@, optional: false }]);
    let g8: Vec<Grammar> = Vec::new();
    assert(views(g8@) =~= Seq::<GrammarView>::empty());
    let g9 = Grammar::one_of_with(g7, g8);
    let g10: Vec<Grammar> = vec![Grammar::keyword("ALTER"), g3, Grammar::reference("DatabaseReferenceSegment"), g9];
    assert(views(g10@) =~~= seq![GrammarView::Keyword { word: "ALTER"@ }, GrammarView::OneOf { elements: seq![GrammarView::Keyword { word: "DATABASE"@ }, GrammarView::Keyword { word: "SCHEMA"@ }], terminators: seq![] }, GrammarView::Ref { name: "DatabaseReferenceSegment"@, optional: false }, GrammarView::OneOf { elements: seq![GrammarView::Sequence { elements: seq![GrammarView::Keyword { word: "SET"@ }, GrammarView::Ref { name: "DatabasePropertiesGrammar"@, optional: false }], terminators: seq![], parse_mode: ParseMode::Strict }, GrammarView::Ref { name: "SetOwnerGrammar"@, optional: false }, GrammarView::Ref { name: "SetTagsGrammar"@, optional: false }, GrammarView::Ref { name: "UnsetTagsGrammar"@, optional: false }, GrammarView::Ref { name: "PredictiveOptimizationGrammar"@, optional: false }], terminators: seq![] }]);
    let g11: Vec<Grammar> = Vec::new();
    assert(views(g11@) =~= Seq::<GrammarView>::empty());
    let g12 = Grammar::sequence_with(g10, g11, ParseMode::Strict);
    g12
}

/// The Databricks grammar of `CreateDatabaseStatementSegment`.
pub open spec fn create_database_statement_segment_grammar() -> GrammarView {
    GrammarView::Sequence { elements: seq![GrammarView::Keyword { word: "CREATE"@ }, GrammarView::OneOf { elements: seq![GrammarView::Keyword { word: "DATABASE"@ }, GrammarView::Keyword { word: "SCHEMA"@ }], terminators: seq![] }, GrammarView::Ref { name: "IfNotExistsGrammar"@, optional: true }, GrammarView::Ref { name: "DatabaseReferenceSegment"@, optional: false }, GrammarView::Ref { name: "CommentGrammar"@, optional: true }, GrammarView::Optional { grammar: Box::new(GrammarView::Sequence { elements: seq![GrammarView::Optional { grammar: Box::new(GrammarView::Keyword { word: "MANAGED"@ }) }, GrammarView::Keyword { word: "LOCATION"@ }, GrammarView::Ref { name: "QuotedLiteralSegment"@, optional: false }], terminators: seq![], parse_mode: ParseMode::Strict }) }, GrammarView::Optional { grammar: Box::new(GrammarView::Sequence { elements: seq![GrammarView::Keyword { word: "WITH"@ }, GrammarView::Keyword { word: "DBPROPERTIES"@ }, GrammarView::Ref { name: "BracketedPropertyListGrammar"@, optional: false }], terminators: seq![], parse_mode: ParseMode::Strict }) }], terminators: seq![], parse_mode: ParseMode::Strict }
}

fn build_create_database_statement_segment() -> (g: Grammar)
    ensures
        g@ =~~= create_database_statement_segment_grammar(),
{
    let g1: Vec<Grammar> = vec![Grammar::keyword("DATABASE"), Grammar::keyword("SCHEMA")];
    assert(views(g1@) =~~= seq![GrammarView::Keyword { word: "DATABASE"@ }, GrammarView::Keyword { word: "SCHEMA"@ }]);
    let g2: Vec<Grammar> = Vec::new();
    assert(views(g2@) =~= Seq::<GrammarView>::empty());
    let g3 = Grammar::one_of_with(g1, g2);
    let g4 = Grammar::keyword("MANAGED").optional();
    let g5: Vec<Grammar> = vec![g4, Grammar::keyword("LOCATION"), Grammar::reference("QuotedLiteralSegment")];
    assert(views(g5@) =~~= seq![GrammarView::Optional { grammar: Box::new(GrammarView::Keyword { word: "MANAGED"@ }) }, GrammarView::Keyword { word: "LOCATION"@ }, GrammarView::Ref { name: "QuotedLiteralSegment"@, optional: false }]);
    let g6: Vec<Grammar> = Vec::new();
    assert(views(g6@) =~= Seq::<GrammarView>::empty());
    let g7 = Grammar::sequence_with(g5, g6, ParseMode::Strict);
    let g8 = g7.optional();
    let g9: Vec<Grammar> = vec![Grammar::keyword("WITH"), Grammar::keyword("DBPROPERTIES"), Grammar::reference("BracketedPropertyListGrammar")];
    assert(views(g9@) =~~= seq![GrammarView::Keyword { word: "WITH"@ }, GrammarView::Keyword { word: "DBPROPERTIES"@ }, GrammarView::Ref { name: "BracketedPropertyListGrammar"@, optional: false }]);
    let g10: Vec<Grammar> = Vec::new();
    assert(views(g10@) =~= Seq::<GrammarView>::empty());
    let g11 = Grammar::sequence_with(g9, g10, ParseMode::Strict);
    let g12 = g11.optional();
    let g13: Vec<Grammar> = vec![Grammar::keyword("CREATE"), g3, Grammar::optional_reference("IfNotExistsGrammar"), Grammar::reference("DatabaseReferenceSegment"), Grammar::optional_reference("CommentGrammar"), g8, g12];
    assert(views(g13@) =~~= seq![GrammarView::Keyword { word: "CREATE"@ }, GrammarView::OneOf { elements: seq![GrammarView::Keyword { word: "DATABASE"@ }, GrammarView::Keyword { word: "SCHEMA"@ }], terminators: seq![] }, GrammarView::Ref { name: "IfNotExistsGrammar"@, optional: true }, GrammarView::Ref { name: "DatabaseReferenceSegment"@, optional: false }, GrammarView::Ref { name: "CommentGrammar"@, optional: true }, GrammarView::Optional { grammar: Box::new(GrammarView::Sequence { elements: seq![GrammarView::Optional { grammar: Box::new(GrammarView::Keyword { word: "MANAGED"@ }) }, GrammarView::Keyword { word: "LOCATION"@ }, GrammarView::Ref { name: "QuotedLiteralSegment"@, optional: false }], terminators: seq![], parse_mode: ParseMode::Strict }) }, GrammarView::Optional { grammar: Box::new(GrammarView::Sequence { elements: seq![GrammarView::Keyword { word: "WITH"@ }, GrammarView::Keyword { word: "DBPROPERTIES"@ }, GrammarView::Ref { name: "BracketedPropertyListGrammar"@, optional: false }], terminators: seq![], parse_mode: ParseMode::Strict }) }]);
    let g14: Vec<Grammar> = Vec::new();
    assert(views(g14@) =~= Seq::<GrammarView>::empty());
    let g15 = Grammar::sequence_with(g13, g14, ParseMode::Strict);
    g15
}

/// The Databricks grammar of `AlterTableStatementSegment`.
pub open spec fn alter_table_statement_segment_grammar() -> GrammarView {
    GrammarView::Sequence { elements: seq![GrammarView::Keyword { word: "ALTER"@ }, GrammarView::Keyword { word: "TABLE"@ }, GrammarView::Ref { name: "TableReferenceSegment"@, optional: false }, GrammarView::Indent, GrammarView::OneOf { elements: seq![GrammarView::Sequence { elements: seq![GrammarView::Keyword { word: "RENAME"@ }, GrammarView::Keyword { word: "TO"@ }, GrammarView::Ref { name: "TableReferenceSegment"@, optional: false }], terminators: seq![], parse_mode: ParseMode::Strict }, GrammarView::Sequence { elements: seq![GrammarView::Keyword { word: "ADD"@ }, GrammarView::OneOf { elements: seq![GrammarView::Keyword { word: "COLUMNS"@ }, GrammarView::Keyword { word: "COLUMN"@ }], terminators: seq![] }, GrammarView::Indent, GrammarView::Bracketed { elements: seq![GrammarView::Delimited { elements: seq![GrammarView::Sequence { elements: seq![GrammarView::Ref { name: "ColumnFieldDefinitionSegment"@, optional: false }, GrammarView::Ref { name: "ColumnDefaultGrammar"@, optional: true }, GrammarView::Ref { name: "CommentGrammar"@, optional: true }, GrammarView::Ref { name: "FirstOrAfterGrammar"@, optional: true }, GrammarView::Ref { name: "MaskStatementSegment"@, optional: true }], terminators: seq![], parse_mode: ParseMode::Strict }], allow_trailing: false, delimiter: None, terminators: seq![], allow_gaps: true }], bracket_type: "round"@ }, GrammarView::Dedent], terminators: seq![], parse_mode: ParseMode::Strict }, GrammarView::Sequence { elements: seq![GrammarView::OneOf { elements: seq![GrammarView::Keyword { word: "ALTER"@ }, GrammarView::Keyword { word: "CHANGE"@ }], terminators: seq![] }, GrammarView::Optional { grammar: Box::new(GrammarView::Keyword { word: "COLUMN"@ }) }, GrammarView::Ref { name: "ColumnReferenceSegment"@, optional: false }, GrammarView::OneOf { elements: seq![GrammarView::Ref { name: "CommentGrammar"@, optional: false }, GrammarView::Ref { name: "FirstOrAfterGrammar"@, optional: false }, GrammarView::Sequence { elements: seq![GrammarView::OneOf { elements: seq![GrammarView::Keyword { word: "SET"@ }, GrammarView::Keyword { word: "DROP"@ }], terminators: seq![] }, GrammarView::Keyword { word: "NOT"@ }, GrammarView::Keyword { word: "NULL"@ }], terminators: seq![], parse_mode: ParseMode::Strict }, GrammarView::Sequence { elements: seq![GrammarView::Keyword { word: "TYPE"@ }, GrammarView::Ref { name: "DatatypeSegment"@, optional: false }], terminators: seq![], parse_mode: ParseMode::Strict }, GrammarView::Sequence { elements: seq![GrammarView::Keyword { word: "SET"@ }, GrammarView::Ref { name: "ColumnDefaultGrammar"@, optional: false }], terminators: seq![], parse_mode: ParseMode::Strict }, GrammarView::Sequence { elements: seq![GrammarView::Keyword { word: "DROP"@ }, GrammarView::Keyword { word: "DEFAULT"@ }], terminators: seq![], parse_mode: ParseMode::Strict }, GrammarView::Sequence { elements: seq![GrammarView::Keyword { word: "SYNC"@ }, GrammarView::Keyword { word: "IDENTITY"@ }], terminators: seq![], parse_mode: ParseMode::Strict }, GrammarView::Sequence { elements: seq![GrammarView::Keyword { word: "SET"@ }, GrammarView::Ref { name: "MaskStatementSegment"@, optional: false }], terminators: seq![], parse_mode: ParseMode::Strict }, GrammarView::Sequence { elements: seq![GrammarView::Keyword { word: "DROP"@ }, GrammarView::Keyword { word: "MASK"@ }], terminators: seq![], parse_mode: ParseMode::Strict }, GrammarView::Ref { name: "SetTagsGrammar"@, optional: false }, GrammarView::Ref { name: "UnsetTagsGrammar"@, optional: false }], terminators: seq![] }], terminators: seq![], parse_mode: ParseMode::Strict }, GrammarView::Sequence { elements: seq![GrammarView::Keyword { word: "DROP"@ }, GrammarView::Optional { grammar: Box::new(GrammarView::OneOf { elements: seq![GrammarView::Keyword { word: "COLUMN"@ }, GrammarView::Keyword { word: "COLUMNS"@ }], terminators: seq![] }) }, GrammarView::Ref { name: "IfExistsGrammar"@, optional: true }, GrammarView::Bracketed { elements: seq![GrammarView::Delimited { elements: seq![GrammarView::Ref { name: "ColumnReferenceSegment"@, optional: false }], allow_trailing: false, delimiter: None, terminators: seq![], allow_gaps: true }], bracket_type: "round"@ }], terminators: seq![], parse_mode: ParseMode::Strict }, GrammarView::Sequence { elements: seq![GrammarView::Keyword { word: "RENAME"@ }, GrammarView::Keyword { word: "COLUMN"@ }, GrammarView::Ref { name: "ColumnReferenceSegment"@, optional: false }, GrammarView::Keyword { word: "TO"@ }, GrammarView::Ref { name: "ColumnReferenceSegment"@, optional: false }], terminators: seq![], parse_mode: ParseMode::Strict }, GrammarView::Sequence { elements: seq![GrammarView::Keyword { word: "ADD"@ }, GrammarView::Ref { name: "TableConstraintSegment"@, optional: false }], terminators: seq![], parse_mode: ParseMode::Strict }, GrammarView::Ref { name: "DropConstraintGrammar"@, optional: false }, GrammarView::Sequence { elements: seq![GrammarView::Keyword { word: "DROP"@ }, GrammarView::Keyword { word: "FEATURE"@ }, GrammarView::Ref { name: "ObjectReferenceSegment"@, optional: false }, GrammarView::Optional { grammar: Box::new(GrammarView::Sequence { elements: seq![GrammarView::Keyword { word: "TRUNCATE"@ }, GrammarView::Keyword { word: "HISTORY"@ }], terminators: seq![], parse_mode: ParseMode::Strict }) }], terminators: seq![], parse_mode: ParseMode::Strict }, GrammarView::Sequence { elements: seq![GrammarView::Keyword { word: "ADD"@ }, GrammarView::Ref { name: "IfNotExistsGrammar"@, optional: true }, GrammarView::AnyNumberOf { elements: seq![GrammarView::Ref { name: "AlterPartitionGrammar"@, optional: false }], terminators: seq![], min_times: 0, max_times: None }], terminators: seq![], parse_mode: ParseMode::Strict }, GrammarView::Sequence { elements: seq![GrammarView::Keyword { word: "DROP"@ }, GrammarView::Ref { name: "IfExistsGrammar"@, optional: true }, GrammarView::AnyNumberOf { elements: seq![GrammarView::Ref { name: "AlterPartitionGrammar"@, optional: false }], terminators: seq![], min_times: 0, max_times: None }], terminators: seq![], parse_mode: ParseMode::Strict }, GrammarView::Sequence { elements: seq![GrammarView::Ref { name: "AlterPartitionGrammar"@, optional: false }, GrammarView::Keyword { word: "SET"@ }, GrammarView::Ref { name: "LocationGrammar"@, optional: false }], terminators: seq![], parse_mode: ParseMode::Strict }, GrammarView::Sequence { elements: seq![GrammarView::Ref { name: "AlterPartitionGrammar"@, optional: false }, GrammarView::Keyword { word: "RENAME"@ }, GrammarView::Keyword { word: "TO"@ }, GrammarView::Ref { name: "AlterPartitionGrammar"@, optional: false }], terminators: seq![], parse_mode: ParseMode::Strict }, GrammarView::Sequence { elements: seq![GrammarView::Keyword { word: "RECOVER"@ }, GrammarView::Keyword { word: "PARTITIONS"@ }], terminators: seq![], parse_mode: ParseMode::Strict }, GrammarView::Sequence { elements: seq![GrammarView::Keyword { word: "SET"@ }, GrammarView::Ref { name: "RowFilterClauseGrammar"@, optional: false }], terminators: seq![], parse_mode: ParseMode::Strict }, GrammarView::Sequence { elements: seq![GrammarView::Keyword { word: "DROP"@ }, GrammarView::Keyword { word: "ROW"@ }, GrammarView::Keyword { word: "FILTER"@ }], terminators: seq![], parse_mode: ParseMode::Strict }, GrammarView::Sequence { elements: seq![GrammarView::Keyword { word: "SET"@ }, GrammarView::Ref { name: "TablePropertiesGrammar"@, optional: false }], terminators: seq![], parse_mode: ParseMode::Strict }, GrammarView::Ref { name: "UnsetTablePropertiesGrammar"@, optional: false }, GrammarView::Sequence { elements: seq![GrammarView::Keyword { word: "SET"@ }, GrammarView::Keyword { word: "SERDE"@ }, GrammarView::Ref { name: "QuotedLiteralSegment"@, optional: false }, GrammarView::Optional { grammar: Box::new(GrammarView::Sequence { elements: seq![GrammarView::Keyword { word: "WITH"@ }, GrammarView::Keyword { word: "SERDEPROPERTIES"@ }, GrammarView::Ref { name: "BracketedPropertyListGrammar"@, optional: false }], terminators: seq![], parse_mode: ParseMode::Strict }) }], terminators: seq![], parse_mode: ParseMode::Strict }, GrammarView::Sequence { elements: seq![GrammarView::Keyword { word: "SET"@ }, GrammarView::Ref { name: "LocationGrammar"@, optional: false }], terminators: seq![], parse_mode: ParseMode::Strict }, GrammarView::Ref { name: "SetOwnerGrammar"@, optional: false }, GrammarView::Sequence { elements: seq![GrammarView::Optional { grammar: Box::new(GrammarView::Sequence { elements: seq![GrammarView::Keyword { word: "ALTER"@ }, GrammarView::Keyword { word: "COLUMN"@ }, GrammarView::Ref { name: "ColumnReferenceSegment"@, optional: false }], terminators: seq![], parse_mode: ParseMode::Strict }) }, GrammarView::Ref { name: "SetTagsGrammar"@, optional: false }], terminators: seq![], parse_mode: ParseMode::Strict }, GrammarView::Sequence { elements: seq![GrammarView::Optional { grammar: Box::new(GrammarView::Sequence { elements: seq![GrammarView::Keyword { word: "ALTER"@ }, GrammarView::Keyword { word: "COLUMN"@ }, GrammarView::Ref { name: "ColumnReferenceSegment"@, optional: false }], terminators: seq![], parse_mode: ParseMode::Strict }) }, GrammarView::Ref { name: "UnsetTagsGrammar"@, optional: false }], terminators: seq![], parse_mode: ParseMode::Strict }, GrammarView::Ref { name: "ClusterByClauseSegment"@, optional: false }, GrammarView::Ref { name: "PredictiveOptimizationGrammar"@, optional: false }], terminators: seq![] }, GrammarView::Dedent], terminators: seq![], parse_mode: ParseMode::Strict }
}

#[verifier::rlimit(100)]
fn build_alter_table_statement_segment() -> (g: Grammar)
    ensures
        g@ =~~= alter_table_statement_segment_grammar(),
{
    let g1: Vec<Grammar> = vec![Grammar::keyword("RENAME"), Grammar::keyword("TO"), Grammar::reference("TableReferenceSegment")];
    assert(views(g1@) =~~= seq![GrammarView::Keyword { word: "RENAME"@ }, GrammarView::Keyword { word: "TO"@ }, GrammarView::Ref { name: "TableReferenceSegment"@, optional: false }]);
    let g2: Vec<Grammar> = Vec::new();
    assert(views(g2@) =~= Seq::<GrammarView>::empty());
    let g3 = Grammar::sequence_with(g1, g2, ParseMode::Strict);
    let g4: Vec<Grammar> = vec![Grammar::keyword("COLUMNS"), Grammar::keyword("COLUMN")];
    assert(views(g4@) =~~= seq![GrammarView::Keyword { word: "COLUMNS"@ }, GrammarView::Keyword { word: "COLUMN"@ }]);
    let g5: Vec<Grammar> = Vec::new();
    assert(views(g5@) =~= Seq::<GrammarView>::empty());
    let g6 = Grammar::one_of_with(g4, g5);
    let g7: Vec<Grammar> = vec![Grammar::reference("ColumnFieldDefinitionSegment"), Grammar::optional_reference("ColumnDefaultGrammar"), Grammar::optional_reference("CommentGrammar"), Grammar::optional_reference("FirstOrAfterGrammar"), Grammar::optional_reference("MaskStatementSegment")];
    assert(views(g7@) =~~= seq![GrammarView::Ref { name: "ColumnFieldDefinitionSegment"@, optional: false }, GrammarView::Ref { name: "ColumnDefaultGrammar"@, optional: true }, GrammarView::Ref { name: "CommentGrammar"@, optional: true }, GrammarView::Ref { name: "FirstOrAfterGrammar"@, optional: true }, GrammarView::Ref { name: "MaskStatementSegment"@, optional: true }]);
    let g8: Vec<Grammar> = Vec::new();
    assert(views(g8@) =~= Seq::<GrammarView>::empty());
    let g9 = Grammar::sequence_with(g7, g8, ParseMode::Strict);
    let g10: Vec<Grammar> = vec![g9];
    assert(views(g10@) =~~= seq![GrammarView::Sequence { elements: seq![GrammarView::Ref { name: "ColumnFieldDefinitionSegment"@, optional: false }, GrammarView::Ref { name: "ColumnDefaultGrammar"@, optional: true }, GrammarView::Ref { name: "CommentGrammar"@, optional: true }, GrammarView::Ref { name: "FirstOrAfterGrammar"@, optional: true }, GrammarView::Ref { name: "MaskStatementSegment"@, optional: true }], terminators: seq![], parse_mode: ParseMode::Strict }]);
    let g11: Vec<Grammar> = Vec::new();
    assert(views(g11@) =~= Seq::<GrammarView>::empty());
    let g12 = Grammar::delimited_with(g10, false, None, g11, true);
    let g13: Vec<Grammar> = vec![g12];
    assert(views(g13@) =~~= seq![GrammarView::Delimited { elements: seq![GrammarView::Sequence { elements: seq![GrammarView::Ref { name: "ColumnFieldDefinitionSegment"@, optional: false }, GrammarView::Ref { name: "ColumnDefaultGrammar"@, optional: true }, GrammarView::Ref { name: "CommentGrammar"@, optional: true }, GrammarView::Ref { name: "FirstOrAfterGrammar"@, optional: true }, GrammarView::Ref { name: "MaskStatementSegment"@, optional: true }], terminators: seq![], parse_mode: ParseMode::Strict }], allow_trailing: false, delimiter: None, terminators: seq![], allow_gaps: true }]);
    let g14 = Grammar::bracketed_with(g13, "round");
    let g15: Vec<Grammar> = vec![Grammar::keyword("ADD"), g6, Grammar::indent(), g14, Grammar::dedent()];
    assert(views(g15@) =~~= seq![GrammarView::Keyword { word: "ADD"@ }, GrammarView::OneOf { elements: seq![GrammarView::Keyword { word: "COLUMNS"@ }, GrammarView::Keyword { word: "COLUMN"@ }], terminators: seq![] }, GrammarView::Indent, GrammarView::Bracketed { elements: seq![GrammarView::Delimited { elements: seq![GrammarView::Sequence { elements: seq![GrammarView::Ref { name: "ColumnFieldDefinitionSegment"@, optional: false }, GrammarView::Ref { name: "ColumnDefaultGrammar"@, optional: true }, GrammarView::Ref { name: "CommentGrammar"@, optional: true }, GrammarView::Ref { name: "FirstOrAfterGrammar"@, optional: true }, GrammarView::Ref { name: "MaskStatementSegment"@, optional: true }], terminators: seq![], parse_mode: ParseMode::Strict }], allow_trailing: false, delimiter: None, terminators: seq![], allow_gaps: true }], bracket_type: "round"@ }, GrammarView::Dedent]);
    let g16: Vec<Grammar> = Vec::new();
    assert(views(g16@) =~= Seq::<GrammarView>::empty());
    let g17 = Grammar::sequence_with(g15, g16, ParseMode::Strict);
    let g18: Vec<Grammar> = vec![Grammar::keyword("ALTER"), Grammar::keyword("CHANGE")];
    assert(views(g18@) =~~= seq![GrammarView::Keyword { word: "ALTER"@ }, GrammarView::Keyword { word: "CHANGE"@ }]);
    let g19: Vec<Grammar> = Vec::new();
    assert(views(g19@) =~= Seq::<GrammarView>::empty());
    let g20 = Grammar::one_of_with(g18, g19);
    let g21 = Grammar::keyword("COLUMN").optional();
    let g22: Vec<Grammar> = vec![Grammar::keyword("SET"), Grammar::keyword("DROP")];
    assert(views(g22@) =~~= seq![GrammarView::Keyword { word: "SET"@ }, GrammarView::Keyword { word: "DROP"@ }]);
    let g23: Vec<Grammar> = Vec::new();
    assert(views(g23@) =~= Seq::<GrammarView>::empty());
    let g24 = Grammar::one_of_with(g22, g23);
    let g25: Vec<Grammar> = vec![g24, Grammar::keyword("NOT"), Grammar::keyword("NULL")];
    assert(views(g25@) =~~= seq![GrammarView::OneOf { elements: seq![GrammarView::Keyword { word: "SET"@ }, GrammarView::Keyword { word: "DROP"@ }], terminators: seq![] }, GrammarView::Keyword { word: "NOT"@ }, GrammarView::Keyword { word: "NULL"@ }]);
    let g26: Vec<Grammar> = Vec::new();
    assert(views(g26@) =~= Seq::<GrammarView>::empty());
    let g27 = Grammar::sequence_with(g25, g26, ParseMode::Strict);
    let g28: Vec<Grammar> = vec![Grammar::keyword("TYPE"), Grammar::reference("DatatypeSegment")];
    assert(views(g28@) =~~= seq![GrammarView::Keyword { word: "TYPE"@ }, GrammarView::Ref { name: "DatatypeSegment"@, optional: false }]);
    let g29: Vec<Grammar> = Vec::new();
    assert(views(g29@) =~= Seq::<GrammarView>::empty());
    let g30 = Grammar::sequence_with(g28, g29, ParseMode::Strict);
    let g31: Vec<Grammar> = vec![Grammar::keyword("SET"), Grammar::reference("ColumnDefaultGrammar")];
    assert(views(g31@) =~~= seq![GrammarView::Keyword { word: "SET"@ }, GrammarView::Ref { name: "ColumnDefaultGrammar"@, optional: false }]);
    let g32: Vec<Grammar> = Vec::new();
    assert(views(g32@) =~= Seq::<GrammarView>::empty());
    let g33 = Grammar::sequence_with(g31, g32, ParseMode::Strict);
    let g34: Vec<Grammar> = vec![Grammar::keyword("DROP"), Grammar::keyword("DEFAULT")];
    assert(views(g34@) =~~= seq![GrammarView::Keyword { word: "DROP"@ }, GrammarView::Keyword { word: "DEFAULT"@ }]);
    let g35: Vec<Grammar> = Vec::new();
    assert(views(g35@) =~= Seq::<GrammarView>::empty());
    let g36 = Grammar::sequence_with(g34, g35, ParseMode::Strict);
    let g37: Vec<Grammar> = vec![Grammar::keyword("SYNC"), Grammar::keyword("IDENTITY")];
    assert(views(g37@) =~~= seq![GrammarView::Keyword { word: "SYNC"@ }, GrammarView::Keyword { word: "IDENTITY"@ }]);
    let g38: Vec<Grammar> = Vec::new();
    assert(views(g38@) =~= Seq::<GrammarView>::empty());
    let g39 = Grammar::sequence_with(g37, g38, ParseMode::Strict);
    let g40: Vec<Grammar> = vec![Grammar::keyword("SET"), Grammar::reference("MaskStatementSegment")];
    assert(views(g40@) =~~= seq![GrammarView::Keyword { word: "SET"@ }, GrammarView::Ref { name: "MaskStatementSegment"@, optional: false }]);
    let g41: Vec<Grammar> = Vec::new();
    assert(views(g41@) =~= Seq::<GrammarView>::empty());
    let g42 = Grammar::sequence_with(g40, g41, ParseMode::Strict);
    let g43: Vec<Grammar> = vec![Grammar::keyword("DROP"), Grammar::keyword("MASK")];
    assert(views(g43@) =~~= seq![GrammarView::Keyword { word: "DROP"@ }, GrammarView::Keyword { word: "MASK"@ }]);
    let g44: Vec<Grammar> = Vec::new();
    assert(views(g44@) =~= Seq::<GrammarView>::empty());
    let g45 = Grammar::sequence_with(g43, g44, ParseMode::Strict);
    let g46: Vec<Grammar> = vec![Grammar::reference("CommentGrammar"), Grammar::reference("FirstOrAfterGrammar"), g27, g30, g33, g36, g39, g42, g45, Grammar::reference("SetTagsGrammar"), Grammar::reference("UnsetTagsGrammar")];
    assert(views(g46@) =~~= seq![GrammarView::Ref { name: "CommentGrammar"@, optional: false }, GrammarView::Ref { name: "FirstOrAfterGrammar"@, optional: false }, GrammarView::Sequence { elements: seq![GrammarView::OneOf { elements: seq![GrammarView::Keyword { word: "SET"@ }, GrammarView::Keyword { word: "DROP"@ }], terminators: seq![] }, GrammarView::Keyword { word: "NOT"@ }, GrammarView::Keyword { word: "NULL"@ }], terminators: seq![], parse_mode: ParseMode::Strict }, GrammarView::Sequence { elements: seq![GrammarView::Keyword { word: "TYPE"@ }, GrammarView::Ref { name: "DatatypeSegment"@, optional: false }], terminators: seq![], parse_mode: ParseMode::Strict }, GrammarView::Sequence { elements: seq![GrammarView::Keyword { word: "SET"@ }, GrammarView::Ref { name: "ColumnDefaultGrammar"@, optional: false }], terminators: seq![], parse_mode: ParseMode::Strict }, GrammarView::Sequence { elements: seq![GrammarView::Keyword { word: "DROP"@ }, GrammarView::Keyword { word: "DEFAULT"@ }], terminators: seq![], parse_mode: ParseMode::Strict }, GrammarView::Sequence { elements: seq![GrammarView::Keyword { word: "SYNC"@ }, GrammarView::Keyword { word: "IDENTITY"@ }], terminators: seq![], parse_mode: ParseMode::Strict }, GrammarView::Sequence { elements: seq![GrammarView::Keyword { word: "SET"@ }, GrammarView::Ref { name: "MaskStatementSegment"@, optional: false }], terminators: seq![], parse_mode: ParseMode::Strict }, GrammarView::Sequence { elements: seq![GrammarView::Keyword { word: "DROP"@ }, GrammarView::Keyword { word: "MASK"@ }], terminators: seq![], parse_mode: ParseMode::Strict }, GrammarView::Ref { name: "SetTagsGrammar"@, optional: false }, GrammarView::Ref { name: "UnsetTagsGrammar"@, optional: false }]);
    let g47: Vec<Grammar> = Vec::new();
    assert(views(g47@) =~= Seq::<GrammarView>::empty());
    let g48 = Grammar::one_of_with(g46, g47);
    let g49: Vec<Grammar> = vec![g20, g21, Grammar::reference("ColumnReferenceSegment"), g48];
    assert(views(g49@) =~~= seq![GrammarView::OneOf { elements: seq![GrammarView::Keyword { word: "ALTER"@ }, GrammarView::Keyword { word: "CHANGE"@ }], terminators: seq![] }, GrammarView::Optional { grammar: Box::new(GrammarView::Keyword { word: "COLUMN"@ }) }, GrammarView::Ref { name: "ColumnReferenceSegment"@, optional: false }, GrammarView::OneOf { elements: seq![GrammarView::Ref { name: "CommentGrammar"@, optional: false }, GrammarView::Ref { name: "FirstOrAfterGrammar"@, optional: false }, GrammarView::Sequence { elements: seq![GrammarView::OneOf { elements: seq![GrammarView::Keyword { word: "SET"@ }, GrammarView::Keyword { word: "DROP"@ }], terminators: seq![] }, GrammarView::Keyword { word: "NOT"@ }, GrammarView::Keyword { word: "NULL"@ }], terminators: seq![], parse_mode: ParseMode::Strict }, GrammarView::Sequence { elements: seq![GrammarView::Keyword { word: "TYPE"@ }, GrammarView::Ref { name: "DatatypeSegment"@, optional: false }], terminators: seq![], parse_mode: ParseMode::Strict }, GrammarView::Sequence { elements: seq![GrammarView::Keyword { word: "SET"@ }, GrammarView::Ref { name: "ColumnDefaultGrammar"@, optional: false }], terminators: seq![], parse_mode: ParseMode::Strict }, GrammarView::Sequence { elements: seq![GrammarView::Keyword { word: "DROP"@ }, GrammarView::Keyword { word: "DEFAULT"@ }], terminators: seq![], parse_mode: ParseMode::Strict }, GrammarView::Sequence { elements: seq![GrammarView::Keyword { word: "SYNC"@ }, GrammarView::Keyword { word: "IDENTITY"@ }], terminators: seq![], parse_mode: ParseMode::Strict }, GrammarView::Sequence { elements: seq![GrammarView::Keyword { word: "SET"@ }, GrammarView::Ref { name: "MaskStatementSegment"@, optional: false }], terminators: seq![], parse_mode: ParseMode::Strict }, GrammarView::Sequence { elements: seq![GrammarView::Keyword { word: "DROP"@ }, GrammarView::Keyword { word: "MASK"@ }], terminators: seq![], parse_mode: ParseMode::Strict }, GrammarView::Ref { name: "SetTagsGrammar"@, optional: false }, GrammarView::Ref { name: "UnsetTagsGrammar"@, optional: false }], terminators: seq![] }]);
    let g50: Vec<Grammar> = Vec::new();
    assert(views(g50@) =~= Seq::<GrammarView>::empty());
    let g51 = Grammar::sequence_with(g49, g50, ParseMode::Strict);
    let g52: Vec<Grammar> = vec![Grammar::keyword("COLUMN"), Grammar::keyword("COLUMNS")];
    assert(views(g52@) =~~= seq![GrammarView::Keyword { word: "COLUMN"@ }, GrammarView::Keyword { word: "COLUMNS"@ }]);
    let g53: Vec<Grammar> = Vec::new();
    assert(views(g53@) =~= Seq::<GrammarView>::empty());
    let g54 = Grammar::one_of_with(g52, g53);
    let g55 = g54.optional();
    let g56: Vec<Grammar> = vec![Grammar::reference("ColumnReferenceSegment")];
    assert(views(g56@) =~~= seq![GrammarView::Ref { name: "ColumnReferenceSegment"@, optional: false }]);
    let g57: Vec<Grammar> = Vec::new();
    assert(views(g57@) =~= Seq::<GrammarView>::empty());
    let g58 = Grammar::delimited_with(g56, false, None, g57, true);
    let g59: Vec<Grammar> = vec![g58];
    assert(views(g59@) =~~= seq![GrammarView::Delimited { elements: seq![GrammarView::Ref { name: "ColumnReferenceSegment"@, optional: false }], allow_trailing: false, delimiter: None, terminators: seq![], allow_gaps: true }]);
    let g60 = Grammar::bracketed_with(g59, "round");
    let g61: Vec<Grammar> = vec![Grammar::keyword("DROP"), g55, Grammar::optional_reference("IfExistsGrammar"), g60];
    assert(views(g61@) =~~= seq![GrammarView::Keyword { word: "DROP"@ }, GrammarView::Optional { grammar: Box::new(GrammarView::OneOf { elements: seq![GrammarView::Keyword { word: "COLUMN"@ }, GrammarView::Keyword { word: "COLUMNS"@ }], terminators: seq![] }) }, GrammarView::Ref { name: "IfExistsGrammar"@, optional: true }, GrammarView::Bracketed { elements: seq![GrammarView::Delimited { elements: seq![GrammarView::Ref { name: "ColumnReferenceSegment"@, optional: false }], allow_trailing: false, delimiter: None, terminators: seq![], allow_gaps: true }], bracket_type: "round"@ }]);
    let g62: Vec<Grammar> = Vec::new();
    assert(views(g62@) =~= Seq::<GrammarView>::empty());
    let g63 = Grammar::sequence_with(g61, g62, ParseMode::Strict);
    let g64: Vec<Grammar> = vec![Grammar::keyword("RENAME"), Grammar::keyword("COLUMN"), Grammar::reference("ColumnReferenceSegment"), Grammar::keyword("TO"), Grammar::reference("ColumnReferenceSegment")];
    assert(views(g64@) =~~= seq![GrammarView::Keyword { word: "RENAME"@ }, GrammarView::Keyword { word: "COLUMN"@ }, GrammarView::Ref { name: "ColumnReferenceSegment"@, optional: false }, GrammarView::Keyword { word: "TO"@ }, GrammarView::Ref { name: "ColumnReferenceSegment"@, optional: false }]);
    let g65: Vec<Grammar> = Vec::new();
    assert(views(g65@) =~= Seq::<GrammarView>::empty());
    let g66 = Grammar::sequence_with(g64, g65, ParseMode::Strict);
    let g67: Vec<Grammar> = vec![Grammar::keyword("ADD"), Grammar::reference("TableConstraintSegment")];
    assert(views(g67@) =~~= seq![GrammarView::Keyword { word: "ADD"@ }, GrammarView::Ref { name: "TableConstraintSegment"@, optional: false }]);
    let g68: Vec<Grammar> = Vec::new();
    assert(views(g68@) =~= Seq::<GrammarView>::empty());
    let g69 = Grammar::sequence_with(g67, g68, ParseMode::Strict);
    let g70: Vec<Grammar> = vec![Grammar::keyword("TRUNCATE"), Grammar::keyword("HISTORY")];
    assert(views(g70@) =~~= seq![GrammarView::Keyword { word: "TRUNCATE"@ }, GrammarView::Keyword { word: "HISTORY"@ }]);
    let g71: Vec<Grammar> = Vec::new();
    assert(views(g71@) =~= Seq::<GrammarView>::empty());
    let g72 = Grammar::sequence_with(g70, g71, ParseMode::Strict);
    let g73 = g72.optional();
    let g74: Vec<Grammar> = vec![Grammar::keyword("DROP"), Grammar::keyword("FEATURE"), Grammar::reference("ObjectReferenceSegment"), g73];
    assert(views(g74@) =~~= seq![GrammarView::Keyword { word: "DROP"@ }, GrammarView::Keyword { word: "FEATURE"@ }, GrammarView::Ref { name: "ObjectReferenceSegment"@, optional: false }, GrammarView::Optional { grammar: Box::new(GrammarView::Sequence { elements: seq![GrammarView::Keyword { word: "TRUNCATE"@ }, GrammarView::Keyword { word: "HISTORY"@ }], terminators: seq![], parse_mode: ParseMode::Strict }) }]);
    let g75: Vec<Grammar> = Vec::new();
    assert(views(g75@) =~= Seq::<GrammarView>::empty());
    let g76 = Grammar::sequence_with(g74, g75, ParseMode::Strict);
    let g77: Vec<Grammar> = vec![Grammar::reference("AlterPartitionGrammar")];
    assert(views(g77@) =~~= seq![GrammarView::Ref { name: "AlterPartitionGrammar"@, optional: false }]);
    let g78: Vec<Grammar> = Vec::new();
    assert(views(g78@) =~= Seq::<GrammarView>::empty());
    let g79 = Grammar::any_number_of_with(g77, g78, 0, None);
    let g80: Vec<Grammar> = vec![Grammar::keyword("ADD"), Grammar::optional_reference("IfNotExistsGrammar"), g79];
    assert(views(g80@) =~~= seq![GrammarView::Keyword { word: "ADD"@ }, GrammarView::Ref { name: "IfNotExistsGrammar"@, optional: true }, GrammarView::AnyNumberOf { elements: seq![GrammarView::Ref { name: "AlterPartitionGrammar"@, optional: false }], terminators: seq![], min_times: 0, max_times: None }]);
    let g81: Vec<Grammar> = Vec::new();
    assert(views(g81@) =~= Seq::<GrammarView>::empty());
    let g82 = Grammar::sequence_with(g80, g81, ParseMode::Strict);
    let g83: Vec<Grammar> = vec![Grammar::reference("AlterPartitionGrammar")];
    assert(views(g83@) =~~= seq![GrammarView::Ref { name: "AlterPartitionGrammar"@, optional: false }]);
    let g84: Vec<Grammar> = Vec::new();
    assert(views(g84@) =~= Seq::<GrammarView>::empty());
    let g85 = Grammar::any_number_of_with(g83, g84, 0, None);
    let g86: Vec<Grammar> = vec![Grammar::keyword("DROP"), Grammar::optional_reference("IfExistsGrammar"), g85];
    assert(views(g86@) =~~= seq![GrammarView::Keyword { word: "DROP"@ }, GrammarView::Ref { name: "IfExistsGrammar"@, optional: true }, GrammarView::AnyNumberOf { elements: seq![GrammarView::Ref { name: "AlterPartitionGrammar"@, optional: false }], terminators: seq![], min_times: 0, max_times: None }]);
    let g87: Vec<Grammar> = Vec::new();
    assert(views(g87@) =~= Seq::<GrammarView>::empty());
    let g88 = Grammar::sequence_with(g86, g87, ParseMode::Strict);
    let g89: Vec<Grammar> = vec![Grammar::reference("AlterPartitionGrammar"), Grammar::keyword("SET"), Grammar::reference("LocationGrammar")];
    assert(views(g89@) =~~= seq![GrammarView::Ref { name: "AlterPartitionGrammar"@, optional: false }, GrammarView::Keyword { word: "SET"@ }, GrammarView::Ref { name: "LocationGrammar"@, optional: false }]);
    let g90: Vec<Grammar> = Vec::new();
    assert(views(g90@) =~= Seq::<GrammarView>::empty());
    let g91 = Grammar::sequence_with(g89, g90, ParseMode::Strict);
    let g92: Vec<Grammar> = vec![Grammar::reference("AlterPartitionGrammar"), Grammar::keyword("RENAME"), Grammar::keyword("TO"), Grammar::reference("AlterPartitionGrammar")];
    assert(views(g92@) =~~= seq![GrammarView::Ref { name: "AlterPartitionGrammar"@, optional: false }, GrammarView::Keyword { word: "RENAME"@ }, GrammarView::Keyword { word: "TO"@ }, GrammarView::Ref { name: "AlterPartitionGrammar"@, optional: false }]);
    let g93: Vec<Grammar> = Vec::new();
    assert(views(g93@) =~= Seq::<GrammarView>::empty());
    let g94 = Grammar::sequence_with(g92, g93, ParseMode::Strict);
    let g95: Vec<Grammar> = vec![Grammar::keyword("RECOVER"), Grammar::keyword("PARTITIONS")];
    assert(views(g95@) =~~= seq![GrammarView::Keyword { word: "RECOVER"@ }, GrammarView::Keyword { word: "PARTITIONS"@ }]);
    let g96: Vec<Grammar> = Vec::new();
    assert(views(g96@) =~= Seq::<GrammarView>::empty());
    let g97 = Grammar::sequence_with(g95, g96, ParseMode::Strict);
    let g98: Vec<Grammar> = vec![Grammar::keyword("SET"), Grammar::reference("RowFilterClauseGrammar")];
    assert(views(g98@) =~~= seq![GrammarView::Keyword { word: "SET"@ }, GrammarView::Ref { name: "RowFilterClauseGrammar"@, optional: false }]);
    let g99: Vec<Grammar> = Vec::new();
    assert(views(g99@) =~= Seq::<GrammarView>::empty());
    let g100 = Grammar::sequence_with(g98, g99, ParseMode::Strict);
    let g101: Vec<Grammar> = vec![Grammar::keyword("DROP"), Grammar::keyword("ROW"), Grammar::keyword("FILTER")];
    assert(views(g101@) =~~= seq![GrammarView::Keyword { word: "DROP"@ }, GrammarView::Keyword { word: "ROW"@ }, GrammarView::Keyword { word: "FILTER"@ }]);
    let g102: Vec<Grammar> = Vec::new();
    assert(views(g102@) =~= Seq::<GrammarView>::empty());
    let g103 = Grammar::sequence_with(g101, g102, ParseMode::Strict);
    let g104: Vec<Grammar> = vec![Grammar::keyword("SET"), Grammar::reference("TablePropertiesGrammar")];
    assert(views(g104@) =~~= seq![GrammarView::Keyword { word: "SET"@ }, GrammarView::Ref { name: "TablePropertiesGrammar"@, optional: false }]);
    let g105: Vec<Grammar> = Vec::new();
    assert(views(g105@) =~= Seq::<GrammarView>::empty());
    let g106 = Grammar::sequence_with(g104, g105, ParseMode::Strict);
    let g107: Vec<Grammar> = vec![Grammar::keyword("WITH"), Grammar::keyword("SERDEPROPERTIES"), Grammar::reference("BracketedPropertyListGrammar")];
    assert(views(g107@) =~~= seq![GrammarView::Keyword { word: "WITH"@ }, GrammarView::Keyword { word: "SERDEPROPERTIES"@ }, GrammarView::Ref { name: "BracketedPropertyListGrammar"@, optional: false }]);
    let g108: Vec<Grammar> = Vec::new();
    assert(views(g108@) =~= Seq::<GrammarView>::empty());
    let g109 = Grammar::sequence_with(g107, g108, ParseMode::Strict);
    let g110 = g109.optional();
    let g111: Vec<Grammar> = vec![Grammar::keyword("SET"), Grammar::keyword("SERDE"), Grammar::reference("QuotedLiteralSegment"), g110];
    assert(views(g111@) =~~= seq![GrammarView::Keyword { word: "SET"@ }, GrammarView::Keyword { word: "SERDE"@ }, GrammarView::Ref { name: "QuotedLiteralSegment"@, optional: false }, GrammarView::Optional { grammar: Box::new(GrammarView::Sequence { elements: seq![GrammarView::Keyword { word: "WITH"@ }, GrammarView::Keyword { word: "SERDEPROPERTIES"@ }, GrammarView::Ref { name: "BracketedPropertyListGrammar"@, optional: false }], terminators: seq![], parse_mode: ParseMode::Strict }) }]);
    let g112: Vec<Grammar> = Vec::new();
    assert(views(g112@) =~= Seq::<GrammarView>::empty());
    let g113 = Grammar::sequence_with(g111, g112, ParseMode::Strict);
    let g114: Vec<Grammar> = vec![Grammar::keyword("SET"), Grammar::reference("LocationGrammar")];
    assert(views(g114@) =~~= seq![GrammarView::Keyword { word: "SET"@ }, GrammarView::Ref { name: "LocationGrammar"@, optional: false }]);
    let g115: Vec<Grammar> = Vec::new();
    assert(views(g115@) =~= Seq::<GrammarView>::empty());
    let g116 = Grammar::sequence_with(g114, g115, ParseMode::Strict);
    let g117: Vec<Grammar> = vec![Grammar::keyword("ALTER"), Grammar::keyword("COLUMN"), Grammar::reference("ColumnReferenceSegment")];
    assert(views(g117@) =~~= seq![GrammarView::Keyword { word: "ALTER"@ }, GrammarView::Keyword { word: "COLUMN"@ }, GrammarView::Ref { name: "ColumnReferenceSegment"@, optional: false }]);
    let g118: Vec<Grammar> = Vec::new();
    assert(views(g118@) =~= Seq::<GrammarView>::empty());
    let g119 = Grammar::sequence_with(g117, g118, ParseMode::Strict);
    let g120 = g119.optional();
    let g121: Vec<Grammar> = vec![g120, Grammar::reference("SetTagsGrammar")];
    assert(views(g121@) =~~= seq![GrammarView::Optional { grammar: Box::new(GrammarView::Sequence { elements: seq![GrammarView::Keyword { word: "ALTER"@ }, GrammarView::Keyword { word: "COLUMN"@ }, GrammarView::Ref { name: "ColumnReferenceSegment"@, optional: false }], terminators: seq![], parse_mode: ParseMode::Strict }) }, GrammarView::Ref { name: "SetTagsGrammar"@, optional: false }]);
    let g122: Vec<Grammar> = Vec::new();
    assert(views(g122@) =~= Seq::<GrammarView>::empty());
    let g123 = Grammar::sequence_with(g121, g122, ParseMode::Strict);
    let g124: Vec<Grammar> = vec![Grammar::keyword("ALTER"), Grammar::keyword("COLUMN"), Grammar::reference("ColumnReferenceSegment")];
    assert(views(g124@) =~~= seq![GrammarView::Keyword { word: "ALTER"@ }, GrammarView::Keyword { word: "COLUMN"@ }, GrammarView::Ref { name: "ColumnReferenceSegment"@, optional: false }]);
    let g125: Vec<Grammar> = Vec::new();
    assert(views(g125@) =~= Seq::<GrammarView>::empty());
    let g126 = Grammar::sequence_with(g124, g125, ParseMode::Strict);
    let g127 = g126.optional();
    let g128: Vec<Grammar> = vec![g127, Grammar::reference("UnsetTagsGrammar")];
    assert(views(g128@) =~~= seq![GrammarView::Optional { grammar: Box::new(GrammarView::Sequence { elements: seq![GrammarView::Keyword { word: "ALTER"@ }, GrammarView::Keyword { word: "COLUMN"@ }, GrammarView::Ref { name: "ColumnReferenceSegment"@, optional: false }], terminators: seq![], parse_mode: ParseMode::Strict }) }, GrammarView::Ref { name: "UnsetTagsGrammar"@, optional: false }]);
    let g129: Vec<Grammar> = Vec::new();
    assert(views(g129@) =~= Seq::<GrammarView>::empty());
    let g130 = Grammar::sequence_with(g128, g129, ParseMode::Strict);
    let g131: Vec<Grammar> = vec![g3, g17, g51, g63, g66, g69, Grammar::reference("DropConstraintGrammar"), g76, g82, g88, g91, g94, g97, g100, g103, g106, Grammar::reference("UnsetTablePropertiesGrammar"), g113, g116, Grammar::reference("SetOwnerGrammar"), g123, g130, Grammar::reference("ClusterByClauseSegment"), Grammar::reference("PredictiveOptimizationGrammar")];
    assert(views(g131@) =~~= seq![GrammarView::Sequence { elements: seq![GrammarView::Keyword { word: "RENAME"@ }, GrammarView::Keyword { word: "TO"@ }, GrammarView::Ref { name: "TableReferenceSegment"@, optional: false }], terminators: seq![], parse_mode: ParseMode::Strict }, GrammarView::Sequence { elements: seq![GrammarView::Keyword { word: "ADD"@ }, GrammarView::OneOf { elements: seq![GrammarView::Keyword { word: "COLUMNS"@ }, GrammarView::Keyword { word: "COLUMN"@ }], terminators: seq![] }, GrammarView::Indent, GrammarView::Bracketed { elements: seq![GrammarView::Delimited { elements: seq![GrammarView::Sequence { elements: seq![GrammarView::Ref { name: "ColumnFieldDefinitionSegment"@, optional: false }, GrammarView::Ref { name: "ColumnDefaultGrammar"@, optional: true }, GrammarView::Ref { name: "CommentGrammar"@, optional: true }, GrammarView::Ref { name: "FirstOrAfterGrammar"@, optional: true }, GrammarView::Ref { name: "MaskStatementSegment"@, optional: true }], terminators: seq![], parse_mode: ParseMode::Strict }], allow_trailing: false, delimiter: None, terminators: seq![], allow_gaps: true }], bracket_type: "round"@ }, GrammarView::Dedent], terminators: seq![], parse_mode: ParseMode::Strict }, GrammarView::Sequence { elements: seq![GrammarView::OneOf { elements: seq![GrammarView::Keyword { word: "ALTER"@ }, GrammarView::Keyword { word: "CHANGE"@ }], terminators: seq![] }, GrammarView::Optional { grammar: Box::new(GrammarView::Keyword { word: "COLUMN"@ }) }, GrammarView::Ref { name: "ColumnReferenceSegment"@, optional: false }, GrammarView::OneOf { elements: seq![GrammarView::Ref { name: "CommentGrammar"@, optional: false }, GrammarView::Ref { name: "FirstOrAfterGrammar"@, optional: false }, GrammarView::Sequence { elements: seq![GrammarView::OneOf { elements: seq![GrammarView::Keyword { word: "SET"@ }, GrammarView::Keyword { word: "DROP"@ }], terminators: seq![] }, GrammarView::Keyword { word: "NOT"@ }, GrammarView::Keyword { word: "NULL"@ }], terminators: seq![], parse_mode: ParseMode::Strict }, GrammarView::Sequence { elements: seq![GrammarView::Keyword { word: "TYPE"@ }, GrammarView::Ref { name: "DatatypeSegment"@, optional: false }], terminators: seq![], parse_mode: ParseMode::Strict }, GrammarView::Sequence { elements: seq![GrammarView::Keyword { word: "SET"@ }, GrammarView::Ref { name: "ColumnDefaultGrammar"@, optional: false }], terminators: seq![], parse_mode: ParseMode::Strict }, GrammarView::Sequence { elements: seq![GrammarView::Keyword { word: "DROP"@ }, GrammarView::Keyword { word: "DEFAULT"@ }], terminators: seq![], parse_mode: ParseMode::Strict }, GrammarView::Sequence { elements: seq![GrammarView::Keyword { word: "SYNC"@ }, GrammarView::Keyword { word: "IDENTITY"@ }], terminators: seq![], parse_mode: ParseMode::Strict }, GrammarView::Sequence { elements: seq![GrammarView::Keyword { word: "SET"@ }, GrammarView::Ref { name: "MaskStatementSegment"@, optional: false }], terminators: seq![], parse_mode: ParseMode::Strict }, GrammarView::Sequence { elements: seq![GrammarView::Keyword { word: "DROP"@ }, GrammarView::Keyword { word: "MASK"@ }], terminators: seq![], parse_mode: ParseMode::Strict }, GrammarView::Ref { name: "SetTagsGrammar"@, optional: false }, GrammarView::Ref { name: "UnsetTagsGrammar"@, optional: false }], terminators: seq![] }], terminators: seq![], parse_mode: ParseMode::Strict }, GrammarView::Sequence { elements: seq![GrammarView::Keyword { word: "DROP"@ }, GrammarView::Optional { grammar: Box::new(GrammarView::OneOf { elements: seq![GrammarView::Keyword { word: "COLUMN"@ }, GrammarView::Keyword { word: "COLUMNS"@ }], terminators: seq![] }) }, GrammarView::Ref { name: "IfExistsGrammar"@, optional: true }, GrammarView::Bracketed { elements: seq![GrammarView::Delimited { elements: seq![GrammarView::Ref { name: "ColumnReferenceSegment"@, optional: false }], allow_trailing: false, delimiter: None, terminators: seq![], allow_gaps: true }], bracket_type: "round"@ }], terminators: seq![], parse_mode: ParseMode::Strict }, GrammarView::Sequence { elements: seq![GrammarView::Keyword { word: "RENAME"@ }, GrammarView::Keyword { word: "COLUMN"@ }, GrammarView::Ref { name: "ColumnReferenceSegment"@, optional: false }, GrammarView::Keyword { word: "TO"@ }, GrammarView::Ref { name: "ColumnReferenceSegment"@, optional: false }], terminators: seq![], parse_mode: ParseMode::Strict }, GrammarView::Sequence { elements: seq![GrammarView::Keyword { word: "ADD"@ }, GrammarView::Ref { name: "TableConstraintSegment"@, optional: false }], terminators: seq![], parse_mode: ParseMode::Strict }, GrammarView::Ref { name: "DropConstraintGrammar"@, optional: false }, GrammarView::Sequence { elements: seq![GrammarView::Keyword { word: "DROP"@ }, GrammarView::Keyword { word: "FEATURE"@ }, GrammarView::Ref { name: "ObjectReferenceSegment"@, optional: false }, GrammarView::Optional { grammar: Box::new(GrammarView::Sequence { elements: seq![GrammarView::Keyword { word: "TRUNCATE"@ }, GrammarView::Keyword { word: "HISTORY"@ }], terminators: seq![], parse_mode: ParseMode::Strict }) }], terminators: seq![], parse_mode: ParseMode::Strict }, GrammarView::Sequence { elements: seq![GrammarView::Keyword { word: "ADD"@ }, GrammarView::Ref { name: "IfNotExistsGrammar"@, optional: true }, GrammarView::AnyNumberOf { elements: seq![GrammarView::Ref { name: "AlterPartitionGrammar"@, optional: false }], terminators: seq![], min_times: 0, max_times: None }], terminators: seq![], parse_mode: ParseMode::Strict }, GrammarView::Sequence { elements: seq![GrammarView::Keyword { word: "DROP"@ }, GrammarView::Ref { name: "IfExistsGrammar"@, optional: true }, GrammarView::AnyNumberOf { elements: seq![GrammarView::Ref { name: "AlterPartitionGrammar"@, optional: false }], terminators: seq![], min_times: 0, max_times: None }], terminators: seq![], parse_mode: ParseMode::Strict }, GrammarView::Sequence { elements: seq![GrammarView::Ref { name: "AlterPartitionGrammar"@, optional: false }, GrammarView::Keyword { word: "SET"@ }, GrammarView::Ref { name: "LocationGrammar"@, optional: false }], terminators: seq![], parse_mode: ParseMode::Strict }, GrammarView::Sequence { elements: seq![GrammarView::Ref { name: "AlterPartitionGrammar"@, optional: false }, GrammarView::Keyword { word: "RENAME"@ }, GrammarView::Keyword { word: "TO"@ }, GrammarView::Ref { name: "AlterPartitionGrammar"@, optional: false }], terminators: seq![], parse_mode: ParseMode::Strict }, GrammarView::Sequence { elements: seq![GrammarView::Keyword { word: "RECOVER"@ }, GrammarView::Keyword { word: "PARTITIONS"@ }], terminators: seq![], parse_mode: ParseMode::Strict }, GrammarView::Sequence { elements: seq![GrammarView::Keyword { word: "SET"@ }, GrammarView::Ref { name: "RowFilterClauseGrammar"@, optional: false }], terminators: seq![], parse_mode: ParseMode::Strict }, GrammarView::Sequence { elements: seq![GrammarView::Keyword { word: "DROP"@ }, GrammarView::Keyword { word: "ROW"@ }, GrammarView::Keyword { word: "FILTER"@ }], terminators: seq![], parse_mode: ParseMode::Strict }, GrammarView::Sequence { elements: seq![GrammarView::Keyword { word: "SET"@ }, GrammarView::Ref { name: "TablePropertiesGrammar"@, optional: false }], terminators: seq![], parse_mode: ParseMode::Strict }, GrammarView::Ref { name: "UnsetTablePropertiesGrammar"@, optional: false }, GrammarView::Sequence { elements: seq![GrammarView::Keyword { word: "SET"@ }, GrammarView::Keyword { word: "SERDE"@ }, GrammarView::Ref { name: "QuotedLiteralSegment"@, optional: false }, GrammarView::Optional { grammar: Box::new(GrammarView::Sequence { elements: seq![GrammarView::Keyword { word: "WITH"@ }, GrammarView::Keyword { word: "SERDEPROPERTIES"@ }, GrammarView::Ref { name: "BracketedPropertyListGrammar"@, optional: false }], terminators: seq![], parse_mode: ParseMode::Strict }) }], terminators: seq![], parse_mode: ParseMode::Strict }, GrammarView::Sequence { elements: seq![GrammarView::Keyword { word: "SET"@ }, GrammarView::Ref { name: "LocationGrammar"@, optional: false }], terminators: seq![], parse_mode: ParseMode::Strict }, GrammarView::Ref { name: "SetOwnerGrammar"@, optional: false }, GrammarView::Sequence { elements: seq![GrammarView::Optional { grammar: Box::new(GrammarView::Sequence { elements: seq![GrammarView::Keyword { word: "ALTER"@ }, GrammarView::Keyword { word: "COLUMN"@ }, GrammarView::Ref { name: "ColumnReferenceSegment"@, optional: false }], terminators: seq![], parse_mode: ParseMode::Strict }) }, GrammarView::Ref { name: "SetTagsGrammar"@, optional: false }], terminators: seq![], parse_mode: ParseMode::Strict }, GrammarView::Sequence { elements: seq![GrammarView::Optional { grammar: Box::new(GrammarView::Sequence { elements: seq![GrammarView::Keyword { word: "ALTER"@ }, GrammarView::Keyword { word: "COLUMN"@ }, GrammarView::Ref { name: "ColumnReferenceSegment"@, optional: false }], terminators: seq![], parse_mode: ParseMode::Strict }) }, GrammarView::Ref { name: "UnsetTagsGrammar"@, optional: false }], terminators: seq![], parse_mode: ParseMode::Strict }, GrammarView::Ref { name: "ClusterByClauseSegment"@, optional: false }, GrammarView::Ref { name: "PredictiveOptimizationGrammar"@, optional: false }]);
    let g132: Vec<Grammar> = Vec::new();
    assert(views(g132@) =~= Seq::<GrammarView>::empty());
    let g133 = Grammar::one_of_with(g131, g132);
    let g134: Vec<Grammar> = vec![Grammar::keyword("ALTER"), Grammar::keyword("TABLE"), Grammar::reference("TableReferenceSegment"), Grammar::indent(), g133, Grammar::dedent()];
    assert(views(g134@) =~~= seq![GrammarView::Keyword { word: "ALTER"@ }, GrammarView::Keyword { word: "TABLE"@ }, GrammarView::Ref { name: "TableReferenceSegment"@, optional: false }, GrammarView::Indent, GrammarView::OneOf { elements: seq![GrammarView::Sequence { elements: seq![GrammarView::Keyword { word: "RENAME"@ }, GrammarView::Keyword { word: "TO"@ }, GrammarView::Ref { name: "TableReferenceSegment"@, optional: false }], terminators: seq![], parse_mode: ParseMode::Strict }, GrammarView::Sequence { elements: seq![GrammarView::Keyword { word: "ADD"@ }, GrammarView::OneOf { elements: seq![GrammarView::Keyword { word: "COLUMNS"@ }, GrammarView::Keyword { word: "COLUMN"@ }], terminators: seq![] }, GrammarView::Indent, GrammarView::Bracketed { elements: seq![GrammarView::Delimited { elements: seq![GrammarView::Sequence { elements: seq![GrammarView::Ref { name: "ColumnFieldDefinitionSegment"@, optional: false }, GrammarView::Ref { name: "ColumnDefaultGrammar"@, optional: true }, GrammarView::Ref { name: "CommentGrammar"@, optional: true }, GrammarView::Ref { name: "FirstOrAfterGrammar"@, optional: true }, GrammarView::Ref { name: "MaskStatementSegment"@, optional: true }], terminators: seq![], parse_mode: ParseMode::Strict }], allow_trailing: false, delimiter: None, terminators: seq![], allow_gaps: true }], bracket_type: "round"@ }, GrammarView::Dedent], terminators: seq![], parse_mode: ParseMode::Strict }, GrammarView::Sequence { elements: seq![GrammarView::OneOf { elements: seq![GrammarView::Keyword { word: "ALTER"@ }, GrammarView::Keyword { word: "CHANGE"@ }], terminators: seq![] }, GrammarView::Optional { grammar: Box::new(GrammarView::Keyword { word: "COLUMN"@ }) }, GrammarView::Ref { name: "ColumnReferenceSegment"@, optional: false }, GrammarView::OneOf { elements: seq![GrammarView::Ref { name: "CommentGrammar"@, optional: false }, GrammarView::Ref { name: "FirstOrAfterGrammar"@, optional: false }, GrammarView::Sequence { elements: seq![GrammarView::OneOf { elements: seq![GrammarView::Keyword { word: "SET"@ }, GrammarView::Keyword { word: "DROP"@ }], terminators: seq![] }, GrammarView::Keyword { word: "NOT"@ }, GrammarView::Keyword { word: "NULL"@ }], terminators: seq![], parse_mode: ParseMode::Strict }, GrammarView::Sequence { elements: seq![GrammarView::Keyword { word: "TYPE"@ }, GrammarView::Ref { name: "DatatypeSegment"@, optional: false }], terminators: seq![], parse_mode: ParseMode::Strict }, GrammarView::Sequence { elements: seq![GrammarView::Keyword { word: "SET"@ }, GrammarView::Ref { name: "ColumnDefaultGrammar"@, optional: false }], terminators: seq![], parse_mode: ParseMode::Strict }, GrammarView::Sequence { elements: seq![GrammarView::Keyword { word: "DROP"@ }, GrammarView::Keyword { word: "DEFAULT"@ }], terminators: seq![], parse_mode: ParseMode::Strict }, GrammarView::Sequence { elements: seq![GrammarView::Keyword { word: "SYNC"@ }, GrammarView::Keyword { word: "IDENTITY"@ }], terminators: seq![], parse_mode: ParseMode::Strict }, GrammarView::Sequence { elements: seq![GrammarView::Keyword { word: "SET"@ }, GrammarView::Ref { name: "MaskStatementSegment"@, optional: false }], terminators: seq![], parse_mode: ParseMode::Strict }, GrammarView::Sequence { elements: seq![GrammarView::Keyword { word: "DROP"@ }, GrammarView::Keyword { word: "MASK"@ }], terminators: seq![], parse_mode: ParseMode::Strict }, GrammarView::Ref { name: "SetTagsGrammar"@, optional: false }, GrammarView::Ref { name: "UnsetTagsGrammar"@, optional: false }], terminators: seq![] }], terminators: seq![], parse_mode: ParseMode::Strict }, GrammarView::Sequence { elements: seq![GrammarView::Keyword { word: "DROP"@ }, GrammarView::Optional { grammar: Box::new(GrammarView::OneOf { elements: seq![GrammarView::Keyword { word: "COLUMN"@ }, GrammarView::Keyword { word: "COLUMNS"@ }], terminators: seq![] }) }, GrammarView::Ref { name: "IfExistsGrammar"@, optional: true }, GrammarView::Bracketed { elements: seq![GrammarView::Delimited { elements: seq![GrammarView::Ref { name: "ColumnReferenceSegment"@, optional: false }], allow_trailing: false, delimiter: None, terminators: seq![], allow_gaps: true }], bracket_type: "round"@ }], terminators: seq![], parse_mode: ParseMode::Strict }, GrammarView::Sequence { elements: seq![GrammarView::Keyword { word: "RENAME"@ }, GrammarView::Keyword { word: "COLUMN"@ }, GrammarView::Ref { name: "ColumnReferenceSegment"@, optional: false }, GrammarView::Keyword { word: "TO"@ }, GrammarView::Ref { name: "ColumnReferenceSegment"@, optional: false }], terminators: seq![], parse_mode: ParseMode::Strict }, GrammarView::Sequence { elements: seq![GrammarView::Keyword { word: "ADD"@ }, GrammarView::Ref { name: "TableConstraintSegment"@, optional: false }], terminators: seq![], parse_mode: ParseMode::Strict }, GrammarView::Ref { name: "DropConstraintGrammar"@, optional: false }, GrammarView::Sequence { elements: seq![GrammarView::Keyword { word: "DROP"@ }, GrammarView::Keyword { word: "FEATURE"@ }, GrammarView::Ref { name: "ObjectReferenceSegment"@, optional: false }, GrammarView::Optional { grammar: Box::new(GrammarView::Sequence { elements: seq![GrammarView::Keyword { word: "TRUNCATE"@ }, GrammarView::Keyword { word: "HISTORY"@ }], terminators: seq![], parse_mode: ParseMode::Strict }) }], terminators: seq![], parse_mode: ParseMode::Strict }, GrammarView::Sequence { elements: seq![GrammarView::Keyword { word: "ADD"@ }, GrammarView::Ref { name: "IfNotExistsGrammar"@, optional: true }, GrammarView::AnyNumberOf { elements: seq![GrammarView::Ref { name: "AlterPartitionGrammar"@, optional: false }], terminators: seq![], min_times: 0, max_times: None }], terminators: seq![], parse_mode: ParseMode::Strict }, GrammarView::Sequence { elements: seq![GrammarView::Keyword { word: "DROP"@ }, GrammarView::Ref { name: "IfExistsGrammar"@, optional: true }, GrammarView::AnyNumberOf { elements: seq![GrammarView::Ref { name: "AlterPartitionGrammar"@, optional: false }], terminators: seq![], min_times: 0, max_times: None }], terminators: seq![], parse_mode: ParseMode::Strict }, GrammarView::Sequence { elements: seq![GrammarView::Ref { name: "AlterPartitionGrammar"@, optional: false }, GrammarView::Keyword { word: "SET"@ }, GrammarView::Ref { name: "LocationGrammar"@, optional: false }], terminators: seq![], parse_mode: ParseMode::Strict }, GrammarView::Sequence { elements: seq![GrammarView::Ref { name: "AlterPartitionGrammar"@, optional: false }, GrammarView::Keyword { word: "RENAME"@ }, GrammarView::Keyword { word: "TO"@ }, GrammarView::Ref { name: "AlterPartitionGrammar"@, optional: false }], terminators: seq![], parse_mode: ParseMode::Strict }, GrammarView::Sequence { elements: seq![GrammarView::Keyword { word: "RECOVER"@ }, GrammarView::Keyword { word: "PARTITIONS"@ }], terminators: seq![], parse_mode: ParseMode::Strict }, GrammarView::Sequence { elements: seq![GrammarView::Keyword { word: "SET"@ }, GrammarView::Ref { name: "RowFilterClauseGrammar"@, optional: false }], terminators: seq![], parse_mode: ParseMode::Strict }, GrammarView::Sequence { elements: seq![GrammarView::Keyword { word: "DROP"@ }, GrammarView::Keyword { word: "ROW"@ }, GrammarView::Keyword { word: "FILTER"@ }], terminators: seq![], parse_mode: ParseMode::Strict }, GrammarView::Sequence { elements: seq![GrammarView::Keyword { word: "SET"@ }, GrammarView::Ref { name: "TablePropertiesGrammar"@, optional: false }], terminators: seq![], parse_mode: ParseMode::Strict }, GrammarView::Ref { name: "UnsetTablePropertiesGrammar"@, optional: false }, GrammarView::Sequence { elements: seq![GrammarView::Keyword { word: "SET"@ }, GrammarView::Keyword { word: "SERDE"@ }, GrammarView::Ref { name: "QuotedLiteralSegment"@, optional: false }, GrammarView::Optional { grammar: Box::new(GrammarView::Sequence { elements: seq![GrammarView::Keyword { word: "WITH"@ }, GrammarView::Keyword { word: "SERDEPROPERTIES"@ }, GrammarView::Ref { name: "BracketedPropertyListGrammar"@, optional: false }], terminators: seq![], parse_mode: ParseMode::Strict }) }], terminators: seq![], parse_mode: ParseMode::Strict }, GrammarView::Sequence { elements: seq![GrammarView::Keyword { word: "SET"@ }, GrammarView::Ref { name: "LocationGrammar"@, optional: false }], terminators: seq![], parse_mode: ParseMode::Strict }, GrammarView::Ref { name: "SetOwnerGrammar"@, optional: false }, GrammarView::Sequence { elements: seq![GrammarView::Optional { grammar: Box::new(GrammarView::Sequence { elements: seq![GrammarView::Keyword { word: "ALTER"@ }, GrammarView::Keyword { word: "COLUMN"@ }, GrammarView::Ref { name: "ColumnReferenceSegment"@, optional: false }], terminators: seq![], parse_mode: ParseMode::Strict }) }, GrammarView::Ref { name: "SetTagsGrammar"@, optional: false }], terminators: seq![], parse_mode: ParseMode::Strict }, GrammarView::Sequence { elements: seq![GrammarView::Optional { grammar: Box::new(GrammarView::Sequence { elements: seq![GrammarView::Keyword { word: "ALTER"@ }, GrammarView::Keyword { word: "COLUMN"@ }, GrammarView::Ref { name: "ColumnReferenceSegment"@, optional: false }], terminators: seq![], parse_mode: ParseMode::Strict }) }, GrammarView::Ref { name: "UnsetTagsGrammar"@, optional: false }], terminators: seq![], parse_mode: ParseMode::Strict }, GrammarView::Ref { name: "ClusterByClauseSegment"@, optional: false }, GrammarView::Ref { name: "PredictiveOptimizationGrammar"@, optional: false }], terminators: seq![] }, GrammarView::Dedent]);
    let g135: Vec<Grammar> = Vec::new();
    assert(views(g135@) =~= Seq::<GrammarView>::empty());
    let g136 = Grammar::sequence_with(g134, g135, ParseMode::Strict);
    g136
}

/// The Databricks grammar of `AlterViewStatementSegment`.
pub open spec fn alter_view_statement_segment_grammar() -> GrammarView {
    GrammarView::Sequence { elements: seq![GrammarView::Keyword { word: "ALTER"@ }, GrammarView::Optional { grammar: Box::new(GrammarView::Keyword { word: "MATERIALIZED"@ }) }, GrammarView::Keyword { word: "VIEW"@ }, GrammarView::Ref { name: "TableReferenceSegment"@, optional: false }, GrammarView::OneOf { elements: seq![GrammarView::Sequence { elements: seq![GrammarView::Keyword { word: "RENAME"@ }, GrammarView::Keyword { word: "TO"@ }, GrammarView::Ref { name: "TableReferenceSegment"@, optional: false }], terminators: seq![], parse_mode: ParseMode::Strict }, GrammarView::Sequence { elements: seq![GrammarView::Keyword { word: "SET"@ }, GrammarView::Ref { name: "TablePropertiesGrammar"@, optional: false }], terminators: seq![], parse_mode: ParseMode::Strict }, GrammarView::Ref { name: "UnsetTablePropertiesGrammar"@, optional: false }, GrammarView::Sequence { elements: seq![GrammarView::Keyword { word: "AS"@ }, GrammarView::Ref { name: "SelectStatementSegment"@, optional: false }], terminators: seq![], parse_mode: ParseMode::Strict }, GrammarView::Sequence { elements: seq![GrammarView::Keyword { word: "WITH"@ }, GrammarView::Keyword { word: "SCHEMA"@ }, GrammarView::OneOf { elements: seq![GrammarView::Keyword { word: "BINDING"@ }, GrammarView::Keyword { word: "COMPENSATION"@ }, GrammarView::Sequence { elements: seq![GrammarView::Optional { grammar: Box::new(GrammarView::Keyword { word: "TYPE"@ }) }, GrammarView::Keyword { word: "EVOLUTION"@ }], terminators: seq![], parse_mode: ParseMode::Strict }], terminators: seq![] }], terminators: seq![], parse_mode: ParseMode::Strict }, GrammarView::Ref { name: "SetOwnerGrammar"@, optional: false }, GrammarView::Ref { name: "SetTagsGrammar"@, optional: false }, GrammarView::Ref { name: "UnsetTagsGrammar"@, optional: false }, GrammarView::Sequence { elements: seq![GrammarView::Indent, GrammarView::OneOf { elements: seq![GrammarView::Sequence { elements: seq![GrammarView::OneOf { elements: seq![GrammarView::Keyword { word: "ADD"@ }, GrammarView::Keyword { word: "ALTER"@ }], terminators: seq![] }, GrammarView::Keyword { word: "SCHEDULE"@ }, GrammarView::Optional { grammar: Box::new(GrammarView::Keyword { word: "REFRESH"@ }) }, GrammarView::Keyword { word: "CRON"@ }, GrammarView::Ref { name: "QuotedLiteralSegment"@, optional: false }, GrammarView::Optional { grammar: Box::new(GrammarView::Sequence { elements: seq![GrammarView::Keyword { word: "AT"@ }, GrammarView::Keyword { word: "TIME"@ }, GrammarView::Keyword { word: "ZONE"@ }, GrammarView::Ref { name: "QuotedLiteralSegment"@, optional: false }], terminators: seq![], parse_mode: ParseMode::Strict }) }], terminators: seq![], parse_mode: ParseMode::Strict }, GrammarView::Sequence { elements: seq![GrammarView::Keyword { word: "DROP"@ }, GrammarView::Keyword { word: "SCHEDULE"@ }], terminators: seq![], parse_mode: ParseMode::Strict }], terminators: seq![] }, GrammarView::Dedent], terminators: seq![], parse_mode: ParseMode::Strict }], terminators: seq![] }], terminators: seq![], parse_mode: ParseMode::Strict }
}

#[verifier::rlimit(100)]
fn build_alter_view_statement_segment() -> (g: Grammar)
    ensures
        g@ =~~= alter_view_statement_segment_grammar(),
{
    let g1 = Grammar::keyword("MATERIALIZED").optional();
    let g2: Vec<Grammar> = vec![Grammar::keyword("RENAME"), Grammar::keyword("TO"), Grammar::reference("TableReferenceSegment")];
    assert(views(g2@) =~~= seq![GrammarView::Keyword { word: "RENAME"@ }, GrammarView::Keyword { word: "TO"@ }, GrammarView::Ref { name: "TableReferenceSegment"@, optional: false }]);
    let g3: Vec<Grammar> = Vec::new();
    assert(views(g3@) =~= Seq::<GrammarView>::empty());
    let g4 = Grammar::sequence_with(g2, g3, ParseMode::Strict);
    let g5: Vec<Grammar> = vec![Grammar::keyword("SET"), Grammar::reference("TablePropertiesGrammar")];
    assert(views(g5@) =~~= seq![GrammarView::Keyword { word: "SET"@ }, GrammarView::Ref { name: "TablePropertiesGrammar"@, optional: false }]);
    let g6: Vec<Grammar> = Vec::new();
    assert(views(g6@) =~= Seq::<GrammarView>::empty());
    let g7 = Grammar::sequence_with(g5, g6, ParseMode::Strict);
    let g8: Vec<Grammar> = vec![Grammar::keyword("AS"), Grammar::reference("SelectStatementSegment")];
    assert(views(g8@) =~~= seq![GrammarView::Keyword { word: "AS"@ }, GrammarView::Ref { name: "SelectStatementSegment"@, optional: false }]);
    let g9: Vec<Grammar> = Vec::new();
    assert(views(g9@) =~= Seq::<GrammarView>::empty());
    let g10 = Grammar::sequence_with(g8, g9, ParseMode::Strict);
    let g11 = Grammar::keyword("TYPE").optional();
    let g12: Vec<Grammar> = vec![g11, Grammar::keyword("EVOLUTION")];
    assert(views(g12@) =~~= seq![GrammarView::Optional { grammar: Box::new(GrammarView::Keyword { word: "TYPE"@ }) }, GrammarView::Keyword { word: "EVOLUTION"@ }]);
    let g13: Vec<Grammar> = Vec::new();
    assert(views(g13@) =~= Seq::<GrammarView>::empty());
    let g14 = Grammar::sequence_with(g12, g13, ParseMode::Strict);
    let g15: Vec<Grammar> = vec![Grammar::keyword("BINDING"), Grammar::keyword("COMPENSATION"), g14];
    assert(views(g15@) =~~= seq![GrammarView::Keyword { word: "BINDING"@ }, GrammarView::Keyword { word: "COMPENSATION"@ }, GrammarView::Sequence { elements: seq![GrammarView::Optional { grammar: Box::new(GrammarView::Keyword { word: "TYPE"@ }) }, GrammarView::Keyword { word: "EVOLUTION"@ }], terminators: seq![], parse_mode: ParseMode::Strict }]);
    let g16: Vec<Grammar> = Vec::new();
    assert(views(g16@) =~= Seq::<GrammarView>::empty());
    let g17 = Grammar::one_of_with(g15, g16);
    let g18: Vec<Grammar> = vec![Grammar::keyword("WITH"), Grammar::keyword("SCHEMA"), g17];
    assert(views(g18@) =~~= seq![GrammarView::Keyword { word: "WITH"@ }, GrammarView::Keyword { word: "SCHEMA"@ }, GrammarView::OneOf { elements: seq![GrammarView::Keyword { word: "BINDING"@ }, GrammarView::Keyword { word: "COMPENSATION"@ }, GrammarView::Sequence { elements: seq![GrammarView::Optional { grammar: Box::new(GrammarView::Keyword { word: "TYPE"@ }) }, GrammarView::Keyword { word: "EVOLUTION"@ }], terminators: seq![], parse_mode: ParseMode::Strict }], terminators: seq![] }]);
    let g19: Vec<Grammar> = Vec::new();
    assert(views(g19@) =~= Seq::<GrammarView>::empty());
    let g20 = Grammar::sequence_with(g18, g19, ParseMode::Strict);
    let g21: Vec<Grammar> = vec![Grammar::keyword("ADD"), Grammar::keyword("ALTER")];
    assert(views(g21@) =~~= seq![GrammarView::Keyword { word: "ADD"@ }, GrammarView::Keyword { word: "ALTER"@ }]);
    let g22: Vec<Grammar> = Vec::new();
    assert(views(g22@) =~= Seq::<GrammarView>::empty());
    let g23 = Grammar::one_of_with(g21, g22);
    let g24 = Grammar::keyword("REFRESH").optional();
    let g25: Vec<Grammar> = vec![Grammar::keyword("AT"), Grammar::keyword("TIME"), Grammar::keyword("ZONE"), Grammar::reference("QuotedLiteralSegment")];
    assert(views(g25@) =~~= seq![GrammarView::Keyword { word: "AT"@ }, GrammarView::Keyword { word: "TIME"@ }, GrammarView::Keyword { word: "ZONE"@ }, GrammarView::Ref { name: "QuotedLiteralSegment"@, optional: false }]);
    let g26: Vec<Grammar> = Vec::new();
    assert(views(g26@) =~= Seq::<GrammarView>::empty());
    let g27 = Grammar::sequence_with(g25, g26, ParseMode::Strict);
    let g28 = g27.optional();
    let g29: Vec<Grammar> = vec![g23, Grammar::keyword("SCHEDULE"), g24, Grammar::keyword("CRON"), Grammar::reference("QuotedLiteralSegment"), g28];
    assert(views(g29@) =~~= seq![GrammarView::OneOf { elements: seq![GrammarView::Keyword { word: "ADD"@ }, GrammarView::Keyword { word: "ALTER"@ }], terminators: seq![] }, GrammarView::Keyword { word: "SCHEDULE"@ }, GrammarView::Optional { grammar: Box::new(GrammarView::Keyword { word: "REFRESH"@ }) }, GrammarView::Keyword { word: "CRON"@ }, GrammarView::Ref { name: "QuotedLiteralSegment"@, optional: false }, GrammarView::Optional { grammar: Box::new(GrammarView::Sequence { elements: seq![GrammarView::Keyword { word: "AT"@ }, GrammarView::Keyword { word: "TIME"@ }, GrammarView::Keyword { word: "ZONE"@ }, GrammarView::Ref { name: "QuotedLiteralSegment"@, optional: false }], terminators: seq![], parse_mode: ParseMode::Strict }) }]);
    let g30: Vec<Grammar> = Vec::new();
    assert(views(g30@) =~= Seq::<GrammarView>::empty());
    let g31 = Grammar::sequence_with(g29, g30, ParseMode::Strict);
    let g32: Vec<Grammar> = vec![Grammar::keyword("DROP"), Grammar::keyword("SCHEDULE")];
    assert(views(g32@) =~~= seq![GrammarView::Keyword { word: "DROP"@ }, GrammarView::Keyword { word: "SCHEDULE"@ }]);
    let g33: Vec<Grammar> = Vec::new();
    assert(views(g33@) =~= Seq::<GrammarView>::empty());
    let g34 = Grammar::sequence_with(g32, g33, ParseMode::Strict);
    let g35: Vec<Grammar> = vec![g31, g34];
    assert(views(g35@) =~~= seq![GrammarView::Sequence { elements: seq![GrammarView::OneOf { elements: seq![GrammarView::Keyword { word: "ADD"@ }, GrammarView::Keyword { word: "ALTER"@ }], terminators: seq![] }, GrammarView::Keyword { word: "SCHEDULE"@ }, GrammarView::Optional { grammar: Box::new(GrammarView::Keyword { word: "REFRESH"@ }) }, GrammarView::Keyword { word: "CRON"@ }, GrammarView::Ref { name: "QuotedLiteralSegment"@, optional: false }, GrammarView::Optional { grammar: Box::new(GrammarView::Sequence { elements: seq![GrammarView::Keyword { word: "AT"@ }, GrammarView::Keyword { word: "TIME"@ }, GrammarView::Keyword { word: "ZONE"@ }, GrammarView::Ref { name: "QuotedLiteralSegment"@, optional: false }], terminators: seq![], parse_mode: ParseMode::Strict }) }], terminators: seq![], parse_mode: ParseMode::Strict }, GrammarView::Sequence { elements: seq![GrammarView::Keyword { word: "DROP"@ }, GrammarView::Keyword { word: "SCHEDULE"@ }], terminators: seq![], parse_mode: ParseMode::Strict }]);
    let g36: Vec<Grammar> = Vec::new();
    assert(views(g36@) =~= Seq::<GrammarView>::empty());
    let g37 = Grammar::one_of_with(g35, g36);
    let g38: Vec<Grammar> = vec![Grammar::indent(), g37, Grammar::dedent()];
    assert(views(g38@) =~~= seq![GrammarView::Indent, GrammarView::OneOf { elements: seq![GrammarView::Sequence { elements: seq![GrammarView::OneOf { elements: seq![GrammarView::Keyword { word: "ADD"@ }, GrammarView::Keyword { word: "ALTER"@ }], terminators: seq![] }, GrammarView::Keyword { word: "SCHEDULE"@ }, GrammarView::Optional { grammar: Box::new(GrammarView::Keyword { word: "REFRESH"@ }) }, GrammarView::Keyword { word: "CRON"@ }, GrammarView::Ref { name: "QuotedLiteralSegment"@, optional: false }, GrammarView::Optional { grammar: Box::new(GrammarView::Sequence { elements: seq![GrammarView::Keyword { word: "AT"@ }, GrammarView::Keyword { word: "TIME"@ }, GrammarView::Keyword { word: "ZONE"@ }, GrammarView::Ref { name: "QuotedLiteralSegment"@, optional: false }], terminators: seq![], parse_mode: ParseMode::Strict }) }], terminators: seq![], parse_mode: ParseMode::Strict }, GrammarView::Sequence { elements: seq![GrammarView::Keyword { word: "DROP"@ }, GrammarView::Keyword { word: "SCHEDULE"@ }], terminators: seq![], parse_mode: ParseMode::Strict }], terminators: seq![] }, GrammarView::Dedent]);
    let g39: Vec<Grammar> = Vec::new();
    assert(views(g39@) =~= Seq::<GrammarView>::empty());
    let g40 = Grammar::sequence_with(g38, g39, ParseMode::Strict);
    let g41: Vec<Grammar> = vec![g4, g7, Grammar::reference("UnsetTablePropertiesGrammar"), g10, g20, Grammar::reference("SetOwnerGrammar"), Grammar::reference("SetTagsGrammar"), Grammar::reference("UnsetTagsGrammar"), g40];
    assert(views(g41@) =~~= seq![GrammarView::Sequence { elements: seq![GrammarView::Keyword { word: "RENAME"@ }, GrammarView::Keyword { word: "TO"@ }, GrammarView::Ref { name: "TableReferenceSegment"@, optional: false }], terminators: seq![], parse_mode: ParseMode::Strict }, GrammarView::Sequence { elements: seq![GrammarView::Keyword { word: "SET"@ }, GrammarView::Ref { name: "TablePropertiesGrammar"@, optional: false }], terminators: seq![], parse_mode: ParseMode::Strict }, GrammarView::Ref { name: "UnsetTablePropertiesGrammar"@, optional: false }, GrammarView::Sequence { elements: seq![GrammarView::Keyword { word: "AS"@ }, GrammarView::Ref { name: "SelectStatementSegment"@, optional: false }], terminators: seq![], parse_mode: ParseMode::Strict }, GrammarView::Sequence { elements: seq![GrammarView::Keyword { word: "WITH"@ }, GrammarView::Keyword { word: "SCHEMA"@ }, GrammarView::OneOf { elements: seq![GrammarView::Keyword { word: "BINDING"@ }, GrammarView::Keyword { word: "COMPENSATION"@ }, GrammarView::Sequence { elements: seq![GrammarView::Optional { grammar: Box::new(GrammarView::Keyword { word: "TYPE"@ }) }, GrammarView::Keyword { word: "EVOLUTION"@ }], terminators: seq![], parse_mode: ParseMode::Strict }], terminators: seq![] }], terminators: seq![], parse_mode: ParseMode::Strict }, GrammarView::Ref { name: "SetOwnerGrammar"@, optional: false }, GrammarView::Ref { name: "SetTagsGrammar"@, optional: false }, GrammarView::Ref { name: "UnsetTagsGrammar"@, optional: false }, GrammarView::Sequence { elements: seq![GrammarView::Indent, GrammarView::OneOf { elements: seq![GrammarView::Sequence { elements: seq![GrammarView::OneOf { elements: seq![GrammarView::Keyword { word: "ADD"@ }, GrammarView::Keyword { word: "ALTER"@ }], terminators: seq![] }, GrammarView::Keyword { word: "SCHEDULE"@ }, GrammarView::Optional { grammar: Box::new(GrammarView::Keyword { word: "REFRESH"@ }) }, GrammarView::Keyword { word: "CRON"@ }, GrammarView::Ref { name: "QuotedLiteralSegment"@, optional: false }, GrammarView::Optional { grammar: Box::new(GrammarView::Sequence { elements: seq![GrammarView::Keyword { word: "AT"@ }, GrammarView::Keyword { word: "TIME"@ }, GrammarView::Keyword { word: "ZONE"@ }, GrammarView::Ref { name: "QuotedLiteralSegment"@, optional: false }], terminators: seq![], parse_mode: ParseMode::Strict }) }], terminators: seq![], parse_mode: ParseMode::Strict }, GrammarView::Sequence { elements: seq![GrammarView::Keyword { word: "DROP"@ }, GrammarView::Keyword { word: "SCHEDULE"@ }], terminators: seq![], parse_mode: ParseMode::Strict }], terminators: seq![] }, GrammarView::Dedent], terminators: seq![], parse_mode: ParseMode::Strict }]);
    let g42: Vec<Grammar> = Vec::new();
    assert(views(g42@) =~= Seq::<GrammarView>::empty());
    let g43 = Grammar::one_of_with(g41, g42);
    let g44: Vec<Grammar> = vec![Grammar::keyword("ALTER"), g1, Grammar::keyword("VIEW"), Grammar::reference("TableReferenceSegment"), g43];
    assert(views(g44@) =~~= seq![GrammarView::Keyword { word: "ALTER"@ }, GrammarView::Optional { grammar: Box::new(GrammarView::Keyword { word: "MATERIALIZED"@ }) }, GrammarView::Keyword { word: "VIEW"@ }, GrammarView::Ref { name: "TableReferenceSegment"@, optional: false }, GrammarView::OneOf { elements: seq![GrammarView::Sequence { elements: seq![GrammarView::Keyword { word: "RENAME"@ }, GrammarView::Keyword { word: "TO"@ }, GrammarView::Ref { name: "TableReferenceSegment"@, optional: false }], terminators: seq![], parse_mode: ParseMode::Strict }, GrammarView::Sequence { elements: seq![GrammarView::Keyword { word: "SET"@ }, GrammarView::Ref { name: "TablePropertiesGrammar"@, optional: false }], terminators: seq![], parse_mode: ParseMode::Strict }, GrammarView::Ref { name: "UnsetTablePropertiesGrammar"@, optional: false }, GrammarView::Sequence { elements: seq![GrammarView::Keyword { word: "AS"@ }, GrammarView::Ref { name: "SelectStatementSegment"@, optional: false }], terminators: seq![], parse_mode: ParseMode::Strict }, GrammarView::Sequence { elements: seq![GrammarView::Keyword { word: "WITH"@ }, GrammarView::Keyword { word: "SCHEMA"@ }, GrammarView::OneOf { elements: seq![GrammarView::Keyword { word: "BINDING"@ }, GrammarView::Keyword { word: "COMPENSATION"@ }, GrammarView::Sequence { elements: seq![GrammarView::Optional { grammar: Box::new(GrammarView::Keyword { word: "TYPE"@ }) }, GrammarView::Keyword { word: "EVOLUTION"@ }], terminators: seq![], parse_mode: ParseMode::Strict }], terminators: seq![] }], terminators: seq![], parse_mode: ParseMode::Strict }, GrammarView::Ref { name: "SetOwnerGrammar"@, optional: false }, GrammarView::Ref { name: "SetTagsGrammar"@, optional: false }, GrammarView::Ref { name: "UnsetTagsGrammar"@, optional: false }, GrammarView::Sequence { elements: seq![GrammarView::Indent, GrammarView::OneOf { elements: seq![GrammarView::Sequence { elements: seq![GrammarView::OneOf { elements: seq![GrammarView::Keyword { word: "ADD"@ }, GrammarView::Keyword { word: "ALTER"@ }], terminators: seq![] }, GrammarView::Keyword { word: "SCHEDULE"@ }, GrammarView::Optional { grammar: Box::new(GrammarView::Keyword { word: "REFRESH"@ }) }, GrammarView::Keyword { word: "CRON"@ }, GrammarView::Ref { name: "QuotedLiteralSegment"@, optional: false }, GrammarView::Optional { grammar: Box::new(GrammarView::Sequence { elements: seq![GrammarView::Keyword { word: "AT"@ }, GrammarView::Keyword { word: "TIME"@ }, GrammarView::Keyword { word: "ZONE"@ }, GrammarView::Ref { name: "QuotedLiteralSegment"@, optional: false }], terminators: seq![], parse_mode: ParseMode::Strict }) }], terminators: seq![], parse_mode: ParseMode::Strict }, GrammarView::Sequence { elements: seq![GrammarView::Keyword { word: "DROP"@ }, GrammarView::Keyword { word: "SCHEDULE"@ }], terminators: seq![], parse_mode: ParseMode::Strict }], terminators: seq![] }, GrammarView::Dedent], terminators: seq![], parse_mode: ParseMode::Strict }], terminators: seq![] }]);
    let g45: Vec<Grammar> = Vec::new();
    assert(views(g45@) =~= Seq::<GrammarView>::empty());
    let g46 = Grammar::sequence_with(g44, g45, ParseMode::Strict);
    g46
}

/// The Databricks grammar of `ObjectReferenceSegment`.
pub open spec fn object_reference_segment_grammar() -> GrammarView {
    GrammarView::Delimited { elements: seq![GrammarView::OneOf { elements: seq![GrammarView::Ref { name: "SingleIdentifierGrammar"@, optional: false }, GrammarView::Ref { name: "IdentifierClauseSegment"@, optional: false }], terminators: seq![] }, GrammarView::Ref { name: "ObjectReferenceDelimiterGrammar"@, optional: false }], allow_trailing: false, delimiter: Some(Box::new(GrammarView::Ref { name: "ObjectReferenceDelimiterGrammar"@, optional: false })), terminators: seq![GrammarView::Ref { name: "ObjectReferenceTerminatorGrammar"@, optional: false }], allow_gaps: false }
}

fn build_object_reference_segment() -> (g: Grammar)
    ensures
        g@ =~~= object_reference_segment_grammar(),
{
    let g1: Vec<Grammar> = vec![Grammar::reference("SingleIdentifierGrammar"), Grammar::reference("IdentifierClauseSegment")];
    assert(views(g1@) =~~= seq![GrammarView::Ref { name: "SingleIdentifierGrammar"@, optional: false }, GrammarView::Ref { name: "IdentifierClauseSegment"@, optional: false }]);
    let g2: Vec<Grammar> = Vec::new();
    assert(views(g2@) =~= Seq::<GrammarView>::empty());
    let g3 = Grammar::one_of_with(g1, g2);
    let g4: Vec<Grammar> = vec![g3, Grammar::reference("ObjectReferenceDelimiterGrammar")];
    assert(views(g4@) =~~= seq![GrammarView::OneOf { elements: seq![GrammarView::Ref { name: "SingleIdentifierGrammar"@, optional: false }, GrammarView::Ref { name: "IdentifierClauseSegment"@, optional: false }], terminators: seq![] }, GrammarView::Ref { name: "ObjectReferenceDelimiterGrammar"@, optional: false }]);
    let g5: Vec<Grammar> = vec![Grammar::reference("ObjectReferenceTerminatorGrammar")];
    assert(views(g5@) =~~= seq![GrammarView::Ref { name: "ObjectReferenceTerminatorGrammar"@, optional: false }]);
    let g6 = Grammar::delimited_with(g4, false, Some(Grammar::reference("ObjectReferenceDelimiterGrammar")), g5, false);
    g6
}

/// The Databricks grammar of `GroupByClauseSegment`.
pub open spec fn group_by_clause_segment_grammar() -> GrammarView {
    GrammarView::Sequence { elements: seq![GrammarView::Keyword { word: "GROUP"@ }, GrammarView::Keyword { word: "BY"@ }, GrammarView::Indent, GrammarView::OneOf { elements: seq![GrammarView::Keyword { word: "ALL"@ }, GrammarView::Delimited { elements: seq![GrammarView::Ref { name: "CubeRollupClauseSegment"@, optional: false }, GrammarView::Ref { name: "GroupingSetsClauseSegment"@, optional: false }, GrammarView::Ref { name: "ColumnReferenceSegment"@, optional: false }, GrammarView::Ref { name: "NumericLiteralSegment"@, optional: true }, GrammarView::Ref { name: "ExpressionSegment"@, optional: true }], allow_trailing: false, delimiter: None, terminators: seq![], allow_gaps: true }, GrammarView::Sequence { elements: seq![GrammarView::Delimited { elements: seq![GrammarView::Ref { name: "ColumnReferenceSegment"@, optional: false }, GrammarView::Ref { name: "NumericLiteralSegment"@, optional: true }, GrammarView::Ref { name: "ExpressionSegment"@, optional: true }], allow_trailing: false, delimiter: None, terminators: seq![], allow_gaps: true }, GrammarView::OneOf { elements: seq![GrammarView::Ref { name: "WithCubeRollupClauseSegment"@, optional: false }, GrammarView::Ref { name: "GroupingSetsClauseSegment"@, optional: false }], terminators: seq![] }], terminators: seq![], parse_mode: ParseMode::Strict }], terminators: seq![] }, GrammarView::Dedent], terminators: seq![], parse_mode: ParseMode::Strict }
}

fn build_group_by_clause_segment() -> (g: Grammar)
    ensures
        g@ =~~= group_by_clause_segment_grammar(),
{
    let g1: Vec<Grammar> = vec![Grammar::reference("CubeRollupClauseSegment"), Grammar::reference("GroupingSetsClauseSegment"), Grammar::reference("ColumnReferenceSegment"), Grammar::optional_reference("NumericLiteralSegment"), Grammar::optional_reference("ExpressionSegment")];
    assert(views(g1@) =~~= seq![GrammarView::Ref { name: "CubeRollupClauseSegment"@, optional: false }, GrammarView::Ref { name: "GroupingSetsClauseSegment"@, optional: false }, GrammarView::Ref { name: "ColumnReferenceSegment"@, optional: false }, GrammarView::Ref { name: "NumericLiteralSegment"@, optional: true }, GrammarView::Ref { name: "ExpressionSegment"@, optional: true }]);
    let g2: Vec<Grammar> = Vec::new();
    assert(views(g2@) =~= Seq::<GrammarView>::empty());
    let g3 = Grammar::delimited_with(g1, false, None, g2, true);
    let g4: Vec<Grammar> = vec![Grammar::reference("ColumnReferenceSegment"), Grammar::optional_reference("NumericLiteralSegment"), Grammar::optional_reference("ExpressionSegment")];
    assert(views(g4@) =~~= seq![GrammarView::Ref { name: "ColumnReferenceSegment"@, optional: false }, GrammarView::Ref { name: "NumericLiteralSegment"@, optional: true }, GrammarView::Ref { name: "ExpressionSegment"@, optional: true }]);
    let g5: Vec<Grammar> = Vec::new();
    assert(views(g5@) =~= Seq::<GrammarView>::empty());
    let g6 = Grammar::delimited_with(g4, false, None, g5, true);
    let g7: Vec<Grammar> = vec![Grammar::reference("WithCubeRollupClauseSegment"), Grammar::reference("GroupingSetsClauseSegment")];
    assert(views(g7@) =~~= seq![GrammarView::Ref { name: "WithCubeRollupClauseSegment"@, optional: false }, GrammarView::Ref { name: "GroupingSetsClauseSegment"@, optional: false }]);
    let g8: Vec<Grammar> = Vec::new();
    assert(views(g8@) =~= Seq::<GrammarView>::empty());
    let g9 = Grammar::one_of_with(g7, g8);
    let g10: Vec<Grammar> = vec![g6, g9];
    assert(views(g10@) =~~= seq![GrammarView::Delimited { elements: seq![GrammarView::Ref { name: "ColumnReferenceSegment"@, optional: false }, GrammarView::Ref { name: "NumericLiteralSegment"@, optional: true }, GrammarView::Ref { name: "ExpressionSegment"@, optional: true }], allow_trailing: false, delimiter: None, terminators: seq![], allow_gaps: true }, GrammarView::OneOf { elements: seq![GrammarView::Ref { name: "WithCubeRollupClauseSegment"@, optional: false }, GrammarView::Ref { name: "GroupingSetsClauseSegment"@, optional: false }], terminators: seq![] }]);
    let g11: Vec<Grammar> = Vec::new();
    assert(views(g11@) =~= Seq::<GrammarView>::empty());
    let g12 = Grammar::sequence_with(g10, g11, ParseMode::Strict);
    let g13: Vec<Grammar> = vec![Grammar::keyword("ALL"), g3, g12];
    assert(views(g13@) =~~= seq![GrammarView::Keyword { word: "ALL"@ }, GrammarView::Delimited { elements: seq![GrammarView::Ref { name: "CubeRollupClauseSegment"@, optional: false }, GrammarView::Ref { name: "GroupingSetsClauseSegment"@, optional: false }, GrammarView::Ref { name: "ColumnReferenceSegment"@, optional: false }, GrammarView::Ref { name: "NumericLiteralSegment"@, optional: true }, GrammarView::Ref { name: "ExpressionSegment"@, optional: true }], allow_trailing: false, delimiter: None, terminators: seq![], allow_gaps: true }, GrammarView::Sequence { elements: seq![GrammarView::Delimited { elements: seq![GrammarView::Ref { name: "ColumnReferenceSegment"@, optional: false }, GrammarView::Ref { name: "NumericLiteralSegment"@, optional: true }, GrammarView::Ref { name: "ExpressionSegment"@, optional: true }], allow_trailing: false, delimiter: None, terminators: seq![], allow_gaps: true }, GrammarView::OneOf { elements: seq![GrammarView::Ref { name: "WithCubeRollupClauseSegment"@, optional: false }, GrammarView::Ref { name: "GroupingSetsClauseSegment"@, optional: false }], terminators: seq![] }], terminators: seq![], parse_mode: ParseMode::Strict }]);
    let g14: Vec<Grammar> = Vec::new();
    assert(views(g14@) =~= Seq::<GrammarView>::empty());
    let g15 = Grammar::one_of_with(g13, g14);
    let g16: Vec<Grammar> = vec![Grammar::keyword("GROUP"), Grammar::keyword("BY"), Grammar::indent(), g15, Grammar::dedent()];
    assert(views(g16@) =~~= seq![GrammarView::Keyword { word: "GROUP"@ }, GrammarView::Keyword { word: "BY"@ }, GrammarView::Indent, GrammarView::OneOf { elements: seq![GrammarView::Keyword { word: "ALL"@ }, GrammarView::Delimited { elements: seq![GrammarView::Ref { name: "CubeRollupClauseSegment"@, optional: false }, GrammarView::Ref { name: "GroupingSetsClauseSegment"@, optional: false }, GrammarView::Ref { name: "ColumnReferenceSegment"@, optional: false }, GrammarView::Ref { name: "NumericLiteralSegment"@, optional: true }, GrammarView::Ref { name: "ExpressionSegment"@, optional: true }], allow_trailing: false, delimiter: None, terminators: seq![], allow_gaps: true }, GrammarView::Sequence { elements: seq![GrammarView::Delimited { elements: seq![GrammarView::Ref { name: "ColumnReferenceSegment"@, optional: false }, GrammarView::Ref { name: "NumericLiteralSegment"@, optional: true }, GrammarView::Ref { name: "ExpressionSegment"@, optional: true }], allow_trailing: false, delimiter: None, terminators: seq![], allow_gaps: true }, GrammarView::OneOf { elements: seq![GrammarView::Ref { name: "WithCubeRollupClauseSegment"@, optional: false }, GrammarView::Ref { name: "GroupingSetsClauseSegment"@, optional: false }], terminators: seq![] }], terminators: seq![], parse_mode: ParseMode::Strict }], terminators: seq![] }, GrammarView::Dedent]);
    let g17: Vec<Grammar> = Vec::new();
    assert(views(g17@) =~= Seq::<GrammarView>::empty());
    let g18 = Grammar::sequence_with(g16, g17, ParseMode::Strict);
    g18
}

/// Changes 1 to 20 of the Databricks grammar changes.
pub open spec fn databricks_changes_part_0(d: DialectView) -> DialectView {
    let d = d.with_element("DoubleQuotedUDFBody"@, double_quoted_u_d_f_body_element());
    let d = d.with_element("SingleQuotedUDFBody"@, single_quoted_u_d_f_body_element());
    let d = d.with_element("DollarQuotedUDFBody"@, dollar_quoted_u_d_f_body_element());
    let d = d.with_element("RightArrowSegment"@, right_arrow_segment_element());
    let d = d.with_element("NamedArgumentSegment"@, named_argument_segment_element());
    let d = d.with_element("FunctionParameterListGrammarWithComments"@, function_parameter_list_grammar_with_comments_element());
    let d = d.with_element("DatabricksFunctionDefinitionGrammar"@, databricks_function_definition_grammar_element());
    let d = d.with_element("CreateDatabricksFunctionStatementSegment"@, create_databricks_function_statement_segment_element());
    let d = d.with_element("PrincipalIdentifierSegment"@, principal_identifier_segment_element());
    let d = d.with_element("SetOwnerGrammar"@, set_owner_grammar_element());
    let d = d.with_element("PredictiveOptimizationGrammar"@, predictive_optimization_grammar_element());
    let d = d.with_element("SetTagsGrammar"@, set_tags_grammar_element());
    let d = d.with_element("UnsetTagsGrammar"@, unset_tags_grammar_element());
    let d = d.with_element("ColumnDefaultGrammar"@, column_default_grammar_element());
    let d = d.with_element("ConstraintOptionGrammar"@, constraint_option_grammar_element());
    let d = d.with_element("ForeignKeyOptionGrammar"@, foreign_key_option_grammar_element());
    let d = d.with_element("DropConstraintGrammar"@, drop_constraint_grammar_element());
    let d = d.with_element("AlterPartitionGrammar"@, alter_partition_grammar_element());
    let d = d.with_element("RowFilterClauseGrammar"@, row_filter_clause_grammar_element());
    let d = d.with_element("PropertiesBackTickedIdentifierSegment"@, properties_back_ticked_identifier_segment_element());
    d
}

fn apply_databricks_changes_part_0(d: &mut DialectModel)
    ensures
        final(d)@ == databricks_changes_part_0(old(d)@),
{
    d.add("DoubleQuotedUDFBody", build_double_quoted_u_d_f_body());
    d.add("SingleQuotedUDFBody", build_single_quoted_u_d_f_body());
    d.add("DollarQuotedUDFBody", build_dollar_quoted_u_d_f_body());
    d.add("RightArrowSegment", build_right_arrow_segment());
    d.add("NamedArgumentSegment", build_named_argument_segment());
    d.add("FunctionParameterListGrammarWithComments", build_function_parameter_list_grammar_with_comments());
    d.add("DatabricksFunctionDefinitionGrammar", build_databricks_function_definition_grammar());
    d.add("CreateDatabricksFunctionStatementSegment", build_create_databricks_function_statement_segment());
    d.add("PrincipalIdentifierSegment", build_principal_identifier_segment());
    d.add("SetOwnerGrammar", build_set_owner_grammar());
    d.add("PredictiveOptimizationGrammar", build_predictive_optimization_grammar());
    d.add("SetTagsGrammar", build_set_tags_grammar());
    d.add("UnsetTagsGrammar", build_unset_tags_grammar());
    d.add("ColumnDefaultGrammar", build_column_default_grammar());
    d.add("ConstraintOptionGrammar", build_constraint_option_grammar());
    d.add("ForeignKeyOptionGrammar", build_foreign_key_option_grammar());
    d.add("DropConstraintGrammar", build_drop_constraint_grammar());
    d.add("AlterPartitionGrammar", build_alter_partition_grammar());
    d.add("RowFilterClauseGrammar", build_row_filter_clause_grammar());
    d.add("PropertiesBackTickedIdentifierSegment", build_properties_back_ticked_identifier_segment());
}

/// Changes 21 to 40 of the Databricks grammar changes.
pub open spec fn databricks_changes_part_1(d: DialectView) -> DialectView {
    let d = d.with_element("MaskStatementSegment"@, mask_statement_segment_element());
    let d = d.with_element("CatalogReferenceSegment"@, catalog_reference_segment_element());
    let d = d.with_element("AlterCatalogStatementSegment"@, alter_catalog_statement_segment_element());
    let d = d.with_element("CreateCatalogStatementSegment"@, create_catalog_statement_segment_element());
    let d = d.with_element("DropCatalogStatementSegment"@, drop_catalog_statement_segment_element());
    let d = d.with_element("UseCatalogStatementSegment"@, use_catalog_statement_segment_element());
    let d = d.with_element("UseDatabaseStatementSegment"@, use_database_statement_segment_element());
    let d = d.with_element("SetTimeZoneStatementSegment"@, set_time_zone_statement_segment_element());
    let d = d.with_element("OptimizeTableStatementSegment"@, optimize_table_statement_segment_element());
    let d = d.with_element("DatabaseReferenceSegment"@, database_reference_segment_element());
    let d = d.with_element("TableReferenceSegment"@, table_reference_segment_element());
    let d = d.with_element("SchemaReferenceSegment"@, schema_reference_segment_element());
    let d = d.with_element("IdentifierClauseSegment"@, identifier_clause_segment_element());
    let d = d.with_element("AlterVolumeStatementSegment"@, alter_volume_statement_segment_element());
    let d = d.with_element("CreateVolumeStatementSegment"@, create_volume_statement_segment_element());
    let d = d.with_element("DropVolumeStatementSegment"@, drop_volume_statement_segment_element());
    let d = d.with_element("VolumeReferenceSegment"@, volume_reference_segment_element());
    let d = d.with_element("DeclareOrReplaceVariableStatementSegment"@, declare_or_replace_variable_statement_segment_element());
    let d = d.with_element("CommentOnStatementSegment"@, comment_on_statement_segment_element());
    let d = d.with_element("ShowDatabasesSchemasGrammar"@, show_databases_schemas_grammar_element());
    d
}

fn apply_databricks_changes_part_1(d: &mut DialectModel)
    ensures
        final(d)@ == databricks_changes_part_1(old(d)@),
{
    d.add("MaskStatementSegment", build_mask_statement_segment());
    d.add("CatalogReferenceSegment", build_catalog_reference_segment());
    d.add("AlterCatalogStatementSegment", build_alter_catalog_statement_segment());
    d.add("CreateCatalogStatementSegment", build_create_catalog_statement_segment());
    d.add("DropCatalogStatementSegment", build_drop_catalog_statement_segment());
    d.add("UseCatalogStatementSegment", build_use_catalog_statement_segment());
    d.add("UseDatabaseStatementSegment", build_use_database_statement_segment());
    d.add("SetTimeZoneStatementSegment", build_set_time_zone_statement_segment());
    d.add("OptimizeTableStatementSegment", build_optimize_table_statement_segment());
    d.add("DatabaseReferenceSegment", build_database_reference_segment());
    d.add("TableReferenceSegment", build_table_reference_segment());
    d.add("SchemaReferenceSegment", build_schema_reference_segment());
    d.add("IdentifierClauseSegment", build_identifier_clause_segment());
    d.add("AlterVolumeStatementSegment", build_alter_volume_statement_segment());
    d.add("CreateVolumeStatementSegment", build_create_volume_statement_segment());
    d.add("DropVolumeStatementSegment", build_drop_volume_statement_segment());
    d.add("VolumeReferenceSegment", build_volume_reference_segment());
    d.add("DeclareOrReplaceVariableStatementSegment", build_declare_or_replace_variable_statement_segment());
    d.add("CommentOnStatementSegment", build_comment_on_statement_segment());
    d.add("ShowDatabasesSchemasGrammar", build_show_databases_schemas_grammar());
}

/// Changes 41 to 55 of the Databricks grammar changes.
pub open spec fn databricks_changes_part_2(d: DialectView) -> DialectView {
    let d = d.with_element("ShowFunctionsGrammar"@, show_functions_grammar_element());
    let d = d.with_element("ShowTablesGrammar"@, show_tables_grammar_element());
    let d = d.with_element("ShowViewsGrammar"@, show_views_grammar_element());
    let d = d.with_element("InsertBracketedColumnReferenceListGrammar"@, insert_bracketed_column_reference_list_grammar_element());
    let d = d.with_grammar("GeneratedColumnDefinitionSegment"@, generated_column_definition_segment_grammar());
    let d = d.with_grammar("FunctionContentsExpressionGrammar"@, function_contents_expression_grammar_grammar());
    let d = d.with_grammar("PropertiesNakedIdentifierSegment"@, properties_naked_identifier_segment_grammar());
    let d = d.with_grammar("PropertyNameSegment"@, property_name_segment_grammar());
    let d = d.with_grammar("TableConstraintSegment"@, table_constraint_segment_grammar());
    let d = d.with_grammar("AlterDatabaseStatementSegment"@, alter_database_statement_segment_grammar());
    let d = d.with_grammar("CreateDatabaseStatementSegment"@, create_database_statement_segment_grammar());
    let d = d.with_grammar("AlterTableStatementSegment"@, alter_table_statement_segment_grammar());
    let d = d.with_grammar("AlterViewStatementSegment"@, alter_view_statement_segment_grammar());
    let d = d.with_grammar("ObjectReferenceSegment"@, object_reference_segment_grammar());
    let d = d.with_grammar("GroupByClauseSegment"@, group_by_clause_segment_grammar());
    d
}

fn apply_databricks_changes_part_2(d: &mut DialectModel)
    ensures
        final(d)@ == databricks_changes_part_2(old(d)@),
{
    d.add("ShowFunctionsGrammar", build_show_functions_grammar());
    d.add("ShowTablesGrammar", build_show_tables_grammar());
    d.add("ShowViewsGrammar", build_show_views_grammar());
    d.add("InsertBracketedColumnReferenceListGrammar", build_insert_bracketed_column_reference_list_grammar());
    d.replace_grammar("GeneratedColumnDefinitionSegment", build_generated_column_definition_segment());
    d.replace_grammar("FunctionContentsExpressionGrammar", build_function_contents_expression_grammar());
    d.replace_grammar("PropertiesNakedIdentifierSegment", build_properties_naked_identifier_segment());
    d.replace_grammar("PropertyNameSegment", build_property_name_segment());
    d.replace_grammar("TableConstraintSegment", build_table_constraint_segment());
    d.replace_grammar("AlterDatabaseStatementSegment", build_alter_database_statement_segment());
    d.replace_grammar("CreateDatabaseStatementSegment", build_create_database_statement_segment());
    d.replace_grammar("AlterTableStatementSegment", build_alter_table_statement_segment());
    d.replace_grammar("AlterViewStatementSegment", build_alter_view_statement_segment());
    d.replace_grammar("ObjectReferenceSegment", build_object_reference_segment());
    d.replace_grammar("GroupByClauseSegment", build_group_by_clause_segment());
}

/// The Databricks grammar changes, in order (opaque: `reveal(databricks_grammar_changes)` shows its parts).
#[verifier::opaque]
pub open spec fn databricks_grammar_changes(d: DialectView) -> DialectView {
    databricks_changes_part_2(databricks_changes_part_1(databricks_changes_part_0(d)))
}

/// Applies the Databricks grammar changes to `d`.
pub fn apply_databricks_grammar_changes(d: &mut DialectModel)
    ensures
        final(d)@ == databricks_grammar_changes(old(d)@),
{
    apply_databricks_changes_part_0(d);
    apply_databricks_changes_part_1(d);
    apply_databricks_changes_part_2(d);
    proof {
        reveal(databricks_grammar_changes);
    }
}

proof fn lemma_databricks_part_1_sets_use_catalog_statement_segment(d: DialectView)
    ensures
        databricks_changes_part_1(d).element("UseCatalogStatementSegment"@) == Some(use_catalog_statement_segment_element()),
{
    reveal_strlit("UseCatalogStatementSegment");
    reveal_strlit("AlterVolumeStatementSegment");
    assert("UseCatalogStatementSegment"@.len() != "AlterVolumeStatementSegment"@.len());
    reveal_strlit("CommentOnStatementSegment");
    assert("UseCatalogStatementSegment"@.len() != "CommentOnStatementSegment"@.len());
    reveal_strlit("CreateVolumeStatementSegment");
    assert("UseCatalogStatementSegment"@.len() != "CreateVolumeStatementSegment"@.len());
    reveal_strlit("DatabaseReferenceSegment");
    assert("UseCatalogStatementSegment"@.len() != "DatabaseReferenceSegment"@.len());
    reveal_strlit("DeclareOrReplaceVariableStatementSegment");
    assert("UseCatalogStatementSegment"@.len() != "DeclareOrReplaceVariableStatementSegment"@.len());
    reveal_strlit("DropVolumeStatementSegment");
    assert("UseCatalogStatementSegment"@[0] != "DropVolumeStatementSegment"@[0]);
    reveal_strlit("IdentifierClauseSegment");
    assert("UseCatalogStatementSegment"@.len() != "IdentifierClauseSegment"@.len());
    reveal_strlit("OptimizeTableStatementSegment");
    assert("UseCatalogStatementSegment"@.len() != "OptimizeTableStatementSegment"@.len());
    reveal_strlit("SchemaReferenceSegment");
    assert("UseCatalogStatementSegment"@.len() != "SchemaReferenceSegment"@.len());
    reveal_strlit("SetTimeZoneStatementSegment");
    assert("UseCatalogStatementSegment"@.len() != "SetTimeZoneStatementSegment"@.len());
    reveal_strlit("ShowDatabasesSchemasGrammar");
    assert("UseCatalogStatementSegment"@.len() != "ShowDatabasesSchemasGrammar"@.len());
    reveal_strlit("TableReferenceSegment");
    assert("UseCatalogStatementSegment"@.len() != "TableReferenceSegment"@.len());
    reveal_strlit("UseDatabaseStatementSegment");
    assert("UseCatalogStatementSegment"@.len() != "UseDatabaseStatementSegment"@.len());
    reveal_strlit("VolumeReferenceSegment");
    assert("UseCatalogStatementSegment"@.len() != "VolumeReferenceSegment"@.len());
}

proof fn lemma_databricks_part_2_keeps_use_catalog_statement_segment(d: DialectView)
    ensures
        databricks_changes_part_2(d).element("UseCatalogStatementSegment"@) == d.element("UseCatalogStatementSegment"@),
{
    reveal_strlit("UseCatalogStatementSegment");
    reveal_strlit("AlterDatabaseStatementSegment");
    assert("UseCatalogStatementSegment"@.len() != "AlterDatabaseStatementSegment"@.len());
    reveal_strlit("AlterTableStatementSegment");
    assert("UseCatalogStatementSegment"@[0] != "AlterTableStatementSegment"@[0]);
    reveal_strlit("AlterViewStatementSegment");
    assert("UseCatalogStatementSegment"@.len() != "AlterViewStatementSegment"@.len());
    reveal_strlit("CreateDatabaseStatementSegment");
    assert("UseCatalogStatementSegment"@.len() != "CreateDatabaseStatementSegment"@.len());
    reveal_strlit("FunctionContentsExpressionGrammar");
    assert("UseCatalogStatementSegment"@.len() != "FunctionContentsExpressionGrammar"@.len());
    reveal_strlit("GeneratedColumnDefinitionSegment");
    assert("UseCatalogStatementSegment"@.len() != "GeneratedColumnDefinitionSegment"@.len());
    reveal_strlit("GroupByClauseSegment");
    assert("UseCatalogStatementSegment"@.len() != "GroupByClauseSegment"@.len());
    reveal_strlit("InsertBracketedColumnReferenceListGrammar");
    assert("UseCatalogStatementSegment"@.len() != "InsertBracketedColumnReferenceListGrammar"@.len());
    reveal_strlit("ObjectReferenceSegment");
    assert("UseCatalogStatementSegment"@.len() != "ObjectReferenceSegment"@.len());
    reveal_strlit("PropertiesNakedIdentifierSegment");
    assert("UseCatalogStatementSegment"@.len() != "PropertiesNakedIdentifierSegment"@.len());
    reveal_strlit("PropertyNameSegment");
    assert("UseCatalogStatementSegment"@.len() != "PropertyNameSegment"@.len());
    reveal_strlit("ShowFunctionsGrammar");
    assert("UseCatalogStatementSegment"@.len() != "ShowFunctionsGrammar"@.len());
    reveal_strlit("ShowTablesGrammar");
    assert("UseCatalogStatementSegment"@.len() != "ShowTablesGrammar"@.len());
    reveal_strlit("ShowViewsGrammar");
    assert("UseCatalogStatementSegment"@.len() != "ShowViewsGrammar"@.len());
    reveal_strlit("TableConstraintSegment");
    assert("UseCatalogStatementSegment"@.len() != "TableConstraintSegment"@.len());
}

/// After the Databricks grammar changes, `UseCatalogStatementSegment` is what their last change of that
/// name sets, whatever dialect they start from.
pub proof fn lemma_databricks_changes_use_catalog_statement_segment(d: DialectView)
    ensures
        databricks_grammar_changes(d).element("UseCatalogStatementSegment"@) == Some(use_catalog_statement_segment_element()),
{
    reveal(databricks_grammar_changes);
    let d0 = d;
    let d1 = databricks_changes_part_0(d0);
    let d2 = databricks_changes_part_1(d1);
    let d3 = databricks_changes_part_2(d2);
    lemma_databricks_part_1_sets_use_catalog_statement_segment(d1);
    lemma_databricks_part_2_keeps_use_catalog_statement_segment(d2);
}


/// The Databricks grammar changes make `UseCatalogStatementSegment` the
/// grammar `USE CATALOG` and a catalog reference; whatever dialect they start from.
pub proof fn law_databricks_use_catalog_statement(d: DialectView)
    ensures
        ({
            let e = ElementView::Grammar(GrammarView::sequence(seq![GrammarView::keyword("USE"@), GrammarView::keyword("CATALOG"@), GrammarView::reference("CatalogReferenceSegment"@)]));
            &&& databricks_grammar_changes(d).element("UseCatalogStatementSegment"@) == Some(e)
        }),
{
    lemma_databricks_changes_use_catalog_statement_segment(d);
}

proof fn lemma_databricks_part_0_sets_set_owner_grammar(d: DialectView)
    ensures
        databricks_changes_part_0(d).element("SetOwnerGrammar"@) == Some(set_owner_grammar_element()),
{
    reveal_strlit("SetOwnerGrammar");
    reveal_strlit("AlterPartitionGrammar");
    assert("SetOwnerGrammar"@.len() != "AlterPartitionGrammar"@.len());
    reveal_strlit("ColumnDefaultGrammar");
    assert("SetOwnerGrammar"@.len() != "ColumnDefaultGrammar"@.len());
    reveal_strlit("ConstraintOptionGrammar");
    assert("SetOwnerGrammar"@.len() != "ConstraintOptionGrammar"@.len());
    reveal_strlit("DropConstraintGrammar");
    assert("SetOwnerGrammar"@.len() != "DropConstraintGrammar"@.len());
    reveal_strlit("ForeignKeyOptionGrammar");
    assert("SetOwnerGrammar"@.len() != "ForeignKeyOptionGrammar"@.len());
    reveal_strlit("PredictiveOptimizationGrammar");
    assert("SetOwnerGrammar"@.len() != "PredictiveOptimizationGrammar"@.len());
    reveal_strlit("PropertiesBackTickedIdentifierSegment");
    assert("SetOwnerGrammar"@.len() != "PropertiesBackTickedIdentifierSegment"@.len());
    reveal_strlit("RowFilterClauseGrammar");
    assert("SetOwnerGrammar"@.len() != "RowFilterClauseGrammar"@.len());
    reveal_strlit("SetTagsGrammar");
    assert("SetOwnerGrammar"@.len() != "SetTagsGrammar"@.len());
    reveal_strlit("UnsetTagsGrammar");
    assert("SetOwnerGrammar"@.len() != "UnsetTagsGrammar"@.len());
}

proof fn lemma_databricks_part_1_keeps_set_owner_grammar(d: DialectView)
    ensures
        databricks_changes_part_1(d).element("SetOwnerGrammar"@) == d.element("SetOwnerGrammar"@),
{
    reveal_strlit("SetOwnerGrammar");
    reveal_strlit("AlterCatalogStatementSegment");
    assert("SetOwnerGrammar"@.len() != "AlterCatalogStatementSegment"@.len());
    reveal_strlit("AlterVolumeStatementSegment");
    assert("SetOwnerGrammar"@.len() != "AlterVolumeStatementSegment"@.len());
    reveal_strlit("CatalogReferenceSegment");
    assert("SetOwnerGrammar"@.len() != "CatalogReferenceSegment"@.len());
    reveal_strlit("CommentOnStatementSegment");
    assert("SetOwnerGrammar"@.len() != "CommentOnStatementSegment"@.len());
    reveal_strlit("CreateCatalogStatementSegment");
    assert("SetOwnerGrammar"@.len() != "CreateCatalogStatementSegment"@.len());
    reveal_strlit("CreateVolumeStatementSegment");
    assert("SetOwnerGrammar"@.len() != "CreateVolumeStatementSegment"@.len());
    reveal_strlit("DatabaseReferenceSegment");
    assert("SetOwnerGrammar"@.len() != "DatabaseReferenceSegment"@.len());
    reveal_strlit("DeclareOrReplaceVariableStatementSegment");
    assert("SetOwnerGrammar"@.len() != "DeclareOrReplaceVariableStatementSegment"@.len());
    reveal_strlit("DropCatalogStatementSegment");
    assert("SetOwnerGrammar"@.len() != "DropCatalogStatementSegment"@.len());
    reveal_strlit("DropVolumeStatementSegment");
    assert("SetOwnerGrammar"@.len() != "DropVolumeStatementSegment"@.len());
    reveal_strlit("IdentifierClauseSegment");
    assert("SetOwnerGrammar"@.len() != "IdentifierClauseSegment"@.len());
    reveal_strlit("MaskStatementSegment");
    assert("SetOwnerGrammar"@.len() != "MaskStatementSegment"@.len());
    reveal_strlit("OptimizeTableStatementSegment");
    assert("SetOwnerGrammar"@.len() != "OptimizeTableStatementSegment"@.len());
    reveal_strlit("SchemaReferenceSegment");
    assert("SetOwnerGrammar"@.len() != "SchemaReferenceSegment"@.len());
    reveal_strlit("SetTimeZoneStatementSegment");
    assert("SetOwnerGrammar"@.len() != "SetTimeZoneStatementSegment"@.len());
    reveal_strlit("ShowDatabasesSchemasGrammar");
    assert("SetOwnerGrammar"@.len() != "ShowDatabasesSchemasGrammar"@.len());
    reveal_strlit("TableReferenceSegment");
    assert("SetOwnerGrammar"@.len() != "TableReferenceSegment"@.len());
    reveal_strlit("UseCatalogStatementSegment");
    assert("SetOwnerGrammar"@.len() != "UseCatalogStatementSegment"@.len());
    reveal_strlit("UseDatabaseStatementSegment");
    assert("SetOwnerGrammar"@.len() != "UseDatabaseStatementSegment"@.len());
    reveal_strlit("VolumeReferenceSegment");
    assert("SetOwnerGrammar"@.len() != "VolumeReferenceSegment"@.len());
}

proof fn lemma_databricks_part_2_keeps_set_owner_grammar(d: DialectView)
    ensures
        databricks_changes_part_2(d).element("SetOwnerGrammar"@) == d.element("SetOwnerGrammar"@),
{
    reveal_strlit("SetOwnerGrammar");
    reveal_strlit("AlterDatabaseStatementSegment");
    assert("SetOwnerGrammar"@.len() != "AlterDatabaseStatementSegment"@.len());
    reveal_strlit("AlterTableStatementSegment");
    assert("SetOwnerGrammar"@.len() != "AlterTableStatementSegment"@.len());
    reveal_strlit("AlterViewStatementSegment");
    assert("SetOwnerGrammar"@.len() != "AlterViewStatementSegment"@.len());
    reveal_strlit("CreateDatabaseStatementSegment");
    assert("SetOwnerGrammar"@.len() != "CreateDatabaseStatementSegment"@.len());
    reveal_strlit("FunctionContentsExpressionGrammar");
    assert("SetOwnerGrammar"@.len() != "FunctionContentsExpressionGrammar"@.len());
    reveal_strlit("GeneratedColumnDefinitionSegment");
    assert("SetOwnerGrammar"@.len() != "GeneratedColumnDefinitionSegment"@.len());
    reveal_strlit("GroupByClauseSegment");
    assert("SetOwnerGrammar"@.len() != "GroupByClauseSegment"@.len());
    reveal_strlit("InsertBracketedColumnReferenceListGrammar");
    assert("SetOwnerGrammar"@.len() != "InsertBracketedColumnReferenceListGrammar"@.len());
    reveal_strlit("ObjectReferenceSegment");
    assert("SetOwnerGrammar"@.len() != "ObjectReferenceSegment"@.len());
    reveal_strlit("PropertiesNakedIdentifierSegment");
    assert("SetOwnerGrammar"@.len() != "PropertiesNakedIdentifierSegment"@.len());
    reveal_strlit("PropertyNameSegment");
    assert("SetOwnerGrammar"@.len() != "PropertyNameSegment"@.len());
    reveal_strlit("ShowFunctionsGrammar");
    assert("SetOwnerGrammar"@.len() != "ShowFunctionsGrammar"@.len());
    reveal_strlit("ShowTablesGrammar");
    assert("SetOwnerGrammar"@.len() != "ShowTablesGrammar"@.len());
    reveal_strlit("ShowViewsGrammar");
    assert("SetOwnerGrammar"@.len() != "ShowViewsGrammar"@.len());
    reveal_strlit("TableConstraintSegment");
    assert("SetOwnerGrammar"@.len() != "TableConstraintSegment"@.len());
}

/// After the Databricks grammar changes, `SetOwnerGrammar` is what their last change of that
/// name sets, whatever dialect they start from.
pub proof fn lemma_databricks_changes_set_owner_grammar(d: DialectView)
    ensures
        databricks_grammar_changes(d).element("SetOwnerGrammar"@) == Some(set_owner_grammar_element()),
{
    reveal(databricks_grammar_changes);
    let d0 = d;
    let d1 = databricks_changes_part_0(d0);
    let d2 = databricks_changes_part_1(d1);
    let d3 = databricks_changes_part_2(d2);
    lemma_databricks_part_0_sets_set_owner_grammar(d0);
    lemma_databricks_part_1_keeps_set_owner_grammar(d1);
    lemma_databricks_part_2_keeps_set_owner_grammar(d2);
}


/// The Databricks grammar changes make `SetOwnerGrammar` the grammar: an
/// optional `SET`, then `OWNER TO` and a principal; whatever dialect they start from.
pub proof fn law_databricks_set_owner(d: DialectView)
    ensures
        ({
            let e = ElementView::Grammar(GrammarView::sequence(seq![(GrammarView::Optional { grammar: Box::new(GrammarView::keyword("SET"@)) }), GrammarView::keyword("OWNER"@), GrammarView::keyword("TO"@), GrammarView::reference("PrincipalIdentifierSegment"@)]));
            &&& databricks_grammar_changes(d).element("SetOwnerGrammar"@) == Some(e)
        }),
{
    lemma_databricks_changes_set_owner_grammar(d);
}

proof fn lemma_databricks_part_1_sets_create_catalog_statement_segment(d: DialectView)
    ensures
        databricks_changes_part_1(d).element("CreateCatalogStatementSegment"@) == Some(create_catalog_statement_segment_element()),
{
    reveal_strlit("CreateCatalogStatementSegment");
    reveal_strlit("AlterVolumeStatementSegment");
    assert("CreateCatalogStatementSegment"@.len() != "AlterVolumeStatementSegment"@.len());
    reveal_strlit("CommentOnStatementSegment");
    assert("CreateCatalogStatementSegment"@.len() != "CommentOnStatementSegment"@.len());
    reveal_strlit("CreateVolumeStatementSegment");
    assert("CreateCatalogStatementSegment"@.len() != "CreateVolumeStatementSegment"@.len());
    reveal_strlit("DatabaseReferenceSegment");
    assert("CreateCatalogStatementSegment"@.len() != "DatabaseReferenceSegment"@.len());
    reveal_strlit("DeclareOrReplaceVariableStatementSegment");
    assert("CreateCatalogStatementSegment"@.len() != "DeclareOrReplaceVariableStatementSegment"@.len());
    reveal_strlit("DropCatalogStatementSegment");
    assert("CreateCatalogStatementSegment"@.len() != "DropCatalogStatementSegment"@.len());
    reveal_strlit("DropVolumeStatementSegment");
    assert("CreateCatalogStatementSegment"@.len() != "DropVolumeStatementSegment"@.len());
    reveal_strlit("IdentifierClauseSegment");
    assert("CreateCatalogStatementSegment"@.len() != "IdentifierClauseSegment"@.len());
    reveal_strlit("OptimizeTableStatementSegment");
    assert("CreateCatalogStatementSegment"@[0] != "OptimizeTableStatementSegment"@[0]);
    reveal_strlit("SchemaReferenceSegment");
    assert("CreateCatalogStatementSegment"@.len() != "SchemaReferenceSegment"@.len());
    reveal_strlit("SetTimeZoneStatementSegment");
    assert("CreateCatalogStatementSegment"@.len() != "SetTimeZoneStatementSegment"@.len());
    reveal_strlit("ShowDatabasesSchemasGrammar");
    assert("CreateCatalogStatementSegment"@.len() != "ShowDatabasesSchemasGrammar"@.len());
    reveal_strlit("TableReferenceSegment");
    assert("CreateCatalogStatementSegment"@.len() != "TableReferenceSegment"@.len());
    reveal_strlit("UseCatalogStatementSegment");
    assert("CreateCatalogStatementSegment"@.len() != "UseCatalogStatementSegment"@.len());
    reveal_strlit("UseDatabaseStatementSegment");
    assert("CreateCatalogStatementSegment"@.len() != "UseDatabaseStatementSegment"@.len());
    reveal_strlit("VolumeReferenceSegment");
    assert("CreateCatalogStatementSegment"@.len() != "VolumeReferenceSegment"@.len());
}

proof fn lemma_databricks_part_2_keeps_create_catalog_statement_segment(d: DialectView)
    ensures
        databricks_changes_part_2(d).element("CreateCatalogStatementSegment"@) == d.element("CreateCatalogStatementSegment"@),
{
    reveal_strlit("CreateCatalogStatementSegment");
    reveal_strlit("AlterDatabaseStatementSegment");
    assert("CreateCatalogStatementSegment"@[0] != "AlterDatabaseStatementSegment"@[0]);
    reveal_strlit("AlterTableStatementSegment");
    assert("CreateCatalogStatementSegment"@.len() != "AlterTableStatementSegment"@.len());
    reveal_strlit("AlterViewStatementSegment");
    assert("CreateCatalogStatementSegment"@.len() != "AlterViewStatementSegment"@.len());
    reveal_strlit("CreateDatabaseStatementSegment");
    assert("CreateCatalogStatementSegment"@.len() != "CreateDatabaseStatementSegment"@.len());
    reveal_strlit("FunctionContentsExpressionGrammar");
    assert("CreateCatalogStatementSegment"@.len() != "FunctionContentsExpressionGrammar"@.len());
    reveal_strlit("GeneratedColumnDefinitionSegment");
    assert("CreateCatalogStatementSegment"@.len() != "GeneratedColumnDefinitionSegment"@.len());
    reveal_strlit("GroupByClauseSegment");
    assert("CreateCatalogStatementSegment"@.len() != "GroupByClauseSegment"@.len());
    reveal_strlit("InsertBracketedColumnReferenceListGrammar");
    assert("CreateCatalogStatementSegment"@.len() != "InsertBracketedColumnReferenceListGrammar"@.len());
    reveal_strlit("ObjectReferenceSegment");
    assert("CreateCatalogStatementSegment"@.len() != "ObjectReferenceSegment"@.len());
    reveal_strlit("PropertiesNakedIdentifierSegment");
    assert("CreateCatalogStatementSegment"@.len() != "PropertiesNakedIdentifierSegment"@.len());
    reveal_strlit("PropertyNameSegment");
    assert("CreateCatalogStatementSegment"@.len() != "PropertyNameSegment"@.len());
    reveal_strlit("ShowFunctionsGrammar");
    assert("CreateCatalogStatementSegment"@.len() != "ShowFunctionsGrammar"@.len());
    reveal_strlit("ShowTablesGrammar");
    assert("CreateCatalogStatementSegment"@.len() != "ShowTablesGrammar"@.len());
    reveal_strlit("ShowViewsGrammar");
    assert("CreateCatalogStatementSegment"@.len() != "ShowViewsGrammar"@.len());
    reveal_strlit("TableConstraintSegment");
    assert("CreateCatalogStatementSegment"@.len() != "TableConstraintSegment"@.len());
}

/// After the Databricks grammar changes, `CreateCatalogStatementSegment` is what their last change of that
/// name sets, whatever dialect they start from.
pub proof fn lemma_databricks_changes_create_catalog_statement_segment(d: DialectView)
    ensures
        databricks_grammar_changes(d).element("CreateCatalogStatementSegment"@) == Some(create_catalog_statement_segment_element()),
{
    reveal(databricks_grammar_changes);
    let d0 = d;
    let d1 = databricks_changes_part_0(d0);
    let d2 = databricks_changes_part_1(d1);
    let d3 = databricks_changes_part_2(d2);
    lemma_databricks_part_1_sets_create_catalog_statement_segment(d1);
    lemma_databricks_part_2_keeps_create_catalog_statement_segment(d2);
}


/// The Databricks grammar changes make `CreateCatalogStatementSegment` the
/// grammar `CREATE CATALOG`, an optional `IF NOT EXISTS`, a catalog reference
/// and an optional comment; whatever dialect they start from.
pub proof fn law_databricks_create_catalog_statement(d: DialectView)
    ensures
        ({
            let e = ElementView::Grammar(GrammarView::sequence(seq![GrammarView::keyword("CREATE"@), GrammarView::keyword("CATALOG"@), GrammarView::optional_reference("IfNotExistsGrammar"@), GrammarView::reference("CatalogReferenceSegment"@), GrammarView::optional_reference("CommentGrammar"@)]));
            &&& databricks_grammar_changes(d).element("CreateCatalogStatementSegment"@) == Some(e)
        }),
{
    lemma_databricks_changes_create_catalog_statement_segment(d);
}

proof fn lemma_databricks_part_1_sets_drop_catalog_statement_segment(d: DialectView)
    ensures
        databricks_changes_part_1(d).element("DropCatalogStatementSegment"@) == Some(drop_catalog_statement_segment_element()),
{
    reveal_strlit("DropCatalogStatementSegment");
    reveal_strlit("AlterVolumeStatementSegment");
    assert("DropCatalogStatementSegment"@[0] != "AlterVolumeStatementSegment"@[0]);
    reveal_strlit("CommentOnStatementSegment");
    assert("DropCatalogStatementSegment"@.len() != "CommentOnStatementSegment"@.len());
    reveal_strlit("CreateVolumeStatementSegment");
    assert("DropCatalogStatementSegment"@.len() != "CreateVolumeStatementSegment"@.len());
    reveal_strlit("DatabaseReferenceSegment");
    assert("DropCatalogStatementSegment"@.len() != "DatabaseReferenceSegment"@.len());
    reveal_strlit("DeclareOrReplaceVariableStatementSegment");
    assert("DropCatalogStatementSegment"@.len() != "DeclareOrReplaceVariableStatementSegment"@.len());
    reveal_strlit("DropVolumeStatementSegment");
    assert("DropCatalogStatementSegment"@.len() != "DropVolumeStatementSegment"@.len());
    reveal_strlit("IdentifierClauseSegment");
    assert("DropCatalogStatementSegment"@.len() != "IdentifierClauseSegment"@.len());
    reveal_strlit("OptimizeTableStatementSegment");
    assert("DropCatalogStatementSegment"@.len() != "OptimizeTableStatementSegment"@.len());
    reveal_strlit("SchemaReferenceSegment");
    assert("DropCatalogStatementSegment"@.len() != "SchemaReferenceSegment"@.len());
    reveal_strlit("SetTimeZoneStatementSegment");
    assert("DropCatalogStatementSegment"@[0] != "SetTimeZoneStatementSegment"@[0]);
    reveal_strlit("ShowDatabasesSchemasGrammar");
    assert("DropCatalogStatementSegment"@[0] != "ShowDatabasesSchemasGrammar"@[0]);
    reveal_strlit("TableReferenceSegment");
    assert("DropCatalogStatementSegment"@.len() != "TableReferenceSegment"@.len());
    reveal_strlit("UseCatalogStatementSegment");
    assert("DropCatalogStatementSegment"@.len() != "UseCatalogStatementSegment"@.len());
    reveal_strlit("UseDatabaseStatementSegment");
    assert("DropCatalogStatementSegment"@[0] != "UseDatabaseStatementSegment"@[0]);
    reveal_strlit("VolumeReferenceSegment");
    assert("DropCatalogStatementSegment"@.len() != "VolumeReferenceSegment"@.len());
}

proof fn lemma_databricks_part_2_keeps_drop_catalog_statement_segment(d: DialectView)
    ensures
        databricks_changes_part_2(d).element("DropCatalogStatementSegment"@) == d.element("DropCatalogStatementSegment"@),
{
    reveal_strlit("DropCatalogStatementSegment");
    reveal_strlit("AlterDatabaseStatementSegment");
    assert("DropCatalogStatementSegment"@.len() != "AlterDatabaseStatementSegment"@.len());
    reveal_strlit("AlterTableStatementSegment");
    assert("DropCatalogStatementSegment"@.len() != "AlterTableStatementSegment"@.len());
    reveal_strlit("AlterViewStatementSegment");
    assert("DropCatalogStatementSegment"@.len() != "AlterViewStatementSegment"@.len());
    reveal_strlit("CreateDatabaseStatementSegment");
    assert("DropCatalogStatementSegment"@.len() != "CreateDatabaseStatementSegment"@.len());
    reveal_strlit("FunctionContentsExpressionGrammar");
    assert("DropCatalogStatementSegment"@.len() != "FunctionContentsExpressionGrammar"@.len());
    reveal_strlit("GeneratedColumnDefinitionSegment");
    assert("DropCatalogStatementSegment"@.len() != "GeneratedColumnDefinitionSegment"@.len());
    reveal_strlit("GroupByClauseSegment");
    assert("DropCatalogStatementSegment"@.len() != "GroupByClauseSegment"@.len());
    reveal_strlit("InsertBracketedColumnReferenceListGrammar");
    assert("DropCatalogStatementSegment"@.len() != "InsertBracketedColumnReferenceListGrammar"@.len());
    reveal_strlit("ObjectReferenceSegment");
    assert("DropCatalogStatementSegment"@.len() != "ObjectReferenceSegment"@.len());
    reveal_strlit("PropertiesNakedIdentifierSegment");
    assert("DropCatalogStatementSegment"@.len() != "PropertiesNakedIdentifierSegment"@.len());
    reveal_strlit("PropertyNameSegment");
    assert("DropCatalogStatementSegment"@.len() != "PropertyNameSegment"@.len());
    reveal_strlit("ShowFunctionsGrammar");
    assert("DropCatalogStatementSegment"@.len() != "ShowFunctionsGrammar"@.len());
    reveal_strlit("ShowTablesGrammar");
    assert("DropCatalogStatementSegment"@.len() != "ShowTablesGrammar"@.len());
    reveal_strlit("ShowViewsGrammar");
    assert("DropCatalogStatementSegment"@.len() != "ShowViewsGrammar"@.len());
    reveal_strlit("TableConstraintSegment");
    assert("DropCatalogStatementSegment"@.len() != "TableConstraintSegment"@.len());
}

/// After the Databricks grammar changes, `DropCatalogStatementSegment` is what their last change of that
/// name sets, whatever dialect they start from.
pub proof fn lemma_databricks_changes_drop_catalog_statement_segment(d: DialectView)
    ensures
        databricks_grammar_changes(d).element("DropCatalogStatementSegment"@) == Some(drop_catalog_statement_segment_element()),
{
    reveal(databricks_grammar_changes);
    let d0 = d;
    let d1 = databricks_changes_part_0(d0);
    let d2 = databricks_changes_part_1(d1);
    let d3 = databricks_changes_part_2(d2);
    lemma_databricks_part_1_sets_drop_catalog_statement_segment(d1);
    lemma_databricks_part_2_keeps_drop_catalog_statement_segment(d2);
}


/// The Databricks grammar changes make `DropCatalogStatementSegment` the
/// grammar `DROP CATALOG`, an optional `IF EXISTS`, a catalog reference and an
/// optional drop behaviour; whatever dialect they start from.
pub proof fn law_databricks_drop_catalog_statement(d: DialectView)
    ensures
        ({
            let e = ElementView::Grammar(GrammarView::sequence(seq![GrammarView::keyword("DROP"@), GrammarView::keyword("CATALOG"@), GrammarView::optional_reference("IfExistsGrammar"@), GrammarView::reference("CatalogReferenceSegment"@), GrammarView::optional_reference("DropBehaviorGrammar"@)]));
            &&& databricks_grammar_changes(d).element("DropCatalogStatementSegment"@) == Some(e)
        }),
{
    lemma_databricks_changes_drop_catalog_statement_segment(d);
}

proof fn lemma_databricks_part_1_sets_use_database_statement_segment(d: DialectView)
    ensures
        databricks_changes_part_1(d).element("UseDatabaseStatementSegment"@) == Some(use_database_statement_segment_element()),
{
    reveal_strlit("UseDatabaseStatementSegment");
    reveal_strlit("AlterVolumeStatementSegment");
    assert("UseDatabaseStatementSegment"@[0] != "AlterVolumeStatementSegment"@[0]);
    reveal_strlit("CommentOnStatementSegment");
    assert("UseDatabaseStatementSegment"@.len() != "CommentOnStatementSegment"@.len());
    reveal_strlit("CreateVolumeStatementSegment");
    assert("UseDatabaseStatementSegment"@.len() != "CreateVolumeStatementSegment"@.len());
    reveal_strlit("DatabaseReferenceSegment");
    assert("UseDatabaseStatementSegment"@.len() != "DatabaseReferenceSegment"@.len());
    reveal_strlit("DeclareOrReplaceVariableStatementSegment");
    assert("UseDatabaseStatementSegment"@.len() != "DeclareOrReplaceVariableStatementSegment"@.len());
    reveal_strlit("DropVolumeStatementSegment");
    assert("UseDatabaseStatementSegment"@.len() != "DropVolumeStatementSegment"@.len());
    reveal_strlit("IdentifierClauseSegment");
    assert("UseDatabaseStatementSegment"@.len() != "IdentifierClauseSegment"@.len());
    reveal_strlit("OptimizeTableStatementSegment");
    assert("UseDatabaseStatementSegment"@.len() != "OptimizeTableStatementSegment"@.len());
    reveal_strlit("SchemaReferenceSegment");
    assert("UseDatabaseStatementSegment"@.len() != "SchemaReferenceSegment"@.len());
    reveal_strlit("SetTimeZoneStatementSegment");
    assert("UseDatabaseStatementSegment"@[0] != "SetTimeZoneStatementSegment"@[0]);
    reveal_strlit("ShowDatabasesSchemasGrammar");
    assert("UseDatabaseStatementSegment"@[0] != "ShowDatabasesSchemasGrammar"@[0]);
    reveal_strlit("TableReferenceSegment");
    assert("UseDatabaseStatementSegment"@.len() != "TableReferenceSegment"@.len());
    reveal_strlit("VolumeReferenceSegment");
    assert("UseDatabaseStatementSegment"@.len() != "VolumeReferenceSegment"@.len());
}

proof fn lemma_databricks_part_2_keeps_use_database_statement_segment(d: DialectView)
    ensures
        databricks_changes_part_2(d).element("UseDatabaseStatementSegment"@) == d.element("UseDatabaseStatementSegment"@),
{
    reveal_strlit("UseDatabaseStatementSegment");
    reveal_strlit("AlterDatabaseStatementSegment");
    assert("UseDatabaseStatementSegment"@.len() != "AlterDatabaseStatementSegment"@.len());
    reveal_strlit("AlterTableStatementSegment");
    assert("UseDatabaseStatementSegment"@.len() != "AlterTableStatementSegment"@.len());
    reveal_strlit("AlterViewStatementSegment");
    assert("UseDatabaseStatementSegment"@.len() != "AlterViewStatementSegment"@.len());
    reveal_strlit("CreateDatabaseStatementSegment");
    assert("UseDatabaseStatementSegment"@.len() != "CreateDatabaseStatementSegment"@.len());
    reveal_strlit("FunctionContentsExpressionGrammar");
    assert("UseDatabaseStatementSegment"@.len() != "FunctionContentsExpressionGrammar"@.len());
    reveal_strlit("GeneratedColumnDefinitionSegment");
    assert("UseDatabaseStatementSegment"@.len() != "GeneratedColumnDefinitionSegment"@.len());
    reveal_strlit("GroupByClauseSegment");
    assert("UseDatabaseStatementSegment"@.len() != "GroupByClauseSegment"@.len());
    reveal_strlit("InsertBracketedColumnReferenceListGrammar");
    assert("UseDatabaseStatementSegment"@.len() != "InsertBracketedColumnReferenceListGrammar"@.len());
    reveal_strlit("ObjectReferenceSegment");
    assert("UseDatabaseStatementSegment"@.len() != "ObjectReferenceSegment"@.len());
    reveal_strlit("PropertiesNakedIdentifierSegment");
    assert("UseDatabaseStatementSegment"@.len() != "PropertiesNakedIdentifierSegment"@.len());
    reveal_strlit("PropertyNameSegment");
    assert("UseDatabaseStatementSegment"@.len() != "PropertyNameSegment"@.len());
    reveal_strlit("ShowFunctionsGrammar");
    assert("UseDatabaseStatementSegment"@.len() != "ShowFunctionsGrammar"@.len());
    reveal_strlit("ShowTablesGrammar");
    assert("UseDatabaseStatementSegment"@.len() != "ShowTablesGrammar"@.len());
    reveal_strlit("ShowViewsGrammar");
    assert("UseDatabaseStatementSegment"@.len() != "ShowViewsGrammar"@.len());
    reveal_strlit("TableConstraintSegment");
    assert("UseDatabaseStatementSegment"@.len() != "TableConstraintSegment"@.len());
}

/// After the Databricks grammar changes, `UseDatabaseStatementSegment` is what their last change of that
/// name sets, whatever dialect they start from.
pub proof fn lemma_databricks_changes_use_database_statement_segment(d: DialectView)
    ensures
        databricks_grammar_changes(d).element("UseDatabaseStatementSegment"@) == Some(use_database_statement_segment_element()),
{
    reveal(databricks_grammar_changes);
    let d0 = d;
    let d1 = databricks_changes_part_0(d0);
    let d2 = databricks_changes_part_1(d1);
    let d3 = databricks_changes_part_2(d2);
    lemma_databricks_part_1_sets_use_database_statement_segment(d1);
    lemma_databricks_part_2_keeps_use_database_statement_segment(d2);
}


/// The Databricks grammar changes make `UseDatabaseStatementSegment` the
/// grammar `USE`, an optional `DATABASE` or `SCHEMA`, and a database reference; whatever dialect they start from.
pub proof fn law_databricks_use_database_statement(d: DialectView)
    ensures
        ({
            let e = ElementView::Grammar(GrammarView::sequence(seq![GrammarView::keyword("USE"@), (GrammarView::Optional { grammar: Box::new(GrammarView::one_of(seq![GrammarView::keyword("DATABASE"@), GrammarView::keyword("SCHEMA"@)])) }), GrammarView::reference("DatabaseReferenceSegment"@)]));
            &&& databricks_grammar_changes(d).element("UseDatabaseStatementSegment"@) == Some(e)
        }),
{
    lemma_databricks_changes_use_database_statement_segment(d);
}

proof fn lemma_databricks_part_1_sets_drop_volume_statement_segment(d: DialectView)
    ensures
        databricks_changes_part_1(d).element("DropVolumeStatementSegment"@) == Some(drop_volume_statement_segment_element()),
{
    reveal_strlit("DropVolumeStatementSegment");
    reveal_strlit("CommentOnStatementSegment");
    assert("DropVolumeStatementSegment"@.len() != "CommentOnStatementSegment"@.len());
    reveal_strlit("DeclareOrReplaceVariableStatementSegment");
    assert("DropVolumeStatementSegment"@.len() != "DeclareOrReplaceVariableStatementSegment"@.len());
    reveal_strlit("ShowDatabasesSchemasGrammar");
    assert("DropVolumeStatementSegment"@.len() != "ShowDatabasesSchemasGrammar"@.len());
    reveal_strlit("VolumeReferenceSegment");
    assert("DropVolumeStatementSegment"@.len() != "VolumeReferenceSegment"@.len());
}

proof fn lemma_databricks_part_2_keeps_drop_volume_statement_segment(d: DialectView)
    ensures
        databricks_changes_part_2(d).element("DropVolumeStatementSegment"@) == d.element("DropVolumeStatementSegment"@),
{
    reveal_strlit("DropVolumeStatementSegment");
    reveal_strlit("AlterDatabaseStatementSegment");
    assert("DropVolumeStatementSegment"@.len() != "AlterDatabaseStatementSegment"@.len());
    reveal_strlit("AlterTableStatementSegment");
    assert("DropVolumeStatementSegment"@[0] != "AlterTableStatementSegment"@[0]);
    reveal_strlit("AlterViewStatementSegment");
    assert("DropVolumeStatementSegment"@.len() != "AlterViewStatementSegment"@.len());
    reveal_strlit("CreateDatabaseStatementSegment");
    assert("DropVolumeStatementSegment"@.len() != "CreateDatabaseStatementSegment"@.len());
    reveal_strlit("FunctionContentsExpressionGrammar");
    assert("DropVolumeStatementSegment"@.len() != "FunctionContentsExpressionGrammar"@.len());
    reveal_strlit("GeneratedColumnDefinitionSegment");
    assert("DropVolumeStatementSegment"@.len() != "GeneratedColumnDefinitionSegment"@.len());
    reveal_strlit("GroupByClauseSegment");
    assert("DropVolumeStatementSegment"@.len() != "GroupByClauseSegment"@.len());
    reveal_strlit("InsertBracketedColumnReferenceListGrammar");
    assert("DropVolumeStatementSegment"@.len() != "InsertBracketedColumnReferenceListGrammar"@.len());
    reveal_strlit("ObjectReferenceSegment");
    assert("DropVolumeStatementSegment"@.len() != "ObjectReferenceSegment"@.len());
    reveal_strlit("PropertiesNakedIdentifierSegment");
    assert("DropVolumeStatementSegment"@.len() != "PropertiesNakedIdentifierSegment"@.len());
    reveal_strlit("PropertyNameSegment");
    assert("DropVolumeStatementSegment"@.len() != "PropertyNameSegment"@.len());
    reveal_strlit("ShowFunctionsGrammar");
    assert("DropVolumeStatementSegment"@.len() != "ShowFunctionsGrammar"@.len());
    reveal_strlit("ShowTablesGrammar");
    assert("DropVolumeStatementSegment"@.len() != "ShowTablesGrammar"@.len());
    reveal_strlit("ShowViewsGrammar");
    assert("DropVolumeStatementSegment"@.len() != "ShowViewsGrammar"@.len());
    reveal_strlit("TableConstraintSegment");
    assert("DropVolumeStatementSegment"@.len() != "TableConstraintSegment"@.len());
}

/// After the Databricks grammar changes, `DropVolumeStatementSegment` is what their last change of that
/// name sets, whatever dialect they start from.
pub proof fn lemma_databricks_changes_drop_volume_statement_segment(d: DialectView)
    ensures
        databricks_grammar_changes(d).element("DropVolumeStatementSegment"@) == Some(drop_volume_statement_segment_element()),
{
    reveal(databricks_grammar_changes);
    let d0 = d;
    let d1 = databricks_changes_part_0(d0);
    let d2 = databricks_changes_part_1(d1);
    let d3 = databricks_changes_part_2(d2);
    lemma_databricks_part_1_sets_drop_volume_statement_segment(d1);
    lemma_databricks_part_2_keeps_drop_volume_statement_segment(d2);
}


/// The Databricks grammar changes make `DropVolumeStatementSegment` a
/// `drop_volume_statement` node: `DROP VOLUME`, an optional `IF EXISTS`, and a
/// volume reference; whatever dialect they start from.
pub proof fn law_databricks_drop_volume_statement(d: DialectView)
    ensures
        ({
            let e = (ElementView::Node { kind: "drop_volume_statement"@, grammar: GrammarView::sequence(seq![GrammarView::keyword("DROP"@), GrammarView::keyword("VOLUME"@), GrammarView::optional_reference("IfExistsGrammar"@), GrammarView::reference("VolumeReferenceSegment"@)]) });
            &&& databricks_grammar_changes(d).element("DropVolumeStatementSegment"@) == Some(e)
        }),
{
    lemma_databricks_changes_drop_volume_statement_segment(d);
}

proof fn lemma_databricks_part_0_sets_set_tags_grammar(d: DialectView)
    ensures
        databricks_changes_part_0(d).element("SetTagsGrammar"@) == Some(set_tags_grammar_element()),
{
    reveal_strlit("SetTagsGrammar");
    reveal_strlit("AlterPartitionGrammar");
    assert("SetTagsGrammar"@.len() != "AlterPartitionGrammar"@.len());
    reveal_strlit("ColumnDefaultGrammar");
    assert("SetTagsGrammar"@.len() != "ColumnDefaultGrammar"@.len());
    reveal_strlit("ConstraintOptionGrammar");
    assert("SetTagsGrammar"@.len() != "ConstraintOptionGrammar"@.len());
    reveal_strlit("DropConstraintGrammar");
    assert("SetTagsGrammar"@.len() != "DropConstraintGrammar"@.len());
    reveal_strlit("ForeignKeyOptionGrammar");
    assert("SetTagsGrammar"@.len() != "ForeignKeyOptionGrammar"@.len());
    reveal_strlit("PropertiesBackTickedIdentifierSegment");
    assert("SetTagsGrammar"@.len() != "PropertiesBackTickedIdentifierSegment"@.len());
    reveal_strlit("RowFilterClauseGrammar");
    assert("SetTagsGrammar"@.len() != "RowFilterClauseGrammar"@.len());
    reveal_strlit("UnsetTagsGrammar");
    assert("SetTagsGrammar"@.len() != "UnsetTagsGrammar"@.len());
}

proof fn lemma_databricks_part_1_keeps_set_tags_grammar(d: DialectView)
    ensures
        databricks_changes_part_1(d).element("SetTagsGrammar"@) == d.element("SetTagsGrammar"@),
{
    reveal_strlit("SetTagsGrammar");
    reveal_strlit("AlterCatalogStatementSegment");
    assert("SetTagsGrammar"@.len() != "AlterCatalogStatementSegment"@.len());
    reveal_strlit("AlterVolumeStatementSegment");
    assert("SetTagsGrammar"@.len() != "AlterVolumeStatementSegment"@.len());
    reveal_strlit("CatalogReferenceSegment");
    assert("SetTagsGrammar"@.len() != "CatalogReferenceSegment"@.len());
    reveal_strlit("CommentOnStatementSegment");
    assert("SetTagsGrammar"@.len() != "CommentOnStatementSegment"@.len());
    reveal_strlit("CreateCatalogStatementSegment");
    assert("SetTagsGrammar"@.len() != "CreateCatalogStatementSegment"@.len());
    reveal_strlit("CreateVolumeStatementSegment");
    assert("SetTagsGrammar"@.len() != "CreateVolumeStatementSegment"@.len());
    reveal_strlit("DatabaseReferenceSegment");
    assert("SetTagsGrammar"@.len() != "DatabaseReferenceSegment"@.len());
    reveal_strlit("DeclareOrReplaceVariableStatementSegment");
    assert("SetTagsGrammar"@.len() != "DeclareOrReplaceVariableStatementSegment"@.len());
    reveal_strlit("DropCatalogStatementSegment");
    assert("SetTagsGrammar"@.len() != "DropCatalogStatementSegment"@.len());
    reveal_strlit("DropVolumeStatementSegment");
    assert("SetTagsGrammar"@.len() != "DropVolumeStatementSegment"@.len());
    reveal_strlit("IdentifierClauseSegment");
    assert("SetTagsGrammar"@.len() != "IdentifierClauseSegment"@.len());
    reveal_strlit("MaskStatementSegment");
    assert("SetTagsGrammar"@.len() != "MaskStatementSegment"@.len());
    reveal_strlit("OptimizeTableStatementSegment");
    assert("SetTagsGrammar"@.len() != "OptimizeTableStatementSegment"@.len());
    reveal_strlit("SchemaReferenceSegment");
    assert("SetTagsGrammar"@.len() != "SchemaReferenceSegment"@.len());
    reveal_strlit("SetTimeZoneStatementSegment");
    assert("SetTagsGrammar"@.len() != "SetTimeZoneStatementSegment"@.len());
    reveal_strlit("ShowDatabasesSchemasGrammar");
    assert("SetTagsGrammar"@.len() != "ShowDatabasesSchemasGrammar"@.len());
    reveal_strlit("TableReferenceSegment");
    assert("SetTagsGrammar"@.len() != "TableReferenceSegment"@.len());
    reveal_strlit("UseCatalogStatementSegment");
    assert("SetTagsGrammar"@.len() != "UseCatalogStatementSegment"@.len());
    reveal_strlit("UseDatabaseStatementSegment");
    assert("SetTagsGrammar"@.len() != "UseDatabaseStatementSegment"@.len());
    reveal_strlit("VolumeReferenceSegment");
    assert("SetTagsGrammar"@.len() != "VolumeReferenceSegment"@.len());
}

proof fn lemma_databricks_part_2_keeps_set_tags_grammar(d: DialectView)
    ensures
        databricks_changes_part_2(d).element("SetTagsGrammar"@) == d.element("SetTagsGrammar"@),
{
    reveal_strlit("SetTagsGrammar");
    reveal_strlit("AlterDatabaseStatementSegment");
    assert("SetTagsGrammar"@.len() != "AlterDatabaseStatementSegment"@.len());
    reveal_strlit("AlterTableStatementSegment");
    assert("SetTagsGrammar"@.len() != "AlterTableStatementSegment"@.len());
    reveal_strlit("AlterViewStatementSegment");
    assert("SetTagsGrammar"@.len() != "AlterViewStatementSegment"@.len());
    reveal_strlit("CreateDatabaseStatementSegment");
    assert("SetTagsGrammar"@.len() != "CreateDatabaseStatementSegment"@.len());
    reveal_strlit("FunctionContentsExpressionGrammar");
    assert("SetTagsGrammar"@.len() != "FunctionContentsExpressionGrammar"@.len());
    reveal_strlit("GeneratedColumnDefinitionSegment");
    assert("SetTagsGrammar"@.len() != "GeneratedColumnDefinitionSegment"@.len());
    reveal_strlit("GroupByClauseSegment");
    assert("SetTagsGrammar"@.len() != "GroupByClauseSegment"@.len());
    reveal_strlit("InsertBracketedColumnReferenceListGrammar");
    assert("SetTagsGrammar"@.len() != "InsertBracketedColumnReferenceListGrammar"@.len());
    reveal_strlit("ObjectReferenceSegment");
    assert("SetTagsGrammar"@.len() != "ObjectReferenceSegment"@.len());
    reveal_strlit("PropertiesNakedIdentifierSegment");
    assert("SetTagsGrammar"@.len() != "PropertiesNakedIdentifierSegment"@.len());
    reveal_strlit("PropertyNameSegment");
    assert("SetTagsGrammar"@.len() != "PropertyNameSegment"@.len());
    reveal_strlit("ShowFunctionsGrammar");
    assert("SetTagsGrammar"@.len() != "ShowFunctionsGrammar"@.len());
    reveal_strlit("ShowTablesGrammar");
    assert("SetTagsGrammar"@.len() != "ShowTablesGrammar"@.len());
    reveal_strlit("ShowViewsGrammar");
    assert("SetTagsGrammar"@.len() != "ShowViewsGrammar"@.len());
    reveal_strlit("TableConstraintSegment");
    assert("SetTagsGrammar"@.len() != "TableConstraintSegment"@.len());
}

/// After the Databricks grammar changes, `SetTagsGrammar` is what their last change of that
/// name sets, whatever dialect they start from.
pub proof fn lemma_databricks_changes_set_tags_grammar(d: DialectView)
    ensures
        databricks_grammar_changes(d).element("SetTagsGrammar"@) == Some(set_tags_grammar_element()),
{
    reveal(databricks_grammar_changes);
    let d0 = d;
    let d1 = databricks_changes_part_0(d0);
    let d2 = databricks_changes_part_1(d1);
    let d3 = databricks_changes_part_2(d2);
    lemma_databricks_part_0_sets_set_tags_grammar(d0);
    lemma_databricks_part_1_keeps_set_tags_grammar(d1);
    lemma_databricks_part_2_keeps_set_tags_grammar(d2);
}


/// The Databricks grammar changes make `SetTagsGrammar` the grammar `SET TAGS`
/// and a bracketed property list; whatever dialect they start from.
pub proof fn law_databricks_set_tags(d: DialectView)
    ensures
        ({
            let e = ElementView::Grammar(GrammarView::sequence(seq![GrammarView::keyword("SET"@), GrammarView::keyword("TAGS"@), GrammarView::reference("BracketedPropertyListGrammar"@)]));
            &&& databricks_grammar_changes(d).element("SetTagsGrammar"@) == Some(e)
        }),
{
    lemma_databricks_changes_set_tags_grammar(d);
}

proof fn lemma_databricks_part_0_sets_unset_tags_grammar(d: DialectView)
    ensures
        databricks_changes_part_0(d).element("UnsetTagsGrammar"@) == Some(unset_tags_grammar_element()),
{
    reveal_strlit("UnsetTagsGrammar");
    reveal_strlit("AlterPartitionGrammar");
    assert("UnsetTagsGrammar"@.len() != "AlterPartitionGrammar"@.len());
    reveal_strlit("ColumnDefaultGrammar");
    assert("UnsetTagsGrammar"@.len() != "ColumnDefaultGrammar"@.len());
    reveal_strlit("ConstraintOptionGrammar");
    assert("UnsetTagsGrammar"@.len() != "ConstraintOptionGrammar"@.len());
    reveal_strlit("DropConstraintGrammar");
    assert("UnsetTagsGrammar"@.len() != "DropConstraintGrammar"@.len());
    reveal_strlit("ForeignKeyOptionGrammar");
    assert("UnsetTagsGrammar"@.len() != "ForeignKeyOptionGrammar"@.len());
    reveal_strlit("PropertiesBackTickedIdentifierSegment");
    assert("UnsetTagsGrammar"@.len() != "PropertiesBackTickedIdentifierSegment"@.len());
    reveal_strlit("RowFilterClauseGrammar");
    assert("UnsetTagsGrammar"@.len() != "RowFilterClauseGrammar"@.len());
}

proof fn lemma_databricks_part_1_keeps_unset_tags_grammar(d: DialectView)
    ensures
        databricks_changes_part_1(d).element("UnsetTagsGrammar"@) == d.element("UnsetTagsGrammar"@),
{
    reveal_strlit("UnsetTagsGrammar");
    reveal_strlit("AlterCatalogStatementSegment");
    assert("UnsetTagsGrammar"@.len() != "AlterCatalogStatementSegment"@.len());
    reveal_strlit("AlterVolumeStatementSegment");
    assert("UnsetTagsGrammar"@.len() != "AlterVolumeStatementSegment"@.len());
    reveal_strlit("CatalogReferenceSegment");
    assert("UnsetTagsGrammar"@.len() != "CatalogReferenceSegment"@.len());
    reveal_strlit("CommentOnStatementSegment");
    assert("UnsetTagsGrammar"@.len() != "CommentOnStatementSegment"@.len());
    reveal_strlit("CreateCatalogStatementSegment");
    assert("UnsetTagsGrammar"@.len() != "CreateCatalogStatementSegment"@.len());
    reveal_strlit("CreateVolumeStatementSegment");
    assert("UnsetTagsGrammar"@.len() != "CreateVolumeStatementSegment"@.len());
    reveal_strlit("DatabaseReferenceSegment");
    assert("UnsetTagsGrammar"@.len() != "DatabaseReferenceSegment"@.len());
    reveal_strlit("DeclareOrReplaceVariableStatementSegment");
    assert("UnsetTagsGrammar"@.len() != "DeclareOrReplaceVariableStatementSegment"@.len());
    reveal_strlit("DropCatalogStatementSegment");
    assert("UnsetTagsGrammar"@.len() != "DropCatalogStatementSegment"@.len());
    reveal_strlit("DropVolumeStatementSegment");
    assert("UnsetTagsGrammar"@.len() != "DropVolumeStatementSegment"@.len());
    reveal_strlit("IdentifierClauseSegment");
    assert("UnsetTagsGrammar"@.len() != "IdentifierClauseSegment"@.len());
    reveal_strlit("MaskStatementSegment");
    assert("UnsetTagsGrammar"@.len() != "MaskStatementSegment"@.len());
    reveal_strlit("OptimizeTableStatementSegment");
    assert("UnsetTagsGrammar"@.len() != "OptimizeTableStatementSegment"@.len());
    reveal_strlit("SchemaReferenceSegment");
    assert("UnsetTagsGrammar"@.len() != "SchemaReferenceSegment"@.len());
    reveal_strlit("SetTimeZoneStatementSegment");
    assert("UnsetTagsGrammar"@.len() != "SetTimeZoneStatementSegment"@.len());
    reveal_strlit("ShowDatabasesSchemasGrammar");
    assert("UnsetTagsGrammar"@.len() != "ShowDatabasesSchemasGrammar"@.len());
    reveal_strlit("TableReferenceSegment");
    assert("UnsetTagsGrammar"@.len() != "TableReferenceSegment"@.len());
    reveal_strlit("UseCatalogStatementSegment");
    assert("UnsetTagsGrammar"@.len() != "UseCatalogStatementSegment"@.len());
    reveal_strlit("UseDatabaseStatementSegment");
    assert("UnsetTagsGrammar"@.len() != "UseDatabaseStatementSegment"@.len());
    reveal_strlit("VolumeReferenceSegment");
    assert("UnsetTagsGrammar"@.len() != "VolumeReferenceSegment"@.len());
}

proof fn lemma_databricks_part_2_keeps_unset_tags_grammar(d: DialectView)
    ensures
        databricks_changes_part_2(d).element("UnsetTagsGrammar"@) == d.element("UnsetTagsGrammar"@),
{
    reveal_strlit("UnsetTagsGrammar");
    reveal_strlit("AlterDatabaseStatementSegment");
    assert("UnsetTagsGrammar"@.len() != "AlterDatabaseStatementSegment"@.len());
    reveal_strlit("AlterTableStatementSegment");
    assert("UnsetTagsGrammar"@.len() != "AlterTableStatementSegment"@.len());
    reveal_strlit("AlterViewStatementSegment");
    assert("UnsetTagsGrammar"@.len() != "AlterViewStatementSegment"@.len());
    reveal_strlit("CreateDatabaseStatementSegment");
    assert("UnsetTagsGrammar"@.len() != "CreateDatabaseStatementSegment"@.len());
    reveal_strlit("FunctionContentsExpressionGrammar");
    assert("UnsetTagsGrammar"@.len() != "FunctionContentsExpressionGrammar"@.len());
    reveal_strlit("GeneratedColumnDefinitionSegment");
    assert("UnsetTagsGrammar"@.len() != "GeneratedColumnDefinitionSegment"@.len());
    reveal_strlit("GroupByClauseSegment");
    assert("UnsetTagsGrammar"@.len() != "GroupByClauseSegment"@.len());
    reveal_strlit("InsertBracketedColumnReferenceListGrammar");
    assert("UnsetTagsGrammar"@.len() != "InsertBracketedColumnReferenceListGrammar"@.len());
    reveal_strlit("ObjectReferenceSegment");
    assert("UnsetTagsGrammar"@.len() != "ObjectReferenceSegment"@.len());
    reveal_strlit("PropertiesNakedIdentifierSegment");
    assert("UnsetTagsGrammar"@.len() != "PropertiesNakedIdentifierSegment"@.len());
    reveal_strlit("PropertyNameSegment");
    assert("UnsetTagsGrammar"@.len() != "PropertyNameSegment"@.len());
    reveal_strlit("ShowFunctionsGrammar");
    assert("UnsetTagsGrammar"@.len() != "ShowFunctionsGrammar"@.len());
    reveal_strlit("ShowTablesGrammar");
    assert("UnsetTagsGrammar"@.len() != "ShowTablesGrammar"@.len());
    reveal_strlit("ShowViewsGrammar");
    assert("UnsetTagsGrammar"@[0] != "ShowViewsGrammar"@[0]);
    reveal_strlit("TableConstraintSegment");
    assert("UnsetTagsGrammar"@.len() != "TableConstraintSegment"@.len());
}

/// After the Databricks grammar changes, `UnsetTagsGrammar` is what their last change of that
/// name sets, whatever dialect they start from.
pub proof fn lemma_databricks_changes_unset_tags_grammar(d: DialectView)
    ensures
        databricks_grammar_changes(d).element("UnsetTagsGrammar"@) == Some(unset_tags_grammar_element()),
{
    reveal(databricks_grammar_changes);
    let d0 = d;
    let d1 = databricks_changes_part_0(d0);
    let d2 = databricks_changes_part_1(d1);
    let d3 = databricks_changes_part_2(d2);
    lemma_databricks_part_0_sets_unset_tags_grammar(d0);
    lemma_databricks_part_1_keeps_unset_tags_grammar(d1);
    lemma_databricks_part_2_keeps_unset_tags_grammar(d2);
}


/// The Databricks grammar changes make `UnsetTagsGrammar` the grammar
/// `UNSET TAGS` and a bracketed list of property names; whatever dialect they start from.
pub proof fn law_databricks_unset_tags(d: DialectView)
    ensures
        ({
            let e = ElementView::Grammar(GrammarView::sequence(seq![GrammarView::keyword("UNSET"@), GrammarView::keyword("TAGS"@), GrammarView::reference("BracketedPropertyNameListGrammar"@)]));
            &&& databricks_grammar_changes(d).element("UnsetTagsGrammar"@) == Some(e)
        }),
{
    lemma_databricks_changes_unset_tags_grammar(d);
}

proof fn lemma_databricks_part_0_sets_column_default_grammar(d: DialectView)
    ensures
        databricks_changes_part_0(d).element("ColumnDefaultGrammar"@) == Some(column_default_grammar_element()),
{
    reveal_strlit("ColumnDefaultGrammar");
    reveal_strlit("AlterPartitionGrammar");
    assert("ColumnDefaultGrammar"@.len() != "AlterPartitionGrammar"@.len());
    reveal_strlit("ConstraintOptionGrammar");
    assert("ColumnDefaultGrammar"@.len() != "ConstraintOptionGrammar"@.len());
    reveal_strlit("DropConstraintGrammar");
    assert("ColumnDefaultGrammar"@.len() != "DropConstraintGrammar"@.len());
    reveal_strlit("ForeignKeyOptionGrammar");
    assert("ColumnDefaultGrammar"@.len() != "ForeignKeyOptionGrammar"@.len());
    reveal_strlit("PropertiesBackTickedIdentifierSegment");
    assert("ColumnDefaultGrammar"@.len() != "PropertiesBackTickedIdentifierSegment"@.len());
    reveal_strlit("RowFilterClauseGrammar");
    assert("ColumnDefaultGrammar"@.len() != "RowFilterClauseGrammar"@.len());
}

proof fn lemma_databricks_part_1_keeps_column_default_grammar(d: DialectView)
    ensures
        databricks_changes_part_1(d).element("ColumnDefaultGrammar"@) == d.element("ColumnDefaultGrammar"@),
{
    reveal_strlit("ColumnDefaultGrammar");
    reveal_strlit("AlterCatalogStatementSegment");
    assert("ColumnDefaultGrammar"@.len() != "AlterCatalogStatementSegment"@.len());
    reveal_strlit("AlterVolumeStatementSegment");
    assert("ColumnDefaultGrammar"@.len() != "AlterVolumeStatementSegment"@.len());
    reveal_strlit("CatalogReferenceSegment");
    assert("ColumnDefaultGrammar"@.len() != "CatalogReferenceSegment"@.len());
    reveal_strlit("CommentOnStatementSegment");
    assert("ColumnDefaultGrammar"@.len() != "CommentOnStatementSegment"@.len());
    reveal_strlit("CreateCatalogStatementSegment");
    assert("ColumnDefaultGrammar"@.len() != "CreateCatalogStatementSegment"@.len());
    reveal_strlit("CreateVolumeStatementSegment");
    assert("ColumnDefaultGrammar"@.len() != "CreateVolumeStatementSegment"@.len());
    reveal_strlit("DatabaseReferenceSegment");
    assert("ColumnDefaultGrammar"@.len() != "DatabaseReferenceSegment"@.len());
    reveal_strlit("DeclareOrReplaceVariableStatementSegment");
    assert("ColumnDefaultGrammar"@.len() != "DeclareOrReplaceVariableStatementSegment"@.len());
    reveal_strlit("DropCatalogStatementSegment");
    assert("ColumnDefaultGrammar"@.len() != "DropCatalogStatementSegment"@.len());
    reveal_strlit("DropVolumeStatementSegment");
    assert("ColumnDefaultGrammar"@.len() != "DropVolumeStatementSegment"@.len());
    reveal_strlit("IdentifierClauseSegment");
    assert("ColumnDefaultGrammar"@.len() != "IdentifierClauseSegment"@.len());
    reveal_strlit("MaskStatementSegment");
    assert("ColumnDefaultGrammar"@[0] != "MaskStatementSegment"@[0]);
    reveal_strlit("OptimizeTableStatementSegment");
    assert("ColumnDefaultGrammar"@.len() != "OptimizeTableStatementSegment"@.len());
    reveal_strlit("SchemaReferenceSegment");
    assert("ColumnDefaultGrammar"@.len() != "SchemaReferenceSegment"@.len());
    reveal_strlit("SetTimeZoneStatementSegment");
    assert("ColumnDefaultGrammar"@.len() != "SetTimeZoneStatementSegment"@.len());
    reveal_strlit("ShowDatabasesSchemasGrammar");
    assert("ColumnDefaultGrammar"@.len() != "ShowDatabasesSchemasGrammar"@.len());
    reveal_strlit("TableReferenceSegment");
    assert("ColumnDefaultGrammar"@.len() != "TableReferenceSegment"@.len());
    reveal_strlit("UseCatalogStatementSegment");
    assert("ColumnDefaultGrammar"@.len() != "UseCatalogStatementSegment"@.len());
    reveal_strlit("UseDatabaseStatementSegment");
    assert("ColumnDefaultGrammar"@.len() != "UseDatabaseStatementSegment"@.len());
    reveal_strlit("VolumeReferenceSegment");
    assert("ColumnDefaultGrammar"@.len() != "VolumeReferenceSegment"@.len());
}

proof fn lemma_databricks_part_2_keeps_column_default_grammar(d: DialectView)
    ensures
        databricks_changes_part_2(d).element("ColumnDefaultGrammar"@) == d.element("ColumnDefaultGrammar"@),
{
    reveal_strlit("ColumnDefaultGrammar");
    reveal_strlit("AlterDatabaseStatementSegment");
    assert("ColumnDefaultGrammar"@.len() != "AlterDatabaseStatementSegment"@.len());
    reveal_strlit("AlterTableStatementSegment");
    assert("ColumnDefaultGrammar"@.len() != "AlterTableStatementSegment"@.len());
    reveal_strlit("AlterViewStatementSegment");
    assert("ColumnDefaultGrammar"@.len() != "AlterViewStatementSegment"@.len());
    reveal_strlit("CreateDatabaseStatementSegment");
    assert("ColumnDefaultGrammar"@.len() != "CreateDatabaseStatementSegment"@.len());
    reveal_strlit("FunctionContentsExpressionGrammar");
    assert("ColumnDefaultGrammar"@.len() != "FunctionContentsExpressionGrammar"@.len());
    reveal_strlit("GeneratedColumnDefinitionSegment");
    assert("ColumnDefaultGrammar"@.len() != "GeneratedColumnDefinitionSegment"@.len());
    reveal_strlit("GroupByClauseSegment");
    assert("ColumnDefaultGrammar"@[0] != "GroupByClauseSegment"@[0]);
    reveal_strlit("InsertBracketedColumnReferenceListGrammar");
    assert("ColumnDefaultGrammar"@.len() != "InsertBracketedColumnReferenceListGrammar"@.len());
    reveal_strlit("ObjectReferenceSegment");
    assert("ColumnDefaultGrammar"@.len() != "ObjectReferenceSegment"@.len());
    reveal_strlit("PropertiesNakedIdentifierSegment");
    assert("ColumnDefaultGrammar"@.len() != "PropertiesNakedIdentifierSegment"@.len());
    reveal_strlit("PropertyNameSegment");
    assert("ColumnDefaultGrammar"@.len() != "PropertyNameSegment"@.len());
    reveal_strlit("ShowFunctionsGrammar");
    assert("ColumnDefaultGrammar"@[0] != "ShowFunctionsGrammar"@[0]);
    reveal_strlit("ShowTablesGrammar");
    assert("ColumnDefaultGrammar"@.len() != "ShowTablesGrammar"@.len());
    reveal_strlit("ShowViewsGrammar");
    assert("ColumnDefaultGrammar"@.len() != "ShowViewsGrammar"@.len());
    reveal_strlit("TableConstraintSegment");
    assert("ColumnDefaultGrammar"@.len() != "TableConstraintSegment"@.len());
}

/// After the Databricks grammar changes, `ColumnDefaultGrammar` is what their last change of that
/// name sets, whatever dialect they start from.
pub proof fn lemma_databricks_changes_column_default_grammar(d: DialectView)
    ensures
        databricks_grammar_changes(d).element("ColumnDefaultGrammar"@) == Some(column_default_grammar_element()),
{
    reveal(databricks_grammar_changes);
    let d0 = d;
    let d1 = databricks_changes_part_0(d0);
    let d2 = databricks_changes_part_1(d1);
    let d3 = databricks_changes_part_2(d2);
    lemma_databricks_part_0_sets_column_default_grammar(d0);
    lemma_databricks_part_1_keeps_column_default_grammar(d1);
    lemma_databricks_part_2_keeps_column_default_grammar(d2);
}


/// The Databricks grammar changes make `ColumnDefaultGrammar` the grammar
/// `DEFAULT` and a literal; whatever dialect they start from.
pub proof fn law_databricks_column_default(d: DialectView)
    ensures
        ({
            let e = ElementView::Grammar(GrammarView::sequence(seq![GrammarView::keyword("DEFAULT"@), GrammarView::reference("LiteralGrammar"@)]));
            &&& databricks_grammar_changes(d).element("ColumnDefaultGrammar"@) == Some(e)
        }),
{
    lemma_databricks_changes_column_default_grammar(d);
}

proof fn lemma_databricks_part_1_sets_set_time_zone_statement_segment(d: DialectView)
    ensures
        databricks_changes_part_1(d).element("SetTimeZoneStatementSegment"@) == Some(set_time_zone_statement_segment_element()),
{
    reveal_strlit("SetTimeZoneStatementSegment");
    reveal_strlit("AlterVolumeStatementSegment");
    assert("SetTimeZoneStatementSegment"@[0] != "AlterVolumeStatementSegment"@[0]);
    reveal_strlit("CommentOnStatementSegment");
    assert("SetTimeZoneStatementSegment"@.len() != "CommentOnStatementSegment"@.len());
    reveal_strlit("CreateVolumeStatementSegment");
    assert("SetTimeZoneStatementSegment"@.len() != "CreateVolumeStatementSegment"@.len());
    reveal_strlit("DatabaseReferenceSegment");
    assert("SetTimeZoneStatementSegment"@.len() != "DatabaseReferenceSegment"@.len());
    reveal_strlit("DeclareOrReplaceVariableStatementSegment");
    assert("SetTimeZoneStatementSegment"@.len() != "DeclareOrReplaceVariableStatementSegment"@.len());
    reveal_strlit("DropVolumeStatementSegment");
    assert("SetTimeZoneStatementSegment"@.len() != "DropVolumeStatementSegment"@.len());
    reveal_strlit("IdentifierClauseSegment");
    assert("SetTimeZoneStatementSegment"@.len() != "IdentifierClauseSegment"@.len());
    reveal_strlit("OptimizeTableStatementSegment");
    assert("SetTimeZoneStatementSegment"@.len() != "OptimizeTableStatementSegment"@.len());
    reveal_strlit("SchemaReferenceSegment");
    assert("SetTimeZoneStatementSegment"@.len() != "SchemaReferenceSegment"@.len());
    reveal_strlit("ShowDatabasesSchemasGrammar");
    assert("SetTimeZoneStatementSegment"@[1] != "ShowDatabasesSchemasGrammar"@[1]);
    reveal_strlit("TableReferenceSegment");
    assert("SetTimeZoneStatementSegment"@.len() != "TableReferenceSegment"@.len());
    reveal_strlit("VolumeReferenceSegment");
    assert("SetTimeZoneStatementSegment"@.len() != "VolumeReferenceSegment"@.len());
}

proof fn lemma_databricks_part_2_keeps_set_time_zone_statement_segment(d: DialectView)
    ensures
        databricks_changes_part_2(d).element("SetTimeZoneStatementSegment"@) == d.element("SetTimeZoneStatementSegment"@),
{
    reveal_strlit("SetTimeZoneStatementSegment");
    reveal_strlit("AlterDatabaseStatementSegment");
    assert("SetTimeZoneStatementSegment"@.len() != "AlterDatabaseStatementSegment"@.len());
    reveal_strlit("AlterTableStatementSegment");
    assert("SetTimeZoneStatementSegment"@.len() != "AlterTableStatementSegment"@.len());
    reveal_strlit("AlterViewStatementSegment");
    assert("SetTimeZoneStatementSegment"@.len() != "AlterViewStatementSegment"@.len());
    reveal_strlit("CreateDatabaseStatementSegment");
    assert("SetTimeZoneStatementSegment"@.len() != "CreateDatabaseStatementSegment"@.len());
    reveal_strlit("FunctionContentsExpressionGrammar");
    assert("SetTimeZoneStatementSegment"@.len() != "FunctionContentsExpressionGrammar"@.len());
    reveal_strlit("GeneratedColumnDefinitionSegment");
    assert("SetTimeZoneStatementSegment"@.len() != "GeneratedColumnDefinitionSegment"@.len());
    reveal_strlit("GroupByClauseSegment");
    assert("SetTimeZoneStatementSegment"@.len() != "GroupByClauseSegment"@.len());
    reveal_strlit("InsertBracketedColumnReferenceListGrammar");
    assert("SetTimeZoneStatementSegment"@.len() != "InsertBracketedColumnReferenceListGrammar"@.len());
    reveal_strlit("ObjectReferenceSegment");
    assert("SetTimeZoneStatementSegment"@.len() != "ObjectReferenceSegment"@.len());
    reveal_strlit("PropertiesNakedIdentifierSegment");
    assert("SetTimeZoneStatementSegment"@.len() != "PropertiesNakedIdentifierSegment"@.len());
    reveal_strlit("PropertyNameSegment");
    assert("SetTimeZoneStatementSegment"@.len() != "PropertyNameSegment"@.len());
    reveal_strlit("ShowFunctionsGrammar");
    assert("SetTimeZoneStatementSegment"@.len() != "ShowFunctionsGrammar"@.len());
    reveal_strlit("ShowTablesGrammar");
    assert("SetTimeZoneStatementSegment"@.len() != "ShowTablesGrammar"@.len());
    reveal_strlit("ShowViewsGrammar");
    assert("SetTimeZoneStatementSegment"@.len() != "ShowViewsGrammar"@.len());
    reveal_strlit("TableConstraintSegment");
    assert("SetTimeZoneStatementSegment"@.len() != "TableConstraintSegment"@.len());
}

/// After the Databricks grammar changes, `SetTimeZoneStatementSegment` is what their last change of that
/// name sets, whatever dialect they start from.
pub proof fn lemma_databricks_changes_set_time_zone_statement_segment(d: DialectView)
    ensures
        databricks_grammar_changes(d).element("SetTimeZoneStatementSegment"@) == Some(set_time_zone_statement_segment_element()),
{
    reveal(databricks_grammar_changes);
    let d0 = d;
    let d1 = databricks_changes_part_0(d0);
    let d2 = databricks_changes_part_1(d1);
    let d3 = databricks_changes_part_2(d2);
    lemma_databricks_part_1_sets_set_time_zone_statement_segment(d1);
    lemma_databricks_part_2_keeps_set_time_zone_statement_segment(d2);
}


/// The Databricks grammar changes make `SetTimeZoneStatementSegment` the
/// grammar `SET TIME ZONE` and `LOCAL`, a quoted literal or an interval; whatever dialect they start from.
pub proof fn law_databricks_set_time_zone_statement(d: DialectView)
    ensures
        ({
            let e = ElementView::Grammar(GrammarView::sequence(seq![GrammarView::keyword("SET"@), GrammarView::keyword("TIME"@), GrammarView::keyword("ZONE"@), GrammarView::one_of(seq![GrammarView::keyword("LOCAL"@), GrammarView::reference("QuotedLiteralSegment"@), GrammarView::reference("IntervalExpressionSegment"@)])]));
            &&& databricks_grammar_changes(d).element("SetTimeZoneStatementSegment"@) == Some(e)
        }),
{
    lemma_databricks_changes_set_time_zone_statement_segment(d);
}

proof fn lemma_databricks_part_2_sets_function_contents_expression_grammar(d: DialectView)
    ensures
        has_grammar(databricks_changes_part_2(d).element("FunctionContentsExpressionGrammar"@), function_contents_expression_grammar_grammar()),
{
    reveal_strlit("FunctionContentsExpressionGrammar");
    reveal_strlit("AlterDatabaseStatementSegment");
    assert("FunctionContentsExpressionGrammar"@.len() != "AlterDatabaseStatementSegment"@.len());
    reveal_strlit("AlterTableStatementSegment");
    assert("FunctionContentsExpressionGrammar"@.len() != "AlterTableStatementSegment"@.len());
    reveal_strlit("AlterViewStatementSegment");
    assert("FunctionContentsExpressionGrammar"@.len() != "AlterViewStatementSegment"@.len());
    reveal_strlit("CreateDatabaseStatementSegment");
    assert("FunctionContentsExpressionGrammar"@.len() != "CreateDatabaseStatementSegment"@.len());
    reveal_strlit("GroupByClauseSegment");
    assert("FunctionContentsExpressionGrammar"@.len() != "GroupByClauseSegment"@.len());
    reveal_strlit("ObjectReferenceSegment");
    assert("FunctionContentsExpressionGrammar"@.len() != "ObjectReferenceSegment"@.len());
    reveal_strlit("PropertiesNakedIdentifierSegment");
    assert("FunctionContentsExpressionGrammar"@.len() != "PropertiesNakedIdentifierSegment"@.len());
    reveal_strlit("PropertyNameSegment");
    assert("FunctionContentsExpressionGrammar"@.len() != "PropertyNameSegment"@.len());
    reveal_strlit("TableConstraintSegment");
    assert("FunctionContentsExpressionGrammar"@.len() != "TableConstraintSegment"@.len());
}

/// After the Databricks grammar changes, `FunctionContentsExpressionGrammar` has the grammar that their last
/// change of that name gives it, whatever dialect they start from.
pub proof fn lemma_databricks_changes_function_contents_expression_grammar(d: DialectView)
    ensures
        has_grammar(databricks_grammar_changes(d).element("FunctionContentsExpressionGrammar"@), function_contents_expression_grammar_grammar()),
{
    reveal(databricks_grammar_changes);
    let d0 = d;
    let d1 = databricks_changes_part_0(d0);
    let d2 = databricks_changes_part_1(d1);
    let d3 = databricks_changes_part_2(d2);
    lemma_databricks_part_2_sets_function_contents_expression_grammar(d2);
}


/// The Databricks grammar changes give `FunctionContentsExpressionGrammar`
/// the grammar: an expression or a named argument; whatever dialect they start from (a node keeps its kind).
pub proof fn law_databricks_function_contents_expression(d: DialectView)
    ensures
        ({
            let g = GrammarView::one_of(seq![GrammarView::reference("ExpressionSegment"@), GrammarView::reference("NamedArgumentSegment"@)]);
            has_grammar(databricks_grammar_changes(d).element("FunctionContentsExpressionGrammar"@), g)
        }),
{
    lemma_databricks_changes_function_contents_expression_grammar(d);
}

} // verus!
