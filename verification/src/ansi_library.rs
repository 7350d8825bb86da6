//! The library of the ANSI dialect: the named grammar elements that every dialect starts from.
//! Each element is stated as a value and built by a function proved to give
//! that value.

use crate::dialect::{DialectModel, DialectView, Element, ElementView};
use crate::grammar::{Grammar, GrammarView, ParseMode, views, word_set};
use vstd::prelude::*;

verus! {

/// The ANSI element `ArrayTypeSchemaSegment`.
pub open spec fn array_type_schema_segment_element() -> ElementView {
    ElementView::Node { kind: "array_type"@, grammar: GrammarView::Nothing }
}

fn build_array_type_schema_segment() -> (e: Element)
    ensures
        e@ =~~= array_type_schema_segment_element(),
{
    Element::Node { kind: "array_type", grammar: Grammar::nothing() }
}

/// The ANSI element `ObjectReferenceSegment`.
pub open spec fn object_reference_segment_element() -> ElementView {
    ElementView::Node { kind: "object_reference"@, grammar: GrammarView::Delimited { elements: seq![GrammarView::Ref { name: "SingleIdentifierGrammar"@, optional: false }], allow_trailing: false, delimiter: Some(Box::new(GrammarView::Ref { name: "ObjectReferenceDelimiterGrammar"@, optional: false })), terminators: seq![GrammarView::Ref { name: "ObjectReferenceTerminatorGrammar"@, optional: false }], allow_gaps: false } }
}

fn build_object_reference_segment() -> (e: Element)
    ensures
        e@ =~~= object_reference_segment_element(),
{
    let g1: Vec<Grammar> = vec![Grammar::reference("SingleIdentifierGrammar")];
    assert(views(g1@) =~~= seq![GrammarView::Ref { name: "SingleIdentifierGrammar"@, optional: false }]);
    let g2: Vec<Grammar> = vec![Grammar::reference("ObjectReferenceTerminatorGrammar")];
    assert(views(g2@) =~~= seq![GrammarView::Ref { name: "ObjectReferenceTerminatorGrammar"@, optional: false }]);
    let g3 = Grammar::delimited_with(g1, false, Some(Grammar::reference("ObjectReferenceDelimiterGrammar")), g2, false);
    Element::Node { kind: "object_reference", grammar: g3 }
}

/// The ANSI element `DelimiterGrammar`.
pub open spec fn delimiter_grammar_element() -> ElementView {
    ElementView::Grammar(GrammarView::Ref { name: "SemicolonSegment"@, optional: false })
}

fn build_delimiter_grammar() -> (e: Element)
    ensures
        e@ =~~= delimiter_grammar_element(),
{
    Element::Grammar(Grammar::reference("SemicolonSegment"))
}

/// The ANSI element `SemicolonSegment`.
pub open spec fn semicolon_segment_element() -> ElementView {
    ElementView::Grammar(GrammarView::StringParser { template: ";"@, kind: "statement_terminator"@ })
}

fn build_semicolon_segment() -> (e: Element)
    ensures
        e@ =~~= semicolon_segment_element(),
{
    Element::Grammar(Grammar::string_parser(";", "statement_terminator"))
}

/// The ANSI element `ColonSegment`.
pub open spec fn colon_segment_element() -> ElementView {
    ElementView::Grammar(GrammarView::StringParser { template: ":"@, kind: "colon"@ })
}

fn build_colon_segment() -> (e: Element)
    ensures
        e@ =~~= colon_segment_element(),
{
    Element::Grammar(Grammar::string_parser(":", "colon"))
}

/// The ANSI element `SliceSegment`.
pub open spec fn slice_segment_element() -> ElementView {
    ElementView::Grammar(GrammarView::StringParser { template: ":"@, kind: "slice"@ })
}

fn build_slice_segment() -> (e: Element)
    ensures
        e@ =~~= slice_segment_element(),
{
    Element::Grammar(Grammar::string_parser(":", "slice"))
}

/// The ANSI element `ColonDelimiterSegment`.
pub open spec fn colon_delimiter_segment_element() -> ElementView {
    ElementView::Grammar(GrammarView::StringParser { template: ":"@, kind: "colon_delimiter"@ })
}

fn build_colon_delimiter_segment() -> (e: Element)
    ensures
        e@ =~~= colon_delimiter_segment_element(),
{
    Element::Grammar(Grammar::string_parser(":", "colon_delimiter"))
}

/// The ANSI element `StartBracketSegment`.
pub open spec fn start_bracket_segment_element() -> ElementView {
    ElementView::Grammar(GrammarView::StringParser { template: "("@, kind: "start_bracket"@ })
}

fn build_start_bracket_segment() -> (e: Element)
    ensures
        e@ =~~= start_bracket_segment_element(),
{
    Element::Grammar(Grammar::string_parser("(", "start_bracket"))
}

/// The ANSI element `EndBracketSegment`.
pub open spec fn end_bracket_segment_element() -> ElementView {
    ElementView::Grammar(GrammarView::StringParser { template: ")"@, kind: "end_bracket"@ })
}

fn build_end_bracket_segment() -> (e: Element)
    ensures
        e@ =~~= end_bracket_segment_element(),
{
    Element::Grammar(Grammar::string_parser(")", "end_bracket"))
}

/// The ANSI element `StartSquareBracketSegment`.
pub open spec fn start_square_bracket_segment_element() -> ElementView {
    ElementView::Grammar(GrammarView::StringParser { template: "["@, kind: "start_square_bracket"@ })
}

fn build_start_square_bracket_segment() -> (e: Element)
    ensures
        e@ =~~= start_square_bracket_segment_element(),
{
    Element::Grammar(Grammar::string_parser("[", "start_square_bracket"))
}

/// The ANSI element `EndSquareBracketSegment`.
pub open spec fn end_square_bracket_segment_element() -> ElementView {
    ElementView::Grammar(GrammarView::StringParser { template: "]"@, kind: "end_square_bracket"@ })
}

fn build_end_square_bracket_segment() -> (e: Element)
    ensures
        e@ =~~= end_square_bracket_segment_element(),
{
    Element::Grammar(Grammar::string_parser("]", "end_square_bracket"))
}

/// The ANSI element `StartCurlyBracketSegment`.
pub open spec fn start_curly_bracket_segment_element() -> ElementView {
    ElementView::Grammar(GrammarView::StringParser { template: "{"@, kind: "start_curly_bracket"@ })
}

fn build_start_curly_bracket_segment() -> (e: Element)
    ensures
        e@ =~~= start_curly_bracket_segment_element(),
{
    Element::Grammar(Grammar::string_parser("{", "start_curly_bracket"))
}

/// The ANSI element `EndCurlyBracketSegment`.
pub open spec fn end_curly_bracket_segment_element() -> ElementView {
    ElementView::Grammar(GrammarView::StringParser { template: "}"@, kind: "end_curly_bracket"@ })
}

fn build_end_curly_bracket_segment() -> (e: Element)
    ensures
        e@ =~~= end_curly_bracket_segment_element(),
{
    Element::Grammar(Grammar::string_parser("}", "end_curly_bracket"))
}

/// The ANSI element `CommaSegment`.
pub open spec fn comma_segment_element() -> ElementView {
    ElementView::Grammar(GrammarView::StringParser { template: ","@, kind: "comma"@ })
}

fn build_comma_segment() -> (e: Element)
    ensures
        e@ =~~= comma_segment_element(),
{
    Element::Grammar(Grammar::string_parser(",", "comma"))
}

/// The ANSI element `DotSegment`.
pub open spec fn dot_segment_element() -> ElementView {
    ElementView::Grammar(GrammarView::StringParser { template: "."@, kind: "dot"@ })
}

fn build_dot_segment() -> (e: Element)
    ensures
        e@ =~~= dot_segment_element(),
{
    Element::Grammar(Grammar::string_parser(".", "dot"))
}

/// The ANSI element `StarSegment`.
pub open spec fn star_segment_element() -> ElementView {
    ElementView::Grammar(GrammarView::StringParser { template: "*"@, kind: "star"@ })
}

fn build_star_segment() -> (e: Element)
    ensures
        e@ =~~= star_segment_element(),
{
    Element::Grammar(Grammar::string_parser("*", "star"))
}

/// The ANSI element `TildeSegment`.
pub open spec fn tilde_segment_element() -> ElementView {
    ElementView::Grammar(GrammarView::StringParser { template: "~"@, kind: "tilde"@ })
}

fn build_tilde_segment() -> (e: Element)
    ensures
        e@ =~~= tilde_segment_element(),
{
    Element::Grammar(Grammar::string_parser("~", "tilde"))
}

/// The ANSI element `ParameterSegment`.
pub open spec fn parameter_segment_element() -> ElementView {
    ElementView::Grammar(GrammarView::StringParser { template: "?"@, kind: "parameter"@ })
}

fn build_parameter_segment() -> (e: Element)
    ensures
        e@ =~~= parameter_segment_element(),
{
    Element::Grammar(Grammar::string_parser("?", "parameter"))
}

/// The ANSI element `CastOperatorSegment`.
pub open spec fn cast_operator_segment_element() -> ElementView {
    ElementView::Grammar(GrammarView::StringParser { template: "::"@, kind: "casting_operator"@ })
}

fn build_cast_operator_segment() -> (e: Element)
    ensures
        e@ =~~= cast_operator_segment_element(),
{
    Element::Grammar(Grammar::string_parser("::", "casting_operator"))
}

/// The ANSI element `PlusSegment`.
pub open spec fn plus_segment_element() -> ElementView {
    ElementView::Grammar(GrammarView::StringParser { template: "+"@, kind: "binary_operator"@ })
}

fn build_plus_segment() -> (e: Element)
    ensures
        e@ =~~= plus_segment_element(),
{
    Element::Grammar(Grammar::string_parser("+", "binary_operator"))
}

/// The ANSI element `MinusSegment`.
pub open spec fn minus_segment_element() -> ElementView {
    ElementView::Grammar(GrammarView::StringParser { template: "-"@, kind: "binary_operator"@ })
}

fn build_minus_segment() -> (e: Element)
    ensures
        e@ =~~= minus_segment_element(),
{
    Element::Grammar(Grammar::string_parser("-", "binary_operator"))
}

/// The ANSI element `PositiveSegment`.
pub open spec fn positive_segment_element() -> ElementView {
    ElementView::Grammar(GrammarView::StringParser { template: "+"@, kind: "sign_indicator"@ })
}

fn build_positive_segment() -> (e: Element)
    ensures
        e@ =~~= positive_segment_element(),
{
    Element::Grammar(Grammar::string_parser("+", "sign_indicator"))
}

/// The ANSI element `NegativeSegment`.
pub open spec fn negative_segment_element() -> ElementView {
    ElementView::Grammar(GrammarView::StringParser { template: "-"@, kind: "sign_indicator"@ })
}

fn build_negative_segment() -> (e: Element)
    ensures
        e@ =~~= negative_segment_element(),
{
    Element::Grammar(Grammar::string_parser("-", "sign_indicator"))
}

/// The ANSI element `DivideSegment`.
pub open spec fn divide_segment_element() -> ElementView {
    ElementView::Grammar(GrammarView::StringParser { template: "/"@, kind: "binary_operator"@ })
}

fn build_divide_segment() -> (e: Element)
    ensures
        e@ =~~= divide_segment_element(),
{
    Element::Grammar(Grammar::string_parser("/", "binary_operator"))
}

/// The ANSI element `MultiplySegment`.
pub open spec fn multiply_segment_element() -> ElementView {
    ElementView::Grammar(GrammarView::StringParser { template: "*"@, kind: "binary_operator"@ })
}

fn build_multiply_segment() -> (e: Element)
    ensures
        e@ =~~= multiply_segment_element(),
{
    Element::Grammar(Grammar::string_parser("*", "binary_operator"))
}

/// The ANSI element `ModuloSegment`.
pub open spec fn modulo_segment_element() -> ElementView {
    ElementView::Grammar(GrammarView::StringParser { template: "%"@, kind: "binary_operator"@ })
}

fn build_modulo_segment() -> (e: Element)
    ensures
        e@ =~~= modulo_segment_element(),
{
    Element::Grammar(Grammar::string_parser("%", "binary_operator"))
}

/// The ANSI element `SlashSegment`.
pub open spec fn slash_segment_element() -> ElementView {
    ElementView::Grammar(GrammarView::StringParser { template: "/"@, kind: "slash"@ })
}

fn build_slash_segment() -> (e: Element)
    ensures
        e@ =~~= slash_segment_element(),
{
    Element::Grammar(Grammar::string_parser("/", "slash"))
}

/// The ANSI element `AmpersandSegment`.
pub open spec fn ampersand_segment_element() -> ElementView {
    ElementView::Grammar(GrammarView::StringParser { template: "&"@, kind: "ampersand"@ })
}

fn build_ampersand_segment() -> (e: Element)
    ensures
        e@ =~~= ampersand_segment_element(),
{
    Element::Grammar(Grammar::string_parser("&", "ampersand"))
}

/// The ANSI element `PipeSegment`.
pub open spec fn pipe_segment_element() -> ElementView {
    ElementView::Grammar(GrammarView::StringParser { template: "|"@, kind: "pipe"@ })
}

fn build_pipe_segment() -> (e: Element)
    ensures
        e@ =~~= pipe_segment_element(),
{
    Element::Grammar(Grammar::string_parser("|", "pipe"))
}

/// The ANSI element `BitwiseXorSegment`.
pub open spec fn bitwise_xor_segment_element() -> ElementView {
    ElementView::Grammar(GrammarView::StringParser { template: "^"@, kind: "binary_operator"@ })
}

fn build_bitwise_xor_segment() -> (e: Element)
    ensures
        e@ =~~= bitwise_xor_segment_element(),
{
    Element::Grammar(Grammar::string_parser("^", "binary_operator"))
}

/// The ANSI element `LikeOperatorSegment`.
pub open spec fn like_operator_segment_element() -> ElementView {
    ElementView::Grammar(GrammarView::TypedParser { template: "like_operator"@, kind: "comparison_operator"@ })
}

fn build_like_operator_segment() -> (e: Element)
    ensures
        e@ =~~= like_operator_segment_element(),
{
    Element::Grammar(Grammar::typed_parser("like_operator", "comparison_operator"))
}

/// The ANSI element `RawNotSegment`.
pub open spec fn raw_not_segment_element() -> ElementView {
    ElementView::Grammar(GrammarView::StringParser { template: "!"@, kind: "raw_comparison_operator"@ })
}

fn build_raw_not_segment() -> (e: Element)
    ensures
        e@ =~~= raw_not_segment_element(),
{
    Element::Grammar(Grammar::string_parser("!", "raw_comparison_operator"))
}

/// The ANSI element `RawEqualsSegment`.
pub open spec fn raw_equals_segment_element() -> ElementView {
    ElementView::Grammar(GrammarView::StringParser { template: "="@, kind: "raw_comparison_operator"@ })
}

fn build_raw_equals_segment() -> (e: Element)
    ensures
        e@ =~~= raw_equals_segment_element(),
{
    Element::Grammar(Grammar::string_parser("=", "raw_comparison_operator"))
}

/// The ANSI element `RawGreaterThanSegment`.
pub open spec fn raw_greater_than_segment_element() -> ElementView {
    ElementView::Grammar(GrammarView::StringParser { template: ">"@, kind: "raw_comparison_operator"@ })
}

fn build_raw_greater_than_segment() -> (e: Element)
    ensures
        e@ =~~= raw_greater_than_segment_element(),
{
    Element::Grammar(Grammar::string_parser(">", "raw_comparison_operator"))
}

/// The ANSI element `RawLessThanSegment`.
pub open spec fn raw_less_than_segment_element() -> ElementView {
    ElementView::Grammar(GrammarView::StringParser { template: "<"@, kind: "raw_comparison_operator"@ })
}

fn build_raw_less_than_segment() -> (e: Element)
    ensures
        e@ =~~= raw_less_than_segment_element(),
{
    Element::Grammar(Grammar::string_parser("<", "raw_comparison_operator"))
}

/// The ANSI element `BareFunctionSegment`.
pub open spec fn bare_function_segment_element() -> ElementView {
    ElementView::WordsOf { set: "bare_functions"@, kind: "bare_function"@ }
}

fn build_bare_function_segment() -> (e: Element)
    ensures
        e@ =~~= bare_function_segment_element(),
{
    Element::WordsOf { set: "bare_functions", kind: "bare_function" }
}

/// The ANSI element `NakedIdentifierSegment`.
pub open spec fn naked_identifier_segment_element() -> ElementView {
    ElementView::IdentifierNotIn { pattern: "[\\p{L}\\p{N}_]*[\\p{L}][\\p{L}\\p{N}_]*"@, kind: "naked_identifier"@, set: "reserved_keywords"@ }
}

fn build_naked_identifier_segment() -> (e: Element)
    ensures
        e@ =~~= naked_identifier_segment_element(),
{
    Element::IdentifierNotIn { pattern: "[\\p{L}\\p{N}_]*[\\p{L}][\\p{L}\\p{N}_]*", kind: "naked_identifier", set: "reserved_keywords" }
}

/// The ANSI element `ParameterNameSegment`.
pub open spec fn parameter_name_segment_element() -> ElementView {
    ElementView::Grammar(GrammarView::RegexParser { pattern: "\\\"?[\\p{L}][\\p{L}\\p{N}_]*\\\"?"@, kind: "parameter"@, anti_template: None })
}

fn build_parameter_name_segment() -> (e: Element)
    ensures
        e@ =~~= parameter_name_segment_element(),
{
    Element::Grammar(Grammar::regex_parser("\\\"?[\\p{L}][\\p{L}\\p{N}_]*\\\"?", "parameter"))
}

/// The ANSI element `FunctionNameIdentifierSegment`.
pub open spec fn function_name_identifier_segment_element() -> ElementView {
    ElementView::Grammar(GrammarView::TypedParser { template: "word"@, kind: "function_name_identifier"@ })
}

fn build_function_name_identifier_segment() -> (e: Element)
    ensures
        e@ =~~= function_name_identifier_segment_element(),
{
    Element::Grammar(Grammar::typed_parser("word", "function_name_identifier"))
}

/// The ANSI element `DatatypeIdentifierSegment`.
pub open spec fn datatype_identifier_segment_element() -> ElementView {
    ElementView::Grammar(GrammarView::OneOf { elements: seq![GrammarView::RegexParser { pattern: "[\\p{L}_][\\p{L}\\p{N}_]*"@, kind: "data_type_identifier"@, anti_template: Some(word_set(seq!["NOT"])) }, GrammarView::Exclude { grammar: Box::new(GrammarView::Ref { name: "SingleIdentifierGrammar"@, optional: false }), exclude: Box::new(GrammarView::Ref { name: "NakedIdentifierSegment"@, optional: false }) }], terminators: seq![] })
}

fn build_datatype_identifier_segment() -> (e: Element)
    ensures
        e@ =~~= datatype_identifier_segment_element(),
{
    let g1: Vec<&'static str> = vec!["NOT"];
    assert(g1@ =~= seq!["NOT"]);
    let g2 = Grammar::reference("SingleIdentifierGrammar").exclude(Grammar::reference("NakedIdentifierSegment"));
    let g3: Vec<Grammar> = vec![Grammar::regex_parser_excluding("[\\p{L}_][\\p{L}\\p{N}_]*", "data_type_identifier", g1), g2];
    assert(views(g3@) =~~= seq![GrammarView::RegexParser { pattern: "[\\p{L}_][\\p{L}\\p{N}_]*"@, kind: "data_type_identifier"@, anti_template: Some(word_set(seq!["NOT"])) }, GrammarView::Exclude { grammar: Box::new(GrammarView::Ref { name: "SingleIdentifierGrammar"@, optional: false }), exclude: Box::new(GrammarView::Ref { name: "NakedIdentifierSegment"@, optional: false }) }]);
    let g4: Vec<Grammar> = Vec::new();
    assert(views(g4@) =~= Seq::<GrammarView>::empty());
    let g5 = Grammar::one_of_with(g3, g4);
    Element::Grammar(g5)
}

/// The ANSI element `DatetimeUnitSegment`.
pub open spec fn datetime_unit_segment_element() -> ElementView {
    ElementView::WordsOf { set: "datetime_units"@, kind: "date_part"@ }
}

fn build_datetime_unit_segment() -> (e: Element)
    ensures
        e@ =~~= datetime_unit_segment_element(),
{
    Element::WordsOf { set: "datetime_units", kind: "date_part" }
}

/// The ANSI element `DatePartFunctionName`.
pub open spec fn date_part_function_name_element() -> ElementView {
    ElementView::WordsOf { set: "date_part_function_name"@, kind: "function_name_identifier"@ }
}

fn build_date_part_function_name() -> (e: Element)
    ensures
        e@ =~~= date_part_function_name_element(),
{
    Element::WordsOf { set: "date_part_function_name", kind: "function_name_identifier" }
}

/// The ANSI element `QuotedIdentifierSegment`.
pub open spec fn quoted_identifier_segment_element() -> ElementView {
    ElementView::Grammar(GrammarView::TypedParser { template: "double_quote"@, kind: "quoted_identifier"@ })
}

fn build_quoted_identifier_segment() -> (e: Element)
    ensures
        e@ =~~= quoted_identifier_segment_element(),
{
    Element::Grammar(Grammar::typed_parser("double_quote", "quoted_identifier"))
}

/// The ANSI element `QuotedLiteralSegment`.
pub open spec fn quoted_literal_segment_element() -> ElementView {
    ElementView::Grammar(GrammarView::TypedParser { template: "single_quote"@, kind: "quoted_literal"@ })
}

fn build_quoted_literal_segment() -> (e: Element)
    ensures
        e@ =~~= quoted_literal_segment_element(),
{
    Element::Grammar(Grammar::typed_parser("single_quote", "quoted_literal"))
}

/// The ANSI element `SingleQuotedIdentifierSegment`.
pub open spec fn single_quoted_identifier_segment_element() -> ElementView {
    ElementView::Grammar(GrammarView::TypedParser { template: "single_quote"@, kind: "quoted_identifier"@ })
}

fn build_single_quoted_identifier_segment() -> (e: Element)
    ensures
        e@ =~~= single_quoted_identifier_segment_element(),
{
    Element::Grammar(Grammar::typed_parser("single_quote", "quoted_identifier"))
}

/// The ANSI element `NumericLiteralSegment`.
pub open spec fn numeric_literal_segment_element() -> ElementView {
    ElementView::Grammar(GrammarView::TypedParser { template: "numeric_literal"@, kind: "numeric_literal"@ })
}

fn build_numeric_literal_segment() -> (e: Element)
    ensures
        e@ =~~= numeric_literal_segment_element(),
{
    Element::Grammar(Grammar::typed_parser("numeric_literal", "numeric_literal"))
}

/// The ANSI element `NullLiteralSegment`.
pub open spec fn null_literal_segment_element() -> ElementView {
    ElementView::Grammar(GrammarView::StringParser { template: "null"@, kind: "null_literal"@ })
}

fn build_null_literal_segment() -> (e: Element)
    ensures
        e@ =~~= null_literal_segment_element(),
{
    Element::Grammar(Grammar::string_parser("null", "null_literal"))
}

/// The ANSI element `NanLiteralSegment`.
pub open spec fn nan_literal_segment_element() -> ElementView {
    ElementView::Grammar(GrammarView::StringParser { template: "nan"@, kind: "null_literal"@ })
}

fn build_nan_literal_segment() -> (e: Element)
    ensures
        e@ =~~= nan_literal_segment_element(),
{
    Element::Grammar(Grammar::string_parser("nan", "null_literal"))
}

/// The ANSI element `TrueSegment`.
pub open spec fn true_segment_element() -> ElementView {
    ElementView::Grammar(GrammarView::StringParser { template: "true"@, kind: "boolean_literal"@ })
}

fn build_true_segment() -> (e: Element)
    ensures
        e@ =~~= true_segment_element(),
{
    Element::Grammar(Grammar::string_parser("true", "boolean_literal"))
}

/// The ANSI element `FalseSegment`.
pub open spec fn false_segment_element() -> ElementView {
    ElementView::Grammar(GrammarView::StringParser { template: "false"@, kind: "boolean_literal"@ })
}

fn build_false_segment() -> (e: Element)
    ensures
        e@ =~~= false_segment_element(),
{
    Element::Grammar(Grammar::string_parser("false", "boolean_literal"))
}

/// The ANSI element `SingleIdentifierGrammar`.
pub open spec fn single_identifier_grammar_element() -> ElementView {
    ElementView::Grammar(GrammarView::OneOf { elements: seq![GrammarView::Ref { name: "NakedIdentifierSegment"@, optional: false }, GrammarView::Ref { name: "QuotedIdentifierSegment"@, optional: false }], terminators: seq![GrammarView::Ref { name: "DotSegment"@, optional: false }] })
}

fn build_single_identifier_grammar() -> (e: Element)
    ensures
        e@ =~~= single_identifier_grammar_element(),
{
    let g1: Vec<Grammar> = vec![Grammar::reference("NakedIdentifierSegment"), Grammar::reference("QuotedIdentifierSegment")];
    assert(views(g1@) =~~= seq![GrammarView::Ref { name: "NakedIdentifierSegment"@, optional: false }, GrammarView::Ref { name: "QuotedIdentifierSegment"@, optional: false }]);
    let g2: Vec<Grammar> = vec![Grammar::reference("DotSegment")];
    assert(views(g2@) =~~= seq![GrammarView::Ref { name: "DotSegment"@, optional: false }]);
    let g3 = Grammar::one_of_with(g1, g2);
    Element::Grammar(g3)
}

/// The ANSI element `BooleanLiteralGrammar`.
pub open spec fn boolean_literal_grammar_element() -> ElementView {
    ElementView::Grammar(GrammarView::OneOf { elements: seq![GrammarView::Ref { name: "TrueSegment"@, optional: false }, GrammarView::Ref { name: "FalseSegment"@, optional: false }], terminators: seq![] })
}

fn build_boolean_literal_grammar() -> (e: Element)
    ensures
        e@ =~~= boolean_literal_grammar_element(),
{
    let g1: Vec<Grammar> = vec![Grammar::reference("TrueSegment"), Grammar::reference("FalseSegment")];
    assert(views(g1@) =~~= seq![GrammarView::Ref { name: "TrueSegment"@, optional: false }, GrammarView::Ref { name: "FalseSegment"@, optional: false }]);
    let g2: Vec<Grammar> = Vec::new();
    assert(views(g2@) =~= Seq::<GrammarView>::empty());
    let g3 = Grammar::one_of_with(g1, g2);
    Element::Grammar(g3)
}

/// The ANSI element `ArithmeticBinaryOperatorGrammar`.
pub open spec fn arithmetic_binary_operator_grammar_element() -> ElementView {
    ElementView::Grammar(GrammarView::OneOf { elements: seq![GrammarView::Ref { name: "PlusSegment"@, optional: false }, GrammarView::Ref { name: "MinusSegment"@, optional: false }, GrammarView::Ref { name: "DivideSegment"@, optional: false }, GrammarView::Ref { name: "MultiplySegment"@, optional: false }, GrammarView::Ref { name: "ModuloSegment"@, optional: false }, GrammarView::Ref { name: "BitwiseAndSegment"@, optional: false }, GrammarView::Ref { name: "BitwiseOrSegment"@, optional: false }, GrammarView::Ref { name: "BitwiseXorSegment"@, optional: false }, GrammarView::Ref { name: "BitwiseLShiftSegment"@, optional: false }, GrammarView::Ref { name: "BitwiseRShiftSegment"@, optional: false }], terminators: seq![] })
}

fn build_arithmetic_binary_operator_grammar() -> (e: Element)
    ensures
        e@ =~~= arithmetic_binary_operator_grammar_element(),
{
    let g1: Vec<Grammar> = vec![Grammar::reference("PlusSegment"), Grammar::reference("MinusSegment"), Grammar::reference("DivideSegment"), Grammar::reference("MultiplySegment"), Grammar::reference("ModuloSegment"), Grammar::reference("BitwiseAndSegment"), Grammar::reference("BitwiseOrSegment"), Grammar::reference("BitwiseXorSegment"), Grammar::reference("BitwiseLShiftSegment"), Grammar::reference("BitwiseRShiftSegment")];
    assert(views(g1@) =~~= seq![GrammarView::Ref { name: "PlusSegment"@, optional: false }, GrammarView::Ref { name: "MinusSegment"@, optional: false }, GrammarView::Ref { name: "DivideSegment"@, optional: false }, GrammarView::Ref { name: "MultiplySegment"@, optional: false }, GrammarView::Ref { name: "ModuloSegment"@, optional: false }, GrammarView::Ref { name: "BitwiseAndSegment"@, optional: false }, GrammarView::Ref { name: "BitwiseOrSegment"@, optional: false }, GrammarView::Ref { name: "BitwiseXorSegment"@, optional: false }, GrammarView::Ref { name: "BitwiseLShiftSegment"@, optional: false }, GrammarView::Ref { name: "BitwiseRShiftSegment"@, optional: false }]);
    let g2: Vec<Grammar> = Vec::new();
    assert(views(g2@) =~= Seq::<GrammarView>::empty());
    let g3 = Grammar::one_of_with(g1, g2);
    Element::Grammar(g3)
}

/// The ANSI element `SignedSegmentGrammar`.
pub open spec fn signed_segment_grammar_element() -> ElementView {
    ElementView::Grammar(GrammarView::OneOf { elements: seq![GrammarView::Ref { name: "PositiveSegment"@, optional: false }, GrammarView::Ref { name: "NegativeSegment"@, optional: false }], terminators: seq![] })
}

fn build_signed_segment_grammar() -> (e: Element)
    ensures
        e@ =~~= signed_segment_grammar_element(),
{
    let g1: Vec<Grammar> = vec![Grammar::reference("PositiveSegment"), Grammar::reference("NegativeSegment")];
    assert(views(g1@) =~~= seq![GrammarView::Ref { name: "PositiveSegment"@, optional: false }, GrammarView::Ref { name: "NegativeSegment"@, optional: false }]);
    let g2: Vec<Grammar> = Vec::new();
    assert(views(g2@) =~= Seq::<GrammarView>::empty());
    let g3 = Grammar::one_of_with(g1, g2);
    Element::Grammar(g3)
}

/// The ANSI element `StringBinaryOperatorGrammar`.
pub open spec fn string_binary_operator_grammar_element() -> ElementView {
    ElementView::Grammar(GrammarView::OneOf { elements: seq![GrammarView::Ref { name: "ConcatSegment"@, optional: false }], terminators: seq![] })
}

fn build_string_binary_operator_grammar() -> (e: Element)
    ensures
        e@ =~~= string_binary_operator_grammar_element(),
{
    let g1: Vec<Grammar> = vec![Grammar::reference("ConcatSegment")];
    assert(views(g1@) =~~= seq![GrammarView::Ref { name: "ConcatSegment"@, optional: false }]);
    let g2: Vec<Grammar> = Vec::new();
    assert(views(g2@) =~= Seq::<GrammarView>::empty());
    let g3 = Grammar::one_of_with(g1, g2);
    Element::Grammar(g3)
}

/// The ANSI element `BooleanBinaryOperatorGrammar`.
pub open spec fn boolean_binary_operator_grammar_element() -> ElementView {
    ElementView::Grammar(GrammarView::OneOf { elements: seq![GrammarView::Ref { name: "AndOperatorGrammar"@, optional: false }, GrammarView::Ref { name: "OrOperatorGrammar"@, optional: false }], terminators: seq![] })
}

fn build_boolean_binary_operator_grammar() -> (e: Element)
    ensures
        e@ =~~= boolean_binary_operator_grammar_element(),
{
    let g1: Vec<Grammar> = vec![Grammar::reference("AndOperatorGrammar"), Grammar::reference("OrOperatorGrammar")];
    assert(views(g1@) =~~= seq![GrammarView::Ref { name: "AndOperatorGrammar"@, optional: false }, GrammarView::Ref { name: "OrOperatorGrammar"@, optional: false }]);
    let g2: Vec<Grammar> = Vec::new();
    assert(views(g2@) =~= Seq::<GrammarView>::empty());
    let g3 = Grammar::one_of_with(g1, g2);
    Element::Grammar(g3)
}

/// The ANSI element `ComparisonOperatorGrammar`.
pub open spec fn comparison_operator_grammar_element() -> ElementView {
    ElementView::Grammar(GrammarView::OneOf { elements: seq![GrammarView::Ref { name: "EqualsSegment"@, optional: false }, GrammarView::Ref { name: "GreaterThanSegment"@, optional: false }, GrammarView::Ref { name: "LessThanSegment"@, optional: false }, GrammarView::Ref { name: "GreaterThanOrEqualToSegment"@, optional: false }, GrammarView::Ref { name: "LessThanOrEqualToSegment"@, optional: false }, GrammarView::Ref { name: "NotEqualToSegment"@, optional: false }, GrammarView::Ref { name: "LikeOperatorSegment"@, optional: false }, GrammarView::Sequence { elements: seq![GrammarView::Keyword { word: "IS"@ }, GrammarView::Keyword { word: "DISTINCT"@ }, GrammarView::Keyword { word: "FROM"@ }], terminators: seq![], parse_mode: ParseMode::Strict }, GrammarView::Sequence { elements: seq![GrammarView::Keyword { word: "IS"@ }, GrammarView::Keyword { word: "NOT"@ }, GrammarView::Keyword { word: "DISTINCT"@ }, GrammarView::Keyword { word: "FROM"@ }], terminators: seq![], parse_mode: ParseMode::Strict }], terminators: seq![] })
}

fn build_comparison_operator_grammar() -> (e: Element)
    ensures
        e@ =~~= comparison_operator_grammar_element(),
{
    let g1: Vec<Grammar> = vec![Grammar::keyword("IS"), Grammar::keyword("DISTINCT"), Grammar::keyword("FROM")];
    assert(views(g1@) =~~= seq![GrammarView::Keyword { word: "IS"@ }, GrammarView::Keyword { word: "DISTINCT"@ }, GrammarView::Keyword { word: "FROM"@ }]);
    let g2: Vec<Grammar> = Vec::new();
    assert(views(g2@) =~= Seq::<GrammarView>::empty());
    let g3 = Grammar::sequence_with(g1, g2, ParseMode::Strict);
    let g4: Vec<Grammar> = vec![Grammar::keyword("IS"), Grammar::keyword("NOT"), Grammar::keyword("DISTINCT"), Grammar::keyword("FROM")];
    assert(views(g4@) =~~= seq![GrammarView::Keyword { word: "IS"@ }, GrammarView::Keyword { word: "NOT"@ }, GrammarView::Keyword { word: "DISTINCT"@ }, GrammarView::Keyword { word: "FROM"@ }]);
    let g5: Vec<Grammar> = Vec::new();
    assert(views(g5@) =~= Seq::<GrammarView>::empty());
    let g6 = Grammar::sequence_with(g4, g5, ParseMode::Strict);
    let g7: Vec<Grammar> = vec![Grammar::reference("EqualsSegment"), Grammar::reference("GreaterThanSegment"), Grammar::reference("LessThanSegment"), Grammar::reference("GreaterThanOrEqualToSegment"), Grammar::reference("LessThanOrEqualToSegment"), Grammar::reference("NotEqualToSegment"), Grammar::reference("LikeOperatorSegment"), g3, g6];
    assert(views(g7@) =~~= seq![GrammarView::Ref { name: "EqualsSegment"@, optional: false }, GrammarView::Ref { name: "GreaterThanSegment"@, optional: false }, GrammarView::Ref { name: "LessThanSegment"@, optional: false }, GrammarView::Ref { name: "GreaterThanOrEqualToSegment"@, optional: false }, GrammarView::Ref { name: "LessThanOrEqualToSegment"@, optional: false }, GrammarView::Ref { name: "NotEqualToSegment"@, optional: false }, GrammarView::Ref { name: "LikeOperatorSegment"@, optional: false }, GrammarView::Sequence { elements: seq![GrammarView::Keyword { word: "IS"@ }, GrammarView::Keyword { word: "DISTINCT"@ }, GrammarView::Keyword { word: "FROM"@ }], terminators: seq![], parse_mode: ParseMode::Strict }, GrammarView::Sequence { elements: seq![GrammarView::Keyword { word: "IS"@ }, GrammarView::Keyword { word: "NOT"@ }, GrammarView::Keyword { word: "DISTINCT"@ }, GrammarView::Keyword { word: "FROM"@ }], terminators: seq![], parse_mode: ParseMode::Strict }]);
    let g8: Vec<Grammar> = Vec::new();
    assert(views(g8@) =~= Seq::<GrammarView>::empty());
    let g9 = Grammar::one_of_with(g7, g8);
    Element::Grammar(g9)
}

/// The ANSI element `DateTimeLiteralGrammar`.
pub open spec fn date_time_literal_grammar_element() -> ElementView {
    ElementView::Grammar(GrammarView::Sequence { elements: seq![GrammarView::OneOf { elements: seq![GrammarView::Keyword { word: "DATE"@ }, GrammarView::Keyword { word: "TIME"@ }, GrammarView::Keyword { word: "TIMESTAMP"@ }, GrammarView::Keyword { word: "INTERVAL"@ }], terminators: seq![] }, GrammarView::TypedParser { template: "single_quote"@, kind: "date_constructor_literal"@ }], terminators: seq![], parse_mode: ParseMode::Strict })
}

fn build_date_time_literal_grammar() -> (e: Element)
    ensures
        e@ =~~= date_time_literal_grammar_element(),
{
    let g1: Vec<Grammar> = vec![Grammar::keyword("DATE"), Grammar::keyword("TIME"), Grammar::keyword("TIMESTAMP"), Grammar::keyword("INTERVAL")];
    assert(views(g1@) =~~= seq![GrammarView::Keyword { word: "DATE"@ }, GrammarView::Keyword { word: "TIME"@ }, GrammarView::Keyword { word: "TIMESTAMP"@ }, GrammarView::Keyword { word: "INTERVAL"@ }]);
    let g2: Vec<Grammar> = Vec::new();
    assert(views(g2@) =~= Seq::<GrammarView>::empty());
    let g3 = Grammar::one_of_with(g1, g2);
    let g4: Vec<Grammar> = vec![g3, Grammar::typed_parser("single_quote", "date_constructor_literal")];
    assert(views(g4@) =~~= seq![GrammarView::OneOf { elements: seq![GrammarView::Keyword { word: "DATE"@ }, GrammarView::Keyword { word: "TIME"@ }, GrammarView::Keyword { word: "TIMESTAMP"@ }, GrammarView::Keyword { word: "INTERVAL"@ }], terminators: seq![] }, GrammarView::TypedParser { template: "single_quote"@, kind: "date_constructor_literal"@ }]);
    let g5: Vec<Grammar> = Vec::new();
    assert(views(g5@) =~= Seq::<GrammarView>::empty());
    let g6 = Grammar::sequence_with(g4, g5, ParseMode::Strict);
    Element::Grammar(g6)
}

/// The ANSI element `MergeIntoLiteralGrammar`.
pub open spec fn merge_into_literal_grammar_element() -> ElementView {
    ElementView::Grammar(GrammarView::Sequence { elements: seq![GrammarView::Keyword { word: "MERGE"@ }, GrammarView::Keyword { word: "INTO"@ }], terminators: seq![], parse_mode: ParseMode::Strict })
}

fn build_merge_into_literal_grammar() -> (e: Element)
    ensures
        e@ =~~= merge_into_literal_grammar_element(),
{
    let g1: Vec<Grammar> = vec![Grammar::keyword("MERGE"), Grammar::keyword("INTO")];
    assert(views(g1@) =~~= seq![GrammarView::Keyword { word: "MERGE"@ }, GrammarView::Keyword { word: "INTO"@ }]);
    let g2: Vec<Grammar> = Vec::new();
    assert(views(g2@) =~= Seq::<GrammarView>::empty());
    let g3 = Grammar::sequence_with(g1, g2, ParseMode::Strict);
    Element::Grammar(g3)
}

/// The ANSI element `LiteralGrammar`.
pub open spec fn literal_grammar_element() -> ElementView {
    ElementView::Grammar(GrammarView::OneOf { elements: seq![GrammarView::Ref { name: "QuotedLiteralSegment"@, optional: false }, GrammarView::Ref { name: "NumericLiteralSegment"@, optional: false }, GrammarView::Ref { name: "BooleanLiteralGrammar"@, optional: false }, GrammarView::Ref { name: "QualifiedNumericLiteralSegment"@, optional: false }, GrammarView::Ref { name: "NullLiteralSegment"@, optional: false }, GrammarView::Ref { name: "DateTimeLiteralGrammar"@, optional: false }, GrammarView::Ref { name: "ArrayLiteralSegment"@, optional: false }, GrammarView::Ref { name: "TypedArrayLiteralSegment"@, optional: false }, GrammarView::Ref { name: "ObjectLiteralSegment"@, optional: false }], terminators: seq![] })
}

fn build_literal_grammar() -> (e: Element)
    ensures
        e@ =~~= literal_grammar_element(),
{
    let g1: Vec<Grammar> = vec![Grammar::reference("QuotedLiteralSegment"), Grammar::reference("NumericLiteralSegment"), Grammar::reference("BooleanLiteralGrammar"), Grammar::reference("QualifiedNumericLiteralSegment"), Grammar::reference("NullLiteralSegment"), Grammar::reference("DateTimeLiteralGrammar"), Grammar::reference("ArrayLiteralSegment"), Grammar::reference("TypedArrayLiteralSegment"), Grammar::reference("ObjectLiteralSegment")];
    assert(views(g1@) =~~= seq![GrammarView::Ref { name: "QuotedLiteralSegment"@, optional: false }, GrammarView::Ref { name: "NumericLiteralSegment"@, optional: false }, GrammarView::Ref { name: "BooleanLiteralGrammar"@, optional: false }, GrammarView::Ref { name: "QualifiedNumericLiteralSegment"@, optional: false }, GrammarView::Ref { name: "NullLiteralSegment"@, optional: false }, GrammarView::Ref { name: "DateTimeLiteralGrammar"@, optional: false }, GrammarView::Ref { name: "ArrayLiteralSegment"@, optional: false }, GrammarView::Ref { name: "TypedArrayLiteralSegment"@, optional: false }, GrammarView::Ref { name: "ObjectLiteralSegment"@, optional: false }]);
    let g2: Vec<Grammar> = Vec::new();
    assert(views(g2@) =~= Seq::<GrammarView>::empty());
    let g3 = Grammar::one_of_with(g1, g2);
    Element::Grammar(g3)
}

/// The ANSI element `AndOperatorGrammar`.
pub open spec fn and_operator_grammar_element() -> ElementView {
    ElementView::Grammar(GrammarView::StringParser { template: "AND"@, kind: "binary_operator"@ })
}

fn build_and_operator_grammar() -> (e: Element)
    ensures
        e@ =~~= and_operator_grammar_element(),
{
    Element::Grammar(Grammar::string_parser("AND", "binary_operator"))
}

/// The ANSI element `OrOperatorGrammar`.
pub open spec fn or_operator_grammar_element() -> ElementView {
    ElementView::Grammar(GrammarView::StringParser { template: "OR"@, kind: "binary_operator"@ })
}

fn build_or_operator_grammar() -> (e: Element)
    ensures
        e@ =~~= or_operator_grammar_element(),
{
    Element::Grammar(Grammar::string_parser("OR", "binary_operator"))
}

/// The ANSI element `NotOperatorGrammar`.
pub open spec fn not_operator_grammar_element() -> ElementView {
    ElementView::Grammar(GrammarView::StringParser { template: "NOT"@, kind: "keyword"@ })
}

fn build_not_operator_grammar() -> (e: Element)
    ensures
        e@ =~~= not_operator_grammar_element(),
{
    Element::Grammar(Grammar::string_parser("NOT", "keyword"))
}

/// The ANSI element `PreTableFunctionKeywordsGrammar`.
pub open spec fn pre_table_function_keywords_grammar_element() -> ElementView {
    ElementView::Grammar(GrammarView::Nothing)
}

fn build_pre_table_function_keywords_grammar() -> (e: Element)
    ensures
        e@ =~~= pre_table_function_keywords_grammar_element(),
{
    Element::Grammar(Grammar::nothing())
}

/// The ANSI element `BinaryOperatorGrammar`.
pub open spec fn binary_operator_grammar_element() -> ElementView {
    ElementView::Grammar(GrammarView::OneOf { elements: seq![GrammarView::Ref { name: "ArithmeticBinaryOperatorGrammar"@, optional: false }, GrammarView::Ref { name: "StringBinaryOperatorGrammar"@, optional: false }, GrammarView::Ref { name: "BooleanBinaryOperatorGrammar"@, optional: false }, GrammarView::Ref { name: "ComparisonOperatorGrammar"@, optional: false }], terminators: seq![] })
}

fn build_binary_operator_grammar() -> (e: Element)
    ensures
        e@ =~~= binary_operator_grammar_element(),
{
    let g1: Vec<Grammar> = vec![Grammar::reference("ArithmeticBinaryOperatorGrammar"), Grammar::reference("StringBinaryOperatorGrammar"), Grammar::reference("BooleanBinaryOperatorGrammar"), Grammar::reference("ComparisonOperatorGrammar")];
    assert(views(g1@) =~~= seq![GrammarView::Ref { name: "ArithmeticBinaryOperatorGrammar"@, optional: false }, GrammarView::Ref { name: "StringBinaryOperatorGrammar"@, optional: false }, GrammarView::Ref { name: "BooleanBinaryOperatorGrammar"@, optional: false }, GrammarView::Ref { name: "ComparisonOperatorGrammar"@, optional: false }]);
    let g2: Vec<Grammar> = Vec::new();
    assert(views(g2@) =~= Seq::<GrammarView>::empty());
    let g3 = Grammar::one_of_with(g1, g2);
    Element::Grammar(g3)
}

/// The ANSI element `BracketedColumnReferenceListGrammar`.
pub open spec fn bracketed_column_reference_list_grammar_element() -> ElementView {
    ElementView::Grammar(GrammarView::Bracketed { elements: seq![GrammarView::Delimited { elements: seq![GrammarView::Ref { name: "ColumnReferenceSegment"@, optional: false }], allow_trailing: false, delimiter: None, terminators: seq![], allow_gaps: true }], bracket_type: "round"@ })
}

fn build_bracketed_column_reference_list_grammar() -> (e: Element)
    ensures
        e@ =~~= bracketed_column_reference_list_grammar_element(),
{
    let g1: Vec<Grammar> = vec![Grammar::reference("ColumnReferenceSegment")];
    assert(views(g1@) =~~= seq![GrammarView::Ref { name: "ColumnReferenceSegment"@, optional: false }]);
    let g2: Vec<Grammar> = Vec::new();
    assert(views(g2@) =~= Seq::<GrammarView>::empty());
    let g3 = Grammar::delimited_with(g1, false, None, g2, true);
    let g4: Vec<Grammar> = vec![g3];
    assert(views(g4@) =~~= seq![GrammarView::Delimited { elements: seq![GrammarView::Ref { name: "ColumnReferenceSegment"@, optional: false }], allow_trailing: false, delimiter: None, terminators: seq![], allow_gaps: true }]);
    let g5 = Grammar::bracketed_with(g4, "round");
    Element::Grammar(g5)
}

/// The ANSI element `OrReplaceGrammar`.
pub open spec fn or_replace_grammar_element() -> ElementView {
    ElementView::Grammar(GrammarView::Sequence { elements: seq![GrammarView::Keyword { word: "OR"@ }, GrammarView::Keyword { word: "REPLACE"@ }], terminators: seq![], parse_mode: ParseMode::Strict })
}

fn build_or_replace_grammar() -> (e: Element)
    ensures
        e@ =~~= or_replace_grammar_element(),
{
    let g1: Vec<Grammar> = vec![Grammar::keyword("OR"), Grammar::keyword("REPLACE")];
    assert(views(g1@) =~~= seq![GrammarView::Keyword { word: "OR"@ }, GrammarView::Keyword { word: "REPLACE"@ }]);
    let g2: Vec<Grammar> = Vec::new();
    assert(views(g2@) =~= Seq::<GrammarView>::empty());
    let g3 = Grammar::sequence_with(g1, g2, ParseMode::Strict);
    Element::Grammar(g3)
}

/// The ANSI element `TemporaryTransientGrammar`.
pub open spec fn temporary_transient_grammar_element() -> ElementView {
    ElementView::Grammar(GrammarView::OneOf { elements: seq![GrammarView::Keyword { word: "TRANSIENT"@ }, GrammarView::Ref { name: "TemporaryGrammar"@, optional: false }], terminators: seq![] })
}

fn build_temporary_transient_grammar() -> (e: Element)
    ensures
        e@ =~~= temporary_transient_grammar_element(),
{
    let g1: Vec<Grammar> = vec![Grammar::keyword("TRANSIENT"), Grammar::reference("TemporaryGrammar")];
    assert(views(g1@) =~~= seq![GrammarView::Keyword { word: "TRANSIENT"@ }, GrammarView::Ref { name: "TemporaryGrammar"@, optional: false }]);
    let g2: Vec<Grammar> = Vec::new();
    assert(views(g2@) =~= Seq::<GrammarView>::empty());
    let g3 = Grammar::one_of_with(g1, g2);
    Element::Grammar(g3)
}

/// The ANSI element `TemporaryGrammar`.
pub open spec fn temporary_grammar_element() -> ElementView {
    ElementView::Grammar(GrammarView::OneOf { elements: seq![GrammarView::Keyword { word: "TEMP"@ }, GrammarView::Keyword { word: "TEMPORARY"@ }], terminators: seq![] })
}

fn build_temporary_grammar() -> (e: Element)
    ensures
        e@ =~~= temporary_grammar_element(),
{
    let g1: Vec<Grammar> = vec![Grammar::keyword("TEMP"), Grammar::keyword("TEMPORARY")];
    assert(views(g1@) =~~= seq![GrammarView::Keyword { word: "TEMP"@ }, GrammarView::Keyword { word: "TEMPORARY"@ }]);
    let g2: Vec<Grammar> = Vec::new();
    assert(views(g2@) =~= Seq::<GrammarView>::empty());
    let g3 = Grammar::one_of_with(g1, g2);
    Element::Grammar(g3)
}

/// The ANSI element `IfExistsGrammar`.
pub open spec fn if_exists_grammar_element() -> ElementView {
    ElementView::Grammar(GrammarView::Sequence { elements: seq![GrammarView::Keyword { word: "IF"@ }, GrammarView::Keyword { word: "EXISTS"@ }], terminators: seq![], parse_mode: ParseMode::Strict })
}

fn build_if_exists_grammar() -> (e: Element)
    ensures
        e@ =~~= if_exists_grammar_element(),
{
    let g1: Vec<Grammar> = vec![Grammar::keyword("IF"), Grammar::keyword("EXISTS")];
    assert(views(g1@) =~~= seq![GrammarView::Keyword { word: "IF"@ }, GrammarView::Keyword { word: "EXISTS"@ }]);
    let g2: Vec<Grammar> = Vec::new();
    assert(views(g2@) =~= Seq::<GrammarView>::empty());
    let g3 = Grammar::sequence_with(g1, g2, ParseMode::Strict);
    Element::Grammar(g3)
}

/// The ANSI element `IfNotExistsGrammar`.
pub open spec fn if_not_exists_grammar_element() -> ElementView {
    ElementView::Grammar(GrammarView::Sequence { elements: seq![GrammarView::Keyword { word: "IF"@ }, GrammarView::Keyword { word: "NOT"@ }, GrammarView::Keyword { word: "EXISTS"@ }], terminators: seq![], parse_mode: ParseMode::Strict })
}

fn build_if_not_exists_grammar() -> (e: Element)
    ensures
        e@ =~~= if_not_exists_grammar_element(),
{
    let g1: Vec<Grammar> = vec![Grammar::keyword("IF"), Grammar::keyword("NOT"), Grammar::keyword("EXISTS")];
    assert(views(g1@) =~~= seq![GrammarView::Keyword { word: "IF"@ }, GrammarView::Keyword { word: "NOT"@ }, GrammarView::Keyword { word: "EXISTS"@ }]);
    let g2: Vec<Grammar> = Vec::new();
    assert(views(g2@) =~= Seq::<GrammarView>::empty());
    let g3 = Grammar::sequence_with(g1, g2, ParseMode::Strict);
    Element::Grammar(g3)
}

/// The ANSI element `LikeGrammar`.
pub open spec fn like_grammar_element() -> ElementView {
    ElementView::Grammar(GrammarView::OneOf { elements: seq![GrammarView::Keyword { word: "LIKE"@ }, GrammarView::Keyword { word: "RLIKE"@ }, GrammarView::Keyword { word: "ILIKE"@ }], terminators: seq![] })
}

fn build_like_grammar() -> (e: Element)
    ensures
        e@ =~~= like_grammar_element(),
{
    let g1: Vec<Grammar> = vec![Grammar::keyword("LIKE"), Grammar::keyword("RLIKE"), Grammar::keyword("ILIKE")];
    assert(views(g1@) =~~= seq![GrammarView::Keyword { word: "LIKE"@ }, GrammarView::Keyword { word: "RLIKE"@ }, GrammarView::Keyword { word: "ILIKE"@ }]);
    let g2: Vec<Grammar> = Vec::new();
    assert(views(g2@) =~= Seq::<GrammarView>::empty());
    let g3 = Grammar::one_of_with(g1, g2);
    Element::Grammar(g3)
}

/// The ANSI element `UnionGrammar`.
pub open spec fn union_grammar_element() -> ElementView {
    ElementView::Grammar(GrammarView::Sequence { elements: seq![GrammarView::Keyword { word: "UNION"@ }, GrammarView::Optional { grammar: Box::new(GrammarView::OneOf { elements: seq![GrammarView::Keyword { word: "DISTINCT"@ }, GrammarView::Keyword { word: "ALL"@ }], terminators: seq![] }) }], terminators: seq![], parse_mode: ParseMode::Strict })
}

fn build_union_grammar() -> (e: Element)
    ensures
        e@ =~~= union_grammar_element(),
{
    let g1: Vec<Grammar> = vec![Grammar::keyword("DISTINCT"), Grammar::keyword("ALL")];
    assert(views(g1@) =~~= seq![GrammarView::Keyword { word: "DISTINCT"@ }, GrammarView::Keyword { word: "ALL"@ }]);
    let g2: Vec<Grammar> = Vec::new();
    assert(views(g2@) =~= Seq::<GrammarView>::empty());
    let g3 = Grammar::one_of_with(g1, g2);
    let g4 = g3.optional();
    let g5: Vec<Grammar> = vec![Grammar::keyword("UNION"), g4];
    assert(views(g5@) =~~= seq![GrammarView::Keyword { word: "UNION"@ }, GrammarView::Optional { grammar: Box::new(GrammarView::OneOf { elements: seq![GrammarView::Keyword { word: "DISTINCT"@ }, GrammarView::Keyword { word: "ALL"@ }], terminators: seq![] }) }]);
    let g6: Vec<Grammar> = Vec::new();
    assert(views(g6@) =~= Seq::<GrammarView>::empty());
    let g7 = Grammar::sequence_with(g5, g6, ParseMode::Strict);
    Element::Grammar(g7)
}

/// The ANSI element `IsClauseGrammar`.
pub open spec fn is_clause_grammar_element() -> ElementView {
    ElementView::Grammar(GrammarView::OneOf { elements: seq![GrammarView::Ref { name: "NullLiteralSegment"@, optional: false }, GrammarView::Ref { name: "NanLiteralSegment"@, optional: false }, GrammarView::Ref { name: "BooleanLiteralGrammar"@, optional: false }], terminators: seq![] })
}

fn build_is_clause_grammar() -> (e: Element)
    ensures
        e@ =~~= is_clause_grammar_element(),
{
    let g1: Vec<Grammar> = vec![Grammar::reference("NullLiteralSegment"), Grammar::reference("NanLiteralSegment"), Grammar::reference("BooleanLiteralGrammar")];
    assert(views(g1@) =~~= seq![GrammarView::Ref { name: "NullLiteralSegment"@, optional: false }, GrammarView::Ref { name: "NanLiteralSegment"@, optional: false }, GrammarView::Ref { name: "BooleanLiteralGrammar"@, optional: false }]);
    let g2: Vec<Grammar> = Vec::new();
    assert(views(g2@) =~= Seq::<GrammarView>::empty());
    let g3 = Grammar::one_of_with(g1, g2);
    Element::Grammar(g3)
}

/// The ANSI element `InOperatorGrammar`.
pub open spec fn in_operator_grammar_element() -> ElementView {
    ElementView::Grammar(GrammarView::Sequence { elements: seq![GrammarView::Optional { grammar: Box::new(GrammarView::Keyword { word: "NOT"@ }) }, GrammarView::Keyword { word: "IN"@ }, GrammarView::OneOf { elements: seq![GrammarView::InMode { grammar: Box::new(GrammarView::Bracketed { elements: seq![GrammarView::OneOf { elements: seq![GrammarView::Delimited { elements: seq![GrammarView::Ref { name: "Expression_A_Grammar"@, optional: false }], allow_trailing: false, delimiter: None, terminators: seq![], allow_gaps: true }, GrammarView::Ref { name: "SelectableGrammar"@, optional: false }], terminators: seq![] }], bracket_type: "round"@ }), parse_mode: ParseMode::Greedy }, GrammarView::Ref { name: "FunctionSegment"@, optional: false }], terminators: seq![] }], terminators: seq![], parse_mode: ParseMode::Strict })
}

fn build_in_operator_grammar() -> (e: Element)
    ensures
        e@ =~~= in_operator_grammar_element(),
{
    let g1 = Grammar::keyword("NOT").optional();
    let g2: Vec<Grammar> = vec![Grammar::reference("Expression_A_Grammar")];
    assert(views(g2@) =~~= seq![GrammarView::Ref { name: "Expression_A_Grammar"@, optional: false }]);
    let g3: Vec<Grammar> = Vec::new();
    assert(views(g3@) =~= Seq::<GrammarView>::empty());
    let g4 = Grammar::delimited_with(g2, false, None, g3, true);
    let g5: Vec<Grammar> = vec![g4, Grammar::reference("SelectableGrammar")];
    assert(views(g5@) =~~= seq![GrammarView::Delimited { elements: seq![GrammarView::Ref { name: "Expression_A_Grammar"@, optional: false }], allow_trailing: false, delimiter: None, terminators: seq![], allow_gaps: true }, GrammarView::Ref { name: "SelectableGrammar"@, optional: false }]);
    let g6: Vec<Grammar> = Vec::new();
    assert(views(g6@) =~= Seq::<GrammarView>::empty());
    let g7 = Grammar::one_of_with(g5, g6);
    let g8: Vec<Grammar> = vec![g7];
    assert(views(g8@) =~~= seq![GrammarView::OneOf { elements: seq![GrammarView::Delimited { elements: seq![GrammarView::Ref { name: "Expression_A_Grammar"@, optional: false }], allow_trailing: false, delimiter: None, terminators: seq![], allow_gaps: true }, GrammarView::Ref { name: "SelectableGrammar"@, optional: false }], terminators: seq![] }]);
    let g9 = Grammar::bracketed_with(g8, "round");
    let g10 = g9.in_mode(ParseMode::Greedy);
    let g11: Vec<Grammar> = vec![g10, Grammar::reference("FunctionSegment")];
    assert(views(g11@) =~~= seq![GrammarView::InMode { grammar: Box::new(GrammarView::Bracketed { elements: seq![GrammarView::OneOf { elements: seq![GrammarView::Delimited { elements: seq![GrammarView::Ref { name: "Expression_A_Grammar"@, optional: false }], allow_trailing: false, delimiter: None, terminators: seq![], allow_gaps: true }, GrammarView::Ref { name: "SelectableGrammar"@, optional: false }], terminators: seq![] }], bracket_type: "round"@ }), parse_mode: ParseMode::Greedy }, GrammarView::Ref { name: "FunctionSegment"@, optional: false }]);
    let g12: Vec<Grammar> = Vec::new();
    assert(views(g12@) =~= Seq::<GrammarView>::empty());
    let g13 = Grammar::one_of_with(g11, g12);
    let g14: Vec<Grammar> = vec![g1, Grammar::keyword("IN"), g13];
    assert(views(g14@) =~~= seq![GrammarView::Optional { grammar: Box::new(GrammarView::Keyword { word: "NOT"@ }) }, GrammarView::Keyword { word: "IN"@ }, GrammarView::OneOf { elements: seq![GrammarView::InMode { grammar: Box::new(GrammarView::Bracketed { elements: seq![GrammarView::OneOf { elements: seq![GrammarView::Delimited { elements: seq![GrammarView::Ref { name: "Expression_A_Grammar"@, optional: false }], allow_trailing: false, delimiter: None, terminators: seq![], allow_gaps: true }, GrammarView::Ref { name: "SelectableGrammar"@, optional: false }], terminators: seq![] }], bracket_type: "round"@ }), parse_mode: ParseMode::Greedy }, GrammarView::Ref { name: "FunctionSegment"@, optional: false }], terminators: seq![] }]);
    let g15: Vec<Grammar> = Vec::new();
    assert(views(g15@) =~= Seq::<GrammarView>::empty());
    let g16 = Grammar::sequence_with(g14, g15, ParseMode::Strict);
    Element::Grammar(g16)
}

/// The ANSI element `SelectClauseTerminatorGrammar`.
pub open spec fn select_clause_terminator_grammar_element() -> ElementView {
    ElementView::Grammar(GrammarView::OneOf { elements: seq![GrammarView::Keyword { word: "FROM"@ }, GrammarView::Keyword { word: "WHERE"@ }, GrammarView::Sequence { elements: seq![GrammarView::Keyword { word: "ORDER"@ }, GrammarView::Keyword { word: "BY"@ }], terminators: seq![], parse_mode: ParseMode::Strict }, GrammarView::Keyword { word: "LIMIT"@ }, GrammarView::Keyword { word: "OVERLAPS"@ }, GrammarView::Ref { name: "SetOperatorSegment"@, optional: false }, GrammarView::Keyword { word: "FETCH"@ }], terminators: seq![] })
}

fn build_select_clause_terminator_grammar() -> (e: Element)
    ensures
        e@ =~~= select_clause_terminator_grammar_element(),
{
    let g1: Vec<Grammar> = vec![Grammar::keyword("ORDER"), Grammar::keyword("BY")];
    assert(views(g1@) =~~= seq![GrammarView::Keyword { word: "ORDER"@ }, GrammarView::Keyword { word: "BY"@ }]);
    let g2: Vec<Grammar> = Vec::new();
    assert(views(g2@) =~= Seq::<GrammarView>::empty());
    let g3 = Grammar::sequence_with(g1, g2, ParseMode::Strict);
    let g4: Vec<Grammar> = vec![Grammar::keyword("FROM"), Grammar::keyword("WHERE"), g3, Grammar::keyword("LIMIT"), Grammar::keyword("OVERLAPS"), Grammar::reference("SetOperatorSegment"), Grammar::keyword("FETCH")];
    assert(views(g4@) =~~= seq![GrammarView::Keyword { word: "FROM"@ }, GrammarView::Keyword { word: "WHERE"@ }, GrammarView::Sequence { elements: seq![GrammarView::Keyword { word: "ORDER"@ }, GrammarView::Keyword { word: "BY"@ }], terminators: seq![], parse_mode: ParseMode::Strict }, GrammarView::Keyword { word: "LIMIT"@ }, GrammarView::Keyword { word: "OVERLAPS"@ }, GrammarView::Ref { name: "SetOperatorSegment"@, optional: false }, GrammarView::Keyword { word: "FETCH"@ }]);
    let g5: Vec<Grammar> = Vec::new();
    assert(views(g5@) =~= Seq::<GrammarView>::empty());
    let g6 = Grammar::one_of_with(g4, g5);
    Element::Grammar(g6)
}

/// The ANSI element `IsNullGrammar`.
pub open spec fn is_null_grammar_element() -> ElementView {
    ElementView::Grammar(GrammarView::Nothing)
}

fn build_is_null_grammar() -> (e: Element)
    ensures
        e@ =~~= is_null_grammar_element(),
{
    Element::Grammar(Grammar::nothing())
}

/// The ANSI element `NotNullGrammar`.
pub open spec fn not_null_grammar_element() -> ElementView {
    ElementView::Grammar(GrammarView::Nothing)
}

fn build_not_null_grammar() -> (e: Element)
    ensures
        e@ =~~= not_null_grammar_element(),
{
    Element::Grammar(Grammar::nothing())
}

/// The ANSI element `CollateGrammar`.
pub open spec fn collate_grammar_element() -> ElementView {
    ElementView::Grammar(GrammarView::Nothing)
}

fn build_collate_grammar() -> (e: Element)
    ensures
        e@ =~~= collate_grammar_element(),
{
    Element::Grammar(Grammar::nothing())
}

/// The ANSI element `FromClauseTerminatorGrammar`.
pub open spec fn from_clause_terminator_grammar_element() -> ElementView {
    ElementView::Grammar(GrammarView::OneOf { elements: seq![GrammarView::Keyword { word: "WHERE"@ }, GrammarView::Keyword { word: "LIMIT"@ }, GrammarView::Sequence { elements: seq![GrammarView::Keyword { word: "GROUP"@ }, GrammarView::Keyword { word: "BY"@ }], terminators: seq![], parse_mode: ParseMode::Strict }, GrammarView::Sequence { elements: seq![GrammarView::Keyword { word: "ORDER"@ }, GrammarView::Keyword { word: "BY"@ }], terminators: seq![], parse_mode: ParseMode::Strict }, GrammarView::Keyword { word: "HAVING"@ }, GrammarView::Keyword { word: "QUALIFY"@ }, GrammarView::Keyword { word: "WINDOW"@ }, GrammarView::Ref { name: "SetOperatorSegment"@, optional: false }, GrammarView::Ref { name: "WithNoSchemaBindingClauseSegment"@, optional: false }, GrammarView::Ref { name: "WithDataClauseSegment"@, optional: false }, GrammarView::Keyword { word: "FETCH"@ }], terminators: seq![] })
}

fn build_from_clause_terminator_grammar() -> (e: Element)
    ensures
        e@ =~~= from_clause_terminator_grammar_element(),
{
    let g1: Vec<Grammar> = vec![Grammar::keyword("GROUP"), Grammar::keyword("BY")];
    assert(views(g1@) =~~= seq![GrammarView::Keyword { word: "GROUP"@ }, GrammarView::Keyword { word: "BY"@ }]);
    let g2: Vec<Grammar> = Vec::new();
    assert(views(g2@) =~= Seq::<GrammarView>::empty());
    let g3 = Grammar::sequence_with(g1, g2, ParseMode::Strict);
    let g4: Vec<Grammar> = vec![Grammar::keyword("ORDER"), Grammar::keyword("BY")];
    assert(views(g4@) =~~= seq![GrammarView::Keyword { word: "ORDER"@ }, GrammarView::Keyword { word: "BY"@ }]);
    let g5: Vec<Grammar> = Vec::new();
    assert(views(g5@) =~= Seq::<GrammarView>::empty());
    let g6 = Grammar::sequence_with(g4, g5, ParseMode::Strict);
    let g7: Vec<Grammar> = vec![Grammar::keyword("WHERE"), Grammar::keyword("LIMIT"), g3, g6, Grammar::keyword("HAVING"), Grammar::keyword("QUALIFY"), Grammar::keyword("WINDOW"), Grammar::reference("SetOperatorSegment"), Grammar::reference("WithNoSchemaBindingClauseSegment"), Grammar::reference("WithDataClauseSegment"), Grammar::keyword("FETCH")];
    assert(views(g7@) =~~= seq![GrammarView::Keyword { word: "WHERE"@ }, GrammarView::Keyword { word: "LIMIT"@ }, GrammarView::Sequence { elements: seq![GrammarView::Keyword { word: "GROUP"@ }, GrammarView::Keyword { word: "BY"@ }], terminators: seq![], parse_mode: ParseMode::Strict }, GrammarView::Sequence { elements: seq![GrammarView::Keyword { word: "ORDER"@ }, GrammarView::Keyword { word: "BY"@ }], terminators: seq![], parse_mode: ParseMode::Strict }, GrammarView::Keyword { word: "HAVING"@ }, GrammarView::Keyword { word: "QUALIFY"@ }, GrammarView::Keyword { word: "WINDOW"@ }, GrammarView::Ref { name: "SetOperatorSegment"@, optional: false }, GrammarView::Ref { name: "WithNoSchemaBindingClauseSegment"@, optional: false }, GrammarView::Ref { name: "WithDataClauseSegment"@, optional: false }, GrammarView::Keyword { word: "FETCH"@ }]);
    let g8: Vec<Grammar> = Vec::new();
    assert(views(g8@) =~= Seq::<GrammarView>::empty());
    let g9 = Grammar::one_of_with(g7, g8);
    Element::Grammar(g9)
}

/// The ANSI element `WhereClauseTerminatorGrammar`.
pub open spec fn where_clause_terminator_grammar_element() -> ElementView {
    ElementView::Grammar(GrammarView::OneOf { elements: seq![GrammarView::Keyword { word: "LIMIT"@ }, GrammarView::Sequence { elements: seq![GrammarView::Keyword { word: "GROUP"@ }, GrammarView::Keyword { word: "BY"@ }], terminators: seq![], parse_mode: ParseMode::Strict }, GrammarView::Sequence { elements: seq![GrammarView::Keyword { word: "ORDER"@ }, GrammarView::Keyword { word: "BY"@ }], terminators: seq![], parse_mode: ParseMode::Strict }, GrammarView::Keyword { word: "HAVING"@ }, GrammarView::Keyword { word: "QUALIFY"@ }, GrammarView::Keyword { word: "WINDOW"@ }, GrammarView::Keyword { word: "OVERLAPS"@ }, GrammarView::Keyword { word: "FETCH"@ }], terminators: seq![] })
}

fn build_where_clause_terminator_grammar() -> (e: Element)
    ensures
        e@ =~~= where_clause_terminator_grammar_element(),
{
    let g1: Vec<Grammar> = vec![Grammar::keyword("GROUP"), Grammar::keyword("BY")];
    assert(views(g1@) =~~= seq![GrammarView::Keyword { word: "GROUP"@ }, GrammarView::Keyword { word: "BY"@ }]);
    let g2: Vec<Grammar> = Vec::new();
    assert(views(g2@) =~= Seq::<GrammarView>::empty());
    let g3 = Grammar::sequence_with(g1, g2, ParseMode::Strict);
    let g4: Vec<Grammar> = vec![Grammar::keyword("ORDER"), Grammar::keyword("BY")];
    assert(views(g4@) =~~= seq![GrammarView::Keyword { word: "ORDER"@ }, GrammarView::Keyword { word: "BY"@ }]);
    let g5: Vec<Grammar> = Vec::new();
    assert(views(g5@) =~= Seq::<GrammarView>::empty());
    let g6 = Grammar::sequence_with(g4, g5, ParseMode::Strict);
    let g7: Vec<Grammar> = vec![Grammar::keyword("LIMIT"), g3, g6, Grammar::keyword("HAVING"), Grammar::keyword("QUALIFY"), Grammar::keyword("WINDOW"), Grammar::keyword("OVERLAPS"), Grammar::keyword("FETCH")];
    assert(views(g7@) =~~= seq![GrammarView::Keyword { word: "LIMIT"@ }, GrammarView::Sequence { elements: seq![GrammarView::Keyword { word: "GROUP"@ }, GrammarView::Keyword { word: "BY"@ }], terminators: seq![], parse_mode: ParseMode::Strict }, GrammarView::Sequence { elements: seq![GrammarView::Keyword { word: "ORDER"@ }, GrammarView::Keyword { word: "BY"@ }], terminators: seq![], parse_mode: ParseMode::Strict }, GrammarView::Keyword { word: "HAVING"@ }, GrammarView::Keyword { word: "QUALIFY"@ }, GrammarView::Keyword { word: "WINDOW"@ }, GrammarView::Keyword { word: "OVERLAPS"@ }, GrammarView::Keyword { word: "FETCH"@ }]);
    let g8: Vec<Grammar> = Vec::new();
    assert(views(g8@) =~= Seq::<GrammarView>::empty());
    let g9 = Grammar::one_of_with(g7, g8);
    Element::Grammar(g9)
}

/// The ANSI element `GroupByClauseTerminatorGrammar`.
pub open spec fn group_by_clause_terminator_grammar_element() -> ElementView {
    ElementView::Grammar(GrammarView::OneOf { elements: seq![GrammarView::Sequence { elements: seq![GrammarView::Keyword { word: "ORDER"@ }, GrammarView::Keyword { word: "BY"@ }], terminators: seq![], parse_mode: ParseMode::Strict }, GrammarView::Keyword { word: "LIMIT"@ }, GrammarView::Keyword { word: "HAVING"@ }, GrammarView::Keyword { word: "QUALIFY"@ }, GrammarView::Keyword { word: "WINDOW"@ }, GrammarView::Keyword { word: "FETCH"@ }], terminators: seq![] })
}

fn build_group_by_clause_terminator_grammar() -> (e: Element)
    ensures
        e@ =~~= group_by_clause_terminator_grammar_element(),
{
    let g1: Vec<Grammar> = vec![Grammar::keyword("ORDER"), Grammar::keyword("BY")];
    assert(views(g1@) =~~= seq![GrammarView::Keyword { word: "ORDER"@ }, GrammarView::Keyword { word: "BY"@ }]);
    let g2: Vec<Grammar> = Vec::new();
    assert(views(g2@) =~= Seq::<GrammarView>::empty());
    let g3 = Grammar::sequence_with(g1, g2, ParseMode::Strict);
    let g4: Vec<Grammar> = vec![g3, Grammar::keyword("LIMIT"), Grammar::keyword("HAVING"), Grammar::keyword("QUALIFY"), Grammar::keyword("WINDOW"), Grammar::keyword("FETCH")];
    assert(views(g4@) =~~= seq![GrammarView::Sequence { elements: seq![GrammarView::Keyword { word: "ORDER"@ }, GrammarView::Keyword { word: "BY"@ }], terminators: seq![], parse_mode: ParseMode::Strict }, GrammarView::Keyword { word: "LIMIT"@ }, GrammarView::Keyword { word: "HAVING"@ }, GrammarView::Keyword { word: "QUALIFY"@ }, GrammarView::Keyword { word: "WINDOW"@ }, GrammarView::Keyword { word: "FETCH"@ }]);
    let g5: Vec<Grammar> = Vec::new();
    assert(views(g5@) =~= Seq::<GrammarView>::empty());
    let g6 = Grammar::one_of_with(g4, g5);
    Element::Grammar(g6)
}

/// The ANSI element `HavingClauseTerminatorGrammar`.
pub open spec fn having_clause_terminator_grammar_element() -> ElementView {
    ElementView::Grammar(GrammarView::OneOf { elements: seq![GrammarView::Sequence { elements: seq![GrammarView::Keyword { word: "ORDER"@ }, GrammarView::Keyword { word: "BY"@ }], terminators: seq![], parse_mode: ParseMode::Strict }, GrammarView::Keyword { word: "LIMIT"@ }, GrammarView::Keyword { word: "QUALIFY"@ }, GrammarView::Keyword { word: "WINDOW"@ }, GrammarView::Keyword { word: "FETCH"@ }], terminators: seq![] })
}

fn build_having_clause_terminator_grammar() -> (e: Element)
    ensures
        e@ =~~= having_clause_terminator_grammar_element(),
{
    let g1: Vec<Grammar> = vec![Grammar::keyword("ORDER"), Grammar::keyword("BY")];
    assert(views(g1@) =~~= seq![GrammarView::Keyword { word: "ORDER"@ }, GrammarView::Keyword { word: "BY"@ }]);
    let g2: Vec<Grammar> = Vec::new();
    assert(views(g2@) =~= Seq::<GrammarView>::empty());
    let g3 = Grammar::sequence_with(g1, g2, ParseMode::Strict);
    let g4: Vec<Grammar> = vec![g3, Grammar::keyword("LIMIT"), Grammar::keyword("QUALIFY"), Grammar::keyword("WINDOW"), Grammar::keyword("FETCH")];
    assert(views(g4@) =~~= seq![GrammarView::Sequence { elements: seq![GrammarView::Keyword { word: "ORDER"@ }, GrammarView::Keyword { word: "BY"@ }], terminators: seq![], parse_mode: ParseMode::Strict }, GrammarView::Keyword { word: "LIMIT"@ }, GrammarView::Keyword { word: "QUALIFY"@ }, GrammarView::Keyword { word: "WINDOW"@ }, GrammarView::Keyword { word: "FETCH"@ }]);
    let g5: Vec<Grammar> = Vec::new();
    assert(views(g5@) =~= Seq::<GrammarView>::empty());
    let g6 = Grammar::one_of_with(g4, g5);
    Element::Grammar(g6)
}

/// The ANSI element `OrderByClauseTerminators`.
pub open spec fn order_by_clause_terminators_element() -> ElementView {
    ElementView::Grammar(GrammarView::OneOf { elements: seq![GrammarView::Keyword { word: "LIMIT"@ }, GrammarView::Keyword { word: "HAVING"@ }, GrammarView::Keyword { word: "QUALIFY"@ }, GrammarView::Keyword { word: "WINDOW"@ }, GrammarView::Ref { name: "FrameClauseUnitGrammar"@, optional: false }, GrammarView::Keyword { word: "SEPARATOR"@ }, GrammarView::Keyword { word: "FETCH"@ }], terminators: seq![] })
}

fn build_order_by_clause_terminators() -> (e: Element)
    ensures
        e@ =~~= order_by_clause_terminators_element(),
{
    let g1: Vec<Grammar> = vec![Grammar::keyword("LIMIT"), Grammar::keyword("HAVING"), Grammar::keyword("QUALIFY"), Grammar::keyword("WINDOW"), Grammar::reference("FrameClauseUnitGrammar"), Grammar::keyword("SEPARATOR"), Grammar::keyword("FETCH")];
    assert(views(g1@) =~~= seq![GrammarView::Keyword { word: "LIMIT"@ }, GrammarView::Keyword { word: "HAVING"@ }, GrammarView::Keyword { word: "QUALIFY"@ }, GrammarView::Keyword { word: "WINDOW"@ }, GrammarView::Ref { name: "FrameClauseUnitGrammar"@, optional: false }, GrammarView::Keyword { word: "SEPARATOR"@ }, GrammarView::Keyword { word: "FETCH"@ }]);
    let g2: Vec<Grammar> = Vec::new();
    assert(views(g2@) =~= Seq::<GrammarView>::empty());
    let g3 = Grammar::one_of_with(g1, g2);
    Element::Grammar(g3)
}

/// The ANSI element `PrimaryKeyGrammar`.
pub open spec fn primary_key_grammar_element() -> ElementView {
    ElementView::Grammar(GrammarView::Sequence { elements: seq![GrammarView::Keyword { word: "PRIMARY"@ }, GrammarView::Keyword { word: "KEY"@ }], terminators: seq![], parse_mode: ParseMode::Strict })
}

fn build_primary_key_grammar() -> (e: Element)
    ensures
        e@ =~~= primary_key_grammar_element(),
{
    let g1: Vec<Grammar> = vec![Grammar::keyword("PRIMARY"), Grammar::keyword("KEY")];
    assert(views(g1@) =~~= seq![GrammarView::Keyword { word: "PRIMARY"@ }, GrammarView::Keyword { word: "KEY"@ }]);
    let g2: Vec<Grammar> = Vec::new();
    assert(views(g2@) =~= Seq::<GrammarView>::empty());
    let g3 = Grammar::sequence_with(g1, g2, ParseMode::Strict);
    Element::Grammar(g3)
}

/// The ANSI element `ForeignKeyGrammar`.
pub open spec fn foreign_key_grammar_element() -> ElementView {
    ElementView::Grammar(GrammarView::Sequence { elements: seq![GrammarView::Keyword { word: "FOREIGN"@ }, GrammarView::Keyword { word: "KEY"@ }], terminators: seq![], parse_mode: ParseMode::Strict })
}

fn build_foreign_key_grammar() -> (e: Element)
    ensures
        e@ =~~= foreign_key_grammar_element(),
{
    let g1: Vec<Grammar> = vec![Grammar::keyword("FOREIGN"), Grammar::keyword("KEY")];
    assert(views(g1@) =~~= seq![GrammarView::Keyword { word: "FOREIGN"@ }, GrammarView::Keyword { word: "KEY"@ }]);
    let g2: Vec<Grammar> = Vec::new();
    assert(views(g2@) =~= Seq::<GrammarView>::empty());
    let g3 = Grammar::sequence_with(g1, g2, ParseMode::Strict);
    Element::Grammar(g3)
}

/// The ANSI element `UniqueKeyGrammar`.
pub open spec fn unique_key_grammar_element() -> ElementView {
    ElementView::Grammar(GrammarView::Sequence { elements: seq![GrammarView::Keyword { word: "UNIQUE"@ }], terminators: seq![], parse_mode: ParseMode::Strict })
}

fn build_unique_key_grammar() -> (e: Element)
    ensures
        e@ =~~= unique_key_grammar_element(),
{
    let g1: Vec<Grammar> = vec![Grammar::keyword("UNIQUE")];
    assert(views(g1@) =~~= seq![GrammarView::Keyword { word: "UNIQUE"@ }]);
    let g2: Vec<Grammar> = Vec::new();
    assert(views(g2@) =~= Seq::<GrammarView>::empty());
    let g3 = Grammar::sequence_with(g1, g2, ParseMode::Strict);
    Element::Grammar(g3)
}

/// The ANSI element `FunctionParameterGrammar`.
pub open spec fn function_parameter_grammar_element() -> ElementView {
    ElementView::Grammar(GrammarView::OneOf { elements: seq![GrammarView::Sequence { elements: seq![GrammarView::Ref { name: "ParameterNameSegment"@, optional: true }, GrammarView::OneOf { elements: seq![GrammarView::Sequence { elements: seq![GrammarView::Keyword { word: "ANY"@ }, GrammarView::Keyword { word: "TYPE"@ }], terminators: seq![], parse_mode: ParseMode::Strict }, GrammarView::Ref { name: "DatatypeSegment"@, optional: false }], terminators: seq![] }], terminators: seq![], parse_mode: ParseMode::Strict }, GrammarView::OneOf { elements: seq![GrammarView::Sequence { elements: seq![GrammarView::Keyword { word: "ANY"@ }, GrammarView::Keyword { word: "TYPE"@ }], terminators: seq![], parse_mode: ParseMode::Strict }, GrammarView::Ref { name: "DatatypeSegment"@, optional: false }], terminators: seq![] }], terminators: seq![] })
}

fn build_function_parameter_grammar() -> (e: Element)
    ensures
        e@ =~~= function_parameter_grammar_element(),
{
    let g1: Vec<Grammar> = vec![Grammar::keyword("ANY"), Grammar::keyword("TYPE")];
    assert(views(g1@) =~~= seq![GrammarView::Keyword { word: "ANY"@ }, GrammarView::Keyword { word: "TYPE"@ }]);
    let g2: Vec<Grammar> = Vec::new();
    assert(views(g2@) =~= Seq::<GrammarView>::empty());
    let g3 = Grammar::sequence_with(g1, g2, ParseMode::Strict);
    let g4: Vec<Grammar> = vec![g3, Grammar::reference("DatatypeSegment")];
    assert(views(g4@) =~~= seq![GrammarView::Sequence { elements: seq![GrammarView::Keyword { word: "ANY"@ }, GrammarView::Keyword { word: "TYPE"@ }], terminators: seq![], parse_mode: ParseMode::Strict }, GrammarView::Ref { name: "DatatypeSegment"@, optional: false }]);
    let g5: Vec<Grammar> = Vec::new();
    assert(views(g5@) =~= Seq::<GrammarView>::empty());
    let g6 = Grammar::one_of_with(g4, g5);
    let g7: Vec<Grammar> = vec![Grammar::optional_reference("ParameterNameSegment"), g6];
    assert(views(g7@) =~~= seq![GrammarView::Ref { name: "ParameterNameSegment"@, optional: true }, GrammarView::OneOf { elements: seq![GrammarView::Sequence { elements: seq![GrammarView::Keyword { word: "ANY"@ }, GrammarView::Keyword { word: "TYPE"@ }], terminators: seq![], parse_mode: ParseMode::Strict }, GrammarView::Ref { name: "DatatypeSegment"@, optional: false }], terminators: seq![] }]);
    let g8: Vec<Grammar> = Vec::new();
    assert(views(g8@) =~= Seq::<GrammarView>::empty());
    let g9 = Grammar::sequence_with(g7, g8, ParseMode::Strict);
    let g10: Vec<Grammar> = vec![Grammar::keyword("ANY"), Grammar::keyword("TYPE")];
    assert(views(g10@) =~~= seq![GrammarView::Keyword { word: "ANY"@ }, GrammarView::Keyword { word: "TYPE"@ }]);
    let g11: Vec<Grammar> = Vec::new();
    assert(views(g11@) =~= Seq::<GrammarView>::empty());
    let g12 = Grammar::sequence_with(g10, g11, ParseMode::Strict);
    let g13: Vec<Grammar> = vec![g12, Grammar::reference("DatatypeSegment")];
    assert(views(g13@) =~~= seq![GrammarView::Sequence { elements: seq![GrammarView::Keyword { word: "ANY"@ }, GrammarView::Keyword { word: "TYPE"@ }], terminators: seq![], parse_mode: ParseMode::Strict }, GrammarView::Ref { name: "DatatypeSegment"@, optional: false }]);
    let g14: Vec<Grammar> = Vec::new();
    assert(views(g14@) =~= Seq::<GrammarView>::empty());
    let g15 = Grammar::one_of_with(g13, g14);
    let g16: Vec<Grammar> = vec![g9, g15];
    assert(views(g16@) =~~= seq![GrammarView::Sequence { elements: seq![GrammarView::Ref { name: "ParameterNameSegment"@, optional: true }, GrammarView::OneOf { elements: seq![GrammarView::Sequence { elements: seq![GrammarView::Keyword { word: "ANY"@ }, GrammarView::Keyword { word: "TYPE"@ }], terminators: seq![], parse_mode: ParseMode::Strict }, GrammarView::Ref { name: "DatatypeSegment"@, optional: false }], terminators: seq![] }], terminators: seq![], parse_mode: ParseMode::Strict }, GrammarView::OneOf { elements: seq![GrammarView::Sequence { elements: seq![GrammarView::Keyword { word: "ANY"@ }, GrammarView::Keyword { word: "TYPE"@ }], terminators: seq![], parse_mode: ParseMode::Strict }, GrammarView::Ref { name: "DatatypeSegment"@, optional: false }], terminators: seq![] }]);
    let g17: Vec<Grammar> = Vec::new();
    assert(views(g17@) =~= Seq::<GrammarView>::empty());
    let g18 = Grammar::one_of_with(g16, g17);
    Element::Grammar(g18)
}

/// The ANSI element `AutoIncrementGrammar`.
pub open spec fn auto_increment_grammar_element() -> ElementView {
    ElementView::Grammar(GrammarView::Sequence { elements: seq![GrammarView::Keyword { word: "AUTO_INCREMENT"@ }], terminators: seq![], parse_mode: ParseMode::Strict })
}

fn build_auto_increment_grammar() -> (e: Element)
    ensures
        e@ =~~= auto_increment_grammar_element(),
{
    let g1: Vec<Grammar> = vec![Grammar::keyword("AUTO_INCREMENT")];
    assert(views(g1@) =~~= seq![GrammarView::Keyword { word: "AUTO_INCREMENT"@ }]);
    let g2: Vec<Grammar> = Vec::new();
    assert(views(g2@) =~= Seq::<GrammarView>::empty());
    let g3 = Grammar::sequence_with(g1, g2, ParseMode::Strict);
    Element::Grammar(g3)
}

/// The ANSI element `BaseExpressionElementGrammar`.
pub open spec fn base_expression_element_grammar_element() -> ElementView {
    ElementView::Grammar(GrammarView::OneOf { elements: seq![GrammarView::Ref { name: "LiteralGrammar"@, optional: false }, GrammarView::Ref { name: "BareFunctionSegment"@, optional: false }, GrammarView::Ref { name: "IntervalExpressionSegment"@, optional: false }, GrammarView::Ref { name: "FunctionSegment"@, optional: false }, GrammarView::Ref { name: "ColumnReferenceSegment"@, optional: false }, GrammarView::Ref { name: "ExpressionSegment"@, optional: false }, GrammarView::Sequence { elements: seq![GrammarView::Ref { name: "DatatypeSegment"@, optional: false }, GrammarView::Ref { name: "LiteralGrammar"@, optional: false }], terminators: seq![], parse_mode: ParseMode::Strict }], terminators: seq![GrammarView::Ref { name: "CommaSegment"@, optional: false }, GrammarView::Keyword { word: "AS"@ }] })
}

fn build_base_expression_element_grammar() -> (e: Element)
    ensures
        e@ =~~= base_expression_element_grammar_element(),
{
    let g1: Vec<Grammar> = vec![Grammar::reference("DatatypeSegment"), Grammar::reference("LiteralGrammar")];
    assert(views(g1@) =~~= seq![GrammarView::Ref { name: "DatatypeSegment"@, optional: false }, GrammarView::Ref { name: "LiteralGrammar"@, optional: false }]);
    let g2: Vec<Grammar> = Vec::new();
    assert(views(g2@) =~= Seq::<GrammarView>::empty());
    let g3 = Grammar::sequence_with(g1, g2, ParseMode::Strict);
    let g4: Vec<Grammar> = vec![Grammar::reference("LiteralGrammar"), Grammar::reference("BareFunctionSegment"), Grammar::reference("IntervalExpressionSegment"), Grammar::reference("FunctionSegment"), Grammar::reference("ColumnReferenceSegment"), Grammar::reference("ExpressionSegment"), g3];
    assert(views(g4@) =~~= seq![GrammarView::Ref { name: "LiteralGrammar"@, optional: false }, GrammarView::Ref { name: "BareFunctionSegment"@, optional: false }, GrammarView::Ref { name: "IntervalExpressionSegment"@, optional: false }, GrammarView::Ref { name: "FunctionSegment"@, optional: false }, GrammarView::Ref { name: "ColumnReferenceSegment"@, optional: false }, GrammarView::Ref { name: "ExpressionSegment"@, optional: false }, GrammarView::Sequence { elements: seq![GrammarView::Ref { name: "DatatypeSegment"@, optional: false }, GrammarView::Ref { name: "LiteralGrammar"@, optional: false }], terminators: seq![], parse_mode: ParseMode::Strict }]);
    let g5: Vec<Grammar> = vec![Grammar::reference("CommaSegment"), Grammar::keyword("AS")];
    assert(views(g5@) =~~= seq![GrammarView::Ref { name: "CommaSegment"@, optional: false }, GrammarView::Keyword { word: "AS"@ }]);
    let g6 = Grammar::one_of_with(g4, g5);
    Element::Grammar(g6)
}

/// The ANSI element `FilterClauseGrammar`.
pub open spec fn filter_clause_grammar_element() -> ElementView {
    ElementView::Grammar(GrammarView::Sequence { elements: seq![GrammarView::Keyword { word: "FILTER"@ }, GrammarView::Bracketed { elements: seq![GrammarView::Sequence { elements: seq![GrammarView::Keyword { word: "WHERE"@ }, GrammarView::Ref { name: "ExpressionSegment"@, optional: false }], terminators: seq![], parse_mode: ParseMode::Strict }], bracket_type: "round"@ }], terminators: seq![], parse_mode: ParseMode::Strict })
}

fn build_filter_clause_grammar() -> (e: Element)
    ensures
        e@ =~~= filter_clause_grammar_element(),
{
    let g1: Vec<Grammar> = vec![Grammar::keyword("WHERE"), Grammar::reference("ExpressionSegment")];
    assert(views(g1@) =~~= seq![GrammarView::Keyword { word: "WHERE"@ }, GrammarView::Ref { name: "ExpressionSegment"@, optional: false }]);
    let g2: Vec<Grammar> = Vec::new();
    assert(views(g2@) =~= Seq::<GrammarView>::empty());
    let g3 = Grammar::sequence_with(g1, g2, ParseMode::Strict);
    let g4: Vec<Grammar> = vec![g3];
    assert(views(g4@) =~~= seq![GrammarView::Sequence { elements: seq![GrammarView::Keyword { word: "WHERE"@ }, GrammarView::Ref { name: "ExpressionSegment"@, optional: false }], terminators: seq![], parse_mode: ParseMode::Strict }]);
    let g5 = Grammar::bracketed_with(g4, "round");
    let g6: Vec<Grammar> = vec![Grammar::keyword("FILTER"), g5];
    assert(views(g6@) =~~= seq![GrammarView::Keyword { word: "FILTER"@ }, GrammarView::Bracketed { elements: seq![GrammarView::Sequence { elements: seq![GrammarView::Keyword { word: "WHERE"@ }, GrammarView::Ref { name: "ExpressionSegment"@, optional: false }], terminators: seq![], parse_mode: ParseMode::Strict }], bracket_type: "round"@ }]);
    let g7: Vec<Grammar> = Vec::new();
    assert(views(g7@) =~= Seq::<GrammarView>::empty());
    let g8 = Grammar::sequence_with(g6, g7, ParseMode::Strict);
    Element::Grammar(g8)
}

/// The ANSI element `IgnoreRespectNullsGrammar`.
pub open spec fn ignore_respect_nulls_grammar_element() -> ElementView {
    ElementView::Grammar(GrammarView::Sequence { elements: seq![GrammarView::OneOf { elements: seq![GrammarView::Keyword { word: "IGNORE"@ }, GrammarView::Keyword { word: "RESPECT"@ }], terminators: seq![] }, GrammarView::Keyword { word: "NULLS"@ }], terminators: seq![], parse_mode: ParseMode::Strict })
}

fn build_ignore_respect_nulls_grammar() -> (e: Element)
    ensures
        e@ =~~= ignore_respect_nulls_grammar_element(),
{
    let g1: Vec<Grammar> = vec![Grammar::keyword("IGNORE"), Grammar::keyword("RESPECT")];
    assert(views(g1@) =~~= seq![GrammarView::Keyword { word: "IGNORE"@ }, GrammarView::Keyword { word: "RESPECT"@ }]);
    let g2: Vec<Grammar> = Vec::new();
    assert(views(g2@) =~= Seq::<GrammarView>::empty());
    let g3 = Grammar::one_of_with(g1, g2);
    let g4: Vec<Grammar> = vec![g3, Grammar::keyword("NULLS")];
    assert(views(g4@) =~~= seq![GrammarView::OneOf { elements: seq![GrammarView::Keyword { word: "IGNORE"@ }, GrammarView::Keyword { word: "RESPECT"@ }], terminators: seq![] }, GrammarView::Keyword { word: "NULLS"@ }]);
    let g5: Vec<Grammar> = Vec::new();
    assert(views(g5@) =~= Seq::<GrammarView>::empty());
    let g6 = Grammar::sequence_with(g4, g5, ParseMode::Strict);
    Element::Grammar(g6)
}

/// The ANSI element `FrameClauseUnitGrammar`.
pub open spec fn frame_clause_unit_grammar_element() -> ElementView {
    ElementView::Grammar(GrammarView::OneOf { elements: seq![GrammarView::Keyword { word: "ROWS"@ }, GrammarView::Keyword { word: "RANGE"@ }], terminators: seq![] })
}

fn build_frame_clause_unit_grammar() -> (e: Element)
    ensures
        e@ =~~= frame_clause_unit_grammar_element(),
{
    let g1: Vec<Grammar> = vec![Grammar::keyword("ROWS"), Grammar::keyword("RANGE")];
    assert(views(g1@) =~~= seq![GrammarView::Keyword { word: "ROWS"@ }, GrammarView::Keyword { word: "RANGE"@ }]);
    let g2: Vec<Grammar> = Vec::new();
    assert(views(g2@) =~= Seq::<GrammarView>::empty());
    let g3 = Grammar::one_of_with(g1, g2);
    Element::Grammar(g3)
}

/// The ANSI element `JoinTypeKeywordsGrammar`.
pub open spec fn join_type_keywords_grammar_element() -> ElementView {
    ElementView::Grammar(GrammarView::Optional { grammar: Box::new(GrammarView::OneOf { elements: seq![GrammarView::Keyword { word: "CROSS"@ }, GrammarView::Keyword { word: "INNER"@ }, GrammarView::Sequence { elements: seq![GrammarView::OneOf { elements: seq![GrammarView::Keyword { word: "FULL"@ }, GrammarView::Keyword { word: "LEFT"@ }, GrammarView::Keyword { word: "RIGHT"@ }], terminators: seq![] }, GrammarView::Optional { grammar: Box::new(GrammarView::Keyword { word: "OUTER"@ }) }], terminators: seq![], parse_mode: ParseMode::Strict }], terminators: seq![] }) })
}

fn build_join_type_keywords_grammar() -> (e: Element)
    ensures
        e@ =~~= join_type_keywords_grammar_element(),
{
    let g1: Vec<Grammar> = vec![Grammar::keyword("FULL"), Grammar::keyword("LEFT"), Grammar::keyword("RIGHT")];
    assert(views(g1@) =~~= seq![GrammarView::Keyword { word: "FULL"@ }, GrammarView::Keyword { word: "LEFT"@ }, GrammarView::Keyword { word: "RIGHT"@ }]);
    let g2: Vec<Grammar> = Vec::new();
    assert(views(g2@) =~= Seq::<GrammarView>::empty());
    let g3 = Grammar::one_of_with(g1, g2);
    let g4 = Grammar::keyword("OUTER").optional();
    let g5: Vec<Grammar> = vec![g3, g4];
    assert(views(g5@) =~~= seq![GrammarView::OneOf { elements: seq![GrammarView::Keyword { word: "FULL"@ }, GrammarView::Keyword { word: "LEFT"@ }, GrammarView::Keyword { word: "RIGHT"@ }], terminators: seq![] }, GrammarView::Optional { grammar: Box::new(GrammarView::Keyword { word: "OUTER"@ }) }]);
    let g6: Vec<Grammar> = Vec::new();
    assert(views(g6@) =~= Seq::<GrammarView>::empty());
    let g7 = Grammar::sequence_with(g5, g6, ParseMode::Strict);
    let g8: Vec<Grammar> = vec![Grammar::keyword("CROSS"), Grammar::keyword("INNER"), g7];
    assert(views(g8@) =~~= seq![GrammarView::Keyword { word: "CROSS"@ }, GrammarView::Keyword { word: "INNER"@ }, GrammarView::Sequence { elements: seq![GrammarView::OneOf { elements: seq![GrammarView::Keyword { word: "FULL"@ }, GrammarView::Keyword { word: "LEFT"@ }, GrammarView::Keyword { word: "RIGHT"@ }], terminators: seq![] }, GrammarView::Optional { grammar: Box::new(GrammarView::Keyword { word: "OUTER"@ }) }], terminators: seq![], parse_mode: ParseMode::Strict }]);
    let g9: Vec<Grammar> = Vec::new();
    assert(views(g9@) =~= Seq::<GrammarView>::empty());
    let g10 = Grammar::one_of_with(g8, g9);
    let g11 = g10.optional();
    Element::Grammar(g11)
}

/// The ANSI element `JoinKeywordsGrammar`.
pub open spec fn join_keywords_grammar_element() -> ElementView {
    ElementView::Grammar(GrammarView::Sequence { elements: seq![GrammarView::Keyword { word: "JOIN"@ }], terminators: seq![], parse_mode: ParseMode::Strict })
}

fn build_join_keywords_grammar() -> (e: Element)
    ensures
        e@ =~~= join_keywords_grammar_element(),
{
    let g1: Vec<Grammar> = vec![Grammar::keyword("JOIN")];
    assert(views(g1@) =~~= seq![GrammarView::Keyword { word: "JOIN"@ }]);
    let g2: Vec<Grammar> = Vec::new();
    assert(views(g2@) =~= Seq::<GrammarView>::empty());
    let g3 = Grammar::sequence_with(g1, g2, ParseMode::Strict);
    Element::Grammar(g3)
}

/// The ANSI element `NaturalJoinKeywordsGrammar`.
pub open spec fn natural_join_keywords_grammar_element() -> ElementView {
    ElementView::Grammar(GrammarView::Sequence { elements: seq![GrammarView::Keyword { word: "NATURAL"@ }, GrammarView::Optional { grammar: Box::new(GrammarView::OneOf { elements: seq![GrammarView::Keyword { word: "INNER"@ }, GrammarView::Optional { grammar: Box::new(GrammarView::Sequence { elements: seq![GrammarView::OneOf { elements: seq![GrammarView::Keyword { word: "LEFT"@ }, GrammarView::Keyword { word: "RIGHT"@ }, GrammarView::Keyword { word: "FULL"@ }], terminators: seq![] }, GrammarView::Optional { grammar: Box::new(GrammarView::Keyword { word: "OUTER"@ }) }], terminators: seq![], parse_mode: ParseMode::Strict }) }], terminators: seq![] }) }], terminators: seq![], parse_mode: ParseMode::Strict })
}

fn build_natural_join_keywords_grammar() -> (e: Element)
    ensures
        e@ =~~= natural_join_keywords_grammar_element(),
{
    let g1: Vec<Grammar> = vec![Grammar::keyword("LEFT"), Grammar::keyword("RIGHT"), Grammar::keyword("FULL")];
    assert(views(g1@) =~~= seq![GrammarView::Keyword { word: "LEFT"@ }, GrammarView::Keyword { word: "RIGHT"@ }, GrammarView::Keyword { word: "FULL"@ }]);
    let g2: Vec<Grammar> = Vec::new();
    assert(views(g2@) =~= Seq::<GrammarView>::empty());
    let g3 = Grammar::one_of_with(g1, g2);
    let g4 = Grammar::keyword("OUTER").optional();
    let g5: Vec<Grammar> = vec![g3, g4];
    assert(views(g5@) =~~= seq![GrammarView::OneOf { elements: seq![GrammarView::Keyword { word: "LEFT"@ }, GrammarView::Keyword { word: "RIGHT"@ }, GrammarView::Keyword { word: "FULL"@ }], terminators: seq![] }, GrammarView::Optional { grammar: Box::new(GrammarView::Keyword { word: "OUTER"@ }) }]);
    let g6: Vec<Grammar> = Vec::new();
    assert(views(g6@) =~= Seq::<GrammarView>::empty());
    let g7 = Grammar::sequence_with(g5, g6, ParseMode::Strict);
    let g8 = g7.optional();
    let g9: Vec<Grammar> = vec![Grammar::keyword("INNER"), g8];
    assert(views(g9@) =~~= seq![GrammarView::Keyword { word: "INNER"@ }, GrammarView::Optional { grammar: Box::new(GrammarView::Sequence { elements: seq![GrammarView::OneOf { elements: seq![GrammarView::Keyword { word: "LEFT"@ }, GrammarView::Keyword { word: "RIGHT"@ }, GrammarView::Keyword { word: "FULL"@ }], terminators: seq![] }, GrammarView::Optional { grammar: Box::new(GrammarView::Keyword { word: "OUTER"@ }) }], terminators: seq![], parse_mode: ParseMode::Strict }) }]);
    let g10: Vec<Grammar> = Vec::new();
    assert(views(g10@) =~= Seq::<GrammarView>::empty());
    let g11 = Grammar::one_of_with(g9, g10);
    let g12 = g11.optional();
    let g13: Vec<Grammar> = vec![Grammar::keyword("NATURAL"), g12];
    assert(views(g13@) =~~= seq![GrammarView::Keyword { word: "NATURAL"@ }, GrammarView::Optional { grammar: Box::new(GrammarView::OneOf { elements: seq![GrammarView::Keyword { word: "INNER"@ }, GrammarView::Optional { grammar: Box::new(GrammarView::Sequence { elements: seq![GrammarView::OneOf { elements: seq![GrammarView::Keyword { word: "LEFT"@ }, GrammarView::Keyword { word: "RIGHT"@ }, GrammarView::Keyword { word: "FULL"@ }], terminators: seq![] }, GrammarView::Optional { grammar: Box::new(GrammarView::Keyword { word: "OUTER"@ }) }], terminators: seq![], parse_mode: ParseMode::Strict }) }], terminators: seq![] }) }]);
    let g14: Vec<Grammar> = Vec::new();
    assert(views(g14@) =~= Seq::<GrammarView>::empty());
    let g15 = Grammar::sequence_with(g13, g14, ParseMode::Strict);
    Element::Grammar(g15)
}

/// The ANSI element `ExtendedNaturalJoinKeywordsGrammar`.
pub open spec fn extended_natural_join_keywords_grammar_element() -> ElementView {
    ElementView::Grammar(GrammarView::Nothing)
}

fn build_extended_natural_join_keywords_grammar() -> (e: Element)
    ensures
        e@ =~~= extended_natural_join_keywords_grammar_element(),
{
    Element::Grammar(Grammar::nothing())
}

/// The ANSI element `NestedJoinGrammar`.
pub open spec fn nested_join_grammar_element() -> ElementView {
    ElementView::Grammar(GrammarView::Nothing)
}

fn build_nested_join_grammar() -> (e: Element)
    ensures
        e@ =~~= nested_join_grammar_element(),
{
    Element::Grammar(Grammar::nothing())
}

/// The ANSI element `ReferentialActionGrammar`.
pub open spec fn referential_action_grammar_element() -> ElementView {
    ElementView::Grammar(GrammarView::OneOf { elements: seq![GrammarView::Keyword { word: "RESTRICT"@ }, GrammarView::Keyword { word: "CASCADE"@ }, GrammarView::Sequence { elements: seq![GrammarView::Keyword { word: "SET"@ }, GrammarView::Keyword { word: "NULL"@ }], terminators: seq![], parse_mode: ParseMode::Strict }, GrammarView::Sequence { elements: seq![GrammarView::Keyword { word: "NO"@ }, GrammarView::Keyword { word: "ACTION"@ }], terminators: seq![], parse_mode: ParseMode::Strict }, GrammarView::Sequence { elements: seq![GrammarView::Keyword { word: "SET"@ }, GrammarView::Keyword { word: "DEFAULT"@ }], terminators: seq![], parse_mode: ParseMode::Strict }], terminators: seq![] })
}

fn build_referential_action_grammar() -> (e: Element)
    ensures
        e@ =~~= referential_action_grammar_element(),
{
    let g1: Vec<Grammar> = vec![Grammar::keyword("SET"), Grammar::keyword("NULL")];
    assert(views(g1@) =~~= seq![GrammarView::Keyword { word: "SET"@ }, GrammarView::Keyword { word: "NULL"@ }]);
    let g2: Vec<Grammar> = Vec::new();
    assert(views(g2@) =~= Seq::<GrammarView>::empty());
    let g3 = Grammar::sequence_with(g1, g2, ParseMode::Strict);
    let g4: Vec<Grammar> = vec![Grammar::keyword("NO"), Grammar::keyword("ACTION")];
    assert(views(g4@) =~~= seq![GrammarView::Keyword { word: "NO"@ }, GrammarView::Keyword { word: "ACTION"@ }]);
    let g5: Vec<Grammar> = Vec::new();
    assert(views(g5@) =~= Seq::<GrammarView>::empty());
    let g6 = Grammar::sequence_with(g4, g5, ParseMode::Strict);
    let g7: Vec<Grammar> = vec![Grammar::keyword("SET"), Grammar::keyword("DEFAULT")];
    assert(views(g7@) =~~= seq![GrammarView::Keyword { word: "SET"@ }, GrammarView::Keyword { word: "DEFAULT"@ }]);
    let g8: Vec<Grammar> = Vec::new();
    assert(views(g8@) =~= Seq::<GrammarView>::empty());
    let g9 = Grammar::sequence_with(g7, g8, ParseMode::Strict);
    let g10: Vec<Grammar> = vec![Grammar::keyword("RESTRICT"), Grammar::keyword("CASCADE"), g3, g6, g9];
    assert(views(g10@) =~~= seq![GrammarView::Keyword { word: "RESTRICT"@ }, GrammarView::Keyword { word: "CASCADE"@ }, GrammarView::Sequence { elements: seq![GrammarView::Keyword { word: "SET"@ }, GrammarView::Keyword { word: "NULL"@ }], terminators: seq![], parse_mode: ParseMode::Strict }, GrammarView::Sequence { elements: seq![GrammarView::Keyword { word: "NO"@ }, GrammarView::Keyword { word: "ACTION"@ }], terminators: seq![], parse_mode: ParseMode::Strict }, GrammarView::Sequence { elements: seq![GrammarView::Keyword { word: "SET"@ }, GrammarView::Keyword { word: "DEFAULT"@ }], terminators: seq![], parse_mode: ParseMode::Strict }]);
    let g11: Vec<Grammar> = Vec::new();
    assert(views(g11@) =~= Seq::<GrammarView>::empty());
    let g12 = Grammar::one_of_with(g10, g11);
    Element::Grammar(g12)
}

/// The ANSI element `DropBehaviorGrammar`.
pub open spec fn drop_behavior_grammar_element() -> ElementView {
    ElementView::Grammar(GrammarView::Optional { grammar: Box::new(GrammarView::OneOf { elements: seq![GrammarView::Keyword { word: "RESTRICT"@ }, GrammarView::Keyword { word: "CASCADE"@ }], terminators: seq![] }) })
}

fn build_drop_behavior_grammar() -> (e: Element)
    ensures
        e@ =~~= drop_behavior_grammar_element(),
{
    let g1: Vec<Grammar> = vec![Grammar::keyword("RESTRICT"), Grammar::keyword("CASCADE")];
    assert(views(g1@) =~~= seq![GrammarView::Keyword { word: "RESTRICT"@ }, GrammarView::Keyword { word: "CASCADE"@ }]);
    let g2: Vec<Grammar> = Vec::new();
    assert(views(g2@) =~= Seq::<GrammarView>::empty());
    let g3 = Grammar::one_of_with(g1, g2);
    let g4 = g3.optional();
    Element::Grammar(g4)
}

/// The ANSI element `ColumnConstraintDefaultGrammar`.
pub open spec fn column_constraint_default_grammar_element() -> ElementView {
    ElementView::Grammar(GrammarView::OneOf { elements: seq![GrammarView::Ref { name: "ShorthandCastSegment"@, optional: false }, GrammarView::Ref { name: "LiteralGrammar"@, optional: false }, GrammarView::Ref { name: "FunctionSegment"@, optional: false }, GrammarView::Ref { name: "BareFunctionSegment"@, optional: false }], terminators: seq![] })
}

fn build_column_constraint_default_grammar() -> (e: Element)
    ensures
        e@ =~~= column_constraint_default_grammar_element(),
{
    let g1: Vec<Grammar> = vec![Grammar::reference("ShorthandCastSegment"), Grammar::reference("LiteralGrammar"), Grammar::reference("FunctionSegment"), Grammar::reference("BareFunctionSegment")];
    assert(views(g1@) =~~= seq![GrammarView::Ref { name: "ShorthandCastSegment"@, optional: false }, GrammarView::Ref { name: "LiteralGrammar"@, optional: false }, GrammarView::Ref { name: "FunctionSegment"@, optional: false }, GrammarView::Ref { name: "BareFunctionSegment"@, optional: false }]);
    let g2: Vec<Grammar> = Vec::new();
    assert(views(g2@) =~= Seq::<GrammarView>::empty());
    let g3 = Grammar::one_of_with(g1, g2);
    Element::Grammar(g3)
}

/// The ANSI element `ReferenceDefinitionGrammar`.
pub open spec fn reference_definition_grammar_element() -> ElementView {
    ElementView::Grammar(GrammarView::Sequence { elements: seq![GrammarView::Keyword { word: "REFERENCES"@ }, GrammarView::Ref { name: "TableReferenceSegment"@, optional: false }, GrammarView::Ref { name: "BracketedColumnReferenceListGrammar"@, optional: true }, GrammarView::Optional { grammar: Box::new(GrammarView::Sequence { elements: seq![GrammarView::Keyword { word: "MATCH"@ }, GrammarView::OneOf { elements: seq![GrammarView::Keyword { word: "FULL"@ }, GrammarView::Keyword { word: "PARTIAL"@ }, GrammarView::Keyword { word: "SIMPLE"@ }], terminators: seq![] }], terminators: seq![], parse_mode: ParseMode::Strict }) }, GrammarView::AnyNumberOf { elements: seq![GrammarView::Sequence { elements: seq![GrammarView::Keyword { word: "ON"@ }, GrammarView::Keyword { word: "DELETE"@ }, GrammarView::Ref { name: "ReferentialActionGrammar"@, optional: false }], terminators: seq![], parse_mode: ParseMode::Strict }, GrammarView::Sequence { elements: seq![GrammarView::Keyword { word: "ON"@ }, GrammarView::Keyword { word: "UPDATE"@ }, GrammarView::Ref { name: "ReferentialActionGrammar"@, optional: false }], terminators: seq![], parse_mode: ParseMode::Strict }], terminators: seq![], min_times: 0, max_times: None }], terminators: seq![], parse_mode: ParseMode::Strict })
}

fn build_reference_definition_grammar() -> (e: Element)
    ensures
        e@ =~~= reference_definition_grammar_element(),
{
    let g1: Vec<Grammar> = vec![Grammar::keyword("FULL"), Grammar::keyword("PARTIAL"), Grammar::keyword("SIMPLE")];
    assert(views(g1@) =~~= seq![GrammarView::Keyword { word: "FULL"@ }, GrammarView::Keyword { word: "PARTIAL"@ }, GrammarView::Keyword { word: "SIMPLE"@ }]);
    let g2: Vec<Grammar> = Vec::new();
    assert(views(g2@) =~= Seq::<GrammarView>::empty());
    let g3 = Grammar::one_of_with(g1, g2);
    let g4: Vec<Grammar> = vec![Grammar::keyword("MATCH"), g3];
    assert(views(g4@) =~~= seq![GrammarView::Keyword { word: "MATCH"@ }, GrammarView::OneOf { elements: seq![GrammarView::Keyword { word: "FULL"@ }, GrammarView::Keyword { word: "PARTIAL"@ }, GrammarView::Keyword { word: "SIMPLE"@ }], terminators: seq![] }]);
    let g5: Vec<Grammar> = Vec::new();
    assert(views(g5@) =~= Seq::<GrammarView>::empty());
    let g6 = Grammar::sequence_with(g4, g5, ParseMode::Strict);
    let g7 = g6.optional();
    let g8: Vec<Grammar> = vec![Grammar::keyword("ON"), Grammar::keyword("DELETE"), Grammar::reference("ReferentialActionGrammar")];
    assert(views(g8@) =~~= seq![GrammarView::Keyword { word: "ON"@ }, GrammarView::Keyword { word: "DELETE"@ }, GrammarView::Ref { name: "ReferentialActionGrammar"@, optional: false }]);
    let g9: Vec<Grammar> = Vec::new();
    assert(views(g9@) =~= Seq::<GrammarView>::empty());
    let g10 = Grammar::sequence_with(g8, g9, ParseMode::Strict);
    let g11: Vec<Grammar> = vec![Grammar::keyword("ON"), Grammar::keyword("UPDATE"), Grammar::reference("ReferentialActionGrammar")];
    assert(views(g11@) =~~= seq![GrammarView::Keyword { word: "ON"@ }, GrammarView::Keyword { word: "UPDATE"@ }, GrammarView::Ref { name: "ReferentialActionGrammar"@, optional: false }]);
    let g12: Vec<Grammar> = Vec::new();
    assert(views(g12@) =~= Seq::<GrammarView>::empty());
    let g13 = Grammar::sequence_with(g11, g12, ParseMode::Strict);
    let g14: Vec<Grammar> = vec![g10, g13];
    assert(views(g14@) =~~= seq![GrammarView::Sequence { elements: seq![GrammarView::Keyword { word: "ON"@ }, GrammarView::Keyword { word: "DELETE"@ }, GrammarView::Ref { name: "ReferentialActionGrammar"@, optional: false }], terminators: seq![], parse_mode: ParseMode::Strict }, GrammarView::Sequence { elements: seq![GrammarView::Keyword { word: "ON"@ }, GrammarView::Keyword { word: "UPDATE"@ }, GrammarView::Ref { name: "ReferentialActionGrammar"@, optional: false }], terminators: seq![], parse_mode: ParseMode::Strict }]);
    let g15: Vec<Grammar> = Vec::new();
    assert(views(g15@) =~= Seq::<GrammarView>::empty());
    let g16 = Grammar::any_number_of_with(g14, g15, 0, None);
    let g17: Vec<Grammar> = vec![Grammar::keyword("REFERENCES"), Grammar::reference("TableReferenceSegment"), Grammar::optional_reference("BracketedColumnReferenceListGrammar"), g7, g16];
    assert(views(g17@) =~~= seq![GrammarView::Keyword { word: "REFERENCES"@ }, GrammarView::Ref { name: "TableReferenceSegment"@, optional: false }, GrammarView::Ref { name: "BracketedColumnReferenceListGrammar"@, optional: true }, GrammarView::Optional { grammar: Box::new(GrammarView::Sequence { elements: seq![GrammarView::Keyword { word: "MATCH"@ }, GrammarView::OneOf { elements: seq![GrammarView::Keyword { word: "FULL"@ }, GrammarView::Keyword { word: "PARTIAL"@ }, GrammarView::Keyword { word: "SIMPLE"@ }], terminators: seq![] }], terminators: seq![], parse_mode: ParseMode::Strict }) }, GrammarView::AnyNumberOf { elements: seq![GrammarView::Sequence { elements: seq![GrammarView::Keyword { word: "ON"@ }, GrammarView::Keyword { word: "DELETE"@ }, GrammarView::Ref { name: "ReferentialActionGrammar"@, optional: false }], terminators: seq![], parse_mode: ParseMode::Strict }, GrammarView::Sequence { elements: seq![GrammarView::Keyword { word: "ON"@ }, GrammarView::Keyword { word: "UPDATE"@ }, GrammarView::Ref { name: "ReferentialActionGrammar"@, optional: false }], terminators: seq![], parse_mode: ParseMode::Strict }], terminators: seq![], min_times: 0, max_times: None }]);
    let g18: Vec<Grammar> = Vec::new();
    assert(views(g18@) =~= Seq::<GrammarView>::empty());
    let g19 = Grammar::sequence_with(g17, g18, ParseMode::Strict);
    Element::Grammar(g19)
}

/// The ANSI element `TrimParametersGrammar`.
pub open spec fn trim_parameters_grammar_element() -> ElementView {
    ElementView::Grammar(GrammarView::OneOf { elements: seq![GrammarView::Keyword { word: "BOTH"@ }, GrammarView::Keyword { word: "LEADING"@ }, GrammarView::Keyword { word: "TRAILING"@ }], terminators: seq![] })
}

fn build_trim_parameters_grammar() -> (e: Element)
    ensures
        e@ =~~= trim_parameters_grammar_element(),
{
    let g1: Vec<Grammar> = vec![Grammar::keyword("BOTH"), Grammar::keyword("LEADING"), Grammar::keyword("TRAILING")];
    assert(views(g1@) =~~= seq![GrammarView::Keyword { word: "BOTH"@ }, GrammarView::Keyword { word: "LEADING"@ }, GrammarView::Keyword { word: "TRAILING"@ }]);
    let g2: Vec<Grammar> = Vec::new();
    assert(views(g2@) =~= Seq::<GrammarView>::empty());
    let g3 = Grammar::one_of_with(g1, g2);
    Element::Grammar(g3)
}

/// The ANSI element `DefaultValuesGrammar`.
pub open spec fn default_values_grammar_element() -> ElementView {
    ElementView::Grammar(GrammarView::Sequence { elements: seq![GrammarView::Keyword { word: "DEFAULT"@ }, GrammarView::Keyword { word: "VALUES"@ }], terminators: seq![], parse_mode: ParseMode::Strict })
}

fn build_default_values_grammar() -> (e: Element)
    ensures
        e@ =~~= default_values_grammar_element(),
{
    let g1: Vec<Grammar> = vec![Grammar::keyword("DEFAULT"), Grammar::keyword("VALUES")];
    assert(views(g1@) =~~= seq![GrammarView::Keyword { word: "DEFAULT"@ }, GrammarView::Keyword { word: "VALUES"@ }]);
    let g2: Vec<Grammar> = Vec::new();
    assert(views(g2@) =~= Seq::<GrammarView>::empty());
    let g3 = Grammar::sequence_with(g1, g2, ParseMode::Strict);
    Element::Grammar(g3)
}

/// The ANSI element `ObjectReferenceDelimiterGrammar`.
pub open spec fn object_reference_delimiter_grammar_element() -> ElementView {
    ElementView::Grammar(GrammarView::OneOf { elements: seq![GrammarView::Ref { name: "DotSegment"@, optional: false }, GrammarView::Sequence { elements: seq![GrammarView::Ref { name: "DotSegment"@, optional: false }, GrammarView::Ref { name: "DotSegment"@, optional: false }], terminators: seq![], parse_mode: ParseMode::Strict }], terminators: seq![] })
}

fn build_object_reference_delimiter_grammar() -> (e: Element)
    ensures
        e@ =~~= object_reference_delimiter_grammar_element(),
{
    let g1: Vec<Grammar> = vec![Grammar::reference("DotSegment"), Grammar::reference("DotSegment")];
    assert(views(g1@) =~~= seq![GrammarView::Ref { name: "DotSegment"@, optional: false }, GrammarView::Ref { name: "DotSegment"@, optional: false }]);
    let g2: Vec<Grammar> = Vec::new();
    assert(views(g2@) =~= Seq::<GrammarView>::empty());
    let g3 = Grammar::sequence_with(g1, g2, ParseMode::Strict);
    let g4: Vec<Grammar> = vec![Grammar::reference("DotSegment"), g3];
    assert(views(g4@) =~~= seq![GrammarView::Ref { name: "DotSegment"@, optional: false }, GrammarView::Sequence { elements: seq![GrammarView::Ref { name: "DotSegment"@, optional: false }, GrammarView::Ref { name: "DotSegment"@, optional: false }], terminators: seq![], parse_mode: ParseMode::Strict }]);
    let g5: Vec<Grammar> = Vec::new();
    assert(views(g5@) =~= Seq::<GrammarView>::empty());
    let g6 = Grammar::one_of_with(g4, g5);
    Element::Grammar(g6)
}

/// The ANSI element `ObjectReferenceTerminatorGrammar`.
pub open spec fn object_reference_terminator_grammar_element() -> ElementView {
    ElementView::Grammar(GrammarView::OneOf { elements: seq![GrammarView::Keyword { word: "ON"@ }, GrammarView::Keyword { word: "AS"@ }, GrammarView::Keyword { word: "USING"@ }, GrammarView::Ref { name: "CommaSegment"@, optional: false }, GrammarView::Ref { name: "CastOperatorSegment"@, optional: false }, GrammarView::Ref { name: "StartSquareBracketSegment"@, optional: false }, GrammarView::Ref { name: "StartBracketSegment"@, optional: false }, GrammarView::Ref { name: "BinaryOperatorGrammar"@, optional: false }, GrammarView::Ref { name: "ColonSegment"@, optional: false }, GrammarView::Ref { name: "DelimiterGrammar"@, optional: false }, GrammarView::Ref { name: "JoinLikeClauseGrammar"@, optional: false }, GrammarView::Bracketed { elements: seq![], bracket_type: "round"@ }], terminators: seq![] })
}

fn build_object_reference_terminator_grammar() -> (e: Element)
    ensures
        e@ =~~= object_reference_terminator_grammar_element(),
{
    let g1: Vec<Grammar> = Vec::new();
    assert(views(g1@) =~= Seq::<GrammarView>::empty());
    let g2 = Grammar::bracketed_with(g1, "round");
    let g3: Vec<Grammar> = vec![Grammar::keyword("ON"), Grammar::keyword("AS"), Grammar::keyword("USING"), Grammar::reference("CommaSegment"), Grammar::reference("CastOperatorSegment"), Grammar::reference("StartSquareBracketSegment"), Grammar::reference("StartBracketSegment"), Grammar::reference("BinaryOperatorGrammar"), Grammar::reference("ColonSegment"), Grammar::reference("DelimiterGrammar"), Grammar::reference("JoinLikeClauseGrammar"), g2];
    assert(views(g3@) =~~= seq![GrammarView::Keyword { word: "ON"@ }, GrammarView::Keyword { word: "AS"@ }, GrammarView::Keyword { word: "USING"@ }, GrammarView::Ref { name: "CommaSegment"@, optional: false }, GrammarView::Ref { name: "CastOperatorSegment"@, optional: false }, GrammarView::Ref { name: "StartSquareBracketSegment"@, optional: false }, GrammarView::Ref { name: "StartBracketSegment"@, optional: false }, GrammarView::Ref { name: "BinaryOperatorGrammar"@, optional: false }, GrammarView::Ref { name: "ColonSegment"@, optional: false }, GrammarView::Ref { name: "DelimiterGrammar"@, optional: false }, GrammarView::Ref { name: "JoinLikeClauseGrammar"@, optional: false }, GrammarView::Bracketed { elements: seq![], bracket_type: "round"@ }]);
    let g4: Vec<Grammar> = Vec::new();
    assert(views(g4@) =~= Seq::<GrammarView>::empty());
    let g5 = Grammar::one_of_with(g3, g4);
    Element::Grammar(g5)
}

/// The ANSI element `AlterTableDropColumnGrammar`.
pub open spec fn alter_table_drop_column_grammar_element() -> ElementView {
    ElementView::Grammar(GrammarView::Sequence { elements: seq![GrammarView::Keyword { word: "DROP"@ }, GrammarView::Optional { grammar: Box::new(GrammarView::Keyword { word: "COLUMN"@ }) }, GrammarView::Ref { name: "IfExistsGrammar"@, optional: true }, GrammarView::Ref { name: "SingleIdentifierGrammar"@, optional: false }], terminators: seq![], parse_mode: ParseMode::Strict })
}

fn build_alter_table_drop_column_grammar() -> (e: Element)
    ensures
        e@ =~~= alter_table_drop_column_grammar_element(),
{
    let g1 = Grammar::keyword("COLUMN").optional();
    let g2: Vec<Grammar> = vec![Grammar::keyword("DROP"), g1, Grammar::optional_reference("IfExistsGrammar"), Grammar::reference("SingleIdentifierGrammar")];
    assert(views(g2@) =~~= seq![GrammarView::Keyword { word: "DROP"@ }, GrammarView::Optional { grammar: Box::new(GrammarView::Keyword { word: "COLUMN"@ }) }, GrammarView::Ref { name: "IfExistsGrammar"@, optional: true }, GrammarView::Ref { name: "SingleIdentifierGrammar"@, optional: false }]);
    let g3: Vec<Grammar> = Vec::new();
    assert(views(g3@) =~= Seq::<GrammarView>::empty());
    let g4 = Grammar::sequence_with(g2, g3, ParseMode::Strict);
    Element::Grammar(g4)
}

/// The ANSI element `AlterTableOptionsGrammar`.
pub open spec fn alter_table_options_grammar_element() -> ElementView {
    ElementView::Grammar(GrammarView::OneOf { elements: seq![GrammarView::Sequence { elements: seq![GrammarView::Ref { name: "ParameterNameSegment"@, optional: false }, GrammarView::Ref { name: "EqualsSegment"@, optional: true }, GrammarView::OneOf { elements: seq![GrammarView::Ref { name: "LiteralGrammar"@, optional: false }, GrammarView::Ref { name: "NakedIdentifierSegment"@, optional: false }], terminators: seq![] }], terminators: seq![], parse_mode: ParseMode::Strict }, GrammarView::Sequence { elements: seq![GrammarView::OneOf { elements: seq![GrammarView::Keyword { word: "ADD"@ }, GrammarView::Keyword { word: "MODIFY"@ }], terminators: seq![] }, GrammarView::Optional { grammar: Box::new(GrammarView::Keyword { word: "COLUMN"@ }) }, GrammarView::Ref { name: "ColumnDefinitionSegment"@, optional: false }, GrammarView::Optional { grammar: Box::new(GrammarView::OneOf { elements: seq![GrammarView::Sequence { elements: seq![GrammarView::OneOf { elements: seq![GrammarView::Keyword { word: "FIRST"@ }, GrammarView::Keyword { word: "AFTER"@ }, GrammarView::Ref { name: "ColumnReferenceSegment"@, optional: false }, GrammarView::Ref { name: "BracketedColumnReferenceListGrammar"@, optional: false }], terminators: seq![] }], terminators: seq![], parse_mode: ParseMode::Strict }], terminators: seq![] }) }], terminators: seq![], parse_mode: ParseMode::Strict }, GrammarView::Ref { name: "AlterTableDropColumnGrammar"@, optional: false }, GrammarView::Sequence { elements: seq![GrammarView::Keyword { word: "RENAME"@ }, GrammarView::Optional { grammar: Box::new(GrammarView::OneOf { elements: seq![GrammarView::Keyword { word: "AS"@ }, GrammarView::Keyword { word: "TO"@ }], terminators: seq![] }) }, GrammarView::Ref { name: "TableReferenceSegment"@, optional: false }], terminators: seq![], parse_mode: ParseMode::Strict }], terminators: seq![] })
}

fn build_alter_table_options_grammar() -> (e: Element)
    ensures
        e@ =~~= alter_table_options_grammar_element(),
{
    let g1: Vec<Grammar> = vec![Grammar::reference("LiteralGrammar"), Grammar::reference("NakedIdentifierSegment")];
    assert(views(g1@) =~~= seq![GrammarView::Ref { name: "LiteralGrammar"@, optional: false }, GrammarView::Ref { name: "NakedIdentifierSegment"@, optional: false }]);
    let g2: Vec<Grammar> = Vec::new();
    assert(views(g2@) =~= Seq::<GrammarView>::empty());
    let g3 = Grammar::one_of_with(g1, g2);
    let g4: Vec<Grammar> = vec![Grammar::reference("ParameterNameSegment"), Grammar::optional_reference("EqualsSegment"), g3];
    assert(views(g4@) =~~= seq![GrammarView::Ref { name: "ParameterNameSegment"@, optional: false }, GrammarView::Ref { name: "EqualsSegment"@, optional: true }, GrammarView::OneOf { elements: seq![GrammarView::Ref { name: "LiteralGrammar"@, optional: false }, GrammarView::Ref { name: "NakedIdentifierSegment"@, optional: false }], terminators: seq![] }]);
    let g5: Vec<Grammar> = Vec::new();
    assert(views(g5@) =~= Seq::<GrammarView>::empty());
    let g6 = Grammar::sequence_with(g4, g5, ParseMode::Strict);
    let g7: Vec<Grammar> = vec![Grammar::keyword("ADD"), Grammar::keyword("MODIFY")];
    assert(views(g7@) =~~= seq![GrammarView::Keyword { word: "ADD"@ }, GrammarView::Keyword { word: "MODIFY"@ }]);
    let g8: Vec<Grammar> = Vec::new();
    assert(views(g8@) =~= Seq::<GrammarView>::empty());
    let g9 = Grammar::one_of_with(g7, g8);
    let g10 = Grammar::keyword("COLUMN").optional();
    let g11: Vec<Grammar> = vec![Grammar::keyword("FIRST"), Grammar::keyword("AFTER"), Grammar::reference("ColumnReferenceSegment"), Grammar::reference("BracketedColumnReferenceListGrammar")];
    assert(views(g11@) =~~= seq![GrammarView::Keyword { word: "FIRST"@ }, GrammarView::Keyword { word: "AFTER"@ }, GrammarView::Ref { name: "ColumnReferenceSegment"@, optional: false }, GrammarView::Ref { name: "BracketedColumnReferenceListGrammar"@, optional: false }]);
    let g12: Vec<Grammar> = Vec::new();
    assert(views(g12@) =~= Seq::<GrammarView>::empty());
    let g13 = Grammar::one_of_with(g11, g12);
    let g14: Vec<Grammar> = vec![g13];
    assert(views(g14@) =~~= seq![GrammarView::OneOf { elements: seq![GrammarView::Keyword { word: "FIRST"@ }, GrammarView::Keyword { word: "AFTER"@ }, GrammarView::Ref { name: "ColumnReferenceSegment"@, optional: false }, GrammarView::Ref { name: "BracketedColumnReferenceListGrammar"@, optional: false }], terminators: seq![] }]);
    let g15: Vec<Grammar> = Vec::new();
    assert(views(g15@) =~= Seq::<GrammarView>::empty());
    let g16 = Grammar::sequence_with(g14, g15, ParseMode::Strict);
    let g17: Vec<Grammar> = vec![g16];
    assert(views(g17@) =~~= seq![GrammarView::Sequence { elements: seq![GrammarView::OneOf { elements: seq![GrammarView::Keyword { word: "FIRST"@ }, GrammarView::Keyword { word: "AFTER"@ }, GrammarView::Ref { name: "ColumnReferenceSegment"@, optional: false }, GrammarView::Ref { name: "BracketedColumnReferenceListGrammar"@, optional: false }], terminators: seq![] }], terminators: seq![], parse_mode: ParseMode::Strict }]);
    let g18: Vec<Grammar> = Vec::new();
    assert(views(g18@) =~= Seq::<GrammarView>::empty());
    let g19 = Grammar::one_of_with(g17, g18);
    let g20 = g19.optional();
    let g21: Vec<Grammar> = vec![g9, g10, Grammar::reference("ColumnDefinitionSegment"), g20];
    assert(views(g21@) =~~= seq![GrammarView::OneOf { elements: seq![GrammarView::Keyword { word: "ADD"@ }, GrammarView::Keyword { word: "MODIFY"@ }], terminators: seq![] }, GrammarView::Optional { grammar: Box::new(GrammarView::Keyword { word: "COLUMN"@ }) }, GrammarView::Ref { name: "ColumnDefinitionSegment"@, optional: false }, GrammarView::Optional { grammar: Box::new(GrammarView::OneOf { elements: seq![GrammarView::Sequence { elements: seq![GrammarView::OneOf { elements: seq![GrammarView::Keyword { word: "FIRST"@ }, GrammarView::Keyword { word: "AFTER"@ }, GrammarView::Ref { name: "ColumnReferenceSegment"@, optional: false }, GrammarView::Ref { name: "BracketedColumnReferenceListGrammar"@, optional: false }], terminators: seq![] }], terminators: seq![], parse_mode: ParseMode::Strict }], terminators: seq![] }) }]);
    let g22: Vec<Grammar> = Vec::new();
    assert(views(g22@) =~= Seq::<GrammarView>::empty());
    let g23 = Grammar::sequence_with(g21, g22, ParseMode::Strict);
    let g24: Vec<Grammar> = vec![Grammar::keyword("AS"), Grammar::keyword("TO")];
    assert(views(g24@) =~~= seq![GrammarView::Keyword { word: "AS"@ }, GrammarView::Keyword { word: "TO"@ }]);
    let g25: Vec<Grammar> = Vec::new();
    assert(views(g25@) =~= Seq::<GrammarView>::empty());
    let g26 = Grammar::one_of_with(g24, g25);
    let g27 = g26.optional();
    let g28: Vec<Grammar> = vec![Grammar::keyword("RENAME"), g27, Grammar::reference("TableReferenceSegment")];
    assert(views(g28@) =~~= seq![GrammarView::Keyword { word: "RENAME"@ }, GrammarView::Optional { grammar: Box::new(GrammarView::OneOf { elements: seq![GrammarView::Keyword { word: "AS"@ }, GrammarView::Keyword { word: "TO"@ }], terminators: seq![] }) }, GrammarView::Ref { name: "TableReferenceSegment"@, optional: false }]);
    let g29: Vec<Grammar> = Vec::new();
    assert(views(g29@) =~= Seq::<GrammarView>::empty());
    let g30 = Grammar::sequence_with(g28, g29, ParseMode::Strict);
    let g31: Vec<Grammar> = vec![g6, g23, Grammar::reference("AlterTableDropColumnGrammar"), g30];
    assert(views(g31@) =~~= seq![GrammarView::Sequence { elements: seq![GrammarView::Ref { name: "ParameterNameSegment"@, optional: false }, GrammarView::Ref { name: "EqualsSegment"@, optional: true }, GrammarView::OneOf { elements: seq![GrammarView::Ref { name: "LiteralGrammar"@, optional: false }, GrammarView::Ref { name: "NakedIdentifierSegment"@, optional: false }], terminators: seq![] }], terminators: seq![], parse_mode: ParseMode::Strict }, GrammarView::Sequence { elements: seq![GrammarView::OneOf { elements: seq![GrammarView::Keyword { word: "ADD"@ }, GrammarView::Keyword { word: "MODIFY"@ }], terminators: seq![] }, GrammarView::Optional { grammar: Box::new(GrammarView::Keyword { word: "COLUMN"@ }) }, GrammarView::Ref { name: "ColumnDefinitionSegment"@, optional: false }, GrammarView::Optional { grammar: Box::new(GrammarView::OneOf { elements: seq![GrammarView::Sequence { elements: seq![GrammarView::OneOf { elements: seq![GrammarView::Keyword { word: "FIRST"@ }, GrammarView::Keyword { word: "AFTER"@ }, GrammarView::Ref { name: "ColumnReferenceSegment"@, optional: false }, GrammarView::Ref { name: "BracketedColumnReferenceListGrammar"@, optional: false }], terminators: seq![] }], terminators: seq![], parse_mode: ParseMode::Strict }], terminators: seq![] }) }], terminators: seq![], parse_mode: ParseMode::Strict }, GrammarView::Ref { name: "AlterTableDropColumnGrammar"@, optional: false }, GrammarView::Sequence { elements: seq![GrammarView::Keyword { word: "RENAME"@ }, GrammarView::Optional { grammar: Box::new(GrammarView::OneOf { elements: seq![GrammarView::Keyword { word: "AS"@ }, GrammarView::Keyword { word: "TO"@ }], terminators: seq![] }) }, GrammarView::Ref { name: "TableReferenceSegment"@, optional: false }], terminators: seq![], parse_mode: ParseMode::Strict }]);
    let g32: Vec<Grammar> = Vec::new();
    assert(views(g32@) =~= Seq::<GrammarView>::empty());
    let g33 = Grammar::one_of_with(g31, g32);
    Element::Grammar(g33)
}

/// The ANSI element `FileSegment`.
pub open spec fn file_segment_element() -> ElementView {
    ElementView::Node { kind: "file"@, grammar: GrammarView::Delimited { elements: seq![GrammarView::Ref { name: "StatementSegment"@, optional: false }], allow_trailing: true, delimiter: Some(Box::new(GrammarView::AnyNumberOf { elements: seq![GrammarView::Ref { name: "DelimiterGrammar"@, optional: false }], terminators: seq![], min_times: 1, max_times: None })), terminators: seq![], allow_gaps: true } }
}

fn build_file_segment() -> (e: Element)
    ensures
        e@ =~~= file_segment_element(),
{
    let g1: Vec<Grammar> = vec![Grammar::reference("StatementSegment")];
    assert(views(g1@) =~~= seq![GrammarView::Ref { name: "StatementSegment"@, optional: false }]);
    let g2: Vec<Grammar> = vec![Grammar::reference("DelimiterGrammar")];
    assert(views(g2@) =~~= seq![GrammarView::Ref { name: "DelimiterGrammar"@, optional: false }]);
    let g3: Vec<Grammar> = Vec::new();
    assert(views(g3@) =~= Seq::<GrammarView>::empty());
    let g4 = Grammar::any_number_of_with(g2, g3, 1, None);
    let g5: Vec<Grammar> = Vec::new();
    assert(views(g5@) =~= Seq::<GrammarView>::empty());
    let g6 = Grammar::delimited_with(g1, true, Some(g4), g5, true);
    Element::Node { kind: "file", grammar: g6 }
}

/// The ANSI element `ColumnReferenceSegment`.
pub open spec fn column_reference_segment_element() -> ElementView {
    ElementView::Node { kind: "column_reference"@, grammar: GrammarView::Delimited { elements: seq![GrammarView::Ref { name: "SingleIdentifierGrammar"@, optional: false }], allow_trailing: false, delimiter: Some(Box::new(GrammarView::Ref { name: "ObjectReferenceDelimiterGrammar"@, optional: false })), terminators: seq![], allow_gaps: true } }
}

fn build_column_reference_segment() -> (e: Element)
    ensures
        e@ =~~= column_reference_segment_element(),
{
    let g1: Vec<Grammar> = vec![Grammar::reference("SingleIdentifierGrammar")];
    assert(views(g1@) =~~= seq![GrammarView::Ref { name: "SingleIdentifierGrammar"@, optional: false }]);
    let g2: Vec<Grammar> = Vec::new();
    assert(views(g2@) =~= Seq::<GrammarView>::empty());
    let g3 = Grammar::delimited_with(g1, false, Some(Grammar::reference("ObjectReferenceDelimiterGrammar")), g2, true);
    Element::Node { kind: "column_reference", grammar: g3 }
}

/// The ANSI element `ExpressionSegment`.
pub open spec fn expression_segment_element() -> ElementView {
    ElementView::Node { kind: "expression"@, grammar: GrammarView::Ref { name: "Expression_A_Grammar"@, optional: false } }
}

fn build_expression_segment() -> (e: Element)
    ensures
        e@ =~~= expression_segment_element(),
{
    Element::Node { kind: "expression", grammar: Grammar::reference("Expression_A_Grammar") }
}

/// The ANSI element `WildcardIdentifierSegment`.
pub open spec fn wildcard_identifier_segment_element() -> ElementView {
    ElementView::Node { kind: "wildcard_identifier"@, grammar: GrammarView::WithoutGaps { grammar: Box::new(GrammarView::Sequence { elements: seq![GrammarView::AnyNumberOf { elements: seq![GrammarView::Sequence { elements: seq![GrammarView::Ref { name: "SingleIdentifierGrammar"@, optional: false }, GrammarView::Ref { name: "ObjectReferenceDelimiterGrammar"@, optional: false }], terminators: seq![], parse_mode: ParseMode::Strict }], terminators: seq![], min_times: 0, max_times: None }, GrammarView::Ref { name: "StarSegment"@, optional: false }], terminators: seq![], parse_mode: ParseMode::Strict }) } }
}

fn build_wildcard_identifier_segment() -> (e: Element)
    ensures
        e@ =~~= wildcard_identifier_segment_element(),
{
    let g1: Vec<Grammar> = vec![Grammar::reference("SingleIdentifierGrammar"), Grammar::reference("ObjectReferenceDelimiterGrammar")];
    assert(views(g1@) =~~= seq![GrammarView::Ref { name: "SingleIdentifierGrammar"@, optional: false }, GrammarView::Ref { name: "ObjectReferenceDelimiterGrammar"@, optional: false }]);
    let g2: Vec<Grammar> = Vec::new();
    assert(views(g2@) =~= Seq::<GrammarView>::empty());
    let g3 = Grammar::sequence_with(g1, g2, ParseMode::Strict);
    let g4: Vec<Grammar> = vec![g3];
    assert(views(g4@) =~~= seq![GrammarView::Sequence { elements: seq![GrammarView::Ref { name: "SingleIdentifierGrammar"@, optional: false }, GrammarView::Ref { name: "ObjectReferenceDelimiterGrammar"@, optional: false }], terminators: seq![], parse_mode: ParseMode::Strict }]);
    let g5: Vec<Grammar> = Vec::new();
    assert(views(g5@) =~= Seq::<GrammarView>::empty());
    let g6 = Grammar::any_number_of_with(g4, g5, 0, None);
    let g7: Vec<Grammar> = vec![g6, Grammar::reference("StarSegment")];
    assert(views(g7@) =~~= seq![GrammarView::AnyNumberOf { elements: seq![GrammarView::Sequence { elements: seq![GrammarView::Ref { name: "SingleIdentifierGrammar"@, optional: false }, GrammarView::Ref { name: "ObjectReferenceDelimiterGrammar"@, optional: false }], terminators: seq![], parse_mode: ParseMode::Strict }], terminators: seq![], min_times: 0, max_times: None }, GrammarView::Ref { name: "StarSegment"@, optional: false }]);
    let g8: Vec<Grammar> = Vec::new();
    assert(views(g8@) =~= Seq::<GrammarView>::empty());
    let g9 = Grammar::sequence_with(g7, g8, ParseMode::Strict);
    let g10 = g9.without_gaps();
    Element::Node { kind: "wildcard_identifier", grammar: g10 }
}

/// The ANSI element `NamedWindowExpressionSegment`.
pub open spec fn named_window_expression_segment_element() -> ElementView {
    ElementView::Node { kind: "named_window_expression"@, grammar: GrammarView::Sequence { elements: seq![GrammarView::Ref { name: "SingleIdentifierGrammar"@, optional: false }, GrammarView::Keyword { word: "AS"@ }, GrammarView::OneOf { elements: seq![GrammarView::Ref { name: "SingleIdentifierGrammar"@, optional: false }, GrammarView::InMode { grammar: Box::new(GrammarView::Bracketed { elements: seq![GrammarView::Ref { name: "WindowSpecificationSegment"@, optional: false }], bracket_type: "round"@ }), parse_mode: ParseMode::Greedy }], terminators: seq![] }], terminators: seq![], parse_mode: ParseMode::Strict } }
}

fn build_named_window_expression_segment() -> (e: Element)
    ensures
        e@ =~~= named_window_expression_segment_element(),
{
    let g1: Vec<Grammar> = vec![Grammar::reference("WindowSpecificationSegment")];
    assert(views(g1@) =~~= seq![GrammarView::Ref { name: "WindowSpecificationSegment"@, optional: false }]);
    let g2 = Grammar::bracketed_with(g1, "round");
    let g3 = g2.in_mode(ParseMode::Greedy);
    let g4: Vec<Grammar> = vec![Grammar::reference("SingleIdentifierGrammar"), g3];
    assert(views(g4@) =~~= seq![GrammarView::Ref { name: "SingleIdentifierGrammar"@, optional: false }, GrammarView::InMode { grammar: Box::new(GrammarView::Bracketed { elements: seq![GrammarView::Ref { name: "WindowSpecificationSegment"@, optional: false }], bracket_type: "round"@ }), parse_mode: ParseMode::Greedy }]);
    let g5: Vec<Grammar> = Vec::new();
    assert(views(g5@) =~= Seq::<GrammarView>::empty());
    let g6 = Grammar::one_of_with(g4, g5);
    let g7: Vec<Grammar> = vec![Grammar::reference("SingleIdentifierGrammar"), Grammar::keyword("AS"), g6];
    assert(views(g7@) =~~= seq![GrammarView::Ref { name: "SingleIdentifierGrammar"@, optional: false }, GrammarView::Keyword { word: "AS"@ }, GrammarView::OneOf { elements: seq![GrammarView::Ref { name: "SingleIdentifierGrammar"@, optional: false }, GrammarView::InMode { grammar: Box::new(GrammarView::Bracketed { elements: seq![GrammarView::Ref { name: "WindowSpecificationSegment"@, optional: false }], bracket_type: "round"@ }), parse_mode: ParseMode::Greedy }], terminators: seq![] }]);
    let g8: Vec<Grammar> = Vec::new();
    assert(views(g8@) =~= Seq::<GrammarView>::empty());
    let g9 = Grammar::sequence_with(g7, g8, ParseMode::Strict);
    Element::Node { kind: "named_window_expression", grammar: g9 }
}

/// The ANSI element `DateTimeFunctionContentsSegment`.
pub open spec fn date_time_function_contents_segment_element() -> ElementView {
    ElementView::Node { kind: "function_contents"@, grammar: GrammarView::Sequence { elements: seq![GrammarView::Bracketed { elements: seq![GrammarView::Delimited { elements: seq![GrammarView::Ref { name: "DatetimeUnitSegment"@, optional: false }, GrammarView::Ref { name: "FunctionContentsGrammar"@, optional: true }], allow_trailing: false, delimiter: None, terminators: seq![], allow_gaps: true }], bracket_type: "round"@ }], terminators: seq![], parse_mode: ParseMode::Strict } }
}

fn build_date_time_function_contents_segment() -> (e: Element)
    ensures
        e@ =~~= date_time_function_contents_segment_element(),
{
    let g1: Vec<Grammar> = vec![Grammar::reference("DatetimeUnitSegment"), Grammar::optional_reference("FunctionContentsGrammar")];
    assert(views(g1@) =~~= seq![GrammarView::Ref { name: "DatetimeUnitSegment"@, optional: false }, GrammarView::Ref { name: "FunctionContentsGrammar"@, optional: true }]);
    let g2: Vec<Grammar> = Vec::new();
    assert(views(g2@) =~= Seq::<GrammarView>::empty());
    let g3 = Grammar::delimited_with(g1, false, None, g2, true);
    let g4: Vec<Grammar> = vec![g3];
    assert(views(g4@) =~~= seq![GrammarView::Delimited { elements: seq![GrammarView::Ref { name: "DatetimeUnitSegment"@, optional: false }, GrammarView::Ref { name: "FunctionContentsGrammar"@, optional: true }], allow_trailing: false, delimiter: None, terminators: seq![], allow_gaps: true }]);
    let g5 = Grammar::bracketed_with(g4, "round");
    let g6: Vec<Grammar> = vec![g5];
    assert(views(g6@) =~~= seq![GrammarView::Bracketed { elements: seq![GrammarView::Delimited { elements: seq![GrammarView::Ref { name: "DatetimeUnitSegment"@, optional: false }, GrammarView::Ref { name: "FunctionContentsGrammar"@, optional: true }], allow_trailing: false, delimiter: None, terminators: seq![], allow_gaps: true }], bracket_type: "round"@ }]);
    let g7: Vec<Grammar> = Vec::new();
    assert(views(g7@) =~= Seq::<GrammarView>::empty());
    let g8 = Grammar::sequence_with(g6, g7, ParseMode::Strict);
    Element::Node { kind: "function_contents", grammar: g8 }
}

/// The ANSI element `FunctionSegment`.
pub open spec fn function_segment_element() -> ElementView {
    ElementView::Node { kind: "function"@, grammar: GrammarView::OneOf { elements: seq![GrammarView::Sequence { elements: seq![GrammarView::Ref { name: "DatePartFunctionNameSegment"@, optional: false }, GrammarView::Ref { name: "DateTimeFunctionContentsSegment"@, optional: false }], terminators: seq![], parse_mode: ParseMode::Strict }, GrammarView::Sequence { elements: seq![GrammarView::Sequence { elements: seq![GrammarView::Exclude { grammar: Box::new(GrammarView::Ref { name: "FunctionNameSegment"@, optional: false }), exclude: Box::new(GrammarView::OneOf { elements: seq![GrammarView::Ref { name: "DatePartFunctionNameSegment"@, optional: false }, GrammarView::Ref { name: "ValuesClauseSegment"@, optional: false }], terminators: seq![] }) }, GrammarView::Ref { name: "FunctionContentsSegment"@, optional: false }], terminators: seq![], parse_mode: ParseMode::Strict }, GrammarView::Ref { name: "PostFunctionGrammar"@, optional: true }], terminators: seq![], parse_mode: ParseMode::Strict }], terminators: seq![] } }
}

fn build_function_segment() -> (e: Element)
    ensures
        e@ =~~= function_segment_element(),
{
    let g1: Vec<Grammar> = vec![Grammar::reference("DatePartFunctionNameSegment"), Grammar::reference("DateTimeFunctionContentsSegment")];
    assert(views(g1@) =~~= seq![GrammarView::Ref { name: "DatePartFunctionNameSegment"@, optional: false }, GrammarView::Ref { name: "DateTimeFunctionContentsSegment"@, optional: false }]);
    let g2: Vec<Grammar> = Vec::new();
    assert(views(g2@) =~= Seq::<GrammarView>::empty());
    let g3 = Grammar::sequence_with(g1, g2, ParseMode::Strict);
    let g4: Vec<Grammar> = vec![Grammar::reference("DatePartFunctionNameSegment"), Grammar::reference("ValuesClauseSegment")];
    assert(views(g4@) =~~= seq![GrammarView::Ref { name: "DatePartFunctionNameSegment"@, optional: false }, GrammarView::Ref { name: "ValuesClauseSegment"@, optional: false }]);
    let g5: Vec<Grammar> = Vec::new();
    assert(views(g5@) =~= Seq::<GrammarView>::empty());
    let g6 = Grammar::one_of_with(g4, g5);
    let g7 = Grammar::reference("FunctionNameSegment").exclude(g6);
    let g8: Vec<Grammar> = vec![g7, Grammar::reference("FunctionContentsSegment")];
    assert(views(g8@) =~~= seq![GrammarView::Exclude { grammar: Box::new(GrammarView::Ref { name: "FunctionNameSegment"@, optional: false }), exclude: Box::new(GrammarView::OneOf { elements: seq![GrammarView::Ref { name: "DatePartFunctionNameSegment"@, optional: false }, GrammarView::Ref { name: "ValuesClauseSegment"@, optional: false }], terminators: seq![] }) }, GrammarView::Ref { name: "FunctionContentsSegment"@, optional: false }]);
    let g9: Vec<Grammar> = Vec::new();
    assert(views(g9@) =~= Seq::<GrammarView>::empty());
    let g10 = Grammar::sequence_with(g8, g9, ParseMode::Strict);
    let g11: Vec<Grammar> = vec![g10, Grammar::optional_reference("PostFunctionGrammar")];
    assert(views(g11@) =~~= seq![GrammarView::Sequence { elements: seq![GrammarView::Exclude { grammar: Box::new(GrammarView::Ref { name: "FunctionNameSegment"@, optional: false }), exclude: Box::new(GrammarView::OneOf { elements: seq![GrammarView::Ref { name: "DatePartFunctionNameSegment"@, optional: false }, GrammarView::Ref { name: "ValuesClauseSegment"@, optional: false }], terminators: seq![] }) }, GrammarView::Ref { name: "FunctionContentsSegment"@, optional: false }], terminators: seq![], parse_mode: ParseMode::Strict }, GrammarView::Ref { name: "PostFunctionGrammar"@, optional: true }]);
    let g12: Vec<Grammar> = Vec::new();
    assert(views(g12@) =~= Seq::<GrammarView>::empty());
    let g13 = Grammar::sequence_with(g11, g12, ParseMode::Strict);
    let g14: Vec<Grammar> = vec![g3, g13];
    assert(views(g14@) =~~= seq![GrammarView::Sequence { elements: seq![GrammarView::Ref { name: "DatePartFunctionNameSegment"@, optional: false }, GrammarView::Ref { name: "DateTimeFunctionContentsSegment"@, optional: false }], terminators: seq![], parse_mode: ParseMode::Strict }, GrammarView::Sequence { elements: seq![GrammarView::Sequence { elements: seq![GrammarView::Exclude { grammar: Box::new(GrammarView::Ref { name: "FunctionNameSegment"@, optional: false }), exclude: Box::new(GrammarView::OneOf { elements: seq![GrammarView::Ref { name: "DatePartFunctionNameSegment"@, optional: false }, GrammarView::Ref { name: "ValuesClauseSegment"@, optional: false }], terminators: seq![] }) }, GrammarView::Ref { name: "FunctionContentsSegment"@, optional: false }], terminators: seq![], parse_mode: ParseMode::Strict }, GrammarView::Ref { name: "PostFunctionGrammar"@, optional: true }], terminators: seq![], parse_mode: ParseMode::Strict }]);
    let g15: Vec<Grammar> = Vec::new();
    assert(views(g15@) =~= Seq::<GrammarView>::empty());
    let g16 = Grammar::one_of_with(g14, g15);
    Element::Node { kind: "function", grammar: g16 }
}

/// The ANSI element `HavingClauseSegment`.
pub open spec fn having_clause_segment_element() -> ElementView {
    ElementView::Node { kind: "having_clause"@, grammar: GrammarView::Sequence { elements: seq![GrammarView::Keyword { word: "HAVING"@ }, GrammarView::ImplicitIndent, GrammarView::OneOf { elements: seq![GrammarView::Bracketed { elements: seq![GrammarView::Ref { name: "ExpressionSegment"@, optional: false }], bracket_type: "round"@ }, GrammarView::Ref { name: "ExpressionSegment"@, optional: false }], terminators: seq![] }, GrammarView::Dedent], terminators: seq![], parse_mode: ParseMode::Strict } }
}

fn build_having_clause_segment() -> (e: Element)
    ensures
        e@ =~~= having_clause_segment_element(),
{
    let g1: Vec<Grammar> = vec![Grammar::reference("ExpressionSegment")];
    assert(views(g1@) =~~= seq![GrammarView::Ref { name: "ExpressionSegment"@, optional: false }]);
    let g2 = Grammar::bracketed_with(g1, "round");
    let g3: Vec<Grammar> = vec![g2, Grammar::reference("ExpressionSegment")];
    assert(views(g3@) =~~= seq![GrammarView::Bracketed { elements: seq![GrammarView::Ref { name: "ExpressionSegment"@, optional: false }], bracket_type: "round"@ }, GrammarView::Ref { name: "ExpressionSegment"@, optional: false }]);
    let g4: Vec<Grammar> = Vec::new();
    assert(views(g4@) =~= Seq::<GrammarView>::empty());
    let g5 = Grammar::one_of_with(g3, g4);
    let g6: Vec<Grammar> = vec![Grammar::keyword("HAVING"), Grammar::implicit_indent(), g5, Grammar::dedent()];
    assert(views(g6@) =~~= seq![GrammarView::Keyword { word: "HAVING"@ }, GrammarView::ImplicitIndent, GrammarView::OneOf { elements: seq![GrammarView::Bracketed { elements: seq![GrammarView::Ref { name: "ExpressionSegment"@, optional: false }], bracket_type: "round"@ }, GrammarView::Ref { name: "ExpressionSegment"@, optional: false }], terminators: seq![] }, GrammarView::Dedent]);
    let g7: Vec<Grammar> = Vec::new();
    assert(views(g7@) =~= Seq::<GrammarView>::empty());
    let g8 = Grammar::sequence_with(g6, g7, ParseMode::Strict);
    Element::Node { kind: "having_clause", grammar: g8 }
}

/// The ANSI element `PathSegment`.
pub open spec fn path_segment_element() -> ElementView {
    ElementView::Node { kind: "path_segment"@, grammar: GrammarView::OneOf { elements: seq![GrammarView::Sequence { elements: seq![GrammarView::Ref { name: "SlashSegment"@, optional: false }, GrammarView::Delimited { elements: seq![GrammarView::TypedParser { template: "word"@, kind: "path_segment"@ }], allow_trailing: false, delimiter: Some(Box::new(GrammarView::Ref { name: "SlashSegment"@, optional: false })), terminators: seq![], allow_gaps: false }], terminators: seq![], parse_mode: ParseMode::Strict }, GrammarView::Ref { name: "QuotedLiteralSegment"@, optional: false }], terminators: seq![] } }
}

fn build_path_segment() -> (e: Element)
    ensures
        e@ =~~= path_segment_element(),
{
    let g1: Vec<Grammar> = vec![Grammar::typed_parser("word", "path_segment")];
    assert(views(g1@) =~~= seq![GrammarView::TypedParser { template: "word"@, kind: "path_segment"@ }]);
    let g2: Vec<Grammar> = Vec::new();
    assert(views(g2@) =~= Seq::<GrammarView>::empty());
    let g3 = Grammar::delimited_with(g1, false, Some(Grammar::reference("SlashSegment")), g2, false);
    let g4: Vec<Grammar> = vec![Grammar::reference("SlashSegment"), g3];
    assert(views(g4@) =~~= seq![GrammarView::Ref { name: "SlashSegment"@, optional: false }, GrammarView::Delimited { elements: seq![GrammarView::TypedParser { template: "word"@, kind: "path_segment"@ }], allow_trailing: false, delimiter: Some(Box::new(GrammarView::Ref { name: "SlashSegment"@, optional: false })), terminators: seq![], allow_gaps: false }]);
    let g5: Vec<Grammar> = Vec::new();
    assert(views(g5@) =~= Seq::<GrammarView>::empty());
    let g6 = Grammar::sequence_with(g4, g5, ParseMode::Strict);
    let g7: Vec<Grammar> = vec![g6, Grammar::reference("QuotedLiteralSegment")];
    assert(views(g7@) =~~= seq![GrammarView::Sequence { elements: seq![GrammarView::Ref { name: "SlashSegment"@, optional: false }, GrammarView::Delimited { elements: seq![GrammarView::TypedParser { template: "word"@, kind: "path_segment"@ }], allow_trailing: false, delimiter: Some(Box::new(GrammarView::Ref { name: "SlashSegment"@, optional: false })), terminators: seq![], allow_gaps: false }], terminators: seq![], parse_mode: ParseMode::Strict }, GrammarView::Ref { name: "QuotedLiteralSegment"@, optional: false }]);
    let g8: Vec<Grammar> = Vec::new();
    assert(views(g8@) =~= Seq::<GrammarView>::empty());
    let g9 = Grammar::one_of_with(g7, g8);
    Element::Node { kind: "path_segment", grammar: g9 }
}

/// The ANSI element `LimitClauseSegment`.
pub open spec fn limit_clause_segment_element() -> ElementView {
    ElementView::Node { kind: "limit_clause"@, grammar: GrammarView::Sequence { elements: seq![GrammarView::Keyword { word: "LIMIT"@ }, GrammarView::Indent, GrammarView::OneOf { elements: seq![GrammarView::Bracketed { elements: seq![GrammarView::OneOf { elements: seq![GrammarView::Ref { name: "NumericLiteralSegment"@, optional: false }, GrammarView::Ref { name: "ExpressionSegment"@, optional: false }, GrammarView::Keyword { word: "ALL"@ }], terminators: seq![] }], bracket_type: "round"@ }, GrammarView::OneOf { elements: seq![GrammarView::Ref { name: "NumericLiteralSegment"@, optional: false }, GrammarView::Ref { name: "ExpressionSegment"@, optional: false }, GrammarView::Keyword { word: "ALL"@ }], terminators: seq![] }], terminators: seq![] }, GrammarView::Optional { grammar: Box::new(GrammarView::OneOf { elements: seq![GrammarView::Sequence { elements: seq![GrammarView::Keyword { word: "OFFSET"@ }, GrammarView::OneOf { elements: seq![GrammarView::Ref { name: "NumericLiteralSegment"@, optional: false }, GrammarView::Ref { name: "ExpressionSegment"@, optional: false }], terminators: seq![] }], terminators: seq![], parse_mode: ParseMode::Strict }, GrammarView::Sequence { elements: seq![GrammarView::Ref { name: "CommaSegment"@, optional: false }, GrammarView::Ref { name: "NumericLiteralSegment"@, optional: false }], terminators: seq![], parse_mode: ParseMode::Strict }], terminators: seq![] }) }, GrammarView::Dedent], terminators: seq![], parse_mode: ParseMode::Strict } }
}

fn build_limit_clause_segment() -> (e: Element)
    ensures
        e@ =~~= limit_clause_segment_element(),
{
    let g1: Vec<Grammar> = vec![Grammar::reference("NumericLiteralSegment"), Grammar::reference("ExpressionSegment"), Grammar::keyword("ALL")];
    assert(views(g1@) =~~= seq![GrammarView::Ref { name: "NumericLiteralSegment"@, optional: false }, GrammarView::Ref { name: "ExpressionSegment"@, optional: false }, GrammarView::Keyword { word: "ALL"@ }]);
    let g2: Vec<Grammar> = Vec::new();
    assert(views(g2@) =~= Seq::<GrammarView>::empty());
    let g3 = Grammar::one_of_with(g1, g2);
    let g4: Vec<Grammar> = vec![g3];
    assert(views(g4@) =~~= seq![GrammarView::OneOf { elements: seq![GrammarView::Ref { name: "NumericLiteralSegment"@, optional: false }, GrammarView::Ref { name: "ExpressionSegment"@, optional: false }, GrammarView::Keyword { word: "ALL"@ }], terminators: seq![] }]);
    let g5 = Grammar::bracketed_with(g4, "round");
    let g6: Vec<Grammar> = vec![Grammar::reference("NumericLiteralSegment"), Grammar::reference("ExpressionSegment"), Grammar::keyword("ALL")];
    assert(views(g6@) =~~= seq![GrammarView::Ref { name: "NumericLiteralSegment"@, optional: false }, GrammarView::Ref { name: "ExpressionSegment"@, optional: false }, GrammarView::Keyword { word: "ALL"@ }]);
    let g7: Vec<Grammar> = Vec::new();
    assert(views(g7@) =~= Seq::<GrammarView>::empty());
    let g8 = Grammar::one_of_with(g6, g7);
    let g9: Vec<Grammar> = vec![g5, g8];
    assert(views(g9@) =~~= seq![GrammarView::Bracketed { elements: seq![GrammarView::OneOf { elements: seq![GrammarView::Ref { name: "NumericLiteralSegment"@, optional: false }, GrammarView::Ref { name: "ExpressionSegment"@, optional: false }, GrammarView::Keyword { word: "ALL"@ }], terminators: seq![] }], bracket_type: "round"@ }, GrammarView::OneOf { elements: seq![GrammarView::Ref { name: "NumericLiteralSegment"@, optional: false }, GrammarView::Ref { name: "ExpressionSegment"@, optional: false }, GrammarView::Keyword { word: "ALL"@ }], terminators: seq![] }]);
    let g10: Vec<Grammar> = Vec::new();
    assert(views(g10@) =~= Seq::<GrammarView>::empty());
    let g11 = Grammar::one_of_with(g9, g10);
    let g12: Vec<Grammar> = vec![Grammar::reference("NumericLiteralSegment"), Grammar::reference("ExpressionSegment")];
    assert(views(g12@) =~~= seq![GrammarView::Ref { name: "NumericLiteralSegment"@, optional: false }, GrammarView::Ref { name: "ExpressionSegment"@, optional: false }]);
    let g13: Vec<Grammar> = Vec::new();
    assert(views(g13@) =~= Seq::<GrammarView>::empty());
    let g14 = Grammar::one_of_with(g12, g13);
    let g15: Vec<Grammar> = vec![Grammar::keyword("OFFSET"), g14];
    assert(views(g15@) =~~= seq![GrammarView::Keyword { word: "OFFSET"@ }, GrammarView::OneOf { elements: seq![GrammarView::Ref { name: "NumericLiteralSegment"@, optional: false }, GrammarView::Ref { name: "ExpressionSegment"@, optional: false }], terminators: seq![] }]);
    let g16: Vec<Grammar> = Vec::new();
    assert(views(g16@) =~= Seq::<GrammarView>::empty());
    let g17 = Grammar::sequence_with(g15, g16, ParseMode::Strict);
    let g18: Vec<Grammar> = vec![Grammar::reference("CommaSegment"), Grammar::reference("NumericLiteralSegment")];
    assert(views(g18@) =~~= seq![GrammarView::Ref { name: "CommaSegment"@, optional: false }, GrammarView::Ref { name: "NumericLiteralSegment"@, optional: false }]);
    let g19: Vec<Grammar> = Vec::new();
    assert(views(g19@) =~= Seq::<GrammarView>::empty());
    let g20 = Grammar::sequence_with(g18, g19, ParseMode::Strict);
    let g21: Vec<Grammar> = vec![g17, g20];
    assert(views(g21@) =~~= seq![GrammarView::Sequence { elements: seq![GrammarView::Keyword { word: "OFFSET"@ }, GrammarView::OneOf { elements: seq![GrammarView::Ref { name: "NumericLiteralSegment"@, optional: false }, GrammarView::Ref { name: "ExpressionSegment"@, optional: false }], terminators: seq![] }], terminators: seq![], parse_mode: ParseMode::Strict }, GrammarView::Sequence { elements: seq![GrammarView::Ref { name: "CommaSegment"@, optional: false }, GrammarView::Ref { name: "NumericLiteralSegment"@, optional: false }], terminators: seq![], parse_mode: ParseMode::Strict }]);
    let g22: Vec<Grammar> = Vec::new();
    assert(views(g22@) =~= Seq::<GrammarView>::empty());
    let g23 = Grammar::one_of_with(g21, g22);
    let g24 = g23.optional();
    let g25: Vec<Grammar> = vec![Grammar::keyword("LIMIT"), Grammar::indent(), g11, g24, Grammar::dedent()];
    assert(views(g25@) =~~= seq![GrammarView::Keyword { word: "LIMIT"@ }, GrammarView::Indent, GrammarView::OneOf { elements: seq![GrammarView::Bracketed { elements: seq![GrammarView::OneOf { elements: seq![GrammarView::Ref { name: "NumericLiteralSegment"@, optional: false }, GrammarView::Ref { name: "ExpressionSegment"@, optional: false }, GrammarView::Keyword { word: "ALL"@ }], terminators: seq![] }], bracket_type: "round"@ }, GrammarView::OneOf { elements: seq![GrammarView::Ref { name: "NumericLiteralSegment"@, optional: false }, GrammarView::Ref { name: "ExpressionSegment"@, optional: false }, GrammarView::Keyword { word: "ALL"@ }], terminators: seq![] }], terminators: seq![] }, GrammarView::Optional { grammar: Box::new(GrammarView::OneOf { elements: seq![GrammarView::Sequence { elements: seq![GrammarView::Keyword { word: "OFFSET"@ }, GrammarView::OneOf { elements: seq![GrammarView::Ref { name: "NumericLiteralSegment"@, optional: false }, GrammarView::Ref { name: "ExpressionSegment"@, optional: false }], terminators: seq![] }], terminators: seq![], parse_mode: ParseMode::Strict }, GrammarView::Sequence { elements: seq![GrammarView::Ref { name: "CommaSegment"@, optional: false }, GrammarView::Ref { name: "NumericLiteralSegment"@, optional: false }], terminators: seq![], parse_mode: ParseMode::Strict }], terminators: seq![] }) }, GrammarView::Dedent]);
    let g26: Vec<Grammar> = Vec::new();
    assert(views(g26@) =~= Seq::<GrammarView>::empty());
    let g27 = Grammar::sequence_with(g25, g26, ParseMode::Strict);
    Element::Node { kind: "limit_clause", grammar: g27 }
}

/// The ANSI element `CubeRollupClauseSegment`.
pub open spec fn cube_rollup_clause_segment_element() -> ElementView {
    ElementView::Node { kind: "cube_rollup_clause"@, grammar: GrammarView::Sequence { elements: seq![GrammarView::OneOf { elements: seq![GrammarView::Ref { name: "CubeFunctionNameSegment"@, optional: false }, GrammarView::Ref { name: "RollupFunctionNameSegment"@, optional: false }], terminators: seq![] }, GrammarView::Bracketed { elements: seq![GrammarView::Ref { name: "GroupingExpressionList"@, optional: false }], bracket_type: "round"@ }], terminators: seq![], parse_mode: ParseMode::Strict } }
}

fn build_cube_rollup_clause_segment() -> (e: Element)
    ensures
        e@ =~~= cube_rollup_clause_segment_element(),
{
    let g1: Vec<Grammar> = vec![Grammar::reference("CubeFunctionNameSegment"), Grammar::reference("RollupFunctionNameSegment")];
    assert(views(g1@) =~~= seq![GrammarView::Ref { name: "CubeFunctionNameSegment"@, optional: false }, GrammarView::Ref { name: "RollupFunctionNameSegment"@, optional: false }]);
    let g2: Vec<Grammar> = Vec::new();
    assert(views(g2@) =~= Seq::<GrammarView>::empty());
    let g3 = Grammar::one_of_with(g1, g2);
    let g4: Vec<Grammar> = vec![Grammar::reference("GroupingExpressionList")];
    assert(views(g4@) =~~= seq![GrammarView::Ref { name: "GroupingExpressionList"@, optional: false }]);
    let g5 = Grammar::bracketed_with(g4, "round");
    let g6: Vec<Grammar> = vec![g3, g5];
    assert(views(g6@) =~~= seq![GrammarView::OneOf { elements: seq![GrammarView::Ref { name: "CubeFunctionNameSegment"@, optional: false }, GrammarView::Ref { name: "RollupFunctionNameSegment"@, optional: false }], terminators: seq![] }, GrammarView::Bracketed { elements: seq![GrammarView::Ref { name: "GroupingExpressionList"@, optional: false }], bracket_type: "round"@ }]);
    let g7: Vec<Grammar> = Vec::new();
    assert(views(g7@) =~= Seq::<GrammarView>::empty());
    let g8 = Grammar::sequence_with(g6, g7, ParseMode::Strict);
    Element::Node { kind: "cube_rollup_clause", grammar: g8 }
}

/// The ANSI element `RollupFunctionNameSegment`.
pub open spec fn rollup_function_name_segment_element() -> ElementView {
    ElementView::Node { kind: "function_name"@, grammar: GrammarView::StringParser { template: "ROLLUP"@, kind: "function_name_identifier"@ } }
}

fn build_rollup_function_name_segment() -> (e: Element)
    ensures
        e@ =~~= rollup_function_name_segment_element(),
{
    Element::Node { kind: "function_name", grammar: Grammar::string_parser("ROLLUP", "function_name_identifier") }
}

/// The ANSI element `CubeFunctionNameSegment`.
pub open spec fn cube_function_name_segment_element() -> ElementView {
    ElementView::Node { kind: "function_name"@, grammar: GrammarView::StringParser { template: "CUBE"@, kind: "function_name_identifier"@ } }
}

fn build_cube_function_name_segment() -> (e: Element)
    ensures
        e@ =~~= cube_function_name_segment_element(),
{
    Element::Node { kind: "function_name", grammar: Grammar::string_parser("CUBE", "function_name_identifier") }
}

/// The ANSI element `GroupingSetsClauseSegment`.
pub open spec fn grouping_sets_clause_segment_element() -> ElementView {
    ElementView::Node { kind: "grouping_sets_clause"@, grammar: GrammarView::Sequence { elements: seq![GrammarView::Keyword { word: "GROUPING"@ }, GrammarView::Keyword { word: "SETS"@ }, GrammarView::Bracketed { elements: seq![GrammarView::Delimited { elements: seq![GrammarView::Ref { name: "CubeRollupClauseSegment"@, optional: false }, GrammarView::Ref { name: "GroupingExpressionList"@, optional: false }], allow_trailing: false, delimiter: None, terminators: seq![], allow_gaps: true }], bracket_type: "round"@ }], terminators: seq![], parse_mode: ParseMode::Strict } }
}

fn build_grouping_sets_clause_segment() -> (e: Element)
    ensures
        e@ =~~= grouping_sets_clause_segment_element(),
{
    let g1: Vec<Grammar> = vec![Grammar::reference("CubeRollupClauseSegment"), Grammar::reference("GroupingExpressionList")];
    assert(views(g1@) =~~= seq![GrammarView::Ref { name: "CubeRollupClauseSegment"@, optional: false }, GrammarView::Ref { name: "GroupingExpressionList"@, optional: false }]);
    let g2: Vec<Grammar> = Vec::new();
    assert(views(g2@) =~= Seq::<GrammarView>::empty());
    let g3 = Grammar::delimited_with(g1, false, None, g2, true);
    let g4: Vec<Grammar> = vec![g3];
    assert(views(g4@) =~~= seq![GrammarView::Delimited { elements: seq![GrammarView::Ref { name: "CubeRollupClauseSegment"@, optional: false }, GrammarView::Ref { name: "GroupingExpressionList"@, optional: false }], allow_trailing: false, delimiter: None, terminators: seq![], allow_gaps: true }]);
    let g5 = Grammar::bracketed_with(g4, "round");
    let g6: Vec<Grammar> = vec![Grammar::keyword("GROUPING"), Grammar::keyword("SETS"), g5];
    assert(views(g6@) =~~= seq![GrammarView::Keyword { word: "GROUPING"@ }, GrammarView::Keyword { word: "SETS"@ }, GrammarView::Bracketed { elements: seq![GrammarView::Delimited { elements: seq![GrammarView::Ref { name: "CubeRollupClauseSegment"@, optional: false }, GrammarView::Ref { name: "GroupingExpressionList"@, optional: false }], allow_trailing: false, delimiter: None, terminators: seq![], allow_gaps: true }], bracket_type: "round"@ }]);
    let g7: Vec<Grammar> = Vec::new();
    assert(views(g7@) =~= Seq::<GrammarView>::empty());
    let g8 = Grammar::sequence_with(g6, g7, ParseMode::Strict);
    Element::Node { kind: "grouping_sets_clause", grammar: g8 }
}

/// The ANSI element `GroupingExpressionList`.
pub open spec fn grouping_expression_list_element() -> ElementView {
    ElementView::Node { kind: "grouping_expression_list"@, grammar: GrammarView::Sequence { elements: seq![GrammarView::Indent, GrammarView::Delimited { elements: seq![GrammarView::OneOf { elements: seq![GrammarView::Ref { name: "ColumnReferenceSegment"@, optional: false }, GrammarView::Ref { name: "NumericLiteralSegment"@, optional: false }, GrammarView::Ref { name: "ExpressionSegment"@, optional: false }, GrammarView::Bracketed { elements: seq![], bracket_type: "round"@ }], terminators: seq![] }, GrammarView::Ref { name: "GroupByClauseTerminatorGrammar"@, optional: false }], allow_trailing: false, delimiter: None, terminators: seq![], allow_gaps: true }, GrammarView::Dedent], terminators: seq![], parse_mode: ParseMode::Strict } }
}

fn build_grouping_expression_list() -> (e: Element)
    ensures
        e@ =~~= grouping_expression_list_element(),
{
    let g1: Vec<Grammar> = Vec::new();
    assert(views(g1@) =~= Seq::<GrammarView>::empty());
    let g2 = Grammar::bracketed_with(g1, "round");
    let g3: Vec<Grammar> = vec![Grammar::reference("ColumnReferenceSegment"), Grammar::reference("NumericLiteralSegment"), Grammar::reference("ExpressionSegment"), g2];
    assert(views(g3@) =~~= seq![GrammarView::Ref { name: "ColumnReferenceSegment"@, optional: false }, GrammarView::Ref { name: "NumericLiteralSegment"@, optional: false }, GrammarView::Ref { name: "ExpressionSegment"@, optional: false }, GrammarView::Bracketed { elements: seq![], bracket_type: "round"@ }]);
    let g4: Vec<Grammar> = Vec::new();
    assert(views(g4@) =~= Seq::<GrammarView>::empty());
    let g5 = Grammar::one_of_with(g3, g4);
    let g6: Vec<Grammar> = vec![g5, Grammar::reference("GroupByClauseTerminatorGrammar")];
    assert(views(g6@) =~~= seq![GrammarView::OneOf { elements: seq![GrammarView::Ref { name: "ColumnReferenceSegment"@, optional: false }, GrammarView::Ref { name: "NumericLiteralSegment"@, optional: false }, GrammarView::Ref { name: "ExpressionSegment"@, optional: false }, GrammarView::Bracketed { elements: seq![], bracket_type: "round"@ }], terminators: seq![] }, GrammarView::Ref { name: "GroupByClauseTerminatorGrammar"@, optional: false }]);
    let g7: Vec<Grammar> = Vec::new();
    assert(views(g7@) =~= Seq::<GrammarView>::empty());
    let g8 = Grammar::delimited_with(g6, false, None, g7, true);
    let g9: Vec<Grammar> = vec![Grammar::indent(), g8, Grammar::dedent()];
    assert(views(g9@) =~~= seq![GrammarView::Indent, GrammarView::Delimited { elements: seq![GrammarView::OneOf { elements: seq![GrammarView::Ref { name: "ColumnReferenceSegment"@, optional: false }, GrammarView::Ref { name: "NumericLiteralSegment"@, optional: false }, GrammarView::Ref { name: "ExpressionSegment"@, optional: false }, GrammarView::Bracketed { elements: seq![], bracket_type: "round"@ }], terminators: seq![] }, GrammarView::Ref { name: "GroupByClauseTerminatorGrammar"@, optional: false }], allow_trailing: false, delimiter: None, terminators: seq![], allow_gaps: true }, GrammarView::Dedent]);
    let g10: Vec<Grammar> = Vec::new();
    assert(views(g10@) =~= Seq::<GrammarView>::empty());
    let g11 = Grammar::sequence_with(g9, g10, ParseMode::Strict);
    Element::Node { kind: "grouping_expression_list", grammar: g11 }
}

/// The ANSI element `SetClauseSegment`.
pub open spec fn set_clause_segment_element() -> ElementView {
    ElementView::Node { kind: "set_clause"@, grammar: GrammarView::Sequence { elements: seq![GrammarView::Ref { name: "ColumnReferenceSegment"@, optional: false }, GrammarView::Ref { name: "EqualsSegment"@, optional: false }, GrammarView::OneOf { elements: seq![GrammarView::Ref { name: "LiteralGrammar"@, optional: false }, GrammarView::Ref { name: "BareFunctionSegment"@, optional: false }, GrammarView::Ref { name: "FunctionSegment"@, optional: false }, GrammarView::Ref { name: "ColumnReferenceSegment"@, optional: false }, GrammarView::Ref { name: "ExpressionSegment"@, optional: false }, GrammarView::Ref { name: "ValuesClauseSegment"@, optional: false }, GrammarView::Keyword { word: "DEFAULT"@ }], terminators: seq![] }], terminators: seq![], parse_mode: ParseMode::Strict } }
}

fn build_set_clause_segment() -> (e: Element)
    ensures
        e@ =~~= set_clause_segment_element(),
{
    let g1: Vec<Grammar> = vec![Grammar::reference("LiteralGrammar"), Grammar::reference("BareFunctionSegment"), Grammar::reference("FunctionSegment"), Grammar::reference("ColumnReferenceSegment"), Grammar::reference("ExpressionSegment"), Grammar::reference("ValuesClauseSegment"), Grammar::keyword("DEFAULT")];
    assert(views(g1@) =~~= seq![GrammarView::Ref { name: "LiteralGrammar"@, optional: false }, GrammarView::Ref { name: "BareFunctionSegment"@, optional: false }, GrammarView::Ref { name: "FunctionSegment"@, optional: false }, GrammarView::Ref { name: "ColumnReferenceSegment"@, optional: false }, GrammarView::Ref { name: "ExpressionSegment"@, optional: false }, GrammarView::Ref { name: "ValuesClauseSegment"@, optional: false }, GrammarView::Keyword { word: "DEFAULT"@ }]);
    let g2: Vec<Grammar> = Vec::new();
    assert(views(g2@) =~= Seq::<GrammarView>::empty());
    let g3 = Grammar::one_of_with(g1, g2);
    let g4: Vec<Grammar> = vec![Grammar::reference("ColumnReferenceSegment"), Grammar::reference("EqualsSegment"), g3];
    assert(views(g4@) =~~= seq![GrammarView::Ref { name: "ColumnReferenceSegment"@, optional: false }, GrammarView::Ref { name: "EqualsSegment"@, optional: false }, GrammarView::OneOf { elements: seq![GrammarView::Ref { name: "LiteralGrammar"@, optional: false }, GrammarView::Ref { name: "BareFunctionSegment"@, optional: false }, GrammarView::Ref { name: "FunctionSegment"@, optional: false }, GrammarView::Ref { name: "ColumnReferenceSegment"@, optional: false }, GrammarView::Ref { name: "ExpressionSegment"@, optional: false }, GrammarView::Ref { name: "ValuesClauseSegment"@, optional: false }, GrammarView::Keyword { word: "DEFAULT"@ }], terminators: seq![] }]);
    let g5: Vec<Grammar> = Vec::new();
    assert(views(g5@) =~= Seq::<GrammarView>::empty());
    let g6 = Grammar::sequence_with(g4, g5, ParseMode::Strict);
    Element::Node { kind: "set_clause", grammar: g6 }
}

/// The ANSI element `FetchClauseSegment`.
pub open spec fn fetch_clause_segment_element() -> ElementView {
    ElementView::Node { kind: "fetch_clause"@, grammar: GrammarView::Sequence { elements: seq![GrammarView::Keyword { word: "FETCH"@ }, GrammarView::OneOf { elements: seq![GrammarView::Keyword { word: "FIRST"@ }, GrammarView::Keyword { word: "NEXT"@ }], terminators: seq![] }, GrammarView::Ref { name: "NumericLiteralSegment"@, optional: true }, GrammarView::OneOf { elements: seq![GrammarView::Keyword { word: "ROW"@ }, GrammarView::Keyword { word: "ROWS"@ }], terminators: seq![] }, GrammarView::Keyword { word: "ONLY"@ }], terminators: seq![], parse_mode: ParseMode::Strict } }
}

fn build_fetch_clause_segment() -> (e: Element)
    ensures
        e@ =~~= fetch_clause_segment_element(),
{
    let g1: Vec<Grammar> = vec![Grammar::keyword("FIRST"), Grammar::keyword("NEXT")];
    assert(views(g1@) =~~= seq![GrammarView::Keyword { word: "FIRST"@ }, GrammarView::Keyword { word: "NEXT"@ }]);
    let g2: Vec<Grammar> = Vec::new();
    assert(views(g2@) =~= Seq::<GrammarView>::empty());
    let g3 = Grammar::one_of_with(g1, g2);
    let g4: Vec<Grammar> = vec![Grammar::keyword("ROW"), Grammar::keyword("ROWS")];
    assert(views(g4@) =~~= seq![GrammarView::Keyword { word: "ROW"@ }, GrammarView::Keyword { word: "ROWS"@ }]);
    let g5: Vec<Grammar> = Vec::new();
    assert(views(g5@) =~= Seq::<GrammarView>::empty());
    let g6 = Grammar::one_of_with(g4, g5);
    let g7: Vec<Grammar> = vec![Grammar::keyword("FETCH"), g3, Grammar::optional_reference("NumericLiteralSegment"), g6, Grammar::keyword("ONLY")];
    assert(views(g7@) =~~= seq![GrammarView::Keyword { word: "FETCH"@ }, GrammarView::OneOf { elements: seq![GrammarView::Keyword { word: "FIRST"@ }, GrammarView::Keyword { word: "NEXT"@ }], terminators: seq![] }, GrammarView::Ref { name: "NumericLiteralSegment"@, optional: true }, GrammarView::OneOf { elements: seq![GrammarView::Keyword { word: "ROW"@ }, GrammarView::Keyword { word: "ROWS"@ }], terminators: seq![] }, GrammarView::Keyword { word: "ONLY"@ }]);
    let g8: Vec<Grammar> = Vec::new();
    assert(views(g8@) =~= Seq::<GrammarView>::empty());
    let g9 = Grammar::sequence_with(g7, g8, ParseMode::Strict);
    Element::Node { kind: "fetch_clause", grammar: g9 }
}

/// The ANSI element `FunctionDefinitionGrammar`.
pub open spec fn function_definition_grammar_element() -> ElementView {
    ElementView::Node { kind: "function_definition"@, grammar: GrammarView::Sequence { elements: seq![GrammarView::Keyword { word: "AS"@ }, GrammarView::Ref { name: "QuotedLiteralSegment"@, optional: false }, GrammarView::Optional { grammar: Box::new(GrammarView::Sequence { elements: seq![GrammarView::Keyword { word: "LANGUAGE"@ }, GrammarView::Ref { name: "NakedIdentifierSegment"@, optional: false }], terminators: seq![], parse_mode: ParseMode::Strict }) }], terminators: seq![], parse_mode: ParseMode::Strict } }
}

fn build_function_definition_grammar() -> (e: Element)
    ensures
        e@ =~~= function_definition_grammar_element(),
{
    let g1: Vec<Grammar> = vec![Grammar::keyword("LANGUAGE"), Grammar::reference("NakedIdentifierSegment")];
    assert(views(g1@) =~~= seq![GrammarView::Keyword { word: "LANGUAGE"@ }, GrammarView::Ref { name: "NakedIdentifierSegment"@, optional: false }]);
    let g2: Vec<Grammar> = Vec::new();
    assert(views(g2@) =~= Seq::<GrammarView>::empty());
    let g3 = Grammar::sequence_with(g1, g2, ParseMode::Strict);
    let g4 = g3.optional();
    let g5: Vec<Grammar> = vec![Grammar::keyword("AS"), Grammar::reference("QuotedLiteralSegment"), g4];
    assert(views(g5@) =~~= seq![GrammarView::Keyword { word: "AS"@ }, GrammarView::Ref { name: "QuotedLiteralSegment"@, optional: false }, GrammarView::Optional { grammar: Box::new(GrammarView::Sequence { elements: seq![GrammarView::Keyword { word: "LANGUAGE"@ }, GrammarView::Ref { name: "NakedIdentifierSegment"@, optional: false }], terminators: seq![], parse_mode: ParseMode::Strict }) }]);
    let g6: Vec<Grammar> = Vec::new();
    assert(views(g6@) =~= Seq::<GrammarView>::empty());
    let g7 = Grammar::sequence_with(g5, g6, ParseMode::Strict);
    Element::Node { kind: "function_definition", grammar: g7 }
}

/// The ANSI element `AlterSequenceOptionsSegment`.
pub open spec fn alter_sequence_options_segment_element() -> ElementView {
    ElementView::Node { kind: "alter_sequence_options_segment"@, grammar: GrammarView::OneOf { elements: seq![GrammarView::Sequence { elements: seq![GrammarView::Keyword { word: "INCREMENT"@ }, GrammarView::Keyword { word: "BY"@ }, GrammarView::Ref { name: "NumericLiteralSegment"@, optional: false }], terminators: seq![], parse_mode: ParseMode::Strict }, GrammarView::OneOf { elements: seq![GrammarView::Sequence { elements: seq![GrammarView::Keyword { word: "MINVALUE"@ }, GrammarView::Ref { name: "NumericLiteralSegment"@, optional: false }], terminators: seq![], parse_mode: ParseMode::Strict }, GrammarView::Sequence { elements: seq![GrammarView::Keyword { word: "NO"@ }, GrammarView::Keyword { word: "MINVALUE"@ }], terminators: seq![], parse_mode: ParseMode::Strict }], terminators: seq![] }, GrammarView::OneOf { elements: seq![GrammarView::Sequence { elements: seq![GrammarView::Keyword { word: "MAXVALUE"@ }, GrammarView::Ref { name: "NumericLiteralSegment"@, optional: false }], terminators: seq![], parse_mode: ParseMode::Strict }, GrammarView::Sequence { elements: seq![GrammarView::Keyword { word: "NO"@ }, GrammarView::Keyword { word: "MAXVALUE"@ }], terminators: seq![], parse_mode: ParseMode::Strict }], terminators: seq![] }, GrammarView::OneOf { elements: seq![GrammarView::Sequence { elements: seq![GrammarView::Keyword { word: "CACHE"@ }, GrammarView::Ref { name: "NumericLiteralSegment"@, optional: false }], terminators: seq![], parse_mode: ParseMode::Strict }, GrammarView::Keyword { word: "NOCACHE"@ }], terminators: seq![] }, GrammarView::OneOf { elements: seq![GrammarView::Keyword { word: "CYCLE"@ }, GrammarView::Keyword { word: "NOCYCLE"@ }], terminators: seq![] }, GrammarView::OneOf { elements: seq![GrammarView::Keyword { word: "ORDER"@ }, GrammarView::Keyword { word: "NOORDER"@ }], terminators: seq![] }], terminators: seq![] } }
}

fn build_alter_sequence_options_segment() -> (e: Element)
    ensures
        e@ =~~= alter_sequence_options_segment_element(),
{
    let g1: Vec<Grammar> = vec![Grammar::keyword("INCREMENT"), Grammar::keyword("BY"), Grammar::reference("NumericLiteralSegment")];
    assert(views(g1@) =~~= seq![GrammarView::Keyword { word: "INCREMENT"@ }, GrammarView::Keyword { word: "BY"@ }, GrammarView::Ref { name: "NumericLiteralSegment"@, optional: false }]);
    let g2: Vec<Grammar> = Vec::new();
    assert(views(g2@) =~= Seq::<GrammarView>::empty());
    let g3 = Grammar::sequence_with(g1, g2, ParseMode::Strict);
    let g4: Vec<Grammar> = vec![Grammar::keyword("MINVALUE"), Grammar::reference("NumericLiteralSegment")];
    assert(views(g4@) =~~= seq![GrammarView::Keyword { word: "MINVALUE"@ }, GrammarView::Ref { name: "NumericLiteralSegment"@, optional: false }]);
    let g5: Vec<Grammar> = Vec::new();
    assert(views(g5@) =~= Seq::<GrammarView>::empty());
    let g6 = Grammar::sequence_with(g4, g5, ParseMode::Strict);
    let g7: Vec<Grammar> = vec![Grammar::keyword("NO"), Grammar::keyword("MINVALUE")];
    assert(views(g7@) =~~= seq![GrammarView::Keyword { word: "NO"@ }, GrammarView::Keyword { word: "MINVALUE"@ }]);
    let g8: Vec<Grammar> = Vec::new();
    assert(views(g8@) =~= Seq::<GrammarView>::empty());
    let g9 = Grammar::sequence_with(g7, g8, ParseMode::Strict);
    let g10: Vec<Grammar> = vec![g6, g9];
    assert(views(g10@) =~~= seq![GrammarView::Sequence { elements: seq![GrammarView::Keyword { word: "MINVALUE"@ }, GrammarView::Ref { name: "NumericLiteralSegment"@, optional: false }], terminators: seq![], parse_mode: ParseMode::Strict }, GrammarView::Sequence { elements: seq![GrammarView::Keyword { word: "NO"@ }, GrammarView::Keyword { word: "MINVALUE"@ }], terminators: seq![], parse_mode: ParseMode::Strict }]);
    let g11: Vec<Grammar> = Vec::new();
    assert(views(g11@) =~= Seq::<GrammarView>::empty());
    let g12 = Grammar::one_of_with(g10, g11);
    let g13: Vec<Grammar> = vec![Grammar::keyword("MAXVALUE"), Grammar::reference("NumericLiteralSegment")];
    assert(views(g13@) =~~= seq![GrammarView::Keyword { word: "MAXVALUE"@ }, GrammarView::Ref { name: "NumericLiteralSegment"@, optional: false }]);
    let g14: Vec<Grammar> = Vec::new();
    assert(views(g14@) =~= Seq::<GrammarView>::empty());
    let g15 = Grammar::sequence_with(g13, g14, ParseMode::Strict);
    let g16: Vec<Grammar> = vec![Grammar::keyword("NO"), Grammar::keyword("MAXVALUE")];
    assert(views(g16@) =~~= seq![GrammarView::Keyword { word: "NO"@ }, GrammarView::Keyword { word: "MAXVALUE"@ }]);
    let g17: Vec<Grammar> = Vec::new();
    assert(views(g17@) =~= Seq::<GrammarView>::empty());
    let g18 = Grammar::sequence_with(g16, g17, ParseMode::Strict);
    let g19: Vec<Grammar> = vec![g15, g18];
    assert(views(g19@) =~~= seq![GrammarView::Sequence { elements: seq![GrammarView::Keyword { word: "MAXVALUE"@ }, GrammarView::Ref { name: "NumericLiteralSegment"@, optional: false }], terminators: seq![], parse_mode: ParseMode::Strict }, GrammarView::Sequence { elements: seq![GrammarView::Keyword { word: "NO"@ }, GrammarView::Keyword { word: "MAXVALUE"@ }], terminators: seq![], parse_mode: ParseMode::Strict }]);
    let g20: Vec<Grammar> = Vec::new();
    assert(views(g20@) =~= Seq::<GrammarView>::empty());
    let g21 = Grammar::one_of_with(g19, g20);
    let g22: Vec<Grammar> = vec![Grammar::keyword("CACHE"), Grammar::reference("NumericLiteralSegment")];
    assert(views(g22@) =~~= seq![GrammarView::Keyword { word: "CACHE"@ }, GrammarView::Ref { name: "NumericLiteralSegment"@, optional: false }]);
    let g23: Vec<Grammar> = Vec::new();
    assert(views(g23@) =~= Seq::<GrammarView>::empty());
    let g24 = Grammar::sequence_with(g22, g23, ParseMode::Strict);
    let g25: Vec<Grammar> = vec![g24, Grammar::keyword("NOCACHE")];
    assert(views(g25@) =~~= seq![GrammarView::Sequence { elements: seq![GrammarView::Keyword { word: "CACHE"@ }, GrammarView::Ref { name: "NumericLiteralSegment"@, optional: false }], terminators: seq![], parse_mode: ParseMode::Strict }, GrammarView::Keyword { word: "NOCACHE"@ }]);
    let g26: Vec<Grammar> = Vec::new();
    assert(views(g26@) =~= Seq::<GrammarView>::empty());
    let g27 = Grammar::one_of_with(g25, g26);
    let g28: Vec<Grammar> = vec![Grammar::keyword("CYCLE"), Grammar::keyword("NOCYCLE")];
    assert(views(g28@) =~~= seq![GrammarView::Keyword { word: "CYCLE"@ }, GrammarView::Keyword { word: "NOCYCLE"@ }]);
    let g29: Vec<Grammar> = Vec::new();
    assert(views(g29@) =~= Seq::<GrammarView>::empty());
    let g30 = Grammar::one_of_with(g28, g29);
    let g31: Vec<Grammar> = vec![Grammar::keyword("ORDER"), Grammar::keyword("NOORDER")];
    assert(views(g31@) =~~= seq![GrammarView::Keyword { word: "ORDER"@ }, GrammarView::Keyword { word: "NOORDER"@ }]);
    let g32: Vec<Grammar> = Vec::new();
    assert(views(g32@) =~= Seq::<GrammarView>::empty());
    let g33 = Grammar::one_of_with(g31, g32);
    let g34: Vec<Grammar> = vec![g3, g12, g21, g27, g30, g33];
    assert(views(g34@) =~~= seq![GrammarView::Sequence { elements: seq![GrammarView::Keyword { word: "INCREMENT"@ }, GrammarView::Keyword { word: "BY"@ }, GrammarView::Ref { name: "NumericLiteralSegment"@, optional: false }], terminators: seq![], parse_mode: ParseMode::Strict }, GrammarView::OneOf { elements: seq![GrammarView::Sequence { elements: seq![GrammarView::Keyword { word: "MINVALUE"@ }, GrammarView::Ref { name: "NumericLiteralSegment"@, optional: false }], terminators: seq![], parse_mode: ParseMode::Strict }, GrammarView::Sequence { elements: seq![GrammarView::Keyword { word: "NO"@ }, GrammarView::Keyword { word: "MINVALUE"@ }], terminators: seq![], parse_mode: ParseMode::Strict }], terminators: seq![] }, GrammarView::OneOf { elements: seq![GrammarView::Sequence { elements: seq![GrammarView::Keyword { word: "MAXVALUE"@ }, GrammarView::Ref { name: "NumericLiteralSegment"@, optional: false }], terminators: seq![], parse_mode: ParseMode::Strict }, GrammarView::Sequence { elements: seq![GrammarView::Keyword { word: "NO"@ }, GrammarView::Keyword { word: "MAXVALUE"@ }], terminators: seq![], parse_mode: ParseMode::Strict }], terminators: seq![] }, GrammarView::OneOf { elements: seq![GrammarView::Sequence { elements: seq![GrammarView::Keyword { word: "CACHE"@ }, GrammarView::Ref { name: "NumericLiteralSegment"@, optional: false }], terminators: seq![], parse_mode: ParseMode::Strict }, GrammarView::Keyword { word: "NOCACHE"@ }], terminators: seq![] }, GrammarView::OneOf { elements: seq![GrammarView::Keyword { word: "CYCLE"@ }, GrammarView::Keyword { word: "NOCYCLE"@ }], terminators: seq![] }, GrammarView::OneOf { elements: seq![GrammarView::Keyword { word: "ORDER"@ }, GrammarView::Keyword { word: "NOORDER"@ }], terminators: seq![] }]);
    let g35: Vec<Grammar> = Vec::new();
    assert(views(g35@) =~= Seq::<GrammarView>::empty());
    let g36 = Grammar::one_of_with(g34, g35);
    Element::Node { kind: "alter_sequence_options_segment", grammar: g36 }
}

/// The ANSI element `RoleReferenceSegment`.
pub open spec fn role_reference_segment_element() -> ElementView {
    ElementView::Node { kind: "role_reference"@, grammar: GrammarView::Ref { name: "SingleIdentifierGrammar"@, optional: false } }
}

fn build_role_reference_segment() -> (e: Element)
    ensures
        e@ =~~= role_reference_segment_element(),
{
    Element::Node { kind: "role_reference", grammar: Grammar::reference("SingleIdentifierGrammar") }
}

/// The ANSI element `TablespaceReferenceSegment`.
pub open spec fn tablespace_reference_segment_element() -> ElementView {
    ElementView::Node { kind: "tablespace_reference"@, grammar: GrammarView::Delimited { elements: seq![GrammarView::Ref { name: "SingleIdentifierGrammar"@, optional: false }], allow_trailing: false, delimiter: Some(Box::new(GrammarView::Ref { name: "ObjectReferenceDelimiterGrammar"@, optional: false })), terminators: seq![GrammarView::Ref { name: "ObjectReferenceTerminatorGrammar"@, optional: false }], allow_gaps: false } }
}

fn build_tablespace_reference_segment() -> (e: Element)
    ensures
        e@ =~~= tablespace_reference_segment_element(),
{
    let g1: Vec<Grammar> = vec![Grammar::reference("SingleIdentifierGrammar")];
    assert(views(g1@) =~~= seq![GrammarView::Ref { name: "SingleIdentifierGrammar"@, optional: false }]);
    let g2: Vec<Grammar> = vec![Grammar::reference("ObjectReferenceTerminatorGrammar")];
    assert(views(g2@) =~~= seq![GrammarView::Ref { name: "ObjectReferenceTerminatorGrammar"@, optional: false }]);
    let g3 = Grammar::delimited_with(g1, false, Some(Grammar::reference("ObjectReferenceDelimiterGrammar")), g2, false);
    Element::Node { kind: "tablespace_reference", grammar: g3 }
}

/// The ANSI element `ExtensionReferenceSegment`.
pub open spec fn extension_reference_segment_element() -> ElementView {
    ElementView::Node { kind: "extension_reference"@, grammar: GrammarView::Delimited { elements: seq![GrammarView::Ref { name: "SingleIdentifierGrammar"@, optional: false }], allow_trailing: false, delimiter: Some(Box::new(GrammarView::Ref { name: "ObjectReferenceDelimiterGrammar"@, optional: false })), terminators: seq![GrammarView::Ref { name: "ObjectReferenceTerminatorGrammar"@, optional: false }], allow_gaps: false } }
}

fn build_extension_reference_segment() -> (e: Element)
    ensures
        e@ =~~= extension_reference_segment_element(),
{
    let g1: Vec<Grammar> = vec![Grammar::reference("SingleIdentifierGrammar")];
    assert(views(g1@) =~~= seq![GrammarView::Ref { name: "SingleIdentifierGrammar"@, optional: false }]);
    let g2: Vec<Grammar> = vec![Grammar::reference("ObjectReferenceTerminatorGrammar")];
    assert(views(g2@) =~~= seq![GrammarView::Ref { name: "ObjectReferenceTerminatorGrammar"@, optional: false }]);
    let g3 = Grammar::delimited_with(g1, false, Some(Grammar::reference("ObjectReferenceDelimiterGrammar")), g2, false);
    Element::Node { kind: "extension_reference", grammar: g3 }
}

/// The ANSI element `TagReferenceSegment`.
pub open spec fn tag_reference_segment_element() -> ElementView {
    ElementView::Node { kind: "tag_reference"@, grammar: GrammarView::Delimited { elements: seq![GrammarView::Ref { name: "SingleIdentifierGrammar"@, optional: false }], allow_trailing: false, delimiter: Some(Box::new(GrammarView::Ref { name: "ObjectReferenceDelimiterGrammar"@, optional: false })), terminators: seq![GrammarView::Ref { name: "ObjectReferenceTerminatorGrammar"@, optional: false }], allow_gaps: false } }
}

fn build_tag_reference_segment() -> (e: Element)
    ensures
        e@ =~~= tag_reference_segment_element(),
{
    let g1: Vec<Grammar> = vec![Grammar::reference("SingleIdentifierGrammar")];
    assert(views(g1@) =~~= seq![GrammarView::Ref { name: "SingleIdentifierGrammar"@, optional: false }]);
    let g2: Vec<Grammar> = vec![Grammar::reference("ObjectReferenceTerminatorGrammar")];
    assert(views(g2@) =~~= seq![GrammarView::Ref { name: "ObjectReferenceTerminatorGrammar"@, optional: false }]);
    let g3 = Grammar::delimited_with(g1, false, Some(Grammar::reference("ObjectReferenceDelimiterGrammar")), g2, false);
    Element::Node { kind: "tag_reference", grammar: g3 }
}

/// The ANSI element `ColumnDefinitionSegment`.
pub open spec fn column_definition_segment_element() -> ElementView {
    ElementView::Node { kind: "column_definition"@, grammar: GrammarView::Sequence { elements: seq![GrammarView::Ref { name: "SingleIdentifierGrammar"@, optional: false }, GrammarView::Ref { name: "DatatypeSegment"@, optional: false }, GrammarView::Optional { grammar: Box::new(GrammarView::Bracketed { elements: seq![GrammarView::Anything], bracket_type: "round"@ }) }, GrammarView::Optional { grammar: Box::new(GrammarView::AnyNumberOf { elements: seq![GrammarView::Ref { name: "ColumnConstraintSegment"@, optional: false }], terminators: seq![], min_times: 0, max_times: None }) }], terminators: seq![], parse_mode: ParseMode::Strict } }
}

fn build_column_definition_segment() -> (e: Element)
    ensures
        e@ =~~= column_definition_segment_element(),
{
    let g1: Vec<Grammar> = vec![Grammar::anything()];
    assert(views(g1@) =~~= seq![GrammarView::Anything]);
    let g2 = Grammar::bracketed_with(g1, "round");
    let g3 = g2.optional();
    let g4: Vec<Grammar> = vec![Grammar::reference("ColumnConstraintSegment")];
    assert(views(g4@) =~~= seq![GrammarView::Ref { name: "ColumnConstraintSegment"@, optional: false }]);
    let g5: Vec<Grammar> = Vec::new();
    assert(views(g5@) =~= Seq::<GrammarView>::empty());
    let g6 = Grammar::any_number_of_with(g4, g5, 0, None);
    let g7 = g6.optional();
    let g8: Vec<Grammar> = vec![Grammar::reference("SingleIdentifierGrammar"), Grammar::reference("DatatypeSegment"), g3, g7];
    assert(views(g8@) =~~= seq![GrammarView::Ref { name: "SingleIdentifierGrammar"@, optional: false }, GrammarView::Ref { name: "DatatypeSegment"@, optional: false }, GrammarView::Optional { grammar: Box::new(GrammarView::Bracketed { elements: seq![GrammarView::Anything], bracket_type: "round"@ }) }, GrammarView::Optional { grammar: Box::new(GrammarView::AnyNumberOf { elements: seq![GrammarView::Ref { name: "ColumnConstraintSegment"@, optional: false }], terminators: seq![], min_times: 0, max_times: None }) }]);
    let g9: Vec<Grammar> = Vec::new();
    assert(views(g9@) =~= Seq::<GrammarView>::empty());
    let g10 = Grammar::sequence_with(g8, g9, ParseMode::Strict);
    Element::Node { kind: "column_definition", grammar: g10 }
}

/// The ANSI element `ColumnConstraintSegment`.
pub open spec fn column_constraint_segment_element() -> ElementView {
    ElementView::Node { kind: "column_constraint_segment"@, grammar: GrammarView::Sequence { elements: seq![GrammarView::Optional { grammar: Box::new(GrammarView::Sequence { elements: seq![GrammarView::Keyword { word: "CONSTRAINT"@ }, GrammarView::Ref { name: "ObjectReferenceSegment"@, optional: false }], terminators: seq![], parse_mode: ParseMode::Strict }) }, GrammarView::OneOf { elements: seq![GrammarView::Sequence { elements: seq![GrammarView::Optional { grammar: Box::new(GrammarView::Keyword { word: "NOT"@ }) }, GrammarView::Keyword { word: "NULL"@ }], terminators: seq![], parse_mode: ParseMode::Strict }, GrammarView::Sequence { elements: seq![GrammarView::Keyword { word: "CHECK"@ }, GrammarView::Bracketed { elements: seq![GrammarView::Ref { name: "ExpressionSegment"@, optional: false }], bracket_type: "round"@ }], terminators: seq![], parse_mode: ParseMode::Strict }, GrammarView::Sequence { elements: seq![GrammarView::Keyword { word: "DEFAULT"@ }, GrammarView::Ref { name: "ColumnConstraintDefaultGrammar"@, optional: false }], terminators: seq![], parse_mode: ParseMode::Strict }, GrammarView::Ref { name: "PrimaryKeyGrammar"@, optional: false }, GrammarView::Ref { name: "UniqueKeyGrammar"@, optional: false }, GrammarView::Ref { name: "AutoIncrementGrammar"@, optional: false }, GrammarView::Ref { name: "ReferenceDefinitionGrammar"@, optional: false }, GrammarView::Ref { name: "CommentClauseSegment"@, optional: false }, GrammarView::Sequence { elements: seq![GrammarView::Keyword { word: "COLLATE"@ }, GrammarView::Ref { name: "CollationReferenceSegment"@, optional: false }], terminators: seq![], parse_mode: ParseMode::Strict }], terminators: seq![] }], terminators: seq![], parse_mode: ParseMode::Strict } }
}

fn build_column_constraint_segment() -> (e: Element)
    ensures
        e@ =~~= column_constraint_segment_element(),
{
    let g1: Vec<Grammar> = vec![Grammar::keyword("CONSTRAINT"), Grammar::reference("ObjectReferenceSegment")];
    assert(views(g1@) =~~= seq![GrammarView::Keyword { word: "CONSTRAINT"@ }, GrammarView::Ref { name: "ObjectReferenceSegment"@, optional: false }]);
    let g2: Vec<Grammar> = Vec::new();
    assert(views(g2@) =~= Seq::<GrammarView>::empty());
    let g3 = Grammar::sequence_with(g1, g2, ParseMode::Strict);
    let g4 = g3.optional();
    let g5 = Grammar::keyword("NOT").optional();
    let g6: Vec<Grammar> = vec![g5, Grammar::keyword("NULL")];
    assert(views(g6@) =~~= seq![GrammarView::Optional { grammar: Box::new(GrammarView::Keyword { word: "NOT"@ }) }, GrammarView::Keyword { word: "NULL"@ }]);
    let g7: Vec<Grammar> = Vec::new();
    assert(views(g7@) =~= Seq::<GrammarView>::empty());
    let g8 = Grammar::sequence_with(g6, g7, ParseMode::Strict);
    let g9: Vec<Grammar> = vec![Grammar::reference("ExpressionSegment")];
    assert(views(g9@) =~~= seq![GrammarView::Ref { name: "ExpressionSegment"@, optional: false }]);
    let g10 = Grammar::bracketed_with(g9, "round");
    let g11: Vec<Grammar> = vec![Grammar::keyword("CHECK"), g10];
    assert(views(g11@) =~~= seq![GrammarView::Keyword { word: "CHECK"@ }, GrammarView::Bracketed { elements: seq![GrammarView::Ref { name: "ExpressionSegment"@, optional: false }], bracket_type: "round"@ }]);
    let g12: Vec<Grammar> = Vec::new();
    assert(views(g12@) =~= Seq::<GrammarView>::empty());
    let g13 = Grammar::sequence_with(g11, g12, ParseMode::Strict);
    let g14: Vec<Grammar> = vec![Grammar::keyword("DEFAULT"), Grammar::reference("ColumnConstraintDefaultGrammar")];
    assert(views(g14@) =~~= seq![GrammarView::Keyword { word: "DEFAULT"@ }, GrammarView::Ref { name: "ColumnConstraintDefaultGrammar"@, optional: false }]);
    let g15: Vec<Grammar> = Vec::new();
    assert(views(g15@) =~= Seq::<GrammarView>::empty());
    let g16 = Grammar::sequence_with(g14, g15, ParseMode::Strict);
    let g17: Vec<Grammar> = vec![Grammar::keyword("COLLATE"), Grammar::reference("CollationReferenceSegment")];
    assert(views(g17@) =~~= seq![GrammarView::Keyword { word: "COLLATE"@ }, GrammarView::Ref { name: "CollationReferenceSegment"@, optional: false }]);
    let g18: Vec<Grammar> = Vec::new();
    assert(views(g18@) =~= Seq::<GrammarView>::empty());
    let g19 = Grammar::sequence_with(g17, g18, ParseMode::Strict);
    let g20: Vec<Grammar> = vec![g8, g13, g16, Grammar::reference("PrimaryKeyGrammar"), Grammar::reference("UniqueKeyGrammar"), Grammar::reference("AutoIncrementGrammar"), Grammar::reference("ReferenceDefinitionGrammar"), Grammar::reference("CommentClauseSegment"), g19];
    assert(views(g20@) =~~= seq![GrammarView::Sequence { elements: seq![GrammarView::Optional { grammar: Box::new(GrammarView::Keyword { word: "NOT"@ }) }, GrammarView::Keyword { word: "NULL"@ }], terminators: seq![], parse_mode: ParseMode::Strict }, GrammarView::Sequence { elements: seq![GrammarView::Keyword { word: "CHECK"@ }, GrammarView::Bracketed { elements: seq![GrammarView::Ref { name: "ExpressionSegment"@, optional: false }], bracket_type: "round"@ }], terminators: seq![], parse_mode: ParseMode::Strict }, GrammarView::Sequence { elements: seq![GrammarView::Keyword { word: "DEFAULT"@ }, GrammarView::Ref { name: "ColumnConstraintDefaultGrammar"@, optional: false }], terminators: seq![], parse_mode: ParseMode::Strict }, GrammarView::Ref { name: "PrimaryKeyGrammar"@, optional: false }, GrammarView::Ref { name: "UniqueKeyGrammar"@, optional: false }, GrammarView::Ref { name: "AutoIncrementGrammar"@, optional: false }, GrammarView::Ref { name: "ReferenceDefinitionGrammar"@, optional: false }, GrammarView::Ref { name: "CommentClauseSegment"@, optional: false }, GrammarView::Sequence { elements: seq![GrammarView::Keyword { word: "COLLATE"@ }, GrammarView::Ref { name: "CollationReferenceSegment"@, optional: false }], terminators: seq![], parse_mode: ParseMode::Strict }]);
    let g21: Vec<Grammar> = Vec::new();
    assert(views(g21@) =~= Seq::<GrammarView>::empty());
    let g22 = Grammar::one_of_with(g20, g21);
    let g23: Vec<Grammar> = vec![g4, g22];
    assert(views(g23@) =~~= seq![GrammarView::Optional { grammar: Box::new(GrammarView::Sequence { elements: seq![GrammarView::Keyword { word: "CONSTRAINT"@ }, GrammarView::Ref { name: "ObjectReferenceSegment"@, optional: false }], terminators: seq![], parse_mode: ParseMode::Strict }) }, GrammarView::OneOf { elements: seq![GrammarView::Sequence { elements: seq![GrammarView::Optional { grammar: Box::new(GrammarView::Keyword { word: "NOT"@ }) }, GrammarView::Keyword { word: "NULL"@ }], terminators: seq![], parse_mode: ParseMode::Strict }, GrammarView::Sequence { elements: seq![GrammarView::Keyword { word: "CHECK"@ }, GrammarView::Bracketed { elements: seq![GrammarView::Ref { name: "ExpressionSegment"@, optional: false }], bracket_type: "round"@ }], terminators: seq![], parse_mode: ParseMode::Strict }, GrammarView::Sequence { elements: seq![GrammarView::Keyword { word: "DEFAULT"@ }, GrammarView::Ref { name: "ColumnConstraintDefaultGrammar"@, optional: false }], terminators: seq![], parse_mode: ParseMode::Strict }, GrammarView::Ref { name: "PrimaryKeyGrammar"@, optional: false }, GrammarView::Ref { name: "UniqueKeyGrammar"@, optional: false }, GrammarView::Ref { name: "AutoIncrementGrammar"@, optional: false }, GrammarView::Ref { name: "ReferenceDefinitionGrammar"@, optional: false }, GrammarView::Ref { name: "CommentClauseSegment"@, optional: false }, GrammarView::Sequence { elements: seq![GrammarView::Keyword { word: "COLLATE"@ }, GrammarView::Ref { name: "CollationReferenceSegment"@, optional: false }], terminators: seq![], parse_mode: ParseMode::Strict }], terminators: seq![] }]);
    let g24: Vec<Grammar> = Vec::new();
    assert(views(g24@) =~= Seq::<GrammarView>::empty());
    let g25 = Grammar::sequence_with(g23, g24, ParseMode::Strict);
    Element::Node { kind: "column_constraint_segment", grammar: g25 }
}

/// The ANSI element `CommentClauseSegment`.
pub open spec fn comment_clause_segment_element() -> ElementView {
    ElementView::Node { kind: "comment_clause"@, grammar: GrammarView::Sequence { elements: seq![GrammarView::Keyword { word: "COMMENT"@ }, GrammarView::Ref { name: "QuotedLiteralSegment"@, optional: false }], terminators: seq![], parse_mode: ParseMode::Strict } }
}

fn build_comment_clause_segment() -> (e: Element)
    ensures
        e@ =~~= comment_clause_segment_element(),
{
    let g1: Vec<Grammar> = vec![Grammar::keyword("COMMENT"), Grammar::reference("QuotedLiteralSegment")];
    assert(views(g1@) =~~= seq![GrammarView::Keyword { word: "COMMENT"@ }, GrammarView::Ref { name: "QuotedLiteralSegment"@, optional: false }]);
    let g2: Vec<Grammar> = Vec::new();
    assert(views(g2@) =~= Seq::<GrammarView>::empty());
    let g3 = Grammar::sequence_with(g1, g2, ParseMode::Strict);
    Element::Node { kind: "comment_clause", grammar: g3 }
}

/// The ANSI element `TableEndClauseSegment`.
pub open spec fn table_end_clause_segment_element() -> ElementView {
    ElementView::Node { kind: "table_end_clause"@, grammar: GrammarView::Nothing }
}

fn build_table_end_clause_segment() -> (e: Element)
    ensures
        e@ =~~= table_end_clause_segment_element(),
{
    Element::Node { kind: "table_end_clause", grammar: Grammar::nothing() }
}

/// The ANSI element `MergeMatchSegment`.
pub open spec fn merge_match_segment_element() -> ElementView {
    ElementView::Node { kind: "merge_match"@, grammar: GrammarView::AnyNumberOf { elements: seq![GrammarView::Ref { name: "MergeMatchedClauseSegment"@, optional: false }, GrammarView::Ref { name: "MergeNotMatchedClauseSegment"@, optional: false }], terminators: seq![], min_times: 1, max_times: None } }
}

fn build_merge_match_segment() -> (e: Element)
    ensures
        e@ =~~= merge_match_segment_element(),
{
    let g1: Vec<Grammar> = vec![Grammar::reference("MergeMatchedClauseSegment"), Grammar::reference("MergeNotMatchedClauseSegment")];
    assert(views(g1@) =~~= seq![GrammarView::Ref { name: "MergeMatchedClauseSegment"@, optional: false }, GrammarView::Ref { name: "MergeNotMatchedClauseSegment"@, optional: false }]);
    let g2: Vec<Grammar> = Vec::new();
    assert(views(g2@) =~= Seq::<GrammarView>::empty());
    let g3 = Grammar::any_number_of_with(g1, g2, 1, None);
    Element::Node { kind: "merge_match", grammar: g3 }
}

/// The ANSI element `MergeMatchedClauseSegment`.
pub open spec fn merge_matched_clause_segment_element() -> ElementView {
    ElementView::Node { kind: "merge_when_matched_clause"@, grammar: GrammarView::Sequence { elements: seq![GrammarView::Keyword { word: "WHEN"@ }, GrammarView::Keyword { word: "MATCHED"@ }, GrammarView::Optional { grammar: Box::new(GrammarView::Sequence { elements: seq![GrammarView::Keyword { word: "AND"@ }, GrammarView::Ref { name: "ExpressionSegment"@, optional: false }], terminators: seq![], parse_mode: ParseMode::Strict }) }, GrammarView::Keyword { word: "THEN"@ }, GrammarView::Indent, GrammarView::OneOf { elements: seq![GrammarView::Ref { name: "MergeUpdateClauseSegment"@, optional: false }, GrammarView::Ref { name: "MergeDeleteClauseSegment"@, optional: false }], terminators: seq![] }, GrammarView::Dedent], terminators: seq![], parse_mode: ParseMode::Strict } }
}

fn build_merge_matched_clause_segment() -> (e: Element)
    ensures
        e@ =~~= merge_matched_clause_segment_element(),
{
    let g1: Vec<Grammar> = vec![Grammar::keyword("AND"), Grammar::reference("ExpressionSegment")];
    assert(views(g1@) =~~= seq![GrammarView::Keyword { word: "AND"@ }, GrammarView::Ref { name: "ExpressionSegment"@, optional: false }]);
    let g2: Vec<Grammar> = Vec::new();
    assert(views(g2@) =~= Seq::<GrammarView>::empty());
    let g3 = Grammar::sequence_with(g1, g2, ParseMode::Strict);
    let g4 = g3.optional();
    let g5: Vec<Grammar> = vec![Grammar::reference("MergeUpdateClauseSegment"), Grammar::reference("MergeDeleteClauseSegment")];
    assert(views(g5@) =~~= seq![GrammarView::Ref { name: "MergeUpdateClauseSegment"@, optional: false }, GrammarView::Ref { name: "MergeDeleteClauseSegment"@, optional: false }]);
    let g6: Vec<Grammar> = Vec::new();
    assert(views(g6@) =~= Seq::<GrammarView>::empty());
    let g7 = Grammar::one_of_with(g5, g6);
    let g8: Vec<Grammar> = vec![Grammar::keyword("WHEN"), Grammar::keyword("MATCHED"), g4, Grammar::keyword("THEN"), Grammar::indent(), g7, Grammar::dedent()];
    assert(views(g8@) =~~= seq![GrammarView::Keyword { word: "WHEN"@ }, GrammarView::Keyword { word: "MATCHED"@ }, GrammarView::Optional { grammar: Box::new(GrammarView::Sequence { elements: seq![GrammarView::Keyword { word: "AND"@ }, GrammarView::Ref { name: "ExpressionSegment"@, optional: false }], terminators: seq![], parse_mode: ParseMode::Strict }) }, GrammarView::Keyword { word: "THEN"@ }, GrammarView::Indent, GrammarView::OneOf { elements: seq![GrammarView::Ref { name: "MergeUpdateClauseSegment"@, optional: false }, GrammarView::Ref { name: "MergeDeleteClauseSegment"@, optional: false }], terminators: seq![] }, GrammarView::Dedent]);
    let g9: Vec<Grammar> = Vec::new();
    assert(views(g9@) =~= Seq::<GrammarView>::empty());
    let g10 = Grammar::sequence_with(g8, g9, ParseMode::Strict);
    Element::Node { kind: "merge_when_matched_clause", grammar: g10 }
}

/// The ANSI element `MergeNotMatchedClauseSegment`.
pub open spec fn merge_not_matched_clause_segment_element() -> ElementView {
    ElementView::Node { kind: "merge_when_not_matched_clause"@, grammar: GrammarView::Sequence { elements: seq![GrammarView::Keyword { word: "WHEN"@ }, GrammarView::Keyword { word: "NOT"@ }, GrammarView::Keyword { word: "MATCHED"@ }, GrammarView::Optional { grammar: Box::new(GrammarView::Sequence { elements: seq![GrammarView::Keyword { word: "AND"@ }, GrammarView::Ref { name: "ExpressionSegment"@, optional: false }], terminators: seq![], parse_mode: ParseMode::Strict }) }, GrammarView::Keyword { word: "THEN"@ }, GrammarView::Indent, GrammarView::Ref { name: "MergeInsertClauseSegment"@, optional: false }, GrammarView::Dedent], terminators: seq![], parse_mode: ParseMode::Strict } }
}

fn build_merge_not_matched_clause_segment() -> (e: Element)
    ensures
        e@ =~~= merge_not_matched_clause_segment_element(),
{
    let g1: Vec<Grammar> = vec![Grammar::keyword("AND"), Grammar::reference("ExpressionSegment")];
    assert(views(g1@) =~~= seq![GrammarView::Keyword { word: "AND"@ }, GrammarView::Ref { name: "ExpressionSegment"@, optional: false }]);
    let g2: Vec<Grammar> = Vec::new();
    assert(views(g2@) =~= Seq::<GrammarView>::empty());
    let g3 = Grammar::sequence_with(g1, g2, ParseMode::Strict);
    let g4 = g3.optional();
    let g5: Vec<Grammar> = vec![Grammar::keyword("WHEN"), Grammar::keyword("NOT"), Grammar::keyword("MATCHED"), g4, Grammar::keyword("THEN"), Grammar::indent(), Grammar::reference("MergeInsertClauseSegment"), Grammar::dedent()];
    assert(views(g5@) =~~= seq![GrammarView::Keyword { word: "WHEN"@ }, GrammarView::Keyword { word: "NOT"@ }, GrammarView::Keyword { word: "MATCHED"@ }, GrammarView::Optional { grammar: Box::new(GrammarView::Sequence { elements: seq![GrammarView::Keyword { word: "AND"@ }, GrammarView::Ref { name: "ExpressionSegment"@, optional: false }], terminators: seq![], parse_mode: ParseMode::Strict }) }, GrammarView::Keyword { word: "THEN"@ }, GrammarView::Indent, GrammarView::Ref { name: "MergeInsertClauseSegment"@, optional: false }, GrammarView::Dedent]);
    let g6: Vec<Grammar> = Vec::new();
    assert(views(g6@) =~= Seq::<GrammarView>::empty());
    let g7 = Grammar::sequence_with(g5, g6, ParseMode::Strict);
    Element::Node { kind: "merge_when_not_matched_clause", grammar: g7 }
}

/// The ANSI element `MergeInsertClauseSegment`.
pub open spec fn merge_insert_clause_segment_element() -> ElementView {
    ElementView::Node { kind: "merge_insert_clause"@, grammar: GrammarView::Sequence { elements: seq![GrammarView::Keyword { word: "INSERT"@ }, GrammarView::Indent, GrammarView::Ref { name: "BracketedColumnReferenceListGrammar"@, optional: true }, GrammarView::Dedent, GrammarView::Ref { name: "ValuesClauseSegment"@, optional: true }], terminators: seq![], parse_mode: ParseMode::Strict } }
}

fn build_merge_insert_clause_segment() -> (e: Element)
    ensures
        e@ =~~= merge_insert_clause_segment_element(),
{
    let g1: Vec<Grammar> = vec![Grammar::keyword("INSERT"), Grammar::indent(), Grammar::optional_reference("BracketedColumnReferenceListGrammar"), Grammar::dedent(), Grammar::optional_reference("ValuesClauseSegment")];
    assert(views(g1@) =~~= seq![GrammarView::Keyword { word: "INSERT"@ }, GrammarView::Indent, GrammarView::Ref { name: "BracketedColumnReferenceListGrammar"@, optional: true }, GrammarView::Dedent, GrammarView::Ref { name: "ValuesClauseSegment"@, optional: true }]);
    let g2: Vec<Grammar> = Vec::new();
    assert(views(g2@) =~= Seq::<GrammarView>::empty());
    let g3 = Grammar::sequence_with(g1, g2, ParseMode::Strict);
    Element::Node { kind: "merge_insert_clause", grammar: g3 }
}

/// The ANSI element `MergeUpdateClauseSegment`.
pub open spec fn merge_update_clause_segment_element() -> ElementView {
    ElementView::Node { kind: "merge_update_clause"@, grammar: GrammarView::Sequence { elements: seq![GrammarView::Keyword { word: "UPDATE"@ }, GrammarView::Indent, GrammarView::Ref { name: "SetClauseListSegment"@, optional: false }, GrammarView::Dedent], terminators: seq![], parse_mode: ParseMode::Strict } }
}

fn build_merge_update_clause_segment() -> (e: Element)
    ensures
        e@ =~~= merge_update_clause_segment_element(),
{
    let g1: Vec<Grammar> = vec![Grammar::keyword("UPDATE"), Grammar::indent(), Grammar::reference("SetClauseListSegment"), Grammar::dedent()];
    assert(views(g1@) =~~= seq![GrammarView::Keyword { word: "UPDATE"@ }, GrammarView::Indent, GrammarView::Ref { name: "SetClauseListSegment"@, optional: false }, GrammarView::Dedent]);
    let g2: Vec<Grammar> = Vec::new();
    assert(views(g2@) =~= Seq::<GrammarView>::empty());
    let g3 = Grammar::sequence_with(g1, g2, ParseMode::Strict);
    Element::Node { kind: "merge_update_clause", grammar: g3 }
}

/// The ANSI element `MergeDeleteClauseSegment`.
pub open spec fn merge_delete_clause_segment_element() -> ElementView {
    ElementView::Node { kind: "merge_delete_clause"@, grammar: GrammarView::Keyword { word: "DELETE"@ } }
}

fn build_merge_delete_clause_segment() -> (e: Element)
    ensures
        e@ =~~= merge_delete_clause_segment_element(),
{
    Element::Node { kind: "merge_delete_clause", grammar: Grammar::keyword("DELETE") }
}

/// The ANSI element `SetClauseListSegment`.
pub open spec fn set_clause_list_segment_element() -> ElementView {
    ElementView::Node { kind: "set_clause_list"@, grammar: GrammarView::Sequence { elements: seq![GrammarView::Keyword { word: "SET"@ }, GrammarView::Indent, GrammarView::Ref { name: "SetClauseSegment"@, optional: false }, GrammarView::AnyNumberOf { elements: seq![GrammarView::Ref { name: "CommaSegment"@, optional: false }, GrammarView::Ref { name: "SetClauseSegment"@, optional: false }], terminators: seq![], min_times: 0, max_times: None }, GrammarView::Dedent], terminators: seq![], parse_mode: ParseMode::Strict } }
}

fn build_set_clause_list_segment() -> (e: Element)
    ensures
        e@ =~~= set_clause_list_segment_element(),
{
    let g1: Vec<Grammar> = vec![Grammar::reference("CommaSegment"), Grammar::reference("SetClauseSegment")];
    assert(views(g1@) =~~= seq![GrammarView::Ref { name: "CommaSegment"@, optional: false }, GrammarView::Ref { name: "SetClauseSegment"@, optional: false }]);
    let g2: Vec<Grammar> = Vec::new();
    assert(views(g2@) =~= Seq::<GrammarView>::empty());
    let g3 = Grammar::any_number_of_with(g1, g2, 0, None);
    let g4: Vec<Grammar> = vec![Grammar::keyword("SET"), Grammar::indent(), Grammar::reference("SetClauseSegment"), g3, Grammar::dedent()];
    assert(views(g4@) =~~= seq![GrammarView::Keyword { word: "SET"@ }, GrammarView::Indent, GrammarView::Ref { name: "SetClauseSegment"@, optional: false }, GrammarView::AnyNumberOf { elements: seq![GrammarView::Ref { name: "CommaSegment"@, optional: false }, GrammarView::Ref { name: "SetClauseSegment"@, optional: false }], terminators: seq![], min_times: 0, max_times: None }, GrammarView::Dedent]);
    let g5: Vec<Grammar> = Vec::new();
    assert(views(g5@) =~= Seq::<GrammarView>::empty());
    let g6 = Grammar::sequence_with(g4, g5, ParseMode::Strict);
    Element::Node { kind: "set_clause_list", grammar: g6 }
}

/// The ANSI element `SchemaReferenceSegment`.
pub open spec fn schema_reference_segment_element() -> ElementView {
    ElementView::Node { kind: "table_reference"@, grammar: GrammarView::Ref { name: "ObjectReferenceSegment"@, optional: false } }
}

fn build_schema_reference_segment() -> (e: Element)
    ensures
        e@ =~~= schema_reference_segment_element(),
{
    Element::Node { kind: "table_reference", grammar: Grammar::reference("ObjectReferenceSegment") }
}

/// The ANSI element `SingleIdentifierListSegment`.
pub open spec fn single_identifier_list_segment_element() -> ElementView {
    ElementView::Node { kind: "identifier_list"@, grammar: GrammarView::Optional { grammar: Box::new(GrammarView::Delimited { elements: seq![GrammarView::Ref { name: "SingleIdentifierGrammar"@, optional: false }], allow_trailing: false, delimiter: None, terminators: seq![], allow_gaps: true }) } }
}

fn build_single_identifier_list_segment() -> (e: Element)
    ensures
        e@ =~~= single_identifier_list_segment_element(),
{
    let g1: Vec<Grammar> = vec![Grammar::reference("SingleIdentifierGrammar")];
    assert(views(g1@) =~~= seq![GrammarView::Ref { name: "SingleIdentifierGrammar"@, optional: false }]);
    let g2: Vec<Grammar> = Vec::new();
    assert(views(g2@) =~= Seq::<GrammarView>::empty());
    let g3 = Grammar::delimited_with(g1, false, None, g2, true);
    let g4 = g3.optional();
    Element::Node { kind: "identifier_list", grammar: g4 }
}

/// The ANSI element `GroupByClauseSegment`.
pub open spec fn group_by_clause_segment_element() -> ElementView {
    ElementView::Node { kind: "groupby_clause"@, grammar: GrammarView::Sequence { elements: seq![GrammarView::Keyword { word: "GROUP"@ }, GrammarView::Keyword { word: "BY"@ }, GrammarView::OneOf { elements: seq![GrammarView::Ref { name: "CubeRollupClauseSegment"@, optional: false }, GrammarView::Sequence { elements: seq![GrammarView::Indent, GrammarView::Delimited { elements: seq![GrammarView::OneOf { elements: seq![GrammarView::Ref { name: "ColumnReferenceSegment"@, optional: false }, GrammarView::Ref { name: "NumericLiteralSegment"@, optional: false }, GrammarView::Ref { name: "ExpressionSegment"@, optional: false }], terminators: seq![] }], allow_trailing: false, delimiter: None, terminators: seq![GrammarView::Ref { name: "GroupByClauseTerminatorGrammar"@, optional: false }], allow_gaps: true }, GrammarView::Dedent], terminators: seq![], parse_mode: ParseMode::Strict }], terminators: seq![] }], terminators: seq![], parse_mode: ParseMode::Strict } }
}

fn build_group_by_clause_segment() -> (e: Element)
    ensures
        e@ =~~= group_by_clause_segment_element(),
{
    let g1: Vec<Grammar> = vec![Grammar::reference("ColumnReferenceSegment"), Grammar::reference("NumericLiteralSegment"), Grammar::reference("ExpressionSegment")];
    assert(views(g1@) =~~= seq![GrammarView::Ref { name: "ColumnReferenceSegment"@, optional: false }, GrammarView::Ref { name: "NumericLiteralSegment"@, optional: false }, GrammarView::Ref { name: "ExpressionSegment"@, optional: false }]);
    let g2: Vec<Grammar> = Vec::new();
    assert(views(g2@) =~= Seq::<GrammarView>::empty());
    let g3 = Grammar::one_of_with(g1, g2);
    let g4: Vec<Grammar> = vec![g3];
    assert(views(g4@) =~~= seq![GrammarView::OneOf { elements: seq![GrammarView::Ref { name: "ColumnReferenceSegment"@, optional: false }, GrammarView::Ref { name: "NumericLiteralSegment"@, optional: false }, GrammarView::Ref { name: "ExpressionSegment"@, optional: false }], terminators: seq![] }]);
    let g5: Vec<Grammar> = vec![Grammar::reference("GroupByClauseTerminatorGrammar")];
    assert(views(g5@) =~~= seq![GrammarView::Ref { name: "GroupByClauseTerminatorGrammar"@, optional: false }]);
    let g6 = Grammar::delimited_with(g4, false, None, g5, true);
    let g7: Vec<Grammar> = vec![Grammar::indent(), g6, Grammar::dedent()];
    assert(views(g7@) =~~= seq![GrammarView::Indent, GrammarView::Delimited { elements: seq![GrammarView::OneOf { elements: seq![GrammarView::Ref { name: "ColumnReferenceSegment"@, optional: false }, GrammarView::Ref { name: "NumericLiteralSegment"@, optional: false }, GrammarView::Ref { name: "ExpressionSegment"@, optional: false }], terminators: seq![] }], allow_trailing: false, delimiter: None, terminators: seq![GrammarView::Ref { name: "GroupByClauseTerminatorGrammar"@, optional: false }], allow_gaps: true }, GrammarView::Dedent]);
    let g8: Vec<Grammar> = Vec::new();
    assert(views(g8@) =~= Seq::<GrammarView>::empty());
    let g9 = Grammar::sequence_with(g7, g8, ParseMode::Strict);
    let g10: Vec<Grammar> = vec![Grammar::reference("CubeRollupClauseSegment"), g9];
    assert(views(g10@) =~~= seq![GrammarView::Ref { name: "CubeRollupClauseSegment"@, optional: false }, GrammarView::Sequence { elements: seq![GrammarView::Indent, GrammarView::Delimited { elements: seq![GrammarView::OneOf { elements: seq![GrammarView::Ref { name: "ColumnReferenceSegment"@, optional: false }, GrammarView::Ref { name: "NumericLiteralSegment"@, optional: false }, GrammarView::Ref { name: "ExpressionSegment"@, optional: false }], terminators: seq![] }], allow_trailing: false, delimiter: None, terminators: seq![GrammarView::Ref { name: "GroupByClauseTerminatorGrammar"@, optional: false }], allow_gaps: true }, GrammarView::Dedent], terminators: seq![], parse_mode: ParseMode::Strict }]);
    let g11: Vec<Grammar> = Vec::new();
    assert(views(g11@) =~= Seq::<GrammarView>::empty());
    let g12 = Grammar::one_of_with(g10, g11);
    let g13: Vec<Grammar> = vec![Grammar::keyword("GROUP"), Grammar::keyword("BY"), g12];
    assert(views(g13@) =~~= seq![GrammarView::Keyword { word: "GROUP"@ }, GrammarView::Keyword { word: "BY"@ }, GrammarView::OneOf { elements: seq![GrammarView::Ref { name: "CubeRollupClauseSegment"@, optional: false }, GrammarView::Sequence { elements: seq![GrammarView::Indent, GrammarView::Delimited { elements: seq![GrammarView::OneOf { elements: seq![GrammarView::Ref { name: "ColumnReferenceSegment"@, optional: false }, GrammarView::Ref { name: "NumericLiteralSegment"@, optional: false }, GrammarView::Ref { name: "ExpressionSegment"@, optional: false }], terminators: seq![] }], allow_trailing: false, delimiter: None, terminators: seq![GrammarView::Ref { name: "GroupByClauseTerminatorGrammar"@, optional: false }], allow_gaps: true }, GrammarView::Dedent], terminators: seq![], parse_mode: ParseMode::Strict }], terminators: seq![] }]);
    let g14: Vec<Grammar> = Vec::new();
    assert(views(g14@) =~= Seq::<GrammarView>::empty());
    let g15 = Grammar::sequence_with(g13, g14, ParseMode::Strict);
    Element::Node { kind: "groupby_clause", grammar: g15 }
}

/// The ANSI element `FrameClauseSegment`.
pub open spec fn frame_clause_segment_element() -> ElementView {
    ElementView::Node { kind: "frame_clause"@, grammar: GrammarView::Sequence { elements: seq![GrammarView::Ref { name: "FrameClauseUnitGrammar"@, optional: false }, GrammarView::OneOf { elements: seq![GrammarView::OneOf { elements: seq![GrammarView::Sequence { elements: seq![GrammarView::Keyword { word: "CURRENT"@ }, GrammarView::Keyword { word: "ROW"@ }], terminators: seq![], parse_mode: ParseMode::Strict }, GrammarView::Sequence { elements: seq![GrammarView::OneOf { elements: seq![GrammarView::Ref { name: "NumericLiteralSegment"@, optional: false }, GrammarView::Sequence { elements: seq![GrammarView::Keyword { word: "INTERVAL"@ }, GrammarView::Ref { name: "QuotedLiteralSegment"@, optional: false }], terminators: seq![], parse_mode: ParseMode::Strict }, GrammarView::Keyword { word: "UNBOUNDED"@ }], terminators: seq![] }, GrammarView::OneOf { elements: seq![GrammarView::Keyword { word: "PRECEDING"@ }, GrammarView::Keyword { word: "FOLLOWING"@ }], terminators: seq![] }], terminators: seq![], parse_mode: ParseMode::Strict }], terminators: seq![] }, GrammarView::Sequence { elements: seq![GrammarView::Keyword { word: "BETWEEN"@ }, GrammarView::OneOf { elements: seq![GrammarView::Sequence { elements: seq![GrammarView::Keyword { word: "CURRENT"@ }, GrammarView::Keyword { word: "ROW"@ }], terminators: seq![], parse_mode: ParseMode::Strict }, GrammarView::Sequence { elements: seq![GrammarView::OneOf { elements: seq![GrammarView::Ref { name: "NumericLiteralSegment"@, optional: false }, GrammarView::Sequence { elements: seq![GrammarView::Keyword { word: "INTERVAL"@ }, GrammarView::Ref { name: "QuotedLiteralSegment"@, optional: false }], terminators: seq![], parse_mode: ParseMode::Strict }, GrammarView::Keyword { word: "UNBOUNDED"@ }], terminators: seq![] }, GrammarView::OneOf { elements: seq![GrammarView::Keyword { word: "PRECEDING"@ }, GrammarView::Keyword { word: "FOLLOWING"@ }], terminators: seq![] }], terminators: seq![], parse_mode: ParseMode::Strict }], terminators: seq![] }, GrammarView::Keyword { word: "AND"@ }, GrammarView::OneOf { elements: seq![GrammarView::Sequence { elements: seq![GrammarView::Keyword { word: "CURRENT"@ }, GrammarView::Keyword { word: "ROW"@ }], terminators: seq![], parse_mode: ParseMode::Strict }, GrammarView::Sequence { elements: seq![GrammarView::OneOf { elements: seq![GrammarView::Ref { name: "NumericLiteralSegment"@, optional: false }, GrammarView::Sequence { elements: seq![GrammarView::Keyword { word: "INTERVAL"@ }, GrammarView::Ref { name: "QuotedLiteralSegment"@, optional: false }], terminators: seq![], parse_mode: ParseMode::Strict }, GrammarView::Keyword { word: "UNBOUNDED"@ }], terminators: seq![] }, GrammarView::OneOf { elements: seq![GrammarView::Keyword { word: "PRECEDING"@ }, GrammarView::Keyword { word: "FOLLOWING"@ }], terminators: seq![] }], terminators: seq![], parse_mode: ParseMode::Strict }], terminators: seq![] }], terminators: seq![], parse_mode: ParseMode::Strict }], terminators: seq![] }], terminators: seq![], parse_mode: ParseMode::Strict } }
}

#[verifier::rlimit(100)]
fn build_frame_clause_segment() -> (e: Element)
    ensures
        e@ =~~= frame_clause_segment_element(),
{
    let g1: Vec<Grammar> = vec![Grammar::keyword("CURRENT"), Grammar::keyword("ROW")];
    assert(views(g1@) =~~= seq![GrammarView::Keyword { word: "CURRENT"@ }, GrammarView::Keyword { word: "ROW"@ }]);
    let g2: Vec<Grammar> = Vec::new();
    assert(views(g2@) =~= Seq::<GrammarView>::empty());
    let g3 = Grammar::sequence_with(g1, g2, ParseMode::Strict);
    let g4: Vec<Grammar> = vec![Grammar::keyword("INTERVAL"), Grammar::reference("QuotedLiteralSegment")];
    assert(views(g4@) =~~= seq![GrammarView::Keyword { word: "INTERVAL"@ }, GrammarView::Ref { name: "QuotedLiteralSegment"@, optional: false }]);
    let g5: Vec<Grammar> = Vec::new();
    assert(views(g5@) =~= Seq::<GrammarView>::empty());
    let g6 = Grammar::sequence_with(g4, g5, ParseMode::Strict);
    let g7: Vec<Grammar> = vec![Grammar::reference("NumericLiteralSegment"), g6, Grammar::keyword("UNBOUNDED")];
    assert(views(g7@) =~~= seq![GrammarView::Ref { name: "NumericLiteralSegment"@, optional: false }, GrammarView::Sequence { elements: seq![GrammarView::Keyword { word: "INTERVAL"@ }, GrammarView::Ref { name: "QuotedLiteralSegment"@, optional: false }], terminators: seq![], parse_mode: ParseMode::Strict }, GrammarView::Keyword { word: "UNBOUNDED"@ }]);
    let g8: Vec<Grammar> = Vec::new();
    assert(views(g8@) =~= Seq::<GrammarView>::empty());
    let g9 = Grammar::one_of_with(g7, g8);
    let g10: Vec<Grammar> = vec![Grammar::keyword("PRECEDING"), Grammar::keyword("FOLLOWING")];
    assert(views(g10@) =~~= seq![GrammarView::Keyword { word: "PRECEDING"@ }, GrammarView::Keyword { word: "FOLLOWING"@ }]);
    let g11: Vec<Grammar> = Vec::new();
    assert(views(g11@) =~= Seq::<GrammarView>::empty());
    let g12 = Grammar::one_of_with(g10, g11);
    let g13: Vec<Grammar> = vec![g9, g12];
    assert(views(g13@) =~~= seq![GrammarView::OneOf { elements: seq![GrammarView::Ref { name: "NumericLiteralSegment"@, optional: false }, GrammarView::Sequence { elements: seq![GrammarView::Keyword { word: "INTERVAL"@ }, GrammarView::Ref { name: "QuotedLiteralSegment"@, optional: false }], terminators: seq![], parse_mode: ParseMode::Strict }, GrammarView::Keyword { word: "UNBOUNDED"@ }], terminators: seq![] }, GrammarView::OneOf { elements: seq![GrammarView::Keyword { word: "PRECEDING"@ }, GrammarView::Keyword { word: "FOLLOWING"@ }], terminators: seq![] }]);
    let g14: Vec<Grammar> = Vec::new();
    assert(views(g14@) =~= Seq::<GrammarView>::empty());
    let g15 = Grammar::sequence_with(g13, g14, ParseMode::Strict);
    let g16: Vec<Grammar> = vec![g3, g15];
    assert(views(g16@) =~~= seq![GrammarView::Sequence { elements: seq![GrammarView::Keyword { word: "CURRENT"@ }, GrammarView::Keyword { word: "ROW"@ }], terminators: seq![], parse_mode: ParseMode::Strict }, GrammarView::Sequence { elements: seq![GrammarView::OneOf { elements: seq![GrammarView::Ref { name: "NumericLiteralSegment"@, optional: false }, GrammarView::Sequence { elements: seq![GrammarView::Keyword { word: "INTERVAL"@ }, GrammarView::Ref { name: "QuotedLiteralSegment"@, optional: false }], terminators: seq![], parse_mode: ParseMode::Strict }, GrammarView::Keyword { word: "UNBOUNDED"@ }], terminators: seq![] }, GrammarView::OneOf { elements: seq![GrammarView::Keyword { word: "PRECEDING"@ }, GrammarView::Keyword { word: "FOLLOWING"@ }], terminators: seq![] }], terminators: seq![], parse_mode: ParseMode::Strict }]);
    let g17: Vec<Grammar> = Vec::new();
    assert(views(g17@) =~= Seq::<GrammarView>::empty());
    let g18 = Grammar::one_of_with(g16, g17);
    let g19: Vec<Grammar> = vec![Grammar::keyword("CURRENT"), Grammar::keyword("ROW")];
    assert(views(g19@) =~~= seq![GrammarView::Keyword { word: "CURRENT"@ }, GrammarView::Keyword { word: "ROW"@ }]);
    let g20: Vec<Grammar> = Vec::new();
    assert(views(g20@) =~= Seq::<GrammarView>::empty());
    let g21 = Grammar::sequence_with(g19, g20, ParseMode::Strict);
    let g22: Vec<Grammar> = vec![Grammar::keyword("INTERVAL"), Grammar::reference("QuotedLiteralSegment")];
    assert(views(g22@) =~~= seq![GrammarView::Keyword { word: "INTERVAL"@ }, GrammarView::Ref { name: "QuotedLiteralSegment"@, optional: false }]);
    let g23: Vec<Grammar> = Vec::new();
    assert(views(g23@) =~= Seq::<GrammarView>::empty());
    let g24 = Grammar::sequence_with(g22, g23, ParseMode::Strict);
    let g25: Vec<Grammar> = vec![Grammar::reference("NumericLiteralSegment"), g24, Grammar::keyword("UNBOUNDED")];
    assert(views(g25@) =~~= seq![GrammarView::Ref { name: "NumericLiteralSegment"@, optional: false }, GrammarView::Sequence { elements: seq![GrammarView::Keyword { word: "INTERVAL"@ }, GrammarView::Ref { name: "QuotedLiteralSegment"@, optional: false }], terminators: seq![], parse_mode: ParseMode::Strict }, GrammarView::Keyword { word: "UNBOUNDED"@ }]);
    let g26: Vec<Grammar> = Vec::new();
    assert(views(g26@) =~= Seq::<GrammarView>::empty());
    let g27 = Grammar::one_of_with(g25, g26);
    let g28: Vec<Grammar> = vec![Grammar::keyword("PRECEDING"), Grammar::keyword("FOLLOWING")];
    assert(views(g28@) =~~= seq![GrammarView::Keyword { word: "PRECEDING"@ }, GrammarView::Keyword { word: "FOLLOWING"@ }]);
    let g29: Vec<Grammar> = Vec::new();
    assert(views(g29@) =~= Seq::<GrammarView>::empty());
    let g30 = Grammar::one_of_with(g28, g29);
    let g31: Vec<Grammar> = vec![g27, g30];
    assert(views(g31@) =~~= seq![GrammarView::OneOf { elements: seq![GrammarView::Ref { name: "NumericLiteralSegment"@, optional: false }, GrammarView::Sequence { elements: seq![GrammarView::Keyword { word: "INTERVAL"@ }, GrammarView::Ref { name: "QuotedLiteralSegment"@, optional: false }], terminators: seq![], parse_mode: ParseMode::Strict }, GrammarView::Keyword { word: "UNBOUNDED"@ }], terminators: seq![] }, GrammarView::OneOf { elements: seq![GrammarView::Keyword { word: "PRECEDING"@ }, GrammarView::Keyword { word: "FOLLOWING"@ }], terminators: seq![] }]);
    let g32: Vec<Grammar> = Vec::new();
    assert(views(g32@) =~= Seq::<GrammarView>::empty());
    let g33 = Grammar::sequence_with(g31, g32, ParseMode::Strict);
    let g34: Vec<Grammar> = vec![g21, g33];
    assert(views(g34@) =~~= seq![GrammarView::Sequence { elements: seq![GrammarView::Keyword { word: "CURRENT"@ }, GrammarView::Keyword { word: "ROW"@ }], terminators: seq![], parse_mode: ParseMode::Strict }, GrammarView::Sequence { elements: seq![GrammarView::OneOf { elements: seq![GrammarView::Ref { name: "NumericLiteralSegment"@, optional: false }, GrammarView::Sequence { elements: seq![GrammarView::Keyword { word: "INTERVAL"@ }, GrammarView::Ref { name: "QuotedLiteralSegment"@, optional: false }], terminators: seq![], parse_mode: ParseMode::Strict }, GrammarView::Keyword { word: "UNBOUNDED"@ }], terminators: seq![] }, GrammarView::OneOf { elements: seq![GrammarView::Keyword { word: "PRECEDING"@ }, GrammarView::Keyword { word: "FOLLOWING"@ }], terminators: seq![] }], terminators: seq![], parse_mode: ParseMode::Strict }]);
    let g35: Vec<Grammar> = Vec::new();
    assert(views(g35@) =~= Seq::<GrammarView>::empty());
    let g36 = Grammar::one_of_with(g34, g35);
    let g37: Vec<Grammar> = vec![Grammar::keyword("CURRENT"), Grammar::keyword("ROW")];
    assert(views(g37@) =~~= seq![GrammarView::Keyword { word: "CURRENT"@ }, GrammarView::Keyword { word: "ROW"@ }]);
    let g38: Vec<Grammar> = Vec::new();
    assert(views(g38@) =~= Seq::<GrammarView>::empty());
    let g39 = Grammar::sequence_with(g37, g38, ParseMode::Strict);
    let g40: Vec<Grammar> = vec![Grammar::keyword("INTERVAL"), Grammar::reference("QuotedLiteralSegment")];
    assert(views(g40@) =~~= seq![GrammarView::Keyword { word: "INTERVAL"@ }, GrammarView::Ref { name: "QuotedLiteralSegment"@, optional: false }]);
    let g41: Vec<Grammar> = Vec::new();
    assert(views(g41@) =~= Seq::<GrammarView>::empty());
    let g42 = Grammar::sequence_with(g40, g41, ParseMode::Strict);
    let g43: Vec<Grammar> = vec![Grammar::reference("NumericLiteralSegment"), g42, Grammar::keyword("UNBOUNDED")];
    assert(views(g43@) =~~= seq![GrammarView::Ref { name: "NumericLiteralSegment"@, optional: false }, GrammarView::Sequence { elements: seq![GrammarView::Keyword { word: "INTERVAL"@ }, GrammarView::Ref { name: "QuotedLiteralSegment"@, optional: false }], terminators: seq![], parse_mode: ParseMode::Strict }, GrammarView::Keyword { word: "UNBOUNDED"@ }]);
    let g44: Vec<Grammar> = Vec::new();
    assert(views(g44@) =~= Seq::<GrammarView>::empty());
    let g45 = Grammar::one_of_with(g43, g44);
    let g46: Vec<Grammar> = vec![Grammar::keyword("PRECEDING"), Grammar::keyword("FOLLOWING")];
    assert(views(g46@) =~~= seq![GrammarView::Keyword { word: "PRECEDING"@ }, GrammarView::Keyword { word: "FOLLOWING"@ }]);
    let g47: Vec<Grammar> = Vec::new();
    assert(views(g47@) =~= Seq::<GrammarView>::empty());
    let g48 = Grammar::one_of_with(g46, g47);
    let g49: Vec<Grammar> = vec![g45, g48];
    assert(views(g49@) =~~= seq![GrammarView::OneOf { elements: seq![GrammarView::Ref { name: "NumericLiteralSegment"@, optional: false }, GrammarView::Sequence { elements: seq![GrammarView::Keyword { word: "INTERVAL"@ }, GrammarView::Ref { name: "QuotedLiteralSegment"@, optional: false }], terminators: seq![], parse_mode: ParseMode::Strict }, GrammarView::Keyword { word: "UNBOUNDED"@ }], terminators: seq![] }, GrammarView::OneOf { elements: seq![GrammarView::Keyword { word: "PRECEDING"@ }, GrammarView::Keyword { word: "FOLLOWING"@ }], terminators: seq![] }]);
    let g50: Vec<Grammar> = Vec::new();
    assert(views(g50@) =~= Seq::<GrammarView>::empty());
    let g51 = Grammar::sequence_with(g49, g50, ParseMode::Strict);
    let g52: Vec<Grammar> = vec![g39, g51];
    assert(views(g52@) =~~= seq![GrammarView::Sequence { elements: seq![GrammarView::Keyword { word: "CURRENT"@ }, GrammarView::Keyword { word: "ROW"@ }], terminators: seq![], parse_mode: ParseMode::Strict }, GrammarView::Sequence { elements: seq![GrammarView::OneOf { elements: seq![GrammarView::Ref { name: "NumericLiteralSegment"@, optional: false }, GrammarView::Sequence { elements: seq![GrammarView::Keyword { word: "INTERVAL"@ }, GrammarView::Ref { name: "QuotedLiteralSegment"@, optional: false }], terminators: seq![], parse_mode: ParseMode::Strict }, GrammarView::Keyword { word: "UNBOUNDED"@ }], terminators: seq![] }, GrammarView::OneOf { elements: seq![GrammarView::Keyword { word: "PRECEDING"@ }, GrammarView::Keyword { word: "FOLLOWING"@ }], terminators: seq![] }], terminators: seq![], parse_mode: ParseMode::Strict }]);
    let g53: Vec<Grammar> = Vec::new();
    assert(views(g53@) =~= Seq::<GrammarView>::empty());
    let g54 = Grammar::one_of_with(g52, g53);
    let g55: Vec<Grammar> = vec![Grammar::keyword("BETWEEN"), g36, Grammar::keyword("AND"), g54];
    assert(views(g55@) =~~= seq![GrammarView::Keyword { word: "BETWEEN"@ }, GrammarView::OneOf { elements: seq![GrammarView::Sequence { elements: seq![GrammarView::Keyword { word: "CURRENT"@ }, GrammarView::Keyword { word: "ROW"@ }], terminators: seq![], parse_mode: ParseMode::Strict }, GrammarView::Sequence { elements: seq![GrammarView::OneOf { elements: seq![GrammarView::Ref { name: "NumericLiteralSegment"@, optional: false }, GrammarView::Sequence { elements: seq![GrammarView::Keyword { word: "INTERVAL"@ }, GrammarView::Ref { name: "QuotedLiteralSegment"@, optional: false }], terminators: seq![], parse_mode: ParseMode::Strict }, GrammarView::Keyword { word: "UNBOUNDED"@ }], terminators: seq![] }, GrammarView::OneOf { elements: seq![GrammarView::Keyword { word: "PRECEDING"@ }, GrammarView::Keyword { word: "FOLLOWING"@ }], terminators: seq![] }], terminators: seq![], parse_mode: ParseMode::Strict }], terminators: seq![] }, GrammarView::Keyword { word: "AND"@ }, GrammarView::OneOf { elements: seq![GrammarView::Sequence { elements: seq![GrammarView::Keyword { word: "CURRENT"@ }, GrammarView::Keyword { word: "ROW"@ }], terminators: seq![], parse_mode: ParseMode::Strict }, GrammarView::Sequence { elements: seq![GrammarView::OneOf { elements: seq![GrammarView::Ref { name: "NumericLiteralSegment"@, optional: false }, GrammarView::Sequence { elements: seq![GrammarView::Keyword { word: "INTERVAL"@ }, GrammarView::Ref { name: "QuotedLiteralSegment"@, optional: false }], terminators: seq![], parse_mode: ParseMode::Strict }, GrammarView::Keyword { word: "UNBOUNDED"@ }], terminators: seq![] }, GrammarView::OneOf { elements: seq![GrammarView::Keyword { word: "PRECEDING"@ }, GrammarView::Keyword { word: "FOLLOWING"@ }], terminators: seq![] }], terminators: seq![], parse_mode: ParseMode::Strict }], terminators: seq![] }]);
    let g56: Vec<Grammar> = Vec::new();
    assert(views(g56@) =~= Seq::<GrammarView>::empty());
    let g57 = Grammar::sequence_with(g55, g56, ParseMode::Strict);
    let g58: Vec<Grammar> = vec![g18, g57];
    assert(views(g58@) =~~= seq![GrammarView::OneOf { elements: seq![GrammarView::Sequence { elements: seq![GrammarView::Keyword { word: "CURRENT"@ }, GrammarView::Keyword { word: "ROW"@ }], terminators: seq![], parse_mode: ParseMode::Strict }, GrammarView::Sequence { elements: seq![GrammarView::OneOf { elements: seq![GrammarView::Ref { name: "NumericLiteralSegment"@, optional: false }, GrammarView::Sequence { elements: seq![GrammarView::Keyword { word: "INTERVAL"@ }, GrammarView::Ref { name: "QuotedLiteralSegment"@, optional: false }], terminators: seq![], parse_mode: ParseMode::Strict }, GrammarView::Keyword { word: "UNBOUNDED"@ }], terminators: seq![] }, GrammarView::OneOf { elements: seq![GrammarView::Keyword { word: "PRECEDING"@ }, GrammarView::Keyword { word: "FOLLOWING"@ }], terminators: seq![] }], terminators: seq![], parse_mode: ParseMode::Strict }], terminators: seq![] }, GrammarView::Sequence { elements: seq![GrammarView::Keyword { word: "BETWEEN"@ }, GrammarView::OneOf { elements: seq![GrammarView::Sequence { elements: seq![GrammarView::Keyword { word: "CURRENT"@ }, GrammarView::Keyword { word: "ROW"@ }], terminators: seq![], parse_mode: ParseMode::Strict }, GrammarView::Sequence { elements: seq![GrammarView::OneOf { elements: seq![GrammarView::Ref { name: "NumericLiteralSegment"@, optional: false }, GrammarView::Sequence { elements: seq![GrammarView::Keyword { word: "INTERVAL"@ }, GrammarView::Ref { name: "QuotedLiteralSegment"@, optional: false }], terminators: seq![], parse_mode: ParseMode::Strict }, GrammarView::Keyword { word: "UNBOUNDED"@ }], terminators: seq![] }, GrammarView::OneOf { elements: seq![GrammarView::Keyword { word: "PRECEDING"@ }, GrammarView::Keyword { word: "FOLLOWING"@ }], terminators: seq![] }], terminators: seq![], parse_mode: ParseMode::Strict }], terminators: seq![] }, GrammarView::Keyword { word: "AND"@ }, GrammarView::OneOf { elements: seq![GrammarView::Sequence { elements: seq![GrammarView::Keyword { word: "CURRENT"@ }, GrammarView::Keyword { word: "ROW"@ }], terminators: seq![], parse_mode: ParseMode::Strict }, GrammarView::Sequence { elements: seq![GrammarView::OneOf { elements: seq![GrammarView::Ref { name: "NumericLiteralSegment"@, optional: false }, GrammarView::Sequence { elements: seq![GrammarView::Keyword { word: "INTERVAL"@ }, GrammarView::Ref { name: "QuotedLiteralSegment"@, optional: false }], terminators: seq![], parse_mode: ParseMode::Strict }, GrammarView::Keyword { word: "UNBOUNDED"@ }], terminators: seq![] }, GrammarView::OneOf { elements: seq![GrammarView::Keyword { word: "PRECEDING"@ }, GrammarView::Keyword { word: "FOLLOWING"@ }], terminators: seq![] }], terminators: seq![], parse_mode: ParseMode::Strict }], terminators: seq![] }], terminators: seq![], parse_mode: ParseMode::Strict }]);
    let g59: Vec<Grammar> = Vec::new();
    assert(views(g59@) =~= Seq::<GrammarView>::empty());
    let g60 = Grammar::one_of_with(g58, g59);
    let g61: Vec<Grammar> = vec![Grammar::reference("FrameClauseUnitGrammar"), g60];
    assert(views(g61@) =~~= seq![GrammarView::Ref { name: "FrameClauseUnitGrammar"@, optional: false }, GrammarView::OneOf { elements: seq![GrammarView::OneOf { elements: seq![GrammarView::Sequence { elements: seq![GrammarView::Keyword { word: "CURRENT"@ }, GrammarView::Keyword { word: "ROW"@ }], terminators: seq![], parse_mode: ParseMode::Strict }, GrammarView::Sequence { elements: seq![GrammarView::OneOf { elements: seq![GrammarView::Ref { name: "NumericLiteralSegment"@, optional: false }, GrammarView::Sequence { elements: seq![GrammarView::Keyword { word: "INTERVAL"@ }, GrammarView::Ref { name: "QuotedLiteralSegment"@, optional: false }], terminators: seq![], parse_mode: ParseMode::Strict }, GrammarView::Keyword { word: "UNBOUNDED"@ }], terminators: seq![] }, GrammarView::OneOf { elements: seq![GrammarView::Keyword { word: "PRECEDING"@ }, GrammarView::Keyword { word: "FOLLOWING"@ }], terminators: seq![] }], terminators: seq![], parse_mode: ParseMode::Strict }], terminators: seq![] }, GrammarView::Sequence { elements: seq![GrammarView::Keyword { word: "BETWEEN"@ }, GrammarView::OneOf { elements: seq![GrammarView::Sequence { elements: seq![GrammarView::Keyword { word: "CURRENT"@ }, GrammarView::Keyword { word: "ROW"@ }], terminators: seq![], parse_mode: ParseMode::Strict }, GrammarView::Sequence { elements: seq![GrammarView::OneOf { elements: seq![GrammarView::Ref { name: "NumericLiteralSegment"@, optional: false }, GrammarView::Sequence { elements: seq![GrammarView::Keyword { word: "INTERVAL"@ }, GrammarView::Ref { name: "QuotedLiteralSegment"@, optional: false }], terminators: seq![], parse_mode: ParseMode::Strict }, GrammarView::Keyword { word: "UNBOUNDED"@ }], terminators: seq![] }, GrammarView::OneOf { elements: seq![GrammarView::Keyword { word: "PRECEDING"@ }, GrammarView::Keyword { word: "FOLLOWING"@ }], terminators: seq![] }], terminators: seq![], parse_mode: ParseMode::Strict }], terminators: seq![] }, GrammarView::Keyword { word: "AND"@ }, GrammarView::OneOf { elements: seq![GrammarView::Sequence { elements: seq![GrammarView::Keyword { word: "CURRENT"@ }, GrammarView::Keyword { word: "ROW"@ }], terminators: seq![], parse_mode: ParseMode::Strict }, GrammarView::Sequence { elements: seq![GrammarView::OneOf { elements: seq![GrammarView::Ref { name: "NumericLiteralSegment"@, optional: false }, GrammarView::Sequence { elements: seq![GrammarView::Keyword { word: "INTERVAL"@ }, GrammarView::Ref { name: "QuotedLiteralSegment"@, optional: false }], terminators: seq![], parse_mode: ParseMode::Strict }, GrammarView::Keyword { word: "UNBOUNDED"@ }], terminators: seq![] }, GrammarView::OneOf { elements: seq![GrammarView::Keyword { word: "PRECEDING"@ }, GrammarView::Keyword { word: "FOLLOWING"@ }], terminators: seq![] }], terminators: seq![], parse_mode: ParseMode::Strict }], terminators: seq![] }], terminators: seq![], parse_mode: ParseMode::Strict }], terminators: seq![] }]);
    let g62: Vec<Grammar> = Vec::new();
    assert(views(g62@) =~= Seq::<GrammarView>::empty());
    let g63 = Grammar::sequence_with(g61, g62, ParseMode::Strict);
    Element::Node { kind: "frame_clause", grammar: g63 }
}

/// The ANSI element `WithCompoundStatementSegment`.
pub open spec fn with_compound_statement_segment_element() -> ElementView {
    ElementView::Node { kind: "with_compound_statement"@, grammar: GrammarView::Sequence { elements: seq![GrammarView::Keyword { word: "WITH"@ }, GrammarView::Optional { grammar: Box::new(GrammarView::Keyword { word: "RECURSIVE"@ }) }, GrammarView::Conditional { meta: Box::new(GrammarView::Indent), setting: "indented_ctes"@ }, GrammarView::Delimited { elements: seq![GrammarView::Ref { name: "CTEDefinitionSegment"@, optional: false }], allow_trailing: true, delimiter: None, terminators: seq![GrammarView::Keyword { word: "SELECT"@ }], allow_gaps: true }, GrammarView::Conditional { meta: Box::new(GrammarView::Dedent), setting: "indented_ctes"@ }, GrammarView::Ref { name: "NonWithSelectableGrammar"@, optional: false }], terminators: seq![], parse_mode: ParseMode::Strict } }
}

fn build_with_compound_statement_segment() -> (e: Element)
    ensures
        e@ =~~= with_compound_statement_segment_element(),
{
    let g1 = Grammar::keyword("RECURSIVE").optional();
    let g2 = Grammar::conditional(Grammar::indent(), "indented_ctes");
    let g3: Vec<Grammar> = vec![Grammar::reference("CTEDefinitionSegment")];
    assert(views(g3@) =~~= seq![GrammarView::Ref { name: "CTEDefinitionSegment"@, optional: false }]);
    let g4: Vec<Grammar> = vec![Grammar::keyword("SELECT")];
    assert(views(g4@) =~~= seq![GrammarView::Keyword { word: "SELECT"@ }]);
    let g5 = Grammar::delimited_with(g3, true, None, g4, true);
    let g6 = Grammar::conditional(Grammar::dedent(), "indented_ctes");
    let g7: Vec<Grammar> = vec![Grammar::keyword("WITH"), g1, g2, g5, g6, Grammar::reference("NonWithSelectableGrammar")];
    assert(views(g7@) =~~= seq![GrammarView::Keyword { word: "WITH"@ }, GrammarView::Optional { grammar: Box::new(GrammarView::Keyword { word: "RECURSIVE"@ }) }, GrammarView::Conditional { meta: Box::new(GrammarView::Indent), setting: "indented_ctes"@ }, GrammarView::Delimited { elements: seq![GrammarView::Ref { name: "CTEDefinitionSegment"@, optional: false }], allow_trailing: true, delimiter: None, terminators: seq![GrammarView::Keyword { word: "SELECT"@ }], allow_gaps: true }, GrammarView::Conditional { meta: Box::new(GrammarView::Dedent), setting: "indented_ctes"@ }, GrammarView::Ref { name: "NonWithSelectableGrammar"@, optional: false }]);
    let g8: Vec<Grammar> = Vec::new();
    assert(views(g8@) =~= Seq::<GrammarView>::empty());
    let g9 = Grammar::sequence_with(g7, g8, ParseMode::Strict);
    Element::Node { kind: "with_compound_statement", grammar: g9 }
}

/// The ANSI element `WithCompoundNonSelectStatementSegment`.
pub open spec fn with_compound_non_select_statement_segment_element() -> ElementView {
    ElementView::Node { kind: "with_compound_statement"@, grammar: GrammarView::Sequence { elements: seq![GrammarView::Keyword { word: "WITH"@ }, GrammarView::Optional { grammar: Box::new(GrammarView::Keyword { word: "RECURSIVE"@ }) }, GrammarView::Conditional { meta: Box::new(GrammarView::Indent), setting: "indented_ctes"@ }, GrammarView::Delimited { elements: seq![GrammarView::Ref { name: "CTEDefinitionSegment"@, optional: false }], allow_trailing: true, delimiter: None, terminators: seq![GrammarView::Keyword { word: "SELECT"@ }], allow_gaps: true }, GrammarView::Conditional { meta: Box::new(GrammarView::Dedent), setting: "indented_ctes"@ }, GrammarView::Ref { name: "NonWithNonSelectableGrammar"@, optional: false }], terminators: seq![], parse_mode: ParseMode::Strict } }
}

fn build_with_compound_non_select_statement_segment() -> (e: Element)
    ensures
        e@ =~~= with_compound_non_select_statement_segment_element(),
{
    let g1 = Grammar::keyword("RECURSIVE").optional();
    let g2 = Grammar::conditional(Grammar::indent(), "indented_ctes");
    let g3: Vec<Grammar> = vec![Grammar::reference("CTEDefinitionSegment")];
    assert(views(g3@) =~~= seq![GrammarView::Ref { name: "CTEDefinitionSegment"@, optional: false }]);
    let g4: Vec<Grammar> = vec![Grammar::keyword("SELECT")];
    assert(views(g4@) =~~= seq![GrammarView::Keyword { word: "SELECT"@ }]);
    let g5 = Grammar::delimited_with(g3, true, None, g4, true);
    let g6 = Grammar::conditional(Grammar::dedent(), "indented_ctes");
    let g7: Vec<Grammar> = vec![Grammar::keyword("WITH"), g1, g2, g5, g6, Grammar::reference("NonWithNonSelectableGrammar")];
    assert(views(g7@) =~~= seq![GrammarView::Keyword { word: "WITH"@ }, GrammarView::Optional { grammar: Box::new(GrammarView::Keyword { word: "RECURSIVE"@ }) }, GrammarView::Conditional { meta: Box::new(GrammarView::Indent), setting: "indented_ctes"@ }, GrammarView::Delimited { elements: seq![GrammarView::Ref { name: "CTEDefinitionSegment"@, optional: false }], allow_trailing: true, delimiter: None, terminators: seq![GrammarView::Keyword { word: "SELECT"@ }], allow_gaps: true }, GrammarView::Conditional { meta: Box::new(GrammarView::Dedent), setting: "indented_ctes"@ }, GrammarView::Ref { name: "NonWithNonSelectableGrammar"@, optional: false }]);
    let g8: Vec<Grammar> = Vec::new();
    assert(views(g8@) =~= Seq::<GrammarView>::empty());
    let g9 = Grammar::sequence_with(g7, g8, ParseMode::Strict);
    Element::Node { kind: "with_compound_statement", grammar: g9 }
}

/// The ANSI element `CTEDefinitionSegment`.
pub open spec fn c_t_e_definition_segment_element() -> ElementView {
    ElementView::Node { kind: "common_table_expression"@, grammar: GrammarView::Sequence { elements: seq![GrammarView::Ref { name: "SingleIdentifierGrammar"@, optional: false }, GrammarView::Ref { name: "CTEColumnList"@, optional: true }, GrammarView::Optional { grammar: Box::new(GrammarView::Keyword { word: "AS"@ }) }, GrammarView::Bracketed { elements: seq![GrammarView::Ref { name: "SelectableGrammar"@, optional: false }], bracket_type: "round"@ }], terminators: seq![], parse_mode: ParseMode::Strict } }
}

fn build_c_t_e_definition_segment() -> (e: Element)
    ensures
        e@ =~~= c_t_e_definition_segment_element(),
{
    let g1 = Grammar::keyword("AS").optional();
    let g2: Vec<Grammar> = vec![Grammar::reference("SelectableGrammar")];
    assert(views(g2@) =~~= seq![GrammarView::Ref { name: "SelectableGrammar"@, optional: false }]);
    let g3 = Grammar::bracketed_with(g2, "round");
    let g4: Vec<Grammar> = vec![Grammar::reference("SingleIdentifierGrammar"), Grammar::optional_reference("CTEColumnList"), g1, g3];
    assert(views(g4@) =~~= seq![GrammarView::Ref { name: "SingleIdentifierGrammar"@, optional: false }, GrammarView::Ref { name: "CTEColumnList"@, optional: true }, GrammarView::Optional { grammar: Box::new(GrammarView::Keyword { word: "AS"@ }) }, GrammarView::Bracketed { elements: seq![GrammarView::Ref { name: "SelectableGrammar"@, optional: false }], bracket_type: "round"@ }]);
    let g5: Vec<Grammar> = Vec::new();
    assert(views(g5@) =~= Seq::<GrammarView>::empty());
    let g6 = Grammar::sequence_with(g4, g5, ParseMode::Strict);
    Element::Node { kind: "common_table_expression", grammar: g6 }
}

/// The ANSI element `CTEColumnList`.
pub open spec fn c_t_e_column_list_element() -> ElementView {
    ElementView::Node { kind: "cte_column_list"@, grammar: GrammarView::Bracketed { elements: seq![GrammarView::Ref { name: "SingleIdentifierListSegment"@, optional: false }], bracket_type: "round"@ } }
}

fn build_c_t_e_column_list() -> (e: Element)
    ensures
        e@ =~~= c_t_e_column_list_element(),
{
    let g1: Vec<Grammar> = vec![Grammar::reference("SingleIdentifierListSegment")];
    assert(views(g1@) =~~= seq![GrammarView::Ref { name: "SingleIdentifierListSegment"@, optional: false }]);
    let g2 = Grammar::bracketed_with(g1, "round");
    Element::Node { kind: "cte_column_list", grammar: g2 }
}

/// The ANSI element `SequenceReferenceSegment`.
pub open spec fn sequence_reference_segment_element() -> ElementView {
    ElementView::Node { kind: "column_reference"@, grammar: GrammarView::Delimited { elements: seq![GrammarView::Ref { name: "SingleIdentifierGrammar"@, optional: false }], allow_trailing: false, delimiter: Some(Box::new(GrammarView::Ref { name: "ObjectReferenceDelimiterGrammar"@, optional: false })), terminators: seq![GrammarView::Ref { name: "ObjectReferenceTerminatorGrammar"@, optional: false }], allow_gaps: false } }
}

fn build_sequence_reference_segment() -> (e: Element)
    ensures
        e@ =~~= sequence_reference_segment_element(),
{
    let g1: Vec<Grammar> = vec![Grammar::reference("SingleIdentifierGrammar")];
    assert(views(g1@) =~~= seq![GrammarView::Ref { name: "SingleIdentifierGrammar"@, optional: false }]);
    let g2: Vec<Grammar> = vec![Grammar::reference("ObjectReferenceTerminatorGrammar")];
    assert(views(g2@) =~~= seq![GrammarView::Ref { name: "ObjectReferenceTerminatorGrammar"@, optional: false }]);
    let g3 = Grammar::delimited_with(g1, false, Some(Grammar::reference("ObjectReferenceDelimiterGrammar")), g2, false);
    Element::Node { kind: "column_reference", grammar: g3 }
}

/// The ANSI element `TriggerReferenceSegment`.
pub open spec fn trigger_reference_segment_element() -> ElementView {
    ElementView::Node { kind: "trigger_reference"@, grammar: GrammarView::Delimited { elements: seq![GrammarView::Ref { name: "SingleIdentifierGrammar"@, optional: false }], allow_trailing: false, delimiter: Some(Box::new(GrammarView::Ref { name: "ObjectReferenceDelimiterGrammar"@, optional: false })), terminators: seq![GrammarView::Ref { name: "ObjectReferenceTerminatorGrammar"@, optional: false }], allow_gaps: false } }
}

fn build_trigger_reference_segment() -> (e: Element)
    ensures
        e@ =~~= trigger_reference_segment_element(),
{
    let g1: Vec<Grammar> = vec![Grammar::reference("SingleIdentifierGrammar")];
    assert(views(g1@) =~~= seq![GrammarView::Ref { name: "SingleIdentifierGrammar"@, optional: false }]);
    let g2: Vec<Grammar> = vec![Grammar::reference("ObjectReferenceTerminatorGrammar")];
    assert(views(g2@) =~~= seq![GrammarView::Ref { name: "ObjectReferenceTerminatorGrammar"@, optional: false }]);
    let g3 = Grammar::delimited_with(g1, false, Some(Grammar::reference("ObjectReferenceDelimiterGrammar")), g2, false);
    Element::Node { kind: "trigger_reference", grammar: g3 }
}

/// The ANSI element `TableConstraintSegment`.
pub open spec fn table_constraint_segment_element() -> ElementView {
    ElementView::Node { kind: "table_constraint"@, grammar: GrammarView::Sequence { elements: seq![GrammarView::Optional { grammar: Box::new(GrammarView::Sequence { elements: seq![GrammarView::Keyword { word: "CONSTRAINT"@ }, GrammarView::Ref { name: "ObjectReferenceSegment"@, optional: false }], terminators: seq![], parse_mode: ParseMode::Strict }) }, GrammarView::OneOf { elements: seq![GrammarView::Sequence { elements: seq![GrammarView::Keyword { word: "UNIQUE"@ }, GrammarView::Ref { name: "BracketedColumnReferenceListGrammar"@, optional: false }], terminators: seq![], parse_mode: ParseMode::Strict }, GrammarView::Sequence { elements: seq![GrammarView::Ref { name: "PrimaryKeyGrammar"@, optional: false }, GrammarView::Ref { name: "BracketedColumnReferenceListGrammar"@, optional: false }], terminators: seq![], parse_mode: ParseMode::Strict }, GrammarView::Sequence { elements: seq![GrammarView::Ref { name: "ForeignKeyGrammar"@, optional: false }, GrammarView::Ref { name: "BracketedColumnReferenceListGrammar"@, optional: false }, GrammarView::Ref { name: "ReferenceDefinitionGrammar"@, optional: false }], terminators: seq![], parse_mode: ParseMode::Strict }], terminators: seq![] }], terminators: seq![], parse_mode: ParseMode::Strict } }
}

fn build_table_constraint_segment() -> (e: Element)
    ensures
        e@ =~~= table_constraint_segment_element(),
{
    let g1: Vec<Grammar> = vec![Grammar::keyword("CONSTRAINT"), Grammar::reference("ObjectReferenceSegment")];
    assert(views(g1@) =~~= seq![GrammarView::Keyword { word: "CONSTRAINT"@ }, GrammarView::Ref { name: "ObjectReferenceSegment"@, optional: false }]);
    let g2: Vec<Grammar> = Vec::new();
    assert(views(g2@) =~= Seq::<GrammarView>::empty());
    let g3 = Grammar::sequence_with(g1, g2, ParseMode::Strict);
    let g4 = g3.optional();
    let g5: Vec<Grammar> = vec![Grammar::keyword("UNIQUE"), Grammar::reference("BracketedColumnReferenceListGrammar")];
    assert(views(g5@) =~~= seq![GrammarView::Keyword { word: "UNIQUE"@ }, GrammarView::Ref { name: "BracketedColumnReferenceListGrammar"@, optional: false }]);
    let g6: Vec<Grammar> = Vec::new();
    assert(views(g6@) =~= Seq::<GrammarView>::empty());
    let g7 = Grammar::sequence_with(g5, g6, ParseMode::Strict);
    let g8: Vec<Grammar> = vec![Grammar::reference("PrimaryKeyGrammar"), Grammar::reference("BracketedColumnReferenceListGrammar")];
    assert(views(g8@) =~~= seq![GrammarView::Ref { name: "PrimaryKeyGrammar"@, optional: false }, GrammarView::Ref { name: "BracketedColumnReferenceListGrammar"@, optional: false }]);
    let g9: Vec<Grammar> = Vec::new();
    assert(views(g9@) =~= Seq::<GrammarView>::empty());
    let g10 = Grammar::sequence_with(g8, g9, ParseMode::Strict);
    let g11: Vec<Grammar> = vec![Grammar::reference("ForeignKeyGrammar"), Grammar::reference("BracketedColumnReferenceListGrammar"), Grammar::reference("ReferenceDefinitionGrammar")];
    assert(views(g11@) =~~= seq![GrammarView::Ref { name: "ForeignKeyGrammar"@, optional: false }, GrammarView::Ref { name: "BracketedColumnReferenceListGrammar"@, optional: false }, GrammarView::Ref { name: "ReferenceDefinitionGrammar"@, optional: false }]);
    let g12: Vec<Grammar> = Vec::new();
    assert(views(g12@) =~= Seq::<GrammarView>::empty());
    let g13 = Grammar::sequence_with(g11, g12, ParseMode::Strict);
    let g14: Vec<Grammar> = vec![g7, g10, g13];
    assert(views(g14@) =~~= seq![GrammarView::Sequence { elements: seq![GrammarView::Keyword { word: "UNIQUE"@ }, GrammarView::Ref { name: "BracketedColumnReferenceListGrammar"@, optional: false }], terminators: seq![], parse_mode: ParseMode::Strict }, GrammarView::Sequence { elements: seq![GrammarView::Ref { name: "PrimaryKeyGrammar"@, optional: false }, GrammarView::Ref { name: "BracketedColumnReferenceListGrammar"@, optional: false }], terminators: seq![], parse_mode: ParseMode::Strict }, GrammarView::Sequence { elements: seq![GrammarView::Ref { name: "ForeignKeyGrammar"@, optional: false }, GrammarView::Ref { name: "BracketedColumnReferenceListGrammar"@, optional: false }, GrammarView::Ref { name: "ReferenceDefinitionGrammar"@, optional: false }], terminators: seq![], parse_mode: ParseMode::Strict }]);
    let g15: Vec<Grammar> = Vec::new();
    assert(views(g15@) =~= Seq::<GrammarView>::empty());
    let g16 = Grammar::one_of_with(g14, g15);
    let g17: Vec<Grammar> = vec![g4, g16];
    assert(views(g17@) =~~= seq![GrammarView::Optional { grammar: Box::new(GrammarView::Sequence { elements: seq![GrammarView::Keyword { word: "CONSTRAINT"@ }, GrammarView::Ref { name: "ObjectReferenceSegment"@, optional: false }], terminators: seq![], parse_mode: ParseMode::Strict }) }, GrammarView::OneOf { elements: seq![GrammarView::Sequence { elements: seq![GrammarView::Keyword { word: "UNIQUE"@ }, GrammarView::Ref { name: "BracketedColumnReferenceListGrammar"@, optional: false }], terminators: seq![], parse_mode: ParseMode::Strict }, GrammarView::Sequence { elements: seq![GrammarView::Ref { name: "PrimaryKeyGrammar"@, optional: false }, GrammarView::Ref { name: "BracketedColumnReferenceListGrammar"@, optional: false }], terminators: seq![], parse_mode: ParseMode::Strict }, GrammarView::Sequence { elements: seq![GrammarView::Ref { name: "ForeignKeyGrammar"@, optional: false }, GrammarView::Ref { name: "BracketedColumnReferenceListGrammar"@, optional: false }, GrammarView::Ref { name: "ReferenceDefinitionGrammar"@, optional: false }], terminators: seq![], parse_mode: ParseMode::Strict }], terminators: seq![] }]);
    let g18: Vec<Grammar> = Vec::new();
    assert(views(g18@) =~= Seq::<GrammarView>::empty());
    let g19 = Grammar::sequence_with(g17, g18, ParseMode::Strict);
    Element::Node { kind: "table_constraint", grammar: g19 }
}

/// The ANSI element `JoinOnConditionSegment`.
pub open spec fn join_on_condition_segment_element() -> ElementView {
    ElementView::Node { kind: "join_on_condition"@, grammar: GrammarView::Sequence { elements: seq![GrammarView::Keyword { word: "ON"@ }, GrammarView::Conditional { meta: Box::new(GrammarView::ImplicitIndent), setting: "indented_on_contents"@ }, GrammarView::OneOf { elements: seq![GrammarView::Bracketed { elements: seq![GrammarView::Ref { name: "ExpressionSegment"@, optional: false }], bracket_type: "round"@ }, GrammarView::Ref { name: "ExpressionSegment"@, optional: false }], terminators: seq![] }, GrammarView::Conditional { meta: Box::new(GrammarView::Dedent), setting: "indented_on_contents"@ }], terminators: seq![], parse_mode: ParseMode::Strict } }
}

fn build_join_on_condition_segment() -> (e: Element)
    ensures
        e@ =~~= join_on_condition_segment_element(),
{
    let g1 = Grammar::conditional(Grammar::implicit_indent(), "indented_on_contents");
    let g2: Vec<Grammar> = vec![Grammar::reference("ExpressionSegment")];
    assert(views(g2@) =~~= seq![GrammarView::Ref { name: "ExpressionSegment"@, optional: false }]);
    let g3 = Grammar::bracketed_with(g2, "round");
    let g4: Vec<Grammar> = vec![g3, Grammar::reference("ExpressionSegment")];
    assert(views(g4@) =~~= seq![GrammarView::Bracketed { elements: seq![GrammarView::Ref { name: "ExpressionSegment"@, optional: false }], bracket_type: "round"@ }, GrammarView::Ref { name: "ExpressionSegment"@, optional: false }]);
    let g5: Vec<Grammar> = Vec::new();
    assert(views(g5@) =~= Seq::<GrammarView>::empty());
    let g6 = Grammar::one_of_with(g4, g5);
    let g7 = Grammar::conditional(Grammar::dedent(), "indented_on_contents");
    let g8: Vec<Grammar> = vec![Grammar::keyword("ON"), g1, g6, g7];
    assert(views(g8@) =~~= seq![GrammarView::Keyword { word: "ON"@ }, GrammarView::Conditional { meta: Box::new(GrammarView::ImplicitIndent), setting: "indented_on_contents"@ }, GrammarView::OneOf { elements: seq![GrammarView::Bracketed { elements: seq![GrammarView::Ref { name: "ExpressionSegment"@, optional: false }], bracket_type: "round"@ }, GrammarView::Ref { name: "ExpressionSegment"@, optional: false }], terminators: seq![] }, GrammarView::Conditional { meta: Box::new(GrammarView::Dedent), setting: "indented_on_contents"@ }]);
    let g9: Vec<Grammar> = Vec::new();
    assert(views(g9@) =~= Seq::<GrammarView>::empty());
    let g10 = Grammar::sequence_with(g8, g9, ParseMode::Strict);
    Element::Node { kind: "join_on_condition", grammar: g10 }
}

/// The ANSI element `DatabaseReferenceSegment`.
pub open spec fn database_reference_segment_element() -> ElementView {
    ElementView::Node { kind: "database_reference"@, grammar: GrammarView::Delimited { elements: seq![GrammarView::Ref { name: "SingleIdentifierGrammar"@, optional: false }], allow_trailing: false, delimiter: Some(Box::new(GrammarView::Ref { name: "ObjectReferenceDelimiterGrammar"@, optional: false })), terminators: seq![GrammarView::Ref { name: "ObjectReferenceTerminatorGrammar"@, optional: false }], allow_gaps: false } }
}

fn build_database_reference_segment() -> (e: Element)
    ensures
        e@ =~~= database_reference_segment_element(),
{
    let g1: Vec<Grammar> = vec![Grammar::reference("SingleIdentifierGrammar")];
    assert(views(g1@) =~~= seq![GrammarView::Ref { name: "SingleIdentifierGrammar"@, optional: false }]);
    let g2: Vec<Grammar> = vec![Grammar::reference("ObjectReferenceTerminatorGrammar")];
    assert(views(g2@) =~~= seq![GrammarView::Ref { name: "ObjectReferenceTerminatorGrammar"@, optional: false }]);
    let g3 = Grammar::delimited_with(g1, false, Some(Grammar::reference("ObjectReferenceDelimiterGrammar")), g2, false);
    Element::Node { kind: "database_reference", grammar: g3 }
}

/// The ANSI element `IndexReferenceSegment`.
pub open spec fn index_reference_segment_element() -> ElementView {
    ElementView::Node { kind: "database_reference"@, grammar: GrammarView::Delimited { elements: seq![GrammarView::Ref { name: "SingleIdentifierGrammar"@, optional: false }], allow_trailing: false, delimiter: Some(Box::new(GrammarView::Ref { name: "ObjectReferenceDelimiterGrammar"@, optional: false })), terminators: seq![GrammarView::Ref { name: "ObjectReferenceTerminatorGrammar"@, optional: false }], allow_gaps: false } }
}

fn build_index_reference_segment() -> (e: Element)
    ensures
        e@ =~~= index_reference_segment_element(),
{
    let g1: Vec<Grammar> = vec![Grammar::reference("SingleIdentifierGrammar")];
    assert(views(g1@) =~~= seq![GrammarView::Ref { name: "SingleIdentifierGrammar"@, optional: false }]);
    let g2: Vec<Grammar> = vec![Grammar::reference("ObjectReferenceTerminatorGrammar")];
    assert(views(g2@) =~~= seq![GrammarView::Ref { name: "ObjectReferenceTerminatorGrammar"@, optional: false }]);
    let g3 = Grammar::delimited_with(g1, false, Some(Grammar::reference("ObjectReferenceDelimiterGrammar")), g2, false);
    Element::Node { kind: "database_reference", grammar: g3 }
}

/// The ANSI element `CollationReferenceSegment`.
pub open spec fn collation_reference_segment_element() -> ElementView {
    ElementView::Node { kind: "collation_reference"@, grammar: GrammarView::OneOf { elements: seq![GrammarView::Ref { name: "QuotedLiteralSegment"@, optional: false }, GrammarView::Delimited { elements: seq![GrammarView::Ref { name: "SingleIdentifierGrammar"@, optional: false }], allow_trailing: false, delimiter: Some(Box::new(GrammarView::Ref { name: "ObjectReferenceDelimiterGrammar"@, optional: false })), terminators: seq![GrammarView::Ref { name: "ObjectReferenceTerminatorGrammar"@, optional: false }], allow_gaps: false }], terminators: seq![] } }
}

fn build_collation_reference_segment() -> (e: Element)
    ensures
        e@ =~~= collation_reference_segment_element(),
{
    let g1: Vec<Grammar> = vec![Grammar::reference("SingleIdentifierGrammar")];
    assert(views(g1@) =~~= seq![GrammarView::Ref { name: "SingleIdentifierGrammar"@, optional: false }]);
    let g2: Vec<Grammar> = vec![Grammar::reference("ObjectReferenceTerminatorGrammar")];
    assert(views(g2@) =~~= seq![GrammarView::Ref { name: "ObjectReferenceTerminatorGrammar"@, optional: false }]);
    let g3 = Grammar::delimited_with(g1, false, Some(Grammar::reference("ObjectReferenceDelimiterGrammar")), g2, false);
    let g4: Vec<Grammar> = vec![Grammar::reference("QuotedLiteralSegment"), g3];
    assert(views(g4@) =~~= seq![GrammarView::Ref { name: "QuotedLiteralSegment"@, optional: false }, GrammarView::Delimited { elements: seq![GrammarView::Ref { name: "SingleIdentifierGrammar"@, optional: false }], allow_trailing: false, delimiter: Some(Box::new(GrammarView::Ref { name: "ObjectReferenceDelimiterGrammar"@, optional: false })), terminators: seq![GrammarView::Ref { name: "ObjectReferenceTerminatorGrammar"@, optional: false }], allow_gaps: false }]);
    let g5: Vec<Grammar> = Vec::new();
    assert(views(g5@) =~= Seq::<GrammarView>::empty());
    let g6 = Grammar::one_of_with(g4, g5);
    Element::Node { kind: "collation_reference", grammar: g6 }
}

/// The ANSI element `OverClauseSegment`.
pub open spec fn over_clause_segment_element() -> ElementView {
    ElementView::Node { kind: "over_clause"@, grammar: GrammarView::Sequence { elements: seq![GrammarView::Indent, GrammarView::Ref { name: "IgnoreRespectNullsGrammar"@, optional: true }, GrammarView::Keyword { word: "OVER"@ }, GrammarView::OneOf { elements: seq![GrammarView::Ref { name: "SingleIdentifierGrammar"@, optional: false }, GrammarView::InMode { grammar: Box::new(GrammarView::Bracketed { elements: seq![GrammarView::Ref { name: "WindowSpecificationSegment"@, optional: true }], bracket_type: "round"@ }), parse_mode: ParseMode::Greedy }], terminators: seq![] }, GrammarView::Dedent], terminators: seq![], parse_mode: ParseMode::Strict } }
}

fn build_over_clause_segment() -> (e: Element)
    ensures
        e@ =~~= over_clause_segment_element(),
{
    let g1: Vec<Grammar> = vec![Grammar::optional_reference("WindowSpecificationSegment")];
    assert(views(g1@) =~~= seq![GrammarView::Ref { name: "WindowSpecificationSegment"@, optional: true }]);
    let g2 = Grammar::bracketed_with(g1, "round");
    let g3 = g2.in_mode(ParseMode::Greedy);
    let g4: Vec<Grammar> = vec![Grammar::reference("SingleIdentifierGrammar"), g3];
    assert(views(g4@) =~~= seq![GrammarView::Ref { name: "SingleIdentifierGrammar"@, optional: false }, GrammarView::InMode { grammar: Box::new(GrammarView::Bracketed { elements: seq![GrammarView::Ref { name: "WindowSpecificationSegment"@, optional: true }], bracket_type: "round"@ }), parse_mode: ParseMode::Greedy }]);
    let g5: Vec<Grammar> = Vec::new();
    assert(views(g5@) =~= Seq::<GrammarView>::empty());
    let g6 = Grammar::one_of_with(g4, g5);
    let g7: Vec<Grammar> = vec![Grammar::indent(), Grammar::optional_reference("IgnoreRespectNullsGrammar"), Grammar::keyword("OVER"), g6, Grammar::dedent()];
    assert(views(g7@) =~~= seq![GrammarView::Indent, GrammarView::Ref { name: "IgnoreRespectNullsGrammar"@, optional: true }, GrammarView::Keyword { word: "OVER"@ }, GrammarView::OneOf { elements: seq![GrammarView::Ref { name: "SingleIdentifierGrammar"@, optional: false }, GrammarView::InMode { grammar: Box::new(GrammarView::Bracketed { elements: seq![GrammarView::Ref { name: "WindowSpecificationSegment"@, optional: true }], bracket_type: "round"@ }), parse_mode: ParseMode::Greedy }], terminators: seq![] }, GrammarView::Dedent]);
    let g8: Vec<Grammar> = Vec::new();
    assert(views(g8@) =~= Seq::<GrammarView>::empty());
    let g9 = Grammar::sequence_with(g7, g8, ParseMode::Strict);
    Element::Node { kind: "over_clause", grammar: g9 }
}

/// The ANSI element `NamedWindowSegment`.
pub open spec fn named_window_segment_element() -> ElementView {
    ElementView::Node { kind: "named_window"@, grammar: GrammarView::Sequence { elements: seq![GrammarView::Keyword { word: "WINDOW"@ }, GrammarView::Indent, GrammarView::Delimited { elements: seq![GrammarView::Ref { name: "NamedWindowExpressionSegment"@, optional: false }], allow_trailing: false, delimiter: None, terminators: seq![], allow_gaps: true }, GrammarView::Dedent], terminators: seq![], parse_mode: ParseMode::Strict } }
}

fn build_named_window_segment() -> (e: Element)
    ensures
        e@ =~~= named_window_segment_element(),
{
    let g1: Vec<Grammar> = vec![Grammar::reference("NamedWindowExpressionSegment")];
    assert(views(g1@) =~~= seq![GrammarView::Ref { name: "NamedWindowExpressionSegment"@, optional: false }]);
    let g2: Vec<Grammar> = Vec::new();
    assert(views(g2@) =~= Seq::<GrammarView>::empty());
    let g3 = Grammar::delimited_with(g1, false, None, g2, true);
    let g4: Vec<Grammar> = vec![Grammar::keyword("WINDOW"), Grammar::indent(), g3, Grammar::dedent()];
    assert(views(g4@) =~~= seq![GrammarView::Keyword { word: "WINDOW"@ }, GrammarView::Indent, GrammarView::Delimited { elements: seq![GrammarView::Ref { name: "NamedWindowExpressionSegment"@, optional: false }], allow_trailing: false, delimiter: None, terminators: seq![], allow_gaps: true }, GrammarView::Dedent]);
    let g5: Vec<Grammar> = Vec::new();
    assert(views(g5@) =~= Seq::<GrammarView>::empty());
    let g6 = Grammar::sequence_with(g4, g5, ParseMode::Strict);
    Element::Node { kind: "named_window", grammar: g6 }
}

/// The ANSI element `WindowSpecificationSegment`.
pub open spec fn window_specification_segment_element() -> ElementView {
    ElementView::Node { kind: "window_specification"@, grammar: GrammarView::Optional { grammar: Box::new(GrammarView::Sequence { elements: seq![GrammarView::Exclude { grammar: Box::new(GrammarView::Ref { name: "SingleIdentifierGrammar"@, optional: true }), exclude: Box::new(GrammarView::OneOf { elements: seq![GrammarView::Keyword { word: "PARTITION"@ }, GrammarView::Keyword { word: "ORDER"@ }], terminators: seq![] }) }, GrammarView::Ref { name: "PartitionClauseSegment"@, optional: true }, GrammarView::Ref { name: "OrderByClauseSegment"@, optional: true }, GrammarView::Ref { name: "FrameClauseSegment"@, optional: true }], terminators: seq![], parse_mode: ParseMode::Strict }) } }
}

fn build_window_specification_segment() -> (e: Element)
    ensures
        e@ =~~= window_specification_segment_element(),
{
    let g1: Vec<Grammar> = vec![Grammar::keyword("PARTITION"), Grammar::keyword("ORDER")];
    assert(views(g1@) =~~= seq![GrammarView::Keyword { word: "PARTITION"@ }, GrammarView::Keyword { word: "ORDER"@ }]);
    let g2: Vec<Grammar> = Vec::new();
    assert(views(g2@) =~= Seq::<GrammarView>::empty());
    let g3 = Grammar::one_of_with(g1, g2);
    let g4 = Grammar::optional_reference("SingleIdentifierGrammar").exclude(g3);
    let g5: Vec<Grammar> = vec![g4, Grammar::optional_reference("PartitionClauseSegment"), Grammar::optional_reference("OrderByClauseSegment"), Grammar::optional_reference("FrameClauseSegment")];
    assert(views(g5@) =~~= seq![GrammarView::Exclude { grammar: Box::new(GrammarView::Ref { name: "SingleIdentifierGrammar"@, optional: true }), exclude: Box::new(GrammarView::OneOf { elements: seq![GrammarView::Keyword { word: "PARTITION"@ }, GrammarView::Keyword { word: "ORDER"@ }], terminators: seq![] }) }, GrammarView::Ref { name: "PartitionClauseSegment"@, optional: true }, GrammarView::Ref { name: "OrderByClauseSegment"@, optional: true }, GrammarView::Ref { name: "FrameClauseSegment"@, optional: true }]);
    let g6: Vec<Grammar> = Vec::new();
    assert(views(g6@) =~= Seq::<GrammarView>::empty());
    let g7 = Grammar::sequence_with(g5, g6, ParseMode::Strict);
    let g8 = g7.optional();
    Element::Node { kind: "window_specification", grammar: g8 }
}

/// The ANSI element `PartitionClauseSegment`.
pub open spec fn partition_clause_segment_element() -> ElementView {
    ElementView::Node { kind: "partitionby_clause"@, grammar: GrammarView::Sequence { elements: seq![GrammarView::Keyword { word: "PARTITION"@ }, GrammarView::Keyword { word: "BY"@ }, GrammarView::Indent, GrammarView::OneOf { elements: seq![GrammarView::Bracketed { elements: seq![GrammarView::Delimited { elements: seq![GrammarView::Ref { name: "ExpressionSegment"@, optional: false }], allow_trailing: false, delimiter: None, terminators: seq![], allow_gaps: true }], bracket_type: "round"@ }, GrammarView::Delimited { elements: seq![GrammarView::Ref { name: "ExpressionSegment"@, optional: false }], allow_trailing: false, delimiter: None, terminators: seq![], allow_gaps: true }], terminators: seq![] }, GrammarView::Dedent], terminators: seq![], parse_mode: ParseMode::Strict } }
}

fn build_partition_clause_segment() -> (e: Element)
    ensures
        e@ =~~= partition_clause_segment_element(),
{
    let g1: Vec<Grammar> = vec![Grammar::reference("ExpressionSegment")];
    assert(views(g1@) =~~= seq![GrammarView::Ref { name: "ExpressionSegment"@, optional: false }]);
    let g2: Vec<Grammar> = Vec::new();
    assert(views(g2@) =~= Seq::<GrammarView>::empty());
    let g3 = Grammar::delimited_with(g1, false, None, g2, true);
    let g4: Vec<Grammar> = vec![g3];
    assert(views(g4@) =~~= seq![GrammarView::Delimited { elements: seq![GrammarView::Ref { name: "ExpressionSegment"@, optional: false }], allow_trailing: false, delimiter: None, terminators: seq![], allow_gaps: true }]);
    let g5 = Grammar::bracketed_with(g4, "round");
    let g6: Vec<Grammar> = vec![Grammar::reference("ExpressionSegment")];
    assert(views(g6@) =~~= seq![GrammarView::Ref { name: "ExpressionSegment"@, optional: false }]);
    let g7: Vec<Grammar> = Vec::new();
    assert(views(g7@) =~= Seq::<GrammarView>::empty());
    let g8 = Grammar::delimited_with(g6, false, None, g7, true);
    let g9: Vec<Grammar> = vec![g5, g8];
    assert(views(g9@) =~~= seq![GrammarView::Bracketed { elements: seq![GrammarView::Delimited { elements: seq![GrammarView::Ref { name: "ExpressionSegment"@, optional: false }], allow_trailing: false, delimiter: None, terminators: seq![], allow_gaps: true }], bracket_type: "round"@ }, GrammarView::Delimited { elements: seq![GrammarView::Ref { name: "ExpressionSegment"@, optional: false }], allow_trailing: false, delimiter: None, terminators: seq![], allow_gaps: true }]);
    let g10: Vec<Grammar> = Vec::new();
    assert(views(g10@) =~= Seq::<GrammarView>::empty());
    let g11 = Grammar::one_of_with(g9, g10);
    let g12: Vec<Grammar> = vec![Grammar::keyword("PARTITION"), Grammar::keyword("BY"), Grammar::indent(), g11, Grammar::dedent()];
    assert(views(g12@) =~~= seq![GrammarView::Keyword { word: "PARTITION"@ }, GrammarView::Keyword { word: "BY"@ }, GrammarView::Indent, GrammarView::OneOf { elements: seq![GrammarView::Bracketed { elements: seq![GrammarView::Delimited { elements: seq![GrammarView::Ref { name: "ExpressionSegment"@, optional: false }], allow_trailing: false, delimiter: None, terminators: seq![], allow_gaps: true }], bracket_type: "round"@ }, GrammarView::Delimited { elements: seq![GrammarView::Ref { name: "ExpressionSegment"@, optional: false }], allow_trailing: false, delimiter: None, terminators: seq![], allow_gaps: true }], terminators: seq![] }, GrammarView::Dedent]);
    let g13: Vec<Grammar> = Vec::new();
    assert(views(g13@) =~= Seq::<GrammarView>::empty());
    let g14 = Grammar::sequence_with(g12, g13, ParseMode::Strict);
    Element::Node { kind: "partitionby_clause", grammar: g14 }
}

/// The ANSI element `JoinClauseSegment`.
pub open spec fn join_clause_segment_element() -> ElementView {
    ElementView::Node { kind: "join_clause"@, grammar: GrammarView::OneOf { elements: seq![GrammarView::Sequence { elements: seq![GrammarView::Ref { name: "JoinTypeKeywordsGrammar"@, optional: true }, GrammarView::Ref { name: "JoinKeywordsGrammar"@, optional: false }, GrammarView::Indent, GrammarView::Ref { name: "FromExpressionElementSegment"@, optional: false }, GrammarView::AnyNumberOf { elements: seq![GrammarView::Ref { name: "NestedJoinGrammar"@, optional: false }], terminators: seq![], min_times: 0, max_times: None }, GrammarView::Dedent, GrammarView::Optional { grammar: Box::new(GrammarView::Sequence { elements: seq![GrammarView::Conditional { meta: Box::new(GrammarView::Indent), setting: "indented_using_on"@ }, GrammarView::OneOf { elements: seq![GrammarView::Ref { name: "JoinOnConditionSegment"@, optional: false }, GrammarView::Sequence { elements: seq![GrammarView::Keyword { word: "USING"@ }, GrammarView::Indent, GrammarView::InMode { grammar: Box::new(GrammarView::Bracketed { elements: seq![GrammarView::Delimited { elements: seq![GrammarView::Ref { name: "SingleIdentifierGrammar"@, optional: false }], allow_trailing: false, delimiter: None, terminators: seq![], allow_gaps: true }], bracket_type: "round"@ }), parse_mode: ParseMode::Greedy }, GrammarView::Dedent], terminators: seq![], parse_mode: ParseMode::Strict }], terminators: seq![] }, GrammarView::Conditional { meta: Box::new(GrammarView::Dedent), setting: "indented_using_on"@ }], terminators: seq![], parse_mode: ParseMode::Strict }) }], terminators: seq![], parse_mode: ParseMode::Strict }, GrammarView::Sequence { elements: seq![GrammarView::Ref { name: "NaturalJoinKeywordsGrammar"@, optional: false }, GrammarView::Ref { name: "JoinKeywordsGrammar"@, optional: false }, GrammarView::Indent, GrammarView::Ref { name: "FromExpressionElementSegment"@, optional: false }, GrammarView::Dedent], terminators: seq![], parse_mode: ParseMode::Strict }, GrammarView::Sequence { elements: seq![GrammarView::Ref { name: "ExtendedNaturalJoinKeywordsGrammar"@, optional: false }, GrammarView::Indent, GrammarView::Ref { name: "FromExpressionElementSegment"@, optional: false }, GrammarView::Dedent], terminators: seq![], parse_mode: ParseMode::Strict }], terminators: seq![] } }
}

fn build_join_clause_segment() -> (e: Element)
    ensures
        e@ =~~= join_clause_segment_element(),
{
    let g1: Vec<Grammar> = vec![Grammar::reference("NestedJoinGrammar")];
    assert(views(g1@) =~~= seq![GrammarView::Ref { name: "NestedJoinGrammar"@, optional: false }]);
    let g2: Vec<Grammar> = Vec::new();
    assert(views(g2@) =~= Seq::<GrammarView>::empty());
    let g3 = Grammar::any_number_of_with(g1, g2, 0, None);
    let g4 = Grammar::conditional(Grammar::indent(), "indented_using_on");
    let g5: Vec<Grammar> = vec![Grammar::reference("SingleIdentifierGrammar")];
    assert(views(g5@) =~~= seq![GrammarView::Ref { name: "SingleIdentifierGrammar"@, optional: false }]);
    let g6: Vec<Grammar> = Vec::new();
    assert(views(g6@) =~= Seq::<GrammarView>::empty());
    let g7 = Grammar::delimited_with(g5, false, None, g6, true);
    let g8: Vec<Grammar> = vec![g7];
    assert(views(g8@) =~~= seq![GrammarView::Delimited { elements: seq![GrammarView::Ref { name: "SingleIdentifierGrammar"@, optional: false }], allow_trailing: false, delimiter: None, terminators: seq![], allow_gaps: true }]);
    let g9 = Grammar::bracketed_with(g8, "round");
    let g10 = g9.in_mode(ParseMode::Greedy);
    let g11: Vec<Grammar> = vec![Grammar::keyword("USING"), Grammar::indent(), g10, Grammar::dedent()];
    assert(views(g11@) =~~= seq![GrammarView::Keyword { word: "USING"@ }, GrammarView::Indent, GrammarView::InMode { grammar: Box::new(GrammarView::Bracketed { elements: seq![GrammarView::Delimited { elements: seq![GrammarView::Ref { name: "SingleIdentifierGrammar"@, optional: false }], allow_trailing: false, delimiter: None, terminators: seq![], allow_gaps: true }], bracket_type: "round"@ }), parse_mode: ParseMode::Greedy }, GrammarView::Dedent]);
    let g12: Vec<Grammar> = Vec::new();
    assert(views(g12@) =~= Seq::<GrammarView>::empty());
    let g13 = Grammar::sequence_with(g11, g12, ParseMode::Strict);
    let g14: Vec<Grammar> = vec![Grammar::reference("JoinOnConditionSegment"), g13];
    assert(views(g14@) =~~= seq![GrammarView::Ref { name: "JoinOnConditionSegment"@, optional: false }, GrammarView::Sequence { elements: seq![GrammarView::Keyword { word: "USING"@ }, GrammarView::Indent, GrammarView::InMode { grammar: Box::new(GrammarView::Bracketed { elements: seq![GrammarView::Delimited { elements: seq![GrammarView::Ref { name: "SingleIdentifierGrammar"@, optional: false }], allow_trailing: false, delimiter: None, terminators: seq![], allow_gaps: true }], bracket_type: "round"@ }), parse_mode: ParseMode::Greedy }, GrammarView::Dedent], terminators: seq![], parse_mode: ParseMode::Strict }]);
    let g15: Vec<Grammar> = Vec::new();
    assert(views(g15@) =~= Seq::<GrammarView>::empty());
    let g16 = Grammar::one_of_with(g14, g15);
    let g17 = Grammar::conditional(Grammar::dedent(), "indented_using_on");
    let g18: Vec<Grammar> = vec![g4, g16, g17];
    assert(views(g18@) =~~= seq![GrammarView::Conditional { meta: Box::new(GrammarView::Indent), setting: "indented_using_on"@ }, GrammarView::OneOf { elements: seq![GrammarView::Ref { name: "JoinOnConditionSegment"@, optional: false }, GrammarView::Sequence { elements: seq![GrammarView::Keyword { word: "USING"@ }, GrammarView::Indent, GrammarView::InMode { grammar: Box::new(GrammarView::Bracketed { elements: seq![GrammarView::Delimited { elements: seq![GrammarView::Ref { name: "SingleIdentifierGrammar"@, optional: false }], allow_trailing: false, delimiter: None, terminators: seq![], allow_gaps: true }], bracket_type: "round"@ }), parse_mode: ParseMode::Greedy }, GrammarView::Dedent], terminators: seq![], parse_mode: ParseMode::Strict }], terminators: seq![] }, GrammarView::Conditional { meta: Box::new(GrammarView::Dedent), setting: "indented_using_on"@ }]);
    let g19: Vec<Grammar> = Vec::new();
    assert(views(g19@) =~= Seq::<GrammarView>::empty());
    let g20 = Grammar::sequence_with(g18, g19, ParseMode::Strict);
    let g21 = g20.optional();
    let g22: Vec<Grammar> = vec![Grammar::optional_reference("JoinTypeKeywordsGrammar"), Grammar::reference("JoinKeywordsGrammar"), Grammar::indent(), Grammar::reference("FromExpressionElementSegment"), g3, Grammar::dedent(), g21];
    assert(views(g22@) =~~= seq![GrammarView::Ref { name: "JoinTypeKeywordsGrammar"@, optional: true }, GrammarView::Ref { name: "JoinKeywordsGrammar"@, optional: false }, GrammarView::Indent, GrammarView::Ref { name: "FromExpressionElementSegment"@, optional: false }, GrammarView::AnyNumberOf { elements: seq![GrammarView::Ref { name: "NestedJoinGrammar"@, optional: false }], terminators: seq![], min_times: 0, max_times: None }, GrammarView::Dedent, GrammarView::Optional { grammar: Box::new(GrammarView::Sequence { elements: seq![GrammarView::Conditional { meta: Box::new(GrammarView::Indent), setting: "indented_using_on"@ }, GrammarView::OneOf { elements: seq![GrammarView::Ref { name: "JoinOnConditionSegment"@, optional: false }, GrammarView::Sequence { elements: seq![GrammarView::Keyword { word: "USING"@ }, GrammarView::Indent, GrammarView::InMode { grammar: Box::new(GrammarView::Bracketed { elements: seq![GrammarView::Delimited { elements: seq![GrammarView::Ref { name: "SingleIdentifierGrammar"@, optional: false }], allow_trailing: false, delimiter: None, terminators: seq![], allow_gaps: true }], bracket_type: "round"@ }), parse_mode: ParseMode::Greedy }, GrammarView::Dedent], terminators: seq![], parse_mode: ParseMode::Strict }], terminators: seq![] }, GrammarView::Conditional { meta: Box::new(GrammarView::Dedent), setting: "indented_using_on"@ }], terminators: seq![], parse_mode: ParseMode::Strict }) }]);
    let g23: Vec<Grammar> = Vec::new();
    assert(views(g23@) =~= Seq::<GrammarView>::empty());
    let g24 = Grammar::sequence_with(g22, g23, ParseMode::Strict);
    let g25: Vec<Grammar> = vec![Grammar::reference("NaturalJoinKeywordsGrammar"), Grammar::reference("JoinKeywordsGrammar"), Grammar::indent(), Grammar::reference("FromExpressionElementSegment"), Grammar::dedent()];
    assert(views(g25@) =~~= seq![GrammarView::Ref { name: "NaturalJoinKeywordsGrammar"@, optional: false }, GrammarView::Ref { name: "JoinKeywordsGrammar"@, optional: false }, GrammarView::Indent, GrammarView::Ref { name: "FromExpressionElementSegment"@, optional: false }, GrammarView::Dedent]);
    let g26: Vec<Grammar> = Vec::new();
    assert(views(g26@) =~= Seq::<GrammarView>::empty());
    let g27 = Grammar::sequence_with(g25, g26, ParseMode::Strict);
    let g28: Vec<Grammar> = vec![Grammar::reference("ExtendedNaturalJoinKeywordsGrammar"), Grammar::indent(), Grammar::reference("FromExpressionElementSegment"), Grammar::dedent()];
    assert(views(g28@) =~~= seq![GrammarView::Ref { name: "ExtendedNaturalJoinKeywordsGrammar"@, optional: false }, GrammarView::Indent, GrammarView::Ref { name: "FromExpressionElementSegment"@, optional: false }, GrammarView::Dedent]);
    let g29: Vec<Grammar> = Vec::new();
    assert(views(g29@) =~= Seq::<GrammarView>::empty());
    let g30 = Grammar::sequence_with(g28, g29, ParseMode::Strict);
    let g31: Vec<Grammar> = vec![g24, g27, g30];
    assert(views(g31@) =~~= seq![GrammarView::Sequence { elements: seq![GrammarView::Ref { name: "JoinTypeKeywordsGrammar"@, optional: true }, GrammarView::Ref { name: "JoinKeywordsGrammar"@, optional: false }, GrammarView::Indent, GrammarView::Ref { name: "FromExpressionElementSegment"@, optional: false }, GrammarView::AnyNumberOf { elements: seq![GrammarView::Ref { name: "NestedJoinGrammar"@, optional: false }], terminators: seq![], min_times: 0, max_times: None }, GrammarView::Dedent, GrammarView::Optional { grammar: Box::new(GrammarView::Sequence { elements: seq![GrammarView::Conditional { meta: Box::new(GrammarView::Indent), setting: "indented_using_on"@ }, GrammarView::OneOf { elements: seq![GrammarView::Ref { name: "JoinOnConditionSegment"@, optional: false }, GrammarView::Sequence { elements: seq![GrammarView::Keyword { word: "USING"@ }, GrammarView::Indent, GrammarView::InMode { grammar: Box::new(GrammarView::Bracketed { elements: seq![GrammarView::Delimited { elements: seq![GrammarView::Ref { name: "SingleIdentifierGrammar"@, optional: false }], allow_trailing: false, delimiter: None, terminators: seq![], allow_gaps: true }], bracket_type: "round"@ }), parse_mode: ParseMode::Greedy }, GrammarView::Dedent], terminators: seq![], parse_mode: ParseMode::Strict }], terminators: seq![] }, GrammarView::Conditional { meta: Box::new(GrammarView::Dedent), setting: "indented_using_on"@ }], terminators: seq![], parse_mode: ParseMode::Strict }) }], terminators: seq![], parse_mode: ParseMode::Strict }, GrammarView::Sequence { elements: seq![GrammarView::Ref { name: "NaturalJoinKeywordsGrammar"@, optional: false }, GrammarView::Ref { name: "JoinKeywordsGrammar"@, optional: false }, GrammarView::Indent, GrammarView::Ref { name: "FromExpressionElementSegment"@, optional: false }, GrammarView::Dedent], terminators: seq![], parse_mode: ParseMode::Strict }, GrammarView::Sequence { elements: seq![GrammarView::Ref { name: "ExtendedNaturalJoinKeywordsGrammar"@, optional: false }, GrammarView::Indent, GrammarView::Ref { name: "FromExpressionElementSegment"@, optional: false }, GrammarView::Dedent], terminators: seq![], parse_mode: ParseMode::Strict }]);
    let g32: Vec<Grammar> = Vec::new();
    assert(views(g32@) =~= Seq::<GrammarView>::empty());
    let g33 = Grammar::one_of_with(g31, g32);
    Element::Node { kind: "join_clause", grammar: g33 }
}

/// The ANSI element `DropTriggerStatementSegment`.
pub open spec fn drop_trigger_statement_segment_element() -> ElementView {
    ElementView::Node { kind: "drop_trigger_statement"@, grammar: GrammarView::Sequence { elements: seq![GrammarView::Keyword { word: "DROP"@ }, GrammarView::Keyword { word: "TRIGGER"@ }, GrammarView::Ref { name: "IfExistsGrammar"@, optional: true }, GrammarView::Ref { name: "TriggerReferenceSegment"@, optional: false }], terminators: seq![], parse_mode: ParseMode::Strict } }
}

fn build_drop_trigger_statement_segment() -> (e: Element)
    ensures
        e@ =~~= drop_trigger_statement_segment_element(),
{
    let g1: Vec<Grammar> = vec![Grammar::keyword("DROP"), Grammar::keyword("TRIGGER"), Grammar::optional_reference("IfExistsGrammar"), Grammar::reference("TriggerReferenceSegment")];
    assert(views(g1@) =~~= seq![GrammarView::Keyword { word: "DROP"@ }, GrammarView::Keyword { word: "TRIGGER"@ }, GrammarView::Ref { name: "IfExistsGrammar"@, optional: true }, GrammarView::Ref { name: "TriggerReferenceSegment"@, optional: false }]);
    let g2: Vec<Grammar> = Vec::new();
    assert(views(g2@) =~= Seq::<GrammarView>::empty());
    let g3 = Grammar::sequence_with(g1, g2, ParseMode::Strict);
    Element::Node { kind: "drop_trigger_statement", grammar: g3 }
}

/// The ANSI element `SamplingExpressionSegment`.
pub open spec fn sampling_expression_segment_element() -> ElementView {
    ElementView::Node { kind: "sample_expression"@, grammar: GrammarView::Sequence { elements: seq![GrammarView::Keyword { word: "TABLESAMPLE"@ }, GrammarView::OneOf { elements: seq![GrammarView::Keyword { word: "BERNOULLI"@ }, GrammarView::Keyword { word: "SYSTEM"@ }], terminators: seq![] }, GrammarView::Bracketed { elements: seq![GrammarView::Ref { name: "NumericLiteralSegment"@, optional: false }], bracket_type: "round"@ }, GrammarView::Optional { grammar: Box::new(GrammarView::Sequence { elements: seq![GrammarView::Keyword { word: "REPEATABLE"@ }, GrammarView::Bracketed { elements: seq![GrammarView::Ref { name: "NumericLiteralSegment"@, optional: false }], bracket_type: "round"@ }], terminators: seq![], parse_mode: ParseMode::Strict }) }], terminators: seq![], parse_mode: ParseMode::Strict } }
}

fn build_sampling_expression_segment() -> (e: Element)
    ensures
        e@ =~~= sampling_expression_segment_element(),
{
    let g1: Vec<Grammar> = vec![Grammar::keyword("BERNOULLI"), Grammar::keyword("SYSTEM")];
    assert(views(g1@) =~~= seq![GrammarView::Keyword { word: "BERNOULLI"@ }, GrammarView::Keyword { word: "SYSTEM"@ }]);
    let g2: Vec<Grammar> = Vec::new();
    assert(views(g2@) =~= Seq::<GrammarView>::empty());
    let g3 = Grammar::one_of_with(g1, g2);
    let g4: Vec<Grammar> = vec![Grammar::reference("NumericLiteralSegment")];
    assert(views(g4@) =~~= seq![GrammarView::Ref { name: "NumericLiteralSegment"@, optional: false }]);
    let g5 = Grammar::bracketed_with(g4, "round");
    let g6: Vec<Grammar> = vec![Grammar::reference("NumericLiteralSegment")];
    assert(views(g6@) =~~= seq![GrammarView::Ref { name: "NumericLiteralSegment"@, optional: false }]);
    let g7 = Grammar::bracketed_with(g6, "round");
    let g8: Vec<Grammar> = vec![Grammar::keyword("REPEATABLE"), g7];
    assert(views(g8@) =~~= seq![GrammarView::Keyword { word: "REPEATABLE"@ }, GrammarView::Bracketed { elements: seq![GrammarView::Ref { name: "NumericLiteralSegment"@, optional: false }], bracket_type: "round"@ }]);
    let g9: Vec<Grammar> = Vec::new();
    assert(views(g9@) =~= Seq::<GrammarView>::empty());
    let g10 = Grammar::sequence_with(g8, g9, ParseMode::Strict);
    let g11 = g10.optional();
    let g12: Vec<Grammar> = vec![Grammar::keyword("TABLESAMPLE"), g3, g5, g11];
    assert(views(g12@) =~~= seq![GrammarView::Keyword { word: "TABLESAMPLE"@ }, GrammarView::OneOf { elements: seq![GrammarView::Keyword { word: "BERNOULLI"@ }, GrammarView::Keyword { word: "SYSTEM"@ }], terminators: seq![] }, GrammarView::Bracketed { elements: seq![GrammarView::Ref { name: "NumericLiteralSegment"@, optional: false }], bracket_type: "round"@ }, GrammarView::Optional { grammar: Box::new(GrammarView::Sequence { elements: seq![GrammarView::Keyword { word: "REPEATABLE"@ }, GrammarView::Bracketed { elements: seq![GrammarView::Ref { name: "NumericLiteralSegment"@, optional: false }], bracket_type: "round"@ }], terminators: seq![], parse_mode: ParseMode::Strict }) }]);
    let g13: Vec<Grammar> = Vec::new();
    assert(views(g13@) =~= Seq::<GrammarView>::empty());
    let g14 = Grammar::sequence_with(g12, g13, ParseMode::Strict);
    Element::Node { kind: "sample_expression", grammar: g14 }
}

/// The ANSI element `TableExpressionSegment`.
pub open spec fn table_expression_segment_element() -> ElementView {
    ElementView::Node { kind: "table_expression"@, grammar: GrammarView::OneOf { elements: seq![GrammarView::Ref { name: "ValuesClauseSegment"@, optional: false }, GrammarView::Ref { name: "BareFunctionSegment"@, optional: false }, GrammarView::Ref { name: "FunctionSegment"@, optional: false }, GrammarView::Ref { name: "TableReferenceSegment"@, optional: false }, GrammarView::Bracketed { elements: seq![GrammarView::Ref { name: "SelectableGrammar"@, optional: false }], bracket_type: "round"@ }, GrammarView::Bracketed { elements: seq![GrammarView::Ref { name: "MergeStatementSegment"@, optional: false }], bracket_type: "round"@ }], terminators: seq![] } }
}

fn build_table_expression_segment() -> (e: Element)
    ensures
        e@ =~~= table_expression_segment_element(),
{
    let g1: Vec<Grammar> = vec![Grammar::reference("SelectableGrammar")];
    assert(views(g1@) =~~= seq![GrammarView::Ref { name: "SelectableGrammar"@, optional: false }]);
    let g2 = Grammar::bracketed_with(g1, "round");
    let g3: Vec<Grammar> = vec![Grammar::reference("MergeStatementSegment")];
    assert(views(g3@) =~~= seq![GrammarView::Ref { name: "MergeStatementSegment"@, optional: false }]);
    let g4 = Grammar::bracketed_with(g3, "round");
    let g5: Vec<Grammar> = vec![Grammar::reference("ValuesClauseSegment"), Grammar::reference("BareFunctionSegment"), Grammar::reference("FunctionSegment"), Grammar::reference("TableReferenceSegment"), g2, g4];
    assert(views(g5@) =~~= seq![GrammarView::Ref { name: "ValuesClauseSegment"@, optional: false }, GrammarView::Ref { name: "BareFunctionSegment"@, optional: false }, GrammarView::Ref { name: "FunctionSegment"@, optional: false }, GrammarView::Ref { name: "TableReferenceSegment"@, optional: false }, GrammarView::Bracketed { elements: seq![GrammarView::Ref { name: "SelectableGrammar"@, optional: false }], bracket_type: "round"@ }, GrammarView::Bracketed { elements: seq![GrammarView::Ref { name: "MergeStatementSegment"@, optional: false }], bracket_type: "round"@ }]);
    let g6: Vec<Grammar> = Vec::new();
    assert(views(g6@) =~= Seq::<GrammarView>::empty());
    let g7 = Grammar::one_of_with(g5, g6);
    Element::Node { kind: "table_expression", grammar: g7 }
}

/// The ANSI element `DropTriggerStatementSegment`.
pub open spec fn drop_trigger_statement_segment_2_element() -> ElementView {
    ElementView::Node { kind: "drop_trigger_statement"@, grammar: GrammarView::Sequence { elements: seq![GrammarView::Keyword { word: "DROP"@ }, GrammarView::Keyword { word: "TRIGGER"@ }, GrammarView::Ref { name: "IfExistsGrammar"@, optional: true }, GrammarView::Ref { name: "TriggerReferenceSegment"@, optional: false }], terminators: seq![], parse_mode: ParseMode::Strict } }
}

fn build_drop_trigger_statement_segment_2() -> (e: Element)
    ensures
        e@ =~~= drop_trigger_statement_segment_2_element(),
{
    let g1: Vec<Grammar> = vec![Grammar::keyword("DROP"), Grammar::keyword("TRIGGER"), Grammar::optional_reference("IfExistsGrammar"), Grammar::reference("TriggerReferenceSegment")];
    assert(views(g1@) =~~= seq![GrammarView::Keyword { word: "DROP"@ }, GrammarView::Keyword { word: "TRIGGER"@ }, GrammarView::Ref { name: "IfExistsGrammar"@, optional: true }, GrammarView::Ref { name: "TriggerReferenceSegment"@, optional: false }]);
    let g2: Vec<Grammar> = Vec::new();
    assert(views(g2@) =~= Seq::<GrammarView>::empty());
    let g3 = Grammar::sequence_with(g1, g2, ParseMode::Strict);
    Element::Node { kind: "drop_trigger_statement", grammar: g3 }
}

/// The ANSI element `SamplingExpressionSegment`.
pub open spec fn sampling_expression_segment_2_element() -> ElementView {
    ElementView::Node { kind: "sample_expression"@, grammar: GrammarView::Sequence { elements: seq![GrammarView::Keyword { word: "TABLESAMPLE"@ }, GrammarView::OneOf { elements: seq![GrammarView::Keyword { word: "BERNOULLI"@ }, GrammarView::Keyword { word: "SYSTEM"@ }], terminators: seq![] }, GrammarView::Bracketed { elements: seq![GrammarView::Ref { name: "NumericLiteralSegment"@, optional: false }], bracket_type: "round"@ }, GrammarView::Optional { grammar: Box::new(GrammarView::Sequence { elements: seq![GrammarView::Keyword { word: "REPEATABLE"@ }, GrammarView::Bracketed { elements: seq![GrammarView::Ref { name: "NumericLiteralSegment"@, optional: false }], bracket_type: "round"@ }], terminators: seq![], parse_mode: ParseMode::Strict }) }], terminators: seq![], parse_mode: ParseMode::Strict } }
}

fn build_sampling_expression_segment_2() -> (e: Element)
    ensures
        e@ =~~= sampling_expression_segment_2_element(),
{
    let g1: Vec<Grammar> = vec![Grammar::keyword("BERNOULLI"), Grammar::keyword("SYSTEM")];
    assert(views(g1@) =~~= seq![GrammarView::Keyword { word: "BERNOULLI"@ }, GrammarView::Keyword { word: "SYSTEM"@ }]);
    let g2: Vec<Grammar> = Vec::new();
    assert(views(g2@) =~= Seq::<GrammarView>::empty());
    let g3 = Grammar::one_of_with(g1, g2);
    let g4: Vec<Grammar> = vec![Grammar::reference("NumericLiteralSegment")];
    assert(views(g4@) =~~= seq![GrammarView::Ref { name: "NumericLiteralSegment"@, optional: false }]);
    let g5 = Grammar::bracketed_with(g4, "round");
    let g6: Vec<Grammar> = vec![Grammar::reference("NumericLiteralSegment")];
    assert(views(g6@) =~~= seq![GrammarView::Ref { name: "NumericLiteralSegment"@, optional: false }]);
    let g7 = Grammar::bracketed_with(g6, "round");
    let g8: Vec<Grammar> = vec![Grammar::keyword("REPEATABLE"), g7];
    assert(views(g8@) =~~= seq![GrammarView::Keyword { word: "REPEATABLE"@ }, GrammarView::Bracketed { elements: seq![GrammarView::Ref { name: "NumericLiteralSegment"@, optional: false }], bracket_type: "round"@ }]);
    let g9: Vec<Grammar> = Vec::new();
    assert(views(g9@) =~= Seq::<GrammarView>::empty());
    let g10 = Grammar::sequence_with(g8, g9, ParseMode::Strict);
    let g11 = g10.optional();
    let g12: Vec<Grammar> = vec![Grammar::keyword("TABLESAMPLE"), g3, g5, g11];
    assert(views(g12@) =~~= seq![GrammarView::Keyword { word: "TABLESAMPLE"@ }, GrammarView::OneOf { elements: seq![GrammarView::Keyword { word: "BERNOULLI"@ }, GrammarView::Keyword { word: "SYSTEM"@ }], terminators: seq![] }, GrammarView::Bracketed { elements: seq![GrammarView::Ref { name: "NumericLiteralSegment"@, optional: false }], bracket_type: "round"@ }, GrammarView::Optional { grammar: Box::new(GrammarView::Sequence { elements: seq![GrammarView::Keyword { word: "REPEATABLE"@ }, GrammarView::Bracketed { elements: seq![GrammarView::Ref { name: "NumericLiteralSegment"@, optional: false }], bracket_type: "round"@ }], terminators: seq![], parse_mode: ParseMode::Strict }) }]);
    let g13: Vec<Grammar> = Vec::new();
    assert(views(g13@) =~= Seq::<GrammarView>::empty());
    let g14 = Grammar::sequence_with(g12, g13, ParseMode::Strict);
    Element::Node { kind: "sample_expression", grammar: g14 }
}

/// The ANSI element `TableExpressionSegment`.
pub open spec fn table_expression_segment_2_element() -> ElementView {
    ElementView::Node { kind: "table_expression"@, grammar: GrammarView::OneOf { elements: seq![GrammarView::Ref { name: "ValuesClauseSegment"@, optional: false }, GrammarView::Ref { name: "BareFunctionSegment"@, optional: false }, GrammarView::Ref { name: "FunctionSegment"@, optional: false }, GrammarView::Ref { name: "TableReferenceSegment"@, optional: false }, GrammarView::Bracketed { elements: seq![GrammarView::Ref { name: "SelectableGrammar"@, optional: false }], bracket_type: "round"@ }, GrammarView::Bracketed { elements: seq![GrammarView::Ref { name: "MergeStatementSegment"@, optional: false }], bracket_type: "round"@ }], terminators: seq![] } }
}

fn build_table_expression_segment_2() -> (e: Element)
    ensures
        e@ =~~= table_expression_segment_2_element(),
{
    let g1: Vec<Grammar> = vec![Grammar::reference("SelectableGrammar")];
    assert(views(g1@) =~~= seq![GrammarView::Ref { name: "SelectableGrammar"@, optional: false }]);
    let g2 = Grammar::bracketed_with(g1, "round");
    let g3: Vec<Grammar> = vec![Grammar::reference("MergeStatementSegment")];
    assert(views(g3@) =~~= seq![GrammarView::Ref { name: "MergeStatementSegment"@, optional: false }]);
    let g4 = Grammar::bracketed_with(g3, "round");
    let g5: Vec<Grammar> = vec![Grammar::reference("ValuesClauseSegment"), Grammar::reference("BareFunctionSegment"), Grammar::reference("FunctionSegment"), Grammar::reference("TableReferenceSegment"), g2, g4];
    assert(views(g5@) =~~= seq![GrammarView::Ref { name: "ValuesClauseSegment"@, optional: false }, GrammarView::Ref { name: "BareFunctionSegment"@, optional: false }, GrammarView::Ref { name: "FunctionSegment"@, optional: false }, GrammarView::Ref { name: "TableReferenceSegment"@, optional: false }, GrammarView::Bracketed { elements: seq![GrammarView::Ref { name: "SelectableGrammar"@, optional: false }], bracket_type: "round"@ }, GrammarView::Bracketed { elements: seq![GrammarView::Ref { name: "MergeStatementSegment"@, optional: false }], bracket_type: "round"@ }]);
    let g6: Vec<Grammar> = Vec::new();
    assert(views(g6@) =~= Seq::<GrammarView>::empty());
    let g7 = Grammar::one_of_with(g5, g6);
    Element::Node { kind: "table_expression", grammar: g7 }
}

/// The ANSI element `CreateTriggerStatementSegment`.
pub open spec fn create_trigger_statement_segment_element() -> ElementView {
    ElementView::Node { kind: "create_trigger_statement"@, grammar: GrammarView::Sequence { elements: seq![GrammarView::Keyword { word: "CREATE"@ }, GrammarView::Keyword { word: "TRIGGER"@ }, GrammarView::Ref { name: "TriggerReferenceSegment"@, optional: false }, GrammarView::Optional { grammar: Box::new(GrammarView::OneOf { elements: seq![GrammarView::Keyword { word: "BEFORE"@ }, GrammarView::Keyword { word: "AFTER"@ }, GrammarView::Sequence { elements: seq![GrammarView::Keyword { word: "INSTEAD"@ }, GrammarView::Keyword { word: "OF"@ }], terminators: seq![], parse_mode: ParseMode::Strict }], terminators: seq![] }) }, GrammarView::Delimited { elements: seq![GrammarView::Keyword { word: "INSERT"@ }, GrammarView::Keyword { word: "DELETE"@ }, GrammarView::Sequence { elements: seq![GrammarView::Keyword { word: "UPDATE"@ }, GrammarView::Keyword { word: "OF"@ }, GrammarView::Delimited { elements: seq![GrammarView::Ref { name: "ColumnReferenceSegment"@, optional: false }], allow_trailing: false, delimiter: None, terminators: seq![], allow_gaps: true }], terminators: seq![], parse_mode: ParseMode::Strict }], allow_trailing: false, delimiter: Some(Box::new(GrammarView::Keyword { word: "OR"@ })), terminators: seq![], allow_gaps: true }, GrammarView::Keyword { word: "ON"@ }, GrammarView::Ref { name: "TableReferenceSegment"@, optional: false }, GrammarView::AnyNumberOf { elements: seq![GrammarView::Sequence { elements: seq![GrammarView::Keyword { word: "REFERENCING"@ }, GrammarView::Keyword { word: "OLD"@ }, GrammarView::Keyword { word: "ROW"@ }, GrammarView::Keyword { word: "AS"@ }, GrammarView::Ref { name: "ParameterNameSegment"@, optional: false }, GrammarView::Keyword { word: "NEW"@ }, GrammarView::Keyword { word: "ROW"@ }, GrammarView::Keyword { word: "AS"@ }, GrammarView::Ref { name: "ParameterNameSegment"@, optional: false }], terminators: seq![], parse_mode: ParseMode::Strict }, GrammarView::Sequence { elements: seq![GrammarView::Keyword { word: "FROM"@ }, GrammarView::Ref { name: "TableReferenceSegment"@, optional: false }], terminators: seq![], parse_mode: ParseMode::Strict }, GrammarView::OneOf { elements: seq![GrammarView::Sequence { elements: seq![GrammarView::Keyword { word: "NOT"@ }, GrammarView::Keyword { word: "DEFERRABLE"@ }], terminators: seq![], parse_mode: ParseMode::Strict }, GrammarView::Sequence { elements: seq![GrammarView::Optional { grammar: Box::new(GrammarView::Keyword { word: "DEFERRABLE"@ }) }, GrammarView::OneOf { elements: seq![GrammarView::Sequence { elements: seq![GrammarView::Keyword { word: "INITIALLY"@ }, GrammarView::Keyword { word: "IMMEDIATE"@ }], terminators: seq![], parse_mode: ParseMode::Strict }, GrammarView::Sequence { elements: seq![GrammarView::Keyword { word: "INITIALLY"@ }, GrammarView::Keyword { word: "DEFERRED"@ }], terminators: seq![], parse_mode: ParseMode::Strict }], terminators: seq![] }], terminators: seq![], parse_mode: ParseMode::Strict }], terminators: seq![] }, GrammarView::Sequence { elements: seq![GrammarView::Keyword { word: "FOR"@ }, GrammarView::Optional { grammar: Box::new(GrammarView::Keyword { word: "EACH"@ }) }, GrammarView::OneOf { elements: seq![GrammarView::Keyword { word: "ROW"@ }, GrammarView::Keyword { word: "STATEMENT"@ }], terminators: seq![] }], terminators: seq![], parse_mode: ParseMode::Strict }, GrammarView::Sequence { elements: seq![GrammarView::Keyword { word: "WHEN"@ }, GrammarView::Bracketed { elements: seq![GrammarView::Ref { name: "ExpressionSegment"@, optional: false }], bracket_type: "round"@ }], terminators: seq![], parse_mode: ParseMode::Strict }], terminators: seq![], min_times: 0, max_times: None }, GrammarView::Optional { grammar: Box::new(GrammarView::Sequence { elements: seq![GrammarView::Keyword { word: "EXECUTE"@ }, GrammarView::Keyword { word: "PROCEDURE"@ }, GrammarView::Ref { name: "FunctionNameIdentifierSegment"@, optional: false }, GrammarView::Ref { name: "FunctionContentsSegment"@, optional: false }], terminators: seq![], parse_mode: ParseMode::Strict }) }], terminators: seq![], parse_mode: ParseMode::Strict } }
}

#[verifier::rlimit(100)]
fn build_create_trigger_statement_segment() -> (e: Element)
    ensures
        e@ =~~= create_trigger_statement_segment_element(),
{
    let g1: Vec<Grammar> = vec![Grammar::keyword("INSTEAD"), Grammar::keyword("OF")];
    assert(views(g1@) =~~= seq![GrammarView::Keyword { word: "INSTEAD"@ }, GrammarView::Keyword { word: "OF"@ }]);
    let g2: Vec<Grammar> = Vec::new();
    assert(views(g2@) =~= Seq::<GrammarView>::empty());
    let g3 = Grammar::sequence_with(g1, g2, ParseMode::Strict);
    let g4: Vec<Grammar> = vec![Grammar::keyword("BEFORE"), Grammar::keyword("AFTER"), g3];
    assert(views(g4@) =~~= seq![GrammarView::Keyword { word: "BEFORE"@ }, GrammarView::Keyword { word: "AFTER"@ }, GrammarView::Sequence { elements: seq![GrammarView::Keyword { word: "INSTEAD"@ }, GrammarView::Keyword { word: "OF"@ }], terminators: seq![], parse_mode: ParseMode::Strict }]);
    let g5: Vec<Grammar> = Vec::new();
    assert(views(g5@) =~= Seq::<GrammarView>::empty());
    let g6 = Grammar::one_of_with(g4, g5);
    let g7 = g6.optional();
    let g8: Vec<Grammar> = vec![Grammar::reference("ColumnReferenceSegment")];
    assert(views(g8@) =~~= seq![GrammarView::Ref { name: "ColumnReferenceSegment"@, optional: false }]);
    let g9: Vec<Grammar> = Vec::new();
    assert(views(g9@) =~= Seq::<GrammarView>::empty());
    let g10 = Grammar::delimited_with(g8, false, None, g9, true);
    let g11: Vec<Grammar> = vec![Grammar::keyword("UPDATE"), Grammar::keyword("OF"), g10];
    assert(views(g11@) =~~= seq![GrammarView::Keyword { word: "UPDATE"@ }, GrammarView::Keyword { word: "OF"@ }, GrammarView::Delimited { elements: seq![GrammarView::Ref { name: "ColumnReferenceSegment"@, optional: false }], allow_trailing: false, delimiter: None, terminators: seq![], allow_gaps: true }]);
    let g12: Vec<Grammar> = Vec::new();
    assert(views(g12@) =~= Seq::<GrammarView>::empty());
    let g13 = Grammar::sequence_with(g11, g12, ParseMode::Strict);
    let g14: Vec<Grammar> = vec![Grammar::keyword("INSERT"), Grammar::keyword("DELETE"), g13];
    assert(views(g14@) =~~= seq![GrammarView::Keyword { word: "INSERT"@ }, GrammarView::Keyword { word: "DELETE"@ }, GrammarView::Sequence { elements: seq![GrammarView::Keyword { word: "UPDATE"@ }, GrammarView::Keyword { word: "OF"@ }, GrammarView::Delimited { elements: seq![GrammarView::Ref { name: "ColumnReferenceSegment"@, optional: false }], allow_trailing: false, delimiter: None, terminators: seq![], allow_gaps: true }], terminators: seq![], parse_mode: ParseMode::Strict }]);
    let g15: Vec<Grammar> = Vec::new();
    assert(views(g15@) =~= Seq::<GrammarView>::empty());
    let g16 = Grammar::delimited_with(g14, false, Some(Grammar::keyword("OR")), g15, true);
    let g17: Vec<Grammar> = vec![Grammar::keyword("REFERENCING"), Grammar::keyword("OLD"), Grammar::keyword("ROW"), Grammar::keyword("AS"), Grammar::reference("ParameterNameSegment"), Grammar::keyword("NEW"), Grammar::keyword("ROW"), Grammar::keyword("AS"), Grammar::reference("ParameterNameSegment")];
    assert(views(g17@) =~~= seq![GrammarView::Keyword { word: "REFERENCING"@ }, GrammarView::Keyword { word: "OLD"@ }, GrammarView::Keyword { word: "ROW"@ }, GrammarView::Keyword { word: "AS"@ }, GrammarView::Ref { name: "ParameterNameSegment"@, optional: false }, GrammarView::Keyword { word: "NEW"@ }, GrammarView::Keyword { word: "ROW"@ }, GrammarView::Keyword { word: "AS"@ }, GrammarView::Ref { name: "ParameterNameSegment"@, optional: false }]);
    let g18: Vec<Grammar> = Vec::new();
    assert(views(g18@) =~= Seq::<GrammarView>::empty());
    let g19 = Grammar::sequence_with(g17, g18, ParseMode::Strict);
    let g20: Vec<Grammar> = vec![Grammar::keyword("FROM"), Grammar::reference("TableReferenceSegment")];
    assert(views(g20@) =~~= seq![GrammarView::Keyword { word: "FROM"@ }, GrammarView::Ref { name: "TableReferenceSegment"@, optional: false }]);
    let g21: Vec<Grammar> = Vec::new();
    assert(views(g21@) =~= Seq::<GrammarView>::empty());
    let g22 = Grammar::sequence_with(g20, g21, ParseMode::Strict);
    let g23: Vec<Grammar> = vec![Grammar::keyword("NOT"), Grammar::keyword("DEFERRABLE")];
    assert(views(g23@) =~~= seq![GrammarView::Keyword { word: "NOT"@ }, GrammarView::Keyword { word: "DEFERRABLE"@ }]);
    let g24: Vec<Grammar> = Vec::new();
    assert(views(g24@) =~= Seq::<GrammarView>::empty());
    let g25 = Grammar::sequence_with(g23, g24, ParseMode::Strict);
    let g26 = Grammar::keyword("DEFERRABLE").optional();
    let g27: Vec<Grammar> = vec![Grammar::keyword("INITIALLY"), Grammar::keyword("IMMEDIATE")];
    assert(views(g27@) =~~= seq![GrammarView::Keyword { word: "INITIALLY"@ }, GrammarView::Keyword { word: "IMMEDIATE"@ }]);
    let g28: Vec<Grammar> = Vec::new();
    assert(views(g28@) =~= Seq::<GrammarView>::empty());
    let g29 = Grammar::sequence_with(g27, g28, ParseMode::Strict);
    let g30: Vec<Grammar> = vec![Grammar::keyword("INITIALLY"), Grammar::keyword("DEFERRED")];
    assert(views(g30@) =~~= seq![GrammarView::Keyword { word: "INITIALLY"@ }, GrammarView::Keyword { word: "DEFERRED"@ }]);
    let g31: Vec<Grammar> = Vec::new();
    assert(views(g31@) =~= Seq::<GrammarView>::empty());
    let g32 = Grammar::sequence_with(g30, g31, ParseMode::Strict);
    let g33: Vec<Grammar> = vec![g29, g32];
    assert(views(g33@) =~~= seq![GrammarView::Sequence { elements: seq![GrammarView::Keyword { word: "INITIALLY"@ }, GrammarView::Keyword { word: "IMMEDIATE"@ }], terminators: seq![], parse_mode: ParseMode::Strict }, GrammarView::Sequence { elements: seq![GrammarView::Keyword { word: "INITIALLY"@ }, GrammarView::Keyword { word: "DEFERRED"@ }], terminators: seq![], parse_mode: ParseMode::Strict }]);
    let g34: Vec<Grammar> = Vec::new();
    assert(views(g34@) =~= Seq::<GrammarView>::empty());
    let g35 = Grammar::one_of_with(g33, g34);
    let g36: Vec<Grammar> = vec![g26, g35];
    assert(views(g36@) =~~= seq![GrammarView::Optional { grammar: Box::new(GrammarView::Keyword { word: "DEFERRABLE"@ }) }, GrammarView::OneOf { elements: seq![GrammarView::Sequence { elements: seq![GrammarView::Keyword { word: "INITIALLY"@ }, GrammarView::Keyword { word: "IMMEDIATE"@ }], terminators: seq![], parse_mode: ParseMode::Strict }, GrammarView::Sequence { elements: seq![GrammarView::Keyword { word: "INITIALLY"@ }, GrammarView::Keyword { word: "DEFERRED"@ }], terminators: seq![], parse_mode: ParseMode::Strict }], terminators: seq![] }]);
    let g37: Vec<Grammar> = Vec::new();
    assert(views(g37@) =~= Seq::<GrammarView>::empty());
    let g38 = Grammar::sequence_with(g36, g37, ParseMode::Strict);
    let g39: Vec<Grammar> = vec![g25, g38];
    assert(views(g39@) =~~= seq![GrammarView::Sequence { elements: seq![GrammarView::Keyword { word: "NOT"@ }, GrammarView::Keyword { word: "DEFERRABLE"@ }], terminators: seq![], parse_mode: ParseMode::Strict }, GrammarView::Sequence { elements: seq![GrammarView::Optional { grammar: Box::new(GrammarView::Keyword { word: "DEFERRABLE"@ }) }, GrammarView::OneOf { elements: seq![GrammarView::Sequence { elements: seq![GrammarView::Keyword { word: "INITIALLY"@ }, GrammarView::Keyword { word: "IMMEDIATE"@ }], terminators: seq![], parse_mode: ParseMode::Strict }, GrammarView::Sequence { elements: seq![GrammarView::Keyword { word: "INITIALLY"@ }, GrammarView::Keyword { word: "DEFERRED"@ }], terminators: seq![], parse_mode: ParseMode::Strict }], terminators: seq![] }], terminators: seq![], parse_mode: ParseMode::Strict }]);
    let g40: Vec<Grammar> = Vec::new();
    assert(views(g40@) =~= Seq::<GrammarView>::empty());
    let g41 = Grammar::one_of_with(g39, g40);
    let g42 = Grammar::keyword("EACH").optional();
    let g43: Vec<Grammar> = vec![Grammar::keyword("ROW"), Grammar::keyword("STATEMENT")];
    assert(views(g43@) =~~= seq![GrammarView::Keyword { word: "ROW"@ }, GrammarView::Keyword { word: "STATEMENT"@ }]);
    let g44: Vec<Grammar> = Vec::new();
    assert(views(g44@) =~= Seq::<GrammarView>::empty());
    let g45 = Grammar::one_of_with(g43, g44);
    let g46: Vec<Grammar> = vec![Grammar::keyword("FOR"), g42, g45];
    assert(views(g46@) =~~= seq![GrammarView::Keyword { word: "FOR"@ }, GrammarView::Optional { grammar: Box::new(GrammarView::Keyword { word: "EACH"@ }) }, GrammarView::OneOf { elements: seq![GrammarView::Keyword { word: "ROW"@ }, GrammarView::Keyword { word: "STATEMENT"@ }], terminators: seq![] }]);
    let g47: Vec<Grammar> = Vec::new();
    assert(views(g47@) =~= Seq::<GrammarView>::empty());
    let g48 = Grammar::sequence_with(g46, g47, ParseMode::Strict);
    let g49: Vec<Grammar> = vec![Grammar::reference("ExpressionSegment")];
    assert(views(g49@) =~~= seq![GrammarView::Ref { name: "ExpressionSegment"@, optional: false }]);
    let g50 = Grammar::bracketed_with(g49, "round");
    let g51: Vec<Grammar> = vec![Grammar::keyword("WHEN"), g50];
    assert(views(g51@) =~~= seq![GrammarView::Keyword { word: "WHEN"@ }, GrammarView::Bracketed { elements: seq![GrammarView::Ref { name: "ExpressionSegment"@, optional: false }], bracket_type: "round"@ }]);
    let g52: Vec<Grammar> = Vec::new();
    assert(views(g52@) =~= Seq::<GrammarView>::empty());
    let g53 = Grammar::sequence_with(g51, g52, ParseMode::Strict);
    let g54: Vec<Grammar> = vec![g19, g22, g41, g48, g53];
    assert(views(g54@) =~~= seq![GrammarView::Sequence { elements: seq![GrammarView::Keyword { word: "REFERENCING"@ }, GrammarView::Keyword { word: "OLD"@ }, GrammarView::Keyword { word: "ROW"@ }, GrammarView::Keyword { word: "AS"@ }, GrammarView::Ref { name: "ParameterNameSegment"@, optional: false }, GrammarView::Keyword { word: "NEW"@ }, GrammarView::Keyword { word: "ROW"@ }, GrammarView::Keyword { word: "AS"@ }, GrammarView::Ref { name: "ParameterNameSegment"@, optional: false }], terminators: seq![], parse_mode: ParseMode::Strict }, GrammarView::Sequence { elements: seq![GrammarView::Keyword { word: "FROM"@ }, GrammarView::Ref { name: "TableReferenceSegment"@, optional: false }], terminators: seq![], parse_mode: ParseMode::Strict }, GrammarView::OneOf { elements: seq![GrammarView::Sequence { elements: seq![GrammarView::Keyword { word: "NOT"@ }, GrammarView::Keyword { word: "DEFERRABLE"@ }], terminators: seq![], parse_mode: ParseMode::Strict }, GrammarView::Sequence { elements: seq![GrammarView::Optional { grammar: Box::new(GrammarView::Keyword { word: "DEFERRABLE"@ }) }, GrammarView::OneOf { elements: seq![GrammarView::Sequence { elements: seq![GrammarView::Keyword { word: "INITIALLY"@ }, GrammarView::Keyword { word: "IMMEDIATE"@ }], terminators: seq![], parse_mode: ParseMode::Strict }, GrammarView::Sequence { elements: seq![GrammarView::Keyword { word: "INITIALLY"@ }, GrammarView::Keyword { word: "DEFERRED"@ }], terminators: seq![], parse_mode: ParseMode::Strict }], terminators: seq![] }], terminators: seq![], parse_mode: ParseMode::Strict }], terminators: seq![] }, GrammarView::Sequence { elements: seq![GrammarView::Keyword { word: "FOR"@ }, GrammarView::Optional { grammar: Box::new(GrammarView::Keyword { word: "EACH"@ }) }, GrammarView::OneOf { elements: seq![GrammarView::Keyword { word: "ROW"@ }, GrammarView::Keyword { word: "STATEMENT"@ }], terminators: seq![] }], terminators: seq![], parse_mode: ParseMode::Strict }, GrammarView::Sequence { elements: seq![GrammarView::Keyword { word: "WHEN"@ }, GrammarView::Bracketed { elements: seq![GrammarView::Ref { name: "ExpressionSegment"@, optional: false }], bracket_type: "round"@ }], terminators: seq![], parse_mode: ParseMode::Strict }]);
    let g55: Vec<Grammar> = Vec::new();
    assert(views(g55@) =~= Seq::<GrammarView>::empty());
    let g56 = Grammar::any_number_of_with(g54, g55, 0, None);
    let g57: Vec<Grammar> = vec![Grammar::keyword("EXECUTE"), Grammar::keyword("PROCEDURE"), Grammar::reference("FunctionNameIdentifierSegment"), Grammar::reference("FunctionContentsSegment")];
    assert(views(g57@) =~~= seq![GrammarView::Keyword { word: "EXECUTE"@ }, GrammarView::Keyword { word: "PROCEDURE"@ }, GrammarView::Ref { name: "FunctionNameIdentifierSegment"@, optional: false }, GrammarView::Ref { name: "FunctionContentsSegment"@, optional: false }]);
    let g58: Vec<Grammar> = Vec::new();
    assert(views(g58@) =~= Seq::<GrammarView>::empty());
    let g59 = Grammar::sequence_with(g57, g58, ParseMode::Strict);
    let g60 = g59.optional();
    let g61: Vec<Grammar> = vec![Grammar::keyword("CREATE"), Grammar::keyword("TRIGGER"), Grammar::reference("TriggerReferenceSegment"), g7, g16, Grammar::keyword("ON"), Grammar::reference("TableReferenceSegment"), g56, g60];
    assert(views(g61@) =~~= seq![GrammarView::Keyword { word: "CREATE"@ }, GrammarView::Keyword { word: "TRIGGER"@ }, GrammarView::Ref { name: "TriggerReferenceSegment"@, optional: false }, GrammarView::Optional { grammar: Box::new(GrammarView::OneOf { elements: seq![GrammarView::Keyword { word: "BEFORE"@ }, GrammarView::Keyword { word: "AFTER"@ }, GrammarView::Sequence { elements: seq![GrammarView::Keyword { word: "INSTEAD"@ }, GrammarView::Keyword { word: "OF"@ }], terminators: seq![], parse_mode: ParseMode::Strict }], terminators: seq![] }) }, GrammarView::Delimited { elements: seq![GrammarView::Keyword { word: "INSERT"@ }, GrammarView::Keyword { word: "DELETE"@ }, GrammarView::Sequence { elements: seq![GrammarView::Keyword { word: "UPDATE"@ }, GrammarView::Keyword { word: "OF"@ }, GrammarView::Delimited { elements: seq![GrammarView::Ref { name: "ColumnReferenceSegment"@, optional: false }], allow_trailing: false, delimiter: None, terminators: seq![], allow_gaps: true }], terminators: seq![], parse_mode: ParseMode::Strict }], allow_trailing: false, delimiter: Some(Box::new(GrammarView::Keyword { word: "OR"@ })), terminators: seq![], allow_gaps: true }, GrammarView::Keyword { word: "ON"@ }, GrammarView::Ref { name: "TableReferenceSegment"@, optional: false }, GrammarView::AnyNumberOf { elements: seq![GrammarView::Sequence { elements: seq![GrammarView::Keyword { word: "REFERENCING"@ }, GrammarView::Keyword { word: "OLD"@ }, GrammarView::Keyword { word: "ROW"@ }, GrammarView::Keyword { word: "AS"@ }, GrammarView::Ref { name: "ParameterNameSegment"@, optional: false }, GrammarView::Keyword { word: "NEW"@ }, GrammarView::Keyword { word: "ROW"@ }, GrammarView::Keyword { word: "AS"@ }, GrammarView::Ref { name: "ParameterNameSegment"@, optional: false }], terminators: seq![], parse_mode: ParseMode::Strict }, GrammarView::Sequence { elements: seq![GrammarView::Keyword { word: "FROM"@ }, GrammarView::Ref { name: "TableReferenceSegment"@, optional: false }], terminators: seq![], parse_mode: ParseMode::Strict }, GrammarView::OneOf { elements: seq![GrammarView::Sequence { elements: seq![GrammarView::Keyword { word: "NOT"@ }, GrammarView::Keyword { word: "DEFERRABLE"@ }], terminators: seq![], parse_mode: ParseMode::Strict }, GrammarView::Sequence { elements: seq![GrammarView::Optional { grammar: Box::new(GrammarView::Keyword { word: "DEFERRABLE"@ }) }, GrammarView::OneOf { elements: seq![GrammarView::Sequence { elements: seq![GrammarView::Keyword { word: "INITIALLY"@ }, GrammarView::Keyword { word: "IMMEDIATE"@ }], terminators: seq![], parse_mode: ParseMode::Strict }, GrammarView::Sequence { elements: seq![GrammarView::Keyword { word: "INITIALLY"@ }, GrammarView::Keyword { word: "DEFERRED"@ }], terminators: seq![], parse_mode: ParseMode::Strict }], terminators: seq![] }], terminators: seq![], parse_mode: ParseMode::Strict }], terminators: seq![] }, GrammarView::Sequence { elements: seq![GrammarView::Keyword { word: "FOR"@ }, GrammarView::Optional { grammar: Box::new(GrammarView::Keyword { word: "EACH"@ }) }, GrammarView::OneOf { elements: seq![GrammarView::Keyword { word: "ROW"@ }, GrammarView::Keyword { word: "STATEMENT"@ }], terminators: seq![] }], terminators: seq![], parse_mode: ParseMode::Strict }, GrammarView::Sequence { elements: seq![GrammarView::Keyword { word: "WHEN"@ }, GrammarView::Bracketed { elements: seq![GrammarView::Ref { name: "ExpressionSegment"@, optional: false }], bracket_type: "round"@ }], terminators: seq![], parse_mode: ParseMode::Strict }], terminators: seq![], min_times: 0, max_times: None }, GrammarView::Optional { grammar: Box::new(GrammarView::Sequence { elements: seq![GrammarView::Keyword { word: "EXECUTE"@ }, GrammarView::Keyword { word: "PROCEDURE"@ }, GrammarView::Ref { name: "FunctionNameIdentifierSegment"@, optional: false }, GrammarView::Ref { name: "FunctionContentsSegment"@, optional: false }], terminators: seq![], parse_mode: ParseMode::Strict }) }]);
    let g62: Vec<Grammar> = Vec::new();
    assert(views(g62@) =~= Seq::<GrammarView>::empty());
    let g63 = Grammar::sequence_with(g61, g62, ParseMode::Strict);
    Element::Node { kind: "create_trigger_statement", grammar: g63 }
}

/// The ANSI element `DropModelStatementSegment`.
pub open spec fn drop_model_statement_segment_element() -> ElementView {
    ElementView::Node { kind: "drop_model_statement"@, grammar: GrammarView::Sequence { elements: seq![GrammarView::Keyword { word: "DROP"@ }, GrammarView::Keyword { word: "MODEL"@ }, GrammarView::Ref { name: "IfExistsGrammar"@, optional: true }, GrammarView::Ref { name: "ObjectReferenceSegment"@, optional: false }], terminators: seq![], parse_mode: ParseMode::Strict } }
}

fn build_drop_model_statement_segment() -> (e: Element)
    ensures
        e@ =~~= drop_model_statement_segment_element(),
{
    let g1: Vec<Grammar> = vec![Grammar::keyword("DROP"), Grammar::keyword("MODEL"), Grammar::optional_reference("IfExistsGrammar"), Grammar::reference("ObjectReferenceSegment")];
    assert(views(g1@) =~~= seq![GrammarView::Keyword { word: "DROP"@ }, GrammarView::Keyword { word: "MODEL"@ }, GrammarView::Ref { name: "IfExistsGrammar"@, optional: true }, GrammarView::Ref { name: "ObjectReferenceSegment"@, optional: false }]);
    let g2: Vec<Grammar> = Vec::new();
    assert(views(g2@) =~= Seq::<GrammarView>::empty());
    let g3 = Grammar::sequence_with(g1, g2, ParseMode::Strict);
    Element::Node { kind: "drop_model_statement", grammar: g3 }
}

/// The ANSI element `DescribeStatementSegment`.
pub open spec fn describe_statement_segment_element() -> ElementView {
    ElementView::Node { kind: "describe_statement"@, grammar: GrammarView::Sequence { elements: seq![GrammarView::Keyword { word: "DESCRIBE"@ }, GrammarView::Ref { name: "NakedIdentifierSegment"@, optional: false }, GrammarView::Ref { name: "ObjectReferenceSegment"@, optional: false }], terminators: seq![], parse_mode: ParseMode::Strict } }
}

fn build_describe_statement_segment() -> (e: Element)
    ensures
        e@ =~~= describe_statement_segment_element(),
{
    let g1: Vec<Grammar> = vec![Grammar::keyword("DESCRIBE"), Grammar::reference("NakedIdentifierSegment"), Grammar::reference("ObjectReferenceSegment")];
    assert(views(g1@) =~~= seq![GrammarView::Keyword { word: "DESCRIBE"@ }, GrammarView::Ref { name: "NakedIdentifierSegment"@, optional: false }, GrammarView::Ref { name: "ObjectReferenceSegment"@, optional: false }]);
    let g2: Vec<Grammar> = Vec::new();
    assert(views(g2@) =~= Seq::<GrammarView>::empty());
    let g3 = Grammar::sequence_with(g1, g2, ParseMode::Strict);
    Element::Node { kind: "describe_statement", grammar: g3 }
}

/// The ANSI element `UseStatementSegment`.
pub open spec fn use_statement_segment_element() -> ElementView {
    ElementView::Node { kind: "use_statement"@, grammar: GrammarView::Sequence { elements: seq![GrammarView::Keyword { word: "USE"@ }, GrammarView::Ref { name: "DatabaseReferenceSegment"@, optional: false }], terminators: seq![], parse_mode: ParseMode::Strict } }
}

fn build_use_statement_segment() -> (e: Element)
    ensures
        e@ =~~= use_statement_segment_element(),
{
    let g1: Vec<Grammar> = vec![Grammar::keyword("USE"), Grammar::reference("DatabaseReferenceSegment")];
    assert(views(g1@) =~~= seq![GrammarView::Keyword { word: "USE"@ }, GrammarView::Ref { name: "DatabaseReferenceSegment"@, optional: false }]);
    let g2: Vec<Grammar> = Vec::new();
    assert(views(g2@) =~= Seq::<GrammarView>::empty());
    let g3 = Grammar::sequence_with(g1, g2, ParseMode::Strict);
    Element::Node { kind: "use_statement", grammar: g3 }
}

/// The ANSI element `ExplainStatementSegment`.
pub open spec fn explain_statement_segment_element() -> ElementView {
    ElementView::Node { kind: "explain_statement"@, grammar: GrammarView::Sequence { elements: seq![GrammarView::Keyword { word: "EXPLAIN"@ }, GrammarView::OneOf { elements: seq![GrammarView::Ref { name: "SelectableGrammar"@, optional: false }, GrammarView::Ref { name: "InsertStatementSegment"@, optional: false }, GrammarView::Ref { name: "UpdateStatementSegment"@, optional: false }, GrammarView::Ref { name: "DeleteStatementSegment"@, optional: false }], terminators: seq![] }], terminators: seq![], parse_mode: ParseMode::Strict } }
}

fn build_explain_statement_segment() -> (e: Element)
    ensures
        e@ =~~= explain_statement_segment_element(),
{
    let g1: Vec<Grammar> = vec![Grammar::reference("SelectableGrammar"), Grammar::reference("InsertStatementSegment"), Grammar::reference("UpdateStatementSegment"), Grammar::reference("DeleteStatementSegment")];
    assert(views(g1@) =~~= seq![GrammarView::Ref { name: "SelectableGrammar"@, optional: false }, GrammarView::Ref { name: "InsertStatementSegment"@, optional: false }, GrammarView::Ref { name: "UpdateStatementSegment"@, optional: false }, GrammarView::Ref { name: "DeleteStatementSegment"@, optional: false }]);
    let g2: Vec<Grammar> = Vec::new();
    assert(views(g2@) =~= Seq::<GrammarView>::empty());
    let g3 = Grammar::one_of_with(g1, g2);
    let g4: Vec<Grammar> = vec![Grammar::keyword("EXPLAIN"), g3];
    assert(views(g4@) =~~= seq![GrammarView::Keyword { word: "EXPLAIN"@ }, GrammarView::OneOf { elements: seq![GrammarView::Ref { name: "SelectableGrammar"@, optional: false }, GrammarView::Ref { name: "InsertStatementSegment"@, optional: false }, GrammarView::Ref { name: "UpdateStatementSegment"@, optional: false }, GrammarView::Ref { name: "DeleteStatementSegment"@, optional: false }], terminators: seq![] }]);
    let g5: Vec<Grammar> = Vec::new();
    assert(views(g5@) =~= Seq::<GrammarView>::empty());
    let g6 = Grammar::sequence_with(g4, g5, ParseMode::Strict);
    Element::Node { kind: "explain_statement", grammar: g6 }
}

/// The ANSI element `CreateSequenceStatementSegment`.
pub open spec fn create_sequence_statement_segment_element() -> ElementView {
    ElementView::Node { kind: "create_sequence_statement"@, grammar: GrammarView::Sequence { elements: seq![GrammarView::Keyword { word: "CREATE"@ }, GrammarView::Keyword { word: "SEQUENCE"@ }, GrammarView::Ref { name: "SequenceReferenceSegment"@, optional: false }, GrammarView::Optional { grammar: Box::new(GrammarView::AnyNumberOf { elements: seq![GrammarView::Ref { name: "CreateSequenceOptionsSegment"@, optional: false }], terminators: seq![], min_times: 0, max_times: None }) }], terminators: seq![], parse_mode: ParseMode::Strict } }
}

fn build_create_sequence_statement_segment() -> (e: Element)
    ensures
        e@ =~~= create_sequence_statement_segment_element(),
{
    let g1: Vec<Grammar> = vec![Grammar::reference("CreateSequenceOptionsSegment")];
    assert(views(g1@) =~~= seq![GrammarView::Ref { name: "CreateSequenceOptionsSegment"@, optional: false }]);
    let g2: Vec<Grammar> = Vec::new();
    assert(views(g2@) =~= Seq::<GrammarView>::empty());
    let g3 = Grammar::any_number_of_with(g1, g2, 0, None);
    let g4 = g3.optional();
    let g5: Vec<Grammar> = vec![Grammar::keyword("CREATE"), Grammar::keyword("SEQUENCE"), Grammar::reference("SequenceReferenceSegment"), g4];
    assert(views(g5@) =~~= seq![GrammarView::Keyword { word: "CREATE"@ }, GrammarView::Keyword { word: "SEQUENCE"@ }, GrammarView::Ref { name: "SequenceReferenceSegment"@, optional: false }, GrammarView::Optional { grammar: Box::new(GrammarView::AnyNumberOf { elements: seq![GrammarView::Ref { name: "CreateSequenceOptionsSegment"@, optional: false }], terminators: seq![], min_times: 0, max_times: None }) }]);
    let g6: Vec<Grammar> = Vec::new();
    assert(views(g6@) =~= Seq::<GrammarView>::empty());
    let g7 = Grammar::sequence_with(g5, g6, ParseMode::Strict);
    Element::Node { kind: "create_sequence_statement", grammar: g7 }
}

/// The ANSI element `CreateSequenceOptionsSegment`.
pub open spec fn create_sequence_options_segment_element() -> ElementView {
    ElementView::Node { kind: "create_sequence_options_segment"@, grammar: GrammarView::OneOf { elements: seq![GrammarView::Sequence { elements: seq![GrammarView::Keyword { word: "INCREMENT"@ }, GrammarView::Keyword { word: "BY"@ }, GrammarView::Ref { name: "NumericLiteralSegment"@, optional: false }], terminators: seq![], parse_mode: ParseMode::Strict }, GrammarView::Sequence { elements: seq![GrammarView::Keyword { word: "START"@ }, GrammarView::Optional { grammar: Box::new(GrammarView::Keyword { word: "WITH"@ }) }, GrammarView::Ref { name: "NumericLiteralSegment"@, optional: false }], terminators: seq![], parse_mode: ParseMode::Strict }, GrammarView::OneOf { elements: seq![GrammarView::Sequence { elements: seq![GrammarView::Keyword { word: "MINVALUE"@ }, GrammarView::Ref { name: "NumericLiteralSegment"@, optional: false }], terminators: seq![], parse_mode: ParseMode::Strict }, GrammarView::Sequence { elements: seq![GrammarView::Keyword { word: "NO"@ }, GrammarView::Keyword { word: "MINVALUE"@ }], terminators: seq![], parse_mode: ParseMode::Strict }], terminators: seq![] }, GrammarView::OneOf { elements: seq![GrammarView::Sequence { elements: seq![GrammarView::Keyword { word: "MAXVALUE"@ }, GrammarView::Ref { name: "NumericLiteralSegment"@, optional: false }], terminators: seq![], parse_mode: ParseMode::Strict }, GrammarView::Sequence { elements: seq![GrammarView::Keyword { word: "NO"@ }, GrammarView::Keyword { word: "MAXVALUE"@ }], terminators: seq![], parse_mode: ParseMode::Strict }], terminators: seq![] }, GrammarView::OneOf { elements: seq![GrammarView::Sequence { elements: seq![GrammarView::Keyword { word: "CACHE"@ }, GrammarView::Ref { name: "NumericLiteralSegment"@, optional: false }], terminators: seq![], parse_mode: ParseMode::Strict }, GrammarView::Keyword { word: "NOCACHE"@ }], terminators: seq![] }, GrammarView::OneOf { elements: seq![GrammarView::Keyword { word: "CYCLE"@ }, GrammarView::Keyword { word: "NOCYCLE"@ }], terminators: seq![] }, GrammarView::OneOf { elements: seq![GrammarView::Keyword { word: "ORDER"@ }, GrammarView::Keyword { word: "NOORDER"@ }], terminators: seq![] }], terminators: seq![] } }
}

#[verifier::rlimit(100)]
fn build_create_sequence_options_segment() -> (e: Element)
    ensures
        e@ =~~= create_sequence_options_segment_element(),
{
    let g1: Vec<Grammar> = vec![Grammar::keyword("INCREMENT"), Grammar::keyword("BY"), Grammar::reference("NumericLiteralSegment")];
    assert(views(g1@) =~~= seq![GrammarView::Keyword { word: "INCREMENT"@ }, GrammarView::Keyword { word: "BY"@ }, GrammarView::Ref { name: "NumericLiteralSegment"@, optional: false }]);
    let g2: Vec<Grammar> = Vec::new();
    assert(views(g2@) =~= Seq::<GrammarView>::empty());
    let g3 = Grammar::sequence_with(g1, g2, ParseMode::Strict);
    let g4 = Grammar::keyword("WITH").optional();
    let g5: Vec<Grammar> = vec![Grammar::keyword("START"), g4, Grammar::reference("NumericLiteralSegment")];
    assert(views(g5@) =~~= seq![GrammarView::Keyword { word: "START"@ }, GrammarView::Optional { grammar: Box::new(GrammarView::Keyword { word: "WITH"@ }) }, GrammarView::Ref { name: "NumericLiteralSegment"@, optional: false }]);
    let g6: Vec<Grammar> = Vec::new();
    assert(views(g6@) =~= Seq::<GrammarView>::empty());
    let g7 = Grammar::sequence_with(g5, g6, ParseMode::Strict);
    let g8: Vec<Grammar> = vec![Grammar::keyword("MINVALUE"), Grammar::reference("NumericLiteralSegment")];
    assert(views(g8@) =~~= seq![GrammarView::Keyword { word: "MINVALUE"@ }, GrammarView::Ref { name: "NumericLiteralSegment"@, optional: false }]);
    let g9: Vec<Grammar> = Vec::new();
    assert(views(g9@) =~= Seq::<GrammarView>::empty());
    let g10 = Grammar::sequence_with(g8, g9, ParseMode::Strict);
    let g11: Vec<Grammar> = vec![Grammar::keyword("NO"), Grammar::keyword("MINVALUE")];
    assert(views(g11@) =~~= seq![GrammarView::Keyword { word: "NO"@ }, GrammarView::Keyword { word: "MINVALUE"@ }]);
    let g12: Vec<Grammar> = Vec::new();
    assert(views(g12@) =~= Seq::<GrammarView>::empty());
    let g13 = Grammar::sequence_with(g11, g12, ParseMode::Strict);
    let g14: Vec<Grammar> = vec![g10, g13];
    assert(views(g14@) =~~= seq![GrammarView::Sequence { elements: seq![GrammarView::Keyword { word: "MINVALUE"@ }, GrammarView::Ref { name: "NumericLiteralSegment"@, optional: false }], terminators: seq![], parse_mode: ParseMode::Strict }, GrammarView::Sequence { elements: seq![GrammarView::Keyword { word: "NO"@ }, GrammarView::Keyword { word: "MINVALUE"@ }], terminators: seq![], parse_mode: ParseMode::Strict }]);
    let g15: Vec<Grammar> = Vec::new();
    assert(views(g15@) =~= Seq::<GrammarView>::empty());
    let g16 = Grammar::one_of_with(g14, g15);
    let g17: Vec<Grammar> = vec![Grammar::keyword("MAXVALUE"), Grammar::reference("NumericLiteralSegment")];
    assert(views(g17@) =~~= seq![GrammarView::Keyword { word: "MAXVALUE"@ }, GrammarView::Ref { name: "NumericLiteralSegment"@, optional: false }]);
    let g18: Vec<Grammar> = Vec::new();
    assert(views(g18@) =~= Seq::<GrammarView>::empty());
    let g19 = Grammar::sequence_with(g17, g18, ParseMode::Strict);
    let g20: Vec<Grammar> = vec![Grammar::keyword("NO"), Grammar::keyword("MAXVALUE")];
    assert(views(g20@) =~~= seq![GrammarView::Keyword { word: "NO"@ }, GrammarView::Keyword { word: "MAXVALUE"@ }]);
    let g21: Vec<Grammar> = Vec::new();
    assert(views(g21@) =~= Seq::<GrammarView>::empty());
    let g22 = Grammar::sequence_with(g20, g21, ParseMode::Strict);
    let g23: Vec<Grammar> = vec![g19, g22];
    assert(views(g23@) =~~= seq![GrammarView::Sequence { elements: seq![GrammarView::Keyword { word: "MAXVALUE"@ }, GrammarView::Ref { name: "NumericLiteralSegment"@, optional: false }], terminators: seq![], parse_mode: ParseMode::Strict }, GrammarView::Sequence { elements: seq![GrammarView::Keyword { word: "NO"@ }, GrammarView::Keyword { word: "MAXVALUE"@ }], terminators: seq![], parse_mode: ParseMode::Strict }]);
    let g24: Vec<Grammar> = Vec::new();
    assert(views(g24@) =~= Seq::<GrammarView>::empty());
    let g25 = Grammar::one_of_with(g23, g24);
    let g26: Vec<Grammar> = vec![Grammar::keyword("CACHE"), Grammar::reference("NumericLiteralSegment")];
    assert(views(g26@) =~~= seq![GrammarView::Keyword { word: "CACHE"@ }, GrammarView::Ref { name: "NumericLiteralSegment"@, optional: false }]);
    let g27: Vec<Grammar> = Vec::new();
    assert(views(g27@) =~= Seq::<GrammarView>::empty());
    let g28 = Grammar::sequence_with(g26, g27, ParseMode::Strict);
    let g29: Vec<Grammar> = vec![g28, Grammar::keyword("NOCACHE")];
    assert(views(g29@) =~~= seq![GrammarView::Sequence { elements: seq![GrammarView::Keyword { word: "CACHE"@ }, GrammarView::Ref { name: "NumericLiteralSegment"@, optional: false }], terminators: seq![], parse_mode: ParseMode::Strict }, GrammarView::Keyword { word: "NOCACHE"@ }]);
    let g30: Vec<Grammar> = Vec::new();
    assert(views(g30@) =~= Seq::<GrammarView>::empty());
    let g31 = Grammar::one_of_with(g29, g30);
    let g32: Vec<Grammar> = vec![Grammar::keyword("CYCLE"), Grammar::keyword("NOCYCLE")];
    assert(views(g32@) =~~= seq![GrammarView::Keyword { word: "CYCLE"@ }, GrammarView::Keyword { word: "NOCYCLE"@ }]);
    let g33: Vec<Grammar> = Vec::new();
    assert(views(g33@) =~= Seq::<GrammarView>::empty());
    let g34 = Grammar::one_of_with(g32, g33);
    let g35: Vec<Grammar> = vec![Grammar::keyword("ORDER"), Grammar::keyword("NOORDER")];
    assert(views(g35@) =~~= seq![GrammarView::Keyword { word: "ORDER"@ }, GrammarView::Keyword { word: "NOORDER"@ }]);
    let g36: Vec<Grammar> = Vec::new();
    assert(views(g36@) =~= Seq::<GrammarView>::empty());
    let g37 = Grammar::one_of_with(g35, g36);
    let g38: Vec<Grammar> = vec![g3, g7, g16, g25, g31, g34, g37];
    assert(views(g38@) =~~= seq![GrammarView::Sequence { elements: seq![GrammarView::Keyword { word: "INCREMENT"@ }, GrammarView::Keyword { word: "BY"@ }, GrammarView::Ref { name: "NumericLiteralSegment"@, optional: false }], terminators: seq![], parse_mode: ParseMode::Strict }, GrammarView::Sequence { elements: seq![GrammarView::Keyword { word: "START"@ }, GrammarView::Optional { grammar: Box::new(GrammarView::Keyword { word: "WITH"@ }) }, GrammarView::Ref { name: "NumericLiteralSegment"@, optional: false }], terminators: seq![], parse_mode: ParseMode::Strict }, GrammarView::OneOf { elements: seq![GrammarView::Sequence { elements: seq![GrammarView::Keyword { word: "MINVALUE"@ }, GrammarView::Ref { name: "NumericLiteralSegment"@, optional: false }], terminators: seq![], parse_mode: ParseMode::Strict }, GrammarView::Sequence { elements: seq![GrammarView::Keyword { word: "NO"@ }, GrammarView::Keyword { word: "MINVALUE"@ }], terminators: seq![], parse_mode: ParseMode::Strict }], terminators: seq![] }, GrammarView::OneOf { elements: seq![GrammarView::Sequence { elements: seq![GrammarView::Keyword { word: "MAXVALUE"@ }, GrammarView::Ref { name: "NumericLiteralSegment"@, optional: false }], terminators: seq![], parse_mode: ParseMode::Strict }, GrammarView::Sequence { elements: seq![GrammarView::Keyword { word: "NO"@ }, GrammarView::Keyword { word: "MAXVALUE"@ }], terminators: seq![], parse_mode: ParseMode::Strict }], terminators: seq![] }, GrammarView::OneOf { elements: seq![GrammarView::Sequence { elements: seq![GrammarView::Keyword { word: "CACHE"@ }, GrammarView::Ref { name: "NumericLiteralSegment"@, optional: false }], terminators: seq![], parse_mode: ParseMode::Strict }, GrammarView::Keyword { word: "NOCACHE"@ }], terminators: seq![] }, GrammarView::OneOf { elements: seq![GrammarView::Keyword { word: "CYCLE"@ }, GrammarView::Keyword { word: "NOCYCLE"@ }], terminators: seq![] }, GrammarView::OneOf { elements: seq![GrammarView::Keyword { word: "ORDER"@ }, GrammarView::Keyword { word: "NOORDER"@ }], terminators: seq![] }]);
    let g39: Vec<Grammar> = Vec::new();
    assert(views(g39@) =~= Seq::<GrammarView>::empty());
    let g40 = Grammar::one_of_with(g38, g39);
    Element::Node { kind: "create_sequence_options_segment", grammar: g40 }
}

/// The ANSI element `AlterSequenceStatementSegment`.
pub open spec fn alter_sequence_statement_segment_element() -> ElementView {
    ElementView::Node { kind: "alter_sequence_statement"@, grammar: GrammarView::Sequence { elements: seq![GrammarView::Keyword { word: "ALTER"@ }, GrammarView::Keyword { word: "SEQUENCE"@ }, GrammarView::Ref { name: "SequenceReferenceSegment"@, optional: false }, GrammarView::AnyNumberOf { elements: seq![GrammarView::Ref { name: "AlterSequenceOptionsSegment"@, optional: false }], terminators: seq![], min_times: 0, max_times: None }], terminators: seq![], parse_mode: ParseMode::Strict } }
}

fn build_alter_sequence_statement_segment() -> (e: Element)
    ensures
        e@ =~~= alter_sequence_statement_segment_element(),
{
    let g1: Vec<Grammar> = vec![Grammar::reference("AlterSequenceOptionsSegment")];
    assert(views(g1@) =~~= seq![GrammarView::Ref { name: "AlterSequenceOptionsSegment"@, optional: false }]);
    let g2: Vec<Grammar> = Vec::new();
    assert(views(g2@) =~= Seq::<GrammarView>::empty());
    let g3 = Grammar::any_number_of_with(g1, g2, 0, None);
    let g4: Vec<Grammar> = vec![Grammar::keyword("ALTER"), Grammar::keyword("SEQUENCE"), Grammar::reference("SequenceReferenceSegment"), g3];
    assert(views(g4@) =~~= seq![GrammarView::Keyword { word: "ALTER"@ }, GrammarView::Keyword { word: "SEQUENCE"@ }, GrammarView::Ref { name: "SequenceReferenceSegment"@, optional: false }, GrammarView::AnyNumberOf { elements: seq![GrammarView::Ref { name: "AlterSequenceOptionsSegment"@, optional: false }], terminators: seq![], min_times: 0, max_times: None }]);
    let g5: Vec<Grammar> = Vec::new();
    assert(views(g5@) =~= Seq::<GrammarView>::empty());
    let g6 = Grammar::sequence_with(g4, g5, ParseMode::Strict);
    Element::Node { kind: "alter_sequence_statement", grammar: g6 }
}

/// The ANSI element `DropSequenceStatementSegment`.
pub open spec fn drop_sequence_statement_segment_element() -> ElementView {
    ElementView::Node { kind: "drop_sequence_statement"@, grammar: GrammarView::Sequence { elements: seq![GrammarView::Keyword { word: "DROP"@ }, GrammarView::Keyword { word: "SEQUENCE"@ }, GrammarView::Ref { name: "SequenceReferenceSegment"@, optional: false }], terminators: seq![], parse_mode: ParseMode::Strict } }
}

fn build_drop_sequence_statement_segment() -> (e: Element)
    ensures
        e@ =~~= drop_sequence_statement_segment_element(),
{
    let g1: Vec<Grammar> = vec![Grammar::keyword("DROP"), Grammar::keyword("SEQUENCE"), Grammar::reference("SequenceReferenceSegment")];
    assert(views(g1@) =~~= seq![GrammarView::Keyword { word: "DROP"@ }, GrammarView::Keyword { word: "SEQUENCE"@ }, GrammarView::Ref { name: "SequenceReferenceSegment"@, optional: false }]);
    let g2: Vec<Grammar> = Vec::new();
    assert(views(g2@) =~= Seq::<GrammarView>::empty());
    let g3 = Grammar::sequence_with(g1, g2, ParseMode::Strict);
    Element::Node { kind: "drop_sequence_statement", grammar: g3 }
}

/// The ANSI element `DropCastStatementSegment`.
pub open spec fn drop_cast_statement_segment_element() -> ElementView {
    ElementView::Node { kind: "drop_cast_statement"@, grammar: GrammarView::Sequence { elements: seq![GrammarView::Keyword { word: "DROP"@ }, GrammarView::Keyword { word: "CAST"@ }, GrammarView::Bracketed { elements: seq![GrammarView::Ref { name: "DatatypeSegment"@, optional: false }, GrammarView::Keyword { word: "AS"@ }, GrammarView::Ref { name: "DatatypeSegment"@, optional: false }], bracket_type: "round"@ }, GrammarView::Ref { name: "DropBehaviorGrammar"@, optional: true }], terminators: seq![], parse_mode: ParseMode::Strict } }
}

fn build_drop_cast_statement_segment() -> (e: Element)
    ensures
        e@ =~~= drop_cast_statement_segment_element(),
{
    let g1: Vec<Grammar> = vec![Grammar::reference("DatatypeSegment"), Grammar::keyword("AS"), Grammar::reference("DatatypeSegment")];
    assert(views(g1@) =~~= seq![GrammarView::Ref { name: "DatatypeSegment"@, optional: false }, GrammarView::Keyword { word: "AS"@ }, GrammarView::Ref { name: "DatatypeSegment"@, optional: false }]);
    let g2 = Grammar::bracketed_with(g1, "round");
    let g3: Vec<Grammar> = vec![Grammar::keyword("DROP"), Grammar::keyword("CAST"), g2, Grammar::optional_reference("DropBehaviorGrammar")];
    assert(views(g3@) =~~= seq![GrammarView::Keyword { word: "DROP"@ }, GrammarView::Keyword { word: "CAST"@ }, GrammarView::Bracketed { elements: seq![GrammarView::Ref { name: "DatatypeSegment"@, optional: false }, GrammarView::Keyword { word: "AS"@ }, GrammarView::Ref { name: "DatatypeSegment"@, optional: false }], bracket_type: "round"@ }, GrammarView::Ref { name: "DropBehaviorGrammar"@, optional: true }]);
    let g4: Vec<Grammar> = Vec::new();
    assert(views(g4@) =~= Seq::<GrammarView>::empty());
    let g5 = Grammar::sequence_with(g3, g4, ParseMode::Strict);
    Element::Node { kind: "drop_cast_statement", grammar: g5 }
}

/// The ANSI element `CreateFunctionStatementSegment`.
pub open spec fn create_function_statement_segment_element() -> ElementView {
    ElementView::Node { kind: "create_function_statement"@, grammar: GrammarView::Sequence { elements: seq![GrammarView::Keyword { word: "CREATE"@ }, GrammarView::Ref { name: "OrReplaceGrammar"@, optional: true }, GrammarView::Ref { name: "TemporaryGrammar"@, optional: true }, GrammarView::Keyword { word: "FUNCTION"@ }, GrammarView::Ref { name: "IfNotExistsGrammar"@, optional: true }, GrammarView::Ref { name: "FunctionNameSegment"@, optional: false }, GrammarView::Ref { name: "FunctionParameterListGrammar"@, optional: false }, GrammarView::Optional { grammar: Box::new(GrammarView::Sequence { elements: seq![GrammarView::Keyword { word: "RETURNS"@ }, GrammarView::Ref { name: "DatatypeSegment"@, optional: false }], terminators: seq![], parse_mode: ParseMode::Strict }) }, GrammarView::Ref { name: "FunctionDefinitionGrammar"@, optional: false }], terminators: seq![], parse_mode: ParseMode::Strict } }
}

fn build_create_function_statement_segment() -> (e: Element)
    ensures
        e@ =~~= create_function_statement_segment_element(),
{
    let g1: Vec<Grammar> = vec![Grammar::keyword("RETURNS"), Grammar::reference("DatatypeSegment")];
    assert(views(g1@) =~~= seq![GrammarView::Keyword { word: "RETURNS"@ }, GrammarView::Ref { name: "DatatypeSegment"@, optional: false }]);
    let g2: Vec<Grammar> = Vec::new();
    assert(views(g2@) =~= Seq::<GrammarView>::empty());
    let g3 = Grammar::sequence_with(g1, g2, ParseMode::Strict);
    let g4 = g3.optional();
    let g5: Vec<Grammar> = vec![Grammar::keyword("CREATE"), Grammar::optional_reference("OrReplaceGrammar"), Grammar::optional_reference("TemporaryGrammar"), Grammar::keyword("FUNCTION"), Grammar::optional_reference("IfNotExistsGrammar"), Grammar::reference("FunctionNameSegment"), Grammar::reference("FunctionParameterListGrammar"), g4, Grammar::reference("FunctionDefinitionGrammar")];
    assert(views(g5@) =~~= seq![GrammarView::Keyword { word: "CREATE"@ }, GrammarView::Ref { name: "OrReplaceGrammar"@, optional: true }, GrammarView::Ref { name: "TemporaryGrammar"@, optional: true }, GrammarView::Keyword { word: "FUNCTION"@ }, GrammarView::Ref { name: "IfNotExistsGrammar"@, optional: true }, GrammarView::Ref { name: "FunctionNameSegment"@, optional: false }, GrammarView::Ref { name: "FunctionParameterListGrammar"@, optional: false }, GrammarView::Optional { grammar: Box::new(GrammarView::Sequence { elements: seq![GrammarView::Keyword { word: "RETURNS"@ }, GrammarView::Ref { name: "DatatypeSegment"@, optional: false }], terminators: seq![], parse_mode: ParseMode::Strict }) }, GrammarView::Ref { name: "FunctionDefinitionGrammar"@, optional: false }]);
    let g6: Vec<Grammar> = Vec::new();
    assert(views(g6@) =~= Seq::<GrammarView>::empty());
    let g7 = Grammar::sequence_with(g5, g6, ParseMode::Strict);
    Element::Node { kind: "create_function_statement", grammar: g7 }
}

/// The ANSI element `DropFunctionStatementSegment`.
pub open spec fn drop_function_statement_segment_element() -> ElementView {
    ElementView::Node { kind: "drop_function_statement"@, grammar: GrammarView::Sequence { elements: seq![GrammarView::Keyword { word: "DROP"@ }, GrammarView::Keyword { word: "FUNCTION"@ }, GrammarView::Ref { name: "IfExistsGrammar"@, optional: true }, GrammarView::Ref { name: "FunctionNameSegment"@, optional: false }], terminators: seq![], parse_mode: ParseMode::Strict } }
}

fn build_drop_function_statement_segment() -> (e: Element)
    ensures
        e@ =~~= drop_function_statement_segment_element(),
{
    let g1: Vec<Grammar> = vec![Grammar::keyword("DROP"), Grammar::keyword("FUNCTION"), Grammar::optional_reference("IfExistsGrammar"), Grammar::reference("FunctionNameSegment")];
    assert(views(g1@) =~~= seq![GrammarView::Keyword { word: "DROP"@ }, GrammarView::Keyword { word: "FUNCTION"@ }, GrammarView::Ref { name: "IfExistsGrammar"@, optional: true }, GrammarView::Ref { name: "FunctionNameSegment"@, optional: false }]);
    let g2: Vec<Grammar> = Vec::new();
    assert(views(g2@) =~= Seq::<GrammarView>::empty());
    let g3 = Grammar::sequence_with(g1, g2, ParseMode::Strict);
    Element::Node { kind: "drop_function_statement", grammar: g3 }
}

/// The ANSI element `CreateModelStatementSegment`.
pub open spec fn create_model_statement_segment_element() -> ElementView {
    ElementView::Node { kind: "create_model_statement"@, grammar: GrammarView::Sequence { elements: seq![GrammarView::Keyword { word: "CREATE"@ }, GrammarView::Ref { name: "OrReplaceGrammar"@, optional: true }, GrammarView::Keyword { word: "MODEL"@ }, GrammarView::Ref { name: "IfNotExistsGrammar"@, optional: true }, GrammarView::Ref { name: "ObjectReferenceSegment"@, optional: false }, GrammarView::Optional { grammar: Box::new(GrammarView::Sequence { elements: seq![GrammarView::Keyword { word: "OPTIONS"@ }, GrammarView::Bracketed { elements: seq![GrammarView::Delimited { elements: seq![GrammarView::Sequence { elements: seq![GrammarView::Ref { name: "ParameterNameSegment"@, optional: false }, GrammarView::Ref { name: "EqualsSegment"@, optional: false }, GrammarView::OneOf { elements: seq![GrammarView::Ref { name: "LiteralGrammar"@, optional: false }, GrammarView::Optional { grammar: Box::new(GrammarView::Bracketed { elements: seq![GrammarView::Delimited { elements: seq![GrammarView::Ref { name: "QuotedLiteralSegment"@, optional: false }], allow_trailing: false, delimiter: None, terminators: seq![], allow_gaps: true }], bracket_type: "square"@ }) }], terminators: seq![] }], terminators: seq![], parse_mode: ParseMode::Strict }], allow_trailing: false, delimiter: None, terminators: seq![], allow_gaps: true }], bracket_type: "round"@ }], terminators: seq![], parse_mode: ParseMode::Strict }) }, GrammarView::Keyword { word: "AS"@ }, GrammarView::Ref { name: "SelectableGrammar"@, optional: false }], terminators: seq![], parse_mode: ParseMode::Strict } }
}

fn build_create_model_statement_segment() -> (e: Element)
    ensures
        e@ =~~= create_model_statement_segment_element(),
{
    let g1: Vec<Grammar> = vec![Grammar::reference("QuotedLiteralSegment")];
    assert(views(g1@) =~~= seq![GrammarView::Ref { name: "QuotedLiteralSegment"@, optional: false }]);
    let g2: Vec<Grammar> = Vec::new();
    assert(views(g2@) =~= Seq::<GrammarView>::empty());
    let g3 = Grammar::delimited_with(g1, false, None, g2, true);
    let g4: Vec<Grammar> = vec![g3];
    assert(views(g4@) =~~= seq![GrammarView::Delimited { elements: seq![GrammarView::Ref { name: "QuotedLiteralSegment"@, optional: false }], allow_trailing: false, delimiter: None, terminators: seq![], allow_gaps: true }]);
    let g5 = Grammar::bracketed_with(g4, "square");
    let g6 = g5.optional();
    let g7: Vec<Grammar> = vec![Grammar::reference("LiteralGrammar"), g6];
    assert(views(g7@) =~~= seq![GrammarView::Ref { name: "LiteralGrammar"@, optional: false }, GrammarView::Optional { grammar: Box::new(GrammarView::Bracketed { elements: seq![GrammarView::Delimited { elements: seq![GrammarView::Ref { name: "QuotedLiteralSegment"@, optional: false }], allow_trailing: false, delimiter: None, terminators: seq![], allow_gaps: true }], bracket_type: "square"@ }) }]);
    let g8: Vec<Grammar> = Vec::new();
    assert(views(g8@) =~= Seq::<GrammarView>::empty());
    let g9 = Grammar::one_of_with(g7, g8);
    let g10: Vec<Grammar> = vec![Grammar::reference("ParameterNameSegment"), Grammar::reference("EqualsSegment"), g9];
    assert(views(g10@) =~~= seq![GrammarView::Ref { name: "ParameterNameSegment"@, optional: false }, GrammarView::Ref { name: "EqualsSegment"@, optional: false }, GrammarView::OneOf { elements: seq![GrammarView::Ref { name: "LiteralGrammar"@, optional: false }, GrammarView::Optional { grammar: Box::new(GrammarView::Bracketed { elements: seq![GrammarView::Delimited { elements: seq![GrammarView::Ref { name: "QuotedLiteralSegment"@, optional: false }], allow_trailing: false, delimiter: None, terminators: seq![], allow_gaps: true }], bracket_type: "square"@ }) }], terminators: seq![] }]);
    let g11: Vec<Grammar> = Vec::new();
    assert(views(g11@) =~= Seq::<GrammarView>::empty());
    let g12 = Grammar::sequence_with(g10, g11, ParseMode::Strict);
    let g13: Vec<Grammar> = vec![g12];
    assert(views(g13@) =~~= seq![GrammarView::Sequence { elements: seq![GrammarView::Ref { name: "ParameterNameSegment"@, optional: false }, GrammarView::Ref { name: "EqualsSegment"@, optional: false }, GrammarView::OneOf { elements: seq![GrammarView::Ref { name: "LiteralGrammar"@, optional: false }, GrammarView::Optional { grammar: Box::new(GrammarView::Bracketed { elements: seq![GrammarView::Delimited { elements: seq![GrammarView::Ref { name: "QuotedLiteralSegment"@, optional: false }], allow_trailing: false, delimiter: None, terminators: seq![], allow_gaps: true }], bracket_type: "square"@ }) }], terminators: seq![] }], terminators: seq![], parse_mode: ParseMode::Strict }]);
    let g14: Vec<Grammar> = Vec::new();
    assert(views(g14@) =~= Seq::<GrammarView>::empty());
    let g15 = Grammar::delimited_with(g13, false, None, g14, true);
    let g16: Vec<Grammar> = vec![g15];
    assert(views(g16@) =~~= seq![GrammarView::Delimited { elements: seq![GrammarView::Sequence { elements: seq![GrammarView::Ref { name: "ParameterNameSegment"@, optional: false }, GrammarView::Ref { name: "EqualsSegment"@, optional: false }, GrammarView::OneOf { elements: seq![GrammarView::Ref { name: "LiteralGrammar"@, optional: false }, GrammarView::Optional { grammar: Box::new(GrammarView::Bracketed { elements: seq![GrammarView::Delimited { elements: seq![GrammarView::Ref { name: "QuotedLiteralSegment"@, optional: false }], allow_trailing: false, delimiter: None, terminators: seq![], allow_gaps: true }], bracket_type: "square"@ }) }], terminators: seq![] }], terminators: seq![], parse_mode: ParseMode::Strict }], allow_trailing: false, delimiter: None, terminators: seq![], allow_gaps: true }]);
    let g17 = Grammar::bracketed_with(g16, "round");
    let g18: Vec<Grammar> = vec![Grammar::keyword("OPTIONS"), g17];
    assert(views(g18@) =~~= seq![GrammarView::Keyword { word: "OPTIONS"@ }, GrammarView::Bracketed { elements: seq![GrammarView::Delimited { elements: seq![GrammarView::Sequence { elements: seq![GrammarView::Ref { name: "ParameterNameSegment"@, optional: false }, GrammarView::Ref { name: "EqualsSegment"@, optional: false }, GrammarView::OneOf { elements: seq![GrammarView::Ref { name: "LiteralGrammar"@, optional: false }, GrammarView::Optional { grammar: Box::new(GrammarView::Bracketed { elements: seq![GrammarView::Delimited { elements: seq![GrammarView::Ref { name: "QuotedLiteralSegment"@, optional: false }], allow_trailing: false, delimiter: None, terminators: seq![], allow_gaps: true }], bracket_type: "square"@ }) }], terminators: seq![] }], terminators: seq![], parse_mode: ParseMode::Strict }], allow_trailing: false, delimiter: None, terminators: seq![], allow_gaps: true }], bracket_type: "round"@ }]);
    let g19: Vec<Grammar> = Vec::new();
    assert(views(g19@) =~= Seq::<GrammarView>::empty());
    let g20 = Grammar::sequence_with(g18, g19, ParseMode::Strict);
    let g21 = g20.optional();
    let g22: Vec<Grammar> = vec![Grammar::keyword("CREATE"), Grammar::optional_reference("OrReplaceGrammar"), Grammar::keyword("MODEL"), Grammar::optional_reference("IfNotExistsGrammar"), Grammar::reference("ObjectReferenceSegment"), g21, Grammar::keyword("AS"), Grammar::reference("SelectableGrammar")];
    assert(views(g22@) =~~= seq![GrammarView::Keyword { word: "CREATE"@ }, GrammarView::Ref { name: "OrReplaceGrammar"@, optional: true }, GrammarView::Keyword { word: "MODEL"@ }, GrammarView::Ref { name: "IfNotExistsGrammar"@, optional: true }, GrammarView::Ref { name: "ObjectReferenceSegment"@, optional: false }, GrammarView::Optional { grammar: Box::new(GrammarView::Sequence { elements: seq![GrammarView::Keyword { word: "OPTIONS"@ }, GrammarView::Bracketed { elements: seq![GrammarView::Delimited { elements: seq![GrammarView::Sequence { elements: seq![GrammarView::Ref { name: "ParameterNameSegment"@, optional: false }, GrammarView::Ref { name: "EqualsSegment"@, optional: false }, GrammarView::OneOf { elements: seq![GrammarView::Ref { name: "LiteralGrammar"@, optional: false }, GrammarView::Optional { grammar: Box::new(GrammarView::Bracketed { elements: seq![GrammarView::Delimited { elements: seq![GrammarView::Ref { name: "QuotedLiteralSegment"@, optional: false }], allow_trailing: false, delimiter: None, terminators: seq![], allow_gaps: true }], bracket_type: "square"@ }) }], terminators: seq![] }], terminators: seq![], parse_mode: ParseMode::Strict }], allow_trailing: false, delimiter: None, terminators: seq![], allow_gaps: true }], bracket_type: "round"@ }], terminators: seq![], parse_mode: ParseMode::Strict }) }, GrammarView::Keyword { word: "AS"@ }, GrammarView::Ref { name: "SelectableGrammar"@, optional: false }]);
    let g23: Vec<Grammar> = Vec::new();
    assert(views(g23@) =~= Seq::<GrammarView>::empty());
    let g24 = Grammar::sequence_with(g22, g23, ParseMode::Strict);
    Element::Node { kind: "create_model_statement", grammar: g24 }
}

/// The ANSI element `CreateViewStatementSegment`.
pub open spec fn create_view_statement_segment_element() -> ElementView {
    ElementView::Node { kind: "create_view_statement"@, grammar: GrammarView::Sequence { elements: seq![GrammarView::Keyword { word: "CREATE"@ }, GrammarView::Ref { name: "OrReplaceGrammar"@, optional: true }, GrammarView::Keyword { word: "VIEW"@ }, GrammarView::Ref { name: "IfNotExistsGrammar"@, optional: true }, GrammarView::Ref { name: "TableReferenceSegment"@, optional: false }, GrammarView::Ref { name: "BracketedColumnReferenceListGrammar"@, optional: true }, GrammarView::Keyword { word: "AS"@ }, GrammarView::OneOf { elements: seq![GrammarView::Bracketed { elements: seq![GrammarView::Ref { name: "SelectableGrammar"@, optional: false }], bracket_type: "round"@ }, GrammarView::Ref { name: "SelectableGrammar"@, optional: false }], terminators: seq![] }, GrammarView::Ref { name: "WithNoSchemaBindingClauseSegment"@, optional: true }], terminators: seq![], parse_mode: ParseMode::Strict } }
}

fn build_create_view_statement_segment() -> (e: Element)
    ensures
        e@ =~~= create_view_statement_segment_element(),
{
    let g1: Vec<Grammar> = vec![Grammar::reference("SelectableGrammar")];
    assert(views(g1@) =~~= seq![GrammarView::Ref { name: "SelectableGrammar"@, optional: false }]);
    let g2 = Grammar::bracketed_with(g1, "round");
    let g3: Vec<Grammar> = vec![g2, Grammar::reference("SelectableGrammar")];
    assert(views(g3@) =~~= seq![GrammarView::Bracketed { elements: seq![GrammarView::Ref { name: "SelectableGrammar"@, optional: false }], bracket_type: "round"@ }, GrammarView::Ref { name: "SelectableGrammar"@, optional: false }]);
    let g4: Vec<Grammar> = Vec::new();
    assert(views(g4@) =~= Seq::<GrammarView>::empty());
    let g5 = Grammar::one_of_with(g3, g4);
    let g6: Vec<Grammar> = vec![Grammar::keyword("CREATE"), Grammar::optional_reference("OrReplaceGrammar"), Grammar::keyword("VIEW"), Grammar::optional_reference("IfNotExistsGrammar"), Grammar::reference("TableReferenceSegment"), Grammar::optional_reference("BracketedColumnReferenceListGrammar"), Grammar::keyword("AS"), g5, Grammar::optional_reference("WithNoSchemaBindingClauseSegment")];
    assert(views(g6@) =~~= seq![GrammarView::Keyword { word: "CREATE"@ }, GrammarView::Ref { name: "OrReplaceGrammar"@, optional: true }, GrammarView::Keyword { word: "VIEW"@ }, GrammarView::Ref { name: "IfNotExistsGrammar"@, optional: true }, GrammarView::Ref { name: "TableReferenceSegment"@, optional: false }, GrammarView::Ref { name: "BracketedColumnReferenceListGrammar"@, optional: true }, GrammarView::Keyword { word: "AS"@ }, GrammarView::OneOf { elements: seq![GrammarView::Bracketed { elements: seq![GrammarView::Ref { name: "SelectableGrammar"@, optional: false }], bracket_type: "round"@ }, GrammarView::Ref { name: "SelectableGrammar"@, optional: false }], terminators: seq![] }, GrammarView::Ref { name: "WithNoSchemaBindingClauseSegment"@, optional: true }]);
    let g7: Vec<Grammar> = Vec::new();
    assert(views(g7@) =~= Seq::<GrammarView>::empty());
    let g8 = Grammar::sequence_with(g6, g7, ParseMode::Strict);
    Element::Node { kind: "create_view_statement", grammar: g8 }
}

/// The ANSI element `DeleteStatementSegment`.
pub open spec fn delete_statement_segment_element() -> ElementView {
    ElementView::Node { kind: "delete_statement"@, grammar: GrammarView::Sequence { elements: seq![GrammarView::Keyword { word: "DELETE"@ }, GrammarView::Ref { name: "FromClauseSegment"@, optional: false }, GrammarView::Ref { name: "WhereClauseSegment"@, optional: true }], terminators: seq![], parse_mode: ParseMode::Strict } }
}

fn build_delete_statement_segment() -> (e: Element)
    ensures
        e@ =~~= delete_statement_segment_element(),
{
    let g1: Vec<Grammar> = vec![Grammar::keyword("DELETE"), Grammar::reference("FromClauseSegment"), Grammar::optional_reference("WhereClauseSegment")];
    assert(views(g1@) =~~= seq![GrammarView::Keyword { word: "DELETE"@ }, GrammarView::Ref { name: "FromClauseSegment"@, optional: false }, GrammarView::Ref { name: "WhereClauseSegment"@, optional: true }]);
    let g2: Vec<Grammar> = Vec::new();
    assert(views(g2@) =~= Seq::<GrammarView>::empty());
    let g3 = Grammar::sequence_with(g1, g2, ParseMode::Strict);
    Element::Node { kind: "delete_statement", grammar: g3 }
}

/// The ANSI element `UpdateStatementSegment`.
pub open spec fn update_statement_segment_element() -> ElementView {
    ElementView::Node { kind: "update_statement"@, grammar: GrammarView::Sequence { elements: seq![GrammarView::Keyword { word: "UPDATE"@ }, GrammarView::Ref { name: "TableReferenceSegment"@, optional: false }, GrammarView::Optional { grammar: Box::new(GrammarView::Exclude { grammar: Box::new(GrammarView::Ref { name: "AliasExpressionSegment"@, optional: false }), exclude: Box::new(GrammarView::Keyword { word: "SET"@ }) }) }, GrammarView::Ref { name: "SetClauseListSegment"@, optional: false }, GrammarView::Ref { name: "FromClauseSegment"@, optional: true }, GrammarView::Ref { name: "WhereClauseSegment"@, optional: true }], terminators: seq![], parse_mode: ParseMode::Strict } }
}

fn build_update_statement_segment() -> (e: Element)
    ensures
        e@ =~~= update_statement_segment_element(),
{
    let g1 = Grammar::reference("AliasExpressionSegment").exclude(Grammar::keyword("SET"));
    let g2 = g1.optional();
    let g3: Vec<Grammar> = vec![Grammar::keyword("UPDATE"), Grammar::reference("TableReferenceSegment"), g2, Grammar::reference("SetClauseListSegment"), Grammar::optional_reference("FromClauseSegment"), Grammar::optional_reference("WhereClauseSegment")];
    assert(views(g3@) =~~= seq![GrammarView::Keyword { word: "UPDATE"@ }, GrammarView::Ref { name: "TableReferenceSegment"@, optional: false }, GrammarView::Optional { grammar: Box::new(GrammarView::Exclude { grammar: Box::new(GrammarView::Ref { name: "AliasExpressionSegment"@, optional: false }), exclude: Box::new(GrammarView::Keyword { word: "SET"@ }) }) }, GrammarView::Ref { name: "SetClauseListSegment"@, optional: false }, GrammarView::Ref { name: "FromClauseSegment"@, optional: true }, GrammarView::Ref { name: "WhereClauseSegment"@, optional: true }]);
    let g4: Vec<Grammar> = Vec::new();
    assert(views(g4@) =~= Seq::<GrammarView>::empty());
    let g5 = Grammar::sequence_with(g3, g4, ParseMode::Strict);
    Element::Node { kind: "update_statement", grammar: g5 }
}

/// The ANSI element `CreateCastStatementSegment`.
pub open spec fn create_cast_statement_segment_element() -> ElementView {
    ElementView::Node { kind: "create_cast_statement"@, grammar: GrammarView::Sequence { elements: seq![GrammarView::Keyword { word: "CREATE"@ }, GrammarView::Keyword { word: "CAST"@ }, GrammarView::Bracketed { elements: seq![GrammarView::Ref { name: "DatatypeSegment"@, optional: false }, GrammarView::Keyword { word: "AS"@ }, GrammarView::Ref { name: "DatatypeSegment"@, optional: false }], bracket_type: "round"@ }, GrammarView::Keyword { word: "WITH"@ }, GrammarView::Optional { grammar: Box::new(GrammarView::Keyword { word: "SPECIFIC"@ }) }, GrammarView::OneOf { elements: seq![GrammarView::Keyword { word: "ROUTINE"@ }, GrammarView::Keyword { word: "FUNCTION"@ }, GrammarView::Keyword { word: "PROCEDURE"@ }, GrammarView::Sequence { elements: seq![GrammarView::Optional { grammar: Box::new(GrammarView::OneOf { elements: seq![GrammarView::Keyword { word: "INSTANCE"@ }, GrammarView::Keyword { word: "STATIC"@ }, GrammarView::Keyword { word: "CONSTRUCTOR"@ }], terminators: seq![] }) }, GrammarView::Keyword { word: "METHOD"@ }], terminators: seq![], parse_mode: ParseMode::Strict }], terminators: seq![] }, GrammarView::Ref { name: "FunctionNameSegment"@, optional: false }, GrammarView::Ref { name: "FunctionParameterListGrammar"@, optional: true }, GrammarView::Optional { grammar: Box::new(GrammarView::Sequence { elements: seq![GrammarView::Keyword { word: "FOR"@ }, GrammarView::Ref { name: "ObjectReferenceSegment"@, optional: false }], terminators: seq![], parse_mode: ParseMode::Strict }) }, GrammarView::Optional { grammar: Box::new(GrammarView::Sequence { elements: seq![GrammarView::Keyword { word: "AS"@ }, GrammarView::Keyword { word: "ASSIGNMENT"@ }], terminators: seq![], parse_mode: ParseMode::Strict }) }], terminators: seq![], parse_mode: ParseMode::Strict } }
}

fn build_create_cast_statement_segment() -> (e: Element)
    ensures
        e@ =~~= create_cast_statement_segment_element(),
{
    let g1: Vec<Grammar> = vec![Grammar::reference("DatatypeSegment"), Grammar::keyword("AS"), Grammar::reference("DatatypeSegment")];
    assert(views(g1@) =~~= seq![GrammarView::Ref { name: "DatatypeSegment"@, optional: false }, GrammarView::Keyword { word: "AS"@ }, GrammarView::Ref { name: "DatatypeSegment"@, optional: false }]);
    let g2 = Grammar::bracketed_with(g1, "round");
    let g3 = Grammar::keyword("SPECIFIC").optional();
    let g4: Vec<Grammar> = vec![Grammar::keyword("INSTANCE"), Grammar::keyword("STATIC"), Grammar::keyword("CONSTRUCTOR")];
    assert(views(g4@) =~~= seq![GrammarView::Keyword { word: "INSTANCE"@ }, GrammarView::Keyword { word: "STATIC"@ }, GrammarView::Keyword { word: "CONSTRUCTOR"@ }]);
    let g5: Vec<Grammar> = Vec::new();
    assert(views(g5@) =~= Seq::<GrammarView>::empty());
    let g6 = Grammar::one_of_with(g4, g5);
    let g7 = g6.optional();
    let g8: Vec<Grammar> = vec![g7, Grammar::keyword("METHOD")];
    assert(views(g8@) =~~= seq![GrammarView::Optional { grammar: Box::new(GrammarView::OneOf { elements: seq![GrammarView::Keyword { word: "INSTANCE"@ }, GrammarView::Keyword { word: "STATIC"@ }, GrammarView::Keyword { word: "CONSTRUCTOR"@ }], terminators: seq![] }) }, GrammarView::Keyword { word: "METHOD"@ }]);
    let g9: Vec<Grammar> = Vec::new();
    assert(views(g9@) =~= Seq::<GrammarView>::empty());
    let g10 = Grammar::sequence_with(g8, g9, ParseMode::Strict);
    let g11: Vec<Grammar> = vec![Grammar::keyword("ROUTINE"), Grammar::keyword("FUNCTION"), Grammar::keyword("PROCEDURE"), g10];
    assert(views(g11@) =~~= seq![GrammarView::Keyword { word: "ROUTINE"@ }, GrammarView::Keyword { word: "FUNCTION"@ }, GrammarView::Keyword { word: "PROCEDURE"@ }, GrammarView::Sequence { elements: seq![GrammarView::Optional { grammar: Box::new(GrammarView::OneOf { elements: seq![GrammarView::Keyword { word: "INSTANCE"@ }, GrammarView::Keyword { word: "STATIC"@ }, GrammarView::Keyword { word: "CONSTRUCTOR"@ }], terminators: seq![] }) }, GrammarView::Keyword { word: "METHOD"@ }], terminators: seq![], parse_mode: ParseMode::Strict }]);
    let g12: Vec<Grammar> = Vec::new();
    assert(views(g12@) =~= Seq::<GrammarView>::empty());
    let g13 = Grammar::one_of_with(g11, g12);
    let g14: Vec<Grammar> = vec![Grammar::keyword("FOR"), Grammar::reference("ObjectReferenceSegment")];
    assert(views(g14@) =~~= seq![GrammarView::Keyword { word: "FOR"@ }, GrammarView::Ref { name: "ObjectReferenceSegment"@, optional: false }]);
    let g15: Vec<Grammar> = Vec::new();
    assert(views(g15@) =~= Seq::<GrammarView>::empty());
    let g16 = Grammar::sequence_with(g14, g15, ParseMode::Strict);
    let g17 = g16.optional();
    let g18: Vec<Grammar> = vec![Grammar::keyword("AS"), Grammar::keyword("ASSIGNMENT")];
    assert(views(g18@) =~~= seq![GrammarView::Keyword { word: "AS"@ }, GrammarView::Keyword { word: "ASSIGNMENT"@ }]);
    let g19: Vec<Grammar> = Vec::new();
    assert(views(g19@) =~= Seq::<GrammarView>::empty());
    let g20 = Grammar::sequence_with(g18, g19, ParseMode::Strict);
    let g21 = g20.optional();
    let g22: Vec<Grammar> = vec![Grammar::keyword("CREATE"), Grammar::keyword("CAST"), g2, Grammar::keyword("WITH"), g3, g13, Grammar::reference("FunctionNameSegment"), Grammar::optional_reference("FunctionParameterListGrammar"), g17, g21];
    assert(views(g22@) =~~= seq![GrammarView::Keyword { word: "CREATE"@ }, GrammarView::Keyword { word: "CAST"@ }, GrammarView::Bracketed { elements: seq![GrammarView::Ref { name: "DatatypeSegment"@, optional: false }, GrammarView::Keyword { word: "AS"@ }, GrammarView::Ref { name: "DatatypeSegment"@, optional: false }], bracket_type: "round"@ }, GrammarView::Keyword { word: "WITH"@ }, GrammarView::Optional { grammar: Box::new(GrammarView::Keyword { word: "SPECIFIC"@ }) }, GrammarView::OneOf { elements: seq![GrammarView::Keyword { word: "ROUTINE"@ }, GrammarView::Keyword { word: "FUNCTION"@ }, GrammarView::Keyword { word: "PROCEDURE"@ }, GrammarView::Sequence { elements: seq![GrammarView::Optional { grammar: Box::new(GrammarView::OneOf { elements: seq![GrammarView::Keyword { word: "INSTANCE"@ }, GrammarView::Keyword { word: "STATIC"@ }, GrammarView::Keyword { word: "CONSTRUCTOR"@ }], terminators: seq![] }) }, GrammarView::Keyword { word: "METHOD"@ }], terminators: seq![], parse_mode: ParseMode::Strict }], terminators: seq![] }, GrammarView::Ref { name: "FunctionNameSegment"@, optional: false }, GrammarView::Ref { name: "FunctionParameterListGrammar"@, optional: true }, GrammarView::Optional { grammar: Box::new(GrammarView::Sequence { elements: seq![GrammarView::Keyword { word: "FOR"@ }, GrammarView::Ref { name: "ObjectReferenceSegment"@, optional: false }], terminators: seq![], parse_mode: ParseMode::Strict }) }, GrammarView::Optional { grammar: Box::new(GrammarView::Sequence { elements: seq![GrammarView::Keyword { word: "AS"@ }, GrammarView::Keyword { word: "ASSIGNMENT"@ }], terminators: seq![], parse_mode: ParseMode::Strict }) }]);
    let g23: Vec<Grammar> = Vec::new();
    assert(views(g23@) =~= Seq::<GrammarView>::empty());
    let g24 = Grammar::sequence_with(g22, g23, ParseMode::Strict);
    Element::Node { kind: "create_cast_statement", grammar: g24 }
}

/// The ANSI element `CreateRoleStatementSegment`.
pub open spec fn create_role_statement_segment_element() -> ElementView {
    ElementView::Node { kind: "create_role_statement"@, grammar: GrammarView::Sequence { elements: seq![GrammarView::Keyword { word: "CREATE"@ }, GrammarView::Keyword { word: "ROLE"@ }, GrammarView::Ref { name: "RoleReferenceSegment"@, optional: false }], terminators: seq![], parse_mode: ParseMode::Strict } }
}

fn build_create_role_statement_segment() -> (e: Element)
    ensures
        e@ =~~= create_role_statement_segment_element(),
{
    let g1: Vec<Grammar> = vec![Grammar::keyword("CREATE"), Grammar::keyword("ROLE"), Grammar::reference("RoleReferenceSegment")];
    assert(views(g1@) =~~= seq![GrammarView::Keyword { word: "CREATE"@ }, GrammarView::Keyword { word: "ROLE"@ }, GrammarView::Ref { name: "RoleReferenceSegment"@, optional: false }]);
    let g2: Vec<Grammar> = Vec::new();
    assert(views(g2@) =~= Seq::<GrammarView>::empty());
    let g3 = Grammar::sequence_with(g1, g2, ParseMode::Strict);
    Element::Node { kind: "create_role_statement", grammar: g3 }
}

/// The ANSI element `DropRoleStatementSegment`.
pub open spec fn drop_role_statement_segment_element() -> ElementView {
    ElementView::Node { kind: "drop_role_statement"@, grammar: GrammarView::Sequence { elements: seq![GrammarView::Keyword { word: "DROP"@ }, GrammarView::Keyword { word: "ROLE"@ }, GrammarView::Ref { name: "IfExistsGrammar"@, optional: true }, GrammarView::Ref { name: "SingleIdentifierGrammar"@, optional: false }], terminators: seq![], parse_mode: ParseMode::Strict } }
}

fn build_drop_role_statement_segment() -> (e: Element)
    ensures
        e@ =~~= drop_role_statement_segment_element(),
{
    let g1: Vec<Grammar> = vec![Grammar::keyword("DROP"), Grammar::keyword("ROLE"), Grammar::optional_reference("IfExistsGrammar"), Grammar::reference("SingleIdentifierGrammar")];
    assert(views(g1@) =~~= seq![GrammarView::Keyword { word: "DROP"@ }, GrammarView::Keyword { word: "ROLE"@ }, GrammarView::Ref { name: "IfExistsGrammar"@, optional: true }, GrammarView::Ref { name: "SingleIdentifierGrammar"@, optional: false }]);
    let g2: Vec<Grammar> = Vec::new();
    assert(views(g2@) =~= Seq::<GrammarView>::empty());
    let g3 = Grammar::sequence_with(g1, g2, ParseMode::Strict);
    Element::Node { kind: "drop_role_statement", grammar: g3 }
}

/// The ANSI element `AlterTableStatementSegment`.
pub open spec fn alter_table_statement_segment_element() -> ElementView {
    ElementView::Node { kind: "alter_table_statement"@, grammar: GrammarView::Sequence { elements: seq![GrammarView::Keyword { word: "ALTER"@ }, GrammarView::Keyword { word: "TABLE"@ }, GrammarView::Ref { name: "TableReferenceSegment"@, optional: false }, GrammarView::Delimited { elements: seq![GrammarView::Ref { name: "AlterTableOptionsGrammar"@, optional: false }], allow_trailing: false, delimiter: None, terminators: seq![], allow_gaps: true }], terminators: seq![], parse_mode: ParseMode::Strict } }
}

fn build_alter_table_statement_segment() -> (e: Element)
    ensures
        e@ =~~= alter_table_statement_segment_element(),
{
    let g1: Vec<Grammar> = vec![Grammar::reference("AlterTableOptionsGrammar")];
    assert(views(g1@) =~~= seq![GrammarView::Ref { name: "AlterTableOptionsGrammar"@, optional: false }]);
    let g2: Vec<Grammar> = Vec::new();
    assert(views(g2@) =~= Seq::<GrammarView>::empty());
    let g3 = Grammar::delimited_with(g1, false, None, g2, true);
    let g4: Vec<Grammar> = vec![Grammar::keyword("ALTER"), Grammar::keyword("TABLE"), Grammar::reference("TableReferenceSegment"), g3];
    assert(views(g4@) =~~= seq![GrammarView::Keyword { word: "ALTER"@ }, GrammarView::Keyword { word: "TABLE"@ }, GrammarView::Ref { name: "TableReferenceSegment"@, optional: false }, GrammarView::Delimited { elements: seq![GrammarView::Ref { name: "AlterTableOptionsGrammar"@, optional: false }], allow_trailing: false, delimiter: None, terminators: seq![], allow_gaps: true }]);
    let g5: Vec<Grammar> = Vec::new();
    assert(views(g5@) =~= Seq::<GrammarView>::empty());
    let g6 = Grammar::sequence_with(g4, g5, ParseMode::Strict);
    Element::Node { kind: "alter_table_statement", grammar: g6 }
}

/// The ANSI element `SetSchemaStatementSegment`.
pub open spec fn set_schema_statement_segment_element() -> ElementView {
    ElementView::Node { kind: "set_schema_statement"@, grammar: GrammarView::Sequence { elements: seq![GrammarView::Keyword { word: "SET"@ }, GrammarView::Keyword { word: "SCHEMA"@ }, GrammarView::Ref { name: "IfNotExistsGrammar"@, optional: true }, GrammarView::Ref { name: "SchemaReferenceSegment"@, optional: false }], terminators: seq![], parse_mode: ParseMode::Strict } }
}

fn build_set_schema_statement_segment() -> (e: Element)
    ensures
        e@ =~~= set_schema_statement_segment_element(),
{
    let g1: Vec<Grammar> = vec![Grammar::keyword("SET"), Grammar::keyword("SCHEMA"), Grammar::optional_reference("IfNotExistsGrammar"), Grammar::reference("SchemaReferenceSegment")];
    assert(views(g1@) =~~= seq![GrammarView::Keyword { word: "SET"@ }, GrammarView::Keyword { word: "SCHEMA"@ }, GrammarView::Ref { name: "IfNotExistsGrammar"@, optional: true }, GrammarView::Ref { name: "SchemaReferenceSegment"@, optional: false }]);
    let g2: Vec<Grammar> = Vec::new();
    assert(views(g2@) =~= Seq::<GrammarView>::empty());
    let g3 = Grammar::sequence_with(g1, g2, ParseMode::Strict);
    Element::Node { kind: "set_schema_statement", grammar: g3 }
}

/// The ANSI element `DropSchemaStatementSegment`.
pub open spec fn drop_schema_statement_segment_element() -> ElementView {
    ElementView::Node { kind: "drop_schema_statement"@, grammar: GrammarView::Sequence { elements: seq![GrammarView::Keyword { word: "DROP"@ }, GrammarView::Keyword { word: "SCHEMA"@ }, GrammarView::Ref { name: "IfExistsGrammar"@, optional: true }, GrammarView::Ref { name: "SchemaReferenceSegment"@, optional: false }, GrammarView::Ref { name: "DropBehaviorGrammar"@, optional: true }], terminators: seq![], parse_mode: ParseMode::Strict } }
}

fn build_drop_schema_statement_segment() -> (e: Element)
    ensures
        e@ =~~= drop_schema_statement_segment_element(),
{
    let g1: Vec<Grammar> = vec![Grammar::keyword("DROP"), Grammar::keyword("SCHEMA"), Grammar::optional_reference("IfExistsGrammar"), Grammar::reference("SchemaReferenceSegment"), Grammar::optional_reference("DropBehaviorGrammar")];
    assert(views(g1@) =~~= seq![GrammarView::Keyword { word: "DROP"@ }, GrammarView::Keyword { word: "SCHEMA"@ }, GrammarView::Ref { name: "IfExistsGrammar"@, optional: true }, GrammarView::Ref { name: "SchemaReferenceSegment"@, optional: false }, GrammarView::Ref { name: "DropBehaviorGrammar"@, optional: true }]);
    let g2: Vec<Grammar> = Vec::new();
    assert(views(g2@) =~= Seq::<GrammarView>::empty());
    let g3 = Grammar::sequence_with(g1, g2, ParseMode::Strict);
    Element::Node { kind: "drop_schema_statement", grammar: g3 }
}

/// The ANSI element `DropTypeStatementSegment`.
pub open spec fn drop_type_statement_segment_element() -> ElementView {
    ElementView::Node { kind: "drop_type_statement"@, grammar: GrammarView::Sequence { elements: seq![GrammarView::Keyword { word: "DROP"@ }, GrammarView::Keyword { word: "TYPE"@ }, GrammarView::Ref { name: "IfExistsGrammar"@, optional: true }, GrammarView::Ref { name: "ObjectReferenceSegment"@, optional: false }, GrammarView::Ref { name: "DropBehaviorGrammar"@, optional: true }], terminators: seq![], parse_mode: ParseMode::Strict } }
}

fn build_drop_type_statement_segment() -> (e: Element)
    ensures
        e@ =~~= drop_type_statement_segment_element(),
{
    let g1: Vec<Grammar> = vec![Grammar::keyword("DROP"), Grammar::keyword("TYPE"), Grammar::optional_reference("IfExistsGrammar"), Grammar::reference("ObjectReferenceSegment"), Grammar::optional_reference("DropBehaviorGrammar")];
    assert(views(g1@) =~~= seq![GrammarView::Keyword { word: "DROP"@ }, GrammarView::Keyword { word: "TYPE"@ }, GrammarView::Ref { name: "IfExistsGrammar"@, optional: true }, GrammarView::Ref { name: "ObjectReferenceSegment"@, optional: false }, GrammarView::Ref { name: "DropBehaviorGrammar"@, optional: true }]);
    let g2: Vec<Grammar> = Vec::new();
    assert(views(g2@) =~= Seq::<GrammarView>::empty());
    let g3 = Grammar::sequence_with(g1, g2, ParseMode::Strict);
    Element::Node { kind: "drop_type_statement", grammar: g3 }
}

/// The ANSI element `CreateDatabaseStatementSegment`.
pub open spec fn create_database_statement_segment_element() -> ElementView {
    ElementView::Node { kind: "create_database_statement"@, grammar: GrammarView::Sequence { elements: seq![GrammarView::Keyword { word: "CREATE"@ }, GrammarView::Keyword { word: "DATABASE"@ }, GrammarView::Ref { name: "IfNotExistsGrammar"@, optional: true }, GrammarView::Ref { name: "DatabaseReferenceSegment"@, optional: false }], terminators: seq![], parse_mode: ParseMode::Strict } }
}

fn build_create_database_statement_segment() -> (e: Element)
    ensures
        e@ =~~= create_database_statement_segment_element(),
{
    let g1: Vec<Grammar> = vec![Grammar::keyword("CREATE"), Grammar::keyword("DATABASE"), Grammar::optional_reference("IfNotExistsGrammar"), Grammar::reference("DatabaseReferenceSegment")];
    assert(views(g1@) =~~= seq![GrammarView::Keyword { word: "CREATE"@ }, GrammarView::Keyword { word: "DATABASE"@ }, GrammarView::Ref { name: "IfNotExistsGrammar"@, optional: true }, GrammarView::Ref { name: "DatabaseReferenceSegment"@, optional: false }]);
    let g2: Vec<Grammar> = Vec::new();
    assert(views(g2@) =~= Seq::<GrammarView>::empty());
    let g3 = Grammar::sequence_with(g1, g2, ParseMode::Strict);
    Element::Node { kind: "create_database_statement", grammar: g3 }
}

/// The ANSI element `DropDatabaseStatementSegment`.
pub open spec fn drop_database_statement_segment_element() -> ElementView {
    ElementView::Node { kind: "drop_database_statement"@, grammar: GrammarView::Sequence { elements: seq![GrammarView::Keyword { word: "DROP"@ }, GrammarView::Keyword { word: "DATABASE"@ }, GrammarView::Ref { name: "IfExistsGrammar"@, optional: true }, GrammarView::Ref { name: "DatabaseReferenceSegment"@, optional: false }, GrammarView::Ref { name: "DropBehaviorGrammar"@, optional: true }], terminators: seq![], parse_mode: ParseMode::Strict } }
}

fn build_drop_database_statement_segment() -> (e: Element)
    ensures
        e@ =~~= drop_database_statement_segment_element(),
{
    let g1: Vec<Grammar> = vec![Grammar::keyword("DROP"), Grammar::keyword("DATABASE"), Grammar::optional_reference("IfExistsGrammar"), Grammar::reference("DatabaseReferenceSegment"), Grammar::optional_reference("DropBehaviorGrammar")];
    assert(views(g1@) =~~= seq![GrammarView::Keyword { word: "DROP"@ }, GrammarView::Keyword { word: "DATABASE"@ }, GrammarView::Ref { name: "IfExistsGrammar"@, optional: true }, GrammarView::Ref { name: "DatabaseReferenceSegment"@, optional: false }, GrammarView::Ref { name: "DropBehaviorGrammar"@, optional: true }]);
    let g2: Vec<Grammar> = Vec::new();
    assert(views(g2@) =~= Seq::<GrammarView>::empty());
    let g3 = Grammar::sequence_with(g1, g2, ParseMode::Strict);
    Element::Node { kind: "drop_database_statement", grammar: g3 }
}

/// The ANSI element `FunctionParameterListGrammar`.
pub open spec fn function_parameter_list_grammar_element() -> ElementView {
    ElementView::Node { kind: "function_parameter_list"@, grammar: GrammarView::Bracketed { elements: seq![GrammarView::Optional { grammar: Box::new(GrammarView::Delimited { elements: seq![GrammarView::Ref { name: "FunctionParameterGrammar"@, optional: false }], allow_trailing: false, delimiter: None, terminators: seq![], allow_gaps: true }) }], bracket_type: "round"@ } }
}

fn build_function_parameter_list_grammar() -> (e: Element)
    ensures
        e@ =~~= function_parameter_list_grammar_element(),
{
    let g1: Vec<Grammar> = vec![Grammar::reference("FunctionParameterGrammar")];
    assert(views(g1@) =~~= seq![GrammarView::Ref { name: "FunctionParameterGrammar"@, optional: false }]);
    let g2: Vec<Grammar> = Vec::new();
    assert(views(g2@) =~= Seq::<GrammarView>::empty());
    let g3 = Grammar::delimited_with(g1, false, None, g2, true);
    let g4 = g3.optional();
    let g5: Vec<Grammar> = vec![g4];
    assert(views(g5@) =~~= seq![GrammarView::Optional { grammar: Box::new(GrammarView::Delimited { elements: seq![GrammarView::Ref { name: "FunctionParameterGrammar"@, optional: false }], allow_trailing: false, delimiter: None, terminators: seq![], allow_gaps: true }) }]);
    let g6 = Grammar::bracketed_with(g5, "round");
    Element::Node { kind: "function_parameter_list", grammar: g6 }
}

/// The ANSI element `CreateIndexStatementSegment`.
pub open spec fn create_index_statement_segment_element() -> ElementView {
    ElementView::Node { kind: "create_index_statement"@, grammar: GrammarView::Sequence { elements: seq![GrammarView::Keyword { word: "CREATE"@ }, GrammarView::Ref { name: "OrReplaceGrammar"@, optional: true }, GrammarView::Optional { grammar: Box::new(GrammarView::Keyword { word: "UNIQUE"@ }) }, GrammarView::Keyword { word: "INDEX"@ }, GrammarView::Ref { name: "IfNotExistsGrammar"@, optional: true }, GrammarView::Ref { name: "IndexReferenceSegment"@, optional: false }, GrammarView::Keyword { word: "ON"@ }, GrammarView::Ref { name: "TableReferenceSegment"@, optional: false }, GrammarView::Bracketed { elements: seq![GrammarView::Delimited { elements: seq![GrammarView::Ref { name: "IndexColumnDefinitionSegment"@, optional: false }], allow_trailing: false, delimiter: None, terminators: seq![], allow_gaps: true }], bracket_type: "round"@ }], terminators: seq![], parse_mode: ParseMode::Strict } }
}

fn build_create_index_statement_segment() -> (e: Element)
    ensures
        e@ =~~= create_index_statement_segment_element(),
{
    let g1 = Grammar::keyword("UNIQUE").optional();
    let g2: Vec<Grammar> = vec![Grammar::reference("IndexColumnDefinitionSegment")];
    assert(views(g2@) =~~= seq![GrammarView::Ref { name: "IndexColumnDefinitionSegment"@, optional: false }]);
    let g3: Vec<Grammar> = Vec::new();
    assert(views(g3@) =~= Seq::<GrammarView>::empty());
    let g4 = Grammar::delimited_with(g2, false, None, g3, true);
    let g5: Vec<Grammar> = vec![g4];
    assert(views(g5@) =~~= seq![GrammarView::Delimited { elements: seq![GrammarView::Ref { name: "IndexColumnDefinitionSegment"@, optional: false }], allow_trailing: false, delimiter: None, terminators: seq![], allow_gaps: true }]);
    let g6 = Grammar::bracketed_with(g5, "round");
    let g7: Vec<Grammar> = vec![Grammar::keyword("CREATE"), Grammar::optional_reference("OrReplaceGrammar"), g1, Grammar::keyword("INDEX"), Grammar::optional_reference("IfNotExistsGrammar"), Grammar::reference("IndexReferenceSegment"), Grammar::keyword("ON"), Grammar::reference("TableReferenceSegment"), g6];
    assert(views(g7@) =~~= seq![GrammarView::Keyword { word: "CREATE"@ }, GrammarView::Ref { name: "OrReplaceGrammar"@, optional: true }, GrammarView::Optional { grammar: Box::new(GrammarView::Keyword { word: "UNIQUE"@ }) }, GrammarView::Keyword { word: "INDEX"@ }, GrammarView::Ref { name: "IfNotExistsGrammar"@, optional: true }, GrammarView::Ref { name: "IndexReferenceSegment"@, optional: false }, GrammarView::Keyword { word: "ON"@ }, GrammarView::Ref { name: "TableReferenceSegment"@, optional: false }, GrammarView::Bracketed { elements: seq![GrammarView::Delimited { elements: seq![GrammarView::Ref { name: "IndexColumnDefinitionSegment"@, optional: false }], allow_trailing: false, delimiter: None, terminators: seq![], allow_gaps: true }], bracket_type: "round"@ }]);
    let g8: Vec<Grammar> = Vec::new();
    assert(views(g8@) =~= Seq::<GrammarView>::empty());
    let g9 = Grammar::sequence_with(g7, g8, ParseMode::Strict);
    Element::Node { kind: "create_index_statement", grammar: g9 }
}

/// The ANSI element `DropIndexStatementSegment`.
pub open spec fn drop_index_statement_segment_element() -> ElementView {
    ElementView::Node { kind: "drop_index_statement"@, grammar: GrammarView::Sequence { elements: seq![GrammarView::Keyword { word: "DROP"@ }, GrammarView::Keyword { word: "INDEX"@ }, GrammarView::Ref { name: "IfExistsGrammar"@, optional: true }, GrammarView::Ref { name: "IndexReferenceSegment"@, optional: false }, GrammarView::Ref { name: "DropBehaviorGrammar"@, optional: true }], terminators: seq![], parse_mode: ParseMode::Strict } }
}

fn build_drop_index_statement_segment() -> (e: Element)
    ensures
        e@ =~~= drop_index_statement_segment_element(),
{
    let g1: Vec<Grammar> = vec![Grammar::keyword("DROP"), Grammar::keyword("INDEX"), Grammar::optional_reference("IfExistsGrammar"), Grammar::reference("IndexReferenceSegment"), Grammar::optional_reference("DropBehaviorGrammar")];
    assert(views(g1@) =~~= seq![GrammarView::Keyword { word: "DROP"@ }, GrammarView::Keyword { word: "INDEX"@ }, GrammarView::Ref { name: "IfExistsGrammar"@, optional: true }, GrammarView::Ref { name: "IndexReferenceSegment"@, optional: false }, GrammarView::Ref { name: "DropBehaviorGrammar"@, optional: true }]);
    let g2: Vec<Grammar> = Vec::new();
    assert(views(g2@) =~= Seq::<GrammarView>::empty());
    let g3 = Grammar::sequence_with(g1, g2, ParseMode::Strict);
    Element::Node { kind: "drop_index_statement", grammar: g3 }
}

/// The ANSI element `CreateTableStatementSegment`.
pub open spec fn create_table_statement_segment_element() -> ElementView {
    ElementView::Node { kind: "create_table_statement"@, grammar: GrammarView::Sequence { elements: seq![GrammarView::Keyword { word: "CREATE"@ }, GrammarView::Ref { name: "OrReplaceGrammar"@, optional: true }, GrammarView::Ref { name: "TemporaryTransientGrammar"@, optional: true }, GrammarView::Keyword { word: "TABLE"@ }, GrammarView::Ref { name: "IfNotExistsGrammar"@, optional: true }, GrammarView::Ref { name: "TableReferenceSegment"@, optional: false }, GrammarView::OneOf { elements: seq![GrammarView::Sequence { elements: seq![GrammarView::Bracketed { elements: seq![GrammarView::Delimited { elements: seq![GrammarView::OneOf { elements: seq![GrammarView::Ref { name: "TableConstraintSegment"@, optional: false }, GrammarView::Ref { name: "ColumnDefinitionSegment"@, optional: false }], terminators: seq![] }], allow_trailing: false, delimiter: None, terminators: seq![], allow_gaps: true }], bracket_type: "round"@ }, GrammarView::Ref { name: "CommentClauseSegment"@, optional: true }], terminators: seq![], parse_mode: ParseMode::Strict }, GrammarView::Sequence { elements: seq![GrammarView::Keyword { word: "AS"@ }, GrammarView::OneOf { elements: seq![GrammarView::Bracketed { elements: seq![GrammarView::Ref { name: "SelectableGrammar"@, optional: false }], bracket_type: "round"@ }, GrammarView::Ref { name: "SelectableGrammar"@, optional: false }], terminators: seq![] }], terminators: seq![], parse_mode: ParseMode::Strict }, GrammarView::Sequence { elements: seq![GrammarView::Keyword { word: "LIKE"@ }, GrammarView::Ref { name: "TableReferenceSegment"@, optional: false }], terminators: seq![], parse_mode: ParseMode::Strict }], terminators: seq![] }, GrammarView::Ref { name: "TableEndClauseSegment"@, optional: true }], terminators: seq![], parse_mode: ParseMode::Strict } }
}

fn build_create_table_statement_segment() -> (e: Element)
    ensures
        e@ =~~= create_table_statement_segment_element(),
{
    let g1: Vec<Grammar> = vec![Grammar::reference("TableConstraintSegment"), Grammar::reference("ColumnDefinitionSegment")];
    assert(views(g1@) =~~= seq![GrammarView::Ref { name: "TableConstraintSegment"@, optional: false }, GrammarView::Ref { name: "ColumnDefinitionSegment"@, optional: false }]);
    let g2: Vec<Grammar> = Vec::new();
    assert(views(g2@) =~= Seq::<GrammarView>::empty());
    let g3 = Grammar::one_of_with(g1, g2);
    let g4: Vec<Grammar> = vec![g3];
    assert(views(g4@) =~~= seq![GrammarView::OneOf { elements: seq![GrammarView::Ref { name: "TableConstraintSegment"@, optional: false }, GrammarView::Ref { name: "ColumnDefinitionSegment"@, optional: false }], terminators: seq![] }]);
    let g5: Vec<Grammar> = Vec::new();
    assert(views(g5@) =~= Seq::<GrammarView>::empty());
    let g6 = Grammar::delimited_with(g4, false, None, g5, true);
    let g7: Vec<Grammar> = vec![g6];
    assert(views(g7@) =~~= seq![GrammarView::Delimited { elements: seq![GrammarView::OneOf { elements: seq![GrammarView::Ref { name: "TableConstraintSegment"@, optional: false }, GrammarView::Ref { name: "ColumnDefinitionSegment"@, optional: false }], terminators: seq![] }], allow_trailing: false, delimiter: None, terminators: seq![], allow_gaps: true }]);
    let g8 = Grammar::bracketed_with(g7, "round");
    let g9: Vec<Grammar> = vec![g8, Grammar::optional_reference("CommentClauseSegment")];
    assert(views(g9@) =~~= seq![GrammarView::Bracketed { elements: seq![GrammarView::Delimited { elements: seq![GrammarView::OneOf { elements: seq![GrammarView::Ref { name: "TableConstraintSegment"@, optional: false }, GrammarView::Ref { name: "ColumnDefinitionSegment"@, optional: false }], terminators: seq![] }], allow_trailing: false, delimiter: None, terminators: seq![], allow_gaps: true }], bracket_type: "round"@ }, GrammarView::Ref { name: "CommentClauseSegment"@, optional: true }]);
    let g10: Vec<Grammar> = Vec::new();
    assert(views(g10@) =~= Seq::<GrammarView>::empty());
    let g11 = Grammar::sequence_with(g9, g10, ParseMode::Strict);
    let g12: Vec<Grammar> = vec![Grammar::reference("SelectableGrammar")];
    assert(views(g12@) =~~= seq![GrammarView::Ref { name: "SelectableGrammar"@, optional: false }]);
    let g13 = Grammar::bracketed_with(g12, "round");
    let g14: Vec<Grammar> = vec![g13, Grammar::reference("SelectableGrammar")];
    assert(views(g14@) =~~= seq![GrammarView::Bracketed { elements: seq![GrammarView::Ref { name: "SelectableGrammar"@, optional: false }], bracket_type: "round"@ }, GrammarView::Ref { name: "SelectableGrammar"@, optional: false }]);
    let g15: Vec<Grammar> = Vec::new();
    assert(views(g15@) =~= Seq::<GrammarView>::empty());
    let g16 = Grammar::one_of_with(g14, g15);
    let g17: Vec<Grammar> = vec![Grammar::keyword("AS"), g16];
    assert(views(g17@) =~~= seq![GrammarView::Keyword { word: "AS"@ }, GrammarView::OneOf { elements: seq![GrammarView::Bracketed { elements: seq![GrammarView::Ref { name: "SelectableGrammar"@, optional: false }], bracket_type: "round"@ }, GrammarView::Ref { name: "SelectableGrammar"@, optional: false }], terminators: seq![] }]);
    let g18: Vec<Grammar> = Vec::new();
    assert(views(g18@) =~= Seq::<GrammarView>::empty());
    let g19 = Grammar::sequence_with(g17, g18, ParseMode::Strict);
    let g20: Vec<Grammar> = vec![Grammar::keyword("LIKE"), Grammar::reference("TableReferenceSegment")];
    assert(views(g20@) =~~= seq![GrammarView::Keyword { word: "LIKE"@ }, GrammarView::Ref { name: "TableReferenceSegment"@, optional: false }]);
    let g21: Vec<Grammar> = Vec::new();
    assert(views(g21@) =~= Seq::<GrammarView>::empty());
    let g22 = Grammar::sequence_with(g20, g21, ParseMode::Strict);
    let g23: Vec<Grammar> = vec![g11, g19, g22];
    assert(views(g23@) =~~= seq![GrammarView::Sequence { elements: seq![GrammarView::Bracketed { elements: seq![GrammarView::Delimited { elements: seq![GrammarView::OneOf { elements: seq![GrammarView::Ref { name: "TableConstraintSegment"@, optional: false }, GrammarView::Ref { name: "ColumnDefinitionSegment"@, optional: false }], terminators: seq![] }], allow_trailing: false, delimiter: None, terminators: seq![], allow_gaps: true }], bracket_type: "round"@ }, GrammarView::Ref { name: "CommentClauseSegment"@, optional: true }], terminators: seq![], parse_mode: ParseMode::Strict }, GrammarView::Sequence { elements: seq![GrammarView::Keyword { word: "AS"@ }, GrammarView::OneOf { elements: seq![GrammarView::Bracketed { elements: seq![GrammarView::Ref { name: "SelectableGrammar"@, optional: false }], bracket_type: "round"@ }, GrammarView::Ref { name: "SelectableGrammar"@, optional: false }], terminators: seq![] }], terminators: seq![], parse_mode: ParseMode::Strict }, GrammarView::Sequence { elements: seq![GrammarView::Keyword { word: "LIKE"@ }, GrammarView::Ref { name: "TableReferenceSegment"@, optional: false }], terminators: seq![], parse_mode: ParseMode::Strict }]);
    let g24: Vec<Grammar> = Vec::new();
    assert(views(g24@) =~= Seq::<GrammarView>::empty());
    let g25 = Grammar::one_of_with(g23, g24);
    let g26: Vec<Grammar> = vec![Grammar::keyword("CREATE"), Grammar::optional_reference("OrReplaceGrammar"), Grammar::optional_reference("TemporaryTransientGrammar"), Grammar::keyword("TABLE"), Grammar::optional_reference("IfNotExistsGrammar"), Grammar::reference("TableReferenceSegment"), g25, Grammar::optional_reference("TableEndClauseSegment")];
    assert(views(g26@) =~~= seq![GrammarView::Keyword { word: "CREATE"@ }, GrammarView::Ref { name: "OrReplaceGrammar"@, optional: true }, GrammarView::Ref { name: "TemporaryTransientGrammar"@, optional: true }, GrammarView::Keyword { word: "TABLE"@ }, GrammarView::Ref { name: "IfNotExistsGrammar"@, optional: true }, GrammarView::Ref { name: "TableReferenceSegment"@, optional: false }, GrammarView::OneOf { elements: seq![GrammarView::Sequence { elements: seq![GrammarView::Bracketed { elements: seq![GrammarView::Delimited { elements: seq![GrammarView::OneOf { elements: seq![GrammarView::Ref { name: "TableConstraintSegment"@, optional: false }, GrammarView::Ref { name: "ColumnDefinitionSegment"@, optional: false }], terminators: seq![] }], allow_trailing: false, delimiter: None, terminators: seq![], allow_gaps: true }], bracket_type: "round"@ }, GrammarView::Ref { name: "CommentClauseSegment"@, optional: true }], terminators: seq![], parse_mode: ParseMode::Strict }, GrammarView::Sequence { elements: seq![GrammarView::Keyword { word: "AS"@ }, GrammarView::OneOf { elements: seq![GrammarView::Bracketed { elements: seq![GrammarView::Ref { name: "SelectableGrammar"@, optional: false }], bracket_type: "round"@ }, GrammarView::Ref { name: "SelectableGrammar"@, optional: false }], terminators: seq![] }], terminators: seq![], parse_mode: ParseMode::Strict }, GrammarView::Sequence { elements: seq![GrammarView::Keyword { word: "LIKE"@ }, GrammarView::Ref { name: "TableReferenceSegment"@, optional: false }], terminators: seq![], parse_mode: ParseMode::Strict }], terminators: seq![] }, GrammarView::Ref { name: "TableEndClauseSegment"@, optional: true }]);
    let g27: Vec<Grammar> = Vec::new();
    assert(views(g27@) =~= Seq::<GrammarView>::empty());
    let g28 = Grammar::sequence_with(g26, g27, ParseMode::Strict);
    Element::Node { kind: "create_table_statement", grammar: g28 }
}

/// The ANSI element `AccessStatementSegment`.
pub open spec fn access_statement_segment_element() -> ElementView {
    ElementView::Node { kind: "access_statement"@, grammar: GrammarView::OneOf { elements: seq![GrammarView::Sequence { elements: seq![GrammarView::Keyword { word: "GRANT"@ }, GrammarView::OneOf { elements: seq![GrammarView::Sequence { elements: seq![GrammarView::Delimited { elements: seq![GrammarView::OneOf { elements: seq![GrammarView::OneOf { elements: seq![GrammarView::Sequence { elements: seq![GrammarView::Keyword { word: "CREATE"@ }, GrammarView::OneOf { elements: seq![GrammarView::Keyword { word: "ROLE"@ }, GrammarView::Keyword { word: "USER"@ }, GrammarView::Keyword { word: "WAREHOUSE"@ }, GrammarView::Keyword { word: "DATABASE"@ }, GrammarView::Keyword { word: "INTEGRATION"@ }], terminators: seq![] }], terminators: seq![], parse_mode: ParseMode::Strict }, GrammarView::Sequence { elements: seq![GrammarView::Keyword { word: "APPLY"@ }, GrammarView::Keyword { word: "MASKING"@ }, GrammarView::Keyword { word: "POLICY"@ }], terminators: seq![], parse_mode: ParseMode::Strict }, GrammarView::Sequence { elements: seq![GrammarView::Keyword { word: "EXECUTE"@ }, GrammarView::Keyword { word: "TASK"@ }], terminators: seq![], parse_mode: ParseMode::Strict }, GrammarView::Sequence { elements: seq![GrammarView::Keyword { word: "MANAGE"@ }, GrammarView::Keyword { word: "GRANTS"@ }], terminators: seq![], parse_mode: ParseMode::Strict }, GrammarView::Sequence { elements: seq![GrammarView::Keyword { word: "MONITOR"@ }, GrammarView::OneOf { elements: seq![GrammarView::Keyword { word: "EXECUTION"@ }, GrammarView::Keyword { word: "USAGE"@ }], terminators: seq![] }], terminators: seq![], parse_mode: ParseMode::Strict }], terminators: seq![] }, GrammarView::Sequence { elements: seq![GrammarView::OneOf { elements: seq![GrammarView::Sequence { elements: seq![GrammarView::Keyword { word: "CREATE"@ }, GrammarView::OneOf { elements: seq![GrammarView::Keyword { word: "SCHEMA"@ }, GrammarView::Sequence { elements: seq![GrammarView::Keyword { word: "MASKING"@ }, GrammarView::Keyword { word: "POLICY"@ }], terminators: seq![], parse_mode: ParseMode::Strict }, GrammarView::Keyword { word: "PIPE"@ }, GrammarView::OneOf { elements: seq![GrammarView::Keyword { word: "TABLE"@ }, GrammarView::Keyword { word: "VIEW"@ }, GrammarView::Keyword { word: "STAGE"@ }, GrammarView::Keyword { word: "FUNCTION"@ }, GrammarView::Keyword { word: "PROCEDURE"@ }, GrammarView::Keyword { word: "ROUTINE"@ }, GrammarView::Keyword { word: "SEQUENCE"@ }, GrammarView::Keyword { word: "STREAM"@ }, GrammarView::Keyword { word: "TASK"@ }], terminators: seq![] }], terminators: seq![] }], terminators: seq![], parse_mode: ParseMode::Strict }, GrammarView::Sequence { elements: seq![GrammarView::Keyword { word: "IMPORTED"@ }, GrammarView::Keyword { word: "PRIVILEGES"@ }], terminators: seq![], parse_mode: ParseMode::Strict }, GrammarView::Keyword { word: "APPLY"@ }, GrammarView::Keyword { word: "CONNECT"@ }, GrammarView::Keyword { word: "CREATE"@ }, GrammarView::Keyword { word: "DELETE"@ }, GrammarView::Keyword { word: "EXECUTE"@ }, GrammarView::Keyword { word: "INSERT"@ }, GrammarView::Keyword { word: "MODIFY"@ }, GrammarView::Keyword { word: "MONITOR"@ }, GrammarView::Keyword { word: "OPERATE"@ }, GrammarView::Keyword { word: "OWNERSHIP"@ }, GrammarView::Keyword { word: "READ"@ }, GrammarView::Keyword { word: "REFERENCE_USAGE"@ }, GrammarView::Keyword { word: "REFERENCES"@ }, GrammarView::Keyword { word: "SELECT"@ }, GrammarView::Keyword { word: "TEMP"@ }, GrammarView::Keyword { word: "TEMPORARY"@ }, GrammarView::Keyword { word: "TRIGGER"@ }, GrammarView::Keyword { word: "TRUNCATE"@ }, GrammarView::Keyword { word: "UPDATE"@ }, GrammarView::Keyword { word: "USAGE"@ }, GrammarView::Keyword { word: "USE_ANY_ROLE"@ }, GrammarView::Keyword { word: "WRITE"@ }, GrammarView::Sequence { elements: seq![GrammarView::Keyword { word: "ALL"@ }, GrammarView::Optional { grammar: Box::new(GrammarView::Keyword { word: "PRIVILEGES"@ }) }], terminators: seq![], parse_mode: ParseMode::Strict }], terminators: seq![] }, GrammarView::Ref { name: "BracketedColumnReferenceListGrammar"@, optional: true }], terminators: seq![], parse_mode: ParseMode::Strict }], terminators: seq![] }], allow_trailing: false, delimiter: None, terminators: seq![GrammarView::Keyword { word: "ON"@ }], allow_gaps: true }, GrammarView::Keyword { word: "ON"@ }, GrammarView::OneOf { elements: seq![GrammarView::Keyword { word: "ACCOUNT"@ }, GrammarView::Sequence { elements: seq![GrammarView::Optional { grammar: Box::new(GrammarView::OneOf { elements: seq![GrammarView::Sequence { elements: seq![GrammarView::Keyword { word: "RESOURCE"@ }, GrammarView::Keyword { word: "MONITOR"@ }], terminators: seq![], parse_mode: ParseMode::Strict }, GrammarView::Keyword { word: "WAREHOUSE"@ }, GrammarView::Keyword { word: "DATABASE"@ }, GrammarView::Keyword { word: "DOMAIN"@ }, GrammarView::Keyword { word: "INTEGRATION"@ }, GrammarView::Keyword { word: "LANGUAGE"@ }, GrammarView::Keyword { word: "SCHEMA"@ }, GrammarView::Keyword { word: "ROLE"@ }, GrammarView::Keyword { word: "TABLESPACE"@ }, GrammarView::Keyword { word: "TYPE"@ }, GrammarView::Sequence { elements: seq![GrammarView::Keyword { word: "FOREIGN"@ }, GrammarView::OneOf { elements: seq![GrammarView::Keyword { word: "SERVER"@ }, GrammarView::Sequence { elements: seq![GrammarView::Keyword { word: "DATA"@ }, GrammarView::Keyword { word: "WRAPPER"@ }], terminators: seq![], parse_mode: ParseMode::Strict }], terminators: seq![] }], terminators: seq![], parse_mode: ParseMode::Strict }, GrammarView::Sequence { elements: seq![GrammarView::Keyword { word: "ALL"@ }, GrammarView::Keyword { word: "SCHEMAS"@ }, GrammarView::Keyword { word: "IN"@ }, GrammarView::Keyword { word: "DATABASE"@ }], terminators: seq![], parse_mode: ParseMode::Strict }, GrammarView::Sequence { elements: seq![GrammarView::Keyword { word: "FUTURE"@ }, GrammarView::Keyword { word: "SCHEMAS"@ }, GrammarView::Keyword { word: "IN"@ }, GrammarView::Keyword { word: "DATABASE"@ }], terminators: seq![], parse_mode: ParseMode::Strict }, GrammarView::OneOf { elements: seq![GrammarView::Keyword { word: "TABLE"@ }, GrammarView::Keyword { word: "VIEW"@ }, GrammarView::Keyword { word: "STAGE"@ }, GrammarView::Keyword { word: "FUNCTION"@ }, GrammarView::Keyword { word: "PROCEDURE"@ }, GrammarView::Keyword { word: "ROUTINE"@ }, GrammarView::Keyword { word: "SEQUENCE"@ }, GrammarView::Keyword { word: "STREAM"@ }, GrammarView::Keyword { word: "TASK"@ }], terminators: seq![] }, GrammarView::Sequence { elements: seq![GrammarView::Keyword { word: "ALL"@ }, GrammarView::OneOf { elements: seq![GrammarView::Keyword { word: "TABLES"@ }, GrammarView::Keyword { word: "VIEWS"@ }, GrammarView::Keyword { word: "STAGES"@ }, GrammarView::Keyword { word: "FUNCTIONS"@ }, GrammarView::Keyword { word: "PROCEDURES"@ }, GrammarView::Keyword { word: "ROUTINES"@ }, GrammarView::Keyword { word: "SEQUENCES"@ }, GrammarView::Keyword { word: "STREAMS"@ }, GrammarView::Keyword { word: "TASKS"@ }], terminators: seq![] }, GrammarView::Keyword { word: "IN"@ }, GrammarView::Keyword { word: "SCHEMA"@ }], terminators: seq![], parse_mode: ParseMode::Strict }, GrammarView::Sequence { elements: seq![GrammarView::Keyword { word: "FUTURE"@ }, GrammarView::Keyword { word: "IN"@ }, GrammarView::OneOf { elements: seq![GrammarView::Keyword { word: "DATABASE"@ }, GrammarView::Keyword { word: "SCHEMA"@ }], terminators: seq![] }], terminators: seq![], parse_mode: ParseMode::Strict }], terminators: seq![] }) }, GrammarView::Delimited { elements: seq![GrammarView::Ref { name: "ObjectReferenceSegment"@, optional: false }, GrammarView::Sequence { elements: seq![GrammarView::Ref { name: "FunctionNameSegment"@, optional: false }, GrammarView::Ref { name: "FunctionParameterListGrammar"@, optional: true }], terminators: seq![], parse_mode: ParseMode::Strict }], allow_trailing: false, delimiter: None, terminators: seq![GrammarView::Keyword { word: "TO"@ }, GrammarView::Keyword { word: "FROM"@ }], allow_gaps: true }], terminators: seq![], parse_mode: ParseMode::Strict }, GrammarView::Sequence { elements: seq![GrammarView::Keyword { word: "LARGE"@ }, GrammarView::Keyword { word: "OBJECT"@ }, GrammarView::Ref { name: "NumericLiteralSegment"@, optional: false }], terminators: seq![], parse_mode: ParseMode::Strict }], terminators: seq![] }], terminators: seq![], parse_mode: ParseMode::Strict }, GrammarView::Sequence { elements: seq![GrammarView::Keyword { word: "ROLE"@ }, GrammarView::Ref { name: "ObjectReferenceSegment"@, optional: false }], terminators: seq![], parse_mode: ParseMode::Strict }, GrammarView::Sequence { elements: seq![GrammarView::Keyword { word: "OWNERSHIP"@ }, GrammarView::Keyword { word: "ON"@ }, GrammarView::Keyword { word: "USER"@ }, GrammarView::Ref { name: "ObjectReferenceSegment"@, optional: false }], terminators: seq![], parse_mode: ParseMode::Strict }, GrammarView::Ref { name: "ObjectReferenceSegment"@, optional: false }], terminators: seq![] }, GrammarView::Keyword { word: "TO"@ }, GrammarView::Optional { grammar: Box::new(GrammarView::OneOf { elements: seq![GrammarView::Keyword { word: "GROUP"@ }, GrammarView::Keyword { word: "USER"@ }, GrammarView::Keyword { word: "ROLE"@ }, GrammarView::Keyword { word: "SHARE"@ }], terminators: seq![] }) }, GrammarView::Delimited { elements: seq![GrammarView::OneOf { elements: seq![GrammarView::Ref { name: "RoleReferenceSegment"@, optional: false }, GrammarView::Ref { name: "FunctionSegment"@, optional: false }, GrammarView::Keyword { word: "PUBLIC"@ }], terminators: seq![] }], allow_trailing: false, delimiter: None, terminators: seq![], allow_gaps: true }, GrammarView::Ref { name: "AccessStatementSegmentGrantRoleWithOptionGrammar"@, optional: true }, GrammarView::Optional { grammar: Box::new(GrammarView::Sequence { elements: seq![GrammarView::Keyword { word: "GRANTED"@ }, GrammarView::Keyword { word: "BY"@ }, GrammarView::OneOf { elements: seq![GrammarView::Keyword { word: "CURRENT_USER"@ }, GrammarView::Keyword { word: "SESSION_USER"@ }, GrammarView::Ref { name: "ObjectReferenceSegment"@, optional: false }], terminators: seq![] }], terminators: seq![], parse_mode: ParseMode::Strict }) }], terminators: seq![], parse_mode: ParseMode::Strict }, GrammarView::Sequence { elements: seq![GrammarView::Keyword { word: "REVOKE"@ }, GrammarView::Optional { grammar: Box::new(GrammarView::Sequence { elements: seq![GrammarView::Keyword { word: "GRANT"@ }, GrammarView::Keyword { word: "OPTION"@ }, GrammarView::Keyword { word: "FOR"@ }], terminators: seq![], parse_mode: ParseMode::Strict }) }, GrammarView::OneOf { elements: seq![GrammarView::Sequence { elements: seq![GrammarView::Delimited { elements: seq![GrammarView::OneOf { elements: seq![GrammarView::OneOf { elements: seq![GrammarView::Sequence { elements: seq![GrammarView::Keyword { word: "CREATE"@ }, GrammarView::OneOf { elements: seq![GrammarView::Keyword { word: "ROLE"@ }, GrammarView::Keyword { word: "USER"@ }, GrammarView::Keyword { word: "WAREHOUSE"@ }, GrammarView::Keyword { word: "DATABASE"@ }, GrammarView::Keyword { word: "INTEGRATION"@ }], terminators: seq![] }], terminators: seq![], parse_mode: ParseMode::Strict }, GrammarView::Sequence { elements: seq![GrammarView::Keyword { word: "APPLY"@ }, GrammarView::Keyword { word: "MASKING"@ }, GrammarView::Keyword { word: "POLICY"@ }], terminators: seq![], parse_mode: ParseMode::Strict }, GrammarView::Sequence { elements: seq![GrammarView::Keyword { word: "EXECUTE"@ }, GrammarView::Keyword { word: "TASK"@ }], terminators: seq![], parse_mode: ParseMode::Strict }, GrammarView::Sequence { elements: seq![GrammarView::Keyword { word: "MANAGE"@ }, GrammarView::Keyword { word: "GRANTS"@ }], terminators: seq![], parse_mode: ParseMode::Strict }, GrammarView::Sequence { elements: seq![GrammarView::Keyword { word: "MONITOR"@ }, GrammarView::OneOf { elements: seq![GrammarView::Keyword { word: "EXECUTION"@ }, GrammarView::Keyword { word: "USAGE"@ }], terminators: seq![] }], terminators: seq![], parse_mode: ParseMode::Strict }], terminators: seq![] }, GrammarView::Sequence { elements: seq![GrammarView::OneOf { elements: seq![GrammarView::Sequence { elements: seq![GrammarView::Keyword { word: "CREATE"@ }, GrammarView::OneOf { elements: seq![GrammarView::Keyword { word: "SCHEMA"@ }, GrammarView::Sequence { elements: seq![GrammarView::Keyword { word: "MASKING"@ }, GrammarView::Keyword { word: "POLICY"@ }], terminators: seq![], parse_mode: ParseMode::Strict }, GrammarView::Keyword { word: "PIPE"@ }, GrammarView::OneOf { elements: seq![GrammarView::Keyword { word: "TABLE"@ }, GrammarView::Keyword { word: "VIEW"@ }, GrammarView::Keyword { word: "STAGE"@ }, GrammarView::Keyword { word: "FUNCTION"@ }, GrammarView::Keyword { word: "PROCEDURE"@ }, GrammarView::Keyword { word: "ROUTINE"@ }, GrammarView::Keyword { word: "SEQUENCE"@ }, GrammarView::Keyword { word: "STREAM"@ }, GrammarView::Keyword { word: "TASK"@ }], terminators: seq![] }], terminators: seq![] }], terminators: seq![], parse_mode: ParseMode::Strict }, GrammarView::Sequence { elements: seq![GrammarView::Keyword { word: "IMPORTED"@ }, GrammarView::Keyword { word: "PRIVILEGES"@ }], terminators: seq![], parse_mode: ParseMode::Strict }, GrammarView::Keyword { word: "APPLY"@ }, GrammarView::Keyword { word: "CONNECT"@ }, GrammarView::Keyword { word: "CREATE"@ }, GrammarView::Keyword { word: "DELETE"@ }, GrammarView::Keyword { word: "EXECUTE"@ }, GrammarView::Keyword { word: "INSERT"@ }, GrammarView::Keyword { word: "MODIFY"@ }, GrammarView::Keyword { word: "MONITOR"@ }, GrammarView::Keyword { word: "OPERATE"@ }, GrammarView::Keyword { word: "OWNERSHIP"@ }, GrammarView::Keyword { word: "READ"@ }, GrammarView::Keyword { word: "REFERENCE_USAGE"@ }, GrammarView::Keyword { word: "REFERENCES"@ }, GrammarView::Keyword { word: "SELECT"@ }, GrammarView::Keyword { word: "TEMP"@ }, GrammarView::Keyword { word: "TEMPORARY"@ }, GrammarView::Keyword { word: "TRIGGER"@ }, GrammarView::Keyword { word: "TRUNCATE"@ }, GrammarView::Keyword { word: "UPDATE"@ }, GrammarView::Keyword { word: "USAGE"@ }, GrammarView::Keyword { word: "USE_ANY_ROLE"@ }, GrammarView::Keyword { word: "WRITE"@ }, GrammarView::Sequence { elements: seq![GrammarView::Keyword { word: "ALL"@ }, GrammarView::Optional { grammar: Box::new(GrammarView::Keyword { word: "PRIVILEGES"@ }) }], terminators: seq![], parse_mode: ParseMode::Strict }], terminators: seq![] }, GrammarView::Ref { name: "BracketedColumnReferenceListGrammar"@, optional: true }], terminators: seq![], parse_mode: ParseMode::Strict }], terminators: seq![GrammarView::Keyword { word: "ON"@ }] }], allow_trailing: false, delimiter: None, terminators: seq![], allow_gaps: true }, GrammarView::Keyword { word: "ON"@ }, GrammarView::OneOf { elements: seq![GrammarView::Keyword { word: "ACCOUNT"@ }, GrammarView::Sequence { elements: seq![GrammarView::Optional { grammar: Box::new(GrammarView::OneOf { elements: seq![GrammarView::Sequence { elements: seq![GrammarView::Keyword { word: "RESOURCE"@ }, GrammarView::Keyword { word: "MONITOR"@ }], terminators: seq![], parse_mode: ParseMode::Strict }, GrammarView::Keyword { word: "WAREHOUSE"@ }, GrammarView::Keyword { word: "DATABASE"@ }, GrammarView::Keyword { word: "DOMAIN"@ }, GrammarView::Keyword { word: "INTEGRATION"@ }, GrammarView::Keyword { word: "LANGUAGE"@ }, GrammarView::Keyword { word: "SCHEMA"@ }, GrammarView::Keyword { word: "ROLE"@ }, GrammarView::Keyword { word: "TABLESPACE"@ }, GrammarView::Keyword { word: "TYPE"@ }, GrammarView::Sequence { elements: seq![GrammarView::Keyword { word: "FOREIGN"@ }, GrammarView::OneOf { elements: seq![GrammarView::Keyword { word: "SERVER"@ }, GrammarView::Sequence { elements: seq![GrammarView::Keyword { word: "DATA"@ }, GrammarView::Keyword { word: "WRAPPER"@ }], terminators: seq![], parse_mode: ParseMode::Strict }], terminators: seq![] }], terminators: seq![], parse_mode: ParseMode::Strict }, GrammarView::Sequence { elements: seq![GrammarView::Keyword { word: "ALL"@ }, GrammarView::Keyword { word: "SCHEMAS"@ }, GrammarView::Keyword { word: "IN"@ }, GrammarView::Keyword { word: "DATABASE"@ }], terminators: seq![], parse_mode: ParseMode::Strict }, GrammarView::Sequence { elements: seq![GrammarView::Keyword { word: "FUTURE"@ }, GrammarView::Keyword { word: "SCHEMAS"@ }, GrammarView::Keyword { word: "IN"@ }, GrammarView::Keyword { word: "DATABASE"@ }], terminators: seq![], parse_mode: ParseMode::Strict }, GrammarView::OneOf { elements: seq![GrammarView::Keyword { word: "TABLE"@ }, GrammarView::Keyword { word: "VIEW"@ }, GrammarView::Keyword { word: "STAGE"@ }, GrammarView::Keyword { word: "FUNCTION"@ }, GrammarView::Keyword { word: "PROCEDURE"@ }, GrammarView::Keyword { word: "ROUTINE"@ }, GrammarView::Keyword { word: "SEQUENCE"@ }, GrammarView::Keyword { word: "STREAM"@ }, GrammarView::Keyword { word: "TASK"@ }], terminators: seq![] }, GrammarView::Sequence { elements: seq![GrammarView::Keyword { word: "ALL"@ }, GrammarView::OneOf { elements: seq![GrammarView::Keyword { word: "TABLES"@ }, GrammarView::Keyword { word: "VIEWS"@ }, GrammarView::Keyword { word: "STAGES"@ }, GrammarView::Keyword { word: "FUNCTIONS"@ }, GrammarView::Keyword { word: "PROCEDURES"@ }, GrammarView::Keyword { word: "ROUTINES"@ }, GrammarView::Keyword { word: "SEQUENCES"@ }, GrammarView::Keyword { word: "STREAMS"@ }, GrammarView::Keyword { word: "TASKS"@ }], terminators: seq![] }, GrammarView::Keyword { word: "IN"@ }, GrammarView::Keyword { word: "SCHEMA"@ }], terminators: seq![], parse_mode: ParseMode::Strict }, GrammarView::Sequence { elements: seq![GrammarView::Keyword { word: "FUTURE"@ }, GrammarView::Keyword { word: "IN"@ }, GrammarView::OneOf { elements: seq![GrammarView::Keyword { word: "DATABASE"@ }, GrammarView::Keyword { word: "SCHEMA"@ }], terminators: seq![] }], terminators: seq![], parse_mode: ParseMode::Strict }], terminators: seq![] }) }, GrammarView::Delimited { elements: seq![GrammarView::Ref { name: "ObjectReferenceSegment"@, optional: false }, GrammarView::Sequence { elements: seq![GrammarView::Ref { name: "FunctionNameSegment"@, optional: false }, GrammarView::Ref { name: "FunctionParameterListGrammar"@, optional: true }], terminators: seq![], parse_mode: ParseMode::Strict }], allow_trailing: false, delimiter: None, terminators: seq![GrammarView::Keyword { word: "TO"@ }, GrammarView::Keyword { word: "FROM"@ }], allow_gaps: true }], terminators: seq![], parse_mode: ParseMode::Strict }, GrammarView::Sequence { elements: seq![GrammarView::Keyword { word: "LARGE"@ }, GrammarView::Keyword { word: "OBJECT"@ }, GrammarView::Ref { name: "NumericLiteralSegment"@, optional: false }], terminators: seq![], parse_mode: ParseMode::Strict }], terminators: seq![] }], terminators: seq![], parse_mode: ParseMode::Strict }, GrammarView::Sequence { elements: seq![GrammarView::Keyword { word: "ROLE"@ }, GrammarView::Ref { name: "ObjectReferenceSegment"@, optional: false }], terminators: seq![], parse_mode: ParseMode::Strict }, GrammarView::Sequence { elements: seq![GrammarView::Keyword { word: "OWNERSHIP"@ }, GrammarView::Keyword { word: "ON"@ }, GrammarView::Keyword { word: "USER"@ }, GrammarView::Ref { name: "ObjectReferenceSegment"@, optional: false }], terminators: seq![], parse_mode: ParseMode::Strict }, GrammarView::Ref { name: "ObjectReferenceSegment"@, optional: false }], terminators: seq![] }, GrammarView::Keyword { word: "FROM"@ }, GrammarView::Optional { grammar: Box::new(GrammarView::OneOf { elements: seq![GrammarView::Keyword { word: "GROUP"@ }, GrammarView::Keyword { word: "USER"@ }, GrammarView::Keyword { word: "ROLE"@ }, GrammarView::Keyword { word: "SHARE"@ }], terminators: seq![] }) }, GrammarView::Delimited { elements: seq![GrammarView::Ref { name: "ObjectReferenceSegment"@, optional: false }], allow_trailing: false, delimiter: None, terminators: seq![], allow_gaps: true }, GrammarView::Ref { name: "DropBehaviorGrammar"@, optional: true }], terminators: seq![], parse_mode: ParseMode::Strict }], terminators: seq![] } }
}

#[verifier::rlimit(100)]
fn build_access_statement_segment() -> (e: Element)
    ensures
        e@ =~~= access_statement_segment_element(),
{
    let g1: Vec<Grammar> = vec![Grammar::keyword("ROLE"), Grammar::keyword("USER"), Grammar::keyword("WAREHOUSE"), Grammar::keyword("DATABASE"), Grammar::keyword("INTEGRATION")];
    assert(views(g1@) =~~= seq![GrammarView::Keyword { word: "ROLE"@ }, GrammarView::Keyword { word: "USER"@ }, GrammarView::Keyword { word: "WAREHOUSE"@ }, GrammarView::Keyword { word: "DATABASE"@ }, GrammarView::Keyword { word: "INTEGRATION"@ }]);
    let g2: Vec<Grammar> = Vec::new();
    assert(views(g2@) =~= Seq::<GrammarView>::empty());
    let g3 = Grammar::one_of_with(g1, g2);
    let g4: Vec<Grammar> = vec![Grammar::keyword("CREATE"), g3];
    assert(views(g4@) =~~= seq![GrammarView::Keyword { word: "CREATE"@ }, GrammarView::OneOf { elements: seq![GrammarView::Keyword { word: "ROLE"@ }, GrammarView::Keyword { word: "USER"@ }, GrammarView::Keyword { word: "WAREHOUSE"@ }, GrammarView::Keyword { word: "DATABASE"@ }, GrammarView::Keyword { word: "INTEGRATION"@ }], terminators: seq![] }]);
    let g5: Vec<Grammar> = Vec::new();
    assert(views(g5@) =~= Seq::<GrammarView>::empty());
    let g6 = Grammar::sequence_with(g4, g5, ParseMode::Strict);
    let g7: Vec<Grammar> = vec![Grammar::keyword("APPLY"), Grammar::keyword("MASKING"), Grammar::keyword("POLICY")];
    assert(views(g7@) =~~= seq![GrammarView::Keyword { word: "APPLY"@ }, GrammarView::Keyword { word: "MASKING"@ }, GrammarView::Keyword { word: "POLICY"@ }]);
    let g8: Vec<Grammar> = Vec::new();
    assert(views(g8@) =~= Seq::<GrammarView>::empty());
    let g9 = Grammar::sequence_with(g7, g8, ParseMode::Strict);
    let g10: Vec<Grammar> = vec![Grammar::keyword("EXECUTE"), Grammar::keyword("TASK")];
    assert(views(g10@) =~~= seq![GrammarView::Keyword { word: "EXECUTE"@ }, GrammarView::Keyword { word: "TASK"@ }]);
    let g11: Vec<Grammar> = Vec::new();
    assert(views(g11@) =~= Seq::<GrammarView>::empty());
    let g12 = Grammar::sequence_with(g10, g11, ParseMode::Strict);
    let g13: Vec<Grammar> = vec![Grammar::keyword("MANAGE"), Grammar::keyword("GRANTS")];
    assert(views(g13@) =~~= seq![GrammarView::Keyword { word: "MANAGE"@ }, GrammarView::Keyword { word: "GRANTS"@ }]);
    let g14: Vec<Grammar> = Vec::new();
    assert(views(g14@) =~= Seq::<GrammarView>::empty());
    let g15 = Grammar::sequence_with(g13, g14, ParseMode::Strict);
    let g16: Vec<Grammar> = vec![Grammar::keyword("EXECUTION"), Grammar::keyword("USAGE")];
    assert(views(g16@) =~~= seq![GrammarView::Keyword { word: "EXECUTION"@ }, GrammarView::Keyword { word: "USAGE"@ }]);
    let g17: Vec<Grammar> = Vec::new();
    assert(views(g17@) =~= Seq::<GrammarView>::empty());
    let g18 = Grammar::one_of_with(g16, g17);
    let g19: Vec<Grammar> = vec![Grammar::keyword("MONITOR"), g18];
    assert(views(g19@) =~~= seq![GrammarView::Keyword { word: "MONITOR"@ }, GrammarView::OneOf { elements: seq![GrammarView::Keyword { word: "EXECUTION"@ }, GrammarView::Keyword { word: "USAGE"@ }], terminators: seq![] }]);
    let g20: Vec<Grammar> = Vec::new();
    assert(views(g20@) =~= Seq::<GrammarView>::empty());
    let g21 = Grammar::sequence_with(g19, g20, ParseMode::Strict);
    let g22: Vec<Grammar> = vec![g6, g9, g12, g15, g21];
    assert(views(g22@) =~~= seq![GrammarView::Sequence { elements: seq![GrammarView::Keyword { word: "CREATE"@ }, GrammarView::OneOf { elements: seq![GrammarView::Keyword { word: "ROLE"@ }, GrammarView::Keyword { word: "USER"@ }, GrammarView::Keyword { word: "WAREHOUSE"@ }, GrammarView::Keyword { word: "DATABASE"@ }, GrammarView::Keyword { word: "INTEGRATION"@ }], terminators: seq![] }], terminators: seq![], parse_mode: ParseMode::Strict }, GrammarView::Sequence { elements: seq![GrammarView::Keyword { word: "APPLY"@ }, GrammarView::Keyword { word: "MASKING"@ }, GrammarView::Keyword { word: "POLICY"@ }], terminators: seq![], parse_mode: ParseMode::Strict }, GrammarView::Sequence { elements: seq![GrammarView::Keyword { word: "EXECUTE"@ }, GrammarView::Keyword { word: "TASK"@ }], terminators: seq![], parse_mode: ParseMode::Strict }, GrammarView::Sequence { elements: seq![GrammarView::Keyword { word: "MANAGE"@ }, GrammarView::Keyword { word: "GRANTS"@ }], terminators: seq![], parse_mode: ParseMode::Strict }, GrammarView::Sequence { elements: seq![GrammarView::Keyword { word: "MONITOR"@ }, GrammarView::OneOf { elements: seq![GrammarView::Keyword { word: "EXECUTION"@ }, GrammarView::Keyword { word: "USAGE"@ }], terminators: seq![] }], terminators: seq![], parse_mode: ParseMode::Strict }]);
    let g23: Vec<Grammar> = Vec::new();
    assert(views(g23@) =~= Seq::<GrammarView>::empty());
    let g24 = Grammar::one_of_with(g22, g23);
    let g25: Vec<Grammar> = vec![Grammar::keyword("MASKING"), Grammar::keyword("POLICY")];
    assert(views(g25@) =~~= seq![GrammarView::Keyword { word: "MASKING"@ }, GrammarView::Keyword { word: "POLICY"@ }]);
    let g26: Vec<Grammar> = Vec::new();
    assert(views(g26@) =~= Seq::<GrammarView>::empty());
    let g27 = Grammar::sequence_with(g25, g26, ParseMode::Strict);
    let g28: Vec<Grammar> = vec![Grammar::keyword("TABLE"), Grammar::keyword("VIEW"), Grammar::keyword("STAGE"), Grammar::keyword("FUNCTION"), Grammar::keyword("PROCEDURE"), Grammar::keyword("ROUTINE"), Grammar::keyword("SEQUENCE"), Grammar::keyword("STREAM"), Grammar::keyword("TASK")];
    assert(views(g28@) =~~= seq![GrammarView::Keyword { word: "TABLE"@ }, GrammarView::Keyword { word: "VIEW"@ }, GrammarView::Keyword { word: "STAGE"@ }, GrammarView::Keyword { word: "FUNCTION"@ }, GrammarView::Keyword { word: "PROCEDURE"@ }, GrammarView::Keyword { word: "ROUTINE"@ }, GrammarView::Keyword { word: "SEQUENCE"@ }, GrammarView::Keyword { word: "STREAM"@ }, GrammarView::Keyword { word: "TASK"@ }]);
    let g29: Vec<Grammar> = Vec::new();
    assert(views(g29@) =~= Seq::<GrammarView>::empty());
    let g30 = Grammar::one_of_with(g28, g29);
    let g31: Vec<Grammar> = vec![Grammar::keyword("SCHEMA"), g27, Grammar::keyword("PIPE"), g30];
    assert(views(g31@) =~~= seq![GrammarView::Keyword { word: "SCHEMA"@ }, GrammarView::Sequence { elements: seq![GrammarView::Keyword { word: "MASKING"@ }, GrammarView::Keyword { word: "POLICY"@ }], terminators: seq![], parse_mode: ParseMode::Strict }, GrammarView::Keyword { word: "PIPE"@ }, GrammarView::OneOf { elements: seq![GrammarView::Keyword { word: "TABLE"@ }, GrammarView::Keyword { word: "VIEW"@ }, GrammarView::Keyword { word: "STAGE"@ }, GrammarView::Keyword { word: "FUNCTION"@ }, GrammarView::Keyword { word: "PROCEDURE"@ }, GrammarView::Keyword { word: "ROUTINE"@ }, GrammarView::Keyword { word: "SEQUENCE"@ }, GrammarView::Keyword { word: "STREAM"@ }, GrammarView::Keyword { word: "TASK"@ }], terminators: seq![] }]);
    let g32: Vec<Grammar> = Vec::new();
    assert(views(g32@) =~= Seq::<GrammarView>::empty());
    let g33 = Grammar::one_of_with(g31, g32);
    let g34: Vec<Grammar> = vec![Grammar::keyword("CREATE"), g33];
    assert(views(g34@) =~~= seq![GrammarView::Keyword { word: "CREATE"@ }, GrammarView::OneOf { elements: seq![GrammarView::Keyword { word: "SCHEMA"@ }, GrammarView::Sequence { elements: seq![GrammarView::Keyword { word: "MASKING"@ }, GrammarView::Keyword { word: "POLICY"@ }], terminators: seq![], parse_mode: ParseMode::Strict }, GrammarView::Keyword { word: "PIPE"@ }, GrammarView::OneOf { elements: seq![GrammarView::Keyword { word: "TABLE"@ }, GrammarView::Keyword { word: "VIEW"@ }, GrammarView::Keyword { word: "STAGE"@ }, GrammarView::Keyword { word: "FUNCTION"@ }, GrammarView::Keyword { word: "PROCEDURE"@ }, GrammarView::Keyword { word: "ROUTINE"@ }, GrammarView::Keyword { word: "SEQUENCE"@ }, GrammarView::Keyword { word: "STREAM"@ }, GrammarView::Keyword { word: "TASK"@ }], terminators: seq![] }], terminators: seq![] }]);
    let g35: Vec<Grammar> = Vec::new();
    assert(views(g35@) =~= Seq::<GrammarView>::empty());
    let g36 = Grammar::sequence_with(g34, g35, ParseMode::Strict);
    let g37: Vec<Grammar> = vec![Grammar::keyword("IMPORTED"), Grammar::keyword("PRIVILEGES")];
    assert(views(g37@) =~~= seq![GrammarView::Keyword { word: "IMPORTED"@ }, GrammarView::Keyword { word: "PRIVILEGES"@ }]);
    let g38: Vec<Grammar> = Vec::new();
    assert(views(g38@) =~= Seq::<GrammarView>::empty());
    let g39 = Grammar::sequence_with(g37, g38, ParseMode::Strict);
    let g40 = Grammar::keyword("PRIVILEGES").optional();
    let g41: Vec<Grammar> = vec![Grammar::keyword("ALL"), g40];
    assert(views(g41@) =~~= seq![GrammarView::Keyword { word: "ALL"@ }, GrammarView::Optional { grammar: Box::new(GrammarView::Keyword { word: "PRIVILEGES"@ }) }]);
    let g42: Vec<Grammar> = Vec::new();
    assert(views(g42@) =~= Seq::<GrammarView>::empty());
    let g43 = Grammar::sequence_with(g41, g42, ParseMode::Strict);
    let g44: Vec<Grammar> = vec![g36, g39, Grammar::keyword("APPLY"), Grammar::keyword("CONNECT"), Grammar::keyword("CREATE"), Grammar::keyword("DELETE"), Grammar::keyword("EXECUTE"), Grammar::keyword("INSERT"), Grammar::keyword("MODIFY"), Grammar::keyword("MONITOR"), Grammar::keyword("OPERATE"), Grammar::keyword("OWNERSHIP"), Grammar::keyword("READ"), Grammar::keyword("REFERENCE_USAGE"), Grammar::keyword("REFERENCES"), Grammar::keyword("SELECT"), Grammar::keyword("TEMP"), Grammar::keyword("TEMPORARY"), Grammar::keyword("TRIGGER"), Grammar::keyword("TRUNCATE"), Grammar::keyword("UPDATE"), Grammar::keyword("USAGE"), Grammar::keyword("USE_ANY_ROLE"), Grammar::keyword("WRITE"), g43];
    assert(views(g44@) =~~= seq![GrammarView::Sequence { elements: seq![GrammarView::Keyword { word: "CREATE"@ }, GrammarView::OneOf { elements: seq![GrammarView::Keyword { word: "SCHEMA"@ }, GrammarView::Sequence { elements: seq![GrammarView::Keyword { word: "MASKING"@ }, GrammarView::Keyword { word: "POLICY"@ }], terminators: seq![], parse_mode: ParseMode::Strict }, GrammarView::Keyword { word: "PIPE"@ }, GrammarView::OneOf { elements: seq![GrammarView::Keyword { word: "TABLE"@ }, GrammarView::Keyword { word: "VIEW"@ }, GrammarView::Keyword { word: "STAGE"@ }, GrammarView::Keyword { word: "FUNCTION"@ }, GrammarView::Keyword { word: "PROCEDURE"@ }, GrammarView::Keyword { word: "ROUTINE"@ }, GrammarView::Keyword { word: "SEQUENCE"@ }, GrammarView::Keyword { word: "STREAM"@ }, GrammarView::Keyword { word: "TASK"@ }], terminators: seq![] }], terminators: seq![] }], terminators: seq![], parse_mode: ParseMode::Strict }, GrammarView::Sequence { elements: seq![GrammarView::Keyword { word: "IMPORTED"@ }, GrammarView::Keyword { word: "PRIVILEGES"@ }], terminators: seq![], parse_mode: ParseMode::Strict }, GrammarView::Keyword { word: "APPLY"@ }, GrammarView::Keyword { word: "CONNECT"@ }, GrammarView::Keyword { word: "CREATE"@ }, GrammarView::Keyword { word: "DELETE"@ }, GrammarView::Keyword { word: "EXECUTE"@ }, GrammarView::Keyword { word: "INSERT"@ }, GrammarView::Keyword { word: "MODIFY"@ }, GrammarView::Keyword { word: "MONITOR"@ }, GrammarView::Keyword { word: "OPERATE"@ }, GrammarView::Keyword { word: "OWNERSHIP"@ }, GrammarView::Keyword { word: "READ"@ }, GrammarView::Keyword { word: "REFERENCE_USAGE"@ }, GrammarView::Keyword { word: "REFERENCES"@ }, GrammarView::Keyword { word: "SELECT"@ }, GrammarView::Keyword { word: "TEMP"@ }, GrammarView::Keyword { word: "TEMPORARY"@ }, GrammarView::Keyword { word: "TRIGGER"@ }, GrammarView::Keyword { word: "TRUNCATE"@ }, GrammarView::Keyword { word: "UPDATE"@ }, GrammarView::Keyword { word: "USAGE"@ }, GrammarView::Keyword { word: "USE_ANY_ROLE"@ }, GrammarView::Keyword { word: "WRITE"@ }, GrammarView::Sequence { elements: seq![GrammarView::Keyword { word: "ALL"@ }, GrammarView::Optional { grammar: Box::new(GrammarView::Keyword { word: "PRIVILEGES"@ }) }], terminators: seq![], parse_mode: ParseMode::Strict }]);
    let g45: Vec<Grammar> = Vec::new();
    assert(views(g45@) =~= Seq::<GrammarView>::empty());
    let g46 = Grammar::one_of_with(g44, g45);
    let g47: Vec<Grammar> = vec![g46, Grammar::optional_reference("BracketedColumnReferenceListGrammar")];
    assert(views(g47@) =~~= seq![GrammarView::OneOf { elements: seq![GrammarView::Sequence { elements: seq![GrammarView::Keyword { word: "CREATE"@ }, GrammarView::OneOf { elements: seq![GrammarView::Keyword { word: "SCHEMA"@ }, GrammarView::Sequence { elements: seq![GrammarView::Keyword { word: "MASKING"@ }, GrammarView::Keyword { word: "POLICY"@ }], terminators: seq![], parse_mode: ParseMode::Strict }, GrammarView::Keyword { word: "PIPE"@ }, GrammarView::OneOf { elements: seq![GrammarView::Keyword { word: "TABLE"@ }, GrammarView::Keyword { word: "VIEW"@ }, GrammarView::Keyword { word: "STAGE"@ }, GrammarView::Keyword { word: "FUNCTION"@ }, GrammarView::Keyword { word: "PROCEDURE"@ }, GrammarView::Keyword { word: "ROUTINE"@ }, GrammarView::Keyword { word: "SEQUENCE"@ }, GrammarView::Keyword { word: "STREAM"@ }, GrammarView::Keyword { word: "TASK"@ }], terminators: seq![] }], terminators: seq![] }], terminators: seq![], parse_mode: ParseMode::Strict }, GrammarView::Sequence { elements: seq![GrammarView::Keyword { word: "IMPORTED"@ }, GrammarView::Keyword { word: "PRIVILEGES"@ }], terminators: seq![], parse_mode: ParseMode::Strict }, GrammarView::Keyword { word: "APPLY"@ }, GrammarView::Keyword { word: "CONNECT"@ }, GrammarView::Keyword { word: "CREATE"@ }, GrammarView::Keyword { word: "DELETE"@ }, GrammarView::Keyword { word: "EXECUTE"@ }, GrammarView::Keyword { word: "INSERT"@ }, GrammarView::Keyword { word: "MODIFY"@ }, GrammarView::Keyword { word: "MONITOR"@ }, GrammarView::Keyword { word: "OPERATE"@ }, GrammarView::Keyword { word: "OWNERSHIP"@ }, GrammarView::Keyword { word: "READ"@ }, GrammarView::Keyword { word: "REFERENCE_USAGE"@ }, GrammarView::Keyword { word: "REFERENCES"@ }, GrammarView::Keyword { word: "SELECT"@ }, GrammarView::Keyword { word: "TEMP"@ }, GrammarView::Keyword { word: "TEMPORARY"@ }, GrammarView::Keyword { word: "TRIGGER"@ }, GrammarView::Keyword { word: "TRUNCATE"@ }, GrammarView::Keyword { word: "UPDATE"@ }, GrammarView::Keyword { word: "USAGE"@ }, GrammarView::Keyword { word: "USE_ANY_ROLE"@ }, GrammarView::Keyword { word: "WRITE"@ }, GrammarView::Sequence { elements: seq![GrammarView::Keyword { word: "ALL"@ }, GrammarView::Optional { grammar: Box::new(GrammarView::Keyword { word: "PRIVILEGES"@ }) }], terminators: seq![], parse_mode: ParseMode::Strict }], terminators: seq![] }, GrammarView::Ref { name: "BracketedColumnReferenceListGrammar"@, optional: true }]);
    let g48: Vec<Grammar> = Vec::new();
    assert(views(g48@) =~= Seq::<GrammarView>::empty());
    let g49 = Grammar::sequence_with(g47, g48, ParseMode::Strict);
    let g50: Vec<Grammar> = vec![g24, g49];
    assert(views(g50@) =~~= seq![GrammarView::OneOf { elements: seq![GrammarView::Sequence { elements: seq![GrammarView::Keyword { word: "CREATE"@ }, GrammarView::OneOf { elements: seq![GrammarView::Keyword { word: "ROLE"@ }, GrammarView::Keyword { word: "USER"@ }, GrammarView::Keyword { word: "WAREHOUSE"@ }, GrammarView::Keyword { word: "DATABASE"@ }, GrammarView::Keyword { word: "INTEGRATION"@ }], terminators: seq![] }], terminators: seq![], parse_mode: ParseMode::Strict }, GrammarView::Sequence { elements: seq![GrammarView::Keyword { word: "APPLY"@ }, GrammarView::Keyword { word: "MASKING"@ }, GrammarView::Keyword { word: "POLICY"@ }], terminators: seq![], parse_mode: ParseMode::Strict }, GrammarView::Sequence { elements: seq![GrammarView::Keyword { word: "EXECUTE"@ }, GrammarView::Keyword { word: "TASK"@ }], terminators: seq![], parse_mode: ParseMode::Strict }, GrammarView::Sequence { elements: seq![GrammarView::Keyword { word: "MANAGE"@ }, GrammarView::Keyword { word: "GRANTS"@ }], terminators: seq![], parse_mode: ParseMode::Strict }, GrammarView::Sequence { elements: seq![GrammarView::Keyword { word: "MONITOR"@ }, GrammarView::OneOf { elements: seq![GrammarView::Keyword { word: "EXECUTION"@ }, GrammarView::Keyword { word: "USAGE"@ }], terminators: seq![] }], terminators: seq![], parse_mode: ParseMode::Strict }], terminators: seq![] }, GrammarView::Sequence { elements: seq![GrammarView::OneOf { elements: seq![GrammarView::Sequence { elements: seq![GrammarView::Keyword { word: "CREATE"@ }, GrammarView::OneOf { elements: seq![GrammarView::Keyword { word: "SCHEMA"@ }, GrammarView::Sequence { elements: seq![GrammarView::Keyword { word: "MASKING"@ }, GrammarView::Keyword { word: "POLICY"@ }], terminators: seq![], parse_mode: ParseMode::Strict }, GrammarView::Keyword { word: "PIPE"@ }, GrammarView::OneOf { elements: seq![GrammarView::Keyword { word: "TABLE"@ }, GrammarView::Keyword { word: "VIEW"@ }, GrammarView::Keyword { word: "STAGE"@ }, GrammarView::Keyword { word: "FUNCTION"@ }, GrammarView::Keyword { word: "PROCEDURE"@ }, GrammarView::Keyword { word: "ROUTINE"@ }, GrammarView::Keyword { word: "SEQUENCE"@ }, GrammarView::Keyword { word: "STREAM"@ }, GrammarView::Keyword { word: "TASK"@ }], terminators: seq![] }], terminators: seq![] }], terminators: seq![], parse_mode: ParseMode::Strict }, GrammarView::Sequence { elements: seq![GrammarView::Keyword { word: "IMPORTED"@ }, GrammarView::Keyword { word: "PRIVILEGES"@ }], terminators: seq![], parse_mode: ParseMode::Strict }, GrammarView::Keyword { word: "APPLY"@ }, GrammarView::Keyword { word: "CONNECT"@ }, GrammarView::Keyword { word: "CREATE"@ }, GrammarView::Keyword { word: "DELETE"@ }, GrammarView::Keyword { word: "EXECUTE"@ }, GrammarView::Keyword { word: "INSERT"@ }, GrammarView::Keyword { word: "MODIFY"@ }, GrammarView::Keyword { word: "MONITOR"@ }, GrammarView::Keyword { word: "OPERATE"@ }, GrammarView::Keyword { word: "OWNERSHIP"@ }, GrammarView::Keyword { word: "READ"@ }, GrammarView::Keyword { word: "REFERENCE_USAGE"@ }, GrammarView::Keyword { word: "REFERENCES"@ }, GrammarView::Keyword { word: "SELECT"@ }, GrammarView::Keyword { word: "TEMP"@ }, GrammarView::Keyword { word: "TEMPORARY"@ }, GrammarView::Keyword { word: "TRIGGER"@ }, GrammarView::Keyword { word: "TRUNCATE"@ }, GrammarView::Keyword { word: "UPDATE"@ }, GrammarView::Keyword { word: "USAGE"@ }, GrammarView::Keyword { word: "USE_ANY_ROLE"@ }, GrammarView::Keyword { word: "WRITE"@ }, GrammarView::Sequence { elements: seq![GrammarView::Keyword { word: "ALL"@ }, GrammarView::Optional { grammar: Box::new(GrammarView::Keyword { word: "PRIVILEGES"@ }) }], terminators: seq![], parse_mode: ParseMode::Strict }], terminators: seq![] }, GrammarView::Ref { name: "BracketedColumnReferenceListGrammar"@, optional: true }], terminators: seq![], parse_mode: ParseMode::Strict }]);
    let g51: Vec<Grammar> = Vec::new();
    assert(views(g51@) =~= Seq::<GrammarView>::empty());
    let g52 = Grammar::one_of_with(g50, g51);
    let g53: Vec<Grammar> = vec![g52];
    assert(views(g53@) =~~= seq![GrammarView::OneOf { elements: seq![GrammarView::OneOf { elements: seq![GrammarView::Sequence { elements: seq![GrammarView::Keyword { word: "CREATE"@ }, GrammarView::OneOf { elements: seq![GrammarView::Keyword { word: "ROLE"@ }, GrammarView::Keyword { word: "USER"@ }, GrammarView::Keyword { word: "WAREHOUSE"@ }, GrammarView::Keyword { word: "DATABASE"@ }, GrammarView::Keyword { word: "INTEGRATION"@ }], terminators: seq![] }], terminators: seq![], parse_mode: ParseMode::Strict }, GrammarView::Sequence { elements: seq![GrammarView::Keyword { word: "APPLY"@ }, GrammarView::Keyword { word: "MASKING"@ }, GrammarView::Keyword { word: "POLICY"@ }], terminators: seq![], parse_mode: ParseMode::Strict }, GrammarView::Sequence { elements: seq![GrammarView::Keyword { word: "EXECUTE"@ }, GrammarView::Keyword { word: "TASK"@ }], terminators: seq![], parse_mode: ParseMode::Strict }, GrammarView::Sequence { elements: seq![GrammarView::Keyword { word: "MANAGE"@ }, GrammarView::Keyword { word: "GRANTS"@ }], terminators: seq![], parse_mode: ParseMode::Strict }, GrammarView::Sequence { elements: seq![GrammarView::Keyword { word: "MONITOR"@ }, GrammarView::OneOf { elements: seq![GrammarView::Keyword { word: "EXECUTION"@ }, GrammarView::Keyword { word: "USAGE"@ }], terminators: seq![] }], terminators: seq![], parse_mode: ParseMode::Strict }], terminators: seq![] }, GrammarView::Sequence { elements: seq![GrammarView::OneOf { elements: seq![GrammarView::Sequence { elements: seq![GrammarView::Keyword { word: "CREATE"@ }, GrammarView::OneOf { elements: seq![GrammarView::Keyword { word: "SCHEMA"@ }, GrammarView::Sequence { elements: seq![GrammarView::Keyword { word: "MASKING"@ }, GrammarView::Keyword { word: "POLICY"@ }], terminators: seq![], parse_mode: ParseMode::Strict }, GrammarView::Keyword { word: "PIPE"@ }, GrammarView::OneOf { elements: seq![GrammarView::Keyword { word: "TABLE"@ }, GrammarView::Keyword { word: "VIEW"@ }, GrammarView::Keyword { word: "STAGE"@ }, GrammarView::Keyword { word: "FUNCTION"@ }, GrammarView::Keyword { word: "PROCEDURE"@ }, GrammarView::Keyword { word: "ROUTINE"@ }, GrammarView::Keyword { word: "SEQUENCE"@ }, GrammarView::Keyword { word: "STREAM"@ }, GrammarView::Keyword { word: "TASK"@ }], terminators: seq![] }], terminators: seq![] }], terminators: seq![], parse_mode: ParseMode::Strict }, GrammarView::Sequence { elements: seq![GrammarView::Keyword { word: "IMPORTED"@ }, GrammarView::Keyword { word: "PRIVILEGES"@ }], terminators: seq![], parse_mode: ParseMode::Strict }, GrammarView::Keyword { word: "APPLY"@ }, GrammarView::Keyword { word: "CONNECT"@ }, GrammarView::Keyword { word: "CREATE"@ }, GrammarView::Keyword { word: "DELETE"@ }, GrammarView::Keyword { word: "EXECUTE"@ }, GrammarView::Keyword { word: "INSERT"@ }, GrammarView::Keyword { word: "MODIFY"@ }, GrammarView::Keyword { word: "MONITOR"@ }, GrammarView::Keyword { word: "OPERATE"@ }, GrammarView::Keyword { word: "OWNERSHIP"@ }, GrammarView::Keyword { word: "READ"@ }, GrammarView::Keyword { word: "REFERENCE_USAGE"@ }, GrammarView::Keyword { word: "REFERENCES"@ }, GrammarView::Keyword { word: "SELECT"@ }, GrammarView::Keyword { word: "TEMP"@ }, GrammarView::Keyword { word: "TEMPORARY"@ }, GrammarView::Keyword { word: "TRIGGER"@ }, GrammarView::Keyword { word: "TRUNCATE"@ }, GrammarView::Keyword { word: "UPDATE"@ }, GrammarView::Keyword { word: "USAGE"@ }, GrammarView::Keyword { word: "USE_ANY_ROLE"@ }, GrammarView::Keyword { word: "WRITE"@ }, GrammarView::Sequence { elements: seq![GrammarView::Keyword { word: "ALL"@ }, GrammarView::Optional { grammar: Box::new(GrammarView::Keyword { word: "PRIVILEGES"@ }) }], terminators: seq![], parse_mode: ParseMode::Strict }], terminators: seq![] }, GrammarView::Ref { name: "BracketedColumnReferenceListGrammar"@, optional: true }], terminators: seq![], parse_mode: ParseMode::Strict }], terminators: seq![] }]);
    let g54: Vec<Grammar> = vec![Grammar::keyword("ON")];
    assert(views(g54@) =~~= seq![GrammarView::Keyword { word: "ON"@ }]);
    let g55 = Grammar::delimited_with(g53, false, None, g54, true);
    let g56: Vec<Grammar> = vec![Grammar::keyword("RESOURCE"), Grammar::keyword("MONITOR")];
    assert(views(g56@) =~~= seq![GrammarView::Keyword { word: "RESOURCE"@ }, GrammarView::Keyword { word: "MONITOR"@ }]);
    let g57: Vec<Grammar> = Vec::new();
    assert(views(g57@) =~= Seq::<GrammarView>::empty());
    let g58 = Grammar::sequence_with(g56, g57, ParseMode::Strict);
    let g59: Vec<Grammar> = vec![Grammar::keyword("DATA"), Grammar::keyword("WRAPPER")];
    assert(views(g59@) =~~= seq![GrammarView::Keyword { word: "DATA"@ }, GrammarView::Keyword { word: "WRAPPER"@ }]);
    let g60: Vec<Grammar> = Vec::new();
    assert(views(g60@) =~= Seq::<GrammarView>::empty());
    let g61 = Grammar::sequence_with(g59, g60, ParseMode::Strict);
    let g62: Vec<Grammar> = vec![Grammar::keyword("SERVER"), g61];
    assert(views(g62@) =~~= seq![GrammarView::Keyword { word: "SERVER"@ }, GrammarView::Sequence { elements: seq![GrammarView::Keyword { word: "DATA"@ }, GrammarView::Keyword { word: "WRAPPER"@ }], terminators: seq![], parse_mode: ParseMode::Strict }]);
    let g63: Vec<Grammar> = Vec::new();
    assert(views(g63@) =~= Seq::<GrammarView>::empty());
    let g64 = Grammar::one_of_with(g62, g63);
    let g65: Vec<Grammar> = vec![Grammar::keyword("FOREIGN"), g64];
    assert(views(g65@) =~~= seq![GrammarView::Keyword { word: "FOREIGN"@ }, GrammarView::OneOf { elements: seq![GrammarView::Keyword { word: "SERVER"@ }, GrammarView::Sequence { elements: seq![GrammarView::Keyword { word: "DATA"@ }, GrammarView::Keyword { word: "WRAPPER"@ }], terminators: seq![], parse_mode: ParseMode::Strict }], terminators: seq![] }]);
    let g66: Vec<Grammar> = Vec::new();
    assert(views(g66@) =~= Seq::<GrammarView>::empty());
    let g67 = Grammar::sequence_with(g65, g66, ParseMode::Strict);
    let g68: Vec<Grammar> = vec![Grammar::keyword("ALL"), Grammar::keyword("SCHEMAS"), Grammar::keyword("IN"), Grammar::keyword("DATABASE")];
    assert(views(g68@) =~~= seq![GrammarView::Keyword { word: "ALL"@ }, GrammarView::Keyword { word: "SCHEMAS"@ }, GrammarView::Keyword { word: "IN"@ }, GrammarView::Keyword { word: "DATABASE"@ }]);
    let g69: Vec<Grammar> = Vec::new();
    assert(views(g69@) =~= Seq::<GrammarView>::empty());
    let g70 = Grammar::sequence_with(g68, g69, ParseMode::Strict);
    let g71: Vec<Grammar> = vec![Grammar::keyword("FUTURE"), Grammar::keyword("SCHEMAS"), Grammar::keyword("IN"), Grammar::keyword("DATABASE")];
    assert(views(g71@) =~~= seq![GrammarView::Keyword { word: "FUTURE"@ }, GrammarView::Keyword { word: "SCHEMAS"@ }, GrammarView::Keyword { word: "IN"@ }, GrammarView::Keyword { word: "DATABASE"@ }]);
    let g72: Vec<Grammar> = Vec::new();
    assert(views(g72@) =~= Seq::<GrammarView>::empty());
    let g73 = Grammar::sequence_with(g71, g72, ParseMode::Strict);
    let g74: Vec<Grammar> = vec![Grammar::keyword("TABLE"), Grammar::keyword("VIEW"), Grammar::keyword("STAGE"), Grammar::keyword("FUNCTION"), Grammar::keyword("PROCEDURE"), Grammar::keyword("ROUTINE"), Grammar::keyword("SEQUENCE"), Grammar::keyword("STREAM"), Grammar::keyword("TASK")];
    assert(views(g74@) =~~= seq![GrammarView::Keyword { word: "TABLE"@ }, GrammarView::Keyword { word: "VIEW"@ }, GrammarView::Keyword { word: "STAGE"@ }, GrammarView::Keyword { word: "FUNCTION"@ }, GrammarView::Keyword { word: "PROCEDURE"@ }, GrammarView::Keyword { word: "ROUTINE"@ }, GrammarView::Keyword { word: "SEQUENCE"@ }, GrammarView::Keyword { word: "STREAM"@ }, GrammarView::Keyword { word: "TASK"@ }]);
    let g75: Vec<Grammar> = Vec::new();
    assert(views(g75@) =~= Seq::<GrammarView>::empty());
    let g76 = Grammar::one_of_with(g74, g75);
    let g77: Vec<Grammar> = vec![Grammar::keyword("TABLES"), Grammar::keyword("VIEWS"), Grammar::keyword("STAGES"), Grammar::keyword("FUNCTIONS"), Grammar::keyword("PROCEDURES"), Grammar::keyword("ROUTINES"), Grammar::keyword("SEQUENCES"), Grammar::keyword("STREAMS"), Grammar::keyword("TASKS")];
    assert(views(g77@) =~~= seq![GrammarView::Keyword { word: "TABLES"@ }, GrammarView::Keyword { word: "VIEWS"@ }, GrammarView::Keyword { word: "STAGES"@ }, GrammarView::Keyword { word: "FUNCTIONS"@ }, GrammarView::Keyword { word: "PROCEDURES"@ }, GrammarView::Keyword { word: "ROUTINES"@ }, GrammarView::Keyword { word: "SEQUENCES"@ }, GrammarView::Keyword { word: "STREAMS"@ }, GrammarView::Keyword { word: "TASKS"@ }]);
    let g78: Vec<Grammar> = Vec::new();
    assert(views(g78@) =~= Seq::<GrammarView>::empty());
    let g79 = Grammar::one_of_with(g77, g78);
    let g80: Vec<Grammar> = vec![Grammar::keyword("ALL"), g79, Grammar::keyword("IN"), Grammar::keyword("SCHEMA")];
    assert(views(g80@) =~~= seq![GrammarView::Keyword { word: "ALL"@ }, GrammarView::OneOf { elements: seq![GrammarView::Keyword { word: "TABLES"@ }, GrammarView::Keyword { word: "VIEWS"@ }, GrammarView::Keyword { word: "STAGES"@ }, GrammarView::Keyword { word: "FUNCTIONS"@ }, GrammarView::Keyword { word: "PROCEDURES"@ }, GrammarView::Keyword { word: "ROUTINES"@ }, GrammarView::Keyword { word: "SEQUENCES"@ }, GrammarView::Keyword { word: "STREAMS"@ }, GrammarView::Keyword { word: "TASKS"@ }], terminators: seq![] }, GrammarView::Keyword { word: "IN"@ }, GrammarView::Keyword { word: "SCHEMA"@ }]);
    let g81: Vec<Grammar> = Vec::new();
    assert(views(g81@) =~= Seq::<GrammarView>::empty());
    let g82 = Grammar::sequence_with(g80, g81, ParseMode::Strict);
    let g83: Vec<Grammar> = vec![Grammar::keyword("DATABASE"), Grammar::keyword("SCHEMA")];
    assert(views(g83@) =~~= seq![GrammarView::Keyword { word: "DATABASE"@ }, GrammarView::Keyword { word: "SCHEMA"@ }]);
    let g84: Vec<Grammar> = Vec::new();
    assert(views(g84@) =~= Seq::<GrammarView>::empty());
    let g85 = Grammar::one_of_with(g83, g84);
    let g86: Vec<Grammar> = vec![Grammar::keyword("FUTURE"), Grammar::keyword("IN"), g85];
    assert(views(g86@) =~~= seq![GrammarView::Keyword { word: "FUTURE"@ }, GrammarView::Keyword { word: "IN"@ }, GrammarView::OneOf { elements: seq![GrammarView::Keyword { word: "DATABASE"@ }, GrammarView::Keyword { word: "SCHEMA"@ }], terminators: seq![] }]);
    let g87: Vec<Grammar> = Vec::new();
    assert(views(g87@) =~= Seq::<GrammarView>::empty());
    let g88 = Grammar::sequence_with(g86, g87, ParseMode::Strict);
    let g89: Vec<Grammar> = vec![g58, Grammar::keyword("WAREHOUSE"), Grammar::keyword("DATABASE"), Grammar::keyword("DOMAIN"), Grammar::keyword("INTEGRATION"), Grammar::keyword("LANGUAGE"), Grammar::keyword("SCHEMA"), Grammar::keyword("ROLE"), Grammar::keyword("TABLESPACE"), Grammar::keyword("TYPE"), g67, g70, g73, g76, g82, g88];
    assert(views(g89@) =~~= seq![GrammarView::Sequence { elements: seq![GrammarView::Keyword { word: "RESOURCE"@ }, GrammarView::Keyword { word: "MONITOR"@ }], terminators: seq![], parse_mode: ParseMode::Strict }, GrammarView::Keyword { word: "WAREHOUSE"@ }, GrammarView::Keyword { word: "DATABASE"@ }, GrammarView::Keyword { word: "DOMAIN"@ }, GrammarView::Keyword { word: "INTEGRATION"@ }, GrammarView::Keyword { word: "LANGUAGE"@ }, GrammarView::Keyword { word: "SCHEMA"@ }, GrammarView::Keyword { word: "ROLE"@ }, GrammarView::Keyword { word: "TABLESPACE"@ }, GrammarView::Keyword { word: "TYPE"@ }, GrammarView::Sequence { elements: seq![GrammarView::Keyword { word: "FOREIGN"@ }, GrammarView::OneOf { elements: seq![GrammarView::Keyword { word: "SERVER"@ }, GrammarView::Sequence { elements: seq![GrammarView::Keyword { word: "DATA"@ }, GrammarView::Keyword { word: "WRAPPER"@ }], terminators: seq![], parse_mode: ParseMode::Strict }], terminators: seq![] }], terminators: seq![], parse_mode: ParseMode::Strict }, GrammarView::Sequence { elements: seq![GrammarView::Keyword { word: "ALL"@ }, GrammarView::Keyword { word: "SCHEMAS"@ }, GrammarView::Keyword { word: "IN"@ }, GrammarView::Keyword { word: "DATABASE"@ }], terminators: seq![], parse_mode: ParseMode::Strict }, GrammarView::Sequence { elements: seq![GrammarView::Keyword { word: "FUTURE"@ }, GrammarView::Keyword { word: "SCHEMAS"@ }, GrammarView::Keyword { word: "IN"@ }, GrammarView::Keyword { word: "DATABASE"@ }], terminators: seq![], parse_mode: ParseMode::Strict }, GrammarView::OneOf { elements: seq![GrammarView::Keyword { word: "TABLE"@ }, GrammarView::Keyword { word: "VIEW"@ }, GrammarView::Keyword { word: "STAGE"@ }, GrammarView::Keyword { word: "FUNCTION"@ }, GrammarView::Keyword { word: "PROCEDURE"@ }, GrammarView::Keyword { word: "ROUTINE"@ }, GrammarView::Keyword { word: "SEQUENCE"@ }, GrammarView::Keyword { word: "STREAM"@ }, GrammarView::Keyword { word: "TASK"@ }], terminators: seq![] }, GrammarView::Sequence { elements: seq![GrammarView::Keyword { word: "ALL"@ }, GrammarView::OneOf { elements: seq![GrammarView::Keyword { word: "TABLES"@ }, GrammarView::Keyword { word: "VIEWS"@ }, GrammarView::Keyword { word: "STAGES"@ }, GrammarView::Keyword { word: "FUNCTIONS"@ }, GrammarView::Keyword { word: "PROCEDURES"@ }, GrammarView::Keyword { word: "ROUTINES"@ }, GrammarView::Keyword { word: "SEQUENCES"@ }, GrammarView::Keyword { word: "STREAMS"@ }, GrammarView::Keyword { word: "TASKS"@ }], terminators: seq![] }, GrammarView::Keyword { word: "IN"@ }, GrammarView::Keyword { word: "SCHEMA"@ }], terminators: seq![], parse_mode: ParseMode::Strict }, GrammarView::Sequence { elements: seq![GrammarView::Keyword { word: "FUTURE"@ }, GrammarView::Keyword { word: "IN"@ }, GrammarView::OneOf { elements: seq![GrammarView::Keyword { word: "DATABASE"@ }, GrammarView::Keyword { word: "SCHEMA"@ }], terminators: seq![] }], terminators: seq![], parse_mode: ParseMode::Strict }]);
    let g90: Vec<Grammar> = Vec::new();
    assert(views(g90@) =~= Seq::<GrammarView>::empty());
    let g91 = Grammar::one_of_with(g89, g90);
    let g92 = g91.optional();
    let g93: Vec<Grammar> = vec![Grammar::reference("FunctionNameSegment"), Grammar::optional_reference("FunctionParameterListGrammar")];
    assert(views(g93@) =~~= seq![GrammarView::Ref { name: "FunctionNameSegment"@, optional: false }, GrammarView::Ref { name: "FunctionParameterListGrammar"@, optional: true }]);
    let g94: Vec<Grammar> = Vec::new();
    assert(views(g94@) =~= Seq::<GrammarView>::empty());
    let g95 = Grammar::sequence_with(g93, g94, ParseMode::Strict);
    let g96: Vec<Grammar> = vec![Grammar::reference("ObjectReferenceSegment"), g95];
    assert(views(g96@) =~~= seq![GrammarView::Ref { name: "ObjectReferenceSegment"@, optional: false }, GrammarView::Sequence { elements: seq![GrammarView::Ref { name: "FunctionNameSegment"@, optional: false }, GrammarView::Ref { name: "FunctionParameterListGrammar"@, optional: true }], terminators: seq![], parse_mode: ParseMode::Strict }]);
    let g97: Vec<Grammar> = vec![Grammar::keyword("TO"), Grammar::keyword("FROM")];
    assert(views(g97@) =~~= seq![GrammarView::Keyword { word: "TO"@ }, GrammarView::Keyword { word: "FROM"@ }]);
    let g98 = Grammar::delimited_with(g96, false, None, g97, true);
    let g99: Vec<Grammar> = vec![g92, g98];
    assert(views(g99@) =~~= seq![GrammarView::Optional { grammar: Box::new(GrammarView::OneOf { elements: seq![GrammarView::Sequence { elements: seq![GrammarView::Keyword { word: "RESOURCE"@ }, GrammarView::Keyword { word: "MONITOR"@ }], terminators: seq![], parse_mode: ParseMode::Strict }, GrammarView::Keyword { word: "WAREHOUSE"@ }, GrammarView::Keyword { word: "DATABASE"@ }, GrammarView::Keyword { word: "DOMAIN"@ }, GrammarView::Keyword { word: "INTEGRATION"@ }, GrammarView::Keyword { word: "LANGUAGE"@ }, GrammarView::Keyword { word: "SCHEMA"@ }, GrammarView::Keyword { word: "ROLE"@ }, GrammarView::Keyword { word: "TABLESPACE"@ }, GrammarView::Keyword { word: "TYPE"@ }, GrammarView::Sequence { elements: seq![GrammarView::Keyword { word: "FOREIGN"@ }, GrammarView::OneOf { elements: seq![GrammarView::Keyword { word: "SERVER"@ }, GrammarView::Sequence { elements: seq![GrammarView::Keyword { word: "DATA"@ }, GrammarView::Keyword { word: "WRAPPER"@ }], terminators: seq![], parse_mode: ParseMode::Strict }], terminators: seq![] }], terminators: seq![], parse_mode: ParseMode::Strict }, GrammarView::Sequence { elements: seq![GrammarView::Keyword { word: "ALL"@ }, GrammarView::Keyword { word: "SCHEMAS"@ }, GrammarView::Keyword { word: "IN"@ }, GrammarView::Keyword { word: "DATABASE"@ }], terminators: seq![], parse_mode: ParseMode::Strict }, GrammarView::Sequence { elements: seq![GrammarView::Keyword { word: "FUTURE"@ }, GrammarView::Keyword { word: "SCHEMAS"@ }, GrammarView::Keyword { word: "IN"@ }, GrammarView::Keyword { word: "DATABASE"@ }], terminators: seq![], parse_mode: ParseMode::Strict }, GrammarView::OneOf { elements: seq![GrammarView::Keyword { word: "TABLE"@ }, GrammarView::Keyword { word: "VIEW"@ }, GrammarView::Keyword { word: "STAGE"@ }, GrammarView::Keyword { word: "FUNCTION"@ }, GrammarView::Keyword { word: "PROCEDURE"@ }, GrammarView::Keyword { word: "ROUTINE"@ }, GrammarView::Keyword { word: "SEQUENCE"@ }, GrammarView::Keyword { word: "STREAM"@ }, GrammarView::Keyword { word: "TASK"@ }], terminators: seq![] }, GrammarView::Sequence { elements: seq![GrammarView::Keyword { word: "ALL"@ }, GrammarView::OneOf { elements: seq![GrammarView::Keyword { word: "TABLES"@ }, GrammarView::Keyword { word: "VIEWS"@ }, GrammarView::Keyword { word: "STAGES"@ }, GrammarView::Keyword { word: "FUNCTIONS"@ }, GrammarView::Keyword { word: "PROCEDURES"@ }, GrammarView::Keyword { word: "ROUTINES"@ }, GrammarView::Keyword { word: "SEQUENCES"@ }, GrammarView::Keyword { word: "STREAMS"@ }, GrammarView::Keyword { word: "TASKS"@ }], terminators: seq![] }, GrammarView::Keyword { word: "IN"@ }, GrammarView::Keyword { word: "SCHEMA"@ }], terminators: seq![], parse_mode: ParseMode::Strict }, GrammarView::Sequence { elements: seq![GrammarView::Keyword { word: "FUTURE"@ }, GrammarView::Keyword { word: "IN"@ }, GrammarView::OneOf { elements: seq![GrammarView::Keyword { word: "DATABASE"@ }, GrammarView::Keyword { word: "SCHEMA"@ }], terminators: seq![] }], terminators: seq![], parse_mode: ParseMode::Strict }], terminators: seq![] }) }, GrammarView::Delimited { elements: seq![GrammarView::Ref { name: "ObjectReferenceSegment"@, optional: false }, GrammarView::Sequence { elements: seq![GrammarView::Ref { name: "FunctionNameSegment"@, optional: false }, GrammarView::Ref { name: "FunctionParameterListGrammar"@, optional: true }], terminators: seq![], parse_mode: ParseMode::Strict }], allow_trailing: false, delimiter: None, terminators: seq![GrammarView::Keyword { word: "TO"@ }, GrammarView::Keyword { word: "FROM"@ }], allow_gaps: true }]);
    let g100: Vec<Grammar> = Vec::new();
    assert(views(g100@) =~= Seq::<GrammarView>::empty());
    let g101 = Grammar::sequence_with(g99, g100, ParseMode::Strict);
    let g102: Vec<Grammar> = vec![Grammar::keyword("LARGE"), Grammar::keyword("OBJECT"), Grammar::reference("NumericLiteralSegment")];
    assert(views(g102@) =~~= seq![GrammarView::Keyword { word: "LARGE"@ }, GrammarView::Keyword { word: "OBJECT"@ }, GrammarView::Ref { name: "NumericLiteralSegment"@, optional: false }]);
    let g103: Vec<Grammar> = Vec::new();
    assert(views(g103@) =~= Seq::<GrammarView>::empty());
    let g104 = Grammar::sequence_with(g102, g103, ParseMode::Strict);
    let g105: Vec<Grammar> = vec![Grammar::keyword("ACCOUNT"), g101, g104];
    assert(views(g105@) =~~= seq![GrammarView::Keyword { word: "ACCOUNT"@ }, GrammarView::Sequence { elements: seq![GrammarView::Optional { grammar: Box::new(GrammarView::OneOf { elements: seq![GrammarView::Sequence { elements: seq![GrammarView::Keyword { word: "RESOURCE"@ }, GrammarView::Keyword { word: "MONITOR"@ }], terminators: seq![], parse_mode: ParseMode::Strict }, GrammarView::Keyword { word: "WAREHOUSE"@ }, GrammarView::Keyword { word: "DATABASE"@ }, GrammarView::Keyword { word: "DOMAIN"@ }, GrammarView::Keyword { word: "INTEGRATION"@ }, GrammarView::Keyword { word: "LANGUAGE"@ }, GrammarView::Keyword { word: "SCHEMA"@ }, GrammarView::Keyword { word: "ROLE"@ }, GrammarView::Keyword { word: "TABLESPACE"@ }, GrammarView::Keyword { word: "TYPE"@ }, GrammarView::Sequence { elements: seq![GrammarView::Keyword { word: "FOREIGN"@ }, GrammarView::OneOf { elements: seq![GrammarView::Keyword { word: "SERVER"@ }, GrammarView::Sequence { elements: seq![GrammarView::Keyword { word: "DATA"@ }, GrammarView::Keyword { word: "WRAPPER"@ }], terminators: seq![], parse_mode: ParseMode::Strict }], terminators: seq![] }], terminators: seq![], parse_mode: ParseMode::Strict }, GrammarView::Sequence { elements: seq![GrammarView::Keyword { word: "ALL"@ }, GrammarView::Keyword { word: "SCHEMAS"@ }, GrammarView::Keyword { word: "IN"@ }, GrammarView::Keyword { word: "DATABASE"@ }], terminators: seq![], parse_mode: ParseMode::Strict }, GrammarView::Sequence { elements: seq![GrammarView::Keyword { word: "FUTURE"@ }, GrammarView::Keyword { word: "SCHEMAS"@ }, GrammarView::Keyword { word: "IN"@ }, GrammarView::Keyword { word: "DATABASE"@ }], terminators: seq![], parse_mode: ParseMode::Strict }, GrammarView::OneOf { elements: seq![GrammarView::Keyword { word: "TABLE"@ }, GrammarView::Keyword { word: "VIEW"@ }, GrammarView::Keyword { word: "STAGE"@ }, GrammarView::Keyword { word: "FUNCTION"@ }, GrammarView::Keyword { word: "PROCEDURE"@ }, GrammarView::Keyword { word: "ROUTINE"@ }, GrammarView::Keyword { word: "SEQUENCE"@ }, GrammarView::Keyword { word: "STREAM"@ }, GrammarView::Keyword { word: "TASK"@ }], terminators: seq![] }, GrammarView::Sequence { elements: seq![GrammarView::Keyword { word: "ALL"@ }, GrammarView::OneOf { elements: seq![GrammarView::Keyword { word: "TABLES"@ }, GrammarView::Keyword { word: "VIEWS"@ }, GrammarView::Keyword { word: "STAGES"@ }, GrammarView::Keyword { word: "FUNCTIONS"@ }, GrammarView::Keyword { word: "PROCEDURES"@ }, GrammarView::Keyword { word: "ROUTINES"@ }, GrammarView::Keyword { word: "SEQUENCES"@ }, GrammarView::Keyword { word: "STREAMS"@ }, GrammarView::Keyword { word: "TASKS"@ }], terminators: seq![] }, GrammarView::Keyword { word: "IN"@ }, GrammarView::Keyword { word: "SCHEMA"@ }], terminators: seq![], parse_mode: ParseMode::Strict }, GrammarView::Sequence { elements: seq![GrammarView::Keyword { word: "FUTURE"@ }, GrammarView::Keyword { word: "IN"@ }, GrammarView::OneOf { elements: seq![GrammarView::Keyword { word: "DATABASE"@ }, GrammarView::Keyword { word: "SCHEMA"@ }], terminators: seq![] }], terminators: seq![], parse_mode: ParseMode::Strict }], terminators: seq![] }) }, GrammarView::Delimited { elements: seq![GrammarView::Ref { name: "ObjectReferenceSegment"@, optional: false }, GrammarView::Sequence { elements: seq![GrammarView::Ref { name: "FunctionNameSegment"@, optional: false }, GrammarView::Ref { name: "FunctionParameterListGrammar"@, optional: true }], terminators: seq![], parse_mode: ParseMode::Strict }], allow_trailing: false, delimiter: None, terminators: seq![GrammarView::Keyword { word: "TO"@ }, GrammarView::Keyword { word: "FROM"@ }], allow_gaps: true }], terminators: seq![], parse_mode: ParseMode::Strict }, GrammarView::Sequence { elements: seq![GrammarView::Keyword { word: "LARGE"@ }, GrammarView::Keyword { word: "OBJECT"@ }, GrammarView::Ref { name: "NumericLiteralSegment"@, optional: false }], terminators: seq![], parse_mode: ParseMode::Strict }]);
    let g106: Vec<Grammar> = Vec::new();
    assert(views(g106@) =~= Seq::<GrammarView>::empty());
    let g107 = Grammar::one_of_with(g105, g106);
    let g108: Vec<Grammar> = vec![g55, Grammar::keyword("ON"), g107];
    assert(views(g108@) =~~= seq![GrammarView::Delimited { elements: seq![GrammarView::OneOf { elements: seq![GrammarView::OneOf { elements: seq![GrammarView::Sequence { elements: seq![GrammarView::Keyword { word: "CREATE"@ }, GrammarView::OneOf { elements: seq![GrammarView::Keyword { word: "ROLE"@ }, GrammarView::Keyword { word: "USER"@ }, GrammarView::Keyword { word: "WAREHOUSE"@ }, GrammarView::Keyword { word: "DATABASE"@ }, GrammarView::Keyword { word: "INTEGRATION"@ }], terminators: seq![] }], terminators: seq![], parse_mode: ParseMode::Strict }, GrammarView::Sequence { elements: seq![GrammarView::Keyword { word: "APPLY"@ }, GrammarView::Keyword { word: "MASKING"@ }, GrammarView::Keyword { word: "POLICY"@ }], terminators: seq![], parse_mode: ParseMode::Strict }, GrammarView::Sequence { elements: seq![GrammarView::Keyword { word: "EXECUTE"@ }, GrammarView::Keyword { word: "TASK"@ }], terminators: seq![], parse_mode: ParseMode::Strict }, GrammarView::Sequence { elements: seq![GrammarView::Keyword { word: "MANAGE"@ }, GrammarView::Keyword { word: "GRANTS"@ }], terminators: seq![], parse_mode: ParseMode::Strict }, GrammarView::Sequence { elements: seq![GrammarView::Keyword { word: "MONITOR"@ }, GrammarView::OneOf { elements: seq![GrammarView::Keyword { word: "EXECUTION"@ }, GrammarView::Keyword { word: "USAGE"@ }], terminators: seq![] }], terminators: seq![], parse_mode: ParseMode::Strict }], terminators: seq![] }, GrammarView::Sequence { elements: seq![GrammarView::OneOf { elements: seq![GrammarView::Sequence { elements: seq![GrammarView::Keyword { word: "CREATE"@ }, GrammarView::OneOf { elements: seq![GrammarView::Keyword { word: "SCHEMA"@ }, GrammarView::Sequence { elements: seq![GrammarView::Keyword { word: "MASKING"@ }, GrammarView::Keyword { word: "POLICY"@ }], terminators: seq![], parse_mode: ParseMode::Strict }, GrammarView::Keyword { word: "PIPE"@ }, GrammarView::OneOf { elements: seq![GrammarView::Keyword { word: "TABLE"@ }, GrammarView::Keyword { word: "VIEW"@ }, GrammarView::Keyword { word: "STAGE"@ }, GrammarView::Keyword { word: "FUNCTION"@ }, GrammarView::Keyword { word: "PROCEDURE"@ }, GrammarView::Keyword { word: "ROUTINE"@ }, GrammarView::Keyword { word: "SEQUENCE"@ }, GrammarView::Keyword { word: "STREAM"@ }, GrammarView::Keyword { word: "TASK"@ }], terminators: seq![] }], terminators: seq![] }], terminators: seq![], parse_mode: ParseMode::Strict }, GrammarView::Sequence { elements: seq![GrammarView::Keyword { word: "IMPORTED"@ }, GrammarView::Keyword { word: "PRIVILEGES"@ }], terminators: seq![], parse_mode: ParseMode::Strict }, GrammarView::Keyword { word: "APPLY"@ }, GrammarView::Keyword { word: "CONNECT"@ }, GrammarView::Keyword { word: "CREATE"@ }, GrammarView::Keyword { word: "DELETE"@ }, GrammarView::Keyword { word: "EXECUTE"@ }, GrammarView::Keyword { word: "INSERT"@ }, GrammarView::Keyword { word: "MODIFY"@ }, GrammarView::Keyword { word: "MONITOR"@ }, GrammarView::Keyword { word: "OPERATE"@ }, GrammarView::Keyword { word: "OWNERSHIP"@ }, GrammarView::Keyword { word: "READ"@ }, GrammarView::Keyword { word: "REFERENCE_USAGE"@ }, GrammarView::Keyword { word: "REFERENCES"@ }, GrammarView::Keyword { word: "SELECT"@ }, GrammarView::Keyword { word: "TEMP"@ }, GrammarView::Keyword { word: "TEMPORARY"@ }, GrammarView::Keyword { word: "TRIGGER"@ }, GrammarView::Keyword { word: "TRUNCATE"@ }, GrammarView::Keyword { word: "UPDATE"@ }, GrammarView::Keyword { word: "USAGE"@ }, GrammarView::Keyword { word: "USE_ANY_ROLE"@ }, GrammarView::Keyword { word: "WRITE"@ }, GrammarView::Sequence { elements: seq![GrammarView::Keyword { word: "ALL"@ }, GrammarView::Optional { grammar: Box::new(GrammarView::Keyword { word: "PRIVILEGES"@ }) }], terminators: seq![], parse_mode: ParseMode::Strict }], terminators: seq![] }, GrammarView::Ref { name: "BracketedColumnReferenceListGrammar"@, optional: true }], terminators: seq![], parse_mode: ParseMode::Strict }], terminators: seq![] }], allow_trailing: false, delimiter: None, terminators: seq![GrammarView::Keyword { word: "ON"@ }], allow_gaps: true }, GrammarView::Keyword { word: "ON"@ }, GrammarView::OneOf { elements: seq![GrammarView::Keyword { word: "ACCOUNT"@ }, GrammarView::Sequence { elements: seq![GrammarView::Optional { grammar: Box::new(GrammarView::OneOf { elements: seq![GrammarView::Sequence { elements: seq![GrammarView::Keyword { word: "RESOURCE"@ }, GrammarView::Keyword { word: "MONITOR"@ }], terminators: seq![], parse_mode: ParseMode::Strict }, GrammarView::Keyword { word: "WAREHOUSE"@ }, GrammarView::Keyword { word: "DATABASE"@ }, GrammarView::Keyword { word: "DOMAIN"@ }, GrammarView::Keyword { word: "INTEGRATION"@ }, GrammarView::Keyword { word: "LANGUAGE"@ }, GrammarView::Keyword { word: "SCHEMA"@ }, GrammarView::Keyword { word: "ROLE"@ }, GrammarView::Keyword { word: "TABLESPACE"@ }, GrammarView::Keyword { word: "TYPE"@ }, GrammarView::Sequence { elements: seq![GrammarView::Keyword { word: "FOREIGN"@ }, GrammarView::OneOf { elements: seq![GrammarView::Keyword { word: "SERVER"@ }, GrammarView::Sequence { elements: seq![GrammarView::Keyword { word: "DATA"@ }, GrammarView::Keyword { word: "WRAPPER"@ }], terminators: seq![], parse_mode: ParseMode::Strict }], terminators: seq![] }], terminators: seq![], parse_mode: ParseMode::Strict }, GrammarView::Sequence { elements: seq![GrammarView::Keyword { word: "ALL"@ }, GrammarView::Keyword { word: "SCHEMAS"@ }, GrammarView::Keyword { word: "IN"@ }, GrammarView::Keyword { word: "DATABASE"@ }], terminators: seq![], parse_mode: ParseMode::Strict }, GrammarView::Sequence { elements: seq![GrammarView::Keyword { word: "FUTURE"@ }, GrammarView::Keyword { word: "SCHEMAS"@ }, GrammarView::Keyword { word: "IN"@ }, GrammarView::Keyword { word: "DATABASE"@ }], terminators: seq![], parse_mode: ParseMode::Strict }, GrammarView::OneOf { elements: seq![GrammarView::Keyword { word: "TABLE"@ }, GrammarView::Keyword { word: "VIEW"@ }, GrammarView::Keyword { word: "STAGE"@ }, GrammarView::Keyword { word: "FUNCTION"@ }, GrammarView::Keyword { word: "PROCEDURE"@ }, GrammarView::Keyword { word: "ROUTINE"@ }, GrammarView::Keyword { word: "SEQUENCE"@ }, GrammarView::Keyword { word: "STREAM"@ }, GrammarView::Keyword { word: "TASK"@ }], terminators: seq![] }, GrammarView::Sequence { elements: seq![GrammarView::Keyword { word: "ALL"@ }, GrammarView::OneOf { elements: seq![GrammarView::Keyword { word: "TABLES"@ }, GrammarView::Keyword { word: "VIEWS"@ }, GrammarView::Keyword { word: "STAGES"@ }, GrammarView::Keyword { word: "FUNCTIONS"@ }, GrammarView::Keyword { word: "PROCEDURES"@ }, GrammarView::Keyword { word: "ROUTINES"@ }, GrammarView::Keyword { word: "SEQUENCES"@ }, GrammarView::Keyword { word: "STREAMS"@ }, GrammarView::Keyword { word: "TASKS"@ }], terminators: seq![] }, GrammarView::Keyword { word: "IN"@ }, GrammarView::Keyword { word: "SCHEMA"@ }], terminators: seq![], parse_mode: ParseMode::Strict }, GrammarView::Sequence { elements: seq![GrammarView::Keyword { word: "FUTURE"@ }, GrammarView::Keyword { word: "IN"@ }, GrammarView::OneOf { elements: seq![GrammarView::Keyword { word: "DATABASE"@ }, GrammarView::Keyword { word: "SCHEMA"@ }], terminators: seq![] }], terminators: seq![], parse_mode: ParseMode::Strict }], terminators: seq![] }) }, GrammarView::Delimited { elements: seq![GrammarView::Ref { name: "ObjectReferenceSegment"@, optional: false }, GrammarView::Sequence { elements: seq![GrammarView::Ref { name: "FunctionNameSegment"@, optional: false }, GrammarView::Ref { name: "FunctionParameterListGrammar"@, optional: true }], terminators: seq![], parse_mode: ParseMode::Strict }], allow_trailing: false, delimiter: None, terminators: seq![GrammarView::Keyword { word: "TO"@ }, GrammarView::Keyword { word: "FROM"@ }], allow_gaps: true }], terminators: seq![], parse_mode: ParseMode::Strict }, GrammarView::Sequence { elements: seq![GrammarView::Keyword { word: "LARGE"@ }, GrammarView::Keyword { word: "OBJECT"@ }, GrammarView::Ref { name: "NumericLiteralSegment"@, optional: false }], terminators: seq![], parse_mode: ParseMode::Strict }], terminators: seq![] }]);
    let g109: Vec<Grammar> = Vec::new();
    assert(views(g109@) =~= Seq::<GrammarView>::empty());
    let g110 = Grammar::sequence_with(g108, g109, ParseMode::Strict);
    let g111: Vec<Grammar> = vec![Grammar::keyword("ROLE"), Grammar::reference("ObjectReferenceSegment")];
    assert(views(g111@) =~~= seq![GrammarView::Keyword { word: "ROLE"@ }, GrammarView::Ref { name: "ObjectReferenceSegment"@, optional: false }]);
    let g112: Vec<Grammar> = Vec::new();
    assert(views(g112@) =~= Seq::<GrammarView>::empty());
    let g113 = Grammar::sequence_with(g111, g112, ParseMode::Strict);
    let g114: Vec<Grammar> = vec![Grammar::keyword("OWNERSHIP"), Grammar::keyword("ON"), Grammar::keyword("USER"), Grammar::reference("ObjectReferenceSegment")];
    assert(views(g114@) =~~= seq![GrammarView::Keyword { word: "OWNERSHIP"@ }, GrammarView::Keyword { word: "ON"@ }, GrammarView::Keyword { word: "USER"@ }, GrammarView::Ref { name: "ObjectReferenceSegment"@, optional: false }]);
    let g115: Vec<Grammar> = Vec::new();
    assert(views(g115@) =~= Seq::<GrammarView>::empty());
    let g116 = Grammar::sequence_with(g114, g115, ParseMode::Strict);
    let g117: Vec<Grammar> = vec![g110, g113, g116, Grammar::reference("ObjectReferenceSegment")];
    assert(views(g117@) =~~= seq![GrammarView::Sequence { elements: seq![GrammarView::Delimited { elements: seq![GrammarView::OneOf { elements: seq![GrammarView::OneOf { elements: seq![GrammarView::Sequence { elements: seq![GrammarView::Keyword { word: "CREATE"@ }, GrammarView::OneOf { elements: seq![GrammarView::Keyword { word: "ROLE"@ }, GrammarView::Keyword { word: "USER"@ }, GrammarView::Keyword { word: "WAREHOUSE"@ }, GrammarView::Keyword { word: "DATABASE"@ }, GrammarView::Keyword { word: "INTEGRATION"@ }], terminators: seq![] }], terminators: seq![], parse_mode: ParseMode::Strict }, GrammarView::Sequence { elements: seq![GrammarView::Keyword { word: "APPLY"@ }, GrammarView::Keyword { word: "MASKING"@ }, GrammarView::Keyword { word: "POLICY"@ }], terminators: seq![], parse_mode: ParseMode::Strict }, GrammarView::Sequence { elements: seq![GrammarView::Keyword { word: "EXECUTE"@ }, GrammarView::Keyword { word: "TASK"@ }], terminators: seq![], parse_mode: ParseMode::Strict }, GrammarView::Sequence { elements: seq![GrammarView::Keyword { word: "MANAGE"@ }, GrammarView::Keyword { word: "GRANTS"@ }], terminators: seq![], parse_mode: ParseMode::Strict }, GrammarView::Sequence { elements: seq![GrammarView::Keyword { word: "MONITOR"@ }, GrammarView::OneOf { elements: seq![GrammarView::Keyword { word: "EXECUTION"@ }, GrammarView::Keyword { word: "USAGE"@ }], terminators: seq![] }], terminators: seq![], parse_mode: ParseMode::Strict }], terminators: seq![] }, GrammarView::Sequence { elements: seq![GrammarView::OneOf { elements: seq![GrammarView::Sequence { elements: seq![GrammarView::Keyword { word: "CREATE"@ }, GrammarView::OneOf { elements: seq![GrammarView::Keyword { word: "SCHEMA"@ }, GrammarView::Sequence { elements: seq![GrammarView::Keyword { word: "MASKING"@ }, GrammarView::Keyword { word: "POLICY"@ }], terminators: seq![], parse_mode: ParseMode::Strict }, GrammarView::Keyword { word: "PIPE"@ }, GrammarView::OneOf { elements: seq![GrammarView::Keyword { word: "TABLE"@ }, GrammarView::Keyword { word: "VIEW"@ }, GrammarView::Keyword { word: "STAGE"@ }, GrammarView::Keyword { word: "FUNCTION"@ }, GrammarView::Keyword { word: "PROCEDURE"@ }, GrammarView::Keyword { word: "ROUTINE"@ }, GrammarView::Keyword { word: "SEQUENCE"@ }, GrammarView::Keyword { word: "STREAM"@ }, GrammarView::Keyword { word: "TASK"@ }], terminators: seq![] }], terminators: seq![] }], terminators: seq![], parse_mode: ParseMode::Strict }, GrammarView::Sequence { elements: seq![GrammarView::Keyword { word: "IMPORTED"@ }, GrammarView::Keyword { word: "PRIVILEGES"@ }], terminators: seq![], parse_mode: ParseMode::Strict }, GrammarView::Keyword { word: "APPLY"@ }, GrammarView::Keyword { word: "CONNECT"@ }, GrammarView::Keyword { word: "CREATE"@ }, GrammarView::Keyword { word: "DELETE"@ }, GrammarView::Keyword { word: "EXECUTE"@ }, GrammarView::Keyword { word: "INSERT"@ }, GrammarView::Keyword { word: "MODIFY"@ }, GrammarView::Keyword { word: "MONITOR"@ }, GrammarView::Keyword { word: "OPERATE"@ }, GrammarView::Keyword { word: "OWNERSHIP"@ }, GrammarView::Keyword { word: "READ"@ }, GrammarView::Keyword { word: "REFERENCE_USAGE"@ }, GrammarView::Keyword { word: "REFERENCES"@ }, GrammarView::Keyword { word: "SELECT"@ }, GrammarView::Keyword { word: "TEMP"@ }, GrammarView::Keyword { word: "TEMPORARY"@ }, GrammarView::Keyword { word: "TRIGGER"@ }, GrammarView::Keyword { word: "TRUNCATE"@ }, GrammarView::Keyword { word: "UPDATE"@ }, GrammarView::Keyword { word: "USAGE"@ }, GrammarView::Keyword { word: "USE_ANY_ROLE"@ }, GrammarView::Keyword { word: "WRITE"@ }, GrammarView::Sequence { elements: seq![GrammarView::Keyword { word: "ALL"@ }, GrammarView::Optional { grammar: Box::new(GrammarView::Keyword { word: "PRIVILEGES"@ }) }], terminators: seq![], parse_mode: ParseMode::Strict }], terminators: seq![] }, GrammarView::Ref { name: "BracketedColumnReferenceListGrammar"@, optional: true }], terminators: seq![], parse_mode: ParseMode::Strict }], terminators: seq![] }], allow_trailing: false, delimiter: None, terminators: seq![GrammarView::Keyword { word: "ON"@ }], allow_gaps: true }, GrammarView::Keyword { word: "ON"@ }, GrammarView::OneOf { elements: seq![GrammarView::Keyword { word: "ACCOUNT"@ }, GrammarView::Sequence { elements: seq![GrammarView::Optional { grammar: Box::new(GrammarView::OneOf { elements: seq![GrammarView::Sequence { elements: seq![GrammarView::Keyword { word: "RESOURCE"@ }, GrammarView::Keyword { word: "MONITOR"@ }], terminators: seq![], parse_mode: ParseMode::Strict }, GrammarView::Keyword { word: "WAREHOUSE"@ }, GrammarView::Keyword { word: "DATABASE"@ }, GrammarView::Keyword { word: "DOMAIN"@ }, GrammarView::Keyword { word: "INTEGRATION"@ }, GrammarView::Keyword { word: "LANGUAGE"@ }, GrammarView::Keyword { word: "SCHEMA"@ }, GrammarView::Keyword { word: "ROLE"@ }, GrammarView::Keyword { word: "TABLESPACE"@ }, GrammarView::Keyword { word: "TYPE"@ }, GrammarView::Sequence { elements: seq![GrammarView::Keyword { word: "FOREIGN"@ }, GrammarView::OneOf { elements: seq![GrammarView::Keyword { word: "SERVER"@ }, GrammarView::Sequence { elements: seq![GrammarView::Keyword { word: "DATA"@ }, GrammarView::Keyword { word: "WRAPPER"@ }], terminators: seq![], parse_mode: ParseMode::Strict }], terminators: seq![] }], terminators: seq![], parse_mode: ParseMode::Strict }, GrammarView::Sequence { elements: seq![GrammarView::Keyword { word: "ALL"@ }, GrammarView::Keyword { word: "SCHEMAS"@ }, GrammarView::Keyword { word: "IN"@ }, GrammarView::Keyword { word: "DATABASE"@ }], terminators: seq![], parse_mode: ParseMode::Strict }, GrammarView::Sequence { elements: seq![GrammarView::Keyword { word: "FUTURE"@ }, GrammarView::Keyword { word: "SCHEMAS"@ }, GrammarView::Keyword { word: "IN"@ }, GrammarView::Keyword { word: "DATABASE"@ }], terminators: seq![], parse_mode: ParseMode::Strict }, GrammarView::OneOf { elements: seq![GrammarView::Keyword { word: "TABLE"@ }, GrammarView::Keyword { word: "VIEW"@ }, GrammarView::Keyword { word: "STAGE"@ }, GrammarView::Keyword { word: "FUNCTION"@ }, GrammarView::Keyword { word: "PROCEDURE"@ }, GrammarView::Keyword { word: "ROUTINE"@ }, GrammarView::Keyword { word: "SEQUENCE"@ }, GrammarView::Keyword { word: "STREAM"@ }, GrammarView::Keyword { word: "TASK"@ }], terminators: seq![] }, GrammarView::Sequence { elements: seq![GrammarView::Keyword { word: "ALL"@ }, GrammarView::OneOf { elements: seq![GrammarView::Keyword { word: "TABLES"@ }, GrammarView::Keyword { word: "VIEWS"@ }, GrammarView::Keyword { word: "STAGES"@ }, GrammarView::Keyword { word: "FUNCTIONS"@ }, GrammarView::Keyword { word: "PROCEDURES"@ }, GrammarView::Keyword { word: "ROUTINES"@ }, GrammarView::Keyword { word: "SEQUENCES"@ }, GrammarView::Keyword { word: "STREAMS"@ }, GrammarView::Keyword { word: "TASKS"@ }], terminators: seq![] }, GrammarView::Keyword { word: "IN"@ }, GrammarView::Keyword { word: "SCHEMA"@ }], terminators: seq![], parse_mode: ParseMode::Strict }, GrammarView::Sequence { elements: seq![GrammarView::Keyword { word: "FUTURE"@ }, GrammarView::Keyword { word: "IN"@ }, GrammarView::OneOf { elements: seq![GrammarView::Keyword { word: "DATABASE"@ }, GrammarView::Keyword { word: "SCHEMA"@ }], terminators: seq![] }], terminators: seq![], parse_mode: ParseMode::Strict }], terminators: seq![] }) }, GrammarView::Delimited { elements: seq![GrammarView::Ref { name: "ObjectReferenceSegment"@, optional: false }, GrammarView::Sequence { elements: seq![GrammarView::Ref { name: "FunctionNameSegment"@, optional: false }, GrammarView::Ref { name: "FunctionParameterListGrammar"@, optional: true }], terminators: seq![], parse_mode: ParseMode::Strict }], allow_trailing: false, delimiter: None, terminators: seq![GrammarView::Keyword { word: "TO"@ }, GrammarView::Keyword { word: "FROM"@ }], allow_gaps: true }], terminators: seq![], parse_mode: ParseMode::Strict }, GrammarView::Sequence { elements: seq![GrammarView::Keyword { word: "LARGE"@ }, GrammarView::Keyword { word: "OBJECT"@ }, GrammarView::Ref { name: "NumericLiteralSegment"@, optional: false }], terminators: seq![], parse_mode: ParseMode::Strict }], terminators: seq![] }], terminators: seq![], parse_mode: ParseMode::Strict }, GrammarView::Sequence { elements: seq![GrammarView::Keyword { word: "ROLE"@ }, GrammarView::Ref { name: "ObjectReferenceSegment"@, optional: false }], terminators: seq![], parse_mode: ParseMode::Strict }, GrammarView::Sequence { elements: seq![GrammarView::Keyword { word: "OWNERSHIP"@ }, GrammarView::Keyword { word: "ON"@ }, GrammarView::Keyword { word: "USER"@ }, GrammarView::Ref { name: "ObjectReferenceSegment"@, optional: false }], terminators: seq![], parse_mode: ParseMode::Strict }, GrammarView::Ref { name: "ObjectReferenceSegment"@, optional: false }]);
    let g118: Vec<Grammar> = Vec::new();
    assert(views(g118@) =~= Seq::<GrammarView>::empty());
    let g119 = Grammar::one_of_with(g117, g118);
    let g120: Vec<Grammar> = vec![Grammar::keyword("GROUP"), Grammar::keyword("USER"), Grammar::keyword("ROLE"), Grammar::keyword("SHARE")];
    assert(views(g120@) =~~= seq![GrammarView::Keyword { word: "GROUP"@ }, GrammarView::Keyword { word: "USER"@ }, GrammarView::Keyword { word: "ROLE"@ }, GrammarView::Keyword { word: "SHARE"@ }]);
    let g121: Vec<Grammar> = Vec::new();
    assert(views(g121@) =~= Seq::<GrammarView>::empty());
    let g122 = Grammar::one_of_with(g120, g121);
    let g123 = g122.optional();
    let g124: Vec<Grammar> = vec![Grammar::reference("RoleReferenceSegment"), Grammar::reference("FunctionSegment"), Grammar::keyword("PUBLIC")];
    assert(views(g124@) =~~= seq![GrammarView::Ref { name: "RoleReferenceSegment"@, optional: false }, GrammarView::Ref { name: "FunctionSegment"@, optional: false }, GrammarView::Keyword { word: "PUBLIC"@ }]);
    let g125: Vec<Grammar> = Vec::new();
    assert(views(g125@) =~= Seq::<GrammarView>::empty());
    let g126 = Grammar::one_of_with(g124, g125);
    let g127: Vec<Grammar> = vec![g126];
    assert(views(g127@) =~~= seq![GrammarView::OneOf { elements: seq![GrammarView::Ref { name: "RoleReferenceSegment"@, optional: false }, GrammarView::Ref { name: "FunctionSegment"@, optional: false }, GrammarView::Keyword { word: "PUBLIC"@ }], terminators: seq![] }]);
    let g128: Vec<Grammar> = Vec::new();
    assert(views(g128@) =~= Seq::<GrammarView>::empty());
    let g129 = Grammar::delimited_with(g127, false, None, g128, true);
    let g130: Vec<Grammar> = vec![Grammar::keyword("CURRENT_USER"), Grammar::keyword("SESSION_USER"), Grammar::reference("ObjectReferenceSegment")];
    assert(views(g130@) =~~= seq![GrammarView::Keyword { word: "CURRENT_USER"@ }, GrammarView::Keyword { word: "SESSION_USER"@ }, GrammarView::Ref { name: "ObjectReferenceSegment"@, optional: false }]);
    let g131: Vec<Grammar> = Vec::new();
    assert(views(g131@) =~= Seq::<GrammarView>::empty());
    let g132 = Grammar::one_of_with(g130, g131);
    let g133: Vec<Grammar> = vec![Grammar::keyword("GRANTED"), Grammar::keyword("BY"), g132];
    assert(views(g133@) =~~= seq![GrammarView::Keyword { word: "GRANTED"@ }, GrammarView::Keyword { word: "BY"@ }, GrammarView::OneOf { elements: seq![GrammarView::Keyword { word: "CURRENT_USER"@ }, GrammarView::Keyword { word: "SESSION_USER"@ }, GrammarView::Ref { name: "ObjectReferenceSegment"@, optional: false }], terminators: seq![] }]);
    let g134: Vec<Grammar> = Vec::new();
    assert(views(g134@) =~= Seq::<GrammarView>::empty());
    let g135 = Grammar::sequence_with(g133, g134, ParseMode::Strict);
    let g136 = g135.optional();
    let g137: Vec<Grammar> = vec![Grammar::keyword("GRANT"), g119, Grammar::keyword("TO"), g123, g129, Grammar::optional_reference("AccessStatementSegmentGrantRoleWithOptionGrammar"), g136];
    assert(views(g137@) =~~= seq![GrammarView::Keyword { word: "GRANT"@ }, GrammarView::OneOf { elements: seq![GrammarView::Sequence { elements: seq![GrammarView::Delimited { elements: seq![GrammarView::OneOf { elements: seq![GrammarView::OneOf { elements: seq![GrammarView::Sequence { elements: seq![GrammarView::Keyword { word: "CREATE"@ }, GrammarView::OneOf { elements: seq![GrammarView::Keyword { word: "ROLE"@ }, GrammarView::Keyword { word: "USER"@ }, GrammarView::Keyword { word: "WAREHOUSE"@ }, GrammarView::Keyword { word: "DATABASE"@ }, GrammarView::Keyword { word: "INTEGRATION"@ }], terminators: seq![] }], terminators: seq![], parse_mode: ParseMode::Strict }, GrammarView::Sequence { elements: seq![GrammarView::Keyword { word: "APPLY"@ }, GrammarView::Keyword { word: "MASKING"@ }, GrammarView::Keyword { word: "POLICY"@ }], terminators: seq![], parse_mode: ParseMode::Strict }, GrammarView::Sequence { elements: seq![GrammarView::Keyword { word: "EXECUTE"@ }, GrammarView::Keyword { word: "TASK"@ }], terminators: seq![], parse_mode: ParseMode::Strict }, GrammarView::Sequence { elements: seq![GrammarView::Keyword { word: "MANAGE"@ }, GrammarView::Keyword { word: "GRANTS"@ }], terminators: seq![], parse_mode: ParseMode::Strict }, GrammarView::Sequence { elements: seq![GrammarView::Keyword { word: "MONITOR"@ }, GrammarView::OneOf { elements: seq![GrammarView::Keyword { word: "EXECUTION"@ }, GrammarView::Keyword { word: "USAGE"@ }], terminators: seq![] }], terminators: seq![], parse_mode: ParseMode::Strict }], terminators: seq![] }, GrammarView::Sequence { elements: seq![GrammarView::OneOf { elements: seq![GrammarView::Sequence { elements: seq![GrammarView::Keyword { word: "CREATE"@ }, GrammarView::OneOf { elements: seq![GrammarView::Keyword { word: "SCHEMA"@ }, GrammarView::Sequence { elements: seq![GrammarView::Keyword { word: "MASKING"@ }, GrammarView::Keyword { word: "POLICY"@ }], terminators: seq![], parse_mode: ParseMode::Strict }, GrammarView::Keyword { word: "PIPE"@ }, GrammarView::OneOf { elements: seq![GrammarView::Keyword { word: "TABLE"@ }, GrammarView::Keyword { word: "VIEW"@ }, GrammarView::Keyword { word: "STAGE"@ }, GrammarView::Keyword { word: "FUNCTION"@ }, GrammarView::Keyword { word: "PROCEDURE"@ }, GrammarView::Keyword { word: "ROUTINE"@ }, GrammarView::Keyword { word: "SEQUENCE"@ }, GrammarView::Keyword { word: "STREAM"@ }, GrammarView::Keyword { word: "TASK"@ }], terminators: seq![] }], terminators: seq![] }], terminators: seq![], parse_mode: ParseMode::Strict }, GrammarView::Sequence { elements: seq![GrammarView::Keyword { word: "IMPORTED"@ }, GrammarView::Keyword { word: "PRIVILEGES"@ }], terminators: seq![], parse_mode: ParseMode::Strict }, GrammarView::Keyword { word: "APPLY"@ }, GrammarView::Keyword { word: "CONNECT"@ }, GrammarView::Keyword { word: "CREATE"@ }, GrammarView::Keyword { word: "DELETE"@ }, GrammarView::Keyword { word: "EXECUTE"@ }, GrammarView::Keyword { word: "INSERT"@ }, GrammarView::Keyword { word: "MODIFY"@ }, GrammarView::Keyword { word: "MONITOR"@ }, GrammarView::Keyword { word: "OPERATE"@ }, GrammarView::Keyword { word: "OWNERSHIP"@ }, GrammarView::Keyword { word: "READ"@ }, GrammarView::Keyword { word: "REFERENCE_USAGE"@ }, GrammarView::Keyword { word: "REFERENCES"@ }, GrammarView::Keyword { word: "SELECT"@ }, GrammarView::Keyword { word: "TEMP"@ }, GrammarView::Keyword { word: "TEMPORARY"@ }, GrammarView::Keyword { word: "TRIGGER"@ }, GrammarView::Keyword { word: "TRUNCATE"@ }, GrammarView::Keyword { word: "UPDATE"@ }, GrammarView::Keyword { word: "USAGE"@ }, GrammarView::Keyword { word: "USE_ANY_ROLE"@ }, GrammarView::Keyword { word: "WRITE"@ }, GrammarView::Sequence { elements: seq![GrammarView::Keyword { word: "ALL"@ }, GrammarView::Optional { grammar: Box::new(GrammarView::Keyword { word: "PRIVILEGES"@ }) }], terminators: seq![], parse_mode: ParseMode::Strict }], terminators: seq![] }, GrammarView::Ref { name: "BracketedColumnReferenceListGrammar"@, optional: true }], terminators: seq![], parse_mode: ParseMode::Strict }], terminators: seq![] }], allow_trailing: false, delimiter: None, terminators: seq![GrammarView::Keyword { word: "ON"@ }], allow_gaps: true }, GrammarView::Keyword { word: "ON"@ }, GrammarView::OneOf { elements: seq![GrammarView::Keyword { word: "ACCOUNT"@ }, GrammarView::Sequence { elements: seq![GrammarView::Optional { grammar: Box::new(GrammarView::OneOf { elements: seq![GrammarView::Sequence { elements: seq![GrammarView::Keyword { word: "RESOURCE"@ }, GrammarView::Keyword { word: "MONITOR"@ }], terminators: seq![], parse_mode: ParseMode::Strict }, GrammarView::Keyword { word: "WAREHOUSE"@ }, GrammarView::Keyword { word: "DATABASE"@ }, GrammarView::Keyword { word: "DOMAIN"@ }, GrammarView::Keyword { word: "INTEGRATION"@ }, GrammarView::Keyword { word: "LANGUAGE"@ }, GrammarView::Keyword { word: "SCHEMA"@ }, GrammarView::Keyword { word: "ROLE"@ }, GrammarView::Keyword { word: "TABLESPACE"@ }, GrammarView::Keyword { word: "TYPE"@ }, GrammarView::Sequence { elements: seq![GrammarView::Keyword { word: "FOREIGN"@ }, GrammarView::OneOf { elements: seq![GrammarView::Keyword { word: "SERVER"@ }, GrammarView::Sequence { elements: seq![GrammarView::Keyword { word: "DATA"@ }, GrammarView::Keyword { word: "WRAPPER"@ }], terminators: seq![], parse_mode: ParseMode::Strict }], terminators: seq![] }], terminators: seq![], parse_mode: ParseMode::Strict }, GrammarView::Sequence { elements: seq![GrammarView::Keyword { word: "ALL"@ }, GrammarView::Keyword { word: "SCHEMAS"@ }, GrammarView::Keyword { word: "IN"@ }, GrammarView::Keyword { word: "DATABASE"@ }], terminators: seq![], parse_mode: ParseMode::Strict }, GrammarView::Sequence { elements: seq![GrammarView::Keyword { word: "FUTURE"@ }, GrammarView::Keyword { word: "SCHEMAS"@ }, GrammarView::Keyword { word: "IN"@ }, GrammarView::Keyword { word: "DATABASE"@ }], terminators: seq![], parse_mode: ParseMode::Strict }, GrammarView::OneOf { elements: seq![GrammarView::Keyword { word: "TABLE"@ }, GrammarView::Keyword { word: "VIEW"@ }, GrammarView::Keyword { word: "STAGE"@ }, GrammarView::Keyword { word: "FUNCTION"@ }, GrammarView::Keyword { word: "PROCEDURE"@ }, GrammarView::Keyword { word: "ROUTINE"@ }, GrammarView::Keyword { word: "SEQUENCE"@ }, GrammarView::Keyword { word: "STREAM"@ }, GrammarView::Keyword { word: "TASK"@ }], terminators: seq![] }, GrammarView::Sequence { elements: seq![GrammarView::Keyword { word: "ALL"@ }, GrammarView::OneOf { elements: seq![GrammarView::Keyword { word: "TABLES"@ }, GrammarView::Keyword { word: "VIEWS"@ }, GrammarView::Keyword { word: "STAGES"@ }, GrammarView::Keyword { word: "FUNCTIONS"@ }, GrammarView::Keyword { word: "PROCEDURES"@ }, GrammarView::Keyword { word: "ROUTINES"@ }, GrammarView::Keyword { word: "SEQUENCES"@ }, GrammarView::Keyword { word: "STREAMS"@ }, GrammarView::Keyword { word: "TASKS"@ }], terminators: seq![] }, GrammarView::Keyword { word: "IN"@ }, GrammarView::Keyword { word: "SCHEMA"@ }], terminators: seq![], parse_mode: ParseMode::Strict }, GrammarView::Sequence { elements: seq![GrammarView::Keyword { word: "FUTURE"@ }, GrammarView::Keyword { word: "IN"@ }, GrammarView::OneOf { elements: seq![GrammarView::Keyword { word: "DATABASE"@ }, GrammarView::Keyword { word: "SCHEMA"@ }], terminators: seq![] }], terminators: seq![], parse_mode: ParseMode::Strict }], terminators: seq![] }) }, GrammarView::Delimited { elements: seq![GrammarView::Ref { name: "ObjectReferenceSegment"@, optional: false }, GrammarView::Sequence { elements: seq![GrammarView::Ref { name: "FunctionNameSegment"@, optional: false }, GrammarView::Ref { name: "FunctionParameterListGrammar"@, optional: true }], terminators: seq![], parse_mode: ParseMode::Strict }], allow_trailing: false, delimiter: None, terminators: seq![GrammarView::Keyword { word: "TO"@ }, GrammarView::Keyword { word: "FROM"@ }], allow_gaps: true }], terminators: seq![], parse_mode: ParseMode::Strict }, GrammarView::Sequence { elements: seq![GrammarView::Keyword { word: "LARGE"@ }, GrammarView::Keyword { word: "OBJECT"@ }, GrammarView::Ref { name: "NumericLiteralSegment"@, optional: false }], terminators: seq![], parse_mode: ParseMode::Strict }], terminators: seq![] }], terminators: seq![], parse_mode: ParseMode::Strict }, GrammarView::Sequence { elements: seq![GrammarView::Keyword { word: "ROLE"@ }, GrammarView::Ref { name: "ObjectReferenceSegment"@, optional: false }], terminators: seq![], parse_mode: ParseMode::Strict }, GrammarView::Sequence { elements: seq![GrammarView::Keyword { word: "OWNERSHIP"@ }, GrammarView::Keyword { word: "ON"@ }, GrammarView::Keyword { word: "USER"@ }, GrammarView::Ref { name: "ObjectReferenceSegment"@, optional: false }], terminators: seq![], parse_mode: ParseMode::Strict }, GrammarView::Ref { name: "ObjectReferenceSegment"@, optional: false }], terminators: seq![] }, GrammarView::Keyword { word: "TO"@ }, GrammarView::Optional { grammar: Box::new(GrammarView::OneOf { elements: seq![GrammarView::Keyword { word: "GROUP"@ }, GrammarView::Keyword { word: "USER"@ }, GrammarView::Keyword { word: "ROLE"@ }, GrammarView::Keyword { word: "SHARE"@ }], terminators: seq![] }) }, GrammarView::Delimited { elements: seq![GrammarView::OneOf { elements: seq![GrammarView::Ref { name: "RoleReferenceSegment"@, optional: false }, GrammarView::Ref { name: "FunctionSegment"@, optional: false }, GrammarView::Keyword { word: "PUBLIC"@ }], terminators: seq![] }], allow_trailing: false, delimiter: None, terminators: seq![], allow_gaps: true }, GrammarView::Ref { name: "AccessStatementSegmentGrantRoleWithOptionGrammar"@, optional: true }, GrammarView::Optional { grammar: Box::new(GrammarView::Sequence { elements: seq![GrammarView::Keyword { word: "GRANTED"@ }, GrammarView::Keyword { word: "BY"@ }, GrammarView::OneOf { elements: seq![GrammarView::Keyword { word: "CURRENT_USER"@ }, GrammarView::Keyword { word: "SESSION_USER"@ }, GrammarView::Ref { name: "ObjectReferenceSegment"@, optional: false }], terminators: seq![] }], terminators: seq![], parse_mode: ParseMode::Strict }) }]);
    let g138: Vec<Grammar> = Vec::new();
    assert(views(g138@) =~= Seq::<GrammarView>::empty());
    let g139 = Grammar::sequence_with(g137, g138, ParseMode::Strict);
    let g140: Vec<Grammar> = vec![Grammar::keyword("GRANT"), Grammar::keyword("OPTION"), Grammar::keyword("FOR")];
    assert(views(g140@) =~~= seq![GrammarView::Keyword { word: "GRANT"@ }, GrammarView::Keyword { word: "OPTION"@ }, GrammarView::Keyword { word: "FOR"@ }]);
    let g141: Vec<Grammar> = Vec::new();
    assert(views(g141@) =~= Seq::<GrammarView>::empty());
    let g142 = Grammar::sequence_with(g140, g141, ParseMode::Strict);
    let g143 = g142.optional();
    let g144: Vec<Grammar> = vec![Grammar::keyword("ROLE"), Grammar::keyword("USER"), Grammar::keyword("WAREHOUSE"), Grammar::keyword("DATABASE"), Grammar::keyword("INTEGRATION")];
    assert(views(g144@) =~~= seq![GrammarView::Keyword { word: "ROLE"@ }, GrammarView::Keyword { word: "USER"@ }, GrammarView::Keyword { word: "WAREHOUSE"@ }, GrammarView::Keyword { word: "DATABASE"@ }, GrammarView::Keyword { word: "INTEGRATION"@ }]);
    let g145: Vec<Grammar> = Vec::new();
    assert(views(g145@) =~= Seq::<GrammarView>::empty());
    let g146 = Grammar::one_of_with(g144, g145);
    let g147: Vec<Grammar> = vec![Grammar::keyword("CREATE"), g146];
    assert(views(g147@) =~~= seq![GrammarView::Keyword { word: "CREATE"@ }, GrammarView::OneOf { elements: seq![GrammarView::Keyword { word: "ROLE"@ }, GrammarView::Keyword { word: "USER"@ }, GrammarView::Keyword { word: "WAREHOUSE"@ }, GrammarView::Keyword { word: "DATABASE"@ }, GrammarView::Keyword { word: "INTEGRATION"@ }], terminators: seq![] }]);
    let g148: Vec<Grammar> = Vec::new();
    assert(views(g148@) =~= Seq::<GrammarView>::empty());
    let g149 = Grammar::sequence_with(g147, g148, ParseMode::Strict);
    let g150: Vec<Grammar> = vec![Grammar::keyword("APPLY"), Grammar::keyword("MASKING"), Grammar::keyword("POLICY")];
    assert(views(g150@) =~~= seq![GrammarView::Keyword { word: "APPLY"@ }, GrammarView::Keyword { word: "MASKING"@ }, GrammarView::Keyword { word: "POLICY"@ }]);
    let g151: Vec<Grammar> = Vec::new();
    assert(views(g151@) =~= Seq::<GrammarView>::empty());
    let g152 = Grammar::sequence_with(g150, g151, ParseMode::Strict);
    let g153: Vec<Grammar> = vec![Grammar::keyword("EXECUTE"), Grammar::keyword("TASK")];
    assert(views(g153@) =~~= seq![GrammarView::Keyword { word: "EXECUTE"@ }, GrammarView::Keyword { word: "TASK"@ }]);
    let g154: Vec<Grammar> = Vec::new();
    assert(views(g154@) =~= Seq::<GrammarView>::empty());
    let g155 = Grammar::sequence_with(g153, g154, ParseMode::Strict);
    let g156: Vec<Grammar> = vec![Grammar::keyword("MANAGE"), Grammar::keyword("GRANTS")];
    assert(views(g156@) =~~= seq![GrammarView::Keyword { word: "MANAGE"@ }, GrammarView::Keyword { word: "GRANTS"@ }]);
    let g157: Vec<Grammar> = Vec::new();
    assert(views(g157@) =~= Seq::<GrammarView>::empty());
    let g158 = Grammar::sequence_with(g156, g157, ParseMode::Strict);
    let g159: Vec<Grammar> = vec![Grammar::keyword("EXECUTION"), Grammar::keyword("USAGE")];
    assert(views(g159@) =~~= seq![GrammarView::Keyword { word: "EXECUTION"@ }, GrammarView::Keyword { word: "USAGE"@ }]);
    let g160: Vec<Grammar> = Vec::new();
    assert(views(g160@) =~= Seq::<GrammarView>::empty());
    let g161 = Grammar::one_of_with(g159, g160);
    let g162: Vec<Grammar> = vec![Grammar::keyword("MONITOR"), g161];
    assert(views(g162@) =~~= seq![GrammarView::Keyword { word: "MONITOR"@ }, GrammarView::OneOf { elements: seq![GrammarView::Keyword { word: "EXECUTION"@ }, GrammarView::Keyword { word: "USAGE"@ }], terminators: seq![] }]);
    let g163: Vec<Grammar> = Vec::new();
    assert(views(g163@) =~= Seq::<GrammarView>::empty());
    let g164 = Grammar::sequence_with(g162, g163, ParseMode::Strict);
    let g165: Vec<Grammar> = vec![g149, g152, g155, g158, g164];
    assert(views(g165@) =~~= seq![GrammarView::Sequence { elements: seq![GrammarView::Keyword { word: "CREATE"@ }, GrammarView::OneOf { elements: seq![GrammarView::Keyword { word: "ROLE"@ }, GrammarView::Keyword { word: "USER"@ }, GrammarView::Keyword { word: "WAREHOUSE"@ }, GrammarView::Keyword { word: "DATABASE"@ }, GrammarView::Keyword { word: "INTEGRATION"@ }], terminators: seq![] }], terminators: seq![], parse_mode: ParseMode::Strict }, GrammarView::Sequence { elements: seq![GrammarView::Keyword { word: "APPLY"@ }, GrammarView::Keyword { word: "MASKING"@ }, GrammarView::Keyword { word: "POLICY"@ }], terminators: seq![], parse_mode: ParseMode::Strict }, GrammarView::Sequence { elements: seq![GrammarView::Keyword { word: "EXECUTE"@ }, GrammarView::Keyword { word: "TASK"@ }], terminators: seq![], parse_mode: ParseMode::Strict }, GrammarView::Sequence { elements: seq![GrammarView::Keyword { word: "MANAGE"@ }, GrammarView::Keyword { word: "GRANTS"@ }], terminators: seq![], parse_mode: ParseMode::Strict }, GrammarView::Sequence { elements: seq![GrammarView::Keyword { word: "MONITOR"@ }, GrammarView::OneOf { elements: seq![GrammarView::Keyword { word: "EXECUTION"@ }, GrammarView::Keyword { word: "USAGE"@ }], terminators: seq![] }], terminators: seq![], parse_mode: ParseMode::Strict }]);
    let g166: Vec<Grammar> = Vec::new();
    assert(views(g166@) =~= Seq::<GrammarView>::empty());
    let g167 = Grammar::one_of_with(g165, g166);
    let g168: Vec<Grammar> = vec![Grammar::keyword("MASKING"), Grammar::keyword("POLICY")];
    assert(views(g168@) =~~= seq![GrammarView::Keyword { word: "MASKING"@ }, GrammarView::Keyword { word: "POLICY"@ }]);
    let g169: Vec<Grammar> = Vec::new();
    assert(views(g169@) =~= Seq::<GrammarView>::empty());
    let g170 = Grammar::sequence_with(g168, g169, ParseMode::Strict);
    let g171: Vec<Grammar> = vec![Grammar::keyword("TABLE"), Grammar::keyword("VIEW"), Grammar::keyword("STAGE"), Grammar::keyword("FUNCTION"), Grammar::keyword("PROCEDURE"), Grammar::keyword("ROUTINE"), Grammar::keyword("SEQUENCE"), Grammar::keyword("STREAM"), Grammar::keyword("TASK")];
    assert(views(g171@) =~~= seq![GrammarView::Keyword { word: "TABLE"@ }, GrammarView::Keyword { word: "VIEW"@ }, GrammarView::Keyword { word: "STAGE"@ }, GrammarView::Keyword { word: "FUNCTION"@ }, GrammarView::Keyword { word: "PROCEDURE"@ }, GrammarView::Keyword { word: "ROUTINE"@ }, GrammarView::Keyword { word: "SEQUENCE"@ }, GrammarView::Keyword { word: "STREAM"@ }, GrammarView::Keyword { word: "TASK"@ }]);
    let g172: Vec<Grammar> = Vec::new();
    assert(views(g172@) =~= Seq::<GrammarView>::empty());
    let g173 = Grammar::one_of_with(g171, g172);
    let g174: Vec<Grammar> = vec![Grammar::keyword("SCHEMA"), g170, Grammar::keyword("PIPE"), g173];
    assert(views(g174@) =~~= seq![GrammarView::Keyword { word: "SCHEMA"@ }, GrammarView::Sequence { elements: seq![GrammarView::Keyword { word: "MASKING"@ }, GrammarView::Keyword { word: "POLICY"@ }], terminators: seq![], parse_mode: ParseMode::Strict }, GrammarView::Keyword { word: "PIPE"@ }, GrammarView::OneOf { elements: seq![GrammarView::Keyword { word: "TABLE"@ }, GrammarView::Keyword { word: "VIEW"@ }, GrammarView::Keyword { word: "STAGE"@ }, GrammarView::Keyword { word: "FUNCTION"@ }, GrammarView::Keyword { word: "PROCEDURE"@ }, GrammarView::Keyword { word: "ROUTINE"@ }, GrammarView::Keyword { word: "SEQUENCE"@ }, GrammarView::Keyword { word: "STREAM"@ }, GrammarView::Keyword { word: "TASK"@ }], terminators: seq![] }]);
    let g175: Vec<Grammar> = Vec::new();
    assert(views(g175@) =~= Seq::<GrammarView>::empty());
    let g176 = Grammar::one_of_with(g174, g175);
    let g177: Vec<Grammar> = vec![Grammar::keyword("CREATE"), g176];
    assert(views(g177@) =~~= seq![GrammarView::Keyword { word: "CREATE"@ }, GrammarView::OneOf { elements: seq![GrammarView::Keyword { word: "SCHEMA"@ }, GrammarView::Sequence { elements: seq![GrammarView::Keyword { word: "MASKING"@ }, GrammarView::Keyword { word: "POLICY"@ }], terminators: seq![], parse_mode: ParseMode::Strict }, GrammarView::Keyword { word: "PIPE"@ }, GrammarView::OneOf { elements: seq![GrammarView::Keyword { word: "TABLE"@ }, GrammarView::Keyword { word: "VIEW"@ }, GrammarView::Keyword { word: "STAGE"@ }, GrammarView::Keyword { word: "FUNCTION"@ }, GrammarView::Keyword { word: "PROCEDURE"@ }, GrammarView::Keyword { word: "ROUTINE"@ }, GrammarView::Keyword { word: "SEQUENCE"@ }, GrammarView::Keyword { word: "STREAM"@ }, GrammarView::Keyword { word: "TASK"@ }], terminators: seq![] }], terminators: seq![] }]);
    let g178: Vec<Grammar> = Vec::new();
    assert(views(g178@) =~= Seq::<GrammarView>::empty());
    let g179 = Grammar::sequence_with(g177, g178, ParseMode::Strict);
    let g180: Vec<Grammar> = vec![Grammar::keyword("IMPORTED"), Grammar::keyword("PRIVILEGES")];
    assert(views(g180@) =~~= seq![GrammarView::Keyword { word: "IMPORTED"@ }, GrammarView::Keyword { word: "PRIVILEGES"@ }]);
    let g181: Vec<Grammar> = Vec::new();
    assert(views(g181@) =~= Seq::<GrammarView>::empty());
    let g182 = Grammar::sequence_with(g180, g181, ParseMode::Strict);
    let g183 = Grammar::keyword("PRIVILEGES").optional();
    let g184: Vec<Grammar> = vec![Grammar::keyword("ALL"), g183];
    assert(views(g184@) =~~= seq![GrammarView::Keyword { word: "ALL"@ }, GrammarView::Optional { grammar: Box::new(GrammarView::Keyword { word: "PRIVILEGES"@ }) }]);
    let g185: Vec<Grammar> = Vec::new();
    assert(views(g185@) =~= Seq::<GrammarView>::empty());
    let g186 = Grammar::sequence_with(g184, g185, ParseMode::Strict);
    let g187: Vec<Grammar> = vec![g179, g182, Grammar::keyword("APPLY"), Grammar::keyword("CONNECT"), Grammar::keyword("CREATE"), Grammar::keyword("DELETE"), Grammar::keyword("EXECUTE"), Grammar::keyword("INSERT"), Grammar::keyword("MODIFY"), Grammar::keyword("MONITOR"), Grammar::keyword("OPERATE"), Grammar::keyword("OWNERSHIP"), Grammar::keyword("READ"), Grammar::keyword("REFERENCE_USAGE"), Grammar::keyword("REFERENCES"), Grammar::keyword("SELECT"), Grammar::keyword("TEMP"), Grammar::keyword("TEMPORARY"), Grammar::keyword("TRIGGER"), Grammar::keyword("TRUNCATE"), Grammar::keyword("UPDATE"), Grammar::keyword("USAGE"), Grammar::keyword("USE_ANY_ROLE"), Grammar::keyword("WRITE"), g186];
    assert(views(g187@) =~~= seq![GrammarView::Sequence { elements: seq![GrammarView::Keyword { word: "CREATE"@ }, GrammarView::OneOf { elements: seq![GrammarView::Keyword { word: "SCHEMA"@ }, GrammarView::Sequence { elements: seq![GrammarView::Keyword { word: "MASKING"@ }, GrammarView::Keyword { word: "POLICY"@ }], terminators: seq![], parse_mode: ParseMode::Strict }, GrammarView::Keyword { word: "PIPE"@ }, GrammarView::OneOf { elements: seq![GrammarView::Keyword { word: "TABLE"@ }, GrammarView::Keyword { word: "VIEW"@ }, GrammarView::Keyword { word: "STAGE"@ }, GrammarView::Keyword { word: "FUNCTION"@ }, GrammarView::Keyword { word: "PROCEDURE"@ }, GrammarView::Keyword { word: "ROUTINE"@ }, GrammarView::Keyword { word: "SEQUENCE"@ }, GrammarView::Keyword { word: "STREAM"@ }, GrammarView::Keyword { word: "TASK"@ }], terminators: seq![] }], terminators: seq![] }], terminators: seq![], parse_mode: ParseMode::Strict }, GrammarView::Sequence { elements: seq![GrammarView::Keyword { word: "IMPORTED"@ }, GrammarView::Keyword { word: "PRIVILEGES"@ }], terminators: seq![], parse_mode: ParseMode::Strict }, GrammarView::Keyword { word: "APPLY"@ }, GrammarView::Keyword { word: "CONNECT"@ }, GrammarView::Keyword { word: "CREATE"@ }, GrammarView::Keyword { word: "DELETE"@ }, GrammarView::Keyword { word: "EXECUTE"@ }, GrammarView::Keyword { word: "INSERT"@ }, GrammarView::Keyword { word: "MODIFY"@ }, GrammarView::Keyword { word: "MONITOR"@ }, GrammarView::Keyword { word: "OPERATE"@ }, GrammarView::Keyword { word: "OWNERSHIP"@ }, GrammarView::Keyword { word: "READ"@ }, GrammarView::Keyword { word: "REFERENCE_USAGE"@ }, GrammarView::Keyword { word: "REFERENCES"@ }, GrammarView::Keyword { word: "SELECT"@ }, GrammarView::Keyword { word: "TEMP"@ }, GrammarView::Keyword { word: "TEMPORARY"@ }, GrammarView::Keyword { word: "TRIGGER"@ }, GrammarView::Keyword { word: "TRUNCATE"@ }, GrammarView::Keyword { word: "UPDATE"@ }, GrammarView::Keyword { word: "USAGE"@ }, GrammarView::Keyword { word: "USE_ANY_ROLE"@ }, GrammarView::Keyword { word: "WRITE"@ }, GrammarView::Sequence { elements: seq![GrammarView::Keyword { word: "ALL"@ }, GrammarView::Optional { grammar: Box::new(GrammarView::Keyword { word: "PRIVILEGES"@ }) }], terminators: seq![], parse_mode: ParseMode::Strict }]);
    let g188: Vec<Grammar> = Vec::new();
    assert(views(g188@) =~= Seq::<GrammarView>::empty());
    let g189 = Grammar::one_of_with(g187, g188);
    let g190: Vec<Grammar> = vec![g189, Grammar::optional_reference("BracketedColumnReferenceListGrammar")];
    assert(views(g190@) =~~= seq![GrammarView::OneOf { elements: seq![GrammarView::Sequence { elements: seq![GrammarView::Keyword { word: "CREATE"@ }, GrammarView::OneOf { elements: seq![GrammarView::Keyword { word: "SCHEMA"@ }, GrammarView::Sequence { elements: seq![GrammarView::Keyword { word: "MASKING"@ }, GrammarView::Keyword { word: "POLICY"@ }], terminators: seq![], parse_mode: ParseMode::Strict }, GrammarView::Keyword { word: "PIPE"@ }, GrammarView::OneOf { elements: seq![GrammarView::Keyword { word: "TABLE"@ }, GrammarView::Keyword { word: "VIEW"@ }, GrammarView::Keyword { word: "STAGE"@ }, GrammarView::Keyword { word: "FUNCTION"@ }, GrammarView::Keyword { word: "PROCEDURE"@ }, GrammarView::Keyword { word: "ROUTINE"@ }, GrammarView::Keyword { word: "SEQUENCE"@ }, GrammarView::Keyword { word: "STREAM"@ }, GrammarView::Keyword { word: "TASK"@ }], terminators: seq![] }], terminators: seq![] }], terminators: seq![], parse_mode: ParseMode::Strict }, GrammarView::Sequence { elements: seq![GrammarView::Keyword { word: "IMPORTED"@ }, GrammarView::Keyword { word: "PRIVILEGES"@ }], terminators: seq![], parse_mode: ParseMode::Strict }, GrammarView::Keyword { word: "APPLY"@ }, GrammarView::Keyword { word: "CONNECT"@ }, GrammarView::Keyword { word: "CREATE"@ }, GrammarView::Keyword { word: "DELETE"@ }, GrammarView::Keyword { word: "EXECUTE"@ }, GrammarView::Keyword { word: "INSERT"@ }, GrammarView::Keyword { word: "MODIFY"@ }, GrammarView::Keyword { word: "MONITOR"@ }, GrammarView::Keyword { word: "OPERATE"@ }, GrammarView::Keyword { word: "OWNERSHIP"@ }, GrammarView::Keyword { word: "READ"@ }, GrammarView::Keyword { word: "REFERENCE_USAGE"@ }, GrammarView::Keyword { word: "REFERENCES"@ }, GrammarView::Keyword { word: "SELECT"@ }, GrammarView::Keyword { word: "TEMP"@ }, GrammarView::Keyword { word: "TEMPORARY"@ }, GrammarView::Keyword { word: "TRIGGER"@ }, GrammarView::Keyword { word: "TRUNCATE"@ }, GrammarView::Keyword { word: "UPDATE"@ }, GrammarView::Keyword { word: "USAGE"@ }, GrammarView::Keyword { word: "USE_ANY_ROLE"@ }, GrammarView::Keyword { word: "WRITE"@ }, GrammarView::Sequence { elements: seq![GrammarView::Keyword { word: "ALL"@ }, GrammarView::Optional { grammar: Box::new(GrammarView::Keyword { word: "PRIVILEGES"@ }) }], terminators: seq![], parse_mode: ParseMode::Strict }], terminators: seq![] }, GrammarView::Ref { name: "BracketedColumnReferenceListGrammar"@, optional: true }]);
    let g191: Vec<Grammar> = Vec::new();
    assert(views(g191@) =~= Seq::<GrammarView>::empty());
    let g192 = Grammar::sequence_with(g190, g191, ParseMode::Strict);
    let g193: Vec<Grammar> = vec![g167, g192];
    assert(views(g193@) =~~= seq![GrammarView::OneOf { elements: seq![GrammarView::Sequence { elements: seq![GrammarView::Keyword { word: "CREATE"@ }, GrammarView::OneOf { elements: seq![GrammarView::Keyword { word: "ROLE"@ }, GrammarView::Keyword { word: "USER"@ }, GrammarView::Keyword { word: "WAREHOUSE"@ }, GrammarView::Keyword { word: "DATABASE"@ }, GrammarView::Keyword { word: "INTEGRATION"@ }], terminators: seq![] }], terminators: seq![], parse_mode: ParseMode::Strict }, GrammarView::Sequence { elements: seq![GrammarView::Keyword { word: "APPLY"@ }, GrammarView::Keyword { word: "MASKING"@ }, GrammarView::Keyword { word: "POLICY"@ }], terminators: seq![], parse_mode: ParseMode::Strict }, GrammarView::Sequence { elements: seq![GrammarView::Keyword { word: "EXECUTE"@ }, GrammarView::Keyword { word: "TASK"@ }], terminators: seq![], parse_mode: ParseMode::Strict }, GrammarView::Sequence { elements: seq![GrammarView::Keyword { word: "MANAGE"@ }, GrammarView::Keyword { word: "GRANTS"@ }], terminators: seq![], parse_mode: ParseMode::Strict }, GrammarView::Sequence { elements: seq![GrammarView::Keyword { word: "MONITOR"@ }, GrammarView::OneOf { elements: seq![GrammarView::Keyword { word: "EXECUTION"@ }, GrammarView::Keyword { word: "USAGE"@ }], terminators: seq![] }], terminators: seq![], parse_mode: ParseMode::Strict }], terminators: seq![] }, GrammarView::Sequence { elements: seq![GrammarView::OneOf { elements: seq![GrammarView::Sequence { elements: seq![GrammarView::Keyword { word: "CREATE"@ }, GrammarView::OneOf { elements: seq![GrammarView::Keyword { word: "SCHEMA"@ }, GrammarView::Sequence { elements: seq![GrammarView::Keyword { word: "MASKING"@ }, GrammarView::Keyword { word: "POLICY"@ }], terminators: seq![], parse_mode: ParseMode::Strict }, GrammarView::Keyword { word: "PIPE"@ }, GrammarView::OneOf { elements: seq![GrammarView::Keyword { word: "TABLE"@ }, GrammarView::Keyword { word: "VIEW"@ }, GrammarView::Keyword { word: "STAGE"@ }, GrammarView::Keyword { word: "FUNCTION"@ }, GrammarView::Keyword { word: "PROCEDURE"@ }, GrammarView::Keyword { word: "ROUTINE"@ }, GrammarView::Keyword { word: "SEQUENCE"@ }, GrammarView::Keyword { word: "STREAM"@ }, GrammarView::Keyword { word: "TASK"@ }], terminators: seq![] }], terminators: seq![] }], terminators: seq![], parse_mode: ParseMode::Strict }, GrammarView::Sequence { elements: seq![GrammarView::Keyword { word: "IMPORTED"@ }, GrammarView::Keyword { word: "PRIVILEGES"@ }], terminators: seq![], parse_mode: ParseMode::Strict }, GrammarView::Keyword { word: "APPLY"@ }, GrammarView::Keyword { word: "CONNECT"@ }, GrammarView::Keyword { word: "CREATE"@ }, GrammarView::Keyword { word: "DELETE"@ }, GrammarView::Keyword { word: "EXECUTE"@ }, GrammarView::Keyword { word: "INSERT"@ }, GrammarView::Keyword { word: "MODIFY"@ }, GrammarView::Keyword { word: "MONITOR"@ }, GrammarView::Keyword { word: "OPERATE"@ }, GrammarView::Keyword { word: "OWNERSHIP"@ }, GrammarView::Keyword { word: "READ"@ }, GrammarView::Keyword { word: "REFERENCE_USAGE"@ }, GrammarView::Keyword { word: "REFERENCES"@ }, GrammarView::Keyword { word: "SELECT"@ }, GrammarView::Keyword { word: "TEMP"@ }, GrammarView::Keyword { word: "TEMPORARY"@ }, GrammarView::Keyword { word: "TRIGGER"@ }, GrammarView::Keyword { word: "TRUNCATE"@ }, GrammarView::Keyword { word: "UPDATE"@ }, GrammarView::Keyword { word: "USAGE"@ }, GrammarView::Keyword { word: "USE_ANY_ROLE"@ }, GrammarView::Keyword { word: "WRITE"@ }, GrammarView::Sequence { elements: seq![GrammarView::Keyword { word: "ALL"@ }, GrammarView::Optional { grammar: Box::new(GrammarView::Keyword { word: "PRIVILEGES"@ }) }], terminators: seq![], parse_mode: ParseMode::Strict }], terminators: seq![] }, GrammarView::Ref { name: "BracketedColumnReferenceListGrammar"@, optional: true }], terminators: seq![], parse_mode: ParseMode::Strict }]);
    let g194: Vec<Grammar> = vec![Grammar::keyword("ON")];
    assert(views(g194@) =~~= seq![GrammarView::Keyword { word: "ON"@ }]);
    let g195 = Grammar::one_of_with(g193, g194);
    let g196: Vec<Grammar> = vec![g195];
    assert(views(g196@) =~~= seq![GrammarView::OneOf { elements: seq![GrammarView::OneOf { elements: seq![GrammarView::Sequence { elements: seq![GrammarView::Keyword { word: "CREATE"@ }, GrammarView::OneOf { elements: seq![GrammarView::Keyword { word: "ROLE"@ }, GrammarView::Keyword { word: "USER"@ }, GrammarView::Keyword { word: "WAREHOUSE"@ }, GrammarView::Keyword { word: "DATABASE"@ }, GrammarView::Keyword { word: "INTEGRATION"@ }], terminators: seq![] }], terminators: seq![], parse_mode: ParseMode::Strict }, GrammarView::Sequence { elements: seq![GrammarView::Keyword { word: "APPLY"@ }, GrammarView::Keyword { word: "MASKING"@ }, GrammarView::Keyword { word: "POLICY"@ }], terminators: seq![], parse_mode: ParseMode::Strict }, GrammarView::Sequence { elements: seq![GrammarView::Keyword { word: "EXECUTE"@ }, GrammarView::Keyword { word: "TASK"@ }], terminators: seq![], parse_mode: ParseMode::Strict }, GrammarView::Sequence { elements: seq![GrammarView::Keyword { word: "MANAGE"@ }, GrammarView::Keyword { word: "GRANTS"@ }], terminators: seq![], parse_mode: ParseMode::Strict }, GrammarView::Sequence { elements: seq![GrammarView::Keyword { word: "MONITOR"@ }, GrammarView::OneOf { elements: seq![GrammarView::Keyword { word: "EXECUTION"@ }, GrammarView::Keyword { word: "USAGE"@ }], terminators: seq![] }], terminators: seq![], parse_mode: ParseMode::Strict }], terminators: seq![] }, GrammarView::Sequence { elements: seq![GrammarView::OneOf { elements: seq![GrammarView::Sequence { elements: seq![GrammarView::Keyword { word: "CREATE"@ }, GrammarView::OneOf { elements: seq![GrammarView::Keyword { word: "SCHEMA"@ }, GrammarView::Sequence { elements: seq![GrammarView::Keyword { word: "MASKING"@ }, GrammarView::Keyword { word: "POLICY"@ }], terminators: seq![], parse_mode: ParseMode::Strict }, GrammarView::Keyword { word: "PIPE"@ }, GrammarView::OneOf { elements: seq![GrammarView::Keyword { word: "TABLE"@ }, GrammarView::Keyword { word: "VIEW"@ }, GrammarView::Keyword { word: "STAGE"@ }, GrammarView::Keyword { word: "FUNCTION"@ }, GrammarView::Keyword { word: "PROCEDURE"@ }, GrammarView::Keyword { word: "ROUTINE"@ }, GrammarView::Keyword { word: "SEQUENCE"@ }, GrammarView::Keyword { word: "STREAM"@ }, GrammarView::Keyword { word: "TASK"@ }], terminators: seq![] }], terminators: seq![] }], terminators: seq![], parse_mode: ParseMode::Strict }, GrammarView::Sequence { elements: seq![GrammarView::Keyword { word: "IMPORTED"@ }, GrammarView::Keyword { word: "PRIVILEGES"@ }], terminators: seq![], parse_mode: ParseMode::Strict }, GrammarView::Keyword { word: "APPLY"@ }, GrammarView::Keyword { word: "CONNECT"@ }, GrammarView::Keyword { word: "CREATE"@ }, GrammarView::Keyword { word: "DELETE"@ }, GrammarView::Keyword { word: "EXECUTE"@ }, GrammarView::Keyword { word: "INSERT"@ }, GrammarView::Keyword { word: "MODIFY"@ }, GrammarView::Keyword { word: "MONITOR"@ }, GrammarView::Keyword { word: "OPERATE"@ }, GrammarView::Keyword { word: "OWNERSHIP"@ }, GrammarView::Keyword { word: "READ"@ }, GrammarView::Keyword { word: "REFERENCE_USAGE"@ }, GrammarView::Keyword { word: "REFERENCES"@ }, GrammarView::Keyword { word: "SELECT"@ }, GrammarView::Keyword { word: "TEMP"@ }, GrammarView::Keyword { word: "TEMPORARY"@ }, GrammarView::Keyword { word: "TRIGGER"@ }, GrammarView::Keyword { word: "TRUNCATE"@ }, GrammarView::Keyword { word: "UPDATE"@ }, GrammarView::Keyword { word: "USAGE"@ }, GrammarView::Keyword { word: "USE_ANY_ROLE"@ }, GrammarView::Keyword { word: "WRITE"@ }, GrammarView::Sequence { elements: seq![GrammarView::Keyword { word: "ALL"@ }, GrammarView::Optional { grammar: Box::new(GrammarView::Keyword { word: "PRIVILEGES"@ }) }], terminators: seq![], parse_mode: ParseMode::Strict }], terminators: seq![] }, GrammarView::Ref { name: "BracketedColumnReferenceListGrammar"@, optional: true }], terminators: seq![], parse_mode: ParseMode::Strict }], terminators: seq![GrammarView::Keyword { word: "ON"@ }] }]);
    let g197: Vec<Grammar> = Vec::new();
    assert(views(g197@) =~= Seq::<GrammarView>::empty());
    let g198 = Grammar::delimited_with(g196, false, None, g197, true);
    let g199: Vec<Grammar> = vec![Grammar::keyword("RESOURCE"), Grammar::keyword("MONITOR")];
    assert(views(g199@) =~~= seq![GrammarView::Keyword { word: "RESOURCE"@ }, GrammarView::Keyword { word: "MONITOR"@ }]);
    let g200: Vec<Grammar> = Vec::new();
    assert(views(g200@) =~= Seq::<GrammarView>::empty());
    let g201 = Grammar::sequence_with(g199, g200, ParseMode::Strict);
    let g202: Vec<Grammar> = vec![Grammar::keyword("DATA"), Grammar::keyword("WRAPPER")];
    assert(views(g202@) =~~= seq![GrammarView::Keyword { word: "DATA"@ }, GrammarView::Keyword { word: "WRAPPER"@ }]);
    let g203: Vec<Grammar> = Vec::new();
    assert(views(g203@) =~= Seq::<GrammarView>::empty());
    let g204 = Grammar::sequence_with(g202, g203, ParseMode::Strict);
    let g205: Vec<Grammar> = vec![Grammar::keyword("SERVER"), g204];
    assert(views(g205@) =~~= seq![GrammarView::Keyword { word: "SERVER"@ }, GrammarView::Sequence { elements: seq![GrammarView::Keyword { word: "DATA"@ }, GrammarView::Keyword { word: "WRAPPER"@ }], terminators: seq![], parse_mode: ParseMode::Strict }]);
    let g206: Vec<Grammar> = Vec::new();
    assert(views(g206@) =~= Seq::<GrammarView>::empty());
    let g207 = Grammar::one_of_with(g205, g206);
    let g208: Vec<Grammar> = vec![Grammar::keyword("FOREIGN"), g207];
    assert(views(g208@) =~~= seq![GrammarView::Keyword { word: "FOREIGN"@ }, GrammarView::OneOf { elements: seq![GrammarView::Keyword { word: "SERVER"@ }, GrammarView::Sequence { elements: seq![GrammarView::Keyword { word: "DATA"@ }, GrammarView::Keyword { word: "WRAPPER"@ }], terminators: seq![], parse_mode: ParseMode::Strict }], terminators: seq![] }]);
    let g209: Vec<Grammar> = Vec::new();
    assert(views(g209@) =~= Seq::<GrammarView>::empty());
    let g210 = Grammar::sequence_with(g208, g209, ParseMode::Strict);
    let g211: Vec<Grammar> = vec![Grammar::keyword("ALL"), Grammar::keyword("SCHEMAS"), Grammar::keyword("IN"), Grammar::keyword("DATABASE")];
    assert(views(g211@) =~~= seq![GrammarView::Keyword { word: "ALL"@ }, GrammarView::Keyword { word: "SCHEMAS"@ }, GrammarView::Keyword { word: "IN"@ }, GrammarView::Keyword { word: "DATABASE"@ }]);
    let g212: Vec<Grammar> = Vec::new();
    assert(views(g212@) =~= Seq::<GrammarView>::empty());
    let g213 = Grammar::sequence_with(g211, g212, ParseMode::Strict);
    let g214: Vec<Grammar> = vec![Grammar::keyword("FUTURE"), Grammar::keyword("SCHEMAS"), Grammar::keyword("IN"), Grammar::keyword("DATABASE")];
    assert(views(g214@) =~~= seq![GrammarView::Keyword { word: "FUTURE"@ }, GrammarView::Keyword { word: "SCHEMAS"@ }, GrammarView::Keyword { word: "IN"@ }, GrammarView::Keyword { word: "DATABASE"@ }]);
    let g215: Vec<Grammar> = Vec::new();
    assert(views(g215@) =~= Seq::<GrammarView>::empty());
    let g216 = Grammar::sequence_with(g214, g215, ParseMode::Strict);
    let g217: Vec<Grammar> = vec![Grammar::keyword("TABLE"), Grammar::keyword("VIEW"), Grammar::keyword("STAGE"), Grammar::keyword("FUNCTION"), Grammar::keyword("PROCEDURE"), Grammar::keyword("ROUTINE"), Grammar::keyword("SEQUENCE"), Grammar::keyword("STREAM"), Grammar::keyword("TASK")];
    assert(views(g217@) =~~= seq![GrammarView::Keyword { word: "TABLE"@ }, GrammarView::Keyword { word: "VIEW"@ }, GrammarView::Keyword { word: "STAGE"@ }, GrammarView::Keyword { word: "FUNCTION"@ }, GrammarView::Keyword { word: "PROCEDURE"@ }, GrammarView::Keyword { word: "ROUTINE"@ }, GrammarView::Keyword { word: "SEQUENCE"@ }, GrammarView::Keyword { word: "STREAM"@ }, GrammarView::Keyword { word: "TASK"@ }]);
    let g218: Vec<Grammar> = Vec::new();
    assert(views(g218@) =~= Seq::<GrammarView>::empty());
    let g219 = Grammar::one_of_with(g217, g218);
    let g220: Vec<Grammar> = vec![Grammar::keyword("TABLES"), Grammar::keyword("VIEWS"), Grammar::keyword("STAGES"), Grammar::keyword("FUNCTIONS"), Grammar::keyword("PROCEDURES"), Grammar::keyword("ROUTINES"), Grammar::keyword("SEQUENCES"), Grammar::keyword("STREAMS"), Grammar::keyword("TASKS")];
    assert(views(g220@) =~~= seq![GrammarView::Keyword { word: "TABLES"@ }, GrammarView::Keyword { word: "VIEWS"@ }, GrammarView::Keyword { word: "STAGES"@ }, GrammarView::Keyword { word: "FUNCTIONS"@ }, GrammarView::Keyword { word: "PROCEDURES"@ }, GrammarView::Keyword { word: "ROUTINES"@ }, GrammarView::Keyword { word: "SEQUENCES"@ }, GrammarView::Keyword { word: "STREAMS"@ }, GrammarView::Keyword { word: "TASKS"@ }]);
    let g221: Vec<Grammar> = Vec::new();
    assert(views(g221@) =~= Seq::<GrammarView>::empty());
    let g222 = Grammar::one_of_with(g220, g221);
    let g223: Vec<Grammar> = vec![Grammar::keyword("ALL"), g222, Grammar::keyword("IN"), Grammar::keyword("SCHEMA")];
    assert(views(g223@) =~~= seq![GrammarView::Keyword { word: "ALL"@ }, GrammarView::OneOf { elements: seq![GrammarView::Keyword { word: "TABLES"@ }, GrammarView::Keyword { word: "VIEWS"@ }, GrammarView::Keyword { word: "STAGES"@ }, GrammarView::Keyword { word: "FUNCTIONS"@ }, GrammarView::Keyword { word: "PROCEDURES"@ }, GrammarView::Keyword { word: "ROUTINES"@ }, GrammarView::Keyword { word: "SEQUENCES"@ }, GrammarView::Keyword { word: "STREAMS"@ }, GrammarView::Keyword { word: "TASKS"@ }], terminators: seq![] }, GrammarView::Keyword { word: "IN"@ }, GrammarView::Keyword { word: "SCHEMA"@ }]);
    let g224: Vec<Grammar> = Vec::new();
    assert(views(g224@) =~= Seq::<GrammarView>::empty());
    let g225 = Grammar::sequence_with(g223, g224, ParseMode::Strict);
    let g226: Vec<Grammar> = vec![Grammar::keyword("DATABASE"), Grammar::keyword("SCHEMA")];
    assert(views(g226@) =~~= seq![GrammarView::Keyword { word: "DATABASE"@ }, GrammarView::Keyword { word: "SCHEMA"@ }]);
    let g227: Vec<Grammar> = Vec::new();
    assert(views(g227@) =~= Seq::<GrammarView>::empty());
    let g228 = Grammar::one_of_with(g226, g227);
    let g229: Vec<Grammar> = vec![Grammar::keyword("FUTURE"), Grammar::keyword("IN"), g228];
    assert(views(g229@) =~~= seq![GrammarView::Keyword { word: "FUTURE"@ }, GrammarView::Keyword { word: "IN"@ }, GrammarView::OneOf { elements: seq![GrammarView::Keyword { word: "DATABASE"@ }, GrammarView::Keyword { word: "SCHEMA"@ }], terminators: seq![] }]);
    let g230: Vec<Grammar> = Vec::new();
    assert(views(g230@) =~= Seq::<GrammarView>::empty());
    let g231 = Grammar::sequence_with(g229, g230, ParseMode::Strict);
    let g232: Vec<Grammar> = vec![g201, Grammar::keyword("WAREHOUSE"), Grammar::keyword("DATABASE"), Grammar::keyword("DOMAIN"), Grammar::keyword("INTEGRATION"), Grammar::keyword("LANGUAGE"), Grammar::keyword("SCHEMA"), Grammar::keyword("ROLE"), Grammar::keyword("TABLESPACE"), Grammar::keyword("TYPE"), g210, g213, g216, g219, g225, g231];
    assert(views(g232@) =~~= seq![GrammarView::Sequence { elements: seq![GrammarView::Keyword { word: "RESOURCE"@ }, GrammarView::Keyword { word: "MONITOR"@ }], terminators: seq![], parse_mode: ParseMode::Strict }, GrammarView::Keyword { word: "WAREHOUSE"@ }, GrammarView::Keyword { word: "DATABASE"@ }, GrammarView::Keyword { word: "DOMAIN"@ }, GrammarView::Keyword { word: "INTEGRATION"@ }, GrammarView::Keyword { word: "LANGUAGE"@ }, GrammarView::Keyword { word: "SCHEMA"@ }, GrammarView::Keyword { word: "ROLE"@ }, GrammarView::Keyword { word: "TABLESPACE"@ }, GrammarView::Keyword { word: "TYPE"@ }, GrammarView::Sequence { elements: seq![GrammarView::Keyword { word: "FOREIGN"@ }, GrammarView::OneOf { elements: seq![GrammarView::Keyword { word: "SERVER"@ }, GrammarView::Sequence { elements: seq![GrammarView::Keyword { word: "DATA"@ }, GrammarView::Keyword { word: "WRAPPER"@ }], terminators: seq![], parse_mode: ParseMode::Strict }], terminators: seq![] }], terminators: seq![], parse_mode: ParseMode::Strict }, GrammarView::Sequence { elements: seq![GrammarView::Keyword { word: "ALL"@ }, GrammarView::Keyword { word: "SCHEMAS"@ }, GrammarView::Keyword { word: "IN"@ }, GrammarView::Keyword { word: "DATABASE"@ }], terminators: seq![], parse_mode: ParseMode::Strict }, GrammarView::Sequence { elements: seq![GrammarView::Keyword { word: "FUTURE"@ }, GrammarView::Keyword { word: "SCHEMAS"@ }, GrammarView::Keyword { word: "IN"@ }, GrammarView::Keyword { word: "DATABASE"@ }], terminators: seq![], parse_mode: ParseMode::Strict }, GrammarView::OneOf { elements: seq![GrammarView::Keyword { word: "TABLE"@ }, GrammarView::Keyword { word: "VIEW"@ }, GrammarView::Keyword { word: "STAGE"@ }, GrammarView::Keyword { word: "FUNCTION"@ }, GrammarView::Keyword { word: "PROCEDURE"@ }, GrammarView::Keyword { word: "ROUTINE"@ }, GrammarView::Keyword { word: "SEQUENCE"@ }, GrammarView::Keyword { word: "STREAM"@ }, GrammarView::Keyword { word: "TASK"@ }], terminators: seq![] }, GrammarView::Sequence { elements: seq![GrammarView::Keyword { word: "ALL"@ }, GrammarView::OneOf { elements: seq![GrammarView::Keyword { word: "TABLES"@ }, GrammarView::Keyword { word: "VIEWS"@ }, GrammarView::Keyword { word: "STAGES"@ }, GrammarView::Keyword { word: "FUNCTIONS"@ }, GrammarView::Keyword { word: "PROCEDURES"@ }, GrammarView::Keyword { word: "ROUTINES"@ }, GrammarView::Keyword { word: "SEQUENCES"@ }, GrammarView::Keyword { word: "STREAMS"@ }, GrammarView::Keyword { word: "TASKS"@ }], terminators: seq![] }, GrammarView::Keyword { word: "IN"@ }, GrammarView::Keyword { word: "SCHEMA"@ }], terminators: seq![], parse_mode: ParseMode::Strict }, GrammarView::Sequence { elements: seq![GrammarView::Keyword { word: "FUTURE"@ }, GrammarView::Keyword { word: "IN"@ }, GrammarView::OneOf { elements: seq![GrammarView::Keyword { word: "DATABASE"@ }, GrammarView::Keyword { word: "SCHEMA"@ }], terminators: seq![] }], terminators: seq![], parse_mode: ParseMode::Strict }]);
    let g233: Vec<Grammar> = Vec::new();
    assert(views(g233@) =~= Seq::<GrammarView>::empty());
    let g234 = Grammar::one_of_with(g232, g233);
    let g235 = g234.optional();
    let g236: Vec<Grammar> = vec![Grammar::reference("FunctionNameSegment"), Grammar::optional_reference("FunctionParameterListGrammar")];
    assert(views(g236@) =~~= seq![GrammarView::Ref { name: "FunctionNameSegment"@, optional: false }, GrammarView::Ref { name: "FunctionParameterListGrammar"@, optional: true }]);
    let g237: Vec<Grammar> = Vec::new();
    assert(views(g237@) =~= Seq::<GrammarView>::empty());
    let g238 = Grammar::sequence_with(g236, g237, ParseMode::Strict);
    let g239: Vec<Grammar> = vec![Grammar::reference("ObjectReferenceSegment"), g238];
    assert(views(g239@) =~~= seq![GrammarView::Ref { name: "ObjectReferenceSegment"@, optional: false }, GrammarView::Sequence { elements: seq![GrammarView::Ref { name: "FunctionNameSegment"@, optional: false }, GrammarView::Ref { name: "FunctionParameterListGrammar"@, optional: true }], terminators: seq![], parse_mode: ParseMode::Strict }]);
    let g240: Vec<Grammar> = vec![Grammar::keyword("TO"), Grammar::keyword("FROM")];
    assert(views(g240@) =~~= seq![GrammarView::Keyword { word: "TO"@ }, GrammarView::Keyword { word: "FROM"@ }]);
    let g241 = Grammar::delimited_with(g239, false, None, g240, true);
    let g242: Vec<Grammar> = vec![g235, g241];
    assert(views(g242@) =~~= seq![GrammarView::Optional { grammar: Box::new(GrammarView::OneOf { elements: seq![GrammarView::Sequence { elements: seq![GrammarView::Keyword { word: "RESOURCE"@ }, GrammarView::Keyword { word: "MONITOR"@ }], terminators: seq![], parse_mode: ParseMode::Strict }, GrammarView::Keyword { word: "WAREHOUSE"@ }, GrammarView::Keyword { word: "DATABASE"@ }, GrammarView::Keyword { word: "DOMAIN"@ }, GrammarView::Keyword { word: "INTEGRATION"@ }, GrammarView::Keyword { word: "LANGUAGE"@ }, GrammarView::Keyword { word: "SCHEMA"@ }, GrammarView::Keyword { word: "ROLE"@ }, GrammarView::Keyword { word: "TABLESPACE"@ }, GrammarView::Keyword { word: "TYPE"@ }, GrammarView::Sequence { elements: seq![GrammarView::Keyword { word: "FOREIGN"@ }, GrammarView::OneOf { elements: seq![GrammarView::Keyword { word: "SERVER"@ }, GrammarView::Sequence { elements: seq![GrammarView::Keyword { word: "DATA"@ }, GrammarView::Keyword { word: "WRAPPER"@ }], terminators: seq![], parse_mode: ParseMode::Strict }], terminators: seq![] }], terminators: seq![], parse_mode: ParseMode::Strict }, GrammarView::Sequence { elements: seq![GrammarView::Keyword { word: "ALL"@ }, GrammarView::Keyword { word: "SCHEMAS"@ }, GrammarView::Keyword { word: "IN"@ }, GrammarView::Keyword { word: "DATABASE"@ }], terminators: seq![], parse_mode: ParseMode::Strict }, GrammarView::Sequence { elements: seq![GrammarView::Keyword { word: "FUTURE"@ }, GrammarView::Keyword { word: "SCHEMAS"@ }, GrammarView::Keyword { word: "IN"@ }, GrammarView::Keyword { word: "DATABASE"@ }], terminators: seq![], parse_mode: ParseMode::Strict }, GrammarView::OneOf { elements: seq![GrammarView::Keyword { word: "TABLE"@ }, GrammarView::Keyword { word: "VIEW"@ }, GrammarView::Keyword { word: "STAGE"@ }, GrammarView::Keyword { word: "FUNCTION"@ }, GrammarView::Keyword { word: "PROCEDURE"@ }, GrammarView::Keyword { word: "ROUTINE"@ }, GrammarView::Keyword { word: "SEQUENCE"@ }, GrammarView::Keyword { word: "STREAM"@ }, GrammarView::Keyword { word: "TASK"@ }], terminators: seq![] }, GrammarView::Sequence { elements: seq![GrammarView::Keyword { word: "ALL"@ }, GrammarView::OneOf { elements: seq![GrammarView::Keyword { word: "TABLES"@ }, GrammarView::Keyword { word: "VIEWS"@ }, GrammarView::Keyword { word: "STAGES"@ }, GrammarView::Keyword { word: "FUNCTIONS"@ }, GrammarView::Keyword { word: "PROCEDURES"@ }, GrammarView::Keyword { word: "ROUTINES"@ }, GrammarView::Keyword { word: "SEQUENCES"@ }, GrammarView::Keyword { word: "STREAMS"@ }, GrammarView::Keyword { word: "TASKS"@ }], terminators: seq![] }, GrammarView::Keyword { word: "IN"@ }, GrammarView::Keyword { word: "SCHEMA"@ }], terminators: seq![], parse_mode: ParseMode::Strict }, GrammarView::Sequence { elements: seq![GrammarView::Keyword { word: "FUTURE"@ }, GrammarView::Keyword { word: "IN"@ }, GrammarView::OneOf { elements: seq![GrammarView::Keyword { word: "DATABASE"@ }, GrammarView::Keyword { word: "SCHEMA"@ }], terminators: seq![] }], terminators: seq![], parse_mode: ParseMode::Strict }], terminators: seq![] }) }, GrammarView::Delimited { elements: seq![GrammarView::Ref { name: "ObjectReferenceSegment"@, optional: false }, GrammarView::Sequence { elements: seq![GrammarView::Ref { name: "FunctionNameSegment"@, optional: false }, GrammarView::Ref { name: "FunctionParameterListGrammar"@, optional: true }], terminators: seq![], parse_mode: ParseMode::Strict }], allow_trailing: false, delimiter: None, terminators: seq![GrammarView::Keyword { word: "TO"@ }, GrammarView::Keyword { word: "FROM"@ }], allow_gaps: true }]);
    let g243: Vec<Grammar> = Vec::new();
    assert(views(g243@) =~= Seq::<GrammarView>::empty());
    let g244 = Grammar::sequence_with(g242, g243, ParseMode::Strict);
    let g245: Vec<Grammar> = vec![Grammar::keyword("LARGE"), Grammar::keyword("OBJECT"), Grammar::reference("NumericLiteralSegment")];
    assert(views(g245@) =~~= seq![GrammarView::Keyword { word: "LARGE"@ }, GrammarView::Keyword { word: "OBJECT"@ }, GrammarView::Ref { name: "NumericLiteralSegment"@, optional: false }]);
    let g246: Vec<Grammar> = Vec::new();
    assert(views(g246@) =~= Seq::<GrammarView>::empty());
    let g247 = Grammar::sequence_with(g245, g246, ParseMode::Strict);
    let g248: Vec<Grammar> = vec![Grammar::keyword("ACCOUNT"), g244, g247];
    assert(views(g248@) =~~= seq![GrammarView::Keyword { word: "ACCOUNT"@ }, GrammarView::Sequence { elements: seq![GrammarView::Optional { grammar: Box::new(GrammarView::OneOf { elements: seq![GrammarView::Sequence { elements: seq![GrammarView::Keyword { word: "RESOURCE"@ }, GrammarView::Keyword { word: "MONITOR"@ }], terminators: seq![], parse_mode: ParseMode::Strict }, GrammarView::Keyword { word: "WAREHOUSE"@ }, GrammarView::Keyword { word: "DATABASE"@ }, GrammarView::Keyword { word: "DOMAIN"@ }, GrammarView::Keyword { word: "INTEGRATION"@ }, GrammarView::Keyword { word: "LANGUAGE"@ }, GrammarView::Keyword { word: "SCHEMA"@ }, GrammarView::Keyword { word: "ROLE"@ }, GrammarView::Keyword { word: "TABLESPACE"@ }, GrammarView::Keyword { word: "TYPE"@ }, GrammarView::Sequence { elements: seq![GrammarView::Keyword { word: "FOREIGN"@ }, GrammarView::OneOf { elements: seq![GrammarView::Keyword { word: "SERVER"@ }, GrammarView::Sequence { elements: seq![GrammarView::Keyword { word: "DATA"@ }, GrammarView::Keyword { word: "WRAPPER"@ }], terminators: seq![], parse_mode: ParseMode::Strict }], terminators: seq![] }], terminators: seq![], parse_mode: ParseMode::Strict }, GrammarView::Sequence { elements: seq![GrammarView::Keyword { word: "ALL"@ }, GrammarView::Keyword { word: "SCHEMAS"@ }, GrammarView::Keyword { word: "IN"@ }, GrammarView::Keyword { word: "DATABASE"@ }], terminators: seq![], parse_mode: ParseMode::Strict }, GrammarView::Sequence { elements: seq![GrammarView::Keyword { word: "FUTURE"@ }, GrammarView::Keyword { word: "SCHEMAS"@ }, GrammarView::Keyword { word: "IN"@ }, GrammarView::Keyword { word: "DATABASE"@ }], terminators: seq![], parse_mode: ParseMode::Strict }, GrammarView::OneOf { elements: seq![GrammarView::Keyword { word: "TABLE"@ }, GrammarView::Keyword { word: "VIEW"@ }, GrammarView::Keyword { word: "STAGE"@ }, GrammarView::Keyword { word: "FUNCTION"@ }, GrammarView::Keyword { word: "PROCEDURE"@ }, GrammarView::Keyword { word: "ROUTINE"@ }, GrammarView::Keyword { word: "SEQUENCE"@ }, GrammarView::Keyword { word: "STREAM"@ }, GrammarView::Keyword { word: "TASK"@ }], terminators: seq![] }, GrammarView::Sequence { elements: seq![GrammarView::Keyword { word: "ALL"@ }, GrammarView::OneOf { elements: seq![GrammarView::Keyword { word: "TABLES"@ }, GrammarView::Keyword { word: "VIEWS"@ }, GrammarView::Keyword { word: "STAGES"@ }, GrammarView::Keyword { word: "FUNCTIONS"@ }, GrammarView::Keyword { word: "PROCEDURES"@ }, GrammarView::Keyword { word: "ROUTINES"@ }, GrammarView::Keyword { word: "SEQUENCES"@ }, GrammarView::Keyword { word: "STREAMS"@ }, GrammarView::Keyword { word: "TASKS"@ }], terminators: seq![] }, GrammarView::Keyword { word: "IN"@ }, GrammarView::Keyword { word: "SCHEMA"@ }], terminators: seq![], parse_mode: ParseMode::Strict }, GrammarView::Sequence { elements: seq![GrammarView::Keyword { word: "FUTURE"@ }, GrammarView::Keyword { word: "IN"@ }, GrammarView::OneOf { elements: seq![GrammarView::Keyword { word: "DATABASE"@ }, GrammarView::Keyword { word: "SCHEMA"@ }], terminators: seq![] }], terminators: seq![], parse_mode: ParseMode::Strict }], terminators: seq![] }) }, GrammarView::Delimited { elements: seq![GrammarView::Ref { name: "ObjectReferenceSegment"@, optional: false }, GrammarView::Sequence { elements: seq![GrammarView::Ref { name: "FunctionNameSegment"@, optional: false }, GrammarView::Ref { name: "FunctionParameterListGrammar"@, optional: true }], terminators: seq![], parse_mode: ParseMode::Strict }], allow_trailing: false, delimiter: None, terminators: seq![GrammarView::Keyword { word: "TO"@ }, GrammarView::Keyword { word: "FROM"@ }], allow_gaps: true }], terminators: seq![], parse_mode: ParseMode::Strict }, GrammarView::Sequence { elements: seq![GrammarView::Keyword { word: "LARGE"@ }, GrammarView::Keyword { word: "OBJECT"@ }, GrammarView::Ref { name: "NumericLiteralSegment"@, optional: false }], terminators: seq![], parse_mode: ParseMode::Strict }]);
    let g249: Vec<Grammar> = Vec::new();
    assert(views(g249@) =~= Seq::<GrammarView>::empty());
    let g250 = Grammar::one_of_with(g248, g249);
    let g251: Vec<Grammar> = vec![g198, Grammar::keyword("ON"), g250];
    assert(views(g251@) =~~= seq![GrammarView::Delimited { elements: seq![GrammarView::OneOf { elements: seq![GrammarView::OneOf { elements: seq![GrammarView::Sequence { elements: seq![GrammarView::Keyword { word: "CREATE"@ }, GrammarView::OneOf { elements: seq![GrammarView::Keyword { word: "ROLE"@ }, GrammarView::Keyword { word: "USER"@ }, GrammarView::Keyword { word: "WAREHOUSE"@ }, GrammarView::Keyword { word: "DATABASE"@ }, GrammarView::Keyword { word: "INTEGRATION"@ }], terminators: seq![] }], terminators: seq![], parse_mode: ParseMode::Strict }, GrammarView::Sequence { elements: seq![GrammarView::Keyword { word: "APPLY"@ }, GrammarView::Keyword { word: "MASKING"@ }, GrammarView::Keyword { word: "POLICY"@ }], terminators: seq![], parse_mode: ParseMode::Strict }, GrammarView::Sequence { elements: seq![GrammarView::Keyword { word: "EXECUTE"@ }, GrammarView::Keyword { word: "TASK"@ }], terminators: seq![], parse_mode: ParseMode::Strict }, GrammarView::Sequence { elements: seq![GrammarView::Keyword { word: "MANAGE"@ }, GrammarView::Keyword { word: "GRANTS"@ }], terminators: seq![], parse_mode: ParseMode::Strict }, GrammarView::Sequence { elements: seq![GrammarView::Keyword { word: "MONITOR"@ }, GrammarView::OneOf { elements: seq![GrammarView::Keyword { word: "EXECUTION"@ }, GrammarView::Keyword { word: "USAGE"@ }], terminators: seq![] }], terminators: seq![], parse_mode: ParseMode::Strict }], terminators: seq![] }, GrammarView::Sequence { elements: seq![GrammarView::OneOf { elements: seq![GrammarView::Sequence { elements: seq![GrammarView::Keyword { word: "CREATE"@ }, GrammarView::OneOf { elements: seq![GrammarView::Keyword { word: "SCHEMA"@ }, GrammarView::Sequence { elements: seq![GrammarView::Keyword { word: "MASKING"@ }, GrammarView::Keyword { word: "POLICY"@ }], terminators: seq![], parse_mode: ParseMode::Strict }, GrammarView::Keyword { word: "PIPE"@ }, GrammarView::OneOf { elements: seq![GrammarView::Keyword { word: "TABLE"@ }, GrammarView::Keyword { word: "VIEW"@ }, GrammarView::Keyword { word: "STAGE"@ }, GrammarView::Keyword { word: "FUNCTION"@ }, GrammarView::Keyword { word: "PROCEDURE"@ }, GrammarView::Keyword { word: "ROUTINE"@ }, GrammarView::Keyword { word: "SEQUENCE"@ }, GrammarView::Keyword { word: "STREAM"@ }, GrammarView::Keyword { word: "TASK"@ }], terminators: seq![] }], terminators: seq![] }], terminators: seq![], parse_mode: ParseMode::Strict }, GrammarView::Sequence { elements: seq![GrammarView::Keyword { word: "IMPORTED"@ }, GrammarView::Keyword { word: "PRIVILEGES"@ }], terminators: seq![], parse_mode: ParseMode::Strict }, GrammarView::Keyword { word: "APPLY"@ }, GrammarView::Keyword { word: "CONNECT"@ }, GrammarView::Keyword { word: "CREATE"@ }, GrammarView::Keyword { word: "DELETE"@ }, GrammarView::Keyword { word: "EXECUTE"@ }, GrammarView::Keyword { word: "INSERT"@ }, GrammarView::Keyword { word: "MODIFY"@ }, GrammarView::Keyword { word: "MONITOR"@ }, GrammarView::Keyword { word: "OPERATE"@ }, GrammarView::Keyword { word: "OWNERSHIP"@ }, GrammarView::Keyword { word: "READ"@ }, GrammarView::Keyword { word: "REFERENCE_USAGE"@ }, GrammarView::Keyword { word: "REFERENCES"@ }, GrammarView::Keyword { word: "SELECT"@ }, GrammarView::Keyword { word: "TEMP"@ }, GrammarView::Keyword { word: "TEMPORARY"@ }, GrammarView::Keyword { word: "TRIGGER"@ }, GrammarView::Keyword { word: "TRUNCATE"@ }, GrammarView::Keyword { word: "UPDATE"@ }, GrammarView::Keyword { word: "USAGE"@ }, GrammarView::Keyword { word: "USE_ANY_ROLE"@ }, GrammarView::Keyword { word: "WRITE"@ }, GrammarView::Sequence { elements: seq![GrammarView::Keyword { word: "ALL"@ }, GrammarView::Optional { grammar: Box::new(GrammarView::Keyword { word: "PRIVILEGES"@ }) }], terminators: seq![], parse_mode: ParseMode::Strict }], terminators: seq![] }, GrammarView::Ref { name: "BracketedColumnReferenceListGrammar"@, optional: true }], terminators: seq![], parse_mode: ParseMode::Strict }], terminators: seq![GrammarView::Keyword { word: "ON"@ }] }], allow_trailing: false, delimiter: None, terminators: seq![], allow_gaps: true }, GrammarView::Keyword { word: "ON"@ }, GrammarView::OneOf { elements: seq![GrammarView::Keyword { word: "ACCOUNT"@ }, GrammarView::Sequence { elements: seq![GrammarView::Optional { grammar: Box::new(GrammarView::OneOf { elements: seq![GrammarView::Sequence { elements: seq![GrammarView::Keyword { word: "RESOURCE"@ }, GrammarView::Keyword { word: "MONITOR"@ }], terminators: seq![], parse_mode: ParseMode::Strict }, GrammarView::Keyword { word: "WAREHOUSE"@ }, GrammarView::Keyword { word: "DATABASE"@ }, GrammarView::Keyword { word: "DOMAIN"@ }, GrammarView::Keyword { word: "INTEGRATION"@ }, GrammarView::Keyword { word: "LANGUAGE"@ }, GrammarView::Keyword { word: "SCHEMA"@ }, GrammarView::Keyword { word: "ROLE"@ }, GrammarView::Keyword { word: "TABLESPACE"@ }, GrammarView::Keyword { word: "TYPE"@ }, GrammarView::Sequence { elements: seq![GrammarView::Keyword { word: "FOREIGN"@ }, GrammarView::OneOf { elements: seq![GrammarView::Keyword { word: "SERVER"@ }, GrammarView::Sequence { elements: seq![GrammarView::Keyword { word: "DATA"@ }, GrammarView::Keyword { word: "WRAPPER"@ }], terminators: seq![], parse_mode: ParseMode::Strict }], terminators: seq![] }], terminators: seq![], parse_mode: ParseMode::Strict }, GrammarView::Sequence { elements: seq![GrammarView::Keyword { word: "ALL"@ }, GrammarView::Keyword { word: "SCHEMAS"@ }, GrammarView::Keyword { word: "IN"@ }, GrammarView::Keyword { word: "DATABASE"@ }], terminators: seq![], parse_mode: ParseMode::Strict }, GrammarView::Sequence { elements: seq![GrammarView::Keyword { word: "FUTURE"@ }, GrammarView::Keyword { word: "SCHEMAS"@ }, GrammarView::Keyword { word: "IN"@ }, GrammarView::Keyword { word: "DATABASE"@ }], terminators: seq![], parse_mode: ParseMode::Strict }, GrammarView::OneOf { elements: seq![GrammarView::Keyword { word: "TABLE"@ }, GrammarView::Keyword { word: "VIEW"@ }, GrammarView::Keyword { word: "STAGE"@ }, GrammarView::Keyword { word: "FUNCTION"@ }, GrammarView::Keyword { word: "PROCEDURE"@ }, GrammarView::Keyword { word: "ROUTINE"@ }, GrammarView::Keyword { word: "SEQUENCE"@ }, GrammarView::Keyword { word: "STREAM"@ }, GrammarView::Keyword { word: "TASK"@ }], terminators: seq![] }, GrammarView::Sequence { elements: seq![GrammarView::Keyword { word: "ALL"@ }, GrammarView::OneOf { elements: seq![GrammarView::Keyword { word: "TABLES"@ }, GrammarView::Keyword { word: "VIEWS"@ }, GrammarView::Keyword { word: "STAGES"@ }, GrammarView::Keyword { word: "FUNCTIONS"@ }, GrammarView::Keyword { word: "PROCEDURES"@ }, GrammarView::Keyword { word: "ROUTINES"@ }, GrammarView::Keyword { word: "SEQUENCES"@ }, GrammarView::Keyword { word: "STREAMS"@ }, GrammarView::Keyword { word: "TASKS"@ }], terminators: seq![] }, GrammarView::Keyword { word: "IN"@ }, GrammarView::Keyword { word: "SCHEMA"@ }], terminators: seq![], parse_mode: ParseMode::Strict }, GrammarView::Sequence { elements: seq![GrammarView::Keyword { word: "FUTURE"@ }, GrammarView::Keyword { word: "IN"@ }, GrammarView::OneOf { elements: seq![GrammarView::Keyword { word: "DATABASE"@ }, GrammarView::Keyword { word: "SCHEMA"@ }], terminators: seq![] }], terminators: seq![], parse_mode: ParseMode::Strict }], terminators: seq![] }) }, GrammarView::Delimited { elements: seq![GrammarView::Ref { name: "ObjectReferenceSegment"@, optional: false }, GrammarView::Sequence { elements: seq![GrammarView::Ref { name: "FunctionNameSegment"@, optional: false }, GrammarView::Ref { name: "FunctionParameterListGrammar"@, optional: true }], terminators: seq![], parse_mode: ParseMode::Strict }], allow_trailing: false, delimiter: None, terminators: seq![GrammarView::Keyword { word: "TO"@ }, GrammarView::Keyword { word: "FROM"@ }], allow_gaps: true }], terminators: seq![], parse_mode: ParseMode::Strict }, GrammarView::Sequence { elements: seq![GrammarView::Keyword { word: "LARGE"@ }, GrammarView::Keyword { word: "OBJECT"@ }, GrammarView::Ref { name: "NumericLiteralSegment"@, optional: false }], terminators: seq![], parse_mode: ParseMode::Strict }], terminators: seq![] }]);
    let g252: Vec<Grammar> = Vec::new();
    assert(views(g252@) =~= Seq::<GrammarView>::empty());
    let g253 = Grammar::sequence_with(g251, g252, ParseMode::Strict);
    let g254: Vec<Grammar> = vec![Grammar::keyword("ROLE"), Grammar::reference("ObjectReferenceSegment")];
    assert(views(g254@) =~~= seq![GrammarView::Keyword { word: "ROLE"@ }, GrammarView::Ref { name: "ObjectReferenceSegment"@, optional: false }]);
    let g255: Vec<Grammar> = Vec::new();
    assert(views(g255@) =~= Seq::<GrammarView>::empty());
    let g256 = Grammar::sequence_with(g254, g255, ParseMode::Strict);
    let g257: Vec<Grammar> = vec![Grammar::keyword("OWNERSHIP"), Grammar::keyword("ON"), Grammar::keyword("USER"), Grammar::reference("ObjectReferenceSegment")];
    assert(views(g257@) =~~= seq![GrammarView::Keyword { word: "OWNERSHIP"@ }, GrammarView::Keyword { word: "ON"@ }, GrammarView::Keyword { word: "USER"@ }, GrammarView::Ref { name: "ObjectReferenceSegment"@, optional: false }]);
    let g258: Vec<Grammar> = Vec::new();
    assert(views(g258@) =~= Seq::<GrammarView>::empty());
    let g259 = Grammar::sequence_with(g257, g258, ParseMode::Strict);
    let g260: Vec<Grammar> = vec![g253, g256, g259, Grammar::reference("ObjectReferenceSegment")];
    assert(views(g260@) =~~= seq![GrammarView::Sequence { elements: seq![GrammarView::Delimited { elements: seq![GrammarView::OneOf { elements: seq![GrammarView::OneOf { elements: seq![GrammarView::Sequence { elements: seq![GrammarView::Keyword { word: "CREATE"@ }, GrammarView::OneOf { elements: seq![GrammarView::Keyword { word: "ROLE"@ }, GrammarView::Keyword { word: "USER"@ }, GrammarView::Keyword { word: "WAREHOUSE"@ }, GrammarView::Keyword { word: "DATABASE"@ }, GrammarView::Keyword { word: "INTEGRATION"@ }], terminators: seq![] }], terminators: seq![], parse_mode: ParseMode::Strict }, GrammarView::Sequence { elements: seq![GrammarView::Keyword { word: "APPLY"@ }, GrammarView::Keyword { word: "MASKING"@ }, GrammarView::Keyword { word: "POLICY"@ }], terminators: seq![], parse_mode: ParseMode::Strict }, GrammarView::Sequence { elements: seq![GrammarView::Keyword { word: "EXECUTE"@ }, GrammarView::Keyword { word: "TASK"@ }], terminators: seq![], parse_mode: ParseMode::Strict }, GrammarView::Sequence { elements: seq![GrammarView::Keyword { word: "MANAGE"@ }, GrammarView::Keyword { word: "GRANTS"@ }], terminators: seq![], parse_mode: ParseMode::Strict }, GrammarView::Sequence { elements: seq![GrammarView::Keyword { word: "MONITOR"@ }, GrammarView::OneOf { elements: seq![GrammarView::Keyword { word: "EXECUTION"@ }, GrammarView::Keyword { word: "USAGE"@ }], terminators: seq![] }], terminators: seq![], parse_mode: ParseMode::Strict }], terminators: seq![] }, GrammarView::Sequence { elements: seq![GrammarView::OneOf { elements: seq![GrammarView::Sequence { elements: seq![GrammarView::Keyword { word: "CREATE"@ }, GrammarView::OneOf { elements: seq![GrammarView::Keyword { word: "SCHEMA"@ }, GrammarView::Sequence { elements: seq![GrammarView::Keyword { word: "MASKING"@ }, GrammarView::Keyword { word: "POLICY"@ }], terminators: seq![], parse_mode: ParseMode::Strict }, GrammarView::Keyword { word: "PIPE"@ }, GrammarView::OneOf { elements: seq![GrammarView::Keyword { word: "TABLE"@ }, GrammarView::Keyword { word: "VIEW"@ }, GrammarView::Keyword { word: "STAGE"@ }, GrammarView::Keyword { word: "FUNCTION"@ }, GrammarView::Keyword { word: "PROCEDURE"@ }, GrammarView::Keyword { word: "ROUTINE"@ }, GrammarView::Keyword { word: "SEQUENCE"@ }, GrammarView::Keyword { word: "STREAM"@ }, GrammarView::Keyword { word: "TASK"@ }], terminators: seq![] }], terminators: seq![] }], terminators: seq![], parse_mode: ParseMode::Strict }, GrammarView::Sequence { elements: seq![GrammarView::Keyword { word: "IMPORTED"@ }, GrammarView::Keyword { word: "PRIVILEGES"@ }], terminators: seq![], parse_mode: ParseMode::Strict }, GrammarView::Keyword { word: "APPLY"@ }, GrammarView::Keyword { word: "CONNECT"@ }, GrammarView::Keyword { word: "CREATE"@ }, GrammarView::Keyword { word: "DELETE"@ }, GrammarView::Keyword { word: "EXECUTE"@ }, GrammarView::Keyword { word: "INSERT"@ }, GrammarView::Keyword { word: "MODIFY"@ }, GrammarView::Keyword { word: "MONITOR"@ }, GrammarView::Keyword { word: "OPERATE"@ }, GrammarView::Keyword { word: "OWNERSHIP"@ }, GrammarView::Keyword { word: "READ"@ }, GrammarView::Keyword { word: "REFERENCE_USAGE"@ }, GrammarView::Keyword { word: "REFERENCES"@ }, GrammarView::Keyword { word: "SELECT"@ }, GrammarView::Keyword { word: "TEMP"@ }, GrammarView::Keyword { word: "TEMPORARY"@ }, GrammarView::Keyword { word: "TRIGGER"@ }, GrammarView::Keyword { word: "TRUNCATE"@ }, GrammarView::Keyword { word: "UPDATE"@ }, GrammarView::Keyword { word: "USAGE"@ }, GrammarView::Keyword { word: "USE_ANY_ROLE"@ }, GrammarView::Keyword { word: "WRITE"@ }, GrammarView::Sequence { elements: seq![GrammarView::Keyword { word: "ALL"@ }, GrammarView::Optional { grammar: Box::new(GrammarView::Keyword { word: "PRIVILEGES"@ }) }], terminators: seq![], parse_mode: ParseMode::Strict }], terminators: seq![] }, GrammarView::Ref { name: "BracketedColumnReferenceListGrammar"@, optional: true }], terminators: seq![], parse_mode: ParseMode::Strict }], terminators: seq![GrammarView::Keyword { word: "ON"@ }] }], allow_trailing: false, delimiter: None, terminators: seq![], allow_gaps: true }, GrammarView::Keyword { word: "ON"@ }, GrammarView::OneOf { elements: seq![GrammarView::Keyword { word: "ACCOUNT"@ }, GrammarView::Sequence { elements: seq![GrammarView::Optional { grammar: Box::new(GrammarView::OneOf { elements: seq![GrammarView::Sequence { elements: seq![GrammarView::Keyword { word: "RESOURCE"@ }, GrammarView::Keyword { word: "MONITOR"@ }], terminators: seq![], parse_mode: ParseMode::Strict }, GrammarView::Keyword { word: "WAREHOUSE"@ }, GrammarView::Keyword { word: "DATABASE"@ }, GrammarView::Keyword { word: "DOMAIN"@ }, GrammarView::Keyword { word: "INTEGRATION"@ }, GrammarView::Keyword { word: "LANGUAGE"@ }, GrammarView::Keyword { word: "SCHEMA"@ }, GrammarView::Keyword { word: "ROLE"@ }, GrammarView::Keyword { word: "TABLESPACE"@ }, GrammarView::Keyword { word: "TYPE"@ }, GrammarView::Sequence { elements: seq![GrammarView::Keyword { word: "FOREIGN"@ }, GrammarView::OneOf { elements: seq![GrammarView::Keyword { word: "SERVER"@ }, GrammarView::Sequence { elements: seq![GrammarView::Keyword { word: "DATA"@ }, GrammarView::Keyword { word: "WRAPPER"@ }], terminators: seq![], parse_mode: ParseMode::Strict }], terminators: seq![] }], terminators: seq![], parse_mode: ParseMode::Strict }, GrammarView::Sequence { elements: seq![GrammarView::Keyword { word: "ALL"@ }, GrammarView::Keyword { word: "SCHEMAS"@ }, GrammarView::Keyword { word: "IN"@ }, GrammarView::Keyword { word: "DATABASE"@ }], terminators: seq![], parse_mode: ParseMode::Strict }, GrammarView::Sequence { elements: seq![GrammarView::Keyword { word: "FUTURE"@ }, GrammarView::Keyword { word: "SCHEMAS"@ }, GrammarView::Keyword { word: "IN"@ }, GrammarView::Keyword { word: "DATABASE"@ }], terminators: seq![], parse_mode: ParseMode::Strict }, GrammarView::OneOf { elements: seq![GrammarView::Keyword { word: "TABLE"@ }, GrammarView::Keyword { word: "VIEW"@ }, GrammarView::Keyword { word: "STAGE"@ }, GrammarView::Keyword { word: "FUNCTION"@ }, GrammarView::Keyword { word: "PROCEDURE"@ }, GrammarView::Keyword { word: "ROUTINE"@ }, GrammarView::Keyword { word: "SEQUENCE"@ }, GrammarView::Keyword { word: "STREAM"@ }, GrammarView::Keyword { word: "TASK"@ }], terminators: seq![] }, GrammarView::Sequence { elements: seq![GrammarView::Keyword { word: "ALL"@ }, GrammarView::OneOf { elements: seq![GrammarView::Keyword { word: "TABLES"@ }, GrammarView::Keyword { word: "VIEWS"@ }, GrammarView::Keyword { word: "STAGES"@ }, GrammarView::Keyword { word: "FUNCTIONS"@ }, GrammarView::Keyword { word: "PROCEDURES"@ }, GrammarView::Keyword { word: "ROUTINES"@ }, GrammarView::Keyword { word: "SEQUENCES"@ }, GrammarView::Keyword { word: "STREAMS"@ }, GrammarView::Keyword { word: "TASKS"@ }], terminators: seq![] }, GrammarView::Keyword { word: "IN"@ }, GrammarView::Keyword { word: "SCHEMA"@ }], terminators: seq![], parse_mode: ParseMode::Strict }, GrammarView::Sequence { elements: seq![GrammarView::Keyword { word: "FUTURE"@ }, GrammarView::Keyword { word: "IN"@ }, GrammarView::OneOf { elements: seq![GrammarView::Keyword { word: "DATABASE"@ }, GrammarView::Keyword { word: "SCHEMA"@ }], terminators: seq![] }], terminators: seq![], parse_mode: ParseMode::Strict }], terminators: seq![] }) }, GrammarView::Delimited { elements: seq![GrammarView::Ref { name: "ObjectReferenceSegment"@, optional: false }, GrammarView::Sequence { elements: seq![GrammarView::Ref { name: "FunctionNameSegment"@, optional: false }, GrammarView::Ref { name: "FunctionParameterListGrammar"@, optional: true }], terminators: seq![], parse_mode: ParseMode::Strict }], allow_trailing: false, delimiter: None, terminators: seq![GrammarView::Keyword { word: "TO"@ }, GrammarView::Keyword { word: "FROM"@ }], allow_gaps: true }], terminators: seq![], parse_mode: ParseMode::Strict }, GrammarView::Sequence { elements: seq![GrammarView::Keyword { word: "LARGE"@ }, GrammarView::Keyword { word: "OBJECT"@ }, GrammarView::Ref { name: "NumericLiteralSegment"@, optional: false }], terminators: seq![], parse_mode: ParseMode::Strict }], terminators: seq![] }], terminators: seq![], parse_mode: ParseMode::Strict }, GrammarView::Sequence { elements: seq![GrammarView::Keyword { word: "ROLE"@ }, GrammarView::Ref { name: "ObjectReferenceSegment"@, optional: false }], terminators: seq![], parse_mode: ParseMode::Strict }, GrammarView::Sequence { elements: seq![GrammarView::Keyword { word: "OWNERSHIP"@ }, GrammarView::Keyword { word: "ON"@ }, GrammarView::Keyword { word: "USER"@ }, GrammarView::Ref { name: "ObjectReferenceSegment"@, optional: false }], terminators: seq![], parse_mode: ParseMode::Strict }, GrammarView::Ref { name: "ObjectReferenceSegment"@, optional: false }]);
    let g261: Vec<Grammar> = Vec::new();
    assert(views(g261@) =~= Seq::<GrammarView>::empty());
    let g262 = Grammar::one_of_with(g260, g261);
    let g263: Vec<Grammar> = vec![Grammar::keyword("GROUP"), Grammar::keyword("USER"), Grammar::keyword("ROLE"), Grammar::keyword("SHARE")];
    assert(views(g263@) =~~= seq![GrammarView::Keyword { word: "GROUP"@ }, GrammarView::Keyword { word: "USER"@ }, GrammarView::Keyword { word: "ROLE"@ }, GrammarView::Keyword { word: "SHARE"@ }]);
    let g264: Vec<Grammar> = Vec::new();
    assert(views(g264@) =~= Seq::<GrammarView>::empty());
    let g265 = Grammar::one_of_with(g263, g264);
    let g266 = g265.optional();
    let g267: Vec<Grammar> = vec![Grammar::reference("ObjectReferenceSegment")];
    assert(views(g267@) =~~= seq![GrammarView::Ref { name: "ObjectReferenceSegment"@, optional: false }]);
    let g268: Vec<Grammar> = Vec::new();
    assert(views(g268@) =~= Seq::<GrammarView>::empty());
    let g269 = Grammar::delimited_with(g267, false, None, g268, true);
    let g270: Vec<Grammar> = vec![Grammar::keyword("REVOKE"), g143, g262, Grammar::keyword("FROM"), g266, g269, Grammar::optional_reference("DropBehaviorGrammar")];
    assert(views(g270@) =~~= seq![GrammarView::Keyword { word: "REVOKE"@ }, GrammarView::Optional { grammar: Box::new(GrammarView::Sequence { elements: seq![GrammarView::Keyword { word: "GRANT"@ }, GrammarView::Keyword { word: "OPTION"@ }, GrammarView::Keyword { word: "FOR"@ }], terminators: seq![], parse_mode: ParseMode::Strict }) }, GrammarView::OneOf { elements: seq![GrammarView::Sequence { elements: seq![GrammarView::Delimited { elements: seq![GrammarView::OneOf { elements: seq![GrammarView::OneOf { elements: seq![GrammarView::Sequence { elements: seq![GrammarView::Keyword { word: "CREATE"@ }, GrammarView::OneOf { elements: seq![GrammarView::Keyword { word: "ROLE"@ }, GrammarView::Keyword { word: "USER"@ }, GrammarView::Keyword { word: "WAREHOUSE"@ }, GrammarView::Keyword { word: "DATABASE"@ }, GrammarView::Keyword { word: "INTEGRATION"@ }], terminators: seq![] }], terminators: seq![], parse_mode: ParseMode::Strict }, GrammarView::Sequence { elements: seq![GrammarView::Keyword { word: "APPLY"@ }, GrammarView::Keyword { word: "MASKING"@ }, GrammarView::Keyword { word: "POLICY"@ }], terminators: seq![], parse_mode: ParseMode::Strict }, GrammarView::Sequence { elements: seq![GrammarView::Keyword { word: "EXECUTE"@ }, GrammarView::Keyword { word: "TASK"@ }], terminators: seq![], parse_mode: ParseMode::Strict }, GrammarView::Sequence { elements: seq![GrammarView::Keyword { word: "MANAGE"@ }, GrammarView::Keyword { word: "GRANTS"@ }], terminators: seq![], parse_mode: ParseMode::Strict }, GrammarView::Sequence { elements: seq![GrammarView::Keyword { word: "MONITOR"@ }, GrammarView::OneOf { elements: seq![GrammarView::Keyword { word: "EXECUTION"@ }, GrammarView::Keyword { word: "USAGE"@ }], terminators: seq![] }], terminators: seq![], parse_mode: ParseMode::Strict }], terminators: seq![] }, GrammarView::Sequence { elements: seq![GrammarView::OneOf { elements: seq![GrammarView::Sequence { elements: seq![GrammarView::Keyword { word: "CREATE"@ }, GrammarView::OneOf { elements: seq![GrammarView::Keyword { word: "SCHEMA"@ }, GrammarView::Sequence { elements: seq![GrammarView::Keyword { word: "MASKING"@ }, GrammarView::Keyword { word: "POLICY"@ }], terminators: seq![], parse_mode: ParseMode::Strict }, GrammarView::Keyword { word: "PIPE"@ }, GrammarView::OneOf { elements: seq![GrammarView::Keyword { word: "TABLE"@ }, GrammarView::Keyword { word: "VIEW"@ }, GrammarView::Keyword { word: "STAGE"@ }, GrammarView::Keyword { word: "FUNCTION"@ }, GrammarView::Keyword { word: "PROCEDURE"@ }, GrammarView::Keyword { word: "ROUTINE"@ }, GrammarView::Keyword { word: "SEQUENCE"@ }, GrammarView::Keyword { word: "STREAM"@ }, GrammarView::Keyword { word: "TASK"@ }], terminators: seq![] }], terminators: seq![] }], terminators: seq![], parse_mode: ParseMode::Strict }, GrammarView::Sequence { elements: seq![GrammarView::Keyword { word: "IMPORTED"@ }, GrammarView::Keyword { word: "PRIVILEGES"@ }], terminators: seq![], parse_mode: ParseMode::Strict }, GrammarView::Keyword { word: "APPLY"@ }, GrammarView::Keyword { word: "CONNECT"@ }, GrammarView::Keyword { word: "CREATE"@ }, GrammarView::Keyword { word: "DELETE"@ }, GrammarView::Keyword { word: "EXECUTE"@ }, GrammarView::Keyword { word: "INSERT"@ }, GrammarView::Keyword { word: "MODIFY"@ }, GrammarView::Keyword { word: "MONITOR"@ }, GrammarView::Keyword { word: "OPERATE"@ }, GrammarView::Keyword { word: "OWNERSHIP"@ }, GrammarView::Keyword { word: "READ"@ }, GrammarView::Keyword { word: "REFERENCE_USAGE"@ }, GrammarView::Keyword { word: "REFERENCES"@ }, GrammarView::Keyword { word: "SELECT"@ }, GrammarView::Keyword { word: "TEMP"@ }, GrammarView::Keyword { word: "TEMPORARY"@ }, GrammarView::Keyword { word: "TRIGGER"@ }, GrammarView::Keyword { word: "TRUNCATE"@ }, GrammarView::Keyword { word: "UPDATE"@ }, GrammarView::Keyword { word: "USAGE"@ }, GrammarView::Keyword { word: "USE_ANY_ROLE"@ }, GrammarView::Keyword { word: "WRITE"@ }, GrammarView::Sequence { elements: seq![GrammarView::Keyword { word: "ALL"@ }, GrammarView::Optional { grammar: Box::new(GrammarView::Keyword { word: "PRIVILEGES"@ }) }], terminators: seq![], parse_mode: ParseMode::Strict }], terminators: seq![] }, GrammarView::Ref { name: "BracketedColumnReferenceListGrammar"@, optional: true }], terminators: seq![], parse_mode: ParseMode::Strict }], terminators: seq![GrammarView::Keyword { word: "ON"@ }] }], allow_trailing: false, delimiter: None, terminators: seq![], allow_gaps: true }, GrammarView::Keyword { word: "ON"@ }, GrammarView::OneOf { elements: seq![GrammarView::Keyword { word: "ACCOUNT"@ }, GrammarView::Sequence { elements: seq![GrammarView::Optional { grammar: Box::new(GrammarView::OneOf { elements: seq![GrammarView::Sequence { elements: seq![GrammarView::Keyword { word: "RESOURCE"@ }, GrammarView::Keyword { word: "MONITOR"@ }], terminators: seq![], parse_mode: ParseMode::Strict }, GrammarView::Keyword { word: "WAREHOUSE"@ }, GrammarView::Keyword { word: "DATABASE"@ }, GrammarView::Keyword { word: "DOMAIN"@ }, GrammarView::Keyword { word: "INTEGRATION"@ }, GrammarView::Keyword { word: "LANGUAGE"@ }, GrammarView::Keyword { word: "SCHEMA"@ }, GrammarView::Keyword { word: "ROLE"@ }, GrammarView::Keyword { word: "TABLESPACE"@ }, GrammarView::Keyword { word: "TYPE"@ }, GrammarView::Sequence { elements: seq![GrammarView::Keyword { word: "FOREIGN"@ }, GrammarView::OneOf { elements: seq![GrammarView::Keyword { word: "SERVER"@ }, GrammarView::Sequence { elements: seq![GrammarView::Keyword { word: "DATA"@ }, GrammarView::Keyword { word: "WRAPPER"@ }], terminators: seq![], parse_mode: ParseMode::Strict }], terminators: seq![] }], terminators: seq![], parse_mode: ParseMode::Strict }, GrammarView::Sequence { elements: seq![GrammarView::Keyword { word: "ALL"@ }, GrammarView::Keyword { word: "SCHEMAS"@ }, GrammarView::Keyword { word: "IN"@ }, GrammarView::Keyword { word: "DATABASE"@ }], terminators: seq![], parse_mode: ParseMode::Strict }, GrammarView::Sequence { elements: seq![GrammarView::Keyword { word: "FUTURE"@ }, GrammarView::Keyword { word: "SCHEMAS"@ }, GrammarView::Keyword { word: "IN"@ }, GrammarView::Keyword { word: "DATABASE"@ }], terminators: seq![], parse_mode: ParseMode::Strict }, GrammarView::OneOf { elements: seq![GrammarView::Keyword { word: "TABLE"@ }, GrammarView::Keyword { word: "VIEW"@ }, GrammarView::Keyword { word: "STAGE"@ }, GrammarView::Keyword { word: "FUNCTION"@ }, GrammarView::Keyword { word: "PROCEDURE"@ }, GrammarView::Keyword { word: "ROUTINE"@ }, GrammarView::Keyword { word: "SEQUENCE"@ }, GrammarView::Keyword { word: "STREAM"@ }, GrammarView::Keyword { word: "TASK"@ }], terminators: seq![] }, GrammarView::Sequence { elements: seq![GrammarView::Keyword { word: "ALL"@ }, GrammarView::OneOf { elements: seq![GrammarView::Keyword { word: "TABLES"@ }, GrammarView::Keyword { word: "VIEWS"@ }, GrammarView::Keyword { word: "STAGES"@ }, GrammarView::Keyword { word: "FUNCTIONS"@ }, GrammarView::Keyword { word: "PROCEDURES"@ }, GrammarView::Keyword { word: "ROUTINES"@ }, GrammarView::Keyword { word: "SEQUENCES"@ }, GrammarView::Keyword { word: "STREAMS"@ }, GrammarView::Keyword { word: "TASKS"@ }], terminators: seq![] }, GrammarView::Keyword { word: "IN"@ }, GrammarView::Keyword { word: "SCHEMA"@ }], terminators: seq![], parse_mode: ParseMode::Strict }, GrammarView::Sequence { elements: seq![GrammarView::Keyword { word: "FUTURE"@ }, GrammarView::Keyword { word: "IN"@ }, GrammarView::OneOf { elements: seq![GrammarView::Keyword { word: "DATABASE"@ }, GrammarView::Keyword { word: "SCHEMA"@ }], terminators: seq![] }], terminators: seq![], parse_mode: ParseMode::Strict }], terminators: seq![] }) }, GrammarView::Delimited { elements: seq![GrammarView::Ref { name: "ObjectReferenceSegment"@, optional: false }, GrammarView::Sequence { elements: seq![GrammarView::Ref { name: "FunctionNameSegment"@, optional: false }, GrammarView::Ref { name: "FunctionParameterListGrammar"@, optional: true }], terminators: seq![], parse_mode: ParseMode::Strict }], allow_trailing: false, delimiter: None, terminators: seq![GrammarView::Keyword { word: "TO"@ }, GrammarView::Keyword { word: "FROM"@ }], allow_gaps: true }], terminators: seq![], parse_mode: ParseMode::Strict }, GrammarView::Sequence { elements: seq![GrammarView::Keyword { word: "LARGE"@ }, GrammarView::Keyword { word: "OBJECT"@ }, GrammarView::Ref { name: "NumericLiteralSegment"@, optional: false }], terminators: seq![], parse_mode: ParseMode::Strict }], terminators: seq![] }], terminators: seq![], parse_mode: ParseMode::Strict }, GrammarView::Sequence { elements: seq![GrammarView::Keyword { word: "ROLE"@ }, GrammarView::Ref { name: "ObjectReferenceSegment"@, optional: false }], terminators: seq![], parse_mode: ParseMode::Strict }, GrammarView::Sequence { elements: seq![GrammarView::Keyword { word: "OWNERSHIP"@ }, GrammarView::Keyword { word: "ON"@ }, GrammarView::Keyword { word: "USER"@ }, GrammarView::Ref { name: "ObjectReferenceSegment"@, optional: false }], terminators: seq![], parse_mode: ParseMode::Strict }, GrammarView::Ref { name: "ObjectReferenceSegment"@, optional: false }], terminators: seq![] }, GrammarView::Keyword { word: "FROM"@ }, GrammarView::Optional { grammar: Box::new(GrammarView::OneOf { elements: seq![GrammarView::Keyword { word: "GROUP"@ }, GrammarView::Keyword { word: "USER"@ }, GrammarView::Keyword { word: "ROLE"@ }, GrammarView::Keyword { word: "SHARE"@ }], terminators: seq![] }) }, GrammarView::Delimited { elements: seq![GrammarView::Ref { name: "ObjectReferenceSegment"@, optional: false }], allow_trailing: false, delimiter: None, terminators: seq![], allow_gaps: true }, GrammarView::Ref { name: "DropBehaviorGrammar"@, optional: true }]);
    let g271: Vec<Grammar> = Vec::new();
    assert(views(g271@) =~= Seq::<GrammarView>::empty());
    let g272 = Grammar::sequence_with(g270, g271, ParseMode::Strict);
    let g273: Vec<Grammar> = vec![g139, g272];
    assert(views(g273@) =~~= seq![GrammarView::Sequence { elements: seq![GrammarView::Keyword { word: "GRANT"@ }, GrammarView::OneOf { elements: seq![GrammarView::Sequence { elements: seq![GrammarView::Delimited { elements: seq![GrammarView::OneOf { elements: seq![GrammarView::OneOf { elements: seq![GrammarView::Sequence { elements: seq![GrammarView::Keyword { word: "CREATE"@ }, GrammarView::OneOf { elements: seq![GrammarView::Keyword { word: "ROLE"@ }, GrammarView::Keyword { word: "USER"@ }, GrammarView::Keyword { word: "WAREHOUSE"@ }, GrammarView::Keyword { word: "DATABASE"@ }, GrammarView::Keyword { word: "INTEGRATION"@ }], terminators: seq![] }], terminators: seq![], parse_mode: ParseMode::Strict }, GrammarView::Sequence { elements: seq![GrammarView::Keyword { word: "APPLY"@ }, GrammarView::Keyword { word: "MASKING"@ }, GrammarView::Keyword { word: "POLICY"@ }], terminators: seq![], parse_mode: ParseMode::Strict }, GrammarView::Sequence { elements: seq![GrammarView::Keyword { word: "EXECUTE"@ }, GrammarView::Keyword { word: "TASK"@ }], terminators: seq![], parse_mode: ParseMode::Strict }, GrammarView::Sequence { elements: seq![GrammarView::Keyword { word: "MANAGE"@ }, GrammarView::Keyword { word: "GRANTS"@ }], terminators: seq![], parse_mode: ParseMode::Strict }, GrammarView::Sequence { elements: seq![GrammarView::Keyword { word: "MONITOR"@ }, GrammarView::OneOf { elements: seq![GrammarView::Keyword { word: "EXECUTION"@ }, GrammarView::Keyword { word: "USAGE"@ }], terminators: seq![] }], terminators: seq![], parse_mode: ParseMode::Strict }], terminators: seq![] }, GrammarView::Sequence { elements: seq![GrammarView::OneOf { elements: seq![GrammarView::Sequence { elements: seq![GrammarView::Keyword { word: "CREATE"@ }, GrammarView::OneOf { elements: seq![GrammarView::Keyword { word: "SCHEMA"@ }, GrammarView::Sequence { elements: seq![GrammarView::Keyword { word: "MASKING"@ }, GrammarView::Keyword { word: "POLICY"@ }], terminators: seq![], parse_mode: ParseMode::Strict }, GrammarView::Keyword { word: "PIPE"@ }, GrammarView::OneOf { elements: seq![GrammarView::Keyword { word: "TABLE"@ }, GrammarView::Keyword { word: "VIEW"@ }, GrammarView::Keyword { word: "STAGE"@ }, GrammarView::Keyword { word: "FUNCTION"@ }, GrammarView::Keyword { word: "PROCEDURE"@ }, GrammarView::Keyword { word: "ROUTINE"@ }, GrammarView::Keyword { word: "SEQUENCE"@ }, GrammarView::Keyword { word: "STREAM"@ }, GrammarView::Keyword { word: "TASK"@ }], terminators: seq![] }], terminators: seq![] }], terminators: seq![], parse_mode: ParseMode::Strict }, GrammarView::Sequence { elements: seq![GrammarView::Keyword { word: "IMPORTED"@ }, GrammarView::Keyword { word: "PRIVILEGES"@ }], terminators: seq![], parse_mode: ParseMode::Strict }, GrammarView::Keyword { word: "APPLY"@ }, GrammarView::Keyword { word: "CONNECT"@ }, GrammarView::Keyword { word: "CREATE"@ }, GrammarView::Keyword { word: "DELETE"@ }, GrammarView::Keyword { word: "EXECUTE"@ }, GrammarView::Keyword { word: "INSERT"@ }, GrammarView::Keyword { word: "MODIFY"@ }, GrammarView::Keyword { word: "MONITOR"@ }, GrammarView::Keyword { word: "OPERATE"@ }, GrammarView::Keyword { word: "OWNERSHIP"@ }, GrammarView::Keyword { word: "READ"@ }, GrammarView::Keyword { word: "REFERENCE_USAGE"@ }, GrammarView::Keyword { word: "REFERENCES"@ }, GrammarView::Keyword { word: "SELECT"@ }, GrammarView::Keyword { word: "TEMP"@ }, GrammarView::Keyword { word: "TEMPORARY"@ }, GrammarView::Keyword { word: "TRIGGER"@ }, GrammarView::Keyword { word: "TRUNCATE"@ }, GrammarView::Keyword { word: "UPDATE"@ }, GrammarView::Keyword { word: "USAGE"@ }, GrammarView::Keyword { word: "USE_ANY_ROLE"@ }, GrammarView::Keyword { word: "WRITE"@ }, GrammarView::Sequence { elements: seq![GrammarView::Keyword { word: "ALL"@ }, GrammarView::Optional { grammar: Box::new(GrammarView::Keyword { word: "PRIVILEGES"@ }) }], terminators: seq![], parse_mode: ParseMode::Strict }], terminators: seq![] }, GrammarView::Ref { name: "BracketedColumnReferenceListGrammar"@, optional: true }], terminators: seq![], parse_mode: ParseMode::Strict }], terminators: seq![] }], allow_trailing: false, delimiter: None, terminators: seq![GrammarView::Keyword { word: "ON"@ }], allow_gaps: true }, GrammarView::Keyword { word: "ON"@ }, GrammarView::OneOf { elements: seq![GrammarView::Keyword { word: "ACCOUNT"@ }, GrammarView::Sequence { elements: seq![GrammarView::Optional { grammar: Box::new(GrammarView::OneOf { elements: seq![GrammarView::Sequence { elements: seq![GrammarView::Keyword { word: "RESOURCE"@ }, GrammarView::Keyword { word: "MONITOR"@ }], terminators: seq![], parse_mode: ParseMode::Strict }, GrammarView::Keyword { word: "WAREHOUSE"@ }, GrammarView::Keyword { word: "DATABASE"@ }, GrammarView::Keyword { word: "DOMAIN"@ }, GrammarView::Keyword { word: "INTEGRATION"@ }, GrammarView::Keyword { word: "LANGUAGE"@ }, GrammarView::Keyword { word: "SCHEMA"@ }, GrammarView::Keyword { word: "ROLE"@ }, GrammarView::Keyword { word: "TABLESPACE"@ }, GrammarView::Keyword { word: "TYPE"@ }, GrammarView::Sequence { elements: seq![GrammarView::Keyword { word: "FOREIGN"@ }, GrammarView::OneOf { elements: seq![GrammarView::Keyword { word: "SERVER"@ }, GrammarView::Sequence { elements: seq![GrammarView::Keyword { word: "DATA"@ }, GrammarView::Keyword { word: "WRAPPER"@ }], terminators: seq![], parse_mode: ParseMode::Strict }], terminators: seq![] }], terminators: seq![], parse_mode: ParseMode::Strict }, GrammarView::Sequence { elements: seq![GrammarView::Keyword { word: "ALL"@ }, GrammarView::Keyword { word: "SCHEMAS"@ }, GrammarView::Keyword { word: "IN"@ }, GrammarView::Keyword { word: "DATABASE"@ }], terminators: seq![], parse_mode: ParseMode::Strict }, GrammarView::Sequence { elements: seq![GrammarView::Keyword { word: "FUTURE"@ }, GrammarView::Keyword { word: "SCHEMAS"@ }, GrammarView::Keyword { word: "IN"@ }, GrammarView::Keyword { word: "DATABASE"@ }], terminators: seq![], parse_mode: ParseMode::Strict }, GrammarView::OneOf { elements: seq![GrammarView::Keyword { word: "TABLE"@ }, GrammarView::Keyword { word: "VIEW"@ }, GrammarView::Keyword { word: "STAGE"@ }, GrammarView::Keyword { word: "FUNCTION"@ }, GrammarView::Keyword { word: "PROCEDURE"@ }, GrammarView::Keyword { word: "ROUTINE"@ }, GrammarView::Keyword { word: "SEQUENCE"@ }, GrammarView::Keyword { word: "STREAM"@ }, GrammarView::Keyword { word: "TASK"@ }], terminators: seq![] }, GrammarView::Sequence { elements: seq![GrammarView::Keyword { word: "ALL"@ }, GrammarView::OneOf { elements: seq![GrammarView::Keyword { word: "TABLES"@ }, GrammarView::Keyword { word: "VIEWS"@ }, GrammarView::Keyword { word: "STAGES"@ }, GrammarView::Keyword { word: "FUNCTIONS"@ }, GrammarView::Keyword { word: "PROCEDURES"@ }, GrammarView::Keyword { word: "ROUTINES"@ }, GrammarView::Keyword { word: "SEQUENCES"@ }, GrammarView::Keyword { word: "STREAMS"@ }, GrammarView::Keyword { word: "TASKS"@ }], terminators: seq![] }, GrammarView::Keyword { word: "IN"@ }, GrammarView::Keyword { word: "SCHEMA"@ }], terminators: seq![], parse_mode: ParseMode::Strict }, GrammarView::Sequence { elements: seq![GrammarView::Keyword { word: "FUTURE"@ }, GrammarView::Keyword { word: "IN"@ }, GrammarView::OneOf { elements: seq![GrammarView::Keyword { word: "DATABASE"@ }, GrammarView::Keyword { word: "SCHEMA"@ }], terminators: seq![] }], terminators: seq![], parse_mode: ParseMode::Strict }], terminators: seq![] }) }, GrammarView::Delimited { elements: seq![GrammarView::Ref { name: "ObjectReferenceSegment"@, optional: false }, GrammarView::Sequence { elements: seq![GrammarView::Ref { name: "FunctionNameSegment"@, optional: false }, GrammarView::Ref { name: "FunctionParameterListGrammar"@, optional: true }], terminators: seq![], parse_mode: ParseMode::Strict }], allow_trailing: false, delimiter: None, terminators: seq![GrammarView::Keyword { word: "TO"@ }, GrammarView::Keyword { word: "FROM"@ }], allow_gaps: true }], terminators: seq![], parse_mode: ParseMode::Strict }, GrammarView::Sequence { elements: seq![GrammarView::Keyword { word: "LARGE"@ }, GrammarView::Keyword { word: "OBJECT"@ }, GrammarView::Ref { name: "NumericLiteralSegment"@, optional: false }], terminators: seq![], parse_mode: ParseMode::Strict }], terminators: seq![] }], terminators: seq![], parse_mode: ParseMode::Strict }, GrammarView::Sequence { elements: seq![GrammarView::Keyword { word: "ROLE"@ }, GrammarView::Ref { name: "ObjectReferenceSegment"@, optional: false }], terminators: seq![], parse_mode: ParseMode::Strict }, GrammarView::Sequence { elements: seq![GrammarView::Keyword { word: "OWNERSHIP"@ }, GrammarView::Keyword { word: "ON"@ }, GrammarView::Keyword { word: "USER"@ }, GrammarView::Ref { name: "ObjectReferenceSegment"@, optional: false }], terminators: seq![], parse_mode: ParseMode::Strict }, GrammarView::Ref { name: "ObjectReferenceSegment"@, optional: false }], terminators: seq![] }, GrammarView::Keyword { word: "TO"@ }, GrammarView::Optional { grammar: Box::new(GrammarView::OneOf { elements: seq![GrammarView::Keyword { word: "GROUP"@ }, GrammarView::Keyword { word: "USER"@ }, GrammarView::Keyword { word: "ROLE"@ }, GrammarView::Keyword { word: "SHARE"@ }], terminators: seq![] }) }, GrammarView::Delimited { elements: seq![GrammarView::OneOf { elements: seq![GrammarView::Ref { name: "RoleReferenceSegment"@, optional: false }, GrammarView::Ref { name: "FunctionSegment"@, optional: false }, GrammarView::Keyword { word: "PUBLIC"@ }], terminators: seq![] }], allow_trailing: false, delimiter: None, terminators: seq![], allow_gaps: true }, GrammarView::Ref { name: "AccessStatementSegmentGrantRoleWithOptionGrammar"@, optional: true }, GrammarView::Optional { grammar: Box::new(GrammarView::Sequence { elements: seq![GrammarView::Keyword { word: "GRANTED"@ }, GrammarView::Keyword { word: "BY"@ }, GrammarView::OneOf { elements: seq![GrammarView::Keyword { word: "CURRENT_USER"@ }, GrammarView::Keyword { word: "SESSION_USER"@ }, GrammarView::Ref { name: "ObjectReferenceSegment"@, optional: false }], terminators: seq![] }], terminators: seq![], parse_mode: ParseMode::Strict }) }], terminators: seq![], parse_mode: ParseMode::Strict }, GrammarView::Sequence { elements: seq![GrammarView::Keyword { word: "REVOKE"@ }, GrammarView::Optional { grammar: Box::new(GrammarView::Sequence { elements: seq![GrammarView::Keyword { word: "GRANT"@ }, GrammarView::Keyword { word: "OPTION"@ }, GrammarView::Keyword { word: "FOR"@ }], terminators: seq![], parse_mode: ParseMode::Strict }) }, GrammarView::OneOf { elements: seq![GrammarView::Sequence { elements: seq![GrammarView::Delimited { elements: seq![GrammarView::OneOf { elements: seq![GrammarView::OneOf { elements: seq![GrammarView::Sequence { elements: seq![GrammarView::Keyword { word: "CREATE"@ }, GrammarView::OneOf { elements: seq![GrammarView::Keyword { word: "ROLE"@ }, GrammarView::Keyword { word: "USER"@ }, GrammarView::Keyword { word: "WAREHOUSE"@ }, GrammarView::Keyword { word: "DATABASE"@ }, GrammarView::Keyword { word: "INTEGRATION"@ }], terminators: seq![] }], terminators: seq![], parse_mode: ParseMode::Strict }, GrammarView::Sequence { elements: seq![GrammarView::Keyword { word: "APPLY"@ }, GrammarView::Keyword { word: "MASKING"@ }, GrammarView::Keyword { word: "POLICY"@ }], terminators: seq![], parse_mode: ParseMode::Strict }, GrammarView::Sequence { elements: seq![GrammarView::Keyword { word: "EXECUTE"@ }, GrammarView::Keyword { word: "TASK"@ }], terminators: seq![], parse_mode: ParseMode::Strict }, GrammarView::Sequence { elements: seq![GrammarView::Keyword { word: "MANAGE"@ }, GrammarView::Keyword { word: "GRANTS"@ }], terminators: seq![], parse_mode: ParseMode::Strict }, GrammarView::Sequence { elements: seq![GrammarView::Keyword { word: "MONITOR"@ }, GrammarView::OneOf { elements: seq![GrammarView::Keyword { word: "EXECUTION"@ }, GrammarView::Keyword { word: "USAGE"@ }], terminators: seq![] }], terminators: seq![], parse_mode: ParseMode::Strict }], terminators: seq![] }, GrammarView::Sequence { elements: seq![GrammarView::OneOf { elements: seq![GrammarView::Sequence { elements: seq![GrammarView::Keyword { word: "CREATE"@ }, GrammarView::OneOf { elements: seq![GrammarView::Keyword { word: "SCHEMA"@ }, GrammarView::Sequence { elements: seq![GrammarView::Keyword { word: "MASKING"@ }, GrammarView::Keyword { word: "POLICY"@ }], terminators: seq![], parse_mode: ParseMode::Strict }, GrammarView::Keyword { word: "PIPE"@ }, GrammarView::OneOf { elements: seq![GrammarView::Keyword { word: "TABLE"@ }, GrammarView::Keyword { word: "VIEW"@ }, GrammarView::Keyword { word: "STAGE"@ }, GrammarView::Keyword { word: "FUNCTION"@ }, GrammarView::Keyword { word: "PROCEDURE"@ }, GrammarView::Keyword { word: "ROUTINE"@ }, GrammarView::Keyword { word: "SEQUENCE"@ }, GrammarView::Keyword { word: "STREAM"@ }, GrammarView::Keyword { word: "TASK"@ }], terminators: seq![] }], terminators: seq![] }], terminators: seq![], parse_mode: ParseMode::Strict }, GrammarView::Sequence { elements: seq![GrammarView::Keyword { word: "IMPORTED"@ }, GrammarView::Keyword { word: "PRIVILEGES"@ }], terminators: seq![], parse_mode: ParseMode::Strict }, GrammarView::Keyword { word: "APPLY"@ }, GrammarView::Keyword { word: "CONNECT"@ }, GrammarView::Keyword { word: "CREATE"@ }, GrammarView::Keyword { word: "DELETE"@ }, GrammarView::Keyword { word: "EXECUTE"@ }, GrammarView::Keyword { word: "INSERT"@ }, GrammarView::Keyword { word: "MODIFY"@ }, GrammarView::Keyword { word: "MONITOR"@ }, GrammarView::Keyword { word: "OPERATE"@ }, GrammarView::Keyword { word: "OWNERSHIP"@ }, GrammarView::Keyword { word: "READ"@ }, GrammarView::Keyword { word: "REFERENCE_USAGE"@ }, GrammarView::Keyword { word: "REFERENCES"@ }, GrammarView::Keyword { word: "SELECT"@ }, GrammarView::Keyword { word: "TEMP"@ }, GrammarView::Keyword { word: "TEMPORARY"@ }, GrammarView::Keyword { word: "TRIGGER"@ }, GrammarView::Keyword { word: "TRUNCATE"@ }, GrammarView::Keyword { word: "UPDATE"@ }, GrammarView::Keyword { word: "USAGE"@ }, GrammarView::Keyword { word: "USE_ANY_ROLE"@ }, GrammarView::Keyword { word: "WRITE"@ }, GrammarView::Sequence { elements: seq![GrammarView::Keyword { word: "ALL"@ }, GrammarView::Optional { grammar: Box::new(GrammarView::Keyword { word: "PRIVILEGES"@ }) }], terminators: seq![], parse_mode: ParseMode::Strict }], terminators: seq![] }, GrammarView::Ref { name: "BracketedColumnReferenceListGrammar"@, optional: true }], terminators: seq![], parse_mode: ParseMode::Strict }], terminators: seq![GrammarView::Keyword { word: "ON"@ }] }], allow_trailing: false, delimiter: None, terminators: seq![], allow_gaps: true }, GrammarView::Keyword { word: "ON"@ }, GrammarView::OneOf { elements: seq![GrammarView::Keyword { word: "ACCOUNT"@ }, GrammarView::Sequence { elements: seq![GrammarView::Optional { grammar: Box::new(GrammarView::OneOf { elements: seq![GrammarView::Sequence { elements: seq![GrammarView::Keyword { word: "RESOURCE"@ }, GrammarView::Keyword { word: "MONITOR"@ }], terminators: seq![], parse_mode: ParseMode::Strict }, GrammarView::Keyword { word: "WAREHOUSE"@ }, GrammarView::Keyword { word: "DATABASE"@ }, GrammarView::Keyword { word: "DOMAIN"@ }, GrammarView::Keyword { word: "INTEGRATION"@ }, GrammarView::Keyword { word: "LANGUAGE"@ }, GrammarView::Keyword { word: "SCHEMA"@ }, GrammarView::Keyword { word: "ROLE"@ }, GrammarView::Keyword { word: "TABLESPACE"@ }, GrammarView::Keyword { word: "TYPE"@ }, GrammarView::Sequence { elements: seq![GrammarView::Keyword { word: "FOREIGN"@ }, GrammarView::OneOf { elements: seq![GrammarView::Keyword { word: "SERVER"@ }, GrammarView::Sequence { elements: seq![GrammarView::Keyword { word: "DATA"@ }, GrammarView::Keyword { word: "WRAPPER"@ }], terminators: seq![], parse_mode: ParseMode::Strict }], terminators: seq![] }], terminators: seq![], parse_mode: ParseMode::Strict }, GrammarView::Sequence { elements: seq![GrammarView::Keyword { word: "ALL"@ }, GrammarView::Keyword { word: "SCHEMAS"@ }, GrammarView::Keyword { word: "IN"@ }, GrammarView::Keyword { word: "DATABASE"@ }], terminators: seq![], parse_mode: ParseMode::Strict }, GrammarView::Sequence { elements: seq![GrammarView::Keyword { word: "FUTURE"@ }, GrammarView::Keyword { word: "SCHEMAS"@ }, GrammarView::Keyword { word: "IN"@ }, GrammarView::Keyword { word: "DATABASE"@ }], terminators: seq![], parse_mode: ParseMode::Strict }, GrammarView::OneOf { elements: seq![GrammarView::Keyword { word: "TABLE"@ }, GrammarView::Keyword { word: "VIEW"@ }, GrammarView::Keyword { word: "STAGE"@ }, GrammarView::Keyword { word: "FUNCTION"@ }, GrammarView::Keyword { word: "PROCEDURE"@ }, GrammarView::Keyword { word: "ROUTINE"@ }, GrammarView::Keyword { word: "SEQUENCE"@ }, GrammarView::Keyword { word: "STREAM"@ }, GrammarView::Keyword { word: "TASK"@ }], terminators: seq![] }, GrammarView::Sequence { elements: seq![GrammarView::Keyword { word: "ALL"@ }, GrammarView::OneOf { elements: seq![GrammarView::Keyword { word: "TABLES"@ }, GrammarView::Keyword { word: "VIEWS"@ }, GrammarView::Keyword { word: "STAGES"@ }, GrammarView::Keyword { word: "FUNCTIONS"@ }, GrammarView::Keyword { word: "PROCEDURES"@ }, GrammarView::Keyword { word: "ROUTINES"@ }, GrammarView::Keyword { word: "SEQUENCES"@ }, GrammarView::Keyword { word: "STREAMS"@ }, GrammarView::Keyword { word: "TASKS"@ }], terminators: seq![] }, GrammarView::Keyword { word: "IN"@ }, GrammarView::Keyword { word: "SCHEMA"@ }], terminators: seq![], parse_mode: ParseMode::Strict }, GrammarView::Sequence { elements: seq![GrammarView::Keyword { word: "FUTURE"@ }, GrammarView::Keyword { word: "IN"@ }, GrammarView::OneOf { elements: seq![GrammarView::Keyword { word: "DATABASE"@ }, GrammarView::Keyword { word: "SCHEMA"@ }], terminators: seq![] }], terminators: seq![], parse_mode: ParseMode::Strict }], terminators: seq![] }) }, GrammarView::Delimited { elements: seq![GrammarView::Ref { name: "ObjectReferenceSegment"@, optional: false }, GrammarView::Sequence { elements: seq![GrammarView::Ref { name: "FunctionNameSegment"@, optional: false }, GrammarView::Ref { name: "FunctionParameterListGrammar"@, optional: true }], terminators: seq![], parse_mode: ParseMode::Strict }], allow_trailing: false, delimiter: None, terminators: seq![GrammarView::Keyword { word: "TO"@ }, GrammarView::Keyword { word: "FROM"@ }], allow_gaps: true }], terminators: seq![], parse_mode: ParseMode::Strict }, GrammarView::Sequence { elements: seq![GrammarView::Keyword { word: "LARGE"@ }, GrammarView::Keyword { word: "OBJECT"@ }, GrammarView::Ref { name: "NumericLiteralSegment"@, optional: false }], terminators: seq![], parse_mode: ParseMode::Strict }], terminators: seq![] }], terminators: seq![], parse_mode: ParseMode::Strict }, GrammarView::Sequence { elements: seq![GrammarView::Keyword { word: "ROLE"@ }, GrammarView::Ref { name: "ObjectReferenceSegment"@, optional: false }], terminators: seq![], parse_mode: ParseMode::Strict }, GrammarView::Sequence { elements: seq![GrammarView::Keyword { word: "OWNERSHIP"@ }, GrammarView::Keyword { word: "ON"@ }, GrammarView::Keyword { word: "USER"@ }, GrammarView::Ref { name: "ObjectReferenceSegment"@, optional: false }], terminators: seq![], parse_mode: ParseMode::Strict }, GrammarView::Ref { name: "ObjectReferenceSegment"@, optional: false }], terminators: seq![] }, GrammarView::Keyword { word: "FROM"@ }, GrammarView::Optional { grammar: Box::new(GrammarView::OneOf { elements: seq![GrammarView::Keyword { word: "GROUP"@ }, GrammarView::Keyword { word: "USER"@ }, GrammarView::Keyword { word: "ROLE"@ }, GrammarView::Keyword { word: "SHARE"@ }], terminators: seq![] }) }, GrammarView::Delimited { elements: seq![GrammarView::Ref { name: "ObjectReferenceSegment"@, optional: false }], allow_trailing: false, delimiter: None, terminators: seq![], allow_gaps: true }, GrammarView::Ref { name: "DropBehaviorGrammar"@, optional: true }], terminators: seq![], parse_mode: ParseMode::Strict }]);
    let g274: Vec<Grammar> = Vec::new();
    assert(views(g274@) =~= Seq::<GrammarView>::empty());
    let g275 = Grammar::one_of_with(g273, g274);
    Element::Node { kind: "access_statement", grammar: g275 }
}

/// The ANSI element `InsertStatementSegment`.
pub open spec fn insert_statement_segment_element() -> ElementView {
    ElementView::Node { kind: "insert_statement"@, grammar: GrammarView::Sequence { elements: seq![GrammarView::Keyword { word: "INSERT"@ }, GrammarView::Optional { grammar: Box::new(GrammarView::Keyword { word: "OVERWRITE"@ }) }, GrammarView::Keyword { word: "INTO"@ }, GrammarView::Ref { name: "TableReferenceSegment"@, optional: false }, GrammarView::OneOf { elements: seq![GrammarView::Ref { name: "SelectableGrammar"@, optional: false }, GrammarView::Sequence { elements: seq![GrammarView::Ref { name: "BracketedColumnReferenceListGrammar"@, optional: false }, GrammarView::Ref { name: "SelectableGrammar"@, optional: false }], terminators: seq![], parse_mode: ParseMode::Strict }, GrammarView::Ref { name: "DefaultValuesGrammar"@, optional: false }], terminators: seq![] }], terminators: seq![], parse_mode: ParseMode::Strict } }
}

fn build_insert_statement_segment() -> (e: Element)
    ensures
        e@ =~~= insert_statement_segment_element(),
{
    let g1 = Grammar::keyword("OVERWRITE").optional();
    let g2: Vec<Grammar> = vec![Grammar::reference("BracketedColumnReferenceListGrammar"), Grammar::reference("SelectableGrammar")];
    assert(views(g2@) =~~= seq![GrammarView::Ref { name: "BracketedColumnReferenceListGrammar"@, optional: false }, GrammarView::Ref { name: "SelectableGrammar"@, optional: false }]);
    let g3: Vec<Grammar> = Vec::new();
    assert(views(g3@) =~= Seq::<GrammarView>::empty());
    let g4 = Grammar::sequence_with(g2, g3, ParseMode::Strict);
    let g5: Vec<Grammar> = vec![Grammar::reference("SelectableGrammar"), g4, Grammar::reference("DefaultValuesGrammar")];
    assert(views(g5@) =~~= seq![GrammarView::Ref { name: "SelectableGrammar"@, optional: false }, GrammarView::Sequence { elements: seq![GrammarView::Ref { name: "BracketedColumnReferenceListGrammar"@, optional: false }, GrammarView::Ref { name: "SelectableGrammar"@, optional: false }], terminators: seq![], parse_mode: ParseMode::Strict }, GrammarView::Ref { name: "DefaultValuesGrammar"@, optional: false }]);
    let g6: Vec<Grammar> = Vec::new();
    assert(views(g6@) =~= Seq::<GrammarView>::empty());
    let g7 = Grammar::one_of_with(g5, g6);
    let g8: Vec<Grammar> = vec![Grammar::keyword("INSERT"), g1, Grammar::keyword("INTO"), Grammar::reference("TableReferenceSegment"), g7];
    assert(views(g8@) =~~= seq![GrammarView::Keyword { word: "INSERT"@ }, GrammarView::Optional { grammar: Box::new(GrammarView::Keyword { word: "OVERWRITE"@ }) }, GrammarView::Keyword { word: "INTO"@ }, GrammarView::Ref { name: "TableReferenceSegment"@, optional: false }, GrammarView::OneOf { elements: seq![GrammarView::Ref { name: "SelectableGrammar"@, optional: false }, GrammarView::Sequence { elements: seq![GrammarView::Ref { name: "BracketedColumnReferenceListGrammar"@, optional: false }, GrammarView::Ref { name: "SelectableGrammar"@, optional: false }], terminators: seq![], parse_mode: ParseMode::Strict }, GrammarView::Ref { name: "DefaultValuesGrammar"@, optional: false }], terminators: seq![] }]);
    let g9: Vec<Grammar> = Vec::new();
    assert(views(g9@) =~= Seq::<GrammarView>::empty());
    let g10 = Grammar::sequence_with(g8, g9, ParseMode::Strict);
    Element::Node { kind: "insert_statement", grammar: g10 }
}

/// The ANSI element `TransactionStatementSegment`.
pub open spec fn transaction_statement_segment_element() -> ElementView {
    ElementView::Node { kind: "transaction_statement"@, grammar: GrammarView::Sequence { elements: seq![GrammarView::OneOf { elements: seq![GrammarView::Keyword { word: "START"@ }, GrammarView::Keyword { word: "BEGIN"@ }, GrammarView::Keyword { word: "COMMIT"@ }, GrammarView::Keyword { word: "ROLLBACK"@ }, GrammarView::Keyword { word: "END"@ }], terminators: seq![] }, GrammarView::Optional { grammar: Box::new(GrammarView::OneOf { elements: seq![GrammarView::Keyword { word: "TRANSACTION"@ }, GrammarView::Keyword { word: "WORK"@ }], terminators: seq![] }) }, GrammarView::Optional { grammar: Box::new(GrammarView::Sequence { elements: seq![GrammarView::Keyword { word: "NAME"@ }, GrammarView::Ref { name: "SingleIdentifierGrammar"@, optional: false }], terminators: seq![], parse_mode: ParseMode::Strict }) }, GrammarView::Optional { grammar: Box::new(GrammarView::Sequence { elements: seq![GrammarView::Keyword { word: "AND"@ }, GrammarView::Optional { grammar: Box::new(GrammarView::Keyword { word: "NO"@ }) }, GrammarView::Keyword { word: "CHAIN"@ }], terminators: seq![], parse_mode: ParseMode::Strict }) }], terminators: seq![], parse_mode: ParseMode::Strict } }
}

fn build_transaction_statement_segment() -> (e: Element)
    ensures
        e@ =~~= transaction_statement_segment_element(),
{
    let g1: Vec<Grammar> = vec![Grammar::keyword("START"), Grammar::keyword("BEGIN"), Grammar::keyword("COMMIT"), Grammar::keyword("ROLLBACK"), Grammar::keyword("END")];
    assert(views(g1@) =~~= seq![GrammarView::Keyword { word: "START"@ }, GrammarView::Keyword { word: "BEGIN"@ }, GrammarView::Keyword { word: "COMMIT"@ }, GrammarView::Keyword { word: "ROLLBACK"@ }, GrammarView::Keyword { word: "END"@ }]);
    let g2: Vec<Grammar> = Vec::new();
    assert(views(g2@) =~= Seq::<GrammarView>::empty());
    let g3 = Grammar::one_of_with(g1, g2);
    let g4: Vec<Grammar> = vec![Grammar::keyword("TRANSACTION"), Grammar::keyword("WORK")];
    assert(views(g4@) =~~= seq![GrammarView::Keyword { word: "TRANSACTION"@ }, GrammarView::Keyword { word: "WORK"@ }]);
    let g5: Vec<Grammar> = Vec::new();
    assert(views(g5@) =~= Seq::<GrammarView>::empty());
    let g6 = Grammar::one_of_with(g4, g5);
    let g7 = g6.optional();
    let g8: Vec<Grammar> = vec![Grammar::keyword("NAME"), Grammar::reference("SingleIdentifierGrammar")];
    assert(views(g8@) =~~= seq![GrammarView::Keyword { word: "NAME"@ }, GrammarView::Ref { name: "SingleIdentifierGrammar"@, optional: false }]);
    let g9: Vec<Grammar> = Vec::new();
    assert(views(g9@) =~= Seq::<GrammarView>::empty());
    let g10 = Grammar::sequence_with(g8, g9, ParseMode::Strict);
    let g11 = g10.optional();
    let g12 = Grammar::keyword("NO").optional();
    let g13: Vec<Grammar> = vec![Grammar::keyword("AND"), g12, Grammar::keyword("CHAIN")];
    assert(views(g13@) =~~= seq![GrammarView::Keyword { word: "AND"@ }, GrammarView::Optional { grammar: Box::new(GrammarView::Keyword { word: "NO"@ }) }, GrammarView::Keyword { word: "CHAIN"@ }]);
    let g14: Vec<Grammar> = Vec::new();
    assert(views(g14@) =~= Seq::<GrammarView>::empty());
    let g15 = Grammar::sequence_with(g13, g14, ParseMode::Strict);
    let g16 = g15.optional();
    let g17: Vec<Grammar> = vec![g3, g7, g11, g16];
    assert(views(g17@) =~~= seq![GrammarView::OneOf { elements: seq![GrammarView::Keyword { word: "START"@ }, GrammarView::Keyword { word: "BEGIN"@ }, GrammarView::Keyword { word: "COMMIT"@ }, GrammarView::Keyword { word: "ROLLBACK"@ }, GrammarView::Keyword { word: "END"@ }], terminators: seq![] }, GrammarView::Optional { grammar: Box::new(GrammarView::OneOf { elements: seq![GrammarView::Keyword { word: "TRANSACTION"@ }, GrammarView::Keyword { word: "WORK"@ }], terminators: seq![] }) }, GrammarView::Optional { grammar: Box::new(GrammarView::Sequence { elements: seq![GrammarView::Keyword { word: "NAME"@ }, GrammarView::Ref { name: "SingleIdentifierGrammar"@, optional: false }], terminators: seq![], parse_mode: ParseMode::Strict }) }, GrammarView::Optional { grammar: Box::new(GrammarView::Sequence { elements: seq![GrammarView::Keyword { word: "AND"@ }, GrammarView::Optional { grammar: Box::new(GrammarView::Keyword { word: "NO"@ }) }, GrammarView::Keyword { word: "CHAIN"@ }], terminators: seq![], parse_mode: ParseMode::Strict }) }]);
    let g18: Vec<Grammar> = Vec::new();
    assert(views(g18@) =~= Seq::<GrammarView>::empty());
    let g19 = Grammar::sequence_with(g17, g18, ParseMode::Strict);
    Element::Node { kind: "transaction_statement", grammar: g19 }
}

/// The ANSI element `DropTableStatementSegment`.
pub open spec fn drop_table_statement_segment_element() -> ElementView {
    ElementView::Node { kind: "drop_table_statement"@, grammar: GrammarView::Sequence { elements: seq![GrammarView::Keyword { word: "DROP"@ }, GrammarView::Ref { name: "TemporaryGrammar"@, optional: true }, GrammarView::Keyword { word: "TABLE"@ }, GrammarView::Ref { name: "IfExistsGrammar"@, optional: true }, GrammarView::Delimited { elements: seq![GrammarView::Ref { name: "TableReferenceSegment"@, optional: false }], allow_trailing: false, delimiter: None, terminators: seq![], allow_gaps: true }, GrammarView::Ref { name: "DropBehaviorGrammar"@, optional: true }], terminators: seq![], parse_mode: ParseMode::Strict } }
}

fn build_drop_table_statement_segment() -> (e: Element)
    ensures
        e@ =~~= drop_table_statement_segment_element(),
{
    let g1: Vec<Grammar> = vec![Grammar::reference("TableReferenceSegment")];
    assert(views(g1@) =~~= seq![GrammarView::Ref { name: "TableReferenceSegment"@, optional: false }]);
    let g2: Vec<Grammar> = Vec::new();
    assert(views(g2@) =~= Seq::<GrammarView>::empty());
    let g3 = Grammar::delimited_with(g1, false, None, g2, true);
    let g4: Vec<Grammar> = vec![Grammar::keyword("DROP"), Grammar::optional_reference("TemporaryGrammar"), Grammar::keyword("TABLE"), Grammar::optional_reference("IfExistsGrammar"), g3, Grammar::optional_reference("DropBehaviorGrammar")];
    assert(views(g4@) =~~= seq![GrammarView::Keyword { word: "DROP"@ }, GrammarView::Ref { name: "TemporaryGrammar"@, optional: true }, GrammarView::Keyword { word: "TABLE"@ }, GrammarView::Ref { name: "IfExistsGrammar"@, optional: true }, GrammarView::Delimited { elements: seq![GrammarView::Ref { name: "TableReferenceSegment"@, optional: false }], allow_trailing: false, delimiter: None, terminators: seq![], allow_gaps: true }, GrammarView::Ref { name: "DropBehaviorGrammar"@, optional: true }]);
    let g5: Vec<Grammar> = Vec::new();
    assert(views(g5@) =~= Seq::<GrammarView>::empty());
    let g6 = Grammar::sequence_with(g4, g5, ParseMode::Strict);
    Element::Node { kind: "drop_table_statement", grammar: g6 }
}

/// The ANSI element `DropViewStatementSegment`.
pub open spec fn drop_view_statement_segment_element() -> ElementView {
    ElementView::Node { kind: "drop_view_statement"@, grammar: GrammarView::Sequence { elements: seq![GrammarView::Keyword { word: "DROP"@ }, GrammarView::Keyword { word: "VIEW"@ }, GrammarView::Ref { name: "IfExistsGrammar"@, optional: true }, GrammarView::Ref { name: "TableReferenceSegment"@, optional: false }, GrammarView::Ref { name: "DropBehaviorGrammar"@, optional: true }], terminators: seq![], parse_mode: ParseMode::Strict } }
}

fn build_drop_view_statement_segment() -> (e: Element)
    ensures
        e@ =~~= drop_view_statement_segment_element(),
{
    let g1: Vec<Grammar> = vec![Grammar::keyword("DROP"), Grammar::keyword("VIEW"), Grammar::optional_reference("IfExistsGrammar"), Grammar::reference("TableReferenceSegment"), Grammar::optional_reference("DropBehaviorGrammar")];
    assert(views(g1@) =~~= seq![GrammarView::Keyword { word: "DROP"@ }, GrammarView::Keyword { word: "VIEW"@ }, GrammarView::Ref { name: "IfExistsGrammar"@, optional: true }, GrammarView::Ref { name: "TableReferenceSegment"@, optional: false }, GrammarView::Ref { name: "DropBehaviorGrammar"@, optional: true }]);
    let g2: Vec<Grammar> = Vec::new();
    assert(views(g2@) =~= Seq::<GrammarView>::empty());
    let g3 = Grammar::sequence_with(g1, g2, ParseMode::Strict);
    Element::Node { kind: "drop_view_statement", grammar: g3 }
}

/// The ANSI element `CreateUserStatementSegment`.
pub open spec fn create_user_statement_segment_element() -> ElementView {
    ElementView::Node { kind: "create_user_statement"@, grammar: GrammarView::Sequence { elements: seq![GrammarView::Keyword { word: "CREATE"@ }, GrammarView::Keyword { word: "USER"@ }, GrammarView::Ref { name: "RoleReferenceSegment"@, optional: false }], terminators: seq![], parse_mode: ParseMode::Strict } }
}

fn build_create_user_statement_segment() -> (e: Element)
    ensures
        e@ =~~= create_user_statement_segment_element(),
{
    let g1: Vec<Grammar> = vec![Grammar::keyword("CREATE"), Grammar::keyword("USER"), Grammar::reference("RoleReferenceSegment")];
    assert(views(g1@) =~~= seq![GrammarView::Keyword { word: "CREATE"@ }, GrammarView::Keyword { word: "USER"@ }, GrammarView::Ref { name: "RoleReferenceSegment"@, optional: false }]);
    let g2: Vec<Grammar> = Vec::new();
    assert(views(g2@) =~= Seq::<GrammarView>::empty());
    let g3 = Grammar::sequence_with(g1, g2, ParseMode::Strict);
    Element::Node { kind: "create_user_statement", grammar: g3 }
}

/// The ANSI element `DropUserStatementSegment`.
pub open spec fn drop_user_statement_segment_element() -> ElementView {
    ElementView::Node { kind: "drop_user_statement"@, grammar: GrammarView::Sequence { elements: seq![GrammarView::Keyword { word: "DROP"@ }, GrammarView::Keyword { word: "USER"@ }, GrammarView::Ref { name: "IfExistsGrammar"@, optional: true }, GrammarView::Ref { name: "RoleReferenceSegment"@, optional: false }], terminators: seq![], parse_mode: ParseMode::Strict } }
}

fn build_drop_user_statement_segment() -> (e: Element)
    ensures
        e@ =~~= drop_user_statement_segment_element(),
{
    let g1: Vec<Grammar> = vec![Grammar::keyword("DROP"), Grammar::keyword("USER"), Grammar::optional_reference("IfExistsGrammar"), Grammar::reference("RoleReferenceSegment")];
    assert(views(g1@) =~~= seq![GrammarView::Keyword { word: "DROP"@ }, GrammarView::Keyword { word: "USER"@ }, GrammarView::Ref { name: "IfExistsGrammar"@, optional: true }, GrammarView::Ref { name: "RoleReferenceSegment"@, optional: false }]);
    let g2: Vec<Grammar> = Vec::new();
    assert(views(g2@) =~= Seq::<GrammarView>::empty());
    let g3 = Grammar::sequence_with(g1, g2, ParseMode::Strict);
    Element::Node { kind: "drop_user_statement", grammar: g3 }
}

/// The ANSI element `NotEqualToSegment`.
pub open spec fn not_equal_to_segment_element() -> ElementView {
    ElementView::Node { kind: "comparison_operator"@, grammar: GrammarView::OneOf { elements: seq![GrammarView::WithoutGaps { grammar: Box::new(GrammarView::Sequence { elements: seq![GrammarView::Ref { name: "RawNotSegment"@, optional: false }, GrammarView::Ref { name: "RawEqualsSegment"@, optional: false }], terminators: seq![], parse_mode: ParseMode::Strict }) }, GrammarView::WithoutGaps { grammar: Box::new(GrammarView::Sequence { elements: seq![GrammarView::Ref { name: "RawLessThanSegment"@, optional: false }, GrammarView::Ref { name: "RawGreaterThanSegment"@, optional: false }], terminators: seq![], parse_mode: ParseMode::Strict }) }], terminators: seq![] } }
}

fn build_not_equal_to_segment() -> (e: Element)
    ensures
        e@ =~~= not_equal_to_segment_element(),
{
    let g1: Vec<Grammar> = vec![Grammar::reference("RawNotSegment"), Grammar::reference("RawEqualsSegment")];
    assert(views(g1@) =~~= seq![GrammarView::Ref { name: "RawNotSegment"@, optional: false }, GrammarView::Ref { name: "RawEqualsSegment"@, optional: false }]);
    let g2: Vec<Grammar> = Vec::new();
    assert(views(g2@) =~= Seq::<GrammarView>::empty());
    let g3 = Grammar::sequence_with(g1, g2, ParseMode::Strict);
    let g4 = g3.without_gaps();
    let g5: Vec<Grammar> = vec![Grammar::reference("RawLessThanSegment"), Grammar::reference("RawGreaterThanSegment")];
    assert(views(g5@) =~~= seq![GrammarView::Ref { name: "RawLessThanSegment"@, optional: false }, GrammarView::Ref { name: "RawGreaterThanSegment"@, optional: false }]);
    let g6: Vec<Grammar> = Vec::new();
    assert(views(g6@) =~= Seq::<GrammarView>::empty());
    let g7 = Grammar::sequence_with(g5, g6, ParseMode::Strict);
    let g8 = g7.without_gaps();
    let g9: Vec<Grammar> = vec![g4, g8];
    assert(views(g9@) =~~= seq![GrammarView::WithoutGaps { grammar: Box::new(GrammarView::Sequence { elements: seq![GrammarView::Ref { name: "RawNotSegment"@, optional: false }, GrammarView::Ref { name: "RawEqualsSegment"@, optional: false }], terminators: seq![], parse_mode: ParseMode::Strict }) }, GrammarView::WithoutGaps { grammar: Box::new(GrammarView::Sequence { elements: seq![GrammarView::Ref { name: "RawLessThanSegment"@, optional: false }, GrammarView::Ref { name: "RawGreaterThanSegment"@, optional: false }], terminators: seq![], parse_mode: ParseMode::Strict }) }]);
    let g10: Vec<Grammar> = Vec::new();
    assert(views(g10@) =~= Seq::<GrammarView>::empty());
    let g11 = Grammar::one_of_with(g9, g10);
    Element::Node { kind: "comparison_operator", grammar: g11 }
}

/// The ANSI element `ConcatSegment`.
pub open spec fn concat_segment_element() -> ElementView {
    ElementView::Node { kind: "binary_operator"@, grammar: GrammarView::WithoutGaps { grammar: Box::new(GrammarView::Sequence { elements: seq![GrammarView::Ref { name: "PipeSegment"@, optional: false }, GrammarView::Ref { name: "PipeSegment"@, optional: false }], terminators: seq![], parse_mode: ParseMode::Strict }) } }
}

fn build_concat_segment() -> (e: Element)
    ensures
        e@ =~~= concat_segment_element(),
{
    let g1: Vec<Grammar> = vec![Grammar::reference("PipeSegment"), Grammar::reference("PipeSegment")];
    assert(views(g1@) =~~= seq![GrammarView::Ref { name: "PipeSegment"@, optional: false }, GrammarView::Ref { name: "PipeSegment"@, optional: false }]);
    let g2: Vec<Grammar> = Vec::new();
    assert(views(g2@) =~= Seq::<GrammarView>::empty());
    let g3 = Grammar::sequence_with(g1, g2, ParseMode::Strict);
    let g4 = g3.without_gaps();
    Element::Node { kind: "binary_operator", grammar: g4 }
}

/// The ANSI element `ArrayExpressionSegment`.
pub open spec fn array_expression_segment_element() -> ElementView {
    ElementView::Node { kind: "array_expression"@, grammar: GrammarView::Nothing }
}

fn build_array_expression_segment() -> (e: Element)
    ensures
        e@ =~~= array_expression_segment_element(),
{
    Element::Node { kind: "array_expression", grammar: Grammar::nothing() }
}

/// The ANSI element `LocalAliasSegment`.
pub open spec fn local_alias_segment_element() -> ElementView {
    ElementView::Node { kind: "local_alias"@, grammar: GrammarView::Nothing }
}

fn build_local_alias_segment() -> (e: Element)
    ensures
        e@ =~~= local_alias_segment_element(),
{
    Element::Node { kind: "local_alias", grammar: Grammar::nothing() }
}

/// The ANSI element `MergeStatementSegment`.
pub open spec fn merge_statement_segment_element() -> ElementView {
    ElementView::Node { kind: "merge_statement"@, grammar: GrammarView::Sequence { elements: seq![GrammarView::Ref { name: "MergeIntoLiteralGrammar"@, optional: false }, GrammarView::Indent, GrammarView::OneOf { elements: seq![GrammarView::Ref { name: "TableReferenceSegment"@, optional: false }, GrammarView::Ref { name: "AliasedTableReferenceGrammar"@, optional: false }], terminators: seq![] }, GrammarView::Dedent, GrammarView::Keyword { word: "USING"@ }, GrammarView::Indent, GrammarView::OneOf { elements: seq![GrammarView::Ref { name: "TableReferenceSegment"@, optional: false }, GrammarView::Ref { name: "AliasedTableReferenceGrammar"@, optional: false }, GrammarView::Sequence { elements: seq![GrammarView::Bracketed { elements: seq![GrammarView::Ref { name: "SelectableGrammar"@, optional: false }], bracket_type: "round"@ }, GrammarView::Ref { name: "AliasExpressionSegment"@, optional: true }], terminators: seq![], parse_mode: ParseMode::Strict }], terminators: seq![] }, GrammarView::Dedent, GrammarView::Conditional { meta: Box::new(GrammarView::Indent), setting: "indented_using_on"@ }, GrammarView::Ref { name: "JoinOnConditionSegment"@, optional: false }, GrammarView::Conditional { meta: Box::new(GrammarView::Dedent), setting: "indented_using_on"@ }, GrammarView::Ref { name: "MergeMatchSegment"@, optional: false }], terminators: seq![], parse_mode: ParseMode::Strict } }
}

fn build_merge_statement_segment() -> (e: Element)
    ensures
        e@ =~~= merge_statement_segment_element(),
{
    let g1: Vec<Grammar> = vec![Grammar::reference("TableReferenceSegment"), Grammar::reference("AliasedTableReferenceGrammar")];
    assert(views(g1@) =~~= seq![GrammarView::Ref { name: "TableReferenceSegment"@, optional: false }, GrammarView::Ref { name: "AliasedTableReferenceGrammar"@, optional: false }]);
    let g2: Vec<Grammar> = Vec::new();
    assert(views(g2@) =~= Seq::<GrammarView>::empty());
    let g3 = Grammar::one_of_with(g1, g2);
    let g4: Vec<Grammar> = vec![Grammar::reference("SelectableGrammar")];
    assert(views(g4@) =~~= seq![GrammarView::Ref { name: "SelectableGrammar"@, optional: false }]);
    let g5 = Grammar::bracketed_with(g4, "round");
    let g6: Vec<Grammar> = vec![g5, Grammar::optional_reference("AliasExpressionSegment")];
    assert(views(g6@) =~~= seq![GrammarView::Bracketed { elements: seq![GrammarView::Ref { name: "SelectableGrammar"@, optional: false }], bracket_type: "round"@ }, GrammarView::Ref { name: "AliasExpressionSegment"@, optional: true }]);
    let g7: Vec<Grammar> = Vec::new();
    assert(views(g7@) =~= Seq::<GrammarView>::empty());
    let g8 = Grammar::sequence_with(g6, g7, ParseMode::Strict);
    let g9: Vec<Grammar> = vec![Grammar::reference("TableReferenceSegment"), Grammar::reference("AliasedTableReferenceGrammar"), g8];
    assert(views(g9@) =~~= seq![GrammarView::Ref { name: "TableReferenceSegment"@, optional: false }, GrammarView::Ref { name: "AliasedTableReferenceGrammar"@, optional: false }, GrammarView::Sequence { elements: seq![GrammarView::Bracketed { elements: seq![GrammarView::Ref { name: "SelectableGrammar"@, optional: false }], bracket_type: "round"@ }, GrammarView::Ref { name: "AliasExpressionSegment"@, optional: true }], terminators: seq![], parse_mode: ParseMode::Strict }]);
    let g10: Vec<Grammar> = Vec::new();
    assert(views(g10@) =~= Seq::<GrammarView>::empty());
    let g11 = Grammar::one_of_with(g9, g10);
    let g12 = Grammar::conditional(Grammar::indent(), "indented_using_on");
    let g13 = Grammar::conditional(Grammar::dedent(), "indented_using_on");
    let g14: Vec<Grammar> = vec![Grammar::reference("MergeIntoLiteralGrammar"), Grammar::indent(), g3, Grammar::dedent(), Grammar::keyword("USING"), Grammar::indent(), g11, Grammar::dedent(), g12, Grammar::reference("JoinOnConditionSegment"), g13, Grammar::reference("MergeMatchSegment")];
    assert(views(g14@) =~~= seq![GrammarView::Ref { name: "MergeIntoLiteralGrammar"@, optional: false }, GrammarView::Indent, GrammarView::OneOf { elements: seq![GrammarView::Ref { name: "TableReferenceSegment"@, optional: false }, GrammarView::Ref { name: "AliasedTableReferenceGrammar"@, optional: false }], terminators: seq![] }, GrammarView::Dedent, GrammarView::Keyword { word: "USING"@ }, GrammarView::Indent, GrammarView::OneOf { elements: seq![GrammarView::Ref { name: "TableReferenceSegment"@, optional: false }, GrammarView::Ref { name: "AliasedTableReferenceGrammar"@, optional: false }, GrammarView::Sequence { elements: seq![GrammarView::Bracketed { elements: seq![GrammarView::Ref { name: "SelectableGrammar"@, optional: false }], bracket_type: "round"@ }, GrammarView::Ref { name: "AliasExpressionSegment"@, optional: true }], terminators: seq![], parse_mode: ParseMode::Strict }], terminators: seq![] }, GrammarView::Dedent, GrammarView::Conditional { meta: Box::new(GrammarView::Indent), setting: "indented_using_on"@ }, GrammarView::Ref { name: "JoinOnConditionSegment"@, optional: false }, GrammarView::Conditional { meta: Box::new(GrammarView::Dedent), setting: "indented_using_on"@ }, GrammarView::Ref { name: "MergeMatchSegment"@, optional: false }]);
    let g15: Vec<Grammar> = Vec::new();
    assert(views(g15@) =~= Seq::<GrammarView>::empty());
    let g16 = Grammar::sequence_with(g14, g15, ParseMode::Strict);
    Element::Node { kind: "merge_statement", grammar: g16 }
}

/// The ANSI element `IndexColumnDefinitionSegment`.
pub open spec fn index_column_definition_segment_element() -> ElementView {
    ElementView::Node { kind: "index_column_definition"@, grammar: GrammarView::Sequence { elements: seq![GrammarView::Ref { name: "SingleIdentifierGrammar"@, optional: false }, GrammarView::Optional { grammar: Box::new(GrammarView::OneOf { elements: seq![GrammarView::Keyword { word: "ASC"@ }, GrammarView::Keyword { word: "DESC"@ }], terminators: seq![] }) }], terminators: seq![], parse_mode: ParseMode::Strict } }
}

fn build_index_column_definition_segment() -> (e: Element)
    ensures
        e@ =~~= index_column_definition_segment_element(),
{
    let g1: Vec<Grammar> = vec![Grammar::keyword("ASC"), Grammar::keyword("DESC")];
    assert(views(g1@) =~~= seq![GrammarView::Keyword { word: "ASC"@ }, GrammarView::Keyword { word: "DESC"@ }]);
    let g2: Vec<Grammar> = Vec::new();
    assert(views(g2@) =~= Seq::<GrammarView>::empty());
    let g3 = Grammar::one_of_with(g1, g2);
    let g4 = g3.optional();
    let g5: Vec<Grammar> = vec![Grammar::reference("SingleIdentifierGrammar"), g4];
    assert(views(g5@) =~~= seq![GrammarView::Ref { name: "SingleIdentifierGrammar"@, optional: false }, GrammarView::Optional { grammar: Box::new(GrammarView::OneOf { elements: seq![GrammarView::Keyword { word: "ASC"@ }, GrammarView::Keyword { word: "DESC"@ }], terminators: seq![] }) }]);
    let g6: Vec<Grammar> = Vec::new();
    assert(views(g6@) =~= Seq::<GrammarView>::empty());
    let g7 = Grammar::sequence_with(g5, g6, ParseMode::Strict);
    Element::Node { kind: "index_column_definition", grammar: g7 }
}

/// The ANSI element `BitwiseAndSegment`.
pub open spec fn bitwise_and_segment_element() -> ElementView {
    ElementView::Node { kind: "comparison_operator"@, grammar: GrammarView::Ref { name: "AmpersandSegment"@, optional: false } }
}

fn build_bitwise_and_segment() -> (e: Element)
    ensures
        e@ =~~= bitwise_and_segment_element(),
{
    Element::Node { kind: "comparison_operator", grammar: Grammar::reference("AmpersandSegment") }
}

/// The ANSI element `BitwiseOrSegment`.
pub open spec fn bitwise_or_segment_element() -> ElementView {
    ElementView::Node { kind: "comparison_operator"@, grammar: GrammarView::Ref { name: "PipeSegment"@, optional: false } }
}

fn build_bitwise_or_segment() -> (e: Element)
    ensures
        e@ =~~= bitwise_or_segment_element(),
{
    Element::Node { kind: "comparison_operator", grammar: Grammar::reference("PipeSegment") }
}

/// The ANSI element `BitwiseLShiftSegment`.
pub open spec fn bitwise_l_shift_segment_element() -> ElementView {
    ElementView::Node { kind: "comparison_operator"@, grammar: GrammarView::WithoutGaps { grammar: Box::new(GrammarView::Sequence { elements: seq![GrammarView::Ref { name: "RawLessThanSegment"@, optional: false }, GrammarView::Ref { name: "RawLessThanSegment"@, optional: false }], terminators: seq![], parse_mode: ParseMode::Strict }) } }
}

fn build_bitwise_l_shift_segment() -> (e: Element)
    ensures
        e@ =~~= bitwise_l_shift_segment_element(),
{
    let g1: Vec<Grammar> = vec![Grammar::reference("RawLessThanSegment"), Grammar::reference("RawLessThanSegment")];
    assert(views(g1@) =~~= seq![GrammarView::Ref { name: "RawLessThanSegment"@, optional: false }, GrammarView::Ref { name: "RawLessThanSegment"@, optional: false }]);
    let g2: Vec<Grammar> = Vec::new();
    assert(views(g2@) =~= Seq::<GrammarView>::empty());
    let g3 = Grammar::sequence_with(g1, g2, ParseMode::Strict);
    let g4 = g3.without_gaps();
    Element::Node { kind: "comparison_operator", grammar: g4 }
}

/// The ANSI element `BitwiseRShiftSegment`.
pub open spec fn bitwise_r_shift_segment_element() -> ElementView {
    ElementView::Node { kind: "comparison_operator"@, grammar: GrammarView::WithoutGaps { grammar: Box::new(GrammarView::Sequence { elements: seq![GrammarView::Ref { name: "RawGreaterThanSegment"@, optional: false }, GrammarView::Ref { name: "RawGreaterThanSegment"@, optional: false }], terminators: seq![], parse_mode: ParseMode::Strict }) } }
}

fn build_bitwise_r_shift_segment() -> (e: Element)
    ensures
        e@ =~~= bitwise_r_shift_segment_element(),
{
    let g1: Vec<Grammar> = vec![Grammar::reference("RawGreaterThanSegment"), Grammar::reference("RawGreaterThanSegment")];
    assert(views(g1@) =~~= seq![GrammarView::Ref { name: "RawGreaterThanSegment"@, optional: false }, GrammarView::Ref { name: "RawGreaterThanSegment"@, optional: false }]);
    let g2: Vec<Grammar> = Vec::new();
    assert(views(g2@) =~= Seq::<GrammarView>::empty());
    let g3 = Grammar::sequence_with(g1, g2, ParseMode::Strict);
    let g4 = g3.without_gaps();
    Element::Node { kind: "comparison_operator", grammar: g4 }
}

/// The ANSI element `LessThanSegment`.
pub open spec fn less_than_segment_element() -> ElementView {
    ElementView::Node { kind: "comparison_operator"@, grammar: GrammarView::Ref { name: "RawLessThanSegment"@, optional: false } }
}

fn build_less_than_segment() -> (e: Element)
    ensures
        e@ =~~= less_than_segment_element(),
{
    Element::Node { kind: "comparison_operator", grammar: Grammar::reference("RawLessThanSegment") }
}

/// The ANSI element `GreaterThanOrEqualToSegment`.
pub open spec fn greater_than_or_equal_to_segment_element() -> ElementView {
    ElementView::Node { kind: "comparison_operator"@, grammar: GrammarView::WithoutGaps { grammar: Box::new(GrammarView::Sequence { elements: seq![GrammarView::Ref { name: "RawGreaterThanSegment"@, optional: false }, GrammarView::Ref { name: "RawEqualsSegment"@, optional: false }], terminators: seq![], parse_mode: ParseMode::Strict }) } }
}

fn build_greater_than_or_equal_to_segment() -> (e: Element)
    ensures
        e@ =~~= greater_than_or_equal_to_segment_element(),
{
    let g1: Vec<Grammar> = vec![Grammar::reference("RawGreaterThanSegment"), Grammar::reference("RawEqualsSegment")];
    assert(views(g1@) =~~= seq![GrammarView::Ref { name: "RawGreaterThanSegment"@, optional: false }, GrammarView::Ref { name: "RawEqualsSegment"@, optional: false }]);
    let g2: Vec<Grammar> = Vec::new();
    assert(views(g2@) =~= Seq::<GrammarView>::empty());
    let g3 = Grammar::sequence_with(g1, g2, ParseMode::Strict);
    let g4 = g3.without_gaps();
    Element::Node { kind: "comparison_operator", grammar: g4 }
}

/// The ANSI element `LessThanOrEqualToSegment`.
pub open spec fn less_than_or_equal_to_segment_element() -> ElementView {
    ElementView::Node { kind: "comparison_operator"@, grammar: GrammarView::WithoutGaps { grammar: Box::new(GrammarView::Sequence { elements: seq![GrammarView::Ref { name: "RawLessThanSegment"@, optional: false }, GrammarView::Ref { name: "RawEqualsSegment"@, optional: false }], terminators: seq![], parse_mode: ParseMode::Strict }) } }
}

fn build_less_than_or_equal_to_segment() -> (e: Element)
    ensures
        e@ =~~= less_than_or_equal_to_segment_element(),
{
    let g1: Vec<Grammar> = vec![Grammar::reference("RawLessThanSegment"), Grammar::reference("RawEqualsSegment")];
    assert(views(g1@) =~~= seq![GrammarView::Ref { name: "RawLessThanSegment"@, optional: false }, GrammarView::Ref { name: "RawEqualsSegment"@, optional: false }]);
    let g2: Vec<Grammar> = Vec::new();
    assert(views(g2@) =~= Seq::<GrammarView>::empty());
    let g3 = Grammar::sequence_with(g1, g2, ParseMode::Strict);
    let g4 = g3.without_gaps();
    Element::Node { kind: "comparison_operator", grammar: g4 }
}

/// The ANSI element `EqualsSegment`.
pub open spec fn equals_segment_element() -> ElementView {
    ElementView::Node { kind: "comparison_operator"@, grammar: GrammarView::Ref { name: "RawEqualsSegment"@, optional: false } }
}

fn build_equals_segment() -> (e: Element)
    ensures
        e@ =~~= equals_segment_element(),
{
    Element::Node { kind: "comparison_operator", grammar: Grammar::reference("RawEqualsSegment") }
}

/// The ANSI element `GreaterThanSegment`.
pub open spec fn greater_than_segment_element() -> ElementView {
    ElementView::Node { kind: "comparison_operator"@, grammar: GrammarView::Ref { name: "RawGreaterThanSegment"@, optional: false } }
}

fn build_greater_than_segment() -> (e: Element)
    ensures
        e@ =~~= greater_than_segment_element(),
{
    Element::Node { kind: "comparison_operator", grammar: Grammar::reference("RawGreaterThanSegment") }
}

/// The ANSI element `QualifiedNumericLiteralSegment`.
pub open spec fn qualified_numeric_literal_segment_element() -> ElementView {
    ElementView::Node { kind: "numeric_literal"@, grammar: GrammarView::Sequence { elements: seq![GrammarView::Ref { name: "SignedSegmentGrammar"@, optional: false }, GrammarView::Ref { name: "NumericLiteralSegment"@, optional: false }], terminators: seq![], parse_mode: ParseMode::Strict } }
}

fn build_qualified_numeric_literal_segment() -> (e: Element)
    ensures
        e@ =~~= qualified_numeric_literal_segment_element(),
{
    let g1: Vec<Grammar> = vec![Grammar::reference("SignedSegmentGrammar"), Grammar::reference("NumericLiteralSegment")];
    assert(views(g1@) =~~= seq![GrammarView::Ref { name: "SignedSegmentGrammar"@, optional: false }, GrammarView::Ref { name: "NumericLiteralSegment"@, optional: false }]);
    let g2: Vec<Grammar> = Vec::new();
    assert(views(g2@) =~= Seq::<GrammarView>::empty());
    let g3 = Grammar::sequence_with(g1, g2, ParseMode::Strict);
    Element::Node { kind: "numeric_literal", grammar: g3 }
}

/// The ANSI element `AggregateOrderByClause`.
pub open spec fn aggregate_order_by_clause_element() -> ElementView {
    ElementView::Node { kind: "aggregate_order_by_clause"@, grammar: GrammarView::Ref { name: "OrderByClauseSegment"@, optional: false } }
}

fn build_aggregate_order_by_clause() -> (e: Element)
    ensures
        e@ =~~= aggregate_order_by_clause_element(),
{
    Element::Node { kind: "aggregate_order_by_clause", grammar: Grammar::reference("OrderByClauseSegment") }
}

/// The ANSI element `FunctionNameSegment`.
pub open spec fn function_name_segment_element() -> ElementView {
    ElementView::Node { kind: "function_name"@, grammar: GrammarView::WithoutGaps { grammar: Box::new(GrammarView::Sequence { elements: seq![GrammarView::AnyNumberOf { elements: seq![GrammarView::Sequence { elements: seq![GrammarView::Ref { name: "SingleIdentifierGrammar"@, optional: false }, GrammarView::Ref { name: "DotSegment"@, optional: false }], terminators: seq![], parse_mode: ParseMode::Strict }], terminators: seq![GrammarView::Ref { name: "BracketedSegment"@, optional: false }], min_times: 0, max_times: None }, GrammarView::OneOf { elements: seq![GrammarView::Ref { name: "FunctionNameIdentifierSegment"@, optional: false }, GrammarView::Ref { name: "QuotedIdentifierSegment"@, optional: false }], terminators: seq![] }], terminators: seq![GrammarView::Ref { name: "BracketedSegment"@, optional: false }], parse_mode: ParseMode::Strict }) } }
}

fn build_function_name_segment() -> (e: Element)
    ensures
        e@ =~~= function_name_segment_element(),
{
    let g1: Vec<Grammar> = vec![Grammar::reference("SingleIdentifierGrammar"), Grammar::reference("DotSegment")];
    assert(views(g1@) =~~= seq![GrammarView::Ref { name: "SingleIdentifierGrammar"@, optional: false }, GrammarView::Ref { name: "DotSegment"@, optional: false }]);
    let g2: Vec<Grammar> = Vec::new();
    assert(views(g2@) =~= Seq::<GrammarView>::empty());
    let g3 = Grammar::sequence_with(g1, g2, ParseMode::Strict);
    let g4: Vec<Grammar> = vec![g3];
    assert(views(g4@) =~~= seq![GrammarView::Sequence { elements: seq![GrammarView::Ref { name: "SingleIdentifierGrammar"@, optional: false }, GrammarView::Ref { name: "DotSegment"@, optional: false }], terminators: seq![], parse_mode: ParseMode::Strict }]);
    let g5: Vec<Grammar> = vec![Grammar::reference("BracketedSegment")];
    assert(views(g5@) =~~= seq![GrammarView::Ref { name: "BracketedSegment"@, optional: false }]);
    let g6 = Grammar::any_number_of_with(g4, g5, 0, None);
    let g7: Vec<Grammar> = vec![Grammar::reference("FunctionNameIdentifierSegment"), Grammar::reference("QuotedIdentifierSegment")];
    assert(views(g7@) =~~= seq![GrammarView::Ref { name: "FunctionNameIdentifierSegment"@, optional: false }, GrammarView::Ref { name: "QuotedIdentifierSegment"@, optional: false }]);
    let g8: Vec<Grammar> = Vec::new();
    assert(views(g8@) =~= Seq::<GrammarView>::empty());
    let g9 = Grammar::one_of_with(g7, g8);
    let g10: Vec<Grammar> = vec![g6, g9];
    assert(views(g10@) =~~= seq![GrammarView::AnyNumberOf { elements: seq![GrammarView::Sequence { elements: seq![GrammarView::Ref { name: "SingleIdentifierGrammar"@, optional: false }, GrammarView::Ref { name: "DotSegment"@, optional: false }], terminators: seq![], parse_mode: ParseMode::Strict }], terminators: seq![GrammarView::Ref { name: "BracketedSegment"@, optional: false }], min_times: 0, max_times: None }, GrammarView::OneOf { elements: seq![GrammarView::Ref { name: "FunctionNameIdentifierSegment"@, optional: false }, GrammarView::Ref { name: "QuotedIdentifierSegment"@, optional: false }], terminators: seq![] }]);
    let g11: Vec<Grammar> = vec![Grammar::reference("BracketedSegment")];
    assert(views(g11@) =~~= seq![GrammarView::Ref { name: "BracketedSegment"@, optional: false }]);
    let g12 = Grammar::sequence_with(g10, g11, ParseMode::Strict);
    let g13 = g12.without_gaps();
    Element::Node { kind: "function_name", grammar: g13 }
}

/// The ANSI element `WhenClauseSegment`.
pub open spec fn when_clause_segment_element() -> ElementView {
    ElementView::Node { kind: "when_clause"@, grammar: GrammarView::Sequence { elements: seq![GrammarView::Keyword { word: "WHEN"@ }, GrammarView::Sequence { elements: seq![GrammarView::ImplicitIndent, GrammarView::Ref { name: "ExpressionSegment"@, optional: false }, GrammarView::Dedent], terminators: seq![], parse_mode: ParseMode::Strict }, GrammarView::Conditional { meta: Box::new(GrammarView::Indent), setting: "indented_then"@ }, GrammarView::Keyword { word: "THEN"@ }, GrammarView::Conditional { meta: Box::new(GrammarView::ImplicitIndent), setting: "indented_then_contents"@ }, GrammarView::Ref { name: "ExpressionSegment"@, optional: false }, GrammarView::Conditional { meta: Box::new(GrammarView::Dedent), setting: "indented_then_contents"@ }, GrammarView::Conditional { meta: Box::new(GrammarView::Dedent), setting: "indented_then"@ }], terminators: seq![], parse_mode: ParseMode::Strict } }
}

fn build_when_clause_segment() -> (e: Element)
    ensures
        e@ =~~= when_clause_segment_element(),
{
    let g1: Vec<Grammar> = vec![Grammar::implicit_indent(), Grammar::reference("ExpressionSegment"), Grammar::dedent()];
    assert(views(g1@) =~~= seq![GrammarView::ImplicitIndent, GrammarView::Ref { name: "ExpressionSegment"@, optional: false }, GrammarView::Dedent]);
    let g2: Vec<Grammar> = Vec::new();
    assert(views(g2@) =~= Seq::<GrammarView>::empty());
    let g3 = Grammar::sequence_with(g1, g2, ParseMode::Strict);
    let g4 = Grammar::conditional(Grammar::indent(), "indented_then");
    let g5 = Grammar::conditional(Grammar::implicit_indent(), "indented_then_contents");
    let g6 = Grammar::conditional(Grammar::dedent(), "indented_then_contents");
    let g7 = Grammar::conditional(Grammar::dedent(), "indented_then");
    let g8: Vec<Grammar> = vec![Grammar::keyword("WHEN"), g3, g4, Grammar::keyword("THEN"), g5, Grammar::reference("ExpressionSegment"), g6, g7];
    assert(views(g8@) =~~= seq![GrammarView::Keyword { word: "WHEN"@ }, GrammarView::Sequence { elements: seq![GrammarView::ImplicitIndent, GrammarView::Ref { name: "ExpressionSegment"@, optional: false }, GrammarView::Dedent], terminators: seq![], parse_mode: ParseMode::Strict }, GrammarView::Conditional { meta: Box::new(GrammarView::Indent), setting: "indented_then"@ }, GrammarView::Keyword { word: "THEN"@ }, GrammarView::Conditional { meta: Box::new(GrammarView::ImplicitIndent), setting: "indented_then_contents"@ }, GrammarView::Ref { name: "ExpressionSegment"@, optional: false }, GrammarView::Conditional { meta: Box::new(GrammarView::Dedent), setting: "indented_then_contents"@ }, GrammarView::Conditional { meta: Box::new(GrammarView::Dedent), setting: "indented_then"@ }]);
    let g9: Vec<Grammar> = Vec::new();
    assert(views(g9@) =~= Seq::<GrammarView>::empty());
    let g10 = Grammar::sequence_with(g8, g9, ParseMode::Strict);
    Element::Node { kind: "when_clause", grammar: g10 }
}

/// The ANSI element `ElseClauseSegment`.
pub open spec fn else_clause_segment_element() -> ElementView {
    ElementView::Node { kind: "else_clause"@, grammar: GrammarView::Sequence { elements: seq![GrammarView::Keyword { word: "ELSE"@ }, GrammarView::ImplicitIndent, GrammarView::Ref { name: "ExpressionSegment"@, optional: false }, GrammarView::Dedent], terminators: seq![], parse_mode: ParseMode::Strict } }
}

fn build_else_clause_segment() -> (e: Element)
    ensures
        e@ =~~= else_clause_segment_element(),
{
    let g1: Vec<Grammar> = vec![Grammar::keyword("ELSE"), Grammar::implicit_indent(), Grammar::reference("ExpressionSegment"), Grammar::dedent()];
    assert(views(g1@) =~~= seq![GrammarView::Keyword { word: "ELSE"@ }, GrammarView::ImplicitIndent, GrammarView::Ref { name: "ExpressionSegment"@, optional: false }, GrammarView::Dedent]);
    let g2: Vec<Grammar> = Vec::new();
    assert(views(g2@) =~= Seq::<GrammarView>::empty());
    let g3 = Grammar::sequence_with(g1, g2, ParseMode::Strict);
    Element::Node { kind: "else_clause", grammar: g3 }
}

/// The ANSI element `WhereClauseSegment`.
pub open spec fn where_clause_segment_element() -> ElementView {
    ElementView::Node { kind: "where_clause"@, grammar: GrammarView::Sequence { elements: seq![GrammarView::Keyword { word: "WHERE"@ }, GrammarView::ImplicitIndent, GrammarView::OneOf { elements: seq![GrammarView::Bracketed { elements: seq![GrammarView::Ref { name: "ExpressionSegment"@, optional: false }], bracket_type: "round"@ }, GrammarView::Ref { name: "ExpressionSegment"@, optional: false }], terminators: seq![] }, GrammarView::Dedent], terminators: seq![], parse_mode: ParseMode::Strict } }
}

fn build_where_clause_segment() -> (e: Element)
    ensures
        e@ =~~= where_clause_segment_element(),
{
    let g1: Vec<Grammar> = vec![Grammar::reference("ExpressionSegment")];
    assert(views(g1@) =~~= seq![GrammarView::Ref { name: "ExpressionSegment"@, optional: false }]);
    let g2 = Grammar::bracketed_with(g1, "round");
    let g3: Vec<Grammar> = vec![g2, Grammar::reference("ExpressionSegment")];
    assert(views(g3@) =~~= seq![GrammarView::Bracketed { elements: seq![GrammarView::Ref { name: "ExpressionSegment"@, optional: false }], bracket_type: "round"@ }, GrammarView::Ref { name: "ExpressionSegment"@, optional: false }]);
    let g4: Vec<Grammar> = Vec::new();
    assert(views(g4@) =~= Seq::<GrammarView>::empty());
    let g5 = Grammar::one_of_with(g3, g4);
    let g6: Vec<Grammar> = vec![Grammar::keyword("WHERE"), Grammar::implicit_indent(), g5, Grammar::dedent()];
    assert(views(g6@) =~~= seq![GrammarView::Keyword { word: "WHERE"@ }, GrammarView::ImplicitIndent, GrammarView::OneOf { elements: seq![GrammarView::Bracketed { elements: seq![GrammarView::Ref { name: "ExpressionSegment"@, optional: false }], bracket_type: "round"@ }, GrammarView::Ref { name: "ExpressionSegment"@, optional: false }], terminators: seq![] }, GrammarView::Dedent]);
    let g7: Vec<Grammar> = Vec::new();
    assert(views(g7@) =~= Seq::<GrammarView>::empty());
    let g8 = Grammar::sequence_with(g6, g7, ParseMode::Strict);
    Element::Node { kind: "where_clause", grammar: g8 }
}

/// The ANSI element `SetOperatorSegment`.
pub open spec fn set_operator_segment_element() -> ElementView {
    ElementView::Node { kind: "set_operator"@, grammar: GrammarView::OneOf { elements: seq![GrammarView::Ref { name: "UnionGrammar"@, optional: false }, GrammarView::Sequence { elements: seq![GrammarView::OneOf { elements: seq![GrammarView::Keyword { word: "INTERSECT"@ }, GrammarView::Keyword { word: "EXCEPT"@ }], terminators: seq![] }, GrammarView::Optional { grammar: Box::new(GrammarView::Keyword { word: "ALL"@ }) }], terminators: seq![], parse_mode: ParseMode::Strict }, GrammarView::Keyword { word: "MINUS"@ }], terminators: seq![] } }
}

fn build_set_operator_segment() -> (e: Element)
    ensures
        e@ =~~= set_operator_segment_element(),
{
    let g1: Vec<Grammar> = vec![Grammar::keyword("INTERSECT"), Grammar::keyword("EXCEPT")];
    assert(views(g1@) =~~= seq![GrammarView::Keyword { word: "INTERSECT"@ }, GrammarView::Keyword { word: "EXCEPT"@ }]);
    let g2: Vec<Grammar> = Vec::new();
    assert(views(g2@) =~= Seq::<GrammarView>::empty());
    let g3 = Grammar::one_of_with(g1, g2);
    let g4 = Grammar::keyword("ALL").optional();
    let g5: Vec<Grammar> = vec![g3, g4];
    assert(views(g5@) =~~= seq![GrammarView::OneOf { elements: seq![GrammarView::Keyword { word: "INTERSECT"@ }, GrammarView::Keyword { word: "EXCEPT"@ }], terminators: seq![] }, GrammarView::Optional { grammar: Box::new(GrammarView::Keyword { word: "ALL"@ }) }]);
    let g6: Vec<Grammar> = Vec::new();
    assert(views(g6@) =~= Seq::<GrammarView>::empty());
    let g7 = Grammar::sequence_with(g5, g6, ParseMode::Strict);
    let g8: Vec<Grammar> = vec![Grammar::reference("UnionGrammar"), g7, Grammar::keyword("MINUS")];
    assert(views(g8@) =~~= seq![GrammarView::Ref { name: "UnionGrammar"@, optional: false }, GrammarView::Sequence { elements: seq![GrammarView::OneOf { elements: seq![GrammarView::Keyword { word: "INTERSECT"@ }, GrammarView::Keyword { word: "EXCEPT"@ }], terminators: seq![] }, GrammarView::Optional { grammar: Box::new(GrammarView::Keyword { word: "ALL"@ }) }], terminators: seq![], parse_mode: ParseMode::Strict }, GrammarView::Keyword { word: "MINUS"@ }]);
    let g9: Vec<Grammar> = Vec::new();
    assert(views(g9@) =~= Seq::<GrammarView>::empty());
    let g10 = Grammar::one_of_with(g8, g9);
    Element::Node { kind: "set_operator", grammar: g10 }
}

/// The ANSI element `ValuesClauseSegment`.
pub open spec fn values_clause_segment_element() -> ElementView {
    ElementView::Node { kind: "values_clause"@, grammar: GrammarView::Sequence { elements: seq![GrammarView::OneOf { elements: seq![GrammarView::Keyword { word: "VALUE"@ }, GrammarView::Keyword { word: "VALUES"@ }], terminators: seq![] }, GrammarView::Delimited { elements: seq![GrammarView::Sequence { elements: seq![GrammarView::Optional { grammar: Box::new(GrammarView::Keyword { word: "ROW"@ }) }, GrammarView::InMode { grammar: Box::new(GrammarView::Bracketed { elements: seq![GrammarView::Delimited { elements: seq![GrammarView::Keyword { word: "DEFAULT"@ }, GrammarView::Ref { name: "LiteralGrammar"@, optional: false }, GrammarView::Ref { name: "ExpressionSegment"@, optional: false }], allow_trailing: false, delimiter: None, terminators: seq![], allow_gaps: true }], bracket_type: "round"@ }), parse_mode: ParseMode::Greedy }], terminators: seq![], parse_mode: ParseMode::Strict }], allow_trailing: false, delimiter: None, terminators: seq![], allow_gaps: true }], terminators: seq![], parse_mode: ParseMode::Strict } }
}

fn build_values_clause_segment() -> (e: Element)
    ensures
        e@ =~~= values_clause_segment_element(),
{
    let g1: Vec<Grammar> = vec![Grammar::keyword("VALUE"), Grammar::keyword("VALUES")];
    assert(views(g1@) =~~= seq![GrammarView::Keyword { word: "VALUE"@ }, GrammarView::Keyword { word: "VALUES"@ }]);
    let g2: Vec<Grammar> = Vec::new();
    assert(views(g2@) =~= Seq::<GrammarView>::empty());
    let g3 = Grammar::one_of_with(g1, g2);
    let g4 = Grammar::keyword("ROW").optional();
    let g5: Vec<Grammar> = vec![Grammar::keyword("DEFAULT"), Grammar::reference("LiteralGrammar"), Grammar::reference("ExpressionSegment")];
    assert(views(g5@) =~~= seq![GrammarView::Keyword { word: "DEFAULT"@ }, GrammarView::Ref { name: "LiteralGrammar"@, optional: false }, GrammarView::Ref { name: "ExpressionSegment"@, optional: false }]);
    let g6: Vec<Grammar> = Vec::new();
    assert(views(g6@) =~= Seq::<GrammarView>::empty());
    let g7 = Grammar::delimited_with(g5, false, None, g6, true);
    let g8: Vec<Grammar> = vec![g7];
    assert(views(g8@) =~~= seq![GrammarView::Delimited { elements: seq![GrammarView::Keyword { word: "DEFAULT"@ }, GrammarView::Ref { name: "LiteralGrammar"@, optional: false }, GrammarView::Ref { name: "ExpressionSegment"@, optional: false }], allow_trailing: false, delimiter: None, terminators: seq![], allow_gaps: true }]);
    let g9 = Grammar::bracketed_with(g8, "round");
    let g10 = g9.in_mode(ParseMode::Greedy);
    let g11: Vec<Grammar> = vec![g4, g10];
    assert(views(g11@) =~~= seq![GrammarView::Optional { grammar: Box::new(GrammarView::Keyword { word: "ROW"@ }) }, GrammarView::InMode { grammar: Box::new(GrammarView::Bracketed { elements: seq![GrammarView::Delimited { elements: seq![GrammarView::Keyword { word: "DEFAULT"@ }, GrammarView::Ref { name: "LiteralGrammar"@, optional: false }, GrammarView::Ref { name: "ExpressionSegment"@, optional: false }], allow_trailing: false, delimiter: None, terminators: seq![], allow_gaps: true }], bracket_type: "round"@ }), parse_mode: ParseMode::Greedy }]);
    let g12: Vec<Grammar> = Vec::new();
    assert(views(g12@) =~= Seq::<GrammarView>::empty());
    let g13 = Grammar::sequence_with(g11, g12, ParseMode::Strict);
    let g14: Vec<Grammar> = vec![g13];
    assert(views(g14@) =~~= seq![GrammarView::Sequence { elements: seq![GrammarView::Optional { grammar: Box::new(GrammarView::Keyword { word: "ROW"@ }) }, GrammarView::InMode { grammar: Box::new(GrammarView::Bracketed { elements: seq![GrammarView::Delimited { elements: seq![GrammarView::Keyword { word: "DEFAULT"@ }, GrammarView::Ref { name: "LiteralGrammar"@, optional: false }, GrammarView::Ref { name: "ExpressionSegment"@, optional: false }], allow_trailing: false, delimiter: None, terminators: seq![], allow_gaps: true }], bracket_type: "round"@ }), parse_mode: ParseMode::Greedy }], terminators: seq![], parse_mode: ParseMode::Strict }]);
    let g15: Vec<Grammar> = Vec::new();
    assert(views(g15@) =~= Seq::<GrammarView>::empty());
    let g16 = Grammar::delimited_with(g14, false, None, g15, true);
    let g17: Vec<Grammar> = vec![g3, g16];
    assert(views(g17@) =~~= seq![GrammarView::OneOf { elements: seq![GrammarView::Keyword { word: "VALUE"@ }, GrammarView::Keyword { word: "VALUES"@ }], terminators: seq![] }, GrammarView::Delimited { elements: seq![GrammarView::Sequence { elements: seq![GrammarView::Optional { grammar: Box::new(GrammarView::Keyword { word: "ROW"@ }) }, GrammarView::InMode { grammar: Box::new(GrammarView::Bracketed { elements: seq![GrammarView::Delimited { elements: seq![GrammarView::Keyword { word: "DEFAULT"@ }, GrammarView::Ref { name: "LiteralGrammar"@, optional: false }, GrammarView::Ref { name: "ExpressionSegment"@, optional: false }], allow_trailing: false, delimiter: None, terminators: seq![], allow_gaps: true }], bracket_type: "round"@ }), parse_mode: ParseMode::Greedy }], terminators: seq![], parse_mode: ParseMode::Strict }], allow_trailing: false, delimiter: None, terminators: seq![], allow_gaps: true }]);
    let g18: Vec<Grammar> = Vec::new();
    assert(views(g18@) =~= Seq::<GrammarView>::empty());
    let g19 = Grammar::sequence_with(g17, g18, ParseMode::Strict);
    Element::Node { kind: "values_clause", grammar: g19 }
}

/// The ANSI element `EmptyStructLiteralSegment`.
pub open spec fn empty_struct_literal_segment_element() -> ElementView {
    ElementView::Node { kind: "empty_struct_literal"@, grammar: GrammarView::Sequence { elements: seq![GrammarView::Ref { name: "StructTypeSegment"@, optional: false }, GrammarView::Ref { name: "EmptyStructLiteralBracketsSegment"@, optional: false }], terminators: seq![], parse_mode: ParseMode::Strict } }
}

fn build_empty_struct_literal_segment() -> (e: Element)
    ensures
        e@ =~~= empty_struct_literal_segment_element(),
{
    let g1: Vec<Grammar> = vec![Grammar::reference("StructTypeSegment"), Grammar::reference("EmptyStructLiteralBracketsSegment")];
    assert(views(g1@) =~~= seq![GrammarView::Ref { name: "StructTypeSegment"@, optional: false }, GrammarView::Ref { name: "EmptyStructLiteralBracketsSegment"@, optional: false }]);
    let g2: Vec<Grammar> = Vec::new();
    assert(views(g2@) =~= Seq::<GrammarView>::empty());
    let g3 = Grammar::sequence_with(g1, g2, ParseMode::Strict);
    Element::Node { kind: "empty_struct_literal", grammar: g3 }
}

/// The ANSI element `ObjectLiteralSegment`.
pub open spec fn object_literal_segment_element() -> ElementView {
    ElementView::Node { kind: "object_literal"@, grammar: GrammarView::Bracketed { elements: seq![GrammarView::Optional { grammar: Box::new(GrammarView::Delimited { elements: seq![GrammarView::Ref { name: "ObjectLiteralElementSegment"@, optional: false }], allow_trailing: false, delimiter: None, terminators: seq![], allow_gaps: true }) }], bracket_type: "curly"@ } }
}

fn build_object_literal_segment() -> (e: Element)
    ensures
        e@ =~~= object_literal_segment_element(),
{
    let g1: Vec<Grammar> = vec![Grammar::reference("ObjectLiteralElementSegment")];
    assert(views(g1@) =~~= seq![GrammarView::Ref { name: "ObjectLiteralElementSegment"@, optional: false }]);
    let g2: Vec<Grammar> = Vec::new();
    assert(views(g2@) =~= Seq::<GrammarView>::empty());
    let g3 = Grammar::delimited_with(g1, false, None, g2, true);
    let g4 = g3.optional();
    let g5: Vec<Grammar> = vec![g4];
    assert(views(g5@) =~~= seq![GrammarView::Optional { grammar: Box::new(GrammarView::Delimited { elements: seq![GrammarView::Ref { name: "ObjectLiteralElementSegment"@, optional: false }], allow_trailing: false, delimiter: None, terminators: seq![], allow_gaps: true }) }]);
    let g6 = Grammar::bracketed_with(g5, "curly");
    Element::Node { kind: "object_literal", grammar: g6 }
}

/// The ANSI element `ObjectLiteralElementSegment`.
pub open spec fn object_literal_element_segment_element() -> ElementView {
    ElementView::Node { kind: "object_literal_element"@, grammar: GrammarView::Sequence { elements: seq![GrammarView::Ref { name: "QuotedLiteralSegment"@, optional: false }, GrammarView::Ref { name: "ColonSegment"@, optional: false }, GrammarView::Ref { name: "BaseExpressionElementGrammar"@, optional: false }], terminators: seq![], parse_mode: ParseMode::Strict } }
}

fn build_object_literal_element_segment() -> (e: Element)
    ensures
        e@ =~~= object_literal_element_segment_element(),
{
    let g1: Vec<Grammar> = vec![Grammar::reference("QuotedLiteralSegment"), Grammar::reference("ColonSegment"), Grammar::reference("BaseExpressionElementGrammar")];
    assert(views(g1@) =~~= seq![GrammarView::Ref { name: "QuotedLiteralSegment"@, optional: false }, GrammarView::Ref { name: "ColonSegment"@, optional: false }, GrammarView::Ref { name: "BaseExpressionElementGrammar"@, optional: false }]);
    let g2: Vec<Grammar> = Vec::new();
    assert(views(g2@) =~= Seq::<GrammarView>::empty());
    let g3 = Grammar::sequence_with(g1, g2, ParseMode::Strict);
    Element::Node { kind: "object_literal_element", grammar: g3 }
}

/// The ANSI element `TimeZoneGrammar`.
pub open spec fn time_zone_grammar_element() -> ElementView {
    ElementView::Node { kind: "time_zone_grammar"@, grammar: GrammarView::AnyNumberOf { elements: seq![GrammarView::Sequence { elements: seq![GrammarView::Keyword { word: "AT"@ }, GrammarView::Keyword { word: "TIME"@ }, GrammarView::Keyword { word: "ZONE"@ }, GrammarView::Ref { name: "ExpressionSegment"@, optional: false }], terminators: seq![], parse_mode: ParseMode::Strict }], terminators: seq![], min_times: 0, max_times: None } }
}

fn build_time_zone_grammar() -> (e: Element)
    ensures
        e@ =~~= time_zone_grammar_element(),
{
    let g1: Vec<Grammar> = vec![Grammar::keyword("AT"), Grammar::keyword("TIME"), Grammar::keyword("ZONE"), Grammar::reference("ExpressionSegment")];
    assert(views(g1@) =~~= seq![GrammarView::Keyword { word: "AT"@ }, GrammarView::Keyword { word: "TIME"@ }, GrammarView::Keyword { word: "ZONE"@ }, GrammarView::Ref { name: "ExpressionSegment"@, optional: false }]);
    let g2: Vec<Grammar> = Vec::new();
    assert(views(g2@) =~= Seq::<GrammarView>::empty());
    let g3 = Grammar::sequence_with(g1, g2, ParseMode::Strict);
    let g4: Vec<Grammar> = vec![g3];
    assert(views(g4@) =~~= seq![GrammarView::Sequence { elements: seq![GrammarView::Keyword { word: "AT"@ }, GrammarView::Keyword { word: "TIME"@ }, GrammarView::Keyword { word: "ZONE"@ }, GrammarView::Ref { name: "ExpressionSegment"@, optional: false }], terminators: seq![], parse_mode: ParseMode::Strict }]);
    let g5: Vec<Grammar> = Vec::new();
    assert(views(g5@) =~= Seq::<GrammarView>::empty());
    let g6 = Grammar::any_number_of_with(g4, g5, 0, None);
    Element::Node { kind: "time_zone_grammar", grammar: g6 }
}

/// The ANSI element `BracketedArguments`.
pub open spec fn bracketed_arguments_element() -> ElementView {
    ElementView::Node { kind: "bracketed_arguments"@, grammar: GrammarView::Bracketed { elements: seq![GrammarView::Optional { grammar: Box::new(GrammarView::Delimited { elements: seq![GrammarView::Ref { name: "LiteralGrammar"@, optional: false }], allow_trailing: false, delimiter: None, terminators: seq![], allow_gaps: true }) }], bracket_type: "round"@ } }
}

fn build_bracketed_arguments() -> (e: Element)
    ensures
        e@ =~~= bracketed_arguments_element(),
{
    let g1: Vec<Grammar> = vec![Grammar::reference("LiteralGrammar")];
    assert(views(g1@) =~~= seq![GrammarView::Ref { name: "LiteralGrammar"@, optional: false }]);
    let g2: Vec<Grammar> = Vec::new();
    assert(views(g2@) =~= Seq::<GrammarView>::empty());
    let g3 = Grammar::delimited_with(g1, false, None, g2, true);
    let g4 = g3.optional();
    let g5: Vec<Grammar> = vec![g4];
    assert(views(g5@) =~~= seq![GrammarView::Optional { grammar: Box::new(GrammarView::Delimited { elements: seq![GrammarView::Ref { name: "LiteralGrammar"@, optional: false }], allow_trailing: false, delimiter: None, terminators: seq![], allow_gaps: true }) }]);
    let g6 = Grammar::bracketed_with(g5, "round");
    Element::Node { kind: "bracketed_arguments", grammar: g6 }
}

/// The ANSI element `DatatypeSegment`.
pub open spec fn datatype_segment_element() -> ElementView {
    ElementView::Node { kind: "data_type"@, grammar: GrammarView::OneOf { elements: seq![GrammarView::Ref { name: "TimeWithTZGrammar"@, optional: false }, GrammarView::Sequence { elements: seq![GrammarView::Keyword { word: "DOUBLE"@ }, GrammarView::Keyword { word: "PRECISION"@ }], terminators: seq![], parse_mode: ParseMode::Strict }, GrammarView::Sequence { elements: seq![GrammarView::OneOf { elements: seq![GrammarView::Sequence { elements: seq![GrammarView::OneOf { elements: seq![GrammarView::Keyword { word: "CHARACTER"@ }, GrammarView::Keyword { word: "BINARY"@ }], terminators: seq![] }, GrammarView::OneOf { elements: seq![GrammarView::Keyword { word: "VARYING"@ }, GrammarView::Sequence { elements: seq![GrammarView::Keyword { word: "LARGE"@ }, GrammarView::Keyword { word: "OBJECT"@ }], terminators: seq![], parse_mode: ParseMode::Strict }], terminators: seq![] }], terminators: seq![], parse_mode: ParseMode::Strict }, GrammarView::Sequence { elements: seq![GrammarView::Optional { grammar: Box::new(GrammarView::Sequence { elements: seq![GrammarView::Ref { name: "SingleIdentifierGrammar"@, optional: false }, GrammarView::Ref { name: "DotSegment"@, optional: false }], terminators: seq![], parse_mode: ParseMode::Strict }) }, GrammarView::Ref { name: "DatatypeIdentifierSegment"@, optional: false }], terminators: seq![], parse_mode: ParseMode::Strict }], terminators: seq![] }, GrammarView::Ref { name: "BracketedArguments"@, optional: true }, GrammarView::Optional { grammar: Box::new(GrammarView::OneOf { elements: seq![GrammarView::Keyword { word: "UNSIGNED"@ }, GrammarView::Ref { name: "CharCharacterSetGrammar"@, optional: false }], terminators: seq![] }) }], terminators: seq![], parse_mode: ParseMode::Strict }], terminators: seq![] } }
}

fn build_datatype_segment() -> (e: Element)
    ensures
        e@ =~~= datatype_segment_element(),
{
    let g1: Vec<Grammar> = vec![Grammar::keyword("DOUBLE"), Grammar::keyword("PRECISION")];
    assert(views(g1@) =~~= seq![GrammarView::Keyword { word: "DOUBLE"@ }, GrammarView::Keyword { word: "PRECISION"@ }]);
    let g2: Vec<Grammar> = Vec::new();
    assert(views(g2@) =~= Seq::<GrammarView>::empty());
    let g3 = Grammar::sequence_with(g1, g2, ParseMode::Strict);
    let g4: Vec<Grammar> = vec![Grammar::keyword("CHARACTER"), Grammar::keyword("BINARY")];
    assert(views(g4@) =~~= seq![GrammarView::Keyword { word: "CHARACTER"@ }, GrammarView::Keyword { word: "BINARY"@ }]);
    let g5: Vec<Grammar> = Vec::new();
    assert(views(g5@) =~= Seq::<GrammarView>::empty());
    let g6 = Grammar::one_of_with(g4, g5);
    let g7: Vec<Grammar> = vec![Grammar::keyword("LARGE"), Grammar::keyword("OBJECT")];
    assert(views(g7@) =~~= seq![GrammarView::Keyword { word: "LARGE"@ }, GrammarView::Keyword { word: "OBJECT"@ }]);
    let g8: Vec<Grammar> = Vec::new();
    assert(views(g8@) =~= Seq::<GrammarView>::empty());
    let g9 = Grammar::sequence_with(g7, g8, ParseMode::Strict);
    let g10: Vec<Grammar> = vec![Grammar::keyword("VARYING"), g9];
    assert(views(g10@) =~~= seq![GrammarView::Keyword { word: "VARYING"@ }, GrammarView::Sequence { elements: seq![GrammarView::Keyword { word: "LARGE"@ }, GrammarView::Keyword { word: "OBJECT"@ }], terminators: seq![], parse_mode: ParseMode::Strict }]);
    let g11: Vec<Grammar> = Vec::new();
    assert(views(g11@) =~= Seq::<GrammarView>::empty());
    let g12 = Grammar::one_of_with(g10, g11);
    let g13: Vec<Grammar> = vec![g6, g12];
    assert(views(g13@) =~~= seq![GrammarView::OneOf { elements: seq![GrammarView::Keyword { word: "CHARACTER"@ }, GrammarView::Keyword { word: "BINARY"@ }], terminators: seq![] }, GrammarView::OneOf { elements: seq![GrammarView::Keyword { word: "VARYING"@ }, GrammarView::Sequence { elements: seq![GrammarView::Keyword { word: "LARGE"@ }, GrammarView::Keyword { word: "OBJECT"@ }], terminators: seq![], parse_mode: ParseMode::Strict }], terminators: seq![] }]);
    let g14: Vec<Grammar> = Vec::new();
    assert(views(g14@) =~= Seq::<GrammarView>::empty());
    let g15 = Grammar::sequence_with(g13, g14, ParseMode::Strict);
    let g16: Vec<Grammar> = vec![Grammar::reference("SingleIdentifierGrammar"), Grammar::reference("DotSegment")];
    assert(views(g16@) =~~= seq![GrammarView::Ref { name: "SingleIdentifierGrammar"@, optional: false }, GrammarView::Ref { name: "DotSegment"@, optional: false }]);
    let g17: Vec<Grammar> = Vec::new();
    assert(views(g17@) =~= Seq::<GrammarView>::empty());
    let g18 = Grammar::sequence_with(g16, g17, ParseMode::Strict);
    let g19 = g18.optional();
    let g20: Vec<Grammar> = vec![g19, Grammar::reference("DatatypeIdentifierSegment")];
    assert(views(g20@) =~~= seq![GrammarView::Optional { grammar: Box::new(GrammarView::Sequence { elements: seq![GrammarView::Ref { name: "SingleIdentifierGrammar"@, optional: false }, GrammarView::Ref { name: "DotSegment"@, optional: false }], terminators: seq![], parse_mode: ParseMode::Strict }) }, GrammarView::Ref { name: "DatatypeIdentifierSegment"@, optional: false }]);
    let g21: Vec<Grammar> = Vec::new();
    assert(views(g21@) =~= Seq::<GrammarView>::empty());
    let g22 = Grammar::sequence_with(g20, g21, ParseMode::Strict);
    let g23: Vec<Grammar> = vec![g15, g22];
    assert(views(g23@) =~~= seq![GrammarView::Sequence { elements: seq![GrammarView::OneOf { elements: seq![GrammarView::Keyword { word: "CHARACTER"@ }, GrammarView::Keyword { word: "BINARY"@ }], terminators: seq![] }, GrammarView::OneOf { elements: seq![GrammarView::Keyword { word: "VARYING"@ }, GrammarView::Sequence { elements: seq![GrammarView::Keyword { word: "LARGE"@ }, GrammarView::Keyword { word: "OBJECT"@ }], terminators: seq![], parse_mode: ParseMode::Strict }], terminators: seq![] }], terminators: seq![], parse_mode: ParseMode::Strict }, GrammarView::Sequence { elements: seq![GrammarView::Optional { grammar: Box::new(GrammarView::Sequence { elements: seq![GrammarView::Ref { name: "SingleIdentifierGrammar"@, optional: false }, GrammarView::Ref { name: "DotSegment"@, optional: false }], terminators: seq![], parse_mode: ParseMode::Strict }) }, GrammarView::Ref { name: "DatatypeIdentifierSegment"@, optional: false }], terminators: seq![], parse_mode: ParseMode::Strict }]);
    let g24: Vec<Grammar> = Vec::new();
    assert(views(g24@) =~= Seq::<GrammarView>::empty());
    let g25 = Grammar::one_of_with(g23, g24);
    let g26: Vec<Grammar> = vec![Grammar::keyword("UNSIGNED"), Grammar::reference("CharCharacterSetGrammar")];
    assert(views(g26@) =~~= seq![GrammarView::Keyword { word: "UNSIGNED"@ }, GrammarView::Ref { name: "CharCharacterSetGrammar"@, optional: false }]);
    let g27: Vec<Grammar> = Vec::new();
    assert(views(g27@) =~= Seq::<GrammarView>::empty());
    let g28 = Grammar::one_of_with(g26, g27);
    let g29 = g28.optional();
    let g30: Vec<Grammar> = vec![g25, Grammar::optional_reference("BracketedArguments"), g29];
    assert(views(g30@) =~~= seq![GrammarView::OneOf { elements: seq![GrammarView::Sequence { elements: seq![GrammarView::OneOf { elements: seq![GrammarView::Keyword { word: "CHARACTER"@ }, GrammarView::Keyword { word: "BINARY"@ }], terminators: seq![] }, GrammarView::OneOf { elements: seq![GrammarView::Keyword { word: "VARYING"@ }, GrammarView::Sequence { elements: seq![GrammarView::Keyword { word: "LARGE"@ }, GrammarView::Keyword { word: "OBJECT"@ }], terminators: seq![], parse_mode: ParseMode::Strict }], terminators: seq![] }], terminators: seq![], parse_mode: ParseMode::Strict }, GrammarView::Sequence { elements: seq![GrammarView::Optional { grammar: Box::new(GrammarView::Sequence { elements: seq![GrammarView::Ref { name: "SingleIdentifierGrammar"@, optional: false }, GrammarView::Ref { name: "DotSegment"@, optional: false }], terminators: seq![], parse_mode: ParseMode::Strict }) }, GrammarView::Ref { name: "DatatypeIdentifierSegment"@, optional: false }], terminators: seq![], parse_mode: ParseMode::Strict }], terminators: seq![] }, GrammarView::Ref { name: "BracketedArguments"@, optional: true }, GrammarView::Optional { grammar: Box::new(GrammarView::OneOf { elements: seq![GrammarView::Keyword { word: "UNSIGNED"@ }, GrammarView::Ref { name: "CharCharacterSetGrammar"@, optional: false }], terminators: seq![] }) }]);
    let g31: Vec<Grammar> = Vec::new();
    assert(views(g31@) =~= Seq::<GrammarView>::empty());
    let g32 = Grammar::sequence_with(g30, g31, ParseMode::Strict);
    let g33: Vec<Grammar> = vec![Grammar::reference("TimeWithTZGrammar"), g3, g32];
    assert(views(g33@) =~~= seq![GrammarView::Ref { name: "TimeWithTZGrammar"@, optional: false }, GrammarView::Sequence { elements: seq![GrammarView::Keyword { word: "DOUBLE"@ }, GrammarView::Keyword { word: "PRECISION"@ }], terminators: seq![], parse_mode: ParseMode::Strict }, GrammarView::Sequence { elements: seq![GrammarView::OneOf { elements: seq![GrammarView::Sequence { elements: seq![GrammarView::OneOf { elements: seq![GrammarView::Keyword { word: "CHARACTER"@ }, GrammarView::Keyword { word: "BINARY"@ }], terminators: seq![] }, GrammarView::OneOf { elements: seq![GrammarView::Keyword { word: "VARYING"@ }, GrammarView::Sequence { elements: seq![GrammarView::Keyword { word: "LARGE"@ }, GrammarView::Keyword { word: "OBJECT"@ }], terminators: seq![], parse_mode: ParseMode::Strict }], terminators: seq![] }], terminators: seq![], parse_mode: ParseMode::Strict }, GrammarView::Sequence { elements: seq![GrammarView::Optional { grammar: Box::new(GrammarView::Sequence { elements: seq![GrammarView::Ref { name: "SingleIdentifierGrammar"@, optional: false }, GrammarView::Ref { name: "DotSegment"@, optional: false }], terminators: seq![], parse_mode: ParseMode::Strict }) }, GrammarView::Ref { name: "DatatypeIdentifierSegment"@, optional: false }], terminators: seq![], parse_mode: ParseMode::Strict }], terminators: seq![] }, GrammarView::Ref { name: "BracketedArguments"@, optional: true }, GrammarView::Optional { grammar: Box::new(GrammarView::OneOf { elements: seq![GrammarView::Keyword { word: "UNSIGNED"@ }, GrammarView::Ref { name: "CharCharacterSetGrammar"@, optional: false }], terminators: seq![] }) }], terminators: seq![], parse_mode: ParseMode::Strict }]);
    let g34: Vec<Grammar> = Vec::new();
    assert(views(g34@) =~= Seq::<GrammarView>::empty());
    let g35 = Grammar::one_of_with(g33, g34);
    Element::Node { kind: "data_type", grammar: g35 }
}

/// The ANSI element `AliasExpressionSegment`.
pub open spec fn alias_expression_segment_element() -> ElementView {
    ElementView::Node { kind: "alias_expression"@, grammar: GrammarView::Sequence { elements: seq![GrammarView::Indent, GrammarView::Optional { grammar: Box::new(GrammarView::Keyword { word: "AS"@ }) }, GrammarView::OneOf { elements: seq![GrammarView::Sequence { elements: seq![GrammarView::Ref { name: "SingleIdentifierGrammar"@, optional: false }, GrammarView::Optional { grammar: Box::new(GrammarView::Bracketed { elements: seq![GrammarView::Ref { name: "SingleIdentifierListSegment"@, optional: false }], bracket_type: "round"@ }) }], terminators: seq![], parse_mode: ParseMode::Strict }, GrammarView::Ref { name: "SingleQuotedIdentifierSegment"@, optional: false }], terminators: seq![] }, GrammarView::Dedent], terminators: seq![], parse_mode: ParseMode::Strict } }
}

fn build_alias_expression_segment() -> (e: Element)
    ensures
        e@ =~~= alias_expression_segment_element(),
{
    let g1 = Grammar::keyword("AS").optional();
    let g2: Vec<Grammar> = vec![Grammar::reference("SingleIdentifierListSegment")];
    assert(views(g2@) =~~= seq![GrammarView::Ref { name: "SingleIdentifierListSegment"@, optional: false }]);
    let g3 = Grammar::bracketed_with(g2, "round");
    let g4 = g3.optional();
    let g5: Vec<Grammar> = vec![Grammar::reference("SingleIdentifierGrammar"), g4];
    assert(views(g5@) =~~= seq![GrammarView::Ref { name: "SingleIdentifierGrammar"@, optional: false }, GrammarView::Optional { grammar: Box::new(GrammarView::Bracketed { elements: seq![GrammarView::Ref { name: "SingleIdentifierListSegment"@, optional: false }], bracket_type: "round"@ }) }]);
    let g6: Vec<Grammar> = Vec::new();
    assert(views(g6@) =~= Seq::<GrammarView>::empty());
    let g7 = Grammar::sequence_with(g5, g6, ParseMode::Strict);
    let g8: Vec<Grammar> = vec![g7, Grammar::reference("SingleQuotedIdentifierSegment")];
    assert(views(g8@) =~~= seq![GrammarView::Sequence { elements: seq![GrammarView::Ref { name: "SingleIdentifierGrammar"@, optional: false }, GrammarView::Optional { grammar: Box::new(GrammarView::Bracketed { elements: seq![GrammarView::Ref { name: "SingleIdentifierListSegment"@, optional: false }], bracket_type: "round"@ }) }], terminators: seq![], parse_mode: ParseMode::Strict }, GrammarView::Ref { name: "SingleQuotedIdentifierSegment"@, optional: false }]);
    let g9: Vec<Grammar> = Vec::new();
    assert(views(g9@) =~= Seq::<GrammarView>::empty());
    let g10 = Grammar::one_of_with(g8, g9);
    let g11: Vec<Grammar> = vec![Grammar::indent(), g1, g10, Grammar::dedent()];
    assert(views(g11@) =~~= seq![GrammarView::Indent, GrammarView::Optional { grammar: Box::new(GrammarView::Keyword { word: "AS"@ }) }, GrammarView::OneOf { elements: seq![GrammarView::Sequence { elements: seq![GrammarView::Ref { name: "SingleIdentifierGrammar"@, optional: false }, GrammarView::Optional { grammar: Box::new(GrammarView::Bracketed { elements: seq![GrammarView::Ref { name: "SingleIdentifierListSegment"@, optional: false }], bracket_type: "round"@ }) }], terminators: seq![], parse_mode: ParseMode::Strict }, GrammarView::Ref { name: "SingleQuotedIdentifierSegment"@, optional: false }], terminators: seq![] }, GrammarView::Dedent]);
    let g12: Vec<Grammar> = Vec::new();
    assert(views(g12@) =~= Seq::<GrammarView>::empty());
    let g13 = Grammar::sequence_with(g11, g12, ParseMode::Strict);
    Element::Node { kind: "alias_expression", grammar: g13 }
}

/// The ANSI element `ShorthandCastSegment`.
pub open spec fn shorthand_cast_segment_element() -> ElementView {
    ElementView::Node { kind: "cast_expression"@, grammar: GrammarView::Sequence { elements: seq![GrammarView::OneOf { elements: seq![GrammarView::Ref { name: "Expression_D_Grammar"@, optional: false }, GrammarView::Ref { name: "CaseExpressionSegment"@, optional: false }], terminators: seq![] }, GrammarView::AnyNumberOf { elements: seq![GrammarView::Sequence { elements: seq![GrammarView::Ref { name: "CastOperatorSegment"@, optional: false }, GrammarView::Ref { name: "DatatypeSegment"@, optional: false }, GrammarView::Ref { name: "TimeZoneGrammar"@, optional: true }], terminators: seq![], parse_mode: ParseMode::Strict }], terminators: seq![], min_times: 1, max_times: None }], terminators: seq![], parse_mode: ParseMode::Strict } }
}

fn build_shorthand_cast_segment() -> (e: Element)
    ensures
        e@ =~~= shorthand_cast_segment_element(),
{
    let g1: Vec<Grammar> = vec![Grammar::reference("Expression_D_Grammar"), Grammar::reference("CaseExpressionSegment")];
    assert(views(g1@) =~~= seq![GrammarView::Ref { name: "Expression_D_Grammar"@, optional: false }, GrammarView::Ref { name: "CaseExpressionSegment"@, optional: false }]);
    let g2: Vec<Grammar> = Vec::new();
    assert(views(g2@) =~= Seq::<GrammarView>::empty());
    let g3 = Grammar::one_of_with(g1, g2);
    let g4: Vec<Grammar> = vec![Grammar::reference("CastOperatorSegment"), Grammar::reference("DatatypeSegment"), Grammar::optional_reference("TimeZoneGrammar")];
    assert(views(g4@) =~~= seq![GrammarView::Ref { name: "CastOperatorSegment"@, optional: false }, GrammarView::Ref { name: "DatatypeSegment"@, optional: false }, GrammarView::Ref { name: "TimeZoneGrammar"@, optional: true }]);
    let g5: Vec<Grammar> = Vec::new();
    assert(views(g5@) =~= Seq::<GrammarView>::empty());
    let g6 = Grammar::sequence_with(g4, g5, ParseMode::Strict);
    let g7: Vec<Grammar> = vec![g6];
    assert(views(g7@) =~~= seq![GrammarView::Sequence { elements: seq![GrammarView::Ref { name: "CastOperatorSegment"@, optional: false }, GrammarView::Ref { name: "DatatypeSegment"@, optional: false }, GrammarView::Ref { name: "TimeZoneGrammar"@, optional: true }], terminators: seq![], parse_mode: ParseMode::Strict }]);
    let g8: Vec<Grammar> = Vec::new();
    assert(views(g8@) =~= Seq::<GrammarView>::empty());
    let g9 = Grammar::any_number_of_with(g7, g8, 1, None);
    let g10: Vec<Grammar> = vec![g3, g9];
    assert(views(g10@) =~~= seq![GrammarView::OneOf { elements: seq![GrammarView::Ref { name: "Expression_D_Grammar"@, optional: false }, GrammarView::Ref { name: "CaseExpressionSegment"@, optional: false }], terminators: seq![] }, GrammarView::AnyNumberOf { elements: seq![GrammarView::Sequence { elements: seq![GrammarView::Ref { name: "CastOperatorSegment"@, optional: false }, GrammarView::Ref { name: "DatatypeSegment"@, optional: false }, GrammarView::Ref { name: "TimeZoneGrammar"@, optional: true }], terminators: seq![], parse_mode: ParseMode::Strict }], terminators: seq![], min_times: 1, max_times: None }]);
    let g11: Vec<Grammar> = Vec::new();
    assert(views(g11@) =~= Seq::<GrammarView>::empty());
    let g12 = Grammar::sequence_with(g10, g11, ParseMode::Strict);
    Element::Node { kind: "cast_expression", grammar: g12 }
}

/// The ANSI element `ArrayAccessorSegment`.
pub open spec fn array_accessor_segment_element() -> ElementView {
    ElementView::Node { kind: "array_accessor"@, grammar: GrammarView::InMode { grammar: Box::new(GrammarView::Bracketed { elements: seq![GrammarView::Delimited { elements: seq![GrammarView::OneOf { elements: seq![GrammarView::Ref { name: "NumericLiteralSegment"@, optional: false }, GrammarView::Ref { name: "ExpressionSegment"@, optional: false }], terminators: seq![] }], allow_trailing: false, delimiter: Some(Box::new(GrammarView::Ref { name: "SliceSegment"@, optional: false })), terminators: seq![], allow_gaps: true }], bracket_type: "square"@ }), parse_mode: ParseMode::Greedy } }
}

fn build_array_accessor_segment() -> (e: Element)
    ensures
        e@ =~~= array_accessor_segment_element(),
{
    let g1: Vec<Grammar> = vec![Grammar::reference("NumericLiteralSegment"), Grammar::reference("ExpressionSegment")];
    assert(views(g1@) =~~= seq![GrammarView::Ref { name: "NumericLiteralSegment"@, optional: false }, GrammarView::Ref { name: "ExpressionSegment"@, optional: false }]);
    let g2: Vec<Grammar> = Vec::new();
    assert(views(g2@) =~= Seq::<GrammarView>::empty());
    let g3 = Grammar::one_of_with(g1, g2);
    let g4: Vec<Grammar> = vec![g3];
    assert(views(g4@) =~~= seq![GrammarView::OneOf { elements: seq![GrammarView::Ref { name: "NumericLiteralSegment"@, optional: false }, GrammarView::Ref { name: "ExpressionSegment"@, optional: false }], terminators: seq![] }]);
    let g5: Vec<Grammar> = Vec::new();
    assert(views(g5@) =~= Seq::<GrammarView>::empty());
    let g6 = Grammar::delimited_with(g4, false, Some(Grammar::reference("SliceSegment")), g5, true);
    let g7: Vec<Grammar> = vec![g6];
    assert(views(g7@) =~~= seq![GrammarView::Delimited { elements: seq![GrammarView::OneOf { elements: seq![GrammarView::Ref { name: "NumericLiteralSegment"@, optional: false }, GrammarView::Ref { name: "ExpressionSegment"@, optional: false }], terminators: seq![] }], allow_trailing: false, delimiter: Some(Box::new(GrammarView::Ref { name: "SliceSegment"@, optional: false })), terminators: seq![], allow_gaps: true }]);
    let g8 = Grammar::bracketed_with(g7, "square");
    let g9 = g8.in_mode(ParseMode::Greedy);
    Element::Node { kind: "array_accessor", grammar: g9 }
}

/// The ANSI element `ArrayLiteralSegment`.
pub open spec fn array_literal_segment_element() -> ElementView {
    ElementView::Node { kind: "array_literal"@, grammar: GrammarView::InMode { grammar: Box::new(GrammarView::Bracketed { elements: seq![GrammarView::Optional { grammar: Box::new(GrammarView::Delimited { elements: seq![GrammarView::Ref { name: "BaseExpressionElementGrammar"@, optional: false }], allow_trailing: false, delimiter: Some(Box::new(GrammarView::Ref { name: "CommaSegment"@, optional: false })), terminators: seq![], allow_gaps: true }) }], bracket_type: "square"@ }), parse_mode: ParseMode::Greedy } }
}

fn build_array_literal_segment() -> (e: Element)
    ensures
        e@ =~~= array_literal_segment_element(),
{
    let g1: Vec<Grammar> = vec![Grammar::reference("BaseExpressionElementGrammar")];
    assert(views(g1@) =~~= seq![GrammarView::Ref { name: "BaseExpressionElementGrammar"@, optional: false }]);
    let g2: Vec<Grammar> = Vec::new();
    assert(views(g2@) =~= Seq::<GrammarView>::empty());
    let g3 = Grammar::delimited_with(g1, false, Some(Grammar::reference("CommaSegment")), g2, true);
    let g4 = g3.optional();
    let g5: Vec<Grammar> = vec![g4];
    assert(views(g5@) =~~= seq![GrammarView::Optional { grammar: Box::new(GrammarView::Delimited { elements: seq![GrammarView::Ref { name: "BaseExpressionElementGrammar"@, optional: false }], allow_trailing: false, delimiter: Some(Box::new(GrammarView::Ref { name: "CommaSegment"@, optional: false })), terminators: seq![], allow_gaps: true }) }]);
    let g6 = Grammar::bracketed_with(g5, "square");
    let g7 = g6.in_mode(ParseMode::Greedy);
    Element::Node { kind: "array_literal", grammar: g7 }
}

/// The ANSI element `TypedArrayLiteralSegment`.
pub open spec fn typed_array_literal_segment_element() -> ElementView {
    ElementView::Node { kind: "typed_array_literal"@, grammar: GrammarView::Sequence { elements: seq![GrammarView::Ref { name: "ArrayTypeSegment"@, optional: false }, GrammarView::Ref { name: "ArrayLiteralSegment"@, optional: false }], terminators: seq![], parse_mode: ParseMode::Strict } }
}

fn build_typed_array_literal_segment() -> (e: Element)
    ensures
        e@ =~~= typed_array_literal_segment_element(),
{
    let g1: Vec<Grammar> = vec![Grammar::reference("ArrayTypeSegment"), Grammar::reference("ArrayLiteralSegment")];
    assert(views(g1@) =~~= seq![GrammarView::Ref { name: "ArrayTypeSegment"@, optional: false }, GrammarView::Ref { name: "ArrayLiteralSegment"@, optional: false }]);
    let g2: Vec<Grammar> = Vec::new();
    assert(views(g2@) =~= Seq::<GrammarView>::empty());
    let g3 = Grammar::sequence_with(g1, g2, ParseMode::Strict);
    Element::Node { kind: "typed_array_literal", grammar: g3 }
}

/// The ANSI element `StructTypeSegment`.
pub open spec fn struct_type_segment_element() -> ElementView {
    ElementView::Node { kind: "struct_type"@, grammar: GrammarView::Nothing }
}

fn build_struct_type_segment() -> (e: Element)
    ensures
        e@ =~~= struct_type_segment_element(),
{
    Element::Node { kind: "struct_type", grammar: Grammar::nothing() }
}

/// The ANSI element `StructLiteralSegment`.
pub open spec fn struct_literal_segment_element() -> ElementView {
    ElementView::Node { kind: "struct_literal"@, grammar: GrammarView::Bracketed { elements: seq![GrammarView::Delimited { elements: seq![GrammarView::Sequence { elements: seq![GrammarView::Ref { name: "BaseExpressionElementGrammar"@, optional: false }, GrammarView::Ref { name: "AliasExpressionSegment"@, optional: true }], terminators: seq![], parse_mode: ParseMode::Strict }], allow_trailing: false, delimiter: None, terminators: seq![], allow_gaps: true }], bracket_type: "round"@ } }
}

fn build_struct_literal_segment() -> (e: Element)
    ensures
        e@ =~~= struct_literal_segment_element(),
{
    let g1: Vec<Grammar> = vec![Grammar::reference("BaseExpressionElementGrammar"), Grammar::optional_reference("AliasExpressionSegment")];
    assert(views(g1@) =~~= seq![GrammarView::Ref { name: "BaseExpressionElementGrammar"@, optional: false }, GrammarView::Ref { name: "AliasExpressionSegment"@, optional: true }]);
    let g2: Vec<Grammar> = Vec::new();
    assert(views(g2@) =~= Seq::<GrammarView>::empty());
    let g3 = Grammar::sequence_with(g1, g2, ParseMode::Strict);
    let g4: Vec<Grammar> = vec![g3];
    assert(views(g4@) =~~= seq![GrammarView::Sequence { elements: seq![GrammarView::Ref { name: "BaseExpressionElementGrammar"@, optional: false }, GrammarView::Ref { name: "AliasExpressionSegment"@, optional: true }], terminators: seq![], parse_mode: ParseMode::Strict }]);
    let g5: Vec<Grammar> = Vec::new();
    assert(views(g5@) =~= Seq::<GrammarView>::empty());
    let g6 = Grammar::delimited_with(g4, false, None, g5, true);
    let g7: Vec<Grammar> = vec![g6];
    assert(views(g7@) =~~= seq![GrammarView::Delimited { elements: seq![GrammarView::Sequence { elements: seq![GrammarView::Ref { name: "BaseExpressionElementGrammar"@, optional: false }, GrammarView::Ref { name: "AliasExpressionSegment"@, optional: true }], terminators: seq![], parse_mode: ParseMode::Strict }], allow_trailing: false, delimiter: None, terminators: seq![], allow_gaps: true }]);
    let g8 = Grammar::bracketed_with(g7, "round");
    Element::Node { kind: "struct_literal", grammar: g8 }
}

/// The ANSI element `TypedStructLiteralSegment`.
pub open spec fn typed_struct_literal_segment_element() -> ElementView {
    ElementView::Node { kind: "typed_struct_literal"@, grammar: GrammarView::Sequence { elements: seq![GrammarView::Ref { name: "StructTypeSegment"@, optional: false }, GrammarView::Ref { name: "StructLiteralSegment"@, optional: false }], terminators: seq![], parse_mode: ParseMode::Strict } }
}

fn build_typed_struct_literal_segment() -> (e: Element)
    ensures
        e@ =~~= typed_struct_literal_segment_element(),
{
    let g1: Vec<Grammar> = vec![Grammar::reference("StructTypeSegment"), Grammar::reference("StructLiteralSegment")];
    assert(views(g1@) =~~= seq![GrammarView::Ref { name: "StructTypeSegment"@, optional: false }, GrammarView::Ref { name: "StructLiteralSegment"@, optional: false }]);
    let g2: Vec<Grammar> = Vec::new();
    assert(views(g2@) =~= Seq::<GrammarView>::empty());
    let g3 = Grammar::sequence_with(g1, g2, ParseMode::Strict);
    Element::Node { kind: "typed_struct_literal", grammar: g3 }
}

/// The ANSI element `IntervalExpressionSegment`.
pub open spec fn interval_expression_segment_element() -> ElementView {
    ElementView::Node { kind: "interval_expression"@, grammar: GrammarView::Sequence { elements: seq![GrammarView::Keyword { word: "INTERVAL"@ }, GrammarView::OneOf { elements: seq![GrammarView::Sequence { elements: seq![GrammarView::Ref { name: "NumericLiteralSegment"@, optional: false }, GrammarView::OneOf { elements: seq![GrammarView::Ref { name: "QuotedLiteralSegment"@, optional: false }, GrammarView::Ref { name: "DatetimeUnitSegment"@, optional: false }], terminators: seq![] }], terminators: seq![], parse_mode: ParseMode::Strict }, GrammarView::Ref { name: "QuotedLiteralSegment"@, optional: false }], terminators: seq![] }], terminators: seq![], parse_mode: ParseMode::Strict } }
}

fn build_interval_expression_segment() -> (e: Element)
    ensures
        e@ =~~= interval_expression_segment_element(),
{
    let g1: Vec<Grammar> = vec![Grammar::reference("QuotedLiteralSegment"), Grammar::reference("DatetimeUnitSegment")];
    assert(views(g1@) =~~= seq![GrammarView::Ref { name: "QuotedLiteralSegment"@, optional: false }, GrammarView::Ref { name: "DatetimeUnitSegment"@, optional: false }]);
    let g2: Vec<Grammar> = Vec::new();
    assert(views(g2@) =~= Seq::<GrammarView>::empty());
    let g3 = Grammar::one_of_with(g1, g2);
    let g4: Vec<Grammar> = vec![Grammar::reference("NumericLiteralSegment"), g3];
    assert(views(g4@) =~~= seq![GrammarView::Ref { name: "NumericLiteralSegment"@, optional: false }, GrammarView::OneOf { elements: seq![GrammarView::Ref { name: "QuotedLiteralSegment"@, optional: false }, GrammarView::Ref { name: "DatetimeUnitSegment"@, optional: false }], terminators: seq![] }]);
    let g5: Vec<Grammar> = Vec::new();
    assert(views(g5@) =~= Seq::<GrammarView>::empty());
    let g6 = Grammar::sequence_with(g4, g5, ParseMode::Strict);
    let g7: Vec<Grammar> = vec![g6, Grammar::reference("QuotedLiteralSegment")];
    assert(views(g7@) =~~= seq![GrammarView::Sequence { elements: seq![GrammarView::Ref { name: "NumericLiteralSegment"@, optional: false }, GrammarView::OneOf { elements: seq![GrammarView::Ref { name: "QuotedLiteralSegment"@, optional: false }, GrammarView::Ref { name: "DatetimeUnitSegment"@, optional: false }], terminators: seq![] }], terminators: seq![], parse_mode: ParseMode::Strict }, GrammarView::Ref { name: "QuotedLiteralSegment"@, optional: false }]);
    let g8: Vec<Grammar> = Vec::new();
    assert(views(g8@) =~= Seq::<GrammarView>::empty());
    let g9 = Grammar::one_of_with(g7, g8);
    let g10: Vec<Grammar> = vec![Grammar::keyword("INTERVAL"), g9];
    assert(views(g10@) =~~= seq![GrammarView::Keyword { word: "INTERVAL"@ }, GrammarView::OneOf { elements: seq![GrammarView::Sequence { elements: seq![GrammarView::Ref { name: "NumericLiteralSegment"@, optional: false }, GrammarView::OneOf { elements: seq![GrammarView::Ref { name: "QuotedLiteralSegment"@, optional: false }, GrammarView::Ref { name: "DatetimeUnitSegment"@, optional: false }], terminators: seq![] }], terminators: seq![], parse_mode: ParseMode::Strict }, GrammarView::Ref { name: "QuotedLiteralSegment"@, optional: false }], terminators: seq![] }]);
    let g11: Vec<Grammar> = Vec::new();
    assert(views(g11@) =~= Seq::<GrammarView>::empty());
    let g12 = Grammar::sequence_with(g10, g11, ParseMode::Strict);
    Element::Node { kind: "interval_expression", grammar: g12 }
}

/// The ANSI element `ArrayTypeSegment`.
pub open spec fn array_type_segment_element() -> ElementView {
    ElementView::Node { kind: "array_type"@, grammar: GrammarView::Nothing }
}

fn build_array_type_segment() -> (e: Element)
    ensures
        e@ =~~= array_type_segment_element(),
{
    Element::Node { kind: "array_type", grammar: Grammar::nothing() }
}

/// The ANSI element `SizedArrayTypeSegment`.
pub open spec fn sized_array_type_segment_element() -> ElementView {
    ElementView::Node { kind: "sized_array_type"@, grammar: GrammarView::Sequence { elements: seq![GrammarView::Ref { name: "ArrayTypeSegment"@, optional: false }, GrammarView::Ref { name: "ArrayAccessorSegment"@, optional: false }], terminators: seq![], parse_mode: ParseMode::Strict } }
}

fn build_sized_array_type_segment() -> (e: Element)
    ensures
        e@ =~~= sized_array_type_segment_element(),
{
    let g1: Vec<Grammar> = vec![Grammar::reference("ArrayTypeSegment"), Grammar::reference("ArrayAccessorSegment")];
    assert(views(g1@) =~~= seq![GrammarView::Ref { name: "ArrayTypeSegment"@, optional: false }, GrammarView::Ref { name: "ArrayAccessorSegment"@, optional: false }]);
    let g2: Vec<Grammar> = Vec::new();
    assert(views(g2@) =~= Seq::<GrammarView>::empty());
    let g3 = Grammar::sequence_with(g1, g2, ParseMode::Strict);
    Element::Node { kind: "sized_array_type", grammar: g3 }
}

/// The ANSI element `UnorderedSelectStatementSegment`.
pub open spec fn unordered_select_statement_segment_element() -> ElementView {
    ElementView::Node { kind: "select_statement"@, grammar: GrammarView::Sequence { elements: seq![GrammarView::Ref { name: "SelectClauseSegment"@, optional: false }, GrammarView::Dedent, GrammarView::Ref { name: "FromClauseSegment"@, optional: true }, GrammarView::Ref { name: "WhereClauseSegment"@, optional: true }, GrammarView::Ref { name: "GroupByClauseSegment"@, optional: true }, GrammarView::Ref { name: "HavingClauseSegment"@, optional: true }, GrammarView::Ref { name: "OverlapsClauseSegment"@, optional: true }, GrammarView::Ref { name: "NamedWindowSegment"@, optional: true }], terminators: seq![GrammarView::Ref { name: "SetOperatorSegment"@, optional: false }, GrammarView::Ref { name: "WithNoSchemaBindingClauseSegment"@, optional: false }, GrammarView::Ref { name: "WithDataClauseSegment"@, optional: false }, GrammarView::Ref { name: "OrderByClauseSegment"@, optional: false }, GrammarView::Ref { name: "LimitClauseSegment"@, optional: false }], parse_mode: ParseMode::GreedyOnceStarted } }
}

fn build_unordered_select_statement_segment() -> (e: Element)
    ensures
        e@ =~~= unordered_select_statement_segment_element(),
{
    let g1: Vec<Grammar> = vec![Grammar::reference("SelectClauseSegment"), Grammar::dedent(), Grammar::optional_reference("FromClauseSegment"), Grammar::optional_reference("WhereClauseSegment"), Grammar::optional_reference("GroupByClauseSegment"), Grammar::optional_reference("HavingClauseSegment"), Grammar::optional_reference("OverlapsClauseSegment"), Grammar::optional_reference("NamedWindowSegment")];
    assert(views(g1@) =~~= seq![GrammarView::Ref { name: "SelectClauseSegment"@, optional: false }, GrammarView::Dedent, GrammarView::Ref { name: "FromClauseSegment"@, optional: true }, GrammarView::Ref { name: "WhereClauseSegment"@, optional: true }, GrammarView::Ref { name: "GroupByClauseSegment"@, optional: true }, GrammarView::Ref { name: "HavingClauseSegment"@, optional: true }, GrammarView::Ref { name: "OverlapsClauseSegment"@, optional: true }, GrammarView::Ref { name: "NamedWindowSegment"@, optional: true }]);
    let g2: Vec<Grammar> = vec![Grammar::reference("SetOperatorSegment"), Grammar::reference("WithNoSchemaBindingClauseSegment"), Grammar::reference("WithDataClauseSegment"), Grammar::reference("OrderByClauseSegment"), Grammar::reference("LimitClauseSegment")];
    assert(views(g2@) =~~= seq![GrammarView::Ref { name: "SetOperatorSegment"@, optional: false }, GrammarView::Ref { name: "WithNoSchemaBindingClauseSegment"@, optional: false }, GrammarView::Ref { name: "WithDataClauseSegment"@, optional: false }, GrammarView::Ref { name: "OrderByClauseSegment"@, optional: false }, GrammarView::Ref { name: "LimitClauseSegment"@, optional: false }]);
    let g3 = Grammar::sequence_with(g1, g2, ParseMode::GreedyOnceStarted);
    Element::Node { kind: "select_statement", grammar: g3 }
}

/// The ANSI element `OverlapsClauseSegment`.
pub open spec fn overlaps_clause_segment_element() -> ElementView {
    ElementView::Node { kind: "overlaps_clause"@, grammar: GrammarView::Sequence { elements: seq![GrammarView::Keyword { word: "OVERLAPS"@ }, GrammarView::OneOf { elements: seq![GrammarView::Bracketed { elements: seq![GrammarView::Ref { name: "DateTimeLiteralGrammar"@, optional: false }, GrammarView::Ref { name: "CommaSegment"@, optional: false }, GrammarView::Ref { name: "DateTimeLiteralGrammar"@, optional: false }], bracket_type: "round"@ }, GrammarView::Ref { name: "ColumnReferenceSegment"@, optional: false }], terminators: seq![] }], terminators: seq![], parse_mode: ParseMode::Strict } }
}

fn build_overlaps_clause_segment() -> (e: Element)
    ensures
        e@ =~~= overlaps_clause_segment_element(),
{
    let g1: Vec<Grammar> = vec![Grammar::reference("DateTimeLiteralGrammar"), Grammar::reference("CommaSegment"), Grammar::reference("DateTimeLiteralGrammar")];
    assert(views(g1@) =~~= seq![GrammarView::Ref { name: "DateTimeLiteralGrammar"@, optional: false }, GrammarView::Ref { name: "CommaSegment"@, optional: false }, GrammarView::Ref { name: "DateTimeLiteralGrammar"@, optional: false }]);
    let g2 = Grammar::bracketed_with(g1, "round");
    let g3: Vec<Grammar> = vec![g2, Grammar::reference("ColumnReferenceSegment")];
    assert(views(g3@) =~~= seq![GrammarView::Bracketed { elements: seq![GrammarView::Ref { name: "DateTimeLiteralGrammar"@, optional: false }, GrammarView::Ref { name: "CommaSegment"@, optional: false }, GrammarView::Ref { name: "DateTimeLiteralGrammar"@, optional: false }], bracket_type: "round"@ }, GrammarView::Ref { name: "ColumnReferenceSegment"@, optional: false }]);
    let g4: Vec<Grammar> = Vec::new();
    assert(views(g4@) =~= Seq::<GrammarView>::empty());
    let g5 = Grammar::one_of_with(g3, g4);
    let g6: Vec<Grammar> = vec![Grammar::keyword("OVERLAPS"), g5];
    assert(views(g6@) =~~= seq![GrammarView::Keyword { word: "OVERLAPS"@ }, GrammarView::OneOf { elements: seq![GrammarView::Bracketed { elements: seq![GrammarView::Ref { name: "DateTimeLiteralGrammar"@, optional: false }, GrammarView::Ref { name: "CommaSegment"@, optional: false }, GrammarView::Ref { name: "DateTimeLiteralGrammar"@, optional: false }], bracket_type: "round"@ }, GrammarView::Ref { name: "ColumnReferenceSegment"@, optional: false }], terminators: seq![] }]);
    let g7: Vec<Grammar> = Vec::new();
    assert(views(g7@) =~= Seq::<GrammarView>::empty());
    let g8 = Grammar::sequence_with(g6, g7, ParseMode::Strict);
    Element::Node { kind: "overlaps_clause", grammar: g8 }
}

/// The ANSI element `SelectClauseSegment`.
pub open spec fn select_clause_segment_element() -> ElementView {
    ElementView::Node { kind: "select_clause"@, grammar: GrammarView::Sequence { elements: seq![GrammarView::Keyword { word: "SELECT"@ }, GrammarView::Ref { name: "SelectClauseModifierSegment"@, optional: true }, GrammarView::Indent, GrammarView::Delimited { elements: seq![GrammarView::Ref { name: "SelectClauseElementSegment"@, optional: false }], allow_trailing: true, delimiter: None, terminators: seq![], allow_gaps: true }], terminators: seq![GrammarView::Ref { name: "SelectClauseTerminatorGrammar"@, optional: false }], parse_mode: ParseMode::GreedyOnceStarted } }
}

fn build_select_clause_segment() -> (e: Element)
    ensures
        e@ =~~= select_clause_segment_element(),
{
    let g1: Vec<Grammar> = vec![Grammar::reference("SelectClauseElementSegment")];
    assert(views(g1@) =~~= seq![GrammarView::Ref { name: "SelectClauseElementSegment"@, optional: false }]);
    let g2: Vec<Grammar> = Vec::new();
    assert(views(g2@) =~= Seq::<GrammarView>::empty());
    let g3 = Grammar::delimited_with(g1, true, None, g2, true);
    let g4: Vec<Grammar> = vec![Grammar::keyword("SELECT"), Grammar::optional_reference("SelectClauseModifierSegment"), Grammar::indent(), g3];
    assert(views(g4@) =~~= seq![GrammarView::Keyword { word: "SELECT"@ }, GrammarView::Ref { name: "SelectClauseModifierSegment"@, optional: true }, GrammarView::Indent, GrammarView::Delimited { elements: seq![GrammarView::Ref { name: "SelectClauseElementSegment"@, optional: false }], allow_trailing: true, delimiter: None, terminators: seq![], allow_gaps: true }]);
    let g5: Vec<Grammar> = vec![Grammar::reference("SelectClauseTerminatorGrammar")];
    assert(views(g5@) =~~= seq![GrammarView::Ref { name: "SelectClauseTerminatorGrammar"@, optional: false }]);
    let g6 = Grammar::sequence_with(g4, g5, ParseMode::GreedyOnceStarted);
    Element::Node { kind: "select_clause", grammar: g6 }
}

/// The ANSI element `StatementSegment`.
pub open spec fn statement_segment_element() -> ElementView {
    ElementView::Node { kind: "statement"@, grammar: GrammarView::OneOf { elements: seq![GrammarView::Ref { name: "SelectableGrammar"@, optional: false }, GrammarView::Ref { name: "MergeStatementSegment"@, optional: false }, GrammarView::Ref { name: "InsertStatementSegment"@, optional: false }, GrammarView::Ref { name: "TransactionStatementSegment"@, optional: false }, GrammarView::Ref { name: "DropTableStatementSegment"@, optional: false }, GrammarView::Ref { name: "DropViewStatementSegment"@, optional: false }, GrammarView::Ref { name: "CreateUserStatementSegment"@, optional: false }, GrammarView::Ref { name: "DropUserStatementSegment"@, optional: false }, GrammarView::Ref { name: "TruncateStatementSegment"@, optional: false }, GrammarView::Ref { name: "AccessStatementSegment"@, optional: false }, GrammarView::Ref { name: "CreateTableStatementSegment"@, optional: false }, GrammarView::Ref { name: "CreateRoleStatementSegment"@, optional: false }, GrammarView::Ref { name: "DropRoleStatementSegment"@, optional: false }, GrammarView::Ref { name: "AlterTableStatementSegment"@, optional: false }, GrammarView::Ref { name: "CreateSchemaStatementSegment"@, optional: false }, GrammarView::Ref { name: "SetSchemaStatementSegment"@, optional: false }, GrammarView::Ref { name: "DropSchemaStatementSegment"@, optional: false }, GrammarView::Ref { name: "DropTypeStatementSegment"@, optional: false }, GrammarView::Ref { name: "CreateDatabaseStatementSegment"@, optional: false }, GrammarView::Ref { name: "DropDatabaseStatementSegment"@, optional: false }, GrammarView::Ref { name: "CreateIndexStatementSegment"@, optional: false }, GrammarView::Ref { name: "DropIndexStatementSegment"@, optional: false }, GrammarView::Ref { name: "CreateViewStatementSegment"@, optional: false }, GrammarView::Ref { name: "DeleteStatementSegment"@, optional: false }, GrammarView::Ref { name: "UpdateStatementSegment"@, optional: false }, GrammarView::Ref { name: "CreateCastStatementSegment"@, optional: false }, GrammarView::Ref { name: "DropCastStatementSegment"@, optional: false }, GrammarView::Ref { name: "CreateFunctionStatementSegment"@, optional: false }, GrammarView::Ref { name: "DropFunctionStatementSegment"@, optional: false }, GrammarView::Ref { name: "CreateModelStatementSegment"@, optional: false }, GrammarView::Ref { name: "DropModelStatementSegment"@, optional: false }, GrammarView::Ref { name: "DescribeStatementSegment"@, optional: false }, GrammarView::Ref { name: "UseStatementSegment"@, optional: false }, GrammarView::Ref { name: "ExplainStatementSegment"@, optional: false }, GrammarView::Ref { name: "CreateSequenceStatementSegment"@, optional: false }, GrammarView::Ref { name: "AlterSequenceStatementSegment"@, optional: false }, GrammarView::Ref { name: "DropSequenceStatementSegment"@, optional: false }, GrammarView::Ref { name: "CreateTriggerStatementSegment"@, optional: false }, GrammarView::Ref { name: "DropTriggerStatementSegment"@, optional: false }], terminators: seq![GrammarView::Ref { name: "DelimiterGrammar"@, optional: false }] } }
}

fn build_statement_segment() -> (e: Element)
    ensures
        e@ =~~= statement_segment_element(),
{
    let g1: Vec<Grammar> = vec![Grammar::reference("SelectableGrammar"), Grammar::reference("MergeStatementSegment"), Grammar::reference("InsertStatementSegment"), Grammar::reference("TransactionStatementSegment"), Grammar::reference("DropTableStatementSegment"), Grammar::reference("DropViewStatementSegment"), Grammar::reference("CreateUserStatementSegment"), Grammar::reference("DropUserStatementSegment"), Grammar::reference("TruncateStatementSegment"), Grammar::reference("AccessStatementSegment"), Grammar::reference("CreateTableStatementSegment"), Grammar::reference("CreateRoleStatementSegment"), Grammar::reference("DropRoleStatementSegment"), Grammar::reference("AlterTableStatementSegment"), Grammar::reference("CreateSchemaStatementSegment"), Grammar::reference("SetSchemaStatementSegment"), Grammar::reference("DropSchemaStatementSegment"), Grammar::reference("DropTypeStatementSegment"), Grammar::reference("CreateDatabaseStatementSegment"), Grammar::reference("DropDatabaseStatementSegment"), Grammar::reference("CreateIndexStatementSegment"), Grammar::reference("DropIndexStatementSegment"), Grammar::reference("CreateViewStatementSegment"), Grammar::reference("DeleteStatementSegment"), Grammar::reference("UpdateStatementSegment"), Grammar::reference("CreateCastStatementSegment"), Grammar::reference("DropCastStatementSegment"), Grammar::reference("CreateFunctionStatementSegment"), Grammar::reference("DropFunctionStatementSegment"), Grammar::reference("CreateModelStatementSegment"), Grammar::reference("DropModelStatementSegment"), Grammar::reference("DescribeStatementSegment"), Grammar::reference("UseStatementSegment"), Grammar::reference("ExplainStatementSegment"), Grammar::reference("CreateSequenceStatementSegment"), Grammar::reference("AlterSequenceStatementSegment"), Grammar::reference("DropSequenceStatementSegment"), Grammar::reference("CreateTriggerStatementSegment"), Grammar::reference("DropTriggerStatementSegment")];
    assert(views(g1@) =~~= seq![GrammarView::Ref { name: "SelectableGrammar"@, optional: false }, GrammarView::Ref { name: "MergeStatementSegment"@, optional: false }, GrammarView::Ref { name: "InsertStatementSegment"@, optional: false }, GrammarView::Ref { name: "TransactionStatementSegment"@, optional: false }, GrammarView::Ref { name: "DropTableStatementSegment"@, optional: false }, GrammarView::Ref { name: "DropViewStatementSegment"@, optional: false }, GrammarView::Ref { name: "CreateUserStatementSegment"@, optional: false }, GrammarView::Ref { name: "DropUserStatementSegment"@, optional: false }, GrammarView::Ref { name: "TruncateStatementSegment"@, optional: false }, GrammarView::Ref { name: "AccessStatementSegment"@, optional: false }, GrammarView::Ref { name: "CreateTableStatementSegment"@, optional: false }, GrammarView::Ref { name: "CreateRoleStatementSegment"@, optional: false }, GrammarView::Ref { name: "DropRoleStatementSegment"@, optional: false }, GrammarView::Ref { name: "AlterTableStatementSegment"@, optional: false }, GrammarView::Ref { name: "CreateSchemaStatementSegment"@, optional: false }, GrammarView::Ref { name: "SetSchemaStatementSegment"@, optional: false }, GrammarView::Ref { name: "DropSchemaStatementSegment"@, optional: false }, GrammarView::Ref { name: "DropTypeStatementSegment"@, optional: false }, GrammarView::Ref { name: "CreateDatabaseStatementSegment"@, optional: false }, GrammarView::Ref { name: "DropDatabaseStatementSegment"@, optional: false }, GrammarView::Ref { name: "CreateIndexStatementSegment"@, optional: false }, GrammarView::Ref { name: "DropIndexStatementSegment"@, optional: false }, GrammarView::Ref { name: "CreateViewStatementSegment"@, optional: false }, GrammarView::Ref { name: "DeleteStatementSegment"@, optional: false }, GrammarView::Ref { name: "UpdateStatementSegment"@, optional: false }, GrammarView::Ref { name: "CreateCastStatementSegment"@, optional: false }, GrammarView::Ref { name: "DropCastStatementSegment"@, optional: false }, GrammarView::Ref { name: "CreateFunctionStatementSegment"@, optional: false }, GrammarView::Ref { name: "DropFunctionStatementSegment"@, optional: false }, GrammarView::Ref { name: "CreateModelStatementSegment"@, optional: false }, GrammarView::Ref { name: "DropModelStatementSegment"@, optional: false }, GrammarView::Ref { name: "DescribeStatementSegment"@, optional: false }, GrammarView::Ref { name: "UseStatementSegment"@, optional: false }, GrammarView::Ref { name: "ExplainStatementSegment"@, optional: false }, GrammarView::Ref { name: "CreateSequenceStatementSegment"@, optional: false }, GrammarView::Ref { name: "AlterSequenceStatementSegment"@, optional: false }, GrammarView::Ref { name: "DropSequenceStatementSegment"@, optional: false }, GrammarView::Ref { name: "CreateTriggerStatementSegment"@, optional: false }, GrammarView::Ref { name: "DropTriggerStatementSegment"@, optional: false }]);
    let g2: Vec<Grammar> = vec![Grammar::reference("DelimiterGrammar")];
    assert(views(g2@) =~~= seq![GrammarView::Ref { name: "DelimiterGrammar"@, optional: false }]);
    let g3 = Grammar::one_of_with(g1, g2);
    Element::Node { kind: "statement", grammar: g3 }
}

/// The ANSI element `WithNoSchemaBindingClauseSegment`.
pub open spec fn with_no_schema_binding_clause_segment_element() -> ElementView {
    ElementView::Node { kind: "with_no_schema_binding_clause"@, grammar: GrammarView::Sequence { elements: seq![GrammarView::Keyword { word: "WITH"@ }, GrammarView::Keyword { word: "NO"@ }, GrammarView::Keyword { word: "SCHEMA"@ }, GrammarView::Keyword { word: "BINDING"@ }], terminators: seq![], parse_mode: ParseMode::Strict } }
}

fn build_with_no_schema_binding_clause_segment() -> (e: Element)
    ensures
        e@ =~~= with_no_schema_binding_clause_segment_element(),
{
    let g1: Vec<Grammar> = vec![Grammar::keyword("WITH"), Grammar::keyword("NO"), Grammar::keyword("SCHEMA"), Grammar::keyword("BINDING")];
    assert(views(g1@) =~~= seq![GrammarView::Keyword { word: "WITH"@ }, GrammarView::Keyword { word: "NO"@ }, GrammarView::Keyword { word: "SCHEMA"@ }, GrammarView::Keyword { word: "BINDING"@ }]);
    let g2: Vec<Grammar> = Vec::new();
    assert(views(g2@) =~= Seq::<GrammarView>::empty());
    let g3 = Grammar::sequence_with(g1, g2, ParseMode::Strict);
    Element::Node { kind: "with_no_schema_binding_clause", grammar: g3 }
}

/// The ANSI element `WithDataClauseSegment`.
pub open spec fn with_data_clause_segment_element() -> ElementView {
    ElementView::Node { kind: "with_data_clause"@, grammar: GrammarView::Sequence { elements: seq![GrammarView::Keyword { word: "WITH"@ }, GrammarView::Optional { grammar: Box::new(GrammarView::Sequence { elements: seq![GrammarView::Keyword { word: "NO"@ }], terminators: seq![], parse_mode: ParseMode::Strict }) }, GrammarView::Keyword { word: "DATA"@ }], terminators: seq![], parse_mode: ParseMode::Strict } }
}

fn build_with_data_clause_segment() -> (e: Element)
    ensures
        e@ =~~= with_data_clause_segment_element(),
{
    let g1: Vec<Grammar> = vec![Grammar::keyword("NO")];
    assert(views(g1@) =~~= seq![GrammarView::Keyword { word: "NO"@ }]);
    let g2: Vec<Grammar> = Vec::new();
    assert(views(g2@) =~= Seq::<GrammarView>::empty());
    let g3 = Grammar::sequence_with(g1, g2, ParseMode::Strict);
    let g4 = g3.optional();
    let g5: Vec<Grammar> = vec![Grammar::keyword("WITH"), g4, Grammar::keyword("DATA")];
    assert(views(g5@) =~~= seq![GrammarView::Keyword { word: "WITH"@ }, GrammarView::Optional { grammar: Box::new(GrammarView::Sequence { elements: seq![GrammarView::Keyword { word: "NO"@ }], terminators: seq![], parse_mode: ParseMode::Strict }) }, GrammarView::Keyword { word: "DATA"@ }]);
    let g6: Vec<Grammar> = Vec::new();
    assert(views(g6@) =~= Seq::<GrammarView>::empty());
    let g7 = Grammar::sequence_with(g5, g6, ParseMode::Strict);
    Element::Node { kind: "with_data_clause", grammar: g7 }
}

/// The ANSI element `SetExpressionSegment`.
pub open spec fn set_expression_segment_element() -> ElementView {
    ElementView::Node { kind: "set_expression"@, grammar: GrammarView::Sequence { elements: seq![GrammarView::Ref { name: "NonSetSelectableGrammar"@, optional: false }, GrammarView::AnyNumberOf { elements: seq![GrammarView::Sequence { elements: seq![GrammarView::Ref { name: "SetOperatorSegment"@, optional: false }, GrammarView::Ref { name: "NonSetSelectableGrammar"@, optional: false }], terminators: seq![], parse_mode: ParseMode::Strict }], terminators: seq![], min_times: 1, max_times: None }, GrammarView::Ref { name: "OrderByClauseSegment"@, optional: true }, GrammarView::Ref { name: "LimitClauseSegment"@, optional: true }, GrammarView::Ref { name: "NamedWindowSegment"@, optional: true }], terminators: seq![], parse_mode: ParseMode::Strict } }
}

fn build_set_expression_segment() -> (e: Element)
    ensures
        e@ =~~= set_expression_segment_element(),
{
    let g1: Vec<Grammar> = vec![Grammar::reference("SetOperatorSegment"), Grammar::reference("NonSetSelectableGrammar")];
    assert(views(g1@) =~~= seq![GrammarView::Ref { name: "SetOperatorSegment"@, optional: false }, GrammarView::Ref { name: "NonSetSelectableGrammar"@, optional: false }]);
    let g2: Vec<Grammar> = Vec::new();
    assert(views(g2@) =~= Seq::<GrammarView>::empty());
    let g3 = Grammar::sequence_with(g1, g2, ParseMode::Strict);
    let g4: Vec<Grammar> = vec![g3];
    assert(views(g4@) =~~= seq![GrammarView::Sequence { elements: seq![GrammarView::Ref { name: "SetOperatorSegment"@, optional: false }, GrammarView::Ref { name: "NonSetSelectableGrammar"@, optional: false }], terminators: seq![], parse_mode: ParseMode::Strict }]);
    let g5: Vec<Grammar> = Vec::new();
    assert(views(g5@) =~= Seq::<GrammarView>::empty());
    let g6 = Grammar::any_number_of_with(g4, g5, 1, None);
    let g7: Vec<Grammar> = vec![Grammar::reference("NonSetSelectableGrammar"), g6, Grammar::optional_reference("OrderByClauseSegment"), Grammar::optional_reference("LimitClauseSegment"), Grammar::optional_reference("NamedWindowSegment")];
    assert(views(g7@) =~~= seq![GrammarView::Ref { name: "NonSetSelectableGrammar"@, optional: false }, GrammarView::AnyNumberOf { elements: seq![GrammarView::Sequence { elements: seq![GrammarView::Ref { name: "SetOperatorSegment"@, optional: false }, GrammarView::Ref { name: "NonSetSelectableGrammar"@, optional: false }], terminators: seq![], parse_mode: ParseMode::Strict }], terminators: seq![], min_times: 1, max_times: None }, GrammarView::Ref { name: "OrderByClauseSegment"@, optional: true }, GrammarView::Ref { name: "LimitClauseSegment"@, optional: true }, GrammarView::Ref { name: "NamedWindowSegment"@, optional: true }]);
    let g8: Vec<Grammar> = Vec::new();
    assert(views(g8@) =~= Seq::<GrammarView>::empty());
    let g9 = Grammar::sequence_with(g7, g8, ParseMode::Strict);
    Element::Node { kind: "set_expression", grammar: g9 }
}

/// The ANSI element `FromClauseSegment`.
pub open spec fn from_clause_segment_element() -> ElementView {
    ElementView::Node { kind: "from_clause"@, grammar: GrammarView::Sequence { elements: seq![GrammarView::Keyword { word: "FROM"@ }, GrammarView::Delimited { elements: seq![GrammarView::Ref { name: "FromExpressionSegment"@, optional: false }], allow_trailing: false, delimiter: None, terminators: seq![], allow_gaps: true }], terminators: seq![], parse_mode: ParseMode::Strict } }
}

fn build_from_clause_segment() -> (e: Element)
    ensures
        e@ =~~= from_clause_segment_element(),
{
    let g1: Vec<Grammar> = vec![Grammar::reference("FromExpressionSegment")];
    assert(views(g1@) =~~= seq![GrammarView::Ref { name: "FromExpressionSegment"@, optional: false }]);
    let g2: Vec<Grammar> = Vec::new();
    assert(views(g2@) =~= Seq::<GrammarView>::empty());
    let g3 = Grammar::delimited_with(g1, false, None, g2, true);
    let g4: Vec<Grammar> = vec![Grammar::keyword("FROM"), g3];
    assert(views(g4@) =~~= seq![GrammarView::Keyword { word: "FROM"@ }, GrammarView::Delimited { elements: seq![GrammarView::Ref { name: "FromExpressionSegment"@, optional: false }], allow_trailing: false, delimiter: None, terminators: seq![], allow_gaps: true }]);
    let g5: Vec<Grammar> = Vec::new();
    assert(views(g5@) =~= Seq::<GrammarView>::empty());
    let g6 = Grammar::sequence_with(g4, g5, ParseMode::Strict);
    Element::Node { kind: "from_clause", grammar: g6 }
}

/// The ANSI element `EmptyStructLiteralBracketsSegment`.
pub open spec fn empty_struct_literal_brackets_segment_element() -> ElementView {
    ElementView::Node { kind: "empty_struct_literal_brackets"@, grammar: GrammarView::Bracketed { elements: seq![], bracket_type: "round"@ } }
}

fn build_empty_struct_literal_brackets_segment() -> (e: Element)
    ensures
        e@ =~~= empty_struct_literal_brackets_segment_element(),
{
    let g1: Vec<Grammar> = Vec::new();
    assert(views(g1@) =~= Seq::<GrammarView>::empty());
    let g2 = Grammar::bracketed_with(g1, "round");
    Element::Node { kind: "empty_struct_literal_brackets", grammar: g2 }
}

/// The ANSI element `WildcardExpressionSegment`.
pub open spec fn wildcard_expression_segment_element() -> ElementView {
    ElementView::Node { kind: "wildcard_expression"@, grammar: GrammarView::Sequence { elements: seq![GrammarView::Ref { name: "WildcardIdentifierSegment"@, optional: false }], terminators: seq![], parse_mode: ParseMode::Strict } }
}

fn build_wildcard_expression_segment() -> (e: Element)
    ensures
        e@ =~~= wildcard_expression_segment_element(),
{
    let g1: Vec<Grammar> = vec![Grammar::reference("WildcardIdentifierSegment")];
    assert(views(g1@) =~~= seq![GrammarView::Ref { name: "WildcardIdentifierSegment"@, optional: false }]);
    let g2: Vec<Grammar> = Vec::new();
    assert(views(g2@) =~= Seq::<GrammarView>::empty());
    let g3 = Grammar::sequence_with(g1, g2, ParseMode::Strict);
    Element::Node { kind: "wildcard_expression", grammar: g3 }
}

/// The ANSI element `OrderByClauseSegment`.
pub open spec fn order_by_clause_segment_element() -> ElementView {
    ElementView::Node { kind: "orderby_clause"@, grammar: GrammarView::Sequence { elements: seq![GrammarView::Keyword { word: "ORDER"@ }, GrammarView::Keyword { word: "BY"@ }, GrammarView::Indent, GrammarView::Delimited { elements: seq![GrammarView::Sequence { elements: seq![GrammarView::OneOf { elements: seq![GrammarView::Ref { name: "ColumnReferenceSegment"@, optional: false }, GrammarView::Ref { name: "NumericLiteralSegment"@, optional: false }, GrammarView::Ref { name: "ExpressionSegment"@, optional: false }], terminators: seq![] }, GrammarView::Optional { grammar: Box::new(GrammarView::OneOf { elements: seq![GrammarView::Keyword { word: "ASC"@ }, GrammarView::Keyword { word: "DESC"@ }], terminators: seq![] }) }, GrammarView::Optional { grammar: Box::new(GrammarView::Sequence { elements: seq![GrammarView::Keyword { word: "NULLS"@ }, GrammarView::OneOf { elements: seq![GrammarView::Keyword { word: "FIRST"@ }, GrammarView::Keyword { word: "LAST"@ }], terminators: seq![] }], terminators: seq![], parse_mode: ParseMode::Strict }) }], terminators: seq![], parse_mode: ParseMode::Strict }], allow_trailing: false, delimiter: None, terminators: seq![GrammarView::Keyword { word: "LIMIT"@ }, GrammarView::Ref { name: "FrameClauseUnitGrammar"@, optional: false }], allow_gaps: true }, GrammarView::Dedent], terminators: seq![], parse_mode: ParseMode::Strict } }
}

fn build_order_by_clause_segment() -> (e: Element)
    ensures
        e@ =~~= order_by_clause_segment_element(),
{
    let g1: Vec<Grammar> = vec![Grammar::reference("ColumnReferenceSegment"), Grammar::reference("NumericLiteralSegment"), Grammar::reference("ExpressionSegment")];
    assert(views(g1@) =~~= seq![GrammarView::Ref { name: "ColumnReferenceSegment"@, optional: false }, GrammarView::Ref { name: "NumericLiteralSegment"@, optional: false }, GrammarView::Ref { name: "ExpressionSegment"@, optional: false }]);
    let g2: Vec<Grammar> = Vec::new();
    assert(views(g2@) =~= Seq::<GrammarView>::empty());
    let g3 = Grammar::one_of_with(g1, g2);
    let g4: Vec<Grammar> = vec![Grammar::keyword("ASC"), Grammar::keyword("DESC")];
    assert(views(g4@) =~~= seq![GrammarView::Keyword { word: "ASC"@ }, GrammarView::Keyword { word: "DESC"@ }]);
    let g5: Vec<Grammar> = Vec::new();
    assert(views(g5@) =~= Seq::<GrammarView>::empty());
    let g6 = Grammar::one_of_with(g4, g5);
    let g7 = g6.optional();
    let g8: Vec<Grammar> = vec![Grammar::keyword("FIRST"), Grammar::keyword("LAST")];
    assert(views(g8@) =~~= seq![GrammarView::Keyword { word: "FIRST"@ }, GrammarView::Keyword { word: "LAST"@ }]);
    let g9: Vec<Grammar> = Vec::new();
    assert(views(g9@) =~= Seq::<GrammarView>::empty());
    let g10 = Grammar::one_of_with(g8, g9);
    let g11: Vec<Grammar> = vec![Grammar::keyword("NULLS"), g10];
    assert(views(g11@) =~~= seq![GrammarView::Keyword { word: "NULLS"@ }, GrammarView::OneOf { elements: seq![GrammarView::Keyword { word: "FIRST"@ }, GrammarView::Keyword { word: "LAST"@ }], terminators: seq![] }]);
    let g12: Vec<Grammar> = Vec::new();
    assert(views(g12@) =~= Seq::<GrammarView>::empty());
    let g13 = Grammar::sequence_with(g11, g12, ParseMode::Strict);
    let g14 = g13.optional();
    let g15: Vec<Grammar> = vec![g3, g7, g14];
    assert(views(g15@) =~~= seq![GrammarView::OneOf { elements: seq![GrammarView::Ref { name: "ColumnReferenceSegment"@, optional: false }, GrammarView::Ref { name: "NumericLiteralSegment"@, optional: false }, GrammarView::Ref { name: "ExpressionSegment"@, optional: false }], terminators: seq![] }, GrammarView::Optional { grammar: Box::new(GrammarView::OneOf { elements: seq![GrammarView::Keyword { word: "ASC"@ }, GrammarView::Keyword { word: "DESC"@ }], terminators: seq![] }) }, GrammarView::Optional { grammar: Box::new(GrammarView::Sequence { elements: seq![GrammarView::Keyword { word: "NULLS"@ }, GrammarView::OneOf { elements: seq![GrammarView::Keyword { word: "FIRST"@ }, GrammarView::Keyword { word: "LAST"@ }], terminators: seq![] }], terminators: seq![], parse_mode: ParseMode::Strict }) }]);
    let g16: Vec<Grammar> = Vec::new();
    assert(views(g16@) =~= Seq::<GrammarView>::empty());
    let g17 = Grammar::sequence_with(g15, g16, ParseMode::Strict);
    let g18: Vec<Grammar> = vec![g17];
    assert(views(g18@) =~~= seq![GrammarView::Sequence { elements: seq![GrammarView::OneOf { elements: seq![GrammarView::Ref { name: "ColumnReferenceSegment"@, optional: false }, GrammarView::Ref { name: "NumericLiteralSegment"@, optional: false }, GrammarView::Ref { name: "ExpressionSegment"@, optional: false }], terminators: seq![] }, GrammarView::Optional { grammar: Box::new(GrammarView::OneOf { elements: seq![GrammarView::Keyword { word: "ASC"@ }, GrammarView::Keyword { word: "DESC"@ }], terminators: seq![] }) }, GrammarView::Optional { grammar: Box::new(GrammarView::Sequence { elements: seq![GrammarView::Keyword { word: "NULLS"@ }, GrammarView::OneOf { elements: seq![GrammarView::Keyword { word: "FIRST"@ }, GrammarView::Keyword { word: "LAST"@ }], terminators: seq![] }], terminators: seq![], parse_mode: ParseMode::Strict }) }], terminators: seq![], parse_mode: ParseMode::Strict }]);
    let g19: Vec<Grammar> = vec![Grammar::keyword("LIMIT"), Grammar::reference("FrameClauseUnitGrammar")];
    assert(views(g19@) =~~= seq![GrammarView::Keyword { word: "LIMIT"@ }, GrammarView::Ref { name: "FrameClauseUnitGrammar"@, optional: false }]);
    let g20 = Grammar::delimited_with(g18, false, None, g19, true);
    let g21: Vec<Grammar> = vec![Grammar::keyword("ORDER"), Grammar::keyword("BY"), Grammar::indent(), g20, Grammar::dedent()];
    assert(views(g21@) =~~= seq![GrammarView::Keyword { word: "ORDER"@ }, GrammarView::Keyword { word: "BY"@ }, GrammarView::Indent, GrammarView::Delimited { elements: seq![GrammarView::Sequence { elements: seq![GrammarView::OneOf { elements: seq![GrammarView::Ref { name: "ColumnReferenceSegment"@, optional: false }, GrammarView::Ref { name: "NumericLiteralSegment"@, optional: false }, GrammarView::Ref { name: "ExpressionSegment"@, optional: false }], terminators: seq![] }, GrammarView::Optional { grammar: Box::new(GrammarView::OneOf { elements: seq![GrammarView::Keyword { word: "ASC"@ }, GrammarView::Keyword { word: "DESC"@ }], terminators: seq![] }) }, GrammarView::Optional { grammar: Box::new(GrammarView::Sequence { elements: seq![GrammarView::Keyword { word: "NULLS"@ }, GrammarView::OneOf { elements: seq![GrammarView::Keyword { word: "FIRST"@ }, GrammarView::Keyword { word: "LAST"@ }], terminators: seq![] }], terminators: seq![], parse_mode: ParseMode::Strict }) }], terminators: seq![], parse_mode: ParseMode::Strict }], allow_trailing: false, delimiter: None, terminators: seq![GrammarView::Keyword { word: "LIMIT"@ }, GrammarView::Ref { name: "FrameClauseUnitGrammar"@, optional: false }], allow_gaps: true }, GrammarView::Dedent]);
    let g22: Vec<Grammar> = Vec::new();
    assert(views(g22@) =~= Seq::<GrammarView>::empty());
    let g23 = Grammar::sequence_with(g21, g22, ParseMode::Strict);
    Element::Node { kind: "orderby_clause", grammar: g23 }
}

/// The ANSI element `TruncateStatementSegment`.
pub open spec fn truncate_statement_segment_element() -> ElementView {
    ElementView::Node { kind: "truncate_statement"@, grammar: GrammarView::Sequence { elements: seq![GrammarView::Keyword { word: "TRUNCATE"@ }, GrammarView::Optional { grammar: Box::new(GrammarView::Keyword { word: "TABLE"@ }) }, GrammarView::Ref { name: "TableReferenceSegment"@, optional: false }], terminators: seq![], parse_mode: ParseMode::Strict } }
}

fn build_truncate_statement_segment() -> (e: Element)
    ensures
        e@ =~~= truncate_statement_segment_element(),
{
    let g1 = Grammar::keyword("TABLE").optional();
    let g2: Vec<Grammar> = vec![Grammar::keyword("TRUNCATE"), g1, Grammar::reference("TableReferenceSegment")];
    assert(views(g2@) =~~= seq![GrammarView::Keyword { word: "TRUNCATE"@ }, GrammarView::Optional { grammar: Box::new(GrammarView::Keyword { word: "TABLE"@ }) }, GrammarView::Ref { name: "TableReferenceSegment"@, optional: false }]);
    let g3: Vec<Grammar> = Vec::new();
    assert(views(g3@) =~= Seq::<GrammarView>::empty());
    let g4 = Grammar::sequence_with(g2, g3, ParseMode::Strict);
    Element::Node { kind: "truncate_statement", grammar: g4 }
}

/// The ANSI element `FromExpressionSegment`.
pub open spec fn from_expression_segment_element() -> ElementView {
    ElementView::Node { kind: "from_expression"@, grammar: GrammarView::OneOf { elements: seq![GrammarView::Bracketed { elements: seq![GrammarView::Sequence { elements: seq![GrammarView::Indent, GrammarView::OneOf { elements: seq![GrammarView::Ref { name: "FromExpressionElementSegment"@, optional: false }, GrammarView::Bracketed { elements: seq![GrammarView::Ref { name: "FromExpressionSegment"@, optional: false }], bracket_type: "round"@ }], terminators: seq![GrammarView::Sequence { elements: seq![GrammarView::Keyword { word: "ORDER"@ }, GrammarView::Keyword { word: "BY"@ }], terminators: seq![], parse_mode: ParseMode::Strict }, GrammarView::Sequence { elements: seq![GrammarView::Keyword { word: "GROUP"@ }, GrammarView::Keyword { word: "BY"@ }], terminators: seq![], parse_mode: ParseMode::Strict }] }, GrammarView::Dedent, GrammarView::Conditional { meta: Box::new(GrammarView::Indent), setting: "indented_joins"@ }, GrammarView::AnyNumberOf { elements: seq![GrammarView::Sequence { elements: seq![GrammarView::Optional { grammar: Box::new(GrammarView::OneOf { elements: seq![GrammarView::Ref { name: "JoinClauseSegment"@, optional: false }, GrammarView::Ref { name: "JoinLikeClauseGrammar"@, optional: false }], terminators: seq![GrammarView::Sequence { elements: seq![GrammarView::Keyword { word: "ORDER"@ }, GrammarView::Keyword { word: "BY"@ }], terminators: seq![], parse_mode: ParseMode::Strict }, GrammarView::Sequence { elements: seq![GrammarView::Keyword { word: "GROUP"@ }, GrammarView::Keyword { word: "BY"@ }], terminators: seq![], parse_mode: ParseMode::Strict }] }) }], terminators: seq![], parse_mode: ParseMode::Strict }], terminators: seq![], min_times: 0, max_times: None }, GrammarView::Conditional { meta: Box::new(GrammarView::Dedent), setting: "indented_joins"@ }], terminators: seq![], parse_mode: ParseMode::Strict }], bracket_type: "round"@ }, GrammarView::Sequence { elements: seq![GrammarView::Indent, GrammarView::OneOf { elements: seq![GrammarView::Ref { name: "FromExpressionElementSegment"@, optional: false }, GrammarView::Bracketed { elements: seq![GrammarView::Ref { name: "FromExpressionSegment"@, optional: false }], bracket_type: "round"@ }], terminators: seq![GrammarView::Sequence { elements: seq![GrammarView::Keyword { word: "ORDER"@ }, GrammarView::Keyword { word: "BY"@ }], terminators: seq![], parse_mode: ParseMode::Strict }, GrammarView::Sequence { elements: seq![GrammarView::Keyword { word: "GROUP"@ }, GrammarView::Keyword { word: "BY"@ }], terminators: seq![], parse_mode: ParseMode::Strict }] }, GrammarView::Dedent, GrammarView::Conditional { meta: Box::new(GrammarView::Indent), setting: "indented_joins"@ }, GrammarView::AnyNumberOf { elements: seq![GrammarView::Sequence { elements: seq![GrammarView::Optional { grammar: Box::new(GrammarView::OneOf { elements: seq![GrammarView::Ref { name: "JoinClauseSegment"@, optional: false }, GrammarView::Ref { name: "JoinLikeClauseGrammar"@, optional: false }], terminators: seq![GrammarView::Sequence { elements: seq![GrammarView::Keyword { word: "ORDER"@ }, GrammarView::Keyword { word: "BY"@ }], terminators: seq![], parse_mode: ParseMode::Strict }, GrammarView::Sequence { elements: seq![GrammarView::Keyword { word: "GROUP"@ }, GrammarView::Keyword { word: "BY"@ }], terminators: seq![], parse_mode: ParseMode::Strict }] }) }], terminators: seq![], parse_mode: ParseMode::Strict }], terminators: seq![], min_times: 0, max_times: None }, GrammarView::Conditional { meta: Box::new(GrammarView::Dedent), setting: "indented_joins"@ }], terminators: seq![], parse_mode: ParseMode::Strict }], terminators: seq![] } }
}

#[verifier::rlimit(100)]
fn build_from_expression_segment() -> (e: Element)
    ensures
        e@ =~~= from_expression_segment_element(),
{
    let g1: Vec<Grammar> = vec![Grammar::reference("FromExpressionSegment")];
    assert(views(g1@) =~~= seq![GrammarView::Ref { name: "FromExpressionSegment"@, optional: false }]);
    let g2 = Grammar::bracketed_with(g1, "round");
    let g3: Vec<Grammar> = vec![Grammar::reference("FromExpressionElementSegment"), g2];
    assert(views(g3@) =~~= seq![GrammarView::Ref { name: "FromExpressionElementSegment"@, optional: false }, GrammarView::Bracketed { elements: seq![GrammarView::Ref { name: "FromExpressionSegment"@, optional: false }], bracket_type: "round"@ }]);
    let g4: Vec<Grammar> = vec![Grammar::keyword("ORDER"), Grammar::keyword("BY")];
    assert(views(g4@) =~~= seq![GrammarView::Keyword { word: "ORDER"@ }, GrammarView::Keyword { word: "BY"@ }]);
    let g5: Vec<Grammar> = Vec::new();
    assert(views(g5@) =~= Seq::<GrammarView>::empty());
    let g6 = Grammar::sequence_with(g4, g5, ParseMode::Strict);
    let g7: Vec<Grammar> = vec![Grammar::keyword("GROUP"), Grammar::keyword("BY")];
    assert(views(g7@) =~~= seq![GrammarView::Keyword { word: "GROUP"@ }, GrammarView::Keyword { word: "BY"@ }]);
    let g8: Vec<Grammar> = Vec::new();
    assert(views(g8@) =~= Seq::<GrammarView>::empty());
    let g9 = Grammar::sequence_with(g7, g8, ParseMode::Strict);
    let g10: Vec<Grammar> = vec![g6, g9];
    assert(views(g10@) =~~= seq![GrammarView::Sequence { elements: seq![GrammarView::Keyword { word: "ORDER"@ }, GrammarView::Keyword { word: "BY"@ }], terminators: seq![], parse_mode: ParseMode::Strict }, GrammarView::Sequence { elements: seq![GrammarView::Keyword { word: "GROUP"@ }, GrammarView::Keyword { word: "BY"@ }], terminators: seq![], parse_mode: ParseMode::Strict }]);
    let g11 = Grammar::one_of_with(g3, g10);
    let g12 = Grammar::conditional(Grammar::indent(), "indented_joins");
    let g13: Vec<Grammar> = vec![Grammar::reference("JoinClauseSegment"), Grammar::reference("JoinLikeClauseGrammar")];
    assert(views(g13@) =~~= seq![GrammarView::Ref { name: "JoinClauseSegment"@, optional: false }, GrammarView::Ref { name: "JoinLikeClauseGrammar"@, optional: false }]);
    let g14: Vec<Grammar> = vec![Grammar::keyword("ORDER"), Grammar::keyword("BY")];
    assert(views(g14@) =~~= seq![GrammarView::Keyword { word: "ORDER"@ }, GrammarView::Keyword { word: "BY"@ }]);
    let g15: Vec<Grammar> = Vec::new();
    assert(views(g15@) =~= Seq::<GrammarView>::empty());
    let g16 = Grammar::sequence_with(g14, g15, ParseMode::Strict);
    let g17: Vec<Grammar> = vec![Grammar::keyword("GROUP"), Grammar::keyword("BY")];
    assert(views(g17@) =~~= seq![GrammarView::Keyword { word: "GROUP"@ }, GrammarView::Keyword { word: "BY"@ }]);
    let g18: Vec<Grammar> = Vec::new();
    assert(views(g18@) =~= Seq::<GrammarView>::empty());
    let g19 = Grammar::sequence_with(g17, g18, ParseMode::Strict);
    let g20: Vec<Grammar> = vec![g16, g19];
    assert(views(g20@) =~~= seq![GrammarView::Sequence { elements: seq![GrammarView::Keyword { word: "ORDER"@ }, GrammarView::Keyword { word: "BY"@ }], terminators: seq![], parse_mode: ParseMode::Strict }, GrammarView::Sequence { elements: seq![GrammarView::Keyword { word: "GROUP"@ }, GrammarView::Keyword { word: "BY"@ }], terminators: seq![], parse_mode: ParseMode::Strict }]);
    let g21 = Grammar::one_of_with(g13, g20);
    let g22 = g21.optional();
    let g23: Vec<Grammar> = vec![g22];
    assert(views(g23@) =~~= seq![GrammarView::Optional { grammar: Box::new(GrammarView::OneOf { elements: seq![GrammarView::Ref { name: "JoinClauseSegment"@, optional: false }, GrammarView::Ref { name: "JoinLikeClauseGrammar"@, optional: false }], terminators: seq![GrammarView::Sequence { elements: seq![GrammarView::Keyword { word: "ORDER"@ }, GrammarView::Keyword { word: "BY"@ }], terminators: seq![], parse_mode: ParseMode::Strict }, GrammarView::Sequence { elements: seq![GrammarView::Keyword { word: "GROUP"@ }, GrammarView::Keyword { word: "BY"@ }], terminators: seq![], parse_mode: ParseMode::Strict }] }) }]);
    let g24: Vec<Grammar> = Vec::new();
    assert(views(g24@) =~= Seq::<GrammarView>::empty());
    let g25 = Grammar::sequence_with(g23, g24, ParseMode::Strict);
    let g26: Vec<Grammar> = vec![g25];
    assert(views(g26@) =~~= seq![GrammarView::Sequence { elements: seq![GrammarView::Optional { grammar: Box::new(GrammarView::OneOf { elements: seq![GrammarView::Ref { name: "JoinClauseSegment"@, optional: false }, GrammarView::Ref { name: "JoinLikeClauseGrammar"@, optional: false }], terminators: seq![GrammarView::Sequence { elements: seq![GrammarView::Keyword { word: "ORDER"@ }, GrammarView::Keyword { word: "BY"@ }], terminators: seq![], parse_mode: ParseMode::Strict }, GrammarView::Sequence { elements: seq![GrammarView::Keyword { word: "GROUP"@ }, GrammarView::Keyword { word: "BY"@ }], terminators: seq![], parse_mode: ParseMode::Strict }] }) }], terminators: seq![], parse_mode: ParseMode::Strict }]);
    let g27: Vec<Grammar> = Vec::new();
    assert(views(g27@) =~= Seq::<GrammarView>::empty());
    let g28 = Grammar::any_number_of_with(g26, g27, 0, None);
    let g29 = Grammar::conditional(Grammar::dedent(), "indented_joins");
    let g30: Vec<Grammar> = vec![Grammar::indent(), g11, Grammar::dedent(), g12, g28, g29];
    assert(views(g30@) =~~= seq![GrammarView::Indent, GrammarView::OneOf { elements: seq![GrammarView::Ref { name: "FromExpressionElementSegment"@, optional: false }, GrammarView::Bracketed { elements: seq![GrammarView::Ref { name: "FromExpressionSegment"@, optional: false }], bracket_type: "round"@ }], terminators: seq![GrammarView::Sequence { elements: seq![GrammarView::Keyword { word: "ORDER"@ }, GrammarView::Keyword { word: "BY"@ }], terminators: seq![], parse_mode: ParseMode::Strict }, GrammarView::Sequence { elements: seq![GrammarView::Keyword { word: "GROUP"@ }, GrammarView::Keyword { word: "BY"@ }], terminators: seq![], parse_mode: ParseMode::Strict }] }, GrammarView::Dedent, GrammarView::Conditional { meta: Box::new(GrammarView::Indent), setting: "indented_joins"@ }, GrammarView::AnyNumberOf { elements: seq![GrammarView::Sequence { elements: seq![GrammarView::Optional { grammar: Box::new(GrammarView::OneOf { elements: seq![GrammarView::Ref { name: "JoinClauseSegment"@, optional: false }, GrammarView::Ref { name: "JoinLikeClauseGrammar"@, optional: false }], terminators: seq![GrammarView::Sequence { elements: seq![GrammarView::Keyword { word: "ORDER"@ }, GrammarView::Keyword { word: "BY"@ }], terminators: seq![], parse_mode: ParseMode::Strict }, GrammarView::Sequence { elements: seq![GrammarView::Keyword { word: "GROUP"@ }, GrammarView::Keyword { word: "BY"@ }], terminators: seq![], parse_mode: ParseMode::Strict }] }) }], terminators: seq![], parse_mode: ParseMode::Strict }], terminators: seq![], min_times: 0, max_times: None }, GrammarView::Conditional { meta: Box::new(GrammarView::Dedent), setting: "indented_joins"@ }]);
    let g31: Vec<Grammar> = Vec::new();
    assert(views(g31@) =~= Seq::<GrammarView>::empty());
    let g32 = Grammar::sequence_with(g30, g31, ParseMode::Strict);
    let g33: Vec<Grammar> = vec![g32];
    assert(views(g33@) =~~= seq![GrammarView::Sequence { elements: seq![GrammarView::Indent, GrammarView::OneOf { elements: seq![GrammarView::Ref { name: "FromExpressionElementSegment"@, optional: false }, GrammarView::Bracketed { elements: seq![GrammarView::Ref { name: "FromExpressionSegment"@, optional: false }], bracket_type: "round"@ }], terminators: seq![GrammarView::Sequence { elements: seq![GrammarView::Keyword { word: "ORDER"@ }, GrammarView::Keyword { word: "BY"@ }], terminators: seq![], parse_mode: ParseMode::Strict }, GrammarView::Sequence { elements: seq![GrammarView::Keyword { word: "GROUP"@ }, GrammarView::Keyword { word: "BY"@ }], terminators: seq![], parse_mode: ParseMode::Strict }] }, GrammarView::Dedent, GrammarView::Conditional { meta: Box::new(GrammarView::Indent), setting: "indented_joins"@ }, GrammarView::AnyNumberOf { elements: seq![GrammarView::Sequence { elements: seq![GrammarView::Optional { grammar: Box::new(GrammarView::OneOf { elements: seq![GrammarView::Ref { name: "JoinClauseSegment"@, optional: false }, GrammarView::Ref { name: "JoinLikeClauseGrammar"@, optional: false }], terminators: seq![GrammarView::Sequence { elements: seq![GrammarView::Keyword { word: "ORDER"@ }, GrammarView::Keyword { word: "BY"@ }], terminators: seq![], parse_mode: ParseMode::Strict }, GrammarView::Sequence { elements: seq![GrammarView::Keyword { word: "GROUP"@ }, GrammarView::Keyword { word: "BY"@ }], terminators: seq![], parse_mode: ParseMode::Strict }] }) }], terminators: seq![], parse_mode: ParseMode::Strict }], terminators: seq![], min_times: 0, max_times: None }, GrammarView::Conditional { meta: Box::new(GrammarView::Dedent), setting: "indented_joins"@ }], terminators: seq![], parse_mode: ParseMode::Strict }]);
    let g34 = Grammar::bracketed_with(g33, "round");
    let g35: Vec<Grammar> = vec![Grammar::reference("FromExpressionSegment")];
    assert(views(g35@) =~~= seq![GrammarView::Ref { name: "FromExpressionSegment"@, optional: false }]);
    let g36 = Grammar::bracketed_with(g35, "round");
    let g37: Vec<Grammar> = vec![Grammar::reference("FromExpressionElementSegment"), g36];
    assert(views(g37@) =~~= seq![GrammarView::Ref { name: "FromExpressionElementSegment"@, optional: false }, GrammarView::Bracketed { elements: seq![GrammarView::Ref { name: "FromExpressionSegment"@, optional: false }], bracket_type: "round"@ }]);
    let g38: Vec<Grammar> = vec![Grammar::keyword("ORDER"), Grammar::keyword("BY")];
    assert(views(g38@) =~~= seq![GrammarView::Keyword { word: "ORDER"@ }, GrammarView::Keyword { word: "BY"@ }]);
    let g39: Vec<Grammar> = Vec::new();
    assert(views(g39@) =~= Seq::<GrammarView>::empty());
    let g40 = Grammar::sequence_with(g38, g39, ParseMode::Strict);
    let g41: Vec<Grammar> = vec![Grammar::keyword("GROUP"), Grammar::keyword("BY")];
    assert(views(g41@) =~~= seq![GrammarView::Keyword { word: "GROUP"@ }, GrammarView::Keyword { word: "BY"@ }]);
    let g42: Vec<Grammar> = Vec::new();
    assert(views(g42@) =~= Seq::<GrammarView>::empty());
    let g43 = Grammar::sequence_with(g41, g42, ParseMode::Strict);
    let g44: Vec<Grammar> = vec![g40, g43];
    assert(views(g44@) =~~= seq![GrammarView::Sequence { elements: seq![GrammarView::Keyword { word: "ORDER"@ }, GrammarView::Keyword { word: "BY"@ }], terminators: seq![], parse_mode: ParseMode::Strict }, GrammarView::Sequence { elements: seq![GrammarView::Keyword { word: "GROUP"@ }, GrammarView::Keyword { word: "BY"@ }], terminators: seq![], parse_mode: ParseMode::Strict }]);
    let g45 = Grammar::one_of_with(g37, g44);
    let g46 = Grammar::conditional(Grammar::indent(), "indented_joins");
    let g47: Vec<Grammar> = vec![Grammar::reference("JoinClauseSegment"), Grammar::reference("JoinLikeClauseGrammar")];
    assert(views(g47@) =~~= seq![GrammarView::Ref { name: "JoinClauseSegment"@, optional: false }, GrammarView::Ref { name: "JoinLikeClauseGrammar"@, optional: false }]);
    let g48: Vec<Grammar> = vec![Grammar::keyword("ORDER"), Grammar::keyword("BY")];
    assert(views(g48@) =~~= seq![GrammarView::Keyword { word: "ORDER"@ }, GrammarView::Keyword { word: "BY"@ }]);
    let g49: Vec<Grammar> = Vec::new();
    assert(views(g49@) =~= Seq::<GrammarView>::empty());
    let g50 = Grammar::sequence_with(g48, g49, ParseMode::Strict);
    let g51: Vec<Grammar> = vec![Grammar::keyword("GROUP"), Grammar::keyword("BY")];
    assert(views(g51@) =~~= seq![GrammarView::Keyword { word: "GROUP"@ }, GrammarView::Keyword { word: "BY"@ }]);
    let g52: Vec<Grammar> = Vec::new();
    assert(views(g52@) =~= Seq::<GrammarView>::empty());
    let g53 = Grammar::sequence_with(g51, g52, ParseMode::Strict);
    let g54: Vec<Grammar> = vec![g50, g53];
    assert(views(g54@) =~~= seq![GrammarView::Sequence { elements: seq![GrammarView::Keyword { word: "ORDER"@ }, GrammarView::Keyword { word: "BY"@ }], terminators: seq![], parse_mode: ParseMode::Strict }, GrammarView::Sequence { elements: seq![GrammarView::Keyword { word: "GROUP"@ }, GrammarView::Keyword { word: "BY"@ }], terminators: seq![], parse_mode: ParseMode::Strict }]);
    let g55 = Grammar::one_of_with(g47, g54);
    let g56 = g55.optional();
    let g57: Vec<Grammar> = vec![g56];
    assert(views(g57@) =~~= seq![GrammarView::Optional { grammar: Box::new(GrammarView::OneOf { elements: seq![GrammarView::Ref { name: "JoinClauseSegment"@, optional: false }, GrammarView::Ref { name: "JoinLikeClauseGrammar"@, optional: false }], terminators: seq![GrammarView::Sequence { elements: seq![GrammarView::Keyword { word: "ORDER"@ }, GrammarView::Keyword { word: "BY"@ }], terminators: seq![], parse_mode: ParseMode::Strict }, GrammarView::Sequence { elements: seq![GrammarView::Keyword { word: "GROUP"@ }, GrammarView::Keyword { word: "BY"@ }], terminators: seq![], parse_mode: ParseMode::Strict }] }) }]);
    let g58: Vec<Grammar> = Vec::new();
    assert(views(g58@) =~= Seq::<GrammarView>::empty());
    let g59 = Grammar::sequence_with(g57, g58, ParseMode::Strict);
    let g60: Vec<Grammar> = vec![g59];
    assert(views(g60@) =~~= seq![GrammarView::Sequence { elements: seq![GrammarView::Optional { grammar: Box::new(GrammarView::OneOf { elements: seq![GrammarView::Ref { name: "JoinClauseSegment"@, optional: false }, GrammarView::Ref { name: "JoinLikeClauseGrammar"@, optional: false }], terminators: seq![GrammarView::Sequence { elements: seq![GrammarView::Keyword { word: "ORDER"@ }, GrammarView::Keyword { word: "BY"@ }], terminators: seq![], parse_mode: ParseMode::Strict }, GrammarView::Sequence { elements: seq![GrammarView::Keyword { word: "GROUP"@ }, GrammarView::Keyword { word: "BY"@ }], terminators: seq![], parse_mode: ParseMode::Strict }] }) }], terminators: seq![], parse_mode: ParseMode::Strict }]);
    let g61: Vec<Grammar> = Vec::new();
    assert(views(g61@) =~= Seq::<GrammarView>::empty());
    let g62 = Grammar::any_number_of_with(g60, g61, 0, None);
    let g63 = Grammar::conditional(Grammar::dedent(), "indented_joins");
    let g64: Vec<Grammar> = vec![Grammar::indent(), g45, Grammar::dedent(), g46, g62, g63];
    assert(views(g64@) =~~= seq![GrammarView::Indent, GrammarView::OneOf { elements: seq![GrammarView::Ref { name: "FromExpressionElementSegment"@, optional: false }, GrammarView::Bracketed { elements: seq![GrammarView::Ref { name: "FromExpressionSegment"@, optional: false }], bracket_type: "round"@ }], terminators: seq![GrammarView::Sequence { elements: seq![GrammarView::Keyword { word: "ORDER"@ }, GrammarView::Keyword { word: "BY"@ }], terminators: seq![], parse_mode: ParseMode::Strict }, GrammarView::Sequence { elements: seq![GrammarView::Keyword { word: "GROUP"@ }, GrammarView::Keyword { word: "BY"@ }], terminators: seq![], parse_mode: ParseMode::Strict }] }, GrammarView::Dedent, GrammarView::Conditional { meta: Box::new(GrammarView::Indent), setting: "indented_joins"@ }, GrammarView::AnyNumberOf { elements: seq![GrammarView::Sequence { elements: seq![GrammarView::Optional { grammar: Box::new(GrammarView::OneOf { elements: seq![GrammarView::Ref { name: "JoinClauseSegment"@, optional: false }, GrammarView::Ref { name: "JoinLikeClauseGrammar"@, optional: false }], terminators: seq![GrammarView::Sequence { elements: seq![GrammarView::Keyword { word: "ORDER"@ }, GrammarView::Keyword { word: "BY"@ }], terminators: seq![], parse_mode: ParseMode::Strict }, GrammarView::Sequence { elements: seq![GrammarView::Keyword { word: "GROUP"@ }, GrammarView::Keyword { word: "BY"@ }], terminators: seq![], parse_mode: ParseMode::Strict }] }) }], terminators: seq![], parse_mode: ParseMode::Strict }], terminators: seq![], min_times: 0, max_times: None }, GrammarView::Conditional { meta: Box::new(GrammarView::Dedent), setting: "indented_joins"@ }]);
    let g65: Vec<Grammar> = Vec::new();
    assert(views(g65@) =~= Seq::<GrammarView>::empty());
    let g66 = Grammar::sequence_with(g64, g65, ParseMode::Strict);
    let g67: Vec<Grammar> = vec![g34, g66];
    assert(views(g67@) =~~= seq![GrammarView::Bracketed { elements: seq![GrammarView::Sequence { elements: seq![GrammarView::Indent, GrammarView::OneOf { elements: seq![GrammarView::Ref { name: "FromExpressionElementSegment"@, optional: false }, GrammarView::Bracketed { elements: seq![GrammarView::Ref { name: "FromExpressionSegment"@, optional: false }], bracket_type: "round"@ }], terminators: seq![GrammarView::Sequence { elements: seq![GrammarView::Keyword { word: "ORDER"@ }, GrammarView::Keyword { word: "BY"@ }], terminators: seq![], parse_mode: ParseMode::Strict }, GrammarView::Sequence { elements: seq![GrammarView::Keyword { word: "GROUP"@ }, GrammarView::Keyword { word: "BY"@ }], terminators: seq![], parse_mode: ParseMode::Strict }] }, GrammarView::Dedent, GrammarView::Conditional { meta: Box::new(GrammarView::Indent), setting: "indented_joins"@ }, GrammarView::AnyNumberOf { elements: seq![GrammarView::Sequence { elements: seq![GrammarView::Optional { grammar: Box::new(GrammarView::OneOf { elements: seq![GrammarView::Ref { name: "JoinClauseSegment"@, optional: false }, GrammarView::Ref { name: "JoinLikeClauseGrammar"@, optional: false }], terminators: seq![GrammarView::Sequence { elements: seq![GrammarView::Keyword { word: "ORDER"@ }, GrammarView::Keyword { word: "BY"@ }], terminators: seq![], parse_mode: ParseMode::Strict }, GrammarView::Sequence { elements: seq![GrammarView::Keyword { word: "GROUP"@ }, GrammarView::Keyword { word: "BY"@ }], terminators: seq![], parse_mode: ParseMode::Strict }] }) }], terminators: seq![], parse_mode: ParseMode::Strict }], terminators: seq![], min_times: 0, max_times: None }, GrammarView::Conditional { meta: Box::new(GrammarView::Dedent), setting: "indented_joins"@ }], terminators: seq![], parse_mode: ParseMode::Strict }], bracket_type: "round"@ }, GrammarView::Sequence { elements: seq![GrammarView::Indent, GrammarView::OneOf { elements: seq![GrammarView::Ref { name: "FromExpressionElementSegment"@, optional: false }, GrammarView::Bracketed { elements: seq![GrammarView::Ref { name: "FromExpressionSegment"@, optional: false }], bracket_type: "round"@ }], terminators: seq![GrammarView::Sequence { elements: seq![GrammarView::Keyword { word: "ORDER"@ }, GrammarView::Keyword { word: "BY"@ }], terminators: seq![], parse_mode: ParseMode::Strict }, GrammarView::Sequence { elements: seq![GrammarView::Keyword { word: "GROUP"@ }, GrammarView::Keyword { word: "BY"@ }], terminators: seq![], parse_mode: ParseMode::Strict }] }, GrammarView::Dedent, GrammarView::Conditional { meta: Box::new(GrammarView::Indent), setting: "indented_joins"@ }, GrammarView::AnyNumberOf { elements: seq![GrammarView::Sequence { elements: seq![GrammarView::Optional { grammar: Box::new(GrammarView::OneOf { elements: seq![GrammarView::Ref { name: "JoinClauseSegment"@, optional: false }, GrammarView::Ref { name: "JoinLikeClauseGrammar"@, optional: false }], terminators: seq![GrammarView::Sequence { elements: seq![GrammarView::Keyword { word: "ORDER"@ }, GrammarView::Keyword { word: "BY"@ }], terminators: seq![], parse_mode: ParseMode::Strict }, GrammarView::Sequence { elements: seq![GrammarView::Keyword { word: "GROUP"@ }, GrammarView::Keyword { word: "BY"@ }], terminators: seq![], parse_mode: ParseMode::Strict }] }) }], terminators: seq![], parse_mode: ParseMode::Strict }], terminators: seq![], min_times: 0, max_times: None }, GrammarView::Conditional { meta: Box::new(GrammarView::Dedent), setting: "indented_joins"@ }], terminators: seq![], parse_mode: ParseMode::Strict }]);
    let g68: Vec<Grammar> = Vec::new();
    assert(views(g68@) =~= Seq::<GrammarView>::empty());
    let g69 = Grammar::one_of_with(g67, g68);
    Element::Node { kind: "from_expression", grammar: g69 }
}

/// The ANSI element `DatePartFunctionNameSegment`.
pub open spec fn date_part_function_name_segment_element() -> ElementView {
    ElementView::Node { kind: "function_name"@, grammar: GrammarView::Ref { name: "DatePartFunctionName"@, optional: false } }
}

fn build_date_part_function_name_segment() -> (e: Element)
    ensures
        e@ =~~= date_part_function_name_segment_element(),
{
    Element::Node { kind: "function_name", grammar: Grammar::reference("DatePartFunctionName") }
}

/// The ANSI element `SelectStatementSegment`.
pub open spec fn select_statement_segment_element() -> ElementView {
    ElementView::Node { kind: "select_statement"@, grammar: (GrammarView::Sequence { elements: seq![GrammarView::Ref { name: "SelectClauseSegment"@, optional: false }, GrammarView::Dedent, GrammarView::Ref { name: "FromClauseSegment"@, optional: true }, GrammarView::Ref { name: "WhereClauseSegment"@, optional: true }, GrammarView::Ref { name: "GroupByClauseSegment"@, optional: true }, GrammarView::Ref { name: "HavingClauseSegment"@, optional: true }, GrammarView::Ref { name: "OverlapsClauseSegment"@, optional: true }, GrammarView::Ref { name: "NamedWindowSegment"@, optional: true }], terminators: seq![GrammarView::Ref { name: "SetOperatorSegment"@, optional: false }, GrammarView::Ref { name: "WithNoSchemaBindingClauseSegment"@, optional: false }, GrammarView::Ref { name: "WithDataClauseSegment"@, optional: false }, GrammarView::Ref { name: "OrderByClauseSegment"@, optional: false }, GrammarView::Ref { name: "LimitClauseSegment"@, optional: false }], parse_mode: ParseMode::GreedyOnceStarted }).copied(Some(seq![GrammarView::Ref { name: "OrderByClauseSegment"@, optional: true }, GrammarView::Ref { name: "FetchClauseSegment"@, optional: true }, GrammarView::Ref { name: "LimitClauseSegment"@, optional: true }, GrammarView::Ref { name: "NamedWindowSegment"@, optional: true }]), None, None, None, seq![GrammarView::Ref { name: "SetOperatorSegment"@, optional: false }, GrammarView::Ref { name: "WithNoSchemaBindingClauseSegment"@, optional: false }, GrammarView::Ref { name: "WithDataClauseSegment"@, optional: false }], true) }
}

fn build_select_statement_segment() -> (e: Element)
    ensures
        e@ =~~= select_statement_segment_element(),
{
    let g1: Vec<Grammar> = vec![Grammar::reference("SelectClauseSegment"), Grammar::dedent(), Grammar::optional_reference("FromClauseSegment"), Grammar::optional_reference("WhereClauseSegment"), Grammar::optional_reference("GroupByClauseSegment"), Grammar::optional_reference("HavingClauseSegment"), Grammar::optional_reference("OverlapsClauseSegment"), Grammar::optional_reference("NamedWindowSegment")];
    assert(views(g1@) =~~= seq![GrammarView::Ref { name: "SelectClauseSegment"@, optional: false }, GrammarView::Dedent, GrammarView::Ref { name: "FromClauseSegment"@, optional: true }, GrammarView::Ref { name: "WhereClauseSegment"@, optional: true }, GrammarView::Ref { name: "GroupByClauseSegment"@, optional: true }, GrammarView::Ref { name: "HavingClauseSegment"@, optional: true }, GrammarView::Ref { name: "OverlapsClauseSegment"@, optional: true }, GrammarView::Ref { name: "NamedWindowSegment"@, optional: true }]);
    let g2: Vec<Grammar> = vec![Grammar::reference("SetOperatorSegment"), Grammar::reference("WithNoSchemaBindingClauseSegment"), Grammar::reference("WithDataClauseSegment"), Grammar::reference("OrderByClauseSegment"), Grammar::reference("LimitClauseSegment")];
    assert(views(g2@) =~~= seq![GrammarView::Ref { name: "SetOperatorSegment"@, optional: false }, GrammarView::Ref { name: "WithNoSchemaBindingClauseSegment"@, optional: false }, GrammarView::Ref { name: "WithDataClauseSegment"@, optional: false }, GrammarView::Ref { name: "OrderByClauseSegment"@, optional: false }, GrammarView::Ref { name: "LimitClauseSegment"@, optional: false }]);
    let g3 = Grammar::sequence_with(g1, g2, ParseMode::GreedyOnceStarted);
    let g4 = g3;
    assert(g4@ =~~= GrammarView::Sequence { elements: seq![GrammarView::Ref { name: "SelectClauseSegment"@, optional: false }, GrammarView::Dedent, GrammarView::Ref { name: "FromClauseSegment"@, optional: true }, GrammarView::Ref { name: "WhereClauseSegment"@, optional: true }, GrammarView::Ref { name: "GroupByClauseSegment"@, optional: true }, GrammarView::Ref { name: "HavingClauseSegment"@, optional: true }, GrammarView::Ref { name: "OverlapsClauseSegment"@, optional: true }, GrammarView::Ref { name: "NamedWindowSegment"@, optional: true }], terminators: seq![GrammarView::Ref { name: "SetOperatorSegment"@, optional: false }, GrammarView::Ref { name: "WithNoSchemaBindingClauseSegment"@, optional: false }, GrammarView::Ref { name: "WithDataClauseSegment"@, optional: false }, GrammarView::Ref { name: "OrderByClauseSegment"@, optional: false }, GrammarView::Ref { name: "LimitClauseSegment"@, optional: false }], parse_mode: ParseMode::GreedyOnceStarted });
    let g5: Vec<Grammar> = vec![Grammar::optional_reference("OrderByClauseSegment"), Grammar::optional_reference("FetchClauseSegment"), Grammar::optional_reference("LimitClauseSegment"), Grammar::optional_reference("NamedWindowSegment")];
    assert(views(g5@) =~~= seq![GrammarView::Ref { name: "OrderByClauseSegment"@, optional: true }, GrammarView::Ref { name: "FetchClauseSegment"@, optional: true }, GrammarView::Ref { name: "LimitClauseSegment"@, optional: true }, GrammarView::Ref { name: "NamedWindowSegment"@, optional: true }]);
    let g6: Vec<Grammar> = vec![Grammar::reference("SetOperatorSegment"), Grammar::reference("WithNoSchemaBindingClauseSegment"), Grammar::reference("WithDataClauseSegment")];
    assert(views(g6@) =~~= seq![GrammarView::Ref { name: "SetOperatorSegment"@, optional: false }, GrammarView::Ref { name: "WithNoSchemaBindingClauseSegment"@, optional: false }, GrammarView::Ref { name: "WithDataClauseSegment"@, optional: false }]);
    let g7 = g4.copy(Some(g5), None, None, None, g6, true);
    Element::Node { kind: "select_statement", grammar: g7 }
}

/// The ANSI element `CreateSchemaStatementSegment`.
pub open spec fn create_schema_statement_segment_element() -> ElementView {
    ElementView::Node { kind: "create_schema_statement"@, grammar: GrammarView::Sequence { elements: seq![GrammarView::Keyword { word: "CREATE"@ }, GrammarView::Keyword { word: "SCHEMA"@ }, GrammarView::Ref { name: "IfNotExistsGrammar"@, optional: true }, GrammarView::Ref { name: "SchemaReferenceSegment"@, optional: false }], terminators: seq![], parse_mode: ParseMode::Strict } }
}

fn build_create_schema_statement_segment() -> (e: Element)
    ensures
        e@ =~~= create_schema_statement_segment_element(),
{
    let g1: Vec<Grammar> = vec![Grammar::keyword("CREATE"), Grammar::keyword("SCHEMA"), Grammar::optional_reference("IfNotExistsGrammar"), Grammar::reference("SchemaReferenceSegment")];
    assert(views(g1@) =~~= seq![GrammarView::Keyword { word: "CREATE"@ }, GrammarView::Keyword { word: "SCHEMA"@ }, GrammarView::Ref { name: "IfNotExistsGrammar"@, optional: true }, GrammarView::Ref { name: "SchemaReferenceSegment"@, optional: false }]);
    let g2: Vec<Grammar> = Vec::new();
    assert(views(g2@) =~= Seq::<GrammarView>::empty());
    let g3 = Grammar::sequence_with(g1, g2, ParseMode::Strict);
    Element::Node { kind: "create_schema_statement", grammar: g3 }
}

/// The ANSI element `SelectClauseModifierSegment`.
pub open spec fn select_clause_modifier_segment_element() -> ElementView {
    ElementView::Node { kind: "select_clause_modifier"@, grammar: GrammarView::OneOf { elements: seq![GrammarView::Keyword { word: "DISTINCT"@ }, GrammarView::Keyword { word: "ALL"@ }], terminators: seq![] } }
}

fn build_select_clause_modifier_segment() -> (e: Element)
    ensures
        e@ =~~= select_clause_modifier_segment_element(),
{
    let g1: Vec<Grammar> = vec![Grammar::keyword("DISTINCT"), Grammar::keyword("ALL")];
    assert(views(g1@) =~~= seq![GrammarView::Keyword { word: "DISTINCT"@ }, GrammarView::Keyword { word: "ALL"@ }]);
    let g2: Vec<Grammar> = Vec::new();
    assert(views(g2@) =~= Seq::<GrammarView>::empty());
    let g3 = Grammar::one_of_with(g1, g2);
    Element::Node { kind: "select_clause_modifier", grammar: g3 }
}

/// The ANSI element `SelectClauseElementSegment`.
pub open spec fn select_clause_element_segment_element() -> ElementView {
    ElementView::Node { kind: "select_clause_element"@, grammar: GrammarView::OneOf { elements: seq![GrammarView::Ref { name: "WildcardExpressionSegment"@, optional: false }, GrammarView::Sequence { elements: seq![GrammarView::Ref { name: "BaseExpressionElementGrammar"@, optional: false }, GrammarView::Ref { name: "AliasExpressionSegment"@, optional: true }], terminators: seq![], parse_mode: ParseMode::Strict }], terminators: seq![] } }
}

fn build_select_clause_element_segment() -> (e: Element)
    ensures
        e@ =~~= select_clause_element_segment_element(),
{
    let g1: Vec<Grammar> = vec![Grammar::reference("BaseExpressionElementGrammar"), Grammar::optional_reference("AliasExpressionSegment")];
    assert(views(g1@) =~~= seq![GrammarView::Ref { name: "BaseExpressionElementGrammar"@, optional: false }, GrammarView::Ref { name: "AliasExpressionSegment"@, optional: true }]);
    let g2: Vec<Grammar> = Vec::new();
    assert(views(g2@) =~= Seq::<GrammarView>::empty());
    let g3 = Grammar::sequence_with(g1, g2, ParseMode::Strict);
    let g4: Vec<Grammar> = vec![Grammar::reference("WildcardExpressionSegment"), g3];
    assert(views(g4@) =~~= seq![GrammarView::Ref { name: "WildcardExpressionSegment"@, optional: false }, GrammarView::Sequence { elements: seq![GrammarView::Ref { name: "BaseExpressionElementGrammar"@, optional: false }, GrammarView::Ref { name: "AliasExpressionSegment"@, optional: true }], terminators: seq![], parse_mode: ParseMode::Strict }]);
    let g5: Vec<Grammar> = Vec::new();
    assert(views(g5@) =~= Seq::<GrammarView>::empty());
    let g6 = Grammar::one_of_with(g4, g5);
    Element::Node { kind: "select_clause_element", grammar: g6 }
}

/// The ANSI element `CharCharacterSetGrammar`.
pub open spec fn char_character_set_grammar_element() -> ElementView {
    ElementView::Grammar(GrammarView::Nothing)
}

fn build_char_character_set_grammar() -> (e: Element)
    ensures
        e@ =~~= char_character_set_grammar_element(),
{
    Element::Grammar(Grammar::nothing())
}

/// The ANSI element `AliasedTableReferenceGrammar`.
pub open spec fn aliased_table_reference_grammar_element() -> ElementView {
    ElementView::Grammar(GrammarView::Sequence { elements: seq![GrammarView::Ref { name: "TableReferenceSegment"@, optional: false }, GrammarView::Ref { name: "AliasExpressionSegment"@, optional: false }], terminators: seq![], parse_mode: ParseMode::Strict })
}

fn build_aliased_table_reference_grammar() -> (e: Element)
    ensures
        e@ =~~= aliased_table_reference_grammar_element(),
{
    let g1: Vec<Grammar> = vec![Grammar::reference("TableReferenceSegment"), Grammar::reference("AliasExpressionSegment")];
    assert(views(g1@) =~~= seq![GrammarView::Ref { name: "TableReferenceSegment"@, optional: false }, GrammarView::Ref { name: "AliasExpressionSegment"@, optional: false }]);
    let g2: Vec<Grammar> = Vec::new();
    assert(views(g2@) =~= Seq::<GrammarView>::empty());
    let g3 = Grammar::sequence_with(g1, g2, ParseMode::Strict);
    Element::Grammar(g3)
}

/// The ANSI element `FunctionContentsSegment`.
pub open spec fn function_contents_segment_element() -> ElementView {
    ElementView::Node { kind: "function_contents"@, grammar: GrammarView::Sequence { elements: seq![GrammarView::Optional { grammar: Box::new(GrammarView::Bracketed { elements: seq![GrammarView::Ref { name: "FunctionContentsGrammar"@, optional: false }], bracket_type: "round"@ }) }], terminators: seq![], parse_mode: ParseMode::Strict } }
}

fn build_function_contents_segment() -> (e: Element)
    ensures
        e@ =~~= function_contents_segment_element(),
{
    let g1: Vec<Grammar> = vec![Grammar::reference("FunctionContentsGrammar")];
    assert(views(g1@) =~~= seq![GrammarView::Ref { name: "FunctionContentsGrammar"@, optional: false }]);
    let g2 = Grammar::bracketed_with(g1, "round");
    let g3 = g2.optional();
    let g4: Vec<Grammar> = vec![g3];
    assert(views(g4@) =~~= seq![GrammarView::Optional { grammar: Box::new(GrammarView::Bracketed { elements: seq![GrammarView::Ref { name: "FunctionContentsGrammar"@, optional: false }], bracket_type: "round"@ }) }]);
    let g5: Vec<Grammar> = Vec::new();
    assert(views(g5@) =~= Seq::<GrammarView>::empty());
    let g6 = Grammar::sequence_with(g4, g5, ParseMode::Strict);
    Element::Node { kind: "function_contents", grammar: g6 }
}

/// The ANSI element `FunctionContentsExpressionGrammar`.
pub open spec fn function_contents_expression_grammar_element() -> ElementView {
    ElementView::Grammar(GrammarView::Ref { name: "ExpressionSegment"@, optional: false })
}

fn build_function_contents_expression_grammar() -> (e: Element)
    ensures
        e@ =~~= function_contents_expression_grammar_element(),
{
    Element::Grammar(Grammar::reference("ExpressionSegment"))
}

/// The ANSI element `FunctionContentsGrammar`.
pub open spec fn function_contents_grammar_element() -> ElementView {
    ElementView::Grammar(GrammarView::AnyNumberOf { elements: seq![GrammarView::Ref { name: "ExpressionSegment"@, optional: false }, GrammarView::Sequence { elements: seq![GrammarView::Ref { name: "ExpressionSegment"@, optional: false }, GrammarView::Keyword { word: "AS"@ }, GrammarView::Ref { name: "DatatypeSegment"@, optional: false }], terminators: seq![], parse_mode: ParseMode::Strict }, GrammarView::Sequence { elements: seq![GrammarView::Ref { name: "TrimParametersGrammar"@, optional: false }, GrammarView::Exclude { grammar: Box::new(GrammarView::Ref { name: "ExpressionSegment"@, optional: true }), exclude: Box::new(GrammarView::Keyword { word: "FROM"@ }) }, GrammarView::Keyword { word: "FROM"@ }, GrammarView::Ref { name: "ExpressionSegment"@, optional: false }], terminators: seq![], parse_mode: ParseMode::Strict }, GrammarView::Sequence { elements: seq![GrammarView::OneOf { elements: seq![GrammarView::Ref { name: "DatetimeUnitSegment"@, optional: false }, GrammarView::Ref { name: "ExpressionSegment"@, optional: false }], terminators: seq![] }, GrammarView::Keyword { word: "FROM"@ }, GrammarView::Ref { name: "ExpressionSegment"@, optional: false }], terminators: seq![], parse_mode: ParseMode::Strict }, GrammarView::Sequence { elements: seq![GrammarView::Optional { grammar: Box::new(GrammarView::Keyword { word: "DISTINCT"@ }) }, GrammarView::OneOf { elements: seq![GrammarView::Ref { name: "StarSegment"@, optional: false }, GrammarView::Delimited { elements: seq![GrammarView::Ref { name: "FunctionContentsExpressionGrammar"@, optional: false }], allow_trailing: false, delimiter: None, terminators: seq![], allow_gaps: true }], terminators: seq![] }], terminators: seq![], parse_mode: ParseMode::Strict }, GrammarView::Ref { name: "AggregateOrderByClause"@, optional: false }, GrammarView::Sequence { elements: seq![GrammarView::Keyword { word: "SEPARATOR"@ }, GrammarView::Ref { name: "LiteralGrammar"@, optional: false }], terminators: seq![], parse_mode: ParseMode::Strict }, GrammarView::Sequence { elements: seq![GrammarView::OneOf { elements: seq![GrammarView::Ref { name: "QuotedLiteralSegment"@, optional: false }, GrammarView::Ref { name: "SingleIdentifierGrammar"@, optional: false }, GrammarView::Ref { name: "ColumnReferenceSegment"@, optional: false }], terminators: seq![] }, GrammarView::Keyword { word: "IN"@ }, GrammarView::OneOf { elements: seq![GrammarView::Ref { name: "QuotedLiteralSegment"@, optional: false }, GrammarView::Ref { name: "SingleIdentifierGrammar"@, optional: false }, GrammarView::Ref { name: "ColumnReferenceSegment"@, optional: false }], terminators: seq![] }], terminators: seq![], parse_mode: ParseMode::Strict }, GrammarView::Ref { name: "IgnoreRespectNullsGrammar"@, optional: false }, GrammarView::Ref { name: "IndexColumnDefinitionSegment"@, optional: false }, GrammarView::Ref { name: "EmptyStructLiteralSegment"@, optional: false }], terminators: seq![], min_times: 0, max_times: None })
}

#[verifier::rlimit(100)]
fn build_function_contents_grammar() -> (e: Element)
    ensures
        e@ =~~= function_contents_grammar_element(),
{
    let g1: Vec<Grammar> = vec![Grammar::reference("ExpressionSegment"), Grammar::keyword("AS"), Grammar::reference("DatatypeSegment")];
    assert(views(g1@) =~~= seq![GrammarView::Ref { name: "ExpressionSegment"@, optional: false }, GrammarView::Keyword { word: "AS"@ }, GrammarView::Ref { name: "DatatypeSegment"@, optional: false }]);
    let g2: Vec<Grammar> = Vec::new();
    assert(views(g2@) =~= Seq::<GrammarView>::empty());
    let g3 = Grammar::sequence_with(g1, g2, ParseMode::Strict);
    let g4 = Grammar::optional_reference("ExpressionSegment").exclude(Grammar::keyword("FROM"));
    let g5: Vec<Grammar> = vec![Grammar::reference("TrimParametersGrammar"), g4, Grammar::keyword("FROM"), Grammar::reference("ExpressionSegment")];
    assert(views(g5@) =~~= seq![GrammarView::Ref { name: "TrimParametersGrammar"@, optional: false }, GrammarView::Exclude { grammar: Box::new(GrammarView::Ref { name: "ExpressionSegment"@, optional: true }), exclude: Box::new(GrammarView::Keyword { word: "FROM"@ }) }, GrammarView::Keyword { word: "FROM"@ }, GrammarView::Ref { name: "ExpressionSegment"@, optional: false }]);
    let g6: Vec<Grammar> = Vec::new();
    assert(views(g6@) =~= Seq::<GrammarView>::empty());
    let g7 = Grammar::sequence_with(g5, g6, ParseMode::Strict);
    let g8: Vec<Grammar> = vec![Grammar::reference("DatetimeUnitSegment"), Grammar::reference("ExpressionSegment")];
    assert(views(g8@) =~~= seq![GrammarView::Ref { name: "DatetimeUnitSegment"@, optional: false }, GrammarView::Ref { name: "ExpressionSegment"@, optional: false }]);
    let g9: Vec<Grammar> = Vec::new();
    assert(views(g9@) =~= Seq::<GrammarView>::empty());
    let g10 = Grammar::one_of_with(g8, g9);
    let g11: Vec<Grammar> = vec![g10, Grammar::keyword("FROM"), Grammar::reference("ExpressionSegment")];
    assert(views(g11@) =~~= seq![GrammarView::OneOf { elements: seq![GrammarView::Ref { name: "DatetimeUnitSegment"@, optional: false }, GrammarView::Ref { name: "ExpressionSegment"@, optional: false }], terminators: seq![] }, GrammarView::Keyword { word: "FROM"@ }, GrammarView::Ref { name: "ExpressionSegment"@, optional: false }]);
    let g12: Vec<Grammar> = Vec::new();
    assert(views(g12@) =~= Seq::<GrammarView>::empty());
    let g13 = Grammar::sequence_with(g11, g12, ParseMode::Strict);
    let g14 = Grammar::keyword("DISTINCT").optional();
    let g15: Vec<Grammar> = vec![Grammar::reference("FunctionContentsExpressionGrammar")];
    assert(views(g15@) =~~= seq![GrammarView::Ref { name: "FunctionContentsExpressionGrammar"@, optional: false }]);
    let g16: Vec<Grammar> = Vec::new();
    assert(views(g16@) =~= Seq::<GrammarView>::empty());
    let g17 = Grammar::delimited_with(g15, false, None, g16, true);
    let g18: Vec<Grammar> = vec![Grammar::reference("StarSegment"), g17];
    assert(views(g18@) =~~= seq![GrammarView::Ref { name: "StarSegment"@, optional: false }, GrammarView::Delimited { elements: seq![GrammarView::Ref { name: "FunctionContentsExpressionGrammar"@, optional: false }], allow_trailing: false, delimiter: None, terminators: seq![], allow_gaps: true }]);
    let g19: Vec<Grammar> = Vec::new();
    assert(views(g19@) =~= Seq::<GrammarView>::empty());
    let g20 = Grammar::one_of_with(g18, g19);
    let g21: Vec<Grammar> = vec![g14, g20];
    assert(views(g21@) =~~= seq![GrammarView::Optional { grammar: Box::new(GrammarView::Keyword { word: "DISTINCT"@ }) }, GrammarView::OneOf { elements: seq![GrammarView::Ref { name: "StarSegment"@, optional: false }, GrammarView::Delimited { elements: seq![GrammarView::Ref { name: "FunctionContentsExpressionGrammar"@, optional: false }], allow_trailing: false, delimiter: None, terminators: seq![], allow_gaps: true }], terminators: seq![] }]);
    let g22: Vec<Grammar> = Vec::new();
    assert(views(g22@) =~= Seq::<GrammarView>::empty());
    let g23 = Grammar::sequence_with(g21, g22, ParseMode::Strict);
    let g24: Vec<Grammar> = vec![Grammar::keyword("SEPARATOR"), Grammar::reference("LiteralGrammar")];
    assert(views(g24@) =~~= seq![GrammarView::Keyword { word: "SEPARATOR"@ }, GrammarView::Ref { name: "LiteralGrammar"@, optional: false }]);
    let g25: Vec<Grammar> = Vec::new();
    assert(views(g25@) =~= Seq::<GrammarView>::empty());
    let g26 = Grammar::sequence_with(g24, g25, ParseMode::Strict);
    let g27: Vec<Grammar> = vec![Grammar::reference("QuotedLiteralSegment"), Grammar::reference("SingleIdentifierGrammar"), Grammar::reference("ColumnReferenceSegment")];
    assert(views(g27@) =~~= seq![GrammarView::Ref { name: "QuotedLiteralSegment"@, optional: false }, GrammarView::Ref { name: "SingleIdentifierGrammar"@, optional: false }, GrammarView::Ref { name: "ColumnReferenceSegment"@, optional: false }]);
    let g28: Vec<Grammar> = Vec::new();
    assert(views(g28@) =~= Seq::<GrammarView>::empty());
    let g29 = Grammar::one_of_with(g27, g28);
    let g30: Vec<Grammar> = vec![Grammar::reference("QuotedLiteralSegment"), Grammar::reference("SingleIdentifierGrammar"), Grammar::reference("ColumnReferenceSegment")];
    assert(views(g30@) =~~= seq![GrammarView::Ref { name: "QuotedLiteralSegment"@, optional: false }, GrammarView::Ref { name: "SingleIdentifierGrammar"@, optional: false }, GrammarView::Ref { name: "ColumnReferenceSegment"@, optional: false }]);
    let g31: Vec<Grammar> = Vec::new();
    assert(views(g31@) =~= Seq::<GrammarView>::empty());
    let g32 = Grammar::one_of_with(g30, g31);
    let g33: Vec<Grammar> = vec![g29, Grammar::keyword("IN"), g32];
    assert(views(g33@) =~~= seq![GrammarView::OneOf { elements: seq![GrammarView::Ref { name: "QuotedLiteralSegment"@, optional: false }, GrammarView::Ref { name: "SingleIdentifierGrammar"@, optional: false }, GrammarView::Ref { name: "ColumnReferenceSegment"@, optional: false }], terminators: seq![] }, GrammarView::Keyword { word: "IN"@ }, GrammarView::OneOf { elements: seq![GrammarView::Ref { name: "QuotedLiteralSegment"@, optional: false }, GrammarView::Ref { name: "SingleIdentifierGrammar"@, optional: false }, GrammarView::Ref { name: "ColumnReferenceSegment"@, optional: false }], terminators: seq![] }]);
    let g34: Vec<Grammar> = Vec::new();
    assert(views(g34@) =~= Seq::<GrammarView>::empty());
    let g35 = Grammar::sequence_with(g33, g34, ParseMode::Strict);
    let g36: Vec<Grammar> = vec![Grammar::reference("ExpressionSegment"), g3, g7, g13, g23, Grammar::reference("AggregateOrderByClause"), g26, g35, Grammar::reference("IgnoreRespectNullsGrammar"), Grammar::reference("IndexColumnDefinitionSegment"), Grammar::reference("EmptyStructLiteralSegment")];
    assert(views(g36@) =~~= seq![GrammarView::Ref { name: "ExpressionSegment"@, optional: false }, GrammarView::Sequence { elements: seq![GrammarView::Ref { name: "ExpressionSegment"@, optional: false }, GrammarView::Keyword { word: "AS"@ }, GrammarView::Ref { name: "DatatypeSegment"@, optional: false }], terminators: seq![], parse_mode: ParseMode::Strict }, GrammarView::Sequence { elements: seq![GrammarView::Ref { name: "TrimParametersGrammar"@, optional: false }, GrammarView::Exclude { grammar: Box::new(GrammarView::Ref { name: "ExpressionSegment"@, optional: true }), exclude: Box::new(GrammarView::Keyword { word: "FROM"@ }) }, GrammarView::Keyword { word: "FROM"@ }, GrammarView::Ref { name: "ExpressionSegment"@, optional: false }], terminators: seq![], parse_mode: ParseMode::Strict }, GrammarView::Sequence { elements: seq![GrammarView::OneOf { elements: seq![GrammarView::Ref { name: "DatetimeUnitSegment"@, optional: false }, GrammarView::Ref { name: "ExpressionSegment"@, optional: false }], terminators: seq![] }, GrammarView::Keyword { word: "FROM"@ }, GrammarView::Ref { name: "ExpressionSegment"@, optional: false }], terminators: seq![], parse_mode: ParseMode::Strict }, GrammarView::Sequence { elements: seq![GrammarView::Optional { grammar: Box::new(GrammarView::Keyword { word: "DISTINCT"@ }) }, GrammarView::OneOf { elements: seq![GrammarView::Ref { name: "StarSegment"@, optional: false }, GrammarView::Delimited { elements: seq![GrammarView::Ref { name: "FunctionContentsExpressionGrammar"@, optional: false }], allow_trailing: false, delimiter: None, terminators: seq![], allow_gaps: true }], terminators: seq![] }], terminators: seq![], parse_mode: ParseMode::Strict }, GrammarView::Ref { name: "AggregateOrderByClause"@, optional: false }, GrammarView::Sequence { elements: seq![GrammarView::Keyword { word: "SEPARATOR"@ }, GrammarView::Ref { name: "LiteralGrammar"@, optional: false }], terminators: seq![], parse_mode: ParseMode::Strict }, GrammarView::Sequence { elements: seq![GrammarView::OneOf { elements: seq![GrammarView::Ref { name: "QuotedLiteralSegment"@, optional: false }, GrammarView::Ref { name: "SingleIdentifierGrammar"@, optional: false }, GrammarView::Ref { name: "ColumnReferenceSegment"@, optional: false }], terminators: seq![] }, GrammarView::Keyword { word: "IN"@ }, GrammarView::OneOf { elements: seq![GrammarView::Ref { name: "QuotedLiteralSegment"@, optional: false }, GrammarView::Ref { name: "SingleIdentifierGrammar"@, optional: false }, GrammarView::Ref { name: "ColumnReferenceSegment"@, optional: false }], terminators: seq![] }], terminators: seq![], parse_mode: ParseMode::Strict }, GrammarView::Ref { name: "IgnoreRespectNullsGrammar"@, optional: false }, GrammarView::Ref { name: "IndexColumnDefinitionSegment"@, optional: false }, GrammarView::Ref { name: "EmptyStructLiteralSegment"@, optional: false }]);
    let g37: Vec<Grammar> = Vec::new();
    assert(views(g37@) =~= Seq::<GrammarView>::empty());
    let g38 = Grammar::any_number_of_with(g36, g37, 0, None);
    Element::Grammar(g38)
}

/// The ANSI element `PostFunctionGrammar`.
pub open spec fn post_function_grammar_element() -> ElementView {
    ElementView::Grammar(GrammarView::OneOf { elements: seq![GrammarView::Ref { name: "OverClauseSegment"@, optional: false }, GrammarView::Ref { name: "FilterClauseGrammar"@, optional: false }], terminators: seq![] })
}

fn build_post_function_grammar() -> (e: Element)
    ensures
        e@ =~~= post_function_grammar_element(),
{
    let g1: Vec<Grammar> = vec![Grammar::reference("OverClauseSegment"), Grammar::reference("FilterClauseGrammar")];
    assert(views(g1@) =~~= seq![GrammarView::Ref { name: "OverClauseSegment"@, optional: false }, GrammarView::Ref { name: "FilterClauseGrammar"@, optional: false }]);
    let g2: Vec<Grammar> = Vec::new();
    assert(views(g2@) =~= Seq::<GrammarView>::empty());
    let g3 = Grammar::one_of_with(g1, g2);
    Element::Grammar(g3)
}

/// The ANSI element `JoinLikeClauseGrammar`.
pub open spec fn join_like_clause_grammar_element() -> ElementView {
    ElementView::Grammar(GrammarView::Nothing)
}

fn build_join_like_clause_grammar() -> (e: Element)
    ensures
        e@ =~~= join_like_clause_grammar_element(),
{
    Element::Grammar(Grammar::nothing())
}

/// The ANSI element `AccessStatementSegmentGrantRoleWithOptionGrammar`.
pub open spec fn access_statement_segment_grant_role_with_option_grammar_element() -> ElementView {
    ElementView::Grammar(GrammarView::OneOf { elements: seq![GrammarView::Sequence { elements: seq![GrammarView::Keyword { word: "WITH"@ }, GrammarView::Keyword { word: "GRANT"@ }, GrammarView::Keyword { word: "OPTION"@ }], terminators: seq![], parse_mode: ParseMode::Strict }, GrammarView::Sequence { elements: seq![GrammarView::Keyword { word: "WITH"@ }, GrammarView::Keyword { word: "ADMIN"@ }, GrammarView::Keyword { word: "OPTION"@ }], terminators: seq![], parse_mode: ParseMode::Strict }, GrammarView::Sequence { elements: seq![GrammarView::Keyword { word: "COPY"@ }, GrammarView::Keyword { word: "CURRENT"@ }, GrammarView::Keyword { word: "GRANTS"@ }], terminators: seq![], parse_mode: ParseMode::Strict }], terminators: seq![] })
}

fn build_access_statement_segment_grant_role_with_option_grammar() -> (e: Element)
    ensures
        e@ =~~= access_statement_segment_grant_role_with_option_grammar_element(),
{
    let g1: Vec<Grammar> = vec![Grammar::keyword("WITH"), Grammar::keyword("GRANT"), Grammar::keyword("OPTION")];
    assert(views(g1@) =~~= seq![GrammarView::Keyword { word: "WITH"@ }, GrammarView::Keyword { word: "GRANT"@ }, GrammarView::Keyword { word: "OPTION"@ }]);
    let g2: Vec<Grammar> = Vec::new();
    assert(views(g2@) =~= Seq::<GrammarView>::empty());
    let g3 = Grammar::sequence_with(g1, g2, ParseMode::Strict);
    let g4: Vec<Grammar> = vec![Grammar::keyword("WITH"), Grammar::keyword("ADMIN"), Grammar::keyword("OPTION")];
    assert(views(g4@) =~~= seq![GrammarView::Keyword { word: "WITH"@ }, GrammarView::Keyword { word: "ADMIN"@ }, GrammarView::Keyword { word: "OPTION"@ }]);
    let g5: Vec<Grammar> = Vec::new();
    assert(views(g5@) =~= Seq::<GrammarView>::empty());
    let g6 = Grammar::sequence_with(g4, g5, ParseMode::Strict);
    let g7: Vec<Grammar> = vec![Grammar::keyword("COPY"), Grammar::keyword("CURRENT"), Grammar::keyword("GRANTS")];
    assert(views(g7@) =~~= seq![GrammarView::Keyword { word: "COPY"@ }, GrammarView::Keyword { word: "CURRENT"@ }, GrammarView::Keyword { word: "GRANTS"@ }]);
    let g8: Vec<Grammar> = Vec::new();
    assert(views(g8@) =~= Seq::<GrammarView>::empty());
    let g9 = Grammar::sequence_with(g7, g8, ParseMode::Strict);
    let g10: Vec<Grammar> = vec![g3, g6, g9];
    assert(views(g10@) =~~= seq![GrammarView::Sequence { elements: seq![GrammarView::Keyword { word: "WITH"@ }, GrammarView::Keyword { word: "GRANT"@ }, GrammarView::Keyword { word: "OPTION"@ }], terminators: seq![], parse_mode: ParseMode::Strict }, GrammarView::Sequence { elements: seq![GrammarView::Keyword { word: "WITH"@ }, GrammarView::Keyword { word: "ADMIN"@ }, GrammarView::Keyword { word: "OPTION"@ }], terminators: seq![], parse_mode: ParseMode::Strict }, GrammarView::Sequence { elements: seq![GrammarView::Keyword { word: "COPY"@ }, GrammarView::Keyword { word: "CURRENT"@ }, GrammarView::Keyword { word: "GRANTS"@ }], terminators: seq![], parse_mode: ParseMode::Strict }]);
    let g11: Vec<Grammar> = Vec::new();
    assert(views(g11@) =~= Seq::<GrammarView>::empty());
    let g12 = Grammar::one_of_with(g10, g11);
    Element::Grammar(g12)
}

/// The ANSI element `Expression_A_Unary_Operator_Grammar`.
pub open spec fn expression_a_unary_operator_grammar_element() -> ElementView {
    ElementView::Grammar(GrammarView::OneOf { elements: seq![GrammarView::Exclude { grammar: Box::new(GrammarView::Ref { name: "SignedSegmentGrammar"@, optional: false }), exclude: Box::new(GrammarView::Sequence { elements: seq![GrammarView::Ref { name: "QualifiedNumericLiteralSegment"@, optional: false }], terminators: seq![], parse_mode: ParseMode::Strict }) }, GrammarView::Ref { name: "TildeSegment"@, optional: false }, GrammarView::Ref { name: "NotOperatorGrammar"@, optional: false }, GrammarView::Keyword { word: "PRIOR"@ }], terminators: seq![] })
}

fn build_expression_a_unary_operator_grammar() -> (e: Element)
    ensures
        e@ =~~= expression_a_unary_operator_grammar_element(),
{
    let g1: Vec<Grammar> = vec![Grammar::reference("QualifiedNumericLiteralSegment")];
    assert(views(g1@) =~~= seq![GrammarView::Ref { name: "QualifiedNumericLiteralSegment"@, optional: false }]);
    let g2: Vec<Grammar> = Vec::new();
    assert(views(g2@) =~= Seq::<GrammarView>::empty());
    let g3 = Grammar::sequence_with(g1, g2, ParseMode::Strict);
    let g4 = Grammar::reference("SignedSegmentGrammar").exclude(g3);
    let g5: Vec<Grammar> = vec![g4, Grammar::reference("TildeSegment"), Grammar::reference("NotOperatorGrammar"), Grammar::keyword("PRIOR")];
    assert(views(g5@) =~~= seq![GrammarView::Exclude { grammar: Box::new(GrammarView::Ref { name: "SignedSegmentGrammar"@, optional: false }), exclude: Box::new(GrammarView::Sequence { elements: seq![GrammarView::Ref { name: "QualifiedNumericLiteralSegment"@, optional: false }], terminators: seq![], parse_mode: ParseMode::Strict }) }, GrammarView::Ref { name: "TildeSegment"@, optional: false }, GrammarView::Ref { name: "NotOperatorGrammar"@, optional: false }, GrammarView::Keyword { word: "PRIOR"@ }]);
    let g6: Vec<Grammar> = Vec::new();
    assert(views(g6@) =~= Seq::<GrammarView>::empty());
    let g7 = Grammar::one_of_with(g5, g6);
    Element::Grammar(g7)
}

/// The ANSI element `Tail_Recurse_Expression_A_Grammar`.
pub open spec fn tail_recurse_expression_a_grammar_element() -> ElementView {
    ElementView::Grammar(GrammarView::Sequence { elements: seq![GrammarView::AnyNumberOf { elements: seq![GrammarView::Ref { name: "Expression_A_Unary_Operator_Grammar"@, optional: false }], terminators: seq![GrammarView::Ref { name: "BinaryOperatorGrammar"@, optional: false }], min_times: 0, max_times: None }, GrammarView::Ref { name: "Expression_C_Grammar"@, optional: false }], terminators: seq![], parse_mode: ParseMode::Strict })
}

fn build_tail_recurse_expression_a_grammar() -> (e: Element)
    ensures
        e@ =~~= tail_recurse_expression_a_grammar_element(),
{
    let g1: Vec<Grammar> = vec![Grammar::reference("Expression_A_Unary_Operator_Grammar")];
    assert(views(g1@) =~~= seq![GrammarView::Ref { name: "Expression_A_Unary_Operator_Grammar"@, optional: false }]);
    let g2: Vec<Grammar> = vec![Grammar::reference("BinaryOperatorGrammar")];
    assert(views(g2@) =~~= seq![GrammarView::Ref { name: "BinaryOperatorGrammar"@, optional: false }]);
    let g3 = Grammar::any_number_of_with(g1, g2, 0, None);
    let g4: Vec<Grammar> = vec![g3, Grammar::reference("Expression_C_Grammar")];
    assert(views(g4@) =~~= seq![GrammarView::AnyNumberOf { elements: seq![GrammarView::Ref { name: "Expression_A_Unary_Operator_Grammar"@, optional: false }], terminators: seq![GrammarView::Ref { name: "BinaryOperatorGrammar"@, optional: false }], min_times: 0, max_times: None }, GrammarView::Ref { name: "Expression_C_Grammar"@, optional: false }]);
    let g5: Vec<Grammar> = Vec::new();
    assert(views(g5@) =~= Seq::<GrammarView>::empty());
    let g6 = Grammar::sequence_with(g4, g5, ParseMode::Strict);
    Element::Grammar(g6)
}

/// The ANSI element `Expression_A_Grammar`.
pub open spec fn expression_a_grammar_element() -> ElementView {
    ElementView::Grammar(GrammarView::Sequence { elements: seq![GrammarView::Ref { name: "Tail_Recurse_Expression_A_Grammar"@, optional: false }, GrammarView::AnyNumberOf { elements: seq![GrammarView::OneOf { elements: seq![GrammarView::Sequence { elements: seq![GrammarView::Sequence { elements: seq![GrammarView::Optional { grammar: Box::new(GrammarView::Keyword { word: "NOT"@ }) }, GrammarView::Ref { name: "LikeGrammar"@, optional: false }], terminators: seq![], parse_mode: ParseMode::Strict }, GrammarView::Ref { name: "Expression_A_Grammar"@, optional: false }, GrammarView::Optional { grammar: Box::new(GrammarView::Sequence { elements: seq![GrammarView::Keyword { word: "ESCAPE"@ }, GrammarView::Ref { name: "Tail_Recurse_Expression_A_Grammar"@, optional: false }], terminators: seq![], parse_mode: ParseMode::Strict }) }], terminators: seq![], parse_mode: ParseMode::Strict }, GrammarView::Sequence { elements: seq![GrammarView::Ref { name: "BinaryOperatorGrammar"@, optional: false }, GrammarView::Ref { name: "Tail_Recurse_Expression_A_Grammar"@, optional: false }], terminators: seq![], parse_mode: ParseMode::Strict }, GrammarView::Ref { name: "InOperatorGrammar"@, optional: false }, GrammarView::Sequence { elements: seq![GrammarView::Keyword { word: "IS"@ }, GrammarView::Optional { grammar: Box::new(GrammarView::Keyword { word: "NOT"@ }) }, GrammarView::Ref { name: "IsClauseGrammar"@, optional: false }], terminators: seq![], parse_mode: ParseMode::Strict }, GrammarView::Ref { name: "IsNullGrammar"@, optional: false }, GrammarView::Ref { name: "NotNullGrammar"@, optional: false }, GrammarView::Ref { name: "CollateGrammar"@, optional: false }, GrammarView::Sequence { elements: seq![GrammarView::Optional { grammar: Box::new(GrammarView::Keyword { word: "NOT"@ }) }, GrammarView::Keyword { word: "BETWEEN"@ }, GrammarView::Ref { name: "Expression_B_Grammar"@, optional: false }, GrammarView::Keyword { word: "AND"@ }, GrammarView::Ref { name: "Tail_Recurse_Expression_A_Grammar"@, optional: false }], terminators: seq![], parse_mode: ParseMode::Strict }], terminators: seq![] }], terminators: seq![], min_times: 0, max_times: None }], terminators: seq![], parse_mode: ParseMode::Strict })
}

fn build_expression_a_grammar() -> (e: Element)
    ensures
        e@ =~~= expression_a_grammar_element(),
{
    let g1 = Grammar::keyword("NOT").optional();
    let g2: Vec<Grammar> = vec![g1, Grammar::reference("LikeGrammar")];
    assert(views(g2@) =~~= seq![GrammarView::Optional { grammar: Box::new(GrammarView::Keyword { word: "NOT"@ }) }, GrammarView::Ref { name: "LikeGrammar"@, optional: false }]);
    let g3: Vec<Grammar> = Vec::new();
    assert(views(g3@) =~= Seq::<GrammarView>::empty());
    let g4 = Grammar::sequence_with(g2, g3, ParseMode::Strict);
    let g5: Vec<Grammar> = vec![Grammar::keyword("ESCAPE"), Grammar::reference("Tail_Recurse_Expression_A_Grammar")];
    assert(views(g5@) =~~= seq![GrammarView::Keyword { word: "ESCAPE"@ }, GrammarView::Ref { name: "Tail_Recurse_Expression_A_Grammar"@, optional: false }]);
    let g6: Vec<Grammar> = Vec::new();
    assert(views(g6@) =~= Seq::<GrammarView>::empty());
    let g7 = Grammar::sequence_with(g5, g6, ParseMode::Strict);
    let g8 = g7.optional();
    let g9: Vec<Grammar> = vec![g4, Grammar::reference("Expression_A_Grammar"), g8];
    assert(views(g9@) =~~= seq![GrammarView::Sequence { elements: seq![GrammarView::Optional { grammar: Box::new(GrammarView::Keyword { word: "NOT"@ }) }, GrammarView::Ref { name: "LikeGrammar"@, optional: false }], terminators: seq![], parse_mode: ParseMode::Strict }, GrammarView::Ref { name: "Expression_A_Grammar"@, optional: false }, GrammarView::Optional { grammar: Box::new(GrammarView::Sequence { elements: seq![GrammarView::Keyword { word: "ESCAPE"@ }, GrammarView::Ref { name: "Tail_Recurse_Expression_A_Grammar"@, optional: false }], terminators: seq![], parse_mode: ParseMode::Strict }) }]);
    let g10: Vec<Grammar> = Vec::new();
    assert(views(g10@) =~= Seq::<GrammarView>::empty());
    let g11 = Grammar::sequence_with(g9, g10, ParseMode::Strict);
    let g12: Vec<Grammar> = vec![Grammar::reference("BinaryOperatorGrammar"), Grammar::reference("Tail_Recurse_Expression_A_Grammar")];
    assert(views(g12@) =~~= seq![GrammarView::Ref { name: "BinaryOperatorGrammar"@, optional: false }, GrammarView::Ref { name: "Tail_Recurse_Expression_A_Grammar"@, optional: false }]);
    let g13: Vec<Grammar> = Vec::new();
    assert(views(g13@) =~= Seq::<GrammarView>::empty());
    let g14 = Grammar::sequence_with(g12, g13, ParseMode::Strict);
    let g15 = Grammar::keyword("NOT").optional();
    let g16: Vec<Grammar> = vec![Grammar::keyword("IS"), g15, Grammar::reference("IsClauseGrammar")];
    assert(views(g16@) =~~= seq![GrammarView::Keyword { word: "IS"@ }, GrammarView::Optional { grammar: Box::new(GrammarView::Keyword { word: "NOT"@ }) }, GrammarView::Ref { name: "IsClauseGrammar"@, optional: false }]);
    let g17: Vec<Grammar> = Vec::new();
    assert(views(g17@) =~= Seq::<GrammarView>::empty());
    let g18 = Grammar::sequence_with(g16, g17, ParseMode::Strict);
    let g19 = Grammar::keyword("NOT").optional();
    let g20: Vec<Grammar> = vec![g19, Grammar::keyword("BETWEEN"), Grammar::reference("Expression_B_Grammar"), Grammar::keyword("AND"), Grammar::reference("Tail_Recurse_Expression_A_Grammar")];
    assert(views(g20@) =~~= seq![GrammarView::Optional { grammar: Box::new(GrammarView::Keyword { word: "NOT"@ }) }, GrammarView::Keyword { word: "BETWEEN"@ }, GrammarView::Ref { name: "Expression_B_Grammar"@, optional: false }, GrammarView::Keyword { word: "AND"@ }, GrammarView::Ref { name: "Tail_Recurse_Expression_A_Grammar"@, optional: false }]);
    let g21: Vec<Grammar> = Vec::new();
    assert(views(g21@) =~= Seq::<GrammarView>::empty());
    let g22 = Grammar::sequence_with(g20, g21, ParseMode::Strict);
    let g23: Vec<Grammar> = vec![g11, g14, Grammar::reference("InOperatorGrammar"), g18, Grammar::reference("IsNullGrammar"), Grammar::reference("NotNullGrammar"), Grammar::reference("CollateGrammar"), g22];
    assert(views(g23@) =~~= seq![GrammarView::Sequence { elements: seq![GrammarView::Sequence { elements: seq![GrammarView::Optional { grammar: Box::new(GrammarView::Keyword { word: "NOT"@ }) }, GrammarView::Ref { name: "LikeGrammar"@, optional: false }], terminators: seq![], parse_mode: ParseMode::Strict }, GrammarView::Ref { name: "Expression_A_Grammar"@, optional: false }, GrammarView::Optional { grammar: Box::new(GrammarView::Sequence { elements: seq![GrammarView::Keyword { word: "ESCAPE"@ }, GrammarView::Ref { name: "Tail_Recurse_Expression_A_Grammar"@, optional: false }], terminators: seq![], parse_mode: ParseMode::Strict }) }], terminators: seq![], parse_mode: ParseMode::Strict }, GrammarView::Sequence { elements: seq![GrammarView::Ref { name: "BinaryOperatorGrammar"@, optional: false }, GrammarView::Ref { name: "Tail_Recurse_Expression_A_Grammar"@, optional: false }], terminators: seq![], parse_mode: ParseMode::Strict }, GrammarView::Ref { name: "InOperatorGrammar"@, optional: false }, GrammarView::Sequence { elements: seq![GrammarView::Keyword { word: "IS"@ }, GrammarView::Optional { grammar: Box::new(GrammarView::Keyword { word: "NOT"@ }) }, GrammarView::Ref { name: "IsClauseGrammar"@, optional: false }], terminators: seq![], parse_mode: ParseMode::Strict }, GrammarView::Ref { name: "IsNullGrammar"@, optional: false }, GrammarView::Ref { name: "NotNullGrammar"@, optional: false }, GrammarView::Ref { name: "CollateGrammar"@, optional: false }, GrammarView::Sequence { elements: seq![GrammarView::Optional { grammar: Box::new(GrammarView::Keyword { word: "NOT"@ }) }, GrammarView::Keyword { word: "BETWEEN"@ }, GrammarView::Ref { name: "Expression_B_Grammar"@, optional: false }, GrammarView::Keyword { word: "AND"@ }, GrammarView::Ref { name: "Tail_Recurse_Expression_A_Grammar"@, optional: false }], terminators: seq![], parse_mode: ParseMode::Strict }]);
    let g24: Vec<Grammar> = Vec::new();
    assert(views(g24@) =~= Seq::<GrammarView>::empty());
    let g25 = Grammar::one_of_with(g23, g24);
    let g26: Vec<Grammar> = vec![g25];
    assert(views(g26@) =~~= seq![GrammarView::OneOf { elements: seq![GrammarView::Sequence { elements: seq![GrammarView::Sequence { elements: seq![GrammarView::Optional { grammar: Box::new(GrammarView::Keyword { word: "NOT"@ }) }, GrammarView::Ref { name: "LikeGrammar"@, optional: false }], terminators: seq![], parse_mode: ParseMode::Strict }, GrammarView::Ref { name: "Expression_A_Grammar"@, optional: false }, GrammarView::Optional { grammar: Box::new(GrammarView::Sequence { elements: seq![GrammarView::Keyword { word: "ESCAPE"@ }, GrammarView::Ref { name: "Tail_Recurse_Expression_A_Grammar"@, optional: false }], terminators: seq![], parse_mode: ParseMode::Strict }) }], terminators: seq![], parse_mode: ParseMode::Strict }, GrammarView::Sequence { elements: seq![GrammarView::Ref { name: "BinaryOperatorGrammar"@, optional: false }, GrammarView::Ref { name: "Tail_Recurse_Expression_A_Grammar"@, optional: false }], terminators: seq![], parse_mode: ParseMode::Strict }, GrammarView::Ref { name: "InOperatorGrammar"@, optional: false }, GrammarView::Sequence { elements: seq![GrammarView::Keyword { word: "IS"@ }, GrammarView::Optional { grammar: Box::new(GrammarView::Keyword { word: "NOT"@ }) }, GrammarView::Ref { name: "IsClauseGrammar"@, optional: false }], terminators: seq![], parse_mode: ParseMode::Strict }, GrammarView::Ref { name: "IsNullGrammar"@, optional: false }, GrammarView::Ref { name: "NotNullGrammar"@, optional: false }, GrammarView::Ref { name: "CollateGrammar"@, optional: false }, GrammarView::Sequence { elements: seq![GrammarView::Optional { grammar: Box::new(GrammarView::Keyword { word: "NOT"@ }) }, GrammarView::Keyword { word: "BETWEEN"@ }, GrammarView::Ref { name: "Expression_B_Grammar"@, optional: false }, GrammarView::Keyword { word: "AND"@ }, GrammarView::Ref { name: "Tail_Recurse_Expression_A_Grammar"@, optional: false }], terminators: seq![], parse_mode: ParseMode::Strict }], terminators: seq![] }]);
    let g27: Vec<Grammar> = Vec::new();
    assert(views(g27@) =~= Seq::<GrammarView>::empty());
    let g28 = Grammar::any_number_of_with(g26, g27, 0, None);
    let g29: Vec<Grammar> = vec![Grammar::reference("Tail_Recurse_Expression_A_Grammar"), g28];
    assert(views(g29@) =~~= seq![GrammarView::Ref { name: "Tail_Recurse_Expression_A_Grammar"@, optional: false }, GrammarView::AnyNumberOf { elements: seq![GrammarView::OneOf { elements: seq![GrammarView::Sequence { elements: seq![GrammarView::Sequence { elements: seq![GrammarView::Optional { grammar: Box::new(GrammarView::Keyword { word: "NOT"@ }) }, GrammarView::Ref { name: "LikeGrammar"@, optional: false }], terminators: seq![], parse_mode: ParseMode::Strict }, GrammarView::Ref { name: "Expression_A_Grammar"@, optional: false }, GrammarView::Optional { grammar: Box::new(GrammarView::Sequence { elements: seq![GrammarView::Keyword { word: "ESCAPE"@ }, GrammarView::Ref { name: "Tail_Recurse_Expression_A_Grammar"@, optional: false }], terminators: seq![], parse_mode: ParseMode::Strict }) }], terminators: seq![], parse_mode: ParseMode::Strict }, GrammarView::Sequence { elements: seq![GrammarView::Ref { name: "BinaryOperatorGrammar"@, optional: false }, GrammarView::Ref { name: "Tail_Recurse_Expression_A_Grammar"@, optional: false }], terminators: seq![], parse_mode: ParseMode::Strict }, GrammarView::Ref { name: "InOperatorGrammar"@, optional: false }, GrammarView::Sequence { elements: seq![GrammarView::Keyword { word: "IS"@ }, GrammarView::Optional { grammar: Box::new(GrammarView::Keyword { word: "NOT"@ }) }, GrammarView::Ref { name: "IsClauseGrammar"@, optional: false }], terminators: seq![], parse_mode: ParseMode::Strict }, GrammarView::Ref { name: "IsNullGrammar"@, optional: false }, GrammarView::Ref { name: "NotNullGrammar"@, optional: false }, GrammarView::Ref { name: "CollateGrammar"@, optional: false }, GrammarView::Sequence { elements: seq![GrammarView::Optional { grammar: Box::new(GrammarView::Keyword { word: "NOT"@ }) }, GrammarView::Keyword { word: "BETWEEN"@ }, GrammarView::Ref { name: "Expression_B_Grammar"@, optional: false }, GrammarView::Keyword { word: "AND"@ }, GrammarView::Ref { name: "Tail_Recurse_Expression_A_Grammar"@, optional: false }], terminators: seq![], parse_mode: ParseMode::Strict }], terminators: seq![] }], terminators: seq![], min_times: 0, max_times: None }]);
    let g30: Vec<Grammar> = Vec::new();
    assert(views(g30@) =~= Seq::<GrammarView>::empty());
    let g31 = Grammar::sequence_with(g29, g30, ParseMode::Strict);
    Element::Grammar(g31)
}

/// The ANSI element `Expression_B_Unary_Operator_Grammar`.
pub open spec fn expression_b_unary_operator_grammar_element() -> ElementView {
    ElementView::Grammar(GrammarView::OneOf { elements: seq![GrammarView::Exclude { grammar: Box::new(GrammarView::Ref { name: "SignedSegmentGrammar"@, optional: false }), exclude: Box::new(GrammarView::Sequence { elements: seq![GrammarView::Ref { name: "QualifiedNumericLiteralSegment"@, optional: false }], terminators: seq![], parse_mode: ParseMode::Strict }) }, GrammarView::Ref { name: "TildeSegment"@, optional: false }], terminators: seq![] })
}

fn build_expression_b_unary_operator_grammar() -> (e: Element)
    ensures
        e@ =~~= expression_b_unary_operator_grammar_element(),
{
    let g1: Vec<Grammar> = vec![Grammar::reference("QualifiedNumericLiteralSegment")];
    assert(views(g1@) =~~= seq![GrammarView::Ref { name: "QualifiedNumericLiteralSegment"@, optional: false }]);
    let g2: Vec<Grammar> = Vec::new();
    assert(views(g2@) =~= Seq::<GrammarView>::empty());
    let g3 = Grammar::sequence_with(g1, g2, ParseMode::Strict);
    let g4 = Grammar::reference("SignedSegmentGrammar").exclude(g3);
    let g5: Vec<Grammar> = vec![g4, Grammar::reference("TildeSegment")];
    assert(views(g5@) =~~= seq![GrammarView::Exclude { grammar: Box::new(GrammarView::Ref { name: "SignedSegmentGrammar"@, optional: false }), exclude: Box::new(GrammarView::Sequence { elements: seq![GrammarView::Ref { name: "QualifiedNumericLiteralSegment"@, optional: false }], terminators: seq![], parse_mode: ParseMode::Strict }) }, GrammarView::Ref { name: "TildeSegment"@, optional: false }]);
    let g6: Vec<Grammar> = Vec::new();
    assert(views(g6@) =~= Seq::<GrammarView>::empty());
    let g7 = Grammar::one_of_with(g5, g6);
    Element::Grammar(g7)
}

/// The ANSI element `Tail_Recurse_Expression_B_Grammar`.
pub open spec fn tail_recurse_expression_b_grammar_element() -> ElementView {
    ElementView::Grammar(GrammarView::Sequence { elements: seq![GrammarView::AnyNumberOf { elements: seq![GrammarView::Ref { name: "Expression_B_Unary_Operator_Grammar"@, optional: false }], terminators: seq![], min_times: 0, max_times: None }, GrammarView::Ref { name: "Expression_C_Grammar"@, optional: false }], terminators: seq![], parse_mode: ParseMode::Strict })
}

fn build_tail_recurse_expression_b_grammar() -> (e: Element)
    ensures
        e@ =~~= tail_recurse_expression_b_grammar_element(),
{
    let g1: Vec<Grammar> = vec![Grammar::reference("Expression_B_Unary_Operator_Grammar")];
    assert(views(g1@) =~~= seq![GrammarView::Ref { name: "Expression_B_Unary_Operator_Grammar"@, optional: false }]);
    let g2: Vec<Grammar> = Vec::new();
    assert(views(g2@) =~= Seq::<GrammarView>::empty());
    let g3 = Grammar::any_number_of_with(g1, g2, 0, None);
    let g4: Vec<Grammar> = vec![g3, Grammar::reference("Expression_C_Grammar")];
    assert(views(g4@) =~~= seq![GrammarView::AnyNumberOf { elements: seq![GrammarView::Ref { name: "Expression_B_Unary_Operator_Grammar"@, optional: false }], terminators: seq![], min_times: 0, max_times: None }, GrammarView::Ref { name: "Expression_C_Grammar"@, optional: false }]);
    let g5: Vec<Grammar> = Vec::new();
    assert(views(g5@) =~= Seq::<GrammarView>::empty());
    let g6 = Grammar::sequence_with(g4, g5, ParseMode::Strict);
    Element::Grammar(g6)
}

/// The ANSI element `Expression_B_Grammar`.
pub open spec fn expression_b_grammar_element() -> ElementView {
    ElementView::Grammar(GrammarView::Sequence { elements: seq![GrammarView::Ref { name: "Tail_Recurse_Expression_B_Grammar"@, optional: false }, GrammarView::AnyNumberOf { elements: seq![GrammarView::OneOf { elements: seq![GrammarView::Sequence { elements: seq![GrammarView::OneOf { elements: seq![GrammarView::Ref { name: "ArithmeticBinaryOperatorGrammar"@, optional: false }, GrammarView::Ref { name: "StringBinaryOperatorGrammar"@, optional: false }, GrammarView::Ref { name: "ComparisonOperatorGrammar"@, optional: false }], terminators: seq![] }, GrammarView::Ref { name: "Tail_Recurse_Expression_B_Grammar"@, optional: false }], terminators: seq![], parse_mode: ParseMode::Strict }], terminators: seq![] }], terminators: seq![], min_times: 0, max_times: None }], terminators: seq![], parse_mode: ParseMode::Strict })
}

fn build_expression_b_grammar() -> (e: Element)
    ensures
        e@ =~~= expression_b_grammar_element(),
{
    let g1: Vec<Grammar> = vec![Grammar::reference("ArithmeticBinaryOperatorGrammar"), Grammar::reference("StringBinaryOperatorGrammar"), Grammar::reference("ComparisonOperatorGrammar")];
    assert(views(g1@) =~~= seq![GrammarView::Ref { name: "ArithmeticBinaryOperatorGrammar"@, optional: false }, GrammarView::Ref { name: "StringBinaryOperatorGrammar"@, optional: false }, GrammarView::Ref { name: "ComparisonOperatorGrammar"@, optional: false }]);
    let g2: Vec<Grammar> = Vec::new();
    assert(views(g2@) =~= Seq::<GrammarView>::empty());
    let g3 = Grammar::one_of_with(g1, g2);
    let g4: Vec<Grammar> = vec![g3, Grammar::reference("Tail_Recurse_Expression_B_Grammar")];
    assert(views(g4@) =~~= seq![GrammarView::OneOf { elements: seq![GrammarView::Ref { name: "ArithmeticBinaryOperatorGrammar"@, optional: false }, GrammarView::Ref { name: "StringBinaryOperatorGrammar"@, optional: false }, GrammarView::Ref { name: "ComparisonOperatorGrammar"@, optional: false }], terminators: seq![] }, GrammarView::Ref { name: "Tail_Recurse_Expression_B_Grammar"@, optional: false }]);
    let g5: Vec<Grammar> = Vec::new();
    assert(views(g5@) =~= Seq::<GrammarView>::empty());
    let g6 = Grammar::sequence_with(g4, g5, ParseMode::Strict);
    let g7: Vec<Grammar> = vec![g6];
    assert(views(g7@) =~~= seq![GrammarView::Sequence { elements: seq![GrammarView::OneOf { elements: seq![GrammarView::Ref { name: "ArithmeticBinaryOperatorGrammar"@, optional: false }, GrammarView::Ref { name: "StringBinaryOperatorGrammar"@, optional: false }, GrammarView::Ref { name: "ComparisonOperatorGrammar"@, optional: false }], terminators: seq![] }, GrammarView::Ref { name: "Tail_Recurse_Expression_B_Grammar"@, optional: false }], terminators: seq![], parse_mode: ParseMode::Strict }]);
    let g8: Vec<Grammar> = Vec::new();
    assert(views(g8@) =~= Seq::<GrammarView>::empty());
    let g9 = Grammar::one_of_with(g7, g8);
    let g10: Vec<Grammar> = vec![g9];
    assert(views(g10@) =~~= seq![GrammarView::OneOf { elements: seq![GrammarView::Sequence { elements: seq![GrammarView::OneOf { elements: seq![GrammarView::Ref { name: "ArithmeticBinaryOperatorGrammar"@, optional: false }, GrammarView::Ref { name: "StringBinaryOperatorGrammar"@, optional: false }, GrammarView::Ref { name: "ComparisonOperatorGrammar"@, optional: false }], terminators: seq![] }, GrammarView::Ref { name: "Tail_Recurse_Expression_B_Grammar"@, optional: false }], terminators: seq![], parse_mode: ParseMode::Strict }], terminators: seq![] }]);
    let g11: Vec<Grammar> = Vec::new();
    assert(views(g11@) =~= Seq::<GrammarView>::empty());
    let g12 = Grammar::any_number_of_with(g10, g11, 0, None);
    let g13: Vec<Grammar> = vec![Grammar::reference("Tail_Recurse_Expression_B_Grammar"), g12];
    assert(views(g13@) =~~= seq![GrammarView::Ref { name: "Tail_Recurse_Expression_B_Grammar"@, optional: false }, GrammarView::AnyNumberOf { elements: seq![GrammarView::OneOf { elements: seq![GrammarView::Sequence { elements: seq![GrammarView::OneOf { elements: seq![GrammarView::Ref { name: "ArithmeticBinaryOperatorGrammar"@, optional: false }, GrammarView::Ref { name: "StringBinaryOperatorGrammar"@, optional: false }, GrammarView::Ref { name: "ComparisonOperatorGrammar"@, optional: false }], terminators: seq![] }, GrammarView::Ref { name: "Tail_Recurse_Expression_B_Grammar"@, optional: false }], terminators: seq![], parse_mode: ParseMode::Strict }], terminators: seq![] }], terminators: seq![], min_times: 0, max_times: None }]);
    let g14: Vec<Grammar> = Vec::new();
    assert(views(g14@) =~= Seq::<GrammarView>::empty());
    let g15 = Grammar::sequence_with(g13, g14, ParseMode::Strict);
    Element::Grammar(g15)
}

/// The ANSI element `Expression_C_Grammar`.
pub open spec fn expression_c_grammar_element() -> ElementView {
    ElementView::Grammar(GrammarView::OneOf { elements: seq![GrammarView::Sequence { elements: seq![GrammarView::Keyword { word: "EXISTS"@ }, GrammarView::Bracketed { elements: seq![GrammarView::Ref { name: "SelectableGrammar"@, optional: false }], bracket_type: "round"@ }], terminators: seq![], parse_mode: ParseMode::Strict }, GrammarView::Sequence { elements: seq![GrammarView::OneOf { elements: seq![GrammarView::Ref { name: "Expression_D_Grammar"@, optional: false }, GrammarView::Ref { name: "CaseExpressionSegment"@, optional: false }], terminators: seq![] }, GrammarView::Optional { grammar: Box::new(GrammarView::AnyNumberOf { elements: seq![GrammarView::Ref { name: "TimeZoneGrammar"@, optional: false }], terminators: seq![], min_times: 0, max_times: None }) }], terminators: seq![], parse_mode: ParseMode::Strict }, GrammarView::Ref { name: "ShorthandCastSegment"@, optional: false }], terminators: seq![GrammarView::Ref { name: "CommaSegment"@, optional: false }] })
}

fn build_expression_c_grammar() -> (e: Element)
    ensures
        e@ =~~= expression_c_grammar_element(),
{
    let g1: Vec<Grammar> = vec![Grammar::reference("SelectableGrammar")];
    assert(views(g1@) =~~= seq![GrammarView::Ref { name: "SelectableGrammar"@, optional: false }]);
    let g2 = Grammar::bracketed_with(g1, "round");
    let g3: Vec<Grammar> = vec![Grammar::keyword("EXISTS"), g2];
    assert(views(g3@) =~~= seq![GrammarView::Keyword { word: "EXISTS"@ }, GrammarView::Bracketed { elements: seq![GrammarView::Ref { name: "SelectableGrammar"@, optional: false }], bracket_type: "round"@ }]);
    let g4: Vec<Grammar> = Vec::new();
    assert(views(g4@) =~= Seq::<GrammarView>::empty());
    let g5 = Grammar::sequence_with(g3, g4, ParseMode::Strict);
    let g6: Vec<Grammar> = vec![Grammar::reference("Expression_D_Grammar"), Grammar::reference("CaseExpressionSegment")];
    assert(views(g6@) =~~= seq![GrammarView::Ref { name: "Expression_D_Grammar"@, optional: false }, GrammarView::Ref { name: "CaseExpressionSegment"@, optional: false }]);
    let g7: Vec<Grammar> = Vec::new();
    assert(views(g7@) =~= Seq::<GrammarView>::empty());
    let g8 = Grammar::one_of_with(g6, g7);
    let g9: Vec<Grammar> = vec![Grammar::reference("TimeZoneGrammar")];
    assert(views(g9@) =~~= seq![GrammarView::Ref { name: "TimeZoneGrammar"@, optional: false }]);
    let g10: Vec<Grammar> = Vec::new();
    assert(views(g10@) =~= Seq::<GrammarView>::empty());
    let g11 = Grammar::any_number_of_with(g9, g10, 0, None);
    let g12 = g11.optional();
    let g13: Vec<Grammar> = vec![g8, g12];
    assert(views(g13@) =~~= seq![GrammarView::OneOf { elements: seq![GrammarView::Ref { name: "Expression_D_Grammar"@, optional: false }, GrammarView::Ref { name: "CaseExpressionSegment"@, optional: false }], terminators: seq![] }, GrammarView::Optional { grammar: Box::new(GrammarView::AnyNumberOf { elements: seq![GrammarView::Ref { name: "TimeZoneGrammar"@, optional: false }], terminators: seq![], min_times: 0, max_times: None }) }]);
    let g14: Vec<Grammar> = Vec::new();
    assert(views(g14@) =~= Seq::<GrammarView>::empty());
    let g15 = Grammar::sequence_with(g13, g14, ParseMode::Strict);
    let g16: Vec<Grammar> = vec![g5, g15, Grammar::reference("ShorthandCastSegment")];
    assert(views(g16@) =~~= seq![GrammarView::Sequence { elements: seq![GrammarView::Keyword { word: "EXISTS"@ }, GrammarView::Bracketed { elements: seq![GrammarView::Ref { name: "SelectableGrammar"@, optional: false }], bracket_type: "round"@ }], terminators: seq![], parse_mode: ParseMode::Strict }, GrammarView::Sequence { elements: seq![GrammarView::OneOf { elements: seq![GrammarView::Ref { name: "Expression_D_Grammar"@, optional: false }, GrammarView::Ref { name: "CaseExpressionSegment"@, optional: false }], terminators: seq![] }, GrammarView::Optional { grammar: Box::new(GrammarView::AnyNumberOf { elements: seq![GrammarView::Ref { name: "TimeZoneGrammar"@, optional: false }], terminators: seq![], min_times: 0, max_times: None }) }], terminators: seq![], parse_mode: ParseMode::Strict }, GrammarView::Ref { name: "ShorthandCastSegment"@, optional: false }]);
    let g17: Vec<Grammar> = vec![Grammar::reference("CommaSegment")];
    assert(views(g17@) =~~= seq![GrammarView::Ref { name: "CommaSegment"@, optional: false }]);
    let g18 = Grammar::one_of_with(g16, g17);
    Element::Grammar(g18)
}

/// The ANSI element `Expression_D_Grammar`.
pub open spec fn expression_d_grammar_element() -> ElementView {
    ElementView::Grammar(GrammarView::Sequence { elements: seq![GrammarView::OneOf { elements: seq![GrammarView::Ref { name: "BareFunctionSegment"@, optional: false }, GrammarView::Ref { name: "FunctionSegment"@, optional: false }, GrammarView::InMode { grammar: Box::new(GrammarView::Bracketed { elements: seq![GrammarView::OneOf { elements: seq![GrammarView::Ref { name: "ExpressionSegment"@, optional: false }, GrammarView::Ref { name: "SelectableGrammar"@, optional: false }, GrammarView::Delimited { elements: seq![GrammarView::Ref { name: "ColumnReferenceSegment"@, optional: false }, GrammarView::Ref { name: "FunctionSegment"@, optional: false }, GrammarView::Ref { name: "LiteralGrammar"@, optional: false }, GrammarView::Ref { name: "LocalAliasSegment"@, optional: false }], allow_trailing: false, delimiter: None, terminators: seq![], allow_gaps: true }], terminators: seq![] }], bracket_type: "round"@ }), parse_mode: ParseMode::Greedy }, GrammarView::Ref { name: "SelectStatementSegment"@, optional: false }, GrammarView::Ref { name: "LiteralGrammar"@, optional: false }, GrammarView::Ref { name: "IntervalExpressionSegment"@, optional: false }, GrammarView::Ref { name: "TypedStructLiteralSegment"@, optional: false }, GrammarView::Ref { name: "ArrayExpressionSegment"@, optional: false }, GrammarView::Ref { name: "ColumnReferenceSegment"@, optional: false }, GrammarView::Sequence { elements: seq![GrammarView::Ref { name: "SingleIdentifierGrammar"@, optional: false }, GrammarView::Ref { name: "ObjectReferenceDelimiterGrammar"@, optional: false }, GrammarView::Ref { name: "StarSegment"@, optional: false }], terminators: seq![], parse_mode: ParseMode::Strict }, GrammarView::Sequence { elements: seq![GrammarView::Ref { name: "StructTypeSegment"@, optional: false }, GrammarView::Bracketed { elements: seq![GrammarView::Delimited { elements: seq![GrammarView::Ref { name: "ExpressionSegment"@, optional: false }], allow_trailing: false, delimiter: None, terminators: seq![], allow_gaps: true }], bracket_type: "round"@ }], terminators: seq![], parse_mode: ParseMode::Strict }, GrammarView::Sequence { elements: seq![GrammarView::Ref { name: "DatatypeSegment"@, optional: false }, GrammarView::OneOf { elements: seq![GrammarView::Ref { name: "QuotedLiteralSegment"@, optional: false }, GrammarView::Ref { name: "NumericLiteralSegment"@, optional: false }, GrammarView::Ref { name: "BooleanLiteralGrammar"@, optional: false }, GrammarView::Ref { name: "NullLiteralSegment"@, optional: false }, GrammarView::Ref { name: "DateTimeLiteralGrammar"@, optional: false }], terminators: seq![] }], terminators: seq![], parse_mode: ParseMode::Strict }, GrammarView::Ref { name: "LocalAliasSegment"@, optional: false }], terminators: seq![GrammarView::Ref { name: "CommaSegment"@, optional: false }] }, GrammarView::Ref { name: "AccessorGrammar"@, optional: true }], terminators: seq![], parse_mode: ParseMode::Strict })
}

fn build_expression_d_grammar() -> (e: Element)
    ensures
        e@ =~~= expression_d_grammar_element(),
{
    let g1: Vec<Grammar> = vec![Grammar::reference("ColumnReferenceSegment"), Grammar::reference("FunctionSegment"), Grammar::reference("LiteralGrammar"), Grammar::reference("LocalAliasSegment")];
    assert(views(g1@) =~~= seq![GrammarView::Ref { name: "ColumnReferenceSegment"@, optional: false }, GrammarView::Ref { name: "FunctionSegment"@, optional: false }, GrammarView::Ref { name: "LiteralGrammar"@, optional: false }, GrammarView::Ref { name: "LocalAliasSegment"@, optional: false }]);
    let g2: Vec<Grammar> = Vec::new();
    assert(views(g2@) =~= Seq::<GrammarView>::empty());
    let g3 = Grammar::delimited_with(g1, false, None, g2, true);
    let g4: Vec<Grammar> = vec![Grammar::reference("ExpressionSegment"), Grammar::reference("SelectableGrammar"), g3];
    assert(views(g4@) =~~= seq![GrammarView::Ref { name: "ExpressionSegment"@, optional: false }, GrammarView::Ref { name: "SelectableGrammar"@, optional: false }, GrammarView::Delimited { elements: seq![GrammarView::Ref { name: "ColumnReferenceSegment"@, optional: false }, GrammarView::Ref { name: "FunctionSegment"@, optional: false }, GrammarView::Ref { name: "LiteralGrammar"@, optional: false }, GrammarView::Ref { name: "LocalAliasSegment"@, optional: false }], allow_trailing: false, delimiter: None, terminators: seq![], allow_gaps: true }]);
    let g5: Vec<Grammar> = Vec::new();
    assert(views(g5@) =~= Seq::<GrammarView>::empty());
    let g6 = Grammar::one_of_with(g4, g5);
    let g7: Vec<Grammar> = vec![g6];
    assert(views(g7@) =~~= seq![GrammarView::OneOf { elements: seq![GrammarView::Ref { name: "ExpressionSegment"@, optional: false }, GrammarView::Ref { name: "SelectableGrammar"@, optional: false }, GrammarView::Delimited { elements: seq![GrammarView::Ref { name: "ColumnReferenceSegment"@, optional: false }, GrammarView::Ref { name: "FunctionSegment"@, optional: false }, GrammarView::Ref { name: "LiteralGrammar"@, optional: false }, GrammarView::Ref { name: "LocalAliasSegment"@, optional: false }], allow_trailing: false, delimiter: None, terminators: seq![], allow_gaps: true }], terminators: seq![] }]);
    let g8 = Grammar::bracketed_with(g7, "round");
    let g9 = g8.in_mode(ParseMode::Greedy);
    let g10: Vec<Grammar> = vec![Grammar::reference("SingleIdentifierGrammar"), Grammar::reference("ObjectReferenceDelimiterGrammar"), Grammar::reference("StarSegment")];
    assert(views(g10@) =~~= seq![GrammarView::Ref { name: "SingleIdentifierGrammar"@, optional: false }, GrammarView::Ref { name: "ObjectReferenceDelimiterGrammar"@, optional: false }, GrammarView::Ref { name: "StarSegment"@, optional: false }]);
    let g11: Vec<Grammar> = Vec::new();
    assert(views(g11@) =~= Seq::<GrammarView>::empty());
    let g12 = Grammar::sequence_with(g10, g11, ParseMode::Strict);
    let g13: Vec<Grammar> = vec![Grammar::reference("ExpressionSegment")];
    assert(views(g13@) =~~= seq![GrammarView::Ref { name: "ExpressionSegment"@, optional: false }]);
    let g14: Vec<Grammar> = Vec::new();
    assert(views(g14@) =~= Seq::<GrammarView>::empty());
    let g15 = Grammar::delimited_with(g13, false, None, g14, true);
    let g16: Vec<Grammar> = vec![g15];
    assert(views(g16@) =~~= seq![GrammarView::Delimited { elements: seq![GrammarView::Ref { name: "ExpressionSegment"@, optional: false }], allow_trailing: false, delimiter: None, terminators: seq![], allow_gaps: true }]);
    let g17 = Grammar::bracketed_with(g16, "round");
    let g18: Vec<Grammar> = vec![Grammar::reference("StructTypeSegment"), g17];
    assert(views(g18@) =~~= seq![GrammarView::Ref { name: "StructTypeSegment"@, optional: false }, GrammarView::Bracketed { elements: seq![GrammarView::Delimited { elements: seq![GrammarView::Ref { name: "ExpressionSegment"@, optional: false }], allow_trailing: false, delimiter: None, terminators: seq![], allow_gaps: true }], bracket_type: "round"@ }]);
    let g19: Vec<Grammar> = Vec::new();
    assert(views(g19@) =~= Seq::<GrammarView>::empty());
    let g20 = Grammar::sequence_with(g18, g19, ParseMode::Strict);
    let g21: Vec<Grammar> = vec![Grammar::reference("QuotedLiteralSegment"), Grammar::reference("NumericLiteralSegment"), Grammar::reference("BooleanLiteralGrammar"), Grammar::reference("NullLiteralSegment"), Grammar::reference("DateTimeLiteralGrammar")];
    assert(views(g21@) =~~= seq![GrammarView::Ref { name: "QuotedLiteralSegment"@, optional: false }, GrammarView::Ref { name: "NumericLiteralSegment"@, optional: false }, GrammarView::Ref { name: "BooleanLiteralGrammar"@, optional: false }, GrammarView::Ref { name: "NullLiteralSegment"@, optional: false }, GrammarView::Ref { name: "DateTimeLiteralGrammar"@, optional: false }]);
    let g22: Vec<Grammar> = Vec::new();
    assert(views(g22@) =~= Seq::<GrammarView>::empty());
    let g23 = Grammar::one_of_with(g21, g22);
    let g24: Vec<Grammar> = vec![Grammar::reference("DatatypeSegment"), g23];
    assert(views(g24@) =~~= seq![GrammarView::Ref { name: "DatatypeSegment"@, optional: false }, GrammarView::OneOf { elements: seq![GrammarView::Ref { name: "QuotedLiteralSegment"@, optional: false }, GrammarView::Ref { name: "NumericLiteralSegment"@, optional: false }, GrammarView::Ref { name: "BooleanLiteralGrammar"@, optional: false }, GrammarView::Ref { name: "NullLiteralSegment"@, optional: false }, GrammarView::Ref { name: "DateTimeLiteralGrammar"@, optional: false }], terminators: seq![] }]);
    let g25: Vec<Grammar> = Vec::new();
    assert(views(g25@) =~= Seq::<GrammarView>::empty());
    let g26 = Grammar::sequence_with(g24, g25, ParseMode::Strict);
    let g27: Vec<Grammar> = vec![Grammar::reference("BareFunctionSegment"), Grammar::reference("FunctionSegment"), g9, Grammar::reference("SelectStatementSegment"), Grammar::reference("LiteralGrammar"), Grammar::reference("IntervalExpressionSegment"), Grammar::reference("TypedStructLiteralSegment"), Grammar::reference("ArrayExpressionSegment"), Grammar::reference("ColumnReferenceSegment"), g12, g20, g26, Grammar::reference("LocalAliasSegment")];
    assert(views(g27@) =~~= seq![GrammarView::Ref { name: "BareFunctionSegment"@, optional: false }, GrammarView::Ref { name: "FunctionSegment"@, optional: false }, GrammarView::InMode { grammar: Box::new(GrammarView::Bracketed { elements: seq![GrammarView::OneOf { elements: seq![GrammarView::Ref { name: "ExpressionSegment"@, optional: false }, GrammarView::Ref { name: "SelectableGrammar"@, optional: false }, GrammarView::Delimited { elements: seq![GrammarView::Ref { name: "ColumnReferenceSegment"@, optional: false }, GrammarView::Ref { name: "FunctionSegment"@, optional: false }, GrammarView::Ref { name: "LiteralGrammar"@, optional: false }, GrammarView::Ref { name: "LocalAliasSegment"@, optional: false }], allow_trailing: false, delimiter: None, terminators: seq![], allow_gaps: true }], terminators: seq![] }], bracket_type: "round"@ }), parse_mode: ParseMode::Greedy }, GrammarView::Ref { name: "SelectStatementSegment"@, optional: false }, GrammarView::Ref { name: "LiteralGrammar"@, optional: false }, GrammarView::Ref { name: "IntervalExpressionSegment"@, optional: false }, GrammarView::Ref { name: "TypedStructLiteralSegment"@, optional: false }, GrammarView::Ref { name: "ArrayExpressionSegment"@, optional: false }, GrammarView::Ref { name: "ColumnReferenceSegment"@, optional: false }, GrammarView::Sequence { elements: seq![GrammarView::Ref { name: "SingleIdentifierGrammar"@, optional: false }, GrammarView::Ref { name: "ObjectReferenceDelimiterGrammar"@, optional: false }, GrammarView::Ref { name: "StarSegment"@, optional: false }], terminators: seq![], parse_mode: ParseMode::Strict }, GrammarView::Sequence { elements: seq![GrammarView::Ref { name: "StructTypeSegment"@, optional: false }, GrammarView::Bracketed { elements: seq![GrammarView::Delimited { elements: seq![GrammarView::Ref { name: "ExpressionSegment"@, optional: false }], allow_trailing: false, delimiter: None, terminators: seq![], allow_gaps: true }], bracket_type: "round"@ }], terminators: seq![], parse_mode: ParseMode::Strict }, GrammarView::Sequence { elements: seq![GrammarView::Ref { name: "DatatypeSegment"@, optional: false }, GrammarView::OneOf { elements: seq![GrammarView::Ref { name: "QuotedLiteralSegment"@, optional: false }, GrammarView::Ref { name: "NumericLiteralSegment"@, optional: false }, GrammarView::Ref { name: "BooleanLiteralGrammar"@, optional: false }, GrammarView::Ref { name: "NullLiteralSegment"@, optional: false }, GrammarView::Ref { name: "DateTimeLiteralGrammar"@, optional: false }], terminators: seq![] }], terminators: seq![], parse_mode: ParseMode::Strict }, GrammarView::Ref { name: "LocalAliasSegment"@, optional: false }]);
    let g28: Vec<Grammar> = vec![Grammar::reference("CommaSegment")];
    assert(views(g28@) =~~= seq![GrammarView::Ref { name: "CommaSegment"@, optional: false }]);
    let g29 = Grammar::one_of_with(g27, g28);
    let g30: Vec<Grammar> = vec![g29, Grammar::optional_reference("AccessorGrammar")];
    assert(views(g30@) =~~= seq![GrammarView::OneOf { elements: seq![GrammarView::Ref { name: "BareFunctionSegment"@, optional: false }, GrammarView::Ref { name: "FunctionSegment"@, optional: false }, GrammarView::InMode { grammar: Box::new(GrammarView::Bracketed { elements: seq![GrammarView::OneOf { elements: seq![GrammarView::Ref { name: "ExpressionSegment"@, optional: false }, GrammarView::Ref { name: "SelectableGrammar"@, optional: false }, GrammarView::Delimited { elements: seq![GrammarView::Ref { name: "ColumnReferenceSegment"@, optional: false }, GrammarView::Ref { name: "FunctionSegment"@, optional: false }, GrammarView::Ref { name: "LiteralGrammar"@, optional: false }, GrammarView::Ref { name: "LocalAliasSegment"@, optional: false }], allow_trailing: false, delimiter: None, terminators: seq![], allow_gaps: true }], terminators: seq![] }], bracket_type: "round"@ }), parse_mode: ParseMode::Greedy }, GrammarView::Ref { name: "SelectStatementSegment"@, optional: false }, GrammarView::Ref { name: "LiteralGrammar"@, optional: false }, GrammarView::Ref { name: "IntervalExpressionSegment"@, optional: false }, GrammarView::Ref { name: "TypedStructLiteralSegment"@, optional: false }, GrammarView::Ref { name: "ArrayExpressionSegment"@, optional: false }, GrammarView::Ref { name: "ColumnReferenceSegment"@, optional: false }, GrammarView::Sequence { elements: seq![GrammarView::Ref { name: "SingleIdentifierGrammar"@, optional: false }, GrammarView::Ref { name: "ObjectReferenceDelimiterGrammar"@, optional: false }, GrammarView::Ref { name: "StarSegment"@, optional: false }], terminators: seq![], parse_mode: ParseMode::Strict }, GrammarView::Sequence { elements: seq![GrammarView::Ref { name: "StructTypeSegment"@, optional: false }, GrammarView::Bracketed { elements: seq![GrammarView::Delimited { elements: seq![GrammarView::Ref { name: "ExpressionSegment"@, optional: false }], allow_trailing: false, delimiter: None, terminators: seq![], allow_gaps: true }], bracket_type: "round"@ }], terminators: seq![], parse_mode: ParseMode::Strict }, GrammarView::Sequence { elements: seq![GrammarView::Ref { name: "DatatypeSegment"@, optional: false }, GrammarView::OneOf { elements: seq![GrammarView::Ref { name: "QuotedLiteralSegment"@, optional: false }, GrammarView::Ref { name: "NumericLiteralSegment"@, optional: false }, GrammarView::Ref { name: "BooleanLiteralGrammar"@, optional: false }, GrammarView::Ref { name: "NullLiteralSegment"@, optional: false }, GrammarView::Ref { name: "DateTimeLiteralGrammar"@, optional: false }], terminators: seq![] }], terminators: seq![], parse_mode: ParseMode::Strict }, GrammarView::Ref { name: "LocalAliasSegment"@, optional: false }], terminators: seq![GrammarView::Ref { name: "CommaSegment"@, optional: false }] }, GrammarView::Ref { name: "AccessorGrammar"@, optional: true }]);
    let g31: Vec<Grammar> = Vec::new();
    assert(views(g31@) =~= Seq::<GrammarView>::empty());
    let g32 = Grammar::sequence_with(g30, g31, ParseMode::Strict);
    Element::Grammar(g32)
}

/// The ANSI element `AccessorGrammar`.
pub open spec fn accessor_grammar_element() -> ElementView {
    ElementView::Grammar(GrammarView::AnyNumberOf { elements: seq![GrammarView::Ref { name: "ArrayAccessorSegment"@, optional: false }], terminators: seq![], min_times: 0, max_times: None })
}

fn build_accessor_grammar() -> (e: Element)
    ensures
        e@ =~~= accessor_grammar_element(),
{
    let g1: Vec<Grammar> = vec![Grammar::reference("ArrayAccessorSegment")];
    assert(views(g1@) =~~= seq![GrammarView::Ref { name: "ArrayAccessorSegment"@, optional: false }]);
    let g2: Vec<Grammar> = Vec::new();
    assert(views(g2@) =~= Seq::<GrammarView>::empty());
    let g3 = Grammar::any_number_of_with(g1, g2, 0, None);
    Element::Grammar(g3)
}

/// The ANSI element `SelectableGrammar`.
pub open spec fn selectable_grammar_element() -> ElementView {
    ElementView::Grammar(GrammarView::OneOf { elements: seq![GrammarView::OneOf { elements: seq![GrammarView::Bracketed { elements: seq![GrammarView::Ref { name: "WithCompoundStatementSegment"@, optional: false }], bracket_type: "round"@ }, GrammarView::Ref { name: "WithCompoundStatementSegment"@, optional: false }], terminators: seq![] }, GrammarView::Ref { name: "NonWithSelectableGrammar"@, optional: false }, GrammarView::Bracketed { elements: seq![GrammarView::Ref { name: "SelectableGrammar"@, optional: false }], bracket_type: "round"@ }], terminators: seq![] })
}

fn build_selectable_grammar() -> (e: Element)
    ensures
        e@ =~~= selectable_grammar_element(),
{
    let g1: Vec<Grammar> = vec![Grammar::reference("WithCompoundStatementSegment")];
    assert(views(g1@) =~~= seq![GrammarView::Ref { name: "WithCompoundStatementSegment"@, optional: false }]);
    let g2 = Grammar::bracketed_with(g1, "round");
    let g3: Vec<Grammar> = vec![g2, Grammar::reference("WithCompoundStatementSegment")];
    assert(views(g3@) =~~= seq![GrammarView::Bracketed { elements: seq![GrammarView::Ref { name: "WithCompoundStatementSegment"@, optional: false }], bracket_type: "round"@ }, GrammarView::Ref { name: "WithCompoundStatementSegment"@, optional: false }]);
    let g4: Vec<Grammar> = Vec::new();
    assert(views(g4@) =~= Seq::<GrammarView>::empty());
    let g5 = Grammar::one_of_with(g3, g4);
    let g6: Vec<Grammar> = vec![Grammar::reference("SelectableGrammar")];
    assert(views(g6@) =~~= seq![GrammarView::Ref { name: "SelectableGrammar"@, optional: false }]);
    let g7 = Grammar::bracketed_with(g6, "round");
    let g8: Vec<Grammar> = vec![g5, Grammar::reference("NonWithSelectableGrammar"), g7];
    assert(views(g8@) =~~= seq![GrammarView::OneOf { elements: seq![GrammarView::Bracketed { elements: seq![GrammarView::Ref { name: "WithCompoundStatementSegment"@, optional: false }], bracket_type: "round"@ }, GrammarView::Ref { name: "WithCompoundStatementSegment"@, optional: false }], terminators: seq![] }, GrammarView::Ref { name: "NonWithSelectableGrammar"@, optional: false }, GrammarView::Bracketed { elements: seq![GrammarView::Ref { name: "SelectableGrammar"@, optional: false }], bracket_type: "round"@ }]);
    let g9: Vec<Grammar> = Vec::new();
    assert(views(g9@) =~= Seq::<GrammarView>::empty());
    let g10 = Grammar::one_of_with(g8, g9);
    Element::Grammar(g10)
}

/// The ANSI element `NonWithSelectableGrammar`.
pub open spec fn non_with_selectable_grammar_element() -> ElementView {
    ElementView::Grammar(GrammarView::OneOf { elements: seq![GrammarView::Ref { name: "SetExpressionSegment"@, optional: false }, GrammarView::OneOf { elements: seq![GrammarView::Bracketed { elements: seq![GrammarView::Ref { name: "SelectStatementSegment"@, optional: false }], bracket_type: "round"@ }, GrammarView::Ref { name: "SelectStatementSegment"@, optional: false }], terminators: seq![] }, GrammarView::Ref { name: "NonSetSelectableGrammar"@, optional: false }], terminators: seq![] })
}

fn build_non_with_selectable_grammar() -> (e: Element)
    ensures
        e@ =~~= non_with_selectable_grammar_element(),
{
    let g1: Vec<Grammar> = vec![Grammar::reference("SelectStatementSegment")];
    assert(views(g1@) =~~= seq![GrammarView::Ref { name: "SelectStatementSegment"@, optional: false }]);
    let g2 = Grammar::bracketed_with(g1, "round");
    let g3: Vec<Grammar> = vec![g2, Grammar::reference("SelectStatementSegment")];
    assert(views(g3@) =~~= seq![GrammarView::Bracketed { elements: seq![GrammarView::Ref { name: "SelectStatementSegment"@, optional: false }], bracket_type: "round"@ }, GrammarView::Ref { name: "SelectStatementSegment"@, optional: false }]);
    let g4: Vec<Grammar> = Vec::new();
    assert(views(g4@) =~= Seq::<GrammarView>::empty());
    let g5 = Grammar::one_of_with(g3, g4);
    let g6: Vec<Grammar> = vec![Grammar::reference("SetExpressionSegment"), g5, Grammar::reference("NonSetSelectableGrammar")];
    assert(views(g6@) =~~= seq![GrammarView::Ref { name: "SetExpressionSegment"@, optional: false }, GrammarView::OneOf { elements: seq![GrammarView::Bracketed { elements: seq![GrammarView::Ref { name: "SelectStatementSegment"@, optional: false }], bracket_type: "round"@ }, GrammarView::Ref { name: "SelectStatementSegment"@, optional: false }], terminators: seq![] }, GrammarView::Ref { name: "NonSetSelectableGrammar"@, optional: false }]);
    let g7: Vec<Grammar> = Vec::new();
    assert(views(g7@) =~= Seq::<GrammarView>::empty());
    let g8 = Grammar::one_of_with(g6, g7);
    Element::Grammar(g8)
}

/// The ANSI element `NonWithNonSelectableGrammar`.
pub open spec fn non_with_non_selectable_grammar_element() -> ElementView {
    ElementView::Grammar(GrammarView::Nothing)
}

fn build_non_with_non_selectable_grammar() -> (e: Element)
    ensures
        e@ =~~= non_with_non_selectable_grammar_element(),
{
    Element::Grammar(Grammar::nothing())
}

/// The ANSI element `NonSetSelectableGrammar`.
pub open spec fn non_set_selectable_grammar_element() -> ElementView {
    ElementView::Grammar(GrammarView::OneOf { elements: seq![GrammarView::Ref { name: "ValuesClauseSegment"@, optional: false }, GrammarView::Ref { name: "UnorderedSelectStatementSegment"@, optional: false }, GrammarView::Bracketed { elements: seq![GrammarView::Ref { name: "SelectStatementSegment"@, optional: false }], bracket_type: "round"@ }, GrammarView::Bracketed { elements: seq![GrammarView::Ref { name: "WithCompoundStatementSegment"@, optional: false }], bracket_type: "round"@ }, GrammarView::Bracketed { elements: seq![GrammarView::Ref { name: "NonSetSelectableGrammar"@, optional: false }], bracket_type: "round"@ }], terminators: seq![] })
}

fn build_non_set_selectable_grammar() -> (e: Element)
    ensures
        e@ =~~= non_set_selectable_grammar_element(),
{
    let g1: Vec<Grammar> = vec![Grammar::reference("SelectStatementSegment")];
    assert(views(g1@) =~~= seq![GrammarView::Ref { name: "SelectStatementSegment"@, optional: false }]);
    let g2 = Grammar::bracketed_with(g1, "round");
    let g3: Vec<Grammar> = vec![Grammar::reference("WithCompoundStatementSegment")];
    assert(views(g3@) =~~= seq![GrammarView::Ref { name: "WithCompoundStatementSegment"@, optional: false }]);
    let g4 = Grammar::bracketed_with(g3, "round");
    let g5: Vec<Grammar> = vec![Grammar::reference("NonSetSelectableGrammar")];
    assert(views(g5@) =~~= seq![GrammarView::Ref { name: "NonSetSelectableGrammar"@, optional: false }]);
    let g6 = Grammar::bracketed_with(g5, "round");
    let g7: Vec<Grammar> = vec![Grammar::reference("ValuesClauseSegment"), Grammar::reference("UnorderedSelectStatementSegment"), g2, g4, g6];
    assert(views(g7@) =~~= seq![GrammarView::Ref { name: "ValuesClauseSegment"@, optional: false }, GrammarView::Ref { name: "UnorderedSelectStatementSegment"@, optional: false }, GrammarView::Bracketed { elements: seq![GrammarView::Ref { name: "SelectStatementSegment"@, optional: false }], bracket_type: "round"@ }, GrammarView::Bracketed { elements: seq![GrammarView::Ref { name: "WithCompoundStatementSegment"@, optional: false }], bracket_type: "round"@ }, GrammarView::Bracketed { elements: seq![GrammarView::Ref { name: "NonSetSelectableGrammar"@, optional: false }], bracket_type: "round"@ }]);
    let g8: Vec<Grammar> = Vec::new();
    assert(views(g8@) =~= Seq::<GrammarView>::empty());
    let g9 = Grammar::one_of_with(g7, g8);
    Element::Grammar(g9)
}

/// The ANSI element `PostTableExpressionGrammar`.
pub open spec fn post_table_expression_grammar_element() -> ElementView {
    ElementView::Grammar(GrammarView::Nothing)
}

fn build_post_table_expression_grammar() -> (e: Element)
    ensures
        e@ =~~= post_table_expression_grammar_element(),
{
    Element::Grammar(Grammar::nothing())
}

/// The ANSI element `TimeWithTZGrammar`.
pub open spec fn time_with_t_z_grammar_element() -> ElementView {
    ElementView::Grammar(GrammarView::Sequence { elements: seq![GrammarView::OneOf { elements: seq![GrammarView::Keyword { word: "TIME"@ }, GrammarView::Keyword { word: "TIMESTAMP"@ }], terminators: seq![] }, GrammarView::Optional { grammar: Box::new(GrammarView::Bracketed { elements: seq![GrammarView::Ref { name: "NumericLiteralSegment"@, optional: false }], bracket_type: "round"@ }) }, GrammarView::Optional { grammar: Box::new(GrammarView::Sequence { elements: seq![GrammarView::OneOf { elements: seq![GrammarView::Keyword { word: "WITH"@ }, GrammarView::Keyword { word: "WITHOUT"@ }], terminators: seq![] }, GrammarView::Keyword { word: "TIME"@ }, GrammarView::Keyword { word: "ZONE"@ }], terminators: seq![], parse_mode: ParseMode::Strict }) }], terminators: seq![], parse_mode: ParseMode::Strict })
}

fn build_time_with_t_z_grammar() -> (e: Element)
    ensures
        e@ =~~= time_with_t_z_grammar_element(),
{
    let g1: Vec<Grammar> = vec![Grammar::keyword("TIME"), Grammar::keyword("TIMESTAMP")];
    assert(views(g1@) =~~= seq![GrammarView::Keyword { word: "TIME"@ }, GrammarView::Keyword { word: "TIMESTAMP"@ }]);
    let g2: Vec<Grammar> = Vec::new();
    assert(views(g2@) =~= Seq::<GrammarView>::empty());
    let g3 = Grammar::one_of_with(g1, g2);
    let g4: Vec<Grammar> = vec![Grammar::reference("NumericLiteralSegment")];
    assert(views(g4@) =~~= seq![GrammarView::Ref { name: "NumericLiteralSegment"@, optional: false }]);
    let g5 = Grammar::bracketed_with(g4, "round");
    let g6 = g5.optional();
    let g7: Vec<Grammar> = vec![Grammar::keyword("WITH"), Grammar::keyword("WITHOUT")];
    assert(views(g7@) =~~= seq![GrammarView::Keyword { word: "WITH"@ }, GrammarView::Keyword { word: "WITHOUT"@ }]);
    let g8: Vec<Grammar> = Vec::new();
    assert(views(g8@) =~= Seq::<GrammarView>::empty());
    let g9 = Grammar::one_of_with(g7, g8);
    let g10: Vec<Grammar> = vec![g9, Grammar::keyword("TIME"), Grammar::keyword("ZONE")];
    assert(views(g10@) =~~= seq![GrammarView::OneOf { elements: seq![GrammarView::Keyword { word: "WITH"@ }, GrammarView::Keyword { word: "WITHOUT"@ }], terminators: seq![] }, GrammarView::Keyword { word: "TIME"@ }, GrammarView::Keyword { word: "ZONE"@ }]);
    let g11: Vec<Grammar> = Vec::new();
    assert(views(g11@) =~= Seq::<GrammarView>::empty());
    let g12 = Grammar::sequence_with(g10, g11, ParseMode::Strict);
    let g13 = g12.optional();
    let g14: Vec<Grammar> = vec![g3, g6, g13];
    assert(views(g14@) =~~= seq![GrammarView::OneOf { elements: seq![GrammarView::Keyword { word: "TIME"@ }, GrammarView::Keyword { word: "TIMESTAMP"@ }], terminators: seq![] }, GrammarView::Optional { grammar: Box::new(GrammarView::Bracketed { elements: seq![GrammarView::Ref { name: "NumericLiteralSegment"@, optional: false }], bracket_type: "round"@ }) }, GrammarView::Optional { grammar: Box::new(GrammarView::Sequence { elements: seq![GrammarView::OneOf { elements: seq![GrammarView::Keyword { word: "WITH"@ }, GrammarView::Keyword { word: "WITHOUT"@ }], terminators: seq![] }, GrammarView::Keyword { word: "TIME"@ }, GrammarView::Keyword { word: "ZONE"@ }], terminators: seq![], parse_mode: ParseMode::Strict }) }]);
    let g15: Vec<Grammar> = Vec::new();
    assert(views(g15@) =~= Seq::<GrammarView>::empty());
    let g16 = Grammar::sequence_with(g14, g15, ParseMode::Strict);
    Element::Grammar(g16)
}

/// Elements 1 to 25 of the ANSI library, added to `lib`.
pub open spec fn ansi_library_part_0(lib: Map<Seq<char>, ElementView>) -> Map<Seq<char>, ElementView> {
    lib
        .insert("ArrayTypeSchemaSegment"@, array_type_schema_segment_element())
        .insert("ObjectReferenceSegment"@, object_reference_segment_element())
        .insert("DelimiterGrammar"@, delimiter_grammar_element())
        .insert("SemicolonSegment"@, semicolon_segment_element())
        .insert("ColonSegment"@, colon_segment_element())
        .insert("SliceSegment"@, slice_segment_element())
        .insert("ColonDelimiterSegment"@, colon_delimiter_segment_element())
        .insert("StartBracketSegment"@, start_bracket_segment_element())
        .insert("EndBracketSegment"@, end_bracket_segment_element())
        .insert("StartSquareBracketSegment"@, start_square_bracket_segment_element())
        .insert("EndSquareBracketSegment"@, end_square_bracket_segment_element())
        .insert("StartCurlyBracketSegment"@, start_curly_bracket_segment_element())
        .insert("EndCurlyBracketSegment"@, end_curly_bracket_segment_element())
        .insert("CommaSegment"@, comma_segment_element())
        .insert("DotSegment"@, dot_segment_element())
        .insert("StarSegment"@, star_segment_element())
        .insert("TildeSegment"@, tilde_segment_element())
        .insert("ParameterSegment"@, parameter_segment_element())
        .insert("CastOperatorSegment"@, cast_operator_segment_element())
        .insert("PlusSegment"@, plus_segment_element())
        .insert("MinusSegment"@, minus_segment_element())
        .insert("PositiveSegment"@, positive_segment_element())
        .insert("NegativeSegment"@, negative_segment_element())
        .insert("DivideSegment"@, divide_segment_element())
        .insert("MultiplySegment"@, multiply_segment_element())
}

fn add_ansi_library_part_0(d: &mut DialectModel)
    ensures
        final(d)@ == (DialectView { library: ansi_library_part_0(old(d)@.library), ..old(d)@ }),
{
    d.add("ArrayTypeSchemaSegment", build_array_type_schema_segment());
    d.add("ObjectReferenceSegment", build_object_reference_segment());
    d.add("DelimiterGrammar", build_delimiter_grammar());
    d.add("SemicolonSegment", build_semicolon_segment());
    d.add("ColonSegment", build_colon_segment());
    d.add("SliceSegment", build_slice_segment());
    d.add("ColonDelimiterSegment", build_colon_delimiter_segment());
    d.add("StartBracketSegment", build_start_bracket_segment());
    d.add("EndBracketSegment", build_end_bracket_segment());
    d.add("StartSquareBracketSegment", build_start_square_bracket_segment());
    d.add("EndSquareBracketSegment", build_end_square_bracket_segment());
    d.add("StartCurlyBracketSegment", build_start_curly_bracket_segment());
    d.add("EndCurlyBracketSegment", build_end_curly_bracket_segment());
    d.add("CommaSegment", build_comma_segment());
    d.add("DotSegment", build_dot_segment());
    d.add("StarSegment", build_star_segment());
    d.add("TildeSegment", build_tilde_segment());
    d.add("ParameterSegment", build_parameter_segment());
    d.add("CastOperatorSegment", build_cast_operator_segment());
    d.add("PlusSegment", build_plus_segment());
    d.add("MinusSegment", build_minus_segment());
    d.add("PositiveSegment", build_positive_segment());
    d.add("NegativeSegment", build_negative_segment());
    d.add("DivideSegment", build_divide_segment());
    d.add("MultiplySegment", build_multiply_segment());
}

/// Elements 26 to 50 of the ANSI library, added to `lib`.
pub open spec fn ansi_library_part_1(lib: Map<Seq<char>, ElementView>) -> Map<Seq<char>, ElementView> {
    lib
        .insert("ModuloSegment"@, modulo_segment_element())
        .insert("SlashSegment"@, slash_segment_element())
        .insert("AmpersandSegment"@, ampersand_segment_element())
        .insert("PipeSegment"@, pipe_segment_element())
        .insert("BitwiseXorSegment"@, bitwise_xor_segment_element())
        .insert("LikeOperatorSegment"@, like_operator_segment_element())
        .insert("RawNotSegment"@, raw_not_segment_element())
        .insert("RawEqualsSegment"@, raw_equals_segment_element())
        .insert("RawGreaterThanSegment"@, raw_greater_than_segment_element())
        .insert("RawLessThanSegment"@, raw_less_than_segment_element())
        .insert("BareFunctionSegment"@, bare_function_segment_element())
        .insert("NakedIdentifierSegment"@, naked_identifier_segment_element())
        .insert("ParameterNameSegment"@, parameter_name_segment_element())
        .insert("FunctionNameIdentifierSegment"@, function_name_identifier_segment_element())
        .insert("DatatypeIdentifierSegment"@, datatype_identifier_segment_element())
        .insert("DatetimeUnitSegment"@, datetime_unit_segment_element())
        .insert("DatePartFunctionName"@, date_part_function_name_element())
        .insert("QuotedIdentifierSegment"@, quoted_identifier_segment_element())
        .insert("QuotedLiteralSegment"@, quoted_literal_segment_element())
        .insert("SingleQuotedIdentifierSegment"@, single_quoted_identifier_segment_element())
        .insert("NumericLiteralSegment"@, numeric_literal_segment_element())
        .insert("NullLiteralSegment"@, null_literal_segment_element())
        .insert("NanLiteralSegment"@, nan_literal_segment_element())
        .insert("TrueSegment"@, true_segment_element())
        .insert("FalseSegment"@, false_segment_element())
}

fn add_ansi_library_part_1(d: &mut DialectModel)
    ensures
        final(d)@ == (DialectView { library: ansi_library_part_1(old(d)@.library), ..old(d)@ }),
{
    d.add("ModuloSegment", build_modulo_segment());
    d.add("SlashSegment", build_slash_segment());
    d.add("AmpersandSegment", build_ampersand_segment());
    d.add("PipeSegment", build_pipe_segment());
    d.add("BitwiseXorSegment", build_bitwise_xor_segment());
    d.add("LikeOperatorSegment", build_like_operator_segment());
    d.add("RawNotSegment", build_raw_not_segment());
    d.add("RawEqualsSegment", build_raw_equals_segment());
    d.add("RawGreaterThanSegment", build_raw_greater_than_segment());
    d.add("RawLessThanSegment", build_raw_less_than_segment());
    d.add("BareFunctionSegment", build_bare_function_segment());
    d.add("NakedIdentifierSegment", build_naked_identifier_segment());
    d.add("ParameterNameSegment", build_parameter_name_segment());
    d.add("FunctionNameIdentifierSegment", build_function_name_identifier_segment());
    d.add("DatatypeIdentifierSegment", build_datatype_identifier_segment());
    d.add("DatetimeUnitSegment", build_datetime_unit_segment());
    d.add("DatePartFunctionName", build_date_part_function_name());
    d.add("QuotedIdentifierSegment", build_quoted_identifier_segment());
    d.add("QuotedLiteralSegment", build_quoted_literal_segment());
    d.add("SingleQuotedIdentifierSegment", build_single_quoted_identifier_segment());
    d.add("NumericLiteralSegment", build_numeric_literal_segment());
    d.add("NullLiteralSegment", build_null_literal_segment());
    d.add("NanLiteralSegment", build_nan_literal_segment());
    d.add("TrueSegment", build_true_segment());
    d.add("FalseSegment", build_false_segment());
}

/// Elements 51 to 75 of the ANSI library, added to `lib`.
pub open spec fn ansi_library_part_2(lib: Map<Seq<char>, ElementView>) -> Map<Seq<char>, ElementView> {
    lib
        .insert("SingleIdentifierGrammar"@, single_identifier_grammar_element())
        .insert("BooleanLiteralGrammar"@, boolean_literal_grammar_element())
        .insert("ArithmeticBinaryOperatorGrammar"@, arithmetic_binary_operator_grammar_element())
        .insert("SignedSegmentGrammar"@, signed_segment_grammar_element())
        .insert("StringBinaryOperatorGrammar"@, string_binary_operator_grammar_element())
        .insert("BooleanBinaryOperatorGrammar"@, boolean_binary_operator_grammar_element())
        .insert("ComparisonOperatorGrammar"@, comparison_operator_grammar_element())
        .insert("DateTimeLiteralGrammar"@, date_time_literal_grammar_element())
        .insert("MergeIntoLiteralGrammar"@, merge_into_literal_grammar_element())
        .insert("LiteralGrammar"@, literal_grammar_element())
        .insert("AndOperatorGrammar"@, and_operator_grammar_element())
        .insert("OrOperatorGrammar"@, or_operator_grammar_element())
        .insert("NotOperatorGrammar"@, not_operator_grammar_element())
        .insert("PreTableFunctionKeywordsGrammar"@, pre_table_function_keywords_grammar_element())
        .insert("BinaryOperatorGrammar"@, binary_operator_grammar_element())
        .insert("BracketedColumnReferenceListGrammar"@, bracketed_column_reference_list_grammar_element())
        .insert("OrReplaceGrammar"@, or_replace_grammar_element())
        .insert("TemporaryTransientGrammar"@, temporary_transient_grammar_element())
        .insert("TemporaryGrammar"@, temporary_grammar_element())
        .insert("IfExistsGrammar"@, if_exists_grammar_element())
        .insert("IfNotExistsGrammar"@, if_not_exists_grammar_element())
        .insert("LikeGrammar"@, like_grammar_element())
        .insert("UnionGrammar"@, union_grammar_element())
        .insert("IsClauseGrammar"@, is_clause_grammar_element())
        .insert("InOperatorGrammar"@, in_operator_grammar_element())
}

fn add_ansi_library_part_2(d: &mut DialectModel)
    ensures
        final(d)@ == (DialectView { library: ansi_library_part_2(old(d)@.library), ..old(d)@ }),
{
    d.add("SingleIdentifierGrammar", build_single_identifier_grammar());
    d.add("BooleanLiteralGrammar", build_boolean_literal_grammar());
    d.add("ArithmeticBinaryOperatorGrammar", build_arithmetic_binary_operator_grammar());
    d.add("SignedSegmentGrammar", build_signed_segment_grammar());
    d.add("StringBinaryOperatorGrammar", build_string_binary_operator_grammar());
    d.add("BooleanBinaryOperatorGrammar", build_boolean_binary_operator_grammar());
    d.add("ComparisonOperatorGrammar", build_comparison_operator_grammar());
    d.add("DateTimeLiteralGrammar", build_date_time_literal_grammar());
    d.add("MergeIntoLiteralGrammar", build_merge_into_literal_grammar());
    d.add("LiteralGrammar", build_literal_grammar());
    d.add("AndOperatorGrammar", build_and_operator_grammar());
    d.add("OrOperatorGrammar", build_or_operator_grammar());
    d.add("NotOperatorGrammar", build_not_operator_grammar());
    d.add("PreTableFunctionKeywordsGrammar", build_pre_table_function_keywords_grammar());
    d.add("BinaryOperatorGrammar", build_binary_operator_grammar());
    d.add("BracketedColumnReferenceListGrammar", build_bracketed_column_reference_list_grammar());
    d.add("OrReplaceGrammar", build_or_replace_grammar());
    d.add("TemporaryTransientGrammar", build_temporary_transient_grammar());
    d.add("TemporaryGrammar", build_temporary_grammar());
    d.add("IfExistsGrammar", build_if_exists_grammar());
    d.add("IfNotExistsGrammar", build_if_not_exists_grammar());
    d.add("LikeGrammar", build_like_grammar());
    d.add("UnionGrammar", build_union_grammar());
    d.add("IsClauseGrammar", build_is_clause_grammar());
    d.add("InOperatorGrammar", build_in_operator_grammar());
}

/// Elements 76 to 100 of the ANSI library, added to `lib`.
pub open spec fn ansi_library_part_3(lib: Map<Seq<char>, ElementView>) -> Map<Seq<char>, ElementView> {
    lib
        .insert("SelectClauseTerminatorGrammar"@, select_clause_terminator_grammar_element())
        .insert("IsNullGrammar"@, is_null_grammar_element())
        .insert("NotNullGrammar"@, not_null_grammar_element())
        .insert("CollateGrammar"@, collate_grammar_element())
        .insert("FromClauseTerminatorGrammar"@, from_clause_terminator_grammar_element())
        .insert("WhereClauseTerminatorGrammar"@, where_clause_terminator_grammar_element())
        .insert("GroupByClauseTerminatorGrammar"@, group_by_clause_terminator_grammar_element())
        .insert("HavingClauseTerminatorGrammar"@, having_clause_terminator_grammar_element())
        .insert("OrderByClauseTerminators"@, order_by_clause_terminators_element())
        .insert("PrimaryKeyGrammar"@, primary_key_grammar_element())
        .insert("ForeignKeyGrammar"@, foreign_key_grammar_element())
        .insert("UniqueKeyGrammar"@, unique_key_grammar_element())
        .insert("FunctionParameterGrammar"@, function_parameter_grammar_element())
        .insert("AutoIncrementGrammar"@, auto_increment_grammar_element())
        .insert("BaseExpressionElementGrammar"@, base_expression_element_grammar_element())
        .insert("FilterClauseGrammar"@, filter_clause_grammar_element())
        .insert("IgnoreRespectNullsGrammar"@, ignore_respect_nulls_grammar_element())
        .insert("FrameClauseUnitGrammar"@, frame_clause_unit_grammar_element())
        .insert("JoinTypeKeywordsGrammar"@, join_type_keywords_grammar_element())
        .insert("JoinKeywordsGrammar"@, join_keywords_grammar_element())
        .insert("NaturalJoinKeywordsGrammar"@, natural_join_keywords_grammar_element())
        .insert("ExtendedNaturalJoinKeywordsGrammar"@, extended_natural_join_keywords_grammar_element())
        .insert("NestedJoinGrammar"@, nested_join_grammar_element())
        .insert("ReferentialActionGrammar"@, referential_action_grammar_element())
        .insert("DropBehaviorGrammar"@, drop_behavior_grammar_element())
}

fn add_ansi_library_part_3(d: &mut DialectModel)
    ensures
        final(d)@ == (DialectView { library: ansi_library_part_3(old(d)@.library), ..old(d)@ }),
{
    d.add("SelectClauseTerminatorGrammar", build_select_clause_terminator_grammar());
    d.add("IsNullGrammar", build_is_null_grammar());
    d.add("NotNullGrammar", build_not_null_grammar());
    d.add("CollateGrammar", build_collate_grammar());
    d.add("FromClauseTerminatorGrammar", build_from_clause_terminator_grammar());
    d.add("WhereClauseTerminatorGrammar", build_where_clause_terminator_grammar());
    d.add("GroupByClauseTerminatorGrammar", build_group_by_clause_terminator_grammar());
    d.add("HavingClauseTerminatorGrammar", build_having_clause_terminator_grammar());
    d.add("OrderByClauseTerminators", build_order_by_clause_terminators());
    d.add("PrimaryKeyGrammar", build_primary_key_grammar());
    d.add("ForeignKeyGrammar", build_foreign_key_grammar());
    d.add("UniqueKeyGrammar", build_unique_key_grammar());
    d.add("FunctionParameterGrammar", build_function_parameter_grammar());
    d.add("AutoIncrementGrammar", build_auto_increment_grammar());
    d.add("BaseExpressionElementGrammar", build_base_expression_element_grammar());
    d.add("FilterClauseGrammar", build_filter_clause_grammar());
    d.add("IgnoreRespectNullsGrammar", build_ignore_respect_nulls_grammar());
    d.add("FrameClauseUnitGrammar", build_frame_clause_unit_grammar());
    d.add("JoinTypeKeywordsGrammar", build_join_type_keywords_grammar());
    d.add("JoinKeywordsGrammar", build_join_keywords_grammar());
    d.add("NaturalJoinKeywordsGrammar", build_natural_join_keywords_grammar());
    d.add("ExtendedNaturalJoinKeywordsGrammar", build_extended_natural_join_keywords_grammar());
    d.add("NestedJoinGrammar", build_nested_join_grammar());
    d.add("ReferentialActionGrammar", build_referential_action_grammar());
    d.add("DropBehaviorGrammar", build_drop_behavior_grammar());
}

/// Elements 101 to 125 of the ANSI library, added to `lib`.
pub open spec fn ansi_library_part_4(lib: Map<Seq<char>, ElementView>) -> Map<Seq<char>, ElementView> {
    lib
        .insert("ColumnConstraintDefaultGrammar"@, column_constraint_default_grammar_element())
        .insert("ReferenceDefinitionGrammar"@, reference_definition_grammar_element())
        .insert("TrimParametersGrammar"@, trim_parameters_grammar_element())
        .insert("DefaultValuesGrammar"@, default_values_grammar_element())
        .insert("ObjectReferenceDelimiterGrammar"@, object_reference_delimiter_grammar_element())
        .insert("ObjectReferenceTerminatorGrammar"@, object_reference_terminator_grammar_element())
        .insert("AlterTableDropColumnGrammar"@, alter_table_drop_column_grammar_element())
        .insert("AlterTableOptionsGrammar"@, alter_table_options_grammar_element())
        .insert("FileSegment"@, file_segment_element())
        .insert("ColumnReferenceSegment"@, column_reference_segment_element())
        .insert("ExpressionSegment"@, expression_segment_element())
        .insert("WildcardIdentifierSegment"@, wildcard_identifier_segment_element())
        .insert("NamedWindowExpressionSegment"@, named_window_expression_segment_element())
        .insert("DateTimeFunctionContentsSegment"@, date_time_function_contents_segment_element())
        .insert("FunctionSegment"@, function_segment_element())
        .insert("HavingClauseSegment"@, having_clause_segment_element())
        .insert("PathSegment"@, path_segment_element())
        .insert("LimitClauseSegment"@, limit_clause_segment_element())
        .insert("CubeRollupClauseSegment"@, cube_rollup_clause_segment_element())
        .insert("RollupFunctionNameSegment"@, rollup_function_name_segment_element())
        .insert("CubeFunctionNameSegment"@, cube_function_name_segment_element())
        .insert("GroupingSetsClauseSegment"@, grouping_sets_clause_segment_element())
        .insert("GroupingExpressionList"@, grouping_expression_list_element())
        .insert("SetClauseSegment"@, set_clause_segment_element())
        .insert("FetchClauseSegment"@, fetch_clause_segment_element())
}

fn add_ansi_library_part_4(d: &mut DialectModel)
    ensures
        final(d)@ == (DialectView { library: ansi_library_part_4(old(d)@.library), ..old(d)@ }),
{
    d.add("ColumnConstraintDefaultGrammar", build_column_constraint_default_grammar());
    d.add("ReferenceDefinitionGrammar", build_reference_definition_grammar());
    d.add("TrimParametersGrammar", build_trim_parameters_grammar());
    d.add("DefaultValuesGrammar", build_default_values_grammar());
    d.add("ObjectReferenceDelimiterGrammar", build_object_reference_delimiter_grammar());
    d.add("ObjectReferenceTerminatorGrammar", build_object_reference_terminator_grammar());
    d.add("AlterTableDropColumnGrammar", build_alter_table_drop_column_grammar());
    d.add("AlterTableOptionsGrammar", build_alter_table_options_grammar());
    d.add("FileSegment", build_file_segment());
    d.add("ColumnReferenceSegment", build_column_reference_segment());
    d.add("ExpressionSegment", build_expression_segment());
    d.add("WildcardIdentifierSegment", build_wildcard_identifier_segment());
    d.add("NamedWindowExpressionSegment", build_named_window_expression_segment());
    d.add("DateTimeFunctionContentsSegment", build_date_time_function_contents_segment());
    d.add("FunctionSegment", build_function_segment());
    d.add("HavingClauseSegment", build_having_clause_segment());
    d.add("PathSegment", build_path_segment());
    d.add("LimitClauseSegment", build_limit_clause_segment());
    d.add("CubeRollupClauseSegment", build_cube_rollup_clause_segment());
    d.add("RollupFunctionNameSegment", build_rollup_function_name_segment());
    d.add("CubeFunctionNameSegment", build_cube_function_name_segment());
    d.add("GroupingSetsClauseSegment", build_grouping_sets_clause_segment());
    d.add("GroupingExpressionList", build_grouping_expression_list());
    d.add("SetClauseSegment", build_set_clause_segment());
    d.add("FetchClauseSegment", build_fetch_clause_segment());
}

/// Elements 126 to 150 of the ANSI library, added to `lib`.
pub open spec fn ansi_library_part_5(lib: Map<Seq<char>, ElementView>) -> Map<Seq<char>, ElementView> {
    lib
        .insert("FunctionDefinitionGrammar"@, function_definition_grammar_element())
        .insert("AlterSequenceOptionsSegment"@, alter_sequence_options_segment_element())
        .insert("RoleReferenceSegment"@, role_reference_segment_element())
        .insert("TablespaceReferenceSegment"@, tablespace_reference_segment_element())
        .insert("ExtensionReferenceSegment"@, extension_reference_segment_element())
        .insert("TagReferenceSegment"@, tag_reference_segment_element())
        .insert("ColumnDefinitionSegment"@, column_definition_segment_element())
        .insert("ColumnConstraintSegment"@, column_constraint_segment_element())
        .insert("CommentClauseSegment"@, comment_clause_segment_element())
        .insert("TableEndClauseSegment"@, table_end_clause_segment_element())
        .insert("MergeMatchSegment"@, merge_match_segment_element())
        .insert("MergeMatchedClauseSegment"@, merge_matched_clause_segment_element())
        .insert("MergeNotMatchedClauseSegment"@, merge_not_matched_clause_segment_element())
        .insert("MergeInsertClauseSegment"@, merge_insert_clause_segment_element())
        .insert("MergeUpdateClauseSegment"@, merge_update_clause_segment_element())
        .insert("MergeDeleteClauseSegment"@, merge_delete_clause_segment_element())
        .insert("SetClauseListSegment"@, set_clause_list_segment_element())
        .insert("SchemaReferenceSegment"@, schema_reference_segment_element())
        .insert("SingleIdentifierListSegment"@, single_identifier_list_segment_element())
        .insert("GroupByClauseSegment"@, group_by_clause_segment_element())
        .insert("FrameClauseSegment"@, frame_clause_segment_element())
        .insert("WithCompoundStatementSegment"@, with_compound_statement_segment_element())
        .insert("WithCompoundNonSelectStatementSegment"@, with_compound_non_select_statement_segment_element())
        .insert("CTEDefinitionSegment"@, c_t_e_definition_segment_element())
        .insert("CTEColumnList"@, c_t_e_column_list_element())
}

fn add_ansi_library_part_5(d: &mut DialectModel)
    ensures
        final(d)@ == (DialectView { library: ansi_library_part_5(old(d)@.library), ..old(d)@ }),
{
    d.add("FunctionDefinitionGrammar", build_function_definition_grammar());
    d.add("AlterSequenceOptionsSegment", build_alter_sequence_options_segment());
    d.add("RoleReferenceSegment", build_role_reference_segment());
    d.add("TablespaceReferenceSegment", build_tablespace_reference_segment());
    d.add("ExtensionReferenceSegment", build_extension_reference_segment());
    d.add("TagReferenceSegment", build_tag_reference_segment());
    d.add("ColumnDefinitionSegment", build_column_definition_segment());
    d.add("ColumnConstraintSegment", build_column_constraint_segment());
    d.add("CommentClauseSegment", build_comment_clause_segment());
    d.add("TableEndClauseSegment", build_table_end_clause_segment());
    d.add("MergeMatchSegment", build_merge_match_segment());
    d.add("MergeMatchedClauseSegment", build_merge_matched_clause_segment());
    d.add("MergeNotMatchedClauseSegment", build_merge_not_matched_clause_segment());
    d.add("MergeInsertClauseSegment", build_merge_insert_clause_segment());
    d.add("MergeUpdateClauseSegment", build_merge_update_clause_segment());
    d.add("MergeDeleteClauseSegment", build_merge_delete_clause_segment());
    d.add("SetClauseListSegment", build_set_clause_list_segment());
    d.add("SchemaReferenceSegment", build_schema_reference_segment());
    d.add("SingleIdentifierListSegment", build_single_identifier_list_segment());
    d.add("GroupByClauseSegment", build_group_by_clause_segment());
    d.add("FrameClauseSegment", build_frame_clause_segment());
    d.add("WithCompoundStatementSegment", build_with_compound_statement_segment());
    d.add("WithCompoundNonSelectStatementSegment", build_with_compound_non_select_statement_segment());
    d.add("CTEDefinitionSegment", build_c_t_e_definition_segment());
    d.add("CTEColumnList", build_c_t_e_column_list());
}

/// Elements 151 to 175 of the ANSI library, added to `lib`.
pub open spec fn ansi_library_part_6(lib: Map<Seq<char>, ElementView>) -> Map<Seq<char>, ElementView> {
    lib
        .insert("SequenceReferenceSegment"@, sequence_reference_segment_element())
        .insert("TriggerReferenceSegment"@, trigger_reference_segment_element())
        .insert("TableConstraintSegment"@, table_constraint_segment_element())
        .insert("JoinOnConditionSegment"@, join_on_condition_segment_element())
        .insert("DatabaseReferenceSegment"@, database_reference_segment_element())
        .insert("IndexReferenceSegment"@, index_reference_segment_element())
        .insert("CollationReferenceSegment"@, collation_reference_segment_element())
        .insert("OverClauseSegment"@, over_clause_segment_element())
        .insert("NamedWindowSegment"@, named_window_segment_element())
        .insert("WindowSpecificationSegment"@, window_specification_segment_element())
        .insert("PartitionClauseSegment"@, partition_clause_segment_element())
        .insert("JoinClauseSegment"@, join_clause_segment_element())
        .insert("DropTriggerStatementSegment"@, drop_trigger_statement_segment_element())
        .insert("SamplingExpressionSegment"@, sampling_expression_segment_element())
        .insert("TableExpressionSegment"@, table_expression_segment_element())
        .insert("DropTriggerStatementSegment"@, drop_trigger_statement_segment_2_element())
        .insert("SamplingExpressionSegment"@, sampling_expression_segment_2_element())
        .insert("TableExpressionSegment"@, table_expression_segment_2_element())
        .insert("CreateTriggerStatementSegment"@, create_trigger_statement_segment_element())
        .insert("DropModelStatementSegment"@, drop_model_statement_segment_element())
        .insert("DescribeStatementSegment"@, describe_statement_segment_element())
        .insert("UseStatementSegment"@, use_statement_segment_element())
        .insert("ExplainStatementSegment"@, explain_statement_segment_element())
        .insert("CreateSequenceStatementSegment"@, create_sequence_statement_segment_element())
        .insert("CreateSequenceOptionsSegment"@, create_sequence_options_segment_element())
}

fn add_ansi_library_part_6(d: &mut DialectModel)
    ensures
        final(d)@ == (DialectView { library: ansi_library_part_6(old(d)@.library), ..old(d)@ }),
{
    d.add("SequenceReferenceSegment", build_sequence_reference_segment());
    d.add("TriggerReferenceSegment", build_trigger_reference_segment());
    d.add("TableConstraintSegment", build_table_constraint_segment());
    d.add("JoinOnConditionSegment", build_join_on_condition_segment());
    d.add("DatabaseReferenceSegment", build_database_reference_segment());
    d.add("IndexReferenceSegment", build_index_reference_segment());
    d.add("CollationReferenceSegment", build_collation_reference_segment());
    d.add("OverClauseSegment", build_over_clause_segment());
    d.add("NamedWindowSegment", build_named_window_segment());
    d.add("WindowSpecificationSegment", build_window_specification_segment());
    d.add("PartitionClauseSegment", build_partition_clause_segment());
    d.add("JoinClauseSegment", build_join_clause_segment());
    d.add("DropTriggerStatementSegment", build_drop_trigger_statement_segment());
    d.add("SamplingExpressionSegment", build_sampling_expression_segment());
    d.add("TableExpressionSegment", build_table_expression_segment());
    d.add("DropTriggerStatementSegment", build_drop_trigger_statement_segment_2());
    d.add("SamplingExpressionSegment", build_sampling_expression_segment_2());
    d.add("TableExpressionSegment", build_table_expression_segment_2());
    d.add("CreateTriggerStatementSegment", build_create_trigger_statement_segment());
    d.add("DropModelStatementSegment", build_drop_model_statement_segment());
    d.add("DescribeStatementSegment", build_describe_statement_segment());
    d.add("UseStatementSegment", build_use_statement_segment());
    d.add("ExplainStatementSegment", build_explain_statement_segment());
    d.add("CreateSequenceStatementSegment", build_create_sequence_statement_segment());
    d.add("CreateSequenceOptionsSegment", build_create_sequence_options_segment());
}

/// Elements 176 to 200 of the ANSI library, added to `lib`.
pub open spec fn ansi_library_part_7(lib: Map<Seq<char>, ElementView>) -> Map<Seq<char>, ElementView> {
    lib
        .insert("AlterSequenceStatementSegment"@, alter_sequence_statement_segment_element())
        .insert("DropSequenceStatementSegment"@, drop_sequence_statement_segment_element())
        .insert("DropCastStatementSegment"@, drop_cast_statement_segment_element())
        .insert("CreateFunctionStatementSegment"@, create_function_statement_segment_element())
        .insert("DropFunctionStatementSegment"@, drop_function_statement_segment_element())
        .insert("CreateModelStatementSegment"@, create_model_statement_segment_element())
        .insert("CreateViewStatementSegment"@, create_view_statement_segment_element())
        .insert("DeleteStatementSegment"@, delete_statement_segment_element())
        .insert("UpdateStatementSegment"@, update_statement_segment_element())
        .insert("CreateCastStatementSegment"@, create_cast_statement_segment_element())
        .insert("CreateRoleStatementSegment"@, create_role_statement_segment_element())
        .insert("DropRoleStatementSegment"@, drop_role_statement_segment_element())
        .insert("AlterTableStatementSegment"@, alter_table_statement_segment_element())
        .insert("SetSchemaStatementSegment"@, set_schema_statement_segment_element())
        .insert("DropSchemaStatementSegment"@, drop_schema_statement_segment_element())
        .insert("DropTypeStatementSegment"@, drop_type_statement_segment_element())
        .insert("CreateDatabaseStatementSegment"@, create_database_statement_segment_element())
        .insert("DropDatabaseStatementSegment"@, drop_database_statement_segment_element())
        .insert("FunctionParameterListGrammar"@, function_parameter_list_grammar_element())
        .insert("CreateIndexStatementSegment"@, create_index_statement_segment_element())
        .insert("DropIndexStatementSegment"@, drop_index_statement_segment_element())
        .insert("CreateTableStatementSegment"@, create_table_statement_segment_element())
        .insert("AccessStatementSegment"@, access_statement_segment_element())
        .insert("InsertStatementSegment"@, insert_statement_segment_element())
        .insert("TransactionStatementSegment"@, transaction_statement_segment_element())
}

fn add_ansi_library_part_7(d: &mut DialectModel)
    ensures
        final(d)@ == (DialectView { library: ansi_library_part_7(old(d)@.library), ..old(d)@ }),
{
    d.add("AlterSequenceStatementSegment", build_alter_sequence_statement_segment());
    d.add("DropSequenceStatementSegment", build_drop_sequence_statement_segment());
    d.add("DropCastStatementSegment", build_drop_cast_statement_segment());
    d.add("CreateFunctionStatementSegment", build_create_function_statement_segment());
    d.add("DropFunctionStatementSegment", build_drop_function_statement_segment());
    d.add("CreateModelStatementSegment", build_create_model_statement_segment());
    d.add("CreateViewStatementSegment", build_create_view_statement_segment());
    d.add("DeleteStatementSegment", build_delete_statement_segment());
    d.add("UpdateStatementSegment", build_update_statement_segment());
    d.add("CreateCastStatementSegment", build_create_cast_statement_segment());
    d.add("CreateRoleStatementSegment", build_create_role_statement_segment());
    d.add("DropRoleStatementSegment", build_drop_role_statement_segment());
    d.add("AlterTableStatementSegment", build_alter_table_statement_segment());
    d.add("SetSchemaStatementSegment", build_set_schema_statement_segment());
    d.add("DropSchemaStatementSegment", build_drop_schema_statement_segment());
    d.add("DropTypeStatementSegment", build_drop_type_statement_segment());
    d.add("CreateDatabaseStatementSegment", build_create_database_statement_segment());
    d.add("DropDatabaseStatementSegment", build_drop_database_statement_segment());
    d.add("FunctionParameterListGrammar", build_function_parameter_list_grammar());
    d.add("CreateIndexStatementSegment", build_create_index_statement_segment());
    d.add("DropIndexStatementSegment", build_drop_index_statement_segment());
    d.add("CreateTableStatementSegment", build_create_table_statement_segment());
    d.add("AccessStatementSegment", build_access_statement_segment());
    d.add("InsertStatementSegment", build_insert_statement_segment());
    d.add("TransactionStatementSegment", build_transaction_statement_segment());
}

/// Elements 201 to 225 of the ANSI library, added to `lib`.
pub open spec fn ansi_library_part_8(lib: Map<Seq<char>, ElementView>) -> Map<Seq<char>, ElementView> {
    lib
        .insert("DropTableStatementSegment"@, drop_table_statement_segment_element())
        .insert("DropViewStatementSegment"@, drop_view_statement_segment_element())
        .insert("CreateUserStatementSegment"@, create_user_statement_segment_element())
        .insert("DropUserStatementSegment"@, drop_user_statement_segment_element())
        .insert("NotEqualToSegment"@, not_equal_to_segment_element())
        .insert("ConcatSegment"@, concat_segment_element())
        .insert("ArrayExpressionSegment"@, array_expression_segment_element())
        .insert("LocalAliasSegment"@, local_alias_segment_element())
        .insert("MergeStatementSegment"@, merge_statement_segment_element())
        .insert("IndexColumnDefinitionSegment"@, index_column_definition_segment_element())
        .insert("BitwiseAndSegment"@, bitwise_and_segment_element())
        .insert("BitwiseOrSegment"@, bitwise_or_segment_element())
        .insert("BitwiseLShiftSegment"@, bitwise_l_shift_segment_element())
        .insert("BitwiseRShiftSegment"@, bitwise_r_shift_segment_element())
        .insert("LessThanSegment"@, less_than_segment_element())
        .insert("GreaterThanOrEqualToSegment"@, greater_than_or_equal_to_segment_element())
        .insert("LessThanOrEqualToSegment"@, less_than_or_equal_to_segment_element())
        .insert("EqualsSegment"@, equals_segment_element())
        .insert("GreaterThanSegment"@, greater_than_segment_element())
        .insert("QualifiedNumericLiteralSegment"@, qualified_numeric_literal_segment_element())
        .insert("AggregateOrderByClause"@, aggregate_order_by_clause_element())
        .insert("FunctionNameSegment"@, function_name_segment_element())
        .insert("WhenClauseSegment"@, when_clause_segment_element())
        .insert("ElseClauseSegment"@, else_clause_segment_element())
        .insert("WhereClauseSegment"@, where_clause_segment_element())
}

fn add_ansi_library_part_8(d: &mut DialectModel)
    ensures
        final(d)@ == (DialectView { library: ansi_library_part_8(old(d)@.library), ..old(d)@ }),
{
    d.add("DropTableStatementSegment", build_drop_table_statement_segment());
    d.add("DropViewStatementSegment", build_drop_view_statement_segment());
    d.add("CreateUserStatementSegment", build_create_user_statement_segment());
    d.add("DropUserStatementSegment", build_drop_user_statement_segment());
    d.add("NotEqualToSegment", build_not_equal_to_segment());
    d.add("ConcatSegment", build_concat_segment());
    d.add("ArrayExpressionSegment", build_array_expression_segment());
    d.add("LocalAliasSegment", build_local_alias_segment());
    d.add("MergeStatementSegment", build_merge_statement_segment());
    d.add("IndexColumnDefinitionSegment", build_index_column_definition_segment());
    d.add("BitwiseAndSegment", build_bitwise_and_segment());
    d.add("BitwiseOrSegment", build_bitwise_or_segment());
    d.add("BitwiseLShiftSegment", build_bitwise_l_shift_segment());
    d.add("BitwiseRShiftSegment", build_bitwise_r_shift_segment());
    d.add("LessThanSegment", build_less_than_segment());
    d.add("GreaterThanOrEqualToSegment", build_greater_than_or_equal_to_segment());
    d.add("LessThanOrEqualToSegment", build_less_than_or_equal_to_segment());
    d.add("EqualsSegment", build_equals_segment());
    d.add("GreaterThanSegment", build_greater_than_segment());
    d.add("QualifiedNumericLiteralSegment", build_qualified_numeric_literal_segment());
    d.add("AggregateOrderByClause", build_aggregate_order_by_clause());
    d.add("FunctionNameSegment", build_function_name_segment());
    d.add("WhenClauseSegment", build_when_clause_segment());
    d.add("ElseClauseSegment", build_else_clause_segment());
    d.add("WhereClauseSegment", build_where_clause_segment());
}

/// Elements 226 to 250 of the ANSI library, added to `lib`.
pub open spec fn ansi_library_part_9(lib: Map<Seq<char>, ElementView>) -> Map<Seq<char>, ElementView> {
    lib
        .insert("SetOperatorSegment"@, set_operator_segment_element())
        .insert("ValuesClauseSegment"@, values_clause_segment_element())
        .insert("EmptyStructLiteralSegment"@, empty_struct_literal_segment_element())
        .insert("ObjectLiteralSegment"@, object_literal_segment_element())
        .insert("ObjectLiteralElementSegment"@, object_literal_element_segment_element())
        .insert("TimeZoneGrammar"@, time_zone_grammar_element())
        .insert("BracketedArguments"@, bracketed_arguments_element())
        .insert("DatatypeSegment"@, datatype_segment_element())
        .insert("AliasExpressionSegment"@, alias_expression_segment_element())
        .insert("ShorthandCastSegment"@, shorthand_cast_segment_element())
        .insert("ArrayAccessorSegment"@, array_accessor_segment_element())
        .insert("ArrayLiteralSegment"@, array_literal_segment_element())
        .insert("TypedArrayLiteralSegment"@, typed_array_literal_segment_element())
        .insert("StructTypeSegment"@, struct_type_segment_element())
        .insert("StructLiteralSegment"@, struct_literal_segment_element())
        .insert("TypedStructLiteralSegment"@, typed_struct_literal_segment_element())
        .insert("IntervalExpressionSegment"@, interval_expression_segment_element())
        .insert("ArrayTypeSegment"@, array_type_segment_element())
        .insert("SizedArrayTypeSegment"@, sized_array_type_segment_element())
        .insert("UnorderedSelectStatementSegment"@, unordered_select_statement_segment_element())
        .insert("OverlapsClauseSegment"@, overlaps_clause_segment_element())
        .insert("SelectClauseSegment"@, select_clause_segment_element())
        .insert("StatementSegment"@, statement_segment_element())
        .insert("WithNoSchemaBindingClauseSegment"@, with_no_schema_binding_clause_segment_element())
        .insert("WithDataClauseSegment"@, with_data_clause_segment_element())
}

fn add_ansi_library_part_9(d: &mut DialectModel)
    ensures
        final(d)@ == (DialectView { library: ansi_library_part_9(old(d)@.library), ..old(d)@ }),
{
    d.add("SetOperatorSegment", build_set_operator_segment());
    d.add("ValuesClauseSegment", build_values_clause_segment());
    d.add("EmptyStructLiteralSegment", build_empty_struct_literal_segment());
    d.add("ObjectLiteralSegment", build_object_literal_segment());
    d.add("ObjectLiteralElementSegment", build_object_literal_element_segment());
    d.add("TimeZoneGrammar", build_time_zone_grammar());
    d.add("BracketedArguments", build_bracketed_arguments());
    d.add("DatatypeSegment", build_datatype_segment());
    d.add("AliasExpressionSegment", build_alias_expression_segment());
    d.add("ShorthandCastSegment", build_shorthand_cast_segment());
    d.add("ArrayAccessorSegment", build_array_accessor_segment());
    d.add("ArrayLiteralSegment", build_array_literal_segment());
    d.add("TypedArrayLiteralSegment", build_typed_array_literal_segment());
    d.add("StructTypeSegment", build_struct_type_segment());
    d.add("StructLiteralSegment", build_struct_literal_segment());
    d.add("TypedStructLiteralSegment", build_typed_struct_literal_segment());
    d.add("IntervalExpressionSegment", build_interval_expression_segment());
    d.add("ArrayTypeSegment", build_array_type_segment());
    d.add("SizedArrayTypeSegment", build_sized_array_type_segment());
    d.add("UnorderedSelectStatementSegment", build_unordered_select_statement_segment());
    d.add("OverlapsClauseSegment", build_overlaps_clause_segment());
    d.add("SelectClauseSegment", build_select_clause_segment());
    d.add("StatementSegment", build_statement_segment());
    d.add("WithNoSchemaBindingClauseSegment", build_with_no_schema_binding_clause_segment());
    d.add("WithDataClauseSegment", build_with_data_clause_segment());
}

/// Elements 251 to 275 of the ANSI library, added to `lib`.
pub open spec fn ansi_library_part_10(lib: Map<Seq<char>, ElementView>) -> Map<Seq<char>, ElementView> {
    lib
        .insert("SetExpressionSegment"@, set_expression_segment_element())
        .insert("FromClauseSegment"@, from_clause_segment_element())
        .insert("EmptyStructLiteralBracketsSegment"@, empty_struct_literal_brackets_segment_element())
        .insert("WildcardExpressionSegment"@, wildcard_expression_segment_element())
        .insert("OrderByClauseSegment"@, order_by_clause_segment_element())
        .insert("TruncateStatementSegment"@, truncate_statement_segment_element())
        .insert("FromExpressionSegment"@, from_expression_segment_element())
        .insert("DatePartFunctionNameSegment"@, date_part_function_name_segment_element())
        .insert("SelectStatementSegment"@, select_statement_segment_element())
        .insert("CreateSchemaStatementSegment"@, create_schema_statement_segment_element())
        .insert("SelectClauseModifierSegment"@, select_clause_modifier_segment_element())
        .insert("SelectClauseElementSegment"@, select_clause_element_segment_element())
        .insert("CharCharacterSetGrammar"@, char_character_set_grammar_element())
        .insert("AliasedTableReferenceGrammar"@, aliased_table_reference_grammar_element())
        .insert("FunctionContentsSegment"@, function_contents_segment_element())
        .insert("FunctionContentsExpressionGrammar"@, function_contents_expression_grammar_element())
        .insert("FunctionContentsGrammar"@, function_contents_grammar_element())
        .insert("PostFunctionGrammar"@, post_function_grammar_element())
        .insert("JoinLikeClauseGrammar"@, join_like_clause_grammar_element())
        .insert("AccessStatementSegmentGrantRoleWithOptionGrammar"@, access_statement_segment_grant_role_with_option_grammar_element())
        .insert("Expression_A_Unary_Operator_Grammar"@, expression_a_unary_operator_grammar_element())
        .insert("Tail_Recurse_Expression_A_Grammar"@, tail_recurse_expression_a_grammar_element())
        .insert("Expression_A_Grammar"@, expression_a_grammar_element())
        .insert("Expression_B_Unary_Operator_Grammar"@, expression_b_unary_operator_grammar_element())
        .insert("Tail_Recurse_Expression_B_Grammar"@, tail_recurse_expression_b_grammar_element())
}

fn add_ansi_library_part_10(d: &mut DialectModel)
    ensures
        final(d)@ == (DialectView { library: ansi_library_part_10(old(d)@.library), ..old(d)@ }),
{
    d.add("SetExpressionSegment", build_set_expression_segment());
    d.add("FromClauseSegment", build_from_clause_segment());
    d.add("EmptyStructLiteralBracketsSegment", build_empty_struct_literal_brackets_segment());
    d.add("WildcardExpressionSegment", build_wildcard_expression_segment());
    d.add("OrderByClauseSegment", build_order_by_clause_segment());
    d.add("TruncateStatementSegment", build_truncate_statement_segment());
    d.add("FromExpressionSegment", build_from_expression_segment());
    d.add("DatePartFunctionNameSegment", build_date_part_function_name_segment());
    d.add("SelectStatementSegment", build_select_statement_segment());
    d.add("CreateSchemaStatementSegment", build_create_schema_statement_segment());
    d.add("SelectClauseModifierSegment", build_select_clause_modifier_segment());
    d.add("SelectClauseElementSegment", build_select_clause_element_segment());
    d.add("CharCharacterSetGrammar", build_char_character_set_grammar());
    d.add("AliasedTableReferenceGrammar", build_aliased_table_reference_grammar());
    d.add("FunctionContentsSegment", build_function_contents_segment());
    d.add("FunctionContentsExpressionGrammar", build_function_contents_expression_grammar());
    d.add("FunctionContentsGrammar", build_function_contents_grammar());
    d.add("PostFunctionGrammar", build_post_function_grammar());
    d.add("JoinLikeClauseGrammar", build_join_like_clause_grammar());
    d.add("AccessStatementSegmentGrantRoleWithOptionGrammar", build_access_statement_segment_grant_role_with_option_grammar());
    d.add("Expression_A_Unary_Operator_Grammar", build_expression_a_unary_operator_grammar());
    d.add("Tail_Recurse_Expression_A_Grammar", build_tail_recurse_expression_a_grammar());
    d.add("Expression_A_Grammar", build_expression_a_grammar());
    d.add("Expression_B_Unary_Operator_Grammar", build_expression_b_unary_operator_grammar());
    d.add("Tail_Recurse_Expression_B_Grammar", build_tail_recurse_expression_b_grammar());
}

/// Elements 276 to 285 of the ANSI library, added to `lib`.
pub open spec fn ansi_library_part_11(lib: Map<Seq<char>, ElementView>) -> Map<Seq<char>, ElementView> {
    lib
        .insert("Expression_B_Grammar"@, expression_b_grammar_element())
        .insert("Expression_C_Grammar"@, expression_c_grammar_element())
        .insert("Expression_D_Grammar"@, expression_d_grammar_element())
        .insert("AccessorGrammar"@, accessor_grammar_element())
        .insert("SelectableGrammar"@, selectable_grammar_element())
        .insert("NonWithSelectableGrammar"@, non_with_selectable_grammar_element())
        .insert("NonWithNonSelectableGrammar"@, non_with_non_selectable_grammar_element())
        .insert("NonSetSelectableGrammar"@, non_set_selectable_grammar_element())
        .insert("PostTableExpressionGrammar"@, post_table_expression_grammar_element())
        .insert("TimeWithTZGrammar"@, time_with_t_z_grammar_element())
}

fn add_ansi_library_part_11(d: &mut DialectModel)
    ensures
        final(d)@ == (DialectView { library: ansi_library_part_11(old(d)@.library), ..old(d)@ }),
{
    d.add("Expression_B_Grammar", build_expression_b_grammar());
    d.add("Expression_C_Grammar", build_expression_c_grammar());
    d.add("Expression_D_Grammar", build_expression_d_grammar());
    d.add("AccessorGrammar", build_accessor_grammar());
    d.add("SelectableGrammar", build_selectable_grammar());
    d.add("NonWithSelectableGrammar", build_non_with_selectable_grammar());
    d.add("NonWithNonSelectableGrammar", build_non_with_non_selectable_grammar());
    d.add("NonSetSelectableGrammar", build_non_set_selectable_grammar());
    d.add("PostTableExpressionGrammar", build_post_table_expression_grammar());
    d.add("TimeWithTZGrammar", build_time_with_t_z_grammar());
}

/// The ANSI library, added to `lib` (opaque: `reveal(ansi_library)` shows its parts).
#[verifier::opaque]
pub open spec fn ansi_library(lib: Map<Seq<char>, ElementView>) -> Map<Seq<char>, ElementView> {
    ansi_library_part_11(ansi_library_part_10(ansi_library_part_9(ansi_library_part_8(ansi_library_part_7(ansi_library_part_6(ansi_library_part_5(ansi_library_part_4(ansi_library_part_3(ansi_library_part_2(ansi_library_part_1(ansi_library_part_0(lib))))))))))))
}

/// Adds the ANSI library to `d`.
pub fn add_ansi_library(d: &mut DialectModel)
    ensures
        final(d)@ == (DialectView { library: ansi_library(old(d)@.library), ..old(d)@ }),
{
    add_ansi_library_part_0(d);
    add_ansi_library_part_1(d);
    add_ansi_library_part_2(d);
    add_ansi_library_part_3(d);
    add_ansi_library_part_4(d);
    add_ansi_library_part_5(d);
    add_ansi_library_part_6(d);
    add_ansi_library_part_7(d);
    add_ansi_library_part_8(d);
    add_ansi_library_part_9(d);
    add_ansi_library_part_10(d);
    add_ansi_library_part_11(d);
    proof {
        reveal(ansi_library);
    }
}

} // verus!
