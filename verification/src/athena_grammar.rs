//! The grammar changes of the Athena dialect: the elements it adds and the
//! grammars it replaces, in order. Each element or grammar is stated as a
//! value and built by a function proved to give that value.

use crate::dialect::{DialectModel, DialectView, Element, ElementView, has_grammar};
use crate::grammar::{Grammar, GrammarView, ParseMode, views, word_set};
use vstd::prelude::*;

verus! {

/// The Athena element `StartAngleBracketSegment`.
pub open spec fn start_angle_bracket_segment_element() -> ElementView {
    ElementView::Grammar(GrammarView::StringParser { template: "<"@, kind: "start_angle_bracket"@ })
}

fn build_start_angle_bracket_segment() -> (e: Element)
    ensures
        e@ =~~= start_angle_bracket_segment_element(),
{
    Element::Grammar(Grammar::string_parser("<", "start_angle_bracket"))
}

/// The Athena element `EndAngleBracketSegment`.
pub open spec fn end_angle_bracket_segment_element() -> ElementView {
    ElementView::Grammar(GrammarView::StringParser { template: ">"@, kind: "end_angle_bracket"@ })
}

fn build_end_angle_bracket_segment() -> (e: Element)
    ensures
        e@ =~~= end_angle_bracket_segment_element(),
{
    Element::Grammar(Grammar::string_parser(">", "end_angle_bracket"))
}

/// The Athena element `RightArrowOperator`.
pub open spec fn right_arrow_operator_element() -> ElementView {
    ElementView::Grammar(GrammarView::StringParser { template: "->"@, kind: "binary_operator"@ })
}

fn build_right_arrow_operator() -> (e: Element)
    ensures
        e@ =~~= right_arrow_operator_element(),
{
    Element::Grammar(Grammar::string_parser("->", "binary_operator"))
}

/// The Athena element `JSONFILE`.
pub open spec fn j_s_o_n_f_i_l_e_element() -> ElementView {
    ElementView::Grammar(GrammarView::StringParser { template: "JSONFILE"@, kind: "file_format"@ })
}

fn build_j_s_o_n_f_i_l_e() -> (e: Element)
    ensures
        e@ =~~= j_s_o_n_f_i_l_e_element(),
{
    Element::Grammar(Grammar::string_parser("JSONFILE", "file_format"))
}

/// The Athena element `RCFILE`.
pub open spec fn r_c_f_i_l_e_element() -> ElementView {
    ElementView::Grammar(GrammarView::StringParser { template: "RCFILE"@, kind: "file_format"@ })
}

fn build_r_c_f_i_l_e() -> (e: Element)
    ensures
        e@ =~~= r_c_f_i_l_e_element(),
{
    Element::Grammar(Grammar::string_parser("RCFILE", "file_format"))
}

/// The Athena element `ORC`.
pub open spec fn o_r_c_element() -> ElementView {
    ElementView::Grammar(GrammarView::StringParser { template: "ORCFILE"@, kind: "file_format"@ })
}

fn build_o_r_c() -> (e: Element)
    ensures
        e@ =~~= o_r_c_element(),
{
    Element::Grammar(Grammar::string_parser("ORCFILE", "file_format"))
}

/// The Athena element `PARQUET`.
pub open spec fn p_a_r_q_u_e_t_element() -> ElementView {
    ElementView::Grammar(GrammarView::StringParser { template: "PARQUETFILE"@, kind: "file_format"@ })
}

fn build_p_a_r_q_u_e_t() -> (e: Element)
    ensures
        e@ =~~= p_a_r_q_u_e_t_element(),
{
    Element::Grammar(Grammar::string_parser("PARQUETFILE", "file_format"))
}

/// The Athena element `AVRO`.
pub open spec fn a_v_r_o_element() -> ElementView {
    ElementView::Grammar(GrammarView::StringParser { template: "AVROFILE"@, kind: "file_format"@ })
}

fn build_a_v_r_o() -> (e: Element)
    ensures
        e@ =~~= a_v_r_o_element(),
{
    Element::Grammar(Grammar::string_parser("AVROFILE", "file_format"))
}

/// The Athena element `ION`.
pub open spec fn i_o_n_element() -> ElementView {
    ElementView::Grammar(GrammarView::StringParser { template: "IONFILE"@, kind: "file_format"@ })
}

fn build_i_o_n() -> (e: Element)
    ensures
        e@ =~~= i_o_n_element(),
{
    Element::Grammar(Grammar::string_parser("IONFILE", "file_format"))
}

/// The Athena element `SEQUENCEFILE`.
pub open spec fn s_e_q_u_e_n_c_e_f_i_l_e_element() -> ElementView {
    ElementView::Grammar(GrammarView::StringParser { template: "SEQUENCEFILE"@, kind: "file_format"@ })
}

fn build_s_e_q_u_e_n_c_e_f_i_l_e() -> (e: Element)
    ensures
        e@ =~~= s_e_q_u_e_n_c_e_f_i_l_e_element(),
{
    Element::Grammar(Grammar::string_parser("SEQUENCEFILE", "file_format"))
}

/// The Athena element `TEXTFILE`.
pub open spec fn t_e_x_t_f_i_l_e_element() -> ElementView {
    ElementView::Grammar(GrammarView::StringParser { template: "TEXTFILE"@, kind: "file_format"@ })
}

fn build_t_e_x_t_f_i_l_e() -> (e: Element)
    ensures
        e@ =~~= t_e_x_t_f_i_l_e_element(),
{
    Element::Grammar(Grammar::string_parser("TEXTFILE", "file_format"))
}

/// The Athena element `PropertyGrammar`.
pub open spec fn property_grammar_element() -> ElementView {
    ElementView::Grammar(GrammarView::Sequence { elements: seq![GrammarView::Ref { name: "QuotedLiteralSegment"@, optional: false }, GrammarView::Ref { name: "EqualsSegment"@, optional: false }, GrammarView::Ref { name: "QuotedLiteralSegment"@, optional: false }], terminators: seq![], parse_mode: ParseMode::Strict })
}

fn build_property_grammar() -> (e: Element)
    ensures
        e@ =~~= property_grammar_element(),
{
    let g1: Vec<Grammar> = vec![Grammar::reference("QuotedLiteralSegment"), Grammar::reference("EqualsSegment"), Grammar::reference("QuotedLiteralSegment")];
    assert(views(g1@) =~~= seq![GrammarView::Ref { name: "QuotedLiteralSegment"@, optional: false }, GrammarView::Ref { name: "EqualsSegment"@, optional: false }, GrammarView::Ref { name: "QuotedLiteralSegment"@, optional: false }]);
    let g2: Vec<Grammar> = Vec::new();
    assert(views(g2@) =~= Seq::<GrammarView>::empty());
    let g3 = Grammar::sequence_with(g1, g2, ParseMode::Strict);
    Element::Grammar(g3)
}

/// The Athena element `LocationGrammar`.
pub open spec fn location_grammar_element() -> ElementView {
    ElementView::Grammar(GrammarView::Sequence { elements: seq![GrammarView::Keyword { word: "LOCATION"@ }, GrammarView::Ref { name: "QuotedLiteralSegment"@, optional: false }], terminators: seq![], parse_mode: ParseMode::Strict })
}

fn build_location_grammar() -> (e: Element)
    ensures
        e@ =~~= location_grammar_element(),
{
    let g1: Vec<Grammar> = vec![Grammar::keyword("LOCATION"), Grammar::reference("QuotedLiteralSegment")];
    assert(views(g1@) =~~= seq![GrammarView::Keyword { word: "LOCATION"@ }, GrammarView::Ref { name: "QuotedLiteralSegment"@, optional: false }]);
    let g2: Vec<Grammar> = Vec::new();
    assert(views(g2@) =~= Seq::<GrammarView>::empty());
    let g3 = Grammar::sequence_with(g1, g2, ParseMode::Strict);
    Element::Grammar(g3)
}

/// The Athena element `BracketedPropertyListGrammar`.
pub open spec fn bracketed_property_list_grammar_element() -> ElementView {
    ElementView::Grammar(GrammarView::Bracketed { elements: seq![GrammarView::Delimited { elements: seq![GrammarView::Ref { name: "PropertyGrammar"@, optional: false }], allow_trailing: false, delimiter: None, terminators: seq![], allow_gaps: true }], bracket_type: "round"@ })
}

fn build_bracketed_property_list_grammar() -> (e: Element)
    ensures
        e@ =~~= bracketed_property_list_grammar_element(),
{
    let g1: Vec<Grammar> = vec![Grammar::reference("PropertyGrammar")];
    assert(views(g1@) =~~= seq![GrammarView::Ref { name: "PropertyGrammar"@, optional: false }]);
    let g2: Vec<Grammar> = Vec::new();
    assert(views(g2@) =~= Seq::<GrammarView>::empty());
    let g3 = Grammar::delimited_with(g1, false, None, g2, true);
    let g4: Vec<Grammar> = vec![g3];
    assert(views(g4@) =~~= seq![GrammarView::Delimited { elements: seq![GrammarView::Ref { name: "PropertyGrammar"@, optional: false }], allow_trailing: false, delimiter: None, terminators: seq![], allow_gaps: true }]);
    let g5 = Grammar::bracketed_with(g4, "round");
    Element::Grammar(g5)
}

/// The Athena element `CTASPropertyGrammar`.
pub open spec fn c_t_a_s_property_grammar_element() -> ElementView {
    ElementView::Grammar(GrammarView::Sequence { elements: seq![GrammarView::OneOf { elements: seq![GrammarView::Keyword { word: "FORMAT"@ }, GrammarView::Keyword { word: "PARTITIONED_BY"@ }, GrammarView::Keyword { word: "BUCKETED_BY"@ }, GrammarView::Keyword { word: "BUCKET_COUNT"@ }, GrammarView::Keyword { word: "WRITE_COMPRESSION"@ }, GrammarView::Keyword { word: "ORC_COMPRESSION"@ }, GrammarView::Keyword { word: "PARQUET_COMPRESSION"@ }, GrammarView::Keyword { word: "COMPRESSION_LEVEL"@ }, GrammarView::Keyword { word: "FIELD_DELIMITER"@ }, GrammarView::Keyword { word: "IS_EXTERNAL"@ }, GrammarView::Keyword { word: "TABLE_TYPE"@ }, GrammarView::Keyword { word: "EXTERNAL_LOCATION"@ }], terminators: seq![] }, GrammarView::Ref { name: "EqualsSegment"@, optional: false }, GrammarView::Ref { name: "LiteralGrammar"@, optional: false }], terminators: seq![], parse_mode: ParseMode::Strict })
}

fn build_c_t_a_s_property_grammar() -> (e: Element)
    ensures
        e@ =~~= c_t_a_s_property_grammar_element(),
{
    let g1: Vec<Grammar> = vec![Grammar::keyword("FORMAT"), Grammar::keyword("PARTITIONED_BY"), Grammar::keyword("BUCKETED_BY"), Grammar::keyword("BUCKET_COUNT"), Grammar::keyword("WRITE_COMPRESSION"), Grammar::keyword("ORC_COMPRESSION"), Grammar::keyword("PARQUET_COMPRESSION"), Grammar::keyword("COMPRESSION_LEVEL"), Grammar::keyword("FIELD_DELIMITER"), Grammar::keyword("IS_EXTERNAL"), Grammar::keyword("TABLE_TYPE"), Grammar::keyword("EXTERNAL_LOCATION")];
    assert(views(g1@) =~~= seq![GrammarView::Keyword { word: "FORMAT"@ }, GrammarView::Keyword { word: "PARTITIONED_BY"@ }, GrammarView::Keyword { word: "BUCKETED_BY"@ }, GrammarView::Keyword { word: "BUCKET_COUNT"@ }, GrammarView::Keyword { word: "WRITE_COMPRESSION"@ }, GrammarView::Keyword { word: "ORC_COMPRESSION"@ }, GrammarView::Keyword { word: "PARQUET_COMPRESSION"@ }, GrammarView::Keyword { word: "COMPRESSION_LEVEL"@ }, GrammarView::Keyword { word: "FIELD_DELIMITER"@ }, GrammarView::Keyword { word: "IS_EXTERNAL"@ }, GrammarView::Keyword { word: "TABLE_TYPE"@ }, GrammarView::Keyword { word: "EXTERNAL_LOCATION"@ }]);
    let g2: Vec<Grammar> = Vec::new();
    assert(views(g2@) =~= Seq::<GrammarView>::empty());
    let g3 = Grammar::one_of_with(g1, g2);
    let g4: Vec<Grammar> = vec![g3, Grammar::reference("EqualsSegment"), Grammar::reference("LiteralGrammar")];
    assert(views(g4@) =~~= seq![GrammarView::OneOf { elements: seq![GrammarView::Keyword { word: "FORMAT"@ }, GrammarView::Keyword { word: "PARTITIONED_BY"@ }, GrammarView::Keyword { word: "BUCKETED_BY"@ }, GrammarView::Keyword { word: "BUCKET_COUNT"@ }, GrammarView::Keyword { word: "WRITE_COMPRESSION"@ }, GrammarView::Keyword { word: "ORC_COMPRESSION"@ }, GrammarView::Keyword { word: "PARQUET_COMPRESSION"@ }, GrammarView::Keyword { word: "COMPRESSION_LEVEL"@ }, GrammarView::Keyword { word: "FIELD_DELIMITER"@ }, GrammarView::Keyword { word: "IS_EXTERNAL"@ }, GrammarView::Keyword { word: "TABLE_TYPE"@ }, GrammarView::Keyword { word: "EXTERNAL_LOCATION"@ }], terminators: seq![] }, GrammarView::Ref { name: "EqualsSegment"@, optional: false }, GrammarView::Ref { name: "LiteralGrammar"@, optional: false }]);
    let g5: Vec<Grammar> = Vec::new();
    assert(views(g5@) =~= Seq::<GrammarView>::empty());
    let g6 = Grammar::sequence_with(g4, g5, ParseMode::Strict);
    Element::Grammar(g6)
}

/// The Athena element `CTASIcebergPropertyGrammar`.
pub open spec fn c_t_a_s_iceberg_property_grammar_element() -> ElementView {
    ElementView::Grammar(GrammarView::Sequence { elements: seq![GrammarView::OneOf { elements: seq![GrammarView::Keyword { word: "FORMAT"@ }, GrammarView::Keyword { word: "PARTITIONED_BY"@ }, GrammarView::Keyword { word: "BUCKETED_BY"@ }, GrammarView::Keyword { word: "BUCKET_COUNT"@ }, GrammarView::Keyword { word: "WRITE_COMPRESSION"@ }, GrammarView::Keyword { word: "ORC_COMPRESSION"@ }, GrammarView::Keyword { word: "PARQUET_COMPRESSION"@ }, GrammarView::Keyword { word: "COMPRESSION_LEVEL"@ }, GrammarView::Keyword { word: "FIELD_DELIMITER"@ }, GrammarView::Keyword { word: "IS_EXTERNAL"@ }, GrammarView::Keyword { word: "TABLE_TYPE"@ }, GrammarView::Keyword { word: "LOCATION"@ }, GrammarView::Keyword { word: "PARTITIONING"@ }, GrammarView::Keyword { word: "VACUUM_MAX_SNAPSHOT_AGE_SECONDS"@ }, GrammarView::Keyword { word: "VACUUM_MIN_SNAPSHOTS_TO_KEEP"@ }, GrammarView::Keyword { word: "OPTIMIZE_REWRITE_MIN_DATA_FILE_SIZE_BYTES"@ }, GrammarView::Keyword { word: "OPTIMIZE_REWRITE_MAX_DATA_FILE_SIZE_BYTES"@ }, GrammarView::Keyword { word: "OPTIMIZE_REWRITE_DATA_FILE_THRESHOLD"@ }, GrammarView::Keyword { word: "OPTIMIZE_REWRITE_DELETE_FILE_THRESHOLD"@ }], terminators: seq![] }, GrammarView::Ref { name: "EqualsSegment"@, optional: false }, GrammarView::Ref { name: "LiteralGrammar"@, optional: false }], terminators: seq![], parse_mode: ParseMode::Strict })
}

fn build_c_t_a_s_iceberg_property_grammar() -> (e: Element)
    ensures
        e@ =~~= c_t_a_s_iceberg_property_grammar_element(),
{
    let g1: Vec<Grammar> = vec![Grammar::keyword("FORMAT"), Grammar::keyword("PARTITIONED_BY"), Grammar::keyword("BUCKETED_BY"), Grammar::keyword("BUCKET_COUNT"), Grammar::keyword("WRITE_COMPRESSION"), Grammar::keyword("ORC_COMPRESSION"), Grammar::keyword("PARQUET_COMPRESSION"), Grammar::keyword("COMPRESSION_LEVEL"), Grammar::keyword("FIELD_DELIMITER"), Grammar::keyword("IS_EXTERNAL"), Grammar::keyword("TABLE_TYPE"), Grammar::keyword("LOCATION"), Grammar::keyword("PARTITIONING"), Grammar::keyword("VACUUM_MAX_SNAPSHOT_AGE_SECONDS"), Grammar::keyword("VACUUM_MIN_SNAPSHOTS_TO_KEEP"), Grammar::keyword("OPTIMIZE_REWRITE_MIN_DATA_FILE_SIZE_BYTES"), Grammar::keyword("OPTIMIZE_REWRITE_MAX_DATA_FILE_SIZE_BYTES"), Grammar::keyword("OPTIMIZE_REWRITE_DATA_FILE_THRESHOLD"), Grammar::keyword("OPTIMIZE_REWRITE_DELETE_FILE_THRESHOLD")];
    assert(views(g1@) =~~= seq![GrammarView::Keyword { word: "FORMAT"@ }, GrammarView::Keyword { word: "PARTITIONED_BY"@ }, GrammarView::Keyword { word: "BUCKETED_BY"@ }, GrammarView::Keyword { word: "BUCKET_COUNT"@ }, GrammarView::Keyword { word: "WRITE_COMPRESSION"@ }, GrammarView::Keyword { word: "ORC_COMPRESSION"@ }, GrammarView::Keyword { word: "PARQUET_COMPRESSION"@ }, GrammarView::Keyword { word: "COMPRESSION_LEVEL"@ }, GrammarView::Keyword { word: "FIELD_DELIMITER"@ }, GrammarView::Keyword { word: "IS_EXTERNAL"@ }, GrammarView::Keyword { word: "TABLE_TYPE"@ }, GrammarView::Keyword { word: "LOCATION"@ }, GrammarView::Keyword { word: "PARTITIONING"@ }, GrammarView::Keyword { word: "VACUUM_MAX_SNAPSHOT_AGE_SECONDS"@ }, GrammarView::Keyword { word: "VACUUM_MIN_SNAPSHOTS_TO_KEEP"@ }, GrammarView::Keyword { word: "OPTIMIZE_REWRITE_MIN_DATA_FILE_SIZE_BYTES"@ }, GrammarView::Keyword { word: "OPTIMIZE_REWRITE_MAX_DATA_FILE_SIZE_BYTES"@ }, GrammarView::Keyword { word: "OPTIMIZE_REWRITE_DATA_FILE_THRESHOLD"@ }, GrammarView::Keyword { word: "OPTIMIZE_REWRITE_DELETE_FILE_THRESHOLD"@ }]);
    let g2: Vec<Grammar> = Vec::new();
    assert(views(g2@) =~= Seq::<GrammarView>::empty());
    let g3 = Grammar::one_of_with(g1, g2);
    let g4: Vec<Grammar> = vec![g3, Grammar::reference("EqualsSegment"), Grammar::reference("LiteralGrammar")];
    assert(views(g4@) =~~= seq![GrammarView::OneOf { elements: seq![GrammarView::Keyword { word: "FORMAT"@ }, GrammarView::Keyword { word: "PARTITIONED_BY"@ }, GrammarView::Keyword { word: "BUCKETED_BY"@ }, GrammarView::Keyword { word: "BUCKET_COUNT"@ }, GrammarView::Keyword { word: "WRITE_COMPRESSION"@ }, GrammarView::Keyword { word: "ORC_COMPRESSION"@ }, GrammarView::Keyword { word: "PARQUET_COMPRESSION"@ }, GrammarView::Keyword { word: "COMPRESSION_LEVEL"@ }, GrammarView::Keyword { word: "FIELD_DELIMITER"@ }, GrammarView::Keyword { word: "IS_EXTERNAL"@ }, GrammarView::Keyword { word: "TABLE_TYPE"@ }, GrammarView::Keyword { word: "LOCATION"@ }, GrammarView::Keyword { word: "PARTITIONING"@ }, GrammarView::Keyword { word: "VACUUM_MAX_SNAPSHOT_AGE_SECONDS"@ }, GrammarView::Keyword { word: "VACUUM_MIN_SNAPSHOTS_TO_KEEP"@ }, GrammarView::Keyword { word: "OPTIMIZE_REWRITE_MIN_DATA_FILE_SIZE_BYTES"@ }, GrammarView::Keyword { word: "OPTIMIZE_REWRITE_MAX_DATA_FILE_SIZE_BYTES"@ }, GrammarView::Keyword { word: "OPTIMIZE_REWRITE_DATA_FILE_THRESHOLD"@ }, GrammarView::Keyword { word: "OPTIMIZE_REWRITE_DELETE_FILE_THRESHOLD"@ }], terminators: seq![] }, GrammarView::Ref { name: "EqualsSegment"@, optional: false }, GrammarView::Ref { name: "LiteralGrammar"@, optional: false }]);
    let g5: Vec<Grammar> = Vec::new();
    assert(views(g5@) =~= Seq::<GrammarView>::empty());
    let g6 = Grammar::sequence_with(g4, g5, ParseMode::Strict);
    Element::Grammar(g6)
}

/// The Athena element `BracketedCTASPropertyGrammar`.
pub open spec fn bracketed_c_t_a_s_property_grammar_element() -> ElementView {
    ElementView::Grammar(GrammarView::Bracketed { elements: seq![GrammarView::OneOf { elements: seq![GrammarView::Delimited { elements: seq![GrammarView::Ref { name: "CTASPropertyGrammar"@, optional: false }], allow_trailing: false, delimiter: None, terminators: seq![], allow_gaps: true }, GrammarView::Delimited { elements: seq![GrammarView::Ref { name: "CTASIcebergPropertyGrammar"@, optional: false }], allow_trailing: false, delimiter: None, terminators: seq![], allow_gaps: true }], terminators: seq![] }], bracket_type: "round"@ })
}

fn build_bracketed_c_t_a_s_property_grammar() -> (e: Element)
    ensures
        e@ =~~= bracketed_c_t_a_s_property_grammar_element(),
{
    let g1: Vec<Grammar> = vec![Grammar::reference("CTASPropertyGrammar")];
    assert(views(g1@) =~~= seq![GrammarView::Ref { name: "CTASPropertyGrammar"@, optional: false }]);
    let g2: Vec<Grammar> = Vec::new();
    assert(views(g2@) =~= Seq::<GrammarView>::empty());
    let g3 = Grammar::delimited_with(g1, false, None, g2, true);
    let g4: Vec<Grammar> = vec![Grammar::reference("CTASIcebergPropertyGrammar")];
    assert(views(g4@) =~~= seq![GrammarView::Ref { name: "CTASIcebergPropertyGrammar"@, optional: false }]);
    let g5: Vec<Grammar> = Vec::new();
    assert(views(g5@) =~= Seq::<GrammarView>::empty());
    let g6 = Grammar::delimited_with(g4, false, None, g5, true);
    let g7: Vec<Grammar> = vec![g3, g6];
    assert(views(g7@) =~~= seq![GrammarView::Delimited { elements: seq![GrammarView::Ref { name: "CTASPropertyGrammar"@, optional: false }], allow_trailing: false, delimiter: None, terminators: seq![], allow_gaps: true }, GrammarView::Delimited { elements: seq![GrammarView::Ref { name: "CTASIcebergPropertyGrammar"@, optional: false }], allow_trailing: false, delimiter: None, terminators: seq![], allow_gaps: true }]);
    let g8: Vec<Grammar> = Vec::new();
    assert(views(g8@) =~= Seq::<GrammarView>::empty());
    let g9 = Grammar::one_of_with(g7, g8);
    let g10: Vec<Grammar> = vec![g9];
    assert(views(g10@) =~~= seq![GrammarView::OneOf { elements: seq![GrammarView::Delimited { elements: seq![GrammarView::Ref { name: "CTASPropertyGrammar"@, optional: false }], allow_trailing: false, delimiter: None, terminators: seq![], allow_gaps: true }, GrammarView::Delimited { elements: seq![GrammarView::Ref { name: "CTASIcebergPropertyGrammar"@, optional: false }], allow_trailing: false, delimiter: None, terminators: seq![], allow_gaps: true }], terminators: seq![] }]);
    let g11 = Grammar::bracketed_with(g10, "round");
    Element::Grammar(g11)
}

/// The Athena element `UnloadPropertyGrammar`.
pub open spec fn unload_property_grammar_element() -> ElementView {
    ElementView::Grammar(GrammarView::Sequence { elements: seq![GrammarView::OneOf { elements: seq![GrammarView::Keyword { word: "FORMAT"@ }, GrammarView::Keyword { word: "PARTITIONED_BY"@ }, GrammarView::Keyword { word: "COMPRESSION"@ }, GrammarView::Keyword { word: "FIELD_DELIMITER"@ }], terminators: seq![] }, GrammarView::Ref { name: "EqualsSegment"@, optional: false }, GrammarView::Ref { name: "LiteralGrammar"@, optional: false }], terminators: seq![], parse_mode: ParseMode::Strict })
}

fn build_unload_property_grammar() -> (e: Element)
    ensures
        e@ =~~= unload_property_grammar_element(),
{
    let g1: Vec<Grammar> = vec![Grammar::keyword("FORMAT"), Grammar::keyword("PARTITIONED_BY"), Grammar::keyword("COMPRESSION"), Grammar::keyword("FIELD_DELIMITER")];
    assert(views(g1@) =~~= seq![GrammarView::Keyword { word: "FORMAT"@ }, GrammarView::Keyword { word: "PARTITIONED_BY"@ }, GrammarView::Keyword { word: "COMPRESSION"@ }, GrammarView::Keyword { word: "FIELD_DELIMITER"@ }]);
    let g2: Vec<Grammar> = Vec::new();
    assert(views(g2@) =~= Seq::<GrammarView>::empty());
    let g3 = Grammar::one_of_with(g1, g2);
    let g4: Vec<Grammar> = vec![g3, Grammar::reference("EqualsSegment"), Grammar::reference("LiteralGrammar")];
    assert(views(g4@) =~~= seq![GrammarView::OneOf { elements: seq![GrammarView::Keyword { word: "FORMAT"@ }, GrammarView::Keyword { word: "PARTITIONED_BY"@ }, GrammarView::Keyword { word: "COMPRESSION"@ }, GrammarView::Keyword { word: "FIELD_DELIMITER"@ }], terminators: seq![] }, GrammarView::Ref { name: "EqualsSegment"@, optional: false }, GrammarView::Ref { name: "LiteralGrammar"@, optional: false }]);
    let g5: Vec<Grammar> = Vec::new();
    assert(views(g5@) =~= Seq::<GrammarView>::empty());
    let g6 = Grammar::sequence_with(g4, g5, ParseMode::Strict);
    Element::Grammar(g6)
}

/// The Athena element `BracketedUnloadPropertyGrammar`.
pub open spec fn bracketed_unload_property_grammar_element() -> ElementView {
    ElementView::Grammar(GrammarView::Bracketed { elements: seq![GrammarView::Delimited { elements: seq![GrammarView::Ref { name: "UnloadPropertyGrammar"@, optional: false }], allow_trailing: false, delimiter: None, terminators: seq![], allow_gaps: true }], bracket_type: "round"@ })
}

fn build_bracketed_unload_property_grammar() -> (e: Element)
    ensures
        e@ =~~= bracketed_unload_property_grammar_element(),
{
    let g1: Vec<Grammar> = vec![Grammar::reference("UnloadPropertyGrammar")];
    assert(views(g1@) =~~= seq![GrammarView::Ref { name: "UnloadPropertyGrammar"@, optional: false }]);
    let g2: Vec<Grammar> = Vec::new();
    assert(views(g2@) =~= Seq::<GrammarView>::empty());
    let g3 = Grammar::delimited_with(g1, false, None, g2, true);
    let g4: Vec<Grammar> = vec![g3];
    assert(views(g4@) =~~= seq![GrammarView::Delimited { elements: seq![GrammarView::Ref { name: "UnloadPropertyGrammar"@, optional: false }], allow_trailing: false, delimiter: None, terminators: seq![], allow_gaps: true }]);
    let g5 = Grammar::bracketed_with(g4, "round");
    Element::Grammar(g5)
}

/// The Athena element `TablePropertiesGrammar`.
pub open spec fn table_properties_grammar_element() -> ElementView {
    ElementView::Grammar(GrammarView::Sequence { elements: seq![GrammarView::Keyword { word: "TBLPROPERTIES"@ }, GrammarView::Ref { name: "BracketedPropertyListGrammar"@, optional: false }], terminators: seq![], parse_mode: ParseMode::Strict })
}

fn build_table_properties_grammar() -> (e: Element)
    ensures
        e@ =~~= table_properties_grammar_element(),
{
    let g1: Vec<Grammar> = vec![Grammar::keyword("TBLPROPERTIES"), Grammar::reference("BracketedPropertyListGrammar")];
    assert(views(g1@) =~~= seq![GrammarView::Keyword { word: "TBLPROPERTIES"@ }, GrammarView::Ref { name: "BracketedPropertyListGrammar"@, optional: false }]);
    let g2: Vec<Grammar> = Vec::new();
    assert(views(g2@) =~= Seq::<GrammarView>::empty());
    let g3 = Grammar::sequence_with(g1, g2, ParseMode::Strict);
    Element::Grammar(g3)
}

/// The Athena element `SerdePropertiesGrammar`.
pub open spec fn serde_properties_grammar_element() -> ElementView {
    ElementView::Grammar(GrammarView::Sequence { elements: seq![GrammarView::Keyword { word: "WITH"@ }, GrammarView::Keyword { word: "SERDEPROPERTIES"@ }, GrammarView::Ref { name: "BracketedPropertyListGrammar"@, optional: false }], terminators: seq![], parse_mode: ParseMode::Strict })
}

fn build_serde_properties_grammar() -> (e: Element)
    ensures
        e@ =~~= serde_properties_grammar_element(),
{
    let g1: Vec<Grammar> = vec![Grammar::keyword("WITH"), Grammar::keyword("SERDEPROPERTIES"), Grammar::reference("BracketedPropertyListGrammar")];
    assert(views(g1@) =~~= seq![GrammarView::Keyword { word: "WITH"@ }, GrammarView::Keyword { word: "SERDEPROPERTIES"@ }, GrammarView::Ref { name: "BracketedPropertyListGrammar"@, optional: false }]);
    let g2: Vec<Grammar> = Vec::new();
    assert(views(g2@) =~= Seq::<GrammarView>::empty());
    let g3 = Grammar::sequence_with(g1, g2, ParseMode::Strict);
    Element::Grammar(g3)
}

/// The Athena element `TerminatedByGrammar`.
pub open spec fn terminated_by_grammar_element() -> ElementView {
    ElementView::Grammar(GrammarView::Sequence { elements: seq![GrammarView::Keyword { word: "TERMINATED"@ }, GrammarView::Keyword { word: "BY"@ }, GrammarView::Ref { name: "QuotedLiteralSegment"@, optional: false }], terminators: seq![], parse_mode: ParseMode::Strict })
}

fn build_terminated_by_grammar() -> (e: Element)
    ensures
        e@ =~~= terminated_by_grammar_element(),
{
    let g1: Vec<Grammar> = vec![Grammar::keyword("TERMINATED"), Grammar::keyword("BY"), Grammar::reference("QuotedLiteralSegment")];
    assert(views(g1@) =~~= seq![GrammarView::Keyword { word: "TERMINATED"@ }, GrammarView::Keyword { word: "BY"@ }, GrammarView::Ref { name: "QuotedLiteralSegment"@, optional: false }]);
    let g2: Vec<Grammar> = Vec::new();
    assert(views(g2@) =~= Seq::<GrammarView>::empty());
    let g3 = Grammar::sequence_with(g1, g2, ParseMode::Strict);
    Element::Grammar(g3)
}

/// The Athena element `FileFormatGrammar`.
pub open spec fn file_format_grammar_element() -> ElementView {
    ElementView::Grammar(GrammarView::OneOf { elements: seq![GrammarView::Keyword { word: "SEQUENCEFILE"@ }, GrammarView::Keyword { word: "TEXTFILE"@ }, GrammarView::Keyword { word: "RCFILE"@ }, GrammarView::Keyword { word: "ORC"@ }, GrammarView::Keyword { word: "PARQUET"@ }, GrammarView::Keyword { word: "AVRO"@ }, GrammarView::Keyword { word: "JSONFILE"@ }, GrammarView::Keyword { word: "ION"@ }, GrammarView::Sequence { elements: seq![GrammarView::Keyword { word: "INPUTFORMAT"@ }, GrammarView::Ref { name: "QuotedLiteralSegment"@, optional: false }, GrammarView::Keyword { word: "OUTPUTFORMAT"@ }, GrammarView::Ref { name: "QuotedLiteralSegment"@, optional: false }], terminators: seq![], parse_mode: ParseMode::Strict }], terminators: seq![] })
}

fn build_file_format_grammar() -> (e: Element)
    ensures
        e@ =~~= file_format_grammar_element(),
{
    let g1: Vec<Grammar> = vec![Grammar::keyword("INPUTFORMAT"), Grammar::reference("QuotedLiteralSegment"), Grammar::keyword("OUTPUTFORMAT"), Grammar::reference("QuotedLiteralSegment")];
    assert(views(g1@) =~~= seq![GrammarView::Keyword { word: "INPUTFORMAT"@ }, GrammarView::Ref { name: "QuotedLiteralSegment"@, optional: false }, GrammarView::Keyword { word: "OUTPUTFORMAT"@ }, GrammarView::Ref { name: "QuotedLiteralSegment"@, optional: false }]);
    let g2: Vec<Grammar> = Vec::new();
    assert(views(g2@) =~= Seq::<GrammarView>::empty());
    let g3 = Grammar::sequence_with(g1, g2, ParseMode::Strict);
    let g4: Vec<Grammar> = vec![Grammar::keyword("SEQUENCEFILE"), Grammar::keyword("TEXTFILE"), Grammar::keyword("RCFILE"), Grammar::keyword("ORC"), Grammar::keyword("PARQUET"), Grammar::keyword("AVRO"), Grammar::keyword("JSONFILE"), Grammar::keyword("ION"), g3];
    assert(views(g4@) =~~= seq![GrammarView::Keyword { word: "SEQUENCEFILE"@ }, GrammarView::Keyword { word: "TEXTFILE"@ }, GrammarView::Keyword { word: "RCFILE"@ }, GrammarView::Keyword { word: "ORC"@ }, GrammarView::Keyword { word: "PARQUET"@ }, GrammarView::Keyword { word: "AVRO"@ }, GrammarView::Keyword { word: "JSONFILE"@ }, GrammarView::Keyword { word: "ION"@ }, GrammarView::Sequence { elements: seq![GrammarView::Keyword { word: "INPUTFORMAT"@ }, GrammarView::Ref { name: "QuotedLiteralSegment"@, optional: false }, GrammarView::Keyword { word: "OUTPUTFORMAT"@ }, GrammarView::Ref { name: "QuotedLiteralSegment"@, optional: false }], terminators: seq![], parse_mode: ParseMode::Strict }]);
    let g5: Vec<Grammar> = Vec::new();
    assert(views(g5@) =~= Seq::<GrammarView>::empty());
    let g6 = Grammar::one_of_with(g4, g5);
    Element::Grammar(g6)
}

/// The Athena element `StoredAsGrammar`.
pub open spec fn stored_as_grammar_element() -> ElementView {
    ElementView::Grammar(GrammarView::Sequence { elements: seq![GrammarView::Keyword { word: "STORED"@ }, GrammarView::Keyword { word: "AS"@ }, GrammarView::Ref { name: "FileFormatGrammar"@, optional: false }], terminators: seq![], parse_mode: ParseMode::Strict })
}

fn build_stored_as_grammar() -> (e: Element)
    ensures
        e@ =~~= stored_as_grammar_element(),
{
    let g1: Vec<Grammar> = vec![Grammar::keyword("STORED"), Grammar::keyword("AS"), Grammar::reference("FileFormatGrammar")];
    assert(views(g1@) =~~= seq![GrammarView::Keyword { word: "STORED"@ }, GrammarView::Keyword { word: "AS"@ }, GrammarView::Ref { name: "FileFormatGrammar"@, optional: false }]);
    let g2: Vec<Grammar> = Vec::new();
    assert(views(g2@) =~= Seq::<GrammarView>::empty());
    let g3 = Grammar::sequence_with(g1, g2, ParseMode::Strict);
    Element::Grammar(g3)
}

/// The Athena element `StoredByGrammar`.
pub open spec fn stored_by_grammar_element() -> ElementView {
    ElementView::Grammar(GrammarView::Sequence { elements: seq![GrammarView::Keyword { word: "STORED"@ }, GrammarView::Keyword { word: "BY"@ }, GrammarView::Ref { name: "QuotedLiteralSegment"@, optional: false }, GrammarView::Ref { name: "SerdePropertiesGrammar"@, optional: true }], terminators: seq![], parse_mode: ParseMode::Strict })
}

fn build_stored_by_grammar() -> (e: Element)
    ensures
        e@ =~~= stored_by_grammar_element(),
{
    let g1: Vec<Grammar> = vec![Grammar::keyword("STORED"), Grammar::keyword("BY"), Grammar::reference("QuotedLiteralSegment"), Grammar::optional_reference("SerdePropertiesGrammar")];
    assert(views(g1@) =~~= seq![GrammarView::Keyword { word: "STORED"@ }, GrammarView::Keyword { word: "BY"@ }, GrammarView::Ref { name: "QuotedLiteralSegment"@, optional: false }, GrammarView::Ref { name: "SerdePropertiesGrammar"@, optional: true }]);
    let g2: Vec<Grammar> = Vec::new();
    assert(views(g2@) =~= Seq::<GrammarView>::empty());
    let g3 = Grammar::sequence_with(g1, g2, ParseMode::Strict);
    Element::Grammar(g3)
}

/// The Athena element `StorageFormatGrammar`.
pub open spec fn storage_format_grammar_element() -> ElementView {
    ElementView::Grammar(GrammarView::OneOf { elements: seq![GrammarView::Sequence { elements: seq![GrammarView::Ref { name: "RowFormatClauseSegment"@, optional: true }, GrammarView::Ref { name: "StoredAsGrammar"@, optional: true }], terminators: seq![], parse_mode: ParseMode::Strict }, GrammarView::Ref { name: "StoredByGrammar"@, optional: false }], terminators: seq![] })
}

fn build_storage_format_grammar() -> (e: Element)
    ensures
        e@ =~~= storage_format_grammar_element(),
{
    let g1: Vec<Grammar> = vec![Grammar::optional_reference("RowFormatClauseSegment"), Grammar::optional_reference("StoredAsGrammar")];
    assert(views(g1@) =~~= seq![GrammarView::Ref { name: "RowFormatClauseSegment"@, optional: true }, GrammarView::Ref { name: "StoredAsGrammar"@, optional: true }]);
    let g2: Vec<Grammar> = Vec::new();
    assert(views(g2@) =~= Seq::<GrammarView>::empty());
    let g3 = Grammar::sequence_with(g1, g2, ParseMode::Strict);
    let g4: Vec<Grammar> = vec![g3, Grammar::reference("StoredByGrammar")];
    assert(views(g4@) =~~= seq![GrammarView::Sequence { elements: seq![GrammarView::Ref { name: "RowFormatClauseSegment"@, optional: true }, GrammarView::Ref { name: "StoredAsGrammar"@, optional: true }], terminators: seq![], parse_mode: ParseMode::Strict }, GrammarView::Ref { name: "StoredByGrammar"@, optional: false }]);
    let g5: Vec<Grammar> = Vec::new();
    assert(views(g5@) =~= Seq::<GrammarView>::empty());
    let g6 = Grammar::one_of_with(g4, g5);
    Element::Grammar(g6)
}

/// The Athena element `CommentGrammar`.
pub open spec fn comment_grammar_element() -> ElementView {
    ElementView::Grammar(GrammarView::Sequence { elements: seq![GrammarView::Keyword { word: "COMMENT"@ }, GrammarView::Ref { name: "QuotedLiteralSegment"@, optional: false }], terminators: seq![], parse_mode: ParseMode::Strict })
}

fn build_comment_grammar() -> (e: Element)
    ensures
        e@ =~~= comment_grammar_element(),
{
    let g1: Vec<Grammar> = vec![Grammar::keyword("COMMENT"), Grammar::reference("QuotedLiteralSegment")];
    assert(views(g1@) =~~= seq![GrammarView::Keyword { word: "COMMENT"@ }, GrammarView::Ref { name: "QuotedLiteralSegment"@, optional: false }]);
    let g2: Vec<Grammar> = Vec::new();
    assert(views(g2@) =~= Seq::<GrammarView>::empty());
    let g3 = Grammar::sequence_with(g1, g2, ParseMode::Strict);
    Element::Grammar(g3)
}

/// The Athena element `PartitionSpecGrammar`.
pub open spec fn partition_spec_grammar_element() -> ElementView {
    ElementView::Grammar(GrammarView::Sequence { elements: seq![GrammarView::Keyword { word: "PARTITION"@ }, GrammarView::Bracketed { elements: seq![GrammarView::Delimited { elements: seq![GrammarView::Sequence { elements: seq![GrammarView::Ref { name: "ColumnReferenceSegment"@, optional: false }, GrammarView::Optional { grammar: Box::new(GrammarView::Sequence { elements: seq![GrammarView::Ref { name: "EqualsSegment"@, optional: false }, GrammarView::Ref { name: "LiteralGrammar"@, optional: false }], terminators: seq![], parse_mode: ParseMode::Strict }) }], terminators: seq![], parse_mode: ParseMode::Strict }], allow_trailing: false, delimiter: None, terminators: seq![], allow_gaps: true }], bracket_type: "round"@ }], terminators: seq![], parse_mode: ParseMode::Strict })
}

fn build_partition_spec_grammar() -> (e: Element)
    ensures
        e@ =~~= partition_spec_grammar_element(),
{
    let g1: Vec<Grammar> = vec![Grammar::reference("EqualsSegment"), Grammar::reference("LiteralGrammar")];
    assert(views(g1@) =~~= seq![GrammarView::Ref { name: "EqualsSegment"@, optional: false }, GrammarView::Ref { name: "LiteralGrammar"@, optional: false }]);
    let g2: Vec<Grammar> = Vec::new();
    assert(views(g2@) =~= Seq::<GrammarView>::empty());
    let g3 = Grammar::sequence_with(g1, g2, ParseMode::Strict);
    let g4 = g3.optional();
    let g5: Vec<Grammar> = vec![Grammar::reference("ColumnReferenceSegment"), g4];
    assert(views(g5@) =~~= seq![GrammarView::Ref { name: "ColumnReferenceSegment"@, optional: false }, GrammarView::Optional { grammar: Box::new(GrammarView::Sequence { elements: seq![GrammarView::Ref { name: "EqualsSegment"@, optional: false }, GrammarView::Ref { name: "LiteralGrammar"@, optional: false }], terminators: seq![], parse_mode: ParseMode::Strict }) }]);
    let g6: Vec<Grammar> = Vec::new();
    assert(views(g6@) =~= Seq::<GrammarView>::empty());
    let g7 = Grammar::sequence_with(g5, g6, ParseMode::Strict);
    let g8: Vec<Grammar> = vec![g7];
    assert(views(g8@) =~~= seq![GrammarView::Sequence { elements: seq![GrammarView::Ref { name: "ColumnReferenceSegment"@, optional: false }, GrammarView::Optional { grammar: Box::new(GrammarView::Sequence { elements: seq![GrammarView::Ref { name: "EqualsSegment"@, optional: false }, GrammarView::Ref { name: "LiteralGrammar"@, optional: false }], terminators: seq![], parse_mode: ParseMode::Strict }) }], terminators: seq![], parse_mode: ParseMode::Strict }]);
    let g9: Vec<Grammar> = Vec::new();
    assert(views(g9@) =~= Seq::<GrammarView>::empty());
    let g10 = Grammar::delimited_with(g8, false, None, g9, true);
    let g11: Vec<Grammar> = vec![g10];
    assert(views(g11@) =~~= seq![GrammarView::Delimited { elements: seq![GrammarView::Sequence { elements: seq![GrammarView::Ref { name: "ColumnReferenceSegment"@, optional: false }, GrammarView::Optional { grammar: Box::new(GrammarView::Sequence { elements: seq![GrammarView::Ref { name: "EqualsSegment"@, optional: false }, GrammarView::Ref { name: "LiteralGrammar"@, optional: false }], terminators: seq![], parse_mode: ParseMode::Strict }) }], terminators: seq![], parse_mode: ParseMode::Strict }], allow_trailing: false, delimiter: None, terminators: seq![], allow_gaps: true }]);
    let g12 = Grammar::bracketed_with(g11, "round");
    let g13: Vec<Grammar> = vec![Grammar::keyword("PARTITION"), g12];
    assert(views(g13@) =~~= seq![GrammarView::Keyword { word: "PARTITION"@ }, GrammarView::Bracketed { elements: seq![GrammarView::Delimited { elements: seq![GrammarView::Sequence { elements: seq![GrammarView::Ref { name: "ColumnReferenceSegment"@, optional: false }, GrammarView::Optional { grammar: Box::new(GrammarView::Sequence { elements: seq![GrammarView::Ref { name: "EqualsSegment"@, optional: false }, GrammarView::Ref { name: "LiteralGrammar"@, optional: false }], terminators: seq![], parse_mode: ParseMode::Strict }) }], terminators: seq![], parse_mode: ParseMode::Strict }], allow_trailing: false, delimiter: None, terminators: seq![], allow_gaps: true }], bracket_type: "round"@ }]);
    let g14: Vec<Grammar> = Vec::new();
    assert(views(g14@) =~= Seq::<GrammarView>::empty());
    let g15 = Grammar::sequence_with(g13, g14, ParseMode::Strict);
    Element::Grammar(g15)
}

/// The Athena element `BackQuotedIdentifierSegment`.
pub open spec fn back_quoted_identifier_segment_element() -> ElementView {
    ElementView::Grammar(GrammarView::TypedParser { template: "back_quote"@, kind: "quoted_identifier"@ })
}

fn build_back_quoted_identifier_segment() -> (e: Element)
    ensures
        e@ =~~= back_quoted_identifier_segment_element(),
{
    Element::Grammar(Grammar::typed_parser("back_quote", "quoted_identifier"))
}

/// The Athena element `LiteralGrammar`.
pub open spec fn literal_grammar_element() -> ElementView {
    ElementView::Grammar((GrammarView::OneOf { elements: seq![GrammarView::Ref { name: "QuotedLiteralSegment"@, optional: false }, GrammarView::Ref { name: "NumericLiteralSegment"@, optional: false }, GrammarView::Ref { name: "BooleanLiteralGrammar"@, optional: false }, GrammarView::Ref { name: "QualifiedNumericLiteralSegment"@, optional: false }, GrammarView::Ref { name: "NullLiteralSegment"@, optional: false }, GrammarView::Ref { name: "DateTimeLiteralGrammar"@, optional: false }, GrammarView::Ref { name: "ArrayLiteralSegment"@, optional: false }, GrammarView::Ref { name: "TypedArrayLiteralSegment"@, optional: false }, GrammarView::Ref { name: "ObjectLiteralSegment"@, optional: false }], terminators: seq![] }).copied(Some(seq![GrammarView::Ref { name: "ParameterSegment"@, optional: false }]), None, None, None, seq![], false))
}

fn build_literal_grammar() -> (e: Element)
    ensures
        e@ =~~= literal_grammar_element(),
{
    let g1: Vec<Grammar> = vec![Grammar::reference("QuotedLiteralSegment"), Grammar::reference("NumericLiteralSegment"), Grammar::reference("BooleanLiteralGrammar"), Grammar::reference("QualifiedNumericLiteralSegment"), Grammar::reference("NullLiteralSegment"), Grammar::reference("DateTimeLiteralGrammar"), Grammar::reference("ArrayLiteralSegment"), Grammar::reference("TypedArrayLiteralSegment"), Grammar::reference("ObjectLiteralSegment")];
    assert(views(g1@) =~~= seq![GrammarView::Ref { name: "QuotedLiteralSegment"@, optional: false }, GrammarView::Ref { name: "NumericLiteralSegment"@, optional: false }, GrammarView::Ref { name: "BooleanLiteralGrammar"@, optional: false }, GrammarView::Ref { name: "QualifiedNumericLiteralSegment"@, optional: false }, GrammarView::Ref { name: "NullLiteralSegment"@, optional: false }, GrammarView::Ref { name: "DateTimeLiteralGrammar"@, optional: false }, GrammarView::Ref { name: "ArrayLiteralSegment"@, optional: false }, GrammarView::Ref { name: "TypedArrayLiteralSegment"@, optional: false }, GrammarView::Ref { name: "ObjectLiteralSegment"@, optional: false }]);
    let g2: Vec<Grammar> = Vec::new();
    assert(views(g2@) =~= Seq::<GrammarView>::empty());
    let g3 = Grammar::one_of_with(g1, g2);
    let g4 = g3;
    assert(g4@ =~~= GrammarView::OneOf { elements: seq![GrammarView::Ref { name: "QuotedLiteralSegment"@, optional: false }, GrammarView::Ref { name: "NumericLiteralSegment"@, optional: false }, GrammarView::Ref { name: "BooleanLiteralGrammar"@, optional: false }, GrammarView::Ref { name: "QualifiedNumericLiteralSegment"@, optional: false }, GrammarView::Ref { name: "NullLiteralSegment"@, optional: false }, GrammarView::Ref { name: "DateTimeLiteralGrammar"@, optional: false }, GrammarView::Ref { name: "ArrayLiteralSegment"@, optional: false }, GrammarView::Ref { name: "TypedArrayLiteralSegment"@, optional: false }, GrammarView::Ref { name: "ObjectLiteralSegment"@, optional: false }], terminators: seq![] });
    let g5: Vec<Grammar> = vec![Grammar::reference("ParameterSegment")];
    assert(views(g5@) =~~= seq![GrammarView::Ref { name: "ParameterSegment"@, optional: false }]);
    let g6: Vec<Grammar> = Vec::new();
    assert(views(g6@) =~= Seq::<GrammarView>::empty());
    let g7 = g4.copy(Some(g5), None, None, None, g6, false);
    Element::Grammar(g7)
}

/// The Athena element `AccessorGrammar`.
pub open spec fn accessor_grammar_element() -> ElementView {
    ElementView::Grammar(GrammarView::Sequence { elements: seq![GrammarView::Optional { grammar: Box::new(GrammarView::AnyNumberOf { elements: seq![GrammarView::Ref { name: "ArrayAccessorSegment"@, optional: false }], terminators: seq![], min_times: 0, max_times: None }) }, GrammarView::Optional { grammar: Box::new(GrammarView::AnyNumberOf { elements: seq![GrammarView::Sequence { elements: seq![GrammarView::Ref { name: "ObjectReferenceDelimiterGrammar"@, optional: false }, GrammarView::Ref { name: "ObjectReferenceSegment"@, optional: false }], terminators: seq![], parse_mode: ParseMode::Strict }], terminators: seq![], min_times: 0, max_times: None }) }], terminators: seq![], parse_mode: ParseMode::Strict })
}

fn build_accessor_grammar() -> (e: Element)
    ensures
        e@ =~~= accessor_grammar_element(),
{
    let g1: Vec<Grammar> = vec![Grammar::reference("ArrayAccessorSegment")];
    assert(views(g1@) =~~= seq![GrammarView::Ref { name: "ArrayAccessorSegment"@, optional: false }]);
    let g2: Vec<Grammar> = Vec::new();
    assert(views(g2@) =~= Seq::<GrammarView>::empty());
    let g3 = Grammar::any_number_of_with(g1, g2, 0, None);
    let g4 = g3.optional();
    let g5: Vec<Grammar> = vec![Grammar::reference("ObjectReferenceDelimiterGrammar"), Grammar::reference("ObjectReferenceSegment")];
    assert(views(g5@) =~~= seq![GrammarView::Ref { name: "ObjectReferenceDelimiterGrammar"@, optional: false }, GrammarView::Ref { name: "ObjectReferenceSegment"@, optional: false }]);
    let g6: Vec<Grammar> = Vec::new();
    assert(views(g6@) =~= Seq::<GrammarView>::empty());
    let g7 = Grammar::sequence_with(g5, g6, ParseMode::Strict);
    let g8: Vec<Grammar> = vec![g7];
    assert(views(g8@) =~~= seq![GrammarView::Sequence { elements: seq![GrammarView::Ref { name: "ObjectReferenceDelimiterGrammar"@, optional: false }, GrammarView::Ref { name: "ObjectReferenceSegment"@, optional: false }], terminators: seq![], parse_mode: ParseMode::Strict }]);
    let g9: Vec<Grammar> = Vec::new();
    assert(views(g9@) =~= Seq::<GrammarView>::empty());
    let g10 = Grammar::any_number_of_with(g8, g9, 0, None);
    let g11 = g10.optional();
    let g12: Vec<Grammar> = vec![g4, g11];
    assert(views(g12@) =~~= seq![GrammarView::Optional { grammar: Box::new(GrammarView::AnyNumberOf { elements: seq![GrammarView::Ref { name: "ArrayAccessorSegment"@, optional: false }], terminators: seq![], min_times: 0, max_times: None }) }, GrammarView::Optional { grammar: Box::new(GrammarView::AnyNumberOf { elements: seq![GrammarView::Sequence { elements: seq![GrammarView::Ref { name: "ObjectReferenceDelimiterGrammar"@, optional: false }, GrammarView::Ref { name: "ObjectReferenceSegment"@, optional: false }], terminators: seq![], parse_mode: ParseMode::Strict }], terminators: seq![], min_times: 0, max_times: None }) }]);
    let g13: Vec<Grammar> = Vec::new();
    assert(views(g13@) =~= Seq::<GrammarView>::empty());
    let g14 = Grammar::sequence_with(g12, g13, ParseMode::Strict);
    Element::Grammar(g14)
}

/// The Athena element `QuotedLiteralSegment`.
pub open spec fn quoted_literal_segment_element() -> ElementView {
    ElementView::Grammar(GrammarView::OneOf { elements: seq![GrammarView::TypedParser { template: "single_quote"@, kind: "quoted_literal"@ }, GrammarView::TypedParser { template: "double_quote"@, kind: "quoted_literal"@ }, GrammarView::TypedParser { template: "back_quote"@, kind: "quoted_literal"@ }], terminators: seq![] })
}

fn build_quoted_literal_segment() -> (e: Element)
    ensures
        e@ =~~= quoted_literal_segment_element(),
{
    let g1: Vec<Grammar> = vec![Grammar::typed_parser("single_quote", "quoted_literal"), Grammar::typed_parser("double_quote", "quoted_literal"), Grammar::typed_parser("back_quote", "quoted_literal")];
    assert(views(g1@) =~~= seq![GrammarView::TypedParser { template: "single_quote"@, kind: "quoted_literal"@ }, GrammarView::TypedParser { template: "double_quote"@, kind: "quoted_literal"@ }, GrammarView::TypedParser { template: "back_quote"@, kind: "quoted_literal"@ }]);
    let g2: Vec<Grammar> = Vec::new();
    assert(views(g2@) =~= Seq::<GrammarView>::empty());
    let g3 = Grammar::one_of_with(g1, g2);
    Element::Grammar(g3)
}

/// The Athena element `TrimParametersGrammar`.
pub open spec fn trim_parameters_grammar_element() -> ElementView {
    ElementView::Grammar(GrammarView::Nothing)
}

fn build_trim_parameters_grammar() -> (e: Element)
    ensures
        e@ =~~= trim_parameters_grammar_element(),
{
    Element::Grammar(Grammar::nothing())
}

/// The Athena element `NakedIdentifierSegment`.
pub open spec fn naked_identifier_segment_element() -> ElementView {
    ElementView::IdentifierNotIn { pattern: "[A-Z0-9_]*[A-Z_][A-Z0-9_]*"@, kind: "naked_identifier"@, set: "reserved_keywords"@ }
}

fn build_naked_identifier_segment() -> (e: Element)
    ensures
        e@ =~~= naked_identifier_segment_element(),
{
    Element::IdentifierNotIn { pattern: "[A-Z0-9_]*[A-Z_][A-Z0-9_]*", kind: "naked_identifier", set: "reserved_keywords" }
}

/// The Athena element `SingleIdentifierGrammar`.
pub open spec fn single_identifier_grammar_element() -> ElementView {
    ElementView::Grammar((GrammarView::OneOf { elements: seq![GrammarView::Ref { name: "NakedIdentifierSegment"@, optional: false }, GrammarView::Ref { name: "QuotedIdentifierSegment"@, optional: false }], terminators: seq![GrammarView::Ref { name: "DotSegment"@, optional: false }] }).copied(Some(seq![GrammarView::Ref { name: "BackQuotedIdentifierSegment"@, optional: false }]), None, None, None, seq![], false))
}

fn build_single_identifier_grammar() -> (e: Element)
    ensures
        e@ =~~= single_identifier_grammar_element(),
{
    let g1: Vec<Grammar> = vec![Grammar::reference("NakedIdentifierSegment"), Grammar::reference("QuotedIdentifierSegment")];
    assert(views(g1@) =~~= seq![GrammarView::Ref { name: "NakedIdentifierSegment"@, optional: false }, GrammarView::Ref { name: "QuotedIdentifierSegment"@, optional: false }]);
    let g2: Vec<Grammar> = vec![Grammar::reference("DotSegment")];
    assert(views(g2@) =~~= seq![GrammarView::Ref { name: "DotSegment"@, optional: false }]);
    let g3 = Grammar::one_of_with(g1, g2);
    let g4 = g3;
    assert(g4@ =~~= GrammarView::OneOf { elements: seq![GrammarView::Ref { name: "NakedIdentifierSegment"@, optional: false }, GrammarView::Ref { name: "QuotedIdentifierSegment"@, optional: false }], terminators: seq![GrammarView::Ref { name: "DotSegment"@, optional: false }] });
    let g5: Vec<Grammar> = vec![Grammar::reference("BackQuotedIdentifierSegment")];
    assert(views(g5@) =~~= seq![GrammarView::Ref { name: "BackQuotedIdentifierSegment"@, optional: false }]);
    let g6: Vec<Grammar> = Vec::new();
    assert(views(g6@) =~= Seq::<GrammarView>::empty());
    let g7 = g4.copy(Some(g5), None, None, None, g6, false);
    Element::Grammar(g7)
}

/// The Athena element `BinaryOperatorGrammar`.
pub open spec fn binary_operator_grammar_element() -> ElementView {
    ElementView::Grammar(GrammarView::OneOf { elements: seq![GrammarView::Ref { name: "ArithmeticBinaryOperatorGrammar"@, optional: false }, GrammarView::Ref { name: "StringBinaryOperatorGrammar"@, optional: false }, GrammarView::Ref { name: "BooleanBinaryOperatorGrammar"@, optional: false }, GrammarView::Ref { name: "ComparisonOperatorGrammar"@, optional: false }, GrammarView::Ref { name: "RightArrowOperator"@, optional: false }], terminators: seq![] })
}

fn build_binary_operator_grammar() -> (e: Element)
    ensures
        e@ =~~= binary_operator_grammar_element(),
{
    let g1: Vec<Grammar> = vec![Grammar::reference("ArithmeticBinaryOperatorGrammar"), Grammar::reference("StringBinaryOperatorGrammar"), Grammar::reference("BooleanBinaryOperatorGrammar"), Grammar::reference("ComparisonOperatorGrammar"), Grammar::reference("RightArrowOperator")];
    assert(views(g1@) =~~= seq![GrammarView::Ref { name: "ArithmeticBinaryOperatorGrammar"@, optional: false }, GrammarView::Ref { name: "StringBinaryOperatorGrammar"@, optional: false }, GrammarView::Ref { name: "BooleanBinaryOperatorGrammar"@, optional: false }, GrammarView::Ref { name: "ComparisonOperatorGrammar"@, optional: false }, GrammarView::Ref { name: "RightArrowOperator"@, optional: false }]);
    let g2: Vec<Grammar> = Vec::new();
    assert(views(g2@) =~= Seq::<GrammarView>::empty());
    let g3 = Grammar::one_of_with(g1, g2);
    Element::Grammar(g3)
}

/// The Athena element `PostFunctionGrammar`.
pub open spec fn post_function_grammar_element() -> ElementView {
    ElementView::Grammar((GrammarView::OneOf { elements: seq![GrammarView::Ref { name: "OverClauseSegment"@, optional: false }, GrammarView::Ref { name: "FilterClauseGrammar"@, optional: false }], terminators: seq![] }).copied(Some(seq![GrammarView::Optional { grammar: Box::new(GrammarView::Sequence { elements: seq![GrammarView::Keyword { word: "WITH"@ }, GrammarView::Keyword { word: "ORDINALITY"@ }], terminators: seq![], parse_mode: ParseMode::Strict }) }, GrammarView::Ref { name: "WithinGroupClauseSegment"@, optional: false }]), None, None, None, seq![], false))
}

fn build_post_function_grammar() -> (e: Element)
    ensures
        e@ =~~= post_function_grammar_element(),
{
    let g1: Vec<Grammar> = vec![Grammar::reference("OverClauseSegment"), Grammar::reference("FilterClauseGrammar")];
    assert(views(g1@) =~~= seq![GrammarView::Ref { name: "OverClauseSegment"@, optional: false }, GrammarView::Ref { name: "FilterClauseGrammar"@, optional: false }]);
    let g2: Vec<Grammar> = Vec::new();
    assert(views(g2@) =~= Seq::<GrammarView>::empty());
    let g3 = Grammar::one_of_with(g1, g2);
    let g4 = g3;
    assert(g4@ =~~= GrammarView::OneOf { elements: seq![GrammarView::Ref { name: "OverClauseSegment"@, optional: false }, GrammarView::Ref { name: "FilterClauseGrammar"@, optional: false }], terminators: seq![] });
    let g5: Vec<Grammar> = vec![Grammar::keyword("WITH"), Grammar::keyword("ORDINALITY")];
    assert(views(g5@) =~~= seq![GrammarView::Keyword { word: "WITH"@ }, GrammarView::Keyword { word: "ORDINALITY"@ }]);
    let g6: Vec<Grammar> = Vec::new();
    assert(views(g6@) =~= Seq::<GrammarView>::empty());
    let g7 = Grammar::sequence_with(g5, g6, ParseMode::Strict);
    let g8 = g7.optional();
    let g9: Vec<Grammar> = vec![g8, Grammar::reference("WithinGroupClauseSegment")];
    assert(views(g9@) =~~= seq![GrammarView::Optional { grammar: Box::new(GrammarView::Sequence { elements: seq![GrammarView::Keyword { word: "WITH"@ }, GrammarView::Keyword { word: "ORDINALITY"@ }], terminators: seq![], parse_mode: ParseMode::Strict }) }, GrammarView::Ref { name: "WithinGroupClauseSegment"@, optional: false }]);
    let g10: Vec<Grammar> = Vec::new();
    assert(views(g10@) =~= Seq::<GrammarView>::empty());
    let g11 = g4.copy(Some(g9), None, None, None, g10, false);
    Element::Grammar(g11)
}

/// The Athena element `FunctionContentsGrammar`.
pub open spec fn function_contents_grammar_element() -> ElementView {
    ElementView::Grammar((GrammarView::AnyNumberOf { elements: seq![GrammarView::Ref { name: "ExpressionSegment"@, optional: false }, GrammarView::Sequence { elements: seq![GrammarView::Ref { name: "ExpressionSegment"@, optional: false }, GrammarView::Keyword { word: "AS"@ }, GrammarView::Ref { name: "DatatypeSegment"@, optional: false }], terminators: seq![], parse_mode: ParseMode::Strict }, GrammarView::Sequence { elements: seq![GrammarView::Ref { name: "TrimParametersGrammar"@, optional: false }, GrammarView::Exclude { grammar: Box::new(GrammarView::Ref { name: "ExpressionSegment"@, optional: true }), exclude: Box::new(GrammarView::Keyword { word: "FROM"@ }) }, GrammarView::Keyword { word: "FROM"@ }, GrammarView::Ref { name: "ExpressionSegment"@, optional: false }], terminators: seq![], parse_mode: ParseMode::Strict }, GrammarView::Sequence { elements: seq![GrammarView::OneOf { elements: seq![GrammarView::Ref { name: "DatetimeUnitSegment"@, optional: false }, GrammarView::Ref { name: "ExpressionSegment"@, optional: false }], terminators: seq![] }, GrammarView::Keyword { word: "FROM"@ }, GrammarView::Ref { name: "ExpressionSegment"@, optional: false }], terminators: seq![], parse_mode: ParseMode::Strict }, GrammarView::Sequence { elements: seq![GrammarView::Optional { grammar: Box::new(GrammarView::Keyword { word: "DISTINCT"@ }) }, GrammarView::OneOf { elements: seq![GrammarView::Ref { name: "StarSegment"@, optional: false }, GrammarView::Delimited { elements: seq![GrammarView::Ref { name: "FunctionContentsExpressionGrammar"@, optional: false }], allow_trailing: false, delimiter: None, terminators: seq![], allow_gaps: true }], terminators: seq![] }], terminators: seq![], parse_mode: ParseMode::Strict }, GrammarView::Ref { name: "AggregateOrderByClause"@, optional: false }, GrammarView::Sequence { elements: seq![GrammarView::Keyword { word: "SEPARATOR"@ }, GrammarView::Ref { name: "LiteralGrammar"@, optional: false }], terminators: seq![], parse_mode: ParseMode::Strict }, GrammarView::Sequence { elements: seq![GrammarView::OneOf { elements: seq![GrammarView::Ref { name: "QuotedLiteralSegment"@, optional: false }, GrammarView::Ref { name: "SingleIdentifierGrammar"@, optional: false }, GrammarView::Ref { name: "ColumnReferenceSegment"@, optional: false }], terminators: seq![] }, GrammarView::Keyword { word: "IN"@ }, GrammarView::OneOf { elements: seq![GrammarView::Ref { name: "QuotedLiteralSegment"@, optional: false }, GrammarView::Ref { name: "SingleIdentifierGrammar"@, optional: false }, GrammarView::Ref { name: "ColumnReferenceSegment"@, optional: false }], terminators: seq![] }], terminators: seq![], parse_mode: ParseMode::Strict }, GrammarView::Ref { name: "IgnoreRespectNullsGrammar"@, optional: false }, GrammarView::Ref { name: "IndexColumnDefinitionSegment"@, optional: false }, GrammarView::Ref { name: "EmptyStructLiteralSegment"@, optional: false }], terminators: seq![], min_times: 0, max_times: None }).copied(Some(seq![GrammarView::Ref { name: "ListaggOverflowClauseSegment"@, optional: false }]), None, None, None, seq![], false))
}

#[verifier::rlimit(100)]
fn build_function_contents_grammar() -> (e: Element)
    ensures
        e@ =~~= function_contents_grammar_element(),
{
    let g1: Vec<Grammar> = vec![Grammar::reference("ExpressionSegment"), Grammar::keyword("AS"), Grammar::reference("DatatypeSegment")];
    assert(views(g1@) =~~= seq![GrammarView::Ref { name: "ExpressionSegment"@, optional: false }, GrammarView::Keyword { word: "AS"@ }, GrammarView::Ref { name: "DatatypeSegment"@, optional: false }]);
    let g2: Vec<Grammar> = Vec::new();
    assert(views(g2@) =~= Seq::<GrammarView>::empty());
    let g3 = Grammar::sequence_with(g1, g2, ParseMode::Strict);
    let g4 = Grammar::optional_reference("ExpressionSegment").exclude(Grammar::keyword("FROM"));
    let g5: Vec<Grammar> = vec![Grammar::reference("TrimParametersGrammar"), g4, Grammar::keyword("FROM"), Grammar::reference("ExpressionSegment")];
    assert(views(g5@) =~~= seq![GrammarView::Ref { name: "TrimParametersGrammar"@, optional: false }, GrammarView::Exclude { grammar: Box::new(GrammarView::Ref { name: "ExpressionSegment"@, optional: true }), exclude: Box::new(GrammarView::Keyword { word: "FROM"@ }) }, GrammarView::Keyword { word: "FROM"@ }, GrammarView::Ref { name: "ExpressionSegment"@, optional: false }]);
    let g6: Vec<Grammar> = Vec::new();
    assert(views(g6@) =~= Seq::<GrammarView>::empty());
    let g7 = Grammar::sequence_with(g5, g6, ParseMode::Strict);
    let g8: Vec<Grammar> = vec![Grammar::reference("DatetimeUnitSegment"), Grammar::reference("ExpressionSegment")];
    assert(views(g8@) =~~= seq![GrammarView::Ref { name: "DatetimeUnitSegment"@, optional: false }, GrammarView::Ref { name: "ExpressionSegment"@, optional: false }]);
    let g9: Vec<Grammar> = Vec::new();
    assert(views(g9@) =~= Seq::<GrammarView>::empty());
    let g10 = Grammar::one_of_with(g8, g9);
    let g11: Vec<Grammar> = vec![g10, Grammar::keyword("FROM"), Grammar::reference("ExpressionSegment")];
    assert(views(g11@) =~~= seq![GrammarView::OneOf { elements: seq![GrammarView::Ref { name: "DatetimeUnitSegment"@, optional: false }, GrammarView::Ref { name: "ExpressionSegment"@, optional: false }], terminators: seq![] }, GrammarView::Keyword { word: "FROM"@ }, GrammarView::Ref { name: "ExpressionSegment"@, optional: false }]);
    let g12: Vec<Grammar> = Vec::new();
    assert(views(g12@) =~= Seq::<GrammarView>::empty());
    let g13 = Grammar::sequence_with(g11, g12, ParseMode::Strict);
    let g14 = Grammar::keyword("DISTINCT").optional();
    let g15: Vec<Grammar> = vec![Grammar::reference("FunctionContentsExpressionGrammar")];
    assert(views(g15@) =~~= seq![GrammarView::Ref { name: "FunctionContentsExpressionGrammar"@, optional: false }]);
    let g16: Vec<Grammar> = Vec::new();
    assert(views(g16@) =~= Seq::<GrammarView>::empty());
    let g17 = Grammar::delimited_with(g15, false, None, g16, true);
    let g18: Vec<Grammar> = vec![Grammar::reference("StarSegment"), g17];
    assert(views(g18@) =~~= seq![GrammarView::Ref { name: "StarSegment"@, optional: false }, GrammarView::Delimited { elements: seq![GrammarView::Ref { name: "FunctionContentsExpressionGrammar"@, optional: false }], allow_trailing: false, delimiter: None, terminators: seq![], allow_gaps: true }]);
    let g19: Vec<Grammar> = Vec::new();
    assert(views(g19@) =~= Seq::<GrammarView>::empty());
    let g20 = Grammar::one_of_with(g18, g19);
    let g21: Vec<Grammar> = vec![g14, g20];
    assert(views(g21@) =~~= seq![GrammarView::Optional { grammar: Box::new(GrammarView::Keyword { word: "DISTINCT"@ }) }, GrammarView::OneOf { elements: seq![GrammarView::Ref { name: "StarSegment"@, optional: false }, GrammarView::Delimited { elements: seq![GrammarView::Ref { name: "FunctionContentsExpressionGrammar"@, optional: false }], allow_trailing: false, delimiter: None, terminators: seq![], allow_gaps: true }], terminators: seq![] }]);
    let g22: Vec<Grammar> = Vec::new();
    assert(views(g22@) =~= Seq::<GrammarView>::empty());
    let g23 = Grammar::sequence_with(g21, g22, ParseMode::Strict);
    let g24: Vec<Grammar> = vec![Grammar::keyword("SEPARATOR"), Grammar::reference("LiteralGrammar")];
    assert(views(g24@) =~~= seq![GrammarView::Keyword { word: "SEPARATOR"@ }, GrammarView::Ref { name: "LiteralGrammar"@, optional: false }]);
    let g25: Vec<Grammar> = Vec::new();
    assert(views(g25@) =~= Seq::<GrammarView>::empty());
    let g26 = Grammar::sequence_with(g24, g25, ParseMode::Strict);
    let g27: Vec<Grammar> = vec![Grammar::reference("QuotedLiteralSegment"), Grammar::reference("SingleIdentifierGrammar"), Grammar::reference("ColumnReferenceSegment")];
    assert(views(g27@) =~~= seq![GrammarView::Ref { name: "QuotedLiteralSegment"@, optional: false }, GrammarView::Ref { name: "SingleIdentifierGrammar"@, optional: false }, GrammarView::Ref { name: "ColumnReferenceSegment"@, optional: false }]);
    let g28: Vec<Grammar> = Vec::new();
    assert(views(g28@) =~= Seq::<GrammarView>::empty());
    let g29 = Grammar::one_of_with(g27, g28);
    let g30: Vec<Grammar> = vec![Grammar::reference("QuotedLiteralSegment"), Grammar::reference("SingleIdentifierGrammar"), Grammar::reference("ColumnReferenceSegment")];
    assert(views(g30@) =~~= seq![GrammarView::Ref { name: "QuotedLiteralSegment"@, optional: false }, GrammarView::Ref { name: "SingleIdentifierGrammar"@, optional: false }, GrammarView::Ref { name: "ColumnReferenceSegment"@, optional: false }]);
    let g31: Vec<Grammar> = Vec::new();
    assert(views(g31@) =~= Seq::<GrammarView>::empty());
    let g32 = Grammar::one_of_with(g30, g31);
    let g33: Vec<Grammar> = vec![g29, Grammar::keyword("IN"), g32];
    assert(views(g33@) =~~= seq![GrammarView::OneOf { elements: seq![GrammarView::Ref { name: "QuotedLiteralSegment"@, optional: false }, GrammarView::Ref { name: "SingleIdentifierGrammar"@, optional: false }, GrammarView::Ref { name: "ColumnReferenceSegment"@, optional: false }], terminators: seq![] }, GrammarView::Keyword { word: "IN"@ }, GrammarView::OneOf { elements: seq![GrammarView::Ref { name: "QuotedLiteralSegment"@, optional: false }, GrammarView::Ref { name: "SingleIdentifierGrammar"@, optional: false }, GrammarView::Ref { name: "ColumnReferenceSegment"@, optional: false }], terminators: seq![] }]);
    let g34: Vec<Grammar> = Vec::new();
    assert(views(g34@) =~= Seq::<GrammarView>::empty());
    let g35 = Grammar::sequence_with(g33, g34, ParseMode::Strict);
    let g36: Vec<Grammar> = vec![Grammar::reference("ExpressionSegment"), g3, g7, g13, g23, Grammar::reference("AggregateOrderByClause"), g26, g35, Grammar::reference("IgnoreRespectNullsGrammar"), Grammar::reference("IndexColumnDefinitionSegment"), Grammar::reference("EmptyStructLiteralSegment")];
    assert(views(g36@) =~~= seq![GrammarView::Ref { name: "ExpressionSegment"@, optional: false }, GrammarView::Sequence { elements: seq![GrammarView::Ref { name: "ExpressionSegment"@, optional: false }, GrammarView::Keyword { word: "AS"@ }, GrammarView::Ref { name: "DatatypeSegment"@, optional: false }], terminators: seq![], parse_mode: ParseMode::Strict }, GrammarView::Sequence { elements: seq![GrammarView::Ref { name: "TrimParametersGrammar"@, optional: false }, GrammarView::Exclude { grammar: Box::new(GrammarView::Ref { name: "ExpressionSegment"@, optional: true }), exclude: Box::new(GrammarView::Keyword { word: "FROM"@ }) }, GrammarView::Keyword { word: "FROM"@ }, GrammarView::Ref { name: "ExpressionSegment"@, optional: false }], terminators: seq![], parse_mode: ParseMode::Strict }, GrammarView::Sequence { elements: seq![GrammarView::OneOf { elements: seq![GrammarView::Ref { name: "DatetimeUnitSegment"@, optional: false }, GrammarView::Ref { name: "ExpressionSegment"@, optional: false }], terminators: seq![] }, GrammarView::Keyword { word: "FROM"@ }, GrammarView::Ref { name: "ExpressionSegment"@, optional: false }], terminators: seq![], parse_mode: ParseMode::Strict }, GrammarView::Sequence { elements: seq![GrammarView::Optional { grammar: Box::new(GrammarView::Keyword { word: "DISTINCT"@ }) }, GrammarView::OneOf { elements: seq![GrammarView::Ref { name: "StarSegment"@, optional: false }, GrammarView::Delimited { elements: seq![GrammarView::Ref { name: "FunctionContentsExpressionGrammar"@, optional: false }], allow_trailing: false, delimiter: None, terminators: seq![], allow_gaps: true }], terminators: seq![] }], terminators: seq![], parse_mode: ParseMode::Strict }, GrammarView::Ref { name: "AggregateOrderByClause"@, optional: false }, GrammarView::Sequence { elements: seq![GrammarView::Keyword { word: "SEPARATOR"@ }, GrammarView::Ref { name: "LiteralGrammar"@, optional: false }], terminators: seq![], parse_mode: ParseMode::Strict }, GrammarView::Sequence { elements: seq![GrammarView::OneOf { elements: seq![GrammarView::Ref { name: "QuotedLiteralSegment"@, optional: false }, GrammarView::Ref { name: "SingleIdentifierGrammar"@, optional: false }, GrammarView::Ref { name: "ColumnReferenceSegment"@, optional: false }], terminators: seq![] }, GrammarView::Keyword { word: "IN"@ }, GrammarView::OneOf { elements: seq![GrammarView::Ref { name: "QuotedLiteralSegment"@, optional: false }, GrammarView::Ref { name: "SingleIdentifierGrammar"@, optional: false }, GrammarView::Ref { name: "ColumnReferenceSegment"@, optional: false }], terminators: seq![] }], terminators: seq![], parse_mode: ParseMode::Strict }, GrammarView::Ref { name: "IgnoreRespectNullsGrammar"@, optional: false }, GrammarView::Ref { name: "IndexColumnDefinitionSegment"@, optional: false }, GrammarView::Ref { name: "EmptyStructLiteralSegment"@, optional: false }]);
    let g37: Vec<Grammar> = Vec::new();
    assert(views(g37@) =~= Seq::<GrammarView>::empty());
    let g38 = Grammar::any_number_of_with(g36, g37, 0, None);
    let g39 = g38;
    assert(g39@ =~~= GrammarView::AnyNumberOf { elements: seq![GrammarView::Ref { name: "ExpressionSegment"@, optional: false }, GrammarView::Sequence { elements: seq![GrammarView::Ref { name: "ExpressionSegment"@, optional: false }, GrammarView::Keyword { word: "AS"@ }, GrammarView::Ref { name: "DatatypeSegment"@, optional: false }], terminators: seq![], parse_mode: ParseMode::Strict }, GrammarView::Sequence { elements: seq![GrammarView::Ref { name: "TrimParametersGrammar"@, optional: false }, GrammarView::Exclude { grammar: Box::new(GrammarView::Ref { name: "ExpressionSegment"@, optional: true }), exclude: Box::new(GrammarView::Keyword { word: "FROM"@ }) }, GrammarView::Keyword { word: "FROM"@ }, GrammarView::Ref { name: "ExpressionSegment"@, optional: false }], terminators: seq![], parse_mode: ParseMode::Strict }, GrammarView::Sequence { elements: seq![GrammarView::OneOf { elements: seq![GrammarView::Ref { name: "DatetimeUnitSegment"@, optional: false }, GrammarView::Ref { name: "ExpressionSegment"@, optional: false }], terminators: seq![] }, GrammarView::Keyword { word: "FROM"@ }, GrammarView::Ref { name: "ExpressionSegment"@, optional: false }], terminators: seq![], parse_mode: ParseMode::Strict }, GrammarView::Sequence { elements: seq![GrammarView::Optional { grammar: Box::new(GrammarView::Keyword { word: "DISTINCT"@ }) }, GrammarView::OneOf { elements: seq![GrammarView::Ref { name: "StarSegment"@, optional: false }, GrammarView::Delimited { elements: seq![GrammarView::Ref { name: "FunctionContentsExpressionGrammar"@, optional: false }], allow_trailing: false, delimiter: None, terminators: seq![], allow_gaps: true }], terminators: seq![] }], terminators: seq![], parse_mode: ParseMode::Strict }, GrammarView::Ref { name: "AggregateOrderByClause"@, optional: false }, GrammarView::Sequence { elements: seq![GrammarView::Keyword { word: "SEPARATOR"@ }, GrammarView::Ref { name: "LiteralGrammar"@, optional: false }], terminators: seq![], parse_mode: ParseMode::Strict }, GrammarView::Sequence { elements: seq![GrammarView::OneOf { elements: seq![GrammarView::Ref { name: "QuotedLiteralSegment"@, optional: false }, GrammarView::Ref { name: "SingleIdentifierGrammar"@, optional: false }, GrammarView::Ref { name: "ColumnReferenceSegment"@, optional: false }], terminators: seq![] }, GrammarView::Keyword { word: "IN"@ }, GrammarView::OneOf { elements: seq![GrammarView::Ref { name: "QuotedLiteralSegment"@, optional: false }, GrammarView::Ref { name: "SingleIdentifierGrammar"@, optional: false }, GrammarView::Ref { name: "ColumnReferenceSegment"@, optional: false }], terminators: seq![] }], terminators: seq![], parse_mode: ParseMode::Strict }, GrammarView::Ref { name: "IgnoreRespectNullsGrammar"@, optional: false }, GrammarView::Ref { name: "IndexColumnDefinitionSegment"@, optional: false }, GrammarView::Ref { name: "EmptyStructLiteralSegment"@, optional: false }], terminators: seq![], min_times: 0, max_times: None });
    let g40: Vec<Grammar> = vec![Grammar::reference("ListaggOverflowClauseSegment")];
    assert(views(g40@) =~~= seq![GrammarView::Ref { name: "ListaggOverflowClauseSegment"@, optional: false }]);
    let g41: Vec<Grammar> = Vec::new();
    assert(views(g41@) =~= Seq::<GrammarView>::empty());
    let g42 = g39.copy(Some(g40), None, None, None, g41, false);
    Element::Grammar(g42)
}

/// The Athena element `WithinGroupClauseSegment`.
pub open spec fn within_group_clause_segment_element() -> ElementView {
    ElementView::Grammar(GrammarView::Sequence { elements: seq![GrammarView::Keyword { word: "WITHIN"@ }, GrammarView::Keyword { word: "GROUP"@ }, GrammarView::Bracketed { elements: seq![GrammarView::Ref { name: "OrderByClauseSegment"@, optional: false }], bracket_type: "round"@ }, GrammarView::Ref { name: "FilterClauseGrammar"@, optional: true }], terminators: seq![], parse_mode: ParseMode::Strict })
}

fn build_within_group_clause_segment() -> (e: Element)
    ensures
        e@ =~~= within_group_clause_segment_element(),
{
    let g1: Vec<Grammar> = vec![Grammar::reference("OrderByClauseSegment")];
    assert(views(g1@) =~~= seq![GrammarView::Ref { name: "OrderByClauseSegment"@, optional: false }]);
    let g2 = Grammar::bracketed_with(g1, "round");
    let g3: Vec<Grammar> = vec![Grammar::keyword("WITHIN"), Grammar::keyword("GROUP"), g2, Grammar::optional_reference("FilterClauseGrammar")];
    assert(views(g3@) =~~= seq![GrammarView::Keyword { word: "WITHIN"@ }, GrammarView::Keyword { word: "GROUP"@ }, GrammarView::Bracketed { elements: seq![GrammarView::Ref { name: "OrderByClauseSegment"@, optional: false }], bracket_type: "round"@ }, GrammarView::Ref { name: "FilterClauseGrammar"@, optional: true }]);
    let g4: Vec<Grammar> = Vec::new();
    assert(views(g4@) =~= Seq::<GrammarView>::empty());
    let g5 = Grammar::sequence_with(g3, g4, ParseMode::Strict);
    Element::Grammar(g5)
}

/// The Athena element `ListaggOverflowClauseSegment`.
pub open spec fn listagg_overflow_clause_segment_element() -> ElementView {
    ElementView::Grammar(GrammarView::Sequence { elements: seq![GrammarView::Keyword { word: "ON"@ }, GrammarView::Keyword { word: "OVERFLOW"@ }, GrammarView::OneOf { elements: seq![GrammarView::Keyword { word: "ERROR"@ }, GrammarView::Sequence { elements: seq![GrammarView::Keyword { word: "TRUNCATE"@ }, GrammarView::Ref { name: "QuotedLiteralSegment"@, optional: true }, GrammarView::Optional { grammar: Box::new(GrammarView::OneOf { elements: seq![GrammarView::Keyword { word: "WITH"@ }, GrammarView::Keyword { word: "WITHOUT"@ }], terminators: seq![] }) }, GrammarView::Optional { grammar: Box::new(GrammarView::Keyword { word: "COUNT"@ }) }], terminators: seq![], parse_mode: ParseMode::Strict }], terminators: seq![] }], terminators: seq![], parse_mode: ParseMode::Strict })
}

fn build_listagg_overflow_clause_segment() -> (e: Element)
    ensures
        e@ =~~= listagg_overflow_clause_segment_element(),
{
    let g1: Vec<Grammar> = vec![Grammar::keyword("WITH"), Grammar::keyword("WITHOUT")];
    assert(views(g1@) =~~= seq![GrammarView::Keyword { word: "WITH"@ }, GrammarView::Keyword { word: "WITHOUT"@ }]);
    let g2: Vec<Grammar> = Vec::new();
    assert(views(g2@) =~= Seq::<GrammarView>::empty());
    let g3 = Grammar::one_of_with(g1, g2);
    let g4 = g3.optional();
    let g5 = Grammar::keyword("COUNT").optional();
    let g6: Vec<Grammar> = vec![Grammar::keyword("TRUNCATE"), Grammar::optional_reference("QuotedLiteralSegment"), g4, g5];
    assert(views(g6@) =~~= seq![GrammarView::Keyword { word: "TRUNCATE"@ }, GrammarView::Ref { name: "QuotedLiteralSegment"@, optional: true }, GrammarView::Optional { grammar: Box::new(GrammarView::OneOf { elements: seq![GrammarView::Keyword { word: "WITH"@ }, GrammarView::Keyword { word: "WITHOUT"@ }], terminators: seq![] }) }, GrammarView::Optional { grammar: Box::new(GrammarView::Keyword { word: "COUNT"@ }) }]);
    let g7: Vec<Grammar> = Vec::new();
    assert(views(g7@) =~= Seq::<GrammarView>::empty());
    let g8 = Grammar::sequence_with(g6, g7, ParseMode::Strict);
    let g9: Vec<Grammar> = vec![Grammar::keyword("ERROR"), g8];
    assert(views(g9@) =~~= seq![GrammarView::Keyword { word: "ERROR"@ }, GrammarView::Sequence { elements: seq![GrammarView::Keyword { word: "TRUNCATE"@ }, GrammarView::Ref { name: "QuotedLiteralSegment"@, optional: true }, GrammarView::Optional { grammar: Box::new(GrammarView::OneOf { elements: seq![GrammarView::Keyword { word: "WITH"@ }, GrammarView::Keyword { word: "WITHOUT"@ }], terminators: seq![] }) }, GrammarView::Optional { grammar: Box::new(GrammarView::Keyword { word: "COUNT"@ }) }], terminators: seq![], parse_mode: ParseMode::Strict }]);
    let g10: Vec<Grammar> = Vec::new();
    assert(views(g10@) =~= Seq::<GrammarView>::empty());
    let g11 = Grammar::one_of_with(g9, g10);
    let g12: Vec<Grammar> = vec![Grammar::keyword("ON"), Grammar::keyword("OVERFLOW"), g11];
    assert(views(g12@) =~~= seq![GrammarView::Keyword { word: "ON"@ }, GrammarView::Keyword { word: "OVERFLOW"@ }, GrammarView::OneOf { elements: seq![GrammarView::Keyword { word: "ERROR"@ }, GrammarView::Sequence { elements: seq![GrammarView::Keyword { word: "TRUNCATE"@ }, GrammarView::Ref { name: "QuotedLiteralSegment"@, optional: true }, GrammarView::Optional { grammar: Box::new(GrammarView::OneOf { elements: seq![GrammarView::Keyword { word: "WITH"@ }, GrammarView::Keyword { word: "WITHOUT"@ }], terminators: seq![] }) }, GrammarView::Optional { grammar: Box::new(GrammarView::Keyword { word: "COUNT"@ }) }], terminators: seq![], parse_mode: ParseMode::Strict }], terminators: seq![] }]);
    let g13: Vec<Grammar> = Vec::new();
    assert(views(g13@) =~= Seq::<GrammarView>::empty());
    let g14 = Grammar::sequence_with(g12, g13, ParseMode::Strict);
    Element::Grammar(g14)
}

/// The Athena element `ValuesClauseSegment`.
pub open spec fn values_clause_segment_element() -> ElementView {
    ElementView::Node { kind: "values_clause"@, grammar: GrammarView::Sequence { elements: seq![GrammarView::Keyword { word: "VALUES"@ }, GrammarView::Delimited { elements: seq![GrammarView::Ref { name: "ExpressionSegment"@, optional: false }], allow_trailing: false, delimiter: None, terminators: seq![], allow_gaps: true }], terminators: seq![], parse_mode: ParseMode::Strict } }
}

fn build_values_clause_segment() -> (e: Element)
    ensures
        e@ =~~= values_clause_segment_element(),
{
    let g1: Vec<Grammar> = vec![Grammar::reference("ExpressionSegment")];
    assert(views(g1@) =~~= seq![GrammarView::Ref { name: "ExpressionSegment"@, optional: false }]);
    let g2: Vec<Grammar> = Vec::new();
    assert(views(g2@) =~= Seq::<GrammarView>::empty());
    let g3 = Grammar::delimited_with(g1, false, None, g2, true);
    let g4: Vec<Grammar> = vec![Grammar::keyword("VALUES"), g3];
    assert(views(g4@) =~~= seq![GrammarView::Keyword { word: "VALUES"@ }, GrammarView::Delimited { elements: seq![GrammarView::Ref { name: "ExpressionSegment"@, optional: false }], allow_trailing: false, delimiter: None, terminators: seq![], allow_gaps: true }]);
    let g5: Vec<Grammar> = Vec::new();
    assert(views(g5@) =~= Seq::<GrammarView>::empty());
    let g6 = Grammar::sequence_with(g4, g5, ParseMode::Strict);
    Element::Node { kind: "values_clause", grammar: g6 }
}

/// The Athena grammar of `ArrayTypeSegment`.
pub open spec fn array_type_segment_grammar() -> GrammarView {
    GrammarView::Sequence { elements: seq![GrammarView::Keyword { word: "ARRAY"@ }, GrammarView::Ref { name: "ArrayTypeSchemaSegment"@, optional: true }], terminators: seq![], parse_mode: ParseMode::Strict }
}

fn build_array_type_segment() -> (g: Grammar)
    ensures
        g@ =~~= array_type_segment_grammar(),
{
    let g1: Vec<Grammar> = vec![Grammar::keyword("ARRAY"), Grammar::optional_reference("ArrayTypeSchemaSegment")];
    assert(views(g1@) =~~= seq![GrammarView::Keyword { word: "ARRAY"@ }, GrammarView::Ref { name: "ArrayTypeSchemaSegment"@, optional: true }]);
    let g2: Vec<Grammar> = Vec::new();
    assert(views(g2@) =~= Seq::<GrammarView>::empty());
    let g3 = Grammar::sequence_with(g1, g2, ParseMode::Strict);
    g3
}

/// The Athena grammar of `StructTypeSegment`.
pub open spec fn struct_type_segment_grammar() -> GrammarView {
    GrammarView::Sequence { elements: seq![GrammarView::Keyword { word: "STRUCT"@ }, GrammarView::Ref { name: "StructTypeSchemaSegment"@, optional: true }], terminators: seq![], parse_mode: ParseMode::Strict }
}

fn build_struct_type_segment() -> (g: Grammar)
    ensures
        g@ =~~= struct_type_segment_grammar(),
{
    let g1: Vec<Grammar> = vec![Grammar::keyword("STRUCT"), Grammar::optional_reference("StructTypeSchemaSegment")];
    assert(views(g1@) =~~= seq![GrammarView::Keyword { word: "STRUCT"@ }, GrammarView::Ref { name: "StructTypeSchemaSegment"@, optional: true }]);
    let g2: Vec<Grammar> = Vec::new();
    assert(views(g2@) =~= Seq::<GrammarView>::empty());
    let g3 = Grammar::sequence_with(g1, g2, ParseMode::Strict);
    g3
}

/// The Athena element `MapTypeSegment`.
pub open spec fn map_type_segment_element() -> ElementView {
    ElementView::Node { kind: "map_type"@, grammar: GrammarView::Sequence { elements: seq![GrammarView::Keyword { word: "MAP"@ }, GrammarView::Ref { name: "MapTypeSchemaSegment"@, optional: true }], terminators: seq![], parse_mode: ParseMode::Strict } }
}

fn build_map_type_segment() -> (e: Element)
    ensures
        e@ =~~= map_type_segment_element(),
{
    let g1: Vec<Grammar> = vec![Grammar::keyword("MAP"), Grammar::optional_reference("MapTypeSchemaSegment")];
    assert(views(g1@) =~~= seq![GrammarView::Keyword { word: "MAP"@ }, GrammarView::Ref { name: "MapTypeSchemaSegment"@, optional: true }]);
    let g2: Vec<Grammar> = Vec::new();
    assert(views(g2@) =~= Seq::<GrammarView>::empty());
    let g3 = Grammar::sequence_with(g1, g2, ParseMode::Strict);
    Element::Node { kind: "map_type", grammar: g3 }
}

/// The Athena grammar of `StatementSegment`.
pub open spec fn statement_segment_grammar() -> GrammarView {
    (GrammarView::OneOf { elements: seq![GrammarView::Ref { name: "SelectableGrammar"@, optional: false }, GrammarView::Ref { name: "MergeStatementSegment"@, optional: false }, GrammarView::Ref { name: "InsertStatementSegment"@, optional: false }, GrammarView::Ref { name: "TransactionStatementSegment"@, optional: false }, GrammarView::Ref { name: "DropTableStatementSegment"@, optional: false }, GrammarView::Ref { name: "DropViewStatementSegment"@, optional: false }, GrammarView::Ref { name: "CreateUserStatementSegment"@, optional: false }, GrammarView::Ref { name: "DropUserStatementSegment"@, optional: false }, GrammarView::Ref { name: "TruncateStatementSegment"@, optional: false }, GrammarView::Ref { name: "AccessStatementSegment"@, optional: false }, GrammarView::Ref { name: "CreateTableStatementSegment"@, optional: false }, GrammarView::Ref { name: "CreateRoleStatementSegment"@, optional: false }, GrammarView::Ref { name: "DropRoleStatementSegment"@, optional: false }, GrammarView::Ref { name: "AlterTableStatementSegment"@, optional: false }, GrammarView::Ref { name: "CreateSchemaStatementSegment"@, optional: false }, GrammarView::Ref { name: "SetSchemaStatementSegment"@, optional: false }, GrammarView::Ref { name: "DropSchemaStatementSegment"@, optional: false }, GrammarView::Ref { name: "DropTypeStatementSegment"@, optional: false }, GrammarView::Ref { name: "CreateDatabaseStatementSegment"@, optional: false }, GrammarView::Ref { name: "DropDatabaseStatementSegment"@, optional: false }, GrammarView::Ref { name: "CreateIndexStatementSegment"@, optional: false }, GrammarView::Ref { name: "DropIndexStatementSegment"@, optional: false }, GrammarView::Ref { name: "CreateViewStatementSegment"@, optional: false }, GrammarView::Ref { name: "DeleteStatementSegment"@, optional: false }, GrammarView::Ref { name: "UpdateStatementSegment"@, optional: false }, GrammarView::Ref { name: "CreateCastStatementSegment"@, optional: false }, GrammarView::Ref { name: "DropCastStatementSegment"@, optional: false }, GrammarView::Ref { name: "CreateFunctionStatementSegment"@, optional: false }, GrammarView::Ref { name: "DropFunctionStatementSegment"@, optional: false }, GrammarView::Ref { name: "CreateModelStatementSegment"@, optional: false }, GrammarView::Ref { name: "DropModelStatementSegment"@, optional: false }, GrammarView::Ref { name: "DescribeStatementSegment"@, optional: false }, GrammarView::Ref { name: "UseStatementSegment"@, optional: false }, GrammarView::Ref { name: "ExplainStatementSegment"@, optional: false }, GrammarView::Ref { name: "CreateSequenceStatementSegment"@, optional: false }, GrammarView::Ref { name: "AlterSequenceStatementSegment"@, optional: false }, GrammarView::Ref { name: "DropSequenceStatementSegment"@, optional: false }, GrammarView::Ref { name: "CreateTriggerStatementSegment"@, optional: false }, GrammarView::Ref { name: "DropTriggerStatementSegment"@, optional: false }], terminators: seq![GrammarView::Ref { name: "DelimiterGrammar"@, optional: false }] }).copied(Some(seq![GrammarView::Ref { name: "MsckRepairTableStatementSegment"@, optional: false }, GrammarView::Ref { name: "UnloadStatementSegment"@, optional: false }, GrammarView::Ref { name: "PrepareStatementSegment"@, optional: false }, GrammarView::Ref { name: "ExecuteStatementSegment"@, optional: false }, GrammarView::Ref { name: "ShowStatementSegment"@, optional: false }]), None, None, Some(seq![GrammarView::Ref { name: "TransactionStatementSegment"@, optional: false }, GrammarView::Ref { name: "CreateSchemaStatementSegment"@, optional: false }, GrammarView::Ref { name: "SetSchemaStatementSegment"@, optional: false }, GrammarView::Ref { name: "CreateModelStatementSegment"@, optional: false }, GrammarView::Ref { name: "DropModelStatementSegment"@, optional: false }]), seq![], false)
}

fn build_statement_segment() -> (g: Grammar)
    ensures
        g@ =~~= statement_segment_grammar(),
{
    let g1: Vec<Grammar> = vec![Grammar::reference("SelectableGrammar"), Grammar::reference("MergeStatementSegment"), Grammar::reference("InsertStatementSegment"), Grammar::reference("TransactionStatementSegment"), Grammar::reference("DropTableStatementSegment"), Grammar::reference("DropViewStatementSegment"), Grammar::reference("CreateUserStatementSegment"), Grammar::reference("DropUserStatementSegment"), Grammar::reference("TruncateStatementSegment"), Grammar::reference("AccessStatementSegment"), Grammar::reference("CreateTableStatementSegment"), Grammar::reference("CreateRoleStatementSegment"), Grammar::reference("DropRoleStatementSegment"), Grammar::reference("AlterTableStatementSegment"), Grammar::reference("CreateSchemaStatementSegment"), Grammar::reference("SetSchemaStatementSegment"), Grammar::reference("DropSchemaStatementSegment"), Grammar::reference("DropTypeStatementSegment"), Grammar::reference("CreateDatabaseStatementSegment"), Grammar::reference("DropDatabaseStatementSegment"), Grammar::reference("CreateIndexStatementSegment"), Grammar::reference("DropIndexStatementSegment"), Grammar::reference("CreateViewStatementSegment"), Grammar::reference("DeleteStatementSegment"), Grammar::reference("UpdateStatementSegment"), Grammar::reference("CreateCastStatementSegment"), Grammar::reference("DropCastStatementSegment"), Grammar::reference("CreateFunctionStatementSegment"), Grammar::reference("DropFunctionStatementSegment"), Grammar::reference("CreateModelStatementSegment"), Grammar::reference("DropModelStatementSegment"), Grammar::reference("DescribeStatementSegment"), Grammar::reference("UseStatementSegment"), Grammar::reference("ExplainStatementSegment"), Grammar::reference("CreateSequenceStatementSegment"), Grammar::reference("AlterSequenceStatementSegment"), Grammar::reference("DropSequenceStatementSegment"), Grammar::reference("CreateTriggerStatementSegment"), Grammar::reference("DropTriggerStatementSegment")];
    assert(views(g1@) =~~= seq![GrammarView::Ref { name: "SelectableGrammar"@, optional: false }, GrammarView::Ref { name: "MergeStatementSegment"@, optional: false }, GrammarView::Ref { name: "InsertStatementSegment"@, optional: false }, GrammarView::Ref { name: "TransactionStatementSegment"@, optional: false }, GrammarView::Ref { name: "DropTableStatementSegment"@, optional: false }, GrammarView::Ref { name: "DropViewStatementSegment"@, optional: false }, GrammarView::Ref { name: "CreateUserStatementSegment"@, optional: false }, GrammarView::Ref { name: "DropUserStatementSegment"@, optional: false }, GrammarView::Ref { name: "TruncateStatementSegment"@, optional: false }, GrammarView::Ref { name: "AccessStatementSegment"@, optional: false }, GrammarView::Ref { name: "CreateTableStatementSegment"@, optional: false }, GrammarView::Ref { name: "CreateRoleStatementSegment"@, optional: false }, GrammarView::Ref { name: "DropRoleStatementSegment"@, optional: false }, GrammarView::Ref { name: "AlterTableStatementSegment"@, optional: false }, GrammarView::Ref { name: "CreateSchemaStatementSegment"@, optional: false }, GrammarView::Ref { name: "SetSchemaStatementSegment"@, optional: false }, GrammarView::Ref { name: "DropSchemaStatementSegment"@, optional: false }, GrammarView::Ref { name: "DropTypeStatementSegment"@, optional: false }, GrammarView::Ref { name: "CreateDatabaseStatementSegment"@, optional: false }, GrammarView::Ref { name: "DropDatabaseStatementSegment"@, optional: false }, GrammarView::Ref { name: "CreateIndexStatementSegment"@, optional: false }, GrammarView::Ref { name: "DropIndexStatementSegment"@, optional: false }, GrammarView::Ref { name: "CreateViewStatementSegment"@, optional: false }, GrammarView::Ref { name: "DeleteStatementSegment"@, optional: false }, GrammarView::Ref { name: "UpdateStatementSegment"@, optional: false }, GrammarView::Ref { name: "CreateCastStatementSegment"@, optional: false }, GrammarView::Ref { name: "DropCastStatementSegment"@, optional: false }, GrammarView::Ref { name: "CreateFunctionStatementSegment"@, optional: false }, GrammarView::Ref { name: "DropFunctionStatementSegment"@, optional: false }, GrammarView::Ref { name: "CreateModelStatementSegment"@, optional: false }, GrammarView::Ref { name: "DropModelStatementSegment"@, optional: false }, GrammarView::Ref { name: "DescribeStatementSegment"@, optional: false }, GrammarView::Ref { name: "UseStatementSegment"@, optional: false }, GrammarView::Ref { name: "ExplainStatementSegment"@, optional: false }, GrammarView::Ref { name: "CreateSequenceStatementSegment"@, optional: false }, GrammarView::Ref { name: "AlterSequenceStatementSegment"@, optional: false }, GrammarView::Ref { name: "DropSequenceStatementSegment"@, optional: false }, GrammarView::Ref { name: "CreateTriggerStatementSegment"@, optional: false }, GrammarView::Ref { name: "DropTriggerStatementSegment"@, optional: false }]);
    let g2: Vec<Grammar> = vec![Grammar::reference("DelimiterGrammar")];
    assert(views(g2@) =~~= seq![GrammarView::Ref { name: "DelimiterGrammar"@, optional: false }]);
    let g3 = Grammar::one_of_with(g1, g2);
    let g4 = g3;
    assert(g4@ =~~= GrammarView::OneOf { elements: seq![GrammarView::Ref { name: "SelectableGrammar"@, optional: false }, GrammarView::Ref { name: "MergeStatementSegment"@, optional: false }, GrammarView::Ref { name: "InsertStatementSegment"@, optional: false }, GrammarView::Ref { name: "TransactionStatementSegment"@, optional: false }, GrammarView::Ref { name: "DropTableStatementSegment"@, optional: false }, GrammarView::Ref { name: "DropViewStatementSegment"@, optional: false }, GrammarView::Ref { name: "CreateUserStatementSegment"@, optional: false }, GrammarView::Ref { name: "DropUserStatementSegment"@, optional: false }, GrammarView::Ref { name: "TruncateStatementSegment"@, optional: false }, GrammarView::Ref { name: "AccessStatementSegment"@, optional: false }, GrammarView::Ref { name: "CreateTableStatementSegment"@, optional: false }, GrammarView::Ref { name: "CreateRoleStatementSegment"@, optional: false }, GrammarView::Ref { name: "DropRoleStatementSegment"@, optional: false }, GrammarView::Ref { name: "AlterTableStatementSegment"@, optional: false }, GrammarView::Ref { name: "CreateSchemaStatementSegment"@, optional: false }, GrammarView::Ref { name: "SetSchemaStatementSegment"@, optional: false }, GrammarView::Ref { name: "DropSchemaStatementSegment"@, optional: false }, GrammarView::Ref { name: "DropTypeStatementSegment"@, optional: false }, GrammarView::Ref { name: "CreateDatabaseStatementSegment"@, optional: false }, GrammarView::Ref { name: "DropDatabaseStatementSegment"@, optional: false }, GrammarView::Ref { name: "CreateIndexStatementSegment"@, optional: false }, GrammarView::Ref { name: "DropIndexStatementSegment"@, optional: false }, GrammarView::Ref { name: "CreateViewStatementSegment"@, optional: false }, GrammarView::Ref { name: "DeleteStatementSegment"@, optional: false }, GrammarView::Ref { name: "UpdateStatementSegment"@, optional: false }, GrammarView::Ref { name: "CreateCastStatementSegment"@, optional: false }, GrammarView::Ref { name: "DropCastStatementSegment"@, optional: false }, GrammarView::Ref { name: "CreateFunctionStatementSegment"@, optional: false }, GrammarView::Ref { name: "DropFunctionStatementSegment"@, optional: false }, GrammarView::Ref { name: "CreateModelStatementSegment"@, optional: false }, GrammarView::Ref { name: "DropModelStatementSegment"@, optional: false }, GrammarView::Ref { name: "DescribeStatementSegment"@, optional: false }, GrammarView::Ref { name: "UseStatementSegment"@, optional: false }, GrammarView::Ref { name: "ExplainStatementSegment"@, optional: false }, GrammarView::Ref { name: "CreateSequenceStatementSegment"@, optional: false }, GrammarView::Ref { name: "AlterSequenceStatementSegment"@, optional: false }, GrammarView::Ref { name: "DropSequenceStatementSegment"@, optional: false }, GrammarView::Ref { name: "CreateTriggerStatementSegment"@, optional: false }, GrammarView::Ref { name: "DropTriggerStatementSegment"@, optional: false }], terminators: seq![GrammarView::Ref { name: "DelimiterGrammar"@, optional: false }] });
    let g5: Vec<Grammar> = vec![Grammar::reference("MsckRepairTableStatementSegment"), Grammar::reference("UnloadStatementSegment"), Grammar::reference("PrepareStatementSegment"), Grammar::reference("ExecuteStatementSegment"), Grammar::reference("ShowStatementSegment")];
    assert(views(g5@) =~~= seq![GrammarView::Ref { name: "MsckRepairTableStatementSegment"@, optional: false }, GrammarView::Ref { name: "UnloadStatementSegment"@, optional: false }, GrammarView::Ref { name: "PrepareStatementSegment"@, optional: false }, GrammarView::Ref { name: "ExecuteStatementSegment"@, optional: false }, GrammarView::Ref { name: "ShowStatementSegment"@, optional: false }]);
    let g6: Vec<Grammar> = vec![Grammar::reference("TransactionStatementSegment"), Grammar::reference("CreateSchemaStatementSegment"), Grammar::reference("SetSchemaStatementSegment"), Grammar::reference("CreateModelStatementSegment"), Grammar::reference("DropModelStatementSegment")];
    assert(views(g6@) =~~= seq![GrammarView::Ref { name: "TransactionStatementSegment"@, optional: false }, GrammarView::Ref { name: "CreateSchemaStatementSegment"@, optional: false }, GrammarView::Ref { name: "SetSchemaStatementSegment"@, optional: false }, GrammarView::Ref { name: "CreateModelStatementSegment"@, optional: false }, GrammarView::Ref { name: "DropModelStatementSegment"@, optional: false }]);
    let g7: Vec<Grammar> = Vec::new();
    assert(views(g7@) =~= Seq::<GrammarView>::empty());
    let g8 = g4.copy(Some(g5), None, None, Some(&g6), g7, false);
    g8
}

/// The Athena element `PrimitiveTypeSegment`.
pub open spec fn primitive_type_segment_element() -> ElementView {
    ElementView::Node { kind: "primitive_type"@, grammar: GrammarView::OneOf { elements: seq![GrammarView::Keyword { word: "BOOLEAN"@ }, GrammarView::Keyword { word: "TINYINT"@ }, GrammarView::Keyword { word: "SMALLINT"@ }, GrammarView::Keyword { word: "INTEGER"@ }, GrammarView::Keyword { word: "INT"@ }, GrammarView::Keyword { word: "BIGINT"@ }, GrammarView::Keyword { word: "DOUBLE"@ }, GrammarView::Keyword { word: "FLOAT"@ }, GrammarView::Keyword { word: "REAL"@ }, GrammarView::Sequence { elements: seq![GrammarView::OneOf { elements: seq![GrammarView::Keyword { word: "DECIMAL"@ }, GrammarView::Keyword { word: "CHAR"@ }, GrammarView::Keyword { word: "VARCHAR"@ }], terminators: seq![] }, GrammarView::Ref { name: "BracketedArguments"@, optional: true }], terminators: seq![], parse_mode: ParseMode::Strict }, GrammarView::Keyword { word: "STRING"@ }, GrammarView::Keyword { word: "BINARY"@ }, GrammarView::Keyword { word: "DATE"@ }, GrammarView::Keyword { word: "TIMESTAMP"@ }, GrammarView::Keyword { word: "VARBINARY"@ }, GrammarView::Keyword { word: "JSON"@ }, GrammarView::Keyword { word: "TIME"@ }, GrammarView::Keyword { word: "IPADDRESS"@ }, GrammarView::Keyword { word: "HYPERLOGLOG"@ }, GrammarView::Keyword { word: "P4HYPERLOGLOG"@ }], terminators: seq![] } }
}

fn build_primitive_type_segment() -> (e: Element)
    ensures
        e@ =~~= primitive_type_segment_element(),
{
    let g1: Vec<Grammar> = vec![Grammar::keyword("DECIMAL"), Grammar::keyword("CHAR"), Grammar::keyword("VARCHAR")];
    assert(views(g1@) =~~= seq![GrammarView::Keyword { word: "DECIMAL"@ }, GrammarView::Keyword { word: "CHAR"@ }, GrammarView::Keyword { word: "VARCHAR"@ }]);
    let g2: Vec<Grammar> = Vec::new();
    assert(views(g2@) =~= Seq::<GrammarView>::empty());
    let g3 = Grammar::one_of_with(g1, g2);
    let g4: Vec<Grammar> = vec![g3, Grammar::optional_reference("BracketedArguments")];
    assert(views(g4@) =~~= seq![GrammarView::OneOf { elements: seq![GrammarView::Keyword { word: "DECIMAL"@ }, GrammarView::Keyword { word: "CHAR"@ }, GrammarView::Keyword { word: "VARCHAR"@ }], terminators: seq![] }, GrammarView::Ref { name: "BracketedArguments"@, optional: true }]);
    let g5: Vec<Grammar> = Vec::new();
    assert(views(g5@) =~= Seq::<GrammarView>::empty());
    let g6 = Grammar::sequence_with(g4, g5, ParseMode::Strict);
    let g7: Vec<Grammar> = vec![Grammar::keyword("BOOLEAN"), Grammar::keyword("TINYINT"), Grammar::keyword("SMALLINT"), Grammar::keyword("INTEGER"), Grammar::keyword("INT"), Grammar::keyword("BIGINT"), Grammar::keyword("DOUBLE"), Grammar::keyword("FLOAT"), Grammar::keyword("REAL"), g6, Grammar::keyword("STRING"), Grammar::keyword("BINARY"), Grammar::keyword("DATE"), Grammar::keyword("TIMESTAMP"), Grammar::keyword("VARBINARY"), Grammar::keyword("JSON"), Grammar::keyword("TIME"), Grammar::keyword("IPADDRESS"), Grammar::keyword("HYPERLOGLOG"), Grammar::keyword("P4HYPERLOGLOG")];
    assert(views(g7@) =~~= seq![GrammarView::Keyword { word: "BOOLEAN"@ }, GrammarView::Keyword { word: "TINYINT"@ }, GrammarView::Keyword { word: "SMALLINT"@ }, GrammarView::Keyword { word: "INTEGER"@ }, GrammarView::Keyword { word: "INT"@ }, GrammarView::Keyword { word: "BIGINT"@ }, GrammarView::Keyword { word: "DOUBLE"@ }, GrammarView::Keyword { word: "FLOAT"@ }, GrammarView::Keyword { word: "REAL"@ }, GrammarView::Sequence { elements: seq![GrammarView::OneOf { elements: seq![GrammarView::Keyword { word: "DECIMAL"@ }, GrammarView::Keyword { word: "CHAR"@ }, GrammarView::Keyword { word: "VARCHAR"@ }], terminators: seq![] }, GrammarView::Ref { name: "BracketedArguments"@, optional: true }], terminators: seq![], parse_mode: ParseMode::Strict }, GrammarView::Keyword { word: "STRING"@ }, GrammarView::Keyword { word: "BINARY"@ }, GrammarView::Keyword { word: "DATE"@ }, GrammarView::Keyword { word: "TIMESTAMP"@ }, GrammarView::Keyword { word: "VARBINARY"@ }, GrammarView::Keyword { word: "JSON"@ }, GrammarView::Keyword { word: "TIME"@ }, GrammarView::Keyword { word: "IPADDRESS"@ }, GrammarView::Keyword { word: "HYPERLOGLOG"@ }, GrammarView::Keyword { word: "P4HYPERLOGLOG"@ }]);
    let g8: Vec<Grammar> = Vec::new();
    assert(views(g8@) =~= Seq::<GrammarView>::empty());
    let g9 = Grammar::one_of_with(g7, g8);
    Element::Node { kind: "primitive_type", grammar: g9 }
}

/// The Athena element `DatatypeSegment`.
pub open spec fn datatype_segment_element() -> ElementView {
    ElementView::Node { kind: "data_type"@, grammar: GrammarView::OneOf { elements: seq![GrammarView::Ref { name: "PrimitiveTypeSegment"@, optional: false }, GrammarView::Ref { name: "StructTypeSegment"@, optional: false }, GrammarView::Ref { name: "ArrayTypeSegment"@, optional: false }, GrammarView::Ref { name: "MapTypeSegment"@, optional: false }, GrammarView::Sequence { elements: seq![GrammarView::Keyword { word: "ROW"@ }, GrammarView::Bracketed { elements: seq![GrammarView::Delimited { elements: seq![GrammarView::AnyNumberOf { elements: seq![GrammarView::Sequence { elements: seq![GrammarView::Ref { name: "NakedIdentifierSegment"@, optional: false }, GrammarView::Ref { name: "DatatypeSegment"@, optional: false }], terminators: seq![], parse_mode: ParseMode::Strict }, GrammarView::Ref { name: "LiteralGrammar"@, optional: false }], terminators: seq![], min_times: 0, max_times: None }], allow_trailing: false, delimiter: None, terminators: seq![], allow_gaps: true }], bracket_type: "round"@ }], terminators: seq![], parse_mode: ParseMode::Strict }, GrammarView::Ref { name: "TimeWithTZGrammar"@, optional: false }], terminators: seq![] } }
}

fn build_datatype_segment() -> (e: Element)
    ensures
        e@ =~~= datatype_segment_element(),
{
    let g1: Vec<Grammar> = vec![Grammar::reference("NakedIdentifierSegment"), Grammar::reference("DatatypeSegment")];
    assert(views(g1@) =~~= seq![GrammarView::Ref { name: "NakedIdentifierSegment"@, optional: false }, GrammarView::Ref { name: "DatatypeSegment"@, optional: false }]);
    let g2: Vec<Grammar> = Vec::new();
    assert(views(g2@) =~= Seq::<GrammarView>::empty());
    let g3 = Grammar::sequence_with(g1, g2, ParseMode::Strict);
    let g4: Vec<Grammar> = vec![g3, Grammar::reference("LiteralGrammar")];
    assert(views(g4@) =~~= seq![GrammarView::Sequence { elements: seq![GrammarView::Ref { name: "NakedIdentifierSegment"@, optional: false }, GrammarView::Ref { name: "DatatypeSegment"@, optional: false }], terminators: seq![], parse_mode: ParseMode::Strict }, GrammarView::Ref { name: "LiteralGrammar"@, optional: false }]);
    let g5: Vec<Grammar> = Vec::new();
    assert(views(g5@) =~= Seq::<GrammarView>::empty());
    let g6 = Grammar::any_number_of_with(g4, g5, 0, None);
    let g7: Vec<Grammar> = vec![g6];
    assert(views(g7@) =~~= seq![GrammarView::AnyNumberOf { elements: seq![GrammarView::Sequence { elements: seq![GrammarView::Ref { name: "NakedIdentifierSegment"@, optional: false }, GrammarView::Ref { name: "DatatypeSegment"@, optional: false }], terminators: seq![], parse_mode: ParseMode::Strict }, GrammarView::Ref { name: "LiteralGrammar"@, optional: false }], terminators: seq![], min_times: 0, max_times: None }]);
    let g8: Vec<Grammar> = Vec::new();
    assert(views(g8@) =~= Seq::<GrammarView>::empty());
    let g9 = Grammar::delimited_with(g7, false, None, g8, true);
    let g10: Vec<Grammar> = vec![g9];
    assert(views(g10@) =~~= seq![GrammarView::Delimited { elements: seq![GrammarView::AnyNumberOf { elements: seq![GrammarView::Sequence { elements: seq![GrammarView::Ref { name: "NakedIdentifierSegment"@, optional: false }, GrammarView::Ref { name: "DatatypeSegment"@, optional: false }], terminators: seq![], parse_mode: ParseMode::Strict }, GrammarView::Ref { name: "LiteralGrammar"@, optional: false }], terminators: seq![], min_times: 0, max_times: None }], allow_trailing: false, delimiter: None, terminators: seq![], allow_gaps: true }]);
    let g11 = Grammar::bracketed_with(g10, "round");
    let g12: Vec<Grammar> = vec![Grammar::keyword("ROW"), g11];
    assert(views(g12@) =~~= seq![GrammarView::Keyword { word: "ROW"@ }, GrammarView::Bracketed { elements: seq![GrammarView::Delimited { elements: seq![GrammarView::AnyNumberOf { elements: seq![GrammarView::Sequence { elements: seq![GrammarView::Ref { name: "NakedIdentifierSegment"@, optional: false }, GrammarView::Ref { name: "DatatypeSegment"@, optional: false }], terminators: seq![], parse_mode: ParseMode::Strict }, GrammarView::Ref { name: "LiteralGrammar"@, optional: false }], terminators: seq![], min_times: 0, max_times: None }], allow_trailing: false, delimiter: None, terminators: seq![], allow_gaps: true }], bracket_type: "round"@ }]);
    let g13: Vec<Grammar> = Vec::new();
    assert(views(g13@) =~= Seq::<GrammarView>::empty());
    let g14 = Grammar::sequence_with(g12, g13, ParseMode::Strict);
    let g15: Vec<Grammar> = vec![Grammar::reference("PrimitiveTypeSegment"), Grammar::reference("StructTypeSegment"), Grammar::reference("ArrayTypeSegment"), Grammar::reference("MapTypeSegment"), g14, Grammar::reference("TimeWithTZGrammar")];
    assert(views(g15@) =~~= seq![GrammarView::Ref { name: "PrimitiveTypeSegment"@, optional: false }, GrammarView::Ref { name: "StructTypeSegment"@, optional: false }, GrammarView::Ref { name: "ArrayTypeSegment"@, optional: false }, GrammarView::Ref { name: "MapTypeSegment"@, optional: false }, GrammarView::Sequence { elements: seq![GrammarView::Keyword { word: "ROW"@ }, GrammarView::Bracketed { elements: seq![GrammarView::Delimited { elements: seq![GrammarView::AnyNumberOf { elements: seq![GrammarView::Sequence { elements: seq![GrammarView::Ref { name: "NakedIdentifierSegment"@, optional: false }, GrammarView::Ref { name: "DatatypeSegment"@, optional: false }], terminators: seq![], parse_mode: ParseMode::Strict }, GrammarView::Ref { name: "LiteralGrammar"@, optional: false }], terminators: seq![], min_times: 0, max_times: None }], allow_trailing: false, delimiter: None, terminators: seq![], allow_gaps: true }], bracket_type: "round"@ }], terminators: seq![], parse_mode: ParseMode::Strict }, GrammarView::Ref { name: "TimeWithTZGrammar"@, optional: false }]);
    let g16: Vec<Grammar> = Vec::new();
    assert(views(g16@) =~= Seq::<GrammarView>::empty());
    let g17 = Grammar::one_of_with(g15, g16);
    Element::Node { kind: "data_type", grammar: g17 }
}

/// The Athena grammar of `GroupByClauseSegment`.
pub open spec fn group_by_clause_segment_grammar() -> GrammarView {
    GrammarView::Sequence { elements: seq![GrammarView::Keyword { word: "GROUP"@ }, GrammarView::Keyword { word: "BY"@ }, GrammarView::Indent, GrammarView::Delimited { elements: seq![GrammarView::OneOf { elements: seq![GrammarView::Ref { name: "CubeRollupClauseSegment"@, optional: false }, GrammarView::Ref { name: "GroupingSetsClauseSegment"@, optional: false }, GrammarView::Ref { name: "ColumnReferenceSegment"@, optional: false }, GrammarView::Ref { name: "NumericLiteralSegment"@, optional: false }, GrammarView::Ref { name: "ExpressionSegment"@, optional: false }], terminators: seq![] }], allow_trailing: false, delimiter: None, terminators: seq![], allow_gaps: true }, GrammarView::Dedent], terminators: seq![], parse_mode: ParseMode::Strict }
}

fn build_group_by_clause_segment() -> (g: Grammar)
    ensures
        g@ =~~= group_by_clause_segment_grammar(),
{
    let g1: Vec<Grammar> = vec![Grammar::reference("CubeRollupClauseSegment"), Grammar::reference("GroupingSetsClauseSegment"), Grammar::reference("ColumnReferenceSegment"), Grammar::reference("NumericLiteralSegment"), Grammar::reference("ExpressionSegment")];
    assert(views(g1@) =~~= seq![GrammarView::Ref { name: "CubeRollupClauseSegment"@, optional: false }, GrammarView::Ref { name: "GroupingSetsClauseSegment"@, optional: false }, GrammarView::Ref { name: "ColumnReferenceSegment"@, optional: false }, GrammarView::Ref { name: "NumericLiteralSegment"@, optional: false }, GrammarView::Ref { name: "ExpressionSegment"@, optional: false }]);
    let g2: Vec<Grammar> = Vec::new();
    assert(views(g2@) =~= Seq::<GrammarView>::empty());
    let g3 = Grammar::one_of_with(g1, g2);
    let g4: Vec<Grammar> = vec![g3];
    assert(views(g4@) =~~= seq![GrammarView::OneOf { elements: seq![GrammarView::Ref { name: "CubeRollupClauseSegment"@, optional: false }, GrammarView::Ref { name: "GroupingSetsClauseSegment"@, optional: false }, GrammarView::Ref { name: "ColumnReferenceSegment"@, optional: false }, GrammarView::Ref { name: "NumericLiteralSegment"@, optional: false }, GrammarView::Ref { name: "ExpressionSegment"@, optional: false }], terminators: seq![] }]);
    let g5: Vec<Grammar> = Vec::new();
    assert(views(g5@) =~= Seq::<GrammarView>::empty());
    let g6 = Grammar::delimited_with(g4, false, None, g5, true);
    let g7: Vec<Grammar> = vec![Grammar::keyword("GROUP"), Grammar::keyword("BY"), Grammar::indent(), g6, Grammar::dedent()];
    assert(views(g7@) =~~= seq![GrammarView::Keyword { word: "GROUP"@ }, GrammarView::Keyword { word: "BY"@ }, GrammarView::Indent, GrammarView::Delimited { elements: seq![GrammarView::OneOf { elements: seq![GrammarView::Ref { name: "CubeRollupClauseSegment"@, optional: false }, GrammarView::Ref { name: "GroupingSetsClauseSegment"@, optional: false }, GrammarView::Ref { name: "ColumnReferenceSegment"@, optional: false }, GrammarView::Ref { name: "NumericLiteralSegment"@, optional: false }, GrammarView::Ref { name: "ExpressionSegment"@, optional: false }], terminators: seq![] }], allow_trailing: false, delimiter: None, terminators: seq![], allow_gaps: true }, GrammarView::Dedent]);
    let g8: Vec<Grammar> = Vec::new();
    assert(views(g8@) =~= Seq::<GrammarView>::empty());
    let g9 = Grammar::sequence_with(g7, g8, ParseMode::Strict);
    g9
}

/// The Athena element `CreateTableStatementSegment`.
pub open spec fn create_table_statement_segment_element() -> ElementView {
    ElementView::Node { kind: "create_table_statement"@, grammar: GrammarView::Sequence { elements: seq![GrammarView::Keyword { word: "CREATE"@ }, GrammarView::Optional { grammar: Box::new(GrammarView::Keyword { word: "EXTERNAL"@ }) }, GrammarView::Keyword { word: "TABLE"@ }, GrammarView::Ref { name: "IfNotExistsGrammar"@, optional: true }, GrammarView::Ref { name: "TableReferenceSegment"@, optional: false }, GrammarView::OneOf { elements: seq![GrammarView::Sequence { elements: seq![GrammarView::Optional { grammar: Box::new(GrammarView::Bracketed { elements: seq![GrammarView::Delimited { elements: seq![GrammarView::OneOf { elements: seq![GrammarView::Ref { name: "TableConstraintSegment"@, optional: true }, GrammarView::Sequence { elements: seq![GrammarView::Ref { name: "ColumnDefinitionSegment"@, optional: false }, GrammarView::Ref { name: "CommentGrammar"@, optional: true }], terminators: seq![], parse_mode: ParseMode::Strict }], terminators: seq![] }], allow_trailing: false, delimiter: None, terminators: seq![], allow_gaps: true }], bracket_type: "round"@ }) }, GrammarView::Ref { name: "CommentGrammar"@, optional: true }, GrammarView::Ref { name: "StoredAsGrammar"@, optional: true }, GrammarView::Optional { grammar: Box::new(GrammarView::Sequence { elements: seq![GrammarView::Keyword { word: "PARTITIONED"@ }, GrammarView::Keyword { word: "BY"@ }, GrammarView::Bracketed { elements: seq![GrammarView::Delimited { elements: seq![GrammarView::Sequence { elements: seq![GrammarView::OneOf { elements: seq![GrammarView::Ref { name: "ColumnDefinitionSegment"@, optional: false }, GrammarView::Ref { name: "SingleIdentifierGrammar"@, optional: false }, GrammarView::Ref { name: "FunctionSegment"@, optional: false }], terminators: seq![] }, GrammarView::Ref { name: "CommentGrammar"@, optional: true }], terminators: seq![], parse_mode: ParseMode::Strict }], allow_trailing: false, delimiter: None, terminators: seq![], allow_gaps: true }], bracket_type: "round"@ }], terminators: seq![], parse_mode: ParseMode::Strict }) }, GrammarView::Optional { grammar: Box::new(GrammarView::Sequence { elements: seq![GrammarView::Keyword { word: "CLUSTERED"@ }, GrammarView::Keyword { word: "BY"@ }, GrammarView::Ref { name: "BracketedColumnReferenceListGrammar"@, optional: false }, GrammarView::Keyword { word: "INTO"@ }, GrammarView::Ref { name: "NumericLiteralSegment"@, optional: false }, GrammarView::Keyword { word: "BUCKETS"@ }], terminators: seq![], parse_mode: ParseMode::Strict }) }, GrammarView::Ref { name: "StoredAsGrammar"@, optional: true }, GrammarView::Ref { name: "StorageFormatGrammar"@, optional: true }, GrammarView::Ref { name: "LocationGrammar"@, optional: true }, GrammarView::Ref { name: "TablePropertiesGrammar"@, optional: true }, GrammarView::Ref { name: "CommentGrammar"@, optional: true }], terminators: seq![], parse_mode: ParseMode::Strict }, GrammarView::Sequence { elements: seq![GrammarView::Optional { grammar: Box::new(GrammarView::Sequence { elements: seq![GrammarView::Keyword { word: "WITH"@ }, GrammarView::Ref { name: "BracketedCTASPropertyGrammar"@, optional: false }], terminators: seq![], parse_mode: ParseMode::Strict }) }, GrammarView::Keyword { word: "AS"@ }, GrammarView::OneOf { elements: seq![GrammarView::Bracketed { elements: seq![GrammarView::Ref { name: "SelectableGrammar"@, optional: false }], bracket_type: "round"@ }, GrammarView::Ref { name: "SelectableGrammar"@, optional: false }], terminators: seq![] }, GrammarView::Optional { grammar: Box::new(GrammarView::Sequence { elements: seq![GrammarView::Keyword { word: "WITH"@ }, GrammarView::Keyword { word: "NO"@ }, GrammarView::Keyword { word: "DATA"@ }], terminators: seq![], parse_mode: ParseMode::Strict }) }], terminators: seq![], parse_mode: ParseMode::Strict }], terminators: seq![] }], terminators: seq![], parse_mode: ParseMode::Strict } }
}

#[verifier::rlimit(100)]
fn build_create_table_statement_segment() -> (e: Element)
    ensures
        e@ =~~= create_table_statement_segment_element(),
{
    let g1 = Grammar::keyword("EXTERNAL").optional();
    let g2: Vec<Grammar> = vec![Grammar::reference("ColumnDefinitionSegment"), Grammar::optional_reference("CommentGrammar")];
    assert(views(g2@) =~~= seq![GrammarView::Ref { name: "ColumnDefinitionSegment"@, optional: false }, GrammarView::Ref { name: "CommentGrammar"@, optional: true }]);
    let g3: Vec<Grammar> = Vec::new();
    assert(views(g3@) =~= Seq::<GrammarView>::empty());
    let g4 = Grammar::sequence_with(g2, g3, ParseMode::Strict);
    let g5: Vec<Grammar> = vec![Grammar::optional_reference("TableConstraintSegment"), g4];
    assert(views(g5@) =~~= seq![GrammarView::Ref { name: "TableConstraintSegment"@, optional: true }, GrammarView::Sequence { elements: seq![GrammarView::Ref { name: "ColumnDefinitionSegment"@, optional: false }, GrammarView::Ref { name: "CommentGrammar"@, optional: true }], terminators: seq![], parse_mode: ParseMode::Strict }]);
    let g6: Vec<Grammar> = Vec::new();
    assert(views(g6@) =~= Seq::<GrammarView>::empty());
    let g7 = Grammar::one_of_with(g5, g6);
    let g8: Vec<Grammar> = vec![g7];
    assert(views(g8@) =~~= seq![GrammarView::OneOf { elements: seq![GrammarView::Ref { name: "TableConstraintSegment"@, optional: true }, GrammarView::Sequence { elements: seq![GrammarView::Ref { name: "ColumnDefinitionSegment"@, optional: false }, GrammarView::Ref { name: "CommentGrammar"@, optional: true }], terminators: seq![], parse_mode: ParseMode::Strict }], terminators: seq![] }]);
    let g9: Vec<Grammar> = Vec::new();
    assert(views(g9@) =~= Seq::<GrammarView>::empty());
    let g10 = Grammar::delimited_with(g8, false, None, g9, true);
    let g11: Vec<Grammar> = vec![g10];
    assert(views(g11@) =~~= seq![GrammarView::Delimited { elements: seq![GrammarView::OneOf { elements: seq![GrammarView::Ref { name: "TableConstraintSegment"@, optional: true }, GrammarView::Sequence { elements: seq![GrammarView::Ref { name: "ColumnDefinitionSegment"@, optional: false }, GrammarView::Ref { name: "CommentGrammar"@, optional: true }], terminators: seq![], parse_mode: ParseMode::Strict }], terminators: seq![] }], allow_trailing: false, delimiter: None, terminators: seq![], allow_gaps: true }]);
    let g12 = Grammar::bracketed_with(g11, "round");
    let g13 = g12.optional();
    let g14: Vec<Grammar> = vec![Grammar::reference("ColumnDefinitionSegment"), Grammar::reference("SingleIdentifierGrammar"), Grammar::reference("FunctionSegment")];
    assert(views(g14@) =~~= seq![GrammarView::Ref { name: "ColumnDefinitionSegment"@, optional: false }, GrammarView::Ref { name: "SingleIdentifierGrammar"@, optional: false }, GrammarView::Ref { name: "FunctionSegment"@, optional: false }]);
    let g15: Vec<Grammar> = Vec::new();
    assert(views(g15@) =~= Seq::<GrammarView>::empty());
    let g16 = Grammar::one_of_with(g14, g15);
    let g17: Vec<Grammar> = vec![g16, Grammar::optional_reference("CommentGrammar")];
    assert(views(g17@) =~~= seq![GrammarView::OneOf { elements: seq![GrammarView::Ref { name: "ColumnDefinitionSegment"@, optional: false }, GrammarView::Ref { name: "SingleIdentifierGrammar"@, optional: false }, GrammarView::Ref { name: "FunctionSegment"@, optional: false }], terminators: seq![] }, GrammarView::Ref { name: "CommentGrammar"@, optional: true }]);
    let g18: Vec<Grammar> = Vec::new();
    assert(views(g18@) =~= Seq::<GrammarView>::empty());
    let g19 = Grammar::sequence_with(g17, g18, ParseMode::Strict);
    let g20: Vec<Grammar> = vec![g19];
    assert(views(g20@) =~~= seq![GrammarView::Sequence { elements: seq![GrammarView::OneOf { elements: seq![GrammarView::Ref { name: "ColumnDefinitionSegment"@, optional: false }, GrammarView::Ref { name: "SingleIdentifierGrammar"@, optional: false }, GrammarView::Ref { name: "FunctionSegment"@, optional: false }], terminators: seq![] }, GrammarView::Ref { name: "CommentGrammar"@, optional: true }], terminators: seq![], parse_mode: ParseMode::Strict }]);
    let g21: Vec<Grammar> = Vec::new();
    assert(views(g21@) =~= Seq::<GrammarView>::empty());
    let g22 = Grammar::delimited_with(g20, false, None, g21, true);
    let g23: Vec<Grammar> = vec![g22];
    assert(views(g23@) =~~= seq![GrammarView::Delimited { elements: seq![GrammarView::Sequence { elements: seq![GrammarView::OneOf { elements: seq![GrammarView::Ref { name: "ColumnDefinitionSegment"@, optional: false }, GrammarView::Ref { name: "SingleIdentifierGrammar"@, optional: false }, GrammarView::Ref { name: "FunctionSegment"@, optional: false }], terminators: seq![] }, GrammarView::Ref { name: "CommentGrammar"@, optional: true }], terminators: seq![], parse_mode: ParseMode::Strict }], allow_trailing: false, delimiter: None, terminators: seq![], allow_gaps: true }]);
    let g24 = Grammar::bracketed_with(g23, "round");
    let g25: Vec<Grammar> = vec![Grammar::keyword("PARTITIONED"), Grammar::keyword("BY"), g24];
    assert(views(g25@) =~~= seq![GrammarView::Keyword { word: "PARTITIONED"@ }, GrammarView::Keyword { word: "BY"@ }, GrammarView::Bracketed { elements: seq![GrammarView::Delimited { elements: seq![GrammarView::Sequence { elements: seq![GrammarView::OneOf { elements: seq![GrammarView::Ref { name: "ColumnDefinitionSegment"@, optional: false }, GrammarView::Ref { name: "SingleIdentifierGrammar"@, optional: false }, GrammarView::Ref { name: "FunctionSegment"@, optional: false }], terminators: seq![] }, GrammarView::Ref { name: "CommentGrammar"@, optional: true }], terminators: seq![], parse_mode: ParseMode::Strict }], allow_trailing: false, delimiter: None, terminators: seq![], allow_gaps: true }], bracket_type: "round"@ }]);
    let g26: Vec<Grammar> = Vec::new();
    assert(views(g26@) =~= Seq::<GrammarView>::empty());
    let g27 = Grammar::sequence_with(g25, g26, ParseMode::Strict);
    let g28 = g27.optional();
    let g29: Vec<Grammar> = vec![Grammar::keyword("CLUSTERED"), Grammar::keyword("BY"), Grammar::reference("BracketedColumnReferenceListGrammar"), Grammar::keyword("INTO"), Grammar::reference("NumericLiteralSegment"), Grammar::keyword("BUCKETS")];
    assert(views(g29@) =~~= seq![GrammarView::Keyword { word: "CLUSTERED"@ }, GrammarView::Keyword { word: "BY"@ }, GrammarView::Ref { name: "BracketedColumnReferenceListGrammar"@, optional: false }, GrammarView::Keyword { word: "INTO"@ }, GrammarView::Ref { name: "NumericLiteralSegment"@, optional: false }, GrammarView::Keyword { word: "BUCKETS"@ }]);
    let g30: Vec<Grammar> = Vec::new();
    assert(views(g30@) =~= Seq::<GrammarView>::empty());
    let g31 = Grammar::sequence_with(g29, g30, ParseMode::Strict);
    let g32 = g31.optional();
    let g33: Vec<Grammar> = vec![g13, Grammar::optional_reference("CommentGrammar"), Grammar::optional_reference("StoredAsGrammar"), g28, g32, Grammar::optional_reference("StoredAsGrammar"), Grammar::optional_reference("StorageFormatGrammar"), Grammar::optional_reference("LocationGrammar"), Grammar::optional_reference("TablePropertiesGrammar"), Grammar::optional_reference("CommentGrammar")];
    assert(views(g33@) =~~= seq![GrammarView::Optional { grammar: Box::new(GrammarView::Bracketed { elements: seq![GrammarView::Delimited { elements: seq![GrammarView::OneOf { elements: seq![GrammarView::Ref { name: "TableConstraintSegment"@, optional: true }, GrammarView::Sequence { elements: seq![GrammarView::Ref { name: "ColumnDefinitionSegment"@, optional: false }, GrammarView::Ref { name: "CommentGrammar"@, optional: true }], terminators: seq![], parse_mode: ParseMode::Strict }], terminators: seq![] }], allow_trailing: false, delimiter: None, terminators: seq![], allow_gaps: true }], bracket_type: "round"@ }) }, GrammarView::Ref { name: "CommentGrammar"@, optional: true }, GrammarView::Ref { name: "StoredAsGrammar"@, optional: true }, GrammarView::Optional { grammar: Box::new(GrammarView::Sequence { elements: seq![GrammarView::Keyword { word: "PARTITIONED"@ }, GrammarView::Keyword { word: "BY"@ }, GrammarView::Bracketed { elements: seq![GrammarView::Delimited { elements: seq![GrammarView::Sequence { elements: seq![GrammarView::OneOf { elements: seq![GrammarView::Ref { name: "ColumnDefinitionSegment"@, optional: false }, GrammarView::Ref { name: "SingleIdentifierGrammar"@, optional: false }, GrammarView::Ref { name: "FunctionSegment"@, optional: false }], terminators: seq![] }, GrammarView::Ref { name: "CommentGrammar"@, optional: true }], terminators: seq![], parse_mode: ParseMode::Strict }], allow_trailing: false, delimiter: None, terminators: seq![], allow_gaps: true }], bracket_type: "round"@ }], terminators: seq![], parse_mode: ParseMode::Strict }) }, GrammarView::Optional { grammar: Box::new(GrammarView::Sequence { elements: seq![GrammarView::Keyword { word: "CLUSTERED"@ }, GrammarView::Keyword { word: "BY"@ }, GrammarView::Ref { name: "BracketedColumnReferenceListGrammar"@, optional: false }, GrammarView::Keyword { word: "INTO"@ }, GrammarView::Ref { name: "NumericLiteralSegment"@, optional: false }, GrammarView::Keyword { word: "BUCKETS"@ }], terminators: seq![], parse_mode: ParseMode::Strict }) }, GrammarView::Ref { name: "StoredAsGrammar"@, optional: true }, GrammarView::Ref { name: "StorageFormatGrammar"@, optional: true }, GrammarView::Ref { name: "LocationGrammar"@, optional: true }, GrammarView::Ref { name: "TablePropertiesGrammar"@, optional: true }, GrammarView::Ref { name: "CommentGrammar"@, optional: true }]);
    let g34: Vec<Grammar> = Vec::new();
    assert(views(g34@) =~= Seq::<GrammarView>::empty());
    let g35 = Grammar::sequence_with(g33, g34, ParseMode::Strict);
    let g36: Vec<Grammar> = vec![Grammar::keyword("WITH"), Grammar::reference("BracketedCTASPropertyGrammar")];
    assert(views(g36@) =~~= seq![GrammarView::Keyword { word: "WITH"@ }, GrammarView::Ref { name: "BracketedCTASPropertyGrammar"@, optional: false }]);
    let g37: Vec<Grammar> = Vec::new();
    assert(views(g37@) =~= Seq::<GrammarView>::empty());
    let g38 = Grammar::sequence_with(g36, g37, ParseMode::Strict);
    let g39 = g38.optional();
    let g40: Vec<Grammar> = vec![Grammar::reference("SelectableGrammar")];
    assert(views(g40@) =~~= seq![GrammarView::Ref { name: "SelectableGrammar"@, optional: false }]);
    let g41 = Grammar::bracketed_with(g40, "round");
    let g42: Vec<Grammar> = vec![g41, Grammar::reference("SelectableGrammar")];
    assert(views(g42@) =~~= seq![GrammarView::Bracketed { elements: seq![GrammarView::Ref { name: "SelectableGrammar"@, optional: false }], bracket_type: "round"@ }, GrammarView::Ref { name: "SelectableGrammar"@, optional: false }]);
    let g43: Vec<Grammar> = Vec::new();
    assert(views(g43@) =~= Seq::<GrammarView>::empty());
    let g44 = Grammar::one_of_with(g42, g43);
    let g45: Vec<Grammar> = vec![Grammar::keyword("WITH"), Grammar::keyword("NO"), Grammar::keyword("DATA")];
    assert(views(g45@) =~~= seq![GrammarView::Keyword { word: "WITH"@ }, GrammarView::Keyword { word: "NO"@ }, GrammarView::Keyword { word: "DATA"@ }]);
    let g46: Vec<Grammar> = Vec::new();
    assert(views(g46@) =~= Seq::<GrammarView>::empty());
    let g47 = Grammar::sequence_with(g45, g46, ParseMode::Strict);
    let g48 = g47.optional();
    let g49: Vec<Grammar> = vec![g39, Grammar::keyword("AS"), g44, g48];
    assert(views(g49@) =~~= seq![GrammarView::Optional { grammar: Box::new(GrammarView::Sequence { elements: seq![GrammarView::Keyword { word: "WITH"@ }, GrammarView::Ref { name: "BracketedCTASPropertyGrammar"@, optional: false }], terminators: seq![], parse_mode: ParseMode::Strict }) }, GrammarView::Keyword { word: "AS"@ }, GrammarView::OneOf { elements: seq![GrammarView::Bracketed { elements: seq![GrammarView::Ref { name: "SelectableGrammar"@, optional: false }], bracket_type: "round"@ }, GrammarView::Ref { name: "SelectableGrammar"@, optional: false }], terminators: seq![] }, GrammarView::Optional { grammar: Box::new(GrammarView::Sequence { elements: seq![GrammarView::Keyword { word: "WITH"@ }, GrammarView::Keyword { word: "NO"@ }, GrammarView::Keyword { word: "DATA"@ }], terminators: seq![], parse_mode: ParseMode::Strict }) }]);
    let g50: Vec<Grammar> = Vec::new();
    assert(views(g50@) =~= Seq::<GrammarView>::empty());
    let g51 = Grammar::sequence_with(g49, g50, ParseMode::Strict);
    let g52: Vec<Grammar> = vec![g35, g51];
    assert(views(g52@) =~~= seq![GrammarView::Sequence { elements: seq![GrammarView::Optional { grammar: Box::new(GrammarView::Bracketed { elements: seq![GrammarView::Delimited { elements: seq![GrammarView::OneOf { elements: seq![GrammarView::Ref { name: "TableConstraintSegment"@, optional: true }, GrammarView::Sequence { elements: seq![GrammarView::Ref { name: "ColumnDefinitionSegment"@, optional: false }, GrammarView::Ref { name: "CommentGrammar"@, optional: true }], terminators: seq![], parse_mode: ParseMode::Strict }], terminators: seq![] }], allow_trailing: false, delimiter: None, terminators: seq![], allow_gaps: true }], bracket_type: "round"@ }) }, GrammarView::Ref { name: "CommentGrammar"@, optional: true }, GrammarView::Ref { name: "StoredAsGrammar"@, optional: true }, GrammarView::Optional { grammar: Box::new(GrammarView::Sequence { elements: seq![GrammarView::Keyword { word: "PARTITIONED"@ }, GrammarView::Keyword { word: "BY"@ }, GrammarView::Bracketed { elements: seq![GrammarView::Delimited { elements: seq![GrammarView::Sequence { elements: seq![GrammarView::OneOf { elements: seq![GrammarView::Ref { name: "ColumnDefinitionSegment"@, optional: false }, GrammarView::Ref { name: "SingleIdentifierGrammar"@, optional: false }, GrammarView::Ref { name: "FunctionSegment"@, optional: false }], terminators: seq![] }, GrammarView::Ref { name: "CommentGrammar"@, optional: true }], terminators: seq![], parse_mode: ParseMode::Strict }], allow_trailing: false, delimiter: None, terminators: seq![], allow_gaps: true }], bracket_type: "round"@ }], terminators: seq![], parse_mode: ParseMode::Strict }) }, GrammarView::Optional { grammar: Box::new(GrammarView::Sequence { elements: seq![GrammarView::Keyword { word: "CLUSTERED"@ }, GrammarView::Keyword { word: "BY"@ }, GrammarView::Ref { name: "BracketedColumnReferenceListGrammar"@, optional: false }, GrammarView::Keyword { word: "INTO"@ }, GrammarView::Ref { name: "NumericLiteralSegment"@, optional: false }, GrammarView::Keyword { word: "BUCKETS"@ }], terminators: seq![], parse_mode: ParseMode::Strict }) }, GrammarView::Ref { name: "StoredAsGrammar"@, optional: true }, GrammarView::Ref { name: "StorageFormatGrammar"@, optional: true }, GrammarView::Ref { name: "LocationGrammar"@, optional: true }, GrammarView::Ref { name: "TablePropertiesGrammar"@, optional: true }, GrammarView::Ref { name: "CommentGrammar"@, optional: true }], terminators: seq![], parse_mode: ParseMode::Strict }, GrammarView::Sequence { elements: seq![GrammarView::Optional { grammar: Box::new(GrammarView::Sequence { elements: seq![GrammarView::Keyword { word: "WITH"@ }, GrammarView::Ref { name: "BracketedCTASPropertyGrammar"@, optional: false }], terminators: seq![], parse_mode: ParseMode::Strict }) }, GrammarView::Keyword { word: "AS"@ }, GrammarView::OneOf { elements: seq![GrammarView::Bracketed { elements: seq![GrammarView::Ref { name: "SelectableGrammar"@, optional: false }], bracket_type: "round"@ }, GrammarView::Ref { name: "SelectableGrammar"@, optional: false }], terminators: seq![] }, GrammarView::Optional { grammar: Box::new(GrammarView::Sequence { elements: seq![GrammarView::Keyword { word: "WITH"@ }, GrammarView::Keyword { word: "NO"@ }, GrammarView::Keyword { word: "DATA"@ }], terminators: seq![], parse_mode: ParseMode::Strict }) }], terminators: seq![], parse_mode: ParseMode::Strict }]);
    let g53: Vec<Grammar> = Vec::new();
    assert(views(g53@) =~= Seq::<GrammarView>::empty());
    let g54 = Grammar::one_of_with(g52, g53);
    let g55: Vec<Grammar> = vec![Grammar::keyword("CREATE"), g1, Grammar::keyword("TABLE"), Grammar::optional_reference("IfNotExistsGrammar"), Grammar::reference("TableReferenceSegment"), g54];
    assert(views(g55@) =~~= seq![GrammarView::Keyword { word: "CREATE"@ }, GrammarView::Optional { grammar: Box::new(GrammarView::Keyword { word: "EXTERNAL"@ }) }, GrammarView::Keyword { word: "TABLE"@ }, GrammarView::Ref { name: "IfNotExistsGrammar"@, optional: true }, GrammarView::Ref { name: "TableReferenceSegment"@, optional: false }, GrammarView::OneOf { elements: seq![GrammarView::Sequence { elements: seq![GrammarView::Optional { grammar: Box::new(GrammarView::Bracketed { elements: seq![GrammarView::Delimited { elements: seq![GrammarView::OneOf { elements: seq![GrammarView::Ref { name: "TableConstraintSegment"@, optional: true }, GrammarView::Sequence { elements: seq![GrammarView::Ref { name: "ColumnDefinitionSegment"@, optional: false }, GrammarView::Ref { name: "CommentGrammar"@, optional: true }], terminators: seq![], parse_mode: ParseMode::Strict }], terminators: seq![] }], allow_trailing: false, delimiter: None, terminators: seq![], allow_gaps: true }], bracket_type: "round"@ }) }, GrammarView::Ref { name: "CommentGrammar"@, optional: true }, GrammarView::Ref { name: "StoredAsGrammar"@, optional: true }, GrammarView::Optional { grammar: Box::new(GrammarView::Sequence { elements: seq![GrammarView::Keyword { word: "PARTITIONED"@ }, GrammarView::Keyword { word: "BY"@ }, GrammarView::Bracketed { elements: seq![GrammarView::Delimited { elements: seq![GrammarView::Sequence { elements: seq![GrammarView::OneOf { elements: seq![GrammarView::Ref { name: "ColumnDefinitionSegment"@, optional: false }, GrammarView::Ref { name: "SingleIdentifierGrammar"@, optional: false }, GrammarView::Ref { name: "FunctionSegment"@, optional: false }], terminators: seq![] }, GrammarView::Ref { name: "CommentGrammar"@, optional: true }], terminators: seq![], parse_mode: ParseMode::Strict }], allow_trailing: false, delimiter: None, terminators: seq![], allow_gaps: true }], bracket_type: "round"@ }], terminators: seq![], parse_mode: ParseMode::Strict }) }, GrammarView::Optional { grammar: Box::new(GrammarView::Sequence { elements: seq![GrammarView::Keyword { word: "CLUSTERED"@ }, GrammarView::Keyword { word: "BY"@ }, GrammarView::Ref { name: "BracketedColumnReferenceListGrammar"@, optional: false }, GrammarView::Keyword { word: "INTO"@ }, GrammarView::Ref { name: "NumericLiteralSegment"@, optional: false }, GrammarView::Keyword { word: "BUCKETS"@ }], terminators: seq![], parse_mode: ParseMode::Strict }) }, GrammarView::Ref { name: "StoredAsGrammar"@, optional: true }, GrammarView::Ref { name: "StorageFormatGrammar"@, optional: true }, GrammarView::Ref { name: "LocationGrammar"@, optional: true }, GrammarView::Ref { name: "TablePropertiesGrammar"@, optional: true }, GrammarView::Ref { name: "CommentGrammar"@, optional: true }], terminators: seq![], parse_mode: ParseMode::Strict }, GrammarView::Sequence { elements: seq![GrammarView::Optional { grammar: Box::new(GrammarView::Sequence { elements: seq![GrammarView::Keyword { word: "WITH"@ }, GrammarView::Ref { name: "BracketedCTASPropertyGrammar"@, optional: false }], terminators: seq![], parse_mode: ParseMode::Strict }) }, GrammarView::Keyword { word: "AS"@ }, GrammarView::OneOf { elements: seq![GrammarView::Bracketed { elements: seq![GrammarView::Ref { name: "SelectableGrammar"@, optional: false }], bracket_type: "round"@ }, GrammarView::Ref { name: "SelectableGrammar"@, optional: false }], terminators: seq![] }, GrammarView::Optional { grammar: Box::new(GrammarView::Sequence { elements: seq![GrammarView::Keyword { word: "WITH"@ }, GrammarView::Keyword { word: "NO"@ }, GrammarView::Keyword { word: "DATA"@ }], terminators: seq![], parse_mode: ParseMode::Strict }) }], terminators: seq![], parse_mode: ParseMode::Strict }], terminators: seq![] }]);
    let g56: Vec<Grammar> = Vec::new();
    assert(views(g56@) =~= Seq::<GrammarView>::empty());
    let g57 = Grammar::sequence_with(g55, g56, ParseMode::Strict);
    Element::Node { kind: "create_table_statement", grammar: g57 }
}

/// The Athena element `MsckRepairTableStatementSegment`.
pub open spec fn msck_repair_table_statement_segment_element() -> ElementView {
    ElementView::Node { kind: "msck_repair_table_statement"@, grammar: GrammarView::Sequence { elements: seq![GrammarView::Keyword { word: "MSCK"@ }, GrammarView::Keyword { word: "REPAIR"@ }, GrammarView::Keyword { word: "TABLE"@ }, GrammarView::Ref { name: "TableReferenceSegment"@, optional: false }], terminators: seq![], parse_mode: ParseMode::Strict } }
}

fn build_msck_repair_table_statement_segment() -> (e: Element)
    ensures
        e@ =~~= msck_repair_table_statement_segment_element(),
{
    let g1: Vec<Grammar> = vec![Grammar::keyword("MSCK"), Grammar::keyword("REPAIR"), Grammar::keyword("TABLE"), Grammar::reference("TableReferenceSegment")];
    assert(views(g1@) =~~= seq![GrammarView::Keyword { word: "MSCK"@ }, GrammarView::Keyword { word: "REPAIR"@ }, GrammarView::Keyword { word: "TABLE"@ }, GrammarView::Ref { name: "TableReferenceSegment"@, optional: false }]);
    let g2: Vec<Grammar> = Vec::new();
    assert(views(g2@) =~= Seq::<GrammarView>::empty());
    let g3 = Grammar::sequence_with(g1, g2, ParseMode::Strict);
    Element::Node { kind: "msck_repair_table_statement", grammar: g3 }
}

/// The Athena element `RowFormatClauseSegment`.
pub open spec fn row_format_clause_segment_element() -> ElementView {
    ElementView::Node { kind: "row_format_clause"@, grammar: GrammarView::Sequence { elements: seq![GrammarView::Keyword { word: "ROW"@ }, GrammarView::Keyword { word: "FORMAT"@ }, GrammarView::OneOf { elements: seq![GrammarView::Sequence { elements: seq![GrammarView::Keyword { word: "DELIMITED"@ }, GrammarView::Optional { grammar: Box::new(GrammarView::Sequence { elements: seq![GrammarView::Keyword { word: "FIELDS"@ }, GrammarView::Ref { name: "TerminatedByGrammar"@, optional: false }, GrammarView::Optional { grammar: Box::new(GrammarView::Sequence { elements: seq![GrammarView::Keyword { word: "ESCAPED"@ }, GrammarView::Keyword { word: "BY"@ }, GrammarView::Ref { name: "QuotedLiteralSegment"@, optional: false }], terminators: seq![], parse_mode: ParseMode::Strict }) }], terminators: seq![], parse_mode: ParseMode::Strict }) }, GrammarView::Optional { grammar: Box::new(GrammarView::Sequence { elements: seq![GrammarView::Keyword { word: "COLLECTION"@ }, GrammarView::Keyword { word: "ITEMS"@ }, GrammarView::Ref { name: "TerminatedByGrammar"@, optional: false }], terminators: seq![], parse_mode: ParseMode::Strict }) }, GrammarView::Optional { grammar: Box::new(GrammarView::Sequence { elements: seq![GrammarView::Keyword { word: "MAP"@ }, GrammarView::Keyword { word: "KEYS"@ }, GrammarView::Ref { name: "TerminatedByGrammar"@, optional: false }], terminators: seq![], parse_mode: ParseMode::Strict }) }, GrammarView::Optional { grammar: Box::new(GrammarView::Sequence { elements: seq![GrammarView::Keyword { word: "LINES"@ }, GrammarView::Ref { name: "TerminatedByGrammar"@, optional: false }], terminators: seq![], parse_mode: ParseMode::Strict }) }, GrammarView::Optional { grammar: Box::new(GrammarView::Sequence { elements: seq![GrammarView::Keyword { word: "NULL"@ }, GrammarView::Keyword { word: "DEFINED"@ }, GrammarView::Keyword { word: "AS"@ }, GrammarView::Ref { name: "QuotedLiteralSegment"@, optional: false }], terminators: seq![], parse_mode: ParseMode::Strict }) }], terminators: seq![], parse_mode: ParseMode::Strict }, GrammarView::Sequence { elements: seq![GrammarView::Keyword { word: "SERDE"@ }, GrammarView::Ref { name: "QuotedLiteralSegment"@, optional: false }, GrammarView::Ref { name: "SerdePropertiesGrammar"@, optional: true }], terminators: seq![], parse_mode: ParseMode::Strict }], terminators: seq![] }], terminators: seq![], parse_mode: ParseMode::Strict } }
}

fn build_row_format_clause_segment() -> (e: Element)
    ensures
        e@ =~~= row_format_clause_segment_element(),
{
    let g1: Vec<Grammar> = vec![Grammar::keyword("ESCAPED"), Grammar::keyword("BY"), Grammar::reference("QuotedLiteralSegment")];
    assert(views(g1@) =~~= seq![GrammarView::Keyword { word: "ESCAPED"@ }, GrammarView::Keyword { word: "BY"@ }, GrammarView::Ref { name: "QuotedLiteralSegment"@, optional: false }]);
    let g2: Vec<Grammar> = Vec::new();
    assert(views(g2@) =~= Seq::<GrammarView>::empty());
    let g3 = Grammar::sequence_with(g1, g2, ParseMode::Strict);
    let g4 = g3.optional();
    let g5: Vec<Grammar> = vec![Grammar::keyword("FIELDS"), Grammar::reference("TerminatedByGrammar"), g4];
    assert(views(g5@) =~~= seq![GrammarView::Keyword { word: "FIELDS"@ }, GrammarView::Ref { name: "TerminatedByGrammar"@, optional: false }, GrammarView::Optional { grammar: Box::new(GrammarView::Sequence { elements: seq![GrammarView::Keyword { word: "ESCAPED"@ }, GrammarView::Keyword { word: "BY"@ }, GrammarView::Ref { name: "QuotedLiteralSegment"@, optional: false }], terminators: seq![], parse_mode: ParseMode::Strict }) }]);
    let g6: Vec<Grammar> = Vec::new();
    assert(views(g6@) =~= Seq::<GrammarView>::empty());
    let g7 = Grammar::sequence_with(g5, g6, ParseMode::Strict);
    let g8 = g7.optional();
    let g9: Vec<Grammar> = vec![Grammar::keyword("COLLECTION"), Grammar::keyword("ITEMS"), Grammar::reference("TerminatedByGrammar")];
    assert(views(g9@) =~~= seq![GrammarView::Keyword { word: "COLLECTION"@ }, GrammarView::Keyword { word: "ITEMS"@ }, GrammarView::Ref { name: "TerminatedByGrammar"@, optional: false }]);
    let g10: Vec<Grammar> = Vec::new();
    assert(views(g10@) =~= Seq::<GrammarView>::empty());
    let g11 = Grammar::sequence_with(g9, g10, ParseMode::Strict);
    let g12 = g11.optional();
    let g13: Vec<Grammar> = vec![Grammar::keyword("MAP"), Grammar::keyword("KEYS"), Grammar::reference("TerminatedByGrammar")];
    assert(views(g13@) =~~= seq![GrammarView::Keyword { word: "MAP"@ }, GrammarView::Keyword { word: "KEYS"@ }, GrammarView::Ref { name: "TerminatedByGrammar"@, optional: false }]);
    let g14: Vec<Grammar> = Vec::new();
    assert(views(g14@) =~= Seq::<GrammarView>::empty());
    let g15 = Grammar::sequence_with(g13, g14, ParseMode::Strict);
    let g16 = g15.optional();
    let g17: Vec<Grammar> = vec![Grammar::keyword("LINES"), Grammar::reference("TerminatedByGrammar")];
    assert(views(g17@) =~~= seq![GrammarView::Keyword { word: "LINES"@ }, GrammarView::Ref { name: "TerminatedByGrammar"@, optional: false }]);
    let g18: Vec<Grammar> = Vec::new();
    assert(views(g18@) =~= Seq::<GrammarView>::empty());
    let g19 = Grammar::sequence_with(g17, g18, ParseMode::Strict);
    let g20 = g19.optional();
    let g21: Vec<Grammar> = vec![Grammar::keyword("NULL"), Grammar::keyword("DEFINED"), Grammar::keyword("AS"), Grammar::reference("QuotedLiteralSegment")];
    assert(views(g21@) =~~= seq![GrammarView::Keyword { word: "NULL"@ }, GrammarView::Keyword { word: "DEFINED"@ }, GrammarView::Keyword { word: "AS"@ }, GrammarView::Ref { name: "QuotedLiteralSegment"@, optional: false }]);
    let g22: Vec<Grammar> = Vec::new();
    assert(views(g22@) =~= Seq::<GrammarView>::empty());
    let g23 = Grammar::sequence_with(g21, g22, ParseMode::Strict);
    let g24 = g23.optional();
    let g25: Vec<Grammar> = vec![Grammar::keyword("DELIMITED"), g8, g12, g16, g20, g24];
    assert(views(g25@) =~~= seq![GrammarView::Keyword { word: "DELIMITED"@ }, GrammarView::Optional { grammar: Box::new(GrammarView::Sequence { elements: seq![GrammarView::Keyword { word: "FIELDS"@ }, GrammarView::Ref { name: "TerminatedByGrammar"@, optional: false }, GrammarView::Optional { grammar: Box::new(GrammarView::Sequence { elements: seq![GrammarView::Keyword { word: "ESCAPED"@ }, GrammarView::Keyword { word: "BY"@ }, GrammarView::Ref { name: "QuotedLiteralSegment"@, optional: false }], terminators: seq![], parse_mode: ParseMode::Strict }) }], terminators: seq![], parse_mode: ParseMode::Strict }) }, GrammarView::Optional { grammar: Box::new(GrammarView::Sequence { elements: seq![GrammarView::Keyword { word: "COLLECTION"@ }, GrammarView::Keyword { word: "ITEMS"@ }, GrammarView::Ref { name: "TerminatedByGrammar"@, optional: false }], terminators: seq![], parse_mode: ParseMode::Strict }) }, GrammarView::Optional { grammar: Box::new(GrammarView::Sequence { elements: seq![GrammarView::Keyword { word: "MAP"@ }, GrammarView::Keyword { word: "KEYS"@ }, GrammarView::Ref { name: "TerminatedByGrammar"@, optional: false }], terminators: seq![], parse_mode: ParseMode::Strict }) }, GrammarView::Optional { grammar: Box::new(GrammarView::Sequence { elements: seq![GrammarView::Keyword { word: "LINES"@ }, GrammarView::Ref { name: "TerminatedByGrammar"@, optional: false }], terminators: seq![], parse_mode: ParseMode::Strict }) }, GrammarView::Optional { grammar: Box::new(GrammarView::Sequence { elements: seq![GrammarView::Keyword { word: "NULL"@ }, GrammarView::Keyword { word: "DEFINED"@ }, GrammarView::Keyword { word: "AS"@ }, GrammarView::Ref { name: "QuotedLiteralSegment"@, optional: false }], terminators: seq![], parse_mode: ParseMode::Strict }) }]);
    let g26: Vec<Grammar> = Vec::new();
    assert(views(g26@) =~= Seq::<GrammarView>::empty());
    let g27 = Grammar::sequence_with(g25, g26, ParseMode::Strict);
    let g28: Vec<Grammar> = vec![Grammar::keyword("SERDE"), Grammar::reference("QuotedLiteralSegment"), Grammar::optional_reference("SerdePropertiesGrammar")];
    assert(views(g28@) =~~= seq![GrammarView::Keyword { word: "SERDE"@ }, GrammarView::Ref { name: "QuotedLiteralSegment"@, optional: false }, GrammarView::Ref { name: "SerdePropertiesGrammar"@, optional: true }]);
    let g29: Vec<Grammar> = Vec::new();
    assert(views(g29@) =~= Seq::<GrammarView>::empty());
    let g30 = Grammar::sequence_with(g28, g29, ParseMode::Strict);
    let g31: Vec<Grammar> = vec![g27, g30];
    assert(views(g31@) =~~= seq![GrammarView::Sequence { elements: seq![GrammarView::Keyword { word: "DELIMITED"@ }, GrammarView::Optional { grammar: Box::new(GrammarView::Sequence { elements: seq![GrammarView::Keyword { word: "FIELDS"@ }, GrammarView::Ref { name: "TerminatedByGrammar"@, optional: false }, GrammarView::Optional { grammar: Box::new(GrammarView::Sequence { elements: seq![GrammarView::Keyword { word: "ESCAPED"@ }, GrammarView::Keyword { word: "BY"@ }, GrammarView::Ref { name: "QuotedLiteralSegment"@, optional: false }], terminators: seq![], parse_mode: ParseMode::Strict }) }], terminators: seq![], parse_mode: ParseMode::Strict }) }, GrammarView::Optional { grammar: Box::new(GrammarView::Sequence { elements: seq![GrammarView::Keyword { word: "COLLECTION"@ }, GrammarView::Keyword { word: "ITEMS"@ }, GrammarView::Ref { name: "TerminatedByGrammar"@, optional: false }], terminators: seq![], parse_mode: ParseMode::Strict }) }, GrammarView::Optional { grammar: Box::new(GrammarView::Sequence { elements: seq![GrammarView::Keyword { word: "MAP"@ }, GrammarView::Keyword { word: "KEYS"@ }, GrammarView::Ref { name: "TerminatedByGrammar"@, optional: false }], terminators: seq![], parse_mode: ParseMode::Strict }) }, GrammarView::Optional { grammar: Box::new(GrammarView::Sequence { elements: seq![GrammarView::Keyword { word: "LINES"@ }, GrammarView::Ref { name: "TerminatedByGrammar"@, optional: false }], terminators: seq![], parse_mode: ParseMode::Strict }) }, GrammarView::Optional { grammar: Box::new(GrammarView::Sequence { elements: seq![GrammarView::Keyword { word: "NULL"@ }, GrammarView::Keyword { word: "DEFINED"@ }, GrammarView::Keyword { word: "AS"@ }, GrammarView::Ref { name: "QuotedLiteralSegment"@, optional: false }], terminators: seq![], parse_mode: ParseMode::Strict }) }], terminators: seq![], parse_mode: ParseMode::Strict }, GrammarView::Sequence { elements: seq![GrammarView::Keyword { word: "SERDE"@ }, GrammarView::Ref { name: "QuotedLiteralSegment"@, optional: false }, GrammarView::Ref { name: "SerdePropertiesGrammar"@, optional: true }], terminators: seq![], parse_mode: ParseMode::Strict }]);
    let g32: Vec<Grammar> = Vec::new();
    assert(views(g32@) =~= Seq::<GrammarView>::empty());
    let g33 = Grammar::one_of_with(g31, g32);
    let g34: Vec<Grammar> = vec![Grammar::keyword("ROW"), Grammar::keyword("FORMAT"), g33];
    assert(views(g34@) =~~= seq![GrammarView::Keyword { word: "ROW"@ }, GrammarView::Keyword { word: "FORMAT"@ }, GrammarView::OneOf { elements: seq![GrammarView::Sequence { elements: seq![GrammarView::Keyword { word: "DELIMITED"@ }, GrammarView::Optional { grammar: Box::new(GrammarView::Sequence { elements: seq![GrammarView::Keyword { word: "FIELDS"@ }, GrammarView::Ref { name: "TerminatedByGrammar"@, optional: false }, GrammarView::Optional { grammar: Box::new(GrammarView::Sequence { elements: seq![GrammarView::Keyword { word: "ESCAPED"@ }, GrammarView::Keyword { word: "BY"@ }, GrammarView::Ref { name: "QuotedLiteralSegment"@, optional: false }], terminators: seq![], parse_mode: ParseMode::Strict }) }], terminators: seq![], parse_mode: ParseMode::Strict }) }, GrammarView::Optional { grammar: Box::new(GrammarView::Sequence { elements: seq![GrammarView::Keyword { word: "COLLECTION"@ }, GrammarView::Keyword { word: "ITEMS"@ }, GrammarView::Ref { name: "TerminatedByGrammar"@, optional: false }], terminators: seq![], parse_mode: ParseMode::Strict }) }, GrammarView::Optional { grammar: Box::new(GrammarView::Sequence { elements: seq![GrammarView::Keyword { word: "MAP"@ }, GrammarView::Keyword { word: "KEYS"@ }, GrammarView::Ref { name: "TerminatedByGrammar"@, optional: false }], terminators: seq![], parse_mode: ParseMode::Strict }) }, GrammarView::Optional { grammar: Box::new(GrammarView::Sequence { elements: seq![GrammarView::Keyword { word: "LINES"@ }, GrammarView::Ref { name: "TerminatedByGrammar"@, optional: false }], terminators: seq![], parse_mode: ParseMode::Strict }) }, GrammarView::Optional { grammar: Box::new(GrammarView::Sequence { elements: seq![GrammarView::Keyword { word: "NULL"@ }, GrammarView::Keyword { word: "DEFINED"@ }, GrammarView::Keyword { word: "AS"@ }, GrammarView::Ref { name: "QuotedLiteralSegment"@, optional: false }], terminators: seq![], parse_mode: ParseMode::Strict }) }], terminators: seq![], parse_mode: ParseMode::Strict }, GrammarView::Sequence { elements: seq![GrammarView::Keyword { word: "SERDE"@ }, GrammarView::Ref { name: "QuotedLiteralSegment"@, optional: false }, GrammarView::Ref { name: "SerdePropertiesGrammar"@, optional: true }], terminators: seq![], parse_mode: ParseMode::Strict }], terminators: seq![] }]);
    let g35: Vec<Grammar> = Vec::new();
    assert(views(g35@) =~= Seq::<GrammarView>::empty());
    let g36 = Grammar::sequence_with(g34, g35, ParseMode::Strict);
    Element::Node { kind: "row_format_clause", grammar: g36 }
}

/// The Athena element `InsertStatementSegment`.
pub open spec fn insert_statement_segment_element() -> ElementView {
    ElementView::Node { kind: "insert_statement"@, grammar: GrammarView::Sequence { elements: seq![GrammarView::Keyword { word: "INSERT"@ }, GrammarView::Keyword { word: "INTO"@ }, GrammarView::Ref { name: "TableReferenceSegment"@, optional: false }, GrammarView::OneOf { elements: seq![GrammarView::OneOf { elements: seq![GrammarView::Bracketed { elements: seq![GrammarView::Ref { name: "SelectableGrammar"@, optional: false }], bracket_type: "round"@ }, GrammarView::Ref { name: "SelectableGrammar"@, optional: false }], terminators: seq![] }, GrammarView::Sequence { elements: seq![GrammarView::Keyword { word: "DEFAULT"@ }, GrammarView::Keyword { word: "VALUES"@ }], terminators: seq![], parse_mode: ParseMode::Strict }, GrammarView::Sequence { elements: seq![GrammarView::Ref { name: "BracketedColumnReferenceListGrammar"@, optional: true }, GrammarView::OneOf { elements: seq![GrammarView::Ref { name: "ValuesClauseSegment"@, optional: false }, GrammarView::OneOf { elements: seq![GrammarView::Bracketed { elements: seq![GrammarView::Ref { name: "SelectableGrammar"@, optional: false }], bracket_type: "round"@ }, GrammarView::Ref { name: "SelectableGrammar"@, optional: false }], terminators: seq![] }], terminators: seq![] }], terminators: seq![], parse_mode: ParseMode::Strict }], terminators: seq![] }], terminators: seq![], parse_mode: ParseMode::Strict } }
}

fn build_insert_statement_segment() -> (e: Element)
    ensures
        e@ =~~= insert_statement_segment_element(),
{
    let g1: Vec<Grammar> = vec![Grammar::reference("SelectableGrammar")];
    assert(views(g1@) =~~= seq![GrammarView::Ref { name: "SelectableGrammar"@, optional: false }]);
    let g2 = Grammar::bracketed_with(g1, "round");
    let g3: Vec<Grammar> = vec![g2, Grammar::reference("SelectableGrammar")];
    assert(views(g3@) =~~= seq![GrammarView::Bracketed { elements: seq![GrammarView::Ref { name: "SelectableGrammar"@, optional: false }], bracket_type: "round"@ }, GrammarView::Ref { name: "SelectableGrammar"@, optional: false }]);
    let g4: Vec<Grammar> = Vec::new();
    assert(views(g4@) =~= Seq::<GrammarView>::empty());
    let g5 = Grammar::one_of_with(g3, g4);
    let g6: Vec<Grammar> = vec![Grammar::keyword("DEFAULT"), Grammar::keyword("VALUES")];
    assert(views(g6@) =~~= seq![GrammarView::Keyword { word: "DEFAULT"@ }, GrammarView::Keyword { word: "VALUES"@ }]);
    let g7: Vec<Grammar> = Vec::new();
    assert(views(g7@) =~= Seq::<GrammarView>::empty());
    let g8 = Grammar::sequence_with(g6, g7, ParseMode::Strict);
    let g9: Vec<Grammar> = vec![Grammar::reference("SelectableGrammar")];
    assert(views(g9@) =~~= seq![GrammarView::Ref { name: "SelectableGrammar"@, optional: false }]);
    let g10 = Grammar::bracketed_with(g9, "round");
    let g11: Vec<Grammar> = vec![g10, Grammar::reference("SelectableGrammar")];
    assert(views(g11@) =~~= seq![GrammarView::Bracketed { elements: seq![GrammarView::Ref { name: "SelectableGrammar"@, optional: false }], bracket_type: "round"@ }, GrammarView::Ref { name: "SelectableGrammar"@, optional: false }]);
    let g12: Vec<Grammar> = Vec::new();
    assert(views(g12@) =~= Seq::<GrammarView>::empty());
    let g13 = Grammar::one_of_with(g11, g12);
    let g14: Vec<Grammar> = vec![Grammar::reference("ValuesClauseSegment"), g13];
    assert(views(g14@) =~~= seq![GrammarView::Ref { name: "ValuesClauseSegment"@, optional: false }, GrammarView::OneOf { elements: seq![GrammarView::Bracketed { elements: seq![GrammarView::Ref { name: "SelectableGrammar"@, optional: false }], bracket_type: "round"@ }, GrammarView::Ref { name: "SelectableGrammar"@, optional: false }], terminators: seq![] }]);
    let g15: Vec<Grammar> = Vec::new();
    assert(views(g15@) =~= Seq::<GrammarView>::empty());
    let g16 = Grammar::one_of_with(g14, g15);
    let g17: Vec<Grammar> = vec![Grammar::optional_reference("BracketedColumnReferenceListGrammar"), g16];
    assert(views(g17@) =~~= seq![GrammarView::Ref { name: "BracketedColumnReferenceListGrammar"@, optional: true }, GrammarView::OneOf { elements: seq![GrammarView::Ref { name: "ValuesClauseSegment"@, optional: false }, GrammarView::OneOf { elements: seq![GrammarView::Bracketed { elements: seq![GrammarView::Ref { name: "SelectableGrammar"@, optional: false }], bracket_type: "round"@ }, GrammarView::Ref { name: "SelectableGrammar"@, optional: false }], terminators: seq![] }], terminators: seq![] }]);
    let g18: Vec<Grammar> = Vec::new();
    assert(views(g18@) =~= Seq::<GrammarView>::empty());
    let g19 = Grammar::sequence_with(g17, g18, ParseMode::Strict);
    let g20: Vec<Grammar> = vec![g5, g8, g19];
    assert(views(g20@) =~~= seq![GrammarView::OneOf { elements: seq![GrammarView::Bracketed { elements: seq![GrammarView::Ref { name: "SelectableGrammar"@, optional: false }], bracket_type: "round"@ }, GrammarView::Ref { name: "SelectableGrammar"@, optional: false }], terminators: seq![] }, GrammarView::Sequence { elements: seq![GrammarView::Keyword { word: "DEFAULT"@ }, GrammarView::Keyword { word: "VALUES"@ }], terminators: seq![], parse_mode: ParseMode::Strict }, GrammarView::Sequence { elements: seq![GrammarView::Ref { name: "BracketedColumnReferenceListGrammar"@, optional: true }, GrammarView::OneOf { elements: seq![GrammarView::Ref { name: "ValuesClauseSegment"@, optional: false }, GrammarView::OneOf { elements: seq![GrammarView::Bracketed { elements: seq![GrammarView::Ref { name: "SelectableGrammar"@, optional: false }], bracket_type: "round"@ }, GrammarView::Ref { name: "SelectableGrammar"@, optional: false }], terminators: seq![] }], terminators: seq![] }], terminators: seq![], parse_mode: ParseMode::Strict }]);
    let g21: Vec<Grammar> = Vec::new();
    assert(views(g21@) =~= Seq::<GrammarView>::empty());
    let g22 = Grammar::one_of_with(g20, g21);
    let g23: Vec<Grammar> = vec![Grammar::keyword("INSERT"), Grammar::keyword("INTO"), Grammar::reference("TableReferenceSegment"), g22];
    assert(views(g23@) =~~= seq![GrammarView::Keyword { word: "INSERT"@ }, GrammarView::Keyword { word: "INTO"@ }, GrammarView::Ref { name: "TableReferenceSegment"@, optional: false }, GrammarView::OneOf { elements: seq![GrammarView::OneOf { elements: seq![GrammarView::Bracketed { elements: seq![GrammarView::Ref { name: "SelectableGrammar"@, optional: false }], bracket_type: "round"@ }, GrammarView::Ref { name: "SelectableGrammar"@, optional: false }], terminators: seq![] }, GrammarView::Sequence { elements: seq![GrammarView::Keyword { word: "DEFAULT"@ }, GrammarView::Keyword { word: "VALUES"@ }], terminators: seq![], parse_mode: ParseMode::Strict }, GrammarView::Sequence { elements: seq![GrammarView::Ref { name: "BracketedColumnReferenceListGrammar"@, optional: true }, GrammarView::OneOf { elements: seq![GrammarView::Ref { name: "ValuesClauseSegment"@, optional: false }, GrammarView::OneOf { elements: seq![GrammarView::Bracketed { elements: seq![GrammarView::Ref { name: "SelectableGrammar"@, optional: false }], bracket_type: "round"@ }, GrammarView::Ref { name: "SelectableGrammar"@, optional: false }], terminators: seq![] }], terminators: seq![] }], terminators: seq![], parse_mode: ParseMode::Strict }], terminators: seq![] }]);
    let g24: Vec<Grammar> = Vec::new();
    assert(views(g24@) =~= Seq::<GrammarView>::empty());
    let g25 = Grammar::sequence_with(g23, g24, ParseMode::Strict);
    Element::Node { kind: "insert_statement", grammar: g25 }
}

/// The Athena element `UnloadStatementSegment`.
pub open spec fn unload_statement_segment_element() -> ElementView {
    ElementView::Node { kind: "unload_statement"@, grammar: GrammarView::Sequence { elements: seq![GrammarView::Keyword { word: "UNLOAD"@ }, GrammarView::Bracketed { elements: seq![GrammarView::Ref { name: "SelectableGrammar"@, optional: false }], bracket_type: "round"@ }, GrammarView::Keyword { word: "TO"@ }, GrammarView::Ref { name: "QuotedLiteralSegment"@, optional: false }, GrammarView::Optional { grammar: Box::new(GrammarView::Sequence { elements: seq![GrammarView::Keyword { word: "WITH"@ }, GrammarView::Ref { name: "BracketedUnloadPropertyGrammar"@, optional: false }], terminators: seq![], parse_mode: ParseMode::Strict }) }], terminators: seq![], parse_mode: ParseMode::Strict } }
}

fn build_unload_statement_segment() -> (e: Element)
    ensures
        e@ =~~= unload_statement_segment_element(),
{
    let g1: Vec<Grammar> = vec![Grammar::reference("SelectableGrammar")];
    assert(views(g1@) =~~= seq![GrammarView::Ref { name: "SelectableGrammar"@, optional: false }]);
    let g2 = Grammar::bracketed_with(g1, "round");
    let g3: Vec<Grammar> = vec![Grammar::keyword("WITH"), Grammar::reference("BracketedUnloadPropertyGrammar")];
    assert(views(g3@) =~~= seq![GrammarView::Keyword { word: "WITH"@ }, GrammarView::Ref { name: "BracketedUnloadPropertyGrammar"@, optional: false }]);
    let g4: Vec<Grammar> = Vec::new();
    assert(views(g4@) =~= Seq::<GrammarView>::empty());
    let g5 = Grammar::sequence_with(g3, g4, ParseMode::Strict);
    let g6 = g5.optional();
    let g7: Vec<Grammar> = vec![Grammar::keyword("UNLOAD"), g2, Grammar::keyword("TO"), Grammar::reference("QuotedLiteralSegment"), g6];
    assert(views(g7@) =~~= seq![GrammarView::Keyword { word: "UNLOAD"@ }, GrammarView::Bracketed { elements: seq![GrammarView::Ref { name: "SelectableGrammar"@, optional: false }], bracket_type: "round"@ }, GrammarView::Keyword { word: "TO"@ }, GrammarView::Ref { name: "QuotedLiteralSegment"@, optional: false }, GrammarView::Optional { grammar: Box::new(GrammarView::Sequence { elements: seq![GrammarView::Keyword { word: "WITH"@ }, GrammarView::Ref { name: "BracketedUnloadPropertyGrammar"@, optional: false }], terminators: seq![], parse_mode: ParseMode::Strict }) }]);
    let g8: Vec<Grammar> = Vec::new();
    assert(views(g8@) =~= Seq::<GrammarView>::empty());
    let g9 = Grammar::sequence_with(g7, g8, ParseMode::Strict);
    Element::Node { kind: "unload_statement", grammar: g9 }
}

/// The Athena element `PrepareStatementSegment`.
pub open spec fn prepare_statement_segment_element() -> ElementView {
    ElementView::Node { kind: "prepare_statement"@, grammar: GrammarView::Sequence { elements: seq![GrammarView::Keyword { word: "PREPARE"@ }, GrammarView::Ref { name: "TableReferenceSegment"@, optional: false }, GrammarView::Keyword { word: "FROM"@ }, GrammarView::OneOf { elements: seq![GrammarView::Bracketed { elements: seq![GrammarView::OneOf { elements: seq![GrammarView::Ref { name: "SelectableGrammar"@, optional: false }, GrammarView::Ref { name: "UnloadStatementSegment"@, optional: false }, GrammarView::Ref { name: "InsertStatementSegment"@, optional: false }], terminators: seq![] }], bracket_type: "round"@ }, GrammarView::OneOf { elements: seq![GrammarView::Ref { name: "SelectableGrammar"@, optional: false }, GrammarView::Ref { name: "UnloadStatementSegment"@, optional: false }, GrammarView::Ref { name: "InsertStatementSegment"@, optional: false }], terminators: seq![] }], terminators: seq![] }], terminators: seq![], parse_mode: ParseMode::Strict } }
}

fn build_prepare_statement_segment() -> (e: Element)
    ensures
        e@ =~~= prepare_statement_segment_element(),
{
    let g1: Vec<Grammar> = vec![Grammar::reference("SelectableGrammar"), Grammar::reference("UnloadStatementSegment"), Grammar::reference("InsertStatementSegment")];
    assert(views(g1@) =~~= seq![GrammarView::Ref { name: "SelectableGrammar"@, optional: false }, GrammarView::Ref { name: "UnloadStatementSegment"@, optional: false }, GrammarView::Ref { name: "InsertStatementSegment"@, optional: false }]);
    let g2: Vec<Grammar> = Vec::new();
    assert(views(g2@) =~= Seq::<GrammarView>::empty());
    let g3 = Grammar::one_of_with(g1, g2);
    let g4: Vec<Grammar> = vec![g3];
    assert(views(g4@) =~~= seq![GrammarView::OneOf { elements: seq![GrammarView::Ref { name: "SelectableGrammar"@, optional: false }, GrammarView::Ref { name: "UnloadStatementSegment"@, optional: false }, GrammarView::Ref { name: "InsertStatementSegment"@, optional: false }], terminators: seq![] }]);
    let g5 = Grammar::bracketed_with(g4, "round");
    let g6: Vec<Grammar> = vec![Grammar::reference("SelectableGrammar"), Grammar::reference("UnloadStatementSegment"), Grammar::reference("InsertStatementSegment")];
    assert(views(g6@) =~~= seq![GrammarView::Ref { name: "SelectableGrammar"@, optional: false }, GrammarView::Ref { name: "UnloadStatementSegment"@, optional: false }, GrammarView::Ref { name: "InsertStatementSegment"@, optional: false }]);
    let g7: Vec<Grammar> = Vec::new();
    assert(views(g7@) =~= Seq::<GrammarView>::empty());
    let g8 = Grammar::one_of_with(g6, g7);
    let g9: Vec<Grammar> = vec![g5, g8];
    assert(views(g9@) =~~= seq![GrammarView::Bracketed { elements: seq![GrammarView::OneOf { elements: seq![GrammarView::Ref { name: "SelectableGrammar"@, optional: false }, GrammarView::Ref { name: "UnloadStatementSegment"@, optional: false }, GrammarView::Ref { name: "InsertStatementSegment"@, optional: false }], terminators: seq![] }], bracket_type: "round"@ }, GrammarView::OneOf { elements: seq![GrammarView::Ref { name: "SelectableGrammar"@, optional: false }, GrammarView::Ref { name: "UnloadStatementSegment"@, optional: false }, GrammarView::Ref { name: "InsertStatementSegment"@, optional: false }], terminators: seq![] }]);
    let g10: Vec<Grammar> = Vec::new();
    assert(views(g10@) =~= Seq::<GrammarView>::empty());
    let g11 = Grammar::one_of_with(g9, g10);
    let g12: Vec<Grammar> = vec![Grammar::keyword("PREPARE"), Grammar::reference("TableReferenceSegment"), Grammar::keyword("FROM"), g11];
    assert(views(g12@) =~~= seq![GrammarView::Keyword { word: "PREPARE"@ }, GrammarView::Ref { name: "TableReferenceSegment"@, optional: false }, GrammarView::Keyword { word: "FROM"@ }, GrammarView::OneOf { elements: seq![GrammarView::Bracketed { elements: seq![GrammarView::OneOf { elements: seq![GrammarView::Ref { name: "SelectableGrammar"@, optional: false }, GrammarView::Ref { name: "UnloadStatementSegment"@, optional: false }, GrammarView::Ref { name: "InsertStatementSegment"@, optional: false }], terminators: seq![] }], bracket_type: "round"@ }, GrammarView::OneOf { elements: seq![GrammarView::Ref { name: "SelectableGrammar"@, optional: false }, GrammarView::Ref { name: "UnloadStatementSegment"@, optional: false }, GrammarView::Ref { name: "InsertStatementSegment"@, optional: false }], terminators: seq![] }], terminators: seq![] }]);
    let g13: Vec<Grammar> = Vec::new();
    assert(views(g13@) =~= Seq::<GrammarView>::empty());
    let g14 = Grammar::sequence_with(g12, g13, ParseMode::Strict);
    Element::Node { kind: "prepare_statement", grammar: g14 }
}

/// The Athena element `ExecuteStatementSegment`.
pub open spec fn execute_statement_segment_element() -> ElementView {
    ElementView::Node { kind: "execute_statement"@, grammar: GrammarView::Sequence { elements: seq![GrammarView::Keyword { word: "EXECUTE"@ }, GrammarView::Ref { name: "TableReferenceSegment"@, optional: false }, GrammarView::Optional { grammar: Box::new(GrammarView::OneOf { elements: seq![GrammarView::Sequence { elements: seq![GrammarView::Keyword { word: "USING"@ }, GrammarView::Delimited { elements: seq![GrammarView::Ref { name: "LiteralGrammar"@, optional: false }], allow_trailing: false, delimiter: None, terminators: seq![], allow_gaps: true }], terminators: seq![], parse_mode: ParseMode::Strict }], terminators: seq![] }) }], terminators: seq![], parse_mode: ParseMode::Strict } }
}

fn build_execute_statement_segment() -> (e: Element)
    ensures
        e@ =~~= execute_statement_segment_element(),
{
    let g1: Vec<Grammar> = vec![Grammar::reference("LiteralGrammar")];
    assert(views(g1@) =~~= seq![GrammarView::Ref { name: "LiteralGrammar"@, optional: false }]);
    let g2: Vec<Grammar> = Vec::new();
    assert(views(g2@) =~= Seq::<GrammarView>::empty());
    let g3 = Grammar::delimited_with(g1, false, None, g2, true);
    let g4: Vec<Grammar> = vec![Grammar::keyword("USING"), g3];
    assert(views(g4@) =~~= seq![GrammarView::Keyword { word: "USING"@ }, GrammarView::Delimited { elements: seq![GrammarView::Ref { name: "LiteralGrammar"@, optional: false }], allow_trailing: false, delimiter: None, terminators: seq![], allow_gaps: true }]);
    let g5: Vec<Grammar> = Vec::new();
    assert(views(g5@) =~= Seq::<GrammarView>::empty());
    let g6 = Grammar::sequence_with(g4, g5, ParseMode::Strict);
    let g7: Vec<Grammar> = vec![g6];
    assert(views(g7@) =~~= seq![GrammarView::Sequence { elements: seq![GrammarView::Keyword { word: "USING"@ }, GrammarView::Delimited { elements: seq![GrammarView::Ref { name: "LiteralGrammar"@, optional: false }], allow_trailing: false, delimiter: None, terminators: seq![], allow_gaps: true }], terminators: seq![], parse_mode: ParseMode::Strict }]);
    let g8: Vec<Grammar> = Vec::new();
    assert(views(g8@) =~= Seq::<GrammarView>::empty());
    let g9 = Grammar::one_of_with(g7, g8);
    let g10 = g9.optional();
    let g11: Vec<Grammar> = vec![Grammar::keyword("EXECUTE"), Grammar::reference("TableReferenceSegment"), g10];
    assert(views(g11@) =~~= seq![GrammarView::Keyword { word: "EXECUTE"@ }, GrammarView::Ref { name: "TableReferenceSegment"@, optional: false }, GrammarView::Optional { grammar: Box::new(GrammarView::OneOf { elements: seq![GrammarView::Sequence { elements: seq![GrammarView::Keyword { word: "USING"@ }, GrammarView::Delimited { elements: seq![GrammarView::Ref { name: "LiteralGrammar"@, optional: false }], allow_trailing: false, delimiter: None, terminators: seq![], allow_gaps: true }], terminators: seq![], parse_mode: ParseMode::Strict }], terminators: seq![] }) }]);
    let g12: Vec<Grammar> = Vec::new();
    assert(views(g12@) =~= Seq::<GrammarView>::empty());
    let g13 = Grammar::sequence_with(g11, g12, ParseMode::Strict);
    Element::Node { kind: "execute_statement", grammar: g13 }
}

/// The Athena element `IntervalExpressionSegment`.
pub open spec fn interval_expression_segment_element() -> ElementView {
    ElementView::Node { kind: "interval_expression"@, grammar: GrammarView::Sequence { elements: seq![GrammarView::Optional { grammar: Box::new(GrammarView::Keyword { word: "INTERVAL"@ }) }, GrammarView::OneOf { elements: seq![GrammarView::Sequence { elements: seq![GrammarView::OneOf { elements: seq![GrammarView::Ref { name: "QuotedLiteralSegment"@, optional: false }, GrammarView::Ref { name: "NumericLiteralSegment"@, optional: false }, GrammarView::Bracketed { elements: seq![GrammarView::Ref { name: "ExpressionSegment"@, optional: false }], bracket_type: "round"@ }], terminators: seq![] }, GrammarView::Ref { name: "DatetimeUnitSegment"@, optional: false }, GrammarView::Optional { grammar: Box::new(GrammarView::Sequence { elements: seq![GrammarView::Keyword { word: "TO"@ }, GrammarView::Ref { name: "DatetimeUnitSegment"@, optional: false }], terminators: seq![], parse_mode: ParseMode::Strict }) }], terminators: seq![], parse_mode: ParseMode::Strict }], terminators: seq![] }], terminators: seq![], parse_mode: ParseMode::Strict } }
}

fn build_interval_expression_segment() -> (e: Element)
    ensures
        e@ =~~= interval_expression_segment_element(),
{
    let g1 = Grammar::keyword("INTERVAL").optional();
    let g2: Vec<Grammar> = vec![Grammar::reference("ExpressionSegment")];
    assert(views(g2@) =~~= seq![GrammarView::Ref { name: "ExpressionSegment"@, optional: false }]);
    let g3 = Grammar::bracketed_with(g2, "round");
    let g4: Vec<Grammar> = vec![Grammar::reference("QuotedLiteralSegment"), Grammar::reference("NumericLiteralSegment"), g3];
    assert(views(g4@) =~~= seq![GrammarView::Ref { name: "QuotedLiteralSegment"@, optional: false }, GrammarView::Ref { name: "NumericLiteralSegment"@, optional: false }, GrammarView::Bracketed { elements: seq![GrammarView::Ref { name: "ExpressionSegment"@, optional: false }], bracket_type: "round"@ }]);
    let g5: Vec<Grammar> = Vec::new();
    assert(views(g5@) =~= Seq::<GrammarView>::empty());
    let g6 = Grammar::one_of_with(g4, g5);
    let g7: Vec<Grammar> = vec![Grammar::keyword("TO"), Grammar::reference("DatetimeUnitSegment")];
    assert(views(g7@) =~~= seq![GrammarView::Keyword { word: "TO"@ }, GrammarView::Ref { name: "DatetimeUnitSegment"@, optional: false }]);
    let g8: Vec<Grammar> = Vec::new();
    assert(views(g8@) =~= Seq::<GrammarView>::empty());
    let g9 = Grammar::sequence_with(g7, g8, ParseMode::Strict);
    let g10 = g9.optional();
    let g11: Vec<Grammar> = vec![g6, Grammar::reference("DatetimeUnitSegment"), g10];
    assert(views(g11@) =~~= seq![GrammarView::OneOf { elements: seq![GrammarView::Ref { name: "QuotedLiteralSegment"@, optional: false }, GrammarView::Ref { name: "NumericLiteralSegment"@, optional: false }, GrammarView::Bracketed { elements: seq![GrammarView::Ref { name: "ExpressionSegment"@, optional: false }], bracket_type: "round"@ }], terminators: seq![] }, GrammarView::Ref { name: "DatetimeUnitSegment"@, optional: false }, GrammarView::Optional { grammar: Box::new(GrammarView::Sequence { elements: seq![GrammarView::Keyword { word: "TO"@ }, GrammarView::Ref { name: "DatetimeUnitSegment"@, optional: false }], terminators: seq![], parse_mode: ParseMode::Strict }) }]);
    let g12: Vec<Grammar> = Vec::new();
    assert(views(g12@) =~= Seq::<GrammarView>::empty());
    let g13 = Grammar::sequence_with(g11, g12, ParseMode::Strict);
    let g14: Vec<Grammar> = vec![g13];
    assert(views(g14@) =~~= seq![GrammarView::Sequence { elements: seq![GrammarView::OneOf { elements: seq![GrammarView::Ref { name: "QuotedLiteralSegment"@, optional: false }, GrammarView::Ref { name: "NumericLiteralSegment"@, optional: false }, GrammarView::Bracketed { elements: seq![GrammarView::Ref { name: "ExpressionSegment"@, optional: false }], bracket_type: "round"@ }], terminators: seq![] }, GrammarView::Ref { name: "DatetimeUnitSegment"@, optional: false }, GrammarView::Optional { grammar: Box::new(GrammarView::Sequence { elements: seq![GrammarView::Keyword { word: "TO"@ }, GrammarView::Ref { name: "DatetimeUnitSegment"@, optional: false }], terminators: seq![], parse_mode: ParseMode::Strict }) }], terminators: seq![], parse_mode: ParseMode::Strict }]);
    let g15: Vec<Grammar> = Vec::new();
    assert(views(g15@) =~= Seq::<GrammarView>::empty());
    let g16 = Grammar::one_of_with(g14, g15);
    let g17: Vec<Grammar> = vec![g1, g16];
    assert(views(g17@) =~~= seq![GrammarView::Optional { grammar: Box::new(GrammarView::Keyword { word: "INTERVAL"@ }) }, GrammarView::OneOf { elements: seq![GrammarView::Sequence { elements: seq![GrammarView::OneOf { elements: seq![GrammarView::Ref { name: "QuotedLiteralSegment"@, optional: false }, GrammarView::Ref { name: "NumericLiteralSegment"@, optional: false }, GrammarView::Bracketed { elements: seq![GrammarView::Ref { name: "ExpressionSegment"@, optional: false }], bracket_type: "round"@ }], terminators: seq![] }, GrammarView::Ref { name: "DatetimeUnitSegment"@, optional: false }, GrammarView::Optional { grammar: Box::new(GrammarView::Sequence { elements: seq![GrammarView::Keyword { word: "TO"@ }, GrammarView::Ref { name: "DatetimeUnitSegment"@, optional: false }], terminators: seq![], parse_mode: ParseMode::Strict }) }], terminators: seq![], parse_mode: ParseMode::Strict }], terminators: seq![] }]);
    let g18: Vec<Grammar> = Vec::new();
    assert(views(g18@) =~= Seq::<GrammarView>::empty());
    let g19 = Grammar::sequence_with(g17, g18, ParseMode::Strict);
    Element::Node { kind: "interval_expression", grammar: g19 }
}

/// The Athena element `AlterTableDropColumnGrammar`.
pub open spec fn alter_table_drop_column_grammar_element() -> ElementView {
    ElementView::Grammar(GrammarView::Sequence { elements: seq![GrammarView::Keyword { word: "DROP"@ }, GrammarView::Keyword { word: "COLUMN"@ }, GrammarView::Ref { name: "SingleIdentifierGrammar"@, optional: false }], terminators: seq![], parse_mode: ParseMode::Strict })
}

fn build_alter_table_drop_column_grammar() -> (e: Element)
    ensures
        e@ =~~= alter_table_drop_column_grammar_element(),
{
    let g1: Vec<Grammar> = vec![Grammar::keyword("DROP"), Grammar::keyword("COLUMN"), Grammar::reference("SingleIdentifierGrammar")];
    assert(views(g1@) =~~= seq![GrammarView::Keyword { word: "DROP"@ }, GrammarView::Keyword { word: "COLUMN"@ }, GrammarView::Ref { name: "SingleIdentifierGrammar"@, optional: false }]);
    let g2: Vec<Grammar> = Vec::new();
    assert(views(g2@) =~= Seq::<GrammarView>::empty());
    let g3 = Grammar::sequence_with(g1, g2, ParseMode::Strict);
    Element::Grammar(g3)
}

/// The Athena element `ShowStatementSegment`.
pub open spec fn show_statement_segment_element() -> ElementView {
    ElementView::Node { kind: "show_statement"@, grammar: GrammarView::Sequence { elements: seq![GrammarView::Keyword { word: "SHOW"@ }, GrammarView::OneOf { elements: seq![GrammarView::Sequence { elements: seq![GrammarView::Keyword { word: "COLUMNS"@ }, GrammarView::OneOf { elements: seq![GrammarView::Keyword { word: "FROM"@ }, GrammarView::Keyword { word: "IN"@ }], terminators: seq![] }, GrammarView::OneOf { elements: seq![GrammarView::Sequence { elements: seq![GrammarView::Ref { name: "DatabaseReferenceSegment"@, optional: false }, GrammarView::Ref { name: "TableReferenceSegment"@, optional: false }], terminators: seq![], parse_mode: ParseMode::Strict }, GrammarView::Sequence { elements: seq![GrammarView::Ref { name: "TableReferenceSegment"@, optional: false }, GrammarView::Optional { grammar: Box::new(GrammarView::Sequence { elements: seq![GrammarView::OneOf { elements: seq![GrammarView::Keyword { word: "FROM"@ }, GrammarView::Keyword { word: "IN"@ }], terminators: seq![] }, GrammarView::Ref { name: "DatabaseReferenceSegment"@, optional: false }], terminators: seq![], parse_mode: ParseMode::Strict }) }], terminators: seq![], parse_mode: ParseMode::Strict }], terminators: seq![] }], terminators: seq![], parse_mode: ParseMode::Strict }, GrammarView::Sequence { elements: seq![GrammarView::Keyword { word: "CREATE"@ }, GrammarView::OneOf { elements: seq![GrammarView::Keyword { word: "TABLE"@ }, GrammarView::Keyword { word: "VIEW"@ }], terminators: seq![] }, GrammarView::Ref { name: "TableReferenceSegment"@, optional: false }], terminators: seq![], parse_mode: ParseMode::Strict }, GrammarView::Sequence { elements: seq![GrammarView::OneOf { elements: seq![GrammarView::Keyword { word: "DATABASES"@ }, GrammarView::Keyword { word: "SCHEMAS"@ }], terminators: seq![] }, GrammarView::Optional { grammar: Box::new(GrammarView::Sequence { elements: seq![GrammarView::Keyword { word: "LIKE"@ }, GrammarView::Ref { name: "QuotedLiteralSegment"@, optional: false }], terminators: seq![], parse_mode: ParseMode::Strict }) }], terminators: seq![], parse_mode: ParseMode::Strict }, GrammarView::Sequence { elements: seq![GrammarView::Keyword { word: "PARTITIONS"@ }, GrammarView::Ref { name: "TableReferenceSegment"@, optional: false }], terminators: seq![], parse_mode: ParseMode::Strict }, GrammarView::Sequence { elements: seq![GrammarView::Keyword { word: "TABLES"@ }, GrammarView::Optional { grammar: Box::new(GrammarView::Sequence { elements: seq![GrammarView::Keyword { word: "IN"@ }, GrammarView::Ref { name: "DatabaseReferenceSegment"@, optional: false }], terminators: seq![], parse_mode: ParseMode::Strict }) }, GrammarView::Ref { name: "QuotedLiteralSegment"@, optional: true }], terminators: seq![], parse_mode: ParseMode::Strict }, GrammarView::Sequence { elements: seq![GrammarView::Keyword { word: "TBLPROPERTIES"@ }, GrammarView::Ref { name: "TableReferenceSegment"@, optional: false }, GrammarView::Optional { grammar: Box::new(GrammarView::Bracketed { elements: seq![GrammarView::Ref { name: "QuotedLiteralSegment"@, optional: false }], bracket_type: "round"@ }) }], terminators: seq![], parse_mode: ParseMode::Strict }, GrammarView::Sequence { elements: seq![GrammarView::Keyword { word: "VIEWS"@ }, GrammarView::Optional { grammar: Box::new(GrammarView::Sequence { elements: seq![GrammarView::Keyword { word: "IN"@ }, GrammarView::Ref { name: "DatabaseReferenceSegment"@, optional: false }], terminators: seq![], parse_mode: ParseMode::Strict }) }, GrammarView::Optional { grammar: Box::new(GrammarView::Sequence { elements: seq![GrammarView::Keyword { word: "LIKE"@ }, GrammarView::Ref { name: "QuotedLiteralSegment"@, optional: false }], terminators: seq![], parse_mode: ParseMode::Strict }) }], terminators: seq![], parse_mode: ParseMode::Strict }], terminators: seq![] }], terminators: seq![], parse_mode: ParseMode::Strict } }
}

#[verifier::rlimit(100)]
fn build_show_statement_segment() -> (e: Element)
    ensures
        e@ =~~= show_statement_segment_element(),
{
    let g1: Vec<Grammar> = vec![Grammar::keyword("FROM"), Grammar::keyword("IN")];
    assert(views(g1@) =~~= seq![GrammarView::Keyword { word: "FROM"@ }, GrammarView::Keyword { word: "IN"@ }]);
    let g2: Vec<Grammar> = Vec::new();
    assert(views(g2@) =~= Seq::<GrammarView>::empty());
    let g3 = Grammar::one_of_with(g1, g2);
    let g4: Vec<Grammar> = vec![Grammar::reference("DatabaseReferenceSegment"), Grammar::reference("TableReferenceSegment")];
    assert(views(g4@) =~~= seq![GrammarView::Ref { name: "DatabaseReferenceSegment"@, optional: false }, GrammarView::Ref { name: "TableReferenceSegment"@, optional: false }]);
    let g5: Vec<Grammar> = Vec::new();
    assert(views(g5@) =~= Seq::<GrammarView>::empty());
    let g6 = Grammar::sequence_with(g4, g5, ParseMode::Strict);
    let g7: Vec<Grammar> = vec![Grammar::keyword("FROM"), Grammar::keyword("IN")];
    assert(views(g7@) =~~= seq![GrammarView::Keyword { word: "FROM"@ }, GrammarView::Keyword { word: "IN"@ }]);
    let g8: Vec<Grammar> = Vec::new();
    assert(views(g8@) =~= Seq::<GrammarView>::empty());
    let g9 = Grammar::one_of_with(g7, g8);
    let g10: Vec<Grammar> = vec![g9, Grammar::reference("DatabaseReferenceSegment")];
    assert(views(g10@) =~~= seq![GrammarView::OneOf { elements: seq![GrammarView::Keyword { word: "FROM"@ }, GrammarView::Keyword { word: "IN"@ }], terminators: seq![] }, GrammarView::Ref { name: "DatabaseReferenceSegment"@, optional: false }]);
    let g11: Vec<Grammar> = Vec::new();
    assert(views(g11@) =~= Seq::<GrammarView>::empty());
    let g12 = Grammar::sequence_with(g10, g11, ParseMode::Strict);
    let g13 = g12.optional();
    let g14: Vec<Grammar> = vec![Grammar::reference("TableReferenceSegment"), g13];
    assert(views(g14@) =~~= seq![GrammarView::Ref { name: "TableReferenceSegment"@, optional: false }, GrammarView::Optional { grammar: Box::new(GrammarView::Sequence { elements: seq![GrammarView::OneOf { elements: seq![GrammarView::Keyword { word: "FROM"@ }, GrammarView::Keyword { word: "IN"@ }], terminators: seq![] }, GrammarView::Ref { name: "DatabaseReferenceSegment"@, optional: false }], terminators: seq![], parse_mode: ParseMode::Strict }) }]);
    let g15: Vec<Grammar> = Vec::new();
    assert(views(g15@) =~= Seq::<GrammarView>::empty());
    let g16 = Grammar::sequence_with(g14, g15, ParseMode::Strict);
    let g17: Vec<Grammar> = vec![g6, g16];
    assert(views(g17@) =~~= seq![GrammarView::Sequence { elements: seq![GrammarView::Ref { name: "DatabaseReferenceSegment"@, optional: false }, GrammarView::Ref { name: "TableReferenceSegment"@, optional: false }], terminators: seq![], parse_mode: ParseMode::Strict }, GrammarView::Sequence { elements: seq![GrammarView::Ref { name: "TableReferenceSegment"@, optional: false }, GrammarView::Optional { grammar: Box::new(GrammarView::Sequence { elements: seq![GrammarView::OneOf { elements: seq![GrammarView::Keyword { word: "FROM"@ }, GrammarView::Keyword { word: "IN"@ }], terminators: seq![] }, GrammarView::Ref { name: "DatabaseReferenceSegment"@, optional: false }], terminators: seq![], parse_mode: ParseMode::Strict }) }], terminators: seq![], parse_mode: ParseMode::Strict }]);
    let g18: Vec<Grammar> = Vec::new();
    assert(views(g18@) =~= Seq::<GrammarView>::empty());
    let g19 = Grammar::one_of_with(g17, g18);
    let g20: Vec<Grammar> = vec![Grammar::keyword("COLUMNS"), g3, g19];
    assert(views(g20@) =~~= seq![GrammarView::Keyword { word: "COLUMNS"@ }, GrammarView::OneOf { elements: seq![GrammarView::Keyword { word: "FROM"@ }, GrammarView::Keyword { word: "IN"@ }], terminators: seq![] }, GrammarView::OneOf { elements: seq![GrammarView::Sequence { elements: seq![GrammarView::Ref { name: "DatabaseReferenceSegment"@, optional: false }, GrammarView::Ref { name: "TableReferenceSegment"@, optional: false }], terminators: seq![], parse_mode: ParseMode::Strict }, GrammarView::Sequence { elements: seq![GrammarView::Ref { name: "TableReferenceSegment"@, optional: false }, GrammarView::Optional { grammar: Box::new(GrammarView::Sequence { elements: seq![GrammarView::OneOf { elements: seq![GrammarView::Keyword { word: "FROM"@ }, GrammarView::Keyword { word: "IN"@ }], terminators: seq![] }, GrammarView::Ref { name: "DatabaseReferenceSegment"@, optional: false }], terminators: seq![], parse_mode: ParseMode::Strict }) }], terminators: seq![], parse_mode: ParseMode::Strict }], terminators: seq![] }]);
    let g21: Vec<Grammar> = Vec::new();
    assert(views(g21@) =~= Seq::<GrammarView>::empty());
    let g22 = Grammar::sequence_with(g20, g21, ParseMode::Strict);
    let g23: Vec<Grammar> = vec![Grammar::keyword("TABLE"), Grammar::keyword("VIEW")];
    assert(views(g23@) =~~= seq![GrammarView::Keyword { word: "TABLE"@ }, GrammarView::Keyword { word: "VIEW"@ }]);
    let g24: Vec<Grammar> = Vec::new();
    assert(views(g24@) =~= Seq::<GrammarView>::empty());
    let g25 = Grammar::one_of_with(g23, g24);
    let g26: Vec<Grammar> = vec![Grammar::keyword("CREATE"), g25, Grammar::reference("TableReferenceSegment")];
    assert(views(g26@) =~~= seq![GrammarView::Keyword { word: "CREATE"@ }, GrammarView::OneOf { elements: seq![GrammarView::Keyword { word: "TABLE"@ }, GrammarView::Keyword { word: "VIEW"@ }], terminators: seq![] }, GrammarView::Ref { name: "TableReferenceSegment"@, optional: false }]);
    let g27: Vec<Grammar> = Vec::new();
    assert(views(g27@) =~= Seq::<GrammarView>::empty());
    let g28 = Grammar::sequence_with(g26, g27, ParseMode::Strict);
    let g29: Vec<Grammar> = vec![Grammar::keyword("DATABASES"), Grammar::keyword("SCHEMAS")];
    assert(views(g29@) =~~= seq![GrammarView::Keyword { word: "DATABASES"@ }, GrammarView::Keyword { word: "SCHEMAS"@ }]);
    let g30: Vec<Grammar> = Vec::new();
    assert(views(g30@) =~= Seq::<GrammarView>::empty());
    let g31 = Grammar::one_of_with(g29, g30);
    let g32: Vec<Grammar> = vec![Grammar::keyword("LIKE"), Grammar::reference("QuotedLiteralSegment")];
    assert(views(g32@) =~~= seq![GrammarView::Keyword { word: "LIKE"@ }, GrammarView::Ref { name: "QuotedLiteralSegment"@, optional: false }]);
    let g33: Vec<Grammar> = Vec::new();
    assert(views(g33@) =~= Seq::<GrammarView>::empty());
    let g34 = Grammar::sequence_with(g32, g33, ParseMode::Strict);
    let g35 = g34.optional();
    let g36: Vec<Grammar> = vec![g31, g35];
    assert(views(g36@) =~~= seq![GrammarView::OneOf { elements: seq![GrammarView::Keyword { word: "DATABASES"@ }, GrammarView::Keyword { word: "SCHEMAS"@ }], terminators: seq![] }, GrammarView::Optional { grammar: Box::new(GrammarView::Sequence { elements: seq![GrammarView::Keyword { word: "LIKE"@ }, GrammarView::Ref { name: "QuotedLiteralSegment"@, optional: false }], terminators: seq![], parse_mode: ParseMode::Strict }) }]);
    let g37: Vec<Grammar> = Vec::new();
    assert(views(g37@) =~= Seq::<GrammarView>::empty());
    let g38 = Grammar::sequence_with(g36, g37, ParseMode::Strict);
    let g39: Vec<Grammar> = vec![Grammar::keyword("PARTITIONS"), Grammar::reference("TableReferenceSegment")];
    assert(views(g39@) =~~= seq![GrammarView::Keyword { word: "PARTITIONS"@ }, GrammarView::Ref { name: "TableReferenceSegment"@, optional: false }]);
    let g40: Vec<Grammar> = Vec::new();
    assert(views(g40@) =~= Seq::<GrammarView>::empty());
    let g41 = Grammar::sequence_with(g39, g40, ParseMode::Strict);
    let g42: Vec<Grammar> = vec![Grammar::keyword("IN"), Grammar::reference("DatabaseReferenceSegment")];
    assert(views(g42@) =~~= seq![GrammarView::Keyword { word: "IN"@ }, GrammarView::Ref { name: "DatabaseReferenceSegment"@, optional: false }]);
    let g43: Vec<Grammar> = Vec::new();
    assert(views(g43@) =~= Seq::<GrammarView>::empty());
    let g44 = Grammar::sequence_with(g42, g43, ParseMode::Strict);
    let g45 = g44.optional();
    let g46: Vec<Grammar> = vec![Grammar::keyword("TABLES"), g45, Grammar::optional_reference("QuotedLiteralSegment")];
    assert(views(g46@) =~~= seq![GrammarView::Keyword { word: "TABLES"@ }, GrammarView::Optional { grammar: Box::new(GrammarView::Sequence { elements: seq![GrammarView::Keyword { word: "IN"@ }, GrammarView::Ref { name: "DatabaseReferenceSegment"@, optional: false }], terminators: seq![], parse_mode: ParseMode::Strict }) }, GrammarView::Ref { name: "QuotedLiteralSegment"@, optional: true }]);
    let g47: Vec<Grammar> = Vec::new();
    assert(views(g47@) =~= Seq::<GrammarView>::empty());
    let g48 = Grammar::sequence_with(g46, g47, ParseMode::Strict);
    let g49: Vec<Grammar> = vec![Grammar::reference("QuotedLiteralSegment")];
    assert(views(g49@) =~~= seq![GrammarView::Ref { name: "QuotedLiteralSegment"@, optional: false }]);
    let g50 = Grammar::bracketed_with(g49, "round");
    let g51 = g50.optional();
    let g52: Vec<Grammar> = vec![Grammar::keyword("TBLPROPERTIES"), Grammar::reference("TableReferenceSegment"), g51];
    assert(views(g52@) =~~= seq![GrammarView::Keyword { word: "TBLPROPERTIES"@ }, GrammarView::Ref { name: "TableReferenceSegment"@, optional: false }, GrammarView::Optional { grammar: Box::new(GrammarView::Bracketed { elements: seq![GrammarView::Ref { name: "QuotedLiteralSegment"@, optional: false }], bracket_type: "round"@ }) }]);
    let g53: Vec<Grammar> = Vec::new();
    assert(views(g53@) =~= Seq::<GrammarView>::empty());
    let g54 = Grammar::sequence_with(g52, g53, ParseMode::Strict);
    let g55: Vec<Grammar> = vec![Grammar::keyword("IN"), Grammar::reference("DatabaseReferenceSegment")];
    assert(views(g55@) =~~= seq![GrammarView::Keyword { word: "IN"@ }, GrammarView::Ref { name: "DatabaseReferenceSegment"@, optional: false }]);
    let g56: Vec<Grammar> = Vec::new();
    assert(views(g56@) =~= Seq::<GrammarView>::empty());
    let g57 = Grammar::sequence_with(g55, g56, ParseMode::Strict);
    let g58 = g57.optional();
    let g59: Vec<Grammar> = vec![Grammar::keyword("LIKE"), Grammar::reference("QuotedLiteralSegment")];
    assert(views(g59@) =~~= seq![GrammarView::Keyword { word: "LIKE"@ }, GrammarView::Ref { name: "QuotedLiteralSegment"@, optional: false }]);
    let g60: Vec<Grammar> = Vec::new();
    assert(views(g60@) =~= Seq::<GrammarView>::empty());
    let g61 = Grammar::sequence_with(g59, g60, ParseMode::Strict);
    let g62 = g61.optional();
    let g63: Vec<Grammar> = vec![Grammar::keyword("VIEWS"), g58, g62];
    assert(views(g63@) =~~= seq![GrammarView::Keyword { word: "VIEWS"@ }, GrammarView::Optional { grammar: Box::new(GrammarView::Sequence { elements: seq![GrammarView::Keyword { word: "IN"@ }, GrammarView::Ref { name: "DatabaseReferenceSegment"@, optional: false }], terminators: seq![], parse_mode: ParseMode::Strict }) }, GrammarView::Optional { grammar: Box::new(GrammarView::Sequence { elements: seq![GrammarView::Keyword { word: "LIKE"@ }, GrammarView::Ref { name: "QuotedLiteralSegment"@, optional: false }], terminators: seq![], parse_mode: ParseMode::Strict }) }]);
    let g64: Vec<Grammar> = Vec::new();
    assert(views(g64@) =~= Seq::<GrammarView>::empty());
    let g65 = Grammar::sequence_with(g63, g64, ParseMode::Strict);
    let g66: Vec<Grammar> = vec![g22, g28, g38, g41, g48, g54, g65];
    assert(views(g66@) =~~= seq![GrammarView::Sequence { elements: seq![GrammarView::Keyword { word: "COLUMNS"@ }, GrammarView::OneOf { elements: seq![GrammarView::Keyword { word: "FROM"@ }, GrammarView::Keyword { word: "IN"@ }], terminators: seq![] }, GrammarView::OneOf { elements: seq![GrammarView::Sequence { elements: seq![GrammarView::Ref { name: "DatabaseReferenceSegment"@, optional: false }, GrammarView::Ref { name: "TableReferenceSegment"@, optional: false }], terminators: seq![], parse_mode: ParseMode::Strict }, GrammarView::Sequence { elements: seq![GrammarView::Ref { name: "TableReferenceSegment"@, optional: false }, GrammarView::Optional { grammar: Box::new(GrammarView::Sequence { elements: seq![GrammarView::OneOf { elements: seq![GrammarView::Keyword { word: "FROM"@ }, GrammarView::Keyword { word: "IN"@ }], terminators: seq![] }, GrammarView::Ref { name: "DatabaseReferenceSegment"@, optional: false }], terminators: seq![], parse_mode: ParseMode::Strict }) }], terminators: seq![], parse_mode: ParseMode::Strict }], terminators: seq![] }], terminators: seq![], parse_mode: ParseMode::Strict }, GrammarView::Sequence { elements: seq![GrammarView::Keyword { word: "CREATE"@ }, GrammarView::OneOf { elements: seq![GrammarView::Keyword { word: "TABLE"@ }, GrammarView::Keyword { word: "VIEW"@ }], terminators: seq![] }, GrammarView::Ref { name: "TableReferenceSegment"@, optional: false }], terminators: seq![], parse_mode: ParseMode::Strict }, GrammarView::Sequence { elements: seq![GrammarView::OneOf { elements: seq![GrammarView::Keyword { word: "DATABASES"@ }, GrammarView::Keyword { word: "SCHEMAS"@ }], terminators: seq![] }, GrammarView::Optional { grammar: Box::new(GrammarView::Sequence { elements: seq![GrammarView::Keyword { word: "LIKE"@ }, GrammarView::Ref { name: "QuotedLiteralSegment"@, optional: false }], terminators: seq![], parse_mode: ParseMode::Strict }) }], terminators: seq![], parse_mode: ParseMode::Strict }, GrammarView::Sequence { elements: seq![GrammarView::Keyword { word: "PARTITIONS"@ }, GrammarView::Ref { name: "TableReferenceSegment"@, optional: false }], terminators: seq![], parse_mode: ParseMode::Strict }, GrammarView::Sequence { elements: seq![GrammarView::Keyword { word: "TABLES"@ }, GrammarView::Optional { grammar: Box::new(GrammarView::Sequence { elements: seq![GrammarView::Keyword { word: "IN"@ }, GrammarView::Ref { name: "DatabaseReferenceSegment"@, optional: false }], terminators: seq![], parse_mode: ParseMode::Strict }) }, GrammarView::Ref { name: "QuotedLiteralSegment"@, optional: true }], terminators: seq![], parse_mode: ParseMode::Strict }, GrammarView::Sequence { elements: seq![GrammarView::Keyword { word: "TBLPROPERTIES"@ }, GrammarView::Ref { name: "TableReferenceSegment"@, optional: false }, GrammarView::Optional { grammar: Box::new(GrammarView::Bracketed { elements: seq![GrammarView::Ref { name: "QuotedLiteralSegment"@, optional: false }], bracket_type: "round"@ }) }], terminators: seq![], parse_mode: ParseMode::Strict }, GrammarView::Sequence { elements: seq![GrammarView::Keyword { word: "VIEWS"@ }, GrammarView::Optional { grammar: Box::new(GrammarView::Sequence { elements: seq![GrammarView::Keyword { word: "IN"@ }, GrammarView::Ref { name: "DatabaseReferenceSegment"@, optional: false }], terminators: seq![], parse_mode: ParseMode::Strict }) }, GrammarView::Optional { grammar: Box::new(GrammarView::Sequence { elements: seq![GrammarView::Keyword { word: "LIKE"@ }, GrammarView::Ref { name: "QuotedLiteralSegment"@, optional: false }], terminators: seq![], parse_mode: ParseMode::Strict }) }], terminators: seq![], parse_mode: ParseMode::Strict }]);
    let g67: Vec<Grammar> = Vec::new();
    assert(views(g67@) =~= Seq::<GrammarView>::empty());
    let g68 = Grammar::one_of_with(g66, g67);
    let g69: Vec<Grammar> = vec![Grammar::keyword("SHOW"), g68];
    assert(views(g69@) =~~= seq![GrammarView::Keyword { word: "SHOW"@ }, GrammarView::OneOf { elements: seq![GrammarView::Sequence { elements: seq![GrammarView::Keyword { word: "COLUMNS"@ }, GrammarView::OneOf { elements: seq![GrammarView::Keyword { word: "FROM"@ }, GrammarView::Keyword { word: "IN"@ }], terminators: seq![] }, GrammarView::OneOf { elements: seq![GrammarView::Sequence { elements: seq![GrammarView::Ref { name: "DatabaseReferenceSegment"@, optional: false }, GrammarView::Ref { name: "TableReferenceSegment"@, optional: false }], terminators: seq![], parse_mode: ParseMode::Strict }, GrammarView::Sequence { elements: seq![GrammarView::Ref { name: "TableReferenceSegment"@, optional: false }, GrammarView::Optional { grammar: Box::new(GrammarView::Sequence { elements: seq![GrammarView::OneOf { elements: seq![GrammarView::Keyword { word: "FROM"@ }, GrammarView::Keyword { word: "IN"@ }], terminators: seq![] }, GrammarView::Ref { name: "DatabaseReferenceSegment"@, optional: false }], terminators: seq![], parse_mode: ParseMode::Strict }) }], terminators: seq![], parse_mode: ParseMode::Strict }], terminators: seq![] }], terminators: seq![], parse_mode: ParseMode::Strict }, GrammarView::Sequence { elements: seq![GrammarView::Keyword { word: "CREATE"@ }, GrammarView::OneOf { elements: seq![GrammarView::Keyword { word: "TABLE"@ }, GrammarView::Keyword { word: "VIEW"@ }], terminators: seq![] }, GrammarView::Ref { name: "TableReferenceSegment"@, optional: false }], terminators: seq![], parse_mode: ParseMode::Strict }, GrammarView::Sequence { elements: seq![GrammarView::OneOf { elements: seq![GrammarView::Keyword { word: "DATABASES"@ }, GrammarView::Keyword { word: "SCHEMAS"@ }], terminators: seq![] }, GrammarView::Optional { grammar: Box::new(GrammarView::Sequence { elements: seq![GrammarView::Keyword { word: "LIKE"@ }, GrammarView::Ref { name: "QuotedLiteralSegment"@, optional: false }], terminators: seq![], parse_mode: ParseMode::Strict }) }], terminators: seq![], parse_mode: ParseMode::Strict }, GrammarView::Sequence { elements: seq![GrammarView::Keyword { word: "PARTITIONS"@ }, GrammarView::Ref { name: "TableReferenceSegment"@, optional: false }], terminators: seq![], parse_mode: ParseMode::Strict }, GrammarView::Sequence { elements: seq![GrammarView::Keyword { word: "TABLES"@ }, GrammarView::Optional { grammar: Box::new(GrammarView::Sequence { elements: seq![GrammarView::Keyword { word: "IN"@ }, GrammarView::Ref { name: "DatabaseReferenceSegment"@, optional: false }], terminators: seq![], parse_mode: ParseMode::Strict }) }, GrammarView::Ref { name: "QuotedLiteralSegment"@, optional: true }], terminators: seq![], parse_mode: ParseMode::Strict }, GrammarView::Sequence { elements: seq![GrammarView::Keyword { word: "TBLPROPERTIES"@ }, GrammarView::Ref { name: "TableReferenceSegment"@, optional: false }, GrammarView::Optional { grammar: Box::new(GrammarView::Bracketed { elements: seq![GrammarView::Ref { name: "QuotedLiteralSegment"@, optional: false }], bracket_type: "round"@ }) }], terminators: seq![], parse_mode: ParseMode::Strict }, GrammarView::Sequence { elements: seq![GrammarView::Keyword { word: "VIEWS"@ }, GrammarView::Optional { grammar: Box::new(GrammarView::Sequence { elements: seq![GrammarView::Keyword { word: "IN"@ }, GrammarView::Ref { name: "DatabaseReferenceSegment"@, optional: false }], terminators: seq![], parse_mode: ParseMode::Strict }) }, GrammarView::Optional { grammar: Box::new(GrammarView::Sequence { elements: seq![GrammarView::Keyword { word: "LIKE"@ }, GrammarView::Ref { name: "QuotedLiteralSegment"@, optional: false }], terminators: seq![], parse_mode: ParseMode::Strict }) }], terminators: seq![], parse_mode: ParseMode::Strict }], terminators: seq![] }]);
    let g70: Vec<Grammar> = Vec::new();
    assert(views(g70@) =~= Seq::<GrammarView>::empty());
    let g71 = Grammar::sequence_with(g69, g70, ParseMode::Strict);
    Element::Node { kind: "show_statement", grammar: g71 }
}

/// Changes 1 to 20 of the Athena grammar changes.
pub open spec fn athena_changes_part_0(d: DialectView) -> DialectView {
    let d = d.with_element("StartAngleBracketSegment"@, start_angle_bracket_segment_element());
    let d = d.with_element("EndAngleBracketSegment"@, end_angle_bracket_segment_element());
    let d = d.with_element("RightArrowOperator"@, right_arrow_operator_element());
    let d = d.with_element("JSONFILE"@, j_s_o_n_f_i_l_e_element());
    let d = d.with_element("RCFILE"@, r_c_f_i_l_e_element());
    let d = d.with_element("ORC"@, o_r_c_element());
    let d = d.with_element("PARQUET"@, p_a_r_q_u_e_t_element());
    let d = d.with_element("AVRO"@, a_v_r_o_element());
    let d = d.with_element("ION"@, i_o_n_element());
    let d = d.with_element("SEQUENCEFILE"@, s_e_q_u_e_n_c_e_f_i_l_e_element());
    let d = d.with_element("TEXTFILE"@, t_e_x_t_f_i_l_e_element());
    let d = d.with_element("PropertyGrammar"@, property_grammar_element());
    let d = d.with_element("LocationGrammar"@, location_grammar_element());
    let d = d.with_element("BracketedPropertyListGrammar"@, bracketed_property_list_grammar_element());
    let d = d.with_element("CTASPropertyGrammar"@, c_t_a_s_property_grammar_element());
    let d = d.with_element("CTASIcebergPropertyGrammar"@, c_t_a_s_iceberg_property_grammar_element());
    let d = d.with_element("BracketedCTASPropertyGrammar"@, bracketed_c_t_a_s_property_grammar_element());
    let d = d.with_element("UnloadPropertyGrammar"@, unload_property_grammar_element());
    let d = d.with_element("BracketedUnloadPropertyGrammar"@, bracketed_unload_property_grammar_element());
    let d = d.with_element("TablePropertiesGrammar"@, table_properties_grammar_element());
    d
}

fn apply_athena_changes_part_0(d: &mut DialectModel)
    ensures
        final(d)@ == athena_changes_part_0(old(d)@),
{
    d.add("StartAngleBracketSegment", build_start_angle_bracket_segment());
    d.add("EndAngleBracketSegment", build_end_angle_bracket_segment());
    d.add("RightArrowOperator", build_right_arrow_operator());
    d.add("JSONFILE", build_j_s_o_n_f_i_l_e());
    d.add("RCFILE", build_r_c_f_i_l_e());
    d.add("ORC", build_o_r_c());
    d.add("PARQUET", build_p_a_r_q_u_e_t());
    d.add("AVRO", build_a_v_r_o());
    d.add("ION", build_i_o_n());
    d.add("SEQUENCEFILE", build_s_e_q_u_e_n_c_e_f_i_l_e());
    d.add("TEXTFILE", build_t_e_x_t_f_i_l_e());
    d.add("PropertyGrammar", build_property_grammar());
    d.add("LocationGrammar", build_location_grammar());
    d.add("BracketedPropertyListGrammar", build_bracketed_property_list_grammar());
    d.add("CTASPropertyGrammar", build_c_t_a_s_property_grammar());
    d.add("CTASIcebergPropertyGrammar", build_c_t_a_s_iceberg_property_grammar());
    d.add("BracketedCTASPropertyGrammar", build_bracketed_c_t_a_s_property_grammar());
    d.add("UnloadPropertyGrammar", build_unload_property_grammar());
    d.add("BracketedUnloadPropertyGrammar", build_bracketed_unload_property_grammar());
    d.add("TablePropertiesGrammar", build_table_properties_grammar());
}

/// Changes 21 to 40 of the Athena grammar changes.
pub open spec fn athena_changes_part_1(d: DialectView) -> DialectView {
    let d = d.with_element("SerdePropertiesGrammar"@, serde_properties_grammar_element());
    let d = d.with_element("TerminatedByGrammar"@, terminated_by_grammar_element());
    let d = d.with_element("FileFormatGrammar"@, file_format_grammar_element());
    let d = d.with_element("StoredAsGrammar"@, stored_as_grammar_element());
    let d = d.with_element("StoredByGrammar"@, stored_by_grammar_element());
    let d = d.with_element("StorageFormatGrammar"@, storage_format_grammar_element());
    let d = d.with_element("CommentGrammar"@, comment_grammar_element());
    let d = d.with_element("PartitionSpecGrammar"@, partition_spec_grammar_element());
    let d = d.with_element("BackQuotedIdentifierSegment"@, back_quoted_identifier_segment_element());
    let d = d.with_element("LiteralGrammar"@, literal_grammar_element());
    let d = d.with_element("AccessorGrammar"@, accessor_grammar_element());
    let d = d.with_element("QuotedLiteralSegment"@, quoted_literal_segment_element());
    let d = d.with_element("TrimParametersGrammar"@, trim_parameters_grammar_element());
    let d = d.with_element("NakedIdentifierSegment"@, naked_identifier_segment_element());
    let d = d.with_element("SingleIdentifierGrammar"@, single_identifier_grammar_element());
    let d = d.with_element("BinaryOperatorGrammar"@, binary_operator_grammar_element());
    let d = d.with_element("PostFunctionGrammar"@, post_function_grammar_element());
    let d = d.with_element("FunctionContentsGrammar"@, function_contents_grammar_element());
    let d = d.with_element("WithinGroupClauseSegment"@, within_group_clause_segment_element());
    let d = d.with_element("ListaggOverflowClauseSegment"@, listagg_overflow_clause_segment_element());
    d
}

fn apply_athena_changes_part_1(d: &mut DialectModel)
    ensures
        final(d)@ == athena_changes_part_1(old(d)@),
{
    d.add("SerdePropertiesGrammar", build_serde_properties_grammar());
    d.add("TerminatedByGrammar", build_terminated_by_grammar());
    d.add("FileFormatGrammar", build_file_format_grammar());
    d.add("StoredAsGrammar", build_stored_as_grammar());
    d.add("StoredByGrammar", build_stored_by_grammar());
    d.add("StorageFormatGrammar", build_storage_format_grammar());
    d.add("CommentGrammar", build_comment_grammar());
    d.add("PartitionSpecGrammar", build_partition_spec_grammar());
    d.add("BackQuotedIdentifierSegment", build_back_quoted_identifier_segment());
    d.add("LiteralGrammar", build_literal_grammar());
    d.add("AccessorGrammar", build_accessor_grammar());
    d.add("QuotedLiteralSegment", build_quoted_literal_segment());
    d.add("TrimParametersGrammar", build_trim_parameters_grammar());
    d.add("NakedIdentifierSegment", build_naked_identifier_segment());
    d.add("SingleIdentifierGrammar", build_single_identifier_grammar());
    d.add("BinaryOperatorGrammar", build_binary_operator_grammar());
    d.add("PostFunctionGrammar", build_post_function_grammar());
    d.add("FunctionContentsGrammar", build_function_contents_grammar());
    d.add("WithinGroupClauseSegment", build_within_group_clause_segment());
    d.add("ListaggOverflowClauseSegment", build_listagg_overflow_clause_segment());
}

/// Changes 41 to 58 of the Athena grammar changes.
pub open spec fn athena_changes_part_2(d: DialectView) -> DialectView {
    let d = d.with_element("ValuesClauseSegment"@, values_clause_segment_element());
    let d = d.with_grammar("ArrayTypeSegment"@, array_type_segment_grammar());
    let d = d.with_grammar("StructTypeSegment"@, struct_type_segment_grammar());
    let d = d.with_element("MapTypeSegment"@, map_type_segment_element());
    let d = d.with_grammar("StatementSegment"@, statement_segment_grammar());
    let d = d.with_element("PrimitiveTypeSegment"@, primitive_type_segment_element());
    let d = d.with_element("DatatypeSegment"@, datatype_segment_element());
    let d = d.with_grammar("GroupByClauseSegment"@, group_by_clause_segment_grammar());
    let d = d.with_element("CreateTableStatementSegment"@, create_table_statement_segment_element());
    let d = d.with_element("MsckRepairTableStatementSegment"@, msck_repair_table_statement_segment_element());
    let d = d.with_element("RowFormatClauseSegment"@, row_format_clause_segment_element());
    let d = d.with_element("InsertStatementSegment"@, insert_statement_segment_element());
    let d = d.with_element("UnloadStatementSegment"@, unload_statement_segment_element());
    let d = d.with_element("PrepareStatementSegment"@, prepare_statement_segment_element());
    let d = d.with_element("ExecuteStatementSegment"@, execute_statement_segment_element());
    let d = d.with_element("IntervalExpressionSegment"@, interval_expression_segment_element());
    let d = d.with_element("AlterTableDropColumnGrammar"@, alter_table_drop_column_grammar_element());
    let d = d.with_element("ShowStatementSegment"@, show_statement_segment_element());
    d
}

fn apply_athena_changes_part_2(d: &mut DialectModel)
    ensures
        final(d)@ == athena_changes_part_2(old(d)@),
{
    d.add("ValuesClauseSegment", build_values_clause_segment());
    d.replace_grammar("ArrayTypeSegment", build_array_type_segment());
    d.replace_grammar("StructTypeSegment", build_struct_type_segment());
    d.add("MapTypeSegment", build_map_type_segment());
    d.replace_grammar("StatementSegment", build_statement_segment());
    d.add("PrimitiveTypeSegment", build_primitive_type_segment());
    d.add("DatatypeSegment", build_datatype_segment());
    d.replace_grammar("GroupByClauseSegment", build_group_by_clause_segment());
    d.add("CreateTableStatementSegment", build_create_table_statement_segment());
    d.add("MsckRepairTableStatementSegment", build_msck_repair_table_statement_segment());
    d.add("RowFormatClauseSegment", build_row_format_clause_segment());
    d.add("InsertStatementSegment", build_insert_statement_segment());
    d.add("UnloadStatementSegment", build_unload_statement_segment());
    d.add("PrepareStatementSegment", build_prepare_statement_segment());
    d.add("ExecuteStatementSegment", build_execute_statement_segment());
    d.add("IntervalExpressionSegment", build_interval_expression_segment());
    d.add("AlterTableDropColumnGrammar", build_alter_table_drop_column_grammar());
    d.add("ShowStatementSegment", build_show_statement_segment());
}

/// The Athena grammar changes, in order (opaque: `reveal(athena_grammar_changes)` shows its parts).
#[verifier::opaque]
pub open spec fn athena_grammar_changes(d: DialectView) -> DialectView {
    athena_changes_part_2(athena_changes_part_1(athena_changes_part_0(d)))
}

/// Applies the Athena grammar changes to `d`.
pub fn apply_athena_grammar_changes(d: &mut DialectModel)
    ensures
        final(d)@ == athena_grammar_changes(old(d)@),
{
    apply_athena_changes_part_0(d);
    apply_athena_changes_part_1(d);
    apply_athena_changes_part_2(d);
    proof {
        reveal(athena_grammar_changes);
    }
}

proof fn lemma_athena_part_0_sets_location_grammar(d: DialectView)
    ensures
        athena_changes_part_0(d).element("LocationGrammar"@) == Some(location_grammar_element()),
{
    reveal_strlit("LocationGrammar");
    reveal_strlit("BracketedCTASPropertyGrammar");
    assert("LocationGrammar"@.len() != "BracketedCTASPropertyGrammar"@.len());
    reveal_strlit("BracketedPropertyListGrammar");
    assert("LocationGrammar"@.len() != "BracketedPropertyListGrammar"@.len());
    reveal_strlit("BracketedUnloadPropertyGrammar");
    assert("LocationGrammar"@.len() != "BracketedUnloadPropertyGrammar"@.len());
    reveal_strlit("CTASIcebergPropertyGrammar");
    assert("LocationGrammar"@.len() != "CTASIcebergPropertyGrammar"@.len());
    reveal_strlit("CTASPropertyGrammar");
    assert("LocationGrammar"@.len() != "CTASPropertyGrammar"@.len());
    reveal_strlit("TablePropertiesGrammar");
    assert("LocationGrammar"@.len() != "TablePropertiesGrammar"@.len());
    reveal_strlit("UnloadPropertyGrammar");
    assert("LocationGrammar"@.len() != "UnloadPropertyGrammar"@.len());
}

proof fn lemma_athena_part_1_keeps_location_grammar(d: DialectView)
    ensures
        athena_changes_part_1(d).element("LocationGrammar"@) == d.element("LocationGrammar"@),
{
    reveal_strlit("LocationGrammar");
    reveal_strlit("AccessorGrammar");
    assert("LocationGrammar"@[0] != "AccessorGrammar"@[0]);
    reveal_strlit("BackQuotedIdentifierSegment");
    assert("LocationGrammar"@.len() != "BackQuotedIdentifierSegment"@.len());
    reveal_strlit("BinaryOperatorGrammar");
    assert("LocationGrammar"@.len() != "BinaryOperatorGrammar"@.len());
    reveal_strlit("CommentGrammar");
    assert("LocationGrammar"@.len() != "CommentGrammar"@.len());
    reveal_strlit("FileFormatGrammar");
    assert("LocationGrammar"@.len() != "FileFormatGrammar"@.len());
    reveal_strlit("FunctionContentsGrammar");
    assert("LocationGrammar"@.len() != "FunctionContentsGrammar"@.len());
    reveal_strlit("ListaggOverflowClauseSegment");
    assert("LocationGrammar"@.len() != "ListaggOverflowClauseSegment"@.len());
    reveal_strlit("LiteralGrammar");
    assert("LocationGrammar"@.len() != "LiteralGrammar"@.len());
    reveal_strlit("NakedIdentifierSegment");
    assert("LocationGrammar"@.len() != "NakedIdentifierSegment"@.len());
    reveal_strlit("PartitionSpecGrammar");
    assert("LocationGrammar"@.len() != "PartitionSpecGrammar"@.len());
    reveal_strlit("PostFunctionGrammar");
    assert("LocationGrammar"@.len() != "PostFunctionGrammar"@.len());
    reveal_strlit("QuotedLiteralSegment");
    assert("LocationGrammar"@.len() != "QuotedLiteralSegment"@.len());
    reveal_strlit("SerdePropertiesGrammar");
    assert("LocationGrammar"@.len() != "SerdePropertiesGrammar"@.len());
    reveal_strlit("SingleIdentifierGrammar");
    assert("LocationGrammar"@.len() != "SingleIdentifierGrammar"@.len());
    reveal_strlit("StorageFormatGrammar");
    assert("LocationGrammar"@.len() != "StorageFormatGrammar"@.len());
    reveal_strlit("StoredAsGrammar");
    assert("LocationGrammar"@[0] != "StoredAsGrammar"@[0]);
    reveal_strlit("StoredByGrammar");
    assert("LocationGrammar"@[0] != "StoredByGrammar"@[0]);
    reveal_strlit("TerminatedByGrammar");
    assert("LocationGrammar"@.len() != "TerminatedByGrammar"@.len());
    reveal_strlit("TrimParametersGrammar");
    assert("LocationGrammar"@.len() != "TrimParametersGrammar"@.len());
    reveal_strlit("WithinGroupClauseSegment");
    assert("LocationGrammar"@.len() != "WithinGroupClauseSegment"@.len());
}

proof fn lemma_athena_part_2_keeps_location_grammar(d: DialectView)
    ensures
        athena_changes_part_2(d).element("LocationGrammar"@) == d.element("LocationGrammar"@),
{
    reveal_strlit("LocationGrammar");
    reveal_strlit("AlterTableDropColumnGrammar");
    assert("LocationGrammar"@.len() != "AlterTableDropColumnGrammar"@.len());
    reveal_strlit("ArrayTypeSegment");
    assert("LocationGrammar"@.len() != "ArrayTypeSegment"@.len());
    reveal_strlit("CreateTableStatementSegment");
    assert("LocationGrammar"@.len() != "CreateTableStatementSegment"@.len());
    reveal_strlit("DatatypeSegment");
    assert("LocationGrammar"@[0] != "DatatypeSegment"@[0]);
    reveal_strlit("ExecuteStatementSegment");
    assert("LocationGrammar"@.len() != "ExecuteStatementSegment"@.len());
    reveal_strlit("GroupByClauseSegment");
    assert("LocationGrammar"@.len() != "GroupByClauseSegment"@.len());
    reveal_strlit("InsertStatementSegment");
    assert("LocationGrammar"@.len() != "InsertStatementSegment"@.len());
    reveal_strlit("IntervalExpressionSegment");
    assert("LocationGrammar"@.len() != "IntervalExpressionSegment"@.len());
    reveal_strlit("MapTypeSegment");
    assert("LocationGrammar"@.len() != "MapTypeSegment"@.len());
    reveal_strlit("MsckRepairTableStatementSegment");
    assert("LocationGrammar"@.len() != "MsckRepairTableStatementSegment"@.len());
    reveal_strlit("PrepareStatementSegment");
    assert("LocationGrammar"@.len() != "PrepareStatementSegment"@.len());
    reveal_strlit("PrimitiveTypeSegment");
    assert("LocationGrammar"@.len() != "PrimitiveTypeSegment"@.len());
    reveal_strlit("RowFormatClauseSegment");
    assert("LocationGrammar"@.len() != "RowFormatClauseSegment"@.len());
    reveal_strlit("ShowStatementSegment");
    assert("LocationGrammar"@.len() != "ShowStatementSegment"@.len());
    reveal_strlit("StatementSegment");
    assert("LocationGrammar"@.len() != "StatementSegment"@.len());
    reveal_strlit("StructTypeSegment");
    assert("LocationGrammar"@.len() != "StructTypeSegment"@.len());
    reveal_strlit("UnloadStatementSegment");
    assert("LocationGrammar"@.len() != "UnloadStatementSegment"@.len());
    reveal_strlit("ValuesClauseSegment");
    assert("LocationGrammar"@.len() != "ValuesClauseSegment"@.len());
}

/// After the Athena grammar changes, `LocationGrammar` is what their last change of that
/// name sets, whatever dialect they start from.
pub proof fn lemma_athena_changes_location_grammar(d: DialectView)
    ensures
        athena_grammar_changes(d).element("LocationGrammar"@) == Some(location_grammar_element()),
{
    reveal(athena_grammar_changes);
    let d0 = d;
    let d1 = athena_changes_part_0(d0);
    let d2 = athena_changes_part_1(d1);
    let d3 = athena_changes_part_2(d2);
    lemma_athena_part_0_sets_location_grammar(d0);
    lemma_athena_part_1_keeps_location_grammar(d1);
    lemma_athena_part_2_keeps_location_grammar(d2);
}


/// The Athena grammar changes make `LocationGrammar` the grammar `LOCATION`
/// and a quoted literal; whatever dialect they start from.
pub proof fn law_athena_location(d: DialectView)
    ensures
        ({
            let e = ElementView::Grammar(GrammarView::sequence(seq![GrammarView::keyword("LOCATION"@), GrammarView::reference("QuotedLiteralSegment"@)]));
            &&& athena_grammar_changes(d).element("LocationGrammar"@) == Some(e)
        }),
{
    lemma_athena_changes_location_grammar(d);
}

proof fn lemma_athena_part_1_sets_stored_as_grammar(d: DialectView)
    ensures
        athena_changes_part_1(d).element("StoredAsGrammar"@) == Some(stored_as_grammar_element()),
{
    reveal_strlit("StoredAsGrammar");
    reveal_strlit("AccessorGrammar");
    assert("StoredAsGrammar"@[0] != "AccessorGrammar"@[0]);
    reveal_strlit("BackQuotedIdentifierSegment");
    assert("StoredAsGrammar"@.len() != "BackQuotedIdentifierSegment"@.len());
    reveal_strlit("BinaryOperatorGrammar");
    assert("StoredAsGrammar"@.len() != "BinaryOperatorGrammar"@.len());
    reveal_strlit("CommentGrammar");
    assert("StoredAsGrammar"@.len() != "CommentGrammar"@.len());
    reveal_strlit("FunctionContentsGrammar");
    assert("StoredAsGrammar"@.len() != "FunctionContentsGrammar"@.len());
    reveal_strlit("ListaggOverflowClauseSegment");
    assert("StoredAsGrammar"@.len() != "ListaggOverflowClauseSegment"@.len());
    reveal_strlit("LiteralGrammar");
    assert("StoredAsGrammar"@.len() != "LiteralGrammar"@.len());
    reveal_strlit("NakedIdentifierSegment");
    assert("StoredAsGrammar"@.len() != "NakedIdentifierSegment"@.len());
    reveal_strlit("PartitionSpecGrammar");
    assert("StoredAsGrammar"@.len() != "PartitionSpecGrammar"@.len());
    reveal_strlit("PostFunctionGrammar");
    assert("StoredAsGrammar"@.len() != "PostFunctionGrammar"@.len());
    reveal_strlit("QuotedLiteralSegment");
    assert("StoredAsGrammar"@.len() != "QuotedLiteralSegment"@.len());
    reveal_strlit("SingleIdentifierGrammar");
    assert("StoredAsGrammar"@.len() != "SingleIdentifierGrammar"@.len());
    reveal_strlit("StorageFormatGrammar");
    assert("StoredAsGrammar"@.len() != "StorageFormatGrammar"@.len());
    reveal_strlit("StoredByGrammar");
    assert("StoredAsGrammar"@[6] != "StoredByGrammar"@[6]);
    reveal_strlit("TrimParametersGrammar");
    assert("StoredAsGrammar"@.len() != "TrimParametersGrammar"@.len());
    reveal_strlit("WithinGroupClauseSegment");
    assert("StoredAsGrammar"@.len() != "WithinGroupClauseSegment"@.len());
}

proof fn lemma_athena_part_2_keeps_stored_as_grammar(d: DialectView)
    ensures
        athena_changes_part_2(d).element("StoredAsGrammar"@) == d.element("StoredAsGrammar"@),
{
    reveal_strlit("StoredAsGrammar");
    reveal_strlit("AlterTableDropColumnGrammar");
    assert("StoredAsGrammar"@.len() != "AlterTableDropColumnGrammar"@.len());
    reveal_strlit("ArrayTypeSegment");
    assert("StoredAsGrammar"@.len() != "ArrayTypeSegment"@.len());
    reveal_strlit("CreateTableStatementSegment");
    assert("StoredAsGrammar"@.len() != "CreateTableStatementSegment"@.len());
    reveal_strlit("DatatypeSegment");
    assert("StoredAsGrammar"@[0] != "DatatypeSegment"@[0]);
    reveal_strlit("ExecuteStatementSegment");
    assert("StoredAsGrammar"@.len() != "ExecuteStatementSegment"@.len());
    reveal_strlit("GroupByClauseSegment");
    assert("StoredAsGrammar"@.len() != "GroupByClauseSegment"@.len());
    reveal_strlit("InsertStatementSegment");
    assert("StoredAsGrammar"@.len() != "InsertStatementSegment"@.len());
    reveal_strlit("IntervalExpressionSegment");
    assert("StoredAsGrammar"@.len() != "IntervalExpressionSegment"@.len());
    reveal_strlit("MapTypeSegment");
    assert("StoredAsGrammar"@.len() != "MapTypeSegment"@.len());
    reveal_strlit("MsckRepairTableStatementSegment");
    assert("StoredAsGrammar"@.len() != "MsckRepairTableStatementSegment"@.len());
    reveal_strlit("PrepareStatementSegment");
    assert("StoredAsGrammar"@.len() != "PrepareStatementSegment"@.len());
    reveal_strlit("PrimitiveTypeSegment");
    assert("StoredAsGrammar"@.len() != "PrimitiveTypeSegment"@.len());
    reveal_strlit("RowFormatClauseSegment");
    assert("StoredAsGrammar"@.len() != "RowFormatClauseSegment"@.len());
    reveal_strlit("ShowStatementSegment");
    assert("StoredAsGrammar"@.len() != "ShowStatementSegment"@.len());
    reveal_strlit("StatementSegment");
    assert("StoredAsGrammar"@.len() != "StatementSegment"@.len());
    reveal_strlit("StructTypeSegment");
    assert("StoredAsGrammar"@.len() != "StructTypeSegment"@.len());
    reveal_strlit("UnloadStatementSegment");
    assert("StoredAsGrammar"@.len() != "UnloadStatementSegment"@.len());
    reveal_strlit("ValuesClauseSegment");
    assert("StoredAsGrammar"@.len() != "ValuesClauseSegment"@.len());
}

/// After the Athena grammar changes, `StoredAsGrammar` is what their last change of that
/// name sets, whatever dialect they start from.
pub proof fn lemma_athena_changes_stored_as_grammar(d: DialectView)
    ensures
        athena_grammar_changes(d).element("StoredAsGrammar"@) == Some(stored_as_grammar_element()),
{
    reveal(athena_grammar_changes);
    let d0 = d;
    let d1 = athena_changes_part_0(d0);
    let d2 = athena_changes_part_1(d1);
    let d3 = athena_changes_part_2(d2);
    lemma_athena_part_1_sets_stored_as_grammar(d1);
    lemma_athena_part_2_keeps_stored_as_grammar(d2);
}


/// The Athena grammar changes make `StoredAsGrammar` the grammar `STORED AS`
/// and a file format; whatever dialect they start from.
pub proof fn law_athena_stored_as(d: DialectView)
    ensures
        ({
            let e = ElementView::Grammar(GrammarView::sequence(seq![GrammarView::keyword("STORED"@), GrammarView::keyword("AS"@), GrammarView::reference("FileFormatGrammar"@)]));
            &&& athena_grammar_changes(d).element("StoredAsGrammar"@) == Some(e)
        }),
{
    lemma_athena_changes_stored_as_grammar(d);
}

proof fn lemma_athena_part_1_sets_terminated_by_grammar(d: DialectView)
    ensures
        athena_changes_part_1(d).element("TerminatedByGrammar"@) == Some(terminated_by_grammar_element()),
{
    reveal_strlit("TerminatedByGrammar");
    reveal_strlit("AccessorGrammar");
    assert("TerminatedByGrammar"@.len() != "AccessorGrammar"@.len());
    reveal_strlit("BackQuotedIdentifierSegment");
    assert("TerminatedByGrammar"@.len() != "BackQuotedIdentifierSegment"@.len());
    reveal_strlit("BinaryOperatorGrammar");
    assert("TerminatedByGrammar"@.len() != "BinaryOperatorGrammar"@.len());
    reveal_strlit("CommentGrammar");
    assert("TerminatedByGrammar"@.len() != "CommentGrammar"@.len());
    reveal_strlit("FileFormatGrammar");
    assert("TerminatedByGrammar"@.len() != "FileFormatGrammar"@.len());
    reveal_strlit("FunctionContentsGrammar");
    assert("TerminatedByGrammar"@.len() != "FunctionContentsGrammar"@.len());
    reveal_strlit("ListaggOverflowClauseSegment");
    assert("TerminatedByGrammar"@.len() != "ListaggOverflowClauseSegment"@.len());
    reveal_strlit("LiteralGrammar");
    assert("TerminatedByGrammar"@.len() != "LiteralGrammar"@.len());
    reveal_strlit("NakedIdentifierSegment");
    assert("TerminatedByGrammar"@.len() != "NakedIdentifierSegment"@.len());
    reveal_strlit("PartitionSpecGrammar");
    assert("TerminatedByGrammar"@.len() != "PartitionSpecGrammar"@.len());
    reveal_strlit("PostFunctionGrammar");
    assert("TerminatedByGrammar"@[0] != "PostFunctionGrammar"@[0]);
    reveal_strlit("QuotedLiteralSegment");
    assert("TerminatedByGrammar"@.len() != "QuotedLiteralSegment"@.len());
    reveal_strlit("SingleIdentifierGrammar");
    assert("TerminatedByGrammar"@.len() != "SingleIdentifierGrammar"@.len());
    reveal_strlit("StorageFormatGrammar");
    assert("TerminatedByGrammar"@.len() != "StorageFormatGrammar"@.len());
    reveal_strlit("StoredAsGrammar");
    assert("TerminatedByGrammar"@.len() != "StoredAsGrammar"@.len());
    reveal_strlit("StoredByGrammar");
    assert("TerminatedByGrammar"@.len() != "StoredByGrammar"@.len());
    reveal_strlit("TrimParametersGrammar");
    assert("TerminatedByGrammar"@.len() != "TrimParametersGrammar"@.len());
    reveal_strlit("WithinGroupClauseSegment");
    assert("TerminatedByGrammar"@.len() != "WithinGroupClauseSegment"@.len());
}

proof fn lemma_athena_part_2_keeps_terminated_by_grammar(d: DialectView)
    ensures
        athena_changes_part_2(d).element("TerminatedByGrammar"@) == d.element("TerminatedByGrammar"@),
{
    reveal_strlit("TerminatedByGrammar");
    reveal_strlit("AlterTableDropColumnGrammar");
    assert("TerminatedByGrammar"@.len() != "AlterTableDropColumnGrammar"@.len());
    reveal_strlit("ArrayTypeSegment");
    assert("TerminatedByGrammar"@.len() != "ArrayTypeSegment"@.len());
    reveal_strlit("CreateTableStatementSegment");
    assert("TerminatedByGrammar"@.len() != "CreateTableStatementSegment"@.len());
    reveal_strlit("DatatypeSegment");
    assert("TerminatedByGrammar"@.len() != "DatatypeSegment"@.len());
    reveal_strlit("ExecuteStatementSegment");
    assert("TerminatedByGrammar"@.len() != "ExecuteStatementSegment"@.len());
    reveal_strlit("GroupByClauseSegment");
    assert("TerminatedByGrammar"@.len() != "GroupByClauseSegment"@.len());
    reveal_strlit("InsertStatementSegment");
    assert("TerminatedByGrammar"@.len() != "InsertStatementSegment"@.len());
    reveal_strlit("IntervalExpressionSegment");
    assert("TerminatedByGrammar"@.len() != "IntervalExpressionSegment"@.len());
    reveal_strlit("MapTypeSegment");
    assert("TerminatedByGrammar"@.len() != "MapTypeSegment"@.len());
    reveal_strlit("MsckRepairTableStatementSegment");
    assert("TerminatedByGrammar"@.len() != "MsckRepairTableStatementSegment"@.len());
    reveal_strlit("PrepareStatementSegment");
    assert("TerminatedByGrammar"@.len() != "PrepareStatementSegment"@.len());
    reveal_strlit("PrimitiveTypeSegment");
    assert("TerminatedByGrammar"@.len() != "PrimitiveTypeSegment"@.len());
    reveal_strlit("RowFormatClauseSegment");
    assert("TerminatedByGrammar"@.len() != "RowFormatClauseSegment"@.len());
    reveal_strlit("ShowStatementSegment");
    assert("TerminatedByGrammar"@.len() != "ShowStatementSegment"@.len());
    reveal_strlit("StatementSegment");
    assert("TerminatedByGrammar"@.len() != "StatementSegment"@.len());
    reveal_strlit("StructTypeSegment");
    assert("TerminatedByGrammar"@.len() != "StructTypeSegment"@.len());
    reveal_strlit("UnloadStatementSegment");
    assert("TerminatedByGrammar"@.len() != "UnloadStatementSegment"@.len());
    reveal_strlit("ValuesClauseSegment");
    assert("TerminatedByGrammar"@[0] != "ValuesClauseSegment"@[0]);
}

/// After the Athena grammar changes, `TerminatedByGrammar` is what their last change of that
/// name sets, whatever dialect they start from.
pub proof fn lemma_athena_changes_terminated_by_grammar(d: DialectView)
    ensures
        athena_grammar_changes(d).element("TerminatedByGrammar"@) == Some(terminated_by_grammar_element()),
{
    reveal(athena_grammar_changes);
    let d0 = d;
    let d1 = athena_changes_part_0(d0);
    let d2 = athena_changes_part_1(d1);
    let d3 = athena_changes_part_2(d2);
    lemma_athena_part_1_sets_terminated_by_grammar(d1);
    lemma_athena_part_2_keeps_terminated_by_grammar(d2);
}


/// The Athena grammar changes make `TerminatedByGrammar` the grammar
/// `TERMINATED BY` and a quoted literal; whatever dialect they start from.
pub proof fn law_athena_terminated_by(d: DialectView)
    ensures
        ({
            let e = ElementView::Grammar(GrammarView::sequence(seq![GrammarView::keyword("TERMINATED"@), GrammarView::keyword("BY"@), GrammarView::reference("QuotedLiteralSegment"@)]));
            &&& athena_grammar_changes(d).element("TerminatedByGrammar"@) == Some(e)
        }),
{
    lemma_athena_changes_terminated_by_grammar(d);
}

proof fn lemma_athena_part_2_sets_msck_repair_table_statement_segment(d: DialectView)
    ensures
        athena_changes_part_2(d).element("MsckRepairTableStatementSegment"@) == Some(msck_repair_table_statement_segment_element()),
{
    reveal_strlit("MsckRepairTableStatementSegment");
    reveal_strlit("AlterTableDropColumnGrammar");
    assert("MsckRepairTableStatementSegment"@.len() != "AlterTableDropColumnGrammar"@.len());
    reveal_strlit("ExecuteStatementSegment");
    assert("MsckRepairTableStatementSegment"@.len() != "ExecuteStatementSegment"@.len());
    reveal_strlit("InsertStatementSegment");
    assert("MsckRepairTableStatementSegment"@.len() != "InsertStatementSegment"@.len());
    reveal_strlit("IntervalExpressionSegment");
    assert("MsckRepairTableStatementSegment"@.len() != "IntervalExpressionSegment"@.len());
    reveal_strlit("PrepareStatementSegment");
    assert("MsckRepairTableStatementSegment"@.len() != "PrepareStatementSegment"@.len());
    reveal_strlit("RowFormatClauseSegment");
    assert("MsckRepairTableStatementSegment"@.len() != "RowFormatClauseSegment"@.len());
    reveal_strlit("ShowStatementSegment");
    assert("MsckRepairTableStatementSegment"@.len() != "ShowStatementSegment"@.len());
    reveal_strlit("UnloadStatementSegment");
    assert("MsckRepairTableStatementSegment"@.len() != "UnloadStatementSegment"@.len());
}

/// After the Athena grammar changes, `MsckRepairTableStatementSegment` is what their last change of that
/// name sets, whatever dialect they start from.
pub proof fn lemma_athena_changes_msck_repair_table_statement_segment(d: DialectView)
    ensures
        athena_grammar_changes(d).element("MsckRepairTableStatementSegment"@) == Some(msck_repair_table_statement_segment_element()),
{
    reveal(athena_grammar_changes);
    let d0 = d;
    let d1 = athena_changes_part_0(d0);
    let d2 = athena_changes_part_1(d1);
    let d3 = athena_changes_part_2(d2);
    lemma_athena_part_2_sets_msck_repair_table_statement_segment(d2);
}


/// The Athena grammar changes make `MsckRepairTableStatementSegment` a
/// `msck_repair_table_statement` node: `MSCK REPAIR TABLE` and a table
/// reference; whatever dialect they start from.
pub proof fn law_athena_msck_repair_table_statement(d: DialectView)
    ensures
        ({
            let e = (ElementView::Node { kind: "msck_repair_table_statement"@, grammar: GrammarView::sequence(seq![GrammarView::keyword("MSCK"@), GrammarView::keyword("REPAIR"@), GrammarView::keyword("TABLE"@), GrammarView::reference("TableReferenceSegment"@)]) });
            &&& athena_grammar_changes(d).element("MsckRepairTableStatementSegment"@) == Some(e)
        }),
{
    lemma_athena_changes_msck_repair_table_statement_segment(d);
}

proof fn lemma_athena_part_1_sets_comment_grammar(d: DialectView)
    ensures
        athena_changes_part_1(d).element("CommentGrammar"@) == Some(comment_grammar_element()),
{
    reveal_strlit("CommentGrammar");
    reveal_strlit("AccessorGrammar");
    assert("CommentGrammar"@.len() != "AccessorGrammar"@.len());
    reveal_strlit("BackQuotedIdentifierSegment");
    assert("CommentGrammar"@.len() != "BackQuotedIdentifierSegment"@.len());
    reveal_strlit("BinaryOperatorGrammar");
    assert("CommentGrammar"@.len() != "BinaryOperatorGrammar"@.len());
    reveal_strlit("FunctionContentsGrammar");
    assert("CommentGrammar"@.len() != "FunctionContentsGrammar"@.len());
    reveal_strlit("ListaggOverflowClauseSegment");
    assert("CommentGrammar"@.len() != "ListaggOverflowClauseSegment"@.len());
    reveal_strlit("LiteralGrammar");
    assert("CommentGrammar"@[0] != "LiteralGrammar"@[0]);
    reveal_strlit("NakedIdentifierSegment");
    assert("CommentGrammar"@.len() != "NakedIdentifierSegment"@.len());
    reveal_strlit("PartitionSpecGrammar");
    assert("CommentGrammar"@.len() != "PartitionSpecGrammar"@.len());
    reveal_strlit("PostFunctionGrammar");
    assert("CommentGrammar"@.len() != "PostFunctionGrammar"@.len());
    reveal_strlit("QuotedLiteralSegment");
    assert("CommentGrammar"@.len() != "QuotedLiteralSegment"@.len());
    reveal_strlit("SingleIdentifierGrammar");
    assert("CommentGrammar"@.len() != "SingleIdentifierGrammar"@.len());
    reveal_strlit("TrimParametersGrammar");
    assert("CommentGrammar"@.len() != "TrimParametersGrammar"@.len());
    reveal_strlit("WithinGroupClauseSegment");
    assert("CommentGrammar"@.len() != "WithinGroupClauseSegment"@.len());
}

proof fn lemma_athena_part_2_keeps_comment_grammar(d: DialectView)
    ensures
        athena_changes_part_2(d).element("CommentGrammar"@) == d.element("CommentGrammar"@),
{
    reveal_strlit("CommentGrammar");
    reveal_strlit("AlterTableDropColumnGrammar");
    assert("CommentGrammar"@.len() != "AlterTableDropColumnGrammar"@.len());
    reveal_strlit("ArrayTypeSegment");
    assert("CommentGrammar"@.len() != "ArrayTypeSegment"@.len());
    reveal_strlit("CreateTableStatementSegment");
    assert("CommentGrammar"@.len() != "CreateTableStatementSegment"@.len());
    reveal_strlit("DatatypeSegment");
    assert("CommentGrammar"@.len() != "DatatypeSegment"@.len());
    reveal_strlit("ExecuteStatementSegment");
    assert("CommentGrammar"@.len() != "ExecuteStatementSegment"@.len());
    reveal_strlit("GroupByClauseSegment");
    assert("CommentGrammar"@.len() != "GroupByClauseSegment"@.len());
    reveal_strlit("InsertStatementSegment");
    assert("CommentGrammar"@.len() != "InsertStatementSegment"@.len());
    reveal_strlit("IntervalExpressionSegment");
    assert("CommentGrammar"@.len() != "IntervalExpressionSegment"@.len());
    reveal_strlit("MapTypeSegment");
    assert("CommentGrammar"@[0] != "MapTypeSegment"@[0]);
    reveal_strlit("MsckRepairTableStatementSegment");
    assert("CommentGrammar"@.len() != "MsckRepairTableStatementSegment"@.len());
    reveal_strlit("PrepareStatementSegment");
    assert("CommentGrammar"@.len() != "PrepareStatementSegment"@.len());
    reveal_strlit("PrimitiveTypeSegment");
    assert("CommentGrammar"@.len() != "PrimitiveTypeSegment"@.len());
    reveal_strlit("RowFormatClauseSegment");
    assert("CommentGrammar"@.len() != "RowFormatClauseSegment"@.len());
    reveal_strlit("ShowStatementSegment");
    assert("CommentGrammar"@.len() != "ShowStatementSegment"@.len());
    reveal_strlit("StatementSegment");
    assert("CommentGrammar"@.len() != "StatementSegment"@.len());
    reveal_strlit("StructTypeSegment");
    assert("CommentGrammar"@.len() != "StructTypeSegment"@.len());
    reveal_strlit("UnloadStatementSegment");
    assert("CommentGrammar"@.len() != "UnloadStatementSegment"@.len());
    reveal_strlit("ValuesClauseSegment");
    assert("CommentGrammar"@.len() != "ValuesClauseSegment"@.len());
}

/// After the Athena grammar changes, `CommentGrammar` is what their last change of that
/// name sets, whatever dialect they start from.
pub proof fn lemma_athena_changes_comment_grammar(d: DialectView)
    ensures
        athena_grammar_changes(d).element("CommentGrammar"@) == Some(comment_grammar_element()),
{
    reveal(athena_grammar_changes);
    let d0 = d;
    let d1 = athena_changes_part_0(d0);
    let d2 = athena_changes_part_1(d1);
    let d3 = athena_changes_part_2(d2);
    lemma_athena_part_1_sets_comment_grammar(d1);
    lemma_athena_part_2_keeps_comment_grammar(d2);
}


/// The Athena grammar changes make `CommentGrammar` the grammar `COMMENT` and
/// a quoted literal; whatever dialect they start from.
pub proof fn law_athena_comment(d: DialectView)
    ensures
        ({
            let e = ElementView::Grammar(GrammarView::sequence(seq![GrammarView::keyword("COMMENT"@), GrammarView::reference("QuotedLiteralSegment"@)]));
            &&& athena_grammar_changes(d).element("CommentGrammar"@) == Some(e)
        }),
{
    lemma_athena_changes_comment_grammar(d);
}

proof fn lemma_athena_part_1_sets_serde_properties_grammar(d: DialectView)
    ensures
        athena_changes_part_1(d).element("SerdePropertiesGrammar"@) == Some(serde_properties_grammar_element()),
{
    reveal_strlit("SerdePropertiesGrammar");
    reveal_strlit("AccessorGrammar");
    assert("SerdePropertiesGrammar"@.len() != "AccessorGrammar"@.len());
    reveal_strlit("BackQuotedIdentifierSegment");
    assert("SerdePropertiesGrammar"@.len() != "BackQuotedIdentifierSegment"@.len());
    reveal_strlit("BinaryOperatorGrammar");
    assert("SerdePropertiesGrammar"@.len() != "BinaryOperatorGrammar"@.len());
    reveal_strlit("CommentGrammar");
    assert("SerdePropertiesGrammar"@.len() != "CommentGrammar"@.len());
    reveal_strlit("FileFormatGrammar");
    assert("SerdePropertiesGrammar"@.len() != "FileFormatGrammar"@.len());
    reveal_strlit("FunctionContentsGrammar");
    assert("SerdePropertiesGrammar"@.len() != "FunctionContentsGrammar"@.len());
    reveal_strlit("ListaggOverflowClauseSegment");
    assert("SerdePropertiesGrammar"@.len() != "ListaggOverflowClauseSegment"@.len());
    reveal_strlit("LiteralGrammar");
    assert("SerdePropertiesGrammar"@.len() != "LiteralGrammar"@.len());
    reveal_strlit("NakedIdentifierSegment");
    assert("SerdePropertiesGrammar"@[0] != "NakedIdentifierSegment"@[0]);
    reveal_strlit("PartitionSpecGrammar");
    assert("SerdePropertiesGrammar"@.len() != "PartitionSpecGrammar"@.len());
    reveal_strlit("PostFunctionGrammar");
    assert("SerdePropertiesGrammar"@.len() != "PostFunctionGrammar"@.len());
    reveal_strlit("QuotedLiteralSegment");
    assert("SerdePropertiesGrammar"@.len() != "QuotedLiteralSegment"@.len());
    reveal_strlit("SingleIdentifierGrammar");
    assert("SerdePropertiesGrammar"@.len() != "SingleIdentifierGrammar"@.len());
    reveal_strlit("StorageFormatGrammar");
    assert("SerdePropertiesGrammar"@.len() != "StorageFormatGrammar"@.len());
    reveal_strlit("StoredAsGrammar");
    assert("SerdePropertiesGrammar"@.len() != "StoredAsGrammar"@.len());
    reveal_strlit("StoredByGrammar");
    assert("SerdePropertiesGrammar"@.len() != "StoredByGrammar"@.len());
    reveal_strlit("TerminatedByGrammar");
    assert("SerdePropertiesGrammar"@.len() != "TerminatedByGrammar"@.len());
    reveal_strlit("TrimParametersGrammar");
    assert("SerdePropertiesGrammar"@.len() != "TrimParametersGrammar"@.len());
    reveal_strlit("WithinGroupClauseSegment");
    assert("SerdePropertiesGrammar"@.len() != "WithinGroupClauseSegment"@.len());
}

proof fn lemma_athena_part_2_keeps_serde_properties_grammar(d: DialectView)
    ensures
        athena_changes_part_2(d).element("SerdePropertiesGrammar"@) == d.element("SerdePropertiesGrammar"@),
{
    reveal_strlit("SerdePropertiesGrammar");
    reveal_strlit("AlterTableDropColumnGrammar");
    assert("SerdePropertiesGrammar"@.len() != "AlterTableDropColumnGrammar"@.len());
    reveal_strlit("ArrayTypeSegment");
    assert("SerdePropertiesGrammar"@.len() != "ArrayTypeSegment"@.len());
    reveal_strlit("CreateTableStatementSegment");
    assert("SerdePropertiesGrammar"@.len() != "CreateTableStatementSegment"@.len());
    reveal_strlit("DatatypeSegment");
    assert("SerdePropertiesGrammar"@.len() != "DatatypeSegment"@.len());
    reveal_strlit("ExecuteStatementSegment");
    assert("SerdePropertiesGrammar"@.len() != "ExecuteStatementSegment"@.len());
    reveal_strlit("GroupByClauseSegment");
    assert("SerdePropertiesGrammar"@.len() != "GroupByClauseSegment"@.len());
    reveal_strlit("InsertStatementSegment");
    assert("SerdePropertiesGrammar"@[0] != "InsertStatementSegment"@[0]);
    reveal_strlit("IntervalExpressionSegment");
    assert("SerdePropertiesGrammar"@.len() != "IntervalExpressionSegment"@.len());
    reveal_strlit("MapTypeSegment");
    assert("SerdePropertiesGrammar"@.len() != "MapTypeSegment"@.len());
    reveal_strlit("MsckRepairTableStatementSegment");
    assert("SerdePropertiesGrammar"@.len() != "MsckRepairTableStatementSegment"@.len());
    reveal_strlit("PrepareStatementSegment");
    assert("SerdePropertiesGrammar"@.len() != "PrepareStatementSegment"@.len());
    reveal_strlit("PrimitiveTypeSegment");
    assert("SerdePropertiesGrammar"@.len() != "PrimitiveTypeSegment"@.len());
    reveal_strlit("RowFormatClauseSegment");
    assert("SerdePropertiesGrammar"@[0] != "RowFormatClauseSegment"@[0]);
    reveal_strlit("ShowStatementSegment");
    assert("SerdePropertiesGrammar"@.len() != "ShowStatementSegment"@.len());
    reveal_strlit("StatementSegment");
    assert("SerdePropertiesGrammar"@.len() != "StatementSegment"@.len());
    reveal_strlit("StructTypeSegment");
    assert("SerdePropertiesGrammar"@.len() != "StructTypeSegment"@.len());
    reveal_strlit("UnloadStatementSegment");
    assert("SerdePropertiesGrammar"@[0] != "UnloadStatementSegment"@[0]);
    reveal_strlit("ValuesClauseSegment");
    assert("SerdePropertiesGrammar"@.len() != "ValuesClauseSegment"@.len());
}

/// After the Athena grammar changes, `SerdePropertiesGrammar` is what their last change of that
/// name sets, whatever dialect they start from.
pub proof fn lemma_athena_changes_serde_properties_grammar(d: DialectView)
    ensures
        athena_grammar_changes(d).element("SerdePropertiesGrammar"@) == Some(serde_properties_grammar_element()),
{
    reveal(athena_grammar_changes);
    let d0 = d;
    let d1 = athena_changes_part_0(d0);
    let d2 = athena_changes_part_1(d1);
    let d3 = athena_changes_part_2(d2);
    lemma_athena_part_1_sets_serde_properties_grammar(d1);
    lemma_athena_part_2_keeps_serde_properties_grammar(d2);
}


/// The Athena grammar changes make `SerdePropertiesGrammar` the grammar
/// `WITH SERDEPROPERTIES` and a bracketed property list; whatever dialect they start from.
pub proof fn law_athena_serde_properties(d: DialectView)
    ensures
        ({
            let e = ElementView::Grammar(GrammarView::sequence(seq![GrammarView::keyword("WITH"@), GrammarView::keyword("SERDEPROPERTIES"@), GrammarView::reference("BracketedPropertyListGrammar"@)]));
            &&& athena_grammar_changes(d).element("SerdePropertiesGrammar"@) == Some(e)
        }),
{
    lemma_athena_changes_serde_properties_grammar(d);
}

proof fn lemma_athena_part_0_sets_table_properties_grammar(d: DialectView)
    ensures
        athena_changes_part_0(d).element("TablePropertiesGrammar"@) == Some(table_properties_grammar_element()),
{
    reveal_strlit("TablePropertiesGrammar");
}

proof fn lemma_athena_part_1_keeps_table_properties_grammar(d: DialectView)
    ensures
        athena_changes_part_1(d).element("TablePropertiesGrammar"@) == d.element("TablePropertiesGrammar"@),
{
    reveal_strlit("TablePropertiesGrammar");
    reveal_strlit("AccessorGrammar");
    assert("TablePropertiesGrammar"@.len() != "AccessorGrammar"@.len());
    reveal_strlit("BackQuotedIdentifierSegment");
    assert("TablePropertiesGrammar"@.len() != "BackQuotedIdentifierSegment"@.len());
    reveal_strlit("BinaryOperatorGrammar");
    assert("TablePropertiesGrammar"@.len() != "BinaryOperatorGrammar"@.len());
    reveal_strlit("CommentGrammar");
    assert("TablePropertiesGrammar"@.len() != "CommentGrammar"@.len());
    reveal_strlit("FileFormatGrammar");
    assert("TablePropertiesGrammar"@.len() != "FileFormatGrammar"@.len());
    reveal_strlit("FunctionContentsGrammar");
    assert("TablePropertiesGrammar"@.len() != "FunctionContentsGrammar"@.len());
    reveal_strlit("ListaggOverflowClauseSegment");
    assert("TablePropertiesGrammar"@.len() != "ListaggOverflowClauseSegment"@.len());
    reveal_strlit("LiteralGrammar");
    assert("TablePropertiesGrammar"@.len() != "LiteralGrammar"@.len());
    reveal_strlit("NakedIdentifierSegment");
    assert("TablePropertiesGrammar"@[0] != "NakedIdentifierSegment"@[0]);
    reveal_strlit("PartitionSpecGrammar");
    assert("TablePropertiesGrammar"@.len() != "PartitionSpecGrammar"@.len());
    reveal_strlit("PostFunctionGrammar");
    assert("TablePropertiesGrammar"@.len() != "PostFunctionGrammar"@.len());
    reveal_strlit("QuotedLiteralSegment");
    assert("TablePropertiesGrammar"@.len() != "QuotedLiteralSegment"@.len());
    reveal_strlit("SerdePropertiesGrammar");
    assert("TablePropertiesGrammar"@[0] != "SerdePropertiesGrammar"@[0]);
    reveal_strlit("SingleIdentifierGrammar");
    assert("TablePropertiesGrammar"@.len() != "SingleIdentifierGrammar"@.len());
    reveal_strlit("StorageFormatGrammar");
    assert("TablePropertiesGrammar"@.len() != "StorageFormatGrammar"@.len());
    reveal_strlit("StoredAsGrammar");
    assert("TablePropertiesGrammar"@.len() != "StoredAsGrammar"@.len());
    reveal_strlit("StoredByGrammar");
    assert("TablePropertiesGrammar"@.len() != "StoredByGrammar"@.len());
    reveal_strlit("TerminatedByGrammar");
    assert("TablePropertiesGrammar"@.len() != "TerminatedByGrammar"@.len());
    reveal_strlit("TrimParametersGrammar");
    assert("TablePropertiesGrammar"@.len() != "TrimParametersGrammar"@.len());
    reveal_strlit("WithinGroupClauseSegment");
    assert("TablePropertiesGrammar"@.len() != "WithinGroupClauseSegment"@.len());
}

proof fn lemma_athena_part_2_keeps_table_properties_grammar(d: DialectView)
    ensures
        athena_changes_part_2(d).element("TablePropertiesGrammar"@) == d.element("TablePropertiesGrammar"@),
{
    reveal_strlit("TablePropertiesGrammar");
    reveal_strlit("AlterTableDropColumnGrammar");
    assert("TablePropertiesGrammar"@.len() != "AlterTableDropColumnGrammar"@.len());
    reveal_strlit("ArrayTypeSegment");
    assert("TablePropertiesGrammar"@.len() != "ArrayTypeSegment"@.len());
    reveal_strlit("CreateTableStatementSegment");
    assert("TablePropertiesGrammar"@.len() != "CreateTableStatementSegment"@.len());
    reveal_strlit("DatatypeSegment");
    assert("TablePropertiesGrammar"@.len() != "DatatypeSegment"@.len());
    reveal_strlit("ExecuteStatementSegment");
    assert("TablePropertiesGrammar"@.len() != "ExecuteStatementSegment"@.len());
    reveal_strlit("GroupByClauseSegment");
    assert("TablePropertiesGrammar"@.len() != "GroupByClauseSegment"@.len());
    reveal_strlit("InsertStatementSegment");
    assert("TablePropertiesGrammar"@[0] != "InsertStatementSegment"@[0]);
    reveal_strlit("IntervalExpressionSegment");
    assert("TablePropertiesGrammar"@.len() != "IntervalExpressionSegment"@.len());
    reveal_strlit("MapTypeSegment");
    assert("TablePropertiesGrammar"@.len() != "MapTypeSegment"@.len());
    reveal_strlit("MsckRepairTableStatementSegment");
    assert("TablePropertiesGrammar"@.len() != "MsckRepairTableStatementSegment"@.len());
    reveal_strlit("PrepareStatementSegment");
    assert("TablePropertiesGrammar"@.len() != "PrepareStatementSegment"@.len());
    reveal_strlit("PrimitiveTypeSegment");
    assert("TablePropertiesGrammar"@.len() != "PrimitiveTypeSegment"@.len());
    reveal_strlit("RowFormatClauseSegment");
    assert("TablePropertiesGrammar"@[0] != "RowFormatClauseSegment"@[0]);
    reveal_strlit("ShowStatementSegment");
    assert("TablePropertiesGrammar"@.len() != "ShowStatementSegment"@.len());
    reveal_strlit("StatementSegment");
    assert("TablePropertiesGrammar"@.len() != "StatementSegment"@.len());
    reveal_strlit("StructTypeSegment");
    assert("TablePropertiesGrammar"@.len() != "StructTypeSegment"@.len());
    reveal_strlit("UnloadStatementSegment");
    assert("TablePropertiesGrammar"@[0] != "UnloadStatementSegment"@[0]);
    reveal_strlit("ValuesClauseSegment");
    assert("TablePropertiesGrammar"@.len() != "ValuesClauseSegment"@.len());
}

/// After the Athena grammar changes, `TablePropertiesGrammar` is what their last change of that
/// name sets, whatever dialect they start from.
pub proof fn lemma_athena_changes_table_properties_grammar(d: DialectView)
    ensures
        athena_grammar_changes(d).element("TablePropertiesGrammar"@) == Some(table_properties_grammar_element()),
{
    reveal(athena_grammar_changes);
    let d0 = d;
    let d1 = athena_changes_part_0(d0);
    let d2 = athena_changes_part_1(d1);
    let d3 = athena_changes_part_2(d2);
    lemma_athena_part_0_sets_table_properties_grammar(d0);
    lemma_athena_part_1_keeps_table_properties_grammar(d1);
    lemma_athena_part_2_keeps_table_properties_grammar(d2);
}


/// The Athena grammar changes make `TablePropertiesGrammar` the grammar
/// `TBLPROPERTIES` and a bracketed property list; whatever dialect they start from.
pub proof fn law_athena_table_properties(d: DialectView)
    ensures
        ({
            let e = ElementView::Grammar(GrammarView::sequence(seq![GrammarView::keyword("TBLPROPERTIES"@), GrammarView::reference("BracketedPropertyListGrammar"@)]));
            &&& athena_grammar_changes(d).element("TablePropertiesGrammar"@) == Some(e)
        }),
{
    lemma_athena_changes_table_properties_grammar(d);
}

proof fn lemma_athena_part_2_sets_map_type_segment(d: DialectView)
    ensures
        athena_changes_part_2(d).element("MapTypeSegment"@) == Some(map_type_segment_element()),
{
    reveal_strlit("MapTypeSegment");
    reveal_strlit("AlterTableDropColumnGrammar");
    assert("MapTypeSegment"@.len() != "AlterTableDropColumnGrammar"@.len());
    reveal_strlit("CreateTableStatementSegment");
    assert("MapTypeSegment"@.len() != "CreateTableStatementSegment"@.len());
    reveal_strlit("DatatypeSegment");
    assert("MapTypeSegment"@.len() != "DatatypeSegment"@.len());
    reveal_strlit("ExecuteStatementSegment");
    assert("MapTypeSegment"@.len() != "ExecuteStatementSegment"@.len());
    reveal_strlit("GroupByClauseSegment");
    assert("MapTypeSegment"@.len() != "GroupByClauseSegment"@.len());
    reveal_strlit("InsertStatementSegment");
    assert("MapTypeSegment"@.len() != "InsertStatementSegment"@.len());
    reveal_strlit("IntervalExpressionSegment");
    assert("MapTypeSegment"@.len() != "IntervalExpressionSegment"@.len());
    reveal_strlit("MsckRepairTableStatementSegment");
    assert("MapTypeSegment"@.len() != "MsckRepairTableStatementSegment"@.len());
    reveal_strlit("PrepareStatementSegment");
    assert("MapTypeSegment"@.len() != "PrepareStatementSegment"@.len());
    reveal_strlit("PrimitiveTypeSegment");
    assert("MapTypeSegment"@.len() != "PrimitiveTypeSegment"@.len());
    reveal_strlit("RowFormatClauseSegment");
    assert("MapTypeSegment"@.len() != "RowFormatClauseSegment"@.len());
    reveal_strlit("ShowStatementSegment");
    assert("MapTypeSegment"@.len() != "ShowStatementSegment"@.len());
    reveal_strlit("StatementSegment");
    assert("MapTypeSegment"@.len() != "StatementSegment"@.len());
    reveal_strlit("UnloadStatementSegment");
    assert("MapTypeSegment"@.len() != "UnloadStatementSegment"@.len());
}

/// After the Athena grammar changes, `MapTypeSegment` is what their last change of that
/// name sets, whatever dialect they start from.
pub proof fn lemma_athena_changes_map_type_segment(d: DialectView)
    ensures
        athena_grammar_changes(d).element("MapTypeSegment"@) == Some(map_type_segment_element()),
{
    reveal(athena_grammar_changes);
    let d0 = d;
    let d1 = athena_changes_part_0(d0);
    let d2 = athena_changes_part_1(d1);
    let d3 = athena_changes_part_2(d2);
    lemma_athena_part_2_sets_map_type_segment(d2);
}


/// The Athena grammar changes make `MapTypeSegment` a `map_type` node: `MAP`
/// and an optional map schema; whatever dialect they start from.
pub proof fn law_athena_map_type(d: DialectView)
    ensures
        ({
            let e = (ElementView::Node { kind: "map_type"@, grammar: GrammarView::sequence(seq![GrammarView::keyword("MAP"@), GrammarView::optional_reference("MapTypeSchemaSegment"@)]) });
            &&& athena_grammar_changes(d).element("MapTypeSegment"@) == Some(e)
        }),
{
    lemma_athena_changes_map_type_segment(d);
}

proof fn lemma_athena_part_1_sets_stored_by_grammar(d: DialectView)
    ensures
        athena_changes_part_1(d).element("StoredByGrammar"@) == Some(stored_by_grammar_element()),
{
    reveal_strlit("StoredByGrammar");
    reveal_strlit("AccessorGrammar");
    assert("StoredByGrammar"@[0] != "AccessorGrammar"@[0]);
    reveal_strlit("BackQuotedIdentifierSegment");
    assert("StoredByGrammar"@.len() != "BackQuotedIdentifierSegment"@.len());
    reveal_strlit("BinaryOperatorGrammar");
    assert("StoredByGrammar"@.len() != "BinaryOperatorGrammar"@.len());
    reveal_strlit("CommentGrammar");
    assert("StoredByGrammar"@.len() != "CommentGrammar"@.len());
    reveal_strlit("FunctionContentsGrammar");
    assert("StoredByGrammar"@.len() != "FunctionContentsGrammar"@.len());
    reveal_strlit("ListaggOverflowClauseSegment");
    assert("StoredByGrammar"@.len() != "ListaggOverflowClauseSegment"@.len());
    reveal_strlit("LiteralGrammar");
    assert("StoredByGrammar"@.len() != "LiteralGrammar"@.len());
    reveal_strlit("NakedIdentifierSegment");
    assert("StoredByGrammar"@.len() != "NakedIdentifierSegment"@.len());
    reveal_strlit("PartitionSpecGrammar");
    assert("StoredByGrammar"@.len() != "PartitionSpecGrammar"@.len());
    reveal_strlit("PostFunctionGrammar");
    assert("StoredByGrammar"@.len() != "PostFunctionGrammar"@.len());
    reveal_strlit("QuotedLiteralSegment");
    assert("StoredByGrammar"@.len() != "QuotedLiteralSegment"@.len());
    reveal_strlit("SingleIdentifierGrammar");
    assert("StoredByGrammar"@.len() != "SingleIdentifierGrammar"@.len());
    reveal_strlit("StorageFormatGrammar");
    assert("StoredByGrammar"@.len() != "StorageFormatGrammar"@.len());
    reveal_strlit("TrimParametersGrammar");
    assert("StoredByGrammar"@.len() != "TrimParametersGrammar"@.len());
    reveal_strlit("WithinGroupClauseSegment");
    assert("StoredByGrammar"@.len() != "WithinGroupClauseSegment"@.len());
}

proof fn lemma_athena_part_2_keeps_stored_by_grammar(d: DialectView)
    ensures
        athena_changes_part_2(d).element("StoredByGrammar"@) == d.element("StoredByGrammar"@),
{
    reveal_strlit("StoredByGrammar");
    reveal_strlit("AlterTableDropColumnGrammar");
    assert("StoredByGrammar"@.len() != "AlterTableDropColumnGrammar"@.len());
    reveal_strlit("ArrayTypeSegment");
    assert("StoredByGrammar"@.len() != "ArrayTypeSegment"@.len());
    reveal_strlit("CreateTableStatementSegment");
    assert("StoredByGrammar"@.len() != "CreateTableStatementSegment"@.len());
    reveal_strlit("DatatypeSegment");
    assert("StoredByGrammar"@[0] != "DatatypeSegment"@[0]);
    reveal_strlit("ExecuteStatementSegment");
    assert("StoredByGrammar"@.len() != "ExecuteStatementSegment"@.len());
    reveal_strlit("GroupByClauseSegment");
    assert("StoredByGrammar"@.len() != "GroupByClauseSegment"@.len());
    reveal_strlit("InsertStatementSegment");
    assert("StoredByGrammar"@.len() != "InsertStatementSegment"@.len());
    reveal_strlit("IntervalExpressionSegment");
    assert("StoredByGrammar"@.len() != "IntervalExpressionSegment"@.len());
    reveal_strlit("MapTypeSegment");
    assert("StoredByGrammar"@.len() != "MapTypeSegment"@.len());
    reveal_strlit("MsckRepairTableStatementSegment");
    assert("StoredByGrammar"@.len() != "MsckRepairTableStatementSegment"@.len());
    reveal_strlit("PrepareStatementSegment");
    assert("StoredByGrammar"@.len() != "PrepareStatementSegment"@.len());
    reveal_strlit("PrimitiveTypeSegment");
    assert("StoredByGrammar"@.len() != "PrimitiveTypeSegment"@.len());
    reveal_strlit("RowFormatClauseSegment");
    assert("StoredByGrammar"@.len() != "RowFormatClauseSegment"@.len());
    reveal_strlit("ShowStatementSegment");
    assert("StoredByGrammar"@.len() != "ShowStatementSegment"@.len());
    reveal_strlit("StatementSegment");
    assert("StoredByGrammar"@.len() != "StatementSegment"@.len());
    reveal_strlit("StructTypeSegment");
    assert("StoredByGrammar"@.len() != "StructTypeSegment"@.len());
    reveal_strlit("UnloadStatementSegment");
    assert("StoredByGrammar"@.len() != "UnloadStatementSegment"@.len());
    reveal_strlit("ValuesClauseSegment");
    assert("StoredByGrammar"@.len() != "ValuesClauseSegment"@.len());
}

/// After the Athena grammar changes, `StoredByGrammar` is what their last change of that
/// name sets, whatever dialect they start from.
pub proof fn lemma_athena_changes_stored_by_grammar(d: DialectView)
    ensures
        athena_grammar_changes(d).element("StoredByGrammar"@) == Some(stored_by_grammar_element()),
{
    reveal(athena_grammar_changes);
    let d0 = d;
    let d1 = athena_changes_part_0(d0);
    let d2 = athena_changes_part_1(d1);
    let d3 = athena_changes_part_2(d2);
    lemma_athena_part_1_sets_stored_by_grammar(d1);
    lemma_athena_part_2_keeps_stored_by_grammar(d2);
}


/// The Athena grammar changes make `StoredByGrammar` the grammar `STORED BY`,
/// a quoted literal, then optional `WITH SERDEPROPERTIES`; whatever dialect they start from.
pub proof fn law_athena_stored_by(d: DialectView)
    ensures
        ({
            let e = ElementView::Grammar(GrammarView::sequence(seq![GrammarView::keyword("STORED"@), GrammarView::keyword("BY"@), GrammarView::reference("QuotedLiteralSegment"@), GrammarView::optional_reference("SerdePropertiesGrammar"@)]));
            &&& athena_grammar_changes(d).element("StoredByGrammar"@) == Some(e)
        }),
{
    lemma_athena_changes_stored_by_grammar(d);
}

proof fn lemma_athena_part_2_sets_array_type_segment(d: DialectView)
    ensures
        has_grammar(athena_changes_part_2(d).element("ArrayTypeSegment"@), array_type_segment_grammar()),
{
    reveal_strlit("ArrayTypeSegment");
    reveal_strlit("AlterTableDropColumnGrammar");
    assert("ArrayTypeSegment"@.len() != "AlterTableDropColumnGrammar"@.len());
    reveal_strlit("CreateTableStatementSegment");
    assert("ArrayTypeSegment"@.len() != "CreateTableStatementSegment"@.len());
    reveal_strlit("DatatypeSegment");
    assert("ArrayTypeSegment"@.len() != "DatatypeSegment"@.len());
    reveal_strlit("ExecuteStatementSegment");
    assert("ArrayTypeSegment"@.len() != "ExecuteStatementSegment"@.len());
    reveal_strlit("GroupByClauseSegment");
    assert("ArrayTypeSegment"@.len() != "GroupByClauseSegment"@.len());
    reveal_strlit("InsertStatementSegment");
    assert("ArrayTypeSegment"@.len() != "InsertStatementSegment"@.len());
    reveal_strlit("IntervalExpressionSegment");
    assert("ArrayTypeSegment"@.len() != "IntervalExpressionSegment"@.len());
    reveal_strlit("MapTypeSegment");
    assert("ArrayTypeSegment"@.len() != "MapTypeSegment"@.len());
    reveal_strlit("MsckRepairTableStatementSegment");
    assert("ArrayTypeSegment"@.len() != "MsckRepairTableStatementSegment"@.len());
    reveal_strlit("PrepareStatementSegment");
    assert("ArrayTypeSegment"@.len() != "PrepareStatementSegment"@.len());
    reveal_strlit("PrimitiveTypeSegment");
    assert("ArrayTypeSegment"@.len() != "PrimitiveTypeSegment"@.len());
    reveal_strlit("RowFormatClauseSegment");
    assert("ArrayTypeSegment"@.len() != "RowFormatClauseSegment"@.len());
    reveal_strlit("ShowStatementSegment");
    assert("ArrayTypeSegment"@.len() != "ShowStatementSegment"@.len());
    reveal_strlit("StatementSegment");
    assert("ArrayTypeSegment"@[0] != "StatementSegment"@[0]);
    reveal_strlit("StructTypeSegment");
    assert("ArrayTypeSegment"@.len() != "StructTypeSegment"@.len());
    reveal_strlit("UnloadStatementSegment");
    assert("ArrayTypeSegment"@.len() != "UnloadStatementSegment"@.len());
}

/// After the Athena grammar changes, `ArrayTypeSegment` has the grammar that their last
/// change of that name gives it, whatever dialect they start from.
pub proof fn lemma_athena_changes_array_type_segment(d: DialectView)
    ensures
        has_grammar(athena_grammar_changes(d).element("ArrayTypeSegment"@), array_type_segment_grammar()),
{
    reveal(athena_grammar_changes);
    let d0 = d;
    let d1 = athena_changes_part_0(d0);
    let d2 = athena_changes_part_1(d1);
    let d3 = athena_changes_part_2(d2);
    lemma_athena_part_2_sets_array_type_segment(d2);
}


/// The Athena grammar changes give `ArrayTypeSegment` the grammar `ARRAY`
/// and an optional array schema; whatever dialect they start from (a node keeps its kind).
pub proof fn law_athena_array_type(d: DialectView)
    ensures
        ({
            let g = GrammarView::sequence(seq![GrammarView::keyword("ARRAY"@), GrammarView::optional_reference("ArrayTypeSchemaSegment"@)]);
            has_grammar(athena_grammar_changes(d).element("ArrayTypeSegment"@), g)
        }),
{
    lemma_athena_changes_array_type_segment(d);
}

proof fn lemma_athena_part_2_sets_struct_type_segment(d: DialectView)
    ensures
        has_grammar(athena_changes_part_2(d).element("StructTypeSegment"@), struct_type_segment_grammar()),
{
    reveal_strlit("StructTypeSegment");
    reveal_strlit("AlterTableDropColumnGrammar");
    assert("StructTypeSegment"@.len() != "AlterTableDropColumnGrammar"@.len());
    reveal_strlit("CreateTableStatementSegment");
    assert("StructTypeSegment"@.len() != "CreateTableStatementSegment"@.len());
    reveal_strlit("DatatypeSegment");
    assert("StructTypeSegment"@.len() != "DatatypeSegment"@.len());
    reveal_strlit("ExecuteStatementSegment");
    assert("StructTypeSegment"@.len() != "ExecuteStatementSegment"@.len());
    reveal_strlit("GroupByClauseSegment");
    assert("StructTypeSegment"@.len() != "GroupByClauseSegment"@.len());
    reveal_strlit("InsertStatementSegment");
    assert("StructTypeSegment"@.len() != "InsertStatementSegment"@.len());
    reveal_strlit("IntervalExpressionSegment");
    assert("StructTypeSegment"@.len() != "IntervalExpressionSegment"@.len());
    reveal_strlit("MapTypeSegment");
    assert("StructTypeSegment"@.len() != "MapTypeSegment"@.len());
    reveal_strlit("MsckRepairTableStatementSegment");
    assert("StructTypeSegment"@.len() != "MsckRepairTableStatementSegment"@.len());
    reveal_strlit("PrepareStatementSegment");
    assert("StructTypeSegment"@.len() != "PrepareStatementSegment"@.len());
    reveal_strlit("PrimitiveTypeSegment");
    assert("StructTypeSegment"@.len() != "PrimitiveTypeSegment"@.len());
    reveal_strlit("RowFormatClauseSegment");
    assert("StructTypeSegment"@.len() != "RowFormatClauseSegment"@.len());
    reveal_strlit("ShowStatementSegment");
    assert("StructTypeSegment"@.len() != "ShowStatementSegment"@.len());
    reveal_strlit("StatementSegment");
    assert("StructTypeSegment"@.len() != "StatementSegment"@.len());
    reveal_strlit("UnloadStatementSegment");
    assert("StructTypeSegment"@.len() != "UnloadStatementSegment"@.len());
}

/// After the Athena grammar changes, `StructTypeSegment` has the grammar that their last
/// change of that name gives it, whatever dialect they start from.
pub proof fn lemma_athena_changes_struct_type_segment(d: DialectView)
    ensures
        has_grammar(athena_grammar_changes(d).element("StructTypeSegment"@), struct_type_segment_grammar()),
{
    reveal(athena_grammar_changes);
    let d0 = d;
    let d1 = athena_changes_part_0(d0);
    let d2 = athena_changes_part_1(d1);
    let d3 = athena_changes_part_2(d2);
    lemma_athena_part_2_sets_struct_type_segment(d2);
}


/// The Athena grammar changes give `StructTypeSegment` the grammar `STRUCT`
/// and an optional struct schema; whatever dialect they start from (a node keeps its kind).
pub proof fn law_athena_struct_type(d: DialectView)
    ensures
        ({
            let g = GrammarView::sequence(seq![GrammarView::keyword("STRUCT"@), GrammarView::optional_reference("StructTypeSchemaSegment"@)]);
            has_grammar(athena_grammar_changes(d).element("StructTypeSegment"@), g)
        }),
{
    lemma_athena_changes_struct_type_segment(d);
}

} // verus!
