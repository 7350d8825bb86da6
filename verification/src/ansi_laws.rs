//! Laws of the ANSI dialect: the fragments that other dialects reuse stand in
//! its library under their names, and every statement it knows is defined.

use crate::ansi::{
    from_clause_terminator_grammar_alternatives, where_clause_terminator_grammar_alternatives, group_by_clause_terminator_grammar_alternatives, having_clause_terminator_grammar_alternatives, order_by_clause_terminators_alternatives,
    explainable_statements, unordered_select_clauses, unordered_select_terminators,
    ordering_clauses, references, select_terminators,
    explainable_statement_grammar, select_clause_element_grammar, select_clause_grammar, select_clause_terminator_grammars,
    select_statement_grammar, statement_grammar, statement_kinds, unordered_select_statement, wildcard_expression_grammar,
};
use crate::ansi_dialect::ansi_raw_dialect_view;
use crate::db2::ansi_clause_terminators;
use crate::ansi_library::{
    ansi_library, limit_clause_segment_element, order_by_clause_segment_element, group_by_clause_segment_element, when_clause_segment_element, drop_table_statement_segment_element, drop_view_statement_segment_element, drop_index_statement_segment_element, create_role_statement_segment_element, drop_role_statement_segment_element, create_user_statement_segment_element, drop_user_statement_segment_element, create_database_statement_segment_element, drop_database_statement_segment_element, primary_key_grammar_element, foreign_key_grammar_element, unique_key_grammar_element, temporary_transient_grammar_element, ignore_respect_nulls_grammar_element, frame_clause_unit_grammar_element, default_values_grammar_element, merge_delete_clause_segment_element, comment_clause_segment_element, delete_statement_segment_element, use_statement_segment_element, describe_statement_segment_element, truncate_statement_segment_element, create_schema_statement_segment_element, drop_schema_statement_segment_element, like_grammar_element, select_clause_modifier_segment_element, else_clause_segment_element, fetch_clause_segment_element, drop_behavior_grammar_element, temporary_grammar_element, join_keywords_grammar_element, union_grammar_element, set_operator_segment_element, where_clause_segment_element, from_clause_segment_element, having_clause_segment_element, if_exists_grammar_element, if_not_exists_grammar_element, or_replace_grammar_element, join_type_keywords_grammar_element, ansi_library_part_0, ansi_library_part_1, ansi_library_part_2, ansi_library_part_3, ansi_library_part_4, ansi_library_part_5, ansi_library_part_6, ansi_library_part_7, ansi_library_part_8, ansi_library_part_9, ansi_library_part_10, ansi_library_part_11, explain_statement_segment_element, select_clause_element_segment_element, select_clause_segment_element,
    select_clause_terminator_grammar_element, select_statement_segment_element, statement_segment_element,
    unordered_select_statement_segment_element, wildcard_expression_segment_element, from_clause_terminator_grammar_element, where_clause_terminator_grammar_element, group_by_clause_terminator_grammar_element, having_clause_terminator_grammar_element, order_by_clause_terminators_element,
};
use crate::dialect::ElementView;
use crate::grammar::GrammarView;
use vstd::prelude::*;

verus! {

proof fn lemma_part_0_keeps_names(m: Map<Seq<char>, ElementView>)
    ensures
        forall|k: Seq<char>| m.dom().contains(k) ==> #[trigger] ansi_library_part_0(m).dom().contains(k),
{
}

proof fn lemma_part_1_keeps_names(m: Map<Seq<char>, ElementView>)
    ensures
        forall|k: Seq<char>| m.dom().contains(k) ==> #[trigger] ansi_library_part_1(m).dom().contains(k),
{
}

proof fn lemma_part_2_keeps_names(m: Map<Seq<char>, ElementView>)
    ensures
        forall|k: Seq<char>| m.dom().contains(k) ==> #[trigger] ansi_library_part_2(m).dom().contains(k),
{
}

proof fn lemma_part_3_keeps_names(m: Map<Seq<char>, ElementView>)
    ensures
        forall|k: Seq<char>| m.dom().contains(k) ==> #[trigger] ansi_library_part_3(m).dom().contains(k),
{
}

proof fn lemma_part_4_keeps_names(m: Map<Seq<char>, ElementView>)
    ensures
        forall|k: Seq<char>| m.dom().contains(k) ==> #[trigger] ansi_library_part_4(m).dom().contains(k),
{
}

proof fn lemma_part_5_keeps_names(m: Map<Seq<char>, ElementView>)
    ensures
        forall|k: Seq<char>| m.dom().contains(k) ==> #[trigger] ansi_library_part_5(m).dom().contains(k),
{
}

proof fn lemma_part_6_keeps_names(m: Map<Seq<char>, ElementView>)
    ensures
        forall|k: Seq<char>| m.dom().contains(k) ==> #[trigger] ansi_library_part_6(m).dom().contains(k),
{
}

proof fn lemma_part_7_keeps_names(m: Map<Seq<char>, ElementView>)
    ensures
        forall|k: Seq<char>| m.dom().contains(k) ==> #[trigger] ansi_library_part_7(m).dom().contains(k),
{
}

proof fn lemma_part_8_keeps_names(m: Map<Seq<char>, ElementView>)
    ensures
        forall|k: Seq<char>| m.dom().contains(k) ==> #[trigger] ansi_library_part_8(m).dom().contains(k),
{
}

proof fn lemma_part_9_keeps_names(m: Map<Seq<char>, ElementView>)
    ensures
        forall|k: Seq<char>| m.dom().contains(k) ==> #[trigger] ansi_library_part_9(m).dom().contains(k),
{
}

proof fn lemma_part_10_keeps_names(m: Map<Seq<char>, ElementView>)
    ensures
        forall|k: Seq<char>| m.dom().contains(k) ==> #[trigger] ansi_library_part_10(m).dom().contains(k),
{
}

proof fn lemma_part_11_keeps_names(m: Map<Seq<char>, ElementView>)
    ensures
        forall|k: Seq<char>| m.dom().contains(k) ==> #[trigger] ansi_library_part_11(m).dom().contains(k),
{
}

proof fn lemma_part_9_sets_statement_segment(m: Map<Seq<char>, ElementView>)
    ensures
        ansi_library_part_9(m).dom().contains("StatementSegment"@),
        ansi_library_part_9(m)["StatementSegment"@] == statement_segment_element(),
{
    reveal_strlit("StatementSegment");
    reveal_strlit("WithDataClauseSegment");
    assert("StatementSegment"@.len() != "WithDataClauseSegment"@.len());
    reveal_strlit("WithNoSchemaBindingClauseSegment");
    assert("StatementSegment"@.len() != "WithNoSchemaBindingClauseSegment"@.len());
}

proof fn lemma_part_10_keeps_statement_segment(m: Map<Seq<char>, ElementView>)
    requires
        m.dom().contains("StatementSegment"@),
    ensures
        ansi_library_part_10(m).dom().contains("StatementSegment"@),
        ansi_library_part_10(m)["StatementSegment"@] == m["StatementSegment"@],
{
    reveal_strlit("StatementSegment");
    reveal_strlit("AccessStatementSegmentGrantRoleWithOptionGrammar");
    assert("StatementSegment"@.len() != "AccessStatementSegmentGrantRoleWithOptionGrammar"@.len());
    reveal_strlit("AliasedTableReferenceGrammar");
    assert("StatementSegment"@.len() != "AliasedTableReferenceGrammar"@.len());
    reveal_strlit("CharCharacterSetGrammar");
    assert("StatementSegment"@.len() != "CharCharacterSetGrammar"@.len());
    reveal_strlit("CreateSchemaStatementSegment");
    assert("StatementSegment"@.len() != "CreateSchemaStatementSegment"@.len());
    reveal_strlit("DatePartFunctionNameSegment");
    assert("StatementSegment"@.len() != "DatePartFunctionNameSegment"@.len());
    reveal_strlit("EmptyStructLiteralBracketsSegment");
    assert("StatementSegment"@.len() != "EmptyStructLiteralBracketsSegment"@.len());
    reveal_strlit("Expression_A_Grammar");
    assert("StatementSegment"@.len() != "Expression_A_Grammar"@.len());
    reveal_strlit("Expression_A_Unary_Operator_Grammar");
    assert("StatementSegment"@.len() != "Expression_A_Unary_Operator_Grammar"@.len());
    reveal_strlit("Expression_B_Unary_Operator_Grammar");
    assert("StatementSegment"@.len() != "Expression_B_Unary_Operator_Grammar"@.len());
    reveal_strlit("FromClauseSegment");
    assert("StatementSegment"@.len() != "FromClauseSegment"@.len());
    reveal_strlit("FromExpressionSegment");
    assert("StatementSegment"@.len() != "FromExpressionSegment"@.len());
    reveal_strlit("FunctionContentsExpressionGrammar");
    assert("StatementSegment"@.len() != "FunctionContentsExpressionGrammar"@.len());
    reveal_strlit("FunctionContentsGrammar");
    assert("StatementSegment"@.len() != "FunctionContentsGrammar"@.len());
    reveal_strlit("FunctionContentsSegment");
    assert("StatementSegment"@.len() != "FunctionContentsSegment"@.len());
    reveal_strlit("JoinLikeClauseGrammar");
    assert("StatementSegment"@.len() != "JoinLikeClauseGrammar"@.len());
    reveal_strlit("OrderByClauseSegment");
    assert("StatementSegment"@.len() != "OrderByClauseSegment"@.len());
    reveal_strlit("PostFunctionGrammar");
    assert("StatementSegment"@.len() != "PostFunctionGrammar"@.len());
    reveal_strlit("SelectClauseElementSegment");
    assert("StatementSegment"@.len() != "SelectClauseElementSegment"@.len());
    reveal_strlit("SelectClauseModifierSegment");
    assert("StatementSegment"@.len() != "SelectClauseModifierSegment"@.len());
    reveal_strlit("SelectStatementSegment");
    assert("StatementSegment"@.len() != "SelectStatementSegment"@.len());
    reveal_strlit("SetExpressionSegment");
    assert("StatementSegment"@.len() != "SetExpressionSegment"@.len());
    reveal_strlit("Tail_Recurse_Expression_A_Grammar");
    assert("StatementSegment"@.len() != "Tail_Recurse_Expression_A_Grammar"@.len());
    reveal_strlit("Tail_Recurse_Expression_B_Grammar");
    assert("StatementSegment"@.len() != "Tail_Recurse_Expression_B_Grammar"@.len());
    reveal_strlit("TruncateStatementSegment");
    assert("StatementSegment"@.len() != "TruncateStatementSegment"@.len());
    reveal_strlit("WildcardExpressionSegment");
    assert("StatementSegment"@.len() != "WildcardExpressionSegment"@.len());
}

proof fn lemma_part_11_keeps_statement_segment(m: Map<Seq<char>, ElementView>)
    requires
        m.dom().contains("StatementSegment"@),
    ensures
        ansi_library_part_11(m).dom().contains("StatementSegment"@),
        ansi_library_part_11(m)["StatementSegment"@] == m["StatementSegment"@],
{
    reveal_strlit("StatementSegment");
    reveal_strlit("AccessorGrammar");
    assert("StatementSegment"@.len() != "AccessorGrammar"@.len());
    reveal_strlit("Expression_B_Grammar");
    assert("StatementSegment"@.len() != "Expression_B_Grammar"@.len());
    reveal_strlit("Expression_C_Grammar");
    assert("StatementSegment"@.len() != "Expression_C_Grammar"@.len());
    reveal_strlit("Expression_D_Grammar");
    assert("StatementSegment"@.len() != "Expression_D_Grammar"@.len());
    reveal_strlit("NonSetSelectableGrammar");
    assert("StatementSegment"@.len() != "NonSetSelectableGrammar"@.len());
    reveal_strlit("NonWithNonSelectableGrammar");
    assert("StatementSegment"@.len() != "NonWithNonSelectableGrammar"@.len());
    reveal_strlit("NonWithSelectableGrammar");
    assert("StatementSegment"@.len() != "NonWithSelectableGrammar"@.len());
    reveal_strlit("PostTableExpressionGrammar");
    assert("StatementSegment"@.len() != "PostTableExpressionGrammar"@.len());
    reveal_strlit("SelectableGrammar");
    assert("StatementSegment"@.len() != "SelectableGrammar"@.len());
    reveal_strlit("TimeWithTZGrammar");
    assert("StatementSegment"@.len() != "TimeWithTZGrammar"@.len());
}

/// The ANSI library holds `StatementSegment`: the value of its last entry of that name.
pub proof fn lemma_ansi_library_statement_segment(lib: Map<Seq<char>, ElementView>)
    ensures
        ansi_library(lib).dom().contains("StatementSegment"@),
        ansi_library(lib)["StatementSegment"@] == statement_segment_element(),
{
    reveal(ansi_library);
    let m0 = lib;
    let m1 = ansi_library_part_0(m0);
    let m2 = ansi_library_part_1(m1);
    let m3 = ansi_library_part_2(m2);
    let m4 = ansi_library_part_3(m3);
    let m5 = ansi_library_part_4(m4);
    let m6 = ansi_library_part_5(m5);
    let m7 = ansi_library_part_6(m6);
    let m8 = ansi_library_part_7(m7);
    let m9 = ansi_library_part_8(m8);
    let m10 = ansi_library_part_9(m9);
    let m11 = ansi_library_part_10(m10);
    let m12 = ansi_library_part_11(m11);
    lemma_part_9_sets_statement_segment(m9);
    lemma_part_10_keeps_statement_segment(m10);
    lemma_part_11_keeps_statement_segment(m11);
}

proof fn lemma_part_10_sets_select_statement_segment(m: Map<Seq<char>, ElementView>)
    ensures
        ansi_library_part_10(m).dom().contains("SelectStatementSegment"@),
        ansi_library_part_10(m)["SelectStatementSegment"@] == select_statement_segment_element(),
{
    reveal_strlit("SelectStatementSegment");
    reveal_strlit("AccessStatementSegmentGrantRoleWithOptionGrammar");
    assert("SelectStatementSegment"@.len() != "AccessStatementSegmentGrantRoleWithOptionGrammar"@.len());
    reveal_strlit("AliasedTableReferenceGrammar");
    assert("SelectStatementSegment"@.len() != "AliasedTableReferenceGrammar"@.len());
    reveal_strlit("CharCharacterSetGrammar");
    assert("SelectStatementSegment"@.len() != "CharCharacterSetGrammar"@.len());
    reveal_strlit("CreateSchemaStatementSegment");
    assert("SelectStatementSegment"@.len() != "CreateSchemaStatementSegment"@.len());
    reveal_strlit("Expression_A_Grammar");
    assert("SelectStatementSegment"@.len() != "Expression_A_Grammar"@.len());
    reveal_strlit("Expression_A_Unary_Operator_Grammar");
    assert("SelectStatementSegment"@.len() != "Expression_A_Unary_Operator_Grammar"@.len());
    reveal_strlit("Expression_B_Unary_Operator_Grammar");
    assert("SelectStatementSegment"@.len() != "Expression_B_Unary_Operator_Grammar"@.len());
    reveal_strlit("FunctionContentsExpressionGrammar");
    assert("SelectStatementSegment"@.len() != "FunctionContentsExpressionGrammar"@.len());
    reveal_strlit("FunctionContentsGrammar");
    assert("SelectStatementSegment"@.len() != "FunctionContentsGrammar"@.len());
    reveal_strlit("FunctionContentsSegment");
    assert("SelectStatementSegment"@.len() != "FunctionContentsSegment"@.len());
    reveal_strlit("JoinLikeClauseGrammar");
    assert("SelectStatementSegment"@.len() != "JoinLikeClauseGrammar"@.len());
    reveal_strlit("PostFunctionGrammar");
    assert("SelectStatementSegment"@.len() != "PostFunctionGrammar"@.len());
    reveal_strlit("SelectClauseElementSegment");
    assert("SelectStatementSegment"@.len() != "SelectClauseElementSegment"@.len());
    reveal_strlit("SelectClauseModifierSegment");
    assert("SelectStatementSegment"@.len() != "SelectClauseModifierSegment"@.len());
    reveal_strlit("Tail_Recurse_Expression_A_Grammar");
    assert("SelectStatementSegment"@.len() != "Tail_Recurse_Expression_A_Grammar"@.len());
    reveal_strlit("Tail_Recurse_Expression_B_Grammar");
    assert("SelectStatementSegment"@.len() != "Tail_Recurse_Expression_B_Grammar"@.len());
}

proof fn lemma_part_11_keeps_select_statement_segment(m: Map<Seq<char>, ElementView>)
    requires
        m.dom().contains("SelectStatementSegment"@),
    ensures
        ansi_library_part_11(m).dom().contains("SelectStatementSegment"@),
        ansi_library_part_11(m)["SelectStatementSegment"@] == m["SelectStatementSegment"@],
{
    reveal_strlit("SelectStatementSegment");
    reveal_strlit("AccessorGrammar");
    assert("SelectStatementSegment"@.len() != "AccessorGrammar"@.len());
    reveal_strlit("Expression_B_Grammar");
    assert("SelectStatementSegment"@.len() != "Expression_B_Grammar"@.len());
    reveal_strlit("Expression_C_Grammar");
    assert("SelectStatementSegment"@.len() != "Expression_C_Grammar"@.len());
    reveal_strlit("Expression_D_Grammar");
    assert("SelectStatementSegment"@.len() != "Expression_D_Grammar"@.len());
    reveal_strlit("NonSetSelectableGrammar");
    assert("SelectStatementSegment"@.len() != "NonSetSelectableGrammar"@.len());
    reveal_strlit("NonWithNonSelectableGrammar");
    assert("SelectStatementSegment"@.len() != "NonWithNonSelectableGrammar"@.len());
    reveal_strlit("NonWithSelectableGrammar");
    assert("SelectStatementSegment"@.len() != "NonWithSelectableGrammar"@.len());
    reveal_strlit("PostTableExpressionGrammar");
    assert("SelectStatementSegment"@.len() != "PostTableExpressionGrammar"@.len());
    reveal_strlit("SelectableGrammar");
    assert("SelectStatementSegment"@.len() != "SelectableGrammar"@.len());
    reveal_strlit("TimeWithTZGrammar");
    assert("SelectStatementSegment"@.len() != "TimeWithTZGrammar"@.len());
}

/// The ANSI library holds `SelectStatementSegment`: the value of its last entry of that name.
pub proof fn lemma_ansi_library_select_statement_segment(lib: Map<Seq<char>, ElementView>)
    ensures
        ansi_library(lib).dom().contains("SelectStatementSegment"@),
        ansi_library(lib)["SelectStatementSegment"@] == select_statement_segment_element(),
{
    reveal(ansi_library);
    let m0 = lib;
    let m1 = ansi_library_part_0(m0);
    let m2 = ansi_library_part_1(m1);
    let m3 = ansi_library_part_2(m2);
    let m4 = ansi_library_part_3(m3);
    let m5 = ansi_library_part_4(m4);
    let m6 = ansi_library_part_5(m5);
    let m7 = ansi_library_part_6(m6);
    let m8 = ansi_library_part_7(m7);
    let m9 = ansi_library_part_8(m8);
    let m10 = ansi_library_part_9(m9);
    let m11 = ansi_library_part_10(m10);
    let m12 = ansi_library_part_11(m11);
    lemma_part_10_sets_select_statement_segment(m10);
    lemma_part_11_keeps_select_statement_segment(m11);
}

proof fn lemma_part_9_sets_select_clause_segment(m: Map<Seq<char>, ElementView>)
    ensures
        ansi_library_part_9(m).dom().contains("SelectClauseSegment"@),
        ansi_library_part_9(m)["SelectClauseSegment"@] == select_clause_segment_element(),
{
    reveal_strlit("SelectClauseSegment");
    reveal_strlit("StatementSegment");
    assert("SelectClauseSegment"@.len() != "StatementSegment"@.len());
    reveal_strlit("WithDataClauseSegment");
    assert("SelectClauseSegment"@.len() != "WithDataClauseSegment"@.len());
    reveal_strlit("WithNoSchemaBindingClauseSegment");
    assert("SelectClauseSegment"@.len() != "WithNoSchemaBindingClauseSegment"@.len());
}

proof fn lemma_part_10_keeps_select_clause_segment(m: Map<Seq<char>, ElementView>)
    requires
        m.dom().contains("SelectClauseSegment"@),
    ensures
        ansi_library_part_10(m).dom().contains("SelectClauseSegment"@),
        ansi_library_part_10(m)["SelectClauseSegment"@] == m["SelectClauseSegment"@],
{
    reveal_strlit("SelectClauseSegment");
    reveal_strlit("AccessStatementSegmentGrantRoleWithOptionGrammar");
    assert("SelectClauseSegment"@.len() != "AccessStatementSegmentGrantRoleWithOptionGrammar"@.len());
    reveal_strlit("AliasedTableReferenceGrammar");
    assert("SelectClauseSegment"@.len() != "AliasedTableReferenceGrammar"@.len());
    reveal_strlit("CharCharacterSetGrammar");
    assert("SelectClauseSegment"@.len() != "CharCharacterSetGrammar"@.len());
    reveal_strlit("CreateSchemaStatementSegment");
    assert("SelectClauseSegment"@.len() != "CreateSchemaStatementSegment"@.len());
    reveal_strlit("DatePartFunctionNameSegment");
    assert("SelectClauseSegment"@.len() != "DatePartFunctionNameSegment"@.len());
    reveal_strlit("EmptyStructLiteralBracketsSegment");
    assert("SelectClauseSegment"@.len() != "EmptyStructLiteralBracketsSegment"@.len());
    reveal_strlit("Expression_A_Grammar");
    assert("SelectClauseSegment"@.len() != "Expression_A_Grammar"@.len());
    reveal_strlit("Expression_A_Unary_Operator_Grammar");
    assert("SelectClauseSegment"@.len() != "Expression_A_Unary_Operator_Grammar"@.len());
    reveal_strlit("Expression_B_Unary_Operator_Grammar");
    assert("SelectClauseSegment"@.len() != "Expression_B_Unary_Operator_Grammar"@.len());
    reveal_strlit("FromClauseSegment");
    assert("SelectClauseSegment"@.len() != "FromClauseSegment"@.len());
    reveal_strlit("FromExpressionSegment");
    assert("SelectClauseSegment"@.len() != "FromExpressionSegment"@.len());
    reveal_strlit("FunctionContentsExpressionGrammar");
    assert("SelectClauseSegment"@.len() != "FunctionContentsExpressionGrammar"@.len());
    reveal_strlit("FunctionContentsGrammar");
    assert("SelectClauseSegment"@.len() != "FunctionContentsGrammar"@.len());
    reveal_strlit("FunctionContentsSegment");
    assert("SelectClauseSegment"@.len() != "FunctionContentsSegment"@.len());
    reveal_strlit("JoinLikeClauseGrammar");
    assert("SelectClauseSegment"@.len() != "JoinLikeClauseGrammar"@.len());
    reveal_strlit("OrderByClauseSegment");
    assert("SelectClauseSegment"@.len() != "OrderByClauseSegment"@.len());
    reveal_strlit("PostFunctionGrammar");
    assert("SelectClauseSegment"@[0] != "PostFunctionGrammar"@[0]);
    reveal_strlit("SelectClauseElementSegment");
    assert("SelectClauseSegment"@.len() != "SelectClauseElementSegment"@.len());
    reveal_strlit("SelectClauseModifierSegment");
    assert("SelectClauseSegment"@.len() != "SelectClauseModifierSegment"@.len());
    reveal_strlit("SelectStatementSegment");
    assert("SelectClauseSegment"@.len() != "SelectStatementSegment"@.len());
    reveal_strlit("SetExpressionSegment");
    assert("SelectClauseSegment"@.len() != "SetExpressionSegment"@.len());
    reveal_strlit("Tail_Recurse_Expression_A_Grammar");
    assert("SelectClauseSegment"@.len() != "Tail_Recurse_Expression_A_Grammar"@.len());
    reveal_strlit("Tail_Recurse_Expression_B_Grammar");
    assert("SelectClauseSegment"@.len() != "Tail_Recurse_Expression_B_Grammar"@.len());
    reveal_strlit("TruncateStatementSegment");
    assert("SelectClauseSegment"@.len() != "TruncateStatementSegment"@.len());
    reveal_strlit("WildcardExpressionSegment");
    assert("SelectClauseSegment"@.len() != "WildcardExpressionSegment"@.len());
}

proof fn lemma_part_11_keeps_select_clause_segment(m: Map<Seq<char>, ElementView>)
    requires
        m.dom().contains("SelectClauseSegment"@),
    ensures
        ansi_library_part_11(m).dom().contains("SelectClauseSegment"@),
        ansi_library_part_11(m)["SelectClauseSegment"@] == m["SelectClauseSegment"@],
{
    reveal_strlit("SelectClauseSegment");
    reveal_strlit("AccessorGrammar");
    assert("SelectClauseSegment"@.len() != "AccessorGrammar"@.len());
    reveal_strlit("Expression_B_Grammar");
    assert("SelectClauseSegment"@.len() != "Expression_B_Grammar"@.len());
    reveal_strlit("Expression_C_Grammar");
    assert("SelectClauseSegment"@.len() != "Expression_C_Grammar"@.len());
    reveal_strlit("Expression_D_Grammar");
    assert("SelectClauseSegment"@.len() != "Expression_D_Grammar"@.len());
    reveal_strlit("NonSetSelectableGrammar");
    assert("SelectClauseSegment"@.len() != "NonSetSelectableGrammar"@.len());
    reveal_strlit("NonWithNonSelectableGrammar");
    assert("SelectClauseSegment"@.len() != "NonWithNonSelectableGrammar"@.len());
    reveal_strlit("NonWithSelectableGrammar");
    assert("SelectClauseSegment"@.len() != "NonWithSelectableGrammar"@.len());
    reveal_strlit("PostTableExpressionGrammar");
    assert("SelectClauseSegment"@.len() != "PostTableExpressionGrammar"@.len());
    reveal_strlit("SelectableGrammar");
    assert("SelectClauseSegment"@.len() != "SelectableGrammar"@.len());
    reveal_strlit("TimeWithTZGrammar");
    assert("SelectClauseSegment"@.len() != "TimeWithTZGrammar"@.len());
}

/// The ANSI library holds `SelectClauseSegment`: the value of its last entry of that name.
pub proof fn lemma_ansi_library_select_clause_segment(lib: Map<Seq<char>, ElementView>)
    ensures
        ansi_library(lib).dom().contains("SelectClauseSegment"@),
        ansi_library(lib)["SelectClauseSegment"@] == select_clause_segment_element(),
{
    reveal(ansi_library);
    let m0 = lib;
    let m1 = ansi_library_part_0(m0);
    let m2 = ansi_library_part_1(m1);
    let m3 = ansi_library_part_2(m2);
    let m4 = ansi_library_part_3(m3);
    let m5 = ansi_library_part_4(m4);
    let m6 = ansi_library_part_5(m5);
    let m7 = ansi_library_part_6(m6);
    let m8 = ansi_library_part_7(m7);
    let m9 = ansi_library_part_8(m8);
    let m10 = ansi_library_part_9(m9);
    let m11 = ansi_library_part_10(m10);
    let m12 = ansi_library_part_11(m11);
    lemma_part_9_sets_select_clause_segment(m9);
    lemma_part_10_keeps_select_clause_segment(m10);
    lemma_part_11_keeps_select_clause_segment(m11);
}

proof fn lemma_part_10_sets_select_clause_element_segment(m: Map<Seq<char>, ElementView>)
    ensures
        ansi_library_part_10(m).dom().contains("SelectClauseElementSegment"@),
        ansi_library_part_10(m)["SelectClauseElementSegment"@] == select_clause_element_segment_element(),
{
    reveal_strlit("SelectClauseElementSegment");
    reveal_strlit("AccessStatementSegmentGrantRoleWithOptionGrammar");
    assert("SelectClauseElementSegment"@.len() != "AccessStatementSegmentGrantRoleWithOptionGrammar"@.len());
    reveal_strlit("AliasedTableReferenceGrammar");
    assert("SelectClauseElementSegment"@.len() != "AliasedTableReferenceGrammar"@.len());
    reveal_strlit("CharCharacterSetGrammar");
    assert("SelectClauseElementSegment"@.len() != "CharCharacterSetGrammar"@.len());
    reveal_strlit("Expression_A_Grammar");
    assert("SelectClauseElementSegment"@.len() != "Expression_A_Grammar"@.len());
    reveal_strlit("Expression_A_Unary_Operator_Grammar");
    assert("SelectClauseElementSegment"@.len() != "Expression_A_Unary_Operator_Grammar"@.len());
    reveal_strlit("Expression_B_Unary_Operator_Grammar");
    assert("SelectClauseElementSegment"@.len() != "Expression_B_Unary_Operator_Grammar"@.len());
    reveal_strlit("FunctionContentsExpressionGrammar");
    assert("SelectClauseElementSegment"@.len() != "FunctionContentsExpressionGrammar"@.len());
    reveal_strlit("FunctionContentsGrammar");
    assert("SelectClauseElementSegment"@.len() != "FunctionContentsGrammar"@.len());
    reveal_strlit("FunctionContentsSegment");
    assert("SelectClauseElementSegment"@.len() != "FunctionContentsSegment"@.len());
    reveal_strlit("JoinLikeClauseGrammar");
    assert("SelectClauseElementSegment"@.len() != "JoinLikeClauseGrammar"@.len());
    reveal_strlit("PostFunctionGrammar");
    assert("SelectClauseElementSegment"@.len() != "PostFunctionGrammar"@.len());
    reveal_strlit("Tail_Recurse_Expression_A_Grammar");
    assert("SelectClauseElementSegment"@.len() != "Tail_Recurse_Expression_A_Grammar"@.len());
    reveal_strlit("Tail_Recurse_Expression_B_Grammar");
    assert("SelectClauseElementSegment"@.len() != "Tail_Recurse_Expression_B_Grammar"@.len());
}

proof fn lemma_part_11_keeps_select_clause_element_segment(m: Map<Seq<char>, ElementView>)
    requires
        m.dom().contains("SelectClauseElementSegment"@),
    ensures
        ansi_library_part_11(m).dom().contains("SelectClauseElementSegment"@),
        ansi_library_part_11(m)["SelectClauseElementSegment"@] == m["SelectClauseElementSegment"@],
{
    reveal_strlit("SelectClauseElementSegment");
    reveal_strlit("AccessorGrammar");
    assert("SelectClauseElementSegment"@.len() != "AccessorGrammar"@.len());
    reveal_strlit("Expression_B_Grammar");
    assert("SelectClauseElementSegment"@.len() != "Expression_B_Grammar"@.len());
    reveal_strlit("Expression_C_Grammar");
    assert("SelectClauseElementSegment"@.len() != "Expression_C_Grammar"@.len());
    reveal_strlit("Expression_D_Grammar");
    assert("SelectClauseElementSegment"@.len() != "Expression_D_Grammar"@.len());
    reveal_strlit("NonSetSelectableGrammar");
    assert("SelectClauseElementSegment"@.len() != "NonSetSelectableGrammar"@.len());
    reveal_strlit("NonWithNonSelectableGrammar");
    assert("SelectClauseElementSegment"@.len() != "NonWithNonSelectableGrammar"@.len());
    reveal_strlit("NonWithSelectableGrammar");
    assert("SelectClauseElementSegment"@.len() != "NonWithSelectableGrammar"@.len());
    reveal_strlit("PostTableExpressionGrammar");
    assert("SelectClauseElementSegment"@[0] != "PostTableExpressionGrammar"@[0]);
    reveal_strlit("SelectableGrammar");
    assert("SelectClauseElementSegment"@.len() != "SelectableGrammar"@.len());
    reveal_strlit("TimeWithTZGrammar");
    assert("SelectClauseElementSegment"@.len() != "TimeWithTZGrammar"@.len());
}

/// The ANSI library holds `SelectClauseElementSegment`: the value of its last entry of that name.
pub proof fn lemma_ansi_library_select_clause_element_segment(lib: Map<Seq<char>, ElementView>)
    ensures
        ansi_library(lib).dom().contains("SelectClauseElementSegment"@),
        ansi_library(lib)["SelectClauseElementSegment"@] == select_clause_element_segment_element(),
{
    reveal(ansi_library);
    let m0 = lib;
    let m1 = ansi_library_part_0(m0);
    let m2 = ansi_library_part_1(m1);
    let m3 = ansi_library_part_2(m2);
    let m4 = ansi_library_part_3(m3);
    let m5 = ansi_library_part_4(m4);
    let m6 = ansi_library_part_5(m5);
    let m7 = ansi_library_part_6(m6);
    let m8 = ansi_library_part_7(m7);
    let m9 = ansi_library_part_8(m8);
    let m10 = ansi_library_part_9(m9);
    let m11 = ansi_library_part_10(m10);
    let m12 = ansi_library_part_11(m11);
    lemma_part_10_sets_select_clause_element_segment(m10);
    lemma_part_11_keeps_select_clause_element_segment(m11);
}

proof fn lemma_part_10_sets_wildcard_expression_segment(m: Map<Seq<char>, ElementView>)
    ensures
        ansi_library_part_10(m).dom().contains("WildcardExpressionSegment"@),
        ansi_library_part_10(m)["WildcardExpressionSegment"@] == wildcard_expression_segment_element(),
{
    reveal_strlit("WildcardExpressionSegment");
    reveal_strlit("AccessStatementSegmentGrantRoleWithOptionGrammar");
    assert("WildcardExpressionSegment"@.len() != "AccessStatementSegmentGrantRoleWithOptionGrammar"@.len());
    reveal_strlit("AliasedTableReferenceGrammar");
    assert("WildcardExpressionSegment"@.len() != "AliasedTableReferenceGrammar"@.len());
    reveal_strlit("CharCharacterSetGrammar");
    assert("WildcardExpressionSegment"@.len() != "CharCharacterSetGrammar"@.len());
    reveal_strlit("CreateSchemaStatementSegment");
    assert("WildcardExpressionSegment"@.len() != "CreateSchemaStatementSegment"@.len());
    reveal_strlit("DatePartFunctionNameSegment");
    assert("WildcardExpressionSegment"@.len() != "DatePartFunctionNameSegment"@.len());
    reveal_strlit("Expression_A_Grammar");
    assert("WildcardExpressionSegment"@.len() != "Expression_A_Grammar"@.len());
    reveal_strlit("Expression_A_Unary_Operator_Grammar");
    assert("WildcardExpressionSegment"@.len() != "Expression_A_Unary_Operator_Grammar"@.len());
    reveal_strlit("Expression_B_Unary_Operator_Grammar");
    assert("WildcardExpressionSegment"@.len() != "Expression_B_Unary_Operator_Grammar"@.len());
    reveal_strlit("FromExpressionSegment");
    assert("WildcardExpressionSegment"@.len() != "FromExpressionSegment"@.len());
    reveal_strlit("FunctionContentsExpressionGrammar");
    assert("WildcardExpressionSegment"@.len() != "FunctionContentsExpressionGrammar"@.len());
    reveal_strlit("FunctionContentsGrammar");
    assert("WildcardExpressionSegment"@.len() != "FunctionContentsGrammar"@.len());
    reveal_strlit("FunctionContentsSegment");
    assert("WildcardExpressionSegment"@.len() != "FunctionContentsSegment"@.len());
    reveal_strlit("JoinLikeClauseGrammar");
    assert("WildcardExpressionSegment"@.len() != "JoinLikeClauseGrammar"@.len());
    reveal_strlit("OrderByClauseSegment");
    assert("WildcardExpressionSegment"@.len() != "OrderByClauseSegment"@.len());
    reveal_strlit("PostFunctionGrammar");
    assert("WildcardExpressionSegment"@.len() != "PostFunctionGrammar"@.len());
    reveal_strlit("SelectClauseElementSegment");
    assert("WildcardExpressionSegment"@.len() != "SelectClauseElementSegment"@.len());
    reveal_strlit("SelectClauseModifierSegment");
    assert("WildcardExpressionSegment"@.len() != "SelectClauseModifierSegment"@.len());
    reveal_strlit("SelectStatementSegment");
    assert("WildcardExpressionSegment"@.len() != "SelectStatementSegment"@.len());
    reveal_strlit("Tail_Recurse_Expression_A_Grammar");
    assert("WildcardExpressionSegment"@.len() != "Tail_Recurse_Expression_A_Grammar"@.len());
    reveal_strlit("Tail_Recurse_Expression_B_Grammar");
    assert("WildcardExpressionSegment"@.len() != "Tail_Recurse_Expression_B_Grammar"@.len());
    reveal_strlit("TruncateStatementSegment");
    assert("WildcardExpressionSegment"@.len() != "TruncateStatementSegment"@.len());
}

proof fn lemma_part_11_keeps_wildcard_expression_segment(m: Map<Seq<char>, ElementView>)
    requires
        m.dom().contains("WildcardExpressionSegment"@),
    ensures
        ansi_library_part_11(m).dom().contains("WildcardExpressionSegment"@),
        ansi_library_part_11(m)["WildcardExpressionSegment"@] == m["WildcardExpressionSegment"@],
{
    reveal_strlit("WildcardExpressionSegment");
    reveal_strlit("AccessorGrammar");
    assert("WildcardExpressionSegment"@.len() != "AccessorGrammar"@.len());
    reveal_strlit("Expression_B_Grammar");
    assert("WildcardExpressionSegment"@.len() != "Expression_B_Grammar"@.len());
    reveal_strlit("Expression_C_Grammar");
    assert("WildcardExpressionSegment"@.len() != "Expression_C_Grammar"@.len());
    reveal_strlit("Expression_D_Grammar");
    assert("WildcardExpressionSegment"@.len() != "Expression_D_Grammar"@.len());
    reveal_strlit("NonSetSelectableGrammar");
    assert("WildcardExpressionSegment"@.len() != "NonSetSelectableGrammar"@.len());
    reveal_strlit("NonWithNonSelectableGrammar");
    assert("WildcardExpressionSegment"@.len() != "NonWithNonSelectableGrammar"@.len());
    reveal_strlit("NonWithSelectableGrammar");
    assert("WildcardExpressionSegment"@.len() != "NonWithSelectableGrammar"@.len());
    reveal_strlit("PostTableExpressionGrammar");
    assert("WildcardExpressionSegment"@.len() != "PostTableExpressionGrammar"@.len());
    reveal_strlit("SelectableGrammar");
    assert("WildcardExpressionSegment"@.len() != "SelectableGrammar"@.len());
    reveal_strlit("TimeWithTZGrammar");
    assert("WildcardExpressionSegment"@.len() != "TimeWithTZGrammar"@.len());
}

/// The ANSI library holds `WildcardExpressionSegment`: the value of its last entry of that name.
pub proof fn lemma_ansi_library_wildcard_expression_segment(lib: Map<Seq<char>, ElementView>)
    ensures
        ansi_library(lib).dom().contains("WildcardExpressionSegment"@),
        ansi_library(lib)["WildcardExpressionSegment"@] == wildcard_expression_segment_element(),
{
    reveal(ansi_library);
    let m0 = lib;
    let m1 = ansi_library_part_0(m0);
    let m2 = ansi_library_part_1(m1);
    let m3 = ansi_library_part_2(m2);
    let m4 = ansi_library_part_3(m3);
    let m5 = ansi_library_part_4(m4);
    let m6 = ansi_library_part_5(m5);
    let m7 = ansi_library_part_6(m6);
    let m8 = ansi_library_part_7(m7);
    let m9 = ansi_library_part_8(m8);
    let m10 = ansi_library_part_9(m9);
    let m11 = ansi_library_part_10(m10);
    let m12 = ansi_library_part_11(m11);
    lemma_part_10_sets_wildcard_expression_segment(m10);
    lemma_part_11_keeps_wildcard_expression_segment(m11);
}

proof fn lemma_part_3_sets_select_clause_terminator_grammar(m: Map<Seq<char>, ElementView>)
    ensures
        ansi_library_part_3(m).dom().contains("SelectClauseTerminatorGrammar"@),
        ansi_library_part_3(m)["SelectClauseTerminatorGrammar"@] == select_clause_terminator_grammar_element(),
{
    reveal_strlit("SelectClauseTerminatorGrammar");
    reveal_strlit("AutoIncrementGrammar");
    assert("SelectClauseTerminatorGrammar"@.len() != "AutoIncrementGrammar"@.len());
    reveal_strlit("BaseExpressionElementGrammar");
    assert("SelectClauseTerminatorGrammar"@.len() != "BaseExpressionElementGrammar"@.len());
    reveal_strlit("CollateGrammar");
    assert("SelectClauseTerminatorGrammar"@.len() != "CollateGrammar"@.len());
    reveal_strlit("DropBehaviorGrammar");
    assert("SelectClauseTerminatorGrammar"@.len() != "DropBehaviorGrammar"@.len());
    reveal_strlit("ExtendedNaturalJoinKeywordsGrammar");
    assert("SelectClauseTerminatorGrammar"@.len() != "ExtendedNaturalJoinKeywordsGrammar"@.len());
    reveal_strlit("FilterClauseGrammar");
    assert("SelectClauseTerminatorGrammar"@.len() != "FilterClauseGrammar"@.len());
    reveal_strlit("ForeignKeyGrammar");
    assert("SelectClauseTerminatorGrammar"@.len() != "ForeignKeyGrammar"@.len());
    reveal_strlit("FrameClauseUnitGrammar");
    assert("SelectClauseTerminatorGrammar"@.len() != "FrameClauseUnitGrammar"@.len());
    reveal_strlit("FromClauseTerminatorGrammar");
    assert("SelectClauseTerminatorGrammar"@.len() != "FromClauseTerminatorGrammar"@.len());
    reveal_strlit("FunctionParameterGrammar");
    assert("SelectClauseTerminatorGrammar"@.len() != "FunctionParameterGrammar"@.len());
    reveal_strlit("GroupByClauseTerminatorGrammar");
    assert("SelectClauseTerminatorGrammar"@.len() != "GroupByClauseTerminatorGrammar"@.len());
    reveal_strlit("HavingClauseTerminatorGrammar");
    assert("SelectClauseTerminatorGrammar"@[0] != "HavingClauseTerminatorGrammar"@[0]);
    reveal_strlit("IgnoreRespectNullsGrammar");
    assert("SelectClauseTerminatorGrammar"@.len() != "IgnoreRespectNullsGrammar"@.len());
    reveal_strlit("IsNullGrammar");
    assert("SelectClauseTerminatorGrammar"@.len() != "IsNullGrammar"@.len());
    reveal_strlit("JoinKeywordsGrammar");
    assert("SelectClauseTerminatorGrammar"@.len() != "JoinKeywordsGrammar"@.len());
    reveal_strlit("JoinTypeKeywordsGrammar");
    assert("SelectClauseTerminatorGrammar"@.len() != "JoinTypeKeywordsGrammar"@.len());
    reveal_strlit("NaturalJoinKeywordsGrammar");
    assert("SelectClauseTerminatorGrammar"@.len() != "NaturalJoinKeywordsGrammar"@.len());
    reveal_strlit("NestedJoinGrammar");
    assert("SelectClauseTerminatorGrammar"@.len() != "NestedJoinGrammar"@.len());
    reveal_strlit("NotNullGrammar");
    assert("SelectClauseTerminatorGrammar"@.len() != "NotNullGrammar"@.len());
    reveal_strlit("OrderByClauseTerminators");
    assert("SelectClauseTerminatorGrammar"@.len() != "OrderByClauseTerminators"@.len());
    reveal_strlit("PrimaryKeyGrammar");
    assert("SelectClauseTerminatorGrammar"@.len() != "PrimaryKeyGrammar"@.len());
    reveal_strlit("ReferentialActionGrammar");
    assert("SelectClauseTerminatorGrammar"@.len() != "ReferentialActionGrammar"@.len());
    reveal_strlit("UniqueKeyGrammar");
    assert("SelectClauseTerminatorGrammar"@.len() != "UniqueKeyGrammar"@.len());
    reveal_strlit("WhereClauseTerminatorGrammar");
    assert("SelectClauseTerminatorGrammar"@.len() != "WhereClauseTerminatorGrammar"@.len());
}

proof fn lemma_part_4_keeps_select_clause_terminator_grammar(m: Map<Seq<char>, ElementView>)
    requires
        m.dom().contains("SelectClauseTerminatorGrammar"@),
    ensures
        ansi_library_part_4(m).dom().contains("SelectClauseTerminatorGrammar"@),
        ansi_library_part_4(m)["SelectClauseTerminatorGrammar"@] == m["SelectClauseTerminatorGrammar"@],
{
    reveal_strlit("SelectClauseTerminatorGrammar");
    reveal_strlit("AlterTableDropColumnGrammar");
    assert("SelectClauseTerminatorGrammar"@.len() != "AlterTableDropColumnGrammar"@.len());
    reveal_strlit("AlterTableOptionsGrammar");
    assert("SelectClauseTerminatorGrammar"@.len() != "AlterTableOptionsGrammar"@.len());
    reveal_strlit("ColumnConstraintDefaultGrammar");
    assert("SelectClauseTerminatorGrammar"@.len() != "ColumnConstraintDefaultGrammar"@.len());
    reveal_strlit("ColumnReferenceSegment");
    assert("SelectClauseTerminatorGrammar"@.len() != "ColumnReferenceSegment"@.len());
    reveal_strlit("CubeFunctionNameSegment");
    assert("SelectClauseTerminatorGrammar"@.len() != "CubeFunctionNameSegment"@.len());
    reveal_strlit("CubeRollupClauseSegment");
    assert("SelectClauseTerminatorGrammar"@.len() != "CubeRollupClauseSegment"@.len());
    reveal_strlit("DateTimeFunctionContentsSegment");
    assert("SelectClauseTerminatorGrammar"@.len() != "DateTimeFunctionContentsSegment"@.len());
    reveal_strlit("DefaultValuesGrammar");
    assert("SelectClauseTerminatorGrammar"@.len() != "DefaultValuesGrammar"@.len());
    reveal_strlit("ExpressionSegment");
    assert("SelectClauseTerminatorGrammar"@.len() != "ExpressionSegment"@.len());
    reveal_strlit("FetchClauseSegment");
    assert("SelectClauseTerminatorGrammar"@.len() != "FetchClauseSegment"@.len());
    reveal_strlit("FileSegment");
    assert("SelectClauseTerminatorGrammar"@.len() != "FileSegment"@.len());
    reveal_strlit("FunctionSegment");
    assert("SelectClauseTerminatorGrammar"@.len() != "FunctionSegment"@.len());
    reveal_strlit("GroupingExpressionList");
    assert("SelectClauseTerminatorGrammar"@.len() != "GroupingExpressionList"@.len());
    reveal_strlit("GroupingSetsClauseSegment");
    assert("SelectClauseTerminatorGrammar"@.len() != "GroupingSetsClauseSegment"@.len());
    reveal_strlit("HavingClauseSegment");
    assert("SelectClauseTerminatorGrammar"@.len() != "HavingClauseSegment"@.len());
    reveal_strlit("LimitClauseSegment");
    assert("SelectClauseTerminatorGrammar"@.len() != "LimitClauseSegment"@.len());
    reveal_strlit("NamedWindowExpressionSegment");
    assert("SelectClauseTerminatorGrammar"@.len() != "NamedWindowExpressionSegment"@.len());
    reveal_strlit("ObjectReferenceDelimiterGrammar");
    assert("SelectClauseTerminatorGrammar"@.len() != "ObjectReferenceDelimiterGrammar"@.len());
    reveal_strlit("ObjectReferenceTerminatorGrammar");
    assert("SelectClauseTerminatorGrammar"@.len() != "ObjectReferenceTerminatorGrammar"@.len());
    reveal_strlit("PathSegment");
    assert("SelectClauseTerminatorGrammar"@.len() != "PathSegment"@.len());
    reveal_strlit("ReferenceDefinitionGrammar");
    assert("SelectClauseTerminatorGrammar"@.len() != "ReferenceDefinitionGrammar"@.len());
    reveal_strlit("RollupFunctionNameSegment");
    assert("SelectClauseTerminatorGrammar"@.len() != "RollupFunctionNameSegment"@.len());
    reveal_strlit("SetClauseSegment");
    assert("SelectClauseTerminatorGrammar"@.len() != "SetClauseSegment"@.len());
    reveal_strlit("TrimParametersGrammar");
    assert("SelectClauseTerminatorGrammar"@.len() != "TrimParametersGrammar"@.len());
    reveal_strlit("WildcardIdentifierSegment");
    assert("SelectClauseTerminatorGrammar"@.len() != "WildcardIdentifierSegment"@.len());
}

proof fn lemma_part_5_keeps_select_clause_terminator_grammar(m: Map<Seq<char>, ElementView>)
    requires
        m.dom().contains("SelectClauseTerminatorGrammar"@),
    ensures
        ansi_library_part_5(m).dom().contains("SelectClauseTerminatorGrammar"@),
        ansi_library_part_5(m)["SelectClauseTerminatorGrammar"@] == m["SelectClauseTerminatorGrammar"@],
{
    reveal_strlit("SelectClauseTerminatorGrammar");
    reveal_strlit("AlterSequenceOptionsSegment");
    assert("SelectClauseTerminatorGrammar"@.len() != "AlterSequenceOptionsSegment"@.len());
    reveal_strlit("CTEColumnList");
    assert("SelectClauseTerminatorGrammar"@.len() != "CTEColumnList"@.len());
    reveal_strlit("CTEDefinitionSegment");
    assert("SelectClauseTerminatorGrammar"@.len() != "CTEDefinitionSegment"@.len());
    reveal_strlit("ColumnConstraintSegment");
    assert("SelectClauseTerminatorGrammar"@.len() != "ColumnConstraintSegment"@.len());
    reveal_strlit("ColumnDefinitionSegment");
    assert("SelectClauseTerminatorGrammar"@.len() != "ColumnDefinitionSegment"@.len());
    reveal_strlit("CommentClauseSegment");
    assert("SelectClauseTerminatorGrammar"@.len() != "CommentClauseSegment"@.len());
    reveal_strlit("ExtensionReferenceSegment");
    assert("SelectClauseTerminatorGrammar"@.len() != "ExtensionReferenceSegment"@.len());
    reveal_strlit("FrameClauseSegment");
    assert("SelectClauseTerminatorGrammar"@.len() != "FrameClauseSegment"@.len());
    reveal_strlit("FunctionDefinitionGrammar");
    assert("SelectClauseTerminatorGrammar"@.len() != "FunctionDefinitionGrammar"@.len());
    reveal_strlit("GroupByClauseSegment");
    assert("SelectClauseTerminatorGrammar"@.len() != "GroupByClauseSegment"@.len());
    reveal_strlit("MergeDeleteClauseSegment");
    assert("SelectClauseTerminatorGrammar"@.len() != "MergeDeleteClauseSegment"@.len());
    reveal_strlit("MergeInsertClauseSegment");
    assert("SelectClauseTerminatorGrammar"@.len() != "MergeInsertClauseSegment"@.len());
    reveal_strlit("MergeMatchSegment");
    assert("SelectClauseTerminatorGrammar"@.len() != "MergeMatchSegment"@.len());
    reveal_strlit("MergeMatchedClauseSegment");
    assert("SelectClauseTerminatorGrammar"@.len() != "MergeMatchedClauseSegment"@.len());
    reveal_strlit("MergeNotMatchedClauseSegment");
    assert("SelectClauseTerminatorGrammar"@.len() != "MergeNotMatchedClauseSegment"@.len());
    reveal_strlit("MergeUpdateClauseSegment");
    assert("SelectClauseTerminatorGrammar"@.len() != "MergeUpdateClauseSegment"@.len());
    reveal_strlit("RoleReferenceSegment");
    assert("SelectClauseTerminatorGrammar"@.len() != "RoleReferenceSegment"@.len());
    reveal_strlit("SchemaReferenceSegment");
    assert("SelectClauseTerminatorGrammar"@.len() != "SchemaReferenceSegment"@.len());
    reveal_strlit("SetClauseListSegment");
    assert("SelectClauseTerminatorGrammar"@.len() != "SetClauseListSegment"@.len());
    reveal_strlit("SingleIdentifierListSegment");
    assert("SelectClauseTerminatorGrammar"@.len() != "SingleIdentifierListSegment"@.len());
    reveal_strlit("TableEndClauseSegment");
    assert("SelectClauseTerminatorGrammar"@.len() != "TableEndClauseSegment"@.len());
    reveal_strlit("TablespaceReferenceSegment");
    assert("SelectClauseTerminatorGrammar"@.len() != "TablespaceReferenceSegment"@.len());
    reveal_strlit("TagReferenceSegment");
    assert("SelectClauseTerminatorGrammar"@.len() != "TagReferenceSegment"@.len());
    reveal_strlit("WithCompoundNonSelectStatementSegment");
    assert("SelectClauseTerminatorGrammar"@.len() != "WithCompoundNonSelectStatementSegment"@.len());
    reveal_strlit("WithCompoundStatementSegment");
    assert("SelectClauseTerminatorGrammar"@.len() != "WithCompoundStatementSegment"@.len());
}

proof fn lemma_part_6_keeps_select_clause_terminator_grammar(m: Map<Seq<char>, ElementView>)
    requires
        m.dom().contains("SelectClauseTerminatorGrammar"@),
    ensures
        ansi_library_part_6(m).dom().contains("SelectClauseTerminatorGrammar"@),
        ansi_library_part_6(m)["SelectClauseTerminatorGrammar"@] == m["SelectClauseTerminatorGrammar"@],
{
    reveal_strlit("SelectClauseTerminatorGrammar");
    reveal_strlit("CollationReferenceSegment");
    assert("SelectClauseTerminatorGrammar"@.len() != "CollationReferenceSegment"@.len());
    reveal_strlit("CreateSequenceOptionsSegment");
    assert("SelectClauseTerminatorGrammar"@.len() != "CreateSequenceOptionsSegment"@.len());
    reveal_strlit("CreateSequenceStatementSegment");
    assert("SelectClauseTerminatorGrammar"@.len() != "CreateSequenceStatementSegment"@.len());
    reveal_strlit("CreateTriggerStatementSegment");
    assert("SelectClauseTerminatorGrammar"@[0] != "CreateTriggerStatementSegment"@[0]);
    reveal_strlit("DatabaseReferenceSegment");
    assert("SelectClauseTerminatorGrammar"@.len() != "DatabaseReferenceSegment"@.len());
    reveal_strlit("DescribeStatementSegment");
    assert("SelectClauseTerminatorGrammar"@.len() != "DescribeStatementSegment"@.len());
    reveal_strlit("DropModelStatementSegment");
    assert("SelectClauseTerminatorGrammar"@.len() != "DropModelStatementSegment"@.len());
    reveal_strlit("DropTriggerStatementSegment");
    assert("SelectClauseTerminatorGrammar"@.len() != "DropTriggerStatementSegment"@.len());
    reveal_strlit("ExplainStatementSegment");
    assert("SelectClauseTerminatorGrammar"@.len() != "ExplainStatementSegment"@.len());
    reveal_strlit("IndexReferenceSegment");
    assert("SelectClauseTerminatorGrammar"@.len() != "IndexReferenceSegment"@.len());
    reveal_strlit("JoinClauseSegment");
    assert("SelectClauseTerminatorGrammar"@.len() != "JoinClauseSegment"@.len());
    reveal_strlit("JoinOnConditionSegment");
    assert("SelectClauseTerminatorGrammar"@.len() != "JoinOnConditionSegment"@.len());
    reveal_strlit("NamedWindowSegment");
    assert("SelectClauseTerminatorGrammar"@.len() != "NamedWindowSegment"@.len());
    reveal_strlit("OverClauseSegment");
    assert("SelectClauseTerminatorGrammar"@.len() != "OverClauseSegment"@.len());
    reveal_strlit("PartitionClauseSegment");
    assert("SelectClauseTerminatorGrammar"@.len() != "PartitionClauseSegment"@.len());
    reveal_strlit("SamplingExpressionSegment");
    assert("SelectClauseTerminatorGrammar"@.len() != "SamplingExpressionSegment"@.len());
    reveal_strlit("SequenceReferenceSegment");
    assert("SelectClauseTerminatorGrammar"@.len() != "SequenceReferenceSegment"@.len());
    reveal_strlit("TableConstraintSegment");
    assert("SelectClauseTerminatorGrammar"@.len() != "TableConstraintSegment"@.len());
    reveal_strlit("TableExpressionSegment");
    assert("SelectClauseTerminatorGrammar"@.len() != "TableExpressionSegment"@.len());
    reveal_strlit("TriggerReferenceSegment");
    assert("SelectClauseTerminatorGrammar"@.len() != "TriggerReferenceSegment"@.len());
    reveal_strlit("UseStatementSegment");
    assert("SelectClauseTerminatorGrammar"@.len() != "UseStatementSegment"@.len());
    reveal_strlit("WindowSpecificationSegment");
    assert("SelectClauseTerminatorGrammar"@.len() != "WindowSpecificationSegment"@.len());
}

proof fn lemma_part_7_keeps_select_clause_terminator_grammar(m: Map<Seq<char>, ElementView>)
    requires
        m.dom().contains("SelectClauseTerminatorGrammar"@),
    ensures
        ansi_library_part_7(m).dom().contains("SelectClauseTerminatorGrammar"@),
        ansi_library_part_7(m)["SelectClauseTerminatorGrammar"@] == m["SelectClauseTerminatorGrammar"@],
{
    reveal_strlit("SelectClauseTerminatorGrammar");
    reveal_strlit("AccessStatementSegment");
    assert("SelectClauseTerminatorGrammar"@.len() != "AccessStatementSegment"@.len());
    reveal_strlit("AlterSequenceStatementSegment");
    assert("SelectClauseTerminatorGrammar"@[0] != "AlterSequenceStatementSegment"@[0]);
    reveal_strlit("AlterTableStatementSegment");
    assert("SelectClauseTerminatorGrammar"@.len() != "AlterTableStatementSegment"@.len());
    reveal_strlit("CreateCastStatementSegment");
    assert("SelectClauseTerminatorGrammar"@.len() != "CreateCastStatementSegment"@.len());
    reveal_strlit("CreateDatabaseStatementSegment");
    assert("SelectClauseTerminatorGrammar"@.len() != "CreateDatabaseStatementSegment"@.len());
    reveal_strlit("CreateFunctionStatementSegment");
    assert("SelectClauseTerminatorGrammar"@.len() != "CreateFunctionStatementSegment"@.len());
    reveal_strlit("CreateIndexStatementSegment");
    assert("SelectClauseTerminatorGrammar"@.len() != "CreateIndexStatementSegment"@.len());
    reveal_strlit("CreateModelStatementSegment");
    assert("SelectClauseTerminatorGrammar"@.len() != "CreateModelStatementSegment"@.len());
    reveal_strlit("CreateRoleStatementSegment");
    assert("SelectClauseTerminatorGrammar"@.len() != "CreateRoleStatementSegment"@.len());
    reveal_strlit("CreateTableStatementSegment");
    assert("SelectClauseTerminatorGrammar"@.len() != "CreateTableStatementSegment"@.len());
    reveal_strlit("CreateViewStatementSegment");
    assert("SelectClauseTerminatorGrammar"@.len() != "CreateViewStatementSegment"@.len());
    reveal_strlit("DeleteStatementSegment");
    assert("SelectClauseTerminatorGrammar"@.len() != "DeleteStatementSegment"@.len());
    reveal_strlit("DropCastStatementSegment");
    assert("SelectClauseTerminatorGrammar"@.len() != "DropCastStatementSegment"@.len());
    reveal_strlit("DropDatabaseStatementSegment");
    assert("SelectClauseTerminatorGrammar"@.len() != "DropDatabaseStatementSegment"@.len());
    reveal_strlit("DropFunctionStatementSegment");
    assert("SelectClauseTerminatorGrammar"@.len() != "DropFunctionStatementSegment"@.len());
    reveal_strlit("DropIndexStatementSegment");
    assert("SelectClauseTerminatorGrammar"@.len() != "DropIndexStatementSegment"@.len());
    reveal_strlit("DropRoleStatementSegment");
    assert("SelectClauseTerminatorGrammar"@.len() != "DropRoleStatementSegment"@.len());
    reveal_strlit("DropSchemaStatementSegment");
    assert("SelectClauseTerminatorGrammar"@.len() != "DropSchemaStatementSegment"@.len());
    reveal_strlit("DropSequenceStatementSegment");
    assert("SelectClauseTerminatorGrammar"@.len() != "DropSequenceStatementSegment"@.len());
    reveal_strlit("DropTypeStatementSegment");
    assert("SelectClauseTerminatorGrammar"@.len() != "DropTypeStatementSegment"@.len());
    reveal_strlit("FunctionParameterListGrammar");
    assert("SelectClauseTerminatorGrammar"@.len() != "FunctionParameterListGrammar"@.len());
    reveal_strlit("InsertStatementSegment");
    assert("SelectClauseTerminatorGrammar"@.len() != "InsertStatementSegment"@.len());
    reveal_strlit("SetSchemaStatementSegment");
    assert("SelectClauseTerminatorGrammar"@.len() != "SetSchemaStatementSegment"@.len());
    reveal_strlit("TransactionStatementSegment");
    assert("SelectClauseTerminatorGrammar"@.len() != "TransactionStatementSegment"@.len());
    reveal_strlit("UpdateStatementSegment");
    assert("SelectClauseTerminatorGrammar"@.len() != "UpdateStatementSegment"@.len());
}

proof fn lemma_part_8_keeps_select_clause_terminator_grammar(m: Map<Seq<char>, ElementView>)
    requires
        m.dom().contains("SelectClauseTerminatorGrammar"@),
    ensures
        ansi_library_part_8(m).dom().contains("SelectClauseTerminatorGrammar"@),
        ansi_library_part_8(m)["SelectClauseTerminatorGrammar"@] == m["SelectClauseTerminatorGrammar"@],
{
    reveal_strlit("SelectClauseTerminatorGrammar");
    reveal_strlit("AggregateOrderByClause");
    assert("SelectClauseTerminatorGrammar"@.len() != "AggregateOrderByClause"@.len());
    reveal_strlit("ArrayExpressionSegment");
    assert("SelectClauseTerminatorGrammar"@.len() != "ArrayExpressionSegment"@.len());
    reveal_strlit("BitwiseAndSegment");
    assert("SelectClauseTerminatorGrammar"@.len() != "BitwiseAndSegment"@.len());
    reveal_strlit("BitwiseLShiftSegment");
    assert("SelectClauseTerminatorGrammar"@.len() != "BitwiseLShiftSegment"@.len());
    reveal_strlit("BitwiseOrSegment");
    assert("SelectClauseTerminatorGrammar"@.len() != "BitwiseOrSegment"@.len());
    reveal_strlit("BitwiseRShiftSegment");
    assert("SelectClauseTerminatorGrammar"@.len() != "BitwiseRShiftSegment"@.len());
    reveal_strlit("ConcatSegment");
    assert("SelectClauseTerminatorGrammar"@.len() != "ConcatSegment"@.len());
    reveal_strlit("CreateUserStatementSegment");
    assert("SelectClauseTerminatorGrammar"@.len() != "CreateUserStatementSegment"@.len());
    reveal_strlit("DropTableStatementSegment");
    assert("SelectClauseTerminatorGrammar"@.len() != "DropTableStatementSegment"@.len());
    reveal_strlit("DropUserStatementSegment");
    assert("SelectClauseTerminatorGrammar"@.len() != "DropUserStatementSegment"@.len());
    reveal_strlit("DropViewStatementSegment");
    assert("SelectClauseTerminatorGrammar"@.len() != "DropViewStatementSegment"@.len());
    reveal_strlit("ElseClauseSegment");
    assert("SelectClauseTerminatorGrammar"@.len() != "ElseClauseSegment"@.len());
    reveal_strlit("EqualsSegment");
    assert("SelectClauseTerminatorGrammar"@.len() != "EqualsSegment"@.len());
    reveal_strlit("FunctionNameSegment");
    assert("SelectClauseTerminatorGrammar"@.len() != "FunctionNameSegment"@.len());
    reveal_strlit("GreaterThanOrEqualToSegment");
    assert("SelectClauseTerminatorGrammar"@.len() != "GreaterThanOrEqualToSegment"@.len());
    reveal_strlit("GreaterThanSegment");
    assert("SelectClauseTerminatorGrammar"@.len() != "GreaterThanSegment"@.len());
    reveal_strlit("IndexColumnDefinitionSegment");
    assert("SelectClauseTerminatorGrammar"@.len() != "IndexColumnDefinitionSegment"@.len());
    reveal_strlit("LessThanOrEqualToSegment");
    assert("SelectClauseTerminatorGrammar"@.len() != "LessThanOrEqualToSegment"@.len());
    reveal_strlit("LessThanSegment");
    assert("SelectClauseTerminatorGrammar"@.len() != "LessThanSegment"@.len());
    reveal_strlit("LocalAliasSegment");
    assert("SelectClauseTerminatorGrammar"@.len() != "LocalAliasSegment"@.len());
    reveal_strlit("MergeStatementSegment");
    assert("SelectClauseTerminatorGrammar"@.len() != "MergeStatementSegment"@.len());
    reveal_strlit("NotEqualToSegment");
    assert("SelectClauseTerminatorGrammar"@.len() != "NotEqualToSegment"@.len());
    reveal_strlit("QualifiedNumericLiteralSegment");
    assert("SelectClauseTerminatorGrammar"@.len() != "QualifiedNumericLiteralSegment"@.len());
    reveal_strlit("WhenClauseSegment");
    assert("SelectClauseTerminatorGrammar"@.len() != "WhenClauseSegment"@.len());
    reveal_strlit("WhereClauseSegment");
    assert("SelectClauseTerminatorGrammar"@.len() != "WhereClauseSegment"@.len());
}

proof fn lemma_part_9_keeps_select_clause_terminator_grammar(m: Map<Seq<char>, ElementView>)
    requires
        m.dom().contains("SelectClauseTerminatorGrammar"@),
    ensures
        ansi_library_part_9(m).dom().contains("SelectClauseTerminatorGrammar"@),
        ansi_library_part_9(m)["SelectClauseTerminatorGrammar"@] == m["SelectClauseTerminatorGrammar"@],
{
    reveal_strlit("SelectClauseTerminatorGrammar");
    reveal_strlit("AliasExpressionSegment");
    assert("SelectClauseTerminatorGrammar"@.len() != "AliasExpressionSegment"@.len());
    reveal_strlit("ArrayAccessorSegment");
    assert("SelectClauseTerminatorGrammar"@.len() != "ArrayAccessorSegment"@.len());
    reveal_strlit("ArrayLiteralSegment");
    assert("SelectClauseTerminatorGrammar"@.len() != "ArrayLiteralSegment"@.len());
    reveal_strlit("ArrayTypeSegment");
    assert("SelectClauseTerminatorGrammar"@.len() != "ArrayTypeSegment"@.len());
    reveal_strlit("BracketedArguments");
    assert("SelectClauseTerminatorGrammar"@.len() != "BracketedArguments"@.len());
    reveal_strlit("DatatypeSegment");
    assert("SelectClauseTerminatorGrammar"@.len() != "DatatypeSegment"@.len());
    reveal_strlit("EmptyStructLiteralSegment");
    assert("SelectClauseTerminatorGrammar"@.len() != "EmptyStructLiteralSegment"@.len());
    reveal_strlit("IntervalExpressionSegment");
    assert("SelectClauseTerminatorGrammar"@.len() != "IntervalExpressionSegment"@.len());
    reveal_strlit("ObjectLiteralElementSegment");
    assert("SelectClauseTerminatorGrammar"@.len() != "ObjectLiteralElementSegment"@.len());
    reveal_strlit("ObjectLiteralSegment");
    assert("SelectClauseTerminatorGrammar"@.len() != "ObjectLiteralSegment"@.len());
    reveal_strlit("OverlapsClauseSegment");
    assert("SelectClauseTerminatorGrammar"@.len() != "OverlapsClauseSegment"@.len());
    reveal_strlit("SelectClauseSegment");
    assert("SelectClauseTerminatorGrammar"@.len() != "SelectClauseSegment"@.len());
    reveal_strlit("SetOperatorSegment");
    assert("SelectClauseTerminatorGrammar"@.len() != "SetOperatorSegment"@.len());
    reveal_strlit("ShorthandCastSegment");
    assert("SelectClauseTerminatorGrammar"@.len() != "ShorthandCastSegment"@.len());
    reveal_strlit("SizedArrayTypeSegment");
    assert("SelectClauseTerminatorGrammar"@.len() != "SizedArrayTypeSegment"@.len());
    reveal_strlit("StatementSegment");
    assert("SelectClauseTerminatorGrammar"@.len() != "StatementSegment"@.len());
    reveal_strlit("StructLiteralSegment");
    assert("SelectClauseTerminatorGrammar"@.len() != "StructLiteralSegment"@.len());
    reveal_strlit("StructTypeSegment");
    assert("SelectClauseTerminatorGrammar"@.len() != "StructTypeSegment"@.len());
    reveal_strlit("TimeZoneGrammar");
    assert("SelectClauseTerminatorGrammar"@.len() != "TimeZoneGrammar"@.len());
    reveal_strlit("TypedArrayLiteralSegment");
    assert("SelectClauseTerminatorGrammar"@.len() != "TypedArrayLiteralSegment"@.len());
    reveal_strlit("TypedStructLiteralSegment");
    assert("SelectClauseTerminatorGrammar"@.len() != "TypedStructLiteralSegment"@.len());
    reveal_strlit("UnorderedSelectStatementSegment");
    assert("SelectClauseTerminatorGrammar"@.len() != "UnorderedSelectStatementSegment"@.len());
    reveal_strlit("ValuesClauseSegment");
    assert("SelectClauseTerminatorGrammar"@.len() != "ValuesClauseSegment"@.len());
    reveal_strlit("WithDataClauseSegment");
    assert("SelectClauseTerminatorGrammar"@.len() != "WithDataClauseSegment"@.len());
    reveal_strlit("WithNoSchemaBindingClauseSegment");
    assert("SelectClauseTerminatorGrammar"@.len() != "WithNoSchemaBindingClauseSegment"@.len());
}

proof fn lemma_part_10_keeps_select_clause_terminator_grammar(m: Map<Seq<char>, ElementView>)
    requires
        m.dom().contains("SelectClauseTerminatorGrammar"@),
    ensures
        ansi_library_part_10(m).dom().contains("SelectClauseTerminatorGrammar"@),
        ansi_library_part_10(m)["SelectClauseTerminatorGrammar"@] == m["SelectClauseTerminatorGrammar"@],
{
    reveal_strlit("SelectClauseTerminatorGrammar");
    reveal_strlit("AccessStatementSegmentGrantRoleWithOptionGrammar");
    assert("SelectClauseTerminatorGrammar"@.len() != "AccessStatementSegmentGrantRoleWithOptionGrammar"@.len());
    reveal_strlit("AliasedTableReferenceGrammar");
    assert("SelectClauseTerminatorGrammar"@.len() != "AliasedTableReferenceGrammar"@.len());
    reveal_strlit("CharCharacterSetGrammar");
    assert("SelectClauseTerminatorGrammar"@.len() != "CharCharacterSetGrammar"@.len());
    reveal_strlit("CreateSchemaStatementSegment");
    assert("SelectClauseTerminatorGrammar"@.len() != "CreateSchemaStatementSegment"@.len());
    reveal_strlit("DatePartFunctionNameSegment");
    assert("SelectClauseTerminatorGrammar"@.len() != "DatePartFunctionNameSegment"@.len());
    reveal_strlit("EmptyStructLiteralBracketsSegment");
    assert("SelectClauseTerminatorGrammar"@.len() != "EmptyStructLiteralBracketsSegment"@.len());
    reveal_strlit("Expression_A_Grammar");
    assert("SelectClauseTerminatorGrammar"@.len() != "Expression_A_Grammar"@.len());
    reveal_strlit("Expression_A_Unary_Operator_Grammar");
    assert("SelectClauseTerminatorGrammar"@.len() != "Expression_A_Unary_Operator_Grammar"@.len());
    reveal_strlit("Expression_B_Unary_Operator_Grammar");
    assert("SelectClauseTerminatorGrammar"@.len() != "Expression_B_Unary_Operator_Grammar"@.len());
    reveal_strlit("FromClauseSegment");
    assert("SelectClauseTerminatorGrammar"@.len() != "FromClauseSegment"@.len());
    reveal_strlit("FromExpressionSegment");
    assert("SelectClauseTerminatorGrammar"@.len() != "FromExpressionSegment"@.len());
    reveal_strlit("FunctionContentsExpressionGrammar");
    assert("SelectClauseTerminatorGrammar"@.len() != "FunctionContentsExpressionGrammar"@.len());
    reveal_strlit("FunctionContentsGrammar");
    assert("SelectClauseTerminatorGrammar"@.len() != "FunctionContentsGrammar"@.len());
    reveal_strlit("FunctionContentsSegment");
    assert("SelectClauseTerminatorGrammar"@.len() != "FunctionContentsSegment"@.len());
    reveal_strlit("JoinLikeClauseGrammar");
    assert("SelectClauseTerminatorGrammar"@.len() != "JoinLikeClauseGrammar"@.len());
    reveal_strlit("OrderByClauseSegment");
    assert("SelectClauseTerminatorGrammar"@.len() != "OrderByClauseSegment"@.len());
    reveal_strlit("PostFunctionGrammar");
    assert("SelectClauseTerminatorGrammar"@.len() != "PostFunctionGrammar"@.len());
    reveal_strlit("SelectClauseElementSegment");
    assert("SelectClauseTerminatorGrammar"@.len() != "SelectClauseElementSegment"@.len());
    reveal_strlit("SelectClauseModifierSegment");
    assert("SelectClauseTerminatorGrammar"@.len() != "SelectClauseModifierSegment"@.len());
    reveal_strlit("SelectStatementSegment");
    assert("SelectClauseTerminatorGrammar"@.len() != "SelectStatementSegment"@.len());
    reveal_strlit("SetExpressionSegment");
    assert("SelectClauseTerminatorGrammar"@.len() != "SetExpressionSegment"@.len());
    reveal_strlit("Tail_Recurse_Expression_A_Grammar");
    assert("SelectClauseTerminatorGrammar"@.len() != "Tail_Recurse_Expression_A_Grammar"@.len());
    reveal_strlit("Tail_Recurse_Expression_B_Grammar");
    assert("SelectClauseTerminatorGrammar"@.len() != "Tail_Recurse_Expression_B_Grammar"@.len());
    reveal_strlit("TruncateStatementSegment");
    assert("SelectClauseTerminatorGrammar"@.len() != "TruncateStatementSegment"@.len());
    reveal_strlit("WildcardExpressionSegment");
    assert("SelectClauseTerminatorGrammar"@.len() != "WildcardExpressionSegment"@.len());
}

proof fn lemma_part_11_keeps_select_clause_terminator_grammar(m: Map<Seq<char>, ElementView>)
    requires
        m.dom().contains("SelectClauseTerminatorGrammar"@),
    ensures
        ansi_library_part_11(m).dom().contains("SelectClauseTerminatorGrammar"@),
        ansi_library_part_11(m)["SelectClauseTerminatorGrammar"@] == m["SelectClauseTerminatorGrammar"@],
{
    reveal_strlit("SelectClauseTerminatorGrammar");
    reveal_strlit("AccessorGrammar");
    assert("SelectClauseTerminatorGrammar"@.len() != "AccessorGrammar"@.len());
    reveal_strlit("Expression_B_Grammar");
    assert("SelectClauseTerminatorGrammar"@.len() != "Expression_B_Grammar"@.len());
    reveal_strlit("Expression_C_Grammar");
    assert("SelectClauseTerminatorGrammar"@.len() != "Expression_C_Grammar"@.len());
    reveal_strlit("Expression_D_Grammar");
    assert("SelectClauseTerminatorGrammar"@.len() != "Expression_D_Grammar"@.len());
    reveal_strlit("NonSetSelectableGrammar");
    assert("SelectClauseTerminatorGrammar"@.len() != "NonSetSelectableGrammar"@.len());
    reveal_strlit("NonWithNonSelectableGrammar");
    assert("SelectClauseTerminatorGrammar"@.len() != "NonWithNonSelectableGrammar"@.len());
    reveal_strlit("NonWithSelectableGrammar");
    assert("SelectClauseTerminatorGrammar"@.len() != "NonWithSelectableGrammar"@.len());
    reveal_strlit("PostTableExpressionGrammar");
    assert("SelectClauseTerminatorGrammar"@.len() != "PostTableExpressionGrammar"@.len());
    reveal_strlit("SelectableGrammar");
    assert("SelectClauseTerminatorGrammar"@.len() != "SelectableGrammar"@.len());
    reveal_strlit("TimeWithTZGrammar");
    assert("SelectClauseTerminatorGrammar"@.len() != "TimeWithTZGrammar"@.len());
}

/// The ANSI library holds `SelectClauseTerminatorGrammar`: the value of its last entry of that name.
pub proof fn lemma_ansi_library_select_clause_terminator_grammar(lib: Map<Seq<char>, ElementView>)
    ensures
        ansi_library(lib).dom().contains("SelectClauseTerminatorGrammar"@),
        ansi_library(lib)["SelectClauseTerminatorGrammar"@] == select_clause_terminator_grammar_element(),
{
    reveal(ansi_library);
    let m0 = lib;
    let m1 = ansi_library_part_0(m0);
    let m2 = ansi_library_part_1(m1);
    let m3 = ansi_library_part_2(m2);
    let m4 = ansi_library_part_3(m3);
    let m5 = ansi_library_part_4(m4);
    let m6 = ansi_library_part_5(m5);
    let m7 = ansi_library_part_6(m6);
    let m8 = ansi_library_part_7(m7);
    let m9 = ansi_library_part_8(m8);
    let m10 = ansi_library_part_9(m9);
    let m11 = ansi_library_part_10(m10);
    let m12 = ansi_library_part_11(m11);
    lemma_part_3_sets_select_clause_terminator_grammar(m3);
    lemma_part_4_keeps_select_clause_terminator_grammar(m4);
    lemma_part_5_keeps_select_clause_terminator_grammar(m5);
    lemma_part_6_keeps_select_clause_terminator_grammar(m6);
    lemma_part_7_keeps_select_clause_terminator_grammar(m7);
    lemma_part_8_keeps_select_clause_terminator_grammar(m8);
    lemma_part_9_keeps_select_clause_terminator_grammar(m9);
    lemma_part_10_keeps_select_clause_terminator_grammar(m10);
    lemma_part_11_keeps_select_clause_terminator_grammar(m11);
}

proof fn lemma_part_9_sets_unordered_select_statement_segment(m: Map<Seq<char>, ElementView>)
    ensures
        ansi_library_part_9(m).dom().contains("UnorderedSelectStatementSegment"@),
        ansi_library_part_9(m)["UnorderedSelectStatementSegment"@] == unordered_select_statement_segment_element(),
{
    reveal_strlit("UnorderedSelectStatementSegment");
    reveal_strlit("OverlapsClauseSegment");
    assert("UnorderedSelectStatementSegment"@.len() != "OverlapsClauseSegment"@.len());
    reveal_strlit("SelectClauseSegment");
    assert("UnorderedSelectStatementSegment"@.len() != "SelectClauseSegment"@.len());
    reveal_strlit("StatementSegment");
    assert("UnorderedSelectStatementSegment"@.len() != "StatementSegment"@.len());
    reveal_strlit("WithDataClauseSegment");
    assert("UnorderedSelectStatementSegment"@.len() != "WithDataClauseSegment"@.len());
    reveal_strlit("WithNoSchemaBindingClauseSegment");
    assert("UnorderedSelectStatementSegment"@.len() != "WithNoSchemaBindingClauseSegment"@.len());
}

proof fn lemma_part_10_keeps_unordered_select_statement_segment(m: Map<Seq<char>, ElementView>)
    requires
        m.dom().contains("UnorderedSelectStatementSegment"@),
    ensures
        ansi_library_part_10(m).dom().contains("UnorderedSelectStatementSegment"@),
        ansi_library_part_10(m)["UnorderedSelectStatementSegment"@] == m["UnorderedSelectStatementSegment"@],
{
    reveal_strlit("UnorderedSelectStatementSegment");
    reveal_strlit("AccessStatementSegmentGrantRoleWithOptionGrammar");
    assert("UnorderedSelectStatementSegment"@.len() != "AccessStatementSegmentGrantRoleWithOptionGrammar"@.len());
    reveal_strlit("AliasedTableReferenceGrammar");
    assert("UnorderedSelectStatementSegment"@.len() != "AliasedTableReferenceGrammar"@.len());
    reveal_strlit("CharCharacterSetGrammar");
    assert("UnorderedSelectStatementSegment"@.len() != "CharCharacterSetGrammar"@.len());
    reveal_strlit("CreateSchemaStatementSegment");
    assert("UnorderedSelectStatementSegment"@.len() != "CreateSchemaStatementSegment"@.len());
    reveal_strlit("DatePartFunctionNameSegment");
    assert("UnorderedSelectStatementSegment"@.len() != "DatePartFunctionNameSegment"@.len());
    reveal_strlit("EmptyStructLiteralBracketsSegment");
    assert("UnorderedSelectStatementSegment"@.len() != "EmptyStructLiteralBracketsSegment"@.len());
    reveal_strlit("Expression_A_Grammar");
    assert("UnorderedSelectStatementSegment"@.len() != "Expression_A_Grammar"@.len());
    reveal_strlit("Expression_A_Unary_Operator_Grammar");
    assert("UnorderedSelectStatementSegment"@.len() != "Expression_A_Unary_Operator_Grammar"@.len());
    reveal_strlit("Expression_B_Unary_Operator_Grammar");
    assert("UnorderedSelectStatementSegment"@.len() != "Expression_B_Unary_Operator_Grammar"@.len());
    reveal_strlit("FromClauseSegment");
    assert("UnorderedSelectStatementSegment"@.len() != "FromClauseSegment"@.len());
    reveal_strlit("FromExpressionSegment");
    assert("UnorderedSelectStatementSegment"@.len() != "FromExpressionSegment"@.len());
    reveal_strlit("FunctionContentsExpressionGrammar");
    assert("UnorderedSelectStatementSegment"@.len() != "FunctionContentsExpressionGrammar"@.len());
    reveal_strlit("FunctionContentsGrammar");
    assert("UnorderedSelectStatementSegment"@.len() != "FunctionContentsGrammar"@.len());
    reveal_strlit("FunctionContentsSegment");
    assert("UnorderedSelectStatementSegment"@.len() != "FunctionContentsSegment"@.len());
    reveal_strlit("JoinLikeClauseGrammar");
    assert("UnorderedSelectStatementSegment"@.len() != "JoinLikeClauseGrammar"@.len());
    reveal_strlit("OrderByClauseSegment");
    assert("UnorderedSelectStatementSegment"@.len() != "OrderByClauseSegment"@.len());
    reveal_strlit("PostFunctionGrammar");
    assert("UnorderedSelectStatementSegment"@.len() != "PostFunctionGrammar"@.len());
    reveal_strlit("SelectClauseElementSegment");
    assert("UnorderedSelectStatementSegment"@.len() != "SelectClauseElementSegment"@.len());
    reveal_strlit("SelectClauseModifierSegment");
    assert("UnorderedSelectStatementSegment"@.len() != "SelectClauseModifierSegment"@.len());
    reveal_strlit("SelectStatementSegment");
    assert("UnorderedSelectStatementSegment"@.len() != "SelectStatementSegment"@.len());
    reveal_strlit("SetExpressionSegment");
    assert("UnorderedSelectStatementSegment"@.len() != "SetExpressionSegment"@.len());
    reveal_strlit("Tail_Recurse_Expression_A_Grammar");
    assert("UnorderedSelectStatementSegment"@.len() != "Tail_Recurse_Expression_A_Grammar"@.len());
    reveal_strlit("Tail_Recurse_Expression_B_Grammar");
    assert("UnorderedSelectStatementSegment"@.len() != "Tail_Recurse_Expression_B_Grammar"@.len());
    reveal_strlit("TruncateStatementSegment");
    assert("UnorderedSelectStatementSegment"@.len() != "TruncateStatementSegment"@.len());
    reveal_strlit("WildcardExpressionSegment");
    assert("UnorderedSelectStatementSegment"@.len() != "WildcardExpressionSegment"@.len());
}

proof fn lemma_part_11_keeps_unordered_select_statement_segment(m: Map<Seq<char>, ElementView>)
    requires
        m.dom().contains("UnorderedSelectStatementSegment"@),
    ensures
        ansi_library_part_11(m).dom().contains("UnorderedSelectStatementSegment"@),
        ansi_library_part_11(m)["UnorderedSelectStatementSegment"@] == m["UnorderedSelectStatementSegment"@],
{
    reveal_strlit("UnorderedSelectStatementSegment");
    reveal_strlit("AccessorGrammar");
    assert("UnorderedSelectStatementSegment"@.len() != "AccessorGrammar"@.len());
    reveal_strlit("Expression_B_Grammar");
    assert("UnorderedSelectStatementSegment"@.len() != "Expression_B_Grammar"@.len());
    reveal_strlit("Expression_C_Grammar");
    assert("UnorderedSelectStatementSegment"@.len() != "Expression_C_Grammar"@.len());
    reveal_strlit("Expression_D_Grammar");
    assert("UnorderedSelectStatementSegment"@.len() != "Expression_D_Grammar"@.len());
    reveal_strlit("NonSetSelectableGrammar");
    assert("UnorderedSelectStatementSegment"@.len() != "NonSetSelectableGrammar"@.len());
    reveal_strlit("NonWithNonSelectableGrammar");
    assert("UnorderedSelectStatementSegment"@.len() != "NonWithNonSelectableGrammar"@.len());
    reveal_strlit("NonWithSelectableGrammar");
    assert("UnorderedSelectStatementSegment"@.len() != "NonWithSelectableGrammar"@.len());
    reveal_strlit("PostTableExpressionGrammar");
    assert("UnorderedSelectStatementSegment"@.len() != "PostTableExpressionGrammar"@.len());
    reveal_strlit("SelectableGrammar");
    assert("UnorderedSelectStatementSegment"@.len() != "SelectableGrammar"@.len());
    reveal_strlit("TimeWithTZGrammar");
    assert("UnorderedSelectStatementSegment"@.len() != "TimeWithTZGrammar"@.len());
}

/// The ANSI library holds `UnorderedSelectStatementSegment`: the value of its last entry of that name.
pub proof fn lemma_ansi_library_unordered_select_statement_segment(lib: Map<Seq<char>, ElementView>)
    ensures
        ansi_library(lib).dom().contains("UnorderedSelectStatementSegment"@),
        ansi_library(lib)["UnorderedSelectStatementSegment"@] == unordered_select_statement_segment_element(),
{
    reveal(ansi_library);
    let m0 = lib;
    let m1 = ansi_library_part_0(m0);
    let m2 = ansi_library_part_1(m1);
    let m3 = ansi_library_part_2(m2);
    let m4 = ansi_library_part_3(m3);
    let m5 = ansi_library_part_4(m4);
    let m6 = ansi_library_part_5(m5);
    let m7 = ansi_library_part_6(m6);
    let m8 = ansi_library_part_7(m7);
    let m9 = ansi_library_part_8(m8);
    let m10 = ansi_library_part_9(m9);
    let m11 = ansi_library_part_10(m10);
    let m12 = ansi_library_part_11(m11);
    lemma_part_9_sets_unordered_select_statement_segment(m9);
    lemma_part_10_keeps_unordered_select_statement_segment(m10);
    lemma_part_11_keeps_unordered_select_statement_segment(m11);
}

proof fn lemma_part_6_sets_explain_statement_segment(m: Map<Seq<char>, ElementView>)
    ensures
        ansi_library_part_6(m).dom().contains("ExplainStatementSegment"@),
        ansi_library_part_6(m)["ExplainStatementSegment"@] == explain_statement_segment_element(),
{
    reveal_strlit("ExplainStatementSegment");
    reveal_strlit("CreateSequenceOptionsSegment");
    assert("ExplainStatementSegment"@.len() != "CreateSequenceOptionsSegment"@.len());
    reveal_strlit("CreateSequenceStatementSegment");
    assert("ExplainStatementSegment"@.len() != "CreateSequenceStatementSegment"@.len());
}

proof fn lemma_part_7_keeps_explain_statement_segment(m: Map<Seq<char>, ElementView>)
    requires
        m.dom().contains("ExplainStatementSegment"@),
    ensures
        ansi_library_part_7(m).dom().contains("ExplainStatementSegment"@),
        ansi_library_part_7(m)["ExplainStatementSegment"@] == m["ExplainStatementSegment"@],
{
    reveal_strlit("ExplainStatementSegment");
    reveal_strlit("AccessStatementSegment");
    assert("ExplainStatementSegment"@.len() != "AccessStatementSegment"@.len());
    reveal_strlit("AlterSequenceStatementSegment");
    assert("ExplainStatementSegment"@.len() != "AlterSequenceStatementSegment"@.len());
    reveal_strlit("AlterTableStatementSegment");
    assert("ExplainStatementSegment"@.len() != "AlterTableStatementSegment"@.len());
    reveal_strlit("CreateCastStatementSegment");
    assert("ExplainStatementSegment"@.len() != "CreateCastStatementSegment"@.len());
    reveal_strlit("CreateDatabaseStatementSegment");
    assert("ExplainStatementSegment"@.len() != "CreateDatabaseStatementSegment"@.len());
    reveal_strlit("CreateFunctionStatementSegment");
    assert("ExplainStatementSegment"@.len() != "CreateFunctionStatementSegment"@.len());
    reveal_strlit("CreateIndexStatementSegment");
    assert("ExplainStatementSegment"@.len() != "CreateIndexStatementSegment"@.len());
    reveal_strlit("CreateModelStatementSegment");
    assert("ExplainStatementSegment"@.len() != "CreateModelStatementSegment"@.len());
    reveal_strlit("CreateRoleStatementSegment");
    assert("ExplainStatementSegment"@.len() != "CreateRoleStatementSegment"@.len());
    reveal_strlit("CreateTableStatementSegment");
    assert("ExplainStatementSegment"@.len() != "CreateTableStatementSegment"@.len());
    reveal_strlit("CreateViewStatementSegment");
    assert("ExplainStatementSegment"@.len() != "CreateViewStatementSegment"@.len());
    reveal_strlit("DeleteStatementSegment");
    assert("ExplainStatementSegment"@.len() != "DeleteStatementSegment"@.len());
    reveal_strlit("DropCastStatementSegment");
    assert("ExplainStatementSegment"@.len() != "DropCastStatementSegment"@.len());
    reveal_strlit("DropDatabaseStatementSegment");
    assert("ExplainStatementSegment"@.len() != "DropDatabaseStatementSegment"@.len());
    reveal_strlit("DropFunctionStatementSegment");
    assert("ExplainStatementSegment"@.len() != "DropFunctionStatementSegment"@.len());
    reveal_strlit("DropIndexStatementSegment");
    assert("ExplainStatementSegment"@.len() != "DropIndexStatementSegment"@.len());
    reveal_strlit("DropRoleStatementSegment");
    assert("ExplainStatementSegment"@.len() != "DropRoleStatementSegment"@.len());
    reveal_strlit("DropSchemaStatementSegment");
    assert("ExplainStatementSegment"@.len() != "DropSchemaStatementSegment"@.len());
    reveal_strlit("DropSequenceStatementSegment");
    assert("ExplainStatementSegment"@.len() != "DropSequenceStatementSegment"@.len());
    reveal_strlit("DropTypeStatementSegment");
    assert("ExplainStatementSegment"@.len() != "DropTypeStatementSegment"@.len());
    reveal_strlit("FunctionParameterListGrammar");
    assert("ExplainStatementSegment"@.len() != "FunctionParameterListGrammar"@.len());
    reveal_strlit("InsertStatementSegment");
    assert("ExplainStatementSegment"@.len() != "InsertStatementSegment"@.len());
    reveal_strlit("SetSchemaStatementSegment");
    assert("ExplainStatementSegment"@.len() != "SetSchemaStatementSegment"@.len());
    reveal_strlit("TransactionStatementSegment");
    assert("ExplainStatementSegment"@.len() != "TransactionStatementSegment"@.len());
    reveal_strlit("UpdateStatementSegment");
    assert("ExplainStatementSegment"@.len() != "UpdateStatementSegment"@.len());
}

proof fn lemma_part_8_keeps_explain_statement_segment(m: Map<Seq<char>, ElementView>)
    requires
        m.dom().contains("ExplainStatementSegment"@),
    ensures
        ansi_library_part_8(m).dom().contains("ExplainStatementSegment"@),
        ansi_library_part_8(m)["ExplainStatementSegment"@] == m["ExplainStatementSegment"@],
{
    reveal_strlit("ExplainStatementSegment");
    reveal_strlit("AggregateOrderByClause");
    assert("ExplainStatementSegment"@.len() != "AggregateOrderByClause"@.len());
    reveal_strlit("ArrayExpressionSegment");
    assert("ExplainStatementSegment"@.len() != "ArrayExpressionSegment"@.len());
    reveal_strlit("BitwiseAndSegment");
    assert("ExplainStatementSegment"@.len() != "BitwiseAndSegment"@.len());
    reveal_strlit("BitwiseLShiftSegment");
    assert("ExplainStatementSegment"@.len() != "BitwiseLShiftSegment"@.len());
    reveal_strlit("BitwiseOrSegment");
    assert("ExplainStatementSegment"@.len() != "BitwiseOrSegment"@.len());
    reveal_strlit("BitwiseRShiftSegment");
    assert("ExplainStatementSegment"@.len() != "BitwiseRShiftSegment"@.len());
    reveal_strlit("ConcatSegment");
    assert("ExplainStatementSegment"@.len() != "ConcatSegment"@.len());
    reveal_strlit("CreateUserStatementSegment");
    assert("ExplainStatementSegment"@.len() != "CreateUserStatementSegment"@.len());
    reveal_strlit("DropTableStatementSegment");
    assert("ExplainStatementSegment"@.len() != "DropTableStatementSegment"@.len());
    reveal_strlit("DropUserStatementSegment");
    assert("ExplainStatementSegment"@.len() != "DropUserStatementSegment"@.len());
    reveal_strlit("DropViewStatementSegment");
    assert("ExplainStatementSegment"@.len() != "DropViewStatementSegment"@.len());
    reveal_strlit("ElseClauseSegment");
    assert("ExplainStatementSegment"@.len() != "ElseClauseSegment"@.len());
    reveal_strlit("EqualsSegment");
    assert("ExplainStatementSegment"@.len() != "EqualsSegment"@.len());
    reveal_strlit("FunctionNameSegment");
    assert("ExplainStatementSegment"@.len() != "FunctionNameSegment"@.len());
    reveal_strlit("GreaterThanOrEqualToSegment");
    assert("ExplainStatementSegment"@.len() != "GreaterThanOrEqualToSegment"@.len());
    reveal_strlit("GreaterThanSegment");
    assert("ExplainStatementSegment"@.len() != "GreaterThanSegment"@.len());
    reveal_strlit("IndexColumnDefinitionSegment");
    assert("ExplainStatementSegment"@.len() != "IndexColumnDefinitionSegment"@.len());
    reveal_strlit("LessThanOrEqualToSegment");
    assert("ExplainStatementSegment"@.len() != "LessThanOrEqualToSegment"@.len());
    reveal_strlit("LessThanSegment");
    assert("ExplainStatementSegment"@.len() != "LessThanSegment"@.len());
    reveal_strlit("LocalAliasSegment");
    assert("ExplainStatementSegment"@.len() != "LocalAliasSegment"@.len());
    reveal_strlit("MergeStatementSegment");
    assert("ExplainStatementSegment"@.len() != "MergeStatementSegment"@.len());
    reveal_strlit("NotEqualToSegment");
    assert("ExplainStatementSegment"@.len() != "NotEqualToSegment"@.len());
    reveal_strlit("QualifiedNumericLiteralSegment");
    assert("ExplainStatementSegment"@.len() != "QualifiedNumericLiteralSegment"@.len());
    reveal_strlit("WhenClauseSegment");
    assert("ExplainStatementSegment"@.len() != "WhenClauseSegment"@.len());
    reveal_strlit("WhereClauseSegment");
    assert("ExplainStatementSegment"@.len() != "WhereClauseSegment"@.len());
}

proof fn lemma_part_9_keeps_explain_statement_segment(m: Map<Seq<char>, ElementView>)
    requires
        m.dom().contains("ExplainStatementSegment"@),
    ensures
        ansi_library_part_9(m).dom().contains("ExplainStatementSegment"@),
        ansi_library_part_9(m)["ExplainStatementSegment"@] == m["ExplainStatementSegment"@],
{
    reveal_strlit("ExplainStatementSegment");
    reveal_strlit("AliasExpressionSegment");
    assert("ExplainStatementSegment"@.len() != "AliasExpressionSegment"@.len());
    reveal_strlit("ArrayAccessorSegment");
    assert("ExplainStatementSegment"@.len() != "ArrayAccessorSegment"@.len());
    reveal_strlit("ArrayLiteralSegment");
    assert("ExplainStatementSegment"@.len() != "ArrayLiteralSegment"@.len());
    reveal_strlit("ArrayTypeSegment");
    assert("ExplainStatementSegment"@.len() != "ArrayTypeSegment"@.len());
    reveal_strlit("BracketedArguments");
    assert("ExplainStatementSegment"@.len() != "BracketedArguments"@.len());
    reveal_strlit("DatatypeSegment");
    assert("ExplainStatementSegment"@.len() != "DatatypeSegment"@.len());
    reveal_strlit("EmptyStructLiteralSegment");
    assert("ExplainStatementSegment"@.len() != "EmptyStructLiteralSegment"@.len());
    reveal_strlit("IntervalExpressionSegment");
    assert("ExplainStatementSegment"@.len() != "IntervalExpressionSegment"@.len());
    reveal_strlit("ObjectLiteralElementSegment");
    assert("ExplainStatementSegment"@.len() != "ObjectLiteralElementSegment"@.len());
    reveal_strlit("ObjectLiteralSegment");
    assert("ExplainStatementSegment"@.len() != "ObjectLiteralSegment"@.len());
    reveal_strlit("OverlapsClauseSegment");
    assert("ExplainStatementSegment"@.len() != "OverlapsClauseSegment"@.len());
    reveal_strlit("SelectClauseSegment");
    assert("ExplainStatementSegment"@.len() != "SelectClauseSegment"@.len());
    reveal_strlit("SetOperatorSegment");
    assert("ExplainStatementSegment"@.len() != "SetOperatorSegment"@.len());
    reveal_strlit("ShorthandCastSegment");
    assert("ExplainStatementSegment"@.len() != "ShorthandCastSegment"@.len());
    reveal_strlit("SizedArrayTypeSegment");
    assert("ExplainStatementSegment"@.len() != "SizedArrayTypeSegment"@.len());
    reveal_strlit("StatementSegment");
    assert("ExplainStatementSegment"@.len() != "StatementSegment"@.len());
    reveal_strlit("StructLiteralSegment");
    assert("ExplainStatementSegment"@.len() != "StructLiteralSegment"@.len());
    reveal_strlit("StructTypeSegment");
    assert("ExplainStatementSegment"@.len() != "StructTypeSegment"@.len());
    reveal_strlit("TimeZoneGrammar");
    assert("ExplainStatementSegment"@.len() != "TimeZoneGrammar"@.len());
    reveal_strlit("TypedArrayLiteralSegment");
    assert("ExplainStatementSegment"@.len() != "TypedArrayLiteralSegment"@.len());
    reveal_strlit("TypedStructLiteralSegment");
    assert("ExplainStatementSegment"@.len() != "TypedStructLiteralSegment"@.len());
    reveal_strlit("UnorderedSelectStatementSegment");
    assert("ExplainStatementSegment"@.len() != "UnorderedSelectStatementSegment"@.len());
    reveal_strlit("ValuesClauseSegment");
    assert("ExplainStatementSegment"@.len() != "ValuesClauseSegment"@.len());
    reveal_strlit("WithDataClauseSegment");
    assert("ExplainStatementSegment"@.len() != "WithDataClauseSegment"@.len());
    reveal_strlit("WithNoSchemaBindingClauseSegment");
    assert("ExplainStatementSegment"@.len() != "WithNoSchemaBindingClauseSegment"@.len());
}

proof fn lemma_part_10_keeps_explain_statement_segment(m: Map<Seq<char>, ElementView>)
    requires
        m.dom().contains("ExplainStatementSegment"@),
    ensures
        ansi_library_part_10(m).dom().contains("ExplainStatementSegment"@),
        ansi_library_part_10(m)["ExplainStatementSegment"@] == m["ExplainStatementSegment"@],
{
    reveal_strlit("ExplainStatementSegment");
    reveal_strlit("AccessStatementSegmentGrantRoleWithOptionGrammar");
    assert("ExplainStatementSegment"@.len() != "AccessStatementSegmentGrantRoleWithOptionGrammar"@.len());
    reveal_strlit("AliasedTableReferenceGrammar");
    assert("ExplainStatementSegment"@.len() != "AliasedTableReferenceGrammar"@.len());
    reveal_strlit("CharCharacterSetGrammar");
    assert("ExplainStatementSegment"@[0] != "CharCharacterSetGrammar"@[0]);
    reveal_strlit("CreateSchemaStatementSegment");
    assert("ExplainStatementSegment"@.len() != "CreateSchemaStatementSegment"@.len());
    reveal_strlit("DatePartFunctionNameSegment");
    assert("ExplainStatementSegment"@.len() != "DatePartFunctionNameSegment"@.len());
    reveal_strlit("EmptyStructLiteralBracketsSegment");
    assert("ExplainStatementSegment"@.len() != "EmptyStructLiteralBracketsSegment"@.len());
    reveal_strlit("Expression_A_Grammar");
    assert("ExplainStatementSegment"@.len() != "Expression_A_Grammar"@.len());
    reveal_strlit("Expression_A_Unary_Operator_Grammar");
    assert("ExplainStatementSegment"@.len() != "Expression_A_Unary_Operator_Grammar"@.len());
    reveal_strlit("Expression_B_Unary_Operator_Grammar");
    assert("ExplainStatementSegment"@.len() != "Expression_B_Unary_Operator_Grammar"@.len());
    reveal_strlit("FromClauseSegment");
    assert("ExplainStatementSegment"@.len() != "FromClauseSegment"@.len());
    reveal_strlit("FromExpressionSegment");
    assert("ExplainStatementSegment"@.len() != "FromExpressionSegment"@.len());
    reveal_strlit("FunctionContentsExpressionGrammar");
    assert("ExplainStatementSegment"@.len() != "FunctionContentsExpressionGrammar"@.len());
    reveal_strlit("FunctionContentsGrammar");
    assert("ExplainStatementSegment"@[0] != "FunctionContentsGrammar"@[0]);
    reveal_strlit("FunctionContentsSegment");
    assert("ExplainStatementSegment"@[0] != "FunctionContentsSegment"@[0]);
    reveal_strlit("JoinLikeClauseGrammar");
    assert("ExplainStatementSegment"@.len() != "JoinLikeClauseGrammar"@.len());
    reveal_strlit("OrderByClauseSegment");
    assert("ExplainStatementSegment"@.len() != "OrderByClauseSegment"@.len());
    reveal_strlit("PostFunctionGrammar");
    assert("ExplainStatementSegment"@.len() != "PostFunctionGrammar"@.len());
    reveal_strlit("SelectClauseElementSegment");
    assert("ExplainStatementSegment"@.len() != "SelectClauseElementSegment"@.len());
    reveal_strlit("SelectClauseModifierSegment");
    assert("ExplainStatementSegment"@.len() != "SelectClauseModifierSegment"@.len());
    reveal_strlit("SelectStatementSegment");
    assert("ExplainStatementSegment"@.len() != "SelectStatementSegment"@.len());
    reveal_strlit("SetExpressionSegment");
    assert("ExplainStatementSegment"@.len() != "SetExpressionSegment"@.len());
    reveal_strlit("Tail_Recurse_Expression_A_Grammar");
    assert("ExplainStatementSegment"@.len() != "Tail_Recurse_Expression_A_Grammar"@.len());
    reveal_strlit("Tail_Recurse_Expression_B_Grammar");
    assert("ExplainStatementSegment"@.len() != "Tail_Recurse_Expression_B_Grammar"@.len());
    reveal_strlit("TruncateStatementSegment");
    assert("ExplainStatementSegment"@.len() != "TruncateStatementSegment"@.len());
    reveal_strlit("WildcardExpressionSegment");
    assert("ExplainStatementSegment"@.len() != "WildcardExpressionSegment"@.len());
}

proof fn lemma_part_11_keeps_explain_statement_segment(m: Map<Seq<char>, ElementView>)
    requires
        m.dom().contains("ExplainStatementSegment"@),
    ensures
        ansi_library_part_11(m).dom().contains("ExplainStatementSegment"@),
        ansi_library_part_11(m)["ExplainStatementSegment"@] == m["ExplainStatementSegment"@],
{
    reveal_strlit("ExplainStatementSegment");
    reveal_strlit("AccessorGrammar");
    assert("ExplainStatementSegment"@.len() != "AccessorGrammar"@.len());
    reveal_strlit("Expression_B_Grammar");
    assert("ExplainStatementSegment"@.len() != "Expression_B_Grammar"@.len());
    reveal_strlit("Expression_C_Grammar");
    assert("ExplainStatementSegment"@.len() != "Expression_C_Grammar"@.len());
    reveal_strlit("Expression_D_Grammar");
    assert("ExplainStatementSegment"@.len() != "Expression_D_Grammar"@.len());
    reveal_strlit("NonSetSelectableGrammar");
    assert("ExplainStatementSegment"@[0] != "NonSetSelectableGrammar"@[0]);
    reveal_strlit("NonWithNonSelectableGrammar");
    assert("ExplainStatementSegment"@.len() != "NonWithNonSelectableGrammar"@.len());
    reveal_strlit("NonWithSelectableGrammar");
    assert("ExplainStatementSegment"@.len() != "NonWithSelectableGrammar"@.len());
    reveal_strlit("PostTableExpressionGrammar");
    assert("ExplainStatementSegment"@.len() != "PostTableExpressionGrammar"@.len());
    reveal_strlit("SelectableGrammar");
    assert("ExplainStatementSegment"@.len() != "SelectableGrammar"@.len());
    reveal_strlit("TimeWithTZGrammar");
    assert("ExplainStatementSegment"@.len() != "TimeWithTZGrammar"@.len());
}

/// The ANSI library holds `ExplainStatementSegment`: the value of its last entry of that name.
pub proof fn lemma_ansi_library_explain_statement_segment(lib: Map<Seq<char>, ElementView>)
    ensures
        ansi_library(lib).dom().contains("ExplainStatementSegment"@),
        ansi_library(lib)["ExplainStatementSegment"@] == explain_statement_segment_element(),
{
    reveal(ansi_library);
    let m0 = lib;
    let m1 = ansi_library_part_0(m0);
    let m2 = ansi_library_part_1(m1);
    let m3 = ansi_library_part_2(m2);
    let m4 = ansi_library_part_3(m3);
    let m5 = ansi_library_part_4(m4);
    let m6 = ansi_library_part_5(m5);
    let m7 = ansi_library_part_6(m6);
    let m8 = ansi_library_part_7(m7);
    let m9 = ansi_library_part_8(m8);
    let m10 = ansi_library_part_9(m9);
    let m11 = ansi_library_part_10(m10);
    let m12 = ansi_library_part_11(m11);
    lemma_part_6_sets_explain_statement_segment(m6);
    lemma_part_7_keeps_explain_statement_segment(m7);
    lemma_part_8_keeps_explain_statement_segment(m8);
    lemma_part_9_keeps_explain_statement_segment(m9);
    lemma_part_10_keeps_explain_statement_segment(m10);
    lemma_part_11_keeps_explain_statement_segment(m11);
}

proof fn lemma_part_3_sets_from_clause_terminator_grammar(m: Map<Seq<char>, ElementView>)
    ensures
        ansi_library_part_3(m).dom().contains("FromClauseTerminatorGrammar"@),
        ansi_library_part_3(m)["FromClauseTerminatorGrammar"@] == from_clause_terminator_grammar_element(),
{
    reveal_strlit("FromClauseTerminatorGrammar");
    reveal_strlit("AutoIncrementGrammar");
    assert("FromClauseTerminatorGrammar"@.len() != "AutoIncrementGrammar"@.len());
    reveal_strlit("BaseExpressionElementGrammar");
    assert("FromClauseTerminatorGrammar"@.len() != "BaseExpressionElementGrammar"@.len());
    reveal_strlit("DropBehaviorGrammar");
    assert("FromClauseTerminatorGrammar"@.len() != "DropBehaviorGrammar"@.len());
    reveal_strlit("ExtendedNaturalJoinKeywordsGrammar");
    assert("FromClauseTerminatorGrammar"@.len() != "ExtendedNaturalJoinKeywordsGrammar"@.len());
    reveal_strlit("FilterClauseGrammar");
    assert("FromClauseTerminatorGrammar"@.len() != "FilterClauseGrammar"@.len());
    reveal_strlit("ForeignKeyGrammar");
    assert("FromClauseTerminatorGrammar"@.len() != "ForeignKeyGrammar"@.len());
    reveal_strlit("FrameClauseUnitGrammar");
    assert("FromClauseTerminatorGrammar"@.len() != "FrameClauseUnitGrammar"@.len());
    reveal_strlit("FunctionParameterGrammar");
    assert("FromClauseTerminatorGrammar"@.len() != "FunctionParameterGrammar"@.len());
    reveal_strlit("GroupByClauseTerminatorGrammar");
    assert("FromClauseTerminatorGrammar"@.len() != "GroupByClauseTerminatorGrammar"@.len());
    reveal_strlit("HavingClauseTerminatorGrammar");
    assert("FromClauseTerminatorGrammar"@.len() != "HavingClauseTerminatorGrammar"@.len());
    reveal_strlit("IgnoreRespectNullsGrammar");
    assert("FromClauseTerminatorGrammar"@.len() != "IgnoreRespectNullsGrammar"@.len());
    reveal_strlit("JoinKeywordsGrammar");
    assert("FromClauseTerminatorGrammar"@.len() != "JoinKeywordsGrammar"@.len());
    reveal_strlit("JoinTypeKeywordsGrammar");
    assert("FromClauseTerminatorGrammar"@.len() != "JoinTypeKeywordsGrammar"@.len());
    reveal_strlit("NaturalJoinKeywordsGrammar");
    assert("FromClauseTerminatorGrammar"@.len() != "NaturalJoinKeywordsGrammar"@.len());
    reveal_strlit("NestedJoinGrammar");
    assert("FromClauseTerminatorGrammar"@.len() != "NestedJoinGrammar"@.len());
    reveal_strlit("OrderByClauseTerminators");
    assert("FromClauseTerminatorGrammar"@.len() != "OrderByClauseTerminators"@.len());
    reveal_strlit("PrimaryKeyGrammar");
    assert("FromClauseTerminatorGrammar"@.len() != "PrimaryKeyGrammar"@.len());
    reveal_strlit("ReferentialActionGrammar");
    assert("FromClauseTerminatorGrammar"@.len() != "ReferentialActionGrammar"@.len());
    reveal_strlit("UniqueKeyGrammar");
    assert("FromClauseTerminatorGrammar"@.len() != "UniqueKeyGrammar"@.len());
    reveal_strlit("WhereClauseTerminatorGrammar");
    assert("FromClauseTerminatorGrammar"@.len() != "WhereClauseTerminatorGrammar"@.len());
}

proof fn lemma_part_4_keeps_from_clause_terminator_grammar(m: Map<Seq<char>, ElementView>)
    requires
        m.dom().contains("FromClauseTerminatorGrammar"@),
    ensures
        ansi_library_part_4(m).dom().contains("FromClauseTerminatorGrammar"@),
        ansi_library_part_4(m)["FromClauseTerminatorGrammar"@] == m["FromClauseTerminatorGrammar"@],
{
    reveal_strlit("FromClauseTerminatorGrammar");
    reveal_strlit("AlterTableDropColumnGrammar");
    assert("FromClauseTerminatorGrammar"@[0] != "AlterTableDropColumnGrammar"@[0]);
    reveal_strlit("AlterTableOptionsGrammar");
    assert("FromClauseTerminatorGrammar"@.len() != "AlterTableOptionsGrammar"@.len());
    reveal_strlit("ColumnConstraintDefaultGrammar");
    assert("FromClauseTerminatorGrammar"@.len() != "ColumnConstraintDefaultGrammar"@.len());
    reveal_strlit("ColumnReferenceSegment");
    assert("FromClauseTerminatorGrammar"@.len() != "ColumnReferenceSegment"@.len());
    reveal_strlit("CubeFunctionNameSegment");
    assert("FromClauseTerminatorGrammar"@.len() != "CubeFunctionNameSegment"@.len());
    reveal_strlit("CubeRollupClauseSegment");
    assert("FromClauseTerminatorGrammar"@.len() != "CubeRollupClauseSegment"@.len());
    reveal_strlit("DateTimeFunctionContentsSegment");
    assert("FromClauseTerminatorGrammar"@.len() != "DateTimeFunctionContentsSegment"@.len());
    reveal_strlit("DefaultValuesGrammar");
    assert("FromClauseTerminatorGrammar"@.len() != "DefaultValuesGrammar"@.len());
    reveal_strlit("ExpressionSegment");
    assert("FromClauseTerminatorGrammar"@.len() != "ExpressionSegment"@.len());
    reveal_strlit("FetchClauseSegment");
    assert("FromClauseTerminatorGrammar"@.len() != "FetchClauseSegment"@.len());
    reveal_strlit("FileSegment");
    assert("FromClauseTerminatorGrammar"@.len() != "FileSegment"@.len());
    reveal_strlit("FunctionSegment");
    assert("FromClauseTerminatorGrammar"@.len() != "FunctionSegment"@.len());
    reveal_strlit("GroupingExpressionList");
    assert("FromClauseTerminatorGrammar"@.len() != "GroupingExpressionList"@.len());
    reveal_strlit("GroupingSetsClauseSegment");
    assert("FromClauseTerminatorGrammar"@.len() != "GroupingSetsClauseSegment"@.len());
    reveal_strlit("HavingClauseSegment");
    assert("FromClauseTerminatorGrammar"@.len() != "HavingClauseSegment"@.len());
    reveal_strlit("LimitClauseSegment");
    assert("FromClauseTerminatorGrammar"@.len() != "LimitClauseSegment"@.len());
    reveal_strlit("NamedWindowExpressionSegment");
    assert("FromClauseTerminatorGrammar"@.len() != "NamedWindowExpressionSegment"@.len());
    reveal_strlit("ObjectReferenceDelimiterGrammar");
    assert("FromClauseTerminatorGrammar"@.len() != "ObjectReferenceDelimiterGrammar"@.len());
    reveal_strlit("ObjectReferenceTerminatorGrammar");
    assert("FromClauseTerminatorGrammar"@.len() != "ObjectReferenceTerminatorGrammar"@.len());
    reveal_strlit("PathSegment");
    assert("FromClauseTerminatorGrammar"@.len() != "PathSegment"@.len());
    reveal_strlit("ReferenceDefinitionGrammar");
    assert("FromClauseTerminatorGrammar"@.len() != "ReferenceDefinitionGrammar"@.len());
    reveal_strlit("RollupFunctionNameSegment");
    assert("FromClauseTerminatorGrammar"@.len() != "RollupFunctionNameSegment"@.len());
    reveal_strlit("SetClauseSegment");
    assert("FromClauseTerminatorGrammar"@.len() != "SetClauseSegment"@.len());
    reveal_strlit("TrimParametersGrammar");
    assert("FromClauseTerminatorGrammar"@.len() != "TrimParametersGrammar"@.len());
    reveal_strlit("WildcardIdentifierSegment");
    assert("FromClauseTerminatorGrammar"@.len() != "WildcardIdentifierSegment"@.len());
}

proof fn lemma_part_5_keeps_from_clause_terminator_grammar(m: Map<Seq<char>, ElementView>)
    requires
        m.dom().contains("FromClauseTerminatorGrammar"@),
    ensures
        ansi_library_part_5(m).dom().contains("FromClauseTerminatorGrammar"@),
        ansi_library_part_5(m)["FromClauseTerminatorGrammar"@] == m["FromClauseTerminatorGrammar"@],
{
    reveal_strlit("FromClauseTerminatorGrammar");
    reveal_strlit("AlterSequenceOptionsSegment");
    assert("FromClauseTerminatorGrammar"@[0] != "AlterSequenceOptionsSegment"@[0]);
    reveal_strlit("CTEColumnList");
    assert("FromClauseTerminatorGrammar"@.len() != "CTEColumnList"@.len());
    reveal_strlit("CTEDefinitionSegment");
    assert("FromClauseTerminatorGrammar"@.len() != "CTEDefinitionSegment"@.len());
    reveal_strlit("ColumnConstraintSegment");
    assert("FromClauseTerminatorGrammar"@.len() != "ColumnConstraintSegment"@.len());
    reveal_strlit("ColumnDefinitionSegment");
    assert("FromClauseTerminatorGrammar"@.len() != "ColumnDefinitionSegment"@.len());
    reveal_strlit("CommentClauseSegment");
    assert("FromClauseTerminatorGrammar"@.len() != "CommentClauseSegment"@.len());
    reveal_strlit("ExtensionReferenceSegment");
    assert("FromClauseTerminatorGrammar"@.len() != "ExtensionReferenceSegment"@.len());
    reveal_strlit("FrameClauseSegment");
    assert("FromClauseTerminatorGrammar"@.len() != "FrameClauseSegment"@.len());
    reveal_strlit("FunctionDefinitionGrammar");
    assert("FromClauseTerminatorGrammar"@.len() != "FunctionDefinitionGrammar"@.len());
    reveal_strlit("GroupByClauseSegment");
    assert("FromClauseTerminatorGrammar"@.len() != "GroupByClauseSegment"@.len());
    reveal_strlit("MergeDeleteClauseSegment");
    assert("FromClauseTerminatorGrammar"@.len() != "MergeDeleteClauseSegment"@.len());
    reveal_strlit("MergeInsertClauseSegment");
    assert("FromClauseTerminatorGrammar"@.len() != "MergeInsertClauseSegment"@.len());
    reveal_strlit("MergeMatchSegment");
    assert("FromClauseTerminatorGrammar"@.len() != "MergeMatchSegment"@.len());
    reveal_strlit("MergeMatchedClauseSegment");
    assert("FromClauseTerminatorGrammar"@.len() != "MergeMatchedClauseSegment"@.len());
    reveal_strlit("MergeNotMatchedClauseSegment");
    assert("FromClauseTerminatorGrammar"@.len() != "MergeNotMatchedClauseSegment"@.len());
    reveal_strlit("MergeUpdateClauseSegment");
    assert("FromClauseTerminatorGrammar"@.len() != "MergeUpdateClauseSegment"@.len());
    reveal_strlit("RoleReferenceSegment");
    assert("FromClauseTerminatorGrammar"@.len() != "RoleReferenceSegment"@.len());
    reveal_strlit("SchemaReferenceSegment");
    assert("FromClauseTerminatorGrammar"@.len() != "SchemaReferenceSegment"@.len());
    reveal_strlit("SetClauseListSegment");
    assert("FromClauseTerminatorGrammar"@.len() != "SetClauseListSegment"@.len());
    reveal_strlit("SingleIdentifierListSegment");
    assert("FromClauseTerminatorGrammar"@[0] != "SingleIdentifierListSegment"@[0]);
    reveal_strlit("TableEndClauseSegment");
    assert("FromClauseTerminatorGrammar"@.len() != "TableEndClauseSegment"@.len());
    reveal_strlit("TablespaceReferenceSegment");
    assert("FromClauseTerminatorGrammar"@.len() != "TablespaceReferenceSegment"@.len());
    reveal_strlit("TagReferenceSegment");
    assert("FromClauseTerminatorGrammar"@.len() != "TagReferenceSegment"@.len());
    reveal_strlit("WithCompoundNonSelectStatementSegment");
    assert("FromClauseTerminatorGrammar"@.len() != "WithCompoundNonSelectStatementSegment"@.len());
    reveal_strlit("WithCompoundStatementSegment");
    assert("FromClauseTerminatorGrammar"@.len() != "WithCompoundStatementSegment"@.len());
}

proof fn lemma_part_6_keeps_from_clause_terminator_grammar(m: Map<Seq<char>, ElementView>)
    requires
        m.dom().contains("FromClauseTerminatorGrammar"@),
    ensures
        ansi_library_part_6(m).dom().contains("FromClauseTerminatorGrammar"@),
        ansi_library_part_6(m)["FromClauseTerminatorGrammar"@] == m["FromClauseTerminatorGrammar"@],
{
    reveal_strlit("FromClauseTerminatorGrammar");
    reveal_strlit("CollationReferenceSegment");
    assert("FromClauseTerminatorGrammar"@.len() != "CollationReferenceSegment"@.len());
    reveal_strlit("CreateSequenceOptionsSegment");
    assert("FromClauseTerminatorGrammar"@.len() != "CreateSequenceOptionsSegment"@.len());
    reveal_strlit("CreateSequenceStatementSegment");
    assert("FromClauseTerminatorGrammar"@.len() != "CreateSequenceStatementSegment"@.len());
    reveal_strlit("CreateTriggerStatementSegment");
    assert("FromClauseTerminatorGrammar"@.len() != "CreateTriggerStatementSegment"@.len());
    reveal_strlit("DatabaseReferenceSegment");
    assert("FromClauseTerminatorGrammar"@.len() != "DatabaseReferenceSegment"@.len());
    reveal_strlit("DescribeStatementSegment");
    assert("FromClauseTerminatorGrammar"@.len() != "DescribeStatementSegment"@.len());
    reveal_strlit("DropModelStatementSegment");
    assert("FromClauseTerminatorGrammar"@.len() != "DropModelStatementSegment"@.len());
    reveal_strlit("DropTriggerStatementSegment");
    assert("FromClauseTerminatorGrammar"@[0] != "DropTriggerStatementSegment"@[0]);
    reveal_strlit("ExplainStatementSegment");
    assert("FromClauseTerminatorGrammar"@.len() != "ExplainStatementSegment"@.len());
    reveal_strlit("IndexReferenceSegment");
    assert("FromClauseTerminatorGrammar"@.len() != "IndexReferenceSegment"@.len());
    reveal_strlit("JoinClauseSegment");
    assert("FromClauseTerminatorGrammar"@.len() != "JoinClauseSegment"@.len());
    reveal_strlit("JoinOnConditionSegment");
    assert("FromClauseTerminatorGrammar"@.len() != "JoinOnConditionSegment"@.len());
    reveal_strlit("NamedWindowSegment");
    assert("FromClauseTerminatorGrammar"@.len() != "NamedWindowSegment"@.len());
    reveal_strlit("OverClauseSegment");
    assert("FromClauseTerminatorGrammar"@.len() != "OverClauseSegment"@.len());
    reveal_strlit("PartitionClauseSegment");
    assert("FromClauseTerminatorGrammar"@.len() != "PartitionClauseSegment"@.len());
    reveal_strlit("SamplingExpressionSegment");
    assert("FromClauseTerminatorGrammar"@.len() != "SamplingExpressionSegment"@.len());
    reveal_strlit("SequenceReferenceSegment");
    assert("FromClauseTerminatorGrammar"@.len() != "SequenceReferenceSegment"@.len());
    reveal_strlit("TableConstraintSegment");
    assert("FromClauseTerminatorGrammar"@.len() != "TableConstraintSegment"@.len());
    reveal_strlit("TableExpressionSegment");
    assert("FromClauseTerminatorGrammar"@.len() != "TableExpressionSegment"@.len());
    reveal_strlit("TriggerReferenceSegment");
    assert("FromClauseTerminatorGrammar"@.len() != "TriggerReferenceSegment"@.len());
    reveal_strlit("UseStatementSegment");
    assert("FromClauseTerminatorGrammar"@.len() != "UseStatementSegment"@.len());
    reveal_strlit("WindowSpecificationSegment");
    assert("FromClauseTerminatorGrammar"@.len() != "WindowSpecificationSegment"@.len());
}

proof fn lemma_part_7_keeps_from_clause_terminator_grammar(m: Map<Seq<char>, ElementView>)
    requires
        m.dom().contains("FromClauseTerminatorGrammar"@),
    ensures
        ansi_library_part_7(m).dom().contains("FromClauseTerminatorGrammar"@),
        ansi_library_part_7(m)["FromClauseTerminatorGrammar"@] == m["FromClauseTerminatorGrammar"@],
{
    reveal_strlit("FromClauseTerminatorGrammar");
    reveal_strlit("AccessStatementSegment");
    assert("FromClauseTerminatorGrammar"@.len() != "AccessStatementSegment"@.len());
    reveal_strlit("AlterSequenceStatementSegment");
    assert("FromClauseTerminatorGrammar"@.len() != "AlterSequenceStatementSegment"@.len());
    reveal_strlit("AlterTableStatementSegment");
    assert("FromClauseTerminatorGrammar"@.len() != "AlterTableStatementSegment"@.len());
    reveal_strlit("CreateCastStatementSegment");
    assert("FromClauseTerminatorGrammar"@.len() != "CreateCastStatementSegment"@.len());
    reveal_strlit("CreateDatabaseStatementSegment");
    assert("FromClauseTerminatorGrammar"@.len() != "CreateDatabaseStatementSegment"@.len());
    reveal_strlit("CreateFunctionStatementSegment");
    assert("FromClauseTerminatorGrammar"@.len() != "CreateFunctionStatementSegment"@.len());
    reveal_strlit("CreateIndexStatementSegment");
    assert("FromClauseTerminatorGrammar"@[0] != "CreateIndexStatementSegment"@[0]);
    reveal_strlit("CreateModelStatementSegment");
    assert("FromClauseTerminatorGrammar"@[0] != "CreateModelStatementSegment"@[0]);
    reveal_strlit("CreateRoleStatementSegment");
    assert("FromClauseTerminatorGrammar"@.len() != "CreateRoleStatementSegment"@.len());
    reveal_strlit("CreateTableStatementSegment");
    assert("FromClauseTerminatorGrammar"@[0] != "CreateTableStatementSegment"@[0]);
    reveal_strlit("CreateViewStatementSegment");
    assert("FromClauseTerminatorGrammar"@.len() != "CreateViewStatementSegment"@.len());
    reveal_strlit("DeleteStatementSegment");
    assert("FromClauseTerminatorGrammar"@.len() != "DeleteStatementSegment"@.len());
    reveal_strlit("DropCastStatementSegment");
    assert("FromClauseTerminatorGrammar"@.len() != "DropCastStatementSegment"@.len());
    reveal_strlit("DropDatabaseStatementSegment");
    assert("FromClauseTerminatorGrammar"@.len() != "DropDatabaseStatementSegment"@.len());
    reveal_strlit("DropFunctionStatementSegment");
    assert("FromClauseTerminatorGrammar"@.len() != "DropFunctionStatementSegment"@.len());
    reveal_strlit("DropIndexStatementSegment");
    assert("FromClauseTerminatorGrammar"@.len() != "DropIndexStatementSegment"@.len());
    reveal_strlit("DropRoleStatementSegment");
    assert("FromClauseTerminatorGrammar"@.len() != "DropRoleStatementSegment"@.len());
    reveal_strlit("DropSchemaStatementSegment");
    assert("FromClauseTerminatorGrammar"@.len() != "DropSchemaStatementSegment"@.len());
    reveal_strlit("DropSequenceStatementSegment");
    assert("FromClauseTerminatorGrammar"@.len() != "DropSequenceStatementSegment"@.len());
    reveal_strlit("DropTypeStatementSegment");
    assert("FromClauseTerminatorGrammar"@.len() != "DropTypeStatementSegment"@.len());
    reveal_strlit("FunctionParameterListGrammar");
    assert("FromClauseTerminatorGrammar"@.len() != "FunctionParameterListGrammar"@.len());
    reveal_strlit("InsertStatementSegment");
    assert("FromClauseTerminatorGrammar"@.len() != "InsertStatementSegment"@.len());
    reveal_strlit("SetSchemaStatementSegment");
    assert("FromClauseTerminatorGrammar"@.len() != "SetSchemaStatementSegment"@.len());
    reveal_strlit("TransactionStatementSegment");
    assert("FromClauseTerminatorGrammar"@[0] != "TransactionStatementSegment"@[0]);
    reveal_strlit("UpdateStatementSegment");
    assert("FromClauseTerminatorGrammar"@.len() != "UpdateStatementSegment"@.len());
}

proof fn lemma_part_8_keeps_from_clause_terminator_grammar(m: Map<Seq<char>, ElementView>)
    requires
        m.dom().contains("FromClauseTerminatorGrammar"@),
    ensures
        ansi_library_part_8(m).dom().contains("FromClauseTerminatorGrammar"@),
        ansi_library_part_8(m)["FromClauseTerminatorGrammar"@] == m["FromClauseTerminatorGrammar"@],
{
    reveal_strlit("FromClauseTerminatorGrammar");
    reveal_strlit("AggregateOrderByClause");
    assert("FromClauseTerminatorGrammar"@.len() != "AggregateOrderByClause"@.len());
    reveal_strlit("ArrayExpressionSegment");
    assert("FromClauseTerminatorGrammar"@.len() != "ArrayExpressionSegment"@.len());
    reveal_strlit("BitwiseAndSegment");
    assert("FromClauseTerminatorGrammar"@.len() != "BitwiseAndSegment"@.len());
    reveal_strlit("BitwiseLShiftSegment");
    assert("FromClauseTerminatorGrammar"@.len() != "BitwiseLShiftSegment"@.len());
    reveal_strlit("BitwiseOrSegment");
    assert("FromClauseTerminatorGrammar"@.len() != "BitwiseOrSegment"@.len());
    reveal_strlit("BitwiseRShiftSegment");
    assert("FromClauseTerminatorGrammar"@.len() != "BitwiseRShiftSegment"@.len());
    reveal_strlit("ConcatSegment");
    assert("FromClauseTerminatorGrammar"@.len() != "ConcatSegment"@.len());
    reveal_strlit("CreateUserStatementSegment");
    assert("FromClauseTerminatorGrammar"@.len() != "CreateUserStatementSegment"@.len());
    reveal_strlit("DropTableStatementSegment");
    assert("FromClauseTerminatorGrammar"@.len() != "DropTableStatementSegment"@.len());
    reveal_strlit("DropUserStatementSegment");
    assert("FromClauseTerminatorGrammar"@.len() != "DropUserStatementSegment"@.len());
    reveal_strlit("DropViewStatementSegment");
    assert("FromClauseTerminatorGrammar"@.len() != "DropViewStatementSegment"@.len());
    reveal_strlit("ElseClauseSegment");
    assert("FromClauseTerminatorGrammar"@.len() != "ElseClauseSegment"@.len());
    reveal_strlit("EqualsSegment");
    assert("FromClauseTerminatorGrammar"@.len() != "EqualsSegment"@.len());
    reveal_strlit("FunctionNameSegment");
    assert("FromClauseTerminatorGrammar"@.len() != "FunctionNameSegment"@.len());
    reveal_strlit("GreaterThanOrEqualToSegment");
    assert("FromClauseTerminatorGrammar"@[0] != "GreaterThanOrEqualToSegment"@[0]);
    reveal_strlit("GreaterThanSegment");
    assert("FromClauseTerminatorGrammar"@.len() != "GreaterThanSegment"@.len());
    reveal_strlit("IndexColumnDefinitionSegment");
    assert("FromClauseTerminatorGrammar"@.len() != "IndexColumnDefinitionSegment"@.len());
    reveal_strlit("LessThanOrEqualToSegment");
    assert("FromClauseTerminatorGrammar"@.len() != "LessThanOrEqualToSegment"@.len());
    reveal_strlit("LessThanSegment");
    assert("FromClauseTerminatorGrammar"@.len() != "LessThanSegment"@.len());
    reveal_strlit("LocalAliasSegment");
    assert("FromClauseTerminatorGrammar"@.len() != "LocalAliasSegment"@.len());
    reveal_strlit("MergeStatementSegment");
    assert("FromClauseTerminatorGrammar"@.len() != "MergeStatementSegment"@.len());
    reveal_strlit("NotEqualToSegment");
    assert("FromClauseTerminatorGrammar"@.len() != "NotEqualToSegment"@.len());
    reveal_strlit("QualifiedNumericLiteralSegment");
    assert("FromClauseTerminatorGrammar"@.len() != "QualifiedNumericLiteralSegment"@.len());
    reveal_strlit("WhenClauseSegment");
    assert("FromClauseTerminatorGrammar"@.len() != "WhenClauseSegment"@.len());
    reveal_strlit("WhereClauseSegment");
    assert("FromClauseTerminatorGrammar"@.len() != "WhereClauseSegment"@.len());
}

proof fn lemma_part_9_keeps_from_clause_terminator_grammar(m: Map<Seq<char>, ElementView>)
    requires
        m.dom().contains("FromClauseTerminatorGrammar"@),
    ensures
        ansi_library_part_9(m).dom().contains("FromClauseTerminatorGrammar"@),
        ansi_library_part_9(m)["FromClauseTerminatorGrammar"@] == m["FromClauseTerminatorGrammar"@],
{
    reveal_strlit("FromClauseTerminatorGrammar");
    reveal_strlit("AliasExpressionSegment");
    assert("FromClauseTerminatorGrammar"@.len() != "AliasExpressionSegment"@.len());
    reveal_strlit("ArrayAccessorSegment");
    assert("FromClauseTerminatorGrammar"@.len() != "ArrayAccessorSegment"@.len());
    reveal_strlit("ArrayLiteralSegment");
    assert("FromClauseTerminatorGrammar"@.len() != "ArrayLiteralSegment"@.len());
    reveal_strlit("ArrayTypeSegment");
    assert("FromClauseTerminatorGrammar"@.len() != "ArrayTypeSegment"@.len());
    reveal_strlit("BracketedArguments");
    assert("FromClauseTerminatorGrammar"@.len() != "BracketedArguments"@.len());
    reveal_strlit("DatatypeSegment");
    assert("FromClauseTerminatorGrammar"@.len() != "DatatypeSegment"@.len());
    reveal_strlit("EmptyStructLiteralSegment");
    assert("FromClauseTerminatorGrammar"@.len() != "EmptyStructLiteralSegment"@.len());
    reveal_strlit("IntervalExpressionSegment");
    assert("FromClauseTerminatorGrammar"@.len() != "IntervalExpressionSegment"@.len());
    reveal_strlit("ObjectLiteralElementSegment");
    assert("FromClauseTerminatorGrammar"@[0] != "ObjectLiteralElementSegment"@[0]);
    reveal_strlit("ObjectLiteralSegment");
    assert("FromClauseTerminatorGrammar"@.len() != "ObjectLiteralSegment"@.len());
    reveal_strlit("OverlapsClauseSegment");
    assert("FromClauseTerminatorGrammar"@.len() != "OverlapsClauseSegment"@.len());
    reveal_strlit("SelectClauseSegment");
    assert("FromClauseTerminatorGrammar"@.len() != "SelectClauseSegment"@.len());
    reveal_strlit("SetOperatorSegment");
    assert("FromClauseTerminatorGrammar"@.len() != "SetOperatorSegment"@.len());
    reveal_strlit("ShorthandCastSegment");
    assert("FromClauseTerminatorGrammar"@.len() != "ShorthandCastSegment"@.len());
    reveal_strlit("SizedArrayTypeSegment");
    assert("FromClauseTerminatorGrammar"@.len() != "SizedArrayTypeSegment"@.len());
    reveal_strlit("StatementSegment");
    assert("FromClauseTerminatorGrammar"@.len() != "StatementSegment"@.len());
    reveal_strlit("StructLiteralSegment");
    assert("FromClauseTerminatorGrammar"@.len() != "StructLiteralSegment"@.len());
    reveal_strlit("StructTypeSegment");
    assert("FromClauseTerminatorGrammar"@.len() != "StructTypeSegment"@.len());
    reveal_strlit("TimeZoneGrammar");
    assert("FromClauseTerminatorGrammar"@.len() != "TimeZoneGrammar"@.len());
    reveal_strlit("TypedArrayLiteralSegment");
    assert("FromClauseTerminatorGrammar"@.len() != "TypedArrayLiteralSegment"@.len());
    reveal_strlit("TypedStructLiteralSegment");
    assert("FromClauseTerminatorGrammar"@.len() != "TypedStructLiteralSegment"@.len());
    reveal_strlit("UnorderedSelectStatementSegment");
    assert("FromClauseTerminatorGrammar"@.len() != "UnorderedSelectStatementSegment"@.len());
    reveal_strlit("ValuesClauseSegment");
    assert("FromClauseTerminatorGrammar"@.len() != "ValuesClauseSegment"@.len());
    reveal_strlit("WithDataClauseSegment");
    assert("FromClauseTerminatorGrammar"@.len() != "WithDataClauseSegment"@.len());
    reveal_strlit("WithNoSchemaBindingClauseSegment");
    assert("FromClauseTerminatorGrammar"@.len() != "WithNoSchemaBindingClauseSegment"@.len());
}

proof fn lemma_part_10_keeps_from_clause_terminator_grammar(m: Map<Seq<char>, ElementView>)
    requires
        m.dom().contains("FromClauseTerminatorGrammar"@),
    ensures
        ansi_library_part_10(m).dom().contains("FromClauseTerminatorGrammar"@),
        ansi_library_part_10(m)["FromClauseTerminatorGrammar"@] == m["FromClauseTerminatorGrammar"@],
{
    reveal_strlit("FromClauseTerminatorGrammar");
    reveal_strlit("AccessStatementSegmentGrantRoleWithOptionGrammar");
    assert("FromClauseTerminatorGrammar"@.len() != "AccessStatementSegmentGrantRoleWithOptionGrammar"@.len());
    reveal_strlit("AliasedTableReferenceGrammar");
    assert("FromClauseTerminatorGrammar"@.len() != "AliasedTableReferenceGrammar"@.len());
    reveal_strlit("CharCharacterSetGrammar");
    assert("FromClauseTerminatorGrammar"@.len() != "CharCharacterSetGrammar"@.len());
    reveal_strlit("CreateSchemaStatementSegment");
    assert("FromClauseTerminatorGrammar"@.len() != "CreateSchemaStatementSegment"@.len());
    reveal_strlit("DatePartFunctionNameSegment");
    assert("FromClauseTerminatorGrammar"@[0] != "DatePartFunctionNameSegment"@[0]);
    reveal_strlit("EmptyStructLiteralBracketsSegment");
    assert("FromClauseTerminatorGrammar"@.len() != "EmptyStructLiteralBracketsSegment"@.len());
    reveal_strlit("Expression_A_Grammar");
    assert("FromClauseTerminatorGrammar"@.len() != "Expression_A_Grammar"@.len());
    reveal_strlit("Expression_A_Unary_Operator_Grammar");
    assert("FromClauseTerminatorGrammar"@.len() != "Expression_A_Unary_Operator_Grammar"@.len());
    reveal_strlit("Expression_B_Unary_Operator_Grammar");
    assert("FromClauseTerminatorGrammar"@.len() != "Expression_B_Unary_Operator_Grammar"@.len());
    reveal_strlit("FromClauseSegment");
    assert("FromClauseTerminatorGrammar"@.len() != "FromClauseSegment"@.len());
    reveal_strlit("FromExpressionSegment");
    assert("FromClauseTerminatorGrammar"@.len() != "FromExpressionSegment"@.len());
    reveal_strlit("FunctionContentsExpressionGrammar");
    assert("FromClauseTerminatorGrammar"@.len() != "FunctionContentsExpressionGrammar"@.len());
    reveal_strlit("FunctionContentsGrammar");
    assert("FromClauseTerminatorGrammar"@.len() != "FunctionContentsGrammar"@.len());
    reveal_strlit("FunctionContentsSegment");
    assert("FromClauseTerminatorGrammar"@.len() != "FunctionContentsSegment"@.len());
    reveal_strlit("JoinLikeClauseGrammar");
    assert("FromClauseTerminatorGrammar"@.len() != "JoinLikeClauseGrammar"@.len());
    reveal_strlit("OrderByClauseSegment");
    assert("FromClauseTerminatorGrammar"@.len() != "OrderByClauseSegment"@.len());
    reveal_strlit("PostFunctionGrammar");
    assert("FromClauseTerminatorGrammar"@.len() != "PostFunctionGrammar"@.len());
    reveal_strlit("SelectClauseElementSegment");
    assert("FromClauseTerminatorGrammar"@.len() != "SelectClauseElementSegment"@.len());
    reveal_strlit("SelectClauseModifierSegment");
    assert("FromClauseTerminatorGrammar"@[0] != "SelectClauseModifierSegment"@[0]);
    reveal_strlit("SelectStatementSegment");
    assert("FromClauseTerminatorGrammar"@.len() != "SelectStatementSegment"@.len());
    reveal_strlit("SetExpressionSegment");
    assert("FromClauseTerminatorGrammar"@.len() != "SetExpressionSegment"@.len());
    reveal_strlit("Tail_Recurse_Expression_A_Grammar");
    assert("FromClauseTerminatorGrammar"@.len() != "Tail_Recurse_Expression_A_Grammar"@.len());
    reveal_strlit("Tail_Recurse_Expression_B_Grammar");
    assert("FromClauseTerminatorGrammar"@.len() != "Tail_Recurse_Expression_B_Grammar"@.len());
    reveal_strlit("TruncateStatementSegment");
    assert("FromClauseTerminatorGrammar"@.len() != "TruncateStatementSegment"@.len());
    reveal_strlit("WildcardExpressionSegment");
    assert("FromClauseTerminatorGrammar"@.len() != "WildcardExpressionSegment"@.len());
}

proof fn lemma_part_11_keeps_from_clause_terminator_grammar(m: Map<Seq<char>, ElementView>)
    requires
        m.dom().contains("FromClauseTerminatorGrammar"@),
    ensures
        ansi_library_part_11(m).dom().contains("FromClauseTerminatorGrammar"@),
        ansi_library_part_11(m)["FromClauseTerminatorGrammar"@] == m["FromClauseTerminatorGrammar"@],
{
    reveal_strlit("FromClauseTerminatorGrammar");
    reveal_strlit("AccessorGrammar");
    assert("FromClauseTerminatorGrammar"@.len() != "AccessorGrammar"@.len());
    reveal_strlit("Expression_B_Grammar");
    assert("FromClauseTerminatorGrammar"@.len() != "Expression_B_Grammar"@.len());
    reveal_strlit("Expression_C_Grammar");
    assert("FromClauseTerminatorGrammar"@.len() != "Expression_C_Grammar"@.len());
    reveal_strlit("Expression_D_Grammar");
    assert("FromClauseTerminatorGrammar"@.len() != "Expression_D_Grammar"@.len());
    reveal_strlit("NonSetSelectableGrammar");
    assert("FromClauseTerminatorGrammar"@.len() != "NonSetSelectableGrammar"@.len());
    reveal_strlit("NonWithNonSelectableGrammar");
    assert("FromClauseTerminatorGrammar"@[0] != "NonWithNonSelectableGrammar"@[0]);
    reveal_strlit("NonWithSelectableGrammar");
    assert("FromClauseTerminatorGrammar"@.len() != "NonWithSelectableGrammar"@.len());
    reveal_strlit("PostTableExpressionGrammar");
    assert("FromClauseTerminatorGrammar"@.len() != "PostTableExpressionGrammar"@.len());
    reveal_strlit("SelectableGrammar");
    assert("FromClauseTerminatorGrammar"@.len() != "SelectableGrammar"@.len());
    reveal_strlit("TimeWithTZGrammar");
    assert("FromClauseTerminatorGrammar"@.len() != "TimeWithTZGrammar"@.len());
}

/// The ANSI library holds `FromClauseTerminatorGrammar`: the value of its last entry of that name.
pub proof fn lemma_ansi_library_from_clause_terminator_grammar(lib: Map<Seq<char>, ElementView>)
    ensures
        ansi_library(lib).dom().contains("FromClauseTerminatorGrammar"@),
        ansi_library(lib)["FromClauseTerminatorGrammar"@] == from_clause_terminator_grammar_element(),
{
    reveal(ansi_library);
    let m0 = lib;
    let m1 = ansi_library_part_0(m0);
    let m2 = ansi_library_part_1(m1);
    let m3 = ansi_library_part_2(m2);
    let m4 = ansi_library_part_3(m3);
    let m5 = ansi_library_part_4(m4);
    let m6 = ansi_library_part_5(m5);
    let m7 = ansi_library_part_6(m6);
    let m8 = ansi_library_part_7(m7);
    let m9 = ansi_library_part_8(m8);
    let m10 = ansi_library_part_9(m9);
    let m11 = ansi_library_part_10(m10);
    let m12 = ansi_library_part_11(m11);
    lemma_part_3_sets_from_clause_terminator_grammar(m3);
    lemma_part_4_keeps_from_clause_terminator_grammar(m4);
    lemma_part_5_keeps_from_clause_terminator_grammar(m5);
    lemma_part_6_keeps_from_clause_terminator_grammar(m6);
    lemma_part_7_keeps_from_clause_terminator_grammar(m7);
    lemma_part_8_keeps_from_clause_terminator_grammar(m8);
    lemma_part_9_keeps_from_clause_terminator_grammar(m9);
    lemma_part_10_keeps_from_clause_terminator_grammar(m10);
    lemma_part_11_keeps_from_clause_terminator_grammar(m11);
}

proof fn lemma_part_3_sets_where_clause_terminator_grammar(m: Map<Seq<char>, ElementView>)
    ensures
        ansi_library_part_3(m).dom().contains("WhereClauseTerminatorGrammar"@),
        ansi_library_part_3(m)["WhereClauseTerminatorGrammar"@] == where_clause_terminator_grammar_element(),
{
    reveal_strlit("WhereClauseTerminatorGrammar");
    reveal_strlit("AutoIncrementGrammar");
    assert("WhereClauseTerminatorGrammar"@.len() != "AutoIncrementGrammar"@.len());
    reveal_strlit("BaseExpressionElementGrammar");
    assert("WhereClauseTerminatorGrammar"@[0] != "BaseExpressionElementGrammar"@[0]);
    reveal_strlit("DropBehaviorGrammar");
    assert("WhereClauseTerminatorGrammar"@.len() != "DropBehaviorGrammar"@.len());
    reveal_strlit("ExtendedNaturalJoinKeywordsGrammar");
    assert("WhereClauseTerminatorGrammar"@.len() != "ExtendedNaturalJoinKeywordsGrammar"@.len());
    reveal_strlit("FilterClauseGrammar");
    assert("WhereClauseTerminatorGrammar"@.len() != "FilterClauseGrammar"@.len());
    reveal_strlit("ForeignKeyGrammar");
    assert("WhereClauseTerminatorGrammar"@.len() != "ForeignKeyGrammar"@.len());
    reveal_strlit("FrameClauseUnitGrammar");
    assert("WhereClauseTerminatorGrammar"@.len() != "FrameClauseUnitGrammar"@.len());
    reveal_strlit("FunctionParameterGrammar");
    assert("WhereClauseTerminatorGrammar"@.len() != "FunctionParameterGrammar"@.len());
    reveal_strlit("GroupByClauseTerminatorGrammar");
    assert("WhereClauseTerminatorGrammar"@.len() != "GroupByClauseTerminatorGrammar"@.len());
    reveal_strlit("HavingClauseTerminatorGrammar");
    assert("WhereClauseTerminatorGrammar"@.len() != "HavingClauseTerminatorGrammar"@.len());
    reveal_strlit("IgnoreRespectNullsGrammar");
    assert("WhereClauseTerminatorGrammar"@.len() != "IgnoreRespectNullsGrammar"@.len());
    reveal_strlit("JoinKeywordsGrammar");
    assert("WhereClauseTerminatorGrammar"@.len() != "JoinKeywordsGrammar"@.len());
    reveal_strlit("JoinTypeKeywordsGrammar");
    assert("WhereClauseTerminatorGrammar"@.len() != "JoinTypeKeywordsGrammar"@.len());
    reveal_strlit("NaturalJoinKeywordsGrammar");
    assert("WhereClauseTerminatorGrammar"@.len() != "NaturalJoinKeywordsGrammar"@.len());
    reveal_strlit("NestedJoinGrammar");
    assert("WhereClauseTerminatorGrammar"@.len() != "NestedJoinGrammar"@.len());
    reveal_strlit("OrderByClauseTerminators");
    assert("WhereClauseTerminatorGrammar"@.len() != "OrderByClauseTerminators"@.len());
    reveal_strlit("PrimaryKeyGrammar");
    assert("WhereClauseTerminatorGrammar"@.len() != "PrimaryKeyGrammar"@.len());
    reveal_strlit("ReferentialActionGrammar");
    assert("WhereClauseTerminatorGrammar"@.len() != "ReferentialActionGrammar"@.len());
    reveal_strlit("UniqueKeyGrammar");
    assert("WhereClauseTerminatorGrammar"@.len() != "UniqueKeyGrammar"@.len());
}

proof fn lemma_part_4_keeps_where_clause_terminator_grammar(m: Map<Seq<char>, ElementView>)
    requires
        m.dom().contains("WhereClauseTerminatorGrammar"@),
    ensures
        ansi_library_part_4(m).dom().contains("WhereClauseTerminatorGrammar"@),
        ansi_library_part_4(m)["WhereClauseTerminatorGrammar"@] == m["WhereClauseTerminatorGrammar"@],
{
    reveal_strlit("WhereClauseTerminatorGrammar");
    reveal_strlit("AlterTableDropColumnGrammar");
    assert("WhereClauseTerminatorGrammar"@.len() != "AlterTableDropColumnGrammar"@.len());
    reveal_strlit("AlterTableOptionsGrammar");
    assert("WhereClauseTerminatorGrammar"@.len() != "AlterTableOptionsGrammar"@.len());
    reveal_strlit("ColumnConstraintDefaultGrammar");
    assert("WhereClauseTerminatorGrammar"@.len() != "ColumnConstraintDefaultGrammar"@.len());
    reveal_strlit("ColumnReferenceSegment");
    assert("WhereClauseTerminatorGrammar"@.len() != "ColumnReferenceSegment"@.len());
    reveal_strlit("CubeFunctionNameSegment");
    assert("WhereClauseTerminatorGrammar"@.len() != "CubeFunctionNameSegment"@.len());
    reveal_strlit("CubeRollupClauseSegment");
    assert("WhereClauseTerminatorGrammar"@.len() != "CubeRollupClauseSegment"@.len());
    reveal_strlit("DateTimeFunctionContentsSegment");
    assert("WhereClauseTerminatorGrammar"@.len() != "DateTimeFunctionContentsSegment"@.len());
    reveal_strlit("DefaultValuesGrammar");
    assert("WhereClauseTerminatorGrammar"@.len() != "DefaultValuesGrammar"@.len());
    reveal_strlit("ExpressionSegment");
    assert("WhereClauseTerminatorGrammar"@.len() != "ExpressionSegment"@.len());
    reveal_strlit("FetchClauseSegment");
    assert("WhereClauseTerminatorGrammar"@.len() != "FetchClauseSegment"@.len());
    reveal_strlit("FileSegment");
    assert("WhereClauseTerminatorGrammar"@.len() != "FileSegment"@.len());
    reveal_strlit("FunctionSegment");
    assert("WhereClauseTerminatorGrammar"@.len() != "FunctionSegment"@.len());
    reveal_strlit("GroupingExpressionList");
    assert("WhereClauseTerminatorGrammar"@.len() != "GroupingExpressionList"@.len());
    reveal_strlit("GroupingSetsClauseSegment");
    assert("WhereClauseTerminatorGrammar"@.len() != "GroupingSetsClauseSegment"@.len());
    reveal_strlit("HavingClauseSegment");
    assert("WhereClauseTerminatorGrammar"@.len() != "HavingClauseSegment"@.len());
    reveal_strlit("LimitClauseSegment");
    assert("WhereClauseTerminatorGrammar"@.len() != "LimitClauseSegment"@.len());
    reveal_strlit("NamedWindowExpressionSegment");
    assert("WhereClauseTerminatorGrammar"@[0] != "NamedWindowExpressionSegment"@[0]);
    reveal_strlit("ObjectReferenceDelimiterGrammar");
    assert("WhereClauseTerminatorGrammar"@.len() != "ObjectReferenceDelimiterGrammar"@.len());
    reveal_strlit("ObjectReferenceTerminatorGrammar");
    assert("WhereClauseTerminatorGrammar"@.len() != "ObjectReferenceTerminatorGrammar"@.len());
    reveal_strlit("PathSegment");
    assert("WhereClauseTerminatorGrammar"@.len() != "PathSegment"@.len());
    reveal_strlit("ReferenceDefinitionGrammar");
    assert("WhereClauseTerminatorGrammar"@.len() != "ReferenceDefinitionGrammar"@.len());
    reveal_strlit("RollupFunctionNameSegment");
    assert("WhereClauseTerminatorGrammar"@.len() != "RollupFunctionNameSegment"@.len());
    reveal_strlit("SetClauseSegment");
    assert("WhereClauseTerminatorGrammar"@.len() != "SetClauseSegment"@.len());
    reveal_strlit("TrimParametersGrammar");
    assert("WhereClauseTerminatorGrammar"@.len() != "TrimParametersGrammar"@.len());
    reveal_strlit("WildcardIdentifierSegment");
    assert("WhereClauseTerminatorGrammar"@.len() != "WildcardIdentifierSegment"@.len());
}

proof fn lemma_part_5_keeps_where_clause_terminator_grammar(m: Map<Seq<char>, ElementView>)
    requires
        m.dom().contains("WhereClauseTerminatorGrammar"@),
    ensures
        ansi_library_part_5(m).dom().contains("WhereClauseTerminatorGrammar"@),
        ansi_library_part_5(m)["WhereClauseTerminatorGrammar"@] == m["WhereClauseTerminatorGrammar"@],
{
    reveal_strlit("WhereClauseTerminatorGrammar");
    reveal_strlit("AlterSequenceOptionsSegment");
    assert("WhereClauseTerminatorGrammar"@.len() != "AlterSequenceOptionsSegment"@.len());
    reveal_strlit("CTEColumnList");
    assert("WhereClauseTerminatorGrammar"@.len() != "CTEColumnList"@.len());
    reveal_strlit("CTEDefinitionSegment");
    assert("WhereClauseTerminatorGrammar"@.len() != "CTEDefinitionSegment"@.len());
    reveal_strlit("ColumnConstraintSegment");
    assert("WhereClauseTerminatorGrammar"@.len() != "ColumnConstraintSegment"@.len());
    reveal_strlit("ColumnDefinitionSegment");
    assert("WhereClauseTerminatorGrammar"@.len() != "ColumnDefinitionSegment"@.len());
    reveal_strlit("CommentClauseSegment");
    assert("WhereClauseTerminatorGrammar"@.len() != "CommentClauseSegment"@.len());
    reveal_strlit("ExtensionReferenceSegment");
    assert("WhereClauseTerminatorGrammar"@.len() != "ExtensionReferenceSegment"@.len());
    reveal_strlit("FrameClauseSegment");
    assert("WhereClauseTerminatorGrammar"@.len() != "FrameClauseSegment"@.len());
    reveal_strlit("FunctionDefinitionGrammar");
    assert("WhereClauseTerminatorGrammar"@.len() != "FunctionDefinitionGrammar"@.len());
    reveal_strlit("GroupByClauseSegment");
    assert("WhereClauseTerminatorGrammar"@.len() != "GroupByClauseSegment"@.len());
    reveal_strlit("MergeDeleteClauseSegment");
    assert("WhereClauseTerminatorGrammar"@.len() != "MergeDeleteClauseSegment"@.len());
    reveal_strlit("MergeInsertClauseSegment");
    assert("WhereClauseTerminatorGrammar"@.len() != "MergeInsertClauseSegment"@.len());
    reveal_strlit("MergeMatchSegment");
    assert("WhereClauseTerminatorGrammar"@.len() != "MergeMatchSegment"@.len());
    reveal_strlit("MergeMatchedClauseSegment");
    assert("WhereClauseTerminatorGrammar"@.len() != "MergeMatchedClauseSegment"@.len());
    reveal_strlit("MergeNotMatchedClauseSegment");
    assert("WhereClauseTerminatorGrammar"@[0] != "MergeNotMatchedClauseSegment"@[0]);
    reveal_strlit("MergeUpdateClauseSegment");
    assert("WhereClauseTerminatorGrammar"@.len() != "MergeUpdateClauseSegment"@.len());
    reveal_strlit("RoleReferenceSegment");
    assert("WhereClauseTerminatorGrammar"@.len() != "RoleReferenceSegment"@.len());
    reveal_strlit("SchemaReferenceSegment");
    assert("WhereClauseTerminatorGrammar"@.len() != "SchemaReferenceSegment"@.len());
    reveal_strlit("SetClauseListSegment");
    assert("WhereClauseTerminatorGrammar"@.len() != "SetClauseListSegment"@.len());
    reveal_strlit("SingleIdentifierListSegment");
    assert("WhereClauseTerminatorGrammar"@.len() != "SingleIdentifierListSegment"@.len());
    reveal_strlit("TableEndClauseSegment");
    assert("WhereClauseTerminatorGrammar"@.len() != "TableEndClauseSegment"@.len());
    reveal_strlit("TablespaceReferenceSegment");
    assert("WhereClauseTerminatorGrammar"@.len() != "TablespaceReferenceSegment"@.len());
    reveal_strlit("TagReferenceSegment");
    assert("WhereClauseTerminatorGrammar"@.len() != "TagReferenceSegment"@.len());
    reveal_strlit("WithCompoundNonSelectStatementSegment");
    assert("WhereClauseTerminatorGrammar"@.len() != "WithCompoundNonSelectStatementSegment"@.len());
    reveal_strlit("WithCompoundStatementSegment");
    assert("WhereClauseTerminatorGrammar"@[1] != "WithCompoundStatementSegment"@[1]);
}

proof fn lemma_part_6_keeps_where_clause_terminator_grammar(m: Map<Seq<char>, ElementView>)
    requires
        m.dom().contains("WhereClauseTerminatorGrammar"@),
    ensures
        ansi_library_part_6(m).dom().contains("WhereClauseTerminatorGrammar"@),
        ansi_library_part_6(m)["WhereClauseTerminatorGrammar"@] == m["WhereClauseTerminatorGrammar"@],
{
    reveal_strlit("WhereClauseTerminatorGrammar");
    reveal_strlit("CollationReferenceSegment");
    assert("WhereClauseTerminatorGrammar"@.len() != "CollationReferenceSegment"@.len());
    reveal_strlit("CreateSequenceOptionsSegment");
    assert("WhereClauseTerminatorGrammar"@[0] != "CreateSequenceOptionsSegment"@[0]);
    reveal_strlit("CreateSequenceStatementSegment");
    assert("WhereClauseTerminatorGrammar"@.len() != "CreateSequenceStatementSegment"@.len());
    reveal_strlit("CreateTriggerStatementSegment");
    assert("WhereClauseTerminatorGrammar"@.len() != "CreateTriggerStatementSegment"@.len());
    reveal_strlit("DatabaseReferenceSegment");
    assert("WhereClauseTerminatorGrammar"@.len() != "DatabaseReferenceSegment"@.len());
    reveal_strlit("DescribeStatementSegment");
    assert("WhereClauseTerminatorGrammar"@.len() != "DescribeStatementSegment"@.len());
    reveal_strlit("DropModelStatementSegment");
    assert("WhereClauseTerminatorGrammar"@.len() != "DropModelStatementSegment"@.len());
    reveal_strlit("DropTriggerStatementSegment");
    assert("WhereClauseTerminatorGrammar"@.len() != "DropTriggerStatementSegment"@.len());
    reveal_strlit("ExplainStatementSegment");
    assert("WhereClauseTerminatorGrammar"@.len() != "ExplainStatementSegment"@.len());
    reveal_strlit("IndexReferenceSegment");
    assert("WhereClauseTerminatorGrammar"@.len() != "IndexReferenceSegment"@.len());
    reveal_strlit("JoinClauseSegment");
    assert("WhereClauseTerminatorGrammar"@.len() != "JoinClauseSegment"@.len());
    reveal_strlit("JoinOnConditionSegment");
    assert("WhereClauseTerminatorGrammar"@.len() != "JoinOnConditionSegment"@.len());
    reveal_strlit("NamedWindowSegment");
    assert("WhereClauseTerminatorGrammar"@.len() != "NamedWindowSegment"@.len());
    reveal_strlit("OverClauseSegment");
    assert("WhereClauseTerminatorGrammar"@.len() != "OverClauseSegment"@.len());
    reveal_strlit("PartitionClauseSegment");
    assert("WhereClauseTerminatorGrammar"@.len() != "PartitionClauseSegment"@.len());
    reveal_strlit("SamplingExpressionSegment");
    assert("WhereClauseTerminatorGrammar"@.len() != "SamplingExpressionSegment"@.len());
    reveal_strlit("SequenceReferenceSegment");
    assert("WhereClauseTerminatorGrammar"@.len() != "SequenceReferenceSegment"@.len());
    reveal_strlit("TableConstraintSegment");
    assert("WhereClauseTerminatorGrammar"@.len() != "TableConstraintSegment"@.len());
    reveal_strlit("TableExpressionSegment");
    assert("WhereClauseTerminatorGrammar"@.len() != "TableExpressionSegment"@.len());
    reveal_strlit("TriggerReferenceSegment");
    assert("WhereClauseTerminatorGrammar"@.len() != "TriggerReferenceSegment"@.len());
    reveal_strlit("UseStatementSegment");
    assert("WhereClauseTerminatorGrammar"@.len() != "UseStatementSegment"@.len());
    reveal_strlit("WindowSpecificationSegment");
    assert("WhereClauseTerminatorGrammar"@.len() != "WindowSpecificationSegment"@.len());
}

proof fn lemma_part_7_keeps_where_clause_terminator_grammar(m: Map<Seq<char>, ElementView>)
    requires
        m.dom().contains("WhereClauseTerminatorGrammar"@),
    ensures
        ansi_library_part_7(m).dom().contains("WhereClauseTerminatorGrammar"@),
        ansi_library_part_7(m)["WhereClauseTerminatorGrammar"@] == m["WhereClauseTerminatorGrammar"@],
{
    reveal_strlit("WhereClauseTerminatorGrammar");
    reveal_strlit("AccessStatementSegment");
    assert("WhereClauseTerminatorGrammar"@.len() != "AccessStatementSegment"@.len());
    reveal_strlit("AlterSequenceStatementSegment");
    assert("WhereClauseTerminatorGrammar"@.len() != "AlterSequenceStatementSegment"@.len());
    reveal_strlit("AlterTableStatementSegment");
    assert("WhereClauseTerminatorGrammar"@.len() != "AlterTableStatementSegment"@.len());
    reveal_strlit("CreateCastStatementSegment");
    assert("WhereClauseTerminatorGrammar"@.len() != "CreateCastStatementSegment"@.len());
    reveal_strlit("CreateDatabaseStatementSegment");
    assert("WhereClauseTerminatorGrammar"@.len() != "CreateDatabaseStatementSegment"@.len());
    reveal_strlit("CreateFunctionStatementSegment");
    assert("WhereClauseTerminatorGrammar"@.len() != "CreateFunctionStatementSegment"@.len());
    reveal_strlit("CreateIndexStatementSegment");
    assert("WhereClauseTerminatorGrammar"@.len() != "CreateIndexStatementSegment"@.len());
    reveal_strlit("CreateModelStatementSegment");
    assert("WhereClauseTerminatorGrammar"@.len() != "CreateModelStatementSegment"@.len());
    reveal_strlit("CreateRoleStatementSegment");
    assert("WhereClauseTerminatorGrammar"@.len() != "CreateRoleStatementSegment"@.len());
    reveal_strlit("CreateTableStatementSegment");
    assert("WhereClauseTerminatorGrammar"@.len() != "CreateTableStatementSegment"@.len());
    reveal_strlit("CreateViewStatementSegment");
    assert("WhereClauseTerminatorGrammar"@.len() != "CreateViewStatementSegment"@.len());
    reveal_strlit("DeleteStatementSegment");
    assert("WhereClauseTerminatorGrammar"@.len() != "DeleteStatementSegment"@.len());
    reveal_strlit("DropCastStatementSegment");
    assert("WhereClauseTerminatorGrammar"@.len() != "DropCastStatementSegment"@.len());
    reveal_strlit("DropDatabaseStatementSegment");
    assert("WhereClauseTerminatorGrammar"@[0] != "DropDatabaseStatementSegment"@[0]);
    reveal_strlit("DropFunctionStatementSegment");
    assert("WhereClauseTerminatorGrammar"@[0] != "DropFunctionStatementSegment"@[0]);
    reveal_strlit("DropIndexStatementSegment");
    assert("WhereClauseTerminatorGrammar"@.len() != "DropIndexStatementSegment"@.len());
    reveal_strlit("DropRoleStatementSegment");
    assert("WhereClauseTerminatorGrammar"@.len() != "DropRoleStatementSegment"@.len());
    reveal_strlit("DropSchemaStatementSegment");
    assert("WhereClauseTerminatorGrammar"@.len() != "DropSchemaStatementSegment"@.len());
    reveal_strlit("DropSequenceStatementSegment");
    assert("WhereClauseTerminatorGrammar"@[0] != "DropSequenceStatementSegment"@[0]);
    reveal_strlit("DropTypeStatementSegment");
    assert("WhereClauseTerminatorGrammar"@.len() != "DropTypeStatementSegment"@.len());
    reveal_strlit("FunctionParameterListGrammar");
    assert("WhereClauseTerminatorGrammar"@[0] != "FunctionParameterListGrammar"@[0]);
    reveal_strlit("InsertStatementSegment");
    assert("WhereClauseTerminatorGrammar"@.len() != "InsertStatementSegment"@.len());
    reveal_strlit("SetSchemaStatementSegment");
    assert("WhereClauseTerminatorGrammar"@.len() != "SetSchemaStatementSegment"@.len());
    reveal_strlit("TransactionStatementSegment");
    assert("WhereClauseTerminatorGrammar"@.len() != "TransactionStatementSegment"@.len());
    reveal_strlit("UpdateStatementSegment");
    assert("WhereClauseTerminatorGrammar"@.len() != "UpdateStatementSegment"@.len());
}

proof fn lemma_part_8_keeps_where_clause_terminator_grammar(m: Map<Seq<char>, ElementView>)
    requires
        m.dom().contains("WhereClauseTerminatorGrammar"@),
    ensures
        ansi_library_part_8(m).dom().contains("WhereClauseTerminatorGrammar"@),
        ansi_library_part_8(m)["WhereClauseTerminatorGrammar"@] == m["WhereClauseTerminatorGrammar"@],
{
    reveal_strlit("WhereClauseTerminatorGrammar");
    reveal_strlit("AggregateOrderByClause");
    assert("WhereClauseTerminatorGrammar"@.len() != "AggregateOrderByClause"@.len());
    reveal_strlit("ArrayExpressionSegment");
    assert("WhereClauseTerminatorGrammar"@.len() != "ArrayExpressionSegment"@.len());
    reveal_strlit("BitwiseAndSegment");
    assert("WhereClauseTerminatorGrammar"@.len() != "BitwiseAndSegment"@.len());
    reveal_strlit("BitwiseLShiftSegment");
    assert("WhereClauseTerminatorGrammar"@.len() != "BitwiseLShiftSegment"@.len());
    reveal_strlit("BitwiseOrSegment");
    assert("WhereClauseTerminatorGrammar"@.len() != "BitwiseOrSegment"@.len());
    reveal_strlit("BitwiseRShiftSegment");
    assert("WhereClauseTerminatorGrammar"@.len() != "BitwiseRShiftSegment"@.len());
    reveal_strlit("ConcatSegment");
    assert("WhereClauseTerminatorGrammar"@.len() != "ConcatSegment"@.len());
    reveal_strlit("CreateUserStatementSegment");
    assert("WhereClauseTerminatorGrammar"@.len() != "CreateUserStatementSegment"@.len());
    reveal_strlit("DropTableStatementSegment");
    assert("WhereClauseTerminatorGrammar"@.len() != "DropTableStatementSegment"@.len());
    reveal_strlit("DropUserStatementSegment");
    assert("WhereClauseTerminatorGrammar"@.len() != "DropUserStatementSegment"@.len());
    reveal_strlit("DropViewStatementSegment");
    assert("WhereClauseTerminatorGrammar"@.len() != "DropViewStatementSegment"@.len());
    reveal_strlit("ElseClauseSegment");
    assert("WhereClauseTerminatorGrammar"@.len() != "ElseClauseSegment"@.len());
    reveal_strlit("EqualsSegment");
    assert("WhereClauseTerminatorGrammar"@.len() != "EqualsSegment"@.len());
    reveal_strlit("FunctionNameSegment");
    assert("WhereClauseTerminatorGrammar"@.len() != "FunctionNameSegment"@.len());
    reveal_strlit("GreaterThanOrEqualToSegment");
    assert("WhereClauseTerminatorGrammar"@.len() != "GreaterThanOrEqualToSegment"@.len());
    reveal_strlit("GreaterThanSegment");
    assert("WhereClauseTerminatorGrammar"@.len() != "GreaterThanSegment"@.len());
    reveal_strlit("IndexColumnDefinitionSegment");
    assert("WhereClauseTerminatorGrammar"@[0] != "IndexColumnDefinitionSegment"@[0]);
    reveal_strlit("LessThanOrEqualToSegment");
    assert("WhereClauseTerminatorGrammar"@.len() != "LessThanOrEqualToSegment"@.len());
    reveal_strlit("LessThanSegment");
    assert("WhereClauseTerminatorGrammar"@.len() != "LessThanSegment"@.len());
    reveal_strlit("LocalAliasSegment");
    assert("WhereClauseTerminatorGrammar"@.len() != "LocalAliasSegment"@.len());
    reveal_strlit("MergeStatementSegment");
    assert("WhereClauseTerminatorGrammar"@.len() != "MergeStatementSegment"@.len());
    reveal_strlit("NotEqualToSegment");
    assert("WhereClauseTerminatorGrammar"@.len() != "NotEqualToSegment"@.len());
    reveal_strlit("QualifiedNumericLiteralSegment");
    assert("WhereClauseTerminatorGrammar"@.len() != "QualifiedNumericLiteralSegment"@.len());
    reveal_strlit("WhenClauseSegment");
    assert("WhereClauseTerminatorGrammar"@.len() != "WhenClauseSegment"@.len());
    reveal_strlit("WhereClauseSegment");
    assert("WhereClauseTerminatorGrammar"@.len() != "WhereClauseSegment"@.len());
}

proof fn lemma_part_9_keeps_where_clause_terminator_grammar(m: Map<Seq<char>, ElementView>)
    requires
        m.dom().contains("WhereClauseTerminatorGrammar"@),
    ensures
        ansi_library_part_9(m).dom().contains("WhereClauseTerminatorGrammar"@),
        ansi_library_part_9(m)["WhereClauseTerminatorGrammar"@] == m["WhereClauseTerminatorGrammar"@],
{
    reveal_strlit("WhereClauseTerminatorGrammar");
    reveal_strlit("AliasExpressionSegment");
    assert("WhereClauseTerminatorGrammar"@.len() != "AliasExpressionSegment"@.len());
    reveal_strlit("ArrayAccessorSegment");
    assert("WhereClauseTerminatorGrammar"@.len() != "ArrayAccessorSegment"@.len());
    reveal_strlit("ArrayLiteralSegment");
    assert("WhereClauseTerminatorGrammar"@.len() != "ArrayLiteralSegment"@.len());
    reveal_strlit("ArrayTypeSegment");
    assert("WhereClauseTerminatorGrammar"@.len() != "ArrayTypeSegment"@.len());
    reveal_strlit("BracketedArguments");
    assert("WhereClauseTerminatorGrammar"@.len() != "BracketedArguments"@.len());
    reveal_strlit("DatatypeSegment");
    assert("WhereClauseTerminatorGrammar"@.len() != "DatatypeSegment"@.len());
    reveal_strlit("EmptyStructLiteralSegment");
    assert("WhereClauseTerminatorGrammar"@.len() != "EmptyStructLiteralSegment"@.len());
    reveal_strlit("IntervalExpressionSegment");
    assert("WhereClauseTerminatorGrammar"@.len() != "IntervalExpressionSegment"@.len());
    reveal_strlit("ObjectLiteralElementSegment");
    assert("WhereClauseTerminatorGrammar"@.len() != "ObjectLiteralElementSegment"@.len());
    reveal_strlit("ObjectLiteralSegment");
    assert("WhereClauseTerminatorGrammar"@.len() != "ObjectLiteralSegment"@.len());
    reveal_strlit("OverlapsClauseSegment");
    assert("WhereClauseTerminatorGrammar"@.len() != "OverlapsClauseSegment"@.len());
    reveal_strlit("SelectClauseSegment");
    assert("WhereClauseTerminatorGrammar"@.len() != "SelectClauseSegment"@.len());
    reveal_strlit("SetOperatorSegment");
    assert("WhereClauseTerminatorGrammar"@.len() != "SetOperatorSegment"@.len());
    reveal_strlit("ShorthandCastSegment");
    assert("WhereClauseTerminatorGrammar"@.len() != "ShorthandCastSegment"@.len());
    reveal_strlit("SizedArrayTypeSegment");
    assert("WhereClauseTerminatorGrammar"@.len() != "SizedArrayTypeSegment"@.len());
    reveal_strlit("StatementSegment");
    assert("WhereClauseTerminatorGrammar"@.len() != "StatementSegment"@.len());
    reveal_strlit("StructLiteralSegment");
    assert("WhereClauseTerminatorGrammar"@.len() != "StructLiteralSegment"@.len());
    reveal_strlit("StructTypeSegment");
    assert("WhereClauseTerminatorGrammar"@.len() != "StructTypeSegment"@.len());
    reveal_strlit("TimeZoneGrammar");
    assert("WhereClauseTerminatorGrammar"@.len() != "TimeZoneGrammar"@.len());
    reveal_strlit("TypedArrayLiteralSegment");
    assert("WhereClauseTerminatorGrammar"@.len() != "TypedArrayLiteralSegment"@.len());
    reveal_strlit("TypedStructLiteralSegment");
    assert("WhereClauseTerminatorGrammar"@.len() != "TypedStructLiteralSegment"@.len());
    reveal_strlit("UnorderedSelectStatementSegment");
    assert("WhereClauseTerminatorGrammar"@.len() != "UnorderedSelectStatementSegment"@.len());
    reveal_strlit("ValuesClauseSegment");
    assert("WhereClauseTerminatorGrammar"@.len() != "ValuesClauseSegment"@.len());
    reveal_strlit("WithDataClauseSegment");
    assert("WhereClauseTerminatorGrammar"@.len() != "WithDataClauseSegment"@.len());
    reveal_strlit("WithNoSchemaBindingClauseSegment");
    assert("WhereClauseTerminatorGrammar"@.len() != "WithNoSchemaBindingClauseSegment"@.len());
}

proof fn lemma_part_10_keeps_where_clause_terminator_grammar(m: Map<Seq<char>, ElementView>)
    requires
        m.dom().contains("WhereClauseTerminatorGrammar"@),
    ensures
        ansi_library_part_10(m).dom().contains("WhereClauseTerminatorGrammar"@),
        ansi_library_part_10(m)["WhereClauseTerminatorGrammar"@] == m["WhereClauseTerminatorGrammar"@],
{
    reveal_strlit("WhereClauseTerminatorGrammar");
    reveal_strlit("AccessStatementSegmentGrantRoleWithOptionGrammar");
    assert("WhereClauseTerminatorGrammar"@.len() != "AccessStatementSegmentGrantRoleWithOptionGrammar"@.len());
    reveal_strlit("AliasedTableReferenceGrammar");
    assert("WhereClauseTerminatorGrammar"@[0] != "AliasedTableReferenceGrammar"@[0]);
    reveal_strlit("CharCharacterSetGrammar");
    assert("WhereClauseTerminatorGrammar"@.len() != "CharCharacterSetGrammar"@.len());
    reveal_strlit("CreateSchemaStatementSegment");
    assert("WhereClauseTerminatorGrammar"@[0] != "CreateSchemaStatementSegment"@[0]);
    reveal_strlit("DatePartFunctionNameSegment");
    assert("WhereClauseTerminatorGrammar"@.len() != "DatePartFunctionNameSegment"@.len());
    reveal_strlit("EmptyStructLiteralBracketsSegment");
    assert("WhereClauseTerminatorGrammar"@.len() != "EmptyStructLiteralBracketsSegment"@.len());
    reveal_strlit("Expression_A_Grammar");
    assert("WhereClauseTerminatorGrammar"@.len() != "Expression_A_Grammar"@.len());
    reveal_strlit("Expression_A_Unary_Operator_Grammar");
    assert("WhereClauseTerminatorGrammar"@.len() != "Expression_A_Unary_Operator_Grammar"@.len());
    reveal_strlit("Expression_B_Unary_Operator_Grammar");
    assert("WhereClauseTerminatorGrammar"@.len() != "Expression_B_Unary_Operator_Grammar"@.len());
    reveal_strlit("FromClauseSegment");
    assert("WhereClauseTerminatorGrammar"@.len() != "FromClauseSegment"@.len());
    reveal_strlit("FromExpressionSegment");
    assert("WhereClauseTerminatorGrammar"@.len() != "FromExpressionSegment"@.len());
    reveal_strlit("FunctionContentsExpressionGrammar");
    assert("WhereClauseTerminatorGrammar"@.len() != "FunctionContentsExpressionGrammar"@.len());
    reveal_strlit("FunctionContentsGrammar");
    assert("WhereClauseTerminatorGrammar"@.len() != "FunctionContentsGrammar"@.len());
    reveal_strlit("FunctionContentsSegment");
    assert("WhereClauseTerminatorGrammar"@.len() != "FunctionContentsSegment"@.len());
    reveal_strlit("JoinLikeClauseGrammar");
    assert("WhereClauseTerminatorGrammar"@.len() != "JoinLikeClauseGrammar"@.len());
    reveal_strlit("OrderByClauseSegment");
    assert("WhereClauseTerminatorGrammar"@.len() != "OrderByClauseSegment"@.len());
    reveal_strlit("PostFunctionGrammar");
    assert("WhereClauseTerminatorGrammar"@.len() != "PostFunctionGrammar"@.len());
    reveal_strlit("SelectClauseElementSegment");
    assert("WhereClauseTerminatorGrammar"@.len() != "SelectClauseElementSegment"@.len());
    reveal_strlit("SelectClauseModifierSegment");
    assert("WhereClauseTerminatorGrammar"@.len() != "SelectClauseModifierSegment"@.len());
    reveal_strlit("SelectStatementSegment");
    assert("WhereClauseTerminatorGrammar"@.len() != "SelectStatementSegment"@.len());
    reveal_strlit("SetExpressionSegment");
    assert("WhereClauseTerminatorGrammar"@.len() != "SetExpressionSegment"@.len());
    reveal_strlit("Tail_Recurse_Expression_A_Grammar");
    assert("WhereClauseTerminatorGrammar"@.len() != "Tail_Recurse_Expression_A_Grammar"@.len());
    reveal_strlit("Tail_Recurse_Expression_B_Grammar");
    assert("WhereClauseTerminatorGrammar"@.len() != "Tail_Recurse_Expression_B_Grammar"@.len());
    reveal_strlit("TruncateStatementSegment");
    assert("WhereClauseTerminatorGrammar"@.len() != "TruncateStatementSegment"@.len());
    reveal_strlit("WildcardExpressionSegment");
    assert("WhereClauseTerminatorGrammar"@.len() != "WildcardExpressionSegment"@.len());
}

proof fn lemma_part_11_keeps_where_clause_terminator_grammar(m: Map<Seq<char>, ElementView>)
    requires
        m.dom().contains("WhereClauseTerminatorGrammar"@),
    ensures
        ansi_library_part_11(m).dom().contains("WhereClauseTerminatorGrammar"@),
        ansi_library_part_11(m)["WhereClauseTerminatorGrammar"@] == m["WhereClauseTerminatorGrammar"@],
{
    reveal_strlit("WhereClauseTerminatorGrammar");
    reveal_strlit("AccessorGrammar");
    assert("WhereClauseTerminatorGrammar"@.len() != "AccessorGrammar"@.len());
    reveal_strlit("Expression_B_Grammar");
    assert("WhereClauseTerminatorGrammar"@.len() != "Expression_B_Grammar"@.len());
    reveal_strlit("Expression_C_Grammar");
    assert("WhereClauseTerminatorGrammar"@.len() != "Expression_C_Grammar"@.len());
    reveal_strlit("Expression_D_Grammar");
    assert("WhereClauseTerminatorGrammar"@.len() != "Expression_D_Grammar"@.len());
    reveal_strlit("NonSetSelectableGrammar");
    assert("WhereClauseTerminatorGrammar"@.len() != "NonSetSelectableGrammar"@.len());
    reveal_strlit("NonWithNonSelectableGrammar");
    assert("WhereClauseTerminatorGrammar"@.len() != "NonWithNonSelectableGrammar"@.len());
    reveal_strlit("NonWithSelectableGrammar");
    assert("WhereClauseTerminatorGrammar"@.len() != "NonWithSelectableGrammar"@.len());
    reveal_strlit("PostTableExpressionGrammar");
    assert("WhereClauseTerminatorGrammar"@.len() != "PostTableExpressionGrammar"@.len());
    reveal_strlit("SelectableGrammar");
    assert("WhereClauseTerminatorGrammar"@.len() != "SelectableGrammar"@.len());
    reveal_strlit("TimeWithTZGrammar");
    assert("WhereClauseTerminatorGrammar"@.len() != "TimeWithTZGrammar"@.len());
}

/// The ANSI library holds `WhereClauseTerminatorGrammar`: the value of its last entry of that name.
pub proof fn lemma_ansi_library_where_clause_terminator_grammar(lib: Map<Seq<char>, ElementView>)
    ensures
        ansi_library(lib).dom().contains("WhereClauseTerminatorGrammar"@),
        ansi_library(lib)["WhereClauseTerminatorGrammar"@] == where_clause_terminator_grammar_element(),
{
    reveal(ansi_library);
    let m0 = lib;
    let m1 = ansi_library_part_0(m0);
    let m2 = ansi_library_part_1(m1);
    let m3 = ansi_library_part_2(m2);
    let m4 = ansi_library_part_3(m3);
    let m5 = ansi_library_part_4(m4);
    let m6 = ansi_library_part_5(m5);
    let m7 = ansi_library_part_6(m6);
    let m8 = ansi_library_part_7(m7);
    let m9 = ansi_library_part_8(m8);
    let m10 = ansi_library_part_9(m9);
    let m11 = ansi_library_part_10(m10);
    let m12 = ansi_library_part_11(m11);
    lemma_part_3_sets_where_clause_terminator_grammar(m3);
    lemma_part_4_keeps_where_clause_terminator_grammar(m4);
    lemma_part_5_keeps_where_clause_terminator_grammar(m5);
    lemma_part_6_keeps_where_clause_terminator_grammar(m6);
    lemma_part_7_keeps_where_clause_terminator_grammar(m7);
    lemma_part_8_keeps_where_clause_terminator_grammar(m8);
    lemma_part_9_keeps_where_clause_terminator_grammar(m9);
    lemma_part_10_keeps_where_clause_terminator_grammar(m10);
    lemma_part_11_keeps_where_clause_terminator_grammar(m11);
}

proof fn lemma_part_3_sets_group_by_clause_terminator_grammar(m: Map<Seq<char>, ElementView>)
    ensures
        ansi_library_part_3(m).dom().contains("GroupByClauseTerminatorGrammar"@),
        ansi_library_part_3(m)["GroupByClauseTerminatorGrammar"@] == group_by_clause_terminator_grammar_element(),
{
    reveal_strlit("GroupByClauseTerminatorGrammar");
    reveal_strlit("AutoIncrementGrammar");
    assert("GroupByClauseTerminatorGrammar"@.len() != "AutoIncrementGrammar"@.len());
    reveal_strlit("BaseExpressionElementGrammar");
    assert("GroupByClauseTerminatorGrammar"@.len() != "BaseExpressionElementGrammar"@.len());
    reveal_strlit("DropBehaviorGrammar");
    assert("GroupByClauseTerminatorGrammar"@.len() != "DropBehaviorGrammar"@.len());
    reveal_strlit("ExtendedNaturalJoinKeywordsGrammar");
    assert("GroupByClauseTerminatorGrammar"@.len() != "ExtendedNaturalJoinKeywordsGrammar"@.len());
    reveal_strlit("FilterClauseGrammar");
    assert("GroupByClauseTerminatorGrammar"@.len() != "FilterClauseGrammar"@.len());
    reveal_strlit("ForeignKeyGrammar");
    assert("GroupByClauseTerminatorGrammar"@.len() != "ForeignKeyGrammar"@.len());
    reveal_strlit("FrameClauseUnitGrammar");
    assert("GroupByClauseTerminatorGrammar"@.len() != "FrameClauseUnitGrammar"@.len());
    reveal_strlit("FunctionParameterGrammar");
    assert("GroupByClauseTerminatorGrammar"@.len() != "FunctionParameterGrammar"@.len());
    reveal_strlit("HavingClauseTerminatorGrammar");
    assert("GroupByClauseTerminatorGrammar"@.len() != "HavingClauseTerminatorGrammar"@.len());
    reveal_strlit("IgnoreRespectNullsGrammar");
    assert("GroupByClauseTerminatorGrammar"@.len() != "IgnoreRespectNullsGrammar"@.len());
    reveal_strlit("JoinKeywordsGrammar");
    assert("GroupByClauseTerminatorGrammar"@.len() != "JoinKeywordsGrammar"@.len());
    reveal_strlit("JoinTypeKeywordsGrammar");
    assert("GroupByClauseTerminatorGrammar"@.len() != "JoinTypeKeywordsGrammar"@.len());
    reveal_strlit("NaturalJoinKeywordsGrammar");
    assert("GroupByClauseTerminatorGrammar"@.len() != "NaturalJoinKeywordsGrammar"@.len());
    reveal_strlit("NestedJoinGrammar");
    assert("GroupByClauseTerminatorGrammar"@.len() != "NestedJoinGrammar"@.len());
    reveal_strlit("OrderByClauseTerminators");
    assert("GroupByClauseTerminatorGrammar"@.len() != "OrderByClauseTerminators"@.len());
    reveal_strlit("PrimaryKeyGrammar");
    assert("GroupByClauseTerminatorGrammar"@.len() != "PrimaryKeyGrammar"@.len());
    reveal_strlit("ReferentialActionGrammar");
    assert("GroupByClauseTerminatorGrammar"@.len() != "ReferentialActionGrammar"@.len());
    reveal_strlit("UniqueKeyGrammar");
    assert("GroupByClauseTerminatorGrammar"@.len() != "UniqueKeyGrammar"@.len());
}

proof fn lemma_part_4_keeps_group_by_clause_terminator_grammar(m: Map<Seq<char>, ElementView>)
    requires
        m.dom().contains("GroupByClauseTerminatorGrammar"@),
    ensures
        ansi_library_part_4(m).dom().contains("GroupByClauseTerminatorGrammar"@),
        ansi_library_part_4(m)["GroupByClauseTerminatorGrammar"@] == m["GroupByClauseTerminatorGrammar"@],
{
    reveal_strlit("GroupByClauseTerminatorGrammar");
    reveal_strlit("AlterTableDropColumnGrammar");
    assert("GroupByClauseTerminatorGrammar"@.len() != "AlterTableDropColumnGrammar"@.len());
    reveal_strlit("AlterTableOptionsGrammar");
    assert("GroupByClauseTerminatorGrammar"@.len() != "AlterTableOptionsGrammar"@.len());
    reveal_strlit("ColumnConstraintDefaultGrammar");
    assert("GroupByClauseTerminatorGrammar"@[0] != "ColumnConstraintDefaultGrammar"@[0]);
    reveal_strlit("ColumnReferenceSegment");
    assert("GroupByClauseTerminatorGrammar"@.len() != "ColumnReferenceSegment"@.len());
    reveal_strlit("CubeFunctionNameSegment");
    assert("GroupByClauseTerminatorGrammar"@.len() != "CubeFunctionNameSegment"@.len());
    reveal_strlit("CubeRollupClauseSegment");
    assert("GroupByClauseTerminatorGrammar"@.len() != "CubeRollupClauseSegment"@.len());
    reveal_strlit("DateTimeFunctionContentsSegment");
    assert("GroupByClauseTerminatorGrammar"@.len() != "DateTimeFunctionContentsSegment"@.len());
    reveal_strlit("DefaultValuesGrammar");
    assert("GroupByClauseTerminatorGrammar"@.len() != "DefaultValuesGrammar"@.len());
    reveal_strlit("ExpressionSegment");
    assert("GroupByClauseTerminatorGrammar"@.len() != "ExpressionSegment"@.len());
    reveal_strlit("FetchClauseSegment");
    assert("GroupByClauseTerminatorGrammar"@.len() != "FetchClauseSegment"@.len());
    reveal_strlit("FileSegment");
    assert("GroupByClauseTerminatorGrammar"@.len() != "FileSegment"@.len());
    reveal_strlit("FunctionSegment");
    assert("GroupByClauseTerminatorGrammar"@.len() != "FunctionSegment"@.len());
    reveal_strlit("GroupingExpressionList");
    assert("GroupByClauseTerminatorGrammar"@.len() != "GroupingExpressionList"@.len());
    reveal_strlit("GroupingSetsClauseSegment");
    assert("GroupByClauseTerminatorGrammar"@.len() != "GroupingSetsClauseSegment"@.len());
    reveal_strlit("HavingClauseSegment");
    assert("GroupByClauseTerminatorGrammar"@.len() != "HavingClauseSegment"@.len());
    reveal_strlit("LimitClauseSegment");
    assert("GroupByClauseTerminatorGrammar"@.len() != "LimitClauseSegment"@.len());
    reveal_strlit("NamedWindowExpressionSegment");
    assert("GroupByClauseTerminatorGrammar"@.len() != "NamedWindowExpressionSegment"@.len());
    reveal_strlit("ObjectReferenceDelimiterGrammar");
    assert("GroupByClauseTerminatorGrammar"@.len() != "ObjectReferenceDelimiterGrammar"@.len());
    reveal_strlit("ObjectReferenceTerminatorGrammar");
    assert("GroupByClauseTerminatorGrammar"@.len() != "ObjectReferenceTerminatorGrammar"@.len());
    reveal_strlit("PathSegment");
    assert("GroupByClauseTerminatorGrammar"@.len() != "PathSegment"@.len());
    reveal_strlit("ReferenceDefinitionGrammar");
    assert("GroupByClauseTerminatorGrammar"@.len() != "ReferenceDefinitionGrammar"@.len());
    reveal_strlit("RollupFunctionNameSegment");
    assert("GroupByClauseTerminatorGrammar"@.len() != "RollupFunctionNameSegment"@.len());
    reveal_strlit("SetClauseSegment");
    assert("GroupByClauseTerminatorGrammar"@.len() != "SetClauseSegment"@.len());
    reveal_strlit("TrimParametersGrammar");
    assert("GroupByClauseTerminatorGrammar"@.len() != "TrimParametersGrammar"@.len());
    reveal_strlit("WildcardIdentifierSegment");
    assert("GroupByClauseTerminatorGrammar"@.len() != "WildcardIdentifierSegment"@.len());
}

proof fn lemma_part_5_keeps_group_by_clause_terminator_grammar(m: Map<Seq<char>, ElementView>)
    requires
        m.dom().contains("GroupByClauseTerminatorGrammar"@),
    ensures
        ansi_library_part_5(m).dom().contains("GroupByClauseTerminatorGrammar"@),
        ansi_library_part_5(m)["GroupByClauseTerminatorGrammar"@] == m["GroupByClauseTerminatorGrammar"@],
{
    reveal_strlit("GroupByClauseTerminatorGrammar");
    reveal_strlit("AlterSequenceOptionsSegment");
    assert("GroupByClauseTerminatorGrammar"@.len() != "AlterSequenceOptionsSegment"@.len());
    reveal_strlit("CTEColumnList");
    assert("GroupByClauseTerminatorGrammar"@.len() != "CTEColumnList"@.len());
    reveal_strlit("CTEDefinitionSegment");
    assert("GroupByClauseTerminatorGrammar"@.len() != "CTEDefinitionSegment"@.len());
    reveal_strlit("ColumnConstraintSegment");
    assert("GroupByClauseTerminatorGrammar"@.len() != "ColumnConstraintSegment"@.len());
    reveal_strlit("ColumnDefinitionSegment");
    assert("GroupByClauseTerminatorGrammar"@.len() != "ColumnDefinitionSegment"@.len());
    reveal_strlit("CommentClauseSegment");
    assert("GroupByClauseTerminatorGrammar"@.len() != "CommentClauseSegment"@.len());
    reveal_strlit("ExtensionReferenceSegment");
    assert("GroupByClauseTerminatorGrammar"@.len() != "ExtensionReferenceSegment"@.len());
    reveal_strlit("FrameClauseSegment");
    assert("GroupByClauseTerminatorGrammar"@.len() != "FrameClauseSegment"@.len());
    reveal_strlit("FunctionDefinitionGrammar");
    assert("GroupByClauseTerminatorGrammar"@.len() != "FunctionDefinitionGrammar"@.len());
    reveal_strlit("GroupByClauseSegment");
    assert("GroupByClauseTerminatorGrammar"@.len() != "GroupByClauseSegment"@.len());
    reveal_strlit("MergeDeleteClauseSegment");
    assert("GroupByClauseTerminatorGrammar"@.len() != "MergeDeleteClauseSegment"@.len());
    reveal_strlit("MergeInsertClauseSegment");
    assert("GroupByClauseTerminatorGrammar"@.len() != "MergeInsertClauseSegment"@.len());
    reveal_strlit("MergeMatchSegment");
    assert("GroupByClauseTerminatorGrammar"@.len() != "MergeMatchSegment"@.len());
    reveal_strlit("MergeMatchedClauseSegment");
    assert("GroupByClauseTerminatorGrammar"@.len() != "MergeMatchedClauseSegment"@.len());
    reveal_strlit("MergeNotMatchedClauseSegment");
    assert("GroupByClauseTerminatorGrammar"@.len() != "MergeNotMatchedClauseSegment"@.len());
    reveal_strlit("MergeUpdateClauseSegment");
    assert("GroupByClauseTerminatorGrammar"@.len() != "MergeUpdateClauseSegment"@.len());
    reveal_strlit("RoleReferenceSegment");
    assert("GroupByClauseTerminatorGrammar"@.len() != "RoleReferenceSegment"@.len());
    reveal_strlit("SchemaReferenceSegment");
    assert("GroupByClauseTerminatorGrammar"@.len() != "SchemaReferenceSegment"@.len());
    reveal_strlit("SetClauseListSegment");
    assert("GroupByClauseTerminatorGrammar"@.len() != "SetClauseListSegment"@.len());
    reveal_strlit("SingleIdentifierListSegment");
    assert("GroupByClauseTerminatorGrammar"@.len() != "SingleIdentifierListSegment"@.len());
    reveal_strlit("TableEndClauseSegment");
    assert("GroupByClauseTerminatorGrammar"@.len() != "TableEndClauseSegment"@.len());
    reveal_strlit("TablespaceReferenceSegment");
    assert("GroupByClauseTerminatorGrammar"@.len() != "TablespaceReferenceSegment"@.len());
    reveal_strlit("TagReferenceSegment");
    assert("GroupByClauseTerminatorGrammar"@.len() != "TagReferenceSegment"@.len());
    reveal_strlit("WithCompoundNonSelectStatementSegment");
    assert("GroupByClauseTerminatorGrammar"@.len() != "WithCompoundNonSelectStatementSegment"@.len());
    reveal_strlit("WithCompoundStatementSegment");
    assert("GroupByClauseTerminatorGrammar"@.len() != "WithCompoundStatementSegment"@.len());
}

proof fn lemma_part_6_keeps_group_by_clause_terminator_grammar(m: Map<Seq<char>, ElementView>)
    requires
        m.dom().contains("GroupByClauseTerminatorGrammar"@),
    ensures
        ansi_library_part_6(m).dom().contains("GroupByClauseTerminatorGrammar"@),
        ansi_library_part_6(m)["GroupByClauseTerminatorGrammar"@] == m["GroupByClauseTerminatorGrammar"@],
{
    reveal_strlit("GroupByClauseTerminatorGrammar");
    reveal_strlit("CollationReferenceSegment");
    assert("GroupByClauseTerminatorGrammar"@.len() != "CollationReferenceSegment"@.len());
    reveal_strlit("CreateSequenceOptionsSegment");
    assert("GroupByClauseTerminatorGrammar"@.len() != "CreateSequenceOptionsSegment"@.len());
    reveal_strlit("CreateSequenceStatementSegment");
    assert("GroupByClauseTerminatorGrammar"@[0] != "CreateSequenceStatementSegment"@[0]);
    reveal_strlit("CreateTriggerStatementSegment");
    assert("GroupByClauseTerminatorGrammar"@.len() != "CreateTriggerStatementSegment"@.len());
    reveal_strlit("DatabaseReferenceSegment");
    assert("GroupByClauseTerminatorGrammar"@.len() != "DatabaseReferenceSegment"@.len());
    reveal_strlit("DescribeStatementSegment");
    assert("GroupByClauseTerminatorGrammar"@.len() != "DescribeStatementSegment"@.len());
    reveal_strlit("DropModelStatementSegment");
    assert("GroupByClauseTerminatorGrammar"@.len() != "DropModelStatementSegment"@.len());
    reveal_strlit("DropTriggerStatementSegment");
    assert("GroupByClauseTerminatorGrammar"@.len() != "DropTriggerStatementSegment"@.len());
    reveal_strlit("ExplainStatementSegment");
    assert("GroupByClauseTerminatorGrammar"@.len() != "ExplainStatementSegment"@.len());
    reveal_strlit("IndexReferenceSegment");
    assert("GroupByClauseTerminatorGrammar"@.len() != "IndexReferenceSegment"@.len());
    reveal_strlit("JoinClauseSegment");
    assert("GroupByClauseTerminatorGrammar"@.len() != "JoinClauseSegment"@.len());
    reveal_strlit("JoinOnConditionSegment");
    assert("GroupByClauseTerminatorGrammar"@.len() != "JoinOnConditionSegment"@.len());
    reveal_strlit("NamedWindowSegment");
    assert("GroupByClauseTerminatorGrammar"@.len() != "NamedWindowSegment"@.len());
    reveal_strlit("OverClauseSegment");
    assert("GroupByClauseTerminatorGrammar"@.len() != "OverClauseSegment"@.len());
    reveal_strlit("PartitionClauseSegment");
    assert("GroupByClauseTerminatorGrammar"@.len() != "PartitionClauseSegment"@.len());
    reveal_strlit("SamplingExpressionSegment");
    assert("GroupByClauseTerminatorGrammar"@.len() != "SamplingExpressionSegment"@.len());
    reveal_strlit("SequenceReferenceSegment");
    assert("GroupByClauseTerminatorGrammar"@.len() != "SequenceReferenceSegment"@.len());
    reveal_strlit("TableConstraintSegment");
    assert("GroupByClauseTerminatorGrammar"@.len() != "TableConstraintSegment"@.len());
    reveal_strlit("TableExpressionSegment");
    assert("GroupByClauseTerminatorGrammar"@.len() != "TableExpressionSegment"@.len());
    reveal_strlit("TriggerReferenceSegment");
    assert("GroupByClauseTerminatorGrammar"@.len() != "TriggerReferenceSegment"@.len());
    reveal_strlit("UseStatementSegment");
    assert("GroupByClauseTerminatorGrammar"@.len() != "UseStatementSegment"@.len());
    reveal_strlit("WindowSpecificationSegment");
    assert("GroupByClauseTerminatorGrammar"@.len() != "WindowSpecificationSegment"@.len());
}

proof fn lemma_part_7_keeps_group_by_clause_terminator_grammar(m: Map<Seq<char>, ElementView>)
    requires
        m.dom().contains("GroupByClauseTerminatorGrammar"@),
    ensures
        ansi_library_part_7(m).dom().contains("GroupByClauseTerminatorGrammar"@),
        ansi_library_part_7(m)["GroupByClauseTerminatorGrammar"@] == m["GroupByClauseTerminatorGrammar"@],
{
    reveal_strlit("GroupByClauseTerminatorGrammar");
    reveal_strlit("AccessStatementSegment");
    assert("GroupByClauseTerminatorGrammar"@.len() != "AccessStatementSegment"@.len());
    reveal_strlit("AlterSequenceStatementSegment");
    assert("GroupByClauseTerminatorGrammar"@.len() != "AlterSequenceStatementSegment"@.len());
    reveal_strlit("AlterTableStatementSegment");
    assert("GroupByClauseTerminatorGrammar"@.len() != "AlterTableStatementSegment"@.len());
    reveal_strlit("CreateCastStatementSegment");
    assert("GroupByClauseTerminatorGrammar"@.len() != "CreateCastStatementSegment"@.len());
    reveal_strlit("CreateDatabaseStatementSegment");
    assert("GroupByClauseTerminatorGrammar"@[0] != "CreateDatabaseStatementSegment"@[0]);
    reveal_strlit("CreateFunctionStatementSegment");
    assert("GroupByClauseTerminatorGrammar"@[0] != "CreateFunctionStatementSegment"@[0]);
    reveal_strlit("CreateIndexStatementSegment");
    assert("GroupByClauseTerminatorGrammar"@.len() != "CreateIndexStatementSegment"@.len());
    reveal_strlit("CreateModelStatementSegment");
    assert("GroupByClauseTerminatorGrammar"@.len() != "CreateModelStatementSegment"@.len());
    reveal_strlit("CreateRoleStatementSegment");
    assert("GroupByClauseTerminatorGrammar"@.len() != "CreateRoleStatementSegment"@.len());
    reveal_strlit("CreateTableStatementSegment");
    assert("GroupByClauseTerminatorGrammar"@.len() != "CreateTableStatementSegment"@.len());
    reveal_strlit("CreateViewStatementSegment");
    assert("GroupByClauseTerminatorGrammar"@.len() != "CreateViewStatementSegment"@.len());
    reveal_strlit("DeleteStatementSegment");
    assert("GroupByClauseTerminatorGrammar"@.len() != "DeleteStatementSegment"@.len());
    reveal_strlit("DropCastStatementSegment");
    assert("GroupByClauseTerminatorGrammar"@.len() != "DropCastStatementSegment"@.len());
    reveal_strlit("DropDatabaseStatementSegment");
    assert("GroupByClauseTerminatorGrammar"@.len() != "DropDatabaseStatementSegment"@.len());
    reveal_strlit("DropFunctionStatementSegment");
    assert("GroupByClauseTerminatorGrammar"@.len() != "DropFunctionStatementSegment"@.len());
    reveal_strlit("DropIndexStatementSegment");
    assert("GroupByClauseTerminatorGrammar"@.len() != "DropIndexStatementSegment"@.len());
    reveal_strlit("DropRoleStatementSegment");
    assert("GroupByClauseTerminatorGrammar"@.len() != "DropRoleStatementSegment"@.len());
    reveal_strlit("DropSchemaStatementSegment");
    assert("GroupByClauseTerminatorGrammar"@.len() != "DropSchemaStatementSegment"@.len());
    reveal_strlit("DropSequenceStatementSegment");
    assert("GroupByClauseTerminatorGrammar"@.len() != "DropSequenceStatementSegment"@.len());
    reveal_strlit("DropTypeStatementSegment");
    assert("GroupByClauseTerminatorGrammar"@.len() != "DropTypeStatementSegment"@.len());
    reveal_strlit("FunctionParameterListGrammar");
    assert("GroupByClauseTerminatorGrammar"@.len() != "FunctionParameterListGrammar"@.len());
    reveal_strlit("InsertStatementSegment");
    assert("GroupByClauseTerminatorGrammar"@.len() != "InsertStatementSegment"@.len());
    reveal_strlit("SetSchemaStatementSegment");
    assert("GroupByClauseTerminatorGrammar"@.len() != "SetSchemaStatementSegment"@.len());
    reveal_strlit("TransactionStatementSegment");
    assert("GroupByClauseTerminatorGrammar"@.len() != "TransactionStatementSegment"@.len());
    reveal_strlit("UpdateStatementSegment");
    assert("GroupByClauseTerminatorGrammar"@.len() != "UpdateStatementSegment"@.len());
}

proof fn lemma_part_8_keeps_group_by_clause_terminator_grammar(m: Map<Seq<char>, ElementView>)
    requires
        m.dom().contains("GroupByClauseTerminatorGrammar"@),
    ensures
        ansi_library_part_8(m).dom().contains("GroupByClauseTerminatorGrammar"@),
        ansi_library_part_8(m)["GroupByClauseTerminatorGrammar"@] == m["GroupByClauseTerminatorGrammar"@],
{
    reveal_strlit("GroupByClauseTerminatorGrammar");
    reveal_strlit("AggregateOrderByClause");
    assert("GroupByClauseTerminatorGrammar"@.len() != "AggregateOrderByClause"@.len());
    reveal_strlit("ArrayExpressionSegment");
    assert("GroupByClauseTerminatorGrammar"@.len() != "ArrayExpressionSegment"@.len());
    reveal_strlit("BitwiseAndSegment");
    assert("GroupByClauseTerminatorGrammar"@.len() != "BitwiseAndSegment"@.len());
    reveal_strlit("BitwiseLShiftSegment");
    assert("GroupByClauseTerminatorGrammar"@.len() != "BitwiseLShiftSegment"@.len());
    reveal_strlit("BitwiseOrSegment");
    assert("GroupByClauseTerminatorGrammar"@.len() != "BitwiseOrSegment"@.len());
    reveal_strlit("BitwiseRShiftSegment");
    assert("GroupByClauseTerminatorGrammar"@.len() != "BitwiseRShiftSegment"@.len());
    reveal_strlit("ConcatSegment");
    assert("GroupByClauseTerminatorGrammar"@.len() != "ConcatSegment"@.len());
    reveal_strlit("CreateUserStatementSegment");
    assert("GroupByClauseTerminatorGrammar"@.len() != "CreateUserStatementSegment"@.len());
    reveal_strlit("DropTableStatementSegment");
    assert("GroupByClauseTerminatorGrammar"@.len() != "DropTableStatementSegment"@.len());
    reveal_strlit("DropUserStatementSegment");
    assert("GroupByClauseTerminatorGrammar"@.len() != "DropUserStatementSegment"@.len());
    reveal_strlit("DropViewStatementSegment");
    assert("GroupByClauseTerminatorGrammar"@.len() != "DropViewStatementSegment"@.len());
    reveal_strlit("ElseClauseSegment");
    assert("GroupByClauseTerminatorGrammar"@.len() != "ElseClauseSegment"@.len());
    reveal_strlit("EqualsSegment");
    assert("GroupByClauseTerminatorGrammar"@.len() != "EqualsSegment"@.len());
    reveal_strlit("FunctionNameSegment");
    assert("GroupByClauseTerminatorGrammar"@.len() != "FunctionNameSegment"@.len());
    reveal_strlit("GreaterThanOrEqualToSegment");
    assert("GroupByClauseTerminatorGrammar"@.len() != "GreaterThanOrEqualToSegment"@.len());
    reveal_strlit("GreaterThanSegment");
    assert("GroupByClauseTerminatorGrammar"@.len() != "GreaterThanSegment"@.len());
    reveal_strlit("IndexColumnDefinitionSegment");
    assert("GroupByClauseTerminatorGrammar"@.len() != "IndexColumnDefinitionSegment"@.len());
    reveal_strlit("LessThanOrEqualToSegment");
    assert("GroupByClauseTerminatorGrammar"@.len() != "LessThanOrEqualToSegment"@.len());
    reveal_strlit("LessThanSegment");
    assert("GroupByClauseTerminatorGrammar"@.len() != "LessThanSegment"@.len());
    reveal_strlit("LocalAliasSegment");
    assert("GroupByClauseTerminatorGrammar"@.len() != "LocalAliasSegment"@.len());
    reveal_strlit("MergeStatementSegment");
    assert("GroupByClauseTerminatorGrammar"@.len() != "MergeStatementSegment"@.len());
    reveal_strlit("NotEqualToSegment");
    assert("GroupByClauseTerminatorGrammar"@.len() != "NotEqualToSegment"@.len());
    reveal_strlit("QualifiedNumericLiteralSegment");
    assert("GroupByClauseTerminatorGrammar"@[0] != "QualifiedNumericLiteralSegment"@[0]);
    reveal_strlit("WhenClauseSegment");
    assert("GroupByClauseTerminatorGrammar"@.len() != "WhenClauseSegment"@.len());
    reveal_strlit("WhereClauseSegment");
    assert("GroupByClauseTerminatorGrammar"@.len() != "WhereClauseSegment"@.len());
}

proof fn lemma_part_9_keeps_group_by_clause_terminator_grammar(m: Map<Seq<char>, ElementView>)
    requires
        m.dom().contains("GroupByClauseTerminatorGrammar"@),
    ensures
        ansi_library_part_9(m).dom().contains("GroupByClauseTerminatorGrammar"@),
        ansi_library_part_9(m)["GroupByClauseTerminatorGrammar"@] == m["GroupByClauseTerminatorGrammar"@],
{
    reveal_strlit("GroupByClauseTerminatorGrammar");
    reveal_strlit("AliasExpressionSegment");
    assert("GroupByClauseTerminatorGrammar"@.len() != "AliasExpressionSegment"@.len());
    reveal_strlit("ArrayAccessorSegment");
    assert("GroupByClauseTerminatorGrammar"@.len() != "ArrayAccessorSegment"@.len());
    reveal_strlit("ArrayLiteralSegment");
    assert("GroupByClauseTerminatorGrammar"@.len() != "ArrayLiteralSegment"@.len());
    reveal_strlit("ArrayTypeSegment");
    assert("GroupByClauseTerminatorGrammar"@.len() != "ArrayTypeSegment"@.len());
    reveal_strlit("BracketedArguments");
    assert("GroupByClauseTerminatorGrammar"@.len() != "BracketedArguments"@.len());
    reveal_strlit("DatatypeSegment");
    assert("GroupByClauseTerminatorGrammar"@.len() != "DatatypeSegment"@.len());
    reveal_strlit("EmptyStructLiteralSegment");
    assert("GroupByClauseTerminatorGrammar"@.len() != "EmptyStructLiteralSegment"@.len());
    reveal_strlit("IntervalExpressionSegment");
    assert("GroupByClauseTerminatorGrammar"@.len() != "IntervalExpressionSegment"@.len());
    reveal_strlit("ObjectLiteralElementSegment");
    assert("GroupByClauseTerminatorGrammar"@.len() != "ObjectLiteralElementSegment"@.len());
    reveal_strlit("ObjectLiteralSegment");
    assert("GroupByClauseTerminatorGrammar"@.len() != "ObjectLiteralSegment"@.len());
    reveal_strlit("OverlapsClauseSegment");
    assert("GroupByClauseTerminatorGrammar"@.len() != "OverlapsClauseSegment"@.len());
    reveal_strlit("SelectClauseSegment");
    assert("GroupByClauseTerminatorGrammar"@.len() != "SelectClauseSegment"@.len());
    reveal_strlit("SetOperatorSegment");
    assert("GroupByClauseTerminatorGrammar"@.len() != "SetOperatorSegment"@.len());
    reveal_strlit("ShorthandCastSegment");
    assert("GroupByClauseTerminatorGrammar"@.len() != "ShorthandCastSegment"@.len());
    reveal_strlit("SizedArrayTypeSegment");
    assert("GroupByClauseTerminatorGrammar"@.len() != "SizedArrayTypeSegment"@.len());
    reveal_strlit("StatementSegment");
    assert("GroupByClauseTerminatorGrammar"@.len() != "StatementSegment"@.len());
    reveal_strlit("StructLiteralSegment");
    assert("GroupByClauseTerminatorGrammar"@.len() != "StructLiteralSegment"@.len());
    reveal_strlit("StructTypeSegment");
    assert("GroupByClauseTerminatorGrammar"@.len() != "StructTypeSegment"@.len());
    reveal_strlit("TimeZoneGrammar");
    assert("GroupByClauseTerminatorGrammar"@.len() != "TimeZoneGrammar"@.len());
    reveal_strlit("TypedArrayLiteralSegment");
    assert("GroupByClauseTerminatorGrammar"@.len() != "TypedArrayLiteralSegment"@.len());
    reveal_strlit("TypedStructLiteralSegment");
    assert("GroupByClauseTerminatorGrammar"@.len() != "TypedStructLiteralSegment"@.len());
    reveal_strlit("UnorderedSelectStatementSegment");
    assert("GroupByClauseTerminatorGrammar"@.len() != "UnorderedSelectStatementSegment"@.len());
    reveal_strlit("ValuesClauseSegment");
    assert("GroupByClauseTerminatorGrammar"@.len() != "ValuesClauseSegment"@.len());
    reveal_strlit("WithDataClauseSegment");
    assert("GroupByClauseTerminatorGrammar"@.len() != "WithDataClauseSegment"@.len());
    reveal_strlit("WithNoSchemaBindingClauseSegment");
    assert("GroupByClauseTerminatorGrammar"@.len() != "WithNoSchemaBindingClauseSegment"@.len());
}

proof fn lemma_part_10_keeps_group_by_clause_terminator_grammar(m: Map<Seq<char>, ElementView>)
    requires
        m.dom().contains("GroupByClauseTerminatorGrammar"@),
    ensures
        ansi_library_part_10(m).dom().contains("GroupByClauseTerminatorGrammar"@),
        ansi_library_part_10(m)["GroupByClauseTerminatorGrammar"@] == m["GroupByClauseTerminatorGrammar"@],
{
    reveal_strlit("GroupByClauseTerminatorGrammar");
    reveal_strlit("AccessStatementSegmentGrantRoleWithOptionGrammar");
    assert("GroupByClauseTerminatorGrammar"@.len() != "AccessStatementSegmentGrantRoleWithOptionGrammar"@.len());
    reveal_strlit("AliasedTableReferenceGrammar");
    assert("GroupByClauseTerminatorGrammar"@.len() != "AliasedTableReferenceGrammar"@.len());
    reveal_strlit("CharCharacterSetGrammar");
    assert("GroupByClauseTerminatorGrammar"@.len() != "CharCharacterSetGrammar"@.len());
    reveal_strlit("CreateSchemaStatementSegment");
    assert("GroupByClauseTerminatorGrammar"@.len() != "CreateSchemaStatementSegment"@.len());
    reveal_strlit("DatePartFunctionNameSegment");
    assert("GroupByClauseTerminatorGrammar"@.len() != "DatePartFunctionNameSegment"@.len());
    reveal_strlit("EmptyStructLiteralBracketsSegment");
    assert("GroupByClauseTerminatorGrammar"@.len() != "EmptyStructLiteralBracketsSegment"@.len());
    reveal_strlit("Expression_A_Grammar");
    assert("GroupByClauseTerminatorGrammar"@.len() != "Expression_A_Grammar"@.len());
    reveal_strlit("Expression_A_Unary_Operator_Grammar");
    assert("GroupByClauseTerminatorGrammar"@.len() != "Expression_A_Unary_Operator_Grammar"@.len());
    reveal_strlit("Expression_B_Unary_Operator_Grammar");
    assert("GroupByClauseTerminatorGrammar"@.len() != "Expression_B_Unary_Operator_Grammar"@.len());
    reveal_strlit("FromClauseSegment");
    assert("GroupByClauseTerminatorGrammar"@.len() != "FromClauseSegment"@.len());
    reveal_strlit("FromExpressionSegment");
    assert("GroupByClauseTerminatorGrammar"@.len() != "FromExpressionSegment"@.len());
    reveal_strlit("FunctionContentsExpressionGrammar");
    assert("GroupByClauseTerminatorGrammar"@.len() != "FunctionContentsExpressionGrammar"@.len());
    reveal_strlit("FunctionContentsGrammar");
    assert("GroupByClauseTerminatorGrammar"@.len() != "FunctionContentsGrammar"@.len());
    reveal_strlit("FunctionContentsSegment");
    assert("GroupByClauseTerminatorGrammar"@.len() != "FunctionContentsSegment"@.len());
    reveal_strlit("JoinLikeClauseGrammar");
    assert("GroupByClauseTerminatorGrammar"@.len() != "JoinLikeClauseGrammar"@.len());
    reveal_strlit("OrderByClauseSegment");
    assert("GroupByClauseTerminatorGrammar"@.len() != "OrderByClauseSegment"@.len());
    reveal_strlit("PostFunctionGrammar");
    assert("GroupByClauseTerminatorGrammar"@.len() != "PostFunctionGrammar"@.len());
    reveal_strlit("SelectClauseElementSegment");
    assert("GroupByClauseTerminatorGrammar"@.len() != "SelectClauseElementSegment"@.len());
    reveal_strlit("SelectClauseModifierSegment");
    assert("GroupByClauseTerminatorGrammar"@.len() != "SelectClauseModifierSegment"@.len());
    reveal_strlit("SelectStatementSegment");
    assert("GroupByClauseTerminatorGrammar"@.len() != "SelectStatementSegment"@.len());
    reveal_strlit("SetExpressionSegment");
    assert("GroupByClauseTerminatorGrammar"@.len() != "SetExpressionSegment"@.len());
    reveal_strlit("Tail_Recurse_Expression_A_Grammar");
    assert("GroupByClauseTerminatorGrammar"@.len() != "Tail_Recurse_Expression_A_Grammar"@.len());
    reveal_strlit("Tail_Recurse_Expression_B_Grammar");
    assert("GroupByClauseTerminatorGrammar"@.len() != "Tail_Recurse_Expression_B_Grammar"@.len());
    reveal_strlit("TruncateStatementSegment");
    assert("GroupByClauseTerminatorGrammar"@.len() != "TruncateStatementSegment"@.len());
    reveal_strlit("WildcardExpressionSegment");
    assert("GroupByClauseTerminatorGrammar"@.len() != "WildcardExpressionSegment"@.len());
}

proof fn lemma_part_11_keeps_group_by_clause_terminator_grammar(m: Map<Seq<char>, ElementView>)
    requires
        m.dom().contains("GroupByClauseTerminatorGrammar"@),
    ensures
        ansi_library_part_11(m).dom().contains("GroupByClauseTerminatorGrammar"@),
        ansi_library_part_11(m)["GroupByClauseTerminatorGrammar"@] == m["GroupByClauseTerminatorGrammar"@],
{
    reveal_strlit("GroupByClauseTerminatorGrammar");
    reveal_strlit("AccessorGrammar");
    assert("GroupByClauseTerminatorGrammar"@.len() != "AccessorGrammar"@.len());
    reveal_strlit("Expression_B_Grammar");
    assert("GroupByClauseTerminatorGrammar"@.len() != "Expression_B_Grammar"@.len());
    reveal_strlit("Expression_C_Grammar");
    assert("GroupByClauseTerminatorGrammar"@.len() != "Expression_C_Grammar"@.len());
    reveal_strlit("Expression_D_Grammar");
    assert("GroupByClauseTerminatorGrammar"@.len() != "Expression_D_Grammar"@.len());
    reveal_strlit("NonSetSelectableGrammar");
    assert("GroupByClauseTerminatorGrammar"@.len() != "NonSetSelectableGrammar"@.len());
    reveal_strlit("NonWithNonSelectableGrammar");
    assert("GroupByClauseTerminatorGrammar"@.len() != "NonWithNonSelectableGrammar"@.len());
    reveal_strlit("NonWithSelectableGrammar");
    assert("GroupByClauseTerminatorGrammar"@.len() != "NonWithSelectableGrammar"@.len());
    reveal_strlit("PostTableExpressionGrammar");
    assert("GroupByClauseTerminatorGrammar"@.len() != "PostTableExpressionGrammar"@.len());
    reveal_strlit("SelectableGrammar");
    assert("GroupByClauseTerminatorGrammar"@.len() != "SelectableGrammar"@.len());
    reveal_strlit("TimeWithTZGrammar");
    assert("GroupByClauseTerminatorGrammar"@.len() != "TimeWithTZGrammar"@.len());
}

/// The ANSI library holds `GroupByClauseTerminatorGrammar`: the value of its last entry of that name.
pub proof fn lemma_ansi_library_group_by_clause_terminator_grammar(lib: Map<Seq<char>, ElementView>)
    ensures
        ansi_library(lib).dom().contains("GroupByClauseTerminatorGrammar"@),
        ansi_library(lib)["GroupByClauseTerminatorGrammar"@] == group_by_clause_terminator_grammar_element(),
{
    reveal(ansi_library);
    let m0 = lib;
    let m1 = ansi_library_part_0(m0);
    let m2 = ansi_library_part_1(m1);
    let m3 = ansi_library_part_2(m2);
    let m4 = ansi_library_part_3(m3);
    let m5 = ansi_library_part_4(m4);
    let m6 = ansi_library_part_5(m5);
    let m7 = ansi_library_part_6(m6);
    let m8 = ansi_library_part_7(m7);
    let m9 = ansi_library_part_8(m8);
    let m10 = ansi_library_part_9(m9);
    let m11 = ansi_library_part_10(m10);
    let m12 = ansi_library_part_11(m11);
    lemma_part_3_sets_group_by_clause_terminator_grammar(m3);
    lemma_part_4_keeps_group_by_clause_terminator_grammar(m4);
    lemma_part_5_keeps_group_by_clause_terminator_grammar(m5);
    lemma_part_6_keeps_group_by_clause_terminator_grammar(m6);
    lemma_part_7_keeps_group_by_clause_terminator_grammar(m7);
    lemma_part_8_keeps_group_by_clause_terminator_grammar(m8);
    lemma_part_9_keeps_group_by_clause_terminator_grammar(m9);
    lemma_part_10_keeps_group_by_clause_terminator_grammar(m10);
    lemma_part_11_keeps_group_by_clause_terminator_grammar(m11);
}

proof fn lemma_part_3_sets_having_clause_terminator_grammar(m: Map<Seq<char>, ElementView>)
    ensures
        ansi_library_part_3(m).dom().contains("HavingClauseTerminatorGrammar"@),
        ansi_library_part_3(m)["HavingClauseTerminatorGrammar"@] == having_clause_terminator_grammar_element(),
{
    reveal_strlit("HavingClauseTerminatorGrammar");
    reveal_strlit("AutoIncrementGrammar");
    assert("HavingClauseTerminatorGrammar"@.len() != "AutoIncrementGrammar"@.len());
    reveal_strlit("BaseExpressionElementGrammar");
    assert("HavingClauseTerminatorGrammar"@.len() != "BaseExpressionElementGrammar"@.len());
    reveal_strlit("DropBehaviorGrammar");
    assert("HavingClauseTerminatorGrammar"@.len() != "DropBehaviorGrammar"@.len());
    reveal_strlit("ExtendedNaturalJoinKeywordsGrammar");
    assert("HavingClauseTerminatorGrammar"@.len() != "ExtendedNaturalJoinKeywordsGrammar"@.len());
    reveal_strlit("FilterClauseGrammar");
    assert("HavingClauseTerminatorGrammar"@.len() != "FilterClauseGrammar"@.len());
    reveal_strlit("ForeignKeyGrammar");
    assert("HavingClauseTerminatorGrammar"@.len() != "ForeignKeyGrammar"@.len());
    reveal_strlit("FrameClauseUnitGrammar");
    assert("HavingClauseTerminatorGrammar"@.len() != "FrameClauseUnitGrammar"@.len());
    reveal_strlit("FunctionParameterGrammar");
    assert("HavingClauseTerminatorGrammar"@.len() != "FunctionParameterGrammar"@.len());
    reveal_strlit("IgnoreRespectNullsGrammar");
    assert("HavingClauseTerminatorGrammar"@.len() != "IgnoreRespectNullsGrammar"@.len());
    reveal_strlit("JoinKeywordsGrammar");
    assert("HavingClauseTerminatorGrammar"@.len() != "JoinKeywordsGrammar"@.len());
    reveal_strlit("JoinTypeKeywordsGrammar");
    assert("HavingClauseTerminatorGrammar"@.len() != "JoinTypeKeywordsGrammar"@.len());
    reveal_strlit("NaturalJoinKeywordsGrammar");
    assert("HavingClauseTerminatorGrammar"@.len() != "NaturalJoinKeywordsGrammar"@.len());
    reveal_strlit("NestedJoinGrammar");
    assert("HavingClauseTerminatorGrammar"@.len() != "NestedJoinGrammar"@.len());
    reveal_strlit("OrderByClauseTerminators");
    assert("HavingClauseTerminatorGrammar"@.len() != "OrderByClauseTerminators"@.len());
    reveal_strlit("PrimaryKeyGrammar");
    assert("HavingClauseTerminatorGrammar"@.len() != "PrimaryKeyGrammar"@.len());
    reveal_strlit("ReferentialActionGrammar");
    assert("HavingClauseTerminatorGrammar"@.len() != "ReferentialActionGrammar"@.len());
    reveal_strlit("UniqueKeyGrammar");
    assert("HavingClauseTerminatorGrammar"@.len() != "UniqueKeyGrammar"@.len());
}

proof fn lemma_part_4_keeps_having_clause_terminator_grammar(m: Map<Seq<char>, ElementView>)
    requires
        m.dom().contains("HavingClauseTerminatorGrammar"@),
    ensures
        ansi_library_part_4(m).dom().contains("HavingClauseTerminatorGrammar"@),
        ansi_library_part_4(m)["HavingClauseTerminatorGrammar"@] == m["HavingClauseTerminatorGrammar"@],
{
    reveal_strlit("HavingClauseTerminatorGrammar");
    reveal_strlit("AlterTableDropColumnGrammar");
    assert("HavingClauseTerminatorGrammar"@.len() != "AlterTableDropColumnGrammar"@.len());
    reveal_strlit("AlterTableOptionsGrammar");
    assert("HavingClauseTerminatorGrammar"@.len() != "AlterTableOptionsGrammar"@.len());
    reveal_strlit("ColumnConstraintDefaultGrammar");
    assert("HavingClauseTerminatorGrammar"@.len() != "ColumnConstraintDefaultGrammar"@.len());
    reveal_strlit("ColumnReferenceSegment");
    assert("HavingClauseTerminatorGrammar"@.len() != "ColumnReferenceSegment"@.len());
    reveal_strlit("CubeFunctionNameSegment");
    assert("HavingClauseTerminatorGrammar"@.len() != "CubeFunctionNameSegment"@.len());
    reveal_strlit("CubeRollupClauseSegment");
    assert("HavingClauseTerminatorGrammar"@.len() != "CubeRollupClauseSegment"@.len());
    reveal_strlit("DateTimeFunctionContentsSegment");
    assert("HavingClauseTerminatorGrammar"@.len() != "DateTimeFunctionContentsSegment"@.len());
    reveal_strlit("DefaultValuesGrammar");
    assert("HavingClauseTerminatorGrammar"@.len() != "DefaultValuesGrammar"@.len());
    reveal_strlit("ExpressionSegment");
    assert("HavingClauseTerminatorGrammar"@.len() != "ExpressionSegment"@.len());
    reveal_strlit("FetchClauseSegment");
    assert("HavingClauseTerminatorGrammar"@.len() != "FetchClauseSegment"@.len());
    reveal_strlit("FileSegment");
    assert("HavingClauseTerminatorGrammar"@.len() != "FileSegment"@.len());
    reveal_strlit("FunctionSegment");
    assert("HavingClauseTerminatorGrammar"@.len() != "FunctionSegment"@.len());
    reveal_strlit("GroupingExpressionList");
    assert("HavingClauseTerminatorGrammar"@.len() != "GroupingExpressionList"@.len());
    reveal_strlit("GroupingSetsClauseSegment");
    assert("HavingClauseTerminatorGrammar"@.len() != "GroupingSetsClauseSegment"@.len());
    reveal_strlit("HavingClauseSegment");
    assert("HavingClauseTerminatorGrammar"@.len() != "HavingClauseSegment"@.len());
    reveal_strlit("LimitClauseSegment");
    assert("HavingClauseTerminatorGrammar"@.len() != "LimitClauseSegment"@.len());
    reveal_strlit("NamedWindowExpressionSegment");
    assert("HavingClauseTerminatorGrammar"@.len() != "NamedWindowExpressionSegment"@.len());
    reveal_strlit("ObjectReferenceDelimiterGrammar");
    assert("HavingClauseTerminatorGrammar"@.len() != "ObjectReferenceDelimiterGrammar"@.len());
    reveal_strlit("ObjectReferenceTerminatorGrammar");
    assert("HavingClauseTerminatorGrammar"@.len() != "ObjectReferenceTerminatorGrammar"@.len());
    reveal_strlit("PathSegment");
    assert("HavingClauseTerminatorGrammar"@.len() != "PathSegment"@.len());
    reveal_strlit("ReferenceDefinitionGrammar");
    assert("HavingClauseTerminatorGrammar"@.len() != "ReferenceDefinitionGrammar"@.len());
    reveal_strlit("RollupFunctionNameSegment");
    assert("HavingClauseTerminatorGrammar"@.len() != "RollupFunctionNameSegment"@.len());
    reveal_strlit("SetClauseSegment");
    assert("HavingClauseTerminatorGrammar"@.len() != "SetClauseSegment"@.len());
    reveal_strlit("TrimParametersGrammar");
    assert("HavingClauseTerminatorGrammar"@.len() != "TrimParametersGrammar"@.len());
    reveal_strlit("WildcardIdentifierSegment");
    assert("HavingClauseTerminatorGrammar"@.len() != "WildcardIdentifierSegment"@.len());
}

proof fn lemma_part_5_keeps_having_clause_terminator_grammar(m: Map<Seq<char>, ElementView>)
    requires
        m.dom().contains("HavingClauseTerminatorGrammar"@),
    ensures
        ansi_library_part_5(m).dom().contains("HavingClauseTerminatorGrammar"@),
        ansi_library_part_5(m)["HavingClauseTerminatorGrammar"@] == m["HavingClauseTerminatorGrammar"@],
{
    reveal_strlit("HavingClauseTerminatorGrammar");
    reveal_strlit("AlterSequenceOptionsSegment");
    assert("HavingClauseTerminatorGrammar"@.len() != "AlterSequenceOptionsSegment"@.len());
    reveal_strlit("CTEColumnList");
    assert("HavingClauseTerminatorGrammar"@.len() != "CTEColumnList"@.len());
    reveal_strlit("CTEDefinitionSegment");
    assert("HavingClauseTerminatorGrammar"@.len() != "CTEDefinitionSegment"@.len());
    reveal_strlit("ColumnConstraintSegment");
    assert("HavingClauseTerminatorGrammar"@.len() != "ColumnConstraintSegment"@.len());
    reveal_strlit("ColumnDefinitionSegment");
    assert("HavingClauseTerminatorGrammar"@.len() != "ColumnDefinitionSegment"@.len());
    reveal_strlit("CommentClauseSegment");
    assert("HavingClauseTerminatorGrammar"@.len() != "CommentClauseSegment"@.len());
    reveal_strlit("ExtensionReferenceSegment");
    assert("HavingClauseTerminatorGrammar"@.len() != "ExtensionReferenceSegment"@.len());
    reveal_strlit("FrameClauseSegment");
    assert("HavingClauseTerminatorGrammar"@.len() != "FrameClauseSegment"@.len());
    reveal_strlit("FunctionDefinitionGrammar");
    assert("HavingClauseTerminatorGrammar"@.len() != "FunctionDefinitionGrammar"@.len());
    reveal_strlit("GroupByClauseSegment");
    assert("HavingClauseTerminatorGrammar"@.len() != "GroupByClauseSegment"@.len());
    reveal_strlit("MergeDeleteClauseSegment");
    assert("HavingClauseTerminatorGrammar"@.len() != "MergeDeleteClauseSegment"@.len());
    reveal_strlit("MergeInsertClauseSegment");
    assert("HavingClauseTerminatorGrammar"@.len() != "MergeInsertClauseSegment"@.len());
    reveal_strlit("MergeMatchSegment");
    assert("HavingClauseTerminatorGrammar"@.len() != "MergeMatchSegment"@.len());
    reveal_strlit("MergeMatchedClauseSegment");
    assert("HavingClauseTerminatorGrammar"@.len() != "MergeMatchedClauseSegment"@.len());
    reveal_strlit("MergeNotMatchedClauseSegment");
    assert("HavingClauseTerminatorGrammar"@.len() != "MergeNotMatchedClauseSegment"@.len());
    reveal_strlit("MergeUpdateClauseSegment");
    assert("HavingClauseTerminatorGrammar"@.len() != "MergeUpdateClauseSegment"@.len());
    reveal_strlit("RoleReferenceSegment");
    assert("HavingClauseTerminatorGrammar"@.len() != "RoleReferenceSegment"@.len());
    reveal_strlit("SchemaReferenceSegment");
    assert("HavingClauseTerminatorGrammar"@.len() != "SchemaReferenceSegment"@.len());
    reveal_strlit("SetClauseListSegment");
    assert("HavingClauseTerminatorGrammar"@.len() != "SetClauseListSegment"@.len());
    reveal_strlit("SingleIdentifierListSegment");
    assert("HavingClauseTerminatorGrammar"@.len() != "SingleIdentifierListSegment"@.len());
    reveal_strlit("TableEndClauseSegment");
    assert("HavingClauseTerminatorGrammar"@.len() != "TableEndClauseSegment"@.len());
    reveal_strlit("TablespaceReferenceSegment");
    assert("HavingClauseTerminatorGrammar"@.len() != "TablespaceReferenceSegment"@.len());
    reveal_strlit("TagReferenceSegment");
    assert("HavingClauseTerminatorGrammar"@.len() != "TagReferenceSegment"@.len());
    reveal_strlit("WithCompoundNonSelectStatementSegment");
    assert("HavingClauseTerminatorGrammar"@.len() != "WithCompoundNonSelectStatementSegment"@.len());
    reveal_strlit("WithCompoundStatementSegment");
    assert("HavingClauseTerminatorGrammar"@.len() != "WithCompoundStatementSegment"@.len());
}

proof fn lemma_part_6_keeps_having_clause_terminator_grammar(m: Map<Seq<char>, ElementView>)
    requires
        m.dom().contains("HavingClauseTerminatorGrammar"@),
    ensures
        ansi_library_part_6(m).dom().contains("HavingClauseTerminatorGrammar"@),
        ansi_library_part_6(m)["HavingClauseTerminatorGrammar"@] == m["HavingClauseTerminatorGrammar"@],
{
    reveal_strlit("HavingClauseTerminatorGrammar");
    reveal_strlit("CollationReferenceSegment");
    assert("HavingClauseTerminatorGrammar"@.len() != "CollationReferenceSegment"@.len());
    reveal_strlit("CreateSequenceOptionsSegment");
    assert("HavingClauseTerminatorGrammar"@.len() != "CreateSequenceOptionsSegment"@.len());
    reveal_strlit("CreateSequenceStatementSegment");
    assert("HavingClauseTerminatorGrammar"@.len() != "CreateSequenceStatementSegment"@.len());
    reveal_strlit("CreateTriggerStatementSegment");
    assert("HavingClauseTerminatorGrammar"@[0] != "CreateTriggerStatementSegment"@[0]);
    reveal_strlit("DatabaseReferenceSegment");
    assert("HavingClauseTerminatorGrammar"@.len() != "DatabaseReferenceSegment"@.len());
    reveal_strlit("DescribeStatementSegment");
    assert("HavingClauseTerminatorGrammar"@.len() != "DescribeStatementSegment"@.len());
    reveal_strlit("DropModelStatementSegment");
    assert("HavingClauseTerminatorGrammar"@.len() != "DropModelStatementSegment"@.len());
    reveal_strlit("DropTriggerStatementSegment");
    assert("HavingClauseTerminatorGrammar"@.len() != "DropTriggerStatementSegment"@.len());
    reveal_strlit("ExplainStatementSegment");
    assert("HavingClauseTerminatorGrammar"@.len() != "ExplainStatementSegment"@.len());
    reveal_strlit("IndexReferenceSegment");
    assert("HavingClauseTerminatorGrammar"@.len() != "IndexReferenceSegment"@.len());
    reveal_strlit("JoinClauseSegment");
    assert("HavingClauseTerminatorGrammar"@.len() != "JoinClauseSegment"@.len());
    reveal_strlit("JoinOnConditionSegment");
    assert("HavingClauseTerminatorGrammar"@.len() != "JoinOnConditionSegment"@.len());
    reveal_strlit("NamedWindowSegment");
    assert("HavingClauseTerminatorGrammar"@.len() != "NamedWindowSegment"@.len());
    reveal_strlit("OverClauseSegment");
    assert("HavingClauseTerminatorGrammar"@.len() != "OverClauseSegment"@.len());
    reveal_strlit("PartitionClauseSegment");
    assert("HavingClauseTerminatorGrammar"@.len() != "PartitionClauseSegment"@.len());
    reveal_strlit("SamplingExpressionSegment");
    assert("HavingClauseTerminatorGrammar"@.len() != "SamplingExpressionSegment"@.len());
    reveal_strlit("SequenceReferenceSegment");
    assert("HavingClauseTerminatorGrammar"@.len() != "SequenceReferenceSegment"@.len());
    reveal_strlit("TableConstraintSegment");
    assert("HavingClauseTerminatorGrammar"@.len() != "TableConstraintSegment"@.len());
    reveal_strlit("TableExpressionSegment");
    assert("HavingClauseTerminatorGrammar"@.len() != "TableExpressionSegment"@.len());
    reveal_strlit("TriggerReferenceSegment");
    assert("HavingClauseTerminatorGrammar"@.len() != "TriggerReferenceSegment"@.len());
    reveal_strlit("UseStatementSegment");
    assert("HavingClauseTerminatorGrammar"@.len() != "UseStatementSegment"@.len());
    reveal_strlit("WindowSpecificationSegment");
    assert("HavingClauseTerminatorGrammar"@.len() != "WindowSpecificationSegment"@.len());
}

proof fn lemma_part_7_keeps_having_clause_terminator_grammar(m: Map<Seq<char>, ElementView>)
    requires
        m.dom().contains("HavingClauseTerminatorGrammar"@),
    ensures
        ansi_library_part_7(m).dom().contains("HavingClauseTerminatorGrammar"@),
        ansi_library_part_7(m)["HavingClauseTerminatorGrammar"@] == m["HavingClauseTerminatorGrammar"@],
{
    reveal_strlit("HavingClauseTerminatorGrammar");
    reveal_strlit("AccessStatementSegment");
    assert("HavingClauseTerminatorGrammar"@.len() != "AccessStatementSegment"@.len());
    reveal_strlit("AlterSequenceStatementSegment");
    assert("HavingClauseTerminatorGrammar"@[0] != "AlterSequenceStatementSegment"@[0]);
    reveal_strlit("AlterTableStatementSegment");
    assert("HavingClauseTerminatorGrammar"@.len() != "AlterTableStatementSegment"@.len());
    reveal_strlit("CreateCastStatementSegment");
    assert("HavingClauseTerminatorGrammar"@.len() != "CreateCastStatementSegment"@.len());
    reveal_strlit("CreateDatabaseStatementSegment");
    assert("HavingClauseTerminatorGrammar"@.len() != "CreateDatabaseStatementSegment"@.len());
    reveal_strlit("CreateFunctionStatementSegment");
    assert("HavingClauseTerminatorGrammar"@.len() != "CreateFunctionStatementSegment"@.len());
    reveal_strlit("CreateIndexStatementSegment");
    assert("HavingClauseTerminatorGrammar"@.len() != "CreateIndexStatementSegment"@.len());
    reveal_strlit("CreateModelStatementSegment");
    assert("HavingClauseTerminatorGrammar"@.len() != "CreateModelStatementSegment"@.len());
    reveal_strlit("CreateRoleStatementSegment");
    assert("HavingClauseTerminatorGrammar"@.len() != "CreateRoleStatementSegment"@.len());
    reveal_strlit("CreateTableStatementSegment");
    assert("HavingClauseTerminatorGrammar"@.len() != "CreateTableStatementSegment"@.len());
    reveal_strlit("CreateViewStatementSegment");
    assert("HavingClauseTerminatorGrammar"@.len() != "CreateViewStatementSegment"@.len());
    reveal_strlit("DeleteStatementSegment");
    assert("HavingClauseTerminatorGrammar"@.len() != "DeleteStatementSegment"@.len());
    reveal_strlit("DropCastStatementSegment");
    assert("HavingClauseTerminatorGrammar"@.len() != "DropCastStatementSegment"@.len());
    reveal_strlit("DropDatabaseStatementSegment");
    assert("HavingClauseTerminatorGrammar"@.len() != "DropDatabaseStatementSegment"@.len());
    reveal_strlit("DropFunctionStatementSegment");
    assert("HavingClauseTerminatorGrammar"@.len() != "DropFunctionStatementSegment"@.len());
    reveal_strlit("DropIndexStatementSegment");
    assert("HavingClauseTerminatorGrammar"@.len() != "DropIndexStatementSegment"@.len());
    reveal_strlit("DropRoleStatementSegment");
    assert("HavingClauseTerminatorGrammar"@.len() != "DropRoleStatementSegment"@.len());
    reveal_strlit("DropSchemaStatementSegment");
    assert("HavingClauseTerminatorGrammar"@.len() != "DropSchemaStatementSegment"@.len());
    reveal_strlit("DropSequenceStatementSegment");
    assert("HavingClauseTerminatorGrammar"@.len() != "DropSequenceStatementSegment"@.len());
    reveal_strlit("DropTypeStatementSegment");
    assert("HavingClauseTerminatorGrammar"@.len() != "DropTypeStatementSegment"@.len());
    reveal_strlit("FunctionParameterListGrammar");
    assert("HavingClauseTerminatorGrammar"@.len() != "FunctionParameterListGrammar"@.len());
    reveal_strlit("InsertStatementSegment");
    assert("HavingClauseTerminatorGrammar"@.len() != "InsertStatementSegment"@.len());
    reveal_strlit("SetSchemaStatementSegment");
    assert("HavingClauseTerminatorGrammar"@.len() != "SetSchemaStatementSegment"@.len());
    reveal_strlit("TransactionStatementSegment");
    assert("HavingClauseTerminatorGrammar"@.len() != "TransactionStatementSegment"@.len());
    reveal_strlit("UpdateStatementSegment");
    assert("HavingClauseTerminatorGrammar"@.len() != "UpdateStatementSegment"@.len());
}

proof fn lemma_part_8_keeps_having_clause_terminator_grammar(m: Map<Seq<char>, ElementView>)
    requires
        m.dom().contains("HavingClauseTerminatorGrammar"@),
    ensures
        ansi_library_part_8(m).dom().contains("HavingClauseTerminatorGrammar"@),
        ansi_library_part_8(m)["HavingClauseTerminatorGrammar"@] == m["HavingClauseTerminatorGrammar"@],
{
    reveal_strlit("HavingClauseTerminatorGrammar");
    reveal_strlit("AggregateOrderByClause");
    assert("HavingClauseTerminatorGrammar"@.len() != "AggregateOrderByClause"@.len());
    reveal_strlit("ArrayExpressionSegment");
    assert("HavingClauseTerminatorGrammar"@.len() != "ArrayExpressionSegment"@.len());
    reveal_strlit("BitwiseAndSegment");
    assert("HavingClauseTerminatorGrammar"@.len() != "BitwiseAndSegment"@.len());
    reveal_strlit("BitwiseLShiftSegment");
    assert("HavingClauseTerminatorGrammar"@.len() != "BitwiseLShiftSegment"@.len());
    reveal_strlit("BitwiseOrSegment");
    assert("HavingClauseTerminatorGrammar"@.len() != "BitwiseOrSegment"@.len());
    reveal_strlit("BitwiseRShiftSegment");
    assert("HavingClauseTerminatorGrammar"@.len() != "BitwiseRShiftSegment"@.len());
    reveal_strlit("ConcatSegment");
    assert("HavingClauseTerminatorGrammar"@.len() != "ConcatSegment"@.len());
    reveal_strlit("CreateUserStatementSegment");
    assert("HavingClauseTerminatorGrammar"@.len() != "CreateUserStatementSegment"@.len());
    reveal_strlit("DropTableStatementSegment");
    assert("HavingClauseTerminatorGrammar"@.len() != "DropTableStatementSegment"@.len());
    reveal_strlit("DropUserStatementSegment");
    assert("HavingClauseTerminatorGrammar"@.len() != "DropUserStatementSegment"@.len());
    reveal_strlit("DropViewStatementSegment");
    assert("HavingClauseTerminatorGrammar"@.len() != "DropViewStatementSegment"@.len());
    reveal_strlit("ElseClauseSegment");
    assert("HavingClauseTerminatorGrammar"@.len() != "ElseClauseSegment"@.len());
    reveal_strlit("EqualsSegment");
    assert("HavingClauseTerminatorGrammar"@.len() != "EqualsSegment"@.len());
    reveal_strlit("FunctionNameSegment");
    assert("HavingClauseTerminatorGrammar"@.len() != "FunctionNameSegment"@.len());
    reveal_strlit("GreaterThanOrEqualToSegment");
    assert("HavingClauseTerminatorGrammar"@.len() != "GreaterThanOrEqualToSegment"@.len());
    reveal_strlit("GreaterThanSegment");
    assert("HavingClauseTerminatorGrammar"@.len() != "GreaterThanSegment"@.len());
    reveal_strlit("IndexColumnDefinitionSegment");
    assert("HavingClauseTerminatorGrammar"@.len() != "IndexColumnDefinitionSegment"@.len());
    reveal_strlit("LessThanOrEqualToSegment");
    assert("HavingClauseTerminatorGrammar"@.len() != "LessThanOrEqualToSegment"@.len());
    reveal_strlit("LessThanSegment");
    assert("HavingClauseTerminatorGrammar"@.len() != "LessThanSegment"@.len());
    reveal_strlit("LocalAliasSegment");
    assert("HavingClauseTerminatorGrammar"@.len() != "LocalAliasSegment"@.len());
    reveal_strlit("MergeStatementSegment");
    assert("HavingClauseTerminatorGrammar"@.len() != "MergeStatementSegment"@.len());
    reveal_strlit("NotEqualToSegment");
    assert("HavingClauseTerminatorGrammar"@.len() != "NotEqualToSegment"@.len());
    reveal_strlit("QualifiedNumericLiteralSegment");
    assert("HavingClauseTerminatorGrammar"@.len() != "QualifiedNumericLiteralSegment"@.len());
    reveal_strlit("WhenClauseSegment");
    assert("HavingClauseTerminatorGrammar"@.len() != "WhenClauseSegment"@.len());
    reveal_strlit("WhereClauseSegment");
    assert("HavingClauseTerminatorGrammar"@.len() != "WhereClauseSegment"@.len());
}

proof fn lemma_part_9_keeps_having_clause_terminator_grammar(m: Map<Seq<char>, ElementView>)
    requires
        m.dom().contains("HavingClauseTerminatorGrammar"@),
    ensures
        ansi_library_part_9(m).dom().contains("HavingClauseTerminatorGrammar"@),
        ansi_library_part_9(m)["HavingClauseTerminatorGrammar"@] == m["HavingClauseTerminatorGrammar"@],
{
    reveal_strlit("HavingClauseTerminatorGrammar");
    reveal_strlit("AliasExpressionSegment");
    assert("HavingClauseTerminatorGrammar"@.len() != "AliasExpressionSegment"@.len());
    reveal_strlit("ArrayAccessorSegment");
    assert("HavingClauseTerminatorGrammar"@.len() != "ArrayAccessorSegment"@.len());
    reveal_strlit("ArrayLiteralSegment");
    assert("HavingClauseTerminatorGrammar"@.len() != "ArrayLiteralSegment"@.len());
    reveal_strlit("ArrayTypeSegment");
    assert("HavingClauseTerminatorGrammar"@.len() != "ArrayTypeSegment"@.len());
    reveal_strlit("BracketedArguments");
    assert("HavingClauseTerminatorGrammar"@.len() != "BracketedArguments"@.len());
    reveal_strlit("DatatypeSegment");
    assert("HavingClauseTerminatorGrammar"@.len() != "DatatypeSegment"@.len());
    reveal_strlit("EmptyStructLiteralSegment");
    assert("HavingClauseTerminatorGrammar"@.len() != "EmptyStructLiteralSegment"@.len());
    reveal_strlit("IntervalExpressionSegment");
    assert("HavingClauseTerminatorGrammar"@.len() != "IntervalExpressionSegment"@.len());
    reveal_strlit("ObjectLiteralElementSegment");
    assert("HavingClauseTerminatorGrammar"@.len() != "ObjectLiteralElementSegment"@.len());
    reveal_strlit("ObjectLiteralSegment");
    assert("HavingClauseTerminatorGrammar"@.len() != "ObjectLiteralSegment"@.len());
    reveal_strlit("OverlapsClauseSegment");
    assert("HavingClauseTerminatorGrammar"@.len() != "OverlapsClauseSegment"@.len());
    reveal_strlit("SelectClauseSegment");
    assert("HavingClauseTerminatorGrammar"@.len() != "SelectClauseSegment"@.len());
    reveal_strlit("SetOperatorSegment");
    assert("HavingClauseTerminatorGrammar"@.len() != "SetOperatorSegment"@.len());
    reveal_strlit("ShorthandCastSegment");
    assert("HavingClauseTerminatorGrammar"@.len() != "ShorthandCastSegment"@.len());
    reveal_strlit("SizedArrayTypeSegment");
    assert("HavingClauseTerminatorGrammar"@.len() != "SizedArrayTypeSegment"@.len());
    reveal_strlit("StatementSegment");
    assert("HavingClauseTerminatorGrammar"@.len() != "StatementSegment"@.len());
    reveal_strlit("StructLiteralSegment");
    assert("HavingClauseTerminatorGrammar"@.len() != "StructLiteralSegment"@.len());
    reveal_strlit("StructTypeSegment");
    assert("HavingClauseTerminatorGrammar"@.len() != "StructTypeSegment"@.len());
    reveal_strlit("TimeZoneGrammar");
    assert("HavingClauseTerminatorGrammar"@.len() != "TimeZoneGrammar"@.len());
    reveal_strlit("TypedArrayLiteralSegment");
    assert("HavingClauseTerminatorGrammar"@.len() != "TypedArrayLiteralSegment"@.len());
    reveal_strlit("TypedStructLiteralSegment");
    assert("HavingClauseTerminatorGrammar"@.len() != "TypedStructLiteralSegment"@.len());
    reveal_strlit("UnorderedSelectStatementSegment");
    assert("HavingClauseTerminatorGrammar"@.len() != "UnorderedSelectStatementSegment"@.len());
    reveal_strlit("ValuesClauseSegment");
    assert("HavingClauseTerminatorGrammar"@.len() != "ValuesClauseSegment"@.len());
    reveal_strlit("WithDataClauseSegment");
    assert("HavingClauseTerminatorGrammar"@.len() != "WithDataClauseSegment"@.len());
    reveal_strlit("WithNoSchemaBindingClauseSegment");
    assert("HavingClauseTerminatorGrammar"@.len() != "WithNoSchemaBindingClauseSegment"@.len());
}

proof fn lemma_part_10_keeps_having_clause_terminator_grammar(m: Map<Seq<char>, ElementView>)
    requires
        m.dom().contains("HavingClauseTerminatorGrammar"@),
    ensures
        ansi_library_part_10(m).dom().contains("HavingClauseTerminatorGrammar"@),
        ansi_library_part_10(m)["HavingClauseTerminatorGrammar"@] == m["HavingClauseTerminatorGrammar"@],
{
    reveal_strlit("HavingClauseTerminatorGrammar");
    reveal_strlit("AccessStatementSegmentGrantRoleWithOptionGrammar");
    assert("HavingClauseTerminatorGrammar"@.len() != "AccessStatementSegmentGrantRoleWithOptionGrammar"@.len());
    reveal_strlit("AliasedTableReferenceGrammar");
    assert("HavingClauseTerminatorGrammar"@.len() != "AliasedTableReferenceGrammar"@.len());
    reveal_strlit("CharCharacterSetGrammar");
    assert("HavingClauseTerminatorGrammar"@.len() != "CharCharacterSetGrammar"@.len());
    reveal_strlit("CreateSchemaStatementSegment");
    assert("HavingClauseTerminatorGrammar"@.len() != "CreateSchemaStatementSegment"@.len());
    reveal_strlit("DatePartFunctionNameSegment");
    assert("HavingClauseTerminatorGrammar"@.len() != "DatePartFunctionNameSegment"@.len());
    reveal_strlit("EmptyStructLiteralBracketsSegment");
    assert("HavingClauseTerminatorGrammar"@.len() != "EmptyStructLiteralBracketsSegment"@.len());
    reveal_strlit("Expression_A_Grammar");
    assert("HavingClauseTerminatorGrammar"@.len() != "Expression_A_Grammar"@.len());
    reveal_strlit("Expression_A_Unary_Operator_Grammar");
    assert("HavingClauseTerminatorGrammar"@.len() != "Expression_A_Unary_Operator_Grammar"@.len());
    reveal_strlit("Expression_B_Unary_Operator_Grammar");
    assert("HavingClauseTerminatorGrammar"@.len() != "Expression_B_Unary_Operator_Grammar"@.len());
    reveal_strlit("FromClauseSegment");
    assert("HavingClauseTerminatorGrammar"@.len() != "FromClauseSegment"@.len());
    reveal_strlit("FromExpressionSegment");
    assert("HavingClauseTerminatorGrammar"@.len() != "FromExpressionSegment"@.len());
    reveal_strlit("FunctionContentsExpressionGrammar");
    assert("HavingClauseTerminatorGrammar"@.len() != "FunctionContentsExpressionGrammar"@.len());
    reveal_strlit("FunctionContentsGrammar");
    assert("HavingClauseTerminatorGrammar"@.len() != "FunctionContentsGrammar"@.len());
    reveal_strlit("FunctionContentsSegment");
    assert("HavingClauseTerminatorGrammar"@.len() != "FunctionContentsSegment"@.len());
    reveal_strlit("JoinLikeClauseGrammar");
    assert("HavingClauseTerminatorGrammar"@.len() != "JoinLikeClauseGrammar"@.len());
    reveal_strlit("OrderByClauseSegment");
    assert("HavingClauseTerminatorGrammar"@.len() != "OrderByClauseSegment"@.len());
    reveal_strlit("PostFunctionGrammar");
    assert("HavingClauseTerminatorGrammar"@.len() != "PostFunctionGrammar"@.len());
    reveal_strlit("SelectClauseElementSegment");
    assert("HavingClauseTerminatorGrammar"@.len() != "SelectClauseElementSegment"@.len());
    reveal_strlit("SelectClauseModifierSegment");
    assert("HavingClauseTerminatorGrammar"@.len() != "SelectClauseModifierSegment"@.len());
    reveal_strlit("SelectStatementSegment");
    assert("HavingClauseTerminatorGrammar"@.len() != "SelectStatementSegment"@.len());
    reveal_strlit("SetExpressionSegment");
    assert("HavingClauseTerminatorGrammar"@.len() != "SetExpressionSegment"@.len());
    reveal_strlit("Tail_Recurse_Expression_A_Grammar");
    assert("HavingClauseTerminatorGrammar"@.len() != "Tail_Recurse_Expression_A_Grammar"@.len());
    reveal_strlit("Tail_Recurse_Expression_B_Grammar");
    assert("HavingClauseTerminatorGrammar"@.len() != "Tail_Recurse_Expression_B_Grammar"@.len());
    reveal_strlit("TruncateStatementSegment");
    assert("HavingClauseTerminatorGrammar"@.len() != "TruncateStatementSegment"@.len());
    reveal_strlit("WildcardExpressionSegment");
    assert("HavingClauseTerminatorGrammar"@.len() != "WildcardExpressionSegment"@.len());
}

proof fn lemma_part_11_keeps_having_clause_terminator_grammar(m: Map<Seq<char>, ElementView>)
    requires
        m.dom().contains("HavingClauseTerminatorGrammar"@),
    ensures
        ansi_library_part_11(m).dom().contains("HavingClauseTerminatorGrammar"@),
        ansi_library_part_11(m)["HavingClauseTerminatorGrammar"@] == m["HavingClauseTerminatorGrammar"@],
{
    reveal_strlit("HavingClauseTerminatorGrammar");
    reveal_strlit("AccessorGrammar");
    assert("HavingClauseTerminatorGrammar"@.len() != "AccessorGrammar"@.len());
    reveal_strlit("Expression_B_Grammar");
    assert("HavingClauseTerminatorGrammar"@.len() != "Expression_B_Grammar"@.len());
    reveal_strlit("Expression_C_Grammar");
    assert("HavingClauseTerminatorGrammar"@.len() != "Expression_C_Grammar"@.len());
    reveal_strlit("Expression_D_Grammar");
    assert("HavingClauseTerminatorGrammar"@.len() != "Expression_D_Grammar"@.len());
    reveal_strlit("NonSetSelectableGrammar");
    assert("HavingClauseTerminatorGrammar"@.len() != "NonSetSelectableGrammar"@.len());
    reveal_strlit("NonWithNonSelectableGrammar");
    assert("HavingClauseTerminatorGrammar"@.len() != "NonWithNonSelectableGrammar"@.len());
    reveal_strlit("NonWithSelectableGrammar");
    assert("HavingClauseTerminatorGrammar"@.len() != "NonWithSelectableGrammar"@.len());
    reveal_strlit("PostTableExpressionGrammar");
    assert("HavingClauseTerminatorGrammar"@.len() != "PostTableExpressionGrammar"@.len());
    reveal_strlit("SelectableGrammar");
    assert("HavingClauseTerminatorGrammar"@.len() != "SelectableGrammar"@.len());
    reveal_strlit("TimeWithTZGrammar");
    assert("HavingClauseTerminatorGrammar"@.len() != "TimeWithTZGrammar"@.len());
}

/// The ANSI library holds `HavingClauseTerminatorGrammar`: the value of its last entry of that name.
pub proof fn lemma_ansi_library_having_clause_terminator_grammar(lib: Map<Seq<char>, ElementView>)
    ensures
        ansi_library(lib).dom().contains("HavingClauseTerminatorGrammar"@),
        ansi_library(lib)["HavingClauseTerminatorGrammar"@] == having_clause_terminator_grammar_element(),
{
    reveal(ansi_library);
    let m0 = lib;
    let m1 = ansi_library_part_0(m0);
    let m2 = ansi_library_part_1(m1);
    let m3 = ansi_library_part_2(m2);
    let m4 = ansi_library_part_3(m3);
    let m5 = ansi_library_part_4(m4);
    let m6 = ansi_library_part_5(m5);
    let m7 = ansi_library_part_6(m6);
    let m8 = ansi_library_part_7(m7);
    let m9 = ansi_library_part_8(m8);
    let m10 = ansi_library_part_9(m9);
    let m11 = ansi_library_part_10(m10);
    let m12 = ansi_library_part_11(m11);
    lemma_part_3_sets_having_clause_terminator_grammar(m3);
    lemma_part_4_keeps_having_clause_terminator_grammar(m4);
    lemma_part_5_keeps_having_clause_terminator_grammar(m5);
    lemma_part_6_keeps_having_clause_terminator_grammar(m6);
    lemma_part_7_keeps_having_clause_terminator_grammar(m7);
    lemma_part_8_keeps_having_clause_terminator_grammar(m8);
    lemma_part_9_keeps_having_clause_terminator_grammar(m9);
    lemma_part_10_keeps_having_clause_terminator_grammar(m10);
    lemma_part_11_keeps_having_clause_terminator_grammar(m11);
}

proof fn lemma_part_3_sets_order_by_clause_terminators(m: Map<Seq<char>, ElementView>)
    ensures
        ansi_library_part_3(m).dom().contains("OrderByClauseTerminators"@),
        ansi_library_part_3(m)["OrderByClauseTerminators"@] == order_by_clause_terminators_element(),
{
    reveal_strlit("OrderByClauseTerminators");
    reveal_strlit("AutoIncrementGrammar");
    assert("OrderByClauseTerminators"@.len() != "AutoIncrementGrammar"@.len());
    reveal_strlit("BaseExpressionElementGrammar");
    assert("OrderByClauseTerminators"@.len() != "BaseExpressionElementGrammar"@.len());
    reveal_strlit("DropBehaviorGrammar");
    assert("OrderByClauseTerminators"@.len() != "DropBehaviorGrammar"@.len());
    reveal_strlit("ExtendedNaturalJoinKeywordsGrammar");
    assert("OrderByClauseTerminators"@.len() != "ExtendedNaturalJoinKeywordsGrammar"@.len());
    reveal_strlit("FilterClauseGrammar");
    assert("OrderByClauseTerminators"@.len() != "FilterClauseGrammar"@.len());
    reveal_strlit("ForeignKeyGrammar");
    assert("OrderByClauseTerminators"@.len() != "ForeignKeyGrammar"@.len());
    reveal_strlit("FrameClauseUnitGrammar");
    assert("OrderByClauseTerminators"@.len() != "FrameClauseUnitGrammar"@.len());
    reveal_strlit("FunctionParameterGrammar");
    assert("OrderByClauseTerminators"@[0] != "FunctionParameterGrammar"@[0]);
    reveal_strlit("IgnoreRespectNullsGrammar");
    assert("OrderByClauseTerminators"@.len() != "IgnoreRespectNullsGrammar"@.len());
    reveal_strlit("JoinKeywordsGrammar");
    assert("OrderByClauseTerminators"@.len() != "JoinKeywordsGrammar"@.len());
    reveal_strlit("JoinTypeKeywordsGrammar");
    assert("OrderByClauseTerminators"@.len() != "JoinTypeKeywordsGrammar"@.len());
    reveal_strlit("NaturalJoinKeywordsGrammar");
    assert("OrderByClauseTerminators"@.len() != "NaturalJoinKeywordsGrammar"@.len());
    reveal_strlit("NestedJoinGrammar");
    assert("OrderByClauseTerminators"@.len() != "NestedJoinGrammar"@.len());
    reveal_strlit("PrimaryKeyGrammar");
    assert("OrderByClauseTerminators"@.len() != "PrimaryKeyGrammar"@.len());
    reveal_strlit("ReferentialActionGrammar");
    assert("OrderByClauseTerminators"@[0] != "ReferentialActionGrammar"@[0]);
    reveal_strlit("UniqueKeyGrammar");
    assert("OrderByClauseTerminators"@.len() != "UniqueKeyGrammar"@.len());
}

proof fn lemma_part_4_keeps_order_by_clause_terminators(m: Map<Seq<char>, ElementView>)
    requires
        m.dom().contains("OrderByClauseTerminators"@),
    ensures
        ansi_library_part_4(m).dom().contains("OrderByClauseTerminators"@),
        ansi_library_part_4(m)["OrderByClauseTerminators"@] == m["OrderByClauseTerminators"@],
{
    reveal_strlit("OrderByClauseTerminators");
    reveal_strlit("AlterTableDropColumnGrammar");
    assert("OrderByClauseTerminators"@.len() != "AlterTableDropColumnGrammar"@.len());
    reveal_strlit("AlterTableOptionsGrammar");
    assert("OrderByClauseTerminators"@[0] != "AlterTableOptionsGrammar"@[0]);
    reveal_strlit("ColumnConstraintDefaultGrammar");
    assert("OrderByClauseTerminators"@.len() != "ColumnConstraintDefaultGrammar"@.len());
    reveal_strlit("ColumnReferenceSegment");
    assert("OrderByClauseTerminators"@.len() != "ColumnReferenceSegment"@.len());
    reveal_strlit("CubeFunctionNameSegment");
    assert("OrderByClauseTerminators"@.len() != "CubeFunctionNameSegment"@.len());
    reveal_strlit("CubeRollupClauseSegment");
    assert("OrderByClauseTerminators"@.len() != "CubeRollupClauseSegment"@.len());
    reveal_strlit("DateTimeFunctionContentsSegment");
    assert("OrderByClauseTerminators"@.len() != "DateTimeFunctionContentsSegment"@.len());
    reveal_strlit("DefaultValuesGrammar");
    assert("OrderByClauseTerminators"@.len() != "DefaultValuesGrammar"@.len());
    reveal_strlit("ExpressionSegment");
    assert("OrderByClauseTerminators"@.len() != "ExpressionSegment"@.len());
    reveal_strlit("FetchClauseSegment");
    assert("OrderByClauseTerminators"@.len() != "FetchClauseSegment"@.len());
    reveal_strlit("FileSegment");
    assert("OrderByClauseTerminators"@.len() != "FileSegment"@.len());
    reveal_strlit("FunctionSegment");
    assert("OrderByClauseTerminators"@.len() != "FunctionSegment"@.len());
    reveal_strlit("GroupingExpressionList");
    assert("OrderByClauseTerminators"@.len() != "GroupingExpressionList"@.len());
    reveal_strlit("GroupingSetsClauseSegment");
    assert("OrderByClauseTerminators"@.len() != "GroupingSetsClauseSegment"@.len());
    reveal_strlit("HavingClauseSegment");
    assert("OrderByClauseTerminators"@.len() != "HavingClauseSegment"@.len());
    reveal_strlit("LimitClauseSegment");
    assert("OrderByClauseTerminators"@.len() != "LimitClauseSegment"@.len());
    reveal_strlit("NamedWindowExpressionSegment");
    assert("OrderByClauseTerminators"@.len() != "NamedWindowExpressionSegment"@.len());
    reveal_strlit("ObjectReferenceDelimiterGrammar");
    assert("OrderByClauseTerminators"@.len() != "ObjectReferenceDelimiterGrammar"@.len());
    reveal_strlit("ObjectReferenceTerminatorGrammar");
    assert("OrderByClauseTerminators"@.len() != "ObjectReferenceTerminatorGrammar"@.len());
    reveal_strlit("PathSegment");
    assert("OrderByClauseTerminators"@.len() != "PathSegment"@.len());
    reveal_strlit("ReferenceDefinitionGrammar");
    assert("OrderByClauseTerminators"@.len() != "ReferenceDefinitionGrammar"@.len());
    reveal_strlit("RollupFunctionNameSegment");
    assert("OrderByClauseTerminators"@.len() != "RollupFunctionNameSegment"@.len());
    reveal_strlit("SetClauseSegment");
    assert("OrderByClauseTerminators"@.len() != "SetClauseSegment"@.len());
    reveal_strlit("TrimParametersGrammar");
    assert("OrderByClauseTerminators"@.len() != "TrimParametersGrammar"@.len());
    reveal_strlit("WildcardIdentifierSegment");
    assert("OrderByClauseTerminators"@.len() != "WildcardIdentifierSegment"@.len());
}

proof fn lemma_part_5_keeps_order_by_clause_terminators(m: Map<Seq<char>, ElementView>)
    requires
        m.dom().contains("OrderByClauseTerminators"@),
    ensures
        ansi_library_part_5(m).dom().contains("OrderByClauseTerminators"@),
        ansi_library_part_5(m)["OrderByClauseTerminators"@] == m["OrderByClauseTerminators"@],
{
    reveal_strlit("OrderByClauseTerminators");
    reveal_strlit("AlterSequenceOptionsSegment");
    assert("OrderByClauseTerminators"@.len() != "AlterSequenceOptionsSegment"@.len());
    reveal_strlit("CTEColumnList");
    assert("OrderByClauseTerminators"@.len() != "CTEColumnList"@.len());
    reveal_strlit("CTEDefinitionSegment");
    assert("OrderByClauseTerminators"@.len() != "CTEDefinitionSegment"@.len());
    reveal_strlit("ColumnConstraintSegment");
    assert("OrderByClauseTerminators"@.len() != "ColumnConstraintSegment"@.len());
    reveal_strlit("ColumnDefinitionSegment");
    assert("OrderByClauseTerminators"@.len() != "ColumnDefinitionSegment"@.len());
    reveal_strlit("CommentClauseSegment");
    assert("OrderByClauseTerminators"@.len() != "CommentClauseSegment"@.len());
    reveal_strlit("ExtensionReferenceSegment");
    assert("OrderByClauseTerminators"@.len() != "ExtensionReferenceSegment"@.len());
    reveal_strlit("FrameClauseSegment");
    assert("OrderByClauseTerminators"@.len() != "FrameClauseSegment"@.len());
    reveal_strlit("FunctionDefinitionGrammar");
    assert("OrderByClauseTerminators"@.len() != "FunctionDefinitionGrammar"@.len());
    reveal_strlit("GroupByClauseSegment");
    assert("OrderByClauseTerminators"@.len() != "GroupByClauseSegment"@.len());
    reveal_strlit("MergeDeleteClauseSegment");
    assert("OrderByClauseTerminators"@[0] != "MergeDeleteClauseSegment"@[0]);
    reveal_strlit("MergeInsertClauseSegment");
    assert("OrderByClauseTerminators"@[0] != "MergeInsertClauseSegment"@[0]);
    reveal_strlit("MergeMatchSegment");
    assert("OrderByClauseTerminators"@.len() != "MergeMatchSegment"@.len());
    reveal_strlit("MergeMatchedClauseSegment");
    assert("OrderByClauseTerminators"@.len() != "MergeMatchedClauseSegment"@.len());
    reveal_strlit("MergeNotMatchedClauseSegment");
    assert("OrderByClauseTerminators"@.len() != "MergeNotMatchedClauseSegment"@.len());
    reveal_strlit("MergeUpdateClauseSegment");
    assert("OrderByClauseTerminators"@[0] != "MergeUpdateClauseSegment"@[0]);
    reveal_strlit("RoleReferenceSegment");
    assert("OrderByClauseTerminators"@.len() != "RoleReferenceSegment"@.len());
    reveal_strlit("SchemaReferenceSegment");
    assert("OrderByClauseTerminators"@.len() != "SchemaReferenceSegment"@.len());
    reveal_strlit("SetClauseListSegment");
    assert("OrderByClauseTerminators"@.len() != "SetClauseListSegment"@.len());
    reveal_strlit("SingleIdentifierListSegment");
    assert("OrderByClauseTerminators"@.len() != "SingleIdentifierListSegment"@.len());
    reveal_strlit("TableEndClauseSegment");
    assert("OrderByClauseTerminators"@.len() != "TableEndClauseSegment"@.len());
    reveal_strlit("TablespaceReferenceSegment");
    assert("OrderByClauseTerminators"@.len() != "TablespaceReferenceSegment"@.len());
    reveal_strlit("TagReferenceSegment");
    assert("OrderByClauseTerminators"@.len() != "TagReferenceSegment"@.len());
    reveal_strlit("WithCompoundNonSelectStatementSegment");
    assert("OrderByClauseTerminators"@.len() != "WithCompoundNonSelectStatementSegment"@.len());
    reveal_strlit("WithCompoundStatementSegment");
    assert("OrderByClauseTerminators"@.len() != "WithCompoundStatementSegment"@.len());
}

proof fn lemma_part_6_keeps_order_by_clause_terminators(m: Map<Seq<char>, ElementView>)
    requires
        m.dom().contains("OrderByClauseTerminators"@),
    ensures
        ansi_library_part_6(m).dom().contains("OrderByClauseTerminators"@),
        ansi_library_part_6(m)["OrderByClauseTerminators"@] == m["OrderByClauseTerminators"@],
{
    reveal_strlit("OrderByClauseTerminators");
    reveal_strlit("CollationReferenceSegment");
    assert("OrderByClauseTerminators"@.len() != "CollationReferenceSegment"@.len());
    reveal_strlit("CreateSequenceOptionsSegment");
    assert("OrderByClauseTerminators"@.len() != "CreateSequenceOptionsSegment"@.len());
    reveal_strlit("CreateSequenceStatementSegment");
    assert("OrderByClauseTerminators"@.len() != "CreateSequenceStatementSegment"@.len());
    reveal_strlit("CreateTriggerStatementSegment");
    assert("OrderByClauseTerminators"@.len() != "CreateTriggerStatementSegment"@.len());
    reveal_strlit("DatabaseReferenceSegment");
    assert("OrderByClauseTerminators"@[0] != "DatabaseReferenceSegment"@[0]);
    reveal_strlit("DescribeStatementSegment");
    assert("OrderByClauseTerminators"@[0] != "DescribeStatementSegment"@[0]);
    reveal_strlit("DropModelStatementSegment");
    assert("OrderByClauseTerminators"@.len() != "DropModelStatementSegment"@.len());
    reveal_strlit("DropTriggerStatementSegment");
    assert("OrderByClauseTerminators"@.len() != "DropTriggerStatementSegment"@.len());
    reveal_strlit("ExplainStatementSegment");
    assert("OrderByClauseTerminators"@.len() != "ExplainStatementSegment"@.len());
    reveal_strlit("IndexReferenceSegment");
    assert("OrderByClauseTerminators"@.len() != "IndexReferenceSegment"@.len());
    reveal_strlit("JoinClauseSegment");
    assert("OrderByClauseTerminators"@.len() != "JoinClauseSegment"@.len());
    reveal_strlit("JoinOnConditionSegment");
    assert("OrderByClauseTerminators"@.len() != "JoinOnConditionSegment"@.len());
    reveal_strlit("NamedWindowSegment");
    assert("OrderByClauseTerminators"@.len() != "NamedWindowSegment"@.len());
    reveal_strlit("OverClauseSegment");
    assert("OrderByClauseTerminators"@.len() != "OverClauseSegment"@.len());
    reveal_strlit("PartitionClauseSegment");
    assert("OrderByClauseTerminators"@.len() != "PartitionClauseSegment"@.len());
    reveal_strlit("SamplingExpressionSegment");
    assert("OrderByClauseTerminators"@.len() != "SamplingExpressionSegment"@.len());
    reveal_strlit("SequenceReferenceSegment");
    assert("OrderByClauseTerminators"@[0] != "SequenceReferenceSegment"@[0]);
    reveal_strlit("TableConstraintSegment");
    assert("OrderByClauseTerminators"@.len() != "TableConstraintSegment"@.len());
    reveal_strlit("TableExpressionSegment");
    assert("OrderByClauseTerminators"@.len() != "TableExpressionSegment"@.len());
    reveal_strlit("TriggerReferenceSegment");
    assert("OrderByClauseTerminators"@.len() != "TriggerReferenceSegment"@.len());
    reveal_strlit("UseStatementSegment");
    assert("OrderByClauseTerminators"@.len() != "UseStatementSegment"@.len());
    reveal_strlit("WindowSpecificationSegment");
    assert("OrderByClauseTerminators"@.len() != "WindowSpecificationSegment"@.len());
}

proof fn lemma_part_7_keeps_order_by_clause_terminators(m: Map<Seq<char>, ElementView>)
    requires
        m.dom().contains("OrderByClauseTerminators"@),
    ensures
        ansi_library_part_7(m).dom().contains("OrderByClauseTerminators"@),
        ansi_library_part_7(m)["OrderByClauseTerminators"@] == m["OrderByClauseTerminators"@],
{
    reveal_strlit("OrderByClauseTerminators");
    reveal_strlit("AccessStatementSegment");
    assert("OrderByClauseTerminators"@.len() != "AccessStatementSegment"@.len());
    reveal_strlit("AlterSequenceStatementSegment");
    assert("OrderByClauseTerminators"@.len() != "AlterSequenceStatementSegment"@.len());
    reveal_strlit("AlterTableStatementSegment");
    assert("OrderByClauseTerminators"@.len() != "AlterTableStatementSegment"@.len());
    reveal_strlit("CreateCastStatementSegment");
    assert("OrderByClauseTerminators"@.len() != "CreateCastStatementSegment"@.len());
    reveal_strlit("CreateDatabaseStatementSegment");
    assert("OrderByClauseTerminators"@.len() != "CreateDatabaseStatementSegment"@.len());
    reveal_strlit("CreateFunctionStatementSegment");
    assert("OrderByClauseTerminators"@.len() != "CreateFunctionStatementSegment"@.len());
    reveal_strlit("CreateIndexStatementSegment");
    assert("OrderByClauseTerminators"@.len() != "CreateIndexStatementSegment"@.len());
    reveal_strlit("CreateModelStatementSegment");
    assert("OrderByClauseTerminators"@.len() != "CreateModelStatementSegment"@.len());
    reveal_strlit("CreateRoleStatementSegment");
    assert("OrderByClauseTerminators"@.len() != "CreateRoleStatementSegment"@.len());
    reveal_strlit("CreateTableStatementSegment");
    assert("OrderByClauseTerminators"@.len() != "CreateTableStatementSegment"@.len());
    reveal_strlit("CreateViewStatementSegment");
    assert("OrderByClauseTerminators"@.len() != "CreateViewStatementSegment"@.len());
    reveal_strlit("DeleteStatementSegment");
    assert("OrderByClauseTerminators"@.len() != "DeleteStatementSegment"@.len());
    reveal_strlit("DropCastStatementSegment");
    assert("OrderByClauseTerminators"@[0] != "DropCastStatementSegment"@[0]);
    reveal_strlit("DropDatabaseStatementSegment");
    assert("OrderByClauseTerminators"@.len() != "DropDatabaseStatementSegment"@.len());
    reveal_strlit("DropFunctionStatementSegment");
    assert("OrderByClauseTerminators"@.len() != "DropFunctionStatementSegment"@.len());
    reveal_strlit("DropIndexStatementSegment");
    assert("OrderByClauseTerminators"@.len() != "DropIndexStatementSegment"@.len());
    reveal_strlit("DropRoleStatementSegment");
    assert("OrderByClauseTerminators"@[0] != "DropRoleStatementSegment"@[0]);
    reveal_strlit("DropSchemaStatementSegment");
    assert("OrderByClauseTerminators"@.len() != "DropSchemaStatementSegment"@.len());
    reveal_strlit("DropSequenceStatementSegment");
    assert("OrderByClauseTerminators"@.len() != "DropSequenceStatementSegment"@.len());
    reveal_strlit("DropTypeStatementSegment");
    assert("OrderByClauseTerminators"@[0] != "DropTypeStatementSegment"@[0]);
    reveal_strlit("FunctionParameterListGrammar");
    assert("OrderByClauseTerminators"@.len() != "FunctionParameterListGrammar"@.len());
    reveal_strlit("InsertStatementSegment");
    assert("OrderByClauseTerminators"@.len() != "InsertStatementSegment"@.len());
    reveal_strlit("SetSchemaStatementSegment");
    assert("OrderByClauseTerminators"@.len() != "SetSchemaStatementSegment"@.len());
    reveal_strlit("TransactionStatementSegment");
    assert("OrderByClauseTerminators"@.len() != "TransactionStatementSegment"@.len());
    reveal_strlit("UpdateStatementSegment");
    assert("OrderByClauseTerminators"@.len() != "UpdateStatementSegment"@.len());
}

proof fn lemma_part_8_keeps_order_by_clause_terminators(m: Map<Seq<char>, ElementView>)
    requires
        m.dom().contains("OrderByClauseTerminators"@),
    ensures
        ansi_library_part_8(m).dom().contains("OrderByClauseTerminators"@),
        ansi_library_part_8(m)["OrderByClauseTerminators"@] == m["OrderByClauseTerminators"@],
{
    reveal_strlit("OrderByClauseTerminators");
    reveal_strlit("AggregateOrderByClause");
    assert("OrderByClauseTerminators"@.len() != "AggregateOrderByClause"@.len());
    reveal_strlit("ArrayExpressionSegment");
    assert("OrderByClauseTerminators"@.len() != "ArrayExpressionSegment"@.len());
    reveal_strlit("BitwiseAndSegment");
    assert("OrderByClauseTerminators"@.len() != "BitwiseAndSegment"@.len());
    reveal_strlit("BitwiseLShiftSegment");
    assert("OrderByClauseTerminators"@.len() != "BitwiseLShiftSegment"@.len());
    reveal_strlit("BitwiseOrSegment");
    assert("OrderByClauseTerminators"@.len() != "BitwiseOrSegment"@.len());
    reveal_strlit("BitwiseRShiftSegment");
    assert("OrderByClauseTerminators"@.len() != "BitwiseRShiftSegment"@.len());
    reveal_strlit("ConcatSegment");
    assert("OrderByClauseTerminators"@.len() != "ConcatSegment"@.len());
    reveal_strlit("CreateUserStatementSegment");
    assert("OrderByClauseTerminators"@.len() != "CreateUserStatementSegment"@.len());
    reveal_strlit("DropTableStatementSegment");
    assert("OrderByClauseTerminators"@.len() != "DropTableStatementSegment"@.len());
    reveal_strlit("DropUserStatementSegment");
    assert("OrderByClauseTerminators"@[0] != "DropUserStatementSegment"@[0]);
    reveal_strlit("DropViewStatementSegment");
    assert("OrderByClauseTerminators"@[0] != "DropViewStatementSegment"@[0]);
    reveal_strlit("ElseClauseSegment");
    assert("OrderByClauseTerminators"@.len() != "ElseClauseSegment"@.len());
    reveal_strlit("EqualsSegment");
    assert("OrderByClauseTerminators"@.len() != "EqualsSegment"@.len());
    reveal_strlit("FunctionNameSegment");
    assert("OrderByClauseTerminators"@.len() != "FunctionNameSegment"@.len());
    reveal_strlit("GreaterThanOrEqualToSegment");
    assert("OrderByClauseTerminators"@.len() != "GreaterThanOrEqualToSegment"@.len());
    reveal_strlit("GreaterThanSegment");
    assert("OrderByClauseTerminators"@.len() != "GreaterThanSegment"@.len());
    reveal_strlit("IndexColumnDefinitionSegment");
    assert("OrderByClauseTerminators"@.len() != "IndexColumnDefinitionSegment"@.len());
    reveal_strlit("LessThanOrEqualToSegment");
    assert("OrderByClauseTerminators"@[0] != "LessThanOrEqualToSegment"@[0]);
    reveal_strlit("LessThanSegment");
    assert("OrderByClauseTerminators"@.len() != "LessThanSegment"@.len());
    reveal_strlit("LocalAliasSegment");
    assert("OrderByClauseTerminators"@.len() != "LocalAliasSegment"@.len());
    reveal_strlit("MergeStatementSegment");
    assert("OrderByClauseTerminators"@.len() != "MergeStatementSegment"@.len());
    reveal_strlit("NotEqualToSegment");
    assert("OrderByClauseTerminators"@.len() != "NotEqualToSegment"@.len());
    reveal_strlit("QualifiedNumericLiteralSegment");
    assert("OrderByClauseTerminators"@.len() != "QualifiedNumericLiteralSegment"@.len());
    reveal_strlit("WhenClauseSegment");
    assert("OrderByClauseTerminators"@.len() != "WhenClauseSegment"@.len());
    reveal_strlit("WhereClauseSegment");
    assert("OrderByClauseTerminators"@.len() != "WhereClauseSegment"@.len());
}

proof fn lemma_part_9_keeps_order_by_clause_terminators(m: Map<Seq<char>, ElementView>)
    requires
        m.dom().contains("OrderByClauseTerminators"@),
    ensures
        ansi_library_part_9(m).dom().contains("OrderByClauseTerminators"@),
        ansi_library_part_9(m)["OrderByClauseTerminators"@] == m["OrderByClauseTerminators"@],
{
    reveal_strlit("OrderByClauseTerminators");
    reveal_strlit("AliasExpressionSegment");
    assert("OrderByClauseTerminators"@.len() != "AliasExpressionSegment"@.len());
    reveal_strlit("ArrayAccessorSegment");
    assert("OrderByClauseTerminators"@.len() != "ArrayAccessorSegment"@.len());
    reveal_strlit("ArrayLiteralSegment");
    assert("OrderByClauseTerminators"@.len() != "ArrayLiteralSegment"@.len());
    reveal_strlit("ArrayTypeSegment");
    assert("OrderByClauseTerminators"@.len() != "ArrayTypeSegment"@.len());
    reveal_strlit("BracketedArguments");
    assert("OrderByClauseTerminators"@.len() != "BracketedArguments"@.len());
    reveal_strlit("DatatypeSegment");
    assert("OrderByClauseTerminators"@.len() != "DatatypeSegment"@.len());
    reveal_strlit("EmptyStructLiteralSegment");
    assert("OrderByClauseTerminators"@.len() != "EmptyStructLiteralSegment"@.len());
    reveal_strlit("IntervalExpressionSegment");
    assert("OrderByClauseTerminators"@.len() != "IntervalExpressionSegment"@.len());
    reveal_strlit("ObjectLiteralElementSegment");
    assert("OrderByClauseTerminators"@.len() != "ObjectLiteralElementSegment"@.len());
    reveal_strlit("ObjectLiteralSegment");
    assert("OrderByClauseTerminators"@.len() != "ObjectLiteralSegment"@.len());
    reveal_strlit("OverlapsClauseSegment");
    assert("OrderByClauseTerminators"@.len() != "OverlapsClauseSegment"@.len());
    reveal_strlit("SelectClauseSegment");
    assert("OrderByClauseTerminators"@.len() != "SelectClauseSegment"@.len());
    reveal_strlit("SetOperatorSegment");
    assert("OrderByClauseTerminators"@.len() != "SetOperatorSegment"@.len());
    reveal_strlit("ShorthandCastSegment");
    assert("OrderByClauseTerminators"@.len() != "ShorthandCastSegment"@.len());
    reveal_strlit("SizedArrayTypeSegment");
    assert("OrderByClauseTerminators"@.len() != "SizedArrayTypeSegment"@.len());
    reveal_strlit("StatementSegment");
    assert("OrderByClauseTerminators"@.len() != "StatementSegment"@.len());
    reveal_strlit("StructLiteralSegment");
    assert("OrderByClauseTerminators"@.len() != "StructLiteralSegment"@.len());
    reveal_strlit("StructTypeSegment");
    assert("OrderByClauseTerminators"@.len() != "StructTypeSegment"@.len());
    reveal_strlit("TimeZoneGrammar");
    assert("OrderByClauseTerminators"@.len() != "TimeZoneGrammar"@.len());
    reveal_strlit("TypedArrayLiteralSegment");
    assert("OrderByClauseTerminators"@[0] != "TypedArrayLiteralSegment"@[0]);
    reveal_strlit("TypedStructLiteralSegment");
    assert("OrderByClauseTerminators"@.len() != "TypedStructLiteralSegment"@.len());
    reveal_strlit("UnorderedSelectStatementSegment");
    assert("OrderByClauseTerminators"@.len() != "UnorderedSelectStatementSegment"@.len());
    reveal_strlit("ValuesClauseSegment");
    assert("OrderByClauseTerminators"@.len() != "ValuesClauseSegment"@.len());
    reveal_strlit("WithDataClauseSegment");
    assert("OrderByClauseTerminators"@.len() != "WithDataClauseSegment"@.len());
    reveal_strlit("WithNoSchemaBindingClauseSegment");
    assert("OrderByClauseTerminators"@.len() != "WithNoSchemaBindingClauseSegment"@.len());
}

proof fn lemma_part_10_keeps_order_by_clause_terminators(m: Map<Seq<char>, ElementView>)
    requires
        m.dom().contains("OrderByClauseTerminators"@),
    ensures
        ansi_library_part_10(m).dom().contains("OrderByClauseTerminators"@),
        ansi_library_part_10(m)["OrderByClauseTerminators"@] == m["OrderByClauseTerminators"@],
{
    reveal_strlit("OrderByClauseTerminators");
    reveal_strlit("AccessStatementSegmentGrantRoleWithOptionGrammar");
    assert("OrderByClauseTerminators"@.len() != "AccessStatementSegmentGrantRoleWithOptionGrammar"@.len());
    reveal_strlit("AliasedTableReferenceGrammar");
    assert("OrderByClauseTerminators"@.len() != "AliasedTableReferenceGrammar"@.len());
    reveal_strlit("CharCharacterSetGrammar");
    assert("OrderByClauseTerminators"@.len() != "CharCharacterSetGrammar"@.len());
    reveal_strlit("CreateSchemaStatementSegment");
    assert("OrderByClauseTerminators"@.len() != "CreateSchemaStatementSegment"@.len());
    reveal_strlit("DatePartFunctionNameSegment");
    assert("OrderByClauseTerminators"@.len() != "DatePartFunctionNameSegment"@.len());
    reveal_strlit("EmptyStructLiteralBracketsSegment");
    assert("OrderByClauseTerminators"@.len() != "EmptyStructLiteralBracketsSegment"@.len());
    reveal_strlit("Expression_A_Grammar");
    assert("OrderByClauseTerminators"@.len() != "Expression_A_Grammar"@.len());
    reveal_strlit("Expression_A_Unary_Operator_Grammar");
    assert("OrderByClauseTerminators"@.len() != "Expression_A_Unary_Operator_Grammar"@.len());
    reveal_strlit("Expression_B_Unary_Operator_Grammar");
    assert("OrderByClauseTerminators"@.len() != "Expression_B_Unary_Operator_Grammar"@.len());
    reveal_strlit("FromClauseSegment");
    assert("OrderByClauseTerminators"@.len() != "FromClauseSegment"@.len());
    reveal_strlit("FromExpressionSegment");
    assert("OrderByClauseTerminators"@.len() != "FromExpressionSegment"@.len());
    reveal_strlit("FunctionContentsExpressionGrammar");
    assert("OrderByClauseTerminators"@.len() != "FunctionContentsExpressionGrammar"@.len());
    reveal_strlit("FunctionContentsGrammar");
    assert("OrderByClauseTerminators"@.len() != "FunctionContentsGrammar"@.len());
    reveal_strlit("FunctionContentsSegment");
    assert("OrderByClauseTerminators"@.len() != "FunctionContentsSegment"@.len());
    reveal_strlit("JoinLikeClauseGrammar");
    assert("OrderByClauseTerminators"@.len() != "JoinLikeClauseGrammar"@.len());
    reveal_strlit("OrderByClauseSegment");
    assert("OrderByClauseTerminators"@.len() != "OrderByClauseSegment"@.len());
    reveal_strlit("PostFunctionGrammar");
    assert("OrderByClauseTerminators"@.len() != "PostFunctionGrammar"@.len());
    reveal_strlit("SelectClauseElementSegment");
    assert("OrderByClauseTerminators"@.len() != "SelectClauseElementSegment"@.len());
    reveal_strlit("SelectClauseModifierSegment");
    assert("OrderByClauseTerminators"@.len() != "SelectClauseModifierSegment"@.len());
    reveal_strlit("SelectStatementSegment");
    assert("OrderByClauseTerminators"@.len() != "SelectStatementSegment"@.len());
    reveal_strlit("SetExpressionSegment");
    assert("OrderByClauseTerminators"@.len() != "SetExpressionSegment"@.len());
    reveal_strlit("Tail_Recurse_Expression_A_Grammar");
    assert("OrderByClauseTerminators"@.len() != "Tail_Recurse_Expression_A_Grammar"@.len());
    reveal_strlit("Tail_Recurse_Expression_B_Grammar");
    assert("OrderByClauseTerminators"@.len() != "Tail_Recurse_Expression_B_Grammar"@.len());
    reveal_strlit("TruncateStatementSegment");
    assert("OrderByClauseTerminators"@[0] != "TruncateStatementSegment"@[0]);
    reveal_strlit("WildcardExpressionSegment");
    assert("OrderByClauseTerminators"@.len() != "WildcardExpressionSegment"@.len());
}

proof fn lemma_part_11_keeps_order_by_clause_terminators(m: Map<Seq<char>, ElementView>)
    requires
        m.dom().contains("OrderByClauseTerminators"@),
    ensures
        ansi_library_part_11(m).dom().contains("OrderByClauseTerminators"@),
        ansi_library_part_11(m)["OrderByClauseTerminators"@] == m["OrderByClauseTerminators"@],
{
    reveal_strlit("OrderByClauseTerminators");
    reveal_strlit("AccessorGrammar");
    assert("OrderByClauseTerminators"@.len() != "AccessorGrammar"@.len());
    reveal_strlit("Expression_B_Grammar");
    assert("OrderByClauseTerminators"@.len() != "Expression_B_Grammar"@.len());
    reveal_strlit("Expression_C_Grammar");
    assert("OrderByClauseTerminators"@.len() != "Expression_C_Grammar"@.len());
    reveal_strlit("Expression_D_Grammar");
    assert("OrderByClauseTerminators"@.len() != "Expression_D_Grammar"@.len());
    reveal_strlit("NonSetSelectableGrammar");
    assert("OrderByClauseTerminators"@.len() != "NonSetSelectableGrammar"@.len());
    reveal_strlit("NonWithNonSelectableGrammar");
    assert("OrderByClauseTerminators"@.len() != "NonWithNonSelectableGrammar"@.len());
    reveal_strlit("NonWithSelectableGrammar");
    assert("OrderByClauseTerminators"@[0] != "NonWithSelectableGrammar"@[0]);
    reveal_strlit("PostTableExpressionGrammar");
    assert("OrderByClauseTerminators"@.len() != "PostTableExpressionGrammar"@.len());
    reveal_strlit("SelectableGrammar");
    assert("OrderByClauseTerminators"@.len() != "SelectableGrammar"@.len());
    reveal_strlit("TimeWithTZGrammar");
    assert("OrderByClauseTerminators"@.len() != "TimeWithTZGrammar"@.len());
}

/// The ANSI library holds `OrderByClauseTerminators`: the value of its last entry of that name.
pub proof fn lemma_ansi_library_order_by_clause_terminators(lib: Map<Seq<char>, ElementView>)
    ensures
        ansi_library(lib).dom().contains("OrderByClauseTerminators"@),
        ansi_library(lib)["OrderByClauseTerminators"@] == order_by_clause_terminators_element(),
{
    reveal(ansi_library);
    let m0 = lib;
    let m1 = ansi_library_part_0(m0);
    let m2 = ansi_library_part_1(m1);
    let m3 = ansi_library_part_2(m2);
    let m4 = ansi_library_part_3(m3);
    let m5 = ansi_library_part_4(m4);
    let m6 = ansi_library_part_5(m5);
    let m7 = ansi_library_part_6(m6);
    let m8 = ansi_library_part_7(m7);
    let m9 = ansi_library_part_8(m8);
    let m10 = ansi_library_part_9(m9);
    let m11 = ansi_library_part_10(m10);
    let m12 = ansi_library_part_11(m11);
    lemma_part_3_sets_order_by_clause_terminators(m3);
    lemma_part_4_keeps_order_by_clause_terminators(m4);
    lemma_part_5_keeps_order_by_clause_terminators(m5);
    lemma_part_6_keeps_order_by_clause_terminators(m6);
    lemma_part_7_keeps_order_by_clause_terminators(m7);
    lemma_part_8_keeps_order_by_clause_terminators(m8);
    lemma_part_9_keeps_order_by_clause_terminators(m9);
    lemma_part_10_keeps_order_by_clause_terminators(m10);
    lemma_part_11_keeps_order_by_clause_terminators(m11);
}

proof fn lemma_part_0_defines_statements(m: Map<Seq<char>, ElementView>)
    ensures
        ansi_library_part_0(m).dom().contains("DelimiterGrammar"@),
{
}

proof fn lemma_part_6_defines_statements(m: Map<Seq<char>, ElementView>)
    ensures
        ansi_library_part_6(m).dom().contains("DropModelStatementSegment"@),
        ansi_library_part_6(m).dom().contains("DescribeStatementSegment"@),
        ansi_library_part_6(m).dom().contains("UseStatementSegment"@),
        ansi_library_part_6(m).dom().contains("ExplainStatementSegment"@),
        ansi_library_part_6(m).dom().contains("CreateSequenceStatementSegment"@),
        ansi_library_part_6(m).dom().contains("CreateTriggerStatementSegment"@),
        ansi_library_part_6(m).dom().contains("DropTriggerStatementSegment"@),
{
}

proof fn lemma_part_7_defines_statements(m: Map<Seq<char>, ElementView>)
    ensures
        ansi_library_part_7(m).dom().contains("InsertStatementSegment"@),
        ansi_library_part_7(m).dom().contains("TransactionStatementSegment"@),
        ansi_library_part_7(m).dom().contains("AccessStatementSegment"@),
        ansi_library_part_7(m).dom().contains("CreateTableStatementSegment"@),
        ansi_library_part_7(m).dom().contains("CreateRoleStatementSegment"@),
        ansi_library_part_7(m).dom().contains("DropRoleStatementSegment"@),
        ansi_library_part_7(m).dom().contains("AlterTableStatementSegment"@),
        ansi_library_part_7(m).dom().contains("SetSchemaStatementSegment"@),
        ansi_library_part_7(m).dom().contains("DropSchemaStatementSegment"@),
        ansi_library_part_7(m).dom().contains("DropTypeStatementSegment"@),
        ansi_library_part_7(m).dom().contains("CreateDatabaseStatementSegment"@),
        ansi_library_part_7(m).dom().contains("DropDatabaseStatementSegment"@),
        ansi_library_part_7(m).dom().contains("CreateIndexStatementSegment"@),
        ansi_library_part_7(m).dom().contains("DropIndexStatementSegment"@),
        ansi_library_part_7(m).dom().contains("CreateViewStatementSegment"@),
        ansi_library_part_7(m).dom().contains("DeleteStatementSegment"@),
        ansi_library_part_7(m).dom().contains("UpdateStatementSegment"@),
        ansi_library_part_7(m).dom().contains("CreateCastStatementSegment"@),
        ansi_library_part_7(m).dom().contains("DropCastStatementSegment"@),
        ansi_library_part_7(m).dom().contains("CreateFunctionStatementSegment"@),
        ansi_library_part_7(m).dom().contains("DropFunctionStatementSegment"@),
        ansi_library_part_7(m).dom().contains("CreateModelStatementSegment"@),
        ansi_library_part_7(m).dom().contains("AlterSequenceStatementSegment"@),
        ansi_library_part_7(m).dom().contains("DropSequenceStatementSegment"@),
{
}

proof fn lemma_part_8_defines_statements(m: Map<Seq<char>, ElementView>)
    ensures
        ansi_library_part_8(m).dom().contains("MergeStatementSegment"@),
        ansi_library_part_8(m).dom().contains("DropTableStatementSegment"@),
        ansi_library_part_8(m).dom().contains("DropViewStatementSegment"@),
        ansi_library_part_8(m).dom().contains("CreateUserStatementSegment"@),
        ansi_library_part_8(m).dom().contains("DropUserStatementSegment"@),
{
}

proof fn lemma_part_10_defines_statements(m: Map<Seq<char>, ElementView>)
    ensures
        ansi_library_part_10(m).dom().contains("TruncateStatementSegment"@),
        ansi_library_part_10(m).dom().contains("CreateSchemaStatementSegment"@),
{
}

proof fn lemma_part_11_defines_statements(m: Map<Seq<char>, ElementView>)
    ensures
        ansi_library_part_11(m).dom().contains("SelectableGrammar"@),
{
}

/// The ANSI library defines every statement of the ANSI statement grammar,
/// and the delimiter that ends a statement.
pub proof fn lemma_ansi_library_defines_statements(lib: Map<Seq<char>, ElementView>)
    ensures
        ansi_library(lib).dom().contains("SelectableGrammar"@),
        ansi_library(lib).dom().contains("MergeStatementSegment"@),
        ansi_library(lib).dom().contains("InsertStatementSegment"@),
        ansi_library(lib).dom().contains("TransactionStatementSegment"@),
        ansi_library(lib).dom().contains("DropTableStatementSegment"@),
        ansi_library(lib).dom().contains("DropViewStatementSegment"@),
        ansi_library(lib).dom().contains("CreateUserStatementSegment"@),
        ansi_library(lib).dom().contains("DropUserStatementSegment"@),
        ansi_library(lib).dom().contains("TruncateStatementSegment"@),
        ansi_library(lib).dom().contains("AccessStatementSegment"@),
        ansi_library(lib).dom().contains("CreateTableStatementSegment"@),
        ansi_library(lib).dom().contains("CreateRoleStatementSegment"@),
        ansi_library(lib).dom().contains("DropRoleStatementSegment"@),
        ansi_library(lib).dom().contains("AlterTableStatementSegment"@),
        ansi_library(lib).dom().contains("CreateSchemaStatementSegment"@),
        ansi_library(lib).dom().contains("SetSchemaStatementSegment"@),
        ansi_library(lib).dom().contains("DropSchemaStatementSegment"@),
        ansi_library(lib).dom().contains("DropTypeStatementSegment"@),
        ansi_library(lib).dom().contains("CreateDatabaseStatementSegment"@),
        ansi_library(lib).dom().contains("DropDatabaseStatementSegment"@),
        ansi_library(lib).dom().contains("CreateIndexStatementSegment"@),
        ansi_library(lib).dom().contains("DropIndexStatementSegment"@),
        ansi_library(lib).dom().contains("CreateViewStatementSegment"@),
        ansi_library(lib).dom().contains("DeleteStatementSegment"@),
        ansi_library(lib).dom().contains("UpdateStatementSegment"@),
        ansi_library(lib).dom().contains("CreateCastStatementSegment"@),
        ansi_library(lib).dom().contains("DropCastStatementSegment"@),
        ansi_library(lib).dom().contains("CreateFunctionStatementSegment"@),
        ansi_library(lib).dom().contains("DropFunctionStatementSegment"@),
        ansi_library(lib).dom().contains("CreateModelStatementSegment"@),
        ansi_library(lib).dom().contains("DropModelStatementSegment"@),
        ansi_library(lib).dom().contains("DescribeStatementSegment"@),
        ansi_library(lib).dom().contains("UseStatementSegment"@),
        ansi_library(lib).dom().contains("ExplainStatementSegment"@),
        ansi_library(lib).dom().contains("CreateSequenceStatementSegment"@),
        ansi_library(lib).dom().contains("AlterSequenceStatementSegment"@),
        ansi_library(lib).dom().contains("DropSequenceStatementSegment"@),
        ansi_library(lib).dom().contains("CreateTriggerStatementSegment"@),
        ansi_library(lib).dom().contains("DropTriggerStatementSegment"@),
        ansi_library(lib).dom().contains("DelimiterGrammar"@),
{
    reveal(ansi_library);
    let m0 = lib;
    let m1 = ansi_library_part_0(m0);
    let m2 = ansi_library_part_1(m1);
    let m3 = ansi_library_part_2(m2);
    let m4 = ansi_library_part_3(m3);
    let m5 = ansi_library_part_4(m4);
    let m6 = ansi_library_part_5(m5);
    let m7 = ansi_library_part_6(m6);
    let m8 = ansi_library_part_7(m7);
    let m9 = ansi_library_part_8(m8);
    let m10 = ansi_library_part_9(m9);
    let m11 = ansi_library_part_10(m10);
    let m12 = ansi_library_part_11(m11);
    lemma_part_0_defines_statements(m0);
    lemma_part_0_keeps_names(m0);
    lemma_part_1_keeps_names(m1);
    lemma_part_2_keeps_names(m2);
    lemma_part_3_keeps_names(m3);
    lemma_part_4_keeps_names(m4);
    lemma_part_5_keeps_names(m5);
    lemma_part_6_defines_statements(m6);
    lemma_part_6_keeps_names(m6);
    lemma_part_7_defines_statements(m7);
    lemma_part_7_keeps_names(m7);
    lemma_part_8_defines_statements(m8);
    lemma_part_8_keeps_names(m8);
    lemma_part_9_keeps_names(m9);
    lemma_part_10_defines_statements(m10);
    lemma_part_10_keeps_names(m10);
    lemma_part_11_defines_statements(m11);
    lemma_part_11_keeps_names(m11);
}

proof fn lemma_statement_element()
    ensures
        statement_segment_element() == (ElementView::Node { kind: "statement"@, grammar: statement_grammar() }),
{
    let g = statement_segment_element()->Node_grammar;
    assert(references(statement_kinds()) =~~= g->OneOf_elements);
    assert(statement_segment_element() =~~= ElementView::Node { kind: "statement"@, grammar: statement_grammar() });
}

proof fn lemma_unordered_element()
    ensures
        unordered_select_statement_segment_element()->Node_kind == "select_statement"@,
        unordered_select_statement_segment_element()->Node_grammar == unordered_select_statement(),
        (unordered_select_statement_segment_element() is Node),
{
    assert(references(unordered_select_terminators()) =~= seq![
        GrammarView::reference("SetOperatorSegment"@),
        GrammarView::reference("WithNoSchemaBindingClauseSegment"@),
        GrammarView::reference("WithDataClauseSegment"@),
        GrammarView::reference("OrderByClauseSegment"@),
        GrammarView::reference("LimitClauseSegment"@),
    ]);
    let g = unordered_select_statement_segment_element()->Node_grammar;
    assert(g->Sequence_elements =~= unordered_select_clauses());
    assert(g->Sequence_terminators =~= references(unordered_select_terminators()));
    assert(g =~~= unordered_select_statement());
}

proof fn lemma_explain_element()
    ensures
        explain_statement_segment_element()->Node_grammar->Sequence_elements[1] == explainable_statement_grammar(),
{
    assert(references(explainable_statements()) =~= seq![
        GrammarView::reference("SelectableGrammar"@),
        GrammarView::reference("InsertStatementSegment"@),
        GrammarView::reference("UpdateStatementSegment"@),
        GrammarView::reference("DeleteStatementSegment"@),
    ]);
    let g = explain_statement_segment_element()->Node_grammar->Sequence_elements[1];
    assert(g->OneOf_elements =~= references(explainable_statements()));
    assert(g =~~= explainable_statement_grammar());
}

proof fn lemma_select_statement_element()
    ensures
        select_statement_segment_element()->Node_kind == "select_statement"@,
        select_statement_segment_element()->Node_grammar == select_statement_grammar(),
        (select_statement_segment_element() is Node),
{
    lemma_unordered_element();
    assert(ordering_clauses() =~~= seq![
        GrammarView::optional_reference("OrderByClauseSegment"@),
        GrammarView::optional_reference("FetchClauseSegment"@),
        GrammarView::optional_reference("LimitClauseSegment"@),
        GrammarView::optional_reference("NamedWindowSegment"@),
    ]);
    assert(references(select_terminators()) =~~= seq![
        GrammarView::reference("SetOperatorSegment"@),
        GrammarView::reference("WithNoSchemaBindingClauseSegment"@),
        GrammarView::reference("WithDataClauseSegment"@),
    ]);
}

/// The ANSI library holds the grammar fragments that other dialects reuse,
/// under their names: the statement, select statement (ordered and not),
/// select clause, select-clause element and wildcard-expression nodes have
/// the grammars of [`statement_grammar`], [`select_statement_grammar`],
/// [`unordered_select_statement`], [`select_clause_grammar`],
/// [`select_clause_element_grammar`] and [`wildcard_expression_grammar`]; the
/// select-clause terminators are one of [`select_clause_terminator_grammars`];
/// and `EXPLAIN` takes one of [`explainable_statement_grammar`].
#[verifier::rlimit(100)]
pub proof fn law_ansi_library_holds_the_fragments(unreserved: Seq<char>, reserved: Seq<char>)
    ensures
        ({
            let d = ansi_raw_dialect_view(unreserved, reserved);
            &&& d.element("StatementSegment"@) == Some(ElementView::Node { kind: "statement"@, grammar: statement_grammar() })
            &&& d.element("SelectStatementSegment"@) == Some(
                ElementView::Node { kind: "select_statement"@, grammar: select_statement_grammar() },
            )
            &&& d.element("UnorderedSelectStatementSegment"@) == Some(
                ElementView::Node { kind: "select_statement"@, grammar: unordered_select_statement() },
            )
            &&& d.element("SelectClauseSegment"@) == Some(
                ElementView::Node { kind: "select_clause"@, grammar: select_clause_grammar() },
            )
            &&& d.element("SelectClauseElementSegment"@) == Some(
                ElementView::Node { kind: "select_clause_element"@, grammar: select_clause_element_grammar() },
            )
            &&& d.element("WildcardExpressionSegment"@) == Some(
                ElementView::Node { kind: "wildcard_expression"@, grammar: wildcard_expression_grammar() },
            )
            &&& d.element("SelectClauseTerminatorGrammar"@) == Some(
                ElementView::Grammar(GrammarView::OneOf { elements: select_clause_terminator_grammars(), terminators: seq![] }),
            )
            &&& d.element("ExplainStatementSegment"@) matches Some(ElementView::Node { kind, grammar: GrammarView::Sequence { elements, .. } })
                && kind == "explain_statement"@ && elements.len() == 2 && elements[0] == GrammarView::keyword("EXPLAIN"@)
                && elements[1] == explainable_statement_grammar()
        }),
{
    let lib = Map::<Seq<char>, ElementView>::empty();
    lemma_ansi_library_statement_segment(lib);
    lemma_ansi_library_select_statement_segment(lib);
    lemma_ansi_library_unordered_select_statement_segment(lib);
    lemma_ansi_library_select_clause_segment(lib);
    lemma_ansi_library_select_clause_element_segment(lib);
    lemma_ansi_library_wildcard_expression_segment(lib);
    lemma_ansi_library_select_clause_terminator_grammar(lib);
    lemma_ansi_library_explain_statement_segment(lib);
    lemma_statement_element();
    lemma_select_statement_element();
    lemma_unordered_element();
    assert(select_clause_segment_element() =~~= ElementView::Node { kind: "select_clause"@, grammar: select_clause_grammar() });
    assert(select_clause_element_segment_element() =~~= ElementView::Node { kind: "select_clause_element"@, grammar: select_clause_element_grammar() });
    assert(wildcard_expression_segment_element() =~~= ElementView::Node { kind: "wildcard_expression"@, grammar: wildcard_expression_grammar() });
    assert(select_clause_terminator_grammar_element() =~~= ElementView::Grammar(
        GrammarView::OneOf { elements: select_clause_terminator_grammars(), terminators: seq![] },
    ));
    lemma_explain_element();
}

/// Every statement that the ANSI statement grammar names is an element of the
/// ANSI library, so that no statement reference is left without a grammar.
pub proof fn law_ansi_statements_are_defined(unreserved: Seq<char>, reserved: Seq<char>)
    ensures
        forall|i: int| 0 <= i < statement_kinds().len() ==> ansi_raw_dialect_view(unreserved, reserved).library.dom().contains(
            #[trigger] statement_kinds()[i],
        ),
{
    lemma_ansi_library_defines_statements(Map::empty());
    let lib = ansi_raw_dialect_view(unreserved, reserved).library;
    assert forall|i: int| 0 <= i < statement_kinds().len() implies lib.dom().contains(#[trigger] statement_kinds()[i]) by {
        if i == 0 {
            assert(statement_kinds()[i] == "SelectableGrammar"@);
        }
        else if i == 1 {
            assert(statement_kinds()[i] == "MergeStatementSegment"@);
        }
        else if i == 2 {
            assert(statement_kinds()[i] == "InsertStatementSegment"@);
        }
        else if i == 3 {
            assert(statement_kinds()[i] == "TransactionStatementSegment"@);
        }
        else if i == 4 {
            assert(statement_kinds()[i] == "DropTableStatementSegment"@);
        }
        else if i == 5 {
            assert(statement_kinds()[i] == "DropViewStatementSegment"@);
        }
        else if i == 6 {
            assert(statement_kinds()[i] == "CreateUserStatementSegment"@);
        }
        else if i == 7 {
            assert(statement_kinds()[i] == "DropUserStatementSegment"@);
        }
        else if i == 8 {
            assert(statement_kinds()[i] == "TruncateStatementSegment"@);
        }
        else if i == 9 {
            assert(statement_kinds()[i] == "AccessStatementSegment"@);
        }
        else if i == 10 {
            assert(statement_kinds()[i] == "CreateTableStatementSegment"@);
        }
        else if i == 11 {
            assert(statement_kinds()[i] == "CreateRoleStatementSegment"@);
        }
        else if i == 12 {
            assert(statement_kinds()[i] == "DropRoleStatementSegment"@);
        }
        else if i == 13 {
            assert(statement_kinds()[i] == "AlterTableStatementSegment"@);
        }
        else if i == 14 {
            assert(statement_kinds()[i] == "CreateSchemaStatementSegment"@);
        }
        else if i == 15 {
            assert(statement_kinds()[i] == "SetSchemaStatementSegment"@);
        }
        else if i == 16 {
            assert(statement_kinds()[i] == "DropSchemaStatementSegment"@);
        }
        else if i == 17 {
            assert(statement_kinds()[i] == "DropTypeStatementSegment"@);
        }
        else if i == 18 {
            assert(statement_kinds()[i] == "CreateDatabaseStatementSegment"@);
        }
        else if i == 19 {
            assert(statement_kinds()[i] == "DropDatabaseStatementSegment"@);
        }
        else if i == 20 {
            assert(statement_kinds()[i] == "CreateIndexStatementSegment"@);
        }
        else if i == 21 {
            assert(statement_kinds()[i] == "DropIndexStatementSegment"@);
        }
        else if i == 22 {
            assert(statement_kinds()[i] == "CreateViewStatementSegment"@);
        }
        else if i == 23 {
            assert(statement_kinds()[i] == "DeleteStatementSegment"@);
        }
        else if i == 24 {
            assert(statement_kinds()[i] == "UpdateStatementSegment"@);
        }
        else if i == 25 {
            assert(statement_kinds()[i] == "CreateCastStatementSegment"@);
        }
        else if i == 26 {
            assert(statement_kinds()[i] == "DropCastStatementSegment"@);
        }
        else if i == 27 {
            assert(statement_kinds()[i] == "CreateFunctionStatementSegment"@);
        }
        else if i == 28 {
            assert(statement_kinds()[i] == "DropFunctionStatementSegment"@);
        }
        else if i == 29 {
            assert(statement_kinds()[i] == "CreateModelStatementSegment"@);
        }
        else if i == 30 {
            assert(statement_kinds()[i] == "DropModelStatementSegment"@);
        }
        else if i == 31 {
            assert(statement_kinds()[i] == "DescribeStatementSegment"@);
        }
        else if i == 32 {
            assert(statement_kinds()[i] == "UseStatementSegment"@);
        }
        else if i == 33 {
            assert(statement_kinds()[i] == "ExplainStatementSegment"@);
        }
        else if i == 34 {
            assert(statement_kinds()[i] == "CreateSequenceStatementSegment"@);
        }
        else if i == 35 {
            assert(statement_kinds()[i] == "AlterSequenceStatementSegment"@);
        }
        else if i == 36 {
            assert(statement_kinds()[i] == "DropSequenceStatementSegment"@);
        }
        else if i == 37 {
            assert(statement_kinds()[i] == "CreateTriggerStatementSegment"@);
        }
        else if i == 38 {
            assert(statement_kinds()[i] == "DropTriggerStatementSegment"@);
        }

    }
}


/// The ANSI library holds the clause terminators under their names, each one
/// of the alternatives that [`ansi_clause_terminators`] gives it.
pub proof fn law_ansi_clause_terminators_in_library(unreserved: Seq<char>, reserved: Seq<char>)
    ensures
        forall|i: int| 0 <= i < ansi_clause_terminators().len() ==> ansi_raw_dialect_view(unreserved, reserved).element(
            #[trigger] ansi_clause_terminators()[i].0,
        ) == Some(ElementView::Grammar(ansi_clause_terminators()[i].1)),
{
    let lib = Map::<Seq<char>, ElementView>::empty();
    lemma_ansi_library_from_clause_terminator_grammar(lib);
    assert(from_clause_terminator_grammar_element() =~~= ElementView::Grammar(GrammarView::one_of(from_clause_terminator_grammar_alternatives())));
    lemma_ansi_library_where_clause_terminator_grammar(lib);
    assert(where_clause_terminator_grammar_element() =~~= ElementView::Grammar(GrammarView::one_of(where_clause_terminator_grammar_alternatives())));
    lemma_ansi_library_group_by_clause_terminator_grammar(lib);
    assert(group_by_clause_terminator_grammar_element() =~~= ElementView::Grammar(GrammarView::one_of(group_by_clause_terminator_grammar_alternatives())));
    lemma_ansi_library_having_clause_terminator_grammar(lib);
    assert(having_clause_terminator_grammar_element() =~~= ElementView::Grammar(GrammarView::one_of(having_clause_terminator_grammar_alternatives())));
    lemma_ansi_library_order_by_clause_terminators(lib);
    assert(order_by_clause_terminators_element() =~~= ElementView::Grammar(GrammarView::one_of(order_by_clause_terminators_alternatives())));
    let d = ansi_raw_dialect_view(unreserved, reserved);
    assert forall|i: int| 0 <= i < ansi_clause_terminators().len() implies d.element(#[trigger] ansi_clause_terminators()[i].0)
        == Some(ElementView::Grammar(ansi_clause_terminators()[i].1)) by {
        if i == 0 {
            assert(ansi_clause_terminators()[i].0 == "FromClauseTerminatorGrammar"@);
        }
        else if i == 1 {
            assert(ansi_clause_terminators()[i].0 == "WhereClauseTerminatorGrammar"@);
        }
        else if i == 2 {
            assert(ansi_clause_terminators()[i].0 == "GroupByClauseTerminatorGrammar"@);
        }
        else if i == 3 {
            assert(ansi_clause_terminators()[i].0 == "HavingClauseTerminatorGrammar"@);
        }
        else if i == 4 {
            assert(ansi_clause_terminators()[i].0 == "OrderByClauseTerminators"@);
        }
    }
}


/// The statements that the ANSI statement grammar names are all different.
#[verifier::rlimit(100)]
pub proof fn law_ansi_statement_names_distinct()
    ensures
        forall|i: int, j: int| 0 <= i < j < statement_kinds().len() ==> #[trigger] statement_kinds()[i] != #[trigger] statement_kinds()[j],
{
    reveal_strlit("SelectableGrammar");
    reveal_strlit("MergeStatementSegment");
    reveal_strlit("InsertStatementSegment");
    reveal_strlit("TransactionStatementSegment");
    reveal_strlit("DropTableStatementSegment");
    reveal_strlit("DropViewStatementSegment");
    reveal_strlit("CreateUserStatementSegment");
    reveal_strlit("DropUserStatementSegment");
    reveal_strlit("TruncateStatementSegment");
    reveal_strlit("AccessStatementSegment");
    reveal_strlit("CreateTableStatementSegment");
    reveal_strlit("CreateRoleStatementSegment");
    reveal_strlit("DropRoleStatementSegment");
    reveal_strlit("AlterTableStatementSegment");
    reveal_strlit("CreateSchemaStatementSegment");
    reveal_strlit("SetSchemaStatementSegment");
    reveal_strlit("DropSchemaStatementSegment");
    reveal_strlit("DropTypeStatementSegment");
    reveal_strlit("CreateDatabaseStatementSegment");
    reveal_strlit("DropDatabaseStatementSegment");
    reveal_strlit("CreateIndexStatementSegment");
    reveal_strlit("DropIndexStatementSegment");
    reveal_strlit("CreateViewStatementSegment");
    reveal_strlit("DeleteStatementSegment");
    reveal_strlit("UpdateStatementSegment");
    reveal_strlit("CreateCastStatementSegment");
    reveal_strlit("DropCastStatementSegment");
    reveal_strlit("CreateFunctionStatementSegment");
    reveal_strlit("DropFunctionStatementSegment");
    reveal_strlit("CreateModelStatementSegment");
    reveal_strlit("DropModelStatementSegment");
    reveal_strlit("DescribeStatementSegment");
    reveal_strlit("UseStatementSegment");
    reveal_strlit("ExplainStatementSegment");
    reveal_strlit("CreateSequenceStatementSegment");
    reveal_strlit("AlterSequenceStatementSegment");
    reveal_strlit("DropSequenceStatementSegment");
    reveal_strlit("CreateTriggerStatementSegment");
    reveal_strlit("DropTriggerStatementSegment");
    assert("SelectableGrammar"@.len() != "MergeStatementSegment"@.len());
    assert("SelectableGrammar"@.len() != "InsertStatementSegment"@.len());
    assert("SelectableGrammar"@.len() != "TransactionStatementSegment"@.len());
    assert("SelectableGrammar"@.len() != "DropTableStatementSegment"@.len());
    assert("SelectableGrammar"@.len() != "DropViewStatementSegment"@.len());
    assert("SelectableGrammar"@.len() != "CreateUserStatementSegment"@.len());
    assert("SelectableGrammar"@.len() != "DropUserStatementSegment"@.len());
    assert("SelectableGrammar"@.len() != "TruncateStatementSegment"@.len());
    assert("SelectableGrammar"@.len() != "AccessStatementSegment"@.len());
    assert("SelectableGrammar"@.len() != "CreateTableStatementSegment"@.len());
    assert("SelectableGrammar"@.len() != "CreateRoleStatementSegment"@.len());
    assert("SelectableGrammar"@.len() != "DropRoleStatementSegment"@.len());
    assert("SelectableGrammar"@.len() != "AlterTableStatementSegment"@.len());
    assert("SelectableGrammar"@.len() != "CreateSchemaStatementSegment"@.len());
    assert("SelectableGrammar"@.len() != "SetSchemaStatementSegment"@.len());
    assert("SelectableGrammar"@.len() != "DropSchemaStatementSegment"@.len());
    assert("SelectableGrammar"@.len() != "DropTypeStatementSegment"@.len());
    assert("SelectableGrammar"@.len() != "CreateDatabaseStatementSegment"@.len());
    assert("SelectableGrammar"@.len() != "DropDatabaseStatementSegment"@.len());
    assert("SelectableGrammar"@.len() != "CreateIndexStatementSegment"@.len());
    assert("SelectableGrammar"@.len() != "DropIndexStatementSegment"@.len());
    assert("SelectableGrammar"@.len() != "CreateViewStatementSegment"@.len());
    assert("SelectableGrammar"@.len() != "DeleteStatementSegment"@.len());
    assert("SelectableGrammar"@.len() != "UpdateStatementSegment"@.len());
    assert("SelectableGrammar"@.len() != "CreateCastStatementSegment"@.len());
    assert("SelectableGrammar"@.len() != "DropCastStatementSegment"@.len());
    assert("SelectableGrammar"@.len() != "CreateFunctionStatementSegment"@.len());
    assert("SelectableGrammar"@.len() != "DropFunctionStatementSegment"@.len());
    assert("SelectableGrammar"@.len() != "CreateModelStatementSegment"@.len());
    assert("SelectableGrammar"@.len() != "DropModelStatementSegment"@.len());
    assert("SelectableGrammar"@.len() != "DescribeStatementSegment"@.len());
    assert("SelectableGrammar"@.len() != "UseStatementSegment"@.len());
    assert("SelectableGrammar"@.len() != "ExplainStatementSegment"@.len());
    assert("SelectableGrammar"@.len() != "CreateSequenceStatementSegment"@.len());
    assert("SelectableGrammar"@.len() != "AlterSequenceStatementSegment"@.len());
    assert("SelectableGrammar"@.len() != "DropSequenceStatementSegment"@.len());
    assert("SelectableGrammar"@.len() != "CreateTriggerStatementSegment"@.len());
    assert("SelectableGrammar"@.len() != "DropTriggerStatementSegment"@.len());
    assert("MergeStatementSegment"@.len() != "InsertStatementSegment"@.len());
    assert("MergeStatementSegment"@.len() != "TransactionStatementSegment"@.len());
    assert("MergeStatementSegment"@.len() != "DropTableStatementSegment"@.len());
    assert("MergeStatementSegment"@.len() != "DropViewStatementSegment"@.len());
    assert("MergeStatementSegment"@.len() != "CreateUserStatementSegment"@.len());
    assert("MergeStatementSegment"@.len() != "DropUserStatementSegment"@.len());
    assert("MergeStatementSegment"@.len() != "TruncateStatementSegment"@.len());
    assert("MergeStatementSegment"@.len() != "AccessStatementSegment"@.len());
    assert("MergeStatementSegment"@.len() != "CreateTableStatementSegment"@.len());
    assert("MergeStatementSegment"@.len() != "CreateRoleStatementSegment"@.len());
    assert("MergeStatementSegment"@.len() != "DropRoleStatementSegment"@.len());
    assert("MergeStatementSegment"@.len() != "AlterTableStatementSegment"@.len());
    assert("MergeStatementSegment"@.len() != "CreateSchemaStatementSegment"@.len());
    assert("MergeStatementSegment"@.len() != "SetSchemaStatementSegment"@.len());
    assert("MergeStatementSegment"@.len() != "DropSchemaStatementSegment"@.len());
    assert("MergeStatementSegment"@.len() != "DropTypeStatementSegment"@.len());
    assert("MergeStatementSegment"@.len() != "CreateDatabaseStatementSegment"@.len());
    assert("MergeStatementSegment"@.len() != "DropDatabaseStatementSegment"@.len());
    assert("MergeStatementSegment"@.len() != "CreateIndexStatementSegment"@.len());
    assert("MergeStatementSegment"@.len() != "DropIndexStatementSegment"@.len());
    assert("MergeStatementSegment"@.len() != "CreateViewStatementSegment"@.len());
    assert("MergeStatementSegment"@.len() != "DeleteStatementSegment"@.len());
    assert("MergeStatementSegment"@.len() != "UpdateStatementSegment"@.len());
    assert("MergeStatementSegment"@.len() != "CreateCastStatementSegment"@.len());
    assert("MergeStatementSegment"@.len() != "DropCastStatementSegment"@.len());
    assert("MergeStatementSegment"@.len() != "CreateFunctionStatementSegment"@.len());
    assert("MergeStatementSegment"@.len() != "DropFunctionStatementSegment"@.len());
    assert("MergeStatementSegment"@.len() != "CreateModelStatementSegment"@.len());
    assert("MergeStatementSegment"@.len() != "DropModelStatementSegment"@.len());
    assert("MergeStatementSegment"@.len() != "DescribeStatementSegment"@.len());
    assert("MergeStatementSegment"@.len() != "UseStatementSegment"@.len());
    assert("MergeStatementSegment"@.len() != "ExplainStatementSegment"@.len());
    assert("MergeStatementSegment"@.len() != "CreateSequenceStatementSegment"@.len());
    assert("MergeStatementSegment"@.len() != "AlterSequenceStatementSegment"@.len());
    assert("MergeStatementSegment"@.len() != "DropSequenceStatementSegment"@.len());
    assert("MergeStatementSegment"@.len() != "CreateTriggerStatementSegment"@.len());
    assert("MergeStatementSegment"@.len() != "DropTriggerStatementSegment"@.len());
    assert("InsertStatementSegment"@.len() != "TransactionStatementSegment"@.len());
    assert("InsertStatementSegment"@.len() != "DropTableStatementSegment"@.len());
    assert("InsertStatementSegment"@.len() != "DropViewStatementSegment"@.len());
    assert("InsertStatementSegment"@.len() != "CreateUserStatementSegment"@.len());
    assert("InsertStatementSegment"@.len() != "DropUserStatementSegment"@.len());
    assert("InsertStatementSegment"@.len() != "TruncateStatementSegment"@.len());
    assert("InsertStatementSegment"@[0] != "AccessStatementSegment"@[0]);
    assert("InsertStatementSegment"@.len() != "CreateTableStatementSegment"@.len());
    assert("InsertStatementSegment"@.len() != "CreateRoleStatementSegment"@.len());
    assert("InsertStatementSegment"@.len() != "DropRoleStatementSegment"@.len());
    assert("InsertStatementSegment"@.len() != "AlterTableStatementSegment"@.len());
    assert("InsertStatementSegment"@.len() != "CreateSchemaStatementSegment"@.len());
    assert("InsertStatementSegment"@.len() != "SetSchemaStatementSegment"@.len());
    assert("InsertStatementSegment"@.len() != "DropSchemaStatementSegment"@.len());
    assert("InsertStatementSegment"@.len() != "DropTypeStatementSegment"@.len());
    assert("InsertStatementSegment"@.len() != "CreateDatabaseStatementSegment"@.len());
    assert("InsertStatementSegment"@.len() != "DropDatabaseStatementSegment"@.len());
    assert("InsertStatementSegment"@.len() != "CreateIndexStatementSegment"@.len());
    assert("InsertStatementSegment"@.len() != "DropIndexStatementSegment"@.len());
    assert("InsertStatementSegment"@.len() != "CreateViewStatementSegment"@.len());
    assert("InsertStatementSegment"@[0] != "DeleteStatementSegment"@[0]);
    assert("InsertStatementSegment"@[0] != "UpdateStatementSegment"@[0]);
    assert("InsertStatementSegment"@.len() != "CreateCastStatementSegment"@.len());
    assert("InsertStatementSegment"@.len() != "DropCastStatementSegment"@.len());
    assert("InsertStatementSegment"@.len() != "CreateFunctionStatementSegment"@.len());
    assert("InsertStatementSegment"@.len() != "DropFunctionStatementSegment"@.len());
    assert("InsertStatementSegment"@.len() != "CreateModelStatementSegment"@.len());
    assert("InsertStatementSegment"@.len() != "DropModelStatementSegment"@.len());
    assert("InsertStatementSegment"@.len() != "DescribeStatementSegment"@.len());
    assert("InsertStatementSegment"@.len() != "UseStatementSegment"@.len());
    assert("InsertStatementSegment"@.len() != "ExplainStatementSegment"@.len());
    assert("InsertStatementSegment"@.len() != "CreateSequenceStatementSegment"@.len());
    assert("InsertStatementSegment"@.len() != "AlterSequenceStatementSegment"@.len());
    assert("InsertStatementSegment"@.len() != "DropSequenceStatementSegment"@.len());
    assert("InsertStatementSegment"@.len() != "CreateTriggerStatementSegment"@.len());
    assert("InsertStatementSegment"@.len() != "DropTriggerStatementSegment"@.len());
    assert("TransactionStatementSegment"@.len() != "DropTableStatementSegment"@.len());
    assert("TransactionStatementSegment"@.len() != "DropViewStatementSegment"@.len());
    assert("TransactionStatementSegment"@.len() != "CreateUserStatementSegment"@.len());
    assert("TransactionStatementSegment"@.len() != "DropUserStatementSegment"@.len());
    assert("TransactionStatementSegment"@.len() != "TruncateStatementSegment"@.len());
    assert("TransactionStatementSegment"@.len() != "AccessStatementSegment"@.len());
    assert("TransactionStatementSegment"@[0] != "CreateTableStatementSegment"@[0]);
    assert("TransactionStatementSegment"@.len() != "CreateRoleStatementSegment"@.len());
    assert("TransactionStatementSegment"@.len() != "DropRoleStatementSegment"@.len());
    assert("TransactionStatementSegment"@.len() != "AlterTableStatementSegment"@.len());
    assert("TransactionStatementSegment"@.len() != "CreateSchemaStatementSegment"@.len());
    assert("TransactionStatementSegment"@.len() != "SetSchemaStatementSegment"@.len());
    assert("TransactionStatementSegment"@.len() != "DropSchemaStatementSegment"@.len());
    assert("TransactionStatementSegment"@.len() != "DropTypeStatementSegment"@.len());
    assert("TransactionStatementSegment"@.len() != "CreateDatabaseStatementSegment"@.len());
    assert("TransactionStatementSegment"@.len() != "DropDatabaseStatementSegment"@.len());
    assert("TransactionStatementSegment"@[0] != "CreateIndexStatementSegment"@[0]);
    assert("TransactionStatementSegment"@.len() != "DropIndexStatementSegment"@.len());
    assert("TransactionStatementSegment"@.len() != "CreateViewStatementSegment"@.len());
    assert("TransactionStatementSegment"@.len() != "DeleteStatementSegment"@.len());
    assert("TransactionStatementSegment"@.len() != "UpdateStatementSegment"@.len());
    assert("TransactionStatementSegment"@.len() != "CreateCastStatementSegment"@.len());
    assert("TransactionStatementSegment"@.len() != "DropCastStatementSegment"@.len());
    assert("TransactionStatementSegment"@.len() != "CreateFunctionStatementSegment"@.len());
    assert("TransactionStatementSegment"@.len() != "DropFunctionStatementSegment"@.len());
    assert("TransactionStatementSegment"@[0] != "CreateModelStatementSegment"@[0]);
    assert("TransactionStatementSegment"@.len() != "DropModelStatementSegment"@.len());
    assert("TransactionStatementSegment"@.len() != "DescribeStatementSegment"@.len());
    assert("TransactionStatementSegment"@.len() != "UseStatementSegment"@.len());
    assert("TransactionStatementSegment"@.len() != "ExplainStatementSegment"@.len());
    assert("TransactionStatementSegment"@.len() != "CreateSequenceStatementSegment"@.len());
    assert("TransactionStatementSegment"@.len() != "AlterSequenceStatementSegment"@.len());
    assert("TransactionStatementSegment"@.len() != "DropSequenceStatementSegment"@.len());
    assert("TransactionStatementSegment"@.len() != "CreateTriggerStatementSegment"@.len());
    assert("TransactionStatementSegment"@[0] != "DropTriggerStatementSegment"@[0]);
    assert("DropTableStatementSegment"@.len() != "DropViewStatementSegment"@.len());
    assert("DropTableStatementSegment"@.len() != "CreateUserStatementSegment"@.len());
    assert("DropTableStatementSegment"@.len() != "DropUserStatementSegment"@.len());
    assert("DropTableStatementSegment"@.len() != "TruncateStatementSegment"@.len());
    assert("DropTableStatementSegment"@.len() != "AccessStatementSegment"@.len());
    assert("DropTableStatementSegment"@.len() != "CreateTableStatementSegment"@.len());
    assert("DropTableStatementSegment"@.len() != "CreateRoleStatementSegment"@.len());
    assert("DropTableStatementSegment"@.len() != "DropRoleStatementSegment"@.len());
    assert("DropTableStatementSegment"@.len() != "AlterTableStatementSegment"@.len());
    assert("DropTableStatementSegment"@.len() != "CreateSchemaStatementSegment"@.len());
    assert("DropTableStatementSegment"@[0] != "SetSchemaStatementSegment"@[0]);
    assert("DropTableStatementSegment"@.len() != "DropSchemaStatementSegment"@.len());
    assert("DropTableStatementSegment"@.len() != "DropTypeStatementSegment"@.len());
    assert("DropTableStatementSegment"@.len() != "CreateDatabaseStatementSegment"@.len());
    assert("DropTableStatementSegment"@.len() != "DropDatabaseStatementSegment"@.len());
    assert("DropTableStatementSegment"@.len() != "CreateIndexStatementSegment"@.len());
    assert("DropTableStatementSegment"@[4] != "DropIndexStatementSegment"@[4]);
    assert("DropTableStatementSegment"@.len() != "CreateViewStatementSegment"@.len());
    assert("DropTableStatementSegment"@.len() != "DeleteStatementSegment"@.len());
    assert("DropTableStatementSegment"@.len() != "UpdateStatementSegment"@.len());
    assert("DropTableStatementSegment"@.len() != "CreateCastStatementSegment"@.len());
    assert("DropTableStatementSegment"@.len() != "DropCastStatementSegment"@.len());
    assert("DropTableStatementSegment"@.len() != "CreateFunctionStatementSegment"@.len());
    assert("DropTableStatementSegment"@.len() != "DropFunctionStatementSegment"@.len());
    assert("DropTableStatementSegment"@.len() != "CreateModelStatementSegment"@.len());
    assert("DropTableStatementSegment"@[4] != "DropModelStatementSegment"@[4]);
    assert("DropTableStatementSegment"@.len() != "DescribeStatementSegment"@.len());
    assert("DropTableStatementSegment"@.len() != "UseStatementSegment"@.len());
    assert("DropTableStatementSegment"@.len() != "ExplainStatementSegment"@.len());
    assert("DropTableStatementSegment"@.len() != "CreateSequenceStatementSegment"@.len());
    assert("DropTableStatementSegment"@.len() != "AlterSequenceStatementSegment"@.len());
    assert("DropTableStatementSegment"@.len() != "DropSequenceStatementSegment"@.len());
    assert("DropTableStatementSegment"@.len() != "CreateTriggerStatementSegment"@.len());
    assert("DropTableStatementSegment"@.len() != "DropTriggerStatementSegment"@.len());
    assert("DropViewStatementSegment"@.len() != "CreateUserStatementSegment"@.len());
    assert("DropViewStatementSegment"@[4] != "DropUserStatementSegment"@[4]);
    assert("DropViewStatementSegment"@[0] != "TruncateStatementSegment"@[0]);
    assert("DropViewStatementSegment"@.len() != "AccessStatementSegment"@.len());
    assert("DropViewStatementSegment"@.len() != "CreateTableStatementSegment"@.len());
    assert("DropViewStatementSegment"@.len() != "CreateRoleStatementSegment"@.len());
    assert("DropViewStatementSegment"@[4] != "DropRoleStatementSegment"@[4]);
    assert("DropViewStatementSegment"@.len() != "AlterTableStatementSegment"@.len());
    assert("DropViewStatementSegment"@.len() != "CreateSchemaStatementSegment"@.len());
    assert("DropViewStatementSegment"@.len() != "SetSchemaStatementSegment"@.len());
    assert("DropViewStatementSegment"@.len() != "DropSchemaStatementSegment"@.len());
    assert("DropViewStatementSegment"@[4] != "DropTypeStatementSegment"@[4]);
    assert("DropViewStatementSegment"@.len() != "CreateDatabaseStatementSegment"@.len());
    assert("DropViewStatementSegment"@.len() != "DropDatabaseStatementSegment"@.len());
    assert("DropViewStatementSegment"@.len() != "CreateIndexStatementSegment"@.len());
    assert("DropViewStatementSegment"@.len() != "DropIndexStatementSegment"@.len());
    assert("DropViewStatementSegment"@.len() != "CreateViewStatementSegment"@.len());
    assert("DropViewStatementSegment"@.len() != "DeleteStatementSegment"@.len());
    assert("DropViewStatementSegment"@.len() != "UpdateStatementSegment"@.len());
    assert("DropViewStatementSegment"@.len() != "CreateCastStatementSegment"@.len());
    assert("DropViewStatementSegment"@[4] != "DropCastStatementSegment"@[4]);
    assert("DropViewStatementSegment"@.len() != "CreateFunctionStatementSegment"@.len());
    assert("DropViewStatementSegment"@.len() != "DropFunctionStatementSegment"@.len());
    assert("DropViewStatementSegment"@.len() != "CreateModelStatementSegment"@.len());
    assert("DropViewStatementSegment"@.len() != "DropModelStatementSegment"@.len());
    assert("DropViewStatementSegment"@[1] != "DescribeStatementSegment"@[1]);
    assert("DropViewStatementSegment"@.len() != "UseStatementSegment"@.len());
    assert("DropViewStatementSegment"@.len() != "ExplainStatementSegment"@.len());
    assert("DropViewStatementSegment"@.len() != "CreateSequenceStatementSegment"@.len());
    assert("DropViewStatementSegment"@.len() != "AlterSequenceStatementSegment"@.len());
    assert("DropViewStatementSegment"@.len() != "DropSequenceStatementSegment"@.len());
    assert("DropViewStatementSegment"@.len() != "CreateTriggerStatementSegment"@.len());
    assert("DropViewStatementSegment"@.len() != "DropTriggerStatementSegment"@.len());
    assert("CreateUserStatementSegment"@.len() != "DropUserStatementSegment"@.len());
    assert("CreateUserStatementSegment"@.len() != "TruncateStatementSegment"@.len());
    assert("CreateUserStatementSegment"@.len() != "AccessStatementSegment"@.len());
    assert("CreateUserStatementSegment"@.len() != "CreateTableStatementSegment"@.len());
    assert("CreateUserStatementSegment"@[6] != "CreateRoleStatementSegment"@[6]);
    assert("CreateUserStatementSegment"@.len() != "DropRoleStatementSegment"@.len());
    assert("CreateUserStatementSegment"@[0] != "AlterTableStatementSegment"@[0]);
    assert("CreateUserStatementSegment"@.len() != "CreateSchemaStatementSegment"@.len());
    assert("CreateUserStatementSegment"@.len() != "SetSchemaStatementSegment"@.len());
    assert("CreateUserStatementSegment"@[0] != "DropSchemaStatementSegment"@[0]);
    assert("CreateUserStatementSegment"@.len() != "DropTypeStatementSegment"@.len());
    assert("CreateUserStatementSegment"@.len() != "CreateDatabaseStatementSegment"@.len());
    assert("CreateUserStatementSegment"@.len() != "DropDatabaseStatementSegment"@.len());
    assert("CreateUserStatementSegment"@.len() != "CreateIndexStatementSegment"@.len());
    assert("CreateUserStatementSegment"@.len() != "DropIndexStatementSegment"@.len());
    assert("CreateUserStatementSegment"@[6] != "CreateViewStatementSegment"@[6]);
    assert("CreateUserStatementSegment"@.len() != "DeleteStatementSegment"@.len());
    assert("CreateUserStatementSegment"@.len() != "UpdateStatementSegment"@.len());
    assert("CreateUserStatementSegment"@[6] != "CreateCastStatementSegment"@[6]);
    assert("CreateUserStatementSegment"@.len() != "DropCastStatementSegment"@.len());
    assert("CreateUserStatementSegment"@.len() != "CreateFunctionStatementSegment"@.len());
    assert("CreateUserStatementSegment"@.len() != "DropFunctionStatementSegment"@.len());
    assert("CreateUserStatementSegment"@.len() != "CreateModelStatementSegment"@.len());
    assert("CreateUserStatementSegment"@.len() != "DropModelStatementSegment"@.len());
    assert("CreateUserStatementSegment"@.len() != "DescribeStatementSegment"@.len());
    assert("CreateUserStatementSegment"@.len() != "UseStatementSegment"@.len());
    assert("CreateUserStatementSegment"@.len() != "ExplainStatementSegment"@.len());
    assert("CreateUserStatementSegment"@.len() != "CreateSequenceStatementSegment"@.len());
    assert("CreateUserStatementSegment"@.len() != "AlterSequenceStatementSegment"@.len());
    assert("CreateUserStatementSegment"@.len() != "DropSequenceStatementSegment"@.len());
    assert("CreateUserStatementSegment"@.len() != "CreateTriggerStatementSegment"@.len());
    assert("CreateUserStatementSegment"@.len() != "DropTriggerStatementSegment"@.len());
    assert("DropUserStatementSegment"@[0] != "TruncateStatementSegment"@[0]);
    assert("DropUserStatementSegment"@.len() != "AccessStatementSegment"@.len());
    assert("DropUserStatementSegment"@.len() != "CreateTableStatementSegment"@.len());
    assert("DropUserStatementSegment"@.len() != "CreateRoleStatementSegment"@.len());
    assert("DropUserStatementSegment"@[4] != "DropRoleStatementSegment"@[4]);
    assert("DropUserStatementSegment"@.len() != "AlterTableStatementSegment"@.len());
    assert("DropUserStatementSegment"@.len() != "CreateSchemaStatementSegment"@.len());
    assert("DropUserStatementSegment"@.len() != "SetSchemaStatementSegment"@.len());
    assert("DropUserStatementSegment"@.len() != "DropSchemaStatementSegment"@.len());
    assert("DropUserStatementSegment"@[4] != "DropTypeStatementSegment"@[4]);
    assert("DropUserStatementSegment"@.len() != "CreateDatabaseStatementSegment"@.len());
    assert("DropUserStatementSegment"@.len() != "DropDatabaseStatementSegment"@.len());
    assert("DropUserStatementSegment"@.len() != "CreateIndexStatementSegment"@.len());
    assert("DropUserStatementSegment"@.len() != "DropIndexStatementSegment"@.len());
    assert("DropUserStatementSegment"@.len() != "CreateViewStatementSegment"@.len());
    assert("DropUserStatementSegment"@.len() != "DeleteStatementSegment"@.len());
    assert("DropUserStatementSegment"@.len() != "UpdateStatementSegment"@.len());
    assert("DropUserStatementSegment"@.len() != "CreateCastStatementSegment"@.len());
    assert("DropUserStatementSegment"@[4] != "DropCastStatementSegment"@[4]);
    assert("DropUserStatementSegment"@.len() != "CreateFunctionStatementSegment"@.len());
    assert("DropUserStatementSegment"@.len() != "DropFunctionStatementSegment"@.len());
    assert("DropUserStatementSegment"@.len() != "CreateModelStatementSegment"@.len());
    assert("DropUserStatementSegment"@.len() != "DropModelStatementSegment"@.len());
    assert("DropUserStatementSegment"@[1] != "DescribeStatementSegment"@[1]);
    assert("DropUserStatementSegment"@.len() != "UseStatementSegment"@.len());
    assert("DropUserStatementSegment"@.len() != "ExplainStatementSegment"@.len());
    assert("DropUserStatementSegment"@.len() != "CreateSequenceStatementSegment"@.len());
    assert("DropUserStatementSegment"@.len() != "AlterSequenceStatementSegment"@.len());
    assert("DropUserStatementSegment"@.len() != "DropSequenceStatementSegment"@.len());
    assert("DropUserStatementSegment"@.len() != "CreateTriggerStatementSegment"@.len());
    assert("DropUserStatementSegment"@.len() != "DropTriggerStatementSegment"@.len());
    assert("TruncateStatementSegment"@.len() != "AccessStatementSegment"@.len());
    assert("TruncateStatementSegment"@.len() != "CreateTableStatementSegment"@.len());
    assert("TruncateStatementSegment"@.len() != "CreateRoleStatementSegment"@.len());
    assert("TruncateStatementSegment"@[0] != "DropRoleStatementSegment"@[0]);
    assert("TruncateStatementSegment"@.len() != "AlterTableStatementSegment"@.len());
    assert("TruncateStatementSegment"@.len() != "CreateSchemaStatementSegment"@.len());
    assert("TruncateStatementSegment"@.len() != "SetSchemaStatementSegment"@.len());
    assert("TruncateStatementSegment"@.len() != "DropSchemaStatementSegment"@.len());
    assert("TruncateStatementSegment"@[0] != "DropTypeStatementSegment"@[0]);
    assert("TruncateStatementSegment"@.len() != "CreateDatabaseStatementSegment"@.len());
    assert("TruncateStatementSegment"@.len() != "DropDatabaseStatementSegment"@.len());
    assert("TruncateStatementSegment"@.len() != "CreateIndexStatementSegment"@.len());
    assert("TruncateStatementSegment"@.len() != "DropIndexStatementSegment"@.len());
    assert("TruncateStatementSegment"@.len() != "CreateViewStatementSegment"@.len());
    assert("TruncateStatementSegment"@.len() != "DeleteStatementSegment"@.len());
    assert("TruncateStatementSegment"@.len() != "UpdateStatementSegment"@.len());
    assert("TruncateStatementSegment"@.len() != "CreateCastStatementSegment"@.len());
    assert("TruncateStatementSegment"@[0] != "DropCastStatementSegment"@[0]);
    assert("TruncateStatementSegment"@.len() != "CreateFunctionStatementSegment"@.len());
    assert("TruncateStatementSegment"@.len() != "DropFunctionStatementSegment"@.len());
    assert("TruncateStatementSegment"@.len() != "CreateModelStatementSegment"@.len());
    assert("TruncateStatementSegment"@.len() != "DropModelStatementSegment"@.len());
    assert("TruncateStatementSegment"@[0] != "DescribeStatementSegment"@[0]);
    assert("TruncateStatementSegment"@.len() != "UseStatementSegment"@.len());
    assert("TruncateStatementSegment"@.len() != "ExplainStatementSegment"@.len());
    assert("TruncateStatementSegment"@.len() != "CreateSequenceStatementSegment"@.len());
    assert("TruncateStatementSegment"@.len() != "AlterSequenceStatementSegment"@.len());
    assert("TruncateStatementSegment"@.len() != "DropSequenceStatementSegment"@.len());
    assert("TruncateStatementSegment"@.len() != "CreateTriggerStatementSegment"@.len());
    assert("TruncateStatementSegment"@.len() != "DropTriggerStatementSegment"@.len());
    assert("AccessStatementSegment"@.len() != "CreateTableStatementSegment"@.len());
    assert("AccessStatementSegment"@.len() != "CreateRoleStatementSegment"@.len());
    assert("AccessStatementSegment"@.len() != "DropRoleStatementSegment"@.len());
    assert("AccessStatementSegment"@.len() != "AlterTableStatementSegment"@.len());
    assert("AccessStatementSegment"@.len() != "CreateSchemaStatementSegment"@.len());
    assert("AccessStatementSegment"@.len() != "SetSchemaStatementSegment"@.len());
    assert("AccessStatementSegment"@.len() != "DropSchemaStatementSegment"@.len());
    assert("AccessStatementSegment"@.len() != "DropTypeStatementSegment"@.len());
    assert("AccessStatementSegment"@.len() != "CreateDatabaseStatementSegment"@.len());
    assert("AccessStatementSegment"@.len() != "DropDatabaseStatementSegment"@.len());
    assert("AccessStatementSegment"@.len() != "CreateIndexStatementSegment"@.len());
    assert("AccessStatementSegment"@.len() != "DropIndexStatementSegment"@.len());
    assert("AccessStatementSegment"@.len() != "CreateViewStatementSegment"@.len());
    assert("AccessStatementSegment"@[0] != "DeleteStatementSegment"@[0]);
    assert("AccessStatementSegment"@[0] != "UpdateStatementSegment"@[0]);
    assert("AccessStatementSegment"@.len() != "CreateCastStatementSegment"@.len());
    assert("AccessStatementSegment"@.len() != "DropCastStatementSegment"@.len());
    assert("AccessStatementSegment"@.len() != "CreateFunctionStatementSegment"@.len());
    assert("AccessStatementSegment"@.len() != "DropFunctionStatementSegment"@.len());
    assert("AccessStatementSegment"@.len() != "CreateModelStatementSegment"@.len());
    assert("AccessStatementSegment"@.len() != "DropModelStatementSegment"@.len());
    assert("AccessStatementSegment"@.len() != "DescribeStatementSegment"@.len());
    assert("AccessStatementSegment"@.len() != "UseStatementSegment"@.len());
    assert("AccessStatementSegment"@.len() != "ExplainStatementSegment"@.len());
    assert("AccessStatementSegment"@.len() != "CreateSequenceStatementSegment"@.len());
    assert("AccessStatementSegment"@.len() != "AlterSequenceStatementSegment"@.len());
    assert("AccessStatementSegment"@.len() != "DropSequenceStatementSegment"@.len());
    assert("AccessStatementSegment"@.len() != "CreateTriggerStatementSegment"@.len());
    assert("AccessStatementSegment"@.len() != "DropTriggerStatementSegment"@.len());
    assert("CreateTableStatementSegment"@.len() != "CreateRoleStatementSegment"@.len());
    assert("CreateTableStatementSegment"@.len() != "DropRoleStatementSegment"@.len());
    assert("CreateTableStatementSegment"@.len() != "AlterTableStatementSegment"@.len());
    assert("CreateTableStatementSegment"@.len() != "CreateSchemaStatementSegment"@.len());
    assert("CreateTableStatementSegment"@.len() != "SetSchemaStatementSegment"@.len());
    assert("CreateTableStatementSegment"@.len() != "DropSchemaStatementSegment"@.len());
    assert("CreateTableStatementSegment"@.len() != "DropTypeStatementSegment"@.len());
    assert("CreateTableStatementSegment"@.len() != "CreateDatabaseStatementSegment"@.len());
    assert("CreateTableStatementSegment"@.len() != "DropDatabaseStatementSegment"@.len());
    assert("CreateTableStatementSegment"@[6] != "CreateIndexStatementSegment"@[6]);
    assert("CreateTableStatementSegment"@.len() != "DropIndexStatementSegment"@.len());
    assert("CreateTableStatementSegment"@.len() != "CreateViewStatementSegment"@.len());
    assert("CreateTableStatementSegment"@.len() != "DeleteStatementSegment"@.len());
    assert("CreateTableStatementSegment"@.len() != "UpdateStatementSegment"@.len());
    assert("CreateTableStatementSegment"@.len() != "CreateCastStatementSegment"@.len());
    assert("CreateTableStatementSegment"@.len() != "DropCastStatementSegment"@.len());
    assert("CreateTableStatementSegment"@.len() != "CreateFunctionStatementSegment"@.len());
    assert("CreateTableStatementSegment"@.len() != "DropFunctionStatementSegment"@.len());
    assert("CreateTableStatementSegment"@[6] != "CreateModelStatementSegment"@[6]);
    assert("CreateTableStatementSegment"@.len() != "DropModelStatementSegment"@.len());
    assert("CreateTableStatementSegment"@.len() != "DescribeStatementSegment"@.len());
    assert("CreateTableStatementSegment"@.len() != "UseStatementSegment"@.len());
    assert("CreateTableStatementSegment"@.len() != "ExplainStatementSegment"@.len());
    assert("CreateTableStatementSegment"@.len() != "CreateSequenceStatementSegment"@.len());
    assert("CreateTableStatementSegment"@.len() != "AlterSequenceStatementSegment"@.len());
    assert("CreateTableStatementSegment"@.len() != "DropSequenceStatementSegment"@.len());
    assert("CreateTableStatementSegment"@.len() != "CreateTriggerStatementSegment"@.len());
    assert("CreateTableStatementSegment"@[0] != "DropTriggerStatementSegment"@[0]);
    assert("CreateRoleStatementSegment"@.len() != "DropRoleStatementSegment"@.len());
    assert("CreateRoleStatementSegment"@[0] != "AlterTableStatementSegment"@[0]);
    assert("CreateRoleStatementSegment"@.len() != "CreateSchemaStatementSegment"@.len());
    assert("CreateRoleStatementSegment"@.len() != "SetSchemaStatementSegment"@.len());
    assert("CreateRoleStatementSegment"@[0] != "DropSchemaStatementSegment"@[0]);
    assert("CreateRoleStatementSegment"@.len() != "DropTypeStatementSegment"@.len());
    assert("CreateRoleStatementSegment"@.len() != "CreateDatabaseStatementSegment"@.len());
    assert("CreateRoleStatementSegment"@.len() != "DropDatabaseStatementSegment"@.len());
    assert("CreateRoleStatementSegment"@.len() != "CreateIndexStatementSegment"@.len());
    assert("CreateRoleStatementSegment"@.len() != "DropIndexStatementSegment"@.len());
    assert("CreateRoleStatementSegment"@[6] != "CreateViewStatementSegment"@[6]);
    assert("CreateRoleStatementSegment"@.len() != "DeleteStatementSegment"@.len());
    assert("CreateRoleStatementSegment"@.len() != "UpdateStatementSegment"@.len());
    assert("CreateRoleStatementSegment"@[6] != "CreateCastStatementSegment"@[6]);
    assert("CreateRoleStatementSegment"@.len() != "DropCastStatementSegment"@.len());
    assert("CreateRoleStatementSegment"@.len() != "CreateFunctionStatementSegment"@.len());
    assert("CreateRoleStatementSegment"@.len() != "DropFunctionStatementSegment"@.len());
    assert("CreateRoleStatementSegment"@.len() != "CreateModelStatementSegment"@.len());
    assert("CreateRoleStatementSegment"@.len() != "DropModelStatementSegment"@.len());
    assert("CreateRoleStatementSegment"@.len() != "DescribeStatementSegment"@.len());
    assert("CreateRoleStatementSegment"@.len() != "UseStatementSegment"@.len());
    assert("CreateRoleStatementSegment"@.len() != "ExplainStatementSegment"@.len());
    assert("CreateRoleStatementSegment"@.len() != "CreateSequenceStatementSegment"@.len());
    assert("CreateRoleStatementSegment"@.len() != "AlterSequenceStatementSegment"@.len());
    assert("CreateRoleStatementSegment"@.len() != "DropSequenceStatementSegment"@.len());
    assert("CreateRoleStatementSegment"@.len() != "CreateTriggerStatementSegment"@.len());
    assert("CreateRoleStatementSegment"@.len() != "DropTriggerStatementSegment"@.len());
    assert("DropRoleStatementSegment"@.len() != "AlterTableStatementSegment"@.len());
    assert("DropRoleStatementSegment"@.len() != "CreateSchemaStatementSegment"@.len());
    assert("DropRoleStatementSegment"@.len() != "SetSchemaStatementSegment"@.len());
    assert("DropRoleStatementSegment"@.len() != "DropSchemaStatementSegment"@.len());
    assert("DropRoleStatementSegment"@[4] != "DropTypeStatementSegment"@[4]);
    assert("DropRoleStatementSegment"@.len() != "CreateDatabaseStatementSegment"@.len());
    assert("DropRoleStatementSegment"@.len() != "DropDatabaseStatementSegment"@.len());
    assert("DropRoleStatementSegment"@.len() != "CreateIndexStatementSegment"@.len());
    assert("DropRoleStatementSegment"@.len() != "DropIndexStatementSegment"@.len());
    assert("DropRoleStatementSegment"@.len() != "CreateViewStatementSegment"@.len());
    assert("DropRoleStatementSegment"@.len() != "DeleteStatementSegment"@.len());
    assert("DropRoleStatementSegment"@.len() != "UpdateStatementSegment"@.len());
    assert("DropRoleStatementSegment"@.len() != "CreateCastStatementSegment"@.len());
    assert("DropRoleStatementSegment"@[4] != "DropCastStatementSegment"@[4]);
    assert("DropRoleStatementSegment"@.len() != "CreateFunctionStatementSegment"@.len());
    assert("DropRoleStatementSegment"@.len() != "DropFunctionStatementSegment"@.len());
    assert("DropRoleStatementSegment"@.len() != "CreateModelStatementSegment"@.len());
    assert("DropRoleStatementSegment"@.len() != "DropModelStatementSegment"@.len());
    assert("DropRoleStatementSegment"@[1] != "DescribeStatementSegment"@[1]);
    assert("DropRoleStatementSegment"@.len() != "UseStatementSegment"@.len());
    assert("DropRoleStatementSegment"@.len() != "ExplainStatementSegment"@.len());
    assert("DropRoleStatementSegment"@.len() != "CreateSequenceStatementSegment"@.len());
    assert("DropRoleStatementSegment"@.len() != "AlterSequenceStatementSegment"@.len());
    assert("DropRoleStatementSegment"@.len() != "DropSequenceStatementSegment"@.len());
    assert("DropRoleStatementSegment"@.len() != "CreateTriggerStatementSegment"@.len());
    assert("DropRoleStatementSegment"@.len() != "DropTriggerStatementSegment"@.len());
    assert("AlterTableStatementSegment"@.len() != "CreateSchemaStatementSegment"@.len());
    assert("AlterTableStatementSegment"@.len() != "SetSchemaStatementSegment"@.len());
    assert("AlterTableStatementSegment"@[0] != "DropSchemaStatementSegment"@[0]);
    assert("AlterTableStatementSegment"@.len() != "DropTypeStatementSegment"@.len());
    assert("AlterTableStatementSegment"@.len() != "CreateDatabaseStatementSegment"@.len());
    assert("AlterTableStatementSegment"@.len() != "DropDatabaseStatementSegment"@.len());
    assert("AlterTableStatementSegment"@.len() != "CreateIndexStatementSegment"@.len());
    assert("AlterTableStatementSegment"@.len() != "DropIndexStatementSegment"@.len());
    assert("AlterTableStatementSegment"@[0] != "CreateViewStatementSegment"@[0]);
    assert("AlterTableStatementSegment"@.len() != "DeleteStatementSegment"@.len());
    assert("AlterTableStatementSegment"@.len() != "UpdateStatementSegment"@.len());
    assert("AlterTableStatementSegment"@[0] != "CreateCastStatementSegment"@[0]);
    assert("AlterTableStatementSegment"@.len() != "DropCastStatementSegment"@.len());
    assert("AlterTableStatementSegment"@.len() != "CreateFunctionStatementSegment"@.len());
    assert("AlterTableStatementSegment"@.len() != "DropFunctionStatementSegment"@.len());
    assert("AlterTableStatementSegment"@.len() != "CreateModelStatementSegment"@.len());
    assert("AlterTableStatementSegment"@.len() != "DropModelStatementSegment"@.len());
    assert("AlterTableStatementSegment"@.len() != "DescribeStatementSegment"@.len());
    assert("AlterTableStatementSegment"@.len() != "UseStatementSegment"@.len());
    assert("AlterTableStatementSegment"@.len() != "ExplainStatementSegment"@.len());
    assert("AlterTableStatementSegment"@.len() != "CreateSequenceStatementSegment"@.len());
    assert("AlterTableStatementSegment"@.len() != "AlterSequenceStatementSegment"@.len());
    assert("AlterTableStatementSegment"@.len() != "DropSequenceStatementSegment"@.len());
    assert("AlterTableStatementSegment"@.len() != "CreateTriggerStatementSegment"@.len());
    assert("AlterTableStatementSegment"@.len() != "DropTriggerStatementSegment"@.len());
    assert("CreateSchemaStatementSegment"@.len() != "SetSchemaStatementSegment"@.len());
    assert("CreateSchemaStatementSegment"@.len() != "DropSchemaStatementSegment"@.len());
    assert("CreateSchemaStatementSegment"@.len() != "DropTypeStatementSegment"@.len());
    assert("CreateSchemaStatementSegment"@.len() != "CreateDatabaseStatementSegment"@.len());
    assert("CreateSchemaStatementSegment"@[0] != "DropDatabaseStatementSegment"@[0]);
    assert("CreateSchemaStatementSegment"@.len() != "CreateIndexStatementSegment"@.len());
    assert("CreateSchemaStatementSegment"@.len() != "DropIndexStatementSegment"@.len());
    assert("CreateSchemaStatementSegment"@.len() != "CreateViewStatementSegment"@.len());
    assert("CreateSchemaStatementSegment"@.len() != "DeleteStatementSegment"@.len());
    assert("CreateSchemaStatementSegment"@.len() != "UpdateStatementSegment"@.len());
    assert("CreateSchemaStatementSegment"@.len() != "CreateCastStatementSegment"@.len());
    assert("CreateSchemaStatementSegment"@.len() != "DropCastStatementSegment"@.len());
    assert("CreateSchemaStatementSegment"@.len() != "CreateFunctionStatementSegment"@.len());
    assert("CreateSchemaStatementSegment"@[0] != "DropFunctionStatementSegment"@[0]);
    assert("CreateSchemaStatementSegment"@.len() != "CreateModelStatementSegment"@.len());
    assert("CreateSchemaStatementSegment"@.len() != "DropModelStatementSegment"@.len());
    assert("CreateSchemaStatementSegment"@.len() != "DescribeStatementSegment"@.len());
    assert("CreateSchemaStatementSegment"@.len() != "UseStatementSegment"@.len());
    assert("CreateSchemaStatementSegment"@.len() != "ExplainStatementSegment"@.len());
    assert("CreateSchemaStatementSegment"@.len() != "CreateSequenceStatementSegment"@.len());
    assert("CreateSchemaStatementSegment"@.len() != "AlterSequenceStatementSegment"@.len());
    assert("CreateSchemaStatementSegment"@[0] != "DropSequenceStatementSegment"@[0]);
    assert("CreateSchemaStatementSegment"@.len() != "CreateTriggerStatementSegment"@.len());
    assert("CreateSchemaStatementSegment"@.len() != "DropTriggerStatementSegment"@.len());
    assert("SetSchemaStatementSegment"@.len() != "DropSchemaStatementSegment"@.len());
    assert("SetSchemaStatementSegment"@.len() != "DropTypeStatementSegment"@.len());
    assert("SetSchemaStatementSegment"@.len() != "CreateDatabaseStatementSegment"@.len());
    assert("SetSchemaStatementSegment"@.len() != "DropDatabaseStatementSegment"@.len());
    assert("SetSchemaStatementSegment"@.len() != "CreateIndexStatementSegment"@.len());
    assert("SetSchemaStatementSegment"@[0] != "DropIndexStatementSegment"@[0]);
    assert("SetSchemaStatementSegment"@.len() != "CreateViewStatementSegment"@.len());
    assert("SetSchemaStatementSegment"@.len() != "DeleteStatementSegment"@.len());
    assert("SetSchemaStatementSegment"@.len() != "UpdateStatementSegment"@.len());
    assert("SetSchemaStatementSegment"@.len() != "CreateCastStatementSegment"@.len());
    assert("SetSchemaStatementSegment"@.len() != "DropCastStatementSegment"@.len());
    assert("SetSchemaStatementSegment"@.len() != "CreateFunctionStatementSegment"@.len());
    assert("SetSchemaStatementSegment"@.len() != "DropFunctionStatementSegment"@.len());
    assert("SetSchemaStatementSegment"@.len() != "CreateModelStatementSegment"@.len());
    assert("SetSchemaStatementSegment"@[0] != "DropModelStatementSegment"@[0]);
    assert("SetSchemaStatementSegment"@.len() != "DescribeStatementSegment"@.len());
    assert("SetSchemaStatementSegment"@.len() != "UseStatementSegment"@.len());
    assert("SetSchemaStatementSegment"@.len() != "ExplainStatementSegment"@.len());
    assert("SetSchemaStatementSegment"@.len() != "CreateSequenceStatementSegment"@.len());
    assert("SetSchemaStatementSegment"@.len() != "AlterSequenceStatementSegment"@.len());
    assert("SetSchemaStatementSegment"@.len() != "DropSequenceStatementSegment"@.len());
    assert("SetSchemaStatementSegment"@.len() != "CreateTriggerStatementSegment"@.len());
    assert("SetSchemaStatementSegment"@.len() != "DropTriggerStatementSegment"@.len());
    assert("DropSchemaStatementSegment"@.len() != "DropTypeStatementSegment"@.len());
    assert("DropSchemaStatementSegment"@.len() != "CreateDatabaseStatementSegment"@.len());
    assert("DropSchemaStatementSegment"@.len() != "DropDatabaseStatementSegment"@.len());
    assert("DropSchemaStatementSegment"@.len() != "CreateIndexStatementSegment"@.len());
    assert("DropSchemaStatementSegment"@.len() != "DropIndexStatementSegment"@.len());
    assert("DropSchemaStatementSegment"@[0] != "CreateViewStatementSegment"@[0]);
    assert("DropSchemaStatementSegment"@.len() != "DeleteStatementSegment"@.len());
    assert("DropSchemaStatementSegment"@.len() != "UpdateStatementSegment"@.len());
    assert("DropSchemaStatementSegment"@[0] != "CreateCastStatementSegment"@[0]);
    assert("DropSchemaStatementSegment"@.len() != "DropCastStatementSegment"@.len());
    assert("DropSchemaStatementSegment"@.len() != "CreateFunctionStatementSegment"@.len());
    assert("DropSchemaStatementSegment"@.len() != "DropFunctionStatementSegment"@.len());
    assert("DropSchemaStatementSegment"@.len() != "CreateModelStatementSegment"@.len());
    assert("DropSchemaStatementSegment"@.len() != "DropModelStatementSegment"@.len());
    assert("DropSchemaStatementSegment"@.len() != "DescribeStatementSegment"@.len());
    assert("DropSchemaStatementSegment"@.len() != "UseStatementSegment"@.len());
    assert("DropSchemaStatementSegment"@.len() != "ExplainStatementSegment"@.len());
    assert("DropSchemaStatementSegment"@.len() != "CreateSequenceStatementSegment"@.len());
    assert("DropSchemaStatementSegment"@.len() != "AlterSequenceStatementSegment"@.len());
    assert("DropSchemaStatementSegment"@.len() != "DropSequenceStatementSegment"@.len());
    assert("DropSchemaStatementSegment"@.len() != "CreateTriggerStatementSegment"@.len());
    assert("DropSchemaStatementSegment"@.len() != "DropTriggerStatementSegment"@.len());
    assert("DropTypeStatementSegment"@.len() != "CreateDatabaseStatementSegment"@.len());
    assert("DropTypeStatementSegment"@.len() != "DropDatabaseStatementSegment"@.len());
    assert("DropTypeStatementSegment"@.len() != "CreateIndexStatementSegment"@.len());
    assert("DropTypeStatementSegment"@.len() != "DropIndexStatementSegment"@.len());
    assert("DropTypeStatementSegment"@.len() != "CreateViewStatementSegment"@.len());
    assert("DropTypeStatementSegment"@.len() != "DeleteStatementSegment"@.len());
    assert("DropTypeStatementSegment"@.len() != "UpdateStatementSegment"@.len());
    assert("DropTypeStatementSegment"@.len() != "CreateCastStatementSegment"@.len());
    assert("DropTypeStatementSegment"@[4] != "DropCastStatementSegment"@[4]);
    assert("DropTypeStatementSegment"@.len() != "CreateFunctionStatementSegment"@.len());
    assert("DropTypeStatementSegment"@.len() != "DropFunctionStatementSegment"@.len());
    assert("DropTypeStatementSegment"@.len() != "CreateModelStatementSegment"@.len());
    assert("DropTypeStatementSegment"@.len() != "DropModelStatementSegment"@.len());
    assert("DropTypeStatementSegment"@[1] != "DescribeStatementSegment"@[1]);
    assert("DropTypeStatementSegment"@.len() != "UseStatementSegment"@.len());
    assert("DropTypeStatementSegment"@.len() != "ExplainStatementSegment"@.len());
    assert("DropTypeStatementSegment"@.len() != "CreateSequenceStatementSegment"@.len());
    assert("DropTypeStatementSegment"@.len() != "AlterSequenceStatementSegment"@.len());
    assert("DropTypeStatementSegment"@.len() != "DropSequenceStatementSegment"@.len());
    assert("DropTypeStatementSegment"@.len() != "CreateTriggerStatementSegment"@.len());
    assert("DropTypeStatementSegment"@.len() != "DropTriggerStatementSegment"@.len());
    assert("CreateDatabaseStatementSegment"@.len() != "DropDatabaseStatementSegment"@.len());
    assert("CreateDatabaseStatementSegment"@.len() != "CreateIndexStatementSegment"@.len());
    assert("CreateDatabaseStatementSegment"@.len() != "DropIndexStatementSegment"@.len());
    assert("CreateDatabaseStatementSegment"@.len() != "CreateViewStatementSegment"@.len());
    assert("CreateDatabaseStatementSegment"@.len() != "DeleteStatementSegment"@.len());
    assert("CreateDatabaseStatementSegment"@.len() != "UpdateStatementSegment"@.len());
    assert("CreateDatabaseStatementSegment"@.len() != "CreateCastStatementSegment"@.len());
    assert("CreateDatabaseStatementSegment"@.len() != "DropCastStatementSegment"@.len());
    assert("CreateDatabaseStatementSegment"@[6] != "CreateFunctionStatementSegment"@[6]);
    assert("CreateDatabaseStatementSegment"@.len() != "DropFunctionStatementSegment"@.len());
    assert("CreateDatabaseStatementSegment"@.len() != "CreateModelStatementSegment"@.len());
    assert("CreateDatabaseStatementSegment"@.len() != "DropModelStatementSegment"@.len());
    assert("CreateDatabaseStatementSegment"@.len() != "DescribeStatementSegment"@.len());
    assert("CreateDatabaseStatementSegment"@.len() != "UseStatementSegment"@.len());
    assert("CreateDatabaseStatementSegment"@.len() != "ExplainStatementSegment"@.len());
    assert("CreateDatabaseStatementSegment"@[6] != "CreateSequenceStatementSegment"@[6]);
    assert("CreateDatabaseStatementSegment"@.len() != "AlterSequenceStatementSegment"@.len());
    assert("CreateDatabaseStatementSegment"@.len() != "DropSequenceStatementSegment"@.len());
    assert("CreateDatabaseStatementSegment"@.len() != "CreateTriggerStatementSegment"@.len());
    assert("CreateDatabaseStatementSegment"@.len() != "DropTriggerStatementSegment"@.len());
    assert("DropDatabaseStatementSegment"@.len() != "CreateIndexStatementSegment"@.len());
    assert("DropDatabaseStatementSegment"@.len() != "DropIndexStatementSegment"@.len());
    assert("DropDatabaseStatementSegment"@.len() != "CreateViewStatementSegment"@.len());
    assert("DropDatabaseStatementSegment"@.len() != "DeleteStatementSegment"@.len());
    assert("DropDatabaseStatementSegment"@.len() != "UpdateStatementSegment"@.len());
    assert("DropDatabaseStatementSegment"@.len() != "CreateCastStatementSegment"@.len());
    assert("DropDatabaseStatementSegment"@.len() != "DropCastStatementSegment"@.len());
    assert("DropDatabaseStatementSegment"@.len() != "CreateFunctionStatementSegment"@.len());
    assert("DropDatabaseStatementSegment"@[4] != "DropFunctionStatementSegment"@[4]);
    assert("DropDatabaseStatementSegment"@.len() != "CreateModelStatementSegment"@.len());
    assert("DropDatabaseStatementSegment"@.len() != "DropModelStatementSegment"@.len());
    assert("DropDatabaseStatementSegment"@.len() != "DescribeStatementSegment"@.len());
    assert("DropDatabaseStatementSegment"@.len() != "UseStatementSegment"@.len());
    assert("DropDatabaseStatementSegment"@.len() != "ExplainStatementSegment"@.len());
    assert("DropDatabaseStatementSegment"@.len() != "CreateSequenceStatementSegment"@.len());
    assert("DropDatabaseStatementSegment"@.len() != "AlterSequenceStatementSegment"@.len());
    assert("DropDatabaseStatementSegment"@[4] != "DropSequenceStatementSegment"@[4]);
    assert("DropDatabaseStatementSegment"@.len() != "CreateTriggerStatementSegment"@.len());
    assert("DropDatabaseStatementSegment"@.len() != "DropTriggerStatementSegment"@.len());
    assert("CreateIndexStatementSegment"@.len() != "DropIndexStatementSegment"@.len());
    assert("CreateIndexStatementSegment"@.len() != "CreateViewStatementSegment"@.len());
    assert("CreateIndexStatementSegment"@.len() != "DeleteStatementSegment"@.len());
    assert("CreateIndexStatementSegment"@.len() != "UpdateStatementSegment"@.len());
    assert("CreateIndexStatementSegment"@.len() != "CreateCastStatementSegment"@.len());
    assert("CreateIndexStatementSegment"@.len() != "DropCastStatementSegment"@.len());
    assert("CreateIndexStatementSegment"@.len() != "CreateFunctionStatementSegment"@.len());
    assert("CreateIndexStatementSegment"@.len() != "DropFunctionStatementSegment"@.len());
    assert("CreateIndexStatementSegment"@[6] != "CreateModelStatementSegment"@[6]);
    assert("CreateIndexStatementSegment"@.len() != "DropModelStatementSegment"@.len());
    assert("CreateIndexStatementSegment"@.len() != "DescribeStatementSegment"@.len());
    assert("CreateIndexStatementSegment"@.len() != "UseStatementSegment"@.len());
    assert("CreateIndexStatementSegment"@.len() != "ExplainStatementSegment"@.len());
    assert("CreateIndexStatementSegment"@.len() != "CreateSequenceStatementSegment"@.len());
    assert("CreateIndexStatementSegment"@.len() != "AlterSequenceStatementSegment"@.len());
    assert("CreateIndexStatementSegment"@.len() != "DropSequenceStatementSegment"@.len());
    assert("CreateIndexStatementSegment"@.len() != "CreateTriggerStatementSegment"@.len());
    assert("CreateIndexStatementSegment"@[0] != "DropTriggerStatementSegment"@[0]);
    assert("DropIndexStatementSegment"@.len() != "CreateViewStatementSegment"@.len());
    assert("DropIndexStatementSegment"@.len() != "DeleteStatementSegment"@.len());
    assert("DropIndexStatementSegment"@.len() != "UpdateStatementSegment"@.len());
    assert("DropIndexStatementSegment"@.len() != "CreateCastStatementSegment"@.len());
    assert("DropIndexStatementSegment"@.len() != "DropCastStatementSegment"@.len());
    assert("DropIndexStatementSegment"@.len() != "CreateFunctionStatementSegment"@.len());
    assert("DropIndexStatementSegment"@.len() != "DropFunctionStatementSegment"@.len());
    assert("DropIndexStatementSegment"@.len() != "CreateModelStatementSegment"@.len());
    assert("DropIndexStatementSegment"@[4] != "DropModelStatementSegment"@[4]);
    assert("DropIndexStatementSegment"@.len() != "DescribeStatementSegment"@.len());
    assert("DropIndexStatementSegment"@.len() != "UseStatementSegment"@.len());
    assert("DropIndexStatementSegment"@.len() != "ExplainStatementSegment"@.len());
    assert("DropIndexStatementSegment"@.len() != "CreateSequenceStatementSegment"@.len());
    assert("DropIndexStatementSegment"@.len() != "AlterSequenceStatementSegment"@.len());
    assert("DropIndexStatementSegment"@.len() != "DropSequenceStatementSegment"@.len());
    assert("DropIndexStatementSegment"@.len() != "CreateTriggerStatementSegment"@.len());
    assert("DropIndexStatementSegment"@.len() != "DropTriggerStatementSegment"@.len());
    assert("CreateViewStatementSegment"@.len() != "DeleteStatementSegment"@.len());
    assert("CreateViewStatementSegment"@.len() != "UpdateStatementSegment"@.len());
    assert("CreateViewStatementSegment"@[6] != "CreateCastStatementSegment"@[6]);
    assert("CreateViewStatementSegment"@.len() != "DropCastStatementSegment"@.len());
    assert("CreateViewStatementSegment"@.len() != "CreateFunctionStatementSegment"@.len());
    assert("CreateViewStatementSegment"@.len() != "DropFunctionStatementSegment"@.len());
    assert("CreateViewStatementSegment"@.len() != "CreateModelStatementSegment"@.len());
    assert("CreateViewStatementSegment"@.len() != "DropModelStatementSegment"@.len());
    assert("CreateViewStatementSegment"@.len() != "DescribeStatementSegment"@.len());
    assert("CreateViewStatementSegment"@.len() != "UseStatementSegment"@.len());
    assert("CreateViewStatementSegment"@.len() != "ExplainStatementSegment"@.len());
    assert("CreateViewStatementSegment"@.len() != "CreateSequenceStatementSegment"@.len());
    assert("CreateViewStatementSegment"@.len() != "AlterSequenceStatementSegment"@.len());
    assert("CreateViewStatementSegment"@.len() != "DropSequenceStatementSegment"@.len());
    assert("CreateViewStatementSegment"@.len() != "CreateTriggerStatementSegment"@.len());
    assert("CreateViewStatementSegment"@.len() != "DropTriggerStatementSegment"@.len());
    assert("DeleteStatementSegment"@[0] != "UpdateStatementSegment"@[0]);
    assert("DeleteStatementSegment"@.len() != "CreateCastStatementSegment"@.len());
    assert("DeleteStatementSegment"@.len() != "DropCastStatementSegment"@.len());
    assert("DeleteStatementSegment"@.len() != "CreateFunctionStatementSegment"@.len());
    assert("DeleteStatementSegment"@.len() != "DropFunctionStatementSegment"@.len());
    assert("DeleteStatementSegment"@.len() != "CreateModelStatementSegment"@.len());
    assert("DeleteStatementSegment"@.len() != "DropModelStatementSegment"@.len());
    assert("DeleteStatementSegment"@.len() != "DescribeStatementSegment"@.len());
    assert("DeleteStatementSegment"@.len() != "UseStatementSegment"@.len());
    assert("DeleteStatementSegment"@.len() != "ExplainStatementSegment"@.len());
    assert("DeleteStatementSegment"@.len() != "CreateSequenceStatementSegment"@.len());
    assert("DeleteStatementSegment"@.len() != "AlterSequenceStatementSegment"@.len());
    assert("DeleteStatementSegment"@.len() != "DropSequenceStatementSegment"@.len());
    assert("DeleteStatementSegment"@.len() != "CreateTriggerStatementSegment"@.len());
    assert("DeleteStatementSegment"@.len() != "DropTriggerStatementSegment"@.len());
    assert("UpdateStatementSegment"@.len() != "CreateCastStatementSegment"@.len());
    assert("UpdateStatementSegment"@.len() != "DropCastStatementSegment"@.len());
    assert("UpdateStatementSegment"@.len() != "CreateFunctionStatementSegment"@.len());
    assert("UpdateStatementSegment"@.len() != "DropFunctionStatementSegment"@.len());
    assert("UpdateStatementSegment"@.len() != "CreateModelStatementSegment"@.len());
    assert("UpdateStatementSegment"@.len() != "DropModelStatementSegment"@.len());
    assert("UpdateStatementSegment"@.len() != "DescribeStatementSegment"@.len());
    assert("UpdateStatementSegment"@.len() != "UseStatementSegment"@.len());
    assert("UpdateStatementSegment"@.len() != "ExplainStatementSegment"@.len());
    assert("UpdateStatementSegment"@.len() != "CreateSequenceStatementSegment"@.len());
    assert("UpdateStatementSegment"@.len() != "AlterSequenceStatementSegment"@.len());
    assert("UpdateStatementSegment"@.len() != "DropSequenceStatementSegment"@.len());
    assert("UpdateStatementSegment"@.len() != "CreateTriggerStatementSegment"@.len());
    assert("UpdateStatementSegment"@.len() != "DropTriggerStatementSegment"@.len());
    assert("CreateCastStatementSegment"@.len() != "DropCastStatementSegment"@.len());
    assert("CreateCastStatementSegment"@.len() != "CreateFunctionStatementSegment"@.len());
    assert("CreateCastStatementSegment"@.len() != "DropFunctionStatementSegment"@.len());
    assert("CreateCastStatementSegment"@.len() != "CreateModelStatementSegment"@.len());
    assert("CreateCastStatementSegment"@.len() != "DropModelStatementSegment"@.len());
    assert("CreateCastStatementSegment"@.len() != "DescribeStatementSegment"@.len());
    assert("CreateCastStatementSegment"@.len() != "UseStatementSegment"@.len());
    assert("CreateCastStatementSegment"@.len() != "ExplainStatementSegment"@.len());
    assert("CreateCastStatementSegment"@.len() != "CreateSequenceStatementSegment"@.len());
    assert("CreateCastStatementSegment"@.len() != "AlterSequenceStatementSegment"@.len());
    assert("CreateCastStatementSegment"@.len() != "DropSequenceStatementSegment"@.len());
    assert("CreateCastStatementSegment"@.len() != "CreateTriggerStatementSegment"@.len());
    assert("CreateCastStatementSegment"@.len() != "DropTriggerStatementSegment"@.len());
    assert("DropCastStatementSegment"@.len() != "CreateFunctionStatementSegment"@.len());
    assert("DropCastStatementSegment"@.len() != "DropFunctionStatementSegment"@.len());
    assert("DropCastStatementSegment"@.len() != "CreateModelStatementSegment"@.len());
    assert("DropCastStatementSegment"@.len() != "DropModelStatementSegment"@.len());
    assert("DropCastStatementSegment"@[1] != "DescribeStatementSegment"@[1]);
    assert("DropCastStatementSegment"@.len() != "UseStatementSegment"@.len());
    assert("DropCastStatementSegment"@.len() != "ExplainStatementSegment"@.len());
    assert("DropCastStatementSegment"@.len() != "CreateSequenceStatementSegment"@.len());
    assert("DropCastStatementSegment"@.len() != "AlterSequenceStatementSegment"@.len());
    assert("DropCastStatementSegment"@.len() != "DropSequenceStatementSegment"@.len());
    assert("DropCastStatementSegment"@.len() != "CreateTriggerStatementSegment"@.len());
    assert("DropCastStatementSegment"@.len() != "DropTriggerStatementSegment"@.len());
    assert("CreateFunctionStatementSegment"@.len() != "DropFunctionStatementSegment"@.len());
    assert("CreateFunctionStatementSegment"@.len() != "CreateModelStatementSegment"@.len());
    assert("CreateFunctionStatementSegment"@.len() != "DropModelStatementSegment"@.len());
    assert("CreateFunctionStatementSegment"@.len() != "DescribeStatementSegment"@.len());
    assert("CreateFunctionStatementSegment"@.len() != "UseStatementSegment"@.len());
    assert("CreateFunctionStatementSegment"@.len() != "ExplainStatementSegment"@.len());
    assert("CreateFunctionStatementSegment"@[6] != "CreateSequenceStatementSegment"@[6]);
    assert("CreateFunctionStatementSegment"@.len() != "AlterSequenceStatementSegment"@.len());
    assert("CreateFunctionStatementSegment"@.len() != "DropSequenceStatementSegment"@.len());
    assert("CreateFunctionStatementSegment"@.len() != "CreateTriggerStatementSegment"@.len());
    assert("CreateFunctionStatementSegment"@.len() != "DropTriggerStatementSegment"@.len());
    assert("DropFunctionStatementSegment"@.len() != "CreateModelStatementSegment"@.len());
    assert("DropFunctionStatementSegment"@.len() != "DropModelStatementSegment"@.len());
    assert("DropFunctionStatementSegment"@.len() != "DescribeStatementSegment"@.len());
    assert("DropFunctionStatementSegment"@.len() != "UseStatementSegment"@.len());
    assert("DropFunctionStatementSegment"@.len() != "ExplainStatementSegment"@.len());
    assert("DropFunctionStatementSegment"@.len() != "CreateSequenceStatementSegment"@.len());
    assert("DropFunctionStatementSegment"@.len() != "AlterSequenceStatementSegment"@.len());
    assert("DropFunctionStatementSegment"@[4] != "DropSequenceStatementSegment"@[4]);
    assert("DropFunctionStatementSegment"@.len() != "CreateTriggerStatementSegment"@.len());
    assert("DropFunctionStatementSegment"@.len() != "DropTriggerStatementSegment"@.len());
    assert("CreateModelStatementSegment"@.len() != "DropModelStatementSegment"@.len());
    assert("CreateModelStatementSegment"@.len() != "DescribeStatementSegment"@.len());
    assert("CreateModelStatementSegment"@.len() != "UseStatementSegment"@.len());
    assert("CreateModelStatementSegment"@.len() != "ExplainStatementSegment"@.len());
    assert("CreateModelStatementSegment"@.len() != "CreateSequenceStatementSegment"@.len());
    assert("CreateModelStatementSegment"@.len() != "AlterSequenceStatementSegment"@.len());
    assert("CreateModelStatementSegment"@.len() != "DropSequenceStatementSegment"@.len());
    assert("CreateModelStatementSegment"@.len() != "CreateTriggerStatementSegment"@.len());
    assert("CreateModelStatementSegment"@[0] != "DropTriggerStatementSegment"@[0]);
    assert("DropModelStatementSegment"@.len() != "DescribeStatementSegment"@.len());
    assert("DropModelStatementSegment"@.len() != "UseStatementSegment"@.len());
    assert("DropModelStatementSegment"@.len() != "ExplainStatementSegment"@.len());
    assert("DropModelStatementSegment"@.len() != "CreateSequenceStatementSegment"@.len());
    assert("DropModelStatementSegment"@.len() != "AlterSequenceStatementSegment"@.len());
    assert("DropModelStatementSegment"@.len() != "DropSequenceStatementSegment"@.len());
    assert("DropModelStatementSegment"@.len() != "CreateTriggerStatementSegment"@.len());
    assert("DropModelStatementSegment"@.len() != "DropTriggerStatementSegment"@.len());
    assert("DescribeStatementSegment"@.len() != "UseStatementSegment"@.len());
    assert("DescribeStatementSegment"@.len() != "ExplainStatementSegment"@.len());
    assert("DescribeStatementSegment"@.len() != "CreateSequenceStatementSegment"@.len());
    assert("DescribeStatementSegment"@.len() != "AlterSequenceStatementSegment"@.len());
    assert("DescribeStatementSegment"@.len() != "DropSequenceStatementSegment"@.len());
    assert("DescribeStatementSegment"@.len() != "CreateTriggerStatementSegment"@.len());
    assert("DescribeStatementSegment"@.len() != "DropTriggerStatementSegment"@.len());
    assert("UseStatementSegment"@.len() != "ExplainStatementSegment"@.len());
    assert("UseStatementSegment"@.len() != "CreateSequenceStatementSegment"@.len());
    assert("UseStatementSegment"@.len() != "AlterSequenceStatementSegment"@.len());
    assert("UseStatementSegment"@.len() != "DropSequenceStatementSegment"@.len());
    assert("UseStatementSegment"@.len() != "CreateTriggerStatementSegment"@.len());
    assert("UseStatementSegment"@.len() != "DropTriggerStatementSegment"@.len());
    assert("ExplainStatementSegment"@.len() != "CreateSequenceStatementSegment"@.len());
    assert("ExplainStatementSegment"@.len() != "AlterSequenceStatementSegment"@.len());
    assert("ExplainStatementSegment"@.len() != "DropSequenceStatementSegment"@.len());
    assert("ExplainStatementSegment"@.len() != "CreateTriggerStatementSegment"@.len());
    assert("ExplainStatementSegment"@.len() != "DropTriggerStatementSegment"@.len());
    assert("CreateSequenceStatementSegment"@.len() != "AlterSequenceStatementSegment"@.len());
    assert("CreateSequenceStatementSegment"@.len() != "DropSequenceStatementSegment"@.len());
    assert("CreateSequenceStatementSegment"@.len() != "CreateTriggerStatementSegment"@.len());
    assert("CreateSequenceStatementSegment"@.len() != "DropTriggerStatementSegment"@.len());
    assert("AlterSequenceStatementSegment"@.len() != "DropSequenceStatementSegment"@.len());
    assert("AlterSequenceStatementSegment"@[0] != "CreateTriggerStatementSegment"@[0]);
    assert("AlterSequenceStatementSegment"@.len() != "DropTriggerStatementSegment"@.len());
    assert("DropSequenceStatementSegment"@.len() != "CreateTriggerStatementSegment"@.len());
    assert("DropSequenceStatementSegment"@.len() != "DropTriggerStatementSegment"@.len());
    assert("CreateTriggerStatementSegment"@.len() != "DropTriggerStatementSegment"@.len());
    assert(statement_kinds() =~= seq!["SelectableGrammar"@, "MergeStatementSegment"@, "InsertStatementSegment"@, "TransactionStatementSegment"@, "DropTableStatementSegment"@, "DropViewStatementSegment"@, "CreateUserStatementSegment"@, "DropUserStatementSegment"@, "TruncateStatementSegment"@, "AccessStatementSegment"@, "CreateTableStatementSegment"@, "CreateRoleStatementSegment"@, "DropRoleStatementSegment"@, "AlterTableStatementSegment"@, "CreateSchemaStatementSegment"@, "SetSchemaStatementSegment"@, "DropSchemaStatementSegment"@, "DropTypeStatementSegment"@, "CreateDatabaseStatementSegment"@, "DropDatabaseStatementSegment"@, "CreateIndexStatementSegment"@, "DropIndexStatementSegment"@, "CreateViewStatementSegment"@, "DeleteStatementSegment"@, "UpdateStatementSegment"@, "CreateCastStatementSegment"@, "DropCastStatementSegment"@, "CreateFunctionStatementSegment"@, "DropFunctionStatementSegment"@, "CreateModelStatementSegment"@, "DropModelStatementSegment"@, "DescribeStatementSegment"@, "UseStatementSegment"@, "ExplainStatementSegment"@, "CreateSequenceStatementSegment"@, "AlterSequenceStatementSegment"@, "DropSequenceStatementSegment"@, "CreateTriggerStatementSegment"@, "DropTriggerStatementSegment"@]);
}

proof fn lemma_part_3_sets_join_type_keywords_grammar(m: Map<Seq<char>, ElementView>)
    ensures
        ansi_library_part_3(m).dom().contains("JoinTypeKeywordsGrammar"@),
        ansi_library_part_3(m)["JoinTypeKeywordsGrammar"@] == join_type_keywords_grammar_element(),
{
    reveal_strlit("JoinTypeKeywordsGrammar");
    reveal_strlit("DropBehaviorGrammar");
    assert("JoinTypeKeywordsGrammar"@.len() != "DropBehaviorGrammar"@.len());
    reveal_strlit("ExtendedNaturalJoinKeywordsGrammar");
    assert("JoinTypeKeywordsGrammar"@.len() != "ExtendedNaturalJoinKeywordsGrammar"@.len());
    reveal_strlit("JoinKeywordsGrammar");
    assert("JoinTypeKeywordsGrammar"@.len() != "JoinKeywordsGrammar"@.len());
    reveal_strlit("NaturalJoinKeywordsGrammar");
    assert("JoinTypeKeywordsGrammar"@.len() != "NaturalJoinKeywordsGrammar"@.len());
    reveal_strlit("NestedJoinGrammar");
    assert("JoinTypeKeywordsGrammar"@.len() != "NestedJoinGrammar"@.len());
    reveal_strlit("ReferentialActionGrammar");
    assert("JoinTypeKeywordsGrammar"@.len() != "ReferentialActionGrammar"@.len());
}

proof fn lemma_part_4_keeps_join_type_keywords_grammar(m: Map<Seq<char>, ElementView>)
    requires
        m.dom().contains("JoinTypeKeywordsGrammar"@),
    ensures
        ansi_library_part_4(m).dom().contains("JoinTypeKeywordsGrammar"@),
        ansi_library_part_4(m)["JoinTypeKeywordsGrammar"@] == m["JoinTypeKeywordsGrammar"@],
{
    reveal_strlit("JoinTypeKeywordsGrammar");
    reveal_strlit("AlterTableDropColumnGrammar");
    assert("JoinTypeKeywordsGrammar"@.len() != "AlterTableDropColumnGrammar"@.len());
    reveal_strlit("AlterTableOptionsGrammar");
    assert("JoinTypeKeywordsGrammar"@.len() != "AlterTableOptionsGrammar"@.len());
    reveal_strlit("ColumnConstraintDefaultGrammar");
    assert("JoinTypeKeywordsGrammar"@.len() != "ColumnConstraintDefaultGrammar"@.len());
    reveal_strlit("ColumnReferenceSegment");
    assert("JoinTypeKeywordsGrammar"@.len() != "ColumnReferenceSegment"@.len());
    reveal_strlit("CubeFunctionNameSegment");
    assert("JoinTypeKeywordsGrammar"@[0] != "CubeFunctionNameSegment"@[0]);
    reveal_strlit("CubeRollupClauseSegment");
    assert("JoinTypeKeywordsGrammar"@[0] != "CubeRollupClauseSegment"@[0]);
    reveal_strlit("DateTimeFunctionContentsSegment");
    assert("JoinTypeKeywordsGrammar"@.len() != "DateTimeFunctionContentsSegment"@.len());
    reveal_strlit("DefaultValuesGrammar");
    assert("JoinTypeKeywordsGrammar"@.len() != "DefaultValuesGrammar"@.len());
    reveal_strlit("ExpressionSegment");
    assert("JoinTypeKeywordsGrammar"@.len() != "ExpressionSegment"@.len());
    reveal_strlit("FetchClauseSegment");
    assert("JoinTypeKeywordsGrammar"@.len() != "FetchClauseSegment"@.len());
    reveal_strlit("FileSegment");
    assert("JoinTypeKeywordsGrammar"@.len() != "FileSegment"@.len());
    reveal_strlit("FunctionSegment");
    assert("JoinTypeKeywordsGrammar"@.len() != "FunctionSegment"@.len());
    reveal_strlit("GroupingExpressionList");
    assert("JoinTypeKeywordsGrammar"@.len() != "GroupingExpressionList"@.len());
    reveal_strlit("GroupingSetsClauseSegment");
    assert("JoinTypeKeywordsGrammar"@.len() != "GroupingSetsClauseSegment"@.len());
    reveal_strlit("HavingClauseSegment");
    assert("JoinTypeKeywordsGrammar"@.len() != "HavingClauseSegment"@.len());
    reveal_strlit("LimitClauseSegment");
    assert("JoinTypeKeywordsGrammar"@.len() != "LimitClauseSegment"@.len());
    reveal_strlit("NamedWindowExpressionSegment");
    assert("JoinTypeKeywordsGrammar"@.len() != "NamedWindowExpressionSegment"@.len());
    reveal_strlit("ObjectReferenceDelimiterGrammar");
    assert("JoinTypeKeywordsGrammar"@.len() != "ObjectReferenceDelimiterGrammar"@.len());
    reveal_strlit("ObjectReferenceTerminatorGrammar");
    assert("JoinTypeKeywordsGrammar"@.len() != "ObjectReferenceTerminatorGrammar"@.len());
    reveal_strlit("PathSegment");
    assert("JoinTypeKeywordsGrammar"@.len() != "PathSegment"@.len());
    reveal_strlit("ReferenceDefinitionGrammar");
    assert("JoinTypeKeywordsGrammar"@.len() != "ReferenceDefinitionGrammar"@.len());
    reveal_strlit("RollupFunctionNameSegment");
    assert("JoinTypeKeywordsGrammar"@.len() != "RollupFunctionNameSegment"@.len());
    reveal_strlit("SetClauseSegment");
    assert("JoinTypeKeywordsGrammar"@.len() != "SetClauseSegment"@.len());
    reveal_strlit("TrimParametersGrammar");
    assert("JoinTypeKeywordsGrammar"@.len() != "TrimParametersGrammar"@.len());
    reveal_strlit("WildcardIdentifierSegment");
    assert("JoinTypeKeywordsGrammar"@.len() != "WildcardIdentifierSegment"@.len());
}

proof fn lemma_part_5_keeps_join_type_keywords_grammar(m: Map<Seq<char>, ElementView>)
    requires
        m.dom().contains("JoinTypeKeywordsGrammar"@),
    ensures
        ansi_library_part_5(m).dom().contains("JoinTypeKeywordsGrammar"@),
        ansi_library_part_5(m)["JoinTypeKeywordsGrammar"@] == m["JoinTypeKeywordsGrammar"@],
{
    reveal_strlit("JoinTypeKeywordsGrammar");
    reveal_strlit("AlterSequenceOptionsSegment");
    assert("JoinTypeKeywordsGrammar"@.len() != "AlterSequenceOptionsSegment"@.len());
    reveal_strlit("CTEColumnList");
    assert("JoinTypeKeywordsGrammar"@.len() != "CTEColumnList"@.len());
    reveal_strlit("CTEDefinitionSegment");
    assert("JoinTypeKeywordsGrammar"@.len() != "CTEDefinitionSegment"@.len());
    reveal_strlit("ColumnConstraintSegment");
    assert("JoinTypeKeywordsGrammar"@[0] != "ColumnConstraintSegment"@[0]);
    reveal_strlit("ColumnDefinitionSegment");
    assert("JoinTypeKeywordsGrammar"@[0] != "ColumnDefinitionSegment"@[0]);
    reveal_strlit("CommentClauseSegment");
    assert("JoinTypeKeywordsGrammar"@.len() != "CommentClauseSegment"@.len());
    reveal_strlit("ExtensionReferenceSegment");
    assert("JoinTypeKeywordsGrammar"@.len() != "ExtensionReferenceSegment"@.len());
    reveal_strlit("FrameClauseSegment");
    assert("JoinTypeKeywordsGrammar"@.len() != "FrameClauseSegment"@.len());
    reveal_strlit("FunctionDefinitionGrammar");
    assert("JoinTypeKeywordsGrammar"@.len() != "FunctionDefinitionGrammar"@.len());
    reveal_strlit("GroupByClauseSegment");
    assert("JoinTypeKeywordsGrammar"@.len() != "GroupByClauseSegment"@.len());
    reveal_strlit("MergeDeleteClauseSegment");
    assert("JoinTypeKeywordsGrammar"@.len() != "MergeDeleteClauseSegment"@.len());
    reveal_strlit("MergeInsertClauseSegment");
    assert("JoinTypeKeywordsGrammar"@.len() != "MergeInsertClauseSegment"@.len());
    reveal_strlit("MergeMatchSegment");
    assert("JoinTypeKeywordsGrammar"@.len() != "MergeMatchSegment"@.len());
    reveal_strlit("MergeMatchedClauseSegment");
    assert("JoinTypeKeywordsGrammar"@.len() != "MergeMatchedClauseSegment"@.len());
    reveal_strlit("MergeNotMatchedClauseSegment");
    assert("JoinTypeKeywordsGrammar"@.len() != "MergeNotMatchedClauseSegment"@.len());
    reveal_strlit("MergeUpdateClauseSegment");
    assert("JoinTypeKeywordsGrammar"@.len() != "MergeUpdateClauseSegment"@.len());
    reveal_strlit("RoleReferenceSegment");
    assert("JoinTypeKeywordsGrammar"@.len() != "RoleReferenceSegment"@.len());
    reveal_strlit("SchemaReferenceSegment");
    assert("JoinTypeKeywordsGrammar"@.len() != "SchemaReferenceSegment"@.len());
    reveal_strlit("SetClauseListSegment");
    assert("JoinTypeKeywordsGrammar"@.len() != "SetClauseListSegment"@.len());
    reveal_strlit("SingleIdentifierListSegment");
    assert("JoinTypeKeywordsGrammar"@.len() != "SingleIdentifierListSegment"@.len());
    reveal_strlit("TableEndClauseSegment");
    assert("JoinTypeKeywordsGrammar"@.len() != "TableEndClauseSegment"@.len());
    reveal_strlit("TablespaceReferenceSegment");
    assert("JoinTypeKeywordsGrammar"@.len() != "TablespaceReferenceSegment"@.len());
    reveal_strlit("TagReferenceSegment");
    assert("JoinTypeKeywordsGrammar"@.len() != "TagReferenceSegment"@.len());
    reveal_strlit("WithCompoundNonSelectStatementSegment");
    assert("JoinTypeKeywordsGrammar"@.len() != "WithCompoundNonSelectStatementSegment"@.len());
    reveal_strlit("WithCompoundStatementSegment");
    assert("JoinTypeKeywordsGrammar"@.len() != "WithCompoundStatementSegment"@.len());
}

proof fn lemma_part_6_keeps_join_type_keywords_grammar(m: Map<Seq<char>, ElementView>)
    requires
        m.dom().contains("JoinTypeKeywordsGrammar"@),
    ensures
        ansi_library_part_6(m).dom().contains("JoinTypeKeywordsGrammar"@),
        ansi_library_part_6(m)["JoinTypeKeywordsGrammar"@] == m["JoinTypeKeywordsGrammar"@],
{
    reveal_strlit("JoinTypeKeywordsGrammar");
    reveal_strlit("CollationReferenceSegment");
    assert("JoinTypeKeywordsGrammar"@.len() != "CollationReferenceSegment"@.len());
    reveal_strlit("CreateSequenceOptionsSegment");
    assert("JoinTypeKeywordsGrammar"@.len() != "CreateSequenceOptionsSegment"@.len());
    reveal_strlit("CreateSequenceStatementSegment");
    assert("JoinTypeKeywordsGrammar"@.len() != "CreateSequenceStatementSegment"@.len());
    reveal_strlit("CreateTriggerStatementSegment");
    assert("JoinTypeKeywordsGrammar"@.len() != "CreateTriggerStatementSegment"@.len());
    reveal_strlit("DatabaseReferenceSegment");
    assert("JoinTypeKeywordsGrammar"@.len() != "DatabaseReferenceSegment"@.len());
    reveal_strlit("DescribeStatementSegment");
    assert("JoinTypeKeywordsGrammar"@.len() != "DescribeStatementSegment"@.len());
    reveal_strlit("DropModelStatementSegment");
    assert("JoinTypeKeywordsGrammar"@.len() != "DropModelStatementSegment"@.len());
    reveal_strlit("DropTriggerStatementSegment");
    assert("JoinTypeKeywordsGrammar"@.len() != "DropTriggerStatementSegment"@.len());
    reveal_strlit("ExplainStatementSegment");
    assert("JoinTypeKeywordsGrammar"@[0] != "ExplainStatementSegment"@[0]);
    reveal_strlit("IndexReferenceSegment");
    assert("JoinTypeKeywordsGrammar"@.len() != "IndexReferenceSegment"@.len());
    reveal_strlit("JoinClauseSegment");
    assert("JoinTypeKeywordsGrammar"@.len() != "JoinClauseSegment"@.len());
    reveal_strlit("JoinOnConditionSegment");
    assert("JoinTypeKeywordsGrammar"@.len() != "JoinOnConditionSegment"@.len());
    reveal_strlit("NamedWindowSegment");
    assert("JoinTypeKeywordsGrammar"@.len() != "NamedWindowSegment"@.len());
    reveal_strlit("OverClauseSegment");
    assert("JoinTypeKeywordsGrammar"@.len() != "OverClauseSegment"@.len());
    reveal_strlit("PartitionClauseSegment");
    assert("JoinTypeKeywordsGrammar"@.len() != "PartitionClauseSegment"@.len());
    reveal_strlit("SamplingExpressionSegment");
    assert("JoinTypeKeywordsGrammar"@.len() != "SamplingExpressionSegment"@.len());
    reveal_strlit("SequenceReferenceSegment");
    assert("JoinTypeKeywordsGrammar"@.len() != "SequenceReferenceSegment"@.len());
    reveal_strlit("TableConstraintSegment");
    assert("JoinTypeKeywordsGrammar"@.len() != "TableConstraintSegment"@.len());
    reveal_strlit("TableExpressionSegment");
    assert("JoinTypeKeywordsGrammar"@.len() != "TableExpressionSegment"@.len());
    reveal_strlit("TriggerReferenceSegment");
    assert("JoinTypeKeywordsGrammar"@[0] != "TriggerReferenceSegment"@[0]);
    reveal_strlit("UseStatementSegment");
    assert("JoinTypeKeywordsGrammar"@.len() != "UseStatementSegment"@.len());
    reveal_strlit("WindowSpecificationSegment");
    assert("JoinTypeKeywordsGrammar"@.len() != "WindowSpecificationSegment"@.len());
}

proof fn lemma_part_7_keeps_join_type_keywords_grammar(m: Map<Seq<char>, ElementView>)
    requires
        m.dom().contains("JoinTypeKeywordsGrammar"@),
    ensures
        ansi_library_part_7(m).dom().contains("JoinTypeKeywordsGrammar"@),
        ansi_library_part_7(m)["JoinTypeKeywordsGrammar"@] == m["JoinTypeKeywordsGrammar"@],
{
    reveal_strlit("JoinTypeKeywordsGrammar");
    reveal_strlit("AccessStatementSegment");
    assert("JoinTypeKeywordsGrammar"@.len() != "AccessStatementSegment"@.len());
    reveal_strlit("AlterSequenceStatementSegment");
    assert("JoinTypeKeywordsGrammar"@.len() != "AlterSequenceStatementSegment"@.len());
    reveal_strlit("AlterTableStatementSegment");
    assert("JoinTypeKeywordsGrammar"@.len() != "AlterTableStatementSegment"@.len());
    reveal_strlit("CreateCastStatementSegment");
    assert("JoinTypeKeywordsGrammar"@.len() != "CreateCastStatementSegment"@.len());
    reveal_strlit("CreateDatabaseStatementSegment");
    assert("JoinTypeKeywordsGrammar"@.len() != "CreateDatabaseStatementSegment"@.len());
    reveal_strlit("CreateFunctionStatementSegment");
    assert("JoinTypeKeywordsGrammar"@.len() != "CreateFunctionStatementSegment"@.len());
    reveal_strlit("CreateIndexStatementSegment");
    assert("JoinTypeKeywordsGrammar"@.len() != "CreateIndexStatementSegment"@.len());
    reveal_strlit("CreateModelStatementSegment");
    assert("JoinTypeKeywordsGrammar"@.len() != "CreateModelStatementSegment"@.len());
    reveal_strlit("CreateRoleStatementSegment");
    assert("JoinTypeKeywordsGrammar"@.len() != "CreateRoleStatementSegment"@.len());
    reveal_strlit("CreateTableStatementSegment");
    assert("JoinTypeKeywordsGrammar"@.len() != "CreateTableStatementSegment"@.len());
    reveal_strlit("CreateViewStatementSegment");
    assert("JoinTypeKeywordsGrammar"@.len() != "CreateViewStatementSegment"@.len());
    reveal_strlit("DeleteStatementSegment");
    assert("JoinTypeKeywordsGrammar"@.len() != "DeleteStatementSegment"@.len());
    reveal_strlit("DropCastStatementSegment");
    assert("JoinTypeKeywordsGrammar"@.len() != "DropCastStatementSegment"@.len());
    reveal_strlit("DropDatabaseStatementSegment");
    assert("JoinTypeKeywordsGrammar"@.len() != "DropDatabaseStatementSegment"@.len());
    reveal_strlit("DropFunctionStatementSegment");
    assert("JoinTypeKeywordsGrammar"@.len() != "DropFunctionStatementSegment"@.len());
    reveal_strlit("DropIndexStatementSegment");
    assert("JoinTypeKeywordsGrammar"@.len() != "DropIndexStatementSegment"@.len());
    reveal_strlit("DropRoleStatementSegment");
    assert("JoinTypeKeywordsGrammar"@.len() != "DropRoleStatementSegment"@.len());
    reveal_strlit("DropSchemaStatementSegment");
    assert("JoinTypeKeywordsGrammar"@.len() != "DropSchemaStatementSegment"@.len());
    reveal_strlit("DropSequenceStatementSegment");
    assert("JoinTypeKeywordsGrammar"@.len() != "DropSequenceStatementSegment"@.len());
    reveal_strlit("DropTypeStatementSegment");
    assert("JoinTypeKeywordsGrammar"@.len() != "DropTypeStatementSegment"@.len());
    reveal_strlit("FunctionParameterListGrammar");
    assert("JoinTypeKeywordsGrammar"@.len() != "FunctionParameterListGrammar"@.len());
    reveal_strlit("InsertStatementSegment");
    assert("JoinTypeKeywordsGrammar"@.len() != "InsertStatementSegment"@.len());
    reveal_strlit("SetSchemaStatementSegment");
    assert("JoinTypeKeywordsGrammar"@.len() != "SetSchemaStatementSegment"@.len());
    reveal_strlit("TransactionStatementSegment");
    assert("JoinTypeKeywordsGrammar"@.len() != "TransactionStatementSegment"@.len());
    reveal_strlit("UpdateStatementSegment");
    assert("JoinTypeKeywordsGrammar"@.len() != "UpdateStatementSegment"@.len());
}

proof fn lemma_part_8_keeps_join_type_keywords_grammar(m: Map<Seq<char>, ElementView>)
    requires
        m.dom().contains("JoinTypeKeywordsGrammar"@),
    ensures
        ansi_library_part_8(m).dom().contains("JoinTypeKeywordsGrammar"@),
        ansi_library_part_8(m)["JoinTypeKeywordsGrammar"@] == m["JoinTypeKeywordsGrammar"@],
{
    reveal_strlit("JoinTypeKeywordsGrammar");
    reveal_strlit("AggregateOrderByClause");
    assert("JoinTypeKeywordsGrammar"@.len() != "AggregateOrderByClause"@.len());
    reveal_strlit("ArrayExpressionSegment");
    assert("JoinTypeKeywordsGrammar"@.len() != "ArrayExpressionSegment"@.len());
    reveal_strlit("BitwiseAndSegment");
    assert("JoinTypeKeywordsGrammar"@.len() != "BitwiseAndSegment"@.len());
    reveal_strlit("BitwiseLShiftSegment");
    assert("JoinTypeKeywordsGrammar"@.len() != "BitwiseLShiftSegment"@.len());
    reveal_strlit("BitwiseOrSegment");
    assert("JoinTypeKeywordsGrammar"@.len() != "BitwiseOrSegment"@.len());
    reveal_strlit("BitwiseRShiftSegment");
    assert("JoinTypeKeywordsGrammar"@.len() != "BitwiseRShiftSegment"@.len());
    reveal_strlit("ConcatSegment");
    assert("JoinTypeKeywordsGrammar"@.len() != "ConcatSegment"@.len());
    reveal_strlit("CreateUserStatementSegment");
    assert("JoinTypeKeywordsGrammar"@.len() != "CreateUserStatementSegment"@.len());
    reveal_strlit("DropTableStatementSegment");
    assert("JoinTypeKeywordsGrammar"@.len() != "DropTableStatementSegment"@.len());
    reveal_strlit("DropUserStatementSegment");
    assert("JoinTypeKeywordsGrammar"@.len() != "DropUserStatementSegment"@.len());
    reveal_strlit("DropViewStatementSegment");
    assert("JoinTypeKeywordsGrammar"@.len() != "DropViewStatementSegment"@.len());
    reveal_strlit("ElseClauseSegment");
    assert("JoinTypeKeywordsGrammar"@.len() != "ElseClauseSegment"@.len());
    reveal_strlit("EqualsSegment");
    assert("JoinTypeKeywordsGrammar"@.len() != "EqualsSegment"@.len());
    reveal_strlit("FunctionNameSegment");
    assert("JoinTypeKeywordsGrammar"@.len() != "FunctionNameSegment"@.len());
    reveal_strlit("GreaterThanOrEqualToSegment");
    assert("JoinTypeKeywordsGrammar"@.len() != "GreaterThanOrEqualToSegment"@.len());
    reveal_strlit("GreaterThanSegment");
    assert("JoinTypeKeywordsGrammar"@.len() != "GreaterThanSegment"@.len());
    reveal_strlit("IndexColumnDefinitionSegment");
    assert("JoinTypeKeywordsGrammar"@.len() != "IndexColumnDefinitionSegment"@.len());
    reveal_strlit("LessThanOrEqualToSegment");
    assert("JoinTypeKeywordsGrammar"@.len() != "LessThanOrEqualToSegment"@.len());
    reveal_strlit("LessThanSegment");
    assert("JoinTypeKeywordsGrammar"@.len() != "LessThanSegment"@.len());
    reveal_strlit("LocalAliasSegment");
    assert("JoinTypeKeywordsGrammar"@.len() != "LocalAliasSegment"@.len());
    reveal_strlit("MergeStatementSegment");
    assert("JoinTypeKeywordsGrammar"@.len() != "MergeStatementSegment"@.len());
    reveal_strlit("NotEqualToSegment");
    assert("JoinTypeKeywordsGrammar"@.len() != "NotEqualToSegment"@.len());
    reveal_strlit("QualifiedNumericLiteralSegment");
    assert("JoinTypeKeywordsGrammar"@.len() != "QualifiedNumericLiteralSegment"@.len());
    reveal_strlit("WhenClauseSegment");
    assert("JoinTypeKeywordsGrammar"@.len() != "WhenClauseSegment"@.len());
    reveal_strlit("WhereClauseSegment");
    assert("JoinTypeKeywordsGrammar"@.len() != "WhereClauseSegment"@.len());
}

proof fn lemma_part_9_keeps_join_type_keywords_grammar(m: Map<Seq<char>, ElementView>)
    requires
        m.dom().contains("JoinTypeKeywordsGrammar"@),
    ensures
        ansi_library_part_9(m).dom().contains("JoinTypeKeywordsGrammar"@),
        ansi_library_part_9(m)["JoinTypeKeywordsGrammar"@] == m["JoinTypeKeywordsGrammar"@],
{
    reveal_strlit("JoinTypeKeywordsGrammar");
    reveal_strlit("AliasExpressionSegment");
    assert("JoinTypeKeywordsGrammar"@.len() != "AliasExpressionSegment"@.len());
    reveal_strlit("ArrayAccessorSegment");
    assert("JoinTypeKeywordsGrammar"@.len() != "ArrayAccessorSegment"@.len());
    reveal_strlit("ArrayLiteralSegment");
    assert("JoinTypeKeywordsGrammar"@.len() != "ArrayLiteralSegment"@.len());
    reveal_strlit("ArrayTypeSegment");
    assert("JoinTypeKeywordsGrammar"@.len() != "ArrayTypeSegment"@.len());
    reveal_strlit("BracketedArguments");
    assert("JoinTypeKeywordsGrammar"@.len() != "BracketedArguments"@.len());
    reveal_strlit("DatatypeSegment");
    assert("JoinTypeKeywordsGrammar"@.len() != "DatatypeSegment"@.len());
    reveal_strlit("EmptyStructLiteralSegment");
    assert("JoinTypeKeywordsGrammar"@.len() != "EmptyStructLiteralSegment"@.len());
    reveal_strlit("IntervalExpressionSegment");
    assert("JoinTypeKeywordsGrammar"@.len() != "IntervalExpressionSegment"@.len());
    reveal_strlit("ObjectLiteralElementSegment");
    assert("JoinTypeKeywordsGrammar"@.len() != "ObjectLiteralElementSegment"@.len());
    reveal_strlit("ObjectLiteralSegment");
    assert("JoinTypeKeywordsGrammar"@.len() != "ObjectLiteralSegment"@.len());
    reveal_strlit("OverlapsClauseSegment");
    assert("JoinTypeKeywordsGrammar"@.len() != "OverlapsClauseSegment"@.len());
    reveal_strlit("SelectClauseSegment");
    assert("JoinTypeKeywordsGrammar"@.len() != "SelectClauseSegment"@.len());
    reveal_strlit("SetOperatorSegment");
    assert("JoinTypeKeywordsGrammar"@.len() != "SetOperatorSegment"@.len());
    reveal_strlit("ShorthandCastSegment");
    assert("JoinTypeKeywordsGrammar"@.len() != "ShorthandCastSegment"@.len());
    reveal_strlit("SizedArrayTypeSegment");
    assert("JoinTypeKeywordsGrammar"@.len() != "SizedArrayTypeSegment"@.len());
    reveal_strlit("StatementSegment");
    assert("JoinTypeKeywordsGrammar"@.len() != "StatementSegment"@.len());
    reveal_strlit("StructLiteralSegment");
    assert("JoinTypeKeywordsGrammar"@.len() != "StructLiteralSegment"@.len());
    reveal_strlit("StructTypeSegment");
    assert("JoinTypeKeywordsGrammar"@.len() != "StructTypeSegment"@.len());
    reveal_strlit("TimeZoneGrammar");
    assert("JoinTypeKeywordsGrammar"@.len() != "TimeZoneGrammar"@.len());
    reveal_strlit("TypedArrayLiteralSegment");
    assert("JoinTypeKeywordsGrammar"@.len() != "TypedArrayLiteralSegment"@.len());
    reveal_strlit("TypedStructLiteralSegment");
    assert("JoinTypeKeywordsGrammar"@.len() != "TypedStructLiteralSegment"@.len());
    reveal_strlit("UnorderedSelectStatementSegment");
    assert("JoinTypeKeywordsGrammar"@.len() != "UnorderedSelectStatementSegment"@.len());
    reveal_strlit("ValuesClauseSegment");
    assert("JoinTypeKeywordsGrammar"@.len() != "ValuesClauseSegment"@.len());
    reveal_strlit("WithDataClauseSegment");
    assert("JoinTypeKeywordsGrammar"@.len() != "WithDataClauseSegment"@.len());
    reveal_strlit("WithNoSchemaBindingClauseSegment");
    assert("JoinTypeKeywordsGrammar"@.len() != "WithNoSchemaBindingClauseSegment"@.len());
}

proof fn lemma_part_10_keeps_join_type_keywords_grammar(m: Map<Seq<char>, ElementView>)
    requires
        m.dom().contains("JoinTypeKeywordsGrammar"@),
    ensures
        ansi_library_part_10(m).dom().contains("JoinTypeKeywordsGrammar"@),
        ansi_library_part_10(m)["JoinTypeKeywordsGrammar"@] == m["JoinTypeKeywordsGrammar"@],
{
    reveal_strlit("JoinTypeKeywordsGrammar");
    reveal_strlit("AccessStatementSegmentGrantRoleWithOptionGrammar");
    assert("JoinTypeKeywordsGrammar"@.len() != "AccessStatementSegmentGrantRoleWithOptionGrammar"@.len());
    reveal_strlit("AliasedTableReferenceGrammar");
    assert("JoinTypeKeywordsGrammar"@.len() != "AliasedTableReferenceGrammar"@.len());
    reveal_strlit("CharCharacterSetGrammar");
    assert("JoinTypeKeywordsGrammar"@[0] != "CharCharacterSetGrammar"@[0]);
    reveal_strlit("CreateSchemaStatementSegment");
    assert("JoinTypeKeywordsGrammar"@.len() != "CreateSchemaStatementSegment"@.len());
    reveal_strlit("DatePartFunctionNameSegment");
    assert("JoinTypeKeywordsGrammar"@.len() != "DatePartFunctionNameSegment"@.len());
    reveal_strlit("EmptyStructLiteralBracketsSegment");
    assert("JoinTypeKeywordsGrammar"@.len() != "EmptyStructLiteralBracketsSegment"@.len());
    reveal_strlit("Expression_A_Grammar");
    assert("JoinTypeKeywordsGrammar"@.len() != "Expression_A_Grammar"@.len());
    reveal_strlit("Expression_A_Unary_Operator_Grammar");
    assert("JoinTypeKeywordsGrammar"@.len() != "Expression_A_Unary_Operator_Grammar"@.len());
    reveal_strlit("Expression_B_Unary_Operator_Grammar");
    assert("JoinTypeKeywordsGrammar"@.len() != "Expression_B_Unary_Operator_Grammar"@.len());
    reveal_strlit("FromClauseSegment");
    assert("JoinTypeKeywordsGrammar"@.len() != "FromClauseSegment"@.len());
    reveal_strlit("FromExpressionSegment");
    assert("JoinTypeKeywordsGrammar"@.len() != "FromExpressionSegment"@.len());
    reveal_strlit("FunctionContentsExpressionGrammar");
    assert("JoinTypeKeywordsGrammar"@.len() != "FunctionContentsExpressionGrammar"@.len());
    reveal_strlit("FunctionContentsGrammar");
    assert("JoinTypeKeywordsGrammar"@[0] != "FunctionContentsGrammar"@[0]);
    reveal_strlit("FunctionContentsSegment");
    assert("JoinTypeKeywordsGrammar"@[0] != "FunctionContentsSegment"@[0]);
    reveal_strlit("JoinLikeClauseGrammar");
    assert("JoinTypeKeywordsGrammar"@.len() != "JoinLikeClauseGrammar"@.len());
    reveal_strlit("OrderByClauseSegment");
    assert("JoinTypeKeywordsGrammar"@.len() != "OrderByClauseSegment"@.len());
    reveal_strlit("PostFunctionGrammar");
    assert("JoinTypeKeywordsGrammar"@.len() != "PostFunctionGrammar"@.len());
    reveal_strlit("SelectClauseElementSegment");
    assert("JoinTypeKeywordsGrammar"@.len() != "SelectClauseElementSegment"@.len());
    reveal_strlit("SelectClauseModifierSegment");
    assert("JoinTypeKeywordsGrammar"@.len() != "SelectClauseModifierSegment"@.len());
    reveal_strlit("SelectStatementSegment");
    assert("JoinTypeKeywordsGrammar"@.len() != "SelectStatementSegment"@.len());
    reveal_strlit("SetExpressionSegment");
    assert("JoinTypeKeywordsGrammar"@.len() != "SetExpressionSegment"@.len());
    reveal_strlit("Tail_Recurse_Expression_A_Grammar");
    assert("JoinTypeKeywordsGrammar"@.len() != "Tail_Recurse_Expression_A_Grammar"@.len());
    reveal_strlit("Tail_Recurse_Expression_B_Grammar");
    assert("JoinTypeKeywordsGrammar"@.len() != "Tail_Recurse_Expression_B_Grammar"@.len());
    reveal_strlit("TruncateStatementSegment");
    assert("JoinTypeKeywordsGrammar"@.len() != "TruncateStatementSegment"@.len());
    reveal_strlit("WildcardExpressionSegment");
    assert("JoinTypeKeywordsGrammar"@.len() != "WildcardExpressionSegment"@.len());
}

proof fn lemma_part_11_keeps_join_type_keywords_grammar(m: Map<Seq<char>, ElementView>)
    requires
        m.dom().contains("JoinTypeKeywordsGrammar"@),
    ensures
        ansi_library_part_11(m).dom().contains("JoinTypeKeywordsGrammar"@),
        ansi_library_part_11(m)["JoinTypeKeywordsGrammar"@] == m["JoinTypeKeywordsGrammar"@],
{
    reveal_strlit("JoinTypeKeywordsGrammar");
    reveal_strlit("AccessorGrammar");
    assert("JoinTypeKeywordsGrammar"@.len() != "AccessorGrammar"@.len());
    reveal_strlit("Expression_B_Grammar");
    assert("JoinTypeKeywordsGrammar"@.len() != "Expression_B_Grammar"@.len());
    reveal_strlit("Expression_C_Grammar");
    assert("JoinTypeKeywordsGrammar"@.len() != "Expression_C_Grammar"@.len());
    reveal_strlit("Expression_D_Grammar");
    assert("JoinTypeKeywordsGrammar"@.len() != "Expression_D_Grammar"@.len());
    reveal_strlit("NonSetSelectableGrammar");
    assert("JoinTypeKeywordsGrammar"@[0] != "NonSetSelectableGrammar"@[0]);
    reveal_strlit("NonWithNonSelectableGrammar");
    assert("JoinTypeKeywordsGrammar"@.len() != "NonWithNonSelectableGrammar"@.len());
    reveal_strlit("NonWithSelectableGrammar");
    assert("JoinTypeKeywordsGrammar"@.len() != "NonWithSelectableGrammar"@.len());
    reveal_strlit("PostTableExpressionGrammar");
    assert("JoinTypeKeywordsGrammar"@.len() != "PostTableExpressionGrammar"@.len());
    reveal_strlit("SelectableGrammar");
    assert("JoinTypeKeywordsGrammar"@.len() != "SelectableGrammar"@.len());
    reveal_strlit("TimeWithTZGrammar");
    assert("JoinTypeKeywordsGrammar"@.len() != "TimeWithTZGrammar"@.len());
}

/// The ANSI library holds `JoinTypeKeywordsGrammar`: the value of its last entry of that name.
pub proof fn lemma_ansi_library_join_type_keywords_grammar(lib: Map<Seq<char>, ElementView>)
    ensures
        ansi_library(lib).dom().contains("JoinTypeKeywordsGrammar"@),
        ansi_library(lib)["JoinTypeKeywordsGrammar"@] == join_type_keywords_grammar_element(),
{
    reveal(ansi_library);
    let m0 = lib;
    let m1 = ansi_library_part_0(m0);
    let m2 = ansi_library_part_1(m1);
    let m3 = ansi_library_part_2(m2);
    let m4 = ansi_library_part_3(m3);
    let m5 = ansi_library_part_4(m4);
    let m6 = ansi_library_part_5(m5);
    let m7 = ansi_library_part_6(m6);
    let m8 = ansi_library_part_7(m7);
    let m9 = ansi_library_part_8(m8);
    let m10 = ansi_library_part_9(m9);
    let m11 = ansi_library_part_10(m10);
    let m12 = ansi_library_part_11(m11);
    lemma_part_3_sets_join_type_keywords_grammar(m3);
    lemma_part_4_keeps_join_type_keywords_grammar(m4);
    lemma_part_5_keeps_join_type_keywords_grammar(m5);
    lemma_part_6_keeps_join_type_keywords_grammar(m6);
    lemma_part_7_keeps_join_type_keywords_grammar(m7);
    lemma_part_8_keeps_join_type_keywords_grammar(m8);
    lemma_part_9_keeps_join_type_keywords_grammar(m9);
    lemma_part_10_keeps_join_type_keywords_grammar(m10);
    lemma_part_11_keeps_join_type_keywords_grammar(m11);
}


/// In the ANSI dialect `JoinTypeKeywordsGrammar` is an optional choice of the
/// join types: `CROSS`, `INNER`, or one of `FULL`, `LEFT` and `RIGHT` followed
/// by an optional `OUTER`; so `LEFT JOIN` and `LEFT OUTER JOIN` are joins, as
/// are the `FULL` and `RIGHT` forms. The same holds of the ANSI library added
/// to any library.
pub proof fn law_ansi_join_types(unreserved: Seq<char>, reserved: Seq<char>, lib: Map<Seq<char>, ElementView>)
    ensures
        ({
            let outer = GrammarView::Optional { grammar: Box::new(GrammarView::keyword("OUTER"@)) };
            let sided = GrammarView::sequence(seq![
                GrammarView::one_of(seq![GrammarView::keyword("FULL"@), GrammarView::keyword("LEFT"@), GrammarView::keyword("RIGHT"@)]),
                outer,
            ]);
            let join_types = GrammarView::Optional {
                grammar: Box::new(GrammarView::one_of(seq![GrammarView::keyword("CROSS"@), GrammarView::keyword("INNER"@), sided])),
            };
            &&& ansi_raw_dialect_view(unreserved, reserved).element("JoinTypeKeywordsGrammar"@) == Some(ElementView::Grammar(join_types))
            &&& ansi_library(lib).dom().contains("JoinTypeKeywordsGrammar"@)
            &&& ansi_library(lib)["JoinTypeKeywordsGrammar"@] == ElementView::Grammar(join_types)
        }),
{
    lemma_ansi_library_join_type_keywords_grammar(lib);
    lemma_ansi_library_join_type_keywords_grammar(Map::empty());
    let outer = GrammarView::Optional { grammar: Box::new(GrammarView::keyword("OUTER"@)) };
    let sided = GrammarView::sequence(seq![
        GrammarView::one_of(seq![GrammarView::keyword("FULL"@), GrammarView::keyword("LEFT"@), GrammarView::keyword("RIGHT"@)]),
        outer,
    ]);
    let join_types = GrammarView::Optional {
        grammar: Box::new(GrammarView::one_of(seq![GrammarView::keyword("CROSS"@), GrammarView::keyword("INNER"@), sided])),
    };
    assert(join_type_keywords_grammar_element() =~~= ElementView::Grammar(join_types));
}

proof fn lemma_part_3_sets_join_keywords_grammar(m: Map<Seq<char>, ElementView>)
    ensures
        ansi_library_part_3(m).dom().contains("JoinKeywordsGrammar"@),
        ansi_library_part_3(m)["JoinKeywordsGrammar"@] == join_keywords_grammar_element(),
{
    reveal_strlit("JoinKeywordsGrammar");
    reveal_strlit("DropBehaviorGrammar");
    assert("JoinKeywordsGrammar"@[0] != "DropBehaviorGrammar"@[0]);
    reveal_strlit("ExtendedNaturalJoinKeywordsGrammar");
    assert("JoinKeywordsGrammar"@.len() != "ExtendedNaturalJoinKeywordsGrammar"@.len());
    reveal_strlit("NaturalJoinKeywordsGrammar");
    assert("JoinKeywordsGrammar"@.len() != "NaturalJoinKeywordsGrammar"@.len());
    reveal_strlit("NestedJoinGrammar");
    assert("JoinKeywordsGrammar"@.len() != "NestedJoinGrammar"@.len());
    reveal_strlit("ReferentialActionGrammar");
    assert("JoinKeywordsGrammar"@.len() != "ReferentialActionGrammar"@.len());
}

proof fn lemma_part_4_keeps_join_keywords_grammar(m: Map<Seq<char>, ElementView>)
    requires
        m.dom().contains("JoinKeywordsGrammar"@),
    ensures
        ansi_library_part_4(m).dom().contains("JoinKeywordsGrammar"@),
        ansi_library_part_4(m)["JoinKeywordsGrammar"@] == m["JoinKeywordsGrammar"@],
{
    reveal_strlit("JoinKeywordsGrammar");
    reveal_strlit("AlterTableDropColumnGrammar");
    assert("JoinKeywordsGrammar"@.len() != "AlterTableDropColumnGrammar"@.len());
    reveal_strlit("AlterTableOptionsGrammar");
    assert("JoinKeywordsGrammar"@.len() != "AlterTableOptionsGrammar"@.len());
    reveal_strlit("ColumnConstraintDefaultGrammar");
    assert("JoinKeywordsGrammar"@.len() != "ColumnConstraintDefaultGrammar"@.len());
    reveal_strlit("ColumnReferenceSegment");
    assert("JoinKeywordsGrammar"@.len() != "ColumnReferenceSegment"@.len());
    reveal_strlit("CubeFunctionNameSegment");
    assert("JoinKeywordsGrammar"@.len() != "CubeFunctionNameSegment"@.len());
    reveal_strlit("CubeRollupClauseSegment");
    assert("JoinKeywordsGrammar"@.len() != "CubeRollupClauseSegment"@.len());
    reveal_strlit("DateTimeFunctionContentsSegment");
    assert("JoinKeywordsGrammar"@.len() != "DateTimeFunctionContentsSegment"@.len());
    reveal_strlit("DefaultValuesGrammar");
    assert("JoinKeywordsGrammar"@.len() != "DefaultValuesGrammar"@.len());
    reveal_strlit("ExpressionSegment");
    assert("JoinKeywordsGrammar"@.len() != "ExpressionSegment"@.len());
    reveal_strlit("FetchClauseSegment");
    assert("JoinKeywordsGrammar"@.len() != "FetchClauseSegment"@.len());
    reveal_strlit("FileSegment");
    assert("JoinKeywordsGrammar"@.len() != "FileSegment"@.len());
    reveal_strlit("FunctionSegment");
    assert("JoinKeywordsGrammar"@.len() != "FunctionSegment"@.len());
    reveal_strlit("GroupingExpressionList");
    assert("JoinKeywordsGrammar"@.len() != "GroupingExpressionList"@.len());
    reveal_strlit("GroupingSetsClauseSegment");
    assert("JoinKeywordsGrammar"@.len() != "GroupingSetsClauseSegment"@.len());
    reveal_strlit("HavingClauseSegment");
    assert("JoinKeywordsGrammar"@[0] != "HavingClauseSegment"@[0]);
    reveal_strlit("LimitClauseSegment");
    assert("JoinKeywordsGrammar"@.len() != "LimitClauseSegment"@.len());
    reveal_strlit("NamedWindowExpressionSegment");
    assert("JoinKeywordsGrammar"@.len() != "NamedWindowExpressionSegment"@.len());
    reveal_strlit("ObjectReferenceDelimiterGrammar");
    assert("JoinKeywordsGrammar"@.len() != "ObjectReferenceDelimiterGrammar"@.len());
    reveal_strlit("ObjectReferenceTerminatorGrammar");
    assert("JoinKeywordsGrammar"@.len() != "ObjectReferenceTerminatorGrammar"@.len());
    reveal_strlit("PathSegment");
    assert("JoinKeywordsGrammar"@.len() != "PathSegment"@.len());
    reveal_strlit("ReferenceDefinitionGrammar");
    assert("JoinKeywordsGrammar"@.len() != "ReferenceDefinitionGrammar"@.len());
    reveal_strlit("RollupFunctionNameSegment");
    assert("JoinKeywordsGrammar"@.len() != "RollupFunctionNameSegment"@.len());
    reveal_strlit("SetClauseSegment");
    assert("JoinKeywordsGrammar"@.len() != "SetClauseSegment"@.len());
    reveal_strlit("TrimParametersGrammar");
    assert("JoinKeywordsGrammar"@.len() != "TrimParametersGrammar"@.len());
    reveal_strlit("WildcardIdentifierSegment");
    assert("JoinKeywordsGrammar"@.len() != "WildcardIdentifierSegment"@.len());
}

proof fn lemma_part_5_keeps_join_keywords_grammar(m: Map<Seq<char>, ElementView>)
    requires
        m.dom().contains("JoinKeywordsGrammar"@),
    ensures
        ansi_library_part_5(m).dom().contains("JoinKeywordsGrammar"@),
        ansi_library_part_5(m)["JoinKeywordsGrammar"@] == m["JoinKeywordsGrammar"@],
{
    reveal_strlit("JoinKeywordsGrammar");
    reveal_strlit("AlterSequenceOptionsSegment");
    assert("JoinKeywordsGrammar"@.len() != "AlterSequenceOptionsSegment"@.len());
    reveal_strlit("CTEColumnList");
    assert("JoinKeywordsGrammar"@.len() != "CTEColumnList"@.len());
    reveal_strlit("CTEDefinitionSegment");
    assert("JoinKeywordsGrammar"@.len() != "CTEDefinitionSegment"@.len());
    reveal_strlit("ColumnConstraintSegment");
    assert("JoinKeywordsGrammar"@.len() != "ColumnConstraintSegment"@.len());
    reveal_strlit("ColumnDefinitionSegment");
    assert("JoinKeywordsGrammar"@.len() != "ColumnDefinitionSegment"@.len());
    reveal_strlit("CommentClauseSegment");
    assert("JoinKeywordsGrammar"@.len() != "CommentClauseSegment"@.len());
    reveal_strlit("ExtensionReferenceSegment");
    assert("JoinKeywordsGrammar"@.len() != "ExtensionReferenceSegment"@.len());
    reveal_strlit("FrameClauseSegment");
    assert("JoinKeywordsGrammar"@.len() != "FrameClauseSegment"@.len());
    reveal_strlit("FunctionDefinitionGrammar");
    assert("JoinKeywordsGrammar"@.len() != "FunctionDefinitionGrammar"@.len());
    reveal_strlit("GroupByClauseSegment");
    assert("JoinKeywordsGrammar"@.len() != "GroupByClauseSegment"@.len());
    reveal_strlit("MergeDeleteClauseSegment");
    assert("JoinKeywordsGrammar"@.len() != "MergeDeleteClauseSegment"@.len());
    reveal_strlit("MergeInsertClauseSegment");
    assert("JoinKeywordsGrammar"@.len() != "MergeInsertClauseSegment"@.len());
    reveal_strlit("MergeMatchSegment");
    assert("JoinKeywordsGrammar"@.len() != "MergeMatchSegment"@.len());
    reveal_strlit("MergeMatchedClauseSegment");
    assert("JoinKeywordsGrammar"@.len() != "MergeMatchedClauseSegment"@.len());
    reveal_strlit("MergeNotMatchedClauseSegment");
    assert("JoinKeywordsGrammar"@.len() != "MergeNotMatchedClauseSegment"@.len());
    reveal_strlit("MergeUpdateClauseSegment");
    assert("JoinKeywordsGrammar"@.len() != "MergeUpdateClauseSegment"@.len());
    reveal_strlit("RoleReferenceSegment");
    assert("JoinKeywordsGrammar"@.len() != "RoleReferenceSegment"@.len());
    reveal_strlit("SchemaReferenceSegment");
    assert("JoinKeywordsGrammar"@.len() != "SchemaReferenceSegment"@.len());
    reveal_strlit("SetClauseListSegment");
    assert("JoinKeywordsGrammar"@.len() != "SetClauseListSegment"@.len());
    reveal_strlit("SingleIdentifierListSegment");
    assert("JoinKeywordsGrammar"@.len() != "SingleIdentifierListSegment"@.len());
    reveal_strlit("TableEndClauseSegment");
    assert("JoinKeywordsGrammar"@.len() != "TableEndClauseSegment"@.len());
    reveal_strlit("TablespaceReferenceSegment");
    assert("JoinKeywordsGrammar"@.len() != "TablespaceReferenceSegment"@.len());
    reveal_strlit("TagReferenceSegment");
    assert("JoinKeywordsGrammar"@[0] != "TagReferenceSegment"@[0]);
    reveal_strlit("WithCompoundNonSelectStatementSegment");
    assert("JoinKeywordsGrammar"@.len() != "WithCompoundNonSelectStatementSegment"@.len());
    reveal_strlit("WithCompoundStatementSegment");
    assert("JoinKeywordsGrammar"@.len() != "WithCompoundStatementSegment"@.len());
}

proof fn lemma_part_6_keeps_join_keywords_grammar(m: Map<Seq<char>, ElementView>)
    requires
        m.dom().contains("JoinKeywordsGrammar"@),
    ensures
        ansi_library_part_6(m).dom().contains("JoinKeywordsGrammar"@),
        ansi_library_part_6(m)["JoinKeywordsGrammar"@] == m["JoinKeywordsGrammar"@],
{
    reveal_strlit("JoinKeywordsGrammar");
    reveal_strlit("CollationReferenceSegment");
    assert("JoinKeywordsGrammar"@.len() != "CollationReferenceSegment"@.len());
    reveal_strlit("CreateSequenceOptionsSegment");
    assert("JoinKeywordsGrammar"@.len() != "CreateSequenceOptionsSegment"@.len());
    reveal_strlit("CreateSequenceStatementSegment");
    assert("JoinKeywordsGrammar"@.len() != "CreateSequenceStatementSegment"@.len());
    reveal_strlit("CreateTriggerStatementSegment");
    assert("JoinKeywordsGrammar"@.len() != "CreateTriggerStatementSegment"@.len());
    reveal_strlit("DatabaseReferenceSegment");
    assert("JoinKeywordsGrammar"@.len() != "DatabaseReferenceSegment"@.len());
    reveal_strlit("DescribeStatementSegment");
    assert("JoinKeywordsGrammar"@.len() != "DescribeStatementSegment"@.len());
    reveal_strlit("DropModelStatementSegment");
    assert("JoinKeywordsGrammar"@.len() != "DropModelStatementSegment"@.len());
    reveal_strlit("DropTriggerStatementSegment");
    assert("JoinKeywordsGrammar"@.len() != "DropTriggerStatementSegment"@.len());
    reveal_strlit("ExplainStatementSegment");
    assert("JoinKeywordsGrammar"@.len() != "ExplainStatementSegment"@.len());
    reveal_strlit("IndexReferenceSegment");
    assert("JoinKeywordsGrammar"@.len() != "IndexReferenceSegment"@.len());
    reveal_strlit("JoinClauseSegment");
    assert("JoinKeywordsGrammar"@.len() != "JoinClauseSegment"@.len());
    reveal_strlit("JoinOnConditionSegment");
    assert("JoinKeywordsGrammar"@.len() != "JoinOnConditionSegment"@.len());
    reveal_strlit("NamedWindowSegment");
    assert("JoinKeywordsGrammar"@.len() != "NamedWindowSegment"@.len());
    reveal_strlit("OverClauseSegment");
    assert("JoinKeywordsGrammar"@.len() != "OverClauseSegment"@.len());
    reveal_strlit("PartitionClauseSegment");
    assert("JoinKeywordsGrammar"@.len() != "PartitionClauseSegment"@.len());
    reveal_strlit("SamplingExpressionSegment");
    assert("JoinKeywordsGrammar"@.len() != "SamplingExpressionSegment"@.len());
    reveal_strlit("SequenceReferenceSegment");
    assert("JoinKeywordsGrammar"@.len() != "SequenceReferenceSegment"@.len());
    reveal_strlit("TableConstraintSegment");
    assert("JoinKeywordsGrammar"@.len() != "TableConstraintSegment"@.len());
    reveal_strlit("TableExpressionSegment");
    assert("JoinKeywordsGrammar"@.len() != "TableExpressionSegment"@.len());
    reveal_strlit("TriggerReferenceSegment");
    assert("JoinKeywordsGrammar"@.len() != "TriggerReferenceSegment"@.len());
    reveal_strlit("UseStatementSegment");
    assert("JoinKeywordsGrammar"@[0] != "UseStatementSegment"@[0]);
    reveal_strlit("WindowSpecificationSegment");
    assert("JoinKeywordsGrammar"@.len() != "WindowSpecificationSegment"@.len());
}

proof fn lemma_part_7_keeps_join_keywords_grammar(m: Map<Seq<char>, ElementView>)
    requires
        m.dom().contains("JoinKeywordsGrammar"@),
    ensures
        ansi_library_part_7(m).dom().contains("JoinKeywordsGrammar"@),
        ansi_library_part_7(m)["JoinKeywordsGrammar"@] == m["JoinKeywordsGrammar"@],
{
    reveal_strlit("JoinKeywordsGrammar");
    reveal_strlit("AccessStatementSegment");
    assert("JoinKeywordsGrammar"@.len() != "AccessStatementSegment"@.len());
    reveal_strlit("AlterSequenceStatementSegment");
    assert("JoinKeywordsGrammar"@.len() != "AlterSequenceStatementSegment"@.len());
    reveal_strlit("AlterTableStatementSegment");
    assert("JoinKeywordsGrammar"@.len() != "AlterTableStatementSegment"@.len());
    reveal_strlit("CreateCastStatementSegment");
    assert("JoinKeywordsGrammar"@.len() != "CreateCastStatementSegment"@.len());
    reveal_strlit("CreateDatabaseStatementSegment");
    assert("JoinKeywordsGrammar"@.len() != "CreateDatabaseStatementSegment"@.len());
    reveal_strlit("CreateFunctionStatementSegment");
    assert("JoinKeywordsGrammar"@.len() != "CreateFunctionStatementSegment"@.len());
    reveal_strlit("CreateIndexStatementSegment");
    assert("JoinKeywordsGrammar"@.len() != "CreateIndexStatementSegment"@.len());
    reveal_strlit("CreateModelStatementSegment");
    assert("JoinKeywordsGrammar"@.len() != "CreateModelStatementSegment"@.len());
    reveal_strlit("CreateRoleStatementSegment");
    assert("JoinKeywordsGrammar"@.len() != "CreateRoleStatementSegment"@.len());
    reveal_strlit("CreateTableStatementSegment");
    assert("JoinKeywordsGrammar"@.len() != "CreateTableStatementSegment"@.len());
    reveal_strlit("CreateViewStatementSegment");
    assert("JoinKeywordsGrammar"@.len() != "CreateViewStatementSegment"@.len());
    reveal_strlit("DeleteStatementSegment");
    assert("JoinKeywordsGrammar"@.len() != "DeleteStatementSegment"@.len());
    reveal_strlit("DropCastStatementSegment");
    assert("JoinKeywordsGrammar"@.len() != "DropCastStatementSegment"@.len());
    reveal_strlit("DropDatabaseStatementSegment");
    assert("JoinKeywordsGrammar"@.len() != "DropDatabaseStatementSegment"@.len());
    reveal_strlit("DropFunctionStatementSegment");
    assert("JoinKeywordsGrammar"@.len() != "DropFunctionStatementSegment"@.len());
    reveal_strlit("DropIndexStatementSegment");
    assert("JoinKeywordsGrammar"@.len() != "DropIndexStatementSegment"@.len());
    reveal_strlit("DropRoleStatementSegment");
    assert("JoinKeywordsGrammar"@.len() != "DropRoleStatementSegment"@.len());
    reveal_strlit("DropSchemaStatementSegment");
    assert("JoinKeywordsGrammar"@.len() != "DropSchemaStatementSegment"@.len());
    reveal_strlit("DropSequenceStatementSegment");
    assert("JoinKeywordsGrammar"@.len() != "DropSequenceStatementSegment"@.len());
    reveal_strlit("DropTypeStatementSegment");
    assert("JoinKeywordsGrammar"@.len() != "DropTypeStatementSegment"@.len());
    reveal_strlit("FunctionParameterListGrammar");
    assert("JoinKeywordsGrammar"@.len() != "FunctionParameterListGrammar"@.len());
    reveal_strlit("InsertStatementSegment");
    assert("JoinKeywordsGrammar"@.len() != "InsertStatementSegment"@.len());
    reveal_strlit("SetSchemaStatementSegment");
    assert("JoinKeywordsGrammar"@.len() != "SetSchemaStatementSegment"@.len());
    reveal_strlit("TransactionStatementSegment");
    assert("JoinKeywordsGrammar"@.len() != "TransactionStatementSegment"@.len());
    reveal_strlit("UpdateStatementSegment");
    assert("JoinKeywordsGrammar"@.len() != "UpdateStatementSegment"@.len());
}

proof fn lemma_part_8_keeps_join_keywords_grammar(m: Map<Seq<char>, ElementView>)
    requires
        m.dom().contains("JoinKeywordsGrammar"@),
    ensures
        ansi_library_part_8(m).dom().contains("JoinKeywordsGrammar"@),
        ansi_library_part_8(m)["JoinKeywordsGrammar"@] == m["JoinKeywordsGrammar"@],
{
    reveal_strlit("JoinKeywordsGrammar");
    reveal_strlit("AggregateOrderByClause");
    assert("JoinKeywordsGrammar"@.len() != "AggregateOrderByClause"@.len());
    reveal_strlit("ArrayExpressionSegment");
    assert("JoinKeywordsGrammar"@.len() != "ArrayExpressionSegment"@.len());
    reveal_strlit("BitwiseAndSegment");
    assert("JoinKeywordsGrammar"@.len() != "BitwiseAndSegment"@.len());
    reveal_strlit("BitwiseLShiftSegment");
    assert("JoinKeywordsGrammar"@.len() != "BitwiseLShiftSegment"@.len());
    reveal_strlit("BitwiseOrSegment");
    assert("JoinKeywordsGrammar"@.len() != "BitwiseOrSegment"@.len());
    reveal_strlit("BitwiseRShiftSegment");
    assert("JoinKeywordsGrammar"@.len() != "BitwiseRShiftSegment"@.len());
    reveal_strlit("ConcatSegment");
    assert("JoinKeywordsGrammar"@.len() != "ConcatSegment"@.len());
    reveal_strlit("CreateUserStatementSegment");
    assert("JoinKeywordsGrammar"@.len() != "CreateUserStatementSegment"@.len());
    reveal_strlit("DropTableStatementSegment");
    assert("JoinKeywordsGrammar"@.len() != "DropTableStatementSegment"@.len());
    reveal_strlit("DropUserStatementSegment");
    assert("JoinKeywordsGrammar"@.len() != "DropUserStatementSegment"@.len());
    reveal_strlit("DropViewStatementSegment");
    assert("JoinKeywordsGrammar"@.len() != "DropViewStatementSegment"@.len());
    reveal_strlit("ElseClauseSegment");
    assert("JoinKeywordsGrammar"@.len() != "ElseClauseSegment"@.len());
    reveal_strlit("EqualsSegment");
    assert("JoinKeywordsGrammar"@.len() != "EqualsSegment"@.len());
    reveal_strlit("FunctionNameSegment");
    assert("JoinKeywordsGrammar"@[0] != "FunctionNameSegment"@[0]);
    reveal_strlit("GreaterThanOrEqualToSegment");
    assert("JoinKeywordsGrammar"@.len() != "GreaterThanOrEqualToSegment"@.len());
    reveal_strlit("GreaterThanSegment");
    assert("JoinKeywordsGrammar"@.len() != "GreaterThanSegment"@.len());
    reveal_strlit("IndexColumnDefinitionSegment");
    assert("JoinKeywordsGrammar"@.len() != "IndexColumnDefinitionSegment"@.len());
    reveal_strlit("LessThanOrEqualToSegment");
    assert("JoinKeywordsGrammar"@.len() != "LessThanOrEqualToSegment"@.len());
    reveal_strlit("LessThanSegment");
    assert("JoinKeywordsGrammar"@.len() != "LessThanSegment"@.len());
    reveal_strlit("LocalAliasSegment");
    assert("JoinKeywordsGrammar"@.len() != "LocalAliasSegment"@.len());
    reveal_strlit("MergeStatementSegment");
    assert("JoinKeywordsGrammar"@.len() != "MergeStatementSegment"@.len());
    reveal_strlit("NotEqualToSegment");
    assert("JoinKeywordsGrammar"@.len() != "NotEqualToSegment"@.len());
    reveal_strlit("QualifiedNumericLiteralSegment");
    assert("JoinKeywordsGrammar"@.len() != "QualifiedNumericLiteralSegment"@.len());
    reveal_strlit("WhenClauseSegment");
    assert("JoinKeywordsGrammar"@.len() != "WhenClauseSegment"@.len());
    reveal_strlit("WhereClauseSegment");
    assert("JoinKeywordsGrammar"@.len() != "WhereClauseSegment"@.len());
}

proof fn lemma_part_9_keeps_join_keywords_grammar(m: Map<Seq<char>, ElementView>)
    requires
        m.dom().contains("JoinKeywordsGrammar"@),
    ensures
        ansi_library_part_9(m).dom().contains("JoinKeywordsGrammar"@),
        ansi_library_part_9(m)["JoinKeywordsGrammar"@] == m["JoinKeywordsGrammar"@],
{
    reveal_strlit("JoinKeywordsGrammar");
    reveal_strlit("AliasExpressionSegment");
    assert("JoinKeywordsGrammar"@.len() != "AliasExpressionSegment"@.len());
    reveal_strlit("ArrayAccessorSegment");
    assert("JoinKeywordsGrammar"@.len() != "ArrayAccessorSegment"@.len());
    reveal_strlit("ArrayLiteralSegment");
    assert("JoinKeywordsGrammar"@[0] != "ArrayLiteralSegment"@[0]);
    reveal_strlit("ArrayTypeSegment");
    assert("JoinKeywordsGrammar"@.len() != "ArrayTypeSegment"@.len());
    reveal_strlit("BracketedArguments");
    assert("JoinKeywordsGrammar"@.len() != "BracketedArguments"@.len());
    reveal_strlit("DatatypeSegment");
    assert("JoinKeywordsGrammar"@.len() != "DatatypeSegment"@.len());
    reveal_strlit("EmptyStructLiteralSegment");
    assert("JoinKeywordsGrammar"@.len() != "EmptyStructLiteralSegment"@.len());
    reveal_strlit("IntervalExpressionSegment");
    assert("JoinKeywordsGrammar"@.len() != "IntervalExpressionSegment"@.len());
    reveal_strlit("ObjectLiteralElementSegment");
    assert("JoinKeywordsGrammar"@.len() != "ObjectLiteralElementSegment"@.len());
    reveal_strlit("ObjectLiteralSegment");
    assert("JoinKeywordsGrammar"@.len() != "ObjectLiteralSegment"@.len());
    reveal_strlit("OverlapsClauseSegment");
    assert("JoinKeywordsGrammar"@.len() != "OverlapsClauseSegment"@.len());
    reveal_strlit("SelectClauseSegment");
    assert("JoinKeywordsGrammar"@[0] != "SelectClauseSegment"@[0]);
    reveal_strlit("SetOperatorSegment");
    assert("JoinKeywordsGrammar"@.len() != "SetOperatorSegment"@.len());
    reveal_strlit("ShorthandCastSegment");
    assert("JoinKeywordsGrammar"@.len() != "ShorthandCastSegment"@.len());
    reveal_strlit("SizedArrayTypeSegment");
    assert("JoinKeywordsGrammar"@.len() != "SizedArrayTypeSegment"@.len());
    reveal_strlit("StatementSegment");
    assert("JoinKeywordsGrammar"@.len() != "StatementSegment"@.len());
    reveal_strlit("StructLiteralSegment");
    assert("JoinKeywordsGrammar"@.len() != "StructLiteralSegment"@.len());
    reveal_strlit("StructTypeSegment");
    assert("JoinKeywordsGrammar"@.len() != "StructTypeSegment"@.len());
    reveal_strlit("TimeZoneGrammar");
    assert("JoinKeywordsGrammar"@.len() != "TimeZoneGrammar"@.len());
    reveal_strlit("TypedArrayLiteralSegment");
    assert("JoinKeywordsGrammar"@.len() != "TypedArrayLiteralSegment"@.len());
    reveal_strlit("TypedStructLiteralSegment");
    assert("JoinKeywordsGrammar"@.len() != "TypedStructLiteralSegment"@.len());
    reveal_strlit("UnorderedSelectStatementSegment");
    assert("JoinKeywordsGrammar"@.len() != "UnorderedSelectStatementSegment"@.len());
    reveal_strlit("ValuesClauseSegment");
    assert("JoinKeywordsGrammar"@[0] != "ValuesClauseSegment"@[0]);
    reveal_strlit("WithDataClauseSegment");
    assert("JoinKeywordsGrammar"@.len() != "WithDataClauseSegment"@.len());
    reveal_strlit("WithNoSchemaBindingClauseSegment");
    assert("JoinKeywordsGrammar"@.len() != "WithNoSchemaBindingClauseSegment"@.len());
}

proof fn lemma_part_10_keeps_join_keywords_grammar(m: Map<Seq<char>, ElementView>)
    requires
        m.dom().contains("JoinKeywordsGrammar"@),
    ensures
        ansi_library_part_10(m).dom().contains("JoinKeywordsGrammar"@),
        ansi_library_part_10(m)["JoinKeywordsGrammar"@] == m["JoinKeywordsGrammar"@],
{
    reveal_strlit("JoinKeywordsGrammar");
    reveal_strlit("AccessStatementSegmentGrantRoleWithOptionGrammar");
    assert("JoinKeywordsGrammar"@.len() != "AccessStatementSegmentGrantRoleWithOptionGrammar"@.len());
    reveal_strlit("AliasedTableReferenceGrammar");
    assert("JoinKeywordsGrammar"@.len() != "AliasedTableReferenceGrammar"@.len());
    reveal_strlit("CharCharacterSetGrammar");
    assert("JoinKeywordsGrammar"@.len() != "CharCharacterSetGrammar"@.len());
    reveal_strlit("CreateSchemaStatementSegment");
    assert("JoinKeywordsGrammar"@.len() != "CreateSchemaStatementSegment"@.len());
    reveal_strlit("DatePartFunctionNameSegment");
    assert("JoinKeywordsGrammar"@.len() != "DatePartFunctionNameSegment"@.len());
    reveal_strlit("EmptyStructLiteralBracketsSegment");
    assert("JoinKeywordsGrammar"@.len() != "EmptyStructLiteralBracketsSegment"@.len());
    reveal_strlit("Expression_A_Grammar");
    assert("JoinKeywordsGrammar"@.len() != "Expression_A_Grammar"@.len());
    reveal_strlit("Expression_A_Unary_Operator_Grammar");
    assert("JoinKeywordsGrammar"@.len() != "Expression_A_Unary_Operator_Grammar"@.len());
    reveal_strlit("Expression_B_Unary_Operator_Grammar");
    assert("JoinKeywordsGrammar"@.len() != "Expression_B_Unary_Operator_Grammar"@.len());
    reveal_strlit("FromClauseSegment");
    assert("JoinKeywordsGrammar"@.len() != "FromClauseSegment"@.len());
    reveal_strlit("FromExpressionSegment");
    assert("JoinKeywordsGrammar"@.len() != "FromExpressionSegment"@.len());
    reveal_strlit("FunctionContentsExpressionGrammar");
    assert("JoinKeywordsGrammar"@.len() != "FunctionContentsExpressionGrammar"@.len());
    reveal_strlit("FunctionContentsGrammar");
    assert("JoinKeywordsGrammar"@.len() != "FunctionContentsGrammar"@.len());
    reveal_strlit("FunctionContentsSegment");
    assert("JoinKeywordsGrammar"@.len() != "FunctionContentsSegment"@.len());
    reveal_strlit("JoinLikeClauseGrammar");
    assert("JoinKeywordsGrammar"@.len() != "JoinLikeClauseGrammar"@.len());
    reveal_strlit("OrderByClauseSegment");
    assert("JoinKeywordsGrammar"@.len() != "OrderByClauseSegment"@.len());
    reveal_strlit("PostFunctionGrammar");
    assert("JoinKeywordsGrammar"@[0] != "PostFunctionGrammar"@[0]);
    reveal_strlit("SelectClauseElementSegment");
    assert("JoinKeywordsGrammar"@.len() != "SelectClauseElementSegment"@.len());
    reveal_strlit("SelectClauseModifierSegment");
    assert("JoinKeywordsGrammar"@.len() != "SelectClauseModifierSegment"@.len());
    reveal_strlit("SelectStatementSegment");
    assert("JoinKeywordsGrammar"@.len() != "SelectStatementSegment"@.len());
    reveal_strlit("SetExpressionSegment");
    assert("JoinKeywordsGrammar"@.len() != "SetExpressionSegment"@.len());
    reveal_strlit("Tail_Recurse_Expression_A_Grammar");
    assert("JoinKeywordsGrammar"@.len() != "Tail_Recurse_Expression_A_Grammar"@.len());
    reveal_strlit("Tail_Recurse_Expression_B_Grammar");
    assert("JoinKeywordsGrammar"@.len() != "Tail_Recurse_Expression_B_Grammar"@.len());
    reveal_strlit("TruncateStatementSegment");
    assert("JoinKeywordsGrammar"@.len() != "TruncateStatementSegment"@.len());
    reveal_strlit("WildcardExpressionSegment");
    assert("JoinKeywordsGrammar"@.len() != "WildcardExpressionSegment"@.len());
}

proof fn lemma_part_11_keeps_join_keywords_grammar(m: Map<Seq<char>, ElementView>)
    requires
        m.dom().contains("JoinKeywordsGrammar"@),
    ensures
        ansi_library_part_11(m).dom().contains("JoinKeywordsGrammar"@),
        ansi_library_part_11(m)["JoinKeywordsGrammar"@] == m["JoinKeywordsGrammar"@],
{
    reveal_strlit("JoinKeywordsGrammar");
    reveal_strlit("AccessorGrammar");
    assert("JoinKeywordsGrammar"@.len() != "AccessorGrammar"@.len());
    reveal_strlit("Expression_B_Grammar");
    assert("JoinKeywordsGrammar"@.len() != "Expression_B_Grammar"@.len());
    reveal_strlit("Expression_C_Grammar");
    assert("JoinKeywordsGrammar"@.len() != "Expression_C_Grammar"@.len());
    reveal_strlit("Expression_D_Grammar");
    assert("JoinKeywordsGrammar"@.len() != "Expression_D_Grammar"@.len());
    reveal_strlit("NonSetSelectableGrammar");
    assert("JoinKeywordsGrammar"@.len() != "NonSetSelectableGrammar"@.len());
    reveal_strlit("NonWithNonSelectableGrammar");
    assert("JoinKeywordsGrammar"@.len() != "NonWithNonSelectableGrammar"@.len());
    reveal_strlit("NonWithSelectableGrammar");
    assert("JoinKeywordsGrammar"@.len() != "NonWithSelectableGrammar"@.len());
    reveal_strlit("PostTableExpressionGrammar");
    assert("JoinKeywordsGrammar"@.len() != "PostTableExpressionGrammar"@.len());
    reveal_strlit("SelectableGrammar");
    assert("JoinKeywordsGrammar"@.len() != "SelectableGrammar"@.len());
    reveal_strlit("TimeWithTZGrammar");
    assert("JoinKeywordsGrammar"@.len() != "TimeWithTZGrammar"@.len());
}

/// The ANSI library holds `JoinKeywordsGrammar`: the value of its last entry of that name.
pub proof fn lemma_ansi_library_join_keywords_grammar(lib: Map<Seq<char>, ElementView>)
    ensures
        ansi_library(lib).dom().contains("JoinKeywordsGrammar"@),
        ansi_library(lib)["JoinKeywordsGrammar"@] == join_keywords_grammar_element(),
{
    reveal(ansi_library);
    let m0 = lib;
    let m1 = ansi_library_part_0(m0);
    let m2 = ansi_library_part_1(m1);
    let m3 = ansi_library_part_2(m2);
    let m4 = ansi_library_part_3(m3);
    let m5 = ansi_library_part_4(m4);
    let m6 = ansi_library_part_5(m5);
    let m7 = ansi_library_part_6(m6);
    let m8 = ansi_library_part_7(m7);
    let m9 = ansi_library_part_8(m8);
    let m10 = ansi_library_part_9(m9);
    let m11 = ansi_library_part_10(m10);
    let m12 = ansi_library_part_11(m11);
    lemma_part_3_sets_join_keywords_grammar(m3);
    lemma_part_4_keeps_join_keywords_grammar(m4);
    lemma_part_5_keeps_join_keywords_grammar(m5);
    lemma_part_6_keeps_join_keywords_grammar(m6);
    lemma_part_7_keeps_join_keywords_grammar(m7);
    lemma_part_8_keeps_join_keywords_grammar(m8);
    lemma_part_9_keeps_join_keywords_grammar(m9);
    lemma_part_10_keeps_join_keywords_grammar(m10);
    lemma_part_11_keeps_join_keywords_grammar(m11);
}

proof fn lemma_part_2_sets_union_grammar(m: Map<Seq<char>, ElementView>)
    ensures
        ansi_library_part_2(m).dom().contains("UnionGrammar"@),
        ansi_library_part_2(m)["UnionGrammar"@] == union_grammar_element(),
{
    reveal_strlit("UnionGrammar");
    reveal_strlit("InOperatorGrammar");
    assert("UnionGrammar"@.len() != "InOperatorGrammar"@.len());
    reveal_strlit("IsClauseGrammar");
    assert("UnionGrammar"@.len() != "IsClauseGrammar"@.len());
}

proof fn lemma_part_3_keeps_union_grammar(m: Map<Seq<char>, ElementView>)
    requires
        m.dom().contains("UnionGrammar"@),
    ensures
        ansi_library_part_3(m).dom().contains("UnionGrammar"@),
        ansi_library_part_3(m)["UnionGrammar"@] == m["UnionGrammar"@],
{
    reveal_strlit("UnionGrammar");
    reveal_strlit("AutoIncrementGrammar");
    assert("UnionGrammar"@.len() != "AutoIncrementGrammar"@.len());
    reveal_strlit("BaseExpressionElementGrammar");
    assert("UnionGrammar"@.len() != "BaseExpressionElementGrammar"@.len());
    reveal_strlit("CollateGrammar");
    assert("UnionGrammar"@.len() != "CollateGrammar"@.len());
    reveal_strlit("DropBehaviorGrammar");
    assert("UnionGrammar"@.len() != "DropBehaviorGrammar"@.len());
    reveal_strlit("ExtendedNaturalJoinKeywordsGrammar");
    assert("UnionGrammar"@.len() != "ExtendedNaturalJoinKeywordsGrammar"@.len());
    reveal_strlit("FilterClauseGrammar");
    assert("UnionGrammar"@.len() != "FilterClauseGrammar"@.len());
    reveal_strlit("ForeignKeyGrammar");
    assert("UnionGrammar"@.len() != "ForeignKeyGrammar"@.len());
    reveal_strlit("FrameClauseUnitGrammar");
    assert("UnionGrammar"@.len() != "FrameClauseUnitGrammar"@.len());
    reveal_strlit("FromClauseTerminatorGrammar");
    assert("UnionGrammar"@.len() != "FromClauseTerminatorGrammar"@.len());
    reveal_strlit("FunctionParameterGrammar");
    assert("UnionGrammar"@.len() != "FunctionParameterGrammar"@.len());
    reveal_strlit("GroupByClauseTerminatorGrammar");
    assert("UnionGrammar"@.len() != "GroupByClauseTerminatorGrammar"@.len());
    reveal_strlit("HavingClauseTerminatorGrammar");
    assert("UnionGrammar"@.len() != "HavingClauseTerminatorGrammar"@.len());
    reveal_strlit("IgnoreRespectNullsGrammar");
    assert("UnionGrammar"@.len() != "IgnoreRespectNullsGrammar"@.len());
    reveal_strlit("IsNullGrammar");
    assert("UnionGrammar"@.len() != "IsNullGrammar"@.len());
    reveal_strlit("JoinKeywordsGrammar");
    assert("UnionGrammar"@.len() != "JoinKeywordsGrammar"@.len());
    reveal_strlit("JoinTypeKeywordsGrammar");
    assert("UnionGrammar"@.len() != "JoinTypeKeywordsGrammar"@.len());
    reveal_strlit("NaturalJoinKeywordsGrammar");
    assert("UnionGrammar"@.len() != "NaturalJoinKeywordsGrammar"@.len());
    reveal_strlit("NestedJoinGrammar");
    assert("UnionGrammar"@.len() != "NestedJoinGrammar"@.len());
    reveal_strlit("NotNullGrammar");
    assert("UnionGrammar"@.len() != "NotNullGrammar"@.len());
    reveal_strlit("OrderByClauseTerminators");
    assert("UnionGrammar"@.len() != "OrderByClauseTerminators"@.len());
    reveal_strlit("PrimaryKeyGrammar");
    assert("UnionGrammar"@.len() != "PrimaryKeyGrammar"@.len());
    reveal_strlit("ReferentialActionGrammar");
    assert("UnionGrammar"@.len() != "ReferentialActionGrammar"@.len());
    reveal_strlit("SelectClauseTerminatorGrammar");
    assert("UnionGrammar"@.len() != "SelectClauseTerminatorGrammar"@.len());
    reveal_strlit("UniqueKeyGrammar");
    assert("UnionGrammar"@.len() != "UniqueKeyGrammar"@.len());
    reveal_strlit("WhereClauseTerminatorGrammar");
    assert("UnionGrammar"@.len() != "WhereClauseTerminatorGrammar"@.len());
}

proof fn lemma_part_4_keeps_union_grammar(m: Map<Seq<char>, ElementView>)
    requires
        m.dom().contains("UnionGrammar"@),
    ensures
        ansi_library_part_4(m).dom().contains("UnionGrammar"@),
        ansi_library_part_4(m)["UnionGrammar"@] == m["UnionGrammar"@],
{
    reveal_strlit("UnionGrammar");
    reveal_strlit("AlterTableDropColumnGrammar");
    assert("UnionGrammar"@.len() != "AlterTableDropColumnGrammar"@.len());
    reveal_strlit("AlterTableOptionsGrammar");
    assert("UnionGrammar"@.len() != "AlterTableOptionsGrammar"@.len());
    reveal_strlit("ColumnConstraintDefaultGrammar");
    assert("UnionGrammar"@.len() != "ColumnConstraintDefaultGrammar"@.len());
    reveal_strlit("ColumnReferenceSegment");
    assert("UnionGrammar"@.len() != "ColumnReferenceSegment"@.len());
    reveal_strlit("CubeFunctionNameSegment");
    assert("UnionGrammar"@.len() != "CubeFunctionNameSegment"@.len());
    reveal_strlit("CubeRollupClauseSegment");
    assert("UnionGrammar"@.len() != "CubeRollupClauseSegment"@.len());
    reveal_strlit("DateTimeFunctionContentsSegment");
    assert("UnionGrammar"@.len() != "DateTimeFunctionContentsSegment"@.len());
    reveal_strlit("DefaultValuesGrammar");
    assert("UnionGrammar"@.len() != "DefaultValuesGrammar"@.len());
    reveal_strlit("ExpressionSegment");
    assert("UnionGrammar"@.len() != "ExpressionSegment"@.len());
    reveal_strlit("FetchClauseSegment");
    assert("UnionGrammar"@.len() != "FetchClauseSegment"@.len());
    reveal_strlit("FileSegment");
    assert("UnionGrammar"@.len() != "FileSegment"@.len());
    reveal_strlit("FunctionSegment");
    assert("UnionGrammar"@.len() != "FunctionSegment"@.len());
    reveal_strlit("GroupingExpressionList");
    assert("UnionGrammar"@.len() != "GroupingExpressionList"@.len());
    reveal_strlit("GroupingSetsClauseSegment");
    assert("UnionGrammar"@.len() != "GroupingSetsClauseSegment"@.len());
    reveal_strlit("HavingClauseSegment");
    assert("UnionGrammar"@.len() != "HavingClauseSegment"@.len());
    reveal_strlit("LimitClauseSegment");
    assert("UnionGrammar"@.len() != "LimitClauseSegment"@.len());
    reveal_strlit("NamedWindowExpressionSegment");
    assert("UnionGrammar"@.len() != "NamedWindowExpressionSegment"@.len());
    reveal_strlit("ObjectReferenceDelimiterGrammar");
    assert("UnionGrammar"@.len() != "ObjectReferenceDelimiterGrammar"@.len());
    reveal_strlit("ObjectReferenceTerminatorGrammar");
    assert("UnionGrammar"@.len() != "ObjectReferenceTerminatorGrammar"@.len());
    reveal_strlit("PathSegment");
    assert("UnionGrammar"@.len() != "PathSegment"@.len());
    reveal_strlit("ReferenceDefinitionGrammar");
    assert("UnionGrammar"@.len() != "ReferenceDefinitionGrammar"@.len());
    reveal_strlit("RollupFunctionNameSegment");
    assert("UnionGrammar"@.len() != "RollupFunctionNameSegment"@.len());
    reveal_strlit("SetClauseSegment");
    assert("UnionGrammar"@.len() != "SetClauseSegment"@.len());
    reveal_strlit("TrimParametersGrammar");
    assert("UnionGrammar"@.len() != "TrimParametersGrammar"@.len());
    reveal_strlit("WildcardIdentifierSegment");
    assert("UnionGrammar"@.len() != "WildcardIdentifierSegment"@.len());
}

proof fn lemma_part_5_keeps_union_grammar(m: Map<Seq<char>, ElementView>)
    requires
        m.dom().contains("UnionGrammar"@),
    ensures
        ansi_library_part_5(m).dom().contains("UnionGrammar"@),
        ansi_library_part_5(m)["UnionGrammar"@] == m["UnionGrammar"@],
{
    reveal_strlit("UnionGrammar");
    reveal_strlit("AlterSequenceOptionsSegment");
    assert("UnionGrammar"@.len() != "AlterSequenceOptionsSegment"@.len());
    reveal_strlit("CTEColumnList");
    assert("UnionGrammar"@.len() != "CTEColumnList"@.len());
    reveal_strlit("CTEDefinitionSegment");
    assert("UnionGrammar"@.len() != "CTEDefinitionSegment"@.len());
    reveal_strlit("ColumnConstraintSegment");
    assert("UnionGrammar"@.len() != "ColumnConstraintSegment"@.len());
    reveal_strlit("ColumnDefinitionSegment");
    assert("UnionGrammar"@.len() != "ColumnDefinitionSegment"@.len());
    reveal_strlit("CommentClauseSegment");
    assert("UnionGrammar"@.len() != "CommentClauseSegment"@.len());
    reveal_strlit("ExtensionReferenceSegment");
    assert("UnionGrammar"@.len() != "ExtensionReferenceSegment"@.len());
    reveal_strlit("FrameClauseSegment");
    assert("UnionGrammar"@.len() != "FrameClauseSegment"@.len());
    reveal_strlit("FunctionDefinitionGrammar");
    assert("UnionGrammar"@.len() != "FunctionDefinitionGrammar"@.len());
    reveal_strlit("GroupByClauseSegment");
    assert("UnionGrammar"@.len() != "GroupByClauseSegment"@.len());
    reveal_strlit("MergeDeleteClauseSegment");
    assert("UnionGrammar"@.len() != "MergeDeleteClauseSegment"@.len());
    reveal_strlit("MergeInsertClauseSegment");
    assert("UnionGrammar"@.len() != "MergeInsertClauseSegment"@.len());
    reveal_strlit("MergeMatchSegment");
    assert("UnionGrammar"@.len() != "MergeMatchSegment"@.len());
    reveal_strlit("MergeMatchedClauseSegment");
    assert("UnionGrammar"@.len() != "MergeMatchedClauseSegment"@.len());
    reveal_strlit("MergeNotMatchedClauseSegment");
    assert("UnionGrammar"@.len() != "MergeNotMatchedClauseSegment"@.len());
    reveal_strlit("MergeUpdateClauseSegment");
    assert("UnionGrammar"@.len() != "MergeUpdateClauseSegment"@.len());
    reveal_strlit("RoleReferenceSegment");
    assert("UnionGrammar"@.len() != "RoleReferenceSegment"@.len());
    reveal_strlit("SchemaReferenceSegment");
    assert("UnionGrammar"@.len() != "SchemaReferenceSegment"@.len());
    reveal_strlit("SetClauseListSegment");
    assert("UnionGrammar"@.len() != "SetClauseListSegment"@.len());
    reveal_strlit("SingleIdentifierListSegment");
    assert("UnionGrammar"@.len() != "SingleIdentifierListSegment"@.len());
    reveal_strlit("TableEndClauseSegment");
    assert("UnionGrammar"@.len() != "TableEndClauseSegment"@.len());
    reveal_strlit("TablespaceReferenceSegment");
    assert("UnionGrammar"@.len() != "TablespaceReferenceSegment"@.len());
    reveal_strlit("TagReferenceSegment");
    assert("UnionGrammar"@.len() != "TagReferenceSegment"@.len());
    reveal_strlit("WithCompoundNonSelectStatementSegment");
    assert("UnionGrammar"@.len() != "WithCompoundNonSelectStatementSegment"@.len());
    reveal_strlit("WithCompoundStatementSegment");
    assert("UnionGrammar"@.len() != "WithCompoundStatementSegment"@.len());
}

proof fn lemma_part_6_keeps_union_grammar(m: Map<Seq<char>, ElementView>)
    requires
        m.dom().contains("UnionGrammar"@),
    ensures
        ansi_library_part_6(m).dom().contains("UnionGrammar"@),
        ansi_library_part_6(m)["UnionGrammar"@] == m["UnionGrammar"@],
{
    reveal_strlit("UnionGrammar");
    reveal_strlit("CollationReferenceSegment");
    assert("UnionGrammar"@.len() != "CollationReferenceSegment"@.len());
    reveal_strlit("CreateSequenceOptionsSegment");
    assert("UnionGrammar"@.len() != "CreateSequenceOptionsSegment"@.len());
    reveal_strlit("CreateSequenceStatementSegment");
    assert("UnionGrammar"@.len() != "CreateSequenceStatementSegment"@.len());
    reveal_strlit("CreateTriggerStatementSegment");
    assert("UnionGrammar"@.len() != "CreateTriggerStatementSegment"@.len());
    reveal_strlit("DatabaseReferenceSegment");
    assert("UnionGrammar"@.len() != "DatabaseReferenceSegment"@.len());
    reveal_strlit("DescribeStatementSegment");
    assert("UnionGrammar"@.len() != "DescribeStatementSegment"@.len());
    reveal_strlit("DropModelStatementSegment");
    assert("UnionGrammar"@.len() != "DropModelStatementSegment"@.len());
    reveal_strlit("DropTriggerStatementSegment");
    assert("UnionGrammar"@.len() != "DropTriggerStatementSegment"@.len());
    reveal_strlit("ExplainStatementSegment");
    assert("UnionGrammar"@.len() != "ExplainStatementSegment"@.len());
    reveal_strlit("IndexReferenceSegment");
    assert("UnionGrammar"@.len() != "IndexReferenceSegment"@.len());
    reveal_strlit("JoinClauseSegment");
    assert("UnionGrammar"@.len() != "JoinClauseSegment"@.len());
    reveal_strlit("JoinOnConditionSegment");
    assert("UnionGrammar"@.len() != "JoinOnConditionSegment"@.len());
    reveal_strlit("NamedWindowSegment");
    assert("UnionGrammar"@.len() != "NamedWindowSegment"@.len());
    reveal_strlit("OverClauseSegment");
    assert("UnionGrammar"@.len() != "OverClauseSegment"@.len());
    reveal_strlit("PartitionClauseSegment");
    assert("UnionGrammar"@.len() != "PartitionClauseSegment"@.len());
    reveal_strlit("SamplingExpressionSegment");
    assert("UnionGrammar"@.len() != "SamplingExpressionSegment"@.len());
    reveal_strlit("SequenceReferenceSegment");
    assert("UnionGrammar"@.len() != "SequenceReferenceSegment"@.len());
    reveal_strlit("TableConstraintSegment");
    assert("UnionGrammar"@.len() != "TableConstraintSegment"@.len());
    reveal_strlit("TableExpressionSegment");
    assert("UnionGrammar"@.len() != "TableExpressionSegment"@.len());
    reveal_strlit("TriggerReferenceSegment");
    assert("UnionGrammar"@.len() != "TriggerReferenceSegment"@.len());
    reveal_strlit("UseStatementSegment");
    assert("UnionGrammar"@.len() != "UseStatementSegment"@.len());
    reveal_strlit("WindowSpecificationSegment");
    assert("UnionGrammar"@.len() != "WindowSpecificationSegment"@.len());
}

proof fn lemma_part_7_keeps_union_grammar(m: Map<Seq<char>, ElementView>)
    requires
        m.dom().contains("UnionGrammar"@),
    ensures
        ansi_library_part_7(m).dom().contains("UnionGrammar"@),
        ansi_library_part_7(m)["UnionGrammar"@] == m["UnionGrammar"@],
{
    reveal_strlit("UnionGrammar");
    reveal_strlit("AccessStatementSegment");
    assert("UnionGrammar"@.len() != "AccessStatementSegment"@.len());
    reveal_strlit("AlterSequenceStatementSegment");
    assert("UnionGrammar"@.len() != "AlterSequenceStatementSegment"@.len());
    reveal_strlit("AlterTableStatementSegment");
    assert("UnionGrammar"@.len() != "AlterTableStatementSegment"@.len());
    reveal_strlit("CreateCastStatementSegment");
    assert("UnionGrammar"@.len() != "CreateCastStatementSegment"@.len());
    reveal_strlit("CreateDatabaseStatementSegment");
    assert("UnionGrammar"@.len() != "CreateDatabaseStatementSegment"@.len());
    reveal_strlit("CreateFunctionStatementSegment");
    assert("UnionGrammar"@.len() != "CreateFunctionStatementSegment"@.len());
    reveal_strlit("CreateIndexStatementSegment");
    assert("UnionGrammar"@.len() != "CreateIndexStatementSegment"@.len());
    reveal_strlit("CreateModelStatementSegment");
    assert("UnionGrammar"@.len() != "CreateModelStatementSegment"@.len());
    reveal_strlit("CreateRoleStatementSegment");
    assert("UnionGrammar"@.len() != "CreateRoleStatementSegment"@.len());
    reveal_strlit("CreateTableStatementSegment");
    assert("UnionGrammar"@.len() != "CreateTableStatementSegment"@.len());
    reveal_strlit("CreateViewStatementSegment");
    assert("UnionGrammar"@.len() != "CreateViewStatementSegment"@.len());
    reveal_strlit("DeleteStatementSegment");
    assert("UnionGrammar"@.len() != "DeleteStatementSegment"@.len());
    reveal_strlit("DropCastStatementSegment");
    assert("UnionGrammar"@.len() != "DropCastStatementSegment"@.len());
    reveal_strlit("DropDatabaseStatementSegment");
    assert("UnionGrammar"@.len() != "DropDatabaseStatementSegment"@.len());
    reveal_strlit("DropFunctionStatementSegment");
    assert("UnionGrammar"@.len() != "DropFunctionStatementSegment"@.len());
    reveal_strlit("DropIndexStatementSegment");
    assert("UnionGrammar"@.len() != "DropIndexStatementSegment"@.len());
    reveal_strlit("DropRoleStatementSegment");
    assert("UnionGrammar"@.len() != "DropRoleStatementSegment"@.len());
    reveal_strlit("DropSchemaStatementSegment");
    assert("UnionGrammar"@.len() != "DropSchemaStatementSegment"@.len());
    reveal_strlit("DropSequenceStatementSegment");
    assert("UnionGrammar"@.len() != "DropSequenceStatementSegment"@.len());
    reveal_strlit("DropTypeStatementSegment");
    assert("UnionGrammar"@.len() != "DropTypeStatementSegment"@.len());
    reveal_strlit("FunctionParameterListGrammar");
    assert("UnionGrammar"@.len() != "FunctionParameterListGrammar"@.len());
    reveal_strlit("InsertStatementSegment");
    assert("UnionGrammar"@.len() != "InsertStatementSegment"@.len());
    reveal_strlit("SetSchemaStatementSegment");
    assert("UnionGrammar"@.len() != "SetSchemaStatementSegment"@.len());
    reveal_strlit("TransactionStatementSegment");
    assert("UnionGrammar"@.len() != "TransactionStatementSegment"@.len());
    reveal_strlit("UpdateStatementSegment");
    assert("UnionGrammar"@.len() != "UpdateStatementSegment"@.len());
}

proof fn lemma_part_8_keeps_union_grammar(m: Map<Seq<char>, ElementView>)
    requires
        m.dom().contains("UnionGrammar"@),
    ensures
        ansi_library_part_8(m).dom().contains("UnionGrammar"@),
        ansi_library_part_8(m)["UnionGrammar"@] == m["UnionGrammar"@],
{
    reveal_strlit("UnionGrammar");
    reveal_strlit("AggregateOrderByClause");
    assert("UnionGrammar"@.len() != "AggregateOrderByClause"@.len());
    reveal_strlit("ArrayExpressionSegment");
    assert("UnionGrammar"@.len() != "ArrayExpressionSegment"@.len());
    reveal_strlit("BitwiseAndSegment");
    assert("UnionGrammar"@.len() != "BitwiseAndSegment"@.len());
    reveal_strlit("BitwiseLShiftSegment");
    assert("UnionGrammar"@.len() != "BitwiseLShiftSegment"@.len());
    reveal_strlit("BitwiseOrSegment");
    assert("UnionGrammar"@.len() != "BitwiseOrSegment"@.len());
    reveal_strlit("BitwiseRShiftSegment");
    assert("UnionGrammar"@.len() != "BitwiseRShiftSegment"@.len());
    reveal_strlit("ConcatSegment");
    assert("UnionGrammar"@.len() != "ConcatSegment"@.len());
    reveal_strlit("CreateUserStatementSegment");
    assert("UnionGrammar"@.len() != "CreateUserStatementSegment"@.len());
    reveal_strlit("DropTableStatementSegment");
    assert("UnionGrammar"@.len() != "DropTableStatementSegment"@.len());
    reveal_strlit("DropUserStatementSegment");
    assert("UnionGrammar"@.len() != "DropUserStatementSegment"@.len());
    reveal_strlit("DropViewStatementSegment");
    assert("UnionGrammar"@.len() != "DropViewStatementSegment"@.len());
    reveal_strlit("ElseClauseSegment");
    assert("UnionGrammar"@.len() != "ElseClauseSegment"@.len());
    reveal_strlit("EqualsSegment");
    assert("UnionGrammar"@.len() != "EqualsSegment"@.len());
    reveal_strlit("FunctionNameSegment");
    assert("UnionGrammar"@.len() != "FunctionNameSegment"@.len());
    reveal_strlit("GreaterThanOrEqualToSegment");
    assert("UnionGrammar"@.len() != "GreaterThanOrEqualToSegment"@.len());
    reveal_strlit("GreaterThanSegment");
    assert("UnionGrammar"@.len() != "GreaterThanSegment"@.len());
    reveal_strlit("IndexColumnDefinitionSegment");
    assert("UnionGrammar"@.len() != "IndexColumnDefinitionSegment"@.len());
    reveal_strlit("LessThanOrEqualToSegment");
    assert("UnionGrammar"@.len() != "LessThanOrEqualToSegment"@.len());
    reveal_strlit("LessThanSegment");
    assert("UnionGrammar"@.len() != "LessThanSegment"@.len());
    reveal_strlit("LocalAliasSegment");
    assert("UnionGrammar"@.len() != "LocalAliasSegment"@.len());
    reveal_strlit("MergeStatementSegment");
    assert("UnionGrammar"@.len() != "MergeStatementSegment"@.len());
    reveal_strlit("NotEqualToSegment");
    assert("UnionGrammar"@.len() != "NotEqualToSegment"@.len());
    reveal_strlit("QualifiedNumericLiteralSegment");
    assert("UnionGrammar"@.len() != "QualifiedNumericLiteralSegment"@.len());
    reveal_strlit("WhenClauseSegment");
    assert("UnionGrammar"@.len() != "WhenClauseSegment"@.len());
    reveal_strlit("WhereClauseSegment");
    assert("UnionGrammar"@.len() != "WhereClauseSegment"@.len());
}

proof fn lemma_part_9_keeps_union_grammar(m: Map<Seq<char>, ElementView>)
    requires
        m.dom().contains("UnionGrammar"@),
    ensures
        ansi_library_part_9(m).dom().contains("UnionGrammar"@),
        ansi_library_part_9(m)["UnionGrammar"@] == m["UnionGrammar"@],
{
    reveal_strlit("UnionGrammar");
    reveal_strlit("AliasExpressionSegment");
    assert("UnionGrammar"@.len() != "AliasExpressionSegment"@.len());
    reveal_strlit("ArrayAccessorSegment");
    assert("UnionGrammar"@.len() != "ArrayAccessorSegment"@.len());
    reveal_strlit("ArrayLiteralSegment");
    assert("UnionGrammar"@.len() != "ArrayLiteralSegment"@.len());
    reveal_strlit("ArrayTypeSegment");
    assert("UnionGrammar"@.len() != "ArrayTypeSegment"@.len());
    reveal_strlit("BracketedArguments");
    assert("UnionGrammar"@.len() != "BracketedArguments"@.len());
    reveal_strlit("DatatypeSegment");
    assert("UnionGrammar"@.len() != "DatatypeSegment"@.len());
    reveal_strlit("EmptyStructLiteralSegment");
    assert("UnionGrammar"@.len() != "EmptyStructLiteralSegment"@.len());
    reveal_strlit("IntervalExpressionSegment");
    assert("UnionGrammar"@.len() != "IntervalExpressionSegment"@.len());
    reveal_strlit("ObjectLiteralElementSegment");
    assert("UnionGrammar"@.len() != "ObjectLiteralElementSegment"@.len());
    reveal_strlit("ObjectLiteralSegment");
    assert("UnionGrammar"@.len() != "ObjectLiteralSegment"@.len());
    reveal_strlit("OverlapsClauseSegment");
    assert("UnionGrammar"@.len() != "OverlapsClauseSegment"@.len());
    reveal_strlit("SelectClauseSegment");
    assert("UnionGrammar"@.len() != "SelectClauseSegment"@.len());
    reveal_strlit("SetOperatorSegment");
    assert("UnionGrammar"@.len() != "SetOperatorSegment"@.len());
    reveal_strlit("ShorthandCastSegment");
    assert("UnionGrammar"@.len() != "ShorthandCastSegment"@.len());
    reveal_strlit("SizedArrayTypeSegment");
    assert("UnionGrammar"@.len() != "SizedArrayTypeSegment"@.len());
    reveal_strlit("StatementSegment");
    assert("UnionGrammar"@.len() != "StatementSegment"@.len());
    reveal_strlit("StructLiteralSegment");
    assert("UnionGrammar"@.len() != "StructLiteralSegment"@.len());
    reveal_strlit("StructTypeSegment");
    assert("UnionGrammar"@.len() != "StructTypeSegment"@.len());
    reveal_strlit("TimeZoneGrammar");
    assert("UnionGrammar"@.len() != "TimeZoneGrammar"@.len());
    reveal_strlit("TypedArrayLiteralSegment");
    assert("UnionGrammar"@.len() != "TypedArrayLiteralSegment"@.len());
    reveal_strlit("TypedStructLiteralSegment");
    assert("UnionGrammar"@.len() != "TypedStructLiteralSegment"@.len());
    reveal_strlit("UnorderedSelectStatementSegment");
    assert("UnionGrammar"@.len() != "UnorderedSelectStatementSegment"@.len());
    reveal_strlit("ValuesClauseSegment");
    assert("UnionGrammar"@.len() != "ValuesClauseSegment"@.len());
    reveal_strlit("WithDataClauseSegment");
    assert("UnionGrammar"@.len() != "WithDataClauseSegment"@.len());
    reveal_strlit("WithNoSchemaBindingClauseSegment");
    assert("UnionGrammar"@.len() != "WithNoSchemaBindingClauseSegment"@.len());
}

proof fn lemma_part_10_keeps_union_grammar(m: Map<Seq<char>, ElementView>)
    requires
        m.dom().contains("UnionGrammar"@),
    ensures
        ansi_library_part_10(m).dom().contains("UnionGrammar"@),
        ansi_library_part_10(m)["UnionGrammar"@] == m["UnionGrammar"@],
{
    reveal_strlit("UnionGrammar");
    reveal_strlit("AccessStatementSegmentGrantRoleWithOptionGrammar");
    assert("UnionGrammar"@.len() != "AccessStatementSegmentGrantRoleWithOptionGrammar"@.len());
    reveal_strlit("AliasedTableReferenceGrammar");
    assert("UnionGrammar"@.len() != "AliasedTableReferenceGrammar"@.len());
    reveal_strlit("CharCharacterSetGrammar");
    assert("UnionGrammar"@.len() != "CharCharacterSetGrammar"@.len());
    reveal_strlit("CreateSchemaStatementSegment");
    assert("UnionGrammar"@.len() != "CreateSchemaStatementSegment"@.len());
    reveal_strlit("DatePartFunctionNameSegment");
    assert("UnionGrammar"@.len() != "DatePartFunctionNameSegment"@.len());
    reveal_strlit("EmptyStructLiteralBracketsSegment");
    assert("UnionGrammar"@.len() != "EmptyStructLiteralBracketsSegment"@.len());
    reveal_strlit("Expression_A_Grammar");
    assert("UnionGrammar"@.len() != "Expression_A_Grammar"@.len());
    reveal_strlit("Expression_A_Unary_Operator_Grammar");
    assert("UnionGrammar"@.len() != "Expression_A_Unary_Operator_Grammar"@.len());
    reveal_strlit("Expression_B_Unary_Operator_Grammar");
    assert("UnionGrammar"@.len() != "Expression_B_Unary_Operator_Grammar"@.len());
    reveal_strlit("FromClauseSegment");
    assert("UnionGrammar"@.len() != "FromClauseSegment"@.len());
    reveal_strlit("FromExpressionSegment");
    assert("UnionGrammar"@.len() != "FromExpressionSegment"@.len());
    reveal_strlit("FunctionContentsExpressionGrammar");
    assert("UnionGrammar"@.len() != "FunctionContentsExpressionGrammar"@.len());
    reveal_strlit("FunctionContentsGrammar");
    assert("UnionGrammar"@.len() != "FunctionContentsGrammar"@.len());
    reveal_strlit("FunctionContentsSegment");
    assert("UnionGrammar"@.len() != "FunctionContentsSegment"@.len());
    reveal_strlit("JoinLikeClauseGrammar");
    assert("UnionGrammar"@.len() != "JoinLikeClauseGrammar"@.len());
    reveal_strlit("OrderByClauseSegment");
    assert("UnionGrammar"@.len() != "OrderByClauseSegment"@.len());
    reveal_strlit("PostFunctionGrammar");
    assert("UnionGrammar"@.len() != "PostFunctionGrammar"@.len());
    reveal_strlit("SelectClauseElementSegment");
    assert("UnionGrammar"@.len() != "SelectClauseElementSegment"@.len());
    reveal_strlit("SelectClauseModifierSegment");
    assert("UnionGrammar"@.len() != "SelectClauseModifierSegment"@.len());
    reveal_strlit("SelectStatementSegment");
    assert("UnionGrammar"@.len() != "SelectStatementSegment"@.len());
    reveal_strlit("SetExpressionSegment");
    assert("UnionGrammar"@.len() != "SetExpressionSegment"@.len());
    reveal_strlit("Tail_Recurse_Expression_A_Grammar");
    assert("UnionGrammar"@.len() != "Tail_Recurse_Expression_A_Grammar"@.len());
    reveal_strlit("Tail_Recurse_Expression_B_Grammar");
    assert("UnionGrammar"@.len() != "Tail_Recurse_Expression_B_Grammar"@.len());
    reveal_strlit("TruncateStatementSegment");
    assert("UnionGrammar"@.len() != "TruncateStatementSegment"@.len());
    reveal_strlit("WildcardExpressionSegment");
    assert("UnionGrammar"@.len() != "WildcardExpressionSegment"@.len());
}

proof fn lemma_part_11_keeps_union_grammar(m: Map<Seq<char>, ElementView>)
    requires
        m.dom().contains("UnionGrammar"@),
    ensures
        ansi_library_part_11(m).dom().contains("UnionGrammar"@),
        ansi_library_part_11(m)["UnionGrammar"@] == m["UnionGrammar"@],
{
    reveal_strlit("UnionGrammar");
    reveal_strlit("AccessorGrammar");
    assert("UnionGrammar"@.len() != "AccessorGrammar"@.len());
    reveal_strlit("Expression_B_Grammar");
    assert("UnionGrammar"@.len() != "Expression_B_Grammar"@.len());
    reveal_strlit("Expression_C_Grammar");
    assert("UnionGrammar"@.len() != "Expression_C_Grammar"@.len());
    reveal_strlit("Expression_D_Grammar");
    assert("UnionGrammar"@.len() != "Expression_D_Grammar"@.len());
    reveal_strlit("NonSetSelectableGrammar");
    assert("UnionGrammar"@.len() != "NonSetSelectableGrammar"@.len());
    reveal_strlit("NonWithNonSelectableGrammar");
    assert("UnionGrammar"@.len() != "NonWithNonSelectableGrammar"@.len());
    reveal_strlit("NonWithSelectableGrammar");
    assert("UnionGrammar"@.len() != "NonWithSelectableGrammar"@.len());
    reveal_strlit("PostTableExpressionGrammar");
    assert("UnionGrammar"@.len() != "PostTableExpressionGrammar"@.len());
    reveal_strlit("SelectableGrammar");
    assert("UnionGrammar"@.len() != "SelectableGrammar"@.len());
    reveal_strlit("TimeWithTZGrammar");
    assert("UnionGrammar"@.len() != "TimeWithTZGrammar"@.len());
}

/// The ANSI library holds `UnionGrammar`: the value of its last entry of that name.
pub proof fn lemma_ansi_library_union_grammar(lib: Map<Seq<char>, ElementView>)
    ensures
        ansi_library(lib).dom().contains("UnionGrammar"@),
        ansi_library(lib)["UnionGrammar"@] == union_grammar_element(),
{
    reveal(ansi_library);
    let m0 = lib;
    let m1 = ansi_library_part_0(m0);
    let m2 = ansi_library_part_1(m1);
    let m3 = ansi_library_part_2(m2);
    let m4 = ansi_library_part_3(m3);
    let m5 = ansi_library_part_4(m4);
    let m6 = ansi_library_part_5(m5);
    let m7 = ansi_library_part_6(m6);
    let m8 = ansi_library_part_7(m7);
    let m9 = ansi_library_part_8(m8);
    let m10 = ansi_library_part_9(m9);
    let m11 = ansi_library_part_10(m10);
    let m12 = ansi_library_part_11(m11);
    lemma_part_2_sets_union_grammar(m2);
    lemma_part_3_keeps_union_grammar(m3);
    lemma_part_4_keeps_union_grammar(m4);
    lemma_part_5_keeps_union_grammar(m5);
    lemma_part_6_keeps_union_grammar(m6);
    lemma_part_7_keeps_union_grammar(m7);
    lemma_part_8_keeps_union_grammar(m8);
    lemma_part_9_keeps_union_grammar(m9);
    lemma_part_10_keeps_union_grammar(m10);
    lemma_part_11_keeps_union_grammar(m11);
}

proof fn lemma_part_9_sets_set_operator_segment(m: Map<Seq<char>, ElementView>)
    ensures
        ansi_library_part_9(m).dom().contains("SetOperatorSegment"@),
        ansi_library_part_9(m)["SetOperatorSegment"@] == set_operator_segment_element(),
{
    reveal_strlit("SetOperatorSegment");
    reveal_strlit("AliasExpressionSegment");
    assert("SetOperatorSegment"@.len() != "AliasExpressionSegment"@.len());
    reveal_strlit("ArrayAccessorSegment");
    assert("SetOperatorSegment"@.len() != "ArrayAccessorSegment"@.len());
    reveal_strlit("ArrayLiteralSegment");
    assert("SetOperatorSegment"@.len() != "ArrayLiteralSegment"@.len());
    reveal_strlit("ArrayTypeSegment");
    assert("SetOperatorSegment"@.len() != "ArrayTypeSegment"@.len());
    reveal_strlit("BracketedArguments");
    assert("SetOperatorSegment"@[0] != "BracketedArguments"@[0]);
    reveal_strlit("DatatypeSegment");
    assert("SetOperatorSegment"@.len() != "DatatypeSegment"@.len());
    reveal_strlit("EmptyStructLiteralSegment");
    assert("SetOperatorSegment"@.len() != "EmptyStructLiteralSegment"@.len());
    reveal_strlit("IntervalExpressionSegment");
    assert("SetOperatorSegment"@.len() != "IntervalExpressionSegment"@.len());
    reveal_strlit("ObjectLiteralElementSegment");
    assert("SetOperatorSegment"@.len() != "ObjectLiteralElementSegment"@.len());
    reveal_strlit("ObjectLiteralSegment");
    assert("SetOperatorSegment"@.len() != "ObjectLiteralSegment"@.len());
    reveal_strlit("OverlapsClauseSegment");
    assert("SetOperatorSegment"@.len() != "OverlapsClauseSegment"@.len());
    reveal_strlit("SelectClauseSegment");
    assert("SetOperatorSegment"@.len() != "SelectClauseSegment"@.len());
    reveal_strlit("ShorthandCastSegment");
    assert("SetOperatorSegment"@.len() != "ShorthandCastSegment"@.len());
    reveal_strlit("SizedArrayTypeSegment");
    assert("SetOperatorSegment"@.len() != "SizedArrayTypeSegment"@.len());
    reveal_strlit("StatementSegment");
    assert("SetOperatorSegment"@.len() != "StatementSegment"@.len());
    reveal_strlit("StructLiteralSegment");
    assert("SetOperatorSegment"@.len() != "StructLiteralSegment"@.len());
    reveal_strlit("StructTypeSegment");
    assert("SetOperatorSegment"@.len() != "StructTypeSegment"@.len());
    reveal_strlit("TimeZoneGrammar");
    assert("SetOperatorSegment"@.len() != "TimeZoneGrammar"@.len());
    reveal_strlit("TypedArrayLiteralSegment");
    assert("SetOperatorSegment"@.len() != "TypedArrayLiteralSegment"@.len());
    reveal_strlit("TypedStructLiteralSegment");
    assert("SetOperatorSegment"@.len() != "TypedStructLiteralSegment"@.len());
    reveal_strlit("UnorderedSelectStatementSegment");
    assert("SetOperatorSegment"@.len() != "UnorderedSelectStatementSegment"@.len());
    reveal_strlit("ValuesClauseSegment");
    assert("SetOperatorSegment"@.len() != "ValuesClauseSegment"@.len());
    reveal_strlit("WithDataClauseSegment");
    assert("SetOperatorSegment"@.len() != "WithDataClauseSegment"@.len());
    reveal_strlit("WithNoSchemaBindingClauseSegment");
    assert("SetOperatorSegment"@.len() != "WithNoSchemaBindingClauseSegment"@.len());
}

proof fn lemma_part_10_keeps_set_operator_segment(m: Map<Seq<char>, ElementView>)
    requires
        m.dom().contains("SetOperatorSegment"@),
    ensures
        ansi_library_part_10(m).dom().contains("SetOperatorSegment"@),
        ansi_library_part_10(m)["SetOperatorSegment"@] == m["SetOperatorSegment"@],
{
    reveal_strlit("SetOperatorSegment");
    reveal_strlit("AccessStatementSegmentGrantRoleWithOptionGrammar");
    assert("SetOperatorSegment"@.len() != "AccessStatementSegmentGrantRoleWithOptionGrammar"@.len());
    reveal_strlit("AliasedTableReferenceGrammar");
    assert("SetOperatorSegment"@.len() != "AliasedTableReferenceGrammar"@.len());
    reveal_strlit("CharCharacterSetGrammar");
    assert("SetOperatorSegment"@.len() != "CharCharacterSetGrammar"@.len());
    reveal_strlit("CreateSchemaStatementSegment");
    assert("SetOperatorSegment"@.len() != "CreateSchemaStatementSegment"@.len());
    reveal_strlit("DatePartFunctionNameSegment");
    assert("SetOperatorSegment"@.len() != "DatePartFunctionNameSegment"@.len());
    reveal_strlit("EmptyStructLiteralBracketsSegment");
    assert("SetOperatorSegment"@.len() != "EmptyStructLiteralBracketsSegment"@.len());
    reveal_strlit("Expression_A_Grammar");
    assert("SetOperatorSegment"@.len() != "Expression_A_Grammar"@.len());
    reveal_strlit("Expression_A_Unary_Operator_Grammar");
    assert("SetOperatorSegment"@.len() != "Expression_A_Unary_Operator_Grammar"@.len());
    reveal_strlit("Expression_B_Unary_Operator_Grammar");
    assert("SetOperatorSegment"@.len() != "Expression_B_Unary_Operator_Grammar"@.len());
    reveal_strlit("FromClauseSegment");
    assert("SetOperatorSegment"@.len() != "FromClauseSegment"@.len());
    reveal_strlit("FromExpressionSegment");
    assert("SetOperatorSegment"@.len() != "FromExpressionSegment"@.len());
    reveal_strlit("FunctionContentsExpressionGrammar");
    assert("SetOperatorSegment"@.len() != "FunctionContentsExpressionGrammar"@.len());
    reveal_strlit("FunctionContentsGrammar");
    assert("SetOperatorSegment"@.len() != "FunctionContentsGrammar"@.len());
    reveal_strlit("FunctionContentsSegment");
    assert("SetOperatorSegment"@.len() != "FunctionContentsSegment"@.len());
    reveal_strlit("JoinLikeClauseGrammar");
    assert("SetOperatorSegment"@.len() != "JoinLikeClauseGrammar"@.len());
    reveal_strlit("OrderByClauseSegment");
    assert("SetOperatorSegment"@.len() != "OrderByClauseSegment"@.len());
    reveal_strlit("PostFunctionGrammar");
    assert("SetOperatorSegment"@.len() != "PostFunctionGrammar"@.len());
    reveal_strlit("SelectClauseElementSegment");
    assert("SetOperatorSegment"@.len() != "SelectClauseElementSegment"@.len());
    reveal_strlit("SelectClauseModifierSegment");
    assert("SetOperatorSegment"@.len() != "SelectClauseModifierSegment"@.len());
    reveal_strlit("SelectStatementSegment");
    assert("SetOperatorSegment"@.len() != "SelectStatementSegment"@.len());
    reveal_strlit("SetExpressionSegment");
    assert("SetOperatorSegment"@.len() != "SetExpressionSegment"@.len());
    reveal_strlit("Tail_Recurse_Expression_A_Grammar");
    assert("SetOperatorSegment"@.len() != "Tail_Recurse_Expression_A_Grammar"@.len());
    reveal_strlit("Tail_Recurse_Expression_B_Grammar");
    assert("SetOperatorSegment"@.len() != "Tail_Recurse_Expression_B_Grammar"@.len());
    reveal_strlit("TruncateStatementSegment");
    assert("SetOperatorSegment"@.len() != "TruncateStatementSegment"@.len());
    reveal_strlit("WildcardExpressionSegment");
    assert("SetOperatorSegment"@.len() != "WildcardExpressionSegment"@.len());
}

proof fn lemma_part_11_keeps_set_operator_segment(m: Map<Seq<char>, ElementView>)
    requires
        m.dom().contains("SetOperatorSegment"@),
    ensures
        ansi_library_part_11(m).dom().contains("SetOperatorSegment"@),
        ansi_library_part_11(m)["SetOperatorSegment"@] == m["SetOperatorSegment"@],
{
    reveal_strlit("SetOperatorSegment");
    reveal_strlit("AccessorGrammar");
    assert("SetOperatorSegment"@.len() != "AccessorGrammar"@.len());
    reveal_strlit("Expression_B_Grammar");
    assert("SetOperatorSegment"@.len() != "Expression_B_Grammar"@.len());
    reveal_strlit("Expression_C_Grammar");
    assert("SetOperatorSegment"@.len() != "Expression_C_Grammar"@.len());
    reveal_strlit("Expression_D_Grammar");
    assert("SetOperatorSegment"@.len() != "Expression_D_Grammar"@.len());
    reveal_strlit("NonSetSelectableGrammar");
    assert("SetOperatorSegment"@.len() != "NonSetSelectableGrammar"@.len());
    reveal_strlit("NonWithNonSelectableGrammar");
    assert("SetOperatorSegment"@.len() != "NonWithNonSelectableGrammar"@.len());
    reveal_strlit("NonWithSelectableGrammar");
    assert("SetOperatorSegment"@.len() != "NonWithSelectableGrammar"@.len());
    reveal_strlit("PostTableExpressionGrammar");
    assert("SetOperatorSegment"@.len() != "PostTableExpressionGrammar"@.len());
    reveal_strlit("SelectableGrammar");
    assert("SetOperatorSegment"@.len() != "SelectableGrammar"@.len());
    reveal_strlit("TimeWithTZGrammar");
    assert("SetOperatorSegment"@.len() != "TimeWithTZGrammar"@.len());
}

/// The ANSI library holds `SetOperatorSegment`: the value of its last entry of that name.
pub proof fn lemma_ansi_library_set_operator_segment(lib: Map<Seq<char>, ElementView>)
    ensures
        ansi_library(lib).dom().contains("SetOperatorSegment"@),
        ansi_library(lib)["SetOperatorSegment"@] == set_operator_segment_element(),
{
    reveal(ansi_library);
    let m0 = lib;
    let m1 = ansi_library_part_0(m0);
    let m2 = ansi_library_part_1(m1);
    let m3 = ansi_library_part_2(m2);
    let m4 = ansi_library_part_3(m3);
    let m5 = ansi_library_part_4(m4);
    let m6 = ansi_library_part_5(m5);
    let m7 = ansi_library_part_6(m6);
    let m8 = ansi_library_part_7(m7);
    let m9 = ansi_library_part_8(m8);
    let m10 = ansi_library_part_9(m9);
    let m11 = ansi_library_part_10(m10);
    let m12 = ansi_library_part_11(m11);
    lemma_part_9_sets_set_operator_segment(m9);
    lemma_part_10_keeps_set_operator_segment(m10);
    lemma_part_11_keeps_set_operator_segment(m11);
}

proof fn lemma_part_8_sets_where_clause_segment(m: Map<Seq<char>, ElementView>)
    ensures
        ansi_library_part_8(m).dom().contains("WhereClauseSegment"@),
        ansi_library_part_8(m)["WhereClauseSegment"@] == where_clause_segment_element(),
{
    reveal_strlit("WhereClauseSegment");
}

proof fn lemma_part_9_keeps_where_clause_segment(m: Map<Seq<char>, ElementView>)
    requires
        m.dom().contains("WhereClauseSegment"@),
    ensures
        ansi_library_part_9(m).dom().contains("WhereClauseSegment"@),
        ansi_library_part_9(m)["WhereClauseSegment"@] == m["WhereClauseSegment"@],
{
    reveal_strlit("WhereClauseSegment");
    reveal_strlit("AliasExpressionSegment");
    assert("WhereClauseSegment"@.len() != "AliasExpressionSegment"@.len());
    reveal_strlit("ArrayAccessorSegment");
    assert("WhereClauseSegment"@.len() != "ArrayAccessorSegment"@.len());
    reveal_strlit("ArrayLiteralSegment");
    assert("WhereClauseSegment"@.len() != "ArrayLiteralSegment"@.len());
    reveal_strlit("ArrayTypeSegment");
    assert("WhereClauseSegment"@.len() != "ArrayTypeSegment"@.len());
    reveal_strlit("BracketedArguments");
    assert("WhereClauseSegment"@[0] != "BracketedArguments"@[0]);
    reveal_strlit("DatatypeSegment");
    assert("WhereClauseSegment"@.len() != "DatatypeSegment"@.len());
    reveal_strlit("EmptyStructLiteralSegment");
    assert("WhereClauseSegment"@.len() != "EmptyStructLiteralSegment"@.len());
    reveal_strlit("IntervalExpressionSegment");
    assert("WhereClauseSegment"@.len() != "IntervalExpressionSegment"@.len());
    reveal_strlit("ObjectLiteralElementSegment");
    assert("WhereClauseSegment"@.len() != "ObjectLiteralElementSegment"@.len());
    reveal_strlit("ObjectLiteralSegment");
    assert("WhereClauseSegment"@.len() != "ObjectLiteralSegment"@.len());
    reveal_strlit("OverlapsClauseSegment");
    assert("WhereClauseSegment"@.len() != "OverlapsClauseSegment"@.len());
    reveal_strlit("SelectClauseSegment");
    assert("WhereClauseSegment"@.len() != "SelectClauseSegment"@.len());
    reveal_strlit("SetOperatorSegment");
    assert("WhereClauseSegment"@[0] != "SetOperatorSegment"@[0]);
    reveal_strlit("ShorthandCastSegment");
    assert("WhereClauseSegment"@.len() != "ShorthandCastSegment"@.len());
    reveal_strlit("SizedArrayTypeSegment");
    assert("WhereClauseSegment"@.len() != "SizedArrayTypeSegment"@.len());
    reveal_strlit("StatementSegment");
    assert("WhereClauseSegment"@.len() != "StatementSegment"@.len());
    reveal_strlit("StructLiteralSegment");
    assert("WhereClauseSegment"@.len() != "StructLiteralSegment"@.len());
    reveal_strlit("StructTypeSegment");
    assert("WhereClauseSegment"@.len() != "StructTypeSegment"@.len());
    reveal_strlit("TimeZoneGrammar");
    assert("WhereClauseSegment"@.len() != "TimeZoneGrammar"@.len());
    reveal_strlit("TypedArrayLiteralSegment");
    assert("WhereClauseSegment"@.len() != "TypedArrayLiteralSegment"@.len());
    reveal_strlit("TypedStructLiteralSegment");
    assert("WhereClauseSegment"@.len() != "TypedStructLiteralSegment"@.len());
    reveal_strlit("UnorderedSelectStatementSegment");
    assert("WhereClauseSegment"@.len() != "UnorderedSelectStatementSegment"@.len());
    reveal_strlit("ValuesClauseSegment");
    assert("WhereClauseSegment"@.len() != "ValuesClauseSegment"@.len());
    reveal_strlit("WithDataClauseSegment");
    assert("WhereClauseSegment"@.len() != "WithDataClauseSegment"@.len());
    reveal_strlit("WithNoSchemaBindingClauseSegment");
    assert("WhereClauseSegment"@.len() != "WithNoSchemaBindingClauseSegment"@.len());
}

proof fn lemma_part_10_keeps_where_clause_segment(m: Map<Seq<char>, ElementView>)
    requires
        m.dom().contains("WhereClauseSegment"@),
    ensures
        ansi_library_part_10(m).dom().contains("WhereClauseSegment"@),
        ansi_library_part_10(m)["WhereClauseSegment"@] == m["WhereClauseSegment"@],
{
    reveal_strlit("WhereClauseSegment");
    reveal_strlit("AccessStatementSegmentGrantRoleWithOptionGrammar");
    assert("WhereClauseSegment"@.len() != "AccessStatementSegmentGrantRoleWithOptionGrammar"@.len());
    reveal_strlit("AliasedTableReferenceGrammar");
    assert("WhereClauseSegment"@.len() != "AliasedTableReferenceGrammar"@.len());
    reveal_strlit("CharCharacterSetGrammar");
    assert("WhereClauseSegment"@.len() != "CharCharacterSetGrammar"@.len());
    reveal_strlit("CreateSchemaStatementSegment");
    assert("WhereClauseSegment"@.len() != "CreateSchemaStatementSegment"@.len());
    reveal_strlit("DatePartFunctionNameSegment");
    assert("WhereClauseSegment"@.len() != "DatePartFunctionNameSegment"@.len());
    reveal_strlit("EmptyStructLiteralBracketsSegment");
    assert("WhereClauseSegment"@.len() != "EmptyStructLiteralBracketsSegment"@.len());
    reveal_strlit("Expression_A_Grammar");
    assert("WhereClauseSegment"@.len() != "Expression_A_Grammar"@.len());
    reveal_strlit("Expression_A_Unary_Operator_Grammar");
    assert("WhereClauseSegment"@.len() != "Expression_A_Unary_Operator_Grammar"@.len());
    reveal_strlit("Expression_B_Unary_Operator_Grammar");
    assert("WhereClauseSegment"@.len() != "Expression_B_Unary_Operator_Grammar"@.len());
    reveal_strlit("FromClauseSegment");
    assert("WhereClauseSegment"@.len() != "FromClauseSegment"@.len());
    reveal_strlit("FromExpressionSegment");
    assert("WhereClauseSegment"@.len() != "FromExpressionSegment"@.len());
    reveal_strlit("FunctionContentsExpressionGrammar");
    assert("WhereClauseSegment"@.len() != "FunctionContentsExpressionGrammar"@.len());
    reveal_strlit("FunctionContentsGrammar");
    assert("WhereClauseSegment"@.len() != "FunctionContentsGrammar"@.len());
    reveal_strlit("FunctionContentsSegment");
    assert("WhereClauseSegment"@.len() != "FunctionContentsSegment"@.len());
    reveal_strlit("JoinLikeClauseGrammar");
    assert("WhereClauseSegment"@.len() != "JoinLikeClauseGrammar"@.len());
    reveal_strlit("OrderByClauseSegment");
    assert("WhereClauseSegment"@.len() != "OrderByClauseSegment"@.len());
    reveal_strlit("PostFunctionGrammar");
    assert("WhereClauseSegment"@.len() != "PostFunctionGrammar"@.len());
    reveal_strlit("SelectClauseElementSegment");
    assert("WhereClauseSegment"@.len() != "SelectClauseElementSegment"@.len());
    reveal_strlit("SelectClauseModifierSegment");
    assert("WhereClauseSegment"@.len() != "SelectClauseModifierSegment"@.len());
    reveal_strlit("SelectStatementSegment");
    assert("WhereClauseSegment"@.len() != "SelectStatementSegment"@.len());
    reveal_strlit("SetExpressionSegment");
    assert("WhereClauseSegment"@.len() != "SetExpressionSegment"@.len());
    reveal_strlit("Tail_Recurse_Expression_A_Grammar");
    assert("WhereClauseSegment"@.len() != "Tail_Recurse_Expression_A_Grammar"@.len());
    reveal_strlit("Tail_Recurse_Expression_B_Grammar");
    assert("WhereClauseSegment"@.len() != "Tail_Recurse_Expression_B_Grammar"@.len());
    reveal_strlit("TruncateStatementSegment");
    assert("WhereClauseSegment"@.len() != "TruncateStatementSegment"@.len());
    reveal_strlit("WildcardExpressionSegment");
    assert("WhereClauseSegment"@.len() != "WildcardExpressionSegment"@.len());
}

proof fn lemma_part_11_keeps_where_clause_segment(m: Map<Seq<char>, ElementView>)
    requires
        m.dom().contains("WhereClauseSegment"@),
    ensures
        ansi_library_part_11(m).dom().contains("WhereClauseSegment"@),
        ansi_library_part_11(m)["WhereClauseSegment"@] == m["WhereClauseSegment"@],
{
    reveal_strlit("WhereClauseSegment");
    reveal_strlit("AccessorGrammar");
    assert("WhereClauseSegment"@.len() != "AccessorGrammar"@.len());
    reveal_strlit("Expression_B_Grammar");
    assert("WhereClauseSegment"@.len() != "Expression_B_Grammar"@.len());
    reveal_strlit("Expression_C_Grammar");
    assert("WhereClauseSegment"@.len() != "Expression_C_Grammar"@.len());
    reveal_strlit("Expression_D_Grammar");
    assert("WhereClauseSegment"@.len() != "Expression_D_Grammar"@.len());
    reveal_strlit("NonSetSelectableGrammar");
    assert("WhereClauseSegment"@.len() != "NonSetSelectableGrammar"@.len());
    reveal_strlit("NonWithNonSelectableGrammar");
    assert("WhereClauseSegment"@.len() != "NonWithNonSelectableGrammar"@.len());
    reveal_strlit("NonWithSelectableGrammar");
    assert("WhereClauseSegment"@.len() != "NonWithSelectableGrammar"@.len());
    reveal_strlit("PostTableExpressionGrammar");
    assert("WhereClauseSegment"@.len() != "PostTableExpressionGrammar"@.len());
    reveal_strlit("SelectableGrammar");
    assert("WhereClauseSegment"@.len() != "SelectableGrammar"@.len());
    reveal_strlit("TimeWithTZGrammar");
    assert("WhereClauseSegment"@.len() != "TimeWithTZGrammar"@.len());
}

/// The ANSI library holds `WhereClauseSegment`: the value of its last entry of that name.
pub proof fn lemma_ansi_library_where_clause_segment(lib: Map<Seq<char>, ElementView>)
    ensures
        ansi_library(lib).dom().contains("WhereClauseSegment"@),
        ansi_library(lib)["WhereClauseSegment"@] == where_clause_segment_element(),
{
    reveal(ansi_library);
    let m0 = lib;
    let m1 = ansi_library_part_0(m0);
    let m2 = ansi_library_part_1(m1);
    let m3 = ansi_library_part_2(m2);
    let m4 = ansi_library_part_3(m3);
    let m5 = ansi_library_part_4(m4);
    let m6 = ansi_library_part_5(m5);
    let m7 = ansi_library_part_6(m6);
    let m8 = ansi_library_part_7(m7);
    let m9 = ansi_library_part_8(m8);
    let m10 = ansi_library_part_9(m9);
    let m11 = ansi_library_part_10(m10);
    let m12 = ansi_library_part_11(m11);
    lemma_part_8_sets_where_clause_segment(m8);
    lemma_part_9_keeps_where_clause_segment(m9);
    lemma_part_10_keeps_where_clause_segment(m10);
    lemma_part_11_keeps_where_clause_segment(m11);
}

proof fn lemma_part_10_sets_from_clause_segment(m: Map<Seq<char>, ElementView>)
    ensures
        ansi_library_part_10(m).dom().contains("FromClauseSegment"@),
        ansi_library_part_10(m)["FromClauseSegment"@] == from_clause_segment_element(),
{
    reveal_strlit("FromClauseSegment");
    reveal_strlit("AccessStatementSegmentGrantRoleWithOptionGrammar");
    assert("FromClauseSegment"@.len() != "AccessStatementSegmentGrantRoleWithOptionGrammar"@.len());
    reveal_strlit("AliasedTableReferenceGrammar");
    assert("FromClauseSegment"@.len() != "AliasedTableReferenceGrammar"@.len());
    reveal_strlit("CharCharacterSetGrammar");
    assert("FromClauseSegment"@.len() != "CharCharacterSetGrammar"@.len());
    reveal_strlit("CreateSchemaStatementSegment");
    assert("FromClauseSegment"@.len() != "CreateSchemaStatementSegment"@.len());
    reveal_strlit("DatePartFunctionNameSegment");
    assert("FromClauseSegment"@.len() != "DatePartFunctionNameSegment"@.len());
    reveal_strlit("EmptyStructLiteralBracketsSegment");
    assert("FromClauseSegment"@.len() != "EmptyStructLiteralBracketsSegment"@.len());
    reveal_strlit("Expression_A_Grammar");
    assert("FromClauseSegment"@.len() != "Expression_A_Grammar"@.len());
    reveal_strlit("Expression_A_Unary_Operator_Grammar");
    assert("FromClauseSegment"@.len() != "Expression_A_Unary_Operator_Grammar"@.len());
    reveal_strlit("Expression_B_Unary_Operator_Grammar");
    assert("FromClauseSegment"@.len() != "Expression_B_Unary_Operator_Grammar"@.len());
    reveal_strlit("FromExpressionSegment");
    assert("FromClauseSegment"@.len() != "FromExpressionSegment"@.len());
    reveal_strlit("FunctionContentsExpressionGrammar");
    assert("FromClauseSegment"@.len() != "FunctionContentsExpressionGrammar"@.len());
    reveal_strlit("FunctionContentsGrammar");
    assert("FromClauseSegment"@.len() != "FunctionContentsGrammar"@.len());
    reveal_strlit("FunctionContentsSegment");
    assert("FromClauseSegment"@.len() != "FunctionContentsSegment"@.len());
    reveal_strlit("JoinLikeClauseGrammar");
    assert("FromClauseSegment"@.len() != "JoinLikeClauseGrammar"@.len());
    reveal_strlit("OrderByClauseSegment");
    assert("FromClauseSegment"@.len() != "OrderByClauseSegment"@.len());
    reveal_strlit("PostFunctionGrammar");
    assert("FromClauseSegment"@.len() != "PostFunctionGrammar"@.len());
    reveal_strlit("SelectClauseElementSegment");
    assert("FromClauseSegment"@.len() != "SelectClauseElementSegment"@.len());
    reveal_strlit("SelectClauseModifierSegment");
    assert("FromClauseSegment"@.len() != "SelectClauseModifierSegment"@.len());
    reveal_strlit("SelectStatementSegment");
    assert("FromClauseSegment"@.len() != "SelectStatementSegment"@.len());
    reveal_strlit("Tail_Recurse_Expression_A_Grammar");
    assert("FromClauseSegment"@.len() != "Tail_Recurse_Expression_A_Grammar"@.len());
    reveal_strlit("Tail_Recurse_Expression_B_Grammar");
    assert("FromClauseSegment"@.len() != "Tail_Recurse_Expression_B_Grammar"@.len());
    reveal_strlit("TruncateStatementSegment");
    assert("FromClauseSegment"@.len() != "TruncateStatementSegment"@.len());
    reveal_strlit("WildcardExpressionSegment");
    assert("FromClauseSegment"@.len() != "WildcardExpressionSegment"@.len());
}

proof fn lemma_part_11_keeps_from_clause_segment(m: Map<Seq<char>, ElementView>)
    requires
        m.dom().contains("FromClauseSegment"@),
    ensures
        ansi_library_part_11(m).dom().contains("FromClauseSegment"@),
        ansi_library_part_11(m)["FromClauseSegment"@] == m["FromClauseSegment"@],
{
    reveal_strlit("FromClauseSegment");
    reveal_strlit("AccessorGrammar");
    assert("FromClauseSegment"@.len() != "AccessorGrammar"@.len());
    reveal_strlit("Expression_B_Grammar");
    assert("FromClauseSegment"@.len() != "Expression_B_Grammar"@.len());
    reveal_strlit("Expression_C_Grammar");
    assert("FromClauseSegment"@.len() != "Expression_C_Grammar"@.len());
    reveal_strlit("Expression_D_Grammar");
    assert("FromClauseSegment"@.len() != "Expression_D_Grammar"@.len());
    reveal_strlit("NonSetSelectableGrammar");
    assert("FromClauseSegment"@.len() != "NonSetSelectableGrammar"@.len());
    reveal_strlit("NonWithNonSelectableGrammar");
    assert("FromClauseSegment"@.len() != "NonWithNonSelectableGrammar"@.len());
    reveal_strlit("NonWithSelectableGrammar");
    assert("FromClauseSegment"@.len() != "NonWithSelectableGrammar"@.len());
    reveal_strlit("PostTableExpressionGrammar");
    assert("FromClauseSegment"@.len() != "PostTableExpressionGrammar"@.len());
    reveal_strlit("SelectableGrammar");
    assert("FromClauseSegment"@[0] != "SelectableGrammar"@[0]);
    reveal_strlit("TimeWithTZGrammar");
    assert("FromClauseSegment"@[0] != "TimeWithTZGrammar"@[0]);
}

/// The ANSI library holds `FromClauseSegment`: the value of its last entry of that name.
pub proof fn lemma_ansi_library_from_clause_segment(lib: Map<Seq<char>, ElementView>)
    ensures
        ansi_library(lib).dom().contains("FromClauseSegment"@),
        ansi_library(lib)["FromClauseSegment"@] == from_clause_segment_element(),
{
    reveal(ansi_library);
    let m0 = lib;
    let m1 = ansi_library_part_0(m0);
    let m2 = ansi_library_part_1(m1);
    let m3 = ansi_library_part_2(m2);
    let m4 = ansi_library_part_3(m3);
    let m5 = ansi_library_part_4(m4);
    let m6 = ansi_library_part_5(m5);
    let m7 = ansi_library_part_6(m6);
    let m8 = ansi_library_part_7(m7);
    let m9 = ansi_library_part_8(m8);
    let m10 = ansi_library_part_9(m9);
    let m11 = ansi_library_part_10(m10);
    let m12 = ansi_library_part_11(m11);
    lemma_part_10_sets_from_clause_segment(m10);
    lemma_part_11_keeps_from_clause_segment(m11);
}

proof fn lemma_part_4_sets_having_clause_segment(m: Map<Seq<char>, ElementView>)
    ensures
        ansi_library_part_4(m).dom().contains("HavingClauseSegment"@),
        ansi_library_part_4(m)["HavingClauseSegment"@] == having_clause_segment_element(),
{
    reveal_strlit("HavingClauseSegment");
    reveal_strlit("CubeFunctionNameSegment");
    assert("HavingClauseSegment"@.len() != "CubeFunctionNameSegment"@.len());
    reveal_strlit("CubeRollupClauseSegment");
    assert("HavingClauseSegment"@.len() != "CubeRollupClauseSegment"@.len());
    reveal_strlit("FetchClauseSegment");
    assert("HavingClauseSegment"@.len() != "FetchClauseSegment"@.len());
    reveal_strlit("GroupingExpressionList");
    assert("HavingClauseSegment"@.len() != "GroupingExpressionList"@.len());
    reveal_strlit("GroupingSetsClauseSegment");
    assert("HavingClauseSegment"@.len() != "GroupingSetsClauseSegment"@.len());
    reveal_strlit("LimitClauseSegment");
    assert("HavingClauseSegment"@.len() != "LimitClauseSegment"@.len());
    reveal_strlit("PathSegment");
    assert("HavingClauseSegment"@.len() != "PathSegment"@.len());
    reveal_strlit("RollupFunctionNameSegment");
    assert("HavingClauseSegment"@.len() != "RollupFunctionNameSegment"@.len());
    reveal_strlit("SetClauseSegment");
    assert("HavingClauseSegment"@.len() != "SetClauseSegment"@.len());
}

proof fn lemma_part_5_keeps_having_clause_segment(m: Map<Seq<char>, ElementView>)
    requires
        m.dom().contains("HavingClauseSegment"@),
    ensures
        ansi_library_part_5(m).dom().contains("HavingClauseSegment"@),
        ansi_library_part_5(m)["HavingClauseSegment"@] == m["HavingClauseSegment"@],
{
    reveal_strlit("HavingClauseSegment");
    reveal_strlit("AlterSequenceOptionsSegment");
    assert("HavingClauseSegment"@.len() != "AlterSequenceOptionsSegment"@.len());
    reveal_strlit("CTEColumnList");
    assert("HavingClauseSegment"@.len() != "CTEColumnList"@.len());
    reveal_strlit("CTEDefinitionSegment");
    assert("HavingClauseSegment"@.len() != "CTEDefinitionSegment"@.len());
    reveal_strlit("ColumnConstraintSegment");
    assert("HavingClauseSegment"@.len() != "ColumnConstraintSegment"@.len());
    reveal_strlit("ColumnDefinitionSegment");
    assert("HavingClauseSegment"@.len() != "ColumnDefinitionSegment"@.len());
    reveal_strlit("CommentClauseSegment");
    assert("HavingClauseSegment"@.len() != "CommentClauseSegment"@.len());
    reveal_strlit("ExtensionReferenceSegment");
    assert("HavingClauseSegment"@.len() != "ExtensionReferenceSegment"@.len());
    reveal_strlit("FrameClauseSegment");
    assert("HavingClauseSegment"@.len() != "FrameClauseSegment"@.len());
    reveal_strlit("FunctionDefinitionGrammar");
    assert("HavingClauseSegment"@.len() != "FunctionDefinitionGrammar"@.len());
    reveal_strlit("GroupByClauseSegment");
    assert("HavingClauseSegment"@.len() != "GroupByClauseSegment"@.len());
    reveal_strlit("MergeDeleteClauseSegment");
    assert("HavingClauseSegment"@.len() != "MergeDeleteClauseSegment"@.len());
    reveal_strlit("MergeInsertClauseSegment");
    assert("HavingClauseSegment"@.len() != "MergeInsertClauseSegment"@.len());
    reveal_strlit("MergeMatchSegment");
    assert("HavingClauseSegment"@.len() != "MergeMatchSegment"@.len());
    reveal_strlit("MergeMatchedClauseSegment");
    assert("HavingClauseSegment"@.len() != "MergeMatchedClauseSegment"@.len());
    reveal_strlit("MergeNotMatchedClauseSegment");
    assert("HavingClauseSegment"@.len() != "MergeNotMatchedClauseSegment"@.len());
    reveal_strlit("MergeUpdateClauseSegment");
    assert("HavingClauseSegment"@.len() != "MergeUpdateClauseSegment"@.len());
    reveal_strlit("RoleReferenceSegment");
    assert("HavingClauseSegment"@.len() != "RoleReferenceSegment"@.len());
    reveal_strlit("SchemaReferenceSegment");
    assert("HavingClauseSegment"@.len() != "SchemaReferenceSegment"@.len());
    reveal_strlit("SetClauseListSegment");
    assert("HavingClauseSegment"@.len() != "SetClauseListSegment"@.len());
    reveal_strlit("SingleIdentifierListSegment");
    assert("HavingClauseSegment"@.len() != "SingleIdentifierListSegment"@.len());
    reveal_strlit("TableEndClauseSegment");
    assert("HavingClauseSegment"@.len() != "TableEndClauseSegment"@.len());
    reveal_strlit("TablespaceReferenceSegment");
    assert("HavingClauseSegment"@.len() != "TablespaceReferenceSegment"@.len());
    reveal_strlit("TagReferenceSegment");
    assert("HavingClauseSegment"@[0] != "TagReferenceSegment"@[0]);
    reveal_strlit("WithCompoundNonSelectStatementSegment");
    assert("HavingClauseSegment"@.len() != "WithCompoundNonSelectStatementSegment"@.len());
    reveal_strlit("WithCompoundStatementSegment");
    assert("HavingClauseSegment"@.len() != "WithCompoundStatementSegment"@.len());
}

proof fn lemma_part_6_keeps_having_clause_segment(m: Map<Seq<char>, ElementView>)
    requires
        m.dom().contains("HavingClauseSegment"@),
    ensures
        ansi_library_part_6(m).dom().contains("HavingClauseSegment"@),
        ansi_library_part_6(m)["HavingClauseSegment"@] == m["HavingClauseSegment"@],
{
    reveal_strlit("HavingClauseSegment");
    reveal_strlit("CollationReferenceSegment");
    assert("HavingClauseSegment"@.len() != "CollationReferenceSegment"@.len());
    reveal_strlit("CreateSequenceOptionsSegment");
    assert("HavingClauseSegment"@.len() != "CreateSequenceOptionsSegment"@.len());
    reveal_strlit("CreateSequenceStatementSegment");
    assert("HavingClauseSegment"@.len() != "CreateSequenceStatementSegment"@.len());
    reveal_strlit("CreateTriggerStatementSegment");
    assert("HavingClauseSegment"@.len() != "CreateTriggerStatementSegment"@.len());
    reveal_strlit("DatabaseReferenceSegment");
    assert("HavingClauseSegment"@.len() != "DatabaseReferenceSegment"@.len());
    reveal_strlit("DescribeStatementSegment");
    assert("HavingClauseSegment"@.len() != "DescribeStatementSegment"@.len());
    reveal_strlit("DropModelStatementSegment");
    assert("HavingClauseSegment"@.len() != "DropModelStatementSegment"@.len());
    reveal_strlit("DropTriggerStatementSegment");
    assert("HavingClauseSegment"@.len() != "DropTriggerStatementSegment"@.len());
    reveal_strlit("ExplainStatementSegment");
    assert("HavingClauseSegment"@.len() != "ExplainStatementSegment"@.len());
    reveal_strlit("IndexReferenceSegment");
    assert("HavingClauseSegment"@.len() != "IndexReferenceSegment"@.len());
    reveal_strlit("JoinClauseSegment");
    assert("HavingClauseSegment"@.len() != "JoinClauseSegment"@.len());
    reveal_strlit("JoinOnConditionSegment");
    assert("HavingClauseSegment"@.len() != "JoinOnConditionSegment"@.len());
    reveal_strlit("NamedWindowSegment");
    assert("HavingClauseSegment"@.len() != "NamedWindowSegment"@.len());
    reveal_strlit("OverClauseSegment");
    assert("HavingClauseSegment"@.len() != "OverClauseSegment"@.len());
    reveal_strlit("PartitionClauseSegment");
    assert("HavingClauseSegment"@.len() != "PartitionClauseSegment"@.len());
    reveal_strlit("SamplingExpressionSegment");
    assert("HavingClauseSegment"@.len() != "SamplingExpressionSegment"@.len());
    reveal_strlit("SequenceReferenceSegment");
    assert("HavingClauseSegment"@.len() != "SequenceReferenceSegment"@.len());
    reveal_strlit("TableConstraintSegment");
    assert("HavingClauseSegment"@.len() != "TableConstraintSegment"@.len());
    reveal_strlit("TableExpressionSegment");
    assert("HavingClauseSegment"@.len() != "TableExpressionSegment"@.len());
    reveal_strlit("TriggerReferenceSegment");
    assert("HavingClauseSegment"@.len() != "TriggerReferenceSegment"@.len());
    reveal_strlit("UseStatementSegment");
    assert("HavingClauseSegment"@[0] != "UseStatementSegment"@[0]);
    reveal_strlit("WindowSpecificationSegment");
    assert("HavingClauseSegment"@.len() != "WindowSpecificationSegment"@.len());
}

proof fn lemma_part_7_keeps_having_clause_segment(m: Map<Seq<char>, ElementView>)
    requires
        m.dom().contains("HavingClauseSegment"@),
    ensures
        ansi_library_part_7(m).dom().contains("HavingClauseSegment"@),
        ansi_library_part_7(m)["HavingClauseSegment"@] == m["HavingClauseSegment"@],
{
    reveal_strlit("HavingClauseSegment");
    reveal_strlit("AccessStatementSegment");
    assert("HavingClauseSegment"@.len() != "AccessStatementSegment"@.len());
    reveal_strlit("AlterSequenceStatementSegment");
    assert("HavingClauseSegment"@.len() != "AlterSequenceStatementSegment"@.len());
    reveal_strlit("AlterTableStatementSegment");
    assert("HavingClauseSegment"@.len() != "AlterTableStatementSegment"@.len());
    reveal_strlit("CreateCastStatementSegment");
    assert("HavingClauseSegment"@.len() != "CreateCastStatementSegment"@.len());
    reveal_strlit("CreateDatabaseStatementSegment");
    assert("HavingClauseSegment"@.len() != "CreateDatabaseStatementSegment"@.len());
    reveal_strlit("CreateFunctionStatementSegment");
    assert("HavingClauseSegment"@.len() != "CreateFunctionStatementSegment"@.len());
    reveal_strlit("CreateIndexStatementSegment");
    assert("HavingClauseSegment"@.len() != "CreateIndexStatementSegment"@.len());
    reveal_strlit("CreateModelStatementSegment");
    assert("HavingClauseSegment"@.len() != "CreateModelStatementSegment"@.len());
    reveal_strlit("CreateRoleStatementSegment");
    assert("HavingClauseSegment"@.len() != "CreateRoleStatementSegment"@.len());
    reveal_strlit("CreateTableStatementSegment");
    assert("HavingClauseSegment"@.len() != "CreateTableStatementSegment"@.len());
    reveal_strlit("CreateViewStatementSegment");
    assert("HavingClauseSegment"@.len() != "CreateViewStatementSegment"@.len());
    reveal_strlit("DeleteStatementSegment");
    assert("HavingClauseSegment"@.len() != "DeleteStatementSegment"@.len());
    reveal_strlit("DropCastStatementSegment");
    assert("HavingClauseSegment"@.len() != "DropCastStatementSegment"@.len());
    reveal_strlit("DropDatabaseStatementSegment");
    assert("HavingClauseSegment"@.len() != "DropDatabaseStatementSegment"@.len());
    reveal_strlit("DropFunctionStatementSegment");
    assert("HavingClauseSegment"@.len() != "DropFunctionStatementSegment"@.len());
    reveal_strlit("DropIndexStatementSegment");
    assert("HavingClauseSegment"@.len() != "DropIndexStatementSegment"@.len());
    reveal_strlit("DropRoleStatementSegment");
    assert("HavingClauseSegment"@.len() != "DropRoleStatementSegment"@.len());
    reveal_strlit("DropSchemaStatementSegment");
    assert("HavingClauseSegment"@.len() != "DropSchemaStatementSegment"@.len());
    reveal_strlit("DropSequenceStatementSegment");
    assert("HavingClauseSegment"@.len() != "DropSequenceStatementSegment"@.len());
    reveal_strlit("DropTypeStatementSegment");
    assert("HavingClauseSegment"@.len() != "DropTypeStatementSegment"@.len());
    reveal_strlit("FunctionParameterListGrammar");
    assert("HavingClauseSegment"@.len() != "FunctionParameterListGrammar"@.len());
    reveal_strlit("InsertStatementSegment");
    assert("HavingClauseSegment"@.len() != "InsertStatementSegment"@.len());
    reveal_strlit("SetSchemaStatementSegment");
    assert("HavingClauseSegment"@.len() != "SetSchemaStatementSegment"@.len());
    reveal_strlit("TransactionStatementSegment");
    assert("HavingClauseSegment"@.len() != "TransactionStatementSegment"@.len());
    reveal_strlit("UpdateStatementSegment");
    assert("HavingClauseSegment"@.len() != "UpdateStatementSegment"@.len());
}

proof fn lemma_part_8_keeps_having_clause_segment(m: Map<Seq<char>, ElementView>)
    requires
        m.dom().contains("HavingClauseSegment"@),
    ensures
        ansi_library_part_8(m).dom().contains("HavingClauseSegment"@),
        ansi_library_part_8(m)["HavingClauseSegment"@] == m["HavingClauseSegment"@],
{
    reveal_strlit("HavingClauseSegment");
    reveal_strlit("AggregateOrderByClause");
    assert("HavingClauseSegment"@.len() != "AggregateOrderByClause"@.len());
    reveal_strlit("ArrayExpressionSegment");
    assert("HavingClauseSegment"@.len() != "ArrayExpressionSegment"@.len());
    reveal_strlit("BitwiseAndSegment");
    assert("HavingClauseSegment"@.len() != "BitwiseAndSegment"@.len());
    reveal_strlit("BitwiseLShiftSegment");
    assert("HavingClauseSegment"@.len() != "BitwiseLShiftSegment"@.len());
    reveal_strlit("BitwiseOrSegment");
    assert("HavingClauseSegment"@.len() != "BitwiseOrSegment"@.len());
    reveal_strlit("BitwiseRShiftSegment");
    assert("HavingClauseSegment"@.len() != "BitwiseRShiftSegment"@.len());
    reveal_strlit("ConcatSegment");
    assert("HavingClauseSegment"@.len() != "ConcatSegment"@.len());
    reveal_strlit("CreateUserStatementSegment");
    assert("HavingClauseSegment"@.len() != "CreateUserStatementSegment"@.len());
    reveal_strlit("DropTableStatementSegment");
    assert("HavingClauseSegment"@.len() != "DropTableStatementSegment"@.len());
    reveal_strlit("DropUserStatementSegment");
    assert("HavingClauseSegment"@.len() != "DropUserStatementSegment"@.len());
    reveal_strlit("DropViewStatementSegment");
    assert("HavingClauseSegment"@.len() != "DropViewStatementSegment"@.len());
    reveal_strlit("ElseClauseSegment");
    assert("HavingClauseSegment"@.len() != "ElseClauseSegment"@.len());
    reveal_strlit("EqualsSegment");
    assert("HavingClauseSegment"@.len() != "EqualsSegment"@.len());
    reveal_strlit("FunctionNameSegment");
    assert("HavingClauseSegment"@[0] != "FunctionNameSegment"@[0]);
    reveal_strlit("GreaterThanOrEqualToSegment");
    assert("HavingClauseSegment"@.len() != "GreaterThanOrEqualToSegment"@.len());
    reveal_strlit("GreaterThanSegment");
    assert("HavingClauseSegment"@.len() != "GreaterThanSegment"@.len());
    reveal_strlit("IndexColumnDefinitionSegment");
    assert("HavingClauseSegment"@.len() != "IndexColumnDefinitionSegment"@.len());
    reveal_strlit("LessThanOrEqualToSegment");
    assert("HavingClauseSegment"@.len() != "LessThanOrEqualToSegment"@.len());
    reveal_strlit("LessThanSegment");
    assert("HavingClauseSegment"@.len() != "LessThanSegment"@.len());
    reveal_strlit("LocalAliasSegment");
    assert("HavingClauseSegment"@.len() != "LocalAliasSegment"@.len());
    reveal_strlit("MergeStatementSegment");
    assert("HavingClauseSegment"@.len() != "MergeStatementSegment"@.len());
    reveal_strlit("NotEqualToSegment");
    assert("HavingClauseSegment"@.len() != "NotEqualToSegment"@.len());
    reveal_strlit("QualifiedNumericLiteralSegment");
    assert("HavingClauseSegment"@.len() != "QualifiedNumericLiteralSegment"@.len());
    reveal_strlit("WhenClauseSegment");
    assert("HavingClauseSegment"@.len() != "WhenClauseSegment"@.len());
    reveal_strlit("WhereClauseSegment");
    assert("HavingClauseSegment"@.len() != "WhereClauseSegment"@.len());
}

proof fn lemma_part_9_keeps_having_clause_segment(m: Map<Seq<char>, ElementView>)
    requires
        m.dom().contains("HavingClauseSegment"@),
    ensures
        ansi_library_part_9(m).dom().contains("HavingClauseSegment"@),
        ansi_library_part_9(m)["HavingClauseSegment"@] == m["HavingClauseSegment"@],
{
    reveal_strlit("HavingClauseSegment");
    reveal_strlit("AliasExpressionSegment");
    assert("HavingClauseSegment"@.len() != "AliasExpressionSegment"@.len());
    reveal_strlit("ArrayAccessorSegment");
    assert("HavingClauseSegment"@.len() != "ArrayAccessorSegment"@.len());
    reveal_strlit("ArrayLiteralSegment");
    assert("HavingClauseSegment"@[0] != "ArrayLiteralSegment"@[0]);
    reveal_strlit("ArrayTypeSegment");
    assert("HavingClauseSegment"@.len() != "ArrayTypeSegment"@.len());
    reveal_strlit("BracketedArguments");
    assert("HavingClauseSegment"@.len() != "BracketedArguments"@.len());
    reveal_strlit("DatatypeSegment");
    assert("HavingClauseSegment"@.len() != "DatatypeSegment"@.len());
    reveal_strlit("EmptyStructLiteralSegment");
    assert("HavingClauseSegment"@.len() != "EmptyStructLiteralSegment"@.len());
    reveal_strlit("IntervalExpressionSegment");
    assert("HavingClauseSegment"@.len() != "IntervalExpressionSegment"@.len());
    reveal_strlit("ObjectLiteralElementSegment");
    assert("HavingClauseSegment"@.len() != "ObjectLiteralElementSegment"@.len());
    reveal_strlit("ObjectLiteralSegment");
    assert("HavingClauseSegment"@.len() != "ObjectLiteralSegment"@.len());
    reveal_strlit("OverlapsClauseSegment");
    assert("HavingClauseSegment"@.len() != "OverlapsClauseSegment"@.len());
    reveal_strlit("SelectClauseSegment");
    assert("HavingClauseSegment"@[0] != "SelectClauseSegment"@[0]);
    reveal_strlit("SetOperatorSegment");
    assert("HavingClauseSegment"@.len() != "SetOperatorSegment"@.len());
    reveal_strlit("ShorthandCastSegment");
    assert("HavingClauseSegment"@.len() != "ShorthandCastSegment"@.len());
    reveal_strlit("SizedArrayTypeSegment");
    assert("HavingClauseSegment"@.len() != "SizedArrayTypeSegment"@.len());
    reveal_strlit("StatementSegment");
    assert("HavingClauseSegment"@.len() != "StatementSegment"@.len());
    reveal_strlit("StructLiteralSegment");
    assert("HavingClauseSegment"@.len() != "StructLiteralSegment"@.len());
    reveal_strlit("StructTypeSegment");
    assert("HavingClauseSegment"@.len() != "StructTypeSegment"@.len());
    reveal_strlit("TimeZoneGrammar");
    assert("HavingClauseSegment"@.len() != "TimeZoneGrammar"@.len());
    reveal_strlit("TypedArrayLiteralSegment");
    assert("HavingClauseSegment"@.len() != "TypedArrayLiteralSegment"@.len());
    reveal_strlit("TypedStructLiteralSegment");
    assert("HavingClauseSegment"@.len() != "TypedStructLiteralSegment"@.len());
    reveal_strlit("UnorderedSelectStatementSegment");
    assert("HavingClauseSegment"@.len() != "UnorderedSelectStatementSegment"@.len());
    reveal_strlit("ValuesClauseSegment");
    assert("HavingClauseSegment"@[0] != "ValuesClauseSegment"@[0]);
    reveal_strlit("WithDataClauseSegment");
    assert("HavingClauseSegment"@.len() != "WithDataClauseSegment"@.len());
    reveal_strlit("WithNoSchemaBindingClauseSegment");
    assert("HavingClauseSegment"@.len() != "WithNoSchemaBindingClauseSegment"@.len());
}

proof fn lemma_part_10_keeps_having_clause_segment(m: Map<Seq<char>, ElementView>)
    requires
        m.dom().contains("HavingClauseSegment"@),
    ensures
        ansi_library_part_10(m).dom().contains("HavingClauseSegment"@),
        ansi_library_part_10(m)["HavingClauseSegment"@] == m["HavingClauseSegment"@],
{
    reveal_strlit("HavingClauseSegment");
    reveal_strlit("AccessStatementSegmentGrantRoleWithOptionGrammar");
    assert("HavingClauseSegment"@.len() != "AccessStatementSegmentGrantRoleWithOptionGrammar"@.len());
    reveal_strlit("AliasedTableReferenceGrammar");
    assert("HavingClauseSegment"@.len() != "AliasedTableReferenceGrammar"@.len());
    reveal_strlit("CharCharacterSetGrammar");
    assert("HavingClauseSegment"@.len() != "CharCharacterSetGrammar"@.len());
    reveal_strlit("CreateSchemaStatementSegment");
    assert("HavingClauseSegment"@.len() != "CreateSchemaStatementSegment"@.len());
    reveal_strlit("DatePartFunctionNameSegment");
    assert("HavingClauseSegment"@.len() != "DatePartFunctionNameSegment"@.len());
    reveal_strlit("EmptyStructLiteralBracketsSegment");
    assert("HavingClauseSegment"@.len() != "EmptyStructLiteralBracketsSegment"@.len());
    reveal_strlit("Expression_A_Grammar");
    assert("HavingClauseSegment"@.len() != "Expression_A_Grammar"@.len());
    reveal_strlit("Expression_A_Unary_Operator_Grammar");
    assert("HavingClauseSegment"@.len() != "Expression_A_Unary_Operator_Grammar"@.len());
    reveal_strlit("Expression_B_Unary_Operator_Grammar");
    assert("HavingClauseSegment"@.len() != "Expression_B_Unary_Operator_Grammar"@.len());
    reveal_strlit("FromClauseSegment");
    assert("HavingClauseSegment"@.len() != "FromClauseSegment"@.len());
    reveal_strlit("FromExpressionSegment");
    assert("HavingClauseSegment"@.len() != "FromExpressionSegment"@.len());
    reveal_strlit("FunctionContentsExpressionGrammar");
    assert("HavingClauseSegment"@.len() != "FunctionContentsExpressionGrammar"@.len());
    reveal_strlit("FunctionContentsGrammar");
    assert("HavingClauseSegment"@.len() != "FunctionContentsGrammar"@.len());
    reveal_strlit("FunctionContentsSegment");
    assert("HavingClauseSegment"@.len() != "FunctionContentsSegment"@.len());
    reveal_strlit("JoinLikeClauseGrammar");
    assert("HavingClauseSegment"@.len() != "JoinLikeClauseGrammar"@.len());
    reveal_strlit("OrderByClauseSegment");
    assert("HavingClauseSegment"@.len() != "OrderByClauseSegment"@.len());
    reveal_strlit("PostFunctionGrammar");
    assert("HavingClauseSegment"@[0] != "PostFunctionGrammar"@[0]);
    reveal_strlit("SelectClauseElementSegment");
    assert("HavingClauseSegment"@.len() != "SelectClauseElementSegment"@.len());
    reveal_strlit("SelectClauseModifierSegment");
    assert("HavingClauseSegment"@.len() != "SelectClauseModifierSegment"@.len());
    reveal_strlit("SelectStatementSegment");
    assert("HavingClauseSegment"@.len() != "SelectStatementSegment"@.len());
    reveal_strlit("SetExpressionSegment");
    assert("HavingClauseSegment"@.len() != "SetExpressionSegment"@.len());
    reveal_strlit("Tail_Recurse_Expression_A_Grammar");
    assert("HavingClauseSegment"@.len() != "Tail_Recurse_Expression_A_Grammar"@.len());
    reveal_strlit("Tail_Recurse_Expression_B_Grammar");
    assert("HavingClauseSegment"@.len() != "Tail_Recurse_Expression_B_Grammar"@.len());
    reveal_strlit("TruncateStatementSegment");
    assert("HavingClauseSegment"@.len() != "TruncateStatementSegment"@.len());
    reveal_strlit("WildcardExpressionSegment");
    assert("HavingClauseSegment"@.len() != "WildcardExpressionSegment"@.len());
}

proof fn lemma_part_11_keeps_having_clause_segment(m: Map<Seq<char>, ElementView>)
    requires
        m.dom().contains("HavingClauseSegment"@),
    ensures
        ansi_library_part_11(m).dom().contains("HavingClauseSegment"@),
        ansi_library_part_11(m)["HavingClauseSegment"@] == m["HavingClauseSegment"@],
{
    reveal_strlit("HavingClauseSegment");
    reveal_strlit("AccessorGrammar");
    assert("HavingClauseSegment"@.len() != "AccessorGrammar"@.len());
    reveal_strlit("Expression_B_Grammar");
    assert("HavingClauseSegment"@.len() != "Expression_B_Grammar"@.len());
    reveal_strlit("Expression_C_Grammar");
    assert("HavingClauseSegment"@.len() != "Expression_C_Grammar"@.len());
    reveal_strlit("Expression_D_Grammar");
    assert("HavingClauseSegment"@.len() != "Expression_D_Grammar"@.len());
    reveal_strlit("NonSetSelectableGrammar");
    assert("HavingClauseSegment"@.len() != "NonSetSelectableGrammar"@.len());
    reveal_strlit("NonWithNonSelectableGrammar");
    assert("HavingClauseSegment"@.len() != "NonWithNonSelectableGrammar"@.len());
    reveal_strlit("NonWithSelectableGrammar");
    assert("HavingClauseSegment"@.len() != "NonWithSelectableGrammar"@.len());
    reveal_strlit("PostTableExpressionGrammar");
    assert("HavingClauseSegment"@.len() != "PostTableExpressionGrammar"@.len());
    reveal_strlit("SelectableGrammar");
    assert("HavingClauseSegment"@.len() != "SelectableGrammar"@.len());
    reveal_strlit("TimeWithTZGrammar");
    assert("HavingClauseSegment"@.len() != "TimeWithTZGrammar"@.len());
}

/// The ANSI library holds `HavingClauseSegment`: the value of its last entry of that name.
pub proof fn lemma_ansi_library_having_clause_segment(lib: Map<Seq<char>, ElementView>)
    ensures
        ansi_library(lib).dom().contains("HavingClauseSegment"@),
        ansi_library(lib)["HavingClauseSegment"@] == having_clause_segment_element(),
{
    reveal(ansi_library);
    let m0 = lib;
    let m1 = ansi_library_part_0(m0);
    let m2 = ansi_library_part_1(m1);
    let m3 = ansi_library_part_2(m2);
    let m4 = ansi_library_part_3(m3);
    let m5 = ansi_library_part_4(m4);
    let m6 = ansi_library_part_5(m5);
    let m7 = ansi_library_part_6(m6);
    let m8 = ansi_library_part_7(m7);
    let m9 = ansi_library_part_8(m8);
    let m10 = ansi_library_part_9(m9);
    let m11 = ansi_library_part_10(m10);
    let m12 = ansi_library_part_11(m11);
    lemma_part_4_sets_having_clause_segment(m4);
    lemma_part_5_keeps_having_clause_segment(m5);
    lemma_part_6_keeps_having_clause_segment(m6);
    lemma_part_7_keeps_having_clause_segment(m7);
    lemma_part_8_keeps_having_clause_segment(m8);
    lemma_part_9_keeps_having_clause_segment(m9);
    lemma_part_10_keeps_having_clause_segment(m10);
    lemma_part_11_keeps_having_clause_segment(m11);
}

proof fn lemma_part_2_sets_if_exists_grammar(m: Map<Seq<char>, ElementView>)
    ensures
        ansi_library_part_2(m).dom().contains("IfExistsGrammar"@),
        ansi_library_part_2(m)["IfExistsGrammar"@] == if_exists_grammar_element(),
{
    reveal_strlit("IfExistsGrammar");
    reveal_strlit("IfNotExistsGrammar");
    assert("IfExistsGrammar"@.len() != "IfNotExistsGrammar"@.len());
    reveal_strlit("InOperatorGrammar");
    assert("IfExistsGrammar"@.len() != "InOperatorGrammar"@.len());
    reveal_strlit("IsClauseGrammar");
    assert("IfExistsGrammar"@[1] != "IsClauseGrammar"@[1]);
    reveal_strlit("LikeGrammar");
    assert("IfExistsGrammar"@.len() != "LikeGrammar"@.len());
    reveal_strlit("UnionGrammar");
    assert("IfExistsGrammar"@.len() != "UnionGrammar"@.len());
}

proof fn lemma_part_3_keeps_if_exists_grammar(m: Map<Seq<char>, ElementView>)
    requires
        m.dom().contains("IfExistsGrammar"@),
    ensures
        ansi_library_part_3(m).dom().contains("IfExistsGrammar"@),
        ansi_library_part_3(m)["IfExistsGrammar"@] == m["IfExistsGrammar"@],
{
    reveal_strlit("IfExistsGrammar");
    reveal_strlit("AutoIncrementGrammar");
    assert("IfExistsGrammar"@.len() != "AutoIncrementGrammar"@.len());
    reveal_strlit("BaseExpressionElementGrammar");
    assert("IfExistsGrammar"@.len() != "BaseExpressionElementGrammar"@.len());
    reveal_strlit("CollateGrammar");
    assert("IfExistsGrammar"@.len() != "CollateGrammar"@.len());
    reveal_strlit("DropBehaviorGrammar");
    assert("IfExistsGrammar"@.len() != "DropBehaviorGrammar"@.len());
    reveal_strlit("ExtendedNaturalJoinKeywordsGrammar");
    assert("IfExistsGrammar"@.len() != "ExtendedNaturalJoinKeywordsGrammar"@.len());
    reveal_strlit("FilterClauseGrammar");
    assert("IfExistsGrammar"@.len() != "FilterClauseGrammar"@.len());
    reveal_strlit("ForeignKeyGrammar");
    assert("IfExistsGrammar"@.len() != "ForeignKeyGrammar"@.len());
    reveal_strlit("FrameClauseUnitGrammar");
    assert("IfExistsGrammar"@.len() != "FrameClauseUnitGrammar"@.len());
    reveal_strlit("FromClauseTerminatorGrammar");
    assert("IfExistsGrammar"@.len() != "FromClauseTerminatorGrammar"@.len());
    reveal_strlit("FunctionParameterGrammar");
    assert("IfExistsGrammar"@.len() != "FunctionParameterGrammar"@.len());
    reveal_strlit("GroupByClauseTerminatorGrammar");
    assert("IfExistsGrammar"@.len() != "GroupByClauseTerminatorGrammar"@.len());
    reveal_strlit("HavingClauseTerminatorGrammar");
    assert("IfExistsGrammar"@.len() != "HavingClauseTerminatorGrammar"@.len());
    reveal_strlit("IgnoreRespectNullsGrammar");
    assert("IfExistsGrammar"@.len() != "IgnoreRespectNullsGrammar"@.len());
    reveal_strlit("IsNullGrammar");
    assert("IfExistsGrammar"@.len() != "IsNullGrammar"@.len());
    reveal_strlit("JoinKeywordsGrammar");
    assert("IfExistsGrammar"@.len() != "JoinKeywordsGrammar"@.len());
    reveal_strlit("JoinTypeKeywordsGrammar");
    assert("IfExistsGrammar"@.len() != "JoinTypeKeywordsGrammar"@.len());
    reveal_strlit("NaturalJoinKeywordsGrammar");
    assert("IfExistsGrammar"@.len() != "NaturalJoinKeywordsGrammar"@.len());
    reveal_strlit("NestedJoinGrammar");
    assert("IfExistsGrammar"@.len() != "NestedJoinGrammar"@.len());
    reveal_strlit("NotNullGrammar");
    assert("IfExistsGrammar"@.len() != "NotNullGrammar"@.len());
    reveal_strlit("OrderByClauseTerminators");
    assert("IfExistsGrammar"@.len() != "OrderByClauseTerminators"@.len());
    reveal_strlit("PrimaryKeyGrammar");
    assert("IfExistsGrammar"@.len() != "PrimaryKeyGrammar"@.len());
    reveal_strlit("ReferentialActionGrammar");
    assert("IfExistsGrammar"@.len() != "ReferentialActionGrammar"@.len());
    reveal_strlit("SelectClauseTerminatorGrammar");
    assert("IfExistsGrammar"@.len() != "SelectClauseTerminatorGrammar"@.len());
    reveal_strlit("UniqueKeyGrammar");
    assert("IfExistsGrammar"@.len() != "UniqueKeyGrammar"@.len());
    reveal_strlit("WhereClauseTerminatorGrammar");
    assert("IfExistsGrammar"@.len() != "WhereClauseTerminatorGrammar"@.len());
}

proof fn lemma_part_4_keeps_if_exists_grammar(m: Map<Seq<char>, ElementView>)
    requires
        m.dom().contains("IfExistsGrammar"@),
    ensures
        ansi_library_part_4(m).dom().contains("IfExistsGrammar"@),
        ansi_library_part_4(m)["IfExistsGrammar"@] == m["IfExistsGrammar"@],
{
    reveal_strlit("IfExistsGrammar");
    reveal_strlit("AlterTableDropColumnGrammar");
    assert("IfExistsGrammar"@.len() != "AlterTableDropColumnGrammar"@.len());
    reveal_strlit("AlterTableOptionsGrammar");
    assert("IfExistsGrammar"@.len() != "AlterTableOptionsGrammar"@.len());
    reveal_strlit("ColumnConstraintDefaultGrammar");
    assert("IfExistsGrammar"@.len() != "ColumnConstraintDefaultGrammar"@.len());
    reveal_strlit("ColumnReferenceSegment");
    assert("IfExistsGrammar"@.len() != "ColumnReferenceSegment"@.len());
    reveal_strlit("CubeFunctionNameSegment");
    assert("IfExistsGrammar"@.len() != "CubeFunctionNameSegment"@.len());
    reveal_strlit("CubeRollupClauseSegment");
    assert("IfExistsGrammar"@.len() != "CubeRollupClauseSegment"@.len());
    reveal_strlit("DateTimeFunctionContentsSegment");
    assert("IfExistsGrammar"@.len() != "DateTimeFunctionContentsSegment"@.len());
    reveal_strlit("DefaultValuesGrammar");
    assert("IfExistsGrammar"@.len() != "DefaultValuesGrammar"@.len());
    reveal_strlit("ExpressionSegment");
    assert("IfExistsGrammar"@.len() != "ExpressionSegment"@.len());
    reveal_strlit("FetchClauseSegment");
    assert("IfExistsGrammar"@.len() != "FetchClauseSegment"@.len());
    reveal_strlit("FileSegment");
    assert("IfExistsGrammar"@.len() != "FileSegment"@.len());
    reveal_strlit("FunctionSegment");
    assert("IfExistsGrammar"@[0] != "FunctionSegment"@[0]);
    reveal_strlit("GroupingExpressionList");
    assert("IfExistsGrammar"@.len() != "GroupingExpressionList"@.len());
    reveal_strlit("GroupingSetsClauseSegment");
    assert("IfExistsGrammar"@.len() != "GroupingSetsClauseSegment"@.len());
    reveal_strlit("HavingClauseSegment");
    assert("IfExistsGrammar"@.len() != "HavingClauseSegment"@.len());
    reveal_strlit("LimitClauseSegment");
    assert("IfExistsGrammar"@.len() != "LimitClauseSegment"@.len());
    reveal_strlit("NamedWindowExpressionSegment");
    assert("IfExistsGrammar"@.len() != "NamedWindowExpressionSegment"@.len());
    reveal_strlit("ObjectReferenceDelimiterGrammar");
    assert("IfExistsGrammar"@.len() != "ObjectReferenceDelimiterGrammar"@.len());
    reveal_strlit("ObjectReferenceTerminatorGrammar");
    assert("IfExistsGrammar"@.len() != "ObjectReferenceTerminatorGrammar"@.len());
    reveal_strlit("PathSegment");
    assert("IfExistsGrammar"@.len() != "PathSegment"@.len());
    reveal_strlit("ReferenceDefinitionGrammar");
    assert("IfExistsGrammar"@.len() != "ReferenceDefinitionGrammar"@.len());
    reveal_strlit("RollupFunctionNameSegment");
    assert("IfExistsGrammar"@.len() != "RollupFunctionNameSegment"@.len());
    reveal_strlit("SetClauseSegment");
    assert("IfExistsGrammar"@.len() != "SetClauseSegment"@.len());
    reveal_strlit("TrimParametersGrammar");
    assert("IfExistsGrammar"@.len() != "TrimParametersGrammar"@.len());
    reveal_strlit("WildcardIdentifierSegment");
    assert("IfExistsGrammar"@.len() != "WildcardIdentifierSegment"@.len());
}

proof fn lemma_part_5_keeps_if_exists_grammar(m: Map<Seq<char>, ElementView>)
    requires
        m.dom().contains("IfExistsGrammar"@),
    ensures
        ansi_library_part_5(m).dom().contains("IfExistsGrammar"@),
        ansi_library_part_5(m)["IfExistsGrammar"@] == m["IfExistsGrammar"@],
{
    reveal_strlit("IfExistsGrammar");
    reveal_strlit("AlterSequenceOptionsSegment");
    assert("IfExistsGrammar"@.len() != "AlterSequenceOptionsSegment"@.len());
    reveal_strlit("CTEColumnList");
    assert("IfExistsGrammar"@.len() != "CTEColumnList"@.len());
    reveal_strlit("CTEDefinitionSegment");
    assert("IfExistsGrammar"@.len() != "CTEDefinitionSegment"@.len());
    reveal_strlit("ColumnConstraintSegment");
    assert("IfExistsGrammar"@.len() != "ColumnConstraintSegment"@.len());
    reveal_strlit("ColumnDefinitionSegment");
    assert("IfExistsGrammar"@.len() != "ColumnDefinitionSegment"@.len());
    reveal_strlit("CommentClauseSegment");
    assert("IfExistsGrammar"@.len() != "CommentClauseSegment"@.len());
    reveal_strlit("ExtensionReferenceSegment");
    assert("IfExistsGrammar"@.len() != "ExtensionReferenceSegment"@.len());
    reveal_strlit("FrameClauseSegment");
    assert("IfExistsGrammar"@.len() != "FrameClauseSegment"@.len());
    reveal_strlit("FunctionDefinitionGrammar");
    assert("IfExistsGrammar"@.len() != "FunctionDefinitionGrammar"@.len());
    reveal_strlit("GroupByClauseSegment");
    assert("IfExistsGrammar"@.len() != "GroupByClauseSegment"@.len());
    reveal_strlit("MergeDeleteClauseSegment");
    assert("IfExistsGrammar"@.len() != "MergeDeleteClauseSegment"@.len());
    reveal_strlit("MergeInsertClauseSegment");
    assert("IfExistsGrammar"@.len() != "MergeInsertClauseSegment"@.len());
    reveal_strlit("MergeMatchSegment");
    assert("IfExistsGrammar"@.len() != "MergeMatchSegment"@.len());
    reveal_strlit("MergeMatchedClauseSegment");
    assert("IfExistsGrammar"@.len() != "MergeMatchedClauseSegment"@.len());
    reveal_strlit("MergeNotMatchedClauseSegment");
    assert("IfExistsGrammar"@.len() != "MergeNotMatchedClauseSegment"@.len());
    reveal_strlit("MergeUpdateClauseSegment");
    assert("IfExistsGrammar"@.len() != "MergeUpdateClauseSegment"@.len());
    reveal_strlit("RoleReferenceSegment");
    assert("IfExistsGrammar"@.len() != "RoleReferenceSegment"@.len());
    reveal_strlit("SchemaReferenceSegment");
    assert("IfExistsGrammar"@.len() != "SchemaReferenceSegment"@.len());
    reveal_strlit("SetClauseListSegment");
    assert("IfExistsGrammar"@.len() != "SetClauseListSegment"@.len());
    reveal_strlit("SingleIdentifierListSegment");
    assert("IfExistsGrammar"@.len() != "SingleIdentifierListSegment"@.len());
    reveal_strlit("TableEndClauseSegment");
    assert("IfExistsGrammar"@.len() != "TableEndClauseSegment"@.len());
    reveal_strlit("TablespaceReferenceSegment");
    assert("IfExistsGrammar"@.len() != "TablespaceReferenceSegment"@.len());
    reveal_strlit("TagReferenceSegment");
    assert("IfExistsGrammar"@.len() != "TagReferenceSegment"@.len());
    reveal_strlit("WithCompoundNonSelectStatementSegment");
    assert("IfExistsGrammar"@.len() != "WithCompoundNonSelectStatementSegment"@.len());
    reveal_strlit("WithCompoundStatementSegment");
    assert("IfExistsGrammar"@.len() != "WithCompoundStatementSegment"@.len());
}

proof fn lemma_part_6_keeps_if_exists_grammar(m: Map<Seq<char>, ElementView>)
    requires
        m.dom().contains("IfExistsGrammar"@),
    ensures
        ansi_library_part_6(m).dom().contains("IfExistsGrammar"@),
        ansi_library_part_6(m)["IfExistsGrammar"@] == m["IfExistsGrammar"@],
{
    reveal_strlit("IfExistsGrammar");
    reveal_strlit("CollationReferenceSegment");
    assert("IfExistsGrammar"@.len() != "CollationReferenceSegment"@.len());
    reveal_strlit("CreateSequenceOptionsSegment");
    assert("IfExistsGrammar"@.len() != "CreateSequenceOptionsSegment"@.len());
    reveal_strlit("CreateSequenceStatementSegment");
    assert("IfExistsGrammar"@.len() != "CreateSequenceStatementSegment"@.len());
    reveal_strlit("CreateTriggerStatementSegment");
    assert("IfExistsGrammar"@.len() != "CreateTriggerStatementSegment"@.len());
    reveal_strlit("DatabaseReferenceSegment");
    assert("IfExistsGrammar"@.len() != "DatabaseReferenceSegment"@.len());
    reveal_strlit("DescribeStatementSegment");
    assert("IfExistsGrammar"@.len() != "DescribeStatementSegment"@.len());
    reveal_strlit("DropModelStatementSegment");
    assert("IfExistsGrammar"@.len() != "DropModelStatementSegment"@.len());
    reveal_strlit("DropTriggerStatementSegment");
    assert("IfExistsGrammar"@.len() != "DropTriggerStatementSegment"@.len());
    reveal_strlit("ExplainStatementSegment");
    assert("IfExistsGrammar"@.len() != "ExplainStatementSegment"@.len());
    reveal_strlit("IndexReferenceSegment");
    assert("IfExistsGrammar"@.len() != "IndexReferenceSegment"@.len());
    reveal_strlit("JoinClauseSegment");
    assert("IfExistsGrammar"@.len() != "JoinClauseSegment"@.len());
    reveal_strlit("JoinOnConditionSegment");
    assert("IfExistsGrammar"@.len() != "JoinOnConditionSegment"@.len());
    reveal_strlit("NamedWindowSegment");
    assert("IfExistsGrammar"@.len() != "NamedWindowSegment"@.len());
    reveal_strlit("OverClauseSegment");
    assert("IfExistsGrammar"@.len() != "OverClauseSegment"@.len());
    reveal_strlit("PartitionClauseSegment");
    assert("IfExistsGrammar"@.len() != "PartitionClauseSegment"@.len());
    reveal_strlit("SamplingExpressionSegment");
    assert("IfExistsGrammar"@.len() != "SamplingExpressionSegment"@.len());
    reveal_strlit("SequenceReferenceSegment");
    assert("IfExistsGrammar"@.len() != "SequenceReferenceSegment"@.len());
    reveal_strlit("TableConstraintSegment");
    assert("IfExistsGrammar"@.len() != "TableConstraintSegment"@.len());
    reveal_strlit("TableExpressionSegment");
    assert("IfExistsGrammar"@.len() != "TableExpressionSegment"@.len());
    reveal_strlit("TriggerReferenceSegment");
    assert("IfExistsGrammar"@.len() != "TriggerReferenceSegment"@.len());
    reveal_strlit("UseStatementSegment");
    assert("IfExistsGrammar"@.len() != "UseStatementSegment"@.len());
    reveal_strlit("WindowSpecificationSegment");
    assert("IfExistsGrammar"@.len() != "WindowSpecificationSegment"@.len());
}

proof fn lemma_part_7_keeps_if_exists_grammar(m: Map<Seq<char>, ElementView>)
    requires
        m.dom().contains("IfExistsGrammar"@),
    ensures
        ansi_library_part_7(m).dom().contains("IfExistsGrammar"@),
        ansi_library_part_7(m)["IfExistsGrammar"@] == m["IfExistsGrammar"@],
{
    reveal_strlit("IfExistsGrammar");
    reveal_strlit("AccessStatementSegment");
    assert("IfExistsGrammar"@.len() != "AccessStatementSegment"@.len());
    reveal_strlit("AlterSequenceStatementSegment");
    assert("IfExistsGrammar"@.len() != "AlterSequenceStatementSegment"@.len());
    reveal_strlit("AlterTableStatementSegment");
    assert("IfExistsGrammar"@.len() != "AlterTableStatementSegment"@.len());
    reveal_strlit("CreateCastStatementSegment");
    assert("IfExistsGrammar"@.len() != "CreateCastStatementSegment"@.len());
    reveal_strlit("CreateDatabaseStatementSegment");
    assert("IfExistsGrammar"@.len() != "CreateDatabaseStatementSegment"@.len());
    reveal_strlit("CreateFunctionStatementSegment");
    assert("IfExistsGrammar"@.len() != "CreateFunctionStatementSegment"@.len());
    reveal_strlit("CreateIndexStatementSegment");
    assert("IfExistsGrammar"@.len() != "CreateIndexStatementSegment"@.len());
    reveal_strlit("CreateModelStatementSegment");
    assert("IfExistsGrammar"@.len() != "CreateModelStatementSegment"@.len());
    reveal_strlit("CreateRoleStatementSegment");
    assert("IfExistsGrammar"@.len() != "CreateRoleStatementSegment"@.len());
    reveal_strlit("CreateTableStatementSegment");
    assert("IfExistsGrammar"@.len() != "CreateTableStatementSegment"@.len());
    reveal_strlit("CreateViewStatementSegment");
    assert("IfExistsGrammar"@.len() != "CreateViewStatementSegment"@.len());
    reveal_strlit("DeleteStatementSegment");
    assert("IfExistsGrammar"@.len() != "DeleteStatementSegment"@.len());
    reveal_strlit("DropCastStatementSegment");
    assert("IfExistsGrammar"@.len() != "DropCastStatementSegment"@.len());
    reveal_strlit("DropDatabaseStatementSegment");
    assert("IfExistsGrammar"@.len() != "DropDatabaseStatementSegment"@.len());
    reveal_strlit("DropFunctionStatementSegment");
    assert("IfExistsGrammar"@.len() != "DropFunctionStatementSegment"@.len());
    reveal_strlit("DropIndexStatementSegment");
    assert("IfExistsGrammar"@.len() != "DropIndexStatementSegment"@.len());
    reveal_strlit("DropRoleStatementSegment");
    assert("IfExistsGrammar"@.len() != "DropRoleStatementSegment"@.len());
    reveal_strlit("DropSchemaStatementSegment");
    assert("IfExistsGrammar"@.len() != "DropSchemaStatementSegment"@.len());
    reveal_strlit("DropSequenceStatementSegment");
    assert("IfExistsGrammar"@.len() != "DropSequenceStatementSegment"@.len());
    reveal_strlit("DropTypeStatementSegment");
    assert("IfExistsGrammar"@.len() != "DropTypeStatementSegment"@.len());
    reveal_strlit("FunctionParameterListGrammar");
    assert("IfExistsGrammar"@.len() != "FunctionParameterListGrammar"@.len());
    reveal_strlit("InsertStatementSegment");
    assert("IfExistsGrammar"@.len() != "InsertStatementSegment"@.len());
    reveal_strlit("SetSchemaStatementSegment");
    assert("IfExistsGrammar"@.len() != "SetSchemaStatementSegment"@.len());
    reveal_strlit("TransactionStatementSegment");
    assert("IfExistsGrammar"@.len() != "TransactionStatementSegment"@.len());
    reveal_strlit("UpdateStatementSegment");
    assert("IfExistsGrammar"@.len() != "UpdateStatementSegment"@.len());
}

proof fn lemma_part_8_keeps_if_exists_grammar(m: Map<Seq<char>, ElementView>)
    requires
        m.dom().contains("IfExistsGrammar"@),
    ensures
        ansi_library_part_8(m).dom().contains("IfExistsGrammar"@),
        ansi_library_part_8(m)["IfExistsGrammar"@] == m["IfExistsGrammar"@],
{
    reveal_strlit("IfExistsGrammar");
    reveal_strlit("AggregateOrderByClause");
    assert("IfExistsGrammar"@.len() != "AggregateOrderByClause"@.len());
    reveal_strlit("ArrayExpressionSegment");
    assert("IfExistsGrammar"@.len() != "ArrayExpressionSegment"@.len());
    reveal_strlit("BitwiseAndSegment");
    assert("IfExistsGrammar"@.len() != "BitwiseAndSegment"@.len());
    reveal_strlit("BitwiseLShiftSegment");
    assert("IfExistsGrammar"@.len() != "BitwiseLShiftSegment"@.len());
    reveal_strlit("BitwiseOrSegment");
    assert("IfExistsGrammar"@.len() != "BitwiseOrSegment"@.len());
    reveal_strlit("BitwiseRShiftSegment");
    assert("IfExistsGrammar"@.len() != "BitwiseRShiftSegment"@.len());
    reveal_strlit("ConcatSegment");
    assert("IfExistsGrammar"@.len() != "ConcatSegment"@.len());
    reveal_strlit("CreateUserStatementSegment");
    assert("IfExistsGrammar"@.len() != "CreateUserStatementSegment"@.len());
    reveal_strlit("DropTableStatementSegment");
    assert("IfExistsGrammar"@.len() != "DropTableStatementSegment"@.len());
    reveal_strlit("DropUserStatementSegment");
    assert("IfExistsGrammar"@.len() != "DropUserStatementSegment"@.len());
    reveal_strlit("DropViewStatementSegment");
    assert("IfExistsGrammar"@.len() != "DropViewStatementSegment"@.len());
    reveal_strlit("ElseClauseSegment");
    assert("IfExistsGrammar"@.len() != "ElseClauseSegment"@.len());
    reveal_strlit("EqualsSegment");
    assert("IfExistsGrammar"@.len() != "EqualsSegment"@.len());
    reveal_strlit("FunctionNameSegment");
    assert("IfExistsGrammar"@.len() != "FunctionNameSegment"@.len());
    reveal_strlit("GreaterThanOrEqualToSegment");
    assert("IfExistsGrammar"@.len() != "GreaterThanOrEqualToSegment"@.len());
    reveal_strlit("GreaterThanSegment");
    assert("IfExistsGrammar"@.len() != "GreaterThanSegment"@.len());
    reveal_strlit("IndexColumnDefinitionSegment");
    assert("IfExistsGrammar"@.len() != "IndexColumnDefinitionSegment"@.len());
    reveal_strlit("LessThanOrEqualToSegment");
    assert("IfExistsGrammar"@.len() != "LessThanOrEqualToSegment"@.len());
    reveal_strlit("LessThanSegment");
    assert("IfExistsGrammar"@[0] != "LessThanSegment"@[0]);
    reveal_strlit("LocalAliasSegment");
    assert("IfExistsGrammar"@.len() != "LocalAliasSegment"@.len());
    reveal_strlit("MergeStatementSegment");
    assert("IfExistsGrammar"@.len() != "MergeStatementSegment"@.len());
    reveal_strlit("NotEqualToSegment");
    assert("IfExistsGrammar"@.len() != "NotEqualToSegment"@.len());
    reveal_strlit("QualifiedNumericLiteralSegment");
    assert("IfExistsGrammar"@.len() != "QualifiedNumericLiteralSegment"@.len());
    reveal_strlit("WhenClauseSegment");
    assert("IfExistsGrammar"@.len() != "WhenClauseSegment"@.len());
    reveal_strlit("WhereClauseSegment");
    assert("IfExistsGrammar"@.len() != "WhereClauseSegment"@.len());
}

proof fn lemma_part_9_keeps_if_exists_grammar(m: Map<Seq<char>, ElementView>)
    requires
        m.dom().contains("IfExistsGrammar"@),
    ensures
        ansi_library_part_9(m).dom().contains("IfExistsGrammar"@),
        ansi_library_part_9(m)["IfExistsGrammar"@] == m["IfExistsGrammar"@],
{
    reveal_strlit("IfExistsGrammar");
    reveal_strlit("AliasExpressionSegment");
    assert("IfExistsGrammar"@.len() != "AliasExpressionSegment"@.len());
    reveal_strlit("ArrayAccessorSegment");
    assert("IfExistsGrammar"@.len() != "ArrayAccessorSegment"@.len());
    reveal_strlit("ArrayLiteralSegment");
    assert("IfExistsGrammar"@.len() != "ArrayLiteralSegment"@.len());
    reveal_strlit("ArrayTypeSegment");
    assert("IfExistsGrammar"@.len() != "ArrayTypeSegment"@.len());
    reveal_strlit("BracketedArguments");
    assert("IfExistsGrammar"@.len() != "BracketedArguments"@.len());
    reveal_strlit("DatatypeSegment");
    assert("IfExistsGrammar"@[0] != "DatatypeSegment"@[0]);
    reveal_strlit("EmptyStructLiteralSegment");
    assert("IfExistsGrammar"@.len() != "EmptyStructLiteralSegment"@.len());
    reveal_strlit("IntervalExpressionSegment");
    assert("IfExistsGrammar"@.len() != "IntervalExpressionSegment"@.len());
    reveal_strlit("ObjectLiteralElementSegment");
    assert("IfExistsGrammar"@.len() != "ObjectLiteralElementSegment"@.len());
    reveal_strlit("ObjectLiteralSegment");
    assert("IfExistsGrammar"@.len() != "ObjectLiteralSegment"@.len());
    reveal_strlit("OverlapsClauseSegment");
    assert("IfExistsGrammar"@.len() != "OverlapsClauseSegment"@.len());
    reveal_strlit("SelectClauseSegment");
    assert("IfExistsGrammar"@.len() != "SelectClauseSegment"@.len());
    reveal_strlit("SetOperatorSegment");
    assert("IfExistsGrammar"@.len() != "SetOperatorSegment"@.len());
    reveal_strlit("ShorthandCastSegment");
    assert("IfExistsGrammar"@.len() != "ShorthandCastSegment"@.len());
    reveal_strlit("SizedArrayTypeSegment");
    assert("IfExistsGrammar"@.len() != "SizedArrayTypeSegment"@.len());
    reveal_strlit("StatementSegment");
    assert("IfExistsGrammar"@.len() != "StatementSegment"@.len());
    reveal_strlit("StructLiteralSegment");
    assert("IfExistsGrammar"@.len() != "StructLiteralSegment"@.len());
    reveal_strlit("StructTypeSegment");
    assert("IfExistsGrammar"@.len() != "StructTypeSegment"@.len());
    reveal_strlit("TimeZoneGrammar");
    assert("IfExistsGrammar"@[0] != "TimeZoneGrammar"@[0]);
    reveal_strlit("TypedArrayLiteralSegment");
    assert("IfExistsGrammar"@.len() != "TypedArrayLiteralSegment"@.len());
    reveal_strlit("TypedStructLiteralSegment");
    assert("IfExistsGrammar"@.len() != "TypedStructLiteralSegment"@.len());
    reveal_strlit("UnorderedSelectStatementSegment");
    assert("IfExistsGrammar"@.len() != "UnorderedSelectStatementSegment"@.len());
    reveal_strlit("ValuesClauseSegment");
    assert("IfExistsGrammar"@.len() != "ValuesClauseSegment"@.len());
    reveal_strlit("WithDataClauseSegment");
    assert("IfExistsGrammar"@.len() != "WithDataClauseSegment"@.len());
    reveal_strlit("WithNoSchemaBindingClauseSegment");
    assert("IfExistsGrammar"@.len() != "WithNoSchemaBindingClauseSegment"@.len());
}

proof fn lemma_part_10_keeps_if_exists_grammar(m: Map<Seq<char>, ElementView>)
    requires
        m.dom().contains("IfExistsGrammar"@),
    ensures
        ansi_library_part_10(m).dom().contains("IfExistsGrammar"@),
        ansi_library_part_10(m)["IfExistsGrammar"@] == m["IfExistsGrammar"@],
{
    reveal_strlit("IfExistsGrammar");
    reveal_strlit("AccessStatementSegmentGrantRoleWithOptionGrammar");
    assert("IfExistsGrammar"@.len() != "AccessStatementSegmentGrantRoleWithOptionGrammar"@.len());
    reveal_strlit("AliasedTableReferenceGrammar");
    assert("IfExistsGrammar"@.len() != "AliasedTableReferenceGrammar"@.len());
    reveal_strlit("CharCharacterSetGrammar");
    assert("IfExistsGrammar"@.len() != "CharCharacterSetGrammar"@.len());
    reveal_strlit("CreateSchemaStatementSegment");
    assert("IfExistsGrammar"@.len() != "CreateSchemaStatementSegment"@.len());
    reveal_strlit("DatePartFunctionNameSegment");
    assert("IfExistsGrammar"@.len() != "DatePartFunctionNameSegment"@.len());
    reveal_strlit("EmptyStructLiteralBracketsSegment");
    assert("IfExistsGrammar"@.len() != "EmptyStructLiteralBracketsSegment"@.len());
    reveal_strlit("Expression_A_Grammar");
    assert("IfExistsGrammar"@.len() != "Expression_A_Grammar"@.len());
    reveal_strlit("Expression_A_Unary_Operator_Grammar");
    assert("IfExistsGrammar"@.len() != "Expression_A_Unary_Operator_Grammar"@.len());
    reveal_strlit("Expression_B_Unary_Operator_Grammar");
    assert("IfExistsGrammar"@.len() != "Expression_B_Unary_Operator_Grammar"@.len());
    reveal_strlit("FromClauseSegment");
    assert("IfExistsGrammar"@.len() != "FromClauseSegment"@.len());
    reveal_strlit("FromExpressionSegment");
    assert("IfExistsGrammar"@.len() != "FromExpressionSegment"@.len());
    reveal_strlit("FunctionContentsExpressionGrammar");
    assert("IfExistsGrammar"@.len() != "FunctionContentsExpressionGrammar"@.len());
    reveal_strlit("FunctionContentsGrammar");
    assert("IfExistsGrammar"@.len() != "FunctionContentsGrammar"@.len());
    reveal_strlit("FunctionContentsSegment");
    assert("IfExistsGrammar"@.len() != "FunctionContentsSegment"@.len());
    reveal_strlit("JoinLikeClauseGrammar");
    assert("IfExistsGrammar"@.len() != "JoinLikeClauseGrammar"@.len());
    reveal_strlit("OrderByClauseSegment");
    assert("IfExistsGrammar"@.len() != "OrderByClauseSegment"@.len());
    reveal_strlit("PostFunctionGrammar");
    assert("IfExistsGrammar"@.len() != "PostFunctionGrammar"@.len());
    reveal_strlit("SelectClauseElementSegment");
    assert("IfExistsGrammar"@.len() != "SelectClauseElementSegment"@.len());
    reveal_strlit("SelectClauseModifierSegment");
    assert("IfExistsGrammar"@.len() != "SelectClauseModifierSegment"@.len());
    reveal_strlit("SelectStatementSegment");
    assert("IfExistsGrammar"@.len() != "SelectStatementSegment"@.len());
    reveal_strlit("SetExpressionSegment");
    assert("IfExistsGrammar"@.len() != "SetExpressionSegment"@.len());
    reveal_strlit("Tail_Recurse_Expression_A_Grammar");
    assert("IfExistsGrammar"@.len() != "Tail_Recurse_Expression_A_Grammar"@.len());
    reveal_strlit("Tail_Recurse_Expression_B_Grammar");
    assert("IfExistsGrammar"@.len() != "Tail_Recurse_Expression_B_Grammar"@.len());
    reveal_strlit("TruncateStatementSegment");
    assert("IfExistsGrammar"@.len() != "TruncateStatementSegment"@.len());
    reveal_strlit("WildcardExpressionSegment");
    assert("IfExistsGrammar"@.len() != "WildcardExpressionSegment"@.len());
}

proof fn lemma_part_11_keeps_if_exists_grammar(m: Map<Seq<char>, ElementView>)
    requires
        m.dom().contains("IfExistsGrammar"@),
    ensures
        ansi_library_part_11(m).dom().contains("IfExistsGrammar"@),
        ansi_library_part_11(m)["IfExistsGrammar"@] == m["IfExistsGrammar"@],
{
    reveal_strlit("IfExistsGrammar");
    reveal_strlit("AccessorGrammar");
    assert("IfExistsGrammar"@[0] != "AccessorGrammar"@[0]);
    reveal_strlit("Expression_B_Grammar");
    assert("IfExistsGrammar"@.len() != "Expression_B_Grammar"@.len());
    reveal_strlit("Expression_C_Grammar");
    assert("IfExistsGrammar"@.len() != "Expression_C_Grammar"@.len());
    reveal_strlit("Expression_D_Grammar");
    assert("IfExistsGrammar"@.len() != "Expression_D_Grammar"@.len());
    reveal_strlit("NonSetSelectableGrammar");
    assert("IfExistsGrammar"@.len() != "NonSetSelectableGrammar"@.len());
    reveal_strlit("NonWithNonSelectableGrammar");
    assert("IfExistsGrammar"@.len() != "NonWithNonSelectableGrammar"@.len());
    reveal_strlit("NonWithSelectableGrammar");
    assert("IfExistsGrammar"@.len() != "NonWithSelectableGrammar"@.len());
    reveal_strlit("PostTableExpressionGrammar");
    assert("IfExistsGrammar"@.len() != "PostTableExpressionGrammar"@.len());
    reveal_strlit("SelectableGrammar");
    assert("IfExistsGrammar"@.len() != "SelectableGrammar"@.len());
    reveal_strlit("TimeWithTZGrammar");
    assert("IfExistsGrammar"@.len() != "TimeWithTZGrammar"@.len());
}

/// The ANSI library holds `IfExistsGrammar`: the value of its last entry of that name.
pub proof fn lemma_ansi_library_if_exists_grammar(lib: Map<Seq<char>, ElementView>)
    ensures
        ansi_library(lib).dom().contains("IfExistsGrammar"@),
        ansi_library(lib)["IfExistsGrammar"@] == if_exists_grammar_element(),
{
    reveal(ansi_library);
    let m0 = lib;
    let m1 = ansi_library_part_0(m0);
    let m2 = ansi_library_part_1(m1);
    let m3 = ansi_library_part_2(m2);
    let m4 = ansi_library_part_3(m3);
    let m5 = ansi_library_part_4(m4);
    let m6 = ansi_library_part_5(m5);
    let m7 = ansi_library_part_6(m6);
    let m8 = ansi_library_part_7(m7);
    let m9 = ansi_library_part_8(m8);
    let m10 = ansi_library_part_9(m9);
    let m11 = ansi_library_part_10(m10);
    let m12 = ansi_library_part_11(m11);
    lemma_part_2_sets_if_exists_grammar(m2);
    lemma_part_3_keeps_if_exists_grammar(m3);
    lemma_part_4_keeps_if_exists_grammar(m4);
    lemma_part_5_keeps_if_exists_grammar(m5);
    lemma_part_6_keeps_if_exists_grammar(m6);
    lemma_part_7_keeps_if_exists_grammar(m7);
    lemma_part_8_keeps_if_exists_grammar(m8);
    lemma_part_9_keeps_if_exists_grammar(m9);
    lemma_part_10_keeps_if_exists_grammar(m10);
    lemma_part_11_keeps_if_exists_grammar(m11);
}

proof fn lemma_part_2_sets_if_not_exists_grammar(m: Map<Seq<char>, ElementView>)
    ensures
        ansi_library_part_2(m).dom().contains("IfNotExistsGrammar"@),
        ansi_library_part_2(m)["IfNotExistsGrammar"@] == if_not_exists_grammar_element(),
{
    reveal_strlit("IfNotExistsGrammar");
    reveal_strlit("InOperatorGrammar");
    assert("IfNotExistsGrammar"@.len() != "InOperatorGrammar"@.len());
    reveal_strlit("IsClauseGrammar");
    assert("IfNotExistsGrammar"@.len() != "IsClauseGrammar"@.len());
    reveal_strlit("LikeGrammar");
    assert("IfNotExistsGrammar"@.len() != "LikeGrammar"@.len());
    reveal_strlit("UnionGrammar");
    assert("IfNotExistsGrammar"@.len() != "UnionGrammar"@.len());
}

proof fn lemma_part_3_keeps_if_not_exists_grammar(m: Map<Seq<char>, ElementView>)
    requires
        m.dom().contains("IfNotExistsGrammar"@),
    ensures
        ansi_library_part_3(m).dom().contains("IfNotExistsGrammar"@),
        ansi_library_part_3(m)["IfNotExistsGrammar"@] == m["IfNotExistsGrammar"@],
{
    reveal_strlit("IfNotExistsGrammar");
    reveal_strlit("AutoIncrementGrammar");
    assert("IfNotExistsGrammar"@.len() != "AutoIncrementGrammar"@.len());
    reveal_strlit("BaseExpressionElementGrammar");
    assert("IfNotExistsGrammar"@.len() != "BaseExpressionElementGrammar"@.len());
    reveal_strlit("CollateGrammar");
    assert("IfNotExistsGrammar"@.len() != "CollateGrammar"@.len());
    reveal_strlit("DropBehaviorGrammar");
    assert("IfNotExistsGrammar"@.len() != "DropBehaviorGrammar"@.len());
    reveal_strlit("ExtendedNaturalJoinKeywordsGrammar");
    assert("IfNotExistsGrammar"@.len() != "ExtendedNaturalJoinKeywordsGrammar"@.len());
    reveal_strlit("FilterClauseGrammar");
    assert("IfNotExistsGrammar"@.len() != "FilterClauseGrammar"@.len());
    reveal_strlit("ForeignKeyGrammar");
    assert("IfNotExistsGrammar"@.len() != "ForeignKeyGrammar"@.len());
    reveal_strlit("FrameClauseUnitGrammar");
    assert("IfNotExistsGrammar"@.len() != "FrameClauseUnitGrammar"@.len());
    reveal_strlit("FromClauseTerminatorGrammar");
    assert("IfNotExistsGrammar"@.len() != "FromClauseTerminatorGrammar"@.len());
    reveal_strlit("FunctionParameterGrammar");
    assert("IfNotExistsGrammar"@.len() != "FunctionParameterGrammar"@.len());
    reveal_strlit("GroupByClauseTerminatorGrammar");
    assert("IfNotExistsGrammar"@.len() != "GroupByClauseTerminatorGrammar"@.len());
    reveal_strlit("HavingClauseTerminatorGrammar");
    assert("IfNotExistsGrammar"@.len() != "HavingClauseTerminatorGrammar"@.len());
    reveal_strlit("IgnoreRespectNullsGrammar");
    assert("IfNotExistsGrammar"@.len() != "IgnoreRespectNullsGrammar"@.len());
    reveal_strlit("IsNullGrammar");
    assert("IfNotExistsGrammar"@.len() != "IsNullGrammar"@.len());
    reveal_strlit("JoinKeywordsGrammar");
    assert("IfNotExistsGrammar"@.len() != "JoinKeywordsGrammar"@.len());
    reveal_strlit("JoinTypeKeywordsGrammar");
    assert("IfNotExistsGrammar"@.len() != "JoinTypeKeywordsGrammar"@.len());
    reveal_strlit("NaturalJoinKeywordsGrammar");
    assert("IfNotExistsGrammar"@.len() != "NaturalJoinKeywordsGrammar"@.len());
    reveal_strlit("NestedJoinGrammar");
    assert("IfNotExistsGrammar"@.len() != "NestedJoinGrammar"@.len());
    reveal_strlit("NotNullGrammar");
    assert("IfNotExistsGrammar"@.len() != "NotNullGrammar"@.len());
    reveal_strlit("OrderByClauseTerminators");
    assert("IfNotExistsGrammar"@.len() != "OrderByClauseTerminators"@.len());
    reveal_strlit("PrimaryKeyGrammar");
    assert("IfNotExistsGrammar"@.len() != "PrimaryKeyGrammar"@.len());
    reveal_strlit("ReferentialActionGrammar");
    assert("IfNotExistsGrammar"@.len() != "ReferentialActionGrammar"@.len());
    reveal_strlit("SelectClauseTerminatorGrammar");
    assert("IfNotExistsGrammar"@.len() != "SelectClauseTerminatorGrammar"@.len());
    reveal_strlit("UniqueKeyGrammar");
    assert("IfNotExistsGrammar"@.len() != "UniqueKeyGrammar"@.len());
    reveal_strlit("WhereClauseTerminatorGrammar");
    assert("IfNotExistsGrammar"@.len() != "WhereClauseTerminatorGrammar"@.len());
}

proof fn lemma_part_4_keeps_if_not_exists_grammar(m: Map<Seq<char>, ElementView>)
    requires
        m.dom().contains("IfNotExistsGrammar"@),
    ensures
        ansi_library_part_4(m).dom().contains("IfNotExistsGrammar"@),
        ansi_library_part_4(m)["IfNotExistsGrammar"@] == m["IfNotExistsGrammar"@],
{
    reveal_strlit("IfNotExistsGrammar");
    reveal_strlit("AlterTableDropColumnGrammar");
    assert("IfNotExistsGrammar"@.len() != "AlterTableDropColumnGrammar"@.len());
    reveal_strlit("AlterTableOptionsGrammar");
    assert("IfNotExistsGrammar"@.len() != "AlterTableOptionsGrammar"@.len());
    reveal_strlit("ColumnConstraintDefaultGrammar");
    assert("IfNotExistsGrammar"@.len() != "ColumnConstraintDefaultGrammar"@.len());
    reveal_strlit("ColumnReferenceSegment");
    assert("IfNotExistsGrammar"@.len() != "ColumnReferenceSegment"@.len());
    reveal_strlit("CubeFunctionNameSegment");
    assert("IfNotExistsGrammar"@.len() != "CubeFunctionNameSegment"@.len());
    reveal_strlit("CubeRollupClauseSegment");
    assert("IfNotExistsGrammar"@.len() != "CubeRollupClauseSegment"@.len());
    reveal_strlit("DateTimeFunctionContentsSegment");
    assert("IfNotExistsGrammar"@.len() != "DateTimeFunctionContentsSegment"@.len());
    reveal_strlit("DefaultValuesGrammar");
    assert("IfNotExistsGrammar"@.len() != "DefaultValuesGrammar"@.len());
    reveal_strlit("ExpressionSegment");
    assert("IfNotExistsGrammar"@.len() != "ExpressionSegment"@.len());
    reveal_strlit("FetchClauseSegment");
    assert("IfNotExistsGrammar"@[0] != "FetchClauseSegment"@[0]);
    reveal_strlit("FileSegment");
    assert("IfNotExistsGrammar"@.len() != "FileSegment"@.len());
    reveal_strlit("FunctionSegment");
    assert("IfNotExistsGrammar"@.len() != "FunctionSegment"@.len());
    reveal_strlit("GroupingExpressionList");
    assert("IfNotExistsGrammar"@.len() != "GroupingExpressionList"@.len());
    reveal_strlit("GroupingSetsClauseSegment");
    assert("IfNotExistsGrammar"@.len() != "GroupingSetsClauseSegment"@.len());
    reveal_strlit("HavingClauseSegment");
    assert("IfNotExistsGrammar"@.len() != "HavingClauseSegment"@.len());
    reveal_strlit("LimitClauseSegment");
    assert("IfNotExistsGrammar"@[0] != "LimitClauseSegment"@[0]);
    reveal_strlit("NamedWindowExpressionSegment");
    assert("IfNotExistsGrammar"@.len() != "NamedWindowExpressionSegment"@.len());
    reveal_strlit("ObjectReferenceDelimiterGrammar");
    assert("IfNotExistsGrammar"@.len() != "ObjectReferenceDelimiterGrammar"@.len());
    reveal_strlit("ObjectReferenceTerminatorGrammar");
    assert("IfNotExistsGrammar"@.len() != "ObjectReferenceTerminatorGrammar"@.len());
    reveal_strlit("PathSegment");
    assert("IfNotExistsGrammar"@.len() != "PathSegment"@.len());
    reveal_strlit("ReferenceDefinitionGrammar");
    assert("IfNotExistsGrammar"@.len() != "ReferenceDefinitionGrammar"@.len());
    reveal_strlit("RollupFunctionNameSegment");
    assert("IfNotExistsGrammar"@.len() != "RollupFunctionNameSegment"@.len());
    reveal_strlit("SetClauseSegment");
    assert("IfNotExistsGrammar"@.len() != "SetClauseSegment"@.len());
    reveal_strlit("TrimParametersGrammar");
    assert("IfNotExistsGrammar"@.len() != "TrimParametersGrammar"@.len());
    reveal_strlit("WildcardIdentifierSegment");
    assert("IfNotExistsGrammar"@.len() != "WildcardIdentifierSegment"@.len());
}

proof fn lemma_part_5_keeps_if_not_exists_grammar(m: Map<Seq<char>, ElementView>)
    requires
        m.dom().contains("IfNotExistsGrammar"@),
    ensures
        ansi_library_part_5(m).dom().contains("IfNotExistsGrammar"@),
        ansi_library_part_5(m)["IfNotExistsGrammar"@] == m["IfNotExistsGrammar"@],
{
    reveal_strlit("IfNotExistsGrammar");
    reveal_strlit("AlterSequenceOptionsSegment");
    assert("IfNotExistsGrammar"@.len() != "AlterSequenceOptionsSegment"@.len());
    reveal_strlit("CTEColumnList");
    assert("IfNotExistsGrammar"@.len() != "CTEColumnList"@.len());
    reveal_strlit("CTEDefinitionSegment");
    assert("IfNotExistsGrammar"@.len() != "CTEDefinitionSegment"@.len());
    reveal_strlit("ColumnConstraintSegment");
    assert("IfNotExistsGrammar"@.len() != "ColumnConstraintSegment"@.len());
    reveal_strlit("ColumnDefinitionSegment");
    assert("IfNotExistsGrammar"@.len() != "ColumnDefinitionSegment"@.len());
    reveal_strlit("CommentClauseSegment");
    assert("IfNotExistsGrammar"@.len() != "CommentClauseSegment"@.len());
    reveal_strlit("ExtensionReferenceSegment");
    assert("IfNotExistsGrammar"@.len() != "ExtensionReferenceSegment"@.len());
    reveal_strlit("FrameClauseSegment");
    assert("IfNotExistsGrammar"@[0] != "FrameClauseSegment"@[0]);
    reveal_strlit("FunctionDefinitionGrammar");
    assert("IfNotExistsGrammar"@.len() != "FunctionDefinitionGrammar"@.len());
    reveal_strlit("GroupByClauseSegment");
    assert("IfNotExistsGrammar"@.len() != "GroupByClauseSegment"@.len());
    reveal_strlit("MergeDeleteClauseSegment");
    assert("IfNotExistsGrammar"@.len() != "MergeDeleteClauseSegment"@.len());
    reveal_strlit("MergeInsertClauseSegment");
    assert("IfNotExistsGrammar"@.len() != "MergeInsertClauseSegment"@.len());
    reveal_strlit("MergeMatchSegment");
    assert("IfNotExistsGrammar"@.len() != "MergeMatchSegment"@.len());
    reveal_strlit("MergeMatchedClauseSegment");
    assert("IfNotExistsGrammar"@.len() != "MergeMatchedClauseSegment"@.len());
    reveal_strlit("MergeNotMatchedClauseSegment");
    assert("IfNotExistsGrammar"@.len() != "MergeNotMatchedClauseSegment"@.len());
    reveal_strlit("MergeUpdateClauseSegment");
    assert("IfNotExistsGrammar"@.len() != "MergeUpdateClauseSegment"@.len());
    reveal_strlit("RoleReferenceSegment");
    assert("IfNotExistsGrammar"@.len() != "RoleReferenceSegment"@.len());
    reveal_strlit("SchemaReferenceSegment");
    assert("IfNotExistsGrammar"@.len() != "SchemaReferenceSegment"@.len());
    reveal_strlit("SetClauseListSegment");
    assert("IfNotExistsGrammar"@.len() != "SetClauseListSegment"@.len());
    reveal_strlit("SingleIdentifierListSegment");
    assert("IfNotExistsGrammar"@.len() != "SingleIdentifierListSegment"@.len());
    reveal_strlit("TableEndClauseSegment");
    assert("IfNotExistsGrammar"@.len() != "TableEndClauseSegment"@.len());
    reveal_strlit("TablespaceReferenceSegment");
    assert("IfNotExistsGrammar"@.len() != "TablespaceReferenceSegment"@.len());
    reveal_strlit("TagReferenceSegment");
    assert("IfNotExistsGrammar"@.len() != "TagReferenceSegment"@.len());
    reveal_strlit("WithCompoundNonSelectStatementSegment");
    assert("IfNotExistsGrammar"@.len() != "WithCompoundNonSelectStatementSegment"@.len());
    reveal_strlit("WithCompoundStatementSegment");
    assert("IfNotExistsGrammar"@.len() != "WithCompoundStatementSegment"@.len());
}

proof fn lemma_part_6_keeps_if_not_exists_grammar(m: Map<Seq<char>, ElementView>)
    requires
        m.dom().contains("IfNotExistsGrammar"@),
    ensures
        ansi_library_part_6(m).dom().contains("IfNotExistsGrammar"@),
        ansi_library_part_6(m)["IfNotExistsGrammar"@] == m["IfNotExistsGrammar"@],
{
    reveal_strlit("IfNotExistsGrammar");
    reveal_strlit("CollationReferenceSegment");
    assert("IfNotExistsGrammar"@.len() != "CollationReferenceSegment"@.len());
    reveal_strlit("CreateSequenceOptionsSegment");
    assert("IfNotExistsGrammar"@.len() != "CreateSequenceOptionsSegment"@.len());
    reveal_strlit("CreateSequenceStatementSegment");
    assert("IfNotExistsGrammar"@.len() != "CreateSequenceStatementSegment"@.len());
    reveal_strlit("CreateTriggerStatementSegment");
    assert("IfNotExistsGrammar"@.len() != "CreateTriggerStatementSegment"@.len());
    reveal_strlit("DatabaseReferenceSegment");
    assert("IfNotExistsGrammar"@.len() != "DatabaseReferenceSegment"@.len());
    reveal_strlit("DescribeStatementSegment");
    assert("IfNotExistsGrammar"@.len() != "DescribeStatementSegment"@.len());
    reveal_strlit("DropModelStatementSegment");
    assert("IfNotExistsGrammar"@.len() != "DropModelStatementSegment"@.len());
    reveal_strlit("DropTriggerStatementSegment");
    assert("IfNotExistsGrammar"@.len() != "DropTriggerStatementSegment"@.len());
    reveal_strlit("ExplainStatementSegment");
    assert("IfNotExistsGrammar"@.len() != "ExplainStatementSegment"@.len());
    reveal_strlit("IndexReferenceSegment");
    assert("IfNotExistsGrammar"@.len() != "IndexReferenceSegment"@.len());
    reveal_strlit("JoinClauseSegment");
    assert("IfNotExistsGrammar"@.len() != "JoinClauseSegment"@.len());
    reveal_strlit("JoinOnConditionSegment");
    assert("IfNotExistsGrammar"@.len() != "JoinOnConditionSegment"@.len());
    reveal_strlit("NamedWindowSegment");
    assert("IfNotExistsGrammar"@[0] != "NamedWindowSegment"@[0]);
    reveal_strlit("OverClauseSegment");
    assert("IfNotExistsGrammar"@.len() != "OverClauseSegment"@.len());
    reveal_strlit("PartitionClauseSegment");
    assert("IfNotExistsGrammar"@.len() != "PartitionClauseSegment"@.len());
    reveal_strlit("SamplingExpressionSegment");
    assert("IfNotExistsGrammar"@.len() != "SamplingExpressionSegment"@.len());
    reveal_strlit("SequenceReferenceSegment");
    assert("IfNotExistsGrammar"@.len() != "SequenceReferenceSegment"@.len());
    reveal_strlit("TableConstraintSegment");
    assert("IfNotExistsGrammar"@.len() != "TableConstraintSegment"@.len());
    reveal_strlit("TableExpressionSegment");
    assert("IfNotExistsGrammar"@.len() != "TableExpressionSegment"@.len());
    reveal_strlit("TriggerReferenceSegment");
    assert("IfNotExistsGrammar"@.len() != "TriggerReferenceSegment"@.len());
    reveal_strlit("UseStatementSegment");
    assert("IfNotExistsGrammar"@.len() != "UseStatementSegment"@.len());
    reveal_strlit("WindowSpecificationSegment");
    assert("IfNotExistsGrammar"@.len() != "WindowSpecificationSegment"@.len());
}

proof fn lemma_part_7_keeps_if_not_exists_grammar(m: Map<Seq<char>, ElementView>)
    requires
        m.dom().contains("IfNotExistsGrammar"@),
    ensures
        ansi_library_part_7(m).dom().contains("IfNotExistsGrammar"@),
        ansi_library_part_7(m)["IfNotExistsGrammar"@] == m["IfNotExistsGrammar"@],
{
    reveal_strlit("IfNotExistsGrammar");
    reveal_strlit("AccessStatementSegment");
    assert("IfNotExistsGrammar"@.len() != "AccessStatementSegment"@.len());
    reveal_strlit("AlterSequenceStatementSegment");
    assert("IfNotExistsGrammar"@.len() != "AlterSequenceStatementSegment"@.len());
    reveal_strlit("AlterTableStatementSegment");
    assert("IfNotExistsGrammar"@.len() != "AlterTableStatementSegment"@.len());
    reveal_strlit("CreateCastStatementSegment");
    assert("IfNotExistsGrammar"@.len() != "CreateCastStatementSegment"@.len());
    reveal_strlit("CreateDatabaseStatementSegment");
    assert("IfNotExistsGrammar"@.len() != "CreateDatabaseStatementSegment"@.len());
    reveal_strlit("CreateFunctionStatementSegment");
    assert("IfNotExistsGrammar"@.len() != "CreateFunctionStatementSegment"@.len());
    reveal_strlit("CreateIndexStatementSegment");
    assert("IfNotExistsGrammar"@.len() != "CreateIndexStatementSegment"@.len());
    reveal_strlit("CreateModelStatementSegment");
    assert("IfNotExistsGrammar"@.len() != "CreateModelStatementSegment"@.len());
    reveal_strlit("CreateRoleStatementSegment");
    assert("IfNotExistsGrammar"@.len() != "CreateRoleStatementSegment"@.len());
    reveal_strlit("CreateTableStatementSegment");
    assert("IfNotExistsGrammar"@.len() != "CreateTableStatementSegment"@.len());
    reveal_strlit("CreateViewStatementSegment");
    assert("IfNotExistsGrammar"@.len() != "CreateViewStatementSegment"@.len());
    reveal_strlit("DeleteStatementSegment");
    assert("IfNotExistsGrammar"@.len() != "DeleteStatementSegment"@.len());
    reveal_strlit("DropCastStatementSegment");
    assert("IfNotExistsGrammar"@.len() != "DropCastStatementSegment"@.len());
    reveal_strlit("DropDatabaseStatementSegment");
    assert("IfNotExistsGrammar"@.len() != "DropDatabaseStatementSegment"@.len());
    reveal_strlit("DropFunctionStatementSegment");
    assert("IfNotExistsGrammar"@.len() != "DropFunctionStatementSegment"@.len());
    reveal_strlit("DropIndexStatementSegment");
    assert("IfNotExistsGrammar"@.len() != "DropIndexStatementSegment"@.len());
    reveal_strlit("DropRoleStatementSegment");
    assert("IfNotExistsGrammar"@.len() != "DropRoleStatementSegment"@.len());
    reveal_strlit("DropSchemaStatementSegment");
    assert("IfNotExistsGrammar"@.len() != "DropSchemaStatementSegment"@.len());
    reveal_strlit("DropSequenceStatementSegment");
    assert("IfNotExistsGrammar"@.len() != "DropSequenceStatementSegment"@.len());
    reveal_strlit("DropTypeStatementSegment");
    assert("IfNotExistsGrammar"@.len() != "DropTypeStatementSegment"@.len());
    reveal_strlit("FunctionParameterListGrammar");
    assert("IfNotExistsGrammar"@.len() != "FunctionParameterListGrammar"@.len());
    reveal_strlit("InsertStatementSegment");
    assert("IfNotExistsGrammar"@.len() != "InsertStatementSegment"@.len());
    reveal_strlit("SetSchemaStatementSegment");
    assert("IfNotExistsGrammar"@.len() != "SetSchemaStatementSegment"@.len());
    reveal_strlit("TransactionStatementSegment");
    assert("IfNotExistsGrammar"@.len() != "TransactionStatementSegment"@.len());
    reveal_strlit("UpdateStatementSegment");
    assert("IfNotExistsGrammar"@.len() != "UpdateStatementSegment"@.len());
}

proof fn lemma_part_8_keeps_if_not_exists_grammar(m: Map<Seq<char>, ElementView>)
    requires
        m.dom().contains("IfNotExistsGrammar"@),
    ensures
        ansi_library_part_8(m).dom().contains("IfNotExistsGrammar"@),
        ansi_library_part_8(m)["IfNotExistsGrammar"@] == m["IfNotExistsGrammar"@],
{
    reveal_strlit("IfNotExistsGrammar");
    reveal_strlit("AggregateOrderByClause");
    assert("IfNotExistsGrammar"@.len() != "AggregateOrderByClause"@.len());
    reveal_strlit("ArrayExpressionSegment");
    assert("IfNotExistsGrammar"@.len() != "ArrayExpressionSegment"@.len());
    reveal_strlit("BitwiseAndSegment");
    assert("IfNotExistsGrammar"@.len() != "BitwiseAndSegment"@.len());
    reveal_strlit("BitwiseLShiftSegment");
    assert("IfNotExistsGrammar"@.len() != "BitwiseLShiftSegment"@.len());
    reveal_strlit("BitwiseOrSegment");
    assert("IfNotExistsGrammar"@.len() != "BitwiseOrSegment"@.len());
    reveal_strlit("BitwiseRShiftSegment");
    assert("IfNotExistsGrammar"@.len() != "BitwiseRShiftSegment"@.len());
    reveal_strlit("ConcatSegment");
    assert("IfNotExistsGrammar"@.len() != "ConcatSegment"@.len());
    reveal_strlit("CreateUserStatementSegment");
    assert("IfNotExistsGrammar"@.len() != "CreateUserStatementSegment"@.len());
    reveal_strlit("DropTableStatementSegment");
    assert("IfNotExistsGrammar"@.len() != "DropTableStatementSegment"@.len());
    reveal_strlit("DropUserStatementSegment");
    assert("IfNotExistsGrammar"@.len() != "DropUserStatementSegment"@.len());
    reveal_strlit("DropViewStatementSegment");
    assert("IfNotExistsGrammar"@.len() != "DropViewStatementSegment"@.len());
    reveal_strlit("ElseClauseSegment");
    assert("IfNotExistsGrammar"@.len() != "ElseClauseSegment"@.len());
    reveal_strlit("EqualsSegment");
    assert("IfNotExistsGrammar"@.len() != "EqualsSegment"@.len());
    reveal_strlit("FunctionNameSegment");
    assert("IfNotExistsGrammar"@.len() != "FunctionNameSegment"@.len());
    reveal_strlit("GreaterThanOrEqualToSegment");
    assert("IfNotExistsGrammar"@.len() != "GreaterThanOrEqualToSegment"@.len());
    reveal_strlit("GreaterThanSegment");
    assert("IfNotExistsGrammar"@[0] != "GreaterThanSegment"@[0]);
    reveal_strlit("IndexColumnDefinitionSegment");
    assert("IfNotExistsGrammar"@.len() != "IndexColumnDefinitionSegment"@.len());
    reveal_strlit("LessThanOrEqualToSegment");
    assert("IfNotExistsGrammar"@.len() != "LessThanOrEqualToSegment"@.len());
    reveal_strlit("LessThanSegment");
    assert("IfNotExistsGrammar"@.len() != "LessThanSegment"@.len());
    reveal_strlit("LocalAliasSegment");
    assert("IfNotExistsGrammar"@.len() != "LocalAliasSegment"@.len());
    reveal_strlit("MergeStatementSegment");
    assert("IfNotExistsGrammar"@.len() != "MergeStatementSegment"@.len());
    reveal_strlit("NotEqualToSegment");
    assert("IfNotExistsGrammar"@.len() != "NotEqualToSegment"@.len());
    reveal_strlit("QualifiedNumericLiteralSegment");
    assert("IfNotExistsGrammar"@.len() != "QualifiedNumericLiteralSegment"@.len());
    reveal_strlit("WhenClauseSegment");
    assert("IfNotExistsGrammar"@.len() != "WhenClauseSegment"@.len());
    reveal_strlit("WhereClauseSegment");
    assert("IfNotExistsGrammar"@[0] != "WhereClauseSegment"@[0]);
}

proof fn lemma_part_9_keeps_if_not_exists_grammar(m: Map<Seq<char>, ElementView>)
    requires
        m.dom().contains("IfNotExistsGrammar"@),
    ensures
        ansi_library_part_9(m).dom().contains("IfNotExistsGrammar"@),
        ansi_library_part_9(m)["IfNotExistsGrammar"@] == m["IfNotExistsGrammar"@],
{
    reveal_strlit("IfNotExistsGrammar");
    reveal_strlit("AliasExpressionSegment");
    assert("IfNotExistsGrammar"@.len() != "AliasExpressionSegment"@.len());
    reveal_strlit("ArrayAccessorSegment");
    assert("IfNotExistsGrammar"@.len() != "ArrayAccessorSegment"@.len());
    reveal_strlit("ArrayLiteralSegment");
    assert("IfNotExistsGrammar"@.len() != "ArrayLiteralSegment"@.len());
    reveal_strlit("ArrayTypeSegment");
    assert("IfNotExistsGrammar"@.len() != "ArrayTypeSegment"@.len());
    reveal_strlit("BracketedArguments");
    assert("IfNotExistsGrammar"@[0] != "BracketedArguments"@[0]);
    reveal_strlit("DatatypeSegment");
    assert("IfNotExistsGrammar"@.len() != "DatatypeSegment"@.len());
    reveal_strlit("EmptyStructLiteralSegment");
    assert("IfNotExistsGrammar"@.len() != "EmptyStructLiteralSegment"@.len());
    reveal_strlit("IntervalExpressionSegment");
    assert("IfNotExistsGrammar"@.len() != "IntervalExpressionSegment"@.len());
    reveal_strlit("ObjectLiteralElementSegment");
    assert("IfNotExistsGrammar"@.len() != "ObjectLiteralElementSegment"@.len());
    reveal_strlit("ObjectLiteralSegment");
    assert("IfNotExistsGrammar"@.len() != "ObjectLiteralSegment"@.len());
    reveal_strlit("OverlapsClauseSegment");
    assert("IfNotExistsGrammar"@.len() != "OverlapsClauseSegment"@.len());
    reveal_strlit("SelectClauseSegment");
    assert("IfNotExistsGrammar"@.len() != "SelectClauseSegment"@.len());
    reveal_strlit("SetOperatorSegment");
    assert("IfNotExistsGrammar"@[0] != "SetOperatorSegment"@[0]);
    reveal_strlit("ShorthandCastSegment");
    assert("IfNotExistsGrammar"@.len() != "ShorthandCastSegment"@.len());
    reveal_strlit("SizedArrayTypeSegment");
    assert("IfNotExistsGrammar"@.len() != "SizedArrayTypeSegment"@.len());
    reveal_strlit("StatementSegment");
    assert("IfNotExistsGrammar"@.len() != "StatementSegment"@.len());
    reveal_strlit("StructLiteralSegment");
    assert("IfNotExistsGrammar"@.len() != "StructLiteralSegment"@.len());
    reveal_strlit("StructTypeSegment");
    assert("IfNotExistsGrammar"@.len() != "StructTypeSegment"@.len());
    reveal_strlit("TimeZoneGrammar");
    assert("IfNotExistsGrammar"@.len() != "TimeZoneGrammar"@.len());
    reveal_strlit("TypedArrayLiteralSegment");
    assert("IfNotExistsGrammar"@.len() != "TypedArrayLiteralSegment"@.len());
    reveal_strlit("TypedStructLiteralSegment");
    assert("IfNotExistsGrammar"@.len() != "TypedStructLiteralSegment"@.len());
    reveal_strlit("UnorderedSelectStatementSegment");
    assert("IfNotExistsGrammar"@.len() != "UnorderedSelectStatementSegment"@.len());
    reveal_strlit("ValuesClauseSegment");
    assert("IfNotExistsGrammar"@.len() != "ValuesClauseSegment"@.len());
    reveal_strlit("WithDataClauseSegment");
    assert("IfNotExistsGrammar"@.len() != "WithDataClauseSegment"@.len());
    reveal_strlit("WithNoSchemaBindingClauseSegment");
    assert("IfNotExistsGrammar"@.len() != "WithNoSchemaBindingClauseSegment"@.len());
}

proof fn lemma_part_10_keeps_if_not_exists_grammar(m: Map<Seq<char>, ElementView>)
    requires
        m.dom().contains("IfNotExistsGrammar"@),
    ensures
        ansi_library_part_10(m).dom().contains("IfNotExistsGrammar"@),
        ansi_library_part_10(m)["IfNotExistsGrammar"@] == m["IfNotExistsGrammar"@],
{
    reveal_strlit("IfNotExistsGrammar");
    reveal_strlit("AccessStatementSegmentGrantRoleWithOptionGrammar");
    assert("IfNotExistsGrammar"@.len() != "AccessStatementSegmentGrantRoleWithOptionGrammar"@.len());
    reveal_strlit("AliasedTableReferenceGrammar");
    assert("IfNotExistsGrammar"@.len() != "AliasedTableReferenceGrammar"@.len());
    reveal_strlit("CharCharacterSetGrammar");
    assert("IfNotExistsGrammar"@.len() != "CharCharacterSetGrammar"@.len());
    reveal_strlit("CreateSchemaStatementSegment");
    assert("IfNotExistsGrammar"@.len() != "CreateSchemaStatementSegment"@.len());
    reveal_strlit("DatePartFunctionNameSegment");
    assert("IfNotExistsGrammar"@.len() != "DatePartFunctionNameSegment"@.len());
    reveal_strlit("EmptyStructLiteralBracketsSegment");
    assert("IfNotExistsGrammar"@.len() != "EmptyStructLiteralBracketsSegment"@.len());
    reveal_strlit("Expression_A_Grammar");
    assert("IfNotExistsGrammar"@.len() != "Expression_A_Grammar"@.len());
    reveal_strlit("Expression_A_Unary_Operator_Grammar");
    assert("IfNotExistsGrammar"@.len() != "Expression_A_Unary_Operator_Grammar"@.len());
    reveal_strlit("Expression_B_Unary_Operator_Grammar");
    assert("IfNotExistsGrammar"@.len() != "Expression_B_Unary_Operator_Grammar"@.len());
    reveal_strlit("FromClauseSegment");
    assert("IfNotExistsGrammar"@.len() != "FromClauseSegment"@.len());
    reveal_strlit("FromExpressionSegment");
    assert("IfNotExistsGrammar"@.len() != "FromExpressionSegment"@.len());
    reveal_strlit("FunctionContentsExpressionGrammar");
    assert("IfNotExistsGrammar"@.len() != "FunctionContentsExpressionGrammar"@.len());
    reveal_strlit("FunctionContentsGrammar");
    assert("IfNotExistsGrammar"@.len() != "FunctionContentsGrammar"@.len());
    reveal_strlit("FunctionContentsSegment");
    assert("IfNotExistsGrammar"@.len() != "FunctionContentsSegment"@.len());
    reveal_strlit("JoinLikeClauseGrammar");
    assert("IfNotExistsGrammar"@.len() != "JoinLikeClauseGrammar"@.len());
    reveal_strlit("OrderByClauseSegment");
    assert("IfNotExistsGrammar"@.len() != "OrderByClauseSegment"@.len());
    reveal_strlit("PostFunctionGrammar");
    assert("IfNotExistsGrammar"@.len() != "PostFunctionGrammar"@.len());
    reveal_strlit("SelectClauseElementSegment");
    assert("IfNotExistsGrammar"@.len() != "SelectClauseElementSegment"@.len());
    reveal_strlit("SelectClauseModifierSegment");
    assert("IfNotExistsGrammar"@.len() != "SelectClauseModifierSegment"@.len());
    reveal_strlit("SelectStatementSegment");
    assert("IfNotExistsGrammar"@.len() != "SelectStatementSegment"@.len());
    reveal_strlit("SetExpressionSegment");
    assert("IfNotExistsGrammar"@.len() != "SetExpressionSegment"@.len());
    reveal_strlit("Tail_Recurse_Expression_A_Grammar");
    assert("IfNotExistsGrammar"@.len() != "Tail_Recurse_Expression_A_Grammar"@.len());
    reveal_strlit("Tail_Recurse_Expression_B_Grammar");
    assert("IfNotExistsGrammar"@.len() != "Tail_Recurse_Expression_B_Grammar"@.len());
    reveal_strlit("TruncateStatementSegment");
    assert("IfNotExistsGrammar"@.len() != "TruncateStatementSegment"@.len());
    reveal_strlit("WildcardExpressionSegment");
    assert("IfNotExistsGrammar"@.len() != "WildcardExpressionSegment"@.len());
}

proof fn lemma_part_11_keeps_if_not_exists_grammar(m: Map<Seq<char>, ElementView>)
    requires
        m.dom().contains("IfNotExistsGrammar"@),
    ensures
        ansi_library_part_11(m).dom().contains("IfNotExistsGrammar"@),
        ansi_library_part_11(m)["IfNotExistsGrammar"@] == m["IfNotExistsGrammar"@],
{
    reveal_strlit("IfNotExistsGrammar");
    reveal_strlit("AccessorGrammar");
    assert("IfNotExistsGrammar"@.len() != "AccessorGrammar"@.len());
    reveal_strlit("Expression_B_Grammar");
    assert("IfNotExistsGrammar"@.len() != "Expression_B_Grammar"@.len());
    reveal_strlit("Expression_C_Grammar");
    assert("IfNotExistsGrammar"@.len() != "Expression_C_Grammar"@.len());
    reveal_strlit("Expression_D_Grammar");
    assert("IfNotExistsGrammar"@.len() != "Expression_D_Grammar"@.len());
    reveal_strlit("NonSetSelectableGrammar");
    assert("IfNotExistsGrammar"@.len() != "NonSetSelectableGrammar"@.len());
    reveal_strlit("NonWithNonSelectableGrammar");
    assert("IfNotExistsGrammar"@.len() != "NonWithNonSelectableGrammar"@.len());
    reveal_strlit("NonWithSelectableGrammar");
    assert("IfNotExistsGrammar"@.len() != "NonWithSelectableGrammar"@.len());
    reveal_strlit("PostTableExpressionGrammar");
    assert("IfNotExistsGrammar"@.len() != "PostTableExpressionGrammar"@.len());
    reveal_strlit("SelectableGrammar");
    assert("IfNotExistsGrammar"@.len() != "SelectableGrammar"@.len());
    reveal_strlit("TimeWithTZGrammar");
    assert("IfNotExistsGrammar"@.len() != "TimeWithTZGrammar"@.len());
}

/// The ANSI library holds `IfNotExistsGrammar`: the value of its last entry of that name.
pub proof fn lemma_ansi_library_if_not_exists_grammar(lib: Map<Seq<char>, ElementView>)
    ensures
        ansi_library(lib).dom().contains("IfNotExistsGrammar"@),
        ansi_library(lib)["IfNotExistsGrammar"@] == if_not_exists_grammar_element(),
{
    reveal(ansi_library);
    let m0 = lib;
    let m1 = ansi_library_part_0(m0);
    let m2 = ansi_library_part_1(m1);
    let m3 = ansi_library_part_2(m2);
    let m4 = ansi_library_part_3(m3);
    let m5 = ansi_library_part_4(m4);
    let m6 = ansi_library_part_5(m5);
    let m7 = ansi_library_part_6(m6);
    let m8 = ansi_library_part_7(m7);
    let m9 = ansi_library_part_8(m8);
    let m10 = ansi_library_part_9(m9);
    let m11 = ansi_library_part_10(m10);
    let m12 = ansi_library_part_11(m11);
    lemma_part_2_sets_if_not_exists_grammar(m2);
    lemma_part_3_keeps_if_not_exists_grammar(m3);
    lemma_part_4_keeps_if_not_exists_grammar(m4);
    lemma_part_5_keeps_if_not_exists_grammar(m5);
    lemma_part_6_keeps_if_not_exists_grammar(m6);
    lemma_part_7_keeps_if_not_exists_grammar(m7);
    lemma_part_8_keeps_if_not_exists_grammar(m8);
    lemma_part_9_keeps_if_not_exists_grammar(m9);
    lemma_part_10_keeps_if_not_exists_grammar(m10);
    lemma_part_11_keeps_if_not_exists_grammar(m11);
}

proof fn lemma_part_2_sets_or_replace_grammar(m: Map<Seq<char>, ElementView>)
    ensures
        ansi_library_part_2(m).dom().contains("OrReplaceGrammar"@),
        ansi_library_part_2(m)["OrReplaceGrammar"@] == or_replace_grammar_element(),
{
    reveal_strlit("OrReplaceGrammar");
    reveal_strlit("IfExistsGrammar");
    assert("OrReplaceGrammar"@.len() != "IfExistsGrammar"@.len());
    reveal_strlit("IfNotExistsGrammar");
    assert("OrReplaceGrammar"@.len() != "IfNotExistsGrammar"@.len());
    reveal_strlit("InOperatorGrammar");
    assert("OrReplaceGrammar"@.len() != "InOperatorGrammar"@.len());
    reveal_strlit("IsClauseGrammar");
    assert("OrReplaceGrammar"@.len() != "IsClauseGrammar"@.len());
    reveal_strlit("LikeGrammar");
    assert("OrReplaceGrammar"@.len() != "LikeGrammar"@.len());
    reveal_strlit("TemporaryGrammar");
    assert("OrReplaceGrammar"@[0] != "TemporaryGrammar"@[0]);
    reveal_strlit("TemporaryTransientGrammar");
    assert("OrReplaceGrammar"@.len() != "TemporaryTransientGrammar"@.len());
    reveal_strlit("UnionGrammar");
    assert("OrReplaceGrammar"@.len() != "UnionGrammar"@.len());
}

proof fn lemma_part_3_keeps_or_replace_grammar(m: Map<Seq<char>, ElementView>)
    requires
        m.dom().contains("OrReplaceGrammar"@),
    ensures
        ansi_library_part_3(m).dom().contains("OrReplaceGrammar"@),
        ansi_library_part_3(m)["OrReplaceGrammar"@] == m["OrReplaceGrammar"@],
{
    reveal_strlit("OrReplaceGrammar");
    reveal_strlit("AutoIncrementGrammar");
    assert("OrReplaceGrammar"@.len() != "AutoIncrementGrammar"@.len());
    reveal_strlit("BaseExpressionElementGrammar");
    assert("OrReplaceGrammar"@.len() != "BaseExpressionElementGrammar"@.len());
    reveal_strlit("CollateGrammar");
    assert("OrReplaceGrammar"@.len() != "CollateGrammar"@.len());
    reveal_strlit("DropBehaviorGrammar");
    assert("OrReplaceGrammar"@.len() != "DropBehaviorGrammar"@.len());
    reveal_strlit("ExtendedNaturalJoinKeywordsGrammar");
    assert("OrReplaceGrammar"@.len() != "ExtendedNaturalJoinKeywordsGrammar"@.len());
    reveal_strlit("FilterClauseGrammar");
    assert("OrReplaceGrammar"@.len() != "FilterClauseGrammar"@.len());
    reveal_strlit("ForeignKeyGrammar");
    assert("OrReplaceGrammar"@.len() != "ForeignKeyGrammar"@.len());
    reveal_strlit("FrameClauseUnitGrammar");
    assert("OrReplaceGrammar"@.len() != "FrameClauseUnitGrammar"@.len());
    reveal_strlit("FromClauseTerminatorGrammar");
    assert("OrReplaceGrammar"@.len() != "FromClauseTerminatorGrammar"@.len());
    reveal_strlit("FunctionParameterGrammar");
    assert("OrReplaceGrammar"@.len() != "FunctionParameterGrammar"@.len());
    reveal_strlit("GroupByClauseTerminatorGrammar");
    assert("OrReplaceGrammar"@.len() != "GroupByClauseTerminatorGrammar"@.len());
    reveal_strlit("HavingClauseTerminatorGrammar");
    assert("OrReplaceGrammar"@.len() != "HavingClauseTerminatorGrammar"@.len());
    reveal_strlit("IgnoreRespectNullsGrammar");
    assert("OrReplaceGrammar"@.len() != "IgnoreRespectNullsGrammar"@.len());
    reveal_strlit("IsNullGrammar");
    assert("OrReplaceGrammar"@.len() != "IsNullGrammar"@.len());
    reveal_strlit("JoinKeywordsGrammar");
    assert("OrReplaceGrammar"@.len() != "JoinKeywordsGrammar"@.len());
    reveal_strlit("JoinTypeKeywordsGrammar");
    assert("OrReplaceGrammar"@.len() != "JoinTypeKeywordsGrammar"@.len());
    reveal_strlit("NaturalJoinKeywordsGrammar");
    assert("OrReplaceGrammar"@.len() != "NaturalJoinKeywordsGrammar"@.len());
    reveal_strlit("NestedJoinGrammar");
    assert("OrReplaceGrammar"@.len() != "NestedJoinGrammar"@.len());
    reveal_strlit("NotNullGrammar");
    assert("OrReplaceGrammar"@.len() != "NotNullGrammar"@.len());
    reveal_strlit("OrderByClauseTerminators");
    assert("OrReplaceGrammar"@.len() != "OrderByClauseTerminators"@.len());
    reveal_strlit("PrimaryKeyGrammar");
    assert("OrReplaceGrammar"@.len() != "PrimaryKeyGrammar"@.len());
    reveal_strlit("ReferentialActionGrammar");
    assert("OrReplaceGrammar"@.len() != "ReferentialActionGrammar"@.len());
    reveal_strlit("SelectClauseTerminatorGrammar");
    assert("OrReplaceGrammar"@.len() != "SelectClauseTerminatorGrammar"@.len());
    reveal_strlit("UniqueKeyGrammar");
    assert("OrReplaceGrammar"@[0] != "UniqueKeyGrammar"@[0]);
    reveal_strlit("WhereClauseTerminatorGrammar");
    assert("OrReplaceGrammar"@.len() != "WhereClauseTerminatorGrammar"@.len());
}

proof fn lemma_part_4_keeps_or_replace_grammar(m: Map<Seq<char>, ElementView>)
    requires
        m.dom().contains("OrReplaceGrammar"@),
    ensures
        ansi_library_part_4(m).dom().contains("OrReplaceGrammar"@),
        ansi_library_part_4(m)["OrReplaceGrammar"@] == m["OrReplaceGrammar"@],
{
    reveal_strlit("OrReplaceGrammar");
    reveal_strlit("AlterTableDropColumnGrammar");
    assert("OrReplaceGrammar"@.len() != "AlterTableDropColumnGrammar"@.len());
    reveal_strlit("AlterTableOptionsGrammar");
    assert("OrReplaceGrammar"@.len() != "AlterTableOptionsGrammar"@.len());
    reveal_strlit("ColumnConstraintDefaultGrammar");
    assert("OrReplaceGrammar"@.len() != "ColumnConstraintDefaultGrammar"@.len());
    reveal_strlit("ColumnReferenceSegment");
    assert("OrReplaceGrammar"@.len() != "ColumnReferenceSegment"@.len());
    reveal_strlit("CubeFunctionNameSegment");
    assert("OrReplaceGrammar"@.len() != "CubeFunctionNameSegment"@.len());
    reveal_strlit("CubeRollupClauseSegment");
    assert("OrReplaceGrammar"@.len() != "CubeRollupClauseSegment"@.len());
    reveal_strlit("DateTimeFunctionContentsSegment");
    assert("OrReplaceGrammar"@.len() != "DateTimeFunctionContentsSegment"@.len());
    reveal_strlit("DefaultValuesGrammar");
    assert("OrReplaceGrammar"@.len() != "DefaultValuesGrammar"@.len());
    reveal_strlit("ExpressionSegment");
    assert("OrReplaceGrammar"@.len() != "ExpressionSegment"@.len());
    reveal_strlit("FetchClauseSegment");
    assert("OrReplaceGrammar"@.len() != "FetchClauseSegment"@.len());
    reveal_strlit("FileSegment");
    assert("OrReplaceGrammar"@.len() != "FileSegment"@.len());
    reveal_strlit("FunctionSegment");
    assert("OrReplaceGrammar"@.len() != "FunctionSegment"@.len());
    reveal_strlit("GroupingExpressionList");
    assert("OrReplaceGrammar"@.len() != "GroupingExpressionList"@.len());
    reveal_strlit("GroupingSetsClauseSegment");
    assert("OrReplaceGrammar"@.len() != "GroupingSetsClauseSegment"@.len());
    reveal_strlit("HavingClauseSegment");
    assert("OrReplaceGrammar"@.len() != "HavingClauseSegment"@.len());
    reveal_strlit("LimitClauseSegment");
    assert("OrReplaceGrammar"@.len() != "LimitClauseSegment"@.len());
    reveal_strlit("NamedWindowExpressionSegment");
    assert("OrReplaceGrammar"@.len() != "NamedWindowExpressionSegment"@.len());
    reveal_strlit("ObjectReferenceDelimiterGrammar");
    assert("OrReplaceGrammar"@.len() != "ObjectReferenceDelimiterGrammar"@.len());
    reveal_strlit("ObjectReferenceTerminatorGrammar");
    assert("OrReplaceGrammar"@.len() != "ObjectReferenceTerminatorGrammar"@.len());
    reveal_strlit("PathSegment");
    assert("OrReplaceGrammar"@.len() != "PathSegment"@.len());
    reveal_strlit("ReferenceDefinitionGrammar");
    assert("OrReplaceGrammar"@.len() != "ReferenceDefinitionGrammar"@.len());
    reveal_strlit("RollupFunctionNameSegment");
    assert("OrReplaceGrammar"@.len() != "RollupFunctionNameSegment"@.len());
    reveal_strlit("SetClauseSegment");
    assert("OrReplaceGrammar"@[0] != "SetClauseSegment"@[0]);
    reveal_strlit("TrimParametersGrammar");
    assert("OrReplaceGrammar"@.len() != "TrimParametersGrammar"@.len());
    reveal_strlit("WildcardIdentifierSegment");
    assert("OrReplaceGrammar"@.len() != "WildcardIdentifierSegment"@.len());
}

proof fn lemma_part_5_keeps_or_replace_grammar(m: Map<Seq<char>, ElementView>)
    requires
        m.dom().contains("OrReplaceGrammar"@),
    ensures
        ansi_library_part_5(m).dom().contains("OrReplaceGrammar"@),
        ansi_library_part_5(m)["OrReplaceGrammar"@] == m["OrReplaceGrammar"@],
{
    reveal_strlit("OrReplaceGrammar");
    reveal_strlit("AlterSequenceOptionsSegment");
    assert("OrReplaceGrammar"@.len() != "AlterSequenceOptionsSegment"@.len());
    reveal_strlit("CTEColumnList");
    assert("OrReplaceGrammar"@.len() != "CTEColumnList"@.len());
    reveal_strlit("CTEDefinitionSegment");
    assert("OrReplaceGrammar"@.len() != "CTEDefinitionSegment"@.len());
    reveal_strlit("ColumnConstraintSegment");
    assert("OrReplaceGrammar"@.len() != "ColumnConstraintSegment"@.len());
    reveal_strlit("ColumnDefinitionSegment");
    assert("OrReplaceGrammar"@.len() != "ColumnDefinitionSegment"@.len());
    reveal_strlit("CommentClauseSegment");
    assert("OrReplaceGrammar"@.len() != "CommentClauseSegment"@.len());
    reveal_strlit("ExtensionReferenceSegment");
    assert("OrReplaceGrammar"@.len() != "ExtensionReferenceSegment"@.len());
    reveal_strlit("FrameClauseSegment");
    assert("OrReplaceGrammar"@.len() != "FrameClauseSegment"@.len());
    reveal_strlit("FunctionDefinitionGrammar");
    assert("OrReplaceGrammar"@.len() != "FunctionDefinitionGrammar"@.len());
    reveal_strlit("GroupByClauseSegment");
    assert("OrReplaceGrammar"@.len() != "GroupByClauseSegment"@.len());
    reveal_strlit("MergeDeleteClauseSegment");
    assert("OrReplaceGrammar"@.len() != "MergeDeleteClauseSegment"@.len());
    reveal_strlit("MergeInsertClauseSegment");
    assert("OrReplaceGrammar"@.len() != "MergeInsertClauseSegment"@.len());
    reveal_strlit("MergeMatchSegment");
    assert("OrReplaceGrammar"@.len() != "MergeMatchSegment"@.len());
    reveal_strlit("MergeMatchedClauseSegment");
    assert("OrReplaceGrammar"@.len() != "MergeMatchedClauseSegment"@.len());
    reveal_strlit("MergeNotMatchedClauseSegment");
    assert("OrReplaceGrammar"@.len() != "MergeNotMatchedClauseSegment"@.len());
    reveal_strlit("MergeUpdateClauseSegment");
    assert("OrReplaceGrammar"@.len() != "MergeUpdateClauseSegment"@.len());
    reveal_strlit("RoleReferenceSegment");
    assert("OrReplaceGrammar"@.len() != "RoleReferenceSegment"@.len());
    reveal_strlit("SchemaReferenceSegment");
    assert("OrReplaceGrammar"@.len() != "SchemaReferenceSegment"@.len());
    reveal_strlit("SetClauseListSegment");
    assert("OrReplaceGrammar"@.len() != "SetClauseListSegment"@.len());
    reveal_strlit("SingleIdentifierListSegment");
    assert("OrReplaceGrammar"@.len() != "SingleIdentifierListSegment"@.len());
    reveal_strlit("TableEndClauseSegment");
    assert("OrReplaceGrammar"@.len() != "TableEndClauseSegment"@.len());
    reveal_strlit("TablespaceReferenceSegment");
    assert("OrReplaceGrammar"@.len() != "TablespaceReferenceSegment"@.len());
    reveal_strlit("TagReferenceSegment");
    assert("OrReplaceGrammar"@.len() != "TagReferenceSegment"@.len());
    reveal_strlit("WithCompoundNonSelectStatementSegment");
    assert("OrReplaceGrammar"@.len() != "WithCompoundNonSelectStatementSegment"@.len());
    reveal_strlit("WithCompoundStatementSegment");
    assert("OrReplaceGrammar"@.len() != "WithCompoundStatementSegment"@.len());
}

proof fn lemma_part_6_keeps_or_replace_grammar(m: Map<Seq<char>, ElementView>)
    requires
        m.dom().contains("OrReplaceGrammar"@),
    ensures
        ansi_library_part_6(m).dom().contains("OrReplaceGrammar"@),
        ansi_library_part_6(m)["OrReplaceGrammar"@] == m["OrReplaceGrammar"@],
{
    reveal_strlit("OrReplaceGrammar");
    reveal_strlit("CollationReferenceSegment");
    assert("OrReplaceGrammar"@.len() != "CollationReferenceSegment"@.len());
    reveal_strlit("CreateSequenceOptionsSegment");
    assert("OrReplaceGrammar"@.len() != "CreateSequenceOptionsSegment"@.len());
    reveal_strlit("CreateSequenceStatementSegment");
    assert("OrReplaceGrammar"@.len() != "CreateSequenceStatementSegment"@.len());
    reveal_strlit("CreateTriggerStatementSegment");
    assert("OrReplaceGrammar"@.len() != "CreateTriggerStatementSegment"@.len());
    reveal_strlit("DatabaseReferenceSegment");
    assert("OrReplaceGrammar"@.len() != "DatabaseReferenceSegment"@.len());
    reveal_strlit("DescribeStatementSegment");
    assert("OrReplaceGrammar"@.len() != "DescribeStatementSegment"@.len());
    reveal_strlit("DropModelStatementSegment");
    assert("OrReplaceGrammar"@.len() != "DropModelStatementSegment"@.len());
    reveal_strlit("DropTriggerStatementSegment");
    assert("OrReplaceGrammar"@.len() != "DropTriggerStatementSegment"@.len());
    reveal_strlit("ExplainStatementSegment");
    assert("OrReplaceGrammar"@.len() != "ExplainStatementSegment"@.len());
    reveal_strlit("IndexReferenceSegment");
    assert("OrReplaceGrammar"@.len() != "IndexReferenceSegment"@.len());
    reveal_strlit("JoinClauseSegment");
    assert("OrReplaceGrammar"@.len() != "JoinClauseSegment"@.len());
    reveal_strlit("JoinOnConditionSegment");
    assert("OrReplaceGrammar"@.len() != "JoinOnConditionSegment"@.len());
    reveal_strlit("NamedWindowSegment");
    assert("OrReplaceGrammar"@.len() != "NamedWindowSegment"@.len());
    reveal_strlit("OverClauseSegment");
    assert("OrReplaceGrammar"@.len() != "OverClauseSegment"@.len());
    reveal_strlit("PartitionClauseSegment");
    assert("OrReplaceGrammar"@.len() != "PartitionClauseSegment"@.len());
    reveal_strlit("SamplingExpressionSegment");
    assert("OrReplaceGrammar"@.len() != "SamplingExpressionSegment"@.len());
    reveal_strlit("SequenceReferenceSegment");
    assert("OrReplaceGrammar"@.len() != "SequenceReferenceSegment"@.len());
    reveal_strlit("TableConstraintSegment");
    assert("OrReplaceGrammar"@.len() != "TableConstraintSegment"@.len());
    reveal_strlit("TableExpressionSegment");
    assert("OrReplaceGrammar"@.len() != "TableExpressionSegment"@.len());
    reveal_strlit("TriggerReferenceSegment");
    assert("OrReplaceGrammar"@.len() != "TriggerReferenceSegment"@.len());
    reveal_strlit("UseStatementSegment");
    assert("OrReplaceGrammar"@.len() != "UseStatementSegment"@.len());
    reveal_strlit("WindowSpecificationSegment");
    assert("OrReplaceGrammar"@.len() != "WindowSpecificationSegment"@.len());
}

proof fn lemma_part_7_keeps_or_replace_grammar(m: Map<Seq<char>, ElementView>)
    requires
        m.dom().contains("OrReplaceGrammar"@),
    ensures
        ansi_library_part_7(m).dom().contains("OrReplaceGrammar"@),
        ansi_library_part_7(m)["OrReplaceGrammar"@] == m["OrReplaceGrammar"@],
{
    reveal_strlit("OrReplaceGrammar");
    reveal_strlit("AccessStatementSegment");
    assert("OrReplaceGrammar"@.len() != "AccessStatementSegment"@.len());
    reveal_strlit("AlterSequenceStatementSegment");
    assert("OrReplaceGrammar"@.len() != "AlterSequenceStatementSegment"@.len());
    reveal_strlit("AlterTableStatementSegment");
    assert("OrReplaceGrammar"@.len() != "AlterTableStatementSegment"@.len());
    reveal_strlit("CreateCastStatementSegment");
    assert("OrReplaceGrammar"@.len() != "CreateCastStatementSegment"@.len());
    reveal_strlit("CreateDatabaseStatementSegment");
    assert("OrReplaceGrammar"@.len() != "CreateDatabaseStatementSegment"@.len());
    reveal_strlit("CreateFunctionStatementSegment");
    assert("OrReplaceGrammar"@.len() != "CreateFunctionStatementSegment"@.len());
    reveal_strlit("CreateIndexStatementSegment");
    assert("OrReplaceGrammar"@.len() != "CreateIndexStatementSegment"@.len());
    reveal_strlit("CreateModelStatementSegment");
    assert("OrReplaceGrammar"@.len() != "CreateModelStatementSegment"@.len());
    reveal_strlit("CreateRoleStatementSegment");
    assert("OrReplaceGrammar"@.len() != "CreateRoleStatementSegment"@.len());
    reveal_strlit("CreateTableStatementSegment");
    assert("OrReplaceGrammar"@.len() != "CreateTableStatementSegment"@.len());
    reveal_strlit("CreateViewStatementSegment");
    assert("OrReplaceGrammar"@.len() != "CreateViewStatementSegment"@.len());
    reveal_strlit("DeleteStatementSegment");
    assert("OrReplaceGrammar"@.len() != "DeleteStatementSegment"@.len());
    reveal_strlit("DropCastStatementSegment");
    assert("OrReplaceGrammar"@.len() != "DropCastStatementSegment"@.len());
    reveal_strlit("DropDatabaseStatementSegment");
    assert("OrReplaceGrammar"@.len() != "DropDatabaseStatementSegment"@.len());
    reveal_strlit("DropFunctionStatementSegment");
    assert("OrReplaceGrammar"@.len() != "DropFunctionStatementSegment"@.len());
    reveal_strlit("DropIndexStatementSegment");
    assert("OrReplaceGrammar"@.len() != "DropIndexStatementSegment"@.len());
    reveal_strlit("DropRoleStatementSegment");
    assert("OrReplaceGrammar"@.len() != "DropRoleStatementSegment"@.len());
    reveal_strlit("DropSchemaStatementSegment");
    assert("OrReplaceGrammar"@.len() != "DropSchemaStatementSegment"@.len());
    reveal_strlit("DropSequenceStatementSegment");
    assert("OrReplaceGrammar"@.len() != "DropSequenceStatementSegment"@.len());
    reveal_strlit("DropTypeStatementSegment");
    assert("OrReplaceGrammar"@.len() != "DropTypeStatementSegment"@.len());
    reveal_strlit("FunctionParameterListGrammar");
    assert("OrReplaceGrammar"@.len() != "FunctionParameterListGrammar"@.len());
    reveal_strlit("InsertStatementSegment");
    assert("OrReplaceGrammar"@.len() != "InsertStatementSegment"@.len());
    reveal_strlit("SetSchemaStatementSegment");
    assert("OrReplaceGrammar"@.len() != "SetSchemaStatementSegment"@.len());
    reveal_strlit("TransactionStatementSegment");
    assert("OrReplaceGrammar"@.len() != "TransactionStatementSegment"@.len());
    reveal_strlit("UpdateStatementSegment");
    assert("OrReplaceGrammar"@.len() != "UpdateStatementSegment"@.len());
}

proof fn lemma_part_8_keeps_or_replace_grammar(m: Map<Seq<char>, ElementView>)
    requires
        m.dom().contains("OrReplaceGrammar"@),
    ensures
        ansi_library_part_8(m).dom().contains("OrReplaceGrammar"@),
        ansi_library_part_8(m)["OrReplaceGrammar"@] == m["OrReplaceGrammar"@],
{
    reveal_strlit("OrReplaceGrammar");
    reveal_strlit("AggregateOrderByClause");
    assert("OrReplaceGrammar"@.len() != "AggregateOrderByClause"@.len());
    reveal_strlit("ArrayExpressionSegment");
    assert("OrReplaceGrammar"@.len() != "ArrayExpressionSegment"@.len());
    reveal_strlit("BitwiseAndSegment");
    assert("OrReplaceGrammar"@.len() != "BitwiseAndSegment"@.len());
    reveal_strlit("BitwiseLShiftSegment");
    assert("OrReplaceGrammar"@.len() != "BitwiseLShiftSegment"@.len());
    reveal_strlit("BitwiseOrSegment");
    assert("OrReplaceGrammar"@[0] != "BitwiseOrSegment"@[0]);
    reveal_strlit("BitwiseRShiftSegment");
    assert("OrReplaceGrammar"@.len() != "BitwiseRShiftSegment"@.len());
    reveal_strlit("ConcatSegment");
    assert("OrReplaceGrammar"@.len() != "ConcatSegment"@.len());
    reveal_strlit("CreateUserStatementSegment");
    assert("OrReplaceGrammar"@.len() != "CreateUserStatementSegment"@.len());
    reveal_strlit("DropTableStatementSegment");
    assert("OrReplaceGrammar"@.len() != "DropTableStatementSegment"@.len());
    reveal_strlit("DropUserStatementSegment");
    assert("OrReplaceGrammar"@.len() != "DropUserStatementSegment"@.len());
    reveal_strlit("DropViewStatementSegment");
    assert("OrReplaceGrammar"@.len() != "DropViewStatementSegment"@.len());
    reveal_strlit("ElseClauseSegment");
    assert("OrReplaceGrammar"@.len() != "ElseClauseSegment"@.len());
    reveal_strlit("EqualsSegment");
    assert("OrReplaceGrammar"@.len() != "EqualsSegment"@.len());
    reveal_strlit("FunctionNameSegment");
    assert("OrReplaceGrammar"@.len() != "FunctionNameSegment"@.len());
    reveal_strlit("GreaterThanOrEqualToSegment");
    assert("OrReplaceGrammar"@.len() != "GreaterThanOrEqualToSegment"@.len());
    reveal_strlit("GreaterThanSegment");
    assert("OrReplaceGrammar"@.len() != "GreaterThanSegment"@.len());
    reveal_strlit("IndexColumnDefinitionSegment");
    assert("OrReplaceGrammar"@.len() != "IndexColumnDefinitionSegment"@.len());
    reveal_strlit("LessThanOrEqualToSegment");
    assert("OrReplaceGrammar"@.len() != "LessThanOrEqualToSegment"@.len());
    reveal_strlit("LessThanSegment");
    assert("OrReplaceGrammar"@.len() != "LessThanSegment"@.len());
    reveal_strlit("LocalAliasSegment");
    assert("OrReplaceGrammar"@.len() != "LocalAliasSegment"@.len());
    reveal_strlit("MergeStatementSegment");
    assert("OrReplaceGrammar"@.len() != "MergeStatementSegment"@.len());
    reveal_strlit("NotEqualToSegment");
    assert("OrReplaceGrammar"@.len() != "NotEqualToSegment"@.len());
    reveal_strlit("QualifiedNumericLiteralSegment");
    assert("OrReplaceGrammar"@.len() != "QualifiedNumericLiteralSegment"@.len());
    reveal_strlit("WhenClauseSegment");
    assert("OrReplaceGrammar"@.len() != "WhenClauseSegment"@.len());
    reveal_strlit("WhereClauseSegment");
    assert("OrReplaceGrammar"@.len() != "WhereClauseSegment"@.len());
}

proof fn lemma_part_9_keeps_or_replace_grammar(m: Map<Seq<char>, ElementView>)
    requires
        m.dom().contains("OrReplaceGrammar"@),
    ensures
        ansi_library_part_9(m).dom().contains("OrReplaceGrammar"@),
        ansi_library_part_9(m)["OrReplaceGrammar"@] == m["OrReplaceGrammar"@],
{
    reveal_strlit("OrReplaceGrammar");
    reveal_strlit("AliasExpressionSegment");
    assert("OrReplaceGrammar"@.len() != "AliasExpressionSegment"@.len());
    reveal_strlit("ArrayAccessorSegment");
    assert("OrReplaceGrammar"@.len() != "ArrayAccessorSegment"@.len());
    reveal_strlit("ArrayLiteralSegment");
    assert("OrReplaceGrammar"@.len() != "ArrayLiteralSegment"@.len());
    reveal_strlit("ArrayTypeSegment");
    assert("OrReplaceGrammar"@[0] != "ArrayTypeSegment"@[0]);
    reveal_strlit("BracketedArguments");
    assert("OrReplaceGrammar"@.len() != "BracketedArguments"@.len());
    reveal_strlit("DatatypeSegment");
    assert("OrReplaceGrammar"@.len() != "DatatypeSegment"@.len());
    reveal_strlit("EmptyStructLiteralSegment");
    assert("OrReplaceGrammar"@.len() != "EmptyStructLiteralSegment"@.len());
    reveal_strlit("IntervalExpressionSegment");
    assert("OrReplaceGrammar"@.len() != "IntervalExpressionSegment"@.len());
    reveal_strlit("ObjectLiteralElementSegment");
    assert("OrReplaceGrammar"@.len() != "ObjectLiteralElementSegment"@.len());
    reveal_strlit("ObjectLiteralSegment");
    assert("OrReplaceGrammar"@.len() != "ObjectLiteralSegment"@.len());
    reveal_strlit("OverlapsClauseSegment");
    assert("OrReplaceGrammar"@.len() != "OverlapsClauseSegment"@.len());
    reveal_strlit("SelectClauseSegment");
    assert("OrReplaceGrammar"@.len() != "SelectClauseSegment"@.len());
    reveal_strlit("SetOperatorSegment");
    assert("OrReplaceGrammar"@.len() != "SetOperatorSegment"@.len());
    reveal_strlit("ShorthandCastSegment");
    assert("OrReplaceGrammar"@.len() != "ShorthandCastSegment"@.len());
    reveal_strlit("SizedArrayTypeSegment");
    assert("OrReplaceGrammar"@.len() != "SizedArrayTypeSegment"@.len());
    reveal_strlit("StatementSegment");
    assert("OrReplaceGrammar"@[0] != "StatementSegment"@[0]);
    reveal_strlit("StructLiteralSegment");
    assert("OrReplaceGrammar"@.len() != "StructLiteralSegment"@.len());
    reveal_strlit("StructTypeSegment");
    assert("OrReplaceGrammar"@.len() != "StructTypeSegment"@.len());
    reveal_strlit("TimeZoneGrammar");
    assert("OrReplaceGrammar"@.len() != "TimeZoneGrammar"@.len());
    reveal_strlit("TypedArrayLiteralSegment");
    assert("OrReplaceGrammar"@.len() != "TypedArrayLiteralSegment"@.len());
    reveal_strlit("TypedStructLiteralSegment");
    assert("OrReplaceGrammar"@.len() != "TypedStructLiteralSegment"@.len());
    reveal_strlit("UnorderedSelectStatementSegment");
    assert("OrReplaceGrammar"@.len() != "UnorderedSelectStatementSegment"@.len());
    reveal_strlit("ValuesClauseSegment");
    assert("OrReplaceGrammar"@.len() != "ValuesClauseSegment"@.len());
    reveal_strlit("WithDataClauseSegment");
    assert("OrReplaceGrammar"@.len() != "WithDataClauseSegment"@.len());
    reveal_strlit("WithNoSchemaBindingClauseSegment");
    assert("OrReplaceGrammar"@.len() != "WithNoSchemaBindingClauseSegment"@.len());
}

proof fn lemma_part_10_keeps_or_replace_grammar(m: Map<Seq<char>, ElementView>)
    requires
        m.dom().contains("OrReplaceGrammar"@),
    ensures
        ansi_library_part_10(m).dom().contains("OrReplaceGrammar"@),
        ansi_library_part_10(m)["OrReplaceGrammar"@] == m["OrReplaceGrammar"@],
{
    reveal_strlit("OrReplaceGrammar");
    reveal_strlit("AccessStatementSegmentGrantRoleWithOptionGrammar");
    assert("OrReplaceGrammar"@.len() != "AccessStatementSegmentGrantRoleWithOptionGrammar"@.len());
    reveal_strlit("AliasedTableReferenceGrammar");
    assert("OrReplaceGrammar"@.len() != "AliasedTableReferenceGrammar"@.len());
    reveal_strlit("CharCharacterSetGrammar");
    assert("OrReplaceGrammar"@.len() != "CharCharacterSetGrammar"@.len());
    reveal_strlit("CreateSchemaStatementSegment");
    assert("OrReplaceGrammar"@.len() != "CreateSchemaStatementSegment"@.len());
    reveal_strlit("DatePartFunctionNameSegment");
    assert("OrReplaceGrammar"@.len() != "DatePartFunctionNameSegment"@.len());
    reveal_strlit("EmptyStructLiteralBracketsSegment");
    assert("OrReplaceGrammar"@.len() != "EmptyStructLiteralBracketsSegment"@.len());
    reveal_strlit("Expression_A_Grammar");
    assert("OrReplaceGrammar"@.len() != "Expression_A_Grammar"@.len());
    reveal_strlit("Expression_A_Unary_Operator_Grammar");
    assert("OrReplaceGrammar"@.len() != "Expression_A_Unary_Operator_Grammar"@.len());
    reveal_strlit("Expression_B_Unary_Operator_Grammar");
    assert("OrReplaceGrammar"@.len() != "Expression_B_Unary_Operator_Grammar"@.len());
    reveal_strlit("FromClauseSegment");
    assert("OrReplaceGrammar"@.len() != "FromClauseSegment"@.len());
    reveal_strlit("FromExpressionSegment");
    assert("OrReplaceGrammar"@.len() != "FromExpressionSegment"@.len());
    reveal_strlit("FunctionContentsExpressionGrammar");
    assert("OrReplaceGrammar"@.len() != "FunctionContentsExpressionGrammar"@.len());
    reveal_strlit("FunctionContentsGrammar");
    assert("OrReplaceGrammar"@.len() != "FunctionContentsGrammar"@.len());
    reveal_strlit("FunctionContentsSegment");
    assert("OrReplaceGrammar"@.len() != "FunctionContentsSegment"@.len());
    reveal_strlit("JoinLikeClauseGrammar");
    assert("OrReplaceGrammar"@.len() != "JoinLikeClauseGrammar"@.len());
    reveal_strlit("OrderByClauseSegment");
    assert("OrReplaceGrammar"@.len() != "OrderByClauseSegment"@.len());
    reveal_strlit("PostFunctionGrammar");
    assert("OrReplaceGrammar"@.len() != "PostFunctionGrammar"@.len());
    reveal_strlit("SelectClauseElementSegment");
    assert("OrReplaceGrammar"@.len() != "SelectClauseElementSegment"@.len());
    reveal_strlit("SelectClauseModifierSegment");
    assert("OrReplaceGrammar"@.len() != "SelectClauseModifierSegment"@.len());
    reveal_strlit("SelectStatementSegment");
    assert("OrReplaceGrammar"@.len() != "SelectStatementSegment"@.len());
    reveal_strlit("SetExpressionSegment");
    assert("OrReplaceGrammar"@.len() != "SetExpressionSegment"@.len());
    reveal_strlit("Tail_Recurse_Expression_A_Grammar");
    assert("OrReplaceGrammar"@.len() != "Tail_Recurse_Expression_A_Grammar"@.len());
    reveal_strlit("Tail_Recurse_Expression_B_Grammar");
    assert("OrReplaceGrammar"@.len() != "Tail_Recurse_Expression_B_Grammar"@.len());
    reveal_strlit("TruncateStatementSegment");
    assert("OrReplaceGrammar"@.len() != "TruncateStatementSegment"@.len());
    reveal_strlit("WildcardExpressionSegment");
    assert("OrReplaceGrammar"@.len() != "WildcardExpressionSegment"@.len());
}

proof fn lemma_part_11_keeps_or_replace_grammar(m: Map<Seq<char>, ElementView>)
    requires
        m.dom().contains("OrReplaceGrammar"@),
    ensures
        ansi_library_part_11(m).dom().contains("OrReplaceGrammar"@),
        ansi_library_part_11(m)["OrReplaceGrammar"@] == m["OrReplaceGrammar"@],
{
    reveal_strlit("OrReplaceGrammar");
    reveal_strlit("AccessorGrammar");
    assert("OrReplaceGrammar"@.len() != "AccessorGrammar"@.len());
    reveal_strlit("Expression_B_Grammar");
    assert("OrReplaceGrammar"@.len() != "Expression_B_Grammar"@.len());
    reveal_strlit("Expression_C_Grammar");
    assert("OrReplaceGrammar"@.len() != "Expression_C_Grammar"@.len());
    reveal_strlit("Expression_D_Grammar");
    assert("OrReplaceGrammar"@.len() != "Expression_D_Grammar"@.len());
    reveal_strlit("NonSetSelectableGrammar");
    assert("OrReplaceGrammar"@.len() != "NonSetSelectableGrammar"@.len());
    reveal_strlit("NonWithNonSelectableGrammar");
    assert("OrReplaceGrammar"@.len() != "NonWithNonSelectableGrammar"@.len());
    reveal_strlit("NonWithSelectableGrammar");
    assert("OrReplaceGrammar"@.len() != "NonWithSelectableGrammar"@.len());
    reveal_strlit("PostTableExpressionGrammar");
    assert("OrReplaceGrammar"@.len() != "PostTableExpressionGrammar"@.len());
    reveal_strlit("SelectableGrammar");
    assert("OrReplaceGrammar"@.len() != "SelectableGrammar"@.len());
    reveal_strlit("TimeWithTZGrammar");
    assert("OrReplaceGrammar"@.len() != "TimeWithTZGrammar"@.len());
}

/// The ANSI library holds `OrReplaceGrammar`: the value of its last entry of that name.
pub proof fn lemma_ansi_library_or_replace_grammar(lib: Map<Seq<char>, ElementView>)
    ensures
        ansi_library(lib).dom().contains("OrReplaceGrammar"@),
        ansi_library(lib)["OrReplaceGrammar"@] == or_replace_grammar_element(),
{
    reveal(ansi_library);
    let m0 = lib;
    let m1 = ansi_library_part_0(m0);
    let m2 = ansi_library_part_1(m1);
    let m3 = ansi_library_part_2(m2);
    let m4 = ansi_library_part_3(m3);
    let m5 = ansi_library_part_4(m4);
    let m6 = ansi_library_part_5(m5);
    let m7 = ansi_library_part_6(m6);
    let m8 = ansi_library_part_7(m7);
    let m9 = ansi_library_part_8(m8);
    let m10 = ansi_library_part_9(m9);
    let m11 = ansi_library_part_10(m10);
    let m12 = ansi_library_part_11(m11);
    lemma_part_2_sets_or_replace_grammar(m2);
    lemma_part_3_keeps_or_replace_grammar(m3);
    lemma_part_4_keeps_or_replace_grammar(m4);
    lemma_part_5_keeps_or_replace_grammar(m5);
    lemma_part_6_keeps_or_replace_grammar(m6);
    lemma_part_7_keeps_or_replace_grammar(m7);
    lemma_part_8_keeps_or_replace_grammar(m8);
    lemma_part_9_keeps_or_replace_grammar(m9);
    lemma_part_10_keeps_or_replace_grammar(m10);
    lemma_part_11_keeps_or_replace_grammar(m11);
}

/// In the ANSI dialect `JoinKeywordsGrammar` is the keyword `JOIN` alone.
/// The same holds of the ANSI library added to any library.
pub proof fn law_ansi_join_keywords(unreserved: Seq<char>, reserved: Seq<char>, lib: Map<Seq<char>, ElementView>)
    ensures
        ({
            let e = ElementView::Grammar(GrammarView::sequence(seq![GrammarView::keyword("JOIN"@)]));
            &&& ansi_raw_dialect_view(unreserved, reserved).element("JoinKeywordsGrammar"@) == Some(e)
            &&& ansi_library(lib).dom().contains("JoinKeywordsGrammar"@)
            &&& ansi_library(lib)["JoinKeywordsGrammar"@] == e
        }),
{
    lemma_ansi_library_join_keywords_grammar(lib);
    lemma_ansi_library_join_keywords_grammar(Map::empty());
}

/// In the ANSI dialect `UnionGrammar` is `UNION` followed by an optional
/// `DISTINCT` or `ALL`.
/// The same holds of the ANSI library added to any library.
pub proof fn law_ansi_union(unreserved: Seq<char>, reserved: Seq<char>, lib: Map<Seq<char>, ElementView>)
    ensures
        ({
            let e = ElementView::Grammar(GrammarView::sequence(seq![GrammarView::keyword("UNION"@), (GrammarView::Optional { grammar: Box::new(GrammarView::one_of(seq![GrammarView::keyword("DISTINCT"@), GrammarView::keyword("ALL"@)])) })]));
            &&& ansi_raw_dialect_view(unreserved, reserved).element("UnionGrammar"@) == Some(e)
            &&& ansi_library(lib).dom().contains("UnionGrammar"@)
            &&& ansi_library(lib)["UnionGrammar"@] == e
        }),
{
    lemma_ansi_library_union_grammar(lib);
    lemma_ansi_library_union_grammar(Map::empty());
}

/// In the ANSI dialect `SetOperatorSegment` is a `set_operator` node: a
/// `UnionGrammar`, `INTERSECT` or `EXCEPT` followed by an optional `ALL`, or
/// `MINUS`.
/// The same holds of the ANSI library added to any library.
pub proof fn law_ansi_set_operator(unreserved: Seq<char>, reserved: Seq<char>, lib: Map<Seq<char>, ElementView>)
    ensures
        ({
            let e = (ElementView::Node { kind: "set_operator"@, grammar: GrammarView::one_of(seq![GrammarView::reference("UnionGrammar"@), GrammarView::sequence(seq![GrammarView::one_of(seq![GrammarView::keyword("INTERSECT"@), GrammarView::keyword("EXCEPT"@)]), (GrammarView::Optional { grammar: Box::new(GrammarView::keyword("ALL"@)) })]), GrammarView::keyword("MINUS"@)]) });
            &&& ansi_raw_dialect_view(unreserved, reserved).element("SetOperatorSegment"@) == Some(e)
            &&& ansi_library(lib).dom().contains("SetOperatorSegment"@)
            &&& ansi_library(lib)["SetOperatorSegment"@] == e
        }),
{
    lemma_ansi_library_set_operator_segment(lib);
    lemma_ansi_library_set_operator_segment(Map::empty());
}

/// In the ANSI dialect `WhereClauseSegment` is a `where_clause` node: `WHERE`,
/// an implicit indent, an `ExpressionSegment` in round brackets or a bare one,
/// then a dedent.
/// The same holds of the ANSI library added to any library.
pub proof fn law_ansi_where_clause(unreserved: Seq<char>, reserved: Seq<char>, lib: Map<Seq<char>, ElementView>)
    ensures
        ({
            let e = (ElementView::Node { kind: "where_clause"@, grammar: GrammarView::sequence(seq![GrammarView::keyword("WHERE"@), GrammarView::ImplicitIndent, GrammarView::one_of(seq![(GrammarView::Bracketed { elements: seq![GrammarView::reference("ExpressionSegment"@)], bracket_type: "round"@ }), GrammarView::reference("ExpressionSegment"@)]), GrammarView::Dedent]) });
            &&& ansi_raw_dialect_view(unreserved, reserved).element("WhereClauseSegment"@) == Some(e)
            &&& ansi_library(lib).dom().contains("WhereClauseSegment"@)
            &&& ansi_library(lib)["WhereClauseSegment"@] == e
        }),
{
    lemma_ansi_library_where_clause_segment(lib);
    lemma_ansi_library_where_clause_segment(Map::empty());
}

/// In the ANSI dialect `FromClauseSegment` is a `from_clause` node: `FROM`
/// and a comma-separated list of `FromExpressionSegment`s.
/// The same holds of the ANSI library added to any library.
pub proof fn law_ansi_from_clause(unreserved: Seq<char>, reserved: Seq<char>, lib: Map<Seq<char>, ElementView>)
    ensures
        ({
            let e = (ElementView::Node { kind: "from_clause"@, grammar: GrammarView::sequence(seq![GrammarView::keyword("FROM"@), GrammarView::delimited(seq![GrammarView::reference("FromExpressionSegment"@)])]) });
            &&& ansi_raw_dialect_view(unreserved, reserved).element("FromClauseSegment"@) == Some(e)
            &&& ansi_library(lib).dom().contains("FromClauseSegment"@)
            &&& ansi_library(lib)["FromClauseSegment"@] == e
        }),
{
    lemma_ansi_library_from_clause_segment(lib);
    lemma_ansi_library_from_clause_segment(Map::empty());
}

/// In the ANSI dialect `HavingClauseSegment` is a `having_clause` node:
/// `HAVING`, an implicit indent, an `ExpressionSegment` in round brackets or a
/// bare one, then a dedent.
/// The same holds of the ANSI library added to any library.
pub proof fn law_ansi_having_clause(unreserved: Seq<char>, reserved: Seq<char>, lib: Map<Seq<char>, ElementView>)
    ensures
        ({
            let e = (ElementView::Node { kind: "having_clause"@, grammar: GrammarView::sequence(seq![GrammarView::keyword("HAVING"@), GrammarView::ImplicitIndent, GrammarView::one_of(seq![(GrammarView::Bracketed { elements: seq![GrammarView::reference("ExpressionSegment"@)], bracket_type: "round"@ }), GrammarView::reference("ExpressionSegment"@)]), GrammarView::Dedent]) });
            &&& ansi_raw_dialect_view(unreserved, reserved).element("HavingClauseSegment"@) == Some(e)
            &&& ansi_library(lib).dom().contains("HavingClauseSegment"@)
            &&& ansi_library(lib)["HavingClauseSegment"@] == e
        }),
{
    lemma_ansi_library_having_clause_segment(lib);
    lemma_ansi_library_having_clause_segment(Map::empty());
}

/// In the ANSI dialect `IfExistsGrammar` is `IF EXISTS`.
/// The same holds of the ANSI library added to any library.
pub proof fn law_ansi_if_exists(unreserved: Seq<char>, reserved: Seq<char>, lib: Map<Seq<char>, ElementView>)
    ensures
        ({
            let e = ElementView::Grammar(GrammarView::sequence(seq![GrammarView::keyword("IF"@), GrammarView::keyword("EXISTS"@)]));
            &&& ansi_raw_dialect_view(unreserved, reserved).element("IfExistsGrammar"@) == Some(e)
            &&& ansi_library(lib).dom().contains("IfExistsGrammar"@)
            &&& ansi_library(lib)["IfExistsGrammar"@] == e
        }),
{
    lemma_ansi_library_if_exists_grammar(lib);
    lemma_ansi_library_if_exists_grammar(Map::empty());
}

/// In the ANSI dialect `IfNotExistsGrammar` is `IF NOT EXISTS`.
/// The same holds of the ANSI library added to any library.
pub proof fn law_ansi_if_not_exists(unreserved: Seq<char>, reserved: Seq<char>, lib: Map<Seq<char>, ElementView>)
    ensures
        ({
            let e = ElementView::Grammar(GrammarView::sequence(seq![GrammarView::keyword("IF"@), GrammarView::keyword("NOT"@), GrammarView::keyword("EXISTS"@)]));
            &&& ansi_raw_dialect_view(unreserved, reserved).element("IfNotExistsGrammar"@) == Some(e)
            &&& ansi_library(lib).dom().contains("IfNotExistsGrammar"@)
            &&& ansi_library(lib)["IfNotExistsGrammar"@] == e
        }),
{
    lemma_ansi_library_if_not_exists_grammar(lib);
    lemma_ansi_library_if_not_exists_grammar(Map::empty());
}

/// In the ANSI dialect `OrReplaceGrammar` is `OR REPLACE`.
/// The same holds of the ANSI library added to any library.
pub proof fn law_ansi_or_replace(unreserved: Seq<char>, reserved: Seq<char>, lib: Map<Seq<char>, ElementView>)
    ensures
        ({
            let e = ElementView::Grammar(GrammarView::sequence(seq![GrammarView::keyword("OR"@), GrammarView::keyword("REPLACE"@)]));
            &&& ansi_raw_dialect_view(unreserved, reserved).element("OrReplaceGrammar"@) == Some(e)
            &&& ansi_library(lib).dom().contains("OrReplaceGrammar"@)
            &&& ansi_library(lib)["OrReplaceGrammar"@] == e
        }),
{
    lemma_ansi_library_or_replace_grammar(lib);
    lemma_ansi_library_or_replace_grammar(Map::empty());
}

proof fn lemma_part_7_sets_delete_statement_segment(m: Map<Seq<char>, ElementView>)
    ensures
        ansi_library_part_7(m).dom().contains("DeleteStatementSegment"@),
        ansi_library_part_7(m)["DeleteStatementSegment"@] == delete_statement_segment_element(),
{
    reveal_strlit("DeleteStatementSegment");
    reveal_strlit("AccessStatementSegment");
    assert("DeleteStatementSegment"@[0] != "AccessStatementSegment"@[0]);
    reveal_strlit("AlterTableStatementSegment");
    assert("DeleteStatementSegment"@.len() != "AlterTableStatementSegment"@.len());
    reveal_strlit("CreateCastStatementSegment");
    assert("DeleteStatementSegment"@.len() != "CreateCastStatementSegment"@.len());
    reveal_strlit("CreateDatabaseStatementSegment");
    assert("DeleteStatementSegment"@.len() != "CreateDatabaseStatementSegment"@.len());
    reveal_strlit("CreateIndexStatementSegment");
    assert("DeleteStatementSegment"@.len() != "CreateIndexStatementSegment"@.len());
    reveal_strlit("CreateRoleStatementSegment");
    assert("DeleteStatementSegment"@.len() != "CreateRoleStatementSegment"@.len());
    reveal_strlit("CreateTableStatementSegment");
    assert("DeleteStatementSegment"@.len() != "CreateTableStatementSegment"@.len());
    reveal_strlit("DropDatabaseStatementSegment");
    assert("DeleteStatementSegment"@.len() != "DropDatabaseStatementSegment"@.len());
    reveal_strlit("DropIndexStatementSegment");
    assert("DeleteStatementSegment"@.len() != "DropIndexStatementSegment"@.len());
    reveal_strlit("DropRoleStatementSegment");
    assert("DeleteStatementSegment"@.len() != "DropRoleStatementSegment"@.len());
    reveal_strlit("DropSchemaStatementSegment");
    assert("DeleteStatementSegment"@.len() != "DropSchemaStatementSegment"@.len());
    reveal_strlit("DropTypeStatementSegment");
    assert("DeleteStatementSegment"@.len() != "DropTypeStatementSegment"@.len());
    reveal_strlit("FunctionParameterListGrammar");
    assert("DeleteStatementSegment"@.len() != "FunctionParameterListGrammar"@.len());
    reveal_strlit("InsertStatementSegment");
    assert("DeleteStatementSegment"@[0] != "InsertStatementSegment"@[0]);
    reveal_strlit("SetSchemaStatementSegment");
    assert("DeleteStatementSegment"@.len() != "SetSchemaStatementSegment"@.len());
    reveal_strlit("TransactionStatementSegment");
    assert("DeleteStatementSegment"@.len() != "TransactionStatementSegment"@.len());
    reveal_strlit("UpdateStatementSegment");
    assert("DeleteStatementSegment"@[0] != "UpdateStatementSegment"@[0]);
}

proof fn lemma_part_8_keeps_delete_statement_segment(m: Map<Seq<char>, ElementView>)
    requires
        m.dom().contains("DeleteStatementSegment"@),
    ensures
        ansi_library_part_8(m).dom().contains("DeleteStatementSegment"@),
        ansi_library_part_8(m)["DeleteStatementSegment"@] == m["DeleteStatementSegment"@],
{
    reveal_strlit("DeleteStatementSegment");
    reveal_strlit("AggregateOrderByClause");
    assert("DeleteStatementSegment"@[0] != "AggregateOrderByClause"@[0]);
    reveal_strlit("ArrayExpressionSegment");
    assert("DeleteStatementSegment"@[0] != "ArrayExpressionSegment"@[0]);
    reveal_strlit("BitwiseAndSegment");
    assert("DeleteStatementSegment"@.len() != "BitwiseAndSegment"@.len());
    reveal_strlit("BitwiseLShiftSegment");
    assert("DeleteStatementSegment"@.len() != "BitwiseLShiftSegment"@.len());
    reveal_strlit("BitwiseOrSegment");
    assert("DeleteStatementSegment"@.len() != "BitwiseOrSegment"@.len());
    reveal_strlit("BitwiseRShiftSegment");
    assert("DeleteStatementSegment"@.len() != "BitwiseRShiftSegment"@.len());
    reveal_strlit("ConcatSegment");
    assert("DeleteStatementSegment"@.len() != "ConcatSegment"@.len());
    reveal_strlit("CreateUserStatementSegment");
    assert("DeleteStatementSegment"@.len() != "CreateUserStatementSegment"@.len());
    reveal_strlit("DropTableStatementSegment");
    assert("DeleteStatementSegment"@.len() != "DropTableStatementSegment"@.len());
    reveal_strlit("DropUserStatementSegment");
    assert("DeleteStatementSegment"@.len() != "DropUserStatementSegment"@.len());
    reveal_strlit("DropViewStatementSegment");
    assert("DeleteStatementSegment"@.len() != "DropViewStatementSegment"@.len());
    reveal_strlit("ElseClauseSegment");
    assert("DeleteStatementSegment"@.len() != "ElseClauseSegment"@.len());
    reveal_strlit("EqualsSegment");
    assert("DeleteStatementSegment"@.len() != "EqualsSegment"@.len());
    reveal_strlit("FunctionNameSegment");
    assert("DeleteStatementSegment"@.len() != "FunctionNameSegment"@.len());
    reveal_strlit("GreaterThanOrEqualToSegment");
    assert("DeleteStatementSegment"@.len() != "GreaterThanOrEqualToSegment"@.len());
    reveal_strlit("GreaterThanSegment");
    assert("DeleteStatementSegment"@.len() != "GreaterThanSegment"@.len());
    reveal_strlit("IndexColumnDefinitionSegment");
    assert("DeleteStatementSegment"@.len() != "IndexColumnDefinitionSegment"@.len());
    reveal_strlit("LessThanOrEqualToSegment");
    assert("DeleteStatementSegment"@.len() != "LessThanOrEqualToSegment"@.len());
    reveal_strlit("LessThanSegment");
    assert("DeleteStatementSegment"@.len() != "LessThanSegment"@.len());
    reveal_strlit("LocalAliasSegment");
    assert("DeleteStatementSegment"@.len() != "LocalAliasSegment"@.len());
    reveal_strlit("MergeStatementSegment");
    assert("DeleteStatementSegment"@.len() != "MergeStatementSegment"@.len());
    reveal_strlit("NotEqualToSegment");
    assert("DeleteStatementSegment"@.len() != "NotEqualToSegment"@.len());
    reveal_strlit("QualifiedNumericLiteralSegment");
    assert("DeleteStatementSegment"@.len() != "QualifiedNumericLiteralSegment"@.len());
    reveal_strlit("WhenClauseSegment");
    assert("DeleteStatementSegment"@.len() != "WhenClauseSegment"@.len());
    reveal_strlit("WhereClauseSegment");
    assert("DeleteStatementSegment"@.len() != "WhereClauseSegment"@.len());
}

proof fn lemma_part_9_keeps_delete_statement_segment(m: Map<Seq<char>, ElementView>)
    requires
        m.dom().contains("DeleteStatementSegment"@),
    ensures
        ansi_library_part_9(m).dom().contains("DeleteStatementSegment"@),
        ansi_library_part_9(m)["DeleteStatementSegment"@] == m["DeleteStatementSegment"@],
{
    reveal_strlit("DeleteStatementSegment");
    reveal_strlit("AliasExpressionSegment");
    assert("DeleteStatementSegment"@[0] != "AliasExpressionSegment"@[0]);
    reveal_strlit("ArrayAccessorSegment");
    assert("DeleteStatementSegment"@.len() != "ArrayAccessorSegment"@.len());
    reveal_strlit("ArrayLiteralSegment");
    assert("DeleteStatementSegment"@.len() != "ArrayLiteralSegment"@.len());
    reveal_strlit("ArrayTypeSegment");
    assert("DeleteStatementSegment"@.len() != "ArrayTypeSegment"@.len());
    reveal_strlit("BracketedArguments");
    assert("DeleteStatementSegment"@.len() != "BracketedArguments"@.len());
    reveal_strlit("DatatypeSegment");
    assert("DeleteStatementSegment"@.len() != "DatatypeSegment"@.len());
    reveal_strlit("EmptyStructLiteralSegment");
    assert("DeleteStatementSegment"@.len() != "EmptyStructLiteralSegment"@.len());
    reveal_strlit("IntervalExpressionSegment");
    assert("DeleteStatementSegment"@.len() != "IntervalExpressionSegment"@.len());
    reveal_strlit("ObjectLiteralElementSegment");
    assert("DeleteStatementSegment"@.len() != "ObjectLiteralElementSegment"@.len());
    reveal_strlit("ObjectLiteralSegment");
    assert("DeleteStatementSegment"@.len() != "ObjectLiteralSegment"@.len());
    reveal_strlit("OverlapsClauseSegment");
    assert("DeleteStatementSegment"@.len() != "OverlapsClauseSegment"@.len());
    reveal_strlit("SelectClauseSegment");
    assert("DeleteStatementSegment"@.len() != "SelectClauseSegment"@.len());
    reveal_strlit("SetOperatorSegment");
    assert("DeleteStatementSegment"@.len() != "SetOperatorSegment"@.len());
    reveal_strlit("ShorthandCastSegment");
    assert("DeleteStatementSegment"@.len() != "ShorthandCastSegment"@.len());
    reveal_strlit("SizedArrayTypeSegment");
    assert("DeleteStatementSegment"@.len() != "SizedArrayTypeSegment"@.len());
    reveal_strlit("StatementSegment");
    assert("DeleteStatementSegment"@.len() != "StatementSegment"@.len());
    reveal_strlit("StructLiteralSegment");
    assert("DeleteStatementSegment"@.len() != "StructLiteralSegment"@.len());
    reveal_strlit("StructTypeSegment");
    assert("DeleteStatementSegment"@.len() != "StructTypeSegment"@.len());
    reveal_strlit("TimeZoneGrammar");
    assert("DeleteStatementSegment"@.len() != "TimeZoneGrammar"@.len());
    reveal_strlit("TypedArrayLiteralSegment");
    assert("DeleteStatementSegment"@.len() != "TypedArrayLiteralSegment"@.len());
    reveal_strlit("TypedStructLiteralSegment");
    assert("DeleteStatementSegment"@.len() != "TypedStructLiteralSegment"@.len());
    reveal_strlit("UnorderedSelectStatementSegment");
    assert("DeleteStatementSegment"@.len() != "UnorderedSelectStatementSegment"@.len());
    reveal_strlit("ValuesClauseSegment");
    assert("DeleteStatementSegment"@.len() != "ValuesClauseSegment"@.len());
    reveal_strlit("WithDataClauseSegment");
    assert("DeleteStatementSegment"@.len() != "WithDataClauseSegment"@.len());
    reveal_strlit("WithNoSchemaBindingClauseSegment");
    assert("DeleteStatementSegment"@.len() != "WithNoSchemaBindingClauseSegment"@.len());
}

proof fn lemma_part_10_keeps_delete_statement_segment(m: Map<Seq<char>, ElementView>)
    requires
        m.dom().contains("DeleteStatementSegment"@),
    ensures
        ansi_library_part_10(m).dom().contains("DeleteStatementSegment"@),
        ansi_library_part_10(m)["DeleteStatementSegment"@] == m["DeleteStatementSegment"@],
{
    reveal_strlit("DeleteStatementSegment");
    reveal_strlit("AccessStatementSegmentGrantRoleWithOptionGrammar");
    assert("DeleteStatementSegment"@.len() != "AccessStatementSegmentGrantRoleWithOptionGrammar"@.len());
    reveal_strlit("AliasedTableReferenceGrammar");
    assert("DeleteStatementSegment"@.len() != "AliasedTableReferenceGrammar"@.len());
    reveal_strlit("CharCharacterSetGrammar");
    assert("DeleteStatementSegment"@.len() != "CharCharacterSetGrammar"@.len());
    reveal_strlit("CreateSchemaStatementSegment");
    assert("DeleteStatementSegment"@.len() != "CreateSchemaStatementSegment"@.len());
    reveal_strlit("DatePartFunctionNameSegment");
    assert("DeleteStatementSegment"@.len() != "DatePartFunctionNameSegment"@.len());
    reveal_strlit("EmptyStructLiteralBracketsSegment");
    assert("DeleteStatementSegment"@.len() != "EmptyStructLiteralBracketsSegment"@.len());
    reveal_strlit("Expression_A_Grammar");
    assert("DeleteStatementSegment"@.len() != "Expression_A_Grammar"@.len());
    reveal_strlit("Expression_A_Unary_Operator_Grammar");
    assert("DeleteStatementSegment"@.len() != "Expression_A_Unary_Operator_Grammar"@.len());
    reveal_strlit("Expression_B_Unary_Operator_Grammar");
    assert("DeleteStatementSegment"@.len() != "Expression_B_Unary_Operator_Grammar"@.len());
    reveal_strlit("FromClauseSegment");
    assert("DeleteStatementSegment"@.len() != "FromClauseSegment"@.len());
    reveal_strlit("FromExpressionSegment");
    assert("DeleteStatementSegment"@.len() != "FromExpressionSegment"@.len());
    reveal_strlit("FunctionContentsExpressionGrammar");
    assert("DeleteStatementSegment"@.len() != "FunctionContentsExpressionGrammar"@.len());
    reveal_strlit("FunctionContentsGrammar");
    assert("DeleteStatementSegment"@.len() != "FunctionContentsGrammar"@.len());
    reveal_strlit("FunctionContentsSegment");
    assert("DeleteStatementSegment"@.len() != "FunctionContentsSegment"@.len());
    reveal_strlit("JoinLikeClauseGrammar");
    assert("DeleteStatementSegment"@.len() != "JoinLikeClauseGrammar"@.len());
    reveal_strlit("OrderByClauseSegment");
    assert("DeleteStatementSegment"@.len() != "OrderByClauseSegment"@.len());
    reveal_strlit("PostFunctionGrammar");
    assert("DeleteStatementSegment"@.len() != "PostFunctionGrammar"@.len());
    reveal_strlit("SelectClauseElementSegment");
    assert("DeleteStatementSegment"@.len() != "SelectClauseElementSegment"@.len());
    reveal_strlit("SelectClauseModifierSegment");
    assert("DeleteStatementSegment"@.len() != "SelectClauseModifierSegment"@.len());
    reveal_strlit("SelectStatementSegment");
    assert("DeleteStatementSegment"@[0] != "SelectStatementSegment"@[0]);
    reveal_strlit("SetExpressionSegment");
    assert("DeleteStatementSegment"@.len() != "SetExpressionSegment"@.len());
    reveal_strlit("Tail_Recurse_Expression_A_Grammar");
    assert("DeleteStatementSegment"@.len() != "Tail_Recurse_Expression_A_Grammar"@.len());
    reveal_strlit("Tail_Recurse_Expression_B_Grammar");
    assert("DeleteStatementSegment"@.len() != "Tail_Recurse_Expression_B_Grammar"@.len());
    reveal_strlit("TruncateStatementSegment");
    assert("DeleteStatementSegment"@.len() != "TruncateStatementSegment"@.len());
    reveal_strlit("WildcardExpressionSegment");
    assert("DeleteStatementSegment"@.len() != "WildcardExpressionSegment"@.len());
}

proof fn lemma_part_11_keeps_delete_statement_segment(m: Map<Seq<char>, ElementView>)
    requires
        m.dom().contains("DeleteStatementSegment"@),
    ensures
        ansi_library_part_11(m).dom().contains("DeleteStatementSegment"@),
        ansi_library_part_11(m)["DeleteStatementSegment"@] == m["DeleteStatementSegment"@],
{
    reveal_strlit("DeleteStatementSegment");
    reveal_strlit("AccessorGrammar");
    assert("DeleteStatementSegment"@.len() != "AccessorGrammar"@.len());
    reveal_strlit("Expression_B_Grammar");
    assert("DeleteStatementSegment"@.len() != "Expression_B_Grammar"@.len());
    reveal_strlit("Expression_C_Grammar");
    assert("DeleteStatementSegment"@.len() != "Expression_C_Grammar"@.len());
    reveal_strlit("Expression_D_Grammar");
    assert("DeleteStatementSegment"@.len() != "Expression_D_Grammar"@.len());
    reveal_strlit("NonSetSelectableGrammar");
    assert("DeleteStatementSegment"@.len() != "NonSetSelectableGrammar"@.len());
    reveal_strlit("NonWithNonSelectableGrammar");
    assert("DeleteStatementSegment"@.len() != "NonWithNonSelectableGrammar"@.len());
    reveal_strlit("NonWithSelectableGrammar");
    assert("DeleteStatementSegment"@.len() != "NonWithSelectableGrammar"@.len());
    reveal_strlit("PostTableExpressionGrammar");
    assert("DeleteStatementSegment"@.len() != "PostTableExpressionGrammar"@.len());
    reveal_strlit("SelectableGrammar");
    assert("DeleteStatementSegment"@.len() != "SelectableGrammar"@.len());
    reveal_strlit("TimeWithTZGrammar");
    assert("DeleteStatementSegment"@.len() != "TimeWithTZGrammar"@.len());
}

/// The ANSI library holds `DeleteStatementSegment`: the value of its last entry of that name.
pub proof fn lemma_ansi_library_delete_statement_segment(lib: Map<Seq<char>, ElementView>)
    ensures
        ansi_library(lib).dom().contains("DeleteStatementSegment"@),
        ansi_library(lib)["DeleteStatementSegment"@] == delete_statement_segment_element(),
{
    reveal(ansi_library);
    let m0 = lib;
    let m1 = ansi_library_part_0(m0);
    let m2 = ansi_library_part_1(m1);
    let m3 = ansi_library_part_2(m2);
    let m4 = ansi_library_part_3(m3);
    let m5 = ansi_library_part_4(m4);
    let m6 = ansi_library_part_5(m5);
    let m7 = ansi_library_part_6(m6);
    let m8 = ansi_library_part_7(m7);
    let m9 = ansi_library_part_8(m8);
    let m10 = ansi_library_part_9(m9);
    let m11 = ansi_library_part_10(m10);
    let m12 = ansi_library_part_11(m11);
    lemma_part_7_sets_delete_statement_segment(m7);
    lemma_part_8_keeps_delete_statement_segment(m8);
    lemma_part_9_keeps_delete_statement_segment(m9);
    lemma_part_10_keeps_delete_statement_segment(m10);
    lemma_part_11_keeps_delete_statement_segment(m11);
}

proof fn lemma_part_6_sets_use_statement_segment(m: Map<Seq<char>, ElementView>)
    ensures
        ansi_library_part_6(m).dom().contains("UseStatementSegment"@),
        ansi_library_part_6(m)["UseStatementSegment"@] == use_statement_segment_element(),
{
    reveal_strlit("UseStatementSegment");
    reveal_strlit("CreateSequenceOptionsSegment");
    assert("UseStatementSegment"@.len() != "CreateSequenceOptionsSegment"@.len());
    reveal_strlit("CreateSequenceStatementSegment");
    assert("UseStatementSegment"@.len() != "CreateSequenceStatementSegment"@.len());
    reveal_strlit("ExplainStatementSegment");
    assert("UseStatementSegment"@.len() != "ExplainStatementSegment"@.len());
}

proof fn lemma_part_7_keeps_use_statement_segment(m: Map<Seq<char>, ElementView>)
    requires
        m.dom().contains("UseStatementSegment"@),
    ensures
        ansi_library_part_7(m).dom().contains("UseStatementSegment"@),
        ansi_library_part_7(m)["UseStatementSegment"@] == m["UseStatementSegment"@],
{
    reveal_strlit("UseStatementSegment");
    reveal_strlit("AccessStatementSegment");
    assert("UseStatementSegment"@.len() != "AccessStatementSegment"@.len());
    reveal_strlit("AlterSequenceStatementSegment");
    assert("UseStatementSegment"@.len() != "AlterSequenceStatementSegment"@.len());
    reveal_strlit("AlterTableStatementSegment");
    assert("UseStatementSegment"@.len() != "AlterTableStatementSegment"@.len());
    reveal_strlit("CreateCastStatementSegment");
    assert("UseStatementSegment"@.len() != "CreateCastStatementSegment"@.len());
    reveal_strlit("CreateDatabaseStatementSegment");
    assert("UseStatementSegment"@.len() != "CreateDatabaseStatementSegment"@.len());
    reveal_strlit("CreateFunctionStatementSegment");
    assert("UseStatementSegment"@.len() != "CreateFunctionStatementSegment"@.len());
    reveal_strlit("CreateIndexStatementSegment");
    assert("UseStatementSegment"@.len() != "CreateIndexStatementSegment"@.len());
    reveal_strlit("CreateModelStatementSegment");
    assert("UseStatementSegment"@.len() != "CreateModelStatementSegment"@.len());
    reveal_strlit("CreateRoleStatementSegment");
    assert("UseStatementSegment"@.len() != "CreateRoleStatementSegment"@.len());
    reveal_strlit("CreateTableStatementSegment");
    assert("UseStatementSegment"@.len() != "CreateTableStatementSegment"@.len());
    reveal_strlit("CreateViewStatementSegment");
    assert("UseStatementSegment"@.len() != "CreateViewStatementSegment"@.len());
    reveal_strlit("DeleteStatementSegment");
    assert("UseStatementSegment"@.len() != "DeleteStatementSegment"@.len());
    reveal_strlit("DropCastStatementSegment");
    assert("UseStatementSegment"@.len() != "DropCastStatementSegment"@.len());
    reveal_strlit("DropDatabaseStatementSegment");
    assert("UseStatementSegment"@.len() != "DropDatabaseStatementSegment"@.len());
    reveal_strlit("DropFunctionStatementSegment");
    assert("UseStatementSegment"@.len() != "DropFunctionStatementSegment"@.len());
    reveal_strlit("DropIndexStatementSegment");
    assert("UseStatementSegment"@.len() != "DropIndexStatementSegment"@.len());
    reveal_strlit("DropRoleStatementSegment");
    assert("UseStatementSegment"@.len() != "DropRoleStatementSegment"@.len());
    reveal_strlit("DropSchemaStatementSegment");
    assert("UseStatementSegment"@.len() != "DropSchemaStatementSegment"@.len());
    reveal_strlit("DropSequenceStatementSegment");
    assert("UseStatementSegment"@.len() != "DropSequenceStatementSegment"@.len());
    reveal_strlit("DropTypeStatementSegment");
    assert("UseStatementSegment"@.len() != "DropTypeStatementSegment"@.len());
    reveal_strlit("FunctionParameterListGrammar");
    assert("UseStatementSegment"@.len() != "FunctionParameterListGrammar"@.len());
    reveal_strlit("InsertStatementSegment");
    assert("UseStatementSegment"@.len() != "InsertStatementSegment"@.len());
    reveal_strlit("SetSchemaStatementSegment");
    assert("UseStatementSegment"@.len() != "SetSchemaStatementSegment"@.len());
    reveal_strlit("TransactionStatementSegment");
    assert("UseStatementSegment"@.len() != "TransactionStatementSegment"@.len());
    reveal_strlit("UpdateStatementSegment");
    assert("UseStatementSegment"@.len() != "UpdateStatementSegment"@.len());
}

proof fn lemma_part_8_keeps_use_statement_segment(m: Map<Seq<char>, ElementView>)
    requires
        m.dom().contains("UseStatementSegment"@),
    ensures
        ansi_library_part_8(m).dom().contains("UseStatementSegment"@),
        ansi_library_part_8(m)["UseStatementSegment"@] == m["UseStatementSegment"@],
{
    reveal_strlit("UseStatementSegment");
    reveal_strlit("AggregateOrderByClause");
    assert("UseStatementSegment"@.len() != "AggregateOrderByClause"@.len());
    reveal_strlit("ArrayExpressionSegment");
    assert("UseStatementSegment"@.len() != "ArrayExpressionSegment"@.len());
    reveal_strlit("BitwiseAndSegment");
    assert("UseStatementSegment"@.len() != "BitwiseAndSegment"@.len());
    reveal_strlit("BitwiseLShiftSegment");
    assert("UseStatementSegment"@.len() != "BitwiseLShiftSegment"@.len());
    reveal_strlit("BitwiseOrSegment");
    assert("UseStatementSegment"@.len() != "BitwiseOrSegment"@.len());
    reveal_strlit("BitwiseRShiftSegment");
    assert("UseStatementSegment"@.len() != "BitwiseRShiftSegment"@.len());
    reveal_strlit("ConcatSegment");
    assert("UseStatementSegment"@.len() != "ConcatSegment"@.len());
    reveal_strlit("CreateUserStatementSegment");
    assert("UseStatementSegment"@.len() != "CreateUserStatementSegment"@.len());
    reveal_strlit("DropTableStatementSegment");
    assert("UseStatementSegment"@.len() != "DropTableStatementSegment"@.len());
    reveal_strlit("DropUserStatementSegment");
    assert("UseStatementSegment"@.len() != "DropUserStatementSegment"@.len());
    reveal_strlit("DropViewStatementSegment");
    assert("UseStatementSegment"@.len() != "DropViewStatementSegment"@.len());
    reveal_strlit("ElseClauseSegment");
    assert("UseStatementSegment"@.len() != "ElseClauseSegment"@.len());
    reveal_strlit("EqualsSegment");
    assert("UseStatementSegment"@.len() != "EqualsSegment"@.len());
    reveal_strlit("FunctionNameSegment");
    assert("UseStatementSegment"@[0] != "FunctionNameSegment"@[0]);
    reveal_strlit("GreaterThanOrEqualToSegment");
    assert("UseStatementSegment"@.len() != "GreaterThanOrEqualToSegment"@.len());
    reveal_strlit("GreaterThanSegment");
    assert("UseStatementSegment"@.len() != "GreaterThanSegment"@.len());
    reveal_strlit("IndexColumnDefinitionSegment");
    assert("UseStatementSegment"@.len() != "IndexColumnDefinitionSegment"@.len());
    reveal_strlit("LessThanOrEqualToSegment");
    assert("UseStatementSegment"@.len() != "LessThanOrEqualToSegment"@.len());
    reveal_strlit("LessThanSegment");
    assert("UseStatementSegment"@.len() != "LessThanSegment"@.len());
    reveal_strlit("LocalAliasSegment");
    assert("UseStatementSegment"@.len() != "LocalAliasSegment"@.len());
    reveal_strlit("MergeStatementSegment");
    assert("UseStatementSegment"@.len() != "MergeStatementSegment"@.len());
    reveal_strlit("NotEqualToSegment");
    assert("UseStatementSegment"@.len() != "NotEqualToSegment"@.len());
    reveal_strlit("QualifiedNumericLiteralSegment");
    assert("UseStatementSegment"@.len() != "QualifiedNumericLiteralSegment"@.len());
    reveal_strlit("WhenClauseSegment");
    assert("UseStatementSegment"@.len() != "WhenClauseSegment"@.len());
    reveal_strlit("WhereClauseSegment");
    assert("UseStatementSegment"@.len() != "WhereClauseSegment"@.len());
}

proof fn lemma_part_9_keeps_use_statement_segment(m: Map<Seq<char>, ElementView>)
    requires
        m.dom().contains("UseStatementSegment"@),
    ensures
        ansi_library_part_9(m).dom().contains("UseStatementSegment"@),
        ansi_library_part_9(m)["UseStatementSegment"@] == m["UseStatementSegment"@],
{
    reveal_strlit("UseStatementSegment");
    reveal_strlit("AliasExpressionSegment");
    assert("UseStatementSegment"@.len() != "AliasExpressionSegment"@.len());
    reveal_strlit("ArrayAccessorSegment");
    assert("UseStatementSegment"@.len() != "ArrayAccessorSegment"@.len());
    reveal_strlit("ArrayLiteralSegment");
    assert("UseStatementSegment"@[0] != "ArrayLiteralSegment"@[0]);
    reveal_strlit("ArrayTypeSegment");
    assert("UseStatementSegment"@.len() != "ArrayTypeSegment"@.len());
    reveal_strlit("BracketedArguments");
    assert("UseStatementSegment"@.len() != "BracketedArguments"@.len());
    reveal_strlit("DatatypeSegment");
    assert("UseStatementSegment"@.len() != "DatatypeSegment"@.len());
    reveal_strlit("EmptyStructLiteralSegment");
    assert("UseStatementSegment"@.len() != "EmptyStructLiteralSegment"@.len());
    reveal_strlit("IntervalExpressionSegment");
    assert("UseStatementSegment"@.len() != "IntervalExpressionSegment"@.len());
    reveal_strlit("ObjectLiteralElementSegment");
    assert("UseStatementSegment"@.len() != "ObjectLiteralElementSegment"@.len());
    reveal_strlit("ObjectLiteralSegment");
    assert("UseStatementSegment"@.len() != "ObjectLiteralSegment"@.len());
    reveal_strlit("OverlapsClauseSegment");
    assert("UseStatementSegment"@.len() != "OverlapsClauseSegment"@.len());
    reveal_strlit("SelectClauseSegment");
    assert("UseStatementSegment"@[0] != "SelectClauseSegment"@[0]);
    reveal_strlit("SetOperatorSegment");
    assert("UseStatementSegment"@.len() != "SetOperatorSegment"@.len());
    reveal_strlit("ShorthandCastSegment");
    assert("UseStatementSegment"@.len() != "ShorthandCastSegment"@.len());
    reveal_strlit("SizedArrayTypeSegment");
    assert("UseStatementSegment"@.len() != "SizedArrayTypeSegment"@.len());
    reveal_strlit("StatementSegment");
    assert("UseStatementSegment"@.len() != "StatementSegment"@.len());
    reveal_strlit("StructLiteralSegment");
    assert("UseStatementSegment"@.len() != "StructLiteralSegment"@.len());
    reveal_strlit("StructTypeSegment");
    assert("UseStatementSegment"@.len() != "StructTypeSegment"@.len());
    reveal_strlit("TimeZoneGrammar");
    assert("UseStatementSegment"@.len() != "TimeZoneGrammar"@.len());
    reveal_strlit("TypedArrayLiteralSegment");
    assert("UseStatementSegment"@.len() != "TypedArrayLiteralSegment"@.len());
    reveal_strlit("TypedStructLiteralSegment");
    assert("UseStatementSegment"@.len() != "TypedStructLiteralSegment"@.len());
    reveal_strlit("UnorderedSelectStatementSegment");
    assert("UseStatementSegment"@.len() != "UnorderedSelectStatementSegment"@.len());
    reveal_strlit("ValuesClauseSegment");
    assert("UseStatementSegment"@[0] != "ValuesClauseSegment"@[0]);
    reveal_strlit("WithDataClauseSegment");
    assert("UseStatementSegment"@.len() != "WithDataClauseSegment"@.len());
    reveal_strlit("WithNoSchemaBindingClauseSegment");
    assert("UseStatementSegment"@.len() != "WithNoSchemaBindingClauseSegment"@.len());
}

proof fn lemma_part_10_keeps_use_statement_segment(m: Map<Seq<char>, ElementView>)
    requires
        m.dom().contains("UseStatementSegment"@),
    ensures
        ansi_library_part_10(m).dom().contains("UseStatementSegment"@),
        ansi_library_part_10(m)["UseStatementSegment"@] == m["UseStatementSegment"@],
{
    reveal_strlit("UseStatementSegment");
    reveal_strlit("AccessStatementSegmentGrantRoleWithOptionGrammar");
    assert("UseStatementSegment"@.len() != "AccessStatementSegmentGrantRoleWithOptionGrammar"@.len());
    reveal_strlit("AliasedTableReferenceGrammar");
    assert("UseStatementSegment"@.len() != "AliasedTableReferenceGrammar"@.len());
    reveal_strlit("CharCharacterSetGrammar");
    assert("UseStatementSegment"@.len() != "CharCharacterSetGrammar"@.len());
    reveal_strlit("CreateSchemaStatementSegment");
    assert("UseStatementSegment"@.len() != "CreateSchemaStatementSegment"@.len());
    reveal_strlit("DatePartFunctionNameSegment");
    assert("UseStatementSegment"@.len() != "DatePartFunctionNameSegment"@.len());
    reveal_strlit("EmptyStructLiteralBracketsSegment");
    assert("UseStatementSegment"@.len() != "EmptyStructLiteralBracketsSegment"@.len());
    reveal_strlit("Expression_A_Grammar");
    assert("UseStatementSegment"@.len() != "Expression_A_Grammar"@.len());
    reveal_strlit("Expression_A_Unary_Operator_Grammar");
    assert("UseStatementSegment"@.len() != "Expression_A_Unary_Operator_Grammar"@.len());
    reveal_strlit("Expression_B_Unary_Operator_Grammar");
    assert("UseStatementSegment"@.len() != "Expression_B_Unary_Operator_Grammar"@.len());
    reveal_strlit("FromClauseSegment");
    assert("UseStatementSegment"@.len() != "FromClauseSegment"@.len());
    reveal_strlit("FromExpressionSegment");
    assert("UseStatementSegment"@.len() != "FromExpressionSegment"@.len());
    reveal_strlit("FunctionContentsExpressionGrammar");
    assert("UseStatementSegment"@.len() != "FunctionContentsExpressionGrammar"@.len());
    reveal_strlit("FunctionContentsGrammar");
    assert("UseStatementSegment"@.len() != "FunctionContentsGrammar"@.len());
    reveal_strlit("FunctionContentsSegment");
    assert("UseStatementSegment"@.len() != "FunctionContentsSegment"@.len());
    reveal_strlit("JoinLikeClauseGrammar");
    assert("UseStatementSegment"@.len() != "JoinLikeClauseGrammar"@.len());
    reveal_strlit("OrderByClauseSegment");
    assert("UseStatementSegment"@.len() != "OrderByClauseSegment"@.len());
    reveal_strlit("PostFunctionGrammar");
    assert("UseStatementSegment"@[0] != "PostFunctionGrammar"@[0]);
    reveal_strlit("SelectClauseElementSegment");
    assert("UseStatementSegment"@.len() != "SelectClauseElementSegment"@.len());
    reveal_strlit("SelectClauseModifierSegment");
    assert("UseStatementSegment"@.len() != "SelectClauseModifierSegment"@.len());
    reveal_strlit("SelectStatementSegment");
    assert("UseStatementSegment"@.len() != "SelectStatementSegment"@.len());
    reveal_strlit("SetExpressionSegment");
    assert("UseStatementSegment"@.len() != "SetExpressionSegment"@.len());
    reveal_strlit("Tail_Recurse_Expression_A_Grammar");
    assert("UseStatementSegment"@.len() != "Tail_Recurse_Expression_A_Grammar"@.len());
    reveal_strlit("Tail_Recurse_Expression_B_Grammar");
    assert("UseStatementSegment"@.len() != "Tail_Recurse_Expression_B_Grammar"@.len());
    reveal_strlit("TruncateStatementSegment");
    assert("UseStatementSegment"@.len() != "TruncateStatementSegment"@.len());
    reveal_strlit("WildcardExpressionSegment");
    assert("UseStatementSegment"@.len() != "WildcardExpressionSegment"@.len());
}

proof fn lemma_part_11_keeps_use_statement_segment(m: Map<Seq<char>, ElementView>)
    requires
        m.dom().contains("UseStatementSegment"@),
    ensures
        ansi_library_part_11(m).dom().contains("UseStatementSegment"@),
        ansi_library_part_11(m)["UseStatementSegment"@] == m["UseStatementSegment"@],
{
    reveal_strlit("UseStatementSegment");
    reveal_strlit("AccessorGrammar");
    assert("UseStatementSegment"@.len() != "AccessorGrammar"@.len());
    reveal_strlit("Expression_B_Grammar");
    assert("UseStatementSegment"@.len() != "Expression_B_Grammar"@.len());
    reveal_strlit("Expression_C_Grammar");
    assert("UseStatementSegment"@.len() != "Expression_C_Grammar"@.len());
    reveal_strlit("Expression_D_Grammar");
    assert("UseStatementSegment"@.len() != "Expression_D_Grammar"@.len());
    reveal_strlit("NonSetSelectableGrammar");
    assert("UseStatementSegment"@.len() != "NonSetSelectableGrammar"@.len());
    reveal_strlit("NonWithNonSelectableGrammar");
    assert("UseStatementSegment"@.len() != "NonWithNonSelectableGrammar"@.len());
    reveal_strlit("NonWithSelectableGrammar");
    assert("UseStatementSegment"@.len() != "NonWithSelectableGrammar"@.len());
    reveal_strlit("PostTableExpressionGrammar");
    assert("UseStatementSegment"@.len() != "PostTableExpressionGrammar"@.len());
    reveal_strlit("SelectableGrammar");
    assert("UseStatementSegment"@.len() != "SelectableGrammar"@.len());
    reveal_strlit("TimeWithTZGrammar");
    assert("UseStatementSegment"@.len() != "TimeWithTZGrammar"@.len());
}

/// The ANSI library holds `UseStatementSegment`: the value of its last entry of that name.
pub proof fn lemma_ansi_library_use_statement_segment(lib: Map<Seq<char>, ElementView>)
    ensures
        ansi_library(lib).dom().contains("UseStatementSegment"@),
        ansi_library(lib)["UseStatementSegment"@] == use_statement_segment_element(),
{
    reveal(ansi_library);
    let m0 = lib;
    let m1 = ansi_library_part_0(m0);
    let m2 = ansi_library_part_1(m1);
    let m3 = ansi_library_part_2(m2);
    let m4 = ansi_library_part_3(m3);
    let m5 = ansi_library_part_4(m4);
    let m6 = ansi_library_part_5(m5);
    let m7 = ansi_library_part_6(m6);
    let m8 = ansi_library_part_7(m7);
    let m9 = ansi_library_part_8(m8);
    let m10 = ansi_library_part_9(m9);
    let m11 = ansi_library_part_10(m10);
    let m12 = ansi_library_part_11(m11);
    lemma_part_6_sets_use_statement_segment(m6);
    lemma_part_7_keeps_use_statement_segment(m7);
    lemma_part_8_keeps_use_statement_segment(m8);
    lemma_part_9_keeps_use_statement_segment(m9);
    lemma_part_10_keeps_use_statement_segment(m10);
    lemma_part_11_keeps_use_statement_segment(m11);
}

proof fn lemma_part_6_sets_describe_statement_segment(m: Map<Seq<char>, ElementView>)
    ensures
        ansi_library_part_6(m).dom().contains("DescribeStatementSegment"@),
        ansi_library_part_6(m)["DescribeStatementSegment"@] == describe_statement_segment_element(),
{
    reveal_strlit("DescribeStatementSegment");
    reveal_strlit("CreateSequenceOptionsSegment");
    assert("DescribeStatementSegment"@.len() != "CreateSequenceOptionsSegment"@.len());
    reveal_strlit("CreateSequenceStatementSegment");
    assert("DescribeStatementSegment"@.len() != "CreateSequenceStatementSegment"@.len());
    reveal_strlit("ExplainStatementSegment");
    assert("DescribeStatementSegment"@.len() != "ExplainStatementSegment"@.len());
    reveal_strlit("UseStatementSegment");
    assert("DescribeStatementSegment"@.len() != "UseStatementSegment"@.len());
}

proof fn lemma_part_7_keeps_describe_statement_segment(m: Map<Seq<char>, ElementView>)
    requires
        m.dom().contains("DescribeStatementSegment"@),
    ensures
        ansi_library_part_7(m).dom().contains("DescribeStatementSegment"@),
        ansi_library_part_7(m)["DescribeStatementSegment"@] == m["DescribeStatementSegment"@],
{
    reveal_strlit("DescribeStatementSegment");
    reveal_strlit("AccessStatementSegment");
    assert("DescribeStatementSegment"@.len() != "AccessStatementSegment"@.len());
    reveal_strlit("AlterSequenceStatementSegment");
    assert("DescribeStatementSegment"@.len() != "AlterSequenceStatementSegment"@.len());
    reveal_strlit("AlterTableStatementSegment");
    assert("DescribeStatementSegment"@.len() != "AlterTableStatementSegment"@.len());
    reveal_strlit("CreateCastStatementSegment");
    assert("DescribeStatementSegment"@.len() != "CreateCastStatementSegment"@.len());
    reveal_strlit("CreateDatabaseStatementSegment");
    assert("DescribeStatementSegment"@.len() != "CreateDatabaseStatementSegment"@.len());
    reveal_strlit("CreateFunctionStatementSegment");
    assert("DescribeStatementSegment"@.len() != "CreateFunctionStatementSegment"@.len());
    reveal_strlit("CreateIndexStatementSegment");
    assert("DescribeStatementSegment"@.len() != "CreateIndexStatementSegment"@.len());
    reveal_strlit("CreateModelStatementSegment");
    assert("DescribeStatementSegment"@.len() != "CreateModelStatementSegment"@.len());
    reveal_strlit("CreateRoleStatementSegment");
    assert("DescribeStatementSegment"@.len() != "CreateRoleStatementSegment"@.len());
    reveal_strlit("CreateTableStatementSegment");
    assert("DescribeStatementSegment"@.len() != "CreateTableStatementSegment"@.len());
    reveal_strlit("CreateViewStatementSegment");
    assert("DescribeStatementSegment"@.len() != "CreateViewStatementSegment"@.len());
    reveal_strlit("DeleteStatementSegment");
    assert("DescribeStatementSegment"@.len() != "DeleteStatementSegment"@.len());
    reveal_strlit("DropCastStatementSegment");
    assert("DescribeStatementSegment"@[1] != "DropCastStatementSegment"@[1]);
    reveal_strlit("DropDatabaseStatementSegment");
    assert("DescribeStatementSegment"@.len() != "DropDatabaseStatementSegment"@.len());
    reveal_strlit("DropFunctionStatementSegment");
    assert("DescribeStatementSegment"@.len() != "DropFunctionStatementSegment"@.len());
    reveal_strlit("DropIndexStatementSegment");
    assert("DescribeStatementSegment"@.len() != "DropIndexStatementSegment"@.len());
    reveal_strlit("DropRoleStatementSegment");
    assert("DescribeStatementSegment"@[1] != "DropRoleStatementSegment"@[1]);
    reveal_strlit("DropSchemaStatementSegment");
    assert("DescribeStatementSegment"@.len() != "DropSchemaStatementSegment"@.len());
    reveal_strlit("DropSequenceStatementSegment");
    assert("DescribeStatementSegment"@.len() != "DropSequenceStatementSegment"@.len());
    reveal_strlit("DropTypeStatementSegment");
    assert("DescribeStatementSegment"@[1] != "DropTypeStatementSegment"@[1]);
    reveal_strlit("FunctionParameterListGrammar");
    assert("DescribeStatementSegment"@.len() != "FunctionParameterListGrammar"@.len());
    reveal_strlit("InsertStatementSegment");
    assert("DescribeStatementSegment"@.len() != "InsertStatementSegment"@.len());
    reveal_strlit("SetSchemaStatementSegment");
    assert("DescribeStatementSegment"@.len() != "SetSchemaStatementSegment"@.len());
    reveal_strlit("TransactionStatementSegment");
    assert("DescribeStatementSegment"@.len() != "TransactionStatementSegment"@.len());
    reveal_strlit("UpdateStatementSegment");
    assert("DescribeStatementSegment"@.len() != "UpdateStatementSegment"@.len());
}

proof fn lemma_part_8_keeps_describe_statement_segment(m: Map<Seq<char>, ElementView>)
    requires
        m.dom().contains("DescribeStatementSegment"@),
    ensures
        ansi_library_part_8(m).dom().contains("DescribeStatementSegment"@),
        ansi_library_part_8(m)["DescribeStatementSegment"@] == m["DescribeStatementSegment"@],
{
    reveal_strlit("DescribeStatementSegment");
    reveal_strlit("AggregateOrderByClause");
    assert("DescribeStatementSegment"@.len() != "AggregateOrderByClause"@.len());
    reveal_strlit("ArrayExpressionSegment");
    assert("DescribeStatementSegment"@.len() != "ArrayExpressionSegment"@.len());
    reveal_strlit("BitwiseAndSegment");
    assert("DescribeStatementSegment"@.len() != "BitwiseAndSegment"@.len());
    reveal_strlit("BitwiseLShiftSegment");
    assert("DescribeStatementSegment"@.len() != "BitwiseLShiftSegment"@.len());
    reveal_strlit("BitwiseOrSegment");
    assert("DescribeStatementSegment"@.len() != "BitwiseOrSegment"@.len());
    reveal_strlit("BitwiseRShiftSegment");
    assert("DescribeStatementSegment"@.len() != "BitwiseRShiftSegment"@.len());
    reveal_strlit("ConcatSegment");
    assert("DescribeStatementSegment"@.len() != "ConcatSegment"@.len());
    reveal_strlit("CreateUserStatementSegment");
    assert("DescribeStatementSegment"@.len() != "CreateUserStatementSegment"@.len());
    reveal_strlit("DropTableStatementSegment");
    assert("DescribeStatementSegment"@.len() != "DropTableStatementSegment"@.len());
    reveal_strlit("DropUserStatementSegment");
    assert("DescribeStatementSegment"@[1] != "DropUserStatementSegment"@[1]);
    reveal_strlit("DropViewStatementSegment");
    assert("DescribeStatementSegment"@[1] != "DropViewStatementSegment"@[1]);
    reveal_strlit("ElseClauseSegment");
    assert("DescribeStatementSegment"@.len() != "ElseClauseSegment"@.len());
    reveal_strlit("EqualsSegment");
    assert("DescribeStatementSegment"@.len() != "EqualsSegment"@.len());
    reveal_strlit("FunctionNameSegment");
    assert("DescribeStatementSegment"@.len() != "FunctionNameSegment"@.len());
    reveal_strlit("GreaterThanOrEqualToSegment");
    assert("DescribeStatementSegment"@.len() != "GreaterThanOrEqualToSegment"@.len());
    reveal_strlit("GreaterThanSegment");
    assert("DescribeStatementSegment"@.len() != "GreaterThanSegment"@.len());
    reveal_strlit("IndexColumnDefinitionSegment");
    assert("DescribeStatementSegment"@.len() != "IndexColumnDefinitionSegment"@.len());
    reveal_strlit("LessThanOrEqualToSegment");
    assert("DescribeStatementSegment"@[0] != "LessThanOrEqualToSegment"@[0]);
    reveal_strlit("LessThanSegment");
    assert("DescribeStatementSegment"@.len() != "LessThanSegment"@.len());
    reveal_strlit("LocalAliasSegment");
    assert("DescribeStatementSegment"@.len() != "LocalAliasSegment"@.len());
    reveal_strlit("MergeStatementSegment");
    assert("DescribeStatementSegment"@.len() != "MergeStatementSegment"@.len());
    reveal_strlit("NotEqualToSegment");
    assert("DescribeStatementSegment"@.len() != "NotEqualToSegment"@.len());
    reveal_strlit("QualifiedNumericLiteralSegment");
    assert("DescribeStatementSegment"@.len() != "QualifiedNumericLiteralSegment"@.len());
    reveal_strlit("WhenClauseSegment");
    assert("DescribeStatementSegment"@.len() != "WhenClauseSegment"@.len());
    reveal_strlit("WhereClauseSegment");
    assert("DescribeStatementSegment"@.len() != "WhereClauseSegment"@.len());
}

proof fn lemma_part_9_keeps_describe_statement_segment(m: Map<Seq<char>, ElementView>)
    requires
        m.dom().contains("DescribeStatementSegment"@),
    ensures
        ansi_library_part_9(m).dom().contains("DescribeStatementSegment"@),
        ansi_library_part_9(m)["DescribeStatementSegment"@] == m["DescribeStatementSegment"@],
{
    reveal_strlit("DescribeStatementSegment");
    reveal_strlit("AliasExpressionSegment");
    assert("DescribeStatementSegment"@.len() != "AliasExpressionSegment"@.len());
    reveal_strlit("ArrayAccessorSegment");
    assert("DescribeStatementSegment"@.len() != "ArrayAccessorSegment"@.len());
    reveal_strlit("ArrayLiteralSegment");
    assert("DescribeStatementSegment"@.len() != "ArrayLiteralSegment"@.len());
    reveal_strlit("ArrayTypeSegment");
    assert("DescribeStatementSegment"@.len() != "ArrayTypeSegment"@.len());
    reveal_strlit("BracketedArguments");
    assert("DescribeStatementSegment"@.len() != "BracketedArguments"@.len());
    reveal_strlit("DatatypeSegment");
    assert("DescribeStatementSegment"@.len() != "DatatypeSegment"@.len());
    reveal_strlit("EmptyStructLiteralSegment");
    assert("DescribeStatementSegment"@.len() != "EmptyStructLiteralSegment"@.len());
    reveal_strlit("IntervalExpressionSegment");
    assert("DescribeStatementSegment"@.len() != "IntervalExpressionSegment"@.len());
    reveal_strlit("ObjectLiteralElementSegment");
    assert("DescribeStatementSegment"@.len() != "ObjectLiteralElementSegment"@.len());
    reveal_strlit("ObjectLiteralSegment");
    assert("DescribeStatementSegment"@.len() != "ObjectLiteralSegment"@.len());
    reveal_strlit("OverlapsClauseSegment");
    assert("DescribeStatementSegment"@.len() != "OverlapsClauseSegment"@.len());
    reveal_strlit("SelectClauseSegment");
    assert("DescribeStatementSegment"@.len() != "SelectClauseSegment"@.len());
    reveal_strlit("SetOperatorSegment");
    assert("DescribeStatementSegment"@.len() != "SetOperatorSegment"@.len());
    reveal_strlit("ShorthandCastSegment");
    assert("DescribeStatementSegment"@.len() != "ShorthandCastSegment"@.len());
    reveal_strlit("SizedArrayTypeSegment");
    assert("DescribeStatementSegment"@.len() != "SizedArrayTypeSegment"@.len());
    reveal_strlit("StatementSegment");
    assert("DescribeStatementSegment"@.len() != "StatementSegment"@.len());
    reveal_strlit("StructLiteralSegment");
    assert("DescribeStatementSegment"@.len() != "StructLiteralSegment"@.len());
    reveal_strlit("StructTypeSegment");
    assert("DescribeStatementSegment"@.len() != "StructTypeSegment"@.len());
    reveal_strlit("TimeZoneGrammar");
    assert("DescribeStatementSegment"@.len() != "TimeZoneGrammar"@.len());
    reveal_strlit("TypedArrayLiteralSegment");
    assert("DescribeStatementSegment"@[0] != "TypedArrayLiteralSegment"@[0]);
    reveal_strlit("TypedStructLiteralSegment");
    assert("DescribeStatementSegment"@.len() != "TypedStructLiteralSegment"@.len());
    reveal_strlit("UnorderedSelectStatementSegment");
    assert("DescribeStatementSegment"@.len() != "UnorderedSelectStatementSegment"@.len());
    reveal_strlit("ValuesClauseSegment");
    assert("DescribeStatementSegment"@.len() != "ValuesClauseSegment"@.len());
    reveal_strlit("WithDataClauseSegment");
    assert("DescribeStatementSegment"@.len() != "WithDataClauseSegment"@.len());
    reveal_strlit("WithNoSchemaBindingClauseSegment");
    assert("DescribeStatementSegment"@.len() != "WithNoSchemaBindingClauseSegment"@.len());
}

proof fn lemma_part_10_keeps_describe_statement_segment(m: Map<Seq<char>, ElementView>)
    requires
        m.dom().contains("DescribeStatementSegment"@),
    ensures
        ansi_library_part_10(m).dom().contains("DescribeStatementSegment"@),
        ansi_library_part_10(m)["DescribeStatementSegment"@] == m["DescribeStatementSegment"@],
{
    reveal_strlit("DescribeStatementSegment");
    reveal_strlit("AccessStatementSegmentGrantRoleWithOptionGrammar");
    assert("DescribeStatementSegment"@.len() != "AccessStatementSegmentGrantRoleWithOptionGrammar"@.len());
    reveal_strlit("AliasedTableReferenceGrammar");
    assert("DescribeStatementSegment"@.len() != "AliasedTableReferenceGrammar"@.len());
    reveal_strlit("CharCharacterSetGrammar");
    assert("DescribeStatementSegment"@.len() != "CharCharacterSetGrammar"@.len());
    reveal_strlit("CreateSchemaStatementSegment");
    assert("DescribeStatementSegment"@.len() != "CreateSchemaStatementSegment"@.len());
    reveal_strlit("DatePartFunctionNameSegment");
    assert("DescribeStatementSegment"@.len() != "DatePartFunctionNameSegment"@.len());
    reveal_strlit("EmptyStructLiteralBracketsSegment");
    assert("DescribeStatementSegment"@.len() != "EmptyStructLiteralBracketsSegment"@.len());
    reveal_strlit("Expression_A_Grammar");
    assert("DescribeStatementSegment"@.len() != "Expression_A_Grammar"@.len());
    reveal_strlit("Expression_A_Unary_Operator_Grammar");
    assert("DescribeStatementSegment"@.len() != "Expression_A_Unary_Operator_Grammar"@.len());
    reveal_strlit("Expression_B_Unary_Operator_Grammar");
    assert("DescribeStatementSegment"@.len() != "Expression_B_Unary_Operator_Grammar"@.len());
    reveal_strlit("FromClauseSegment");
    assert("DescribeStatementSegment"@.len() != "FromClauseSegment"@.len());
    reveal_strlit("FromExpressionSegment");
    assert("DescribeStatementSegment"@.len() != "FromExpressionSegment"@.len());
    reveal_strlit("FunctionContentsExpressionGrammar");
    assert("DescribeStatementSegment"@.len() != "FunctionContentsExpressionGrammar"@.len());
    reveal_strlit("FunctionContentsGrammar");
    assert("DescribeStatementSegment"@.len() != "FunctionContentsGrammar"@.len());
    reveal_strlit("FunctionContentsSegment");
    assert("DescribeStatementSegment"@.len() != "FunctionContentsSegment"@.len());
    reveal_strlit("JoinLikeClauseGrammar");
    assert("DescribeStatementSegment"@.len() != "JoinLikeClauseGrammar"@.len());
    reveal_strlit("OrderByClauseSegment");
    assert("DescribeStatementSegment"@.len() != "OrderByClauseSegment"@.len());
    reveal_strlit("PostFunctionGrammar");
    assert("DescribeStatementSegment"@.len() != "PostFunctionGrammar"@.len());
    reveal_strlit("SelectClauseElementSegment");
    assert("DescribeStatementSegment"@.len() != "SelectClauseElementSegment"@.len());
    reveal_strlit("SelectClauseModifierSegment");
    assert("DescribeStatementSegment"@.len() != "SelectClauseModifierSegment"@.len());
    reveal_strlit("SelectStatementSegment");
    assert("DescribeStatementSegment"@.len() != "SelectStatementSegment"@.len());
    reveal_strlit("SetExpressionSegment");
    assert("DescribeStatementSegment"@.len() != "SetExpressionSegment"@.len());
    reveal_strlit("Tail_Recurse_Expression_A_Grammar");
    assert("DescribeStatementSegment"@.len() != "Tail_Recurse_Expression_A_Grammar"@.len());
    reveal_strlit("Tail_Recurse_Expression_B_Grammar");
    assert("DescribeStatementSegment"@.len() != "Tail_Recurse_Expression_B_Grammar"@.len());
    reveal_strlit("TruncateStatementSegment");
    assert("DescribeStatementSegment"@[0] != "TruncateStatementSegment"@[0]);
    reveal_strlit("WildcardExpressionSegment");
    assert("DescribeStatementSegment"@.len() != "WildcardExpressionSegment"@.len());
}

proof fn lemma_part_11_keeps_describe_statement_segment(m: Map<Seq<char>, ElementView>)
    requires
        m.dom().contains("DescribeStatementSegment"@),
    ensures
        ansi_library_part_11(m).dom().contains("DescribeStatementSegment"@),
        ansi_library_part_11(m)["DescribeStatementSegment"@] == m["DescribeStatementSegment"@],
{
    reveal_strlit("DescribeStatementSegment");
    reveal_strlit("AccessorGrammar");
    assert("DescribeStatementSegment"@.len() != "AccessorGrammar"@.len());
    reveal_strlit("Expression_B_Grammar");
    assert("DescribeStatementSegment"@.len() != "Expression_B_Grammar"@.len());
    reveal_strlit("Expression_C_Grammar");
    assert("DescribeStatementSegment"@.len() != "Expression_C_Grammar"@.len());
    reveal_strlit("Expression_D_Grammar");
    assert("DescribeStatementSegment"@.len() != "Expression_D_Grammar"@.len());
    reveal_strlit("NonSetSelectableGrammar");
    assert("DescribeStatementSegment"@.len() != "NonSetSelectableGrammar"@.len());
    reveal_strlit("NonWithNonSelectableGrammar");
    assert("DescribeStatementSegment"@.len() != "NonWithNonSelectableGrammar"@.len());
    reveal_strlit("NonWithSelectableGrammar");
    assert("DescribeStatementSegment"@[0] != "NonWithSelectableGrammar"@[0]);
    reveal_strlit("PostTableExpressionGrammar");
    assert("DescribeStatementSegment"@.len() != "PostTableExpressionGrammar"@.len());
    reveal_strlit("SelectableGrammar");
    assert("DescribeStatementSegment"@.len() != "SelectableGrammar"@.len());
    reveal_strlit("TimeWithTZGrammar");
    assert("DescribeStatementSegment"@.len() != "TimeWithTZGrammar"@.len());
}

/// The ANSI library holds `DescribeStatementSegment`: the value of its last entry of that name.
pub proof fn lemma_ansi_library_describe_statement_segment(lib: Map<Seq<char>, ElementView>)
    ensures
        ansi_library(lib).dom().contains("DescribeStatementSegment"@),
        ansi_library(lib)["DescribeStatementSegment"@] == describe_statement_segment_element(),
{
    reveal(ansi_library);
    let m0 = lib;
    let m1 = ansi_library_part_0(m0);
    let m2 = ansi_library_part_1(m1);
    let m3 = ansi_library_part_2(m2);
    let m4 = ansi_library_part_3(m3);
    let m5 = ansi_library_part_4(m4);
    let m6 = ansi_library_part_5(m5);
    let m7 = ansi_library_part_6(m6);
    let m8 = ansi_library_part_7(m7);
    let m9 = ansi_library_part_8(m8);
    let m10 = ansi_library_part_9(m9);
    let m11 = ansi_library_part_10(m10);
    let m12 = ansi_library_part_11(m11);
    lemma_part_6_sets_describe_statement_segment(m6);
    lemma_part_7_keeps_describe_statement_segment(m7);
    lemma_part_8_keeps_describe_statement_segment(m8);
    lemma_part_9_keeps_describe_statement_segment(m9);
    lemma_part_10_keeps_describe_statement_segment(m10);
    lemma_part_11_keeps_describe_statement_segment(m11);
}

proof fn lemma_part_10_sets_truncate_statement_segment(m: Map<Seq<char>, ElementView>)
    ensures
        ansi_library_part_10(m).dom().contains("TruncateStatementSegment"@),
        ansi_library_part_10(m)["TruncateStatementSegment"@] == truncate_statement_segment_element(),
{
    reveal_strlit("TruncateStatementSegment");
    reveal_strlit("AccessStatementSegmentGrantRoleWithOptionGrammar");
    assert("TruncateStatementSegment"@.len() != "AccessStatementSegmentGrantRoleWithOptionGrammar"@.len());
    reveal_strlit("AliasedTableReferenceGrammar");
    assert("TruncateStatementSegment"@.len() != "AliasedTableReferenceGrammar"@.len());
    reveal_strlit("CharCharacterSetGrammar");
    assert("TruncateStatementSegment"@.len() != "CharCharacterSetGrammar"@.len());
    reveal_strlit("CreateSchemaStatementSegment");
    assert("TruncateStatementSegment"@.len() != "CreateSchemaStatementSegment"@.len());
    reveal_strlit("DatePartFunctionNameSegment");
    assert("TruncateStatementSegment"@.len() != "DatePartFunctionNameSegment"@.len());
    reveal_strlit("Expression_A_Grammar");
    assert("TruncateStatementSegment"@.len() != "Expression_A_Grammar"@.len());
    reveal_strlit("Expression_A_Unary_Operator_Grammar");
    assert("TruncateStatementSegment"@.len() != "Expression_A_Unary_Operator_Grammar"@.len());
    reveal_strlit("Expression_B_Unary_Operator_Grammar");
    assert("TruncateStatementSegment"@.len() != "Expression_B_Unary_Operator_Grammar"@.len());
    reveal_strlit("FromExpressionSegment");
    assert("TruncateStatementSegment"@.len() != "FromExpressionSegment"@.len());
    reveal_strlit("FunctionContentsExpressionGrammar");
    assert("TruncateStatementSegment"@.len() != "FunctionContentsExpressionGrammar"@.len());
    reveal_strlit("FunctionContentsGrammar");
    assert("TruncateStatementSegment"@.len() != "FunctionContentsGrammar"@.len());
    reveal_strlit("FunctionContentsSegment");
    assert("TruncateStatementSegment"@.len() != "FunctionContentsSegment"@.len());
    reveal_strlit("JoinLikeClauseGrammar");
    assert("TruncateStatementSegment"@.len() != "JoinLikeClauseGrammar"@.len());
    reveal_strlit("PostFunctionGrammar");
    assert("TruncateStatementSegment"@.len() != "PostFunctionGrammar"@.len());
    reveal_strlit("SelectClauseElementSegment");
    assert("TruncateStatementSegment"@.len() != "SelectClauseElementSegment"@.len());
    reveal_strlit("SelectClauseModifierSegment");
    assert("TruncateStatementSegment"@.len() != "SelectClauseModifierSegment"@.len());
    reveal_strlit("SelectStatementSegment");
    assert("TruncateStatementSegment"@.len() != "SelectStatementSegment"@.len());
    reveal_strlit("Tail_Recurse_Expression_A_Grammar");
    assert("TruncateStatementSegment"@.len() != "Tail_Recurse_Expression_A_Grammar"@.len());
    reveal_strlit("Tail_Recurse_Expression_B_Grammar");
    assert("TruncateStatementSegment"@.len() != "Tail_Recurse_Expression_B_Grammar"@.len());
}

proof fn lemma_part_11_keeps_truncate_statement_segment(m: Map<Seq<char>, ElementView>)
    requires
        m.dom().contains("TruncateStatementSegment"@),
    ensures
        ansi_library_part_11(m).dom().contains("TruncateStatementSegment"@),
        ansi_library_part_11(m)["TruncateStatementSegment"@] == m["TruncateStatementSegment"@],
{
    reveal_strlit("TruncateStatementSegment");
    reveal_strlit("AccessorGrammar");
    assert("TruncateStatementSegment"@.len() != "AccessorGrammar"@.len());
    reveal_strlit("Expression_B_Grammar");
    assert("TruncateStatementSegment"@.len() != "Expression_B_Grammar"@.len());
    reveal_strlit("Expression_C_Grammar");
    assert("TruncateStatementSegment"@.len() != "Expression_C_Grammar"@.len());
    reveal_strlit("Expression_D_Grammar");
    assert("TruncateStatementSegment"@.len() != "Expression_D_Grammar"@.len());
    reveal_strlit("NonSetSelectableGrammar");
    assert("TruncateStatementSegment"@.len() != "NonSetSelectableGrammar"@.len());
    reveal_strlit("NonWithNonSelectableGrammar");
    assert("TruncateStatementSegment"@.len() != "NonWithNonSelectableGrammar"@.len());
    reveal_strlit("NonWithSelectableGrammar");
    assert("TruncateStatementSegment"@[0] != "NonWithSelectableGrammar"@[0]);
    reveal_strlit("PostTableExpressionGrammar");
    assert("TruncateStatementSegment"@.len() != "PostTableExpressionGrammar"@.len());
    reveal_strlit("SelectableGrammar");
    assert("TruncateStatementSegment"@.len() != "SelectableGrammar"@.len());
    reveal_strlit("TimeWithTZGrammar");
    assert("TruncateStatementSegment"@.len() != "TimeWithTZGrammar"@.len());
}

/// The ANSI library holds `TruncateStatementSegment`: the value of its last entry of that name.
pub proof fn lemma_ansi_library_truncate_statement_segment(lib: Map<Seq<char>, ElementView>)
    ensures
        ansi_library(lib).dom().contains("TruncateStatementSegment"@),
        ansi_library(lib)["TruncateStatementSegment"@] == truncate_statement_segment_element(),
{
    reveal(ansi_library);
    let m0 = lib;
    let m1 = ansi_library_part_0(m0);
    let m2 = ansi_library_part_1(m1);
    let m3 = ansi_library_part_2(m2);
    let m4 = ansi_library_part_3(m3);
    let m5 = ansi_library_part_4(m4);
    let m6 = ansi_library_part_5(m5);
    let m7 = ansi_library_part_6(m6);
    let m8 = ansi_library_part_7(m7);
    let m9 = ansi_library_part_8(m8);
    let m10 = ansi_library_part_9(m9);
    let m11 = ansi_library_part_10(m10);
    let m12 = ansi_library_part_11(m11);
    lemma_part_10_sets_truncate_statement_segment(m10);
    lemma_part_11_keeps_truncate_statement_segment(m11);
}

proof fn lemma_part_10_sets_create_schema_statement_segment(m: Map<Seq<char>, ElementView>)
    ensures
        ansi_library_part_10(m).dom().contains("CreateSchemaStatementSegment"@),
        ansi_library_part_10(m)["CreateSchemaStatementSegment"@] == create_schema_statement_segment_element(),
{
    reveal_strlit("CreateSchemaStatementSegment");
    reveal_strlit("AccessStatementSegmentGrantRoleWithOptionGrammar");
    assert("CreateSchemaStatementSegment"@.len() != "AccessStatementSegmentGrantRoleWithOptionGrammar"@.len());
    reveal_strlit("AliasedTableReferenceGrammar");
    assert("CreateSchemaStatementSegment"@[0] != "AliasedTableReferenceGrammar"@[0]);
    reveal_strlit("CharCharacterSetGrammar");
    assert("CreateSchemaStatementSegment"@.len() != "CharCharacterSetGrammar"@.len());
    reveal_strlit("Expression_A_Grammar");
    assert("CreateSchemaStatementSegment"@.len() != "Expression_A_Grammar"@.len());
    reveal_strlit("Expression_A_Unary_Operator_Grammar");
    assert("CreateSchemaStatementSegment"@.len() != "Expression_A_Unary_Operator_Grammar"@.len());
    reveal_strlit("Expression_B_Unary_Operator_Grammar");
    assert("CreateSchemaStatementSegment"@.len() != "Expression_B_Unary_Operator_Grammar"@.len());
    reveal_strlit("FunctionContentsExpressionGrammar");
    assert("CreateSchemaStatementSegment"@.len() != "FunctionContentsExpressionGrammar"@.len());
    reveal_strlit("FunctionContentsGrammar");
    assert("CreateSchemaStatementSegment"@.len() != "FunctionContentsGrammar"@.len());
    reveal_strlit("FunctionContentsSegment");
    assert("CreateSchemaStatementSegment"@.len() != "FunctionContentsSegment"@.len());
    reveal_strlit("JoinLikeClauseGrammar");
    assert("CreateSchemaStatementSegment"@.len() != "JoinLikeClauseGrammar"@.len());
    reveal_strlit("PostFunctionGrammar");
    assert("CreateSchemaStatementSegment"@.len() != "PostFunctionGrammar"@.len());
    reveal_strlit("SelectClauseElementSegment");
    assert("CreateSchemaStatementSegment"@.len() != "SelectClauseElementSegment"@.len());
    reveal_strlit("SelectClauseModifierSegment");
    assert("CreateSchemaStatementSegment"@.len() != "SelectClauseModifierSegment"@.len());
    reveal_strlit("Tail_Recurse_Expression_A_Grammar");
    assert("CreateSchemaStatementSegment"@.len() != "Tail_Recurse_Expression_A_Grammar"@.len());
    reveal_strlit("Tail_Recurse_Expression_B_Grammar");
    assert("CreateSchemaStatementSegment"@.len() != "Tail_Recurse_Expression_B_Grammar"@.len());
}

proof fn lemma_part_11_keeps_create_schema_statement_segment(m: Map<Seq<char>, ElementView>)
    requires
        m.dom().contains("CreateSchemaStatementSegment"@),
    ensures
        ansi_library_part_11(m).dom().contains("CreateSchemaStatementSegment"@),
        ansi_library_part_11(m)["CreateSchemaStatementSegment"@] == m["CreateSchemaStatementSegment"@],
{
    reveal_strlit("CreateSchemaStatementSegment");
    reveal_strlit("AccessorGrammar");
    assert("CreateSchemaStatementSegment"@.len() != "AccessorGrammar"@.len());
    reveal_strlit("Expression_B_Grammar");
    assert("CreateSchemaStatementSegment"@.len() != "Expression_B_Grammar"@.len());
    reveal_strlit("Expression_C_Grammar");
    assert("CreateSchemaStatementSegment"@.len() != "Expression_C_Grammar"@.len());
    reveal_strlit("Expression_D_Grammar");
    assert("CreateSchemaStatementSegment"@.len() != "Expression_D_Grammar"@.len());
    reveal_strlit("NonSetSelectableGrammar");
    assert("CreateSchemaStatementSegment"@.len() != "NonSetSelectableGrammar"@.len());
    reveal_strlit("NonWithNonSelectableGrammar");
    assert("CreateSchemaStatementSegment"@.len() != "NonWithNonSelectableGrammar"@.len());
    reveal_strlit("NonWithSelectableGrammar");
    assert("CreateSchemaStatementSegment"@.len() != "NonWithSelectableGrammar"@.len());
    reveal_strlit("PostTableExpressionGrammar");
    assert("CreateSchemaStatementSegment"@.len() != "PostTableExpressionGrammar"@.len());
    reveal_strlit("SelectableGrammar");
    assert("CreateSchemaStatementSegment"@.len() != "SelectableGrammar"@.len());
    reveal_strlit("TimeWithTZGrammar");
    assert("CreateSchemaStatementSegment"@.len() != "TimeWithTZGrammar"@.len());
}

/// The ANSI library holds `CreateSchemaStatementSegment`: the value of its last entry of that name.
pub proof fn lemma_ansi_library_create_schema_statement_segment(lib: Map<Seq<char>, ElementView>)
    ensures
        ansi_library(lib).dom().contains("CreateSchemaStatementSegment"@),
        ansi_library(lib)["CreateSchemaStatementSegment"@] == create_schema_statement_segment_element(),
{
    reveal(ansi_library);
    let m0 = lib;
    let m1 = ansi_library_part_0(m0);
    let m2 = ansi_library_part_1(m1);
    let m3 = ansi_library_part_2(m2);
    let m4 = ansi_library_part_3(m3);
    let m5 = ansi_library_part_4(m4);
    let m6 = ansi_library_part_5(m5);
    let m7 = ansi_library_part_6(m6);
    let m8 = ansi_library_part_7(m7);
    let m9 = ansi_library_part_8(m8);
    let m10 = ansi_library_part_9(m9);
    let m11 = ansi_library_part_10(m10);
    let m12 = ansi_library_part_11(m11);
    lemma_part_10_sets_create_schema_statement_segment(m10);
    lemma_part_11_keeps_create_schema_statement_segment(m11);
}

proof fn lemma_part_7_sets_drop_schema_statement_segment(m: Map<Seq<char>, ElementView>)
    ensures
        ansi_library_part_7(m).dom().contains("DropSchemaStatementSegment"@),
        ansi_library_part_7(m)["DropSchemaStatementSegment"@] == drop_schema_statement_segment_element(),
{
    reveal_strlit("DropSchemaStatementSegment");
    reveal_strlit("AccessStatementSegment");
    assert("DropSchemaStatementSegment"@.len() != "AccessStatementSegment"@.len());
    reveal_strlit("CreateDatabaseStatementSegment");
    assert("DropSchemaStatementSegment"@.len() != "CreateDatabaseStatementSegment"@.len());
    reveal_strlit("CreateIndexStatementSegment");
    assert("DropSchemaStatementSegment"@.len() != "CreateIndexStatementSegment"@.len());
    reveal_strlit("CreateTableStatementSegment");
    assert("DropSchemaStatementSegment"@.len() != "CreateTableStatementSegment"@.len());
    reveal_strlit("DropDatabaseStatementSegment");
    assert("DropSchemaStatementSegment"@.len() != "DropDatabaseStatementSegment"@.len());
    reveal_strlit("DropIndexStatementSegment");
    assert("DropSchemaStatementSegment"@.len() != "DropIndexStatementSegment"@.len());
    reveal_strlit("DropTypeStatementSegment");
    assert("DropSchemaStatementSegment"@.len() != "DropTypeStatementSegment"@.len());
    reveal_strlit("FunctionParameterListGrammar");
    assert("DropSchemaStatementSegment"@.len() != "FunctionParameterListGrammar"@.len());
    reveal_strlit("InsertStatementSegment");
    assert("DropSchemaStatementSegment"@.len() != "InsertStatementSegment"@.len());
    reveal_strlit("TransactionStatementSegment");
    assert("DropSchemaStatementSegment"@.len() != "TransactionStatementSegment"@.len());
}

proof fn lemma_part_8_keeps_drop_schema_statement_segment(m: Map<Seq<char>, ElementView>)
    requires
        m.dom().contains("DropSchemaStatementSegment"@),
    ensures
        ansi_library_part_8(m).dom().contains("DropSchemaStatementSegment"@),
        ansi_library_part_8(m)["DropSchemaStatementSegment"@] == m["DropSchemaStatementSegment"@],
{
    reveal_strlit("DropSchemaStatementSegment");
    reveal_strlit("AggregateOrderByClause");
    assert("DropSchemaStatementSegment"@.len() != "AggregateOrderByClause"@.len());
    reveal_strlit("ArrayExpressionSegment");
    assert("DropSchemaStatementSegment"@.len() != "ArrayExpressionSegment"@.len());
    reveal_strlit("BitwiseAndSegment");
    assert("DropSchemaStatementSegment"@.len() != "BitwiseAndSegment"@.len());
    reveal_strlit("BitwiseLShiftSegment");
    assert("DropSchemaStatementSegment"@.len() != "BitwiseLShiftSegment"@.len());
    reveal_strlit("BitwiseOrSegment");
    assert("DropSchemaStatementSegment"@.len() != "BitwiseOrSegment"@.len());
    reveal_strlit("BitwiseRShiftSegment");
    assert("DropSchemaStatementSegment"@.len() != "BitwiseRShiftSegment"@.len());
    reveal_strlit("ConcatSegment");
    assert("DropSchemaStatementSegment"@.len() != "ConcatSegment"@.len());
    reveal_strlit("CreateUserStatementSegment");
    assert("DropSchemaStatementSegment"@[0] != "CreateUserStatementSegment"@[0]);
    reveal_strlit("DropTableStatementSegment");
    assert("DropSchemaStatementSegment"@.len() != "DropTableStatementSegment"@.len());
    reveal_strlit("DropUserStatementSegment");
    assert("DropSchemaStatementSegment"@.len() != "DropUserStatementSegment"@.len());
    reveal_strlit("DropViewStatementSegment");
    assert("DropSchemaStatementSegment"@.len() != "DropViewStatementSegment"@.len());
    reveal_strlit("ElseClauseSegment");
    assert("DropSchemaStatementSegment"@.len() != "ElseClauseSegment"@.len());
    reveal_strlit("EqualsSegment");
    assert("DropSchemaStatementSegment"@.len() != "EqualsSegment"@.len());
    reveal_strlit("FunctionNameSegment");
    assert("DropSchemaStatementSegment"@.len() != "FunctionNameSegment"@.len());
    reveal_strlit("GreaterThanOrEqualToSegment");
    assert("DropSchemaStatementSegment"@.len() != "GreaterThanOrEqualToSegment"@.len());
    reveal_strlit("GreaterThanSegment");
    assert("DropSchemaStatementSegment"@.len() != "GreaterThanSegment"@.len());
    reveal_strlit("IndexColumnDefinitionSegment");
    assert("DropSchemaStatementSegment"@.len() != "IndexColumnDefinitionSegment"@.len());
    reveal_strlit("LessThanOrEqualToSegment");
    assert("DropSchemaStatementSegment"@.len() != "LessThanOrEqualToSegment"@.len());
    reveal_strlit("LessThanSegment");
    assert("DropSchemaStatementSegment"@.len() != "LessThanSegment"@.len());
    reveal_strlit("LocalAliasSegment");
    assert("DropSchemaStatementSegment"@.len() != "LocalAliasSegment"@.len());
    reveal_strlit("MergeStatementSegment");
    assert("DropSchemaStatementSegment"@.len() != "MergeStatementSegment"@.len());
    reveal_strlit("NotEqualToSegment");
    assert("DropSchemaStatementSegment"@.len() != "NotEqualToSegment"@.len());
    reveal_strlit("QualifiedNumericLiteralSegment");
    assert("DropSchemaStatementSegment"@.len() != "QualifiedNumericLiteralSegment"@.len());
    reveal_strlit("WhenClauseSegment");
    assert("DropSchemaStatementSegment"@.len() != "WhenClauseSegment"@.len());
    reveal_strlit("WhereClauseSegment");
    assert("DropSchemaStatementSegment"@.len() != "WhereClauseSegment"@.len());
}

proof fn lemma_part_9_keeps_drop_schema_statement_segment(m: Map<Seq<char>, ElementView>)
    requires
        m.dom().contains("DropSchemaStatementSegment"@),
    ensures
        ansi_library_part_9(m).dom().contains("DropSchemaStatementSegment"@),
        ansi_library_part_9(m)["DropSchemaStatementSegment"@] == m["DropSchemaStatementSegment"@],
{
    reveal_strlit("DropSchemaStatementSegment");
    reveal_strlit("AliasExpressionSegment");
    assert("DropSchemaStatementSegment"@.len() != "AliasExpressionSegment"@.len());
    reveal_strlit("ArrayAccessorSegment");
    assert("DropSchemaStatementSegment"@.len() != "ArrayAccessorSegment"@.len());
    reveal_strlit("ArrayLiteralSegment");
    assert("DropSchemaStatementSegment"@.len() != "ArrayLiteralSegment"@.len());
    reveal_strlit("ArrayTypeSegment");
    assert("DropSchemaStatementSegment"@.len() != "ArrayTypeSegment"@.len());
    reveal_strlit("BracketedArguments");
    assert("DropSchemaStatementSegment"@.len() != "BracketedArguments"@.len());
    reveal_strlit("DatatypeSegment");
    assert("DropSchemaStatementSegment"@.len() != "DatatypeSegment"@.len());
    reveal_strlit("EmptyStructLiteralSegment");
    assert("DropSchemaStatementSegment"@.len() != "EmptyStructLiteralSegment"@.len());
    reveal_strlit("IntervalExpressionSegment");
    assert("DropSchemaStatementSegment"@.len() != "IntervalExpressionSegment"@.len());
    reveal_strlit("ObjectLiteralElementSegment");
    assert("DropSchemaStatementSegment"@.len() != "ObjectLiteralElementSegment"@.len());
    reveal_strlit("ObjectLiteralSegment");
    assert("DropSchemaStatementSegment"@.len() != "ObjectLiteralSegment"@.len());
    reveal_strlit("OverlapsClauseSegment");
    assert("DropSchemaStatementSegment"@.len() != "OverlapsClauseSegment"@.len());
    reveal_strlit("SelectClauseSegment");
    assert("DropSchemaStatementSegment"@.len() != "SelectClauseSegment"@.len());
    reveal_strlit("SetOperatorSegment");
    assert("DropSchemaStatementSegment"@.len() != "SetOperatorSegment"@.len());
    reveal_strlit("ShorthandCastSegment");
    assert("DropSchemaStatementSegment"@.len() != "ShorthandCastSegment"@.len());
    reveal_strlit("SizedArrayTypeSegment");
    assert("DropSchemaStatementSegment"@.len() != "SizedArrayTypeSegment"@.len());
    reveal_strlit("StatementSegment");
    assert("DropSchemaStatementSegment"@.len() != "StatementSegment"@.len());
    reveal_strlit("StructLiteralSegment");
    assert("DropSchemaStatementSegment"@.len() != "StructLiteralSegment"@.len());
    reveal_strlit("StructTypeSegment");
    assert("DropSchemaStatementSegment"@.len() != "StructTypeSegment"@.len());
    reveal_strlit("TimeZoneGrammar");
    assert("DropSchemaStatementSegment"@.len() != "TimeZoneGrammar"@.len());
    reveal_strlit("TypedArrayLiteralSegment");
    assert("DropSchemaStatementSegment"@.len() != "TypedArrayLiteralSegment"@.len());
    reveal_strlit("TypedStructLiteralSegment");
    assert("DropSchemaStatementSegment"@.len() != "TypedStructLiteralSegment"@.len());
    reveal_strlit("UnorderedSelectStatementSegment");
    assert("DropSchemaStatementSegment"@.len() != "UnorderedSelectStatementSegment"@.len());
    reveal_strlit("ValuesClauseSegment");
    assert("DropSchemaStatementSegment"@.len() != "ValuesClauseSegment"@.len());
    reveal_strlit("WithDataClauseSegment");
    assert("DropSchemaStatementSegment"@.len() != "WithDataClauseSegment"@.len());
    reveal_strlit("WithNoSchemaBindingClauseSegment");
    assert("DropSchemaStatementSegment"@.len() != "WithNoSchemaBindingClauseSegment"@.len());
}

proof fn lemma_part_10_keeps_drop_schema_statement_segment(m: Map<Seq<char>, ElementView>)
    requires
        m.dom().contains("DropSchemaStatementSegment"@),
    ensures
        ansi_library_part_10(m).dom().contains("DropSchemaStatementSegment"@),
        ansi_library_part_10(m)["DropSchemaStatementSegment"@] == m["DropSchemaStatementSegment"@],
{
    reveal_strlit("DropSchemaStatementSegment");
    reveal_strlit("AccessStatementSegmentGrantRoleWithOptionGrammar");
    assert("DropSchemaStatementSegment"@.len() != "AccessStatementSegmentGrantRoleWithOptionGrammar"@.len());
    reveal_strlit("AliasedTableReferenceGrammar");
    assert("DropSchemaStatementSegment"@.len() != "AliasedTableReferenceGrammar"@.len());
    reveal_strlit("CharCharacterSetGrammar");
    assert("DropSchemaStatementSegment"@.len() != "CharCharacterSetGrammar"@.len());
    reveal_strlit("CreateSchemaStatementSegment");
    assert("DropSchemaStatementSegment"@.len() != "CreateSchemaStatementSegment"@.len());
    reveal_strlit("DatePartFunctionNameSegment");
    assert("DropSchemaStatementSegment"@.len() != "DatePartFunctionNameSegment"@.len());
    reveal_strlit("EmptyStructLiteralBracketsSegment");
    assert("DropSchemaStatementSegment"@.len() != "EmptyStructLiteralBracketsSegment"@.len());
    reveal_strlit("Expression_A_Grammar");
    assert("DropSchemaStatementSegment"@.len() != "Expression_A_Grammar"@.len());
    reveal_strlit("Expression_A_Unary_Operator_Grammar");
    assert("DropSchemaStatementSegment"@.len() != "Expression_A_Unary_Operator_Grammar"@.len());
    reveal_strlit("Expression_B_Unary_Operator_Grammar");
    assert("DropSchemaStatementSegment"@.len() != "Expression_B_Unary_Operator_Grammar"@.len());
    reveal_strlit("FromClauseSegment");
    assert("DropSchemaStatementSegment"@.len() != "FromClauseSegment"@.len());
    reveal_strlit("FromExpressionSegment");
    assert("DropSchemaStatementSegment"@.len() != "FromExpressionSegment"@.len());
    reveal_strlit("FunctionContentsExpressionGrammar");
    assert("DropSchemaStatementSegment"@.len() != "FunctionContentsExpressionGrammar"@.len());
    reveal_strlit("FunctionContentsGrammar");
    assert("DropSchemaStatementSegment"@.len() != "FunctionContentsGrammar"@.len());
    reveal_strlit("FunctionContentsSegment");
    assert("DropSchemaStatementSegment"@.len() != "FunctionContentsSegment"@.len());
    reveal_strlit("JoinLikeClauseGrammar");
    assert("DropSchemaStatementSegment"@.len() != "JoinLikeClauseGrammar"@.len());
    reveal_strlit("OrderByClauseSegment");
    assert("DropSchemaStatementSegment"@.len() != "OrderByClauseSegment"@.len());
    reveal_strlit("PostFunctionGrammar");
    assert("DropSchemaStatementSegment"@.len() != "PostFunctionGrammar"@.len());
    reveal_strlit("SelectClauseElementSegment");
    assert("DropSchemaStatementSegment"@[0] != "SelectClauseElementSegment"@[0]);
    reveal_strlit("SelectClauseModifierSegment");
    assert("DropSchemaStatementSegment"@.len() != "SelectClauseModifierSegment"@.len());
    reveal_strlit("SelectStatementSegment");
    assert("DropSchemaStatementSegment"@.len() != "SelectStatementSegment"@.len());
    reveal_strlit("SetExpressionSegment");
    assert("DropSchemaStatementSegment"@.len() != "SetExpressionSegment"@.len());
    reveal_strlit("Tail_Recurse_Expression_A_Grammar");
    assert("DropSchemaStatementSegment"@.len() != "Tail_Recurse_Expression_A_Grammar"@.len());
    reveal_strlit("Tail_Recurse_Expression_B_Grammar");
    assert("DropSchemaStatementSegment"@.len() != "Tail_Recurse_Expression_B_Grammar"@.len());
    reveal_strlit("TruncateStatementSegment");
    assert("DropSchemaStatementSegment"@.len() != "TruncateStatementSegment"@.len());
    reveal_strlit("WildcardExpressionSegment");
    assert("DropSchemaStatementSegment"@.len() != "WildcardExpressionSegment"@.len());
}

proof fn lemma_part_11_keeps_drop_schema_statement_segment(m: Map<Seq<char>, ElementView>)
    requires
        m.dom().contains("DropSchemaStatementSegment"@),
    ensures
        ansi_library_part_11(m).dom().contains("DropSchemaStatementSegment"@),
        ansi_library_part_11(m)["DropSchemaStatementSegment"@] == m["DropSchemaStatementSegment"@],
{
    reveal_strlit("DropSchemaStatementSegment");
    reveal_strlit("AccessorGrammar");
    assert("DropSchemaStatementSegment"@.len() != "AccessorGrammar"@.len());
    reveal_strlit("Expression_B_Grammar");
    assert("DropSchemaStatementSegment"@.len() != "Expression_B_Grammar"@.len());
    reveal_strlit("Expression_C_Grammar");
    assert("DropSchemaStatementSegment"@.len() != "Expression_C_Grammar"@.len());
    reveal_strlit("Expression_D_Grammar");
    assert("DropSchemaStatementSegment"@.len() != "Expression_D_Grammar"@.len());
    reveal_strlit("NonSetSelectableGrammar");
    assert("DropSchemaStatementSegment"@.len() != "NonSetSelectableGrammar"@.len());
    reveal_strlit("NonWithNonSelectableGrammar");
    assert("DropSchemaStatementSegment"@.len() != "NonWithNonSelectableGrammar"@.len());
    reveal_strlit("NonWithSelectableGrammar");
    assert("DropSchemaStatementSegment"@.len() != "NonWithSelectableGrammar"@.len());
    reveal_strlit("PostTableExpressionGrammar");
    assert("DropSchemaStatementSegment"@[0] != "PostTableExpressionGrammar"@[0]);
    reveal_strlit("SelectableGrammar");
    assert("DropSchemaStatementSegment"@.len() != "SelectableGrammar"@.len());
    reveal_strlit("TimeWithTZGrammar");
    assert("DropSchemaStatementSegment"@.len() != "TimeWithTZGrammar"@.len());
}

/// The ANSI library holds `DropSchemaStatementSegment`: the value of its last entry of that name.
pub proof fn lemma_ansi_library_drop_schema_statement_segment(lib: Map<Seq<char>, ElementView>)
    ensures
        ansi_library(lib).dom().contains("DropSchemaStatementSegment"@),
        ansi_library(lib)["DropSchemaStatementSegment"@] == drop_schema_statement_segment_element(),
{
    reveal(ansi_library);
    let m0 = lib;
    let m1 = ansi_library_part_0(m0);
    let m2 = ansi_library_part_1(m1);
    let m3 = ansi_library_part_2(m2);
    let m4 = ansi_library_part_3(m3);
    let m5 = ansi_library_part_4(m4);
    let m6 = ansi_library_part_5(m5);
    let m7 = ansi_library_part_6(m6);
    let m8 = ansi_library_part_7(m7);
    let m9 = ansi_library_part_8(m8);
    let m10 = ansi_library_part_9(m9);
    let m11 = ansi_library_part_10(m10);
    let m12 = ansi_library_part_11(m11);
    lemma_part_7_sets_drop_schema_statement_segment(m7);
    lemma_part_8_keeps_drop_schema_statement_segment(m8);
    lemma_part_9_keeps_drop_schema_statement_segment(m9);
    lemma_part_10_keeps_drop_schema_statement_segment(m10);
    lemma_part_11_keeps_drop_schema_statement_segment(m11);
}

proof fn lemma_part_2_sets_like_grammar(m: Map<Seq<char>, ElementView>)
    ensures
        ansi_library_part_2(m).dom().contains("LikeGrammar"@),
        ansi_library_part_2(m)["LikeGrammar"@] == like_grammar_element(),
{
    reveal_strlit("LikeGrammar");
    reveal_strlit("InOperatorGrammar");
    assert("LikeGrammar"@.len() != "InOperatorGrammar"@.len());
    reveal_strlit("IsClauseGrammar");
    assert("LikeGrammar"@.len() != "IsClauseGrammar"@.len());
    reveal_strlit("UnionGrammar");
    assert("LikeGrammar"@.len() != "UnionGrammar"@.len());
}

proof fn lemma_part_3_keeps_like_grammar(m: Map<Seq<char>, ElementView>)
    requires
        m.dom().contains("LikeGrammar"@),
    ensures
        ansi_library_part_3(m).dom().contains("LikeGrammar"@),
        ansi_library_part_3(m)["LikeGrammar"@] == m["LikeGrammar"@],
{
    reveal_strlit("LikeGrammar");
    reveal_strlit("AutoIncrementGrammar");
    assert("LikeGrammar"@.len() != "AutoIncrementGrammar"@.len());
    reveal_strlit("BaseExpressionElementGrammar");
    assert("LikeGrammar"@.len() != "BaseExpressionElementGrammar"@.len());
    reveal_strlit("CollateGrammar");
    assert("LikeGrammar"@.len() != "CollateGrammar"@.len());
    reveal_strlit("DropBehaviorGrammar");
    assert("LikeGrammar"@.len() != "DropBehaviorGrammar"@.len());
    reveal_strlit("ExtendedNaturalJoinKeywordsGrammar");
    assert("LikeGrammar"@.len() != "ExtendedNaturalJoinKeywordsGrammar"@.len());
    reveal_strlit("FilterClauseGrammar");
    assert("LikeGrammar"@.len() != "FilterClauseGrammar"@.len());
    reveal_strlit("ForeignKeyGrammar");
    assert("LikeGrammar"@.len() != "ForeignKeyGrammar"@.len());
    reveal_strlit("FrameClauseUnitGrammar");
    assert("LikeGrammar"@.len() != "FrameClauseUnitGrammar"@.len());
    reveal_strlit("FromClauseTerminatorGrammar");
    assert("LikeGrammar"@.len() != "FromClauseTerminatorGrammar"@.len());
    reveal_strlit("FunctionParameterGrammar");
    assert("LikeGrammar"@.len() != "FunctionParameterGrammar"@.len());
    reveal_strlit("GroupByClauseTerminatorGrammar");
    assert("LikeGrammar"@.len() != "GroupByClauseTerminatorGrammar"@.len());
    reveal_strlit("HavingClauseTerminatorGrammar");
    assert("LikeGrammar"@.len() != "HavingClauseTerminatorGrammar"@.len());
    reveal_strlit("IgnoreRespectNullsGrammar");
    assert("LikeGrammar"@.len() != "IgnoreRespectNullsGrammar"@.len());
    reveal_strlit("IsNullGrammar");
    assert("LikeGrammar"@.len() != "IsNullGrammar"@.len());
    reveal_strlit("JoinKeywordsGrammar");
    assert("LikeGrammar"@.len() != "JoinKeywordsGrammar"@.len());
    reveal_strlit("JoinTypeKeywordsGrammar");
    assert("LikeGrammar"@.len() != "JoinTypeKeywordsGrammar"@.len());
    reveal_strlit("NaturalJoinKeywordsGrammar");
    assert("LikeGrammar"@.len() != "NaturalJoinKeywordsGrammar"@.len());
    reveal_strlit("NestedJoinGrammar");
    assert("LikeGrammar"@.len() != "NestedJoinGrammar"@.len());
    reveal_strlit("NotNullGrammar");
    assert("LikeGrammar"@.len() != "NotNullGrammar"@.len());
    reveal_strlit("OrderByClauseTerminators");
    assert("LikeGrammar"@.len() != "OrderByClauseTerminators"@.len());
    reveal_strlit("PrimaryKeyGrammar");
    assert("LikeGrammar"@.len() != "PrimaryKeyGrammar"@.len());
    reveal_strlit("ReferentialActionGrammar");
    assert("LikeGrammar"@.len() != "ReferentialActionGrammar"@.len());
    reveal_strlit("SelectClauseTerminatorGrammar");
    assert("LikeGrammar"@.len() != "SelectClauseTerminatorGrammar"@.len());
    reveal_strlit("UniqueKeyGrammar");
    assert("LikeGrammar"@.len() != "UniqueKeyGrammar"@.len());
    reveal_strlit("WhereClauseTerminatorGrammar");
    assert("LikeGrammar"@.len() != "WhereClauseTerminatorGrammar"@.len());
}

proof fn lemma_part_4_keeps_like_grammar(m: Map<Seq<char>, ElementView>)
    requires
        m.dom().contains("LikeGrammar"@),
    ensures
        ansi_library_part_4(m).dom().contains("LikeGrammar"@),
        ansi_library_part_4(m)["LikeGrammar"@] == m["LikeGrammar"@],
{
    reveal_strlit("LikeGrammar");
    reveal_strlit("AlterTableDropColumnGrammar");
    assert("LikeGrammar"@.len() != "AlterTableDropColumnGrammar"@.len());
    reveal_strlit("AlterTableOptionsGrammar");
    assert("LikeGrammar"@.len() != "AlterTableOptionsGrammar"@.len());
    reveal_strlit("ColumnConstraintDefaultGrammar");
    assert("LikeGrammar"@.len() != "ColumnConstraintDefaultGrammar"@.len());
    reveal_strlit("ColumnReferenceSegment");
    assert("LikeGrammar"@.len() != "ColumnReferenceSegment"@.len());
    reveal_strlit("CubeFunctionNameSegment");
    assert("LikeGrammar"@.len() != "CubeFunctionNameSegment"@.len());
    reveal_strlit("CubeRollupClauseSegment");
    assert("LikeGrammar"@.len() != "CubeRollupClauseSegment"@.len());
    reveal_strlit("DateTimeFunctionContentsSegment");
    assert("LikeGrammar"@.len() != "DateTimeFunctionContentsSegment"@.len());
    reveal_strlit("DefaultValuesGrammar");
    assert("LikeGrammar"@.len() != "DefaultValuesGrammar"@.len());
    reveal_strlit("ExpressionSegment");
    assert("LikeGrammar"@.len() != "ExpressionSegment"@.len());
    reveal_strlit("FetchClauseSegment");
    assert("LikeGrammar"@.len() != "FetchClauseSegment"@.len());
    reveal_strlit("FileSegment");
    assert("LikeGrammar"@[0] != "FileSegment"@[0]);
    reveal_strlit("FunctionSegment");
    assert("LikeGrammar"@.len() != "FunctionSegment"@.len());
    reveal_strlit("GroupingExpressionList");
    assert("LikeGrammar"@.len() != "GroupingExpressionList"@.len());
    reveal_strlit("GroupingSetsClauseSegment");
    assert("LikeGrammar"@.len() != "GroupingSetsClauseSegment"@.len());
    reveal_strlit("HavingClauseSegment");
    assert("LikeGrammar"@.len() != "HavingClauseSegment"@.len());
    reveal_strlit("LimitClauseSegment");
    assert("LikeGrammar"@.len() != "LimitClauseSegment"@.len());
    reveal_strlit("NamedWindowExpressionSegment");
    assert("LikeGrammar"@.len() != "NamedWindowExpressionSegment"@.len());
    reveal_strlit("ObjectReferenceDelimiterGrammar");
    assert("LikeGrammar"@.len() != "ObjectReferenceDelimiterGrammar"@.len());
    reveal_strlit("ObjectReferenceTerminatorGrammar");
    assert("LikeGrammar"@.len() != "ObjectReferenceTerminatorGrammar"@.len());
    reveal_strlit("PathSegment");
    assert("LikeGrammar"@[0] != "PathSegment"@[0]);
    reveal_strlit("ReferenceDefinitionGrammar");
    assert("LikeGrammar"@.len() != "ReferenceDefinitionGrammar"@.len());
    reveal_strlit("RollupFunctionNameSegment");
    assert("LikeGrammar"@.len() != "RollupFunctionNameSegment"@.len());
    reveal_strlit("SetClauseSegment");
    assert("LikeGrammar"@.len() != "SetClauseSegment"@.len());
    reveal_strlit("TrimParametersGrammar");
    assert("LikeGrammar"@.len() != "TrimParametersGrammar"@.len());
    reveal_strlit("WildcardIdentifierSegment");
    assert("LikeGrammar"@.len() != "WildcardIdentifierSegment"@.len());
}

proof fn lemma_part_5_keeps_like_grammar(m: Map<Seq<char>, ElementView>)
    requires
        m.dom().contains("LikeGrammar"@),
    ensures
        ansi_library_part_5(m).dom().contains("LikeGrammar"@),
        ansi_library_part_5(m)["LikeGrammar"@] == m["LikeGrammar"@],
{
    reveal_strlit("LikeGrammar");
    reveal_strlit("AlterSequenceOptionsSegment");
    assert("LikeGrammar"@.len() != "AlterSequenceOptionsSegment"@.len());
    reveal_strlit("CTEColumnList");
    assert("LikeGrammar"@.len() != "CTEColumnList"@.len());
    reveal_strlit("CTEDefinitionSegment");
    assert("LikeGrammar"@.len() != "CTEDefinitionSegment"@.len());
    reveal_strlit("ColumnConstraintSegment");
    assert("LikeGrammar"@.len() != "ColumnConstraintSegment"@.len());
    reveal_strlit("ColumnDefinitionSegment");
    assert("LikeGrammar"@.len() != "ColumnDefinitionSegment"@.len());
    reveal_strlit("CommentClauseSegment");
    assert("LikeGrammar"@.len() != "CommentClauseSegment"@.len());
    reveal_strlit("ExtensionReferenceSegment");
    assert("LikeGrammar"@.len() != "ExtensionReferenceSegment"@.len());
    reveal_strlit("FrameClauseSegment");
    assert("LikeGrammar"@.len() != "FrameClauseSegment"@.len());
    reveal_strlit("FunctionDefinitionGrammar");
    assert("LikeGrammar"@.len() != "FunctionDefinitionGrammar"@.len());
    reveal_strlit("GroupByClauseSegment");
    assert("LikeGrammar"@.len() != "GroupByClauseSegment"@.len());
    reveal_strlit("MergeDeleteClauseSegment");
    assert("LikeGrammar"@.len() != "MergeDeleteClauseSegment"@.len());
    reveal_strlit("MergeInsertClauseSegment");
    assert("LikeGrammar"@.len() != "MergeInsertClauseSegment"@.len());
    reveal_strlit("MergeMatchSegment");
    assert("LikeGrammar"@.len() != "MergeMatchSegment"@.len());
    reveal_strlit("MergeMatchedClauseSegment");
    assert("LikeGrammar"@.len() != "MergeMatchedClauseSegment"@.len());
    reveal_strlit("MergeNotMatchedClauseSegment");
    assert("LikeGrammar"@.len() != "MergeNotMatchedClauseSegment"@.len());
    reveal_strlit("MergeUpdateClauseSegment");
    assert("LikeGrammar"@.len() != "MergeUpdateClauseSegment"@.len());
    reveal_strlit("RoleReferenceSegment");
    assert("LikeGrammar"@.len() != "RoleReferenceSegment"@.len());
    reveal_strlit("SchemaReferenceSegment");
    assert("LikeGrammar"@.len() != "SchemaReferenceSegment"@.len());
    reveal_strlit("SetClauseListSegment");
    assert("LikeGrammar"@.len() != "SetClauseListSegment"@.len());
    reveal_strlit("SingleIdentifierListSegment");
    assert("LikeGrammar"@.len() != "SingleIdentifierListSegment"@.len());
    reveal_strlit("TableEndClauseSegment");
    assert("LikeGrammar"@.len() != "TableEndClauseSegment"@.len());
    reveal_strlit("TablespaceReferenceSegment");
    assert("LikeGrammar"@.len() != "TablespaceReferenceSegment"@.len());
    reveal_strlit("TagReferenceSegment");
    assert("LikeGrammar"@.len() != "TagReferenceSegment"@.len());
    reveal_strlit("WithCompoundNonSelectStatementSegment");
    assert("LikeGrammar"@.len() != "WithCompoundNonSelectStatementSegment"@.len());
    reveal_strlit("WithCompoundStatementSegment");
    assert("LikeGrammar"@.len() != "WithCompoundStatementSegment"@.len());
}

proof fn lemma_part_6_keeps_like_grammar(m: Map<Seq<char>, ElementView>)
    requires
        m.dom().contains("LikeGrammar"@),
    ensures
        ansi_library_part_6(m).dom().contains("LikeGrammar"@),
        ansi_library_part_6(m)["LikeGrammar"@] == m["LikeGrammar"@],
{
    reveal_strlit("LikeGrammar");
    reveal_strlit("CollationReferenceSegment");
    assert("LikeGrammar"@.len() != "CollationReferenceSegment"@.len());
    reveal_strlit("CreateSequenceOptionsSegment");
    assert("LikeGrammar"@.len() != "CreateSequenceOptionsSegment"@.len());
    reveal_strlit("CreateSequenceStatementSegment");
    assert("LikeGrammar"@.len() != "CreateSequenceStatementSegment"@.len());
    reveal_strlit("CreateTriggerStatementSegment");
    assert("LikeGrammar"@.len() != "CreateTriggerStatementSegment"@.len());
    reveal_strlit("DatabaseReferenceSegment");
    assert("LikeGrammar"@.len() != "DatabaseReferenceSegment"@.len());
    reveal_strlit("DescribeStatementSegment");
    assert("LikeGrammar"@.len() != "DescribeStatementSegment"@.len());
    reveal_strlit("DropModelStatementSegment");
    assert("LikeGrammar"@.len() != "DropModelStatementSegment"@.len());
    reveal_strlit("DropTriggerStatementSegment");
    assert("LikeGrammar"@.len() != "DropTriggerStatementSegment"@.len());
    reveal_strlit("ExplainStatementSegment");
    assert("LikeGrammar"@.len() != "ExplainStatementSegment"@.len());
    reveal_strlit("IndexReferenceSegment");
    assert("LikeGrammar"@.len() != "IndexReferenceSegment"@.len());
    reveal_strlit("JoinClauseSegment");
    assert("LikeGrammar"@.len() != "JoinClauseSegment"@.len());
    reveal_strlit("JoinOnConditionSegment");
    assert("LikeGrammar"@.len() != "JoinOnConditionSegment"@.len());
    reveal_strlit("NamedWindowSegment");
    assert("LikeGrammar"@.len() != "NamedWindowSegment"@.len());
    reveal_strlit("OverClauseSegment");
    assert("LikeGrammar"@.len() != "OverClauseSegment"@.len());
    reveal_strlit("PartitionClauseSegment");
    assert("LikeGrammar"@.len() != "PartitionClauseSegment"@.len());
    reveal_strlit("SamplingExpressionSegment");
    assert("LikeGrammar"@.len() != "SamplingExpressionSegment"@.len());
    reveal_strlit("SequenceReferenceSegment");
    assert("LikeGrammar"@.len() != "SequenceReferenceSegment"@.len());
    reveal_strlit("TableConstraintSegment");
    assert("LikeGrammar"@.len() != "TableConstraintSegment"@.len());
    reveal_strlit("TableExpressionSegment");
    assert("LikeGrammar"@.len() != "TableExpressionSegment"@.len());
    reveal_strlit("TriggerReferenceSegment");
    assert("LikeGrammar"@.len() != "TriggerReferenceSegment"@.len());
    reveal_strlit("UseStatementSegment");
    assert("LikeGrammar"@.len() != "UseStatementSegment"@.len());
    reveal_strlit("WindowSpecificationSegment");
    assert("LikeGrammar"@.len() != "WindowSpecificationSegment"@.len());
}

proof fn lemma_part_7_keeps_like_grammar(m: Map<Seq<char>, ElementView>)
    requires
        m.dom().contains("LikeGrammar"@),
    ensures
        ansi_library_part_7(m).dom().contains("LikeGrammar"@),
        ansi_library_part_7(m)["LikeGrammar"@] == m["LikeGrammar"@],
{
    reveal_strlit("LikeGrammar");
    reveal_strlit("AccessStatementSegment");
    assert("LikeGrammar"@.len() != "AccessStatementSegment"@.len());
    reveal_strlit("AlterSequenceStatementSegment");
    assert("LikeGrammar"@.len() != "AlterSequenceStatementSegment"@.len());
    reveal_strlit("AlterTableStatementSegment");
    assert("LikeGrammar"@.len() != "AlterTableStatementSegment"@.len());
    reveal_strlit("CreateCastStatementSegment");
    assert("LikeGrammar"@.len() != "CreateCastStatementSegment"@.len());
    reveal_strlit("CreateDatabaseStatementSegment");
    assert("LikeGrammar"@.len() != "CreateDatabaseStatementSegment"@.len());
    reveal_strlit("CreateFunctionStatementSegment");
    assert("LikeGrammar"@.len() != "CreateFunctionStatementSegment"@.len());
    reveal_strlit("CreateIndexStatementSegment");
    assert("LikeGrammar"@.len() != "CreateIndexStatementSegment"@.len());
    reveal_strlit("CreateModelStatementSegment");
    assert("LikeGrammar"@.len() != "CreateModelStatementSegment"@.len());
    reveal_strlit("CreateRoleStatementSegment");
    assert("LikeGrammar"@.len() != "CreateRoleStatementSegment"@.len());
    reveal_strlit("CreateTableStatementSegment");
    assert("LikeGrammar"@.len() != "CreateTableStatementSegment"@.len());
    reveal_strlit("CreateViewStatementSegment");
    assert("LikeGrammar"@.len() != "CreateViewStatementSegment"@.len());
    reveal_strlit("DeleteStatementSegment");
    assert("LikeGrammar"@.len() != "DeleteStatementSegment"@.len());
    reveal_strlit("DropCastStatementSegment");
    assert("LikeGrammar"@.len() != "DropCastStatementSegment"@.len());
    reveal_strlit("DropDatabaseStatementSegment");
    assert("LikeGrammar"@.len() != "DropDatabaseStatementSegment"@.len());
    reveal_strlit("DropFunctionStatementSegment");
    assert("LikeGrammar"@.len() != "DropFunctionStatementSegment"@.len());
    reveal_strlit("DropIndexStatementSegment");
    assert("LikeGrammar"@.len() != "DropIndexStatementSegment"@.len());
    reveal_strlit("DropRoleStatementSegment");
    assert("LikeGrammar"@.len() != "DropRoleStatementSegment"@.len());
    reveal_strlit("DropSchemaStatementSegment");
    assert("LikeGrammar"@.len() != "DropSchemaStatementSegment"@.len());
    reveal_strlit("DropSequenceStatementSegment");
    assert("LikeGrammar"@.len() != "DropSequenceStatementSegment"@.len());
    reveal_strlit("DropTypeStatementSegment");
    assert("LikeGrammar"@.len() != "DropTypeStatementSegment"@.len());
    reveal_strlit("FunctionParameterListGrammar");
    assert("LikeGrammar"@.len() != "FunctionParameterListGrammar"@.len());
    reveal_strlit("InsertStatementSegment");
    assert("LikeGrammar"@.len() != "InsertStatementSegment"@.len());
    reveal_strlit("SetSchemaStatementSegment");
    assert("LikeGrammar"@.len() != "SetSchemaStatementSegment"@.len());
    reveal_strlit("TransactionStatementSegment");
    assert("LikeGrammar"@.len() != "TransactionStatementSegment"@.len());
    reveal_strlit("UpdateStatementSegment");
    assert("LikeGrammar"@.len() != "UpdateStatementSegment"@.len());
}

proof fn lemma_part_8_keeps_like_grammar(m: Map<Seq<char>, ElementView>)
    requires
        m.dom().contains("LikeGrammar"@),
    ensures
        ansi_library_part_8(m).dom().contains("LikeGrammar"@),
        ansi_library_part_8(m)["LikeGrammar"@] == m["LikeGrammar"@],
{
    reveal_strlit("LikeGrammar");
    reveal_strlit("AggregateOrderByClause");
    assert("LikeGrammar"@.len() != "AggregateOrderByClause"@.len());
    reveal_strlit("ArrayExpressionSegment");
    assert("LikeGrammar"@.len() != "ArrayExpressionSegment"@.len());
    reveal_strlit("BitwiseAndSegment");
    assert("LikeGrammar"@.len() != "BitwiseAndSegment"@.len());
    reveal_strlit("BitwiseLShiftSegment");
    assert("LikeGrammar"@.len() != "BitwiseLShiftSegment"@.len());
    reveal_strlit("BitwiseOrSegment");
    assert("LikeGrammar"@.len() != "BitwiseOrSegment"@.len());
    reveal_strlit("BitwiseRShiftSegment");
    assert("LikeGrammar"@.len() != "BitwiseRShiftSegment"@.len());
    reveal_strlit("ConcatSegment");
    assert("LikeGrammar"@.len() != "ConcatSegment"@.len());
    reveal_strlit("CreateUserStatementSegment");
    assert("LikeGrammar"@.len() != "CreateUserStatementSegment"@.len());
    reveal_strlit("DropTableStatementSegment");
    assert("LikeGrammar"@.len() != "DropTableStatementSegment"@.len());
    reveal_strlit("DropUserStatementSegment");
    assert("LikeGrammar"@.len() != "DropUserStatementSegment"@.len());
    reveal_strlit("DropViewStatementSegment");
    assert("LikeGrammar"@.len() != "DropViewStatementSegment"@.len());
    reveal_strlit("ElseClauseSegment");
    assert("LikeGrammar"@.len() != "ElseClauseSegment"@.len());
    reveal_strlit("EqualsSegment");
    assert("LikeGrammar"@.len() != "EqualsSegment"@.len());
    reveal_strlit("FunctionNameSegment");
    assert("LikeGrammar"@.len() != "FunctionNameSegment"@.len());
    reveal_strlit("GreaterThanOrEqualToSegment");
    assert("LikeGrammar"@.len() != "GreaterThanOrEqualToSegment"@.len());
    reveal_strlit("GreaterThanSegment");
    assert("LikeGrammar"@.len() != "GreaterThanSegment"@.len());
    reveal_strlit("IndexColumnDefinitionSegment");
    assert("LikeGrammar"@.len() != "IndexColumnDefinitionSegment"@.len());
    reveal_strlit("LessThanOrEqualToSegment");
    assert("LikeGrammar"@.len() != "LessThanOrEqualToSegment"@.len());
    reveal_strlit("LessThanSegment");
    assert("LikeGrammar"@.len() != "LessThanSegment"@.len());
    reveal_strlit("LocalAliasSegment");
    assert("LikeGrammar"@.len() != "LocalAliasSegment"@.len());
    reveal_strlit("MergeStatementSegment");
    assert("LikeGrammar"@.len() != "MergeStatementSegment"@.len());
    reveal_strlit("NotEqualToSegment");
    assert("LikeGrammar"@.len() != "NotEqualToSegment"@.len());
    reveal_strlit("QualifiedNumericLiteralSegment");
    assert("LikeGrammar"@.len() != "QualifiedNumericLiteralSegment"@.len());
    reveal_strlit("WhenClauseSegment");
    assert("LikeGrammar"@.len() != "WhenClauseSegment"@.len());
    reveal_strlit("WhereClauseSegment");
    assert("LikeGrammar"@.len() != "WhereClauseSegment"@.len());
}

proof fn lemma_part_9_keeps_like_grammar(m: Map<Seq<char>, ElementView>)
    requires
        m.dom().contains("LikeGrammar"@),
    ensures
        ansi_library_part_9(m).dom().contains("LikeGrammar"@),
        ansi_library_part_9(m)["LikeGrammar"@] == m["LikeGrammar"@],
{
    reveal_strlit("LikeGrammar");
    reveal_strlit("AliasExpressionSegment");
    assert("LikeGrammar"@.len() != "AliasExpressionSegment"@.len());
    reveal_strlit("ArrayAccessorSegment");
    assert("LikeGrammar"@.len() != "ArrayAccessorSegment"@.len());
    reveal_strlit("ArrayLiteralSegment");
    assert("LikeGrammar"@.len() != "ArrayLiteralSegment"@.len());
    reveal_strlit("ArrayTypeSegment");
    assert("LikeGrammar"@.len() != "ArrayTypeSegment"@.len());
    reveal_strlit("BracketedArguments");
    assert("LikeGrammar"@.len() != "BracketedArguments"@.len());
    reveal_strlit("DatatypeSegment");
    assert("LikeGrammar"@.len() != "DatatypeSegment"@.len());
    reveal_strlit("EmptyStructLiteralSegment");
    assert("LikeGrammar"@.len() != "EmptyStructLiteralSegment"@.len());
    reveal_strlit("IntervalExpressionSegment");
    assert("LikeGrammar"@.len() != "IntervalExpressionSegment"@.len());
    reveal_strlit("ObjectLiteralElementSegment");
    assert("LikeGrammar"@.len() != "ObjectLiteralElementSegment"@.len());
    reveal_strlit("ObjectLiteralSegment");
    assert("LikeGrammar"@.len() != "ObjectLiteralSegment"@.len());
    reveal_strlit("OverlapsClauseSegment");
    assert("LikeGrammar"@.len() != "OverlapsClauseSegment"@.len());
    reveal_strlit("SelectClauseSegment");
    assert("LikeGrammar"@.len() != "SelectClauseSegment"@.len());
    reveal_strlit("SetOperatorSegment");
    assert("LikeGrammar"@.len() != "SetOperatorSegment"@.len());
    reveal_strlit("ShorthandCastSegment");
    assert("LikeGrammar"@.len() != "ShorthandCastSegment"@.len());
    reveal_strlit("SizedArrayTypeSegment");
    assert("LikeGrammar"@.len() != "SizedArrayTypeSegment"@.len());
    reveal_strlit("StatementSegment");
    assert("LikeGrammar"@.len() != "StatementSegment"@.len());
    reveal_strlit("StructLiteralSegment");
    assert("LikeGrammar"@.len() != "StructLiteralSegment"@.len());
    reveal_strlit("StructTypeSegment");
    assert("LikeGrammar"@.len() != "StructTypeSegment"@.len());
    reveal_strlit("TimeZoneGrammar");
    assert("LikeGrammar"@.len() != "TimeZoneGrammar"@.len());
    reveal_strlit("TypedArrayLiteralSegment");
    assert("LikeGrammar"@.len() != "TypedArrayLiteralSegment"@.len());
    reveal_strlit("TypedStructLiteralSegment");
    assert("LikeGrammar"@.len() != "TypedStructLiteralSegment"@.len());
    reveal_strlit("UnorderedSelectStatementSegment");
    assert("LikeGrammar"@.len() != "UnorderedSelectStatementSegment"@.len());
    reveal_strlit("ValuesClauseSegment");
    assert("LikeGrammar"@.len() != "ValuesClauseSegment"@.len());
    reveal_strlit("WithDataClauseSegment");
    assert("LikeGrammar"@.len() != "WithDataClauseSegment"@.len());
    reveal_strlit("WithNoSchemaBindingClauseSegment");
    assert("LikeGrammar"@.len() != "WithNoSchemaBindingClauseSegment"@.len());
}

proof fn lemma_part_10_keeps_like_grammar(m: Map<Seq<char>, ElementView>)
    requires
        m.dom().contains("LikeGrammar"@),
    ensures
        ansi_library_part_10(m).dom().contains("LikeGrammar"@),
        ansi_library_part_10(m)["LikeGrammar"@] == m["LikeGrammar"@],
{
    reveal_strlit("LikeGrammar");
    reveal_strlit("AccessStatementSegmentGrantRoleWithOptionGrammar");
    assert("LikeGrammar"@.len() != "AccessStatementSegmentGrantRoleWithOptionGrammar"@.len());
    reveal_strlit("AliasedTableReferenceGrammar");
    assert("LikeGrammar"@.len() != "AliasedTableReferenceGrammar"@.len());
    reveal_strlit("CharCharacterSetGrammar");
    assert("LikeGrammar"@.len() != "CharCharacterSetGrammar"@.len());
    reveal_strlit("CreateSchemaStatementSegment");
    assert("LikeGrammar"@.len() != "CreateSchemaStatementSegment"@.len());
    reveal_strlit("DatePartFunctionNameSegment");
    assert("LikeGrammar"@.len() != "DatePartFunctionNameSegment"@.len());
    reveal_strlit("EmptyStructLiteralBracketsSegment");
    assert("LikeGrammar"@.len() != "EmptyStructLiteralBracketsSegment"@.len());
    reveal_strlit("Expression_A_Grammar");
    assert("LikeGrammar"@.len() != "Expression_A_Grammar"@.len());
    reveal_strlit("Expression_A_Unary_Operator_Grammar");
    assert("LikeGrammar"@.len() != "Expression_A_Unary_Operator_Grammar"@.len());
    reveal_strlit("Expression_B_Unary_Operator_Grammar");
    assert("LikeGrammar"@.len() != "Expression_B_Unary_Operator_Grammar"@.len());
    reveal_strlit("FromClauseSegment");
    assert("LikeGrammar"@.len() != "FromClauseSegment"@.len());
    reveal_strlit("FromExpressionSegment");
    assert("LikeGrammar"@.len() != "FromExpressionSegment"@.len());
    reveal_strlit("FunctionContentsExpressionGrammar");
    assert("LikeGrammar"@.len() != "FunctionContentsExpressionGrammar"@.len());
    reveal_strlit("FunctionContentsGrammar");
    assert("LikeGrammar"@.len() != "FunctionContentsGrammar"@.len());
    reveal_strlit("FunctionContentsSegment");
    assert("LikeGrammar"@.len() != "FunctionContentsSegment"@.len());
    reveal_strlit("JoinLikeClauseGrammar");
    assert("LikeGrammar"@.len() != "JoinLikeClauseGrammar"@.len());
    reveal_strlit("OrderByClauseSegment");
    assert("LikeGrammar"@.len() != "OrderByClauseSegment"@.len());
    reveal_strlit("PostFunctionGrammar");
    assert("LikeGrammar"@.len() != "PostFunctionGrammar"@.len());
    reveal_strlit("SelectClauseElementSegment");
    assert("LikeGrammar"@.len() != "SelectClauseElementSegment"@.len());
    reveal_strlit("SelectClauseModifierSegment");
    assert("LikeGrammar"@.len() != "SelectClauseModifierSegment"@.len());
    reveal_strlit("SelectStatementSegment");
    assert("LikeGrammar"@.len() != "SelectStatementSegment"@.len());
    reveal_strlit("SetExpressionSegment");
    assert("LikeGrammar"@.len() != "SetExpressionSegment"@.len());
    reveal_strlit("Tail_Recurse_Expression_A_Grammar");
    assert("LikeGrammar"@.len() != "Tail_Recurse_Expression_A_Grammar"@.len());
    reveal_strlit("Tail_Recurse_Expression_B_Grammar");
    assert("LikeGrammar"@.len() != "Tail_Recurse_Expression_B_Grammar"@.len());
    reveal_strlit("TruncateStatementSegment");
    assert("LikeGrammar"@.len() != "TruncateStatementSegment"@.len());
    reveal_strlit("WildcardExpressionSegment");
    assert("LikeGrammar"@.len() != "WildcardExpressionSegment"@.len());
}

proof fn lemma_part_11_keeps_like_grammar(m: Map<Seq<char>, ElementView>)
    requires
        m.dom().contains("LikeGrammar"@),
    ensures
        ansi_library_part_11(m).dom().contains("LikeGrammar"@),
        ansi_library_part_11(m)["LikeGrammar"@] == m["LikeGrammar"@],
{
    reveal_strlit("LikeGrammar");
    reveal_strlit("AccessorGrammar");
    assert("LikeGrammar"@.len() != "AccessorGrammar"@.len());
    reveal_strlit("Expression_B_Grammar");
    assert("LikeGrammar"@.len() != "Expression_B_Grammar"@.len());
    reveal_strlit("Expression_C_Grammar");
    assert("LikeGrammar"@.len() != "Expression_C_Grammar"@.len());
    reveal_strlit("Expression_D_Grammar");
    assert("LikeGrammar"@.len() != "Expression_D_Grammar"@.len());
    reveal_strlit("NonSetSelectableGrammar");
    assert("LikeGrammar"@.len() != "NonSetSelectableGrammar"@.len());
    reveal_strlit("NonWithNonSelectableGrammar");
    assert("LikeGrammar"@.len() != "NonWithNonSelectableGrammar"@.len());
    reveal_strlit("NonWithSelectableGrammar");
    assert("LikeGrammar"@.len() != "NonWithSelectableGrammar"@.len());
    reveal_strlit("PostTableExpressionGrammar");
    assert("LikeGrammar"@.len() != "PostTableExpressionGrammar"@.len());
    reveal_strlit("SelectableGrammar");
    assert("LikeGrammar"@.len() != "SelectableGrammar"@.len());
    reveal_strlit("TimeWithTZGrammar");
    assert("LikeGrammar"@.len() != "TimeWithTZGrammar"@.len());
}

/// The ANSI library holds `LikeGrammar`: the value of its last entry of that name.
pub proof fn lemma_ansi_library_like_grammar(lib: Map<Seq<char>, ElementView>)
    ensures
        ansi_library(lib).dom().contains("LikeGrammar"@),
        ansi_library(lib)["LikeGrammar"@] == like_grammar_element(),
{
    reveal(ansi_library);
    let m0 = lib;
    let m1 = ansi_library_part_0(m0);
    let m2 = ansi_library_part_1(m1);
    let m3 = ansi_library_part_2(m2);
    let m4 = ansi_library_part_3(m3);
    let m5 = ansi_library_part_4(m4);
    let m6 = ansi_library_part_5(m5);
    let m7 = ansi_library_part_6(m6);
    let m8 = ansi_library_part_7(m7);
    let m9 = ansi_library_part_8(m8);
    let m10 = ansi_library_part_9(m9);
    let m11 = ansi_library_part_10(m10);
    let m12 = ansi_library_part_11(m11);
    lemma_part_2_sets_like_grammar(m2);
    lemma_part_3_keeps_like_grammar(m3);
    lemma_part_4_keeps_like_grammar(m4);
    lemma_part_5_keeps_like_grammar(m5);
    lemma_part_6_keeps_like_grammar(m6);
    lemma_part_7_keeps_like_grammar(m7);
    lemma_part_8_keeps_like_grammar(m8);
    lemma_part_9_keeps_like_grammar(m9);
    lemma_part_10_keeps_like_grammar(m10);
    lemma_part_11_keeps_like_grammar(m11);
}

proof fn lemma_part_10_sets_select_clause_modifier_segment(m: Map<Seq<char>, ElementView>)
    ensures
        ansi_library_part_10(m).dom().contains("SelectClauseModifierSegment"@),
        ansi_library_part_10(m)["SelectClauseModifierSegment"@] == select_clause_modifier_segment_element(),
{
    reveal_strlit("SelectClauseModifierSegment");
    reveal_strlit("AccessStatementSegmentGrantRoleWithOptionGrammar");
    assert("SelectClauseModifierSegment"@.len() != "AccessStatementSegmentGrantRoleWithOptionGrammar"@.len());
    reveal_strlit("AliasedTableReferenceGrammar");
    assert("SelectClauseModifierSegment"@.len() != "AliasedTableReferenceGrammar"@.len());
    reveal_strlit("CharCharacterSetGrammar");
    assert("SelectClauseModifierSegment"@.len() != "CharCharacterSetGrammar"@.len());
    reveal_strlit("Expression_A_Grammar");
    assert("SelectClauseModifierSegment"@.len() != "Expression_A_Grammar"@.len());
    reveal_strlit("Expression_A_Unary_Operator_Grammar");
    assert("SelectClauseModifierSegment"@.len() != "Expression_A_Unary_Operator_Grammar"@.len());
    reveal_strlit("Expression_B_Unary_Operator_Grammar");
    assert("SelectClauseModifierSegment"@.len() != "Expression_B_Unary_Operator_Grammar"@.len());
    reveal_strlit("FunctionContentsExpressionGrammar");
    assert("SelectClauseModifierSegment"@.len() != "FunctionContentsExpressionGrammar"@.len());
    reveal_strlit("FunctionContentsGrammar");
    assert("SelectClauseModifierSegment"@.len() != "FunctionContentsGrammar"@.len());
    reveal_strlit("FunctionContentsSegment");
    assert("SelectClauseModifierSegment"@.len() != "FunctionContentsSegment"@.len());
    reveal_strlit("JoinLikeClauseGrammar");
    assert("SelectClauseModifierSegment"@.len() != "JoinLikeClauseGrammar"@.len());
    reveal_strlit("PostFunctionGrammar");
    assert("SelectClauseModifierSegment"@.len() != "PostFunctionGrammar"@.len());
    reveal_strlit("SelectClauseElementSegment");
    assert("SelectClauseModifierSegment"@.len() != "SelectClauseElementSegment"@.len());
    reveal_strlit("Tail_Recurse_Expression_A_Grammar");
    assert("SelectClauseModifierSegment"@.len() != "Tail_Recurse_Expression_A_Grammar"@.len());
    reveal_strlit("Tail_Recurse_Expression_B_Grammar");
    assert("SelectClauseModifierSegment"@.len() != "Tail_Recurse_Expression_B_Grammar"@.len());
}

proof fn lemma_part_11_keeps_select_clause_modifier_segment(m: Map<Seq<char>, ElementView>)
    requires
        m.dom().contains("SelectClauseModifierSegment"@),
    ensures
        ansi_library_part_11(m).dom().contains("SelectClauseModifierSegment"@),
        ansi_library_part_11(m)["SelectClauseModifierSegment"@] == m["SelectClauseModifierSegment"@],
{
    reveal_strlit("SelectClauseModifierSegment");
    reveal_strlit("AccessorGrammar");
    assert("SelectClauseModifierSegment"@.len() != "AccessorGrammar"@.len());
    reveal_strlit("Expression_B_Grammar");
    assert("SelectClauseModifierSegment"@.len() != "Expression_B_Grammar"@.len());
    reveal_strlit("Expression_C_Grammar");
    assert("SelectClauseModifierSegment"@.len() != "Expression_C_Grammar"@.len());
    reveal_strlit("Expression_D_Grammar");
    assert("SelectClauseModifierSegment"@.len() != "Expression_D_Grammar"@.len());
    reveal_strlit("NonSetSelectableGrammar");
    assert("SelectClauseModifierSegment"@.len() != "NonSetSelectableGrammar"@.len());
    reveal_strlit("NonWithNonSelectableGrammar");
    assert("SelectClauseModifierSegment"@[0] != "NonWithNonSelectableGrammar"@[0]);
    reveal_strlit("NonWithSelectableGrammar");
    assert("SelectClauseModifierSegment"@.len() != "NonWithSelectableGrammar"@.len());
    reveal_strlit("PostTableExpressionGrammar");
    assert("SelectClauseModifierSegment"@.len() != "PostTableExpressionGrammar"@.len());
    reveal_strlit("SelectableGrammar");
    assert("SelectClauseModifierSegment"@.len() != "SelectableGrammar"@.len());
    reveal_strlit("TimeWithTZGrammar");
    assert("SelectClauseModifierSegment"@.len() != "TimeWithTZGrammar"@.len());
}

/// The ANSI library holds `SelectClauseModifierSegment`: the value of its last entry of that name.
pub proof fn lemma_ansi_library_select_clause_modifier_segment(lib: Map<Seq<char>, ElementView>)
    ensures
        ansi_library(lib).dom().contains("SelectClauseModifierSegment"@),
        ansi_library(lib)["SelectClauseModifierSegment"@] == select_clause_modifier_segment_element(),
{
    reveal(ansi_library);
    let m0 = lib;
    let m1 = ansi_library_part_0(m0);
    let m2 = ansi_library_part_1(m1);
    let m3 = ansi_library_part_2(m2);
    let m4 = ansi_library_part_3(m3);
    let m5 = ansi_library_part_4(m4);
    let m6 = ansi_library_part_5(m5);
    let m7 = ansi_library_part_6(m6);
    let m8 = ansi_library_part_7(m7);
    let m9 = ansi_library_part_8(m8);
    let m10 = ansi_library_part_9(m9);
    let m11 = ansi_library_part_10(m10);
    let m12 = ansi_library_part_11(m11);
    lemma_part_10_sets_select_clause_modifier_segment(m10);
    lemma_part_11_keeps_select_clause_modifier_segment(m11);
}

proof fn lemma_part_8_sets_else_clause_segment(m: Map<Seq<char>, ElementView>)
    ensures
        ansi_library_part_8(m).dom().contains("ElseClauseSegment"@),
        ansi_library_part_8(m)["ElseClauseSegment"@] == else_clause_segment_element(),
{
    reveal_strlit("ElseClauseSegment");
    reveal_strlit("WhereClauseSegment");
    assert("ElseClauseSegment"@.len() != "WhereClauseSegment"@.len());
}

proof fn lemma_part_9_keeps_else_clause_segment(m: Map<Seq<char>, ElementView>)
    requires
        m.dom().contains("ElseClauseSegment"@),
    ensures
        ansi_library_part_9(m).dom().contains("ElseClauseSegment"@),
        ansi_library_part_9(m)["ElseClauseSegment"@] == m["ElseClauseSegment"@],
{
    reveal_strlit("ElseClauseSegment");
    reveal_strlit("AliasExpressionSegment");
    assert("ElseClauseSegment"@.len() != "AliasExpressionSegment"@.len());
    reveal_strlit("ArrayAccessorSegment");
    assert("ElseClauseSegment"@.len() != "ArrayAccessorSegment"@.len());
    reveal_strlit("ArrayLiteralSegment");
    assert("ElseClauseSegment"@.len() != "ArrayLiteralSegment"@.len());
    reveal_strlit("ArrayTypeSegment");
    assert("ElseClauseSegment"@.len() != "ArrayTypeSegment"@.len());
    reveal_strlit("BracketedArguments");
    assert("ElseClauseSegment"@.len() != "BracketedArguments"@.len());
    reveal_strlit("DatatypeSegment");
    assert("ElseClauseSegment"@.len() != "DatatypeSegment"@.len());
    reveal_strlit("EmptyStructLiteralSegment");
    assert("ElseClauseSegment"@.len() != "EmptyStructLiteralSegment"@.len());
    reveal_strlit("IntervalExpressionSegment");
    assert("ElseClauseSegment"@.len() != "IntervalExpressionSegment"@.len());
    reveal_strlit("ObjectLiteralElementSegment");
    assert("ElseClauseSegment"@.len() != "ObjectLiteralElementSegment"@.len());
    reveal_strlit("ObjectLiteralSegment");
    assert("ElseClauseSegment"@.len() != "ObjectLiteralSegment"@.len());
    reveal_strlit("OverlapsClauseSegment");
    assert("ElseClauseSegment"@.len() != "OverlapsClauseSegment"@.len());
    reveal_strlit("SelectClauseSegment");
    assert("ElseClauseSegment"@.len() != "SelectClauseSegment"@.len());
    reveal_strlit("SetOperatorSegment");
    assert("ElseClauseSegment"@.len() != "SetOperatorSegment"@.len());
    reveal_strlit("ShorthandCastSegment");
    assert("ElseClauseSegment"@.len() != "ShorthandCastSegment"@.len());
    reveal_strlit("SizedArrayTypeSegment");
    assert("ElseClauseSegment"@.len() != "SizedArrayTypeSegment"@.len());
    reveal_strlit("StatementSegment");
    assert("ElseClauseSegment"@.len() != "StatementSegment"@.len());
    reveal_strlit("StructLiteralSegment");
    assert("ElseClauseSegment"@.len() != "StructLiteralSegment"@.len());
    reveal_strlit("StructTypeSegment");
    assert("ElseClauseSegment"@[0] != "StructTypeSegment"@[0]);
    reveal_strlit("TimeZoneGrammar");
    assert("ElseClauseSegment"@.len() != "TimeZoneGrammar"@.len());
    reveal_strlit("TypedArrayLiteralSegment");
    assert("ElseClauseSegment"@.len() != "TypedArrayLiteralSegment"@.len());
    reveal_strlit("TypedStructLiteralSegment");
    assert("ElseClauseSegment"@.len() != "TypedStructLiteralSegment"@.len());
    reveal_strlit("UnorderedSelectStatementSegment");
    assert("ElseClauseSegment"@.len() != "UnorderedSelectStatementSegment"@.len());
    reveal_strlit("ValuesClauseSegment");
    assert("ElseClauseSegment"@.len() != "ValuesClauseSegment"@.len());
    reveal_strlit("WithDataClauseSegment");
    assert("ElseClauseSegment"@.len() != "WithDataClauseSegment"@.len());
    reveal_strlit("WithNoSchemaBindingClauseSegment");
    assert("ElseClauseSegment"@.len() != "WithNoSchemaBindingClauseSegment"@.len());
}

proof fn lemma_part_10_keeps_else_clause_segment(m: Map<Seq<char>, ElementView>)
    requires
        m.dom().contains("ElseClauseSegment"@),
    ensures
        ansi_library_part_10(m).dom().contains("ElseClauseSegment"@),
        ansi_library_part_10(m)["ElseClauseSegment"@] == m["ElseClauseSegment"@],
{
    reveal_strlit("ElseClauseSegment");
    reveal_strlit("AccessStatementSegmentGrantRoleWithOptionGrammar");
    assert("ElseClauseSegment"@.len() != "AccessStatementSegmentGrantRoleWithOptionGrammar"@.len());
    reveal_strlit("AliasedTableReferenceGrammar");
    assert("ElseClauseSegment"@.len() != "AliasedTableReferenceGrammar"@.len());
    reveal_strlit("CharCharacterSetGrammar");
    assert("ElseClauseSegment"@.len() != "CharCharacterSetGrammar"@.len());
    reveal_strlit("CreateSchemaStatementSegment");
    assert("ElseClauseSegment"@.len() != "CreateSchemaStatementSegment"@.len());
    reveal_strlit("DatePartFunctionNameSegment");
    assert("ElseClauseSegment"@.len() != "DatePartFunctionNameSegment"@.len());
    reveal_strlit("EmptyStructLiteralBracketsSegment");
    assert("ElseClauseSegment"@.len() != "EmptyStructLiteralBracketsSegment"@.len());
    reveal_strlit("Expression_A_Grammar");
    assert("ElseClauseSegment"@.len() != "Expression_A_Grammar"@.len());
    reveal_strlit("Expression_A_Unary_Operator_Grammar");
    assert("ElseClauseSegment"@.len() != "Expression_A_Unary_Operator_Grammar"@.len());
    reveal_strlit("Expression_B_Unary_Operator_Grammar");
    assert("ElseClauseSegment"@.len() != "Expression_B_Unary_Operator_Grammar"@.len());
    reveal_strlit("FromClauseSegment");
    assert("ElseClauseSegment"@[0] != "FromClauseSegment"@[0]);
    reveal_strlit("FromExpressionSegment");
    assert("ElseClauseSegment"@.len() != "FromExpressionSegment"@.len());
    reveal_strlit("FunctionContentsExpressionGrammar");
    assert("ElseClauseSegment"@.len() != "FunctionContentsExpressionGrammar"@.len());
    reveal_strlit("FunctionContentsGrammar");
    assert("ElseClauseSegment"@.len() != "FunctionContentsGrammar"@.len());
    reveal_strlit("FunctionContentsSegment");
    assert("ElseClauseSegment"@.len() != "FunctionContentsSegment"@.len());
    reveal_strlit("JoinLikeClauseGrammar");
    assert("ElseClauseSegment"@.len() != "JoinLikeClauseGrammar"@.len());
    reveal_strlit("OrderByClauseSegment");
    assert("ElseClauseSegment"@.len() != "OrderByClauseSegment"@.len());
    reveal_strlit("PostFunctionGrammar");
    assert("ElseClauseSegment"@.len() != "PostFunctionGrammar"@.len());
    reveal_strlit("SelectClauseElementSegment");
    assert("ElseClauseSegment"@.len() != "SelectClauseElementSegment"@.len());
    reveal_strlit("SelectClauseModifierSegment");
    assert("ElseClauseSegment"@.len() != "SelectClauseModifierSegment"@.len());
    reveal_strlit("SelectStatementSegment");
    assert("ElseClauseSegment"@.len() != "SelectStatementSegment"@.len());
    reveal_strlit("SetExpressionSegment");
    assert("ElseClauseSegment"@.len() != "SetExpressionSegment"@.len());
    reveal_strlit("Tail_Recurse_Expression_A_Grammar");
    assert("ElseClauseSegment"@.len() != "Tail_Recurse_Expression_A_Grammar"@.len());
    reveal_strlit("Tail_Recurse_Expression_B_Grammar");
    assert("ElseClauseSegment"@.len() != "Tail_Recurse_Expression_B_Grammar"@.len());
    reveal_strlit("TruncateStatementSegment");
    assert("ElseClauseSegment"@.len() != "TruncateStatementSegment"@.len());
    reveal_strlit("WildcardExpressionSegment");
    assert("ElseClauseSegment"@.len() != "WildcardExpressionSegment"@.len());
}

proof fn lemma_part_11_keeps_else_clause_segment(m: Map<Seq<char>, ElementView>)
    requires
        m.dom().contains("ElseClauseSegment"@),
    ensures
        ansi_library_part_11(m).dom().contains("ElseClauseSegment"@),
        ansi_library_part_11(m)["ElseClauseSegment"@] == m["ElseClauseSegment"@],
{
    reveal_strlit("ElseClauseSegment");
    reveal_strlit("AccessorGrammar");
    assert("ElseClauseSegment"@.len() != "AccessorGrammar"@.len());
    reveal_strlit("Expression_B_Grammar");
    assert("ElseClauseSegment"@.len() != "Expression_B_Grammar"@.len());
    reveal_strlit("Expression_C_Grammar");
    assert("ElseClauseSegment"@.len() != "Expression_C_Grammar"@.len());
    reveal_strlit("Expression_D_Grammar");
    assert("ElseClauseSegment"@.len() != "Expression_D_Grammar"@.len());
    reveal_strlit("NonSetSelectableGrammar");
    assert("ElseClauseSegment"@.len() != "NonSetSelectableGrammar"@.len());
    reveal_strlit("NonWithNonSelectableGrammar");
    assert("ElseClauseSegment"@.len() != "NonWithNonSelectableGrammar"@.len());
    reveal_strlit("NonWithSelectableGrammar");
    assert("ElseClauseSegment"@.len() != "NonWithSelectableGrammar"@.len());
    reveal_strlit("PostTableExpressionGrammar");
    assert("ElseClauseSegment"@.len() != "PostTableExpressionGrammar"@.len());
    reveal_strlit("SelectableGrammar");
    assert("ElseClauseSegment"@[0] != "SelectableGrammar"@[0]);
    reveal_strlit("TimeWithTZGrammar");
    assert("ElseClauseSegment"@[0] != "TimeWithTZGrammar"@[0]);
}

/// The ANSI library holds `ElseClauseSegment`: the value of its last entry of that name.
pub proof fn lemma_ansi_library_else_clause_segment(lib: Map<Seq<char>, ElementView>)
    ensures
        ansi_library(lib).dom().contains("ElseClauseSegment"@),
        ansi_library(lib)["ElseClauseSegment"@] == else_clause_segment_element(),
{
    reveal(ansi_library);
    let m0 = lib;
    let m1 = ansi_library_part_0(m0);
    let m2 = ansi_library_part_1(m1);
    let m3 = ansi_library_part_2(m2);
    let m4 = ansi_library_part_3(m3);
    let m5 = ansi_library_part_4(m4);
    let m6 = ansi_library_part_5(m5);
    let m7 = ansi_library_part_6(m6);
    let m8 = ansi_library_part_7(m7);
    let m9 = ansi_library_part_8(m8);
    let m10 = ansi_library_part_9(m9);
    let m11 = ansi_library_part_10(m10);
    let m12 = ansi_library_part_11(m11);
    lemma_part_8_sets_else_clause_segment(m8);
    lemma_part_9_keeps_else_clause_segment(m9);
    lemma_part_10_keeps_else_clause_segment(m10);
    lemma_part_11_keeps_else_clause_segment(m11);
}

proof fn lemma_part_4_sets_fetch_clause_segment(m: Map<Seq<char>, ElementView>)
    ensures
        ansi_library_part_4(m).dom().contains("FetchClauseSegment"@),
        ansi_library_part_4(m)["FetchClauseSegment"@] == fetch_clause_segment_element(),
{
    reveal_strlit("FetchClauseSegment");
}

proof fn lemma_part_5_keeps_fetch_clause_segment(m: Map<Seq<char>, ElementView>)
    requires
        m.dom().contains("FetchClauseSegment"@),
    ensures
        ansi_library_part_5(m).dom().contains("FetchClauseSegment"@),
        ansi_library_part_5(m)["FetchClauseSegment"@] == m["FetchClauseSegment"@],
{
    reveal_strlit("FetchClauseSegment");
    reveal_strlit("AlterSequenceOptionsSegment");
    assert("FetchClauseSegment"@.len() != "AlterSequenceOptionsSegment"@.len());
    reveal_strlit("CTEColumnList");
    assert("FetchClauseSegment"@.len() != "CTEColumnList"@.len());
    reveal_strlit("CTEDefinitionSegment");
    assert("FetchClauseSegment"@.len() != "CTEDefinitionSegment"@.len());
    reveal_strlit("ColumnConstraintSegment");
    assert("FetchClauseSegment"@.len() != "ColumnConstraintSegment"@.len());
    reveal_strlit("ColumnDefinitionSegment");
    assert("FetchClauseSegment"@.len() != "ColumnDefinitionSegment"@.len());
    reveal_strlit("CommentClauseSegment");
    assert("FetchClauseSegment"@.len() != "CommentClauseSegment"@.len());
    reveal_strlit("ExtensionReferenceSegment");
    assert("FetchClauseSegment"@.len() != "ExtensionReferenceSegment"@.len());
    reveal_strlit("FrameClauseSegment");
    assert("FetchClauseSegment"@[1] != "FrameClauseSegment"@[1]);
    reveal_strlit("FunctionDefinitionGrammar");
    assert("FetchClauseSegment"@.len() != "FunctionDefinitionGrammar"@.len());
    reveal_strlit("GroupByClauseSegment");
    assert("FetchClauseSegment"@.len() != "GroupByClauseSegment"@.len());
    reveal_strlit("MergeDeleteClauseSegment");
    assert("FetchClauseSegment"@.len() != "MergeDeleteClauseSegment"@.len());
    reveal_strlit("MergeInsertClauseSegment");
    assert("FetchClauseSegment"@.len() != "MergeInsertClauseSegment"@.len());
    reveal_strlit("MergeMatchSegment");
    assert("FetchClauseSegment"@.len() != "MergeMatchSegment"@.len());
    reveal_strlit("MergeMatchedClauseSegment");
    assert("FetchClauseSegment"@.len() != "MergeMatchedClauseSegment"@.len());
    reveal_strlit("MergeNotMatchedClauseSegment");
    assert("FetchClauseSegment"@.len() != "MergeNotMatchedClauseSegment"@.len());
    reveal_strlit("MergeUpdateClauseSegment");
    assert("FetchClauseSegment"@.len() != "MergeUpdateClauseSegment"@.len());
    reveal_strlit("RoleReferenceSegment");
    assert("FetchClauseSegment"@.len() != "RoleReferenceSegment"@.len());
    reveal_strlit("SchemaReferenceSegment");
    assert("FetchClauseSegment"@.len() != "SchemaReferenceSegment"@.len());
    reveal_strlit("SetClauseListSegment");
    assert("FetchClauseSegment"@.len() != "SetClauseListSegment"@.len());
    reveal_strlit("SingleIdentifierListSegment");
    assert("FetchClauseSegment"@.len() != "SingleIdentifierListSegment"@.len());
    reveal_strlit("TableEndClauseSegment");
    assert("FetchClauseSegment"@.len() != "TableEndClauseSegment"@.len());
    reveal_strlit("TablespaceReferenceSegment");
    assert("FetchClauseSegment"@.len() != "TablespaceReferenceSegment"@.len());
    reveal_strlit("TagReferenceSegment");
    assert("FetchClauseSegment"@.len() != "TagReferenceSegment"@.len());
    reveal_strlit("WithCompoundNonSelectStatementSegment");
    assert("FetchClauseSegment"@.len() != "WithCompoundNonSelectStatementSegment"@.len());
    reveal_strlit("WithCompoundStatementSegment");
    assert("FetchClauseSegment"@.len() != "WithCompoundStatementSegment"@.len());
}

proof fn lemma_part_6_keeps_fetch_clause_segment(m: Map<Seq<char>, ElementView>)
    requires
        m.dom().contains("FetchClauseSegment"@),
    ensures
        ansi_library_part_6(m).dom().contains("FetchClauseSegment"@),
        ansi_library_part_6(m)["FetchClauseSegment"@] == m["FetchClauseSegment"@],
{
    reveal_strlit("FetchClauseSegment");
    reveal_strlit("CollationReferenceSegment");
    assert("FetchClauseSegment"@.len() != "CollationReferenceSegment"@.len());
    reveal_strlit("CreateSequenceOptionsSegment");
    assert("FetchClauseSegment"@.len() != "CreateSequenceOptionsSegment"@.len());
    reveal_strlit("CreateSequenceStatementSegment");
    assert("FetchClauseSegment"@.len() != "CreateSequenceStatementSegment"@.len());
    reveal_strlit("CreateTriggerStatementSegment");
    assert("FetchClauseSegment"@.len() != "CreateTriggerStatementSegment"@.len());
    reveal_strlit("DatabaseReferenceSegment");
    assert("FetchClauseSegment"@.len() != "DatabaseReferenceSegment"@.len());
    reveal_strlit("DescribeStatementSegment");
    assert("FetchClauseSegment"@.len() != "DescribeStatementSegment"@.len());
    reveal_strlit("DropModelStatementSegment");
    assert("FetchClauseSegment"@.len() != "DropModelStatementSegment"@.len());
    reveal_strlit("DropTriggerStatementSegment");
    assert("FetchClauseSegment"@.len() != "DropTriggerStatementSegment"@.len());
    reveal_strlit("ExplainStatementSegment");
    assert("FetchClauseSegment"@.len() != "ExplainStatementSegment"@.len());
    reveal_strlit("IndexReferenceSegment");
    assert("FetchClauseSegment"@.len() != "IndexReferenceSegment"@.len());
    reveal_strlit("JoinClauseSegment");
    assert("FetchClauseSegment"@.len() != "JoinClauseSegment"@.len());
    reveal_strlit("JoinOnConditionSegment");
    assert("FetchClauseSegment"@.len() != "JoinOnConditionSegment"@.len());
    reveal_strlit("NamedWindowSegment");
    assert("FetchClauseSegment"@[0] != "NamedWindowSegment"@[0]);
    reveal_strlit("OverClauseSegment");
    assert("FetchClauseSegment"@.len() != "OverClauseSegment"@.len());
    reveal_strlit("PartitionClauseSegment");
    assert("FetchClauseSegment"@.len() != "PartitionClauseSegment"@.len());
    reveal_strlit("SamplingExpressionSegment");
    assert("FetchClauseSegment"@.len() != "SamplingExpressionSegment"@.len());
    reveal_strlit("SequenceReferenceSegment");
    assert("FetchClauseSegment"@.len() != "SequenceReferenceSegment"@.len());
    reveal_strlit("TableConstraintSegment");
    assert("FetchClauseSegment"@.len() != "TableConstraintSegment"@.len());
    reveal_strlit("TableExpressionSegment");
    assert("FetchClauseSegment"@.len() != "TableExpressionSegment"@.len());
    reveal_strlit("TriggerReferenceSegment");
    assert("FetchClauseSegment"@.len() != "TriggerReferenceSegment"@.len());
    reveal_strlit("UseStatementSegment");
    assert("FetchClauseSegment"@.len() != "UseStatementSegment"@.len());
    reveal_strlit("WindowSpecificationSegment");
    assert("FetchClauseSegment"@.len() != "WindowSpecificationSegment"@.len());
}

proof fn lemma_part_7_keeps_fetch_clause_segment(m: Map<Seq<char>, ElementView>)
    requires
        m.dom().contains("FetchClauseSegment"@),
    ensures
        ansi_library_part_7(m).dom().contains("FetchClauseSegment"@),
        ansi_library_part_7(m)["FetchClauseSegment"@] == m["FetchClauseSegment"@],
{
    reveal_strlit("FetchClauseSegment");
    reveal_strlit("AccessStatementSegment");
    assert("FetchClauseSegment"@.len() != "AccessStatementSegment"@.len());
    reveal_strlit("AlterSequenceStatementSegment");
    assert("FetchClauseSegment"@.len() != "AlterSequenceStatementSegment"@.len());
    reveal_strlit("AlterTableStatementSegment");
    assert("FetchClauseSegment"@.len() != "AlterTableStatementSegment"@.len());
    reveal_strlit("CreateCastStatementSegment");
    assert("FetchClauseSegment"@.len() != "CreateCastStatementSegment"@.len());
    reveal_strlit("CreateDatabaseStatementSegment");
    assert("FetchClauseSegment"@.len() != "CreateDatabaseStatementSegment"@.len());
    reveal_strlit("CreateFunctionStatementSegment");
    assert("FetchClauseSegment"@.len() != "CreateFunctionStatementSegment"@.len());
    reveal_strlit("CreateIndexStatementSegment");
    assert("FetchClauseSegment"@.len() != "CreateIndexStatementSegment"@.len());
    reveal_strlit("CreateModelStatementSegment");
    assert("FetchClauseSegment"@.len() != "CreateModelStatementSegment"@.len());
    reveal_strlit("CreateRoleStatementSegment");
    assert("FetchClauseSegment"@.len() != "CreateRoleStatementSegment"@.len());
    reveal_strlit("CreateTableStatementSegment");
    assert("FetchClauseSegment"@.len() != "CreateTableStatementSegment"@.len());
    reveal_strlit("CreateViewStatementSegment");
    assert("FetchClauseSegment"@.len() != "CreateViewStatementSegment"@.len());
    reveal_strlit("DeleteStatementSegment");
    assert("FetchClauseSegment"@.len() != "DeleteStatementSegment"@.len());
    reveal_strlit("DropCastStatementSegment");
    assert("FetchClauseSegment"@.len() != "DropCastStatementSegment"@.len());
    reveal_strlit("DropDatabaseStatementSegment");
    assert("FetchClauseSegment"@.len() != "DropDatabaseStatementSegment"@.len());
    reveal_strlit("DropFunctionStatementSegment");
    assert("FetchClauseSegment"@.len() != "DropFunctionStatementSegment"@.len());
    reveal_strlit("DropIndexStatementSegment");
    assert("FetchClauseSegment"@.len() != "DropIndexStatementSegment"@.len());
    reveal_strlit("DropRoleStatementSegment");
    assert("FetchClauseSegment"@.len() != "DropRoleStatementSegment"@.len());
    reveal_strlit("DropSchemaStatementSegment");
    assert("FetchClauseSegment"@.len() != "DropSchemaStatementSegment"@.len());
    reveal_strlit("DropSequenceStatementSegment");
    assert("FetchClauseSegment"@.len() != "DropSequenceStatementSegment"@.len());
    reveal_strlit("DropTypeStatementSegment");
    assert("FetchClauseSegment"@.len() != "DropTypeStatementSegment"@.len());
    reveal_strlit("FunctionParameterListGrammar");
    assert("FetchClauseSegment"@.len() != "FunctionParameterListGrammar"@.len());
    reveal_strlit("InsertStatementSegment");
    assert("FetchClauseSegment"@.len() != "InsertStatementSegment"@.len());
    reveal_strlit("SetSchemaStatementSegment");
    assert("FetchClauseSegment"@.len() != "SetSchemaStatementSegment"@.len());
    reveal_strlit("TransactionStatementSegment");
    assert("FetchClauseSegment"@.len() != "TransactionStatementSegment"@.len());
    reveal_strlit("UpdateStatementSegment");
    assert("FetchClauseSegment"@.len() != "UpdateStatementSegment"@.len());
}

proof fn lemma_part_8_keeps_fetch_clause_segment(m: Map<Seq<char>, ElementView>)
    requires
        m.dom().contains("FetchClauseSegment"@),
    ensures
        ansi_library_part_8(m).dom().contains("FetchClauseSegment"@),
        ansi_library_part_8(m)["FetchClauseSegment"@] == m["FetchClauseSegment"@],
{
    reveal_strlit("FetchClauseSegment");
    reveal_strlit("AggregateOrderByClause");
    assert("FetchClauseSegment"@.len() != "AggregateOrderByClause"@.len());
    reveal_strlit("ArrayExpressionSegment");
    assert("FetchClauseSegment"@.len() != "ArrayExpressionSegment"@.len());
    reveal_strlit("BitwiseAndSegment");
    assert("FetchClauseSegment"@.len() != "BitwiseAndSegment"@.len());
    reveal_strlit("BitwiseLShiftSegment");
    assert("FetchClauseSegment"@.len() != "BitwiseLShiftSegment"@.len());
    reveal_strlit("BitwiseOrSegment");
    assert("FetchClauseSegment"@.len() != "BitwiseOrSegment"@.len());
    reveal_strlit("BitwiseRShiftSegment");
    assert("FetchClauseSegment"@.len() != "BitwiseRShiftSegment"@.len());
    reveal_strlit("ConcatSegment");
    assert("FetchClauseSegment"@.len() != "ConcatSegment"@.len());
    reveal_strlit("CreateUserStatementSegment");
    assert("FetchClauseSegment"@.len() != "CreateUserStatementSegment"@.len());
    reveal_strlit("DropTableStatementSegment");
    assert("FetchClauseSegment"@.len() != "DropTableStatementSegment"@.len());
    reveal_strlit("DropUserStatementSegment");
    assert("FetchClauseSegment"@.len() != "DropUserStatementSegment"@.len());
    reveal_strlit("DropViewStatementSegment");
    assert("FetchClauseSegment"@.len() != "DropViewStatementSegment"@.len());
    reveal_strlit("ElseClauseSegment");
    assert("FetchClauseSegment"@.len() != "ElseClauseSegment"@.len());
    reveal_strlit("EqualsSegment");
    assert("FetchClauseSegment"@.len() != "EqualsSegment"@.len());
    reveal_strlit("FunctionNameSegment");
    assert("FetchClauseSegment"@.len() != "FunctionNameSegment"@.len());
    reveal_strlit("GreaterThanOrEqualToSegment");
    assert("FetchClauseSegment"@.len() != "GreaterThanOrEqualToSegment"@.len());
    reveal_strlit("GreaterThanSegment");
    assert("FetchClauseSegment"@[0] != "GreaterThanSegment"@[0]);
    reveal_strlit("IndexColumnDefinitionSegment");
    assert("FetchClauseSegment"@.len() != "IndexColumnDefinitionSegment"@.len());
    reveal_strlit("LessThanOrEqualToSegment");
    assert("FetchClauseSegment"@.len() != "LessThanOrEqualToSegment"@.len());
    reveal_strlit("LessThanSegment");
    assert("FetchClauseSegment"@.len() != "LessThanSegment"@.len());
    reveal_strlit("LocalAliasSegment");
    assert("FetchClauseSegment"@.len() != "LocalAliasSegment"@.len());
    reveal_strlit("MergeStatementSegment");
    assert("FetchClauseSegment"@.len() != "MergeStatementSegment"@.len());
    reveal_strlit("NotEqualToSegment");
    assert("FetchClauseSegment"@.len() != "NotEqualToSegment"@.len());
    reveal_strlit("QualifiedNumericLiteralSegment");
    assert("FetchClauseSegment"@.len() != "QualifiedNumericLiteralSegment"@.len());
    reveal_strlit("WhenClauseSegment");
    assert("FetchClauseSegment"@.len() != "WhenClauseSegment"@.len());
    reveal_strlit("WhereClauseSegment");
    assert("FetchClauseSegment"@[0] != "WhereClauseSegment"@[0]);
}

proof fn lemma_part_9_keeps_fetch_clause_segment(m: Map<Seq<char>, ElementView>)
    requires
        m.dom().contains("FetchClauseSegment"@),
    ensures
        ansi_library_part_9(m).dom().contains("FetchClauseSegment"@),
        ansi_library_part_9(m)["FetchClauseSegment"@] == m["FetchClauseSegment"@],
{
    reveal_strlit("FetchClauseSegment");
    reveal_strlit("AliasExpressionSegment");
    assert("FetchClauseSegment"@.len() != "AliasExpressionSegment"@.len());
    reveal_strlit("ArrayAccessorSegment");
    assert("FetchClauseSegment"@.len() != "ArrayAccessorSegment"@.len());
    reveal_strlit("ArrayLiteralSegment");
    assert("FetchClauseSegment"@.len() != "ArrayLiteralSegment"@.len());
    reveal_strlit("ArrayTypeSegment");
    assert("FetchClauseSegment"@.len() != "ArrayTypeSegment"@.len());
    reveal_strlit("BracketedArguments");
    assert("FetchClauseSegment"@[0] != "BracketedArguments"@[0]);
    reveal_strlit("DatatypeSegment");
    assert("FetchClauseSegment"@.len() != "DatatypeSegment"@.len());
    reveal_strlit("EmptyStructLiteralSegment");
    assert("FetchClauseSegment"@.len() != "EmptyStructLiteralSegment"@.len());
    reveal_strlit("IntervalExpressionSegment");
    assert("FetchClauseSegment"@.len() != "IntervalExpressionSegment"@.len());
    reveal_strlit("ObjectLiteralElementSegment");
    assert("FetchClauseSegment"@.len() != "ObjectLiteralElementSegment"@.len());
    reveal_strlit("ObjectLiteralSegment");
    assert("FetchClauseSegment"@.len() != "ObjectLiteralSegment"@.len());
    reveal_strlit("OverlapsClauseSegment");
    assert("FetchClauseSegment"@.len() != "OverlapsClauseSegment"@.len());
    reveal_strlit("SelectClauseSegment");
    assert("FetchClauseSegment"@.len() != "SelectClauseSegment"@.len());
    reveal_strlit("SetOperatorSegment");
    assert("FetchClauseSegment"@[0] != "SetOperatorSegment"@[0]);
    reveal_strlit("ShorthandCastSegment");
    assert("FetchClauseSegment"@.len() != "ShorthandCastSegment"@.len());
    reveal_strlit("SizedArrayTypeSegment");
    assert("FetchClauseSegment"@.len() != "SizedArrayTypeSegment"@.len());
    reveal_strlit("StatementSegment");
    assert("FetchClauseSegment"@.len() != "StatementSegment"@.len());
    reveal_strlit("StructLiteralSegment");
    assert("FetchClauseSegment"@.len() != "StructLiteralSegment"@.len());
    reveal_strlit("StructTypeSegment");
    assert("FetchClauseSegment"@.len() != "StructTypeSegment"@.len());
    reveal_strlit("TimeZoneGrammar");
    assert("FetchClauseSegment"@.len() != "TimeZoneGrammar"@.len());
    reveal_strlit("TypedArrayLiteralSegment");
    assert("FetchClauseSegment"@.len() != "TypedArrayLiteralSegment"@.len());
    reveal_strlit("TypedStructLiteralSegment");
    assert("FetchClauseSegment"@.len() != "TypedStructLiteralSegment"@.len());
    reveal_strlit("UnorderedSelectStatementSegment");
    assert("FetchClauseSegment"@.len() != "UnorderedSelectStatementSegment"@.len());
    reveal_strlit("ValuesClauseSegment");
    assert("FetchClauseSegment"@.len() != "ValuesClauseSegment"@.len());
    reveal_strlit("WithDataClauseSegment");
    assert("FetchClauseSegment"@.len() != "WithDataClauseSegment"@.len());
    reveal_strlit("WithNoSchemaBindingClauseSegment");
    assert("FetchClauseSegment"@.len() != "WithNoSchemaBindingClauseSegment"@.len());
}

proof fn lemma_part_10_keeps_fetch_clause_segment(m: Map<Seq<char>, ElementView>)
    requires
        m.dom().contains("FetchClauseSegment"@),
    ensures
        ansi_library_part_10(m).dom().contains("FetchClauseSegment"@),
        ansi_library_part_10(m)["FetchClauseSegment"@] == m["FetchClauseSegment"@],
{
    reveal_strlit("FetchClauseSegment");
    reveal_strlit("AccessStatementSegmentGrantRoleWithOptionGrammar");
    assert("FetchClauseSegment"@.len() != "AccessStatementSegmentGrantRoleWithOptionGrammar"@.len());
    reveal_strlit("AliasedTableReferenceGrammar");
    assert("FetchClauseSegment"@.len() != "AliasedTableReferenceGrammar"@.len());
    reveal_strlit("CharCharacterSetGrammar");
    assert("FetchClauseSegment"@.len() != "CharCharacterSetGrammar"@.len());
    reveal_strlit("CreateSchemaStatementSegment");
    assert("FetchClauseSegment"@.len() != "CreateSchemaStatementSegment"@.len());
    reveal_strlit("DatePartFunctionNameSegment");
    assert("FetchClauseSegment"@.len() != "DatePartFunctionNameSegment"@.len());
    reveal_strlit("EmptyStructLiteralBracketsSegment");
    assert("FetchClauseSegment"@.len() != "EmptyStructLiteralBracketsSegment"@.len());
    reveal_strlit("Expression_A_Grammar");
    assert("FetchClauseSegment"@.len() != "Expression_A_Grammar"@.len());
    reveal_strlit("Expression_A_Unary_Operator_Grammar");
    assert("FetchClauseSegment"@.len() != "Expression_A_Unary_Operator_Grammar"@.len());
    reveal_strlit("Expression_B_Unary_Operator_Grammar");
    assert("FetchClauseSegment"@.len() != "Expression_B_Unary_Operator_Grammar"@.len());
    reveal_strlit("FromClauseSegment");
    assert("FetchClauseSegment"@.len() != "FromClauseSegment"@.len());
    reveal_strlit("FromExpressionSegment");
    assert("FetchClauseSegment"@.len() != "FromExpressionSegment"@.len());
    reveal_strlit("FunctionContentsExpressionGrammar");
    assert("FetchClauseSegment"@.len() != "FunctionContentsExpressionGrammar"@.len());
    reveal_strlit("FunctionContentsGrammar");
    assert("FetchClauseSegment"@.len() != "FunctionContentsGrammar"@.len());
    reveal_strlit("FunctionContentsSegment");
    assert("FetchClauseSegment"@.len() != "FunctionContentsSegment"@.len());
    reveal_strlit("JoinLikeClauseGrammar");
    assert("FetchClauseSegment"@.len() != "JoinLikeClauseGrammar"@.len());
    reveal_strlit("OrderByClauseSegment");
    assert("FetchClauseSegment"@.len() != "OrderByClauseSegment"@.len());
    reveal_strlit("PostFunctionGrammar");
    assert("FetchClauseSegment"@.len() != "PostFunctionGrammar"@.len());
    reveal_strlit("SelectClauseElementSegment");
    assert("FetchClauseSegment"@.len() != "SelectClauseElementSegment"@.len());
    reveal_strlit("SelectClauseModifierSegment");
    assert("FetchClauseSegment"@.len() != "SelectClauseModifierSegment"@.len());
    reveal_strlit("SelectStatementSegment");
    assert("FetchClauseSegment"@.len() != "SelectStatementSegment"@.len());
    reveal_strlit("SetExpressionSegment");
    assert("FetchClauseSegment"@.len() != "SetExpressionSegment"@.len());
    reveal_strlit("Tail_Recurse_Expression_A_Grammar");
    assert("FetchClauseSegment"@.len() != "Tail_Recurse_Expression_A_Grammar"@.len());
    reveal_strlit("Tail_Recurse_Expression_B_Grammar");
    assert("FetchClauseSegment"@.len() != "Tail_Recurse_Expression_B_Grammar"@.len());
    reveal_strlit("TruncateStatementSegment");
    assert("FetchClauseSegment"@.len() != "TruncateStatementSegment"@.len());
    reveal_strlit("WildcardExpressionSegment");
    assert("FetchClauseSegment"@.len() != "WildcardExpressionSegment"@.len());
}

proof fn lemma_part_11_keeps_fetch_clause_segment(m: Map<Seq<char>, ElementView>)
    requires
        m.dom().contains("FetchClauseSegment"@),
    ensures
        ansi_library_part_11(m).dom().contains("FetchClauseSegment"@),
        ansi_library_part_11(m)["FetchClauseSegment"@] == m["FetchClauseSegment"@],
{
    reveal_strlit("FetchClauseSegment");
    reveal_strlit("AccessorGrammar");
    assert("FetchClauseSegment"@.len() != "AccessorGrammar"@.len());
    reveal_strlit("Expression_B_Grammar");
    assert("FetchClauseSegment"@.len() != "Expression_B_Grammar"@.len());
    reveal_strlit("Expression_C_Grammar");
    assert("FetchClauseSegment"@.len() != "Expression_C_Grammar"@.len());
    reveal_strlit("Expression_D_Grammar");
    assert("FetchClauseSegment"@.len() != "Expression_D_Grammar"@.len());
    reveal_strlit("NonSetSelectableGrammar");
    assert("FetchClauseSegment"@.len() != "NonSetSelectableGrammar"@.len());
    reveal_strlit("NonWithNonSelectableGrammar");
    assert("FetchClauseSegment"@.len() != "NonWithNonSelectableGrammar"@.len());
    reveal_strlit("NonWithSelectableGrammar");
    assert("FetchClauseSegment"@.len() != "NonWithSelectableGrammar"@.len());
    reveal_strlit("PostTableExpressionGrammar");
    assert("FetchClauseSegment"@.len() != "PostTableExpressionGrammar"@.len());
    reveal_strlit("SelectableGrammar");
    assert("FetchClauseSegment"@.len() != "SelectableGrammar"@.len());
    reveal_strlit("TimeWithTZGrammar");
    assert("FetchClauseSegment"@.len() != "TimeWithTZGrammar"@.len());
}

/// The ANSI library holds `FetchClauseSegment`: the value of its last entry of that name.
pub proof fn lemma_ansi_library_fetch_clause_segment(lib: Map<Seq<char>, ElementView>)
    ensures
        ansi_library(lib).dom().contains("FetchClauseSegment"@),
        ansi_library(lib)["FetchClauseSegment"@] == fetch_clause_segment_element(),
{
    reveal(ansi_library);
    let m0 = lib;
    let m1 = ansi_library_part_0(m0);
    let m2 = ansi_library_part_1(m1);
    let m3 = ansi_library_part_2(m2);
    let m4 = ansi_library_part_3(m3);
    let m5 = ansi_library_part_4(m4);
    let m6 = ansi_library_part_5(m5);
    let m7 = ansi_library_part_6(m6);
    let m8 = ansi_library_part_7(m7);
    let m9 = ansi_library_part_8(m8);
    let m10 = ansi_library_part_9(m9);
    let m11 = ansi_library_part_10(m10);
    let m12 = ansi_library_part_11(m11);
    lemma_part_4_sets_fetch_clause_segment(m4);
    lemma_part_5_keeps_fetch_clause_segment(m5);
    lemma_part_6_keeps_fetch_clause_segment(m6);
    lemma_part_7_keeps_fetch_clause_segment(m7);
    lemma_part_8_keeps_fetch_clause_segment(m8);
    lemma_part_9_keeps_fetch_clause_segment(m9);
    lemma_part_10_keeps_fetch_clause_segment(m10);
    lemma_part_11_keeps_fetch_clause_segment(m11);
}

proof fn lemma_part_3_sets_drop_behavior_grammar(m: Map<Seq<char>, ElementView>)
    ensures
        ansi_library_part_3(m).dom().contains("DropBehaviorGrammar"@),
        ansi_library_part_3(m)["DropBehaviorGrammar"@] == drop_behavior_grammar_element(),
{
    reveal_strlit("DropBehaviorGrammar");
}

proof fn lemma_part_4_keeps_drop_behavior_grammar(m: Map<Seq<char>, ElementView>)
    requires
        m.dom().contains("DropBehaviorGrammar"@),
    ensures
        ansi_library_part_4(m).dom().contains("DropBehaviorGrammar"@),
        ansi_library_part_4(m)["DropBehaviorGrammar"@] == m["DropBehaviorGrammar"@],
{
    reveal_strlit("DropBehaviorGrammar");
    reveal_strlit("AlterTableDropColumnGrammar");
    assert("DropBehaviorGrammar"@.len() != "AlterTableDropColumnGrammar"@.len());
    reveal_strlit("AlterTableOptionsGrammar");
    assert("DropBehaviorGrammar"@.len() != "AlterTableOptionsGrammar"@.len());
    reveal_strlit("ColumnConstraintDefaultGrammar");
    assert("DropBehaviorGrammar"@.len() != "ColumnConstraintDefaultGrammar"@.len());
    reveal_strlit("ColumnReferenceSegment");
    assert("DropBehaviorGrammar"@.len() != "ColumnReferenceSegment"@.len());
    reveal_strlit("CubeFunctionNameSegment");
    assert("DropBehaviorGrammar"@.len() != "CubeFunctionNameSegment"@.len());
    reveal_strlit("CubeRollupClauseSegment");
    assert("DropBehaviorGrammar"@.len() != "CubeRollupClauseSegment"@.len());
    reveal_strlit("DateTimeFunctionContentsSegment");
    assert("DropBehaviorGrammar"@.len() != "DateTimeFunctionContentsSegment"@.len());
    reveal_strlit("DefaultValuesGrammar");
    assert("DropBehaviorGrammar"@.len() != "DefaultValuesGrammar"@.len());
    reveal_strlit("ExpressionSegment");
    assert("DropBehaviorGrammar"@.len() != "ExpressionSegment"@.len());
    reveal_strlit("FetchClauseSegment");
    assert("DropBehaviorGrammar"@.len() != "FetchClauseSegment"@.len());
    reveal_strlit("FileSegment");
    assert("DropBehaviorGrammar"@.len() != "FileSegment"@.len());
    reveal_strlit("FunctionSegment");
    assert("DropBehaviorGrammar"@.len() != "FunctionSegment"@.len());
    reveal_strlit("GroupingExpressionList");
    assert("DropBehaviorGrammar"@.len() != "GroupingExpressionList"@.len());
    reveal_strlit("GroupingSetsClauseSegment");
    assert("DropBehaviorGrammar"@.len() != "GroupingSetsClauseSegment"@.len());
    reveal_strlit("HavingClauseSegment");
    assert("DropBehaviorGrammar"@[0] != "HavingClauseSegment"@[0]);
    reveal_strlit("LimitClauseSegment");
    assert("DropBehaviorGrammar"@.len() != "LimitClauseSegment"@.len());
    reveal_strlit("NamedWindowExpressionSegment");
    assert("DropBehaviorGrammar"@.len() != "NamedWindowExpressionSegment"@.len());
    reveal_strlit("ObjectReferenceDelimiterGrammar");
    assert("DropBehaviorGrammar"@.len() != "ObjectReferenceDelimiterGrammar"@.len());
    reveal_strlit("ObjectReferenceTerminatorGrammar");
    assert("DropBehaviorGrammar"@.len() != "ObjectReferenceTerminatorGrammar"@.len());
    reveal_strlit("PathSegment");
    assert("DropBehaviorGrammar"@.len() != "PathSegment"@.len());
    reveal_strlit("ReferenceDefinitionGrammar");
    assert("DropBehaviorGrammar"@.len() != "ReferenceDefinitionGrammar"@.len());
    reveal_strlit("RollupFunctionNameSegment");
    assert("DropBehaviorGrammar"@.len() != "RollupFunctionNameSegment"@.len());
    reveal_strlit("SetClauseSegment");
    assert("DropBehaviorGrammar"@.len() != "SetClauseSegment"@.len());
    reveal_strlit("TrimParametersGrammar");
    assert("DropBehaviorGrammar"@.len() != "TrimParametersGrammar"@.len());
    reveal_strlit("WildcardIdentifierSegment");
    assert("DropBehaviorGrammar"@.len() != "WildcardIdentifierSegment"@.len());
}

proof fn lemma_part_5_keeps_drop_behavior_grammar(m: Map<Seq<char>, ElementView>)
    requires
        m.dom().contains("DropBehaviorGrammar"@),
    ensures
        ansi_library_part_5(m).dom().contains("DropBehaviorGrammar"@),
        ansi_library_part_5(m)["DropBehaviorGrammar"@] == m["DropBehaviorGrammar"@],
{
    reveal_strlit("DropBehaviorGrammar");
    reveal_strlit("AlterSequenceOptionsSegment");
    assert("DropBehaviorGrammar"@.len() != "AlterSequenceOptionsSegment"@.len());
    reveal_strlit("CTEColumnList");
    assert("DropBehaviorGrammar"@.len() != "CTEColumnList"@.len());
    reveal_strlit("CTEDefinitionSegment");
    assert("DropBehaviorGrammar"@.len() != "CTEDefinitionSegment"@.len());
    reveal_strlit("ColumnConstraintSegment");
    assert("DropBehaviorGrammar"@.len() != "ColumnConstraintSegment"@.len());
    reveal_strlit("ColumnDefinitionSegment");
    assert("DropBehaviorGrammar"@.len() != "ColumnDefinitionSegment"@.len());
    reveal_strlit("CommentClauseSegment");
    assert("DropBehaviorGrammar"@.len() != "CommentClauseSegment"@.len());
    reveal_strlit("ExtensionReferenceSegment");
    assert("DropBehaviorGrammar"@.len() != "ExtensionReferenceSegment"@.len());
    reveal_strlit("FrameClauseSegment");
    assert("DropBehaviorGrammar"@.len() != "FrameClauseSegment"@.len());
    reveal_strlit("FunctionDefinitionGrammar");
    assert("DropBehaviorGrammar"@.len() != "FunctionDefinitionGrammar"@.len());
    reveal_strlit("GroupByClauseSegment");
    assert("DropBehaviorGrammar"@.len() != "GroupByClauseSegment"@.len());
    reveal_strlit("MergeDeleteClauseSegment");
    assert("DropBehaviorGrammar"@.len() != "MergeDeleteClauseSegment"@.len());
    reveal_strlit("MergeInsertClauseSegment");
    assert("DropBehaviorGrammar"@.len() != "MergeInsertClauseSegment"@.len());
    reveal_strlit("MergeMatchSegment");
    assert("DropBehaviorGrammar"@.len() != "MergeMatchSegment"@.len());
    reveal_strlit("MergeMatchedClauseSegment");
    assert("DropBehaviorGrammar"@.len() != "MergeMatchedClauseSegment"@.len());
    reveal_strlit("MergeNotMatchedClauseSegment");
    assert("DropBehaviorGrammar"@.len() != "MergeNotMatchedClauseSegment"@.len());
    reveal_strlit("MergeUpdateClauseSegment");
    assert("DropBehaviorGrammar"@.len() != "MergeUpdateClauseSegment"@.len());
    reveal_strlit("RoleReferenceSegment");
    assert("DropBehaviorGrammar"@.len() != "RoleReferenceSegment"@.len());
    reveal_strlit("SchemaReferenceSegment");
    assert("DropBehaviorGrammar"@.len() != "SchemaReferenceSegment"@.len());
    reveal_strlit("SetClauseListSegment");
    assert("DropBehaviorGrammar"@.len() != "SetClauseListSegment"@.len());
    reveal_strlit("SingleIdentifierListSegment");
    assert("DropBehaviorGrammar"@.len() != "SingleIdentifierListSegment"@.len());
    reveal_strlit("TableEndClauseSegment");
    assert("DropBehaviorGrammar"@.len() != "TableEndClauseSegment"@.len());
    reveal_strlit("TablespaceReferenceSegment");
    assert("DropBehaviorGrammar"@.len() != "TablespaceReferenceSegment"@.len());
    reveal_strlit("TagReferenceSegment");
    assert("DropBehaviorGrammar"@[0] != "TagReferenceSegment"@[0]);
    reveal_strlit("WithCompoundNonSelectStatementSegment");
    assert("DropBehaviorGrammar"@.len() != "WithCompoundNonSelectStatementSegment"@.len());
    reveal_strlit("WithCompoundStatementSegment");
    assert("DropBehaviorGrammar"@.len() != "WithCompoundStatementSegment"@.len());
}

proof fn lemma_part_6_keeps_drop_behavior_grammar(m: Map<Seq<char>, ElementView>)
    requires
        m.dom().contains("DropBehaviorGrammar"@),
    ensures
        ansi_library_part_6(m).dom().contains("DropBehaviorGrammar"@),
        ansi_library_part_6(m)["DropBehaviorGrammar"@] == m["DropBehaviorGrammar"@],
{
    reveal_strlit("DropBehaviorGrammar");
    reveal_strlit("CollationReferenceSegment");
    assert("DropBehaviorGrammar"@.len() != "CollationReferenceSegment"@.len());
    reveal_strlit("CreateSequenceOptionsSegment");
    assert("DropBehaviorGrammar"@.len() != "CreateSequenceOptionsSegment"@.len());
    reveal_strlit("CreateSequenceStatementSegment");
    assert("DropBehaviorGrammar"@.len() != "CreateSequenceStatementSegment"@.len());
    reveal_strlit("CreateTriggerStatementSegment");
    assert("DropBehaviorGrammar"@.len() != "CreateTriggerStatementSegment"@.len());
    reveal_strlit("DatabaseReferenceSegment");
    assert("DropBehaviorGrammar"@.len() != "DatabaseReferenceSegment"@.len());
    reveal_strlit("DescribeStatementSegment");
    assert("DropBehaviorGrammar"@.len() != "DescribeStatementSegment"@.len());
    reveal_strlit("DropModelStatementSegment");
    assert("DropBehaviorGrammar"@.len() != "DropModelStatementSegment"@.len());
    reveal_strlit("DropTriggerStatementSegment");
    assert("DropBehaviorGrammar"@.len() != "DropTriggerStatementSegment"@.len());
    reveal_strlit("ExplainStatementSegment");
    assert("DropBehaviorGrammar"@.len() != "ExplainStatementSegment"@.len());
    reveal_strlit("IndexReferenceSegment");
    assert("DropBehaviorGrammar"@.len() != "IndexReferenceSegment"@.len());
    reveal_strlit("JoinClauseSegment");
    assert("DropBehaviorGrammar"@.len() != "JoinClauseSegment"@.len());
    reveal_strlit("JoinOnConditionSegment");
    assert("DropBehaviorGrammar"@.len() != "JoinOnConditionSegment"@.len());
    reveal_strlit("NamedWindowSegment");
    assert("DropBehaviorGrammar"@.len() != "NamedWindowSegment"@.len());
    reveal_strlit("OverClauseSegment");
    assert("DropBehaviorGrammar"@.len() != "OverClauseSegment"@.len());
    reveal_strlit("PartitionClauseSegment");
    assert("DropBehaviorGrammar"@.len() != "PartitionClauseSegment"@.len());
    reveal_strlit("SamplingExpressionSegment");
    assert("DropBehaviorGrammar"@.len() != "SamplingExpressionSegment"@.len());
    reveal_strlit("SequenceReferenceSegment");
    assert("DropBehaviorGrammar"@.len() != "SequenceReferenceSegment"@.len());
    reveal_strlit("TableConstraintSegment");
    assert("DropBehaviorGrammar"@.len() != "TableConstraintSegment"@.len());
    reveal_strlit("TableExpressionSegment");
    assert("DropBehaviorGrammar"@.len() != "TableExpressionSegment"@.len());
    reveal_strlit("TriggerReferenceSegment");
    assert("DropBehaviorGrammar"@.len() != "TriggerReferenceSegment"@.len());
    reveal_strlit("UseStatementSegment");
    assert("DropBehaviorGrammar"@[0] != "UseStatementSegment"@[0]);
    reveal_strlit("WindowSpecificationSegment");
    assert("DropBehaviorGrammar"@.len() != "WindowSpecificationSegment"@.len());
}

proof fn lemma_part_7_keeps_drop_behavior_grammar(m: Map<Seq<char>, ElementView>)
    requires
        m.dom().contains("DropBehaviorGrammar"@),
    ensures
        ansi_library_part_7(m).dom().contains("DropBehaviorGrammar"@),
        ansi_library_part_7(m)["DropBehaviorGrammar"@] == m["DropBehaviorGrammar"@],
{
    reveal_strlit("DropBehaviorGrammar");
    reveal_strlit("AccessStatementSegment");
    assert("DropBehaviorGrammar"@.len() != "AccessStatementSegment"@.len());
    reveal_strlit("AlterSequenceStatementSegment");
    assert("DropBehaviorGrammar"@.len() != "AlterSequenceStatementSegment"@.len());
    reveal_strlit("AlterTableStatementSegment");
    assert("DropBehaviorGrammar"@.len() != "AlterTableStatementSegment"@.len());
    reveal_strlit("CreateCastStatementSegment");
    assert("DropBehaviorGrammar"@.len() != "CreateCastStatementSegment"@.len());
    reveal_strlit("CreateDatabaseStatementSegment");
    assert("DropBehaviorGrammar"@.len() != "CreateDatabaseStatementSegment"@.len());
    reveal_strlit("CreateFunctionStatementSegment");
    assert("DropBehaviorGrammar"@.len() != "CreateFunctionStatementSegment"@.len());
    reveal_strlit("CreateIndexStatementSegment");
    assert("DropBehaviorGrammar"@.len() != "CreateIndexStatementSegment"@.len());
    reveal_strlit("CreateModelStatementSegment");
    assert("DropBehaviorGrammar"@.len() != "CreateModelStatementSegment"@.len());
    reveal_strlit("CreateRoleStatementSegment");
    assert("DropBehaviorGrammar"@.len() != "CreateRoleStatementSegment"@.len());
    reveal_strlit("CreateTableStatementSegment");
    assert("DropBehaviorGrammar"@.len() != "CreateTableStatementSegment"@.len());
    reveal_strlit("CreateViewStatementSegment");
    assert("DropBehaviorGrammar"@.len() != "CreateViewStatementSegment"@.len());
    reveal_strlit("DeleteStatementSegment");
    assert("DropBehaviorGrammar"@.len() != "DeleteStatementSegment"@.len());
    reveal_strlit("DropCastStatementSegment");
    assert("DropBehaviorGrammar"@.len() != "DropCastStatementSegment"@.len());
    reveal_strlit("DropDatabaseStatementSegment");
    assert("DropBehaviorGrammar"@.len() != "DropDatabaseStatementSegment"@.len());
    reveal_strlit("DropFunctionStatementSegment");
    assert("DropBehaviorGrammar"@.len() != "DropFunctionStatementSegment"@.len());
    reveal_strlit("DropIndexStatementSegment");
    assert("DropBehaviorGrammar"@.len() != "DropIndexStatementSegment"@.len());
    reveal_strlit("DropRoleStatementSegment");
    assert("DropBehaviorGrammar"@.len() != "DropRoleStatementSegment"@.len());
    reveal_strlit("DropSchemaStatementSegment");
    assert("DropBehaviorGrammar"@.len() != "DropSchemaStatementSegment"@.len());
    reveal_strlit("DropSequenceStatementSegment");
    assert("DropBehaviorGrammar"@.len() != "DropSequenceStatementSegment"@.len());
    reveal_strlit("DropTypeStatementSegment");
    assert("DropBehaviorGrammar"@.len() != "DropTypeStatementSegment"@.len());
    reveal_strlit("FunctionParameterListGrammar");
    assert("DropBehaviorGrammar"@.len() != "FunctionParameterListGrammar"@.len());
    reveal_strlit("InsertStatementSegment");
    assert("DropBehaviorGrammar"@.len() != "InsertStatementSegment"@.len());
    reveal_strlit("SetSchemaStatementSegment");
    assert("DropBehaviorGrammar"@.len() != "SetSchemaStatementSegment"@.len());
    reveal_strlit("TransactionStatementSegment");
    assert("DropBehaviorGrammar"@.len() != "TransactionStatementSegment"@.len());
    reveal_strlit("UpdateStatementSegment");
    assert("DropBehaviorGrammar"@.len() != "UpdateStatementSegment"@.len());
}

proof fn lemma_part_8_keeps_drop_behavior_grammar(m: Map<Seq<char>, ElementView>)
    requires
        m.dom().contains("DropBehaviorGrammar"@),
    ensures
        ansi_library_part_8(m).dom().contains("DropBehaviorGrammar"@),
        ansi_library_part_8(m)["DropBehaviorGrammar"@] == m["DropBehaviorGrammar"@],
{
    reveal_strlit("DropBehaviorGrammar");
    reveal_strlit("AggregateOrderByClause");
    assert("DropBehaviorGrammar"@.len() != "AggregateOrderByClause"@.len());
    reveal_strlit("ArrayExpressionSegment");
    assert("DropBehaviorGrammar"@.len() != "ArrayExpressionSegment"@.len());
    reveal_strlit("BitwiseAndSegment");
    assert("DropBehaviorGrammar"@.len() != "BitwiseAndSegment"@.len());
    reveal_strlit("BitwiseLShiftSegment");
    assert("DropBehaviorGrammar"@.len() != "BitwiseLShiftSegment"@.len());
    reveal_strlit("BitwiseOrSegment");
    assert("DropBehaviorGrammar"@.len() != "BitwiseOrSegment"@.len());
    reveal_strlit("BitwiseRShiftSegment");
    assert("DropBehaviorGrammar"@.len() != "BitwiseRShiftSegment"@.len());
    reveal_strlit("ConcatSegment");
    assert("DropBehaviorGrammar"@.len() != "ConcatSegment"@.len());
    reveal_strlit("CreateUserStatementSegment");
    assert("DropBehaviorGrammar"@.len() != "CreateUserStatementSegment"@.len());
    reveal_strlit("DropTableStatementSegment");
    assert("DropBehaviorGrammar"@.len() != "DropTableStatementSegment"@.len());
    reveal_strlit("DropUserStatementSegment");
    assert("DropBehaviorGrammar"@.len() != "DropUserStatementSegment"@.len());
    reveal_strlit("DropViewStatementSegment");
    assert("DropBehaviorGrammar"@.len() != "DropViewStatementSegment"@.len());
    reveal_strlit("ElseClauseSegment");
    assert("DropBehaviorGrammar"@.len() != "ElseClauseSegment"@.len());
    reveal_strlit("EqualsSegment");
    assert("DropBehaviorGrammar"@.len() != "EqualsSegment"@.len());
    reveal_strlit("FunctionNameSegment");
    assert("DropBehaviorGrammar"@[0] != "FunctionNameSegment"@[0]);
    reveal_strlit("GreaterThanOrEqualToSegment");
    assert("DropBehaviorGrammar"@.len() != "GreaterThanOrEqualToSegment"@.len());
    reveal_strlit("GreaterThanSegment");
    assert("DropBehaviorGrammar"@.len() != "GreaterThanSegment"@.len());
    reveal_strlit("IndexColumnDefinitionSegment");
    assert("DropBehaviorGrammar"@.len() != "IndexColumnDefinitionSegment"@.len());
    reveal_strlit("LessThanOrEqualToSegment");
    assert("DropBehaviorGrammar"@.len() != "LessThanOrEqualToSegment"@.len());
    reveal_strlit("LessThanSegment");
    assert("DropBehaviorGrammar"@.len() != "LessThanSegment"@.len());
    reveal_strlit("LocalAliasSegment");
    assert("DropBehaviorGrammar"@.len() != "LocalAliasSegment"@.len());
    reveal_strlit("MergeStatementSegment");
    assert("DropBehaviorGrammar"@.len() != "MergeStatementSegment"@.len());
    reveal_strlit("NotEqualToSegment");
    assert("DropBehaviorGrammar"@.len() != "NotEqualToSegment"@.len());
    reveal_strlit("QualifiedNumericLiteralSegment");
    assert("DropBehaviorGrammar"@.len() != "QualifiedNumericLiteralSegment"@.len());
    reveal_strlit("WhenClauseSegment");
    assert("DropBehaviorGrammar"@.len() != "WhenClauseSegment"@.len());
    reveal_strlit("WhereClauseSegment");
    assert("DropBehaviorGrammar"@.len() != "WhereClauseSegment"@.len());
}

proof fn lemma_part_9_keeps_drop_behavior_grammar(m: Map<Seq<char>, ElementView>)
    requires
        m.dom().contains("DropBehaviorGrammar"@),
    ensures
        ansi_library_part_9(m).dom().contains("DropBehaviorGrammar"@),
        ansi_library_part_9(m)["DropBehaviorGrammar"@] == m["DropBehaviorGrammar"@],
{
    reveal_strlit("DropBehaviorGrammar");
    reveal_strlit("AliasExpressionSegment");
    assert("DropBehaviorGrammar"@.len() != "AliasExpressionSegment"@.len());
    reveal_strlit("ArrayAccessorSegment");
    assert("DropBehaviorGrammar"@.len() != "ArrayAccessorSegment"@.len());
    reveal_strlit("ArrayLiteralSegment");
    assert("DropBehaviorGrammar"@[0] != "ArrayLiteralSegment"@[0]);
    reveal_strlit("ArrayTypeSegment");
    assert("DropBehaviorGrammar"@.len() != "ArrayTypeSegment"@.len());
    reveal_strlit("BracketedArguments");
    assert("DropBehaviorGrammar"@.len() != "BracketedArguments"@.len());
    reveal_strlit("DatatypeSegment");
    assert("DropBehaviorGrammar"@.len() != "DatatypeSegment"@.len());
    reveal_strlit("EmptyStructLiteralSegment");
    assert("DropBehaviorGrammar"@.len() != "EmptyStructLiteralSegment"@.len());
    reveal_strlit("IntervalExpressionSegment");
    assert("DropBehaviorGrammar"@.len() != "IntervalExpressionSegment"@.len());
    reveal_strlit("ObjectLiteralElementSegment");
    assert("DropBehaviorGrammar"@.len() != "ObjectLiteralElementSegment"@.len());
    reveal_strlit("ObjectLiteralSegment");
    assert("DropBehaviorGrammar"@.len() != "ObjectLiteralSegment"@.len());
    reveal_strlit("OverlapsClauseSegment");
    assert("DropBehaviorGrammar"@.len() != "OverlapsClauseSegment"@.len());
    reveal_strlit("SelectClauseSegment");
    assert("DropBehaviorGrammar"@[0] != "SelectClauseSegment"@[0]);
    reveal_strlit("SetOperatorSegment");
    assert("DropBehaviorGrammar"@.len() != "SetOperatorSegment"@.len());
    reveal_strlit("ShorthandCastSegment");
    assert("DropBehaviorGrammar"@.len() != "ShorthandCastSegment"@.len());
    reveal_strlit("SizedArrayTypeSegment");
    assert("DropBehaviorGrammar"@.len() != "SizedArrayTypeSegment"@.len());
    reveal_strlit("StatementSegment");
    assert("DropBehaviorGrammar"@.len() != "StatementSegment"@.len());
    reveal_strlit("StructLiteralSegment");
    assert("DropBehaviorGrammar"@.len() != "StructLiteralSegment"@.len());
    reveal_strlit("StructTypeSegment");
    assert("DropBehaviorGrammar"@.len() != "StructTypeSegment"@.len());
    reveal_strlit("TimeZoneGrammar");
    assert("DropBehaviorGrammar"@.len() != "TimeZoneGrammar"@.len());
    reveal_strlit("TypedArrayLiteralSegment");
    assert("DropBehaviorGrammar"@.len() != "TypedArrayLiteralSegment"@.len());
    reveal_strlit("TypedStructLiteralSegment");
    assert("DropBehaviorGrammar"@.len() != "TypedStructLiteralSegment"@.len());
    reveal_strlit("UnorderedSelectStatementSegment");
    assert("DropBehaviorGrammar"@.len() != "UnorderedSelectStatementSegment"@.len());
    reveal_strlit("ValuesClauseSegment");
    assert("DropBehaviorGrammar"@[0] != "ValuesClauseSegment"@[0]);
    reveal_strlit("WithDataClauseSegment");
    assert("DropBehaviorGrammar"@.len() != "WithDataClauseSegment"@.len());
    reveal_strlit("WithNoSchemaBindingClauseSegment");
    assert("DropBehaviorGrammar"@.len() != "WithNoSchemaBindingClauseSegment"@.len());
}

proof fn lemma_part_10_keeps_drop_behavior_grammar(m: Map<Seq<char>, ElementView>)
    requires
        m.dom().contains("DropBehaviorGrammar"@),
    ensures
        ansi_library_part_10(m).dom().contains("DropBehaviorGrammar"@),
        ansi_library_part_10(m)["DropBehaviorGrammar"@] == m["DropBehaviorGrammar"@],
{
    reveal_strlit("DropBehaviorGrammar");
    reveal_strlit("AccessStatementSegmentGrantRoleWithOptionGrammar");
    assert("DropBehaviorGrammar"@.len() != "AccessStatementSegmentGrantRoleWithOptionGrammar"@.len());
    reveal_strlit("AliasedTableReferenceGrammar");
    assert("DropBehaviorGrammar"@.len() != "AliasedTableReferenceGrammar"@.len());
    reveal_strlit("CharCharacterSetGrammar");
    assert("DropBehaviorGrammar"@.len() != "CharCharacterSetGrammar"@.len());
    reveal_strlit("CreateSchemaStatementSegment");
    assert("DropBehaviorGrammar"@.len() != "CreateSchemaStatementSegment"@.len());
    reveal_strlit("DatePartFunctionNameSegment");
    assert("DropBehaviorGrammar"@.len() != "DatePartFunctionNameSegment"@.len());
    reveal_strlit("EmptyStructLiteralBracketsSegment");
    assert("DropBehaviorGrammar"@.len() != "EmptyStructLiteralBracketsSegment"@.len());
    reveal_strlit("Expression_A_Grammar");
    assert("DropBehaviorGrammar"@.len() != "Expression_A_Grammar"@.len());
    reveal_strlit("Expression_A_Unary_Operator_Grammar");
    assert("DropBehaviorGrammar"@.len() != "Expression_A_Unary_Operator_Grammar"@.len());
    reveal_strlit("Expression_B_Unary_Operator_Grammar");
    assert("DropBehaviorGrammar"@.len() != "Expression_B_Unary_Operator_Grammar"@.len());
    reveal_strlit("FromClauseSegment");
    assert("DropBehaviorGrammar"@.len() != "FromClauseSegment"@.len());
    reveal_strlit("FromExpressionSegment");
    assert("DropBehaviorGrammar"@.len() != "FromExpressionSegment"@.len());
    reveal_strlit("FunctionContentsExpressionGrammar");
    assert("DropBehaviorGrammar"@.len() != "FunctionContentsExpressionGrammar"@.len());
    reveal_strlit("FunctionContentsGrammar");
    assert("DropBehaviorGrammar"@.len() != "FunctionContentsGrammar"@.len());
    reveal_strlit("FunctionContentsSegment");
    assert("DropBehaviorGrammar"@.len() != "FunctionContentsSegment"@.len());
    reveal_strlit("JoinLikeClauseGrammar");
    assert("DropBehaviorGrammar"@.len() != "JoinLikeClauseGrammar"@.len());
    reveal_strlit("OrderByClauseSegment");
    assert("DropBehaviorGrammar"@.len() != "OrderByClauseSegment"@.len());
    reveal_strlit("PostFunctionGrammar");
    assert("DropBehaviorGrammar"@[0] != "PostFunctionGrammar"@[0]);
    reveal_strlit("SelectClauseElementSegment");
    assert("DropBehaviorGrammar"@.len() != "SelectClauseElementSegment"@.len());
    reveal_strlit("SelectClauseModifierSegment");
    assert("DropBehaviorGrammar"@.len() != "SelectClauseModifierSegment"@.len());
    reveal_strlit("SelectStatementSegment");
    assert("DropBehaviorGrammar"@.len() != "SelectStatementSegment"@.len());
    reveal_strlit("SetExpressionSegment");
    assert("DropBehaviorGrammar"@.len() != "SetExpressionSegment"@.len());
    reveal_strlit("Tail_Recurse_Expression_A_Grammar");
    assert("DropBehaviorGrammar"@.len() != "Tail_Recurse_Expression_A_Grammar"@.len());
    reveal_strlit("Tail_Recurse_Expression_B_Grammar");
    assert("DropBehaviorGrammar"@.len() != "Tail_Recurse_Expression_B_Grammar"@.len());
    reveal_strlit("TruncateStatementSegment");
    assert("DropBehaviorGrammar"@.len() != "TruncateStatementSegment"@.len());
    reveal_strlit("WildcardExpressionSegment");
    assert("DropBehaviorGrammar"@.len() != "WildcardExpressionSegment"@.len());
}

proof fn lemma_part_11_keeps_drop_behavior_grammar(m: Map<Seq<char>, ElementView>)
    requires
        m.dom().contains("DropBehaviorGrammar"@),
    ensures
        ansi_library_part_11(m).dom().contains("DropBehaviorGrammar"@),
        ansi_library_part_11(m)["DropBehaviorGrammar"@] == m["DropBehaviorGrammar"@],
{
    reveal_strlit("DropBehaviorGrammar");
    reveal_strlit("AccessorGrammar");
    assert("DropBehaviorGrammar"@.len() != "AccessorGrammar"@.len());
    reveal_strlit("Expression_B_Grammar");
    assert("DropBehaviorGrammar"@.len() != "Expression_B_Grammar"@.len());
    reveal_strlit("Expression_C_Grammar");
    assert("DropBehaviorGrammar"@.len() != "Expression_C_Grammar"@.len());
    reveal_strlit("Expression_D_Grammar");
    assert("DropBehaviorGrammar"@.len() != "Expression_D_Grammar"@.len());
    reveal_strlit("NonSetSelectableGrammar");
    assert("DropBehaviorGrammar"@.len() != "NonSetSelectableGrammar"@.len());
    reveal_strlit("NonWithNonSelectableGrammar");
    assert("DropBehaviorGrammar"@.len() != "NonWithNonSelectableGrammar"@.len());
    reveal_strlit("NonWithSelectableGrammar");
    assert("DropBehaviorGrammar"@.len() != "NonWithSelectableGrammar"@.len());
    reveal_strlit("PostTableExpressionGrammar");
    assert("DropBehaviorGrammar"@.len() != "PostTableExpressionGrammar"@.len());
    reveal_strlit("SelectableGrammar");
    assert("DropBehaviorGrammar"@.len() != "SelectableGrammar"@.len());
    reveal_strlit("TimeWithTZGrammar");
    assert("DropBehaviorGrammar"@.len() != "TimeWithTZGrammar"@.len());
}

/// The ANSI library holds `DropBehaviorGrammar`: the value of its last entry of that name.
pub proof fn lemma_ansi_library_drop_behavior_grammar(lib: Map<Seq<char>, ElementView>)
    ensures
        ansi_library(lib).dom().contains("DropBehaviorGrammar"@),
        ansi_library(lib)["DropBehaviorGrammar"@] == drop_behavior_grammar_element(),
{
    reveal(ansi_library);
    let m0 = lib;
    let m1 = ansi_library_part_0(m0);
    let m2 = ansi_library_part_1(m1);
    let m3 = ansi_library_part_2(m2);
    let m4 = ansi_library_part_3(m3);
    let m5 = ansi_library_part_4(m4);
    let m6 = ansi_library_part_5(m5);
    let m7 = ansi_library_part_6(m6);
    let m8 = ansi_library_part_7(m7);
    let m9 = ansi_library_part_8(m8);
    let m10 = ansi_library_part_9(m9);
    let m11 = ansi_library_part_10(m10);
    let m12 = ansi_library_part_11(m11);
    lemma_part_3_sets_drop_behavior_grammar(m3);
    lemma_part_4_keeps_drop_behavior_grammar(m4);
    lemma_part_5_keeps_drop_behavior_grammar(m5);
    lemma_part_6_keeps_drop_behavior_grammar(m6);
    lemma_part_7_keeps_drop_behavior_grammar(m7);
    lemma_part_8_keeps_drop_behavior_grammar(m8);
    lemma_part_9_keeps_drop_behavior_grammar(m9);
    lemma_part_10_keeps_drop_behavior_grammar(m10);
    lemma_part_11_keeps_drop_behavior_grammar(m11);
}

proof fn lemma_part_2_sets_temporary_grammar(m: Map<Seq<char>, ElementView>)
    ensures
        ansi_library_part_2(m).dom().contains("TemporaryGrammar"@),
        ansi_library_part_2(m)["TemporaryGrammar"@] == temporary_grammar_element(),
{
    reveal_strlit("TemporaryGrammar");
    reveal_strlit("IfExistsGrammar");
    assert("TemporaryGrammar"@.len() != "IfExistsGrammar"@.len());
    reveal_strlit("IfNotExistsGrammar");
    assert("TemporaryGrammar"@.len() != "IfNotExistsGrammar"@.len());
    reveal_strlit("InOperatorGrammar");
    assert("TemporaryGrammar"@.len() != "InOperatorGrammar"@.len());
    reveal_strlit("IsClauseGrammar");
    assert("TemporaryGrammar"@.len() != "IsClauseGrammar"@.len());
    reveal_strlit("LikeGrammar");
    assert("TemporaryGrammar"@.len() != "LikeGrammar"@.len());
    reveal_strlit("UnionGrammar");
    assert("TemporaryGrammar"@.len() != "UnionGrammar"@.len());
}

proof fn lemma_part_3_keeps_temporary_grammar(m: Map<Seq<char>, ElementView>)
    requires
        m.dom().contains("TemporaryGrammar"@),
    ensures
        ansi_library_part_3(m).dom().contains("TemporaryGrammar"@),
        ansi_library_part_3(m)["TemporaryGrammar"@] == m["TemporaryGrammar"@],
{
    reveal_strlit("TemporaryGrammar");
    reveal_strlit("AutoIncrementGrammar");
    assert("TemporaryGrammar"@.len() != "AutoIncrementGrammar"@.len());
    reveal_strlit("BaseExpressionElementGrammar");
    assert("TemporaryGrammar"@.len() != "BaseExpressionElementGrammar"@.len());
    reveal_strlit("CollateGrammar");
    assert("TemporaryGrammar"@.len() != "CollateGrammar"@.len());
    reveal_strlit("DropBehaviorGrammar");
    assert("TemporaryGrammar"@.len() != "DropBehaviorGrammar"@.len());
    reveal_strlit("ExtendedNaturalJoinKeywordsGrammar");
    assert("TemporaryGrammar"@.len() != "ExtendedNaturalJoinKeywordsGrammar"@.len());
    reveal_strlit("FilterClauseGrammar");
    assert("TemporaryGrammar"@.len() != "FilterClauseGrammar"@.len());
    reveal_strlit("ForeignKeyGrammar");
    assert("TemporaryGrammar"@.len() != "ForeignKeyGrammar"@.len());
    reveal_strlit("FrameClauseUnitGrammar");
    assert("TemporaryGrammar"@.len() != "FrameClauseUnitGrammar"@.len());
    reveal_strlit("FromClauseTerminatorGrammar");
    assert("TemporaryGrammar"@.len() != "FromClauseTerminatorGrammar"@.len());
    reveal_strlit("FunctionParameterGrammar");
    assert("TemporaryGrammar"@.len() != "FunctionParameterGrammar"@.len());
    reveal_strlit("GroupByClauseTerminatorGrammar");
    assert("TemporaryGrammar"@.len() != "GroupByClauseTerminatorGrammar"@.len());
    reveal_strlit("HavingClauseTerminatorGrammar");
    assert("TemporaryGrammar"@.len() != "HavingClauseTerminatorGrammar"@.len());
    reveal_strlit("IgnoreRespectNullsGrammar");
    assert("TemporaryGrammar"@.len() != "IgnoreRespectNullsGrammar"@.len());
    reveal_strlit("IsNullGrammar");
    assert("TemporaryGrammar"@.len() != "IsNullGrammar"@.len());
    reveal_strlit("JoinKeywordsGrammar");
    assert("TemporaryGrammar"@.len() != "JoinKeywordsGrammar"@.len());
    reveal_strlit("JoinTypeKeywordsGrammar");
    assert("TemporaryGrammar"@.len() != "JoinTypeKeywordsGrammar"@.len());
    reveal_strlit("NaturalJoinKeywordsGrammar");
    assert("TemporaryGrammar"@.len() != "NaturalJoinKeywordsGrammar"@.len());
    reveal_strlit("NestedJoinGrammar");
    assert("TemporaryGrammar"@.len() != "NestedJoinGrammar"@.len());
    reveal_strlit("NotNullGrammar");
    assert("TemporaryGrammar"@.len() != "NotNullGrammar"@.len());
    reveal_strlit("OrderByClauseTerminators");
    assert("TemporaryGrammar"@.len() != "OrderByClauseTerminators"@.len());
    reveal_strlit("PrimaryKeyGrammar");
    assert("TemporaryGrammar"@.len() != "PrimaryKeyGrammar"@.len());
    reveal_strlit("ReferentialActionGrammar");
    assert("TemporaryGrammar"@.len() != "ReferentialActionGrammar"@.len());
    reveal_strlit("SelectClauseTerminatorGrammar");
    assert("TemporaryGrammar"@.len() != "SelectClauseTerminatorGrammar"@.len());
    reveal_strlit("UniqueKeyGrammar");
    assert("TemporaryGrammar"@[0] != "UniqueKeyGrammar"@[0]);
    reveal_strlit("WhereClauseTerminatorGrammar");
    assert("TemporaryGrammar"@.len() != "WhereClauseTerminatorGrammar"@.len());
}

proof fn lemma_part_4_keeps_temporary_grammar(m: Map<Seq<char>, ElementView>)
    requires
        m.dom().contains("TemporaryGrammar"@),
    ensures
        ansi_library_part_4(m).dom().contains("TemporaryGrammar"@),
        ansi_library_part_4(m)["TemporaryGrammar"@] == m["TemporaryGrammar"@],
{
    reveal_strlit("TemporaryGrammar");
    reveal_strlit("AlterTableDropColumnGrammar");
    assert("TemporaryGrammar"@.len() != "AlterTableDropColumnGrammar"@.len());
    reveal_strlit("AlterTableOptionsGrammar");
    assert("TemporaryGrammar"@.len() != "AlterTableOptionsGrammar"@.len());
    reveal_strlit("ColumnConstraintDefaultGrammar");
    assert("TemporaryGrammar"@.len() != "ColumnConstraintDefaultGrammar"@.len());
    reveal_strlit("ColumnReferenceSegment");
    assert("TemporaryGrammar"@.len() != "ColumnReferenceSegment"@.len());
    reveal_strlit("CubeFunctionNameSegment");
    assert("TemporaryGrammar"@.len() != "CubeFunctionNameSegment"@.len());
    reveal_strlit("CubeRollupClauseSegment");
    assert("TemporaryGrammar"@.len() != "CubeRollupClauseSegment"@.len());
    reveal_strlit("DateTimeFunctionContentsSegment");
    assert("TemporaryGrammar"@.len() != "DateTimeFunctionContentsSegment"@.len());
    reveal_strlit("DefaultValuesGrammar");
    assert("TemporaryGrammar"@.len() != "DefaultValuesGrammar"@.len());
    reveal_strlit("ExpressionSegment");
    assert("TemporaryGrammar"@.len() != "ExpressionSegment"@.len());
    reveal_strlit("FetchClauseSegment");
    assert("TemporaryGrammar"@.len() != "FetchClauseSegment"@.len());
    reveal_strlit("FileSegment");
    assert("TemporaryGrammar"@.len() != "FileSegment"@.len());
    reveal_strlit("FunctionSegment");
    assert("TemporaryGrammar"@.len() != "FunctionSegment"@.len());
    reveal_strlit("GroupingExpressionList");
    assert("TemporaryGrammar"@.len() != "GroupingExpressionList"@.len());
    reveal_strlit("GroupingSetsClauseSegment");
    assert("TemporaryGrammar"@.len() != "GroupingSetsClauseSegment"@.len());
    reveal_strlit("HavingClauseSegment");
    assert("TemporaryGrammar"@.len() != "HavingClauseSegment"@.len());
    reveal_strlit("LimitClauseSegment");
    assert("TemporaryGrammar"@.len() != "LimitClauseSegment"@.len());
    reveal_strlit("NamedWindowExpressionSegment");
    assert("TemporaryGrammar"@.len() != "NamedWindowExpressionSegment"@.len());
    reveal_strlit("ObjectReferenceDelimiterGrammar");
    assert("TemporaryGrammar"@.len() != "ObjectReferenceDelimiterGrammar"@.len());
    reveal_strlit("ObjectReferenceTerminatorGrammar");
    assert("TemporaryGrammar"@.len() != "ObjectReferenceTerminatorGrammar"@.len());
    reveal_strlit("PathSegment");
    assert("TemporaryGrammar"@.len() != "PathSegment"@.len());
    reveal_strlit("ReferenceDefinitionGrammar");
    assert("TemporaryGrammar"@.len() != "ReferenceDefinitionGrammar"@.len());
    reveal_strlit("RollupFunctionNameSegment");
    assert("TemporaryGrammar"@.len() != "RollupFunctionNameSegment"@.len());
    reveal_strlit("SetClauseSegment");
    assert("TemporaryGrammar"@[0] != "SetClauseSegment"@[0]);
    reveal_strlit("TrimParametersGrammar");
    assert("TemporaryGrammar"@.len() != "TrimParametersGrammar"@.len());
    reveal_strlit("WildcardIdentifierSegment");
    assert("TemporaryGrammar"@.len() != "WildcardIdentifierSegment"@.len());
}

proof fn lemma_part_5_keeps_temporary_grammar(m: Map<Seq<char>, ElementView>)
    requires
        m.dom().contains("TemporaryGrammar"@),
    ensures
        ansi_library_part_5(m).dom().contains("TemporaryGrammar"@),
        ansi_library_part_5(m)["TemporaryGrammar"@] == m["TemporaryGrammar"@],
{
    reveal_strlit("TemporaryGrammar");
    reveal_strlit("AlterSequenceOptionsSegment");
    assert("TemporaryGrammar"@.len() != "AlterSequenceOptionsSegment"@.len());
    reveal_strlit("CTEColumnList");
    assert("TemporaryGrammar"@.len() != "CTEColumnList"@.len());
    reveal_strlit("CTEDefinitionSegment");
    assert("TemporaryGrammar"@.len() != "CTEDefinitionSegment"@.len());
    reveal_strlit("ColumnConstraintSegment");
    assert("TemporaryGrammar"@.len() != "ColumnConstraintSegment"@.len());
    reveal_strlit("ColumnDefinitionSegment");
    assert("TemporaryGrammar"@.len() != "ColumnDefinitionSegment"@.len());
    reveal_strlit("CommentClauseSegment");
    assert("TemporaryGrammar"@.len() != "CommentClauseSegment"@.len());
    reveal_strlit("ExtensionReferenceSegment");
    assert("TemporaryGrammar"@.len() != "ExtensionReferenceSegment"@.len());
    reveal_strlit("FrameClauseSegment");
    assert("TemporaryGrammar"@.len() != "FrameClauseSegment"@.len());
    reveal_strlit("FunctionDefinitionGrammar");
    assert("TemporaryGrammar"@.len() != "FunctionDefinitionGrammar"@.len());
    reveal_strlit("GroupByClauseSegment");
    assert("TemporaryGrammar"@.len() != "GroupByClauseSegment"@.len());
    reveal_strlit("MergeDeleteClauseSegment");
    assert("TemporaryGrammar"@.len() != "MergeDeleteClauseSegment"@.len());
    reveal_strlit("MergeInsertClauseSegment");
    assert("TemporaryGrammar"@.len() != "MergeInsertClauseSegment"@.len());
    reveal_strlit("MergeMatchSegment");
    assert("TemporaryGrammar"@.len() != "MergeMatchSegment"@.len());
    reveal_strlit("MergeMatchedClauseSegment");
    assert("TemporaryGrammar"@.len() != "MergeMatchedClauseSegment"@.len());
    reveal_strlit("MergeNotMatchedClauseSegment");
    assert("TemporaryGrammar"@.len() != "MergeNotMatchedClauseSegment"@.len());
    reveal_strlit("MergeUpdateClauseSegment");
    assert("TemporaryGrammar"@.len() != "MergeUpdateClauseSegment"@.len());
    reveal_strlit("RoleReferenceSegment");
    assert("TemporaryGrammar"@.len() != "RoleReferenceSegment"@.len());
    reveal_strlit("SchemaReferenceSegment");
    assert("TemporaryGrammar"@.len() != "SchemaReferenceSegment"@.len());
    reveal_strlit("SetClauseListSegment");
    assert("TemporaryGrammar"@.len() != "SetClauseListSegment"@.len());
    reveal_strlit("SingleIdentifierListSegment");
    assert("TemporaryGrammar"@.len() != "SingleIdentifierListSegment"@.len());
    reveal_strlit("TableEndClauseSegment");
    assert("TemporaryGrammar"@.len() != "TableEndClauseSegment"@.len());
    reveal_strlit("TablespaceReferenceSegment");
    assert("TemporaryGrammar"@.len() != "TablespaceReferenceSegment"@.len());
    reveal_strlit("TagReferenceSegment");
    assert("TemporaryGrammar"@.len() != "TagReferenceSegment"@.len());
    reveal_strlit("WithCompoundNonSelectStatementSegment");
    assert("TemporaryGrammar"@.len() != "WithCompoundNonSelectStatementSegment"@.len());
    reveal_strlit("WithCompoundStatementSegment");
    assert("TemporaryGrammar"@.len() != "WithCompoundStatementSegment"@.len());
}

proof fn lemma_part_6_keeps_temporary_grammar(m: Map<Seq<char>, ElementView>)
    requires
        m.dom().contains("TemporaryGrammar"@),
    ensures
        ansi_library_part_6(m).dom().contains("TemporaryGrammar"@),
        ansi_library_part_6(m)["TemporaryGrammar"@] == m["TemporaryGrammar"@],
{
    reveal_strlit("TemporaryGrammar");
    reveal_strlit("CollationReferenceSegment");
    assert("TemporaryGrammar"@.len() != "CollationReferenceSegment"@.len());
    reveal_strlit("CreateSequenceOptionsSegment");
    assert("TemporaryGrammar"@.len() != "CreateSequenceOptionsSegment"@.len());
    reveal_strlit("CreateSequenceStatementSegment");
    assert("TemporaryGrammar"@.len() != "CreateSequenceStatementSegment"@.len());
    reveal_strlit("CreateTriggerStatementSegment");
    assert("TemporaryGrammar"@.len() != "CreateTriggerStatementSegment"@.len());
    reveal_strlit("DatabaseReferenceSegment");
    assert("TemporaryGrammar"@.len() != "DatabaseReferenceSegment"@.len());
    reveal_strlit("DescribeStatementSegment");
    assert("TemporaryGrammar"@.len() != "DescribeStatementSegment"@.len());
    reveal_strlit("DropModelStatementSegment");
    assert("TemporaryGrammar"@.len() != "DropModelStatementSegment"@.len());
    reveal_strlit("DropTriggerStatementSegment");
    assert("TemporaryGrammar"@.len() != "DropTriggerStatementSegment"@.len());
    reveal_strlit("ExplainStatementSegment");
    assert("TemporaryGrammar"@.len() != "ExplainStatementSegment"@.len());
    reveal_strlit("IndexReferenceSegment");
    assert("TemporaryGrammar"@.len() != "IndexReferenceSegment"@.len());
    reveal_strlit("JoinClauseSegment");
    assert("TemporaryGrammar"@.len() != "JoinClauseSegment"@.len());
    reveal_strlit("JoinOnConditionSegment");
    assert("TemporaryGrammar"@.len() != "JoinOnConditionSegment"@.len());
    reveal_strlit("NamedWindowSegment");
    assert("TemporaryGrammar"@.len() != "NamedWindowSegment"@.len());
    reveal_strlit("OverClauseSegment");
    assert("TemporaryGrammar"@.len() != "OverClauseSegment"@.len());
    reveal_strlit("PartitionClauseSegment");
    assert("TemporaryGrammar"@.len() != "PartitionClauseSegment"@.len());
    reveal_strlit("SamplingExpressionSegment");
    assert("TemporaryGrammar"@.len() != "SamplingExpressionSegment"@.len());
    reveal_strlit("SequenceReferenceSegment");
    assert("TemporaryGrammar"@.len() != "SequenceReferenceSegment"@.len());
    reveal_strlit("TableConstraintSegment");
    assert("TemporaryGrammar"@.len() != "TableConstraintSegment"@.len());
    reveal_strlit("TableExpressionSegment");
    assert("TemporaryGrammar"@.len() != "TableExpressionSegment"@.len());
    reveal_strlit("TriggerReferenceSegment");
    assert("TemporaryGrammar"@.len() != "TriggerReferenceSegment"@.len());
    reveal_strlit("UseStatementSegment");
    assert("TemporaryGrammar"@.len() != "UseStatementSegment"@.len());
    reveal_strlit("WindowSpecificationSegment");
    assert("TemporaryGrammar"@.len() != "WindowSpecificationSegment"@.len());
}

proof fn lemma_part_7_keeps_temporary_grammar(m: Map<Seq<char>, ElementView>)
    requires
        m.dom().contains("TemporaryGrammar"@),
    ensures
        ansi_library_part_7(m).dom().contains("TemporaryGrammar"@),
        ansi_library_part_7(m)["TemporaryGrammar"@] == m["TemporaryGrammar"@],
{
    reveal_strlit("TemporaryGrammar");
    reveal_strlit("AccessStatementSegment");
    assert("TemporaryGrammar"@.len() != "AccessStatementSegment"@.len());
    reveal_strlit("AlterSequenceStatementSegment");
    assert("TemporaryGrammar"@.len() != "AlterSequenceStatementSegment"@.len());
    reveal_strlit("AlterTableStatementSegment");
    assert("TemporaryGrammar"@.len() != "AlterTableStatementSegment"@.len());
    reveal_strlit("CreateCastStatementSegment");
    assert("TemporaryGrammar"@.len() != "CreateCastStatementSegment"@.len());
    reveal_strlit("CreateDatabaseStatementSegment");
    assert("TemporaryGrammar"@.len() != "CreateDatabaseStatementSegment"@.len());
    reveal_strlit("CreateFunctionStatementSegment");
    assert("TemporaryGrammar"@.len() != "CreateFunctionStatementSegment"@.len());
    reveal_strlit("CreateIndexStatementSegment");
    assert("TemporaryGrammar"@.len() != "CreateIndexStatementSegment"@.len());
    reveal_strlit("CreateModelStatementSegment");
    assert("TemporaryGrammar"@.len() != "CreateModelStatementSegment"@.len());
    reveal_strlit("CreateRoleStatementSegment");
    assert("TemporaryGrammar"@.len() != "CreateRoleStatementSegment"@.len());
    reveal_strlit("CreateTableStatementSegment");
    assert("TemporaryGrammar"@.len() != "CreateTableStatementSegment"@.len());
    reveal_strlit("CreateViewStatementSegment");
    assert("TemporaryGrammar"@.len() != "CreateViewStatementSegment"@.len());
    reveal_strlit("DeleteStatementSegment");
    assert("TemporaryGrammar"@.len() != "DeleteStatementSegment"@.len());
    reveal_strlit("DropCastStatementSegment");
    assert("TemporaryGrammar"@.len() != "DropCastStatementSegment"@.len());
    reveal_strlit("DropDatabaseStatementSegment");
    assert("TemporaryGrammar"@.len() != "DropDatabaseStatementSegment"@.len());
    reveal_strlit("DropFunctionStatementSegment");
    assert("TemporaryGrammar"@.len() != "DropFunctionStatementSegment"@.len());
    reveal_strlit("DropIndexStatementSegment");
    assert("TemporaryGrammar"@.len() != "DropIndexStatementSegment"@.len());
    reveal_strlit("DropRoleStatementSegment");
    assert("TemporaryGrammar"@.len() != "DropRoleStatementSegment"@.len());
    reveal_strlit("DropSchemaStatementSegment");
    assert("TemporaryGrammar"@.len() != "DropSchemaStatementSegment"@.len());
    reveal_strlit("DropSequenceStatementSegment");
    assert("TemporaryGrammar"@.len() != "DropSequenceStatementSegment"@.len());
    reveal_strlit("DropTypeStatementSegment");
    assert("TemporaryGrammar"@.len() != "DropTypeStatementSegment"@.len());
    reveal_strlit("FunctionParameterListGrammar");
    assert("TemporaryGrammar"@.len() != "FunctionParameterListGrammar"@.len());
    reveal_strlit("InsertStatementSegment");
    assert("TemporaryGrammar"@.len() != "InsertStatementSegment"@.len());
    reveal_strlit("SetSchemaStatementSegment");
    assert("TemporaryGrammar"@.len() != "SetSchemaStatementSegment"@.len());
    reveal_strlit("TransactionStatementSegment");
    assert("TemporaryGrammar"@.len() != "TransactionStatementSegment"@.len());
    reveal_strlit("UpdateStatementSegment");
    assert("TemporaryGrammar"@.len() != "UpdateStatementSegment"@.len());
}

proof fn lemma_part_8_keeps_temporary_grammar(m: Map<Seq<char>, ElementView>)
    requires
        m.dom().contains("TemporaryGrammar"@),
    ensures
        ansi_library_part_8(m).dom().contains("TemporaryGrammar"@),
        ansi_library_part_8(m)["TemporaryGrammar"@] == m["TemporaryGrammar"@],
{
    reveal_strlit("TemporaryGrammar");
    reveal_strlit("AggregateOrderByClause");
    assert("TemporaryGrammar"@.len() != "AggregateOrderByClause"@.len());
    reveal_strlit("ArrayExpressionSegment");
    assert("TemporaryGrammar"@.len() != "ArrayExpressionSegment"@.len());
    reveal_strlit("BitwiseAndSegment");
    assert("TemporaryGrammar"@.len() != "BitwiseAndSegment"@.len());
    reveal_strlit("BitwiseLShiftSegment");
    assert("TemporaryGrammar"@.len() != "BitwiseLShiftSegment"@.len());
    reveal_strlit("BitwiseOrSegment");
    assert("TemporaryGrammar"@[0] != "BitwiseOrSegment"@[0]);
    reveal_strlit("BitwiseRShiftSegment");
    assert("TemporaryGrammar"@.len() != "BitwiseRShiftSegment"@.len());
    reveal_strlit("ConcatSegment");
    assert("TemporaryGrammar"@.len() != "ConcatSegment"@.len());
    reveal_strlit("CreateUserStatementSegment");
    assert("TemporaryGrammar"@.len() != "CreateUserStatementSegment"@.len());
    reveal_strlit("DropTableStatementSegment");
    assert("TemporaryGrammar"@.len() != "DropTableStatementSegment"@.len());
    reveal_strlit("DropUserStatementSegment");
    assert("TemporaryGrammar"@.len() != "DropUserStatementSegment"@.len());
    reveal_strlit("DropViewStatementSegment");
    assert("TemporaryGrammar"@.len() != "DropViewStatementSegment"@.len());
    reveal_strlit("ElseClauseSegment");
    assert("TemporaryGrammar"@.len() != "ElseClauseSegment"@.len());
    reveal_strlit("EqualsSegment");
    assert("TemporaryGrammar"@.len() != "EqualsSegment"@.len());
    reveal_strlit("FunctionNameSegment");
    assert("TemporaryGrammar"@.len() != "FunctionNameSegment"@.len());
    reveal_strlit("GreaterThanOrEqualToSegment");
    assert("TemporaryGrammar"@.len() != "GreaterThanOrEqualToSegment"@.len());
    reveal_strlit("GreaterThanSegment");
    assert("TemporaryGrammar"@.len() != "GreaterThanSegment"@.len());
    reveal_strlit("IndexColumnDefinitionSegment");
    assert("TemporaryGrammar"@.len() != "IndexColumnDefinitionSegment"@.len());
    reveal_strlit("LessThanOrEqualToSegment");
    assert("TemporaryGrammar"@.len() != "LessThanOrEqualToSegment"@.len());
    reveal_strlit("LessThanSegment");
    assert("TemporaryGrammar"@.len() != "LessThanSegment"@.len());
    reveal_strlit("LocalAliasSegment");
    assert("TemporaryGrammar"@.len() != "LocalAliasSegment"@.len());
    reveal_strlit("MergeStatementSegment");
    assert("TemporaryGrammar"@.len() != "MergeStatementSegment"@.len());
    reveal_strlit("NotEqualToSegment");
    assert("TemporaryGrammar"@.len() != "NotEqualToSegment"@.len());
    reveal_strlit("QualifiedNumericLiteralSegment");
    assert("TemporaryGrammar"@.len() != "QualifiedNumericLiteralSegment"@.len());
    reveal_strlit("WhenClauseSegment");
    assert("TemporaryGrammar"@.len() != "WhenClauseSegment"@.len());
    reveal_strlit("WhereClauseSegment");
    assert("TemporaryGrammar"@.len() != "WhereClauseSegment"@.len());
}

proof fn lemma_part_9_keeps_temporary_grammar(m: Map<Seq<char>, ElementView>)
    requires
        m.dom().contains("TemporaryGrammar"@),
    ensures
        ansi_library_part_9(m).dom().contains("TemporaryGrammar"@),
        ansi_library_part_9(m)["TemporaryGrammar"@] == m["TemporaryGrammar"@],
{
    reveal_strlit("TemporaryGrammar");
    reveal_strlit("AliasExpressionSegment");
    assert("TemporaryGrammar"@.len() != "AliasExpressionSegment"@.len());
    reveal_strlit("ArrayAccessorSegment");
    assert("TemporaryGrammar"@.len() != "ArrayAccessorSegment"@.len());
    reveal_strlit("ArrayLiteralSegment");
    assert("TemporaryGrammar"@.len() != "ArrayLiteralSegment"@.len());
    reveal_strlit("ArrayTypeSegment");
    assert("TemporaryGrammar"@[0] != "ArrayTypeSegment"@[0]);
    reveal_strlit("BracketedArguments");
    assert("TemporaryGrammar"@.len() != "BracketedArguments"@.len());
    reveal_strlit("DatatypeSegment");
    assert("TemporaryGrammar"@.len() != "DatatypeSegment"@.len());
    reveal_strlit("EmptyStructLiteralSegment");
    assert("TemporaryGrammar"@.len() != "EmptyStructLiteralSegment"@.len());
    reveal_strlit("IntervalExpressionSegment");
    assert("TemporaryGrammar"@.len() != "IntervalExpressionSegment"@.len());
    reveal_strlit("ObjectLiteralElementSegment");
    assert("TemporaryGrammar"@.len() != "ObjectLiteralElementSegment"@.len());
    reveal_strlit("ObjectLiteralSegment");
    assert("TemporaryGrammar"@.len() != "ObjectLiteralSegment"@.len());
    reveal_strlit("OverlapsClauseSegment");
    assert("TemporaryGrammar"@.len() != "OverlapsClauseSegment"@.len());
    reveal_strlit("SelectClauseSegment");
    assert("TemporaryGrammar"@.len() != "SelectClauseSegment"@.len());
    reveal_strlit("SetOperatorSegment");
    assert("TemporaryGrammar"@.len() != "SetOperatorSegment"@.len());
    reveal_strlit("ShorthandCastSegment");
    assert("TemporaryGrammar"@.len() != "ShorthandCastSegment"@.len());
    reveal_strlit("SizedArrayTypeSegment");
    assert("TemporaryGrammar"@.len() != "SizedArrayTypeSegment"@.len());
    reveal_strlit("StatementSegment");
    assert("TemporaryGrammar"@[0] != "StatementSegment"@[0]);
    reveal_strlit("StructLiteralSegment");
    assert("TemporaryGrammar"@.len() != "StructLiteralSegment"@.len());
    reveal_strlit("StructTypeSegment");
    assert("TemporaryGrammar"@.len() != "StructTypeSegment"@.len());
    reveal_strlit("TimeZoneGrammar");
    assert("TemporaryGrammar"@.len() != "TimeZoneGrammar"@.len());
    reveal_strlit("TypedArrayLiteralSegment");
    assert("TemporaryGrammar"@.len() != "TypedArrayLiteralSegment"@.len());
    reveal_strlit("TypedStructLiteralSegment");
    assert("TemporaryGrammar"@.len() != "TypedStructLiteralSegment"@.len());
    reveal_strlit("UnorderedSelectStatementSegment");
    assert("TemporaryGrammar"@.len() != "UnorderedSelectStatementSegment"@.len());
    reveal_strlit("ValuesClauseSegment");
    assert("TemporaryGrammar"@.len() != "ValuesClauseSegment"@.len());
    reveal_strlit("WithDataClauseSegment");
    assert("TemporaryGrammar"@.len() != "WithDataClauseSegment"@.len());
    reveal_strlit("WithNoSchemaBindingClauseSegment");
    assert("TemporaryGrammar"@.len() != "WithNoSchemaBindingClauseSegment"@.len());
}

proof fn lemma_part_10_keeps_temporary_grammar(m: Map<Seq<char>, ElementView>)
    requires
        m.dom().contains("TemporaryGrammar"@),
    ensures
        ansi_library_part_10(m).dom().contains("TemporaryGrammar"@),
        ansi_library_part_10(m)["TemporaryGrammar"@] == m["TemporaryGrammar"@],
{
    reveal_strlit("TemporaryGrammar");
    reveal_strlit("AccessStatementSegmentGrantRoleWithOptionGrammar");
    assert("TemporaryGrammar"@.len() != "AccessStatementSegmentGrantRoleWithOptionGrammar"@.len());
    reveal_strlit("AliasedTableReferenceGrammar");
    assert("TemporaryGrammar"@.len() != "AliasedTableReferenceGrammar"@.len());
    reveal_strlit("CharCharacterSetGrammar");
    assert("TemporaryGrammar"@.len() != "CharCharacterSetGrammar"@.len());
    reveal_strlit("CreateSchemaStatementSegment");
    assert("TemporaryGrammar"@.len() != "CreateSchemaStatementSegment"@.len());
    reveal_strlit("DatePartFunctionNameSegment");
    assert("TemporaryGrammar"@.len() != "DatePartFunctionNameSegment"@.len());
    reveal_strlit("EmptyStructLiteralBracketsSegment");
    assert("TemporaryGrammar"@.len() != "EmptyStructLiteralBracketsSegment"@.len());
    reveal_strlit("Expression_A_Grammar");
    assert("TemporaryGrammar"@.len() != "Expression_A_Grammar"@.len());
    reveal_strlit("Expression_A_Unary_Operator_Grammar");
    assert("TemporaryGrammar"@.len() != "Expression_A_Unary_Operator_Grammar"@.len());
    reveal_strlit("Expression_B_Unary_Operator_Grammar");
    assert("TemporaryGrammar"@.len() != "Expression_B_Unary_Operator_Grammar"@.len());
    reveal_strlit("FromClauseSegment");
    assert("TemporaryGrammar"@.len() != "FromClauseSegment"@.len());
    reveal_strlit("FromExpressionSegment");
    assert("TemporaryGrammar"@.len() != "FromExpressionSegment"@.len());
    reveal_strlit("FunctionContentsExpressionGrammar");
    assert("TemporaryGrammar"@.len() != "FunctionContentsExpressionGrammar"@.len());
    reveal_strlit("FunctionContentsGrammar");
    assert("TemporaryGrammar"@.len() != "FunctionContentsGrammar"@.len());
    reveal_strlit("FunctionContentsSegment");
    assert("TemporaryGrammar"@.len() != "FunctionContentsSegment"@.len());
    reveal_strlit("JoinLikeClauseGrammar");
    assert("TemporaryGrammar"@.len() != "JoinLikeClauseGrammar"@.len());
    reveal_strlit("OrderByClauseSegment");
    assert("TemporaryGrammar"@.len() != "OrderByClauseSegment"@.len());
    reveal_strlit("PostFunctionGrammar");
    assert("TemporaryGrammar"@.len() != "PostFunctionGrammar"@.len());
    reveal_strlit("SelectClauseElementSegment");
    assert("TemporaryGrammar"@.len() != "SelectClauseElementSegment"@.len());
    reveal_strlit("SelectClauseModifierSegment");
    assert("TemporaryGrammar"@.len() != "SelectClauseModifierSegment"@.len());
    reveal_strlit("SelectStatementSegment");
    assert("TemporaryGrammar"@.len() != "SelectStatementSegment"@.len());
    reveal_strlit("SetExpressionSegment");
    assert("TemporaryGrammar"@.len() != "SetExpressionSegment"@.len());
    reveal_strlit("Tail_Recurse_Expression_A_Grammar");
    assert("TemporaryGrammar"@.len() != "Tail_Recurse_Expression_A_Grammar"@.len());
    reveal_strlit("Tail_Recurse_Expression_B_Grammar");
    assert("TemporaryGrammar"@.len() != "Tail_Recurse_Expression_B_Grammar"@.len());
    reveal_strlit("TruncateStatementSegment");
    assert("TemporaryGrammar"@.len() != "TruncateStatementSegment"@.len());
    reveal_strlit("WildcardExpressionSegment");
    assert("TemporaryGrammar"@.len() != "WildcardExpressionSegment"@.len());
}

proof fn lemma_part_11_keeps_temporary_grammar(m: Map<Seq<char>, ElementView>)
    requires
        m.dom().contains("TemporaryGrammar"@),
    ensures
        ansi_library_part_11(m).dom().contains("TemporaryGrammar"@),
        ansi_library_part_11(m)["TemporaryGrammar"@] == m["TemporaryGrammar"@],
{
    reveal_strlit("TemporaryGrammar");
    reveal_strlit("AccessorGrammar");
    assert("TemporaryGrammar"@.len() != "AccessorGrammar"@.len());
    reveal_strlit("Expression_B_Grammar");
    assert("TemporaryGrammar"@.len() != "Expression_B_Grammar"@.len());
    reveal_strlit("Expression_C_Grammar");
    assert("TemporaryGrammar"@.len() != "Expression_C_Grammar"@.len());
    reveal_strlit("Expression_D_Grammar");
    assert("TemporaryGrammar"@.len() != "Expression_D_Grammar"@.len());
    reveal_strlit("NonSetSelectableGrammar");
    assert("TemporaryGrammar"@.len() != "NonSetSelectableGrammar"@.len());
    reveal_strlit("NonWithNonSelectableGrammar");
    assert("TemporaryGrammar"@.len() != "NonWithNonSelectableGrammar"@.len());
    reveal_strlit("NonWithSelectableGrammar");
    assert("TemporaryGrammar"@.len() != "NonWithSelectableGrammar"@.len());
    reveal_strlit("PostTableExpressionGrammar");
    assert("TemporaryGrammar"@.len() != "PostTableExpressionGrammar"@.len());
    reveal_strlit("SelectableGrammar");
    assert("TemporaryGrammar"@.len() != "SelectableGrammar"@.len());
    reveal_strlit("TimeWithTZGrammar");
    assert("TemporaryGrammar"@.len() != "TimeWithTZGrammar"@.len());
}

/// The ANSI library holds `TemporaryGrammar`: the value of its last entry of that name.
pub proof fn lemma_ansi_library_temporary_grammar(lib: Map<Seq<char>, ElementView>)
    ensures
        ansi_library(lib).dom().contains("TemporaryGrammar"@),
        ansi_library(lib)["TemporaryGrammar"@] == temporary_grammar_element(),
{
    reveal(ansi_library);
    let m0 = lib;
    let m1 = ansi_library_part_0(m0);
    let m2 = ansi_library_part_1(m1);
    let m3 = ansi_library_part_2(m2);
    let m4 = ansi_library_part_3(m3);
    let m5 = ansi_library_part_4(m4);
    let m6 = ansi_library_part_5(m5);
    let m7 = ansi_library_part_6(m6);
    let m8 = ansi_library_part_7(m7);
    let m9 = ansi_library_part_8(m8);
    let m10 = ansi_library_part_9(m9);
    let m11 = ansi_library_part_10(m10);
    let m12 = ansi_library_part_11(m11);
    lemma_part_2_sets_temporary_grammar(m2);
    lemma_part_3_keeps_temporary_grammar(m3);
    lemma_part_4_keeps_temporary_grammar(m4);
    lemma_part_5_keeps_temporary_grammar(m5);
    lemma_part_6_keeps_temporary_grammar(m6);
    lemma_part_7_keeps_temporary_grammar(m7);
    lemma_part_8_keeps_temporary_grammar(m8);
    lemma_part_9_keeps_temporary_grammar(m9);
    lemma_part_10_keeps_temporary_grammar(m10);
    lemma_part_11_keeps_temporary_grammar(m11);
}

/// In the ANSI dialect `DeleteStatementSegment` is a `delete_statement` node:
/// `DELETE`, a `FROM` clause, then an optional `WHERE` clause.
/// The same holds of the ANSI library added to any library.
pub proof fn law_ansi_delete_statement(unreserved: Seq<char>, reserved: Seq<char>, lib: Map<Seq<char>, ElementView>)
    ensures
        ({
            let e = (ElementView::Node { kind: "delete_statement"@, grammar: GrammarView::sequence(seq![GrammarView::keyword("DELETE"@), GrammarView::reference("FromClauseSegment"@), GrammarView::optional_reference("WhereClauseSegment"@)]) });
            &&& ansi_raw_dialect_view(unreserved, reserved).element("DeleteStatementSegment"@) == Some(e)
            &&& ansi_library(lib).dom().contains("DeleteStatementSegment"@)
            &&& ansi_library(lib)["DeleteStatementSegment"@] == e
        }),
{
    lemma_ansi_library_delete_statement_segment(lib);
    lemma_ansi_library_delete_statement_segment(Map::empty());
}

/// In the ANSI dialect `UseStatementSegment` is a `use_statement` node: `USE`
/// and a database reference.
/// The same holds of the ANSI library added to any library.
pub proof fn law_ansi_use_statement(unreserved: Seq<char>, reserved: Seq<char>, lib: Map<Seq<char>, ElementView>)
    ensures
        ({
            let e = (ElementView::Node { kind: "use_statement"@, grammar: GrammarView::sequence(seq![GrammarView::keyword("USE"@), GrammarView::reference("DatabaseReferenceSegment"@)]) });
            &&& ansi_raw_dialect_view(unreserved, reserved).element("UseStatementSegment"@) == Some(e)
            &&& ansi_library(lib).dom().contains("UseStatementSegment"@)
            &&& ansi_library(lib)["UseStatementSegment"@] == e
        }),
{
    lemma_ansi_library_use_statement_segment(lib);
    lemma_ansi_library_use_statement_segment(Map::empty());
}

/// In the ANSI dialect `DescribeStatementSegment` is a `describe_statement`
/// node: `DESCRIBE`, an identifier naming the kind of object, and an object
/// reference.
/// The same holds of the ANSI library added to any library.
pub proof fn law_ansi_describe_statement(unreserved: Seq<char>, reserved: Seq<char>, lib: Map<Seq<char>, ElementView>)
    ensures
        ({
            let e = (ElementView::Node { kind: "describe_statement"@, grammar: GrammarView::sequence(seq![GrammarView::keyword("DESCRIBE"@), GrammarView::reference("NakedIdentifierSegment"@), GrammarView::reference("ObjectReferenceSegment"@)]) });
            &&& ansi_raw_dialect_view(unreserved, reserved).element("DescribeStatementSegment"@) == Some(e)
            &&& ansi_library(lib).dom().contains("DescribeStatementSegment"@)
            &&& ansi_library(lib)["DescribeStatementSegment"@] == e
        }),
{
    lemma_ansi_library_describe_statement_segment(lib);
    lemma_ansi_library_describe_statement_segment(Map::empty());
}

/// In the ANSI dialect `TruncateStatementSegment` is a `truncate_statement`
/// node: `TRUNCATE`, an optional `TABLE`, and a table reference.
/// The same holds of the ANSI library added to any library.
pub proof fn law_ansi_truncate_statement(unreserved: Seq<char>, reserved: Seq<char>, lib: Map<Seq<char>, ElementView>)
    ensures
        ({
            let e = (ElementView::Node { kind: "truncate_statement"@, grammar: GrammarView::sequence(seq![GrammarView::keyword("TRUNCATE"@), (GrammarView::Optional { grammar: Box::new(GrammarView::keyword("TABLE"@)) }), GrammarView::reference("TableReferenceSegment"@)]) });
            &&& ansi_raw_dialect_view(unreserved, reserved).element("TruncateStatementSegment"@) == Some(e)
            &&& ansi_library(lib).dom().contains("TruncateStatementSegment"@)
            &&& ansi_library(lib)["TruncateStatementSegment"@] == e
        }),
{
    lemma_ansi_library_truncate_statement_segment(lib);
    lemma_ansi_library_truncate_statement_segment(Map::empty());
}

/// In the ANSI dialect `CreateSchemaStatementSegment` is a
/// `create_schema_statement` node: `CREATE SCHEMA`, an optional
/// `IF NOT EXISTS`, and a schema reference.
/// The same holds of the ANSI library added to any library.
pub proof fn law_ansi_create_schema_statement(unreserved: Seq<char>, reserved: Seq<char>, lib: Map<Seq<char>, ElementView>)
    ensures
        ({
            let e = (ElementView::Node { kind: "create_schema_statement"@, grammar: GrammarView::sequence(seq![GrammarView::keyword("CREATE"@), GrammarView::keyword("SCHEMA"@), GrammarView::optional_reference("IfNotExistsGrammar"@), GrammarView::reference("SchemaReferenceSegment"@)]) });
            &&& ansi_raw_dialect_view(unreserved, reserved).element("CreateSchemaStatementSegment"@) == Some(e)
            &&& ansi_library(lib).dom().contains("CreateSchemaStatementSegment"@)
            &&& ansi_library(lib)["CreateSchemaStatementSegment"@] == e
        }),
{
    lemma_ansi_library_create_schema_statement_segment(lib);
    lemma_ansi_library_create_schema_statement_segment(Map::empty());
}

/// In the ANSI dialect `DropSchemaStatementSegment` is a
/// `drop_schema_statement` node: `DROP SCHEMA`, an optional `IF EXISTS`, a
/// schema reference and an optional drop behaviour.
/// The same holds of the ANSI library added to any library.
pub proof fn law_ansi_drop_schema_statement(unreserved: Seq<char>, reserved: Seq<char>, lib: Map<Seq<char>, ElementView>)
    ensures
        ({
            let e = (ElementView::Node { kind: "drop_schema_statement"@, grammar: GrammarView::sequence(seq![GrammarView::keyword("DROP"@), GrammarView::keyword("SCHEMA"@), GrammarView::optional_reference("IfExistsGrammar"@), GrammarView::reference("SchemaReferenceSegment"@), GrammarView::optional_reference("DropBehaviorGrammar"@)]) });
            &&& ansi_raw_dialect_view(unreserved, reserved).element("DropSchemaStatementSegment"@) == Some(e)
            &&& ansi_library(lib).dom().contains("DropSchemaStatementSegment"@)
            &&& ansi_library(lib)["DropSchemaStatementSegment"@] == e
        }),
{
    lemma_ansi_library_drop_schema_statement_segment(lib);
    lemma_ansi_library_drop_schema_statement_segment(Map::empty());
}

/// In the ANSI dialect `LikeGrammar` is one of `LIKE`, `RLIKE` and `ILIKE`.
/// The same holds of the ANSI library added to any library.
pub proof fn law_ansi_like(unreserved: Seq<char>, reserved: Seq<char>, lib: Map<Seq<char>, ElementView>)
    ensures
        ({
            let e = ElementView::Grammar(GrammarView::one_of(seq![GrammarView::keyword("LIKE"@), GrammarView::keyword("RLIKE"@), GrammarView::keyword("ILIKE"@)]));
            &&& ansi_raw_dialect_view(unreserved, reserved).element("LikeGrammar"@) == Some(e)
            &&& ansi_library(lib).dom().contains("LikeGrammar"@)
            &&& ansi_library(lib)["LikeGrammar"@] == e
        }),
{
    lemma_ansi_library_like_grammar(lib);
    lemma_ansi_library_like_grammar(Map::empty());
}

/// In the ANSI dialect `SelectClauseModifierSegment` is a
/// `select_clause_modifier` node: `DISTINCT` or `ALL`.
/// The same holds of the ANSI library added to any library.
pub proof fn law_ansi_select_clause_modifier(unreserved: Seq<char>, reserved: Seq<char>, lib: Map<Seq<char>, ElementView>)
    ensures
        ({
            let e = (ElementView::Node { kind: "select_clause_modifier"@, grammar: GrammarView::one_of(seq![GrammarView::keyword("DISTINCT"@), GrammarView::keyword("ALL"@)]) });
            &&& ansi_raw_dialect_view(unreserved, reserved).element("SelectClauseModifierSegment"@) == Some(e)
            &&& ansi_library(lib).dom().contains("SelectClauseModifierSegment"@)
            &&& ansi_library(lib)["SelectClauseModifierSegment"@] == e
        }),
{
    lemma_ansi_library_select_clause_modifier_segment(lib);
    lemma_ansi_library_select_clause_modifier_segment(Map::empty());
}

/// In the ANSI dialect `ElseClauseSegment` is an `else_clause` node: `ELSE`,
/// an implicit indent, an expression, then a dedent.
/// The same holds of the ANSI library added to any library.
pub proof fn law_ansi_else_clause(unreserved: Seq<char>, reserved: Seq<char>, lib: Map<Seq<char>, ElementView>)
    ensures
        ({
            let e = (ElementView::Node { kind: "else_clause"@, grammar: GrammarView::sequence(seq![GrammarView::keyword("ELSE"@), GrammarView::ImplicitIndent, GrammarView::reference("ExpressionSegment"@), GrammarView::Dedent]) });
            &&& ansi_raw_dialect_view(unreserved, reserved).element("ElseClauseSegment"@) == Some(e)
            &&& ansi_library(lib).dom().contains("ElseClauseSegment"@)
            &&& ansi_library(lib)["ElseClauseSegment"@] == e
        }),
{
    lemma_ansi_library_else_clause_segment(lib);
    lemma_ansi_library_else_clause_segment(Map::empty());
}

/// In the ANSI dialect `FetchClauseSegment` is a `fetch_clause` node: `FETCH`,
/// `FIRST` or `NEXT`, an optional number, `ROW` or `ROWS`, then `ONLY`.
/// The same holds of the ANSI library added to any library.
pub proof fn law_ansi_fetch_clause(unreserved: Seq<char>, reserved: Seq<char>, lib: Map<Seq<char>, ElementView>)
    ensures
        ({
            let e = (ElementView::Node { kind: "fetch_clause"@, grammar: GrammarView::sequence(seq![GrammarView::keyword("FETCH"@), GrammarView::one_of(seq![GrammarView::keyword("FIRST"@), GrammarView::keyword("NEXT"@)]), GrammarView::optional_reference("NumericLiteralSegment"@), GrammarView::one_of(seq![GrammarView::keyword("ROW"@), GrammarView::keyword("ROWS"@)]), GrammarView::keyword("ONLY"@)]) });
            &&& ansi_raw_dialect_view(unreserved, reserved).element("FetchClauseSegment"@) == Some(e)
            &&& ansi_library(lib).dom().contains("FetchClauseSegment"@)
            &&& ansi_library(lib)["FetchClauseSegment"@] == e
        }),
{
    lemma_ansi_library_fetch_clause_segment(lib);
    lemma_ansi_library_fetch_clause_segment(Map::empty());
}

/// In the ANSI dialect `DropBehaviorGrammar` is an optional `RESTRICT` or
/// `CASCADE`.
/// The same holds of the ANSI library added to any library.
pub proof fn law_ansi_drop_behavior(unreserved: Seq<char>, reserved: Seq<char>, lib: Map<Seq<char>, ElementView>)
    ensures
        ({
            let e = ElementView::Grammar((GrammarView::Optional { grammar: Box::new(GrammarView::one_of(seq![GrammarView::keyword("RESTRICT"@), GrammarView::keyword("CASCADE"@)])) }));
            &&& ansi_raw_dialect_view(unreserved, reserved).element("DropBehaviorGrammar"@) == Some(e)
            &&& ansi_library(lib).dom().contains("DropBehaviorGrammar"@)
            &&& ansi_library(lib)["DropBehaviorGrammar"@] == e
        }),
{
    lemma_ansi_library_drop_behavior_grammar(lib);
    lemma_ansi_library_drop_behavior_grammar(Map::empty());
}

/// In the ANSI dialect `TemporaryGrammar` is `TEMP` or `TEMPORARY`.
/// The same holds of the ANSI library added to any library.
pub proof fn law_ansi_temporary(unreserved: Seq<char>, reserved: Seq<char>, lib: Map<Seq<char>, ElementView>)
    ensures
        ({
            let e = ElementView::Grammar(GrammarView::one_of(seq![GrammarView::keyword("TEMP"@), GrammarView::keyword("TEMPORARY"@)]));
            &&& ansi_raw_dialect_view(unreserved, reserved).element("TemporaryGrammar"@) == Some(e)
            &&& ansi_library(lib).dom().contains("TemporaryGrammar"@)
            &&& ansi_library(lib)["TemporaryGrammar"@] == e
        }),
{
    lemma_ansi_library_temporary_grammar(lib);
    lemma_ansi_library_temporary_grammar(Map::empty());
}

proof fn lemma_part_4_sets_limit_clause_segment(m: Map<Seq<char>, ElementView>)
    ensures
        ansi_library_part_4(m).dom().contains("LimitClauseSegment"@),
        ansi_library_part_4(m)["LimitClauseSegment"@] == limit_clause_segment_element(),
{
    reveal_strlit("LimitClauseSegment");
    reveal_strlit("CubeFunctionNameSegment");
    assert("LimitClauseSegment"@.len() != "CubeFunctionNameSegment"@.len());
    reveal_strlit("CubeRollupClauseSegment");
    assert("LimitClauseSegment"@.len() != "CubeRollupClauseSegment"@.len());
    reveal_strlit("FetchClauseSegment");
    assert("LimitClauseSegment"@[0] != "FetchClauseSegment"@[0]);
    reveal_strlit("GroupingExpressionList");
    assert("LimitClauseSegment"@.len() != "GroupingExpressionList"@.len());
    reveal_strlit("GroupingSetsClauseSegment");
    assert("LimitClauseSegment"@.len() != "GroupingSetsClauseSegment"@.len());
    reveal_strlit("RollupFunctionNameSegment");
    assert("LimitClauseSegment"@.len() != "RollupFunctionNameSegment"@.len());
    reveal_strlit("SetClauseSegment");
    assert("LimitClauseSegment"@.len() != "SetClauseSegment"@.len());
}

proof fn lemma_part_5_keeps_limit_clause_segment(m: Map<Seq<char>, ElementView>)
    requires
        m.dom().contains("LimitClauseSegment"@),
    ensures
        ansi_library_part_5(m).dom().contains("LimitClauseSegment"@),
        ansi_library_part_5(m)["LimitClauseSegment"@] == m["LimitClauseSegment"@],
{
    reveal_strlit("LimitClauseSegment");
    reveal_strlit("AlterSequenceOptionsSegment");
    assert("LimitClauseSegment"@.len() != "AlterSequenceOptionsSegment"@.len());
    reveal_strlit("CTEColumnList");
    assert("LimitClauseSegment"@.len() != "CTEColumnList"@.len());
    reveal_strlit("CTEDefinitionSegment");
    assert("LimitClauseSegment"@.len() != "CTEDefinitionSegment"@.len());
    reveal_strlit("ColumnConstraintSegment");
    assert("LimitClauseSegment"@.len() != "ColumnConstraintSegment"@.len());
    reveal_strlit("ColumnDefinitionSegment");
    assert("LimitClauseSegment"@.len() != "ColumnDefinitionSegment"@.len());
    reveal_strlit("CommentClauseSegment");
    assert("LimitClauseSegment"@.len() != "CommentClauseSegment"@.len());
    reveal_strlit("ExtensionReferenceSegment");
    assert("LimitClauseSegment"@.len() != "ExtensionReferenceSegment"@.len());
    reveal_strlit("FrameClauseSegment");
    assert("LimitClauseSegment"@[0] != "FrameClauseSegment"@[0]);
    reveal_strlit("FunctionDefinitionGrammar");
    assert("LimitClauseSegment"@.len() != "FunctionDefinitionGrammar"@.len());
    reveal_strlit("GroupByClauseSegment");
    assert("LimitClauseSegment"@.len() != "GroupByClauseSegment"@.len());
    reveal_strlit("MergeDeleteClauseSegment");
    assert("LimitClauseSegment"@.len() != "MergeDeleteClauseSegment"@.len());
    reveal_strlit("MergeInsertClauseSegment");
    assert("LimitClauseSegment"@.len() != "MergeInsertClauseSegment"@.len());
    reveal_strlit("MergeMatchSegment");
    assert("LimitClauseSegment"@.len() != "MergeMatchSegment"@.len());
    reveal_strlit("MergeMatchedClauseSegment");
    assert("LimitClauseSegment"@.len() != "MergeMatchedClauseSegment"@.len());
    reveal_strlit("MergeNotMatchedClauseSegment");
    assert("LimitClauseSegment"@.len() != "MergeNotMatchedClauseSegment"@.len());
    reveal_strlit("MergeUpdateClauseSegment");
    assert("LimitClauseSegment"@.len() != "MergeUpdateClauseSegment"@.len());
    reveal_strlit("RoleReferenceSegment");
    assert("LimitClauseSegment"@.len() != "RoleReferenceSegment"@.len());
    reveal_strlit("SchemaReferenceSegment");
    assert("LimitClauseSegment"@.len() != "SchemaReferenceSegment"@.len());
    reveal_strlit("SetClauseListSegment");
    assert("LimitClauseSegment"@.len() != "SetClauseListSegment"@.len());
    reveal_strlit("SingleIdentifierListSegment");
    assert("LimitClauseSegment"@.len() != "SingleIdentifierListSegment"@.len());
    reveal_strlit("TableEndClauseSegment");
    assert("LimitClauseSegment"@.len() != "TableEndClauseSegment"@.len());
    reveal_strlit("TablespaceReferenceSegment");
    assert("LimitClauseSegment"@.len() != "TablespaceReferenceSegment"@.len());
    reveal_strlit("TagReferenceSegment");
    assert("LimitClauseSegment"@.len() != "TagReferenceSegment"@.len());
    reveal_strlit("WithCompoundNonSelectStatementSegment");
    assert("LimitClauseSegment"@.len() != "WithCompoundNonSelectStatementSegment"@.len());
    reveal_strlit("WithCompoundStatementSegment");
    assert("LimitClauseSegment"@.len() != "WithCompoundStatementSegment"@.len());
}

proof fn lemma_part_6_keeps_limit_clause_segment(m: Map<Seq<char>, ElementView>)
    requires
        m.dom().contains("LimitClauseSegment"@),
    ensures
        ansi_library_part_6(m).dom().contains("LimitClauseSegment"@),
        ansi_library_part_6(m)["LimitClauseSegment"@] == m["LimitClauseSegment"@],
{
    reveal_strlit("LimitClauseSegment");
    reveal_strlit("CollationReferenceSegment");
    assert("LimitClauseSegment"@.len() != "CollationReferenceSegment"@.len());
    reveal_strlit("CreateSequenceOptionsSegment");
    assert("LimitClauseSegment"@.len() != "CreateSequenceOptionsSegment"@.len());
    reveal_strlit("CreateSequenceStatementSegment");
    assert("LimitClauseSegment"@.len() != "CreateSequenceStatementSegment"@.len());
    reveal_strlit("CreateTriggerStatementSegment");
    assert("LimitClauseSegment"@.len() != "CreateTriggerStatementSegment"@.len());
    reveal_strlit("DatabaseReferenceSegment");
    assert("LimitClauseSegment"@.len() != "DatabaseReferenceSegment"@.len());
    reveal_strlit("DescribeStatementSegment");
    assert("LimitClauseSegment"@.len() != "DescribeStatementSegment"@.len());
    reveal_strlit("DropModelStatementSegment");
    assert("LimitClauseSegment"@.len() != "DropModelStatementSegment"@.len());
    reveal_strlit("DropTriggerStatementSegment");
    assert("LimitClauseSegment"@.len() != "DropTriggerStatementSegment"@.len());
    reveal_strlit("ExplainStatementSegment");
    assert("LimitClauseSegment"@.len() != "ExplainStatementSegment"@.len());
    reveal_strlit("IndexReferenceSegment");
    assert("LimitClauseSegment"@.len() != "IndexReferenceSegment"@.len());
    reveal_strlit("JoinClauseSegment");
    assert("LimitClauseSegment"@.len() != "JoinClauseSegment"@.len());
    reveal_strlit("JoinOnConditionSegment");
    assert("LimitClauseSegment"@.len() != "JoinOnConditionSegment"@.len());
    reveal_strlit("NamedWindowSegment");
    assert("LimitClauseSegment"@[0] != "NamedWindowSegment"@[0]);
    reveal_strlit("OverClauseSegment");
    assert("LimitClauseSegment"@.len() != "OverClauseSegment"@.len());
    reveal_strlit("PartitionClauseSegment");
    assert("LimitClauseSegment"@.len() != "PartitionClauseSegment"@.len());
    reveal_strlit("SamplingExpressionSegment");
    assert("LimitClauseSegment"@.len() != "SamplingExpressionSegment"@.len());
    reveal_strlit("SequenceReferenceSegment");
    assert("LimitClauseSegment"@.len() != "SequenceReferenceSegment"@.len());
    reveal_strlit("TableConstraintSegment");
    assert("LimitClauseSegment"@.len() != "TableConstraintSegment"@.len());
    reveal_strlit("TableExpressionSegment");
    assert("LimitClauseSegment"@.len() != "TableExpressionSegment"@.len());
    reveal_strlit("TriggerReferenceSegment");
    assert("LimitClauseSegment"@.len() != "TriggerReferenceSegment"@.len());
    reveal_strlit("UseStatementSegment");
    assert("LimitClauseSegment"@.len() != "UseStatementSegment"@.len());
    reveal_strlit("WindowSpecificationSegment");
    assert("LimitClauseSegment"@.len() != "WindowSpecificationSegment"@.len());
}

proof fn lemma_part_7_keeps_limit_clause_segment(m: Map<Seq<char>, ElementView>)
    requires
        m.dom().contains("LimitClauseSegment"@),
    ensures
        ansi_library_part_7(m).dom().contains("LimitClauseSegment"@),
        ansi_library_part_7(m)["LimitClauseSegment"@] == m["LimitClauseSegment"@],
{
    reveal_strlit("LimitClauseSegment");
    reveal_strlit("AccessStatementSegment");
    assert("LimitClauseSegment"@.len() != "AccessStatementSegment"@.len());
    reveal_strlit("AlterSequenceStatementSegment");
    assert("LimitClauseSegment"@.len() != "AlterSequenceStatementSegment"@.len());
    reveal_strlit("AlterTableStatementSegment");
    assert("LimitClauseSegment"@.len() != "AlterTableStatementSegment"@.len());
    reveal_strlit("CreateCastStatementSegment");
    assert("LimitClauseSegment"@.len() != "CreateCastStatementSegment"@.len());
    reveal_strlit("CreateDatabaseStatementSegment");
    assert("LimitClauseSegment"@.len() != "CreateDatabaseStatementSegment"@.len());
    reveal_strlit("CreateFunctionStatementSegment");
    assert("LimitClauseSegment"@.len() != "CreateFunctionStatementSegment"@.len());
    reveal_strlit("CreateIndexStatementSegment");
    assert("LimitClauseSegment"@.len() != "CreateIndexStatementSegment"@.len());
    reveal_strlit("CreateModelStatementSegment");
    assert("LimitClauseSegment"@.len() != "CreateModelStatementSegment"@.len());
    reveal_strlit("CreateRoleStatementSegment");
    assert("LimitClauseSegment"@.len() != "CreateRoleStatementSegment"@.len());
    reveal_strlit("CreateTableStatementSegment");
    assert("LimitClauseSegment"@.len() != "CreateTableStatementSegment"@.len());
    reveal_strlit("CreateViewStatementSegment");
    assert("LimitClauseSegment"@.len() != "CreateViewStatementSegment"@.len());
    reveal_strlit("DeleteStatementSegment");
    assert("LimitClauseSegment"@.len() != "DeleteStatementSegment"@.len());
    reveal_strlit("DropCastStatementSegment");
    assert("LimitClauseSegment"@.len() != "DropCastStatementSegment"@.len());
    reveal_strlit("DropDatabaseStatementSegment");
    assert("LimitClauseSegment"@.len() != "DropDatabaseStatementSegment"@.len());
    reveal_strlit("DropFunctionStatementSegment");
    assert("LimitClauseSegment"@.len() != "DropFunctionStatementSegment"@.len());
    reveal_strlit("DropIndexStatementSegment");
    assert("LimitClauseSegment"@.len() != "DropIndexStatementSegment"@.len());
    reveal_strlit("DropRoleStatementSegment");
    assert("LimitClauseSegment"@.len() != "DropRoleStatementSegment"@.len());
    reveal_strlit("DropSchemaStatementSegment");
    assert("LimitClauseSegment"@.len() != "DropSchemaStatementSegment"@.len());
    reveal_strlit("DropSequenceStatementSegment");
    assert("LimitClauseSegment"@.len() != "DropSequenceStatementSegment"@.len());
    reveal_strlit("DropTypeStatementSegment");
    assert("LimitClauseSegment"@.len() != "DropTypeStatementSegment"@.len());
    reveal_strlit("FunctionParameterListGrammar");
    assert("LimitClauseSegment"@.len() != "FunctionParameterListGrammar"@.len());
    reveal_strlit("InsertStatementSegment");
    assert("LimitClauseSegment"@.len() != "InsertStatementSegment"@.len());
    reveal_strlit("SetSchemaStatementSegment");
    assert("LimitClauseSegment"@.len() != "SetSchemaStatementSegment"@.len());
    reveal_strlit("TransactionStatementSegment");
    assert("LimitClauseSegment"@.len() != "TransactionStatementSegment"@.len());
    reveal_strlit("UpdateStatementSegment");
    assert("LimitClauseSegment"@.len() != "UpdateStatementSegment"@.len());
}

proof fn lemma_part_8_keeps_limit_clause_segment(m: Map<Seq<char>, ElementView>)
    requires
        m.dom().contains("LimitClauseSegment"@),
    ensures
        ansi_library_part_8(m).dom().contains("LimitClauseSegment"@),
        ansi_library_part_8(m)["LimitClauseSegment"@] == m["LimitClauseSegment"@],
{
    reveal_strlit("LimitClauseSegment");
    reveal_strlit("AggregateOrderByClause");
    assert("LimitClauseSegment"@.len() != "AggregateOrderByClause"@.len());
    reveal_strlit("ArrayExpressionSegment");
    assert("LimitClauseSegment"@.len() != "ArrayExpressionSegment"@.len());
    reveal_strlit("BitwiseAndSegment");
    assert("LimitClauseSegment"@.len() != "BitwiseAndSegment"@.len());
    reveal_strlit("BitwiseLShiftSegment");
    assert("LimitClauseSegment"@.len() != "BitwiseLShiftSegment"@.len());
    reveal_strlit("BitwiseOrSegment");
    assert("LimitClauseSegment"@.len() != "BitwiseOrSegment"@.len());
    reveal_strlit("BitwiseRShiftSegment");
    assert("LimitClauseSegment"@.len() != "BitwiseRShiftSegment"@.len());
    reveal_strlit("ConcatSegment");
    assert("LimitClauseSegment"@.len() != "ConcatSegment"@.len());
    reveal_strlit("CreateUserStatementSegment");
    assert("LimitClauseSegment"@.len() != "CreateUserStatementSegment"@.len());
    reveal_strlit("DropTableStatementSegment");
    assert("LimitClauseSegment"@.len() != "DropTableStatementSegment"@.len());
    reveal_strlit("DropUserStatementSegment");
    assert("LimitClauseSegment"@.len() != "DropUserStatementSegment"@.len());
    reveal_strlit("DropViewStatementSegment");
    assert("LimitClauseSegment"@.len() != "DropViewStatementSegment"@.len());
    reveal_strlit("ElseClauseSegment");
    assert("LimitClauseSegment"@.len() != "ElseClauseSegment"@.len());
    reveal_strlit("EqualsSegment");
    assert("LimitClauseSegment"@.len() != "EqualsSegment"@.len());
    reveal_strlit("FunctionNameSegment");
    assert("LimitClauseSegment"@.len() != "FunctionNameSegment"@.len());
    reveal_strlit("GreaterThanOrEqualToSegment");
    assert("LimitClauseSegment"@.len() != "GreaterThanOrEqualToSegment"@.len());
    reveal_strlit("GreaterThanSegment");
    assert("LimitClauseSegment"@[0] != "GreaterThanSegment"@[0]);
    reveal_strlit("IndexColumnDefinitionSegment");
    assert("LimitClauseSegment"@.len() != "IndexColumnDefinitionSegment"@.len());
    reveal_strlit("LessThanOrEqualToSegment");
    assert("LimitClauseSegment"@.len() != "LessThanOrEqualToSegment"@.len());
    reveal_strlit("LessThanSegment");
    assert("LimitClauseSegment"@.len() != "LessThanSegment"@.len());
    reveal_strlit("LocalAliasSegment");
    assert("LimitClauseSegment"@.len() != "LocalAliasSegment"@.len());
    reveal_strlit("MergeStatementSegment");
    assert("LimitClauseSegment"@.len() != "MergeStatementSegment"@.len());
    reveal_strlit("NotEqualToSegment");
    assert("LimitClauseSegment"@.len() != "NotEqualToSegment"@.len());
    reveal_strlit("QualifiedNumericLiteralSegment");
    assert("LimitClauseSegment"@.len() != "QualifiedNumericLiteralSegment"@.len());
    reveal_strlit("WhenClauseSegment");
    assert("LimitClauseSegment"@.len() != "WhenClauseSegment"@.len());
    reveal_strlit("WhereClauseSegment");
    assert("LimitClauseSegment"@[0] != "WhereClauseSegment"@[0]);
}

proof fn lemma_part_9_keeps_limit_clause_segment(m: Map<Seq<char>, ElementView>)
    requires
        m.dom().contains("LimitClauseSegment"@),
    ensures
        ansi_library_part_9(m).dom().contains("LimitClauseSegment"@),
        ansi_library_part_9(m)["LimitClauseSegment"@] == m["LimitClauseSegment"@],
{
    reveal_strlit("LimitClauseSegment");
    reveal_strlit("AliasExpressionSegment");
    assert("LimitClauseSegment"@.len() != "AliasExpressionSegment"@.len());
    reveal_strlit("ArrayAccessorSegment");
    assert("LimitClauseSegment"@.len() != "ArrayAccessorSegment"@.len());
    reveal_strlit("ArrayLiteralSegment");
    assert("LimitClauseSegment"@.len() != "ArrayLiteralSegment"@.len());
    reveal_strlit("ArrayTypeSegment");
    assert("LimitClauseSegment"@.len() != "ArrayTypeSegment"@.len());
    reveal_strlit("BracketedArguments");
    assert("LimitClauseSegment"@[0] != "BracketedArguments"@[0]);
    reveal_strlit("DatatypeSegment");
    assert("LimitClauseSegment"@.len() != "DatatypeSegment"@.len());
    reveal_strlit("EmptyStructLiteralSegment");
    assert("LimitClauseSegment"@.len() != "EmptyStructLiteralSegment"@.len());
    reveal_strlit("IntervalExpressionSegment");
    assert("LimitClauseSegment"@.len() != "IntervalExpressionSegment"@.len());
    reveal_strlit("ObjectLiteralElementSegment");
    assert("LimitClauseSegment"@.len() != "ObjectLiteralElementSegment"@.len());
    reveal_strlit("ObjectLiteralSegment");
    assert("LimitClauseSegment"@.len() != "ObjectLiteralSegment"@.len());
    reveal_strlit("OverlapsClauseSegment");
    assert("LimitClauseSegment"@.len() != "OverlapsClauseSegment"@.len());
    reveal_strlit("SelectClauseSegment");
    assert("LimitClauseSegment"@.len() != "SelectClauseSegment"@.len());
    reveal_strlit("SetOperatorSegment");
    assert("LimitClauseSegment"@[0] != "SetOperatorSegment"@[0]);
    reveal_strlit("ShorthandCastSegment");
    assert("LimitClauseSegment"@.len() != "ShorthandCastSegment"@.len());
    reveal_strlit("SizedArrayTypeSegment");
    assert("LimitClauseSegment"@.len() != "SizedArrayTypeSegment"@.len());
    reveal_strlit("StatementSegment");
    assert("LimitClauseSegment"@.len() != "StatementSegment"@.len());
    reveal_strlit("StructLiteralSegment");
    assert("LimitClauseSegment"@.len() != "StructLiteralSegment"@.len());
    reveal_strlit("StructTypeSegment");
    assert("LimitClauseSegment"@.len() != "StructTypeSegment"@.len());
    reveal_strlit("TimeZoneGrammar");
    assert("LimitClauseSegment"@.len() != "TimeZoneGrammar"@.len());
    reveal_strlit("TypedArrayLiteralSegment");
    assert("LimitClauseSegment"@.len() != "TypedArrayLiteralSegment"@.len());
    reveal_strlit("TypedStructLiteralSegment");
    assert("LimitClauseSegment"@.len() != "TypedStructLiteralSegment"@.len());
    reveal_strlit("UnorderedSelectStatementSegment");
    assert("LimitClauseSegment"@.len() != "UnorderedSelectStatementSegment"@.len());
    reveal_strlit("ValuesClauseSegment");
    assert("LimitClauseSegment"@.len() != "ValuesClauseSegment"@.len());
    reveal_strlit("WithDataClauseSegment");
    assert("LimitClauseSegment"@.len() != "WithDataClauseSegment"@.len());
    reveal_strlit("WithNoSchemaBindingClauseSegment");
    assert("LimitClauseSegment"@.len() != "WithNoSchemaBindingClauseSegment"@.len());
}

proof fn lemma_part_10_keeps_limit_clause_segment(m: Map<Seq<char>, ElementView>)
    requires
        m.dom().contains("LimitClauseSegment"@),
    ensures
        ansi_library_part_10(m).dom().contains("LimitClauseSegment"@),
        ansi_library_part_10(m)["LimitClauseSegment"@] == m["LimitClauseSegment"@],
{
    reveal_strlit("LimitClauseSegment");
    reveal_strlit("AccessStatementSegmentGrantRoleWithOptionGrammar");
    assert("LimitClauseSegment"@.len() != "AccessStatementSegmentGrantRoleWithOptionGrammar"@.len());
    reveal_strlit("AliasedTableReferenceGrammar");
    assert("LimitClauseSegment"@.len() != "AliasedTableReferenceGrammar"@.len());
    reveal_strlit("CharCharacterSetGrammar");
    assert("LimitClauseSegment"@.len() != "CharCharacterSetGrammar"@.len());
    reveal_strlit("CreateSchemaStatementSegment");
    assert("LimitClauseSegment"@.len() != "CreateSchemaStatementSegment"@.len());
    reveal_strlit("DatePartFunctionNameSegment");
    assert("LimitClauseSegment"@.len() != "DatePartFunctionNameSegment"@.len());
    reveal_strlit("EmptyStructLiteralBracketsSegment");
    assert("LimitClauseSegment"@.len() != "EmptyStructLiteralBracketsSegment"@.len());
    reveal_strlit("Expression_A_Grammar");
    assert("LimitClauseSegment"@.len() != "Expression_A_Grammar"@.len());
    reveal_strlit("Expression_A_Unary_Operator_Grammar");
    assert("LimitClauseSegment"@.len() != "Expression_A_Unary_Operator_Grammar"@.len());
    reveal_strlit("Expression_B_Unary_Operator_Grammar");
    assert("LimitClauseSegment"@.len() != "Expression_B_Unary_Operator_Grammar"@.len());
    reveal_strlit("FromClauseSegment");
    assert("LimitClauseSegment"@.len() != "FromClauseSegment"@.len());
    reveal_strlit("FromExpressionSegment");
    assert("LimitClauseSegment"@.len() != "FromExpressionSegment"@.len());
    reveal_strlit("FunctionContentsExpressionGrammar");
    assert("LimitClauseSegment"@.len() != "FunctionContentsExpressionGrammar"@.len());
    reveal_strlit("FunctionContentsGrammar");
    assert("LimitClauseSegment"@.len() != "FunctionContentsGrammar"@.len());
    reveal_strlit("FunctionContentsSegment");
    assert("LimitClauseSegment"@.len() != "FunctionContentsSegment"@.len());
    reveal_strlit("JoinLikeClauseGrammar");
    assert("LimitClauseSegment"@.len() != "JoinLikeClauseGrammar"@.len());
    reveal_strlit("OrderByClauseSegment");
    assert("LimitClauseSegment"@.len() != "OrderByClauseSegment"@.len());
    reveal_strlit("PostFunctionGrammar");
    assert("LimitClauseSegment"@.len() != "PostFunctionGrammar"@.len());
    reveal_strlit("SelectClauseElementSegment");
    assert("LimitClauseSegment"@.len() != "SelectClauseElementSegment"@.len());
    reveal_strlit("SelectClauseModifierSegment");
    assert("LimitClauseSegment"@.len() != "SelectClauseModifierSegment"@.len());
    reveal_strlit("SelectStatementSegment");
    assert("LimitClauseSegment"@.len() != "SelectStatementSegment"@.len());
    reveal_strlit("SetExpressionSegment");
    assert("LimitClauseSegment"@.len() != "SetExpressionSegment"@.len());
    reveal_strlit("Tail_Recurse_Expression_A_Grammar");
    assert("LimitClauseSegment"@.len() != "Tail_Recurse_Expression_A_Grammar"@.len());
    reveal_strlit("Tail_Recurse_Expression_B_Grammar");
    assert("LimitClauseSegment"@.len() != "Tail_Recurse_Expression_B_Grammar"@.len());
    reveal_strlit("TruncateStatementSegment");
    assert("LimitClauseSegment"@.len() != "TruncateStatementSegment"@.len());
    reveal_strlit("WildcardExpressionSegment");
    assert("LimitClauseSegment"@.len() != "WildcardExpressionSegment"@.len());
}

proof fn lemma_part_11_keeps_limit_clause_segment(m: Map<Seq<char>, ElementView>)
    requires
        m.dom().contains("LimitClauseSegment"@),
    ensures
        ansi_library_part_11(m).dom().contains("LimitClauseSegment"@),
        ansi_library_part_11(m)["LimitClauseSegment"@] == m["LimitClauseSegment"@],
{
    reveal_strlit("LimitClauseSegment");
    reveal_strlit("AccessorGrammar");
    assert("LimitClauseSegment"@.len() != "AccessorGrammar"@.len());
    reveal_strlit("Expression_B_Grammar");
    assert("LimitClauseSegment"@.len() != "Expression_B_Grammar"@.len());
    reveal_strlit("Expression_C_Grammar");
    assert("LimitClauseSegment"@.len() != "Expression_C_Grammar"@.len());
    reveal_strlit("Expression_D_Grammar");
    assert("LimitClauseSegment"@.len() != "Expression_D_Grammar"@.len());
    reveal_strlit("NonSetSelectableGrammar");
    assert("LimitClauseSegment"@.len() != "NonSetSelectableGrammar"@.len());
    reveal_strlit("NonWithNonSelectableGrammar");
    assert("LimitClauseSegment"@.len() != "NonWithNonSelectableGrammar"@.len());
    reveal_strlit("NonWithSelectableGrammar");
    assert("LimitClauseSegment"@.len() != "NonWithSelectableGrammar"@.len());
    reveal_strlit("PostTableExpressionGrammar");
    assert("LimitClauseSegment"@.len() != "PostTableExpressionGrammar"@.len());
    reveal_strlit("SelectableGrammar");
    assert("LimitClauseSegment"@.len() != "SelectableGrammar"@.len());
    reveal_strlit("TimeWithTZGrammar");
    assert("LimitClauseSegment"@.len() != "TimeWithTZGrammar"@.len());
}

/// The ANSI library holds `LimitClauseSegment`: the value of its last entry of that name.
pub proof fn lemma_ansi_library_limit_clause_segment(lib: Map<Seq<char>, ElementView>)
    ensures
        ansi_library(lib).dom().contains("LimitClauseSegment"@),
        ansi_library(lib)["LimitClauseSegment"@] == limit_clause_segment_element(),
{
    reveal(ansi_library);
    let m0 = lib;
    let m1 = ansi_library_part_0(m0);
    let m2 = ansi_library_part_1(m1);
    let m3 = ansi_library_part_2(m2);
    let m4 = ansi_library_part_3(m3);
    let m5 = ansi_library_part_4(m4);
    let m6 = ansi_library_part_5(m5);
    let m7 = ansi_library_part_6(m6);
    let m8 = ansi_library_part_7(m7);
    let m9 = ansi_library_part_8(m8);
    let m10 = ansi_library_part_9(m9);
    let m11 = ansi_library_part_10(m10);
    let m12 = ansi_library_part_11(m11);
    lemma_part_4_sets_limit_clause_segment(m4);
    lemma_part_5_keeps_limit_clause_segment(m5);
    lemma_part_6_keeps_limit_clause_segment(m6);
    lemma_part_7_keeps_limit_clause_segment(m7);
    lemma_part_8_keeps_limit_clause_segment(m8);
    lemma_part_9_keeps_limit_clause_segment(m9);
    lemma_part_10_keeps_limit_clause_segment(m10);
    lemma_part_11_keeps_limit_clause_segment(m11);
}

proof fn lemma_part_10_sets_order_by_clause_segment(m: Map<Seq<char>, ElementView>)
    ensures
        ansi_library_part_10(m).dom().contains("OrderByClauseSegment"@),
        ansi_library_part_10(m)["OrderByClauseSegment"@] == order_by_clause_segment_element(),
{
    reveal_strlit("OrderByClauseSegment");
    reveal_strlit("AccessStatementSegmentGrantRoleWithOptionGrammar");
    assert("OrderByClauseSegment"@.len() != "AccessStatementSegmentGrantRoleWithOptionGrammar"@.len());
    reveal_strlit("AliasedTableReferenceGrammar");
    assert("OrderByClauseSegment"@.len() != "AliasedTableReferenceGrammar"@.len());
    reveal_strlit("CharCharacterSetGrammar");
    assert("OrderByClauseSegment"@.len() != "CharCharacterSetGrammar"@.len());
    reveal_strlit("CreateSchemaStatementSegment");
    assert("OrderByClauseSegment"@.len() != "CreateSchemaStatementSegment"@.len());
    reveal_strlit("DatePartFunctionNameSegment");
    assert("OrderByClauseSegment"@.len() != "DatePartFunctionNameSegment"@.len());
    reveal_strlit("Expression_A_Grammar");
    assert("OrderByClauseSegment"@[0] != "Expression_A_Grammar"@[0]);
    reveal_strlit("Expression_A_Unary_Operator_Grammar");
    assert("OrderByClauseSegment"@.len() != "Expression_A_Unary_Operator_Grammar"@.len());
    reveal_strlit("Expression_B_Unary_Operator_Grammar");
    assert("OrderByClauseSegment"@.len() != "Expression_B_Unary_Operator_Grammar"@.len());
    reveal_strlit("FromExpressionSegment");
    assert("OrderByClauseSegment"@.len() != "FromExpressionSegment"@.len());
    reveal_strlit("FunctionContentsExpressionGrammar");
    assert("OrderByClauseSegment"@.len() != "FunctionContentsExpressionGrammar"@.len());
    reveal_strlit("FunctionContentsGrammar");
    assert("OrderByClauseSegment"@.len() != "FunctionContentsGrammar"@.len());
    reveal_strlit("FunctionContentsSegment");
    assert("OrderByClauseSegment"@.len() != "FunctionContentsSegment"@.len());
    reveal_strlit("JoinLikeClauseGrammar");
    assert("OrderByClauseSegment"@.len() != "JoinLikeClauseGrammar"@.len());
    reveal_strlit("PostFunctionGrammar");
    assert("OrderByClauseSegment"@.len() != "PostFunctionGrammar"@.len());
    reveal_strlit("SelectClauseElementSegment");
    assert("OrderByClauseSegment"@.len() != "SelectClauseElementSegment"@.len());
    reveal_strlit("SelectClauseModifierSegment");
    assert("OrderByClauseSegment"@.len() != "SelectClauseModifierSegment"@.len());
    reveal_strlit("SelectStatementSegment");
    assert("OrderByClauseSegment"@.len() != "SelectStatementSegment"@.len());
    reveal_strlit("Tail_Recurse_Expression_A_Grammar");
    assert("OrderByClauseSegment"@.len() != "Tail_Recurse_Expression_A_Grammar"@.len());
    reveal_strlit("Tail_Recurse_Expression_B_Grammar");
    assert("OrderByClauseSegment"@.len() != "Tail_Recurse_Expression_B_Grammar"@.len());
    reveal_strlit("TruncateStatementSegment");
    assert("OrderByClauseSegment"@.len() != "TruncateStatementSegment"@.len());
}

proof fn lemma_part_11_keeps_order_by_clause_segment(m: Map<Seq<char>, ElementView>)
    requires
        m.dom().contains("OrderByClauseSegment"@),
    ensures
        ansi_library_part_11(m).dom().contains("OrderByClauseSegment"@),
        ansi_library_part_11(m)["OrderByClauseSegment"@] == m["OrderByClauseSegment"@],
{
    reveal_strlit("OrderByClauseSegment");
    reveal_strlit("AccessorGrammar");
    assert("OrderByClauseSegment"@.len() != "AccessorGrammar"@.len());
    reveal_strlit("Expression_B_Grammar");
    assert("OrderByClauseSegment"@[0] != "Expression_B_Grammar"@[0]);
    reveal_strlit("Expression_C_Grammar");
    assert("OrderByClauseSegment"@[0] != "Expression_C_Grammar"@[0]);
    reveal_strlit("Expression_D_Grammar");
    assert("OrderByClauseSegment"@[0] != "Expression_D_Grammar"@[0]);
    reveal_strlit("NonSetSelectableGrammar");
    assert("OrderByClauseSegment"@.len() != "NonSetSelectableGrammar"@.len());
    reveal_strlit("NonWithNonSelectableGrammar");
    assert("OrderByClauseSegment"@.len() != "NonWithNonSelectableGrammar"@.len());
    reveal_strlit("NonWithSelectableGrammar");
    assert("OrderByClauseSegment"@.len() != "NonWithSelectableGrammar"@.len());
    reveal_strlit("PostTableExpressionGrammar");
    assert("OrderByClauseSegment"@.len() != "PostTableExpressionGrammar"@.len());
    reveal_strlit("SelectableGrammar");
    assert("OrderByClauseSegment"@.len() != "SelectableGrammar"@.len());
    reveal_strlit("TimeWithTZGrammar");
    assert("OrderByClauseSegment"@.len() != "TimeWithTZGrammar"@.len());
}

/// The ANSI library holds `OrderByClauseSegment`: the value of its last entry of that name.
pub proof fn lemma_ansi_library_order_by_clause_segment(lib: Map<Seq<char>, ElementView>)
    ensures
        ansi_library(lib).dom().contains("OrderByClauseSegment"@),
        ansi_library(lib)["OrderByClauseSegment"@] == order_by_clause_segment_element(),
{
    reveal(ansi_library);
    let m0 = lib;
    let m1 = ansi_library_part_0(m0);
    let m2 = ansi_library_part_1(m1);
    let m3 = ansi_library_part_2(m2);
    let m4 = ansi_library_part_3(m3);
    let m5 = ansi_library_part_4(m4);
    let m6 = ansi_library_part_5(m5);
    let m7 = ansi_library_part_6(m6);
    let m8 = ansi_library_part_7(m7);
    let m9 = ansi_library_part_8(m8);
    let m10 = ansi_library_part_9(m9);
    let m11 = ansi_library_part_10(m10);
    let m12 = ansi_library_part_11(m11);
    lemma_part_10_sets_order_by_clause_segment(m10);
    lemma_part_11_keeps_order_by_clause_segment(m11);
}

proof fn lemma_part_5_sets_group_by_clause_segment(m: Map<Seq<char>, ElementView>)
    ensures
        ansi_library_part_5(m).dom().contains("GroupByClauseSegment"@),
        ansi_library_part_5(m)["GroupByClauseSegment"@] == group_by_clause_segment_element(),
{
    reveal_strlit("GroupByClauseSegment");
    reveal_strlit("CTEColumnList");
    assert("GroupByClauseSegment"@.len() != "CTEColumnList"@.len());
    reveal_strlit("CTEDefinitionSegment");
    assert("GroupByClauseSegment"@[0] != "CTEDefinitionSegment"@[0]);
    reveal_strlit("FrameClauseSegment");
    assert("GroupByClauseSegment"@.len() != "FrameClauseSegment"@.len());
    reveal_strlit("WithCompoundNonSelectStatementSegment");
    assert("GroupByClauseSegment"@.len() != "WithCompoundNonSelectStatementSegment"@.len());
    reveal_strlit("WithCompoundStatementSegment");
    assert("GroupByClauseSegment"@.len() != "WithCompoundStatementSegment"@.len());
}

proof fn lemma_part_6_keeps_group_by_clause_segment(m: Map<Seq<char>, ElementView>)
    requires
        m.dom().contains("GroupByClauseSegment"@),
    ensures
        ansi_library_part_6(m).dom().contains("GroupByClauseSegment"@),
        ansi_library_part_6(m)["GroupByClauseSegment"@] == m["GroupByClauseSegment"@],
{
    reveal_strlit("GroupByClauseSegment");
    reveal_strlit("CollationReferenceSegment");
    assert("GroupByClauseSegment"@.len() != "CollationReferenceSegment"@.len());
    reveal_strlit("CreateSequenceOptionsSegment");
    assert("GroupByClauseSegment"@.len() != "CreateSequenceOptionsSegment"@.len());
    reveal_strlit("CreateSequenceStatementSegment");
    assert("GroupByClauseSegment"@.len() != "CreateSequenceStatementSegment"@.len());
    reveal_strlit("CreateTriggerStatementSegment");
    assert("GroupByClauseSegment"@.len() != "CreateTriggerStatementSegment"@.len());
    reveal_strlit("DatabaseReferenceSegment");
    assert("GroupByClauseSegment"@.len() != "DatabaseReferenceSegment"@.len());
    reveal_strlit("DescribeStatementSegment");
    assert("GroupByClauseSegment"@.len() != "DescribeStatementSegment"@.len());
    reveal_strlit("DropModelStatementSegment");
    assert("GroupByClauseSegment"@.len() != "DropModelStatementSegment"@.len());
    reveal_strlit("DropTriggerStatementSegment");
    assert("GroupByClauseSegment"@.len() != "DropTriggerStatementSegment"@.len());
    reveal_strlit("ExplainStatementSegment");
    assert("GroupByClauseSegment"@.len() != "ExplainStatementSegment"@.len());
    reveal_strlit("IndexReferenceSegment");
    assert("GroupByClauseSegment"@.len() != "IndexReferenceSegment"@.len());
    reveal_strlit("JoinClauseSegment");
    assert("GroupByClauseSegment"@.len() != "JoinClauseSegment"@.len());
    reveal_strlit("JoinOnConditionSegment");
    assert("GroupByClauseSegment"@.len() != "JoinOnConditionSegment"@.len());
    reveal_strlit("NamedWindowSegment");
    assert("GroupByClauseSegment"@.len() != "NamedWindowSegment"@.len());
    reveal_strlit("OverClauseSegment");
    assert("GroupByClauseSegment"@.len() != "OverClauseSegment"@.len());
    reveal_strlit("PartitionClauseSegment");
    assert("GroupByClauseSegment"@.len() != "PartitionClauseSegment"@.len());
    reveal_strlit("SamplingExpressionSegment");
    assert("GroupByClauseSegment"@.len() != "SamplingExpressionSegment"@.len());
    reveal_strlit("SequenceReferenceSegment");
    assert("GroupByClauseSegment"@.len() != "SequenceReferenceSegment"@.len());
    reveal_strlit("TableConstraintSegment");
    assert("GroupByClauseSegment"@.len() != "TableConstraintSegment"@.len());
    reveal_strlit("TableExpressionSegment");
    assert("GroupByClauseSegment"@.len() != "TableExpressionSegment"@.len());
    reveal_strlit("TriggerReferenceSegment");
    assert("GroupByClauseSegment"@.len() != "TriggerReferenceSegment"@.len());
    reveal_strlit("UseStatementSegment");
    assert("GroupByClauseSegment"@.len() != "UseStatementSegment"@.len());
    reveal_strlit("WindowSpecificationSegment");
    assert("GroupByClauseSegment"@.len() != "WindowSpecificationSegment"@.len());
}

proof fn lemma_part_7_keeps_group_by_clause_segment(m: Map<Seq<char>, ElementView>)
    requires
        m.dom().contains("GroupByClauseSegment"@),
    ensures
        ansi_library_part_7(m).dom().contains("GroupByClauseSegment"@),
        ansi_library_part_7(m)["GroupByClauseSegment"@] == m["GroupByClauseSegment"@],
{
    reveal_strlit("GroupByClauseSegment");
    reveal_strlit("AccessStatementSegment");
    assert("GroupByClauseSegment"@.len() != "AccessStatementSegment"@.len());
    reveal_strlit("AlterSequenceStatementSegment");
    assert("GroupByClauseSegment"@.len() != "AlterSequenceStatementSegment"@.len());
    reveal_strlit("AlterTableStatementSegment");
    assert("GroupByClauseSegment"@.len() != "AlterTableStatementSegment"@.len());
    reveal_strlit("CreateCastStatementSegment");
    assert("GroupByClauseSegment"@.len() != "CreateCastStatementSegment"@.len());
    reveal_strlit("CreateDatabaseStatementSegment");
    assert("GroupByClauseSegment"@.len() != "CreateDatabaseStatementSegment"@.len());
    reveal_strlit("CreateFunctionStatementSegment");
    assert("GroupByClauseSegment"@.len() != "CreateFunctionStatementSegment"@.len());
    reveal_strlit("CreateIndexStatementSegment");
    assert("GroupByClauseSegment"@.len() != "CreateIndexStatementSegment"@.len());
    reveal_strlit("CreateModelStatementSegment");
    assert("GroupByClauseSegment"@.len() != "CreateModelStatementSegment"@.len());
    reveal_strlit("CreateRoleStatementSegment");
    assert("GroupByClauseSegment"@.len() != "CreateRoleStatementSegment"@.len());
    reveal_strlit("CreateTableStatementSegment");
    assert("GroupByClauseSegment"@.len() != "CreateTableStatementSegment"@.len());
    reveal_strlit("CreateViewStatementSegment");
    assert("GroupByClauseSegment"@.len() != "CreateViewStatementSegment"@.len());
    reveal_strlit("DeleteStatementSegment");
    assert("GroupByClauseSegment"@.len() != "DeleteStatementSegment"@.len());
    reveal_strlit("DropCastStatementSegment");
    assert("GroupByClauseSegment"@.len() != "DropCastStatementSegment"@.len());
    reveal_strlit("DropDatabaseStatementSegment");
    assert("GroupByClauseSegment"@.len() != "DropDatabaseStatementSegment"@.len());
    reveal_strlit("DropFunctionStatementSegment");
    assert("GroupByClauseSegment"@.len() != "DropFunctionStatementSegment"@.len());
    reveal_strlit("DropIndexStatementSegment");
    assert("GroupByClauseSegment"@.len() != "DropIndexStatementSegment"@.len());
    reveal_strlit("DropRoleStatementSegment");
    assert("GroupByClauseSegment"@.len() != "DropRoleStatementSegment"@.len());
    reveal_strlit("DropSchemaStatementSegment");
    assert("GroupByClauseSegment"@.len() != "DropSchemaStatementSegment"@.len());
    reveal_strlit("DropSequenceStatementSegment");
    assert("GroupByClauseSegment"@.len() != "DropSequenceStatementSegment"@.len());
    reveal_strlit("DropTypeStatementSegment");
    assert("GroupByClauseSegment"@.len() != "DropTypeStatementSegment"@.len());
    reveal_strlit("FunctionParameterListGrammar");
    assert("GroupByClauseSegment"@.len() != "FunctionParameterListGrammar"@.len());
    reveal_strlit("InsertStatementSegment");
    assert("GroupByClauseSegment"@.len() != "InsertStatementSegment"@.len());
    reveal_strlit("SetSchemaStatementSegment");
    assert("GroupByClauseSegment"@.len() != "SetSchemaStatementSegment"@.len());
    reveal_strlit("TransactionStatementSegment");
    assert("GroupByClauseSegment"@.len() != "TransactionStatementSegment"@.len());
    reveal_strlit("UpdateStatementSegment");
    assert("GroupByClauseSegment"@.len() != "UpdateStatementSegment"@.len());
}

proof fn lemma_part_8_keeps_group_by_clause_segment(m: Map<Seq<char>, ElementView>)
    requires
        m.dom().contains("GroupByClauseSegment"@),
    ensures
        ansi_library_part_8(m).dom().contains("GroupByClauseSegment"@),
        ansi_library_part_8(m)["GroupByClauseSegment"@] == m["GroupByClauseSegment"@],
{
    reveal_strlit("GroupByClauseSegment");
    reveal_strlit("AggregateOrderByClause");
    assert("GroupByClauseSegment"@.len() != "AggregateOrderByClause"@.len());
    reveal_strlit("ArrayExpressionSegment");
    assert("GroupByClauseSegment"@.len() != "ArrayExpressionSegment"@.len());
    reveal_strlit("BitwiseAndSegment");
    assert("GroupByClauseSegment"@.len() != "BitwiseAndSegment"@.len());
    reveal_strlit("BitwiseLShiftSegment");
    assert("GroupByClauseSegment"@[0] != "BitwiseLShiftSegment"@[0]);
    reveal_strlit("BitwiseOrSegment");
    assert("GroupByClauseSegment"@.len() != "BitwiseOrSegment"@.len());
    reveal_strlit("BitwiseRShiftSegment");
    assert("GroupByClauseSegment"@[0] != "BitwiseRShiftSegment"@[0]);
    reveal_strlit("ConcatSegment");
    assert("GroupByClauseSegment"@.len() != "ConcatSegment"@.len());
    reveal_strlit("CreateUserStatementSegment");
    assert("GroupByClauseSegment"@.len() != "CreateUserStatementSegment"@.len());
    reveal_strlit("DropTableStatementSegment");
    assert("GroupByClauseSegment"@.len() != "DropTableStatementSegment"@.len());
    reveal_strlit("DropUserStatementSegment");
    assert("GroupByClauseSegment"@.len() != "DropUserStatementSegment"@.len());
    reveal_strlit("DropViewStatementSegment");
    assert("GroupByClauseSegment"@.len() != "DropViewStatementSegment"@.len());
    reveal_strlit("ElseClauseSegment");
    assert("GroupByClauseSegment"@.len() != "ElseClauseSegment"@.len());
    reveal_strlit("EqualsSegment");
    assert("GroupByClauseSegment"@.len() != "EqualsSegment"@.len());
    reveal_strlit("FunctionNameSegment");
    assert("GroupByClauseSegment"@.len() != "FunctionNameSegment"@.len());
    reveal_strlit("GreaterThanOrEqualToSegment");
    assert("GroupByClauseSegment"@.len() != "GreaterThanOrEqualToSegment"@.len());
    reveal_strlit("GreaterThanSegment");
    assert("GroupByClauseSegment"@.len() != "GreaterThanSegment"@.len());
    reveal_strlit("IndexColumnDefinitionSegment");
    assert("GroupByClauseSegment"@.len() != "IndexColumnDefinitionSegment"@.len());
    reveal_strlit("LessThanOrEqualToSegment");
    assert("GroupByClauseSegment"@.len() != "LessThanOrEqualToSegment"@.len());
    reveal_strlit("LessThanSegment");
    assert("GroupByClauseSegment"@.len() != "LessThanSegment"@.len());
    reveal_strlit("LocalAliasSegment");
    assert("GroupByClauseSegment"@.len() != "LocalAliasSegment"@.len());
    reveal_strlit("MergeStatementSegment");
    assert("GroupByClauseSegment"@.len() != "MergeStatementSegment"@.len());
    reveal_strlit("NotEqualToSegment");
    assert("GroupByClauseSegment"@.len() != "NotEqualToSegment"@.len());
    reveal_strlit("QualifiedNumericLiteralSegment");
    assert("GroupByClauseSegment"@.len() != "QualifiedNumericLiteralSegment"@.len());
    reveal_strlit("WhenClauseSegment");
    assert("GroupByClauseSegment"@.len() != "WhenClauseSegment"@.len());
    reveal_strlit("WhereClauseSegment");
    assert("GroupByClauseSegment"@.len() != "WhereClauseSegment"@.len());
}

proof fn lemma_part_9_keeps_group_by_clause_segment(m: Map<Seq<char>, ElementView>)
    requires
        m.dom().contains("GroupByClauseSegment"@),
    ensures
        ansi_library_part_9(m).dom().contains("GroupByClauseSegment"@),
        ansi_library_part_9(m)["GroupByClauseSegment"@] == m["GroupByClauseSegment"@],
{
    reveal_strlit("GroupByClauseSegment");
    reveal_strlit("AliasExpressionSegment");
    assert("GroupByClauseSegment"@.len() != "AliasExpressionSegment"@.len());
    reveal_strlit("ArrayAccessorSegment");
    assert("GroupByClauseSegment"@[0] != "ArrayAccessorSegment"@[0]);
    reveal_strlit("ArrayLiteralSegment");
    assert("GroupByClauseSegment"@.len() != "ArrayLiteralSegment"@.len());
    reveal_strlit("ArrayTypeSegment");
    assert("GroupByClauseSegment"@.len() != "ArrayTypeSegment"@.len());
    reveal_strlit("BracketedArguments");
    assert("GroupByClauseSegment"@.len() != "BracketedArguments"@.len());
    reveal_strlit("DatatypeSegment");
    assert("GroupByClauseSegment"@.len() != "DatatypeSegment"@.len());
    reveal_strlit("EmptyStructLiteralSegment");
    assert("GroupByClauseSegment"@.len() != "EmptyStructLiteralSegment"@.len());
    reveal_strlit("IntervalExpressionSegment");
    assert("GroupByClauseSegment"@.len() != "IntervalExpressionSegment"@.len());
    reveal_strlit("ObjectLiteralElementSegment");
    assert("GroupByClauseSegment"@.len() != "ObjectLiteralElementSegment"@.len());
    reveal_strlit("ObjectLiteralSegment");
    assert("GroupByClauseSegment"@[0] != "ObjectLiteralSegment"@[0]);
    reveal_strlit("OverlapsClauseSegment");
    assert("GroupByClauseSegment"@.len() != "OverlapsClauseSegment"@.len());
    reveal_strlit("SelectClauseSegment");
    assert("GroupByClauseSegment"@.len() != "SelectClauseSegment"@.len());
    reveal_strlit("SetOperatorSegment");
    assert("GroupByClauseSegment"@.len() != "SetOperatorSegment"@.len());
    reveal_strlit("ShorthandCastSegment");
    assert("GroupByClauseSegment"@[0] != "ShorthandCastSegment"@[0]);
    reveal_strlit("SizedArrayTypeSegment");
    assert("GroupByClauseSegment"@.len() != "SizedArrayTypeSegment"@.len());
    reveal_strlit("StatementSegment");
    assert("GroupByClauseSegment"@.len() != "StatementSegment"@.len());
    reveal_strlit("StructLiteralSegment");
    assert("GroupByClauseSegment"@[0] != "StructLiteralSegment"@[0]);
    reveal_strlit("StructTypeSegment");
    assert("GroupByClauseSegment"@.len() != "StructTypeSegment"@.len());
    reveal_strlit("TimeZoneGrammar");
    assert("GroupByClauseSegment"@.len() != "TimeZoneGrammar"@.len());
    reveal_strlit("TypedArrayLiteralSegment");
    assert("GroupByClauseSegment"@.len() != "TypedArrayLiteralSegment"@.len());
    reveal_strlit("TypedStructLiteralSegment");
    assert("GroupByClauseSegment"@.len() != "TypedStructLiteralSegment"@.len());
    reveal_strlit("UnorderedSelectStatementSegment");
    assert("GroupByClauseSegment"@.len() != "UnorderedSelectStatementSegment"@.len());
    reveal_strlit("ValuesClauseSegment");
    assert("GroupByClauseSegment"@.len() != "ValuesClauseSegment"@.len());
    reveal_strlit("WithDataClauseSegment");
    assert("GroupByClauseSegment"@.len() != "WithDataClauseSegment"@.len());
    reveal_strlit("WithNoSchemaBindingClauseSegment");
    assert("GroupByClauseSegment"@.len() != "WithNoSchemaBindingClauseSegment"@.len());
}

proof fn lemma_part_10_keeps_group_by_clause_segment(m: Map<Seq<char>, ElementView>)
    requires
        m.dom().contains("GroupByClauseSegment"@),
    ensures
        ansi_library_part_10(m).dom().contains("GroupByClauseSegment"@),
        ansi_library_part_10(m)["GroupByClauseSegment"@] == m["GroupByClauseSegment"@],
{
    reveal_strlit("GroupByClauseSegment");
    reveal_strlit("AccessStatementSegmentGrantRoleWithOptionGrammar");
    assert("GroupByClauseSegment"@.len() != "AccessStatementSegmentGrantRoleWithOptionGrammar"@.len());
    reveal_strlit("AliasedTableReferenceGrammar");
    assert("GroupByClauseSegment"@.len() != "AliasedTableReferenceGrammar"@.len());
    reveal_strlit("CharCharacterSetGrammar");
    assert("GroupByClauseSegment"@.len() != "CharCharacterSetGrammar"@.len());
    reveal_strlit("CreateSchemaStatementSegment");
    assert("GroupByClauseSegment"@.len() != "CreateSchemaStatementSegment"@.len());
    reveal_strlit("DatePartFunctionNameSegment");
    assert("GroupByClauseSegment"@.len() != "DatePartFunctionNameSegment"@.len());
    reveal_strlit("EmptyStructLiteralBracketsSegment");
    assert("GroupByClauseSegment"@.len() != "EmptyStructLiteralBracketsSegment"@.len());
    reveal_strlit("Expression_A_Grammar");
    assert("GroupByClauseSegment"@[0] != "Expression_A_Grammar"@[0]);
    reveal_strlit("Expression_A_Unary_Operator_Grammar");
    assert("GroupByClauseSegment"@.len() != "Expression_A_Unary_Operator_Grammar"@.len());
    reveal_strlit("Expression_B_Unary_Operator_Grammar");
    assert("GroupByClauseSegment"@.len() != "Expression_B_Unary_Operator_Grammar"@.len());
    reveal_strlit("FromClauseSegment");
    assert("GroupByClauseSegment"@.len() != "FromClauseSegment"@.len());
    reveal_strlit("FromExpressionSegment");
    assert("GroupByClauseSegment"@.len() != "FromExpressionSegment"@.len());
    reveal_strlit("FunctionContentsExpressionGrammar");
    assert("GroupByClauseSegment"@.len() != "FunctionContentsExpressionGrammar"@.len());
    reveal_strlit("FunctionContentsGrammar");
    assert("GroupByClauseSegment"@.len() != "FunctionContentsGrammar"@.len());
    reveal_strlit("FunctionContentsSegment");
    assert("GroupByClauseSegment"@.len() != "FunctionContentsSegment"@.len());
    reveal_strlit("JoinLikeClauseGrammar");
    assert("GroupByClauseSegment"@.len() != "JoinLikeClauseGrammar"@.len());
    reveal_strlit("OrderByClauseSegment");
    assert("GroupByClauseSegment"@[0] != "OrderByClauseSegment"@[0]);
    reveal_strlit("PostFunctionGrammar");
    assert("GroupByClauseSegment"@.len() != "PostFunctionGrammar"@.len());
    reveal_strlit("SelectClauseElementSegment");
    assert("GroupByClauseSegment"@.len() != "SelectClauseElementSegment"@.len());
    reveal_strlit("SelectClauseModifierSegment");
    assert("GroupByClauseSegment"@.len() != "SelectClauseModifierSegment"@.len());
    reveal_strlit("SelectStatementSegment");
    assert("GroupByClauseSegment"@.len() != "SelectStatementSegment"@.len());
    reveal_strlit("SetExpressionSegment");
    assert("GroupByClauseSegment"@[0] != "SetExpressionSegment"@[0]);
    reveal_strlit("Tail_Recurse_Expression_A_Grammar");
    assert("GroupByClauseSegment"@.len() != "Tail_Recurse_Expression_A_Grammar"@.len());
    reveal_strlit("Tail_Recurse_Expression_B_Grammar");
    assert("GroupByClauseSegment"@.len() != "Tail_Recurse_Expression_B_Grammar"@.len());
    reveal_strlit("TruncateStatementSegment");
    assert("GroupByClauseSegment"@.len() != "TruncateStatementSegment"@.len());
    reveal_strlit("WildcardExpressionSegment");
    assert("GroupByClauseSegment"@.len() != "WildcardExpressionSegment"@.len());
}

proof fn lemma_part_11_keeps_group_by_clause_segment(m: Map<Seq<char>, ElementView>)
    requires
        m.dom().contains("GroupByClauseSegment"@),
    ensures
        ansi_library_part_11(m).dom().contains("GroupByClauseSegment"@),
        ansi_library_part_11(m)["GroupByClauseSegment"@] == m["GroupByClauseSegment"@],
{
    reveal_strlit("GroupByClauseSegment");
    reveal_strlit("AccessorGrammar");
    assert("GroupByClauseSegment"@.len() != "AccessorGrammar"@.len());
    reveal_strlit("Expression_B_Grammar");
    assert("GroupByClauseSegment"@[0] != "Expression_B_Grammar"@[0]);
    reveal_strlit("Expression_C_Grammar");
    assert("GroupByClauseSegment"@[0] != "Expression_C_Grammar"@[0]);
    reveal_strlit("Expression_D_Grammar");
    assert("GroupByClauseSegment"@[0] != "Expression_D_Grammar"@[0]);
    reveal_strlit("NonSetSelectableGrammar");
    assert("GroupByClauseSegment"@.len() != "NonSetSelectableGrammar"@.len());
    reveal_strlit("NonWithNonSelectableGrammar");
    assert("GroupByClauseSegment"@.len() != "NonWithNonSelectableGrammar"@.len());
    reveal_strlit("NonWithSelectableGrammar");
    assert("GroupByClauseSegment"@.len() != "NonWithSelectableGrammar"@.len());
    reveal_strlit("PostTableExpressionGrammar");
    assert("GroupByClauseSegment"@.len() != "PostTableExpressionGrammar"@.len());
    reveal_strlit("SelectableGrammar");
    assert("GroupByClauseSegment"@.len() != "SelectableGrammar"@.len());
    reveal_strlit("TimeWithTZGrammar");
    assert("GroupByClauseSegment"@.len() != "TimeWithTZGrammar"@.len());
}

/// The ANSI library holds `GroupByClauseSegment`: the value of its last entry of that name.
pub proof fn lemma_ansi_library_group_by_clause_segment(lib: Map<Seq<char>, ElementView>)
    ensures
        ansi_library(lib).dom().contains("GroupByClauseSegment"@),
        ansi_library(lib)["GroupByClauseSegment"@] == group_by_clause_segment_element(),
{
    reveal(ansi_library);
    let m0 = lib;
    let m1 = ansi_library_part_0(m0);
    let m2 = ansi_library_part_1(m1);
    let m3 = ansi_library_part_2(m2);
    let m4 = ansi_library_part_3(m3);
    let m5 = ansi_library_part_4(m4);
    let m6 = ansi_library_part_5(m5);
    let m7 = ansi_library_part_6(m6);
    let m8 = ansi_library_part_7(m7);
    let m9 = ansi_library_part_8(m8);
    let m10 = ansi_library_part_9(m9);
    let m11 = ansi_library_part_10(m10);
    let m12 = ansi_library_part_11(m11);
    lemma_part_5_sets_group_by_clause_segment(m5);
    lemma_part_6_keeps_group_by_clause_segment(m6);
    lemma_part_7_keeps_group_by_clause_segment(m7);
    lemma_part_8_keeps_group_by_clause_segment(m8);
    lemma_part_9_keeps_group_by_clause_segment(m9);
    lemma_part_10_keeps_group_by_clause_segment(m10);
    lemma_part_11_keeps_group_by_clause_segment(m11);
}

proof fn lemma_part_8_sets_when_clause_segment(m: Map<Seq<char>, ElementView>)
    ensures
        ansi_library_part_8(m).dom().contains("WhenClauseSegment"@),
        ansi_library_part_8(m)["WhenClauseSegment"@] == when_clause_segment_element(),
{
    reveal_strlit("WhenClauseSegment");
    reveal_strlit("ElseClauseSegment");
    assert("WhenClauseSegment"@[0] != "ElseClauseSegment"@[0]);
    reveal_strlit("WhereClauseSegment");
    assert("WhenClauseSegment"@.len() != "WhereClauseSegment"@.len());
}

proof fn lemma_part_9_keeps_when_clause_segment(m: Map<Seq<char>, ElementView>)
    requires
        m.dom().contains("WhenClauseSegment"@),
    ensures
        ansi_library_part_9(m).dom().contains("WhenClauseSegment"@),
        ansi_library_part_9(m)["WhenClauseSegment"@] == m["WhenClauseSegment"@],
{
    reveal_strlit("WhenClauseSegment");
    reveal_strlit("AliasExpressionSegment");
    assert("WhenClauseSegment"@.len() != "AliasExpressionSegment"@.len());
    reveal_strlit("ArrayAccessorSegment");
    assert("WhenClauseSegment"@.len() != "ArrayAccessorSegment"@.len());
    reveal_strlit("ArrayLiteralSegment");
    assert("WhenClauseSegment"@.len() != "ArrayLiteralSegment"@.len());
    reveal_strlit("ArrayTypeSegment");
    assert("WhenClauseSegment"@.len() != "ArrayTypeSegment"@.len());
    reveal_strlit("BracketedArguments");
    assert("WhenClauseSegment"@.len() != "BracketedArguments"@.len());
    reveal_strlit("DatatypeSegment");
    assert("WhenClauseSegment"@.len() != "DatatypeSegment"@.len());
    reveal_strlit("EmptyStructLiteralSegment");
    assert("WhenClauseSegment"@.len() != "EmptyStructLiteralSegment"@.len());
    reveal_strlit("IntervalExpressionSegment");
    assert("WhenClauseSegment"@.len() != "IntervalExpressionSegment"@.len());
    reveal_strlit("ObjectLiteralElementSegment");
    assert("WhenClauseSegment"@.len() != "ObjectLiteralElementSegment"@.len());
    reveal_strlit("ObjectLiteralSegment");
    assert("WhenClauseSegment"@.len() != "ObjectLiteralSegment"@.len());
    reveal_strlit("OverlapsClauseSegment");
    assert("WhenClauseSegment"@.len() != "OverlapsClauseSegment"@.len());
    reveal_strlit("SelectClauseSegment");
    assert("WhenClauseSegment"@.len() != "SelectClauseSegment"@.len());
    reveal_strlit("SetOperatorSegment");
    assert("WhenClauseSegment"@.len() != "SetOperatorSegment"@.len());
    reveal_strlit("ShorthandCastSegment");
    assert("WhenClauseSegment"@.len() != "ShorthandCastSegment"@.len());
    reveal_strlit("SizedArrayTypeSegment");
    assert("WhenClauseSegment"@.len() != "SizedArrayTypeSegment"@.len());
    reveal_strlit("StatementSegment");
    assert("WhenClauseSegment"@.len() != "StatementSegment"@.len());
    reveal_strlit("StructLiteralSegment");
    assert("WhenClauseSegment"@.len() != "StructLiteralSegment"@.len());
    reveal_strlit("StructTypeSegment");
    assert("WhenClauseSegment"@[0] != "StructTypeSegment"@[0]);
    reveal_strlit("TimeZoneGrammar");
    assert("WhenClauseSegment"@.len() != "TimeZoneGrammar"@.len());
    reveal_strlit("TypedArrayLiteralSegment");
    assert("WhenClauseSegment"@.len() != "TypedArrayLiteralSegment"@.len());
    reveal_strlit("TypedStructLiteralSegment");
    assert("WhenClauseSegment"@.len() != "TypedStructLiteralSegment"@.len());
    reveal_strlit("UnorderedSelectStatementSegment");
    assert("WhenClauseSegment"@.len() != "UnorderedSelectStatementSegment"@.len());
    reveal_strlit("ValuesClauseSegment");
    assert("WhenClauseSegment"@.len() != "ValuesClauseSegment"@.len());
    reveal_strlit("WithDataClauseSegment");
    assert("WhenClauseSegment"@.len() != "WithDataClauseSegment"@.len());
    reveal_strlit("WithNoSchemaBindingClauseSegment");
    assert("WhenClauseSegment"@.len() != "WithNoSchemaBindingClauseSegment"@.len());
}

proof fn lemma_part_10_keeps_when_clause_segment(m: Map<Seq<char>, ElementView>)
    requires
        m.dom().contains("WhenClauseSegment"@),
    ensures
        ansi_library_part_10(m).dom().contains("WhenClauseSegment"@),
        ansi_library_part_10(m)["WhenClauseSegment"@] == m["WhenClauseSegment"@],
{
    reveal_strlit("WhenClauseSegment");
    reveal_strlit("AccessStatementSegmentGrantRoleWithOptionGrammar");
    assert("WhenClauseSegment"@.len() != "AccessStatementSegmentGrantRoleWithOptionGrammar"@.len());
    reveal_strlit("AliasedTableReferenceGrammar");
    assert("WhenClauseSegment"@.len() != "AliasedTableReferenceGrammar"@.len());
    reveal_strlit("CharCharacterSetGrammar");
    assert("WhenClauseSegment"@.len() != "CharCharacterSetGrammar"@.len());
    reveal_strlit("CreateSchemaStatementSegment");
    assert("WhenClauseSegment"@.len() != "CreateSchemaStatementSegment"@.len());
    reveal_strlit("DatePartFunctionNameSegment");
    assert("WhenClauseSegment"@.len() != "DatePartFunctionNameSegment"@.len());
    reveal_strlit("EmptyStructLiteralBracketsSegment");
    assert("WhenClauseSegment"@.len() != "EmptyStructLiteralBracketsSegment"@.len());
    reveal_strlit("Expression_A_Grammar");
    assert("WhenClauseSegment"@.len() != "Expression_A_Grammar"@.len());
    reveal_strlit("Expression_A_Unary_Operator_Grammar");
    assert("WhenClauseSegment"@.len() != "Expression_A_Unary_Operator_Grammar"@.len());
    reveal_strlit("Expression_B_Unary_Operator_Grammar");
    assert("WhenClauseSegment"@.len() != "Expression_B_Unary_Operator_Grammar"@.len());
    reveal_strlit("FromClauseSegment");
    assert("WhenClauseSegment"@[0] != "FromClauseSegment"@[0]);
    reveal_strlit("FromExpressionSegment");
    assert("WhenClauseSegment"@.len() != "FromExpressionSegment"@.len());
    reveal_strlit("FunctionContentsExpressionGrammar");
    assert("WhenClauseSegment"@.len() != "FunctionContentsExpressionGrammar"@.len());
    reveal_strlit("FunctionContentsGrammar");
    assert("WhenClauseSegment"@.len() != "FunctionContentsGrammar"@.len());
    reveal_strlit("FunctionContentsSegment");
    assert("WhenClauseSegment"@.len() != "FunctionContentsSegment"@.len());
    reveal_strlit("JoinLikeClauseGrammar");
    assert("WhenClauseSegment"@.len() != "JoinLikeClauseGrammar"@.len());
    reveal_strlit("OrderByClauseSegment");
    assert("WhenClauseSegment"@.len() != "OrderByClauseSegment"@.len());
    reveal_strlit("PostFunctionGrammar");
    assert("WhenClauseSegment"@.len() != "PostFunctionGrammar"@.len());
    reveal_strlit("SelectClauseElementSegment");
    assert("WhenClauseSegment"@.len() != "SelectClauseElementSegment"@.len());
    reveal_strlit("SelectClauseModifierSegment");
    assert("WhenClauseSegment"@.len() != "SelectClauseModifierSegment"@.len());
    reveal_strlit("SelectStatementSegment");
    assert("WhenClauseSegment"@.len() != "SelectStatementSegment"@.len());
    reveal_strlit("SetExpressionSegment");
    assert("WhenClauseSegment"@.len() != "SetExpressionSegment"@.len());
    reveal_strlit("Tail_Recurse_Expression_A_Grammar");
    assert("WhenClauseSegment"@.len() != "Tail_Recurse_Expression_A_Grammar"@.len());
    reveal_strlit("Tail_Recurse_Expression_B_Grammar");
    assert("WhenClauseSegment"@.len() != "Tail_Recurse_Expression_B_Grammar"@.len());
    reveal_strlit("TruncateStatementSegment");
    assert("WhenClauseSegment"@.len() != "TruncateStatementSegment"@.len());
    reveal_strlit("WildcardExpressionSegment");
    assert("WhenClauseSegment"@.len() != "WildcardExpressionSegment"@.len());
}

proof fn lemma_part_11_keeps_when_clause_segment(m: Map<Seq<char>, ElementView>)
    requires
        m.dom().contains("WhenClauseSegment"@),
    ensures
        ansi_library_part_11(m).dom().contains("WhenClauseSegment"@),
        ansi_library_part_11(m)["WhenClauseSegment"@] == m["WhenClauseSegment"@],
{
    reveal_strlit("WhenClauseSegment");
    reveal_strlit("AccessorGrammar");
    assert("WhenClauseSegment"@.len() != "AccessorGrammar"@.len());
    reveal_strlit("Expression_B_Grammar");
    assert("WhenClauseSegment"@.len() != "Expression_B_Grammar"@.len());
    reveal_strlit("Expression_C_Grammar");
    assert("WhenClauseSegment"@.len() != "Expression_C_Grammar"@.len());
    reveal_strlit("Expression_D_Grammar");
    assert("WhenClauseSegment"@.len() != "Expression_D_Grammar"@.len());
    reveal_strlit("NonSetSelectableGrammar");
    assert("WhenClauseSegment"@.len() != "NonSetSelectableGrammar"@.len());
    reveal_strlit("NonWithNonSelectableGrammar");
    assert("WhenClauseSegment"@.len() != "NonWithNonSelectableGrammar"@.len());
    reveal_strlit("NonWithSelectableGrammar");
    assert("WhenClauseSegment"@.len() != "NonWithSelectableGrammar"@.len());
    reveal_strlit("PostTableExpressionGrammar");
    assert("WhenClauseSegment"@.len() != "PostTableExpressionGrammar"@.len());
    reveal_strlit("SelectableGrammar");
    assert("WhenClauseSegment"@[0] != "SelectableGrammar"@[0]);
    reveal_strlit("TimeWithTZGrammar");
    assert("WhenClauseSegment"@[0] != "TimeWithTZGrammar"@[0]);
}

/// The ANSI library holds `WhenClauseSegment`: the value of its last entry of that name.
pub proof fn lemma_ansi_library_when_clause_segment(lib: Map<Seq<char>, ElementView>)
    ensures
        ansi_library(lib).dom().contains("WhenClauseSegment"@),
        ansi_library(lib)["WhenClauseSegment"@] == when_clause_segment_element(),
{
    reveal(ansi_library);
    let m0 = lib;
    let m1 = ansi_library_part_0(m0);
    let m2 = ansi_library_part_1(m1);
    let m3 = ansi_library_part_2(m2);
    let m4 = ansi_library_part_3(m3);
    let m5 = ansi_library_part_4(m4);
    let m6 = ansi_library_part_5(m5);
    let m7 = ansi_library_part_6(m6);
    let m8 = ansi_library_part_7(m7);
    let m9 = ansi_library_part_8(m8);
    let m10 = ansi_library_part_9(m9);
    let m11 = ansi_library_part_10(m10);
    let m12 = ansi_library_part_11(m11);
    lemma_part_8_sets_when_clause_segment(m8);
    lemma_part_9_keeps_when_clause_segment(m9);
    lemma_part_10_keeps_when_clause_segment(m10);
    lemma_part_11_keeps_when_clause_segment(m11);
}

proof fn lemma_part_8_sets_drop_table_statement_segment(m: Map<Seq<char>, ElementView>)
    ensures
        ansi_library_part_8(m).dom().contains("DropTableStatementSegment"@),
        ansi_library_part_8(m)["DropTableStatementSegment"@] == drop_table_statement_segment_element(),
{
    reveal_strlit("DropTableStatementSegment");
    reveal_strlit("AggregateOrderByClause");
    assert("DropTableStatementSegment"@.len() != "AggregateOrderByClause"@.len());
    reveal_strlit("ArrayExpressionSegment");
    assert("DropTableStatementSegment"@.len() != "ArrayExpressionSegment"@.len());
    reveal_strlit("BitwiseAndSegment");
    assert("DropTableStatementSegment"@.len() != "BitwiseAndSegment"@.len());
    reveal_strlit("BitwiseLShiftSegment");
    assert("DropTableStatementSegment"@.len() != "BitwiseLShiftSegment"@.len());
    reveal_strlit("BitwiseOrSegment");
    assert("DropTableStatementSegment"@.len() != "BitwiseOrSegment"@.len());
    reveal_strlit("BitwiseRShiftSegment");
    assert("DropTableStatementSegment"@.len() != "BitwiseRShiftSegment"@.len());
    reveal_strlit("ConcatSegment");
    assert("DropTableStatementSegment"@.len() != "ConcatSegment"@.len());
    reveal_strlit("CreateUserStatementSegment");
    assert("DropTableStatementSegment"@.len() != "CreateUserStatementSegment"@.len());
    reveal_strlit("DropUserStatementSegment");
    assert("DropTableStatementSegment"@.len() != "DropUserStatementSegment"@.len());
    reveal_strlit("DropViewStatementSegment");
    assert("DropTableStatementSegment"@.len() != "DropViewStatementSegment"@.len());
    reveal_strlit("ElseClauseSegment");
    assert("DropTableStatementSegment"@.len() != "ElseClauseSegment"@.len());
    reveal_strlit("EqualsSegment");
    assert("DropTableStatementSegment"@.len() != "EqualsSegment"@.len());
    reveal_strlit("FunctionNameSegment");
    assert("DropTableStatementSegment"@.len() != "FunctionNameSegment"@.len());
    reveal_strlit("GreaterThanOrEqualToSegment");
    assert("DropTableStatementSegment"@.len() != "GreaterThanOrEqualToSegment"@.len());
    reveal_strlit("GreaterThanSegment");
    assert("DropTableStatementSegment"@.len() != "GreaterThanSegment"@.len());
    reveal_strlit("IndexColumnDefinitionSegment");
    assert("DropTableStatementSegment"@.len() != "IndexColumnDefinitionSegment"@.len());
    reveal_strlit("LessThanOrEqualToSegment");
    assert("DropTableStatementSegment"@.len() != "LessThanOrEqualToSegment"@.len());
    reveal_strlit("LessThanSegment");
    assert("DropTableStatementSegment"@.len() != "LessThanSegment"@.len());
    reveal_strlit("LocalAliasSegment");
    assert("DropTableStatementSegment"@.len() != "LocalAliasSegment"@.len());
    reveal_strlit("MergeStatementSegment");
    assert("DropTableStatementSegment"@.len() != "MergeStatementSegment"@.len());
    reveal_strlit("NotEqualToSegment");
    assert("DropTableStatementSegment"@.len() != "NotEqualToSegment"@.len());
    reveal_strlit("QualifiedNumericLiteralSegment");
    assert("DropTableStatementSegment"@.len() != "QualifiedNumericLiteralSegment"@.len());
    reveal_strlit("WhenClauseSegment");
    assert("DropTableStatementSegment"@.len() != "WhenClauseSegment"@.len());
    reveal_strlit("WhereClauseSegment");
    assert("DropTableStatementSegment"@.len() != "WhereClauseSegment"@.len());
}

proof fn lemma_part_9_keeps_drop_table_statement_segment(m: Map<Seq<char>, ElementView>)
    requires
        m.dom().contains("DropTableStatementSegment"@),
    ensures
        ansi_library_part_9(m).dom().contains("DropTableStatementSegment"@),
        ansi_library_part_9(m)["DropTableStatementSegment"@] == m["DropTableStatementSegment"@],
{
    reveal_strlit("DropTableStatementSegment");
    reveal_strlit("AliasExpressionSegment");
    assert("DropTableStatementSegment"@.len() != "AliasExpressionSegment"@.len());
    reveal_strlit("ArrayAccessorSegment");
    assert("DropTableStatementSegment"@.len() != "ArrayAccessorSegment"@.len());
    reveal_strlit("ArrayLiteralSegment");
    assert("DropTableStatementSegment"@.len() != "ArrayLiteralSegment"@.len());
    reveal_strlit("ArrayTypeSegment");
    assert("DropTableStatementSegment"@.len() != "ArrayTypeSegment"@.len());
    reveal_strlit("BracketedArguments");
    assert("DropTableStatementSegment"@.len() != "BracketedArguments"@.len());
    reveal_strlit("DatatypeSegment");
    assert("DropTableStatementSegment"@.len() != "DatatypeSegment"@.len());
    reveal_strlit("EmptyStructLiteralSegment");
    assert("DropTableStatementSegment"@[0] != "EmptyStructLiteralSegment"@[0]);
    reveal_strlit("IntervalExpressionSegment");
    assert("DropTableStatementSegment"@[0] != "IntervalExpressionSegment"@[0]);
    reveal_strlit("ObjectLiteralElementSegment");
    assert("DropTableStatementSegment"@.len() != "ObjectLiteralElementSegment"@.len());
    reveal_strlit("ObjectLiteralSegment");
    assert("DropTableStatementSegment"@.len() != "ObjectLiteralSegment"@.len());
    reveal_strlit("OverlapsClauseSegment");
    assert("DropTableStatementSegment"@.len() != "OverlapsClauseSegment"@.len());
    reveal_strlit("SelectClauseSegment");
    assert("DropTableStatementSegment"@.len() != "SelectClauseSegment"@.len());
    reveal_strlit("SetOperatorSegment");
    assert("DropTableStatementSegment"@.len() != "SetOperatorSegment"@.len());
    reveal_strlit("ShorthandCastSegment");
    assert("DropTableStatementSegment"@.len() != "ShorthandCastSegment"@.len());
    reveal_strlit("SizedArrayTypeSegment");
    assert("DropTableStatementSegment"@.len() != "SizedArrayTypeSegment"@.len());
    reveal_strlit("StatementSegment");
    assert("DropTableStatementSegment"@.len() != "StatementSegment"@.len());
    reveal_strlit("StructLiteralSegment");
    assert("DropTableStatementSegment"@.len() != "StructLiteralSegment"@.len());
    reveal_strlit("StructTypeSegment");
    assert("DropTableStatementSegment"@.len() != "StructTypeSegment"@.len());
    reveal_strlit("TimeZoneGrammar");
    assert("DropTableStatementSegment"@.len() != "TimeZoneGrammar"@.len());
    reveal_strlit("TypedArrayLiteralSegment");
    assert("DropTableStatementSegment"@.len() != "TypedArrayLiteralSegment"@.len());
    reveal_strlit("TypedStructLiteralSegment");
    assert("DropTableStatementSegment"@[0] != "TypedStructLiteralSegment"@[0]);
    reveal_strlit("UnorderedSelectStatementSegment");
    assert("DropTableStatementSegment"@.len() != "UnorderedSelectStatementSegment"@.len());
    reveal_strlit("ValuesClauseSegment");
    assert("DropTableStatementSegment"@.len() != "ValuesClauseSegment"@.len());
    reveal_strlit("WithDataClauseSegment");
    assert("DropTableStatementSegment"@.len() != "WithDataClauseSegment"@.len());
    reveal_strlit("WithNoSchemaBindingClauseSegment");
    assert("DropTableStatementSegment"@.len() != "WithNoSchemaBindingClauseSegment"@.len());
}

proof fn lemma_part_10_keeps_drop_table_statement_segment(m: Map<Seq<char>, ElementView>)
    requires
        m.dom().contains("DropTableStatementSegment"@),
    ensures
        ansi_library_part_10(m).dom().contains("DropTableStatementSegment"@),
        ansi_library_part_10(m)["DropTableStatementSegment"@] == m["DropTableStatementSegment"@],
{
    reveal_strlit("DropTableStatementSegment");
    reveal_strlit("AccessStatementSegmentGrantRoleWithOptionGrammar");
    assert("DropTableStatementSegment"@.len() != "AccessStatementSegmentGrantRoleWithOptionGrammar"@.len());
    reveal_strlit("AliasedTableReferenceGrammar");
    assert("DropTableStatementSegment"@.len() != "AliasedTableReferenceGrammar"@.len());
    reveal_strlit("CharCharacterSetGrammar");
    assert("DropTableStatementSegment"@.len() != "CharCharacterSetGrammar"@.len());
    reveal_strlit("CreateSchemaStatementSegment");
    assert("DropTableStatementSegment"@.len() != "CreateSchemaStatementSegment"@.len());
    reveal_strlit("DatePartFunctionNameSegment");
    assert("DropTableStatementSegment"@.len() != "DatePartFunctionNameSegment"@.len());
    reveal_strlit("EmptyStructLiteralBracketsSegment");
    assert("DropTableStatementSegment"@.len() != "EmptyStructLiteralBracketsSegment"@.len());
    reveal_strlit("Expression_A_Grammar");
    assert("DropTableStatementSegment"@.len() != "Expression_A_Grammar"@.len());
    reveal_strlit("Expression_A_Unary_Operator_Grammar");
    assert("DropTableStatementSegment"@.len() != "Expression_A_Unary_Operator_Grammar"@.len());
    reveal_strlit("Expression_B_Unary_Operator_Grammar");
    assert("DropTableStatementSegment"@.len() != "Expression_B_Unary_Operator_Grammar"@.len());
    reveal_strlit("FromClauseSegment");
    assert("DropTableStatementSegment"@.len() != "FromClauseSegment"@.len());
    reveal_strlit("FromExpressionSegment");
    assert("DropTableStatementSegment"@.len() != "FromExpressionSegment"@.len());
    reveal_strlit("FunctionContentsExpressionGrammar");
    assert("DropTableStatementSegment"@.len() != "FunctionContentsExpressionGrammar"@.len());
    reveal_strlit("FunctionContentsGrammar");
    assert("DropTableStatementSegment"@.len() != "FunctionContentsGrammar"@.len());
    reveal_strlit("FunctionContentsSegment");
    assert("DropTableStatementSegment"@.len() != "FunctionContentsSegment"@.len());
    reveal_strlit("JoinLikeClauseGrammar");
    assert("DropTableStatementSegment"@.len() != "JoinLikeClauseGrammar"@.len());
    reveal_strlit("OrderByClauseSegment");
    assert("DropTableStatementSegment"@.len() != "OrderByClauseSegment"@.len());
    reveal_strlit("PostFunctionGrammar");
    assert("DropTableStatementSegment"@.len() != "PostFunctionGrammar"@.len());
    reveal_strlit("SelectClauseElementSegment");
    assert("DropTableStatementSegment"@.len() != "SelectClauseElementSegment"@.len());
    reveal_strlit("SelectClauseModifierSegment");
    assert("DropTableStatementSegment"@.len() != "SelectClauseModifierSegment"@.len());
    reveal_strlit("SelectStatementSegment");
    assert("DropTableStatementSegment"@.len() != "SelectStatementSegment"@.len());
    reveal_strlit("SetExpressionSegment");
    assert("DropTableStatementSegment"@.len() != "SetExpressionSegment"@.len());
    reveal_strlit("Tail_Recurse_Expression_A_Grammar");
    assert("DropTableStatementSegment"@.len() != "Tail_Recurse_Expression_A_Grammar"@.len());
    reveal_strlit("Tail_Recurse_Expression_B_Grammar");
    assert("DropTableStatementSegment"@.len() != "Tail_Recurse_Expression_B_Grammar"@.len());
    reveal_strlit("TruncateStatementSegment");
    assert("DropTableStatementSegment"@.len() != "TruncateStatementSegment"@.len());
    reveal_strlit("WildcardExpressionSegment");
    assert("DropTableStatementSegment"@[0] != "WildcardExpressionSegment"@[0]);
}

proof fn lemma_part_11_keeps_drop_table_statement_segment(m: Map<Seq<char>, ElementView>)
    requires
        m.dom().contains("DropTableStatementSegment"@),
    ensures
        ansi_library_part_11(m).dom().contains("DropTableStatementSegment"@),
        ansi_library_part_11(m)["DropTableStatementSegment"@] == m["DropTableStatementSegment"@],
{
    reveal_strlit("DropTableStatementSegment");
    reveal_strlit("AccessorGrammar");
    assert("DropTableStatementSegment"@.len() != "AccessorGrammar"@.len());
    reveal_strlit("Expression_B_Grammar");
    assert("DropTableStatementSegment"@.len() != "Expression_B_Grammar"@.len());
    reveal_strlit("Expression_C_Grammar");
    assert("DropTableStatementSegment"@.len() != "Expression_C_Grammar"@.len());
    reveal_strlit("Expression_D_Grammar");
    assert("DropTableStatementSegment"@.len() != "Expression_D_Grammar"@.len());
    reveal_strlit("NonSetSelectableGrammar");
    assert("DropTableStatementSegment"@.len() != "NonSetSelectableGrammar"@.len());
    reveal_strlit("NonWithNonSelectableGrammar");
    assert("DropTableStatementSegment"@.len() != "NonWithNonSelectableGrammar"@.len());
    reveal_strlit("NonWithSelectableGrammar");
    assert("DropTableStatementSegment"@.len() != "NonWithSelectableGrammar"@.len());
    reveal_strlit("PostTableExpressionGrammar");
    assert("DropTableStatementSegment"@.len() != "PostTableExpressionGrammar"@.len());
    reveal_strlit("SelectableGrammar");
    assert("DropTableStatementSegment"@.len() != "SelectableGrammar"@.len());
    reveal_strlit("TimeWithTZGrammar");
    assert("DropTableStatementSegment"@.len() != "TimeWithTZGrammar"@.len());
}

/// The ANSI library holds `DropTableStatementSegment`: the value of its last entry of that name.
pub proof fn lemma_ansi_library_drop_table_statement_segment(lib: Map<Seq<char>, ElementView>)
    ensures
        ansi_library(lib).dom().contains("DropTableStatementSegment"@),
        ansi_library(lib)["DropTableStatementSegment"@] == drop_table_statement_segment_element(),
{
    reveal(ansi_library);
    let m0 = lib;
    let m1 = ansi_library_part_0(m0);
    let m2 = ansi_library_part_1(m1);
    let m3 = ansi_library_part_2(m2);
    let m4 = ansi_library_part_3(m3);
    let m5 = ansi_library_part_4(m4);
    let m6 = ansi_library_part_5(m5);
    let m7 = ansi_library_part_6(m6);
    let m8 = ansi_library_part_7(m7);
    let m9 = ansi_library_part_8(m8);
    let m10 = ansi_library_part_9(m9);
    let m11 = ansi_library_part_10(m10);
    let m12 = ansi_library_part_11(m11);
    lemma_part_8_sets_drop_table_statement_segment(m8);
    lemma_part_9_keeps_drop_table_statement_segment(m9);
    lemma_part_10_keeps_drop_table_statement_segment(m10);
    lemma_part_11_keeps_drop_table_statement_segment(m11);
}

proof fn lemma_part_8_sets_drop_view_statement_segment(m: Map<Seq<char>, ElementView>)
    ensures
        ansi_library_part_8(m).dom().contains("DropViewStatementSegment"@),
        ansi_library_part_8(m)["DropViewStatementSegment"@] == drop_view_statement_segment_element(),
{
    reveal_strlit("DropViewStatementSegment");
    reveal_strlit("AggregateOrderByClause");
    assert("DropViewStatementSegment"@.len() != "AggregateOrderByClause"@.len());
    reveal_strlit("ArrayExpressionSegment");
    assert("DropViewStatementSegment"@.len() != "ArrayExpressionSegment"@.len());
    reveal_strlit("BitwiseAndSegment");
    assert("DropViewStatementSegment"@.len() != "BitwiseAndSegment"@.len());
    reveal_strlit("BitwiseLShiftSegment");
    assert("DropViewStatementSegment"@.len() != "BitwiseLShiftSegment"@.len());
    reveal_strlit("BitwiseOrSegment");
    assert("DropViewStatementSegment"@.len() != "BitwiseOrSegment"@.len());
    reveal_strlit("BitwiseRShiftSegment");
    assert("DropViewStatementSegment"@.len() != "BitwiseRShiftSegment"@.len());
    reveal_strlit("ConcatSegment");
    assert("DropViewStatementSegment"@.len() != "ConcatSegment"@.len());
    reveal_strlit("CreateUserStatementSegment");
    assert("DropViewStatementSegment"@.len() != "CreateUserStatementSegment"@.len());
    reveal_strlit("DropUserStatementSegment");
    assert("DropViewStatementSegment"@[4] != "DropUserStatementSegment"@[4]);
    reveal_strlit("ElseClauseSegment");
    assert("DropViewStatementSegment"@.len() != "ElseClauseSegment"@.len());
    reveal_strlit("EqualsSegment");
    assert("DropViewStatementSegment"@.len() != "EqualsSegment"@.len());
    reveal_strlit("FunctionNameSegment");
    assert("DropViewStatementSegment"@.len() != "FunctionNameSegment"@.len());
    reveal_strlit("GreaterThanOrEqualToSegment");
    assert("DropViewStatementSegment"@.len() != "GreaterThanOrEqualToSegment"@.len());
    reveal_strlit("GreaterThanSegment");
    assert("DropViewStatementSegment"@.len() != "GreaterThanSegment"@.len());
    reveal_strlit("IndexColumnDefinitionSegment");
    assert("DropViewStatementSegment"@.len() != "IndexColumnDefinitionSegment"@.len());
    reveal_strlit("LessThanOrEqualToSegment");
    assert("DropViewStatementSegment"@[0] != "LessThanOrEqualToSegment"@[0]);
    reveal_strlit("LessThanSegment");
    assert("DropViewStatementSegment"@.len() != "LessThanSegment"@.len());
    reveal_strlit("LocalAliasSegment");
    assert("DropViewStatementSegment"@.len() != "LocalAliasSegment"@.len());
    reveal_strlit("MergeStatementSegment");
    assert("DropViewStatementSegment"@.len() != "MergeStatementSegment"@.len());
    reveal_strlit("NotEqualToSegment");
    assert("DropViewStatementSegment"@.len() != "NotEqualToSegment"@.len());
    reveal_strlit("QualifiedNumericLiteralSegment");
    assert("DropViewStatementSegment"@.len() != "QualifiedNumericLiteralSegment"@.len());
    reveal_strlit("WhenClauseSegment");
    assert("DropViewStatementSegment"@.len() != "WhenClauseSegment"@.len());
    reveal_strlit("WhereClauseSegment");
    assert("DropViewStatementSegment"@.len() != "WhereClauseSegment"@.len());
}

proof fn lemma_part_9_keeps_drop_view_statement_segment(m: Map<Seq<char>, ElementView>)
    requires
        m.dom().contains("DropViewStatementSegment"@),
    ensures
        ansi_library_part_9(m).dom().contains("DropViewStatementSegment"@),
        ansi_library_part_9(m)["DropViewStatementSegment"@] == m["DropViewStatementSegment"@],
{
    reveal_strlit("DropViewStatementSegment");
    reveal_strlit("AliasExpressionSegment");
    assert("DropViewStatementSegment"@.len() != "AliasExpressionSegment"@.len());
    reveal_strlit("ArrayAccessorSegment");
    assert("DropViewStatementSegment"@.len() != "ArrayAccessorSegment"@.len());
    reveal_strlit("ArrayLiteralSegment");
    assert("DropViewStatementSegment"@.len() != "ArrayLiteralSegment"@.len());
    reveal_strlit("ArrayTypeSegment");
    assert("DropViewStatementSegment"@.len() != "ArrayTypeSegment"@.len());
    reveal_strlit("BracketedArguments");
    assert("DropViewStatementSegment"@.len() != "BracketedArguments"@.len());
    reveal_strlit("DatatypeSegment");
    assert("DropViewStatementSegment"@.len() != "DatatypeSegment"@.len());
    reveal_strlit("EmptyStructLiteralSegment");
    assert("DropViewStatementSegment"@.len() != "EmptyStructLiteralSegment"@.len());
    reveal_strlit("IntervalExpressionSegment");
    assert("DropViewStatementSegment"@.len() != "IntervalExpressionSegment"@.len());
    reveal_strlit("ObjectLiteralElementSegment");
    assert("DropViewStatementSegment"@.len() != "ObjectLiteralElementSegment"@.len());
    reveal_strlit("ObjectLiteralSegment");
    assert("DropViewStatementSegment"@.len() != "ObjectLiteralSegment"@.len());
    reveal_strlit("OverlapsClauseSegment");
    assert("DropViewStatementSegment"@.len() != "OverlapsClauseSegment"@.len());
    reveal_strlit("SelectClauseSegment");
    assert("DropViewStatementSegment"@.len() != "SelectClauseSegment"@.len());
    reveal_strlit("SetOperatorSegment");
    assert("DropViewStatementSegment"@.len() != "SetOperatorSegment"@.len());
    reveal_strlit("ShorthandCastSegment");
    assert("DropViewStatementSegment"@.len() != "ShorthandCastSegment"@.len());
    reveal_strlit("SizedArrayTypeSegment");
    assert("DropViewStatementSegment"@.len() != "SizedArrayTypeSegment"@.len());
    reveal_strlit("StatementSegment");
    assert("DropViewStatementSegment"@.len() != "StatementSegment"@.len());
    reveal_strlit("StructLiteralSegment");
    assert("DropViewStatementSegment"@.len() != "StructLiteralSegment"@.len());
    reveal_strlit("StructTypeSegment");
    assert("DropViewStatementSegment"@.len() != "StructTypeSegment"@.len());
    reveal_strlit("TimeZoneGrammar");
    assert("DropViewStatementSegment"@.len() != "TimeZoneGrammar"@.len());
    reveal_strlit("TypedArrayLiteralSegment");
    assert("DropViewStatementSegment"@[0] != "TypedArrayLiteralSegment"@[0]);
    reveal_strlit("TypedStructLiteralSegment");
    assert("DropViewStatementSegment"@.len() != "TypedStructLiteralSegment"@.len());
    reveal_strlit("UnorderedSelectStatementSegment");
    assert("DropViewStatementSegment"@.len() != "UnorderedSelectStatementSegment"@.len());
    reveal_strlit("ValuesClauseSegment");
    assert("DropViewStatementSegment"@.len() != "ValuesClauseSegment"@.len());
    reveal_strlit("WithDataClauseSegment");
    assert("DropViewStatementSegment"@.len() != "WithDataClauseSegment"@.len());
    reveal_strlit("WithNoSchemaBindingClauseSegment");
    assert("DropViewStatementSegment"@.len() != "WithNoSchemaBindingClauseSegment"@.len());
}

proof fn lemma_part_10_keeps_drop_view_statement_segment(m: Map<Seq<char>, ElementView>)
    requires
        m.dom().contains("DropViewStatementSegment"@),
    ensures
        ansi_library_part_10(m).dom().contains("DropViewStatementSegment"@),
        ansi_library_part_10(m)["DropViewStatementSegment"@] == m["DropViewStatementSegment"@],
{
    reveal_strlit("DropViewStatementSegment");
    reveal_strlit("AccessStatementSegmentGrantRoleWithOptionGrammar");
    assert("DropViewStatementSegment"@.len() != "AccessStatementSegmentGrantRoleWithOptionGrammar"@.len());
    reveal_strlit("AliasedTableReferenceGrammar");
    assert("DropViewStatementSegment"@.len() != "AliasedTableReferenceGrammar"@.len());
    reveal_strlit("CharCharacterSetGrammar");
    assert("DropViewStatementSegment"@.len() != "CharCharacterSetGrammar"@.len());
    reveal_strlit("CreateSchemaStatementSegment");
    assert("DropViewStatementSegment"@.len() != "CreateSchemaStatementSegment"@.len());
    reveal_strlit("DatePartFunctionNameSegment");
    assert("DropViewStatementSegment"@.len() != "DatePartFunctionNameSegment"@.len());
    reveal_strlit("EmptyStructLiteralBracketsSegment");
    assert("DropViewStatementSegment"@.len() != "EmptyStructLiteralBracketsSegment"@.len());
    reveal_strlit("Expression_A_Grammar");
    assert("DropViewStatementSegment"@.len() != "Expression_A_Grammar"@.len());
    reveal_strlit("Expression_A_Unary_Operator_Grammar");
    assert("DropViewStatementSegment"@.len() != "Expression_A_Unary_Operator_Grammar"@.len());
    reveal_strlit("Expression_B_Unary_Operator_Grammar");
    assert("DropViewStatementSegment"@.len() != "Expression_B_Unary_Operator_Grammar"@.len());
    reveal_strlit("FromClauseSegment");
    assert("DropViewStatementSegment"@.len() != "FromClauseSegment"@.len());
    reveal_strlit("FromExpressionSegment");
    assert("DropViewStatementSegment"@.len() != "FromExpressionSegment"@.len());
    reveal_strlit("FunctionContentsExpressionGrammar");
    assert("DropViewStatementSegment"@.len() != "FunctionContentsExpressionGrammar"@.len());
    reveal_strlit("FunctionContentsGrammar");
    assert("DropViewStatementSegment"@.len() != "FunctionContentsGrammar"@.len());
    reveal_strlit("FunctionContentsSegment");
    assert("DropViewStatementSegment"@.len() != "FunctionContentsSegment"@.len());
    reveal_strlit("JoinLikeClauseGrammar");
    assert("DropViewStatementSegment"@.len() != "JoinLikeClauseGrammar"@.len());
    reveal_strlit("OrderByClauseSegment");
    assert("DropViewStatementSegment"@.len() != "OrderByClauseSegment"@.len());
    reveal_strlit("PostFunctionGrammar");
    assert("DropViewStatementSegment"@.len() != "PostFunctionGrammar"@.len());
    reveal_strlit("SelectClauseElementSegment");
    assert("DropViewStatementSegment"@.len() != "SelectClauseElementSegment"@.len());
    reveal_strlit("SelectClauseModifierSegment");
    assert("DropViewStatementSegment"@.len() != "SelectClauseModifierSegment"@.len());
    reveal_strlit("SelectStatementSegment");
    assert("DropViewStatementSegment"@.len() != "SelectStatementSegment"@.len());
    reveal_strlit("SetExpressionSegment");
    assert("DropViewStatementSegment"@.len() != "SetExpressionSegment"@.len());
    reveal_strlit("Tail_Recurse_Expression_A_Grammar");
    assert("DropViewStatementSegment"@.len() != "Tail_Recurse_Expression_A_Grammar"@.len());
    reveal_strlit("Tail_Recurse_Expression_B_Grammar");
    assert("DropViewStatementSegment"@.len() != "Tail_Recurse_Expression_B_Grammar"@.len());
    reveal_strlit("TruncateStatementSegment");
    assert("DropViewStatementSegment"@[0] != "TruncateStatementSegment"@[0]);
    reveal_strlit("WildcardExpressionSegment");
    assert("DropViewStatementSegment"@.len() != "WildcardExpressionSegment"@.len());
}

proof fn lemma_part_11_keeps_drop_view_statement_segment(m: Map<Seq<char>, ElementView>)
    requires
        m.dom().contains("DropViewStatementSegment"@),
    ensures
        ansi_library_part_11(m).dom().contains("DropViewStatementSegment"@),
        ansi_library_part_11(m)["DropViewStatementSegment"@] == m["DropViewStatementSegment"@],
{
    reveal_strlit("DropViewStatementSegment");
    reveal_strlit("AccessorGrammar");
    assert("DropViewStatementSegment"@.len() != "AccessorGrammar"@.len());
    reveal_strlit("Expression_B_Grammar");
    assert("DropViewStatementSegment"@.len() != "Expression_B_Grammar"@.len());
    reveal_strlit("Expression_C_Grammar");
    assert("DropViewStatementSegment"@.len() != "Expression_C_Grammar"@.len());
    reveal_strlit("Expression_D_Grammar");
    assert("DropViewStatementSegment"@.len() != "Expression_D_Grammar"@.len());
    reveal_strlit("NonSetSelectableGrammar");
    assert("DropViewStatementSegment"@.len() != "NonSetSelectableGrammar"@.len());
    reveal_strlit("NonWithNonSelectableGrammar");
    assert("DropViewStatementSegment"@.len() != "NonWithNonSelectableGrammar"@.len());
    reveal_strlit("NonWithSelectableGrammar");
    assert("DropViewStatementSegment"@[0] != "NonWithSelectableGrammar"@[0]);
    reveal_strlit("PostTableExpressionGrammar");
    assert("DropViewStatementSegment"@.len() != "PostTableExpressionGrammar"@.len());
    reveal_strlit("SelectableGrammar");
    assert("DropViewStatementSegment"@.len() != "SelectableGrammar"@.len());
    reveal_strlit("TimeWithTZGrammar");
    assert("DropViewStatementSegment"@.len() != "TimeWithTZGrammar"@.len());
}

/// The ANSI library holds `DropViewStatementSegment`: the value of its last entry of that name.
pub proof fn lemma_ansi_library_drop_view_statement_segment(lib: Map<Seq<char>, ElementView>)
    ensures
        ansi_library(lib).dom().contains("DropViewStatementSegment"@),
        ansi_library(lib)["DropViewStatementSegment"@] == drop_view_statement_segment_element(),
{
    reveal(ansi_library);
    let m0 = lib;
    let m1 = ansi_library_part_0(m0);
    let m2 = ansi_library_part_1(m1);
    let m3 = ansi_library_part_2(m2);
    let m4 = ansi_library_part_3(m3);
    let m5 = ansi_library_part_4(m4);
    let m6 = ansi_library_part_5(m5);
    let m7 = ansi_library_part_6(m6);
    let m8 = ansi_library_part_7(m7);
    let m9 = ansi_library_part_8(m8);
    let m10 = ansi_library_part_9(m9);
    let m11 = ansi_library_part_10(m10);
    let m12 = ansi_library_part_11(m11);
    lemma_part_8_sets_drop_view_statement_segment(m8);
    lemma_part_9_keeps_drop_view_statement_segment(m9);
    lemma_part_10_keeps_drop_view_statement_segment(m10);
    lemma_part_11_keeps_drop_view_statement_segment(m11);
}

proof fn lemma_part_7_sets_drop_index_statement_segment(m: Map<Seq<char>, ElementView>)
    ensures
        ansi_library_part_7(m).dom().contains("DropIndexStatementSegment"@),
        ansi_library_part_7(m)["DropIndexStatementSegment"@] == drop_index_statement_segment_element(),
{
    reveal_strlit("DropIndexStatementSegment");
    reveal_strlit("AccessStatementSegment");
    assert("DropIndexStatementSegment"@.len() != "AccessStatementSegment"@.len());
    reveal_strlit("CreateTableStatementSegment");
    assert("DropIndexStatementSegment"@.len() != "CreateTableStatementSegment"@.len());
    reveal_strlit("InsertStatementSegment");
    assert("DropIndexStatementSegment"@.len() != "InsertStatementSegment"@.len());
    reveal_strlit("TransactionStatementSegment");
    assert("DropIndexStatementSegment"@.len() != "TransactionStatementSegment"@.len());
}

proof fn lemma_part_8_keeps_drop_index_statement_segment(m: Map<Seq<char>, ElementView>)
    requires
        m.dom().contains("DropIndexStatementSegment"@),
    ensures
        ansi_library_part_8(m).dom().contains("DropIndexStatementSegment"@),
        ansi_library_part_8(m)["DropIndexStatementSegment"@] == m["DropIndexStatementSegment"@],
{
    reveal_strlit("DropIndexStatementSegment");
    reveal_strlit("AggregateOrderByClause");
    assert("DropIndexStatementSegment"@.len() != "AggregateOrderByClause"@.len());
    reveal_strlit("ArrayExpressionSegment");
    assert("DropIndexStatementSegment"@.len() != "ArrayExpressionSegment"@.len());
    reveal_strlit("BitwiseAndSegment");
    assert("DropIndexStatementSegment"@.len() != "BitwiseAndSegment"@.len());
    reveal_strlit("BitwiseLShiftSegment");
    assert("DropIndexStatementSegment"@.len() != "BitwiseLShiftSegment"@.len());
    reveal_strlit("BitwiseOrSegment");
    assert("DropIndexStatementSegment"@.len() != "BitwiseOrSegment"@.len());
    reveal_strlit("BitwiseRShiftSegment");
    assert("DropIndexStatementSegment"@.len() != "BitwiseRShiftSegment"@.len());
    reveal_strlit("ConcatSegment");
    assert("DropIndexStatementSegment"@.len() != "ConcatSegment"@.len());
    reveal_strlit("CreateUserStatementSegment");
    assert("DropIndexStatementSegment"@.len() != "CreateUserStatementSegment"@.len());
    reveal_strlit("DropTableStatementSegment");
    assert("DropIndexStatementSegment"@[4] != "DropTableStatementSegment"@[4]);
    reveal_strlit("DropUserStatementSegment");
    assert("DropIndexStatementSegment"@.len() != "DropUserStatementSegment"@.len());
    reveal_strlit("DropViewStatementSegment");
    assert("DropIndexStatementSegment"@.len() != "DropViewStatementSegment"@.len());
    reveal_strlit("ElseClauseSegment");
    assert("DropIndexStatementSegment"@.len() != "ElseClauseSegment"@.len());
    reveal_strlit("EqualsSegment");
    assert("DropIndexStatementSegment"@.len() != "EqualsSegment"@.len());
    reveal_strlit("FunctionNameSegment");
    assert("DropIndexStatementSegment"@.len() != "FunctionNameSegment"@.len());
    reveal_strlit("GreaterThanOrEqualToSegment");
    assert("DropIndexStatementSegment"@.len() != "GreaterThanOrEqualToSegment"@.len());
    reveal_strlit("GreaterThanSegment");
    assert("DropIndexStatementSegment"@.len() != "GreaterThanSegment"@.len());
    reveal_strlit("IndexColumnDefinitionSegment");
    assert("DropIndexStatementSegment"@.len() != "IndexColumnDefinitionSegment"@.len());
    reveal_strlit("LessThanOrEqualToSegment");
    assert("DropIndexStatementSegment"@.len() != "LessThanOrEqualToSegment"@.len());
    reveal_strlit("LessThanSegment");
    assert("DropIndexStatementSegment"@.len() != "LessThanSegment"@.len());
    reveal_strlit("LocalAliasSegment");
    assert("DropIndexStatementSegment"@.len() != "LocalAliasSegment"@.len());
    reveal_strlit("MergeStatementSegment");
    assert("DropIndexStatementSegment"@.len() != "MergeStatementSegment"@.len());
    reveal_strlit("NotEqualToSegment");
    assert("DropIndexStatementSegment"@.len() != "NotEqualToSegment"@.len());
    reveal_strlit("QualifiedNumericLiteralSegment");
    assert("DropIndexStatementSegment"@.len() != "QualifiedNumericLiteralSegment"@.len());
    reveal_strlit("WhenClauseSegment");
    assert("DropIndexStatementSegment"@.len() != "WhenClauseSegment"@.len());
    reveal_strlit("WhereClauseSegment");
    assert("DropIndexStatementSegment"@.len() != "WhereClauseSegment"@.len());
}

proof fn lemma_part_9_keeps_drop_index_statement_segment(m: Map<Seq<char>, ElementView>)
    requires
        m.dom().contains("DropIndexStatementSegment"@),
    ensures
        ansi_library_part_9(m).dom().contains("DropIndexStatementSegment"@),
        ansi_library_part_9(m)["DropIndexStatementSegment"@] == m["DropIndexStatementSegment"@],
{
    reveal_strlit("DropIndexStatementSegment");
    reveal_strlit("AliasExpressionSegment");
    assert("DropIndexStatementSegment"@.len() != "AliasExpressionSegment"@.len());
    reveal_strlit("ArrayAccessorSegment");
    assert("DropIndexStatementSegment"@.len() != "ArrayAccessorSegment"@.len());
    reveal_strlit("ArrayLiteralSegment");
    assert("DropIndexStatementSegment"@.len() != "ArrayLiteralSegment"@.len());
    reveal_strlit("ArrayTypeSegment");
    assert("DropIndexStatementSegment"@.len() != "ArrayTypeSegment"@.len());
    reveal_strlit("BracketedArguments");
    assert("DropIndexStatementSegment"@.len() != "BracketedArguments"@.len());
    reveal_strlit("DatatypeSegment");
    assert("DropIndexStatementSegment"@.len() != "DatatypeSegment"@.len());
    reveal_strlit("EmptyStructLiteralSegment");
    assert("DropIndexStatementSegment"@[0] != "EmptyStructLiteralSegment"@[0]);
    reveal_strlit("IntervalExpressionSegment");
    assert("DropIndexStatementSegment"@[0] != "IntervalExpressionSegment"@[0]);
    reveal_strlit("ObjectLiteralElementSegment");
    assert("DropIndexStatementSegment"@.len() != "ObjectLiteralElementSegment"@.len());
    reveal_strlit("ObjectLiteralSegment");
    assert("DropIndexStatementSegment"@.len() != "ObjectLiteralSegment"@.len());
    reveal_strlit("OverlapsClauseSegment");
    assert("DropIndexStatementSegment"@.len() != "OverlapsClauseSegment"@.len());
    reveal_strlit("SelectClauseSegment");
    assert("DropIndexStatementSegment"@.len() != "SelectClauseSegment"@.len());
    reveal_strlit("SetOperatorSegment");
    assert("DropIndexStatementSegment"@.len() != "SetOperatorSegment"@.len());
    reveal_strlit("ShorthandCastSegment");
    assert("DropIndexStatementSegment"@.len() != "ShorthandCastSegment"@.len());
    reveal_strlit("SizedArrayTypeSegment");
    assert("DropIndexStatementSegment"@.len() != "SizedArrayTypeSegment"@.len());
    reveal_strlit("StatementSegment");
    assert("DropIndexStatementSegment"@.len() != "StatementSegment"@.len());
    reveal_strlit("StructLiteralSegment");
    assert("DropIndexStatementSegment"@.len() != "StructLiteralSegment"@.len());
    reveal_strlit("StructTypeSegment");
    assert("DropIndexStatementSegment"@.len() != "StructTypeSegment"@.len());
    reveal_strlit("TimeZoneGrammar");
    assert("DropIndexStatementSegment"@.len() != "TimeZoneGrammar"@.len());
    reveal_strlit("TypedArrayLiteralSegment");
    assert("DropIndexStatementSegment"@.len() != "TypedArrayLiteralSegment"@.len());
    reveal_strlit("TypedStructLiteralSegment");
    assert("DropIndexStatementSegment"@[0] != "TypedStructLiteralSegment"@[0]);
    reveal_strlit("UnorderedSelectStatementSegment");
    assert("DropIndexStatementSegment"@.len() != "UnorderedSelectStatementSegment"@.len());
    reveal_strlit("ValuesClauseSegment");
    assert("DropIndexStatementSegment"@.len() != "ValuesClauseSegment"@.len());
    reveal_strlit("WithDataClauseSegment");
    assert("DropIndexStatementSegment"@.len() != "WithDataClauseSegment"@.len());
    reveal_strlit("WithNoSchemaBindingClauseSegment");
    assert("DropIndexStatementSegment"@.len() != "WithNoSchemaBindingClauseSegment"@.len());
}

proof fn lemma_part_10_keeps_drop_index_statement_segment(m: Map<Seq<char>, ElementView>)
    requires
        m.dom().contains("DropIndexStatementSegment"@),
    ensures
        ansi_library_part_10(m).dom().contains("DropIndexStatementSegment"@),
        ansi_library_part_10(m)["DropIndexStatementSegment"@] == m["DropIndexStatementSegment"@],
{
    reveal_strlit("DropIndexStatementSegment");
    reveal_strlit("AccessStatementSegmentGrantRoleWithOptionGrammar");
    assert("DropIndexStatementSegment"@.len() != "AccessStatementSegmentGrantRoleWithOptionGrammar"@.len());
    reveal_strlit("AliasedTableReferenceGrammar");
    assert("DropIndexStatementSegment"@.len() != "AliasedTableReferenceGrammar"@.len());
    reveal_strlit("CharCharacterSetGrammar");
    assert("DropIndexStatementSegment"@.len() != "CharCharacterSetGrammar"@.len());
    reveal_strlit("CreateSchemaStatementSegment");
    assert("DropIndexStatementSegment"@.len() != "CreateSchemaStatementSegment"@.len());
    reveal_strlit("DatePartFunctionNameSegment");
    assert("DropIndexStatementSegment"@.len() != "DatePartFunctionNameSegment"@.len());
    reveal_strlit("EmptyStructLiteralBracketsSegment");
    assert("DropIndexStatementSegment"@.len() != "EmptyStructLiteralBracketsSegment"@.len());
    reveal_strlit("Expression_A_Grammar");
    assert("DropIndexStatementSegment"@.len() != "Expression_A_Grammar"@.len());
    reveal_strlit("Expression_A_Unary_Operator_Grammar");
    assert("DropIndexStatementSegment"@.len() != "Expression_A_Unary_Operator_Grammar"@.len());
    reveal_strlit("Expression_B_Unary_Operator_Grammar");
    assert("DropIndexStatementSegment"@.len() != "Expression_B_Unary_Operator_Grammar"@.len());
    reveal_strlit("FromClauseSegment");
    assert("DropIndexStatementSegment"@.len() != "FromClauseSegment"@.len());
    reveal_strlit("FromExpressionSegment");
    assert("DropIndexStatementSegment"@.len() != "FromExpressionSegment"@.len());
    reveal_strlit("FunctionContentsExpressionGrammar");
    assert("DropIndexStatementSegment"@.len() != "FunctionContentsExpressionGrammar"@.len());
    reveal_strlit("FunctionContentsGrammar");
    assert("DropIndexStatementSegment"@.len() != "FunctionContentsGrammar"@.len());
    reveal_strlit("FunctionContentsSegment");
    assert("DropIndexStatementSegment"@.len() != "FunctionContentsSegment"@.len());
    reveal_strlit("JoinLikeClauseGrammar");
    assert("DropIndexStatementSegment"@.len() != "JoinLikeClauseGrammar"@.len());
    reveal_strlit("OrderByClauseSegment");
    assert("DropIndexStatementSegment"@.len() != "OrderByClauseSegment"@.len());
    reveal_strlit("PostFunctionGrammar");
    assert("DropIndexStatementSegment"@.len() != "PostFunctionGrammar"@.len());
    reveal_strlit("SelectClauseElementSegment");
    assert("DropIndexStatementSegment"@.len() != "SelectClauseElementSegment"@.len());
    reveal_strlit("SelectClauseModifierSegment");
    assert("DropIndexStatementSegment"@.len() != "SelectClauseModifierSegment"@.len());
    reveal_strlit("SelectStatementSegment");
    assert("DropIndexStatementSegment"@.len() != "SelectStatementSegment"@.len());
    reveal_strlit("SetExpressionSegment");
    assert("DropIndexStatementSegment"@.len() != "SetExpressionSegment"@.len());
    reveal_strlit("Tail_Recurse_Expression_A_Grammar");
    assert("DropIndexStatementSegment"@.len() != "Tail_Recurse_Expression_A_Grammar"@.len());
    reveal_strlit("Tail_Recurse_Expression_B_Grammar");
    assert("DropIndexStatementSegment"@.len() != "Tail_Recurse_Expression_B_Grammar"@.len());
    reveal_strlit("TruncateStatementSegment");
    assert("DropIndexStatementSegment"@.len() != "TruncateStatementSegment"@.len());
    reveal_strlit("WildcardExpressionSegment");
    assert("DropIndexStatementSegment"@[0] != "WildcardExpressionSegment"@[0]);
}

proof fn lemma_part_11_keeps_drop_index_statement_segment(m: Map<Seq<char>, ElementView>)
    requires
        m.dom().contains("DropIndexStatementSegment"@),
    ensures
        ansi_library_part_11(m).dom().contains("DropIndexStatementSegment"@),
        ansi_library_part_11(m)["DropIndexStatementSegment"@] == m["DropIndexStatementSegment"@],
{
    reveal_strlit("DropIndexStatementSegment");
    reveal_strlit("AccessorGrammar");
    assert("DropIndexStatementSegment"@.len() != "AccessorGrammar"@.len());
    reveal_strlit("Expression_B_Grammar");
    assert("DropIndexStatementSegment"@.len() != "Expression_B_Grammar"@.len());
    reveal_strlit("Expression_C_Grammar");
    assert("DropIndexStatementSegment"@.len() != "Expression_C_Grammar"@.len());
    reveal_strlit("Expression_D_Grammar");
    assert("DropIndexStatementSegment"@.len() != "Expression_D_Grammar"@.len());
    reveal_strlit("NonSetSelectableGrammar");
    assert("DropIndexStatementSegment"@.len() != "NonSetSelectableGrammar"@.len());
    reveal_strlit("NonWithNonSelectableGrammar");
    assert("DropIndexStatementSegment"@.len() != "NonWithNonSelectableGrammar"@.len());
    reveal_strlit("NonWithSelectableGrammar");
    assert("DropIndexStatementSegment"@.len() != "NonWithSelectableGrammar"@.len());
    reveal_strlit("PostTableExpressionGrammar");
    assert("DropIndexStatementSegment"@.len() != "PostTableExpressionGrammar"@.len());
    reveal_strlit("SelectableGrammar");
    assert("DropIndexStatementSegment"@.len() != "SelectableGrammar"@.len());
    reveal_strlit("TimeWithTZGrammar");
    assert("DropIndexStatementSegment"@.len() != "TimeWithTZGrammar"@.len());
}

/// The ANSI library holds `DropIndexStatementSegment`: the value of its last entry of that name.
pub proof fn lemma_ansi_library_drop_index_statement_segment(lib: Map<Seq<char>, ElementView>)
    ensures
        ansi_library(lib).dom().contains("DropIndexStatementSegment"@),
        ansi_library(lib)["DropIndexStatementSegment"@] == drop_index_statement_segment_element(),
{
    reveal(ansi_library);
    let m0 = lib;
    let m1 = ansi_library_part_0(m0);
    let m2 = ansi_library_part_1(m1);
    let m3 = ansi_library_part_2(m2);
    let m4 = ansi_library_part_3(m3);
    let m5 = ansi_library_part_4(m4);
    let m6 = ansi_library_part_5(m5);
    let m7 = ansi_library_part_6(m6);
    let m8 = ansi_library_part_7(m7);
    let m9 = ansi_library_part_8(m8);
    let m10 = ansi_library_part_9(m9);
    let m11 = ansi_library_part_10(m10);
    let m12 = ansi_library_part_11(m11);
    lemma_part_7_sets_drop_index_statement_segment(m7);
    lemma_part_8_keeps_drop_index_statement_segment(m8);
    lemma_part_9_keeps_drop_index_statement_segment(m9);
    lemma_part_10_keeps_drop_index_statement_segment(m10);
    lemma_part_11_keeps_drop_index_statement_segment(m11);
}

proof fn lemma_part_7_sets_create_role_statement_segment(m: Map<Seq<char>, ElementView>)
    ensures
        ansi_library_part_7(m).dom().contains("CreateRoleStatementSegment"@),
        ansi_library_part_7(m)["CreateRoleStatementSegment"@] == create_role_statement_segment_element(),
{
    reveal_strlit("CreateRoleStatementSegment");
    reveal_strlit("AccessStatementSegment");
    assert("CreateRoleStatementSegment"@.len() != "AccessStatementSegment"@.len());
    reveal_strlit("AlterTableStatementSegment");
    assert("CreateRoleStatementSegment"@[0] != "AlterTableStatementSegment"@[0]);
    reveal_strlit("CreateDatabaseStatementSegment");
    assert("CreateRoleStatementSegment"@.len() != "CreateDatabaseStatementSegment"@.len());
    reveal_strlit("CreateIndexStatementSegment");
    assert("CreateRoleStatementSegment"@.len() != "CreateIndexStatementSegment"@.len());
    reveal_strlit("CreateTableStatementSegment");
    assert("CreateRoleStatementSegment"@.len() != "CreateTableStatementSegment"@.len());
    reveal_strlit("DropDatabaseStatementSegment");
    assert("CreateRoleStatementSegment"@.len() != "DropDatabaseStatementSegment"@.len());
    reveal_strlit("DropIndexStatementSegment");
    assert("CreateRoleStatementSegment"@.len() != "DropIndexStatementSegment"@.len());
    reveal_strlit("DropRoleStatementSegment");
    assert("CreateRoleStatementSegment"@.len() != "DropRoleStatementSegment"@.len());
    reveal_strlit("DropSchemaStatementSegment");
    assert("CreateRoleStatementSegment"@[0] != "DropSchemaStatementSegment"@[0]);
    reveal_strlit("DropTypeStatementSegment");
    assert("CreateRoleStatementSegment"@.len() != "DropTypeStatementSegment"@.len());
    reveal_strlit("FunctionParameterListGrammar");
    assert("CreateRoleStatementSegment"@.len() != "FunctionParameterListGrammar"@.len());
    reveal_strlit("InsertStatementSegment");
    assert("CreateRoleStatementSegment"@.len() != "InsertStatementSegment"@.len());
    reveal_strlit("SetSchemaStatementSegment");
    assert("CreateRoleStatementSegment"@.len() != "SetSchemaStatementSegment"@.len());
    reveal_strlit("TransactionStatementSegment");
    assert("CreateRoleStatementSegment"@.len() != "TransactionStatementSegment"@.len());
}

proof fn lemma_part_8_keeps_create_role_statement_segment(m: Map<Seq<char>, ElementView>)
    requires
        m.dom().contains("CreateRoleStatementSegment"@),
    ensures
        ansi_library_part_8(m).dom().contains("CreateRoleStatementSegment"@),
        ansi_library_part_8(m)["CreateRoleStatementSegment"@] == m["CreateRoleStatementSegment"@],
{
    reveal_strlit("CreateRoleStatementSegment");
    reveal_strlit("AggregateOrderByClause");
    assert("CreateRoleStatementSegment"@.len() != "AggregateOrderByClause"@.len());
    reveal_strlit("ArrayExpressionSegment");
    assert("CreateRoleStatementSegment"@.len() != "ArrayExpressionSegment"@.len());
    reveal_strlit("BitwiseAndSegment");
    assert("CreateRoleStatementSegment"@.len() != "BitwiseAndSegment"@.len());
    reveal_strlit("BitwiseLShiftSegment");
    assert("CreateRoleStatementSegment"@.len() != "BitwiseLShiftSegment"@.len());
    reveal_strlit("BitwiseOrSegment");
    assert("CreateRoleStatementSegment"@.len() != "BitwiseOrSegment"@.len());
    reveal_strlit("BitwiseRShiftSegment");
    assert("CreateRoleStatementSegment"@.len() != "BitwiseRShiftSegment"@.len());
    reveal_strlit("ConcatSegment");
    assert("CreateRoleStatementSegment"@.len() != "ConcatSegment"@.len());
    reveal_strlit("CreateUserStatementSegment");
    assert("CreateRoleStatementSegment"@[6] != "CreateUserStatementSegment"@[6]);
    reveal_strlit("DropTableStatementSegment");
    assert("CreateRoleStatementSegment"@.len() != "DropTableStatementSegment"@.len());
    reveal_strlit("DropUserStatementSegment");
    assert("CreateRoleStatementSegment"@.len() != "DropUserStatementSegment"@.len());
    reveal_strlit("DropViewStatementSegment");
    assert("CreateRoleStatementSegment"@.len() != "DropViewStatementSegment"@.len());
    reveal_strlit("ElseClauseSegment");
    assert("CreateRoleStatementSegment"@.len() != "ElseClauseSegment"@.len());
    reveal_strlit("EqualsSegment");
    assert("CreateRoleStatementSegment"@.len() != "EqualsSegment"@.len());
    reveal_strlit("FunctionNameSegment");
    assert("CreateRoleStatementSegment"@.len() != "FunctionNameSegment"@.len());
    reveal_strlit("GreaterThanOrEqualToSegment");
    assert("CreateRoleStatementSegment"@.len() != "GreaterThanOrEqualToSegment"@.len());
    reveal_strlit("GreaterThanSegment");
    assert("CreateRoleStatementSegment"@.len() != "GreaterThanSegment"@.len());
    reveal_strlit("IndexColumnDefinitionSegment");
    assert("CreateRoleStatementSegment"@.len() != "IndexColumnDefinitionSegment"@.len());
    reveal_strlit("LessThanOrEqualToSegment");
    assert("CreateRoleStatementSegment"@.len() != "LessThanOrEqualToSegment"@.len());
    reveal_strlit("LessThanSegment");
    assert("CreateRoleStatementSegment"@.len() != "LessThanSegment"@.len());
    reveal_strlit("LocalAliasSegment");
    assert("CreateRoleStatementSegment"@.len() != "LocalAliasSegment"@.len());
    reveal_strlit("MergeStatementSegment");
    assert("CreateRoleStatementSegment"@.len() != "MergeStatementSegment"@.len());
    reveal_strlit("NotEqualToSegment");
    assert("CreateRoleStatementSegment"@.len() != "NotEqualToSegment"@.len());
    reveal_strlit("QualifiedNumericLiteralSegment");
    assert("CreateRoleStatementSegment"@.len() != "QualifiedNumericLiteralSegment"@.len());
    reveal_strlit("WhenClauseSegment");
    assert("CreateRoleStatementSegment"@.len() != "WhenClauseSegment"@.len());
    reveal_strlit("WhereClauseSegment");
    assert("CreateRoleStatementSegment"@.len() != "WhereClauseSegment"@.len());
}

proof fn lemma_part_9_keeps_create_role_statement_segment(m: Map<Seq<char>, ElementView>)
    requires
        m.dom().contains("CreateRoleStatementSegment"@),
    ensures
        ansi_library_part_9(m).dom().contains("CreateRoleStatementSegment"@),
        ansi_library_part_9(m)["CreateRoleStatementSegment"@] == m["CreateRoleStatementSegment"@],
{
    reveal_strlit("CreateRoleStatementSegment");
    reveal_strlit("AliasExpressionSegment");
    assert("CreateRoleStatementSegment"@.len() != "AliasExpressionSegment"@.len());
    reveal_strlit("ArrayAccessorSegment");
    assert("CreateRoleStatementSegment"@.len() != "ArrayAccessorSegment"@.len());
    reveal_strlit("ArrayLiteralSegment");
    assert("CreateRoleStatementSegment"@.len() != "ArrayLiteralSegment"@.len());
    reveal_strlit("ArrayTypeSegment");
    assert("CreateRoleStatementSegment"@.len() != "ArrayTypeSegment"@.len());
    reveal_strlit("BracketedArguments");
    assert("CreateRoleStatementSegment"@.len() != "BracketedArguments"@.len());
    reveal_strlit("DatatypeSegment");
    assert("CreateRoleStatementSegment"@.len() != "DatatypeSegment"@.len());
    reveal_strlit("EmptyStructLiteralSegment");
    assert("CreateRoleStatementSegment"@.len() != "EmptyStructLiteralSegment"@.len());
    reveal_strlit("IntervalExpressionSegment");
    assert("CreateRoleStatementSegment"@.len() != "IntervalExpressionSegment"@.len());
    reveal_strlit("ObjectLiteralElementSegment");
    assert("CreateRoleStatementSegment"@.len() != "ObjectLiteralElementSegment"@.len());
    reveal_strlit("ObjectLiteralSegment");
    assert("CreateRoleStatementSegment"@.len() != "ObjectLiteralSegment"@.len());
    reveal_strlit("OverlapsClauseSegment");
    assert("CreateRoleStatementSegment"@.len() != "OverlapsClauseSegment"@.len());
    reveal_strlit("SelectClauseSegment");
    assert("CreateRoleStatementSegment"@.len() != "SelectClauseSegment"@.len());
    reveal_strlit("SetOperatorSegment");
    assert("CreateRoleStatementSegment"@.len() != "SetOperatorSegment"@.len());
    reveal_strlit("ShorthandCastSegment");
    assert("CreateRoleStatementSegment"@.len() != "ShorthandCastSegment"@.len());
    reveal_strlit("SizedArrayTypeSegment");
    assert("CreateRoleStatementSegment"@.len() != "SizedArrayTypeSegment"@.len());
    reveal_strlit("StatementSegment");
    assert("CreateRoleStatementSegment"@.len() != "StatementSegment"@.len());
    reveal_strlit("StructLiteralSegment");
    assert("CreateRoleStatementSegment"@.len() != "StructLiteralSegment"@.len());
    reveal_strlit("StructTypeSegment");
    assert("CreateRoleStatementSegment"@.len() != "StructTypeSegment"@.len());
    reveal_strlit("TimeZoneGrammar");
    assert("CreateRoleStatementSegment"@.len() != "TimeZoneGrammar"@.len());
    reveal_strlit("TypedArrayLiteralSegment");
    assert("CreateRoleStatementSegment"@.len() != "TypedArrayLiteralSegment"@.len());
    reveal_strlit("TypedStructLiteralSegment");
    assert("CreateRoleStatementSegment"@.len() != "TypedStructLiteralSegment"@.len());
    reveal_strlit("UnorderedSelectStatementSegment");
    assert("CreateRoleStatementSegment"@.len() != "UnorderedSelectStatementSegment"@.len());
    reveal_strlit("ValuesClauseSegment");
    assert("CreateRoleStatementSegment"@.len() != "ValuesClauseSegment"@.len());
    reveal_strlit("WithDataClauseSegment");
    assert("CreateRoleStatementSegment"@.len() != "WithDataClauseSegment"@.len());
    reveal_strlit("WithNoSchemaBindingClauseSegment");
    assert("CreateRoleStatementSegment"@.len() != "WithNoSchemaBindingClauseSegment"@.len());
}

proof fn lemma_part_10_keeps_create_role_statement_segment(m: Map<Seq<char>, ElementView>)
    requires
        m.dom().contains("CreateRoleStatementSegment"@),
    ensures
        ansi_library_part_10(m).dom().contains("CreateRoleStatementSegment"@),
        ansi_library_part_10(m)["CreateRoleStatementSegment"@] == m["CreateRoleStatementSegment"@],
{
    reveal_strlit("CreateRoleStatementSegment");
    reveal_strlit("AccessStatementSegmentGrantRoleWithOptionGrammar");
    assert("CreateRoleStatementSegment"@.len() != "AccessStatementSegmentGrantRoleWithOptionGrammar"@.len());
    reveal_strlit("AliasedTableReferenceGrammar");
    assert("CreateRoleStatementSegment"@.len() != "AliasedTableReferenceGrammar"@.len());
    reveal_strlit("CharCharacterSetGrammar");
    assert("CreateRoleStatementSegment"@.len() != "CharCharacterSetGrammar"@.len());
    reveal_strlit("CreateSchemaStatementSegment");
    assert("CreateRoleStatementSegment"@.len() != "CreateSchemaStatementSegment"@.len());
    reveal_strlit("DatePartFunctionNameSegment");
    assert("CreateRoleStatementSegment"@.len() != "DatePartFunctionNameSegment"@.len());
    reveal_strlit("EmptyStructLiteralBracketsSegment");
    assert("CreateRoleStatementSegment"@.len() != "EmptyStructLiteralBracketsSegment"@.len());
    reveal_strlit("Expression_A_Grammar");
    assert("CreateRoleStatementSegment"@.len() != "Expression_A_Grammar"@.len());
    reveal_strlit("Expression_A_Unary_Operator_Grammar");
    assert("CreateRoleStatementSegment"@.len() != "Expression_A_Unary_Operator_Grammar"@.len());
    reveal_strlit("Expression_B_Unary_Operator_Grammar");
    assert("CreateRoleStatementSegment"@.len() != "Expression_B_Unary_Operator_Grammar"@.len());
    reveal_strlit("FromClauseSegment");
    assert("CreateRoleStatementSegment"@.len() != "FromClauseSegment"@.len());
    reveal_strlit("FromExpressionSegment");
    assert("CreateRoleStatementSegment"@.len() != "FromExpressionSegment"@.len());
    reveal_strlit("FunctionContentsExpressionGrammar");
    assert("CreateRoleStatementSegment"@.len() != "FunctionContentsExpressionGrammar"@.len());
    reveal_strlit("FunctionContentsGrammar");
    assert("CreateRoleStatementSegment"@.len() != "FunctionContentsGrammar"@.len());
    reveal_strlit("FunctionContentsSegment");
    assert("CreateRoleStatementSegment"@.len() != "FunctionContentsSegment"@.len());
    reveal_strlit("JoinLikeClauseGrammar");
    assert("CreateRoleStatementSegment"@.len() != "JoinLikeClauseGrammar"@.len());
    reveal_strlit("OrderByClauseSegment");
    assert("CreateRoleStatementSegment"@.len() != "OrderByClauseSegment"@.len());
    reveal_strlit("PostFunctionGrammar");
    assert("CreateRoleStatementSegment"@.len() != "PostFunctionGrammar"@.len());
    reveal_strlit("SelectClauseElementSegment");
    assert("CreateRoleStatementSegment"@[0] != "SelectClauseElementSegment"@[0]);
    reveal_strlit("SelectClauseModifierSegment");
    assert("CreateRoleStatementSegment"@.len() != "SelectClauseModifierSegment"@.len());
    reveal_strlit("SelectStatementSegment");
    assert("CreateRoleStatementSegment"@.len() != "SelectStatementSegment"@.len());
    reveal_strlit("SetExpressionSegment");
    assert("CreateRoleStatementSegment"@.len() != "SetExpressionSegment"@.len());
    reveal_strlit("Tail_Recurse_Expression_A_Grammar");
    assert("CreateRoleStatementSegment"@.len() != "Tail_Recurse_Expression_A_Grammar"@.len());
    reveal_strlit("Tail_Recurse_Expression_B_Grammar");
    assert("CreateRoleStatementSegment"@.len() != "Tail_Recurse_Expression_B_Grammar"@.len());
    reveal_strlit("TruncateStatementSegment");
    assert("CreateRoleStatementSegment"@.len() != "TruncateStatementSegment"@.len());
    reveal_strlit("WildcardExpressionSegment");
    assert("CreateRoleStatementSegment"@.len() != "WildcardExpressionSegment"@.len());
}

proof fn lemma_part_11_keeps_create_role_statement_segment(m: Map<Seq<char>, ElementView>)
    requires
        m.dom().contains("CreateRoleStatementSegment"@),
    ensures
        ansi_library_part_11(m).dom().contains("CreateRoleStatementSegment"@),
        ansi_library_part_11(m)["CreateRoleStatementSegment"@] == m["CreateRoleStatementSegment"@],
{
    reveal_strlit("CreateRoleStatementSegment");
    reveal_strlit("AccessorGrammar");
    assert("CreateRoleStatementSegment"@.len() != "AccessorGrammar"@.len());
    reveal_strlit("Expression_B_Grammar");
    assert("CreateRoleStatementSegment"@.len() != "Expression_B_Grammar"@.len());
    reveal_strlit("Expression_C_Grammar");
    assert("CreateRoleStatementSegment"@.len() != "Expression_C_Grammar"@.len());
    reveal_strlit("Expression_D_Grammar");
    assert("CreateRoleStatementSegment"@.len() != "Expression_D_Grammar"@.len());
    reveal_strlit("NonSetSelectableGrammar");
    assert("CreateRoleStatementSegment"@.len() != "NonSetSelectableGrammar"@.len());
    reveal_strlit("NonWithNonSelectableGrammar");
    assert("CreateRoleStatementSegment"@.len() != "NonWithNonSelectableGrammar"@.len());
    reveal_strlit("NonWithSelectableGrammar");
    assert("CreateRoleStatementSegment"@.len() != "NonWithSelectableGrammar"@.len());
    reveal_strlit("PostTableExpressionGrammar");
    assert("CreateRoleStatementSegment"@[0] != "PostTableExpressionGrammar"@[0]);
    reveal_strlit("SelectableGrammar");
    assert("CreateRoleStatementSegment"@.len() != "SelectableGrammar"@.len());
    reveal_strlit("TimeWithTZGrammar");
    assert("CreateRoleStatementSegment"@.len() != "TimeWithTZGrammar"@.len());
}

/// The ANSI library holds `CreateRoleStatementSegment`: the value of its last entry of that name.
pub proof fn lemma_ansi_library_create_role_statement_segment(lib: Map<Seq<char>, ElementView>)
    ensures
        ansi_library(lib).dom().contains("CreateRoleStatementSegment"@),
        ansi_library(lib)["CreateRoleStatementSegment"@] == create_role_statement_segment_element(),
{
    reveal(ansi_library);
    let m0 = lib;
    let m1 = ansi_library_part_0(m0);
    let m2 = ansi_library_part_1(m1);
    let m3 = ansi_library_part_2(m2);
    let m4 = ansi_library_part_3(m3);
    let m5 = ansi_library_part_4(m4);
    let m6 = ansi_library_part_5(m5);
    let m7 = ansi_library_part_6(m6);
    let m8 = ansi_library_part_7(m7);
    let m9 = ansi_library_part_8(m8);
    let m10 = ansi_library_part_9(m9);
    let m11 = ansi_library_part_10(m10);
    let m12 = ansi_library_part_11(m11);
    lemma_part_7_sets_create_role_statement_segment(m7);
    lemma_part_8_keeps_create_role_statement_segment(m8);
    lemma_part_9_keeps_create_role_statement_segment(m9);
    lemma_part_10_keeps_create_role_statement_segment(m10);
    lemma_part_11_keeps_create_role_statement_segment(m11);
}

proof fn lemma_part_7_sets_drop_role_statement_segment(m: Map<Seq<char>, ElementView>)
    ensures
        ansi_library_part_7(m).dom().contains("DropRoleStatementSegment"@),
        ansi_library_part_7(m)["DropRoleStatementSegment"@] == drop_role_statement_segment_element(),
{
    reveal_strlit("DropRoleStatementSegment");
    reveal_strlit("AccessStatementSegment");
    assert("DropRoleStatementSegment"@.len() != "AccessStatementSegment"@.len());
    reveal_strlit("AlterTableStatementSegment");
    assert("DropRoleStatementSegment"@.len() != "AlterTableStatementSegment"@.len());
    reveal_strlit("CreateDatabaseStatementSegment");
    assert("DropRoleStatementSegment"@.len() != "CreateDatabaseStatementSegment"@.len());
    reveal_strlit("CreateIndexStatementSegment");
    assert("DropRoleStatementSegment"@.len() != "CreateIndexStatementSegment"@.len());
    reveal_strlit("CreateTableStatementSegment");
    assert("DropRoleStatementSegment"@.len() != "CreateTableStatementSegment"@.len());
    reveal_strlit("DropDatabaseStatementSegment");
    assert("DropRoleStatementSegment"@.len() != "DropDatabaseStatementSegment"@.len());
    reveal_strlit("DropIndexStatementSegment");
    assert("DropRoleStatementSegment"@.len() != "DropIndexStatementSegment"@.len());
    reveal_strlit("DropSchemaStatementSegment");
    assert("DropRoleStatementSegment"@.len() != "DropSchemaStatementSegment"@.len());
    reveal_strlit("DropTypeStatementSegment");
    assert("DropRoleStatementSegment"@[4] != "DropTypeStatementSegment"@[4]);
    reveal_strlit("FunctionParameterListGrammar");
    assert("DropRoleStatementSegment"@.len() != "FunctionParameterListGrammar"@.len());
    reveal_strlit("InsertStatementSegment");
    assert("DropRoleStatementSegment"@.len() != "InsertStatementSegment"@.len());
    reveal_strlit("SetSchemaStatementSegment");
    assert("DropRoleStatementSegment"@.len() != "SetSchemaStatementSegment"@.len());
    reveal_strlit("TransactionStatementSegment");
    assert("DropRoleStatementSegment"@.len() != "TransactionStatementSegment"@.len());
}

proof fn lemma_part_8_keeps_drop_role_statement_segment(m: Map<Seq<char>, ElementView>)
    requires
        m.dom().contains("DropRoleStatementSegment"@),
    ensures
        ansi_library_part_8(m).dom().contains("DropRoleStatementSegment"@),
        ansi_library_part_8(m)["DropRoleStatementSegment"@] == m["DropRoleStatementSegment"@],
{
    reveal_strlit("DropRoleStatementSegment");
    reveal_strlit("AggregateOrderByClause");
    assert("DropRoleStatementSegment"@.len() != "AggregateOrderByClause"@.len());
    reveal_strlit("ArrayExpressionSegment");
    assert("DropRoleStatementSegment"@.len() != "ArrayExpressionSegment"@.len());
    reveal_strlit("BitwiseAndSegment");
    assert("DropRoleStatementSegment"@.len() != "BitwiseAndSegment"@.len());
    reveal_strlit("BitwiseLShiftSegment");
    assert("DropRoleStatementSegment"@.len() != "BitwiseLShiftSegment"@.len());
    reveal_strlit("BitwiseOrSegment");
    assert("DropRoleStatementSegment"@.len() != "BitwiseOrSegment"@.len());
    reveal_strlit("BitwiseRShiftSegment");
    assert("DropRoleStatementSegment"@.len() != "BitwiseRShiftSegment"@.len());
    reveal_strlit("ConcatSegment");
    assert("DropRoleStatementSegment"@.len() != "ConcatSegment"@.len());
    reveal_strlit("CreateUserStatementSegment");
    assert("DropRoleStatementSegment"@.len() != "CreateUserStatementSegment"@.len());
    reveal_strlit("DropTableStatementSegment");
    assert("DropRoleStatementSegment"@.len() != "DropTableStatementSegment"@.len());
    reveal_strlit("DropUserStatementSegment");
    assert("DropRoleStatementSegment"@[4] != "DropUserStatementSegment"@[4]);
    reveal_strlit("DropViewStatementSegment");
    assert("DropRoleStatementSegment"@[4] != "DropViewStatementSegment"@[4]);
    reveal_strlit("ElseClauseSegment");
    assert("DropRoleStatementSegment"@.len() != "ElseClauseSegment"@.len());
    reveal_strlit("EqualsSegment");
    assert("DropRoleStatementSegment"@.len() != "EqualsSegment"@.len());
    reveal_strlit("FunctionNameSegment");
    assert("DropRoleStatementSegment"@.len() != "FunctionNameSegment"@.len());
    reveal_strlit("GreaterThanOrEqualToSegment");
    assert("DropRoleStatementSegment"@.len() != "GreaterThanOrEqualToSegment"@.len());
    reveal_strlit("GreaterThanSegment");
    assert("DropRoleStatementSegment"@.len() != "GreaterThanSegment"@.len());
    reveal_strlit("IndexColumnDefinitionSegment");
    assert("DropRoleStatementSegment"@.len() != "IndexColumnDefinitionSegment"@.len());
    reveal_strlit("LessThanOrEqualToSegment");
    assert("DropRoleStatementSegment"@[0] != "LessThanOrEqualToSegment"@[0]);
    reveal_strlit("LessThanSegment");
    assert("DropRoleStatementSegment"@.len() != "LessThanSegment"@.len());
    reveal_strlit("LocalAliasSegment");
    assert("DropRoleStatementSegment"@.len() != "LocalAliasSegment"@.len());
    reveal_strlit("MergeStatementSegment");
    assert("DropRoleStatementSegment"@.len() != "MergeStatementSegment"@.len());
    reveal_strlit("NotEqualToSegment");
    assert("DropRoleStatementSegment"@.len() != "NotEqualToSegment"@.len());
    reveal_strlit("QualifiedNumericLiteralSegment");
    assert("DropRoleStatementSegment"@.len() != "QualifiedNumericLiteralSegment"@.len());
    reveal_strlit("WhenClauseSegment");
    assert("DropRoleStatementSegment"@.len() != "WhenClauseSegment"@.len());
    reveal_strlit("WhereClauseSegment");
    assert("DropRoleStatementSegment"@.len() != "WhereClauseSegment"@.len());
}

proof fn lemma_part_9_keeps_drop_role_statement_segment(m: Map<Seq<char>, ElementView>)
    requires
        m.dom().contains("DropRoleStatementSegment"@),
    ensures
        ansi_library_part_9(m).dom().contains("DropRoleStatementSegment"@),
        ansi_library_part_9(m)["DropRoleStatementSegment"@] == m["DropRoleStatementSegment"@],
{
    reveal_strlit("DropRoleStatementSegment");
    reveal_strlit("AliasExpressionSegment");
    assert("DropRoleStatementSegment"@.len() != "AliasExpressionSegment"@.len());
    reveal_strlit("ArrayAccessorSegment");
    assert("DropRoleStatementSegment"@.len() != "ArrayAccessorSegment"@.len());
    reveal_strlit("ArrayLiteralSegment");
    assert("DropRoleStatementSegment"@.len() != "ArrayLiteralSegment"@.len());
    reveal_strlit("ArrayTypeSegment");
    assert("DropRoleStatementSegment"@.len() != "ArrayTypeSegment"@.len());
    reveal_strlit("BracketedArguments");
    assert("DropRoleStatementSegment"@.len() != "BracketedArguments"@.len());
    reveal_strlit("DatatypeSegment");
    assert("DropRoleStatementSegment"@.len() != "DatatypeSegment"@.len());
    reveal_strlit("EmptyStructLiteralSegment");
    assert("DropRoleStatementSegment"@.len() != "EmptyStructLiteralSegment"@.len());
    reveal_strlit("IntervalExpressionSegment");
    assert("DropRoleStatementSegment"@.len() != "IntervalExpressionSegment"@.len());
    reveal_strlit("ObjectLiteralElementSegment");
    assert("DropRoleStatementSegment"@.len() != "ObjectLiteralElementSegment"@.len());
    reveal_strlit("ObjectLiteralSegment");
    assert("DropRoleStatementSegment"@.len() != "ObjectLiteralSegment"@.len());
    reveal_strlit("OverlapsClauseSegment");
    assert("DropRoleStatementSegment"@.len() != "OverlapsClauseSegment"@.len());
    reveal_strlit("SelectClauseSegment");
    assert("DropRoleStatementSegment"@.len() != "SelectClauseSegment"@.len());
    reveal_strlit("SetOperatorSegment");
    assert("DropRoleStatementSegment"@.len() != "SetOperatorSegment"@.len());
    reveal_strlit("ShorthandCastSegment");
    assert("DropRoleStatementSegment"@.len() != "ShorthandCastSegment"@.len());
    reveal_strlit("SizedArrayTypeSegment");
    assert("DropRoleStatementSegment"@.len() != "SizedArrayTypeSegment"@.len());
    reveal_strlit("StatementSegment");
    assert("DropRoleStatementSegment"@.len() != "StatementSegment"@.len());
    reveal_strlit("StructLiteralSegment");
    assert("DropRoleStatementSegment"@.len() != "StructLiteralSegment"@.len());
    reveal_strlit("StructTypeSegment");
    assert("DropRoleStatementSegment"@.len() != "StructTypeSegment"@.len());
    reveal_strlit("TimeZoneGrammar");
    assert("DropRoleStatementSegment"@.len() != "TimeZoneGrammar"@.len());
    reveal_strlit("TypedArrayLiteralSegment");
    assert("DropRoleStatementSegment"@[0] != "TypedArrayLiteralSegment"@[0]);
    reveal_strlit("TypedStructLiteralSegment");
    assert("DropRoleStatementSegment"@.len() != "TypedStructLiteralSegment"@.len());
    reveal_strlit("UnorderedSelectStatementSegment");
    assert("DropRoleStatementSegment"@.len() != "UnorderedSelectStatementSegment"@.len());
    reveal_strlit("ValuesClauseSegment");
    assert("DropRoleStatementSegment"@.len() != "ValuesClauseSegment"@.len());
    reveal_strlit("WithDataClauseSegment");
    assert("DropRoleStatementSegment"@.len() != "WithDataClauseSegment"@.len());
    reveal_strlit("WithNoSchemaBindingClauseSegment");
    assert("DropRoleStatementSegment"@.len() != "WithNoSchemaBindingClauseSegment"@.len());
}

proof fn lemma_part_10_keeps_drop_role_statement_segment(m: Map<Seq<char>, ElementView>)
    requires
        m.dom().contains("DropRoleStatementSegment"@),
    ensures
        ansi_library_part_10(m).dom().contains("DropRoleStatementSegment"@),
        ansi_library_part_10(m)["DropRoleStatementSegment"@] == m["DropRoleStatementSegment"@],
{
    reveal_strlit("DropRoleStatementSegment");
    reveal_strlit("AccessStatementSegmentGrantRoleWithOptionGrammar");
    assert("DropRoleStatementSegment"@.len() != "AccessStatementSegmentGrantRoleWithOptionGrammar"@.len());
    reveal_strlit("AliasedTableReferenceGrammar");
    assert("DropRoleStatementSegment"@.len() != "AliasedTableReferenceGrammar"@.len());
    reveal_strlit("CharCharacterSetGrammar");
    assert("DropRoleStatementSegment"@.len() != "CharCharacterSetGrammar"@.len());
    reveal_strlit("CreateSchemaStatementSegment");
    assert("DropRoleStatementSegment"@.len() != "CreateSchemaStatementSegment"@.len());
    reveal_strlit("DatePartFunctionNameSegment");
    assert("DropRoleStatementSegment"@.len() != "DatePartFunctionNameSegment"@.len());
    reveal_strlit("EmptyStructLiteralBracketsSegment");
    assert("DropRoleStatementSegment"@.len() != "EmptyStructLiteralBracketsSegment"@.len());
    reveal_strlit("Expression_A_Grammar");
    assert("DropRoleStatementSegment"@.len() != "Expression_A_Grammar"@.len());
    reveal_strlit("Expression_A_Unary_Operator_Grammar");
    assert("DropRoleStatementSegment"@.len() != "Expression_A_Unary_Operator_Grammar"@.len());
    reveal_strlit("Expression_B_Unary_Operator_Grammar");
    assert("DropRoleStatementSegment"@.len() != "Expression_B_Unary_Operator_Grammar"@.len());
    reveal_strlit("FromClauseSegment");
    assert("DropRoleStatementSegment"@.len() != "FromClauseSegment"@.len());
    reveal_strlit("FromExpressionSegment");
    assert("DropRoleStatementSegment"@.len() != "FromExpressionSegment"@.len());
    reveal_strlit("FunctionContentsExpressionGrammar");
    assert("DropRoleStatementSegment"@.len() != "FunctionContentsExpressionGrammar"@.len());
    reveal_strlit("FunctionContentsGrammar");
    assert("DropRoleStatementSegment"@.len() != "FunctionContentsGrammar"@.len());
    reveal_strlit("FunctionContentsSegment");
    assert("DropRoleStatementSegment"@.len() != "FunctionContentsSegment"@.len());
    reveal_strlit("JoinLikeClauseGrammar");
    assert("DropRoleStatementSegment"@.len() != "JoinLikeClauseGrammar"@.len());
    reveal_strlit("OrderByClauseSegment");
    assert("DropRoleStatementSegment"@.len() != "OrderByClauseSegment"@.len());
    reveal_strlit("PostFunctionGrammar");
    assert("DropRoleStatementSegment"@.len() != "PostFunctionGrammar"@.len());
    reveal_strlit("SelectClauseElementSegment");
    assert("DropRoleStatementSegment"@.len() != "SelectClauseElementSegment"@.len());
    reveal_strlit("SelectClauseModifierSegment");
    assert("DropRoleStatementSegment"@.len() != "SelectClauseModifierSegment"@.len());
    reveal_strlit("SelectStatementSegment");
    assert("DropRoleStatementSegment"@.len() != "SelectStatementSegment"@.len());
    reveal_strlit("SetExpressionSegment");
    assert("DropRoleStatementSegment"@.len() != "SetExpressionSegment"@.len());
    reveal_strlit("Tail_Recurse_Expression_A_Grammar");
    assert("DropRoleStatementSegment"@.len() != "Tail_Recurse_Expression_A_Grammar"@.len());
    reveal_strlit("Tail_Recurse_Expression_B_Grammar");
    assert("DropRoleStatementSegment"@.len() != "Tail_Recurse_Expression_B_Grammar"@.len());
    reveal_strlit("TruncateStatementSegment");
    assert("DropRoleStatementSegment"@[0] != "TruncateStatementSegment"@[0]);
    reveal_strlit("WildcardExpressionSegment");
    assert("DropRoleStatementSegment"@.len() != "WildcardExpressionSegment"@.len());
}

proof fn lemma_part_11_keeps_drop_role_statement_segment(m: Map<Seq<char>, ElementView>)
    requires
        m.dom().contains("DropRoleStatementSegment"@),
    ensures
        ansi_library_part_11(m).dom().contains("DropRoleStatementSegment"@),
        ansi_library_part_11(m)["DropRoleStatementSegment"@] == m["DropRoleStatementSegment"@],
{
    reveal_strlit("DropRoleStatementSegment");
    reveal_strlit("AccessorGrammar");
    assert("DropRoleStatementSegment"@.len() != "AccessorGrammar"@.len());
    reveal_strlit("Expression_B_Grammar");
    assert("DropRoleStatementSegment"@.len() != "Expression_B_Grammar"@.len());
    reveal_strlit("Expression_C_Grammar");
    assert("DropRoleStatementSegment"@.len() != "Expression_C_Grammar"@.len());
    reveal_strlit("Expression_D_Grammar");
    assert("DropRoleStatementSegment"@.len() != "Expression_D_Grammar"@.len());
    reveal_strlit("NonSetSelectableGrammar");
    assert("DropRoleStatementSegment"@.len() != "NonSetSelectableGrammar"@.len());
    reveal_strlit("NonWithNonSelectableGrammar");
    assert("DropRoleStatementSegment"@.len() != "NonWithNonSelectableGrammar"@.len());
    reveal_strlit("NonWithSelectableGrammar");
    assert("DropRoleStatementSegment"@[0] != "NonWithSelectableGrammar"@[0]);
    reveal_strlit("PostTableExpressionGrammar");
    assert("DropRoleStatementSegment"@.len() != "PostTableExpressionGrammar"@.len());
    reveal_strlit("SelectableGrammar");
    assert("DropRoleStatementSegment"@.len() != "SelectableGrammar"@.len());
    reveal_strlit("TimeWithTZGrammar");
    assert("DropRoleStatementSegment"@.len() != "TimeWithTZGrammar"@.len());
}

/// The ANSI library holds `DropRoleStatementSegment`: the value of its last entry of that name.
pub proof fn lemma_ansi_library_drop_role_statement_segment(lib: Map<Seq<char>, ElementView>)
    ensures
        ansi_library(lib).dom().contains("DropRoleStatementSegment"@),
        ansi_library(lib)["DropRoleStatementSegment"@] == drop_role_statement_segment_element(),
{
    reveal(ansi_library);
    let m0 = lib;
    let m1 = ansi_library_part_0(m0);
    let m2 = ansi_library_part_1(m1);
    let m3 = ansi_library_part_2(m2);
    let m4 = ansi_library_part_3(m3);
    let m5 = ansi_library_part_4(m4);
    let m6 = ansi_library_part_5(m5);
    let m7 = ansi_library_part_6(m6);
    let m8 = ansi_library_part_7(m7);
    let m9 = ansi_library_part_8(m8);
    let m10 = ansi_library_part_9(m9);
    let m11 = ansi_library_part_10(m10);
    let m12 = ansi_library_part_11(m11);
    lemma_part_7_sets_drop_role_statement_segment(m7);
    lemma_part_8_keeps_drop_role_statement_segment(m8);
    lemma_part_9_keeps_drop_role_statement_segment(m9);
    lemma_part_10_keeps_drop_role_statement_segment(m10);
    lemma_part_11_keeps_drop_role_statement_segment(m11);
}

proof fn lemma_part_8_sets_create_user_statement_segment(m: Map<Seq<char>, ElementView>)
    ensures
        ansi_library_part_8(m).dom().contains("CreateUserStatementSegment"@),
        ansi_library_part_8(m)["CreateUserStatementSegment"@] == create_user_statement_segment_element(),
{
    reveal_strlit("CreateUserStatementSegment");
    reveal_strlit("AggregateOrderByClause");
    assert("CreateUserStatementSegment"@.len() != "AggregateOrderByClause"@.len());
    reveal_strlit("ArrayExpressionSegment");
    assert("CreateUserStatementSegment"@.len() != "ArrayExpressionSegment"@.len());
    reveal_strlit("BitwiseAndSegment");
    assert("CreateUserStatementSegment"@.len() != "BitwiseAndSegment"@.len());
    reveal_strlit("BitwiseLShiftSegment");
    assert("CreateUserStatementSegment"@.len() != "BitwiseLShiftSegment"@.len());
    reveal_strlit("BitwiseOrSegment");
    assert("CreateUserStatementSegment"@.len() != "BitwiseOrSegment"@.len());
    reveal_strlit("BitwiseRShiftSegment");
    assert("CreateUserStatementSegment"@.len() != "BitwiseRShiftSegment"@.len());
    reveal_strlit("ConcatSegment");
    assert("CreateUserStatementSegment"@.len() != "ConcatSegment"@.len());
    reveal_strlit("DropUserStatementSegment");
    assert("CreateUserStatementSegment"@.len() != "DropUserStatementSegment"@.len());
    reveal_strlit("ElseClauseSegment");
    assert("CreateUserStatementSegment"@.len() != "ElseClauseSegment"@.len());
    reveal_strlit("EqualsSegment");
    assert("CreateUserStatementSegment"@.len() != "EqualsSegment"@.len());
    reveal_strlit("FunctionNameSegment");
    assert("CreateUserStatementSegment"@.len() != "FunctionNameSegment"@.len());
    reveal_strlit("GreaterThanOrEqualToSegment");
    assert("CreateUserStatementSegment"@.len() != "GreaterThanOrEqualToSegment"@.len());
    reveal_strlit("GreaterThanSegment");
    assert("CreateUserStatementSegment"@.len() != "GreaterThanSegment"@.len());
    reveal_strlit("IndexColumnDefinitionSegment");
    assert("CreateUserStatementSegment"@.len() != "IndexColumnDefinitionSegment"@.len());
    reveal_strlit("LessThanOrEqualToSegment");
    assert("CreateUserStatementSegment"@.len() != "LessThanOrEqualToSegment"@.len());
    reveal_strlit("LessThanSegment");
    assert("CreateUserStatementSegment"@.len() != "LessThanSegment"@.len());
    reveal_strlit("LocalAliasSegment");
    assert("CreateUserStatementSegment"@.len() != "LocalAliasSegment"@.len());
    reveal_strlit("MergeStatementSegment");
    assert("CreateUserStatementSegment"@.len() != "MergeStatementSegment"@.len());
    reveal_strlit("NotEqualToSegment");
    assert("CreateUserStatementSegment"@.len() != "NotEqualToSegment"@.len());
    reveal_strlit("QualifiedNumericLiteralSegment");
    assert("CreateUserStatementSegment"@.len() != "QualifiedNumericLiteralSegment"@.len());
    reveal_strlit("WhenClauseSegment");
    assert("CreateUserStatementSegment"@.len() != "WhenClauseSegment"@.len());
    reveal_strlit("WhereClauseSegment");
    assert("CreateUserStatementSegment"@.len() != "WhereClauseSegment"@.len());
}

proof fn lemma_part_9_keeps_create_user_statement_segment(m: Map<Seq<char>, ElementView>)
    requires
        m.dom().contains("CreateUserStatementSegment"@),
    ensures
        ansi_library_part_9(m).dom().contains("CreateUserStatementSegment"@),
        ansi_library_part_9(m)["CreateUserStatementSegment"@] == m["CreateUserStatementSegment"@],
{
    reveal_strlit("CreateUserStatementSegment");
    reveal_strlit("AliasExpressionSegment");
    assert("CreateUserStatementSegment"@.len() != "AliasExpressionSegment"@.len());
    reveal_strlit("ArrayAccessorSegment");
    assert("CreateUserStatementSegment"@.len() != "ArrayAccessorSegment"@.len());
    reveal_strlit("ArrayLiteralSegment");
    assert("CreateUserStatementSegment"@.len() != "ArrayLiteralSegment"@.len());
    reveal_strlit("ArrayTypeSegment");
    assert("CreateUserStatementSegment"@.len() != "ArrayTypeSegment"@.len());
    reveal_strlit("BracketedArguments");
    assert("CreateUserStatementSegment"@.len() != "BracketedArguments"@.len());
    reveal_strlit("DatatypeSegment");
    assert("CreateUserStatementSegment"@.len() != "DatatypeSegment"@.len());
    reveal_strlit("EmptyStructLiteralSegment");
    assert("CreateUserStatementSegment"@.len() != "EmptyStructLiteralSegment"@.len());
    reveal_strlit("IntervalExpressionSegment");
    assert("CreateUserStatementSegment"@.len() != "IntervalExpressionSegment"@.len());
    reveal_strlit("ObjectLiteralElementSegment");
    assert("CreateUserStatementSegment"@.len() != "ObjectLiteralElementSegment"@.len());
    reveal_strlit("ObjectLiteralSegment");
    assert("CreateUserStatementSegment"@.len() != "ObjectLiteralSegment"@.len());
    reveal_strlit("OverlapsClauseSegment");
    assert("CreateUserStatementSegment"@.len() != "OverlapsClauseSegment"@.len());
    reveal_strlit("SelectClauseSegment");
    assert("CreateUserStatementSegment"@.len() != "SelectClauseSegment"@.len());
    reveal_strlit("SetOperatorSegment");
    assert("CreateUserStatementSegment"@.len() != "SetOperatorSegment"@.len());
    reveal_strlit("ShorthandCastSegment");
    assert("CreateUserStatementSegment"@.len() != "ShorthandCastSegment"@.len());
    reveal_strlit("SizedArrayTypeSegment");
    assert("CreateUserStatementSegment"@.len() != "SizedArrayTypeSegment"@.len());
    reveal_strlit("StatementSegment");
    assert("CreateUserStatementSegment"@.len() != "StatementSegment"@.len());
    reveal_strlit("StructLiteralSegment");
    assert("CreateUserStatementSegment"@.len() != "StructLiteralSegment"@.len());
    reveal_strlit("StructTypeSegment");
    assert("CreateUserStatementSegment"@.len() != "StructTypeSegment"@.len());
    reveal_strlit("TimeZoneGrammar");
    assert("CreateUserStatementSegment"@.len() != "TimeZoneGrammar"@.len());
    reveal_strlit("TypedArrayLiteralSegment");
    assert("CreateUserStatementSegment"@.len() != "TypedArrayLiteralSegment"@.len());
    reveal_strlit("TypedStructLiteralSegment");
    assert("CreateUserStatementSegment"@.len() != "TypedStructLiteralSegment"@.len());
    reveal_strlit("UnorderedSelectStatementSegment");
    assert("CreateUserStatementSegment"@.len() != "UnorderedSelectStatementSegment"@.len());
    reveal_strlit("ValuesClauseSegment");
    assert("CreateUserStatementSegment"@.len() != "ValuesClauseSegment"@.len());
    reveal_strlit("WithDataClauseSegment");
    assert("CreateUserStatementSegment"@.len() != "WithDataClauseSegment"@.len());
    reveal_strlit("WithNoSchemaBindingClauseSegment");
    assert("CreateUserStatementSegment"@.len() != "WithNoSchemaBindingClauseSegment"@.len());
}

proof fn lemma_part_10_keeps_create_user_statement_segment(m: Map<Seq<char>, ElementView>)
    requires
        m.dom().contains("CreateUserStatementSegment"@),
    ensures
        ansi_library_part_10(m).dom().contains("CreateUserStatementSegment"@),
        ansi_library_part_10(m)["CreateUserStatementSegment"@] == m["CreateUserStatementSegment"@],
{
    reveal_strlit("CreateUserStatementSegment");
    reveal_strlit("AccessStatementSegmentGrantRoleWithOptionGrammar");
    assert("CreateUserStatementSegment"@.len() != "AccessStatementSegmentGrantRoleWithOptionGrammar"@.len());
    reveal_strlit("AliasedTableReferenceGrammar");
    assert("CreateUserStatementSegment"@.len() != "AliasedTableReferenceGrammar"@.len());
    reveal_strlit("CharCharacterSetGrammar");
    assert("CreateUserStatementSegment"@.len() != "CharCharacterSetGrammar"@.len());
    reveal_strlit("CreateSchemaStatementSegment");
    assert("CreateUserStatementSegment"@.len() != "CreateSchemaStatementSegment"@.len());
    reveal_strlit("DatePartFunctionNameSegment");
    assert("CreateUserStatementSegment"@.len() != "DatePartFunctionNameSegment"@.len());
    reveal_strlit("EmptyStructLiteralBracketsSegment");
    assert("CreateUserStatementSegment"@.len() != "EmptyStructLiteralBracketsSegment"@.len());
    reveal_strlit("Expression_A_Grammar");
    assert("CreateUserStatementSegment"@.len() != "Expression_A_Grammar"@.len());
    reveal_strlit("Expression_A_Unary_Operator_Grammar");
    assert("CreateUserStatementSegment"@.len() != "Expression_A_Unary_Operator_Grammar"@.len());
    reveal_strlit("Expression_B_Unary_Operator_Grammar");
    assert("CreateUserStatementSegment"@.len() != "Expression_B_Unary_Operator_Grammar"@.len());
    reveal_strlit("FromClauseSegment");
    assert("CreateUserStatementSegment"@.len() != "FromClauseSegment"@.len());
    reveal_strlit("FromExpressionSegment");
    assert("CreateUserStatementSegment"@.len() != "FromExpressionSegment"@.len());
    reveal_strlit("FunctionContentsExpressionGrammar");
    assert("CreateUserStatementSegment"@.len() != "FunctionContentsExpressionGrammar"@.len());
    reveal_strlit("FunctionContentsGrammar");
    assert("CreateUserStatementSegment"@.len() != "FunctionContentsGrammar"@.len());
    reveal_strlit("FunctionContentsSegment");
    assert("CreateUserStatementSegment"@.len() != "FunctionContentsSegment"@.len());
    reveal_strlit("JoinLikeClauseGrammar");
    assert("CreateUserStatementSegment"@.len() != "JoinLikeClauseGrammar"@.len());
    reveal_strlit("OrderByClauseSegment");
    assert("CreateUserStatementSegment"@.len() != "OrderByClauseSegment"@.len());
    reveal_strlit("PostFunctionGrammar");
    assert("CreateUserStatementSegment"@.len() != "PostFunctionGrammar"@.len());
    reveal_strlit("SelectClauseElementSegment");
    assert("CreateUserStatementSegment"@[0] != "SelectClauseElementSegment"@[0]);
    reveal_strlit("SelectClauseModifierSegment");
    assert("CreateUserStatementSegment"@.len() != "SelectClauseModifierSegment"@.len());
    reveal_strlit("SelectStatementSegment");
    assert("CreateUserStatementSegment"@.len() != "SelectStatementSegment"@.len());
    reveal_strlit("SetExpressionSegment");
    assert("CreateUserStatementSegment"@.len() != "SetExpressionSegment"@.len());
    reveal_strlit("Tail_Recurse_Expression_A_Grammar");
    assert("CreateUserStatementSegment"@.len() != "Tail_Recurse_Expression_A_Grammar"@.len());
    reveal_strlit("Tail_Recurse_Expression_B_Grammar");
    assert("CreateUserStatementSegment"@.len() != "Tail_Recurse_Expression_B_Grammar"@.len());
    reveal_strlit("TruncateStatementSegment");
    assert("CreateUserStatementSegment"@.len() != "TruncateStatementSegment"@.len());
    reveal_strlit("WildcardExpressionSegment");
    assert("CreateUserStatementSegment"@.len() != "WildcardExpressionSegment"@.len());
}

proof fn lemma_part_11_keeps_create_user_statement_segment(m: Map<Seq<char>, ElementView>)
    requires
        m.dom().contains("CreateUserStatementSegment"@),
    ensures
        ansi_library_part_11(m).dom().contains("CreateUserStatementSegment"@),
        ansi_library_part_11(m)["CreateUserStatementSegment"@] == m["CreateUserStatementSegment"@],
{
    reveal_strlit("CreateUserStatementSegment");
    reveal_strlit("AccessorGrammar");
    assert("CreateUserStatementSegment"@.len() != "AccessorGrammar"@.len());
    reveal_strlit("Expression_B_Grammar");
    assert("CreateUserStatementSegment"@.len() != "Expression_B_Grammar"@.len());
    reveal_strlit("Expression_C_Grammar");
    assert("CreateUserStatementSegment"@.len() != "Expression_C_Grammar"@.len());
    reveal_strlit("Expression_D_Grammar");
    assert("CreateUserStatementSegment"@.len() != "Expression_D_Grammar"@.len());
    reveal_strlit("NonSetSelectableGrammar");
    assert("CreateUserStatementSegment"@.len() != "NonSetSelectableGrammar"@.len());
    reveal_strlit("NonWithNonSelectableGrammar");
    assert("CreateUserStatementSegment"@.len() != "NonWithNonSelectableGrammar"@.len());
    reveal_strlit("NonWithSelectableGrammar");
    assert("CreateUserStatementSegment"@.len() != "NonWithSelectableGrammar"@.len());
    reveal_strlit("PostTableExpressionGrammar");
    assert("CreateUserStatementSegment"@[0] != "PostTableExpressionGrammar"@[0]);
    reveal_strlit("SelectableGrammar");
    assert("CreateUserStatementSegment"@.len() != "SelectableGrammar"@.len());
    reveal_strlit("TimeWithTZGrammar");
    assert("CreateUserStatementSegment"@.len() != "TimeWithTZGrammar"@.len());
}

/// The ANSI library holds `CreateUserStatementSegment`: the value of its last entry of that name.
pub proof fn lemma_ansi_library_create_user_statement_segment(lib: Map<Seq<char>, ElementView>)
    ensures
        ansi_library(lib).dom().contains("CreateUserStatementSegment"@),
        ansi_library(lib)["CreateUserStatementSegment"@] == create_user_statement_segment_element(),
{
    reveal(ansi_library);
    let m0 = lib;
    let m1 = ansi_library_part_0(m0);
    let m2 = ansi_library_part_1(m1);
    let m3 = ansi_library_part_2(m2);
    let m4 = ansi_library_part_3(m3);
    let m5 = ansi_library_part_4(m4);
    let m6 = ansi_library_part_5(m5);
    let m7 = ansi_library_part_6(m6);
    let m8 = ansi_library_part_7(m7);
    let m9 = ansi_library_part_8(m8);
    let m10 = ansi_library_part_9(m9);
    let m11 = ansi_library_part_10(m10);
    let m12 = ansi_library_part_11(m11);
    lemma_part_8_sets_create_user_statement_segment(m8);
    lemma_part_9_keeps_create_user_statement_segment(m9);
    lemma_part_10_keeps_create_user_statement_segment(m10);
    lemma_part_11_keeps_create_user_statement_segment(m11);
}

proof fn lemma_part_8_sets_drop_user_statement_segment(m: Map<Seq<char>, ElementView>)
    ensures
        ansi_library_part_8(m).dom().contains("DropUserStatementSegment"@),
        ansi_library_part_8(m)["DropUserStatementSegment"@] == drop_user_statement_segment_element(),
{
    reveal_strlit("DropUserStatementSegment");
    reveal_strlit("AggregateOrderByClause");
    assert("DropUserStatementSegment"@.len() != "AggregateOrderByClause"@.len());
    reveal_strlit("ArrayExpressionSegment");
    assert("DropUserStatementSegment"@.len() != "ArrayExpressionSegment"@.len());
    reveal_strlit("BitwiseAndSegment");
    assert("DropUserStatementSegment"@.len() != "BitwiseAndSegment"@.len());
    reveal_strlit("BitwiseLShiftSegment");
    assert("DropUserStatementSegment"@.len() != "BitwiseLShiftSegment"@.len());
    reveal_strlit("BitwiseOrSegment");
    assert("DropUserStatementSegment"@.len() != "BitwiseOrSegment"@.len());
    reveal_strlit("BitwiseRShiftSegment");
    assert("DropUserStatementSegment"@.len() != "BitwiseRShiftSegment"@.len());
    reveal_strlit("ConcatSegment");
    assert("DropUserStatementSegment"@.len() != "ConcatSegment"@.len());
    reveal_strlit("ElseClauseSegment");
    assert("DropUserStatementSegment"@.len() != "ElseClauseSegment"@.len());
    reveal_strlit("EqualsSegment");
    assert("DropUserStatementSegment"@.len() != "EqualsSegment"@.len());
    reveal_strlit("FunctionNameSegment");
    assert("DropUserStatementSegment"@.len() != "FunctionNameSegment"@.len());
    reveal_strlit("GreaterThanOrEqualToSegment");
    assert("DropUserStatementSegment"@.len() != "GreaterThanOrEqualToSegment"@.len());
    reveal_strlit("GreaterThanSegment");
    assert("DropUserStatementSegment"@.len() != "GreaterThanSegment"@.len());
    reveal_strlit("IndexColumnDefinitionSegment");
    assert("DropUserStatementSegment"@.len() != "IndexColumnDefinitionSegment"@.len());
    reveal_strlit("LessThanOrEqualToSegment");
    assert("DropUserStatementSegment"@[0] != "LessThanOrEqualToSegment"@[0]);
    reveal_strlit("LessThanSegment");
    assert("DropUserStatementSegment"@.len() != "LessThanSegment"@.len());
    reveal_strlit("LocalAliasSegment");
    assert("DropUserStatementSegment"@.len() != "LocalAliasSegment"@.len());
    reveal_strlit("MergeStatementSegment");
    assert("DropUserStatementSegment"@.len() != "MergeStatementSegment"@.len());
    reveal_strlit("NotEqualToSegment");
    assert("DropUserStatementSegment"@.len() != "NotEqualToSegment"@.len());
    reveal_strlit("QualifiedNumericLiteralSegment");
    assert("DropUserStatementSegment"@.len() != "QualifiedNumericLiteralSegment"@.len());
    reveal_strlit("WhenClauseSegment");
    assert("DropUserStatementSegment"@.len() != "WhenClauseSegment"@.len());
    reveal_strlit("WhereClauseSegment");
    assert("DropUserStatementSegment"@.len() != "WhereClauseSegment"@.len());
}

proof fn lemma_part_9_keeps_drop_user_statement_segment(m: Map<Seq<char>, ElementView>)
    requires
        m.dom().contains("DropUserStatementSegment"@),
    ensures
        ansi_library_part_9(m).dom().contains("DropUserStatementSegment"@),
        ansi_library_part_9(m)["DropUserStatementSegment"@] == m["DropUserStatementSegment"@],
{
    reveal_strlit("DropUserStatementSegment");
    reveal_strlit("AliasExpressionSegment");
    assert("DropUserStatementSegment"@.len() != "AliasExpressionSegment"@.len());
    reveal_strlit("ArrayAccessorSegment");
    assert("DropUserStatementSegment"@.len() != "ArrayAccessorSegment"@.len());
    reveal_strlit("ArrayLiteralSegment");
    assert("DropUserStatementSegment"@.len() != "ArrayLiteralSegment"@.len());
    reveal_strlit("ArrayTypeSegment");
    assert("DropUserStatementSegment"@.len() != "ArrayTypeSegment"@.len());
    reveal_strlit("BracketedArguments");
    assert("DropUserStatementSegment"@.len() != "BracketedArguments"@.len());
    reveal_strlit("DatatypeSegment");
    assert("DropUserStatementSegment"@.len() != "DatatypeSegment"@.len());
    reveal_strlit("EmptyStructLiteralSegment");
    assert("DropUserStatementSegment"@.len() != "EmptyStructLiteralSegment"@.len());
    reveal_strlit("IntervalExpressionSegment");
    assert("DropUserStatementSegment"@.len() != "IntervalExpressionSegment"@.len());
    reveal_strlit("ObjectLiteralElementSegment");
    assert("DropUserStatementSegment"@.len() != "ObjectLiteralElementSegment"@.len());
    reveal_strlit("ObjectLiteralSegment");
    assert("DropUserStatementSegment"@.len() != "ObjectLiteralSegment"@.len());
    reveal_strlit("OverlapsClauseSegment");
    assert("DropUserStatementSegment"@.len() != "OverlapsClauseSegment"@.len());
    reveal_strlit("SelectClauseSegment");
    assert("DropUserStatementSegment"@.len() != "SelectClauseSegment"@.len());
    reveal_strlit("SetOperatorSegment");
    assert("DropUserStatementSegment"@.len() != "SetOperatorSegment"@.len());
    reveal_strlit("ShorthandCastSegment");
    assert("DropUserStatementSegment"@.len() != "ShorthandCastSegment"@.len());
    reveal_strlit("SizedArrayTypeSegment");
    assert("DropUserStatementSegment"@.len() != "SizedArrayTypeSegment"@.len());
    reveal_strlit("StatementSegment");
    assert("DropUserStatementSegment"@.len() != "StatementSegment"@.len());
    reveal_strlit("StructLiteralSegment");
    assert("DropUserStatementSegment"@.len() != "StructLiteralSegment"@.len());
    reveal_strlit("StructTypeSegment");
    assert("DropUserStatementSegment"@.len() != "StructTypeSegment"@.len());
    reveal_strlit("TimeZoneGrammar");
    assert("DropUserStatementSegment"@.len() != "TimeZoneGrammar"@.len());
    reveal_strlit("TypedArrayLiteralSegment");
    assert("DropUserStatementSegment"@[0] != "TypedArrayLiteralSegment"@[0]);
    reveal_strlit("TypedStructLiteralSegment");
    assert("DropUserStatementSegment"@.len() != "TypedStructLiteralSegment"@.len());
    reveal_strlit("UnorderedSelectStatementSegment");
    assert("DropUserStatementSegment"@.len() != "UnorderedSelectStatementSegment"@.len());
    reveal_strlit("ValuesClauseSegment");
    assert("DropUserStatementSegment"@.len() != "ValuesClauseSegment"@.len());
    reveal_strlit("WithDataClauseSegment");
    assert("DropUserStatementSegment"@.len() != "WithDataClauseSegment"@.len());
    reveal_strlit("WithNoSchemaBindingClauseSegment");
    assert("DropUserStatementSegment"@.len() != "WithNoSchemaBindingClauseSegment"@.len());
}

proof fn lemma_part_10_keeps_drop_user_statement_segment(m: Map<Seq<char>, ElementView>)
    requires
        m.dom().contains("DropUserStatementSegment"@),
    ensures
        ansi_library_part_10(m).dom().contains("DropUserStatementSegment"@),
        ansi_library_part_10(m)["DropUserStatementSegment"@] == m["DropUserStatementSegment"@],
{
    reveal_strlit("DropUserStatementSegment");
    reveal_strlit("AccessStatementSegmentGrantRoleWithOptionGrammar");
    assert("DropUserStatementSegment"@.len() != "AccessStatementSegmentGrantRoleWithOptionGrammar"@.len());
    reveal_strlit("AliasedTableReferenceGrammar");
    assert("DropUserStatementSegment"@.len() != "AliasedTableReferenceGrammar"@.len());
    reveal_strlit("CharCharacterSetGrammar");
    assert("DropUserStatementSegment"@.len() != "CharCharacterSetGrammar"@.len());
    reveal_strlit("CreateSchemaStatementSegment");
    assert("DropUserStatementSegment"@.len() != "CreateSchemaStatementSegment"@.len());
    reveal_strlit("DatePartFunctionNameSegment");
    assert("DropUserStatementSegment"@.len() != "DatePartFunctionNameSegment"@.len());
    reveal_strlit("EmptyStructLiteralBracketsSegment");
    assert("DropUserStatementSegment"@.len() != "EmptyStructLiteralBracketsSegment"@.len());
    reveal_strlit("Expression_A_Grammar");
    assert("DropUserStatementSegment"@.len() != "Expression_A_Grammar"@.len());
    reveal_strlit("Expression_A_Unary_Operator_Grammar");
    assert("DropUserStatementSegment"@.len() != "Expression_A_Unary_Operator_Grammar"@.len());
    reveal_strlit("Expression_B_Unary_Operator_Grammar");
    assert("DropUserStatementSegment"@.len() != "Expression_B_Unary_Operator_Grammar"@.len());
    reveal_strlit("FromClauseSegment");
    assert("DropUserStatementSegment"@.len() != "FromClauseSegment"@.len());
    reveal_strlit("FromExpressionSegment");
    assert("DropUserStatementSegment"@.len() != "FromExpressionSegment"@.len());
    reveal_strlit("FunctionContentsExpressionGrammar");
    assert("DropUserStatementSegment"@.len() != "FunctionContentsExpressionGrammar"@.len());
    reveal_strlit("FunctionContentsGrammar");
    assert("DropUserStatementSegment"@.len() != "FunctionContentsGrammar"@.len());
    reveal_strlit("FunctionContentsSegment");
    assert("DropUserStatementSegment"@.len() != "FunctionContentsSegment"@.len());
    reveal_strlit("JoinLikeClauseGrammar");
    assert("DropUserStatementSegment"@.len() != "JoinLikeClauseGrammar"@.len());
    reveal_strlit("OrderByClauseSegment");
    assert("DropUserStatementSegment"@.len() != "OrderByClauseSegment"@.len());
    reveal_strlit("PostFunctionGrammar");
    assert("DropUserStatementSegment"@.len() != "PostFunctionGrammar"@.len());
    reveal_strlit("SelectClauseElementSegment");
    assert("DropUserStatementSegment"@.len() != "SelectClauseElementSegment"@.len());
    reveal_strlit("SelectClauseModifierSegment");
    assert("DropUserStatementSegment"@.len() != "SelectClauseModifierSegment"@.len());
    reveal_strlit("SelectStatementSegment");
    assert("DropUserStatementSegment"@.len() != "SelectStatementSegment"@.len());
    reveal_strlit("SetExpressionSegment");
    assert("DropUserStatementSegment"@.len() != "SetExpressionSegment"@.len());
    reveal_strlit("Tail_Recurse_Expression_A_Grammar");
    assert("DropUserStatementSegment"@.len() != "Tail_Recurse_Expression_A_Grammar"@.len());
    reveal_strlit("Tail_Recurse_Expression_B_Grammar");
    assert("DropUserStatementSegment"@.len() != "Tail_Recurse_Expression_B_Grammar"@.len());
    reveal_strlit("TruncateStatementSegment");
    assert("DropUserStatementSegment"@[0] != "TruncateStatementSegment"@[0]);
    reveal_strlit("WildcardExpressionSegment");
    assert("DropUserStatementSegment"@.len() != "WildcardExpressionSegment"@.len());
}

proof fn lemma_part_11_keeps_drop_user_statement_segment(m: Map<Seq<char>, ElementView>)
    requires
        m.dom().contains("DropUserStatementSegment"@),
    ensures
        ansi_library_part_11(m).dom().contains("DropUserStatementSegment"@),
        ansi_library_part_11(m)["DropUserStatementSegment"@] == m["DropUserStatementSegment"@],
{
    reveal_strlit("DropUserStatementSegment");
    reveal_strlit("AccessorGrammar");
    assert("DropUserStatementSegment"@.len() != "AccessorGrammar"@.len());
    reveal_strlit("Expression_B_Grammar");
    assert("DropUserStatementSegment"@.len() != "Expression_B_Grammar"@.len());
    reveal_strlit("Expression_C_Grammar");
    assert("DropUserStatementSegment"@.len() != "Expression_C_Grammar"@.len());
    reveal_strlit("Expression_D_Grammar");
    assert("DropUserStatementSegment"@.len() != "Expression_D_Grammar"@.len());
    reveal_strlit("NonSetSelectableGrammar");
    assert("DropUserStatementSegment"@.len() != "NonSetSelectableGrammar"@.len());
    reveal_strlit("NonWithNonSelectableGrammar");
    assert("DropUserStatementSegment"@.len() != "NonWithNonSelectableGrammar"@.len());
    reveal_strlit("NonWithSelectableGrammar");
    assert("DropUserStatementSegment"@[0] != "NonWithSelectableGrammar"@[0]);
    reveal_strlit("PostTableExpressionGrammar");
    assert("DropUserStatementSegment"@.len() != "PostTableExpressionGrammar"@.len());
    reveal_strlit("SelectableGrammar");
    assert("DropUserStatementSegment"@.len() != "SelectableGrammar"@.len());
    reveal_strlit("TimeWithTZGrammar");
    assert("DropUserStatementSegment"@.len() != "TimeWithTZGrammar"@.len());
}

/// The ANSI library holds `DropUserStatementSegment`: the value of its last entry of that name.
pub proof fn lemma_ansi_library_drop_user_statement_segment(lib: Map<Seq<char>, ElementView>)
    ensures
        ansi_library(lib).dom().contains("DropUserStatementSegment"@),
        ansi_library(lib)["DropUserStatementSegment"@] == drop_user_statement_segment_element(),
{
    reveal(ansi_library);
    let m0 = lib;
    let m1 = ansi_library_part_0(m0);
    let m2 = ansi_library_part_1(m1);
    let m3 = ansi_library_part_2(m2);
    let m4 = ansi_library_part_3(m3);
    let m5 = ansi_library_part_4(m4);
    let m6 = ansi_library_part_5(m5);
    let m7 = ansi_library_part_6(m6);
    let m8 = ansi_library_part_7(m7);
    let m9 = ansi_library_part_8(m8);
    let m10 = ansi_library_part_9(m9);
    let m11 = ansi_library_part_10(m10);
    let m12 = ansi_library_part_11(m11);
    lemma_part_8_sets_drop_user_statement_segment(m8);
    lemma_part_9_keeps_drop_user_statement_segment(m9);
    lemma_part_10_keeps_drop_user_statement_segment(m10);
    lemma_part_11_keeps_drop_user_statement_segment(m11);
}

proof fn lemma_part_7_sets_create_database_statement_segment(m: Map<Seq<char>, ElementView>)
    ensures
        ansi_library_part_7(m).dom().contains("CreateDatabaseStatementSegment"@),
        ansi_library_part_7(m)["CreateDatabaseStatementSegment"@] == create_database_statement_segment_element(),
{
    reveal_strlit("CreateDatabaseStatementSegment");
    reveal_strlit("AccessStatementSegment");
    assert("CreateDatabaseStatementSegment"@.len() != "AccessStatementSegment"@.len());
    reveal_strlit("CreateIndexStatementSegment");
    assert("CreateDatabaseStatementSegment"@.len() != "CreateIndexStatementSegment"@.len());
    reveal_strlit("CreateTableStatementSegment");
    assert("CreateDatabaseStatementSegment"@.len() != "CreateTableStatementSegment"@.len());
    reveal_strlit("DropDatabaseStatementSegment");
    assert("CreateDatabaseStatementSegment"@.len() != "DropDatabaseStatementSegment"@.len());
    reveal_strlit("DropIndexStatementSegment");
    assert("CreateDatabaseStatementSegment"@.len() != "DropIndexStatementSegment"@.len());
    reveal_strlit("FunctionParameterListGrammar");
    assert("CreateDatabaseStatementSegment"@.len() != "FunctionParameterListGrammar"@.len());
    reveal_strlit("InsertStatementSegment");
    assert("CreateDatabaseStatementSegment"@.len() != "InsertStatementSegment"@.len());
    reveal_strlit("TransactionStatementSegment");
    assert("CreateDatabaseStatementSegment"@.len() != "TransactionStatementSegment"@.len());
}

proof fn lemma_part_8_keeps_create_database_statement_segment(m: Map<Seq<char>, ElementView>)
    requires
        m.dom().contains("CreateDatabaseStatementSegment"@),
    ensures
        ansi_library_part_8(m).dom().contains("CreateDatabaseStatementSegment"@),
        ansi_library_part_8(m)["CreateDatabaseStatementSegment"@] == m["CreateDatabaseStatementSegment"@],
{
    reveal_strlit("CreateDatabaseStatementSegment");
    reveal_strlit("AggregateOrderByClause");
    assert("CreateDatabaseStatementSegment"@.len() != "AggregateOrderByClause"@.len());
    reveal_strlit("ArrayExpressionSegment");
    assert("CreateDatabaseStatementSegment"@.len() != "ArrayExpressionSegment"@.len());
    reveal_strlit("BitwiseAndSegment");
    assert("CreateDatabaseStatementSegment"@.len() != "BitwiseAndSegment"@.len());
    reveal_strlit("BitwiseLShiftSegment");
    assert("CreateDatabaseStatementSegment"@.len() != "BitwiseLShiftSegment"@.len());
    reveal_strlit("BitwiseOrSegment");
    assert("CreateDatabaseStatementSegment"@.len() != "BitwiseOrSegment"@.len());
    reveal_strlit("BitwiseRShiftSegment");
    assert("CreateDatabaseStatementSegment"@.len() != "BitwiseRShiftSegment"@.len());
    reveal_strlit("ConcatSegment");
    assert("CreateDatabaseStatementSegment"@.len() != "ConcatSegment"@.len());
    reveal_strlit("CreateUserStatementSegment");
    assert("CreateDatabaseStatementSegment"@.len() != "CreateUserStatementSegment"@.len());
    reveal_strlit("DropTableStatementSegment");
    assert("CreateDatabaseStatementSegment"@.len() != "DropTableStatementSegment"@.len());
    reveal_strlit("DropUserStatementSegment");
    assert("CreateDatabaseStatementSegment"@.len() != "DropUserStatementSegment"@.len());
    reveal_strlit("DropViewStatementSegment");
    assert("CreateDatabaseStatementSegment"@.len() != "DropViewStatementSegment"@.len());
    reveal_strlit("ElseClauseSegment");
    assert("CreateDatabaseStatementSegment"@.len() != "ElseClauseSegment"@.len());
    reveal_strlit("EqualsSegment");
    assert("CreateDatabaseStatementSegment"@.len() != "EqualsSegment"@.len());
    reveal_strlit("FunctionNameSegment");
    assert("CreateDatabaseStatementSegment"@.len() != "FunctionNameSegment"@.len());
    reveal_strlit("GreaterThanOrEqualToSegment");
    assert("CreateDatabaseStatementSegment"@.len() != "GreaterThanOrEqualToSegment"@.len());
    reveal_strlit("GreaterThanSegment");
    assert("CreateDatabaseStatementSegment"@.len() != "GreaterThanSegment"@.len());
    reveal_strlit("IndexColumnDefinitionSegment");
    assert("CreateDatabaseStatementSegment"@.len() != "IndexColumnDefinitionSegment"@.len());
    reveal_strlit("LessThanOrEqualToSegment");
    assert("CreateDatabaseStatementSegment"@.len() != "LessThanOrEqualToSegment"@.len());
    reveal_strlit("LessThanSegment");
    assert("CreateDatabaseStatementSegment"@.len() != "LessThanSegment"@.len());
    reveal_strlit("LocalAliasSegment");
    assert("CreateDatabaseStatementSegment"@.len() != "LocalAliasSegment"@.len());
    reveal_strlit("MergeStatementSegment");
    assert("CreateDatabaseStatementSegment"@.len() != "MergeStatementSegment"@.len());
    reveal_strlit("NotEqualToSegment");
    assert("CreateDatabaseStatementSegment"@.len() != "NotEqualToSegment"@.len());
    reveal_strlit("QualifiedNumericLiteralSegment");
    assert("CreateDatabaseStatementSegment"@[0] != "QualifiedNumericLiteralSegment"@[0]);
    reveal_strlit("WhenClauseSegment");
    assert("CreateDatabaseStatementSegment"@.len() != "WhenClauseSegment"@.len());
    reveal_strlit("WhereClauseSegment");
    assert("CreateDatabaseStatementSegment"@.len() != "WhereClauseSegment"@.len());
}

proof fn lemma_part_9_keeps_create_database_statement_segment(m: Map<Seq<char>, ElementView>)
    requires
        m.dom().contains("CreateDatabaseStatementSegment"@),
    ensures
        ansi_library_part_9(m).dom().contains("CreateDatabaseStatementSegment"@),
        ansi_library_part_9(m)["CreateDatabaseStatementSegment"@] == m["CreateDatabaseStatementSegment"@],
{
    reveal_strlit("CreateDatabaseStatementSegment");
    reveal_strlit("AliasExpressionSegment");
    assert("CreateDatabaseStatementSegment"@.len() != "AliasExpressionSegment"@.len());
    reveal_strlit("ArrayAccessorSegment");
    assert("CreateDatabaseStatementSegment"@.len() != "ArrayAccessorSegment"@.len());
    reveal_strlit("ArrayLiteralSegment");
    assert("CreateDatabaseStatementSegment"@.len() != "ArrayLiteralSegment"@.len());
    reveal_strlit("ArrayTypeSegment");
    assert("CreateDatabaseStatementSegment"@.len() != "ArrayTypeSegment"@.len());
    reveal_strlit("BracketedArguments");
    assert("CreateDatabaseStatementSegment"@.len() != "BracketedArguments"@.len());
    reveal_strlit("DatatypeSegment");
    assert("CreateDatabaseStatementSegment"@.len() != "DatatypeSegment"@.len());
    reveal_strlit("EmptyStructLiteralSegment");
    assert("CreateDatabaseStatementSegment"@.len() != "EmptyStructLiteralSegment"@.len());
    reveal_strlit("IntervalExpressionSegment");
    assert("CreateDatabaseStatementSegment"@.len() != "IntervalExpressionSegment"@.len());
    reveal_strlit("ObjectLiteralElementSegment");
    assert("CreateDatabaseStatementSegment"@.len() != "ObjectLiteralElementSegment"@.len());
    reveal_strlit("ObjectLiteralSegment");
    assert("CreateDatabaseStatementSegment"@.len() != "ObjectLiteralSegment"@.len());
    reveal_strlit("OverlapsClauseSegment");
    assert("CreateDatabaseStatementSegment"@.len() != "OverlapsClauseSegment"@.len());
    reveal_strlit("SelectClauseSegment");
    assert("CreateDatabaseStatementSegment"@.len() != "SelectClauseSegment"@.len());
    reveal_strlit("SetOperatorSegment");
    assert("CreateDatabaseStatementSegment"@.len() != "SetOperatorSegment"@.len());
    reveal_strlit("ShorthandCastSegment");
    assert("CreateDatabaseStatementSegment"@.len() != "ShorthandCastSegment"@.len());
    reveal_strlit("SizedArrayTypeSegment");
    assert("CreateDatabaseStatementSegment"@.len() != "SizedArrayTypeSegment"@.len());
    reveal_strlit("StatementSegment");
    assert("CreateDatabaseStatementSegment"@.len() != "StatementSegment"@.len());
    reveal_strlit("StructLiteralSegment");
    assert("CreateDatabaseStatementSegment"@.len() != "StructLiteralSegment"@.len());
    reveal_strlit("StructTypeSegment");
    assert("CreateDatabaseStatementSegment"@.len() != "StructTypeSegment"@.len());
    reveal_strlit("TimeZoneGrammar");
    assert("CreateDatabaseStatementSegment"@.len() != "TimeZoneGrammar"@.len());
    reveal_strlit("TypedArrayLiteralSegment");
    assert("CreateDatabaseStatementSegment"@.len() != "TypedArrayLiteralSegment"@.len());
    reveal_strlit("TypedStructLiteralSegment");
    assert("CreateDatabaseStatementSegment"@.len() != "TypedStructLiteralSegment"@.len());
    reveal_strlit("UnorderedSelectStatementSegment");
    assert("CreateDatabaseStatementSegment"@.len() != "UnorderedSelectStatementSegment"@.len());
    reveal_strlit("ValuesClauseSegment");
    assert("CreateDatabaseStatementSegment"@.len() != "ValuesClauseSegment"@.len());
    reveal_strlit("WithDataClauseSegment");
    assert("CreateDatabaseStatementSegment"@.len() != "WithDataClauseSegment"@.len());
    reveal_strlit("WithNoSchemaBindingClauseSegment");
    assert("CreateDatabaseStatementSegment"@.len() != "WithNoSchemaBindingClauseSegment"@.len());
}

proof fn lemma_part_10_keeps_create_database_statement_segment(m: Map<Seq<char>, ElementView>)
    requires
        m.dom().contains("CreateDatabaseStatementSegment"@),
    ensures
        ansi_library_part_10(m).dom().contains("CreateDatabaseStatementSegment"@),
        ansi_library_part_10(m)["CreateDatabaseStatementSegment"@] == m["CreateDatabaseStatementSegment"@],
{
    reveal_strlit("CreateDatabaseStatementSegment");
    reveal_strlit("AccessStatementSegmentGrantRoleWithOptionGrammar");
    assert("CreateDatabaseStatementSegment"@.len() != "AccessStatementSegmentGrantRoleWithOptionGrammar"@.len());
    reveal_strlit("AliasedTableReferenceGrammar");
    assert("CreateDatabaseStatementSegment"@.len() != "AliasedTableReferenceGrammar"@.len());
    reveal_strlit("CharCharacterSetGrammar");
    assert("CreateDatabaseStatementSegment"@.len() != "CharCharacterSetGrammar"@.len());
    reveal_strlit("CreateSchemaStatementSegment");
    assert("CreateDatabaseStatementSegment"@.len() != "CreateSchemaStatementSegment"@.len());
    reveal_strlit("DatePartFunctionNameSegment");
    assert("CreateDatabaseStatementSegment"@.len() != "DatePartFunctionNameSegment"@.len());
    reveal_strlit("EmptyStructLiteralBracketsSegment");
    assert("CreateDatabaseStatementSegment"@.len() != "EmptyStructLiteralBracketsSegment"@.len());
    reveal_strlit("Expression_A_Grammar");
    assert("CreateDatabaseStatementSegment"@.len() != "Expression_A_Grammar"@.len());
    reveal_strlit("Expression_A_Unary_Operator_Grammar");
    assert("CreateDatabaseStatementSegment"@.len() != "Expression_A_Unary_Operator_Grammar"@.len());
    reveal_strlit("Expression_B_Unary_Operator_Grammar");
    assert("CreateDatabaseStatementSegment"@.len() != "Expression_B_Unary_Operator_Grammar"@.len());
    reveal_strlit("FromClauseSegment");
    assert("CreateDatabaseStatementSegment"@.len() != "FromClauseSegment"@.len());
    reveal_strlit("FromExpressionSegment");
    assert("CreateDatabaseStatementSegment"@.len() != "FromExpressionSegment"@.len());
    reveal_strlit("FunctionContentsExpressionGrammar");
    assert("CreateDatabaseStatementSegment"@.len() != "FunctionContentsExpressionGrammar"@.len());
    reveal_strlit("FunctionContentsGrammar");
    assert("CreateDatabaseStatementSegment"@.len() != "FunctionContentsGrammar"@.len());
    reveal_strlit("FunctionContentsSegment");
    assert("CreateDatabaseStatementSegment"@.len() != "FunctionContentsSegment"@.len());
    reveal_strlit("JoinLikeClauseGrammar");
    assert("CreateDatabaseStatementSegment"@.len() != "JoinLikeClauseGrammar"@.len());
    reveal_strlit("OrderByClauseSegment");
    assert("CreateDatabaseStatementSegment"@.len() != "OrderByClauseSegment"@.len());
    reveal_strlit("PostFunctionGrammar");
    assert("CreateDatabaseStatementSegment"@.len() != "PostFunctionGrammar"@.len());
    reveal_strlit("SelectClauseElementSegment");
    assert("CreateDatabaseStatementSegment"@.len() != "SelectClauseElementSegment"@.len());
    reveal_strlit("SelectClauseModifierSegment");
    assert("CreateDatabaseStatementSegment"@.len() != "SelectClauseModifierSegment"@.len());
    reveal_strlit("SelectStatementSegment");
    assert("CreateDatabaseStatementSegment"@.len() != "SelectStatementSegment"@.len());
    reveal_strlit("SetExpressionSegment");
    assert("CreateDatabaseStatementSegment"@.len() != "SetExpressionSegment"@.len());
    reveal_strlit("Tail_Recurse_Expression_A_Grammar");
    assert("CreateDatabaseStatementSegment"@.len() != "Tail_Recurse_Expression_A_Grammar"@.len());
    reveal_strlit("Tail_Recurse_Expression_B_Grammar");
    assert("CreateDatabaseStatementSegment"@.len() != "Tail_Recurse_Expression_B_Grammar"@.len());
    reveal_strlit("TruncateStatementSegment");
    assert("CreateDatabaseStatementSegment"@.len() != "TruncateStatementSegment"@.len());
    reveal_strlit("WildcardExpressionSegment");
    assert("CreateDatabaseStatementSegment"@.len() != "WildcardExpressionSegment"@.len());
}

proof fn lemma_part_11_keeps_create_database_statement_segment(m: Map<Seq<char>, ElementView>)
    requires
        m.dom().contains("CreateDatabaseStatementSegment"@),
    ensures
        ansi_library_part_11(m).dom().contains("CreateDatabaseStatementSegment"@),
        ansi_library_part_11(m)["CreateDatabaseStatementSegment"@] == m["CreateDatabaseStatementSegment"@],
{
    reveal_strlit("CreateDatabaseStatementSegment");
    reveal_strlit("AccessorGrammar");
    assert("CreateDatabaseStatementSegment"@.len() != "AccessorGrammar"@.len());
    reveal_strlit("Expression_B_Grammar");
    assert("CreateDatabaseStatementSegment"@.len() != "Expression_B_Grammar"@.len());
    reveal_strlit("Expression_C_Grammar");
    assert("CreateDatabaseStatementSegment"@.len() != "Expression_C_Grammar"@.len());
    reveal_strlit("Expression_D_Grammar");
    assert("CreateDatabaseStatementSegment"@.len() != "Expression_D_Grammar"@.len());
    reveal_strlit("NonSetSelectableGrammar");
    assert("CreateDatabaseStatementSegment"@.len() != "NonSetSelectableGrammar"@.len());
    reveal_strlit("NonWithNonSelectableGrammar");
    assert("CreateDatabaseStatementSegment"@.len() != "NonWithNonSelectableGrammar"@.len());
    reveal_strlit("NonWithSelectableGrammar");
    assert("CreateDatabaseStatementSegment"@.len() != "NonWithSelectableGrammar"@.len());
    reveal_strlit("PostTableExpressionGrammar");
    assert("CreateDatabaseStatementSegment"@.len() != "PostTableExpressionGrammar"@.len());
    reveal_strlit("SelectableGrammar");
    assert("CreateDatabaseStatementSegment"@.len() != "SelectableGrammar"@.len());
    reveal_strlit("TimeWithTZGrammar");
    assert("CreateDatabaseStatementSegment"@.len() != "TimeWithTZGrammar"@.len());
}

/// The ANSI library holds `CreateDatabaseStatementSegment`: the value of its last entry of that name.
pub proof fn lemma_ansi_library_create_database_statement_segment(lib: Map<Seq<char>, ElementView>)
    ensures
        ansi_library(lib).dom().contains("CreateDatabaseStatementSegment"@),
        ansi_library(lib)["CreateDatabaseStatementSegment"@] == create_database_statement_segment_element(),
{
    reveal(ansi_library);
    let m0 = lib;
    let m1 = ansi_library_part_0(m0);
    let m2 = ansi_library_part_1(m1);
    let m3 = ansi_library_part_2(m2);
    let m4 = ansi_library_part_3(m3);
    let m5 = ansi_library_part_4(m4);
    let m6 = ansi_library_part_5(m5);
    let m7 = ansi_library_part_6(m6);
    let m8 = ansi_library_part_7(m7);
    let m9 = ansi_library_part_8(m8);
    let m10 = ansi_library_part_9(m9);
    let m11 = ansi_library_part_10(m10);
    let m12 = ansi_library_part_11(m11);
    lemma_part_7_sets_create_database_statement_segment(m7);
    lemma_part_8_keeps_create_database_statement_segment(m8);
    lemma_part_9_keeps_create_database_statement_segment(m9);
    lemma_part_10_keeps_create_database_statement_segment(m10);
    lemma_part_11_keeps_create_database_statement_segment(m11);
}

proof fn lemma_part_7_sets_drop_database_statement_segment(m: Map<Seq<char>, ElementView>)
    ensures
        ansi_library_part_7(m).dom().contains("DropDatabaseStatementSegment"@),
        ansi_library_part_7(m)["DropDatabaseStatementSegment"@] == drop_database_statement_segment_element(),
{
    reveal_strlit("DropDatabaseStatementSegment");
    reveal_strlit("AccessStatementSegment");
    assert("DropDatabaseStatementSegment"@.len() != "AccessStatementSegment"@.len());
    reveal_strlit("CreateIndexStatementSegment");
    assert("DropDatabaseStatementSegment"@.len() != "CreateIndexStatementSegment"@.len());
    reveal_strlit("CreateTableStatementSegment");
    assert("DropDatabaseStatementSegment"@.len() != "CreateTableStatementSegment"@.len());
    reveal_strlit("DropIndexStatementSegment");
    assert("DropDatabaseStatementSegment"@.len() != "DropIndexStatementSegment"@.len());
    reveal_strlit("FunctionParameterListGrammar");
    assert("DropDatabaseStatementSegment"@[0] != "FunctionParameterListGrammar"@[0]);
    reveal_strlit("InsertStatementSegment");
    assert("DropDatabaseStatementSegment"@.len() != "InsertStatementSegment"@.len());
    reveal_strlit("TransactionStatementSegment");
    assert("DropDatabaseStatementSegment"@.len() != "TransactionStatementSegment"@.len());
}

proof fn lemma_part_8_keeps_drop_database_statement_segment(m: Map<Seq<char>, ElementView>)
    requires
        m.dom().contains("DropDatabaseStatementSegment"@),
    ensures
        ansi_library_part_8(m).dom().contains("DropDatabaseStatementSegment"@),
        ansi_library_part_8(m)["DropDatabaseStatementSegment"@] == m["DropDatabaseStatementSegment"@],
{
    reveal_strlit("DropDatabaseStatementSegment");
    reveal_strlit("AggregateOrderByClause");
    assert("DropDatabaseStatementSegment"@.len() != "AggregateOrderByClause"@.len());
    reveal_strlit("ArrayExpressionSegment");
    assert("DropDatabaseStatementSegment"@.len() != "ArrayExpressionSegment"@.len());
    reveal_strlit("BitwiseAndSegment");
    assert("DropDatabaseStatementSegment"@.len() != "BitwiseAndSegment"@.len());
    reveal_strlit("BitwiseLShiftSegment");
    assert("DropDatabaseStatementSegment"@.len() != "BitwiseLShiftSegment"@.len());
    reveal_strlit("BitwiseOrSegment");
    assert("DropDatabaseStatementSegment"@.len() != "BitwiseOrSegment"@.len());
    reveal_strlit("BitwiseRShiftSegment");
    assert("DropDatabaseStatementSegment"@.len() != "BitwiseRShiftSegment"@.len());
    reveal_strlit("ConcatSegment");
    assert("DropDatabaseStatementSegment"@.len() != "ConcatSegment"@.len());
    reveal_strlit("CreateUserStatementSegment");
    assert("DropDatabaseStatementSegment"@.len() != "CreateUserStatementSegment"@.len());
    reveal_strlit("DropTableStatementSegment");
    assert("DropDatabaseStatementSegment"@.len() != "DropTableStatementSegment"@.len());
    reveal_strlit("DropUserStatementSegment");
    assert("DropDatabaseStatementSegment"@.len() != "DropUserStatementSegment"@.len());
    reveal_strlit("DropViewStatementSegment");
    assert("DropDatabaseStatementSegment"@.len() != "DropViewStatementSegment"@.len());
    reveal_strlit("ElseClauseSegment");
    assert("DropDatabaseStatementSegment"@.len() != "ElseClauseSegment"@.len());
    reveal_strlit("EqualsSegment");
    assert("DropDatabaseStatementSegment"@.len() != "EqualsSegment"@.len());
    reveal_strlit("FunctionNameSegment");
    assert("DropDatabaseStatementSegment"@.len() != "FunctionNameSegment"@.len());
    reveal_strlit("GreaterThanOrEqualToSegment");
    assert("DropDatabaseStatementSegment"@.len() != "GreaterThanOrEqualToSegment"@.len());
    reveal_strlit("GreaterThanSegment");
    assert("DropDatabaseStatementSegment"@.len() != "GreaterThanSegment"@.len());
    reveal_strlit("IndexColumnDefinitionSegment");
    assert("DropDatabaseStatementSegment"@[0] != "IndexColumnDefinitionSegment"@[0]);
    reveal_strlit("LessThanOrEqualToSegment");
    assert("DropDatabaseStatementSegment"@.len() != "LessThanOrEqualToSegment"@.len());
    reveal_strlit("LessThanSegment");
    assert("DropDatabaseStatementSegment"@.len() != "LessThanSegment"@.len());
    reveal_strlit("LocalAliasSegment");
    assert("DropDatabaseStatementSegment"@.len() != "LocalAliasSegment"@.len());
    reveal_strlit("MergeStatementSegment");
    assert("DropDatabaseStatementSegment"@.len() != "MergeStatementSegment"@.len());
    reveal_strlit("NotEqualToSegment");
    assert("DropDatabaseStatementSegment"@.len() != "NotEqualToSegment"@.len());
    reveal_strlit("QualifiedNumericLiteralSegment");
    assert("DropDatabaseStatementSegment"@.len() != "QualifiedNumericLiteralSegment"@.len());
    reveal_strlit("WhenClauseSegment");
    assert("DropDatabaseStatementSegment"@.len() != "WhenClauseSegment"@.len());
    reveal_strlit("WhereClauseSegment");
    assert("DropDatabaseStatementSegment"@.len() != "WhereClauseSegment"@.len());
}

proof fn lemma_part_9_keeps_drop_database_statement_segment(m: Map<Seq<char>, ElementView>)
    requires
        m.dom().contains("DropDatabaseStatementSegment"@),
    ensures
        ansi_library_part_9(m).dom().contains("DropDatabaseStatementSegment"@),
        ansi_library_part_9(m)["DropDatabaseStatementSegment"@] == m["DropDatabaseStatementSegment"@],
{
    reveal_strlit("DropDatabaseStatementSegment");
    reveal_strlit("AliasExpressionSegment");
    assert("DropDatabaseStatementSegment"@.len() != "AliasExpressionSegment"@.len());
    reveal_strlit("ArrayAccessorSegment");
    assert("DropDatabaseStatementSegment"@.len() != "ArrayAccessorSegment"@.len());
    reveal_strlit("ArrayLiteralSegment");
    assert("DropDatabaseStatementSegment"@.len() != "ArrayLiteralSegment"@.len());
    reveal_strlit("ArrayTypeSegment");
    assert("DropDatabaseStatementSegment"@.len() != "ArrayTypeSegment"@.len());
    reveal_strlit("BracketedArguments");
    assert("DropDatabaseStatementSegment"@.len() != "BracketedArguments"@.len());
    reveal_strlit("DatatypeSegment");
    assert("DropDatabaseStatementSegment"@.len() != "DatatypeSegment"@.len());
    reveal_strlit("EmptyStructLiteralSegment");
    assert("DropDatabaseStatementSegment"@.len() != "EmptyStructLiteralSegment"@.len());
    reveal_strlit("IntervalExpressionSegment");
    assert("DropDatabaseStatementSegment"@.len() != "IntervalExpressionSegment"@.len());
    reveal_strlit("ObjectLiteralElementSegment");
    assert("DropDatabaseStatementSegment"@.len() != "ObjectLiteralElementSegment"@.len());
    reveal_strlit("ObjectLiteralSegment");
    assert("DropDatabaseStatementSegment"@.len() != "ObjectLiteralSegment"@.len());
    reveal_strlit("OverlapsClauseSegment");
    assert("DropDatabaseStatementSegment"@.len() != "OverlapsClauseSegment"@.len());
    reveal_strlit("SelectClauseSegment");
    assert("DropDatabaseStatementSegment"@.len() != "SelectClauseSegment"@.len());
    reveal_strlit("SetOperatorSegment");
    assert("DropDatabaseStatementSegment"@.len() != "SetOperatorSegment"@.len());
    reveal_strlit("ShorthandCastSegment");
    assert("DropDatabaseStatementSegment"@.len() != "ShorthandCastSegment"@.len());
    reveal_strlit("SizedArrayTypeSegment");
    assert("DropDatabaseStatementSegment"@.len() != "SizedArrayTypeSegment"@.len());
    reveal_strlit("StatementSegment");
    assert("DropDatabaseStatementSegment"@.len() != "StatementSegment"@.len());
    reveal_strlit("StructLiteralSegment");
    assert("DropDatabaseStatementSegment"@.len() != "StructLiteralSegment"@.len());
    reveal_strlit("StructTypeSegment");
    assert("DropDatabaseStatementSegment"@.len() != "StructTypeSegment"@.len());
    reveal_strlit("TimeZoneGrammar");
    assert("DropDatabaseStatementSegment"@.len() != "TimeZoneGrammar"@.len());
    reveal_strlit("TypedArrayLiteralSegment");
    assert("DropDatabaseStatementSegment"@.len() != "TypedArrayLiteralSegment"@.len());
    reveal_strlit("TypedStructLiteralSegment");
    assert("DropDatabaseStatementSegment"@.len() != "TypedStructLiteralSegment"@.len());
    reveal_strlit("UnorderedSelectStatementSegment");
    assert("DropDatabaseStatementSegment"@.len() != "UnorderedSelectStatementSegment"@.len());
    reveal_strlit("ValuesClauseSegment");
    assert("DropDatabaseStatementSegment"@.len() != "ValuesClauseSegment"@.len());
    reveal_strlit("WithDataClauseSegment");
    assert("DropDatabaseStatementSegment"@.len() != "WithDataClauseSegment"@.len());
    reveal_strlit("WithNoSchemaBindingClauseSegment");
    assert("DropDatabaseStatementSegment"@.len() != "WithNoSchemaBindingClauseSegment"@.len());
}

proof fn lemma_part_10_keeps_drop_database_statement_segment(m: Map<Seq<char>, ElementView>)
    requires
        m.dom().contains("DropDatabaseStatementSegment"@),
    ensures
        ansi_library_part_10(m).dom().contains("DropDatabaseStatementSegment"@),
        ansi_library_part_10(m)["DropDatabaseStatementSegment"@] == m["DropDatabaseStatementSegment"@],
{
    reveal_strlit("DropDatabaseStatementSegment");
    reveal_strlit("AccessStatementSegmentGrantRoleWithOptionGrammar");
    assert("DropDatabaseStatementSegment"@.len() != "AccessStatementSegmentGrantRoleWithOptionGrammar"@.len());
    reveal_strlit("AliasedTableReferenceGrammar");
    assert("DropDatabaseStatementSegment"@[0] != "AliasedTableReferenceGrammar"@[0]);
    reveal_strlit("CharCharacterSetGrammar");
    assert("DropDatabaseStatementSegment"@.len() != "CharCharacterSetGrammar"@.len());
    reveal_strlit("CreateSchemaStatementSegment");
    assert("DropDatabaseStatementSegment"@[0] != "CreateSchemaStatementSegment"@[0]);
    reveal_strlit("DatePartFunctionNameSegment");
    assert("DropDatabaseStatementSegment"@.len() != "DatePartFunctionNameSegment"@.len());
    reveal_strlit("EmptyStructLiteralBracketsSegment");
    assert("DropDatabaseStatementSegment"@.len() != "EmptyStructLiteralBracketsSegment"@.len());
    reveal_strlit("Expression_A_Grammar");
    assert("DropDatabaseStatementSegment"@.len() != "Expression_A_Grammar"@.len());
    reveal_strlit("Expression_A_Unary_Operator_Grammar");
    assert("DropDatabaseStatementSegment"@.len() != "Expression_A_Unary_Operator_Grammar"@.len());
    reveal_strlit("Expression_B_Unary_Operator_Grammar");
    assert("DropDatabaseStatementSegment"@.len() != "Expression_B_Unary_Operator_Grammar"@.len());
    reveal_strlit("FromClauseSegment");
    assert("DropDatabaseStatementSegment"@.len() != "FromClauseSegment"@.len());
    reveal_strlit("FromExpressionSegment");
    assert("DropDatabaseStatementSegment"@.len() != "FromExpressionSegment"@.len());
    reveal_strlit("FunctionContentsExpressionGrammar");
    assert("DropDatabaseStatementSegment"@.len() != "FunctionContentsExpressionGrammar"@.len());
    reveal_strlit("FunctionContentsGrammar");
    assert("DropDatabaseStatementSegment"@.len() != "FunctionContentsGrammar"@.len());
    reveal_strlit("FunctionContentsSegment");
    assert("DropDatabaseStatementSegment"@.len() != "FunctionContentsSegment"@.len());
    reveal_strlit("JoinLikeClauseGrammar");
    assert("DropDatabaseStatementSegment"@.len() != "JoinLikeClauseGrammar"@.len());
    reveal_strlit("OrderByClauseSegment");
    assert("DropDatabaseStatementSegment"@.len() != "OrderByClauseSegment"@.len());
    reveal_strlit("PostFunctionGrammar");
    assert("DropDatabaseStatementSegment"@.len() != "PostFunctionGrammar"@.len());
    reveal_strlit("SelectClauseElementSegment");
    assert("DropDatabaseStatementSegment"@.len() != "SelectClauseElementSegment"@.len());
    reveal_strlit("SelectClauseModifierSegment");
    assert("DropDatabaseStatementSegment"@.len() != "SelectClauseModifierSegment"@.len());
    reveal_strlit("SelectStatementSegment");
    assert("DropDatabaseStatementSegment"@.len() != "SelectStatementSegment"@.len());
    reveal_strlit("SetExpressionSegment");
    assert("DropDatabaseStatementSegment"@.len() != "SetExpressionSegment"@.len());
    reveal_strlit("Tail_Recurse_Expression_A_Grammar");
    assert("DropDatabaseStatementSegment"@.len() != "Tail_Recurse_Expression_A_Grammar"@.len());
    reveal_strlit("Tail_Recurse_Expression_B_Grammar");
    assert("DropDatabaseStatementSegment"@.len() != "Tail_Recurse_Expression_B_Grammar"@.len());
    reveal_strlit("TruncateStatementSegment");
    assert("DropDatabaseStatementSegment"@.len() != "TruncateStatementSegment"@.len());
    reveal_strlit("WildcardExpressionSegment");
    assert("DropDatabaseStatementSegment"@.len() != "WildcardExpressionSegment"@.len());
}

proof fn lemma_part_11_keeps_drop_database_statement_segment(m: Map<Seq<char>, ElementView>)
    requires
        m.dom().contains("DropDatabaseStatementSegment"@),
    ensures
        ansi_library_part_11(m).dom().contains("DropDatabaseStatementSegment"@),
        ansi_library_part_11(m)["DropDatabaseStatementSegment"@] == m["DropDatabaseStatementSegment"@],
{
    reveal_strlit("DropDatabaseStatementSegment");
    reveal_strlit("AccessorGrammar");
    assert("DropDatabaseStatementSegment"@.len() != "AccessorGrammar"@.len());
    reveal_strlit("Expression_B_Grammar");
    assert("DropDatabaseStatementSegment"@.len() != "Expression_B_Grammar"@.len());
    reveal_strlit("Expression_C_Grammar");
    assert("DropDatabaseStatementSegment"@.len() != "Expression_C_Grammar"@.len());
    reveal_strlit("Expression_D_Grammar");
    assert("DropDatabaseStatementSegment"@.len() != "Expression_D_Grammar"@.len());
    reveal_strlit("NonSetSelectableGrammar");
    assert("DropDatabaseStatementSegment"@.len() != "NonSetSelectableGrammar"@.len());
    reveal_strlit("NonWithNonSelectableGrammar");
    assert("DropDatabaseStatementSegment"@.len() != "NonWithNonSelectableGrammar"@.len());
    reveal_strlit("NonWithSelectableGrammar");
    assert("DropDatabaseStatementSegment"@.len() != "NonWithSelectableGrammar"@.len());
    reveal_strlit("PostTableExpressionGrammar");
    assert("DropDatabaseStatementSegment"@.len() != "PostTableExpressionGrammar"@.len());
    reveal_strlit("SelectableGrammar");
    assert("DropDatabaseStatementSegment"@.len() != "SelectableGrammar"@.len());
    reveal_strlit("TimeWithTZGrammar");
    assert("DropDatabaseStatementSegment"@.len() != "TimeWithTZGrammar"@.len());
}

/// The ANSI library holds `DropDatabaseStatementSegment`: the value of its last entry of that name.
pub proof fn lemma_ansi_library_drop_database_statement_segment(lib: Map<Seq<char>, ElementView>)
    ensures
        ansi_library(lib).dom().contains("DropDatabaseStatementSegment"@),
        ansi_library(lib)["DropDatabaseStatementSegment"@] == drop_database_statement_segment_element(),
{
    reveal(ansi_library);
    let m0 = lib;
    let m1 = ansi_library_part_0(m0);
    let m2 = ansi_library_part_1(m1);
    let m3 = ansi_library_part_2(m2);
    let m4 = ansi_library_part_3(m3);
    let m5 = ansi_library_part_4(m4);
    let m6 = ansi_library_part_5(m5);
    let m7 = ansi_library_part_6(m6);
    let m8 = ansi_library_part_7(m7);
    let m9 = ansi_library_part_8(m8);
    let m10 = ansi_library_part_9(m9);
    let m11 = ansi_library_part_10(m10);
    let m12 = ansi_library_part_11(m11);
    lemma_part_7_sets_drop_database_statement_segment(m7);
    lemma_part_8_keeps_drop_database_statement_segment(m8);
    lemma_part_9_keeps_drop_database_statement_segment(m9);
    lemma_part_10_keeps_drop_database_statement_segment(m10);
    lemma_part_11_keeps_drop_database_statement_segment(m11);
}

proof fn lemma_part_3_sets_primary_key_grammar(m: Map<Seq<char>, ElementView>)
    ensures
        ansi_library_part_3(m).dom().contains("PrimaryKeyGrammar"@),
        ansi_library_part_3(m)["PrimaryKeyGrammar"@] == primary_key_grammar_element(),
{
    reveal_strlit("PrimaryKeyGrammar");
    reveal_strlit("AutoIncrementGrammar");
    assert("PrimaryKeyGrammar"@.len() != "AutoIncrementGrammar"@.len());
    reveal_strlit("BaseExpressionElementGrammar");
    assert("PrimaryKeyGrammar"@.len() != "BaseExpressionElementGrammar"@.len());
    reveal_strlit("DropBehaviorGrammar");
    assert("PrimaryKeyGrammar"@.len() != "DropBehaviorGrammar"@.len());
    reveal_strlit("ExtendedNaturalJoinKeywordsGrammar");
    assert("PrimaryKeyGrammar"@.len() != "ExtendedNaturalJoinKeywordsGrammar"@.len());
    reveal_strlit("FilterClauseGrammar");
    assert("PrimaryKeyGrammar"@.len() != "FilterClauseGrammar"@.len());
    reveal_strlit("ForeignKeyGrammar");
    assert("PrimaryKeyGrammar"@[0] != "ForeignKeyGrammar"@[0]);
    reveal_strlit("FrameClauseUnitGrammar");
    assert("PrimaryKeyGrammar"@.len() != "FrameClauseUnitGrammar"@.len());
    reveal_strlit("FunctionParameterGrammar");
    assert("PrimaryKeyGrammar"@.len() != "FunctionParameterGrammar"@.len());
    reveal_strlit("IgnoreRespectNullsGrammar");
    assert("PrimaryKeyGrammar"@.len() != "IgnoreRespectNullsGrammar"@.len());
    reveal_strlit("JoinKeywordsGrammar");
    assert("PrimaryKeyGrammar"@.len() != "JoinKeywordsGrammar"@.len());
    reveal_strlit("JoinTypeKeywordsGrammar");
    assert("PrimaryKeyGrammar"@.len() != "JoinTypeKeywordsGrammar"@.len());
    reveal_strlit("NaturalJoinKeywordsGrammar");
    assert("PrimaryKeyGrammar"@.len() != "NaturalJoinKeywordsGrammar"@.len());
    reveal_strlit("NestedJoinGrammar");
    assert("PrimaryKeyGrammar"@[0] != "NestedJoinGrammar"@[0]);
    reveal_strlit("ReferentialActionGrammar");
    assert("PrimaryKeyGrammar"@.len() != "ReferentialActionGrammar"@.len());
    reveal_strlit("UniqueKeyGrammar");
    assert("PrimaryKeyGrammar"@.len() != "UniqueKeyGrammar"@.len());
}

proof fn lemma_part_4_keeps_primary_key_grammar(m: Map<Seq<char>, ElementView>)
    requires
        m.dom().contains("PrimaryKeyGrammar"@),
    ensures
        ansi_library_part_4(m).dom().contains("PrimaryKeyGrammar"@),
        ansi_library_part_4(m)["PrimaryKeyGrammar"@] == m["PrimaryKeyGrammar"@],
{
    reveal_strlit("PrimaryKeyGrammar");
    reveal_strlit("AlterTableDropColumnGrammar");
    assert("PrimaryKeyGrammar"@.len() != "AlterTableDropColumnGrammar"@.len());
    reveal_strlit("AlterTableOptionsGrammar");
    assert("PrimaryKeyGrammar"@.len() != "AlterTableOptionsGrammar"@.len());
    reveal_strlit("ColumnConstraintDefaultGrammar");
    assert("PrimaryKeyGrammar"@.len() != "ColumnConstraintDefaultGrammar"@.len());
    reveal_strlit("ColumnReferenceSegment");
    assert("PrimaryKeyGrammar"@.len() != "ColumnReferenceSegment"@.len());
    reveal_strlit("CubeFunctionNameSegment");
    assert("PrimaryKeyGrammar"@.len() != "CubeFunctionNameSegment"@.len());
    reveal_strlit("CubeRollupClauseSegment");
    assert("PrimaryKeyGrammar"@.len() != "CubeRollupClauseSegment"@.len());
    reveal_strlit("DateTimeFunctionContentsSegment");
    assert("PrimaryKeyGrammar"@.len() != "DateTimeFunctionContentsSegment"@.len());
    reveal_strlit("DefaultValuesGrammar");
    assert("PrimaryKeyGrammar"@.len() != "DefaultValuesGrammar"@.len());
    reveal_strlit("ExpressionSegment");
    assert("PrimaryKeyGrammar"@[0] != "ExpressionSegment"@[0]);
    reveal_strlit("FetchClauseSegment");
    assert("PrimaryKeyGrammar"@.len() != "FetchClauseSegment"@.len());
    reveal_strlit("FileSegment");
    assert("PrimaryKeyGrammar"@.len() != "FileSegment"@.len());
    reveal_strlit("FunctionSegment");
    assert("PrimaryKeyGrammar"@.len() != "FunctionSegment"@.len());
    reveal_strlit("GroupingExpressionList");
    assert("PrimaryKeyGrammar"@.len() != "GroupingExpressionList"@.len());
    reveal_strlit("GroupingSetsClauseSegment");
    assert("PrimaryKeyGrammar"@.len() != "GroupingSetsClauseSegment"@.len());
    reveal_strlit("HavingClauseSegment");
    assert("PrimaryKeyGrammar"@.len() != "HavingClauseSegment"@.len());
    reveal_strlit("LimitClauseSegment");
    assert("PrimaryKeyGrammar"@.len() != "LimitClauseSegment"@.len());
    reveal_strlit("NamedWindowExpressionSegment");
    assert("PrimaryKeyGrammar"@.len() != "NamedWindowExpressionSegment"@.len());
    reveal_strlit("ObjectReferenceDelimiterGrammar");
    assert("PrimaryKeyGrammar"@.len() != "ObjectReferenceDelimiterGrammar"@.len());
    reveal_strlit("ObjectReferenceTerminatorGrammar");
    assert("PrimaryKeyGrammar"@.len() != "ObjectReferenceTerminatorGrammar"@.len());
    reveal_strlit("PathSegment");
    assert("PrimaryKeyGrammar"@.len() != "PathSegment"@.len());
    reveal_strlit("ReferenceDefinitionGrammar");
    assert("PrimaryKeyGrammar"@.len() != "ReferenceDefinitionGrammar"@.len());
    reveal_strlit("RollupFunctionNameSegment");
    assert("PrimaryKeyGrammar"@.len() != "RollupFunctionNameSegment"@.len());
    reveal_strlit("SetClauseSegment");
    assert("PrimaryKeyGrammar"@.len() != "SetClauseSegment"@.len());
    reveal_strlit("TrimParametersGrammar");
    assert("PrimaryKeyGrammar"@.len() != "TrimParametersGrammar"@.len());
    reveal_strlit("WildcardIdentifierSegment");
    assert("PrimaryKeyGrammar"@.len() != "WildcardIdentifierSegment"@.len());
}

proof fn lemma_part_5_keeps_primary_key_grammar(m: Map<Seq<char>, ElementView>)
    requires
        m.dom().contains("PrimaryKeyGrammar"@),
    ensures
        ansi_library_part_5(m).dom().contains("PrimaryKeyGrammar"@),
        ansi_library_part_5(m)["PrimaryKeyGrammar"@] == m["PrimaryKeyGrammar"@],
{
    reveal_strlit("PrimaryKeyGrammar");
    reveal_strlit("AlterSequenceOptionsSegment");
    assert("PrimaryKeyGrammar"@.len() != "AlterSequenceOptionsSegment"@.len());
    reveal_strlit("CTEColumnList");
    assert("PrimaryKeyGrammar"@.len() != "CTEColumnList"@.len());
    reveal_strlit("CTEDefinitionSegment");
    assert("PrimaryKeyGrammar"@.len() != "CTEDefinitionSegment"@.len());
    reveal_strlit("ColumnConstraintSegment");
    assert("PrimaryKeyGrammar"@.len() != "ColumnConstraintSegment"@.len());
    reveal_strlit("ColumnDefinitionSegment");
    assert("PrimaryKeyGrammar"@.len() != "ColumnDefinitionSegment"@.len());
    reveal_strlit("CommentClauseSegment");
    assert("PrimaryKeyGrammar"@.len() != "CommentClauseSegment"@.len());
    reveal_strlit("ExtensionReferenceSegment");
    assert("PrimaryKeyGrammar"@.len() != "ExtensionReferenceSegment"@.len());
    reveal_strlit("FrameClauseSegment");
    assert("PrimaryKeyGrammar"@.len() != "FrameClauseSegment"@.len());
    reveal_strlit("FunctionDefinitionGrammar");
    assert("PrimaryKeyGrammar"@.len() != "FunctionDefinitionGrammar"@.len());
    reveal_strlit("GroupByClauseSegment");
    assert("PrimaryKeyGrammar"@.len() != "GroupByClauseSegment"@.len());
    reveal_strlit("MergeDeleteClauseSegment");
    assert("PrimaryKeyGrammar"@.len() != "MergeDeleteClauseSegment"@.len());
    reveal_strlit("MergeInsertClauseSegment");
    assert("PrimaryKeyGrammar"@.len() != "MergeInsertClauseSegment"@.len());
    reveal_strlit("MergeMatchSegment");
    assert("PrimaryKeyGrammar"@[0] != "MergeMatchSegment"@[0]);
    reveal_strlit("MergeMatchedClauseSegment");
    assert("PrimaryKeyGrammar"@.len() != "MergeMatchedClauseSegment"@.len());
    reveal_strlit("MergeNotMatchedClauseSegment");
    assert("PrimaryKeyGrammar"@.len() != "MergeNotMatchedClauseSegment"@.len());
    reveal_strlit("MergeUpdateClauseSegment");
    assert("PrimaryKeyGrammar"@.len() != "MergeUpdateClauseSegment"@.len());
    reveal_strlit("RoleReferenceSegment");
    assert("PrimaryKeyGrammar"@.len() != "RoleReferenceSegment"@.len());
    reveal_strlit("SchemaReferenceSegment");
    assert("PrimaryKeyGrammar"@.len() != "SchemaReferenceSegment"@.len());
    reveal_strlit("SetClauseListSegment");
    assert("PrimaryKeyGrammar"@.len() != "SetClauseListSegment"@.len());
    reveal_strlit("SingleIdentifierListSegment");
    assert("PrimaryKeyGrammar"@.len() != "SingleIdentifierListSegment"@.len());
    reveal_strlit("TableEndClauseSegment");
    assert("PrimaryKeyGrammar"@.len() != "TableEndClauseSegment"@.len());
    reveal_strlit("TablespaceReferenceSegment");
    assert("PrimaryKeyGrammar"@.len() != "TablespaceReferenceSegment"@.len());
    reveal_strlit("TagReferenceSegment");
    assert("PrimaryKeyGrammar"@.len() != "TagReferenceSegment"@.len());
    reveal_strlit("WithCompoundNonSelectStatementSegment");
    assert("PrimaryKeyGrammar"@.len() != "WithCompoundNonSelectStatementSegment"@.len());
    reveal_strlit("WithCompoundStatementSegment");
    assert("PrimaryKeyGrammar"@.len() != "WithCompoundStatementSegment"@.len());
}

proof fn lemma_part_6_keeps_primary_key_grammar(m: Map<Seq<char>, ElementView>)
    requires
        m.dom().contains("PrimaryKeyGrammar"@),
    ensures
        ansi_library_part_6(m).dom().contains("PrimaryKeyGrammar"@),
        ansi_library_part_6(m)["PrimaryKeyGrammar"@] == m["PrimaryKeyGrammar"@],
{
    reveal_strlit("PrimaryKeyGrammar");
    reveal_strlit("CollationReferenceSegment");
    assert("PrimaryKeyGrammar"@.len() != "CollationReferenceSegment"@.len());
    reveal_strlit("CreateSequenceOptionsSegment");
    assert("PrimaryKeyGrammar"@.len() != "CreateSequenceOptionsSegment"@.len());
    reveal_strlit("CreateSequenceStatementSegment");
    assert("PrimaryKeyGrammar"@.len() != "CreateSequenceStatementSegment"@.len());
    reveal_strlit("CreateTriggerStatementSegment");
    assert("PrimaryKeyGrammar"@.len() != "CreateTriggerStatementSegment"@.len());
    reveal_strlit("DatabaseReferenceSegment");
    assert("PrimaryKeyGrammar"@.len() != "DatabaseReferenceSegment"@.len());
    reveal_strlit("DescribeStatementSegment");
    assert("PrimaryKeyGrammar"@.len() != "DescribeStatementSegment"@.len());
    reveal_strlit("DropModelStatementSegment");
    assert("PrimaryKeyGrammar"@.len() != "DropModelStatementSegment"@.len());
    reveal_strlit("DropTriggerStatementSegment");
    assert("PrimaryKeyGrammar"@.len() != "DropTriggerStatementSegment"@.len());
    reveal_strlit("ExplainStatementSegment");
    assert("PrimaryKeyGrammar"@.len() != "ExplainStatementSegment"@.len());
    reveal_strlit("IndexReferenceSegment");
    assert("PrimaryKeyGrammar"@.len() != "IndexReferenceSegment"@.len());
    reveal_strlit("JoinClauseSegment");
    assert("PrimaryKeyGrammar"@[0] != "JoinClauseSegment"@[0]);
    reveal_strlit("JoinOnConditionSegment");
    assert("PrimaryKeyGrammar"@.len() != "JoinOnConditionSegment"@.len());
    reveal_strlit("NamedWindowSegment");
    assert("PrimaryKeyGrammar"@.len() != "NamedWindowSegment"@.len());
    reveal_strlit("OverClauseSegment");
    assert("PrimaryKeyGrammar"@[0] != "OverClauseSegment"@[0]);
    reveal_strlit("PartitionClauseSegment");
    assert("PrimaryKeyGrammar"@.len() != "PartitionClauseSegment"@.len());
    reveal_strlit("SamplingExpressionSegment");
    assert("PrimaryKeyGrammar"@.len() != "SamplingExpressionSegment"@.len());
    reveal_strlit("SequenceReferenceSegment");
    assert("PrimaryKeyGrammar"@.len() != "SequenceReferenceSegment"@.len());
    reveal_strlit("TableConstraintSegment");
    assert("PrimaryKeyGrammar"@.len() != "TableConstraintSegment"@.len());
    reveal_strlit("TableExpressionSegment");
    assert("PrimaryKeyGrammar"@.len() != "TableExpressionSegment"@.len());
    reveal_strlit("TriggerReferenceSegment");
    assert("PrimaryKeyGrammar"@.len() != "TriggerReferenceSegment"@.len());
    reveal_strlit("UseStatementSegment");
    assert("PrimaryKeyGrammar"@.len() != "UseStatementSegment"@.len());
    reveal_strlit("WindowSpecificationSegment");
    assert("PrimaryKeyGrammar"@.len() != "WindowSpecificationSegment"@.len());
}

proof fn lemma_part_7_keeps_primary_key_grammar(m: Map<Seq<char>, ElementView>)
    requires
        m.dom().contains("PrimaryKeyGrammar"@),
    ensures
        ansi_library_part_7(m).dom().contains("PrimaryKeyGrammar"@),
        ansi_library_part_7(m)["PrimaryKeyGrammar"@] == m["PrimaryKeyGrammar"@],
{
    reveal_strlit("PrimaryKeyGrammar");
    reveal_strlit("AccessStatementSegment");
    assert("PrimaryKeyGrammar"@.len() != "AccessStatementSegment"@.len());
    reveal_strlit("AlterSequenceStatementSegment");
    assert("PrimaryKeyGrammar"@.len() != "AlterSequenceStatementSegment"@.len());
    reveal_strlit("AlterTableStatementSegment");
    assert("PrimaryKeyGrammar"@.len() != "AlterTableStatementSegment"@.len());
    reveal_strlit("CreateCastStatementSegment");
    assert("PrimaryKeyGrammar"@.len() != "CreateCastStatementSegment"@.len());
    reveal_strlit("CreateDatabaseStatementSegment");
    assert("PrimaryKeyGrammar"@.len() != "CreateDatabaseStatementSegment"@.len());
    reveal_strlit("CreateFunctionStatementSegment");
    assert("PrimaryKeyGrammar"@.len() != "CreateFunctionStatementSegment"@.len());
    reveal_strlit("CreateIndexStatementSegment");
    assert("PrimaryKeyGrammar"@.len() != "CreateIndexStatementSegment"@.len());
    reveal_strlit("CreateModelStatementSegment");
    assert("PrimaryKeyGrammar"@.len() != "CreateModelStatementSegment"@.len());
    reveal_strlit("CreateRoleStatementSegment");
    assert("PrimaryKeyGrammar"@.len() != "CreateRoleStatementSegment"@.len());
    reveal_strlit("CreateTableStatementSegment");
    assert("PrimaryKeyGrammar"@.len() != "CreateTableStatementSegment"@.len());
    reveal_strlit("CreateViewStatementSegment");
    assert("PrimaryKeyGrammar"@.len() != "CreateViewStatementSegment"@.len());
    reveal_strlit("DeleteStatementSegment");
    assert("PrimaryKeyGrammar"@.len() != "DeleteStatementSegment"@.len());
    reveal_strlit("DropCastStatementSegment");
    assert("PrimaryKeyGrammar"@.len() != "DropCastStatementSegment"@.len());
    reveal_strlit("DropDatabaseStatementSegment");
    assert("PrimaryKeyGrammar"@.len() != "DropDatabaseStatementSegment"@.len());
    reveal_strlit("DropFunctionStatementSegment");
    assert("PrimaryKeyGrammar"@.len() != "DropFunctionStatementSegment"@.len());
    reveal_strlit("DropIndexStatementSegment");
    assert("PrimaryKeyGrammar"@.len() != "DropIndexStatementSegment"@.len());
    reveal_strlit("DropRoleStatementSegment");
    assert("PrimaryKeyGrammar"@.len() != "DropRoleStatementSegment"@.len());
    reveal_strlit("DropSchemaStatementSegment");
    assert("PrimaryKeyGrammar"@.len() != "DropSchemaStatementSegment"@.len());
    reveal_strlit("DropSequenceStatementSegment");
    assert("PrimaryKeyGrammar"@.len() != "DropSequenceStatementSegment"@.len());
    reveal_strlit("DropTypeStatementSegment");
    assert("PrimaryKeyGrammar"@.len() != "DropTypeStatementSegment"@.len());
    reveal_strlit("FunctionParameterListGrammar");
    assert("PrimaryKeyGrammar"@.len() != "FunctionParameterListGrammar"@.len());
    reveal_strlit("InsertStatementSegment");
    assert("PrimaryKeyGrammar"@.len() != "InsertStatementSegment"@.len());
    reveal_strlit("SetSchemaStatementSegment");
    assert("PrimaryKeyGrammar"@.len() != "SetSchemaStatementSegment"@.len());
    reveal_strlit("TransactionStatementSegment");
    assert("PrimaryKeyGrammar"@.len() != "TransactionStatementSegment"@.len());
    reveal_strlit("UpdateStatementSegment");
    assert("PrimaryKeyGrammar"@.len() != "UpdateStatementSegment"@.len());
}

proof fn lemma_part_8_keeps_primary_key_grammar(m: Map<Seq<char>, ElementView>)
    requires
        m.dom().contains("PrimaryKeyGrammar"@),
    ensures
        ansi_library_part_8(m).dom().contains("PrimaryKeyGrammar"@),
        ansi_library_part_8(m)["PrimaryKeyGrammar"@] == m["PrimaryKeyGrammar"@],
{
    reveal_strlit("PrimaryKeyGrammar");
    reveal_strlit("AggregateOrderByClause");
    assert("PrimaryKeyGrammar"@.len() != "AggregateOrderByClause"@.len());
    reveal_strlit("ArrayExpressionSegment");
    assert("PrimaryKeyGrammar"@.len() != "ArrayExpressionSegment"@.len());
    reveal_strlit("BitwiseAndSegment");
    assert("PrimaryKeyGrammar"@[0] != "BitwiseAndSegment"@[0]);
    reveal_strlit("BitwiseLShiftSegment");
    assert("PrimaryKeyGrammar"@.len() != "BitwiseLShiftSegment"@.len());
    reveal_strlit("BitwiseOrSegment");
    assert("PrimaryKeyGrammar"@.len() != "BitwiseOrSegment"@.len());
    reveal_strlit("BitwiseRShiftSegment");
    assert("PrimaryKeyGrammar"@.len() != "BitwiseRShiftSegment"@.len());
    reveal_strlit("ConcatSegment");
    assert("PrimaryKeyGrammar"@.len() != "ConcatSegment"@.len());
    reveal_strlit("CreateUserStatementSegment");
    assert("PrimaryKeyGrammar"@.len() != "CreateUserStatementSegment"@.len());
    reveal_strlit("DropTableStatementSegment");
    assert("PrimaryKeyGrammar"@.len() != "DropTableStatementSegment"@.len());
    reveal_strlit("DropUserStatementSegment");
    assert("PrimaryKeyGrammar"@.len() != "DropUserStatementSegment"@.len());
    reveal_strlit("DropViewStatementSegment");
    assert("PrimaryKeyGrammar"@.len() != "DropViewStatementSegment"@.len());
    reveal_strlit("ElseClauseSegment");
    assert("PrimaryKeyGrammar"@[0] != "ElseClauseSegment"@[0]);
    reveal_strlit("EqualsSegment");
    assert("PrimaryKeyGrammar"@.len() != "EqualsSegment"@.len());
    reveal_strlit("FunctionNameSegment");
    assert("PrimaryKeyGrammar"@.len() != "FunctionNameSegment"@.len());
    reveal_strlit("GreaterThanOrEqualToSegment");
    assert("PrimaryKeyGrammar"@.len() != "GreaterThanOrEqualToSegment"@.len());
    reveal_strlit("GreaterThanSegment");
    assert("PrimaryKeyGrammar"@.len() != "GreaterThanSegment"@.len());
    reveal_strlit("IndexColumnDefinitionSegment");
    assert("PrimaryKeyGrammar"@.len() != "IndexColumnDefinitionSegment"@.len());
    reveal_strlit("LessThanOrEqualToSegment");
    assert("PrimaryKeyGrammar"@.len() != "LessThanOrEqualToSegment"@.len());
    reveal_strlit("LessThanSegment");
    assert("PrimaryKeyGrammar"@.len() != "LessThanSegment"@.len());
    reveal_strlit("LocalAliasSegment");
    assert("PrimaryKeyGrammar"@[0] != "LocalAliasSegment"@[0]);
    reveal_strlit("MergeStatementSegment");
    assert("PrimaryKeyGrammar"@.len() != "MergeStatementSegment"@.len());
    reveal_strlit("NotEqualToSegment");
    assert("PrimaryKeyGrammar"@[0] != "NotEqualToSegment"@[0]);
    reveal_strlit("QualifiedNumericLiteralSegment");
    assert("PrimaryKeyGrammar"@.len() != "QualifiedNumericLiteralSegment"@.len());
    reveal_strlit("WhenClauseSegment");
    assert("PrimaryKeyGrammar"@[0] != "WhenClauseSegment"@[0]);
    reveal_strlit("WhereClauseSegment");
    assert("PrimaryKeyGrammar"@.len() != "WhereClauseSegment"@.len());
}

proof fn lemma_part_9_keeps_primary_key_grammar(m: Map<Seq<char>, ElementView>)
    requires
        m.dom().contains("PrimaryKeyGrammar"@),
    ensures
        ansi_library_part_9(m).dom().contains("PrimaryKeyGrammar"@),
        ansi_library_part_9(m)["PrimaryKeyGrammar"@] == m["PrimaryKeyGrammar"@],
{
    reveal_strlit("PrimaryKeyGrammar");
    reveal_strlit("AliasExpressionSegment");
    assert("PrimaryKeyGrammar"@.len() != "AliasExpressionSegment"@.len());
    reveal_strlit("ArrayAccessorSegment");
    assert("PrimaryKeyGrammar"@.len() != "ArrayAccessorSegment"@.len());
    reveal_strlit("ArrayLiteralSegment");
    assert("PrimaryKeyGrammar"@.len() != "ArrayLiteralSegment"@.len());
    reveal_strlit("ArrayTypeSegment");
    assert("PrimaryKeyGrammar"@.len() != "ArrayTypeSegment"@.len());
    reveal_strlit("BracketedArguments");
    assert("PrimaryKeyGrammar"@.len() != "BracketedArguments"@.len());
    reveal_strlit("DatatypeSegment");
    assert("PrimaryKeyGrammar"@.len() != "DatatypeSegment"@.len());
    reveal_strlit("EmptyStructLiteralSegment");
    assert("PrimaryKeyGrammar"@.len() != "EmptyStructLiteralSegment"@.len());
    reveal_strlit("IntervalExpressionSegment");
    assert("PrimaryKeyGrammar"@.len() != "IntervalExpressionSegment"@.len());
    reveal_strlit("ObjectLiteralElementSegment");
    assert("PrimaryKeyGrammar"@.len() != "ObjectLiteralElementSegment"@.len());
    reveal_strlit("ObjectLiteralSegment");
    assert("PrimaryKeyGrammar"@.len() != "ObjectLiteralSegment"@.len());
    reveal_strlit("OverlapsClauseSegment");
    assert("PrimaryKeyGrammar"@.len() != "OverlapsClauseSegment"@.len());
    reveal_strlit("SelectClauseSegment");
    assert("PrimaryKeyGrammar"@.len() != "SelectClauseSegment"@.len());
    reveal_strlit("SetOperatorSegment");
    assert("PrimaryKeyGrammar"@.len() != "SetOperatorSegment"@.len());
    reveal_strlit("ShorthandCastSegment");
    assert("PrimaryKeyGrammar"@.len() != "ShorthandCastSegment"@.len());
    reveal_strlit("SizedArrayTypeSegment");
    assert("PrimaryKeyGrammar"@.len() != "SizedArrayTypeSegment"@.len());
    reveal_strlit("StatementSegment");
    assert("PrimaryKeyGrammar"@.len() != "StatementSegment"@.len());
    reveal_strlit("StructLiteralSegment");
    assert("PrimaryKeyGrammar"@.len() != "StructLiteralSegment"@.len());
    reveal_strlit("StructTypeSegment");
    assert("PrimaryKeyGrammar"@[0] != "StructTypeSegment"@[0]);
    reveal_strlit("TimeZoneGrammar");
    assert("PrimaryKeyGrammar"@.len() != "TimeZoneGrammar"@.len());
    reveal_strlit("TypedArrayLiteralSegment");
    assert("PrimaryKeyGrammar"@.len() != "TypedArrayLiteralSegment"@.len());
    reveal_strlit("TypedStructLiteralSegment");
    assert("PrimaryKeyGrammar"@.len() != "TypedStructLiteralSegment"@.len());
    reveal_strlit("UnorderedSelectStatementSegment");
    assert("PrimaryKeyGrammar"@.len() != "UnorderedSelectStatementSegment"@.len());
    reveal_strlit("ValuesClauseSegment");
    assert("PrimaryKeyGrammar"@.len() != "ValuesClauseSegment"@.len());
    reveal_strlit("WithDataClauseSegment");
    assert("PrimaryKeyGrammar"@.len() != "WithDataClauseSegment"@.len());
    reveal_strlit("WithNoSchemaBindingClauseSegment");
    assert("PrimaryKeyGrammar"@.len() != "WithNoSchemaBindingClauseSegment"@.len());
}

proof fn lemma_part_10_keeps_primary_key_grammar(m: Map<Seq<char>, ElementView>)
    requires
        m.dom().contains("PrimaryKeyGrammar"@),
    ensures
        ansi_library_part_10(m).dom().contains("PrimaryKeyGrammar"@),
        ansi_library_part_10(m)["PrimaryKeyGrammar"@] == m["PrimaryKeyGrammar"@],
{
    reveal_strlit("PrimaryKeyGrammar");
    reveal_strlit("AccessStatementSegmentGrantRoleWithOptionGrammar");
    assert("PrimaryKeyGrammar"@.len() != "AccessStatementSegmentGrantRoleWithOptionGrammar"@.len());
    reveal_strlit("AliasedTableReferenceGrammar");
    assert("PrimaryKeyGrammar"@.len() != "AliasedTableReferenceGrammar"@.len());
    reveal_strlit("CharCharacterSetGrammar");
    assert("PrimaryKeyGrammar"@.len() != "CharCharacterSetGrammar"@.len());
    reveal_strlit("CreateSchemaStatementSegment");
    assert("PrimaryKeyGrammar"@.len() != "CreateSchemaStatementSegment"@.len());
    reveal_strlit("DatePartFunctionNameSegment");
    assert("PrimaryKeyGrammar"@.len() != "DatePartFunctionNameSegment"@.len());
    reveal_strlit("EmptyStructLiteralBracketsSegment");
    assert("PrimaryKeyGrammar"@.len() != "EmptyStructLiteralBracketsSegment"@.len());
    reveal_strlit("Expression_A_Grammar");
    assert("PrimaryKeyGrammar"@.len() != "Expression_A_Grammar"@.len());
    reveal_strlit("Expression_A_Unary_Operator_Grammar");
    assert("PrimaryKeyGrammar"@.len() != "Expression_A_Unary_Operator_Grammar"@.len());
    reveal_strlit("Expression_B_Unary_Operator_Grammar");
    assert("PrimaryKeyGrammar"@.len() != "Expression_B_Unary_Operator_Grammar"@.len());
    reveal_strlit("FromClauseSegment");
    assert("PrimaryKeyGrammar"@[0] != "FromClauseSegment"@[0]);
    reveal_strlit("FromExpressionSegment");
    assert("PrimaryKeyGrammar"@.len() != "FromExpressionSegment"@.len());
    reveal_strlit("FunctionContentsExpressionGrammar");
    assert("PrimaryKeyGrammar"@.len() != "FunctionContentsExpressionGrammar"@.len());
    reveal_strlit("FunctionContentsGrammar");
    assert("PrimaryKeyGrammar"@.len() != "FunctionContentsGrammar"@.len());
    reveal_strlit("FunctionContentsSegment");
    assert("PrimaryKeyGrammar"@.len() != "FunctionContentsSegment"@.len());
    reveal_strlit("JoinLikeClauseGrammar");
    assert("PrimaryKeyGrammar"@.len() != "JoinLikeClauseGrammar"@.len());
    reveal_strlit("OrderByClauseSegment");
    assert("PrimaryKeyGrammar"@.len() != "OrderByClauseSegment"@.len());
    reveal_strlit("PostFunctionGrammar");
    assert("PrimaryKeyGrammar"@.len() != "PostFunctionGrammar"@.len());
    reveal_strlit("SelectClauseElementSegment");
    assert("PrimaryKeyGrammar"@.len() != "SelectClauseElementSegment"@.len());
    reveal_strlit("SelectClauseModifierSegment");
    assert("PrimaryKeyGrammar"@.len() != "SelectClauseModifierSegment"@.len());
    reveal_strlit("SelectStatementSegment");
    assert("PrimaryKeyGrammar"@.len() != "SelectStatementSegment"@.len());
    reveal_strlit("SetExpressionSegment");
    assert("PrimaryKeyGrammar"@.len() != "SetExpressionSegment"@.len());
    reveal_strlit("Tail_Recurse_Expression_A_Grammar");
    assert("PrimaryKeyGrammar"@.len() != "Tail_Recurse_Expression_A_Grammar"@.len());
    reveal_strlit("Tail_Recurse_Expression_B_Grammar");
    assert("PrimaryKeyGrammar"@.len() != "Tail_Recurse_Expression_B_Grammar"@.len());
    reveal_strlit("TruncateStatementSegment");
    assert("PrimaryKeyGrammar"@.len() != "TruncateStatementSegment"@.len());
    reveal_strlit("WildcardExpressionSegment");
    assert("PrimaryKeyGrammar"@.len() != "WildcardExpressionSegment"@.len());
}

proof fn lemma_part_11_keeps_primary_key_grammar(m: Map<Seq<char>, ElementView>)
    requires
        m.dom().contains("PrimaryKeyGrammar"@),
    ensures
        ansi_library_part_11(m).dom().contains("PrimaryKeyGrammar"@),
        ansi_library_part_11(m)["PrimaryKeyGrammar"@] == m["PrimaryKeyGrammar"@],
{
    reveal_strlit("PrimaryKeyGrammar");
    reveal_strlit("AccessorGrammar");
    assert("PrimaryKeyGrammar"@.len() != "AccessorGrammar"@.len());
    reveal_strlit("Expression_B_Grammar");
    assert("PrimaryKeyGrammar"@.len() != "Expression_B_Grammar"@.len());
    reveal_strlit("Expression_C_Grammar");
    assert("PrimaryKeyGrammar"@.len() != "Expression_C_Grammar"@.len());
    reveal_strlit("Expression_D_Grammar");
    assert("PrimaryKeyGrammar"@.len() != "Expression_D_Grammar"@.len());
    reveal_strlit("NonSetSelectableGrammar");
    assert("PrimaryKeyGrammar"@.len() != "NonSetSelectableGrammar"@.len());
    reveal_strlit("NonWithNonSelectableGrammar");
    assert("PrimaryKeyGrammar"@.len() != "NonWithNonSelectableGrammar"@.len());
    reveal_strlit("NonWithSelectableGrammar");
    assert("PrimaryKeyGrammar"@.len() != "NonWithSelectableGrammar"@.len());
    reveal_strlit("PostTableExpressionGrammar");
    assert("PrimaryKeyGrammar"@.len() != "PostTableExpressionGrammar"@.len());
    reveal_strlit("SelectableGrammar");
    assert("PrimaryKeyGrammar"@[0] != "SelectableGrammar"@[0]);
    reveal_strlit("TimeWithTZGrammar");
    assert("PrimaryKeyGrammar"@[0] != "TimeWithTZGrammar"@[0]);
}

/// The ANSI library holds `PrimaryKeyGrammar`: the value of its last entry of that name.
pub proof fn lemma_ansi_library_primary_key_grammar(lib: Map<Seq<char>, ElementView>)
    ensures
        ansi_library(lib).dom().contains("PrimaryKeyGrammar"@),
        ansi_library(lib)["PrimaryKeyGrammar"@] == primary_key_grammar_element(),
{
    reveal(ansi_library);
    let m0 = lib;
    let m1 = ansi_library_part_0(m0);
    let m2 = ansi_library_part_1(m1);
    let m3 = ansi_library_part_2(m2);
    let m4 = ansi_library_part_3(m3);
    let m5 = ansi_library_part_4(m4);
    let m6 = ansi_library_part_5(m5);
    let m7 = ansi_library_part_6(m6);
    let m8 = ansi_library_part_7(m7);
    let m9 = ansi_library_part_8(m8);
    let m10 = ansi_library_part_9(m9);
    let m11 = ansi_library_part_10(m10);
    let m12 = ansi_library_part_11(m11);
    lemma_part_3_sets_primary_key_grammar(m3);
    lemma_part_4_keeps_primary_key_grammar(m4);
    lemma_part_5_keeps_primary_key_grammar(m5);
    lemma_part_6_keeps_primary_key_grammar(m6);
    lemma_part_7_keeps_primary_key_grammar(m7);
    lemma_part_8_keeps_primary_key_grammar(m8);
    lemma_part_9_keeps_primary_key_grammar(m9);
    lemma_part_10_keeps_primary_key_grammar(m10);
    lemma_part_11_keeps_primary_key_grammar(m11);
}

proof fn lemma_part_3_sets_foreign_key_grammar(m: Map<Seq<char>, ElementView>)
    ensures
        ansi_library_part_3(m).dom().contains("ForeignKeyGrammar"@),
        ansi_library_part_3(m)["ForeignKeyGrammar"@] == foreign_key_grammar_element(),
{
    reveal_strlit("ForeignKeyGrammar");
    reveal_strlit("AutoIncrementGrammar");
    assert("ForeignKeyGrammar"@.len() != "AutoIncrementGrammar"@.len());
    reveal_strlit("BaseExpressionElementGrammar");
    assert("ForeignKeyGrammar"@.len() != "BaseExpressionElementGrammar"@.len());
    reveal_strlit("DropBehaviorGrammar");
    assert("ForeignKeyGrammar"@.len() != "DropBehaviorGrammar"@.len());
    reveal_strlit("ExtendedNaturalJoinKeywordsGrammar");
    assert("ForeignKeyGrammar"@.len() != "ExtendedNaturalJoinKeywordsGrammar"@.len());
    reveal_strlit("FilterClauseGrammar");
    assert("ForeignKeyGrammar"@.len() != "FilterClauseGrammar"@.len());
    reveal_strlit("FrameClauseUnitGrammar");
    assert("ForeignKeyGrammar"@.len() != "FrameClauseUnitGrammar"@.len());
    reveal_strlit("FunctionParameterGrammar");
    assert("ForeignKeyGrammar"@.len() != "FunctionParameterGrammar"@.len());
    reveal_strlit("IgnoreRespectNullsGrammar");
    assert("ForeignKeyGrammar"@.len() != "IgnoreRespectNullsGrammar"@.len());
    reveal_strlit("JoinKeywordsGrammar");
    assert("ForeignKeyGrammar"@.len() != "JoinKeywordsGrammar"@.len());
    reveal_strlit("JoinTypeKeywordsGrammar");
    assert("ForeignKeyGrammar"@.len() != "JoinTypeKeywordsGrammar"@.len());
    reveal_strlit("NaturalJoinKeywordsGrammar");
    assert("ForeignKeyGrammar"@.len() != "NaturalJoinKeywordsGrammar"@.len());
    reveal_strlit("NestedJoinGrammar");
    assert("ForeignKeyGrammar"@[0] != "NestedJoinGrammar"@[0]);
    reveal_strlit("ReferentialActionGrammar");
    assert("ForeignKeyGrammar"@.len() != "ReferentialActionGrammar"@.len());
    reveal_strlit("UniqueKeyGrammar");
    assert("ForeignKeyGrammar"@.len() != "UniqueKeyGrammar"@.len());
}

proof fn lemma_part_4_keeps_foreign_key_grammar(m: Map<Seq<char>, ElementView>)
    requires
        m.dom().contains("ForeignKeyGrammar"@),
    ensures
        ansi_library_part_4(m).dom().contains("ForeignKeyGrammar"@),
        ansi_library_part_4(m)["ForeignKeyGrammar"@] == m["ForeignKeyGrammar"@],
{
    reveal_strlit("ForeignKeyGrammar");
    reveal_strlit("AlterTableDropColumnGrammar");
    assert("ForeignKeyGrammar"@.len() != "AlterTableDropColumnGrammar"@.len());
    reveal_strlit("AlterTableOptionsGrammar");
    assert("ForeignKeyGrammar"@.len() != "AlterTableOptionsGrammar"@.len());
    reveal_strlit("ColumnConstraintDefaultGrammar");
    assert("ForeignKeyGrammar"@.len() != "ColumnConstraintDefaultGrammar"@.len());
    reveal_strlit("ColumnReferenceSegment");
    assert("ForeignKeyGrammar"@.len() != "ColumnReferenceSegment"@.len());
    reveal_strlit("CubeFunctionNameSegment");
    assert("ForeignKeyGrammar"@.len() != "CubeFunctionNameSegment"@.len());
    reveal_strlit("CubeRollupClauseSegment");
    assert("ForeignKeyGrammar"@.len() != "CubeRollupClauseSegment"@.len());
    reveal_strlit("DateTimeFunctionContentsSegment");
    assert("ForeignKeyGrammar"@.len() != "DateTimeFunctionContentsSegment"@.len());
    reveal_strlit("DefaultValuesGrammar");
    assert("ForeignKeyGrammar"@.len() != "DefaultValuesGrammar"@.len());
    reveal_strlit("ExpressionSegment");
    assert("ForeignKeyGrammar"@[0] != "ExpressionSegment"@[0]);
    reveal_strlit("FetchClauseSegment");
    assert("ForeignKeyGrammar"@.len() != "FetchClauseSegment"@.len());
    reveal_strlit("FileSegment");
    assert("ForeignKeyGrammar"@.len() != "FileSegment"@.len());
    reveal_strlit("FunctionSegment");
    assert("ForeignKeyGrammar"@.len() != "FunctionSegment"@.len());
    reveal_strlit("GroupingExpressionList");
    assert("ForeignKeyGrammar"@.len() != "GroupingExpressionList"@.len());
    reveal_strlit("GroupingSetsClauseSegment");
    assert("ForeignKeyGrammar"@.len() != "GroupingSetsClauseSegment"@.len());
    reveal_strlit("HavingClauseSegment");
    assert("ForeignKeyGrammar"@.len() != "HavingClauseSegment"@.len());
    reveal_strlit("LimitClauseSegment");
    assert("ForeignKeyGrammar"@.len() != "LimitClauseSegment"@.len());
    reveal_strlit("NamedWindowExpressionSegment");
    assert("ForeignKeyGrammar"@.len() != "NamedWindowExpressionSegment"@.len());
    reveal_strlit("ObjectReferenceDelimiterGrammar");
    assert("ForeignKeyGrammar"@.len() != "ObjectReferenceDelimiterGrammar"@.len());
    reveal_strlit("ObjectReferenceTerminatorGrammar");
    assert("ForeignKeyGrammar"@.len() != "ObjectReferenceTerminatorGrammar"@.len());
    reveal_strlit("PathSegment");
    assert("ForeignKeyGrammar"@.len() != "PathSegment"@.len());
    reveal_strlit("ReferenceDefinitionGrammar");
    assert("ForeignKeyGrammar"@.len() != "ReferenceDefinitionGrammar"@.len());
    reveal_strlit("RollupFunctionNameSegment");
    assert("ForeignKeyGrammar"@.len() != "RollupFunctionNameSegment"@.len());
    reveal_strlit("SetClauseSegment");
    assert("ForeignKeyGrammar"@.len() != "SetClauseSegment"@.len());
    reveal_strlit("TrimParametersGrammar");
    assert("ForeignKeyGrammar"@.len() != "TrimParametersGrammar"@.len());
    reveal_strlit("WildcardIdentifierSegment");
    assert("ForeignKeyGrammar"@.len() != "WildcardIdentifierSegment"@.len());
}

proof fn lemma_part_5_keeps_foreign_key_grammar(m: Map<Seq<char>, ElementView>)
    requires
        m.dom().contains("ForeignKeyGrammar"@),
    ensures
        ansi_library_part_5(m).dom().contains("ForeignKeyGrammar"@),
        ansi_library_part_5(m)["ForeignKeyGrammar"@] == m["ForeignKeyGrammar"@],
{
    reveal_strlit("ForeignKeyGrammar");
    reveal_strlit("AlterSequenceOptionsSegment");
    assert("ForeignKeyGrammar"@.len() != "AlterSequenceOptionsSegment"@.len());
    reveal_strlit("CTEColumnList");
    assert("ForeignKeyGrammar"@.len() != "CTEColumnList"@.len());
    reveal_strlit("CTEDefinitionSegment");
    assert("ForeignKeyGrammar"@.len() != "CTEDefinitionSegment"@.len());
    reveal_strlit("ColumnConstraintSegment");
    assert("ForeignKeyGrammar"@.len() != "ColumnConstraintSegment"@.len());
    reveal_strlit("ColumnDefinitionSegment");
    assert("ForeignKeyGrammar"@.len() != "ColumnDefinitionSegment"@.len());
    reveal_strlit("CommentClauseSegment");
    assert("ForeignKeyGrammar"@.len() != "CommentClauseSegment"@.len());
    reveal_strlit("ExtensionReferenceSegment");
    assert("ForeignKeyGrammar"@.len() != "ExtensionReferenceSegment"@.len());
    reveal_strlit("FrameClauseSegment");
    assert("ForeignKeyGrammar"@.len() != "FrameClauseSegment"@.len());
    reveal_strlit("FunctionDefinitionGrammar");
    assert("ForeignKeyGrammar"@.len() != "FunctionDefinitionGrammar"@.len());
    reveal_strlit("GroupByClauseSegment");
    assert("ForeignKeyGrammar"@.len() != "GroupByClauseSegment"@.len());
    reveal_strlit("MergeDeleteClauseSegment");
    assert("ForeignKeyGrammar"@.len() != "MergeDeleteClauseSegment"@.len());
    reveal_strlit("MergeInsertClauseSegment");
    assert("ForeignKeyGrammar"@.len() != "MergeInsertClauseSegment"@.len());
    reveal_strlit("MergeMatchSegment");
    assert("ForeignKeyGrammar"@[0] != "MergeMatchSegment"@[0]);
    reveal_strlit("MergeMatchedClauseSegment");
    assert("ForeignKeyGrammar"@.len() != "MergeMatchedClauseSegment"@.len());
    reveal_strlit("MergeNotMatchedClauseSegment");
    assert("ForeignKeyGrammar"@.len() != "MergeNotMatchedClauseSegment"@.len());
    reveal_strlit("MergeUpdateClauseSegment");
    assert("ForeignKeyGrammar"@.len() != "MergeUpdateClauseSegment"@.len());
    reveal_strlit("RoleReferenceSegment");
    assert("ForeignKeyGrammar"@.len() != "RoleReferenceSegment"@.len());
    reveal_strlit("SchemaReferenceSegment");
    assert("ForeignKeyGrammar"@.len() != "SchemaReferenceSegment"@.len());
    reveal_strlit("SetClauseListSegment");
    assert("ForeignKeyGrammar"@.len() != "SetClauseListSegment"@.len());
    reveal_strlit("SingleIdentifierListSegment");
    assert("ForeignKeyGrammar"@.len() != "SingleIdentifierListSegment"@.len());
    reveal_strlit("TableEndClauseSegment");
    assert("ForeignKeyGrammar"@.len() != "TableEndClauseSegment"@.len());
    reveal_strlit("TablespaceReferenceSegment");
    assert("ForeignKeyGrammar"@.len() != "TablespaceReferenceSegment"@.len());
    reveal_strlit("TagReferenceSegment");
    assert("ForeignKeyGrammar"@.len() != "TagReferenceSegment"@.len());
    reveal_strlit("WithCompoundNonSelectStatementSegment");
    assert("ForeignKeyGrammar"@.len() != "WithCompoundNonSelectStatementSegment"@.len());
    reveal_strlit("WithCompoundStatementSegment");
    assert("ForeignKeyGrammar"@.len() != "WithCompoundStatementSegment"@.len());
}

proof fn lemma_part_6_keeps_foreign_key_grammar(m: Map<Seq<char>, ElementView>)
    requires
        m.dom().contains("ForeignKeyGrammar"@),
    ensures
        ansi_library_part_6(m).dom().contains("ForeignKeyGrammar"@),
        ansi_library_part_6(m)["ForeignKeyGrammar"@] == m["ForeignKeyGrammar"@],
{
    reveal_strlit("ForeignKeyGrammar");
    reveal_strlit("CollationReferenceSegment");
    assert("ForeignKeyGrammar"@.len() != "CollationReferenceSegment"@.len());
    reveal_strlit("CreateSequenceOptionsSegment");
    assert("ForeignKeyGrammar"@.len() != "CreateSequenceOptionsSegment"@.len());
    reveal_strlit("CreateSequenceStatementSegment");
    assert("ForeignKeyGrammar"@.len() != "CreateSequenceStatementSegment"@.len());
    reveal_strlit("CreateTriggerStatementSegment");
    assert("ForeignKeyGrammar"@.len() != "CreateTriggerStatementSegment"@.len());
    reveal_strlit("DatabaseReferenceSegment");
    assert("ForeignKeyGrammar"@.len() != "DatabaseReferenceSegment"@.len());
    reveal_strlit("DescribeStatementSegment");
    assert("ForeignKeyGrammar"@.len() != "DescribeStatementSegment"@.len());
    reveal_strlit("DropModelStatementSegment");
    assert("ForeignKeyGrammar"@.len() != "DropModelStatementSegment"@.len());
    reveal_strlit("DropTriggerStatementSegment");
    assert("ForeignKeyGrammar"@.len() != "DropTriggerStatementSegment"@.len());
    reveal_strlit("ExplainStatementSegment");
    assert("ForeignKeyGrammar"@.len() != "ExplainStatementSegment"@.len());
    reveal_strlit("IndexReferenceSegment");
    assert("ForeignKeyGrammar"@.len() != "IndexReferenceSegment"@.len());
    reveal_strlit("JoinClauseSegment");
    assert("ForeignKeyGrammar"@[0] != "JoinClauseSegment"@[0]);
    reveal_strlit("JoinOnConditionSegment");
    assert("ForeignKeyGrammar"@.len() != "JoinOnConditionSegment"@.len());
    reveal_strlit("NamedWindowSegment");
    assert("ForeignKeyGrammar"@.len() != "NamedWindowSegment"@.len());
    reveal_strlit("OverClauseSegment");
    assert("ForeignKeyGrammar"@[0] != "OverClauseSegment"@[0]);
    reveal_strlit("PartitionClauseSegment");
    assert("ForeignKeyGrammar"@.len() != "PartitionClauseSegment"@.len());
    reveal_strlit("SamplingExpressionSegment");
    assert("ForeignKeyGrammar"@.len() != "SamplingExpressionSegment"@.len());
    reveal_strlit("SequenceReferenceSegment");
    assert("ForeignKeyGrammar"@.len() != "SequenceReferenceSegment"@.len());
    reveal_strlit("TableConstraintSegment");
    assert("ForeignKeyGrammar"@.len() != "TableConstraintSegment"@.len());
    reveal_strlit("TableExpressionSegment");
    assert("ForeignKeyGrammar"@.len() != "TableExpressionSegment"@.len());
    reveal_strlit("TriggerReferenceSegment");
    assert("ForeignKeyGrammar"@.len() != "TriggerReferenceSegment"@.len());
    reveal_strlit("UseStatementSegment");
    assert("ForeignKeyGrammar"@.len() != "UseStatementSegment"@.len());
    reveal_strlit("WindowSpecificationSegment");
    assert("ForeignKeyGrammar"@.len() != "WindowSpecificationSegment"@.len());
}

proof fn lemma_part_7_keeps_foreign_key_grammar(m: Map<Seq<char>, ElementView>)
    requires
        m.dom().contains("ForeignKeyGrammar"@),
    ensures
        ansi_library_part_7(m).dom().contains("ForeignKeyGrammar"@),
        ansi_library_part_7(m)["ForeignKeyGrammar"@] == m["ForeignKeyGrammar"@],
{
    reveal_strlit("ForeignKeyGrammar");
    reveal_strlit("AccessStatementSegment");
    assert("ForeignKeyGrammar"@.len() != "AccessStatementSegment"@.len());
    reveal_strlit("AlterSequenceStatementSegment");
    assert("ForeignKeyGrammar"@.len() != "AlterSequenceStatementSegment"@.len());
    reveal_strlit("AlterTableStatementSegment");
    assert("ForeignKeyGrammar"@.len() != "AlterTableStatementSegment"@.len());
    reveal_strlit("CreateCastStatementSegment");
    assert("ForeignKeyGrammar"@.len() != "CreateCastStatementSegment"@.len());
    reveal_strlit("CreateDatabaseStatementSegment");
    assert("ForeignKeyGrammar"@.len() != "CreateDatabaseStatementSegment"@.len());
    reveal_strlit("CreateFunctionStatementSegment");
    assert("ForeignKeyGrammar"@.len() != "CreateFunctionStatementSegment"@.len());
    reveal_strlit("CreateIndexStatementSegment");
    assert("ForeignKeyGrammar"@.len() != "CreateIndexStatementSegment"@.len());
    reveal_strlit("CreateModelStatementSegment");
    assert("ForeignKeyGrammar"@.len() != "CreateModelStatementSegment"@.len());
    reveal_strlit("CreateRoleStatementSegment");
    assert("ForeignKeyGrammar"@.len() != "CreateRoleStatementSegment"@.len());
    reveal_strlit("CreateTableStatementSegment");
    assert("ForeignKeyGrammar"@.len() != "CreateTableStatementSegment"@.len());
    reveal_strlit("CreateViewStatementSegment");
    assert("ForeignKeyGrammar"@.len() != "CreateViewStatementSegment"@.len());
    reveal_strlit("DeleteStatementSegment");
    assert("ForeignKeyGrammar"@.len() != "DeleteStatementSegment"@.len());
    reveal_strlit("DropCastStatementSegment");
    assert("ForeignKeyGrammar"@.len() != "DropCastStatementSegment"@.len());
    reveal_strlit("DropDatabaseStatementSegment");
    assert("ForeignKeyGrammar"@.len() != "DropDatabaseStatementSegment"@.len());
    reveal_strlit("DropFunctionStatementSegment");
    assert("ForeignKeyGrammar"@.len() != "DropFunctionStatementSegment"@.len());
    reveal_strlit("DropIndexStatementSegment");
    assert("ForeignKeyGrammar"@.len() != "DropIndexStatementSegment"@.len());
    reveal_strlit("DropRoleStatementSegment");
    assert("ForeignKeyGrammar"@.len() != "DropRoleStatementSegment"@.len());
    reveal_strlit("DropSchemaStatementSegment");
    assert("ForeignKeyGrammar"@.len() != "DropSchemaStatementSegment"@.len());
    reveal_strlit("DropSequenceStatementSegment");
    assert("ForeignKeyGrammar"@.len() != "DropSequenceStatementSegment"@.len());
    reveal_strlit("DropTypeStatementSegment");
    assert("ForeignKeyGrammar"@.len() != "DropTypeStatementSegment"@.len());
    reveal_strlit("FunctionParameterListGrammar");
    assert("ForeignKeyGrammar"@.len() != "FunctionParameterListGrammar"@.len());
    reveal_strlit("InsertStatementSegment");
    assert("ForeignKeyGrammar"@.len() != "InsertStatementSegment"@.len());
    reveal_strlit("SetSchemaStatementSegment");
    assert("ForeignKeyGrammar"@.len() != "SetSchemaStatementSegment"@.len());
    reveal_strlit("TransactionStatementSegment");
    assert("ForeignKeyGrammar"@.len() != "TransactionStatementSegment"@.len());
    reveal_strlit("UpdateStatementSegment");
    assert("ForeignKeyGrammar"@.len() != "UpdateStatementSegment"@.len());
}

proof fn lemma_part_8_keeps_foreign_key_grammar(m: Map<Seq<char>, ElementView>)
    requires
        m.dom().contains("ForeignKeyGrammar"@),
    ensures
        ansi_library_part_8(m).dom().contains("ForeignKeyGrammar"@),
        ansi_library_part_8(m)["ForeignKeyGrammar"@] == m["ForeignKeyGrammar"@],
{
    reveal_strlit("ForeignKeyGrammar");
    reveal_strlit("AggregateOrderByClause");
    assert("ForeignKeyGrammar"@.len() != "AggregateOrderByClause"@.len());
    reveal_strlit("ArrayExpressionSegment");
    assert("ForeignKeyGrammar"@.len() != "ArrayExpressionSegment"@.len());
    reveal_strlit("BitwiseAndSegment");
    assert("ForeignKeyGrammar"@[0] != "BitwiseAndSegment"@[0]);
    reveal_strlit("BitwiseLShiftSegment");
    assert("ForeignKeyGrammar"@.len() != "BitwiseLShiftSegment"@.len());
    reveal_strlit("BitwiseOrSegment");
    assert("ForeignKeyGrammar"@.len() != "BitwiseOrSegment"@.len());
    reveal_strlit("BitwiseRShiftSegment");
    assert("ForeignKeyGrammar"@.len() != "BitwiseRShiftSegment"@.len());
    reveal_strlit("ConcatSegment");
    assert("ForeignKeyGrammar"@.len() != "ConcatSegment"@.len());
    reveal_strlit("CreateUserStatementSegment");
    assert("ForeignKeyGrammar"@.len() != "CreateUserStatementSegment"@.len());
    reveal_strlit("DropTableStatementSegment");
    assert("ForeignKeyGrammar"@.len() != "DropTableStatementSegment"@.len());
    reveal_strlit("DropUserStatementSegment");
    assert("ForeignKeyGrammar"@.len() != "DropUserStatementSegment"@.len());
    reveal_strlit("DropViewStatementSegment");
    assert("ForeignKeyGrammar"@.len() != "DropViewStatementSegment"@.len());
    reveal_strlit("ElseClauseSegment");
    assert("ForeignKeyGrammar"@[0] != "ElseClauseSegment"@[0]);
    reveal_strlit("EqualsSegment");
    assert("ForeignKeyGrammar"@.len() != "EqualsSegment"@.len());
    reveal_strlit("FunctionNameSegment");
    assert("ForeignKeyGrammar"@.len() != "FunctionNameSegment"@.len());
    reveal_strlit("GreaterThanOrEqualToSegment");
    assert("ForeignKeyGrammar"@.len() != "GreaterThanOrEqualToSegment"@.len());
    reveal_strlit("GreaterThanSegment");
    assert("ForeignKeyGrammar"@.len() != "GreaterThanSegment"@.len());
    reveal_strlit("IndexColumnDefinitionSegment");
    assert("ForeignKeyGrammar"@.len() != "IndexColumnDefinitionSegment"@.len());
    reveal_strlit("LessThanOrEqualToSegment");
    assert("ForeignKeyGrammar"@.len() != "LessThanOrEqualToSegment"@.len());
    reveal_strlit("LessThanSegment");
    assert("ForeignKeyGrammar"@.len() != "LessThanSegment"@.len());
    reveal_strlit("LocalAliasSegment");
    assert("ForeignKeyGrammar"@[0] != "LocalAliasSegment"@[0]);
    reveal_strlit("MergeStatementSegment");
    assert("ForeignKeyGrammar"@.len() != "MergeStatementSegment"@.len());
    reveal_strlit("NotEqualToSegment");
    assert("ForeignKeyGrammar"@[0] != "NotEqualToSegment"@[0]);
    reveal_strlit("QualifiedNumericLiteralSegment");
    assert("ForeignKeyGrammar"@.len() != "QualifiedNumericLiteralSegment"@.len());
    reveal_strlit("WhenClauseSegment");
    assert("ForeignKeyGrammar"@[0] != "WhenClauseSegment"@[0]);
    reveal_strlit("WhereClauseSegment");
    assert("ForeignKeyGrammar"@.len() != "WhereClauseSegment"@.len());
}

proof fn lemma_part_9_keeps_foreign_key_grammar(m: Map<Seq<char>, ElementView>)
    requires
        m.dom().contains("ForeignKeyGrammar"@),
    ensures
        ansi_library_part_9(m).dom().contains("ForeignKeyGrammar"@),
        ansi_library_part_9(m)["ForeignKeyGrammar"@] == m["ForeignKeyGrammar"@],
{
    reveal_strlit("ForeignKeyGrammar");
    reveal_strlit("AliasExpressionSegment");
    assert("ForeignKeyGrammar"@.len() != "AliasExpressionSegment"@.len());
    reveal_strlit("ArrayAccessorSegment");
    assert("ForeignKeyGrammar"@.len() != "ArrayAccessorSegment"@.len());
    reveal_strlit("ArrayLiteralSegment");
    assert("ForeignKeyGrammar"@.len() != "ArrayLiteralSegment"@.len());
    reveal_strlit("ArrayTypeSegment");
    assert("ForeignKeyGrammar"@.len() != "ArrayTypeSegment"@.len());
    reveal_strlit("BracketedArguments");
    assert("ForeignKeyGrammar"@.len() != "BracketedArguments"@.len());
    reveal_strlit("DatatypeSegment");
    assert("ForeignKeyGrammar"@.len() != "DatatypeSegment"@.len());
    reveal_strlit("EmptyStructLiteralSegment");
    assert("ForeignKeyGrammar"@.len() != "EmptyStructLiteralSegment"@.len());
    reveal_strlit("IntervalExpressionSegment");
    assert("ForeignKeyGrammar"@.len() != "IntervalExpressionSegment"@.len());
    reveal_strlit("ObjectLiteralElementSegment");
    assert("ForeignKeyGrammar"@.len() != "ObjectLiteralElementSegment"@.len());
    reveal_strlit("ObjectLiteralSegment");
    assert("ForeignKeyGrammar"@.len() != "ObjectLiteralSegment"@.len());
    reveal_strlit("OverlapsClauseSegment");
    assert("ForeignKeyGrammar"@.len() != "OverlapsClauseSegment"@.len());
    reveal_strlit("SelectClauseSegment");
    assert("ForeignKeyGrammar"@.len() != "SelectClauseSegment"@.len());
    reveal_strlit("SetOperatorSegment");
    assert("ForeignKeyGrammar"@.len() != "SetOperatorSegment"@.len());
    reveal_strlit("ShorthandCastSegment");
    assert("ForeignKeyGrammar"@.len() != "ShorthandCastSegment"@.len());
    reveal_strlit("SizedArrayTypeSegment");
    assert("ForeignKeyGrammar"@.len() != "SizedArrayTypeSegment"@.len());
    reveal_strlit("StatementSegment");
    assert("ForeignKeyGrammar"@.len() != "StatementSegment"@.len());
    reveal_strlit("StructLiteralSegment");
    assert("ForeignKeyGrammar"@.len() != "StructLiteralSegment"@.len());
    reveal_strlit("StructTypeSegment");
    assert("ForeignKeyGrammar"@[0] != "StructTypeSegment"@[0]);
    reveal_strlit("TimeZoneGrammar");
    assert("ForeignKeyGrammar"@.len() != "TimeZoneGrammar"@.len());
    reveal_strlit("TypedArrayLiteralSegment");
    assert("ForeignKeyGrammar"@.len() != "TypedArrayLiteralSegment"@.len());
    reveal_strlit("TypedStructLiteralSegment");
    assert("ForeignKeyGrammar"@.len() != "TypedStructLiteralSegment"@.len());
    reveal_strlit("UnorderedSelectStatementSegment");
    assert("ForeignKeyGrammar"@.len() != "UnorderedSelectStatementSegment"@.len());
    reveal_strlit("ValuesClauseSegment");
    assert("ForeignKeyGrammar"@.len() != "ValuesClauseSegment"@.len());
    reveal_strlit("WithDataClauseSegment");
    assert("ForeignKeyGrammar"@.len() != "WithDataClauseSegment"@.len());
    reveal_strlit("WithNoSchemaBindingClauseSegment");
    assert("ForeignKeyGrammar"@.len() != "WithNoSchemaBindingClauseSegment"@.len());
}

proof fn lemma_part_10_keeps_foreign_key_grammar(m: Map<Seq<char>, ElementView>)
    requires
        m.dom().contains("ForeignKeyGrammar"@),
    ensures
        ansi_library_part_10(m).dom().contains("ForeignKeyGrammar"@),
        ansi_library_part_10(m)["ForeignKeyGrammar"@] == m["ForeignKeyGrammar"@],
{
    reveal_strlit("ForeignKeyGrammar");
    reveal_strlit("AccessStatementSegmentGrantRoleWithOptionGrammar");
    assert("ForeignKeyGrammar"@.len() != "AccessStatementSegmentGrantRoleWithOptionGrammar"@.len());
    reveal_strlit("AliasedTableReferenceGrammar");
    assert("ForeignKeyGrammar"@.len() != "AliasedTableReferenceGrammar"@.len());
    reveal_strlit("CharCharacterSetGrammar");
    assert("ForeignKeyGrammar"@.len() != "CharCharacterSetGrammar"@.len());
    reveal_strlit("CreateSchemaStatementSegment");
    assert("ForeignKeyGrammar"@.len() != "CreateSchemaStatementSegment"@.len());
    reveal_strlit("DatePartFunctionNameSegment");
    assert("ForeignKeyGrammar"@.len() != "DatePartFunctionNameSegment"@.len());
    reveal_strlit("EmptyStructLiteralBracketsSegment");
    assert("ForeignKeyGrammar"@.len() != "EmptyStructLiteralBracketsSegment"@.len());
    reveal_strlit("Expression_A_Grammar");
    assert("ForeignKeyGrammar"@.len() != "Expression_A_Grammar"@.len());
    reveal_strlit("Expression_A_Unary_Operator_Grammar");
    assert("ForeignKeyGrammar"@.len() != "Expression_A_Unary_Operator_Grammar"@.len());
    reveal_strlit("Expression_B_Unary_Operator_Grammar");
    assert("ForeignKeyGrammar"@.len() != "Expression_B_Unary_Operator_Grammar"@.len());
    reveal_strlit("FromClauseSegment");
    assert("ForeignKeyGrammar"@[1] != "FromClauseSegment"@[1]);
    reveal_strlit("FromExpressionSegment");
    assert("ForeignKeyGrammar"@.len() != "FromExpressionSegment"@.len());
    reveal_strlit("FunctionContentsExpressionGrammar");
    assert("ForeignKeyGrammar"@.len() != "FunctionContentsExpressionGrammar"@.len());
    reveal_strlit("FunctionContentsGrammar");
    assert("ForeignKeyGrammar"@.len() != "FunctionContentsGrammar"@.len());
    reveal_strlit("FunctionContentsSegment");
    assert("ForeignKeyGrammar"@.len() != "FunctionContentsSegment"@.len());
    reveal_strlit("JoinLikeClauseGrammar");
    assert("ForeignKeyGrammar"@.len() != "JoinLikeClauseGrammar"@.len());
    reveal_strlit("OrderByClauseSegment");
    assert("ForeignKeyGrammar"@.len() != "OrderByClauseSegment"@.len());
    reveal_strlit("PostFunctionGrammar");
    assert("ForeignKeyGrammar"@.len() != "PostFunctionGrammar"@.len());
    reveal_strlit("SelectClauseElementSegment");
    assert("ForeignKeyGrammar"@.len() != "SelectClauseElementSegment"@.len());
    reveal_strlit("SelectClauseModifierSegment");
    assert("ForeignKeyGrammar"@.len() != "SelectClauseModifierSegment"@.len());
    reveal_strlit("SelectStatementSegment");
    assert("ForeignKeyGrammar"@.len() != "SelectStatementSegment"@.len());
    reveal_strlit("SetExpressionSegment");
    assert("ForeignKeyGrammar"@.len() != "SetExpressionSegment"@.len());
    reveal_strlit("Tail_Recurse_Expression_A_Grammar");
    assert("ForeignKeyGrammar"@.len() != "Tail_Recurse_Expression_A_Grammar"@.len());
    reveal_strlit("Tail_Recurse_Expression_B_Grammar");
    assert("ForeignKeyGrammar"@.len() != "Tail_Recurse_Expression_B_Grammar"@.len());
    reveal_strlit("TruncateStatementSegment");
    assert("ForeignKeyGrammar"@.len() != "TruncateStatementSegment"@.len());
    reveal_strlit("WildcardExpressionSegment");
    assert("ForeignKeyGrammar"@.len() != "WildcardExpressionSegment"@.len());
}

proof fn lemma_part_11_keeps_foreign_key_grammar(m: Map<Seq<char>, ElementView>)
    requires
        m.dom().contains("ForeignKeyGrammar"@),
    ensures
        ansi_library_part_11(m).dom().contains("ForeignKeyGrammar"@),
        ansi_library_part_11(m)["ForeignKeyGrammar"@] == m["ForeignKeyGrammar"@],
{
    reveal_strlit("ForeignKeyGrammar");
    reveal_strlit("AccessorGrammar");
    assert("ForeignKeyGrammar"@.len() != "AccessorGrammar"@.len());
    reveal_strlit("Expression_B_Grammar");
    assert("ForeignKeyGrammar"@.len() != "Expression_B_Grammar"@.len());
    reveal_strlit("Expression_C_Grammar");
    assert("ForeignKeyGrammar"@.len() != "Expression_C_Grammar"@.len());
    reveal_strlit("Expression_D_Grammar");
    assert("ForeignKeyGrammar"@.len() != "Expression_D_Grammar"@.len());
    reveal_strlit("NonSetSelectableGrammar");
    assert("ForeignKeyGrammar"@.len() != "NonSetSelectableGrammar"@.len());
    reveal_strlit("NonWithNonSelectableGrammar");
    assert("ForeignKeyGrammar"@.len() != "NonWithNonSelectableGrammar"@.len());
    reveal_strlit("NonWithSelectableGrammar");
    assert("ForeignKeyGrammar"@.len() != "NonWithSelectableGrammar"@.len());
    reveal_strlit("PostTableExpressionGrammar");
    assert("ForeignKeyGrammar"@.len() != "PostTableExpressionGrammar"@.len());
    reveal_strlit("SelectableGrammar");
    assert("ForeignKeyGrammar"@[0] != "SelectableGrammar"@[0]);
    reveal_strlit("TimeWithTZGrammar");
    assert("ForeignKeyGrammar"@[0] != "TimeWithTZGrammar"@[0]);
}

/// The ANSI library holds `ForeignKeyGrammar`: the value of its last entry of that name.
pub proof fn lemma_ansi_library_foreign_key_grammar(lib: Map<Seq<char>, ElementView>)
    ensures
        ansi_library(lib).dom().contains("ForeignKeyGrammar"@),
        ansi_library(lib)["ForeignKeyGrammar"@] == foreign_key_grammar_element(),
{
    reveal(ansi_library);
    let m0 = lib;
    let m1 = ansi_library_part_0(m0);
    let m2 = ansi_library_part_1(m1);
    let m3 = ansi_library_part_2(m2);
    let m4 = ansi_library_part_3(m3);
    let m5 = ansi_library_part_4(m4);
    let m6 = ansi_library_part_5(m5);
    let m7 = ansi_library_part_6(m6);
    let m8 = ansi_library_part_7(m7);
    let m9 = ansi_library_part_8(m8);
    let m10 = ansi_library_part_9(m9);
    let m11 = ansi_library_part_10(m10);
    let m12 = ansi_library_part_11(m11);
    lemma_part_3_sets_foreign_key_grammar(m3);
    lemma_part_4_keeps_foreign_key_grammar(m4);
    lemma_part_5_keeps_foreign_key_grammar(m5);
    lemma_part_6_keeps_foreign_key_grammar(m6);
    lemma_part_7_keeps_foreign_key_grammar(m7);
    lemma_part_8_keeps_foreign_key_grammar(m8);
    lemma_part_9_keeps_foreign_key_grammar(m9);
    lemma_part_10_keeps_foreign_key_grammar(m10);
    lemma_part_11_keeps_foreign_key_grammar(m11);
}

proof fn lemma_part_3_sets_unique_key_grammar(m: Map<Seq<char>, ElementView>)
    ensures
        ansi_library_part_3(m).dom().contains("UniqueKeyGrammar"@),
        ansi_library_part_3(m)["UniqueKeyGrammar"@] == unique_key_grammar_element(),
{
    reveal_strlit("UniqueKeyGrammar");
    reveal_strlit("AutoIncrementGrammar");
    assert("UniqueKeyGrammar"@.len() != "AutoIncrementGrammar"@.len());
    reveal_strlit("BaseExpressionElementGrammar");
    assert("UniqueKeyGrammar"@.len() != "BaseExpressionElementGrammar"@.len());
    reveal_strlit("DropBehaviorGrammar");
    assert("UniqueKeyGrammar"@.len() != "DropBehaviorGrammar"@.len());
    reveal_strlit("ExtendedNaturalJoinKeywordsGrammar");
    assert("UniqueKeyGrammar"@.len() != "ExtendedNaturalJoinKeywordsGrammar"@.len());
    reveal_strlit("FilterClauseGrammar");
    assert("UniqueKeyGrammar"@.len() != "FilterClauseGrammar"@.len());
    reveal_strlit("FrameClauseUnitGrammar");
    assert("UniqueKeyGrammar"@.len() != "FrameClauseUnitGrammar"@.len());
    reveal_strlit("FunctionParameterGrammar");
    assert("UniqueKeyGrammar"@.len() != "FunctionParameterGrammar"@.len());
    reveal_strlit("IgnoreRespectNullsGrammar");
    assert("UniqueKeyGrammar"@.len() != "IgnoreRespectNullsGrammar"@.len());
    reveal_strlit("JoinKeywordsGrammar");
    assert("UniqueKeyGrammar"@.len() != "JoinKeywordsGrammar"@.len());
    reveal_strlit("JoinTypeKeywordsGrammar");
    assert("UniqueKeyGrammar"@.len() != "JoinTypeKeywordsGrammar"@.len());
    reveal_strlit("NaturalJoinKeywordsGrammar");
    assert("UniqueKeyGrammar"@.len() != "NaturalJoinKeywordsGrammar"@.len());
    reveal_strlit("NestedJoinGrammar");
    assert("UniqueKeyGrammar"@.len() != "NestedJoinGrammar"@.len());
    reveal_strlit("ReferentialActionGrammar");
    assert("UniqueKeyGrammar"@.len() != "ReferentialActionGrammar"@.len());
}

proof fn lemma_part_4_keeps_unique_key_grammar(m: Map<Seq<char>, ElementView>)
    requires
        m.dom().contains("UniqueKeyGrammar"@),
    ensures
        ansi_library_part_4(m).dom().contains("UniqueKeyGrammar"@),
        ansi_library_part_4(m)["UniqueKeyGrammar"@] == m["UniqueKeyGrammar"@],
{
    reveal_strlit("UniqueKeyGrammar");
    reveal_strlit("AlterTableDropColumnGrammar");
    assert("UniqueKeyGrammar"@.len() != "AlterTableDropColumnGrammar"@.len());
    reveal_strlit("AlterTableOptionsGrammar");
    assert("UniqueKeyGrammar"@.len() != "AlterTableOptionsGrammar"@.len());
    reveal_strlit("ColumnConstraintDefaultGrammar");
    assert("UniqueKeyGrammar"@.len() != "ColumnConstraintDefaultGrammar"@.len());
    reveal_strlit("ColumnReferenceSegment");
    assert("UniqueKeyGrammar"@.len() != "ColumnReferenceSegment"@.len());
    reveal_strlit("CubeFunctionNameSegment");
    assert("UniqueKeyGrammar"@.len() != "CubeFunctionNameSegment"@.len());
    reveal_strlit("CubeRollupClauseSegment");
    assert("UniqueKeyGrammar"@.len() != "CubeRollupClauseSegment"@.len());
    reveal_strlit("DateTimeFunctionContentsSegment");
    assert("UniqueKeyGrammar"@.len() != "DateTimeFunctionContentsSegment"@.len());
    reveal_strlit("DefaultValuesGrammar");
    assert("UniqueKeyGrammar"@.len() != "DefaultValuesGrammar"@.len());
    reveal_strlit("ExpressionSegment");
    assert("UniqueKeyGrammar"@.len() != "ExpressionSegment"@.len());
    reveal_strlit("FetchClauseSegment");
    assert("UniqueKeyGrammar"@.len() != "FetchClauseSegment"@.len());
    reveal_strlit("FileSegment");
    assert("UniqueKeyGrammar"@.len() != "FileSegment"@.len());
    reveal_strlit("FunctionSegment");
    assert("UniqueKeyGrammar"@.len() != "FunctionSegment"@.len());
    reveal_strlit("GroupingExpressionList");
    assert("UniqueKeyGrammar"@.len() != "GroupingExpressionList"@.len());
    reveal_strlit("GroupingSetsClauseSegment");
    assert("UniqueKeyGrammar"@.len() != "GroupingSetsClauseSegment"@.len());
    reveal_strlit("HavingClauseSegment");
    assert("UniqueKeyGrammar"@.len() != "HavingClauseSegment"@.len());
    reveal_strlit("LimitClauseSegment");
    assert("UniqueKeyGrammar"@.len() != "LimitClauseSegment"@.len());
    reveal_strlit("NamedWindowExpressionSegment");
    assert("UniqueKeyGrammar"@.len() != "NamedWindowExpressionSegment"@.len());
    reveal_strlit("ObjectReferenceDelimiterGrammar");
    assert("UniqueKeyGrammar"@.len() != "ObjectReferenceDelimiterGrammar"@.len());
    reveal_strlit("ObjectReferenceTerminatorGrammar");
    assert("UniqueKeyGrammar"@.len() != "ObjectReferenceTerminatorGrammar"@.len());
    reveal_strlit("PathSegment");
    assert("UniqueKeyGrammar"@.len() != "PathSegment"@.len());
    reveal_strlit("ReferenceDefinitionGrammar");
    assert("UniqueKeyGrammar"@.len() != "ReferenceDefinitionGrammar"@.len());
    reveal_strlit("RollupFunctionNameSegment");
    assert("UniqueKeyGrammar"@.len() != "RollupFunctionNameSegment"@.len());
    reveal_strlit("SetClauseSegment");
    assert("UniqueKeyGrammar"@[0] != "SetClauseSegment"@[0]);
    reveal_strlit("TrimParametersGrammar");
    assert("UniqueKeyGrammar"@.len() != "TrimParametersGrammar"@.len());
    reveal_strlit("WildcardIdentifierSegment");
    assert("UniqueKeyGrammar"@.len() != "WildcardIdentifierSegment"@.len());
}

proof fn lemma_part_5_keeps_unique_key_grammar(m: Map<Seq<char>, ElementView>)
    requires
        m.dom().contains("UniqueKeyGrammar"@),
    ensures
        ansi_library_part_5(m).dom().contains("UniqueKeyGrammar"@),
        ansi_library_part_5(m)["UniqueKeyGrammar"@] == m["UniqueKeyGrammar"@],
{
    reveal_strlit("UniqueKeyGrammar");
    reveal_strlit("AlterSequenceOptionsSegment");
    assert("UniqueKeyGrammar"@.len() != "AlterSequenceOptionsSegment"@.len());
    reveal_strlit("CTEColumnList");
    assert("UniqueKeyGrammar"@.len() != "CTEColumnList"@.len());
    reveal_strlit("CTEDefinitionSegment");
    assert("UniqueKeyGrammar"@.len() != "CTEDefinitionSegment"@.len());
    reveal_strlit("ColumnConstraintSegment");
    assert("UniqueKeyGrammar"@.len() != "ColumnConstraintSegment"@.len());
    reveal_strlit("ColumnDefinitionSegment");
    assert("UniqueKeyGrammar"@.len() != "ColumnDefinitionSegment"@.len());
    reveal_strlit("CommentClauseSegment");
    assert("UniqueKeyGrammar"@.len() != "CommentClauseSegment"@.len());
    reveal_strlit("ExtensionReferenceSegment");
    assert("UniqueKeyGrammar"@.len() != "ExtensionReferenceSegment"@.len());
    reveal_strlit("FrameClauseSegment");
    assert("UniqueKeyGrammar"@.len() != "FrameClauseSegment"@.len());
    reveal_strlit("FunctionDefinitionGrammar");
    assert("UniqueKeyGrammar"@.len() != "FunctionDefinitionGrammar"@.len());
    reveal_strlit("GroupByClauseSegment");
    assert("UniqueKeyGrammar"@.len() != "GroupByClauseSegment"@.len());
    reveal_strlit("MergeDeleteClauseSegment");
    assert("UniqueKeyGrammar"@.len() != "MergeDeleteClauseSegment"@.len());
    reveal_strlit("MergeInsertClauseSegment");
    assert("UniqueKeyGrammar"@.len() != "MergeInsertClauseSegment"@.len());
    reveal_strlit("MergeMatchSegment");
    assert("UniqueKeyGrammar"@.len() != "MergeMatchSegment"@.len());
    reveal_strlit("MergeMatchedClauseSegment");
    assert("UniqueKeyGrammar"@.len() != "MergeMatchedClauseSegment"@.len());
    reveal_strlit("MergeNotMatchedClauseSegment");
    assert("UniqueKeyGrammar"@.len() != "MergeNotMatchedClauseSegment"@.len());
    reveal_strlit("MergeUpdateClauseSegment");
    assert("UniqueKeyGrammar"@.len() != "MergeUpdateClauseSegment"@.len());
    reveal_strlit("RoleReferenceSegment");
    assert("UniqueKeyGrammar"@.len() != "RoleReferenceSegment"@.len());
    reveal_strlit("SchemaReferenceSegment");
    assert("UniqueKeyGrammar"@.len() != "SchemaReferenceSegment"@.len());
    reveal_strlit("SetClauseListSegment");
    assert("UniqueKeyGrammar"@.len() != "SetClauseListSegment"@.len());
    reveal_strlit("SingleIdentifierListSegment");
    assert("UniqueKeyGrammar"@.len() != "SingleIdentifierListSegment"@.len());
    reveal_strlit("TableEndClauseSegment");
    assert("UniqueKeyGrammar"@.len() != "TableEndClauseSegment"@.len());
    reveal_strlit("TablespaceReferenceSegment");
    assert("UniqueKeyGrammar"@.len() != "TablespaceReferenceSegment"@.len());
    reveal_strlit("TagReferenceSegment");
    assert("UniqueKeyGrammar"@.len() != "TagReferenceSegment"@.len());
    reveal_strlit("WithCompoundNonSelectStatementSegment");
    assert("UniqueKeyGrammar"@.len() != "WithCompoundNonSelectStatementSegment"@.len());
    reveal_strlit("WithCompoundStatementSegment");
    assert("UniqueKeyGrammar"@.len() != "WithCompoundStatementSegment"@.len());
}

proof fn lemma_part_6_keeps_unique_key_grammar(m: Map<Seq<char>, ElementView>)
    requires
        m.dom().contains("UniqueKeyGrammar"@),
    ensures
        ansi_library_part_6(m).dom().contains("UniqueKeyGrammar"@),
        ansi_library_part_6(m)["UniqueKeyGrammar"@] == m["UniqueKeyGrammar"@],
{
    reveal_strlit("UniqueKeyGrammar");
    reveal_strlit("CollationReferenceSegment");
    assert("UniqueKeyGrammar"@.len() != "CollationReferenceSegment"@.len());
    reveal_strlit("CreateSequenceOptionsSegment");
    assert("UniqueKeyGrammar"@.len() != "CreateSequenceOptionsSegment"@.len());
    reveal_strlit("CreateSequenceStatementSegment");
    assert("UniqueKeyGrammar"@.len() != "CreateSequenceStatementSegment"@.len());
    reveal_strlit("CreateTriggerStatementSegment");
    assert("UniqueKeyGrammar"@.len() != "CreateTriggerStatementSegment"@.len());
    reveal_strlit("DatabaseReferenceSegment");
    assert("UniqueKeyGrammar"@.len() != "DatabaseReferenceSegment"@.len());
    reveal_strlit("DescribeStatementSegment");
    assert("UniqueKeyGrammar"@.len() != "DescribeStatementSegment"@.len());
    reveal_strlit("DropModelStatementSegment");
    assert("UniqueKeyGrammar"@.len() != "DropModelStatementSegment"@.len());
    reveal_strlit("DropTriggerStatementSegment");
    assert("UniqueKeyGrammar"@.len() != "DropTriggerStatementSegment"@.len());
    reveal_strlit("ExplainStatementSegment");
    assert("UniqueKeyGrammar"@.len() != "ExplainStatementSegment"@.len());
    reveal_strlit("IndexReferenceSegment");
    assert("UniqueKeyGrammar"@.len() != "IndexReferenceSegment"@.len());
    reveal_strlit("JoinClauseSegment");
    assert("UniqueKeyGrammar"@.len() != "JoinClauseSegment"@.len());
    reveal_strlit("JoinOnConditionSegment");
    assert("UniqueKeyGrammar"@.len() != "JoinOnConditionSegment"@.len());
    reveal_strlit("NamedWindowSegment");
    assert("UniqueKeyGrammar"@.len() != "NamedWindowSegment"@.len());
    reveal_strlit("OverClauseSegment");
    assert("UniqueKeyGrammar"@.len() != "OverClauseSegment"@.len());
    reveal_strlit("PartitionClauseSegment");
    assert("UniqueKeyGrammar"@.len() != "PartitionClauseSegment"@.len());
    reveal_strlit("SamplingExpressionSegment");
    assert("UniqueKeyGrammar"@.len() != "SamplingExpressionSegment"@.len());
    reveal_strlit("SequenceReferenceSegment");
    assert("UniqueKeyGrammar"@.len() != "SequenceReferenceSegment"@.len());
    reveal_strlit("TableConstraintSegment");
    assert("UniqueKeyGrammar"@.len() != "TableConstraintSegment"@.len());
    reveal_strlit("TableExpressionSegment");
    assert("UniqueKeyGrammar"@.len() != "TableExpressionSegment"@.len());
    reveal_strlit("TriggerReferenceSegment");
    assert("UniqueKeyGrammar"@.len() != "TriggerReferenceSegment"@.len());
    reveal_strlit("UseStatementSegment");
    assert("UniqueKeyGrammar"@.len() != "UseStatementSegment"@.len());
    reveal_strlit("WindowSpecificationSegment");
    assert("UniqueKeyGrammar"@.len() != "WindowSpecificationSegment"@.len());
}

proof fn lemma_part_7_keeps_unique_key_grammar(m: Map<Seq<char>, ElementView>)
    requires
        m.dom().contains("UniqueKeyGrammar"@),
    ensures
        ansi_library_part_7(m).dom().contains("UniqueKeyGrammar"@),
        ansi_library_part_7(m)["UniqueKeyGrammar"@] == m["UniqueKeyGrammar"@],
{
    reveal_strlit("UniqueKeyGrammar");
    reveal_strlit("AccessStatementSegment");
    assert("UniqueKeyGrammar"@.len() != "AccessStatementSegment"@.len());
    reveal_strlit("AlterSequenceStatementSegment");
    assert("UniqueKeyGrammar"@.len() != "AlterSequenceStatementSegment"@.len());
    reveal_strlit("AlterTableStatementSegment");
    assert("UniqueKeyGrammar"@.len() != "AlterTableStatementSegment"@.len());
    reveal_strlit("CreateCastStatementSegment");
    assert("UniqueKeyGrammar"@.len() != "CreateCastStatementSegment"@.len());
    reveal_strlit("CreateDatabaseStatementSegment");
    assert("UniqueKeyGrammar"@.len() != "CreateDatabaseStatementSegment"@.len());
    reveal_strlit("CreateFunctionStatementSegment");
    assert("UniqueKeyGrammar"@.len() != "CreateFunctionStatementSegment"@.len());
    reveal_strlit("CreateIndexStatementSegment");
    assert("UniqueKeyGrammar"@.len() != "CreateIndexStatementSegment"@.len());
    reveal_strlit("CreateModelStatementSegment");
    assert("UniqueKeyGrammar"@.len() != "CreateModelStatementSegment"@.len());
    reveal_strlit("CreateRoleStatementSegment");
    assert("UniqueKeyGrammar"@.len() != "CreateRoleStatementSegment"@.len());
    reveal_strlit("CreateTableStatementSegment");
    assert("UniqueKeyGrammar"@.len() != "CreateTableStatementSegment"@.len());
    reveal_strlit("CreateViewStatementSegment");
    assert("UniqueKeyGrammar"@.len() != "CreateViewStatementSegment"@.len());
    reveal_strlit("DeleteStatementSegment");
    assert("UniqueKeyGrammar"@.len() != "DeleteStatementSegment"@.len());
    reveal_strlit("DropCastStatementSegment");
    assert("UniqueKeyGrammar"@.len() != "DropCastStatementSegment"@.len());
    reveal_strlit("DropDatabaseStatementSegment");
    assert("UniqueKeyGrammar"@.len() != "DropDatabaseStatementSegment"@.len());
    reveal_strlit("DropFunctionStatementSegment");
    assert("UniqueKeyGrammar"@.len() != "DropFunctionStatementSegment"@.len());
    reveal_strlit("DropIndexStatementSegment");
    assert("UniqueKeyGrammar"@.len() != "DropIndexStatementSegment"@.len());
    reveal_strlit("DropRoleStatementSegment");
    assert("UniqueKeyGrammar"@.len() != "DropRoleStatementSegment"@.len());
    reveal_strlit("DropSchemaStatementSegment");
    assert("UniqueKeyGrammar"@.len() != "DropSchemaStatementSegment"@.len());
    reveal_strlit("DropSequenceStatementSegment");
    assert("UniqueKeyGrammar"@.len() != "DropSequenceStatementSegment"@.len());
    reveal_strlit("DropTypeStatementSegment");
    assert("UniqueKeyGrammar"@.len() != "DropTypeStatementSegment"@.len());
    reveal_strlit("FunctionParameterListGrammar");
    assert("UniqueKeyGrammar"@.len() != "FunctionParameterListGrammar"@.len());
    reveal_strlit("InsertStatementSegment");
    assert("UniqueKeyGrammar"@.len() != "InsertStatementSegment"@.len());
    reveal_strlit("SetSchemaStatementSegment");
    assert("UniqueKeyGrammar"@.len() != "SetSchemaStatementSegment"@.len());
    reveal_strlit("TransactionStatementSegment");
    assert("UniqueKeyGrammar"@.len() != "TransactionStatementSegment"@.len());
    reveal_strlit("UpdateStatementSegment");
    assert("UniqueKeyGrammar"@.len() != "UpdateStatementSegment"@.len());
}

proof fn lemma_part_8_keeps_unique_key_grammar(m: Map<Seq<char>, ElementView>)
    requires
        m.dom().contains("UniqueKeyGrammar"@),
    ensures
        ansi_library_part_8(m).dom().contains("UniqueKeyGrammar"@),
        ansi_library_part_8(m)["UniqueKeyGrammar"@] == m["UniqueKeyGrammar"@],
{
    reveal_strlit("UniqueKeyGrammar");
    reveal_strlit("AggregateOrderByClause");
    assert("UniqueKeyGrammar"@.len() != "AggregateOrderByClause"@.len());
    reveal_strlit("ArrayExpressionSegment");
    assert("UniqueKeyGrammar"@.len() != "ArrayExpressionSegment"@.len());
    reveal_strlit("BitwiseAndSegment");
    assert("UniqueKeyGrammar"@.len() != "BitwiseAndSegment"@.len());
    reveal_strlit("BitwiseLShiftSegment");
    assert("UniqueKeyGrammar"@.len() != "BitwiseLShiftSegment"@.len());
    reveal_strlit("BitwiseOrSegment");
    assert("UniqueKeyGrammar"@[0] != "BitwiseOrSegment"@[0]);
    reveal_strlit("BitwiseRShiftSegment");
    assert("UniqueKeyGrammar"@.len() != "BitwiseRShiftSegment"@.len());
    reveal_strlit("ConcatSegment");
    assert("UniqueKeyGrammar"@.len() != "ConcatSegment"@.len());
    reveal_strlit("CreateUserStatementSegment");
    assert("UniqueKeyGrammar"@.len() != "CreateUserStatementSegment"@.len());
    reveal_strlit("DropTableStatementSegment");
    assert("UniqueKeyGrammar"@.len() != "DropTableStatementSegment"@.len());
    reveal_strlit("DropUserStatementSegment");
    assert("UniqueKeyGrammar"@.len() != "DropUserStatementSegment"@.len());
    reveal_strlit("DropViewStatementSegment");
    assert("UniqueKeyGrammar"@.len() != "DropViewStatementSegment"@.len());
    reveal_strlit("ElseClauseSegment");
    assert("UniqueKeyGrammar"@.len() != "ElseClauseSegment"@.len());
    reveal_strlit("EqualsSegment");
    assert("UniqueKeyGrammar"@.len() != "EqualsSegment"@.len());
    reveal_strlit("FunctionNameSegment");
    assert("UniqueKeyGrammar"@.len() != "FunctionNameSegment"@.len());
    reveal_strlit("GreaterThanOrEqualToSegment");
    assert("UniqueKeyGrammar"@.len() != "GreaterThanOrEqualToSegment"@.len());
    reveal_strlit("GreaterThanSegment");
    assert("UniqueKeyGrammar"@.len() != "GreaterThanSegment"@.len());
    reveal_strlit("IndexColumnDefinitionSegment");
    assert("UniqueKeyGrammar"@.len() != "IndexColumnDefinitionSegment"@.len());
    reveal_strlit("LessThanOrEqualToSegment");
    assert("UniqueKeyGrammar"@.len() != "LessThanOrEqualToSegment"@.len());
    reveal_strlit("LessThanSegment");
    assert("UniqueKeyGrammar"@.len() != "LessThanSegment"@.len());
    reveal_strlit("LocalAliasSegment");
    assert("UniqueKeyGrammar"@.len() != "LocalAliasSegment"@.len());
    reveal_strlit("MergeStatementSegment");
    assert("UniqueKeyGrammar"@.len() != "MergeStatementSegment"@.len());
    reveal_strlit("NotEqualToSegment");
    assert("UniqueKeyGrammar"@.len() != "NotEqualToSegment"@.len());
    reveal_strlit("QualifiedNumericLiteralSegment");
    assert("UniqueKeyGrammar"@.len() != "QualifiedNumericLiteralSegment"@.len());
    reveal_strlit("WhenClauseSegment");
    assert("UniqueKeyGrammar"@.len() != "WhenClauseSegment"@.len());
    reveal_strlit("WhereClauseSegment");
    assert("UniqueKeyGrammar"@.len() != "WhereClauseSegment"@.len());
}

proof fn lemma_part_9_keeps_unique_key_grammar(m: Map<Seq<char>, ElementView>)
    requires
        m.dom().contains("UniqueKeyGrammar"@),
    ensures
        ansi_library_part_9(m).dom().contains("UniqueKeyGrammar"@),
        ansi_library_part_9(m)["UniqueKeyGrammar"@] == m["UniqueKeyGrammar"@],
{
    reveal_strlit("UniqueKeyGrammar");
    reveal_strlit("AliasExpressionSegment");
    assert("UniqueKeyGrammar"@.len() != "AliasExpressionSegment"@.len());
    reveal_strlit("ArrayAccessorSegment");
    assert("UniqueKeyGrammar"@.len() != "ArrayAccessorSegment"@.len());
    reveal_strlit("ArrayLiteralSegment");
    assert("UniqueKeyGrammar"@.len() != "ArrayLiteralSegment"@.len());
    reveal_strlit("ArrayTypeSegment");
    assert("UniqueKeyGrammar"@[0] != "ArrayTypeSegment"@[0]);
    reveal_strlit("BracketedArguments");
    assert("UniqueKeyGrammar"@.len() != "BracketedArguments"@.len());
    reveal_strlit("DatatypeSegment");
    assert("UniqueKeyGrammar"@.len() != "DatatypeSegment"@.len());
    reveal_strlit("EmptyStructLiteralSegment");
    assert("UniqueKeyGrammar"@.len() != "EmptyStructLiteralSegment"@.len());
    reveal_strlit("IntervalExpressionSegment");
    assert("UniqueKeyGrammar"@.len() != "IntervalExpressionSegment"@.len());
    reveal_strlit("ObjectLiteralElementSegment");
    assert("UniqueKeyGrammar"@.len() != "ObjectLiteralElementSegment"@.len());
    reveal_strlit("ObjectLiteralSegment");
    assert("UniqueKeyGrammar"@.len() != "ObjectLiteralSegment"@.len());
    reveal_strlit("OverlapsClauseSegment");
    assert("UniqueKeyGrammar"@.len() != "OverlapsClauseSegment"@.len());
    reveal_strlit("SelectClauseSegment");
    assert("UniqueKeyGrammar"@.len() != "SelectClauseSegment"@.len());
    reveal_strlit("SetOperatorSegment");
    assert("UniqueKeyGrammar"@.len() != "SetOperatorSegment"@.len());
    reveal_strlit("ShorthandCastSegment");
    assert("UniqueKeyGrammar"@.len() != "ShorthandCastSegment"@.len());
    reveal_strlit("SizedArrayTypeSegment");
    assert("UniqueKeyGrammar"@.len() != "SizedArrayTypeSegment"@.len());
    reveal_strlit("StatementSegment");
    assert("UniqueKeyGrammar"@[0] != "StatementSegment"@[0]);
    reveal_strlit("StructLiteralSegment");
    assert("UniqueKeyGrammar"@.len() != "StructLiteralSegment"@.len());
    reveal_strlit("StructTypeSegment");
    assert("UniqueKeyGrammar"@.len() != "StructTypeSegment"@.len());
    reveal_strlit("TimeZoneGrammar");
    assert("UniqueKeyGrammar"@.len() != "TimeZoneGrammar"@.len());
    reveal_strlit("TypedArrayLiteralSegment");
    assert("UniqueKeyGrammar"@.len() != "TypedArrayLiteralSegment"@.len());
    reveal_strlit("TypedStructLiteralSegment");
    assert("UniqueKeyGrammar"@.len() != "TypedStructLiteralSegment"@.len());
    reveal_strlit("UnorderedSelectStatementSegment");
    assert("UniqueKeyGrammar"@.len() != "UnorderedSelectStatementSegment"@.len());
    reveal_strlit("ValuesClauseSegment");
    assert("UniqueKeyGrammar"@.len() != "ValuesClauseSegment"@.len());
    reveal_strlit("WithDataClauseSegment");
    assert("UniqueKeyGrammar"@.len() != "WithDataClauseSegment"@.len());
    reveal_strlit("WithNoSchemaBindingClauseSegment");
    assert("UniqueKeyGrammar"@.len() != "WithNoSchemaBindingClauseSegment"@.len());
}

proof fn lemma_part_10_keeps_unique_key_grammar(m: Map<Seq<char>, ElementView>)
    requires
        m.dom().contains("UniqueKeyGrammar"@),
    ensures
        ansi_library_part_10(m).dom().contains("UniqueKeyGrammar"@),
        ansi_library_part_10(m)["UniqueKeyGrammar"@] == m["UniqueKeyGrammar"@],
{
    reveal_strlit("UniqueKeyGrammar");
    reveal_strlit("AccessStatementSegmentGrantRoleWithOptionGrammar");
    assert("UniqueKeyGrammar"@.len() != "AccessStatementSegmentGrantRoleWithOptionGrammar"@.len());
    reveal_strlit("AliasedTableReferenceGrammar");
    assert("UniqueKeyGrammar"@.len() != "AliasedTableReferenceGrammar"@.len());
    reveal_strlit("CharCharacterSetGrammar");
    assert("UniqueKeyGrammar"@.len() != "CharCharacterSetGrammar"@.len());
    reveal_strlit("CreateSchemaStatementSegment");
    assert("UniqueKeyGrammar"@.len() != "CreateSchemaStatementSegment"@.len());
    reveal_strlit("DatePartFunctionNameSegment");
    assert("UniqueKeyGrammar"@.len() != "DatePartFunctionNameSegment"@.len());
    reveal_strlit("EmptyStructLiteralBracketsSegment");
    assert("UniqueKeyGrammar"@.len() != "EmptyStructLiteralBracketsSegment"@.len());
    reveal_strlit("Expression_A_Grammar");
    assert("UniqueKeyGrammar"@.len() != "Expression_A_Grammar"@.len());
    reveal_strlit("Expression_A_Unary_Operator_Grammar");
    assert("UniqueKeyGrammar"@.len() != "Expression_A_Unary_Operator_Grammar"@.len());
    reveal_strlit("Expression_B_Unary_Operator_Grammar");
    assert("UniqueKeyGrammar"@.len() != "Expression_B_Unary_Operator_Grammar"@.len());
    reveal_strlit("FromClauseSegment");
    assert("UniqueKeyGrammar"@.len() != "FromClauseSegment"@.len());
    reveal_strlit("FromExpressionSegment");
    assert("UniqueKeyGrammar"@.len() != "FromExpressionSegment"@.len());
    reveal_strlit("FunctionContentsExpressionGrammar");
    assert("UniqueKeyGrammar"@.len() != "FunctionContentsExpressionGrammar"@.len());
    reveal_strlit("FunctionContentsGrammar");
    assert("UniqueKeyGrammar"@.len() != "FunctionContentsGrammar"@.len());
    reveal_strlit("FunctionContentsSegment");
    assert("UniqueKeyGrammar"@.len() != "FunctionContentsSegment"@.len());
    reveal_strlit("JoinLikeClauseGrammar");
    assert("UniqueKeyGrammar"@.len() != "JoinLikeClauseGrammar"@.len());
    reveal_strlit("OrderByClauseSegment");
    assert("UniqueKeyGrammar"@.len() != "OrderByClauseSegment"@.len());
    reveal_strlit("PostFunctionGrammar");
    assert("UniqueKeyGrammar"@.len() != "PostFunctionGrammar"@.len());
    reveal_strlit("SelectClauseElementSegment");
    assert("UniqueKeyGrammar"@.len() != "SelectClauseElementSegment"@.len());
    reveal_strlit("SelectClauseModifierSegment");
    assert("UniqueKeyGrammar"@.len() != "SelectClauseModifierSegment"@.len());
    reveal_strlit("SelectStatementSegment");
    assert("UniqueKeyGrammar"@.len() != "SelectStatementSegment"@.len());
    reveal_strlit("SetExpressionSegment");
    assert("UniqueKeyGrammar"@.len() != "SetExpressionSegment"@.len());
    reveal_strlit("Tail_Recurse_Expression_A_Grammar");
    assert("UniqueKeyGrammar"@.len() != "Tail_Recurse_Expression_A_Grammar"@.len());
    reveal_strlit("Tail_Recurse_Expression_B_Grammar");
    assert("UniqueKeyGrammar"@.len() != "Tail_Recurse_Expression_B_Grammar"@.len());
    reveal_strlit("TruncateStatementSegment");
    assert("UniqueKeyGrammar"@.len() != "TruncateStatementSegment"@.len());
    reveal_strlit("WildcardExpressionSegment");
    assert("UniqueKeyGrammar"@.len() != "WildcardExpressionSegment"@.len());
}

proof fn lemma_part_11_keeps_unique_key_grammar(m: Map<Seq<char>, ElementView>)
    requires
        m.dom().contains("UniqueKeyGrammar"@),
    ensures
        ansi_library_part_11(m).dom().contains("UniqueKeyGrammar"@),
        ansi_library_part_11(m)["UniqueKeyGrammar"@] == m["UniqueKeyGrammar"@],
{
    reveal_strlit("UniqueKeyGrammar");
    reveal_strlit("AccessorGrammar");
    assert("UniqueKeyGrammar"@.len() != "AccessorGrammar"@.len());
    reveal_strlit("Expression_B_Grammar");
    assert("UniqueKeyGrammar"@.len() != "Expression_B_Grammar"@.len());
    reveal_strlit("Expression_C_Grammar");
    assert("UniqueKeyGrammar"@.len() != "Expression_C_Grammar"@.len());
    reveal_strlit("Expression_D_Grammar");
    assert("UniqueKeyGrammar"@.len() != "Expression_D_Grammar"@.len());
    reveal_strlit("NonSetSelectableGrammar");
    assert("UniqueKeyGrammar"@.len() != "NonSetSelectableGrammar"@.len());
    reveal_strlit("NonWithNonSelectableGrammar");
    assert("UniqueKeyGrammar"@.len() != "NonWithNonSelectableGrammar"@.len());
    reveal_strlit("NonWithSelectableGrammar");
    assert("UniqueKeyGrammar"@.len() != "NonWithSelectableGrammar"@.len());
    reveal_strlit("PostTableExpressionGrammar");
    assert("UniqueKeyGrammar"@.len() != "PostTableExpressionGrammar"@.len());
    reveal_strlit("SelectableGrammar");
    assert("UniqueKeyGrammar"@.len() != "SelectableGrammar"@.len());
    reveal_strlit("TimeWithTZGrammar");
    assert("UniqueKeyGrammar"@.len() != "TimeWithTZGrammar"@.len());
}

/// The ANSI library holds `UniqueKeyGrammar`: the value of its last entry of that name.
pub proof fn lemma_ansi_library_unique_key_grammar(lib: Map<Seq<char>, ElementView>)
    ensures
        ansi_library(lib).dom().contains("UniqueKeyGrammar"@),
        ansi_library(lib)["UniqueKeyGrammar"@] == unique_key_grammar_element(),
{
    reveal(ansi_library);
    let m0 = lib;
    let m1 = ansi_library_part_0(m0);
    let m2 = ansi_library_part_1(m1);
    let m3 = ansi_library_part_2(m2);
    let m4 = ansi_library_part_3(m3);
    let m5 = ansi_library_part_4(m4);
    let m6 = ansi_library_part_5(m5);
    let m7 = ansi_library_part_6(m6);
    let m8 = ansi_library_part_7(m7);
    let m9 = ansi_library_part_8(m8);
    let m10 = ansi_library_part_9(m9);
    let m11 = ansi_library_part_10(m10);
    let m12 = ansi_library_part_11(m11);
    lemma_part_3_sets_unique_key_grammar(m3);
    lemma_part_4_keeps_unique_key_grammar(m4);
    lemma_part_5_keeps_unique_key_grammar(m5);
    lemma_part_6_keeps_unique_key_grammar(m6);
    lemma_part_7_keeps_unique_key_grammar(m7);
    lemma_part_8_keeps_unique_key_grammar(m8);
    lemma_part_9_keeps_unique_key_grammar(m9);
    lemma_part_10_keeps_unique_key_grammar(m10);
    lemma_part_11_keeps_unique_key_grammar(m11);
}

proof fn lemma_part_2_sets_temporary_transient_grammar(m: Map<Seq<char>, ElementView>)
    ensures
        ansi_library_part_2(m).dom().contains("TemporaryTransientGrammar"@),
        ansi_library_part_2(m)["TemporaryTransientGrammar"@] == temporary_transient_grammar_element(),
{
    reveal_strlit("TemporaryTransientGrammar");
    reveal_strlit("IfExistsGrammar");
    assert("TemporaryTransientGrammar"@.len() != "IfExistsGrammar"@.len());
    reveal_strlit("IfNotExistsGrammar");
    assert("TemporaryTransientGrammar"@.len() != "IfNotExistsGrammar"@.len());
    reveal_strlit("InOperatorGrammar");
    assert("TemporaryTransientGrammar"@.len() != "InOperatorGrammar"@.len());
    reveal_strlit("IsClauseGrammar");
    assert("TemporaryTransientGrammar"@.len() != "IsClauseGrammar"@.len());
    reveal_strlit("LikeGrammar");
    assert("TemporaryTransientGrammar"@.len() != "LikeGrammar"@.len());
    reveal_strlit("TemporaryGrammar");
    assert("TemporaryTransientGrammar"@.len() != "TemporaryGrammar"@.len());
    reveal_strlit("UnionGrammar");
    assert("TemporaryTransientGrammar"@.len() != "UnionGrammar"@.len());
}

proof fn lemma_part_3_keeps_temporary_transient_grammar(m: Map<Seq<char>, ElementView>)
    requires
        m.dom().contains("TemporaryTransientGrammar"@),
    ensures
        ansi_library_part_3(m).dom().contains("TemporaryTransientGrammar"@),
        ansi_library_part_3(m)["TemporaryTransientGrammar"@] == m["TemporaryTransientGrammar"@],
{
    reveal_strlit("TemporaryTransientGrammar");
    reveal_strlit("AutoIncrementGrammar");
    assert("TemporaryTransientGrammar"@.len() != "AutoIncrementGrammar"@.len());
    reveal_strlit("BaseExpressionElementGrammar");
    assert("TemporaryTransientGrammar"@.len() != "BaseExpressionElementGrammar"@.len());
    reveal_strlit("CollateGrammar");
    assert("TemporaryTransientGrammar"@.len() != "CollateGrammar"@.len());
    reveal_strlit("DropBehaviorGrammar");
    assert("TemporaryTransientGrammar"@.len() != "DropBehaviorGrammar"@.len());
    reveal_strlit("ExtendedNaturalJoinKeywordsGrammar");
    assert("TemporaryTransientGrammar"@.len() != "ExtendedNaturalJoinKeywordsGrammar"@.len());
    reveal_strlit("FilterClauseGrammar");
    assert("TemporaryTransientGrammar"@.len() != "FilterClauseGrammar"@.len());
    reveal_strlit("ForeignKeyGrammar");
    assert("TemporaryTransientGrammar"@.len() != "ForeignKeyGrammar"@.len());
    reveal_strlit("FrameClauseUnitGrammar");
    assert("TemporaryTransientGrammar"@.len() != "FrameClauseUnitGrammar"@.len());
    reveal_strlit("FromClauseTerminatorGrammar");
    assert("TemporaryTransientGrammar"@.len() != "FromClauseTerminatorGrammar"@.len());
    reveal_strlit("FunctionParameterGrammar");
    assert("TemporaryTransientGrammar"@.len() != "FunctionParameterGrammar"@.len());
    reveal_strlit("GroupByClauseTerminatorGrammar");
    assert("TemporaryTransientGrammar"@.len() != "GroupByClauseTerminatorGrammar"@.len());
    reveal_strlit("HavingClauseTerminatorGrammar");
    assert("TemporaryTransientGrammar"@.len() != "HavingClauseTerminatorGrammar"@.len());
    reveal_strlit("IgnoreRespectNullsGrammar");
    assert("TemporaryTransientGrammar"@[0] != "IgnoreRespectNullsGrammar"@[0]);
    reveal_strlit("IsNullGrammar");
    assert("TemporaryTransientGrammar"@.len() != "IsNullGrammar"@.len());
    reveal_strlit("JoinKeywordsGrammar");
    assert("TemporaryTransientGrammar"@.len() != "JoinKeywordsGrammar"@.len());
    reveal_strlit("JoinTypeKeywordsGrammar");
    assert("TemporaryTransientGrammar"@.len() != "JoinTypeKeywordsGrammar"@.len());
    reveal_strlit("NaturalJoinKeywordsGrammar");
    assert("TemporaryTransientGrammar"@.len() != "NaturalJoinKeywordsGrammar"@.len());
    reveal_strlit("NestedJoinGrammar");
    assert("TemporaryTransientGrammar"@.len() != "NestedJoinGrammar"@.len());
    reveal_strlit("NotNullGrammar");
    assert("TemporaryTransientGrammar"@.len() != "NotNullGrammar"@.len());
    reveal_strlit("OrderByClauseTerminators");
    assert("TemporaryTransientGrammar"@.len() != "OrderByClauseTerminators"@.len());
    reveal_strlit("PrimaryKeyGrammar");
    assert("TemporaryTransientGrammar"@.len() != "PrimaryKeyGrammar"@.len());
    reveal_strlit("ReferentialActionGrammar");
    assert("TemporaryTransientGrammar"@.len() != "ReferentialActionGrammar"@.len());
    reveal_strlit("SelectClauseTerminatorGrammar");
    assert("TemporaryTransientGrammar"@.len() != "SelectClauseTerminatorGrammar"@.len());
    reveal_strlit("UniqueKeyGrammar");
    assert("TemporaryTransientGrammar"@.len() != "UniqueKeyGrammar"@.len());
    reveal_strlit("WhereClauseTerminatorGrammar");
    assert("TemporaryTransientGrammar"@.len() != "WhereClauseTerminatorGrammar"@.len());
}

proof fn lemma_part_4_keeps_temporary_transient_grammar(m: Map<Seq<char>, ElementView>)
    requires
        m.dom().contains("TemporaryTransientGrammar"@),
    ensures
        ansi_library_part_4(m).dom().contains("TemporaryTransientGrammar"@),
        ansi_library_part_4(m)["TemporaryTransientGrammar"@] == m["TemporaryTransientGrammar"@],
{
    reveal_strlit("TemporaryTransientGrammar");
    reveal_strlit("AlterTableDropColumnGrammar");
    assert("TemporaryTransientGrammar"@.len() != "AlterTableDropColumnGrammar"@.len());
    reveal_strlit("AlterTableOptionsGrammar");
    assert("TemporaryTransientGrammar"@.len() != "AlterTableOptionsGrammar"@.len());
    reveal_strlit("ColumnConstraintDefaultGrammar");
    assert("TemporaryTransientGrammar"@.len() != "ColumnConstraintDefaultGrammar"@.len());
    reveal_strlit("ColumnReferenceSegment");
    assert("TemporaryTransientGrammar"@.len() != "ColumnReferenceSegment"@.len());
    reveal_strlit("CubeFunctionNameSegment");
    assert("TemporaryTransientGrammar"@.len() != "CubeFunctionNameSegment"@.len());
    reveal_strlit("CubeRollupClauseSegment");
    assert("TemporaryTransientGrammar"@.len() != "CubeRollupClauseSegment"@.len());
    reveal_strlit("DateTimeFunctionContentsSegment");
    assert("TemporaryTransientGrammar"@.len() != "DateTimeFunctionContentsSegment"@.len());
    reveal_strlit("DefaultValuesGrammar");
    assert("TemporaryTransientGrammar"@.len() != "DefaultValuesGrammar"@.len());
    reveal_strlit("ExpressionSegment");
    assert("TemporaryTransientGrammar"@.len() != "ExpressionSegment"@.len());
    reveal_strlit("FetchClauseSegment");
    assert("TemporaryTransientGrammar"@.len() != "FetchClauseSegment"@.len());
    reveal_strlit("FileSegment");
    assert("TemporaryTransientGrammar"@.len() != "FileSegment"@.len());
    reveal_strlit("FunctionSegment");
    assert("TemporaryTransientGrammar"@.len() != "FunctionSegment"@.len());
    reveal_strlit("GroupingExpressionList");
    assert("TemporaryTransientGrammar"@.len() != "GroupingExpressionList"@.len());
    reveal_strlit("GroupingSetsClauseSegment");
    assert("TemporaryTransientGrammar"@[0] != "GroupingSetsClauseSegment"@[0]);
    reveal_strlit("HavingClauseSegment");
    assert("TemporaryTransientGrammar"@.len() != "HavingClauseSegment"@.len());
    reveal_strlit("LimitClauseSegment");
    assert("TemporaryTransientGrammar"@.len() != "LimitClauseSegment"@.len());
    reveal_strlit("NamedWindowExpressionSegment");
    assert("TemporaryTransientGrammar"@.len() != "NamedWindowExpressionSegment"@.len());
    reveal_strlit("ObjectReferenceDelimiterGrammar");
    assert("TemporaryTransientGrammar"@.len() != "ObjectReferenceDelimiterGrammar"@.len());
    reveal_strlit("ObjectReferenceTerminatorGrammar");
    assert("TemporaryTransientGrammar"@.len() != "ObjectReferenceTerminatorGrammar"@.len());
    reveal_strlit("PathSegment");
    assert("TemporaryTransientGrammar"@.len() != "PathSegment"@.len());
    reveal_strlit("ReferenceDefinitionGrammar");
    assert("TemporaryTransientGrammar"@.len() != "ReferenceDefinitionGrammar"@.len());
    reveal_strlit("RollupFunctionNameSegment");
    assert("TemporaryTransientGrammar"@[0] != "RollupFunctionNameSegment"@[0]);
    reveal_strlit("SetClauseSegment");
    assert("TemporaryTransientGrammar"@.len() != "SetClauseSegment"@.len());
    reveal_strlit("TrimParametersGrammar");
    assert("TemporaryTransientGrammar"@.len() != "TrimParametersGrammar"@.len());
    reveal_strlit("WildcardIdentifierSegment");
    assert("TemporaryTransientGrammar"@[0] != "WildcardIdentifierSegment"@[0]);
}

proof fn lemma_part_5_keeps_temporary_transient_grammar(m: Map<Seq<char>, ElementView>)
    requires
        m.dom().contains("TemporaryTransientGrammar"@),
    ensures
        ansi_library_part_5(m).dom().contains("TemporaryTransientGrammar"@),
        ansi_library_part_5(m)["TemporaryTransientGrammar"@] == m["TemporaryTransientGrammar"@],
{
    reveal_strlit("TemporaryTransientGrammar");
    reveal_strlit("AlterSequenceOptionsSegment");
    assert("TemporaryTransientGrammar"@.len() != "AlterSequenceOptionsSegment"@.len());
    reveal_strlit("CTEColumnList");
    assert("TemporaryTransientGrammar"@.len() != "CTEColumnList"@.len());
    reveal_strlit("CTEDefinitionSegment");
    assert("TemporaryTransientGrammar"@.len() != "CTEDefinitionSegment"@.len());
    reveal_strlit("ColumnConstraintSegment");
    assert("TemporaryTransientGrammar"@.len() != "ColumnConstraintSegment"@.len());
    reveal_strlit("ColumnDefinitionSegment");
    assert("TemporaryTransientGrammar"@.len() != "ColumnDefinitionSegment"@.len());
    reveal_strlit("CommentClauseSegment");
    assert("TemporaryTransientGrammar"@.len() != "CommentClauseSegment"@.len());
    reveal_strlit("ExtensionReferenceSegment");
    assert("TemporaryTransientGrammar"@[0] != "ExtensionReferenceSegment"@[0]);
    reveal_strlit("FrameClauseSegment");
    assert("TemporaryTransientGrammar"@.len() != "FrameClauseSegment"@.len());
    reveal_strlit("FunctionDefinitionGrammar");
    assert("TemporaryTransientGrammar"@[0] != "FunctionDefinitionGrammar"@[0]);
    reveal_strlit("GroupByClauseSegment");
    assert("TemporaryTransientGrammar"@.len() != "GroupByClauseSegment"@.len());
    reveal_strlit("MergeDeleteClauseSegment");
    assert("TemporaryTransientGrammar"@.len() != "MergeDeleteClauseSegment"@.len());
    reveal_strlit("MergeInsertClauseSegment");
    assert("TemporaryTransientGrammar"@.len() != "MergeInsertClauseSegment"@.len());
    reveal_strlit("MergeMatchSegment");
    assert("TemporaryTransientGrammar"@.len() != "MergeMatchSegment"@.len());
    reveal_strlit("MergeMatchedClauseSegment");
    assert("TemporaryTransientGrammar"@[0] != "MergeMatchedClauseSegment"@[0]);
    reveal_strlit("MergeNotMatchedClauseSegment");
    assert("TemporaryTransientGrammar"@.len() != "MergeNotMatchedClauseSegment"@.len());
    reveal_strlit("MergeUpdateClauseSegment");
    assert("TemporaryTransientGrammar"@.len() != "MergeUpdateClauseSegment"@.len());
    reveal_strlit("RoleReferenceSegment");
    assert("TemporaryTransientGrammar"@.len() != "RoleReferenceSegment"@.len());
    reveal_strlit("SchemaReferenceSegment");
    assert("TemporaryTransientGrammar"@.len() != "SchemaReferenceSegment"@.len());
    reveal_strlit("SetClauseListSegment");
    assert("TemporaryTransientGrammar"@.len() != "SetClauseListSegment"@.len());
    reveal_strlit("SingleIdentifierListSegment");
    assert("TemporaryTransientGrammar"@.len() != "SingleIdentifierListSegment"@.len());
    reveal_strlit("TableEndClauseSegment");
    assert("TemporaryTransientGrammar"@.len() != "TableEndClauseSegment"@.len());
    reveal_strlit("TablespaceReferenceSegment");
    assert("TemporaryTransientGrammar"@.len() != "TablespaceReferenceSegment"@.len());
    reveal_strlit("TagReferenceSegment");
    assert("TemporaryTransientGrammar"@.len() != "TagReferenceSegment"@.len());
    reveal_strlit("WithCompoundNonSelectStatementSegment");
    assert("TemporaryTransientGrammar"@.len() != "WithCompoundNonSelectStatementSegment"@.len());
    reveal_strlit("WithCompoundStatementSegment");
    assert("TemporaryTransientGrammar"@.len() != "WithCompoundStatementSegment"@.len());
}

proof fn lemma_part_6_keeps_temporary_transient_grammar(m: Map<Seq<char>, ElementView>)
    requires
        m.dom().contains("TemporaryTransientGrammar"@),
    ensures
        ansi_library_part_6(m).dom().contains("TemporaryTransientGrammar"@),
        ansi_library_part_6(m)["TemporaryTransientGrammar"@] == m["TemporaryTransientGrammar"@],
{
    reveal_strlit("TemporaryTransientGrammar");
    reveal_strlit("CollationReferenceSegment");
    assert("TemporaryTransientGrammar"@[0] != "CollationReferenceSegment"@[0]);
    reveal_strlit("CreateSequenceOptionsSegment");
    assert("TemporaryTransientGrammar"@.len() != "CreateSequenceOptionsSegment"@.len());
    reveal_strlit("CreateSequenceStatementSegment");
    assert("TemporaryTransientGrammar"@.len() != "CreateSequenceStatementSegment"@.len());
    reveal_strlit("CreateTriggerStatementSegment");
    assert("TemporaryTransientGrammar"@.len() != "CreateTriggerStatementSegment"@.len());
    reveal_strlit("DatabaseReferenceSegment");
    assert("TemporaryTransientGrammar"@.len() != "DatabaseReferenceSegment"@.len());
    reveal_strlit("DescribeStatementSegment");
    assert("TemporaryTransientGrammar"@.len() != "DescribeStatementSegment"@.len());
    reveal_strlit("DropModelStatementSegment");
    assert("TemporaryTransientGrammar"@[0] != "DropModelStatementSegment"@[0]);
    reveal_strlit("DropTriggerStatementSegment");
    assert("TemporaryTransientGrammar"@.len() != "DropTriggerStatementSegment"@.len());
    reveal_strlit("ExplainStatementSegment");
    assert("TemporaryTransientGrammar"@.len() != "ExplainStatementSegment"@.len());
    reveal_strlit("IndexReferenceSegment");
    assert("TemporaryTransientGrammar"@.len() != "IndexReferenceSegment"@.len());
    reveal_strlit("JoinClauseSegment");
    assert("TemporaryTransientGrammar"@.len() != "JoinClauseSegment"@.len());
    reveal_strlit("JoinOnConditionSegment");
    assert("TemporaryTransientGrammar"@.len() != "JoinOnConditionSegment"@.len());
    reveal_strlit("NamedWindowSegment");
    assert("TemporaryTransientGrammar"@.len() != "NamedWindowSegment"@.len());
    reveal_strlit("OverClauseSegment");
    assert("TemporaryTransientGrammar"@.len() != "OverClauseSegment"@.len());
    reveal_strlit("PartitionClauseSegment");
    assert("TemporaryTransientGrammar"@.len() != "PartitionClauseSegment"@.len());
    reveal_strlit("SamplingExpressionSegment");
    assert("TemporaryTransientGrammar"@[0] != "SamplingExpressionSegment"@[0]);
    reveal_strlit("SequenceReferenceSegment");
    assert("TemporaryTransientGrammar"@.len() != "SequenceReferenceSegment"@.len());
    reveal_strlit("TableConstraintSegment");
    assert("TemporaryTransientGrammar"@.len() != "TableConstraintSegment"@.len());
    reveal_strlit("TableExpressionSegment");
    assert("TemporaryTransientGrammar"@.len() != "TableExpressionSegment"@.len());
    reveal_strlit("TriggerReferenceSegment");
    assert("TemporaryTransientGrammar"@.len() != "TriggerReferenceSegment"@.len());
    reveal_strlit("UseStatementSegment");
    assert("TemporaryTransientGrammar"@.len() != "UseStatementSegment"@.len());
    reveal_strlit("WindowSpecificationSegment");
    assert("TemporaryTransientGrammar"@.len() != "WindowSpecificationSegment"@.len());
}

proof fn lemma_part_7_keeps_temporary_transient_grammar(m: Map<Seq<char>, ElementView>)
    requires
        m.dom().contains("TemporaryTransientGrammar"@),
    ensures
        ansi_library_part_7(m).dom().contains("TemporaryTransientGrammar"@),
        ansi_library_part_7(m)["TemporaryTransientGrammar"@] == m["TemporaryTransientGrammar"@],
{
    reveal_strlit("TemporaryTransientGrammar");
    reveal_strlit("AccessStatementSegment");
    assert("TemporaryTransientGrammar"@.len() != "AccessStatementSegment"@.len());
    reveal_strlit("AlterSequenceStatementSegment");
    assert("TemporaryTransientGrammar"@.len() != "AlterSequenceStatementSegment"@.len());
    reveal_strlit("AlterTableStatementSegment");
    assert("TemporaryTransientGrammar"@.len() != "AlterTableStatementSegment"@.len());
    reveal_strlit("CreateCastStatementSegment");
    assert("TemporaryTransientGrammar"@.len() != "CreateCastStatementSegment"@.len());
    reveal_strlit("CreateDatabaseStatementSegment");
    assert("TemporaryTransientGrammar"@.len() != "CreateDatabaseStatementSegment"@.len());
    reveal_strlit("CreateFunctionStatementSegment");
    assert("TemporaryTransientGrammar"@.len() != "CreateFunctionStatementSegment"@.len());
    reveal_strlit("CreateIndexStatementSegment");
    assert("TemporaryTransientGrammar"@.len() != "CreateIndexStatementSegment"@.len());
    reveal_strlit("CreateModelStatementSegment");
    assert("TemporaryTransientGrammar"@.len() != "CreateModelStatementSegment"@.len());
    reveal_strlit("CreateRoleStatementSegment");
    assert("TemporaryTransientGrammar"@.len() != "CreateRoleStatementSegment"@.len());
    reveal_strlit("CreateTableStatementSegment");
    assert("TemporaryTransientGrammar"@.len() != "CreateTableStatementSegment"@.len());
    reveal_strlit("CreateViewStatementSegment");
    assert("TemporaryTransientGrammar"@.len() != "CreateViewStatementSegment"@.len());
    reveal_strlit("DeleteStatementSegment");
    assert("TemporaryTransientGrammar"@.len() != "DeleteStatementSegment"@.len());
    reveal_strlit("DropCastStatementSegment");
    assert("TemporaryTransientGrammar"@.len() != "DropCastStatementSegment"@.len());
    reveal_strlit("DropDatabaseStatementSegment");
    assert("TemporaryTransientGrammar"@.len() != "DropDatabaseStatementSegment"@.len());
    reveal_strlit("DropFunctionStatementSegment");
    assert("TemporaryTransientGrammar"@.len() != "DropFunctionStatementSegment"@.len());
    reveal_strlit("DropIndexStatementSegment");
    assert("TemporaryTransientGrammar"@[0] != "DropIndexStatementSegment"@[0]);
    reveal_strlit("DropRoleStatementSegment");
    assert("TemporaryTransientGrammar"@.len() != "DropRoleStatementSegment"@.len());
    reveal_strlit("DropSchemaStatementSegment");
    assert("TemporaryTransientGrammar"@.len() != "DropSchemaStatementSegment"@.len());
    reveal_strlit("DropSequenceStatementSegment");
    assert("TemporaryTransientGrammar"@.len() != "DropSequenceStatementSegment"@.len());
    reveal_strlit("DropTypeStatementSegment");
    assert("TemporaryTransientGrammar"@.len() != "DropTypeStatementSegment"@.len());
    reveal_strlit("FunctionParameterListGrammar");
    assert("TemporaryTransientGrammar"@.len() != "FunctionParameterListGrammar"@.len());
    reveal_strlit("InsertStatementSegment");
    assert("TemporaryTransientGrammar"@.len() != "InsertStatementSegment"@.len());
    reveal_strlit("SetSchemaStatementSegment");
    assert("TemporaryTransientGrammar"@[0] != "SetSchemaStatementSegment"@[0]);
    reveal_strlit("TransactionStatementSegment");
    assert("TemporaryTransientGrammar"@.len() != "TransactionStatementSegment"@.len());
    reveal_strlit("UpdateStatementSegment");
    assert("TemporaryTransientGrammar"@.len() != "UpdateStatementSegment"@.len());
}

proof fn lemma_part_8_keeps_temporary_transient_grammar(m: Map<Seq<char>, ElementView>)
    requires
        m.dom().contains("TemporaryTransientGrammar"@),
    ensures
        ansi_library_part_8(m).dom().contains("TemporaryTransientGrammar"@),
        ansi_library_part_8(m)["TemporaryTransientGrammar"@] == m["TemporaryTransientGrammar"@],
{
    reveal_strlit("TemporaryTransientGrammar");
    reveal_strlit("AggregateOrderByClause");
    assert("TemporaryTransientGrammar"@.len() != "AggregateOrderByClause"@.len());
    reveal_strlit("ArrayExpressionSegment");
    assert("TemporaryTransientGrammar"@.len() != "ArrayExpressionSegment"@.len());
    reveal_strlit("BitwiseAndSegment");
    assert("TemporaryTransientGrammar"@.len() != "BitwiseAndSegment"@.len());
    reveal_strlit("BitwiseLShiftSegment");
    assert("TemporaryTransientGrammar"@.len() != "BitwiseLShiftSegment"@.len());
    reveal_strlit("BitwiseOrSegment");
    assert("TemporaryTransientGrammar"@.len() != "BitwiseOrSegment"@.len());
    reveal_strlit("BitwiseRShiftSegment");
    assert("TemporaryTransientGrammar"@.len() != "BitwiseRShiftSegment"@.len());
    reveal_strlit("ConcatSegment");
    assert("TemporaryTransientGrammar"@.len() != "ConcatSegment"@.len());
    reveal_strlit("CreateUserStatementSegment");
    assert("TemporaryTransientGrammar"@.len() != "CreateUserStatementSegment"@.len());
    reveal_strlit("DropTableStatementSegment");
    assert("TemporaryTransientGrammar"@[0] != "DropTableStatementSegment"@[0]);
    reveal_strlit("DropUserStatementSegment");
    assert("TemporaryTransientGrammar"@.len() != "DropUserStatementSegment"@.len());
    reveal_strlit("DropViewStatementSegment");
    assert("TemporaryTransientGrammar"@.len() != "DropViewStatementSegment"@.len());
    reveal_strlit("ElseClauseSegment");
    assert("TemporaryTransientGrammar"@.len() != "ElseClauseSegment"@.len());
    reveal_strlit("EqualsSegment");
    assert("TemporaryTransientGrammar"@.len() != "EqualsSegment"@.len());
    reveal_strlit("FunctionNameSegment");
    assert("TemporaryTransientGrammar"@.len() != "FunctionNameSegment"@.len());
    reveal_strlit("GreaterThanOrEqualToSegment");
    assert("TemporaryTransientGrammar"@.len() != "GreaterThanOrEqualToSegment"@.len());
    reveal_strlit("GreaterThanSegment");
    assert("TemporaryTransientGrammar"@.len() != "GreaterThanSegment"@.len());
    reveal_strlit("IndexColumnDefinitionSegment");
    assert("TemporaryTransientGrammar"@.len() != "IndexColumnDefinitionSegment"@.len());
    reveal_strlit("LessThanOrEqualToSegment");
    assert("TemporaryTransientGrammar"@.len() != "LessThanOrEqualToSegment"@.len());
    reveal_strlit("LessThanSegment");
    assert("TemporaryTransientGrammar"@.len() != "LessThanSegment"@.len());
    reveal_strlit("LocalAliasSegment");
    assert("TemporaryTransientGrammar"@.len() != "LocalAliasSegment"@.len());
    reveal_strlit("MergeStatementSegment");
    assert("TemporaryTransientGrammar"@.len() != "MergeStatementSegment"@.len());
    reveal_strlit("NotEqualToSegment");
    assert("TemporaryTransientGrammar"@.len() != "NotEqualToSegment"@.len());
    reveal_strlit("QualifiedNumericLiteralSegment");
    assert("TemporaryTransientGrammar"@.len() != "QualifiedNumericLiteralSegment"@.len());
    reveal_strlit("WhenClauseSegment");
    assert("TemporaryTransientGrammar"@.len() != "WhenClauseSegment"@.len());
    reveal_strlit("WhereClauseSegment");
    assert("TemporaryTransientGrammar"@.len() != "WhereClauseSegment"@.len());
}

proof fn lemma_part_9_keeps_temporary_transient_grammar(m: Map<Seq<char>, ElementView>)
    requires
        m.dom().contains("TemporaryTransientGrammar"@),
    ensures
        ansi_library_part_9(m).dom().contains("TemporaryTransientGrammar"@),
        ansi_library_part_9(m)["TemporaryTransientGrammar"@] == m["TemporaryTransientGrammar"@],
{
    reveal_strlit("TemporaryTransientGrammar");
    reveal_strlit("AliasExpressionSegment");
    assert("TemporaryTransientGrammar"@.len() != "AliasExpressionSegment"@.len());
    reveal_strlit("ArrayAccessorSegment");
    assert("TemporaryTransientGrammar"@.len() != "ArrayAccessorSegment"@.len());
    reveal_strlit("ArrayLiteralSegment");
    assert("TemporaryTransientGrammar"@.len() != "ArrayLiteralSegment"@.len());
    reveal_strlit("ArrayTypeSegment");
    assert("TemporaryTransientGrammar"@.len() != "ArrayTypeSegment"@.len());
    reveal_strlit("BracketedArguments");
    assert("TemporaryTransientGrammar"@.len() != "BracketedArguments"@.len());
    reveal_strlit("DatatypeSegment");
    assert("TemporaryTransientGrammar"@.len() != "DatatypeSegment"@.len());
    reveal_strlit("EmptyStructLiteralSegment");
    assert("TemporaryTransientGrammar"@[0] != "EmptyStructLiteralSegment"@[0]);
    reveal_strlit("IntervalExpressionSegment");
    assert("TemporaryTransientGrammar"@[0] != "IntervalExpressionSegment"@[0]);
    reveal_strlit("ObjectLiteralElementSegment");
    assert("TemporaryTransientGrammar"@.len() != "ObjectLiteralElementSegment"@.len());
    reveal_strlit("ObjectLiteralSegment");
    assert("TemporaryTransientGrammar"@.len() != "ObjectLiteralSegment"@.len());
    reveal_strlit("OverlapsClauseSegment");
    assert("TemporaryTransientGrammar"@.len() != "OverlapsClauseSegment"@.len());
    reveal_strlit("SelectClauseSegment");
    assert("TemporaryTransientGrammar"@.len() != "SelectClauseSegment"@.len());
    reveal_strlit("SetOperatorSegment");
    assert("TemporaryTransientGrammar"@.len() != "SetOperatorSegment"@.len());
    reveal_strlit("ShorthandCastSegment");
    assert("TemporaryTransientGrammar"@.len() != "ShorthandCastSegment"@.len());
    reveal_strlit("SizedArrayTypeSegment");
    assert("TemporaryTransientGrammar"@.len() != "SizedArrayTypeSegment"@.len());
    reveal_strlit("StatementSegment");
    assert("TemporaryTransientGrammar"@.len() != "StatementSegment"@.len());
    reveal_strlit("StructLiteralSegment");
    assert("TemporaryTransientGrammar"@.len() != "StructLiteralSegment"@.len());
    reveal_strlit("StructTypeSegment");
    assert("TemporaryTransientGrammar"@.len() != "StructTypeSegment"@.len());
    reveal_strlit("TimeZoneGrammar");
    assert("TemporaryTransientGrammar"@.len() != "TimeZoneGrammar"@.len());
    reveal_strlit("TypedArrayLiteralSegment");
    assert("TemporaryTransientGrammar"@.len() != "TypedArrayLiteralSegment"@.len());
    reveal_strlit("TypedStructLiteralSegment");
    assert("TemporaryTransientGrammar"@[1] != "TypedStructLiteralSegment"@[1]);
    reveal_strlit("UnorderedSelectStatementSegment");
    assert("TemporaryTransientGrammar"@.len() != "UnorderedSelectStatementSegment"@.len());
    reveal_strlit("ValuesClauseSegment");
    assert("TemporaryTransientGrammar"@.len() != "ValuesClauseSegment"@.len());
    reveal_strlit("WithDataClauseSegment");
    assert("TemporaryTransientGrammar"@.len() != "WithDataClauseSegment"@.len());
    reveal_strlit("WithNoSchemaBindingClauseSegment");
    assert("TemporaryTransientGrammar"@.len() != "WithNoSchemaBindingClauseSegment"@.len());
}

proof fn lemma_part_10_keeps_temporary_transient_grammar(m: Map<Seq<char>, ElementView>)
    requires
        m.dom().contains("TemporaryTransientGrammar"@),
    ensures
        ansi_library_part_10(m).dom().contains("TemporaryTransientGrammar"@),
        ansi_library_part_10(m)["TemporaryTransientGrammar"@] == m["TemporaryTransientGrammar"@],
{
    reveal_strlit("TemporaryTransientGrammar");
    reveal_strlit("AccessStatementSegmentGrantRoleWithOptionGrammar");
    assert("TemporaryTransientGrammar"@.len() != "AccessStatementSegmentGrantRoleWithOptionGrammar"@.len());
    reveal_strlit("AliasedTableReferenceGrammar");
    assert("TemporaryTransientGrammar"@.len() != "AliasedTableReferenceGrammar"@.len());
    reveal_strlit("CharCharacterSetGrammar");
    assert("TemporaryTransientGrammar"@.len() != "CharCharacterSetGrammar"@.len());
    reveal_strlit("CreateSchemaStatementSegment");
    assert("TemporaryTransientGrammar"@.len() != "CreateSchemaStatementSegment"@.len());
    reveal_strlit("DatePartFunctionNameSegment");
    assert("TemporaryTransientGrammar"@.len() != "DatePartFunctionNameSegment"@.len());
    reveal_strlit("EmptyStructLiteralBracketsSegment");
    assert("TemporaryTransientGrammar"@.len() != "EmptyStructLiteralBracketsSegment"@.len());
    reveal_strlit("Expression_A_Grammar");
    assert("TemporaryTransientGrammar"@.len() != "Expression_A_Grammar"@.len());
    reveal_strlit("Expression_A_Unary_Operator_Grammar");
    assert("TemporaryTransientGrammar"@.len() != "Expression_A_Unary_Operator_Grammar"@.len());
    reveal_strlit("Expression_B_Unary_Operator_Grammar");
    assert("TemporaryTransientGrammar"@.len() != "Expression_B_Unary_Operator_Grammar"@.len());
    reveal_strlit("FromClauseSegment");
    assert("TemporaryTransientGrammar"@.len() != "FromClauseSegment"@.len());
    reveal_strlit("FromExpressionSegment");
    assert("TemporaryTransientGrammar"@.len() != "FromExpressionSegment"@.len());
    reveal_strlit("FunctionContentsExpressionGrammar");
    assert("TemporaryTransientGrammar"@.len() != "FunctionContentsExpressionGrammar"@.len());
    reveal_strlit("FunctionContentsGrammar");
    assert("TemporaryTransientGrammar"@.len() != "FunctionContentsGrammar"@.len());
    reveal_strlit("FunctionContentsSegment");
    assert("TemporaryTransientGrammar"@.len() != "FunctionContentsSegment"@.len());
    reveal_strlit("JoinLikeClauseGrammar");
    assert("TemporaryTransientGrammar"@.len() != "JoinLikeClauseGrammar"@.len());
    reveal_strlit("OrderByClauseSegment");
    assert("TemporaryTransientGrammar"@.len() != "OrderByClauseSegment"@.len());
    reveal_strlit("PostFunctionGrammar");
    assert("TemporaryTransientGrammar"@.len() != "PostFunctionGrammar"@.len());
    reveal_strlit("SelectClauseElementSegment");
    assert("TemporaryTransientGrammar"@.len() != "SelectClauseElementSegment"@.len());
    reveal_strlit("SelectClauseModifierSegment");
    assert("TemporaryTransientGrammar"@.len() != "SelectClauseModifierSegment"@.len());
    reveal_strlit("SelectStatementSegment");
    assert("TemporaryTransientGrammar"@.len() != "SelectStatementSegment"@.len());
    reveal_strlit("SetExpressionSegment");
    assert("TemporaryTransientGrammar"@.len() != "SetExpressionSegment"@.len());
    reveal_strlit("Tail_Recurse_Expression_A_Grammar");
    assert("TemporaryTransientGrammar"@.len() != "Tail_Recurse_Expression_A_Grammar"@.len());
    reveal_strlit("Tail_Recurse_Expression_B_Grammar");
    assert("TemporaryTransientGrammar"@.len() != "Tail_Recurse_Expression_B_Grammar"@.len());
    reveal_strlit("TruncateStatementSegment");
    assert("TemporaryTransientGrammar"@.len() != "TruncateStatementSegment"@.len());
    reveal_strlit("WildcardExpressionSegment");
    assert("TemporaryTransientGrammar"@[0] != "WildcardExpressionSegment"@[0]);
}

proof fn lemma_part_11_keeps_temporary_transient_grammar(m: Map<Seq<char>, ElementView>)
    requires
        m.dom().contains("TemporaryTransientGrammar"@),
    ensures
        ansi_library_part_11(m).dom().contains("TemporaryTransientGrammar"@),
        ansi_library_part_11(m)["TemporaryTransientGrammar"@] == m["TemporaryTransientGrammar"@],
{
    reveal_strlit("TemporaryTransientGrammar");
    reveal_strlit("AccessorGrammar");
    assert("TemporaryTransientGrammar"@.len() != "AccessorGrammar"@.len());
    reveal_strlit("Expression_B_Grammar");
    assert("TemporaryTransientGrammar"@.len() != "Expression_B_Grammar"@.len());
    reveal_strlit("Expression_C_Grammar");
    assert("TemporaryTransientGrammar"@.len() != "Expression_C_Grammar"@.len());
    reveal_strlit("Expression_D_Grammar");
    assert("TemporaryTransientGrammar"@.len() != "Expression_D_Grammar"@.len());
    reveal_strlit("NonSetSelectableGrammar");
    assert("TemporaryTransientGrammar"@.len() != "NonSetSelectableGrammar"@.len());
    reveal_strlit("NonWithNonSelectableGrammar");
    assert("TemporaryTransientGrammar"@.len() != "NonWithNonSelectableGrammar"@.len());
    reveal_strlit("NonWithSelectableGrammar");
    assert("TemporaryTransientGrammar"@.len() != "NonWithSelectableGrammar"@.len());
    reveal_strlit("PostTableExpressionGrammar");
    assert("TemporaryTransientGrammar"@.len() != "PostTableExpressionGrammar"@.len());
    reveal_strlit("SelectableGrammar");
    assert("TemporaryTransientGrammar"@.len() != "SelectableGrammar"@.len());
    reveal_strlit("TimeWithTZGrammar");
    assert("TemporaryTransientGrammar"@.len() != "TimeWithTZGrammar"@.len());
}

/// The ANSI library holds `TemporaryTransientGrammar`: the value of its last entry of that name.
pub proof fn lemma_ansi_library_temporary_transient_grammar(lib: Map<Seq<char>, ElementView>)
    ensures
        ansi_library(lib).dom().contains("TemporaryTransientGrammar"@),
        ansi_library(lib)["TemporaryTransientGrammar"@] == temporary_transient_grammar_element(),
{
    reveal(ansi_library);
    let m0 = lib;
    let m1 = ansi_library_part_0(m0);
    let m2 = ansi_library_part_1(m1);
    let m3 = ansi_library_part_2(m2);
    let m4 = ansi_library_part_3(m3);
    let m5 = ansi_library_part_4(m4);
    let m6 = ansi_library_part_5(m5);
    let m7 = ansi_library_part_6(m6);
    let m8 = ansi_library_part_7(m7);
    let m9 = ansi_library_part_8(m8);
    let m10 = ansi_library_part_9(m9);
    let m11 = ansi_library_part_10(m10);
    let m12 = ansi_library_part_11(m11);
    lemma_part_2_sets_temporary_transient_grammar(m2);
    lemma_part_3_keeps_temporary_transient_grammar(m3);
    lemma_part_4_keeps_temporary_transient_grammar(m4);
    lemma_part_5_keeps_temporary_transient_grammar(m5);
    lemma_part_6_keeps_temporary_transient_grammar(m6);
    lemma_part_7_keeps_temporary_transient_grammar(m7);
    lemma_part_8_keeps_temporary_transient_grammar(m8);
    lemma_part_9_keeps_temporary_transient_grammar(m9);
    lemma_part_10_keeps_temporary_transient_grammar(m10);
    lemma_part_11_keeps_temporary_transient_grammar(m11);
}

proof fn lemma_part_3_sets_ignore_respect_nulls_grammar(m: Map<Seq<char>, ElementView>)
    ensures
        ansi_library_part_3(m).dom().contains("IgnoreRespectNullsGrammar"@),
        ansi_library_part_3(m)["IgnoreRespectNullsGrammar"@] == ignore_respect_nulls_grammar_element(),
{
    reveal_strlit("IgnoreRespectNullsGrammar");
    reveal_strlit("DropBehaviorGrammar");
    assert("IgnoreRespectNullsGrammar"@.len() != "DropBehaviorGrammar"@.len());
    reveal_strlit("ExtendedNaturalJoinKeywordsGrammar");
    assert("IgnoreRespectNullsGrammar"@.len() != "ExtendedNaturalJoinKeywordsGrammar"@.len());
    reveal_strlit("FrameClauseUnitGrammar");
    assert("IgnoreRespectNullsGrammar"@.len() != "FrameClauseUnitGrammar"@.len());
    reveal_strlit("JoinKeywordsGrammar");
    assert("IgnoreRespectNullsGrammar"@.len() != "JoinKeywordsGrammar"@.len());
    reveal_strlit("JoinTypeKeywordsGrammar");
    assert("IgnoreRespectNullsGrammar"@.len() != "JoinTypeKeywordsGrammar"@.len());
    reveal_strlit("NaturalJoinKeywordsGrammar");
    assert("IgnoreRespectNullsGrammar"@.len() != "NaturalJoinKeywordsGrammar"@.len());
    reveal_strlit("NestedJoinGrammar");
    assert("IgnoreRespectNullsGrammar"@.len() != "NestedJoinGrammar"@.len());
    reveal_strlit("ReferentialActionGrammar");
    assert("IgnoreRespectNullsGrammar"@.len() != "ReferentialActionGrammar"@.len());
}

proof fn lemma_part_4_keeps_ignore_respect_nulls_grammar(m: Map<Seq<char>, ElementView>)
    requires
        m.dom().contains("IgnoreRespectNullsGrammar"@),
    ensures
        ansi_library_part_4(m).dom().contains("IgnoreRespectNullsGrammar"@),
        ansi_library_part_4(m)["IgnoreRespectNullsGrammar"@] == m["IgnoreRespectNullsGrammar"@],
{
    reveal_strlit("IgnoreRespectNullsGrammar");
    reveal_strlit("AlterTableDropColumnGrammar");
    assert("IgnoreRespectNullsGrammar"@.len() != "AlterTableDropColumnGrammar"@.len());
    reveal_strlit("AlterTableOptionsGrammar");
    assert("IgnoreRespectNullsGrammar"@.len() != "AlterTableOptionsGrammar"@.len());
    reveal_strlit("ColumnConstraintDefaultGrammar");
    assert("IgnoreRespectNullsGrammar"@.len() != "ColumnConstraintDefaultGrammar"@.len());
    reveal_strlit("ColumnReferenceSegment");
    assert("IgnoreRespectNullsGrammar"@.len() != "ColumnReferenceSegment"@.len());
    reveal_strlit("CubeFunctionNameSegment");
    assert("IgnoreRespectNullsGrammar"@.len() != "CubeFunctionNameSegment"@.len());
    reveal_strlit("CubeRollupClauseSegment");
    assert("IgnoreRespectNullsGrammar"@.len() != "CubeRollupClauseSegment"@.len());
    reveal_strlit("DateTimeFunctionContentsSegment");
    assert("IgnoreRespectNullsGrammar"@.len() != "DateTimeFunctionContentsSegment"@.len());
    reveal_strlit("DefaultValuesGrammar");
    assert("IgnoreRespectNullsGrammar"@.len() != "DefaultValuesGrammar"@.len());
    reveal_strlit("ExpressionSegment");
    assert("IgnoreRespectNullsGrammar"@.len() != "ExpressionSegment"@.len());
    reveal_strlit("FetchClauseSegment");
    assert("IgnoreRespectNullsGrammar"@.len() != "FetchClauseSegment"@.len());
    reveal_strlit("FileSegment");
    assert("IgnoreRespectNullsGrammar"@.len() != "FileSegment"@.len());
    reveal_strlit("FunctionSegment");
    assert("IgnoreRespectNullsGrammar"@.len() != "FunctionSegment"@.len());
    reveal_strlit("GroupingExpressionList");
    assert("IgnoreRespectNullsGrammar"@.len() != "GroupingExpressionList"@.len());
    reveal_strlit("GroupingSetsClauseSegment");
    assert("IgnoreRespectNullsGrammar"@[0] != "GroupingSetsClauseSegment"@[0]);
    reveal_strlit("HavingClauseSegment");
    assert("IgnoreRespectNullsGrammar"@.len() != "HavingClauseSegment"@.len());
    reveal_strlit("LimitClauseSegment");
    assert("IgnoreRespectNullsGrammar"@.len() != "LimitClauseSegment"@.len());
    reveal_strlit("NamedWindowExpressionSegment");
    assert("IgnoreRespectNullsGrammar"@.len() != "NamedWindowExpressionSegment"@.len());
    reveal_strlit("ObjectReferenceDelimiterGrammar");
    assert("IgnoreRespectNullsGrammar"@.len() != "ObjectReferenceDelimiterGrammar"@.len());
    reveal_strlit("ObjectReferenceTerminatorGrammar");
    assert("IgnoreRespectNullsGrammar"@.len() != "ObjectReferenceTerminatorGrammar"@.len());
    reveal_strlit("PathSegment");
    assert("IgnoreRespectNullsGrammar"@.len() != "PathSegment"@.len());
    reveal_strlit("ReferenceDefinitionGrammar");
    assert("IgnoreRespectNullsGrammar"@.len() != "ReferenceDefinitionGrammar"@.len());
    reveal_strlit("RollupFunctionNameSegment");
    assert("IgnoreRespectNullsGrammar"@[0] != "RollupFunctionNameSegment"@[0]);
    reveal_strlit("SetClauseSegment");
    assert("IgnoreRespectNullsGrammar"@.len() != "SetClauseSegment"@.len());
    reveal_strlit("TrimParametersGrammar");
    assert("IgnoreRespectNullsGrammar"@.len() != "TrimParametersGrammar"@.len());
    reveal_strlit("WildcardIdentifierSegment");
    assert("IgnoreRespectNullsGrammar"@[0] != "WildcardIdentifierSegment"@[0]);
}

proof fn lemma_part_5_keeps_ignore_respect_nulls_grammar(m: Map<Seq<char>, ElementView>)
    requires
        m.dom().contains("IgnoreRespectNullsGrammar"@),
    ensures
        ansi_library_part_5(m).dom().contains("IgnoreRespectNullsGrammar"@),
        ansi_library_part_5(m)["IgnoreRespectNullsGrammar"@] == m["IgnoreRespectNullsGrammar"@],
{
    reveal_strlit("IgnoreRespectNullsGrammar");
    reveal_strlit("AlterSequenceOptionsSegment");
    assert("IgnoreRespectNullsGrammar"@.len() != "AlterSequenceOptionsSegment"@.len());
    reveal_strlit("CTEColumnList");
    assert("IgnoreRespectNullsGrammar"@.len() != "CTEColumnList"@.len());
    reveal_strlit("CTEDefinitionSegment");
    assert("IgnoreRespectNullsGrammar"@.len() != "CTEDefinitionSegment"@.len());
    reveal_strlit("ColumnConstraintSegment");
    assert("IgnoreRespectNullsGrammar"@.len() != "ColumnConstraintSegment"@.len());
    reveal_strlit("ColumnDefinitionSegment");
    assert("IgnoreRespectNullsGrammar"@.len() != "ColumnDefinitionSegment"@.len());
    reveal_strlit("CommentClauseSegment");
    assert("IgnoreRespectNullsGrammar"@.len() != "CommentClauseSegment"@.len());
    reveal_strlit("ExtensionReferenceSegment");
    assert("IgnoreRespectNullsGrammar"@[0] != "ExtensionReferenceSegment"@[0]);
    reveal_strlit("FrameClauseSegment");
    assert("IgnoreRespectNullsGrammar"@.len() != "FrameClauseSegment"@.len());
    reveal_strlit("FunctionDefinitionGrammar");
    assert("IgnoreRespectNullsGrammar"@[0] != "FunctionDefinitionGrammar"@[0]);
    reveal_strlit("GroupByClauseSegment");
    assert("IgnoreRespectNullsGrammar"@.len() != "GroupByClauseSegment"@.len());
    reveal_strlit("MergeDeleteClauseSegment");
    assert("IgnoreRespectNullsGrammar"@.len() != "MergeDeleteClauseSegment"@.len());
    reveal_strlit("MergeInsertClauseSegment");
    assert("IgnoreRespectNullsGrammar"@.len() != "MergeInsertClauseSegment"@.len());
    reveal_strlit("MergeMatchSegment");
    assert("IgnoreRespectNullsGrammar"@.len() != "MergeMatchSegment"@.len());
    reveal_strlit("MergeMatchedClauseSegment");
    assert("IgnoreRespectNullsGrammar"@[0] != "MergeMatchedClauseSegment"@[0]);
    reveal_strlit("MergeNotMatchedClauseSegment");
    assert("IgnoreRespectNullsGrammar"@.len() != "MergeNotMatchedClauseSegment"@.len());
    reveal_strlit("MergeUpdateClauseSegment");
    assert("IgnoreRespectNullsGrammar"@.len() != "MergeUpdateClauseSegment"@.len());
    reveal_strlit("RoleReferenceSegment");
    assert("IgnoreRespectNullsGrammar"@.len() != "RoleReferenceSegment"@.len());
    reveal_strlit("SchemaReferenceSegment");
    assert("IgnoreRespectNullsGrammar"@.len() != "SchemaReferenceSegment"@.len());
    reveal_strlit("SetClauseListSegment");
    assert("IgnoreRespectNullsGrammar"@.len() != "SetClauseListSegment"@.len());
    reveal_strlit("SingleIdentifierListSegment");
    assert("IgnoreRespectNullsGrammar"@.len() != "SingleIdentifierListSegment"@.len());
    reveal_strlit("TableEndClauseSegment");
    assert("IgnoreRespectNullsGrammar"@.len() != "TableEndClauseSegment"@.len());
    reveal_strlit("TablespaceReferenceSegment");
    assert("IgnoreRespectNullsGrammar"@.len() != "TablespaceReferenceSegment"@.len());
    reveal_strlit("TagReferenceSegment");
    assert("IgnoreRespectNullsGrammar"@.len() != "TagReferenceSegment"@.len());
    reveal_strlit("WithCompoundNonSelectStatementSegment");
    assert("IgnoreRespectNullsGrammar"@.len() != "WithCompoundNonSelectStatementSegment"@.len());
    reveal_strlit("WithCompoundStatementSegment");
    assert("IgnoreRespectNullsGrammar"@.len() != "WithCompoundStatementSegment"@.len());
}

proof fn lemma_part_6_keeps_ignore_respect_nulls_grammar(m: Map<Seq<char>, ElementView>)
    requires
        m.dom().contains("IgnoreRespectNullsGrammar"@),
    ensures
        ansi_library_part_6(m).dom().contains("IgnoreRespectNullsGrammar"@),
        ansi_library_part_6(m)["IgnoreRespectNullsGrammar"@] == m["IgnoreRespectNullsGrammar"@],
{
    reveal_strlit("IgnoreRespectNullsGrammar");
    reveal_strlit("CollationReferenceSegment");
    assert("IgnoreRespectNullsGrammar"@[0] != "CollationReferenceSegment"@[0]);
    reveal_strlit("CreateSequenceOptionsSegment");
    assert("IgnoreRespectNullsGrammar"@.len() != "CreateSequenceOptionsSegment"@.len());
    reveal_strlit("CreateSequenceStatementSegment");
    assert("IgnoreRespectNullsGrammar"@.len() != "CreateSequenceStatementSegment"@.len());
    reveal_strlit("CreateTriggerStatementSegment");
    assert("IgnoreRespectNullsGrammar"@.len() != "CreateTriggerStatementSegment"@.len());
    reveal_strlit("DatabaseReferenceSegment");
    assert("IgnoreRespectNullsGrammar"@.len() != "DatabaseReferenceSegment"@.len());
    reveal_strlit("DescribeStatementSegment");
    assert("IgnoreRespectNullsGrammar"@.len() != "DescribeStatementSegment"@.len());
    reveal_strlit("DropModelStatementSegment");
    assert("IgnoreRespectNullsGrammar"@[0] != "DropModelStatementSegment"@[0]);
    reveal_strlit("DropTriggerStatementSegment");
    assert("IgnoreRespectNullsGrammar"@.len() != "DropTriggerStatementSegment"@.len());
    reveal_strlit("ExplainStatementSegment");
    assert("IgnoreRespectNullsGrammar"@.len() != "ExplainStatementSegment"@.len());
    reveal_strlit("IndexReferenceSegment");
    assert("IgnoreRespectNullsGrammar"@.len() != "IndexReferenceSegment"@.len());
    reveal_strlit("JoinClauseSegment");
    assert("IgnoreRespectNullsGrammar"@.len() != "JoinClauseSegment"@.len());
    reveal_strlit("JoinOnConditionSegment");
    assert("IgnoreRespectNullsGrammar"@.len() != "JoinOnConditionSegment"@.len());
    reveal_strlit("NamedWindowSegment");
    assert("IgnoreRespectNullsGrammar"@.len() != "NamedWindowSegment"@.len());
    reveal_strlit("OverClauseSegment");
    assert("IgnoreRespectNullsGrammar"@.len() != "OverClauseSegment"@.len());
    reveal_strlit("PartitionClauseSegment");
    assert("IgnoreRespectNullsGrammar"@.len() != "PartitionClauseSegment"@.len());
    reveal_strlit("SamplingExpressionSegment");
    assert("IgnoreRespectNullsGrammar"@[0] != "SamplingExpressionSegment"@[0]);
    reveal_strlit("SequenceReferenceSegment");
    assert("IgnoreRespectNullsGrammar"@.len() != "SequenceReferenceSegment"@.len());
    reveal_strlit("TableConstraintSegment");
    assert("IgnoreRespectNullsGrammar"@.len() != "TableConstraintSegment"@.len());
    reveal_strlit("TableExpressionSegment");
    assert("IgnoreRespectNullsGrammar"@.len() != "TableExpressionSegment"@.len());
    reveal_strlit("TriggerReferenceSegment");
    assert("IgnoreRespectNullsGrammar"@.len() != "TriggerReferenceSegment"@.len());
    reveal_strlit("UseStatementSegment");
    assert("IgnoreRespectNullsGrammar"@.len() != "UseStatementSegment"@.len());
    reveal_strlit("WindowSpecificationSegment");
    assert("IgnoreRespectNullsGrammar"@.len() != "WindowSpecificationSegment"@.len());
}

proof fn lemma_part_7_keeps_ignore_respect_nulls_grammar(m: Map<Seq<char>, ElementView>)
    requires
        m.dom().contains("IgnoreRespectNullsGrammar"@),
    ensures
        ansi_library_part_7(m).dom().contains("IgnoreRespectNullsGrammar"@),
        ansi_library_part_7(m)["IgnoreRespectNullsGrammar"@] == m["IgnoreRespectNullsGrammar"@],
{
    reveal_strlit("IgnoreRespectNullsGrammar");
    reveal_strlit("AccessStatementSegment");
    assert("IgnoreRespectNullsGrammar"@.len() != "AccessStatementSegment"@.len());
    reveal_strlit("AlterSequenceStatementSegment");
    assert("IgnoreRespectNullsGrammar"@.len() != "AlterSequenceStatementSegment"@.len());
    reveal_strlit("AlterTableStatementSegment");
    assert("IgnoreRespectNullsGrammar"@.len() != "AlterTableStatementSegment"@.len());
    reveal_strlit("CreateCastStatementSegment");
    assert("IgnoreRespectNullsGrammar"@.len() != "CreateCastStatementSegment"@.len());
    reveal_strlit("CreateDatabaseStatementSegment");
    assert("IgnoreRespectNullsGrammar"@.len() != "CreateDatabaseStatementSegment"@.len());
    reveal_strlit("CreateFunctionStatementSegment");
    assert("IgnoreRespectNullsGrammar"@.len() != "CreateFunctionStatementSegment"@.len());
    reveal_strlit("CreateIndexStatementSegment");
    assert("IgnoreRespectNullsGrammar"@.len() != "CreateIndexStatementSegment"@.len());
    reveal_strlit("CreateModelStatementSegment");
    assert("IgnoreRespectNullsGrammar"@.len() != "CreateModelStatementSegment"@.len());
    reveal_strlit("CreateRoleStatementSegment");
    assert("IgnoreRespectNullsGrammar"@.len() != "CreateRoleStatementSegment"@.len());
    reveal_strlit("CreateTableStatementSegment");
    assert("IgnoreRespectNullsGrammar"@.len() != "CreateTableStatementSegment"@.len());
    reveal_strlit("CreateViewStatementSegment");
    assert("IgnoreRespectNullsGrammar"@.len() != "CreateViewStatementSegment"@.len());
    reveal_strlit("DeleteStatementSegment");
    assert("IgnoreRespectNullsGrammar"@.len() != "DeleteStatementSegment"@.len());
    reveal_strlit("DropCastStatementSegment");
    assert("IgnoreRespectNullsGrammar"@.len() != "DropCastStatementSegment"@.len());
    reveal_strlit("DropDatabaseStatementSegment");
    assert("IgnoreRespectNullsGrammar"@.len() != "DropDatabaseStatementSegment"@.len());
    reveal_strlit("DropFunctionStatementSegment");
    assert("IgnoreRespectNullsGrammar"@.len() != "DropFunctionStatementSegment"@.len());
    reveal_strlit("DropIndexStatementSegment");
    assert("IgnoreRespectNullsGrammar"@[0] != "DropIndexStatementSegment"@[0]);
    reveal_strlit("DropRoleStatementSegment");
    assert("IgnoreRespectNullsGrammar"@.len() != "DropRoleStatementSegment"@.len());
    reveal_strlit("DropSchemaStatementSegment");
    assert("IgnoreRespectNullsGrammar"@.len() != "DropSchemaStatementSegment"@.len());
    reveal_strlit("DropSequenceStatementSegment");
    assert("IgnoreRespectNullsGrammar"@.len() != "DropSequenceStatementSegment"@.len());
    reveal_strlit("DropTypeStatementSegment");
    assert("IgnoreRespectNullsGrammar"@.len() != "DropTypeStatementSegment"@.len());
    reveal_strlit("FunctionParameterListGrammar");
    assert("IgnoreRespectNullsGrammar"@.len() != "FunctionParameterListGrammar"@.len());
    reveal_strlit("InsertStatementSegment");
    assert("IgnoreRespectNullsGrammar"@.len() != "InsertStatementSegment"@.len());
    reveal_strlit("SetSchemaStatementSegment");
    assert("IgnoreRespectNullsGrammar"@[0] != "SetSchemaStatementSegment"@[0]);
    reveal_strlit("TransactionStatementSegment");
    assert("IgnoreRespectNullsGrammar"@.len() != "TransactionStatementSegment"@.len());
    reveal_strlit("UpdateStatementSegment");
    assert("IgnoreRespectNullsGrammar"@.len() != "UpdateStatementSegment"@.len());
}

proof fn lemma_part_8_keeps_ignore_respect_nulls_grammar(m: Map<Seq<char>, ElementView>)
    requires
        m.dom().contains("IgnoreRespectNullsGrammar"@),
    ensures
        ansi_library_part_8(m).dom().contains("IgnoreRespectNullsGrammar"@),
        ansi_library_part_8(m)["IgnoreRespectNullsGrammar"@] == m["IgnoreRespectNullsGrammar"@],
{
    reveal_strlit("IgnoreRespectNullsGrammar");
    reveal_strlit("AggregateOrderByClause");
    assert("IgnoreRespectNullsGrammar"@.len() != "AggregateOrderByClause"@.len());
    reveal_strlit("ArrayExpressionSegment");
    assert("IgnoreRespectNullsGrammar"@.len() != "ArrayExpressionSegment"@.len());
    reveal_strlit("BitwiseAndSegment");
    assert("IgnoreRespectNullsGrammar"@.len() != "BitwiseAndSegment"@.len());
    reveal_strlit("BitwiseLShiftSegment");
    assert("IgnoreRespectNullsGrammar"@.len() != "BitwiseLShiftSegment"@.len());
    reveal_strlit("BitwiseOrSegment");
    assert("IgnoreRespectNullsGrammar"@.len() != "BitwiseOrSegment"@.len());
    reveal_strlit("BitwiseRShiftSegment");
    assert("IgnoreRespectNullsGrammar"@.len() != "BitwiseRShiftSegment"@.len());
    reveal_strlit("ConcatSegment");
    assert("IgnoreRespectNullsGrammar"@.len() != "ConcatSegment"@.len());
    reveal_strlit("CreateUserStatementSegment");
    assert("IgnoreRespectNullsGrammar"@.len() != "CreateUserStatementSegment"@.len());
    reveal_strlit("DropTableStatementSegment");
    assert("IgnoreRespectNullsGrammar"@[0] != "DropTableStatementSegment"@[0]);
    reveal_strlit("DropUserStatementSegment");
    assert("IgnoreRespectNullsGrammar"@.len() != "DropUserStatementSegment"@.len());
    reveal_strlit("DropViewStatementSegment");
    assert("IgnoreRespectNullsGrammar"@.len() != "DropViewStatementSegment"@.len());
    reveal_strlit("ElseClauseSegment");
    assert("IgnoreRespectNullsGrammar"@.len() != "ElseClauseSegment"@.len());
    reveal_strlit("EqualsSegment");
    assert("IgnoreRespectNullsGrammar"@.len() != "EqualsSegment"@.len());
    reveal_strlit("FunctionNameSegment");
    assert("IgnoreRespectNullsGrammar"@.len() != "FunctionNameSegment"@.len());
    reveal_strlit("GreaterThanOrEqualToSegment");
    assert("IgnoreRespectNullsGrammar"@.len() != "GreaterThanOrEqualToSegment"@.len());
    reveal_strlit("GreaterThanSegment");
    assert("IgnoreRespectNullsGrammar"@.len() != "GreaterThanSegment"@.len());
    reveal_strlit("IndexColumnDefinitionSegment");
    assert("IgnoreRespectNullsGrammar"@.len() != "IndexColumnDefinitionSegment"@.len());
    reveal_strlit("LessThanOrEqualToSegment");
    assert("IgnoreRespectNullsGrammar"@.len() != "LessThanOrEqualToSegment"@.len());
    reveal_strlit("LessThanSegment");
    assert("IgnoreRespectNullsGrammar"@.len() != "LessThanSegment"@.len());
    reveal_strlit("LocalAliasSegment");
    assert("IgnoreRespectNullsGrammar"@.len() != "LocalAliasSegment"@.len());
    reveal_strlit("MergeStatementSegment");
    assert("IgnoreRespectNullsGrammar"@.len() != "MergeStatementSegment"@.len());
    reveal_strlit("NotEqualToSegment");
    assert("IgnoreRespectNullsGrammar"@.len() != "NotEqualToSegment"@.len());
    reveal_strlit("QualifiedNumericLiteralSegment");
    assert("IgnoreRespectNullsGrammar"@.len() != "QualifiedNumericLiteralSegment"@.len());
    reveal_strlit("WhenClauseSegment");
    assert("IgnoreRespectNullsGrammar"@.len() != "WhenClauseSegment"@.len());
    reveal_strlit("WhereClauseSegment");
    assert("IgnoreRespectNullsGrammar"@.len() != "WhereClauseSegment"@.len());
}

proof fn lemma_part_9_keeps_ignore_respect_nulls_grammar(m: Map<Seq<char>, ElementView>)
    requires
        m.dom().contains("IgnoreRespectNullsGrammar"@),
    ensures
        ansi_library_part_9(m).dom().contains("IgnoreRespectNullsGrammar"@),
        ansi_library_part_9(m)["IgnoreRespectNullsGrammar"@] == m["IgnoreRespectNullsGrammar"@],
{
    reveal_strlit("IgnoreRespectNullsGrammar");
    reveal_strlit("AliasExpressionSegment");
    assert("IgnoreRespectNullsGrammar"@.len() != "AliasExpressionSegment"@.len());
    reveal_strlit("ArrayAccessorSegment");
    assert("IgnoreRespectNullsGrammar"@.len() != "ArrayAccessorSegment"@.len());
    reveal_strlit("ArrayLiteralSegment");
    assert("IgnoreRespectNullsGrammar"@.len() != "ArrayLiteralSegment"@.len());
    reveal_strlit("ArrayTypeSegment");
    assert("IgnoreRespectNullsGrammar"@.len() != "ArrayTypeSegment"@.len());
    reveal_strlit("BracketedArguments");
    assert("IgnoreRespectNullsGrammar"@.len() != "BracketedArguments"@.len());
    reveal_strlit("DatatypeSegment");
    assert("IgnoreRespectNullsGrammar"@.len() != "DatatypeSegment"@.len());
    reveal_strlit("EmptyStructLiteralSegment");
    assert("IgnoreRespectNullsGrammar"@[0] != "EmptyStructLiteralSegment"@[0]);
    reveal_strlit("IntervalExpressionSegment");
    assert("IgnoreRespectNullsGrammar"@[1] != "IntervalExpressionSegment"@[1]);
    reveal_strlit("ObjectLiteralElementSegment");
    assert("IgnoreRespectNullsGrammar"@.len() != "ObjectLiteralElementSegment"@.len());
    reveal_strlit("ObjectLiteralSegment");
    assert("IgnoreRespectNullsGrammar"@.len() != "ObjectLiteralSegment"@.len());
    reveal_strlit("OverlapsClauseSegment");
    assert("IgnoreRespectNullsGrammar"@.len() != "OverlapsClauseSegment"@.len());
    reveal_strlit("SelectClauseSegment");
    assert("IgnoreRespectNullsGrammar"@.len() != "SelectClauseSegment"@.len());
    reveal_strlit("SetOperatorSegment");
    assert("IgnoreRespectNullsGrammar"@.len() != "SetOperatorSegment"@.len());
    reveal_strlit("ShorthandCastSegment");
    assert("IgnoreRespectNullsGrammar"@.len() != "ShorthandCastSegment"@.len());
    reveal_strlit("SizedArrayTypeSegment");
    assert("IgnoreRespectNullsGrammar"@.len() != "SizedArrayTypeSegment"@.len());
    reveal_strlit("StatementSegment");
    assert("IgnoreRespectNullsGrammar"@.len() != "StatementSegment"@.len());
    reveal_strlit("StructLiteralSegment");
    assert("IgnoreRespectNullsGrammar"@.len() != "StructLiteralSegment"@.len());
    reveal_strlit("StructTypeSegment");
    assert("IgnoreRespectNullsGrammar"@.len() != "StructTypeSegment"@.len());
    reveal_strlit("TimeZoneGrammar");
    assert("IgnoreRespectNullsGrammar"@.len() != "TimeZoneGrammar"@.len());
    reveal_strlit("TypedArrayLiteralSegment");
    assert("IgnoreRespectNullsGrammar"@.len() != "TypedArrayLiteralSegment"@.len());
    reveal_strlit("TypedStructLiteralSegment");
    assert("IgnoreRespectNullsGrammar"@[0] != "TypedStructLiteralSegment"@[0]);
    reveal_strlit("UnorderedSelectStatementSegment");
    assert("IgnoreRespectNullsGrammar"@.len() != "UnorderedSelectStatementSegment"@.len());
    reveal_strlit("ValuesClauseSegment");
    assert("IgnoreRespectNullsGrammar"@.len() != "ValuesClauseSegment"@.len());
    reveal_strlit("WithDataClauseSegment");
    assert("IgnoreRespectNullsGrammar"@.len() != "WithDataClauseSegment"@.len());
    reveal_strlit("WithNoSchemaBindingClauseSegment");
    assert("IgnoreRespectNullsGrammar"@.len() != "WithNoSchemaBindingClauseSegment"@.len());
}

proof fn lemma_part_10_keeps_ignore_respect_nulls_grammar(m: Map<Seq<char>, ElementView>)
    requires
        m.dom().contains("IgnoreRespectNullsGrammar"@),
    ensures
        ansi_library_part_10(m).dom().contains("IgnoreRespectNullsGrammar"@),
        ansi_library_part_10(m)["IgnoreRespectNullsGrammar"@] == m["IgnoreRespectNullsGrammar"@],
{
    reveal_strlit("IgnoreRespectNullsGrammar");
    reveal_strlit("AccessStatementSegmentGrantRoleWithOptionGrammar");
    assert("IgnoreRespectNullsGrammar"@.len() != "AccessStatementSegmentGrantRoleWithOptionGrammar"@.len());
    reveal_strlit("AliasedTableReferenceGrammar");
    assert("IgnoreRespectNullsGrammar"@.len() != "AliasedTableReferenceGrammar"@.len());
    reveal_strlit("CharCharacterSetGrammar");
    assert("IgnoreRespectNullsGrammar"@.len() != "CharCharacterSetGrammar"@.len());
    reveal_strlit("CreateSchemaStatementSegment");
    assert("IgnoreRespectNullsGrammar"@.len() != "CreateSchemaStatementSegment"@.len());
    reveal_strlit("DatePartFunctionNameSegment");
    assert("IgnoreRespectNullsGrammar"@.len() != "DatePartFunctionNameSegment"@.len());
    reveal_strlit("EmptyStructLiteralBracketsSegment");
    assert("IgnoreRespectNullsGrammar"@.len() != "EmptyStructLiteralBracketsSegment"@.len());
    reveal_strlit("Expression_A_Grammar");
    assert("IgnoreRespectNullsGrammar"@.len() != "Expression_A_Grammar"@.len());
    reveal_strlit("Expression_A_Unary_Operator_Grammar");
    assert("IgnoreRespectNullsGrammar"@.len() != "Expression_A_Unary_Operator_Grammar"@.len());
    reveal_strlit("Expression_B_Unary_Operator_Grammar");
    assert("IgnoreRespectNullsGrammar"@.len() != "Expression_B_Unary_Operator_Grammar"@.len());
    reveal_strlit("FromClauseSegment");
    assert("IgnoreRespectNullsGrammar"@.len() != "FromClauseSegment"@.len());
    reveal_strlit("FromExpressionSegment");
    assert("IgnoreRespectNullsGrammar"@.len() != "FromExpressionSegment"@.len());
    reveal_strlit("FunctionContentsExpressionGrammar");
    assert("IgnoreRespectNullsGrammar"@.len() != "FunctionContentsExpressionGrammar"@.len());
    reveal_strlit("FunctionContentsGrammar");
    assert("IgnoreRespectNullsGrammar"@.len() != "FunctionContentsGrammar"@.len());
    reveal_strlit("FunctionContentsSegment");
    assert("IgnoreRespectNullsGrammar"@.len() != "FunctionContentsSegment"@.len());
    reveal_strlit("JoinLikeClauseGrammar");
    assert("IgnoreRespectNullsGrammar"@.len() != "JoinLikeClauseGrammar"@.len());
    reveal_strlit("OrderByClauseSegment");
    assert("IgnoreRespectNullsGrammar"@.len() != "OrderByClauseSegment"@.len());
    reveal_strlit("PostFunctionGrammar");
    assert("IgnoreRespectNullsGrammar"@.len() != "PostFunctionGrammar"@.len());
    reveal_strlit("SelectClauseElementSegment");
    assert("IgnoreRespectNullsGrammar"@.len() != "SelectClauseElementSegment"@.len());
    reveal_strlit("SelectClauseModifierSegment");
    assert("IgnoreRespectNullsGrammar"@.len() != "SelectClauseModifierSegment"@.len());
    reveal_strlit("SelectStatementSegment");
    assert("IgnoreRespectNullsGrammar"@.len() != "SelectStatementSegment"@.len());
    reveal_strlit("SetExpressionSegment");
    assert("IgnoreRespectNullsGrammar"@.len() != "SetExpressionSegment"@.len());
    reveal_strlit("Tail_Recurse_Expression_A_Grammar");
    assert("IgnoreRespectNullsGrammar"@.len() != "Tail_Recurse_Expression_A_Grammar"@.len());
    reveal_strlit("Tail_Recurse_Expression_B_Grammar");
    assert("IgnoreRespectNullsGrammar"@.len() != "Tail_Recurse_Expression_B_Grammar"@.len());
    reveal_strlit("TruncateStatementSegment");
    assert("IgnoreRespectNullsGrammar"@.len() != "TruncateStatementSegment"@.len());
    reveal_strlit("WildcardExpressionSegment");
    assert("IgnoreRespectNullsGrammar"@[0] != "WildcardExpressionSegment"@[0]);
}

proof fn lemma_part_11_keeps_ignore_respect_nulls_grammar(m: Map<Seq<char>, ElementView>)
    requires
        m.dom().contains("IgnoreRespectNullsGrammar"@),
    ensures
        ansi_library_part_11(m).dom().contains("IgnoreRespectNullsGrammar"@),
        ansi_library_part_11(m)["IgnoreRespectNullsGrammar"@] == m["IgnoreRespectNullsGrammar"@],
{
    reveal_strlit("IgnoreRespectNullsGrammar");
    reveal_strlit("AccessorGrammar");
    assert("IgnoreRespectNullsGrammar"@.len() != "AccessorGrammar"@.len());
    reveal_strlit("Expression_B_Grammar");
    assert("IgnoreRespectNullsGrammar"@.len() != "Expression_B_Grammar"@.len());
    reveal_strlit("Expression_C_Grammar");
    assert("IgnoreRespectNullsGrammar"@.len() != "Expression_C_Grammar"@.len());
    reveal_strlit("Expression_D_Grammar");
    assert("IgnoreRespectNullsGrammar"@.len() != "Expression_D_Grammar"@.len());
    reveal_strlit("NonSetSelectableGrammar");
    assert("IgnoreRespectNullsGrammar"@.len() != "NonSetSelectableGrammar"@.len());
    reveal_strlit("NonWithNonSelectableGrammar");
    assert("IgnoreRespectNullsGrammar"@.len() != "NonWithNonSelectableGrammar"@.len());
    reveal_strlit("NonWithSelectableGrammar");
    assert("IgnoreRespectNullsGrammar"@.len() != "NonWithSelectableGrammar"@.len());
    reveal_strlit("PostTableExpressionGrammar");
    assert("IgnoreRespectNullsGrammar"@.len() != "PostTableExpressionGrammar"@.len());
    reveal_strlit("SelectableGrammar");
    assert("IgnoreRespectNullsGrammar"@.len() != "SelectableGrammar"@.len());
    reveal_strlit("TimeWithTZGrammar");
    assert("IgnoreRespectNullsGrammar"@.len() != "TimeWithTZGrammar"@.len());
}

/// The ANSI library holds `IgnoreRespectNullsGrammar`: the value of its last entry of that name.
pub proof fn lemma_ansi_library_ignore_respect_nulls_grammar(lib: Map<Seq<char>, ElementView>)
    ensures
        ansi_library(lib).dom().contains("IgnoreRespectNullsGrammar"@),
        ansi_library(lib)["IgnoreRespectNullsGrammar"@] == ignore_respect_nulls_grammar_element(),
{
    reveal(ansi_library);
    let m0 = lib;
    let m1 = ansi_library_part_0(m0);
    let m2 = ansi_library_part_1(m1);
    let m3 = ansi_library_part_2(m2);
    let m4 = ansi_library_part_3(m3);
    let m5 = ansi_library_part_4(m4);
    let m6 = ansi_library_part_5(m5);
    let m7 = ansi_library_part_6(m6);
    let m8 = ansi_library_part_7(m7);
    let m9 = ansi_library_part_8(m8);
    let m10 = ansi_library_part_9(m9);
    let m11 = ansi_library_part_10(m10);
    let m12 = ansi_library_part_11(m11);
    lemma_part_3_sets_ignore_respect_nulls_grammar(m3);
    lemma_part_4_keeps_ignore_respect_nulls_grammar(m4);
    lemma_part_5_keeps_ignore_respect_nulls_grammar(m5);
    lemma_part_6_keeps_ignore_respect_nulls_grammar(m6);
    lemma_part_7_keeps_ignore_respect_nulls_grammar(m7);
    lemma_part_8_keeps_ignore_respect_nulls_grammar(m8);
    lemma_part_9_keeps_ignore_respect_nulls_grammar(m9);
    lemma_part_10_keeps_ignore_respect_nulls_grammar(m10);
    lemma_part_11_keeps_ignore_respect_nulls_grammar(m11);
}

proof fn lemma_part_3_sets_frame_clause_unit_grammar(m: Map<Seq<char>, ElementView>)
    ensures
        ansi_library_part_3(m).dom().contains("FrameClauseUnitGrammar"@),
        ansi_library_part_3(m)["FrameClauseUnitGrammar"@] == frame_clause_unit_grammar_element(),
{
    reveal_strlit("FrameClauseUnitGrammar");
    reveal_strlit("DropBehaviorGrammar");
    assert("FrameClauseUnitGrammar"@.len() != "DropBehaviorGrammar"@.len());
    reveal_strlit("ExtendedNaturalJoinKeywordsGrammar");
    assert("FrameClauseUnitGrammar"@.len() != "ExtendedNaturalJoinKeywordsGrammar"@.len());
    reveal_strlit("JoinKeywordsGrammar");
    assert("FrameClauseUnitGrammar"@.len() != "JoinKeywordsGrammar"@.len());
    reveal_strlit("JoinTypeKeywordsGrammar");
    assert("FrameClauseUnitGrammar"@.len() != "JoinTypeKeywordsGrammar"@.len());
    reveal_strlit("NaturalJoinKeywordsGrammar");
    assert("FrameClauseUnitGrammar"@.len() != "NaturalJoinKeywordsGrammar"@.len());
    reveal_strlit("NestedJoinGrammar");
    assert("FrameClauseUnitGrammar"@.len() != "NestedJoinGrammar"@.len());
    reveal_strlit("ReferentialActionGrammar");
    assert("FrameClauseUnitGrammar"@.len() != "ReferentialActionGrammar"@.len());
}

proof fn lemma_part_4_keeps_frame_clause_unit_grammar(m: Map<Seq<char>, ElementView>)
    requires
        m.dom().contains("FrameClauseUnitGrammar"@),
    ensures
        ansi_library_part_4(m).dom().contains("FrameClauseUnitGrammar"@),
        ansi_library_part_4(m)["FrameClauseUnitGrammar"@] == m["FrameClauseUnitGrammar"@],
{
    reveal_strlit("FrameClauseUnitGrammar");
    reveal_strlit("AlterTableDropColumnGrammar");
    assert("FrameClauseUnitGrammar"@.len() != "AlterTableDropColumnGrammar"@.len());
    reveal_strlit("AlterTableOptionsGrammar");
    assert("FrameClauseUnitGrammar"@.len() != "AlterTableOptionsGrammar"@.len());
    reveal_strlit("ColumnConstraintDefaultGrammar");
    assert("FrameClauseUnitGrammar"@.len() != "ColumnConstraintDefaultGrammar"@.len());
    reveal_strlit("ColumnReferenceSegment");
    assert("FrameClauseUnitGrammar"@[0] != "ColumnReferenceSegment"@[0]);
    reveal_strlit("CubeFunctionNameSegment");
    assert("FrameClauseUnitGrammar"@.len() != "CubeFunctionNameSegment"@.len());
    reveal_strlit("CubeRollupClauseSegment");
    assert("FrameClauseUnitGrammar"@.len() != "CubeRollupClauseSegment"@.len());
    reveal_strlit("DateTimeFunctionContentsSegment");
    assert("FrameClauseUnitGrammar"@.len() != "DateTimeFunctionContentsSegment"@.len());
    reveal_strlit("DefaultValuesGrammar");
    assert("FrameClauseUnitGrammar"@.len() != "DefaultValuesGrammar"@.len());
    reveal_strlit("ExpressionSegment");
    assert("FrameClauseUnitGrammar"@.len() != "ExpressionSegment"@.len());
    reveal_strlit("FetchClauseSegment");
    assert("FrameClauseUnitGrammar"@.len() != "FetchClauseSegment"@.len());
    reveal_strlit("FileSegment");
    assert("FrameClauseUnitGrammar"@.len() != "FileSegment"@.len());
    reveal_strlit("FunctionSegment");
    assert("FrameClauseUnitGrammar"@.len() != "FunctionSegment"@.len());
    reveal_strlit("GroupingExpressionList");
    assert("FrameClauseUnitGrammar"@[0] != "GroupingExpressionList"@[0]);
    reveal_strlit("GroupingSetsClauseSegment");
    assert("FrameClauseUnitGrammar"@.len() != "GroupingSetsClauseSegment"@.len());
    reveal_strlit("HavingClauseSegment");
    assert("FrameClauseUnitGrammar"@.len() != "HavingClauseSegment"@.len());
    reveal_strlit("LimitClauseSegment");
    assert("FrameClauseUnitGrammar"@.len() != "LimitClauseSegment"@.len());
    reveal_strlit("NamedWindowExpressionSegment");
    assert("FrameClauseUnitGrammar"@.len() != "NamedWindowExpressionSegment"@.len());
    reveal_strlit("ObjectReferenceDelimiterGrammar");
    assert("FrameClauseUnitGrammar"@.len() != "ObjectReferenceDelimiterGrammar"@.len());
    reveal_strlit("ObjectReferenceTerminatorGrammar");
    assert("FrameClauseUnitGrammar"@.len() != "ObjectReferenceTerminatorGrammar"@.len());
    reveal_strlit("PathSegment");
    assert("FrameClauseUnitGrammar"@.len() != "PathSegment"@.len());
    reveal_strlit("ReferenceDefinitionGrammar");
    assert("FrameClauseUnitGrammar"@.len() != "ReferenceDefinitionGrammar"@.len());
    reveal_strlit("RollupFunctionNameSegment");
    assert("FrameClauseUnitGrammar"@.len() != "RollupFunctionNameSegment"@.len());
    reveal_strlit("SetClauseSegment");
    assert("FrameClauseUnitGrammar"@.len() != "SetClauseSegment"@.len());
    reveal_strlit("TrimParametersGrammar");
    assert("FrameClauseUnitGrammar"@.len() != "TrimParametersGrammar"@.len());
    reveal_strlit("WildcardIdentifierSegment");
    assert("FrameClauseUnitGrammar"@.len() != "WildcardIdentifierSegment"@.len());
}

proof fn lemma_part_5_keeps_frame_clause_unit_grammar(m: Map<Seq<char>, ElementView>)
    requires
        m.dom().contains("FrameClauseUnitGrammar"@),
    ensures
        ansi_library_part_5(m).dom().contains("FrameClauseUnitGrammar"@),
        ansi_library_part_5(m)["FrameClauseUnitGrammar"@] == m["FrameClauseUnitGrammar"@],
{
    reveal_strlit("FrameClauseUnitGrammar");
    reveal_strlit("AlterSequenceOptionsSegment");
    assert("FrameClauseUnitGrammar"@.len() != "AlterSequenceOptionsSegment"@.len());
    reveal_strlit("CTEColumnList");
    assert("FrameClauseUnitGrammar"@.len() != "CTEColumnList"@.len());
    reveal_strlit("CTEDefinitionSegment");
    assert("FrameClauseUnitGrammar"@.len() != "CTEDefinitionSegment"@.len());
    reveal_strlit("ColumnConstraintSegment");
    assert("FrameClauseUnitGrammar"@.len() != "ColumnConstraintSegment"@.len());
    reveal_strlit("ColumnDefinitionSegment");
    assert("FrameClauseUnitGrammar"@.len() != "ColumnDefinitionSegment"@.len());
    reveal_strlit("CommentClauseSegment");
    assert("FrameClauseUnitGrammar"@.len() != "CommentClauseSegment"@.len());
    reveal_strlit("ExtensionReferenceSegment");
    assert("FrameClauseUnitGrammar"@.len() != "ExtensionReferenceSegment"@.len());
    reveal_strlit("FrameClauseSegment");
    assert("FrameClauseUnitGrammar"@.len() != "FrameClauseSegment"@.len());
    reveal_strlit("FunctionDefinitionGrammar");
    assert("FrameClauseUnitGrammar"@.len() != "FunctionDefinitionGrammar"@.len());
    reveal_strlit("GroupByClauseSegment");
    assert("FrameClauseUnitGrammar"@.len() != "GroupByClauseSegment"@.len());
    reveal_strlit("MergeDeleteClauseSegment");
    assert("FrameClauseUnitGrammar"@.len() != "MergeDeleteClauseSegment"@.len());
    reveal_strlit("MergeInsertClauseSegment");
    assert("FrameClauseUnitGrammar"@.len() != "MergeInsertClauseSegment"@.len());
    reveal_strlit("MergeMatchSegment");
    assert("FrameClauseUnitGrammar"@.len() != "MergeMatchSegment"@.len());
    reveal_strlit("MergeMatchedClauseSegment");
    assert("FrameClauseUnitGrammar"@.len() != "MergeMatchedClauseSegment"@.len());
    reveal_strlit("MergeNotMatchedClauseSegment");
    assert("FrameClauseUnitGrammar"@.len() != "MergeNotMatchedClauseSegment"@.len());
    reveal_strlit("MergeUpdateClauseSegment");
    assert("FrameClauseUnitGrammar"@.len() != "MergeUpdateClauseSegment"@.len());
    reveal_strlit("RoleReferenceSegment");
    assert("FrameClauseUnitGrammar"@.len() != "RoleReferenceSegment"@.len());
    reveal_strlit("SchemaReferenceSegment");
    assert("FrameClauseUnitGrammar"@[0] != "SchemaReferenceSegment"@[0]);
    reveal_strlit("SetClauseListSegment");
    assert("FrameClauseUnitGrammar"@.len() != "SetClauseListSegment"@.len());
    reveal_strlit("SingleIdentifierListSegment");
    assert("FrameClauseUnitGrammar"@.len() != "SingleIdentifierListSegment"@.len());
    reveal_strlit("TableEndClauseSegment");
    assert("FrameClauseUnitGrammar"@.len() != "TableEndClauseSegment"@.len());
    reveal_strlit("TablespaceReferenceSegment");
    assert("FrameClauseUnitGrammar"@.len() != "TablespaceReferenceSegment"@.len());
    reveal_strlit("TagReferenceSegment");
    assert("FrameClauseUnitGrammar"@.len() != "TagReferenceSegment"@.len());
    reveal_strlit("WithCompoundNonSelectStatementSegment");
    assert("FrameClauseUnitGrammar"@.len() != "WithCompoundNonSelectStatementSegment"@.len());
    reveal_strlit("WithCompoundStatementSegment");
    assert("FrameClauseUnitGrammar"@.len() != "WithCompoundStatementSegment"@.len());
}

proof fn lemma_part_6_keeps_frame_clause_unit_grammar(m: Map<Seq<char>, ElementView>)
    requires
        m.dom().contains("FrameClauseUnitGrammar"@),
    ensures
        ansi_library_part_6(m).dom().contains("FrameClauseUnitGrammar"@),
        ansi_library_part_6(m)["FrameClauseUnitGrammar"@] == m["FrameClauseUnitGrammar"@],
{
    reveal_strlit("FrameClauseUnitGrammar");
    reveal_strlit("CollationReferenceSegment");
    assert("FrameClauseUnitGrammar"@.len() != "CollationReferenceSegment"@.len());
    reveal_strlit("CreateSequenceOptionsSegment");
    assert("FrameClauseUnitGrammar"@.len() != "CreateSequenceOptionsSegment"@.len());
    reveal_strlit("CreateSequenceStatementSegment");
    assert("FrameClauseUnitGrammar"@.len() != "CreateSequenceStatementSegment"@.len());
    reveal_strlit("CreateTriggerStatementSegment");
    assert("FrameClauseUnitGrammar"@.len() != "CreateTriggerStatementSegment"@.len());
    reveal_strlit("DatabaseReferenceSegment");
    assert("FrameClauseUnitGrammar"@.len() != "DatabaseReferenceSegment"@.len());
    reveal_strlit("DescribeStatementSegment");
    assert("FrameClauseUnitGrammar"@.len() != "DescribeStatementSegment"@.len());
    reveal_strlit("DropModelStatementSegment");
    assert("FrameClauseUnitGrammar"@.len() != "DropModelStatementSegment"@.len());
    reveal_strlit("DropTriggerStatementSegment");
    assert("FrameClauseUnitGrammar"@.len() != "DropTriggerStatementSegment"@.len());
    reveal_strlit("ExplainStatementSegment");
    assert("FrameClauseUnitGrammar"@.len() != "ExplainStatementSegment"@.len());
    reveal_strlit("IndexReferenceSegment");
    assert("FrameClauseUnitGrammar"@.len() != "IndexReferenceSegment"@.len());
    reveal_strlit("JoinClauseSegment");
    assert("FrameClauseUnitGrammar"@.len() != "JoinClauseSegment"@.len());
    reveal_strlit("JoinOnConditionSegment");
    assert("FrameClauseUnitGrammar"@[0] != "JoinOnConditionSegment"@[0]);
    reveal_strlit("NamedWindowSegment");
    assert("FrameClauseUnitGrammar"@.len() != "NamedWindowSegment"@.len());
    reveal_strlit("OverClauseSegment");
    assert("FrameClauseUnitGrammar"@.len() != "OverClauseSegment"@.len());
    reveal_strlit("PartitionClauseSegment");
    assert("FrameClauseUnitGrammar"@[0] != "PartitionClauseSegment"@[0]);
    reveal_strlit("SamplingExpressionSegment");
    assert("FrameClauseUnitGrammar"@.len() != "SamplingExpressionSegment"@.len());
    reveal_strlit("SequenceReferenceSegment");
    assert("FrameClauseUnitGrammar"@.len() != "SequenceReferenceSegment"@.len());
    reveal_strlit("TableConstraintSegment");
    assert("FrameClauseUnitGrammar"@[0] != "TableConstraintSegment"@[0]);
    reveal_strlit("TableExpressionSegment");
    assert("FrameClauseUnitGrammar"@[0] != "TableExpressionSegment"@[0]);
    reveal_strlit("TriggerReferenceSegment");
    assert("FrameClauseUnitGrammar"@.len() != "TriggerReferenceSegment"@.len());
    reveal_strlit("UseStatementSegment");
    assert("FrameClauseUnitGrammar"@.len() != "UseStatementSegment"@.len());
    reveal_strlit("WindowSpecificationSegment");
    assert("FrameClauseUnitGrammar"@.len() != "WindowSpecificationSegment"@.len());
}

proof fn lemma_part_7_keeps_frame_clause_unit_grammar(m: Map<Seq<char>, ElementView>)
    requires
        m.dom().contains("FrameClauseUnitGrammar"@),
    ensures
        ansi_library_part_7(m).dom().contains("FrameClauseUnitGrammar"@),
        ansi_library_part_7(m)["FrameClauseUnitGrammar"@] == m["FrameClauseUnitGrammar"@],
{
    reveal_strlit("FrameClauseUnitGrammar");
    reveal_strlit("AccessStatementSegment");
    assert("FrameClauseUnitGrammar"@[0] != "AccessStatementSegment"@[0]);
    reveal_strlit("AlterSequenceStatementSegment");
    assert("FrameClauseUnitGrammar"@.len() != "AlterSequenceStatementSegment"@.len());
    reveal_strlit("AlterTableStatementSegment");
    assert("FrameClauseUnitGrammar"@.len() != "AlterTableStatementSegment"@.len());
    reveal_strlit("CreateCastStatementSegment");
    assert("FrameClauseUnitGrammar"@.len() != "CreateCastStatementSegment"@.len());
    reveal_strlit("CreateDatabaseStatementSegment");
    assert("FrameClauseUnitGrammar"@.len() != "CreateDatabaseStatementSegment"@.len());
    reveal_strlit("CreateFunctionStatementSegment");
    assert("FrameClauseUnitGrammar"@.len() != "CreateFunctionStatementSegment"@.len());
    reveal_strlit("CreateIndexStatementSegment");
    assert("FrameClauseUnitGrammar"@.len() != "CreateIndexStatementSegment"@.len());
    reveal_strlit("CreateModelStatementSegment");
    assert("FrameClauseUnitGrammar"@.len() != "CreateModelStatementSegment"@.len());
    reveal_strlit("CreateRoleStatementSegment");
    assert("FrameClauseUnitGrammar"@.len() != "CreateRoleStatementSegment"@.len());
    reveal_strlit("CreateTableStatementSegment");
    assert("FrameClauseUnitGrammar"@.len() != "CreateTableStatementSegment"@.len());
    reveal_strlit("CreateViewStatementSegment");
    assert("FrameClauseUnitGrammar"@.len() != "CreateViewStatementSegment"@.len());
    reveal_strlit("DeleteStatementSegment");
    assert("FrameClauseUnitGrammar"@[0] != "DeleteStatementSegment"@[0]);
    reveal_strlit("DropCastStatementSegment");
    assert("FrameClauseUnitGrammar"@.len() != "DropCastStatementSegment"@.len());
    reveal_strlit("DropDatabaseStatementSegment");
    assert("FrameClauseUnitGrammar"@.len() != "DropDatabaseStatementSegment"@.len());
    reveal_strlit("DropFunctionStatementSegment");
    assert("FrameClauseUnitGrammar"@.len() != "DropFunctionStatementSegment"@.len());
    reveal_strlit("DropIndexStatementSegment");
    assert("FrameClauseUnitGrammar"@.len() != "DropIndexStatementSegment"@.len());
    reveal_strlit("DropRoleStatementSegment");
    assert("FrameClauseUnitGrammar"@.len() != "DropRoleStatementSegment"@.len());
    reveal_strlit("DropSchemaStatementSegment");
    assert("FrameClauseUnitGrammar"@.len() != "DropSchemaStatementSegment"@.len());
    reveal_strlit("DropSequenceStatementSegment");
    assert("FrameClauseUnitGrammar"@.len() != "DropSequenceStatementSegment"@.len());
    reveal_strlit("DropTypeStatementSegment");
    assert("FrameClauseUnitGrammar"@.len() != "DropTypeStatementSegment"@.len());
    reveal_strlit("FunctionParameterListGrammar");
    assert("FrameClauseUnitGrammar"@.len() != "FunctionParameterListGrammar"@.len());
    reveal_strlit("InsertStatementSegment");
    assert("FrameClauseUnitGrammar"@[0] != "InsertStatementSegment"@[0]);
    reveal_strlit("SetSchemaStatementSegment");
    assert("FrameClauseUnitGrammar"@.len() != "SetSchemaStatementSegment"@.len());
    reveal_strlit("TransactionStatementSegment");
    assert("FrameClauseUnitGrammar"@.len() != "TransactionStatementSegment"@.len());
    reveal_strlit("UpdateStatementSegment");
    assert("FrameClauseUnitGrammar"@[0] != "UpdateStatementSegment"@[0]);
}

proof fn lemma_part_8_keeps_frame_clause_unit_grammar(m: Map<Seq<char>, ElementView>)
    requires
        m.dom().contains("FrameClauseUnitGrammar"@),
    ensures
        ansi_library_part_8(m).dom().contains("FrameClauseUnitGrammar"@),
        ansi_library_part_8(m)["FrameClauseUnitGrammar"@] == m["FrameClauseUnitGrammar"@],
{
    reveal_strlit("FrameClauseUnitGrammar");
    reveal_strlit("AggregateOrderByClause");
    assert("FrameClauseUnitGrammar"@[0] != "AggregateOrderByClause"@[0]);
    reveal_strlit("ArrayExpressionSegment");
    assert("FrameClauseUnitGrammar"@[0] != "ArrayExpressionSegment"@[0]);
    reveal_strlit("BitwiseAndSegment");
    assert("FrameClauseUnitGrammar"@.len() != "BitwiseAndSegment"@.len());
    reveal_strlit("BitwiseLShiftSegment");
    assert("FrameClauseUnitGrammar"@.len() != "BitwiseLShiftSegment"@.len());
    reveal_strlit("BitwiseOrSegment");
    assert("FrameClauseUnitGrammar"@.len() != "BitwiseOrSegment"@.len());
    reveal_strlit("BitwiseRShiftSegment");
    assert("FrameClauseUnitGrammar"@.len() != "BitwiseRShiftSegment"@.len());
    reveal_strlit("ConcatSegment");
    assert("FrameClauseUnitGrammar"@.len() != "ConcatSegment"@.len());
    reveal_strlit("CreateUserStatementSegment");
    assert("FrameClauseUnitGrammar"@.len() != "CreateUserStatementSegment"@.len());
    reveal_strlit("DropTableStatementSegment");
    assert("FrameClauseUnitGrammar"@.len() != "DropTableStatementSegment"@.len());
    reveal_strlit("DropUserStatementSegment");
    assert("FrameClauseUnitGrammar"@.len() != "DropUserStatementSegment"@.len());
    reveal_strlit("DropViewStatementSegment");
    assert("FrameClauseUnitGrammar"@.len() != "DropViewStatementSegment"@.len());
    reveal_strlit("ElseClauseSegment");
    assert("FrameClauseUnitGrammar"@.len() != "ElseClauseSegment"@.len());
    reveal_strlit("EqualsSegment");
    assert("FrameClauseUnitGrammar"@.len() != "EqualsSegment"@.len());
    reveal_strlit("FunctionNameSegment");
    assert("FrameClauseUnitGrammar"@.len() != "FunctionNameSegment"@.len());
    reveal_strlit("GreaterThanOrEqualToSegment");
    assert("FrameClauseUnitGrammar"@.len() != "GreaterThanOrEqualToSegment"@.len());
    reveal_strlit("GreaterThanSegment");
    assert("FrameClauseUnitGrammar"@.len() != "GreaterThanSegment"@.len());
    reveal_strlit("IndexColumnDefinitionSegment");
    assert("FrameClauseUnitGrammar"@.len() != "IndexColumnDefinitionSegment"@.len());
    reveal_strlit("LessThanOrEqualToSegment");
    assert("FrameClauseUnitGrammar"@.len() != "LessThanOrEqualToSegment"@.len());
    reveal_strlit("LessThanSegment");
    assert("FrameClauseUnitGrammar"@.len() != "LessThanSegment"@.len());
    reveal_strlit("LocalAliasSegment");
    assert("FrameClauseUnitGrammar"@.len() != "LocalAliasSegment"@.len());
    reveal_strlit("MergeStatementSegment");
    assert("FrameClauseUnitGrammar"@.len() != "MergeStatementSegment"@.len());
    reveal_strlit("NotEqualToSegment");
    assert("FrameClauseUnitGrammar"@.len() != "NotEqualToSegment"@.len());
    reveal_strlit("QualifiedNumericLiteralSegment");
    assert("FrameClauseUnitGrammar"@.len() != "QualifiedNumericLiteralSegment"@.len());
    reveal_strlit("WhenClauseSegment");
    assert("FrameClauseUnitGrammar"@.len() != "WhenClauseSegment"@.len());
    reveal_strlit("WhereClauseSegment");
    assert("FrameClauseUnitGrammar"@.len() != "WhereClauseSegment"@.len());
}

proof fn lemma_part_9_keeps_frame_clause_unit_grammar(m: Map<Seq<char>, ElementView>)
    requires
        m.dom().contains("FrameClauseUnitGrammar"@),
    ensures
        ansi_library_part_9(m).dom().contains("FrameClauseUnitGrammar"@),
        ansi_library_part_9(m)["FrameClauseUnitGrammar"@] == m["FrameClauseUnitGrammar"@],
{
    reveal_strlit("FrameClauseUnitGrammar");
    reveal_strlit("AliasExpressionSegment");
    assert("FrameClauseUnitGrammar"@[0] != "AliasExpressionSegment"@[0]);
    reveal_strlit("ArrayAccessorSegment");
    assert("FrameClauseUnitGrammar"@.len() != "ArrayAccessorSegment"@.len());
    reveal_strlit("ArrayLiteralSegment");
    assert("FrameClauseUnitGrammar"@.len() != "ArrayLiteralSegment"@.len());
    reveal_strlit("ArrayTypeSegment");
    assert("FrameClauseUnitGrammar"@.len() != "ArrayTypeSegment"@.len());
    reveal_strlit("BracketedArguments");
    assert("FrameClauseUnitGrammar"@.len() != "BracketedArguments"@.len());
    reveal_strlit("DatatypeSegment");
    assert("FrameClauseUnitGrammar"@.len() != "DatatypeSegment"@.len());
    reveal_strlit("EmptyStructLiteralSegment");
    assert("FrameClauseUnitGrammar"@.len() != "EmptyStructLiteralSegment"@.len());
    reveal_strlit("IntervalExpressionSegment");
    assert("FrameClauseUnitGrammar"@.len() != "IntervalExpressionSegment"@.len());
    reveal_strlit("ObjectLiteralElementSegment");
    assert("FrameClauseUnitGrammar"@.len() != "ObjectLiteralElementSegment"@.len());
    reveal_strlit("ObjectLiteralSegment");
    assert("FrameClauseUnitGrammar"@.len() != "ObjectLiteralSegment"@.len());
    reveal_strlit("OverlapsClauseSegment");
    assert("FrameClauseUnitGrammar"@.len() != "OverlapsClauseSegment"@.len());
    reveal_strlit("SelectClauseSegment");
    assert("FrameClauseUnitGrammar"@.len() != "SelectClauseSegment"@.len());
    reveal_strlit("SetOperatorSegment");
    assert("FrameClauseUnitGrammar"@.len() != "SetOperatorSegment"@.len());
    reveal_strlit("ShorthandCastSegment");
    assert("FrameClauseUnitGrammar"@.len() != "ShorthandCastSegment"@.len());
    reveal_strlit("SizedArrayTypeSegment");
    assert("FrameClauseUnitGrammar"@.len() != "SizedArrayTypeSegment"@.len());
    reveal_strlit("StatementSegment");
    assert("FrameClauseUnitGrammar"@.len() != "StatementSegment"@.len());
    reveal_strlit("StructLiteralSegment");
    assert("FrameClauseUnitGrammar"@.len() != "StructLiteralSegment"@.len());
    reveal_strlit("StructTypeSegment");
    assert("FrameClauseUnitGrammar"@.len() != "StructTypeSegment"@.len());
    reveal_strlit("TimeZoneGrammar");
    assert("FrameClauseUnitGrammar"@.len() != "TimeZoneGrammar"@.len());
    reveal_strlit("TypedArrayLiteralSegment");
    assert("FrameClauseUnitGrammar"@.len() != "TypedArrayLiteralSegment"@.len());
    reveal_strlit("TypedStructLiteralSegment");
    assert("FrameClauseUnitGrammar"@.len() != "TypedStructLiteralSegment"@.len());
    reveal_strlit("UnorderedSelectStatementSegment");
    assert("FrameClauseUnitGrammar"@.len() != "UnorderedSelectStatementSegment"@.len());
    reveal_strlit("ValuesClauseSegment");
    assert("FrameClauseUnitGrammar"@.len() != "ValuesClauseSegment"@.len());
    reveal_strlit("WithDataClauseSegment");
    assert("FrameClauseUnitGrammar"@.len() != "WithDataClauseSegment"@.len());
    reveal_strlit("WithNoSchemaBindingClauseSegment");
    assert("FrameClauseUnitGrammar"@.len() != "WithNoSchemaBindingClauseSegment"@.len());
}

proof fn lemma_part_10_keeps_frame_clause_unit_grammar(m: Map<Seq<char>, ElementView>)
    requires
        m.dom().contains("FrameClauseUnitGrammar"@),
    ensures
        ansi_library_part_10(m).dom().contains("FrameClauseUnitGrammar"@),
        ansi_library_part_10(m)["FrameClauseUnitGrammar"@] == m["FrameClauseUnitGrammar"@],
{
    reveal_strlit("FrameClauseUnitGrammar");
    reveal_strlit("AccessStatementSegmentGrantRoleWithOptionGrammar");
    assert("FrameClauseUnitGrammar"@.len() != "AccessStatementSegmentGrantRoleWithOptionGrammar"@.len());
    reveal_strlit("AliasedTableReferenceGrammar");
    assert("FrameClauseUnitGrammar"@.len() != "AliasedTableReferenceGrammar"@.len());
    reveal_strlit("CharCharacterSetGrammar");
    assert("FrameClauseUnitGrammar"@.len() != "CharCharacterSetGrammar"@.len());
    reveal_strlit("CreateSchemaStatementSegment");
    assert("FrameClauseUnitGrammar"@.len() != "CreateSchemaStatementSegment"@.len());
    reveal_strlit("DatePartFunctionNameSegment");
    assert("FrameClauseUnitGrammar"@.len() != "DatePartFunctionNameSegment"@.len());
    reveal_strlit("EmptyStructLiteralBracketsSegment");
    assert("FrameClauseUnitGrammar"@.len() != "EmptyStructLiteralBracketsSegment"@.len());
    reveal_strlit("Expression_A_Grammar");
    assert("FrameClauseUnitGrammar"@.len() != "Expression_A_Grammar"@.len());
    reveal_strlit("Expression_A_Unary_Operator_Grammar");
    assert("FrameClauseUnitGrammar"@.len() != "Expression_A_Unary_Operator_Grammar"@.len());
    reveal_strlit("Expression_B_Unary_Operator_Grammar");
    assert("FrameClauseUnitGrammar"@.len() != "Expression_B_Unary_Operator_Grammar"@.len());
    reveal_strlit("FromClauseSegment");
    assert("FrameClauseUnitGrammar"@.len() != "FromClauseSegment"@.len());
    reveal_strlit("FromExpressionSegment");
    assert("FrameClauseUnitGrammar"@.len() != "FromExpressionSegment"@.len());
    reveal_strlit("FunctionContentsExpressionGrammar");
    assert("FrameClauseUnitGrammar"@.len() != "FunctionContentsExpressionGrammar"@.len());
    reveal_strlit("FunctionContentsGrammar");
    assert("FrameClauseUnitGrammar"@.len() != "FunctionContentsGrammar"@.len());
    reveal_strlit("FunctionContentsSegment");
    assert("FrameClauseUnitGrammar"@.len() != "FunctionContentsSegment"@.len());
    reveal_strlit("JoinLikeClauseGrammar");
    assert("FrameClauseUnitGrammar"@.len() != "JoinLikeClauseGrammar"@.len());
    reveal_strlit("OrderByClauseSegment");
    assert("FrameClauseUnitGrammar"@.len() != "OrderByClauseSegment"@.len());
    reveal_strlit("PostFunctionGrammar");
    assert("FrameClauseUnitGrammar"@.len() != "PostFunctionGrammar"@.len());
    reveal_strlit("SelectClauseElementSegment");
    assert("FrameClauseUnitGrammar"@.len() != "SelectClauseElementSegment"@.len());
    reveal_strlit("SelectClauseModifierSegment");
    assert("FrameClauseUnitGrammar"@.len() != "SelectClauseModifierSegment"@.len());
    reveal_strlit("SelectStatementSegment");
    assert("FrameClauseUnitGrammar"@[0] != "SelectStatementSegment"@[0]);
    reveal_strlit("SetExpressionSegment");
    assert("FrameClauseUnitGrammar"@.len() != "SetExpressionSegment"@.len());
    reveal_strlit("Tail_Recurse_Expression_A_Grammar");
    assert("FrameClauseUnitGrammar"@.len() != "Tail_Recurse_Expression_A_Grammar"@.len());
    reveal_strlit("Tail_Recurse_Expression_B_Grammar");
    assert("FrameClauseUnitGrammar"@.len() != "Tail_Recurse_Expression_B_Grammar"@.len());
    reveal_strlit("TruncateStatementSegment");
    assert("FrameClauseUnitGrammar"@.len() != "TruncateStatementSegment"@.len());
    reveal_strlit("WildcardExpressionSegment");
    assert("FrameClauseUnitGrammar"@.len() != "WildcardExpressionSegment"@.len());
}

proof fn lemma_part_11_keeps_frame_clause_unit_grammar(m: Map<Seq<char>, ElementView>)
    requires
        m.dom().contains("FrameClauseUnitGrammar"@),
    ensures
        ansi_library_part_11(m).dom().contains("FrameClauseUnitGrammar"@),
        ansi_library_part_11(m)["FrameClauseUnitGrammar"@] == m["FrameClauseUnitGrammar"@],
{
    reveal_strlit("FrameClauseUnitGrammar");
    reveal_strlit("AccessorGrammar");
    assert("FrameClauseUnitGrammar"@.len() != "AccessorGrammar"@.len());
    reveal_strlit("Expression_B_Grammar");
    assert("FrameClauseUnitGrammar"@.len() != "Expression_B_Grammar"@.len());
    reveal_strlit("Expression_C_Grammar");
    assert("FrameClauseUnitGrammar"@.len() != "Expression_C_Grammar"@.len());
    reveal_strlit("Expression_D_Grammar");
    assert("FrameClauseUnitGrammar"@.len() != "Expression_D_Grammar"@.len());
    reveal_strlit("NonSetSelectableGrammar");
    assert("FrameClauseUnitGrammar"@.len() != "NonSetSelectableGrammar"@.len());
    reveal_strlit("NonWithNonSelectableGrammar");
    assert("FrameClauseUnitGrammar"@.len() != "NonWithNonSelectableGrammar"@.len());
    reveal_strlit("NonWithSelectableGrammar");
    assert("FrameClauseUnitGrammar"@.len() != "NonWithSelectableGrammar"@.len());
    reveal_strlit("PostTableExpressionGrammar");
    assert("FrameClauseUnitGrammar"@.len() != "PostTableExpressionGrammar"@.len());
    reveal_strlit("SelectableGrammar");
    assert("FrameClauseUnitGrammar"@.len() != "SelectableGrammar"@.len());
    reveal_strlit("TimeWithTZGrammar");
    assert("FrameClauseUnitGrammar"@.len() != "TimeWithTZGrammar"@.len());
}

/// The ANSI library holds `FrameClauseUnitGrammar`: the value of its last entry of that name.
pub proof fn lemma_ansi_library_frame_clause_unit_grammar(lib: Map<Seq<char>, ElementView>)
    ensures
        ansi_library(lib).dom().contains("FrameClauseUnitGrammar"@),
        ansi_library(lib)["FrameClauseUnitGrammar"@] == frame_clause_unit_grammar_element(),
{
    reveal(ansi_library);
    let m0 = lib;
    let m1 = ansi_library_part_0(m0);
    let m2 = ansi_library_part_1(m1);
    let m3 = ansi_library_part_2(m2);
    let m4 = ansi_library_part_3(m3);
    let m5 = ansi_library_part_4(m4);
    let m6 = ansi_library_part_5(m5);
    let m7 = ansi_library_part_6(m6);
    let m8 = ansi_library_part_7(m7);
    let m9 = ansi_library_part_8(m8);
    let m10 = ansi_library_part_9(m9);
    let m11 = ansi_library_part_10(m10);
    let m12 = ansi_library_part_11(m11);
    lemma_part_3_sets_frame_clause_unit_grammar(m3);
    lemma_part_4_keeps_frame_clause_unit_grammar(m4);
    lemma_part_5_keeps_frame_clause_unit_grammar(m5);
    lemma_part_6_keeps_frame_clause_unit_grammar(m6);
    lemma_part_7_keeps_frame_clause_unit_grammar(m7);
    lemma_part_8_keeps_frame_clause_unit_grammar(m8);
    lemma_part_9_keeps_frame_clause_unit_grammar(m9);
    lemma_part_10_keeps_frame_clause_unit_grammar(m10);
    lemma_part_11_keeps_frame_clause_unit_grammar(m11);
}

proof fn lemma_part_4_sets_default_values_grammar(m: Map<Seq<char>, ElementView>)
    ensures
        ansi_library_part_4(m).dom().contains("DefaultValuesGrammar"@),
        ansi_library_part_4(m)["DefaultValuesGrammar"@] == default_values_grammar_element(),
{
    reveal_strlit("DefaultValuesGrammar");
    reveal_strlit("AlterTableDropColumnGrammar");
    assert("DefaultValuesGrammar"@.len() != "AlterTableDropColumnGrammar"@.len());
    reveal_strlit("AlterTableOptionsGrammar");
    assert("DefaultValuesGrammar"@.len() != "AlterTableOptionsGrammar"@.len());
    reveal_strlit("ColumnReferenceSegment");
    assert("DefaultValuesGrammar"@.len() != "ColumnReferenceSegment"@.len());
    reveal_strlit("CubeFunctionNameSegment");
    assert("DefaultValuesGrammar"@.len() != "CubeFunctionNameSegment"@.len());
    reveal_strlit("CubeRollupClauseSegment");
    assert("DefaultValuesGrammar"@.len() != "CubeRollupClauseSegment"@.len());
    reveal_strlit("DateTimeFunctionContentsSegment");
    assert("DefaultValuesGrammar"@.len() != "DateTimeFunctionContentsSegment"@.len());
    reveal_strlit("ExpressionSegment");
    assert("DefaultValuesGrammar"@.len() != "ExpressionSegment"@.len());
    reveal_strlit("FetchClauseSegment");
    assert("DefaultValuesGrammar"@.len() != "FetchClauseSegment"@.len());
    reveal_strlit("FileSegment");
    assert("DefaultValuesGrammar"@.len() != "FileSegment"@.len());
    reveal_strlit("FunctionSegment");
    assert("DefaultValuesGrammar"@.len() != "FunctionSegment"@.len());
    reveal_strlit("GroupingExpressionList");
    assert("DefaultValuesGrammar"@.len() != "GroupingExpressionList"@.len());
    reveal_strlit("GroupingSetsClauseSegment");
    assert("DefaultValuesGrammar"@.len() != "GroupingSetsClauseSegment"@.len());
    reveal_strlit("HavingClauseSegment");
    assert("DefaultValuesGrammar"@.len() != "HavingClauseSegment"@.len());
    reveal_strlit("LimitClauseSegment");
    assert("DefaultValuesGrammar"@.len() != "LimitClauseSegment"@.len());
    reveal_strlit("NamedWindowExpressionSegment");
    assert("DefaultValuesGrammar"@.len() != "NamedWindowExpressionSegment"@.len());
    reveal_strlit("ObjectReferenceDelimiterGrammar");
    assert("DefaultValuesGrammar"@.len() != "ObjectReferenceDelimiterGrammar"@.len());
    reveal_strlit("ObjectReferenceTerminatorGrammar");
    assert("DefaultValuesGrammar"@.len() != "ObjectReferenceTerminatorGrammar"@.len());
    reveal_strlit("PathSegment");
    assert("DefaultValuesGrammar"@.len() != "PathSegment"@.len());
    reveal_strlit("RollupFunctionNameSegment");
    assert("DefaultValuesGrammar"@.len() != "RollupFunctionNameSegment"@.len());
    reveal_strlit("SetClauseSegment");
    assert("DefaultValuesGrammar"@.len() != "SetClauseSegment"@.len());
    reveal_strlit("WildcardIdentifierSegment");
    assert("DefaultValuesGrammar"@.len() != "WildcardIdentifierSegment"@.len());
}

proof fn lemma_part_5_keeps_default_values_grammar(m: Map<Seq<char>, ElementView>)
    requires
        m.dom().contains("DefaultValuesGrammar"@),
    ensures
        ansi_library_part_5(m).dom().contains("DefaultValuesGrammar"@),
        ansi_library_part_5(m)["DefaultValuesGrammar"@] == m["DefaultValuesGrammar"@],
{
    reveal_strlit("DefaultValuesGrammar");
    reveal_strlit("AlterSequenceOptionsSegment");
    assert("DefaultValuesGrammar"@.len() != "AlterSequenceOptionsSegment"@.len());
    reveal_strlit("CTEColumnList");
    assert("DefaultValuesGrammar"@.len() != "CTEColumnList"@.len());
    reveal_strlit("CTEDefinitionSegment");
    assert("DefaultValuesGrammar"@[0] != "CTEDefinitionSegment"@[0]);
    reveal_strlit("ColumnConstraintSegment");
    assert("DefaultValuesGrammar"@.len() != "ColumnConstraintSegment"@.len());
    reveal_strlit("ColumnDefinitionSegment");
    assert("DefaultValuesGrammar"@.len() != "ColumnDefinitionSegment"@.len());
    reveal_strlit("CommentClauseSegment");
    assert("DefaultValuesGrammar"@[0] != "CommentClauseSegment"@[0]);
    reveal_strlit("ExtensionReferenceSegment");
    assert("DefaultValuesGrammar"@.len() != "ExtensionReferenceSegment"@.len());
    reveal_strlit("FrameClauseSegment");
    assert("DefaultValuesGrammar"@.len() != "FrameClauseSegment"@.len());
    reveal_strlit("FunctionDefinitionGrammar");
    assert("DefaultValuesGrammar"@.len() != "FunctionDefinitionGrammar"@.len());
    reveal_strlit("GroupByClauseSegment");
    assert("DefaultValuesGrammar"@[0] != "GroupByClauseSegment"@[0]);
    reveal_strlit("MergeDeleteClauseSegment");
    assert("DefaultValuesGrammar"@.len() != "MergeDeleteClauseSegment"@.len());
    reveal_strlit("MergeInsertClauseSegment");
    assert("DefaultValuesGrammar"@.len() != "MergeInsertClauseSegment"@.len());
    reveal_strlit("MergeMatchSegment");
    assert("DefaultValuesGrammar"@.len() != "MergeMatchSegment"@.len());
    reveal_strlit("MergeMatchedClauseSegment");
    assert("DefaultValuesGrammar"@.len() != "MergeMatchedClauseSegment"@.len());
    reveal_strlit("MergeNotMatchedClauseSegment");
    assert("DefaultValuesGrammar"@.len() != "MergeNotMatchedClauseSegment"@.len());
    reveal_strlit("MergeUpdateClauseSegment");
    assert("DefaultValuesGrammar"@.len() != "MergeUpdateClauseSegment"@.len());
    reveal_strlit("RoleReferenceSegment");
    assert("DefaultValuesGrammar"@[0] != "RoleReferenceSegment"@[0]);
    reveal_strlit("SchemaReferenceSegment");
    assert("DefaultValuesGrammar"@.len() != "SchemaReferenceSegment"@.len());
    reveal_strlit("SetClauseListSegment");
    assert("DefaultValuesGrammar"@[0] != "SetClauseListSegment"@[0]);
    reveal_strlit("SingleIdentifierListSegment");
    assert("DefaultValuesGrammar"@.len() != "SingleIdentifierListSegment"@.len());
    reveal_strlit("TableEndClauseSegment");
    assert("DefaultValuesGrammar"@.len() != "TableEndClauseSegment"@.len());
    reveal_strlit("TablespaceReferenceSegment");
    assert("DefaultValuesGrammar"@.len() != "TablespaceReferenceSegment"@.len());
    reveal_strlit("TagReferenceSegment");
    assert("DefaultValuesGrammar"@.len() != "TagReferenceSegment"@.len());
    reveal_strlit("WithCompoundNonSelectStatementSegment");
    assert("DefaultValuesGrammar"@.len() != "WithCompoundNonSelectStatementSegment"@.len());
    reveal_strlit("WithCompoundStatementSegment");
    assert("DefaultValuesGrammar"@.len() != "WithCompoundStatementSegment"@.len());
}

proof fn lemma_part_6_keeps_default_values_grammar(m: Map<Seq<char>, ElementView>)
    requires
        m.dom().contains("DefaultValuesGrammar"@),
    ensures
        ansi_library_part_6(m).dom().contains("DefaultValuesGrammar"@),
        ansi_library_part_6(m)["DefaultValuesGrammar"@] == m["DefaultValuesGrammar"@],
{
    reveal_strlit("DefaultValuesGrammar");
    reveal_strlit("CollationReferenceSegment");
    assert("DefaultValuesGrammar"@.len() != "CollationReferenceSegment"@.len());
    reveal_strlit("CreateSequenceOptionsSegment");
    assert("DefaultValuesGrammar"@.len() != "CreateSequenceOptionsSegment"@.len());
    reveal_strlit("CreateSequenceStatementSegment");
    assert("DefaultValuesGrammar"@.len() != "CreateSequenceStatementSegment"@.len());
    reveal_strlit("CreateTriggerStatementSegment");
    assert("DefaultValuesGrammar"@.len() != "CreateTriggerStatementSegment"@.len());
    reveal_strlit("DatabaseReferenceSegment");
    assert("DefaultValuesGrammar"@.len() != "DatabaseReferenceSegment"@.len());
    reveal_strlit("DescribeStatementSegment");
    assert("DefaultValuesGrammar"@.len() != "DescribeStatementSegment"@.len());
    reveal_strlit("DropModelStatementSegment");
    assert("DefaultValuesGrammar"@.len() != "DropModelStatementSegment"@.len());
    reveal_strlit("DropTriggerStatementSegment");
    assert("DefaultValuesGrammar"@.len() != "DropTriggerStatementSegment"@.len());
    reveal_strlit("ExplainStatementSegment");
    assert("DefaultValuesGrammar"@.len() != "ExplainStatementSegment"@.len());
    reveal_strlit("IndexReferenceSegment");
    assert("DefaultValuesGrammar"@.len() != "IndexReferenceSegment"@.len());
    reveal_strlit("JoinClauseSegment");
    assert("DefaultValuesGrammar"@.len() != "JoinClauseSegment"@.len());
    reveal_strlit("JoinOnConditionSegment");
    assert("DefaultValuesGrammar"@.len() != "JoinOnConditionSegment"@.len());
    reveal_strlit("NamedWindowSegment");
    assert("DefaultValuesGrammar"@.len() != "NamedWindowSegment"@.len());
    reveal_strlit("OverClauseSegment");
    assert("DefaultValuesGrammar"@.len() != "OverClauseSegment"@.len());
    reveal_strlit("PartitionClauseSegment");
    assert("DefaultValuesGrammar"@.len() != "PartitionClauseSegment"@.len());
    reveal_strlit("SamplingExpressionSegment");
    assert("DefaultValuesGrammar"@.len() != "SamplingExpressionSegment"@.len());
    reveal_strlit("SequenceReferenceSegment");
    assert("DefaultValuesGrammar"@.len() != "SequenceReferenceSegment"@.len());
    reveal_strlit("TableConstraintSegment");
    assert("DefaultValuesGrammar"@.len() != "TableConstraintSegment"@.len());
    reveal_strlit("TableExpressionSegment");
    assert("DefaultValuesGrammar"@.len() != "TableExpressionSegment"@.len());
    reveal_strlit("TriggerReferenceSegment");
    assert("DefaultValuesGrammar"@.len() != "TriggerReferenceSegment"@.len());
    reveal_strlit("UseStatementSegment");
    assert("DefaultValuesGrammar"@.len() != "UseStatementSegment"@.len());
    reveal_strlit("WindowSpecificationSegment");
    assert("DefaultValuesGrammar"@.len() != "WindowSpecificationSegment"@.len());
}

proof fn lemma_part_7_keeps_default_values_grammar(m: Map<Seq<char>, ElementView>)
    requires
        m.dom().contains("DefaultValuesGrammar"@),
    ensures
        ansi_library_part_7(m).dom().contains("DefaultValuesGrammar"@),
        ansi_library_part_7(m)["DefaultValuesGrammar"@] == m["DefaultValuesGrammar"@],
{
    reveal_strlit("DefaultValuesGrammar");
    reveal_strlit("AccessStatementSegment");
    assert("DefaultValuesGrammar"@.len() != "AccessStatementSegment"@.len());
    reveal_strlit("AlterSequenceStatementSegment");
    assert("DefaultValuesGrammar"@.len() != "AlterSequenceStatementSegment"@.len());
    reveal_strlit("AlterTableStatementSegment");
    assert("DefaultValuesGrammar"@.len() != "AlterTableStatementSegment"@.len());
    reveal_strlit("CreateCastStatementSegment");
    assert("DefaultValuesGrammar"@.len() != "CreateCastStatementSegment"@.len());
    reveal_strlit("CreateDatabaseStatementSegment");
    assert("DefaultValuesGrammar"@.len() != "CreateDatabaseStatementSegment"@.len());
    reveal_strlit("CreateFunctionStatementSegment");
    assert("DefaultValuesGrammar"@.len() != "CreateFunctionStatementSegment"@.len());
    reveal_strlit("CreateIndexStatementSegment");
    assert("DefaultValuesGrammar"@.len() != "CreateIndexStatementSegment"@.len());
    reveal_strlit("CreateModelStatementSegment");
    assert("DefaultValuesGrammar"@.len() != "CreateModelStatementSegment"@.len());
    reveal_strlit("CreateRoleStatementSegment");
    assert("DefaultValuesGrammar"@.len() != "CreateRoleStatementSegment"@.len());
    reveal_strlit("CreateTableStatementSegment");
    assert("DefaultValuesGrammar"@.len() != "CreateTableStatementSegment"@.len());
    reveal_strlit("CreateViewStatementSegment");
    assert("DefaultValuesGrammar"@.len() != "CreateViewStatementSegment"@.len());
    reveal_strlit("DeleteStatementSegment");
    assert("DefaultValuesGrammar"@.len() != "DeleteStatementSegment"@.len());
    reveal_strlit("DropCastStatementSegment");
    assert("DefaultValuesGrammar"@.len() != "DropCastStatementSegment"@.len());
    reveal_strlit("DropDatabaseStatementSegment");
    assert("DefaultValuesGrammar"@.len() != "DropDatabaseStatementSegment"@.len());
    reveal_strlit("DropFunctionStatementSegment");
    assert("DefaultValuesGrammar"@.len() != "DropFunctionStatementSegment"@.len());
    reveal_strlit("DropIndexStatementSegment");
    assert("DefaultValuesGrammar"@.len() != "DropIndexStatementSegment"@.len());
    reveal_strlit("DropRoleStatementSegment");
    assert("DefaultValuesGrammar"@.len() != "DropRoleStatementSegment"@.len());
    reveal_strlit("DropSchemaStatementSegment");
    assert("DefaultValuesGrammar"@.len() != "DropSchemaStatementSegment"@.len());
    reveal_strlit("DropSequenceStatementSegment");
    assert("DefaultValuesGrammar"@.len() != "DropSequenceStatementSegment"@.len());
    reveal_strlit("DropTypeStatementSegment");
    assert("DefaultValuesGrammar"@.len() != "DropTypeStatementSegment"@.len());
    reveal_strlit("FunctionParameterListGrammar");
    assert("DefaultValuesGrammar"@.len() != "FunctionParameterListGrammar"@.len());
    reveal_strlit("InsertStatementSegment");
    assert("DefaultValuesGrammar"@.len() != "InsertStatementSegment"@.len());
    reveal_strlit("SetSchemaStatementSegment");
    assert("DefaultValuesGrammar"@.len() != "SetSchemaStatementSegment"@.len());
    reveal_strlit("TransactionStatementSegment");
    assert("DefaultValuesGrammar"@.len() != "TransactionStatementSegment"@.len());
    reveal_strlit("UpdateStatementSegment");
    assert("DefaultValuesGrammar"@.len() != "UpdateStatementSegment"@.len());
}

proof fn lemma_part_8_keeps_default_values_grammar(m: Map<Seq<char>, ElementView>)
    requires
        m.dom().contains("DefaultValuesGrammar"@),
    ensures
        ansi_library_part_8(m).dom().contains("DefaultValuesGrammar"@),
        ansi_library_part_8(m)["DefaultValuesGrammar"@] == m["DefaultValuesGrammar"@],
{
    reveal_strlit("DefaultValuesGrammar");
    reveal_strlit("AggregateOrderByClause");
    assert("DefaultValuesGrammar"@.len() != "AggregateOrderByClause"@.len());
    reveal_strlit("ArrayExpressionSegment");
    assert("DefaultValuesGrammar"@.len() != "ArrayExpressionSegment"@.len());
    reveal_strlit("BitwiseAndSegment");
    assert("DefaultValuesGrammar"@.len() != "BitwiseAndSegment"@.len());
    reveal_strlit("BitwiseLShiftSegment");
    assert("DefaultValuesGrammar"@[0] != "BitwiseLShiftSegment"@[0]);
    reveal_strlit("BitwiseOrSegment");
    assert("DefaultValuesGrammar"@.len() != "BitwiseOrSegment"@.len());
    reveal_strlit("BitwiseRShiftSegment");
    assert("DefaultValuesGrammar"@[0] != "BitwiseRShiftSegment"@[0]);
    reveal_strlit("ConcatSegment");
    assert("DefaultValuesGrammar"@.len() != "ConcatSegment"@.len());
    reveal_strlit("CreateUserStatementSegment");
    assert("DefaultValuesGrammar"@.len() != "CreateUserStatementSegment"@.len());
    reveal_strlit("DropTableStatementSegment");
    assert("DefaultValuesGrammar"@.len() != "DropTableStatementSegment"@.len());
    reveal_strlit("DropUserStatementSegment");
    assert("DefaultValuesGrammar"@.len() != "DropUserStatementSegment"@.len());
    reveal_strlit("DropViewStatementSegment");
    assert("DefaultValuesGrammar"@.len() != "DropViewStatementSegment"@.len());
    reveal_strlit("ElseClauseSegment");
    assert("DefaultValuesGrammar"@.len() != "ElseClauseSegment"@.len());
    reveal_strlit("EqualsSegment");
    assert("DefaultValuesGrammar"@.len() != "EqualsSegment"@.len());
    reveal_strlit("FunctionNameSegment");
    assert("DefaultValuesGrammar"@.len() != "FunctionNameSegment"@.len());
    reveal_strlit("GreaterThanOrEqualToSegment");
    assert("DefaultValuesGrammar"@.len() != "GreaterThanOrEqualToSegment"@.len());
    reveal_strlit("GreaterThanSegment");
    assert("DefaultValuesGrammar"@.len() != "GreaterThanSegment"@.len());
    reveal_strlit("IndexColumnDefinitionSegment");
    assert("DefaultValuesGrammar"@.len() != "IndexColumnDefinitionSegment"@.len());
    reveal_strlit("LessThanOrEqualToSegment");
    assert("DefaultValuesGrammar"@.len() != "LessThanOrEqualToSegment"@.len());
    reveal_strlit("LessThanSegment");
    assert("DefaultValuesGrammar"@.len() != "LessThanSegment"@.len());
    reveal_strlit("LocalAliasSegment");
    assert("DefaultValuesGrammar"@.len() != "LocalAliasSegment"@.len());
    reveal_strlit("MergeStatementSegment");
    assert("DefaultValuesGrammar"@.len() != "MergeStatementSegment"@.len());
    reveal_strlit("NotEqualToSegment");
    assert("DefaultValuesGrammar"@.len() != "NotEqualToSegment"@.len());
    reveal_strlit("QualifiedNumericLiteralSegment");
    assert("DefaultValuesGrammar"@.len() != "QualifiedNumericLiteralSegment"@.len());
    reveal_strlit("WhenClauseSegment");
    assert("DefaultValuesGrammar"@.len() != "WhenClauseSegment"@.len());
    reveal_strlit("WhereClauseSegment");
    assert("DefaultValuesGrammar"@.len() != "WhereClauseSegment"@.len());
}

proof fn lemma_part_9_keeps_default_values_grammar(m: Map<Seq<char>, ElementView>)
    requires
        m.dom().contains("DefaultValuesGrammar"@),
    ensures
        ansi_library_part_9(m).dom().contains("DefaultValuesGrammar"@),
        ansi_library_part_9(m)["DefaultValuesGrammar"@] == m["DefaultValuesGrammar"@],
{
    reveal_strlit("DefaultValuesGrammar");
    reveal_strlit("AliasExpressionSegment");
    assert("DefaultValuesGrammar"@.len() != "AliasExpressionSegment"@.len());
    reveal_strlit("ArrayAccessorSegment");
    assert("DefaultValuesGrammar"@[0] != "ArrayAccessorSegment"@[0]);
    reveal_strlit("ArrayLiteralSegment");
    assert("DefaultValuesGrammar"@.len() != "ArrayLiteralSegment"@.len());
    reveal_strlit("ArrayTypeSegment");
    assert("DefaultValuesGrammar"@.len() != "ArrayTypeSegment"@.len());
    reveal_strlit("BracketedArguments");
    assert("DefaultValuesGrammar"@.len() != "BracketedArguments"@.len());
    reveal_strlit("DatatypeSegment");
    assert("DefaultValuesGrammar"@.len() != "DatatypeSegment"@.len());
    reveal_strlit("EmptyStructLiteralSegment");
    assert("DefaultValuesGrammar"@.len() != "EmptyStructLiteralSegment"@.len());
    reveal_strlit("IntervalExpressionSegment");
    assert("DefaultValuesGrammar"@.len() != "IntervalExpressionSegment"@.len());
    reveal_strlit("ObjectLiteralElementSegment");
    assert("DefaultValuesGrammar"@.len() != "ObjectLiteralElementSegment"@.len());
    reveal_strlit("ObjectLiteralSegment");
    assert("DefaultValuesGrammar"@[0] != "ObjectLiteralSegment"@[0]);
    reveal_strlit("OverlapsClauseSegment");
    assert("DefaultValuesGrammar"@.len() != "OverlapsClauseSegment"@.len());
    reveal_strlit("SelectClauseSegment");
    assert("DefaultValuesGrammar"@.len() != "SelectClauseSegment"@.len());
    reveal_strlit("SetOperatorSegment");
    assert("DefaultValuesGrammar"@.len() != "SetOperatorSegment"@.len());
    reveal_strlit("ShorthandCastSegment");
    assert("DefaultValuesGrammar"@[0] != "ShorthandCastSegment"@[0]);
    reveal_strlit("SizedArrayTypeSegment");
    assert("DefaultValuesGrammar"@.len() != "SizedArrayTypeSegment"@.len());
    reveal_strlit("StatementSegment");
    assert("DefaultValuesGrammar"@.len() != "StatementSegment"@.len());
    reveal_strlit("StructLiteralSegment");
    assert("DefaultValuesGrammar"@[0] != "StructLiteralSegment"@[0]);
    reveal_strlit("StructTypeSegment");
    assert("DefaultValuesGrammar"@.len() != "StructTypeSegment"@.len());
    reveal_strlit("TimeZoneGrammar");
    assert("DefaultValuesGrammar"@.len() != "TimeZoneGrammar"@.len());
    reveal_strlit("TypedArrayLiteralSegment");
    assert("DefaultValuesGrammar"@.len() != "TypedArrayLiteralSegment"@.len());
    reveal_strlit("TypedStructLiteralSegment");
    assert("DefaultValuesGrammar"@.len() != "TypedStructLiteralSegment"@.len());
    reveal_strlit("UnorderedSelectStatementSegment");
    assert("DefaultValuesGrammar"@.len() != "UnorderedSelectStatementSegment"@.len());
    reveal_strlit("ValuesClauseSegment");
    assert("DefaultValuesGrammar"@.len() != "ValuesClauseSegment"@.len());
    reveal_strlit("WithDataClauseSegment");
    assert("DefaultValuesGrammar"@.len() != "WithDataClauseSegment"@.len());
    reveal_strlit("WithNoSchemaBindingClauseSegment");
    assert("DefaultValuesGrammar"@.len() != "WithNoSchemaBindingClauseSegment"@.len());
}

proof fn lemma_part_10_keeps_default_values_grammar(m: Map<Seq<char>, ElementView>)
    requires
        m.dom().contains("DefaultValuesGrammar"@),
    ensures
        ansi_library_part_10(m).dom().contains("DefaultValuesGrammar"@),
        ansi_library_part_10(m)["DefaultValuesGrammar"@] == m["DefaultValuesGrammar"@],
{
    reveal_strlit("DefaultValuesGrammar");
    reveal_strlit("AccessStatementSegmentGrantRoleWithOptionGrammar");
    assert("DefaultValuesGrammar"@.len() != "AccessStatementSegmentGrantRoleWithOptionGrammar"@.len());
    reveal_strlit("AliasedTableReferenceGrammar");
    assert("DefaultValuesGrammar"@.len() != "AliasedTableReferenceGrammar"@.len());
    reveal_strlit("CharCharacterSetGrammar");
    assert("DefaultValuesGrammar"@.len() != "CharCharacterSetGrammar"@.len());
    reveal_strlit("CreateSchemaStatementSegment");
    assert("DefaultValuesGrammar"@.len() != "CreateSchemaStatementSegment"@.len());
    reveal_strlit("DatePartFunctionNameSegment");
    assert("DefaultValuesGrammar"@.len() != "DatePartFunctionNameSegment"@.len());
    reveal_strlit("EmptyStructLiteralBracketsSegment");
    assert("DefaultValuesGrammar"@.len() != "EmptyStructLiteralBracketsSegment"@.len());
    reveal_strlit("Expression_A_Grammar");
    assert("DefaultValuesGrammar"@[0] != "Expression_A_Grammar"@[0]);
    reveal_strlit("Expression_A_Unary_Operator_Grammar");
    assert("DefaultValuesGrammar"@.len() != "Expression_A_Unary_Operator_Grammar"@.len());
    reveal_strlit("Expression_B_Unary_Operator_Grammar");
    assert("DefaultValuesGrammar"@.len() != "Expression_B_Unary_Operator_Grammar"@.len());
    reveal_strlit("FromClauseSegment");
    assert("DefaultValuesGrammar"@.len() != "FromClauseSegment"@.len());
    reveal_strlit("FromExpressionSegment");
    assert("DefaultValuesGrammar"@.len() != "FromExpressionSegment"@.len());
    reveal_strlit("FunctionContentsExpressionGrammar");
    assert("DefaultValuesGrammar"@.len() != "FunctionContentsExpressionGrammar"@.len());
    reveal_strlit("FunctionContentsGrammar");
    assert("DefaultValuesGrammar"@.len() != "FunctionContentsGrammar"@.len());
    reveal_strlit("FunctionContentsSegment");
    assert("DefaultValuesGrammar"@.len() != "FunctionContentsSegment"@.len());
    reveal_strlit("JoinLikeClauseGrammar");
    assert("DefaultValuesGrammar"@.len() != "JoinLikeClauseGrammar"@.len());
    reveal_strlit("OrderByClauseSegment");
    assert("DefaultValuesGrammar"@[0] != "OrderByClauseSegment"@[0]);
    reveal_strlit("PostFunctionGrammar");
    assert("DefaultValuesGrammar"@.len() != "PostFunctionGrammar"@.len());
    reveal_strlit("SelectClauseElementSegment");
    assert("DefaultValuesGrammar"@.len() != "SelectClauseElementSegment"@.len());
    reveal_strlit("SelectClauseModifierSegment");
    assert("DefaultValuesGrammar"@.len() != "SelectClauseModifierSegment"@.len());
    reveal_strlit("SelectStatementSegment");
    assert("DefaultValuesGrammar"@.len() != "SelectStatementSegment"@.len());
    reveal_strlit("SetExpressionSegment");
    assert("DefaultValuesGrammar"@[0] != "SetExpressionSegment"@[0]);
    reveal_strlit("Tail_Recurse_Expression_A_Grammar");
    assert("DefaultValuesGrammar"@.len() != "Tail_Recurse_Expression_A_Grammar"@.len());
    reveal_strlit("Tail_Recurse_Expression_B_Grammar");
    assert("DefaultValuesGrammar"@.len() != "Tail_Recurse_Expression_B_Grammar"@.len());
    reveal_strlit("TruncateStatementSegment");
    assert("DefaultValuesGrammar"@.len() != "TruncateStatementSegment"@.len());
    reveal_strlit("WildcardExpressionSegment");
    assert("DefaultValuesGrammar"@.len() != "WildcardExpressionSegment"@.len());
}

proof fn lemma_part_11_keeps_default_values_grammar(m: Map<Seq<char>, ElementView>)
    requires
        m.dom().contains("DefaultValuesGrammar"@),
    ensures
        ansi_library_part_11(m).dom().contains("DefaultValuesGrammar"@),
        ansi_library_part_11(m)["DefaultValuesGrammar"@] == m["DefaultValuesGrammar"@],
{
    reveal_strlit("DefaultValuesGrammar");
    reveal_strlit("AccessorGrammar");
    assert("DefaultValuesGrammar"@.len() != "AccessorGrammar"@.len());
    reveal_strlit("Expression_B_Grammar");
    assert("DefaultValuesGrammar"@[0] != "Expression_B_Grammar"@[0]);
    reveal_strlit("Expression_C_Grammar");
    assert("DefaultValuesGrammar"@[0] != "Expression_C_Grammar"@[0]);
    reveal_strlit("Expression_D_Grammar");
    assert("DefaultValuesGrammar"@[0] != "Expression_D_Grammar"@[0]);
    reveal_strlit("NonSetSelectableGrammar");
    assert("DefaultValuesGrammar"@.len() != "NonSetSelectableGrammar"@.len());
    reveal_strlit("NonWithNonSelectableGrammar");
    assert("DefaultValuesGrammar"@.len() != "NonWithNonSelectableGrammar"@.len());
    reveal_strlit("NonWithSelectableGrammar");
    assert("DefaultValuesGrammar"@.len() != "NonWithSelectableGrammar"@.len());
    reveal_strlit("PostTableExpressionGrammar");
    assert("DefaultValuesGrammar"@.len() != "PostTableExpressionGrammar"@.len());
    reveal_strlit("SelectableGrammar");
    assert("DefaultValuesGrammar"@.len() != "SelectableGrammar"@.len());
    reveal_strlit("TimeWithTZGrammar");
    assert("DefaultValuesGrammar"@.len() != "TimeWithTZGrammar"@.len());
}

/// The ANSI library holds `DefaultValuesGrammar`: the value of its last entry of that name.
pub proof fn lemma_ansi_library_default_values_grammar(lib: Map<Seq<char>, ElementView>)
    ensures
        ansi_library(lib).dom().contains("DefaultValuesGrammar"@),
        ansi_library(lib)["DefaultValuesGrammar"@] == default_values_grammar_element(),
{
    reveal(ansi_library);
    let m0 = lib;
    let m1 = ansi_library_part_0(m0);
    let m2 = ansi_library_part_1(m1);
    let m3 = ansi_library_part_2(m2);
    let m4 = ansi_library_part_3(m3);
    let m5 = ansi_library_part_4(m4);
    let m6 = ansi_library_part_5(m5);
    let m7 = ansi_library_part_6(m6);
    let m8 = ansi_library_part_7(m7);
    let m9 = ansi_library_part_8(m8);
    let m10 = ansi_library_part_9(m9);
    let m11 = ansi_library_part_10(m10);
    let m12 = ansi_library_part_11(m11);
    lemma_part_4_sets_default_values_grammar(m4);
    lemma_part_5_keeps_default_values_grammar(m5);
    lemma_part_6_keeps_default_values_grammar(m6);
    lemma_part_7_keeps_default_values_grammar(m7);
    lemma_part_8_keeps_default_values_grammar(m8);
    lemma_part_9_keeps_default_values_grammar(m9);
    lemma_part_10_keeps_default_values_grammar(m10);
    lemma_part_11_keeps_default_values_grammar(m11);
}

proof fn lemma_part_5_sets_merge_delete_clause_segment(m: Map<Seq<char>, ElementView>)
    ensures
        ansi_library_part_5(m).dom().contains("MergeDeleteClauseSegment"@),
        ansi_library_part_5(m)["MergeDeleteClauseSegment"@] == merge_delete_clause_segment_element(),
{
    reveal_strlit("MergeDeleteClauseSegment");
    reveal_strlit("CTEColumnList");
    assert("MergeDeleteClauseSegment"@.len() != "CTEColumnList"@.len());
    reveal_strlit("CTEDefinitionSegment");
    assert("MergeDeleteClauseSegment"@.len() != "CTEDefinitionSegment"@.len());
    reveal_strlit("FrameClauseSegment");
    assert("MergeDeleteClauseSegment"@.len() != "FrameClauseSegment"@.len());
    reveal_strlit("GroupByClauseSegment");
    assert("MergeDeleteClauseSegment"@.len() != "GroupByClauseSegment"@.len());
    reveal_strlit("SchemaReferenceSegment");
    assert("MergeDeleteClauseSegment"@.len() != "SchemaReferenceSegment"@.len());
    reveal_strlit("SetClauseListSegment");
    assert("MergeDeleteClauseSegment"@.len() != "SetClauseListSegment"@.len());
    reveal_strlit("SingleIdentifierListSegment");
    assert("MergeDeleteClauseSegment"@.len() != "SingleIdentifierListSegment"@.len());
    reveal_strlit("WithCompoundNonSelectStatementSegment");
    assert("MergeDeleteClauseSegment"@.len() != "WithCompoundNonSelectStatementSegment"@.len());
    reveal_strlit("WithCompoundStatementSegment");
    assert("MergeDeleteClauseSegment"@.len() != "WithCompoundStatementSegment"@.len());
}

proof fn lemma_part_6_keeps_merge_delete_clause_segment(m: Map<Seq<char>, ElementView>)
    requires
        m.dom().contains("MergeDeleteClauseSegment"@),
    ensures
        ansi_library_part_6(m).dom().contains("MergeDeleteClauseSegment"@),
        ansi_library_part_6(m)["MergeDeleteClauseSegment"@] == m["MergeDeleteClauseSegment"@],
{
    reveal_strlit("MergeDeleteClauseSegment");
    reveal_strlit("CollationReferenceSegment");
    assert("MergeDeleteClauseSegment"@.len() != "CollationReferenceSegment"@.len());
    reveal_strlit("CreateSequenceOptionsSegment");
    assert("MergeDeleteClauseSegment"@.len() != "CreateSequenceOptionsSegment"@.len());
    reveal_strlit("CreateSequenceStatementSegment");
    assert("MergeDeleteClauseSegment"@.len() != "CreateSequenceStatementSegment"@.len());
    reveal_strlit("CreateTriggerStatementSegment");
    assert("MergeDeleteClauseSegment"@.len() != "CreateTriggerStatementSegment"@.len());
    reveal_strlit("DatabaseReferenceSegment");
    assert("MergeDeleteClauseSegment"@[0] != "DatabaseReferenceSegment"@[0]);
    reveal_strlit("DescribeStatementSegment");
    assert("MergeDeleteClauseSegment"@[0] != "DescribeStatementSegment"@[0]);
    reveal_strlit("DropModelStatementSegment");
    assert("MergeDeleteClauseSegment"@.len() != "DropModelStatementSegment"@.len());
    reveal_strlit("DropTriggerStatementSegment");
    assert("MergeDeleteClauseSegment"@.len() != "DropTriggerStatementSegment"@.len());
    reveal_strlit("ExplainStatementSegment");
    assert("MergeDeleteClauseSegment"@.len() != "ExplainStatementSegment"@.len());
    reveal_strlit("IndexReferenceSegment");
    assert("MergeDeleteClauseSegment"@.len() != "IndexReferenceSegment"@.len());
    reveal_strlit("JoinClauseSegment");
    assert("MergeDeleteClauseSegment"@.len() != "JoinClauseSegment"@.len());
    reveal_strlit("JoinOnConditionSegment");
    assert("MergeDeleteClauseSegment"@.len() != "JoinOnConditionSegment"@.len());
    reveal_strlit("NamedWindowSegment");
    assert("MergeDeleteClauseSegment"@.len() != "NamedWindowSegment"@.len());
    reveal_strlit("OverClauseSegment");
    assert("MergeDeleteClauseSegment"@.len() != "OverClauseSegment"@.len());
    reveal_strlit("PartitionClauseSegment");
    assert("MergeDeleteClauseSegment"@.len() != "PartitionClauseSegment"@.len());
    reveal_strlit("SamplingExpressionSegment");
    assert("MergeDeleteClauseSegment"@.len() != "SamplingExpressionSegment"@.len());
    reveal_strlit("SequenceReferenceSegment");
    assert("MergeDeleteClauseSegment"@[0] != "SequenceReferenceSegment"@[0]);
    reveal_strlit("TableConstraintSegment");
    assert("MergeDeleteClauseSegment"@.len() != "TableConstraintSegment"@.len());
    reveal_strlit("TableExpressionSegment");
    assert("MergeDeleteClauseSegment"@.len() != "TableExpressionSegment"@.len());
    reveal_strlit("TriggerReferenceSegment");
    assert("MergeDeleteClauseSegment"@.len() != "TriggerReferenceSegment"@.len());
    reveal_strlit("UseStatementSegment");
    assert("MergeDeleteClauseSegment"@.len() != "UseStatementSegment"@.len());
    reveal_strlit("WindowSpecificationSegment");
    assert("MergeDeleteClauseSegment"@.len() != "WindowSpecificationSegment"@.len());
}

proof fn lemma_part_7_keeps_merge_delete_clause_segment(m: Map<Seq<char>, ElementView>)
    requires
        m.dom().contains("MergeDeleteClauseSegment"@),
    ensures
        ansi_library_part_7(m).dom().contains("MergeDeleteClauseSegment"@),
        ansi_library_part_7(m)["MergeDeleteClauseSegment"@] == m["MergeDeleteClauseSegment"@],
{
    reveal_strlit("MergeDeleteClauseSegment");
    reveal_strlit("AccessStatementSegment");
    assert("MergeDeleteClauseSegment"@.len() != "AccessStatementSegment"@.len());
    reveal_strlit("AlterSequenceStatementSegment");
    assert("MergeDeleteClauseSegment"@.len() != "AlterSequenceStatementSegment"@.len());
    reveal_strlit("AlterTableStatementSegment");
    assert("MergeDeleteClauseSegment"@.len() != "AlterTableStatementSegment"@.len());
    reveal_strlit("CreateCastStatementSegment");
    assert("MergeDeleteClauseSegment"@.len() != "CreateCastStatementSegment"@.len());
    reveal_strlit("CreateDatabaseStatementSegment");
    assert("MergeDeleteClauseSegment"@.len() != "CreateDatabaseStatementSegment"@.len());
    reveal_strlit("CreateFunctionStatementSegment");
    assert("MergeDeleteClauseSegment"@.len() != "CreateFunctionStatementSegment"@.len());
    reveal_strlit("CreateIndexStatementSegment");
    assert("MergeDeleteClauseSegment"@.len() != "CreateIndexStatementSegment"@.len());
    reveal_strlit("CreateModelStatementSegment");
    assert("MergeDeleteClauseSegment"@.len() != "CreateModelStatementSegment"@.len());
    reveal_strlit("CreateRoleStatementSegment");
    assert("MergeDeleteClauseSegment"@.len() != "CreateRoleStatementSegment"@.len());
    reveal_strlit("CreateTableStatementSegment");
    assert("MergeDeleteClauseSegment"@.len() != "CreateTableStatementSegment"@.len());
    reveal_strlit("CreateViewStatementSegment");
    assert("MergeDeleteClauseSegment"@.len() != "CreateViewStatementSegment"@.len());
    reveal_strlit("DeleteStatementSegment");
    assert("MergeDeleteClauseSegment"@.len() != "DeleteStatementSegment"@.len());
    reveal_strlit("DropCastStatementSegment");
    assert("MergeDeleteClauseSegment"@[0] != "DropCastStatementSegment"@[0]);
    reveal_strlit("DropDatabaseStatementSegment");
    assert("MergeDeleteClauseSegment"@.len() != "DropDatabaseStatementSegment"@.len());
    reveal_strlit("DropFunctionStatementSegment");
    assert("MergeDeleteClauseSegment"@.len() != "DropFunctionStatementSegment"@.len());
    reveal_strlit("DropIndexStatementSegment");
    assert("MergeDeleteClauseSegment"@.len() != "DropIndexStatementSegment"@.len());
    reveal_strlit("DropRoleStatementSegment");
    assert("MergeDeleteClauseSegment"@[0] != "DropRoleStatementSegment"@[0]);
    reveal_strlit("DropSchemaStatementSegment");
    assert("MergeDeleteClauseSegment"@.len() != "DropSchemaStatementSegment"@.len());
    reveal_strlit("DropSequenceStatementSegment");
    assert("MergeDeleteClauseSegment"@.len() != "DropSequenceStatementSegment"@.len());
    reveal_strlit("DropTypeStatementSegment");
    assert("MergeDeleteClauseSegment"@[0] != "DropTypeStatementSegment"@[0]);
    reveal_strlit("FunctionParameterListGrammar");
    assert("MergeDeleteClauseSegment"@.len() != "FunctionParameterListGrammar"@.len());
    reveal_strlit("InsertStatementSegment");
    assert("MergeDeleteClauseSegment"@.len() != "InsertStatementSegment"@.len());
    reveal_strlit("SetSchemaStatementSegment");
    assert("MergeDeleteClauseSegment"@.len() != "SetSchemaStatementSegment"@.len());
    reveal_strlit("TransactionStatementSegment");
    assert("MergeDeleteClauseSegment"@.len() != "TransactionStatementSegment"@.len());
    reveal_strlit("UpdateStatementSegment");
    assert("MergeDeleteClauseSegment"@.len() != "UpdateStatementSegment"@.len());
}

proof fn lemma_part_8_keeps_merge_delete_clause_segment(m: Map<Seq<char>, ElementView>)
    requires
        m.dom().contains("MergeDeleteClauseSegment"@),
    ensures
        ansi_library_part_8(m).dom().contains("MergeDeleteClauseSegment"@),
        ansi_library_part_8(m)["MergeDeleteClauseSegment"@] == m["MergeDeleteClauseSegment"@],
{
    reveal_strlit("MergeDeleteClauseSegment");
    reveal_strlit("AggregateOrderByClause");
    assert("MergeDeleteClauseSegment"@.len() != "AggregateOrderByClause"@.len());
    reveal_strlit("ArrayExpressionSegment");
    assert("MergeDeleteClauseSegment"@.len() != "ArrayExpressionSegment"@.len());
    reveal_strlit("BitwiseAndSegment");
    assert("MergeDeleteClauseSegment"@.len() != "BitwiseAndSegment"@.len());
    reveal_strlit("BitwiseLShiftSegment");
    assert("MergeDeleteClauseSegment"@.len() != "BitwiseLShiftSegment"@.len());
    reveal_strlit("BitwiseOrSegment");
    assert("MergeDeleteClauseSegment"@.len() != "BitwiseOrSegment"@.len());
    reveal_strlit("BitwiseRShiftSegment");
    assert("MergeDeleteClauseSegment"@.len() != "BitwiseRShiftSegment"@.len());
    reveal_strlit("ConcatSegment");
    assert("MergeDeleteClauseSegment"@.len() != "ConcatSegment"@.len());
    reveal_strlit("CreateUserStatementSegment");
    assert("MergeDeleteClauseSegment"@.len() != "CreateUserStatementSegment"@.len());
    reveal_strlit("DropTableStatementSegment");
    assert("MergeDeleteClauseSegment"@.len() != "DropTableStatementSegment"@.len());
    reveal_strlit("DropUserStatementSegment");
    assert("MergeDeleteClauseSegment"@[0] != "DropUserStatementSegment"@[0]);
    reveal_strlit("DropViewStatementSegment");
    assert("MergeDeleteClauseSegment"@[0] != "DropViewStatementSegment"@[0]);
    reveal_strlit("ElseClauseSegment");
    assert("MergeDeleteClauseSegment"@.len() != "ElseClauseSegment"@.len());
    reveal_strlit("EqualsSegment");
    assert("MergeDeleteClauseSegment"@.len() != "EqualsSegment"@.len());
    reveal_strlit("FunctionNameSegment");
    assert("MergeDeleteClauseSegment"@.len() != "FunctionNameSegment"@.len());
    reveal_strlit("GreaterThanOrEqualToSegment");
    assert("MergeDeleteClauseSegment"@.len() != "GreaterThanOrEqualToSegment"@.len());
    reveal_strlit("GreaterThanSegment");
    assert("MergeDeleteClauseSegment"@.len() != "GreaterThanSegment"@.len());
    reveal_strlit("IndexColumnDefinitionSegment");
    assert("MergeDeleteClauseSegment"@.len() != "IndexColumnDefinitionSegment"@.len());
    reveal_strlit("LessThanOrEqualToSegment");
    assert("MergeDeleteClauseSegment"@[0] != "LessThanOrEqualToSegment"@[0]);
    reveal_strlit("LessThanSegment");
    assert("MergeDeleteClauseSegment"@.len() != "LessThanSegment"@.len());
    reveal_strlit("LocalAliasSegment");
    assert("MergeDeleteClauseSegment"@.len() != "LocalAliasSegment"@.len());
    reveal_strlit("MergeStatementSegment");
    assert("MergeDeleteClauseSegment"@.len() != "MergeStatementSegment"@.len());
    reveal_strlit("NotEqualToSegment");
    assert("MergeDeleteClauseSegment"@.len() != "NotEqualToSegment"@.len());
    reveal_strlit("QualifiedNumericLiteralSegment");
    assert("MergeDeleteClauseSegment"@.len() != "QualifiedNumericLiteralSegment"@.len());
    reveal_strlit("WhenClauseSegment");
    assert("MergeDeleteClauseSegment"@.len() != "WhenClauseSegment"@.len());
    reveal_strlit("WhereClauseSegment");
    assert("MergeDeleteClauseSegment"@.len() != "WhereClauseSegment"@.len());
}

proof fn lemma_part_9_keeps_merge_delete_clause_segment(m: Map<Seq<char>, ElementView>)
    requires
        m.dom().contains("MergeDeleteClauseSegment"@),
    ensures
        ansi_library_part_9(m).dom().contains("MergeDeleteClauseSegment"@),
        ansi_library_part_9(m)["MergeDeleteClauseSegment"@] == m["MergeDeleteClauseSegment"@],
{
    reveal_strlit("MergeDeleteClauseSegment");
    reveal_strlit("AliasExpressionSegment");
    assert("MergeDeleteClauseSegment"@.len() != "AliasExpressionSegment"@.len());
    reveal_strlit("ArrayAccessorSegment");
    assert("MergeDeleteClauseSegment"@.len() != "ArrayAccessorSegment"@.len());
    reveal_strlit("ArrayLiteralSegment");
    assert("MergeDeleteClauseSegment"@.len() != "ArrayLiteralSegment"@.len());
    reveal_strlit("ArrayTypeSegment");
    assert("MergeDeleteClauseSegment"@.len() != "ArrayTypeSegment"@.len());
    reveal_strlit("BracketedArguments");
    assert("MergeDeleteClauseSegment"@.len() != "BracketedArguments"@.len());
    reveal_strlit("DatatypeSegment");
    assert("MergeDeleteClauseSegment"@.len() != "DatatypeSegment"@.len());
    reveal_strlit("EmptyStructLiteralSegment");
    assert("MergeDeleteClauseSegment"@.len() != "EmptyStructLiteralSegment"@.len());
    reveal_strlit("IntervalExpressionSegment");
    assert("MergeDeleteClauseSegment"@.len() != "IntervalExpressionSegment"@.len());
    reveal_strlit("ObjectLiteralElementSegment");
    assert("MergeDeleteClauseSegment"@.len() != "ObjectLiteralElementSegment"@.len());
    reveal_strlit("ObjectLiteralSegment");
    assert("MergeDeleteClauseSegment"@.len() != "ObjectLiteralSegment"@.len());
    reveal_strlit("OverlapsClauseSegment");
    assert("MergeDeleteClauseSegment"@.len() != "OverlapsClauseSegment"@.len());
    reveal_strlit("SelectClauseSegment");
    assert("MergeDeleteClauseSegment"@.len() != "SelectClauseSegment"@.len());
    reveal_strlit("SetOperatorSegment");
    assert("MergeDeleteClauseSegment"@.len() != "SetOperatorSegment"@.len());
    reveal_strlit("ShorthandCastSegment");
    assert("MergeDeleteClauseSegment"@.len() != "ShorthandCastSegment"@.len());
    reveal_strlit("SizedArrayTypeSegment");
    assert("MergeDeleteClauseSegment"@.len() != "SizedArrayTypeSegment"@.len());
    reveal_strlit("StatementSegment");
    assert("MergeDeleteClauseSegment"@.len() != "StatementSegment"@.len());
    reveal_strlit("StructLiteralSegment");
    assert("MergeDeleteClauseSegment"@.len() != "StructLiteralSegment"@.len());
    reveal_strlit("StructTypeSegment");
    assert("MergeDeleteClauseSegment"@.len() != "StructTypeSegment"@.len());
    reveal_strlit("TimeZoneGrammar");
    assert("MergeDeleteClauseSegment"@.len() != "TimeZoneGrammar"@.len());
    reveal_strlit("TypedArrayLiteralSegment");
    assert("MergeDeleteClauseSegment"@[0] != "TypedArrayLiteralSegment"@[0]);
    reveal_strlit("TypedStructLiteralSegment");
    assert("MergeDeleteClauseSegment"@.len() != "TypedStructLiteralSegment"@.len());
    reveal_strlit("UnorderedSelectStatementSegment");
    assert("MergeDeleteClauseSegment"@.len() != "UnorderedSelectStatementSegment"@.len());
    reveal_strlit("ValuesClauseSegment");
    assert("MergeDeleteClauseSegment"@.len() != "ValuesClauseSegment"@.len());
    reveal_strlit("WithDataClauseSegment");
    assert("MergeDeleteClauseSegment"@.len() != "WithDataClauseSegment"@.len());
    reveal_strlit("WithNoSchemaBindingClauseSegment");
    assert("MergeDeleteClauseSegment"@.len() != "WithNoSchemaBindingClauseSegment"@.len());
}

proof fn lemma_part_10_keeps_merge_delete_clause_segment(m: Map<Seq<char>, ElementView>)
    requires
        m.dom().contains("MergeDeleteClauseSegment"@),
    ensures
        ansi_library_part_10(m).dom().contains("MergeDeleteClauseSegment"@),
        ansi_library_part_10(m)["MergeDeleteClauseSegment"@] == m["MergeDeleteClauseSegment"@],
{
    reveal_strlit("MergeDeleteClauseSegment");
    reveal_strlit("AccessStatementSegmentGrantRoleWithOptionGrammar");
    assert("MergeDeleteClauseSegment"@.len() != "AccessStatementSegmentGrantRoleWithOptionGrammar"@.len());
    reveal_strlit("AliasedTableReferenceGrammar");
    assert("MergeDeleteClauseSegment"@.len() != "AliasedTableReferenceGrammar"@.len());
    reveal_strlit("CharCharacterSetGrammar");
    assert("MergeDeleteClauseSegment"@.len() != "CharCharacterSetGrammar"@.len());
    reveal_strlit("CreateSchemaStatementSegment");
    assert("MergeDeleteClauseSegment"@.len() != "CreateSchemaStatementSegment"@.len());
    reveal_strlit("DatePartFunctionNameSegment");
    assert("MergeDeleteClauseSegment"@.len() != "DatePartFunctionNameSegment"@.len());
    reveal_strlit("EmptyStructLiteralBracketsSegment");
    assert("MergeDeleteClauseSegment"@.len() != "EmptyStructLiteralBracketsSegment"@.len());
    reveal_strlit("Expression_A_Grammar");
    assert("MergeDeleteClauseSegment"@.len() != "Expression_A_Grammar"@.len());
    reveal_strlit("Expression_A_Unary_Operator_Grammar");
    assert("MergeDeleteClauseSegment"@.len() != "Expression_A_Unary_Operator_Grammar"@.len());
    reveal_strlit("Expression_B_Unary_Operator_Grammar");
    assert("MergeDeleteClauseSegment"@.len() != "Expression_B_Unary_Operator_Grammar"@.len());
    reveal_strlit("FromClauseSegment");
    assert("MergeDeleteClauseSegment"@.len() != "FromClauseSegment"@.len());
    reveal_strlit("FromExpressionSegment");
    assert("MergeDeleteClauseSegment"@.len() != "FromExpressionSegment"@.len());
    reveal_strlit("FunctionContentsExpressionGrammar");
    assert("MergeDeleteClauseSegment"@.len() != "FunctionContentsExpressionGrammar"@.len());
    reveal_strlit("FunctionContentsGrammar");
    assert("MergeDeleteClauseSegment"@.len() != "FunctionContentsGrammar"@.len());
    reveal_strlit("FunctionContentsSegment");
    assert("MergeDeleteClauseSegment"@.len() != "FunctionContentsSegment"@.len());
    reveal_strlit("JoinLikeClauseGrammar");
    assert("MergeDeleteClauseSegment"@.len() != "JoinLikeClauseGrammar"@.len());
    reveal_strlit("OrderByClauseSegment");
    assert("MergeDeleteClauseSegment"@.len() != "OrderByClauseSegment"@.len());
    reveal_strlit("PostFunctionGrammar");
    assert("MergeDeleteClauseSegment"@.len() != "PostFunctionGrammar"@.len());
    reveal_strlit("SelectClauseElementSegment");
    assert("MergeDeleteClauseSegment"@.len() != "SelectClauseElementSegment"@.len());
    reveal_strlit("SelectClauseModifierSegment");
    assert("MergeDeleteClauseSegment"@.len() != "SelectClauseModifierSegment"@.len());
    reveal_strlit("SelectStatementSegment");
    assert("MergeDeleteClauseSegment"@.len() != "SelectStatementSegment"@.len());
    reveal_strlit("SetExpressionSegment");
    assert("MergeDeleteClauseSegment"@.len() != "SetExpressionSegment"@.len());
    reveal_strlit("Tail_Recurse_Expression_A_Grammar");
    assert("MergeDeleteClauseSegment"@.len() != "Tail_Recurse_Expression_A_Grammar"@.len());
    reveal_strlit("Tail_Recurse_Expression_B_Grammar");
    assert("MergeDeleteClauseSegment"@.len() != "Tail_Recurse_Expression_B_Grammar"@.len());
    reveal_strlit("TruncateStatementSegment");
    assert("MergeDeleteClauseSegment"@[0] != "TruncateStatementSegment"@[0]);
    reveal_strlit("WildcardExpressionSegment");
    assert("MergeDeleteClauseSegment"@.len() != "WildcardExpressionSegment"@.len());
}

proof fn lemma_part_11_keeps_merge_delete_clause_segment(m: Map<Seq<char>, ElementView>)
    requires
        m.dom().contains("MergeDeleteClauseSegment"@),
    ensures
        ansi_library_part_11(m).dom().contains("MergeDeleteClauseSegment"@),
        ansi_library_part_11(m)["MergeDeleteClauseSegment"@] == m["MergeDeleteClauseSegment"@],
{
    reveal_strlit("MergeDeleteClauseSegment");
    reveal_strlit("AccessorGrammar");
    assert("MergeDeleteClauseSegment"@.len() != "AccessorGrammar"@.len());
    reveal_strlit("Expression_B_Grammar");
    assert("MergeDeleteClauseSegment"@.len() != "Expression_B_Grammar"@.len());
    reveal_strlit("Expression_C_Grammar");
    assert("MergeDeleteClauseSegment"@.len() != "Expression_C_Grammar"@.len());
    reveal_strlit("Expression_D_Grammar");
    assert("MergeDeleteClauseSegment"@.len() != "Expression_D_Grammar"@.len());
    reveal_strlit("NonSetSelectableGrammar");
    assert("MergeDeleteClauseSegment"@.len() != "NonSetSelectableGrammar"@.len());
    reveal_strlit("NonWithNonSelectableGrammar");
    assert("MergeDeleteClauseSegment"@.len() != "NonWithNonSelectableGrammar"@.len());
    reveal_strlit("NonWithSelectableGrammar");
    assert("MergeDeleteClauseSegment"@[0] != "NonWithSelectableGrammar"@[0]);
    reveal_strlit("PostTableExpressionGrammar");
    assert("MergeDeleteClauseSegment"@.len() != "PostTableExpressionGrammar"@.len());
    reveal_strlit("SelectableGrammar");
    assert("MergeDeleteClauseSegment"@.len() != "SelectableGrammar"@.len());
    reveal_strlit("TimeWithTZGrammar");
    assert("MergeDeleteClauseSegment"@.len() != "TimeWithTZGrammar"@.len());
}

/// The ANSI library holds `MergeDeleteClauseSegment`: the value of its last entry of that name.
pub proof fn lemma_ansi_library_merge_delete_clause_segment(lib: Map<Seq<char>, ElementView>)
    ensures
        ansi_library(lib).dom().contains("MergeDeleteClauseSegment"@),
        ansi_library(lib)["MergeDeleteClauseSegment"@] == merge_delete_clause_segment_element(),
{
    reveal(ansi_library);
    let m0 = lib;
    let m1 = ansi_library_part_0(m0);
    let m2 = ansi_library_part_1(m1);
    let m3 = ansi_library_part_2(m2);
    let m4 = ansi_library_part_3(m3);
    let m5 = ansi_library_part_4(m4);
    let m6 = ansi_library_part_5(m5);
    let m7 = ansi_library_part_6(m6);
    let m8 = ansi_library_part_7(m7);
    let m9 = ansi_library_part_8(m8);
    let m10 = ansi_library_part_9(m9);
    let m11 = ansi_library_part_10(m10);
    let m12 = ansi_library_part_11(m11);
    lemma_part_5_sets_merge_delete_clause_segment(m5);
    lemma_part_6_keeps_merge_delete_clause_segment(m6);
    lemma_part_7_keeps_merge_delete_clause_segment(m7);
    lemma_part_8_keeps_merge_delete_clause_segment(m8);
    lemma_part_9_keeps_merge_delete_clause_segment(m9);
    lemma_part_10_keeps_merge_delete_clause_segment(m10);
    lemma_part_11_keeps_merge_delete_clause_segment(m11);
}

proof fn lemma_part_5_sets_comment_clause_segment(m: Map<Seq<char>, ElementView>)
    ensures
        ansi_library_part_5(m).dom().contains("CommentClauseSegment"@),
        ansi_library_part_5(m)["CommentClauseSegment"@] == comment_clause_segment_element(),
{
    reveal_strlit("CommentClauseSegment");
    reveal_strlit("CTEColumnList");
    assert("CommentClauseSegment"@.len() != "CTEColumnList"@.len());
    reveal_strlit("CTEDefinitionSegment");
    assert("CommentClauseSegment"@[1] != "CTEDefinitionSegment"@[1]);
    reveal_strlit("FrameClauseSegment");
    assert("CommentClauseSegment"@.len() != "FrameClauseSegment"@.len());
    reveal_strlit("GroupByClauseSegment");
    assert("CommentClauseSegment"@[0] != "GroupByClauseSegment"@[0]);
    reveal_strlit("MergeDeleteClauseSegment");
    assert("CommentClauseSegment"@.len() != "MergeDeleteClauseSegment"@.len());
    reveal_strlit("MergeInsertClauseSegment");
    assert("CommentClauseSegment"@.len() != "MergeInsertClauseSegment"@.len());
    reveal_strlit("MergeMatchSegment");
    assert("CommentClauseSegment"@.len() != "MergeMatchSegment"@.len());
    reveal_strlit("MergeMatchedClauseSegment");
    assert("CommentClauseSegment"@.len() != "MergeMatchedClauseSegment"@.len());
    reveal_strlit("MergeNotMatchedClauseSegment");
    assert("CommentClauseSegment"@.len() != "MergeNotMatchedClauseSegment"@.len());
    reveal_strlit("MergeUpdateClauseSegment");
    assert("CommentClauseSegment"@.len() != "MergeUpdateClauseSegment"@.len());
    reveal_strlit("SchemaReferenceSegment");
    assert("CommentClauseSegment"@.len() != "SchemaReferenceSegment"@.len());
    reveal_strlit("SetClauseListSegment");
    assert("CommentClauseSegment"@[0] != "SetClauseListSegment"@[0]);
    reveal_strlit("SingleIdentifierListSegment");
    assert("CommentClauseSegment"@.len() != "SingleIdentifierListSegment"@.len());
    reveal_strlit("TableEndClauseSegment");
    assert("CommentClauseSegment"@.len() != "TableEndClauseSegment"@.len());
    reveal_strlit("WithCompoundNonSelectStatementSegment");
    assert("CommentClauseSegment"@.len() != "WithCompoundNonSelectStatementSegment"@.len());
    reveal_strlit("WithCompoundStatementSegment");
    assert("CommentClauseSegment"@.len() != "WithCompoundStatementSegment"@.len());
}

proof fn lemma_part_6_keeps_comment_clause_segment(m: Map<Seq<char>, ElementView>)
    requires
        m.dom().contains("CommentClauseSegment"@),
    ensures
        ansi_library_part_6(m).dom().contains("CommentClauseSegment"@),
        ansi_library_part_6(m)["CommentClauseSegment"@] == m["CommentClauseSegment"@],
{
    reveal_strlit("CommentClauseSegment");
    reveal_strlit("CollationReferenceSegment");
    assert("CommentClauseSegment"@.len() != "CollationReferenceSegment"@.len());
    reveal_strlit("CreateSequenceOptionsSegment");
    assert("CommentClauseSegment"@.len() != "CreateSequenceOptionsSegment"@.len());
    reveal_strlit("CreateSequenceStatementSegment");
    assert("CommentClauseSegment"@.len() != "CreateSequenceStatementSegment"@.len());
    reveal_strlit("CreateTriggerStatementSegment");
    assert("CommentClauseSegment"@.len() != "CreateTriggerStatementSegment"@.len());
    reveal_strlit("DatabaseReferenceSegment");
    assert("CommentClauseSegment"@.len() != "DatabaseReferenceSegment"@.len());
    reveal_strlit("DescribeStatementSegment");
    assert("CommentClauseSegment"@.len() != "DescribeStatementSegment"@.len());
    reveal_strlit("DropModelStatementSegment");
    assert("CommentClauseSegment"@.len() != "DropModelStatementSegment"@.len());
    reveal_strlit("DropTriggerStatementSegment");
    assert("CommentClauseSegment"@.len() != "DropTriggerStatementSegment"@.len());
    reveal_strlit("ExplainStatementSegment");
    assert("CommentClauseSegment"@.len() != "ExplainStatementSegment"@.len());
    reveal_strlit("IndexReferenceSegment");
    assert("CommentClauseSegment"@.len() != "IndexReferenceSegment"@.len());
    reveal_strlit("JoinClauseSegment");
    assert("CommentClauseSegment"@.len() != "JoinClauseSegment"@.len());
    reveal_strlit("JoinOnConditionSegment");
    assert("CommentClauseSegment"@.len() != "JoinOnConditionSegment"@.len());
    reveal_strlit("NamedWindowSegment");
    assert("CommentClauseSegment"@.len() != "NamedWindowSegment"@.len());
    reveal_strlit("OverClauseSegment");
    assert("CommentClauseSegment"@.len() != "OverClauseSegment"@.len());
    reveal_strlit("PartitionClauseSegment");
    assert("CommentClauseSegment"@.len() != "PartitionClauseSegment"@.len());
    reveal_strlit("SamplingExpressionSegment");
    assert("CommentClauseSegment"@.len() != "SamplingExpressionSegment"@.len());
    reveal_strlit("SequenceReferenceSegment");
    assert("CommentClauseSegment"@.len() != "SequenceReferenceSegment"@.len());
    reveal_strlit("TableConstraintSegment");
    assert("CommentClauseSegment"@.len() != "TableConstraintSegment"@.len());
    reveal_strlit("TableExpressionSegment");
    assert("CommentClauseSegment"@.len() != "TableExpressionSegment"@.len());
    reveal_strlit("TriggerReferenceSegment");
    assert("CommentClauseSegment"@.len() != "TriggerReferenceSegment"@.len());
    reveal_strlit("UseStatementSegment");
    assert("CommentClauseSegment"@.len() != "UseStatementSegment"@.len());
    reveal_strlit("WindowSpecificationSegment");
    assert("CommentClauseSegment"@.len() != "WindowSpecificationSegment"@.len());
}

proof fn lemma_part_7_keeps_comment_clause_segment(m: Map<Seq<char>, ElementView>)
    requires
        m.dom().contains("CommentClauseSegment"@),
    ensures
        ansi_library_part_7(m).dom().contains("CommentClauseSegment"@),
        ansi_library_part_7(m)["CommentClauseSegment"@] == m["CommentClauseSegment"@],
{
    reveal_strlit("CommentClauseSegment");
    reveal_strlit("AccessStatementSegment");
    assert("CommentClauseSegment"@.len() != "AccessStatementSegment"@.len());
    reveal_strlit("AlterSequenceStatementSegment");
    assert("CommentClauseSegment"@.len() != "AlterSequenceStatementSegment"@.len());
    reveal_strlit("AlterTableStatementSegment");
    assert("CommentClauseSegment"@.len() != "AlterTableStatementSegment"@.len());
    reveal_strlit("CreateCastStatementSegment");
    assert("CommentClauseSegment"@.len() != "CreateCastStatementSegment"@.len());
    reveal_strlit("CreateDatabaseStatementSegment");
    assert("CommentClauseSegment"@.len() != "CreateDatabaseStatementSegment"@.len());
    reveal_strlit("CreateFunctionStatementSegment");
    assert("CommentClauseSegment"@.len() != "CreateFunctionStatementSegment"@.len());
    reveal_strlit("CreateIndexStatementSegment");
    assert("CommentClauseSegment"@.len() != "CreateIndexStatementSegment"@.len());
    reveal_strlit("CreateModelStatementSegment");
    assert("CommentClauseSegment"@.len() != "CreateModelStatementSegment"@.len());
    reveal_strlit("CreateRoleStatementSegment");
    assert("CommentClauseSegment"@.len() != "CreateRoleStatementSegment"@.len());
    reveal_strlit("CreateTableStatementSegment");
    assert("CommentClauseSegment"@.len() != "CreateTableStatementSegment"@.len());
    reveal_strlit("CreateViewStatementSegment");
    assert("CommentClauseSegment"@.len() != "CreateViewStatementSegment"@.len());
    reveal_strlit("DeleteStatementSegment");
    assert("CommentClauseSegment"@.len() != "DeleteStatementSegment"@.len());
    reveal_strlit("DropCastStatementSegment");
    assert("CommentClauseSegment"@.len() != "DropCastStatementSegment"@.len());
    reveal_strlit("DropDatabaseStatementSegment");
    assert("CommentClauseSegment"@.len() != "DropDatabaseStatementSegment"@.len());
    reveal_strlit("DropFunctionStatementSegment");
    assert("CommentClauseSegment"@.len() != "DropFunctionStatementSegment"@.len());
    reveal_strlit("DropIndexStatementSegment");
    assert("CommentClauseSegment"@.len() != "DropIndexStatementSegment"@.len());
    reveal_strlit("DropRoleStatementSegment");
    assert("CommentClauseSegment"@.len() != "DropRoleStatementSegment"@.len());
    reveal_strlit("DropSchemaStatementSegment");
    assert("CommentClauseSegment"@.len() != "DropSchemaStatementSegment"@.len());
    reveal_strlit("DropSequenceStatementSegment");
    assert("CommentClauseSegment"@.len() != "DropSequenceStatementSegment"@.len());
    reveal_strlit("DropTypeStatementSegment");
    assert("CommentClauseSegment"@.len() != "DropTypeStatementSegment"@.len());
    reveal_strlit("FunctionParameterListGrammar");
    assert("CommentClauseSegment"@.len() != "FunctionParameterListGrammar"@.len());
    reveal_strlit("InsertStatementSegment");
    assert("CommentClauseSegment"@.len() != "InsertStatementSegment"@.len());
    reveal_strlit("SetSchemaStatementSegment");
    assert("CommentClauseSegment"@.len() != "SetSchemaStatementSegment"@.len());
    reveal_strlit("TransactionStatementSegment");
    assert("CommentClauseSegment"@.len() != "TransactionStatementSegment"@.len());
    reveal_strlit("UpdateStatementSegment");
    assert("CommentClauseSegment"@.len() != "UpdateStatementSegment"@.len());
}

proof fn lemma_part_8_keeps_comment_clause_segment(m: Map<Seq<char>, ElementView>)
    requires
        m.dom().contains("CommentClauseSegment"@),
    ensures
        ansi_library_part_8(m).dom().contains("CommentClauseSegment"@),
        ansi_library_part_8(m)["CommentClauseSegment"@] == m["CommentClauseSegment"@],
{
    reveal_strlit("CommentClauseSegment");
    reveal_strlit("AggregateOrderByClause");
    assert("CommentClauseSegment"@.len() != "AggregateOrderByClause"@.len());
    reveal_strlit("ArrayExpressionSegment");
    assert("CommentClauseSegment"@.len() != "ArrayExpressionSegment"@.len());
    reveal_strlit("BitwiseAndSegment");
    assert("CommentClauseSegment"@.len() != "BitwiseAndSegment"@.len());
    reveal_strlit("BitwiseLShiftSegment");
    assert("CommentClauseSegment"@[0] != "BitwiseLShiftSegment"@[0]);
    reveal_strlit("BitwiseOrSegment");
    assert("CommentClauseSegment"@.len() != "BitwiseOrSegment"@.len());
    reveal_strlit("BitwiseRShiftSegment");
    assert("CommentClauseSegment"@[0] != "BitwiseRShiftSegment"@[0]);
    reveal_strlit("ConcatSegment");
    assert("CommentClauseSegment"@.len() != "ConcatSegment"@.len());
    reveal_strlit("CreateUserStatementSegment");
    assert("CommentClauseSegment"@.len() != "CreateUserStatementSegment"@.len());
    reveal_strlit("DropTableStatementSegment");
    assert("CommentClauseSegment"@.len() != "DropTableStatementSegment"@.len());
    reveal_strlit("DropUserStatementSegment");
    assert("CommentClauseSegment"@.len() != "DropUserStatementSegment"@.len());
    reveal_strlit("DropViewStatementSegment");
    assert("CommentClauseSegment"@.len() != "DropViewStatementSegment"@.len());
    reveal_strlit("ElseClauseSegment");
    assert("CommentClauseSegment"@.len() != "ElseClauseSegment"@.len());
    reveal_strlit("EqualsSegment");
    assert("CommentClauseSegment"@.len() != "EqualsSegment"@.len());
    reveal_strlit("FunctionNameSegment");
    assert("CommentClauseSegment"@.len() != "FunctionNameSegment"@.len());
    reveal_strlit("GreaterThanOrEqualToSegment");
    assert("CommentClauseSegment"@.len() != "GreaterThanOrEqualToSegment"@.len());
    reveal_strlit("GreaterThanSegment");
    assert("CommentClauseSegment"@.len() != "GreaterThanSegment"@.len());
    reveal_strlit("IndexColumnDefinitionSegment");
    assert("CommentClauseSegment"@.len() != "IndexColumnDefinitionSegment"@.len());
    reveal_strlit("LessThanOrEqualToSegment");
    assert("CommentClauseSegment"@.len() != "LessThanOrEqualToSegment"@.len());
    reveal_strlit("LessThanSegment");
    assert("CommentClauseSegment"@.len() != "LessThanSegment"@.len());
    reveal_strlit("LocalAliasSegment");
    assert("CommentClauseSegment"@.len() != "LocalAliasSegment"@.len());
    reveal_strlit("MergeStatementSegment");
    assert("CommentClauseSegment"@.len() != "MergeStatementSegment"@.len());
    reveal_strlit("NotEqualToSegment");
    assert("CommentClauseSegment"@.len() != "NotEqualToSegment"@.len());
    reveal_strlit("QualifiedNumericLiteralSegment");
    assert("CommentClauseSegment"@.len() != "QualifiedNumericLiteralSegment"@.len());
    reveal_strlit("WhenClauseSegment");
    assert("CommentClauseSegment"@.len() != "WhenClauseSegment"@.len());
    reveal_strlit("WhereClauseSegment");
    assert("CommentClauseSegment"@.len() != "WhereClauseSegment"@.len());
}

proof fn lemma_part_9_keeps_comment_clause_segment(m: Map<Seq<char>, ElementView>)
    requires
        m.dom().contains("CommentClauseSegment"@),
    ensures
        ansi_library_part_9(m).dom().contains("CommentClauseSegment"@),
        ansi_library_part_9(m)["CommentClauseSegment"@] == m["CommentClauseSegment"@],
{
    reveal_strlit("CommentClauseSegment");
    reveal_strlit("AliasExpressionSegment");
    assert("CommentClauseSegment"@.len() != "AliasExpressionSegment"@.len());
    reveal_strlit("ArrayAccessorSegment");
    assert("CommentClauseSegment"@[0] != "ArrayAccessorSegment"@[0]);
    reveal_strlit("ArrayLiteralSegment");
    assert("CommentClauseSegment"@.len() != "ArrayLiteralSegment"@.len());
    reveal_strlit("ArrayTypeSegment");
    assert("CommentClauseSegment"@.len() != "ArrayTypeSegment"@.len());
    reveal_strlit("BracketedArguments");
    assert("CommentClauseSegment"@.len() != "BracketedArguments"@.len());
    reveal_strlit("DatatypeSegment");
    assert("CommentClauseSegment"@.len() != "DatatypeSegment"@.len());
    reveal_strlit("EmptyStructLiteralSegment");
    assert("CommentClauseSegment"@.len() != "EmptyStructLiteralSegment"@.len());
    reveal_strlit("IntervalExpressionSegment");
    assert("CommentClauseSegment"@.len() != "IntervalExpressionSegment"@.len());
    reveal_strlit("ObjectLiteralElementSegment");
    assert("CommentClauseSegment"@.len() != "ObjectLiteralElementSegment"@.len());
    reveal_strlit("ObjectLiteralSegment");
    assert("CommentClauseSegment"@[0] != "ObjectLiteralSegment"@[0]);
    reveal_strlit("OverlapsClauseSegment");
    assert("CommentClauseSegment"@.len() != "OverlapsClauseSegment"@.len());
    reveal_strlit("SelectClauseSegment");
    assert("CommentClauseSegment"@.len() != "SelectClauseSegment"@.len());
    reveal_strlit("SetOperatorSegment");
    assert("CommentClauseSegment"@.len() != "SetOperatorSegment"@.len());
    reveal_strlit("ShorthandCastSegment");
    assert("CommentClauseSegment"@[0] != "ShorthandCastSegment"@[0]);
    reveal_strlit("SizedArrayTypeSegment");
    assert("CommentClauseSegment"@.len() != "SizedArrayTypeSegment"@.len());
    reveal_strlit("StatementSegment");
    assert("CommentClauseSegment"@.len() != "StatementSegment"@.len());
    reveal_strlit("StructLiteralSegment");
    assert("CommentClauseSegment"@[0] != "StructLiteralSegment"@[0]);
    reveal_strlit("StructTypeSegment");
    assert("CommentClauseSegment"@.len() != "StructTypeSegment"@.len());
    reveal_strlit("TimeZoneGrammar");
    assert("CommentClauseSegment"@.len() != "TimeZoneGrammar"@.len());
    reveal_strlit("TypedArrayLiteralSegment");
    assert("CommentClauseSegment"@.len() != "TypedArrayLiteralSegment"@.len());
    reveal_strlit("TypedStructLiteralSegment");
    assert("CommentClauseSegment"@.len() != "TypedStructLiteralSegment"@.len());
    reveal_strlit("UnorderedSelectStatementSegment");
    assert("CommentClauseSegment"@.len() != "UnorderedSelectStatementSegment"@.len());
    reveal_strlit("ValuesClauseSegment");
    assert("CommentClauseSegment"@.len() != "ValuesClauseSegment"@.len());
    reveal_strlit("WithDataClauseSegment");
    assert("CommentClauseSegment"@.len() != "WithDataClauseSegment"@.len());
    reveal_strlit("WithNoSchemaBindingClauseSegment");
    assert("CommentClauseSegment"@.len() != "WithNoSchemaBindingClauseSegment"@.len());
}

proof fn lemma_part_10_keeps_comment_clause_segment(m: Map<Seq<char>, ElementView>)
    requires
        m.dom().contains("CommentClauseSegment"@),
    ensures
        ansi_library_part_10(m).dom().contains("CommentClauseSegment"@),
        ansi_library_part_10(m)["CommentClauseSegment"@] == m["CommentClauseSegment"@],
{
    reveal_strlit("CommentClauseSegment");
    reveal_strlit("AccessStatementSegmentGrantRoleWithOptionGrammar");
    assert("CommentClauseSegment"@.len() != "AccessStatementSegmentGrantRoleWithOptionGrammar"@.len());
    reveal_strlit("AliasedTableReferenceGrammar");
    assert("CommentClauseSegment"@.len() != "AliasedTableReferenceGrammar"@.len());
    reveal_strlit("CharCharacterSetGrammar");
    assert("CommentClauseSegment"@.len() != "CharCharacterSetGrammar"@.len());
    reveal_strlit("CreateSchemaStatementSegment");
    assert("CommentClauseSegment"@.len() != "CreateSchemaStatementSegment"@.len());
    reveal_strlit("DatePartFunctionNameSegment");
    assert("CommentClauseSegment"@.len() != "DatePartFunctionNameSegment"@.len());
    reveal_strlit("EmptyStructLiteralBracketsSegment");
    assert("CommentClauseSegment"@.len() != "EmptyStructLiteralBracketsSegment"@.len());
    reveal_strlit("Expression_A_Grammar");
    assert("CommentClauseSegment"@[0] != "Expression_A_Grammar"@[0]);
    reveal_strlit("Expression_A_Unary_Operator_Grammar");
    assert("CommentClauseSegment"@.len() != "Expression_A_Unary_Operator_Grammar"@.len());
    reveal_strlit("Expression_B_Unary_Operator_Grammar");
    assert("CommentClauseSegment"@.len() != "Expression_B_Unary_Operator_Grammar"@.len());
    reveal_strlit("FromClauseSegment");
    assert("CommentClauseSegment"@.len() != "FromClauseSegment"@.len());
    reveal_strlit("FromExpressionSegment");
    assert("CommentClauseSegment"@.len() != "FromExpressionSegment"@.len());
    reveal_strlit("FunctionContentsExpressionGrammar");
    assert("CommentClauseSegment"@.len() != "FunctionContentsExpressionGrammar"@.len());
    reveal_strlit("FunctionContentsGrammar");
    assert("CommentClauseSegment"@.len() != "FunctionContentsGrammar"@.len());
    reveal_strlit("FunctionContentsSegment");
    assert("CommentClauseSegment"@.len() != "FunctionContentsSegment"@.len());
    reveal_strlit("JoinLikeClauseGrammar");
    assert("CommentClauseSegment"@.len() != "JoinLikeClauseGrammar"@.len());
    reveal_strlit("OrderByClauseSegment");
    assert("CommentClauseSegment"@[0] != "OrderByClauseSegment"@[0]);
    reveal_strlit("PostFunctionGrammar");
    assert("CommentClauseSegment"@.len() != "PostFunctionGrammar"@.len());
    reveal_strlit("SelectClauseElementSegment");
    assert("CommentClauseSegment"@.len() != "SelectClauseElementSegment"@.len());
    reveal_strlit("SelectClauseModifierSegment");
    assert("CommentClauseSegment"@.len() != "SelectClauseModifierSegment"@.len());
    reveal_strlit("SelectStatementSegment");
    assert("CommentClauseSegment"@.len() != "SelectStatementSegment"@.len());
    reveal_strlit("SetExpressionSegment");
    assert("CommentClauseSegment"@[0] != "SetExpressionSegment"@[0]);
    reveal_strlit("Tail_Recurse_Expression_A_Grammar");
    assert("CommentClauseSegment"@.len() != "Tail_Recurse_Expression_A_Grammar"@.len());
    reveal_strlit("Tail_Recurse_Expression_B_Grammar");
    assert("CommentClauseSegment"@.len() != "Tail_Recurse_Expression_B_Grammar"@.len());
    reveal_strlit("TruncateStatementSegment");
    assert("CommentClauseSegment"@.len() != "TruncateStatementSegment"@.len());
    reveal_strlit("WildcardExpressionSegment");
    assert("CommentClauseSegment"@.len() != "WildcardExpressionSegment"@.len());
}

proof fn lemma_part_11_keeps_comment_clause_segment(m: Map<Seq<char>, ElementView>)
    requires
        m.dom().contains("CommentClauseSegment"@),
    ensures
        ansi_library_part_11(m).dom().contains("CommentClauseSegment"@),
        ansi_library_part_11(m)["CommentClauseSegment"@] == m["CommentClauseSegment"@],
{
    reveal_strlit("CommentClauseSegment");
    reveal_strlit("AccessorGrammar");
    assert("CommentClauseSegment"@.len() != "AccessorGrammar"@.len());
    reveal_strlit("Expression_B_Grammar");
    assert("CommentClauseSegment"@[0] != "Expression_B_Grammar"@[0]);
    reveal_strlit("Expression_C_Grammar");
    assert("CommentClauseSegment"@[0] != "Expression_C_Grammar"@[0]);
    reveal_strlit("Expression_D_Grammar");
    assert("CommentClauseSegment"@[0] != "Expression_D_Grammar"@[0]);
    reveal_strlit("NonSetSelectableGrammar");
    assert("CommentClauseSegment"@.len() != "NonSetSelectableGrammar"@.len());
    reveal_strlit("NonWithNonSelectableGrammar");
    assert("CommentClauseSegment"@.len() != "NonWithNonSelectableGrammar"@.len());
    reveal_strlit("NonWithSelectableGrammar");
    assert("CommentClauseSegment"@.len() != "NonWithSelectableGrammar"@.len());
    reveal_strlit("PostTableExpressionGrammar");
    assert("CommentClauseSegment"@.len() != "PostTableExpressionGrammar"@.len());
    reveal_strlit("SelectableGrammar");
    assert("CommentClauseSegment"@.len() != "SelectableGrammar"@.len());
    reveal_strlit("TimeWithTZGrammar");
    assert("CommentClauseSegment"@.len() != "TimeWithTZGrammar"@.len());
}

/// The ANSI library holds `CommentClauseSegment`: the value of its last entry of that name.
pub proof fn lemma_ansi_library_comment_clause_segment(lib: Map<Seq<char>, ElementView>)
    ensures
        ansi_library(lib).dom().contains("CommentClauseSegment"@),
        ansi_library(lib)["CommentClauseSegment"@] == comment_clause_segment_element(),
{
    reveal(ansi_library);
    let m0 = lib;
    let m1 = ansi_library_part_0(m0);
    let m2 = ansi_library_part_1(m1);
    let m3 = ansi_library_part_2(m2);
    let m4 = ansi_library_part_3(m3);
    let m5 = ansi_library_part_4(m4);
    let m6 = ansi_library_part_5(m5);
    let m7 = ansi_library_part_6(m6);
    let m8 = ansi_library_part_7(m7);
    let m9 = ansi_library_part_8(m8);
    let m10 = ansi_library_part_9(m9);
    let m11 = ansi_library_part_10(m10);
    let m12 = ansi_library_part_11(m11);
    lemma_part_5_sets_comment_clause_segment(m5);
    lemma_part_6_keeps_comment_clause_segment(m6);
    lemma_part_7_keeps_comment_clause_segment(m7);
    lemma_part_8_keeps_comment_clause_segment(m8);
    lemma_part_9_keeps_comment_clause_segment(m9);
    lemma_part_10_keeps_comment_clause_segment(m10);
    lemma_part_11_keeps_comment_clause_segment(m11);
}

/// In the ANSI dialect `LimitClauseSegment` is a `limit_clause` node: `LIMIT`,
/// an indent, a number, an expression or `ALL` (bracketed or bare), an optional
/// `OFFSET` with a number or an expression or a comma and a number, then a
/// dedent.
/// The same holds of the ANSI library added to any library.
pub proof fn law_ansi_limit_clause(unreserved: Seq<char>, reserved: Seq<char>, lib: Map<Seq<char>, ElementView>)
    ensures
        ({
            let e = (ElementView::Node { kind: "limit_clause"@, grammar: GrammarView::sequence(seq![GrammarView::keyword("LIMIT"@), GrammarView::Indent, GrammarView::one_of(seq![(GrammarView::Bracketed { elements: seq![GrammarView::one_of(seq![GrammarView::reference("NumericLiteralSegment"@), GrammarView::reference("ExpressionSegment"@), GrammarView::keyword("ALL"@)])], bracket_type: "round"@ }), GrammarView::one_of(seq![GrammarView::reference("NumericLiteralSegment"@), GrammarView::reference("ExpressionSegment"@), GrammarView::keyword("ALL"@)])]), (GrammarView::Optional { grammar: Box::new(GrammarView::one_of(seq![GrammarView::sequence(seq![GrammarView::keyword("OFFSET"@), GrammarView::one_of(seq![GrammarView::reference("NumericLiteralSegment"@), GrammarView::reference("ExpressionSegment"@)])]), GrammarView::sequence(seq![GrammarView::reference("CommaSegment"@), GrammarView::reference("NumericLiteralSegment"@)])])) }), GrammarView::Dedent]) });
            &&& ansi_raw_dialect_view(unreserved, reserved).element("LimitClauseSegment"@) == Some(e)
            &&& ansi_library(lib).dom().contains("LimitClauseSegment"@)
            &&& ansi_library(lib)["LimitClauseSegment"@] == e
        }),
{
    lemma_ansi_library_limit_clause_segment(lib);
    lemma_ansi_library_limit_clause_segment(Map::empty());
}

/// In the ANSI dialect `OrderByClauseSegment` is an `orderby_clause` node:
/// `ORDER BY`, an indent, a comma-separated list (ended by `LIMIT` or a frame
/// unit) of a column, number or expression with an optional `ASC` or `DESC`
/// and an optional `NULLS FIRST` or `NULLS LAST`, then a dedent.
/// The same holds of the ANSI library added to any library.
pub proof fn law_ansi_order_by_clause(unreserved: Seq<char>, reserved: Seq<char>, lib: Map<Seq<char>, ElementView>)
    ensures
        ({
            let e = (ElementView::Node { kind: "orderby_clause"@, grammar: GrammarView::sequence(seq![GrammarView::keyword("ORDER"@), GrammarView::keyword("BY"@), GrammarView::Indent, (GrammarView::Delimited { elements: seq![GrammarView::sequence(seq![GrammarView::one_of(seq![GrammarView::reference("ColumnReferenceSegment"@), GrammarView::reference("NumericLiteralSegment"@), GrammarView::reference("ExpressionSegment"@)]), (GrammarView::Optional { grammar: Box::new(GrammarView::one_of(seq![GrammarView::keyword("ASC"@), GrammarView::keyword("DESC"@)])) }), (GrammarView::Optional { grammar: Box::new(GrammarView::sequence(seq![GrammarView::keyword("NULLS"@), GrammarView::one_of(seq![GrammarView::keyword("FIRST"@), GrammarView::keyword("LAST"@)])])) })])], allow_trailing: false, delimiter: None, terminators: seq![GrammarView::keyword("LIMIT"@), GrammarView::reference("FrameClauseUnitGrammar"@)], allow_gaps: true }), GrammarView::Dedent]) });
            &&& ansi_raw_dialect_view(unreserved, reserved).element("OrderByClauseSegment"@) == Some(e)
            &&& ansi_library(lib).dom().contains("OrderByClauseSegment"@)
            &&& ansi_library(lib)["OrderByClauseSegment"@] == e
        }),
{
    lemma_ansi_library_order_by_clause_segment(lib);
    lemma_ansi_library_order_by_clause_segment(Map::empty());
}

/// In the ANSI dialect `GroupByClauseSegment` is a `groupby_clause` node:
/// `GROUP BY`, then a `CUBE`/`ROLLUP` clause or an indented comma-separated
/// list of columns, numbers or expressions ended by the group-by terminators.
/// The same holds of the ANSI library added to any library.
pub proof fn law_ansi_group_by_clause(unreserved: Seq<char>, reserved: Seq<char>, lib: Map<Seq<char>, ElementView>)
    ensures
        ({
            let e = (ElementView::Node { kind: "groupby_clause"@, grammar: GrammarView::sequence(seq![GrammarView::keyword("GROUP"@), GrammarView::keyword("BY"@), GrammarView::one_of(seq![GrammarView::reference("CubeRollupClauseSegment"@), GrammarView::sequence(seq![GrammarView::Indent, (GrammarView::Delimited { elements: seq![GrammarView::one_of(seq![GrammarView::reference("ColumnReferenceSegment"@), GrammarView::reference("NumericLiteralSegment"@), GrammarView::reference("ExpressionSegment"@)])], allow_trailing: false, delimiter: None, terminators: seq![GrammarView::reference("GroupByClauseTerminatorGrammar"@)], allow_gaps: true }), GrammarView::Dedent])])]) });
            &&& ansi_raw_dialect_view(unreserved, reserved).element("GroupByClauseSegment"@) == Some(e)
            &&& ansi_library(lib).dom().contains("GroupByClauseSegment"@)
            &&& ansi_library(lib)["GroupByClauseSegment"@] == e
        }),
{
    lemma_ansi_library_group_by_clause_segment(lib);
    lemma_ansi_library_group_by_clause_segment(Map::empty());
}

/// In the ANSI dialect `WhenClauseSegment` is a `when_clause` node: `WHEN`, an
/// indented condition, `THEN` and an expression, with the indents that the
/// `indented_then` and `indented_then_contents` settings ask for.
/// The same holds of the ANSI library added to any library.
pub proof fn law_ansi_when_clause(unreserved: Seq<char>, reserved: Seq<char>, lib: Map<Seq<char>, ElementView>)
    ensures
        ({
            let e = (ElementView::Node { kind: "when_clause"@, grammar: GrammarView::sequence(seq![GrammarView::keyword("WHEN"@), GrammarView::sequence(seq![GrammarView::ImplicitIndent, GrammarView::reference("ExpressionSegment"@), GrammarView::Dedent]), (GrammarView::Conditional { meta: Box::new(GrammarView::Indent), setting: "indented_then"@ }), GrammarView::keyword("THEN"@), (GrammarView::Conditional { meta: Box::new(GrammarView::ImplicitIndent), setting: "indented_then_contents"@ }), GrammarView::reference("ExpressionSegment"@), (GrammarView::Conditional { meta: Box::new(GrammarView::Dedent), setting: "indented_then_contents"@ }), (GrammarView::Conditional { meta: Box::new(GrammarView::Dedent), setting: "indented_then"@ })]) });
            &&& ansi_raw_dialect_view(unreserved, reserved).element("WhenClauseSegment"@) == Some(e)
            &&& ansi_library(lib).dom().contains("WhenClauseSegment"@)
            &&& ansi_library(lib)["WhenClauseSegment"@] == e
        }),
{
    lemma_ansi_library_when_clause_segment(lib);
    lemma_ansi_library_when_clause_segment(Map::empty());
}

/// In the ANSI dialect `DropTableStatementSegment` is a
/// `drop_table_statement` node: `DROP`, an optional `TEMP` or `TEMPORARY`,
/// `TABLE`, an optional `IF EXISTS`, a comma-separated list of tables and an
/// optional drop behaviour.
/// The same holds of the ANSI library added to any library.
pub proof fn law_ansi_drop_table_statement(unreserved: Seq<char>, reserved: Seq<char>, lib: Map<Seq<char>, ElementView>)
    ensures
        ({
            let e = (ElementView::Node { kind: "drop_table_statement"@, grammar: GrammarView::sequence(seq![GrammarView::keyword("DROP"@), GrammarView::optional_reference("TemporaryGrammar"@), GrammarView::keyword("TABLE"@), GrammarView::optional_reference("IfExistsGrammar"@), GrammarView::delimited(seq![GrammarView::reference("TableReferenceSegment"@)]), GrammarView::optional_reference("DropBehaviorGrammar"@)]) });
            &&& ansi_raw_dialect_view(unreserved, reserved).element("DropTableStatementSegment"@) == Some(e)
            &&& ansi_library(lib).dom().contains("DropTableStatementSegment"@)
            &&& ansi_library(lib)["DropTableStatementSegment"@] == e
        }),
{
    lemma_ansi_library_drop_table_statement_segment(lib);
    lemma_ansi_library_drop_table_statement_segment(Map::empty());
}

/// In the ANSI dialect `DropViewStatementSegment` is a `drop_view_statement`
/// node: `DROP VIEW`, an optional `IF EXISTS`, a table reference and an
/// optional drop behaviour.
/// The same holds of the ANSI library added to any library.
pub proof fn law_ansi_drop_view_statement(unreserved: Seq<char>, reserved: Seq<char>, lib: Map<Seq<char>, ElementView>)
    ensures
        ({
            let e = (ElementView::Node { kind: "drop_view_statement"@, grammar: GrammarView::sequence(seq![GrammarView::keyword("DROP"@), GrammarView::keyword("VIEW"@), GrammarView::optional_reference("IfExistsGrammar"@), GrammarView::reference("TableReferenceSegment"@), GrammarView::optional_reference("DropBehaviorGrammar"@)]) });
            &&& ansi_raw_dialect_view(unreserved, reserved).element("DropViewStatementSegment"@) == Some(e)
            &&& ansi_library(lib).dom().contains("DropViewStatementSegment"@)
            &&& ansi_library(lib)["DropViewStatementSegment"@] == e
        }),
{
    lemma_ansi_library_drop_view_statement_segment(lib);
    lemma_ansi_library_drop_view_statement_segment(Map::empty());
}

/// In the ANSI dialect `DropIndexStatementSegment` is a
/// `drop_index_statement` node: `DROP INDEX`, an optional `IF EXISTS`, an
/// index reference and an optional drop behaviour.
/// The same holds of the ANSI library added to any library.
pub proof fn law_ansi_drop_index_statement(unreserved: Seq<char>, reserved: Seq<char>, lib: Map<Seq<char>, ElementView>)
    ensures
        ({
            let e = (ElementView::Node { kind: "drop_index_statement"@, grammar: GrammarView::sequence(seq![GrammarView::keyword("DROP"@), GrammarView::keyword("INDEX"@), GrammarView::optional_reference("IfExistsGrammar"@), GrammarView::reference("IndexReferenceSegment"@), GrammarView::optional_reference("DropBehaviorGrammar"@)]) });
            &&& ansi_raw_dialect_view(unreserved, reserved).element("DropIndexStatementSegment"@) == Some(e)
            &&& ansi_library(lib).dom().contains("DropIndexStatementSegment"@)
            &&& ansi_library(lib)["DropIndexStatementSegment"@] == e
        }),
{
    lemma_ansi_library_drop_index_statement_segment(lib);
    lemma_ansi_library_drop_index_statement_segment(Map::empty());
}

/// In the ANSI dialect `CreateRoleStatementSegment` is a
/// `create_role_statement` node: `CREATE ROLE` and a role reference.
/// The same holds of the ANSI library added to any library.
pub proof fn law_ansi_create_role_statement(unreserved: Seq<char>, reserved: Seq<char>, lib: Map<Seq<char>, ElementView>)
    ensures
        ({
            let e = (ElementView::Node { kind: "create_role_statement"@, grammar: GrammarView::sequence(seq![GrammarView::keyword("CREATE"@), GrammarView::keyword("ROLE"@), GrammarView::reference("RoleReferenceSegment"@)]) });
            &&& ansi_raw_dialect_view(unreserved, reserved).element("CreateRoleStatementSegment"@) == Some(e)
            &&& ansi_library(lib).dom().contains("CreateRoleStatementSegment"@)
            &&& ansi_library(lib)["CreateRoleStatementSegment"@] == e
        }),
{
    lemma_ansi_library_create_role_statement_segment(lib);
    lemma_ansi_library_create_role_statement_segment(Map::empty());
}

/// In the ANSI dialect `DropRoleStatementSegment` is a `drop_role_statement`
/// node: `DROP ROLE`, an optional `IF EXISTS`, and an identifier.
/// The same holds of the ANSI library added to any library.
pub proof fn law_ansi_drop_role_statement(unreserved: Seq<char>, reserved: Seq<char>, lib: Map<Seq<char>, ElementView>)
    ensures
        ({
            let e = (ElementView::Node { kind: "drop_role_statement"@, grammar: GrammarView::sequence(seq![GrammarView::keyword("DROP"@), GrammarView::keyword("ROLE"@), GrammarView::optional_reference("IfExistsGrammar"@), GrammarView::reference("SingleIdentifierGrammar"@)]) });
            &&& ansi_raw_dialect_view(unreserved, reserved).element("DropRoleStatementSegment"@) == Some(e)
            &&& ansi_library(lib).dom().contains("DropRoleStatementSegment"@)
            &&& ansi_library(lib)["DropRoleStatementSegment"@] == e
        }),
{
    lemma_ansi_library_drop_role_statement_segment(lib);
    lemma_ansi_library_drop_role_statement_segment(Map::empty());
}

/// In the ANSI dialect `CreateUserStatementSegment` is a
/// `create_user_statement` node: `CREATE USER` and a role reference.
/// The same holds of the ANSI library added to any library.
pub proof fn law_ansi_create_user_statement(unreserved: Seq<char>, reserved: Seq<char>, lib: Map<Seq<char>, ElementView>)
    ensures
        ({
            let e = (ElementView::Node { kind: "create_user_statement"@, grammar: GrammarView::sequence(seq![GrammarView::keyword("CREATE"@), GrammarView::keyword("USER"@), GrammarView::reference("RoleReferenceSegment"@)]) });
            &&& ansi_raw_dialect_view(unreserved, reserved).element("CreateUserStatementSegment"@) == Some(e)
            &&& ansi_library(lib).dom().contains("CreateUserStatementSegment"@)
            &&& ansi_library(lib)["CreateUserStatementSegment"@] == e
        }),
{
    lemma_ansi_library_create_user_statement_segment(lib);
    lemma_ansi_library_create_user_statement_segment(Map::empty());
}

/// In the ANSI dialect `DropUserStatementSegment` is a `drop_user_statement`
/// node: `DROP USER`, an optional `IF EXISTS`, and a role reference.
/// The same holds of the ANSI library added to any library.
pub proof fn law_ansi_drop_user_statement(unreserved: Seq<char>, reserved: Seq<char>, lib: Map<Seq<char>, ElementView>)
    ensures
        ({
            let e = (ElementView::Node { kind: "drop_user_statement"@, grammar: GrammarView::sequence(seq![GrammarView::keyword("DROP"@), GrammarView::keyword("USER"@), GrammarView::optional_reference("IfExistsGrammar"@), GrammarView::reference("RoleReferenceSegment"@)]) });
            &&& ansi_raw_dialect_view(unreserved, reserved).element("DropUserStatementSegment"@) == Some(e)
            &&& ansi_library(lib).dom().contains("DropUserStatementSegment"@)
            &&& ansi_library(lib)["DropUserStatementSegment"@] == e
        }),
{
    lemma_ansi_library_drop_user_statement_segment(lib);
    lemma_ansi_library_drop_user_statement_segment(Map::empty());
}

/// In the ANSI dialect `CreateDatabaseStatementSegment` is a
/// `create_database_statement` node: `CREATE DATABASE`, an optional
/// `IF NOT EXISTS`, and a database reference.
/// The same holds of the ANSI library added to any library.
pub proof fn law_ansi_create_database_statement(unreserved: Seq<char>, reserved: Seq<char>, lib: Map<Seq<char>, ElementView>)
    ensures
        ({
            let e = (ElementView::Node { kind: "create_database_statement"@, grammar: GrammarView::sequence(seq![GrammarView::keyword("CREATE"@), GrammarView::keyword("DATABASE"@), GrammarView::optional_reference("IfNotExistsGrammar"@), GrammarView::reference("DatabaseReferenceSegment"@)]) });
            &&& ansi_raw_dialect_view(unreserved, reserved).element("CreateDatabaseStatementSegment"@) == Some(e)
            &&& ansi_library(lib).dom().contains("CreateDatabaseStatementSegment"@)
            &&& ansi_library(lib)["CreateDatabaseStatementSegment"@] == e
        }),
{
    lemma_ansi_library_create_database_statement_segment(lib);
    lemma_ansi_library_create_database_statement_segment(Map::empty());
}

/// In the ANSI dialect `DropDatabaseStatementSegment` is a
/// `drop_database_statement` node: `DROP DATABASE`, an optional `IF EXISTS`, a
/// database reference and an optional drop behaviour.
/// The same holds of the ANSI library added to any library.
pub proof fn law_ansi_drop_database_statement(unreserved: Seq<char>, reserved: Seq<char>, lib: Map<Seq<char>, ElementView>)
    ensures
        ({
            let e = (ElementView::Node { kind: "drop_database_statement"@, grammar: GrammarView::sequence(seq![GrammarView::keyword("DROP"@), GrammarView::keyword("DATABASE"@), GrammarView::optional_reference("IfExistsGrammar"@), GrammarView::reference("DatabaseReferenceSegment"@), GrammarView::optional_reference("DropBehaviorGrammar"@)]) });
            &&& ansi_raw_dialect_view(unreserved, reserved).element("DropDatabaseStatementSegment"@) == Some(e)
            &&& ansi_library(lib).dom().contains("DropDatabaseStatementSegment"@)
            &&& ansi_library(lib)["DropDatabaseStatementSegment"@] == e
        }),
{
    lemma_ansi_library_drop_database_statement_segment(lib);
    lemma_ansi_library_drop_database_statement_segment(Map::empty());
}

/// In the ANSI dialect `PrimaryKeyGrammar` is `PRIMARY KEY`.
/// The same holds of the ANSI library added to any library.
pub proof fn law_ansi_primary_key(unreserved: Seq<char>, reserved: Seq<char>, lib: Map<Seq<char>, ElementView>)
    ensures
        ({
            let e = ElementView::Grammar(GrammarView::sequence(seq![GrammarView::keyword("PRIMARY"@), GrammarView::keyword("KEY"@)]));
            &&& ansi_raw_dialect_view(unreserved, reserved).element("PrimaryKeyGrammar"@) == Some(e)
            &&& ansi_library(lib).dom().contains("PrimaryKeyGrammar"@)
            &&& ansi_library(lib)["PrimaryKeyGrammar"@] == e
        }),
{
    lemma_ansi_library_primary_key_grammar(lib);
    lemma_ansi_library_primary_key_grammar(Map::empty());
}

/// In the ANSI dialect `ForeignKeyGrammar` is `FOREIGN KEY`.
/// The same holds of the ANSI library added to any library.
pub proof fn law_ansi_foreign_key(unreserved: Seq<char>, reserved: Seq<char>, lib: Map<Seq<char>, ElementView>)
    ensures
        ({
            let e = ElementView::Grammar(GrammarView::sequence(seq![GrammarView::keyword("FOREIGN"@), GrammarView::keyword("KEY"@)]));
            &&& ansi_raw_dialect_view(unreserved, reserved).element("ForeignKeyGrammar"@) == Some(e)
            &&& ansi_library(lib).dom().contains("ForeignKeyGrammar"@)
            &&& ansi_library(lib)["ForeignKeyGrammar"@] == e
        }),
{
    lemma_ansi_library_foreign_key_grammar(lib);
    lemma_ansi_library_foreign_key_grammar(Map::empty());
}

/// In the ANSI dialect `UniqueKeyGrammar` is `UNIQUE` alone.
/// The same holds of the ANSI library added to any library.
pub proof fn law_ansi_unique_key(unreserved: Seq<char>, reserved: Seq<char>, lib: Map<Seq<char>, ElementView>)
    ensures
        ({
            let e = ElementView::Grammar(GrammarView::sequence(seq![GrammarView::keyword("UNIQUE"@)]));
            &&& ansi_raw_dialect_view(unreserved, reserved).element("UniqueKeyGrammar"@) == Some(e)
            &&& ansi_library(lib).dom().contains("UniqueKeyGrammar"@)
            &&& ansi_library(lib)["UniqueKeyGrammar"@] == e
        }),
{
    lemma_ansi_library_unique_key_grammar(lib);
    lemma_ansi_library_unique_key_grammar(Map::empty());
}

/// In the ANSI dialect `TemporaryTransientGrammar` is `TRANSIENT` or a
/// `TemporaryGrammar`.
/// The same holds of the ANSI library added to any library.
pub proof fn law_ansi_temporary_transient(unreserved: Seq<char>, reserved: Seq<char>, lib: Map<Seq<char>, ElementView>)
    ensures
        ({
            let e = ElementView::Grammar(GrammarView::one_of(seq![GrammarView::keyword("TRANSIENT"@), GrammarView::reference("TemporaryGrammar"@)]));
            &&& ansi_raw_dialect_view(unreserved, reserved).element("TemporaryTransientGrammar"@) == Some(e)
            &&& ansi_library(lib).dom().contains("TemporaryTransientGrammar"@)
            &&& ansi_library(lib)["TemporaryTransientGrammar"@] == e
        }),
{
    lemma_ansi_library_temporary_transient_grammar(lib);
    lemma_ansi_library_temporary_transient_grammar(Map::empty());
}

/// In the ANSI dialect `IgnoreRespectNullsGrammar` is `IGNORE NULLS` or
/// `RESPECT NULLS`.
/// The same holds of the ANSI library added to any library.
pub proof fn law_ansi_ignore_respect_nulls(unreserved: Seq<char>, reserved: Seq<char>, lib: Map<Seq<char>, ElementView>)
    ensures
        ({
            let e = ElementView::Grammar(GrammarView::sequence(seq![GrammarView::one_of(seq![GrammarView::keyword("IGNORE"@), GrammarView::keyword("RESPECT"@)]), GrammarView::keyword("NULLS"@)]));
            &&& ansi_raw_dialect_view(unreserved, reserved).element("IgnoreRespectNullsGrammar"@) == Some(e)
            &&& ansi_library(lib).dom().contains("IgnoreRespectNullsGrammar"@)
            &&& ansi_library(lib)["IgnoreRespectNullsGrammar"@] == e
        }),
{
    lemma_ansi_library_ignore_respect_nulls_grammar(lib);
    lemma_ansi_library_ignore_respect_nulls_grammar(Map::empty());
}

/// In the ANSI dialect `FrameClauseUnitGrammar` is `ROWS` or `RANGE`.
/// The same holds of the ANSI library added to any library.
pub proof fn law_ansi_frame_clause_unit(unreserved: Seq<char>, reserved: Seq<char>, lib: Map<Seq<char>, ElementView>)
    ensures
        ({
            let e = ElementView::Grammar(GrammarView::one_of(seq![GrammarView::keyword("ROWS"@), GrammarView::keyword("RANGE"@)]));
            &&& ansi_raw_dialect_view(unreserved, reserved).element("FrameClauseUnitGrammar"@) == Some(e)
            &&& ansi_library(lib).dom().contains("FrameClauseUnitGrammar"@)
            &&& ansi_library(lib)["FrameClauseUnitGrammar"@] == e
        }),
{
    lemma_ansi_library_frame_clause_unit_grammar(lib);
    lemma_ansi_library_frame_clause_unit_grammar(Map::empty());
}

/// In the ANSI dialect `DefaultValuesGrammar` is `DEFAULT VALUES`.
/// The same holds of the ANSI library added to any library.
pub proof fn law_ansi_default_values(unreserved: Seq<char>, reserved: Seq<char>, lib: Map<Seq<char>, ElementView>)
    ensures
        ({
            let e = ElementView::Grammar(GrammarView::sequence(seq![GrammarView::keyword("DEFAULT"@), GrammarView::keyword("VALUES"@)]));
            &&& ansi_raw_dialect_view(unreserved, reserved).element("DefaultValuesGrammar"@) == Some(e)
            &&& ansi_library(lib).dom().contains("DefaultValuesGrammar"@)
            &&& ansi_library(lib)["DefaultValuesGrammar"@] == e
        }),
{
    lemma_ansi_library_default_values_grammar(lib);
    lemma_ansi_library_default_values_grammar(Map::empty());
}

/// In the ANSI dialect `MergeDeleteClauseSegment` is a `merge_delete_clause`
/// node: the keyword `DELETE` alone.
/// The same holds of the ANSI library added to any library.
pub proof fn law_ansi_merge_delete_clause(unreserved: Seq<char>, reserved: Seq<char>, lib: Map<Seq<char>, ElementView>)
    ensures
        ({
            let e = (ElementView::Node { kind: "merge_delete_clause"@, grammar: GrammarView::keyword("DELETE"@) });
            &&& ansi_raw_dialect_view(unreserved, reserved).element("MergeDeleteClauseSegment"@) == Some(e)
            &&& ansi_library(lib).dom().contains("MergeDeleteClauseSegment"@)
            &&& ansi_library(lib)["MergeDeleteClauseSegment"@] == e
        }),
{
    lemma_ansi_library_merge_delete_clause_segment(lib);
    lemma_ansi_library_merge_delete_clause_segment(Map::empty());
}

/// In the ANSI dialect `CommentClauseSegment` is a `comment_clause` node:
/// `COMMENT` and a quoted literal.
/// The same holds of the ANSI library added to any library.
pub proof fn law_ansi_comment_clause(unreserved: Seq<char>, reserved: Seq<char>, lib: Map<Seq<char>, ElementView>)
    ensures
        ({
            let e = (ElementView::Node { kind: "comment_clause"@, grammar: GrammarView::sequence(seq![GrammarView::keyword("COMMENT"@), GrammarView::reference("QuotedLiteralSegment"@)]) });
            &&& ansi_raw_dialect_view(unreserved, reserved).element("CommentClauseSegment"@) == Some(e)
            &&& ansi_library(lib).dom().contains("CommentClauseSegment"@)
            &&& ansi_library(lib)["CommentClauseSegment"@] == e
        }),
{
    lemma_ansi_library_comment_clause_segment(lib);
    lemma_ansi_library_comment_clause_segment(Map::empty());
}

} // verus!
