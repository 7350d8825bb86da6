//! The lexer rules of the dialects that derive theirs from the ANSI rules:
//! each inserts rules of its own in front of an ANSI rule, and some replace
//! ANSI rules by rules of the same name.

use crate::ansi::{ansi_lexer_table, ansi_rule_position, lemma_ansi_rule_positions, lexer_matchers};
use crate::lexer_rules::{
    inserted, insert_lexer_rules, law_insert_in_front, law_insert_keeps_names_distinct, law_patch_keeps_names,
    names_distinct, patch_lexer_rules, patched, rule_names, rules_view, LexRule, LexRuleView, StartTest, TokenKind,
};
use vstd::prelude::*;

verus! {

/// The rules that DB2 adds: `=>`, in front of `equals`.
pub open spec fn db2_added_rules() -> Seq<LexRuleView> {
    seq![LexRuleView::literal("right_arrow"@, "=>"@, TokenKind::RightArrow)]
}

/// The rules that DB2 replaces: inline comments start with `--` only (`#`
/// belongs to names), and words may hold `#`.
pub open spec fn db2_replaced_rules() -> Seq<LexRuleView> {
    seq![
        LexRuleView::regex("inline_comment"@, r"(--)[^\n]*"@, TokenKind::InlineComment),
        LexRuleView::regex("word"@, r"[0-9a-zA-Z_#]+"@, TokenKind::Word),
    ]
}

/// The DB2 lexer rules: the ANSI rules with [`db2_added_rules`] in front of
/// `equals`, then patched with [`db2_replaced_rules`].
pub fn db2_lexer_matchers() -> (rules: Vec<LexRule>)
    ensures
        rules_view(rules@) == patched(
            inserted(ansi_lexer_table(), db2_added_rules(), "equals"@),
            db2_replaced_rules(),
        ),
{
    let mut rules = lexer_matchers();
    proof {
        lemma_ansi_rule_positions();
        reveal_strlit("equals");
        assert(ansi_lexer_table()[11].name() == "equals"@);
        assert(rule_names(ansi_lexer_table())[11] == "equals"@);
    }
    let added = vec![LexRule::literal("right_arrow", "=>", TokenKind::RightArrow)];
    assert(rules_view(added@) =~= db2_added_rules());
    insert_lexer_rules(&mut rules, added, "equals");
    let replaced = vec![
        LexRule::regex("inline_comment", r"(--)[^\n]*", TokenKind::InlineComment),
        LexRule::regex("word", r"[0-9a-zA-Z_#]+", TokenKind::Word),
    ];
    assert(rules_view(replaced@) =~= db2_replaced_rules());
    patch_lexer_rules(&mut rules, replaced);
    rules
}

/// The rules that BigQuery adds in front of `equals`: `=>`, `?` and
/// `@name` literals.
pub open spec fn bigquery_added_rules() -> Seq<LexRuleView> {
    seq![
        LexRuleView::literal("right_arrow"@, "=>"@, TokenKind::RightArrow),
        LexRuleView::literal("question_mark"@, "?"@, TokenKind::QuestionMark),
        LexRuleView::regex("at_sign_literal"@, r"@[a-zA-Z_][\w]*"@, TokenKind::AtSignLiteral),
    ]
}

/// The rules that BigQuery replaces: quoted strings may carry the raw and
/// bytes prefixes and be triple-quoted.
pub open spec fn bigquery_replaced_rules() -> Seq<LexRuleView> {
    seq![
        LexRuleView::legacy(
            "single_quote"@,
            StartTest::QuoteOrStringPrefix,
            r"([rR]?[bB]?|[bB]?[rR]?)?('''((?<!\\)(\\{2})*\\'|'{,2}(?!')|[^'])*(?<!\\)(\\{2})*'''|'((?<!\\)(\\{2})*\\'|[^'])*(?<!\\)(\\{2})*')"@,
            TokenKind::SingleQuote,
        ),
        LexRuleView::legacy(
            "double_quote"@,
            StartTest::DoubleQuoteOrStringPrefix,
            r#"([rR]?[bB]?|[bB]?[rR]?)?(\"\"\"((?<!\\)(\\{2})*\\\"|\"{,2}(?!\")|[^\"])*(?<!\\)(\\{2})*\"\"\"|"((?<!\\)(\\{2})*\\"|[^"])*(?<!\\)(\\{2})*")"#@,
            TokenKind::DoubleQuote,
        ),
    ]
}

/// The BigQuery lexer rules: the ANSI rules with [`bigquery_added_rules`] in
/// front of `equals`, then patched with [`bigquery_replaced_rules`].
pub fn bigquery_lexer_matchers() -> (rules: Vec<LexRule>)
    ensures
        rules_view(rules@) == patched(
            inserted(ansi_lexer_table(), bigquery_added_rules(), "equals"@),
            bigquery_replaced_rules(),
        ),
{
    let mut rules = lexer_matchers();
    proof {
        lemma_ansi_rule_positions();
        reveal_strlit("equals");
        assert(rule_names(ansi_lexer_table())[11] == "equals"@);
    }
    let added = vec![
        LexRule::literal("right_arrow", "=>", TokenKind::RightArrow),
        LexRule::literal("question_mark", "?", TokenKind::QuestionMark),
        LexRule::regex("at_sign_literal", r"@[a-zA-Z_][\w]*", TokenKind::AtSignLiteral),
    ];
    assert(rules_view(added@) =~= bigquery_added_rules());
    insert_lexer_rules(&mut rules, added, "equals");
    let replaced = vec![
        LexRule::legacy(
            "single_quote",
            StartTest::QuoteOrStringPrefix,
            r"([rR]?[bB]?|[bB]?[rR]?)?('''((?<!\\)(\\{2})*\\'|'{,2}(?!')|[^'])*(?<!\\)(\\{2})*'''|'((?<!\\)(\\{2})*\\'|[^'])*(?<!\\)(\\{2})*')",
            TokenKind::SingleQuote,
        ),
        LexRule::legacy(
            "double_quote",
            StartTest::DoubleQuoteOrStringPrefix,
            r#"([rR]?[bB]?|[bB]?[rR]?)?(\"\"\"((?<!\\)(\\{2})*\\\"|\"{,2}(?!\")|[^\"])*(?<!\\)(\\{2})*\"\"\"|"((?<!\\)(\\{2})*\\"|[^"])*(?<!\\)(\\{2})*")"#,
            TokenKind::DoubleQuote,
        ),
    ];
    assert(rules_view(replaced@) =~= bigquery_replaced_rules());
    patch_lexer_rules(&mut rules, replaced);
    rules
}

/// The rule that ClickHouse adds: the lambda arrow `->`, in front of
/// `newline`.
pub open spec fn clickhouse_added_rules() -> Seq<LexRuleView> {
    seq![LexRuleView::literal("lambda"@, "->"@, TokenKind::Lambda)]
}

/// The ClickHouse lexer rules: the ANSI rules with [`clickhouse_added_rules`]
/// in front of `newline`.
pub fn clickhouse_lexer_matchers() -> (rules: Vec<LexRule>)
    ensures
        rules_view(rules@) == inserted(ansi_lexer_table(), clickhouse_added_rules(), "newline"@),
{
    let mut rules = lexer_matchers();
    proof {
        lemma_ansi_rule_positions();
        reveal_strlit("newline");
        assert(rule_names(ansi_lexer_table())[9] == "newline"@);
    }
    let added = vec![LexRule::literal("lambda", "->", TokenKind::Lambda)];
    assert(rules_view(added@) =~= clickhouse_added_rules());
    insert_lexer_rules(&mut rules, added, "newline");
    rules
}

/// The rule that Athena adds: the array arrow `->`, in front of
/// `like_operator`.
pub open spec fn athena_added_rules() -> Seq<LexRuleView> {
    seq![LexRuleView::literal("right_arrow"@, "->"@, TokenKind::RightArrow)]
}

/// The Athena lexer rules: the ANSI rules with [`athena_added_rules`] in front
/// of `like_operator`.
pub fn athena_lexer_matchers() -> (rules: Vec<LexRule>)
    ensures
        rules_view(rules@) == inserted(ansi_lexer_table(), athena_added_rules(), "like_operator"@),
{
    let mut rules = lexer_matchers();
    proof {
        lemma_ansi_rule_positions();
        reveal_strlit("like_operator");
        assert(rule_names(ansi_lexer_table())[8] == "like_operator"@);
    }
    let added = vec![LexRule::literal("right_arrow", "->", TokenKind::RightArrow)];
    assert(rules_view(added@) =~= athena_added_rules());
    insert_lexer_rules(&mut rules, added, "like_operator");
    rules
}

/// A name that none of the ANSI lexer rules has.
proof fn lemma_new_name(name: Seq<char>)
    requires
        ansi_rule_position(name) == -1,
    ensures
        forall|i: int| 0 <= i < ansi_lexer_table().len() ==> #[trigger] ansi_lexer_table()[i].name() != name,
{
    lemma_ansi_rule_positions();
}

/// What a dialect's rules look like when it inserts `added` in front of the
/// ANSI rule at position `k` and then patches with `replaced`: the names are
/// those of the ANSI rules with the names of `added` in front of position
/// `k`, and they are distinct.
proof fn lemma_derived_table(added: Seq<LexRuleView>, replaced: Seq<LexRuleView>, k: int)
    requires
        0 <= k < ansi_lexer_table().len(),
        names_distinct(added),
        forall|i: int, j: int| 0 <= i < ansi_lexer_table().len() && 0 <= j < added.len() ==> #[trigger] ansi_lexer_table()[i].name()
            != #[trigger] added[j].name(),
    ensures
        ({
            let t = patched(inserted(ansi_lexer_table(), added, ansi_lexer_table()[k].name()), replaced);
            &&& names_distinct(t)
            &&& rule_names(t) == rule_names(ansi_lexer_table()).take(k) + rule_names(added) + rule_names(
                ansi_lexer_table(),
            ).skip(k)
        }),
{
    let a = ansi_lexer_table();
    let before = a[k].name();
    crate::ansi::law_ansi_lexer_names_distinct();
    law_insert_in_front(a, added, before, k);
    law_insert_keeps_names_distinct(a, added, before, k);
    let ins = inserted(a, added, before);
    law_patch_keeps_names(ins, replaced);
    assert(rule_names(ins) =~= rule_names(a).take(k) + rule_names(added) + rule_names(a).skip(k));
}

/// The DB2 lexer rules have distinct names: the ANSI names with
/// `right_arrow` in front of `equals`.
pub proof fn law_db2_lexer_names()
    ensures
        ({
            let t = patched(inserted(ansi_lexer_table(), db2_added_rules(), "equals"@), db2_replaced_rules());
            &&& names_distinct(t)
            &&& rule_names(t) == rule_names(ansi_lexer_table()).take(11) + seq!["right_arrow"@]
                + rule_names(ansi_lexer_table()).skip(11)
        }),
{
    reveal_strlit("right_arrow");
    reveal_strlit("equals");
    lemma_ansi_rule_positions();
    lemma_new_name("right_arrow"@);
    assert(ansi_lexer_table()[11].name() == "equals"@);
    lemma_derived_table(db2_added_rules(), db2_replaced_rules(), 11);
    assert(rule_names(db2_added_rules()) =~= seq!["right_arrow"@]);
}

/// The BigQuery lexer rules have distinct names: the ANSI names with
/// `right_arrow`, `question_mark` and `at_sign_literal` in front of `equals`.
pub proof fn law_bigquery_lexer_names()
    ensures
        ({
            let t = patched(
                inserted(ansi_lexer_table(), bigquery_added_rules(), "equals"@),
                bigquery_replaced_rules(),
            );
            &&& names_distinct(t)
            &&& rule_names(t) == rule_names(ansi_lexer_table()).take(11) + seq![
                "right_arrow"@,
                "question_mark"@,
                "at_sign_literal"@,
            ] + rule_names(ansi_lexer_table()).skip(11)
        }),
{
    reveal_strlit("right_arrow");
    reveal_strlit("question_mark");
    reveal_strlit("at_sign_literal");
    reveal_strlit("equals");
    lemma_ansi_rule_positions();
    lemma_new_name("right_arrow"@);
    lemma_new_name("question_mark"@);
    lemma_new_name("at_sign_literal"@);
    let added = bigquery_added_rules();
    assert(names_distinct(added)) by {
        assert forall|i: int, j: int| 0 <= i < added.len() && 0 <= j < added.len() && i != j implies #[trigger] added[i].name()
            != #[trigger] added[j].name() by {
            assert(added[i].name().len() != added[j].name().len());
        }
    }
    assert(ansi_lexer_table()[11].name() == "equals"@);
    lemma_derived_table(added, bigquery_replaced_rules(), 11);
    assert(rule_names(added) =~= seq!["right_arrow"@, "question_mark"@, "at_sign_literal"@]);
}

/// The ClickHouse lexer rules have distinct names: the ANSI names with
/// `lambda` in front of `newline`.
pub proof fn law_clickhouse_lexer_names()
    ensures
        ({
            let t = inserted(ansi_lexer_table(), clickhouse_added_rules(), "newline"@);
            &&& names_distinct(t)
            &&& rule_names(t) == rule_names(ansi_lexer_table()).take(9) + seq!["lambda"@]
                + rule_names(ansi_lexer_table()).skip(9)
        }),
{
    reveal_strlit("lambda");
    reveal_strlit("newline");
    lemma_ansi_rule_positions();
    lemma_new_name("lambda"@);
    assert(ansi_lexer_table()[9].name() == "newline"@);
    let t = inserted(ansi_lexer_table(), clickhouse_added_rules(), "newline"@);
    lemma_derived_table(clickhouse_added_rules(), Seq::empty(), 9);
    assert(patched(t, Seq::empty()) =~= t);
    assert(rule_names(clickhouse_added_rules()) =~= seq!["lambda"@]);
}

/// The Athena lexer rules have distinct names: the ANSI names with
/// `right_arrow` in front of `like_operator`.
pub proof fn law_athena_lexer_names()
    ensures
        ({
            let t = inserted(ansi_lexer_table(), athena_added_rules(), "like_operator"@);
            &&& names_distinct(t)
            &&& rule_names(t) == rule_names(ansi_lexer_table()).take(8) + seq!["right_arrow"@]
                + rule_names(ansi_lexer_table()).skip(8)
        }),
{
    reveal_strlit("right_arrow");
    reveal_strlit("like_operator");
    lemma_ansi_rule_positions();
    lemma_new_name("right_arrow"@);
    assert(ansi_lexer_table()[8].name() == "like_operator"@);
    let t = inserted(ansi_lexer_table(), athena_added_rules(), "like_operator"@);
    lemma_derived_table(athena_added_rules(), Seq::empty(), 8);
    assert(patched(t, Seq::empty()) =~= t);
    assert(rule_names(athena_added_rules()) =~= seq!["right_arrow"@]);
}

} // verus!
