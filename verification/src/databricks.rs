//! The Databricks dialect, built on the Spark SQL dialect: its keywords,
//! date-part functions, lexer rule and grammar changes.

use crate::databricks_grammar::{apply_databricks_grammar_changes, databricks_grammar_changes};
use crate::dialect::{DialectModel, DialectName, DialectView, expanded};
use crate::lexer_rules::{inserted, rule_names, rules_view, LexRule, LexRuleView, TokenKind};
use crate::sets::{texts, WordSet};
use vstd::prelude::*;

verus! {

/// Databricks' unreserved keywords: the Spark SQL keywords, reserved or not,
/// and Databricks' own unreserved ones, less Databricks' reserved ones.
pub open spec fn databricks_unreserved(
    unreserved: Set<Seq<char>>,
    reserved: Set<Seq<char>>,
    own_unreserved: Set<Seq<char>>,
    own_reserved: Set<Seq<char>>,
) -> Set<Seq<char>> {
    unreserved.union(own_unreserved).union(reserved).difference(own_reserved)
}

/// Databricks' keywords, from the Spark SQL ones (`unreserved`, `reserved`)
/// and Databricks' own lists: every Spark SQL keyword and every keyword of
/// Databricks' own unreserved list is unreserved unless Databricks reserves
/// it, and exactly Databricks' own reserved list is reserved.
pub fn keyword_sets(
    unreserved: &mut WordSet,
    reserved: &mut WordSet,
    own_unreserved: &[&'static str],
    own_reserved: &[&'static str],
)
    ensures
        final(unreserved)@ == databricks_unreserved(
            old(unreserved)@,
            old(reserved)@,
            texts(own_unreserved@).to_set(),
            texts(own_reserved@).to_set(),
        ),
        final(reserved)@ == texts(own_reserved@).to_set(),
{
    unreserved.extend(own_unreserved);
    let spark_reserved = reserved.words();
    unreserved.extend(spark_reserved.as_slice());
    unreserved.retain_absent(own_reserved);
    reserved.clear();
    reserved.extend(own_reserved);
    assert(reserved@ =~= texts(own_reserved@).to_set());
}

/// No Databricks keyword is both reserved and unreserved, and no keyword is
/// lost: each Spark SQL keyword and each keyword of Databricks' own lists is
/// reserved or unreserved.
pub proof fn law_databricks_keywords(
    unreserved: Set<Seq<char>>,
    reserved: Set<Seq<char>>,
    own_unreserved: Set<Seq<char>>,
    own_reserved: Set<Seq<char>>,
)
    ensures
        ({
            let new_unreserved = databricks_unreserved(unreserved, reserved, own_unreserved, own_reserved);
            let new_reserved = own_reserved;
            &&& new_unreserved.disjoint(new_reserved)
            &&& unreserved.union(reserved).union(own_unreserved).union(own_reserved) == new_unreserved.union(
                new_reserved,
            )
        }),
{
    let new_unreserved = databricks_unreserved(unreserved, reserved, own_unreserved, own_reserved);
    assert(unreserved.union(reserved).union(own_unreserved).union(own_reserved) =~= new_unreserved.union(own_reserved));
}


/// The Databricks dialect before expansion, built on the Spark SQL dialect
/// `spark`: the Databricks name, its keyword sets (see
/// [`databricks_unreserved`]), `TIMEDIFF` as a date-part function, the lexer
/// rule for `=>` in front of `equals`, and its grammar changes.
pub open spec fn databricks_raw_dialect_view(
    spark: DialectView,
    own_unreserved: Set<Seq<char>>,
    own_reserved: Set<Seq<char>>,
) -> DialectView {
    let d = DialectView { name: DialectName::Databricks, ..spark };
    let d = d.with_set(
        "unreserved_keywords"@,
        databricks_unreserved(spark.set("unreserved_keywords"@), spark.set("reserved_keywords"@), own_unreserved, own_reserved),
    );
    let d = d.with_set("reserved_keywords"@, own_reserved);
    let d = d.with_set("date_part_function_name"@, d.set("date_part_function_name"@).insert("TIMEDIFF"@));
    let d = d.with_lexer(
        inserted(spark.lexer, seq![LexRuleView::literal("right_arrow"@, "=>"@, TokenKind::RightArrow)], "equals"@),
    );
    databricks_grammar_changes(d)
}

/// The Databricks dialect before expansion, from the Spark SQL dialect (whose
/// lexer must hold a rule named `equals`, as sqruff's insertion asserts); see
/// [`databricks_raw_dialect_view`].
pub fn databricks_raw_dialect(spark: DialectModel, own_unreserved: &[&'static str], own_reserved: &[&'static str]) -> (d: DialectModel)
    requires
        spark@.lexer.len() > 0,
        rule_names(spark@.lexer).contains("equals"@),
    ensures
        d@ == databricks_raw_dialect_view(spark@, texts(own_unreserved@).to_set(), texts(own_reserved@).to_set()),
{
    let mut d = spark;
    d.name = DialectName::Databricks;
    let mut unreserved = d.set("unreserved_keywords");
    let mut reserved = d.set("reserved_keywords");
    keyword_sets(&mut unreserved, &mut reserved, own_unreserved, own_reserved);
    d.put_set("unreserved_keywords", unreserved);
    d.put_set("reserved_keywords", reserved);
    let mut parts = d.set("date_part_function_name");
    parts.insert("TIMEDIFF");
    d.put_set("date_part_function_name", parts);
    let right_arrow = LexRule::literal("right_arrow", "=>", TokenKind::RightArrow);
    let patch = vec![right_arrow];
    assert(rules_view(patch@) =~= seq![LexRuleView::literal("right_arrow"@, "=>"@, TokenKind::RightArrow)]);
    d.insert_lexer_rules(patch, "equals");
    apply_databricks_grammar_changes(&mut d);
    d
}

/// The Databricks dialect, expanded.
pub fn databricks_dialect(spark: DialectModel, own_unreserved: &[&'static str], own_reserved: &[&'static str]) -> (d: DialectModel)
    requires
        spark@.lexer.len() > 0,
        rule_names(spark@.lexer).contains("equals"@),
    ensures
        d@ == expanded(databricks_raw_dialect_view(spark@, texts(own_unreserved@).to_set(), texts(own_reserved@).to_set())),
{
    let mut d = databricks_raw_dialect(spark, own_unreserved, own_reserved);
    d.expand();
    d
}


/// The Databricks grammar changes touch the library alone: the name, the word
/// sets, the bracket sets and the lexer rules stay as they were.
pub proof fn law_databricks_grammar_changes_touch_library_only(d: DialectView)
    ensures
        databricks_grammar_changes(d).name == d.name,
        databricks_grammar_changes(d).sets == d.sets,
        databricks_grammar_changes(d).bracket_sets == d.bracket_sets,
        databricks_grammar_changes(d).lexer == d.lexer,
{
    reveal(databricks_grammar_changes);
}

/// The Databricks dialect has the Databricks name and exactly Databricks' own
/// reserved keywords; its unreserved keywords are the Spark SQL keywords
/// (reserved or not) and Databricks' own unreserved ones, less its reserved
/// ones, so that no keyword is both; and `TIMEDIFF` takes a date part.
pub proof fn law_databricks_dialect_sets(spark: DialectView, own_unreserved: Set<Seq<char>>, own_reserved: Set<Seq<char>>)
    ensures
        ({
            let d = databricks_raw_dialect_view(spark, own_unreserved, own_reserved);
            let unreserved = spark.set("unreserved_keywords"@).union(own_unreserved).union(spark.set("reserved_keywords"@))
                .difference(own_reserved);
            &&& d.name == DialectName::Databricks
            &&& d.set("reserved_keywords"@) == own_reserved
            &&& d.set("unreserved_keywords"@) == unreserved
            &&& d.set("unreserved_keywords"@).disjoint(d.set("reserved_keywords"@))
            &&& d.set("date_part_function_name"@).contains("TIMEDIFF"@)
            &&& d.set("date_part_function_name"@) == spark.set("date_part_function_name"@).insert("TIMEDIFF"@)
        }),
{
    reveal_strlit("unreserved_keywords");
    reveal_strlit("reserved_keywords");
    reveal_strlit("date_part_function_name");
    assert("unreserved_keywords"@[0] != "reserved_keywords"@[0]);
    assert("date_part_function_name"@[0] != "reserved_keywords"@[0]);
    assert("date_part_function_name"@[0] != "unreserved_keywords"@[0]);
    let before = DialectView { name: DialectName::Databricks, ..spark };
    let d0 = before.with_set(
        "unreserved_keywords"@,
        databricks_unreserved(spark.set("unreserved_keywords"@), spark.set("reserved_keywords"@), own_unreserved, own_reserved),
    );
    let d1 = d0.with_set("reserved_keywords"@, own_reserved);
    let d2 = d1.with_set("date_part_function_name"@, d1.set("date_part_function_name"@).insert("TIMEDIFF"@));
    let d3 = d2.with_lexer(
        inserted(spark.lexer, seq![LexRuleView::literal("right_arrow"@, "=>"@, TokenKind::RightArrow)], "equals"@),
    );
    law_databricks_grammar_changes_touch_library_only(d3);
    law_databricks_keywords(spark.set("unreserved_keywords"@), spark.set("reserved_keywords"@), own_unreserved, own_reserved);
    assert(d1.set("date_part_function_name"@) == spark.set("date_part_function_name"@));
}

} // verus!
