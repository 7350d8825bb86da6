//! What the DB2 dialect changes in the grammars that it takes over from ANSI.

use crate::ansi::{
    from_clause_terminator_grammar, from_clause_terminator_grammar_alternatives,
    group_by_clause_terminator_grammar, group_by_clause_terminator_grammar_alternatives,
    having_clause_terminator_grammar, having_clause_terminator_grammar_alternatives,
    order_by_clause_terminators, order_by_clause_terminators_alternatives, where_clause_terminator_grammar,
    where_clause_terminator_grammar_alternatives,
};
use crate::grammar::{views, Grammar, GrammarView};
use crate::sets::{texts, WordSet};
use vstd::prelude::*;

verus! {

/// The DB2 copy of an ANSI clause terminator: `OFFSET` added as the last
/// alternative, the terminators kept.
pub open spec fn with_offset(g: GrammarView) -> GrammarView {
    g.copied(Some(seq![GrammarView::keyword("OFFSET"@)]), None, None, None, Seq::empty(), false)
}

/// The ANSI clause terminators, by name, in the order in which DB2 replaces
/// them.
pub open spec fn ansi_clause_terminators() -> Seq<(Seq<char>, GrammarView)> {
    seq![
        ("FromClauseTerminatorGrammar"@, GrammarView::one_of(from_clause_terminator_grammar_alternatives())),
        ("WhereClauseTerminatorGrammar"@, GrammarView::one_of(where_clause_terminator_grammar_alternatives())),
        ("GroupByClauseTerminatorGrammar"@, GrammarView::one_of(group_by_clause_terminator_grammar_alternatives())),
        ("HavingClauseTerminatorGrammar"@, GrammarView::one_of(having_clause_terminator_grammar_alternatives())),
        ("OrderByClauseTerminators"@, GrammarView::one_of(order_by_clause_terminators_alternatives())),
    ]
}

/// The grammars that DB2 puts in place of the ANSI clause terminators, by
/// name: each ANSI one, copied with `OFFSET` added (DB2 ends these clauses at
/// `OFFSET` too).
pub fn clause_terminators() -> (ts: Vec<(&'static str, Grammar)>)
    ensures
        ts@.len() == ansi_clause_terminators().len(),
        forall|i: int|
            0 <= i < ts@.len() ==> (#[trigger] ts@[i]).0@ == ansi_clause_terminators()[i].0 && ts@[i].1@
                == with_offset(ansi_clause_terminators()[i].1),
{
    let mut ts: Vec<(&'static str, Grammar)> = Vec::new();
    let ghost expected = ansi_clause_terminators();

    let g = from_clause_terminator_grammar();
    let offset = vec![Grammar::keyword("OFFSET")];
    assert(views(offset@) =~= seq![GrammarView::keyword("OFFSET"@)]);
    let none: Vec<Grammar> = Vec::new();
    assert(views(none@) =~= Seq::<GrammarView>::empty());
    ts.push(("FromClauseTerminatorGrammar", g.copy(Some(offset), None, None, None, none, false)));

    let g = where_clause_terminator_grammar();
    let offset = vec![Grammar::keyword("OFFSET")];
    assert(views(offset@) =~= seq![GrammarView::keyword("OFFSET"@)]);
    let none: Vec<Grammar> = Vec::new();
    assert(views(none@) =~= Seq::<GrammarView>::empty());
    ts.push(("WhereClauseTerminatorGrammar", g.copy(Some(offset), None, None, None, none, false)));

    let g = group_by_clause_terminator_grammar();
    let offset = vec![Grammar::keyword("OFFSET")];
    assert(views(offset@) =~= seq![GrammarView::keyword("OFFSET"@)]);
    let none: Vec<Grammar> = Vec::new();
    assert(views(none@) =~= Seq::<GrammarView>::empty());
    ts.push(("GroupByClauseTerminatorGrammar", g.copy(Some(offset), None, None, None, none, false)));

    let g = having_clause_terminator_grammar();
    let offset = vec![Grammar::keyword("OFFSET")];
    assert(views(offset@) =~= seq![GrammarView::keyword("OFFSET"@)]);
    let none: Vec<Grammar> = Vec::new();
    assert(views(none@) =~= Seq::<GrammarView>::empty());
    ts.push(("HavingClauseTerminatorGrammar", g.copy(Some(offset), None, None, None, none, false)));

    let g = order_by_clause_terminators();
    let offset = vec![Grammar::keyword("OFFSET")];
    assert(views(offset@) =~= seq![GrammarView::keyword("OFFSET"@)]);
    let none: Vec<Grammar> = Vec::new();
    assert(views(none@) =~= Seq::<GrammarView>::empty());
    ts.push(("OrderByClauseTerminators", g.copy(Some(offset), None, None, None, none, false)));

    ts
}

/// Each DB2 clause terminator is the ANSI one with `OFFSET` as one more,
/// last, alternative: every ANSI alternative is kept, in order, and it still
/// has no terminators of its own.
pub proof fn law_db2_terminators_add_offset()
    ensures
        forall|i: int|
            0 <= i < ansi_clause_terminators().len() ==> {
                let ansi = #[trigger] ansi_clause_terminators()[i].1;
                let db2 = with_offset(ansi);
                &&& db2 is OneOf
                &&& db2.elements() == ansi.elements().push(GrammarView::keyword("OFFSET"@))
                &&& db2->OneOf_terminators == Seq::<GrammarView>::empty()
            },
{
    assert forall|i: int| 0 <= i < ansi_clause_terminators().len() implies {
        let ansi = #[trigger] ansi_clause_terminators()[i].1;
        let db2 = with_offset(ansi);
        &&& db2 is OneOf
        &&& db2.elements() == ansi.elements().push(GrammarView::keyword("OFFSET"@))
        &&& db2->OneOf_terminators == Seq::<GrammarView>::empty()
    } by {
        let ansi = ansi_clause_terminators()[i].1;
        assert(ansi.elements() + seq![GrammarView::keyword("OFFSET"@)] =~= ansi.elements().push(
            GrammarView::keyword("OFFSET"@),
        ));
        assert(Seq::<GrammarView>::empty() + Seq::<GrammarView>::empty() =~= Seq::<GrammarView>::empty());
    }
}

/// DB2's keywords, from the ANSI ones: `NATURAL` is no longer reserved, and
/// DB2's own unreserved keywords join the unreserved ones.
pub fn keyword_sets(reserved: &mut WordSet, unreserved: &mut WordSet, db2_unreserved: &[&'static str])
    ensures
        final(reserved)@ == old(reserved)@.remove("NATURAL"@),
        final(unreserved)@ == old(unreserved)@.union(texts(db2_unreserved@).to_set()),
{
    reserved.remove("NATURAL");
    unreserved.extend(db2_unreserved);
}

} // verus!
