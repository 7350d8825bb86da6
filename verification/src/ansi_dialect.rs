//! The ANSI dialect assembled: its word sets, keywords, brackets, lexer rules
//! and library, before and after expansion.

use crate::ansi::{bare_functions, bracket_pairs, date_part_function_names, datetime_unit_names, datetime_units, lexer_matchers, ansi_lexer_table};
use crate::ansi_library::{add_ansi_library, ansi_library};
use crate::dialect::{BracketPairView, DialectModel, DialectName, DialectView, ElementView, expanded, pair_set};
use crate::keywords::{keyword_list, text_lines};
use crate::sets::WordSet;
use vstd::prelude::*;

verus! {

/// The ANSI brackets: round ones (kept between passes), square and curly ones.
pub open spec fn ansi_bracket_pairs() -> Set<BracketPairView> {
    set![
        ("round"@, "StartBracketSegment"@, "EndBracketSegment"@, true),
        ("square"@, "StartSquareBracketSegment"@, "EndSquareBracketSegment"@, false),
        ("curly"@, "StartCurlyBracketSegment"@, "EndCurlyBracketSegment"@, false),
    ]
}

/// The ANSI word sets, with the keywords of the two keyword lists (one
/// keyword per line).
pub open spec fn ansi_sets(unreserved: Seq<char>, reserved: Seq<char>) -> Map<Seq<char>, Set<Seq<char>>> {
    Map::empty()
        .insert("bare_functions"@, set!["current_timestamp"@, "current_time"@, "current_date"@])
        .insert("datetime_units"@, datetime_unit_names().to_set())
        .insert("date_part_function_name"@, set!["DATEADD"@])
        .insert("unreserved_keywords"@, keyword_list(text_lines(unreserved)).to_set())
        .insert("reserved_keywords"@, keyword_list(text_lines(reserved)).to_set())
        .insert("value_table_functions"@, Set::empty())
}

/// The set of the keywords of a list of keywords, one per line.
pub fn keyword_set(text: &'static str) -> (s: WordSet)
    ensures
        s@ == keyword_list(text_lines(text@)).to_set(),
{
    let ws = crate::keywords::keyword_lines(text);
    WordSet::from_words(ws.as_slice())
}

/// The ANSI dialect before expansion, for the given lists of unreserved and
/// reserved keywords.
pub open spec fn ansi_raw_dialect_view(unreserved: Seq<char>, reserved: Seq<char>) -> DialectView {
    DialectView {
        name: DialectName::Ansi,
        sets: ansi_sets(unreserved, reserved),
        bracket_sets: Map::empty().insert("bracket_pairs"@, ansi_bracket_pairs()),
        lexer: ansi_lexer_table(),
        library: ansi_library(Map::empty()),
    }
}

/// The ANSI dialect before expansion: its lexer rules, its word sets (with
/// the keywords of the two lists, one keyword per line), its brackets and its
/// library.
pub fn ansi_raw_dialect(unreserved_keywords: &'static str, reserved_keywords: &'static str) -> (d: DialectModel)
    ensures
        d@ == ansi_raw_dialect_view(unreserved_keywords@, reserved_keywords@),
{
    let mut d = DialectModel::new(DialectName::Ansi);
    d.set_lexer(lexer_matchers());
    d.put_set("bare_functions", bare_functions());
    d.put_set("datetime_units", datetime_units());
    d.put_set("date_part_function_name", date_part_function_names());
    d.put_set("unreserved_keywords", keyword_set(unreserved_keywords));
    d.put_set("reserved_keywords", keyword_set(reserved_keywords));
    let pairs = bracket_pairs();
    d.add_bracket_pairs("bracket_pairs", &pairs);
    d.put_set("value_table_functions", WordSet::new());
    add_ansi_library(&mut d);
    proof {
        let f = |p: (&'static str, &'static str, &'static str, bool)| crate::dialect::pair_view(p);
        assert(pairs@.map_values(f) =~= seq![
            ("round"@, "StartBracketSegment"@, "EndBracketSegment"@, true),
            ("square"@, "StartSquareBracketSegment"@, "EndSquareBracketSegment"@, false),
            ("curly"@, "StartCurlyBracketSegment"@, "EndCurlyBracketSegment"@, false),
        ]);
        let s = pairs@.map_values(f);
        assert(pair_set(pairs@) =~= ansi_bracket_pairs()) by {
            assert forall|x: BracketPairView| s.to_set().contains(x) <==> ansi_bracket_pairs().contains(x) by {
                if s.contains(x) {
                    let i = choose|i: int| 0 <= i < s.len() && s[i] == x;
                    assert(i == 0 || i == 1 || i == 2);
                }
                if ansi_bracket_pairs().contains(x) {
                    assert(s[0] == x || s[1] == x || s[2] == x);
                }
            }
        }
        assert(Set::<BracketPairView>::empty().union(ansi_bracket_pairs()) =~= ansi_bracket_pairs());
        assert(d@.sets =~= ansi_sets(unreserved_keywords@, reserved_keywords@));
        assert(d@.bracket_sets =~= Map::empty().insert("bracket_pairs"@, ansi_bracket_pairs()));
    }
    d
}

/// The ANSI dialect, expanded: every generator replaced by what it gives, and
/// a parser for each keyword that names no element.
pub fn ansi_dialect(unreserved_keywords: &'static str, reserved_keywords: &'static str) -> (d: DialectModel)
    ensures
        d@ == expanded(ansi_raw_dialect_view(unreserved_keywords@, reserved_keywords@)),
{
    let mut d = ansi_raw_dialect(unreserved_keywords, reserved_keywords);
    d.expand();
    d
}

} // verus!
