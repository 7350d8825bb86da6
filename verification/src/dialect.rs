//! A dialect as plain values: its name, its named word sets and bracket sets,
//! its lexer rules, and its library of named grammar elements. Each table is
//! kept as a list of named entries in which a later entry replaces an
//! earlier one of the same name, so that it reads as a map; the dialects
//! build their tables with the operations below, and `sqruff_lib_core`
//! receives the result.

use crate::ansi::BracketPair;
use crate::grammar::{Grammar, GrammarView, word_set};
use crate::lexer_rules::{
    LexRule, LexRuleView, insert_lexer_rules, inserted, patch_lexer_rules, patched, rule_names, rules_view,
};
use crate::keywords::{keyword_lines, keyword_list, text_lines};
use crate::sets::{WordSet, texts};
use crate::text::same_text;
use vstd::prelude::*;

verus! {

/// The dialects of this library.
#[derive(Clone, Copy, Debug, PartialEq, Eq, Structural)]
pub enum DialectName {
    Ansi,
    Athena,
    Bigquery,
    Clickhouse,
    Databricks,
    Db2,
}

/// An element of a dialect's library.
#[derive(Debug)]
pub enum Element {
    /// A grammar.
    Grammar(Grammar),
    /// A grammar whose match becomes one node of syntax kind `kind`.
    Node { kind: &'static str, grammar: Grammar },
    /// Generated when the dialect is expanded: one segment whose text is one
    /// of the words of the set `set`, as a segment of kind `kind`.
    WordsOf { set: &'static str, kind: &'static str },
    /// Generated when the dialect is expanded: one segment that matches
    /// `pattern` but is none of the words of the set `set`, as a segment of
    /// kind `kind`.
    IdentifierNotIn { pattern: &'static str, kind: &'static str, set: &'static str },
}

/// The value of an [`Element`].
#[verifier::ext_equal]
pub enum ElementView {
    Grammar(GrammarView),
    Node { kind: Seq<char>, grammar: GrammarView },
    WordsOf { set: Seq<char>, kind: Seq<char> },
    IdentifierNotIn { pattern: Seq<char>, kind: Seq<char>, set: Seq<char> },
}

/// Whether `e` is an element with the grammar `g`: a node whose grammar is
/// `g`, whatever its kind, or the grammar `g` itself.
pub open spec fn has_grammar(e: Option<ElementView>, g: GrammarView) -> bool {
    match e {
        Some(ElementView::Node { grammar, .. }) => grammar == g,
        Some(ElementView::Grammar(x)) => x == g,
        _ => false,
    }
}

impl View for Element {
    type V = ElementView;

    open spec fn view(&self) -> ElementView {
        match self {
            Element::Grammar(g) => ElementView::Grammar(g@),
            Element::Node { kind, grammar } => ElementView::Node { kind: kind@, grammar: grammar@ },
            Element::WordsOf { set, kind } => ElementView::WordsOf { set: set@, kind: kind@ },
            Element::IdentifierNotIn { pattern, kind, set } => ElementView::IdentifierNotIn {
                pattern: pattern@,
                kind: kind@,
                set: set@,
            },
        }
    }
}

/// The value of a bracket pair: its name, the names of its opening and
/// closing segments, and whether it is kept between passes.
pub type BracketPairView = (Seq<char>, Seq<char>, Seq<char>, bool);

/// The value of a bracket pair.
pub open spec fn pair_view(p: BracketPair) -> BracketPairView {
    (p.0@, p.1@, p.2@, p.3)
}

/// The set of the values of the pairs.
pub open spec fn pair_set(ps: Seq<BracketPair>) -> Set<BracketPairView> {
    ps.map_values(|p: BracketPair| pair_view(p)).to_set()
}

/// The map that a list of named entries reads as: a later entry replaces an
/// earlier one of the same name.
pub open spec fn last_wins<V>(s: Seq<(Seq<char>, V)>) -> Map<Seq<char>, V>
    decreases s.len(),
{
    if s.len() == 0 {
        Map::empty()
    } else {
        last_wins(s.drop_last()).insert(s.last().0, s.last().1)
    }
}

/// Whether `i` is the last position of the name `k` in `s`.
pub open spec fn is_last<V>(s: Seq<(Seq<char>, V)>, k: Seq<char>, i: int) -> bool {
    &&& 0 <= i < s.len()
    &&& s[i].0 == k
    &&& forall|j: int| i < j < s.len() ==> s[j].0 != k
}

/// The map of a list holds a name exactly where the list does, with the value
/// of the last entry of that name.
pub proof fn lemma_last_wins<V>(s: Seq<(Seq<char>, V)>, k: Seq<char>)
    ensures
        last_wins(s).dom().contains(k) <==> exists|i: int| 0 <= i < s.len() && s[i].0 == k,
        forall|i: int| is_last(s, k, i) ==> last_wins(s)[k] == s[i].1,
    decreases s.len(),
{
    if s.len() > 0 {
        let t = s.drop_last();
        lemma_last_wins(t, k);
        if last_wins(s).dom().contains(k) && s.last().0 != k {
            let i = choose|i: int| 0 <= i < t.len() && t[i].0 == k;
            assert(s[i].0 == k);
        }
        if exists|i: int| 0 <= i < s.len() && s[i].0 == k {
            let i = choose|i: int| 0 <= i < s.len() && s[i].0 == k;
            if i < t.len() {
                assert(t[i].0 == k);
            }
        }
        assert forall|i: int| is_last(s, k, i) implies last_wins(s)[k] == s[i].1 by {
            if i < t.len() {
                assert(s[s.len() - 1].0 != k);
                assert(is_last(t, k, i));
            }
        }
    }
}

/// Mapping the values of a list maps the values of its map.
pub proof fn lemma_last_wins_map<V, W>(s: Seq<(Seq<char>, V)>, f: spec_fn(V) -> W)
    ensures
        last_wins(s.map_values(|e: (Seq<char>, V)| (e.0, f(e.1)))) == last_wins(s).map_values(f),
    decreases s.len(),
{
    let g = |e: (Seq<char>, V)| (e.0, f(e.1));
    if s.len() == 0 {
        assert(last_wins(s).map_values(f) =~= Map::empty());
    } else {
        lemma_last_wins_map(s.drop_last(), f);
        assert(s.map_values(g).drop_last() =~= s.drop_last().map_values(g));
        assert(last_wins(s.map_values(g)) =~= last_wins(s).map_values(f));
    }
}

/// The position of the last entry named `name`.
pub fn find_last<T>(v: &Vec<(&'static str, T)>, name: &str) -> (r: Option<usize>)
    ensures
        match r {
            Some(i) => i < v.len() && v@[i as int].0@ == name@ && forall|j: int| i < j < v.len() ==> v@[j].0@ != name@,
            None => forall|j: int| 0 <= j < v.len() ==> v@[j].0@ != name@,
        },
{
    let mut i = v.len();
    while i > 0
        invariant
            i <= v.len(),
            forall|j: int| i <= j < v.len() ==> v@[j].0@ != name@,
        decreases i,
    {
        i -= 1;
        if same_text(v[i].0, name) {
            return Some(i);
        }
    }
    None
}

/// The word sets as named entries.
pub open spec fn set_entries(s: Seq<(&'static str, WordSet)>) -> Seq<(Seq<char>, Set<Seq<char>>)> {
    Seq::new(s.len(), |i: int| (s[i].0@, s[i].1@))
}

/// The bracket sets as named entries.
pub open spec fn bracket_entries(
    s: Seq<(&'static str, Vec<BracketPair>)>,
) -> Seq<(Seq<char>, Set<BracketPairView>)> {
    Seq::new(s.len(), |i: int| (s[i].0@, pair_set(s[i].1@)))
}

/// The library as named entries.
pub open spec fn library_entries(s: Seq<(&'static str, Element)>) -> Seq<(Seq<char>, ElementView)> {
    Seq::new(s.len(), |i: int| (s[i].0@, s[i].1@))
}

/// A dialect.
pub struct DialectModel {
    pub name: DialectName,
    pub sets: Vec<(&'static str, WordSet)>,
    pub bracket_sets: Vec<(&'static str, Vec<BracketPair>)>,
    pub lexer: Vec<LexRule>,
    pub library: Vec<(&'static str, Element)>,
}

/// The value of a dialect.
pub struct DialectView {
    pub name: DialectName,
    pub sets: Map<Seq<char>, Set<Seq<char>>>,
    pub bracket_sets: Map<Seq<char>, Set<BracketPairView>>,
    pub lexer: Seq<LexRuleView>,
    pub library: Map<Seq<char>, ElementView>,
}

impl View for DialectModel {
    type V = DialectView;

    open spec fn view(&self) -> DialectView {
        DialectView {
            name: self.name,
            sets: last_wins(set_entries(self.sets@)),
            bracket_sets: last_wins(bracket_entries(self.bracket_sets@)),
            lexer: rules_view(self.lexer@),
            library: last_wins(library_entries(self.library@)),
        }
    }
}

impl DialectView {
    /// The word set `label` (empty where the dialect has none).
    pub open spec fn set(self, label: Seq<char>) -> Set<Seq<char>> {
        if self.sets.dom().contains(label) {
            self.sets[label]
        } else {
            Set::empty()
        }
    }

    /// The bracket set `label` (empty where the dialect has none).
    pub open spec fn brackets(self, label: Seq<char>) -> Set<BracketPairView> {
        if self.bracket_sets.dom().contains(label) {
            self.bracket_sets[label]
        } else {
            Set::empty()
        }
    }

    /// The library element `name`, if there is one.
    pub open spec fn element(self, name: Seq<char>) -> Option<ElementView> {
        if self.library.dom().contains(name) {
            Some(self.library[name])
        } else {
            None
        }
    }

    /// The dialect with the word set `label` replaced by `words`.
    pub open spec fn with_set(self, label: Seq<char>, words: Set<Seq<char>>) -> DialectView {
        DialectView { sets: self.sets.insert(label, words), ..self }
    }

    /// The dialect with the element `name` set to `e`.
    pub open spec fn with_element(self, name: Seq<char>, e: ElementView) -> DialectView {
        DialectView { library: self.library.insert(name, e), ..self }
    }

    /// The dialect with the grammar of the element `name` replaced by `g`, as
    /// `Dialect::replace_grammar` does: a node keeps its kind, anything else
    /// (or nothing) becomes the grammar `g`.
    pub open spec fn with_grammar(self, name: Seq<char>, g: GrammarView) -> DialectView {
        let e = match self.element(name) {
            Some(ElementView::Node { kind, .. }) => ElementView::Node { kind, grammar: g },
            _ => ElementView::Grammar(g),
        };
        self.with_element(name, e)
    }

    /// The dialect with its lexer rules replaced by `rules`.
    pub open spec fn with_lexer(self, rules: Seq<LexRuleView>) -> DialectView {
        DialectView { lexer: rules, ..self }
    }

    /// The dialect with the bracket pairs `pairs` added to the bracket set `label`.
    pub open spec fn with_brackets(self, label: Seq<char>, pairs: Set<BracketPairView>) -> DialectView {
        DialectView { bracket_sets: self.bracket_sets.insert(label, self.brackets(label).union(pairs)), ..self }
    }
}

/// The element that a generator gives in a dialect whose sets are those of
/// `d`; other elements stay as they are.
pub open spec fn resolved(d: DialectView, e: ElementView) -> ElementView {
    match e {
        ElementView::WordsOf { set, kind } => ElementView::Grammar(
            GrammarView::MultiStringParser { templates: d.set(set), kind },
        ),
        ElementView::IdentifierNotIn { pattern, kind, set } => ElementView::Grammar(
            GrammarView::RegexParser { pattern, kind, anti_template: Some(d.set(set)) },
        ),
        _ => e,
    }
}

/// The keywords of a dialect: its unreserved, reserved and future reserved ones.
pub open spec fn keywords(d: DialectView) -> Set<Seq<char>> {
    d.set("unreserved_keywords"@).union(d.set("reserved_keywords"@)).union(d.set("future_reserved_keywords"@))
}

/// The parser of the keyword `k`.
pub open spec fn keyword_parser(k: Seq<char>) -> ElementView {
    ElementView::Grammar(GrammarView::StringParser { template: k, kind: "keyword"@ })
}

/// A keyword parser under its own name for each keyword of `kws` that `lib`
/// holds no element for.
pub open spec fn keyword_parsers(lib: Map<Seq<char>, ElementView>, kws: Set<Seq<char>>) -> Map<Seq<char>, ElementView> {
    Map::new(|k: Seq<char>| kws.contains(k) && !lib.dom().contains(k), |k: Seq<char>| keyword_parser(k))
}

/// The expanded dialect, as `Dialect::expand` makes it: every generator
/// replaced by what it gives, and a keyword parser added under the name of
/// each keyword that names no element.
pub open spec fn expanded(d: DialectView) -> DialectView {
    let lib = d.library.map_values(|e: ElementView| resolved(d, e));
    DialectView { library: lib.union_prefer_right(keyword_parsers(lib, keywords(d))), ..d }
}

proof fn lemma_set_entries_push(s: Seq<(&'static str, WordSet)>, x: (&'static str, WordSet))
    ensures
        last_wins(set_entries(s.push(x))) == last_wins(set_entries(s)).insert(x.0@, x.1@),
{
    assert(set_entries(s.push(x)).drop_last() =~= set_entries(s));
}

proof fn lemma_bracket_entries_push(s: Seq<(&'static str, Vec<BracketPair>)>, x: (&'static str, Vec<BracketPair>))
    ensures
        last_wins(bracket_entries(s.push(x))) == last_wins(bracket_entries(s)).insert(x.0@, pair_set(x.1@)),
{
    assert(bracket_entries(s.push(x)).drop_last() =~= bracket_entries(s));
}

proof fn lemma_library_entries_push(s: Seq<(&'static str, Element)>, x: (&'static str, Element))
    ensures
        last_wins(library_entries(s.push(x))) == last_wins(library_entries(s)).insert(x.0@, x.1@),
{
    assert(library_entries(s.push(x)).drop_last() =~= library_entries(s));
}

/// A copy of a list of bracket pairs.
fn copy_pairs(ps: &Vec<BracketPair>) -> (r: Vec<BracketPair>)
    ensures
        r@ == ps@,
{
    let mut r: Vec<BracketPair> = Vec::new();
    let mut i: usize = 0;
    while i < ps.len()
        invariant
            i <= ps.len(),
            r@ == ps@.take(i as int),
        decreases ps.len() - i,
    {
        r.push(ps[i]);
        assert(ps@.take(i + 1) =~= ps@.take(i as int).push(ps@[i as int]));
        i += 1;
    }
    assert(ps@.take(ps.len() as int) =~= ps@);
    r
}

impl DialectModel {
    /// A dialect with nothing in it yet.
    pub fn new(name: DialectName) -> (d: DialectModel)
        ensures
            d@.name == name,
            d@.sets == Map::<Seq<char>, Set<Seq<char>>>::empty(),
            d@.bracket_sets == Map::<Seq<char>, Set<BracketPairView>>::empty(),
            d@.lexer == Seq::<LexRuleView>::empty(),
            d@.library == Map::<Seq<char>, ElementView>::empty(),
    {
        let d = DialectModel {
            name,
            sets: Vec::new(),
            bracket_sets: Vec::new(),
            lexer: Vec::new(),
            library: Vec::new(),
        };
        assert(set_entries(d.sets@) =~= Seq::empty());
        assert(bracket_entries(d.bracket_sets@) =~= Seq::empty());
        assert(library_entries(d.library@) =~= Seq::empty());
        assert(rules_view(d.lexer@) =~= Seq::empty());
        d
    }

    /// A copy of the word set `label` (empty where the dialect has none).
    pub fn set(&self, label: &str) -> (s: WordSet)
        ensures
            s@ == self@.set(label@),
    {
        proof {
            lemma_last_wins(set_entries(self.sets@), label@);
        }
        match find_last(&self.sets, label) {
            Some(i) => {
                assert(is_last(set_entries(self.sets@), label@, i as int));
                let ws = self.sets[i].1.words();
                WordSet::from_words(ws.as_slice())
            },
            None => {
                assert(!last_wins(set_entries(self.sets@)).dom().contains(label@)) by {
                    if last_wins(set_entries(self.sets@)).dom().contains(label@) {
                        let j = choose|j: int| 0 <= j < set_entries(self.sets@).len() && set_entries(self.sets@)[j].0 == label@;
                        assert(self.sets@[j].0@ == label@);
                    }
                }
                WordSet::new()
            },
        }
    }

    /// Sets the word set `label` to `words`.
    pub fn put_set(&mut self, label: &'static str, words: WordSet)
        ensures
            final(self)@ == old(self)@.with_set(label@, words@),
    {
        proof {
            lemma_set_entries_push(self.sets@, (label, words));
        }
        self.sets.push((label, words));
    }

    /// Adds `words` to the word set `label`.
    pub fn extend_set(&mut self, label: &'static str, words: &[&'static str])
        ensures
            final(self)@ == old(self)@.with_set(label@, old(self)@.set(label@).union(texts(words@).to_set())),
    {
        let mut s = self.set(label);
        s.extend(words);
        self.put_set(label, s);
    }

    /// Takes `word` out of the word set `label`.
    pub fn remove_from_set(&mut self, label: &'static str, word: &str)
        ensures
            final(self)@ == old(self)@.with_set(label@, old(self)@.set(label@).remove(word@)),
    {
        let mut s = self.set(label);
        s.remove(word);
        self.put_set(label, s);
    }

    /// Empties the word set `label`.
    pub fn clear_set(&mut self, label: &'static str)
        ensures
            final(self)@ == old(self)@.with_set(label@, Set::empty()),
    {
        self.put_set(label, WordSet::new());
    }

    /// Takes every word of `excluded` out of the word set `label`.
    pub fn retain_absent_in_set(&mut self, label: &'static str, excluded: &[&'static str])
        ensures
            final(self)@ == old(self)@.with_set(
                label@,
                old(self)@.set(label@).difference(texts(excluded@).to_set()),
            ),
    {
        let mut s = self.set(label);
        s.retain_absent(excluded);
        self.put_set(label, s);
    }

    /// Adds the keywords of a list of keywords, one per line, to the word set
    /// `label` (as `Dialect::update_keywords_set_from_multiline_string` does).
    pub fn load_keywords(&mut self, label: &'static str, text: &'static str)
        ensures
            final(self)@ == old(self)@.with_set(
                label@,
                old(self)@.set(label@).union(keyword_list(text_lines(text@)).to_set()),
            ),
    {
        let ws = keyword_lines(text);
        self.extend_set(label, ws.as_slice());
    }

    /// Adds the bracket pairs to the bracket set `label`.
    pub fn add_bracket_pairs(&mut self, label: &'static str, pairs: &Vec<BracketPair>)
        ensures
            final(self)@ == old(self)@.with_brackets(label@, pair_set(pairs@)),
    {
        proof {
            lemma_last_wins(bracket_entries(self.bracket_sets@), label@);
        }
        let mut all: Vec<BracketPair> = match find_last(&self.bracket_sets, label) {
            Some(i) => {
                assert(is_last(bracket_entries(self.bracket_sets@), label@, i as int));
                let c = copy_pairs(&self.bracket_sets[i].1);
                assert(bracket_entries(self.bracket_sets@)[i as int].1 == pair_set(c@));
                assert(pair_set(c@) == self@.brackets(label@));
                c
            },
            None => {
                assert(!last_wins(bracket_entries(self.bracket_sets@)).dom().contains(label@)) by {
                    if last_wins(bracket_entries(self.bracket_sets@)).dom().contains(label@) {
                        let j = choose|j: int|
                            0 <= j < bracket_entries(self.bracket_sets@).len() && bracket_entries(self.bracket_sets@)[j].0
                                == label@;
                        assert(self.bracket_sets@[j].0@ == label@);
                    }
                }
                let c: Vec<BracketPair> = Vec::new();
                assert(pair_set(c@) =~= self@.brackets(label@));
                c
            },
        };
        let ghost before = all@;
        assert(pair_set(before) == self@.brackets(label@));
        let mut extra = copy_pairs(pairs);
        all.append(&mut extra);
        proof {
            let f = |p: BracketPair| pair_view(p);
            assert((before + pairs@).map_values(f) =~= before.map_values(f) + pairs@.map_values(f));
            assert(pair_set(before + pairs@) =~= pair_set(before).union(pair_set(pairs@))) by {
                assert forall|x: BracketPairView| pair_set(before + pairs@).contains(x)
                    <==> pair_set(before).union(pair_set(pairs@)).contains(x) by {
                    let a = before.map_values(f);
                    let b = pairs@.map_values(f);
                    if (a + b).contains(x) {
                        let i = choose|i: int| 0 <= i < (a + b).len() && (a + b)[i] == x;
                        if i < a.len() {
                            assert(a[i] == x);
                        } else {
                            assert(b[i - a.len()] == x);
                        }
                    }
                    if a.contains(x) {
                        let i = choose|i: int| 0 <= i < a.len() && a[i] == x;
                        assert((a + b)[i] == x);
                    }
                    if b.contains(x) {
                        let i = choose|i: int| 0 <= i < b.len() && b[i] == x;
                        assert((a + b)[a.len() + i] == x);
                    }
                }
            }
            lemma_bracket_entries_push(self.bracket_sets@, (label, all));
            assert(pair_set(all@) == self@.brackets(label@).union(pair_set(pairs@)));
        }
        self.bracket_sets.push((label, all));
    }

    /// Sets the library element `name` to `element`.
    pub fn add(&mut self, name: &'static str, element: Element)
        ensures
            final(self)@ == old(self)@.with_element(name@, element@),
    {
        proof {
            lemma_library_entries_push(self.library@, (name, element));
        }
        self.library.push((name, element));
    }

    /// Sets the library element `name` to the grammar `g`.
    pub fn add_grammar(&mut self, name: &'static str, g: Grammar)
        ensures
            final(self)@ == old(self)@.with_element(name@, ElementView::Grammar(g@)),
    {
        self.add(name, Element::Grammar(g));
    }

    /// Sets the library element `name` to a node of kind `kind` over `g`.
    pub fn add_node(&mut self, name: &'static str, kind: &'static str, g: Grammar)
        ensures
            final(self)@ == old(self)@.with_element(name@, ElementView::Node { kind: kind@, grammar: g@ }),
    {
        self.add(name, Element::Node { kind, grammar: g });
    }

    /// Replaces the grammar of the element `name` (see
    /// [`DialectView::with_grammar`]).
    pub fn replace_grammar(&mut self, name: &'static str, g: Grammar)
        ensures
            final(self)@ == old(self)@.with_grammar(name@, g@),
    {
        proof {
            lemma_last_wins(library_entries(self.library@), name@);
        }
        let e = match find_last(&self.library, name) {
            Some(i) => {
                assert(is_last(library_entries(self.library@), name@, i as int));
                match &self.library[i].1 {
                    Element::Node { kind, .. } => Element::Node { kind: *kind, grammar: g },
                    _ => Element::Grammar(g),
                }
            },
            None => {
                assert(!last_wins(library_entries(self.library@)).dom().contains(name@)) by {
                    if last_wins(library_entries(self.library@)).dom().contains(name@) {
                        let j = choose|j: int|
                            0 <= j < library_entries(self.library@).len() && library_entries(self.library@)[j].0 == name@;
                        assert(self.library@[j].0@ == name@);
                    }
                }
                Element::Grammar(g)
            },
        };
        self.add(name, e);
    }

    /// A copy of the grammar element `name`; the element must be a grammar
    /// (where it is missing or a generator, `Dialect::grammar` panics).
    pub fn grammar(&self, name: &str) -> (g: Grammar)
        requires
            self@.element(name@) matches Some(ElementView::Grammar(_)),
        ensures
            self@.element(name@) == Some(ElementView::Grammar(g@)),
    {
        proof {
            lemma_last_wins(library_entries(self.library@), name@);
        }
        match find_last(&self.library, name) {
            Some(i) => {
                assert(is_last(library_entries(self.library@), name@, i as int));
                match &self.library[i].1 {
                    Element::Grammar(g) => g.duplicate(),
                    _ => {
                        assert(false);
                        Grammar::Nothing
                    },
                }
            },
            None => {
                proof {
                    let j = choose|j: int|
                        0 <= j < library_entries(self.library@).len() && library_entries(self.library@)[j].0 == name@;
                    assert(self.library@[j].0@ == name@);
                }
                Grammar::Nothing
            },
        }
    }

    /// Sets the lexer rules.
    pub fn set_lexer(&mut self, rules: Vec<LexRule>)
        ensures
            final(self)@ == old(self)@.with_lexer(rules_view(rules@)),
    {
        self.lexer = rules;
    }

    /// Puts the rules of `patch` in front of the lexer rule named `before`; see
    /// [`insert_lexer_rules`].
    pub fn insert_lexer_rules(&mut self, patch: Vec<LexRule>, before: &str)
        requires
            old(self)@.lexer.len() > 0,
            rule_names(old(self)@.lexer).contains(before@),
        ensures
            final(self)@ == old(self)@.with_lexer(inserted(old(self)@.lexer, rules_view(patch@), before@)),
    {
        insert_lexer_rules(&mut self.lexer, patch, before);
    }

    /// Replaces lexer rules by the rules of `patch` of the same names; see
    /// [`patch_lexer_rules`].
    pub fn patch_lexer_rules(&mut self, patch: Vec<LexRule>)
        requires
            old(self)@.lexer.len() > 0,
        ensures
            final(self)@ == old(self)@.with_lexer(patched(old(self)@.lexer, rules_view(patch@))),
    {
        patch_lexer_rules(&mut self.lexer, patch);
    }
}

/// Adds a keyword parser under the name of each of `words` that names no
/// element of `lib` yet.
fn add_keyword_parsers(
    lib: &mut Vec<(&'static str, Element)>,
    words: &Vec<&'static str>,
    Ghost(r): Ghost<Map<Seq<char>, ElementView>>,
    Ghost(done): Ghost<Set<Seq<char>>>,
)
    requires
        last_wins(library_entries(old(lib)@)) == r.union_prefer_right(keyword_parsers(r, done)),
    ensures
        last_wins(library_entries(final(lib)@)) == r.union_prefer_right(
            keyword_parsers(r, done.union(texts(words@).to_set())),
        ),
{
    let mut j: usize = 0;
    assert(texts(words@.take(0)).to_set() =~= Set::<Seq<char>>::empty());
    assert(done.union(Set::<Seq<char>>::empty()) =~= done);
    while j < words.len()
        invariant
            j <= words.len(),
            last_wins(library_entries(lib@)) == r.union_prefer_right(
                keyword_parsers(r, done.union(texts(words@.take(j as int)).to_set())),
            ),
        decreases words.len() - j,
    {
        let kw = words[j];
        let ghost d0 = done.union(texts(words@.take(j as int)).to_set());
        let ghost d1 = d0.insert(kw@);
        proof {
            assert(texts(words@.take(j + 1)) =~= texts(words@.take(j as int)).push(kw@));
            crate::sets::lemma_push_to_set(texts(words@.take(j as int)), kw@);
            assert(done.union(texts(words@.take(j + 1)).to_set()) =~= d1);
            lemma_last_wins(library_entries(lib@), kw@);
        }
        match find_last(lib, kw) {
            Some(i) => {
                proof {
                    assert(library_entries(lib@)[i as int].0 == kw@);
                    let cur = r.union_prefer_right(keyword_parsers(r, d0));
                    assert(cur.dom().contains(kw@));
                    assert(r.union_prefer_right(keyword_parsers(r, d1)) =~= cur);
                }
            },
            None => {
                let ghost before = lib@;
                let g = Grammar::string_parser(kw, "keyword");
                lib.push((kw, Element::Grammar(g)));
                proof {
                    reveal_strlit("keyword");
                    let cur = r.union_prefer_right(keyword_parsers(r, d0));
                    assert(!cur.dom().contains(kw@)) by {
                        if cur.dom().contains(kw@) {
                            let k = choose|k: int|
                                0 <= k < library_entries(before).len() && library_entries(before)[k].0 == kw@;
                            assert(before[k].0@ == kw@);
                        }
                    }
                    lemma_library_entries_push(before, (kw, Element::Grammar(g)));
                    assert(r.union_prefer_right(keyword_parsers(r, d1)) =~= cur.insert(kw@, keyword_parser(kw@)));
                }
            },
        }
        j += 1;
    }
    assert(words@.take(words.len() as int) =~= words@);
}

impl DialectModel {
    /// What the element `e` gives in this dialect; see [`resolved`].
    fn resolve(&self, e: &Element) -> (r: Element)
        ensures
            r@ == resolved(self@, e@),
    {
        match e {
            Element::Grammar(g) => Element::Grammar(g.duplicate()),
            Element::Node { kind, grammar } => Element::Node { kind: *kind, grammar: grammar.duplicate() },
            Element::WordsOf { set, kind } => {
                let ws = self.set(set).words();
                Element::Grammar(Grammar::MultiStringParser { templates: ws, kind: *kind })
            },
            Element::IdentifierNotIn { pattern, kind, set } => {
                let ws = self.set(set).words();
                Element::Grammar(Grammar::RegexParser { pattern: *pattern, kind: *kind, anti_template: Some(ws) })
            },
        }
    }

    /// Expands the dialect, as `Dialect::expand` does; see [`expanded`].
    pub fn expand(&mut self)
        ensures
            final(self)@ == expanded(old(self)@),
    {
        let ghost d = self@;
        let ghost f = |e: ElementView| resolved(d, e);
        let ghost g = |e: (Seq<char>, ElementView)| (e.0, f(e.1));
        let mut lib: Vec<(&'static str, Element)> = Vec::new();
        let mut i: usize = 0;
        while i < self.library.len()
            invariant
                self@ == d,
                i <= self.library.len(),
                library_entries(lib@) == library_entries(self.library@).take(i as int).map_values(g),
                g == (|e: (Seq<char>, ElementView)| (e.0, f(e.1))),
                f == (|e: ElementView| resolved(d, e)),
            decreases self.library.len() - i,
        {
            let r = self.resolve(&self.library[i].1);
            let ghost before = lib@;
            lib.push((self.library[i].0, r));
            assert(library_entries(lib@) =~= library_entries(before).push((self.library@[i as int].0@, r@)));
            assert(library_entries(self.library@).take(i + 1).map_values(g) =~= library_entries(self.library@).take(
                i as int,
            ).map_values(g).push(g(library_entries(self.library@)[i as int])));
            i += 1;
        }
        proof {
            assert(library_entries(self.library@).take(self.library.len() as int) =~= library_entries(self.library@));
            lemma_last_wins_map(library_entries(self.library@), f);
        }
        let ghost rl = d.library.map_values(f);
        assert(last_wins(library_entries(lib@)) == rl);
        assert(rl =~= rl.union_prefer_right(keyword_parsers(rl, Set::empty())));
        let unreserved = self.set("unreserved_keywords").words();
        add_keyword_parsers(&mut lib, &unreserved, Ghost(rl), Ghost(Set::empty()));
        let reserved = self.set("reserved_keywords").words();
        add_keyword_parsers(&mut lib, &reserved, Ghost(rl), Ghost(Set::empty().union(texts(unreserved@).to_set())));
        let future = self.set("future_reserved_keywords").words();
        add_keyword_parsers(
            &mut lib,
            &future,
            Ghost(rl),
            Ghost(Set::empty().union(texts(unreserved@).to_set()).union(texts(reserved@).to_set())),
        );
        proof {
            assert(Set::empty().union(texts(unreserved@).to_set()).union(texts(reserved@).to_set()).union(
                texts(future@).to_set(),
            ) =~= keywords(d));
        }
        self.library = lib;
    }
}


/// Expansion leaves no generator behind: every element of an expanded
/// dialect is a grammar or a node.
pub proof fn law_expanded_has_no_generators(d: DialectView, name: Seq<char>)
    requires
        expanded(d).library.dom().contains(name),
    ensures
        expanded(d).library[name] is Grammar || expanded(d).library[name] is Node,
{
    let lib = d.library.map_values(|e: ElementView| resolved(d, e));
    if keyword_parsers(lib, keywords(d)).dom().contains(name) {
        assert(expanded(d).library[name] == keyword_parser(name));
    } else {
        assert(lib.dom().contains(name));
        assert(expanded(d).library[name] == resolved(d, d.library[name]));
    }
}

/// Expansion keeps every element name, keeps every element that is no
/// generator as it is, and gives every keyword of the dialect an element.
pub proof fn law_expansion_keeps_elements_and_covers_keywords(d: DialectView, name: Seq<char>)
    ensures
        d.library.dom().contains(name) ==> expanded(d).library.dom().contains(name),
        d.library.dom().contains(name) && !(d.library[name] is WordsOf) && !(d.library[name] is IdentifierNotIn)
            ==> expanded(d).library[name] == d.library[name],
        keywords(d).contains(name) ==> expanded(d).library.dom().contains(name),
        !d.library.dom().contains(name) && keywords(d).contains(name) ==> expanded(d).library[name]
            == keyword_parser(name),
        expanded(d).sets == d.sets && expanded(d).lexer == d.lexer && expanded(d).name == d.name,
{
    let lib = d.library.map_values(|e: ElementView| resolved(d, e));
    if d.library.dom().contains(name) {
        assert(lib.dom().contains(name));
        assert(!keyword_parsers(lib, keywords(d)).dom().contains(name));
    }
    if keywords(d).contains(name) && !d.library.dom().contains(name) {
        assert(keyword_parsers(lib, keywords(d)).dom().contains(name));
    }
}

/// A word set change touches that set alone: every other set, the lexer and
/// the library stay as they were.
pub proof fn law_with_set_touches_one_set(d: DialectView, label: Seq<char>, words: Set<Seq<char>>, other: Seq<char>)
    requires
        other != label,
    ensures
        d.with_set(label, words).set(label) == words,
        d.with_set(label, words).set(other) == d.set(other),
        d.with_set(label, words).library == d.library,
        d.with_set(label, words).lexer == d.lexer,
{
}

/// Replacing the grammar of a node keeps its kind: the element stays a node
/// of the same kind, now over the new grammar.
pub proof fn law_replace_grammar_keeps_node_kind(d: DialectView, name: Seq<char>, kind: Seq<char>, old_grammar: GrammarView, g: GrammarView)
    requires
        d.element(name) == Some(ElementView::Node { kind, grammar: old_grammar }),
    ensures
        d.with_grammar(name, g).element(name) == Some(ElementView::Node { kind, grammar: g }),
{
}

} // verus!
