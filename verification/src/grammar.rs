//! A plain-value model of the grammar combinators that the dialects build
//! their parsers from. Each value describes one combinator or parser of
//! `sqruff_lib_core` with the settings that the dialects give it; the parser
//! engine itself stays in that crate. Syntax kinds are named by their
//! snake-case names.

use vstd::prelude::*;
use crate::sets::texts;
use crate::text::same_text;

verus! {

/// How greedily a sequence claims the segments that it meets.
#[derive(Clone, Copy, Debug)]
pub enum ParseMode {
    /// Only a full match counts (the default of every grammar).
    Strict,
    /// Claims everything up to a terminator.
    Greedy,
    /// Strict until something matches, greedy afterwards.
    GreedyOnceStarted,
}

/// A grammar: a reference to a named element of the dialect, a keyword, a
/// parser of single segments, or a combinator over other grammars.
#[derive(Debug)]
pub enum Grammar {
    /// A reference to the dialect element `name`.
    Ref { name: &'static str, optional: bool },
    /// The keyword `word` (in upper case).
    Keyword { word: &'static str },
    /// The elements, one after the other, up to one of the terminators.
    Sequence { elements: Vec<Grammar>, terminators: Vec<Grammar>, parse_mode: ParseMode },
    /// Exactly one of the elements, up to one of the terminators.
    OneOf { elements: Vec<Grammar>, terminators: Vec<Grammar> },
    /// Between `min_times` and `max_times` (no bound when `None`) of the
    /// elements, up to one of the terminators.
    AnyNumberOf {
        elements: Vec<Grammar>,
        terminators: Vec<Grammar>,
        min_times: usize,
        max_times: Option<usize>,
    },
    /// A list of the elements separated by the delimiter (commas when `None`),
    /// up to one of the terminators; with `allow_trailing`, a delimiter may
    /// also close the list; without `allow_gaps`, no whitespace may stand
    /// between the items and the delimiters.
    Delimited {
        elements: Vec<Grammar>,
        allow_trailing: bool,
        delimiter: Option<Box<Grammar>>,
        terminators: Vec<Grammar>,
        allow_gaps: bool,
    },
    /// The elements, one after the other, inside brackets of `bracket_type`.
    Bracketed { elements: Vec<Grammar>, bracket_type: &'static str },
    /// The grammar, which may also be left out.
    Optional { grammar: Box<Grammar> },
    /// The grammar, where `exclude` does not match.
    Exclude { grammar: Box<Grammar>, exclude: Box<Grammar> },
    /// Matches nothing.
    Nothing,
    /// Matches everything that is left.
    Anything,
    /// One segment whose text is `template` (in any case), as a segment of
    /// kind `kind`.
    StringParser { template: &'static str, kind: &'static str },
    /// One segment of kind `template`, as a segment of kind `kind`.
    TypedParser { template: &'static str, kind: &'static str },
    /// One segment that matches the regular expression `pattern` but is not
    /// one of the words of `anti_template` (the anti-template
    /// `^(w1|w2|...)$`), as a segment of kind `kind`.
    RegexParser { pattern: &'static str, kind: &'static str, anti_template: Option<Vec<&'static str>> },
    /// One segment whose text is one of `templates` (in any case), as a
    /// segment of kind `kind`.
    MultiStringParser { templates: Vec<&'static str>, kind: &'static str },
    /// An indentation point of the layout.
    Indent,
    /// The end of an indented block of the layout.
    Dedent,
    /// An indentation point that opens no new line.
    ImplicitIndent,
    /// The grammar, with no whitespace allowed between its parts.
    WithoutGaps { grammar: Box<Grammar> },
    /// The grammar (a choice, repetition or bracketed sequence) parsed in `parse_mode`.
    InMode { grammar: Box<Grammar>, parse_mode: ParseMode },
    /// Any of the elements, each at most once, in any order.
    AnySetOf { elements: Vec<Grammar> },
    /// The layout point `meta`, in force only where the layout setting
    /// `setting` (such as `indented_ctes`) is on.
    Conditional { meta: Box<Grammar>, setting: &'static str },
}

/// The mathematical value of a [`Grammar`].
#[verifier::ext_equal]
pub enum GrammarView {
    Ref { name: Seq<char>, optional: bool },
    Keyword { word: Seq<char> },
    Sequence { elements: Seq<GrammarView>, terminators: Seq<GrammarView>, parse_mode: ParseMode },
    OneOf { elements: Seq<GrammarView>, terminators: Seq<GrammarView> },
    AnyNumberOf {
        elements: Seq<GrammarView>,
        terminators: Seq<GrammarView>,
        min_times: nat,
        max_times: Option<nat>,
    },
    Delimited {
        elements: Seq<GrammarView>,
        allow_trailing: bool,
        delimiter: Option<Box<GrammarView>>,
        terminators: Seq<GrammarView>,
        allow_gaps: bool,
    },
    Bracketed { elements: Seq<GrammarView>, bracket_type: Seq<char> },
    Optional { grammar: Box<GrammarView> },
    Exclude { grammar: Box<GrammarView>, exclude: Box<GrammarView> },
    Nothing,
    Anything,
    StringParser { template: Seq<char>, kind: Seq<char> },
    TypedParser { template: Seq<char>, kind: Seq<char> },
    RegexParser { pattern: Seq<char>, kind: Seq<char>, anti_template: Option<Set<Seq<char>>> },
    MultiStringParser { templates: Set<Seq<char>>, kind: Seq<char> },
    Indent,
    Dedent,
    ImplicitIndent,
    WithoutGaps { grammar: Box<GrammarView> },
    InMode { grammar: Box<GrammarView>, parse_mode: ParseMode },
    AnySetOf { elements: Seq<GrammarView> },
    Conditional { meta: Box<GrammarView>, setting: Seq<char> },
}

/// The set of the texts of `ws`.
pub open spec fn word_set(ws: Seq<&'static str>) -> Set<Seq<char>> {
    texts(ws).to_set()
}

impl GrammarView {
    /// A mandatory reference to `name`.
    pub open spec fn reference(name: Seq<char>) -> GrammarView {
        GrammarView::Ref { name, optional: false }
    }

    /// An optional reference to `name`.
    pub open spec fn optional_reference(name: Seq<char>) -> GrammarView {
        GrammarView::Ref { name, optional: true }
    }

    /// The keyword `word`.
    pub open spec fn keyword(word: Seq<char>) -> GrammarView {
        GrammarView::Keyword { word }
    }

    /// A strict sequence without terminators.
    pub open spec fn sequence(elements: Seq<GrammarView>) -> GrammarView {
        GrammarView::Sequence { elements, terminators: Seq::empty(), parse_mode: ParseMode::Strict }
    }

    /// A choice without terminators.
    pub open spec fn one_of(elements: Seq<GrammarView>) -> GrammarView {
        GrammarView::OneOf { elements, terminators: Seq::empty() }
    }

    /// A comma-separated list without terminators, gaps allowed, no trailing comma.
    pub open spec fn delimited(elements: Seq<GrammarView>) -> GrammarView {
        GrammarView::Delimited {
            elements,
            allow_trailing: false,
            delimiter: None,
            terminators: Seq::empty(),
            allow_gaps: true,
        }
    }
}

impl GrammarView {
    /// The grammar with its terminators replaced by `terminators` (for a
    /// sequence, a choice, a repetition or a list; other grammars have none).
    pub open spec fn with_terminators(self, terminators: Seq<GrammarView>) -> GrammarView {
        match self {
            GrammarView::Sequence { elements, parse_mode, .. } => GrammarView::Sequence {
                elements,
                terminators,
                parse_mode,
            },
            GrammarView::OneOf { elements, .. } => GrammarView::OneOf { elements, terminators },
            GrammarView::AnyNumberOf { elements, min_times, max_times, .. } => GrammarView::AnyNumberOf {
                elements,
                terminators,
                min_times,
                max_times,
            },
            GrammarView::Delimited { elements, allow_trailing, delimiter, allow_gaps, .. } => GrammarView::Delimited {
                elements,
                allow_trailing,
                delimiter,
                terminators,
                allow_gaps,
            },
            _ => self,
        }
    }

    /// The sequence with its parse mode set to `mode`.
    pub open spec fn with_parse_mode(self, mode: ParseMode) -> GrammarView {
        match self {
            GrammarView::Sequence { elements, terminators, .. } => GrammarView::Sequence {
                elements,
                terminators,
                parse_mode: mode,
            },
            _ => self,
        }
    }

    /// The elements of a combinator (none for other grammars).
    pub open spec fn elements(self) -> Seq<GrammarView> {
        match self {
            GrammarView::Sequence { elements, .. } => elements,
            GrammarView::OneOf { elements, .. } => elements,
            GrammarView::AnyNumberOf { elements, .. } => elements,
            GrammarView::Delimited { elements, .. } => elements,
            GrammarView::Bracketed { elements, .. } => elements,
            _ => Seq::empty(),
        }
    }

    /// Whether `copy` applies to the grammar: a sequence, a choice, a
    /// repetition or a list.
    pub open spec fn copyable(self) -> bool {
        ||| self is Sequence
        ||| self is OneOf
        ||| self is AnyNumberOf
        ||| self is Delimited
    }

    /// The copy that `copy` makes in `sqruff_lib_core`; see
    /// [`copied_elements`] and [`copied_terminators`]. Everything else is kept.
    pub open spec fn copied(
        self,
        insert: Option<Seq<GrammarView>>,
        at: Option<int>,
        before: Option<GrammarView>,
        remove: Option<Seq<GrammarView>>,
        terminators: Seq<GrammarView>,
        replace_terminators: bool,
    ) -> GrammarView {
        match self {
            GrammarView::Sequence { elements, terminators: own, parse_mode } => GrammarView::Sequence {
                elements: copied_elements(elements, insert, at, before, remove),
                terminators: copied_terminators(own, terminators, replace_terminators),
                parse_mode,
            },
            GrammarView::OneOf { elements, terminators: own } => GrammarView::OneOf {
                elements: copied_elements(elements, insert, at, before, remove),
                terminators: copied_terminators(own, terminators, replace_terminators),
            },
            GrammarView::AnyNumberOf { elements, terminators: own, min_times, max_times } => GrammarView::AnyNumberOf {
                elements: copied_elements(elements, insert, at, before, remove),
                terminators: copied_terminators(own, terminators, replace_terminators),
                min_times,
                max_times,
            },
            GrammarView::Delimited { elements, allow_trailing, delimiter, terminators: own, allow_gaps } => GrammarView::Delimited {
                elements: copied_elements(elements, insert, at, before, remove),
                allow_trailing,
                delimiter,
                terminators: copied_terminators(own, terminators, replace_terminators),
                allow_gaps,
            },
            _ => self,
        }
    }
}

/// The reference that a grammar becomes in `sqruff_lib_core`, by name and
/// whether it is optional, where it becomes one: a reference, a keyword (a
/// reference to the keyword's name), an optional one of these, or a reference
/// with an exclusion. `None` for every other grammar.
pub open spec fn sqruff_reference(g: GrammarView) -> Option<(Seq<char>, bool)>
    decreases g,
{
    match g {
        GrammarView::Ref { name, optional } => Some((name, optional)),
        GrammarView::Keyword { word } => Some((word, false)),
        GrammarView::Optional { grammar } => match sqruff_reference(*grammar) {
            Some(r) => Some((r.0, true)),
            None => None,
        },
        GrammarView::Exclude { grammar, .. } => match *grammar {
            GrammarView::Ref { name, optional } => Some((name, optional)),
            _ => None,
        },
        _ => None,
    }
}

/// Whether `sqruff_lib_core` takes `e` to equal the reference `b`: both are
/// references, of the same name and both optional or both not (the equality
/// of references there looks at nothing else).
pub open spec fn references_match(e: GrammarView, b: GrammarView) -> bool {
    &&& sqruff_reference(b) is Some
    &&& sqruff_reference(e) == sqruff_reference(b)
}

/// Whether `e` matches one of the references `r`.
pub open spec fn matches_any(e: GrammarView, r: Seq<GrammarView>) -> bool {
    exists|i: int| 0 <= i < r.len() && references_match(e, #[trigger] r[i])
}

/// Whether every grammar of `r` becomes a reference.
pub open spec fn all_references(r: Seq<GrammarView>) -> bool {
    forall|i: int| 0 <= i < r.len() ==> (#[trigger] sqruff_reference(r[i])) is Some
}

/// The position of the first element of `es` that matches the reference `b`.
pub open spec fn first_index(es: Seq<GrammarView>, b: GrammarView) -> int {
    choose|k: int|
        0 <= k < es.len() && references_match(es[k], b) && forall|j: int| 0 <= j < k ==> !references_match(es[j], b)
}

/// Where a copy inserts: in front of the first element that matches
/// `before` when it is given, else at `at`, else at the end.
pub open spec fn insert_position(es: Seq<GrammarView>, at: Option<int>, before: Option<GrammarView>) -> int {
    match before {
        Some(b) => first_index(es, b),
        None => match at {
            Some(k) => k,
            None => es.len() as int,
        },
    }
}

/// The elements with `insert`, if given, put in at the insert position.
pub open spec fn inserted_elements(
    es: Seq<GrammarView>,
    insert: Option<Seq<GrammarView>>,
    at: Option<int>,
    before: Option<GrammarView>,
) -> Seq<GrammarView> {
    match insert {
        None => es,
        Some(ins) => {
            let k = insert_position(es, at, before);
            es.take(k) + ins + es.skip(k)
        },
    }
}

/// The elements of a copy: `insert` put in (see [`inserted_elements`]), then
/// every element that matches one of `remove` taken out.
pub open spec fn copied_elements(
    es: Seq<GrammarView>,
    insert: Option<Seq<GrammarView>>,
    at: Option<int>,
    before: Option<GrammarView>,
    remove: Option<Seq<GrammarView>>,
) -> Seq<GrammarView> {
    let s = inserted_elements(es, insert, at, before);
    match remove {
        None => s,
        Some(r) => s.filter(|e: GrammarView| !matches_any(e, r)),
    }
}

/// The terminators of a copy: the new ones alone, or the old ones followed by
/// the new ones.
pub open spec fn copied_terminators(
    own: Seq<GrammarView>,
    terminators: Seq<GrammarView>,
    replace_terminators: bool,
) -> Seq<GrammarView> {
    if replace_terminators {
        terminators
    } else {
        own + terminators
    }
}

/// Whether a copy with these settings can be made: an element that matches
/// `before` is there, and `at` lies inside the elements (where either fails,
/// `sqruff_lib_core` panics); and `before` and every element of `remove` are
/// references. `sqruff_lib_core` compares them with the elements by its own
/// equality of grammars; for references that equality is [`references_match`],
/// while for other grammars it depends on the identity of each parser value
/// (or panics, for regular-expression parsers), which no value states.
pub open spec fn copy_possible(
    es: Seq<GrammarView>,
    insert: Option<Seq<GrammarView>>,
    at: Option<int>,
    before: Option<GrammarView>,
    remove: Option<Seq<GrammarView>>,
) -> bool {
    &&& insert is Some ==> match before {
        Some(b) => sqruff_reference(b) is Some && exists|k: int| 0 <= k < es.len() && references_match(#[trigger] es[k], b),
        None => match at {
            Some(k) => 0 <= k <= es.len(),
            None => true,
        },
    }
    &&& match remove {
        Some(r) => all_references(r),
        None => true,
    }
}

impl Grammar {
    /// The mathematical value of the grammar.
    pub open spec fn model(&self) -> GrammarView
        decreases self, 0nat,
    {
        match self {
            Grammar::Ref { name, optional } => GrammarView::Ref { name: name@, optional: *optional },
            Grammar::Keyword { word } => GrammarView::Keyword { word: word@ },
            Grammar::Sequence { elements, terminators, parse_mode } => GrammarView::Sequence {
                elements: Grammar::model_all(elements),
                terminators: Grammar::model_all(terminators),
                parse_mode: *parse_mode,
            },
            Grammar::OneOf { elements, terminators } => GrammarView::OneOf {
                elements: Grammar::model_all(elements),
                terminators: Grammar::model_all(terminators),
            },
            Grammar::AnyNumberOf { elements, terminators, min_times, max_times } => GrammarView::AnyNumberOf {
                elements: Grammar::model_all(elements),
                terminators: Grammar::model_all(terminators),
                min_times: *min_times as nat,
                max_times: match max_times {
                    Some(m) => Some(*m as nat),
                    None => None,
                },
            },
            Grammar::Delimited { elements, allow_trailing, delimiter, terminators, allow_gaps } => GrammarView::Delimited {
                elements: Grammar::model_all(elements),
                allow_trailing: *allow_trailing,
                delimiter: match delimiter {
                    Some(d) => Some(Box::new(d.model())),
                    None => None,
                },
                terminators: Grammar::model_all(terminators),
                allow_gaps: *allow_gaps,
            },
            Grammar::Bracketed { elements, bracket_type } => GrammarView::Bracketed {
                elements: Grammar::model_all(elements),
                bracket_type: bracket_type@,
            },
            Grammar::Optional { grammar } => GrammarView::Optional { grammar: Box::new(grammar.model()) },
            Grammar::Exclude { grammar, exclude } => GrammarView::Exclude {
                grammar: Box::new(grammar.model()),
                exclude: Box::new(exclude.model()),
            },
            Grammar::Nothing => GrammarView::Nothing,
            Grammar::Anything => GrammarView::Anything,
            Grammar::StringParser { template, kind } => GrammarView::StringParser { template: template@, kind: kind@ },
            Grammar::TypedParser { template, kind } => GrammarView::TypedParser { template: template@, kind: kind@ },
            Grammar::RegexParser { pattern, kind, anti_template } => GrammarView::RegexParser {
                pattern: pattern@,
                kind: kind@,
                anti_template: match anti_template {
                    Some(a) => Some(word_set(a@)),
                    None => None,
                },
            },
            Grammar::MultiStringParser { templates, kind } => GrammarView::MultiStringParser {
                templates: word_set(templates@),
                kind: kind@,
            },
            Grammar::Indent => GrammarView::Indent,
            Grammar::Dedent => GrammarView::Dedent,
            Grammar::ImplicitIndent => GrammarView::ImplicitIndent,
            Grammar::WithoutGaps { grammar } => GrammarView::WithoutGaps { grammar: Box::new(grammar.model()) },
            Grammar::InMode { grammar, parse_mode } => GrammarView::InMode {
                grammar: Box::new(grammar.model()),
                parse_mode: *parse_mode,
            },
            Grammar::AnySetOf { elements } => GrammarView::AnySetOf { elements: Grammar::model_all(elements) },
            Grammar::Conditional { meta, setting } => GrammarView::Conditional {
                meta: Box::new(meta.model()),
                setting: setting@,
            },
        }
    }

    /// The values of the grammars in `gs`, in order.
    pub open spec fn model_all(gs: &Vec<Grammar>) -> Seq<GrammarView>
        decreases gs, 1nat,
    {
        Seq::new(
            gs.len() as nat,
            |i: int|
                if 0 <= i < gs.len() {
                    gs@[i].model()
                } else {
                    GrammarView::Indent
                },
        )
    }
}

impl View for Grammar {
    type V = GrammarView;

    open spec fn view(&self) -> GrammarView {
        self.model()
    }
}

/// The values of a list of grammars.
pub open spec fn views(gs: Seq<Grammar>) -> Seq<GrammarView> {
    Seq::new(gs.len(), |i: int| gs[i]@)
}

/// The children of a grammar have the values of the grammars they hold.
pub broadcast proof fn lemma_model_all(gs: &Vec<Grammar>)
    ensures
        #[trigger] Grammar::model_all(gs) == views(gs@),
{
    assert(Grammar::model_all(gs) =~= views(gs@));
}

/// A copy of a list of texts.
pub fn copy_words(ws: &Vec<&'static str>) -> (r: Vec<&'static str>)
    ensures
        r@ == ws@,
{
    let mut r: Vec<&'static str> = Vec::new();
    let mut i: usize = 0;
    while i < ws.len()
        invariant
            i <= ws.len(),
            r@ == ws@.take(i as int),
        decreases ws.len() - i,
    {
        r.push(ws[i]);
        assert(ws@.take(i + 1) =~= ws@.take(i as int).push(ws@[i as int]));
        i += 1;
    }
    assert(ws@.take(ws.len() as int) =~= ws@);
    r
}

impl Grammar {
    /// A mandatory reference to the dialect element `name`.
    pub fn reference(name: &'static str) -> (g: Grammar)
        ensures
            g@ == GrammarView::reference(name@),
    {
        Grammar::Ref { name, optional: false }
    }

    /// An optional reference to the dialect element `name`.
    pub fn optional_reference(name: &'static str) -> (g: Grammar)
        ensures
            g@ == GrammarView::optional_reference(name@),
    {
        Grammar::Ref { name, optional: true }
    }

    /// The keyword `word`.
    pub fn keyword(word: &'static str) -> (g: Grammar)
        ensures
            g@ == GrammarView::keyword(word@),
    {
        Grammar::Keyword { word }
    }

    /// The elements one after the other: strict, without terminators.
    pub fn sequence(elements: Vec<Grammar>) -> (g: Grammar)
        ensures
            g@ == GrammarView::sequence(views(elements@)),
    {
        broadcast use lemma_model_all;

        let ts: Vec<Grammar> = Vec::new();
        let g = Grammar::Sequence { elements, terminators: ts, parse_mode: ParseMode::Strict };
        assert(g@->Sequence_elements == Grammar::model_all(&elements));
        assert(g@->Sequence_elements =~= views(elements@));
        assert(g@->Sequence_terminators == Grammar::model_all(&ts));
        assert(g@->Sequence_terminators =~= Seq::<GrammarView>::empty());
        g
    }

    /// Exactly one of the elements, without terminators.
    pub fn one_of(elements: Vec<Grammar>) -> (g: Grammar)
        ensures
            g@ == GrammarView::one_of(views(elements@)),
    {
        broadcast use lemma_model_all;

        let ts: Vec<Grammar> = Vec::new();
        let g = Grammar::OneOf { elements, terminators: ts };
        assert(g@->OneOf_elements == Grammar::model_all(&elements));
        assert(g@->OneOf_elements =~= views(elements@));
        assert(g@->OneOf_terminators == Grammar::model_all(&ts));
        assert(g@->OneOf_terminators =~= Seq::<GrammarView>::empty());
        g
    }

    /// Between `min_times` and `max_times` of the elements, without terminators.
    pub fn any_number_of(elements: Vec<Grammar>, min_times: usize, max_times: Option<usize>) -> (g: Grammar)
        ensures
            g@ == (GrammarView::AnyNumberOf {
                elements: views(elements@),
                terminators: Seq::empty(),
                min_times: min_times as nat,
                max_times: match max_times {
                    Some(m) => Some(m as nat),
                    None => None,
                },
            }),
    {
        broadcast use lemma_model_all;

        let ts: Vec<Grammar> = Vec::new();
        let g = Grammar::AnyNumberOf { elements, terminators: ts, min_times, max_times };
        assert(g@->AnyNumberOf_elements == Grammar::model_all(&elements));
        assert(g@->AnyNumberOf_elements =~= views(elements@));
        assert(g@->AnyNumberOf_terminators == Grammar::model_all(&ts));
        assert(g@->AnyNumberOf_terminators =~= Seq::<GrammarView>::empty());
        g
    }

    /// A comma-separated list of the elements, without a trailing comma.
    pub fn delimited(elements: Vec<Grammar>) -> (g: Grammar)
        ensures
            g@ == GrammarView::delimited(views(elements@)),
    {
        broadcast use lemma_model_all;

        let ts: Vec<Grammar> = Vec::new();
        let g = Grammar::Delimited {
            elements,
            allow_trailing: false,
            delimiter: None,
            terminators: ts,
            allow_gaps: true,
        };
        assert(g@->Delimited_elements == Grammar::model_all(&elements));
        assert(g@->Delimited_elements =~= views(elements@));
        assert(g@->Delimited_terminators == Grammar::model_all(&ts));
        assert(g@->Delimited_terminators =~= Seq::<GrammarView>::empty());
        g
    }

    /// The elements one after the other inside round brackets.
    pub fn bracketed(elements: Vec<Grammar>) -> (g: Grammar)
        ensures
            g@ == (GrammarView::Bracketed { elements: views(elements@), bracket_type: "round"@ }),
    {
        broadcast use lemma_model_all;

        let g = Grammar::Bracketed { elements, bracket_type: "round" };
        assert(g@->Bracketed_elements == Grammar::model_all(&elements));
        assert(g@->Bracketed_elements =~= views(elements@));
        g
    }

    /// The grammar, which may also be left out.
    pub fn optional(self) -> (g: Grammar)
        ensures
            g@ == (GrammarView::Optional { grammar: Box::new(self@) }),
    {
        Grammar::Optional { grammar: Box::new(self) }
    }

    /// The grammar, where `exclude` does not match.
    pub fn exclude(self, exclude: Grammar) -> (g: Grammar)
        ensures
            g@ == (GrammarView::Exclude { grammar: Box::new(self@), exclude: Box::new(exclude@) }),
    {
        Grammar::Exclude { grammar: Box::new(self), exclude: Box::new(exclude) }
    }

    /// A segment whose text is `template`, as a segment of kind `kind`.
    pub fn string_parser(template: &'static str, kind: &'static str) -> (g: Grammar)
        ensures
            g@ == (GrammarView::StringParser { template: template@, kind: kind@ }),
    {
        Grammar::StringParser { template, kind }
    }

    /// A segment of kind `template`, as a segment of kind `kind`.
    pub fn typed_parser(template: &'static str, kind: &'static str) -> (g: Grammar)
        ensures
            g@ == (GrammarView::TypedParser { template: template@, kind: kind@ }),
    {
        Grammar::TypedParser { template, kind }
    }

    /// A segment that matches `pattern`, as a segment of kind `kind`.
    pub fn regex_parser(pattern: &'static str, kind: &'static str) -> (g: Grammar)
        ensures
            g@ == (GrammarView::RegexParser { pattern: pattern@, kind: kind@, anti_template: None }),
    {
        Grammar::RegexParser { pattern, kind, anti_template: None }
    }
}

impl Grammar {
    /// The sequence of the elements, up to one of the terminators, parsed in `parse_mode`.
    pub fn sequence_with(elements: Vec<Grammar>, terminators: Vec<Grammar>, parse_mode: ParseMode) -> (g: Grammar)
        ensures
            g@ == (GrammarView::Sequence { elements: views(elements@), terminators: views(terminators@), parse_mode }),
    {
        let ghost (e, t) = (elements, terminators);
        let g = Grammar::Sequence { elements, terminators, parse_mode };
        assert(g@->Sequence_elements == Grammar::model_all(&e));
        assert(g@->Sequence_terminators == Grammar::model_all(&t));
        proof {
            lemma_model_all(&e);
            lemma_model_all(&t);
        }
        g
    }

    /// One of the elements, up to one of the terminators.
    pub fn one_of_with(elements: Vec<Grammar>, terminators: Vec<Grammar>) -> (g: Grammar)
        ensures
            g@ == (GrammarView::OneOf { elements: views(elements@), terminators: views(terminators@) }),
    {
        let ghost (e, t) = (elements, terminators);
        let g = Grammar::OneOf { elements, terminators };
        assert(g@->OneOf_elements == Grammar::model_all(&e));
        assert(g@->OneOf_terminators == Grammar::model_all(&t));
        proof {
            lemma_model_all(&e);
            lemma_model_all(&t);
        }
        g
    }

    /// Between `min_times` and `max_times` of the elements, up to one of the terminators.
    pub fn any_number_of_with(
        elements: Vec<Grammar>,
        terminators: Vec<Grammar>,
        min_times: usize,
        max_times: Option<usize>,
    ) -> (g: Grammar)
        ensures
            g@ == (GrammarView::AnyNumberOf {
                elements: views(elements@),
                terminators: views(terminators@),
                min_times: min_times as nat,
                max_times: match max_times {
                    Some(m) => Some(m as nat),
                    None => None,
                },
            }),
    {
        let ghost (e, t) = (elements, terminators);
        let g = Grammar::AnyNumberOf { elements, terminators, min_times, max_times };
        assert(g@->AnyNumberOf_elements == Grammar::model_all(&e));
        assert(g@->AnyNumberOf_terminators == Grammar::model_all(&t));
        proof {
            lemma_model_all(&e);
            lemma_model_all(&t);
        }
        g
    }

    /// The list of the elements with all its settings.
    pub fn delimited_with(
        elements: Vec<Grammar>,
        allow_trailing: bool,
        delimiter: Option<Grammar>,
        terminators: Vec<Grammar>,
        allow_gaps: bool,
    ) -> (g: Grammar)
        ensures
            g@ == (GrammarView::Delimited {
                elements: views(elements@),
                allow_trailing,
                delimiter: match delimiter {
                    Some(d) => Some(Box::new(d@)),
                    None => None,
                },
                terminators: views(terminators@),
                allow_gaps,
            }),
    {
        let ghost (e, t) = (elements, terminators);
        let d = match delimiter {
            Some(d) => Some(Box::new(d)),
            None => None,
        };
        let g = Grammar::Delimited { elements, allow_trailing, delimiter: d, terminators, allow_gaps };
        assert(g@->Delimited_elements == Grammar::model_all(&e));
        assert(g@->Delimited_terminators == Grammar::model_all(&t));
        proof {
            lemma_model_all(&e);
            lemma_model_all(&t);
        }
        g
    }

    /// The elements inside brackets of `bracket_type`.
    pub fn bracketed_with(elements: Vec<Grammar>, bracket_type: &'static str) -> (g: Grammar)
        ensures
            g@ == (GrammarView::Bracketed { elements: views(elements@), bracket_type: bracket_type@ }),
    {
        let ghost e = elements;
        let g = Grammar::Bracketed { elements, bracket_type };
        assert(g@->Bracketed_elements == Grammar::model_all(&e));
        proof {
            lemma_model_all(&e);
        }
        g
    }
}

impl Grammar {
    /// Matches nothing.
    pub fn nothing() -> (g: Grammar)
        ensures
            g@ == GrammarView::Nothing,
    {
        Grammar::Nothing
    }

    /// Matches everything that is left.
    pub fn anything() -> (g: Grammar)
        ensures
            g@ == GrammarView::Anything,
    {
        Grammar::Anything
    }

    /// An indentation point.
    pub fn indent() -> (g: Grammar)
        ensures
            g@ == GrammarView::Indent,
    {
        Grammar::Indent
    }

    /// The end of an indented block.
    pub fn dedent() -> (g: Grammar)
        ensures
            g@ == GrammarView::Dedent,
    {
        Grammar::Dedent
    }

    /// The grammar, with no whitespace allowed between its parts.
    pub fn without_gaps(self) -> (g: Grammar)
        ensures
            g@ == (GrammarView::WithoutGaps { grammar: Box::new(self@) }),
    {
        Grammar::WithoutGaps { grammar: Box::new(self) }
    }

    /// The grammar, parsed in `parse_mode`.
    pub fn in_mode(self, parse_mode: ParseMode) -> (g: Grammar)
        ensures
            g@ == (GrammarView::InMode { grammar: Box::new(self@), parse_mode }),
    {
        Grammar::InMode { grammar: Box::new(self), parse_mode }
    }

    /// Any of the elements, each at most once, in any order.
    pub fn any_set_of(elements: Vec<Grammar>) -> (g: Grammar)
        ensures
            g@ == (GrammarView::AnySetOf { elements: views(elements@) }),
    {
        let ghost e = elements;
        let g = Grammar::AnySetOf { elements };
        assert(g@->AnySetOf_elements == Grammar::model_all(&e));
        proof {
            lemma_model_all(&e);
        }
        g
    }

    /// An indentation point that opens no new line.
    pub fn implicit_indent() -> (g: Grammar)
        ensures
            g@ == GrammarView::ImplicitIndent,
    {
        Grammar::ImplicitIndent
    }

    /// The layout point `meta`, in force where the layout setting `setting` is on.
    pub fn conditional(meta: Grammar, setting: &'static str) -> (g: Grammar)
        ensures
            g@ == (GrammarView::Conditional { meta: Box::new(meta@), setting: setting@ }),
    {
        Grammar::Conditional { meta: Box::new(meta), setting }
    }

    /// A segment that matches `pattern` but is none of `excluded`, as a
    /// segment of kind `kind`.
    pub fn regex_parser_excluding(pattern: &'static str, kind: &'static str, excluded: Vec<&'static str>) -> (g: Grammar)
        ensures
            g@ == (GrammarView::RegexParser { pattern: pattern@, kind: kind@, anti_template: Some(word_set(excluded@)) }),
    {
        Grammar::RegexParser { pattern, kind, anti_template: Some(excluded) }
    }
}

impl Grammar {
    /// The combinator with its terminators replaced by `terminators`.
    pub fn terminators(self, terminators: Vec<Grammar>) -> (g: Grammar)
        requires
            self is Sequence || self is OneOf || self is AnyNumberOf || self is Delimited,
        ensures
            g@ == self@.with_terminators(views(terminators@)),
    {
        broadcast use lemma_model_all;

        match self {
            Grammar::Sequence { elements, parse_mode, .. } => {
                let g = Grammar::Sequence { elements, terminators, parse_mode };
                assert(g@->Sequence_terminators == Grammar::model_all(&terminators));
                assert(g@->Sequence_terminators =~= views(terminators@));
                g
            },
            Grammar::OneOf { elements, .. } => {
                let g = Grammar::OneOf { elements, terminators };
                assert(g@->OneOf_terminators == Grammar::model_all(&terminators));
                assert(g@->OneOf_terminators =~= views(terminators@));
                g
            },
            Grammar::AnyNumberOf { elements, min_times, max_times, .. } => {
                let g = Grammar::AnyNumberOf { elements, terminators, min_times, max_times };
                assert(g@->AnyNumberOf_terminators == Grammar::model_all(&terminators));
                assert(g@->AnyNumberOf_terminators =~= views(terminators@));
                g
            },
            Grammar::Delimited { elements, allow_trailing, delimiter, allow_gaps, .. } => {
                let g = Grammar::Delimited { elements, allow_trailing, delimiter, terminators, allow_gaps };
                assert(g@->Delimited_terminators == Grammar::model_all(&terminators));
                assert(g@->Delimited_terminators =~= views(terminators@));
                g
            },
            other => other,
        }
    }

    /// The sequence, parsed greedily once something has matched.
    pub fn greedy_once_started(self) -> (g: Grammar)
        requires
            self is Sequence,
        ensures
            g@ == self@.with_parse_mode(ParseMode::GreedyOnceStarted),
    {
        match self {
            Grammar::Sequence { elements, terminators, .. } => Grammar::Sequence {
                elements,
                terminators,
                parse_mode: ParseMode::GreedyOnceStarted,
            },
            other => other,
        }
    }

    /// The list, allowing a trailing delimiter.
    pub fn allow_trailing(self) -> (g: Grammar)
        requires
            self is Delimited,
        ensures
            g@ == (GrammarView::Delimited {
                elements: self@->Delimited_elements,
                allow_trailing: true,
                delimiter: self@->Delimited_delimiter,
                terminators: self@->Delimited_terminators,
                allow_gaps: self@->Delimited_allow_gaps,
            }),
    {
        match self {
            Grammar::Delimited { elements, delimiter, terminators, allow_gaps, .. } => Grammar::Delimited {
                elements,
                allow_trailing: true,
                delimiter,
                terminators,
                allow_gaps,
            },
            other => other,
        }
    }

    /// The list, separated by `delimiter` and without gaps around it.
    pub fn delimiter_without_gaps(self, delimiter: Grammar) -> (g: Grammar)
        requires
            self is Delimited,
        ensures
            g@ == (GrammarView::Delimited {
                elements: self@->Delimited_elements,
                allow_trailing: self@->Delimited_allow_trailing,
                delimiter: Some(Box::new(delimiter@)),
                terminators: self@->Delimited_terminators,
                allow_gaps: false,
            }),
    {
        match self {
            Grammar::Delimited { elements, allow_trailing, terminators, .. } => Grammar::Delimited {
                elements,
                allow_trailing,
                delimiter: Some(Box::new(delimiter)),
                terminators,
                allow_gaps: false,
            },
            other => other,
        }
    }
}

impl Grammar {
    /// An independent copy of the grammar.
    pub fn duplicate(&self) -> (g: Grammar)
        ensures
            g@ == self@,
        decreases self,
    {
        broadcast use lemma_model_all;

        match self {
            Grammar::Ref { name, optional } => Grammar::Ref { name: *name, optional: *optional },
            Grammar::Keyword { word } => Grammar::Keyword { word: *word },
            Grammar::Sequence { elements, terminators, parse_mode } => {
                let es = duplicate_range(elements, 0, elements.len());
                let ts = duplicate_range(terminators, 0, terminators.len());
                let g = Grammar::Sequence { elements: es, terminators: ts, parse_mode: *parse_mode };
                assert(g@->Sequence_elements == Grammar::model_all(&es));
                assert(self@->Sequence_elements == Grammar::model_all(elements));
                assert(g@->Sequence_elements == self@->Sequence_elements);
                assert(g@->Sequence_terminators == Grammar::model_all(&ts));
                assert(self@->Sequence_terminators == Grammar::model_all(terminators));
                assert(g@->Sequence_terminators == self@->Sequence_terminators);
                g
            },
            Grammar::OneOf { elements, terminators } => {
                let es = duplicate_range(elements, 0, elements.len());
                let ts = duplicate_range(terminators, 0, terminators.len());
                let g = Grammar::OneOf { elements: es, terminators: ts };
                assert(g@->OneOf_elements == Grammar::model_all(&es));
                assert(self@->OneOf_elements == Grammar::model_all(elements));
                assert(g@->OneOf_elements == self@->OneOf_elements);
                assert(g@->OneOf_terminators == Grammar::model_all(&ts));
                assert(self@->OneOf_terminators == Grammar::model_all(terminators));
                assert(g@->OneOf_terminators == self@->OneOf_terminators);
                g
            },
            Grammar::AnyNumberOf { elements, terminators, min_times, max_times } => {
                let es = duplicate_range(elements, 0, elements.len());
                let ts = duplicate_range(terminators, 0, terminators.len());
                let g = Grammar::AnyNumberOf { elements: es, terminators: ts, min_times: *min_times, max_times: *max_times };
                assert(g@->AnyNumberOf_elements == Grammar::model_all(&es));
                assert(self@->AnyNumberOf_elements == Grammar::model_all(elements));
                assert(g@->AnyNumberOf_elements == self@->AnyNumberOf_elements);
                assert(g@->AnyNumberOf_terminators == Grammar::model_all(&ts));
                assert(self@->AnyNumberOf_terminators == Grammar::model_all(terminators));
                assert(g@->AnyNumberOf_terminators == self@->AnyNumberOf_terminators);
                g
            },
            Grammar::Delimited { elements, allow_trailing, delimiter, terminators, allow_gaps } => {
                let es = duplicate_range(elements, 0, elements.len());
                let ts = duplicate_range(terminators, 0, terminators.len());
                let d = match delimiter {
                    Some(d) => Some(Box::new((**d).duplicate())),
                    None => None,
                };
                let g = Grammar::Delimited {
                    elements: es,
                    allow_trailing: *allow_trailing,
                    delimiter: d,
                    terminators: ts,
                    allow_gaps: *allow_gaps,
                };
                assert(g@->Delimited_elements == Grammar::model_all(&es));
                assert(self@->Delimited_elements == Grammar::model_all(elements));
                assert(g@->Delimited_elements == self@->Delimited_elements);
                assert(g@->Delimited_terminators == Grammar::model_all(&ts));
                assert(self@->Delimited_terminators == Grammar::model_all(terminators));
                assert(g@->Delimited_terminators == self@->Delimited_terminators);
                g
            },
            Grammar::Bracketed { elements, bracket_type } => {
                let es = duplicate_range(elements, 0, elements.len());
                let g = Grammar::Bracketed { elements: es, bracket_type: *bracket_type };
                assert(g@->Bracketed_elements == Grammar::model_all(&es));
                assert(self@->Bracketed_elements == Grammar::model_all(elements));
                assert(g@->Bracketed_elements == self@->Bracketed_elements);
                g
            },
            Grammar::Optional { grammar } => Grammar::Optional { grammar: Box::new((**grammar).duplicate()) },
            Grammar::Exclude { grammar, exclude } => Grammar::Exclude {
                grammar: Box::new((**grammar).duplicate()),
                exclude: Box::new((**exclude).duplicate()),
            },
            Grammar::Nothing => Grammar::Nothing,
            Grammar::Anything => Grammar::Anything,
            Grammar::StringParser { template, kind } => Grammar::StringParser { template: *template, kind: *kind },
            Grammar::TypedParser { template, kind } => Grammar::TypedParser { template: *template, kind: *kind },
            Grammar::RegexParser { pattern, kind, anti_template } => {
                let a = match anti_template {
                    Some(a) => Some(copy_words(a)),
                    None => None,
                };
                Grammar::RegexParser { pattern: *pattern, kind: *kind, anti_template: a }
            },
            Grammar::MultiStringParser { templates, kind } => {
                let ts = copy_words(templates);
                Grammar::MultiStringParser { templates: ts, kind: *kind }
            },
            Grammar::Indent => Grammar::Indent,
            Grammar::Dedent => Grammar::Dedent,
            Grammar::ImplicitIndent => Grammar::ImplicitIndent,
            Grammar::WithoutGaps { grammar } => Grammar::WithoutGaps { grammar: Box::new((**grammar).duplicate()) },
            Grammar::InMode { grammar, parse_mode } => Grammar::InMode {
                grammar: Box::new((**grammar).duplicate()),
                parse_mode: *parse_mode,
            },
            Grammar::AnySetOf { elements } => {
                let es = duplicate_range(elements, 0, elements.len());
                let g = Grammar::AnySetOf { elements: es };
                assert(g@->AnySetOf_elements == Grammar::model_all(&es));
                assert(self@->AnySetOf_elements == Grammar::model_all(elements));
                g
            },
            Grammar::Conditional { meta, setting } => Grammar::Conditional {
                meta: Box::new((**meta).duplicate()),
                setting: *setting,
            },
        }
    }
}

/// Copies of the grammars `gs[lo..hi]`.
pub fn duplicate_range(gs: &Vec<Grammar>, lo: usize, hi: usize) -> (r: Vec<Grammar>)
    requires
        lo <= hi <= gs.len(),
    ensures
        views(r@) == views(gs@).subrange(lo as int, hi as int),
        lo == 0 && hi == gs.len() ==> views(r@) == views(gs@),
    decreases gs, 0nat,
{
    let mut r: Vec<Grammar> = Vec::new();
    let mut i = lo;
    while i < hi
        invariant
            lo <= i <= hi <= gs.len(),
            views(r@) == views(gs@).subrange(lo as int, i as int),
        decreases hi - i,
    {
        proof {
            assert(decreases_to!(gs => gs@[i as int]));
        }
        let g = gs[i].duplicate();
        let ghost before = r@;
        r.push(g);
        assert(views(r@) =~= views(before).push(g@));
        assert(views(gs@).subrange(lo as int, i + 1) =~= views(gs@).subrange(lo as int, i as int).push(gs@[i as int]@));
        i += 1;
    }
    assert(views(gs@).subrange(0, gs.len() as int) =~= views(gs@));
    r
}

/// Whether `w` is one of `ws`.
fn has_word(ws: &Vec<&'static str>, w: &str) -> (r: bool)
    ensures
        r == texts(ws@).contains(w@),
{
    let mut i: usize = 0;
    while i < ws.len()
        invariant
            i <= ws.len(),
            forall|j: int| 0 <= j < i ==> ws@[j]@ != w@,
        decreases ws.len() - i,
    {
        if same_text(ws[i], w) {
            assert(texts(ws@)[i as int] == w@);
            return true;
        }
        i += 1;
    }
    proof {
        if texts(ws@).contains(w@) {
            let j = choose|j: int| 0 <= j < texts(ws@).len() && texts(ws@)[j] == w@;
            assert(ws@[j]@ == w@);
        }
    }
    false
}

/// Whether each word of `a` is one of `b`.
fn all_words_in(a: &Vec<&'static str>, b: &Vec<&'static str>) -> (r: bool)
    ensures
        r == word_set(a@).subset_of(word_set(b@)),
{
    let mut i: usize = 0;
    while i < a.len()
        invariant
            i <= a.len(),
            forall|j: int| 0 <= j < i ==> texts(b@).contains(#[trigger] a@[j]@),
        decreases a.len() - i,
    {
        if !has_word(b, a[i]) {
            assert(texts(a@)[i as int] == a@[i as int]@);
            assert(word_set(a@).contains(a@[i as int]@));
            return false;
        }
        i += 1;
    }
    assert forall|w: Seq<char>| word_set(a@).contains(w) implies word_set(b@).contains(w) by {
        let j = choose|j: int| 0 <= j < texts(a@).len() && texts(a@)[j] == w;
        assert(a@[j]@ == w);
    }
    true
}

/// Whether two lists of words hold the same words.
fn same_word_sets(a: &Vec<&'static str>, b: &Vec<&'static str>) -> (r: bool)
    ensures
        r == (word_set(a@) == word_set(b@)),
{
    let x = all_words_in(a, b);
    let y = all_words_in(b, a);
    proof {
        if x && y {
            assert(word_set(a@) =~= word_set(b@));
        }
    }
    x && y
}

/// Whether two optional lists of words hold the same words.
fn same_option_words(a: &Option<Vec<&'static str>>, b: &Option<Vec<&'static str>>) -> (r: bool)
    ensures
        r == ((match a { Some(x) => Some(word_set(x@)), None => None::<Set<Seq<char>>> }) == (match b {
            Some(x) => Some(word_set(x@)),
            None => None::<Set<Seq<char>>>,
        })),
{
    match (a, b) {
        (Some(x), Some(y)) => same_word_sets(x, y),
        (None, None) => true,
        _ => false,
    }
}

/// Whether two lists of grammars have the same values.
fn same_all(a: &Vec<Grammar>, b: &Vec<Grammar>) -> (r: bool)
    ensures
        r == (views(a@) == views(b@)),
    decreases a, 0nat,
{
    if a.len() != b.len() {
        assert(views(a@).len() != views(b@).len());
        return false;
    }
    let mut i: usize = 0;
    while i < a.len()
        invariant
            a.len() == b.len(),
            i <= a.len(),
            forall|j: int| 0 <= j < i ==> a@[j]@ == b@[j]@,
        decreases a.len() - i,
    {
        proof {
            assert(decreases_to!(a => a@[i as int]));
        }
        if !a[i].same(&b[i]) {
            assert(views(a@)[i as int] != views(b@)[i as int]);
            return false;
        }
        i += 1;
    }
    assert(views(a@) =~= views(b@));
    true
}

fn same_mode(a: ParseMode, b: ParseMode) -> (r: bool)
    ensures
        r == (a == b),
{
    match (a, b) {
        (ParseMode::Strict, ParseMode::Strict) => true,
        (ParseMode::Greedy, ParseMode::Greedy) => true,
        (ParseMode::GreedyOnceStarted, ParseMode::GreedyOnceStarted) => true,
        _ => false,
    }
}

impl Grammar {
    /// Whether the two grammars have the same value.
    pub fn same(&self, other: &Grammar) -> (r: bool)
        ensures
            r == (self@ == other@),
        decreases self, 1nat,
    {
        broadcast use lemma_model_all;

        match (self, other) {
            (Grammar::Ref { name: a, optional: x }, Grammar::Ref { name: b, optional: y }) => same_text(a, b) && *x == *y,
            (Grammar::Keyword { word: a }, Grammar::Keyword { word: b }) => same_text(a, b),
            (
                Grammar::Sequence { elements: e1, terminators: t1, parse_mode: m1 },
                Grammar::Sequence { elements: e2, terminators: t2, parse_mode: m2 },
            ) => {
                proof { assert(self@->Sequence_elements == Grammar::model_all(e1)); assert(other@->Sequence_elements == Grammar::model_all(e2)); assert(self@->Sequence_terminators == Grammar::model_all(t1)); assert(other@->Sequence_terminators == Grammar::model_all(t2)); }
                same_all(e1, e2) && same_all(t1, t2) && same_mode(*m1, *m2)
            },
            (Grammar::OneOf { elements: e1, terminators: t1 }, Grammar::OneOf { elements: e2, terminators: t2 }) => {
                proof { assert(self@->OneOf_elements == Grammar::model_all(e1)); assert(other@->OneOf_elements == Grammar::model_all(e2)); assert(self@->OneOf_terminators == Grammar::model_all(t1)); assert(other@->OneOf_terminators == Grammar::model_all(t2)); }
                same_all(e1, e2) && same_all(t1, t2)
            },
            (
                Grammar::AnyNumberOf { elements: e1, terminators: t1, min_times: n1, max_times: x1 },
                Grammar::AnyNumberOf { elements: e2, terminators: t2, min_times: n2, max_times: x2 },
            ) => {
                let bounds = *n1 == *n2 && match (x1, x2) {
                    (Some(p), Some(q)) => *p == *q,
                    (None, None) => true,
                    _ => false,
                };
                proof { assert(self@->AnyNumberOf_elements == Grammar::model_all(e1)); assert(other@->AnyNumberOf_elements == Grammar::model_all(e2)); assert(self@->AnyNumberOf_terminators == Grammar::model_all(t1)); assert(other@->AnyNumberOf_terminators == Grammar::model_all(t2)); }
                bounds && same_all(e1, e2) && same_all(t1, t2)
            },
            (
                Grammar::Delimited { elements: e1, allow_trailing: a1, delimiter: d1, terminators: t1, allow_gaps: g1 },
                Grammar::Delimited { elements: e2, allow_trailing: a2, delimiter: d2, terminators: t2, allow_gaps: g2 },
            ) => {
                let ds = match (d1, d2) {
                    (Some(p), Some(q)) => (**p).same(&**q),
                    (None, None) => true,
                    _ => false,
                };
                proof { assert(self@->Delimited_elements == Grammar::model_all(e1)); assert(other@->Delimited_elements == Grammar::model_all(e2)); assert(self@->Delimited_terminators == Grammar::model_all(t1)); assert(other@->Delimited_terminators == Grammar::model_all(t2)); }
                *a1 == *a2 && *g1 == *g2 && ds && same_all(e1, e2) && same_all(t1, t2)
            },
            (Grammar::Bracketed { elements: e1, bracket_type: b1 }, Grammar::Bracketed { elements: e2, bracket_type: b2 }) => {
                proof { assert(self@->Bracketed_elements == Grammar::model_all(e1)); assert(other@->Bracketed_elements == Grammar::model_all(e2)); }
                same_text(b1, b2) && same_all(e1, e2)
            },
            (Grammar::Optional { grammar: a }, Grammar::Optional { grammar: b }) => (**a).same(&**b),
            (Grammar::Exclude { grammar: a, exclude: x }, Grammar::Exclude { grammar: b, exclude: y }) =>
                (**a).same(&**b) && (**x).same(&**y),
            (Grammar::Nothing, Grammar::Nothing) => true,
            (Grammar::Anything, Grammar::Anything) => true,
            (Grammar::StringParser { template: a, kind: k1 }, Grammar::StringParser { template: b, kind: k2 }) =>
                same_text(a, b) && same_text(k1, k2),
            (Grammar::TypedParser { template: a, kind: k1 }, Grammar::TypedParser { template: b, kind: k2 }) =>
                same_text(a, b) && same_text(k1, k2),
            (
                Grammar::RegexParser { pattern: a, kind: k1, anti_template: x },
                Grammar::RegexParser { pattern: b, kind: k2, anti_template: y },
            ) => same_text(a, b) && same_text(k1, k2) && same_option_words(x, y),
            (Grammar::MultiStringParser { templates: a, kind: k1 }, Grammar::MultiStringParser { templates: b, kind: k2 }) =>
                same_word_sets(a, b) && same_text(k1, k2),
            (Grammar::Indent, Grammar::Indent) => true,
            (Grammar::Dedent, Grammar::Dedent) => true,
            (Grammar::ImplicitIndent, Grammar::ImplicitIndent) => true,
            (Grammar::WithoutGaps { grammar: a }, Grammar::WithoutGaps { grammar: b }) => (**a).same(&**b),
            (Grammar::InMode { grammar: a, parse_mode: x }, Grammar::InMode { grammar: b, parse_mode: y }) =>
                same_mode(*x, *y) && (**a).same(&**b),
            (Grammar::AnySetOf { elements: e1 }, Grammar::AnySetOf { elements: e2 }) => {
                proof {
                    assert(self@->AnySetOf_elements == Grammar::model_all(e1));
                    assert(other@->AnySetOf_elements == Grammar::model_all(e2));
                }
                same_all(e1, e2)
            },
            (Grammar::Conditional { meta: a, setting: x }, Grammar::Conditional { meta: b, setting: y }) =>
                same_text(x, y) && (**a).same(&**b),
            _ => false,
        }
    }
}

proof fn lemma_views_add(a: Seq<Grammar>, b: Seq<Grammar>)
    ensures
        views(a + b) == views(a) + views(b),
{
    assert(views(a + b) =~= views(a) + views(b));
}

/// The reference that a grammar becomes in `sqruff_lib_core`; see
/// [`sqruff_reference`].
fn reference_of(g: &Grammar) -> (r: Option<(&'static str, bool)>)
    ensures
        match r {
            Some((n, o)) => sqruff_reference(g@) == Some((n@, o)),
            None => sqruff_reference(g@) is None,
        },
    decreases g,
{
    match g {
        Grammar::Ref { name, optional } => {
            assert(g@ == GrammarView::Ref { name: name@, optional: *optional });
            Some((*name, *optional))
        },
        Grammar::Keyword { word } => {
            assert(g@ == GrammarView::Keyword { word: word@ });
            Some((*word, false))
        },
        Grammar::Optional { grammar } => {
            let inner = reference_of(&**grammar);
            assert(g@ == GrammarView::Optional { grammar: Box::new(grammar@) });
            match inner {
                Some((n, _)) => Some((n, true)),
                None => None,
            }
        },
        Grammar::Exclude { grammar, exclude } => {
            assert(g@ == GrammarView::Exclude { grammar: Box::new(grammar@), exclude: Box::new(exclude@) });
            match &**grammar {
                Grammar::Ref { name, optional } => {
                    assert(grammar@ == GrammarView::Ref { name: name@, optional: *optional });
                    Some((*name, *optional))
                },
                _ => {
                    assert(!(grammar@ is Ref));
                    None
                },
            }
        },
        _ => {
            assert(!(g@ is Ref) && !(g@ is Keyword) && !(g@ is Optional) && !(g@ is Exclude));
            None
        },
    }
}

/// Whether `e` matches the reference `b`; see [`references_match`].
fn reference_matches(e: &Grammar, b: &Grammar) -> (r: bool)
    ensures
        r == references_match(e@, b@),
{
    match (reference_of(e), reference_of(b)) {
        (Some(x), Some(y)) => same_text(x.0, y.0) && x.1 == y.1,
        (None, Some(_)) => false,
        _ => false,
    }
}

/// The position of the first grammar of `gs` that matches the reference `b`.
fn position(gs: &Vec<Grammar>, b: &Grammar) -> (r: Option<usize>)
    ensures
        match r {
            Some(k) => k < gs.len() && k as int == first_index(views(gs@), b@) && references_match(views(gs@)[k as int], b@),
            None => forall|j: int| 0 <= j < gs.len() ==> !references_match(#[trigger] views(gs@)[j], b@),
        },
{
    let ghost es = views(gs@);
    let mut i: usize = 0;
    while i < gs.len()
        invariant
            i <= gs.len(),
            es == views(gs@),
            forall|j: int| 0 <= j < i ==> !references_match(#[trigger] es[j], b@),
        decreases gs.len() - i,
    {
        if reference_matches(&gs[i], b) {
            proof {
                let k = first_index(es, b@);
                assert(0 <= i < es.len() && references_match(es[i as int], b@) && forall|j: int|
                    0 <= j < i ==> !references_match(es[j], b@));
                if k != i as int {
                    if k < i {
                        assert(!references_match(es[k], b@));
                    } else {
                        assert(!references_match(es[i as int], b@));
                    }
                }
            }
            return Some(i);
        }
        i += 1;
    }
    None
}

/// Whether `g` matches one of the references `gs`.
fn matches_one_of(g: &Grammar, gs: &Vec<Grammar>) -> (r: bool)
    ensures
        r == matches_any(g@, views(gs@)),
{
    let mut i: usize = 0;
    while i < gs.len()
        invariant
            i <= gs.len(),
            forall|j: int| 0 <= j < i ==> !references_match(g@, #[trigger] views(gs@)[j]),
        decreases gs.len() - i,
    {
        if reference_matches(g, &gs[i]) {
            assert(references_match(g@, views(gs@)[i as int]));
            return true;
        }
        i += 1;
    }
    false
}

/// Copies of the grammars of `gs` that match none of the references `remove`.
fn remove_all(gs: &Vec<Grammar>, remove: &Vec<Grammar>) -> (r: Vec<Grammar>)
    ensures
        views(r@) == views(gs@).filter(|e: GrammarView| !matches_any(e, views(remove@))),
{
    let ghost p = |e: GrammarView| !matches_any(e, views(remove@));
    let ghost es = views(gs@);
    let mut r: Vec<Grammar> = Vec::new();
    let mut i: usize = 0;
    proof {
        reveal(Seq::filter);
        assert(es.take(0) =~= Seq::<GrammarView>::empty());
    }
    while i < gs.len()
        invariant
            i <= gs.len(),
            es == views(gs@),
            views(r@) == es.take(i as int).filter(p),
            p == (|e: GrammarView| !matches_any(e, views(remove@))),
        decreases gs.len() - i,
    {
        assert(es.take(i + 1).drop_last() =~= es.take(i as int));
        assert(es.take(i + 1).last() == es[i as int]);
        proof {
            reveal(Seq::filter);
        }
        if !matches_one_of(&gs[i], remove) {
            let g = gs[i].duplicate();
            let ghost before = r@;
            r.push(g);
            assert(views(r@) =~= views(before).push(es[i as int]));
        }
        i += 1;
    }
    assert(es.take(gs.len() as int) =~= es);
    r
}

/// The elements of a copy with `insert` put in; see [`inserted_elements`].
fn insert_elements(
    elements: &Vec<Grammar>,
    insert: Option<Vec<Grammar>>,
    at: Option<usize>,
    before: Option<&Grammar>,
) -> (r: Vec<Grammar>)
    requires
        copy_possible(
            views(elements@),
            match insert { Some(v) => Some(views(v@)), None => None },
            match at { Some(k) => Some(k as int), None => None },
            match before { Some(b) => Some(b@), None => None },
            None,
        ),
    ensures
        views(r@) == inserted_elements(
            views(elements@),
            match insert { Some(v) => Some(views(v@)), None => None },
            match at { Some(k) => Some(k as int), None => None },
            match before { Some(b) => Some(b@), None => None },
        ),
{
    let ghost es = views(elements@);
    match insert {
        None => duplicate_range(elements, 0, elements.len()),
        Some(ins) => {
            let k = match before {
                Some(b) => {
                    match position(elements, b) {
                        Some(k) => k,
                        None => elements.len(),
                    }
                },
                None => match at {
                    Some(k) => k,
                    None => elements.len(),
                },
            };
            assert(k as int == insert_position(
                es,
                match at { Some(k) => Some(k as int), None => None },
                match before { Some(b) => Some(b@), None => None },
            ));
            let mut head = duplicate_range(elements, 0, k);
            let mut ins = ins;
            let mut tail = duplicate_range(elements, k, elements.len());
            let ghost (h0, i0, t0) = (head@, ins@, tail@);
            head.append(&mut ins);
            head.append(&mut tail);
            proof {
                lemma_views_add(h0, i0);
                lemma_views_add(h0 + i0, t0);
                assert(es.subrange(0, k as int) == es.take(k as int));
                assert(es.subrange(k as int, es.len() as int) == es.skip(k as int));
            }
            head
        },
    }
}

/// The terminators of a copy; see [`copied_terminators`].
fn copy_terminators(own: &Vec<Grammar>, terminators: Vec<Grammar>, replace_terminators: bool) -> (r: Vec<Grammar>)
    ensures
        views(r@) == copied_terminators(views(own@), views(terminators@), replace_terminators),
{
    if replace_terminators {
        terminators
    } else {
        let mut t = duplicate_range(own, 0, own.len());
        let mut extra = terminators;
        let ghost (t0, e0) = (t@, extra@);
        t.append(&mut extra);
        proof {
            lemma_views_add(t0, e0);
        }
        t
    }
}

/// The elements of a copy; see [`copied_elements`].
fn copy_elements(
    elements: &Vec<Grammar>,
    insert: Option<Vec<Grammar>>,
    at: Option<usize>,
    before: Option<&Grammar>,
    remove: Option<&Vec<Grammar>>,
) -> (r: Vec<Grammar>)
    requires
        copy_possible(
            views(elements@),
            match insert { Some(v) => Some(views(v@)), None => None },
            match at { Some(k) => Some(k as int), None => None },
            match before { Some(b) => Some(b@), None => None },
            match remove { Some(v) => Some(views(v@)), None => None },
        ),
    ensures
        views(r@) == copied_elements(
            views(elements@),
            match insert { Some(v) => Some(views(v@)), None => None },
            match at { Some(k) => Some(k as int), None => None },
            match before { Some(b) => Some(b@), None => None },
            match remove { Some(v) => Some(views(v@)), None => None },
        ),
{
    let s = insert_elements(elements, insert, at, before);
    match remove {
        None => s,
        Some(rm) => remove_all(&s, rm),
    }
}

impl Grammar {
    /// The copy of a sequence, choice, repetition or list that `copy` makes in
    /// `sqruff_lib_core`; see [`GrammarView::copied`] and [`copy_possible`]
    /// for the settings it takes.
    pub fn copy(
        &self,
        insert: Option<Vec<Grammar>>,
        at: Option<usize>,
        before: Option<&Grammar>,
        remove: Option<&Vec<Grammar>>,
        terminators: Vec<Grammar>,
        replace_terminators: bool,
    ) -> (g: Grammar)
        requires
            self@.copyable(),
            copy_possible(
                self@.elements(),
                match insert { Some(v) => Some(views(v@)), None => None },
                match at { Some(k) => Some(k as int), None => None },
                match before { Some(b) => Some(b@), None => None },
                match remove { Some(v) => Some(views(v@)), None => None },
            ),
        ensures
            g@ == self@.copied(
                match insert { Some(v) => Some(views(v@)), None => None },
                match at { Some(k) => Some(k as int), None => None },
                match before { Some(b) => Some(b@), None => None },
                match remove { Some(v) => Some(views(v@)), None => None },
                views(terminators@),
                replace_terminators,
            ),
    {
        broadcast use lemma_model_all;

        match self {
            Grammar::Sequence { elements, terminators: own, parse_mode } => {
                assert(self@->Sequence_elements == Grammar::model_all(elements));
                assert(self@->Sequence_terminators == Grammar::model_all(own));
                let es = copy_elements(elements, insert, at, before, remove);
                let ts = copy_terminators(own, terminators, replace_terminators);
                let g = Grammar::Sequence { elements: es, terminators: ts, parse_mode: *parse_mode };
                assert(g@->Sequence_elements == Grammar::model_all(&es));
                assert(g@->Sequence_terminators == Grammar::model_all(&ts));
                g
            },
            Grammar::OneOf { elements, terminators: own } => {
                assert(self@->OneOf_elements == Grammar::model_all(elements));
                assert(self@->OneOf_terminators == Grammar::model_all(own));
                let es = copy_elements(elements, insert, at, before, remove);
                let ts = copy_terminators(own, terminators, replace_terminators);
                let g = Grammar::OneOf { elements: es, terminators: ts };
                assert(g@->OneOf_elements == Grammar::model_all(&es));
                assert(g@->OneOf_terminators == Grammar::model_all(&ts));
                g
            },
            Grammar::AnyNumberOf { elements, terminators: own, min_times, max_times } => {
                assert(self@->AnyNumberOf_elements == Grammar::model_all(elements));
                assert(self@->AnyNumberOf_terminators == Grammar::model_all(own));
                let es = copy_elements(elements, insert, at, before, remove);
                let ts = copy_terminators(own, terminators, replace_terminators);
                let g = Grammar::AnyNumberOf { elements: es, terminators: ts, min_times: *min_times, max_times: *max_times };
                assert(g@->AnyNumberOf_elements == Grammar::model_all(&es));
                assert(g@->AnyNumberOf_terminators == Grammar::model_all(&ts));
                g
            },
            Grammar::Delimited { elements, allow_trailing, delimiter, terminators: own, allow_gaps } => {
                assert(self@->Delimited_elements == Grammar::model_all(elements));
                assert(self@->Delimited_terminators == Grammar::model_all(own));
                let es = copy_elements(elements, insert, at, before, remove);
                let ts = copy_terminators(own, terminators, replace_terminators);
                let d = match delimiter {
                    Some(d) => Some(Box::new((**d).duplicate())),
                    None => None,
                };
                let g = Grammar::Delimited { elements: es, allow_trailing: *allow_trailing, delimiter: d, terminators: ts, allow_gaps: *allow_gaps };
                assert(g@->Delimited_elements == Grammar::model_all(&es));
                assert(g@->Delimited_terminators == Grammar::model_all(&ts));
                g
            },
            _ => self.duplicate(),
        }
    }
}


/// A copy that inserts nothing, removes nothing and adds no terminators is
/// the grammar itself.
pub proof fn law_copy_without_changes(g: GrammarView)
    requires
        g.copyable(),
    ensures
        g.copied(None, None, None, None, Seq::empty(), false) == g,
{
    assert(g.elements() + Seq::<GrammarView>::empty() =~= g.elements());
    match g {
        GrammarView::Sequence { terminators, .. } => assert(terminators + Seq::<GrammarView>::empty() =~= terminators),
        GrammarView::OneOf { terminators, .. } => assert(terminators + Seq::<GrammarView>::empty() =~= terminators),
        GrammarView::AnyNumberOf { terminators, .. } => assert(terminators + Seq::<GrammarView>::empty() =~= terminators),
        GrammarView::Delimited { terminators, .. } => assert(terminators + Seq::<GrammarView>::empty() =~= terminators),
        _ => {},
    }
}

/// Inserting in front of a reference keeps the original elements, in order,
/// around the inserted ones: those before the first element that matches
/// `before`, then the inserted ones, then that element and those after it.
pub proof fn law_copy_inserts_before(g: GrammarView, insert: Seq<GrammarView>, before: GrammarView, i: int)
    requires
        g.copyable(),
        0 <= i < g.elements().len(),
        references_match(g.elements()[i], before),
    ensures
        ({
            let k = first_index(g.elements(), before);
            let c = g.copied(Some(insert), None, Some(before), None, Seq::empty(), false);
            &&& 0 <= k <= i
            &&& references_match(g.elements()[k], before)
            &&& c.elements() == g.elements().take(k) + insert + g.elements().skip(k)
            &&& c.elements()[k + insert.len()] == g.elements()[k]
        }),
{
    let es = g.elements();
    lemma_least_index(es, before, i);
    let k = first_index(es, before);
    if k > i {
        assert(!references_match(es[i], before));
    }
    let r = es.take(k) + insert + es.skip(k);
    assert(r[k + insert.len()] == es[k]);
}

proof fn lemma_least_index(es: Seq<GrammarView>, b: GrammarView, i: int)
    requires
        0 <= i < es.len(),
        references_match(es[i], b),
    ensures
        exists|k: int| 0 <= k < es.len() && references_match(es[k], b) && forall|j: int| 0 <= j < k ==> !references_match(es[j], b),
    decreases i,
{
    if exists|j: int| 0 <= j < i && references_match(es[j], b) {
        let j = choose|j: int| 0 <= j < i && references_match(es[j], b);
        lemma_least_index(es, b, j);
    } else {
        assert(forall|j: int| 0 <= j < i ==> !references_match(es[j], b));
    }
}

} // verus!
