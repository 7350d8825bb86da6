//! The lexer rules of a dialect, as plain values: which token each rule
//! produces and how it recognises it. The lexer tries the rules in order, so
//! the order of a table is part of its meaning; rules are found again by their
//! names, which a table keeps distinct.

use crate::text::same_text;
use vstd::prelude::*;

verus! {

/// The kind of token that a lexer rule produces.
#[derive(Clone, Copy, Debug, PartialEq, Eq, Structural)]
pub enum TokenKind {
    Whitespace,
    InlineComment,
    BlockComment,
    Newline,
    SingleQuote,
    DoubleQuote,
    BackQuote,
    DollarQuote,
    NumericLiteral,
    LikeOperator,
    CastingOperator,
    RawComparisonOperator,
    Dot,
    Comma,
    Plus,
    Minus,
    Divide,
    Percent,
    Question,
    Ampersand,
    VerticalBar,
    Caret,
    Star,
    StartBracket,
    EndBracket,
    StartSquareBracket,
    EndSquareBracket,
    StartCurlyBracket,
    EndCurlyBracket,
    Colon,
    Semicolon,
    Word,
    RightArrow,
    QuestionMark,
    AtSignLiteral,
    Lambda,
}

/// A scanner that runs natively on the lexer's cursor.
#[derive(Clone, Copy, Debug, PartialEq, Eq, Structural)]
pub enum Scanner {
    /// [`crate::lexer::numeric_literal`].
    NumericLiteral,
    /// [`crate::lexer::block_comment`].
    BlockComment,
}

/// The quick test that a regular-expression rule of the older kind makes on
/// the remaining input before it runs its expression.
#[derive(Clone, Copy, Debug, PartialEq, Eq, Structural)]
pub enum StartTest {
    /// Always passes.
    Anything,
    /// The input starts with `$`.
    DollarSign,
    /// The input starts with `'`, `R`, `r`, `B` or `b`.
    QuoteOrStringPrefix,
    /// The input starts with `"`, `R`, `r`, `B` or `b`.
    DoubleQuoteOrStringPrefix,
}

/// How a rule recognises its token.
#[derive(Clone, Copy, Debug)]
pub enum Recogniser {
    /// Exactly this text.
    Literal(&'static str),
    /// The longest match of this regular expression at the start.
    Regex(&'static str),
    /// A native scanner.
    Native(Scanner),
    /// The start test, then this regular expression anchored at the start.
    Legacy(StartTest, &'static str),
}

/// A named pattern that produces one kind of token.
#[derive(Clone, Copy, Debug)]
pub struct LexPattern {
    pub name: &'static str,
    pub recogniser: Recogniser,
    pub token: TokenKind,
}

/// A lexer rule: a pattern, and optionally the patterns that split what it
/// matched into finer tokens (the subdivider) and trim the pieces (the
/// trimmer).
#[derive(Clone, Copy, Debug)]
pub struct LexRule {
    pub pattern: LexPattern,
    pub subdivider: Option<LexPattern>,
    pub trimmer: Option<LexPattern>,
}

/// The value of a [`Recogniser`].
pub enum RecogniserView {
    Literal(Seq<char>),
    Regex(Seq<char>),
    Native(Scanner),
    Legacy(StartTest, Seq<char>),
}

/// The value of a [`LexPattern`].
pub struct LexPatternView {
    pub name: Seq<char>,
    pub recogniser: RecogniserView,
    pub token: TokenKind,
}

/// The value of a [`LexRule`].
pub struct LexRuleView {
    pub pattern: LexPatternView,
    pub subdivider: Option<LexPatternView>,
    pub trimmer: Option<LexPatternView>,
}

impl View for Recogniser {
    type V = RecogniserView;

    open spec fn view(&self) -> RecogniserView {
        match self {
            Recogniser::Literal(t) => RecogniserView::Literal(t@),
            Recogniser::Regex(r) => RecogniserView::Regex(r@),
            Recogniser::Native(s) => RecogniserView::Native(*s),
            Recogniser::Legacy(t, r) => RecogniserView::Legacy(*t, r@),
        }
    }
}

impl View for LexPattern {
    type V = LexPatternView;

    open spec fn view(&self) -> LexPatternView {
        LexPatternView { name: self.name@, recogniser: self.recogniser@, token: self.token }
    }
}

/// The value of an optional pattern.
pub open spec fn pattern_view(p: Option<LexPattern>) -> Option<LexPatternView> {
    match p {
        Some(p) => Some(p@),
        None => None,
    }
}

impl View for LexRule {
    type V = LexRuleView;

    open spec fn view(&self) -> LexRuleView {
        LexRuleView {
            pattern: self.pattern@,
            subdivider: pattern_view(self.subdivider),
            trimmer: pattern_view(self.trimmer),
        }
    }
}

impl LexRuleView {
    /// The name under which the rule is found.
    pub open spec fn name(self) -> Seq<char> {
        self.pattern.name
    }

    /// A rule for the literal text `template`.
    pub open spec fn literal(name: Seq<char>, template: Seq<char>, token: TokenKind) -> LexRuleView {
        LexRuleView {
            pattern: LexPatternView { name, recogniser: RecogniserView::Literal(template), token },
            subdivider: None,
            trimmer: None,
        }
    }

    /// A rule for the regular expression `regex`.
    pub open spec fn regex(name: Seq<char>, regex: Seq<char>, token: TokenKind) -> LexRuleView {
        LexRuleView {
            pattern: LexPatternView { name, recogniser: RecogniserView::Regex(regex), token },
            subdivider: None,
            trimmer: None,
        }
    }

    /// A rule with a start test and an anchored regular expression.
    pub open spec fn legacy(name: Seq<char>, test: StartTest, regex: Seq<char>, token: TokenKind) -> LexRuleView {
        LexRuleView {
            pattern: LexPatternView { name, recogniser: RecogniserView::Legacy(test, regex), token },
            subdivider: None,
            trimmer: None,
        }
    }

    /// A rule run by a native scanner.
    pub open spec fn native(name: Seq<char>, scanner: Scanner, token: TokenKind) -> LexRuleView {
        LexRuleView {
            pattern: LexPatternView { name, recogniser: RecogniserView::Native(scanner), token },
            subdivider: None,
            trimmer: None,
        }
    }
}

/// The values of the rules of a table, in order.
pub open spec fn rules_view(rules: Seq<LexRule>) -> Seq<LexRuleView> {
    rules.map_values(|r: LexRule| r@)
}

/// The names of the rules of a table, in order.
pub open spec fn rule_names(rules: Seq<LexRuleView>) -> Seq<Seq<char>> {
    rules.map_values(|r: LexRuleView| r.name())
}

/// No two rules of the table share a name.
pub open spec fn names_distinct(rules: Seq<LexRuleView>) -> bool {
    forall|i: int, j: int|
        0 <= i < rules.len() && 0 <= j < rules.len() && i != j ==> #[trigger] rules[i].name()
            != #[trigger] rules[j].name()
}

impl LexPattern {
    /// A pattern with a start test and an anchored regular expression.
    pub fn legacy(name: &'static str, test: StartTest, regex: &'static str, token: TokenKind) -> (p: LexPattern)
        ensures
            p@ == (LexPatternView { name: name@, recogniser: RecogniserView::Legacy(test, regex@), token }),
    {
        LexPattern { name, recogniser: Recogniser::Legacy(test, regex), token }
    }
}

impl LexRule {
    /// A rule for the literal text `template`.
    pub fn literal(name: &'static str, template: &'static str, token: TokenKind) -> (r: LexRule)
        ensures
            r@ == LexRuleView::literal(name@, template@, token),
    {
        LexRule {
            pattern: LexPattern { name, recogniser: Recogniser::Literal(template), token },
            subdivider: None,
            trimmer: None,
        }
    }

    /// A rule for the regular expression `regex`.
    pub fn regex(name: &'static str, regex: &'static str, token: TokenKind) -> (r: LexRule)
        ensures
            r@ == LexRuleView::regex(name@, regex@, token),
    {
        LexRule {
            pattern: LexPattern { name, recogniser: Recogniser::Regex(regex), token },
            subdivider: None,
            trimmer: None,
        }
    }

    /// A rule with a start test and an anchored regular expression.
    pub fn legacy(name: &'static str, test: StartTest, regex: &'static str, token: TokenKind) -> (r: LexRule)
        ensures
            r@ == LexRuleView::legacy(name@, test, regex@, token),
    {
        LexRule { pattern: LexPattern::legacy(name, test, regex, token), subdivider: None, trimmer: None }
    }

    /// A rule run by a native scanner.
    pub fn native(name: &'static str, scanner: Scanner, token: TokenKind) -> (r: LexRule)
        ensures
            r@ == LexRuleView::native(name@, scanner, token),
    {
        LexRule {
            pattern: LexPattern { name, recogniser: Recogniser::Native(scanner), token },
            subdivider: None,
            trimmer: None,
        }
    }

    /// The rule with `subdivider` splitting what it matches. Only rules run by
    /// a native scanner or of the older regular-expression kind take one.
    pub fn subdivider(self, subdivider: LexPattern) -> (r: LexRule)
        requires
            self.pattern.recogniser is Native || self.pattern.recogniser is Legacy,
        ensures
            r@ == (LexRuleView { subdivider: Some(subdivider@), ..self@ }),
    {
        LexRule { subdivider: Some(subdivider), ..self }
    }

    /// The rule with `trimmer` trimming the pieces of what it matches. Only
    /// rules run by a native scanner or of the older regular-expression kind
    /// take one.
    pub fn post_subdivide(self, trimmer: LexPattern) -> (r: LexRule)
        requires
            self.pattern.recogniser is Native || self.pattern.recogniser is Legacy,
        ensures
            r@ == (LexRuleView { trimmer: Some(trimmer@), ..self@ }),
    {
        LexRule { trimmer: Some(trimmer), ..self }
    }
}

/// The table after `insert_lexer_matchers(patch, before)`: the rules of
/// `patch` go in, in order, in front of every rule named `before`.
pub open spec fn inserted(rules: Seq<LexRuleView>, patch: Seq<LexRuleView>, before: Seq<char>) -> Seq<LexRuleView>
    decreases rules.len(),
{
    if rules.len() == 0 {
        Seq::empty()
    } else {
        let last = rules.last();
        inserted(rules.drop_last(), patch, before) + if last.name() == before {
            patch.push(last)
        } else {
            seq![last]
        }
    }
}

/// The rule of `patch` that replaces a rule named `name`: the last rule of
/// `patch` with that name, if there is one.
pub open spec fn replacement(patch: Seq<LexRuleView>, name: Seq<char>) -> Option<LexRuleView>
    decreases patch.len(),
{
    if patch.len() == 0 {
        None
    } else if patch.last().name() == name {
        Some(patch.last())
    } else {
        replacement(patch.drop_last(), name)
    }
}

/// A rule after patching: its replacement, or itself when it has none.
pub open spec fn patched_rule(patch: Seq<LexRuleView>, rule: LexRuleView) -> LexRuleView {
    match replacement(patch, rule.name()) {
        Some(p) => p,
        None => rule,
    }
}

/// The table after `patch_lexer_matchers(patch)`: each rule that has a
/// replacement in `patch` is replaced by it, in place.
pub open spec fn patched(rules: Seq<LexRuleView>, patch: Seq<LexRuleView>) -> Seq<LexRuleView> {
    rules.map_values(|r: LexRuleView| patched_rule(patch, r))
}

proof fn lemma_inserted_len(rules: Seq<LexRuleView>, patch: Seq<LexRuleView>, before: Seq<char>)
    ensures
        inserted(rules, patch, before).len() >= rules.len(),
    decreases rules.len(),
{
    if rules.len() > 0 {
        lemma_inserted_len(rules.drop_last(), patch, before);
    }
}

proof fn lemma_rules_view_push(rules: Seq<LexRule>, r: LexRule)
    ensures
        rules_view(rules.push(r)) == rules_view(rules).push(r@),
{
    assert(rules_view(rules.push(r)) =~= rules_view(rules).push(r@));
}

/// Puts the rules of `patch`, in order, in front of every rule named `before`
/// (as `Dialect::insert_lexer_matchers` does). The table must not be empty and
/// must hold a rule named `before`.
pub fn insert_lexer_rules(rules: &mut Vec<LexRule>, patch: Vec<LexRule>, before: &str)
    requires
        old(rules)@.len() > 0,
        rule_names(rules_view(old(rules)@)).contains(before@),
    ensures
        rules_view(final(rules)@) == inserted(rules_view(old(rules)@), rules_view(patch@), before@),
        final(rules)@.len() >= old(rules)@.len(),
{
    let ghost old_rules = rules_view(rules@);
    let ghost pv = rules_view(patch@);
    let mut buff: Vec<LexRule> = Vec::new();
    let mut i: usize = 0;
    while i < rules.len()
        invariant
            i <= rules@.len(),
            rules_view(rules@) == old_rules,
            pv == rules_view(patch@),
            rules_view(buff@) == inserted(old_rules.take(i as int), pv, before@),
        decreases rules@.len() - i,
    {
        let elem = rules[i];
        assert(old_rules.take(i + 1).drop_last() =~= old_rules.take(i as int));
        assert(old_rules.take(i + 1).last() == elem@);
        if same_text(elem.pattern.name, before) {
            let ghost start = buff@;
            let mut j: usize = 0;
            while j < patch.len()
                invariant
                    j <= patch@.len(),
                    pv == rules_view(patch@),
                    rules_view(buff@) == rules_view(start) + pv.take(j as int),
                decreases patch@.len() - j,
            {
                let ghost b0 = buff@;
                buff.push(patch[j]);
                proof {
                    lemma_rules_view_push(b0, patch@[j as int]);
                    assert(pv.take(j + 1) =~= pv.take(j as int).push(pv[j as int]));
                }
                j += 1;
            }
            let ghost b1 = buff@;
            buff.push(elem);
            proof {
                lemma_rules_view_push(b1, elem);
                assert(pv.take(pv.len() as int) =~= pv);
                assert(rules_view(buff@) =~= rules_view(start) + pv.push(elem@));
            }
        } else {
            let ghost b0 = buff@;
            buff.push(elem);
            proof {
                lemma_rules_view_push(b0, elem);
                assert(rules_view(buff@) =~= rules_view(b0) + seq![elem@]);
            }
        }
        i += 1;
    }
    assert(old_rules.take(rules@.len() as int) =~= old_rules);
    proof {
        lemma_inserted_len(old_rules, pv, before@);
    }
    *rules = buff;
}

/// Finds the rule of `patch` that replaces a rule named `name`.
fn find_replacement(patch: &Vec<LexRule>, name: &str) -> (r: Option<LexRule>)
    ensures
        pattern_rule_view(r) == replacement(rules_view(patch@), name@),
{
    let mut j = patch.len();
    assert(rules_view(patch@).take(j as int) =~= rules_view(patch@));
    while j > 0
        invariant
            j <= patch@.len(),
            replacement(rules_view(patch@), name@) == replacement(rules_view(patch@).take(j as int), name@),
        decreases j,
    {
        let candidate = patch[j - 1];
        let ghost t = rules_view(patch@).take(j as int);
        assert(t.last() == candidate@);
        assert(t.drop_last() =~= rules_view(patch@).take(j - 1));
        if same_text(candidate.pattern.name, name) {
            return Some(candidate);
        }
        j -= 1;
    }
    None
}

/// The value of an optional rule.
pub open spec fn pattern_rule_view(r: Option<LexRule>) -> Option<LexRuleView> {
    match r {
        Some(r) => Some(r@),
        None => None,
    }
}

/// Replaces, in place, each rule that `patch` holds a rule of the same name
/// for, by the last such rule of `patch` (as `Dialect::patch_lexer_matchers`
/// does). The table must not be empty.
pub fn patch_lexer_rules(rules: &mut Vec<LexRule>, patch: Vec<LexRule>)
    requires
        old(rules)@.len() > 0,
    ensures
        rules_view(final(rules)@) == patched(rules_view(old(rules)@), rules_view(patch@)),
{
    let ghost old_rules = rules_view(rules@);
    let ghost pv = rules_view(patch@);
    let mut buff: Vec<LexRule> = Vec::new();
    let mut i: usize = 0;
    while i < rules.len()
        invariant
            i <= rules@.len(),
            rules_view(rules@) == old_rules,
            pv == rules_view(patch@),
            rules_view(buff@) == patched(old_rules.take(i as int), pv),
        decreases rules@.len() - i,
    {
        let elem = rules[i];
        let chosen = match find_replacement(&patch, elem.pattern.name) {
            Some(p) => p,
            None => elem,
        };
        let ghost b0 = buff@;
        buff.push(chosen);
        proof {
            lemma_rules_view_push(b0, chosen);
            assert(patched(old_rules.take(i + 1), pv) =~= patched(old_rules.take(i as int), pv).push(
                patched_rule(pv, elem@),
            ));
        }
        i += 1;
    }
    assert(old_rules.take(rules@.len() as int) =~= old_rules);
    *rules = buff;
}

proof fn lemma_replacement_name(patch: Seq<LexRuleView>, name: Seq<char>)
    ensures
        replacement(patch, name) matches Some(p) ==> p.name() == name,
    decreases patch.len(),
{
    if patch.len() > 0 && patch.last().name() != name {
        lemma_replacement_name(patch.drop_last(), name);
    }
}

/// Patching keeps the table's length and the name of every rule: a rule is
/// only ever replaced by one of the same name.
pub proof fn law_patch_keeps_names(rules: Seq<LexRuleView>, patch: Seq<LexRuleView>)
    ensures
        rule_names(patched(rules, patch)) == rule_names(rules),
        names_distinct(rules) ==> names_distinct(patched(rules, patch)),
{
    assert forall|i: int| 0 <= i < rules.len() implies #[trigger] patched(rules, patch)[i].name() == rules[i].name() by {
        lemma_replacement_name(patch, rules[i].name());
    }
    assert(rule_names(patched(rules, patch)) =~= rule_names(rules));
}

proof fn lemma_inserted_absent(rules: Seq<LexRuleView>, patch: Seq<LexRuleView>, before: Seq<char>)
    requires
        forall|i: int| 0 <= i < rules.len() ==> #[trigger] rules[i].name() != before,
    ensures
        inserted(rules, patch, before) == rules,
    decreases rules.len(),
{
    if rules.len() > 0 {
        lemma_inserted_absent(rules.drop_last(), patch, before);
        assert(rules.drop_last() + seq![rules.last()] =~= rules);
    }
}

/// In a table whose rules have distinct names, inserting in front of the rule
/// named `before` puts the new rules there and only there: the rules in front
/// of it, then the new rules, then that rule and the ones after it.
pub proof fn law_insert_in_front(rules: Seq<LexRuleView>, patch: Seq<LexRuleView>, before: Seq<char>, k: int)
    requires
        names_distinct(rules),
        0 <= k < rules.len(),
        rules[k].name() == before,
    ensures
        inserted(rules, patch, before) == rules.take(k) + patch + rules.skip(k),
    decreases rules.len(),
{
    let n = rules.len() as int;
    let init = rules.drop_last();
    if k == n - 1 {
        assert forall|i: int| 0 <= i < init.len() implies #[trigger] init[i].name() != before by {
            assert(rules[i].name() != rules[k].name());
        }
        lemma_inserted_absent(init, patch, before);
        assert(rules.take(k) =~= init);
        assert(rules.skip(k) =~= seq![rules.last()]);
        assert(patch.push(rules.last()) =~= patch + seq![rules.last()]);
    } else {
        assert(rules.last().name() != before) by {
            assert(rules[n - 1].name() != rules[k].name());
        }
        assert(names_distinct(init)) by {
            assert forall|i: int, j: int| 0 <= i < init.len() && 0 <= j < init.len() && i != j implies #[trigger] init[i].name()
                != #[trigger] init[j].name() by {
                assert(init[i] == rules[i] && init[j] == rules[j]);
            }
        }
        law_insert_in_front(init, patch, before, k);
        assert(init.take(k) =~= rules.take(k));
        assert(init.skip(k) + seq![rules.last()] =~= rules.skip(k));
        assert(rules.take(k) + patch + init.skip(k) + seq![rules.last()] =~= rules.take(k) + patch + rules.skip(k));
    }
}

/// Inserting rules with new, distinct names in front of a rule of a table
/// whose names are distinct gives a table whose names are distinct.
pub proof fn law_insert_keeps_names_distinct(
    rules: Seq<LexRuleView>,
    patch: Seq<LexRuleView>,
    before: Seq<char>,
    k: int,
)
    requires
        names_distinct(rules),
        names_distinct(patch),
        forall|i: int, j: int| 0 <= i < rules.len() && 0 <= j < patch.len() ==> #[trigger] rules[i].name()
            != #[trigger] patch[j].name(),
        0 <= k < rules.len(),
        rules[k].name() == before,
    ensures
        names_distinct(inserted(rules, patch, before)),
{
    law_insert_in_front(rules, patch, before, k);
    let r = inserted(rules, patch, before);
    let p = patch.len() as int;
    // Where each entry of the result comes from.
    assert forall|i: int| 0 <= i < r.len() implies #[trigger] r[i] == if i < k {
        rules[i]
    } else if i < k + p {
        patch[i - k]
    } else {
        rules[i - p]
    } by {}
    assert forall|i: int, j: int| 0 <= i < r.len() && 0 <= j < r.len() && i != j implies #[trigger] r[i].name()
        != #[trigger] r[j].name() by {
        if i < k || i >= k + p {
            let a = if i < k { i } else { i - p };
            if j < k || j >= k + p {
                let b = if j < k { j } else { j - p };
                assert(rules[a].name() != rules[b].name());
            } else {
                assert(rules[a].name() != patch[j - k].name());
            }
        } else {
            if j < k || j >= k + p {
                let b = if j < k { j } else { j - p };
                assert(rules[b].name() != patch[i - k].name());
            } else {
                assert(patch[i - k].name() != patch[j - k].name());
            }
        }
    }
}

} // verus!
