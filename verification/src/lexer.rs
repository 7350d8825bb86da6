//! The two scanners that the ANSI lexer runs natively on a cursor: numeric
//! literals and (nested) block comments.
//!
//! Each scanner is specified by a function on the unconsumed input that gives
//! whether the scanner accepts and how many characters it has consumed when it
//! returns; the lexer keeps exactly the consumed characters as the token when
//! the scanner accepts.

use crate::cursor::{char_at, digit_run, is_ascii_digit, is_digit, peek, rest, shift, shift_digits};
use sqruff_lib_core::parser::lexer::Cursor;
use vstd::prelude::*;

verus! {

/// Whether `c` is an ASCII letter or digit.
pub open spec fn is_alphanumeric(c: char) -> bool {
    is_digit(c) || ('a' <= c && c <= 'z') || ('A' <= c && c <= 'Z')
}

/// Whether a numeric literal may end in front of `c`: not in front of a dot,
/// an ASCII letter or digit, or an underscore.
pub open spec fn may_follow_number(c: char) -> bool {
    !(c == '.' || is_alphanumeric(c) || c == '_')
}

/// Where the digits and the optional fractional part of a numeric literal end:
/// `digits [ '.' digits* ]` or `'.' digits+`; `None` for a lone dot.
pub open spec fn mantissa_end(s: Seq<char>) -> Option<int>
    recommends
        s.len() > 0,
        is_digit(s[0]) || s[0] == '.',
{
    if s[0] == '.' {
        if is_digit(char_at(s, 1)) {
            Some(1 + digit_run(s, 1))
        } else {
            None
        }
    } else {
        let i = 1 + digit_run(s, 1);
        if char_at(s, i) == '.' {
            Some(i + 1 + digit_run(s, i + 1))
        } else {
            Some(i)
        }
    }
}

/// The exponent that may follow the mantissa ending at `i`:
/// `('e' | 'E') ['+' | '-'] digits+`. Gives whether it is well formed (or
/// absent) and where it ends.
pub open spec fn exponent_end(s: Seq<char>, i: int) -> (bool, int) {
    if char_at(s, i) == 'e' || char_at(s, i) == 'E' {
        let j = if char_at(s, i + 1) == '+' || char_at(s, i + 1) == '-' {
            i + 2
        } else {
            i + 1
        };
        (digit_run(s, j) > 0, j + digit_run(s, j))
    } else {
        (true, i)
    }
}

/// The numeric-literal scanner on the input `s`: whether it accepts, and how
/// many characters it has consumed when it returns.
///
/// It accepts `digits [ '.' digits* ] [exponent]` and `'.' digits+ [exponent]`,
/// where the exponent is `('e' | 'E') ['+' | '-'] digits+`, provided that the
/// literal is not followed by a dot, an ASCII letter or digit, or an underscore.
pub open spec fn numeric_scan(s: Seq<char>) -> (bool, int) {
    if s.len() == 0 {
        (false, 0)
    } else if !(is_digit(s[0]) || s[0] == '.') {
        (false, 1)
    } else {
        match mantissa_end(s) {
            None => (false, 1),
            Some(m) => {
                let (exp_ok, e) = exponent_end(s, m);
                if !exp_ok {
                    (false, e)
                } else {
                    (may_follow_number(char_at(s, e)), e)
                }
            },
        }
    }
}

proof fn lemma_digit_run_skip(s: Seq<char>, k: int, j: int)
    requires
        0 <= k <= s.len(),
        0 <= j,
    ensures
        digit_run(s.skip(k), j) == digit_run(s, k + j),
    decreases s.len() - k - j,
{
    if k + j < s.len() {
        lemma_digit_run_skip(s, k, j + 1);
    }
}

proof fn lemma_digit_run_bound(s: Seq<char>, i: int)
    requires
        0 <= i,
    ensures
        digit_run(s, i) >= 0,
        i + digit_run(s, i) <= if i <= s.len() { s.len() as int } else { i },
        forall|k: int| i <= k < i + digit_run(s, i) ==> is_digit(#[trigger] s[k]),
        i + digit_run(s, i) < s.len() ==> !is_digit(s[i + digit_run(s, i)]),
    decreases s.len() - i,
{
    if 0 <= i < s.len() && is_digit(s[i]) {
        lemma_digit_run_bound(s, i + 1);
    }
}

/// Consumes the digits at the front of the input, where the input is `s`
/// without its first `k` characters; gives the new `k`.
fn skip_digits(cursor: &mut Cursor, Ghost(s): Ghost<Seq<char>>, Ghost(k): Ghost<int>) -> (r: Ghost<int>)
    requires
        0 <= k <= s.len(),
        rest(*old(cursor)) == s.skip(k),
    ensures
        r@ == k + digit_run(s, k),
        k <= r@ <= s.len(),
        rest(*final(cursor)) == s.skip(r@),
{
    proof {
        lemma_digit_run_skip(s, k, 0);
        lemma_digit_run_bound(s, k);
    }
    shift_digits(cursor);
    assert(s.skip(k).skip(digit_run(s, k)) =~= s.skip(k + digit_run(s, k)));
    Ghost(k + digit_run(s, k))
}

/// Consumes one character of the input, where the input is `s` without its
/// first `k` characters and `k` is inside `s`; gives the character.
fn step(cursor: &mut Cursor, Ghost(s): Ghost<Seq<char>>, Ghost(k): Ghost<int>) -> (c: char)
    requires
        0 <= k < s.len(),
        rest(*old(cursor)) == s.skip(k),
    ensures
        c == s[k],
        rest(*final(cursor)) == s.skip(k + 1),
        s.len() <= isize::MAX + k + 1,
{
    let c = shift(cursor);
    assert(s.skip(k).drop_first() =~= s.skip(k + 1));
    c
}

/// Reads the next character of the input, where the input is `s` without its
/// first `k` characters.
fn look(cursor: &Cursor, Ghost(s): Ghost<Seq<char>>, Ghost(k): Ghost<int>) -> (c: char)
    requires
        0 <= k <= s.len(),
        rest(*cursor) == s.skip(k),
    ensures
        c == char_at(s, k),
{
    peek(cursor)
}

/// Scans a numeric literal at the cursor; see [`numeric_scan`].
pub fn numeric_literal(cursor: &mut Cursor) -> (matched: bool)
    ensures
        matched == numeric_scan(rest(*old(cursor))).0,
        rest(*final(cursor)) == rest(*old(cursor)).skip(numeric_scan(rest(*old(cursor))).1),
{
    let ghost s = rest(*cursor);
    assert(s.skip(0) =~= s);
    let first_char = shift(cursor);
    if !(is_ascii_digit(first_char) || first_char == '.') {
        assert(s.len() > 0 ==> s.drop_first() =~= s.skip(1));
        return false;
    }
    assert(s.drop_first() =~= s.skip(1));
    let ghost mut k: int = 1;
    let has_decimal = first_char == '.';
    if has_decimal {
        if is_ascii_digit(look(cursor, Ghost(s), Ghost(k))) {
            let Ghost(k2) = skip_digits(cursor, Ghost(s), Ghost(k));
            proof { k = k2; }
        } else {
            return false;
        }
    } else {
        let Ghost(k2) = skip_digits(cursor, Ghost(s), Ghost(k));
        proof { k = k2; }
        if look(cursor, Ghost(s), Ghost(k)) == '.' {
            proof { lemma_digit_run_bound(s, 1); }
            step(cursor, Ghost(s), Ghost(k));
            let Ghost(k3) = skip_digits(cursor, Ghost(s), Ghost(k + 1));
            proof { k = k3; }
        }
    }
    assert(mantissa_end(s) == Some(k));
    let c = look(cursor, Ghost(s), Ghost(k));
    if c == 'e' || c == 'E' {
        step(cursor, Ghost(s), Ghost(k));
        proof { k = k + 1; }
        let sign = look(cursor, Ghost(s), Ghost(k));
        if sign == '+' || sign == '-' {
            step(cursor, Ghost(s), Ghost(k));
            proof { k = k + 1; }
        }
        let ghost j = k;
        let mut exp_digits = false;
        proof { lemma_digit_run_bound(s, j); }
        while is_ascii_digit(look(cursor, Ghost(s), Ghost(k)))
            invariant
                0 <= j <= k <= s.len(),
                rest(*cursor) == s.skip(k),
                j + digit_run(s, j) <= s.len(),
                forall|i: int| j <= i < j + digit_run(s, j) ==> is_digit(#[trigger] s[i]),
                j + digit_run(s, j) < s.len() ==> !is_digit(s[j + digit_run(s, j)]),
                k <= j + digit_run(s, j),
                exp_digits == (k > j),
            decreases s.len() - k,
        {
            step(cursor, Ghost(s), Ghost(k));
            proof { k = k + 1; }
            exp_digits = true;
        }
        assert(k == j + digit_run(s, j));
        if !exp_digits {
            return false;
        }
    }
    assert(exponent_end(s, mantissa_end(s).unwrap()) == (true, k));
    let next_char = look(cursor, Ghost(s), Ghost(k));
    if next_char == '.' || is_ascii_alphanumeric(next_char) || next_char == '_' {
        return false;
    }
    true
}

/// The body of a block comment, read from position `i` of `s` at nesting
/// depth `depth`: whether the comment closes, and where the scanner stops.
/// `/*` opens a nested comment, `*/` closes the innermost one; the scan fails
/// at the end of the input or at a `'\0'` character.
pub open spec fn comment_body(s: Seq<char>, i: int, depth: int) -> (bool, int)
    decreases s.len() - i,
{
    if i >= s.len() || i < 0 {
        (false, s.len() as int)
    } else if s[i] == '\0' {
        (false, i + 1)
    } else if s[i] == '/' && char_at(s, i + 1) == '*' {
        comment_body(s, i + 2, depth + 1)
    } else if s[i] == '*' && char_at(s, i + 1) == '/' {
        if depth <= 1 {
            (true, i + 2)
        } else {
            comment_body(s, i + 2, depth - 1)
        }
    } else {
        comment_body(s, i + 1, depth)
    }
}

/// The block-comment scanner on the input `s`: whether it accepts, and how
/// many characters it has consumed when it returns. It accepts a comment that
/// opens with `/*` at the start of `s` and closes with the `*/` that balances
/// it, where comments nest.
pub open spec fn block_comment_scan(s: Seq<char>) -> (bool, int) {
    if char_at(s, 0) != '/' {
        (false, if s.len() == 0 { 0 } else { 1 })
    } else if char_at(s, 1) != '*' {
        (false, if s.len() == 1 { 1 } else { 2 })
    } else {
        comment_body(s, 2, 1)
    }
}

/// Scans a (possibly nested) block comment at the cursor; see
/// [`block_comment_scan`].
pub fn block_comment(cursor: &mut Cursor) -> (matched: bool)
    ensures
        matched == block_comment_scan(rest(*old(cursor))).0,
        rest(*final(cursor)) == rest(*old(cursor)).skip(block_comment_scan(rest(*old(cursor))).1),
{
    let ghost s = rest(*cursor);
    assert(s.skip(0) =~= s);
    if shift(cursor) != '/' {
        assert(s.len() > 0 ==> s.drop_first() =~= s.skip(1));
        return false;
    }
    assert(s.drop_first() =~= s.skip(1));
    if shift(cursor) != '*' {
        assert(s.len() > 1 ==> s.skip(1).drop_first() =~= s.skip(2));
        return false;
    }
    assert(s.skip(1).drop_first() =~= s.skip(2));
    let ghost mut i: int = 2;
    let mut depth: usize = 1;
    loop
        invariant
            s == rest(*old(cursor)),
            2 <= i <= s.len(),
            s.len() <= isize::MAX + 2,
            1 <= depth <= i,
            rest(*cursor) == s.skip(i),
            comment_body(s, i, depth as int) == block_comment_scan(s),
        decreases s.len() - i,
    {
        let ghost i0 = i;
        let c = shift(cursor);
        proof {
            if i0 < s.len() {
                assert(s.skip(i0).drop_first() =~= s.skip(i0 + 1));
                i = i0 + 1;
            }
        }
        if c == '\0' {
            return false;
        } else if c == '/' && look(cursor, Ghost(s), Ghost(i)) == '*' {
            step(cursor, Ghost(s), Ghost(i));
            proof { i = i + 1; }
            depth += 1;
        } else if c == '*' && look(cursor, Ghost(s), Ghost(i)) == '/' {
            step(cursor, Ghost(s), Ghost(i));
            proof { i = i + 1; }
            depth -= 1;
            if depth == 0 {
                return true;
            }
        }
    }
}

proof fn lemma_digit_run_same(s: Seq<char>, u: Seq<char>, i: int)
    requires
        0 <= i,
        forall|k: int| i <= k < i + digit_run(s, i) ==> #[trigger] char_at(u, k) == char_at(s, k),
        !is_digit(char_at(u, i + digit_run(s, i))),
    ensures
        digit_run(u, i) == digit_run(s, i),
    decreases s.len() - i,
{
    if 0 <= i < s.len() && is_digit(s[i]) {
        lemma_digit_run_bound(s, i + 1);
        assert(char_at(u, i) == char_at(s, i));
        lemma_digit_run_same(s, u, i + 1);
    }
}

/// Facts about every position that the numeric-literal scanner reads.
proof fn lemma_numeric_positions(s: Seq<char>)
    requires
        s.len() > 0,
    ensures
        forall|i: int| 0 <= i ==> #[trigger] digit_run(s, i) >= 0,
        forall|i: int, k: int| 0 <= i <= k < i + digit_run(s, i) ==> is_digit(#[trigger] char_at(s, k)) && #[trigger] digit_run(s, i) >= 0,
        forall|i: int| 0 <= i <= s.len() ==> i + #[trigger] digit_run(s, i) <= s.len(),
        forall|i: int| 0 <= i ==> !is_digit(char_at(s, i + #[trigger] digit_run(s, i))),
{
    assert forall|i: int| 0 <= i implies #[trigger] digit_run(s, i) >= 0 by {
        lemma_digit_run_bound(s, i);
    }
    assert forall|i: int, k: int| 0 <= i <= k < i + digit_run(s, i) implies is_digit(#[trigger] char_at(s, k)) && #[trigger] digit_run(s, i) >= 0 by {
        lemma_digit_run_bound(s, i);
    }
    assert forall|i: int| 0 <= i <= s.len() implies i + #[trigger] digit_run(s, i) <= s.len() by {
        lemma_digit_run_bound(s, i);
    }
    assert forall|i: int| 0 <= i implies !is_digit(char_at(s, i + #[trigger] digit_run(s, i))) by {
        lemma_digit_run_bound(s, i);
    }
}

/// A numeric literal that the scanner accepts is not empty, lies inside the
/// input, starts with a digit or a dot, and is followed by a character that
/// may follow a number (or by the end of the input).
pub proof fn law_numeric_literal_shape(s: Seq<char>)
    requires
        numeric_scan(s).0,
    ensures
        1 <= numeric_scan(s).1 <= s.len(),
        is_digit(s[0]) || s[0] == '.',
        may_follow_number(char_at(s, numeric_scan(s).1)),
{
    lemma_numeric_positions(s);
}

/// Whether a numeric literal is recognised depends on the literal's own text
/// and on the character that follows it alone: any input that begins with the
/// same literal, followed by a character that may follow a number (or by the
/// end of the input), is scanned to the same literal.
pub proof fn law_numeric_literal_context_free(s: Seq<char>, u: Seq<char>)
    requires
        numeric_scan(s).0,
        u.len() >= numeric_scan(s).1,
        u.take(numeric_scan(s).1) == s.take(numeric_scan(s).1),
        may_follow_number(char_at(u, numeric_scan(s).1)),
    ensures
        numeric_scan(u) == numeric_scan(s),
{
    let n = numeric_scan(s).1;
    lemma_numeric_positions(s);
    assert forall|k: int| 0 <= k < n implies #[trigger] char_at(u, k) == char_at(s, k) by {
        assert(u.take(n)[k] == s.take(n)[k]);
    }
    assert(char_at(u, 0) == char_at(s, 0));
    let d1 = digit_run(s, 1);
    lemma_digit_run_same(s, u, 1);
    let i = 1 + d1;
    if s[0] != '.' && char_at(s, i) == '.' {
        assert(char_at(u, i) == char_at(s, i));
        lemma_digit_run_same(s, u, i + 1);
    }
    let m = mantissa_end(s).unwrap();
    if char_at(s, m) == 'e' || char_at(s, m) == 'E' {
        assert(char_at(u, m) == char_at(s, m));
        assert(char_at(u, m + 1) == char_at(s, m + 1));
        let j = if char_at(s, m + 1) == '+' || char_at(s, m + 1) == '-' { m + 2 } else { m + 1 };
        lemma_digit_run_same(s, u, j);
    }
}

/// Whether every character of `t` is an ASCII digit.
pub open spec fn all_digits(t: Seq<char>) -> bool {
    forall|i: int| 0 <= i < t.len() ==> is_digit(#[trigger] t[i])
}

/// The mantissa of a numeric literal: digits, optionally followed by a dot
/// and more digits (`1`, `1.`, `1.5`), or a dot followed by digits (`.5`).
pub open spec fn is_mantissa(t: Seq<char>) -> bool {
    ||| (t.len() >= 2 && t[0] == '.' && all_digits(t.skip(1)))
    ||| exists|k: int|
        1 <= k <= t.len() && all_digits(#[trigger] t.take(k)) && (k == t.len() || (t[k] == '.' && all_digits(
            t.skip(k + 1),
        )))
}

/// The exponent of a numeric literal: `e` or `E`, an optional sign, and
/// digits.
pub open spec fn is_exponent(t: Seq<char>) -> bool {
    &&& t.len() >= 2
    &&& (t[0] == 'e' || t[0] == 'E')
    &&& if t[1] == '+' || t[1] == '-' {
        t.len() >= 3 && all_digits(t.skip(2))
    } else {
        all_digits(t.skip(1))
    }
}

/// A numeric literal: a mantissa, optionally followed by an exponent.
pub open spec fn is_numeric_literal(t: Seq<char>) -> bool {
    ||| is_mantissa(t)
    ||| exists|m: int| 0 < m < t.len() && is_mantissa(#[trigger] t.take(m)) && is_exponent(t.skip(m))
}

proof fn lemma_digit_run_exact(s: Seq<char>, i: int, e: int)
    requires
        0 <= i <= e <= s.len(),
        forall|k: int| i <= k < e ==> is_digit(#[trigger] s[k]),
        !is_digit(char_at(s, e)),
    ensures
        digit_run(s, i) == e - i,
    decreases e - i,
{
    if i < e {
        lemma_digit_run_exact(s, i + 1, e);
    }
}

/// The mantissa that the scanner reads is the one that the text starts with,
/// when what follows it is neither a digit nor a dot.
proof fn lemma_mantissa_read(s: Seq<char>, m: int)
    requires
        0 < m <= s.len(),
        is_mantissa(s.take(m)),
        !is_digit(char_at(s, m)),
        char_at(s, m) != '.',
    ensures
        is_digit(s[0]) || s[0] == '.',
        mantissa_end(s) == Some(m),
{
    let t = s.take(m);
    if t.len() >= 2 && t[0] == '.' && all_digits(t.skip(1)) {
        assert forall|k: int| 1 <= k < m implies is_digit(#[trigger] s[k]) by {
            assert(t.skip(1)[k - 1] == s[k]);
        }
        lemma_digit_run_exact(s, 1, m);
    } else {
        let k = choose|k: int|
            1 <= k <= t.len() && all_digits(#[trigger] t.take(k)) && (k == t.len() || (t[k] == '.' && all_digits(
                t.skip(k + 1),
            )));
        assert forall|j: int| 0 <= j < k implies is_digit(#[trigger] s[j]) by {
            assert(t.take(k)[j] == s[j]);
        }
        if k == m {
            lemma_digit_run_exact(s, 1, m);
        } else {
            assert(s[k] == '.');
            lemma_digit_run_exact(s, 1, k);
            assert forall|j: int| k + 1 <= j < m implies is_digit(#[trigger] s[j]) by {
                assert(t.skip(k + 1)[j - k - 1] == s[j]);
            }
            lemma_digit_run_exact(s, k + 1, m);
        }
    }
}

/// The exponent that the scanner reads from position `m` on is the one that
/// the text holds there, when what follows it is not a digit.
proof fn lemma_exponent_read(s: Seq<char>, m: int, n: int)
    requires
        0 < m < n <= s.len(),
        is_exponent(s.subrange(m, n)),
        !is_digit(char_at(s, n)),
    ensures
        exponent_end(s, m) == (true, n),
{
    let x = s.subrange(m, n);
    assert(x[0] == s[m]);
    assert(x[1] == s[m + 1]);
    let j = if x[1] == '+' || x[1] == '-' { m + 2 } else { m + 1 };
    assert forall|k: int| j <= k < n implies is_digit(#[trigger] s[k]) by {
        if x[1] == '+' || x[1] == '-' {
            assert(x.skip(2)[k - m - 2] == s[k]);
        } else {
            assert(x.skip(1)[k - m - 1] == s[k]);
        }
    }
    lemma_digit_run_exact(s, j, n);
}

/// The numeric-literal scanner accepts exactly the numeric literals that are
/// followed by a character that may follow a number (or by the end of the
/// input), and then consumes the whole literal: for any literal `t` and any
/// continuation `u` that does not start with a dot, an ASCII letter or digit,
/// or an underscore, the scanner accepts `t + u` and consumes `t`.
pub proof fn law_numeric_literal_complete(t: Seq<char>, u: Seq<char>)
    requires
        is_numeric_literal(t),
        may_follow_number(char_at(u, 0)),
    ensures
        numeric_scan(t + u) == (true, t.len() as int),
{
    let s = t + u;
    let n = t.len() as int;
    assert(char_at(s, n) == char_at(u, 0));
    if is_mantissa(t) {
        assert(s.take(n) =~= t);
        lemma_mantissa_read(s, n);
    } else {
        let m = choose|m: int| 0 < m < t.len() && is_mantissa(#[trigger] t.take(m)) && is_exponent(t.skip(m));
        assert(s.take(m) =~= t.take(m));
        assert(s.subrange(m, n) =~= t.skip(m));
        assert(char_at(s, m) == t[m]);
        lemma_mantissa_read(s, m);
        lemma_exponent_read(s, m, n);
    }
}

/// What the numeric-literal scanner accepts is a numeric literal, followed by
/// a character that may follow a number (or by the end of the input).
pub proof fn law_numeric_literal_sound(s: Seq<char>)
    requires
        numeric_scan(s).0,
    ensures
        is_numeric_literal(s.take(numeric_scan(s).1)),
        may_follow_number(char_at(s, numeric_scan(s).1)),
{
    lemma_numeric_positions(s);
    let n = numeric_scan(s).1;
    let t = s.take(n);
    let m = mantissa_end(s).unwrap();
    let d1 = digit_run(s, 1);
    lemma_digit_run_bound(s, 1);
    // The mantissa.
    let mt = t.take(m);
    if s[0] == '.' {
        assert forall|k: int| 0 <= k < mt.skip(1).len() implies is_digit(#[trigger] mt.skip(1)[k]) by {
            assert(mt.skip(1)[k] == s[k + 1]);
        }
    } else {
        let i = 1 + d1;
        assert(all_digits(mt.take(i))) by {
            assert forall|k: int| 0 <= k < mt.take(i).len() implies is_digit(#[trigger] mt.take(i)[k]) by {
                assert(mt.take(i)[k] == s[k]);
                if k > 0 {
                    assert(char_at(s, k) == s[k]);
                }
            }
        }
        if char_at(s, i) == '.' {
            lemma_digit_run_bound(s, i + 1);
            assert forall|k: int| 0 <= k < mt.skip(i + 1).len() implies is_digit(#[trigger] mt.skip(i + 1)[k]) by {
                assert(mt.skip(i + 1)[k] == s[i + 1 + k]);
                assert(char_at(s, i + 1 + k) == s[i + 1 + k]);
            }
        } else {
            assert(mt.len() == i);
        }
    }
    assert(is_mantissa(mt));
    if m < n {
        // The exponent.
        let x = t.skip(m);
        let j = if char_at(s, m + 1) == '+' || char_at(s, m + 1) == '-' { m + 2 } else { m + 1 };
        lemma_digit_run_bound(s, j);
        assert(x[0] == s[m]);
        assert(x[1] == s[m + 1]);
        assert forall|k: int| 0 <= k < x.skip(j - m).len() implies is_digit(#[trigger] x.skip(j - m)[k]) by {
            assert(x.skip(j - m)[k] == s[j + k]);
            assert(char_at(s, j + k) == s[j + k]);
        }
        assert(is_exponent(x));
        assert(t.take(m) =~= mt);
    } else {
        assert(t =~= mt);
    }
}

proof fn lemma_comment_body_success(s: Seq<char>, i: int, depth: int)
    requires
        comment_body(s, i, depth).0,
    ensures
        0 <= i,
        i + 2 <= comment_body(s, i, depth).1 <= s.len(),
        s[comment_body(s, i, depth).1 - 2] == '*',
        s[comment_body(s, i, depth).1 - 1] == '/',
    decreases s.len() - i,
{
    if i >= s.len() || i < 0 {
    } else if s[i] == '\0' {
    } else if s[i] == '/' && char_at(s, i + 1) == '*' {
        lemma_comment_body_success(s, i + 2, depth + 1);
    } else if s[i] == '*' && char_at(s, i + 1) == '/' {
        if depth > 1 {
            lemma_comment_body_success(s, i + 2, depth - 1);
        }
    } else {
        lemma_comment_body_success(s, i + 1, depth);
    }
}

proof fn lemma_comment_body_context(s: Seq<char>, u: Seq<char>, i: int, depth: int)
    requires
        comment_body(s, i, depth).0,
        forall|k: int| i <= k < comment_body(s, i, depth).1 ==> char_at(u, k) == #[trigger] s[k],
    ensures
        comment_body(u, i, depth) == comment_body(s, i, depth),
    decreases s.len() - i,
{
    lemma_comment_body_success(s, i, depth);
    let n = comment_body(s, i, depth).1;
    assert(char_at(u, i) == s[i]);
    assert(u[i] == s[i]);
    if s[i] == '/' && char_at(s, i + 1) == '*' {
        lemma_comment_body_success(s, i + 2, depth + 1);
        assert(char_at(u, i + 1) == s[i + 1]);
        lemma_comment_body_context(s, u, i + 2, depth + 1);
    } else if s[i] == '*' && char_at(s, i + 1) == '/' {
        assert(char_at(u, i + 1) == s[i + 1]);
        if depth > 1 {
            lemma_comment_body_success(s, i + 2, depth - 1);
            lemma_comment_body_context(s, u, i + 2, depth - 1);
        }
    } else {
        lemma_comment_body_success(s, i + 1, depth);
        if s[i] == '/' || s[i] == '*' {
            assert(char_at(u, i + 1) == s[i + 1]);
        }
        lemma_comment_body_context(s, u, i + 1, depth);
    }
}

/// A block comment that the scanner accepts is at least `/**/`: it takes
/// four characters or more, from the start of the input, opens with `/*` and
/// closes with `*/`.
pub proof fn law_block_comment_shape(s: Seq<char>)
    requires
        block_comment_scan(s).0,
    ensures
        4 <= block_comment_scan(s).1 <= s.len(),
        s[0] == '/' && s[1] == '*',
        s[block_comment_scan(s).1 - 2] == '*',
        s[block_comment_scan(s).1 - 1] == '/',
{
    lemma_comment_body_success(s, 2, 1);
}

/// Whether a block comment is recognised depends on the comment's own text
/// alone: any input that begins with the same characters is scanned to the
/// same comment, whatever follows it.
pub proof fn law_block_comment_context_free(s: Seq<char>, u: Seq<char>)
    requires
        block_comment_scan(s).0,
        u.len() >= block_comment_scan(s).1,
        u.take(block_comment_scan(s).1) == s.take(block_comment_scan(s).1),
    ensures
        block_comment_scan(u) == block_comment_scan(s),
{
    let n = block_comment_scan(s).1;
    lemma_comment_body_success(s, 2, 1);
    assert forall|k: int| 2 <= k < n implies char_at(u, k) == #[trigger] s[k] by {
        assert(u.take(n)[k] == s.take(n)[k]);
    }
    assert(u.take(n)[0] == s.take(n)[0]);
    assert(u.take(n)[1] == s.take(n)[1]);
    lemma_comment_body_context(s, u, 2, 1);
}

/// Tests a character for an ASCII letter or digit.
pub fn is_ascii_alphanumeric(c: char) -> (r: bool)
    ensures
        r == is_alphanumeric(c),
{
    ('0' <= c && c <= '9') || ('a' <= c && c <= 'z') || ('A' <= c && c <= 'Z')
}

} // verus!
