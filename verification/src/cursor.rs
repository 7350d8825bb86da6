//! The lexer cursor of `sqruff_lib_core`, seen as the sequence of characters
//! that it has not consumed yet.

use sqruff_lib_core::parser::lexer::Cursor;
use vstd::prelude::*;

verus! {

#[verifier::external_type_specification]
#[verifier::external_body]
pub struct ExCursor<'text>(Cursor<'text>);

/// The characters that the cursor has not consumed yet, in order.
pub uninterp spec fn rest(c: Cursor) -> Seq<char>;

/// What a cursor reads at position `i` of `s`: the character there, or the
/// end-of-input character `'\0'` past the end.
pub open spec fn char_at(s: Seq<char>, i: int) -> char {
    if 0 <= i < s.len() {
        s[i]
    } else {
        '\0'
    }
}

/// `Cursor::peek`: returns the next unconsumed character, or `'\0'` when the
/// input is exhausted; the cursor is not moved.
#[verifier::external_body]
pub(crate) fn peek(c: &Cursor) -> (r: char)
    ensures
        r == char_at(rest(*c), 0),
{
    c.peek()
}

/// `Cursor::shift`: consumes and returns the next character, or returns `'\0'`
/// and consumes nothing when the input is exhausted. The remaining input is a
/// part of a `&str`, so it holds at most `isize::MAX` characters.
#[verifier::external_body]
pub(crate) fn shift(c: &mut Cursor) -> (r: char)
    ensures
        r == char_at(rest(*old(c)), 0),
        rest(*final(c)) == (if rest(*old(c)).len() > 0 {
            rest(*old(c)).drop_first()
        } else {
            rest(*old(c))
        }),
        rest(*final(c)).len() <= isize::MAX,
{
    c.shift()
}

/// Whether `c` is one of the ASCII digits `0` to `9`.
pub open spec fn is_digit(c: char) -> bool {
    '0' <= c && c <= '9'
}

/// The number of consecutive ASCII digits in `s` from position `i` on.
pub open spec fn digit_run(s: Seq<char>, i: int) -> int
    decreases s.len() - i,
{
    if 0 <= i < s.len() && is_digit(s[i]) {
        1 + digit_run(s, i + 1)
    } else {
        0
    }
}

/// Tests a character for an ASCII digit.
pub fn is_ascii_digit(c: char) -> (r: bool)
    ensures
        r == is_digit(c),
{
    '0' <= c && c <= '9'
}

/// `Cursor::shift_while` with the ASCII-digit test as its predicate: consumes
/// the run of digits at the front of the remaining input.
#[verifier::external_body]
pub(crate) fn shift_digits(c: &mut Cursor)
    ensures
        rest(*final(c)) == rest(*old(c)).skip(digit_run(rest(*old(c)), 0)),
{
    c.shift_while(|ch| is_ascii_digit(ch))
}

} // verus!
