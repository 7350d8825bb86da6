//! The pattern that keeps reserved keywords from being read as identifiers.

use crate::sets::texts;
use itertools::Itertools;
use vstd::prelude::*;
use vstd::string::StringExecFns;

verus! {

/// The words joined into one text, with `sep` between each two of them.
pub open spec fn joined(words: Seq<Seq<char>>, sep: Seq<char>) -> Seq<char>
    decreases words.len(),
{
    if words.len() == 0 {
        Seq::empty()
    } else if words.len() == 1 {
        words[0]
    } else {
        joined(words.drop_last(), sep) + sep + words.last()
    }
}

/// `Itertools::join` on the words with `|` as the separator: each word's text,
/// in order, with `|` between each two.
#[verifier::external_body]
fn join_alternatives(words: &Vec<&'static str>) -> (r: String)
    ensures
        r@ == joined(texts(words@), "|"@),
{
    words.iter().join("|")
}

/// The anti-template of an identifier pattern: a regular expression that
/// matches exactly the given keywords, `^(k1|k2|...)$`.
pub fn anti_template(keywords: &Vec<&'static str>) -> (r: String)
    ensures
        r@ == "^("@ + joined(texts(keywords@), "|"@) + ")$"@,
{
    let alternatives = join_alternatives(keywords);
    let pattern = String::from_str("^(");
    let pattern = pattern.concat(alternatives.as_str());
    pattern.concat(")$")
}


/// The pieces of a text between the line feeds: one more piece than there
/// are line feeds, each without its line feed.
pub open spec fn pieces(text: Seq<char>) -> Seq<Seq<char>>
    decreases text.len(),
{
    if text.len() == 0 {
        seq![Seq::empty()]
    } else {
        let p = pieces(text.drop_last());
        if text.last() == '\n' {
            p.push(Seq::empty())
        } else {
            p.update(p.len() - 1, p.last().push(text.last()))
        }
    }
}

/// A line without the carriage return that ends it, if one does.
pub open spec fn without_carriage_return(line: Seq<char>) -> Seq<char> {
    if line.len() > 0 && line.last() == '\r' {
        line.drop_last()
    } else {
        line
    }
}

/// The lines of a text, as `str::lines` gives them: the text split at each
/// line feed, a carriage return just before a line feed dropped, and no line
/// after a final line feed (none at all for the empty text). A last line that
/// no line feed ends keeps a carriage return at its end.
pub open spec fn text_lines(text: Seq<char>) -> Seq<Seq<char>> {
    let p = pieces(text);
    let ended = p.drop_last().map_values(|line: Seq<char>| without_carriage_return(line));
    if text.len() == 0 || text.last() == '\n' {
        ended
    } else {
        ended.push(p.last())
    }
}

/// Whether `c` has the Unicode property White_Space.
pub open spec fn is_white_space(c: char) -> bool {
    let u = c as u32;
    ||| 0x9 <= u <= 0xD
    ||| u == 0x20
    ||| u == 0x85
    ||| u == 0xA0
    ||| u == 0x1680
    ||| 0x2000 <= u <= 0x200A
    ||| u == 0x2028
    ||| u == 0x2029
    ||| u == 0x202F
    ||| u == 0x205F
    ||| u == 0x3000
}

/// A text without the white space at its start.
pub open spec fn trim_start(s: Seq<char>) -> Seq<char>
    decreases s.len(),
{
    if s.len() > 0 && is_white_space(s[0]) {
        trim_start(s.drop_first())
    } else {
        s
    }
}

/// A text without the white space at its end.
pub open spec fn trim_end(s: Seq<char>) -> Seq<char>
    decreases s.len(),
{
    if s.len() > 0 && is_white_space(s.last()) {
        trim_end(s.drop_last())
    } else {
        s
    }
}

/// A text without the white space at its start and end, as `str::trim`
/// leaves it.
pub open spec fn trimmed(s: Seq<char>) -> Seq<char> {
    trim_end(trim_start(s))
}

/// `str::lines`: the lines of `text`, in order (see [`text_lines`]).
#[verifier::external_body]
fn lines_of(text: &'static str) -> (r: Vec<&'static str>)
    ensures
        texts(r@) == text_lines(text@),
{
    text.lines().collect()
}

/// `str::trim`: the text without the white space at its start and end (see
/// [`trimmed`]).
#[verifier::external_body]
fn trim(s: &'static str) -> (r: &'static str)
    ensures
        r@ == trimmed(s@),
{
    s.trim()
}

/// The keywords of a list of lines: each line trimmed, the empty ones left out.
pub open spec fn keyword_list(lines: Seq<Seq<char>>) -> Seq<Seq<char>>
    decreases lines.len(),
{
    if lines.len() == 0 {
        Seq::empty()
    } else {
        let rest = keyword_list(lines.drop_last());
        let t = trimmed(lines.last());
        if t.len() == 0 {
            rest
        } else {
            rest.push(t)
        }
    }
}

/// The keywords of a text that holds one keyword per line: each line trimmed,
/// the empty ones left out.
pub fn keyword_lines(text: &'static str) -> (ws: Vec<&'static str>)
    ensures
        texts(ws@) == keyword_list(text_lines(text@)),
{
    let lines = lines_of(text);
    let ghost ls = texts(lines@);
    let mut ws: Vec<&'static str> = Vec::new();
    let mut i: usize = 0;
    while i < lines.len()
        invariant
            i <= lines.len(),
            ls == texts(lines@),
            texts(ws@) == keyword_list(ls.take(i as int)),
        decreases lines.len() - i,
    {
        let t = trim(lines[i]);
        assert(ls.take(i + 1).drop_last() =~= ls.take(i as int));
        if !t.is_empty() {
            let ghost before = ws@;
            ws.push(t);
            assert(texts(ws@) =~= texts(before).push(t@));
        }
        i += 1;
    }
    assert(ls.take(lines.len() as int) =~= ls);
    ws
}

} // verus!
