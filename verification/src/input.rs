//! Classifying a line of user input: trimming surrounding whitespace
//! and recognising the words that end the query loop.

use vstd::prelude::*;

verus! {

/// Whitespace as the `White_Space` property defines it, the set that
/// `str::trim` removes from both ends of a line.
pub open spec fn is_ws_char(c: char) -> bool {
    c == '\u{0009}' || c == '\u{000A}' || c == '\u{000B}' || c == '\u{000C}'
        || c == '\u{000D}' || c == '\u{0020}' || c == '\u{0085}' || c == '\u{00A0}'
        || c == '\u{1680}' || c == '\u{2000}' || c == '\u{2001}' || c == '\u{2002}'
        || c == '\u{2003}' || c == '\u{2004}' || c == '\u{2005}' || c == '\u{2006}'
        || c == '\u{2007}' || c == '\u{2008}' || c == '\u{2009}' || c == '\u{200A}'
        || c == '\u{2028}' || c == '\u{2029}' || c == '\u{202F}' || c == '\u{205F}'
        || c == '\u{3000}'
}

/// Runtime test for [`is_ws_char`].
pub fn is_ws_char_x(c: char) -> (r: bool)
    ensures
        r == is_ws_char(c),
{
    c == '\u{0009}' || c == '\u{000A}' || c == '\u{000B}' || c == '\u{000C}'
        || c == '\u{000D}' || c == '\u{0020}' || c == '\u{0085}' || c == '\u{00A0}'
        || c == '\u{1680}' || c == '\u{2000}' || c == '\u{2001}' || c == '\u{2002}'
        || c == '\u{2003}' || c == '\u{2004}' || c == '\u{2005}' || c == '\u{2006}'
        || c == '\u{2007}' || c == '\u{2008}' || c == '\u{2009}' || c == '\u{200A}'
        || c == '\u{2028}' || c == '\u{2029}' || c == '\u{202F}' || c == '\u{205F}'
        || c == '\u{3000}'
}

/// Index of the first character that is not whitespace, scanning right
/// from `i`; the length of the string when all of it is whitespace.
pub open spec fn ws_prefix_end(s: Seq<char>, i: int) -> int
    decreases s.len() - i,
{
    if 0 <= i && i < s.len() && is_ws_char(s[i]) {
        ws_prefix_end(s, i + 1)
    } else {
        i
    }
}

/// Index just past the last character that is not whitespace, scanning
/// left from `j`; zero when all of the string is whitespace.
pub open spec fn ws_suffix_start(s: Seq<char>, j: int) -> int
    decreases j,
{
    if 0 < j && j <= s.len() && is_ws_char(s[j - 1]) {
        ws_suffix_start(s, j - 1)
    } else {
        j
    }
}

proof fn lemma_ws_suffix_start_le(s: Seq<char>, j: int)
    requires
        0 <= j <= s.len(),
    ensures
        0 <= ws_suffix_start(s, j) <= j,
    decreases j,
{
    if 0 < j && is_ws_char(s[j - 1]) {
        lemma_ws_suffix_start_le(s, j - 1);
    }
}

/// The line with leading and trailing whitespace removed, as
/// `str::trim` leaves it.
pub open spec fn spec_trim(s: Seq<char>) -> Seq<char> {
    let a = ws_prefix_end(s, 0);
    let b = ws_suffix_start(s, s.len() as int);
    if a <= b {
        s.subrange(a, b)
    } else {
        Seq::empty()
    }
}

/// Remove leading and trailing whitespace from a line.
pub fn trim_line(s: &str) -> (r: String)
    ensures
        r@ == spec_trim(s@),
{
    let n: usize = s.unicode_len();
    let mut a: usize = 0;
    while a < n && is_ws_char_x(s.get_char(a))
        invariant
            0 <= a <= n,
            n == s@.len(),
            ws_prefix_end(s@, 0) == ws_prefix_end(s@, a as int),
        decreases n - a,
    {
        a = a + 1;
    }
    assert(ws_prefix_end(s@, 0) == a as int);
    let mut b: usize = n;
    while b > a && is_ws_char_x(s.get_char(b - 1))
        invariant
            a <= b <= n,
            n == s@.len(),
            ws_prefix_end(s@, 0) == a as int,
            ws_suffix_start(s@, n as int) == ws_suffix_start(s@, b as int),
        decreases b,
    {
        b = b - 1;
    }
    if b == a {
        proof {
            lemma_ws_suffix_start_le(s@, a as int);
            assert(s@.subrange(a as int, b as int) =~= Seq::<char>::empty());
            assert(spec_trim(s@) =~= Seq::<char>::empty());
        }
        let sub = s.substring_char(a, b);
        sub.to_owned()
    } else {
        assert(!is_ws_char(s@[b - 1]));
        assert(ws_suffix_start(s@, n as int) == b as int);
        assert(spec_trim(s@) =~= s@.subrange(a as int, b as int));
        let sub = s.substring_char(a, b);
        sub.to_owned()
    }
}

/// Whether a line, once trimmed, is one of the words that end the
/// query loop: `q`, `quit`, or nothing at all.
pub open spec fn spec_is_quit(line: Seq<char>) -> bool {
    spec_trim(line) == "q"@ || spec_trim(line) == "quit"@ || spec_trim(line) == Seq::<
        char,
    >::empty()
}

/// Decide whether a line of input ends the query loop.
pub fn is_quit(line: &str) -> (r: bool)
    ensures
        r == spec_is_quit(line@),
{
    let t = trim_line(line);
    if t.as_str().is_empty() {
        assert(t@ =~= Seq::<char>::empty());
        true
    } else {
        let q = String::from_str("q");
        let quit = String::from_str("quit");
        t == q || t == quit
    }
}

} // verus!
