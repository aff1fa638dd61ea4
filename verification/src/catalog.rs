//! Parsing the catalog file: a JSON array of clothing records.
//!
//! The grammar is the file's own shape: an array of objects, each with
//! the six fields `id` (a non-negative integer that fits the machine),
//! `seaon`, `article`, `size` and `pattern` (strings without escape
//! sequences) and `cost` (a JSON number, kept as its digits), each
//! field exactly once, in any order. The executable parser returns
//! exactly what the specification-level parser denotes.

use vstd::prelude::*;
use crate::records::Clothes;
use crate::records::ClothesV;
use crate::records::views_of_clothes;

verus! {

/// Parsing failed: the text is not a catalog of the grammar above.
#[derive(Debug)]
pub enum ParseError {
    Malformed,
}

/// JSON whitespace: space, tab, line feed, carriage return.
pub open spec fn is_json_ws(c: char) -> bool {
    c == ' ' || c == '\t' || c == '\n' || c == '\r'
}

fn is_json_ws_x(c: char) -> (r: bool)
    ensures
        r == is_json_ws(c),
{
    c == ' ' || c == '\t' || c == '\n' || c == '\r'
}

/// First index at or after `i` that does not hold JSON whitespace.
pub open spec fn skip_ws(s: Seq<char>, i: int) -> int
    decreases s.len() - i,
{
    if 0 <= i && i < s.len() && is_json_ws(s[i]) {
        skip_ws(s, i + 1)
    } else {
        i
    }
}

fn skip_ws_x(s: &str, n: usize, i: usize) -> (r: usize)
    requires
        n == s@.len(),
        i <= n,
    ensures
        r == skip_ws(s@, i as int),
        i <= r <= n,
{
    let mut j: usize = i;
    while j < n && is_json_ws_x(s.get_char(j))
        invariant
            i <= j <= n,
            n == s@.len(),
            skip_ws(s@, i as int) == skip_ws(s@, j as int),
        decreases n - j,
    {
        j = j + 1;
    }
    j
}

/// A decimal digit.
pub open spec fn is_digit(c: char) -> bool {
    48 <= c as u32 && c as u32 <= 57
}

fn is_digit_x(c: char) -> (r: bool)
    ensures
        r == is_digit(c),
{
    let u: u32 = c as u32;
    48 <= u && u <= 57
}

/// First index at or after `i` that does not hold a digit.
pub open spec fn skip_digits(s: Seq<char>, i: int) -> int
    decreases s.len() - i,
{
    if 0 <= i && i < s.len() && is_digit(s[i]) {
        skip_digits(s, i + 1)
    } else {
        i
    }
}

proof fn lemma_skip_digits_range(s: Seq<char>, i: int)
    requires
        0 <= i <= s.len(),
    ensures
        i <= skip_digits(s, i) <= s.len(),
        forall|k: int| i <= k < skip_digits(s, i) ==> is_digit(s[k]),
    decreases s.len() - i,
{
    if i < s.len() && is_digit(s[i]) {
        lemma_skip_digits_range(s, i + 1);
    }
}

fn skip_digits_x(s: &str, n: usize, i: usize) -> (r: usize)
    requires
        n == s@.len(),
        i <= n,
    ensures
        r == skip_digits(s@, i as int),
        i <= r <= n,
{
    let mut j: usize = i;
    while j < n && is_digit_x(s.get_char(j))
        invariant
            i <= j <= n,
            n == s@.len(),
            skip_digits(s@, i as int) == skip_digits(s@, j as int),
        decreases n - j,
    {
        j = j + 1;
    }
    j
}

/// A character that may stand inside a string literal of the catalog:
/// anything but a quote, a backslash, or a control character.
pub open spec fn is_string_char(c: char) -> bool {
    c != '"' && c != '\\' && c as u32 >= 32
}

/// Index just past the closing quote, scanning content from `i`.
pub open spec fn scan_string(s: Seq<char>, i: int) -> Option<int>
    decreases s.len() - i,
{
    if 0 <= i && i < s.len() {
        if s[i] == '"' {
            Some(i + 1)
        } else if is_string_char(s[i]) {
            scan_string(s, i + 1)
        } else {
            None
        }
    } else {
        None
    }
}

/// A string literal at `i`: the index just past it and its content.
pub open spec fn spec_parse_string(s: Seq<char>, i: int) -> Option<(int, Seq<char>)> {
    if 0 <= i && i < s.len() && s[i] == '"' {
        match scan_string(s, i + 1) {
            Some(j) => Some((j, s.subrange(i + 1, j - 1))),
            None => None,
        }
    } else {
        None
    }
}

fn parse_string_x(s: &str, n: usize, i: usize) -> (r: Option<(usize, String)>)
    requires
        n == s@.len(),
        i <= n,
    ensures
        match r {
            Some(p) => spec_parse_string(s@, i as int) == Some((p.0 as int, p.1@)) && i < p.0
                <= n,
            None => spec_parse_string(s@, i as int) is None,
        },
{
    if i < n && s.get_char(i) == '"' {
        let mut j: usize = i + 1;
        loop
            invariant
                i + 1 <= j <= n,
                n == s@.len(),
                s@[i as int] == '"',
                scan_string(s@, i + 1 as int) == scan_string(s@, j as int),
            decreases n - j,
        {
            if j < n {
                let c = s.get_char(j);
                if c == '"' {
                    let t = s.substring_char(i + 1, j).to_owned();
                    return Some((j + 1, t));
                } else if c != '\\' && c as u32 >= 32 {
                    j = j + 1;
                } else {
                    return None;
                }
            } else {
                return None;
            }
        }
    } else {
        None
    }
}

/// Value of the digits in `s[i .. j]`, most significant first.
pub open spec fn digits_value(s: Seq<char>, i: int, j: int) -> int
    decreases j - i,
{
    if i < j {
        digits_value(s, i, j - 1) * 10 + (s[j - 1] as u32 - 48)
    } else {
        0
    }
}

/// Ten to the `n`th power.
pub open spec fn pow10(n: nat) -> int
    decreases n,
{
    if n == 0 {
        1
    } else {
        10 * pow10((n - 1) as nat)
    }
}

proof fn lemma_pow10_pos(n: nat)
    ensures
        pow10(n) > 0,
    decreases n,
{
    if n > 0 {
        lemma_pow10_pos((n - 1) as nat);
    }
}

proof fn lemma_pow10_mono(a: nat, b: nat)
    requires
        a <= b,
    ensures
        0 < pow10(a) <= pow10(b),
    decreases b,
{
    lemma_pow10_pos(a);
    if a < b {
        lemma_pow10_mono(a, (b - 1) as nat);
    }
}

proof fn lemma_pow10_19()
    ensures
        pow10(19) == 10_000_000_000_000_000_000,
{
    reveal_with_fuel(pow10, 21);
}

proof fn lemma_digits_value_bound(s: Seq<char>, i: int, j: int)
    requires
        0 <= i <= j <= s.len(),
        forall|k: int| i <= k < j ==> is_digit(s[k]),
    ensures
        0 <= digits_value(s, i, j) < pow10((j - i) as nat),
    decreases j - i,
{
    if i < j {
        lemma_digits_value_bound(s, i, j - 1);
        assert(is_digit(s[j - 1]));
    } else {
        assert(pow10(0) == 1);
    }
}

/// End of a JSON integer part at `i`: one `0`, or digits without a
/// leading zero.
pub open spec fn spec_int_end(s: Seq<char>, i: int) -> Option<int> {
    if 0 <= i && i < s.len() && is_digit(s[i]) {
        if s[i] == '0' {
            Some(i + 1)
        } else {
            Some(skip_digits(s, i))
        }
    } else {
        None
    }
}

/// A non-negative integer at `i` that fits the machine's word: the
/// index just past it and its value.
pub open spec fn spec_parse_uint(s: Seq<char>, i: int) -> Option<(int, int)> {
    match spec_int_end(s, i) {
        None => None,
        Some(e) => {
            if e < s.len() && (s[e] == '.' || s[e] == 'e' || s[e] == 'E') {
                None
            } else if e - i <= 20 && digits_value(s, i, e) <= usize::MAX as int {
                Some((e, digits_value(s, i, e)))
            } else {
                None
            }
        },
    }
}

fn parse_uint_x(s: &str, n: usize, i: usize) -> (r: Option<(usize, usize)>)
    requires
        n == s@.len(),
        i <= n,
    ensures
        match r {
            Some(p) => spec_parse_uint(s@, i as int) == Some((p.0 as int, p.1 as int)) && i < p.0
                <= n,
            None => spec_parse_uint(s@, i as int) is None,
        },
{
    if !(i < n && is_digit_x(s.get_char(i))) {
        return None;
    }
    let e: usize = if s.get_char(i) == '0' {
        i + 1
    } else {
        skip_digits_x(s, n, i)
    };
    proof {
        lemma_skip_digits_range(s@, i as int);
        lemma_skip_digits_range(s@, i as int + 1);
        assert(forall|k: int| i <= k < e ==> is_digit(s@[k]));
        assert(i < e <= n);
        assert(spec_int_end(s@, i as int) == Some(e as int));
    }
    if e < n {
        let c = s.get_char(e);
        if c == '.' || c == 'e' || c == 'E' {
            return None;
        }
    }
    if e - i > 20 {
        return None;
    }
    let mut val: u128 = 0;
    let mut k: usize = i;
    while k < e
        invariant
            i <= k <= e <= n,
            e - i <= 20,
            n == s@.len(),
            forall|t: int| i <= t < e ==> is_digit(s@[t]),
            val as int == digits_value(s@, i as int, k as int),
            (val as int) < pow10((k - i) as nat),
        decreases e - k,
    {
        let c = s.get_char(k);
        assert(is_digit(s@[k as int]));
        let d: u128 = (c as u32 - 48) as u128;
        proof {
            lemma_pow10_mono((k - i) as nat, 19);
            lemma_pow10_19();
        }
        val = val * 10 + d;
        k = k + 1;
    }
    if val <= usize::MAX as u128 {
        proof {
            assert(digits_value(s@, i as int, e as int) == val as int);
            assert((val as usize) as int == val as int);
        }
        Some((e, val as usize))
    } else {
        None
    }
}

/// End of the fraction part that may follow position `i`.
pub open spec fn spec_frac_end(s: Seq<char>, i: int) -> Option<int> {
    if 0 <= i && i < s.len() && s[i] == '.' {
        if i + 1 < s.len() && is_digit(s[i + 1]) {
            Some(skip_digits(s, i + 1))
        } else {
            None
        }
    } else {
        Some(i)
    }
}

/// End of the exponent part that may follow position `i`.
pub open spec fn spec_exp_end(s: Seq<char>, i: int) -> Option<int> {
    if 0 <= i && i < s.len() && (s[i] == 'e' || s[i] == 'E') {
        let j = if i + 1 < s.len() && (s[i + 1] == '+' || s[i + 1] == '-') {
            i + 2
        } else {
            i + 1
        };
        if j < s.len() && is_digit(s[j]) {
            Some(skip_digits(s, j))
        } else {
            None
        }
    } else {
        Some(i)
    }
}

/// A JSON number at `i`: the index just past it and its digits, kept
/// as they stand in the text.
pub open spec fn spec_parse_number(s: Seq<char>, i: int) -> Option<(int, Seq<char>)> {
    let st = if 0 <= i && i < s.len() && s[i] == '-' {
        i + 1
    } else {
        i
    };
    match spec_int_end(s, st) {
        None => None,
        Some(a) => match spec_frac_end(s, a) {
            None => None,
            Some(b) => match spec_exp_end(s, b) {
                None => None,
                Some(e) => Some((e, s.subrange(i, e))),
            },
        },
    }
}

fn parse_number_x(s: &str, n: usize, i: usize) -> (r: Option<(usize, String)>)
    requires
        n == s@.len(),
        i <= n,
    ensures
        match r {
            Some(p) => spec_parse_number(s@, i as int) == Some((p.0 as int, p.1@)) && i < p.0
                <= n,
            None => spec_parse_number(s@, i as int) is None,
        },
{
    let st: usize = if i < n && s.get_char(i) == '-' {
        i + 1
    } else {
        i
    };
    if !(st < n && is_digit_x(s.get_char(st))) {
        return None;
    }
    let a: usize = if s.get_char(st) == '0' {
        st + 1
    } else {
        proof {
            lemma_skip_digits_range(s@, st as int);
            lemma_skip_digits_range(s@, st as int + 1);
        }
        skip_digits_x(s, n, st)
    };
    assert(a > st);
    let b: usize;
    if a < n && s.get_char(a) == '.' {
        if a + 1 < n && is_digit_x(s.get_char(a + 1)) {
            b = skip_digits_x(s, n, a + 1);
        } else {
            return None;
        }
    } else {
        b = a;
    }
    let e: usize;
    if b < n && (s.get_char(b) == 'e' || s.get_char(b) == 'E') {
        let j2: usize = if b + 1 < n && (s.get_char(b + 1) == '+' || s.get_char(b + 1) == '-') {
            b + 2
        } else {
            b + 1
        };
        if j2 < n && is_digit_x(s.get_char(j2)) {
            e = skip_digits_x(s, n, j2);
        } else {
            return None;
        }
    } else {
        e = b;
    }
    let t = s.substring_char(i, e).to_owned();
    Some((e, t))
}

/// The fields of a record gathered so far, while an object is read.
pub ghost struct PartialV {
    pub id: Option<int>,
    pub seaon: Option<Seq<char>>,
    pub article: Option<Seq<char>>,
    pub cost: Option<Seq<char>>,
    pub size: Option<Seq<char>>,
    pub pattern: Option<Seq<char>>,
}

/// No field gathered yet.
pub open spec fn empty_partial() -> PartialV {
    PartialV {
        id: None,
        seaon: None,
        article: None,
        cost: None,
        size: None,
        pattern: None,
    }
}

/// All six fields gathered.
pub open spec fn partial_complete(p: PartialV) -> bool {
    p.id is Some && p.seaon is Some && p.article is Some && p.cost is Some && p.size is Some
        && p.pattern is Some
}

/// The record a complete gathering denotes.
pub open spec fn finish_partial(p: PartialV) -> ClothesV {
    ClothesV {
        id: p.id->0,
        seaon: p.seaon->0,
        article: p.article->0,
        cost: p.cost->0,
        size: p.size->0,
        pattern: p.pattern->0,
    }
}

struct Partial {
    id: Option<usize>,
    seaon: Option<String>,
    article: Option<String>,
    cost: Option<String>,
    size: Option<String>,
    pattern: Option<String>,
}

impl View for Partial {
    type V = PartialV;

    closed spec fn view(&self) -> PartialV {
        PartialV {
            id: match self.id {
                Some(v) => Some(v as int),
                None => None,
            },
            seaon: match self.seaon {
                Some(ref t) => Some(t@),
                None => None,
            },
            article: match self.article {
                Some(ref t) => Some(t@),
                None => None,
            },
            cost: match self.cost {
                Some(ref t) => Some(t@),
                None => None,
            },
            size: match self.size {
                Some(ref t) => Some(t@),
                None => None,
            },
            pattern: match self.pattern {
                Some(ref t) => Some(t@),
                None => None,
            },
        }
    }
}

/// One `"key": value` pair at `i`, added to what is gathered: the
/// index just past the value and the new gathering. A key that is not
/// one of the six, a key seen before, or a value of the wrong shape
/// fails.
pub open spec fn spec_parse_pair(s: Seq<char>, i: int, p: PartialV) -> Option<(int, PartialV)> {
    match spec_parse_string(s, i) {
        None => None,
        Some((j, key)) => {
            let k = skip_ws(s, j);
            if k < s.len() && s[k] == ':' {
                let m = skip_ws(s, k + 1);
                if key == "id"@ {
                    if p.id is Some {
                        None
                    } else {
                        match spec_parse_uint(s, m) {
                            None => None,
                            Some((e, v)) => Some((e, PartialV { id: Some(v), ..p })),
                        }
                    }
                } else if key == "seaon"@ {
                    if p.seaon is Some {
                        None
                    } else {
                        match spec_parse_string(s, m) {
                            None => None,
                            Some((e, t)) => Some((e, PartialV { seaon: Some(t), ..p })),
                        }
                    }
                } else if key == "article"@ {
                    if p.article is Some {
                        None
                    } else {
                        match spec_parse_string(s, m) {
                            None => None,
                            Some((e, t)) => Some((e, PartialV { article: Some(t), ..p })),
                        }
                    }
                } else if key == "cost"@ {
                    if p.cost is Some {
                        None
                    } else {
                        match spec_parse_number(s, m) {
                            None => None,
                            Some((e, t)) => Some((e, PartialV { cost: Some(t), ..p })),
                        }
                    }
                } else if key == "size"@ {
                    if p.size is Some {
                        None
                    } else {
                        match spec_parse_string(s, m) {
                            None => None,
                            Some((e, t)) => Some((e, PartialV { size: Some(t), ..p })),
                        }
                    }
                } else if key == "pattern"@ {
                    if p.pattern is Some {
                        None
                    } else {
                        match spec_parse_string(s, m) {
                            None => None,
                            Some((e, t)) => Some((e, PartialV { pattern: Some(t), ..p })),
                        }
                    }
                } else {
                    None
                }
            } else {
                None
            }
        },
    }
}

fn parse_pair_x(s: &str, n: usize, i: usize, p: Partial) -> (r: Option<(usize, Partial)>)
    requires
        n == s@.len(),
        i <= n,
    ensures
        match r {
            Some(q) => spec_parse_pair(s@, i as int, p@) == Some((q.0 as int, q.1@)) && i < q.0
                <= n,
            None => spec_parse_pair(s@, i as int, p@) is None,
        },
{
    let key = match parse_string_x(s, n, i) {
        None => {
            return None;
        },
        Some(kj) => kj,
    };
    let (j, key) = key;
    let k = skip_ws_x(s, n, j);
    if !(k < n && s.get_char(k) == ':') {
        return None;
    }
    let m = skip_ws_x(s, n, k + 1);
    if key == String::from_str("id") {
        if p.id.is_some() {
            return None;
        }
        match parse_uint_x(s, n, m) {
            None => None,
            Some(ev) => Some((ev.0, Partial { id: Some(ev.1), ..p })),
        }
    } else if key == String::from_str("seaon") {
        if p.seaon.is_some() {
            return None;
        }
        match parse_string_x(s, n, m) {
            None => None,
            Some(et) => Some((et.0, Partial { seaon: Some(et.1), ..p })),
        }
    } else if key == String::from_str("article") {
        if p.article.is_some() {
            return None;
        }
        match parse_string_x(s, n, m) {
            None => None,
            Some(et) => Some((et.0, Partial { article: Some(et.1), ..p })),
        }
    } else if key == String::from_str("cost") {
        if p.cost.is_some() {
            return None;
        }
        match parse_number_x(s, n, m) {
            None => None,
            Some(et) => Some((et.0, Partial { cost: Some(et.1), ..p })),
        }
    } else if key == String::from_str("size") {
        if p.size.is_some() {
            return None;
        }
        match parse_string_x(s, n, m) {
            None => None,
            Some(et) => Some((et.0, Partial { size: Some(et.1), ..p })),
        }
    } else if key == String::from_str("pattern") {
        if p.pattern.is_some() {
            return None;
        }
        match parse_string_x(s, n, m) {
            None => None,
            Some(et) => Some((et.0, Partial { pattern: Some(et.1), ..p })),
        }
    } else {
        None
    }
}

/// `cnt` more pairs, separated by commas and closed by `}`: the index
/// just past the brace and the full gathering.
pub open spec fn spec_parse_pairs(s: Seq<char>, i: int, p: PartialV, cnt: nat) -> Option<
    (int, PartialV),
>
    decreases cnt,
{
    if cnt == 0 {
        None
    } else {
        match spec_parse_pair(s, i, p) {
            None => None,
            Some((j, p2)) => {
                let m = skip_ws(s, j);
                if cnt == 1 {
                    if m < s.len() && s[m] == '}' {
                        Some((m + 1, p2))
                    } else {
                        None
                    }
                } else {
                    if m < s.len() && s[m] == ',' {
                        spec_parse_pairs(s, skip_ws(s, m + 1), p2, (cnt - 1) as nat)
                    } else {
                        None
                    }
                }
            },
        }
    }
}

fn parse_pairs_x(s: &str, n: usize, i: usize, p: Partial, cnt: usize) -> (r: Option<
    (usize, Partial),
>)
    requires
        n == s@.len(),
        i <= n,
    ensures
        match r {
            Some(q) => spec_parse_pairs(s@, i as int, p@, cnt as nat) == Some((q.0 as int, q.1@))
                && i < q.0 <= n,
            None => spec_parse_pairs(s@, i as int, p@, cnt as nat) is None,
        },
    decreases cnt,
{
    if cnt == 0 {
        return None;
    }
    match parse_pair_x(s, n, i, p) {
        None => None,
        Some(jp) => {
            let (j, p2) = jp;
            let m = skip_ws_x(s, n, j);
            if cnt == 1 {
                if m < n && s.get_char(m) == '}' {
                    Some((m + 1, p2))
                } else {
                    None
                }
            } else {
                if m < n && s.get_char(m) == ',' {
                    let m2 = skip_ws_x(s, n, m + 1);
                    parse_pairs_x(s, n, m2, p2, cnt - 1)
                } else {
                    None
                }
            }
        },
    }
}

/// One catalog record at `i`: an object of exactly the six fields.
pub open spec fn spec_parse_record(s: Seq<char>, i: int) -> Option<(int, ClothesV)> {
    if 0 <= i && i < s.len() && s[i] == '{' {
        match spec_parse_pairs(s, skip_ws(s, i + 1), empty_partial(), 6) {
            None => None,
            Some((j, p)) => if partial_complete(p) {
                Some((j, finish_partial(p)))
            } else {
                None
            },
        }
    } else {
        None
    }
}

fn parse_record_x(s: &str, n: usize, i: usize) -> (r: Option<(usize, Clothes)>)
    requires
        n == s@.len(),
        i <= n,
    ensures
        match r {
            Some(q) => spec_parse_record(s@, i as int) == Some((q.0 as int, q.1@)) && i < q.0
                <= n,
            None => spec_parse_record(s@, i as int) is None,
        },
{
    if !(i < n && s.get_char(i) == '{') {
        return None;
    }
    let j0 = skip_ws_x(s, n, i + 1);
    let start = Partial {
        id: None,
        seaon: None,
        article: None,
        cost: None,
        size: None,
        pattern: None,
    };
    assert(start@ == empty_partial());
    match parse_pairs_x(s, n, j0, start, 6) {
        None => None,
        Some(jp) => {
            let (j, p) = jp;
            if p.id.is_some() && p.seaon.is_some() && p.article.is_some() && p.cost.is_some()
                && p.size.is_some() && p.pattern.is_some() {
                let c = Clothes {
                    id: p.id.unwrap(),
                    seaon: p.seaon.unwrap(),
                    article: p.article.unwrap(),
                    cost: p.cost.unwrap(),
                    size: p.size.unwrap(),
                    pattern: p.pattern.unwrap(),
                };
                Some((j, c))
            } else {
                None
            }
        },
    }
}

/// The elements of a non-empty array from `i` on, closed by `]`: the
/// index just past the bracket and all records gathered.
pub open spec fn spec_parse_elems(s: Seq<char>, i: int, acc: Seq<ClothesV>) -> Option<
    (int, Seq<ClothesV>),
>
    decreases s.len() - i,
{
    match spec_parse_record(s, i) {
        None => None,
        Some((j, rv)) => {
            let k = skip_ws(s, j);
            if k < s.len() && s[k] == ',' {
                let m = skip_ws(s, k + 1);
                if i < m && m <= s.len() {
                    spec_parse_elems(s, m, acc.push(rv))
                } else {
                    None
                }
            } else if k < s.len() && s[k] == ']' {
                Some((k + 1, acc.push(rv)))
            } else {
                None
            }
        },
    }
}

fn parse_elems_x(s: &str, n: usize, i: usize, acc: Vec<Clothes>) -> (r: Option<
    (usize, Vec<Clothes>),
>)
    requires
        n == s@.len(),
        i <= n,
    ensures
        match r {
            Some(q) => spec_parse_elems(s@, i as int, views_of_clothes(acc@)) == Some(
                (q.0 as int, views_of_clothes(q.1@)),
            ) && q.0 <= n,
            None => spec_parse_elems(s@, i as int, views_of_clothes(acc@)) is None,
        },
    decreases n - i,
{
    match parse_record_x(s, n, i) {
        None => None,
        Some(jc) => {
            let (j, c) = jc;
            let ghost cv = c@;
            let mut acc2 = acc;
            acc2.push(c);
            proof {
                assert(views_of_clothes(acc2@) =~= views_of_clothes(acc@).push(cv));
            }
            let k = skip_ws_x(s, n, j);
            if k < n && s.get_char(k) == ',' {
                let m = skip_ws_x(s, n, k + 1);
                parse_elems_x(s, n, m, acc2)
            } else if k < n && s.get_char(k) == ']' {
                Some((k + 1, acc2))
            } else {
                None
            }
        },
    }
}

/// The whole catalog: optional whitespace, an array of records,
/// optional whitespace, and nothing after it.
pub open spec fn spec_parse_catalog(s: Seq<char>) -> Option<Seq<ClothesV>> {
    let i = skip_ws(s, 0);
    if i < s.len() && s[i] == '[' {
        let j = skip_ws(s, i + 1);
        if j < s.len() && s[j] == ']' {
            if skip_ws(s, j + 1) == s.len() {
                Some(Seq::empty())
            } else {
                None
            }
        } else {
            match spec_parse_elems(s, j, Seq::empty()) {
                None => None,
                Some((e, recs)) => if skip_ws(s, e) == s.len() {
                    Some(recs)
                } else {
                    None
                },
            }
        }
    } else {
        None
    }
}

/// Parse the catalog file's text into its records.
///
/// Succeeds exactly on text of the catalog grammar, and then returns
/// exactly the records the text denotes; on any other text it returns
/// the error.
pub fn parse_catalog(s: &str) -> (r: Result<Vec<Clothes>, ParseError>)
    ensures
        match r {
            Ok(v) => spec_parse_catalog(s@) == Some(views_of_clothes(v@)),
            Err(_) => spec_parse_catalog(s@) is None,
        },
{
    let n = s.unicode_len();
    let i = skip_ws_x(s, n, 0);
    if i < n && s.get_char(i) == '[' {
        let j = skip_ws_x(s, n, i + 1);
        if j < n && s.get_char(j) == ']' {
            let t = skip_ws_x(s, n, j + 1);
            if t == n {
                let v: Vec<Clothes> = Vec::new();
                proof {
                    assert(views_of_clothes(v@) =~= Seq::<ClothesV>::empty());
                }
                Ok(v)
            } else {
                Err(ParseError::Malformed)
            }
        } else {
            let start: Vec<Clothes> = Vec::new();
            proof {
                assert(views_of_clothes(start@) =~= Seq::<ClothesV>::empty());
            }
            match parse_elems_x(s, n, j, start) {
                None => Err(ParseError::Malformed),
                Some(ev) => {
                    let (e, v) = ev;
                    let t = skip_ws_x(s, n, e);
                    if t == n {
                        Ok(v)
                    } else {
                        Err(ParseError::Malformed)
                    }
                },
            }
        }
    } else {
        Err(ParseError::Malformed)
    }
}

} // verus!
