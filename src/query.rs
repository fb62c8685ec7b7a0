//! Queries of the kanji lookup: `^X` fixes the first character, `(N)` the length.
use crate::text::{chars_of, contains_seq, contains_str, push_char};
use vstd::prelude::*;

verus! {

/// A parsed kanji lookup query.
#[derive(Debug, PartialEq)]
pub struct KanjiQuery {
    pub contains: String,
    pub starts_with: Option<char>,
    pub n_chars: Option<u8>,
}

/// The first index at or after `from` where `s` holds `c`.
pub open spec fn find_char(s: Seq<char>, c: char, from: int) -> Option<int>
    decreases s.len() - from,
{
    if from < 0 || from >= s.len() {
        None
    } else if s[from] == c {
        Some(from)
    } else {
        find_char(s, c, from + 1)
    }
}

/// The decimal value of a string of digits.
pub open spec fn digits_value(d: Seq<char>) -> int
    decreases d.len(),
{
    if d.len() == 0 {
        0
    } else {
        digits_value(d.drop_last()) * 10 + ((d.last() as u32) - 48)
    }
}

pub open spec fn is_digit(c: char) -> bool {
    '0' <= c <= '9'
}

/// A non-empty string of ASCII digits.
pub open spec fn is_digits(d: Seq<char>) -> bool {
    d.len() > 0 && forall|i: int| 0 <= i < d.len() ==> is_digit(#[trigger] d[i])
}

/// What `u8::from_str` accepts: an optional `+`, then digits of a value up to 255.
pub open spec fn parse_u8_spec(s: Seq<char>) -> Option<u8> {
    let d = if s.len() > 0 && s[0] == '+' {
        s.drop_first()
    } else {
        s
    };
    if is_digits(d) && digits_value(d) <= 255 {
        Some(digits_value(d) as u8)
    } else {
        None
    }
}

/// The text to search for after a `^X` prefix, and `X`.
pub open spec fn query_prefix(src: Seq<char>) -> (Seq<char>, Option<char>) {
    if src.len() >= 2 && src[0] == '^' {
        (src.skip(2), Some(src[1]))
    } else {
        (src, None)
    }
}

/// The parts of a query: the text to search for, the first character, the length.
/// A `(...)` group, from the first `(` to the next `)`, is cut off the text; its
/// contents give the length when they are a number.
pub open spec fn query_spec(src: Seq<char>) -> (Seq<char>, Option<char>, Option<u8>) {
    let (c, first) = query_prefix(src);
    match find_char(c, '(', 0) {
        Some(open) => match find_char(c, ')', open) {
            Some(close) => (c.take(open), first, parse_u8_spec(c.subrange(open + 1, close))),
            None => (c, first, None),
        },
        None => (c, first, None),
    }
}

proof fn lemma_find_char_bounds(s: Seq<char>, c: char, from: int)
    ensures
        find_char(s, c, from) matches Some(i) ==> from <= i < s.len() && s[i] == c,
        find_char(s, c, from) is None ==> forall|i: int| 0 <= from <= i < s.len() ==> s[i] != c,
    decreases s.len() - from,
{
    if 0 <= from < s.len() && s[from] != c {
        lemma_find_char_bounds(s, c, from + 1);
    }
}

proof fn lemma_digits_value_grows(d: Seq<char>, i: int)
    requires
        0 <= i <= d.len(),
        forall|k: int| 0 <= k < d.len() ==> is_digit(#[trigger] d[k]),
    ensures
        digits_value(d) >= digits_value(d.take(i)),
        digits_value(d.take(i)) >= 0,
    decreases d.len(),
{
    if i < d.len() {
        let e = d.drop_last();
        assert(e.take(i) =~= d.take(i));
        assert forall|k: int| 0 <= k < e.len() implies is_digit(#[trigger] e[k]) by {
            assert(e[k] == d[k]);
        }
        lemma_digits_value_grows(e, i);
        assert(is_digit(d[d.len() - 1]));
    } else {
        assert(d.take(i) =~= d);
        if d.len() > 0 {
            let e = d.drop_last();
            assert forall|k: int| 0 <= k < e.len() implies is_digit(#[trigger] e[k]) by {
                assert(e[k] == d[k]);
            }
            lemma_digits_value_grows(e, e.len() as int);
            assert(e.take(e.len() as int) =~= e);
            assert(is_digit(d[d.len() - 1]));
        }
    }
}

/// `s[from..to]` read as a `u8`, as `u8::from_str` reads it.
pub fn parse_u8(s: &Vec<char>, from: usize, to: usize) -> (r: Option<u8>)
    requires
        from <= to <= s@.len(),
    ensures
        r == parse_u8_spec(s@.subrange(from as int, to as int)),
{
    let ghost t = s@.subrange(from as int, to as int);
    let start = if from < to && s[from] == '+' {
        from + 1
    } else {
        from
    };
    let ghost d = s@.subrange(start as int, to as int);
    assert(d =~= if t.len() > 0 && t[0] == '+' { t.drop_first() } else { t });
    if start == to {
        return None;
    }
    let mut value: u32 = 0;
    let mut i: usize = start;
    while i < to
        invariant
            start <= i <= to <= s@.len(),
            start < to,
            d == s@.subrange(start as int, to as int),
            t == s@.subrange(from as int, to as int),
            d == if t.len() > 0 && t[0] == '+' { t.drop_first() } else { t },
            value <= 255,
            forall|k: int| 0 <= k < i - start ==> is_digit(#[trigger] d[k]),
            value == digits_value(d.take(i - start)),
        decreases to - i,
    {
        let c = s[i];
        assert(d[i - start] == c);
        if !('0' <= c && c <= '9') {
            assert(!is_digit(d[i - start]));
            assert(!is_digits(d));
            return None;
        }
        let ghost p = d.take(i - start + 1);
        assert(p.drop_last() =~= d.take(i - start));
        value = value * 10 + (c as u32 - 48);
        assert(p.last() == c);
        assert(value == digits_value(p));
        if value > 255 {
            proof {
                assert forall|k: int| 0 <= k < i - start + 1 implies is_digit(#[trigger] d[k]) by {}
                if is_digits(d) {
                    lemma_digits_value_grows(d, i - start + 1);
                    assert(d.take(i - start + 1) == p);
                }
            }
            return None;
        }
        i = i + 1;
    }
    assert(d.take(d.len() as int) =~= d);
    Some(value as u8)
}

/// The first index at or after `from` where `s` holds `c`.
fn find(s: &Vec<char>, c: char, from: usize) -> (r: Option<usize>)
    requires
        from <= s@.len(),
    ensures
        r matches Some(i) ==> find_char(s@, c, from as int) == Some(i as int) && from <= i
            < s@.len() && s@[i as int] == c,
        r is None ==> find_char(s@, c, from as int) is None,
{
    let mut i = from;
    while i < s.len()
        invariant
            from <= i <= s@.len(),
            find_char(s@, c, from as int) == find_char(s@, c, i as int),
        decreases s.len() - i,
    {
        if s[i] == c {
            return Some(i);
        }
        i = i + 1;
    }
    None
}

/// A string of `s[from..to]`.
fn string_of(s: &Vec<char>, from: usize, to: usize) -> (r: String)
    requires
        from <= to <= s@.len(),
    ensures
        r@ == s@.subrange(from as int, to as int),
{
    let mut out = String::new();
    let mut i = from;
    while i < to
        invariant
            from <= i <= to <= s@.len(),
            out@ == s@.subrange(from as int, i as int),
        decreases to - i,
    {
        push_char(&mut out, s[i]);
        assert(s@.subrange(from as int, i + 1) =~= s@.subrange(from as int, i as int).push(s@[i as int]));
        i = i + 1;
    }
    out
}

impl KanjiQuery {
    pub fn from_str(src: &str) -> (r: Self)
        ensures
            (r.contains@, r.starts_with, r.n_chars) == query_spec(src@),
    {
        let s = chars_of(src);
        let mut start: usize = 0;
        let mut begins_with: Option<char> = None;
        if s.len() >= 2 && s[0] == '^' {
            begins_with = Some(s[1]);
            start = 2;
        }
        let ghost c = query_prefix(src@).0;
        assert(c =~= s@.subrange(start as int, s@.len() as int));
        let len = s.len();
        let mut contains_end = len;
        let mut n_chars: Option<u8> = None;
        match find(&s, '(', start) {
            Some(open) => {
                match find(&s, ')', open) {
                    Some(close) => {
                        proof {
                            lemma_find_shift(s@, start as int, '(', start as int);
                            lemma_find_shift(s@, start as int, ')', open as int);
                            lemma_find_char_bounds(s@, ')', open as int);
                        }
                        contains_end = open;
                        n_chars = parse_u8(&s, open + 1, close);
                        assert(c.subrange(open - start + 1, close - start) =~= s@.subrange(open + 1, close as int));
                        assert(c.take(open - start) =~= s@.subrange(start as int, open as int));
                    },
                    None => {
                        proof {
                            lemma_find_shift(s@, start as int, '(', start as int);
                            lemma_find_shift(s@, start as int, ')', open as int);
                        }
                    },
                }
            },
            None => {
                proof {
                    lemma_find_shift(s@, start as int, '(', start as int);
                }
            },
        }
        KanjiQuery { contains: string_of(&s, start, contains_end), starts_with: begins_with, n_chars }
    }

    /// The written form `text` meets the query.
    pub open spec fn matches_spec(&self, text: Seq<char>) -> bool {
        &&& contains_seq(text, self.contains@)
        &&& (self.starts_with matches Some(c) ==> text.len() > 0 && text[0] == c)
        &&& (self.n_chars matches Some(n) ==> text.len() == n)
    }

    /// The written form `text` meets the query.
    pub fn matches(&self, text: &str) -> (r: bool)
        ensures
            r == self.matches_spec(text@),
    {
        let t = chars_of(text);
        let needle = chars_of(self.contains.as_str());
        if !contains_str(&t, &needle) {
            return false;
        }
        match self.starts_with {
            Some(c) => {
                if t.len() == 0 || t[0] != c {
                    return false;
                }
            },
            None => {},
        }
        match self.n_chars {
            Some(n) => t.len() == n as usize,
            None => true,
        }
    }
}

/// Finding in `s[base..]` is finding in `s`, shifted by `base`.
proof fn lemma_find_shift(s: Seq<char>, base: int, c: char, from: int)
    requires
        0 <= base <= from <= s.len(),
    ensures
        find_char(s.skip(base), c, from - base) == match find_char(s, c, from) {
            Some(i) => Some(i - base),
            None => None,
        },
    decreases s.len() - from,
{
    if from < s.len() && s[from] != c {
        lemma_find_shift(s, base, c, from + 1);
    }
}

} // verus!
