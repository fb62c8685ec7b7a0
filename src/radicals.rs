//! The radical catalog.
use crate::text::{chars_of, contains_seq, contains_str};
use vstd::prelude::*;

verus! {

/// One radical: its glyph variants, formal names and common names.
pub struct Radical {
    pub chars: Vec<char>,
    pub names: Vec<String>,
    pub common_names: Vec<String>,
}

impl Radical {
    /// One of the common names contains `frag`.
    pub open spec fn named_like(&self, frag: Seq<char>) -> bool {
        exists|i: int|
            0 <= i < self.common_names@.len() && contains_seq(#[trigger] self.common_names@[i]@, frag)
    }
}

/// The indices, in order, of the first `n` radicals that are named like `frag`.
pub open spec fn radicals_named_like(rads: Seq<Radical>, frag: Seq<char>, n: int) -> Seq<usize>
    decreases n,
{
    if n <= 0 {
        seq![]
    } else {
        let prev = radicals_named_like(rads, frag, n - 1);
        if rads[n - 1].named_like(frag) {
            prev.push((n - 1) as usize)
        } else {
            prev
        }
    }
}

/// The indices of the radicals one of whose common names contains `name_frag`.
pub fn by_name(radicals: &Vec<Radical>, name_frag: &str) -> (r: Vec<usize>)
    ensures
        r@ == radicals_named_like(radicals@, name_frag@, radicals@.len() as int),
{
    let frag = chars_of(name_frag);
    let mut out: Vec<usize> = Vec::new();
    let mut i: usize = 0;
    while i < radicals.len()
        invariant
            i <= radicals@.len(),
            frag@ == name_frag@,
            out@ == radicals_named_like(radicals@, name_frag@, i as int),
        decreases radicals.len() - i,
    {
        let names = &radicals[i].common_names;
        let mut found = false;
        let mut j: usize = 0;
        while j < names.len() && !found
            invariant
                i < radicals@.len(),
                names == radicals@[i as int].common_names,
                frag@ == name_frag@,
                j <= names@.len(),
                found ==> radicals@[i as int].named_like(name_frag@),
                !found ==> forall|m: int| 0 <= m < j ==> !contains_seq(#[trigger] names@[m]@, name_frag@),
            decreases names.len() - j,
        {
            let name = chars_of(names[j].as_str());
            if contains_str(&name, &frag) {
                found = true;
            }
            j = j + 1;
        }
        if found {
            out.push(i);
        }
        i = i + 1;
    }
    out
}

/// The indices, in order, of the first `n` radicals that are named like `a` or like `b`.
pub open spec fn radicals_named_like_either(rads: Seq<Radical>, a: Seq<char>, b: Seq<char>, n: int) -> Seq<
    usize,
>
    decreases n,
{
    if n <= 0 {
        seq![]
    } else {
        let prev = radicals_named_like_either(rads, a, b, n - 1);
        if rads[n - 1].named_like(a) || rads[n - 1].named_like(b) {
            prev.push((n - 1) as usize)
        } else {
            prev
        }
    }
}

/// The indices, in order, of the first `n` radicals with `c` among their glyphs.
pub open spec fn radicals_with_glyph(rads: Seq<Radical>, c: char, n: int) -> Seq<usize>
    decreases n,
{
    if n <= 0 {
        seq![]
    } else {
        let prev = radicals_with_glyph(rads, c, n - 1);
        if rads[n - 1].chars@.contains(c) {
            prev.push((n - 1) as usize)
        } else {
            prev
        }
    }
}

/// One of the common names of `rad` contains `frag`.
fn named_like(rad: &Radical, frag: &Vec<char>) -> (r: bool)
    ensures
        r == rad.named_like(frag@),
{
    let names = &rad.common_names;
    let mut j: usize = 0;
    while j < names.len()
        invariant
            names == rad.common_names,
            j <= names@.len(),
            forall|m: int| 0 <= m < j ==> !contains_seq(#[trigger] names@[m]@, frag@),
        decreases names.len() - j,
    {
        let name = chars_of(names[j].as_str());
        if contains_str(&name, frag) {
            return true;
        }
        j = j + 1;
    }
    false
}

/// The indices of the radicals one of whose common names contains the hiragana or the
/// katakana form of a filter.
pub fn by_kana_name(radicals: &Vec<Radical>, hiragana: &str, katakana: &str) -> (r: Vec<usize>)
    ensures
        r@ == radicals_named_like_either(radicals@, hiragana@, katakana@, radicals@.len() as int),
{
    let h = chars_of(hiragana);
    let k = chars_of(katakana);
    let mut out: Vec<usize> = Vec::new();
    let mut i: usize = 0;
    while i < radicals.len()
        invariant
            i <= radicals@.len(),
            h@ == hiragana@,
            k@ == katakana@,
            out@ == radicals_named_like_either(radicals@, hiragana@, katakana@, i as int),
        decreases radicals.len() - i,
    {
        if named_like(&radicals[i], &h) || named_like(&radicals[i], &k) {
            out.push(i);
        }
        i = i + 1;
    }
    out
}

/// The indices of the radicals that have `c` among their glyphs.
pub fn with_glyph(radicals: &Vec<Radical>, c: char) -> (r: Vec<usize>)
    ensures
        r@ == radicals_with_glyph(radicals@, c, radicals@.len() as int),
{
    let mut out: Vec<usize> = Vec::new();
    let mut i: usize = 0;
    while i < radicals.len()
        invariant
            i <= radicals@.len(),
            out@ == radicals_with_glyph(radicals@, c, i as int),
        decreases radicals.len() - i,
    {
        let glyphs = &radicals[i].chars;
        let mut found = false;
        let mut j: usize = 0;
        while j < glyphs.len() && !found
            invariant
                i < radicals@.len(),
                glyphs == radicals@[i as int].chars,
                j <= glyphs@.len(),
                found ==> glyphs@.contains(c),
                !found ==> forall|m: int| 0 <= m < j ==> glyphs@[m] != c,
            decreases glyphs.len() - j,
        {
            if glyphs[j] == c {
                found = true;
            }
            j = j + 1;
        }
        if found {
            out.push(i);
        }
        i = i + 1;
    }
    out
}

} // verus!
