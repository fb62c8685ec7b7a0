//! The kanji catalog.
use crate::text::{chars_of, contains_seq, contains_str, split_on, split_on_char, strings_view};
use vstd::prelude::*;

verus! {

/// One catalog kanji: up to three glyph variants, its meaning and its readings.
pub struct Kanji {
    pub chars: [String; 3],
    pub meaning: String,
    pub readings: Vec<String>,
}

/// The kanji catalog, in its order.
pub struct KanjiDb {
    pub kanji: Vec<Kanji>,
}

/// Separates the fields of the catalog blob.
pub const FIELD_SEPARATOR: char = '\0';

/// Separates the readings of one catalog kanji (a middle dot).
pub const READING_SEPARATOR: char = '\u{30fb}';

/// Catalog record `r`, as five consecutive fields: three glyph variants, the meaning,
/// and the readings.
pub open spec fn kanji_from_fields(k: Kanji, fields: Seq<Seq<char>>, r: int) -> bool {
    &&& k.chars@[0]@ == fields[5 * r]
    &&& k.chars@[1]@ == fields[5 * r + 1]
    &&& k.chars@[2]@ == fields[5 * r + 2]
    &&& k.meaning@ == fields[5 * r + 3]
    &&& strings_view(k.readings@) == split_on(fields[5 * r + 4], READING_SEPARATOR)
}

/// The catalog indices, in order, of the kanji among the first `n` that have reading
/// `h` or reading `k`.
pub open spec fn kanji_with_reading(db: Seq<Kanji>, h: Seq<char>, k: Seq<char>, n: int) -> Seq<usize>
    decreases n,
{
    if n <= 0 {
        seq![]
    } else {
        let prev = kanji_with_reading(db, h, k, n - 1);
        if db[n - 1].has_reading_spec(h) || db[n - 1].has_reading_spec(k) {
            prev.push((n - 1) as usize)
        } else {
            prev
        }
    }
}

/// The catalog indices, in order, of the first `n` kanji whose meaning contains `filter`.
pub open spec fn kanji_with_meaning(db: Seq<Kanji>, filter: Seq<char>, n: int) -> Seq<usize>
    decreases n,
{
    if n <= 0 {
        seq![]
    } else {
        let prev = kanji_with_meaning(db, filter, n - 1);
        if contains_seq(db[n - 1].meaning@, filter) {
            prev.push((n - 1) as usize)
        } else {
            prev
        }
    }
}

/// The catalog indices, in order, of the first `n` kanji with a glyph variant that
/// starts with `c`.
pub open spec fn kanji_starting_with(db: Seq<Kanji>, c: char, n: int) -> Seq<usize>
    decreases n,
{
    if n <= 0 {
        seq![]
    } else {
        let prev = kanji_starting_with(db, c, n - 1);
        if db[n - 1].starts_with_spec(c) {
            prev.push((n - 1) as usize)
        } else {
            prev
        }
    }
}

impl KanjiDb {
    /// The indices of the kanji whose meaning contains `filter`.
    pub fn by_meaning(&self, filter: &str) -> (r: Vec<usize>)
        ensures
            r@ == kanji_with_meaning(self.kanji@, filter@, self.kanji@.len() as int),
    {
        let frag = chars_of(filter);
        let mut out: Vec<usize> = Vec::new();
        let mut i: usize = 0;
        while i < self.kanji.len()
            invariant
                i <= self.kanji@.len(),
                frag@ == filter@,
                out@ == kanji_with_meaning(self.kanji@, filter@, i as int),
            decreases self.kanji.len() - i,
        {
            let meaning = chars_of(self.kanji[i].meaning.as_str());
            if contains_str(&meaning, &frag) {
                out.push(i);
            }
            i = i + 1;
        }
        out
    }

    /// The indices of the kanji with a glyph variant that starts with `c`.
    pub fn starting_with(&self, c: char) -> (r: Vec<usize>)
        ensures
            r@ == kanji_starting_with(self.kanji@, c, self.kanji@.len() as int),
    {
        let mut out: Vec<usize> = Vec::new();
        let mut i: usize = 0;
        while i < self.kanji.len()
            invariant
                i <= self.kanji@.len(),
                out@ == kanji_starting_with(self.kanji@, c, i as int),
            decreases self.kanji.len() - i,
        {
            if self.kanji[i].starts_with(c) {
                out.push(i);
            }
            i = i + 1;
        }
        out
    }

    /// Parses the catalog blob: fields separated by NUL, five to a kanji, readings
    /// separated by a middle dot. Fields left over at the end are ignored.
    pub fn load(data: &str) -> (r: KanjiDb)
        ensures
            r.kanji@.len() == split_on(data@, FIELD_SEPARATOR).len() / 5,
            forall|i: int|
                0 <= i < r.kanji@.len() ==> kanji_from_fields(
                    #[trigger] r.kanji@[i],
                    split_on(data@, FIELD_SEPARATOR),
                    i,
                ),
    {
        let fields = split_on_char(data, FIELD_SEPARATOR);
        let ghost fv = split_on(data@, FIELD_SEPARATOR);
        let flen = fields.len();
        let n = flen / 5;
        let mut kanji: Vec<Kanji> = Vec::new();
        let mut r: usize = 0;
        while r < n
            invariant
                n == fv.len() / 5,
                n == flen / 5,
                flen == fields@.len(),
                strings_view(fields@) == fv,
                r <= n,
                kanji@.len() == r,
                forall|i: int| 0 <= i < r ==> kanji_from_fields(#[trigger] kanji@[i], fv, i),
            decreases n - r,
        {
            assert(5 * r + 4 < flen) by (nonlinear_arith)
                requires
                    r < n,
                    n == flen / 5,
            ;
            let b = 5 * r;
            assert(fields@[b as int]@ == fv[b as int]);
            assert(fields@[b + 1]@ == fv[b + 1]);
            assert(fields@[b + 2]@ == fv[b + 2]);
            assert(fields@[b + 3]@ == fv[b + 3]);
            assert(fields@[b + 4]@ == fv[b + 4]);
            let readings = split_on_char(fields[b + 4].as_str(), READING_SEPARATOR);
            let k = Kanji {
                chars: [fields[b].clone(), fields[b + 1].clone(), fields[b + 2].clone()],
                meaning: fields[b + 3].clone(),
                readings,
            };
            kanji.push(k);
            r = r + 1;
        }
        KanjiDb { kanji }
    }

    /// The indices of the kanji that have reading `hiragana` or reading `katakana`.
    pub fn by_reading(&self, hiragana: &str, katakana: &str) -> (r: Vec<usize>)
        ensures
            r@ == kanji_with_reading(self.kanji@, hiragana@, katakana@, self.kanji@.len() as int),
    {
        let h = hiragana.to_owned();
        let k = katakana.to_owned();
        let mut out: Vec<usize> = Vec::new();
        let mut i: usize = 0;
        while i < self.kanji.len()
            invariant
                i <= self.kanji@.len(),
                h@ == hiragana@,
                k@ == katakana@,
                out@ == kanji_with_reading(self.kanji@, hiragana@, katakana@, i as int),
            decreases self.kanji.len() - i,
        {
            if self.kanji[i].has_reading(&h) || self.kanji[i].has_reading(&k) {
                out.push(i);
            }
            i = i + 1;
        }
        out
    }
}

impl Kanji {
    /// One of the glyph variants starts with `c`.
    pub open spec fn starts_with_spec(&self, c: char) -> bool {
        exists|i: int| 0 <= i < 3 && self.chars@[i]@.len() > 0 && #[trigger] self.chars@[i]@[0] == c
    }

    /// One of the glyph variants starts with `c`.
    pub fn starts_with(&self, c: char) -> (r: bool)
        ensures
            r == self.starts_with_spec(c),
    {
        let mut i: usize = 0;
        while i < 3
            invariant
                i <= 3,
                forall|j: int| 0 <= j < i ==> !(self.chars@[j]@.len() > 0 && #[trigger] self.chars@[j]@[0] == c),
            decreases 3 - i,
        {
            let glyph = chars_of(self.chars[i].as_str());
            if glyph.len() > 0 && glyph[0] == c {
                return true;
            }
            i = i + 1;
        }
        false
    }

    /// One of the readings is `s`.
    pub fn has_reading(&self, s: &String) -> (r: bool)
        ensures
            r == self.has_reading_spec(s@),
    {
        let mut i: usize = 0;
        while i < self.readings.len()
            invariant
                i <= self.readings@.len(),
                forall|j: int| 0 <= j < i ==> self.readings@[j]@ != s@,
            decreases self.readings.len() - i,
        {
            if self.readings[i] == *s {
                return true;
            }
            i = i + 1;
        }
        false
    }
}

impl Kanji {
    /// The primary glyph.
    pub open spec fn primary(&self) -> Seq<char> {
        self.chars@[0]@
    }

    /// One of the readings is `s`.
    pub open spec fn has_reading_spec(&self, s: Seq<char>) -> bool {
        exists|i: int| 0 <= i < self.readings@.len() && #[trigger] self.readings@[i]@ == s
    }
}

} // verus!
