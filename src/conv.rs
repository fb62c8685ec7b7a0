//! Transliteration of romaji runs, and rendering of the whole buffer.
use crate::dict::{strip_count, strip_len, ConjugationRoot, DictEntry};
use crate::kana::{lookup_spec, RomajiKanaTable, TableView};
use crate::kanji::KanjiDb;
use crate::segment::{spans_fit, InputSpan};
use crate::text::{chars_of, push_char};
use std::collections::HashMap;
use vstd::prelude::*;
use vstd::string::StringSliceAdditionalSpecFns;
use vstd::utf8::*;

verus! {

/// Max possible length of a romaji kana atom ("sshi" is one of length 4).
pub const MAX_ROMAJI_ATOM_LEN: usize = 4;

/// The length of the longest atom of at most four characters at the start of `src`
/// that the table holds; 0 if there is none.
pub open spec fn match_len(src: Seq<char>, t: TableView) -> int {
    if src.len() >= 4 && lookup_spec(t, src.take(4)) is Some {
        4
    } else if src.len() >= 3 && lookup_spec(t, src.take(3)) is Some {
        3
    } else if src.len() >= 2 && lookup_spec(t, src.take(2)) is Some {
        2
    } else if src.len() >= 1 && lookup_spec(t, src.take(1)) is Some {
        1
    } else {
        0
    }
}

/// The output for the start of a non-empty `src`, and how many characters it takes:
/// the kana of the longest matching atom, else the first character as it is.
pub open spec fn next_piece(src: Seq<char>, t: TableView) -> (Seq<char>, int) {
    let l = match_len(src, t);
    if l == 0 {
        (seq![src[0]], 1)
    } else {
        (lookup_spec(t, src.take(l))->0, l)
    }
}

/// Greedy longest-match transliteration of `src` with table `t`.
pub open spec fn transliterate(src: Seq<char>, t: TableView) -> Seq<char>
    decreases src.len(),
{
    if src.len() == 0 {
        seq![]
    } else {
        next_piece(src, t).0 + transliterate(src.skip(next_piece(src, t).1), t)
    }
}

/// A cursor over a romaji string.
pub struct RomajiParser {
    cursor: usize,
    src: Vec<char>,
}

impl RomajiParser {
    /// The characters being read.
    pub closed spec fn source(&self) -> Seq<char> {
        self.src@
    }

    /// How many characters have been read.
    pub closed spec fn position(&self) -> int {
        self.cursor as int
    }

    pub fn new(src: &str) -> (r: Self)
        ensures
            r.source() == src@,
            r.position() == 0,
    {
        RomajiParser { cursor: 0, src: chars_of(src) }
    }

    /// Reads the largest romaji atom at the cursor and returns its kana; where no atom
    /// matches, returns the next character as it is. At the end, returns `None`.
    pub fn next_largest_match(&mut self, table: &RomajiKanaTable) -> (r: Option<String>)
        requires
            old(self).position() <= old(self).source().len(),
        ensures
            final(self).source() == old(self).source(),
            old(self).position() == old(self).source().len() ==> r is None && final(self).position()
                == old(self).position(),
            old(self).position() < old(self).source().len() ==> {
                let piece = next_piece(old(self).source().skip(old(self).position()), table@);
                &&& r is Some
                &&& r->0@ == piece.0
                &&& final(self).position() == old(self).position() + piece.1
            },
            final(self).position() <= final(self).source().len(),
    {
        let len = self.src.len();
        if self.cursor >= len {
            return None;
        }
        let ghost rest = self.src@.skip(self.cursor as int);
        let max_len = if len - self.cursor < MAX_ROMAJI_ATOM_LEN {
            len - self.cursor
        } else {
            MAX_ROMAJI_ATOM_LEN
        };
        let mut l = max_len;
        while l > 0
            invariant
                self.src@ == old(self).src@,
                self.cursor == old(self).cursor,
                self.src@.len() == len,
                self.cursor < len,
                rest == self.src@.skip(self.cursor as int),
                max_len == if len - self.cursor < 4 { len - self.cursor } else { 4 },
                l <= max_len,
                forall|k: int| l < k <= max_len ==> #[trigger] lookup_spec(table@, rest.take(k)) is None,
            decreases l,
        {
            let end = self.cursor + l;
            assert(self.src@.subrange(self.cursor as int, end as int) =~= rest.take(l as int));
            match table.find(&self.src, self.cursor, end) {
                Some(i) => {
                    self.cursor = end;
                    return Some(table.table[i].kana.clone());
                },
                None => {},
            }
            l = l - 1;
        }
        let mut out = String::new();
        push_char(&mut out, self.src[self.cursor]);
        self.cursor = self.cursor + 1;
        Some(out)
    }
}

/// Transliterates `romaji` with `table`, greedily taking the longest atom each time.
pub fn romaji_to_kana(romaji: &str, table: &RomajiKanaTable) -> (r: String)
    ensures
        r@ == transliterate(romaji@, table@),
{
    let mut out = String::new();
    let mut parser = RomajiParser::new(romaji);
    let ghost src = romaji@;
    assert(src.skip(0) =~= src);
    loop
        invariant
            src == romaji@,
            parser.source() == src,
            parser.position() <= src.len(),
            out@ + transliterate(src.skip(parser.position()), table@) == transliterate(src, table@),
        decreases src.len() - parser.position(),
    {
        let ghost before = parser.position();
        match parser.next_largest_match(table) {
            Some(s) => {
                proof {
                    let rest = src.skip(before);
                    let piece = next_piece(rest, table@);
                    assert(rest.skip(piece.1) =~= src.skip(parser.position()));
                }
                out.append(s.as_str());
                assert(out@ + transliterate(src.skip(parser.position()), table@) =~= transliterate(
                    src,
                    table@,
                ));
            },
            None => {
                assert(src.skip(parser.position()).len() == 0);
                assert(transliterate(src.skip(parser.position()), table@) == Seq::<char>::empty());
                assert(out@ + Seq::<char>::empty() =~= out@);
                return out;
            },
        }
    }
}



/// How the user asked a span to be rendered.
pub enum Intp {
    Hiragana,
    Katakana,
    /// The romaji as typed.
    Verbatim,
    Dictionary {
        /// Index into the cached suggestions.
        cached_sug_idx: usize,
        en: DictEntry,
        kanji_idx: usize,
        root: Option<ConjugationRoot>,
    },
    Kanji { db_idx: usize },
    Radical(char),
}

/// The interpretation of each span, by span index. A missing span is hiragana.
pub type IntpMap = HashMap<usize, Intp>;

/// The interpretation can be rendered: its headword glyph or catalog kanji exists.
pub open spec fn intp_fits(intp: Intp, db: KanjiDb) -> bool {
    match intp {
        Intp::Dictionary { en, kanji_idx, .. } => kanji_idx < en.kanji_elements@.len(),
        Intp::Kanji { db_idx } => db_idx < db.kanji@.len(),
        _ => true,
    }
}

/// The interpretation of span `i`, if it is used at all, can be rendered. Spans of
/// other text ignore the overlay.
pub open spec fn intp_fits_at(m: Map<usize, Intp>, i: int, sp: InputSpan, db: KanjiDb) -> bool {
    !(sp is Other) && m.contains_key(i as usize) ==> intp_fits(m[i as usize], db)
}

/// Every interpretation that rendering the spans uses can be rendered; keys past the
/// last span, or on other text, may hold anything.
pub open spec fn intps_fit(m: Map<usize, Intp>, spans: Seq<InputSpan>, db: KanjiDb) -> bool {
    forall|i: int| 0 <= i < spans.len() ==> #[trigger] intp_fits_at(m, i, spans[i], db)
}

/// The headword glyph with the root's conjugated ending in place of its dictionary ending.
pub open spec fn conjugated_form(glyph: Seq<char>, root: Option<ConjugationRoot>) -> Seq<char> {
    match root {
        None => glyph,
        Some(r) => {
            let keep = glyph.len() - strip_count(r.class);
            glyph.take(if keep < 0 { 0 } else { keep }) + r.conjugation_suffix@
        },
    }
}

/// The output for a romaji span with text `raw` under interpretation `intp`.
pub open spec fn intp_output(
    intp: Intp,
    raw: Seq<char>,
    db: KanjiDb,
    hira: TableView,
    kata: TableView,
) -> Seq<char> {
    match intp {
        Intp::Hiragana => transliterate(raw, hira),
        Intp::Katakana => transliterate(raw, kata),
        Intp::Verbatim => raw,
        Intp::Dictionary { en, kanji_idx, root, .. } => conjugated_form(
            en.kanji_elements@[kanji_idx as int]@,
            root,
        ),
        Intp::Kanji { db_idx } => db.kanji@[db_idx as int].primary(),
        Intp::Radical(c) => seq![c],
    }
}

/// The output for span `sp`, the `i`-th span of the buffer with bytes `b`.
pub open spec fn span_output(
    sp: InputSpan,
    i: int,
    b: Seq<u8>,
    m: Map<usize, Intp>,
    db: KanjiDb,
    hira: TableView,
    kata: TableView,
) -> Seq<char> {
    let raw = decode_utf8(sp.bytes_of(b));
    if sp is Other {
        raw
    } else if m.contains_key(i as usize) {
        intp_output(m[i as usize], raw, db, hira, kata)
    } else {
        transliterate(raw, hira)
    }
}

/// The outputs of the spans, one after another.
pub open spec fn render_spec(
    spans: Seq<InputSpan>,
    b: Seq<u8>,
    m: Map<usize, Intp>,
    db: KanjiDb,
    hira: TableView,
    kata: TableView,
) -> Seq<char>
    decreases spans.len(),
{
    if spans.len() == 0 {
        seq![]
    } else {
        render_spec(spans.drop_last(), b, m, db, hira, kata) + span_output(
            spans.last(),
            spans.len() - 1,
            b,
            m,
            db,
            hira,
            kata,
        )
    }
}

/// `glyph` with `root`'s conjugated ending in place of its dictionary ending.
fn conjugate_glyph(glyph: &String, root: &ConjugationRoot) -> (r: String)
    ensures
        r@ == conjugated_form(glyph@, Some(*root)),
{
    let chars = chars_of(glyph.as_str());
    let strip = strip_len(root.class);
    let keep = if chars.len() < strip {
        0
    } else {
        chars.len() - strip
    };
    let mut out = String::new();
    let mut i: usize = 0;
    while i < keep
        invariant
            keep <= chars@.len(),
            i <= keep,
            out@ == chars@.take(i as int),
        decreases keep - i,
    {
        push_char(&mut out, chars[i]);
        assert(chars@.take(i + 1) =~= chars@.take(i as int).push(chars@[i as int]));
        i = i + 1;
    }
    out.append(root.conjugation_suffix.as_str());
    out
}

/// The output for span `span`, the `i`-th span of `text`.
pub fn with_input_span_converted_form(
    span: &InputSpan,
    i: usize,
    text: &str,
    intp: &IntpMap,
    kanji_db: &KanjiDb,
    hira: &RomajiKanaTable,
    kata: &RomajiKanaTable,
) -> (r: String)
    requires
        crate::segment::span_fits(*span, text.spec_bytes()),
        intp_fits_at(intp@, i as int, *span, *kanji_db),
    ensures
        r@ == span_output(*span, i as int, text.spec_bytes(), intp@, *kanji_db, hira@, kata@),
{
    broadcast use vstd::std_specs::hash::group_hash_axioms;
    proof {
        encode_utf8_valid_utf8(text@);
    }
    let raw = span.index(text);
    proof {
        encode_utf8_decode_utf8(raw@);
    }
    assert(raw@ == decode_utf8(span.bytes_of(text.spec_bytes())));
    if let InputSpan::Other { .. } = span {
        return raw.to_owned();
    }
    match intp.get(&i) {
        None => romaji_to_kana(raw, hira),
        Some(Intp::Hiragana) => romaji_to_kana(raw, hira),
        Some(Intp::Katakana) => romaji_to_kana(raw, kata),
        Some(Intp::Verbatim) => raw.to_owned(),
        Some(Intp::Dictionary { en, kanji_idx, root, .. }) => {
            assert(intp_fits(intp@[i], *kanji_db));
            let glyph = &en.kanji_elements[*kanji_idx];
            match root {
                Some(root) => conjugate_glyph(glyph, root),
                None => glyph.clone(),
            }
        },
        Some(Intp::Kanji { db_idx }) => {
            assert(intp_fits(intp@[i], *kanji_db));
            kanji_db.kanji[*db_idx].chars[0].clone()
        },
        Some(Intp::Radical(c)) => {
            let mut out = String::new();
            push_char(&mut out, *c);
            out
        },
    }
}

/// Renders the whole buffer: each span's output, one after another.
pub fn to_japanese(
    text: &str,
    segments: &Vec<InputSpan>,
    intp: &IntpMap,
    kanji_db: &KanjiDb,
    hira: &RomajiKanaTable,
    kata: &RomajiKanaTable,
) -> (r: String)
    requires
        spans_fit(segments@, text.spec_bytes()),
        intps_fit(intp@, segments@, *kanji_db),
    ensures
        r@ == render_spec(segments@, text.spec_bytes(), intp@, *kanji_db, hira@, kata@),
{
    let mut s = String::new();
    let mut i: usize = 0;
    while i < segments.len()
        invariant
            i <= segments@.len(),
            spans_fit(segments@, text.spec_bytes()),
            intps_fit(intp@, segments@, *kanji_db),
            s@ == render_spec(segments@.take(i as int), text.spec_bytes(), intp@, *kanji_db, hira@, kata@),
        decreases segments.len() - i,
    {
        assert(crate::segment::span_fits(segments@[i as int], text.spec_bytes()));
        assert(intp_fits_at(intp@, i as int, segments@[i as int], *kanji_db));
        let conv = with_input_span_converted_form(&segments[i], i, text, intp, kanji_db, hira, kata);
        s.append(conv.as_str());
        assert(segments@.take(i + 1).drop_last() =~= segments@.take(i as int));
        i = i + 1;
    }
    assert(segments@.take(segments@.len() as int) =~= segments@);
    s
}

/// Transliteration is a function of the text and the table alone, and the empty text
/// gives the empty text.
pub proof fn lemma_transliterate_pure(x: Seq<char>, y: Seq<char>, t: TableView, u: TableView)
    requires
        x == y,
        t == u,
    ensures
        transliterate(x, t) == transliterate(y, u),
        transliterate(Seq::<char>::empty(), t) == Seq::<char>::empty(),
{
}

/// Each key of `keys` is an atom of the table of one to four characters, and at the
/// start of each key no longer atom of the table matches what follows.
pub open spec fn keys_unambiguous(keys: Seq<Seq<char>>, t: TableView) -> bool {
    &&& forall|i: int|
        0 <= i < keys.len() ==> 1 <= (#[trigger] keys[i]).len() <= 4 && lookup_spec(t, keys[i]) is Some
    &&& forall|i: int, l: int|
        0 <= i < keys.len() && keys[i].len() < l <= 4 && l <= keys.skip(i).flatten().len()
            ==> lookup_spec(t, #[trigger] keys.skip(i).flatten().take(l)) is None
}

/// Transliterating table keys written one after another, with no ambiguity where they
/// meet, gives their kana one after another.
pub proof fn lemma_table_round_trip(keys: Seq<Seq<char>>, t: TableView)
    requires
        keys_unambiguous(keys, t),
    ensures
        transliterate(keys.flatten(), t) == keys.map_values(|k: Seq<char>| lookup_spec(t, k)->0).flatten(),
    decreases keys.len(),
{
    let vals = keys.map_values(|k: Seq<char>| lookup_spec(t, k)->0);
    if keys.len() == 0 {
        assert(vals.len() == 0);
    } else {
        let src = keys.flatten();
        let k0 = keys[0];
        let tail = keys.drop_first();
        assert(src == k0 + tail.flatten());
        assert(src.take(k0.len() as int) =~= k0);
        assert(src.skip(k0.len() as int) =~= tail.flatten());
        assert(keys.skip(0) =~= keys);
        assert forall|l: int| k0.len() < l <= 4 && l <= src.len() implies lookup_spec(
            t,
            #[trigger] src.take(l),
        ) is None by {
            assert(keys.skip(0).flatten().take(l) == src.take(l));
        }
        if src.len() >= 4 && k0.len() < 4 {
            assert(lookup_spec(t, src.take(4)) is None);
        }
        if src.len() >= 3 && k0.len() < 3 {
            assert(lookup_spec(t, src.take(3)) is None);
        }
        if src.len() >= 2 && k0.len() < 2 {
            assert(lookup_spec(t, src.take(2)) is None);
        }
        assert(match_len(src, t) == k0.len());
        assert forall|i: int, l: int|
            0 <= i < tail.len() && tail[i].len() < l <= 4 && l <= tail.skip(i).flatten().len()
                implies lookup_spec(t, #[trigger] tail.skip(i).flatten().take(l)) is None by {
            assert(tail.skip(i) =~= keys.skip(i + 1));
            assert(tail[i] == keys[i + 1]);
        }
        assert forall|i: int| 0 <= i < tail.len() implies 1 <= (#[trigger] tail[i]).len() <= 4
            && lookup_spec(t, tail[i]) is Some by {
            assert(tail[i] == keys[i + 1]);
        }
        lemma_table_round_trip(tail, t);
        let tail_vals = tail.map_values(|k: Seq<char>| lookup_spec(t, k)->0);
        assert(vals.drop_first() =~= tail_vals);
        assert(vals.flatten() == vals[0] + vals.drop_first().flatten());
    }
}

} // verus!
