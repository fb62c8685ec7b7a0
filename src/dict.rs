//! Dictionary entries, conjugation roots, and the suggestion engine.
use crate::conv::{romaji_to_kana, transliterate};
use crate::kana::RomajiKanaTable;
use crate::segment::{span_fits, InputSpan};
use vstd::prelude::*;
use vstd::string::StringSliceAdditionalSpecFns;
use vstd::utf8::*;

verus! {

/// The conjugation classes that a conjugation root can have.
#[derive(Clone, Copy, PartialEq, Eq, Debug, Structural)]
pub enum WordClass {
    Ichidan,
    GodanBu,
    GodanGu,
    GodanKu,
    GodanIku,
    GodanMu,
    GodanNu,
    GodanRu,
    GodanSu,
    GodanTsu,
    GodanU,
    Kuru,
    Suru,
    IAdjective,
    NaAdjective,
}

/// How many trailing characters of a headword's written form give way to the
/// conjugated ending: one for verbs and i-adjectives, two for suru verbs, none for
/// adjectival nouns.
pub open spec fn strip_count(c: WordClass) -> int {
    match c {
        WordClass::Suru => 2,
        WordClass::NaAdjective => 0,
        _ => 1,
    }
}

pub fn strip_len(c: WordClass) -> (r: usize)
    ensures
        r == strip_count(c),
{
    match c {
        WordClass::Suru => 2,
        WordClass::NaAdjective => 0,
        _ => 1,
    }
}

/// A part-of-speech tag of a dictionary sense, as far as conjugation goes.
#[derive(Clone, Copy, PartialEq, Eq, Debug, Structural)]
pub enum PartOfSpeech {
    Inflecting(WordClass),
    Uninflecting,
}

/// One sense of a dictionary entry.
#[derive(Clone)]
pub struct Sense {
    pub glosses: Vec<String>,
    pub parts_of_speech: Vec<PartOfSpeech>,
}

/// One headword of the dictionary.
#[derive(Clone)]
pub struct DictEntry {
    pub kanji_elements: Vec<String>,
    pub reading_elements: Vec<String>,
    pub senses: Vec<Sense>,
}

/// A dictionary form and the steps that lead from it to an inflected form.
#[derive(Clone)]
pub struct ConjugationRoot {
    pub class: WordClass,
    pub steps: Vec<String>,
    pub dict_form: String,
    pub conjugation_suffix: String,
}

impl DictEntry {
    /// One of the entry's readings is `s`.
    pub open spec fn has_reading(&self, s: Seq<char>) -> bool {
        exists|i: int|
            0 <= i < self.reading_elements@.len() && #[trigger] self.reading_elements@[i]@ == s
    }

    /// One of the entry's senses is tagged with conjugation class `c`.
    pub open spec fn declares(&self, c: WordClass) -> bool {
        exists|i: int, j: int|
            0 <= i < self.senses@.len() && 0 <= j < self.senses@[i].parts_of_speech@.len()
                && #[trigger] self.senses@[i].parts_of_speech@[j] == PartOfSpeech::Inflecting(c)
    }
}


/// One dictionary suggestion: an index into the corpus, and the index of the
/// conjugation root through which it matched, if any.
pub struct CachedJmdictSuggestion {
    pub entry: usize,
    pub mugo_root: Option<usize>,
}

/// The suggestions for the selected span, in corpus order, with the span index and
/// span text they were computed for.
pub struct CachedSuggestions {
    pub jmdict: Vec<CachedJmdictSuggestion>,
    pub key: Option<(usize, String)>,
}

/// The selected span's index and text, where the selection is a span of `b`.
pub open spec fn selection_key(segments: Seq<InputSpan>, selected: usize, b: Seq<u8>) -> Option<
    (int, Seq<char>),
> {
    if selected < segments.len() {
        Some((selected as int, decode_utf8(segments[selected as int].bytes_of(b))))
    } else {
        None
    }
}

pub open spec fn key_view(key: Option<(usize, String)>) -> Option<(int, Seq<char>)> {
    match key {
        Some((i, t)) => Some((i as int, t@)),
        None => None,
    }
}

/// What `CachedSuggestions::repopulate` leaves in the cache.
pub open spec fn repopulated(
    segments: Seq<InputSpan>,
    selected: usize,
    b: Seq<u8>,
    hira: crate::kana::TableView,
    kata: crate::kana::TableView,
    roots: Seq<ConjugationRoot>,
    corpus: Seq<DictEntry>,
    kanji_only: bool,
) -> Seq<SuggestionView> {
    if selected < segments.len() && segments[selected as int] is RomajiWord {
        let text = decode_utf8(segments[selected as int].bytes_of(b));
        suggestions_spec(
            corpus,
            trimmed(transliterate(text, hira)),
            trimmed(transliterate(text, kata)),
            roots,
            kanji_only,
        )
    } else {
        seq![]
    }
}

/// A suggestion as (corpus index, root index).
pub type SuggestionView = (int, Option<int>);

pub open spec fn suggestion_view(s: CachedJmdictSuggestion) -> SuggestionView {
    (
        s.entry as int,
        match s.mugo_root {
            Some(j) => Some(j as int),
            None => None,
        },
    )
}

pub open spec fn suggestions_view(v: Seq<CachedJmdictSuggestion>) -> Seq<SuggestionView> {
    v.map_values(|s: CachedJmdictSuggestion| suggestion_view(s))
}

/// The entry is the dictionary form of `r`: it has `r`'s class and `r`'s dictionary form
/// as a reading.
pub open spec fn root_matches(e: DictEntry, r: ConjugationRoot) -> bool {
    e.declares(r.class) && e.has_reading(r.dict_form@)
}

/// The first of `roots[..n]` that the entry matches.
pub open spec fn first_matching_root(e: DictEntry, roots: Seq<ConjugationRoot>, n: int) -> Option<int>
    decreases n,
{
    if n <= 0 {
        None
    } else {
        match first_matching_root(e, roots, n - 1) {
            Some(j) => Some(j),
            None => if root_matches(e, roots[n - 1]) {
                Some(n - 1)
            } else {
                None
            },
        }
    }
}

/// Whether the entry is suggested, and through which root: its reading is the
/// hiragana; else it matches a root; else its reading is the katakana. With
/// `kanji_only`, entries without a written form are left out.
pub open spec fn acceptance(
    e: DictEntry,
    hira: Seq<char>,
    kata: Seq<char>,
    roots: Seq<ConjugationRoot>,
    kanji_only: bool,
) -> Option<Option<int>> {
    if kanji_only && e.kanji_elements@.len() == 0 {
        None
    } else if e.has_reading(hira) {
        Some(None)
    } else if first_matching_root(e, roots, roots.len() as int) is Some {
        Some(first_matching_root(e, roots, roots.len() as int))
    } else if e.has_reading(kata) {
        Some(None)
    } else {
        None
    }
}

/// The suggestions for hiragana `hira` and katakana `kata`, in corpus order.
pub open spec fn suggestions_spec(
    corpus: Seq<DictEntry>,
    hira: Seq<char>,
    kata: Seq<char>,
    roots: Seq<ConjugationRoot>,
    kanji_only: bool,
) -> Seq<SuggestionView>
    decreases corpus.len(),
{
    if corpus.len() == 0 {
        seq![]
    } else {
        let prev = suggestions_spec(corpus.drop_last(), hira, kata, roots, kanji_only);
        match acceptance(corpus.last(), hira, kata, roots, kanji_only) {
            Some(r) => prev.push((corpus.len() - 1, r)),
            None => prev,
        }
    }
}

/// A character of the Unicode White_Space property.
pub open spec fn is_white_space(c: char) -> bool {
    let u = c as u32;
    (0x9 <= u <= 0xD) || u == 0x20 || u == 0x85 || u == 0xA0 || u == 0x1680 || (0x2000 <= u
        <= 0x200A) || u == 0x2028 || u == 0x2029 || u == 0x202F || u == 0x205F || u == 0x3000
}

/// `s` without its leading white space.
pub open spec fn trim_start(s: Seq<char>) -> Seq<char>
    decreases s.len(),
{
    if s.len() > 0 && is_white_space(s[0]) {
        trim_start(s.drop_first())
    } else {
        s
    }
}

/// `s` without its trailing white space.
pub open spec fn trim_end(s: Seq<char>) -> Seq<char>
    decreases s.len(),
{
    if s.len() > 0 && is_white_space(s.last()) {
        trim_end(s.drop_last())
    } else {
        s
    }
}

/// `s` without leading and trailing white space.
pub open spec fn trimmed(s: Seq<char>) -> Seq<char> {
    trim_end(trim_start(s))
}

/// Relies on `str::trim`: `s` without leading and trailing characters of the Unicode
/// White_Space property.
#[verifier::external_body]
fn trim(s: &str) -> (r: &str)
    ensures
        r@ == trimmed(s@),
{
    s.trim()
}

/// The entry has the reading `s`.
fn has_reading(e: &DictEntry, s: &String) -> (r: bool)
    ensures
        r == e.has_reading(s@),
{
    let mut i: usize = 0;
    while i < e.reading_elements.len()
        invariant
            i <= e.reading_elements@.len(),
            forall|j: int| 0 <= j < i ==> e.reading_elements@[j]@ != s@,
        decreases e.reading_elements.len() - i,
    {
        if e.reading_elements[i] == *s {
            return true;
        }
        i = i + 1;
    }
    false
}

/// One of the entry's senses is tagged with class `c`.
fn declares(e: &DictEntry, c: WordClass) -> (r: bool)
    ensures
        r == e.declares(c),
{
    let tag = PartOfSpeech::Inflecting(c);
    let mut i: usize = 0;
    while i < e.senses.len()
        invariant
            i <= e.senses@.len(),
            tag == PartOfSpeech::Inflecting(c),
            forall|a: int, b: int|
                0 <= a < i && 0 <= b < e.senses@[a].parts_of_speech@.len() ==> #[trigger] e.senses@[a].parts_of_speech@[b]
                    != tag,
        decreases e.senses.len() - i,
    {
        let parts = &e.senses[i].parts_of_speech;
        let mut j: usize = 0;
        while j < parts.len()
            invariant
                i < e.senses@.len(),
                parts == e.senses@[i as int].parts_of_speech,
                j <= parts@.len(),
                tag == PartOfSpeech::Inflecting(c),
                forall|b: int| 0 <= b < j ==> parts@[b] != tag,
            decreases parts.len() - j,
        {
            if parts[j] == tag {
                return true;
            }
            j = j + 1;
        }
        i = i + 1;
    }
    false
}

/// Whether `e` is suggested, as `acceptance` says.
fn accept(
    e: &DictEntry,
    hira: &String,
    kata: &String,
    roots: &Vec<ConjugationRoot>,
    kanji_only: bool,
) -> (r: Option<Option<usize>>)
    ensures
        acceptance(*e, hira@, kata@, roots@, kanji_only) == match r {
            None => None,
            Some(None) => Some(None),
            Some(Some(j)) => Some(Some(j as int)),
        },
{
    if kanji_only && e.kanji_elements.len() == 0 {
        return None;
    }
    if has_reading(e, hira) {
        return Some(None);
    }
    let mut j: usize = 0;
    while j < roots.len()
        invariant
            j <= roots@.len(),
            first_matching_root(*e, roots@, j as int) is None,
            !e.has_reading(hira@),
            !(kanji_only && e.kanji_elements@.len() == 0),
        decreases roots.len() - j,
    {
        if declares(e, roots[j].class) && has_reading(e, &roots[j].dict_form) {
            assert(root_matches(*e, roots@[j as int]));
            assert(first_matching_root(*e, roots@, j as int + 1) == Some(j as int));
            proof {
                lemma_first_matching_root_stays(*e, roots@, j as int + 1, roots@.len() as int);
            }
            return Some(Some(j));
        }
        j = j + 1;
    }
    if has_reading(e, kata) {
        Some(None)
    } else {
        None
    }
}

proof fn lemma_first_matching_root_stays(e: DictEntry, roots: Seq<ConjugationRoot>, n: int, m: int)
    requires
        0 < n <= m,
        first_matching_root(e, roots, n) is Some,
    ensures
        first_matching_root(e, roots, m) == first_matching_root(e, roots, n),
    decreases m - n,
{
    if m > n {
        lemma_first_matching_root_stays(e, roots, n, m - 1);
    }
}

/// The suggestions for hiragana `hiragana` and katakana `katakana`, given the
/// conjugation roots that the hiragana deconjugates to.
pub fn suggest_for_kana(
    hiragana: &str,
    katakana: &str,
    roots: &Vec<ConjugationRoot>,
    corpus: &Vec<DictEntry>,
    kanji_only: bool,
) -> (r: Vec<CachedJmdictSuggestion>)
    ensures
        suggestions_view(r@) == suggestions_spec(corpus@, hiragana@, katakana@, roots@, kanji_only),
{
    let hira = hiragana.to_owned();
    let kata = katakana.to_owned();
    let mut out: Vec<CachedJmdictSuggestion> = Vec::new();
    let mut i: usize = 0;
    while i < corpus.len()
        invariant
            i <= corpus@.len(),
            hira@ == hiragana@,
            kata@ == katakana@,
            suggestions_view(out@) == suggestions_spec(corpus@.take(i as int), hiragana@, katakana@, roots@, kanji_only),
        decreases corpus.len() - i,
    {
        assert(corpus@.take(i + 1).drop_last() =~= corpus@.take(i as int));
        assert(corpus@.take(i + 1).last() == corpus@[i as int]);
        match accept(&corpus[i], &hira, &kata, roots, kanji_only) {
            Some(root) => {
                let ghost before = out@;
                out.push(CachedJmdictSuggestion { entry: i, mugo_root: root });
                assert(suggestions_view(out@) =~= suggestions_view(before).push(suggestion_view(out@.last())));
            },
            None => {},
        }
        i = i + 1;
    }
    assert(corpus@.take(corpus@.len() as int) =~= corpus@);
    out
}

/// The hiragana and katakana of a romaji text, trimmed.
pub fn kana_readings(text: &str, hira: &RomajiKanaTable, kata: &RomajiKanaTable) -> (r: (String, String))
    ensures
        r.0@ == trimmed(transliterate(text@, hira@)),
        r.1@ == trimmed(transliterate(text@, kata@)),
{
    let h = romaji_to_kana(text, hira);
    let k = romaji_to_kana(text, kata);
    (trim(h.as_str()).to_owned(), trim(k.as_str()).to_owned())
}

impl CachedSuggestions {
    pub fn new() -> (r: Self)
        ensures
            r.jmdict@.len() == 0,
            r.key is None,
    {
        CachedSuggestions { jmdict: Vec::new(), key: None }
    }

    pub fn clear(&mut self)
        ensures
            final(self).jmdict@.len() == 0,
            final(self).key == old(self).key,
    {
        self.jmdict.clear();
    }

    /// Fills the cache for the selected span: empty unless it is a romaji word; else the
    /// suggestions for its kana readings, given the roots that its hiragana
    /// deconjugates to.
    pub fn repopulate(
        &mut self,
        romaji_buf: &str,
        segments: &Vec<InputSpan>,
        selected_segment: usize,
        hira: &RomajiKanaTable,
        kata: &RomajiKanaTable,
        roots: &Vec<ConjugationRoot>,
        corpus: &Vec<DictEntry>,
        kanji_only: bool,
    )
        requires
            crate::segment::spans_fit(segments@, romaji_buf.spec_bytes()),
        ensures
            suggestions_view(final(self).jmdict@) == repopulated(
                segments@,
                selected_segment,
                romaji_buf.spec_bytes(),
                hira@,
                kata@,
                roots@,
                corpus@,
                kanji_only,
            ),
            final(self).key == old(self).key,
    {
        self.clear();
        if selected_segment >= segments.len() {
            return;
        }
        let span = segments[selected_segment];
        if !span.is_romaji_word() {
            return;
        }
        assert(span_fits(segments@[selected_segment as int], romaji_buf.spec_bytes()));
        proof {
            encode_utf8_valid_utf8(romaji_buf@);
        }
        let raw = span.index(romaji_buf);
        proof {
            encode_utf8_decode_utf8(raw@);
        }
        let (h, k) = kana_readings(raw, hira, kata);
        self.jmdict = suggest_for_kana(h.as_str(), k.as_str(), roots, corpus, kanji_only);
    }

    /// Recomputes the cache only when the selected span index or its text changed since
    /// the last computation; returns whether it did.
    pub fn refresh(
        &mut self,
        romaji_buf: &str,
        segments: &Vec<InputSpan>,
        selected_segment: usize,
        hira: &RomajiKanaTable,
        kata: &RomajiKanaTable,
        roots: &Vec<ConjugationRoot>,
        corpus: &Vec<DictEntry>,
        kanji_only: bool,
    ) -> (r: bool)
        requires
            crate::segment::spans_fit(segments@, romaji_buf.spec_bytes()),
        ensures
            key_view(final(self).key) == selection_key(segments@, selected_segment, romaji_buf.spec_bytes()),
            !r ==> final(self).jmdict@ == old(self).jmdict@,
            r <==> (key_view(old(self).key) != selection_key(segments@, selected_segment, romaji_buf.spec_bytes())
                || old(self).key is None),
            r ==> suggestions_view(final(self).jmdict@) == repopulated(
                segments@,
                selected_segment,
                romaji_buf.spec_bytes(),
                hira@,
                kata@,
                roots@,
                corpus@,
                kanji_only,
            ),
    {
        let key: Option<(usize, String)> = if selected_segment < segments.len() {
            let span = segments[selected_segment];
            assert(span_fits(segments@[selected_segment as int], romaji_buf.spec_bytes()));
            proof {
                encode_utf8_valid_utf8(romaji_buf@);
            }
            let raw = span.index(romaji_buf);
            proof {
                encode_utf8_decode_utf8(raw@);
            }
            Some((selected_segment, raw.to_owned()))
        } else {
            None
        };
        let same = match (&self.key, &key) {
            (Some((i, t)), Some((j, u))) => *i == *j && *t == *u,
            _ => false,
        };
        if same {
            return false;
        }
        self.repopulate(romaji_buf, segments, selected_segment, hira, kata, roots, corpus, kanji_only);
        self.key = key;
        true
    }
}

} // verus!
