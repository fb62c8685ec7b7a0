//! Romaji to kana lookup tables.
use crate::text::chars_of;
use vstd::prelude::*;

verus! {

/// One romaji atom and the kana it stands for.
pub struct RomajiKanaPair {
    pub romaji: Vec<char>,
    pub kana: String,
}

/// A table from romaji atoms to kana. The first pair with a given atom counts.
pub struct RomajiKanaTable {
    pub table: Vec<RomajiKanaPair>,
}

/// The pairs of a table, as (atom, kana).
pub type TableView = Seq<(Seq<char>, Seq<char>)>;

/// The kana of the first pair of `t` whose atom is `key`.
pub open spec fn lookup_spec(t: TableView, key: Seq<char>) -> Option<Seq<char>>
    decreases t.len(),
{
    if t.len() == 0 {
        None
    } else if t[0].0 == key {
        Some(t[0].1)
    } else {
        lookup_spec(t.drop_first(), key)
    }
}

impl View for RomajiKanaTable {
    type V = TableView;

    open spec fn view(&self) -> TableView {
        Seq::new(self.table@.len(), |i: int| (self.table@[i].romaji@, self.table@[i].kana@))
    }
}

impl RomajiKanaTable {
    /// The index of the first pair whose atom is `src[from..to]`.
    pub fn find(&self, src: &Vec<char>, from: usize, to: usize) -> (r: Option<usize>)
        requires
            from <= to <= src@.len(),
        ensures
            match r {
                Some(i) => i < self@.len() && lookup_spec(self@, src@.subrange(from as int, to as int))
                    == Some(self@[i as int].1),
                None => lookup_spec(self@, src@.subrange(from as int, to as int)) is None,
            },
    {
        let ghost key = src@.subrange(from as int, to as int);
        let mut i: usize = 0;
        assert(self@.skip(0) =~= self@);
        while i < self.table.len()
            invariant
                i <= self@.len(),
                self@.len() == self.table@.len(),
                key == src@.subrange(from as int, to as int),
                from <= to <= src@.len(),
                lookup_spec(self@, key) == lookup_spec(self@.skip(i as int), key),
            decreases self.table.len() - i,
        {
            let pair = &self.table[i];
            assert(self@.skip(i as int)[0] == self@[i as int]);
            assert(self@.skip(i as int).drop_first() =~= self@.skip(i + 1));
            if atom_equals(&pair.romaji, src, from, to) {
                return Some(i);
            }
            i = i + 1;
        }
        None
    }

    /// The kana of the first pair whose atom is `romaji`.
    pub fn lookup(&self, romaji: &str) -> (r: Option<&str>)
        ensures
            match r {
                Some(k) => lookup_spec(self@, romaji@) == Some(k@),
                None => lookup_spec(self@, romaji@) is None,
            },
    {
        let chars = chars_of(romaji);
        assert(chars@.subrange(0, chars@.len() as int) =~= romaji@);
        match self.find(&chars, 0, chars.len()) {
            Some(i) => Some(self.table[i].kana.as_str()),
            None => None,
        }
    }

    /// The hiragana table.
    #[verifier::rlimit(50)]
    pub fn hiragana() -> (r: RomajiKanaTable)
        ensures
            r@ == hiragana_spec(),
            forall|i: int| 0 <= i < r@.len() ==> atom_ok(#[trigger] r@[i].0),
    {
        proof {
            lemma_kana_tables();
        }
        let rows = kana_rows();
        let r = Self::from_rows(&rows, false);
        assert(r@ =~= hiragana_spec());
        r
    }

    /// The katakana table: the same atoms as the hiragana table.
    #[verifier::rlimit(50)]
    pub fn katakana() -> (r: RomajiKanaTable)
        ensures
            r@ == katakana_spec(),
            forall|i: int| 0 <= i < r@.len() ==> atom_ok(#[trigger] r@[i].0),
    {
        proof {
            lemma_kana_tables();
        }
        let rows = kana_rows();
        let r = Self::from_rows(&rows, true);
        assert(r@ =~= katakana_spec());
        r
    }

    fn from_rows(rows: &Vec<(&'static str, &'static str, &'static str)>, katakana: bool) -> (r:
        RomajiKanaTable)
        ensures
            r@.len() == rows@.len(),
            forall|i: int|
                0 <= i < rows@.len() ==> #[trigger] r@[i] == (
                    rows@[i].0@,
                    if katakana {
                        rows@[i].2@
                    } else {
                        rows@[i].1@
                    },
                ),
    {
        let mut table: Vec<RomajiKanaPair> = Vec::new();
        let mut i: usize = 0;
        while i < rows.len()
            invariant
                i <= rows@.len(),
                table@.len() == i,
                forall|j: int|
                    0 <= j < i ==> (#[trigger] table@[j]).romaji@ == rows@[j].0@ && table@[j].kana@ == (
                    if katakana {
                        rows@[j].2@
                    } else {
                        rows@[j].1@
                    }),
            decreases rows.len() - i,
        {
            let (romaji, hira, kata) = rows[i];
            let kana = if katakana {
                kata
            } else {
                hira
            };
            table.push(RomajiKanaPair { romaji: chars_of(romaji), kana: kana.to_owned() });
            i = i + 1;
        }
        RomajiKanaTable { table }
    }
}

/// `a` equals `src[from..to]`.
fn atom_equals(a: &Vec<char>, src: &Vec<char>, from: usize, to: usize) -> (r: bool)
    requires
        from <= to <= src@.len(),
    ensures
        r == (a@ == src@.subrange(from as int, to as int)),
{
    if a.len() != to - from {
        return false;
    }
    let mut i: usize = 0;
    while i < a.len()
        invariant
            a@.len() == to - from,
            from <= to <= src@.len(),
            i <= a@.len(),
            forall|j: int| 0 <= j < i ==> a@[j] == src@[from + j],
        decreases a.len() - i,
    {
        if a[i] != src[from + i] {
            assert(a@[i as int] != src@.subrange(from as int, to as int)[i as int]);
            return false;
        }
        i = i + 1;
    }
    assert(a@ =~= src@.subrange(from as int, to as int));
    true
}

/// The views of table rows.
pub open spec fn rows_view(rows: Seq<(&'static str, &'static str, &'static str)>) -> Seq<
    (Seq<char>, Seq<char>, Seq<char>),
> {
    rows.map_values(|t: (&'static str, &'static str, &'static str)| (t.0@, t.1@, t.2@))
}

/// The romaji atoms with their hiragana and katakana: vowels and syllables, the
/// palatalized digraphs and trigraphs, doubled consonants, the long-vowel mark,
/// punctuation, and "n" for the syllabic nasal.
pub open spec fn kana_rows_spec() -> Seq<(Seq<char>, Seq<char>, Seq<char>)> {
    kana_rows_spec_0()
        + kana_rows_spec_1()
        + kana_rows_spec_2()
        + kana_rows_spec_3()
        + kana_rows_spec_4()
        + kana_rows_spec_5()
        + kana_rows_spec_6()
        + kana_rows_spec_7()
        + kana_rows_spec_8()
        + kana_rows_spec_9()
}

/// The atom and hiragana of each row.
pub open spec fn hiragana_spec() -> TableView {
    kana_rows_spec().map_values(|t: (Seq<char>, Seq<char>, Seq<char>)| (t.0, t.1))
}

/// The atom and katakana of each row.
pub open spec fn katakana_spec() -> TableView {
    kana_rows_spec().map_values(|t: (Seq<char>, Seq<char>, Seq<char>)| (t.0, t.2))
}

pub open spec fn kana_rows_spec_0() -> Seq<(Seq<char>, Seq<char>, Seq<char>)> {
    seq![
        (seq!['-'], seq!['ー'], seq!['ー']),
        (seq![','], seq!['、'], seq!['、']),
        (seq!['!'], seq!['！'], seq!['！']),
        (seq!['?'], seq!['？'], seq!['？']),
        (seq!['.', '.', '.'], seq!['…'], seq!['…']),
        (seq!['.'], seq!['。'], seq!['。']),
        (seq!['a'], seq!['あ'], seq!['ア']),
        (seq!['b', 'a'], seq!['ば'], seq!['バ']),
        (seq!['b', 'e'], seq!['べ'], seq!['ベ']),
        (seq!['b', 'i'], seq!['び'], seq!['ビ']),
        (seq!['b', 'o'], seq!['ぼ'], seq!['ボ']),
        (seq!['b', 'u'], seq!['ぶ'], seq!['ブ']),
        (seq!['b', 'y', 'a'], seq!['び', 'ゃ'], seq!['ビ', 'ャ']),
        (seq!['b', 'y', 'o'], seq!['び', 'ょ'], seq!['ビ', 'ョ']),
        (seq!['b', 'y', 'u'], seq!['び', 'ゅ'], seq!['ビ', 'ュ']),
    ]
}

fn kana_rows_0() -> (r: Vec<(&'static str, &'static str, &'static str)>)
    ensures
        rows_view(r@) == kana_rows_spec_0(),
{
    let r = vec![
        ("-", "ー", "ー"),
        (",", "、", "、"),
        ("!", "！", "！"),
        ("?", "？", "？"),
        ("...", "…", "…"),
        (".", "。", "。"),
        ("a", "あ", "ア"),
        ("ba", "ば", "バ"),
        ("be", "べ", "ベ"),
        ("bi", "び", "ビ"),
        ("bo", "ぼ", "ボ"),
        ("bu", "ぶ", "ブ"),
        ("bya", "びゃ", "ビャ"),
        ("byo", "びょ", "ビョ"),
        ("byu", "びゅ", "ビュ"),
    ];
    proof {
        reveal_strlit("-");
        assert("-"@ =~= seq!['-']);
        reveal_strlit("ー");
        assert("ー"@ =~= seq!['ー']);
        reveal_strlit("ー");
        assert("ー"@ =~= seq!['ー']);
        reveal_strlit(",");
        assert(","@ =~= seq![',']);
        reveal_strlit("、");
        assert("、"@ =~= seq!['、']);
        reveal_strlit("、");
        assert("、"@ =~= seq!['、']);
        reveal_strlit("!");
        assert("!"@ =~= seq!['!']);
        reveal_strlit("！");
        assert("！"@ =~= seq!['！']);
        reveal_strlit("！");
        assert("！"@ =~= seq!['！']);
        reveal_strlit("?");
        assert("?"@ =~= seq!['?']);
        reveal_strlit("？");
        assert("？"@ =~= seq!['？']);
        reveal_strlit("？");
        assert("？"@ =~= seq!['？']);
        reveal_strlit("...");
        assert("..."@ =~= seq!['.', '.', '.']);
        reveal_strlit("…");
        assert("…"@ =~= seq!['…']);
        reveal_strlit("…");
        assert("…"@ =~= seq!['…']);
        reveal_strlit(".");
        assert("."@ =~= seq!['.']);
        reveal_strlit("。");
        assert("。"@ =~= seq!['。']);
        reveal_strlit("。");
        assert("。"@ =~= seq!['。']);
        reveal_strlit("a");
        assert("a"@ =~= seq!['a']);
        reveal_strlit("あ");
        assert("あ"@ =~= seq!['あ']);
        reveal_strlit("ア");
        assert("ア"@ =~= seq!['ア']);
        reveal_strlit("ba");
        assert("ba"@ =~= seq!['b', 'a']);
        reveal_strlit("ば");
        assert("ば"@ =~= seq!['ば']);
        reveal_strlit("バ");
        assert("バ"@ =~= seq!['バ']);
        reveal_strlit("be");
        assert("be"@ =~= seq!['b', 'e']);
        reveal_strlit("べ");
        assert("べ"@ =~= seq!['べ']);
        reveal_strlit("ベ");
        assert("ベ"@ =~= seq!['ベ']);
        reveal_strlit("bi");
        assert("bi"@ =~= seq!['b', 'i']);
        reveal_strlit("び");
        assert("び"@ =~= seq!['び']);
        reveal_strlit("ビ");
        assert("ビ"@ =~= seq!['ビ']);
        reveal_strlit("bo");
        assert("bo"@ =~= seq!['b', 'o']);
        reveal_strlit("ぼ");
        assert("ぼ"@ =~= seq!['ぼ']);
        reveal_strlit("ボ");
        assert("ボ"@ =~= seq!['ボ']);
        reveal_strlit("bu");
        assert("bu"@ =~= seq!['b', 'u']);
        reveal_strlit("ぶ");
        assert("ぶ"@ =~= seq!['ぶ']);
        reveal_strlit("ブ");
        assert("ブ"@ =~= seq!['ブ']);
        reveal_strlit("bya");
        assert("bya"@ =~= seq!['b', 'y', 'a']);
        reveal_strlit("びゃ");
        assert("びゃ"@ =~= seq!['び', 'ゃ']);
        reveal_strlit("ビャ");
        assert("ビャ"@ =~= seq!['ビ', 'ャ']);
        reveal_strlit("byo");
        assert("byo"@ =~= seq!['b', 'y', 'o']);
        reveal_strlit("びょ");
        assert("びょ"@ =~= seq!['び', 'ょ']);
        reveal_strlit("ビョ");
        assert("ビョ"@ =~= seq!['ビ', 'ョ']);
        reveal_strlit("byu");
        assert("byu"@ =~= seq!['b', 'y', 'u']);
        reveal_strlit("びゅ");
        assert("びゅ"@ =~= seq!['び', 'ゅ']);
        reveal_strlit("ビュ");
        assert("ビュ"@ =~= seq!['ビ', 'ュ']);
    }
    assert(rows_view(r@) =~= kana_rows_spec_0());
    r
}

pub open spec fn kana_rows_spec_1() -> Seq<(Seq<char>, Seq<char>, Seq<char>)> {
    seq![
        (seq!['c', 'c', 'h', 'a'], seq!['っ', 'ち', 'ゃ'], seq!['ッ', 'チ', 'ャ']),
        (seq!['c', 'c', 'h', 'i'], seq!['っ', 'ち'], seq!['ッ', 'チ']),
        (seq!['c', 'h', 'a'], seq!['ち', 'ゃ'], seq!['チ', 'ャ']),
        (seq!['c', 'h', 'e'], seq!['ち', 'ぇ'], seq!['チ', 'ェ']),
        (seq!['c', 'h', 'i'], seq!['ち'], seq!['チ']),
        (seq!['c', 'h', 'o'], seq!['ち', 'ょ'], seq!['チ', 'ョ']),
        (seq!['c', 'h', 'u'], seq!['ち', 'ゅ'], seq!['チ', 'ュ']),
        (seq!['d', 'a'], seq!['だ'], seq!['ダ']),
        (seq!['d', 'd', 'o'], seq!['っ', 'ど'], seq!['ッ', 'ド']),
        (seq!['d', 'e'], seq!['で'], seq!['デ']),
        (seq!['d', 'i'], seq!['ぢ'], seq!['ヂ']),
        (seq!['d', 'o'], seq!['ど'], seq!['ド']),
        (seq!['d', 'u'], seq!['づ'], seq!['ヅ']),
        (seq!['d', 'z', 'u'], seq!['づ'], seq!['ヅ']),
        (seq!['e'], seq!['え'], seq!['エ']),
    ]
}

fn kana_rows_1() -> (r: Vec<(&'static str, &'static str, &'static str)>)
    ensures
        rows_view(r@) == kana_rows_spec_1(),
{
    let r = vec![
        ("ccha", "っちゃ", "ッチャ"),
        ("cchi", "っち", "ッチ"),
        ("cha", "ちゃ", "チャ"),
        ("che", "ちぇ", "チェ"),
        ("chi", "ち", "チ"),
        ("cho", "ちょ", "チョ"),
        ("chu", "ちゅ", "チュ"),
        ("da", "だ", "ダ"),
        ("ddo", "っど", "ッド"),
        ("de", "で", "デ"),
        ("di", "ぢ", "ヂ"),
        ("do", "ど", "ド"),
        ("du", "づ", "ヅ"),
        ("dzu", "づ", "ヅ"),
        ("e", "え", "エ"),
    ];
    proof {
        reveal_strlit("ccha");
        assert("ccha"@ =~= seq!['c', 'c', 'h', 'a']);
        reveal_strlit("っちゃ");
        assert("っちゃ"@ =~= seq!['っ', 'ち', 'ゃ']);
        reveal_strlit("ッチャ");
        assert("ッチャ"@ =~= seq!['ッ', 'チ', 'ャ']);
        reveal_strlit("cchi");
        assert("cchi"@ =~= seq!['c', 'c', 'h', 'i']);
        reveal_strlit("っち");
        assert("っち"@ =~= seq!['っ', 'ち']);
        reveal_strlit("ッチ");
        assert("ッチ"@ =~= seq!['ッ', 'チ']);
        reveal_strlit("cha");
        assert("cha"@ =~= seq!['c', 'h', 'a']);
        reveal_strlit("ちゃ");
        assert("ちゃ"@ =~= seq!['ち', 'ゃ']);
        reveal_strlit("チャ");
        assert("チャ"@ =~= seq!['チ', 'ャ']);
        reveal_strlit("che");
        assert("che"@ =~= seq!['c', 'h', 'e']);
        reveal_strlit("ちぇ");
        assert("ちぇ"@ =~= seq!['ち', 'ぇ']);
        reveal_strlit("チェ");
        assert("チェ"@ =~= seq!['チ', 'ェ']);
        reveal_strlit("chi");
        assert("chi"@ =~= seq!['c', 'h', 'i']);
        reveal_strlit("ち");
        assert("ち"@ =~= seq!['ち']);
        reveal_strlit("チ");
        assert("チ"@ =~= seq!['チ']);
        reveal_strlit("cho");
        assert("cho"@ =~= seq!['c', 'h', 'o']);
        reveal_strlit("ちょ");
        assert("ちょ"@ =~= seq!['ち', 'ょ']);
        reveal_strlit("チョ");
        assert("チョ"@ =~= seq!['チ', 'ョ']);
        reveal_strlit("chu");
        assert("chu"@ =~= seq!['c', 'h', 'u']);
        reveal_strlit("ちゅ");
        assert("ちゅ"@ =~= seq!['ち', 'ゅ']);
        reveal_strlit("チュ");
        assert("チュ"@ =~= seq!['チ', 'ュ']);
        reveal_strlit("da");
        assert("da"@ =~= seq!['d', 'a']);
        reveal_strlit("だ");
        assert("だ"@ =~= seq!['だ']);
        reveal_strlit("ダ");
        assert("ダ"@ =~= seq!['ダ']);
        reveal_strlit("ddo");
        assert("ddo"@ =~= seq!['d', 'd', 'o']);
        reveal_strlit("っど");
        assert("っど"@ =~= seq!['っ', 'ど']);
        reveal_strlit("ッド");
        assert("ッド"@ =~= seq!['ッ', 'ド']);
        reveal_strlit("de");
        assert("de"@ =~= seq!['d', 'e']);
        reveal_strlit("で");
        assert("で"@ =~= seq!['で']);
        reveal_strlit("デ");
        assert("デ"@ =~= seq!['デ']);
        reveal_strlit("di");
        assert("di"@ =~= seq!['d', 'i']);
        reveal_strlit("ぢ");
        assert("ぢ"@ =~= seq!['ぢ']);
        reveal_strlit("ヂ");
        assert("ヂ"@ =~= seq!['ヂ']);
        reveal_strlit("do");
        assert("do"@ =~= seq!['d', 'o']);
        reveal_strlit("ど");
        assert("ど"@ =~= seq!['ど']);
        reveal_strlit("ド");
        assert("ド"@ =~= seq!['ド']);
        reveal_strlit("du");
        assert("du"@ =~= seq!['d', 'u']);
        reveal_strlit("づ");
        assert("づ"@ =~= seq!['づ']);
        reveal_strlit("ヅ");
        assert("ヅ"@ =~= seq!['ヅ']);
        reveal_strlit("dzu");
        assert("dzu"@ =~= seq!['d', 'z', 'u']);
        reveal_strlit("づ");
        assert("づ"@ =~= seq!['づ']);
        reveal_strlit("ヅ");
        assert("ヅ"@ =~= seq!['ヅ']);
        reveal_strlit("e");
        assert("e"@ =~= seq!['e']);
        reveal_strlit("え");
        assert("え"@ =~= seq!['え']);
        reveal_strlit("エ");
        assert("エ"@ =~= seq!['エ']);
    }
    assert(rows_view(r@) =~= kana_rows_spec_1());
    r
}

pub open spec fn kana_rows_spec_2() -> Seq<(Seq<char>, Seq<char>, Seq<char>)> {
    seq![
        (seq!['f', 'i'], seq!['ふ', 'ぃ'], seq!['フ', 'ィ']),
        (seq!['f', 'u'], seq!['ふ'], seq!['フ']),
        (seq!['g', 'a'], seq!['が'], seq!['ガ']),
        (seq!['g', 'e'], seq!['げ'], seq!['ゲ']),
        (seq!['g', 'i'], seq!['ぎ'], seq!['ギ']),
        (seq!['g', 'o'], seq!['ご'], seq!['ゴ']),
        (seq!['g', 'u'], seq!['ぐ'], seq!['グ']),
        (seq!['g', 'y', 'a'], seq!['ぎ', 'ゃ'], seq!['ギ', 'ャ']),
        (seq!['g', 'y', 'o'], seq!['ぎ', 'ょ'], seq!['ギ', 'ョ']),
        (seq!['g', 'y', 'u'], seq!['ぎ', 'ゅ'], seq!['ギ', 'ュ']),
        (seq!['h', 'a'], seq!['は'], seq!['ハ']),
        (seq!['h', 'e'], seq!['へ'], seq!['ヘ']),
        (seq!['h', 'i'], seq!['ひ'], seq!['ヒ']),
        (seq!['h', 'o'], seq!['ほ'], seq!['ホ']),
        (seq!['h', 'y', 'a'], seq!['ひ', 'ゃ'], seq!['ヒ', 'ャ']),
    ]
}

fn kana_rows_2() -> (r: Vec<(&'static str, &'static str, &'static str)>)
    ensures
        rows_view(r@) == kana_rows_spec_2(),
{
    let r = vec![
        ("fi", "ふぃ", "フィ"),
        ("fu", "ふ", "フ"),
        ("ga", "が", "ガ"),
        ("ge", "げ", "ゲ"),
        ("gi", "ぎ", "ギ"),
        ("go", "ご", "ゴ"),
        ("gu", "ぐ", "グ"),
        ("gya", "ぎゃ", "ギャ"),
        ("gyo", "ぎょ", "ギョ"),
        ("gyu", "ぎゅ", "ギュ"),
        ("ha", "は", "ハ"),
        ("he", "へ", "ヘ"),
        ("hi", "ひ", "ヒ"),
        ("ho", "ほ", "ホ"),
        ("hya", "ひゃ", "ヒャ"),
    ];
    proof {
        reveal_strlit("fi");
        assert("fi"@ =~= seq!['f', 'i']);
        reveal_strlit("ふぃ");
        assert("ふぃ"@ =~= seq!['ふ', 'ぃ']);
        reveal_strlit("フィ");
        assert("フィ"@ =~= seq!['フ', 'ィ']);
        reveal_strlit("fu");
        assert("fu"@ =~= seq!['f', 'u']);
        reveal_strlit("ふ");
        assert("ふ"@ =~= seq!['ふ']);
        reveal_strlit("フ");
        assert("フ"@ =~= seq!['フ']);
        reveal_strlit("ga");
        assert("ga"@ =~= seq!['g', 'a']);
        reveal_strlit("が");
        assert("が"@ =~= seq!['が']);
        reveal_strlit("ガ");
        assert("ガ"@ =~= seq!['ガ']);
        reveal_strlit("ge");
        assert("ge"@ =~= seq!['g', 'e']);
        reveal_strlit("げ");
        assert("げ"@ =~= seq!['げ']);
        reveal_strlit("ゲ");
        assert("ゲ"@ =~= seq!['ゲ']);
        reveal_strlit("gi");
        assert("gi"@ =~= seq!['g', 'i']);
        reveal_strlit("ぎ");
        assert("ぎ"@ =~= seq!['ぎ']);
        reveal_strlit("ギ");
        assert("ギ"@ =~= seq!['ギ']);
        reveal_strlit("go");
        assert("go"@ =~= seq!['g', 'o']);
        reveal_strlit("ご");
        assert("ご"@ =~= seq!['ご']);
        reveal_strlit("ゴ");
        assert("ゴ"@ =~= seq!['ゴ']);
        reveal_strlit("gu");
        assert("gu"@ =~= seq!['g', 'u']);
        reveal_strlit("ぐ");
        assert("ぐ"@ =~= seq!['ぐ']);
        reveal_strlit("グ");
        assert("グ"@ =~= seq!['グ']);
        reveal_strlit("gya");
        assert("gya"@ =~= seq!['g', 'y', 'a']);
        reveal_strlit("ぎゃ");
        assert("ぎゃ"@ =~= seq!['ぎ', 'ゃ']);
        reveal_strlit("ギャ");
        assert("ギャ"@ =~= seq!['ギ', 'ャ']);
        reveal_strlit("gyo");
        assert("gyo"@ =~= seq!['g', 'y', 'o']);
        reveal_strlit("ぎょ");
        assert("ぎょ"@ =~= seq!['ぎ', 'ょ']);
        reveal_strlit("ギョ");
        assert("ギョ"@ =~= seq!['ギ', 'ョ']);
        reveal_strlit("gyu");
        assert("gyu"@ =~= seq!['g', 'y', 'u']);
        reveal_strlit("ぎゅ");
        assert("ぎゅ"@ =~= seq!['ぎ', 'ゅ']);
        reveal_strlit("ギュ");
        assert("ギュ"@ =~= seq!['ギ', 'ュ']);
        reveal_strlit("ha");
        assert("ha"@ =~= seq!['h', 'a']);
        reveal_strlit("は");
        assert("は"@ =~= seq!['は']);
        reveal_strlit("ハ");
        assert("ハ"@ =~= seq!['ハ']);
        reveal_strlit("he");
        assert("he"@ =~= seq!['h', 'e']);
        reveal_strlit("へ");
        assert("へ"@ =~= seq!['へ']);
        reveal_strlit("ヘ");
        assert("ヘ"@ =~= seq!['ヘ']);
        reveal_strlit("hi");
        assert("hi"@ =~= seq!['h', 'i']);
        reveal_strlit("ひ");
        assert("ひ"@ =~= seq!['ひ']);
        reveal_strlit("ヒ");
        assert("ヒ"@ =~= seq!['ヒ']);
        reveal_strlit("ho");
        assert("ho"@ =~= seq!['h', 'o']);
        reveal_strlit("ほ");
        assert("ほ"@ =~= seq!['ほ']);
        reveal_strlit("ホ");
        assert("ホ"@ =~= seq!['ホ']);
        reveal_strlit("hya");
        assert("hya"@ =~= seq!['h', 'y', 'a']);
        reveal_strlit("ひゃ");
        assert("ひゃ"@ =~= seq!['ひ', 'ゃ']);
        reveal_strlit("ヒャ");
        assert("ヒャ"@ =~= seq!['ヒ', 'ャ']);
    }
    assert(rows_view(r@) =~= kana_rows_spec_2());
    r
}

pub open spec fn kana_rows_spec_3() -> Seq<(Seq<char>, Seq<char>, Seq<char>)> {
    seq![
        (seq!['h', 'y', 'o'], seq!['ひ', 'ょ'], seq!['ヒ', 'ョ']),
        (seq!['h', 'y', 'u'], seq!['ひ', 'ゅ'], seq!['ヒ', 'ュ']),
        (seq!['i'], seq!['い'], seq!['イ']),
        (seq!['j', 'a'], seq!['じ', 'ゃ'], seq!['ジ', 'ャ']),
        (seq!['j', 'i'], seq!['じ'], seq!['ジ']),
        (seq!['j', 'e'], seq!['じ', 'ぇ'], seq!['ジ', 'ェ']),
        (seq!['j', 'o'], seq!['じ', 'ょ'], seq!['ジ', 'ョ']),
        (seq!['j', 'u'], seq!['じ', 'ゅ'], seq!['ジ', 'ュ']),
        (seq!['k', 'a'], seq!['か'], seq!['カ']),
        (seq!['k', 'e'], seq!['け'], seq!['ケ']),
        (seq!['k', 'i'], seq!['き'], seq!['キ']),
        (seq!['k', 'k', 'a'], seq!['っ', 'か'], seq!['ッ', 'カ']),
        (seq!['k', 'k', 'e'], seq!['っ', 'け'], seq!['ッ', 'ケ']),
        (seq!['k', 'k', 'i'], seq!['っ', 'き'], seq!['ッ', 'キ']),
        (seq!['k', 'k', 'o'], seq!['っ', 'こ'], seq!['ッ', 'コ']),
    ]
}

fn kana_rows_3() -> (r: Vec<(&'static str, &'static str, &'static str)>)
    ensures
        rows_view(r@) == kana_rows_spec_3(),
{
    let r = vec![
        ("hyo", "ひょ", "ヒョ"),
        ("hyu", "ひゅ", "ヒュ"),
        ("i", "い", "イ"),
        ("ja", "じゃ", "ジャ"),
        ("ji", "じ", "ジ"),
        ("je", "じぇ", "ジェ"),
        ("jo", "じょ", "ジョ"),
        ("ju", "じゅ", "ジュ"),
        ("ka", "か", "カ"),
        ("ke", "け", "ケ"),
        ("ki", "き", "キ"),
        ("kka", "っか", "ッカ"),
        ("kke", "っけ", "ッケ"),
        ("kki", "っき", "ッキ"),
        ("kko", "っこ", "ッコ"),
    ];
    proof {
        reveal_strlit("hyo");
        assert("hyo"@ =~= seq!['h', 'y', 'o']);
        reveal_strlit("ひょ");
        assert("ひょ"@ =~= seq!['ひ', 'ょ']);
        reveal_strlit("ヒョ");
        assert("ヒョ"@ =~= seq!['ヒ', 'ョ']);
        reveal_strlit("hyu");
        assert("hyu"@ =~= seq!['h', 'y', 'u']);
        reveal_strlit("ひゅ");
        assert("ひゅ"@ =~= seq!['ひ', 'ゅ']);
        reveal_strlit("ヒュ");
        assert("ヒュ"@ =~= seq!['ヒ', 'ュ']);
        reveal_strlit("i");
        assert("i"@ =~= seq!['i']);
        reveal_strlit("い");
        assert("い"@ =~= seq!['い']);
        reveal_strlit("イ");
        assert("イ"@ =~= seq!['イ']);
        reveal_strlit("ja");
        assert("ja"@ =~= seq!['j', 'a']);
        reveal_strlit("じゃ");
        assert("じゃ"@ =~= seq!['じ', 'ゃ']);
        reveal_strlit("ジャ");
        assert("ジャ"@ =~= seq!['ジ', 'ャ']);
        reveal_strlit("ji");
        assert("ji"@ =~= seq!['j', 'i']);
        reveal_strlit("じ");
        assert("じ"@ =~= seq!['じ']);
        reveal_strlit("ジ");
        assert("ジ"@ =~= seq!['ジ']);
        reveal_strlit("je");
        assert("je"@ =~= seq!['j', 'e']);
        reveal_strlit("じぇ");
        assert("じぇ"@ =~= seq!['じ', 'ぇ']);
        reveal_strlit("ジェ");
        assert("ジェ"@ =~= seq!['ジ', 'ェ']);
        reveal_strlit("jo");
        assert("jo"@ =~= seq!['j', 'o']);
        reveal_strlit("じょ");
        assert("じょ"@ =~= seq!['じ', 'ょ']);
        reveal_strlit("ジョ");
        assert("ジョ"@ =~= seq!['ジ', 'ョ']);
        reveal_strlit("ju");
        assert("ju"@ =~= seq!['j', 'u']);
        reveal_strlit("じゅ");
        assert("じゅ"@ =~= seq!['じ', 'ゅ']);
        reveal_strlit("ジュ");
        assert("ジュ"@ =~= seq!['ジ', 'ュ']);
        reveal_strlit("ka");
        assert("ka"@ =~= seq!['k', 'a']);
        reveal_strlit("か");
        assert("か"@ =~= seq!['か']);
        reveal_strlit("カ");
        assert("カ"@ =~= seq!['カ']);
        reveal_strlit("ke");
        assert("ke"@ =~= seq!['k', 'e']);
        reveal_strlit("け");
        assert("け"@ =~= seq!['け']);
        reveal_strlit("ケ");
        assert("ケ"@ =~= seq!['ケ']);
        reveal_strlit("ki");
        assert("ki"@ =~= seq!['k', 'i']);
        reveal_strlit("き");
        assert("き"@ =~= seq!['き']);
        reveal_strlit("キ");
        assert("キ"@ =~= seq!['キ']);
        reveal_strlit("kka");
        assert("kka"@ =~= seq!['k', 'k', 'a']);
        reveal_strlit("っか");
        assert("っか"@ =~= seq!['っ', 'か']);
        reveal_strlit("ッカ");
        assert("ッカ"@ =~= seq!['ッ', 'カ']);
        reveal_strlit("kke");
        assert("kke"@ =~= seq!['k', 'k', 'e']);
        reveal_strlit("っけ");
        assert("っけ"@ =~= seq!['っ', 'け']);
        reveal_strlit("ッケ");
        assert("ッケ"@ =~= seq!['ッ', 'ケ']);
        reveal_strlit("kki");
        assert("kki"@ =~= seq!['k', 'k', 'i']);
        reveal_strlit("っき");
        assert("っき"@ =~= seq!['っ', 'き']);
        reveal_strlit("ッキ");
        assert("ッキ"@ =~= seq!['ッ', 'キ']);
        reveal_strlit("kko");
        assert("kko"@ =~= seq!['k', 'k', 'o']);
        reveal_strlit("っこ");
        assert("っこ"@ =~= seq!['っ', 'こ']);
        reveal_strlit("ッコ");
        assert("ッコ"@ =~= seq!['ッ', 'コ']);
    }
    assert(rows_view(r@) =~= kana_rows_spec_3());
    r
}

pub open spec fn kana_rows_spec_4() -> Seq<(Seq<char>, Seq<char>, Seq<char>)> {
    seq![
        (seq!['k', 'k', 'u'], seq!['っ', 'く'], seq!['ッ', 'ク']),
        (seq!['k', 'k', 'y', 'a'], seq!['っ', 'き', 'ゃ'], seq!['ッ', 'キ', 'ャ']),
        (seq!['k', 'k', 'y', 'o'], seq!['っ', 'き', 'ょ'], seq!['ッ', 'キ', 'ョ']),
        (seq!['k', 'k', 'y', 'u'], seq!['っ', 'き', 'ゅ'], seq!['ッ', 'キ', 'ュ']),
        (seq!['k', 'o'], seq!['こ'], seq!['コ']),
        (seq!['k', 'u'], seq!['く'], seq!['ク']),
        (seq!['k', 'y', 'a'], seq!['き', 'ゃ'], seq!['キ', 'ャ']),
        (seq!['k', 'y', 'o'], seq!['き', 'ょ'], seq!['キ', 'ョ']),
        (seq!['k', 'y', 'u'], seq!['き', 'ゅ'], seq!['キ', 'ュ']),
        (seq!['m', 'a'], seq!['ま'], seq!['マ']),
        (seq!['m', 'e'], seq!['め'], seq!['メ']),
        (seq!['m', 'i'], seq!['み'], seq!['ミ']),
        (seq!['m', 'm', 'a'], seq!['っ', 'ま'], seq!['ッ', 'マ']),
        (seq!['m', 'm', 'e'], seq!['っ', 'め'], seq!['ッ', 'メ']),
        (seq!['m', 'm', 'i'], seq!['っ', 'み'], seq!['ッ', 'ミ']),
    ]
}

fn kana_rows_4() -> (r: Vec<(&'static str, &'static str, &'static str)>)
    ensures
        rows_view(r@) == kana_rows_spec_4(),
{
    let r = vec![
        ("kku", "っく", "ック"),
        ("kkya", "っきゃ", "ッキャ"),
        ("kkyo", "っきょ", "ッキョ"),
        ("kkyu", "っきゅ", "ッキュ"),
        ("ko", "こ", "コ"),
        ("ku", "く", "ク"),
        ("kya", "きゃ", "キャ"),
        ("kyo", "きょ", "キョ"),
        ("kyu", "きゅ", "キュ"),
        ("ma", "ま", "マ"),
        ("me", "め", "メ"),
        ("mi", "み", "ミ"),
        ("mma", "っま", "ッマ"),
        ("mme", "っめ", "ッメ"),
        ("mmi", "っみ", "ッミ"),
    ];
    proof {
        reveal_strlit("kku");
        assert("kku"@ =~= seq!['k', 'k', 'u']);
        reveal_strlit("っく");
        assert("っく"@ =~= seq!['っ', 'く']);
        reveal_strlit("ック");
        assert("ック"@ =~= seq!['ッ', 'ク']);
        reveal_strlit("kkya");
        assert("kkya"@ =~= seq!['k', 'k', 'y', 'a']);
        reveal_strlit("っきゃ");
        assert("っきゃ"@ =~= seq!['っ', 'き', 'ゃ']);
        reveal_strlit("ッキャ");
        assert("ッキャ"@ =~= seq!['ッ', 'キ', 'ャ']);
        reveal_strlit("kkyo");
        assert("kkyo"@ =~= seq!['k', 'k', 'y', 'o']);
        reveal_strlit("っきょ");
        assert("っきょ"@ =~= seq!['っ', 'き', 'ょ']);
        reveal_strlit("ッキョ");
        assert("ッキョ"@ =~= seq!['ッ', 'キ', 'ョ']);
        reveal_strlit("kkyu");
        assert("kkyu"@ =~= seq!['k', 'k', 'y', 'u']);
        reveal_strlit("っきゅ");
        assert("っきゅ"@ =~= seq!['っ', 'き', 'ゅ']);
        reveal_strlit("ッキュ");
        assert("ッキュ"@ =~= seq!['ッ', 'キ', 'ュ']);
        reveal_strlit("ko");
        assert("ko"@ =~= seq!['k', 'o']);
        reveal_strlit("こ");
        assert("こ"@ =~= seq!['こ']);
        reveal_strlit("コ");
        assert("コ"@ =~= seq!['コ']);
        reveal_strlit("ku");
        assert("ku"@ =~= seq!['k', 'u']);
        reveal_strlit("く");
        assert("く"@ =~= seq!['く']);
        reveal_strlit("ク");
        assert("ク"@ =~= seq!['ク']);
        reveal_strlit("kya");
        assert("kya"@ =~= seq!['k', 'y', 'a']);
        reveal_strlit("きゃ");
        assert("きゃ"@ =~= seq!['き', 'ゃ']);
        reveal_strlit("キャ");
        assert("キャ"@ =~= seq!['キ', 'ャ']);
        reveal_strlit("kyo");
        assert("kyo"@ =~= seq!['k', 'y', 'o']);
        reveal_strlit("きょ");
        assert("きょ"@ =~= seq!['き', 'ょ']);
        reveal_strlit("キョ");
        assert("キョ"@ =~= seq!['キ', 'ョ']);
        reveal_strlit("kyu");
        assert("kyu"@ =~= seq!['k', 'y', 'u']);
        reveal_strlit("きゅ");
        assert("きゅ"@ =~= seq!['き', 'ゅ']);
        reveal_strlit("キュ");
        assert("キュ"@ =~= seq!['キ', 'ュ']);
        reveal_strlit("ma");
        assert("ma"@ =~= seq!['m', 'a']);
        reveal_strlit("ま");
        assert("ま"@ =~= seq!['ま']);
        reveal_strlit("マ");
        assert("マ"@ =~= seq!['マ']);
        reveal_strlit("me");
        assert("me"@ =~= seq!['m', 'e']);
        reveal_strlit("め");
        assert("め"@ =~= seq!['め']);
        reveal_strlit("メ");
        assert("メ"@ =~= seq!['メ']);
        reveal_strlit("mi");
        assert("mi"@ =~= seq!['m', 'i']);
        reveal_strlit("み");
        assert("み"@ =~= seq!['み']);
        reveal_strlit("ミ");
        assert("ミ"@ =~= seq!['ミ']);
        reveal_strlit("mma");
        assert("mma"@ =~= seq!['m', 'm', 'a']);
        reveal_strlit("っま");
        assert("っま"@ =~= seq!['っ', 'ま']);
        reveal_strlit("ッマ");
        assert("ッマ"@ =~= seq!['ッ', 'マ']);
        reveal_strlit("mme");
        assert("mme"@ =~= seq!['m', 'm', 'e']);
        reveal_strlit("っめ");
        assert("っめ"@ =~= seq!['っ', 'め']);
        reveal_strlit("ッメ");
        assert("ッメ"@ =~= seq!['ッ', 'メ']);
        reveal_strlit("mmi");
        assert("mmi"@ =~= seq!['m', 'm', 'i']);
        reveal_strlit("っみ");
        assert("っみ"@ =~= seq!['っ', 'み']);
        reveal_strlit("ッミ");
        assert("ッミ"@ =~= seq!['ッ', 'ミ']);
    }
    assert(rows_view(r@) =~= kana_rows_spec_4());
    r
}

pub open spec fn kana_rows_spec_5() -> Seq<(Seq<char>, Seq<char>, Seq<char>)> {
    seq![
        (seq!['m', 'm', 'o'], seq!['っ', 'も'], seq!['ッ', 'モ']),
        (seq!['m', 'm', 'u'], seq!['っ', 'む'], seq!['ッ', 'ム']),
        (seq!['m', 'o'], seq!['も'], seq!['モ']),
        (seq!['m', 'u'], seq!['む'], seq!['ム']),
        (seq!['m', 'y', 'a'], seq!['み', 'ゃ'], seq!['ミ', 'ャ']),
        (seq!['m', 'y', 'o'], seq!['み', 'ょ'], seq!['ミ', 'ョ']),
        (seq!['m', 'y', 'u'], seq!['み', 'ゅ'], seq!['ミ', 'ュ']),
        (seq!['n', 'a'], seq!['な'], seq!['ナ']),
        (seq!['n', 'e'], seq!['ね'], seq!['ネ']),
        (seq!['n', 'i'], seq!['に'], seq!['ニ']),
        (seq!['n'], seq!['ん'], seq!['ン']),
        (seq!['n', 'o'], seq!['の'], seq!['ノ']),
        (seq!['n', 'u'], seq!['ぬ'], seq!['ヌ']),
        (seq!['n', 'y', 'a'], seq!['に', 'ゃ'], seq!['ニ', 'ャ']),
        (seq!['n', 'y', 'o'], seq!['に', 'ょ'], seq!['ニ', 'ョ']),
    ]
}

fn kana_rows_5() -> (r: Vec<(&'static str, &'static str, &'static str)>)
    ensures
        rows_view(r@) == kana_rows_spec_5(),
{
    let r = vec![
        ("mmo", "っも", "ッモ"),
        ("mmu", "っむ", "ッム"),
        ("mo", "も", "モ"),
        ("mu", "む", "ム"),
        ("mya", "みゃ", "ミャ"),
        ("myo", "みょ", "ミョ"),
        ("myu", "みゅ", "ミュ"),
        ("na", "な", "ナ"),
        ("ne", "ね", "ネ"),
        ("ni", "に", "ニ"),
        ("n", "ん", "ン"),
        ("no", "の", "ノ"),
        ("nu", "ぬ", "ヌ"),
        ("nya", "にゃ", "ニャ"),
        ("nyo", "にょ", "ニョ"),
    ];
    proof {
        reveal_strlit("mmo");
        assert("mmo"@ =~= seq!['m', 'm', 'o']);
        reveal_strlit("っも");
        assert("っも"@ =~= seq!['っ', 'も']);
        reveal_strlit("ッモ");
        assert("ッモ"@ =~= seq!['ッ', 'モ']);
        reveal_strlit("mmu");
        assert("mmu"@ =~= seq!['m', 'm', 'u']);
        reveal_strlit("っむ");
        assert("っむ"@ =~= seq!['っ', 'む']);
        reveal_strlit("ッム");
        assert("ッム"@ =~= seq!['ッ', 'ム']);
        reveal_strlit("mo");
        assert("mo"@ =~= seq!['m', 'o']);
        reveal_strlit("も");
        assert("も"@ =~= seq!['も']);
        reveal_strlit("モ");
        assert("モ"@ =~= seq!['モ']);
        reveal_strlit("mu");
        assert("mu"@ =~= seq!['m', 'u']);
        reveal_strlit("む");
        assert("む"@ =~= seq!['む']);
        reveal_strlit("ム");
        assert("ム"@ =~= seq!['ム']);
        reveal_strlit("mya");
        assert("mya"@ =~= seq!['m', 'y', 'a']);
        reveal_strlit("みゃ");
        assert("みゃ"@ =~= seq!['み', 'ゃ']);
        reveal_strlit("ミャ");
        assert("ミャ"@ =~= seq!['ミ', 'ャ']);
        reveal_strlit("myo");
        assert("myo"@ =~= seq!['m', 'y', 'o']);
        reveal_strlit("みょ");
        assert("みょ"@ =~= seq!['み', 'ょ']);
        reveal_strlit("ミョ");
        assert("ミョ"@ =~= seq!['ミ', 'ョ']);
        reveal_strlit("myu");
        assert("myu"@ =~= seq!['m', 'y', 'u']);
        reveal_strlit("みゅ");
        assert("みゅ"@ =~= seq!['み', 'ゅ']);
        reveal_strlit("ミュ");
        assert("ミュ"@ =~= seq!['ミ', 'ュ']);
        reveal_strlit("na");
        assert("na"@ =~= seq!['n', 'a']);
        reveal_strlit("な");
        assert("な"@ =~= seq!['な']);
        reveal_strlit("ナ");
        assert("ナ"@ =~= seq!['ナ']);
        reveal_strlit("ne");
        assert("ne"@ =~= seq!['n', 'e']);
        reveal_strlit("ね");
        assert("ね"@ =~= seq!['ね']);
        reveal_strlit("ネ");
        assert("ネ"@ =~= seq!['ネ']);
        reveal_strlit("ni");
        assert("ni"@ =~= seq!['n', 'i']);
        reveal_strlit("に");
        assert("に"@ =~= seq!['に']);
        reveal_strlit("ニ");
        assert("ニ"@ =~= seq!['ニ']);
        reveal_strlit("n");
        assert("n"@ =~= seq!['n']);
        reveal_strlit("ん");
        assert("ん"@ =~= seq!['ん']);
        reveal_strlit("ン");
        assert("ン"@ =~= seq!['ン']);
        reveal_strlit("no");
        assert("no"@ =~= seq!['n', 'o']);
        reveal_strlit("の");
        assert("の"@ =~= seq!['の']);
        reveal_strlit("ノ");
        assert("ノ"@ =~= seq!['ノ']);
        reveal_strlit("nu");
        assert("nu"@ =~= seq!['n', 'u']);
        reveal_strlit("ぬ");
        assert("ぬ"@ =~= seq!['ぬ']);
        reveal_strlit("ヌ");
        assert("ヌ"@ =~= seq!['ヌ']);
        reveal_strlit("nya");
        assert("nya"@ =~= seq!['n', 'y', 'a']);
        reveal_strlit("にゃ");
        assert("にゃ"@ =~= seq!['に', 'ゃ']);
        reveal_strlit("ニャ");
        assert("ニャ"@ =~= seq!['ニ', 'ャ']);
        reveal_strlit("nyo");
        assert("nyo"@ =~= seq!['n', 'y', 'o']);
        reveal_strlit("にょ");
        assert("にょ"@ =~= seq!['に', 'ょ']);
        reveal_strlit("ニョ");
        assert("ニョ"@ =~= seq!['ニ', 'ョ']);
    }
    assert(rows_view(r@) =~= kana_rows_spec_5());
    r
}

pub open spec fn kana_rows_spec_6() -> Seq<(Seq<char>, Seq<char>, Seq<char>)> {
    seq![
        (seq!['n', 'y', 'u'], seq!['に', 'ゅ'], seq!['ニ', 'ュ']),
        (seq!['o'], seq!['お'], seq!['オ']),
        (seq!['p', 'a'], seq!['ぱ'], seq!['パ']),
        (seq!['p', 'e'], seq!['ぺ'], seq!['ペ']),
        (seq!['p', 'i'], seq!['ぴ'], seq!['ピ']),
        (seq!['p', 'o'], seq!['ぽ'], seq!['ポ']),
        (seq!['p', 'p', 'a'], seq!['っ', 'ぱ'], seq!['ッ', 'パ']),
        (seq!['p', 'p', 'i'], seq!['っ', 'ぴ'], seq!['ッ', 'ピ']),
        (seq!['p', 'p', 'o'], seq!['っ', 'ぽ'], seq!['ッ', 'ポ']),
        (seq!['p', 'p', 'u'], seq!['っ', 'ぷ'], seq!['ッ', 'プ']),
        (seq!['p', 'u'], seq!['ぷ'], seq!['プ']),
        (seq!['p', 'y', 'o'], seq!['ぴ', 'ょ'], seq!['ピ', 'ョ']),
        (seq!['p', 'y', 'u'], seq!['ぴ', 'ゅ'], seq!['ピ', 'ュ']),
        (seq!['r', 'a'], seq!['ら'], seq!['ラ']),
        (seq!['r', 'e'], seq!['れ'], seq!['レ']),
    ]
}

fn kana_rows_6() -> (r: Vec<(&'static str, &'static str, &'static str)>)
    ensures
        rows_view(r@) == kana_rows_spec_6(),
{
    let r = vec![
        ("nyu", "にゅ", "ニュ"),
        ("o", "お", "オ"),
        ("pa", "ぱ", "パ"),
        ("pe", "ぺ", "ペ"),
        ("pi", "ぴ", "ピ"),
        ("po", "ぽ", "ポ"),
        ("ppa", "っぱ", "ッパ"),
        ("ppi", "っぴ", "ッピ"),
        ("ppo", "っぽ", "ッポ"),
        ("ppu", "っぷ", "ップ"),
        ("pu", "ぷ", "プ"),
        ("pyo", "ぴょ", "ピョ"),
        ("pyu", "ぴゅ", "ピュ"),
        ("ra", "ら", "ラ"),
        ("re", "れ", "レ"),
    ];
    proof {
        reveal_strlit("nyu");
        assert("nyu"@ =~= seq!['n', 'y', 'u']);
        reveal_strlit("にゅ");
        assert("にゅ"@ =~= seq!['に', 'ゅ']);
        reveal_strlit("ニュ");
        assert("ニュ"@ =~= seq!['ニ', 'ュ']);
        reveal_strlit("o");
        assert("o"@ =~= seq!['o']);
        reveal_strlit("お");
        assert("お"@ =~= seq!['お']);
        reveal_strlit("オ");
        assert("オ"@ =~= seq!['オ']);
        reveal_strlit("pa");
        assert("pa"@ =~= seq!['p', 'a']);
        reveal_strlit("ぱ");
        assert("ぱ"@ =~= seq!['ぱ']);
        reveal_strlit("パ");
        assert("パ"@ =~= seq!['パ']);
        reveal_strlit("pe");
        assert("pe"@ =~= seq!['p', 'e']);
        reveal_strlit("ぺ");
        assert("ぺ"@ =~= seq!['ぺ']);
        reveal_strlit("ペ");
        assert("ペ"@ =~= seq!['ペ']);
        reveal_strlit("pi");
        assert("pi"@ =~= seq!['p', 'i']);
        reveal_strlit("ぴ");
        assert("ぴ"@ =~= seq!['ぴ']);
        reveal_strlit("ピ");
        assert("ピ"@ =~= seq!['ピ']);
        reveal_strlit("po");
        assert("po"@ =~= seq!['p', 'o']);
        reveal_strlit("ぽ");
        assert("ぽ"@ =~= seq!['ぽ']);
        reveal_strlit("ポ");
        assert("ポ"@ =~= seq!['ポ']);
        reveal_strlit("ppa");
        assert("ppa"@ =~= seq!['p', 'p', 'a']);
        reveal_strlit("っぱ");
        assert("っぱ"@ =~= seq!['っ', 'ぱ']);
        reveal_strlit("ッパ");
        assert("ッパ"@ =~= seq!['ッ', 'パ']);
        reveal_strlit("ppi");
        assert("ppi"@ =~= seq!['p', 'p', 'i']);
        reveal_strlit("っぴ");
        assert("っぴ"@ =~= seq!['っ', 'ぴ']);
        reveal_strlit("ッピ");
        assert("ッピ"@ =~= seq!['ッ', 'ピ']);
        reveal_strlit("ppo");
        assert("ppo"@ =~= seq!['p', 'p', 'o']);
        reveal_strlit("っぽ");
        assert("っぽ"@ =~= seq!['っ', 'ぽ']);
        reveal_strlit("ッポ");
        assert("ッポ"@ =~= seq!['ッ', 'ポ']);
        reveal_strlit("ppu");
        assert("ppu"@ =~= seq!['p', 'p', 'u']);
        reveal_strlit("っぷ");
        assert("っぷ"@ =~= seq!['っ', 'ぷ']);
        reveal_strlit("ップ");
        assert("ップ"@ =~= seq!['ッ', 'プ']);
        reveal_strlit("pu");
        assert("pu"@ =~= seq!['p', 'u']);
        reveal_strlit("ぷ");
        assert("ぷ"@ =~= seq!['ぷ']);
        reveal_strlit("プ");
        assert("プ"@ =~= seq!['プ']);
        reveal_strlit("pyo");
        assert("pyo"@ =~= seq!['p', 'y', 'o']);
        reveal_strlit("ぴょ");
        assert("ぴょ"@ =~= seq!['ぴ', 'ょ']);
        reveal_strlit("ピョ");
        assert("ピョ"@ =~= seq!['ピ', 'ョ']);
        reveal_strlit("pyu");
        assert("pyu"@ =~= seq!['p', 'y', 'u']);
        reveal_strlit("ぴゅ");
        assert("ぴゅ"@ =~= seq!['ぴ', 'ゅ']);
        reveal_strlit("ピュ");
        assert("ピュ"@ =~= seq!['ピ', 'ュ']);
        reveal_strlit("ra");
        assert("ra"@ =~= seq!['r', 'a']);
        reveal_strlit("ら");
        assert("ら"@ =~= seq!['ら']);
        reveal_strlit("ラ");
        assert("ラ"@ =~= seq!['ラ']);
        reveal_strlit("re");
        assert("re"@ =~= seq!['r', 'e']);
        reveal_strlit("れ");
        assert("れ"@ =~= seq!['れ']);
        reveal_strlit("レ");
        assert("レ"@ =~= seq!['レ']);
    }
    assert(rows_view(r@) =~= kana_rows_spec_6());
    r
}

pub open spec fn kana_rows_spec_7() -> Seq<(Seq<char>, Seq<char>, Seq<char>)> {
    seq![
        (seq!['r', 'i'], seq!['り'], seq!['リ']),
        (seq!['r', 'o'], seq!['ろ'], seq!['ロ']),
        (seq!['r', 'u'], seq!['る'], seq!['ル']),
        (seq!['r', 'y', 'a'], seq!['り', 'ゃ'], seq!['リ', 'ャ']),
        (seq!['r', 'y', 'o'], seq!['り', 'ょ'], seq!['リ', 'ョ']),
        (seq!['r', 'y', 'u'], seq!['り', 'ゅ'], seq!['リ', 'ュ']),
        (seq!['s', 'a'], seq!['さ'], seq!['サ']),
        (seq!['s', 'e'], seq!['せ'], seq!['セ']),
        (seq!['s', 'h', 'a'], seq!['し', 'ゃ'], seq!['シ', 'ャ']),
        (seq!['s', 'h', 'i'], seq!['し'], seq!['シ']),
        (seq!['s', 'h', 'o'], seq!['し', 'ょ'], seq!['シ', 'ョ']),
        (seq!['s', 'h', 'u'], seq!['し', 'ゅ'], seq!['シ', 'ュ']),
        (seq!['s', 'o'], seq!['そ'], seq!['ソ']),
        (seq!['s', 's', 'a'], seq!['っ', 'さ'], seq!['ッ', 'サ']),
        (seq!['s', 's', 'e'], seq!['っ', 'せ'], seq!['ッ', 'セ']),
    ]
}

fn kana_rows_7() -> (r: Vec<(&'static str, &'static str, &'static str)>)
    ensures
        rows_view(r@) == kana_rows_spec_7(),
{
    let r = vec![
        ("ri", "り", "リ"),
        ("ro", "ろ", "ロ"),
        ("ru", "る", "ル"),
        ("rya", "りゃ", "リャ"),
        ("ryo", "りょ", "リョ"),
        ("ryu", "りゅ", "リュ"),
        ("sa", "さ", "サ"),
        ("se", "せ", "セ"),
        ("sha", "しゃ", "シャ"),
        ("shi", "し", "シ"),
        ("sho", "しょ", "ショ"),
        ("shu", "しゅ", "シュ"),
        ("so", "そ", "ソ"),
        ("ssa", "っさ", "ッサ"),
        ("sse", "っせ", "ッセ"),
    ];
    proof {
        reveal_strlit("ri");
        assert("ri"@ =~= seq!['r', 'i']);
        reveal_strlit("り");
        assert("り"@ =~= seq!['り']);
        reveal_strlit("リ");
        assert("リ"@ =~= seq!['リ']);
        reveal_strlit("ro");
        assert("ro"@ =~= seq!['r', 'o']);
        reveal_strlit("ろ");
        assert("ろ"@ =~= seq!['ろ']);
        reveal_strlit("ロ");
        assert("ロ"@ =~= seq!['ロ']);
        reveal_strlit("ru");
        assert("ru"@ =~= seq!['r', 'u']);
        reveal_strlit("る");
        assert("る"@ =~= seq!['る']);
        reveal_strlit("ル");
        assert("ル"@ =~= seq!['ル']);
        reveal_strlit("rya");
        assert("rya"@ =~= seq!['r', 'y', 'a']);
        reveal_strlit("りゃ");
        assert("りゃ"@ =~= seq!['り', 'ゃ']);
        reveal_strlit("リャ");
        assert("リャ"@ =~= seq!['リ', 'ャ']);
        reveal_strlit("ryo");
        assert("ryo"@ =~= seq!['r', 'y', 'o']);
        reveal_strlit("りょ");
        assert("りょ"@ =~= seq!['り', 'ょ']);
        reveal_strlit("リョ");
        assert("リョ"@ =~= seq!['リ', 'ョ']);
        reveal_strlit("ryu");
        assert("ryu"@ =~= seq!['r', 'y', 'u']);
        reveal_strlit("りゅ");
        assert("りゅ"@ =~= seq!['り', 'ゅ']);
        reveal_strlit("リュ");
        assert("リュ"@ =~= seq!['リ', 'ュ']);
        reveal_strlit("sa");
        assert("sa"@ =~= seq!['s', 'a']);
        reveal_strlit("さ");
        assert("さ"@ =~= seq!['さ']);
        reveal_strlit("サ");
        assert("サ"@ =~= seq!['サ']);
        reveal_strlit("se");
        assert("se"@ =~= seq!['s', 'e']);
        reveal_strlit("せ");
        assert("せ"@ =~= seq!['せ']);
        reveal_strlit("セ");
        assert("セ"@ =~= seq!['セ']);
        reveal_strlit("sha");
        assert("sha"@ =~= seq!['s', 'h', 'a']);
        reveal_strlit("しゃ");
        assert("しゃ"@ =~= seq!['し', 'ゃ']);
        reveal_strlit("シャ");
        assert("シャ"@ =~= seq!['シ', 'ャ']);
        reveal_strlit("shi");
        assert("shi"@ =~= seq!['s', 'h', 'i']);
        reveal_strlit("し");
        assert("し"@ =~= seq!['し']);
        reveal_strlit("シ");
        assert("シ"@ =~= seq!['シ']);
        reveal_strlit("sho");
        assert("sho"@ =~= seq!['s', 'h', 'o']);
        reveal_strlit("しょ");
        assert("しょ"@ =~= seq!['し', 'ょ']);
        reveal_strlit("ショ");
        assert("ショ"@ =~= seq!['シ', 'ョ']);
        reveal_strlit("shu");
        assert("shu"@ =~= seq!['s', 'h', 'u']);
        reveal_strlit("しゅ");
        assert("しゅ"@ =~= seq!['し', 'ゅ']);
        reveal_strlit("シュ");
        assert("シュ"@ =~= seq!['シ', 'ュ']);
        reveal_strlit("so");
        assert("so"@ =~= seq!['s', 'o']);
        reveal_strlit("そ");
        assert("そ"@ =~= seq!['そ']);
        reveal_strlit("ソ");
        assert("ソ"@ =~= seq!['ソ']);
        reveal_strlit("ssa");
        assert("ssa"@ =~= seq!['s', 's', 'a']);
        reveal_strlit("っさ");
        assert("っさ"@ =~= seq!['っ', 'さ']);
        reveal_strlit("ッサ");
        assert("ッサ"@ =~= seq!['ッ', 'サ']);
        reveal_strlit("sse");
        assert("sse"@ =~= seq!['s', 's', 'e']);
        reveal_strlit("っせ");
        assert("っせ"@ =~= seq!['っ', 'せ']);
        reveal_strlit("ッセ");
        assert("ッセ"@ =~= seq!['ッ', 'セ']);
    }
    assert(rows_view(r@) =~= kana_rows_spec_7());
    r
}

pub open spec fn kana_rows_spec_8() -> Seq<(Seq<char>, Seq<char>, Seq<char>)> {
    seq![
        (seq!['s', 's', 'h', 'a'], seq!['っ', 'し', 'ゃ'], seq!['ッ', 'シ', 'ャ']),
        (seq!['s', 's', 'h', 'i'], seq!['っ', 'し'], seq!['ッ', 'シ']),
        (seq!['s', 's', 'h', 'o'], seq!['っ', 'し', 'ょ'], seq!['ッ', 'シ', 'ョ']),
        (seq!['s', 's', 'h', 'u'], seq!['っ', 'し', 'ゅ'], seq!['ッ', 'シ', 'ュ']),
        (seq!['s', 's', 'o'], seq!['っ', 'そ'], seq!['ッ', 'ソ']),
        (seq!['s', 's', 'u'], seq!['っ', 'す'], seq!['ッ', 'ス']),
        (seq!['s', 'u'], seq!['す'], seq!['ス']),
        (seq!['t', 'a'], seq!['た'], seq!['タ']),
        (seq!['t', 'e'], seq!['て'], seq!['テ']),
        (seq!['t', 'i'], seq!['て', 'ぃ'], seq!['テ', 'ィ']),
        (seq!['t', 'o'], seq!['と'], seq!['ト']),
        (seq!['t', 's', 'u'], seq!['つ'], seq!['ツ']),
        (seq!['t', 't', 'a'], seq!['っ', 'た'], seq!['ッ', 'タ']),
        (seq!['t', 't', 'e'], seq!['っ', 'て'], seq!['ッ', 'テ']),
        (seq!['t', 't', 'o'], seq!['っ', 'と'], seq!['ッ', 'ト']),
    ]
}

fn kana_rows_8() -> (r: Vec<(&'static str, &'static str, &'static str)>)
    ensures
        rows_view(r@) == kana_rows_spec_8(),
{
    let r = vec![
        ("ssha", "っしゃ", "ッシャ"),
        ("sshi", "っし", "ッシ"),
        ("ssho", "っしょ", "ッショ"),
        ("sshu", "っしゅ", "ッシュ"),
        ("sso", "っそ", "ッソ"),
        ("ssu", "っす", "ッス"),
        ("su", "す", "ス"),
        ("ta", "た", "タ"),
        ("te", "て", "テ"),
        ("ti", "てぃ", "ティ"),
        ("to", "と", "ト"),
        ("tsu", "つ", "ツ"),
        ("tta", "った", "ッタ"),
        ("tte", "って", "ッテ"),
        ("tto", "っと", "ット"),
    ];
    proof {
        reveal_strlit("ssha");
        assert("ssha"@ =~= seq!['s', 's', 'h', 'a']);
        reveal_strlit("っしゃ");
        assert("っしゃ"@ =~= seq!['っ', 'し', 'ゃ']);
        reveal_strlit("ッシャ");
        assert("ッシャ"@ =~= seq!['ッ', 'シ', 'ャ']);
        reveal_strlit("sshi");
        assert("sshi"@ =~= seq!['s', 's', 'h', 'i']);
        reveal_strlit("っし");
        assert("っし"@ =~= seq!['っ', 'し']);
        reveal_strlit("ッシ");
        assert("ッシ"@ =~= seq!['ッ', 'シ']);
        reveal_strlit("ssho");
        assert("ssho"@ =~= seq!['s', 's', 'h', 'o']);
        reveal_strlit("っしょ");
        assert("っしょ"@ =~= seq!['っ', 'し', 'ょ']);
        reveal_strlit("ッショ");
        assert("ッショ"@ =~= seq!['ッ', 'シ', 'ョ']);
        reveal_strlit("sshu");
        assert("sshu"@ =~= seq!['s', 's', 'h', 'u']);
        reveal_strlit("っしゅ");
        assert("っしゅ"@ =~= seq!['っ', 'し', 'ゅ']);
        reveal_strlit("ッシュ");
        assert("ッシュ"@ =~= seq!['ッ', 'シ', 'ュ']);
        reveal_strlit("sso");
        assert("sso"@ =~= seq!['s', 's', 'o']);
        reveal_strlit("っそ");
        assert("っそ"@ =~= seq!['っ', 'そ']);
        reveal_strlit("ッソ");
        assert("ッソ"@ =~= seq!['ッ', 'ソ']);
        reveal_strlit("ssu");
        assert("ssu"@ =~= seq!['s', 's', 'u']);
        reveal_strlit("っす");
        assert("っす"@ =~= seq!['っ', 'す']);
        reveal_strlit("ッス");
        assert("ッス"@ =~= seq!['ッ', 'ス']);
        reveal_strlit("su");
        assert("su"@ =~= seq!['s', 'u']);
        reveal_strlit("す");
        assert("す"@ =~= seq!['す']);
        reveal_strlit("ス");
        assert("ス"@ =~= seq!['ス']);
        reveal_strlit("ta");
        assert("ta"@ =~= seq!['t', 'a']);
        reveal_strlit("た");
        assert("た"@ =~= seq!['た']);
        reveal_strlit("タ");
        assert("タ"@ =~= seq!['タ']);
        reveal_strlit("te");
        assert("te"@ =~= seq!['t', 'e']);
        reveal_strlit("て");
        assert("て"@ =~= seq!['て']);
        reveal_strlit("テ");
        assert("テ"@ =~= seq!['テ']);
        reveal_strlit("ti");
        assert("ti"@ =~= seq!['t', 'i']);
        reveal_strlit("てぃ");
        assert("てぃ"@ =~= seq!['て', 'ぃ']);
        reveal_strlit("ティ");
        assert("ティ"@ =~= seq!['テ', 'ィ']);
        reveal_strlit("to");
        assert("to"@ =~= seq!['t', 'o']);
        reveal_strlit("と");
        assert("と"@ =~= seq!['と']);
        reveal_strlit("ト");
        assert("ト"@ =~= seq!['ト']);
        reveal_strlit("tsu");
        assert("tsu"@ =~= seq!['t', 's', 'u']);
        reveal_strlit("つ");
        assert("つ"@ =~= seq!['つ']);
        reveal_strlit("ツ");
        assert("ツ"@ =~= seq!['ツ']);
        reveal_strlit("tta");
        assert("tta"@ =~= seq!['t', 't', 'a']);
        reveal_strlit("った");
        assert("った"@ =~= seq!['っ', 'た']);
        reveal_strlit("ッタ");
        assert("ッタ"@ =~= seq!['ッ', 'タ']);
        reveal_strlit("tte");
        assert("tte"@ =~= seq!['t', 't', 'e']);
        reveal_strlit("って");
        assert("って"@ =~= seq!['っ', 'て']);
        reveal_strlit("ッテ");
        assert("ッテ"@ =~= seq!['ッ', 'テ']);
        reveal_strlit("tto");
        assert("tto"@ =~= seq!['t', 't', 'o']);
        reveal_strlit("っと");
        assert("っと"@ =~= seq!['っ', 'と']);
        reveal_strlit("ット");
        assert("ット"@ =~= seq!['ッ', 'ト']);
    }
    assert(rows_view(r@) =~= kana_rows_spec_8());
    r
}

pub open spec fn kana_rows_spec_9() -> Seq<(Seq<char>, Seq<char>, Seq<char>)> {
    seq![
        (seq!['t', 't', 's', 'u'], seq!['っ', 'つ'], seq!['ッ', 'ツ']),
        (seq!['t', 'u'], seq!['つ'], seq!['ツ']),
        (seq!['u'], seq!['う'], seq!['ウ']),
        (seq!['w', 'a'], seq!['わ'], seq!['ワ']),
        (seq!['w', 'o'], seq!['を'], seq!['ヲ']),
        (seq!['y', 'a'], seq!['や'], seq!['ヤ']),
        (seq!['y', 'o'], seq!['よ'], seq!['ヨ']),
        (seq!['y', 'u'], seq!['ゆ'], seq!['ユ']),
        (seq!['z', 'a'], seq!['ざ'], seq!['ザ']),
        (seq!['z', 'e'], seq!['ぜ'], seq!['ゼ']),
        (seq!['z', 'o'], seq!['ぞ'], seq!['ゾ']),
        (seq!['z', 'u'], seq!['ず'], seq!['ズ']),
    ]
}

fn kana_rows_9() -> (r: Vec<(&'static str, &'static str, &'static str)>)
    ensures
        rows_view(r@) == kana_rows_spec_9(),
{
    let r = vec![
        ("ttsu", "っつ", "ッツ"),
        ("tu", "つ", "ツ"),
        ("u", "う", "ウ"),
        ("wa", "わ", "ワ"),
        ("wo", "を", "ヲ"),
        ("ya", "や", "ヤ"),
        ("yo", "よ", "ヨ"),
        ("yu", "ゆ", "ユ"),
        ("za", "ざ", "ザ"),
        ("ze", "ぜ", "ゼ"),
        ("zo", "ぞ", "ゾ"),
        ("zu", "ず", "ズ"),
    ];
    proof {
        reveal_strlit("ttsu");
        assert("ttsu"@ =~= seq!['t', 't', 's', 'u']);
        reveal_strlit("っつ");
        assert("っつ"@ =~= seq!['っ', 'つ']);
        reveal_strlit("ッツ");
        assert("ッツ"@ =~= seq!['ッ', 'ツ']);
        reveal_strlit("tu");
        assert("tu"@ =~= seq!['t', 'u']);
        reveal_strlit("つ");
        assert("つ"@ =~= seq!['つ']);
        reveal_strlit("ツ");
        assert("ツ"@ =~= seq!['ツ']);
        reveal_strlit("u");
        assert("u"@ =~= seq!['u']);
        reveal_strlit("う");
        assert("う"@ =~= seq!['う']);
        reveal_strlit("ウ");
        assert("ウ"@ =~= seq!['ウ']);
        reveal_strlit("wa");
        assert("wa"@ =~= seq!['w', 'a']);
        reveal_strlit("わ");
        assert("わ"@ =~= seq!['わ']);
        reveal_strlit("ワ");
        assert("ワ"@ =~= seq!['ワ']);
        reveal_strlit("wo");
        assert("wo"@ =~= seq!['w', 'o']);
        reveal_strlit("を");
        assert("を"@ =~= seq!['を']);
        reveal_strlit("ヲ");
        assert("ヲ"@ =~= seq!['ヲ']);
        reveal_strlit("ya");
        assert("ya"@ =~= seq!['y', 'a']);
        reveal_strlit("や");
        assert("や"@ =~= seq!['や']);
        reveal_strlit("ヤ");
        assert("ヤ"@ =~= seq!['ヤ']);
        reveal_strlit("yo");
        assert("yo"@ =~= seq!['y', 'o']);
        reveal_strlit("よ");
        assert("よ"@ =~= seq!['よ']);
        reveal_strlit("ヨ");
        assert("ヨ"@ =~= seq!['ヨ']);
        reveal_strlit("yu");
        assert("yu"@ =~= seq!['y', 'u']);
        reveal_strlit("ゆ");
        assert("ゆ"@ =~= seq!['ゆ']);
        reveal_strlit("ユ");
        assert("ユ"@ =~= seq!['ユ']);
        reveal_strlit("za");
        assert("za"@ =~= seq!['z', 'a']);
        reveal_strlit("ざ");
        assert("ざ"@ =~= seq!['ざ']);
        reveal_strlit("ザ");
        assert("ザ"@ =~= seq!['ザ']);
        reveal_strlit("ze");
        assert("ze"@ =~= seq!['z', 'e']);
        reveal_strlit("ぜ");
        assert("ぜ"@ =~= seq!['ぜ']);
        reveal_strlit("ゼ");
        assert("ゼ"@ =~= seq!['ゼ']);
        reveal_strlit("zo");
        assert("zo"@ =~= seq!['z', 'o']);
        reveal_strlit("ぞ");
        assert("ぞ"@ =~= seq!['ぞ']);
        reveal_strlit("ゾ");
        assert("ゾ"@ =~= seq!['ゾ']);
        reveal_strlit("zu");
        assert("zu"@ =~= seq!['z', 'u']);
        reveal_strlit("ず");
        assert("ず"@ =~= seq!['ず']);
        reveal_strlit("ズ");
        assert("ズ"@ =~= seq!['ズ']);
    }
    assert(rows_view(r@) =~= kana_rows_spec_9());
    r
}

/// Romaji atoms with their hiragana and katakana.
fn kana_rows() -> (r: Vec<(&'static str, &'static str, &'static str)>)
    ensures
        rows_view(r@) == kana_rows_spec(),
{
    let mut r = kana_rows_0();
    let ghost before = r@;
    let mut c = kana_rows_1();
    let ghost added = c@;
    r.append(&mut c);
    assert(rows_view(r@) =~= rows_view(before) + rows_view(added));
    assert(rows_view(r@) == kana_rows_spec_0() + kana_rows_spec_1());
    let ghost before = r@;
    let mut c = kana_rows_2();
    let ghost added = c@;
    r.append(&mut c);
    assert(rows_view(r@) =~= rows_view(before) + rows_view(added));
    assert(rows_view(r@) == kana_rows_spec_0() + kana_rows_spec_1() + kana_rows_spec_2());
    let ghost before = r@;
    let mut c = kana_rows_3();
    let ghost added = c@;
    r.append(&mut c);
    assert(rows_view(r@) =~= rows_view(before) + rows_view(added));
    assert(rows_view(r@) == kana_rows_spec_0() + kana_rows_spec_1() + kana_rows_spec_2() + kana_rows_spec_3());
    let ghost before = r@;
    let mut c = kana_rows_4();
    let ghost added = c@;
    r.append(&mut c);
    assert(rows_view(r@) =~= rows_view(before) + rows_view(added));
    assert(rows_view(r@) == kana_rows_spec_0() + kana_rows_spec_1() + kana_rows_spec_2() + kana_rows_spec_3() + kana_rows_spec_4());
    let ghost before = r@;
    let mut c = kana_rows_5();
    let ghost added = c@;
    r.append(&mut c);
    assert(rows_view(r@) =~= rows_view(before) + rows_view(added));
    assert(rows_view(r@) == kana_rows_spec_0() + kana_rows_spec_1() + kana_rows_spec_2() + kana_rows_spec_3() + kana_rows_spec_4() + kana_rows_spec_5());
    let ghost before = r@;
    let mut c = kana_rows_6();
    let ghost added = c@;
    r.append(&mut c);
    assert(rows_view(r@) =~= rows_view(before) + rows_view(added));
    assert(rows_view(r@) == kana_rows_spec_0() + kana_rows_spec_1() + kana_rows_spec_2() + kana_rows_spec_3() + kana_rows_spec_4() + kana_rows_spec_5() + kana_rows_spec_6());
    let ghost before = r@;
    let mut c = kana_rows_7();
    let ghost added = c@;
    r.append(&mut c);
    assert(rows_view(r@) =~= rows_view(before) + rows_view(added));
    assert(rows_view(r@) == kana_rows_spec_0() + kana_rows_spec_1() + kana_rows_spec_2() + kana_rows_spec_3() + kana_rows_spec_4() + kana_rows_spec_5() + kana_rows_spec_6() + kana_rows_spec_7());
    let ghost before = r@;
    let mut c = kana_rows_8();
    let ghost added = c@;
    r.append(&mut c);
    assert(rows_view(r@) =~= rows_view(before) + rows_view(added));
    assert(rows_view(r@) == kana_rows_spec_0() + kana_rows_spec_1() + kana_rows_spec_2() + kana_rows_spec_3() + kana_rows_spec_4() + kana_rows_spec_5() + kana_rows_spec_6() + kana_rows_spec_7() + kana_rows_spec_8());
    let ghost before = r@;
    let mut c = kana_rows_9();
    let ghost added = c@;
    r.append(&mut c);
    assert(rows_view(r@) =~= rows_view(before) + rows_view(added));
    assert(rows_view(r@) == kana_rows_spec_0() + kana_rows_spec_1() + kana_rows_spec_2() + kana_rows_spec_3() + kana_rows_spec_4() + kana_rows_spec_5() + kana_rows_spec_6() + kana_rows_spec_7() + kana_rows_spec_8() + kana_rows_spec_9());
    r
}


/// An atom of one to four ASCII characters.
pub open spec fn atom_ok(a: Seq<char>) -> bool {
    1 <= a.len() <= 4 && forall|i: int| 0 <= i < a.len() ==> (#[trigger] a[i] as u32) < 128
}

/// Every row's atom is one to four ASCII characters.
pub open spec fn atoms_ok(rows: Seq<(Seq<char>, Seq<char>, Seq<char>)>) -> bool
    decreases rows.len(),
{
    rows.len() == 0 || (atoms_ok(rows.drop_last()) && atom_ok(rows.last().0))
}

proof fn lemma_atoms_ok_0()
    ensures
        atoms_ok(kana_rows_spec_0()),
{
    reveal_with_fuel(atoms_ok, 16);
}

proof fn lemma_atoms_ok_1()
    ensures
        atoms_ok(kana_rows_spec_1()),
{
    reveal_with_fuel(atoms_ok, 16);
}

proof fn lemma_atoms_ok_2()
    ensures
        atoms_ok(kana_rows_spec_2()),
{
    reveal_with_fuel(atoms_ok, 16);
}

proof fn lemma_atoms_ok_3()
    ensures
        atoms_ok(kana_rows_spec_3()),
{
    reveal_with_fuel(atoms_ok, 16);
}

proof fn lemma_atoms_ok_4()
    ensures
        atoms_ok(kana_rows_spec_4()),
{
    reveal_with_fuel(atoms_ok, 16);
}

proof fn lemma_atoms_ok_5()
    ensures
        atoms_ok(kana_rows_spec_5()),
{
    reveal_with_fuel(atoms_ok, 16);
}

proof fn lemma_atoms_ok_6()
    ensures
        atoms_ok(kana_rows_spec_6()),
{
    reveal_with_fuel(atoms_ok, 16);
}

proof fn lemma_atoms_ok_7()
    ensures
        atoms_ok(kana_rows_spec_7()),
{
    reveal_with_fuel(atoms_ok, 16);
}

proof fn lemma_atoms_ok_8()
    ensures
        atoms_ok(kana_rows_spec_8()),
{
    reveal_with_fuel(atoms_ok, 16);
}

proof fn lemma_atoms_ok_9()
    ensures
        atoms_ok(kana_rows_spec_9()),
{
    reveal_with_fuel(atoms_ok, 16);
}

proof fn lemma_atoms_ok_concat(a: Seq<(Seq<char>, Seq<char>, Seq<char>)>, b: Seq<(Seq<char>, Seq<char>, Seq<char>)>)
    requires
        atoms_ok(a),
        atoms_ok(b),
    ensures
        atoms_ok(a + b),
    decreases b.len(),
{
    if b.len() == 0 {
        assert(a + b =~= a);
    } else {
        lemma_atoms_ok_concat(a, b.drop_last());
        assert((a + b).drop_last() =~= a + b.drop_last());
        assert((a + b).last() == b.last());
    }
}

proof fn lemma_atoms_ok_index(rows: Seq<(Seq<char>, Seq<char>, Seq<char>)>)
    requires
        atoms_ok(rows),
    ensures
        forall|i: int| 0 <= i < rows.len() ==> atom_ok(#[trigger] rows[i].0),
    decreases rows.len(),
{
    if rows.len() > 0 {
        lemma_atoms_ok_index(rows.drop_last());
        assert forall|i: int| 0 <= i < rows.len() implies atom_ok(#[trigger] rows[i].0) by {
            if i < rows.len() - 1 {
                assert(rows[i] == rows.drop_last()[i]);
            }
        }
    }
}

/// The two tables have the same atoms, row by row, and every atom is one to four
/// ASCII characters, so an atom's length in characters is its length in bytes.
pub proof fn lemma_kana_tables()
    ensures
        hiragana_spec().len() == katakana_spec().len(),
        forall|i: int|
            0 <= i < hiragana_spec().len() ==> atom_ok(#[trigger] hiragana_spec()[i].0)
                && hiragana_spec()[i].0 == katakana_spec()[i].0,
{
    lemma_atoms_ok_0();
    lemma_atoms_ok_1();
    lemma_atoms_ok_2();
    lemma_atoms_ok_3();
    lemma_atoms_ok_4();
    lemma_atoms_ok_5();
    lemma_atoms_ok_6();
    lemma_atoms_ok_7();
    lemma_atoms_ok_8();
    lemma_atoms_ok_9();
    lemma_atoms_ok_concat(kana_rows_spec_0(), kana_rows_spec_1());
    lemma_atoms_ok_concat(kana_rows_spec_0() + kana_rows_spec_1(), kana_rows_spec_2());
    lemma_atoms_ok_concat(kana_rows_spec_0() + kana_rows_spec_1() + kana_rows_spec_2(), kana_rows_spec_3());
    lemma_atoms_ok_concat(kana_rows_spec_0() + kana_rows_spec_1() + kana_rows_spec_2() + kana_rows_spec_3(), kana_rows_spec_4());
    lemma_atoms_ok_concat(kana_rows_spec_0() + kana_rows_spec_1() + kana_rows_spec_2() + kana_rows_spec_3() + kana_rows_spec_4(), kana_rows_spec_5());
    lemma_atoms_ok_concat(kana_rows_spec_0() + kana_rows_spec_1() + kana_rows_spec_2() + kana_rows_spec_3() + kana_rows_spec_4() + kana_rows_spec_5(), kana_rows_spec_6());
    lemma_atoms_ok_concat(kana_rows_spec_0() + kana_rows_spec_1() + kana_rows_spec_2() + kana_rows_spec_3() + kana_rows_spec_4() + kana_rows_spec_5() + kana_rows_spec_6(), kana_rows_spec_7());
    lemma_atoms_ok_concat(kana_rows_spec_0() + kana_rows_spec_1() + kana_rows_spec_2() + kana_rows_spec_3() + kana_rows_spec_4() + kana_rows_spec_5() + kana_rows_spec_6() + kana_rows_spec_7(), kana_rows_spec_8());
    lemma_atoms_ok_concat(kana_rows_spec_0() + kana_rows_spec_1() + kana_rows_spec_2() + kana_rows_spec_3() + kana_rows_spec_4() + kana_rows_spec_5() + kana_rows_spec_6() + kana_rows_spec_7() + kana_rows_spec_8(), kana_rows_spec_9());
    lemma_atoms_ok_index(kana_rows_spec());
    assert forall|i: int| 0 <= i < hiragana_spec().len() implies atom_ok(#[trigger] hiragana_spec()[i].0)
        && hiragana_spec()[i].0 == katakana_spec()[i].0 by {
        assert(hiragana_spec()[i].0 == kana_rows_spec()[i].0);
    }
}

} // verus!
