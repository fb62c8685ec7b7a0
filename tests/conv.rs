use simplekanainput::conv::{romaji_to_kana, to_japanese, with_input_span_converted_form, Intp, IntpMap, RomajiParser};
use simplekanainput::dict::{ConjugationRoot, DictEntry, WordClass};
use simplekanainput::kana::RomajiKanaTable;
use simplekanainput::kanji::{Kanji, KanjiDb};
use simplekanainput::segment::segment;

fn empty_db() -> KanjiDb {
    KanjiDb { kanji: Vec::new() }
}

#[test]
fn test_find_largest_match() {
    let hiragana = RomajiKanaTable::hiragana();
    let mut parser = RomajiParser::new("...nani?");
    assert_eq!(parser.next_largest_match(&hiragana).as_deref(), Some("…"));
    assert_eq!(parser.next_largest_match(&hiragana).as_deref(), Some("な"));
    assert_eq!(parser.next_largest_match(&hiragana).as_deref(), Some("に"));
    assert_eq!(parser.next_largest_match(&hiragana).as_deref(), Some("？"));
    assert_eq!(parser.next_largest_match(&hiragana).as_deref(), None);
    parser = RomajiParser::new("sonna...");
    assert_eq!(parser.next_largest_match(&hiragana).as_deref(), Some("そ"));
    assert_eq!(parser.next_largest_match(&hiragana).as_deref(), Some("ん"));
    assert_eq!(parser.next_largest_match(&hiragana).as_deref(), Some("な"));
    assert_eq!(parser.next_largest_match(&hiragana).as_deref(), Some("…"));
    assert_eq!(parser.next_largest_match(&hiragana).as_deref(), None);
    parser = RomajiParser::new("konnichiha...");
    assert_eq!(parser.next_largest_match(&hiragana).as_deref(), Some("こ"));
    assert_eq!(parser.next_largest_match(&hiragana).as_deref(), Some("ん"));
    assert_eq!(parser.next_largest_match(&hiragana).as_deref(), Some("に"));
    assert_eq!(parser.next_largest_match(&hiragana).as_deref(), Some("ち"));
    assert_eq!(parser.next_largest_match(&hiragana).as_deref(), Some("は"));
    assert_eq!(parser.next_largest_match(&hiragana).as_deref(), Some("…"));
    assert_eq!(parser.next_largest_match(&hiragana).as_deref(), None);
}

#[test]
fn test_decompose() {
    assert_eq!(romaji_to_kana("sugoi", &RomajiKanaTable::hiragana()), "すごい");
}

#[test]
fn transliteration_is_pure_and_empty_gives_empty() {
    let h = RomajiKanaTable::hiragana();
    assert_eq!(romaji_to_kana("", &h), "");
    assert_eq!(romaji_to_kana("", &RomajiKanaTable::katakana()), "");
    assert_eq!(romaji_to_kana("kyouha", &h), romaji_to_kana("kyouha", &h));
}

#[test]
fn keys_in_a_row_give_their_kana() {
    let h = RomajiKanaTable::hiragana();
    let k = RomajiKanaTable::katakana();
    let keys = ["sshi", "ka", "n", "..."];
    let joined: String = keys.concat();
    let expected_h: String = keys.iter().map(|key| h.lookup(key).unwrap()).collect();
    assert_eq!(romaji_to_kana(&joined, &h), expected_h);
    assert_eq!(expected_h, "っしかん…");
    let expected_k: String = keys.iter().map(|key| k.lookup(key).unwrap()).collect();
    assert_eq!(romaji_to_kana(&joined, &k), expected_k);
}

#[test]
fn katakana_and_unknown_characters() {
    let k = RomajiKanaTable::katakana();
    assert_eq!(romaji_to_kana("supe-su", &k), "スペース");
    let h = RomajiKanaTable::hiragana();
    assert_eq!(romaji_to_kana("a空b", &h), "あ空b");
    assert_eq!(romaji_to_kana("x", &h), "x");
    assert_eq!(h.lookup("zz"), None);
    assert_eq!(h.lookup("n"), Some("ん"));
}

fn taberu_entry() -> DictEntry {
    DictEntry {
        kanji_elements: vec!["食べる".to_string()],
        reading_elements: vec!["たべる".to_string()],
        senses: Vec::new(),
    }
}

fn ichidan_nai() -> ConjugationRoot {
    ConjugationRoot {
        class: WordClass::Ichidan,
        steps: vec!["negative".to_string()],
        dict_form: "たべる".to_string(),
        conjugation_suffix: "ない".to_string(),
    }
}

#[test]
fn conjugated_dictionary_form_is_rendered() {
    let text = "tabenai";
    let spans = segment(text);
    let mut intp = IntpMap::new();
    intp.insert(
        0,
        Intp::Dictionary { cached_sug_idx: 0, en: taberu_entry(), kanji_idx: 0, root: Some(ichidan_nai()) },
    );
    let h = RomajiKanaTable::hiragana();
    let k = RomajiKanaTable::katakana();
    assert_eq!(to_japanese(text, &spans, &intp, &empty_db(), &h, &k), "食べない");
}

#[test]
fn suru_and_adjectival_noun_strip_counts() {
    let text = "x";
    let spans = segment(text);
    let h = RomajiKanaTable::hiragana();
    let k = RomajiKanaTable::katakana();
    let entry = |glyph: &str| DictEntry {
        kanji_elements: vec![glyph.to_string()],
        reading_elements: Vec::new(),
        senses: Vec::new(),
    };
    let root = |class: WordClass, suffix: &str| ConjugationRoot {
        class,
        steps: Vec::new(),
        dict_form: String::new(),
        conjugation_suffix: suffix.to_string(),
    };
    let mut intp = IntpMap::new();
    intp.insert(0, Intp::Dictionary { cached_sug_idx: 0, en: entry("勉強する"), kanji_idx: 0, root: Some(root(WordClass::Suru, "した")) });
    assert_eq!(to_japanese(text, &spans, &intp, &empty_db(), &h, &k), "勉強した");
    intp.insert(0, Intp::Dictionary { cached_sug_idx: 0, en: entry("静か"), kanji_idx: 0, root: Some(root(WordClass::NaAdjective, "な")) });
    assert_eq!(to_japanese(text, &spans, &intp, &empty_db(), &h, &k), "静かな");
    intp.insert(0, Intp::Dictionary { cached_sug_idx: 0, en: entry("高い"), kanji_idx: 0, root: Some(root(WordClass::IAdjective, "くない")) });
    assert_eq!(to_japanese(text, &spans, &intp, &empty_db(), &h, &k), "高くない");
    intp.insert(0, Intp::Dictionary { cached_sug_idx: 0, en: entry("高い"), kanji_idx: 0, root: None });
    assert_eq!(to_japanese(text, &spans, &intp, &empty_db(), &h, &k), "高い");
}

#[test]
fn every_interpretation_renders() {
    let text = "kore ha {ok} neko desu.";
    let spans = segment(text);
    let h = RomajiKanaTable::hiragana();
    let k = RomajiKanaTable::katakana();
    let db = KanjiDb {
        kanji: vec![Kanji {
            chars: ["猫".to_string(), "貓".to_string(), String::new()],
            meaning: "cat".to_string(),
            readings: vec!["ねこ".to_string()],
        }],
    };
    let mut intp = IntpMap::new();
    assert_eq!(to_japanese(text, &spans, &intp, &db, &h, &k), "これはokねこです。");
    intp.insert(0, Intp::Katakana);
    intp.insert(1, Intp::Verbatim);
    intp.insert(2, Intp::Radical('禾'));
    intp.insert(3, Intp::Kanji { db_idx: 0 });
    assert_eq!(to_japanese(text, &spans, &intp, &db, &h, &k), "コレhaok猫です。");
    intp.insert(4, Intp::Hiragana);
    assert_eq!(with_input_span_converted_form(&spans[4], 4, text, &intp, &db, &h, &k), "です");
    assert_eq!(with_input_span_converted_form(&spans[2], 2, text, &intp, &db, &h, &k), "ok");
}

#[test]
fn table_contents() {
    let h = RomajiKanaTable::hiragana();
    let k = RomajiKanaTable::katakana();
    assert_eq!(romaji_to_kana("hon", &h), "ほん");
    assert_eq!(romaji_to_kana("n", &k), "ン");
    assert_eq!(romaji_to_kana("a空i", &h), "あ空い");
    assert_eq!(h.lookup("sshi"), Some("っし"));
    assert_eq!(k.lookup("sshi"), Some("ッシ"));
    assert_eq!(h.lookup("x"), None);
    assert_eq!(h.table.len(), k.table.len());
    for (a, b) in h.table.iter().zip(k.table.iter()) {
        assert_eq!(a.romaji, b.romaji);
        assert!((1..=4).contains(&a.romaji.len()));
        assert!(a.romaji.iter().all(|c| c.is_ascii()));
    }
}

#[test]
fn stale_overlay_keys_are_tolerated() {
    let text = "neko {x}";
    let spans = segment(text);
    let h = RomajiKanaTable::hiragana();
    let k = RomajiKanaTable::katakana();
    let mut intp = IntpMap::new();
    // Neither key is used: span 1 is other text and span 7 does not exist.
    intp.insert(1, Intp::Kanji { db_idx: 99 });
    intp.insert(7, Intp::Kanji { db_idx: 99 });
    assert_eq!(to_japanese(text, &spans, &intp, &empty_db(), &h, &k), "ねこx");
}
