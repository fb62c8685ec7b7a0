use simplekanainput::dict::{
    kana_readings, suggest_for_kana, CachedSuggestions, ConjugationRoot, DictEntry, PartOfSpeech, Sense,
    WordClass,
};
use simplekanainput::kana::RomajiKanaTable;
use simplekanainput::query::KanjiQuery;
use simplekanainput::segment::segment;

fn entry(kanji: &[&str], readings: &[&str], pos: &[PartOfSpeech]) -> DictEntry {
    DictEntry {
        kanji_elements: kanji.iter().map(|s| s.to_string()).collect(),
        reading_elements: readings.iter().map(|s| s.to_string()).collect(),
        senses: vec![Sense { glosses: vec!["gloss".to_string()], parts_of_speech: pos.to_vec() }],
    }
}

fn root(class: WordClass, dict_form: &str, suffix: &str) -> ConjugationRoot {
    ConjugationRoot {
        class,
        steps: vec!["negative".to_string()],
        dict_form: dict_form.to_string(),
        conjugation_suffix: suffix.to_string(),
    }
}

#[test]
fn test_kanji_query_from_str() {
    assert_eq!(
        KanjiQuery::from_str("べる(3)"),
        KanjiQuery { contains: "べる".to_string(), starts_with: None, n_chars: Some(3) }
    );
    assert_eq!(
        KanjiQuery::from_str("^変化(2)"),
        KanjiQuery { contains: "化".to_string(), starts_with: Some('変'), n_chars: Some(2) }
    );
}

#[test]
fn kanji_query_edge_cases() {
    assert_eq!(
        KanjiQuery::from_str("^"),
        KanjiQuery { contains: "^".to_string(), starts_with: None, n_chars: None }
    );
    assert_eq!(
        KanjiQuery::from_str("食(x)"),
        KanjiQuery { contains: "食".to_string(), starts_with: None, n_chars: None }
    );
    assert_eq!(
        KanjiQuery::from_str("食(300)"),
        KanjiQuery { contains: "食".to_string(), starts_with: None, n_chars: None }
    );
    assert_eq!(
        KanjiQuery::from_str("食(+4"),
        KanjiQuery { contains: "食(+4".to_string(), starts_with: None, n_chars: None }
    );
    assert_eq!(KanjiQuery::from_str("食(+4)").n_chars, Some(4));
    let q = KanjiQuery::from_str("^変化(2)");
    assert!(q.matches("変化"));
    assert!(!q.matches("化学"));
    assert!(!q.matches("変化球"));
}

#[test]
fn suggestion_through_a_conjugation_root() {
    let corpus = vec![
        entry(&["食べる"], &["たべる"], &[PartOfSpeech::Inflecting(WordClass::Ichidan)]),
        entry(&["他"], &["ほか"], &[PartOfSpeech::Uninflecting]),
    ];
    let roots = vec![root(WordClass::Ichidan, "たべる", "ない")];
    let h = RomajiKanaTable::hiragana();
    let k = RomajiKanaTable::katakana();
    let (hira, kata) = kana_readings("tabenai", &h, &k);
    assert_eq!(hira, "たべない");
    assert_eq!(kata, "タベナイ");
    let sugs = suggest_for_kana(&hira, &kata, &roots, &corpus, false);
    assert_eq!(sugs.len(), 1);
    assert_eq!(sugs[0].entry, 0);
    assert_eq!(sugs[0].mugo_root, Some(0));

    let text = "tabenai";
    let spans = segment(text);
    let mut cache = CachedSuggestions::new();
    cache.repopulate(text, &spans, 0, &h, &k, &roots, &corpus, false);
    assert_eq!(cache.jmdict.len(), 1);
    assert_eq!(cache.jmdict[0].entry, 0);
    assert_eq!(cache.jmdict[0].mugo_root, Some(0));
    cache.clear();
    assert!(cache.jmdict.is_empty());
}

#[test]
fn suggestion_order_and_priorities() {
    let corpus = vec![
        entry(&[], &["パン"], &[PartOfSpeech::Uninflecting]),
        entry(&["食べる"], &["たべる"], &[PartOfSpeech::Inflecting(WordClass::GodanRu)]),
        entry(&["麺"], &["ぱん"], &[PartOfSpeech::Uninflecting]),
    ];
    let roots = vec![root(WordClass::Ichidan, "たべる", "ない")];
    let sugs = suggest_for_kana("ぱん", "パン", &roots, &corpus, false);
    let got: Vec<_> = sugs.iter().map(|s| (s.entry, s.mugo_root)).collect();
    assert_eq!(got, vec![(0, None), (2, None)]);
    let sugs = suggest_for_kana("ぱん", "パン", &roots, &corpus, true);
    let got: Vec<_> = sugs.iter().map(|s| (s.entry, s.mugo_root)).collect();
    assert_eq!(got, vec![(2, None)]);
    let sugs = suggest_for_kana("たべない", "タベナイ", &roots, &corpus, false);
    assert!(sugs.is_empty());
    assert!(suggest_for_kana("たべない", "タベナイ", &Vec::new(), &Vec::new(), false).is_empty());
}

#[test]
fn repopulate_skips_non_word_spans() {
    let corpus = vec![entry(&["点"], &["。"], &[])];
    let h = RomajiKanaTable::hiragana();
    let k = RomajiKanaTable::katakana();
    let text = "ka.";
    let spans = segment(text);
    let mut cache = CachedSuggestions::new();
    cache.repopulate(text, &spans, 1, &h, &k, &Vec::new(), &corpus, false);
    assert!(cache.jmdict.is_empty());
    cache.repopulate(text, &spans, 9, &h, &k, &Vec::new(), &corpus, false);
    assert!(cache.jmdict.is_empty());
}

#[test]
fn readings_are_trimmed() {
    let h = RomajiKanaTable::hiragana();
    let k = RomajiKanaTable::katakana();
    let (hira, kata) = kana_readings(" ka ", &h, &k);
    assert_eq!(hira, "か");
    assert_eq!(kata, "カ");
}

#[test]
fn cache_is_reused_until_selection_or_text_changes() {
    let corpus = vec![
        entry(&["蚊"], &["か"], &[PartOfSpeech::Uninflecting]),
        entry(&["木"], &["き"], &[PartOfSpeech::Uninflecting]),
    ];
    let h = RomajiKanaTable::hiragana();
    let k = RomajiKanaTable::katakana();
    let roots = Vec::new();
    let mut cache = CachedSuggestions::new();
    let text = "ka ki";
    let spans = segment(text);
    assert!(cache.refresh(text, &spans, 0, &h, &k, &roots, &corpus, false));
    assert_eq!(cache.jmdict.len(), 1);
    assert_eq!(cache.jmdict[0].entry, 0);
    assert!(!cache.refresh(text, &spans, 0, &h, &k, &roots, &corpus, false));
    assert_eq!(cache.jmdict[0].entry, 0);
    assert!(cache.refresh(text, &spans, 1, &h, &k, &roots, &corpus, false));
    assert_eq!(cache.jmdict[0].entry, 1);
    let text2 = "ka ka";
    let spans2 = segment(text2);
    assert!(cache.refresh(text2, &spans2, 1, &h, &k, &roots, &corpus, false));
    assert_eq!(cache.jmdict[0].entry, 0);
    assert_eq!(cache.key, Some((1, "ka".to_string())));
}

#[test]
fn readings_trim_unicode_white_space() {
    let h = RomajiKanaTable::hiragana();
    let k = RomajiKanaTable::katakana();
    let (hira, kata) = kana_readings("\u{3000}ka\u{a0}", &h, &k);
    assert_eq!(hira, "か");
    assert_eq!(kata, "カ");
}
