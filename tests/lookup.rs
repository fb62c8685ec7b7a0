use simplekanainput::dict::{DictEntry, PartOfSpeech, Sense};
use simplekanainput::lookup::{lookup_by_english, lookup_by_kana, lookup_by_kanji, sort_by_distance};
use simplekanainput::query::KanjiQuery;

fn entry(kanji: &[&str], readings: &[&str], glosses: &[&str]) -> DictEntry {
    DictEntry {
        kanji_elements: kanji.iter().map(|s| s.to_string()).collect(),
        reading_elements: readings.iter().map(|s| s.to_string()).collect(),
        senses: vec![Sense {
            glosses: glosses.iter().map(|s| s.to_string()).collect(),
            parts_of_speech: vec![PartOfSpeech::Uninflecting],
        }],
    }
}

fn corpus() -> Vec<DictEntry> {
    vec![
        entry(&["変化"], &["へんか"], &["change", "variation"]),
        entry(&["化学"], &["かがく"], &["chemistry"]),
        entry(&["変"], &["へん"], &["strange"]),
        entry(&[], &["かわ"], &["river bank change"]),
    ]
}

#[test]
fn kana_lookup_finds_reading_substrings() {
    assert_eq!(lookup_by_kana(&corpus(), "へん"), vec![0, 2]);
    assert_eq!(lookup_by_kana(&corpus(), "か"), vec![0, 1, 3]);
    assert!(lookup_by_kana(&corpus(), "ぬ").is_empty());
}

#[test]
fn kanji_lookup_uses_the_query() {
    assert_eq!(lookup_by_kanji(&corpus(), &KanjiQuery::from_str("化")), vec![0, 1]);
    assert_eq!(lookup_by_kanji(&corpus(), &KanjiQuery::from_str("^変化(2)")), vec![0]);
    assert_eq!(lookup_by_kanji(&corpus(), &KanjiQuery::from_str("(1)")), vec![2]);
}

#[test]
fn english_lookup_sorts_by_edit_distance() {
    // "change" is 0 edits from entry 0's first gloss and far from entry 3's.
    assert_eq!(lookup_by_english(&corpus(), "change"), vec![0, 3]);
    assert_eq!(lookup_by_english(&corpus(), "river bank change"), vec![3]);
    assert!(lookup_by_english(&corpus(), "zebra").is_empty());
}

#[test]
fn sorting_is_stable() {
    assert_eq!(sort_by_distance(&vec![(3, 10), (1, 11), (3, 12), (0, 13), (1, 14)]), vec![13, 11, 14, 10, 12]);
    assert!(sort_by_distance(&Vec::new()).is_empty());
}
