use simplekanainput::appstate::{clamp_selection, segment_sel_nav_left, segment_sel_nav_right, select_at_cursor};
use simplekanainput::ipc::{IpcError, IpcState};
use simplekanainput::kanji::KanjiDb;
use simplekanainput::radicals::{by_kana_name, by_name, with_glyph, Radical};
use simplekanainput::text::char_is_hiragana;
use simplekanainput::segment::segment;

#[test]
fn kanji_catalog_loads() {
    let data = "一\0壱\0弌\0one\0イチ・イツ・ひと\0二\0弐\0\0two\0ニ\0extra";
    let db = KanjiDb::load(data);
    assert_eq!(db.kanji.len(), 2);
    assert_eq!(db.kanji[0].chars, ["一".to_string(), "壱".to_string(), "弌".to_string()]);
    assert_eq!(db.kanji[0].meaning, "one");
    assert_eq!(db.kanji[0].readings, vec!["イチ", "イツ", "ひと"]);
    assert_eq!(db.kanji[1].chars[2], "");
    assert_eq!(db.kanji[1].readings, vec!["ニ"]);
    assert_eq!(db.by_reading("ひと", "ヒト"), vec![0]);
    assert_eq!(db.by_reading("に", "ニ"), vec![1]);
    assert!(db.by_reading("さん", "サン").is_empty());
    assert!(KanjiDb::load("").kanji.is_empty());
}

#[test]
fn radicals_by_common_name() {
    let rad = |c: char, names: &[&str]| Radical {
        chars: vec![c],
        names: vec!["formal".to_string()],
        common_names: names.iter().map(|s| s.to_string()).collect(),
    };
    let rads = vec![rad('亻', &["にんべん"]), rad('氵', &["さんずい"]), rad('人', &["ひと", "ひとやね"])];
    assert_eq!(by_name(&rads, "べん"), vec![0]);
    assert_eq!(by_name(&rads, "ひと"), vec![2]);
    assert_eq!(by_name(&rads, ""), vec![0, 1, 2]);
    assert!(by_name(&rads, "きへん").is_empty());
}

#[test]
fn ipc_state_bytes() {
    assert_eq!(IpcState::read(&[0]), Ok(IpcState::Visible));
    assert_eq!(IpcState::read(&[3, 9]), Ok(IpcState::QuitRequested));
    assert_eq!(IpcState::read(&[]), Err(IpcError::Empty));
    assert_eq!(IpcState::read(&[4]), Err(IpcError::InvalidState(4)));
    assert_eq!(IpcState::ShowRequested.write(), vec![2]);
    assert_eq!(IpcState::from_byte(1), Some(IpcState::Hidden));
    assert_eq!(IpcState::from_byte(200), None);
}

#[test]
fn selection_moves_between_words() {
    let spans = segment("kore, 12 ha");
    // kore | , | " 12 " | ha
    assert_eq!(spans.len(), 4);
    assert_eq!(segment_sel_nav_right(&spans, 0), 3);
    assert_eq!(segment_sel_nav_right(&spans, 3), 3);
    assert_eq!(segment_sel_nav_left(&spans, 3), 0);
    assert_eq!(segment_sel_nav_left(&spans, 0), 0);
    assert_eq!(segment_sel_nav_left(&Vec::new(), 2), 1);
    assert_eq!(clamp_selection(4, 9), Some(3));
    assert_eq!(clamp_selection(4, 2), Some(2));
    assert_eq!(clamp_selection(0, 2), None);
    assert_eq!(select_at_cursor(&spans, 11), 3);
    assert_eq!(select_at_cursor(&spans, 6), 0);
    assert_eq!(select_at_cursor(&Vec::new(), 6), 0);
}

#[test]
fn catalog_filters() {
    let data = "一\0壱\0弌\0one\0イチ\0人\0亻\0\0person\0ジン・ひと\0";
    let db = KanjiDb::load(data);
    assert_eq!(db.kanji.len(), 2);
    assert_eq!(db.by_meaning("per"), vec![1]);
    assert_eq!(db.by_meaning(""), vec![0, 1]);
    assert_eq!(db.starting_with('亻'), vec![1]);
    assert_eq!(db.starting_with('弌'), vec![0]);
    assert!(db.starting_with('x').is_empty());
    let rads = vec![
        Radical { chars: vec!['亻', '人'], names: vec!["人".to_string()], common_names: vec!["にんべん".to_string()] },
        Radical { chars: vec!['口'], names: vec!["口".to_string()], common_names: vec!["クチ".to_string()] },
    ];
    assert_eq!(by_kana_name(&rads, "くち", "クチ"), vec![1]);
    assert_eq!(by_kana_name(&rads, "べん", "ベン"), vec![0]);
    assert_eq!(with_glyph(&rads, '人'), vec![0]);
    assert!(with_glyph(&rads, '木').is_empty());
    assert!(char_is_hiragana('あ'));
    assert!(!char_is_hiragana('ア'));
    assert!(!char_is_hiragana('a'));
}
