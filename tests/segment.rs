use simplekanainput::segment::{segment, InputSpan};

fn texts<'a>(src: &'a str) -> Vec<&'a str> {
    segment(src).into_iter().map(|s| s.index(src)).collect()
}

#[test]
fn test_segment() {
    let cases: &[(&str, &[&str])] = &[
        ("watashi ha", &["watashi", "ha"]),
        ("watashi  ha", &["watashi", "  ", "ha"]),
        ("hai, sou desu. nani?", &["hai", ",", "sou", "desu", ".", "nani", "?"]),
        (
            "are ha nandesu ka? zenkai boosto da!",
            &["are", "ha", "nandesu", "ka", "?", "zenkai", "boosto", "da", "!"],
        ),
        ("supe-su ha sugoi ne", &["supe-su", "ha", "sugoi", "ne"]),
        (
            "konnichiha {Yes. This is a free space 空.} rafaeru san.",
            &["konnichiha", "Yes. This is a free space 空.", "rafaeru", "san"],
        ),
        ("{free space}", &["free space"]),
    ];
    for (src, tokens) in cases {
        let mut spans = segment(src).into_iter();
        for token in tokens.iter() {
            assert_eq!(spans.next().unwrap().index(src), *token);
        }
    }
}

#[test]
fn escape_block_is_one_other_span() {
    let src = "a {free 1} b";
    let spans = segment(src);
    assert_eq!(
        spans,
        vec![
            InputSpan::RomajiWord { start: 0, end: 1 },
            InputSpan::Other { start: 3, end: 9 },
            InputSpan::RomajiWord { start: 11, end: 12 },
        ]
    );
    assert_eq!(texts(src), vec!["a", "free 1", "b"]);
}

#[test]
fn double_space_is_kept() {
    let src = "a  b";
    assert_eq!(
        segment(src),
        vec![
            InputSpan::RomajiWord { start: 0, end: 1 },
            InputSpan::Other { start: 1, end: 3 },
            InputSpan::RomajiWord { start: 3, end: 4 },
        ]
    );
    assert_eq!(texts(src), vec!["a", "  ", "b"]);
}

#[test]
fn coverage_without_escapes() {
    let src = "kore ha, 123 pen desu!";
    let spans = segment(src);
    let mut rebuilt = String::new();
    let mut last_end = 0;
    for sp in &spans {
        if sp.start() > last_end {
            assert_eq!(sp.start(), last_end + 1);
            assert_eq!(&src[last_end..sp.start()], " ");
        }
        rebuilt.push_str(sp.index(src));
        last_end = sp.end();
    }
    assert_eq!(rebuilt, "koreha, 123 pendesu!");
    assert_eq!(texts(src), vec!["kore", "ha", ",", " 123 ", "pen", "desu", "!"]);
}

#[test]
fn empty_and_single_space_buffers() {
    assert!(segment("").is_empty());
    assert!(segment(" ").is_empty());
    assert_eq!(texts("  "), vec!["  "]);
}

#[test]
fn unterminated_escape_is_flushed() {
    assert_eq!(texts("ka {abc"), vec!["ka", "abc"]);
    assert_eq!(texts("{}"), vec![""]);
}

#[test]
fn escape_after_word_opens_a_block() {
    assert_eq!(texts("abc{def}ghi"), vec!["abc", "def", "ghi"]);
}

#[test]
fn span_helpers() {
    let sp = InputSpan::RomajiWord { start: 2, end: 5 };
    assert_eq!(sp.len(), 3);
    assert!(sp.contains_cursor(2));
    assert!(sp.contains_cursor(5));
    assert!(!sp.contains_cursor(6));
    assert!(sp.is_romaji_word());
    assert!(!InputSpan::Other { start: 0, end: 1 }.is_romaji_word());
}
