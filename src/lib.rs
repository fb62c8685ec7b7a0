//! A romaji-to-Japanese input engine: segmentation of the romaji buffer,
//! transliteration to kana, rendering with per-span interpretations, dictionary
//! suggestions through conjugation roots, and keeping interpretations attached to
//! their spans across edits.
pub mod appstate;
pub mod conv;
pub mod detect_edit;
pub mod dict;
pub mod ipc;
pub mod kana;
pub mod kanji;
pub mod lookup;
pub mod query;
pub mod radicals;
pub mod segment;
pub mod text;
