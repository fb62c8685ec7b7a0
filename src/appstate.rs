//! The editor's screens, and how the selected span moves.
use crate::segment::InputSpan;
use vstd::prelude::*;

verus! {

/// The screen being shown.
#[derive(Clone, Copy, PartialEq, Eq, Debug, Structural)]
pub enum UiState {
    Input,
    Dict,
    Kanji,
    Help,
    About,
}

/// Size of the window.
#[derive(Clone, Copy, PartialEq, Eq, Debug, Structural)]
pub struct WinDims {
    pub w: u16,
    pub h: u16,
}

/// A request from the output view to the input editor.
#[derive(Clone, Copy, PartialEq, Eq, Debug, Structural)]
pub enum InputUiAction {
    SetCursor(usize),
}

/// The nearest index at or below `j` that is 0 or a romaji word.
pub open spec fn word_at_or_before(segs: Seq<InputSpan>, j: int) -> int
    decreases j,
{
    if j <= 0 {
        0
    } else if j < segs.len() && segs[j] is RomajiWord {
        j
    } else {
        word_at_or_before(segs, j - 1)
    }
}

/// The nearest index at or above `j` that is a romaji word; the last index if there
/// is none.
pub open spec fn word_at_or_after(segs: Seq<InputSpan>, j: int) -> int
    decreases segs.len() - j,
{
    if j >= segs.len() {
        if segs.len() == 0 {
            0
        } else {
            segs.len() - 1
        }
    } else if segs[j] is RomajiWord {
        j
    } else {
        word_at_or_after(segs, j + 1)
    }
}

/// The word to select after the cursor moved: scanning from the last span back, the
/// first romaji word at or before the last span that touches the cursor; 0 if none.
pub open spec fn word_at_cursor(segs: Seq<InputSpan>, cursor: int, n: int, found: bool) -> int
    decreases n,
{
    if n <= 0 {
        0
    } else {
        let i = n - 1;
        let f = found || (segs[i].lo() <= cursor <= segs[i].hi());
        if f && segs[i] is RomajiWord {
            i
        } else {
            word_at_cursor(segs, cursor, i, f)
        }
    }
}

/// The selection one romaji word to the left: the previous romaji word, else 0.
pub fn segment_sel_nav_left(segments: &Vec<InputSpan>, selected: usize) -> (r: usize)
    ensures
        selected == 0 ==> r == 0,
        selected > 0 && segments@.len() == 0 ==> r == selected - 1,
        selected > 0 && segments@.len() > 0 ==> r == word_at_or_before(segments@, selected - 1),
{
    if selected == 0 {
        return 0;
    }
    if segments.len() == 0 {
        return selected - 1;
    }
    let mut j = selected - 1;
    while j > 0 && !(j < segments.len() && segments[j].is_romaji_word())
        invariant
            j < selected,
            word_at_or_before(segments@, selected - 1) == word_at_or_before(segments@, j as int),
        decreases j,
    {
        j = j - 1;
    }
    j
}

/// The selection one romaji word to the right: the next romaji word, else the last span.
pub fn segment_sel_nav_right(segments: &Vec<InputSpan>, selected: usize) -> (r: usize)
    ensures
        r == word_at_or_after(segments@, selected + 1),
{
    let len = segments.len();
    if selected >= len {
        return if len == 0 {
            0
        } else {
            len - 1
        };
    }
    let mut j = selected + 1;
    while j < len && !segments[j].is_romaji_word()
        invariant
            len == segments@.len(),
            selected < j <= len,
            word_at_or_after(segments@, selected + 1) == word_at_or_after(segments@, j as int),
        decreases len - j,
    {
        j = j + 1;
    }
    if j >= len {
        len - 1
    } else {
        j
    }
}

/// The selection kept in bounds: the last span where it ran past the end, none where
/// there are no spans.
pub fn clamp_selection(segment_count: usize, selected: usize) -> (r: Option<usize>)
    ensures
        segment_count == 0 ==> r is None,
        segment_count > 0 && selected < segment_count ==> r == Some(selected),
        segment_count > 0 && selected >= segment_count ==> r == Some((segment_count - 1) as usize),
{
    if segment_count == 0 {
        None
    } else if selected >= segment_count {
        Some(segment_count - 1)
    } else {
        Some(selected)
    }
}

/// The romaji word to select for text cursor `cursor` after the segmentation changed.
pub fn select_at_cursor(segments: &Vec<InputSpan>, cursor: usize) -> (r: usize)
    ensures
        r == word_at_cursor(segments@, cursor as int, segments@.len() as int, false),
{
    let mut found = false;
    let mut n = segments.len();
    while n > 0
        invariant
            n <= segments@.len(),
            word_at_cursor(segments@, cursor as int, segments@.len() as int, false) == word_at_cursor(
                segments@,
                cursor as int,
                n as int,
                found,
            ),
        decreases n,
    {
        let i = n - 1;
        if segments[i].contains_cursor(cursor) {
            found = true;
        }
        if found && segments[i].is_romaji_word() {
            return i;
        }
        n = i;
    }
    0
}

} // verus!
