//! Splitting the romaji buffer into typed spans.
use vstd::prelude::*;
use vstd::string::StringSliceAdditionalSpecFns;
use vstd::utf8::*;

verus! {

/// A classified region `start..end` (byte offsets) of the input buffer.
#[derive(Clone, Copy, Eq, Debug)]
pub enum InputSpan {
    RomajiWord { start: usize, end: usize },
    RomajiPunct { start: usize, end: usize },
    Other { start: usize, end: usize },
}

impl PartialEq for InputSpan {
    fn eq(&self, o: &InputSpan) -> (r: bool) {
        match (*self, *o) {
            (
                InputSpan::RomajiWord { start: a, end: b },
                InputSpan::RomajiWord { start: c, end: d },
            ) => a == c && b == d,
            (
                InputSpan::RomajiPunct { start: a, end: b },
                InputSpan::RomajiPunct { start: c, end: d },
            ) => a == c && b == d,
            (InputSpan::Other { start: a, end: b }, InputSpan::Other { start: c, end: d }) => a
                == c && b == d,
            _ => false,
        }
    }
}

impl vstd::std_specs::cmp::PartialEqSpecImpl for InputSpan {
    open spec fn obeys_eq_spec() -> bool {
        true
    }

    open spec fn eq_spec(&self, o: &InputSpan) -> bool {
        *self == *o
    }
}

/// The states of the segmenter.
#[derive(Clone, Copy, PartialEq, Eq, Debug, Structural)]
pub enum ScanStatus {
    Init,
    Word,
    Punct,
    Other,
    Escaped,
}

pub const ESCAPE_OPEN: u8 = 123;

pub const ESCAPE_CLOSE: u8 = 125;

pub const SPACE: u8 = 32;

/// An ASCII letter or a hyphen.
pub open spec fn is_word_byte(b: u8) -> bool {
    (65 <= b <= 90) || (97 <= b <= 122) || b == 45
}

/// Period, comma, exclamation mark or question mark.
pub open spec fn is_punct_byte(b: u8) -> bool {
    b == 46 || b == 44 || b == 33 || b == 63
}

/// The class of a byte outside an escape block.
pub open spec fn class_of(b: u8) -> ScanStatus {
    if is_word_byte(b) {
        ScanStatus::Word
    } else if is_punct_byte(b) {
        ScanStatus::Punct
    } else {
        ScanStatus::Other
    }
}

/// The span of the given state's kind.
pub open spec fn make_span(st: ScanStatus, start: int, end: int) -> InputSpan {
    match st {
        ScanStatus::Word => InputSpan::RomajiWord { start: start as usize, end: end as usize },
        ScanStatus::Punct => InputSpan::RomajiPunct { start: start as usize, end: end as usize },
        _ => InputSpan::Other { start: start as usize, end: end as usize },
    }
}

/// The segmenter's state after one more byte `b` at offset `pos`: the spans closed
/// so far, the current state, and where the current span began.
pub open spec fn scan_step(
    sc: (Seq<InputSpan>, ScanStatus, int),
    pos: int,
    b: u8,
) -> (Seq<InputSpan>, ScanStatus, int) {
    let (spans, st, begin) = sc;
    if st == ScanStatus::Escaped {
        if b == ESCAPE_CLOSE {
            (spans.push(make_span(ScanStatus::Other, begin, pos)), ScanStatus::Init, pos + 1)
        } else {
            sc
        }
    } else if b == ESCAPE_OPEN {
        if st == ScanStatus::Init {
            (spans, ScanStatus::Escaped, pos + 1)
        } else {
            (spans.push(make_span(st, begin, pos)), ScanStatus::Escaped, pos + 1)
        }
    } else if st == ScanStatus::Init {
        (spans, class_of(b), pos)
    } else if st == class_of(b) {
        sc
    } else {
        (spans.push(make_span(st, begin, pos)), class_of(b), pos)
    }
}

/// The segmenter's state after the first `n` bytes.
pub open spec fn scan(b: Seq<u8>, n: int) -> (Seq<InputSpan>, ScanStatus, int)
    decreases n,
{
    if n <= 0 {
        (Seq::empty(), ScanStatus::Init, 0)
    } else {
        scan_step(scan(b, n - 1), n - 1, b[n - 1])
    }
}

/// All spans of the buffer, the unfinished one at the end included when it is not empty.
pub open spec fn raw_spans(b: Seq<u8>) -> Seq<InputSpan> {
    let (spans, st, begin) = scan(b, b.len() as int);
    if st == ScanStatus::Init || begin >= b.len() {
        spans
    } else {
        spans.push(make_span(st, begin, b.len() as int))
    }
}

/// The span's text is a single space.
pub open spec fn is_single_space(sp: InputSpan, b: Seq<u8>) -> bool {
    sp.hi() == sp.lo() + 1 && b[sp.lo() as int] == SPACE
}

/// `s` without its single-space spans.
pub open spec fn keep_spans(s: Seq<InputSpan>, b: Seq<u8>) -> Seq<InputSpan>
    decreases s.len(),
{
    if s.len() == 0 {
        s
    } else {
        let r = keep_spans(s.drop_last(), b);
        if is_single_space(s.last(), b) {
            r
        } else {
            r.push(s.last())
        }
    }
}

/// What `segment` returns for a buffer with bytes `b`.
pub open spec fn segment_spec(b: Seq<u8>) -> Seq<InputSpan> {
    keep_spans(raw_spans(b), b)
}

/// Offset `i` sits next to an ASCII byte, or at an end of the buffer.
pub open spec fn at_ascii_edge(b: Seq<u8>, i: int) -> bool {
    i == 0 || i == b.len() || (0 <= i < b.len() && b[i] < 128) || (0 < i <= b.len() && b[i
        - 1] < 128)
}

/// The span lies within the buffer and both its ends fall on character boundaries.
pub open spec fn span_fits(sp: InputSpan, b: Seq<u8>) -> bool {
    &&& sp.lo() <= sp.hi() <= b.len()
    &&& is_char_boundary(b, sp.lo() as int)
    &&& is_char_boundary(b, sp.hi() as int)
}

/// Every span fits the buffer.
pub open spec fn spans_fit(spans: Seq<InputSpan>, b: Seq<u8>) -> bool {
    forall|i: int| 0 <= i < spans.len() ==> #[trigger] span_fits(spans[i], b)
}

impl InputSpan {
    pub open spec fn lo(self) -> usize {
        match self {
            InputSpan::RomajiWord { start, .. } => start,
            InputSpan::RomajiPunct { start, .. } => start,
            InputSpan::Other { start, .. } => start,
        }
    }

    pub open spec fn hi(self) -> usize {
        match self {
            InputSpan::RomajiWord { end, .. } => end,
            InputSpan::RomajiPunct { end, .. } => end,
            InputSpan::Other { end, .. } => end,
        }
    }

    /// The span's kind, as the segmenter state that produces it.
    pub open spec fn kind(self) -> ScanStatus {
        match self {
            InputSpan::RomajiWord { .. } => ScanStatus::Word,
            InputSpan::RomajiPunct { .. } => ScanStatus::Punct,
            InputSpan::Other { .. } => ScanStatus::Other,
        }
    }

    /// The bytes of `b` that the span covers.
    pub open spec fn bytes_of(self, b: Seq<u8>) -> Seq<u8> {
        b.subrange(self.lo() as int, self.hi() as int)
    }

    pub fn start(self) -> (r: usize)
        ensures
            r == self.lo(),
    {
        match self {
            InputSpan::RomajiWord { start, .. } => start,
            InputSpan::RomajiPunct { start, .. } => start,
            InputSpan::Other { start, .. } => start,
        }
    }

    pub fn end(self) -> (r: usize)
        ensures
            r == self.hi(),
    {
        match self {
            InputSpan::RomajiWord { end, .. } => end,
            InputSpan::RomajiPunct { end, .. } => end,
            InputSpan::Other { end, .. } => end,
        }
    }

    /// Length of the span in bytes.
    pub fn len(self) -> (r: usize)
        requires
            self.lo() <= self.hi(),
        ensures
            r == self.hi() - self.lo(),
    {
        self.end() - self.start()
    }

    /// The span's text in `s`.
    pub fn index(self, s: &str) -> (r: &str)
        requires
            valid_utf8(s.spec_bytes()),
            span_fits(self, s.spec_bytes()),
        ensures
            r.spec_bytes() == self.bytes_of(s.spec_bytes()),
    {
        let start = self.start();
        let end = self.end();
        let (_, rest) = s.split_at(start);
        proof {
            valid_utf8_split(s.spec_bytes(), start as int);
            lemma_boundary_in_suffix(s.spec_bytes(), start as int, end as int);
        }
        let (mid, _) = rest.split_at(end - start);
        assert(mid.spec_bytes() =~= self.bytes_of(s.spec_bytes()));
        mid
    }

    /// The text cursor at `cursor` touches this span (its ends included).
    pub fn contains_cursor(self, cursor: usize) -> (r: bool)
        ensures
            r == (self.lo() <= cursor <= self.hi()),
    {
        self.start() <= cursor && cursor <= self.end()
    }

    pub fn is_romaji_word(self) -> (r: bool)
        ensures
            r == (self is RomajiWord),
    {
        match self {
            InputSpan::RomajiWord { .. } => true,
            _ => false,
        }
    }
}

fn span_for(st: ScanStatus, start: usize, end: usize) -> (r: InputSpan)
    ensures
        r == make_span(st, start as int, end as int),
{
    match st {
        ScanStatus::Word => InputSpan::RomajiWord { start, end },
        ScanStatus::Punct => InputSpan::RomajiPunct { start, end },
        _ => InputSpan::Other { start, end },
    }
}

fn byte_class(b: u8) -> (r: ScanStatus)
    ensures
        r == class_of(b),
{
    if (65 <= b && b <= 90) || (97 <= b && b <= 122) || b == 45 {
        ScanStatus::Word
    } else if b == 46 || b == 44 || b == 33 || b == 63 {
        ScanStatus::Punct
    } else {
        ScanStatus::Other
    }
}

/// Splits `input_text` into spans of words, punctuation and other text; text between
/// `{` and `}` is one `Other` span. Spans whose text is a single space are left out.
pub fn segment(input_text: &str) -> (r: Vec<InputSpan>)
    ensures
        r@ == segment_spec(input_text.spec_bytes()),
        spans_fit(r@, input_text.spec_bytes()),
{
    let bytes = input_text.as_bytes();
    let ghost b = input_text.spec_bytes();
    proof {
        encode_utf8_valid_utf8(input_text@);
    }
    let len = bytes.len();
    let mut segs: Vec<InputSpan> = Vec::new();
    let mut status = ScanStatus::Init;
    let mut begin: usize = 0;
    let mut pos: usize = 0;
    while pos < len
        invariant
            bytes@ == b,
            len == b.len(),
            pos <= len,
            (segs@, status, begin as int) == scan(b, pos as int),
        decreases len - pos,
    {
        let byte = bytes[pos];
        let class = byte_class(byte);
        if status == ScanStatus::Escaped {
            if byte == ESCAPE_CLOSE {
                segs.push(span_for(ScanStatus::Other, begin, pos));
                status = ScanStatus::Init;
                begin = pos + 1;
            }
        } else if byte == ESCAPE_OPEN {
            if status != ScanStatus::Init {
                segs.push(span_for(status, begin, pos));
            }
            status = ScanStatus::Escaped;
            begin = pos + 1;
        } else if status == ScanStatus::Init {
            status = class;
            begin = pos;
        } else if status != class {
            segs.push(span_for(status, begin, pos));
            status = class;
            begin = pos;
        }
        pos = pos + 1;
    }
    if status != ScanStatus::Init && begin < len {
        segs.push(span_for(status, begin, len));
    }
    let ghost raw = segs@;
    assert(raw == raw_spans(b));
    proof {
        lemma_raw_spans_fit(b);
    }
    let mut out: Vec<InputSpan> = Vec::new();
    let mut i: usize = 0;
    while i < segs.len()
        invariant
            bytes@ == b,
            segs@ == raw,
            raw == raw_spans(b),
            spans_fit(raw, b),
            i <= raw.len(),
            out@ == keep_spans(raw.take(i as int), b),
        decreases raw.len() - i,
    {
        let sp = segs[i];
        assert(span_fits(raw[i as int], b));
        let single = sp.end() - sp.start() == 1 && bytes[sp.start()] == SPACE;
        if !single {
            out.push(sp);
        }
        assert(raw.take(i + 1).drop_last() =~= raw.take(i as int));
        i = i + 1;
    }
    assert(raw.take(raw.len() as int) =~= raw);
    proof {
        lemma_keep_spans_sub(raw, b);
    }
    out
}

/// The bytes past a character boundary keep the boundaries that follow it.
proof fn lemma_boundary_in_suffix(b: Seq<u8>, i: int, j: int)
    requires
        valid_utf8(b),
        0 <= i <= j <= b.len(),
        is_char_boundary(b, i),
        is_char_boundary(b, j),
    ensures
        is_char_boundary(b.subrange(i, b.len() as int), j - i),
    decreases b.len(),
{
    let s = b.subrange(i, b.len() as int);
    valid_utf8_split(b, i);
    is_char_boundary_start_end_of_seq(s);
    if j == b.len() {
        assert(s.len() == j - i);
    } else {
        is_char_boundary_iff_not_is_continuation_byte(b, j);
        is_char_boundary_iff_not_is_continuation_byte(s, j - i);
        assert(s[j - i] == b[j]);
    }
}

/// An offset next to an ASCII byte is a character boundary.
proof fn lemma_ascii_edge_boundary(b: Seq<u8>, i: int)
    requires
        valid_utf8(b),
        0 <= i <= b.len(),
        at_ascii_edge(b, i),
    ensures
        is_char_boundary(b, i),
{
    is_char_boundary_start_end_of_seq(b);
    if i == 0 || i == b.len() {
    } else if b[i] < 128 {
        is_char_boundary_iff_not_is_continuation_byte(b, i);
    } else {
        is_char_boundary_iff_not_is_continuation_byte(b, i - 1);
        lemma_after_ascii_boundary(b, i - 1);
    }
}

/// The offset right after an ASCII character is a character boundary.
proof fn lemma_after_ascii_boundary(b: Seq<u8>, j: int)
    requires
        valid_utf8(b),
        0 <= j < b.len(),
        b[j] < 128,
        is_char_boundary(b, j),
    ensures
        is_char_boundary(b, j + 1),
    decreases b.len(),
{
    let l = length_of_first_scalar(b);
    let p = pop_first_scalar(b);
    assert(1 <= l <= 4);
    assert(p.len() == b.len() - l);
    if j == 0 {
        assert(l == 1);
        assert(is_char_boundary(p, 0));
    } else {
        assert(is_char_boundary(p, j - l));
        assert(p[j - l] == b[j]);
        lemma_after_ascii_boundary(p, j - l);
    }
}

/// The span ends before `n` and both its ends sit next to ASCII bytes.
spec fn span_at_edges(sp: InputSpan, b: Seq<u8>, n: int) -> bool {
    &&& sp.lo() <= sp.hi() <= n
    &&& at_ascii_edge(b, sp.lo() as int)
    &&& at_ascii_edge(b, sp.hi() as int)
}

spec fn spans_at_edges(spans: Seq<InputSpan>, b: Seq<u8>, n: int) -> bool {
    forall|k: int| 0 <= k < spans.len() ==> #[trigger] span_at_edges(spans[k], b, n)
}

/// Facts about the segmenter's state after `n` bytes that hold of any buffer.
proof fn lemma_scan_edges(b: Seq<u8>, n: int)
    requires
        0 <= n <= b.len() <= usize::MAX,
    ensures
        0 <= scan(b, n).2 <= n,
        at_ascii_edge(b, scan(b, n).2),
        (scan(b, n).1 == ScanStatus::Word || scan(b, n).1 == ScanStatus::Punct || scan(b, n).1
            == ScanStatus::Other) ==> (scan(b, n).2 < n && class_of(b[n - 1]) == scan(b, n).1
            && b[n - 1] != ESCAPE_OPEN),
        scan(b, n).1 == ScanStatus::Init ==> (n == 0 || b[n - 1] == ESCAPE_CLOSE),
        scan(b, n).1 == ScanStatus::Escaped ==> (n > 0 && b[scan(b, n).2 - 1] < 128),
        spans_at_edges(scan(b, n).0, b, n),
    decreases n,
{
    if n > 0 {
        lemma_scan_edges(b, n - 1);
        let (spans0, st0, begin0) = scan(b, n - 1);
        let (spans, st, begin) = scan(b, n);
        let pos = n - 1;
        let c = b[pos];
        assert(scan(b, n) == scan_step(scan(b, n - 1), pos, c));
        if spans.len() > spans0.len() {
            assert(spans == spans0.push(spans.last()));
            assert(spans.last().lo() == begin0);
            assert(spans.last().hi() == pos);
            assert(at_ascii_edge(b, pos));
        } else {
            assert(spans == spans0);
        }
        assert forall|k: int| 0 <= k < spans.len() implies span_at_edges(#[trigger] spans[k], b, n) by {
            if k < spans0.len() {
                assert(spans[k] == spans0[k]);
                assert(span_at_edges(spans0[k], b, n - 1));
            }
        }
    }
}

proof fn lemma_raw_spans_fit(b: Seq<u8>)
    requires
        valid_utf8(b),
        b.len() <= usize::MAX,
    ensures
        spans_fit(raw_spans(b), b),
{
    lemma_scan_edges(b, b.len() as int);
    let raw = raw_spans(b);
    let spans = scan(b, b.len() as int).0;
    assert forall|i: int| 0 <= i < raw.len() implies #[trigger] span_fits(raw[i], b) by {
        if i < spans.len() {
            assert(raw[i] == spans[i]);
            assert(span_at_edges(spans[i], b, b.len() as int));
        }
        lemma_ascii_edge_boundary(b, raw[i].lo() as int);
        lemma_ascii_edge_boundary(b, raw[i].hi() as int);
    }
}

/// Every span that `keep_spans` returns is one of its input.
proof fn lemma_keep_spans_sub(s: Seq<InputSpan>, b: Seq<u8>)
    ensures
        forall|i: int|
            0 <= i < keep_spans(s, b).len() ==> exists|j: int|
                0 <= j < s.len() && s[j] == #[trigger] keep_spans(s, b)[i],
    decreases s.len(),
{
    if s.len() > 0 {
        lemma_keep_spans_sub(s.drop_last(), b);
        let r = keep_spans(s.drop_last(), b);
        assert forall|i: int| 0 <= i < keep_spans(s, b).len() implies exists|j: int|
            0 <= j < s.len() && s[j] == #[trigger] keep_spans(s, b)[i] by {
            if i < r.len() {
                let j = choose|j: int| 0 <= j < s.drop_last().len() && s.drop_last()[j] == r[i];
                assert(s[j] == keep_spans(s, b)[i]);
            } else {
                assert(s[s.len() - 1] == keep_spans(s, b)[i]);
            }
        }
    }
}


/// The bytes `x..y` between two spans are nothing, or a single space.
pub open spec fn gap_ok(b: Seq<u8>, x: int, y: int) -> bool {
    x == y || (y == x + 1 && 0 <= x < b.len() && b[x] == SPACE)
}

/// The spans are non-empty, in order, and cover `0..e` of the buffer but for single
/// spaces left out between them (or before the first, or after the last).
pub open spec fn covers_but_single_spaces(k: Seq<InputSpan>, b: Seq<u8>, e: int) -> bool {
    &&& k.len() == 0 ==> gap_ok(b, 0, e)
    &&& k.len() > 0 ==> gap_ok(b, 0, k[0].lo() as int) && gap_ok(b, k.last().hi() as int, e)
    &&& forall|j: int| 0 <= j < k.len() ==> #[trigger] k[j].lo() < k[j].hi()
    &&& forall|j: int|
        0 <= j < k.len() - 1 ==> gap_ok(b, #[trigger] k[j].hi() as int, k[j + 1].lo() as int)
}

/// The buffer holds no `{`.
pub open spec fn has_no_escape(b: Seq<u8>) -> bool {
    forall|i: int| 0 <= i < b.len() ==> b[i] != ESCAPE_OPEN
}

/// Spans that cover `0..e` back to back, each non-empty, each of the class of its
/// first byte, no two neighbours of the same kind.
spec fn chain(s: Seq<InputSpan>, b: Seq<u8>, e: int) -> bool {
    &&& s.len() == 0 ==> e == 0
    &&& s.len() > 0 ==> s[0].lo() == 0 && s.last().hi() == e
    &&& forall|j: int|
        0 <= j < s.len() ==> #[trigger] s[j].lo() < s[j].hi() && s[j].hi() <= b.len()
            && class_of(b[s[j].lo() as int]) == s[j].kind()
    &&& forall|j: int|
        0 <= j < s.len() - 1 ==> #[trigger] s[j].hi() == s[j + 1].lo() && s[j].kind() != s[j
            + 1].kind()
}

proof fn lemma_chain_drop_last(s: Seq<InputSpan>, b: Seq<u8>, e: int)
    requires
        chain(s, b, e),
        s.len() > 0,
    ensures
        chain(s.drop_last(), b, s.last().lo() as int),
{
    let t = s.drop_last();
    assert forall|j: int| 0 <= j < t.len() implies #[trigger] t[j].lo() < t[j].hi() && t[j].hi()
        <= b.len() && class_of(b[t[j].lo() as int]) == t[j].kind() by {
        assert(t[j] == s[j]);
        assert(s[j].lo() < s[j].hi());
    }
    assert forall|j: int| 0 <= j < t.len() - 1 implies #[trigger] t[j].hi() == t[j + 1].lo()
        && t[j].kind() != t[j + 1].kind() by {
        assert(t[j] == s[j]);
        assert(t[j + 1] == s[j + 1]);
        assert(s[j].hi() == s[j + 1].lo());
    }
    if t.len() > 0 {
        assert(s[s.len() - 2].hi() == s[s.len() - 1].lo());
        assert(t[0] == s[0]);
        assert(t.last() == s[s.len() - 2]);
    } else {
        assert(s.last() == s[0]);
    }
}

/// The segmenter's state on a buffer without escapes.
proof fn lemma_scan_chain(b: Seq<u8>, n: int)
    requires
        has_no_escape(b),
        0 <= n <= b.len() <= usize::MAX,
    ensures
        scan(b, n).1 != ScanStatus::Escaped,
        scan(b, n).1 == ScanStatus::Init <==> n == 0,
        n == 0 ==> scan(b, n).0.len() == 0 && scan(b, n).2 == 0,
        n > 0 ==> {
            let (spans, st, begin) = scan(b, n);
            &&& 0 <= begin < n
            &&& class_of(b[begin]) == st
            &&& chain(spans, b, begin)
            &&& spans.len() > 0 ==> spans.last().kind() != st
        },
    decreases n,
{
    if n > 0 {
        lemma_scan_chain(b, n - 1);
        let (spans0, st0, begin0) = scan(b, n - 1);
        let (spans, st, begin) = scan(b, n);
        let pos = n - 1;
        let c = b[pos];
        assert(c != ESCAPE_OPEN);
        assert(scan(b, n) == scan_step(scan(b, n - 1), pos, c));
        if st0 != ScanStatus::Init && st0 != class_of(c) {
            let sp = make_span(st0, begin0, pos);
            assert(spans == spans0.push(sp));
            assert(sp.kind() == st0);
            assert(spans.last() == sp);
            assert(sp.lo() == begin0 && sp.hi() == pos);
            assert(begin0 < pos);
            assert(class_of(b[begin0]) == st0);
            if spans0.len() > 0 {
                assert(spans[0] == spans0[0]);
                assert(spans0[0].lo() == 0);
            } else {
                assert(begin0 == 0);
                assert(spans[0] == sp);
            }
            assert forall|j: int| 0 <= j < spans.len() implies #[trigger] spans[j].lo()
                < spans[j].hi() && spans[j].hi() <= b.len() && class_of(b[spans[j].lo() as int])
                == spans[j].kind() by {
                if j < spans0.len() {
                    assert(spans[j] == spans0[j]);
                }
            }
            assert forall|j: int| 0 <= j < spans.len() - 1 implies #[trigger] spans[j].hi()
                == spans[j + 1].lo() && spans[j].kind() != spans[j + 1].kind() by {
                assert(spans[j] == spans0[j]);
                if j + 1 < spans0.len() {
                    assert(spans[j + 1] == spans0[j + 1]);
                    assert(spans0[j].hi() == spans0[j + 1].lo());
                } else {
                    assert(spans0[j] == spans0.last());
                    assert(spans[j + 1] == sp);
                }
            }
            assert(begin == pos);
            assert(spans.len() > 0);
            assert(spans[0].lo() == 0);
            assert(spans.last().hi() == begin);
            assert(forall|j: int|
                0 <= j < spans.len() ==> #[trigger] spans[j].lo() < spans[j].hi() && spans[j].hi() <= b.len()
                    && class_of(b[spans[j].lo() as int]) == spans[j].kind());
            assert(forall|j: int|
                0 <= j < spans.len() - 1 ==> #[trigger] spans[j].hi() == spans[j + 1].lo() && spans[j].kind() != spans[j
                    + 1].kind());
            assert(chain(spans, b, begin));
        } else if st0 == ScanStatus::Init {
            assert(n - 1 == 0);
            assert(spans == spans0);
            assert(spans.len() == 0);
            assert(begin == pos);
            assert(chain(spans, b, begin));
        } else {
            assert(spans == spans0);
            assert(st == st0);
            assert(begin == begin0);
        }
    }
}

/// The spans of a buffer without escapes, before single spaces are left out.
proof fn lemma_raw_chain(b: Seq<u8>)
    requires
        has_no_escape(b),
        b.len() <= usize::MAX,
    ensures
        chain(raw_spans(b), b, b.len() as int),
{
    let n = b.len() as int;
    lemma_scan_chain(b, n);
    if n > 0 {
        let (spans, st, begin) = scan(b, n);
        let raw = raw_spans(b);
        let sp = make_span(st, begin, n);
        assert(raw == spans.push(sp));
        assert(sp.kind() == st);
        assert forall|j: int| 0 <= j < raw.len() implies #[trigger] raw[j].lo() < raw[j].hi()
            && raw[j].hi() <= b.len() && class_of(b[raw[j].lo() as int]) == raw[j].kind() by {
            if j < spans.len() {
                assert(raw[j] == spans[j]);
            }
        }
        assert forall|j: int| 0 <= j < raw.len() - 1 implies #[trigger] raw[j].hi() == raw[j
            + 1].lo() && raw[j].kind() != raw[j + 1].kind() by {
            assert(raw[j] == spans[j]);
            if j + 1 < spans.len() {
                assert(raw[j + 1] == spans[j + 1]);
                assert(spans[j].hi() == spans[j + 1].lo());
            } else {
                assert(spans[j] == spans.last());
                assert(raw[j + 1] == sp);
            }
        }
    }
}

proof fn lemma_keep_covers(s: Seq<InputSpan>, b: Seq<u8>, e: int)
    requires
        chain(s, b, e),
    ensures
        covers_but_single_spaces(keep_spans(s, b), b, e),
        s.len() > 0 && !is_single_space(s.last(), b) ==> keep_spans(s, b).len() > 0
            && keep_spans(s, b).last() == s.last(),
    decreases s.len(),
{
    if s.len() > 0 {
        let t = s.drop_last();
        let sp = s.last();
        let x = sp.lo() as int;
        lemma_chain_drop_last(s, b, e);
        lemma_keep_covers(t, b, x);
        let k0 = keep_spans(t, b);
        let k = keep_spans(s, b);
        if is_single_space(sp, b) {
            assert(k == k0);
            assert(sp.kind() == ScanStatus::Other);
            if t.len() > 0 {
                assert(t.last() == s[s.len() - 2]);
                assert(t.last().kind() != ScanStatus::Other);
                assert(!is_single_space(t.last(), b));
            }
        } else {
            assert(k == k0.push(sp));
            assert forall|j: int| 0 <= j < k.len() implies #[trigger] k[j].lo() < k[j].hi() by {
                if j < k0.len() {
                    assert(k[j] == k0[j]);
                }
            }
            assert forall|j: int| 0 <= j < k.len() - 1 implies gap_ok(
                b,
                #[trigger] k[j].hi() as int,
                k[j + 1].lo() as int,
            ) by {
                assert(k[j] == k0[j]);
                if j + 1 < k0.len() {
                    assert(k[j + 1] == k0[j + 1]);
                }
            }
        }
    }
}

/// Without escape blocks, the spans of `segment` come in order and cover the whole
/// buffer, except single spaces between them, which are left out.
pub proof fn lemma_segment_coverage(b: Seq<u8>)
    requires
        has_no_escape(b),
        b.len() <= usize::MAX,
    ensures
        covers_but_single_spaces(segment_spec(b), b, b.len() as int),
{
    lemma_raw_chain(b);
    lemma_keep_covers(raw_spans(b), b, b.len() as int);
}


proof fn lemma_escaped_until(b: Seq<u8>, i: int, k: int)
    requires
        0 <= i < k <= b.len() <= usize::MAX,
        b[i] == ESCAPE_OPEN,
        scan(b, i).1 != ScanStatus::Escaped,
        forall|m: int| i < m < k ==> b[m] != ESCAPE_CLOSE,
    ensures
        scan(b, k) == (scan(b, i + 1).0, ScanStatus::Escaped, i + 1),
    decreases k - i,
{
    if k > i + 1 {
        lemma_escaped_until(b, i, k - 1);
    }
}

/// An escape block opened by a `{` outside any block runs to the next `}` (or to the
/// end of the buffer): it adds exactly one `Other` span, holding the bytes between
/// the braces, after the spans closed before the `{`, which all end at or before it.
pub proof fn lemma_escape_block(b: Seq<u8>, i: int, j: int)
    requires
        0 <= i < j <= b.len() <= usize::MAX,
        b[i] == ESCAPE_OPEN,
        scan(b, i).1 != ScanStatus::Escaped,
        forall|m: int| i < m < j ==> b[m] != ESCAPE_CLOSE,
        j == b.len() || b[j] == ESCAPE_CLOSE,
    ensures
        forall|k: int|
            0 <= k < scan(b, i + 1).0.len() ==> #[trigger] scan(b, i + 1).0[k].hi() <= i,
        j < b.len() ==> scan(b, j + 1) == (
            scan(b, i + 1).0.push(InputSpan::Other { start: (i + 1) as usize, end: j as usize }),
            ScanStatus::Init,
            j + 1,
        ),
        j == b.len() && i + 1 < j ==> raw_spans(b) == scan(b, i + 1).0.push(
            InputSpan::Other { start: (i + 1) as usize, end: j as usize },
        ),
{
    lemma_escaped_until(b, i, j);
    lemma_scan_edges(b, i);
    let (spans0, st0, begin0) = scan(b, i);
    let spans = scan(b, i + 1).0;
    assert(scan(b, i + 1) == scan_step(scan(b, i), i, b[i]));
    assert forall|k: int| 0 <= k < spans.len() implies #[trigger] spans[k].hi() <= i by {
        if k < spans0.len() {
            assert(spans[k] == spans0[k]);
            assert(span_at_edges(spans0[k], b, i));
        }
    }
}

} // verus!
