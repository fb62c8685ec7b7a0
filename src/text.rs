use vstd::prelude::*;

verus! {

/// The characters of `s`, in order.
pub fn chars_of(s: &str) -> (r: Vec<char>)
    ensures
        r@ == s@,
{
    let mut r: Vec<char> = Vec::new();
    for c in it: s.chars()
        invariant
            r@ == it.seq().take(it.index() as int),
            it.seq() == s@,
    {
        r.push(c);
    }
    r
}

/// The views of a sequence of strings.
pub open spec fn strings_view(v: Seq<String>) -> Seq<Seq<char>> {
    v.map_values(|s: String| s@)
}

/// The pieces of `s` between occurrences of `sep`, as `str::split` gives them: one
/// more piece than there are separators.
pub open spec fn split_on(s: Seq<char>, sep: char) -> Seq<Seq<char>>
    decreases s.len(),
{
    if s.len() == 0 {
        seq![Seq::empty()]
    } else {
        let r = split_on(s.drop_last(), sep);
        if s.last() == sep {
            r.push(Seq::empty())
        } else {
            r.update(r.len() - 1, r.last().push(s.last()))
        }
    }
}

/// `s` contains `frag` as a contiguous part.
pub open spec fn contains_seq(s: Seq<char>, frag: Seq<char>) -> bool {
    exists|i: int| 0 <= i <= s.len() - frag.len() && #[trigger] s.subrange(i, i + frag.len()) == frag
}

/// Splits `s` at each `sep`.
pub fn split_on_char(s: &str, sep: char) -> (r: Vec<String>)
    ensures
        strings_view(r@) == split_on(s@, sep),
{
    let chars = chars_of(s);
    let mut fields: Vec<String> = Vec::new();
    let mut cur = String::new();
    let mut i: usize = 0;
    assert(chars@.take(0) =~= Seq::<char>::empty());
    assert(strings_view(fields@).push(cur@) =~= split_on(Seq::<char>::empty(), sep));
    while i < chars.len()
        invariant
            i <= chars@.len(),
            chars@ == s@,
            strings_view(fields@).push(cur@) == split_on(chars@.take(i as int), sep),
        decreases chars.len() - i,
    {
        let c = chars[i];
        let ghost prefix = chars@.take(i + 1);
        assert(prefix.drop_last() =~= chars@.take(i as int));
        if c == sep {
            fields.push(cur);
            cur = String::new();
            assert(strings_view(fields@).push(cur@) =~= split_on(prefix, sep));
        } else {
            let ghost before = strings_view(fields@).push(cur@);
            push_char(&mut cur, c);
            assert(strings_view(fields@).push(cur@) =~= before.update(
                before.len() - 1,
                before.last().push(c),
            ));
        }
        i = i + 1;
    }
    assert(chars@.take(chars@.len() as int) =~= chars@);
    fields.push(cur);
    assert(strings_view(fields@) =~= split_on(s@, sep));
    fields
}

/// `s` contains `frag`.
pub fn contains_str(s: &Vec<char>, frag: &Vec<char>) -> (r: bool)
    ensures
        r == contains_seq(s@, frag@),
{
    if frag.len() > s.len() {
        return false;
    }
    let mut i: usize = 0;
    while i <= s.len() - frag.len()
        invariant
            frag@.len() <= s@.len(),
            forall|k: int| 0 <= k < i ==> #[trigger] s@.subrange(k, k + frag@.len()) != frag@,
        decreases s.len() - frag.len() + 1 - i,
    {
        let mut j: usize = 0;
        let mut same = true;
        while j < frag.len()
            invariant
                frag@.len() <= s@.len(),
                i <= s@.len() - frag@.len(),
                j <= frag@.len(),
                same == (forall|m: int| 0 <= m < j ==> s@[i + m] == frag@[m]),
            decreases frag.len() - j,
        {
            let n = s.len();
            assert(i + j < n);
            if s[i + j] != frag[j] {
                same = false;
            }
            j = j + 1;
        }
        if same {
            assert(s@.subrange(i as int, i + frag@.len()) =~= frag@);
            return true;
        }
        assert(s@.subrange(i as int, i + frag@.len()) != frag@) by {
            let m = choose|m: int| 0 <= m < frag@.len() && s@[i + m] != frag@[m];
            assert(s@.subrange(i as int, i + frag@.len())[m] != frag@[m]);
        }
        i = i + 1;
    }
    false
}

/// The character is in the hiragana block.
pub fn char_is_hiragana(ch: char) -> (r: bool)
    ensures
        r == (0x3040 <= (ch as u32) < 0x309F),
{
    0x3040 <= (ch as u32) && (ch as u32) < 0x309F
}

/// Relies on `String::push`: appends the character at the end.
#[verifier::external_body]
pub fn push_char(s: &mut String, c: char)
    ensures
        final(s)@ == old(s)@.push(c),
{
    s.push(c)
}

} // verus!
