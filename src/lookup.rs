//! Searching the dictionary corpus by kana, by kanji, or by English gloss.
use crate::dict::DictEntry;
use crate::query::KanjiQuery;
use crate::text::{chars_of, contains_seq, contains_str};
use vstd::prelude::*;

verus! {

/// The corpus indices below `n`, in order, of the entries that satisfy `p`.
pub open spec fn indices_where(corpus: Seq<DictEntry>, p: spec_fn(DictEntry) -> bool, n: int) -> Seq<
    usize,
>
    decreases n,
{
    if n <= 0 {
        seq![]
    } else {
        let prev = indices_where(corpus, p, n - 1);
        if p(corpus[n - 1]) {
            prev.push((n - 1) as usize)
        } else {
            prev
        }
    }
}

/// One of the entry's readings contains `kana`.
pub open spec fn reading_contains(e: DictEntry, kana: Seq<char>) -> bool {
    exists|i: int| 0 <= i < e.reading_elements@.len() && contains_seq(#[trigger] e.reading_elements@[i]@, kana)
}

/// One of the entry's written forms meets the query.
pub open spec fn kanji_matches(e: DictEntry, q: KanjiQuery) -> bool {
    exists|i: int| 0 <= i < e.kanji_elements@.len() && q.matches_spec(#[trigger] e.kanji_elements@[i]@)
}

/// One of the glosses of one of the entry's senses contains `text`.
pub open spec fn gloss_contains(e: DictEntry, text: Seq<char>) -> bool {
    exists|i: int, j: int|
        0 <= i < e.senses@.len() && 0 <= j < e.senses@[i].glosses@.len() && contains_seq(
            #[trigger] e.senses@[i].glosses@[j]@,
            text,
        )
}

/// The first gloss of the first sense; empty if there is none.
pub open spec fn first_gloss(e: DictEntry) -> Seq<char> {
    if e.senses@.len() > 0 && e.senses@[0].glosses@.len() > 0 {
        e.senses@[0].glosses@[0]@
    } else {
        seq![]
    }
}

/// `s` with `x` put after every item whose key (first component) is at most `x`'s.
pub open spec fn insert_stable(s: Seq<(usize, usize)>, x: (usize, usize)) -> Seq<(usize, usize)>
    decreases s.len(),
{
    if s.len() == 0 || s.last().0 <= x.0 {
        s.push(x)
    } else {
        insert_stable(s.drop_last(), x).push(s.last())
    }
}

/// `s` sorted by key, items of equal key in their order in `s`.
pub open spec fn sort_stable(s: Seq<(usize, usize)>) -> Seq<(usize, usize)>
    decreases s.len(),
{
    if s.len() == 0 {
        s
    } else {
        insert_stable(sort_stable(s.drop_last()), s.last())
    }
}

/// The least number of character insertions, deletions and substitutions that turn
/// `a` into `b`.
pub open spec fn edit_distance(a: Seq<char>, b: Seq<char>) -> nat
    decreases a.len() + b.len(),
{
    if a.len() == 0 {
        b.len()
    } else if b.len() == 0 {
        a.len()
    } else {
        let sub = edit_distance(a.drop_last(), b.drop_last()) + if a.last() == b.last() {
            0nat
        } else {
            1nat
        };
        let del = edit_distance(a.drop_last(), b) + 1;
        let ins = edit_distance(a, b.drop_last()) + 1;
        if sub <= del && sub <= ins {
            sub
        } else if del <= ins {
            del
        } else {
            ins
        }
    }
}

/// Relies on `strsim::levenshtein`: the Levenshtein distance between `a` and `b`,
/// counted over characters.
#[verifier::external_body]
fn levenshtein(a: &str, b: &str) -> (r: usize)
    ensures
        r == edit_distance(a@, b@),
{
    strsim::levenshtein(a, b)
}

proof fn lemma_insert_stable_at(s: Seq<(usize, usize)>, x: (usize, usize), p: int)
    requires
        0 <= p <= s.len(),
        p == 0 || s[p - 1].0 <= x.0,
        forall|j: int| p <= j < s.len() ==> (#[trigger] s[j]).0 > x.0,
    ensures
        insert_stable(s, x) == s.insert(p, x),
    decreases s.len(),
{
    if p == s.len() {
        assert(s.insert(p, x) =~= s.push(x));
    } else {
        let t = s.drop_last();
        assert(s.last().0 > x.0);
        assert forall|j: int| p <= j < t.len() implies (#[trigger] t[j]).0 > x.0 by {
            assert(t[j] == s[j]);
        }
        if p > 0 {
            assert(t[p - 1] == s[p - 1]);
        }
        lemma_insert_stable_at(t, x, p);
        assert(t.insert(p, x).push(s.last()) =~= s.insert(p, x));
    }
}

/// The second components of `candidates` sorted by their first, ties in input order.
pub fn sort_by_distance(candidates: &Vec<(usize, usize)>) -> (r: Vec<usize>)
    ensures
        r@ == sort_stable(candidates@).map_values(|c: (usize, usize)| c.1),
{
    let mut sorted: Vec<(usize, usize)> = Vec::new();
    let mut i: usize = 0;
    while i < candidates.len()
        invariant
            i <= candidates@.len(),
            sorted@ == sort_stable(candidates@.take(i as int)),
        decreases candidates.len() - i,
    {
        let x = candidates[i];
        let mut p = sorted.len();
        while p > 0 && sorted[p - 1].0 > x.0
            invariant
                p <= sorted@.len(),
                forall|j: int| p <= j < sorted@.len() ==> (#[trigger] sorted@[j]).0 > x.0,
            decreases p,
        {
            p = p - 1;
        }
        proof {
            lemma_insert_stable_at(sorted@, x, p as int);
            assert(candidates@.take(i + 1).drop_last() =~= candidates@.take(i as int));
        }
        sorted.insert(p, x);
        i = i + 1;
    }
    assert(candidates@.take(candidates@.len() as int) =~= candidates@);
    let mut out: Vec<usize> = Vec::new();
    let mut k: usize = 0;
    while k < sorted.len()
        invariant
            k <= sorted@.len(),
            out@ == sorted@.take(k as int).map_values(|c: (usize, usize)| c.1),
        decreases sorted.len() - k,
    {
        out.push(sorted[k].1);
        assert(sorted@.take(k + 1).map_values(|c: (usize, usize)| c.1) =~= out@);
        k = k + 1;
    }
    assert(sorted@.take(sorted@.len() as int) =~= sorted@);
    out
}

/// Some string of `v` contains `frag`.
fn any_contains(v: &Vec<String>, frag: &Vec<char>) -> (r: bool)
    ensures
        r == exists|i: int| 0 <= i < v@.len() && contains_seq(#[trigger] v@[i]@, frag@),
{
    let mut i: usize = 0;
    while i < v.len()
        invariant
            i <= v@.len(),
            forall|j: int| 0 <= j < i ==> !contains_seq(#[trigger] v@[j]@, frag@),
        decreases v.len() - i,
    {
        let s = chars_of(v[i].as_str());
        if contains_str(&s, frag) {
            return true;
        }
        i = i + 1;
    }
    false
}

/// The entries one of whose readings contains `kana`.
pub fn lookup_by_kana(corpus: &Vec<DictEntry>, kana: &str) -> (r: Vec<usize>)
    ensures
        r@ == indices_where(corpus@, |e: DictEntry| reading_contains(e, kana@), corpus@.len() as int),
{
    let frag = chars_of(kana);
    let mut out: Vec<usize> = Vec::new();
    let mut i: usize = 0;
    while i < corpus.len()
        invariant
            i <= corpus@.len(),
            frag@ == kana@,
            out@ == indices_where(corpus@, |e: DictEntry| reading_contains(e, kana@), i as int),
        decreases corpus.len() - i,
    {
        if any_contains(&corpus[i].reading_elements, &frag) {
            out.push(i);
        }
        i = i + 1;
    }
    out
}

/// The entries one of whose written forms meets `query`.
pub fn lookup_by_kanji(corpus: &Vec<DictEntry>, query: &KanjiQuery) -> (r: Vec<usize>)
    ensures
        r@ == indices_where(corpus@, |e: DictEntry| kanji_matches(e, *query), corpus@.len() as int),
{
    let mut out: Vec<usize> = Vec::new();
    let mut i: usize = 0;
    while i < corpus.len()
        invariant
            i <= corpus@.len(),
            out@ == indices_where(corpus@, |e: DictEntry| kanji_matches(e, *query), i as int),
        decreases corpus.len() - i,
    {
        let forms = &corpus[i].kanji_elements;
        let mut found = false;
        let mut j: usize = 0;
        while j < forms.len() && !found
            invariant
                i < corpus@.len(),
                forms == corpus@[i as int].kanji_elements,
                j <= forms@.len(),
                found ==> kanji_matches(corpus@[i as int], *query),
                !found ==> forall|m: int| 0 <= m < j ==> !query.matches_spec(#[trigger] forms@[m]@),
            decreases forms.len() - j,
        {
            if query.matches(forms[j].as_str()) {
                found = true;
            }
            j = j + 1;
        }
        if found {
            out.push(i);
        }
        i = i + 1;
    }
    out
}

/// The entries with a gloss that contains `query`, closest first gloss first: sorted
/// by the edit distance between `query` and the first gloss of the first sense, ties
/// in corpus order.
pub fn lookup_by_english(corpus: &Vec<DictEntry>, query: &str) -> (r: Vec<usize>)
    ensures
        r@ == sort_stable(
            indices_where(corpus@, |e: DictEntry| gloss_contains(e, query@), corpus@.len() as int).map_values(
                |i: usize| (edit_distance(query@, first_gloss(corpus@[i as int])) as usize, i),
            ),
        ).map_values(|c: (usize, usize)| c.1),
{
    let frag = chars_of(query);
    let ghost matching = |e: DictEntry| gloss_contains(e, query@);
    let ghost key = |i: usize| (edit_distance(query@, first_gloss(corpus@[i as int])) as usize, i);
    let mut candidates: Vec<(usize, usize)> = Vec::new();
    let mut i: usize = 0;
    while i < corpus.len()
        invariant
            i <= corpus@.len(),
            frag@ == query@,
            matching == (|e: DictEntry| gloss_contains(e, query@)),
            key == (|i: usize| (edit_distance(query@, first_gloss(corpus@[i as int])) as usize, i)),
            candidates@ == indices_where(corpus@, matching, i as int).map_values(key),
        decreases corpus.len() - i,
    {
        let senses = &corpus[i].senses;
        let mut found = false;
        let mut j: usize = 0;
        while j < senses.len() && !found
            invariant
                i < corpus@.len(),
                senses == corpus@[i as int].senses,
                frag@ == query@,
                j <= senses@.len(),
                found ==> gloss_contains(corpus@[i as int], query@),
                !found ==> forall|a: int, b: int|
                    0 <= a < j && 0 <= b < senses@[a].glosses@.len() ==> !contains_seq(
                        #[trigger] senses@[a].glosses@[b]@,
                        query@,
                    ),
            decreases senses.len() - j,
        {
            if any_contains(&senses[j].glosses, &frag) {
                found = true;
            }
            j = j + 1;
        }
        let ghost before = candidates@;
        if found {
            let first = if senses.len() > 0 && senses[0].glosses.len() > 0 {
                levenshtein(query, senses[0].glosses[0].as_str())
            } else {
                levenshtein(query, "")
            };
            proof {
                if !(senses@.len() > 0 && senses@[0].glosses@.len() > 0) {
                    assert(""@ =~= Seq::<char>::empty()) by {
                        reveal_strlit("");
                    }
                }
            }
            candidates.push((first, i));
            assert(candidates@ =~= indices_where(corpus@, matching, i + 1).map_values(key));
        } else {
            assert(candidates@ =~= indices_where(corpus@, matching, i + 1).map_values(key));
        }
        i = i + 1;
    }
    sort_by_distance(&candidates)
}

} // verus!
