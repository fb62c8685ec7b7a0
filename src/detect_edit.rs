//! Keeping per-span annotations attached to their spans across an edit.
use std::collections::HashMap;
use vstd::prelude::*;
use vstd::std_specs::cmp::PartialEqSpec;
use vstd::std_specs::hash::spec_keys_iter;
use vstd::std_specs::iter::IteratorSpec;

verus! {

broadcast use vstd::std_specs::hash::group_hash_axioms;

/// The first `p` items of `old` and `new` are pairwise equal, and item `p` differs
/// where both have one.
pub open spec fn is_common_prefix_len<T: PartialEq>(old: Seq<T>, new: Seq<T>, p: int) -> bool {
    &&& 0 <= p <= old.len()
    &&& p <= new.len()
    &&& forall|i: int| 0 <= i < p ==> (#[trigger] old[i]).eq_spec(&new[i])
    &&& (p < old.len() && p < new.len()) ==> !old[p].eq_spec(&new[p])
}

/// The length of the longest common prefix of `old` and `new`.
pub open spec fn common_prefix_len<T: PartialEq>(old: Seq<T>, new: Seq<T>) -> int
    decreases old.len(),
{
    if old.len() == 0 || new.len() == 0 || !old[0].eq_spec(&new[0]) {
        0
    } else {
        1 + common_prefix_len(old.drop_first(), new.drop_first())
    }
}

proof fn lemma_common_prefix_len<T: PartialEq>(old: Seq<T>, new: Seq<T>, p: int)
    requires
        is_common_prefix_len(old, new, p),
    ensures
        p == common_prefix_len(old, new),
    decreases old.len(),
{
    if p > 0 {
        assert(old[0].eq_spec(&new[0]));
        assert forall|i: int| 0 <= i < p - 1 implies (#[trigger] old.drop_first()[i]).eq_spec(
            &new.drop_first()[i],
        ) by {
            assert(old[i + 1].eq_spec(&new[i + 1]));
        }
        lemma_common_prefix_len(old.drop_first(), new.drop_first(), p - 1);
    }
}

/// The map after an edit of `extent` spans at `pos`, with `new_len` spans after it:
/// keys below `pos` stay; every other key moves by `extent` when it lands on a span,
/// unless a key that stays is already there; the rest are dropped.
pub open spec fn remapped<V>(m: Map<usize, V>, pos: int, extent: int, new_len: int) -> Map<
    usize,
    V,
> {
    Map::new(
        |j: usize| stays(m, pos, j) || moves_to(m, pos, extent, new_len, j),
        |j: usize|
            if stays(m, pos, j) {
                m[j]
            } else {
                m[(j - extent) as usize]
            },
    )
}

/// Key `j` is below `pos` and in the map.
pub open spec fn stays<V>(m: Map<usize, V>, pos: int, j: usize) -> bool {
    j < pos && m.contains_key(j)
}

/// Key `j - extent` moves to `j`.
pub open spec fn moves_to<V>(m: Map<usize, V>, pos: int, extent: int, new_len: int, j: usize) -> bool {
    &&& !stays(m, pos, j)
    &&& j < new_len
    &&& pos <= j - extent <= usize::MAX
    &&& m.contains_key((j - extent) as usize)
}

/// Detects where `new` inserted or deleted items compared to `old`, assuming a single
/// point of edit. Returns the length of the common prefix and the change in length.
pub fn detect_edit<T: PartialEq>(old: &[T], new: &[T]) -> (r: (usize, isize))
    requires
        old@.len() <= isize::MAX,
        new@.len() <= isize::MAX,
    ensures
        r.0 <= old@.len(),
        r.0 <= new@.len(),
        r.1 == new@.len() - old@.len(),
        T::obeys_eq_spec() ==> is_common_prefix_len(old@, new@, r.0 as int),
        T::obeys_eq_spec() ==> r.0 == common_prefix_len(old@, new@),
{
    let mut pos: usize = 0;
    let mut differs = false;
    while !differs && pos < old.len() && pos < new.len()
        invariant
            pos <= old@.len(),
            pos <= new@.len(),
            T::obeys_eq_spec() ==> forall|i: int| 0 <= i < pos ==> (#[trigger] old@[i]).eq_spec(&new@[i]),
            differs ==> pos < old@.len() && pos < new@.len() && (T::obeys_eq_spec() ==> !old@[pos as int].eq_spec(&new@[pos as int])),
        decreases old@.len() - pos, if differs { 0int } else { 1int },
    {
        if old[pos] == new[pos] {
            pos = pos + 1;
        } else {
            differs = true;
        }
    }
    proof {
        if T::obeys_eq_spec() {
            lemma_common_prefix_len(old@, new@, pos as int);
        }
    }
    (pos, new.len() as isize - old.len() as isize)
}

/// Moves the keys of `map` at or past `pos` by `extent`, as `remapped` says.
pub fn update_index_map<V>(map: &mut HashMap<usize, V>, pos: usize, extent: isize, new_len: usize)
    ensures
        final(map)@ == remapped(old(map)@, pos as int, extent as int, new_len as int),
{
    let ghost m0 = map@;
    let mut keys: Vec<usize> = Vec::new();
    for k in it: map.keys()
        invariant
            it.seq() == spec_keys_iter(map).remaining(),
            keys@.len() == it.index(),
            keys@ == spec_keys_iter(map).remaining().unref().take(keys@.len() as int),
    {
        keys.push(*k);
        assert(keys@ =~= spec_keys_iter(map).remaining().unref().take(keys@.len() as int));
    }
    assert(keys@ =~= spec_keys_iter(map).remaining().unref());
    assert(keys@.to_set() == m0.dom());
    assert(keys@.no_duplicates());
    let ghost ks = keys@;
    let mut out: HashMap<usize, V> = HashMap::new();
    // Keys below `pos` stay where they are.
    let ghost mut done: Set<usize> = Set::empty();
    let mut i: usize = 0;
    while i < keys.len()
        invariant
            keys@ == ks,
            ks.to_set() == m0.dom(),
            ks.no_duplicates(),
            i <= ks.len(),
            forall|j: int| i <= j < ks.len() ==> !done.contains(#[trigger] ks[j]),
            forall|j: int| 0 <= j < i ==> done.contains(#[trigger] ks[j]),
            forall|k: usize| done.contains(k) ==> m0.contains_key(k),
            forall|k: usize|
                #[trigger] m0.contains_key(k) && !(k < pos && done.contains(k)) ==> map@.contains_key(k)
                    && map@[k] == m0[k],
            out@ == Map::new(|k: usize| stays(m0, pos as int, k) && done.contains(k), |k: usize| m0[k]),
        decreases keys.len() - i,
    {
        let k = keys[i];
        assert(ks.to_set().contains(ks[i as int]));
        if k < pos {
            match map.remove(&k) {
                Some(v) => {
                    out.insert(k, v);
                },
                None => {},
            }
        }
        proof {
            done = done.insert(k);
            assert forall|j: int| i + 1 <= j < ks.len() implies !done.contains(#[trigger] ks[j]) by {
                assert(ks[j] != ks[i as int]);
            }
        }
        assert(out@ =~= Map::new(|k: usize| stays(m0, pos as int, k) && done.contains(k), |k: usize| m0[k]));
        i = i + 1;
    }
    assert(done =~= m0.dom()) by {
        assert forall|k: usize| m0.contains_key(k) implies done.contains(k) by {
            assert(ks.to_set().contains(k));
            let j = choose|j: int| 0 <= j < ks.len() && ks[j] == k;
        }
    }
    // The other keys move by `extent`, onto a span and not onto a key that stayed.
    let ghost mut moved: Set<usize> = Set::empty();
    let mut i: usize = 0;
    while i < keys.len()
        invariant
            keys@ == ks,
            ks.to_set() == m0.dom(),
            ks.no_duplicates(),
            i <= ks.len(),
            forall|j: int| i <= j < ks.len() ==> !moved.contains(#[trigger] ks[j]),
            forall|j: int| 0 <= j < i ==> moved.contains(#[trigger] ks[j]),
            forall|k: usize| moved.contains(k) ==> m0.contains_key(k),
            forall|k: usize|
                #[trigger] m0.contains_key(k) && k >= pos && !moved.contains(k) ==> map@.contains_key(k)
                    && map@[k] == m0[k],
            out@ == Map::new(
                |j: usize|
                    stays(m0, pos as int, j) || (moves_to(m0, pos as int, extent as int, new_len as int, j)
                        && moved.contains((j - extent) as usize)),
                |j: usize|
                    if stays(m0, pos as int, j) {
                        m0[j]
                    } else {
                        m0[(j - extent) as usize]
                    },
            ),
        decreases keys.len() - i,
    {
        let k = keys[i];
        assert(ks.to_set().contains(ks[i as int]));
        if k >= pos {
            let target: Option<usize> = if extent >= 0 {
                k.checked_add(extent as usize)
            } else {
                let d = (0 - (extent + 1)) as usize + 1;
                if k >= d {
                    Some(k - d)
                } else {
                    None
                }
            };
            match map.remove(&k) {
                Some(v) => {
                    match target {
                        Some(t) => {
                            if t < new_len && !out.contains_key(&t) {
                                out.insert(t, v);
                            }
                        },
                        None => {},
                    }
                },
                None => {},
            }
        }
        proof {
            moved = moved.insert(k);
            assert forall|j: int| i + 1 <= j < ks.len() implies !moved.contains(#[trigger] ks[j]) by {
                assert(ks[j] != ks[i as int]);
            }
        }
        assert(out@ =~= Map::new(
            |j: usize|
                stays(m0, pos as int, j) || (moves_to(m0, pos as int, extent as int, new_len as int, j)
                    && moved.contains((j - extent) as usize)),
            |j: usize|
                if stays(m0, pos as int, j) {
                    m0[j]
                } else {
                    m0[(j - extent) as usize]
                },
        ));
        i = i + 1;
    }
    assert(moved =~= m0.dom()) by {
        assert forall|k: usize| m0.contains_key(k) implies moved.contains(k) by {
            assert(ks.to_set().contains(k));
            let j = choose|j: int| 0 <= j < ks.len() && ks[j] == k;
        }
    }
    assert(out@ =~= remapped(m0, pos as int, extent as int, new_len as int));
    *map = out;
}

/// Detects the edit from `before` to `after` and, where the length changed, moves the keys
/// of `map` with it.
pub fn detect_edit_update_index_map<T: PartialEq, V>(map: &mut HashMap<usize, V>, before: &[T], after: &[T])
    requires
        before@.len() <= isize::MAX,
        after@.len() <= isize::MAX,
    ensures
        before@.len() == after@.len() ==> final(map)@ == old(map)@,
        before@.len() != after@.len() && T::obeys_eq_spec() ==> final(map)@ == remapped(
            old(map)@,
            common_prefix_len(before@, after@),
            after@.len() - before@.len(),
            after@.len() as int,
        ),
{
    let (pos, extent) = detect_edit(before, after);
    if extent != 0 {
        update_index_map(map, pos, extent, after.len());
    }
}

} // verus!
