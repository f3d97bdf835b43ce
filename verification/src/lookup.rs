//! Searching a sequence for the first element that satisfies a predicate.
//!
//! The registries of this crate keep their entries in insertion order and
//! address them by a key. "The entry with key k" always means the first one
//! in the sequence; `first_match` is the index of that entry, or the length
//! of the sequence when there is none.

use vstd::prelude::*;

verus! {

/// `i` is the index of the first element of `s` satisfying `p`, or `s.len()`
/// when none does.
pub open spec fn is_first_match<T>(s: Seq<T>, p: spec_fn(T) -> bool, i: int) -> bool {
    &&& 0 <= i <= s.len()
    &&& i < s.len() ==> p(s[i])
    &&& forall|j: int| 0 <= j < i ==> !p(#[trigger] s[j])
}

/// The index of the first element of `s` satisfying `p`; `s.len()` if there
/// is none.
pub open spec fn first_match<T>(s: Seq<T>, p: spec_fn(T) -> bool) -> int {
    choose|i: int| is_first_match(s, p, i)
}

/// An index with the defining property is the first match.
pub proof fn lemma_first_match_unique<T>(s: Seq<T>, p: spec_fn(T) -> bool, i: int)
    requires
        is_first_match(s, p, i),
    ensures
        first_match(s, p) == i,
{
    let k = first_match(s, p);
    assert(is_first_match(s, p, k));
    if k < i {
        assert(!p(s[k]));
    } else if i < k {
        assert(!p(s[i]));
    }
}

/// Every sequence has a first match (possibly its length).
pub proof fn lemma_first_match_exists<T>(s: Seq<T>, p: spec_fn(T) -> bool)
    ensures
        is_first_match(s, p, first_match(s, p)),
    decreases s.len(),
{
    if s.len() == 0 {
        assert(is_first_match(s, p, 0));
    } else {
        let t = s.drop_last();
        lemma_first_match_exists(t, p);
        let k = first_match(t, p);
        if k < t.len() {
            assert(s[k] == t[k]);
            assert forall|j: int| 0 <= j < k implies !p(#[trigger] s[j]) by {
                assert(s[j] == t[j]);
            }
            assert(is_first_match(s, p, k));
        } else {
            assert forall|j: int| 0 <= j < t.len() implies !p(#[trigger] s[j]) by {
                assert(s[j] == t[j]);
            }
            if p(s.last()) {
                assert(is_first_match(s, p, s.len() - 1));
            } else {
                assert(is_first_match(s, p, s.len() as int));
            }
        }
    }
}

/// When no element satisfies `p`, the first match is the length.
pub proof fn lemma_no_match<T>(s: Seq<T>, p: spec_fn(T) -> bool)
    requires
        forall|j: int| 0 <= j < s.len() ==> !p(#[trigger] s[j]),
    ensures
        first_match(s, p) == s.len(),
{
    assert(is_first_match(s, p, s.len() as int));
    lemma_first_match_unique(s, p, s.len() as int);
}

/// One more element taken: the filtered prefix grows by that element or
/// stays as it is.
pub proof fn lemma_filter_step<T>(s: Seq<T>, p: spec_fn(T) -> bool, i: int)
    requires
        0 <= i < s.len(),
    ensures
        s.take(i + 1).filter(p) == if p(s[i]) {
            s.take(i).filter(p).push(s[i])
        } else {
            s.take(i).filter(p)
        },
{
    s.lemma_take_succ_push(i);
    s.take(i).lemma_filter_push(s[i], p);
}

/// A filter that every element passes changes nothing.
pub proof fn lemma_filter_all<T>(s: Seq<T>, p: spec_fn(T) -> bool)
    requires
        forall|j: int| 0 <= j < s.len() ==> p(#[trigger] s[j]),
    ensures
        s.filter(p) == s,
    decreases s.len(),
{
    reveal(Seq::filter);
    if s.len() > 0 {
        let t = s.drop_last();
        assert forall|j: int| 0 <= j < t.len() implies p(#[trigger] t[j]) by {
            assert(t[j] == s[j]);
        }
        lemma_filter_all(t, p);
        assert(t.push(s.last()) =~= s);
    }
}

/// What a filter keeps was there before.
pub proof fn lemma_filter_source<T>(s: Seq<T>, p: spec_fn(T) -> bool, i: int) -> (j: int)
    requires
        0 <= i < s.filter(p).len(),
    ensures
        0 <= j < s.len(),
        s[j] == s.filter(p)[i],
        p(s[j]),
    decreases s.len(),
{
    reveal(Seq::filter);
    let t = s.drop_last();
    if p(s.last()) && i == t.filter(p).len() {
        s.len() - 1
    } else {
        let j = lemma_filter_source(t, p, i);
        assert(t[j] == s[j]);
        j
    }
}

/// No two elements of `s` have the same key.
pub open spec fn distinct_by<T, K>(s: Seq<T>, key: spec_fn(T) -> K) -> bool {
    forall|i: int, j: int| 0 <= i < j < s.len() ==> key(#[trigger] s[i]) != key(#[trigger] s[j])
}

/// Filtering keeps keys distinct.
pub proof fn lemma_filter_keeps_distinct<T, K>(
    s: Seq<T>,
    key: spec_fn(T) -> K,
    p: spec_fn(T) -> bool,
)
    requires
        distinct_by(s, key),
    ensures
        distinct_by(s.filter(p), key),
    decreases s.len(),
{
    reveal(Seq::filter);
    if s.len() > 0 {
        let t = s.drop_last();
        assert forall|i: int, j: int| 0 <= i < j < t.len() implies key(#[trigger] t[i]) != key(
            #[trigger] t[j],
        ) by {
            assert(t[i] == s[i] && t[j] == s[j]);
        }
        lemma_filter_keeps_distinct(t, key, p);
        let f = s.filter(p);
        let g = t.filter(p);
        if p(s.last()) {
            assert forall|i: int, j: int| 0 <= i < j < f.len() implies key(#[trigger] f[i]) != key(
                #[trigger] f[j],
            ) by {
                if j < g.len() {
                    assert(f[i] == g[i] && f[j] == g[j]);
                } else {
                    let k = lemma_filter_source(t, p, i);
                    assert(f[i] == g[i]);
                    assert(t[k] == s[k]);
                    assert(key(s[k]) != key(s[s.len() - 1]));
                }
            }
        }
    }
}

/// The element's key is `k`.
pub open spec fn keyed<T, K>(key: spec_fn(T) -> K, k: K) -> spec_fn(T) -> bool {
    |x: T| key(x) == k
}

/// The first element filed under `k`, if there is one.
pub open spec fn entry<T, K>(s: Seq<T>, key: spec_fn(T) -> K, k: K) -> Option<T> {
    let i = first_match(s, keyed(key, k));
    if i < s.len() {
        Some(s[i])
    } else {
        None
    }
}

/// `s` with `v` filed under its key: in the place of the first element that
/// has this key, or at the end when there is none.
pub open spec fn put<T, K>(s: Seq<T>, key: spec_fn(T) -> K, v: T) -> Seq<T> {
    let i = first_match(s, keyed(key, key(v)));
    if i < s.len() {
        s.update(i, v)
    } else {
        s.push(v)
    }
}

/// After `put`, the key of `v` leads to `v`, and every other key leads to
/// what it led to before.
pub proof fn lemma_put_entry<T, K>(s: Seq<T>, key: spec_fn(T) -> K, v: T, k: K)
    ensures
        entry(put(s, key, v), key, k) == if k == key(v) {
            Some(v)
        } else {
            entry(s, key, k)
        },
{
    let t = put(s, key, v);
    let i = first_match(s, keyed(key, key(v)));
    let j = first_match(s, keyed(key, k));
    lemma_first_match_exists(s, keyed(key, key(v)));
    lemma_first_match_exists(s, keyed(key, k));
    if k == key(v) {
        assert forall|x: int| 0 <= x < i implies !keyed(key, k)(#[trigger] t[x]) by {
            assert(t[x] == s[x]);
        }
        assert(is_first_match(t, keyed(key, k), i));
        lemma_first_match_unique(t, keyed(key, k), i);
    } else {
        if j < s.len() {
            assert(j != i);
            assert(t[j] == s[j]);
            assert forall|x: int| 0 <= x < j implies !keyed(key, k)(#[trigger] t[x]) by {
                if x != i {
                    assert(t[x] == s[x]);
                }
            }
            assert(is_first_match(t, keyed(key, k), j));
            lemma_first_match_unique(t, keyed(key, k), j);
        } else {
            assert forall|x: int| 0 <= x < t.len() implies !keyed(key, k)(#[trigger] t[x]) by {
                if x != i {
                    assert(t[x] == s[x]);
                }
            }
            lemma_no_match(t, keyed(key, k));
        }
    }
}

/// `put` keeps keys distinct.
pub proof fn lemma_put_distinct<T, K>(s: Seq<T>, key: spec_fn(T) -> K, v: T)
    requires
        distinct_by(s, key),
    ensures
        distinct_by(put(s, key, v), key),
{
    let t = put(s, key, v);
    let i = first_match(s, keyed(key, key(v)));
    lemma_first_match_exists(s, keyed(key, key(v)));
    assert forall|a: int, b: int| 0 <= a < b < t.len() implies key(#[trigger] t[a]) != key(
        #[trigger] t[b],
    ) by {
        if i < s.len() {
            assert(key(t[i]) == key(s[i]));
            assert(key(t[a]) == key(s[a]));
            assert(key(t[b]) == key(s[b]));
        } else {
            if b < s.len() {
                assert(t[a] == s[a] && t[b] == s[b]);
            } else {
                assert(t[a] == s[a]);
                assert(!keyed(key, key(v))(s[a]));
            }
        }
    }
}

/// A copy of a vector of plain values.
pub fn copy_vec<T: Copy>(v: &Vec<T>) -> (copy: Vec<T>)
    ensures
        copy@ == v@,
{
    let mut copy: Vec<T> = Vec::new();
    let mut i: usize = 0;
    while i < v.len()
        invariant
            0 <= i <= v.len(),
            copy@ == v@.take(i as int),
        decreases v.len() - i,
    {
        copy.push(v[i]);
        assert(v@.take(i + 1) =~= v@.take(i as int).push(v@[i as int]));
        i += 1;
    }
    assert(v@.take(i as int) =~= v@);
    copy
}

/// Every element of `s` satisfies `p`.
pub open spec fn all_are<T>(s: Seq<T>, p: spec_fn(T) -> bool) -> bool {
    forall|i: int| 0 <= i < s.len() ==> p(#[trigger] s[i])
}

/// `put` of an element that satisfies `p` keeps `p` true of all.
pub proof fn lemma_put_all<T, K>(s: Seq<T>, key: spec_fn(T) -> K, v: T, p: spec_fn(T) -> bool)
    requires
        all_are(s, p),
        p(v),
    ensures
        all_are(put(s, key, v), p),
{
    let t = put(s, key, v);
    let i = first_match(s, keyed(key, key(v)));
    lemma_first_match_exists(s, keyed(key, key(v)));
    assert forall|j: int| 0 <= j < t.len() implies p(#[trigger] t[j]) by {
        if j != i {
            assert(t[j] == s[j]);
        }
    }
}

/// What is filed in a sequence whose elements all satisfy `p` satisfies `p`.
pub proof fn lemma_entry_all<T, K>(s: Seq<T>, key: spec_fn(T) -> K, k: K, p: spec_fn(T) -> bool)
    requires
        all_are(s, p),
    ensures
        match entry(s, key, k) {
            Some(x) => p(x),
            None => true,
        },
{
    lemma_first_match_exists(s, keyed(key, k));
}

/// Filtering keeps `p` true of all.
pub proof fn lemma_filter_keeps_all<T>(s: Seq<T>, keep: spec_fn(T) -> bool, p: spec_fn(T) -> bool)
    requires
        all_are(s, p),
    ensures
        all_are(s.filter(keep), p),
{
    let kept = s.filter(keep);
    assert forall|i: int| 0 <= i < kept.len() implies p(#[trigger] kept[i]) by {
        let j = lemma_filter_source(s, keep, i);
    }
}

} // verus!
