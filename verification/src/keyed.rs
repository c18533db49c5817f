//! Small string-keyed tables kept as vectors of pairs.  A key's entry is its
//! first occurrence; `put` replaces it in place or appends a new one.
use vstd::prelude::*;

use crate::text::str_eq;

verus! {

/// The value of the first entry of `v` with key `k`.
pub open spec fn lookup<T>(v: Seq<(String, T)>, k: Seq<char>) -> Option<T>
    decreases v.len(),
{
    if v.len() == 0 {
        None
    } else {
        match lookup(v.drop_last(), k) {
            Some(x) => Some(x),
            None => if v.last().0@ == k { Some(v.last().1) } else { None },
        }
    }
}

/// A key found in a prefix is found, with the same value, in the whole.
pub proof fn lemma_lookup_prefix<T>(v: Seq<(String, T)>, k: Seq<char>, n: int)
    requires
        0 <= n <= v.len(),
        lookup(v.take(n), k) is Some,
    ensures
        lookup(v, k) == lookup(v.take(n), k),
    decreases v.len() - n,
{
    if n < v.len() {
        let m = n + 1;
        assert(v.take(m).drop_last() == v.take(n));
        lemma_lookup_prefix(v, k, m);
    } else {
        assert(v.take(n) == v);
    }
}

/// A key absent from a whole sequence is absent from its entries one by one.
pub proof fn lemma_lookup_none<T>(v: Seq<(String, T)>, k: Seq<char>, i: int)
    requires
        lookup(v, k) is None,
        0 <= i < v.len(),
    ensures
        v[i].0@ != k,
    decreases v.len(),
{
    if i < v.len() - 1 {
        lemma_lookup_none(v.drop_last(), k, i);
    }
}

/// Where the first entry with key `k` is: its index with the value found,
/// or `None` when no entry has that key.
pub fn find_key<T>(v: &Vec<(String, T)>, k: &str) -> (r: Option<usize>)
    ensures
        match r {
            Some(i) => i < v@.len() && v@[i as int].0@ == k@ && lookup(v@, k@) == Some(v@[i as int].1)
                && forall|j: int| 0 <= j < i ==> v@[j].0@ != k@,
            None => lookup(v@, k@) is None,
        },
{
    let mut i: usize = 0;
    while i < v.len()
        invariant
            i <= v@.len(),
            lookup(v@.take(i as int), k@) is None,
            forall|j: int| 0 <= j < i ==> v@[j].0@ != k@,
        decreases v.len() - i,
    {
        assert(v@.take(i + 1).drop_last() == v@.take(i as int));
        if str_eq(v[i].0.as_str(), k) {
            proof {
                lemma_lookup_prefix(v@, k@, i + 1);
            }
            return Some(i);
        }
        i = i + 1;
    }
    assert(v@.take(v@.len() as int) == v@);
    None
}

/// Appending an entry for a key not yet present makes it found with that
/// value and leaves other keys as they were.
pub proof fn lemma_lookup_push<T>(v: Seq<(String, T)>, e: (String, T), k: Seq<char>)
    ensures
        lookup(v.push(e), k) == (match lookup(v, k) {
            Some(x) => Some(x),
            None => if e.0@ == k { Some(e.1) } else { None },
        }),
{
    assert(v.push(e).drop_last() == v);
}

/// Replacing the value of the first entry of key `k` at index `i` changes
/// only what `k` finds.
pub proof fn lemma_lookup_update<T>(v: Seq<(String, T)>, i: int, e: (String, T), k: Seq<char>)
    requires
        0 <= i < v.len(),
        e.0@ == v[i].0@,
        forall|j: int| 0 <= j < i ==> v[j].0@ != v[i].0@,
    ensures
        lookup(v.update(i, e), k) == (if k == e.0@ { Some(e.1) } else { lookup(v, k) }),
    decreases v.len(),
{
    let w = v.update(i, e);
    if i == v.len() - 1 {
        assert(w.drop_last() == v.drop_last());
        if k == e.0@ {
            lemma_lookup_none_before(v, i, k);
        }
    } else {
        assert(w.drop_last() == v.drop_last().update(i, e));
        lemma_lookup_update(v.drop_last(), i, e, k);
    }
}

/// When no entry before `i` has key `k`, nothing in `v.take(i)` is found.
pub proof fn lemma_lookup_none_before<T>(v: Seq<(String, T)>, i: int, k: Seq<char>)
    requires
        0 <= i <= v.len(),
        forall|j: int| 0 <= j < i ==> v[j].0@ != k,
    ensures
        lookup(v.take(i), k) is None,
    decreases i,
{
    if i > 0 {
        assert(v.take(i).drop_last() == v.take(i - 1));
        lemma_lookup_none_before(v, i - 1, k);
    }
    if i == v.len() {
        assert(v.take(i) == v);
    }
}

/// No two entries of `v` share a key.
pub open spec fn distinct_keys<T>(v: Seq<(String, T)>) -> bool {
    forall|i: int, j: int| #![trigger v[i], v[j]] 0 <= i < j < v.len() ==> v[i].0@ != v[j].0@
}

/// Sets the value of key `k` to `x`: in place when the key is present,
/// appended otherwise.  Other keys keep their values, and a table whose keys
/// are distinct stays so.
pub fn put<T>(v: &mut Vec<(String, T)>, k: String, x: T)
    ensures
        forall|q: Seq<char>| #[trigger] lookup(final(v)@, q) == (if q == k@ { Some(x) } else { lookup(old(v)@, q) }),
        distinct_keys(old(v)@) ==> distinct_keys(final(v)@),
{
    match find_key(v, k.as_str()) {
        Some(i) => {
            let ghost old_v = v@;
            let ghost kk = k@;
            v.set(i, (k, x));
            proof {
                assert forall|q: Seq<char>| #[trigger] lookup(v@, q) == (if q == kk { Some(x) } else { lookup(old_v, q) }) by {
                    lemma_lookup_update(old_v, i as int, v@[i as int], q);
                }
                assert forall|a: int| 0 <= a < v@.len() implies #[trigger] v@[a].0@ == old_v[a].0@ by {}
            }
        },
        None => {
            let ghost old_v = v@;
            let ghost kk = k@;
            v.push((k, x));
            proof {
                assert forall|q: Seq<char>| #[trigger] lookup(v@, q) == (if q == kk { Some(x) } else { lookup(old_v, q) }) by {
                    lemma_lookup_push(old_v, v@.last(), q);
                    assert(v@ == old_v.push(v@.last()));
                }
                assert forall|a: int| 0 <= a < old_v.len() implies #[trigger] old_v[a].0@ != kk by {
                    lemma_lookup_none(old_v, kk, a);
                }
            }
        },
    }
}

/// The entries of `v` whose key is not `k`.
pub open spec fn without_key<T>(v: Seq<(String, T)>, k: Seq<char>) -> Seq<(String, T)>
    decreases v.len(),
{
    if v.len() == 0 {
        Seq::empty()
    } else if v.last().0@ == k {
        without_key(v.drop_last(), k)
    } else {
        without_key(v.drop_last(), k).push(v.last())
    }
}

/// Dropping the entries of one key makes it absent and keeps the others.
pub proof fn lemma_lookup_without<T>(v: Seq<(String, T)>, k: Seq<char>, q: Seq<char>)
    ensures
        lookup(without_key(v, k), q) == (if q == k { None } else { lookup(v, q) }),
    decreases v.len(),
{
    if v.len() > 0 {
        lemma_lookup_without(v.drop_last(), k, q);
        if v.last().0@ != k {
            lemma_lookup_push(without_key(v.drop_last(), k), v.last(), q);
        }
    }
}

/// Removes every entry of key `k`.  Other keys keep their values.
pub fn remove_key<T>(v: &mut Vec<(String, T)>, k: &str)
    ensures
        forall|q: Seq<char>| #[trigger] lookup(final(v)@, q) == (if q == k@ { None } else { lookup(old(v)@, q) }),
{
    let ghost orig = v@;
    let len0 = v.len();
    let mut out: Vec<(String, T)> = Vec::new();
    let mut n: usize = 0;
    while v.len() > 0
        invariant
            orig.len() == len0,
            n <= orig.len(),
            v@ == orig.skip(n as int),
            out@ == without_key(orig.take(n as int), k@),
        decreases v.len(),
    {
        assert(n < orig.len());
        let e = v.remove(0);
        assert(orig.take(n + 1).drop_last() == orig.take(n as int));
        assert(orig.take(n + 1).last() == orig[n as int]);
        if !str_eq(e.0.as_str(), k) {
            out.push(e);
        }
        n = n + 1;
        assert(v@ == orig.skip(n as int));
    }
    assert(orig.take(n as int) == orig);
    *v = out;
    proof {
        assert forall|q: Seq<char>| #[trigger] lookup(v@, q) == (if q == k@ { None } else { lookup(orig, q) }) by {
            lemma_lookup_without(orig, k@, q);
        }
    }
}

} // verus!
