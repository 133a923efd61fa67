//! Association lists keyed by text: an executable `Vec<(String, V)>` whose
//! keys are pairwise distinct, viewed as a finite map from key text to value.

use vstd::prelude::*;

verus! {

/// The entries of an association list, keys and values taken by their views.
pub open spec fn keyed<V: View>(v: Seq<(String, V)>) -> Seq<(Seq<char>, V::V)> {
    Seq::new(v.len(), |i: int| (v[i].0@, v[i].1@))
}

/// No key occurs twice.
pub open spec fn keys_distinct<W>(s: Seq<(Seq<char>, W)>) -> bool {
    forall|i: int, j: int| 0 <= i < s.len() && 0 <= j < s.len() && i != j ==> s[i].0 != s[j].0
}

/// The map that an association list denotes (a later entry wins on a repeated key).
pub open spec fn entries_map<W>(s: Seq<(Seq<char>, W)>) -> Map<Seq<char>, W>
    decreases s.len(),
{
    if s.len() == 0 {
        Map::empty()
    } else {
        entries_map(s.drop_last()).insert(s.last().0, s.last().1)
    }
}

/// The key `k` is the key of some entry.
pub open spec fn has_key<W>(s: Seq<(Seq<char>, W)>, k: Seq<char>) -> bool {
    exists|i: int| 0 <= i < s.len() && s[i].0 == k
}

/// What `entries_map` holds: exactly the keys of the entries, and, when keys are
/// distinct, the value of the entry that carries the key.
pub proof fn lemma_entries_map<W>(s: Seq<(Seq<char>, W)>)
    ensures
        forall|k: Seq<char>| #[trigger] entries_map(s).contains_key(k) <==> has_key(s, k),
        keys_distinct(s) ==> forall|i: int|
            0 <= i < s.len() ==> #[trigger] entries_map(s)[s[i].0] == s[i].1,
    decreases s.len(),
{
    if s.len() > 0 {
        let t = s.drop_last();
        lemma_entries_map(t);
        assert(entries_map(s) == entries_map(t).insert(s.last().0, s.last().1));
        assert forall|k: Seq<char>| #[trigger] entries_map(s).contains_key(k) <==> has_key(s, k) by {
            assert(entries_map(t).contains_key(k) <==> has_key(t, k));
            if has_key(s, k) {
                let i = choose|i: int| 0 <= i < s.len() && s[i].0 == k;
                if i < s.len() - 1 {
                    assert(t[i] == s[i]);
                    assert(has_key(t, k));
                }
            }
            if has_key(t, k) {
                let i = choose|i: int| 0 <= i < t.len() && t[i].0 == k;
                assert(s[i] == t[i]);
            }
        }
        if keys_distinct(s) {
            assert(keys_distinct(t)) by {
                assert forall|a: int, b: int|
                    0 <= a < t.len() && 0 <= b < t.len() && a != b implies t[a].0 != t[b].0 by {
                    assert(t[a] == s[a] && t[b] == s[b]);
                }
            }
            assert forall|i: int| 0 <= i < s.len() implies #[trigger] entries_map(s)[s[i].0]
                == s[i].1 by {
                if i < s.len() - 1 {
                    assert(t[i] == s[i]);
                    assert(s[i].0 != s[s.len() - 1].0);
                    assert(entries_map(t)[t[i].0] == t[i].1);
                }
            }
        }
    }
}

/// Replacing the value of the entry at `i` under the same key.
pub proof fn lemma_entries_update<W>(s: Seq<(Seq<char>, W)>, i: int, w: W)
    requires
        keys_distinct(s),
        0 <= i < s.len(),
    ensures
        keys_distinct(s.update(i, (s[i].0, w))),
        entries_map(s.update(i, (s[i].0, w))) == entries_map(s).insert(s[i].0, w),
{
    let u = s.update(i, (s[i].0, w));
    assert(keys_distinct(u)) by {
        assert forall|a: int, b: int| 0 <= a < u.len() && 0 <= b < u.len() && a != b implies u[a].0
            != u[b].0 by {
            assert(u[a].0 == s[a].0);
            assert(u[b].0 == s[b].0);
        }
    }
    lemma_entries_map(s);
    lemma_entries_map(u);
    assert forall|k: Seq<char>| has_key(u, k) <==> has_key(s, k) || k == s[i].0 by {
        if has_key(s, k) {
            let j = choose|j: int| 0 <= j < s.len() && s[j].0 == k;
            assert(u[j].0 == k);
        }
        if has_key(u, k) {
            let j = choose|j: int| 0 <= j < u.len() && u[j].0 == k;
            assert(s[j].0 == k);
        }
        if k == s[i].0 {
            assert(u[i].0 == k);
        }
    }
    assert forall|k: Seq<char>| #[trigger] entries_map(u).contains_key(k) implies entries_map(u)[k]
        == entries_map(s).insert(s[i].0, w)[k] by {
        let j = choose|j: int| 0 <= j < u.len() && u[j].0 == k;
        assert(entries_map(u)[u[j].0] == u[j].1);
        if j != i {
            assert(entries_map(s)[s[j].0] == s[j].1);
        }
    }
    assert(entries_map(u) =~= entries_map(s).insert(s[i].0, w));
}

/// Appending an entry under a fresh key.
pub proof fn lemma_entries_push<W>(s: Seq<(Seq<char>, W)>, k: Seq<char>, w: W)
    requires
        keys_distinct(s),
        !has_key(s, k),
    ensures
        keys_distinct(s.push((k, w))),
        entries_map(s.push((k, w))) == entries_map(s).insert(k, w),
{
    let p = s.push((k, w));
    assert(p.drop_last() =~= s);
    assert forall|a: int, b: int| 0 <= a < p.len() && 0 <= b < p.len() && a != b implies p[a].0
        != p[b].0 by {
        if a < s.len() && b < s.len() {
            assert(p[a] == s[a] && p[b] == s[b]);
        } else if a < s.len() {
            assert(p[a] == s[a]);
        } else {
            assert(p[b] == s[b]);
        }
    }
}

/// Removing the entry at `i`.
pub proof fn lemma_entries_remove<W>(s: Seq<(Seq<char>, W)>, i: int)
    requires
        keys_distinct(s),
        0 <= i < s.len(),
    ensures
        keys_distinct(s.remove(i)),
        entries_map(s.remove(i)) == entries_map(s).remove(s[i].0),
{
    let r = s.remove(i);
    assert forall|a: int| 0 <= a < r.len() implies #[trigger] r[a] == (if a < i {
        s[a]
    } else {
        s[a + 1]
    }) by {}
    assert(keys_distinct(r)) by {
        assert forall|a: int, b: int| 0 <= a < r.len() && 0 <= b < r.len() && a != b implies r[a].0
            != r[b].0 by {
            let sa = if a < i { a } else { a + 1 };
            let sb = if b < i { b } else { b + 1 };
            assert(r[a] == s[sa]);
            assert(r[b] == s[sb]);
        }
    }
    lemma_entries_map(s);
    lemma_entries_map(r);
    assert forall|k: Seq<char>| has_key(r, k) <==> has_key(s, k) && k != s[i].0 by {
        if has_key(r, k) {
            let a = choose|a: int| 0 <= a < r.len() && r[a].0 == k;
            let sa = if a < i { a } else { a + 1 };
            assert(r[a] == s[sa]);
        }
        if has_key(s, k) && k != s[i].0 {
            let j = choose|j: int| 0 <= j < s.len() && s[j].0 == k;
            let rj = if j < i { j } else { j - 1 };
            assert(r[rj] == s[j]);
        }
    }
    assert forall|k: Seq<char>| #[trigger] entries_map(r).contains_key(k) implies entries_map(r)[k]
        == entries_map(s).remove(s[i].0)[k] by {
        let a = choose|a: int| 0 <= a < r.len() && r[a].0 == k;
        let sa = if a < i { a } else { a + 1 };
        assert(r[a] == s[sa]);
        assert(entries_map(r)[r[a].0] == r[a].1);
        assert(entries_map(s)[s[sa].0] == s[sa].1);
    }
    assert(entries_map(r) =~= entries_map(s).remove(s[i].0));
}

/// Finds the position of the entry whose key is `key`.
pub fn find_key<V: View>(v: &Vec<(String, V)>, key: &String) -> (r: Option<usize>)
    ensures
        r matches Some(i) ==> i < v@.len() && keyed(v@)[i as int].0 == key@,
        r is None ==> !has_key(keyed(v@), key@),
{
    let mut i: usize = 0;
    while i < v.len()
        invariant
            i <= v@.len(),
            forall|j: int| 0 <= j < i ==> keyed(v@)[j].0 != key@,
        decreases v.len() - i,
    {
        if v[i].0 == *key {
            return Some(i);
        }
        i = i + 1;
    }
    None
}

/// Removes the entry under `key`, handing its value back.
pub fn take_entry<V: View>(v: &mut Vec<(String, V)>, key: &String) -> (r: Option<V>)
    requires
        keys_distinct(keyed(old(v)@)),
    ensures
        keys_distinct(keyed(final(v)@)),
        entries_map(keyed(final(v)@)) == entries_map(keyed(old(v)@)).remove(key@),
        r is Some <==> entries_map(keyed(old(v)@)).contains_key(key@),
        r matches Some(x) ==> x@ == entries_map(keyed(old(v)@))[key@],
{
    let ghost s = keyed(v@);
    proof {
        lemma_entries_map(s);
    }
    match find_key(v, key) {
        Some(i) => {
            proof {
                lemma_entries_remove(s, i as int);
            }
            let (_, x) = v.remove(i);
            assert(keyed(v@) =~= s.remove(i as int));
            Some(x)
        },
        None => {
            assert(entries_map(s).remove(key@) =~= entries_map(s));
            None
        },
    }
}

/// Adds an entry under a key that has none.
pub fn put_entry<V: View>(v: &mut Vec<(String, V)>, key: String, x: V)
    requires
        keys_distinct(keyed(old(v)@)),
        !entries_map(keyed(old(v)@)).contains_key(key@),
    ensures
        keys_distinct(keyed(final(v)@)),
        entries_map(keyed(final(v)@)) == entries_map(keyed(old(v)@)).insert(key@, x@),
{
    let ghost s = keyed(v@);
    proof {
        lemma_entries_map(s);
        lemma_entries_push(s, key@, x@);
    }
    let ghost kv = key@;
    let ghost xv = x@;
    v.push((key, x));
    assert(keyed(v@) =~= s.push((kv, xv)));
}

} // verus!
