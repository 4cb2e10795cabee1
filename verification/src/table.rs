//! A small table keyed by strings, held as a vector of entries with distinct keys.

use vstd::prelude::*;
use crate::text::str_eq;

verus! {

/// Entry `i` has key `k`.
pub open spec fn key_at<V>(s: Seq<(String, V)>, k: Seq<char>, i: int) -> bool {
    0 <= i < s.len() && s[i].0@ == k
}

/// No two entries share a key.
pub open spec fn keys_unique<V>(s: Seq<(String, V)>) -> bool {
    forall|i: int, j: int| 0 <= i < s.len() && 0 <= j < s.len() && i != j ==> s[i].0@ != s[j].0@
}

/// The map from key to value that the entries describe.
pub open spec fn table_map<V>(s: Seq<(String, V)>) -> Map<Seq<char>, V>
    decreases s.len(),
{
    if s.len() == 0 {
        Map::empty()
    } else {
        table_map(s.drop_last()).insert(s.last().0@, s.last().1)
    }
}

/// With distinct keys, the map holds exactly the entries' keys, each with its entry's value.
pub proof fn lemma_table_map<V>(s: Seq<(String, V)>)
    requires
        keys_unique(s),
    ensures
        forall|k: Seq<char>| #[trigger]
            table_map(s).contains_key(k) <==> exists|i: int| key_at(s, k, i),
        forall|i: int| 0 <= i < s.len() ==> #[trigger] table_map(s)[s[i].0@] == s[i].1,
    decreases s.len(),
{
    if s.len() > 0 {
        let t = s.drop_last();
        assert(keys_unique(t));
        lemma_table_map(t);
        assert forall|k: Seq<char>| #[trigger]
            table_map(s).contains_key(k) <==> exists|i: int| key_at(s, k, i) by {
            if table_map(s).contains_key(k) {
                if k == s.last().0@ {
                    assert(key_at(s, k, s.len() - 1));
                } else {
                    assert(table_map(t).contains_key(k));
                    let i = choose|i: int| key_at(t, k, i);
                    assert(t[i] == s[i]);
                    assert(key_at(s, k, i));
                }
            }
            if exists|i: int| key_at(s, k, i) {
                let i = choose|i: int| key_at(s, k, i);
                if i < s.len() - 1 {
                    assert(t[i] == s[i]);
                    assert(key_at(t, k, i));
                    assert(table_map(t).contains_key(k));
                }
            }
        }
        assert forall|i: int| 0 <= i < s.len() implies #[trigger] table_map(s)[s[i].0@] == s[i].1 by {
            if i < s.len() - 1 {
                assert(t[i] == s[i]);
                assert(s[i].0@ != s[s.len() - 1].0@);
                assert(table_map(t)[t[i].0@] == t[i].1);
            } else {
                assert(s[i] == s.last());
            }
        }
    }
}

/// The index of the entry with key `key`, if there is one.
pub fn table_find<V>(v: &Vec<(String, V)>, key: &str) -> (r: Option<usize>)
    ensures
        match r {
            Some(i) => key_at(v@, key@, i as int),
            None => forall|i: int| !key_at(v@, key@, i),
        },
{
    let mut i: usize = 0;
    while i < v.len()
        invariant
            i <= v@.len(),
            forall|j: int| 0 <= j < i ==> !key_at(v@, key@, j),
        decreases v@.len() - i,
    {
        if str_eq(v[i].0.as_str(), key) {
            return Some(i);
        }
        i = i + 1;
    }
    None
}

/// The value under `key`.
pub fn table_get<'a, V>(v: &'a Vec<(String, V)>, key: &str) -> (r: Option<&'a V>)
    requires
        keys_unique(v@),
    ensures
        match r {
            Some(x) => table_map(v@).contains_key(key@) && table_map(v@)[key@] == *x,
            None => !table_map(v@).contains_key(key@),
        },
{
    proof {
        lemma_table_map(v@);
    }
    match table_find(v, key) {
        Some(i) => Some(&v[i].1),
        None => None,
    }
}

/// Sets the value under `key`, replacing any value it had.
pub fn table_insert<V>(v: &mut Vec<(String, V)>, key: String, val: V)
    requires
        keys_unique(old(v)@),
    ensures
        keys_unique(final(v)@),
        table_map(final(v)@) == table_map(old(v)@).insert(key@, val),
{
    proof {
        lemma_table_map(v@);
    }
    let ghost k0 = key@;
    match table_find(v, key.as_str()) {
        Some(i) => {
            v.set(i, (key, val));
            proof {
                let o = old(v)@;
                let n = v@;
                assert(n == o.update(i as int, (n[i as int].0, val)));
                assert(keys_unique(n));
                lemma_table_map(n);
                assert forall|k: Seq<char>|
                    table_map(n).contains_key(k) <==> table_map(o).insert(k0, val).contains_key(k) by {
                    if exists|j: int| key_at(o, k, j) {
                        let j = choose|j: int| key_at(o, k, j);
                        assert(key_at(n, k, j));
                    }
                    if exists|j: int| key_at(n, k, j) {
                        let j = choose|j: int| key_at(n, k, j);
                        assert(key_at(o, k, j));
                    }
                }
                assert forall|k: Seq<char>| #[trigger]
                    table_map(n).contains_key(k) implies table_map(n)[k] == table_map(o).insert(
                    k0,
                    val,
                )[k] by {
                    let j = choose|j: int| key_at(n, k, j);
                    assert(table_map(n)[n[j].0@] == n[j].1);
                    if j != i {
                        assert(table_map(o)[o[j].0@] == o[j].1);
                    }
                }
                assert(table_map(n) =~= table_map(o).insert(k0, val));
            }
        },
        None => {
            v.push((key, val));
            proof {
                let o = old(v)@;
                let n = v@;
                assert(n.drop_last() =~= o);
                assert forall|a: int, b: int|
                    0 <= a < n.len() && 0 <= b < n.len() && a != b implies n[a].0@ != n[b].0@ by {
                    if a < o.len() && b < o.len() {
                        assert(n[a] == o[a]);
                        assert(n[b] == o[b]);
                    } else if a < o.len() {
                        assert(n[a] == o[a]);
                        assert(!key_at(o, k0, a));
                    } else {
                        assert(n[b] == o[b]);
                        assert(!key_at(o, k0, b));
                    }
                }
                assert(keys_unique(n));
            }
        },
    }
}

/// Removes the entry under `key`, if any.
pub fn table_remove<V>(v: &mut Vec<(String, V)>, key: &str)
    requires
        keys_unique(old(v)@),
    ensures
        keys_unique(final(v)@),
        table_map(final(v)@) == table_map(old(v)@).remove(key@),
{
    proof {
        lemma_table_map(v@);
    }
    match table_find(v, key) {
        Some(i) => {
            let _removed = v.remove(i);
            proof {
                let o = old(v)@;
                let n = v@;
                assert(n == o.remove(i as int));
                assert(keys_unique(n)) by {
                    assert forall|a: int, b: int|
                        0 <= a < n.len() && 0 <= b < n.len() && a != b implies n[a].0@ != n[b].0@ by {
                        let oa = if a < i { a } else { a + 1 };
                        let ob = if b < i { b } else { b + 1 };
                        assert(n[a] == o[oa]);
                        assert(n[b] == o[ob]);
                    }
                }
                lemma_table_map(n);
                assert forall|k: Seq<char>|
                    table_map(n).contains_key(k) <==> table_map(o).remove(key@).contains_key(k) by {
                    if exists|j: int| key_at(n, k, j) {
                        let j = choose|j: int| key_at(n, k, j);
                        let oj = if j < i { j } else { j + 1 };
                        assert(n[j] == o[oj]);
                        assert(key_at(o, k, oj));
                    }
                    if k != key@ && exists|j: int| key_at(o, k, j) {
                        let j = choose|j: int| key_at(o, k, j);
                        assert(j != i);
                        let nj = if j < i { j } else { j - 1 };
                        assert(n[nj] == o[j]);
                        assert(key_at(n, k, nj));
                    }
                }
                assert forall|k: Seq<char>| #[trigger]
                    table_map(n).contains_key(k) implies table_map(n)[k] == table_map(o).remove(
                    key@,
                )[k] by {
                    let j = choose|j: int| key_at(n, k, j);
                    let oj = if j < i { j } else { j + 1 };
                    assert(n[j] == o[oj]);
                    assert(table_map(n)[n[j].0@] == n[j].1);
                    assert(table_map(o)[o[oj].0@] == o[oj].1);
                }
                assert(table_map(n) =~= table_map(o).remove(key@));
            }
        },
        None => {
            proof {
                assert(table_map(v@) =~= table_map(v@).remove(key@));
            }
        },
    }
}

} // verus!
