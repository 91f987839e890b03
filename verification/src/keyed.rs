//! Lists of values keyed by text, with each key at most once: the maps behind the client's
//! stores of tokens, sessions and servers.
//!
//! A list `s` stands for the map `keyed_map(s)` from each key to the value stored with it.
use vstd::prelude::*;
use crate::text::same_text;

verus! {

/// Whether no key occurs twice in the list.
pub open spec fn keys_distinct<V>(s: Seq<(String, V)>) -> bool {
    forall|i: int, j: int|
        #![trigger s[i], s[j]]
        0 <= i < s.len() && 0 <= j < s.len() && i != j ==> s[i].0@ != s[j].0@
}

/// Whether `k` is a key of the list.
pub open spec fn has_key<V>(s: Seq<(String, V)>, k: Seq<char>) -> bool {
    exists|i: int| #![trigger s[i]] 0 <= i < s.len() && s[i].0@ == k
}

/// A position of key `k` in the list (the only one when keys are distinct).
pub open spec fn key_index<V>(s: Seq<(String, V)>, k: Seq<char>) -> int {
    choose|i: int| #![trigger s[i]] 0 <= i < s.len() && s[i].0@ == k
}

/// The map the list stands for: each key to the value stored with it.
pub open spec fn keyed_map<V>(s: Seq<(String, V)>) -> Map<Seq<char>, V> {
    Map::new(|k: Seq<char>| has_key(s, k), |k: Seq<char>| s[key_index(s, k)].1)
}

/// The keys of the list, in order.
pub open spec fn keys_of<V>(s: Seq<(String, V)>) -> Seq<Seq<char>> {
    s.map_values(|p: (String, V)| p.0@)
}

/// With distinct keys, the entry at `i` is the one the map gives for its key.
pub proof fn lemma_entry_in_map<V>(s: Seq<(String, V)>, i: int)
    requires
        keys_distinct(s),
        0 <= i < s.len(),
    ensures
        key_index(s, s[i].0@) == i,
        keyed_map(s).contains_key(s[i].0@),
        keyed_map(s)[s[i].0@] == s[i].1,
{
    let k = s[i].0@;
    assert(has_key(s, k));
    let j = key_index(s, k);
    assert(s[j].0@ == k);
}

/// Replacing the value at the position of its key changes the map at that key only.
proof fn lemma_map_update<V>(s: Seq<(String, V)>, i: int, k: String, v: V)
    requires
        keys_distinct(s),
        0 <= i < s.len(),
        s[i].0@ == k@,
    ensures
        keys_distinct(s.update(i, (k, v))),
        keyed_map(s.update(i, (k, v))) == keyed_map(s).insert(k@, v),
{
    let t = s.update(i, (k, v));
    assert(keys_distinct(t)) by {
        assert forall|a: int, b: int| 0 <= a < t.len() && 0 <= b < t.len() && a != b implies #[trigger] t[a].0@
            != #[trigger] t[b].0@ by {
            assert(t[a].0@ == s[a].0@);
            assert(t[b].0@ == s[b].0@);
        }
    }
    assert forall|x: Seq<char>| has_key(t, x) == has_key(s, x) by {
        if has_key(s, x) {
            let j = key_index(s, x);
            assert(t[j].0@ == x);
        }
        if has_key(t, x) {
            let j = key_index(t, x);
            assert(s[j].0@ == x);
        }
    }
    assert forall|x: Seq<char>| #[trigger] keyed_map(t).contains_key(x) implies keyed_map(t)[x] == keyed_map(s).insert(
        k@,
        v,
    )[x] by {
        let j = key_index(t, x);
        lemma_entry_in_map(t, j);
        if x != k@ {
            assert(j != i);
            lemma_entry_in_map(s, j);
        } else {
            lemma_entry_in_map(t, i);
        }
    }
    assert(keyed_map(t) =~= keyed_map(s).insert(k@, v));
}

/// Adding an entry whose key is new adds that key to the map.
proof fn lemma_map_push<V>(s: Seq<(String, V)>, k: String, v: V)
    requires
        keys_distinct(s),
        !has_key(s, k@),
    ensures
        keys_distinct(s.push((k, v))),
        keyed_map(s.push((k, v))) == keyed_map(s).insert(k@, v),
{
    let t = s.push((k, v));
    assert(keys_distinct(t)) by {
        assert forall|a: int, b: int| 0 <= a < t.len() && 0 <= b < t.len() && a != b implies #[trigger] t[a].0@
            != #[trigger] t[b].0@ by {
            if a < s.len() && b < s.len() {
                assert(t[a] == s[a] && t[b] == s[b]);
            } else if a < s.len() {
                assert(t[a] == s[a]);
            } else {
                assert(t[b] == s[b]);
            }
        }
    }
    assert forall|x: Seq<char>| has_key(t, x) == (has_key(s, x) || x == k@) by {
        if has_key(s, x) {
            let j = key_index(s, x);
            assert(t[j] == s[j]);
        }
        if x == k@ {
            assert(t[s.len() as int].0@ == x);
        }
        if has_key(t, x) && x != k@ {
            let j = key_index(t, x);
            assert(j < s.len());
            assert(s[j] == t[j]);
        }
    }
    assert forall|x: Seq<char>| #[trigger] keyed_map(t).contains_key(x) implies keyed_map(t)[x] == keyed_map(s).insert(
        k@,
        v,
    )[x] by {
        let j = key_index(t, x);
        lemma_entry_in_map(t, j);
        if x != k@ {
            assert(j < s.len());
            assert(s[j] == t[j]);
            lemma_entry_in_map(s, j);
        } else {
            lemma_entry_in_map(t, s.len() as int);
        }
    }
    assert(keyed_map(t) =~= keyed_map(s).insert(k@, v));
}

/// Taking out the entry at the position of its key takes that key out of the map.
proof fn lemma_map_remove<V>(s: Seq<(String, V)>, i: int)
    requires
        keys_distinct(s),
        0 <= i < s.len(),
    ensures
        keys_distinct(s.remove(i)),
        keyed_map(s.remove(i)) == keyed_map(s).remove(s[i].0@),
{
    let t = s.remove(i);
    let k = s[i].0@;
    assert forall|a: int| 0 <= a < t.len() implies #[trigger] t[a] == s[if a < i { a } else { a + 1 }] by {}
    assert(keys_distinct(t)) by {
        assert forall|a: int, b: int| 0 <= a < t.len() && 0 <= b < t.len() && a != b implies #[trigger] t[a].0@
            != #[trigger] t[b].0@ by {
            let a2 = if a < i { a } else { a + 1 };
            let b2 = if b < i { b } else { b + 1 };
            assert(t[a] == s[a2]);
            assert(t[b] == s[b2]);
        }
    }
    assert forall|x: Seq<char>| has_key(t, x) == (has_key(s, x) && x != k) by {
        if has_key(s, x) && x != k {
            let j = key_index(s, x);
            assert(j != i);
            let j2 = if j < i { j } else { j - 1 };
            assert(t[j2] == s[j]);
        }
        if has_key(t, x) {
            let j = key_index(t, x);
            let j2 = if j < i { j } else { j + 1 };
            assert(t[j] == s[j2]);
            assert(j2 != i);
        }
    }
    assert forall|x: Seq<char>| #[trigger] keyed_map(t).contains_key(x) implies keyed_map(t)[x] == keyed_map(s).remove(
        k,
    )[x] by {
        let j = key_index(t, x);
        lemma_entry_in_map(t, j);
        let j2 = if j < i { j } else { j + 1 };
        assert(t[j] == s[j2]);
        lemma_entry_in_map(s, j2);
    }
    assert(keyed_map(t) =~= keyed_map(s).remove(k));
}

/// The keys of a list with distinct keys are the keys of its map, and they are as many
/// as its entries.
pub proof fn lemma_map_size<V>(s: Seq<(String, V)>)
    requires
        keys_distinct(s),
    ensures
        keyed_map(s).dom() == keys_of(s).to_set(),
        keyed_map(s).dom().finite(),
        keyed_map(s).dom().len() == s.len(),
    decreases s.len(),
{
    if s.len() == 0 {
        assert(keyed_map(s).dom() =~= Set::empty());
        assert(keys_of(s).to_set() =~= Set::empty());
    } else {
        let p = s.drop_last();
        assert(keys_distinct(p)) by {
            assert forall|a: int, b: int| 0 <= a < p.len() && 0 <= b < p.len() && a != b implies #[trigger] p[a].0@
                != #[trigger] p[b].0@ by {
                assert(p[a] == s[a] && p[b] == s[b]);
            }
        }
        lemma_map_size(p);
        let last = s.last();
        assert(!has_key(p, last.0@)) by {
            if has_key(p, last.0@) {
                let j = key_index(p, last.0@);
                assert(p[j] == s[j]);
                assert(s[s.len() - 1] == last);
            }
        }
        assert(s == p.push(last));
        lemma_map_push(p, last.0, last.1);
        assert(keys_of(s) =~= keys_of(p).push(last.0@));
        assert(keys_of(s).to_set() =~= keys_of(p).to_set().insert(last.0@)) by {
            assert forall|x: Seq<char>| keys_of(s).to_set().contains(x) == keys_of(p).to_set().insert(last.0@).contains(x) by {
                if keys_of(s).contains(x) {
                    let j = choose|j: int| 0 <= j < keys_of(s).len() && keys_of(s)[j] == x;
                    if j < p.len() {
                        assert(keys_of(p)[j] == x);
                    }
                }
                if keys_of(p).contains(x) {
                    let j = choose|j: int| 0 <= j < keys_of(p).len() && keys_of(p)[j] == x;
                    assert(keys_of(s)[j] == x);
                }
                if x == last.0@ {
                    assert(keys_of(s)[s.len() - 1] == x);
                }
            }
        }
        assert(keyed_map(s).dom() =~= keyed_map(p).dom().insert(last.0@));
    }
}

/// Keeping some entries of a list with distinct keys keeps the keys distinct.
pub proof fn lemma_filter_keys_distinct<V>(s: Seq<(String, V)>, p: spec_fn((String, V)) -> bool)
    requires
        keys_distinct(s),
    ensures
        keys_distinct(s.filter(p)),
    decreases s.len(),
{
    reveal_with_fuel(Seq::filter, 1);
    if s.len() > 0 {
        let d = s.drop_last();
        assert(keys_distinct(d)) by {
            assert forall|a: int, b: int| 0 <= a < d.len() && 0 <= b < d.len() && a != b implies #[trigger] d[a].0@
                != #[trigger] d[b].0@ by {
                assert(d[a] == s[a] && d[b] == s[b]);
            }
        }
        lemma_filter_keys_distinct(d, p);
        let f = d.filter(p);
        if p(s.last()) {
            let g = f.push(s.last());
            assert forall|a: int, b: int| 0 <= a < g.len() && 0 <= b < g.len() && a != b implies #[trigger] g[a].0@
                != #[trigger] g[b].0@ by {
                if a < f.len() && b < f.len() {
                    assert(g[a] == f[a] && g[b] == f[b]);
                } else {
                    let c = if a < f.len() { a } else { b };
                    assert(g[c] == f[c]);
                    d.lemma_filter_contains_rev(p, f[c]);
                    let e = choose|e: int| 0 <= e < d.len() && d[e] == f[c];
                    assert(d[e] == s[e]);
                    assert(s[s.len() - 1] == s.last());
                }
            }
        }
    }
}

/// The position of key `k` in the list, if it is there.
pub fn find_key<V>(s: &Vec<(String, V)>, k: &str) -> (r: Option<usize>)
    ensures
        match r {
            Some(i) => i < s@.len() && s@[i as int].0@ == k@,
            None => !has_key(s@, k@),
        },
{
    let mut i: usize = 0;
    while i < s.len()
        invariant
            i <= s@.len(),
            forall|j: int| 0 <= j < i ==> #[trigger] s@[j].0@ != k@,
        decreases s@.len() - i,
    {
        if same_text(s[i].0.as_str(), k) {
            return Some(i);
        }
        i = i + 1;
    }
    None
}

/// The value stored with key `k`, if any.
pub fn get_value<'a, V>(s: &'a Vec<(String, V)>, k: &str) -> (r: Option<&'a V>)
    requires
        keys_distinct(s@),
    ensures
        match r {
            Some(v) => keyed_map(s@).contains_key(k@) && *v == keyed_map(s@)[k@],
            None => !keyed_map(s@).contains_key(k@),
        },
{
    match find_key(s, k) {
        Some(i) => {
            proof {
                lemma_entry_in_map(s@, i as int);
            }
            Some(&s[i].1)
        },
        None => None,
    }
}

/// Stores `v` under key `k`, in place of the value stored there before, which is handed
/// back.
pub fn insert_value<V>(s: &mut Vec<(String, V)>, k: String, v: V) -> (r: Option<V>)
    requires
        keys_distinct(old(s)@),
    ensures
        keys_distinct(final(s)@),
        keyed_map(final(s)@) == keyed_map(old(s)@).insert(k@, v),
        r == (if keyed_map(old(s)@).contains_key(k@) {
            Some(keyed_map(old(s)@)[k@])
        } else {
            None
        }),
{
    match find_key(s, k.as_str()) {
        Some(i) => {
            proof {
                lemma_entry_in_map(s@, i as int);
                lemma_map_update(s@, i as int, k, v);
            }
            let ghost before = s@;
            let (_, previous) = s.remove(i);
            s.insert(i, (k, v));
            proof {
                assert(s@ =~= before.update(i as int, (k, v)));
            }
            Some(previous)
        },
        None => {
            proof {
                lemma_map_push(s@, k, v);
            }
            s.push((k, v));
            None
        },
    }
}

/// Takes key `k` out, handing back the value stored with it.
pub fn remove_value<V>(s: &mut Vec<(String, V)>, k: &str) -> (r: Option<V>)
    requires
        keys_distinct(old(s)@),
    ensures
        keys_distinct(final(s)@),
        keyed_map(final(s)@) == keyed_map(old(s)@).remove(k@),
        r == (if keyed_map(old(s)@).contains_key(k@) {
            Some(keyed_map(old(s)@)[k@])
        } else {
            None
        }),
{
    match find_key(s, k) {
        Some(i) => {
            proof {
                lemma_entry_in_map(s@, i as int);
                lemma_map_remove(s@, i as int);
            }
            let (_, v) = s.remove(i);
            Some(v)
        },
        None => {
            proof {
                assert(keyed_map(s@) =~= keyed_map(s@).remove(k@));
            }
            None
        },
    }
}

/// The keys of the list, in order.
pub fn key_list<V>(s: &Vec<(String, V)>) -> (r: Vec<String>)
    ensures
        r@.map_values(|t: String| t@) == keys_of(s@),
{
    let mut r: Vec<String> = Vec::new();
    let mut i: usize = 0;
    while i < s.len()
        invariant
            i <= s@.len(),
            r@.map_values(|t: String| t@) == keys_of(s@).take(i as int),
        decreases s@.len() - i,
    {
        let key = s[i].0.clone();
        let ghost before = r@;
        r.push(key);
        proof {
            assert(r@.map_values(|t: String| t@) =~= before.map_values(|t: String| t@).push(s@[i as int].0@));
            assert(keys_of(s@).take(i + 1) =~= keys_of(s@).take(i as int).push(s@[i as int].0@));
        }
        i = i + 1;
    }
    proof {
        assert(keys_of(s@).take(s@.len() as int) =~= keys_of(s@));
    }
    r
}


/// Taking out a key just stored under a new key gives back the map from before.
pub proof fn law_remove_undoes_insert<V>(m: Map<Seq<char>, V>, k: Seq<char>, v: V)
    requires
        !m.contains_key(k),
    ensures
        m.insert(k, v).remove(k) == m,
        m.insert(k, v)[k] == v,
{
    assert(m.insert(k, v).remove(k) =~= m);
}
} // verus!
