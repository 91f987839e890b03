//! Building the key/value parameters of an HTTP query, one entry at a time.
use vstd::prelude::*;
use crate::config::opt_text;
use crate::text::{bool_string, bool_text, decimal, i64_text, join, join_strings, signed_decimal, u64_text};

verus! {

/// The characters of a key/value pair.
pub open spec fn param_view(p: (String, String)) -> (Seq<char>, Seq<char>) {
    (p.0@, p.1@)
}

/// The characters of a list of key/value pairs.
pub open spec fn params_view(ps: Seq<(String, String)>) -> Seq<(Seq<char>, Seq<char>)> {
    ps.map_values(|p: (String, String)| param_view(p))
}

/// The entries of a parameter list that have the key `k`, in order.
pub open spec fn entries_with(ps: Seq<(Seq<char>, Seq<char>)>, k: Seq<char>) -> Seq<(Seq<char>, Seq<char>)>
    decreases ps.len(),
{
    if ps.len() == 0 {
        Seq::empty()
    } else {
        let rest = entries_with(ps.drop_last(), k);
        if ps.last().0 == k {
            rest.push(ps.last())
        } else {
            rest
        }
    }
}

/// The entries under a key of two lists put together are those of the first list, then
/// those of the second.
pub broadcast proof fn lemma_entries_with_concat(
    a: Seq<(Seq<char>, Seq<char>)>,
    b: Seq<(Seq<char>, Seq<char>)>,
    k: Seq<char>,
)
    ensures
        #[trigger] entries_with(a + b, k) == entries_with(a, k) + entries_with(b, k),
    decreases b.len(),
{
    if b.len() == 0 {
        assert(a + b =~= a);
        assert(entries_with(b, k) =~= Seq::<(Seq<char>, Seq<char>)>::empty());
        assert(entries_with(a, k) + entries_with(b, k) =~= entries_with(a, k));
    } else {
        lemma_entries_with_concat(a, b.drop_last(), k);
        assert((a + b).drop_last() =~= a + b.drop_last());
        assert((a + b).last() == b.last());
        if b.last().0 == k {
            assert(entries_with(a, k) + entries_with(b, k) =~= (entries_with(a, k) + entries_with(b.drop_last(), k)).push(b.last()));
        }
    }
}

/// A single entry is under a key exactly when it has that key.
pub broadcast proof fn lemma_entries_with_single(x: (Seq<char>, Seq<char>), k: Seq<char>)
    ensures
        #[trigger] entries_with(seq![x], k) == if x.0 == k { seq![x] } else { Seq::empty() },
{
    let s = seq![x];
    assert(s.len() == 1);
    assert(s.last() == x);
    assert(s.drop_last() =~= Seq::<(Seq<char>, Seq<char>)>::empty());
    assert(entries_with(s.drop_last(), k) =~= Seq::<(Seq<char>, Seq<char>)>::empty());
    assert(Seq::<(Seq<char>, Seq<char>)>::empty().push(x) =~= seq![x]);
}

/// An empty list has no entry under any key.
pub broadcast proof fn lemma_entries_with_empty(k: Seq<char>)
    ensures
        #[trigger] entries_with(Seq::<(Seq<char>, Seq<char>)>::empty(), k) == Seq::<(Seq<char>, Seq<char>)>::empty(),
{
}

/// An optional entry is under a key exactly when the key is its own.
pub broadcast proof fn lemma_entries_with_opt(key: Seq<char>, value: Option<Seq<char>>, k: Seq<char>)
    ensures
        #[trigger] entries_with(opt_entry(key, value), k) == if key == k { opt_entry(key, value) } else { Seq::empty() },
{
    match value {
        Some(v) => lemma_entries_with_single((key, v), k),
        None => {},
    }
}

/// A list entry is under a key exactly when the key is its own.
pub broadcast proof fn lemma_entries_with_list(key: Seq<char>, items: Seq<Seq<char>>, k: Seq<char>)
    ensures
        #[trigger] entries_with(list_entry(key, items), k) == if key == k { list_entry(key, items) } else { Seq::empty() },
{
    if items.len() > 0 {
        lemma_entries_with_single((key, join(items, ","@)), k);
    }
}

/// Putting an empty list after or before another leaves it as it is.
pub broadcast proof fn lemma_concat_empty(s: Seq<(Seq<char>, Seq<char>)>)
    ensures
        #[trigger] (s + Seq::<(Seq<char>, Seq<char>)>::empty()) == s,
        #[trigger] (Seq::<(Seq<char>, Seq<char>)>::empty() + s) == s,
{
    assert(s + Seq::<(Seq<char>, Seq<char>)>::empty() =~= s);
    assert(Seq::<(Seq<char>, Seq<char>)>::empty() + s =~= s);
}

/// The two lists hold the same entries in the same order.
pub open spec fn same_entries(a: Seq<(Seq<char>, Seq<char>)>, b: Seq<(Seq<char>, Seq<char>)>) -> bool {
    a == b
}


/// The characters of each string of a list.
pub open spec fn texts(v: Seq<String>) -> Seq<Seq<char>> {
    v.map_values(|s: String| s@)
}

/// The decimal text of each number of a list.
pub open spec fn u32_texts(v: Seq<u32>) -> Seq<Seq<char>> {
    v.map_values(|n: u32| decimal(n as nat))
}

/// The decimal text of each number of a list.
pub open spec fn i32_texts(v: Seq<i32>) -> Seq<Seq<char>> {
    v.map_values(|n: i32| signed_decimal(n as int))
}

/// One entry `(key, value)` when `value` is present, none otherwise.
pub open spec fn opt_entry(key: Seq<char>, value: Option<Seq<char>>) -> Seq<(Seq<char>, Seq<char>)> {
    match value {
        Some(v) => seq![(key, v)],
        None => Seq::empty(),
    }
}

/// One entry with the comma-joined items when the list is not empty, none otherwise.
pub open spec fn list_entry(key: Seq<char>, items: Seq<Seq<char>>) -> Seq<(Seq<char>, Seq<char>)> {
    if items.len() > 0 {
        seq![(key, join(items, ","@))]
    } else {
        Seq::empty()
    }
}

/// The text of an optional number.
pub open spec fn opt_u32_text(v: Option<u32>) -> Option<Seq<char>> {
    match v {
        Some(n) => Some(decimal(n as nat)),
        None => None,
    }
}

/// The text of an optional number.
pub open spec fn opt_i32_text(v: Option<i32>) -> Option<Seq<char>> {
    match v {
        Some(n) => Some(signed_decimal(n as int)),
        None => None,
    }
}

/// The text of an optional number.
pub open spec fn opt_i64_text(v: Option<i64>) -> Option<Seq<char>> {
    match v {
        Some(n) => Some(signed_decimal(n as int)),
        None => None,
    }
}

/// The text of an optional flag.
pub open spec fn opt_bool_text(v: Option<bool>) -> Option<Seq<char>> {
    match v {
        Some(b) => Some(bool_text(b)),
        None => None,
    }
}

/// Appends the entry `(key, value)`.
pub fn add_entry(params: &mut Vec<(String, String)>, key: &str, value: String)
    ensures
        params_view(final(params)@) == params_view(old(params)@).push((key@, value@)),
{
    let ghost before = params@;
    params.push((String::from_str(key), value));
    proof {
        assert(params_view(params@) =~= params_view(before).push((key@, value@)));
    }
}

/// Appends `(key, value)` when `value` is present.
pub fn add_text(params: &mut Vec<(String, String)>, key: &str, value: &Option<String>)
    ensures
        params_view(final(params)@) == params_view(old(params)@) + opt_entry(key@, opt_text(*value)),
{
    match value {
        Some(v) => add_entry(params, key, v.clone()),
        None => {},
    }
    proof {
        assert(params_view(params@) =~= params_view(old(params)@) + opt_entry(key@, opt_text(*value)));
    }
}

/// Appends `(key, items joined by commas)` when the list is not empty.
pub fn add_list(params: &mut Vec<(String, String)>, key: &str, items: &Vec<String>)
    ensures
        params_view(final(params)@) == params_view(old(params)@) + list_entry(key@, texts(items@)),
{
    if items.len() > 0 {
        let joined = join_strings(items, ",");
        proof {
            reveal_strlit(",");
        }
        add_entry(params, key, joined);
    }
    proof {
        assert(params_view(params@) =~= params_view(old(params)@) + list_entry(key@, texts(items@)));
    }
}

/// Appends `(key, numbers joined by commas)` when the list is not empty.
pub fn add_u32_list(params: &mut Vec<(String, String)>, key: &str, items: &Vec<u32>)
    ensures
        params_view(final(params)@) == params_view(old(params)@) + list_entry(key@, u32_texts(items@)),
{
    let mut rendered: Vec<String> = Vec::new();
    let mut i: usize = 0;
    while i < items.len()
        invariant
            i <= items.len(),
            texts(rendered@) == u32_texts(items@.take(i as int)),
        decreases items.len() - i,
    {
        let ghost prev = rendered@;
        rendered.push(u64_text(items[i] as u64));
        proof {
            assert(items@.take(i + 1) =~= items@.take(i as int).push(items@[i as int]));
            assert(texts(rendered@) =~= texts(prev).push(rendered@[i as int]@));
            assert(u32_texts(items@.take(i + 1)) =~= u32_texts(items@.take(i as int)).push(u32_texts(items@.take(i + 1))[i as int]));
            assert(texts(rendered@) =~= u32_texts(items@.take(i + 1)));
        }
        i = i + 1;
    }
    proof {
        assert(items@.take(items.len() as int) =~= items@);
    }
    add_list(params, key, &rendered);
}

/// Appends `(key, numbers joined by commas)` when the list is not empty.
pub fn add_i32_list(params: &mut Vec<(String, String)>, key: &str, items: &Vec<i32>)
    ensures
        params_view(final(params)@) == params_view(old(params)@) + list_entry(key@, i32_texts(items@)),
{
    let mut rendered: Vec<String> = Vec::new();
    let mut i: usize = 0;
    while i < items.len()
        invariant
            i <= items.len(),
            texts(rendered@) == i32_texts(items@.take(i as int)),
        decreases items.len() - i,
    {
        let ghost prev = rendered@;
        rendered.push(i64_text(items[i] as i64));
        proof {
            assert(items@.take(i + 1) =~= items@.take(i as int).push(items@[i as int]));
            assert(texts(rendered@) =~= texts(prev).push(rendered@[i as int]@));
            assert(i32_texts(items@.take(i + 1)) =~= i32_texts(items@.take(i as int)).push(i32_texts(items@.take(i + 1))[i as int]));
            assert(texts(rendered@) =~= i32_texts(items@.take(i + 1)));
        }
        i = i + 1;
    }
    proof {
        assert(items@.take(items.len() as int) =~= items@);
    }
    add_list(params, key, &rendered);
}

/// Appends `(key, "true")` when `flag` is set.
pub fn add_flag(params: &mut Vec<(String, String)>, key: &str, flag: bool)
    ensures
        params_view(final(params)@) == params_view(old(params)@)
            + (if flag { seq![(key@, bool_text(true))] } else { Seq::empty() }),
{
    if flag {
        add_entry(params, key, bool_string(true));
    }
    proof {
        assert(params_view(params@) =~= params_view(old(params)@)
            + (if flag { seq![(key@, bool_text(true))] } else { Seq::<(Seq<char>, Seq<char>)>::empty() }));
    }
}

/// Appends `(key, number)` when the number is present.
pub fn add_u32(params: &mut Vec<(String, String)>, key: &str, value: Option<u32>)
    ensures
        params_view(final(params)@) == params_view(old(params)@) + opt_entry(key@, opt_u32_text(value)),
{
    match value {
        Some(n) => add_entry(params, key, u64_text(n as u64)),
        None => {},
    }
    proof {
        assert(params_view(params@) =~= params_view(old(params)@) + opt_entry(key@, opt_u32_text(value)));
    }
}

/// Appends `(key, number)` when the number is present.
pub fn add_i32(params: &mut Vec<(String, String)>, key: &str, value: Option<i32>)
    ensures
        params_view(final(params)@) == params_view(old(params)@) + opt_entry(key@, opt_i32_text(value)),
{
    match value {
        Some(n) => add_entry(params, key, i64_text(n as i64)),
        None => {},
    }
    proof {
        assert(params_view(params@) =~= params_view(old(params)@) + opt_entry(key@, opt_i32_text(value)));
    }
}

/// Appends `(key, number)` when the number is present.
pub fn add_i64(params: &mut Vec<(String, String)>, key: &str, value: Option<i64>)
    ensures
        params_view(final(params)@) == params_view(old(params)@) + opt_entry(key@, opt_i64_text(value)),
{
    match value {
        Some(n) => add_entry(params, key, i64_text(n)),
        None => {},
    }
    proof {
        assert(params_view(params@) =~= params_view(old(params)@) + opt_entry(key@, opt_i64_text(value)));
    }
}

/// Appends `(key, true|false)` when the flag is present.
pub fn add_bool(params: &mut Vec<(String, String)>, key: &str, value: Option<bool>)
    ensures
        params_view(final(params)@) == params_view(old(params)@) + opt_entry(key@, opt_bool_text(value)),
{
    match value {
        Some(b) => add_entry(params, key, bool_string(b)),
        None => {},
    }
    proof {
        assert(params_view(params@) =~= params_view(old(params)@) + opt_entry(key@, opt_bool_text(value)));
    }
}

/// `i` is the first position of `ps` whose key is `k`.
pub open spec fn is_first_key(ps: Seq<(Seq<char>, Seq<char>)>, k: Seq<char>, i: int) -> bool {
    &&& 0 <= i < ps.len()
    &&& ps[i].0 == k
    &&& forall|j: int| 0 <= j < i ==> ps[j].0 != k
}

/// The first position of `ps` whose key is `k`, if any.
pub open spec fn key_position(ps: Seq<(Seq<char>, Seq<char>)>, k: Seq<char>) -> Option<int> {
    if exists|i: int| is_first_key(ps, k, i) {
        Some(choose|i: int| is_first_key(ps, k, i))
    } else {
        None
    }
}

/// `ps` with the value of key `k` set to `v`: in place when the key is there, else at the end.
pub open spec fn upsert(ps: Seq<(Seq<char>, Seq<char>)>, k: Seq<char>, v: Seq<char>) -> Seq<(Seq<char>, Seq<char>)> {
    match key_position(ps, k) {
        Some(i) => ps.update(i, (k, v)),
        None => ps.push((k, v)),
    }
}

proof fn lemma_first_key_unique(ps: Seq<(Seq<char>, Seq<char>)>, k: Seq<char>, i: int)
    requires
        is_first_key(ps, k, i),
    ensures
        key_position(ps, k) == Some(i),
{
    let c = choose|m: int| is_first_key(ps, k, m);
    assert(is_first_key(ps, k, c));
    if c < i {
        assert(ps[c].0 != k);
    }
    if i < c {
        assert(ps[i].0 != k);
    }
}

/// Sets the value of `key` to `value`: in place when the key is there, else at the end.
pub fn set_entry(entries: &mut Vec<(String, String)>, key: String, value: String)
    ensures
        params_view(final(entries)@) == upsert(params_view(old(entries)@), key@, value@),
{
    let ghost before = params_view(entries@);
    let mut i: usize = 0;
    while i < entries.len()
        invariant
            i <= entries.len(),
            before == params_view(entries@),
            before == params_view(old(entries)@),
            forall|j: int| 0 <= j < i ==> before[j].0 != key@,
        decreases entries.len() - i,
    {
        if entries[i].0 == key {
            proof {
                lemma_first_key_unique(before, key@, i as int);
            }
            let ghost k = key@;
            let ghost v = value@;
            entries.set(i, (key, value));
            proof {
                assert(params_view(entries@) =~= before.update(i as int, (k, v)));
                assert(upsert(before, k, v) == before.update(i as int, (k, v)));
            }
            return;
        }
        i = i + 1;
    }
    let ghost k = key@;
    let ghost v = value@;
    entries.push((key, value));
    proof {
        assert(!exists|m: int| is_first_key(before, k, m));
        assert(params_view(entries@) =~= before.push((k, v)));
    }
}

/// Appends copies of all entries of `extra`, in order.
pub fn append_entries(params: &mut Vec<(String, String)>, extra: &Vec<(String, String)>)
    ensures
        params_view(final(params)@) == params_view(old(params)@) + params_view(extra@),
{
    let ghost before = params_view(params@);
    let mut i: usize = 0;
    while i < extra.len()
        invariant
            i <= extra.len(),
            params_view(params@) == before + params_view(extra@.take(i as int)),
        decreases extra.len() - i,
    {
        let pair = (extra[i].0.clone(), extra[i].1.clone());
        let ghost prev = params@;
        params.push(pair);
        proof {
            assert(param_view(pair) == param_view(extra@[i as int]));
            assert(params_view(params@) =~= params_view(prev).push(param_view(extra@[i as int])));
            assert(params_view(extra@.take(i + 1)) =~= params_view(extra@.take(i as int)).push(param_view(extra@[i as int])));
            assert(params_view(params@) =~= before + params_view(extra@.take(i + 1)));
        }
        i = i + 1;
    }
    proof {
        assert(extra@.take(extra.len() as int) =~= extra@);
    }
}

} // verus!
