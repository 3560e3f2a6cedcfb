//! Ordered key/value lists (labels, options, environment variables) and the
//! command-line words built from them.
//!
//! A list of pairs stands for a map: a later entry for a key overrides an
//! earlier one. `upsert` is the map's `insert`: it replaces the value of an
//! existing key in place, or appends a new entry.

use vstd::prelude::*;
use crate::text::{owned, texts};

verus! {

/// The character views of a list of string pairs.
pub open spec fn pair_views(v: Seq<(String, String)>) -> Seq<(Seq<char>, Seq<char>)> {
    v.map_values(|p: (String, String)| (p.0@, p.1@))
}

/// Whether some entry of `ps` has key `k`.
pub open spec fn has_key(ps: Seq<(Seq<char>, Seq<char>)>, k: Seq<char>) -> bool {
    exists|i: int| 0 <= i < ps.len() && #[trigger] ps[i].0 == k
}

/// No key occurs twice in `ps`.
pub open spec fn keys_unique(ps: Seq<(Seq<char>, Seq<char>)>) -> bool {
    forall|i: int, j: int| 0 <= i < j < ps.len() ==> #[trigger] ps[i].0 != #[trigger] ps[j].0
}

/// The value that `ps` gives `k`: that of its last entry for `k`.
pub open spec fn value_of(ps: Seq<(Seq<char>, Seq<char>)>, k: Seq<char>) -> Option<Seq<char>>
    decreases ps.len(),
{
    if ps.len() == 0 {
        None
    } else if ps.last().0 == k {
        Some(ps.last().1)
    } else {
        value_of(ps.drop_last(), k)
    }
}

/// The entry `p` after `k` is set to `v`.
pub open spec fn set_entry(p: (Seq<char>, Seq<char>), k: Seq<char>, v: Seq<char>) -> (
    Seq<char>,
    Seq<char>,
) {
    if p.0 == k {
        (k, v)
    } else {
        p
    }
}

/// Every entry of `ps` after `k` is set to `v`.
pub open spec fn set_all(ps: Seq<(Seq<char>, Seq<char>)>, k: Seq<char>, v: Seq<char>) -> Seq<
    (Seq<char>, Seq<char>),
> {
    Seq::new(ps.len(), |i: int| set_entry(ps[i], k, v))
}

/// `ps` with `k` set to `v`: every entry for `k` takes the value `v`, and a
/// new entry is appended when there was none.
pub open spec fn upsert(ps: Seq<(Seq<char>, Seq<char>)>, k: Seq<char>, v: Seq<char>) -> Seq<
    (Seq<char>, Seq<char>),
> {
    if has_key(ps, k) {
        set_all(ps, k, v)
    } else {
        ps.push((k, v))
    }
}

proof fn lemma_value_of_set_all(
    ps: Seq<(Seq<char>, Seq<char>)>,
    k: Seq<char>,
    v: Seq<char>,
    k2: Seq<char>,
)
    requires
        k2 != k || has_key(ps, k),
    ensures
        value_of(set_all(ps, k, v), k2) == (if k2 == k { Some(v) } else { value_of(ps, k2) }),
    decreases ps.len(),
{
    if ps.len() > 0 {
        let m = set_all(ps, k, v);
        assert(m.drop_last() =~= set_all(ps.drop_last(), k, v));
        assert(m.last() == set_entry(ps.last(), k, v));
        if ps.last().0 == k {
            if k2 != k {
                lemma_value_of_set_all(ps.drop_last(), k, v, k2);
            }
        } else if k2 == k {
            let i = choose|i: int| 0 <= i < ps.len() && #[trigger] ps[i].0 == k;
            assert(i != ps.len() - 1);
            assert(ps.drop_last()[i].0 == k);
            lemma_value_of_set_all(ps.drop_last(), k, v, k2);
        } else {
            lemma_value_of_set_all(ps.drop_last(), k, v, k2);
        }
    }
}

/// Setting a key and then looking up any key behaves as a map: the key that
/// was set gives the new value, every other key what it gave before.
pub proof fn law_upsert_lookup(
    ps: Seq<(Seq<char>, Seq<char>)>,
    k: Seq<char>,
    v: Seq<char>,
    k2: Seq<char>,
)
    ensures
        value_of(upsert(ps, k, v), k2) == (if k2 == k { Some(v) } else { value_of(ps, k2) }),
{
    if has_key(ps, k) {
        lemma_value_of_set_all(ps, k, v, k2);
    } else {
        assert(ps.push((k, v)).drop_last() =~= ps);
    }
}

/// Setting a key keeps the keys distinct.
pub proof fn law_upsert_unique(ps: Seq<(Seq<char>, Seq<char>)>, k: Seq<char>, v: Seq<char>)
    requires
        keys_unique(ps),
    ensures
        keys_unique(upsert(ps, k, v)),
        upsert(ps, k, v).len() == ps.len() + (if has_key(ps, k) { 0int } else { 1int }),
{
    let u = upsert(ps, k, v);
    if has_key(ps, k) {
        assert forall|i: int, j: int| 0 <= i < j < u.len() implies #[trigger] u[i].0
            != #[trigger] u[j].0 by {
            assert(ps[i].0 != ps[j].0);
        }
    } else {
        assert forall|i: int, j: int| 0 <= i < j < u.len() implies #[trigger] u[i].0
            != #[trigger] u[j].0 by {
            if j == ps.len() {
                assert(u[i] == ps[i]);
                assert(!(ps[i].0 == k));
            } else {
                assert(ps[i].0 != ps[j].0);
            }
        }
    }
}

/// Sets `k` to `v` in `ps` (the map's `insert`).
pub fn upsert_exec(ps: &mut Vec<(String, String)>, k: &str, v: &str)
    ensures
        pair_views(final(ps)@) == upsert(pair_views(old(ps)@), k@, v@),
{
    let ghost orig = pair_views(ps@);
    let key = owned(k);
    let mut out: Vec<(String, String)> = Vec::new();
    let mut found = false;
    let mut i: usize = 0;
    while i < ps.len()
        invariant
            orig == pair_views(ps@),
            key@ == k@,
            i <= ps.len(),
            pair_views(out@) =~= set_all(orig.take(i as int), k@, v@),
            found == (exists|j: int| 0 <= j < i && #[trigger] orig[j].0 == k@),
        decreases ps.len() - i,
    {
        assert(orig[i as int] == (ps@[i as int].0@, ps@[i as int].1@));
        if ps[i].0 == key {
            out.push((owned(k), owned(v)));
            found = true;
        } else {
            out.push((ps[i].0.clone(), ps[i].1.clone()));
        }
        assert(set_all(orig.take(i + 1), k@, v@) =~= set_all(orig.take(i as int), k@, v@).push(
            set_entry(orig[i as int], k@, v@),
        ));
        i = i + 1;
    }
    assert(orig.take(orig.len() as int) =~= orig);
    if found {
        *ps = out;
    } else {
        assert(set_all(orig, k@, v@) =~= orig);
        ps.push((owned(k), owned(v)));
        assert(pair_views(ps@) =~= orig.push((k@, v@)));
    }
}

/// The value that `ps` gives `k`, if any.
pub fn lookup_exec(ps: &Vec<(String, String)>, k: &str) -> (r: Option<String>)
    ensures
        match r {
            Some(s) => value_of(pair_views(ps@), k@) == Some(s@),
            None => value_of(pair_views(ps@), k@) is None,
        },
{
    let mut i = ps.len();
    let key = owned(k);
    assert(pair_views(ps@).take(i as int) =~= pair_views(ps@));
    while i > 0
        invariant
            i <= ps.len(),
            key@ == k@,
            value_of(pair_views(ps@), k@) == value_of(pair_views(ps@).take(i as int), k@),
        decreases i,
    {
        let ghost t = pair_views(ps@).take(i as int);
        assert(t.drop_last() =~= pair_views(ps@).take(i - 1));
        assert(t.last() == pair_views(ps@)[i - 1]);
        if ps[i - 1].0 == key {
            return Some(ps[i - 1].1.clone());
        }
        i = i - 1;
    }
    None
}

// ---------------------------------------------------------------------------
// Command-line words
// ---------------------------------------------------------------------------

/// `k=v`.
pub open spec fn assignment(k: Seq<char>, v: Seq<char>) -> Seq<char> {
    k + "="@ + v
}

/// For each pair, the flag followed by `k=v`.
pub open spec fn flag_pairs(flag: Seq<char>, ps: Seq<(Seq<char>, Seq<char>)>) -> Seq<Seq<char>>
    decreases ps.len(),
{
    if ps.len() == 0 {
        seq![]
    } else {
        flag_pairs(flag, ps.drop_last()) + seq![flag, assignment(ps.last().0, ps.last().1)]
    }
}

/// The concatenation of two strings.
pub fn concat(a: &str, b: &str) -> (r: String)
    ensures
        r@ == a@ + b@,
{
    let mut r = owned(a);
    r.append(b);
    r
}

/// `k=v` as a string.
pub fn assignment_exec(k: &str, v: &str) -> (r: String)
    ensures
        r@ == assignment(k@, v@),
{
    let mut r = owned(k);
    r.append("=");
    r.append(v);
    r
}

/// Appends a word.
pub fn push_word(words: &mut Vec<String>, w: &str)
    ensures
        texts(final(words)@) == texts(old(words)@).push(w@),
{
    words.push(owned(w));
    assert(texts(words@) =~= texts(old(words)@).push(w@));
}

/// Appends, for each pair, the flag and then `k=v`.
pub fn push_flag_pairs(words: &mut Vec<String>, flag: &str, ps: &Vec<(String, String)>)
    ensures
        texts(final(words)@) == texts(old(words)@) + flag_pairs(flag@, pair_views(ps@)),
{
    let ghost start = texts(words@);
    let mut i: usize = 0;
    while i < ps.len()
        invariant
            i <= ps.len(),
            texts(words@) == start + flag_pairs(flag@, pair_views(ps@).take(i as int)),
        decreases ps.len() - i,
    {
        let ghost t = pair_views(ps@).take(i + 1);
        assert(t.drop_last() =~= pair_views(ps@).take(i as int));
        assert(t.last() == (ps@[i as int].0@, ps@[i as int].1@));
        push_word(words, flag);
        let a = assignment_exec(ps[i].0.as_str(), ps[i].1.as_str());
        push_word(words, a.as_str());
        i = i + 1;
    }
    assert(pair_views(ps@).take(ps@.len() as int) =~= pair_views(ps@));
}

} // verus!
