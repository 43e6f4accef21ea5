//! Maps keyed by a node number, listed in ascending order.

use std::collections::BTreeMap;
use std::collections::BTreeSet;
use vstd::prelude::*;

verus! {

/// Whether `s` lists exactly the entries of `m`, each key once, in ascending order.
pub open spec fn lists<V>(s: Seq<(u64, V)>, m: Map<u64, V>) -> bool {
    &&& forall|i: int, j: int| 0 <= i < j < s.len() ==> #[trigger] s[i].0 < #[trigger] s[j].0
    &&& forall|i: int| 0 <= i < s.len() ==> m.contains_key((#[trigger] s[i]).0) && m[s[i].0] == s[i].1
    &&& forall|k: u64| #[trigger] m.contains_key(k) ==> exists|i: int| 0 <= i < s.len() && (#[trigger] s[i]).0 == k
}

/// The entries of `m` in ascending order of their keys.
pub open spec fn listed<V>(m: Map<u64, V>) -> Seq<(u64, V)> {
    choose|s: Seq<(u64, V)>| lists(s, m)
}

/// A map has at most one listing.
pub proof fn listing_is_unique<V>(a: Seq<(u64, V)>, b: Seq<(u64, V)>, m: Map<u64, V>)
    requires
        lists(a, m),
        lists(b, m),
    ensures
        a == b,
{
    one_listing_starts_the_other(a, b, m, a.len() as int);
    one_listing_starts_the_other(b, a, m, b.len() as int);
    assert(a =~= b);
}

proof fn one_listing_starts_the_other<V>(
    a: Seq<(u64, V)>,
    b: Seq<(u64, V)>,
    m: Map<u64, V>,
    n: int,
)
    requires
        lists(a, m),
        lists(b, m),
        0 <= n <= a.len(),
    ensures
        n <= b.len(),
        forall|i: int| 0 <= i < n ==> a[i] == b[i],
    decreases n,
{
    if n > 0 {
        one_listing_starts_the_other(a, b, m, n - 1);
        let k = a[n - 1].0;
        assert(m.contains_key(k));
        let j = choose|j: int| 0 <= j < b.len() && (#[trigger] b[j]).0 == k;
        if j < n - 1 {
            assert(a[j] == b[j]);
        }
        if j > n - 1 {
            let l = b[n - 1].0;
            assert(m.contains_key(l));
            let i = choose|i: int| 0 <= i < a.len() && (#[trigger] a[i]).0 == l;
            assert(b[n - 1].0 < b[j].0);
            if i < n - 1 {
                assert(a[i] == b[i]);
            }
        }
    }
}

/// The entries of `m`, in ascending order of their keys.
pub fn list<'a, V>(m: &'a BTreeMap<u64, V>) -> (r: Vec<(u64, &'a V)>)
    ensures
        lists(listed(m@), m@),
        r@.len() == listed(m@).len(),
        forall|i: int|
            0 <= i < r@.len() ==> (#[trigger] r@[i]).0 == listed(m@)[i].0 && *r@[i].1 == listed(
                m@,
            )[i].1,
{
    let mut out: Vec<(u64, &'a V)> = Vec::new();
    let iter = m.iter();
    let ghost all = vstd::std_specs::iter::IteratorSpec::remaining(&iter);
    let ghost keys = all.map_values(|kv: (&u64, &V)| *kv.0);
    assert(vstd::std_specs::btree::key_obeys_cmp_spec::<u64>());
    assert(vstd::std_specs::btree::increasing_seq(keys));
    assert forall|i: int, j: int| 0 <= i < j < keys.len() implies #[trigger] keys[i]
        < #[trigger] keys[j] by {
        assert(vstd::std_specs::cmp::OrdSpec::cmp_spec(&keys[i], &keys[j]) is Less);
    }
    assert(forall|i: int|
        0 <= i < all.len() ==> m@.contains_key(*all[i].0) && m@[*all[i].0] == *all[i].1);
    for e in it: iter
        invariant
            it.seq() == all,
            out@.len() == it.index(),
            forall|i: int|
                0 <= i < out@.len() ==> (#[trigger] out@[i]).0 == *all[i].0 && *out@[i].1
                    == *all[i].1,
    {
        out.push((*e.0, e.1));
    }
    proof {
        let s = out@.map_values(|e: (u64, &V)| (e.0, *e.1));
        assert forall|i: int, j: int| 0 <= i < j < s.len() implies #[trigger] s[i].0
            < #[trigger] s[j].0 by {
            assert(keys[i] < keys[j]);
        }
        assert forall|k: u64| #[trigger] m@.contains_key(k) implies exists|i: int|
            0 <= i < s.len() && (#[trigger] s[i]).0 == k by {
            assert(all.contains((&k, &m@[k])));
            let i = choose|i: int| 0 <= i < all.len() && all[i] == (&k, &m@[k]);
            assert(s[i].0 == k);
        }
        assert(lists(s, m@));
        listing_is_unique(s, listed(m@), m@);
        assert(forall|i: int| 0 <= i < out@.len() ==> s[i] == ((#[trigger] out@[i]).0, *out@[i].1));
    }
    out
}

/// Whether `s` lists exactly the members of `m`, each once, in ascending order.
pub open spec fn lists_set(s: Seq<u64>, m: Set<u64>) -> bool {
    &&& forall|i: int, j: int| 0 <= i < j < s.len() ==> #[trigger] s[i] < #[trigger] s[j]
    &&& forall|i: int| 0 <= i < s.len() ==> m.contains(#[trigger] s[i])
    &&& forall|k: u64| #[trigger] m.contains(k) ==> s.contains(k)
}

/// The members of `m` in ascending order.
pub fn list_set(m: &BTreeSet<u64>) -> (r: Vec<u64>)
    ensures
        lists_set(r@, m@),
{
    let mut out: Vec<u64> = Vec::new();
    let iter = m.iter();
    let ghost all = vstd::std_specs::iter::IteratorSpec::remaining(&iter);
    assert(vstd::std_specs::btree::key_obeys_cmp_spec::<u64>());
    assert(vstd::std_specs::btree::increasing_seq(all));
    assert(all.unref().to_set() == m@);
    for e in it: iter
        invariant
            it.seq() == all,
            out@.len() == it.index(),
            forall|i: int| 0 <= i < out@.len() ==> (#[trigger] out@[i]) == *all[i],
    {
        out.push(*e);
    }
    proof {
        let s = all.unref();
        assert(out@ =~= s);
        assert forall|i: int, j: int| 0 <= i < j < s.len() implies #[trigger] s[i]
            < #[trigger] s[j] by {
            assert(vstd::std_specs::cmp::OrdSpec::cmp_spec(&all[i], &all[j]) is Less);
        }
        assert forall|i: int| 0 <= i < s.len() implies m@.contains(#[trigger] s[i]) by {
            assert(s.contains(s[i]));
        }
        assert forall|k: u64| #[trigger] m@.contains(k) implies s.contains(k) by {
            assert(s.to_set().contains(k));
        }
    }
    out
}

/// A copy of a map of texts.
pub fn clone_texts(m: &BTreeMap<u64, String>) -> (r: BTreeMap<u64, String>)
    ensures
        r@ == m@,
{
    let mut out: BTreeMap<u64, String> = BTreeMap::new();
    let entries = list(m);
    let ghost s = listed(m@);
    let mut i: usize = 0;
    while i < entries.len()
        invariant
            i <= entries@.len(),
            lists(s, m@),
            entries@.len() == s.len(),
            forall|j: int|
                0 <= j < entries@.len() ==> (#[trigger] entries@[j]).0 == s[j].0 && *entries@[j].1
                    == s[j].1,
            forall|k: u64| #[trigger]
                out@.contains_key(k) <==> exists|j: int| 0 <= j < i && (#[trigger] s[j]).0 == k,
            forall|k: u64| #[trigger] out@.contains_key(k) ==> m@.contains_key(k) && out@[k] == m@[k],
        decreases entries@.len() - i,
    {
        let ghost before = out@;
        out.insert(entries[i].0, entries[i].1.clone());
        proof {
            let k0 = entries@[i as int].0;
            assert(s[i as int].0 == k0);
            assert(out@ == before.insert(k0, *entries@[i as int].1));
            assert forall|k: u64| #[trigger] out@.contains_key(k) <==> exists|j: int|
                0 <= j < i + 1 && (#[trigger] s[j]).0 == k by {
                if k != k0 && before.contains_key(k) {
                    let j = choose|j: int| 0 <= j < i && (#[trigger] s[j]).0 == k;
                    assert(s[j].0 == k);
                }
            }
        }
        i = i + 1;
    }
    assert(out@ =~= m@);
    out
}

/// A listing has every entry once, under its key and in ascending order, and no other.
pub proof fn a_listing_has_every_entry_once<V>(s: Seq<(u64, V)>, m: Map<u64, V>, k: u64)
    requires
        lists(s, m),
    ensures
        m.contains_key(k) <==> exists|i: int| 0 <= i < s.len() && (#[trigger] s[i]).0 == k,
        forall|i: int| 0 <= i < s.len() && (#[trigger] s[i]).0 == k ==> s[i].1 == m[k],
        forall|i: int, j: int| 0 <= i < j < s.len() ==> (#[trigger] s[i]).0 < (#[trigger] s[j]).0,
{
}

/// A listing has every member once, in ascending order, and no other.
pub proof fn a_listing_has_every_member_once(s: Seq<u64>, m: Set<u64>, k: u64)
    requires
        lists_set(s, m),
    ensures
        s.contains(k) <==> m.contains(k),
        forall|i: int, j: int| 0 <= i < j < s.len() ==> #[trigger] s[i] < #[trigger] s[j],
{
}

} // verus!
