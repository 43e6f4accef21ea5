//! A map from texts to values, kept in the order of its keys.

use vstd::prelude::*;

use crate::text;

verus! {

/// A map from texts to values. Its entries are in ascending order and no key occurs twice.
#[verifier::reject_recursive_types(V)]
#[derive(Clone, PartialEq, Eq, Debug)]
pub struct TextMap<V> {
    entries: Vec<(String, V)>,
}

impl<V> TextMap<V> {
    /// The entries, in ascending order of their keys.
    pub closed spec fn listed(&self) -> Seq<(Seq<char>, V)> {
        self.entries@.map_values(|e: (String, V)| (e.0@, e.1))
    }

    /// The keys stand in ascending order, so none occurs twice.
    pub open spec fn wf(&self) -> bool {
        ascending(self.listed())
    }
}

/// Whether the keys of `s` stand in strictly ascending order.
pub open spec fn ascending<V>(s: Seq<(Seq<char>, V)>) -> bool {
    forall|i: int, j: int|
        0 <= i < j < s.len() ==> text::precedes(#[trigger] s[i].0, #[trigger] s[j].0)
}

/// The map whose entries are `s`.
pub open spec fn as_map<V>(s: Seq<(Seq<char>, V)>) -> Map<Seq<char>, V> {
    Map::new(
        |k: Seq<char>| exists|i: int| 0 <= i < s.len() && (#[trigger] s[i]).0 == k,
        |k: Seq<char>| s[choose|i: int| 0 <= i < s.len() && (#[trigger] s[i]).0 == k].1,
    )
}

impl<V> View for TextMap<V> {
    type V = Map<Seq<char>, V>;

    open spec fn view(&self) -> Map<Seq<char>, V> {
        as_map(self.listed())
    }
}

/// Two ascending sequences with the same entries are the same sequence.
pub proof fn ascending_is_unique<V>(a: Seq<(Seq<char>, V)>, b: Seq<(Seq<char>, V)>)
    requires
        ascending(a),
        ascending(b),
        as_map(a) == as_map(b),
    ensures
        a == b,
{
    one_starts_the_other(a, b, a.len() as int);
    one_starts_the_other(b, a, b.len() as int);
    assert(a =~= b);
}

proof fn one_starts_the_other<V>(a: Seq<(Seq<char>, V)>, b: Seq<(Seq<char>, V)>, n: int)
    requires
        ascending(a),
        ascending(b),
        as_map(a) == as_map(b),
        0 <= n <= a.len(),
    ensures
        n <= b.len(),
        forall|i: int| 0 <= i < n ==> a[i] == b[i],
    decreases n,
{
    if n > 0 {
        one_starts_the_other(a, b, n - 1);
        let k = a[n - 1].0;
        entry_is_in_map(a, n - 1);
        assert(as_map(b).contains_key(k));
        let j = choose|j: int| 0 <= j < b.len() && (#[trigger] b[j]).0 == k;
        entry_is_in_map(b, j);
        if j < n - 1 {
            assert(a[j] == b[j]);
            text::precedes_is_total(a[j].0, a[n - 1].0);
            text::precedes_is_total(k, k);
        }
        if j > n - 1 {
            let l = b[n - 1].0;
            entry_is_in_map(b, n - 1);
            assert(as_map(a).contains_key(l));
            let i = choose|i: int| 0 <= i < a.len() && (#[trigger] a[i]).0 == l;
            assert(text::precedes(b[n - 1].0, b[j].0));
            text::precedes_is_total(l, k);
            text::precedes_is_total(k, k);
            if i < n - 1 {
                assert(a[i] == b[i]);
                assert(text::precedes(b[i].0, b[n - 1].0));
            } else if i > n - 1 {
                assert(text::precedes(a[n - 1].0, a[i].0));
            }
        }
    }
}

/// An entry of an ascending sequence is what its map holds at that key.
pub proof fn entry_is_in_map<V>(s: Seq<(Seq<char>, V)>, i: int)
    requires
        ascending(s),
        0 <= i < s.len(),
    ensures
        as_map(s).contains_key(s[i].0),
        as_map(s)[s[i].0] == s[i].1,
{
    let k = s[i].0;
    let j = choose|j: int| 0 <= j < s.len() && (#[trigger] s[j]).0 == k;
    assert(0 <= i < s.len() && s[i].0 == k);
    text::precedes_is_total(k, k);
    if i < j {
        assert(text::precedes(s[i].0, s[j].0));
    }
    if j < i {
        assert(text::precedes(s[j].0, s[i].0));
    }
}

impl<V> TextMap<V> {
    /// A map without entries.
    pub fn new() -> (m: Self)
        ensures
            m.wf(),
            m.listed() == Seq::<(Seq<char>, V)>::empty(),
            m@ == Map::<Seq<char>, V>::empty(),
    {
        let m = TextMap { entries: Vec::new() };
        assert(m.listed() =~= Seq::<(Seq<char>, V)>::empty());
        assert(m@ =~= Map::<Seq<char>, V>::empty());
        m
    }

    /// How many entries there are.
    pub fn len(&self) -> (n: usize)
        ensures
            n == self.listed().len(),
    {
        self.entries.len()
    }

    /// The key of the entry at `i`.
    pub fn key_at(&self, i: usize) -> (k: &String)
        requires
            i < self.listed().len(),
        ensures
            k@ == self.listed()[i as int].0,
    {
        &self.entries[i].0
    }

    /// The value of the entry at `i`.
    pub fn value_at(&self, i: usize) -> (v: &V)
        requires
            i < self.listed().len(),
        ensures
            *v == self.listed()[i as int].1,
    {
        &self.entries[i].1
    }

    /// Where `key` stands or would stand: every key before that place precedes it, and none
    /// from there on does.
    fn place(&self, key: &str) -> (p: usize)
        requires
            self.wf(),
        ensures
            p <= self.listed().len(),
            forall|i: int| 0 <= i < p ==> text::precedes((#[trigger] self.listed()[i]).0, key@),
            forall|i: int| p <= i < self.listed().len() ==> !text::precedes((#[trigger] self.listed()[i]).0, key@),
    {
        let mut p: usize = 0;
        while p < self.entries.len()
            invariant
                self.wf(),
                p <= self.listed().len(),
                self.listed().len() == self.entries@.len(),
                forall|i: int| 0 <= i < p ==> text::precedes((#[trigger] self.listed()[i]).0, key@),
            decreases self.entries@.len() - p,
        {
            if !text::text_precedes(self.entries[p].0.as_str(), key) {
                assert forall|i: int| p <= i < self.listed().len() implies !text::precedes(
                    (#[trigger] self.listed()[i]).0,
                    key@,
                ) by {
                    if i > p && text::precedes(self.listed()[i].0, key@) {
                        text::precedes_is_transitive(
                            self.listed()[p as int].0,
                            self.listed()[i].0,
                            key@,
                        );
                    }
                }
                return p;
            }
            p = p + 1;
        }
        p
    }

    proof fn absent_unless_at(&self, key: Seq<char>, p: int)
        requires
            self.wf(),
            0 <= p <= self.listed().len(),
            forall|i: int| 0 <= i < p ==> text::precedes((#[trigger] self.listed()[i]).0, key),
            forall|i: int| p <= i < self.listed().len() ==> !text::precedes((#[trigger] self.listed()[i]).0, key),
        ensures
            self@.contains_key(key) <==> (p < self.listed().len() && self.listed()[p].0 == key),
    {
        let s = self.listed();
        text::precedes_is_total(key, key);
        if self@.contains_key(key) {
            let i = choose|i: int| 0 <= i < s.len() && (#[trigger] s[i]).0 == key;
            assert(i >= p);
            if i > p {
                assert(text::precedes(s[p].0, s[i].0));
            }
        }
        if p < s.len() && s[p].0 == key {
            entry_is_in_map(s, p);
        }
    }

    /// What the map holds at `key`.
    pub fn get(&self, key: &str) -> (r: Option<&V>)
        requires
            self.wf(),
        ensures
            match r {
                Some(v) => self@.contains_key(key@) && self@[key@] == *v,
                None => !self@.contains_key(key@),
            },
    {
        let p: usize = self.place(key);
        proof {
            self.absent_unless_at(key@, p as int);
            if p < self.listed().len() {
                entry_is_in_map(self.listed(), p as int);
            }
        }
        if p < self.entries.len() && text::same_text(self.entries[p].0.as_str(), key) {
            Some(&self.entries[p].1)
        } else {
            None
        }
    }

    /// Put `value` at `key`, in place of what was there.
    pub fn insert(&mut self, key: String, value: V)
        requires
            old(self).wf(),
        ensures
            final(self).wf(),
            final(self)@ == old(self)@.insert(key@, value),
    {
        let p: usize = self.place(key.as_str());
        let ghost before = self.listed();
        let ghost k = key@;
        proof {
            self.absent_unless_at(k, p as int);
        }
        let found: bool = p < self.entries.len() && text::same_text(
            self.entries[p].0.as_str(),
            key.as_str(),
        );
        if found {
            self.entries.remove(p);
        }
        self.entries.insert(p, (key, value));
        let ghost after = self.listed();
        proof {
            let expected = if found {
                before.update(p as int, (k, value))
            } else {
                before.insert(p as int, (k, value))
            };
            assert(after =~= expected);
            assert forall|i: int, j: int| 0 <= i < j < after.len() implies text::precedes(
                #[trigger] after[i].0,
                #[trigger] after[j].0,
            ) by {
                let bi = if found || i < p { i } else { i - 1 };
                let bj = if found || j < p { j } else { j - 1 };
                if i == p {
                    assert(after[j] == before[bj]);
                    assert(!text::precedes(before[bj].0, k));
                    text::precedes_is_total(before[bj].0, k);
                    if before[bj].0 == k {
                        if !found {
                            entry_is_in_map(before, bj);
                        } else {
                            text::precedes_is_total(k, k);
                            assert(text::precedes(before[p as int].0, before[bj].0));
                        }
                    }
                } else if j == p {
                    assert(after[i] == before[bi]);
                } else {
                    assert(after[i] == before[bi] && after[j] == before[bj]);
                    assert(text::precedes(before[bi].0, before[bj].0));
                }
            }
            assert(ascending(after));
            let m = as_map(before).insert(k, value);
            assert(after[p as int] == (k, value));
            entry_is_in_map(after, p as int);
            assert forall|q: Seq<char>| as_map(after).contains_key(q) <==> m.contains_key(q) by {
                if as_map(after).contains_key(q) && q != k {
                    let i = choose|i: int| 0 <= i < after.len() && (#[trigger] after[i]).0 == q;
                    let bi = if found || i < p { i } else { i - 1 };
                    assert(after[i] == before[bi]);
                    entry_is_in_map(before, bi);
                }
                if as_map(before).contains_key(q) && q != k {
                    let i = choose|i: int| 0 <= i < before.len() && (#[trigger] before[i]).0 == q;
                    let ai = if found || i < p { i } else { i + 1 };
                    assert(after[ai] == before[i]);
                    entry_is_in_map(after, ai);
                }
            }
            assert forall|q: Seq<char>| m.contains_key(q) implies as_map(after)[q] == m[q] by {
                if q != k {
                    let i = choose|i: int| 0 <= i < before.len() && (#[trigger] before[i]).0 == q;
                    let ai = if found || i < p { i } else { i + 1 };
                    assert(after[ai] == before[i]);
                    entry_is_in_map(before, i);
                    entry_is_in_map(after, ai);
                }
            }
            assert(as_map(after) =~= m);
        }
    }

    /// Take away what is at `key`.
    pub fn remove(&mut self, key: &str)
        requires
            old(self).wf(),
        ensures
            final(self).wf(),
            final(self)@ == old(self)@.remove(key@),
    {
        let p: usize = self.place(key);
        let ghost before = self.listed();
        let ghost k = key@;
        proof {
            self.absent_unless_at(k, p as int);
        }
        if p < self.entries.len() && text::same_text(self.entries[p].0.as_str(), key) {
            self.entries.remove(p);
            let ghost after = self.listed();
            proof {
                assert(after =~= before.remove(p as int));
                assert forall|i: int, j: int| 0 <= i < j < after.len() implies text::precedes(
                    #[trigger] after[i].0,
                    #[trigger] after[j].0,
                ) by {
                    let bi = if i < p { i } else { i + 1 };
                    let bj = if j < p { j } else { j + 1 };
                    assert(after[i] == before[bi] && after[j] == before[bj]);
                }
                let m = as_map(before).remove(k);
                assert forall|q: Seq<char>| as_map(after).contains_key(q) <==> m.contains_key(q) by {
                    if as_map(after).contains_key(q) {
                        let i = choose|i: int| 0 <= i < after.len() && (#[trigger] after[i]).0 == q;
                        let bi = if i < p { i } else { i + 1 };
                        assert(after[i] == before[bi]);
                        entry_is_in_map(before, bi);
                        text::precedes_is_total(k, k);
                        if bi < p {
                            assert(text::precedes(before[bi].0, before[p as int].0));
                        } else {
                            assert(text::precedes(before[p as int].0, before[bi].0));
                        }
                    }
                    if as_map(before).contains_key(q) && q != k {
                        let i = choose|i: int| 0 <= i < before.len() && (#[trigger] before[i]).0 == q;
                        let ai = if i < p { i } else { i - 1 };
                        assert(after[ai] == before[i]);
                        entry_is_in_map(after, ai);
                    }
                }
                assert forall|q: Seq<char>| m.contains_key(q) implies as_map(after)[q] == m[q] by {
                    let i = choose|i: int| 0 <= i < before.len() && (#[trigger] before[i]).0 == q;
                    let ai = if i < p { i } else { i - 1 };
                    assert(after[ai] == before[i]);
                    entry_is_in_map(before, i);
                    entry_is_in_map(after, ai);
                }
                assert(as_map(after) =~= m);
            }
        } else {
            assert(self@ =~= old(self)@.remove(k));
        }
    }
}

} // verus!
