//! Admission of watch streams: how many are open, in all and by principal.

use vstd::multiset::Multiset;
use vstd::prelude::*;

use crate::text;
use crate::textmap::TextMap;
use crate::types;
use crate::types::ConfigError;
use crate::types::ConfigErrorModel;
use crate::types::WatchLimits;

verus! {

/// The streams that are open.
pub struct Admission {
    total: usize,
    by_principal: TextMap<usize>,
    open: Ghost<Multiset<Seq<char>>>,
}

/// Why a stream of `principal` is refused while `open` are: the node's cap is looked at first,
/// then the principal's own.
pub open spec fn refusal(
    open: Multiset<Seq<char>>,
    principal: Seq<char>,
    limits: WatchLimits,
) -> Option<ConfigErrorModel> {
    if open.len() >= limits.max_streams_per_node {
        Some(
            ConfigErrorModel::ResourceExhausted {
                detail: "this node already serves "@ + text::decimal(
                    limits.max_streams_per_node as nat,
                ) + " watch streams (max_streams_per_node)"@,
                resumable: false,
            },
        )
    } else if open.count(principal) >= limits.max_streams_per_principal {
        Some(
            ConfigErrorModel::ResourceExhausted {
                detail: "principal already holds "@ + text::decimal(
                    limits.max_streams_per_principal as nat,
                ) + " watch streams (max_streams_per_principal)"@,
                resumable: false,
            },
        )
    } else {
        None
    }
}

/// Whether `s` lists each principal with open streams and how many, in the order of the names.
pub open spec fn lists_open(s: Seq<(String, usize)>, open: Multiset<Seq<char>>) -> bool {
    &&& forall|i: int|
        0 <= i < s.len() ==> (#[trigger] s[i]).1 > 0 && s[i].1 == open.count(s[i].0@)
    &&& forall|i: int, j: int|
        0 <= i < j < s.len() ==> text::precedes((#[trigger] s[i]).0@, (#[trigger] s[j]).0@)
    &&& forall|p: Seq<char>| #[trigger]
        open.count(p) > 0 ==> exists|i: int| 0 <= i < s.len() && (#[trigger] s[i]).0@ == p
}

/// The streams of the principals listed, added up.
pub open spec fn streams_of(s: Seq<(String, usize)>) -> nat
    decreases s.len(),
{
    if s.len() == 0 {
        0
    } else {
        streams_of(s.drop_last()) + s.last().1 as nat
    }
}

impl Admission {
    /// The principals of the open streams, each as often as it has one.
    pub closed spec fn open(&self) -> Multiset<Seq<char>> {
        self.open@
    }

    /// The counters say what is open.
    pub closed spec fn wf(&self) -> bool {
        &&& self.by_principal.wf()
        &&& self.total == self.open@.len()
        &&& forall|p: Seq<char>| #[trigger]
            self.by_principal@.contains_key(p) <==> self.open@.count(p) > 0
        &&& forall|p: Seq<char>| #[trigger]
            self.by_principal@.contains_key(p) ==> self.by_principal@[p] == self.open@.count(p)
    }

    /// Nothing is open.
    pub fn new() -> (a: Self)
        ensures
            a.wf(),
            a.open() == Multiset::<Seq<char>>::empty(),
    {
        Admission { total: 0, by_principal: TextMap::new(), open: Ghost(Multiset::empty()) }
    }

    /// How many streams are open.
    pub fn total(&self) -> (n: usize)
        requires
            self.wf(),
        ensures
            n == self.open().len(),
    {
        self.total
    }

    /// How many streams `principal` has open.
    pub fn held_by(&self, principal: &str) -> (n: usize)
        requires
            self.wf(),
        ensures
            n == self.open().count(principal@),
    {
        match self.by_principal.get(principal) {
            Some(n) => *n,
            None => 0,
        }
    }

    /// Each principal with open streams and how many, in the order of the names.
    pub fn listing(&self) -> (r: Vec<(String, usize)>)
        requires
            self.wf(),
        ensures
            lists_open(r@, self.open()),
            streams_of(r@) == self.open().len(),
    {
        let ghost all = self.by_principal.listed();
        let mut out: Vec<(String, usize)> = Vec::new();
        let mut i: usize = 0;
        while i < self.by_principal.len()
            invariant
                i <= all.len(),
                all == self.by_principal.listed(),
                out@.len() == i,
                forall|j: int|
                    0 <= j < i ==> (#[trigger] out@[j]).0@ == all[j].0 && out@[j].1 == all[j].1,
            decreases all.len() - i,
        {
            out.push((self.by_principal.key_at(i).clone(), *self.by_principal.value_at(i)));
            i = i + 1;
        }
        proof {
            assert forall|i: int| 0 <= i < out@.len() implies (#[trigger] out@[i]).1 > 0
                && out@[i].1 == self.open().count(out@[i].0@) by {
                crate::textmap::entry_is_in_map(all, i);
                assert(self.by_principal@.contains_key(all[i].0));
            }
            assert forall|i: int, j: int| 0 <= i < j < out@.len() implies text::precedes(
                (#[trigger] out@[i]).0@,
                (#[trigger] out@[j]).0@,
            ) by {
                assert(text::precedes(all[i].0, all[j].0));
            }
            assert forall|p: Seq<char>| #[trigger] self.open().count(p) > 0 implies exists|i: int|
                0 <= i < out@.len() && (#[trigger] out@[i]).0@ == p by {
                assert(self.by_principal@.contains_key(p));
                let i = choose|i: int| 0 <= i < all.len() && (#[trigger] all[i]).0 == p;
                assert(out@[i].0@ == p);
            }
            principals_add_up(out@, self.open());
        }
        out
    }

    /// Reserve a slot for a stream of `principal`, or refuse without taking one.
    pub fn reserve(&mut self, principal: &str, limits: &WatchLimits) -> (r: Result<
        (),
        ConfigError,
    >)
        requires
            old(self).wf(),
        ensures
            final(self).wf(),
            types::answer(r) == (match refusal(old(self).open(), principal@, *limits) {
                Some(e) => Err(e),
                None => Ok(()),
            }),
            final(self).open() == (if r is Ok {
                old(self).open().insert(principal@)
            } else {
                old(self).open()
            }),
    {
        broadcast use vstd::multiset::group_multiset_axioms;

        let held: usize = self.held_by(principal);
        if self.total as u64 >= limits.max_streams_per_node as u64 {
            let mut detail = "this node already serves ".to_owned();
            text::push_decimal(&mut detail, limits.max_streams_per_node as u128);
            text::push_text(&mut detail, " watch streams (max_streams_per_node)");
            return Err(ConfigError::ResourceExhausted { detail, resumable: false });
        }
        if held as u64 >= limits.max_streams_per_principal as u64 {
            let mut detail = "principal already holds ".to_owned();
            text::push_decimal(&mut detail, limits.max_streams_per_principal as u128);
            text::push_text(&mut detail, " watch streams (max_streams_per_principal)");
            return Err(ConfigError::ResourceExhausted { detail, resumable: false });
        }
        self.total = self.total + 1;
        self.by_principal.insert(principal.to_owned(), held + 1);
        self.open = Ghost(self.open@.insert(principal@));
        Ok(())
    }

    /// Give back the slot of a stream of `principal`.
    pub fn release(&mut self, principal: &str)
        requires
            old(self).wf(),
            old(self).open().count(principal@) > 0,
        ensures
            final(self).wf(),
            final(self).open() == old(self).open().remove(principal@),
    {
        broadcast use vstd::multiset::group_multiset_axioms;

        let held: usize = self.held_by(principal);
        assert(self.open@.len() > 0) by {
            if self.open@.len() == 0 {
                assert(self.open@.remove(principal@).insert(principal@) =~= self.open@);
            }
        }
        self.total = self.total - 1;
        if held == 1 {
            self.by_principal.remove(principal);
        } else {
            self.by_principal.insert(principal.to_owned(), held - 1);
        }
        self.open = Ghost(self.open@.remove(principal@));
    }
}

/// `open` without the streams of `principal`.
spec fn without(open: Multiset<Seq<char>>, principal: Seq<char>) -> Multiset<Seq<char>>
    decreases open.count(principal),
{
    if open.count(principal) == 0 {
        open
    } else {
        without(open.remove(principal), principal)
    }
}

proof fn without_counts(open: Multiset<Seq<char>>, principal: Seq<char>)
    ensures
        without(open, principal).len() + open.count(principal) == open.len(),
        forall|p: Seq<char>| #[trigger]
            without(open, principal).count(p) == (if p == principal {
                0
            } else {
                open.count(p)
            }),
    decreases open.count(principal),
{
    broadcast use vstd::multiset::group_multiset_axioms;

    if open.count(principal) > 0 {
        without_counts(open.remove(principal), principal);
        assert(open.remove(principal).insert(principal) =~= open);
    }
}

/// The streams that are open are those of each principal, added up.
pub proof fn principals_add_up(s: Seq<(String, usize)>, open: Multiset<Seq<char>>)
    requires
        lists_open(s, open),
    ensures
        streams_of(s) == open.len(),
    decreases s.len(),
{
    broadcast use vstd::multiset::group_multiset_axioms;

    if s.len() == 0 {
        assert forall|p: Seq<char>| #[trigger] open.count(p) == 0 by {
            if open.count(p) > 0 {
                let i = choose|i: int| 0 <= i < s.len() && (#[trigger] s[i]).0@ == p;
                assert(0 <= i < s.len());
            }
        }
        assert(open =~= Multiset::empty());
    } else {
        let n = s.len() - 1;
        let last = s[n].0@;
        let init = s.drop_last();
        let rest = without(open, last);
        without_counts(open, last);
        assert forall|i: int| 0 <= i < init.len() implies (#[trigger] init[i]).1 > 0 && init[i].1
            == rest.count(init[i].0@) by {
            assert(text::precedes(s[i].0@, s[n].0@));
            text::precedes_is_total(s[i].0@, s[n].0@);
        }
        assert forall|i: int, j: int| 0 <= i < j < init.len() implies text::precedes(
            (#[trigger] init[i]).0@,
            (#[trigger] init[j]).0@,
        ) by {
            assert(text::precedes(s[i].0@, s[j].0@));
        }
        assert forall|p: Seq<char>| #[trigger] rest.count(p) > 0 implies exists|i: int|
            0 <= i < init.len() && (#[trigger] init[i]).0@ == p by {
            assert(open.count(p) > 0);
            let i = choose|i: int| 0 <= i < s.len() && (#[trigger] s[i]).0@ == p;
            assert(init[i].0@ == p);
        }
        principals_add_up(init, rest);
    }
}

/// Releasing a slot undoes its reservation.
pub proof fn release_undoes_reserve(open: Multiset<Seq<char>>, principal: Seq<char>)
    ensures
        open.insert(principal).remove(principal) == open,
{
    broadcast use vstd::multiset::group_multiset_axioms;

    assert(open.insert(principal).remove(principal) =~= open);
}

/// Neither cap is ever exceeded by a stream that was let in.
pub proof fn caps_hold(open: Multiset<Seq<char>>, principal: Seq<char>, limits: WatchLimits)
    requires
        refusal(open, principal, limits) is None,
    ensures
        open.insert(principal).len() <= limits.max_streams_per_node,
        open.insert(principal).count(principal) <= limits.max_streams_per_principal,
{
    broadcast use vstd::multiset::group_multiset_axioms;

}

/// A stream is admitted exactly while the node and the principal each hold fewer than they may.
/// A refusal cannot be resumed: there was no stream.
pub proof fn streams_are_admitted_below_the_caps(
    open: Multiset<Seq<char>>,
    principal: Seq<char>,
    limits: WatchLimits,
)
    ensures
        refusal(open, principal, limits) is None <==> open.len() < limits.max_streams_per_node
            && open.count(principal) < limits.max_streams_per_principal,
        refusal(open, principal, limits) matches Some(e) ==> (e
            matches ConfigErrorModel::ResourceExhausted { resumable, .. } && !resumable),
{
}

/// What other principals hold matters to one only through the cap of the node.
pub proof fn principals_are_capped_apart(
    open: Multiset<Seq<char>>,
    principal: Seq<char>,
    other: Seq<char>,
    limits: WatchLimits,
)
    requires
        principal != other,
        open.len() + 1 < limits.max_streams_per_node,
    ensures
        refusal(open, principal, limits) is None <==> refusal(
            open.insert(other),
            principal,
            limits,
        ) is None,
{
}

/// Whoever holds a stream is listed, once, with as many as they hold, in the order of the names;
/// nobody else is.
pub proof fn the_listing_shows_who_holds_what(
    s: Seq<(String, usize)>,
    open: Multiset<Seq<char>>,
    principal: Seq<char>,
)
    requires
        lists_open(s, open),
    ensures
        open.count(principal) > 0 <==> exists|i: int|
            0 <= i < s.len() && (#[trigger] s[i]).0@ == principal,
        forall|i: int|
            0 <= i < s.len() && (#[trigger] s[i]).0@ == principal ==> s[i].1 == open.count(
                principal,
            ),
        forall|i: int, j: int|
            0 <= i < j < s.len() ==> (#[trigger] s[i]).0@ != (#[trigger] s[j]).0@ && text::precedes(
                s[i].0@,
                s[j].0@,
            ),
{
    assert forall|i: int, j: int| 0 <= i < j < s.len() implies (#[trigger] s[i]).0@ != (
    #[trigger] s[j]).0@ by {
        text::precedes_is_total(s[i].0@, s[j].0@);
    }
    if exists|i: int| 0 <= i < s.len() && (#[trigger] s[i]).0@ == principal {
        let i = choose|i: int| 0 <= i < s.len() && (#[trigger] s[i]).0@ == principal;
        assert(s[i].1 > 0);
    }
}

} // verus!
