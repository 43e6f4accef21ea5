//! Network fault injection for the peer plane.
//!
//! A [`NetFault`] is consulted on every send. Blocking a pair fails new calls at once and
//! cancels calls already in flight, so a partition behaves like a cut cable and not like a slow
//! link. A switchboard without rules lets every call through unchanged.

use vstd::prelude::*;

use crate::text;
use crate::time::Duration;
use crate::transport;
use crate::transport::TransportError;
use crate::transport::TransportErrorModel;
use crate::types::NodeId;

verus! {

/// Values by pair of nodes, one direction each. No pair occurs twice.
struct PairMap<V> {
    items: Vec<((NodeId, NodeId), V)>,
}

spec fn pair_map<V>(items: Seq<((NodeId, NodeId), V)>) -> Map<(NodeId, NodeId), V> {
    Map::new(
        |k: (NodeId, NodeId)| exists|i: int| 0 <= i < items.len() && (#[trigger] items[i]).0 == k,
        |k: (NodeId, NodeId)|
            items[choose|i: int| 0 <= i < items.len() && (#[trigger] items[i]).0 == k].1,
    )
}

spec fn distinct_pairs<V>(items: Seq<((NodeId, NodeId), V)>) -> bool {
    forall|i: int, j: int|
        0 <= i < j < items.len() ==> (#[trigger] items[i]).0 != (#[trigger] items[j]).0
}

proof fn pair_is_in_map<V>(items: Seq<((NodeId, NodeId), V)>, i: int)
    requires
        distinct_pairs(items),
        0 <= i < items.len(),
    ensures
        pair_map(items).contains_key(items[i].0),
        pair_map(items)[items[i].0] == items[i].1,
{
    let k = items[i].0;
    let j = choose|j: int| 0 <= j < items.len() && (#[trigger] items[j]).0 == k;
    assert(0 <= i < items.len() && items[i].0 == k);
    if i < j {
        assert(items[i].0 != items[j].0);
    }
    if j < i {
        assert(items[j].0 != items[i].0);
    }
}

impl<V> PairMap<V> {
    spec fn map(&self) -> Map<(NodeId, NodeId), V> {
        pair_map(self.items@)
    }

    spec fn wf(&self) -> bool {
        distinct_pairs(self.items@)
    }

    fn new() -> (p: Self)
        ensures
            p.wf(),
            p.map() == Map::<(NodeId, NodeId), V>::empty(),
    {
        let p = PairMap { items: Vec::new() };
        assert(p.map() =~= Map::<(NodeId, NodeId), V>::empty());
        p
    }

    fn find(&self, from: NodeId, to: NodeId) -> (r: Option<usize>)
        requires
            self.wf(),
        ensures
            match r {
                Some(i) => {
                    &&& i < self.items@.len()
                    &&& self.items@[i as int].0 == (from, to)
                    &&& self.map().contains_key((from, to))
                    &&& self.map()[(from, to)] == self.items@[i as int].1
                },
                None => !self.map().contains_key((from, to)),
            },
    {
        let mut i: usize = 0;
        while i < self.items.len()
            invariant
                self.wf(),
                i <= self.items@.len(),
                forall|j: int| 0 <= j < i ==> (#[trigger] self.items@[j]).0 != (from, to),
            decreases self.items@.len() - i,
        {
            let pair = self.items[i].0;
            if pair.0 == from && pair.1 == to {
                proof {
                    pair_is_in_map(self.items@, i as int);
                }
                return Some(i);
            }
            i = i + 1;
        }
        None
    }

    fn remove(&mut self, from: NodeId, to: NodeId)
        requires
            old(self).wf(),
        ensures
            final(self).wf(),
            final(self).map() == old(self).map().remove((from, to)),
    {
        match self.find(from, to) {
            Some(i) => {
                self.items.remove(i);
                proof {
                    let before = old(self).items@;
                    let after = self.items@;
                    let k = (from, to);
                    assert(after == before.remove(i as int));
                    assert forall|a: int, b: int| 0 <= a < b < after.len() implies (
                    #[trigger] after[a]).0 != (#[trigger] after[b]).0 by {
                        let x = if a < i { a } else { a + 1 };
                        let y = if b < i { b } else { b + 1 };
                        assert(before[x].0 != before[y].0);
                    }
                    let m = pair_map(before).remove(k);
                    assert forall|q: (NodeId, NodeId)| pair_map(after).contains_key(q)
                        <==> m.contains_key(q) by {
                        if pair_map(after).contains_key(q) {
                            let a = choose|a: int| 0 <= a < after.len() && (#[trigger] after[a]).0 == q;
                            let x = if a < i { a } else { a + 1 };
                            assert(after[a] == before[x]);
                            pair_is_in_map(before, x);
                            if x < i {
                                assert(before[x].0 != before[i as int].0);
                            } else {
                                assert(before[i as int].0 != before[x].0);
                            }
                        }
                        if m.contains_key(q) {
                            let x = choose|x: int| 0 <= x < before.len() && (#[trigger] before[x]).0 == q;
                            let a = if x < i { x } else { x - 1 };
                            assert(after[a] == before[x]);
                            pair_is_in_map(after, a);
                        }
                    }
                    assert forall|q: (NodeId, NodeId)| m.contains_key(q) implies pair_map(after)[q]
                        == m[q] by {
                        let x = choose|x: int| 0 <= x < before.len() && (#[trigger] before[x]).0 == q;
                        let a = if x < i { x } else { x - 1 };
                        assert(after[a] == before[x]);
                        pair_is_in_map(after, a);
                        pair_is_in_map(before, x);
                    }
                    assert(pair_map(after) =~= m);
                }
            },
            None => {
                assert(self.map() =~= old(self).map().remove((from, to)));
            },
        }
    }

    fn insert(&mut self, from: NodeId, to: NodeId, value: V)
        requires
            old(self).wf(),
        ensures
            final(self).wf(),
            final(self).map() == old(self).map().insert((from, to), value),
    {
        self.remove(from, to);
        let ghost before = self.items@;
        self.items.push(((from, to), value));
        proof {
            let after = self.items@;
            let k = (from, to);
            let n = before.len() as int;
            assert(!pair_map(before).contains_key(k));
            assert forall|a: int, b: int| 0 <= a < b < after.len() implies (
            #[trigger] after[a]).0 != (#[trigger] after[b]).0 by {
                if b == n {
                    pair_is_in_map(before, a);
                    assert(after[a] == before[a]);
                } else {
                    assert(before[a].0 != before[b].0);
                }
            }
            let m = pair_map(before).insert(k, value);
            pair_is_in_map(after, n);
            assert forall|q: (NodeId, NodeId)| pair_map(after).contains_key(q) <==> m.contains_key(
                q,
            ) by {
                if pair_map(after).contains_key(q) && q != k {
                    let a = choose|a: int| 0 <= a < after.len() && (#[trigger] after[a]).0 == q;
                    assert(after[a] == before[a]);
                    pair_is_in_map(before, a);
                }
                if pair_map(before).contains_key(q) {
                    let x = choose|x: int| 0 <= x < before.len() && (#[trigger] before[x]).0 == q;
                    assert(after[x] == before[x]);
                    pair_is_in_map(after, x);
                }
            }
            assert forall|q: (NodeId, NodeId)| m.contains_key(q) implies pair_map(after)[q]
                == m[q] by {
                if q != k {
                    let x = choose|x: int| 0 <= x < before.len() && (#[trigger] before[x]).0 == q;
                    assert(after[x] == before[x]);
                    pair_is_in_map(before, x);
                    pair_is_in_map(after, x);
                }
            }
            assert(pair_map(after) =~= m);
            assert(m =~= old(self).map().insert(k, value));
        }
    }
}

/// The rules of a switchboard.
#[verifier::ext_equal]
pub struct NetFaultModel {
    /// One-way blocks.
    pub blocked: Set<(NodeId, NodeId)>,
    /// Latency added before a call is sent.
    pub delays: Map<(NodeId, NodeId), Duration>,
    /// Calls that are sent but whose responses are discarded.
    pub dropped: Set<(NodeId, NodeId)>,
}

impl NetFaultModel {
    /// No rules at all.
    pub open spec fn transparent() -> NetFaultModel {
        NetFaultModel { blocked: Set::empty(), delays: Map::empty(), dropped: Set::empty() }
    }

    /// With `from` to `to` blocked.
    pub open spec fn block(self, from: NodeId, to: NodeId) -> NetFaultModel {
        NetFaultModel { blocked: self.blocked.insert((from, to)), ..self }
    }

    /// With both directions between `a` and `b` blocked.
    pub open spec fn block_pair(self, a: NodeId, b: NodeId) -> NetFaultModel {
        self.block(a, b).block(b, a)
    }

    /// Whether isolating `id` from `peers` blocks `pair`: it joins `id` and another of them.
    pub open spec fn isolates(id: NodeId, peers: Seq<NodeId>, pair: (NodeId, NodeId)) -> bool {
        &&& pair.0 != pair.1
        &&& (pair.0 == id && peers.contains(pair.1)) || (pair.1 == id && peers.contains(pair.0))
    }

    /// With `id` cut off from `peers`.
    pub open spec fn isolate(self, id: NodeId, peers: Seq<NodeId>) -> NetFaultModel {
        NetFaultModel {
            blocked: Set::new(
                |p: (NodeId, NodeId)| self.blocked.contains(p) || Self::isolates(id, peers, p),
            ),
            ..self
        }
    }

    /// With `from` to `to` no longer blocked.
    pub open spec fn unblock(self, from: NodeId, to: NodeId) -> NetFaultModel {
        NetFaultModel { blocked: self.blocked.remove((from, to)), ..self }
    }

    /// With latency added from `from` to `to`.
    pub open spec fn delay(self, from: NodeId, to: NodeId, d: Duration) -> NetFaultModel {
        NetFaultModel { delays: self.delays.insert((from, to), d), ..self }
    }

    /// With responses to calls from `from` to `to` discarded.
    pub open spec fn drop_response(self, from: NodeId, to: NodeId) -> NetFaultModel {
        NetFaultModel { dropped: self.dropped.insert((from, to)), ..self }
    }

    /// With responses to calls from `from` to `to` let through.
    pub open spec fn undrop_response(self, from: NodeId, to: NodeId) -> NetFaultModel {
        NetFaultModel { dropped: self.dropped.remove((from, to)), ..self }
    }

    /// The latency of a call, if any.
    pub open spec fn delay_of(self, from: NodeId, to: NodeId) -> Option<Duration> {
        if self.delays.contains_key((from, to)) {
            Some(self.delays[(from, to)])
        } else {
            None
        }
    }

    /// What is asked of a call before it is sent: refused when blocked, else its latency.
    pub open spec fn admitted(self, from: NodeId, to: NodeId) -> Result<
        Option<Duration>,
        TransportErrorModel,
    > {
        if self.blocked.contains((from, to)) {
            Err(TransportErrorModel::Unreachable(refusal_text(from, to)))
        } else {
            Ok(self.delay_of(from, to))
        }
    }

    /// What becomes of a call that is under way: cancelled when blocked.
    pub open spec fn in_flight(self, from: NodeId, to: NodeId) -> Result<(), TransportErrorModel> {
        if self.blocked.contains((from, to)) {
            Err(TransportErrorModel::Unreachable(refusal_text(from, to) + " while in flight"@))
        } else {
            Ok(())
        }
    }

    /// What the caller sees of a finished call: a discarded response is a network error, and
    /// anything else stays as it is.
    pub open spec fn settled<T>(
        self,
        from: NodeId,
        to: NodeId,
        result: Result<T, TransportErrorModel>,
    ) -> Result<T, TransportErrorModel> {
        if result is Ok && self.dropped.contains((from, to)) {
            Err(TransportErrorModel::Network(dropped_text(from, to)))
        } else {
            result
        }
    }

    /// What the caller sees of a call during which no rule changes.
    pub open spec fn guarded<T>(
        self,
        from: NodeId,
        to: NodeId,
        result: Result<T, TransportErrorModel>,
    ) -> Result<T, TransportErrorModel> {
        if self.blocked.contains((from, to)) {
            Err(TransportErrorModel::Unreachable(refusal_text(from, to)))
        } else {
            self.settled(from, to, result)
        }
    }
}

/// The text of a refused call.
pub open spec fn refusal_text(from: NodeId, to: NodeId) -> Seq<char> {
    "netfault: "@ + text::decimal(from.0 as nat) + " -> "@ + text::decimal(to.0 as nat)
        + " blocked"@
}

/// The text of a discarded response.
pub open spec fn dropped_text(from: NodeId, to: NodeId) -> Seq<char> {
    "netfault: response "@ + text::decimal(to.0 as nat) + " -> "@ + text::decimal(from.0 as nat)
        + " dropped"@
}

fn refusal(from: NodeId, to: NodeId) -> (r: String)
    ensures
        r@ == refusal_text(from, to),
{
    let mut out = "netfault: ".to_owned();
    text::push_decimal(&mut out, from.0 as u128);
    text::push_text(&mut out, " -> ");
    text::push_decimal(&mut out, to.0 as u128);
    text::push_text(&mut out, " blocked");
    out
}

/// The fault switchboard of one cluster.
pub struct NetFault {
    blocked: PairMap<()>,
    delays: PairMap<Duration>,
    dropped: PairMap<()>,
}

impl View for NetFault {
    type V = NetFaultModel;

    closed spec fn view(&self) -> NetFaultModel {
        NetFaultModel {
            blocked: self.blocked.map().dom(),
            delays: self.delays.map(),
            dropped: self.dropped.map().dom(),
        }
    }
}

impl Default for NetFault {
    fn default() -> (n: Self)
        ensures
            n.wf(),
            n@ == NetFaultModel::transparent(),
    {
        let n = NetFault {
            blocked: PairMap::new(),
            delays: PairMap::new(),
            dropped: PairMap::new(),
        };
        assert(n@ =~= NetFaultModel::transparent());
        n
    }
}

impl NetFault {
    /// No pair has two rules of one sort.
    pub closed spec fn wf(&self) -> bool {
        self.blocked.wf() && self.delays.wf() && self.dropped.wf()
    }

    /// A transparent switchboard.
    pub fn new() -> (n: Self)
        ensures
            n.wf(),
            n@ == NetFaultModel::transparent(),
    {
        NetFault::default()
    }

    /// Block `from` to `to`, one way.
    pub fn block(&mut self, from: NodeId, to: NodeId)
        requires
            old(self).wf(),
        ensures
            final(self).wf(),
            final(self)@ == old(self)@.block(from, to),
    {
        self.blocked.insert(from, to, ());
        assert(self@ =~= old(self)@.block(from, to));
    }

    /// Block both directions between `a` and `b`.
    pub fn block_pair(&mut self, a: NodeId, b: NodeId)
        requires
            old(self).wf(),
        ensures
            final(self).wf(),
            final(self)@ == old(self)@.block_pair(a, b),
    {
        self.block(a, b);
        self.block(b, a);
    }

    /// Block `id` from every node in `peers` and every node in `peers` from `id`.
    pub fn isolate(&mut self, id: NodeId, peers: &[NodeId])
        requires
            old(self).wf(),
        ensures
            final(self).wf(),
            final(self)@ == old(self)@.isolate(id, peers@),
    {
        let mut i: usize = 0;
        assert(self@ =~= old(self)@.isolate(id, peers@.take(0)));
        while i < peers.len()
            invariant
                self.wf(),
                i <= peers@.len(),
                self@ == old(self)@.isolate(id, peers@.take(i as int)),
            decreases peers@.len() - i,
        {
            let p = peers[i];
            let ghost before = self@;
            if p != id {
                self.block_pair(id, p);
            }
            proof {
                let now = peers@.take(i + 1);
                let then = peers@.take(i as int);
                assert(now == then.push(p));
                assert forall|n: NodeId| now.contains(n) <==> then.contains(n) || n == p by {
                    if then.contains(n) {
                        let k = choose|k: int| 0 <= k < then.len() && then[k] == n;
                        assert(now[k] == n);
                    }
                    if n == p {
                        assert(now[i as int] == n);
                    }
                }
                assert(self@ =~= old(self)@.isolate(id, now));
            }
            i = i + 1;
        }
        assert(peers@.take(peers@.len() as int) =~= peers@);
    }

    /// Remove one one-way block.
    pub fn unblock(&mut self, from: NodeId, to: NodeId)
        requires
            old(self).wf(),
        ensures
            final(self).wf(),
            final(self)@ == old(self)@.unblock(from, to),
    {
        self.blocked.remove(from, to);
        assert(self@ =~= old(self)@.unblock(from, to));
    }

    /// Clear every block, delay, and drop rule.
    pub fn unblock_all(&mut self)
        requires
            old(self).wf(),
        ensures
            final(self).wf(),
            final(self)@ == NetFaultModel::transparent(),
    {
        self.blocked = PairMap::new();
        self.delays = PairMap::new();
        self.dropped = PairMap::new();
        assert(self@ =~= NetFaultModel::transparent());
    }

    /// Add latency before each call from `from` to `to` is sent.
    pub fn delay(&mut self, from: NodeId, to: NodeId, d: Duration)
        requires
            old(self).wf(),
        ensures
            final(self).wf(),
            final(self)@ == old(self)@.delay(from, to, d),
    {
        self.delays.insert(from, to, d);
    }

    /// Send calls from `from` to `to` but discard their responses.
    pub fn drop_response(&mut self, from: NodeId, to: NodeId)
        requires
            old(self).wf(),
        ensures
            final(self).wf(),
            final(self)@ == old(self)@.drop_response(from, to),
    {
        self.dropped.insert(from, to, ());
        assert(self@ =~= old(self)@.drop_response(from, to));
    }

    /// Stop dropping responses to calls from `from` to `to`.
    pub fn undrop_response(&mut self, from: NodeId, to: NodeId)
        requires
            old(self).wf(),
        ensures
            final(self).wf(),
            final(self)@ == old(self)@.undrop_response(from, to),
    {
        self.dropped.remove(from, to);
        assert(self@ =~= old(self)@.undrop_response(from, to));
    }

    /// Whether `from` to `to` is currently blocked.
    pub fn is_blocked(&self, from: NodeId, to: NodeId) -> (r: bool)
        requires
            self.wf(),
        ensures
            r == self@.blocked.contains((from, to)),
    {
        self.blocked.find(from, to).is_some()
    }

    /// The latency from `from` to `to`, if any.
    pub fn delay_for(&self, from: NodeId, to: NodeId) -> (r: Option<Duration>)
        requires
            self.wf(),
        ensures
            r == self@.delay_of(from, to),
    {
        match self.delays.find(from, to) {
            Some(i) => Some(self.delays.items[i].1),
            None => None,
        }
    }

    /// Whether responses to calls from `from` to `to` are being discarded.
    pub fn drops_response(&self, from: NodeId, to: NodeId) -> (r: bool)
        requires
            self.wf(),
        ensures
            r == self@.dropped.contains((from, to)),
    {
        self.dropped.find(from, to).is_some()
    }

    /// The first step of a call: refuse it when blocked, else say how long to wait before it is
    /// sent.
    pub fn begin(&self, from: NodeId, to: NodeId) -> (r: Result<Option<Duration>, TransportError>)
        requires
            self.wf(),
        ensures
            transport::outcome(r) == self@.admitted(from, to),
    {
        if self.is_blocked(from, to) {
            Err(TransportError::Unreachable(refusal(from, to)))
        } else {
            Ok(self.delay_for(from, to))
        }
    }

    /// A step of a call that is under way, to be taken before its answer is looked at and after
    /// every change of the rules: cancel it when blocked.
    pub fn check_in_flight(&self, from: NodeId, to: NodeId) -> (r: Result<(), TransportError>)
        requires
            self.wf(),
        ensures
            transport::outcome(r) == self@.in_flight(from, to),
    {
        if self.is_blocked(from, to) {
            let mut out = refusal(from, to);
            text::push_text(&mut out, " while in flight");
            Err(TransportError::Unreachable(out))
        } else {
            Ok(())
        }
    }

    /// The last step of a call: discard the response when a rule says so.
    pub fn settle<T>(
        &self,
        from: NodeId,
        to: NodeId,
        result: Result<T, TransportError>,
    ) -> (r: Result<T, TransportError>)
        requires
            self.wf(),
        ensures
            transport::outcome(r) == self@.settled(from, to, transport::outcome(result)),
    {
        if result.is_ok() && self.drops_response(from, to) {
            let mut out = "netfault: response ".to_owned();
            text::push_decimal(&mut out, to.0 as u128);
            text::push_text(&mut out, " -> ");
            text::push_decimal(&mut out, from.0 as u128);
            text::push_text(&mut out, " dropped");
            Err(TransportError::Network(out))
        } else {
            result
        }
    }

    /// One peer call under the rules, when none of them changes while it is under way: `result`
    /// is what the call itself comes to.
    pub fn guard<T>(
        &self,
        from: NodeId,
        to: NodeId,
        result: Result<T, TransportError>,
    ) -> (r: Result<T, TransportError>)
        requires
            self.wf(),
        ensures
            transport::outcome(r) == self@.guarded(from, to, transport::outcome(result)),
    {
        match self.begin(from, to) {
            Err(e) => Err(e),
            Ok(_) => match self.check_in_flight(from, to) {
                Err(e) => Err(e),
                Ok(_) => self.settle(from, to, result),
            },
        }
    }
}

/// A switchboard without rules passes every call through unchanged, and so does one that was
/// healed.
pub proof fn transparent_passes_everything<T>(
    from: NodeId,
    to: NodeId,
    result: Result<T, TransportErrorModel>,
)
    ensures
        NetFaultModel::transparent().admitted(from, to) == Ok::<_, TransportErrorModel>(
            None::<Duration>,
        ),
        NetFaultModel::transparent().in_flight(from, to) is Ok,
        NetFaultModel::transparent().guarded(from, to, result) == result,
{
}

/// A blocked call fails whatever it would have come to, and a block in one direction leaves
/// every other call alone.
pub proof fn a_block_is_one_way<T>(
    rules: NetFaultModel,
    from: NodeId,
    to: NodeId,
    result: Result<T, TransportErrorModel>,
)
    ensures
        rules.block(from, to).guarded(from, to, result) is Err,
        rules.block(from, to).in_flight(from, to) is Err,
        forall|a: NodeId, b: NodeId|
            (a, b) != (from, to) ==> #[trigger] rules.block(from, to).guarded(a, b, result)
                == rules.guarded(a, b, result),
{
}

/// Blocking twice is blocking once.
pub proof fn blocking_is_idempotent(rules: NetFaultModel, from: NodeId, to: NodeId)
    ensures
        rules.block(from, to).block(from, to) == rules.block(from, to),
{
    assert(rules.block(from, to).block(from, to) =~= rules.block(from, to));
}

/// Unblocking undoes a block that was not there before.
pub proof fn unblock_undoes_block(rules: NetFaultModel, from: NodeId, to: NodeId)
    requires
        !rules.blocked.contains((from, to)),
    ensures
        rules.block(from, to).unblock(from, to) == rules,
{
    assert(rules.block(from, to).unblock(from, to) =~= rules);
}

/// Isolation cuts both directions between a node and every other node named, and nothing else;
/// a node is never cut off from itself.
pub proof fn isolation_cuts_both_directions(rules: NetFaultModel, id: NodeId, peers: Seq<NodeId>)
    ensures
        forall|p: NodeId|
            #![trigger peers.contains(p)]
            peers.contains(p) && p != id ==> rules.isolate(id, peers).blocked.contains((id, p))
                && rules.isolate(id, peers).blocked.contains((p, id)),
        forall|a: NodeId, b: NodeId|
            a != id && b != id ==> (#[trigger] rules.isolate(id, peers).blocked.contains((a, b))
                <==> rules.blocked.contains((a, b))),
        rules.isolate(id, peers).blocked.contains((id, id)) <==> rules.blocked.contains((id, id)),
{
}

/// A drop rule turns a success into a network error and leaves a failure as it is.
pub proof fn a_drop_rule_discards_successes<T>(
    rules: NetFaultModel,
    from: NodeId,
    to: NodeId,
    result: Result<T, TransportErrorModel>,
)
    requires
        !rules.blocked.contains((from, to)),
    ensures
        result is Ok ==> rules.drop_response(from, to).guarded(from, to, result) matches Err(
            TransportErrorModel::Network(_),
        ),
        result is Err ==> rules.drop_response(from, to).guarded(from, to, result) == result,
        rules.drop_response(from, to).undrop_response(from, to).guarded(from, to, result)
            == result,
{
}

/// A message sets out exactly when its direction is not blocked, and arrives after the delay of its
/// direction, if there is one. A rule on one direction says nothing of another.
pub proof fn a_message_sets_out_unless_blocked(
    rules: NetFaultModel,
    from: NodeId,
    to: NodeId,
    d: Duration,
)
    ensures
        rules.admitted(from, to) is Ok <==> !rules.blocked.contains((from, to)),
        rules.in_flight(from, to) is Ok <==> !rules.blocked.contains((from, to)),
        rules.admitted(from, to) matches Err(e) ==> e is Unreachable,
        rules.in_flight(from, to) matches Err(e) ==> e is Unreachable,
        rules.admitted(from, to) matches Ok(Some(wait)) ==> rules.delays.contains_key((from, to))
            && rules.delays[(from, to)] == wait,
        rules.admitted(from, to) == Ok::<Option<Duration>, TransportErrorModel>(None)
            ==> !rules.delays.contains_key((from, to)),
        !rules.blocked.contains((from, to)) ==> rules.delay(from, to, d).admitted(from, to) == Ok::<
            Option<Duration>,
            TransportErrorModel,
        >(Some(d)),
        forall|a: NodeId, b: NodeId|
            (a, b) != (from, to) ==> #[trigger] rules.delay(from, to, d).admitted(a, b)
                == rules.admitted(a, b),
{
}

/// An answer comes through as it is, unless its direction is blocked, when the peer cannot be
/// reached, or its answers are dropped, when the call went through and only the answer is lost.
pub proof fn an_answer_comes_through_unless_lost<T>(
    rules: NetFaultModel,
    from: NodeId,
    to: NodeId,
    result: Result<T, TransportErrorModel>,
)
    ensures
        rules.guarded(from, to, result) is Ok <==> result is Ok && !rules.blocked.contains(
            (from, to),
        ) && !rules.dropped.contains((from, to)),
        rules.guarded(from, to, result) is Ok ==> rules.guarded(from, to, result) == result,
        rules.blocked.contains((from, to)) ==> (rules.guarded(from, to, result) matches Err(e) && e
            is Unreachable),
        !rules.blocked.contains((from, to)) && result is Err ==> rules.guarded(from, to, result)
            == result,
        !rules.blocked.contains((from, to)) && rules.dropped.contains((from, to)) && result is Ok
            ==> (rules.guarded(from, to, result) matches Err(e) && e is Network),
        rules.settled(from, to, result) is Ok <==> result is Ok && !rules.dropped.contains(
            (from, to),
        ),
        result is Err ==> rules.settled(from, to, result) == result,
{
}

/// Rules are made and lifted one direction at a time: each of the calls changes its own direction
/// and kind of rule, and leaves every other rule as it was.
pub proof fn rules_are_made_and_lifted_one_by_one(
    rules: NetFaultModel,
    from: NodeId,
    to: NodeId,
    pair: (NodeId, NodeId),
)
    ensures
        rules.block(from, to).blocked.contains(pair) <==> pair == (from, to)
            || rules.blocked.contains(pair),
        rules.block_pair(from, to).blocked.contains(pair) <==> pair == (from, to) || pair == (
            to,
            from,
        ) || rules.blocked.contains(pair),
        rules.unblock(from, to).blocked.contains(pair) <==> pair != (from, to)
            && rules.blocked.contains(pair),
        rules.drop_response(from, to).dropped.contains(pair) <==> pair == (from, to)
            || rules.dropped.contains(pair),
        rules.undrop_response(from, to).dropped.contains(pair) <==> pair != (from, to)
            && rules.dropped.contains(pair),
        rules.block(from, to).delays == rules.delays && rules.block(from, to).dropped
            == rules.dropped,
        rules.unblock(from, to).delays == rules.delays && rules.unblock(from, to).dropped
            == rules.dropped,
        rules.drop_response(from, to).blocked == rules.blocked && rules.drop_response(
            from,
            to,
        ).delays == rules.delays,
        rules.undrop_response(from, to).blocked == rules.blocked && rules.undrop_response(
            from,
            to,
        ).delays == rules.delays,
        !NetFaultModel::transparent().blocked.contains(pair)
            && !NetFaultModel::transparent().dropped.contains(pair)
            && !NetFaultModel::transparent().delays.contains_key(pair),
{
}

/// Isolating a node blocks it from the peers that are named, both ways, and nothing else.
pub proof fn isolation_blocks_what_is_named(
    rules: NetFaultModel,
    id: NodeId,
    peers: Seq<NodeId>,
    from: NodeId,
    to: NodeId,
)
    ensures
        rules.isolate(id, peers).blocked.contains((from, to)) <==> rules.blocked.contains(
            (from, to),
        ) || (from != to && ((from == id && peers.contains(to)) || (to == id && peers.contains(
            from,
        )))),
        rules.isolate(id, peers).delays == rules.delays,
        rules.isolate(id, peers).dropped == rules.dropped,
{
}

} // verus!
