//! Node-level observable state: metrics, health, and the committed membership view.

use std::collections::BTreeMap;
use std::collections::BTreeSet;
use vstd::prelude::*;

use crate::config::AuthzKind;
use crate::config::Authz;
use crate::config::TransportSecurity;
use crate::pagination::PinStats;
use crate::storage::DedupStats;
use crate::storage::Durability;
use crate::storage::StorageMetrics;
use crate::text;
use crate::textmap::TextMap;
use crate::time::Duration;
use crate::transport::SchemaTriple;
use crate::types::LeaderHint;
use crate::types::LeaderHintModel;
use crate::types::NodeId;
use crate::types::RecoveryEpoch;
use crate::watch::WatchStats;

verus! {

/// A Raft log id.
#[derive(Clone, Copy, PartialEq, Eq, Structural, Debug, PartialOrd, Ord, Hash)]
pub struct LogIdView {
    /// Term of the leader that proposed the entry.
    pub term: u64,
    /// Index of the entry.
    pub index: u64,
}

impl LogIdView {
    /// Build a view from its parts.
    pub fn new(term: u64, index: u64) -> (v: Self)
        ensures
            v.term == term,
            v.index == index,
    {
        LogIdView { term, index }
    }
}

impl From<LogIdView> for (u64, u64) {
    fn from(v: LogIdView) -> (r: Self) {
        (v.term, v.index)
    }
}

impl vstd::std_specs::convert::FromSpecImpl<LogIdView> for (u64, u64) {
    open spec fn obeys_from_spec() -> bool {
        true
    }

    open spec fn from_spec(v: LogIdView) -> (u64, u64) {
        (v.term, v.index)
    }
}

/// A node's Raft role.
#[derive(Clone, Copy, PartialEq, Eq, Structural, Debug, Hash)]
pub enum NodeRole {
    /// Replicating, but neither voting nor timing out; also a node that was never formed.
    Learner,
    /// Replicating from a leader.
    Follower,
    /// Campaigning.
    Candidate,
    /// Leading.
    Leader,
    /// Shutting down or shut down.
    Shutdown,
}

impl NodeRole {
    /// The name of a role.
    pub open spec fn name(self) -> Seq<char> {
        match self {
            NodeRole::Learner => "learner"@,
            NodeRole::Follower => "follower"@,
            NodeRole::Candidate => "candidate"@,
            NodeRole::Leader => "leader"@,
            NodeRole::Shutdown => "shutdown"@,
        }
    }

    /// Stable name for log and metric fields.
    pub fn as_str(self) -> (r: &'static str)
        ensures
            r@ == self.name(),
    {
        match self {
            NodeRole::Learner => "learner",
            NodeRole::Follower => "follower",
            NodeRole::Candidate => "candidate",
            NodeRole::Leader => "leader",
            NodeRole::Shutdown => "shutdown",
        }
    }
}

/// Why a caller's transport identity was not established. A closed set, because it becomes a
/// metric label.
#[derive(Clone, Copy, PartialEq, Eq, Structural, Debug, Hash)]
pub enum AuthnRejectReason {
    /// The certificate yields no principal.
    NoPrincipal,
    /// The identity was retired from the cluster.
    IdentityRetired,
}

impl AuthnRejectReason {
    /// The name of a reason.
    pub open spec fn name(self) -> Seq<char> {
        match self {
            AuthnRejectReason::NoPrincipal => "no_principal"@,
            AuthnRejectReason::IdentityRetired => "identity_retired"@,
        }
    }

    /// The log and metric spelling of this reason.
    pub fn as_str(self) -> (r: &'static str)
        ensures
            r@ == self.name(),
    {
        match self {
            AuthnRejectReason::NoPrincipal => "no_principal",
            AuthnRejectReason::IdentityRetired => "identity_retired",
        }
    }
}

/// One authentication counter: the plane, the reason and how often it occurred.
#[derive(Clone, Copy, PartialEq, Eq, Debug)]
pub struct AuthnRejection {
    /// `"client"` or `"peer"`.
    pub plane: &'static str,
    /// Why.
    pub reason: AuthnRejectReason,
    /// How often.
    pub count: u64,
}

/// A snapshot of one node's Raft and storage state.
#[derive(Clone, PartialEq, Eq, Debug)]
pub struct NodeMetrics {
    /// This node.
    pub node_id: NodeId,
    /// Its current role.
    pub role: NodeRole,
    /// Its current Raft term.
    pub current_term: u64,
    /// The leader it currently believes in, if any. A routing hint, never a read guard.
    pub current_leader: Option<NodeId>,
    /// Last index appended to this node's log.
    pub last_log_index: Option<u64>,
    /// Last log id applied to this node's state machine.
    pub last_applied: Option<LogIdView>,
    /// Entries currently held in this node's log.
    pub raft_log_len: u64,
    /// Voter ids of the effective membership, ascending.
    pub membership_voter_ids: Vec<NodeId>,
    /// Log id of the effective membership entry, if any.
    pub membership_log_id: Option<LogIdView>,
    /// The public cluster revision this node has applied.
    pub cluster_revision: u64,
    /// Command-carrying entries applied so far.
    pub applied_commands: u64,
    /// Whether the Raft core is running.
    pub running_state_ok: bool,
    /// For a leader, milliseconds since a quorum last acknowledged it.
    pub millis_since_quorum_ack: Option<u64>,
    /// Authorization decisions this node refused, since start.
    pub authz_denied: u64,
    /// Admin-plane calls refused by the allowlist of admins, since start.
    pub authz_denied_admin: u64,
    /// Connections whose transport identity could not be established, on both planes.
    pub authn_rejected: u64,
    /// The peer-plane share of `authn_rejected`.
    pub authn_rejected_peer: u64,
    /// Every authentication counter, also those at zero.
    pub authn_rejected_by_reason: Vec<AuthnRejection>,
}

/// What authorization policy a node is holding. None of it is a policy body.
#[derive(Clone, PartialEq, Eq, Debug)]
pub struct PolicySummary {
    /// The model in force.
    pub kind: Authz,
    /// How many grant rules the node's allowlist holds; `0` for every other model.
    pub grants: u64,
    /// Lowercase hexadecimal digest of the policy document, when there was one.
    pub policy_hash_hex: Option<String>,
}

/// What a node will do with client traffic right now.
#[derive(PartialEq, Eq, Debug)]
pub enum Health {
    /// Leader; reads and writes are served here.
    Ready,
    /// A follower.
    NotLeader {
        /// Where to retry.
        hint: Option<LeaderHint>,
    },
    /// Not formed, no leader known, or storage failed.
    Unavailable {
        /// Explanation for an operator.
        reason: String,
    },
    /// The node was stopped.
    Stopped,
}

/// What a [`Health`] says.
pub enum HealthModel {
    Ready,
    NotLeader { hint: Option<LeaderHintModel> },
    Unavailable { reason: Seq<char> },
    Stopped,
}

impl View for Health {
    type V = HealthModel;

    open spec fn view(&self) -> HealthModel {
        match self {
            Health::Ready => HealthModel::Ready,
            Health::NotLeader { hint } => HealthModel::NotLeader {
                hint: crate::types::hint_model(*hint),
            },
            Health::Unavailable { reason } => HealthModel::Unavailable { reason: reason@ },
            Health::Stopped => HealthModel::Stopped,
        }
    }
}

/// The committed membership: the only authoritative statement of who the voters are and where
/// they live.
#[derive(Clone, PartialEq, Eq, Debug)]
pub struct MembershipView {
    /// Committed voters.
    pub voters: BTreeSet<u64>,
    /// Committed peer-plane endpoints, by node. What the Raft transport dials.
    pub endpoints: BTreeMap<u64, String>,
    /// Committed client-plane endpoints, by node. What a leader hint names.
    pub client_endpoints: BTreeMap<u64, String>,
    /// Term and index of the membership entry, if membership was ever committed.
    pub membership_log_id: Option<(u64, u64)>,
}

impl Default for MembershipView {
    fn default() -> (m: Self)
        ensures
            m.voters@ == Set::<u64>::empty(),
            m.endpoints@ == Map::<u64, String>::empty(),
            m.client_endpoints@ == Map::<u64, String>::empty(),
            m.membership_log_id is None,
    {
        MembershipView {
            voters: BTreeSet::new(),
            endpoints: BTreeMap::new(),
            client_endpoints: BTreeMap::new(),
            membership_log_id: None,
        }
    }
}

impl MembershipView {
    /// Whether there are voters.
    pub open spec fn formed(&self) -> bool {
        self.voters@ != Set::<u64>::empty()
    }

    /// Whether any membership has been committed yet, that is, whether the cluster is formed.
    pub fn is_formed(&self) -> (r: bool)
        ensures
            r == self.formed(),
    {
        !self.voters.is_empty()
    }

    /// The committed peer endpoint of `node_id`, if it is a known member.
    pub fn endpoint_of(&self, node_id: NodeId) -> (r: Option<&String>)
        ensures
            match r {
                Some(e) => self.endpoints@.contains_key(node_id.0) && *e
                    == self.endpoints@[node_id.0],
                None => !self.endpoints@.contains_key(node_id.0),
            },
    {
        self.endpoints.get(&node_id.0)
    }

    /// The committed client endpoint of `node_id`, if it is a known member.
    pub fn client_endpoint_of(&self, node_id: NodeId) -> (r: Option<&String>)
        ensures
            match r {
                Some(e) => self.client_endpoints@.contains_key(node_id.0) && *e
                    == self.client_endpoints@[node_id.0],
                None => !self.client_endpoints@.contains_key(node_id.0),
            },
    {
        self.client_endpoints.get(&node_id.0)
    }
}

/// A node's state for an operator or another process. It carries no key and no value: ids, counts,
/// revisions and digests only. `R` says where a data directory was restored from and `P` why
/// there is no policy; neither is known to the node itself.
#[derive(PartialEq, Eq, Debug)]
pub struct HealthPayload<R, P> {
    /// This node.
    pub node_id: NodeId,
    /// Its cluster, as 32 lowercase hexadecimal digits.
    pub cluster_id: String,
    /// Its recovery epoch.
    pub recovery_epoch: RecoveryEpoch,
    /// Its current role.
    pub role: NodeRole,
    /// The leader it currently believes in.
    pub current_leader: Option<NodeId>,
    /// Its current term.
    pub term: u64,
    /// Last log index applied.
    pub last_applied: Option<u64>,
    /// Last log index known to be committed.
    pub committed: Option<u64>,
    /// Committed voters, ascending.
    pub membership_voter_ids: Vec<NodeId>,
    /// Log id of the committed membership entry.
    pub membership_log_id: Option<LogIdView>,
    /// The public revision applied here.
    pub cluster_revision: u64,
    /// The digest of applied state, as 64 lowercase hexadecimal digits.
    pub state_hash_hex: String,
    /// Commands applied so far.
    pub applied_commands: u64,
    /// What survives a restart.
    pub durability: Durability,
    /// Whether this node serves client traffic.
    pub ready: bool,
    /// The authorization model in force, or that none is.
    pub authz_kind: AuthzKind,
    /// What this node advertises to its peers.
    pub schema: SchemaTriple,
    /// The lowest schema of any voter, on the leader.
    pub cluster_min_schema: Option<SchemaTriple>,
    /// How the client plane is protected.
    pub transport_security: TransportSecurity,
    /// The policy this node holds.
    pub policy: PolicySummary,
    /// Where the data directory was restored from, if it was.
    pub restored_from: Option<R>,
    /// Authorization decisions refused.
    pub authz_denied: u64,
    /// Connections whose identity could not be established.
    pub authn_rejected: u64,
    /// The compaction watermark.
    pub compact_revision: u64,
    /// Oldest revision in the journal, or `None` when it is empty.
    pub journal_oldest_revision: Option<u64>,
    /// Newest revision in the journal, or `None` when it is empty.
    pub journal_newest_revision: Option<u64>,
    /// The digest of the journal above the watermark, as 64 lowercase hexadecimal digits.
    pub journal_hash: String,
    /// Watch streams registered right now.
    pub watch_streams_open: usize,
    /// The signed policy version in force.
    pub policy_version: Option<u64>,
    /// Why there is no policy, as whoever loads policies knows it.
    pub policy_state: Option<P>,
}

/// How many bounds a latency histogram has.
pub const LATENCY_BUCKETS: usize = 12;

/// The upper bound of bucket `i` in nanoseconds, shared by every latency histogram.
pub open spec fn bucket_bound(i: int) -> nat {
    if i == 0 {
        1_000_000
    } else if i == 1 {
        2_500_000
    } else if i == 2 {
        5_000_000
    } else if i == 3 {
        10_000_000
    } else if i == 4 {
        25_000_000
    } else if i == 5 {
        50_000_000
    } else if i == 6 {
        100_000_000
    } else if i == 7 {
        250_000_000
    } else if i == 8 {
        500_000_000
    } else if i == 9 {
        1_000_000_000
    } else if i == 10 {
        2_500_000_000
    } else {
        5_000_000_000
    }
}

/// The upper bound of bucket `i` in seconds, as a label.
pub open spec fn bucket_label(i: int) -> Seq<char> {
    if i == 0 {
        "0.001"@
    } else if i == 1 {
        "0.0025"@
    } else if i == 2 {
        "0.005"@
    } else if i == 3 {
        "0.01"@
    } else if i == 4 {
        "0.025"@
    } else if i == 5 {
        "0.05"@
    } else if i == 6 {
        "0.1"@
    } else if i == 7 {
        "0.25"@
    } else if i == 8 {
        "0.5"@
    } else if i == 9 {
        "1"@
    } else if i == 10 {
        "2.5"@
    } else {
        "5"@
    }
}

fn bound_of(i: usize) -> (n: u128)
    requires
        i < 12,
    ensures
        n == bucket_bound(i as int),
{
    if i == 0 {
        1_000_000
    } else if i == 1 {
        2_500_000
    } else if i == 2 {
        5_000_000
    } else if i == 3 {
        10_000_000
    } else if i == 4 {
        25_000_000
    } else if i == 5 {
        50_000_000
    } else if i == 6 {
        100_000_000
    } else if i == 7 {
        250_000_000
    } else if i == 8 {
        500_000_000
    } else if i == 9 {
        1_000_000_000
    } else if i == 10 {
        2_500_000_000
    } else {
        5_000_000_000
    }
}

/// The label of bucket `i`.
pub fn label_of(i: usize) -> (s: &'static str)
    requires
        i < 12,
    ensures
        s@ == bucket_label(i as int),
{
    if i == 0 {
        "0.001"
    } else if i == 1 {
        "0.0025"
    } else if i == 2 {
        "0.005"
    } else if i == 3 {
        "0.01"
    } else if i == 4 {
        "0.025"
    } else if i == 5 {
        "0.05"
    } else if i == 6 {
        "0.1"
    } else if i == 7 {
        "0.25"
    } else if i == 8 {
        "0.5"
    } else if i == 9 {
        "1"
    } else if i == 10 {
        "2.5"
    } else {
        "5"
    }
}

/// Whether `i` is the bucket of a span of `nanos` nanoseconds: the first whose bound it does not
/// exceed.
pub open spec fn in_bucket(nanos: nat, i: int) -> bool {
    &&& 0 <= i < 12
    &&& nanos <= bucket_bound(i)
    &&& forall|j: int| 0 <= j < i ==> #[trigger] bucket_bound(j) < nanos
}

/// A counter after `n` more events: counters start over at zero past the largest value.
pub open spec fn counted(counter: u64, n: nat) -> u64 {
    ((counter as nat + n) % 0x1_0000_0000_0000_0000) as u64
}

/// A counter goes up by as many events as there were, until the numbers run out; past the largest
/// value it starts over at zero. Counting in two goes is counting in one.
pub proof fn counters_add_up(counter: u64, n: nat, m: nat)
    ensures
        counter + n <= u64::MAX ==> counted(counter, n) == counter + n,
        counter + n == u64::MAX + 1 ==> counted(counter, n) == 0,
        counted(counter, 0) == counter,
        counted(counted(counter, n), m) == counted(counter, n + m),
{
    let end: int = 0x1_0000_0000_0000_0000;
    vstd::arithmetic::div_mod::lemma_add_mod_noop(counter + n, m as int, end);
    if m < end {
        vstd::arithmetic::div_mod::lemma_small_mod(m, end as nat);
    }
    assert(counted(counter, n) == (counter + n) % end);
    assert((((counter + n) % end) + m) % end == (counter + n + m) % end) by {
        vstd::arithmetic::div_mod::lemma_add_mod_noop_right(m as int, counter + n, end);
    }
}

/// Add `n` to a counter that starts over at zero past the largest value.
pub fn count_up(counter: u64, n: u64) -> (r: u64)
    ensures
        r == counted(counter, n as nat),
{
    counter.wrapping_add(n)
}

/// A latency histogram. Each bucket counts the observations that fall in it alone.
#[derive(Clone, Copy, PartialEq, Eq, Debug)]
pub struct LatencyHistogram {
    buckets: [u64; 12],
    count: u64,
    sum_micros: u64,
}

impl Default for LatencyHistogram {
    fn default() -> (h: Self)
        ensures
            h.is_empty(),
            h.sound(),
    {
        let h = LatencyHistogram { buckets: [0; 12], count: 0, sum_micros: 0 };
        assert(h.buckets@ =~= Seq::new(12, |i: int| 0u64));
        proof {
            reveal_with_fuel(LatencyHistogram::below, 13);
        }
        h
    }
}

impl LatencyHistogram {
    /// The counts of the buckets.
    pub closed spec fn bucket_counts(&self) -> Seq<u64> {
        self.buckets@
    }

    /// How many observations there were.
    pub closed spec fn observations(&self) -> u64 {
        self.count
    }

    /// The observed microseconds in all.
    pub closed spec fn total_micros(&self) -> u64 {
        self.sum_micros
    }

    /// Whether nothing was observed yet.
    pub open spec fn is_empty(&self) -> bool {
        &&& self.bucket_counts() == Seq::new(12, |i: int| 0u64)
        &&& self.observations() == 0
        &&& self.total_micros() == 0
    }

    /// The buckets hold no more than there were observations. An observation keeps this until
    /// the counter of observations starts over.
    pub open spec fn sound(&self) -> bool {
        &&& self.bucket_counts().len() == 12
        &&& Self::below(self.bucket_counts(), 12) <= self.observations()
    }

    /// Whether `after` is this histogram with one more observation.
    pub open spec fn observed(&self, elapsed: Duration, after: LatencyHistogram) -> bool {
        &&& after.observations() == counted(self.observations(), 1)
        &&& after.total_micros() == counted(self.total_micros(), elapsed.nanos as nat / 1_000)
        &&& after.bucket_counts().len() == 12
        &&& forall|i: int|
            0 <= i < 12 ==> #[trigger] after.bucket_counts()[i] == (if in_bucket(
                elapsed.nanos as nat,
                i,
            ) {
                counted(self.bucket_counts()[i], 1)
            } else {
                self.bucket_counts()[i]
            })
    }

    /// Record one observation.
    pub fn observe(&mut self, elapsed: Duration)
        ensures
            old(self).observed(elapsed, *final(self)),
            old(self).sound() && old(self).observations() < u64::MAX ==> final(self).sound(),
    {
        let mut i: usize = 0;
        let mut found: bool = false;
        while i < 12 && !found
            invariant
                i <= 12,
                !found ==> self.buckets == old(self).buckets,
                self.count == old(self).count,
                self.sum_micros == old(self).sum_micros,
                !found ==> forall|j: int| 0 <= j < i ==> #[trigger] bucket_bound(j) < elapsed.nanos,
                found ==> i < 12 && in_bucket(elapsed.nanos as nat, i as int) && self.buckets@
                    == old(self).buckets@.update(
                    i as int,
                    counted(old(self).buckets@[i as int], 1),
                ),
            decreases 13 - i - (if found { 1int } else { 0 }),
        {
            if elapsed.nanos <= bound_of(i) {
                self.buckets[i] = count_up(self.buckets[i], 1);
                found = true;
            } else {
                i = i + 1;
            }
        }
        self.count = count_up(self.count, 1);
        let micros: u64 = (elapsed.as_micros() % 0x1_0000_0000_0000_0000) as u64;
        self.sum_micros = count_up(self.sum_micros, micros);
        proof {
            assert forall|k: int| 0 <= k < 12 && in_bucket(elapsed.nanos as nat, k) implies found
                && k == i by {
                if found {
                    if k < i {
                        assert(bucket_bound(k) < elapsed.nanos);
                    }
                    if i < k {
                        assert(bucket_bound(i as int) < elapsed.nanos);
                    }
                } else {
                    assert(bucket_bound(k) < elapsed.nanos);
                }
            }
            if old(self).sound() && old(self).count < u64::MAX {
                no_bucket_is_full(old(self).buckets@);
                one_more_in_a_bucket(
                    old(self).buckets@,
                    self.buckets@,
                    elapsed.nanos as nat,
                    12,
                );
            }
        }
    }

    /// The sum of the first `n` buckets.
    pub open spec fn below(counts: Seq<u64>, n: int) -> nat
        decreases n,
    {
        if n <= 0 {
            0
        } else {
            Self::below(counts, n - 1) + counts[n - 1] as nat
        }
    }

    /// Whether `s` is this histogram in the cumulative form.
    pub open spec fn reads(&self, s: HistogramSnapshot) -> bool {
        &&& s.count == self.observations()
        &&& s.sum_micros == self.total_micros()
        &&& forall|i: int|
            0 <= i < 12 ==> #[trigger] s.cumulative@[i] == Self::below(
                self.bucket_counts(),
                i + 1,
            ) % 0x1_0000_0000_0000_0000
    }

    /// Read the histogram out in the cumulative form.
    pub fn snapshot(&self) -> (s: HistogramSnapshot)
        ensures
            self.reads(s),
            self.sound() ==> s.ascends(),
    {
        let mut cumulative: [u64; 12] = [0; 12];
        let mut running: u64 = 0;
        let mut i: usize = 0;
        while i < 12
            invariant
                i <= 12,
                running == Self::below(self.buckets@, i as int) % 0x1_0000_0000_0000_0000,
                forall|j: int|
                    0 <= j < i ==> #[trigger] cumulative@[j] == Self::below(self.buckets@, j + 1)
                        % 0x1_0000_0000_0000_0000,
            decreases 12 - i,
        {
            running = count_up(running, self.buckets[i]);
            cumulative[i] = running;
            i = i + 1;
        }
        let s = HistogramSnapshot { cumulative, count: self.count, sum_micros: self.sum_micros };
        proof {
            if self.sound() {
                sound_reads_ascend(*self, s);
            }
        }
        s
    }
}

/// One [`LatencyHistogram`] read at a point in time.
#[derive(Clone, Copy, PartialEq, Eq, Debug)]
pub struct HistogramSnapshot {
    /// Observations at or below each bound.
    pub cumulative: [u64; 12],
    /// Observations in all, which is also the count below no bound.
    pub count: u64,
    /// Observed microseconds in all.
    pub sum_micros: u64,
}

impl HistogramSnapshot {
    /// What was counted at or below a bound grows from bound to bound, and is never more than
    /// there were observations.
    pub open spec fn ascends(&self) -> bool {
        &&& forall|i: int, j: int|
            0 <= i <= j < 12 ==> #[trigger] self.cumulative@[i] <= #[trigger] self.cumulative@[j]
        &&& self.cumulative@[11] <= self.count
    }
}

proof fn sums_ascend(counts: Seq<u64>, i: int, j: int)
    requires
        0 <= i <= j,
    ensures
        LatencyHistogram::below(counts, i) <= LatencyHistogram::below(counts, j),
    decreases j,
{
    if i < j {
        sums_ascend(counts, i, j - 1);
    }
}

proof fn one_more_in_a_bucket(before: Seq<u64>, after: Seq<u64>, nanos: nat, n: int)
    requires
        before.len() == 12,
        0 <= n <= 12,
        forall|i: int| 0 <= i < 12 ==> #[trigger] before[i] < u64::MAX,
        forall|i: int|
            0 <= i < 12 ==> #[trigger] after[i] == (if in_bucket(nanos, i) {
                counted(before[i], 1)
            } else {
                before[i]
            }),
    ensures
        LatencyHistogram::below(before, n) <= LatencyHistogram::below(after, n)
            <= LatencyHistogram::below(before, n) + 1,
        LatencyHistogram::below(after, n) == LatencyHistogram::below(before, n) + 1 <==> exists|
            i: int,
        | 0 <= i < n && #[trigger] in_bucket(nanos, i),
    decreases n,
{
    if n > 0 {
        one_more_in_a_bucket(before, after, nanos, n - 1);
        let last = n - 1;
        assert(after[last] == (if in_bucket(nanos, last) {
            counted(before[last], 1)
        } else {
            before[last]
        }));
        if in_bucket(nanos, last) {
            assert forall|i: int| 0 <= i < last implies !#[trigger] in_bucket(nanos, i) by {
                assert(bucket_bound(i) < nanos);
            }
        }
    }
}

proof fn no_bucket_is_full(counts: Seq<u64>)
    requires
        LatencyHistogram::below(counts, 12) < u64::MAX,
    ensures
        forall|k: int| 0 <= k < 12 ==> #[trigger] counts[k] < u64::MAX,
{
    assert forall|k: int| 0 <= k < 12 implies #[trigger] counts[k] < u64::MAX by {
        sums_ascend(counts, k + 1, 12);
    }
}

proof fn sound_reads_ascend(h: LatencyHistogram, s: HistogramSnapshot)
    requires
        h.sound(),
        h.reads(s),
    ensures
        s.ascends(),
        forall|i: int|
            0 <= i < 12 ==> #[trigger] s.cumulative@[i] == LatencyHistogram::below(
                h.bucket_counts(),
                i + 1,
            ),
{
    assert forall|i: int| 0 <= i < 12 implies #[trigger] s.cumulative@[i]
        == LatencyHistogram::below(h.bucket_counts(), i + 1) by {
        sums_ascend(h.bucket_counts(), i + 1, 12);
    }
    assert forall|i: int, j: int| 0 <= i <= j < 12 implies #[trigger] s.cumulative@[i]
        <= #[trigger] s.cumulative@[j] by {
        sums_ascend(h.bucket_counts(), i + 1, j + 1);
    }
}

/// A span has a bucket at or below a bound exactly if it does not exceed the bound.
proof fn bucket_at_or_below(nanos: nat, n: int)
    requires
        0 <= n < 12,
    ensures
        nanos <= bucket_bound(n) <==> exists|i: int| 0 <= i < n + 1 && #[trigger] in_bucket(nanos, i),
    decreases n,
{
    if n > 0 {
        bucket_at_or_below(nanos, n - 1);
    }
    if nanos <= bucket_bound(n) {
        if n > 0 && nanos <= bucket_bound(n - 1) {
            let i = choose|i: int| 0 <= i < n && #[trigger] in_bucket(nanos, i);
            assert(in_bucket(nanos, i));
        } else {
            assert forall|j: int| 0 <= j < n implies #[trigger] bucket_bound(j) < nanos by {
                if n > 0 {
                    assert(bucket_bound(j) <= bucket_bound(n - 1));
                }
            }
            assert(in_bucket(nanos, n));
        }
    } else {
        assert forall|i: int| 0 <= i < n + 1 implies !#[trigger] in_bucket(nanos, i) by {
            assert(bucket_bound(i) <= bucket_bound(n));
        }
    }
}

/// One observation, as two readings around it show it: one more in all, one more at or below
/// every bound that the observation does not exceed, and no other change to the counts. Both
/// readings grow from bound to bound and end at or below the number of observations.
pub proof fn one_observation_moves_the_buckets(
    before: LatencyHistogram,
    after: LatencyHistogram,
    elapsed: Duration,
    first: HistogramSnapshot,
    second: HistogramSnapshot,
)
    requires
        before.sound(),
        before.observations() < u64::MAX,
        before.observed(elapsed, after),
        before.reads(first),
        after.reads(second),
    ensures
        second.count == first.count + 1,
        second.sum_micros == counted(first.sum_micros, elapsed.nanos as nat / 1_000),
        forall|i: int|
            0 <= i < 12 ==> #[trigger] second.cumulative@[i] == first.cumulative@[i] + (if
            elapsed.nanos as nat <= bucket_bound(i) {
                1int
            } else {
                0
            }),
        first.ascends(),
        second.ascends(),
{
    let nanos = elapsed.nanos as nat;
    no_bucket_is_full(before.bucket_counts());
    one_more_in_a_bucket(before.bucket_counts(), after.bucket_counts(), nanos, 12);
    sound_reads_ascend(before, first);
    sound_reads_ascend(after, second);
    assert forall|i: int| 0 <= i < 12 implies #[trigger] second.cumulative@[i]
        == first.cumulative@[i] + (if nanos <= bucket_bound(i) {
        1int
    } else {
        0
    }) by {
        one_more_in_a_bucket(before.bucket_counts(), after.bucket_counts(), nanos, i + 1);
        bucket_at_or_below(nanos, i);
        assert(first.cumulative@[i] == LatencyHistogram::below(before.bucket_counts(), i + 1));
    }
}

/// Write-path latency, by operation.
#[derive(Clone, Copy, PartialEq, Eq, Debug)]
pub struct OpLatencies {
    /// Puts.
    pub put: LatencyHistogram,
    /// Deletes.
    pub delete: LatencyHistogram,
}

impl Default for OpLatencies {
    fn default() -> (o: Self)
        ensures
            o.put.is_empty(),
            o.delete.is_empty(),
            o.put.sound(),
            o.delete.sound(),
    {
        let h = LatencyHistogram::default();
        OpLatencies { put: h, delete: h }
    }
}

impl OpLatencies {
    /// The histogram for `op`, or `None` for an operation that is not a proposal.
    pub fn for_op(&self, op: &str) -> (r: Option<&LatencyHistogram>)
        ensures
            op@ == "put"@ ==> r == Some(&self.put),
            op@ == "delete"@ ==> r == Some(&self.delete),
            op@ != "put"@ && op@ != "delete"@ ==> r is None,
    {
        proof {
            reveal_strlit("put");
            reveal_strlit("delete");
            assert("put"@.len() != "delete"@.len());
        }
        if text::same_text(op, "put") {
            Some(&self.put)
        } else if text::same_text(op, "delete") {
            Some(&self.delete)
        } else {
            None
        }
    }

    /// Whether `after` is these histograms with one more observation of `op`, if it is a
    /// proposal.
    pub open spec fn observed(&self, op: Seq<char>, elapsed: Duration, after: OpLatencies) -> bool {
        &&& if op == "put"@ {
            self.put.observed(elapsed, after.put)
        } else {
            after.put == self.put
        }
        &&& if op == "delete"@ {
            self.delete.observed(elapsed, after.delete)
        } else {
            after.delete == self.delete
        }
    }

    /// Record one observation of `op`. An operation that is not a proposal is not recorded.
    pub fn observe(&mut self, op: &str, elapsed: Duration)
        ensures
            old(self).observed(op@, elapsed, *final(self)),
            old(self).put.sound() && old(self).put.observations() < u64::MAX
                ==> final(self).put.sound(),
            old(self).delete.sound() && old(self).delete.observations() < u64::MAX
                ==> final(self).delete.sound(),
    {
        proof {
            reveal_strlit("put");
            reveal_strlit("delete");
            assert("put"@.len() != "delete"@.len());
        }
        if text::same_text(op, "put") {
            self.put.observe(elapsed);
        } else if text::same_text(op, "delete") {
            self.delete.observe(elapsed);
        }
    }

    /// Whether `shown` is both histograms by operation.
    pub open spec fn reads(&self, shown: Map<Seq<char>, HistogramSnapshot>) -> bool {
        &&& shown.dom() == set!["put"@, "delete"@]
        &&& self.put.reads(shown["put"@])
        &&& self.delete.reads(shown["delete"@])
    }

    /// Both histograms by operation, for a scrape.
    pub fn snapshot(&self) -> (r: TextMap<HistogramSnapshot>)
        ensures
            r.wf(),
            self.reads(r@),
    {
        proof {
            reveal_strlit("put");
            reveal_strlit("delete");
            assert("put"@.len() != "delete"@.len());
        }
        let mut out: TextMap<HistogramSnapshot> = TextMap::new();
        let put = self.put.snapshot();
        let delete = self.delete.snapshot();
        out.insert("put".to_owned(), put);
        out.insert("delete".to_owned(), delete);
        assert(out@.dom() =~= set!["put"@, "delete"@]);
        assert(out@["put"@] == put);
        assert(out@["delete"@] == delete);
        out
    }
}

/// What one node's signed-policy lifecycle looks like right now: versions and counts only.
#[derive(Clone, PartialEq, Eq, Debug)]
pub struct PolicyMetrics {
    /// The version this node is enforcing, or `None` when it holds no valid document.
    pub version: Option<u64>,
    /// The newest version every voter this node knows of has reported.
    pub converged_version: Option<u64>,
    /// Rollbacks performed because they were permitted at start.
    pub rollbacks: u64,
    /// Refused reloads by reason.
    pub reload_failures: TextMap<u64>,
    /// Whether this process was started with rollbacks permitted.
    pub break_glass_active: bool,
}

impl Default for PolicyMetrics {
    fn default() -> (p: Self)
        ensures
            p.version is None,
            p.converged_version is None,
            p.rollbacks == 0,
            p.reload_failures.wf(),
            p.reload_failures@ == Map::<Seq<char>, u64>::empty(),
            !p.break_glass_active,
    {
        PolicyMetrics {
            version: None,
            converged_version: None,
            rollbacks: 0,
            reload_failures: TextMap::new(),
            break_glass_active: false,
        }
    }
}

/// Everything one scrape needs, gathered once.
///
/// Free space, certificate expiry, backup age, pagination and policy are facts the node cannot
/// know; what is unknown is left out of the exposition rather than reported as zero.
#[derive(Clone, PartialEq, Eq, Debug)]
pub struct MetricsReport {
    /// Raft and apply state.
    pub node: NodeMetrics,
    /// Counters of a store on disk, or `None` for an ephemeral one.
    pub storage: Option<StorageMetrics>,
    /// The bounded deduplication index.
    pub dedup: DedupStats,
    /// Compactions applied on this node.
    pub compactions: u64,
    /// Watch counters.
    pub watch: WatchStats,
    /// Observed reachability of each peer.
    pub gossip_reachable: BTreeMap<u64, bool>,
    /// Gossip hints refused because they disagreed with committed membership.
    pub gossip_endpoint_mismatch: u64,
    /// Observed leadership transitions on this node.
    pub leader_changes: u64,
    /// On a leader: how far each peer is behind the leader's last log index.
    pub peer_lag: BTreeMap<u64, u64>,
    /// Last index this node knows to be committed.
    pub commit_index: Option<u64>,
    /// Submit-to-commit latency of client writes, by operation.
    pub proposal_latency: TextMap<HistogramSnapshot>,
    /// Linearizable read barrier latency.
    pub read_latency: HistogramSnapshot,
    /// Free bytes on the data directory's volume, when known.
    pub disk_free_bytes: Option<u64>,
    /// Seconds until each plane's certificate expires, when known.
    pub cert_expiry_seconds: TextMap<i64>,
    /// Age of the most recent successful backup, when known.
    pub backup_age_seconds: Option<u64>,
    /// Revision-pinned list snapshots, when this build has a paginator.
    pub pagination: Option<PinStats>,
    /// The signed policy, when policies are signed.
    pub policy: Option<PolicyMetrics>,
}

/// What a label of seconds says from its place `i` on, in nanoseconds: `unit` is what the next digit
/// behind the point is worth, or zero before the point.
pub open spec fn seconds_read(label: Seq<char>, i: nat, unit: nat, so_far: nat) -> nat
    decreases label.len() - i,
{
    if i >= label.len() {
        so_far
    } else if label[i as int] == '.' {
        seconds_read(label, i + 1, 100_000_000, so_far)
    } else {
        let digit = (label[i as int] as int - 48) as nat;
        if unit == 0 {
            seconds_read(label, i + 1, 0, so_far * 10 + digit * 1_000_000_000)
        } else {
            seconds_read(label, i + 1, unit / 10, so_far + digit * unit)
        }
    }
}

proof fn labels_read()
    ensures
        seconds_read("0.001"@, 0, 0, 0) == 1_000_000,
        seconds_read("0.0025"@, 0, 0, 0) == 2_500_000,
        seconds_read("0.005"@, 0, 0, 0) == 5_000_000,
        seconds_read("0.01"@, 0, 0, 0) == 10_000_000,
        seconds_read("0.025"@, 0, 0, 0) == 25_000_000,
        seconds_read("0.05"@, 0, 0, 0) == 50_000_000,
        seconds_read("0.1"@, 0, 0, 0) == 100_000_000,
        seconds_read("0.25"@, 0, 0, 0) == 250_000_000,
        seconds_read("0.5"@, 0, 0, 0) == 500_000_000,
        seconds_read("1"@, 0, 0, 0) == 1_000_000_000,
        seconds_read("2.5"@, 0, 0, 0) == 2_500_000_000,
        seconds_read("5"@, 0, 0, 0) == 5_000_000_000,
{
    reveal_with_fuel(seconds_read, 7);
    assert(seconds_read("0.001"@, 0, 0, 0) == 1_000_000) by {
        reveal_strlit("0.001");
    }
    assert(seconds_read("0.0025"@, 0, 0, 0) == 2_500_000) by {
        reveal_strlit("0.0025");
    }
    assert(seconds_read("0.005"@, 0, 0, 0) == 5_000_000) by {
        reveal_strlit("0.005");
    }
    assert(seconds_read("0.01"@, 0, 0, 0) == 10_000_000) by {
        reveal_strlit("0.01");
    }
    assert(seconds_read("0.025"@, 0, 0, 0) == 25_000_000) by {
        reveal_strlit("0.025");
    }
    assert(seconds_read("0.05"@, 0, 0, 0) == 50_000_000) by {
        reveal_strlit("0.05");
    }
    assert(seconds_read("0.1"@, 0, 0, 0) == 100_000_000) by {
        reveal_strlit("0.1");
    }
    assert(seconds_read("0.25"@, 0, 0, 0) == 250_000_000) by {
        reveal_strlit("0.25");
    }
    assert(seconds_read("0.5"@, 0, 0, 0) == 500_000_000) by {
        reveal_strlit("0.5");
    }
    assert(seconds_read("1"@, 0, 0, 0) == 1_000_000_000) by {
        reveal_strlit("1");
    }
    assert(seconds_read("2.5"@, 0, 0, 0) == 2_500_000_000) by {
        reveal_strlit("2.5");
    }
    assert(seconds_read("5"@, 0, 0, 0) == 5_000_000_000) by {
        reveal_strlit("5");
    }
}

/// Every bucket is labelled with its bound in seconds, and the bounds ascend: an observation that
/// is within one is within all that follow.
pub proof fn buckets_are_labelled_with_their_bounds(i: int)
    requires
        0 <= i < 12,
    ensures
        seconds_read(bucket_label(i), 0, 0, 0) == bucket_bound(i),
        forall|j: int| 0 <= j < i ==> #[trigger] bucket_bound(j) < bucket_bound(i),
{
    labels_read();
}

/// An observation belongs to exactly one bucket, the first that is wide enough, unless it exceeds
/// them all.
pub proof fn an_observation_has_one_bucket(nanos: nat, i: int, j: int)
    ensures
        in_bucket(nanos, i) && in_bucket(nanos, j) ==> i == j,
        in_bucket(nanos, i) ==> nanos <= bucket_bound(i) && (i > 0 ==> bucket_bound(i - 1) < nanos),
        nanos <= 5_000_000_000 <==> exists|k: int| #[trigger] in_bucket(nanos, k),
{
    if in_bucket(nanos, i) && in_bucket(nanos, j) {
        if i < j {
            assert(bucket_bound(i) < nanos);
        }
        if j < i {
            assert(bucket_bound(j) < nanos);
        }
    }
    if in_bucket(nanos, i) && i > 0 {
        assert(bucket_bound(i - 1) < nanos);
    }
    bucket_at_or_below(nanos, 11);
    if exists|k: int| #[trigger] in_bucket(nanos, k) {
        let k = choose|k: int| #[trigger] in_bucket(nanos, k);
        buckets_are_labelled_with_their_bounds(11);
        if k < 11 {
            assert(bucket_bound(k) < bucket_bound(11));
        }
    }
}

/// An operation is observed under its own name: the latencies of the other do not change.
pub proof fn operations_are_observed_apart(
    before: OpLatencies,
    op: Seq<char>,
    elapsed: Duration,
    after: OpLatencies,
)
    requires
        before.observed(op, elapsed, after),
    ensures
        op == "put"@ ==> before.put.observed(elapsed, after.put) && after.delete == before.delete,
        op == "delete"@ ==> before.delete.observed(elapsed, after.delete) && after.put
            == before.put,
        op != "put"@ && op != "delete"@ ==> after == before,
{
    reveal_strlit("put");
    reveal_strlit("delete");
    assert("put"@.len() != "delete"@.len());
}

/// A cluster is formed once it has a voter.
pub proof fn a_cluster_with_a_voter_is_formed(m: MembershipView, voter: u64)
    ensures
        m.voters@.contains(voter) ==> m.formed(),
        m.formed() ==> exists|v: u64| m.voters@.contains(v),
{
    if m.formed() && forall|v: u64| !m.voters@.contains(v) {
        assert(m.voters@ =~= Set::<u64>::empty());
    }
}

/// A histogram without an observation reads as zeros.
pub proof fn an_empty_histogram_reads_as_zeros(h: LatencyHistogram, s: HistogramSnapshot)
    requires
        h.is_empty(),
        h.reads(s),
    ensures
        s.count == 0,
        s.sum_micros == 0,
        forall|i: int| 0 <= i < 12 ==> #[trigger] s.cumulative@[i] == 0,
{
    reveal_with_fuel(LatencyHistogram::below, 13);
}

/// Health is seen as what it is.
pub proof fn health_is_seen_as_it_is(h: Health)
    ensures
        h is Ready <==> h@ is Ready,
        h is Stopped <==> h@ is Stopped,
        h matches Health::NotLeader { hint } ==> h@ == (HealthModel::NotLeader {
            hint: crate::types::hint_model(hint),
        }),
        h matches Health::Unavailable { reason } ==> h@ == (HealthModel::Unavailable {
            reason: reason@,
        }),
{
}

/// Roles have different names, and so have the reasons of rejections.
pub proof fn roles_are_told_apart(
    a: NodeRole,
    b: NodeRole,
    c: AuthnRejectReason,
    d: AuthnRejectReason,
)
    ensures
        a.name() == b.name() ==> a == b,
        c.name() == d.name() ==> c == d,
{
    reveal_strlit("learner");
    reveal_strlit("follower");
    reveal_strlit("candidate");
    reveal_strlit("leader");
    reveal_strlit("shutdown");
    reveal_strlit("no_principal");
    reveal_strlit("identity_retired");
    assert(a.name().len() == b.name().len() && a.name()[0] == b.name()[0] ==> a == b);
    assert(c.name().len() == d.name().len() ==> c == d);
}

} // verus!
