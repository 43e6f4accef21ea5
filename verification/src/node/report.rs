//! What a node reports to an operator.

use std::collections::BTreeMap;
use vstd::prelude::*;

use crate::error::Timeout;
use crate::hint::Liveness;
use crate::hint::ObservedPeerHint;
use crate::listing;
use crate::metrics;
use crate::metrics::HealthPayload;
use crate::metrics::LogIdView;
use crate::metrics::MetricsReport;
use crate::metrics::NodeMetrics;
use crate::node::members;
use crate::node::observed;
use crate::node::observed::RaftView;
use crate::node::observed::StoreView;
use crate::node::schema;
use crate::node::ConfigNode;
use crate::retention::JournalView;
use crate::storage::DedupStats;
use crate::storage::JournalStats;
use crate::storage::StorageMetrics;
use crate::text;
use crate::textmap::TextMap;
use crate::time::Duration;
use crate::types::NodeId;
use crate::watch::WatchStats;

verus! {

/// A value that could be read, or zero.
pub open spec fn or_zero(v: Option<u64>) -> u64 {
    match v {
        Some(n) => n,
        None => 0,
    }
}

fn value_or_zero(v: Option<u64>) -> (r: u64)
    ensures
        r == or_zero(v),
{
    match v {
        Some(n) => n,
        None => 0,
    }
}

/// The shape of a journal; all zero for one that could not be read. There is no revision zero, so
/// an empty journal cannot be mistaken for one that begins there.
pub open spec fn journal_shape(stats: Option<JournalStats>) -> JournalView {
    match stats {
        Some(s) => JournalView {
            oldest_revision: or_zero(s.oldest_revision),
            newest_revision: or_zero(s.newest_revision),
            count: s.count,
            bytes: s.bytes,
        },
        None => JournalView { oldest_revision: 0, newest_revision: 0, count: 0, bytes: 0 },
    }
}

/// Which peers gossip believes alive, by node: the last word on each.
pub open spec fn reachable(hints: Seq<ObservedPeerHint>) -> Map<u64, bool>
    decreases hints.len(),
{
    if hints.len() == 0 {
        Map::empty()
    } else {
        reachable(hints.drop_last()).insert(
            hints.last().node_id.0,
            hints.last().liveness is Alive,
        )
    }
}

fn reachable_peers(hints: &Vec<ObservedPeerHint>) -> (r: BTreeMap<u64, bool>)
    ensures
        r@ == reachable(hints@),
{
    let mut out: BTreeMap<u64, bool> = BTreeMap::new();
    let mut i: usize = 0;
    assert(reachable(hints@.take(0)) == Map::<u64, bool>::empty());
    while i < hints.len()
        invariant
            i <= hints@.len(),
            out@ == reachable(hints@.take(i as int)),
        decreases hints@.len() - i,
    {
        assert(hints@.take(i + 1).drop_last() =~= hints@.take(i as int));
        let alive: bool = match hints[i].liveness {
            Liveness::Alive => true,
            _ => false,
        };
        out.insert(hints[i].node_id.0, alive);
        i = i + 1;
    }
    assert(hints@.take(hints@.len() as int) =~= hints@);
    out
}

/// Facts for a scrape that neither the Raft core nor applied state holds.
pub struct ScrapeFacts {
    /// Counters of a store on disk.
    pub storage: Option<StorageMetrics>,
    /// The deduplication index.
    pub dedup: DedupStats,
    /// Compactions applied.
    pub compactions: u64,
    /// Watch counters.
    pub watch: WatchStats,
    /// The last index known to be committed.
    pub commit_index: Option<u64>,
}

/// Whether `lags` is the lag of every peer in a report.
pub open spec fn lags_of(
    lags: Map<u64, u64>,
    progress: Map<u64, crate::admin::ReplicationProgress>,
) -> bool {
    &&& lags.dom() == progress.dom()
    &&& forall|k: u64| #[trigger] lags.contains_key(k) ==> lags[k] == progress[k].lag
}

fn lags(progress: &BTreeMap<u64, crate::admin::ReplicationProgress>) -> (r: BTreeMap<u64, u64>)
    ensures
        lags_of(r@, progress@),
{
    let entries = listing::list(progress);
    let ghost s = listing::listed(progress@);
    let mut out: BTreeMap<u64, u64> = BTreeMap::new();
    let mut i: usize = 0;
    while i < entries.len()
        invariant
            i <= entries@.len(),
            listing::lists(s, progress@),
            entries@.len() == s.len(),
            forall|j: int|
                0 <= j < entries@.len() ==> (#[trigger] entries@[j]).0 == s[j].0 && *entries@[j].1
                    == s[j].1,
            forall|k: u64| #[trigger]
                out@.contains_key(k) <==> exists|j: int| 0 <= j < i && (#[trigger] s[j]).0 == k,
            forall|k: u64| #[trigger] out@.contains_key(k) ==> out@[k] == progress@[k].lag,
        decreases entries@.len() - i,
    {
        let ghost before = out@;
        let id: u64 = entries[i].0;
        assert(s[i as int].0 == id);
        assert(progress@[id] == s[i as int].1);
        out.insert(id, entries[i].1.lag);
        proof {
            assert forall|k: u64| #[trigger] out@.contains_key(k) <==> exists|j: int|
                0 <= j < i + 1 && (#[trigger] s[j]).0 == k by {
                if k == id {
                    assert(s[i as int].0 == k);
                }
                if k != id && before.contains_key(k) {
                    let j = choose|j: int| 0 <= j < i && (#[trigger] s[j]).0 == k;
                    assert(s[j].0 == k);
                }
            }
            assert forall|k: u64| #[trigger] out@.contains_key(k) implies out@[k]
                == progress@[k].lag by {
                if k != id {
                    assert(before.contains_key(k));
                }
            }
        }
        i = i + 1;
    }
    assert forall|k: u64| out@.contains_key(k) <==> progress@.contains_key(k) by {
        if progress@.contains_key(k) {
            let j = choose|j: int| 0 <= j < s.len() && (#[trigger] s[j]).0 == k;
            assert(s[j].0 == k);
        }
    }
    assert(out@.dom() =~= progress@.dom());
    out
}

/// Whether the log is applied up to an index.
pub open spec fn applied_through(m: NodeMetrics, index: u64) -> bool {
    match m.last_applied {
        Some(l) => l.index >= index,
        None => index == 0,
    }
}

impl ConfigNode {
    /// The compaction watermark, zero when it could not be read.
    pub fn compact_revision(store: &StoreView) -> (r: u64)
        ensures
            r == or_zero(store.compact_revision),
    {
        value_or_zero(store.compact_revision)
    }

    /// The last applied index, or `0` when nothing was applied.
    pub fn applied_index(last_applied: Option<LogIdView>) -> (r: u64)
        ensures
            r == (match last_applied {
                Some(l) => l.index,
                None => 0,
            }),
    {
        match last_applied {
            Some(l) => l.index,
            None => 0,
        }
    }

    /// The digest of the journal, all zero when it could not be read.
    pub fn journal_hash(store: &StoreView) -> (r: [u8; 32])
        ensures
            match store.journal_hash {
                Some(h) => r == h,
                None => r@ == Seq::new(32, |i: int| 0u8),
            },
    {
        match store.journal_hash {
            Some(h) => h,
            None => {
                let zero: [u8; 32] = [0; 32];
                assert(zero@ =~= Seq::new(32, |i: int| 0u8));
                zero
            },
        }
    }

    /// The shape of the retained journal.
    pub fn journal_view(stats: Option<JournalStats>) -> (r: JournalView)
        ensures
            r == journal_shape(stats),
    {
        match stats {
            Some(s) => JournalView {
                oldest_revision: value_or_zero(s.oldest_revision),
                newest_revision: value_or_zero(s.newest_revision),
                count: s.count,
                bytes: s.bytes,
            },
            None => JournalView { oldest_revision: 0, newest_revision: 0, count: 0, bytes: 0 },
        }
    }

    /// Gather the health payload. `committed` is the Raft core's commit index and `streams` the
    /// open watch streams. Why there is no policy is left for whoever loads policies to fill in.
    pub fn health_payload<R, P>(
        &self,
        raft: &RaftView,
        store: &StoreView,
        policy_version: Option<u64>,
        committed: Option<u64>,
        restored_from: Option<R>,
        streams: usize,
    ) -> (p: HealthPayload<R, P>)
        ensures
            p.node_id == self.cfg.identity.node_id,
            p.cluster_id@ == self.cfg.identity.cluster_id.text(),
            p.recovery_epoch == self.cfg.identity.recovery_epoch,
            p.role == raft.role,
            p.current_leader == raft.current_leader,
            p.term == raft.current_term,
            p.last_applied == (match raft.last_applied {
                Some(l) => Some(l.index),
                None => None,
            }),
            p.committed == committed,
            listing::lists_set(
                p.membership_voter_ids@.map_values(|n: NodeId| n.0),
                store.membership.voters@,
            ),
            p.membership_log_id == members::log_view(store.membership.membership_log_id),
            p.cluster_revision == store.cluster_revision,
            p.state_hash_hex@ == text::hex(store.state_hash@),
            p.applied_commands == store.applied_commands,
            p.durability == store.durability,
            p.ready == self.serves(*store, policy_version),
            p.authz_kind == self.kind_now(policy_version),
            p.schema == self.cfg.schema,
            match p.cluster_min_schema {
                Some(s) => raft.role is Leader && schema::is_minimum(
                    s,
                    self.peer_schemas@,
                    store.membership.voters@,
                ),
                None => !(raft.role is Leader) || !store.membership.formed(),
            },
            p.transport_security == self.cfg.transport_security,
            p.policy.kind == self.kind_now(policy_version).capability(policy_version),
            p.policy.grants == (if self.kind_now(policy_version) is StaticAllowlist {
                self.cfg.policy_grants
            } else {
                0
            }),
            match (p.policy.policy_hash_hex, self.cfg.policy_document_sha256) {
                (Some(h), Some(digest)) => h@ == text::hex(digest@),
                (None, None) => true,
                _ => false,
            },
            p.restored_from == restored_from,
            p.authz_denied == self.authz_denied,
            p.authn_rejected == metrics::counted(
                self.authn_rejected_client.total(),
                self.authn_rejected_peer.total() as nat,
            ),
            p.compact_revision == or_zero(store.compact_revision),
            p.journal_oldest_revision == (match store.journal {
                Some(j) => j.oldest_revision,
                None => None,
            }),
            p.journal_newest_revision == (match store.journal {
                Some(j) => j.newest_revision,
                None => None,
            }),
            p.journal_hash@ == text::hex(
                match store.journal_hash {
                    Some(h) => h@,
                    None => Seq::new(32, |i: int| 0u8),
                },
            ),
            p.watch_streams_open == streams,
            p.policy_version == policy_version,
            p.policy_state is None,
    {
        let m = self.metrics(raft, store);
        HealthPayload {
            node_id: self.cfg.identity.node_id,
            cluster_id: self.cfg.identity.cluster_id.describe(),
            recovery_epoch: self.cfg.identity.recovery_epoch,
            role: m.role,
            current_leader: m.current_leader,
            term: m.current_term,
            last_applied: match m.last_applied {
                Some(l) => Some(l.index),
                None => None,
            },
            committed,
            membership_voter_ids: observed::node_ids(&store.membership.voters),
            membership_log_id: match store.membership.membership_log_id {
                Some((term, index)) => Some(LogIdView::new(term, index)),
                None => None,
            },
            cluster_revision: m.cluster_revision,
            state_hash_hex: observed::hex32(&store.state_hash),
            applied_commands: m.applied_commands,
            durability: store.durability,
            ready: self.is_ready(store, policy_version),
            authz_kind: self.authz_kind(policy_version),
            schema: self.cfg.schema,
            cluster_min_schema: self.cluster_min_schema(raft.role, &store.membership.voters),
            transport_security: self.cfg.transport_security,
            policy: self.policy_summary(policy_version),
            restored_from,
            authz_denied: m.authz_denied,
            authn_rejected: m.authn_rejected,
            compact_revision: Self::compact_revision(store),
            journal_oldest_revision: match store.journal {
                Some(j) => j.oldest_revision,
                None => None,
            },
            journal_newest_revision: match store.journal {
                Some(j) => j.newest_revision,
                None => None,
            },
            journal_hash: observed::hex32(&Self::journal_hash(store)),
            watch_streams_open: streams,
            policy_version,
            policy_state: None,
        }
    }

    /// Gather everything one scrape needs. What a node cannot know is left open, so that its
    /// series are left out rather than reported as zero.
    pub fn metrics_report(
        &self,
        raft: &RaftView,
        store: &StoreView,
        hints: &Vec<ObservedPeerHint>,
        facts: ScrapeFacts,
    ) -> (r: MetricsReport)
        ensures
            self.shows(*raft, *store, r.node),
            r.storage == facts.storage,
            r.dedup == facts.dedup,
            r.compactions == facts.compactions,
            r.watch == facts.watch,
            r.gossip_reachable@ == reachable(hints@),
            r.gossip_endpoint_mismatch == self.gossip_endpoint_mismatch,
            r.leader_changes == self.leader_changes,
            match (raft.replication, self.leads(*raft)) {
                (Some(map), true) => {
                    &&& forall|k: u64| #[trigger]
                        r.peer_lag@.contains_key(k) <==> map@.contains_key(k) && k
                            != self.cfg.identity.node_id.0
                    &&& forall|k: u64| #[trigger]
                        r.peer_lag@.contains_key(k) ==> r.peer_lag@[k] == members::lag(
                            or_zero(raft.last_log_index),
                            map@[k],
                        )
                },
                _ => r.peer_lag@ == Map::<u64, u64>::empty(),
            },
            r.commit_index == facts.commit_index,
            r.proposal_latency.wf(),
            self.proposal_latency.reads(r.proposal_latency@),
            self.read_latency.reads(r.read_latency),
            r.disk_free_bytes is None,
            r.cert_expiry_seconds.wf(),
            r.cert_expiry_seconds@ == Map::<Seq<char>, i64>::empty(),
            r.backup_age_seconds is None,
            r.pagination is None,
            r.policy is None,
    {
        let report = self.membership_report(raft, store);
        let peer_lag = lags(&report.replication);
        proof {
            if raft.replication is Some && self.leads(*raft) {
                let map = raft.replication->Some_0;
                assert forall|k: u64| #[trigger] peer_lag@.contains_key(k) <==> map@.contains_key(k)
                    && k != self.cfg.identity.node_id.0 by {
                    assert(peer_lag@.dom().contains(k) <==> report.replication@.dom().contains(k));
                    assert(report.replication@.contains_key(k) <==> map@.contains_key(k) && k
                        != self.cfg.identity.node_id.0);
                }
                assert forall|k: u64| #[trigger] peer_lag@.contains_key(k) implies peer_lag@[k]
                    == members::lag(or_zero(raft.last_log_index), map@[k]) by {
                    assert(peer_lag@.dom().contains(k));
                    assert(report.replication@.contains_key(k));
                }
            } else {
                assert(peer_lag@ =~= Map::<u64, u64>::empty());
            }
        }
        MetricsReport {
            node: self.metrics(raft, store),
            storage: facts.storage,
            dedup: facts.dedup,
            compactions: facts.compactions,
            watch: facts.watch,
            gossip_reachable: reachable_peers(hints),
            gossip_endpoint_mismatch: self.gossip_endpoint_mismatch,
            leader_changes: self.leader_changes,
            peer_lag,
            commit_index: facts.commit_index,
            proposal_latency: self.proposal_latency.snapshot(),
            read_latency: self.read_latency.snapshot(),
            disk_free_bytes: None,
            cert_expiry_seconds: TextMap::new(),
            backup_age_seconds: None,
            pagination: None,
            policy: None,
        }
    }

    /// Whether a node has applied up to `index`.
    pub fn has_applied(m: &NodeMetrics, index: u64) -> (r: bool)
        ensures
            r == applied_through(*m, index),
    {
        Self::applied_index(m.last_applied) >= index
    }

    /// The error of a wait that expired.
    pub fn wait_expired(what: &str, waited: Duration, last: NodeMetrics) -> (t: Timeout)
        ensures
            t.what@ == what@,
            t.waited == waited,
            *t.last == last,
    {
        Timeout { what: what.to_owned(), waited, last: Box::new(last) }
    }

    /// Record how long a mutation took, whatever came of it.
    pub fn record_proposal(&mut self, op: &str, elapsed: Duration)
        ensures
            old(self).proposal_latency.observed(op@, elapsed, final(self).proposal_latency),
            *final(self) == (ConfigNode {
                proposal_latency: final(self).proposal_latency,
                ..*old(self)
            }),
    {
        self.proposal_latency.observe(op, elapsed);
    }

    /// Record how long a read took, whatever came of it.
    pub fn record_read(&mut self, elapsed: Duration)
        ensures
            old(self).read_latency.observed(elapsed, final(self).read_latency),
            *final(self) == (ConfigNode { read_latency: final(self).read_latency, ..*old(self) }),
    {
        self.read_latency.observe(elapsed);
    }
}

/// A peer is reported reachable exactly when the last that gossip had of it was that it is alive.
/// What gossip says of one peer says nothing of another.
pub proof fn a_peer_is_reported_as_last_seen(
    hints: Seq<ObservedPeerHint>,
    hint: ObservedPeerHint,
    other: u64,
)
    ensures
        ({
            let before = reachable(hints);
            let after = reachable(hints.push(hint));
            &&& reachable(Seq::empty()) == Map::<u64, bool>::empty()
            &&& after.contains_key(hint.node_id.0)
            &&& after[hint.node_id.0] <==> hint.liveness is Alive
            &&& other != hint.node_id.0 ==> (after.contains_key(other) <==> before.contains_key(
                other,
            )) && after[other] == before[other]
        }),
{
    assert(hints.push(hint).drop_last() =~= hints);
}

/// A journal is judged by its own numbers, and one that is empty by zeros.
pub proof fn a_journal_is_judged_as_it_is(stats: Option<JournalStats>)
    ensures
        stats matches Some(s) ==> {
            let shape = journal_shape(stats);
            &&& shape.count == s.count
            &&& shape.bytes == s.bytes
            &&& s.oldest_revision matches Some(r) ==> shape.oldest_revision == r
            &&& s.newest_revision matches Some(r) ==> shape.newest_revision == r
            &&& s.oldest_revision is None ==> shape.oldest_revision == 0
            &&& s.newest_revision is None ==> shape.newest_revision == 0
        },
        stats is None ==> journal_shape(stats).count == 0 && journal_shape(stats).bytes == 0,
{
}

/// A log that is applied up to an index is applied up to every one before it, and up to the last
/// that was applied but no further.
pub proof fn what_is_applied_stays_applied(m: NodeMetrics, index: u64, earlier: u64)
    ensures
        applied_through(m, 0),
        earlier <= index && applied_through(m, index) ==> applied_through(m, earlier),
        m.last_applied matches Some(l) ==> applied_through(m, l.index) && (l.index < index
            ==> !applied_through(m, index)),
        m.last_applied is None ==> (applied_through(m, index) <==> index == 0),
{
}

} // verus!
