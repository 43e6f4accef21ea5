//! Rendering a [`MetricsReport`] in the text exposition format.
//!
//! The `*_lines` functions say what a report exposes, section by section: each takes what was
//! written before and adds its own pieces. Every series carries `node_id`, so the series of
//! several nodes stay apart.

use std::collections::BTreeMap;
use vstd::prelude::*;

use crate::exposition;
use crate::exposition::Exposition;
use crate::exposition::Line;
use crate::listing;
use crate::metrics;
use crate::metrics::HistogramSnapshot;
use crate::metrics::LogIdView;
use crate::metrics::MetricsReport;
use crate::metrics::NodeMetrics;
use crate::metrics::NodeRole;
use crate::metrics::PolicyMetrics;
use crate::number::SampleValue;
use crate::storage::StorageMetrics;
use crate::text;
use crate::textmap::TextMap;
use crate::watch::TerminationReason;

verus! {

/// `1` for what holds, `0` for what does not.
pub open spec fn flag(holds: bool) -> u64 {
    if holds {
        1
    } else {
        0
    }
}

/// Whether a node is the leader it knows about.
pub open spec fn leads(node: NodeMetrics) -> u64 {
    flag(node.current_leader == Some(node.node_id))
}

/// An index, or zero when there is none.
pub open spec fn index_or_zero(index: Option<u64>) -> u64 {
    match index {
        Some(i) => i,
        None => 0,
    }
}

/// The applied index, or zero when nothing was applied.
pub open spec fn applied_or_zero(id: Option<LogIdView>) -> u64 {
    match id {
        Some(l) => l.index,
        None => 0,
    }
}

/// The purged index, or zero for a store without one.
pub open spec fn purged_or_zero(storage: Option<StorageMetrics>) -> u64 {
    match storage {
        Some(s) => s.purged_index,
        None => 0,
    }
}

/// The client plane's share of the authentication rejections: what is not the peer plane's.
pub open spec fn client_share(node: NodeMetrics) -> u64 {
    if node.authn_rejected >= node.authn_rejected_peer {
        (node.authn_rejected - node.authn_rejected_peer) as u64
    } else {
        0
    }
}

/// The two planes' shares in a scrape add up to what health reports in all.
pub proof fn shares_add_up(node: NodeMetrics)
    requires
        node.authn_rejected_peer <= node.authn_rejected,
    ensures
        client_share(node) + node.authn_rejected_peer == node.authn_rejected,
{
}

/// A metric is named: introduced, unless that was done before.
pub open spec fn with_header(
    before: Seq<Line>,
    name: Seq<char>,
    kind: Seq<char>,
    help: Seq<char>,
) -> Seq<Line> {
    if exposition::introduced(before, name) {
        before
    } else {
        before.push(Line::Header { name, kind, help })
    }
}

/// A metric is introduced and has one sample, labelled with the node alone.
pub open spec fn with_single(
    before: Seq<Line>,
    name: Seq<char>,
    kind: Seq<char>,
    help: Seq<char>,
    id: Seq<char>,
    value: SampleValue,
) -> Seq<Line> {
    with_header(before, name, kind, help).push(
        Line::Sample { name, labels: seq![("node_id"@, id)], value },
    )
}

/// A sample with the node and one more label.
pub open spec fn with_labelled(
    before: Seq<Line>,
    name: Seq<char>,
    id: Seq<char>,
    key: Seq<char>,
    label: Seq<char>,
    value: u64,
) -> Seq<Line> {
    before.push(
        Line::Sample {
            name,
            labels: seq![("node_id"@, id), (key, label)],
            value: SampleValue::Whole(value),
        },
    )
}

/// A sample of the store's memory.
pub open spec fn with_memory(
    before: Seq<Line>,
    id: Seq<char>,
    kind: Seq<char>,
    bytes: u64,
) -> Seq<Line> {
    before.push(
        Line::Sample {
            name: "retcd_rocks_mem_bytes"@,
            labels: seq![("node_id"@, id), ("cf"@, "all"@), ("kind"@, kind)],
            value: SampleValue::Whole(bytes),
        },
    )
}

/// How far each peer is behind, in the order of the peers.
pub open spec fn with_peer_lags(
    before: Seq<Line>,
    id: Seq<char>,
    peers: Seq<(u64, u64)>,
) -> Seq<Line>
    decreases peers.len(),
{
    if peers.len() == 0 {
        before
    } else {
        with_labelled(
            with_peer_lags(before, id, peers.drop_last()),
            "retcd_raft_peer_lag"@,
            id,
            "peer_id"@,
            text::decimal(peers.last().0 as nat),
            peers.last().1,
        )
    }
}

/// Which peers are reachable, in the order of the peers.
pub open spec fn with_reachable(
    before: Seq<Line>,
    id: Seq<char>,
    peers: Seq<(u64, bool)>,
) -> Seq<Line>
    decreases peers.len(),
{
    if peers.len() == 0 {
        before
    } else {
        with_labelled(
            with_reachable(before, id, peers.drop_last()),
            "retcd_gossip_reachable"@,
            id,
            "peer_id"@,
            text::decimal(peers.last().0 as nat),
            flag(peers.last().1),
        )
    }
}

/// The terminations by reason.
pub open spec fn with_terminations(
    before: Seq<Line>,
    id: Seq<char>,
    reasons: Seq<(TerminationReason, u64)>,
) -> Seq<Line>
    decreases reasons.len(),
{
    if reasons.len() == 0 {
        before
    } else {
        with_labelled(
            with_terminations(before, id, reasons.drop_last()),
            "retcd_watch_terminations_total"@,
            id,
            "reason"@,
            reasons.last().0.name(),
            reasons.last().1,
        )
    }
}

/// The refused reloads by reason.
pub open spec fn with_reload_failures(
    before: Seq<Line>,
    id: Seq<char>,
    reasons: Seq<(Seq<char>, u64)>,
) -> Seq<Line>
    decreases reasons.len(),
{
    if reasons.len() == 0 {
        before
    } else {
        with_labelled(
            with_reload_failures(before, id, reasons.drop_last()),
            "retcd_policy_reload_failures_total"@,
            id,
            "reason"@,
            reasons.last().0,
            reasons.last().1,
        )
    }
}

/// The time each certificate has left, by plane.
pub open spec fn with_expiries(
    before: Seq<Line>,
    id: Seq<char>,
    planes: Seq<(Seq<char>, i64)>,
) -> Seq<Line>
    decreases planes.len(),
{
    if planes.len() == 0 {
        before
    } else {
        with_expiries(before, id, planes.drop_last()).push(
            Line::Sample {
                name: "retcd_cert_expiry_seconds"@,
                labels: seq![("node_id"@, id), ("plane"@, planes.last().0)],
                value: SampleValue::Signed(planes.last().1),
            },
        )
    }
}

/// The labels of a histogram: the node and, for a write, the operation.
pub open spec fn histogram_labels(id: Seq<char>, op: Option<Seq<char>>) -> Seq<
    (Seq<char>, Seq<char>),
> {
    match op {
        Some(op) => seq![("node_id"@, id), ("op"@, op)],
        None => seq![("node_id"@, id)],
    }
}

/// The first `n` buckets of a histogram, cumulative, each labelled with its bound.
pub open spec fn with_buckets(
    before: Seq<Line>,
    name: Seq<char>,
    labels: Seq<(Seq<char>, Seq<char>)>,
    h: HistogramSnapshot,
    n: nat,
) -> Seq<Line>
    decreases n,
{
    if n == 0 {
        before
    } else {
        with_buckets(before, name, labels, h, (n - 1) as nat).push(
            Line::Sample {
                name: name + "_bucket"@,
                labels: labels.push(("le"@, metrics::bucket_label(n - 1))),
                value: SampleValue::Whole(h.cumulative@[n - 1]),
            },
        )
    }
}

/// A histogram: its buckets, the bucket without a bound, the sum and the count.
pub open spec fn with_histogram(
    before: Seq<Line>,
    name: Seq<char>,
    labels: Seq<(Seq<char>, Seq<char>)>,
    h: HistogramSnapshot,
) -> Seq<Line> {
    with_buckets(before, name, labels, h, 12).push(
        Line::Sample {
            name: name + "_bucket"@,
            labels: labels.push(("le"@, "+Inf"@)),
            value: SampleValue::Whole(h.count),
        },
    ).push(
        Line::Sample { name: name + "_sum"@, labels, value: SampleValue::Micros(h.sum_micros) },
    ).push(Line::Sample { name: name + "_count"@, labels, value: SampleValue::Whole(h.count) })
}

/// The write latencies by operation, under one introduction.
pub open spec fn with_proposals(
    before: Seq<Line>,
    id: Seq<char>,
    ops: Seq<(Seq<char>, HistogramSnapshot)>,
) -> Seq<Line>
    decreases ops.len(),
{
    if ops.len() == 0 {
        before
    } else {
        let rest = with_proposals(before, id, ops.drop_last());
        let named = with_header(
            rest,
            "retcd_proposal_latency_seconds"@,
            "histogram"@,
            "client write submit-to-commit latency"@,
        );
        with_histogram(
            named,
            "retcd_proposal_latency_seconds"@,
            histogram_labels(id, Some(ops.last().0)),
            ops.last().1,
        )
    }
}

/// The Raft section.
pub open spec fn raft_lines(before: Seq<Line>, id: Seq<char>, r: MetricsReport) -> Seq<Line> {
    let l0 = with_single(
        before,
        "retcd_raft_leader"@,
        "gauge"@,
        "1 when this node is the leader it knows about, 0 otherwise"@,
        id,
        SampleValue::Whole(leads(r.node)),
    );
    let l1 = with_header(
        l0,
        "retcd_raft_role"@,
        "gauge"@,
        "1 for this node's current role"@,
    );
    let l2 = with_labelled(
        l1,
        "retcd_raft_role"@,
        id,
        "role"@,
        NodeRole::Learner.name(),
        flag(r.node.role == NodeRole::Learner),
    );
    let l3 = with_labelled(
        l2,
        "retcd_raft_role"@,
        id,
        "role"@,
        NodeRole::Follower.name(),
        flag(r.node.role == NodeRole::Follower),
    );
    let l4 = with_labelled(
        l3,
        "retcd_raft_role"@,
        id,
        "role"@,
        NodeRole::Candidate.name(),
        flag(r.node.role == NodeRole::Candidate),
    );
    let l5 = with_labelled(
        l4,
        "retcd_raft_role"@,
        id,
        "role"@,
        NodeRole::Leader.name(),
        flag(r.node.role == NodeRole::Leader),
    );
    let l6 = with_labelled(
        l5,
        "retcd_raft_role"@,
        id,
        "role"@,
        NodeRole::Shutdown.name(),
        flag(r.node.role == NodeRole::Shutdown),
    );
    let l7 = with_single(
        l6,
        "retcd_raft_term"@,
        "gauge"@,
        "current Raft term"@,
        id,
        SampleValue::Whole(r.node.current_term),
    );
    let l8 = with_single(
        l7,
        "retcd_raft_leader_changes_total"@,
        "counter"@,
        "observed leadership transitions since this node started"@,
        id,
        SampleValue::Whole(r.leader_changes),
    );
    let l9 = with_single(
        l8,
        "retcd_raft_commit_index"@,
        "gauge"@,
        "last log index known to be committed"@,
        id,
        SampleValue::Whole(index_or_zero(r.commit_index)),
    );
    let l10 = with_single(
        l9,
        "retcd_raft_applied_index"@,
        "gauge"@,
        "last log index applied to the state machine"@,
        id,
        SampleValue::Whole(applied_or_zero(r.node.last_applied)),
    );
    let l11 = with_single(
        l10,
        "retcd_raft_purged_index"@,
        "gauge"@,
        "highest durably purged log index (ADR-0022)"@,
        id,
        SampleValue::Whole(purged_or_zero(r.storage)),
    );
    let l12 = with_header(
        l11,
        "retcd_raft_peer_lag"@,
        "gauge"@,
        "leader-only: entries this peer is behind the leader's last log index"@,
    );
    let l13 = with_peer_lags(l12, id, listing::listed(r.peer_lag@));
    with_single(
        l13,
        "retcd_cluster_revision"@,
        "gauge"@,
        "public cluster revision applied here (ADR-0005), not a log index"@,
        id,
        SampleValue::Whole(r.node.cluster_revision),
    )
}

/// The latency section.
pub open spec fn latency_lines(before: Seq<Line>, id: Seq<char>, r: MetricsReport) -> Seq<Line> {
    with_histogram(
        with_header(
            with_proposals(before, id, r.proposal_latency.listed()),
            "retcd_linearizable_read_latency_seconds"@,
            "histogram"@,
            "linearizable read barrier latency (ADR-0009)"@,
        ),
        "retcd_linearizable_read_latency_seconds"@,
        histogram_labels(id, None),
        r.read_latency,
    )
}

/// The section of a store on disk.
pub open spec fn storage_lines(before: Seq<Line>, id: Seq<char>, s: StorageMetrics) -> Seq<Line> {
    let l0 = with_header(
        before,
        "retcd_rocks_mem_bytes"@,
        "gauge"@,
        "RocksDB memory in bytes; cf=\"all\" until per-family properties are read"@,
    );
    let l1 = with_memory(l0, id, "memtable"@, s.rocks_memtable_bytes);
    let l2 = with_memory(l1, id, "table_readers"@, s.rocks_table_readers_bytes);
    let l3 = with_single(
        l2,
        "retcd_rocks_level0_files"@,
        "gauge"@,
        "files at level 0, the number that precedes a write stall"@,
        id,
        SampleValue::Whole(s.rocks_level0_files),
    );
    let l4 = with_single(
        l3,
        "retcd_rocks_write_stopped"@,
        "gauge"@,
        "1 while RocksDB is stopping writes"@,
        id,
        SampleValue::Whole(s.rocks_write_stopped),
    );
    let l5 = with_single(
        l4,
        "retcd_snapshot_age_seconds"@,
        "gauge"@,
        "age of the current published snapshot"@,
        id,
        SampleValue::Millis(s.snapshot_age_ms),
    );
    let l6 = with_single(
        l5,
        "retcd_snapshot_bytes"@,
        "gauge"@,
        "size of the current published snapshot"@,
        id,
        SampleValue::Whole(s.snapshot_size_bytes),
    );
    let l7 = with_single(
        l6,
        "retcd_snapshot_build_duration_seconds"@,
        "gauge"@,
        "duration of the most recent successful snapshot build"@,
        id,
        SampleValue::Millis(s.snapshot_build_duration_ms),
    );
    let l8 = with_single(
        l7,
        "retcd_snapshot_builds_total"@,
        "counter"@,
        "snapshot builds that returned successfully"@,
        id,
        SampleValue::Whole(s.snapshot_builds),
    );
    let l9 = with_single(
        l8,
        "retcd_snapshot_builds_in_flight"@,
        "gauge"@,
        "builds started and not yet published or failed; stuck above zero means wedged"@,
        id,
        SampleValue::Whole(s.snapshot_builds_in_flight),
    );
    let l10 = with_header(
        l9,
        "retcd_snapshot_installs_total"@,
        "counter"@,
        "snapshots received from a leader, by outcome"@,
    );
    let l11 = with_labelled(
        l10,
        "retcd_snapshot_installs_total"@,
        id,
        "outcome"@,
        "success"@,
        s.snapshot_installs,
    );
    let l12 = with_labelled(
        l11,
        "retcd_snapshot_installs_total"@,
        id,
        "outcome"@,
        "validation_failed"@,
        s.snapshot_install_failures,
    );
    let l13 = with_labelled(
        l12,
        "retcd_snapshot_installs_total"@,
        id,
        "outcome"@,
        "crash_recovered"@,
        s.snapshot_install_redos,
    );
    let l14 = with_header(
        l13,
        "retcd_log_purges_total"@,
        "counter"@,
        "log purge calls, by outcome (ADR-0022)"@,
    );
    let l15 = with_labelled(l14, "retcd_log_purges_total"@, id, "outcome"@, "purged"@, s.purges);
    let l16 = with_labelled(
        l15,
        "retcd_log_purges_total"@,
        id,
        "outcome"@,
        "deferred"@,
        s.purge_deferrals,
    );
    with_labelled(l16, "retcd_log_purges_total"@, id, "outcome"@, "refused"@, s.purge_refusals)
}

/// The watch section.
pub open spec fn watch_lines(before: Seq<Line>, id: Seq<char>, r: MetricsReport) -> Seq<Line> {
    let l0 = with_single(
        before,
        "retcd_watch_streams"@,
        "gauge"@,
        "watch streams currently registered"@,
        id,
        SampleValue::Whole(r.watch.streams_open as u64),
    );
    let l1 = with_single(
        l0,
        "retcd_watch_queued_bytes_max"@,
        "gauge"@,
        "largest per-stream queued byte budget observed since start"@,
        id,
        SampleValue::Whole(r.watch.queue_bytes_max),
    );
    let l2 = with_header(
        l1,
        "retcd_watch_terminations_total"@,
        "counter"@,
        "watch streams terminated, by ADR-0020 reason"@,
    );
    let l3 = with_terminations(l2, id, r.watch.terminated_by_reason@);
    with_single(
        l3,
        "retcd_compactions_total"@,
        "counter"@,
        "replicated compactions applied here (ADR-0019)"@,
        id,
        SampleValue::Whole(r.compactions),
    )
}

/// The deduplication section.
pub open spec fn dedup_lines(before: Seq<Line>, id: Seq<char>, r: MetricsReport) -> Seq<Line> {
    let l0 = with_single(
        before,
        "retcd_dedup_hits_total"@,
        "counter"@,
        "mutations answered from a retained deduplication record"@,
        id,
        SampleValue::Whole(r.dedup.hits),
    );
    let l1 = with_single(
        l0,
        "retcd_dedup_records"@,
        "gauge"@,
        "deduplication records currently retained"@,
        id,
        SampleValue::Whole(r.dedup.records),
    );
    let l2 = with_single(
        l1,
        "retcd_dedup_max_records"@,
        "gauge"@,
        "configured global cap; at it, writes still apply but are not recorded"@,
        id,
        SampleValue::Whole(r.dedup.max_records),
    );
    let l3 = with_header(
        l2,
        "retcd_dedup_evictions_total"@,
        "counter"@,
        "deduplication records dropped, by reason"@,
    );
    let l4 = with_labelled(
        l3,
        "retcd_dedup_evictions_total"@,
        id,
        "reason"@,
        "window"@,
        r.dedup.window_evictions,
    );
    let l5 = with_labelled(
        l4,
        "retcd_dedup_evictions_total"@,
        id,
        "reason"@,
        "trim"@,
        r.dedup.trim_evictions,
    );
    with_single(
        l5,
        "retcd_dedup_cap_refusals_total"@,
        "counter"@,
        "mutations applied whose outcome the global record cap refused to retain; a resubmission of one of these will apply a second time"@,
        id,
        SampleValue::Whole(r.dedup.cap_refusals),
    )
}

/// The gossip, authentication and authorization section.
pub open spec fn gossip_lines(before: Seq<Line>, id: Seq<char>, r: MetricsReport) -> Seq<Line> {
    let l0 = with_header(
        before,
        "retcd_gossip_reachable"@,
        "gauge"@,
        "1 when the advisory gossip source last saw this peer as reachable (ADR-0003)"@,
    );
    let l1 = with_reachable(l0, id, listing::listed(r.gossip_reachable@));
    let l2 = with_single(
        l1,
        "retcd_gossip_endpoint_mismatch_total"@,
        "counter"@,
        "gossip hints refused because they disagreed with committed membership"@,
        id,
        SampleValue::Whole(r.gossip_endpoint_mismatch),
    );
    let l3 = with_header(
        l2,
        "retcd_authn_rejected_total"@,
        "counter"@,
        "connections whose transport identity could not be established"@,
    );
    let l4 = with_labelled(
        l3,
        "retcd_authn_rejected_total"@,
        id,
        "plane"@,
        "client"@,
        client_share(r.node),
    );
    let l5 = with_labelled(
        l4,
        "retcd_authn_rejected_total"@,
        id,
        "plane"@,
        "peer"@,
        r.node.authn_rejected_peer,
    );
    let l6 = with_header(
        l5,
        "retcd_authz_denied_total"@,
        "counter"@,
        "authorization decisions refused"@,
    );
    let l7 = with_labelled(
        l6,
        "retcd_authz_denied_total"@,
        id,
        "plane"@,
        "client"@,
        r.node.authz_denied,
    );
    with_labelled(
        l7,
        "retcd_authz_denied_total"@,
        id,
        "plane"@,
        "admin"@,
        r.node.authz_denied_admin,
    )
}

/// Free space, when it is known.
pub open spec fn disk_lines(before: Seq<Line>, id: Seq<char>, value: Option<u64>) -> Seq<Line> {
    match value {
        Some(v) => with_single(
            before,
            "retcd_rocks_disk_free_bytes"@,
            "gauge"@,
            "free bytes on the data directory's volume"@,
            id,
            SampleValue::Whole(v),
        ),
        None => before,
    }
}

/// The pinned snapshots, when there is a paginator.
pub open spec fn pin_lines(before: Seq<Line>, id: Seq<char>, value: Option<u64>) -> Seq<Line> {
    match value {
        Some(v) => with_single(
            before,
            "retcd_pinned_snapshots"@,
            "gauge"@,
            "revision-pinned list snapshots held open for continuations (ADR-0029)"@,
            id,
            SampleValue::Whole(v),
        ),
        None => before,
    }
}

/// The policy version in force, when there is one.
pub open spec fn version_lines(before: Seq<Line>, id: Seq<char>, value: Option<u64>) -> Seq<Line> {
    match value {
        Some(v) => with_single(
            before,
            "retcd_policy_version"@,
            "gauge"@,
            "signed policy document version this node is enforcing (ADR-0027)"@,
            id,
            SampleValue::Whole(v),
        ),
        None => before,
    }
}

/// The policy version every voter has reported, when there is one.
pub open spec fn converged_lines(before: Seq<Line>, id: Seq<char>, value: Option<u64>) -> Seq<Line> {
    match value {
        Some(v) => with_single(
            before,
            "retcd_policy_converged_version"@,
            "gauge"@,
            "newest policy version every known voter has reported; below retcd_policy_version while changed prefixes are intersected"@,
            id,
            SampleValue::Whole(v),
        ),
        None => before,
    }
}

/// The age of the last backup, when it is known.
pub open spec fn backup_lines(before: Seq<Line>, id: Seq<char>, value: Option<u64>) -> Seq<Line> {
    match value {
        Some(v) => with_single(
            before,
            "retcd_backup_age_seconds"@,
            "gauge"@,
            "age of the most recent successful backup (ADR-0024)"@,
            id,
            SampleValue::Whole(v),
        ),
        None => before,
    }
}

/// The section of the signed policy.
pub open spec fn policy_lines(before: Seq<Line>, id: Seq<char>, p: PolicyMetrics) -> Seq<Line> {
    let version = version_lines(before, id, p.version);
    let converged = converged_lines(version, id, p.converged_version);
    let l0 = with_single(
        converged,
        "retcd_policy_rollbacks_total"@,
        "counter"@,
        "policy rollbacks permitted by --break-glass-policy-rollback (ADR-0027)"@,
        id,
        SampleValue::Whole(p.rollbacks),
    );
    let l1 = with_header(
        l0,
        "retcd_policy_reload_failures_total"@,
        "counter"@,
        "policy reloads refused, by reason; the active document is retained"@,
    );
    let l2 = with_reload_failures(l1, id, p.reload_failures.listed());
    with_single(
        l2,
        "retcd_break_glass_active"@,
        "gauge"@,
        "1 while this process runs with --break-glass-policy-rollback (OQ-57)"@,
        id,
        SampleValue::Whole(flag(p.break_glass_active)),
    )
}

/// The certificates, when any is known.
pub open spec fn cert_lines(
    before: Seq<Line>,
    id: Seq<char>,
    planes: Seq<(Seq<char>, i64)>,
) -> Seq<Line> {
    if planes.len() == 0 {
        before
    } else {
        with_expiries(
            with_header(
                before,
                "retcd_cert_expiry_seconds"@,
                "gauge"@,
                "seconds until the loaded leaf certificate expires; negative once expired"@,
            ),
            id,
            planes,
        )
    }
}

/// Everything a report exposes.
pub open spec fn report_lines(r: MetricsReport) -> Seq<Line> {
    let id = text::decimal(r.node.node_id.0 as nat);
    let raft = raft_lines(Seq::empty(), id, r);
    let latency = latency_lines(raft, id, r);
    let storage = match r.storage {
        Some(s) => storage_lines(latency, id, s),
        None => latency,
    };
    let disk = disk_lines(storage, id, r.disk_free_bytes);
    let watch = watch_lines(disk, id, r);
    let dedup = dedup_lines(watch, id, r);
    let gossip = gossip_lines(dedup, id, r);
    let pins = pin_lines(
        gossip,
        id,
        match r.pagination {
            Some(p) => Some(p.len as u64),
            None => None,
        },
    );
    let policy = match r.policy {
        Some(p) => policy_lines(pins, id, p),
        None => pins,
    };
    let certs = cert_lines(policy, id, r.cert_expiry_seconds.listed());
    backup_lines(certs, id, r.backup_age_seconds)
}

fn flag_value(holds: bool) -> (v: u64)
    ensures
        v == flag(holds),
{
    if holds {
        1
    } else {
        0
    }
}

fn leads_value(node: &NodeMetrics) -> (v: u64)
    ensures
        v == leads(*node),
{
    match node.current_leader {
        Some(l) => flag_value(l == node.node_id),
        None => 0,
    }
}

fn index_value(index: Option<u64>) -> (v: u64)
    ensures
        v == index_or_zero(index),
{
    match index {
        Some(i) => i,
        None => 0,
    }
}

fn applied_value(id: Option<LogIdView>) -> (v: u64)
    ensures
        v == applied_or_zero(id),
{
    match id {
        Some(l) => l.index,
        None => 0,
    }
}

fn purged_value(storage: &Option<StorageMetrics>) -> (v: u64)
    ensures
        v == purged_or_zero(*storage),
{
    match storage {
        Some(s) => s.purged_index,
        None => 0,
    }
}

fn push_single(
    e: &mut Exposition,
    name: &'static str,
    kind: &str,
    help: &str,
    id: &str,
    value: SampleValue,
)
    requires
        old(e).wf(),
    ensures
        final(e).wf(),
        final(e).lines() == with_single(old(e).lines(), name@, kind@, help@, id@, value),
{
    e.metric(name, kind, help);
    let labels: Vec<(&str, &str)> = vec![("node_id", id)];
    assert(exposition::label_texts(labels@) =~= seq![("node_id"@, id@)]);
    e.sample(name, &labels, value);
}

fn push_labelled(e: &mut Exposition, name: &str, id: &str, key: &str, label: &str, value: u64)
    requires
        old(e).wf(),
    ensures
        final(e).wf(),
        final(e).lines() == with_labelled(old(e).lines(), name@, id@, key@, label@, value),
{
    let labels: Vec<(&str, &str)> = vec![("node_id", id), (key, label)];
    assert(exposition::label_texts(labels@) =~= seq![("node_id"@, id@), (key@, label@)]);
    e.sample(name, &labels, SampleValue::Whole(value));
}

fn push_memory(e: &mut Exposition, id: &str, kind: &str, bytes: u64)
    requires
        old(e).wf(),
    ensures
        final(e).wf(),
        final(e).lines() == with_memory(old(e).lines(), id@, kind@, bytes),
{
    let labels: Vec<(&str, &str)> = vec![("node_id", id), ("cf", "all"), ("kind", kind)];
    assert(exposition::label_texts(labels@) =~= seq![
        ("node_id"@, id@),
        ("cf"@, "all"@),
        ("kind"@, kind@),
    ]);
    e.sample("retcd_rocks_mem_bytes", &labels, SampleValue::Whole(bytes));
}

fn push_peer_lags(e: &mut Exposition, id: &str, peers: &BTreeMap<u64, u64>)
    requires
        old(e).wf(),
    ensures
        final(e).wf(),
        final(e).lines() == with_peer_lags(old(e).lines(), id@, listing::listed(peers@)),
{
    let entries = listing::list(peers);
    let ghost all = listing::listed(peers@);
    let mut i: usize = 0;
    assert(all.take(0) =~= Seq::<(u64, u64)>::empty());
    while i < entries.len()
        invariant
            i <= entries@.len(),
            entries@.len() == all.len(),
            forall|j: int|
                0 <= j < all.len() ==> (#[trigger] entries@[j]).0 == all[j].0 && *entries@[j].1
                    == all[j].1,
            e.wf(),
            e.lines() == with_peer_lags(old(e).lines(), id@, all.take(i as int)),
        decreases entries@.len() - i,
    {
        let peer = text::decimal_text(entries[i].0);
        push_labelled(e, "retcd_raft_peer_lag", id, "peer_id", peer.as_str(), *entries[i].1);
        assert(all.take(i + 1).drop_last() =~= all.take(i as int));
        i = i + 1;
    }
    assert(all.take(all.len() as int) =~= all);
}

fn push_reachable(e: &mut Exposition, id: &str, peers: &BTreeMap<u64, bool>)
    requires
        old(e).wf(),
    ensures
        final(e).wf(),
        final(e).lines() == with_reachable(old(e).lines(), id@, listing::listed(peers@)),
{
    let entries = listing::list(peers);
    let ghost all = listing::listed(peers@);
    let mut i: usize = 0;
    assert(all.take(0) =~= Seq::<(u64, bool)>::empty());
    while i < entries.len()
        invariant
            i <= entries@.len(),
            entries@.len() == all.len(),
            forall|j: int|
                0 <= j < all.len() ==> (#[trigger] entries@[j]).0 == all[j].0 && *entries@[j].1
                    == all[j].1,
            e.wf(),
            e.lines() == with_reachable(old(e).lines(), id@, all.take(i as int)),
        decreases entries@.len() - i,
    {
        let peer = text::decimal_text(entries[i].0);
        push_labelled(
            e,
            "retcd_gossip_reachable",
            id,
            "peer_id",
            peer.as_str(),
            flag_value(*entries[i].1),
        );
        assert(all.take(i + 1).drop_last() =~= all.take(i as int));
        i = i + 1;
    }
    assert(all.take(all.len() as int) =~= all);
}

fn push_terminations(e: &mut Exposition, id: &str, reasons: &Vec<(TerminationReason, u64)>)
    requires
        old(e).wf(),
    ensures
        final(e).wf(),
        final(e).lines() == with_terminations(old(e).lines(), id@, reasons@),
{
    let mut i: usize = 0;
    assert(reasons@.take(0) =~= Seq::<(TerminationReason, u64)>::empty());
    while i < reasons.len()
        invariant
            i <= reasons@.len(),
            e.wf(),
            e.lines() == with_terminations(old(e).lines(), id@, reasons@.take(i as int)),
        decreases reasons@.len() - i,
    {
        push_labelled(
            e,
            "retcd_watch_terminations_total",
            id,
            "reason",
            reasons[i].0.as_str(),
            reasons[i].1,
        );
        assert(reasons@.take(i + 1).drop_last() =~= reasons@.take(i as int));
        i = i + 1;
    }
    assert(reasons@.take(reasons@.len() as int) =~= reasons@);
}

fn push_reload_failures(e: &mut Exposition, id: &str, reasons: &TextMap<u64>)
    requires
        old(e).wf(),
    ensures
        final(e).wf(),
        final(e).lines() == with_reload_failures(old(e).lines(), id@, reasons.listed()),
{
    let ghost all = reasons.listed();
    let mut i: usize = 0;
    assert(all.take(0) =~= Seq::<(Seq<char>, u64)>::empty());
    while i < reasons.len()
        invariant
            i <= all.len(),
            all == reasons.listed(),
            e.wf(),
            e.lines() == with_reload_failures(old(e).lines(), id@, all.take(i as int)),
        decreases all.len() - i,
    {
        push_labelled(
            e,
            "retcd_policy_reload_failures_total",
            id,
            "reason",
            reasons.key_at(i).as_str(),
            *reasons.value_at(i),
        );
        assert(all.take(i + 1).drop_last() =~= all.take(i as int));
        i = i + 1;
    }
    assert(all.take(all.len() as int) =~= all);
}

fn push_expiries(e: &mut Exposition, id: &str, planes: &TextMap<i64>)
    requires
        old(e).wf(),
    ensures
        final(e).wf(),
        final(e).lines() == with_expiries(old(e).lines(), id@, planes.listed()),
{
    let ghost all = planes.listed();
    let mut i: usize = 0;
    assert(all.take(0) =~= Seq::<(Seq<char>, i64)>::empty());
    while i < planes.len()
        invariant
            i <= all.len(),
            all == planes.listed(),
            e.wf(),
            e.lines() == with_expiries(old(e).lines(), id@, all.take(i as int)),
        decreases all.len() - i,
    {
        let plane = planes.key_at(i).as_str();
        let labels: Vec<(&str, &str)> = vec![("node_id", id), ("plane", plane)];
        assert(exposition::label_texts(labels@) =~= seq![("node_id"@, id@), ("plane"@, plane@)]);
        e.sample("retcd_cert_expiry_seconds", &labels, SampleValue::Signed(*planes.value_at(i)));
        assert(all.take(i + 1).drop_last() =~= all.take(i as int));
        i = i + 1;
    }
    assert(all.take(all.len() as int) =~= all);
}

/// The text of an optional text.
pub open spec fn optional_text(op: Option<&str>) -> Option<Seq<char>> {
    match op {
        Some(op) => Some(op@),
        None => None,
    }
}

fn histogram_label_list<'a>(id: &'a str, op: Option<&'a str>) -> (labels: Vec<(&'a str, &'a str)>)
    ensures
        exposition::label_texts(labels@) == histogram_labels(id@, optional_text(op)),
{
    match op {
        Some(op) => {
            let labels: Vec<(&str, &str)> = vec![("node_id", id), ("op", op)];
            assert(exposition::label_texts(labels@) =~= seq![("node_id"@, id@), ("op"@, op@)]);
            labels
        },
        None => {
            let labels: Vec<(&str, &str)> = vec![("node_id", id)];
            assert(exposition::label_texts(labels@) =~= seq![("node_id"@, id@)]);
            labels
        },
    }
}

fn push_bucket(
    e: &mut Exposition,
    bucket: &str,
    id: &str,
    op: Option<&str>,
    bound: &str,
    value: u64,
)
    requires
        old(e).wf(),
    ensures
        final(e).wf(),
        final(e).lines() == old(e).lines().push(
            (Line::Sample {
                name: bucket@,
                labels: histogram_labels(id@, optional_text(op)).push(("le"@, bound@)),
                value: SampleValue::Whole(value),
            }),
        ),
{
    let mut labels = histogram_label_list(id, op);
    let ghost before = labels@;
    labels.push(("le", bound));
    assert(exposition::label_texts(labels@) =~= exposition::label_texts(before).push(
        ("le"@, bound@),
    ));
    e.sample(bucket, &labels, SampleValue::Whole(value));
}

/// Emit one histogram: cumulative buckets, the bucket without a bound, the sum and the count.
pub fn render_histogram(
    e: &mut Exposition,
    name: &'static str,
    help: &str,
    id: &str,
    op: Option<&str>,
    hist: &HistogramSnapshot,
)
    requires
        old(e).wf(),
    ensures
        final(e).wf(),
        final(e).lines() == with_histogram(
            with_header(old(e).lines(), name@, "histogram"@, help@),
            name@,
            histogram_labels(id@, optional_text(op)),
            *hist,
        ),
{
    e.metric(name, "histogram", help);
    let ghost named = e.lines();
    let ghost labels = histogram_labels(id@, optional_text(op));
    let bucket = text::two(name, "_bucket");
    let mut i: usize = 0;
    while i < 12
        invariant
            i <= 12,
            e.wf(),
            bucket@ == name@ + "_bucket"@,
            labels == histogram_labels(id@, optional_text(op)),
            e.lines() == with_buckets(named, name@, labels, *hist, i as nat),
        decreases 12 - i,
    {
        push_bucket(e, bucket.as_str(), id, op, metrics::label_of(i), hist.cumulative[i]);
        i = i + 1;
    }
    push_bucket(e, bucket.as_str(), id, op, "+Inf", hist.count);
    let plain = histogram_label_list(id, op);
    let sum = text::two(name, "_sum");
    e.sample(sum.as_str(), &plain, SampleValue::Micros(hist.sum_micros));
    let count = text::two(name, "_count");
    e.sample(count.as_str(), &plain, SampleValue::Whole(hist.count));
}

fn push_proposals(e: &mut Exposition, id: &str, ops: &TextMap<HistogramSnapshot>)
    requires
        old(e).wf(),
    ensures
        final(e).wf(),
        final(e).lines() == with_proposals(old(e).lines(), id@, ops.listed()),
{
    let ghost all = ops.listed();
    let mut i: usize = 0;
    assert(all.take(0) =~= Seq::<(Seq<char>, HistogramSnapshot)>::empty());
    while i < ops.len()
        invariant
            i <= all.len(),
            all == ops.listed(),
            e.wf(),
            e.lines() == with_proposals(old(e).lines(), id@, all.take(i as int)),
        decreases all.len() - i,
    {
        render_histogram(
            e,
            "retcd_proposal_latency_seconds",
            "client write submit-to-commit latency",
            id,
            Some(ops.key_at(i).as_str()),
            ops.value_at(i),
        );
        assert(all.take(i + 1).drop_last() =~= all.take(i as int));
        i = i + 1;
    }
    assert(all.take(all.len() as int) =~= all);
}

fn push_disk(e: &mut Exposition, id: &str, value: Option<u64>)
    requires
        old(e).wf(),
    ensures
        final(e).wf(),
        final(e).lines() == disk_lines(old(e).lines(), id@, value),
{
    if let Some(v) = value {
        push_single(
            e,
            "retcd_rocks_disk_free_bytes",
            "gauge",
            "free bytes on the data directory's volume",
            id,
            SampleValue::Whole(v),
        );
    }
}

fn push_pins(e: &mut Exposition, id: &str, value: Option<u64>)
    requires
        old(e).wf(),
    ensures
        final(e).wf(),
        final(e).lines() == pin_lines(old(e).lines(), id@, value),
{
    if let Some(v) = value {
        push_single(
            e,
            "retcd_pinned_snapshots",
            "gauge",
            "revision-pinned list snapshots held open for continuations (ADR-0029)",
            id,
            SampleValue::Whole(v),
        );
    }
}

fn push_version(e: &mut Exposition, id: &str, value: Option<u64>)
    requires
        old(e).wf(),
    ensures
        final(e).wf(),
        final(e).lines() == version_lines(old(e).lines(), id@, value),
{
    if let Some(v) = value {
        push_single(
            e,
            "retcd_policy_version",
            "gauge",
            "signed policy document version this node is enforcing (ADR-0027)",
            id,
            SampleValue::Whole(v),
        );
    }
}

fn push_converged(e: &mut Exposition, id: &str, value: Option<u64>)
    requires
        old(e).wf(),
    ensures
        final(e).wf(),
        final(e).lines() == converged_lines(old(e).lines(), id@, value),
{
    if let Some(v) = value {
        push_single(
            e,
            "retcd_policy_converged_version",
            "gauge",
            "newest policy version every known voter has reported; below retcd_policy_version while changed prefixes are intersected",
            id,
            SampleValue::Whole(v),
        );
    }
}

fn push_backup(e: &mut Exposition, id: &str, value: Option<u64>)
    requires
        old(e).wf(),
    ensures
        final(e).wf(),
        final(e).lines() == backup_lines(old(e).lines(), id@, value),
{
    if let Some(v) = value {
        push_single(
            e,
            "retcd_backup_age_seconds",
            "gauge",
            "age of the most recent successful backup (ADR-0024)",
            id,
            SampleValue::Whole(v),
        );
    }
}

impl MetricsReport {
    fn push_raft(&self, e: &mut Exposition, id: &str)
        requires
            old(e).wf(),
        ensures
            final(e).wf(),
            final(e).lines() == raft_lines(old(e).lines(), id@, *self),
    {
        push_single(
            e,
            "retcd_raft_leader",
            "gauge",
            "1 when this node is the leader it knows about, 0 otherwise",
            id,
            SampleValue::Whole(leads_value(&self.node)),
        );
        e.metric(
            "retcd_raft_role",
            "gauge",
            "1 for this node's current role",
        );
        push_labelled(
            e,
            "retcd_raft_role",
            id,
            "role",
            NodeRole::Learner.as_str(),
            flag_value(self.node.role == NodeRole::Learner),
        );
        push_labelled(
            e,
            "retcd_raft_role",
            id,
            "role",
            NodeRole::Follower.as_str(),
            flag_value(self.node.role == NodeRole::Follower),
        );
        push_labelled(
            e,
            "retcd_raft_role",
            id,
            "role",
            NodeRole::Candidate.as_str(),
            flag_value(self.node.role == NodeRole::Candidate),
        );
        push_labelled(
            e,
            "retcd_raft_role",
            id,
            "role",
            NodeRole::Leader.as_str(),
            flag_value(self.node.role == NodeRole::Leader),
        );
        push_labelled(
            e,
            "retcd_raft_role",
            id,
            "role",
            NodeRole::Shutdown.as_str(),
            flag_value(self.node.role == NodeRole::Shutdown),
        );
        push_single(
            e,
            "retcd_raft_term",
            "gauge",
            "current Raft term",
            id,
            SampleValue::Whole(self.node.current_term),
        );
        push_single(
            e,
            "retcd_raft_leader_changes_total",
            "counter",
            "observed leadership transitions since this node started",
            id,
            SampleValue::Whole(self.leader_changes),
        );
        push_single(
            e,
            "retcd_raft_commit_index",
            "gauge",
            "last log index known to be committed",
            id,
            SampleValue::Whole(index_value(self.commit_index)),
        );
        push_single(
            e,
            "retcd_raft_applied_index",
            "gauge",
            "last log index applied to the state machine",
            id,
            SampleValue::Whole(applied_value(self.node.last_applied)),
        );
        push_single(
            e,
            "retcd_raft_purged_index",
            "gauge",
            "highest durably purged log index (ADR-0022)",
            id,
            SampleValue::Whole(purged_value(&self.storage)),
        );
        e.metric(
            "retcd_raft_peer_lag",
            "gauge",
            "leader-only: entries this peer is behind the leader's last log index",
        );
        push_peer_lags(e, id, &self.peer_lag);
        push_single(
            e,
            "retcd_cluster_revision",
            "gauge",
            "public cluster revision applied here (ADR-0005), not a log index",
            id,
            SampleValue::Whole(self.node.cluster_revision),
        );
    }

    fn push_watch(&self, e: &mut Exposition, id: &str)
        requires
            old(e).wf(),
        ensures
            final(e).wf(),
            final(e).lines() == watch_lines(old(e).lines(), id@, *self),
    {
        push_single(
            e,
            "retcd_watch_streams",
            "gauge",
            "watch streams currently registered",
            id,
            SampleValue::Whole(self.watch.streams_open as u64),
        );
        push_single(
            e,
            "retcd_watch_queued_bytes_max",
            "gauge",
            "largest per-stream queued byte budget observed since start",
            id,
            SampleValue::Whole(self.watch.queue_bytes_max),
        );
        e.metric(
            "retcd_watch_terminations_total",
            "counter",
            "watch streams terminated, by ADR-0020 reason",
        );
        push_terminations(e, id, &self.watch.terminated_by_reason);
        push_single(
            e,
            "retcd_compactions_total",
            "counter",
            "replicated compactions applied here (ADR-0019)",
            id,
            SampleValue::Whole(self.compactions),
        );
    }

    fn push_dedup(&self, e: &mut Exposition, id: &str)
        requires
            old(e).wf(),
        ensures
            final(e).wf(),
            final(e).lines() == dedup_lines(old(e).lines(), id@, *self),
    {
        push_single(
            e,
            "retcd_dedup_hits_total",
            "counter",
            "mutations answered from a retained deduplication record",
            id,
            SampleValue::Whole(self.dedup.hits),
        );
        push_single(
            e,
            "retcd_dedup_records",
            "gauge",
            "deduplication records currently retained",
            id,
            SampleValue::Whole(self.dedup.records),
        );
        push_single(
            e,
            "retcd_dedup_max_records",
            "gauge",
            "configured global cap; at it, writes still apply but are not recorded",
            id,
            SampleValue::Whole(self.dedup.max_records),
        );
        e.metric(
            "retcd_dedup_evictions_total",
            "counter",
            "deduplication records dropped, by reason",
        );
        push_labelled(
            e,
            "retcd_dedup_evictions_total",
            id,
            "reason",
            "window",
            self.dedup.window_evictions,
        );
        push_labelled(
            e,
            "retcd_dedup_evictions_total",
            id,
            "reason",
            "trim",
            self.dedup.trim_evictions,
        );
        push_single(
            e,
            "retcd_dedup_cap_refusals_total",
            "counter",
            "mutations applied whose outcome the global record cap refused to retain; a resubmission of one of these will apply a second time",
            id,
            SampleValue::Whole(self.dedup.cap_refusals),
        );
    }

    fn push_gossip(&self, e: &mut Exposition, id: &str)
        requires
            old(e).wf(),
        ensures
            final(e).wf(),
            final(e).lines() == gossip_lines(old(e).lines(), id@, *self),
    {
        e.metric(
            "retcd_gossip_reachable",
            "gauge",
            "1 when the advisory gossip source last saw this peer as reachable (ADR-0003)",
        );
        push_reachable(e, id, &self.gossip_reachable);
        push_single(
            e,
            "retcd_gossip_endpoint_mismatch_total",
            "counter",
            "gossip hints refused because they disagreed with committed membership",
            id,
            SampleValue::Whole(self.gossip_endpoint_mismatch),
        );
        e.metric(
            "retcd_authn_rejected_total",
            "counter",
            "connections whose transport identity could not be established",
        );
        push_labelled(
            e,
            "retcd_authn_rejected_total",
            id,
            "plane",
            "client",
            self.node.authn_rejected.saturating_sub(self.node.authn_rejected_peer),
        );
        push_labelled(
            e,
            "retcd_authn_rejected_total",
            id,
            "plane",
            "peer",
            self.node.authn_rejected_peer,
        );
        e.metric(
            "retcd_authz_denied_total",
            "counter",
            "authorization decisions refused",
        );
        push_labelled(e, "retcd_authz_denied_total", id, "plane", "client", self.node.authz_denied);
        push_labelled(
            e,
            "retcd_authz_denied_total",
            id,
            "plane",
            "admin",
            self.node.authz_denied_admin,
        );
    }
}

fn push_storage(e: &mut Exposition, id: &str, s: &StorageMetrics)
    requires
        old(e).wf(),
    ensures
        final(e).wf(),
        final(e).lines() == storage_lines(old(e).lines(), id@, *s),
{
    e.metric(
        "retcd_rocks_mem_bytes",
        "gauge",
        "RocksDB memory in bytes; cf=\"all\" until per-family properties are read",
    );
    push_memory(e, id, "memtable", s.rocks_memtable_bytes);
    push_memory(e, id, "table_readers", s.rocks_table_readers_bytes);
    push_single(
        e,
        "retcd_rocks_level0_files",
        "gauge",
        "files at level 0, the number that precedes a write stall",
        id,
        SampleValue::Whole(s.rocks_level0_files),
    );
    push_single(
        e,
        "retcd_rocks_write_stopped",
        "gauge",
        "1 while RocksDB is stopping writes",
        id,
        SampleValue::Whole(s.rocks_write_stopped),
    );
    push_single(
        e,
        "retcd_snapshot_age_seconds",
        "gauge",
        "age of the current published snapshot",
        id,
        SampleValue::Millis(s.snapshot_age_ms),
    );
    push_single(
        e,
        "retcd_snapshot_bytes",
        "gauge",
        "size of the current published snapshot",
        id,
        SampleValue::Whole(s.snapshot_size_bytes),
    );
    push_single(
        e,
        "retcd_snapshot_build_duration_seconds",
        "gauge",
        "duration of the most recent successful snapshot build",
        id,
        SampleValue::Millis(s.snapshot_build_duration_ms),
    );
    push_single(
        e,
        "retcd_snapshot_builds_total",
        "counter",
        "snapshot builds that returned successfully",
        id,
        SampleValue::Whole(s.snapshot_builds),
    );
    push_single(
        e,
        "retcd_snapshot_builds_in_flight",
        "gauge",
        "builds started and not yet published or failed; stuck above zero means wedged",
        id,
        SampleValue::Whole(s.snapshot_builds_in_flight),
    );
    e.metric(
        "retcd_snapshot_installs_total",
        "counter",
        "snapshots received from a leader, by outcome",
    );
    push_labelled(
        e,
        "retcd_snapshot_installs_total",
        id,
        "outcome",
        "success",
        s.snapshot_installs,
    );
    push_labelled(
        e,
        "retcd_snapshot_installs_total",
        id,
        "outcome",
        "validation_failed",
        s.snapshot_install_failures,
    );
    push_labelled(
        e,
        "retcd_snapshot_installs_total",
        id,
        "outcome",
        "crash_recovered",
        s.snapshot_install_redos,
    );
    e.metric(
        "retcd_log_purges_total",
        "counter",
        "log purge calls, by outcome (ADR-0022)",
    );
    push_labelled(e, "retcd_log_purges_total", id, "outcome", "purged", s.purges);
    push_labelled(e, "retcd_log_purges_total", id, "outcome", "deferred", s.purge_deferrals);
    push_labelled(e, "retcd_log_purges_total", id, "outcome", "refused", s.purge_refusals);
}

fn push_policy(e: &mut Exposition, id: &str, p: &PolicyMetrics)
    requires
        old(e).wf(),
    ensures
        final(e).wf(),
        final(e).lines() == policy_lines(old(e).lines(), id@, *p),
{
    push_version(e, id, p.version);
    push_converged(e, id, p.converged_version);
    push_single(
        e,
        "retcd_policy_rollbacks_total",
        "counter",
        "policy rollbacks permitted by --break-glass-policy-rollback (ADR-0027)",
        id,
        SampleValue::Whole(p.rollbacks),
    );
    e.metric(
        "retcd_policy_reload_failures_total",
        "counter",
        "policy reloads refused, by reason; the active document is retained",
    );
    push_reload_failures(e, id, &p.reload_failures);
    push_single(
        e,
        "retcd_break_glass_active",
        "gauge",
        "1 while this process runs with --break-glass-policy-rollback (OQ-57)",
        id,
        SampleValue::Whole(flag_value(p.break_glass_active)),
    );
}

fn push_certs(e: &mut Exposition, id: &str, planes: &TextMap<i64>)
    requires
        old(e).wf(),
    ensures
        final(e).wf(),
        final(e).lines() == cert_lines(old(e).lines(), id@, planes.listed()),
{
    if planes.len() > 0 {
        e.metric(
            "retcd_cert_expiry_seconds",
            "gauge",
            "seconds until the loaded leaf certificate expires; negative once expired",
        );
        push_expiries(e, id, planes);
    }
}

impl MetricsReport {
    /// Render the report in the text exposition format.
    pub fn render_prometheus(&self) -> (r: String)
        ensures
            r@ == exposition::exposed(report_lines(*self)),
    {
        let node_id = text::decimal_text(self.node.node_id.0);
        let id = node_id.as_str();
        let mut exposition = Exposition::new();
        let e = &mut exposition;
        self.push_raft(e, id);
        push_proposals(e, id, &self.proposal_latency);
        render_histogram(
            e,
            "retcd_linearizable_read_latency_seconds",
            "linearizable read barrier latency (ADR-0009)",
            id,
            None,
            &self.read_latency,
        );
        if let Some(s) = &self.storage {
            push_storage(e, id, s);
        }
        push_disk(e, id, self.disk_free_bytes);
        self.push_watch(e, id);
        self.push_dedup(e, id);
        self.push_gossip(e, id);
        if let Some(p) = &self.pagination {
            push_pins(e, id, Some(p.len as u64));
        }
        if let Some(p) = &self.policy {
            push_policy(e, id, p);
        }
        push_certs(e, id, &self.cert_expiry_seconds);
        push_backup(e, id, self.backup_age_seconds);
        exposition.finish()
    }
}

} // verus!
