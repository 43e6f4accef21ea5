//! Every metric of a report is introduced once, and its samples stand right behind.

use vstd::prelude::*;

use crate::exposition;
use crate::exposition::Line;
use crate::metrics::HistogramSnapshot;
use crate::metrics::MetricsReport;
use crate::metrics::PolicyMetrics;
use crate::number::SampleValue;
use crate::render;
use crate::storage::StorageMetrics;
use crate::text;
use crate::watch::TerminationReason;

verus! {

/// A number that tells the names of the metrics apart: made of the length and two characters.
spec fn mark(name: Seq<char>) -> int {
    name.len() * 1_000_000 + (name[6] as int) * 1_000 + (name[11] as int)
}

/// The place of a metric in the order in which metrics are introduced; zero for any other name.
spec fn place(name: Seq<char>) -> int {
    let m = mark(name);
    if m == 17_114_108 {
        1
    } else if m == 15_114_114 {
        2
    } else if m == 15_114_116 {
        3
    } else if m == 31_114_108 {
        4
    } else if m == 23_114_099 {
        5
    } else if m == 24_114_097 {
        6
    } else if m == 23_114_112 {
        7
    } else if m == 19_114_112 {
        8
    } else if m == 22_099_101 {
        9
    } else if m == 30_112_115 {
        10
    } else if m == 39_108_114 {
        11
    } else if m == 21_114_095 {
        12
    } else if m == 24_114_095 {
        13
    } else if m == 25_114_095 {
        14
    } else if m == 26_115_104 {
        15
    } else if m == 20_115_104 {
        16
    } else if m == 37_115_104 {
        17
    } else if m == 27_115_104 {
        18
    } else if m == 31_115_104 {
        19
    } else if m == 29_115_104 {
        20
    } else if m == 22_108_117 {
        21
    } else if m == 27_114_095 {
        22
    } else if m == 19_119_095 {
        23
    } else if m == 28_119_095 {
        24
    } else if m == 30_119_095 {
        25
    } else if m == 23_099_099 {
        26
    } else if m == 22_100_095 {
        27
    } else if m == 19_100_095 {
        28
    } else if m == 23_100_095 {
        29
    } else if m == 27_100_095 {
        30
    } else if m == 30_100_095 {
        31
    } else if m == 22_103_112 {
        32
    } else if m == 36_103_112 {
        33
    } else if m == 26_097_095 {
        34
    } else if m == 24_097_095 {
        35
    } else if m == 22_112_100 {
        36
    } else if m == 20_112_121 {
        37
    } else if m == 30_112_121 {
        38
    } else if m == 28_112_121 {
        39
    } else if m == 34_112_121 {
        40
    } else if m == 24_098_095 {
        41
    } else if m == 25_099_101 {
        42
    } else if m == 24_098_112 {
        43
    } else {
        0
    }
}

/// The metric introduced last.
pub open spec fn current(lines: Seq<Line>) -> Option<Seq<char>>
    decreases lines.len(),
{
    if lines.len() == 0 {
        None
    } else {
        match lines.last() {
            Line::Header { name, .. } => Some(name),
            Line::Sample { .. } => current(lines.drop_last()),
        }
    }
}

/// Whether a sample is one of a metric's: under its own name, or as a part of a histogram.
pub open spec fn belongs(sample: Seq<char>, metric: Seq<char>) -> bool {
    ||| sample == metric
    ||| sample == metric + "_bucket"@
    ||| sample == metric + "_sum"@
    ||| sample == metric + "_count"@
}

spec fn top(lines: Seq<Line>) -> int {
    match current(lines) {
        Some(name) => place(name),
        None => 0,
    }
}

/// Metrics are introduced in the order of their places, and samples follow their metric.
spec fn tidy(lines: Seq<Line>) -> bool
    decreases lines.len(),
{
    lines.len() > 0 ==> {
        &&& tidy(lines.drop_last())
        &&& match lines.last() {
            Line::Header { name, .. } => place(name) > top(lines.drop_last()),
            Line::Sample { name, .. } => current(lines.drop_last()) matches Some(metric)
                && belongs(name, metric),
        }
    }
}

proof fn header(before: Seq<Line>, name: Seq<char>, kind: Seq<char>, help: Seq<char>)
    requires
        tidy(before),
        top(before) < place(name),
    ensures
        tidy(render::with_header(before, name, kind, help)),
        current(render::with_header(before, name, kind, help)) == Some(name),
{
    if exposition::introduced(before, name) {
        let i = choose|i: int|
            0 <= i < before.len() && #[trigger] before[i] is Header && before[i]->Header_name
                == name;
        a_header_is_below_the_top(before, i);
    }
    let lines = render::with_header(before, name, kind, help);
    assert(lines.drop_last() =~= before);
}

/// The metric introduced last is among those introduced.
proof fn current_is_introduced(lines: Seq<Line>)
    requires
        current(lines) is Some,
    ensures
        exposition::introduced(lines, current(lines)->0),
    decreases lines.len(),
{
    let last = lines.len() - 1;
    if lines[last] is Sample {
        current_is_introduced(lines.drop_last());
        let i = choose|i: int|
            0 <= i < lines.len() - 1 && #[trigger] lines.drop_last()[i] is Header
                && lines.drop_last()[i]->Header_name == current(lines)->0;
        assert(lines[i] == lines.drop_last()[i]);
    }
}

proof fn sample(
    before: Seq<Line>,
    metric: Seq<char>,
    name: Seq<char>,
    labels: Seq<(Seq<char>, Seq<char>)>,
    value: SampleValue,
)
    requires
        tidy(before),
        current(before) == Some(metric),
        belongs(name, metric),
    ensures
        tidy(before.push(Line::Sample { name, labels, value })),
        current(before.push(Line::Sample { name, labels, value })) == Some(metric),
{
    let lines = before.push(Line::Sample { name, labels, value });
    assert(lines.drop_last() =~= before);
}

proof fn single(
    before: Seq<Line>,
    name: Seq<char>,
    kind: Seq<char>,
    help: Seq<char>,
    id: Seq<char>,
    value: SampleValue,
)
    requires
        tidy(before),
        top(before) < place(name),
    ensures
        tidy(render::with_single(before, name, kind, help, id, value)),
        current(render::with_single(before, name, kind, help, id, value)) == Some(name),
{
    header(before, name, kind, help);
    sample(
        render::with_header(before, name, kind, help),
        name,
        name,
        seq![("node_id"@, id)],
        value,
    );
}

proof fn labelled(
    before: Seq<Line>,
    name: Seq<char>,
    id: Seq<char>,
    key: Seq<char>,
    label: Seq<char>,
    value: u64,
)
    requires
        tidy(before),
        current(before) == Some(name),
    ensures
        tidy(render::with_labelled(before, name, id, key, label, value)),
        current(render::with_labelled(before, name, id, key, label, value)) == Some(name),
{
    sample(
        before,
        name,
        name,
        seq![("node_id"@, id), (key, label)],
        SampleValue::Whole(value),
    );
}

proof fn memory(before: Seq<Line>, id: Seq<char>, kind: Seq<char>, bytes: u64)
    requires
        tidy(before),
        current(before) == Some("retcd_rocks_mem_bytes"@),
    ensures
        tidy(render::with_memory(before, id, kind, bytes)),
        current(render::with_memory(before, id, kind, bytes)) == Some("retcd_rocks_mem_bytes"@),
{
    sample(
        before,
        "retcd_rocks_mem_bytes"@,
        "retcd_rocks_mem_bytes"@,
        seq![("node_id"@, id), ("cf"@, "all"@), ("kind"@, kind)],
        SampleValue::Whole(bytes),
    );
}

proof fn peer_lags(before: Seq<Line>, id: Seq<char>, peers: Seq<(u64, u64)>)
    requires
        tidy(before),
        current(before) == Some("retcd_raft_peer_lag"@),
    ensures
        tidy(render::with_peer_lags(before, id, peers)),
        current(render::with_peer_lags(before, id, peers)) == Some("retcd_raft_peer_lag"@),
    decreases peers.len(),
{
    if peers.len() > 0 {
        peer_lags(before, id, peers.drop_last());
        labelled(
            render::with_peer_lags(before, id, peers.drop_last()),
            "retcd_raft_peer_lag"@,
            id,
            "peer_id"@,
            text::decimal(peers.last().0 as nat),
            peers.last().1,
        );
    }
}

proof fn reachable(before: Seq<Line>, id: Seq<char>, peers: Seq<(u64, bool)>)
    requires
        tidy(before),
        current(before) == Some("retcd_gossip_reachable"@),
    ensures
        tidy(render::with_reachable(before, id, peers)),
        current(render::with_reachable(before, id, peers)) == Some("retcd_gossip_reachable"@),
    decreases peers.len(),
{
    if peers.len() > 0 {
        reachable(before, id, peers.drop_last());
        labelled(
            render::with_reachable(before, id, peers.drop_last()),
            "retcd_gossip_reachable"@,
            id,
            "peer_id"@,
            text::decimal(peers.last().0 as nat),
            render::flag(peers.last().1),
        );
    }
}

proof fn terminations(before: Seq<Line>, id: Seq<char>, reasons: Seq<(TerminationReason, u64)>)
    requires
        tidy(before),
        current(before) == Some("retcd_watch_terminations_total"@),
    ensures
        tidy(render::with_terminations(before, id, reasons)),
        current(render::with_terminations(before, id, reasons)) == Some(
            "retcd_watch_terminations_total"@,
        ),
    decreases reasons.len(),
{
    if reasons.len() > 0 {
        terminations(before, id, reasons.drop_last());
        labelled(
            render::with_terminations(before, id, reasons.drop_last()),
            "retcd_watch_terminations_total"@,
            id,
            "reason"@,
            reasons.last().0.name(),
            reasons.last().1,
        );
    }
}

proof fn reload_failures(before: Seq<Line>, id: Seq<char>, reasons: Seq<(Seq<char>, u64)>)
    requires
        tidy(before),
        current(before) == Some("retcd_policy_reload_failures_total"@),
    ensures
        tidy(render::with_reload_failures(before, id, reasons)),
        current(render::with_reload_failures(before, id, reasons)) == Some(
            "retcd_policy_reload_failures_total"@,
        ),
    decreases reasons.len(),
{
    if reasons.len() > 0 {
        reload_failures(before, id, reasons.drop_last());
        labelled(
            render::with_reload_failures(before, id, reasons.drop_last()),
            "retcd_policy_reload_failures_total"@,
            id,
            "reason"@,
            reasons.last().0,
            reasons.last().1,
        );
    }
}

proof fn expiries(before: Seq<Line>, id: Seq<char>, planes: Seq<(Seq<char>, i64)>)
    requires
        tidy(before),
        current(before) == Some("retcd_cert_expiry_seconds"@),
    ensures
        tidy(render::with_expiries(before, id, planes)),
        current(render::with_expiries(before, id, planes)) == Some("retcd_cert_expiry_seconds"@),
    decreases planes.len(),
{
    if planes.len() > 0 {
        expiries(before, id, planes.drop_last());
        sample(
            render::with_expiries(before, id, planes.drop_last()),
            "retcd_cert_expiry_seconds"@,
            "retcd_cert_expiry_seconds"@,
            seq![("node_id"@, id), ("plane"@, planes.last().0)],
            SampleValue::Signed(planes.last().1),
        );
    }
}

proof fn buckets(
    before: Seq<Line>,
    name: Seq<char>,
    labels: Seq<(Seq<char>, Seq<char>)>,
    h: HistogramSnapshot,
    n: nat,
)
    requires
        tidy(before),
        current(before) == Some(name),
    ensures
        tidy(render::with_buckets(before, name, labels, h, n)),
        current(render::with_buckets(before, name, labels, h, n)) == Some(name),
    decreases n,
{
    if n > 0 {
        buckets(before, name, labels, h, (n - 1) as nat);
        sample(
            render::with_buckets(before, name, labels, h, (n - 1) as nat),
            name,
            name + "_bucket"@,
            labels.push(("le"@, crate::metrics::bucket_label(n - 1))),
            SampleValue::Whole(h.cumulative@[n - 1]),
        );
    }
}

proof fn histogram(
    before: Seq<Line>,
    name: Seq<char>,
    labels: Seq<(Seq<char>, Seq<char>)>,
    h: HistogramSnapshot,
)
    requires
        tidy(before),
        current(before) == Some(name),
    ensures
        tidy(render::with_histogram(before, name, labels, h)),
        current(render::with_histogram(before, name, labels, h)) == Some(name),
{
    buckets(before, name, labels, h, 12);
    let l0 = render::with_buckets(before, name, labels, h, 12);
    let l1 = l0.push(
        Line::Sample {
            name: name + "_bucket"@,
            labels: labels.push(("le"@, "+Inf"@)),
            value: SampleValue::Whole(h.count),
        },
    );
    sample(
        l0,
        name,
        name + "_bucket"@,
        labels.push(("le"@, "+Inf"@)),
        SampleValue::Whole(h.count),
    );
    sample(l1, name, name + "_sum"@, labels, SampleValue::Micros(h.sum_micros));
    let l2 = l1.push(
        Line::Sample { name: name + "_sum"@, labels, value: SampleValue::Micros(h.sum_micros) },
    );
    sample(l2, name, name + "_count"@, labels, SampleValue::Whole(h.count));
}

proof fn proposals(before: Seq<Line>, id: Seq<char>, ops: Seq<(Seq<char>, HistogramSnapshot)>)
    requires
        tidy(before),
        top(before) < place("retcd_proposal_latency_seconds"@),
    ensures
        tidy(render::with_proposals(before, id, ops)),
        ops.len() == 0 ==> current(render::with_proposals(before, id, ops)) == current(before),
        ops.len() > 0 ==> current(render::with_proposals(before, id, ops)) == Some(
            "retcd_proposal_latency_seconds"@,
        ),
    decreases ops.len(),
{
    if ops.len() > 0 {
        proposals(before, id, ops.drop_last());
        let rest = render::with_proposals(before, id, ops.drop_last());
        let named = render::with_header(
            rest,
            "retcd_proposal_latency_seconds"@,
            "histogram"@,
            "client write submit-to-commit latency"@,
        );
        if ops.len() == 1 {
            header(
                rest,
                "retcd_proposal_latency_seconds"@,
                "histogram"@,
                "client write submit-to-commit latency"@,
            );
        } else {
            current_is_introduced(rest);
        }
        histogram(
            named,
            "retcd_proposal_latency_seconds"@,
            render::histogram_labels(id, Some(ops.last().0)),
            ops.last().1,
        );
    }
}

proof fn places()
    ensures
        place("retcd_raft_leader"@) == 1,
        place("retcd_raft_role"@) == 2,
        place("retcd_raft_term"@) == 3,
        place("retcd_raft_leader_changes_total"@) == 4,
        place("retcd_raft_commit_index"@) == 5,
        place("retcd_raft_applied_index"@) == 6,
        place("retcd_raft_purged_index"@) == 7,
        place("retcd_raft_peer_lag"@) == 8,
        place("retcd_cluster_revision"@) == 9,
        place("retcd_proposal_latency_seconds"@) == 10,
        place("retcd_linearizable_read_latency_seconds"@) == 11,
        place("retcd_rocks_mem_bytes"@) == 12,
        place("retcd_rocks_level0_files"@) == 13,
        place("retcd_rocks_write_stopped"@) == 14,
        place("retcd_snapshot_age_seconds"@) == 15,
        place("retcd_snapshot_bytes"@) == 16,
        place("retcd_snapshot_build_duration_seconds"@) == 17,
        place("retcd_snapshot_builds_total"@) == 18,
        place("retcd_snapshot_builds_in_flight"@) == 19,
        place("retcd_snapshot_installs_total"@) == 20,
        place("retcd_log_purges_total"@) == 21,
        place("retcd_rocks_disk_free_bytes"@) == 22,
        place("retcd_watch_streams"@) == 23,
        place("retcd_watch_queued_bytes_max"@) == 24,
        place("retcd_watch_terminations_total"@) == 25,
        place("retcd_compactions_total"@) == 26,
        place("retcd_dedup_hits_total"@) == 27,
        place("retcd_dedup_records"@) == 28,
        place("retcd_dedup_max_records"@) == 29,
        place("retcd_dedup_evictions_total"@) == 30,
        place("retcd_dedup_cap_refusals_total"@) == 31,
        place("retcd_gossip_reachable"@) == 32,
        place("retcd_gossip_endpoint_mismatch_total"@) == 33,
        place("retcd_authn_rejected_total"@) == 34,
        place("retcd_authz_denied_total"@) == 35,
        place("retcd_pinned_snapshots"@) == 36,
        place("retcd_policy_version"@) == 37,
        place("retcd_policy_converged_version"@) == 38,
        place("retcd_policy_rollbacks_total"@) == 39,
        place("retcd_policy_reload_failures_total"@) == 40,
        place("retcd_break_glass_active"@) == 41,
        place("retcd_cert_expiry_seconds"@) == 42,
        place("retcd_backup_age_seconds"@) == 43,
{
    assert(place("retcd_raft_leader"@) == 1) by {
        reveal_strlit("retcd_raft_leader");
    }
    assert(place("retcd_raft_role"@) == 2) by {
        reveal_strlit("retcd_raft_role");
    }
    assert(place("retcd_raft_term"@) == 3) by {
        reveal_strlit("retcd_raft_term");
    }
    assert(place("retcd_raft_leader_changes_total"@) == 4) by {
        reveal_strlit("retcd_raft_leader_changes_total");
    }
    assert(place("retcd_raft_commit_index"@) == 5) by {
        reveal_strlit("retcd_raft_commit_index");
    }
    assert(place("retcd_raft_applied_index"@) == 6) by {
        reveal_strlit("retcd_raft_applied_index");
    }
    assert(place("retcd_raft_purged_index"@) == 7) by {
        reveal_strlit("retcd_raft_purged_index");
    }
    assert(place("retcd_raft_peer_lag"@) == 8) by {
        reveal_strlit("retcd_raft_peer_lag");
    }
    assert(place("retcd_cluster_revision"@) == 9) by {
        reveal_strlit("retcd_cluster_revision");
    }
    assert(place("retcd_proposal_latency_seconds"@) == 10) by {
        reveal_strlit("retcd_proposal_latency_seconds");
    }
    assert(place("retcd_linearizable_read_latency_seconds"@) == 11) by {
        reveal_strlit("retcd_linearizable_read_latency_seconds");
    }
    assert(place("retcd_rocks_mem_bytes"@) == 12) by {
        reveal_strlit("retcd_rocks_mem_bytes");
    }
    assert(place("retcd_rocks_level0_files"@) == 13) by {
        reveal_strlit("retcd_rocks_level0_files");
    }
    assert(place("retcd_rocks_write_stopped"@) == 14) by {
        reveal_strlit("retcd_rocks_write_stopped");
    }
    assert(place("retcd_snapshot_age_seconds"@) == 15) by {
        reveal_strlit("retcd_snapshot_age_seconds");
    }
    assert(place("retcd_snapshot_bytes"@) == 16) by {
        reveal_strlit("retcd_snapshot_bytes");
    }
    assert(place("retcd_snapshot_build_duration_seconds"@) == 17) by {
        reveal_strlit("retcd_snapshot_build_duration_seconds");
    }
    assert(place("retcd_snapshot_builds_total"@) == 18) by {
        reveal_strlit("retcd_snapshot_builds_total");
    }
    assert(place("retcd_snapshot_builds_in_flight"@) == 19) by {
        reveal_strlit("retcd_snapshot_builds_in_flight");
    }
    assert(place("retcd_snapshot_installs_total"@) == 20) by {
        reveal_strlit("retcd_snapshot_installs_total");
    }
    assert(place("retcd_log_purges_total"@) == 21) by {
        reveal_strlit("retcd_log_purges_total");
    }
    assert(place("retcd_rocks_disk_free_bytes"@) == 22) by {
        reveal_strlit("retcd_rocks_disk_free_bytes");
    }
    assert(place("retcd_watch_streams"@) == 23) by {
        reveal_strlit("retcd_watch_streams");
    }
    assert(place("retcd_watch_queued_bytes_max"@) == 24) by {
        reveal_strlit("retcd_watch_queued_bytes_max");
    }
    assert(place("retcd_watch_terminations_total"@) == 25) by {
        reveal_strlit("retcd_watch_terminations_total");
    }
    assert(place("retcd_compactions_total"@) == 26) by {
        reveal_strlit("retcd_compactions_total");
    }
    assert(place("retcd_dedup_hits_total"@) == 27) by {
        reveal_strlit("retcd_dedup_hits_total");
    }
    assert(place("retcd_dedup_records"@) == 28) by {
        reveal_strlit("retcd_dedup_records");
    }
    assert(place("retcd_dedup_max_records"@) == 29) by {
        reveal_strlit("retcd_dedup_max_records");
    }
    assert(place("retcd_dedup_evictions_total"@) == 30) by {
        reveal_strlit("retcd_dedup_evictions_total");
    }
    assert(place("retcd_dedup_cap_refusals_total"@) == 31) by {
        reveal_strlit("retcd_dedup_cap_refusals_total");
    }
    assert(place("retcd_gossip_reachable"@) == 32) by {
        reveal_strlit("retcd_gossip_reachable");
    }
    assert(place("retcd_gossip_endpoint_mismatch_total"@) == 33) by {
        reveal_strlit("retcd_gossip_endpoint_mismatch_total");
    }
    assert(place("retcd_authn_rejected_total"@) == 34) by {
        reveal_strlit("retcd_authn_rejected_total");
    }
    assert(place("retcd_authz_denied_total"@) == 35) by {
        reveal_strlit("retcd_authz_denied_total");
    }
    assert(place("retcd_pinned_snapshots"@) == 36) by {
        reveal_strlit("retcd_pinned_snapshots");
    }
    assert(place("retcd_policy_version"@) == 37) by {
        reveal_strlit("retcd_policy_version");
    }
    assert(place("retcd_policy_converged_version"@) == 38) by {
        reveal_strlit("retcd_policy_converged_version");
    }
    assert(place("retcd_policy_rollbacks_total"@) == 39) by {
        reveal_strlit("retcd_policy_rollbacks_total");
    }
    assert(place("retcd_policy_reload_failures_total"@) == 40) by {
        reveal_strlit("retcd_policy_reload_failures_total");
    }
    assert(place("retcd_break_glass_active"@) == 41) by {
        reveal_strlit("retcd_break_glass_active");
    }
    assert(place("retcd_cert_expiry_seconds"@) == 42) by {
        reveal_strlit("retcd_cert_expiry_seconds");
    }
    assert(place("retcd_backup_age_seconds"@) == 43) by {
        reveal_strlit("retcd_backup_age_seconds");
    }
}

proof fn raft_lines(before: Seq<Line>, id: Seq<char>, r: MetricsReport)
    requires
        tidy(before),
        current(before) is None,
    ensures
        tidy(render::raft_lines(before, id, r)),
        current(render::raft_lines(before, id, r)) == Some("retcd_cluster_revision"@),
{
    places();
    single(
        before,
        "retcd_raft_leader"@,
        "gauge"@,
        "1 when this node is the leader it knows about, 0 otherwise"@,
        id,
        SampleValue::Whole(render::leads(r.node)),
    );
    let l0 = render::with_single(
        before,
        "retcd_raft_leader"@,
        "gauge"@,
        "1 when this node is the leader it knows about, 0 otherwise"@,
        id,
        SampleValue::Whole(render::leads(r.node)),
    );
    header(
        l0,
        "retcd_raft_role"@,
        "gauge"@,
        "1 for this node's current role"@,
    );
    let l1 = render::with_header(
        l0,
        "retcd_raft_role"@,
        "gauge"@,
        "1 for this node's current role"@,
    );
    labelled(
        l1,
        "retcd_raft_role"@,
        id,
        "role"@,
        crate::metrics::NodeRole::Learner.name(),
        render::flag(r.node.role == crate::metrics::NodeRole::Learner),
    );
    let l2 = render::with_labelled(
        l1,
        "retcd_raft_role"@,
        id,
        "role"@,
        crate::metrics::NodeRole::Learner.name(),
        render::flag(r.node.role == crate::metrics::NodeRole::Learner),
    );
    labelled(
        l2,
        "retcd_raft_role"@,
        id,
        "role"@,
        crate::metrics::NodeRole::Follower.name(),
        render::flag(r.node.role == crate::metrics::NodeRole::Follower),
    );
    let l3 = render::with_labelled(
        l2,
        "retcd_raft_role"@,
        id,
        "role"@,
        crate::metrics::NodeRole::Follower.name(),
        render::flag(r.node.role == crate::metrics::NodeRole::Follower),
    );
    labelled(
        l3,
        "retcd_raft_role"@,
        id,
        "role"@,
        crate::metrics::NodeRole::Candidate.name(),
        render::flag(r.node.role == crate::metrics::NodeRole::Candidate),
    );
    let l4 = render::with_labelled(
        l3,
        "retcd_raft_role"@,
        id,
        "role"@,
        crate::metrics::NodeRole::Candidate.name(),
        render::flag(r.node.role == crate::metrics::NodeRole::Candidate),
    );
    labelled(
        l4,
        "retcd_raft_role"@,
        id,
        "role"@,
        crate::metrics::NodeRole::Leader.name(),
        render::flag(r.node.role == crate::metrics::NodeRole::Leader),
    );
    let l5 = render::with_labelled(
        l4,
        "retcd_raft_role"@,
        id,
        "role"@,
        crate::metrics::NodeRole::Leader.name(),
        render::flag(r.node.role == crate::metrics::NodeRole::Leader),
    );
    labelled(
        l5,
        "retcd_raft_role"@,
        id,
        "role"@,
        crate::metrics::NodeRole::Shutdown.name(),
        render::flag(r.node.role == crate::metrics::NodeRole::Shutdown),
    );
    let l6 = render::with_labelled(
        l5,
        "retcd_raft_role"@,
        id,
        "role"@,
        crate::metrics::NodeRole::Shutdown.name(),
        render::flag(r.node.role == crate::metrics::NodeRole::Shutdown),
    );
    single(
        l6,
        "retcd_raft_term"@,
        "gauge"@,
        "current Raft term"@,
        id,
        SampleValue::Whole(r.node.current_term),
    );
    let l7 = render::with_single(
        l6,
        "retcd_raft_term"@,
        "gauge"@,
        "current Raft term"@,
        id,
        SampleValue::Whole(r.node.current_term),
    );
    single(
        l7,
        "retcd_raft_leader_changes_total"@,
        "counter"@,
        "observed leadership transitions since this node started"@,
        id,
        SampleValue::Whole(r.leader_changes),
    );
    let l8 = render::with_single(
        l7,
        "retcd_raft_leader_changes_total"@,
        "counter"@,
        "observed leadership transitions since this node started"@,
        id,
        SampleValue::Whole(r.leader_changes),
    );
    single(
        l8,
        "retcd_raft_commit_index"@,
        "gauge"@,
        "last log index known to be committed"@,
        id,
        SampleValue::Whole(render::index_or_zero(r.commit_index)),
    );
    let l9 = render::with_single(
        l8,
        "retcd_raft_commit_index"@,
        "gauge"@,
        "last log index known to be committed"@,
        id,
        SampleValue::Whole(render::index_or_zero(r.commit_index)),
    );
    single(
        l9,
        "retcd_raft_applied_index"@,
        "gauge"@,
        "last log index applied to the state machine"@,
        id,
        SampleValue::Whole(render::applied_or_zero(r.node.last_applied)),
    );
    let l10 = render::with_single(
        l9,
        "retcd_raft_applied_index"@,
        "gauge"@,
        "last log index applied to the state machine"@,
        id,
        SampleValue::Whole(render::applied_or_zero(r.node.last_applied)),
    );
    single(
        l10,
        "retcd_raft_purged_index"@,
        "gauge"@,
        "highest durably purged log index (ADR-0022)"@,
        id,
        SampleValue::Whole(render::purged_or_zero(r.storage)),
    );
    let l11 = render::with_single(
        l10,
        "retcd_raft_purged_index"@,
        "gauge"@,
        "highest durably purged log index (ADR-0022)"@,
        id,
        SampleValue::Whole(render::purged_or_zero(r.storage)),
    );
    header(
        l11,
        "retcd_raft_peer_lag"@,
        "gauge"@,
        "leader-only: entries this peer is behind the leader's last log index"@,
    );
    let l12 = render::with_header(
        l11,
        "retcd_raft_peer_lag"@,
        "gauge"@,
        "leader-only: entries this peer is behind the leader's last log index"@,
    );
    peer_lags(l12, id, crate::listing::listed(r.peer_lag@));
    let l13 = render::with_peer_lags(l12, id, crate::listing::listed(r.peer_lag@));
    single(
        l13,
        "retcd_cluster_revision"@,
        "gauge"@,
        "public cluster revision applied here (ADR-0005), not a log index"@,
        id,
        SampleValue::Whole(r.node.cluster_revision),
    );
}

proof fn latency_lines(before: Seq<Line>, id: Seq<char>, r: MetricsReport)
    requires
        tidy(before),
        current(before) == Some("retcd_cluster_revision"@),
    ensures
        tidy(render::latency_lines(before, id, r)),
        current(render::latency_lines(before, id, r)) == Some(
            "retcd_linearizable_read_latency_seconds"@,
        ),
{
    places();
    proposals(before, id, r.proposal_latency.listed());
    let l0 = render::with_proposals(before, id, r.proposal_latency.listed());
    header(
        l0,
        "retcd_linearizable_read_latency_seconds"@,
        "histogram"@,
        "linearizable read barrier latency (ADR-0009)"@,
    );
    histogram(
        render::with_header(
            l0,
            "retcd_linearizable_read_latency_seconds"@,
            "histogram"@,
            "linearizable read barrier latency (ADR-0009)"@,
        ),
        "retcd_linearizable_read_latency_seconds"@,
        render::histogram_labels(id, None),
        r.read_latency,
    );
}

proof fn storage_lines(before: Seq<Line>, id: Seq<char>, s: StorageMetrics)
    requires
        tidy(before),
        current(before) == Some("retcd_linearizable_read_latency_seconds"@),
    ensures
        tidy(render::storage_lines(before, id, s)),
        current(render::storage_lines(before, id, s)) == Some("retcd_log_purges_total"@),
{
    places();
    header(
        before,
        "retcd_rocks_mem_bytes"@,
        "gauge"@,
        "RocksDB memory in bytes; cf=\"all\" until per-family properties are read"@,
    );
    let l0 = render::with_header(
        before,
        "retcd_rocks_mem_bytes"@,
        "gauge"@,
        "RocksDB memory in bytes; cf=\"all\" until per-family properties are read"@,
    );
    memory(l0, id, "memtable"@, s.rocks_memtable_bytes);
    let l1 = render::with_memory(l0, id, "memtable"@, s.rocks_memtable_bytes);
    memory(l1, id, "table_readers"@, s.rocks_table_readers_bytes);
    let l2 = render::with_memory(l1, id, "table_readers"@, s.rocks_table_readers_bytes);
    single(
        l2,
        "retcd_rocks_level0_files"@,
        "gauge"@,
        "files at level 0, the number that precedes a write stall"@,
        id,
        SampleValue::Whole(s.rocks_level0_files),
    );
    let l3 = render::with_single(
        l2,
        "retcd_rocks_level0_files"@,
        "gauge"@,
        "files at level 0, the number that precedes a write stall"@,
        id,
        SampleValue::Whole(s.rocks_level0_files),
    );
    single(
        l3,
        "retcd_rocks_write_stopped"@,
        "gauge"@,
        "1 while RocksDB is stopping writes"@,
        id,
        SampleValue::Whole(s.rocks_write_stopped),
    );
    let l4 = render::with_single(
        l3,
        "retcd_rocks_write_stopped"@,
        "gauge"@,
        "1 while RocksDB is stopping writes"@,
        id,
        SampleValue::Whole(s.rocks_write_stopped),
    );
    single(
        l4,
        "retcd_snapshot_age_seconds"@,
        "gauge"@,
        "age of the current published snapshot"@,
        id,
        SampleValue::Millis(s.snapshot_age_ms),
    );
    let l5 = render::with_single(
        l4,
        "retcd_snapshot_age_seconds"@,
        "gauge"@,
        "age of the current published snapshot"@,
        id,
        SampleValue::Millis(s.snapshot_age_ms),
    );
    single(
        l5,
        "retcd_snapshot_bytes"@,
        "gauge"@,
        "size of the current published snapshot"@,
        id,
        SampleValue::Whole(s.snapshot_size_bytes),
    );
    let l6 = render::with_single(
        l5,
        "retcd_snapshot_bytes"@,
        "gauge"@,
        "size of the current published snapshot"@,
        id,
        SampleValue::Whole(s.snapshot_size_bytes),
    );
    single(
        l6,
        "retcd_snapshot_build_duration_seconds"@,
        "gauge"@,
        "duration of the most recent successful snapshot build"@,
        id,
        SampleValue::Millis(s.snapshot_build_duration_ms),
    );
    let l7 = render::with_single(
        l6,
        "retcd_snapshot_build_duration_seconds"@,
        "gauge"@,
        "duration of the most recent successful snapshot build"@,
        id,
        SampleValue::Millis(s.snapshot_build_duration_ms),
    );
    single(
        l7,
        "retcd_snapshot_builds_total"@,
        "counter"@,
        "snapshot builds that returned successfully"@,
        id,
        SampleValue::Whole(s.snapshot_builds),
    );
    let l8 = render::with_single(
        l7,
        "retcd_snapshot_builds_total"@,
        "counter"@,
        "snapshot builds that returned successfully"@,
        id,
        SampleValue::Whole(s.snapshot_builds),
    );
    single(
        l8,
        "retcd_snapshot_builds_in_flight"@,
        "gauge"@,
        "builds started and not yet published or failed; stuck above zero means wedged"@,
        id,
        SampleValue::Whole(s.snapshot_builds_in_flight),
    );
    let l9 = render::with_single(
        l8,
        "retcd_snapshot_builds_in_flight"@,
        "gauge"@,
        "builds started and not yet published or failed; stuck above zero means wedged"@,
        id,
        SampleValue::Whole(s.snapshot_builds_in_flight),
    );
    header(
        l9,
        "retcd_snapshot_installs_total"@,
        "counter"@,
        "snapshots received from a leader, by outcome"@,
    );
    let l10 = render::with_header(
        l9,
        "retcd_snapshot_installs_total"@,
        "counter"@,
        "snapshots received from a leader, by outcome"@,
    );
    labelled(
        l10,
        "retcd_snapshot_installs_total"@,
        id,
        "outcome"@,
        "success"@,
        s.snapshot_installs,
    );
    let l11 = render::with_labelled(
        l10,
        "retcd_snapshot_installs_total"@,
        id,
        "outcome"@,
        "success"@,
        s.snapshot_installs,
    );
    labelled(
        l11,
        "retcd_snapshot_installs_total"@,
        id,
        "outcome"@,
        "validation_failed"@,
        s.snapshot_install_failures,
    );
    let l12 = render::with_labelled(
        l11,
        "retcd_snapshot_installs_total"@,
        id,
        "outcome"@,
        "validation_failed"@,
        s.snapshot_install_failures,
    );
    labelled(
        l12,
        "retcd_snapshot_installs_total"@,
        id,
        "outcome"@,
        "crash_recovered"@,
        s.snapshot_install_redos,
    );
    let l13 = render::with_labelled(
        l12,
        "retcd_snapshot_installs_total"@,
        id,
        "outcome"@,
        "crash_recovered"@,
        s.snapshot_install_redos,
    );
    header(
        l13,
        "retcd_log_purges_total"@,
        "counter"@,
        "log purge calls, by outcome (ADR-0022)"@,
    );
    let l14 = render::with_header(
        l13,
        "retcd_log_purges_total"@,
        "counter"@,
        "log purge calls, by outcome (ADR-0022)"@,
    );
    labelled(l14, "retcd_log_purges_total"@, id, "outcome"@, "purged"@, s.purges);
    let l15 = render::with_labelled(
        l14,
        "retcd_log_purges_total"@,
        id,
        "outcome"@,
        "purged"@,
        s.purges,
    );
    labelled(l15, "retcd_log_purges_total"@, id, "outcome"@, "deferred"@, s.purge_deferrals);
    let l16 = render::with_labelled(
        l15,
        "retcd_log_purges_total"@,
        id,
        "outcome"@,
        "deferred"@,
        s.purge_deferrals,
    );
    labelled(l16, "retcd_log_purges_total"@, id, "outcome"@, "refused"@, s.purge_refusals);
}

proof fn watch_lines(before: Seq<Line>, id: Seq<char>, r: MetricsReport)
    requires
        tidy(before),
        top(before) <= 22,
    ensures
        tidy(render::watch_lines(before, id, r)),
        current(render::watch_lines(before, id, r)) == Some("retcd_compactions_total"@),
{
    places();
    single(
        before,
        "retcd_watch_streams"@,
        "gauge"@,
        "watch streams currently registered"@,
        id,
        SampleValue::Whole(r.watch.streams_open as u64),
    );
    let l0 = render::with_single(
        before,
        "retcd_watch_streams"@,
        "gauge"@,
        "watch streams currently registered"@,
        id,
        SampleValue::Whole(r.watch.streams_open as u64),
    );
    single(
        l0,
        "retcd_watch_queued_bytes_max"@,
        "gauge"@,
        "largest per-stream queued byte budget observed since start"@,
        id,
        SampleValue::Whole(r.watch.queue_bytes_max),
    );
    let l1 = render::with_single(
        l0,
        "retcd_watch_queued_bytes_max"@,
        "gauge"@,
        "largest per-stream queued byte budget observed since start"@,
        id,
        SampleValue::Whole(r.watch.queue_bytes_max),
    );
    header(
        l1,
        "retcd_watch_terminations_total"@,
        "counter"@,
        "watch streams terminated, by ADR-0020 reason"@,
    );
    let l2 = render::with_header(
        l1,
        "retcd_watch_terminations_total"@,
        "counter"@,
        "watch streams terminated, by ADR-0020 reason"@,
    );
    terminations(l2, id, r.watch.terminated_by_reason@);
    let l3 = render::with_terminations(l2, id, r.watch.terminated_by_reason@);
    single(
        l3,
        "retcd_compactions_total"@,
        "counter"@,
        "replicated compactions applied here (ADR-0019)"@,
        id,
        SampleValue::Whole(r.compactions),
    );
}

proof fn dedup_lines(before: Seq<Line>, id: Seq<char>, r: MetricsReport)
    requires
        tidy(before),
        current(before) == Some("retcd_compactions_total"@),
    ensures
        tidy(render::dedup_lines(before, id, r)),
        current(render::dedup_lines(before, id, r)) == Some("retcd_dedup_cap_refusals_total"@),
{
    places();
    single(
        before,
        "retcd_dedup_hits_total"@,
        "counter"@,
        "mutations answered from a retained deduplication record"@,
        id,
        SampleValue::Whole(r.dedup.hits),
    );
    let l0 = render::with_single(
        before,
        "retcd_dedup_hits_total"@,
        "counter"@,
        "mutations answered from a retained deduplication record"@,
        id,
        SampleValue::Whole(r.dedup.hits),
    );
    single(
        l0,
        "retcd_dedup_records"@,
        "gauge"@,
        "deduplication records currently retained"@,
        id,
        SampleValue::Whole(r.dedup.records),
    );
    let l1 = render::with_single(
        l0,
        "retcd_dedup_records"@,
        "gauge"@,
        "deduplication records currently retained"@,
        id,
        SampleValue::Whole(r.dedup.records),
    );
    single(
        l1,
        "retcd_dedup_max_records"@,
        "gauge"@,
        "configured global cap; at it, writes still apply but are not recorded"@,
        id,
        SampleValue::Whole(r.dedup.max_records),
    );
    let l2 = render::with_single(
        l1,
        "retcd_dedup_max_records"@,
        "gauge"@,
        "configured global cap; at it, writes still apply but are not recorded"@,
        id,
        SampleValue::Whole(r.dedup.max_records),
    );
    header(
        l2,
        "retcd_dedup_evictions_total"@,
        "counter"@,
        "deduplication records dropped, by reason"@,
    );
    let l3 = render::with_header(
        l2,
        "retcd_dedup_evictions_total"@,
        "counter"@,
        "deduplication records dropped, by reason"@,
    );
    labelled(
        l3,
        "retcd_dedup_evictions_total"@,
        id,
        "reason"@,
        "window"@,
        r.dedup.window_evictions,
    );
    let l4 = render::with_labelled(
        l3,
        "retcd_dedup_evictions_total"@,
        id,
        "reason"@,
        "window"@,
        r.dedup.window_evictions,
    );
    labelled(l4, "retcd_dedup_evictions_total"@, id, "reason"@, "trim"@, r.dedup.trim_evictions);
    let l5 = render::with_labelled(
        l4,
        "retcd_dedup_evictions_total"@,
        id,
        "reason"@,
        "trim"@,
        r.dedup.trim_evictions,
    );
    single(
        l5,
        "retcd_dedup_cap_refusals_total"@,
        "counter"@,
        "mutations applied whose outcome the global record cap refused to retain; a resubmission of one of these will apply a second time"@,
        id,
        SampleValue::Whole(r.dedup.cap_refusals),
    );
}

proof fn gossip_lines(before: Seq<Line>, id: Seq<char>, r: MetricsReport)
    requires
        tidy(before),
        current(before) == Some("retcd_dedup_cap_refusals_total"@),
    ensures
        tidy(render::gossip_lines(before, id, r)),
        current(render::gossip_lines(before, id, r)) == Some("retcd_authz_denied_total"@),
{
    places();
    header(
        before,
        "retcd_gossip_reachable"@,
        "gauge"@,
        "1 when the advisory gossip source last saw this peer as reachable (ADR-0003)"@,
    );
    let l0 = render::with_header(
        before,
        "retcd_gossip_reachable"@,
        "gauge"@,
        "1 when the advisory gossip source last saw this peer as reachable (ADR-0003)"@,
    );
    reachable(l0, id, crate::listing::listed(r.gossip_reachable@));
    let l1 = render::with_reachable(l0, id, crate::listing::listed(r.gossip_reachable@));
    single(
        l1,
        "retcd_gossip_endpoint_mismatch_total"@,
        "counter"@,
        "gossip hints refused because they disagreed with committed membership"@,
        id,
        SampleValue::Whole(r.gossip_endpoint_mismatch),
    );
    let l2 = render::with_single(
        l1,
        "retcd_gossip_endpoint_mismatch_total"@,
        "counter"@,
        "gossip hints refused because they disagreed with committed membership"@,
        id,
        SampleValue::Whole(r.gossip_endpoint_mismatch),
    );
    header(
        l2,
        "retcd_authn_rejected_total"@,
        "counter"@,
        "connections whose transport identity could not be established"@,
    );
    let l3 = render::with_header(
        l2,
        "retcd_authn_rejected_total"@,
        "counter"@,
        "connections whose transport identity could not be established"@,
    );
    labelled(
        l3,
        "retcd_authn_rejected_total"@,
        id,
        "plane"@,
        "client"@,
        render::client_share(r.node),
    );
    let l4 = render::with_labelled(
        l3,
        "retcd_authn_rejected_total"@,
        id,
        "plane"@,
        "client"@,
        render::client_share(r.node),
    );
    labelled(l4, "retcd_authn_rejected_total"@, id, "plane"@, "peer"@, r.node.authn_rejected_peer);
    let l5 = render::with_labelled(
        l4,
        "retcd_authn_rejected_total"@,
        id,
        "plane"@,
        "peer"@,
        r.node.authn_rejected_peer,
    );
    header(
        l5,
        "retcd_authz_denied_total"@,
        "counter"@,
        "authorization decisions refused"@,
    );
    let l6 = render::with_header(
        l5,
        "retcd_authz_denied_total"@,
        "counter"@,
        "authorization decisions refused"@,
    );
    labelled(l6, "retcd_authz_denied_total"@, id, "plane"@, "client"@, r.node.authz_denied);
    let l7 = render::with_labelled(
        l6,
        "retcd_authz_denied_total"@,
        id,
        "plane"@,
        "client"@,
        r.node.authz_denied,
    );
    labelled(l7, "retcd_authz_denied_total"@, id, "plane"@, "admin"@, r.node.authz_denied_admin);
}

proof fn disk_lines(before: Seq<Line>, id: Seq<char>, value: Option<u64>)
    requires
        tidy(before),
        top(before) < 22,
    ensures
        tidy(render::disk_lines(before, id, value)),
        top(render::disk_lines(before, id, value)) <= 22,
{
    places();
    if let Some(v) = value {
        single(
            before,
            "retcd_rocks_disk_free_bytes"@,
            "gauge"@,
            "free bytes on the data directory's volume"@,
            id,
            SampleValue::Whole(v),
        );
    }
}

proof fn pin_lines(before: Seq<Line>, id: Seq<char>, value: Option<u64>)
    requires
        tidy(before),
        top(before) < 36,
    ensures
        tidy(render::pin_lines(before, id, value)),
        top(render::pin_lines(before, id, value)) <= 36,
{
    places();
    if let Some(v) = value {
        single(
            before,
            "retcd_pinned_snapshots"@,
            "gauge"@,
            "revision-pinned list snapshots held open for continuations (ADR-0029)"@,
            id,
            SampleValue::Whole(v),
        );
    }
}

proof fn version_lines(before: Seq<Line>, id: Seq<char>, value: Option<u64>)
    requires
        tidy(before),
        top(before) < 37,
    ensures
        tidy(render::version_lines(before, id, value)),
        top(render::version_lines(before, id, value)) <= 37,
{
    places();
    if let Some(v) = value {
        single(
            before,
            "retcd_policy_version"@,
            "gauge"@,
            "signed policy document version this node is enforcing (ADR-0027)"@,
            id,
            SampleValue::Whole(v),
        );
    }
}

proof fn converged_lines(before: Seq<Line>, id: Seq<char>, value: Option<u64>)
    requires
        tidy(before),
        top(before) < 38,
    ensures
        tidy(render::converged_lines(before, id, value)),
        top(render::converged_lines(before, id, value)) <= 38,
{
    places();
    if let Some(v) = value {
        single(
            before,
            "retcd_policy_converged_version"@,
            "gauge"@,
            "newest policy version every known voter has reported; below retcd_policy_version while changed prefixes are intersected"@,
            id,
            SampleValue::Whole(v),
        );
    }
}

proof fn backup_lines(before: Seq<Line>, id: Seq<char>, value: Option<u64>)
    requires
        tidy(before),
        top(before) < 43,
    ensures
        tidy(render::backup_lines(before, id, value)),
        top(render::backup_lines(before, id, value)) <= 43,
{
    places();
    if let Some(v) = value {
        single(
            before,
            "retcd_backup_age_seconds"@,
            "gauge"@,
            "age of the most recent successful backup (ADR-0024)"@,
            id,
            SampleValue::Whole(v),
        );
    }
}

proof fn policy_lines(before: Seq<Line>, id: Seq<char>, p: PolicyMetrics)
    requires
        tidy(before),
        top(before) <= 36,
    ensures
        tidy(render::policy_lines(before, id, p)),
        current(render::policy_lines(before, id, p)) == Some("retcd_break_glass_active"@),
{
    places();
    version_lines(before, id, p.version);
    let version = render::version_lines(before, id, p.version);
    converged_lines(version, id, p.converged_version);
    let converged = render::converged_lines(version, id, p.converged_version);
    single(
        converged,
        "retcd_policy_rollbacks_total"@,
        "counter"@,
        "policy rollbacks permitted by --break-glass-policy-rollback (ADR-0027)"@,
        id,
        SampleValue::Whole(p.rollbacks),
    );
    let l0 = render::with_single(
        converged,
        "retcd_policy_rollbacks_total"@,
        "counter"@,
        "policy rollbacks permitted by --break-glass-policy-rollback (ADR-0027)"@,
        id,
        SampleValue::Whole(p.rollbacks),
    );
    header(
        l0,
        "retcd_policy_reload_failures_total"@,
        "counter"@,
        "policy reloads refused, by reason; the active document is retained"@,
    );
    let l1 = render::with_header(
        l0,
        "retcd_policy_reload_failures_total"@,
        "counter"@,
        "policy reloads refused, by reason; the active document is retained"@,
    );
    reload_failures(l1, id, p.reload_failures.listed());
    let l2 = render::with_reload_failures(l1, id, p.reload_failures.listed());
    single(
        l2,
        "retcd_break_glass_active"@,
        "gauge"@,
        "1 while this process runs with --break-glass-policy-rollback (OQ-57)"@,
        id,
        SampleValue::Whole(render::flag(p.break_glass_active)),
    );
}

proof fn cert_lines(before: Seq<Line>, id: Seq<char>, planes: Seq<(Seq<char>, i64)>)
    requires
        tidy(before),
        top(before) <= 41,
    ensures
        tidy(render::cert_lines(before, id, planes)),
        top(render::cert_lines(before, id, planes)) <= 42,
{
    places();
    if planes.len() > 0 {
        header(
            before,
            "retcd_cert_expiry_seconds"@,
            "gauge"@,
            "seconds until the loaded leaf certificate expires; negative once expired"@,
        );
        expiries(
            render::with_header(
                before,
                "retcd_cert_expiry_seconds"@,
                "gauge"@,
                "seconds until the loaded leaf certificate expires; negative once expired"@,
            ),
            id,
            planes,
        );
    }
}

proof fn report_is_tidy(r: MetricsReport)
    ensures
        tidy(render::report_lines(r)),
{
    places();
    let id = text::decimal(r.node.node_id.0 as nat);
    raft_lines(Seq::empty(), id, r);
    let raft = render::raft_lines(Seq::empty(), id, r);
    latency_lines(raft, id, r);
    let latency = render::latency_lines(raft, id, r);
    let storage = match r.storage {
        Some(s) => render::storage_lines(latency, id, s),
        None => latency,
    };
    if let Some(s) = r.storage {
        storage_lines(latency, id, s);
    }
    disk_lines(storage, id, r.disk_free_bytes);
    let disk = render::disk_lines(storage, id, r.disk_free_bytes);
    watch_lines(disk, id, r);
    let watch = render::watch_lines(disk, id, r);
    dedup_lines(watch, id, r);
    let dedup = render::dedup_lines(watch, id, r);
    gossip_lines(dedup, id, r);
    let gossip = render::gossip_lines(dedup, id, r);
    let pinned = match r.pagination {
        Some(p) => Some(p.len as u64),
        None => None,
    };
    pin_lines(gossip, id, pinned);
    let pins = render::pin_lines(gossip, id, pinned);
    let policy = match r.policy {
        Some(p) => render::policy_lines(pins, id, p),
        None => pins,
    };
    if let Some(p) = r.policy {
        policy_lines(pins, id, p);
    }
    cert_lines(policy, id, r.cert_expiry_seconds.listed());
    let certs = render::cert_lines(policy, id, r.cert_expiry_seconds.listed());
    backup_lines(certs, id, r.backup_age_seconds);
}

proof fn a_header_is_below_the_top(lines: Seq<Line>, i: int)
    requires
        tidy(lines),
        0 <= i < lines.len(),
        lines[i] is Header,
    ensures
        place(lines[i]->Header_name) <= top(lines),
        i < lines.len() - 1 ==> place(lines[i]->Header_name) <= top(lines.drop_last()),
    decreases lines.len(),
{
    if i < lines.len() - 1 {
        assert(lines.drop_last()[i] == lines[i]);
        a_header_is_below_the_top(lines.drop_last(), i);
    }
}

proof fn tidy_prefix(lines: Seq<Line>, n: int)
    requires
        tidy(lines),
        0 <= n <= lines.len(),
    ensures
        tidy(lines.take(n)),
    decreases lines.len(),
{
    if n == lines.len() {
        assert(lines.take(n) =~= lines);
    } else {
        tidy_prefix(lines.drop_last(), n);
        assert(lines.drop_last().take(n) =~= lines.take(n));
    }
}

/// Each metric's `HELP` and `TYPE` stand in a report exactly once: no two headers name the same
/// metric, and every sample belongs to the metric introduced last before it.
pub proof fn every_metric_is_introduced_once(r: MetricsReport)
    ensures
        ({
            let lines = render::report_lines(r);
            &&& forall|i: int, j: int|
                0 <= i < j < lines.len() && #[trigger] lines[i] is Header && #[trigger] lines[j]
                    is Header ==> lines[i]->Header_name != lines[j]->Header_name
            &&& forall|i: int|
                0 <= i < lines.len() && #[trigger] lines[i] is Sample ==> (current(
                    lines.take(i),
                ) matches Some(metric) && belongs(lines[i]->Sample_name, metric))
        }),
{
    let lines = render::report_lines(r);
    report_is_tidy(r);
    assert forall|i: int, j: int|
        0 <= i < j < lines.len() && #[trigger] lines[i] is Header && #[trigger] lines[j]
            is Header implies lines[i]->Header_name != lines[j]->Header_name by {
        tidy_prefix(lines, j + 1);
        let upto = lines.take(j + 1);
        assert(upto[i] == lines[i]);
        assert(upto.last() == lines[j]);
        a_header_is_below_the_top(upto, i);
    }
    assert forall|i: int| 0 <= i < lines.len() && #[trigger] lines[i] is Sample implies (current(
        lines.take(i),
    ) matches Some(metric) && belongs(lines[i]->Sample_name, metric)) by {
        tidy_prefix(lines, i + 1);
        let upto = lines.take(i + 1);
        assert(upto.last() == lines[i]);
        assert(upto.drop_last() =~= lines.take(i));
    }
}

} // verus!
