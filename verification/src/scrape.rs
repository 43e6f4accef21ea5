//! What a scrape shows, metric by metric: the samples of every metric of a rendered report, in the
//! terms of the report.

use vstd::prelude::*;

use crate::exposition::Line;
use crate::listing;
use crate::metrics;
use crate::metrics::HistogramSnapshot;
use crate::metrics::MetricsReport;
use crate::metrics::NodeRole;
use crate::metrics::PolicyMetrics;
use crate::number::SampleValue;
use crate::render;
use crate::storage::StorageMetrics;
use crate::text;
use crate::watch::TerminationReason;

verus! {

/// Samples: their labels and values.
pub type Samples = Seq<(Seq<(Seq<char>, Seq<char>)>, SampleValue)>;

/// The samples of one metric, in order.
pub open spec fn samples(lines: Seq<Line>, name: Seq<char>) -> Samples
    decreases lines.len(),
{
    if lines.len() == 0 {
        Seq::empty()
    } else {
        let rest = samples(lines.drop_last(), name);
        match lines.last() {
            Line::Sample { name: n, labels, value } => if n == name {
                rest.push((labels, value))
            } else {
                rest
            },
            Line::Header { .. } => rest,
        }
    }
}

/// The samples that a report's scrape has of one metric.
pub open spec fn shown(r: MetricsReport, name: Seq<char>) -> Samples {
    samples(render::report_lines(r), name)
}

spec fn added(
    before: Samples,
    n: Seq<char>,
    name: Seq<char>,
    more: Samples,
) -> Samples {
    if n == name {
        before + more
    } else {
        before
    }
}

/// How far each peer is behind: one sample a peer.
pub open spec fn lag_samples(id: Seq<char>, peers: Seq<(u64, u64)>) -> Samples {
    peers.map_values(
        |p: (u64, u64)|
            (
                seq![("node_id"@, id), ("peer_id"@, text::decimal(p.0 as nat))],
                SampleValue::Whole(p.1),
            ),
    )
}

/// Which peers are reachable: one sample a peer.
pub open spec fn reachable_samples(id: Seq<char>, peers: Seq<(u64, bool)>) -> Samples {
    peers.map_values(
        |p: (u64, bool)|
            (
                seq![("node_id"@, id), ("peer_id"@, text::decimal(p.0 as nat))],
                SampleValue::Whole(
                    if p.1 {
                        1u64
                    } else {
                        0
                    },
                ),
            ),
    )
}

/// Terminations: one sample a reason.
pub open spec fn termination_samples(
    id: Seq<char>,
    reasons: Seq<(TerminationReason, u64)>,
) -> Samples {
    reasons.map_values(
        |p: (TerminationReason, u64)|
            (seq![("node_id"@, id), ("reason"@, p.0.name())], SampleValue::Whole(p.1)),
    )
}

/// Refused reloads: one sample a reason.
pub open spec fn reload_samples(id: Seq<char>, reasons: Seq<(Seq<char>, u64)>) -> Samples {
    reasons.map_values(
        |p: (Seq<char>, u64)|
            (seq![("node_id"@, id), ("reason"@, p.0)], SampleValue::Whole(p.1)),
    )
}

/// Certificates: one sample a plane.
pub open spec fn expiry_samples(id: Seq<char>, planes: Seq<(Seq<char>, i64)>) -> Samples {
    planes.map_values(
        |p: (Seq<char>, i64)|
            (seq![("node_id"@, id), ("plane"@, p.0)], SampleValue::Signed(p.1)),
    )
}

/// The buckets of a histogram: one sample a bound, and one without.
pub open spec fn bucket_samples(
    labels: Seq<(Seq<char>, Seq<char>)>,
    h: HistogramSnapshot,
) -> Samples {
    Seq::new(
        13,
        |i: int|
            (
                labels.push(
                    (
                        "le"@,
                        if i < 12 {
                            metrics::bucket_label(i)
                        } else {
                            "+Inf"@
                        },
                    ),
                ),
                SampleValue::Whole(
                    if i < 12 {
                        h.cumulative@[i]
                    } else {
                        h.count
                    },
                ),
            ),
    )
}

/// The buckets of the histograms of the operations, one operation behind the other.
pub open spec fn op_bucket_samples(
    id: Seq<char>,
    ops: Seq<(Seq<char>, HistogramSnapshot)>,
) -> Samples
    decreases ops.len(),
{
    if ops.len() == 0 {
        Seq::empty()
    } else {
        op_bucket_samples(id, ops.drop_last()) + bucket_samples(
            seq![("node_id"@, id), ("op"@, ops.last().0)],
            ops.last().1,
        )
    }
}

/// The sums of the histograms: one sample an operation.
pub open spec fn op_sum_samples(id: Seq<char>, ops: Seq<(Seq<char>, HistogramSnapshot)>) -> Samples {
    ops.map_values(
        |p: (Seq<char>, HistogramSnapshot)|
            (seq![("node_id"@, id), ("op"@, p.0)], SampleValue::Micros(p.1.sum_micros)),
    )
}

/// The counts of the histograms: one sample an operation.
pub open spec fn op_count_samples(id: Seq<char>, ops: Seq<(Seq<char>, HistogramSnapshot)>) -> Samples {
    ops.map_values(
        |p: (Seq<char>, HistogramSnapshot)|
            (seq![("node_id"@, id), ("op"@, p.0)], SampleValue::Whole(p.1.count)),
    )
}

broadcast proof fn header_has_no_sample(
    before: Seq<Line>,
    name: Seq<char>,
    kind: Seq<char>,
    help: Seq<char>,
    n: Seq<char>,
)
    ensures
        #[trigger] samples(render::with_header(before, name, kind, help), n) == samples(before, n),
{
    let line = Line::Header { name, kind, help };
    assert(before.push(line).drop_last() =~= before);
}

proof fn one_sample(
    before: Seq<Line>,
    name: Seq<char>,
    labels: Seq<(Seq<char>, Seq<char>)>,
    value: SampleValue,
    n: Seq<char>,
)
    ensures
        samples(before.push(Line::Sample { name, labels, value }), n) == added(
            samples(before, n),
            n,
            name,
            seq![(labels, value)],
        ),
{
    let line = Line::Sample { name, labels, value };
    assert(before.push(line).drop_last() =~= before);
    assert(samples(before, n).push((labels, value)) =~= samples(before, n) + seq![(labels, value)]);
}

broadcast proof fn single_sample(
    before: Seq<Line>,
    name: Seq<char>,
    kind: Seq<char>,
    help: Seq<char>,
    id: Seq<char>,
    value: SampleValue,
    n: Seq<char>,
)
    ensures
        #[trigger] samples(render::with_single(before, name, kind, help, id, value), n) == added(
            samples(before, n),
            n,
            name,
            seq![(seq![("node_id"@, id)], value)],
        ),
{
    header_has_no_sample(before, name, kind, help, n);
    one_sample(
        render::with_header(before, name, kind, help),
        name,
        seq![("node_id"@, id)],
        value,
        n,
    );
}

broadcast proof fn labelled_sample(
    before: Seq<Line>,
    name: Seq<char>,
    id: Seq<char>,
    key: Seq<char>,
    label: Seq<char>,
    value: u64,
    n: Seq<char>,
)
    ensures
        #[trigger] samples(render::with_labelled(before, name, id, key, label, value), n) == added(
            samples(before, n),
            n,
            name,
            seq![(seq![("node_id"@, id), (key, label)], SampleValue::Whole(value))],
        ),
{
    one_sample(
        before,
        name,
        seq![("node_id"@, id), (key, label)],
        SampleValue::Whole(value),
        n,
    );
}

broadcast proof fn memory_sample(
    before: Seq<Line>,
    id: Seq<char>,
    kind: Seq<char>,
    bytes: u64,
    n: Seq<char>,
)
    ensures
        #[trigger] samples(render::with_memory(before, id, kind, bytes), n) == added(
            samples(before, n),
            n,
            "retcd_rocks_mem_bytes"@,
            seq![
                (
                    seq![("node_id"@, id), ("cf"@, "all"@), ("kind"@, kind)],
                    SampleValue::Whole(bytes),
                ),
            ],
        ),
{
    one_sample(
        before,
        "retcd_rocks_mem_bytes"@,
        seq![("node_id"@, id), ("cf"@, "all"@), ("kind"@, kind)],
        SampleValue::Whole(bytes),
        n,
    );
}

broadcast proof fn lags_shown(
    before: Seq<Line>,
    id: Seq<char>,
    items: Seq<(u64, u64)>,
    n: Seq<char>,
)
    ensures
        #[trigger] samples(render::with_peer_lags(before, id, items), n) == added(
            samples(before, n),
            n,
            "retcd_raft_peer_lag"@,
            lag_samples(id, items),
        ),
    decreases items.len(),
{
    if items.len() == 0 {
        assert(samples(before, n) + lag_samples(id, items) =~= samples(before, n));
    } else {
        let init = items.drop_last();
        let last = items.last();
        let rest = render::with_peer_lags(before, id, init);
        lags_shown(before, id, init, n);
        labelled_sample(
            rest,
            "retcd_raft_peer_lag"@,
            id,
            "peer_id"@,
            text::decimal(last.0 as nat),
            last.1,
            n,
        );
        let all = lag_samples(id, items);
        let base = samples(before, n);
        assert(base + lag_samples(id, init) + seq![all.last()] =~= base + all);
    }
}

broadcast proof fn reachable_shown(
    before: Seq<Line>,
    id: Seq<char>,
    items: Seq<(u64, bool)>,
    n: Seq<char>,
)
    ensures
        #[trigger] samples(render::with_reachable(before, id, items), n) == added(
            samples(before, n),
            n,
            "retcd_gossip_reachable"@,
            reachable_samples(id, items),
        ),
    decreases items.len(),
{
    if items.len() == 0 {
        assert(samples(before, n) + reachable_samples(id, items) =~= samples(before, n));
    } else {
        let init = items.drop_last();
        let last = items.last();
        let rest = render::with_reachable(before, id, init);
        reachable_shown(before, id, init, n);
        labelled_sample(
            rest,
            "retcd_gossip_reachable"@,
            id,
            "peer_id"@,
            text::decimal(last.0 as nat),
            render::flag(last.1),
            n,
        );
        let all = reachable_samples(id, items);
        let base = samples(before, n);
        assert(base + reachable_samples(id, init) + seq![all.last()] =~= base + all);
    }
}

broadcast proof fn terminations_shown(
    before: Seq<Line>,
    id: Seq<char>,
    items: Seq<(TerminationReason, u64)>,
    n: Seq<char>,
)
    ensures
        #[trigger] samples(render::with_terminations(before, id, items), n) == added(
            samples(before, n),
            n,
            "retcd_watch_terminations_total"@,
            termination_samples(id, items),
        ),
    decreases items.len(),
{
    if items.len() == 0 {
        assert(samples(before, n) + termination_samples(id, items) =~= samples(before, n));
    } else {
        let init = items.drop_last();
        let last = items.last();
        let rest = render::with_terminations(before, id, init);
        terminations_shown(before, id, init, n);
        labelled_sample(
            rest,
            "retcd_watch_terminations_total"@,
            id,
            "reason"@,
            last.0.name(),
            last.1,
            n,
        );
        let all = termination_samples(id, items);
        let base = samples(before, n);
        assert(base + termination_samples(id, init) + seq![all.last()] =~= base + all);
    }
}

broadcast proof fn reloads_shown(
    before: Seq<Line>,
    id: Seq<char>,
    items: Seq<(Seq<char>, u64)>,
    n: Seq<char>,
)
    ensures
        #[trigger] samples(render::with_reload_failures(before, id, items), n) == added(
            samples(before, n),
            n,
            "retcd_policy_reload_failures_total"@,
            reload_samples(id, items),
        ),
    decreases items.len(),
{
    if items.len() == 0 {
        assert(samples(before, n) + reload_samples(id, items) =~= samples(before, n));
    } else {
        let init = items.drop_last();
        let last = items.last();
        let rest = render::with_reload_failures(before, id, init);
        reloads_shown(before, id, init, n);
        labelled_sample(
            rest,
            "retcd_policy_reload_failures_total"@,
            id,
            "reason"@,
            last.0,
            last.1,
            n,
        );
        let all = reload_samples(id, items);
        let base = samples(before, n);
        assert(base + reload_samples(id, init) + seq![all.last()] =~= base + all);
    }
}

proof fn expiries_shown(
    before: Seq<Line>,
    id: Seq<char>,
    items: Seq<(Seq<char>, i64)>,
    n: Seq<char>,
)
    ensures
        samples(render::with_expiries(before, id, items), n) == added(
            samples(before, n),
            n,
            "retcd_cert_expiry_seconds"@,
            expiry_samples(id, items),
        ),
    decreases items.len(),
{
    if items.len() == 0 {
        assert(samples(before, n) + expiry_samples(id, items) =~= samples(before, n));
    } else {
        let init = items.drop_last();
        let last = items.last();
        let rest = render::with_expiries(before, id, init);
        expiries_shown(before, id, init, n);
        one_sample(
            rest,
            "retcd_cert_expiry_seconds"@,
            seq![("node_id"@, id), ("plane"@, last.0)],
            SampleValue::Signed(last.1),
            n,
        );
        let all = expiry_samples(id, items);
        let base = samples(before, n);
        assert(base + expiry_samples(id, init) + seq![all.last()] =~= base + all);
    }
}

proof fn buckets_shown(
    before: Seq<Line>,
    name: Seq<char>,
    labels: Seq<(Seq<char>, Seq<char>)>,
    h: HistogramSnapshot,
    k: nat,
    n: Seq<char>,
)
    requires
        k <= 12,
    ensures
        samples(render::with_buckets(before, name, labels, h, k), n) == added(
            samples(before, n),
            n,
            name + "_bucket"@,
            bucket_samples(labels, h).take(k as int),
        ),
    decreases k,
{
    let all = bucket_samples(labels, h);
    if k == 0 {
        assert(samples(before, n) + all.take(0) =~= samples(before, n));
    } else {
        let j = (k - 1) as nat;
        buckets_shown(before, name, labels, h, j, n);
        one_sample(
            render::with_buckets(before, name, labels, h, j),
            name + "_bucket"@,
            labels.push(("le"@, metrics::bucket_label(k - 1))),
            SampleValue::Whole(h.cumulative@[k - 1]),
            n,
        );
        assert(samples(before, n) + all.take(k - 1) + seq![all[k - 1]] =~= samples(before, n)
            + all.take(k as int));
    }
}

proof fn histogram_shown(
    before: Seq<Line>,
    name: Seq<char>,
    labels: Seq<(Seq<char>, Seq<char>)>,
    h: HistogramSnapshot,
    n: Seq<char>,
)
    ensures
        samples(render::with_histogram(before, name, labels, h), n) == added(
            added(
                added(samples(before, n), n, name + "_bucket"@, bucket_samples(labels, h)),
                n,
                name + "_sum"@,
                seq![(labels, SampleValue::Micros(h.sum_micros))],
            ),
            n,
            name + "_count"@,
            seq![(labels, SampleValue::Whole(h.count))],
        ),
{
    let all = bucket_samples(labels, h);
    buckets_shown(before, name, labels, h, 12, n);
    let l0 = render::with_buckets(before, name, labels, h, 12);
    let inf = Line::Sample {
        name: name + "_bucket"@,
        labels: labels.push(("le"@, "+Inf"@)),
        value: SampleValue::Whole(h.count),
    };
    one_sample(
        l0,
        name + "_bucket"@,
        labels.push(("le"@, "+Inf"@)),
        SampleValue::Whole(h.count),
        n,
    );
    assert(samples(before, n) + all.take(12) + seq![all[12]] =~= samples(before, n) + all);
    let l1 = l0.push(inf);
    one_sample(l1, name + "_sum"@, labels, SampleValue::Micros(h.sum_micros), n);
    let l2 = l1.push(
        Line::Sample { name: name + "_sum"@, labels, value: SampleValue::Micros(h.sum_micros) },
    );
    one_sample(l2, name + "_count"@, labels, SampleValue::Whole(h.count), n);
}

/// What tells the metrics apart: how long their names are, and two of the characters.
spec fn mark(name: Seq<char>) -> (nat, char, char) {
    (name.len(), name[6], name[11])
}

proof fn marks_0()
    ensures
        mark("retcd_raft_leader"@) == (17nat, 'r', 'l'),
        mark("retcd_raft_role"@) == (15nat, 'r', 'r'),
        mark("retcd_raft_term"@) == (15nat, 'r', 't'),
        mark("retcd_raft_leader_changes_total"@) == (31nat, 'r', 'l'),
        mark("retcd_raft_commit_index"@) == (23nat, 'r', 'c'),
        mark("retcd_raft_applied_index"@) == (24nat, 'r', 'a'),
{
    reveal_strlit("retcd_raft_leader");
    reveal_strlit("retcd_raft_role");
    reveal_strlit("retcd_raft_term");
    reveal_strlit("retcd_raft_leader_changes_total");
    reveal_strlit("retcd_raft_commit_index");
    reveal_strlit("retcd_raft_applied_index");
}

proof fn marks_1()
    ensures
        mark("retcd_raft_purged_index"@) == (23nat, 'r', 'p'),
        mark("retcd_raft_peer_lag"@) == (19nat, 'r', 'p'),
        mark("retcd_cluster_revision"@) == (22nat, 'c', 'e'),
        mark("retcd_rocks_mem_bytes"@) == (21nat, 'r', '_'),
        mark("retcd_rocks_level0_files"@) == (24nat, 'r', '_'),
        mark("retcd_rocks_write_stopped"@) == (25nat, 'r', '_'),
{
    reveal_strlit("retcd_raft_purged_index");
    reveal_strlit("retcd_raft_peer_lag");
    reveal_strlit("retcd_cluster_revision");
    reveal_strlit("retcd_rocks_mem_bytes");
    reveal_strlit("retcd_rocks_level0_files");
    reveal_strlit("retcd_rocks_write_stopped");
}

proof fn marks_2()
    ensures
        mark("retcd_snapshot_age_seconds"@) == (26nat, 's', 'h'),
        mark("retcd_snapshot_bytes"@) == (20nat, 's', 'h'),
        mark("retcd_snapshot_build_duration_seconds"@) == (37nat, 's', 'h'),
        mark("retcd_snapshot_builds_total"@) == (27nat, 's', 'h'),
        mark("retcd_snapshot_builds_in_flight"@) == (31nat, 's', 'h'),
        mark("retcd_snapshot_installs_total"@) == (29nat, 's', 'h'),
{
    reveal_strlit("retcd_snapshot_age_seconds");
    reveal_strlit("retcd_snapshot_bytes");
    reveal_strlit("retcd_snapshot_build_duration_seconds");
    reveal_strlit("retcd_snapshot_builds_total");
    reveal_strlit("retcd_snapshot_builds_in_flight");
    reveal_strlit("retcd_snapshot_installs_total");
}

proof fn marks_3()
    ensures
        mark("retcd_log_purges_total"@) == (22nat, 'l', 'u'),
        mark("retcd_watch_streams"@) == (19nat, 'w', '_'),
        mark("retcd_watch_queued_bytes_max"@) == (28nat, 'w', '_'),
        mark("retcd_watch_terminations_total"@) == (30nat, 'w', '_'),
        mark("retcd_compactions_total"@) == (23nat, 'c', 'c'),
        mark("retcd_dedup_hits_total"@) == (22nat, 'd', '_'),
{
    reveal_strlit("retcd_log_purges_total");
    reveal_strlit("retcd_watch_streams");
    reveal_strlit("retcd_watch_queued_bytes_max");
    reveal_strlit("retcd_watch_terminations_total");
    reveal_strlit("retcd_compactions_total");
    reveal_strlit("retcd_dedup_hits_total");
}

proof fn marks_4()
    ensures
        mark("retcd_dedup_records"@) == (19nat, 'd', '_'),
        mark("retcd_dedup_max_records"@) == (23nat, 'd', '_'),
        mark("retcd_dedup_evictions_total"@) == (27nat, 'd', '_'),
        mark("retcd_dedup_cap_refusals_total"@) == (30nat, 'd', '_'),
        mark("retcd_gossip_reachable"@) == (22nat, 'g', 'p'),
        mark("retcd_gossip_endpoint_mismatch_total"@) == (36nat, 'g', 'p'),
{
    reveal_strlit("retcd_dedup_records");
    reveal_strlit("retcd_dedup_max_records");
    reveal_strlit("retcd_dedup_evictions_total");
    reveal_strlit("retcd_dedup_cap_refusals_total");
    reveal_strlit("retcd_gossip_reachable");
    reveal_strlit("retcd_gossip_endpoint_mismatch_total");
}

proof fn marks_5()
    ensures
        mark("retcd_authn_rejected_total"@) == (26nat, 'a', '_'),
        mark("retcd_authz_denied_total"@) == (24nat, 'a', '_'),
        mark("retcd_policy_version"@) == (20nat, 'p', 'y'),
        mark("retcd_policy_converged_version"@) == (30nat, 'p', 'y'),
        mark("retcd_policy_rollbacks_total"@) == (28nat, 'p', 'y'),
        mark("retcd_policy_reload_failures_total"@) == (34nat, 'p', 'y'),
{
    reveal_strlit("retcd_authn_rejected_total");
    reveal_strlit("retcd_authz_denied_total");
    reveal_strlit("retcd_policy_version");
    reveal_strlit("retcd_policy_converged_version");
    reveal_strlit("retcd_policy_rollbacks_total");
    reveal_strlit("retcd_policy_reload_failures_total");
}

proof fn marks_6()
    ensures
        mark("retcd_break_glass_active"@) == (24nat, 'b', '_'),
        mark("retcd_rocks_disk_free_bytes"@) == (27nat, 'r', '_'),
        mark("retcd_pinned_snapshots"@) == (22nat, 'p', 'd'),
        mark("retcd_cert_expiry_seconds"@) == (25nat, 'c', 'e'),
        mark("retcd_backup_age_seconds"@) == (24nat, 'b', 'p'),
{
    reveal_strlit("retcd_break_glass_active");
    reveal_strlit("retcd_rocks_disk_free_bytes");
    reveal_strlit("retcd_pinned_snapshots");
    reveal_strlit("retcd_cert_expiry_seconds");
    reveal_strlit("retcd_backup_age_seconds");
}

proof fn marks_7()
    ensures
        mark("retcd_proposal_latency_seconds"@ + "_bucket"@) == (37nat, 'p', 's'),
        mark("retcd_proposal_latency_seconds"@ + "_sum"@) == (34nat, 'p', 's'),
        mark("retcd_proposal_latency_seconds"@ + "_count"@) == (36nat, 'p', 's'),
{
    reveal_strlit("retcd_proposal_latency_seconds");
    reveal_strlit("_bucket");
    reveal_strlit("_sum");
    reveal_strlit("_count");
}

proof fn marks_8()
    ensures
        mark("retcd_linearizable_read_latency_seconds"@ + "_bucket"@) == (46nat, 'l', 'r'),
        mark("retcd_linearizable_read_latency_seconds"@ + "_sum"@) == (43nat, 'l', 'r'),
        mark("retcd_linearizable_read_latency_seconds"@ + "_count"@) == (45nat, 'l', 'r'),
{
    reveal_strlit("retcd_linearizable_read_latency_seconds");
    reveal_strlit("_bucket");
    reveal_strlit("_sum");
    reveal_strlit("_count");
}

proof fn names_are_told_apart()
    ensures
        mark("retcd_raft_leader"@) == (17nat, 'r', 'l'),
        mark("retcd_raft_role"@) == (15nat, 'r', 'r'),
        mark("retcd_raft_term"@) == (15nat, 'r', 't'),
        mark("retcd_raft_leader_changes_total"@) == (31nat, 'r', 'l'),
        mark("retcd_raft_commit_index"@) == (23nat, 'r', 'c'),
        mark("retcd_raft_applied_index"@) == (24nat, 'r', 'a'),
        mark("retcd_raft_purged_index"@) == (23nat, 'r', 'p'),
        mark("retcd_raft_peer_lag"@) == (19nat, 'r', 'p'),
        mark("retcd_cluster_revision"@) == (22nat, 'c', 'e'),
        mark("retcd_rocks_mem_bytes"@) == (21nat, 'r', '_'),
        mark("retcd_rocks_level0_files"@) == (24nat, 'r', '_'),
        mark("retcd_rocks_write_stopped"@) == (25nat, 'r', '_'),
        mark("retcd_snapshot_age_seconds"@) == (26nat, 's', 'h'),
        mark("retcd_snapshot_bytes"@) == (20nat, 's', 'h'),
        mark("retcd_snapshot_build_duration_seconds"@) == (37nat, 's', 'h'),
        mark("retcd_snapshot_builds_total"@) == (27nat, 's', 'h'),
        mark("retcd_snapshot_builds_in_flight"@) == (31nat, 's', 'h'),
        mark("retcd_snapshot_installs_total"@) == (29nat, 's', 'h'),
        mark("retcd_log_purges_total"@) == (22nat, 'l', 'u'),
        mark("retcd_watch_streams"@) == (19nat, 'w', '_'),
        mark("retcd_watch_queued_bytes_max"@) == (28nat, 'w', '_'),
        mark("retcd_watch_terminations_total"@) == (30nat, 'w', '_'),
        mark("retcd_compactions_total"@) == (23nat, 'c', 'c'),
        mark("retcd_dedup_hits_total"@) == (22nat, 'd', '_'),
        mark("retcd_dedup_records"@) == (19nat, 'd', '_'),
        mark("retcd_dedup_max_records"@) == (23nat, 'd', '_'),
        mark("retcd_dedup_evictions_total"@) == (27nat, 'd', '_'),
        mark("retcd_dedup_cap_refusals_total"@) == (30nat, 'd', '_'),
        mark("retcd_gossip_reachable"@) == (22nat, 'g', 'p'),
        mark("retcd_gossip_endpoint_mismatch_total"@) == (36nat, 'g', 'p'),
        mark("retcd_authn_rejected_total"@) == (26nat, 'a', '_'),
        mark("retcd_authz_denied_total"@) == (24nat, 'a', '_'),
        mark("retcd_policy_version"@) == (20nat, 'p', 'y'),
        mark("retcd_policy_converged_version"@) == (30nat, 'p', 'y'),
        mark("retcd_policy_rollbacks_total"@) == (28nat, 'p', 'y'),
        mark("retcd_policy_reload_failures_total"@) == (34nat, 'p', 'y'),
        mark("retcd_break_glass_active"@) == (24nat, 'b', '_'),
        mark("retcd_rocks_disk_free_bytes"@) == (27nat, 'r', '_'),
        mark("retcd_pinned_snapshots"@) == (22nat, 'p', 'd'),
        mark("retcd_cert_expiry_seconds"@) == (25nat, 'c', 'e'),
        mark("retcd_backup_age_seconds"@) == (24nat, 'b', 'p'),
        mark("retcd_proposal_latency_seconds"@ + "_bucket"@) == (37nat, 'p', 's'),
        mark("retcd_proposal_latency_seconds"@ + "_sum"@) == (34nat, 'p', 's'),
        mark("retcd_proposal_latency_seconds"@ + "_count"@) == (36nat, 'p', 's'),
        mark("retcd_linearizable_read_latency_seconds"@ + "_bucket"@) == (46nat, 'l', 'r'),
        mark("retcd_linearizable_read_latency_seconds"@ + "_sum"@) == (43nat, 'l', 'r'),
        mark("retcd_linearizable_read_latency_seconds"@ + "_count"@) == (45nat, 'l', 'r'),
{
    marks_0();
    marks_1();
    marks_2();
    marks_3();
    marks_4();
    marks_5();
    marks_6();
    marks_7();
    marks_8();
}

broadcast proof fn version_shown(before: Seq<Line>, id: Seq<char>, value: Option<u64>, n: Seq<char>)
    ensures
        #[trigger] samples(render::version_lines(before, id, value), n) == added(
            samples(before, n),
            n,
            "retcd_policy_version"@,
            match value {
                Some(v) => seq![(seq![("node_id"@, id)], SampleValue::Whole(v))],
                None => Seq::empty(),
            },
        ),
{
    match value {
        Some(v) => {
            single_sample(
                before,
                "retcd_policy_version"@,
                "gauge"@,
                "signed policy document version this node is enforcing (ADR-0027)"@,
                id,
                SampleValue::Whole(v),
                n,
            );
        },
        None => {
            assert(samples(before, n) + Seq::empty() =~= samples(before, n));
        },
    }
}

broadcast proof fn converged_shown(
    before: Seq<Line>,
    id: Seq<char>,
    value: Option<u64>,
    n: Seq<char>,
)
    ensures
        #[trigger] samples(render::converged_lines(before, id, value), n) == added(
            samples(before, n),
            n,
            "retcd_policy_converged_version"@,
            match value {
                Some(v) => seq![(seq![("node_id"@, id)], SampleValue::Whole(v))],
                None => Seq::empty(),
            },
        ),
{
    match value {
        Some(v) => {
            single_sample(
                before,
                "retcd_policy_converged_version"@,
                "gauge"@,
                "newest policy version every known voter has reported; below retcd_policy_version while changed prefixes are intersected"@,
                id,
                SampleValue::Whole(v),
                n,
            );
        },
        None => {
            assert(samples(before, n) + Seq::empty() =~= samples(before, n));
        },
    }
}

proof fn disk_shown(before: Seq<Line>, id: Seq<char>, value: Option<u64>, n: Seq<char>)
    ensures
        samples(render::disk_lines(before, id, value), n) == added(
            samples(before, n),
            n,
            "retcd_rocks_disk_free_bytes"@,
            match value {
                Some(v) => seq![(seq![("node_id"@, id)], SampleValue::Whole(v))],
                None => Seq::empty(),
            },
        ),
{
    match value {
        Some(v) => {
            single_sample(
                before,
                "retcd_rocks_disk_free_bytes"@,
                "gauge"@,
                "free bytes on the data directory's volume"@,
                id,
                SampleValue::Whole(v),
                n,
            );
        },
        None => {
            assert(samples(before, n) + Seq::empty() =~= samples(before, n));
        },
    }
}

proof fn pins_shown(before: Seq<Line>, id: Seq<char>, value: Option<u64>, n: Seq<char>)
    ensures
        samples(render::pin_lines(before, id, value), n) == added(
            samples(before, n),
            n,
            "retcd_pinned_snapshots"@,
            match value {
                Some(v) => seq![(seq![("node_id"@, id)], SampleValue::Whole(v))],
                None => Seq::empty(),
            },
        ),
{
    match value {
        Some(v) => {
            single_sample(
                before,
                "retcd_pinned_snapshots"@,
                "gauge"@,
                "revision-pinned list snapshots held open for continuations (ADR-0029)"@,
                id,
                SampleValue::Whole(v),
                n,
            );
        },
        None => {
            assert(samples(before, n) + Seq::empty() =~= samples(before, n));
        },
    }
}

proof fn backup_shown(before: Seq<Line>, id: Seq<char>, value: Option<u64>, n: Seq<char>)
    ensures
        samples(render::backup_lines(before, id, value), n) == added(
            samples(before, n),
            n,
            "retcd_backup_age_seconds"@,
            match value {
                Some(v) => seq![(seq![("node_id"@, id)], SampleValue::Whole(v))],
                None => Seq::empty(),
            },
        ),
{
    match value {
        Some(v) => {
            single_sample(
                before,
                "retcd_backup_age_seconds"@,
                "gauge"@,
                "age of the most recent successful backup (ADR-0024)"@,
                id,
                SampleValue::Whole(v),
                n,
            );
        },
        None => {
            assert(samples(before, n) + Seq::empty() =~= samples(before, n));
        },
    }
}

spec fn raft_added(before: Samples, id: Seq<char>, r: MetricsReport, n: Seq<char>) -> Samples {
    let s0 = added(
        before,
        n,
        "retcd_raft_leader"@,
        seq![
            (
                seq![("node_id"@, id)],
                SampleValue::Whole(
                    if r.node.current_leader == Some(r.node.node_id) { 1u64 } else { 0 },
                ),
            ),
        ],
    );
    let s1 = added(
        s0,
        n,
        "retcd_raft_role"@,
        seq![
            (
                seq![("node_id"@, id), ("role"@, NodeRole::Learner.name())],
                SampleValue::Whole(if r.node.role == NodeRole::Learner { 1u64 } else { 0 }),
            ),
        ],
    );
    let s2 = added(
        s1,
        n,
        "retcd_raft_role"@,
        seq![
            (
                seq![("node_id"@, id), ("role"@, NodeRole::Follower.name())],
                SampleValue::Whole(if r.node.role == NodeRole::Follower { 1u64 } else { 0 }),
            ),
        ],
    );
    let s3 = added(
        s2,
        n,
        "retcd_raft_role"@,
        seq![
            (
                seq![("node_id"@, id), ("role"@, NodeRole::Candidate.name())],
                SampleValue::Whole(if r.node.role == NodeRole::Candidate { 1u64 } else { 0 }),
            ),
        ],
    );
    let s4 = added(
        s3,
        n,
        "retcd_raft_role"@,
        seq![
            (
                seq![("node_id"@, id), ("role"@, NodeRole::Leader.name())],
                SampleValue::Whole(if r.node.role == NodeRole::Leader { 1u64 } else { 0 }),
            ),
        ],
    );
    let s5 = added(
        s4,
        n,
        "retcd_raft_role"@,
        seq![
            (
                seq![("node_id"@, id), ("role"@, NodeRole::Shutdown.name())],
                SampleValue::Whole(if r.node.role == NodeRole::Shutdown { 1u64 } else { 0 }),
            ),
        ],
    );
    let s6 = added(
        s5,
        n,
        "retcd_raft_term"@,
        seq![(seq![("node_id"@, id)], SampleValue::Whole(r.node.current_term))],
    );
    let s7 = added(
        s6,
        n,
        "retcd_raft_leader_changes_total"@,
        seq![(seq![("node_id"@, id)], SampleValue::Whole(r.leader_changes))],
    );
    let s8 = added(
        s7,
        n,
        "retcd_raft_commit_index"@,
        seq![
            (
                seq![("node_id"@, id)],
                SampleValue::Whole(match r.commit_index { Some(i) => i, None => 0 }),
            ),
        ],
    );
    let s9 = added(
        s8,
        n,
        "retcd_raft_applied_index"@,
        seq![
            (
                seq![("node_id"@, id)],
                SampleValue::Whole(match r.node.last_applied { Some(l) => l.index, None => 0 }),
            ),
        ],
    );
    let s10 = added(
        s9,
        n,
        "retcd_raft_purged_index"@,
        seq![
            (
                seq![("node_id"@, id)],
                SampleValue::Whole(match r.storage { Some(s) => s.purged_index, None => 0 }),
            ),
        ],
    );
    let s11 = added(s10, n, "retcd_raft_peer_lag"@, lag_samples(id, listing::listed(r.peer_lag@)));
    added(
        s11,
        n,
        "retcd_cluster_revision"@,
        seq![(seq![("node_id"@, id)], SampleValue::Whole(r.node.cluster_revision))],
    )
}

proof fn raft_shown(before: Seq<Line>, id: Seq<char>, r: MetricsReport, n: Seq<char>)
    ensures
        samples(render::raft_lines(before, id, r), n) == raft_added(samples(before, n), id, r, n),
{
    broadcast use {
        header_has_no_sample,
        single_sample,
        labelled_sample,
        lags_shown,
    };

}

spec fn storage_added(before: Samples, id: Seq<char>, s: StorageMetrics, n: Seq<char>) -> Samples {
    let s0 = added(
        before,
        n,
        "retcd_rocks_mem_bytes"@,
        seq![
            (
                seq![("node_id"@, id), ("cf"@, "all"@), ("kind"@, "memtable"@)],
                SampleValue::Whole(s.rocks_memtable_bytes),
            ),
        ],
    );
    let s1 = added(
        s0,
        n,
        "retcd_rocks_mem_bytes"@,
        seq![
            (
                seq![("node_id"@, id), ("cf"@, "all"@), ("kind"@, "table_readers"@)],
                SampleValue::Whole(s.rocks_table_readers_bytes),
            ),
        ],
    );
    let s2 = added(
        s1,
        n,
        "retcd_rocks_level0_files"@,
        seq![(seq![("node_id"@, id)], SampleValue::Whole(s.rocks_level0_files))],
    );
    let s3 = added(
        s2,
        n,
        "retcd_rocks_write_stopped"@,
        seq![(seq![("node_id"@, id)], SampleValue::Whole(s.rocks_write_stopped))],
    );
    let s4 = added(
        s3,
        n,
        "retcd_snapshot_age_seconds"@,
        seq![(seq![("node_id"@, id)], SampleValue::Millis(s.snapshot_age_ms))],
    );
    let s5 = added(
        s4,
        n,
        "retcd_snapshot_bytes"@,
        seq![(seq![("node_id"@, id)], SampleValue::Whole(s.snapshot_size_bytes))],
    );
    let s6 = added(
        s5,
        n,
        "retcd_snapshot_build_duration_seconds"@,
        seq![(seq![("node_id"@, id)], SampleValue::Millis(s.snapshot_build_duration_ms))],
    );
    let s7 = added(
        s6,
        n,
        "retcd_snapshot_builds_total"@,
        seq![(seq![("node_id"@, id)], SampleValue::Whole(s.snapshot_builds))],
    );
    let s8 = added(
        s7,
        n,
        "retcd_snapshot_builds_in_flight"@,
        seq![(seq![("node_id"@, id)], SampleValue::Whole(s.snapshot_builds_in_flight))],
    );
    let s9 = added(
        s8,
        n,
        "retcd_snapshot_installs_total"@,
        seq![
            (
                seq![("node_id"@, id), ("outcome"@, "success"@)],
                SampleValue::Whole(s.snapshot_installs),
            ),
        ],
    );
    let s10 = added(
        s9,
        n,
        "retcd_snapshot_installs_total"@,
        seq![
            (
                seq![("node_id"@, id), ("outcome"@, "validation_failed"@)],
                SampleValue::Whole(s.snapshot_install_failures),
            ),
        ],
    );
    let s11 = added(
        s10,
        n,
        "retcd_snapshot_installs_total"@,
        seq![
            (
                seq![("node_id"@, id), ("outcome"@, "crash_recovered"@)],
                SampleValue::Whole(s.snapshot_install_redos),
            ),
        ],
    );
    let s12 = added(
        s11,
        n,
        "retcd_log_purges_total"@,
        seq![(seq![("node_id"@, id), ("outcome"@, "purged"@)], SampleValue::Whole(s.purges))],
    );
    let s13 = added(
        s12,
        n,
        "retcd_log_purges_total"@,
        seq![
            (
                seq![("node_id"@, id), ("outcome"@, "deferred"@)],
                SampleValue::Whole(s.purge_deferrals),
            ),
        ],
    );
    added(
        s13,
        n,
        "retcd_log_purges_total"@,
        seq![
            (
                seq![("node_id"@, id), ("outcome"@, "refused"@)],
                SampleValue::Whole(s.purge_refusals),
            ),
        ],
    )
}

proof fn storage_shown(before: Seq<Line>, id: Seq<char>, s: StorageMetrics, n: Seq<char>)
    ensures
        samples(render::storage_lines(before, id, s), n) == storage_added(
            samples(before, n),
            id,
            s,
            n,
        ),
{
    broadcast use {
        header_has_no_sample,
        single_sample,
        labelled_sample,
        memory_sample,
    };

}

spec fn watch_added(before: Samples, id: Seq<char>, r: MetricsReport, n: Seq<char>) -> Samples {
    let s0 = added(
        before,
        n,
        "retcd_watch_streams"@,
        seq![(seq![("node_id"@, id)], SampleValue::Whole(r.watch.streams_open as u64))],
    );
    let s1 = added(
        s0,
        n,
        "retcd_watch_queued_bytes_max"@,
        seq![(seq![("node_id"@, id)], SampleValue::Whole(r.watch.queue_bytes_max))],
    );
    let s2 = added(
        s1,
        n,
        "retcd_watch_terminations_total"@,
        termination_samples(id, r.watch.terminated_by_reason@),
    );
    added(
        s2,
        n,
        "retcd_compactions_total"@,
        seq![(seq![("node_id"@, id)], SampleValue::Whole(r.compactions))],
    )
}

proof fn watch_shown(before: Seq<Line>, id: Seq<char>, r: MetricsReport, n: Seq<char>)
    ensures
        samples(render::watch_lines(before, id, r), n) == watch_added(samples(before, n), id, r, n),
{
    broadcast use {
        header_has_no_sample,
        single_sample,
        terminations_shown,
    };

}

spec fn dedup_added(before: Samples, id: Seq<char>, r: MetricsReport, n: Seq<char>) -> Samples {
    let s0 = added(
        before,
        n,
        "retcd_dedup_hits_total"@,
        seq![(seq![("node_id"@, id)], SampleValue::Whole(r.dedup.hits))],
    );
    let s1 = added(
        s0,
        n,
        "retcd_dedup_records"@,
        seq![(seq![("node_id"@, id)], SampleValue::Whole(r.dedup.records))],
    );
    let s2 = added(
        s1,
        n,
        "retcd_dedup_max_records"@,
        seq![(seq![("node_id"@, id)], SampleValue::Whole(r.dedup.max_records))],
    );
    let s3 = added(
        s2,
        n,
        "retcd_dedup_evictions_total"@,
        seq![
            (
                seq![("node_id"@, id), ("reason"@, "window"@)],
                SampleValue::Whole(r.dedup.window_evictions),
            ),
        ],
    );
    let s4 = added(
        s3,
        n,
        "retcd_dedup_evictions_total"@,
        seq![
            (
                seq![("node_id"@, id), ("reason"@, "trim"@)],
                SampleValue::Whole(r.dedup.trim_evictions),
            ),
        ],
    );
    added(
        s4,
        n,
        "retcd_dedup_cap_refusals_total"@,
        seq![(seq![("node_id"@, id)], SampleValue::Whole(r.dedup.cap_refusals))],
    )
}

proof fn dedup_shown(before: Seq<Line>, id: Seq<char>, r: MetricsReport, n: Seq<char>)
    ensures
        samples(render::dedup_lines(before, id, r), n) == dedup_added(samples(before, n), id, r, n),
{
    broadcast use {
        header_has_no_sample,
        single_sample,
        labelled_sample,
    };

}

spec fn gossip_added(before: Samples, id: Seq<char>, r: MetricsReport, n: Seq<char>) -> Samples {
    let s0 = added(
        before,
        n,
        "retcd_gossip_reachable"@,
        reachable_samples(id, listing::listed(r.gossip_reachable@)),
    );
    let s1 = added(
        s0,
        n,
        "retcd_gossip_endpoint_mismatch_total"@,
        seq![(seq![("node_id"@, id)], SampleValue::Whole(r.gossip_endpoint_mismatch))],
    );
    let s2 = added(
        s1,
        n,
        "retcd_authn_rejected_total"@,
        seq![
            (
                seq![("node_id"@, id), ("plane"@, "client"@)],
                SampleValue::Whole(
                    if r.node.authn_rejected_peer <= r.node.authn_rejected {
                        (r.node.authn_rejected - r.node.authn_rejected_peer) as u64
                    } else { 0 },
                ),
            ),
        ],
    );
    let s3 = added(
        s2,
        n,
        "retcd_authn_rejected_total"@,
        seq![
            (
                seq![("node_id"@, id), ("plane"@, "peer"@)],
                SampleValue::Whole(r.node.authn_rejected_peer),
            ),
        ],
    );
    let s4 = added(
        s3,
        n,
        "retcd_authz_denied_total"@,
        seq![
            (
                seq![("node_id"@, id), ("plane"@, "client"@)],
                SampleValue::Whole(r.node.authz_denied),
            ),
        ],
    );
    added(
        s4,
        n,
        "retcd_authz_denied_total"@,
        seq![
            (
                seq![("node_id"@, id), ("plane"@, "admin"@)],
                SampleValue::Whole(r.node.authz_denied_admin),
            ),
        ],
    )
}

proof fn gossip_shown(before: Seq<Line>, id: Seq<char>, r: MetricsReport, n: Seq<char>)
    ensures
        samples(render::gossip_lines(before, id, r), n) == gossip_added(
            samples(before, n),
            id,
            r,
            n,
        ),
{
    broadcast use {
        header_has_no_sample,
        single_sample,
        labelled_sample,
        reachable_shown,
    };

}

spec fn policy_added(before: Samples, id: Seq<char>, p: PolicyMetrics, n: Seq<char>) -> Samples {
    let s0 = added(
        before,
        n,
        "retcd_policy_version"@,
        match p.version {
            Some(v) => seq![(seq![("node_id"@, id)], SampleValue::Whole(v))],
            None => Seq::empty(),
        },
    );
    let s1 = added(
        s0,
        n,
        "retcd_policy_converged_version"@,
        match p.converged_version {
            Some(v) => seq![(seq![("node_id"@, id)], SampleValue::Whole(v))],
            None => Seq::empty(),
        },
    );
    let s2 = added(
        s1,
        n,
        "retcd_policy_rollbacks_total"@,
        seq![(seq![("node_id"@, id)], SampleValue::Whole(p.rollbacks))],
    );
    let s3 = added(
        s2,
        n,
        "retcd_policy_reload_failures_total"@,
        reload_samples(id, p.reload_failures.listed()),
    );
    added(
        s3,
        n,
        "retcd_break_glass_active"@,
        seq![
            (
                seq![("node_id"@, id)],
                SampleValue::Whole(if p.break_glass_active { 1u64 } else { 0 }),
            ),
        ],
    )
}

proof fn policy_shown(before: Seq<Line>, id: Seq<char>, p: PolicyMetrics, n: Seq<char>)
    ensures
        samples(render::policy_lines(before, id, p), n) == policy_added(
            samples(before, n),
            id,
            p,
            n,
        ),
{
    broadcast use {
        header_has_no_sample,
        single_sample,
        version_shown,
        converged_shown,
        reloads_shown,
    };

}

spec fn latency_added(before: Samples, id: Seq<char>, r: MetricsReport, n: Seq<char>) -> Samples {
    let s0 = added(
        before,
        n,
        "retcd_proposal_latency_seconds"@ + "_bucket"@,
        op_bucket_samples(id, r.proposal_latency.listed()),
    );
    let s1 = added(
        s0,
        n,
        "retcd_proposal_latency_seconds"@ + "_sum"@,
        op_sum_samples(id, r.proposal_latency.listed()),
    );
    let s2 = added(
        s1,
        n,
        "retcd_proposal_latency_seconds"@ + "_count"@,
        op_count_samples(id, r.proposal_latency.listed()),
    );
    let s3 = added(
        s2,
        n,
        "retcd_linearizable_read_latency_seconds"@ + "_bucket"@,
        bucket_samples(seq![("node_id"@, id)], r.read_latency),
    );
    let s4 = added(
        s3,
        n,
        "retcd_linearizable_read_latency_seconds"@ + "_sum"@,
        seq![(seq![("node_id"@, id)], SampleValue::Micros(r.read_latency.sum_micros))],
    );
    added(
        s4,
        n,
        "retcd_linearizable_read_latency_seconds"@ + "_count"@,
        seq![(seq![("node_id"@, id)], SampleValue::Whole(r.read_latency.count))],
    )
}

proof fn proposals_shown(
    before: Seq<Line>,
    id: Seq<char>,
    ops: Seq<(Seq<char>, HistogramSnapshot)>,
    n: Seq<char>,
)
    ensures
        samples(render::with_proposals(before, id, ops), n) == added(
            added(
                added(
                    samples(before, n),
                    n,
                    "retcd_proposal_latency_seconds"@ + "_bucket"@,
                    op_bucket_samples(id, ops),
                ),
                n,
                "retcd_proposal_latency_seconds"@ + "_sum"@,
                op_sum_samples(id, ops),
            ),
            n,
            "retcd_proposal_latency_seconds"@ + "_count"@,
            op_count_samples(id, ops),
        ),
    decreases ops.len(),
{
    names_are_told_apart();
    let base = samples(before, n);
    if ops.len() == 0 {
        assert(base + Seq::empty() =~= base);
        assert(op_sum_samples(id, ops) =~= Seq::empty());
        assert(op_count_samples(id, ops) =~= Seq::empty());
    } else {
        let init = ops.drop_last();
        let last = ops.last();
        proposals_shown(before, id, init, n);
        let rest = render::with_proposals(before, id, init);
        header_has_no_sample(
            rest,
            "retcd_proposal_latency_seconds"@,
            "histogram"@,
            "client write submit-to-commit latency"@,
            n,
        );
        let named = render::with_header(
            rest,
            "retcd_proposal_latency_seconds"@,
            "histogram"@,
            "client write submit-to-commit latency"@,
        );
        let labels = render::histogram_labels(id, Some(last.0));
        histogram_shown(named, "retcd_proposal_latency_seconds"@, labels, last.1, n);
        assert(base + op_bucket_samples(id, init) + bucket_samples(labels, last.1) =~= base
            + op_bucket_samples(id, ops));
        assert(base + op_sum_samples(id, init) + seq![
            (labels, SampleValue::Micros(last.1.sum_micros)),
        ] =~= base + op_sum_samples(id, ops));
        assert(base + op_count_samples(id, init) + seq![(labels, SampleValue::Whole(last.1.count))]
            =~= base + op_count_samples(id, ops));
    }
}

proof fn latency_shown(before: Seq<Line>, id: Seq<char>, r: MetricsReport, n: Seq<char>)
    ensures
        samples(render::latency_lines(before, id, r), n) == latency_added(
            samples(before, n),
            id,
            r,
            n,
        ),
{
    let l0 = render::with_proposals(before, id, r.proposal_latency.listed());
    proposals_shown(before, id, r.proposal_latency.listed(), n);
    header_has_no_sample(
        l0,
        "retcd_linearizable_read_latency_seconds"@,
        "histogram"@,
        "linearizable read barrier latency (ADR-0009)"@,
        n,
    );
    histogram_shown(
        render::with_header(
            l0,
            "retcd_linearizable_read_latency_seconds"@,
            "histogram"@,
            "linearizable read barrier latency (ADR-0009)"@,
        ),
        "retcd_linearizable_read_latency_seconds"@,
        render::histogram_labels(id, None),
        r.read_latency,
        n,
    );
}

proof fn certs_shown(
    before: Seq<Line>,
    id: Seq<char>,
    planes: Seq<(Seq<char>, i64)>,
    n: Seq<char>,
)
    ensures
        samples(render::cert_lines(before, id, planes), n) == added(
            samples(before, n),
            n,
            "retcd_cert_expiry_seconds"@,
            expiry_samples(id, planes),
        ),
{
    if planes.len() == 0 {
        assert(samples(before, n) + expiry_samples(id, planes) =~= samples(before, n));
    } else {
        header_has_no_sample(
            before,
            "retcd_cert_expiry_seconds"@,
            "gauge"@,
            "seconds until the loaded leaf certificate expires; negative once expired"@,
            n,
        );
        expiries_shown(
            render::with_header(
                before,
                "retcd_cert_expiry_seconds"@,
                "gauge"@,
                "seconds until the loaded leaf certificate expires; negative once expired"@,
            ),
            id,
            planes,
            n,
        );
    }
}

/// Every section of a report is passed through: what is shown under a name is what the sections
/// add to it.
proof fn sections_shown(r: MetricsReport, n: Seq<char>)
    ensures
        ({
            let id = text::decimal(r.node.node_id.0 as nat);
            let s0: Samples = Seq::empty();
            let s1 = raft_added(s0, id, r, n);
            let s2 = latency_added(s1, id, r, n);
            let s3 = match r.storage {
                Some(s) => storage_added(s2, id, s, n),
                None => s2,
            };
            let s4 = added(
                s3,
                n,
                "retcd_rocks_disk_free_bytes"@,
                match r.disk_free_bytes {
                    Some(v) => seq![(seq![("node_id"@, id)], SampleValue::Whole(v))],
                    None => Seq::empty(),
                },
            );
            let s5 = watch_added(s4, id, r, n);
            let s6 = dedup_added(s5, id, r, n);
            let s7 = gossip_added(s6, id, r, n);
            let s8 = added(
                s7,
                n,
                "retcd_pinned_snapshots"@,
                match r.pagination {
                    Some(v) => seq![(seq![("node_id"@, id)], SampleValue::Whole(v.len as u64))],
                    None => Seq::empty(),
                },
            );
            let s9 = match r.policy {
                Some(p) => policy_added(s8, id, p, n),
                None => s8,
            };
            let s10 = added(
                s9,
                n,
                "retcd_cert_expiry_seconds"@,
                expiry_samples(id, r.cert_expiry_seconds.listed()),
            );
            shown(r, n) == added(
                s10,
                n,
                "retcd_backup_age_seconds"@,
                match r.backup_age_seconds {
                    Some(v) => seq![(seq![("node_id"@, id)], SampleValue::Whole(v))],
                    None => Seq::empty(),
                },
            )
        }),
{
    let id = text::decimal(r.node.node_id.0 as nat);
    let raft = render::raft_lines(Seq::empty(), id, r);
    raft_shown(Seq::empty(), id, r, n);
    let latency = render::latency_lines(raft, id, r);
    latency_shown(raft, id, r, n);
    let storage = match r.storage {
        Some(s) => render::storage_lines(latency, id, s),
        None => latency,
    };
    if r.storage is Some {
        storage_shown(latency, id, r.storage->0, n);
    }
    let disk = render::disk_lines(storage, id, r.disk_free_bytes);
    disk_shown(storage, id, r.disk_free_bytes, n);
    let watch = render::watch_lines(disk, id, r);
    watch_shown(disk, id, r, n);
    let dedup = render::dedup_lines(watch, id, r);
    dedup_shown(watch, id, r, n);
    let gossip = render::gossip_lines(dedup, id, r);
    gossip_shown(dedup, id, r, n);
    let pinned = match r.pagination {
        Some(p) => Some(p.len as u64),
        None => None,
    };
    let pins = render::pin_lines(gossip, id, pinned);
    pins_shown(gossip, id, pinned, n);
    let policy = match r.policy {
        Some(p) => render::policy_lines(pins, id, p),
        None => pins,
    };
    if r.policy is Some {
        policy_shown(pins, id, r.policy->0, n);
    }
    let certs = render::cert_lines(policy, id, r.cert_expiry_seconds.listed());
    certs_shown(policy, id, r.cert_expiry_seconds.listed(), n);
    backup_shown(certs, id, r.backup_age_seconds, n);
}

/// A scrape shows of the node: one if it is the leader it knows about, and zero if not; which role
/// it is in; its term and what it saw of leadership; how far its log is committed, applied and
/// purged; how far each peer is behind; and the revision. Each has its own metric, and every sample
/// carries the id of the node.
pub proof fn what_a_scrape_shows_of_raft(r: MetricsReport)
    ensures
        ({
            let id = text::decimal(r.node.node_id.0 as nat);
            &&& shown(r, "retcd_raft_leader"@) == seq![
                (
                    seq![("node_id"@, id)],
                    SampleValue::Whole(
                        if r.node.current_leader == Some(r.node.node_id) { 1u64 } else { 0 },
                    ),
                ),
            ]
            &&& shown(r, "retcd_raft_role"@) == seq![
                (
                    seq![("node_id"@, id), ("role"@, NodeRole::Learner.name())],
                    SampleValue::Whole(if r.node.role == NodeRole::Learner { 1u64 } else { 0 }),
                ),
                (
                    seq![("node_id"@, id), ("role"@, NodeRole::Follower.name())],
                    SampleValue::Whole(if r.node.role == NodeRole::Follower { 1u64 } else { 0 }),
                ),
                (
                    seq![("node_id"@, id), ("role"@, NodeRole::Candidate.name())],
                    SampleValue::Whole(if r.node.role == NodeRole::Candidate { 1u64 } else { 0 }),
                ),
                (
                    seq![("node_id"@, id), ("role"@, NodeRole::Leader.name())],
                    SampleValue::Whole(if r.node.role == NodeRole::Leader { 1u64 } else { 0 }),
                ),
                (
                    seq![("node_id"@, id), ("role"@, NodeRole::Shutdown.name())],
                    SampleValue::Whole(if r.node.role == NodeRole::Shutdown { 1u64 } else { 0 }),
                ),
            ]
            &&& shown(r, "retcd_raft_term"@) == seq![
                (seq![("node_id"@, id)], SampleValue::Whole(r.node.current_term)),
            ]
            &&& shown(r, "retcd_raft_leader_changes_total"@) == seq![
                (seq![("node_id"@, id)], SampleValue::Whole(r.leader_changes)),
            ]
            &&& shown(r, "retcd_raft_commit_index"@) == seq![
                (
                    seq![("node_id"@, id)],
                    SampleValue::Whole(match r.commit_index { Some(i) => i, None => 0 }),
                ),
            ]
            &&& shown(r, "retcd_raft_applied_index"@) == seq![
                (
                    seq![("node_id"@, id)],
                    SampleValue::Whole(match r.node.last_applied { Some(l) => l.index, None => 0 }),
                ),
            ]
            &&& shown(r, "retcd_raft_purged_index"@) == seq![
                (
                    seq![("node_id"@, id)],
                    SampleValue::Whole(match r.storage { Some(s) => s.purged_index, None => 0 }),
                ),
            ]
            &&& shown(r, "retcd_raft_peer_lag"@) == lag_samples(id, listing::listed(r.peer_lag@))
            &&& shown(r, "retcd_cluster_revision"@) == seq![
                (seq![("node_id"@, id)], SampleValue::Whole(r.node.cluster_revision)),
            ]
        }),
{
    names_are_told_apart();
    sections_shown(r, "retcd_raft_leader"@);
    sections_shown(r, "retcd_raft_role"@);
    sections_shown(r, "retcd_raft_term"@);
    sections_shown(r, "retcd_raft_leader_changes_total"@);
    sections_shown(r, "retcd_raft_commit_index"@);
    sections_shown(r, "retcd_raft_applied_index"@);
    sections_shown(r, "retcd_raft_purged_index"@);
    sections_shown(r, "retcd_raft_peer_lag"@);
    sections_shown(r, "retcd_cluster_revision"@);
}

/// A scrape shows the latencies of writes by operation and those of reads: the buckets, the sum and
/// the count of each histogram.
pub proof fn what_a_scrape_shows_of_latency(r: MetricsReport)
    ensures
        ({
            let id = text::decimal(r.node.node_id.0 as nat);
            &&& shown(r, "retcd_proposal_latency_seconds"@ + "_bucket"@) == op_bucket_samples(
                id,
                r.proposal_latency.listed(),
            )
            &&& shown(r, "retcd_proposal_latency_seconds"@ + "_sum"@) == op_sum_samples(
                id,
                r.proposal_latency.listed(),
            )
            &&& shown(r, "retcd_proposal_latency_seconds"@ + "_count"@) == op_count_samples(
                id,
                r.proposal_latency.listed(),
            )
            &&& shown(r, "retcd_linearizable_read_latency_seconds"@ + "_bucket"@) == bucket_samples(
                seq![("node_id"@, id)],
                r.read_latency,
            )
            &&& shown(r, "retcd_linearizable_read_latency_seconds"@ + "_sum"@) == seq![
                (seq![("node_id"@, id)], SampleValue::Micros(r.read_latency.sum_micros)),
            ]
            &&& shown(r, "retcd_linearizable_read_latency_seconds"@ + "_count"@) == seq![
                (seq![("node_id"@, id)], SampleValue::Whole(r.read_latency.count)),
            ]
        }),
{
    names_are_told_apart();
    sections_shown(r, "retcd_proposal_latency_seconds"@ + "_bucket"@);
    sections_shown(r, "retcd_proposal_latency_seconds"@ + "_sum"@);
    sections_shown(r, "retcd_proposal_latency_seconds"@ + "_count"@);
    sections_shown(r, "retcd_linearizable_read_latency_seconds"@ + "_bucket"@);
    sections_shown(r, "retcd_linearizable_read_latency_seconds"@ + "_sum"@);
    sections_shown(r, "retcd_linearizable_read_latency_seconds"@ + "_count"@);
}

/// A scrape shows how many watches are open, the most bytes a queue held, the terminations by
/// reason, and the compactions.
pub proof fn what_a_scrape_shows_of_watches(r: MetricsReport)
    ensures
        ({
            let id = text::decimal(r.node.node_id.0 as nat);
            &&& shown(r, "retcd_watch_streams"@) == seq![
                (seq![("node_id"@, id)], SampleValue::Whole(r.watch.streams_open as u64)),
            ]
            &&& shown(r, "retcd_watch_queued_bytes_max"@) == seq![
                (seq![("node_id"@, id)], SampleValue::Whole(r.watch.queue_bytes_max)),
            ]
            &&& shown(r, "retcd_watch_terminations_total"@) == termination_samples(
                id,
                r.watch.terminated_by_reason@,
            )
            &&& shown(r, "retcd_compactions_total"@) == seq![
                (seq![("node_id"@, id)], SampleValue::Whole(r.compactions)),
            ]
        }),
{
    names_are_told_apart();
    sections_shown(r, "retcd_watch_streams"@);
    sections_shown(r, "retcd_watch_queued_bytes_max"@);
    sections_shown(r, "retcd_watch_terminations_total"@);
    sections_shown(r, "retcd_compactions_total"@);
}

/// A scrape shows what deduplication did: its hits, what it holds and may hold, and what it dropped
/// and refused.
pub proof fn what_a_scrape_shows_of_deduplication(r: MetricsReport)
    ensures
        ({
            let id = text::decimal(r.node.node_id.0 as nat);
            &&& shown(r, "retcd_dedup_hits_total"@) == seq![
                (seq![("node_id"@, id)], SampleValue::Whole(r.dedup.hits)),
            ]
            &&& shown(r, "retcd_dedup_records"@) == seq![
                (seq![("node_id"@, id)], SampleValue::Whole(r.dedup.records)),
            ]
            &&& shown(r, "retcd_dedup_max_records"@) == seq![
                (seq![("node_id"@, id)], SampleValue::Whole(r.dedup.max_records)),
            ]
            &&& shown(r, "retcd_dedup_evictions_total"@) == seq![
                (
                    seq![("node_id"@, id), ("reason"@, "window"@)],
                    SampleValue::Whole(r.dedup.window_evictions),
                ),
                (
                    seq![("node_id"@, id), ("reason"@, "trim"@)],
                    SampleValue::Whole(r.dedup.trim_evictions),
                ),
            ]
            &&& shown(r, "retcd_dedup_cap_refusals_total"@) == seq![
                (seq![("node_id"@, id)], SampleValue::Whole(r.dedup.cap_refusals)),
            ]
        }),
{
    names_are_told_apart();
    sections_shown(r, "retcd_dedup_hits_total"@);
    sections_shown(r, "retcd_dedup_records"@);
    sections_shown(r, "retcd_dedup_max_records"@);
    sections_shown(r, "retcd_dedup_evictions_total"@);
    sections_shown(r, "retcd_dedup_cap_refusals_total"@);
}

/// A scrape shows which peers are reachable, and by plane who was turned away: what was rejected in
/// all, less the share of the peers, is the share of the clients.
pub proof fn what_a_scrape_shows_of_peers_and_callers(r: MetricsReport)
    ensures
        ({
            let id = text::decimal(r.node.node_id.0 as nat);
            &&& shown(r, "retcd_gossip_reachable"@) == reachable_samples(
                id,
                listing::listed(r.gossip_reachable@),
            )
            &&& shown(r, "retcd_gossip_endpoint_mismatch_total"@) == seq![
                (seq![("node_id"@, id)], SampleValue::Whole(r.gossip_endpoint_mismatch)),
            ]
            &&& shown(r, "retcd_authn_rejected_total"@) == seq![
                (
                    seq![("node_id"@, id), ("plane"@, "client"@)],
                    SampleValue::Whole(
                        if r.node.authn_rejected_peer <= r.node.authn_rejected {
                            (r.node.authn_rejected - r.node.authn_rejected_peer) as u64
                        } else { 0 },
                    ),
                ),
                (
                    seq![("node_id"@, id), ("plane"@, "peer"@)],
                    SampleValue::Whole(r.node.authn_rejected_peer),
                ),
            ]
            &&& shown(r, "retcd_authz_denied_total"@) == seq![
                (
                    seq![("node_id"@, id), ("plane"@, "client"@)],
                    SampleValue::Whole(r.node.authz_denied),
                ),
                (
                    seq![("node_id"@, id), ("plane"@, "admin"@)],
                    SampleValue::Whole(r.node.authz_denied_admin),
                ),
            ]
        }),
{
    names_are_told_apart();
    sections_shown(r, "retcd_gossip_reachable"@);
    sections_shown(r, "retcd_gossip_endpoint_mismatch_total"@);
    sections_shown(r, "retcd_authn_rejected_total"@);
    sections_shown(r, "retcd_authz_denied_total"@);
}

/// A scrape shows a store on disk where there is one, and nothing of it where there is none.
pub proof fn what_a_scrape_shows_of_a_store(r: MetricsReport)
    ensures
        ({
            let id = text::decimal(r.node.node_id.0 as nat);
            &&& shown(r, "retcd_rocks_mem_bytes"@) == (
                match r.storage {
                    Some(s) => seq![
                        (
                            seq![("node_id"@, id), ("cf"@, "all"@), ("kind"@, "memtable"@)],
                            SampleValue::Whole(s.rocks_memtable_bytes),
                        ),
                        (
                            seq![("node_id"@, id), ("cf"@, "all"@), ("kind"@, "table_readers"@)],
                            SampleValue::Whole(s.rocks_table_readers_bytes),
                        ),
                    ],
                    None => Seq::empty(),
                }
            )
            &&& shown(r, "retcd_rocks_level0_files"@) == (
                match r.storage {
                    Some(s) => seq![
                        (seq![("node_id"@, id)], SampleValue::Whole(s.rocks_level0_files)),
                    ],
                    None => Seq::empty(),
                }
            )
            &&& shown(r, "retcd_rocks_write_stopped"@) == (
                match r.storage {
                    Some(s) => seq![
                        (seq![("node_id"@, id)], SampleValue::Whole(s.rocks_write_stopped)),
                    ],
                    None => Seq::empty(),
                }
            )
            &&& shown(r, "retcd_snapshot_age_seconds"@) == (
                match r.storage {
                    Some(s) => seq![
                        (seq![("node_id"@, id)], SampleValue::Millis(s.snapshot_age_ms)),
                    ],
                    None => Seq::empty(),
                }
            )
            &&& shown(r, "retcd_snapshot_bytes"@) == (
                match r.storage {
                    Some(s) => seq![
                        (seq![("node_id"@, id)], SampleValue::Whole(s.snapshot_size_bytes)),
                    ],
                    None => Seq::empty(),
                }
            )
            &&& shown(r, "retcd_snapshot_build_duration_seconds"@) == (
                match r.storage {
                    Some(s) => seq![
                        (seq![("node_id"@, id)], SampleValue::Millis(s.snapshot_build_duration_ms)),
                    ],
                    None => Seq::empty(),
                }
            )
            &&& shown(r, "retcd_snapshot_builds_total"@) == (
                match r.storage {
                    Some(s) => seq![
                        (seq![("node_id"@, id)], SampleValue::Whole(s.snapshot_builds)),
                    ],
                    None => Seq::empty(),
                }
            )
            &&& shown(r, "retcd_snapshot_builds_in_flight"@) == (
                match r.storage {
                    Some(s) => seq![
                        (seq![("node_id"@, id)], SampleValue::Whole(s.snapshot_builds_in_flight)),
                    ],
                    None => Seq::empty(),
                }
            )
            &&& shown(r, "retcd_snapshot_installs_total"@) == (
                match r.storage {
                    Some(s) => seq![
                        (
                            seq![("node_id"@, id), ("outcome"@, "success"@)],
                            SampleValue::Whole(s.snapshot_installs),
                        ),
                        (
                            seq![("node_id"@, id), ("outcome"@, "validation_failed"@)],
                            SampleValue::Whole(s.snapshot_install_failures),
                        ),
                        (
                            seq![("node_id"@, id), ("outcome"@, "crash_recovered"@)],
                            SampleValue::Whole(s.snapshot_install_redos),
                        ),
                    ],
                    None => Seq::empty(),
                }
            )
            &&& shown(r, "retcd_log_purges_total"@) == (
                match r.storage {
                    Some(s) => seq![
                        (
                            seq![("node_id"@, id), ("outcome"@, "purged"@)],
                            SampleValue::Whole(s.purges),
                        ),
                        (
                            seq![("node_id"@, id), ("outcome"@, "deferred"@)],
                            SampleValue::Whole(s.purge_deferrals),
                        ),
                        (
                            seq![("node_id"@, id), ("outcome"@, "refused"@)],
                            SampleValue::Whole(s.purge_refusals),
                        ),
                    ],
                    None => Seq::empty(),
                }
            )
        }),
{
    names_are_told_apart();
    sections_shown(r, "retcd_rocks_mem_bytes"@);
    sections_shown(r, "retcd_rocks_level0_files"@);
    sections_shown(r, "retcd_rocks_write_stopped"@);
    sections_shown(r, "retcd_snapshot_age_seconds"@);
    sections_shown(r, "retcd_snapshot_bytes"@);
    sections_shown(r, "retcd_snapshot_build_duration_seconds"@);
    sections_shown(r, "retcd_snapshot_builds_total"@);
    sections_shown(r, "retcd_snapshot_builds_in_flight"@);
    sections_shown(r, "retcd_snapshot_installs_total"@);
    sections_shown(r, "retcd_log_purges_total"@);
}

/// A scrape shows a signed policy where there is one, and nothing of it where there is none.
pub proof fn what_a_scrape_shows_of_a_policy(r: MetricsReport)
    ensures
        ({
            let id = text::decimal(r.node.node_id.0 as nat);
            &&& shown(r, "retcd_policy_version"@) == (
                match r.policy {
                    Some(p) => match p.version {
                        Some(v) => seq![(seq![("node_id"@, id)], SampleValue::Whole(v))],
                        None => Seq::empty(),
                    },
                    None => Seq::empty(),
                }
            )
            &&& shown(r, "retcd_policy_converged_version"@) == (
                match r.policy {
                    Some(p) => match p.converged_version {
                        Some(v) => seq![(seq![("node_id"@, id)], SampleValue::Whole(v))],
                        None => Seq::empty(),
                    },
                    None => Seq::empty(),
                }
            )
            &&& shown(r, "retcd_policy_rollbacks_total"@) == (
                match r.policy {
                    Some(p) => seq![(seq![("node_id"@, id)], SampleValue::Whole(p.rollbacks))],
                    None => Seq::empty(),
                }
            )
            &&& shown(r, "retcd_policy_reload_failures_total"@) == (
                match r.policy {
                    Some(p) => reload_samples(id, p.reload_failures.listed()),
                    None => Seq::empty(),
                }
            )
            &&& shown(r, "retcd_break_glass_active"@) == (
                match r.policy {
                    Some(p) => seq![
                        (
                            seq![("node_id"@, id)],
                            SampleValue::Whole(if p.break_glass_active { 1u64 } else { 0 }),
                        ),
                    ],
                    None => Seq::empty(),
                }
            )
        }),
{
    names_are_told_apart();
    sections_shown(r, "retcd_policy_version"@);
    sections_shown(r, "retcd_policy_converged_version"@);
    sections_shown(r, "retcd_policy_rollbacks_total"@);
    sections_shown(r, "retcd_policy_reload_failures_total"@);
    sections_shown(r, "retcd_break_glass_active"@);
}

/// What is known only to some nodes is shown where it is known: free space, pinned snapshots,
/// certificates, and the age of the last backup.
pub proof fn what_a_scrape_shows_if_it_is_known(r: MetricsReport)
    ensures
        ({
            let id = text::decimal(r.node.node_id.0 as nat);
            &&& shown(r, "retcd_rocks_disk_free_bytes"@) == (
                match r.disk_free_bytes {
                    Some(v) => seq![(seq![("node_id"@, id)], SampleValue::Whole(v))],
                    None => Seq::empty(),
                }
            )
            &&& shown(r, "retcd_pinned_snapshots"@) == (
                match r.pagination {
                    Some(v) => seq![(seq![("node_id"@, id)], SampleValue::Whole(v.len as u64))],
                    None => Seq::empty(),
                }
            )
            &&& shown(r, "retcd_cert_expiry_seconds"@) == expiry_samples(
                id,
                r.cert_expiry_seconds.listed(),
            )
            &&& shown(r, "retcd_backup_age_seconds"@) == (
                match r.backup_age_seconds {
                    Some(v) => seq![(seq![("node_id"@, id)], SampleValue::Whole(v))],
                    None => Seq::empty(),
                }
            )
        }),
{
    names_are_told_apart();
    sections_shown(r, "retcd_rocks_disk_free_bytes"@);
    sections_shown(r, "retcd_pinned_snapshots"@);
    sections_shown(r, "retcd_cert_expiry_seconds"@);
    sections_shown(r, "retcd_backup_age_seconds"@);
}

/// Of nodes that agree on who leads, one at most is shown as the leader: the one they agree on.
pub proof fn one_leader_is_shown(a: MetricsReport, b: MetricsReport)
    requires
        a.node.current_leader == b.node.current_leader,
        a.node.node_id != b.node.node_id,
    ensures
        ({
            let of_a = shown(a, "retcd_raft_leader"@);
            let of_b = shown(b, "retcd_raft_leader"@);
            &&& of_a.len() == 1 && of_b.len() == 1
            &&& of_a[0].1 == SampleValue::Whole(1) ==> of_b[0].1 == SampleValue::Whole(0)
            &&& of_a[0].1 == SampleValue::Whole(1) <==> a.node.current_leader == Some(
                a.node.node_id,
            )
        }),
{
    what_a_scrape_shows_of_raft(a);
    what_a_scrape_shows_of_raft(b);
}

} // verus!
