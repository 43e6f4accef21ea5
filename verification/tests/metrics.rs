use std::collections::BTreeMap;

use config_engine::exposition::{escape_label_value, Exposition};
use config_engine::metrics::{
    label_of, AuthnRejectReason, AuthnRejection, LatencyHistogram, LogIdView, MetricsReport,
    NodeMetrics, NodeRole, OpLatencies, PolicyMetrics,
};
use config_engine::number::{push_value, SampleValue};
use config_engine::pagination::PinStats;
use config_engine::storage::{DedupStats, StorageMetrics};
use config_engine::textmap::TextMap;
use config_engine::time::Duration;
use config_engine::types::NodeId;
use config_engine::watch::{TerminationReason, WatchStats};

fn value(v: SampleValue) -> String {
    let mut out = String::new();
    push_value(&mut out, v);
    out
}

fn as_a_double(v: f64) -> String {
    if v.fract() == 0.0 {
        format!("{v:.0}")
    } else {
        format!("{v:.6}")
    }
}

#[test]
fn values_are_written_as_doubles_would_be() {
    let mut n: u64 = 1;
    let mut samples = vec![0u64, 1, 2, 3, 999, 1000, 1001, 1_500, 999_999, 1_000_001, u64::MAX];
    while n < u64::MAX / 7 {
        n = n * 7 + 3;
        samples.push(n);
        samples.push(n - 1);
    }
    for shift in [52u32, 53, 54, 63] {
        samples.push(1u64 << shift);
        samples.push((1u64 << shift) - 1);
        samples.push((1u64 << shift) + 1);
    }
    for s in samples {
        assert_eq!(value(SampleValue::Whole(s)), as_a_double(s as f64), "{s}");
        assert_eq!(value(SampleValue::Millis(s)), as_a_double(s as f64 / 1000.0), "{s} ms");
        assert_eq!(value(SampleValue::Micros(s)), as_a_double(s as f64 / 1_000_000.0), "{s} us");
        let signed = s as i64;
        assert_eq!(value(SampleValue::Signed(signed)), as_a_double(signed as f64), "{signed}");
    }
    assert_eq!(value(SampleValue::Millis(1_500)), "1.500000");
    assert_eq!(value(SampleValue::Micros(1)), "0.000001");
    assert_eq!(value(SampleValue::Signed(-42)), "-42");
    assert_eq!(value(SampleValue::Whole(0)), "0");
    assert_eq!(value(SampleValue::Whole(9_007_199_254_740_992)), "9007199254740992");
    assert_eq!(value(SampleValue::Whole(9_007_199_254_740_993)), "9007199254740992");
    assert_eq!(value(SampleValue::Whole(u64::MAX)), "18446744073709551616");
    assert_eq!(value(SampleValue::Signed(i64::MIN)), "-9223372036854775808");
}

#[test]
fn bucket_labels_are_written_as_doubles_would_be() {
    let bounds = [0.001, 0.0025, 0.005, 0.01, 0.025, 0.05, 0.1, 0.25, 0.5, 1.0, 2.5, 5.0];
    for (i, bound) in bounds.iter().enumerate() {
        assert_eq!(label_of(i), format!("{bound}"));
    }
}

#[test]
fn histograms_accumulate_from_bound_to_bound() {
    let mut h = LatencyHistogram::default();
    h.observe(Duration::from_micros(1_000));
    h.observe(Duration::from_micros(1_001));
    h.observe(Duration::from_millis(300));
    h.observe(Duration::from_secs(60));
    let s = h.snapshot();
    assert_eq!(s.cumulative, [1, 2, 2, 2, 2, 2, 2, 2, 3, 3, 3, 3]);
    assert_eq!(s.count, 4);
    assert_eq!(s.sum_micros, 1_000 + 1_001 + 300_000 + 60_000_000);
}

#[test]
fn bounds_belong_to_their_bucket() {
    let bounds = [0.001, 0.0025, 0.005, 0.01, 0.025, 0.05, 0.1, 0.25, 0.5, 1.0, 2.5, 5.0];
    for (i, bound) in bounds.iter().enumerate() {
        for delta in [-1i64, 0, 1] {
            let nanos = ((bound * 1e9) as i64 + delta) as u64;
            let mut h = LatencyHistogram::default();
            h.observe(Duration::from_nanos(nanos));
            let seconds = std::time::Duration::from_nanos(nanos).as_secs_f64();
            let expected = bounds.iter().position(|b| seconds <= *b);
            let got = h.snapshot().cumulative.iter().position(|c| *c == 1);
            assert_eq!(got, expected, "bound {i} delta {delta}");
        }
    }
}

#[test]
fn only_proposals_have_a_write_latency() {
    let mut o = OpLatencies::default();
    o.observe("delete", Duration::from_millis(2));
    o.observe("get", Duration::from_millis(2));
    assert_eq!(o.for_op("put").unwrap().snapshot().count, 0);
    assert_eq!(o.for_op("delete").unwrap().snapshot().count, 1);
    assert!(o.for_op("get").is_none());
    let s = o.snapshot();
    assert_eq!(s.len(), 2);
    assert_eq!(s.key_at(0), "delete");
    assert_eq!(s.key_at(1), "put");
}

#[test]
fn names_are_stable() {
    assert_eq!(NodeRole::Candidate.as_str(), "candidate");
    assert_eq!(AuthnRejectReason::NoPrincipal.as_str(), "no_principal");
    assert_eq!(AuthnRejectReason::IdentityRetired.as_str(), "identity_retired");
    assert_eq!(<(u64, u64)>::from(LogIdView::new(3, 4)), (3, 4));
}

#[test]
fn labels_are_escaped() {
    let mut out = String::from("=");
    escape_label_value("a\\b\"c\nd\u{e9}", &mut out);
    assert_eq!(out, "=a\\\\b\\\"c\\nd\u{e9}");
}

#[test]
fn an_escaped_label_reads_back() {
    for value in ["", "plain", "\\", "\\\"", "\\n", "\n", "a\\\\\"b\nc\\", "\u{e9}\"\"\\n"] {
        let mut written = String::new();
        escape_label_value(value, &mut written);
        written.push('"');
        written.push_str("} 1");
        let mut read = String::new();
        let mut chars = written.chars();
        loop {
            match chars.next() {
                None | Some('\n') => panic!("the label has no end: {value:?}"),
                Some('"') => break,
                Some('\\') => match chars.next() {
                    Some('n') => read.push('\n'),
                    Some(c) => read.push(c),
                    None => panic!("an escape has no end: {value:?}"),
                },
                Some(c) => read.push(c),
            }
        }
        assert_eq!(read, value);
        assert_eq!(chars.as_str(), "} 1");
    }
}

#[test]
fn a_metric_named_again_later_is_not_introduced_again() {
    let mut e = Exposition::new();
    e.metric("a", "gauge", "first");
    e.sample("a", &vec![], SampleValue::Whole(1));
    e.metric("b", "gauge", "second");
    e.metric("a", "gauge", "first");
    e.sample("a", &vec![], SampleValue::Whole(2));
    assert_eq!(
        e.finish(),
        "# HELP a first\n# TYPE a gauge\na 1\n# HELP b second\n# TYPE b gauge\na 2\n"
    );
}

#[test]
fn one_observation_shows_at_every_bound_it_does_not_exceed() {
    let mut h = LatencyHistogram::default();
    h.observe(Duration::from_millis(4));
    let before = h.snapshot();
    h.observe(Duration::from_millis(30));
    let after = h.snapshot();
    assert_eq!(after.count, before.count + 1);
    for i in 0..12 {
        let more = u64::from(i >= 5);
        assert_eq!(after.cumulative[i], before.cumulative[i] + more, "bound {i}");
    }
    // What exceeds every bound is counted in all only.
    h.observe(Duration::from_secs(6));
    assert_eq!(h.snapshot().cumulative, after.cumulative);
    assert_eq!(h.snapshot().count, 3);
    assert!(after.cumulative.windows(2).all(|w| w[0] <= w[1]));
    assert!(after.cumulative[11] <= after.count);
}

#[test]
fn headers_come_once() {
    let mut e = Exposition::new();
    e.metric("m", "gauge", "help");
    e.sample("m", &vec![], SampleValue::Whole(1));
    e.metric("m", "gauge", "help");
    e.sample("m", &vec![("a", "x"), ("b", "y\"")], SampleValue::Whole(2));
    e.metric("n", "counter", "more");
    assert_eq!(
        e.finish(),
        "# HELP m help\n# TYPE m gauge\nm 1\nm{a=\"x\",b=\"y\\\"\"} 2\n# HELP n more\n# TYPE n counter\n"
    );
}

fn node() -> NodeMetrics {
    NodeMetrics {
        node_id: NodeId(7),
        role: NodeRole::Leader,
        current_term: 3,
        current_leader: Some(NodeId(7)),
        last_log_index: Some(20),
        last_applied: Some(LogIdView::new(3, 19)),
        raft_log_len: 20,
        membership_voter_ids: vec![NodeId(7)],
        membership_log_id: None,
        cluster_revision: 11,
        applied_commands: 11,
        running_state_ok: true,
        millis_since_quorum_ack: None,
        authz_denied: 4,
        authz_denied_admin: 5,
        authn_rejected: 9,
        authn_rejected_peer: 2,
        authn_rejected_by_reason: vec![AuthnRejection {
            plane: "peer",
            reason: AuthnRejectReason::IdentityRetired,
            count: 2,
        }],
    }
}

fn report(full: bool) -> MetricsReport {
    let mut failures = TextMap::new();
    failures.insert("unsigned".to_string(), 2);
    failures.insert("malformed".to_string(), 1);
    let mut certs = TextMap::new();
    if full {
        certs.insert("peer".to_string(), -3i64);
    }
    MetricsReport {
        node: node(),
        storage: if full {
            Some(StorageMetrics {
                purged_index: 6,
                rocks_memtable_bytes: 1,
                rocks_table_readers_bytes: 2,
                rocks_level0_files: 3,
                rocks_write_stopped: 0,
                snapshot_age_ms: 1_500,
                snapshot_size_bytes: 4,
                snapshot_build_duration_ms: 20,
                snapshot_builds: 5,
                snapshot_builds_in_flight: 1,
                snapshot_installs: 6,
                snapshot_install_failures: 7,
                snapshot_install_redos: 8,
                purges: 9,
                purge_deferrals: 10,
                purge_refusals: 11,
            })
        } else {
            None
        },
        dedup: DedupStats {
            hits: 1,
            records: 2,
            max_records: 3,
            window_evictions: 4,
            trim_evictions: 5,
            cap_refusals: 6,
        },
        compactions: 2,
        watch: WatchStats {
            streams_open: 1,
            streams_open_by_principal: vec![],
            started: 1,
            terminated_by_reason: vec![(TerminationReason::QueueFull, 3)],
            events_replayed: 0,
            events_live: 0,
            progress_sent: 0,
            queue_depth_max: 0,
            queue_bytes_max: 512,
            publish_would_block: 0,
            broadcast_lagged: 0,
        },
        gossip_reachable: BTreeMap::from([(8, true), (9, false)]),
        gossip_endpoint_mismatch: 1,
        leader_changes: 2,
        peer_lag: BTreeMap::from([(8, 4)]),
        commit_index: None,
        proposal_latency: OpLatencies::default().snapshot(),
        read_latency: LatencyHistogram::default().snapshot(),
        disk_free_bytes: if full { Some(77) } else { None },
        cert_expiry_seconds: certs,
        backup_age_seconds: if full { Some(60) } else { None },
        pagination: if full {
            Some(PinStats {
                len: 3,
                capacity: 64,
                evictions: 0,
                expiries: 0,
                hits: 0,
                misses_by_reason: vec![],
            })
        } else {
            None
        },
        policy: if full {
            Some(PolicyMetrics {
                version: Some(4),
                converged_version: None,
                rollbacks: 1,
                reload_failures: failures,
                break_glass_active: true,
            })
        } else {
            None
        },
    }
}

#[test]
fn every_metric_is_introduced_exactly_once() {
    for full in [false, true] {
        let text = report(full).render_prometheus();
        let mut seen: Vec<&str> = vec![];
        let mut current = "";
        for line in text.lines() {
            if let Some(rest) = line.strip_prefix("# HELP ") {
                current = rest.split(' ').next().unwrap();
                assert!(!seen.contains(&current), "{current}");
                seen.push(current);
            } else if let Some(rest) = line.strip_prefix("# TYPE ") {
                assert_eq!(rest.split(' ').next().unwrap(), current);
            } else {
                assert!(line.starts_with(current), "{line} under {current}");
                assert!(line.contains("{node_id=\"7\""), "{line}");
            }
        }
        assert_eq!(seen.len(), if full { 42 } else { 24 });
    }
}

#[test]
fn a_full_report_is_rendered() {
    let text = report(true).render_prometheus();
    for line in [
        "# HELP retcd_raft_leader 1 when this node is the leader it knows about, 0 otherwise",
        "# TYPE retcd_raft_leader gauge",
        "retcd_raft_leader{node_id=\"7\"} 1",
        "retcd_raft_role{node_id=\"7\",role=\"leader\"} 1",
        "retcd_raft_role{node_id=\"7\",role=\"follower\"} 0",
        "retcd_raft_commit_index{node_id=\"7\"} 0",
        "retcd_raft_applied_index{node_id=\"7\"} 19",
        "retcd_raft_purged_index{node_id=\"7\"} 6",
        "retcd_raft_peer_lag{node_id=\"7\",peer_id=\"8\"} 4",
        "# TYPE retcd_proposal_latency_seconds histogram",
        "retcd_proposal_latency_seconds_bucket{node_id=\"7\",op=\"delete\",le=\"0.0025\"} 0",
        "retcd_proposal_latency_seconds_bucket{node_id=\"7\",op=\"put\",le=\"+Inf\"} 0",
        "retcd_linearizable_read_latency_seconds_sum{node_id=\"7\"} 0",
        "retcd_rocks_mem_bytes{node_id=\"7\",cf=\"all\",kind=\"table_readers\"} 2",
        "# HELP retcd_rocks_mem_bytes RocksDB memory in bytes; cf=\"all\" until per-family properties are read",
        "retcd_snapshot_age_seconds{node_id=\"7\"} 1.500000",
        "retcd_snapshot_build_duration_seconds{node_id=\"7\"} 0.020000",
        "retcd_snapshot_installs_total{node_id=\"7\",outcome=\"crash_recovered\"} 8",
        "retcd_log_purges_total{node_id=\"7\",outcome=\"refused\"} 11",
        "retcd_rocks_disk_free_bytes{node_id=\"7\"} 77",
        "retcd_watch_terminations_total{node_id=\"7\",reason=\"queue_full\"} 3",
        "retcd_dedup_evictions_total{node_id=\"7\",reason=\"trim\"} 5",
        "retcd_gossip_reachable{node_id=\"7\",peer_id=\"9\"} 0",
        "retcd_authn_rejected_total{node_id=\"7\",plane=\"client\"} 7",
        "retcd_authn_rejected_total{node_id=\"7\",plane=\"peer\"} 2",
        "retcd_authz_denied_total{node_id=\"7\",plane=\"admin\"} 5",
        "retcd_pinned_snapshots{node_id=\"7\"} 3",
        "retcd_policy_version{node_id=\"7\"} 4",
        "retcd_policy_reload_failures_total{node_id=\"7\",reason=\"malformed\"} 1",
        "retcd_break_glass_active{node_id=\"7\"} 1",
        "retcd_cert_expiry_seconds{node_id=\"7\",plane=\"peer\"} -3",
        "retcd_backup_age_seconds{node_id=\"7\"} 60",
    ] {
        assert!(text.lines().any(|l| l == line), "missing: {line}");
    }
    assert!(!text.contains("retcd_policy_converged_version{"));
}

#[test]
fn what_is_unknown_is_left_out() {
    let text = report(false).render_prometheus();
    for name in [
        "retcd_rocks_mem_bytes",
        "retcd_rocks_disk_free_bytes",
        "retcd_pinned_snapshots",
        "retcd_policy_rollbacks_total",
        "retcd_cert_expiry_seconds",
        "retcd_backup_age_seconds",
    ] {
        assert!(!text.contains(name), "{name}");
    }
}
