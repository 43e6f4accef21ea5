use config_engine::capabilities::{Capabilities, Dedup, WatchResumption};
use config_engine::config::{Authz, AuthzKind, NodeConfig, RaftTimers, TransportSecurity};
use config_engine::direct::{
    unpinned_page, DedupKey, DedupSession, DirectClient, SubmissionStep,
};
use config_engine::error::{applied_wait_text, FormationPlan};
use config_engine::hint::{
    validate_hint, HintVerdict, Liveness, ObservedPeerHint, REASON_CLUSTER_MISMATCH,
    REASON_ENDPOINT_MISMATCH, REASON_EPOCH_MISMATCH, REASON_NOT_FORMED, REASON_SELF_CLAIM,
    REASON_UNKNOWN_NODE,
};
use config_engine::metrics::MembershipView;
use config_engine::retention::{retention_target, JournalView, RetentionReason};
use config_engine::storage::Durability;
use config_engine::text::{decimal_text, hex_text, same_text, text_precedes};
use config_engine::textmap::TextMap;
use config_engine::time::Duration;
use config_engine::types::{
    ClusterId, ClusterIdentity, ConfigError, DedupLimits, Limits, ListPage, ListResponse, NodeId,
    PageTokenExpiredReason, Pagination, Principal, RecoveryEpoch, WatchRetention,
};
use config_engine::watch::{LeaderClock, ManualClock, SystemClock};

fn client() -> DirectClient<&'static str, &'static str> {
    DirectClient::new("node", Principal { name: "app".to_string() })
}

fn capabilities(dedup: Dedup) -> Capabilities {
    Capabilities {
        durability: Durability::Durable,
        watch_resumption: WatchResumption::Retained { compact_revision_visible: true },
        authz: Authz::Development,
        transport_security: TransportSecurity::Insecure,
        pagination: Pagination::Unsupported,
        dedup,
    }
}

#[test]
fn sessions_count_up_from_the_clock() {
    let mut s = DedupSession::starting_at([4; 16], 1_700_000_000_000);
    let a = s.mint();
    let b = s.mint();
    assert_eq!(a, DedupKey { client_id: [4; 16], request_id: 1_700_000_000_000u64 << 20 });
    assert_eq!(b.request_id, a.request_id + 1);
    // A process that restarts a millisecond later begins above.
    let mut later = DedupSession::starting_at([4; 16], 1_700_000_000_001);
    assert!(later.mint().request_id > b.request_id);
    assert_eq!(DedupSession::starting_at([0; 16], u64::MAX).mint().request_id, u64::MAX << 20);
    let now = std::time::SystemTime::now()
        .duration_since(std::time::UNIX_EPOCH)
        .unwrap()
        .as_millis() as u64;
    let first = DedupSession::new([4; 16]).mint().request_id;
    assert_eq!(first % (1 << 20), 0);
    assert!(first >> 20 >= now && first >> 20 < now + 60_000);
}

#[test]
fn mutations_are_stamped_once() {
    let mut plain = client();
    assert_eq!(plain.dedup_client_id(), None);
    assert_eq!(plain.stamp(None), None);
    let given = Some(DedupKey { client_id: [1; 16], request_id: 5 });
    assert_eq!(plain.stamp(given), given);
    let mut stamped = client().with_dedup([7; 16]);
    assert_eq!(stamped.dedup_client_id(), Some([7; 16]));
    assert_eq!(stamped.stamp(given), given);
    let a = stamped.stamp(None).unwrap();
    let b = stamped.stamp(None).unwrap();
    assert_eq!(a.client_id, [7; 16]);
    assert_eq!(b.request_id, a.request_id + 1);
}

#[test]
fn only_an_unknown_outcome_is_sent_again() {
    let bounded = Dedup::Bounded { window_requests: 8 };
    let unknown: Result<u8, ConfigError> = Err(ConfigError::DeadlineExceededUnknownOutcome);
    let refused: Result<u8, ConfigError> = Err(ConfigError::Unavailable { reason: "x".to_string() });
    let c = client().with_dedup([7; 16]);
    assert!(c.dedup_active(bounded));
    assert!(c.resubmits(1, &unknown, bounded));
    assert!(!c.resubmits(2, &unknown, bounded));
    assert!(!c.resubmits(1, &refused, bounded));
    assert!(!c.resubmits(1, &Ok(1u8), bounded));
    assert!(!c.resubmits(1, &unknown, Dedup::Unsupported));
    assert!(!client().resubmits(1, &unknown, bounded));
}

fn unknown() -> Result<u8, ConfigError> {
    Err(ConfigError::DeadlineExceededUnknownOutcome)
}

#[test]
fn an_unknown_outcome_is_sent_once_more_under_the_same_key() {
    let bounded = Dedup::Bounded { window_requests: 8 };
    let mut c = client().with_dedup([7; 16]);
    let mut s = c.submit(None);
    let key = s.key();
    assert_eq!(key.unwrap().client_id, [7; 16]);
    assert_eq!(s.sent(), 1);
    assert_eq!(c.answered(&mut s, unknown(), bounded), SubmissionStep::SendAgain { key });
    assert_eq!((s.key(), s.sent()), (key, 2));
    // The second answer is final, though it is unknown too.
    assert_eq!(c.answered(&mut s, unknown(), bounded), SubmissionStep::Answer(unknown()));
    assert_eq!((s.key(), s.sent()), (key, 2));
    let mut next = c.submit(None);
    assert_eq!(next.key().unwrap().request_id, key.unwrap().request_id + 1);
    assert_eq!(c.answered(&mut next, Ok(3u8), bounded), SubmissionStep::Answer(Ok(3)));
    assert_eq!(next.sent(), 1);
}

#[test]
fn a_mutation_is_sent_once_where_a_second_time_is_not_safe() {
    let bounded = Dedup::Bounded { window_requests: 8 };
    let given = Some(DedupKey { client_id: [1; 16], request_id: 5 });
    let mut c = client().with_dedup([7; 16]);
    let mut s = c.submit(given);
    assert_eq!(s.key(), given);
    assert_eq!(
        c.answered(&mut s, unknown(), Dedup::Unsupported),
        SubmissionStep::Answer(unknown())
    );
    assert_eq!((s.key(), s.sent()), (given, 1));
    assert_eq!(
        c.answered(&mut s, unknown(), bounded),
        SubmissionStep::SendAgain { key: given }
    );
    let mut plain = client();
    let mut s = plain.submit(None);
    assert_eq!(s.key(), None);
    assert_eq!(plain.answered(&mut s, unknown(), bounded), SubmissionStep::Answer(unknown()));
    let mut s = plain.submit(given);
    assert_eq!(s.key(), given);
    assert_eq!(plain.answered(&mut s, unknown(), bounded), SubmissionStep::Answer(unknown()));
    let refused: Result<u8, ConfigError> = Err(ConfigError::Unavailable { reason: "x".to_string() });
    let mut s = c.submit(None);
    assert_eq!(c.answered(&mut s, refused.clone(), bounded), SubmissionStep::Answer(refused));
}

#[test]
fn pages_need_a_paginator() {
    let c = client();
    assert_eq!(c.list_page(false), Ok(()));
    assert_eq!(
        c.list_page(true),
        Err(ConfigError::Unavailable { reason: "feature_not_activated".to_string() })
    );
    let page: ListPage<u8> =
        unpinned_page(ListResponse { records: vec![], read_revision: 4, truncated: true });
    assert_eq!((page.revision, page.truncated, page.next_page_token), (4, true, None));
    assert_eq!(c.paginator(), None);
    let c = c.with_pagination("pages");
    assert_eq!(c.paginator(), Some(&"pages"));
    assert_eq!(*c.node(), "node");
    assert_eq!(c.principal().name, "app");
}

#[test]
fn clients_report_their_own_pagination() {
    let pinned = Pagination::RevisionPinned { max_pinned: 3, ttl_ms: 9 };
    let node = capabilities(Dedup::Unsupported);
    assert_eq!(client().capabilities(node, pinned), node);
    assert_eq!(
        client().with_pagination("p").capabilities(node, pinned).pagination,
        pinned
    );
}

fn identity() -> ClusterIdentity {
    ClusterIdentity {
        cluster_id: ClusterId::from_bytes([0, 1, 2, 3, 4, 5, 6, 7, 8, 9, 10, 11, 12, 13, 14, 255]),
        recovery_epoch: RecoveryEpoch(2),
        node_id: NodeId(1),
    }
}

#[test]
fn configurations_start_from_their_defaults() {
    let limits = Limits {
        max_key_bytes: 10,
        dedup: DedupLimits { enabled: false, window_requests: 0 },
    };
    let mut c = NodeConfig::new(identity(), "p:1".to_string(), limits);
    assert_eq!(c.raft, RaftTimers::default());
    assert_eq!(c.raft.election_timeout(), Duration::from_millis(1500));
    assert_eq!(c.client_endpoint(), "p:1");
    c.client_endpoint = Some("c:1".to_string());
    assert_eq!(c.raft_node().client, "c:1");
    assert_eq!(c.raft_node().peer, "p:1");
    let s = c.openraft_config();
    assert_eq!((s.heartbeat_interval, s.election_timeout_min, s.election_timeout_max), (250, 750, 1500));
    assert_eq!((s.max_payload_entries, s.max_in_snapshot_log_to_keep, s.purge_batch_size), (16, u64::MAX, 1));
    assert_eq!(s.cluster_name, "retcd");
}

#[test]
fn models_that_failed_deny_everything() {
    for (kind, name, present, authz) in [
        (AuthzKind::Development, "development", true, Authz::Development),
        (AuthzKind::StaticAllowlist, "static_allowlist", true, Authz::StaticAllowlist),
        (AuthzKind::Missing, "missing", false, Authz::StaticAllowlist),
        (AuthzKind::Invalid, "invalid", false, Authz::StaticAllowlist),
    ] {
        assert_eq!(kind.as_str(), name);
        assert_eq!(kind.is_present(), present);
        assert_eq!(Authz::from(kind), authz);
        assert!(!kind.is_signed_mode());
    }
    assert_eq!(AuthzKind::SignedPolicy.to_capability(Some(3)), Authz::SignedPolicy { version: Some(3) });
    assert!(AuthzKind::NoValidPolicy.is_signed_mode() && !AuthzKind::NoValidPolicy.is_present());
}

#[test]
fn hints_are_judged_in_order() {
    let mut m = MembershipView::default();
    let hint = |f: &dyn Fn(&mut ObservedPeerHint)| {
        let mut h = ObservedPeerHint {
            cluster_id: identity().cluster_id,
            recovery_epoch: RecoveryEpoch(2),
            node_id: NodeId(2),
            peer_endpoint: "p:2".to_string(),
            liveness: Liveness::Alive,
        };
        f(&mut h);
        h
    };
    let judge = |m: &MembershipView, h: ObservedPeerHint| validate_hint(&h, m, &identity()).reason();
    assert_eq!(
        judge(&m, hint(&|h| h.cluster_id = ClusterId::from_bytes([0; 16]))),
        Some(REASON_CLUSTER_MISMATCH)
    );
    assert_eq!(
        judge(&m, hint(&|h| h.recovery_epoch = RecoveryEpoch(1))),
        Some(REASON_EPOCH_MISMATCH)
    );
    assert_eq!(judge(&m, hint(&|h| h.node_id = NodeId(1))), Some(REASON_SELF_CLAIM));
    assert_eq!(judge(&m, hint(&|_| ())), Some(REASON_NOT_FORMED));
    m.voters.insert(3);
    assert_eq!(judge(&m, hint(&|_| ())), Some(REASON_UNKNOWN_NODE));
    m.voters.insert(2);
    assert_eq!(judge(&m, hint(&|_| ())), Some(REASON_ENDPOINT_MISMATCH));
    m.endpoints.insert(2, "p:2".to_string());
    assert_eq!(validate_hint(&hint(&|_| ()), &m, &identity()), HintVerdict::Accepted);
    assert!(validate_hint(&hint(&|_| ()), &m, &identity()).is_accepted());
    assert_eq!(REASON_EPOCH_MISMATCH, "recovery_epoch_mismatch");
}

#[test]
fn plans_keep_the_last_word_on_a_voter() {
    let p = FormationPlan::new(
        &identity(),
        vec![(NodeId(2), "a".to_string()), (NodeId(2), "b".to_string())],
    );
    assert_eq!(p.voters[&2], "b");
    assert_eq!(p.client_endpoint_of(NodeId(2)), Some(&"b".to_string()));
    assert_eq!(p.client_endpoint_of(NodeId(3)), None);
    assert_eq!(applied_wait_text(17), "applied index >= 17");
}

#[test]
fn errors_are_described() {
    assert_eq!(
        ConfigError::RevisionCompacted { minimum_available_revision: 5 }.describe(),
        "revision compacted; the oldest available is 5"
    );
    assert_eq!(
        ConfigError::PageTokenExpired { reason: PageTokenExpiredReason::PolicyVersion }.describe(),
        "page token expired: policy_version"
    );
    assert_eq!(identity().cluster_id.describe(), "000102030405060708090a0b0c0d0eff");
    assert!(ConfigError::NotLeader { hint: None }.is_safe_to_resubmit());
    assert!(!ConfigError::DeadlineExceededUnknownOutcome.is_safe_to_resubmit());
}

#[test]
fn texts_are_built_and_ordered() {
    assert_eq!(decimal_text(0), "0");
    assert_eq!(decimal_text(u64::MAX), u64::MAX.to_string());
    assert_eq!(hex_text(&[0, 255, 16]), "00ff10");
    assert!(same_text("a", "a") && !same_text("a", "b"));
    for (a, b) in [("", "a"), ("a", "b"), ("a", "aa"), ("Z", "a"), ("\u{ffff}", "\u{10000}")] {
        assert!(text_precedes(a, b) && !text_precedes(b, a));
        assert!(a < b);
    }
    let mut m: TextMap<u8> = TextMap::new();
    m.insert("b".to_string(), 1);
    m.insert("a".to_string(), 2);
    m.insert("b".to_string(), 3);
    assert_eq!((m.len(), m.get("b"), m.get("c")), (2, Some(&3), None));
    assert_eq!((m.key_at(0).as_str(), *m.value_at(1)), ("a", 3));
    m.remove("a");
    assert_eq!(m.len(), 1);
}

#[test]
fn clocks_are_read_and_advanced() {
    let mut c = ManualClock::new();
    assert_eq!(c.now_ms(), 0);
    c.advance(Duration::from_micros(2_999));
    assert_eq!(c.now_ms(), 2);
    let before = std::time::SystemTime::now()
        .duration_since(std::time::UNIX_EPOCH)
        .unwrap()
        .as_millis() as u64;
    assert!(SystemClock.now_ms() >= before);
}

fn retention(max_revisions: u64, max_bytes: u64, max_age_ms: u64) -> WatchRetention {
    WatchRetention {
        max_revisions,
        max_bytes,
        max_age: Duration::from_millis(max_age_ms),
        check_interval: Duration::from_secs(60),
    }
}

#[test]
fn the_furthest_ceiling_wins() {
    let view = JournalView { oldest_revision: 11, newest_revision: 100, count: 90, bytes: 900 };
    assert_eq!(retention_target(view, &retention(0, 0, 0), 0, 50), None);
    assert_eq!(
        retention_target(view, &retention(10, 0, 0), 0, 0),
        Some((90, RetentionReason::Revisions))
    );
    assert_eq!(retention_target(view, &retention(10, 0, 0), 90, 0), None);
    // A third of the bytes is over, so a third of the revisions goes.
    assert_eq!(
        retention_target(view, &retention(0, 600, 0), 0, 0),
        Some((40, RetentionReason::Bytes))
    );
    assert_eq!(
        retention_target(view, &retention(0, 899, 0), 0, 0),
        Some((11, RetentionReason::Bytes)),
        "at least one revision goes"
    );
    assert_eq!(
        retention_target(view, &retention(10, 600, 5), 0, 96),
        Some((95, RetentionReason::Age))
    );
    assert_eq!(
        retention_target(view, &retention(0, 0, 5), 0, 500),
        Some((100, RetentionReason::Age)),
        "nothing beyond what is retained"
    );
    assert_eq!(RetentionReason::Bytes.as_str(), "bytes");
}
