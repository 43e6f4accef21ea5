use std::collections::{BTreeMap, BTreeSet};

use config_engine::admin::{AdminError, SnapshotTriggered};
use config_engine::capabilities::Dedup;
use config_engine::config::{Authz, AuthzKind, NodeConfig, RaftNode, RaftTimers, TransportSecurity};
use config_engine::delivery::HubState;
use config_engine::error::{EngineError, FormationError, FormationPlan};
use config_engine::hint::{Liveness, ObservedPeerHint};
use config_engine::metrics::{
    AuthnRejectReason, Health, HealthPayload, LogIdView, MembershipView, NodeRole,
};
use config_engine::node::formation::InitializeOutcome;
use config_engine::node::members::{
    is_blank, ChangeFailure, ChangeOutcome, RemovalStep, RetireOutcome,
};
use config_engine::node::observed::{hex32, membership_view, Membership, RaftView, StoreView};
use config_engine::node::outcome::{Barrier, Fatal};
use config_engine::node::report::ScrapeFacts;
use config_engine::node::requests::{bind_principal, Decision, DedupStamp};
use config_engine::node::schema::{CommandGate, FeatureGated};
use config_engine::node::upkeep::{
    operator_compaction, CompactCommand, Compaction, RetentionStep,
};
use config_engine::node::ConfigNode;
use config_engine::retention::RetentionReason;
use config_engine::storage::{DedupStats, Durability, JournalStats};
use config_engine::time::Duration;
use config_engine::transport::{PeerEnvelopeMeta, PeerReject, SchemaTriple};
use config_engine::types::{
    Action, ClusterId, ClusterIdentity, ConfigError, DedupLimits, LeaderHint, Limits, NodeId,
    Pagination, Principal, RecoveryEpoch, WatchLimits, WatchRequest,
};
use config_engine::watch::WatchHub;

fn identity(node: u64) -> ClusterIdentity {
    ClusterIdentity {
        cluster_id: ClusterId::from_bytes([7; 16]),
        recovery_epoch: RecoveryEpoch(3),
        node_id: NodeId(node),
    }
}

fn limits() -> Limits {
    Limits { max_key_bytes: 64, dedup: DedupLimits { enabled: true, window_requests: 32 } }
}

fn config() -> NodeConfig {
    NodeConfig::new(identity(1), "inproc://1".to_string(), limits())
}

fn node() -> ConfigNode {
    ConfigNode::start(true, config(), identity(1)).unwrap_or_else(|e| panic!("{e:?}"))
}

fn node_with(kind: AuthzKind) -> ConfigNode {
    let mut cfg = config();
    cfg.authz_kind = kind;
    ConfigNode::start(true, cfg, identity(1)).unwrap_or_else(|e| panic!("{e:?}"))
}

fn members(ids: &[u64]) -> MembershipView {
    let mut m = MembershipView::default();
    for id in ids {
        m.voters.insert(*id);
        m.endpoints.insert(*id, format!("inproc://{id}"));
        m.client_endpoints.insert(*id, format!("client://{id}"));
    }
    m.membership_log_id = Some((1, 4));
    m
}

fn effective(voters: &[u64], learners: &[u64]) -> Membership {
    let mut nodes = BTreeMap::new();
    for id in voters.iter().chain(learners) {
        nodes.insert(
            *id,
            RaftNode { peer: format!("inproc://{id}"), client: format!("client://{id}") },
        );
    }
    Membership {
        voters: voters.iter().copied().collect(),
        nodes,
        log_id: Some(LogIdView::new(1, 4)),
        joint_config_len: 1,
    }
}

fn raft(role: NodeRole, leader: Option<u64>) -> RaftView {
    RaftView {
        role,
        current_term: 5,
        current_leader: leader.map(NodeId),
        last_log_index: Some(100),
        last_applied: Some(LogIdView::new(5, 90)),
        fatal: None,
        millis_since_quorum_ack: Some(12),
        effective: effective(&[1, 2, 3], &[]),
        replication: None,
    }
}

fn store(ids: &[u64]) -> StoreView {
    StoreView {
        durability: Durability::Durable,
        fresh: false,
        poisoned: false,
        raft_log_len: 11,
        applied_commands: 6,
        cluster_revision: 40,
        membership: members(ids),
        retired: BTreeSet::new(),
        max_applied_command_schema: 1,
        compact_revision: Some(2),
        journal: Some(JournalStats {
            oldest_revision: Some(3),
            newest_revision: Some(40),
            count: 38,
            bytes: 3800,
        }),
        state_hash: [0xab; 32],
        journal_hash: None,
    }
}

fn hub() -> WatchHub {
    WatchHub::new(WatchLimits {
        max_streams_per_node: 2,
        max_streams_per_principal: 1,
        queue_events: 4,
        queue_bytes: 100,
        live_buffer_batches: 8,
    })
}

fn app() -> Principal {
    Principal { name: "app".to_string() }
}

fn gate(command_schema: u16) -> Option<CommandGate> {
    Some(CommandGate { feature: "dedup", command_schema })
}

// ---------------- lifecycle ----------------

#[test]
fn starting_checks_the_runtime_the_identity_and_the_timers() {
    assert_eq!(
        ConfigNode::start(false, config(), identity(1)).err(),
        Some(EngineError::NoRuntime)
    );
    let e = ConfigNode::start(true, config(), identity(2)).err().unwrap();
    assert_eq!(
        e.describe(),
        "storage error: identity mismatch: bound to cluster 07070707070707070707070707070707 \
         epoch 3 node 2, configured as cluster 07070707070707070707070707070707 epoch 3 node 1"
    );
    let mut cfg = config();
    cfg.raft = RaftTimers { heartbeat_ms: 250, election_min_ms: 800, election_max_ms: 800 };
    assert_eq!(
        ConfigNode::start(true, cfg, identity(1)).err(),
        Some(EngineError::Raft("election timeout: min(800) must be < max(800)".to_string()))
    );
    let mut cfg = config();
    cfg.raft = RaftTimers { heartbeat_ms: 800, election_min_ms: 750, election_max_ms: 1500 };
    assert_eq!(
        ConfigNode::start(true, cfg, identity(1)).err(),
        Some(EngineError::Raft(
            "election_timeout_min(750) must be > heartbeat_interval(800)".to_string()
        ))
    );
    let n = node();
    assert_eq!(n.identity(), identity(1));
    assert_eq!(n.local_schema(), SchemaTriple::current());
    assert_eq!(n.limits(), limits());
    assert_eq!(n.peer_schemas.observed(NodeId(1)), Some(SchemaTriple::current()));
    assert!(!n.is_stopped());
}

#[test]
fn stopping_is_idempotent_and_ends_the_streams() {
    let mut n = node();
    let mut w = hub();
    n.connect(&mut w, 9);
    assert!(w.attached && w.authz_ready);
    assert_eq!(w.compact_revision, 9);
    n.connect(&mut w, 12);
    assert_eq!(w.compact_revision, 9, "the hub keeps the store it has");
    assert!(n.stop(&mut w));
    assert_eq!(w.state, HubState::Stopped);
    assert!(!n.stop(&mut w));
    assert_eq!(ConfigNode::stop_result(Ok(())), Ok(()));
    assert_eq!(
        ConfigNode::stop_result(Err("join".to_string())),
        Err(EngineError::Raft("join".to_string()))
    );
}

#[test]
fn a_node_without_a_policy_is_not_ready_for_its_hub() {
    for (kind, ready) in [
        (AuthzKind::Development, true),
        (AuthzKind::StaticAllowlist, true),
        (AuthzKind::Missing, false),
        (AuthzKind::Invalid, false),
        (AuthzKind::SignedPolicy, true),
        (AuthzKind::NoValidPolicy, true),
    ] {
        let mut w = hub();
        node_with(kind).connect(&mut w, 0);
        assert_eq!(w.authz_ready, ready, "{kind:?}");
    }
}

// ---------------- formation ----------------

fn plan() -> FormationPlan {
    FormationPlan::new(
        &identity(1),
        vec![(NodeId(1), "inproc://1".to_string()), (NodeId(2), "inproc://2".to_string())],
    )
}

#[test]
fn a_fresh_node_forms_what_was_planned() {
    let none = MembershipView::default();
    let members = node().form_cluster(&plan(), &none, &none, true).unwrap();
    assert_eq!(members.len(), 2);
    assert_eq!(members[&2], RaftNode { peer: "inproc://2".to_string(), client: "inproc://2".to_string() });

    let mut cfg = config();
    cfg.client_endpoint = Some("client://1".to_string());
    let n = ConfigNode::start(true, cfg, identity(1)).unwrap_or_else(|e| panic!("{e:?}"));
    let p = FormationPlan::with_client_endpoints(
        &identity(1),
        vec![(NodeId(1), "inproc://1".to_string(), "client://1".to_string())],
    );
    assert_eq!(p.client_endpoint_of(NodeId(1)), Some(&"client://1".to_string()));
    let members = n.form_cluster(&p, &none, &none, true).unwrap();
    assert_eq!(members[&1].client, "client://1");
}

#[test]
fn formation_is_refused_for_every_reason() {
    let n = node();
    let none = MembershipView::default();
    let formed = members(&[1]);

    let mut p = plan();
    p.recovery_epoch = RecoveryEpoch(4);
    let e = n.form_cluster(&p, &none, &none, true).unwrap_err();
    assert!(matches!(e, FormationError::IdentityMismatch(_)));

    let mut p = plan();
    p.voters.remove(&1);
    assert_eq!(n.form_cluster(&p, &none, &none, true), Err(FormationError::NotAVoter));

    let mut p = plan();
    p.voters.insert(1, "inproc://9".to_string());
    let e = n.form_cluster(&p, &none, &none, true).unwrap_err();
    assert_eq!(
        e.describe(),
        "formation plan gives this node peer endpoint \"inproc://9\", but it is configured as \
         \"inproc://1\""
    );

    let mut p = plan();
    p.client_endpoints.insert(1, "client://9".to_string());
    assert_eq!(
        n.form_cluster(&p, &none, &none, true),
        Err(FormationError::EndpointMismatch {
            plane: "client",
            planned: "client://9".to_string(),
            configured: "inproc://1".to_string(),
        })
    );

    assert_eq!(n.form_cluster(&plan(), &formed, &none, true), Err(FormationError::AlreadyFormed));
    assert_eq!(n.form_cluster(&plan(), &none, &formed, true), Err(FormationError::AlreadyFormed));
    assert_eq!(n.form_cluster(&plan(), &none, &none, false), Err(FormationError::StoreNotFresh));

    assert_eq!(ConfigNode::form_result(InitializeOutcome::Done), Ok(()));
    assert_eq!(
        ConfigNode::form_result(InitializeOutcome::NotAllowed),
        Err(FormationError::AlreadyFormed)
    );
    assert_eq!(
        ConfigNode::form_result(InitializeOutcome::Failed("x".to_string())),
        Err(FormationError::Raft("x".to_string()))
    );
}

// ---------------- observable state ----------------

#[test]
fn membership_views_flatten_both_planes() {
    let m = membership_view(&effective(&[1, 2], &[3]));
    assert_eq!(m.voters.iter().copied().collect::<Vec<_>>(), vec![1, 2]);
    assert_eq!(m.endpoint_of(NodeId(3)), Some(&"inproc://3".to_string()));
    assert_eq!(m.client_endpoint_of(NodeId(2)), Some(&"client://2".to_string()));
    assert_eq!(m.membership_log_id, Some((1, 4)));
    assert!(m.is_formed());
    assert_eq!(m.client_endpoint_of(NodeId(9)), None);
}

#[test]
fn health_reports_the_first_thing_that_is_wrong() {
    let mut n = node();
    let ok = store(&[1, 2, 3]);
    let reason = |h: Health| match h {
        Health::Unavailable { reason } => reason,
        other => panic!("{other:?}"),
    };
    assert_eq!(n.health(&raft(NodeRole::Leader, Some(1)), &ok, None), Health::Ready);
    assert_eq!(
        n.health(&raft(NodeRole::Follower, Some(2)), &ok, None),
        Health::NotLeader {
            hint: Some(LeaderHint { node_id: NodeId(2), endpoint: "client://2".to_string() })
        }
    );
    assert_eq!(reason(n.health(&raft(NodeRole::Follower, None), &ok, None)), "no leader known");
    let unformed = store(&[]);
    assert_eq!(
        reason(n.health(&raft(NodeRole::Learner, None), &unformed, None)),
        "cluster is not formed"
    );
    assert!(!n.is_ready(&unformed, None) && n.is_ready(&ok, None));
    let mut poisoned = store(&[1]);
    poisoned.poisoned = true;
    assert_eq!(
        reason(n.health(&raft(NodeRole::Leader, Some(1)), &poisoned, None)),
        "storage is poisoned"
    );
    let mut dead = raft(NodeRole::Shutdown, Some(1));
    dead.fatal = Some("panicked".to_string());
    assert_eq!(reason(n.health(&dead, &ok, None)), "raft core stopped: panicked");
    assert_eq!(
        reason(node_with(AuthzKind::Missing).health(&raft(NodeRole::Leader, Some(1)), &ok, None)),
        "authorization policy is missing"
    );
    n.stopped = true;
    assert_eq!(n.health(&raft(NodeRole::Leader, Some(1)), &ok, None), Health::Stopped);
}

#[test]
fn a_signed_node_becomes_ready_with_its_document() {
    let n = node_with(AuthzKind::NoValidPolicy);
    assert_eq!(n.authz_kind(None), AuthzKind::NoValidPolicy);
    assert!(!n.is_ready(&store(&[1]), None));
    assert_eq!(n.authz_kind(Some(4)), AuthzKind::SignedPolicy);
    assert!(n.is_ready(&store(&[1]), Some(4)));
    let c = n.capabilities(Durability::Durable, Some(4));
    assert_eq!(c.authz, Authz::SignedPolicy { version: Some(4) });
}

#[test]
fn capabilities_report_what_is_enforced() {
    let mut n = node();
    let c = n.capabilities(Durability::Ephemeral, None);
    assert_eq!(c.durability, Durability::Ephemeral);
    assert_eq!(c.dedup, Dedup::Bounded { window_requests: 32 });
    assert_eq!(c.pagination, Pagination::Unsupported);
    assert_eq!(c.transport_security, TransportSecurity::Insecure);
    n.cfg.limits.dedup.enabled = false;
    assert_eq!(n.capabilities(Durability::Durable, None).dedup, Dedup::Unsupported);
}

#[test]
fn metrics_sum_the_rejections_of_both_planes() {
    let mut n = node();
    n.record_authn_rejection(AuthnRejectReason::NoPrincipal);
    n.record_authn_rejection(AuthnRejectReason::NoPrincipal);
    n.record_admin_authz_denial();
    let meta = envelope();
    assert!(n.handle(&meta, true).is_err());
    let m = n.metrics(&raft(NodeRole::Leader, Some(1)), &store(&[1, 2, 3]));
    assert_eq!(m.authn_rejected, 3);
    assert_eq!(m.authn_rejected_peer, 1);
    assert_eq!(m.authz_denied_admin, 1);
    let listed: Vec<(&str, AuthnRejectReason, u64)> =
        m.authn_rejected_by_reason.iter().map(|r| (r.plane, r.reason, r.count)).collect();
    assert_eq!(
        listed,
        vec![
            ("client", AuthnRejectReason::NoPrincipal, 2),
            ("client", AuthnRejectReason::IdentityRetired, 0),
            ("peer", AuthnRejectReason::NoPrincipal, 0),
            ("peer", AuthnRejectReason::IdentityRetired, 1),
        ]
    );
    assert_eq!(m.membership_voter_ids, vec![NodeId(1), NodeId(2), NodeId(3)]);
    assert_eq!(m.last_log_index, Some(100));
    assert!(m.running_state_ok);
    assert!(ConfigNode::has_applied(&m, 90) && !ConfigNode::has_applied(&m, 91));
    let t = ConfigNode::wait_expired("a leader", Duration::from_secs(1), m);
    assert_eq!(t.what, "a leader");
}

#[test]
fn policies_are_summarized_without_their_body() {
    let mut cfg = config().with_policy_document(b"abc").with_policy_grants(5);
    cfg.authz_kind = AuthzKind::StaticAllowlist;
    let n = ConfigNode::start(true, cfg, identity(1)).unwrap_or_else(|e| panic!("{e:?}"));
    let p = n.policy_summary(None);
    assert_eq!(p.kind, Authz::StaticAllowlist);
    assert_eq!(p.grants, 5);
    assert_eq!(
        p.policy_hash_hex.as_deref(),
        Some("ba7816bf8f01cfea414140de5dae2223b00361a396177a9cb410ff61f20015ad")
    );
    let mut cfg = config().with_policy_grants(5);
    cfg.authz_kind = AuthzKind::Invalid;
    let n = ConfigNode::start(true, cfg, identity(1)).unwrap_or_else(|e| panic!("{e:?}"));
    assert_eq!(n.policy_summary(None).grants, 0);
    assert_eq!(n.policy_summary(None).policy_hash_hex, None);
}

#[test]
fn the_health_payload_gathers_everything() {
    let n = node();
    let p: HealthPayload<u8, u8> = n.health_payload(
        &raft(NodeRole::Leader, Some(1)),
        &store(&[1, 2]),
        Some(8),
        Some(95),
        None,
        3,
    );
    assert_eq!(p.cluster_id, "07".repeat(16));
    assert_eq!(p.recovery_epoch, RecoveryEpoch(3));
    assert_eq!(p.term, 5);
    assert_eq!(p.last_applied, Some(90));
    assert_eq!(p.committed, Some(95));
    assert_eq!(p.membership_voter_ids, vec![NodeId(1), NodeId(2)]);
    assert_eq!(p.membership_log_id, Some(LogIdView::new(1, 4)));
    assert_eq!(p.state_hash_hex, "ab".repeat(32));
    assert_eq!(p.journal_hash, "00".repeat(32));
    assert!(p.ready);
    assert_eq!(p.compact_revision, 2);
    assert_eq!(p.journal_oldest_revision, Some(3));
    assert_eq!(p.journal_newest_revision, Some(40));
    assert_eq!(p.watch_streams_open, 3);
    assert_eq!(p.policy_version, Some(8));
    assert_eq!(p.policy_state, None);
    // Node 2 was never heard from, and counts as the first generation.
    assert_eq!(p.cluster_min_schema, Some(SchemaTriple::compat_1()));
    assert_eq!(hex32(&[0x0f; 32]), "0f".repeat(32));
}

#[test]
fn a_scrape_leaves_out_what_a_node_cannot_know() {
    let mut n = node();
    n.record_proposal("put", Duration::from_millis(3));
    n.record_proposal("get", Duration::from_millis(3));
    n.record_read(Duration::from_micros(700));
    let hints = vec![observed(2, "inproc://2", Liveness::Alive), observed(3, "x", Liveness::Dead)];
    let mut r = raft(NodeRole::Leader, Some(1));
    r.replication = Some(BTreeMap::from([(1, Some(100)), (2, Some(70)), (3, None)]));
    let report = n.metrics_report(
        &r,
        &store(&[1, 2, 3]),
        &hints,
        ScrapeFacts {
            storage: None,
            dedup: DedupStats {
                hits: 1,
                records: 2,
                max_records: 3,
                window_evictions: 4,
                trim_evictions: 5,
                cap_refusals: 6,
            },
            compactions: 7,
            watch: hub().stats(),
            commit_index: Some(99),
        },
    );
    assert_eq!(report.peer_lag, BTreeMap::from([(2, 30), (3, 100)]));
    assert_eq!(report.gossip_reachable, BTreeMap::from([(2, true), (3, false)]));
    assert_eq!(report.proposal_latency.get("put").unwrap().count, 1);
    assert_eq!(report.proposal_latency.get("delete").unwrap().count, 0);
    assert_eq!(report.read_latency.count, 1);
    assert_eq!(report.read_latency.sum_micros, 700);
    assert!(report.disk_free_bytes.is_none() && report.policy.is_none());
    let text = report.render_prometheus();
    assert!(text.contains("retcd_raft_peer_lag{node_id=\"1\",peer_id=\"2\"} 30\n"));
    assert!(!text.contains("retcd_policy_version"));
}

#[test]
fn journals_that_cannot_be_read_look_empty() {
    let v = ConfigNode::journal_view(None);
    assert_eq!((v.oldest_revision, v.newest_revision, v.count, v.bytes), (0, 0, 0, 0));
    let v = ConfigNode::journal_view(store(&[1]).journal);
    assert_eq!((v.oldest_revision, v.newest_revision, v.count, v.bytes), (3, 40, 38, 3800));
    let mut s = store(&[1]);
    s.compact_revision = None;
    assert_eq!(ConfigNode::compact_revision(&s), 0);
    assert_eq!(ConfigNode::applied_index(None), 0);
    assert_eq!(ConfigNode::applied_index(Some(LogIdView::new(1, 8))), 8);
}

// ---------------- leadership and gossip ----------------

#[test]
fn only_transitions_to_a_leader_count() {
    let mut n = node();
    n.sample_leader(None);
    assert_eq!(n.leader_changes, 0);
    n.sample_leader(Some(NodeId(2)));
    n.sample_leader(Some(NodeId(2)));
    assert_eq!(n.leader_changes, 1);
    n.sample_leader(None);
    assert_eq!(n.leader_changes, 1);
    // An election that returns the same leader is no change.
    n.sample_leader(Some(NodeId(2)));
    assert_eq!(n.leader_changes, 1);
    assert_eq!(n.last_seen_leader, Some(NodeId(2)));
    n.sample_leader(None);
    n.sample_leader(Some(NodeId(3)));
    assert_eq!(n.leader_changes, 2);
    assert_eq!(n.last_seen_leader, Some(NodeId(3)));
}

#[test]
fn leadership_decides_what_the_hub_serves() {
    let mut n = node();
    let m = members(&[1, 2]);
    let mut w = hub();
    n.publish_leader_state(Some(NodeId(1)), &m, &mut w);
    assert_eq!(w.state, HubState::Serving);
    n.publish_leader_state(Some(NodeId(2)), &m, &mut w);
    assert_eq!(
        w.state,
        HubState::NotLeader {
            hint: Some(LeaderHint { node_id: NodeId(2), endpoint: "client://2".to_string() })
        }
    );
    n.publish_leader_state(None, &m, &mut w);
    assert_eq!(w.state, HubState::NotLeader { hint: None });
    n.stopped = true;
    n.publish_leader_state(Some(NodeId(1)), &m, &mut w);
    assert_eq!(w.state, HubState::Stopped);
    assert_eq!(
        ConfigNode::leader_hint(&raft(NodeRole::Follower, Some(2)), &store(&[1, 2])),
        Some(LeaderHint { node_id: NodeId(2), endpoint: "client://2".to_string() })
    );
}

fn observed(node: u64, endpoint: &str, liveness: Liveness) -> ObservedPeerHint {
    ObservedPeerHint {
        cluster_id: ClusterId::from_bytes([7; 16]),
        recovery_epoch: RecoveryEpoch(3),
        node_id: NodeId(node),
        peer_endpoint: endpoint.to_string(),
        liveness,
    }
}

#[test]
fn gossip_is_only_telemetry() {
    let mut n = node();
    let m = members(&[1, 2, 3]);
    n.poll_gossip(
        &vec![
            observed(2, "inproc://2", Liveness::Alive),
            observed(3, "elsewhere", Liveness::Alive),
            observed(1, "inproc://1", Liveness::Alive),
            observed(2, "inproc://2", Liveness::Suspect),
        ],
        &m,
    );
    assert_eq!(n.gossip_endpoint_mismatch, 2);
    assert_eq!(n.accepted_hints().len(), 1);
    assert_eq!(n.accepted_hints()[&2].liveness, Liveness::Suspect);
    n.poll_gossip(&vec![], &m);
    assert!(n.accepted_hints().is_empty());
}

// ---------------- requests ----------------

#[test]
fn denials_name_the_principal_and_the_key() {
    let mut n = node();
    assert_eq!(n.authorize(&app(), Action::Write, b"a/b", None, Decision::Allow), Ok(()));
    let e = n
        .authorize(&app(), Action::Write, b"a/b", None, Decision::Deny { reason: "no grant".to_string() })
        .unwrap_err();
    assert_eq!(
        e,
        ConfigError::PermissionDenied {
            detail: "principal \"app\" may not Write key_hex=612f62 (no grant)".to_string()
        }
    );
    assert_eq!(n.authz_denied, 1);
    let mut n = node_with(AuthzKind::Invalid);
    let e = n.authorize(&app(), Action::Read, b"", None, Decision::Allow).unwrap_err();
    assert_eq!(
        e,
        ConfigError::PermissionDenied {
            detail: "principal \"app\" may not Read key_hex= (node is not ready to authorize: \
                     policy is invalid)"
                .to_string()
        }
    );
    let mut n = node_with(AuthzKind::NoValidPolicy);
    let e = n.authorize(&app(), Action::Read, b"", None, Decision::Allow).unwrap_err();
    assert_eq!(
        e,
        ConfigError::Unavailable {
            reason: "no valid policy in force (node is not ready to authorize: policy is \
                     no_valid_policy)"
                .to_string()
        }
    );
    assert_eq!(n.authz_denied, 1);
    assert_eq!(n.authorize(&app(), Action::Read, b"", Some(2), Decision::Allow), Ok(()));
}

#[test]
fn quoting_escapes_what_would_be_misread() {
    let mut n = node();
    let p = Principal { name: "a\"b\n".to_string() };
    let e = n
        .authorize(&p, Action::Read, b"k", None, Decision::Deny { reason: "r".to_string() })
        .unwrap_err();
    assert_eq!(
        e.describe(),
        format!("permission denied: principal {:?} may not Read key_hex=6b (r)", "a\"b\n")
    );
}

#[test]
fn mutations_are_checked_in_order() {
    let mut n = node();
    let s = store(&[1, 2]);
    let invalid = ConfigError::InvalidArgument { detail: "key".to_string() };
    let deny = || Decision::Deny { reason: "no".to_string() };
    assert_eq!(
        n.mutate(Err(invalid.clone()), &app(), b"k", None, deny(), gate(2), NodeRole::Leader, &s),
        Err(invalid)
    );
    assert_eq!(n.authz_denied, 0);
    assert!(matches!(
        n.mutate(Ok(()), &app(), b"k", None, deny(), gate(2), NodeRole::Leader, &s),
        Err(ConfigError::PermissionDenied { .. })
    ));
    assert_eq!(n.authz_denied, 1);
    assert_eq!(
        n.mutate(Ok(()), &app(), b"k", None, Decision::Allow, gate(2), NodeRole::Leader, &s),
        Err(ConfigError::Unavailable { reason: "feature_not_activated".to_string() })
    );
    assert_eq!(
        n.mutate(Ok(()), &app(), b"k", None, Decision::Allow, None, NodeRole::Leader, &s),
        Ok(())
    );
    n.stopped = true;
    assert_eq!(
        n.mutate(Ok(()), &app(), b"k", None, Decision::Allow, None, NodeRole::Leader, &s),
        Err(ConfigError::Unavailable { reason: "stopped".to_string() })
    );
    assert_eq!(
        n.read(Ok(()), &app(), b"k", None, Decision::Allow),
        Err(ConfigError::Unavailable { reason: "stopped".to_string() })
    );
}

#[test]
fn stamps_are_bound_to_the_authenticated_principal() {
    let forged = DedupStamp { client_id: [1; 16], request_id: 9, principal: [0xee; 32] };
    let bound = bind_principal(Some(forged), [0x11; 32]).unwrap();
    assert_eq!(bound.principal, [0x11; 32]);
    assert_eq!((bound.client_id, bound.request_id), ([1; 16], 9));
    assert_eq!(bind_principal(None, [0x11; 32]), None);
}

#[test]
fn watches_are_validated_authorized_and_confirmed() {
    let mut n = node();
    let request = |prefix: usize, ms: Option<u64>| WatchRequest {
        prefix: vec![b'p'; prefix],
        start_after_revision: 0,
        progress_interval: ms.map(Duration::from_millis),
    };
    assert_eq!(
        n.watch(&app(), &request(3, None), None, Decision::Allow),
        Ok(Duration::from_secs(5))
    );
    assert_eq!(
        n.watch(&app(), &request(3, Some(200)), None, Decision::Allow),
        Ok(Duration::from_millis(200))
    );
    assert_eq!(
        n.watch(&app(), &request(65, None), None, Decision::Allow),
        Err(ConfigError::InvalidArgument {
            detail: "watch prefix is 65 bytes, over the 64 byte key cap".to_string()
        })
    );
    assert_eq!(
        n.watch(&app(), &request(3, Some(99)), None, Decision::Allow),
        Err(ConfigError::InvalidArgument {
            detail: "progress_interval 99ms is outside the accepted range 100ms..3600000ms"
                .to_string()
        })
    );
    let mut w = hub();
    assert!(n
        .watch_confirmed(Barrier::TimedOut, &members(&[1]), &mut w)
        .is_err());
    assert_eq!(w.state, HubState::NotLeader { hint: None });
    assert!(n.watch_confirmed(Barrier::Reached, &members(&[1]), &mut w).is_ok());
    assert_eq!(w.state, HubState::Serving);
}

#[test]
fn compaction_is_a_write_to_everything() {
    let mut n = node();
    let s = store(&[1]);
    assert_eq!(
        n.propose_compact(&app(), 12, None, Decision::Allow, None, NodeRole::Leader, &s),
        Ok(CompactCommand { up_to_revision: 12, dedup_trim_below: None })
    );
    assert_eq!(operator_compaction(u64::MAX).dedup_trim_below, None);
    assert_eq!(
        n.propose_compact(
            &app(),
            12,
            None,
            Decision::Deny { reason: "no".to_string() },
            None,
            NodeRole::Leader,
            &s
        ),
        Err(ConfigError::PermissionDenied {
            detail: "principal \"app\" may not Write key_hex= (no)".to_string()
        })
    );
}

// ---------------- schema gate ----------------

#[test]
fn the_gate_waits_for_every_voter() {
    let mut n = node();
    let mut s = store(&[1, 2, 3]);
    let closed = Err(ConfigError::Unavailable { reason: "feature_not_activated".to_string() });
    assert_eq!(n.schema_gate(gate(2), NodeRole::Leader, &s), closed);
    assert_eq!(n.gate_logged_at.get("dedup"), Some(&1));
    // Off the leader, and for commands that need nothing, there is no gate.
    assert_eq!(n.schema_gate(gate(2), NodeRole::Follower, &s), Ok(()));
    assert_eq!(n.schema_gate(None, NodeRole::Leader, &s), Ok(()));
    n.peer_schemas.record(NodeId(2), SchemaTriple::current());
    assert_eq!(n.schema_gate(gate(2), NodeRole::Leader, &s), closed);
    n.peer_schemas.record(NodeId(3), SchemaTriple::current());
    assert_eq!(n.schema_gate(gate(2), NodeRole::Leader, &s), Ok(()));
    assert_eq!(
        n.cluster_min_schema(NodeRole::Leader, &s.membership.voters),
        Some(SchemaTriple::current())
    );
    // A voter that says it is older closes it again, even once the generation was applied.
    n.peer_schemas.record(NodeId(3), SchemaTriple::compat_1());
    s.max_applied_command_schema = 2;
    assert_eq!(n.schema_gate(gate(2), NodeRole::Leader, &s), closed);
    assert!(n.a_voter_reports_below(&s.membership.voters, 2));
}

#[test]
fn a_silent_voter_does_not_close_an_open_gate() {
    let mut n = node();
    let mut s = store(&[1, 2, 3]);
    s.max_applied_command_schema = 2;
    n.peer_schemas.record(NodeId(2), SchemaTriple::current());
    // Node 3 was never heard from.
    assert_eq!(n.schema_gate(gate(2), NodeRole::Leader, &s), Ok(()));
    assert_eq!(
        n.cluster_min_schema(NodeRole::Leader, &s.membership.voters),
        Some(SchemaTriple::compat_1())
    );
    assert_eq!(n.cluster_min_schema(NodeRole::Follower, &s.membership.voters), None);
}

#[test]
fn refusals_are_noted_once_for_each_minimum() {
    let mut n = node();
    assert!(n.note_feature_gated("dedup", SchemaTriple::compat_1()));
    assert!(!n.note_feature_gated("dedup", SchemaTriple::compat_1()));
    assert!(n.note_feature_gated("retire", SchemaTriple::compat_1()));
    assert!(n.note_feature_gated("dedup", SchemaTriple::current()));
}

#[test]
fn a_refusal_by_the_schema_gate_is_news_once() {
    let mut n = node();
    let s = store(&[1, 2]);
    let line = FeatureGated {
        feature: "dedup",
        cluster_min_schema: 1,
        schema: SchemaTriple::current().command_schema,
    };
    assert!(n.schema_gate(gate(2), NodeRole::Leader, &s).is_err());
    assert_eq!(n.take_gate_news(), vec![line]);
    // Neither the same refusal again nor another path to it is news.
    assert!(n.schema_gate(gate(2), NodeRole::Leader, &s).is_err());
    assert!(!n.retention_gate(gate(2), NodeRole::Leader, &s));
    assert!(n
        .mutate(Ok(()), &app(), b"k", None, Decision::Allow, gate(2), NodeRole::Leader, &s)
        .is_err());
    assert!(n.propose_retire(gate(2), NodeRole::Leader, &s).is_err());
    assert_eq!(n.take_gate_news(), vec![]);
    // Another feature is.
    let retire = Some(CommandGate { feature: "retire", command_schema: 2 });
    assert!(n.propose_retire(retire, NodeRole::Leader, &s).is_err());
    assert_eq!(n.take_gate_news(), vec![FeatureGated { feature: "retire", ..line }]);
}

#[test]
fn the_authorizer_is_asked_only_where_it_has_a_say() {
    let ready = node();
    assert!(ready.consults(true, None));
    assert!(!ready.consults(false, None), "an invalid request is refused before");
    let bare = node_with(AuthzKind::Missing);
    assert!(!bare.consults(true, None), "there is no policy to ask");
    // One record for a valid request, of the decision in force.
    assert_eq!(ready.audited(true, None, Decision::Allow), Some(Decision::Allow));
    assert_eq!(ready.audited(false, None, Decision::Allow), None);
    let denied = Decision::Deny {
        reason: "node is not ready to authorize: policy is missing".to_string(),
    };
    assert_eq!(bare.audited(true, None, Decision::Allow), Some(denied));
}

#[test]
fn activation_is_announced_once() {
    let mut n = node();
    let s = store(&[1, 2]);
    assert!(!n.sample_schema_activation(NodeRole::Leader, &s));
    n.peer_schemas.record(NodeId(2), SchemaTriple::current());
    assert!(!n.sample_schema_activation(NodeRole::Follower, &s));
    assert!(n.sample_schema_activation(NodeRole::Leader, &s));
    assert!(!n.sample_schema_activation(NodeRole::Leader, &s));
}

// ---------------- membership ----------------

fn leading() -> RaftView {
    let mut r = raft(NodeRole::Leader, Some(1));
    r.effective = effective(&[1, 2, 3], &[4]);
    r.replication = Some(BTreeMap::from([(1, Some(100)), (2, Some(100)), (4, Some(60))]));
    r
}

#[test]
fn reports_are_authoritative_only_on_the_leader() {
    let n = node();
    let s = store(&[1, 2, 3]);
    let r = n.membership_report(&leading(), &s);
    assert!(r.authoritative);
    assert_eq!(r.learners.iter().copied().collect::<Vec<_>>(), vec![4]);
    assert_eq!(r.leader_last_log_index, 100);
    assert_eq!(r.lag_of(NodeId(4)), Some(40));
    assert_eq!(r.lag_of(NodeId(1)), None);
    assert_eq!(r.effective_endpoints[&4], ("inproc://4".to_string(), "client://4".to_string()));
    assert!(!r.is_joint());
    let mut follower = leading();
    follower.role = NodeRole::Follower;
    let r = n.membership_report(&follower, &s);
    assert!(!r.authoritative && r.replication.is_empty());
    assert_eq!(r.leader_last_log_index, 0);
    assert_eq!(n.replication_lag(&leading(), &s, NodeId(4)), Some(40));
    assert_eq!(n.replication_lag(&follower, &s, NodeId(4)), None);
}

#[test]
fn a_peer_that_was_never_heard_from_has_no_lag() {
    let mut n = node();
    n.cfg.promote_max_lag = 99;
    let s = store(&[1, 2, 3]);
    let mut r = leading();
    r.replication = Some(BTreeMap::from([(1, Some(100)), (4, None)]));
    let report = n.membership_report(&r, &s);
    assert_eq!(report.replication[&4].matched_index, None);
    assert_eq!(report.replication[&4].lag, 100, "it lags by the whole log");
    assert_eq!(report.lag_of(NodeId(4)), None);
    assert_eq!(n.replication_lag(&r, &s, NodeId(4)), None);
    // A promotion still goes by the whole log.
    assert!(matches!(
        n.promote_voter(&r, &s, NodeId(4)),
        Err(AdminError::Lagging { node_id: NodeId(4), lag: 100, .. })
    ));
}

#[test]
fn white_space_is_what_unicode_says() {
    let spaces: Vec<u32> = (0x09..=0x0d)
        .chain([0x20, 0x85, 0xa0, 0x1680])
        .chain(0x2000..=0x200a)
        .chain([0x2028, 0x2029, 0x202f, 0x205f, 0x3000])
        .collect();
    let mut text = String::new();
    for c in '\u{0}'..=char::MAX {
        text.clear();
        text.push(c);
        assert_eq!(is_blank(&text), spaces.contains(&(c as u32)), "{c:?}");
    }
}

#[test]
fn learners_are_added_by_the_leader_only() {
    let n = node();
    let s = store(&[1, 2, 3]);
    let add = |r: &RaftView, s: &StoreView, id: u64, peer: &str, client: &str| {
        n.add_learner(r, s, NodeId(id), peer.to_string(), client.to_string())
    };
    assert_eq!(
        add(&leading(), &s, 5, "p", "c"),
        Ok(RaftNode { peer: "p".to_string(), client: "c".to_string() })
    );
    assert_eq!(
        add(&raft(NodeRole::Follower, Some(2)), &s, 5, "p", "c"),
        Err(AdminError::NotLeader {
            hint: Some(LeaderHint { node_id: NodeId(2), endpoint: "client://2".to_string() })
        })
    );
    let detail = |r: Result<RaftNode, AdminError>| match r {
        Err(AdminError::InvalidArgument { detail }) => detail,
        other => panic!("{other:?}"),
    };
    assert!(detail(add(&leading(), &s, 1, "p", "c")).starts_with("already_a_member: "));
    assert!(detail(add(&leading(), &s, 5, " \t\u{3000}", "c")).starts_with("endpoint_required: "));
    assert!(detail(add(&leading(), &s, 5, "p", "")).starts_with("endpoint_required: "));
    assert_eq!(detail(add(&leading(), &s, 2, "p", "c")), "already_a_voter: node 2 is already a voter");
    let mut retired = store(&[1, 2, 3]);
    retired.retired.insert(5);
    assert_eq!(
        add(&leading(), &retired, 5, "p", "c"),
        Err(AdminError::Retired { node_id: NodeId(5) })
    );
    assert!(is_blank("") && is_blank(" \n\t") && !is_blank(" x "));
}

#[test]
fn promotion_needs_a_caught_up_learner() {
    let mut n = node();
    let s = store(&[1, 2, 3]);
    assert_eq!(n.promote_voter(&leading(), &s, NodeId(4)), Ok(None));
    n.cfg.promote_max_lag = 39;
    assert_eq!(
        n.promote_voter(&leading(), &s, NodeId(4)),
        Err(AdminError::Lagging { node_id: NodeId(4), lag: 40, max: 39 })
    );
    assert_eq!(
        n.promote_voter(&leading(), &s, NodeId(2)),
        Ok(Some(Some(LogIdView::new(1, 4))))
    );
    assert_eq!(
        n.promote_voter(&leading(), &s, NodeId(9)),
        Err(AdminError::NotAMember { node_id: NodeId(9) })
    );
    let mut silent = leading();
    silent.replication = Some(BTreeMap::new());
    assert_eq!(
        n.promote_voter(&silent, &s, NodeId(4)),
        Err(AdminError::Lagging { node_id: NodeId(4), lag: 100, max: 39 })
    );
    let mut joint = leading();
    joint.effective.joint_config_len = 2;
    assert!(matches!(
        n.promote_voter(&joint, &s, NodeId(4)),
        Err(AdminError::Unavailable { .. })
    ));
    let mut retired = store(&[1, 2, 3]);
    retired.retired.insert(4);
    assert_eq!(
        n.promote_voter(&leading(), &retired, NodeId(4)),
        Err(AdminError::Retired { node_id: NodeId(4) })
    );
}

#[test]
fn removal_demotes_drops_and_fences() {
    let mut n = node();
    let s = store(&[1, 2, 3]);
    let first = n.remove_member(&leading(), &s, NodeId(2)).unwrap();
    assert_eq!(first, RemovalStep::Demote);
    let m = members(&[1, 2, 3]);
    let second =
        ConfigNode::remove_next(first, ChangeOutcome::Done(LogIdView::new(5, 101)), &m).unwrap();
    assert_eq!(second, RemovalStep::Drop);
    let third =
        ConfigNode::remove_next(second, ChangeOutcome::Done(LogIdView::new(5, 102)), &m).unwrap();
    assert_eq!(third, RemovalStep::Fence { last: Some(LogIdView::new(5, 102)) });
    assert_eq!(n.propose_retire(None, NodeRole::Leader, &s), Ok(()));
    assert_eq!(
        ConfigNode::remove_result(Some(LogIdView::new(5, 102)), RetireOutcome::Retired, &m),
        Ok(Some(LogIdView::new(5, 102)))
    );
    assert_eq!(n.remove_member(&leading(), &s, NodeId(4)), Ok(RemovalStep::Drop));
    // Cut short after the drop: only the fence is left.
    assert_eq!(
        n.remove_member(&leading(), &s, NodeId(9)),
        Ok(RemovalStep::Fence { last: Some(LogIdView::new(1, 4)) })
    );
    // Out and fenced: nothing is left.
    let mut done = store(&[1, 2, 3]);
    done.retired.insert(9);
    assert_eq!(
        n.remove_member(&leading(), &done, NodeId(9)),
        Ok(RemovalStep::Done { last: None })
    );
    assert!(matches!(
        n.remove_member(&leading(), &s, NodeId(1)),
        Err(AdminError::InvalidArgument { .. })
    ));
}

#[test]
fn failed_changes_are_classified() {
    let m = members(&[1, 2]);
    let fail = |f| ConfigNode::remove_next(RemovalStep::Drop, ChangeOutcome::Failed(f), &m);
    assert_eq!(
        fail(ChangeFailure::ForwardToLeader { leader: Some(NodeId(2)) }),
        Err(AdminError::NotLeader {
            hint: Some(LeaderHint { node_id: NodeId(2), endpoint: "client://2".to_string() })
        })
    );
    assert_eq!(
        fail(ChangeFailure::Refused { detail: "learner not found".to_string() }),
        Err(AdminError::Raft("learner not found".to_string()))
    );
    assert_eq!(
        fail(ChangeFailure::Fatal(Fatal::Stopped)),
        Err(AdminError::Fatal("raft stopped".to_string()))
    );
}

#[test]
fn fences_that_fail_say_how() {
    let m = members(&[1, 2]);
    let finish = |o| ConfigNode::remove_result(None, o, &m);
    assert_eq!(
        finish(RetireOutcome::TimedOut).unwrap_err().reason(),
        "unavailable"
    );
    assert_eq!(
        finish(RetireOutcome::Rejected { reason: "unknown".to_string() }),
        Err(AdminError::InvalidArgument { detail: "unknown".to_string() })
    );
    assert_eq!(
        finish(RetireOutcome::Other { debug: "Noop".to_string() }),
        Err(AdminError::Fatal("the state machine answered Noop for a RetireNode entry".to_string()))
    );
    let mut n = node();
    assert_eq!(
        n.propose_retire(gate(2), NodeRole::Leader, &store(&[1, 2])),
        Err(AdminError::Unavailable { reason: "unavailable: feature_not_activated".to_string() })
    );
}

#[test]
fn admin_errors_speak_to_clients_too() {
    let about = |e: AdminError| ConfigError::from(e).describe();
    assert_eq!(
        about(AdminError::Retired { node_id: NodeId(3) }),
        "invalid argument: node_retired: node 3 was retired and cannot rejoin"
    );
    assert_eq!(
        about(AdminError::Lagging { node_id: NodeId(3), lag: 7, max: 5 }),
        "unavailable: learner_lagging: node 3 lag 7 exceeds 5"
    );
    assert_eq!(
        about(AdminError::NotAMember { node_id: NodeId(3) }),
        "invalid argument: not_a_member: node 3 is not in this cluster"
    );
    assert_eq!(about(AdminError::AlreadyInProgress), "unavailable: snapshot_build_in_progress");
    assert_eq!(about(AdminError::Raft("x".to_string())), "unavailable: x");
    assert_eq!(about(AdminError::Fatal("x".to_string())), "fatal storage error: x");
    assert_eq!(AdminError::Raft("x".to_string()).reason(), "raft_refused");
    assert_eq!(
        AdminError::Lagging { node_id: NodeId(3), lag: 7, max: 5 }.describe(),
        "node 3 lags the leader by 7 entries, more than promote_max_lag 5"
    );
}

#[test]
fn snapshots_are_requested_once() {
    let mut n = node();
    assert_eq!(n.trigger_snapshot(0), Ok(None));
    assert_eq!(n.trigger_snapshot(1), Ok(Some(SnapshotTriggered::AlreadyInProgress)));
    n.stopped = true;
    assert_eq!(
        n.trigger_snapshot(0),
        Err(AdminError::Unavailable { reason: "stopped".to_string() })
    );
    let before = Some("s-1".to_string());
    let at = Some(LogIdView::new(2, 3));
    assert_eq!(ConfigNode::snapshot_poll(&before, Some(("s-1".to_string(), at)), false), None);
    assert_eq!(
        ConfigNode::snapshot_poll(&before, Some(("s-2".to_string(), at)), false),
        Some(SnapshotTriggered::Started { snapshot_id: Some("s-2".to_string()), last_log_id: at })
    );
    assert_eq!(
        ConfigNode::snapshot_poll(&before, None, true),
        Some(SnapshotTriggered::Started { snapshot_id: None, last_log_id: None })
    );
}

// ---------------- upkeep ----------------

#[test]
fn only_a_leader_keeps_receipts() {
    let mut n = node();
    n.cfg.watch_retention.max_age = Duration::from_secs(10);
    let mut s = store(&[1]);
    assert!(matches!(
        n.evaluate_retention(Some(NodeId(1)), &s, 1_000),
        RetentionStep::Idle
    ));
    assert_eq!(n.receipts, vec![(40, 1_000)]);
    // The same revision again is no news.
    let _ = n.evaluate_retention(Some(NodeId(1)), &s, 2_000);
    assert_eq!(n.receipts, vec![(40, 1_000)]);
    s.cluster_revision = 50;
    let _ = n.evaluate_retention(Some(NodeId(1)), &s, 3_000);
    assert_eq!(n.receipts, vec![(40, 1_000), (50, 3_000)]);
    // Revision 40 is older than the limit now.
    assert_eq!(
        n.evaluate_retention(Some(NodeId(1)), &s, 11_000),
        RetentionStep::Propose(Compaction {
            up_to_revision: 40,
            dedup_trim_below: Some(41),
            reason: RetentionReason::Age,
        })
    );
    let _ = n.evaluate_retention(Some(NodeId(2)), &s, 12_000);
    assert!(n.receipts.is_empty());
}

#[test]
fn retention_follows_its_ceilings() {
    let mut n = node();
    let s = store(&[1]);
    n.cfg.watch_retention.max_revisions = 10;
    n.cfg.limits.dedup.enabled = false;
    assert_eq!(
        n.evaluate_retention(Some(NodeId(1)), &s, 1),
        RetentionStep::Propose(Compaction {
            up_to_revision: 30,
            dedup_trim_below: None,
            reason: RetentionReason::Revisions,
        })
    );
    let mut unreadable = store(&[1]);
    unreadable.journal = None;
    assert_eq!(n.evaluate_retention(Some(NodeId(1)), &unreadable, 2), RetentionStep::Idle);
    assert!(n.retention_gate(None, NodeRole::Leader, &s));
    assert!(!n.retention_gate(gate(2), NodeRole::Leader, &store(&[1, 2])));
    n.stopped = true;
    assert_eq!(n.evaluate_retention(Some(NodeId(1)), &s, 3), RetentionStep::Idle);
}

#[test]
fn receipts_are_bounded() {
    let mut n = node();
    let mut s = store(&[1]);
    for i in 0..1_100u64 {
        s.cluster_revision = i + 1;
        let _ = n.evaluate_retention(Some(NodeId(1)), &s, i);
    }
    assert_eq!(n.receipts.len(), 1024);
    assert_eq!(n.receipts[0], (77, 76));
    assert_eq!(n.receipts[1023], (1_100, 1_099));
}

fn envelope() -> PeerEnvelopeMeta {
    PeerEnvelopeMeta {
        cluster_id: ClusterId::from_bytes([7; 16]),
        recovery_epoch: RecoveryEpoch(3),
        from: NodeId(2),
        to: NodeId(1),
        trace_id: "t".to_string(),
    }
}

#[test]
fn envelopes_are_checked_before_the_payload() {
    let mut n = node();
    assert_eq!(n.handle(&envelope(), false), Ok(()));
    let mut e = envelope();
    e.cluster_id = ClusterId::from_bytes([8; 16]);
    e.recovery_epoch = RecoveryEpoch(9);
    assert!(matches!(n.handle(&e, true), Err(PeerReject::WrongCluster { .. })));
    let mut e = envelope();
    e.recovery_epoch = RecoveryEpoch(9);
    assert_eq!(
        n.handle(&e, true),
        Err(PeerReject::WrongEpoch { expected: RecoveryEpoch(3), got: RecoveryEpoch(9) })
    );
    let mut e = envelope();
    e.to = NodeId(5);
    assert_eq!(
        n.handle(&e, true),
        Err(PeerReject::WrongDestination { expected: NodeId(1), got: NodeId(5) })
    );
    assert_eq!(n.authn_rejected_peer.identity_retired, 0);
    assert_eq!(n.handle(&envelope(), true), Err(PeerReject::Retired { node_id: NodeId(2) }));
    assert_eq!(n.authn_rejected_peer.identity_retired, 1);
    n.stopped = true;
    assert_eq!(n.handle(&envelope(), false), Err(PeerReject::NotRunning));
    assert_eq!(ConfigNode::handled::<u8>(Ok(3)), Ok(3));
    assert_eq!(
        ConfigNode::handled::<u8>(Err("x".to_string())),
        Err(PeerReject::Raft("x".to_string()))
    );
}

#[test]
fn a_node_that_was_never_formed_is_idle() {
    let n = node();
    let idle = store(&[]);
    for leader in [None, Some(1), Some(2)] {
        let health = n.health(&raft(NodeRole::Learner, leader), &idle, None);
        assert_eq!(health, Health::Unavailable { reason: "cluster is not formed".to_string() });
    }
    assert!(!n.is_ready(&idle, None));
}

#[test]
fn promoting_a_voter_again_changes_nothing() {
    let n = node();
    let again = n.promote_voter(&leading(), &store(&[1, 2, 3]), NodeId(2));
    assert_eq!(again, Ok(Some(Some(LogIdView::new(1, 4)))));
}

#[test]
fn a_node_without_a_policy_never_reads_as_permissive() {
    for kind in [AuthzKind::Missing, AuthzKind::Invalid, AuthzKind::NoValidPolicy] {
        assert!(!kind.is_present());
        assert_ne!(kind.to_capability(None), Authz::Development);
    }
    assert_eq!(AuthzKind::Development.to_capability(None), Authz::Development);
}
