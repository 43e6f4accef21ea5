//! The node: its lifecycle, what it reports of itself, and what it does with what it observes.
//!
//! A node never forms a cluster by itself, never answers a read that a quorum has not confirmed,
//! and never lets gossip decide anything. Everything here is a decision over plain values: what
//! the Raft core and the store said, and what the node remembers.

use std::collections::BTreeMap;
use vstd::prelude::*;

use crate::capabilities;
use crate::capabilities::Capabilities;
use crate::capabilities::WatchResumption;
use crate::config::AuthzKind;
use crate::config::NodeConfig;
use crate::delivery::HubState;
use crate::delivery::HubStateModel;
use crate::error::EngineError;
use crate::error::EngineErrorModel;
use crate::hint;
use crate::hint::HintVerdict;
use crate::hint::ObservedPeerHint;
use crate::metrics;
use crate::metrics::AuthnRejectReason;
use crate::metrics::AuthnRejection;
use crate::metrics::Health;
use crate::metrics::HealthModel;
use crate::metrics::LatencyHistogram;
use crate::metrics::MembershipView;
use crate::metrics::NodeMetrics;
use crate::metrics::OpLatencies;
use crate::metrics::PolicySummary;
use crate::node::observed::RaftView;
use crate::node::observed::StoreView;
use crate::node::schema::FeatureGated;
use crate::storage::Durability;
use crate::text;
use crate::textmap::TextMap;
use crate::transport::PeerSchemas;
use crate::transport::SchemaTriple;
use crate::types;
use crate::types::ClusterIdentity;
use crate::types::IdentityMismatch;
use crate::types::LeaderHint;
use crate::types::Limits;
use crate::types::NodeId;
use crate::types::Pagination;
use crate::watch::WatchHub;

pub mod formation;
pub mod members;
pub mod observed;
pub mod outcome;
pub mod report;
pub mod requests;
pub mod schema;
pub mod upkeep;

verus! {

/// Authentication rejections of one plane, by reason.
#[derive(Clone, Copy, PartialEq, Eq, Structural, Debug)]
pub struct AuthnCounts {
    /// Certificates that yield no principal.
    pub no_principal: u64,
    /// Identities that were retired.
    pub identity_retired: u64,
}

impl AuthnCounts {
    /// The counts after one more rejection.
    pub open spec fn after(self, reason: AuthnRejectReason) -> AuthnCounts {
        match reason {
            AuthnRejectReason::NoPrincipal => AuthnCounts {
                no_principal: metrics::counted(self.no_principal, 1),
                ..self
            },
            AuthnRejectReason::IdentityRetired => AuthnCounts {
                identity_retired: metrics::counted(self.identity_retired, 1),
                ..self
            },
        }
    }

    /// The rejections in all.
    pub open spec fn total(self) -> u64 {
        metrics::counted(self.no_principal, self.identity_retired as nat)
    }

    /// Count one rejection.
    pub fn count(&mut self, reason: AuthnRejectReason)
        ensures
            *final(self) == old(self).after(reason),
    {
        match reason {
            AuthnRejectReason::NoPrincipal => {
                self.no_principal = metrics::count_up(self.no_principal, 1);
            },
            AuthnRejectReason::IdentityRetired => {
                self.identity_retired = metrics::count_up(self.identity_retired, 1);
            },
        }
    }
}

/// One node: its configuration and what it remembers between two observations.
pub struct ConfigNode {
    /// The configuration.
    pub cfg: NodeConfig,
    /// Whether the node was stopped.
    pub stopped: bool,
    /// Authorization decisions refused.
    pub authz_denied: u64,
    /// Admin-plane calls refused.
    pub authz_denied_admin: u64,
    /// Authentication rejections on the client plane.
    pub authn_rejected_client: AuthnCounts,
    /// Authentication rejections on the peer plane.
    pub authn_rejected_peer: AuthnCounts,
    /// Revisions and when this leader saw them, newest last. Not replicated: a new leader starts
    /// with none, and so proposes no compaction by age of history it did not see arrive.
    pub receipts: Vec<(u64, u64)>,
    /// Observed leadership transitions.
    pub leader_changes: u64,
    /// The leader last observed.
    pub last_seen_leader: Option<NodeId>,
    /// Gossip hints refused.
    pub gossip_endpoint_mismatch: u64,
    /// Gossip hints that agreed with committed membership, by node. For telemetry only.
    pub accepted: BTreeMap<u64, ObservedPeerHint>,
    /// Submit-to-commit latency of writes.
    pub proposal_latency: OpLatencies,
    /// Latency of reads.
    pub read_latency: LatencyHistogram,
    /// What each peer last advertised.
    pub peer_schemas: PeerSchemas,
    /// Whether the activation of this build's schema was announced.
    pub schema_activated: bool,
    /// The minimum at which each gated feature was last refused.
    pub gate_logged_at: TextMap<u16>,
    /// Refusals that are worth a line and were not handed out yet, oldest first.
    pub gate_news: Vec<FeatureGated>,
}

/// Most receipts a leader keeps.
pub const MAX_RETENTION_SAMPLES: usize = 1024;

/// How many of `hints` disagree with committed membership.
pub open spec fn refused_hints(
    hints: Seq<ObservedPeerHint>,
    membership: MembershipView,
    identity: ClusterIdentity,
) -> nat
    decreases hints.len(),
{
    if hints.len() == 0 {
        0
    } else {
        refused_hints(hints.drop_last(), membership, identity) + if hint::hint_verdict(
            hints.last(),
            membership,
            identity,
        ) is Accepted {
            0nat
        } else {
            1nat
        }
    }
}

/// The hints that agree with committed membership, by node: the last one of each.
pub open spec fn agreeing_hints(
    hints: Seq<ObservedPeerHint>,
    membership: MembershipView,
    identity: ClusterIdentity,
) -> Map<u64, ObservedPeerHint>
    decreases hints.len(),
{
    if hints.len() == 0 {
        Map::empty()
    } else {
        let before = agreeing_hints(hints.drop_last(), membership, identity);
        if hint::hint_verdict(hints.last(), membership, identity) is Accepted {
            before.insert(hints.last().node_id.0, hints.last())
        } else {
            before
        }
    }
}

/// Why a node does not start, if it does not.
pub open spec fn start_refusal(
    runtime: bool,
    cfg: NodeConfig,
    stored: ClusterIdentity,
) -> Option<EngineErrorModel> {
    if !runtime {
        Some(EngineErrorModel::NoRuntime)
    } else if stored != cfg.identity {
        Some(
            EngineErrorModel::Storage(
                (IdentityMismatch { stored, configured: cfg.identity }).text(),
            ),
        )
    } else {
        match cfg.settings_fault() {
            Some(fault) => Some(EngineErrorModel::Raft(fault)),
            None => None,
        }
    }
}

impl ConfigNode {
    /// The receipts are few and ascend, and the refusal log is sound.
    pub open spec fn wf(&self) -> bool {
        &&& self.receipts@.len() <= MAX_RETENTION_SAMPLES
        &&& forall|i: int, j: int|
            0 <= i < j < self.receipts@.len() ==> (#[trigger] self.receipts@[i]).0 < (
            #[trigger] self.receipts@[j]).0
        &&& self.gate_logged_at.wf()
    }

    /// Every authentication counter, the client plane's first.
    pub open spec fn rejections(&self) -> Seq<AuthnRejection> {
        seq![
            AuthnRejection {
                plane: "client",
                reason: AuthnRejectReason::NoPrincipal,
                count: self.authn_rejected_client.no_principal,
            },
            AuthnRejection {
                plane: "client",
                reason: AuthnRejectReason::IdentityRetired,
                count: self.authn_rejected_client.identity_retired,
            },
            AuthnRejection {
                plane: "peer",
                reason: AuthnRejectReason::NoPrincipal,
                count: self.authn_rejected_peer.no_principal,
            },
            AuthnRejection {
                plane: "peer",
                reason: AuthnRejectReason::IdentityRetired,
                count: self.authn_rejected_peer.identity_retired,
            },
        ]
    }

    /// The authorization model in force, given the version of the signed policy. A signed node
    /// that adopts a document becomes ready without a restart; every other model is fixed by the
    /// configuration.
    pub open spec fn kind_now(&self, policy_version: Option<u64>) -> AuthzKind {
        if !self.cfg.authz_kind.signed() {
            self.cfg.authz_kind
        } else if policy_version is Some {
            AuthzKind::SignedPolicy
        } else {
            AuthzKind::NoValidPolicy
        }
    }

    /// Whether the node serves client traffic.
    pub open spec fn serves(&self, store: StoreView, policy_version: Option<u64>) -> bool {
        &&& !self.stopped
        &&& self.kind_now(policy_version).in_force()
        &&& !store.poisoned
        &&& store.membership.formed()
    }

    /// What the node does with client traffic.
    pub open spec fn health_now(
        &self,
        raft: RaftView,
        store: StoreView,
        policy_version: Option<u64>,
    ) -> HealthModel {
        if self.stopped {
            HealthModel::Stopped
        } else if raft.fatal is Some {
            HealthModel::Unavailable { reason: "raft core stopped: "@ + raft.fatal->Some_0@ }
        } else if !self.kind_now(policy_version).in_force() {
            HealthModel::Unavailable {
                reason: "authorization policy is "@ + self.kind_now(policy_version).name(),
            }
        } else if store.poisoned {
            HealthModel::Unavailable { reason: "storage is poisoned"@ }
        } else if !store.membership.formed() {
            HealthModel::Unavailable { reason: "cluster is not formed"@ }
        } else {
            match raft.current_leader {
                Some(id) => if id == self.cfg.identity.node_id {
                    HealthModel::Ready
                } else {
                    HealthModel::NotLeader { hint: outcome::hint_of(store.membership, id) }
                },
                None => HealthModel::Unavailable { reason: "no leader known"@ },
            }
        }
    }

    /// Start a node on a store bound to `stored`, inside a runtime or not. Starting forms
    /// nothing: a node that is never handed a plan stays idle.
    ///
    /// The node's own schema is recorded at once. A leader never calls itself, so without this it
    /// would count its own as the first generation for good.
    pub fn start(runtime: bool, cfg: NodeConfig, stored: ClusterIdentity) -> (r: Result<
        ConfigNode,
        EngineError,
    >)
        ensures
            match r {
                Ok(n) => {
                    &&& start_refusal(runtime, cfg, stored) is None
                    &&& n.wf()
                    &&& n.cfg == cfg
                    &&& !n.stopped
                    &&& n.authz_denied == 0
                    &&& n.authz_denied_admin == 0
                    &&& n.authn_rejected_client == (AuthnCounts {
                        no_principal: 0,
                        identity_retired: 0,
                    })
                    &&& n.authn_rejected_peer == n.authn_rejected_client
                    &&& n.receipts@.len() == 0
                    &&& n.leader_changes == 0
                    &&& n.last_seen_leader is None
                    &&& n.gossip_endpoint_mismatch == 0
                    &&& n.accepted@ == Map::<u64, ObservedPeerHint>::empty()
                    &&& n.proposal_latency.put.is_empty()
                    &&& n.proposal_latency.delete.is_empty()
                    &&& n.read_latency.is_empty()
                    &&& n.peer_schemas@ == Map::<u64, SchemaTriple>::empty().insert(
                        cfg.identity.node_id.0,
                        cfg.schema,
                    )
                    &&& !n.schema_activated
                    &&& n.gate_logged_at@ == Map::<Seq<char>, u16>::empty()
                    &&& n.gate_news@ == Seq::<FeatureGated>::empty()
                },
                Err(e) => start_refusal(runtime, cfg, stored) == Some(e@),
            },
    {
        if !runtime {
            return Err(EngineError::NoRuntime);
        }
        if stored != cfg.identity {
            let mismatch = IdentityMismatch { stored, configured: cfg.identity };
            return Err(EngineError::Storage(mismatch.describe()));
        }
        if let Err(fault) = cfg.openraft_config().validate() {
            return Err(EngineError::Raft(fault));
        }
        let mut peer_schemas = PeerSchemas::default();
        peer_schemas.record(cfg.identity.node_id, cfg.schema);
        Ok(
            ConfigNode {
                cfg,
                stopped: false,
                authz_denied: 0,
                authz_denied_admin: 0,
                authn_rejected_client: AuthnCounts { no_principal: 0, identity_retired: 0 },
                authn_rejected_peer: AuthnCounts { no_principal: 0, identity_retired: 0 },
                receipts: Vec::new(),
                leader_changes: 0,
                last_seen_leader: None,
                gossip_endpoint_mismatch: 0,
                accepted: BTreeMap::new(),
                proposal_latency: OpLatencies::default(),
                read_latency: LatencyHistogram::default(),
                peer_schemas,
                schema_activated: false,
                gate_logged_at: TextMap::new(),
                gate_news: Vec::new(),
            },
        )
    }

    /// Connect a started node to its watch hub. A signed node is ready for the hub's purposes
    /// even without a document, as its authorizer denies everything until one arrives. A hub
    /// that has a store already keeps it.
    pub fn connect(&self, watch: &mut WatchHub, compact_revision: u64)
        ensures
            *final(watch) == (WatchHub {
                authz_ready: self.cfg.authz_kind.in_force() || self.cfg.authz_kind.signed(),
                attached: true,
                compact_revision: if old(watch).attached {
                    old(watch).compact_revision
                } else {
                    crate::counters::greater(old(watch).compact_revision, compact_revision)
                },
                ..*old(watch)
            }),
    {
        watch.set_authz_ready(
            self.cfg.authz_kind.is_present() || self.cfg.authz_kind.is_signed_mode(),
        );
        watch.attach(compact_revision);
    }

    /// Stop the node; whether there was anything to stop. The streams are told before the Raft
    /// core goes away, so that they end as unavailable and not as a redirect.
    pub fn stop(&mut self, watch: &mut WatchHub) -> (first: bool)
        ensures
            first == !old(self).stopped,
            *final(self) == (ConfigNode { stopped: true, ..*old(self) }),
            *final(watch) == (if first {
                WatchHub { state: HubState::Stopped, ..*old(watch) }
            } else {
                *old(watch)
            }),
    {
        if self.stopped {
            return false;
        }
        self.stopped = true;
        watch.shutdown();
        true
    }

    /// What came of shutting the Raft core down.
    pub fn stop_result(shutdown: Result<(), String>) -> (r: Result<(), EngineError>)
        ensures
            match shutdown {
                Ok(_) => r is Ok,
                Err(e) => r matches Err(x) && x@ == EngineErrorModel::Raft(e@),
            },
    {
        match shutdown {
            Ok(_) => Ok(()),
            Err(e) => Err(EngineError::Raft(e)),
        }
    }

    /// This node's identity.
    pub fn identity(&self) -> (r: ClusterIdentity)
        ensures
            r == self.cfg.identity,
    {
        self.cfg.identity
    }

    /// The caps this node applies.
    pub fn limits(&self) -> (r: Limits)
        ensures
            r == self.cfg.limits,
    {
        self.cfg.limits
    }

    /// What this node advertises to its peers.
    pub fn local_schema(&self) -> (r: SchemaTriple)
        ensures
            r == self.cfg.schema,
    {
        self.cfg.schema
    }

    /// Whether the node was stopped.
    pub fn is_stopped(&self) -> (r: bool)
        ensures
            r == self.stopped,
    {
        self.stopped
    }

    /// The authorization model in force.
    pub fn authz_kind(&self, policy_version: Option<u64>) -> (r: AuthzKind)
        ensures
            r == self.kind_now(policy_version),
    {
        if !self.cfg.authz_kind.is_signed_mode() {
            return self.cfg.authz_kind;
        }
        if policy_version.is_some() {
            AuthzKind::SignedPolicy
        } else {
            AuthzKind::NoValidPolicy
        }
    }

    /// Whether this node serves client traffic: it was not stopped, an authorization model is in
    /// force, its store is sound and its membership is known.
    pub fn is_ready(&self, store: &StoreView, policy_version: Option<u64>) -> (r: bool)
        ensures
            r == self.serves(*store, policy_version),
    {
        !self.stopped && self.authz_kind(policy_version).is_present() && !store.poisoned
            && store.membership.is_formed()
    }

    /// What this node does with client traffic right now.
    pub fn health(&self, raft: &RaftView, store: &StoreView, policy_version: Option<u64>) -> (r:
        Health)
        ensures
            r@ == self.health_now(*raft, *store, policy_version),
    {
        if self.stopped {
            return Health::Stopped;
        }
        if let Some(fatal) = &raft.fatal {
            return Health::Unavailable { reason: text::two("raft core stopped: ", fatal.as_str()) };
        }
        let kind = self.authz_kind(policy_version);
        if !kind.is_present() {
            return Health::Unavailable {
                reason: text::two("authorization policy is ", kind.as_str()),
            };
        }
        if store.poisoned {
            return Health::Unavailable { reason: "storage is poisoned".to_owned() };
        }
        if !store.membership.is_formed() {
            return Health::Unavailable { reason: "cluster is not formed".to_owned() };
        }
        match raft.current_leader {
            Some(id) => if id == self.cfg.identity.node_id {
                Health::Ready
            } else {
                Health::NotLeader { hint: outcome::hint_for(&store.membership, id) }
            },
            None => Health::Unavailable { reason: "no leader known".to_owned() },
        }
    }

    /// The leader this node believes in, at its committed client endpoint.
    pub fn leader_hint(raft: &RaftView, store: &StoreView) -> (r: Option<LeaderHint>)
        ensures
            types::hint_model(r) == (match raft.current_leader {
                Some(id) => outcome::hint_of(store.membership, id),
                None => None,
            }),
    {
        match raft.current_leader {
            Some(id) => outcome::hint_for(&store.membership, id),
            None => None,
        }
    }

    /// Every authentication counter, also those at zero.
    pub fn authn_rejections(&self) -> (r: Vec<AuthnRejection>)
        ensures
            r@ == self.rejections(),
    {
        let mut out: Vec<AuthnRejection> = Vec::new();
        out.push(
            AuthnRejection {
                plane: "client",
                reason: AuthnRejectReason::NoPrincipal,
                count: self.authn_rejected_client.no_principal,
            },
        );
        out.push(
            AuthnRejection {
                plane: "client",
                reason: AuthnRejectReason::IdentityRetired,
                count: self.authn_rejected_client.identity_retired,
            },
        );
        out.push(
            AuthnRejection {
                plane: "peer",
                reason: AuthnRejectReason::NoPrincipal,
                count: self.authn_rejected_peer.no_principal,
            },
        );
        out.push(
            AuthnRejection {
                plane: "peer",
                reason: AuthnRejectReason::IdentityRetired,
                count: self.authn_rejected_peer.identity_retired,
            },
        );
        out
    }

    /// Whether `m` is this node's Raft and storage state.
    pub open spec fn shows(&self, raft: RaftView, store: StoreView, m: NodeMetrics) -> bool {
        &&& m.node_id == self.cfg.identity.node_id
        &&& m.role == raft.role
        &&& m.current_term == raft.current_term
        &&& m.current_leader == raft.current_leader
        &&& m.last_log_index == raft.last_log_index
        &&& m.last_applied == raft.last_applied
        &&& m.raft_log_len == store.raft_log_len
        &&& crate::listing::lists_set(
            m.membership_voter_ids@.map_values(|n: NodeId| n.0),
            raft.effective.voters@,
        )
        &&& m.membership_log_id == raft.effective.log_id
        &&& m.cluster_revision == store.cluster_revision
        &&& m.applied_commands == store.applied_commands
        &&& m.running_state_ok == (raft.fatal is None)
        &&& m.millis_since_quorum_ack == raft.millis_since_quorum_ack
        &&& m.authz_denied == self.authz_denied
        &&& m.authz_denied_admin == self.authz_denied_admin
        &&& m.authn_rejected == metrics::counted(
            self.authn_rejected_client.total(),
            self.authn_rejected_peer.total() as nat,
        )
        &&& m.authn_rejected_peer == self.authn_rejected_peer.total()
        &&& m.authn_rejected_by_reason@ == self.rejections()
    }

    /// A snapshot of this node's Raft and storage state.
    pub fn metrics(&self, raft: &RaftView, store: &StoreView) -> (m: NodeMetrics)
        ensures
            self.shows(*raft, *store, m),
    {
        let peer: u64 = metrics::count_up(
            self.authn_rejected_peer.no_principal,
            self.authn_rejected_peer.identity_retired,
        );
        let client: u64 = metrics::count_up(
            self.authn_rejected_client.no_principal,
            self.authn_rejected_client.identity_retired,
        );
        NodeMetrics {
            node_id: self.cfg.identity.node_id,
            role: raft.role,
            current_term: raft.current_term,
            current_leader: raft.current_leader,
            last_log_index: raft.last_log_index,
            last_applied: raft.last_applied,
            raft_log_len: store.raft_log_len,
            membership_voter_ids: observed::node_ids(&raft.effective.voters),
            membership_log_id: raft.effective.log_id,
            cluster_revision: store.cluster_revision,
            applied_commands: store.applied_commands,
            running_state_ok: raft.fatal.is_none(),
            millis_since_quorum_ack: raft.millis_since_quorum_ack,
            authz_denied: self.authz_denied,
            authz_denied_admin: self.authz_denied_admin,
            authn_rejected: metrics::count_up(client, peer),
            authn_rejected_peer: peer,
            authn_rejected_by_reason: self.authn_rejections(),
        }
    }

    /// The policy this node holds. Only an allowlist in force has grants to report.
    pub fn policy_summary(&self, policy_version: Option<u64>) -> (p: PolicySummary)
        ensures
            p.kind == self.kind_now(policy_version).capability(policy_version),
            p.grants == (if self.kind_now(policy_version) is StaticAllowlist {
                self.cfg.policy_grants
            } else {
                0
            }),
            match (p.policy_hash_hex, self.cfg.policy_document_sha256) {
                (Some(h), Some(digest)) => h@ == text::hex(digest@),
                (None, None) => true,
                _ => false,
            },
    {
        let kind = self.authz_kind(policy_version);
        PolicySummary {
            kind: kind.to_capability(policy_version),
            grants: match kind {
                AuthzKind::StaticAllowlist => self.cfg.policy_grants,
                _ => 0,
            },
            policy_hash_hex: match &self.cfg.policy_document_sha256 {
                Some(digest) => Some(observed::hex32(digest)),
                None => None,
            },
        }
    }

    /// What this node guarantees, as it is now and not as it was built.
    pub fn capabilities(&self, durability: Durability, policy_version: Option<u64>) -> (c:
        Capabilities)
        ensures
            c == (Capabilities {
                durability,
                watch_resumption: WatchResumption::Retained { compact_revision_visible: true },
                authz: self.kind_now(policy_version).capability(policy_version),
                transport_security: self.cfg.transport_security,
                pagination: Pagination::Unsupported,
                dedup: capabilities::dedup_of(self.cfg.limits),
            }),
    {
        Capabilities {
            durability,
            watch_resumption: WatchResumption::Retained { compact_revision_visible: true },
            authz: self.authz_kind(policy_version).to_capability(policy_version),
            transport_security: self.cfg.transport_security,
            pagination: Pagination::Unsupported,
            dedup: capabilities::dedup_capability(&self.cfg.limits),
        }
    }

    /// Record that a client's transport identity could not be established.
    pub fn record_authn_rejection(&mut self, reason: AuthnRejectReason)
        ensures
            *final(self) == (ConfigNode {
                authn_rejected_client: old(self).authn_rejected_client.after(reason),
                ..*old(self)
            }),
    {
        self.authn_rejected_client.count(reason);
    }

    /// Record an admin-plane refusal by the allowlist of admins.
    pub fn record_admin_authz_denial(&mut self)
        ensures
            *final(self) == (ConfigNode {
                authz_denied_admin: metrics::counted(old(self).authz_denied_admin, 1),
                ..*old(self)
            }),
    {
        self.authz_denied_admin = metrics::count_up(self.authz_denied_admin, 1);
    }

    /// Gossip hints that agreed with committed membership.
    pub fn accepted_hints(&self) -> (r: &BTreeMap<u64, ObservedPeerHint>)
        ensures
            *r == self.accepted,
    {
        &self.accepted
    }

    /// What the hub permits once it was told who leads.
    pub open spec fn hub_state(
        &self,
        leader: Option<NodeId>,
        membership: MembershipView,
        before: HubStateModel,
    ) -> HubStateModel {
        if self.stopped {
            HubStateModel::Stopped
        } else if leader == Some(self.cfg.identity.node_id) {
            HubStateModel::Serving
        } else if before is Stopped {
            HubStateModel::Stopped
        } else {
            HubStateModel::NotLeader {
                hint: match leader {
                    Some(id) => outcome::hint_of(membership, id),
                    None => None,
                },
            }
        }
    }

    /// Tell the hub who leads. Only a leader serves watches, so every observation decides about
    /// the open streams.
    pub fn publish_leader_state(
        &self,
        leader: Option<NodeId>,
        membership: &MembershipView,
        watch: &mut WatchHub,
    )
        ensures
            final(watch).state@ == self.hub_state(leader, *membership, old(watch).state@),
            *final(watch) == (WatchHub { state: final(watch).state, ..*old(watch) }),
    {
        if self.stopped {
            watch.shutdown();
            return ;
        }
        match leader {
            Some(id) => if id == self.cfg.identity.node_id {
                let _ = watch.note_leader();
            } else {
                let _ = watch.note_not_leader(outcome::hint_for(membership, id));
            },
            None => {
                let _ = watch.note_not_leader(None);
            },
        }
    }

    /// The node once it has sampled a leader.
    pub open spec fn having_seen(&self, current: Option<NodeId>) -> ConfigNode {
        ConfigNode {
            leader_changes: if current is Some && current != self.last_seen_leader {
                metrics::counted(self.leader_changes, 1)
            } else {
                self.leader_changes
            },
            last_seen_leader: if current is Some {
                current
            } else {
                self.last_seen_leader
            },
            ..*self
        }
    }

    /// Sample the leader this node believes in. A transition to another leader counts. Losing
    /// the leader does not, nor does an election that returns the same one.
    pub fn sample_leader(&mut self, current: Option<NodeId>)
        ensures
            *final(self) == old(self).having_seen(current),
    {
        if let Some(leader) = current {
            let same: bool = match self.last_seen_leader {
                Some(last) => last == leader,
                None => false,
            };
            if !same {
                self.leader_changes = metrics::count_up(self.leader_changes, 1);
                self.last_seen_leader = Some(leader);
            }
        }
    }

    /// One pass over what gossip observed. Nothing but the telemetry changes.
    pub fn poll_gossip(&mut self, hints: &Vec<ObservedPeerHint>, membership: &MembershipView)
        ensures
            final(self).accepted@ == agreeing_hints(
                hints@,
                *membership,
                old(self).cfg.identity,
            ),
            final(self).gossip_endpoint_mismatch == metrics::counted(
                old(self).gossip_endpoint_mismatch,
                refused_hints(hints@, *membership, old(self).cfg.identity),
            ),
            *final(self) == (ConfigNode {
                accepted: final(self).accepted,
                gossip_endpoint_mismatch: final(self).gossip_endpoint_mismatch,
                ..*old(self)
            }),
    {
        let identity = self.cfg.identity;
        let mut accepted: BTreeMap<u64, ObservedPeerHint> = BTreeMap::new();
        let mut mismatches: u64 = self.gossip_endpoint_mismatch;
        let mut i: usize = 0;
        while i < hints.len()
            invariant
                i <= hints@.len(),
                accepted@ == agreeing_hints(hints@.take(i as int), *membership, identity),
                mismatches == metrics::counted(
                    old(self).gossip_endpoint_mismatch,
                    refused_hints(hints@.take(i as int), *membership, identity),
                ),
            decreases hints@.len() - i,
        {
            assert(hints@.take(i + 1).drop_last() =~= hints@.take(i as int));
            match hint::validate_hint(&hints[i], membership, &identity) {
                HintVerdict::Accepted => {
                    accepted.insert(hints[i].node_id.0, hints[i].clone());
                },
                HintVerdict::Rejected { .. } => {
                    mismatches = metrics::count_up(mismatches, 1);
                },
            }
            i = i + 1;
        }
        assert(hints@.take(hints@.len() as int) =~= hints@);
        self.accepted = accepted;
        self.gossip_endpoint_mismatch = mismatches;
    }
}

/// A node reports itself ready as a leader only when it serves client traffic at all.
pub proof fn a_healthy_leader_is_ready(
    node: ConfigNode,
    raft: RaftView,
    store: StoreView,
    policy_version: Option<u64>,
)
    ensures
        node.health_now(raft, store, policy_version) is Ready ==> node.serves(
            store,
            policy_version,
        ),
        node.health_now(raft, store, policy_version) is NotLeader ==> node.serves(
            store,
            policy_version,
        ),
        node.serves(store, policy_version) && raft.fatal is None && raft.current_leader is Some
            ==> node.health_now(raft, store, policy_version) is Ready || node.health_now(
            raft,
            store,
            policy_version,
        ) is NotLeader,
{
}

/// A node without a policy in force is never ready and never healthy, whatever else holds.
pub proof fn no_policy_no_service(
    node: ConfigNode,
    raft: RaftView,
    store: StoreView,
    policy_version: Option<u64>,
)
    requires
        node.cfg.authz_kind is Missing || node.cfg.authz_kind is Invalid || (
        node.cfg.authz_kind.signed() && policy_version is None),
    ensures
        !node.serves(store, policy_version),
        !(node.health_now(raft, store, policy_version) is Ready),
        !(node.health_now(raft, store, policy_version) is NotLeader),
{
}

/// A node whose store holds no formed membership serves nothing and redirects nobody, whatever its
/// Raft core believes: without a plan it stays idle.
pub proof fn an_unformed_node_stays_idle(
    node: ConfigNode,
    raft: RaftView,
    store: StoreView,
    policy_version: Option<u64>,
)
    requires
        !store.membership.formed(),
    ensures
        !node.serves(store, policy_version),
        node.health_now(raft, store, policy_version) is Unavailable || node.health_now(
            raft,
            store,
            policy_version,
        ) is Stopped,
{
}

/// What gossip says is accepted only as far as committed membership says it already: every
/// accepted hint is of a committed voter and gives its committed endpoint.
pub proof fn gossip_adds_nothing(
    hints: Seq<ObservedPeerHint>,
    membership: MembershipView,
    identity: ClusterIdentity,
    node: u64,
)
    requires
        agreeing_hints(hints, membership, identity).contains_key(node),
    ensures
        membership.voters@.contains(node),
        node != identity.node_id.0,
        membership.endpoints@.contains_key(node),
        agreeing_hints(hints, membership, identity)[node].peer_endpoint@
            == membership.endpoints@[node]@,
    decreases hints.len(),
{
    if hints.len() > 0 {
        let last = hints.last();
        hint::an_accepted_hint_is_already_known(last, membership, identity);
        if hint::hint_verdict(last, membership, identity) is Accepted && last.node_id.0 == node {
        } else {
            gossip_adds_nothing(hints.drop_last(), membership, identity, node);
        }
    }
}

/// A node serves client traffic exactly while it runs with a policy in force, on a store that is
/// sound, in a cluster that is formed.
pub proof fn a_node_serves_exactly_when_it_can(
    node: ConfigNode,
    store: StoreView,
    policy_version: Option<u64>,
)
    ensures
        node.serves(store, policy_version) <==> {
            &&& !node.stopped
            &&& match node.cfg.authz_kind {
                AuthzKind::Development | AuthzKind::StaticAllowlist => true,
                AuthzKind::Missing | AuthzKind::Invalid => false,
                AuthzKind::SignedPolicy | AuthzKind::NoValidPolicy => policy_version is Some,
            }
            &&& !store.poisoned
            &&& exists|v: u64| store.membership.voters@.contains(v)
        },
{
    if store.membership.voters@ != Set::<u64>::empty() {
        if forall|v: u64| !store.membership.voters@.contains(v) {
            assert(store.membership.voters@ =~= Set::<u64>::empty());
        }
    }
}

/// Health tells what stands in the way, in one order: that the node was stopped, that its core
/// failed, its policy, its store, its formation, and that nobody leads. A node is ready exactly
/// when nothing does and it leads itself; with another leader it names that one.
pub proof fn health_is_what_it_says(
    node: ConfigNode,
    raft: RaftView,
    store: StoreView,
    policy_version: Option<u64>,
)
    ensures
        ({
            let health = node.health_now(raft, store, policy_version);
            let holds = match node.cfg.authz_kind {
                AuthzKind::Development | AuthzKind::StaticAllowlist => true,
                AuthzKind::Missing | AuthzKind::Invalid => false,
                AuthzKind::SignedPolicy | AuthzKind::NoValidPolicy => policy_version is Some,
            };
            let sound = !node.stopped && raft.fatal is None && holds && !store.poisoned
                && store.membership.voters@ != Set::<u64>::empty();
            &&& health is Stopped <==> node.stopped
            &&& health is Ready <==> sound && raft.current_leader == Some(
                node.cfg.identity.node_id,
            )
            &&& health is NotLeader <==> sound && raft.current_leader is Some
                && raft.current_leader != Some(node.cfg.identity.node_id)
            &&& health is Unavailable <==> !node.stopped && !(sound && raft.current_leader is Some)
            &&& health matches HealthModel::NotLeader { hint: Some(h) } ==> raft.current_leader
                == Some(h.node_id) && store.membership.client_endpoints@.contains_key(h.node_id.0)
                && h.endpoint == store.membership.client_endpoints@[h.node_id.0]@
        }),
{
}

/// A change of leadership counts exactly when another leader than the last one is seen. Losing the
/// leader does not, nor does finding the same one again: seeing a leader twice is seeing it once.
pub proof fn only_another_leader_counts(
    node: ConfigNode,
    leader: NodeId,
    other: NodeId,
)
    requires
        node.leader_changes < u64::MAX - 1,
        other != leader,
    ensures
        node.having_seen(None) == node,
        node.having_seen(Some(leader)).last_seen_leader == Some(leader),
        node.having_seen(Some(leader)).leader_changes == node.leader_changes + (if node.last_seen_leader
            == Some(leader) {
            0int
        } else {
            1
        }),
        node.having_seen(Some(leader)).having_seen(Some(leader)) == node.having_seen(Some(leader)),
        node.having_seen(Some(leader)).having_seen(None).having_seen(Some(leader))
            == node.having_seen(Some(leader)),
        node.having_seen(Some(leader)).having_seen(Some(other)).leader_changes == node.having_seen(
            Some(leader),
        ).leader_changes + 1,
{
}

/// The hub of a running node serves exactly while the node leads; otherwise its clients are sent
/// to the leader, as far as the membership knows where that is. A node that was stopped serves
/// none.
pub proof fn the_hub_serves_exactly_while_the_node_leads(
    node: ConfigNode,
    leader: Option<NodeId>,
    membership: MembershipView,
    before: HubStateModel,
)
    ensures
        ({
            let state = node.hub_state(leader, membership, before);
            &&& state is Serving <==> !node.stopped && leader == Some(node.cfg.identity.node_id)
            &&& node.stopped ==> state is Stopped
            &&& !node.stopped && !(before is Stopped) ==> !(state is Stopped)
            &&& state matches HubStateModel::NotLeader { hint } ==> match hint {
                Some(h) => leader == Some(h.node_id) && membership.client_endpoints@.contains_key(
                    h.node_id.0,
                ) && h.endpoint == membership.client_endpoints@[h.node_id.0]@,
                None => leader is None || !membership.client_endpoints@.contains_key(
                    leader->Some_0.0,
                ),
            }
        }),
{
}

/// A node starts exactly inside a runtime, on a store that is its own, with settings that hold
/// together.
pub proof fn a_node_starts_on_its_own_store(
    runtime: bool,
    cfg: NodeConfig,
    stored: ClusterIdentity,
)
    ensures
        start_refusal(runtime, cfg, stored) is None <==> {
            &&& runtime
            &&& stored.cluster_id == cfg.identity.cluster_id
            &&& stored.recovery_epoch == cfg.identity.recovery_epoch
            &&& stored.node_id == cfg.identity.node_id
            &&& cfg.raft.heartbeat_ms < cfg.raft.election_min_ms < cfg.raft.election_max_ms
        },
        start_refusal(runtime, cfg, stored) matches Some(e) ==> if !runtime {
            e is NoRuntime
        } else if stored != cfg.identity {
            e is Storage
        } else {
            e is Raft
        },
{
}

/// A rejection is counted under its own reason and once in all, and the reasons make up the total.
pub proof fn rejections_add_up(counts: AuthnCounts, reason: AuthnRejectReason)
    requires
        counts.no_principal + counts.identity_retired < u64::MAX,
    ensures
        counts.total() == counts.no_principal + counts.identity_retired,
        counts.after(reason).total() == counts.total() + 1,
        counts.after(reason).no_principal == counts.no_principal + (if reason is NoPrincipal {
            1int
        } else {
            0
        }),
        counts.after(reason).identity_retired == counts.identity_retired + (if reason
            is IdentityRetired {
            1int
        } else {
            0
        }),
{
}

/// Rejections are listed by plane and reason, each once, and the list makes up what is reported in
/// all.
pub proof fn every_rejection_is_listed(node: ConfigNode)
    requires
        node.authn_rejected_client.no_principal + node.authn_rejected_client.identity_retired
            + node.authn_rejected_peer.no_principal + node.authn_rejected_peer.identity_retired
            <= u64::MAX,
    ensures
        ({
            let list = node.rejections();
            &&& list.len() == 4
            &&& list[0].count + list[1].count + list[2].count + list[3].count == metrics::counted(
                node.authn_rejected_client.total(),
                node.authn_rejected_peer.total() as nat,
            )
            &&& list[2].count + list[3].count == node.authn_rejected_peer.total()
            &&& list[0].plane == list[1].plane && list[2].plane == list[3].plane
            &&& list[0].reason != list[1].reason && list[2].reason != list[3].reason
            &&& list[0].reason == list[2].reason
        }),
{
}

/// Every hint is judged: it is refused and counted, or it agrees with the membership and is kept,
/// the last of each node in place of those before.
pub proof fn every_hint_is_judged(
    hints: Seq<ObservedPeerHint>,
    hint: ObservedPeerHint,
    membership: MembershipView,
    identity: ClusterIdentity,
)
    ensures
        ({
            let agrees = {
                &&& hint.cluster_id == identity.cluster_id
                &&& hint.recovery_epoch == identity.recovery_epoch
                &&& hint.node_id != identity.node_id
                &&& membership.voters@.contains(hint.node_id.0)
                &&& membership.endpoints@.contains_key(hint.node_id.0)
                &&& membership.endpoints@[hint.node_id.0]@ == hint.peer_endpoint@
            };
            let before = agreeing_hints(hints, membership, identity);
            let after = agreeing_hints(hints.push(hint), membership, identity);
            &&& refused_hints(Seq::empty(), membership, identity) == 0
            &&& agreeing_hints(Seq::empty(), membership, identity) == Map::<
                u64,
                ObservedPeerHint,
            >::empty()
            &&& refused_hints(hints.push(hint), membership, identity) == refused_hints(
                hints,
                membership,
                identity,
            ) + (if agrees {
                0nat
            } else {
                1
            })
            &&& agrees ==> after.contains_key(hint.node_id.0) && after[hint.node_id.0] == hint
            &&& !agrees ==> after == before
            &&& forall|k: u64|
                k != hint.node_id.0 ==> (#[trigger] after.contains_key(k) <==> before.contains_key(
                    k,
                )) && after[k] == before[k]
        }),
{
    assert(hints.push(hint).drop_last() =~= hints);
    hint::an_accepted_hint_is_already_known(hint, membership, identity);
}

/// The metrics of a node show the node: its own identity and counters, what its core reports, and
/// what its store holds.
pub proof fn metrics_show_the_node(
    node: ConfigNode,
    raft: RaftView,
    store: StoreView,
    m: NodeMetrics,
    voter: u64,
)
    requires
        node.shows(raft, store, m),
        node.authn_rejected_client.no_principal + node.authn_rejected_client.identity_retired
            + node.authn_rejected_peer.no_principal + node.authn_rejected_peer.identity_retired
            <= u64::MAX,
    ensures
        m.node_id == node.cfg.identity.node_id,
        m.role == raft.role && m.current_term == raft.current_term && m.current_leader
            == raft.current_leader,
        m.last_log_index == raft.last_log_index && m.last_applied == raft.last_applied,
        m.millis_since_quorum_ack == raft.millis_since_quorum_ack,
        m.running_state_ok <==> raft.fatal is None,
        m.membership_log_id == raft.effective.log_id,
        (exists|i: int|
            0 <= i < m.membership_voter_ids@.len() && (#[trigger] m.membership_voter_ids@[i]).0
                == voter) <==> raft.effective.voters@.contains(voter),
        m.raft_log_len == store.raft_log_len && m.cluster_revision == store.cluster_revision
            && m.applied_commands == store.applied_commands,
        m.authz_denied == node.authz_denied && m.authz_denied_admin == node.authz_denied_admin,
        m.authn_rejected == node.authn_rejected_client.no_principal
            + node.authn_rejected_client.identity_retired + node.authn_rejected_peer.no_principal
            + node.authn_rejected_peer.identity_retired,
        m.authn_rejected_peer == node.authn_rejected_peer.no_principal
            + node.authn_rejected_peer.identity_retired,
{
    let ids = m.membership_voter_ids@.map_values(|n: NodeId| n.0);
    crate::listing::a_listing_has_every_member_once(ids, raft.effective.voters@, voter);
    if ids.contains(voter) {
        let i = choose|i: int| 0 <= i < ids.len() && ids[i] == voter;
        assert(m.membership_voter_ids@[i].0 == voter);
    }
    if exists|i: int|
        0 <= i < m.membership_voter_ids@.len() && (#[trigger] m.membership_voter_ids@[i]).0 == voter {
        let i = choose|i: int|
            0 <= i < m.membership_voter_ids@.len() && (#[trigger] m.membership_voter_ids@[i]).0
                == voter;
        assert(ids[i] == voter);
    }
}

} // verus!
