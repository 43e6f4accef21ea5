//! Node configuration.

use sha2::Digest;
use vstd::prelude::*;

use crate::admin::DEFAULT_PROMOTE_MAX_LAG;
use crate::text;
use crate::time::Duration;
use crate::transport::SchemaTriple;
use crate::types::ClusterIdentity;
use crate::types::Limits;
use crate::types::WatchRetention;
use crate::watch::DEFAULT_PROGRESS_INTERVAL_MS;

verus! {

/// How many log entries one replication call may carry. A transport sizes its receive cap for
/// the largest message a leader can build, and this is what makes that cap small.
pub const MAX_PAYLOAD_ENTRIES: u64 = 16;

/// Raft timing, in milliseconds.
#[derive(Clone, Copy, PartialEq, Eq, Structural, Debug)]
pub struct RaftTimers {
    /// Leader heartbeat interval.
    pub heartbeat_ms: u64,
    /// Minimum election timeout; must be greater than the heartbeat interval.
    pub election_min_ms: u64,
    /// Maximum election timeout; must be greater than the minimum.
    pub election_max_ms: u64,
}

impl Default for RaftTimers {
    fn default() -> (t: Self)
        ensures
            t == RaftTimers::standard(),
    {
        RaftTimers { heartbeat_ms: 250, election_min_ms: 750, election_max_ms: 1500 }
    }
}

impl RaftTimers {
    /// The timers of a node that sets none.
    pub open spec fn standard() -> RaftTimers {
        RaftTimers { heartbeat_ms: 250, election_min_ms: 750, election_max_ms: 1500 }
    }

    /// The maximum election timeout.
    pub fn election_timeout(&self) -> (d: Duration)
        ensures
            d.nanos == self.election_max_ms * 1_000_000,
    {
        Duration::from_millis(self.election_max_ms)
    }
}

/// How the client plane is protected.
#[derive(Clone, Copy, PartialEq, Eq, Structural, Debug)]
pub enum TransportSecurity {
    /// Not at all.
    Insecure,
    /// Mutual TLS.
    MutualTls,
}

/// The authorization models a node can enforce.
#[derive(Clone, Copy, PartialEq, Eq, Structural, Debug)]
pub enum Authz {
    /// Everything is allowed.
    Development,
    /// A static prefix allowlist.
    StaticAllowlist,
    /// A signed policy document, with its version when one is in force.
    SignedPolicy { version: Option<u64> },
}

/// Which authorization model the node was wired with.
///
/// `Missing` and `Invalid` are not the absence of authorization but its failure: a node wired
/// with either is never ready and denies every client call.
#[derive(Clone, Copy, PartialEq, Eq, Structural, Debug)]
pub enum AuthzKind {
    /// Everything is allowed; for development only.
    Development,
    /// The deployment-managed static prefix allowlist.
    StaticAllowlist,
    /// A policy was required and none was supplied.
    Missing,
    /// A policy was supplied but could not be parsed or validated.
    Invalid,
    /// A signed policy document is in force.
    SignedPolicy,
    /// Signed policies are required and no valid document is held.
    NoValidPolicy,
}

impl AuthzKind {
    /// Whether an authorization model is in force.
    pub open spec fn in_force(self) -> bool {
        self is Development || self is StaticAllowlist || self is SignedPolicy
    }

    /// Whether policies are signed.
    pub open spec fn signed(self) -> bool {
        self is SignedPolicy || self is NoValidPolicy
    }

    /// The name of a model.
    pub open spec fn name(self) -> Seq<char> {
        match self {
            AuthzKind::Development => "development"@,
            AuthzKind::StaticAllowlist => "static_allowlist"@,
            AuthzKind::Missing => "missing"@,
            AuthzKind::Invalid => "invalid"@,
            AuthzKind::SignedPolicy => "signed_policy"@,
            AuthzKind::NoValidPolicy => "no_valid_policy"@,
        }
    }

    /// What a node reports as its model. `Missing` and `Invalid` enforce no model of their own
    /// and report the one that denies everything, so a policy-less node is never mistaken for a
    /// permissive one.
    pub open spec fn capability(self, policy_version: Option<u64>) -> Authz {
        match self {
            AuthzKind::Development => Authz::Development,
            AuthzKind::StaticAllowlist | AuthzKind::Missing | AuthzKind::Invalid =>
                Authz::StaticAllowlist,
            AuthzKind::SignedPolicy | AuthzKind::NoValidPolicy => Authz::SignedPolicy {
                version: policy_version,
            },
        }
    }

    /// Whether an authorization model is in force. Without one the node is unready and denies
    /// every client call.
    pub fn is_present(self) -> (r: bool)
        ensures
            r == self.in_force(),
    {
        match self {
            AuthzKind::Development => true,
            AuthzKind::StaticAllowlist => true,
            AuthzKind::SignedPolicy => true,
            _ => false,
        }
    }

    /// Whether policies are signed.
    pub fn is_signed_mode(self) -> (r: bool)
        ensures
            r == self.signed(),
    {
        match self {
            AuthzKind::SignedPolicy => true,
            AuthzKind::NoValidPolicy => true,
            _ => false,
        }
    }

    /// Stable name for log and health fields.
    pub fn as_str(self) -> (r: &'static str)
        ensures
            r@ == self.name(),
    {
        match self {
            AuthzKind::Development => "development",
            AuthzKind::StaticAllowlist => "static_allowlist",
            AuthzKind::Missing => "missing",
            AuthzKind::Invalid => "invalid",
            AuthzKind::SignedPolicy => "signed_policy",
            AuthzKind::NoValidPolicy => "no_valid_policy",
        }
    }

    /// What a node reports as its model, given the policy version in force.
    pub fn to_capability(self, policy_version: Option<u64>) -> (r: Authz)
        ensures
            r == self.capability(policy_version),
    {
        match self {
            AuthzKind::Development => Authz::Development,
            AuthzKind::StaticAllowlist => Authz::StaticAllowlist,
            AuthzKind::Missing => Authz::StaticAllowlist,
            AuthzKind::Invalid => Authz::StaticAllowlist,
            AuthzKind::SignedPolicy => Authz::SignedPolicy { version: policy_version },
            AuthzKind::NoValidPolicy => Authz::SignedPolicy { version: policy_version },
        }
    }
}

impl From<AuthzKind> for Authz {
    fn from(k: AuthzKind) -> (r: Self) {
        k.to_capability(None)
    }
}

impl vstd::std_specs::convert::FromSpecImpl<AuthzKind> for Authz {
    open spec fn obeys_from_spec() -> bool {
        true
    }

    open spec fn from_spec(k: AuthzKind) -> Authz {
        k.capability(None)
    }
}

/// The SHA-256 digest of a byte string.
pub uninterp spec fn sha256(data: Seq<u8>) -> Seq<u8>;

/// `sha2::Sha256::digest`. Its result is a function of the bytes alone; what that function is,
/// is left unsaid.
#[verifier::external_body]
fn sha256_digest(data: &[u8]) -> (r: [u8; 32])
    ensures
        r@ == sha256(data@),
{
    sha2::Sha256::digest(data).into()
}

/// The two addresses of a member, as committed membership holds them.
#[derive(Clone, PartialEq, Eq, Debug)]
pub struct RaftNode {
    /// Where peers reach it.
    pub peer: String,
    /// Where clients reach it.
    pub client: String,
}

/// The settings of a node's Raft core. Snapshots are never built, so the log is never purged.
#[derive(Clone, PartialEq, Eq, Debug)]
pub struct RaftSettings {
    /// A name for log lines.
    pub cluster_name: String,
    /// Milliseconds between heartbeats.
    pub heartbeat_interval: u64,
    /// Minimum election timeout in milliseconds.
    pub election_timeout_min: u64,
    /// Maximum election timeout in milliseconds.
    pub election_timeout_max: u64,
    /// Entries one replication call may carry.
    pub max_payload_entries: u64,
    /// Entries kept below a snapshot.
    pub max_in_snapshot_log_to_keep: u64,
    /// Entries purged at once.
    pub purge_batch_size: u64,
}

impl RaftSettings {
    /// What is wrong with the settings, if anything: the election timeouts do not leave a range,
    /// an election can begin before a heartbeat is due, or no entry could ever be replicated.
    pub open spec fn fault(&self) -> Option<Seq<char>> {
        if self.election_timeout_min >= self.election_timeout_max {
            Some(
                "election timeout: min("@ + text::decimal(self.election_timeout_min as nat)
                    + ") must be < max("@ + text::decimal(self.election_timeout_max as nat)
                    + ")"@,
            )
        } else if self.election_timeout_min <= self.heartbeat_interval {
            Some(
                "election_timeout_min("@ + text::decimal(self.election_timeout_min as nat)
                    + ") must be > heartbeat_interval("@ + text::decimal(
                    self.heartbeat_interval as nat,
                ) + ")"@,
            )
        } else if self.max_payload_entries == 0 {
            Some("max_payload_entries must be > 0"@)
        } else {
            None
        }
    }

    /// `openraft::Config::validate`, on a configuration with these settings and the defaults for
    /// the rest. It checks the election timeouts against each other, then against the heartbeat
    /// interval, then the payload size, and its error's text names the first that is wrong.
    #[verifier::external_body]
    pub(crate) fn validate(&self) -> (r: Result<(), String>)
        ensures
            match r {
                Ok(_) => self.fault() is None,
                Err(e) => self.fault() == Some(e@),
            },
    {
        let config = openraft::Config {
            heartbeat_interval: self.heartbeat_interval,
            election_timeout_min: self.election_timeout_min,
            election_timeout_max: self.election_timeout_max,
            max_payload_entries: self.max_payload_entries,
            ..openraft::Config::default()
        };
        config.validate().map(|_| ()).map_err(|e| format!("{e}"))
    }
}

/// Everything one node needs that is not a collaborator.
pub struct NodeConfig {
    /// Cluster, epoch, and this node's id.
    pub identity: ClusterIdentity,
    /// The peer endpoint this node advertises.
    pub peer_endpoint: String,
    /// The client endpoint this node advertises; `None` means the same as the peer endpoint.
    pub client_endpoint: Option<String>,
    /// Raft timing.
    pub raft: RaftTimers,
    /// Caps that every voter applies alike.
    pub limits: Limits,
    /// How long a linearizable read may take.
    pub read_timeout: Duration,
    /// How long a write may take before its outcome is unknown.
    pub write_timeout: Duration,
    /// How often the gossip source is polled.
    pub gossip_poll: Duration,
    /// Which authorization model was wired.
    pub authz_kind: AuthzKind,
    /// How many grant rules the allowlist holds.
    pub policy_grants: u64,
    /// The digest of the policy document, when there was one.
    pub policy_document_sha256: Option<[u8; 32]>,
    /// How the client plane is protected.
    pub transport_security: TransportSecurity,
    /// The cluster's name for log lines.
    pub cluster_name: String,
    /// What this node advertises to its peers.
    pub schema: SchemaTriple,
    /// How far a learner may lag and still be promoted.
    pub promote_max_lag: u64,
    /// When the leader compacts its journal.
    pub watch_retention: WatchRetention,
    /// The progress interval of watches that ask for none.
    pub watch_progress_interval: Duration,
}

impl NodeConfig {
    /// Authorization that allows everything, insecure transport, default timers.
    pub fn new(identity: ClusterIdentity, peer_endpoint: String, limits: Limits) -> (c: Self)
        ensures
            c.identity == identity,
            c.peer_endpoint == peer_endpoint,
            c.client_endpoint is None,
            c.raft == RaftTimers::standard(),
            c.limits == limits,
            c.read_timeout.nanos == 5_000_000_000,
            c.write_timeout.nanos == 10_000_000_000,
            c.gossip_poll.nanos == 1_000_000_000,
            c.authz_kind == AuthzKind::Development,
            c.policy_grants == 0,
            c.policy_document_sha256 is None,
            c.transport_security == TransportSecurity::Insecure,
            c.cluster_name@ == "retcd"@,
            c.schema == SchemaTriple::newest(),
            c.promote_max_lag == DEFAULT_PROMOTE_MAX_LAG,
            c.watch_retention.max_revisions == 0,
            c.watch_retention.max_bytes == 0,
            c.watch_retention.max_age.nanos == 86_400_000_000_000,
            c.watch_retention.check_interval.nanos == 60_000_000_000,
            c.watch_progress_interval.nanos == DEFAULT_PROGRESS_INTERVAL_MS * 1_000_000,
    {
        NodeConfig {
            identity,
            peer_endpoint,
            client_endpoint: None,
            raft: RaftTimers::default(),
            limits,
            read_timeout: Duration::from_secs(5),
            write_timeout: Duration::from_secs(10),
            gossip_poll: Duration::from_secs(1),
            authz_kind: AuthzKind::Development,
            policy_grants: 0,
            policy_document_sha256: None,
            transport_security: TransportSecurity::Insecure,
            cluster_name: "retcd".to_owned(),
            schema: SchemaTriple::current(),
            promote_max_lag: DEFAULT_PROMOTE_MAX_LAG,
            watch_retention: WatchRetention {
                max_revisions: 0,
                max_bytes: 0,
                max_age: Duration::from_secs(86_400),
                check_interval: Duration::from_secs(60),
            },
            watch_progress_interval: Duration::from_millis(DEFAULT_PROGRESS_INTERVAL_MS),
        }
    }

    /// Record the policy document this node was configured from: the digest of its bytes. Nodes
    /// given the same bytes hold the same digest.
    pub fn with_policy_document(self, document: &[u8]) -> (c: Self)
        ensures
            c.policy_document_sha256 is Some,
            c.policy_document_sha256->Some_0@ == sha256(document@),
            c == (NodeConfig { policy_document_sha256: c.policy_document_sha256, ..self }),
    {
        let digest = sha256_digest(document);
        NodeConfig { policy_document_sha256: Some(digest), ..self }
    }

    /// Record how many grant rules the allowlist holds.
    pub fn with_policy_grants(self, grants: u64) -> (c: Self)
        ensures
            c == (NodeConfig { policy_grants: grants, ..self }),
    {
        NodeConfig { policy_grants: grants, ..self }
    }

    /// The client endpoint this node advertises.
    pub open spec fn advertised(&self) -> Seq<char> {
        match self.client_endpoint {
            Some(e) => e@,
            None => self.peer_endpoint@,
        }
    }

    /// The client endpoint this node advertises: its own, or else the peer endpoint.
    pub fn client_endpoint(&self) -> (r: &str)
        ensures
            r@ == self.advertised(),
    {
        match &self.client_endpoint {
            Some(e) => e.as_str(),
            None => self.peer_endpoint.as_str(),
        }
    }

    /// The membership entry this configuration implies.
    pub fn raft_node(&self) -> (n: RaftNode)
        ensures
            n.peer@ == self.peer_endpoint@,
            n.client@ == self.advertised(),
    {
        RaftNode { peer: self.peer_endpoint.clone(), client: self.client_endpoint().to_owned() }
    }

    /// What is wrong with the settings this configuration implies, if anything.
    pub open spec fn settings_fault(&self) -> Option<Seq<char>> {
        (RaftSettings {
            cluster_name: self.cluster_name,
            heartbeat_interval: self.raft.heartbeat_ms,
            election_timeout_min: self.raft.election_min_ms,
            election_timeout_max: self.raft.election_max_ms,
            max_payload_entries: MAX_PAYLOAD_ENTRIES,
            max_in_snapshot_log_to_keep: u64::MAX,
            purge_batch_size: 1,
        }).fault()
    }

    /// The settings of the Raft core this node runs with.
    pub fn openraft_config(&self) -> (s: RaftSettings)
        ensures
            s.cluster_name@ == self.cluster_name@,
            s.heartbeat_interval == self.raft.heartbeat_ms,
            s.election_timeout_min == self.raft.election_min_ms,
            s.election_timeout_max == self.raft.election_max_ms,
            s.max_payload_entries == MAX_PAYLOAD_ENTRIES,
            s.max_in_snapshot_log_to_keep == u64::MAX,
            s.purge_batch_size == 1,
            s.fault() == self.settings_fault(),
    {
        RaftSettings {
            cluster_name: self.cluster_name.clone(),
            heartbeat_interval: self.raft.heartbeat_ms,
            election_timeout_min: self.raft.election_min_ms,
            election_timeout_max: self.raft.election_max_ms,
            max_payload_entries: MAX_PAYLOAD_ENTRIES,
            max_in_snapshot_log_to_keep: u64::MAX,
            purge_batch_size: 1,
        }
    }
}

/// A node that sets no timers starts with ones the Raft core accepts, whatever else it sets.
pub proof fn default_timers_are_sound(cfg: NodeConfig)
    requires
        cfg.raft == RaftTimers::standard(),
    ensures
        cfg.settings_fault() is None,
{
}

/// Only a node that enforces the permissive development model reports it: one without a usable
/// policy is never mistaken for it.
pub proof fn a_missing_policy_is_never_permissive(kind: AuthzKind, policy_version: Option<u64>)
    ensures
        kind.capability(policy_version) is Development <==> kind is Development,
        !kind.in_force() ==> !(kind.capability(policy_version) is Development),
{
}

/// Settings hold together exactly when a heartbeat is due before an election can begin, elections
/// have a range to begin in, and entries can be replicated.
pub proof fn settings_hold_together(cfg: NodeConfig, settings: RaftSettings)
    ensures
        settings.fault() is None <==> settings.heartbeat_interval < settings.election_timeout_min
            < settings.election_timeout_max && settings.max_payload_entries > 0,
        cfg.settings_fault() is None <==> cfg.raft.heartbeat_ms < cfg.raft.election_min_ms
            < cfg.raft.election_max_ms,
{
}

/// A node advertises the client address it was given, and its peer address if it was given none.
pub proof fn a_node_advertises_where_it_serves(cfg: NodeConfig)
    ensures
        cfg.client_endpoint matches Some(e) ==> cfg.advertised() == e@,
        cfg.client_endpoint is None ==> cfg.advertised() == cfg.peer_endpoint@,
{
}

/// A model is reported as what it enforces: development only as such, a signed policy with the
/// version in force, and everything else as an allowlist.
pub proof fn a_model_is_reported_as_what_it_enforces(
    kind: AuthzKind,
    policy_version: Option<u64>,
)
    ensures
        kind.capability(policy_version) is Development <==> kind is Development,
        kind.capability(policy_version) matches Authz::SignedPolicy { version } ==> version
            == policy_version && (kind is SignedPolicy || kind is NoValidPolicy),
        kind is SignedPolicy || kind is NoValidPolicy ==> kind.capability(policy_version)
            is SignedPolicy,
        kind.in_force() <==> kind is Development || kind is StaticAllowlist || kind is SignedPolicy,
        kind.signed() <==> kind is SignedPolicy || kind is NoValidPolicy,
{
}

/// Models of authorization have different names.
pub proof fn models_are_told_apart(a: AuthzKind, b: AuthzKind)
    ensures
        a.name() == b.name() ==> a == b,
{
    reveal_strlit("development");
    reveal_strlit("static_allowlist");
    reveal_strlit("missing");
    reveal_strlit("invalid");
    reveal_strlit("signed_policy");
    reveal_strlit("no_valid_policy");
    assert(a.name().len() == b.name().len() && a.name()[0] == b.name()[0] ==> a == b);
}

} // verus!
