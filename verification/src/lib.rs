//! The decisions of one node of a replicated configuration service: formation, client requests,
//! membership, watches, pagination, retention and what the node reports of itself.
//!
//! The Raft core, the store and the network are observed from outside and handed in as plain
//! values. What is decided from them is stated in contracts and proved.
//!
//! Three rules hold throughout.
//!
//! 1. No implicit formation. Starting a node forms nothing, and a plan is accepted only by the
//!    right node on an untouched store: [`node::formation::formation_is_safe`].
//! 2. No stale reads. Nothing is read from applied state unless a quorum has just confirmed that
//!    this node leads: [`node::outcome::no_read_without_the_barrier`].
//! 3. Gossip decides nothing. An observation is accepted only as far as committed membership says
//!    the same: [`node::gossip_adds_nothing`].

pub mod admin;
pub mod admission;
pub mod bytes;
pub mod capabilities;
pub mod clock;
pub mod config;
pub mod counters;
pub mod delivery;
pub mod direct;
pub mod error;
pub mod exposition;
pub mod handoff;
pub mod headers;
pub mod hint;
pub mod listing;
pub mod metrics;
pub mod netfault;
pub mod network;
pub mod node;
pub mod number;
pub mod pagination;
pub mod render;
pub mod retention;
pub mod scrape;
pub mod storage;
pub mod testing;
pub mod text;
pub mod textmap;
pub mod time;
pub mod transport;
pub mod types;
pub mod watch;

pub use config::{AuthzKind, NodeConfig, RaftTimers, MAX_PAYLOAD_ENTRIES};
pub use direct::DirectClient;
pub use error::{EngineError, FormationError, FormationPlan, Timeout};
pub use hint::{
    validate_hint, HintVerdict, REASON_CLUSTER_MISMATCH, REASON_ENDPOINT_MISMATCH,
    REASON_EPOCH_MISMATCH, REASON_NOT_FORMED, REASON_SELF_CLAIM, REASON_UNKNOWN_NODE,
};
pub use metrics::{
    Health, HealthPayload, LogIdView, MembershipView, NodeMetrics, NodeRole, PolicySummary,
};
pub use netfault::NetFault;
pub use node::ConfigNode;
pub use testing::InProcTransport;
pub use transport::{PeerEnvelopeMeta, PeerReject, PeerRequest, PeerResponse, TransportError};
