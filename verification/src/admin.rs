//! The admin plane's vocabulary: membership reports, the catch-up measure, and the refusals of
//! the learner lifecycle.

use std::collections::BTreeMap;
use std::collections::BTreeSet;
use vstd::prelude::*;

use crate::metrics::LogIdView;
use crate::metrics::MembershipView;
use crate::text;
use crate::types;
use crate::types::ConfigError;
use crate::types::ConfigErrorModel;
use crate::types::LeaderHint;
use crate::types::LeaderHintModel;
use crate::types::NodeId;

verus! {

/// How many log entries a learner may be missing and still be promotable, unless configured.
///
/// A lag rather than equality: a busy cluster never reaches lag zero.
pub const DEFAULT_PROMOTE_MAX_LAG: u64 = 100;

/// Why an administrative operation was refused. Every variant is a decision, never an unknown
/// outcome.
#[derive(PartialEq, Eq, Debug)]
pub enum AdminError {
    /// This node is not the leader.
    NotLeader { hint: Option<LeaderHint> },
    /// The node was retired and can never be added again.
    Retired { node_id: NodeId },
    /// The learner is too far behind to be promoted.
    Lagging { node_id: NodeId, lag: u64, max: u64 },
    /// The node is not in the membership this operation needs it to be in.
    NotAMember { node_id: NodeId },
    /// A snapshot build is already in flight.
    AlreadyInProgress,
    /// The request was malformed or contradicted this node's identity.
    InvalidArgument { detail: String },
    /// The operation could not be attempted; retrying later is safe.
    Unavailable { reason: String },
    /// The Raft core refused the change; nothing was committed.
    Raft(String),
    /// The Raft core is gone.
    Fatal(String),
}

/// What an [`AdminError`] says.
pub enum AdminErrorModel {
    NotLeader { hint: Option<LeaderHintModel> },
    Retired { node_id: NodeId },
    Lagging { node_id: NodeId, lag: u64, max: u64 },
    NotAMember { node_id: NodeId },
    AlreadyInProgress,
    InvalidArgument { detail: Seq<char> },
    Unavailable { reason: Seq<char> },
    Raft(Seq<char>),
    Fatal(Seq<char>),
}

impl View for AdminError {
    type V = AdminErrorModel;

    open spec fn view(&self) -> AdminErrorModel {
        match self {
            AdminError::NotLeader { hint } => AdminErrorModel::NotLeader {
                hint: types::hint_model(*hint),
            },
            AdminError::Retired { node_id } => AdminErrorModel::Retired { node_id: *node_id },
            AdminError::Lagging { node_id, lag, max } => AdminErrorModel::Lagging {
                node_id: *node_id,
                lag: *lag,
                max: *max,
            },
            AdminError::NotAMember { node_id } => AdminErrorModel::NotAMember {
                node_id: *node_id,
            },
            AdminError::AlreadyInProgress => AdminErrorModel::AlreadyInProgress,
            AdminError::InvalidArgument { detail } => AdminErrorModel::InvalidArgument {
                detail: detail@,
            },
            AdminError::Unavailable { reason } => AdminErrorModel::Unavailable { reason: reason@ },
            AdminError::Raft(detail) => AdminErrorModel::Raft(detail@),
            AdminError::Fatal(detail) => AdminErrorModel::Fatal(detail@),
        }
    }
}

/// What a refusal says, and what a success holds.
pub open spec fn verdict<T>(r: Result<T, AdminError>) -> Result<T, AdminErrorModel> {
    match r {
        Ok(v) => Ok(v),
        Err(e) => Err(e@),
    }
}

impl AdminErrorModel {
    /// The same refusal in the vocabulary of clients. A retired node is an invalid argument: the
    /// caller's credentials were fine, the node it named is what is gone.
    pub open spec fn for_client(self) -> ConfigErrorModel {
        match self {
            AdminErrorModel::NotLeader { hint } => ConfigErrorModel::NotLeader { hint },
            AdminErrorModel::Retired { node_id } => ConfigErrorModel::InvalidArgument {
                detail: "node_retired: node "@ + text::decimal(node_id.0 as nat)
                    + " was retired and cannot rejoin"@,
            },
            AdminErrorModel::Lagging { node_id, lag, max } => ConfigErrorModel::Unavailable {
                reason: "learner_lagging: node "@ + text::decimal(node_id.0 as nat) + " lag "@
                    + text::decimal(lag as nat) + " exceeds "@ + text::decimal(max as nat),
            },
            AdminErrorModel::NotAMember { node_id } => ConfigErrorModel::InvalidArgument {
                detail: "not_a_member: node "@ + text::decimal(node_id.0 as nat)
                    + " is not in this cluster"@,
            },
            AdminErrorModel::AlreadyInProgress => ConfigErrorModel::Unavailable {
                reason: "snapshot_build_in_progress"@,
            },
            AdminErrorModel::InvalidArgument { detail } => ConfigErrorModel::InvalidArgument {
                detail,
            },
            AdminErrorModel::Unavailable { reason } => ConfigErrorModel::Unavailable { reason },
            AdminErrorModel::Raft(detail) => ConfigErrorModel::Unavailable { reason: detail },
            AdminErrorModel::Fatal(detail) => ConfigErrorModel::FatalStorage { detail },
        }
    }

    /// The token of a refusal.
    pub open spec fn token(self) -> Seq<char> {
        match self {
            AdminErrorModel::NotLeader { .. } => "not_leader"@,
            AdminErrorModel::Retired { .. } => "node_retired"@,
            AdminErrorModel::Lagging { .. } => "learner_lagging"@,
            AdminErrorModel::NotAMember { .. } => "not_a_member"@,
            AdminErrorModel::AlreadyInProgress => "snapshot_build_in_progress"@,
            AdminErrorModel::InvalidArgument { .. } => "invalid_argument"@,
            AdminErrorModel::Unavailable { .. } => "unavailable"@,
            AdminErrorModel::Raft(_) => "raft_refused"@,
            AdminErrorModel::Fatal(_) => "raft_fatal"@,
        }
    }

    /// The text of a refusal.
    pub open spec fn text(self) -> Seq<char> {
        match self {
            AdminErrorModel::NotLeader { hint } => "not leader"@ + types::hint_text(hint),
            AdminErrorModel::Retired { node_id } => "node "@ + text::decimal(node_id.0 as nat)
                + " is retired: node_retired"@,
            AdminErrorModel::Lagging { node_id, lag, max } => "node "@ + text::decimal(
                node_id.0 as nat,
            ) + " lags the leader by "@ + text::decimal(lag as nat)
                + " entries, more than promote_max_lag "@ + text::decimal(max as nat),
            AdminErrorModel::NotAMember { node_id } => "node "@ + text::decimal(node_id.0 as nat)
                + " is not a member of this cluster"@,
            AdminErrorModel::AlreadyInProgress => "a snapshot build is already in progress"@,
            AdminErrorModel::InvalidArgument { detail } => "invalid argument: "@ + detail,
            AdminErrorModel::Unavailable { reason } => "unavailable: "@ + reason,
            AdminErrorModel::Raft(detail) => "raft refused the membership change: "@ + detail,
            AdminErrorModel::Fatal(detail) => "raft core is not running: "@ + detail,
        }
    }
}

fn about_node(before: &str, node_id: NodeId, after: &str) -> (r: String)
    ensures
        r@ == before@ + text::decimal(node_id.0 as nat) + after@,
{
    let mut out = before.to_owned();
    text::push_decimal(&mut out, node_id.0 as u128);
    text::push_text(&mut out, after);
    out
}

impl From<AdminError> for ConfigError {
    /// The same refusal in the vocabulary of clients, so that the admin plane needs no status
    /// mapping of its own.
    fn from(e: AdminError) -> (r: Self)
        ensures
            r@ == e@.for_client(),
    {
        match e {
            AdminError::NotLeader { hint } => ConfigError::NotLeader { hint },
            AdminError::Retired { node_id } => ConfigError::InvalidArgument {
                detail: about_node(
                    "node_retired: node ",
                    node_id,
                    " was retired and cannot rejoin",
                ),
            },
            AdminError::Lagging { node_id, lag, max } => {
                let mut reason = about_node("learner_lagging: node ", node_id, " lag ");
                text::push_decimal(&mut reason, lag as u128);
                text::push_text(&mut reason, " exceeds ");
                text::push_decimal(&mut reason, max as u128);
                ConfigError::Unavailable { reason }
            },
            AdminError::NotAMember { node_id } => ConfigError::InvalidArgument {
                detail: about_node("not_a_member: node ", node_id, " is not in this cluster"),
            },
            AdminError::AlreadyInProgress => ConfigError::unavailable(
                "snapshot_build_in_progress",
            ),
            AdminError::InvalidArgument { detail } => ConfigError::InvalidArgument { detail },
            AdminError::Unavailable { reason } => ConfigError::Unavailable { reason },
            AdminError::Raft(detail) => ConfigError::Unavailable { reason: detail },
            AdminError::Fatal(detail) => ConfigError::FatalStorage { detail },
        }
    }
}

impl vstd::std_specs::convert::FromSpecImpl<AdminError> for ConfigError {
    open spec fn obeys_from_spec() -> bool {
        false
    }

    open spec fn from_spec(e: AdminError) -> ConfigError {
        ConfigError::PolicyChanged
    }
}

impl AdminError {
    /// The stable token that an audit line and a refusal both carry.
    pub fn reason(&self) -> (r: &'static str)
        ensures
            r@ == self@.token(),
    {
        match self {
            AdminError::NotLeader { .. } => "not_leader",
            AdminError::Retired { .. } => "node_retired",
            AdminError::Lagging { .. } => "learner_lagging",
            AdminError::NotAMember { .. } => "not_a_member",
            AdminError::AlreadyInProgress => "snapshot_build_in_progress",
            AdminError::InvalidArgument { .. } => "invalid_argument",
            AdminError::Unavailable { .. } => "unavailable",
            AdminError::Raft(_) => "raft_refused",
            AdminError::Fatal(_) => "raft_fatal",
        }
    }

    /// The refusal as text.
    pub fn describe(&self) -> (r: String)
        ensures
            r@ == self@.text(),
    {
        match self {
            AdminError::NotLeader { hint } => {
                let mut out = "not leader".to_owned();
                types::push_hint(&mut out, hint);
                out
            },
            AdminError::Retired { node_id } => about_node(
                "node ",
                *node_id,
                " is retired: node_retired",
            ),
            AdminError::Lagging { node_id, lag, max } => {
                let mut out = about_node("node ", *node_id, " lags the leader by ");
                text::push_decimal(&mut out, *lag as u128);
                text::push_text(&mut out, " entries, more than promote_max_lag ");
                text::push_decimal(&mut out, *max as u128);
                out
            },
            AdminError::NotAMember { node_id } => about_node(
                "node ",
                *node_id,
                " is not a member of this cluster",
            ),
            AdminError::AlreadyInProgress => "a snapshot build is already in progress".to_owned(),
            AdminError::InvalidArgument { detail } => text::two(
                "invalid argument: ",
                detail.as_str(),
            ),
            AdminError::Unavailable { reason } => text::two("unavailable: ", reason.as_str()),
            AdminError::Raft(detail) => text::two(
                "raft refused the membership change: ",
                detail.as_str(),
            ),
            AdminError::Fatal(detail) => text::two("raft core is not running: ", detail.as_str()),
        }
    }
}

/// How far behind one peer is, as the leader sees it.
#[derive(Clone, Copy, PartialEq, Eq, Structural, Debug)]
pub struct ReplicationProgress {
    /// Highest log index this peer has acknowledged, or `None` when the leader has not heard
    /// from it.
    pub matched_index: Option<u64>,
    /// How many entries it is behind. A peer without an acknowledgement lags by the whole log.
    pub lag: u64,
}

/// What one node believes about membership right now.
#[derive(PartialEq, Eq, Debug)]
pub struct MembershipReport {
    /// Committed membership.
    pub membership: MembershipView,
    /// Members of the effective membership that are not voters.
    pub learners: BTreeSet<u64>,
    /// Configurations in the effective membership: one, or two while a change is in flight.
    pub joint_config_len: usize,
    /// Nodes that were retired for good.
    pub retired: BTreeSet<u64>,
    /// Replication progress by peer. Empty off the leader.
    pub replication: BTreeMap<u64, ReplicationProgress>,
    /// The leader's own last log index; `0` off the leader.
    pub leader_last_log_index: u64,
    /// Who this node believes the leader is.
    pub current_leader: Option<NodeId>,
    /// Whether this node was the leader when it answered.
    pub authoritative: bool,
    /// The lag at which this node still promotes.
    pub promote_max_lag: u64,
    /// Endpoints of the effective membership: peer and client.
    pub effective_endpoints: BTreeMap<u64, (String, String)>,
    /// Log id of the effective membership entry.
    pub effective_membership_log_id: Option<LogIdView>,
}

impl MembershipReport {
    /// Whether a membership change was interrupted.
    pub fn is_joint(&self) -> (r: bool)
        ensures
            r == (self.joint_config_len > 1),
    {
        self.joint_config_len > 1
    }

    /// The lag of `node_id` as the leader sees it; `None` off the leader or for a peer the
    /// leader has never heard from.
    pub fn lag_of(&self, node_id: NodeId) -> (r: Option<u64>)
        ensures
            r == (if self.replication@.contains_key(node_id.0)
                && self.replication@[node_id.0].matched_index is Some {
                Some(self.replication@[node_id.0].lag)
            } else {
                None
            }),
    {
        match self.replication.get(&node_id.0) {
            Some(p) => if p.matched_index.is_some() {
                Some(p.lag)
            } else {
                None
            },
            None => None,
        }
    }
}

/// The outcome of asking for a snapshot.
#[derive(PartialEq, Eq, Debug)]
pub enum SnapshotTriggered {
    /// A build was requested.
    Started {
        /// The published snapshot, once there is one.
        snapshot_id: Option<String>,
        /// The log id it covers.
        last_log_id: Option<LogIdView>,
    },
    /// A build was already in flight, so this request did nothing.
    AlreadyInProgress,
}

/// What an operator is refused, a client of the same interface is told in its own terms: leadership
/// as leadership, with the same hint; what the request got wrong as an invalid argument; what may
/// pass as unavailable; and what does not as fatal.
pub proof fn refusals_keep_their_meaning(e: AdminErrorModel)
    ensures
        e matches AdminErrorModel::NotLeader { hint } ==> e.for_client() == (
        ConfigErrorModel::NotLeader { hint }),
        e.for_client() is NotLeader <==> e is NotLeader,
        e.for_client() is InvalidArgument <==> e is Retired || e is NotAMember || e
            is InvalidArgument,
        e.for_client() is Unavailable <==> e is Lagging || e is AlreadyInProgress || e
            is Unavailable || e is Raft,
        e.for_client() is FatalStorage <==> e is Fatal,
        e matches AdminErrorModel::InvalidArgument { detail } ==> e.for_client() == (
        ConfigErrorModel::InvalidArgument { detail }),
        e matches AdminErrorModel::Unavailable { reason } ==> e.for_client() == (
        ConfigErrorModel::Unavailable { reason }),
        e matches AdminErrorModel::Raft(detail) ==> e.for_client() == (
        ConfigErrorModel::Unavailable { reason: detail }),
        e matches AdminErrorModel::Fatal(detail) ==> e.for_client() == (
        ConfigErrorModel::FatalStorage { detail }),
        e.for_client().safe_to_resubmit() ==> !(e is Retired || e is NotAMember || e is Fatal),
{
}

/// A refusal is seen as what it is, with everything it carries.
pub proof fn a_refusal_is_seen_as_it_is(e: AdminError)
    ensures
        match e {
            AdminError::NotLeader { hint } => e@ == (AdminErrorModel::NotLeader {
                hint: types::hint_model(hint),
            }),
            AdminError::Retired { node_id } => e@ == (AdminErrorModel::Retired { node_id }),
            AdminError::Lagging { node_id, lag, max } => e@ == (AdminErrorModel::Lagging {
                node_id,
                lag,
                max,
            }),
            AdminError::NotAMember { node_id } => e@ == (AdminErrorModel::NotAMember { node_id }),
            AdminError::AlreadyInProgress => e@ is AlreadyInProgress,
            AdminError::InvalidArgument { detail } => e@ == (AdminErrorModel::InvalidArgument {
                detail: detail@,
            }),
            AdminError::Unavailable { reason } => e@ == (AdminErrorModel::Unavailable {
                reason: reason@,
            }),
            AdminError::Raft(detail) => e@ == AdminErrorModel::Raft(detail@),
            AdminError::Fatal(detail) => e@ == AdminErrorModel::Fatal(detail@),
        },
{
}

/// Refusals of different kinds have different tokens.
pub proof fn refusals_are_told_apart(a: AdminErrorModel, b: AdminErrorModel)
    requires
        a.token() == b.token(),
    ensures
        a is NotLeader <==> b is NotLeader,
        a is Retired <==> b is Retired,
        a is Lagging <==> b is Lagging,
        a is NotAMember <==> b is NotAMember,
        a is AlreadyInProgress <==> b is AlreadyInProgress,
        a is InvalidArgument <==> b is InvalidArgument,
        a is Unavailable <==> b is Unavailable,
        a is Raft <==> b is Raft,
        a is Fatal <==> b is Fatal,
{
    reveal_strlit("not_leader");
    reveal_strlit("node_retired");
    reveal_strlit("learner_lagging");
    reveal_strlit("not_a_member");
    reveal_strlit("snapshot_build_in_progress");
    reveal_strlit("invalid_argument");
    reveal_strlit("unavailable");
    reveal_strlit("raft_refused");
    reveal_strlit("raft_fatal");
    assert("not_leader"@.len() == 10 && "not_leader"@[0] == 'n' && "not_leader"@[2] == 't');
    assert("node_retired"@.len() == 12 && "node_retired"@[0] == 'n' && "node_retired"@[2] == 'd');
    assert("learner_lagging"@.len() == 15 && "learner_lagging"@[0] == 'l' && "learner_lagging"@[2] == 'a');
    assert("not_a_member"@.len() == 12 && "not_a_member"@[0] == 'n' && "not_a_member"@[2] == 't');
    assert("snapshot_build_in_progress"@.len() == 26 && "snapshot_build_in_progress"@[0] == 's' && "snapshot_build_in_progress"@[2] == 'a');
    assert("invalid_argument"@.len() == 16 && "invalid_argument"@[0] == 'i' && "invalid_argument"@[2] == 'v');
    assert("unavailable"@.len() == 11 && "unavailable"@[0] == 'u' && "unavailable"@[2] == 'a');
    assert("raft_refused"@.len() == 12 && "raft_refused"@[0] == 'r' && "raft_refused"@[2] == 'f');
    assert("raft_fatal"@.len() == 10 && "raft_fatal"@[0] == 'r' && "raft_fatal"@[2] == 'f');
}

} // verus!
