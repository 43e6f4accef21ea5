//! Gossip hint validation.
//!
//! There is one place that decides whether an advisory observation is coherent with committed
//! reality. An accepted hint still confers nothing: it agreed with what was already known.

use vstd::prelude::*;

use crate::metrics::MembershipView;
use crate::types::ClusterId;
use crate::types::ClusterIdentity;
use crate::types::NodeId;
use crate::types::RecoveryEpoch;

verus! {

/// Whether gossip believes a peer is alive.
#[derive(Clone, Copy, PartialEq, Eq, Structural, Debug)]
pub enum Liveness {
    /// It is.
    Alive,
    /// It may not be.
    Suspect,
    /// It is not.
    Dead,
}

/// What gossip observed of a peer.
#[derive(PartialEq, Eq, Debug)]
pub struct ObservedPeerHint {
    /// The cluster it claims.
    pub cluster_id: ClusterId,
    /// The recovery epoch it claims.
    pub recovery_epoch: RecoveryEpoch,
    /// Who it claims to be.
    pub node_id: NodeId,
    /// Where it claims to be reached.
    pub peer_endpoint: String,
    /// Whether it is believed to be alive.
    pub liveness: Liveness,
}

impl Clone for ObservedPeerHint {
    fn clone(&self) -> (r: Self)
        ensures
            r == *self,
    {
        ObservedPeerHint {
            cluster_id: self.cluster_id,
            recovery_epoch: self.recovery_epoch,
            node_id: self.node_id,
            peer_endpoint: self.peer_endpoint.clone(),
            liveness: self.liveness,
        }
    }
}

/// The outcome of validating one [`ObservedPeerHint`].
#[derive(Clone, Copy, PartialEq, Eq, Debug)]
pub enum HintVerdict {
    /// The hint agrees with committed membership. Recorded for telemetry only.
    Accepted,
    /// The hint disagrees with committed membership and is discarded.
    Rejected {
        /// Stable reason, used as a log field and as a metric label.
        reason: &'static str,
    },
}

impl HintVerdict {
    /// Whether the hint was accepted.
    pub fn is_accepted(self) -> (r: bool)
        ensures
            r == (self is Accepted),
    {
        match self {
            HintVerdict::Accepted => true,
            HintVerdict::Rejected { .. } => false,
        }
    }

    /// The rejection reason, if any.
    pub fn reason(self) -> (r: Option<&'static str>)
        ensures
            r == (match self {
                HintVerdict::Accepted => None,
                HintVerdict::Rejected { reason } => Some(reason),
            }),
    {
        match self {
            HintVerdict::Accepted => None,
            HintVerdict::Rejected { reason } => Some(reason),
        }
    }
}

/// The hint claims a different cluster.
pub const REASON_CLUSTER_MISMATCH: &'static str = "cluster_mismatch";

/// The hint claims this cluster at a different recovery epoch.
pub const REASON_EPOCH_MISMATCH: &'static str = "recovery_epoch_mismatch";

/// The hint claims a node that is not a committed voter.
pub const REASON_UNKNOWN_NODE: &'static str = "unknown_node";

/// The hint advertises a peer endpoint other than the committed one.
pub const REASON_ENDPOINT_MISMATCH: &'static str = "endpoint_mismatch";

/// The hint claims to be this node.
pub const REASON_SELF_CLAIM: &'static str = "self_claim";

/// Membership has not been committed yet, so nothing can be validated against it.
pub const REASON_NOT_FORMED: &'static str = "not_formed";

/// Whether the hint's endpoint is the committed one.
pub open spec fn endpoint_agrees(hint: ObservedPeerHint, membership: MembershipView) -> bool {
    &&& membership.endpoints@.contains_key(hint.node_id.0)
    &&& membership.endpoints@[hint.node_id.0]@ == hint.peer_endpoint@
}

/// The verdict on a hint: the first thing that is wrong, if anything is. The wrong cluster comes
/// first, then the wrong epoch of the right cluster, then a claim to be this node, then
/// membership.
pub open spec fn hint_verdict(
    hint: ObservedPeerHint,
    membership: MembershipView,
    identity: ClusterIdentity,
) -> HintVerdict {
    if hint.cluster_id != identity.cluster_id {
        HintVerdict::Rejected { reason: REASON_CLUSTER_MISMATCH }
    } else if hint.recovery_epoch != identity.recovery_epoch {
        HintVerdict::Rejected { reason: REASON_EPOCH_MISMATCH }
    } else if hint.node_id == identity.node_id {
        HintVerdict::Rejected { reason: REASON_SELF_CLAIM }
    } else if !membership.formed() {
        HintVerdict::Rejected { reason: REASON_NOT_FORMED }
    } else if !membership.voters@.contains(hint.node_id.0) {
        HintVerdict::Rejected { reason: REASON_UNKNOWN_NODE }
    } else if !endpoint_agrees(hint, membership) {
        HintVerdict::Rejected { reason: REASON_ENDPOINT_MISMATCH }
    } else {
        HintVerdict::Accepted
    }
}

/// Decide whether an advisory peer observation is coherent with committed membership.
pub fn validate_hint(
    hint: &ObservedPeerHint,
    membership: &MembershipView,
    identity: &ClusterIdentity,
) -> (r: HintVerdict)
    ensures
        r == hint_verdict(*hint, *membership, *identity),
{
    if hint.cluster_id != identity.cluster_id {
        return HintVerdict::Rejected { reason: REASON_CLUSTER_MISMATCH };
    }
    if hint.recovery_epoch != identity.recovery_epoch {
        return HintVerdict::Rejected { reason: REASON_EPOCH_MISMATCH };
    }
    if hint.node_id == identity.node_id {
        return HintVerdict::Rejected { reason: REASON_SELF_CLAIM };
    }
    if !membership.is_formed() {
        return HintVerdict::Rejected { reason: REASON_NOT_FORMED };
    }
    if !membership.voters.contains(&hint.node_id.0) {
        return HintVerdict::Rejected { reason: REASON_UNKNOWN_NODE };
    }
    match membership.endpoint_of(hint.node_id) {
        Some(committed) => {
            if *committed == hint.peer_endpoint {
                HintVerdict::Accepted
            } else {
                HintVerdict::Rejected { reason: REASON_ENDPOINT_MISMATCH }
            }
        },
        None => HintVerdict::Rejected { reason: REASON_ENDPOINT_MISMATCH },
    }
}

/// An accepted hint says nothing that committed membership did not say before: it is of this
/// cluster and epoch, names another committed voter, and gives that voter's committed endpoint.
pub proof fn an_accepted_hint_is_already_known(
    hint: ObservedPeerHint,
    membership: MembershipView,
    identity: ClusterIdentity,
)
    ensures
        hint_verdict(hint, membership, identity) is Accepted <==> {
            &&& hint.cluster_id == identity.cluster_id
            &&& hint.recovery_epoch == identity.recovery_epoch
            &&& hint.node_id != identity.node_id
            &&& membership.voters@.contains(hint.node_id.0)
            &&& endpoint_agrees(hint, membership)
        },
        hint_verdict(hint, membership, identity) is Accepted <==> {
            &&& hint.cluster_id == identity.cluster_id
            &&& hint.recovery_epoch == identity.recovery_epoch
            &&& hint.node_id != identity.node_id
            &&& membership.voters@.contains(hint.node_id.0)
            &&& membership.endpoints@.contains_key(hint.node_id.0)
            &&& membership.endpoints@[hint.node_id.0]@ == hint.peer_endpoint@
        },
{
    if membership.voters@.contains(hint.node_id.0) {
        assert(membership.formed());
    }
}

} // verus!
