//! Forming a cluster: an explicit act, on a node that can prove it is the right one.

use std::collections::BTreeMap;
use vstd::prelude::*;

use crate::config::RaftNode;
use crate::error::FormationError;
use crate::error::FormationErrorModel;
use crate::error::FormationPlan;
use crate::listing;
use crate::metrics::MembershipView;
use crate::node::ConfigNode;
use crate::types::ClusterIdentity;
use crate::types::IdentityMismatch;
use crate::types::NodeId;

verus! {

/// What came of handing the initial membership to the Raft core.
#[derive(PartialEq, Eq, Debug)]
pub enum InitializeOutcome {
    /// It was accepted.
    Done,
    /// The core already has a log or a vote.
    NotAllowed,
    /// It failed.
    Failed(String),
}

/// Why a plan is refused by the node it was handed to, if it is. A plan for another cluster or
/// epoch comes first, then one that does not list this node, then one that gives this node an
/// address it does not serve; then a cluster that exists, and last a store that was used.
pub open spec fn formation_refusal(
    node: ConfigNode,
    plan: FormationPlan,
    committed: MembershipView,
    effective: MembershipView,
    fresh: bool,
) -> Option<FormationErrorModel> {
    let me = node.cfg.identity;
    if plan.cluster_id != me.cluster_id || plan.recovery_epoch != me.recovery_epoch {
        Some(
            FormationErrorModel::IdentityMismatch(
                IdentityMismatch {
                    stored: me,
                    configured: ClusterIdentity {
                        cluster_id: plan.cluster_id,
                        recovery_epoch: plan.recovery_epoch,
                        node_id: me.node_id,
                    },
                },
            ),
        )
    } else if !plan.voters@.contains_key(me.node_id.0) {
        Some(FormationErrorModel::NotAVoter)
    } else if plan.voters@[me.node_id.0]@ != node.cfg.peer_endpoint@ {
        Some(
            FormationErrorModel::EndpointMismatch {
                plane: "peer"@,
                planned: plan.voters@[me.node_id.0]@,
                configured: node.cfg.peer_endpoint@,
            },
        )
    } else if plan.client_of(me.node_id.0) != Some(node.cfg.advertised()) {
        Some(
            FormationErrorModel::EndpointMismatch {
                plane: "client"@,
                planned: plan.client_of(me.node_id.0)->Some_0,
                configured: node.cfg.advertised(),
            },
        )
    } else if committed.formed() || effective.formed() {
        Some(FormationErrorModel::AlreadyFormed)
    } else if !fresh {
        Some(FormationErrorModel::StoreNotFresh)
    } else {
        None
    }
}

/// Whether `members` is the membership a plan asks for: its voters, each with the peer endpoint
/// the plan gives it and the client endpoint the plan gives it.
pub open spec fn is_planned(members: Map<u64, RaftNode>, plan: FormationPlan) -> bool {
    &&& members.dom() == plan.voters@.dom()
    &&& forall|k: u64| #[trigger]
        members.contains_key(k) ==> members[k].peer@ == plan.voters@[k]@ && Some(
            members[k].client@,
        ) == plan.client_of(k)
}

fn planned_members(plan: &FormationPlan) -> (r: BTreeMap<u64, RaftNode>)
    ensures
        is_planned(r@, *plan),
{
    let entries = listing::list(&plan.voters);
    let ghost s = listing::listed(plan.voters@);
    let mut members: BTreeMap<u64, RaftNode> = BTreeMap::new();
    let mut i: usize = 0;
    while i < entries.len()
        invariant
            i <= entries@.len(),
            listing::lists(s, plan.voters@),
            entries@.len() == s.len(),
            forall|j: int|
                0 <= j < entries@.len() ==> (#[trigger] entries@[j]).0 == s[j].0 && *entries@[j].1
                    == s[j].1,
            forall|k: u64| #[trigger]
                members@.contains_key(k) <==> exists|j: int| 0 <= j < i && (#[trigger] s[j]).0 == k,
            forall|k: u64| #[trigger]
                members@.contains_key(k) ==> members@[k].peer@ == plan.voters@[k]@ && Some(
                    members@[k].client@,
                ) == plan.client_of(k),
        decreases entries@.len() - i,
    {
        let ghost before = members@;
        let id: u64 = entries[i].0;
        let peer = entries[i].1.clone();
        assert(s[i as int].0 == id);
        let client = match plan.client_endpoint_of(NodeId(id)) {
            Some(endpoint) => endpoint.clone(),
            None => peer.clone(),
        };
        members.insert(id, RaftNode { peer, client });
        proof {
            assert forall|k: u64| #[trigger] members@.contains_key(k) <==> exists|j: int|
                0 <= j < i + 1 && (#[trigger] s[j]).0 == k by {
                if k == id {
                    assert(s[i as int].0 == k);
                }
                if k != id && before.contains_key(k) {
                    let j = choose|j: int| 0 <= j < i && (#[trigger] s[j]).0 == k;
                    assert(s[j].0 == k);
                }
            }
            assert forall|k: u64| #[trigger] members@.contains_key(k) implies members@[k].peer@
                == plan.voters@[k]@ && Some(members@[k].client@) == plan.client_of(k) by {
                if k != id {
                    assert(before.contains_key(k));
                }
            }
        }
        i = i + 1;
    }
    assert forall|k: u64| members@.contains_key(k) <==> plan.voters@.contains_key(k) by {
        if plan.voters@.contains_key(k) {
            let j = choose|j: int| 0 <= j < s.len() && (#[trigger] s[j]).0 == k;
            assert(s[j].0 == k);
        }
    }
    assert(members@.dom() =~= plan.voters@.dom());
    members
}

impl ConfigNode {
    /// Judge a plan, given committed and effective membership and whether the store is fresh.
    /// What comes back is the membership to hand to the Raft core.
    ///
    /// Effective membership counts here: a node that has merely appended a membership is already
    /// formed enough that forming it again is a mistake.
    pub fn form_cluster(
        &self,
        plan: &FormationPlan,
        committed: &MembershipView,
        effective: &MembershipView,
        fresh: bool,
    ) -> (r: Result<BTreeMap<u64, RaftNode>, FormationError>)
        ensures
            match r {
                Ok(members) => {
                    &&& formation_refusal(*self, *plan, *committed, *effective, fresh) is None
                    &&& is_planned(members@, *plan)
                },
                Err(e) => formation_refusal(*self, *plan, *committed, *effective, fresh) == Some(
                    e@,
                ),
            },
    {
        let me = self.cfg.identity;
        if plan.cluster_id != me.cluster_id || plan.recovery_epoch != me.recovery_epoch {
            return Err(
                FormationError::IdentityMismatch(
                    IdentityMismatch {
                        stored: me,
                        configured: ClusterIdentity {
                            cluster_id: plan.cluster_id,
                            recovery_epoch: plan.recovery_epoch,
                            node_id: me.node_id,
                        },
                    },
                ),
            );
        }
        let planned_peer = match plan.voters.get(&me.node_id.0) {
            Some(p) => p,
            None => {
                return Err(FormationError::NotAVoter);
            },
        };
        if *planned_peer != self.cfg.peer_endpoint {
            return Err(
                FormationError::EndpointMismatch {
                    plane: "peer",
                    planned: planned_peer.clone(),
                    configured: self.cfg.peer_endpoint.clone(),
                },
            );
        }
        let planned_client = match plan.client_endpoint_of(me.node_id) {
            Some(c) => c.clone(),
            None => planned_peer.clone(),
        };
        let advertised = self.cfg.client_endpoint().to_owned();
        if planned_client != advertised {
            return Err(
                FormationError::EndpointMismatch {
                    plane: "client",
                    planned: planned_client,
                    configured: advertised,
                },
            );
        }
        if committed.is_formed() || effective.is_formed() {
            return Err(FormationError::AlreadyFormed);
        }
        if !fresh {
            return Err(FormationError::StoreNotFresh);
        }
        Ok(planned_members(plan))
    }

    /// What came of handing the membership over. A core that refuses because it already has a
    /// log is a cluster that exists.
    pub fn form_result(outcome: InitializeOutcome) -> (r: Result<(), FormationError>)
        ensures
            match outcome {
                InitializeOutcome::Done => r is Ok,
                InitializeOutcome::NotAllowed => r matches Err(e) && e@
                    == FormationErrorModel::AlreadyFormed,
                InitializeOutcome::Failed(s) => r matches Err(e) && e@
                    == FormationErrorModel::Raft(s@),
            },
    {
        match outcome {
            InitializeOutcome::Done => Ok(()),
            InitializeOutcome::NotAllowed => Err(FormationError::AlreadyFormed),
            InitializeOutcome::Failed(s) => Err(FormationError::Raft(s)),
        }
    }
}

/// A cluster is formed exactly by the right node on an untouched store: the plan is for this
/// node's cluster and epoch, lists it at the addresses it serves, nothing was committed or
/// appended before, and the store never held anything.
pub proof fn formation_is_safe(
    node: ConfigNode,
    plan: FormationPlan,
    committed: MembershipView,
    effective: MembershipView,
    fresh: bool,
)
    ensures
        formation_refusal(node, plan, committed, effective, fresh) is None <==> {
            &&& plan.cluster_id == node.cfg.identity.cluster_id
            &&& plan.recovery_epoch == node.cfg.identity.recovery_epoch
            &&& plan.voters@.contains_key(node.cfg.identity.node_id.0)
            &&& plan.voters@[node.cfg.identity.node_id.0]@ == node.cfg.peer_endpoint@
            &&& plan.client_of(node.cfg.identity.node_id.0) == Some(node.cfg.advertised())
            &&& !committed.formed()
            &&& !effective.formed()
            &&& fresh
        },
{
}

/// A cluster that exists is never formed again: whatever the plan, a node with a membership
/// refuses it.
pub proof fn formation_happens_once(
    node: ConfigNode,
    plan: FormationPlan,
    committed: MembershipView,
    effective: MembershipView,
    fresh: bool,
)
    requires
        committed.formed() || effective.formed(),
    ensures
        formation_refusal(node, plan, committed, effective, fresh) is Some,
{
}

/// What a formation commits for this node is what this node serves: the addresses in the
/// membership are the ones of its own configuration.
pub proof fn a_member_is_where_it_says(
    node: ConfigNode,
    plan: FormationPlan,
    committed: MembershipView,
    effective: MembershipView,
    fresh: bool,
    members: Map<u64, RaftNode>,
)
    requires
        formation_refusal(node, plan, committed, effective, fresh) is None,
        is_planned(members, plan),
    ensures
        members.contains_key(node.cfg.identity.node_id.0),
        members[node.cfg.identity.node_id.0].peer@ == node.cfg.peer_endpoint@,
        members[node.cfg.identity.node_id.0].client@ == node.cfg.advertised(),
{
}

/// A cluster is formed exactly by a plan for this node's own cluster and epoch that gives this node
/// the addresses it is configured with, where no voter is known, committed or not, and the store is
/// fresh. A plan that names no client address means the peer address, and so does a configuration.
pub proof fn a_cluster_is_formed_exactly_as_planned(
    node: ConfigNode,
    plan: FormationPlan,
    committed: MembershipView,
    effective: MembershipView,
    fresh: bool,
)
    ensures
        ({
            let me = node.cfg.identity;
            let refusal = formation_refusal(node, plan, committed, effective, fresh);
            let listed = plan.voters@.contains_key(me.node_id.0);
            let client = match node.cfg.client_endpoint {
                Some(e) => e@,
                None => node.cfg.peer_endpoint@,
            };
            let planned = if plan.client_endpoints@.contains_key(me.node_id.0) {
                plan.client_endpoints@[me.node_id.0]@
            } else {
                plan.voters@[me.node_id.0]@
            };
            let kin = plan.cluster_id == me.cluster_id && plan.recovery_epoch == me.recovery_epoch;
            let peers_agree = plan.voters@[me.node_id.0]@ == node.cfg.peer_endpoint@;
            let unformed = committed.voters@ == Set::<u64>::empty() && effective.voters@ == Set::<
                u64,
            >::empty();
            &&& refusal is None <==> kin && listed && peers_agree && planned == client && unformed
                && fresh
            &&& refusal matches Some(e) ==> match e {
                FormationErrorModel::IdentityMismatch(m) => !kin && m.stored == me
                    && m.configured.cluster_id == plan.cluster_id && m.configured.recovery_epoch
                    == plan.recovery_epoch,
                FormationErrorModel::NotAVoter => kin && !listed,
                FormationErrorModel::EndpointMismatch { planned: p, configured: c, .. } => kin
                    && listed && p != c && (if !peers_agree {
                    p == plan.voters@[me.node_id.0]@ && c == node.cfg.peer_endpoint@
                } else {
                    p == planned && c == client
                }),
                FormationErrorModel::AlreadyFormed => kin && listed && peers_agree && planned
                    == client && !unformed,
                FormationErrorModel::StoreNotFresh => kin && listed && peers_agree && planned
                    == client && unformed && !fresh,
                FormationErrorModel::Raft(_) => false,
            }
        }),
{
}

/// The members of a cluster that is formed are those of the plan, each with the addresses the plan
/// gives it.
pub proof fn members_are_as_planned(
    members: Map<u64, RaftNode>,
    plan: FormationPlan,
    node: u64,
)
    requires
        is_planned(members, plan),
    ensures
        members.contains_key(node) <==> plan.voters@.contains_key(node),
        members.contains_key(node) ==> members[node].peer@ == plan.voters@[node]@,
        members.contains_key(node) ==> members[node].client@ == (
        if plan.client_endpoints@.contains_key(node) {
            plan.client_endpoints@[node]@
        } else {
            plan.voters@[node]@
        }),
{
    assert(members.contains_key(node) <==> members.dom().contains(node));
}

} // verus!
