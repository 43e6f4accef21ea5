//! Engine lifecycle and formation errors.

use std::collections::BTreeMap;
use vstd::prelude::*;

use crate::metrics::NodeMetrics;
use crate::text;
use crate::time::Duration;
use crate::types::ClusterId;
use crate::types::ClusterIdentity;
use crate::types::IdentityMismatch;
use crate::types::NodeId;
use crate::types::RecoveryEpoch;

verus! {

/// Why a node could not be started or stopped.
#[derive(PartialEq, Eq, Debug)]
pub enum EngineError {
    /// There is no runtime to start in.
    NoRuntime,
    /// The Raft core refused to start or stop.
    Raft(String),
    /// The store refused to open or answer.
    Storage(String),
}

/// What an [`EngineError`] says.
pub enum EngineErrorModel {
    NoRuntime,
    Raft(Seq<char>),
    Storage(Seq<char>),
}

impl View for EngineError {
    type V = EngineErrorModel;

    open spec fn view(&self) -> EngineErrorModel {
        match self {
            EngineError::NoRuntime => EngineErrorModel::NoRuntime,
            EngineError::Raft(s) => EngineErrorModel::Raft(s@),
            EngineError::Storage(s) => EngineErrorModel::Storage(s@),
        }
    }
}

impl EngineErrorModel {
    /// The text of an error.
    pub open spec fn text(self) -> Seq<char> {
        match self {
            EngineErrorModel::NoRuntime =>
                "no current Tokio runtime; ConfigNode::start must be called from inside one"@,
            EngineErrorModel::Raft(s) => "raft error: "@ + s,
            EngineErrorModel::Storage(s) => "storage error: "@ + s,
        }
    }
}

impl EngineError {
    /// The error as text.
    pub fn describe(&self) -> (r: String)
        ensures
            r@ == self@.text(),
    {
        match self {
            EngineError::NoRuntime =>
                "no current Tokio runtime; ConfigNode::start must be called from inside one".to_owned(),
            EngineError::Raft(s) => text::two("raft error: ", s.as_str()),
            EngineError::Storage(s) => text::two("storage error: ", s.as_str()),
        }
    }
}

/// The map that pairs are collected into: a later pair takes the place of an earlier one.
pub open spec fn collected(pairs: Seq<(NodeId, Seq<char>)>) -> Map<u64, Seq<char>>
    decreases pairs.len(),
{
    if pairs.len() == 0 {
        Map::empty()
    } else {
        collected(pairs.drop_last()).insert(pairs.last().0.0, pairs.last().1)
    }
}

/// What a map of texts says.
pub open spec fn texts(m: Map<u64, String>) -> Map<u64, Seq<char>> {
    Map::new(|k: u64| m.contains_key(k), |k: u64| m[k]@)
}

/// The explicit act of creating a cluster. There is no implicit formation: a node that is never
/// handed a plan stays idle.
#[derive(PartialEq, Eq, Debug)]
pub struct FormationPlan {
    /// The cluster being created.
    pub cluster_id: ClusterId,
    /// The recovery epoch it is created at.
    pub recovery_epoch: RecoveryEpoch,
    /// The initial voters and their peer endpoints.
    pub voters: BTreeMap<u64, String>,
    /// Client endpoints. A voter that is absent advertises its peer endpoint.
    pub client_endpoints: BTreeMap<u64, String>,
}

impl FormationPlan {
    /// The client endpoint a plan gives a node: its own, or else its peer endpoint.
    pub open spec fn client_of(&self, node: u64) -> Option<Seq<char>> {
        if self.client_endpoints@.contains_key(node) {
            Some(self.client_endpoints@[node]@)
        } else if self.voters@.contains_key(node) {
            Some(self.voters@[node]@)
        } else {
            None
        }
    }

    /// A plan for `identity`'s cluster from voters and peer endpoints.
    pub fn new(identity: &ClusterIdentity, voters: Vec<(NodeId, String)>) -> (p: Self)
        ensures
            p.cluster_id == identity.cluster_id,
            p.recovery_epoch == identity.recovery_epoch,
            texts(p.voters@) == collected(
                voters@.map_values(|v: (NodeId, String)| (v.0, v.1@)),
            ),
            p.client_endpoints@ == Map::<u64, String>::empty(),
    {
        let ghost pairs = voters@.map_values(|v: (NodeId, String)| (v.0, v.1@));
        let mut peers: BTreeMap<u64, String> = BTreeMap::new();
        let mut i: usize = 0;
        assert(texts(peers@) =~= collected(pairs.take(0)));
        while i < voters.len()
            invariant
                i <= voters@.len(),
                pairs == voters@.map_values(|v: (NodeId, String)| (v.0, v.1@)),
                texts(peers@) == collected(pairs.take(i as int)),
            decreases voters@.len() - i,
        {
            let ghost before = peers@;
            peers.insert(voters[i].0.0, voters[i].1.clone());
            assert(pairs.take(i + 1).drop_last() =~= pairs.take(i as int));
            assert(texts(peers@) =~= texts(before).insert(
                voters@[i as int].0.0,
                voters@[i as int].1@,
            ));
            i = i + 1;
        }
        assert(pairs.take(voters@.len() as int) =~= pairs);
        FormationPlan {
            cluster_id: identity.cluster_id,
            recovery_epoch: identity.recovery_epoch,
            voters: peers,
            client_endpoints: BTreeMap::new(),
        }
    }

    /// A plan from voters with a peer and a client endpoint each.
    pub fn with_client_endpoints(
        identity: &ClusterIdentity,
        voters: Vec<(NodeId, String, String)>,
    ) -> (p: Self)
        ensures
            p.cluster_id == identity.cluster_id,
            p.recovery_epoch == identity.recovery_epoch,
            texts(p.voters@) == collected(
                voters@.map_values(|v: (NodeId, String, String)| (v.0, v.1@)),
            ),
            texts(p.client_endpoints@) == collected(
                voters@.map_values(|v: (NodeId, String, String)| (v.0, v.2@)),
            ),
    {
        let ghost peer_pairs = voters@.map_values(|v: (NodeId, String, String)| (v.0, v.1@));
        let ghost client_pairs = voters@.map_values(|v: (NodeId, String, String)| (v.0, v.2@));
        let mut peers: BTreeMap<u64, String> = BTreeMap::new();
        let mut clients: BTreeMap<u64, String> = BTreeMap::new();
        let mut i: usize = 0;
        assert(texts(peers@) =~= collected(peer_pairs.take(0)));
        assert(texts(clients@) =~= collected(client_pairs.take(0)));
        while i < voters.len()
            invariant
                i <= voters@.len(),
                peer_pairs == voters@.map_values(|v: (NodeId, String, String)| (v.0, v.1@)),
                client_pairs == voters@.map_values(|v: (NodeId, String, String)| (v.0, v.2@)),
                texts(peers@) == collected(peer_pairs.take(i as int)),
                texts(clients@) == collected(client_pairs.take(i as int)),
            decreases voters@.len() - i,
        {
            let ghost peers_before = peers@;
            let ghost clients_before = clients@;
            peers.insert(voters[i].0.0, voters[i].1.clone());
            clients.insert(voters[i].0.0, voters[i].2.clone());
            assert(peer_pairs.take(i + 1).drop_last() =~= peer_pairs.take(i as int));
            assert(client_pairs.take(i + 1).drop_last() =~= client_pairs.take(i as int));
            assert(texts(peers@) =~= texts(peers_before).insert(
                voters@[i as int].0.0,
                voters@[i as int].1@,
            ));
            assert(texts(clients@) =~= texts(clients_before).insert(
                voters@[i as int].0.0,
                voters@[i as int].2@,
            ));
            i = i + 1;
        }
        assert(peer_pairs.take(voters@.len() as int) =~= peer_pairs);
        assert(client_pairs.take(voters@.len() as int) =~= client_pairs);
        FormationPlan {
            cluster_id: identity.cluster_id,
            recovery_epoch: identity.recovery_epoch,
            voters: peers,
            client_endpoints: clients,
        }
    }

    /// The client endpoint this plan gives `node_id`: its own, or else its peer endpoint.
    pub fn client_endpoint_of(&self, node_id: NodeId) -> (r: Option<&String>)
        ensures
            match r {
                Some(e) => self.client_of(node_id.0) == Some(e@),
                None => self.client_of(node_id.0) is None,
            },
    {
        match self.client_endpoints.get(&node_id.0) {
            Some(e) => Some(e),
            None => self.voters.get(&node_id.0),
        }
    }
}

/// Why a cluster was not formed.
#[derive(PartialEq, Eq, Debug)]
pub enum FormationError {
    /// The plan names a different cluster or epoch than this node is bound to.
    IdentityMismatch(IdentityMismatch),
    /// The local store holds a vote, an entry or applied state.
    StoreNotFresh,
    /// The cluster already has a membership.
    AlreadyFormed,
    /// The plan does not list this node among its voters.
    NotAVoter,
    /// The plan gives this node an endpoint that it does not serve.
    EndpointMismatch {
        /// `"peer"` or `"client"`.
        plane: &'static str,
        /// What the plan says.
        planned: String,
        /// What this node is configured to advertise.
        configured: String,
    },
    /// The Raft core refused.
    Raft(String),
}

/// What a [`FormationError`] says.
pub enum FormationErrorModel {
    IdentityMismatch(IdentityMismatch),
    StoreNotFresh,
    AlreadyFormed,
    NotAVoter,
    EndpointMismatch { plane: Seq<char>, planned: Seq<char>, configured: Seq<char> },
    Raft(Seq<char>),
}

impl View for FormationError {
    type V = FormationErrorModel;

    open spec fn view(&self) -> FormationErrorModel {
        match self {
            FormationError::IdentityMismatch(m) => FormationErrorModel::IdentityMismatch(*m),
            FormationError::StoreNotFresh => FormationErrorModel::StoreNotFresh,
            FormationError::AlreadyFormed => FormationErrorModel::AlreadyFormed,
            FormationError::NotAVoter => FormationErrorModel::NotAVoter,
            FormationError::EndpointMismatch { plane, planned, configured } =>
                FormationErrorModel::EndpointMismatch {
                plane: plane@,
                planned: planned@,
                configured: configured@,
            },
            FormationError::Raft(s) => FormationErrorModel::Raft(s@),
        }
    }
}

impl FormationErrorModel {
    /// The text of an error.
    pub open spec fn text(self) -> Seq<char> {
        match self {
            FormationErrorModel::IdentityMismatch(m) => m.text(),
            FormationErrorModel::StoreNotFresh =>
                "local store is not fresh; formation is only allowed on an empty store"@,
            FormationErrorModel::AlreadyFormed => "cluster is already formed"@,
            FormationErrorModel::NotAVoter =>
                "this node is not a voter in the supplied formation plan"@,
            FormationErrorModel::EndpointMismatch { plane, planned, configured } =>
                "formation plan gives this node "@ + plane + " endpoint "@ + text::quoted(planned)
                + ", but it is configured as "@ + text::quoted(configured),
            FormationErrorModel::Raft(s) => "raft error: "@ + s,
        }
    }
}

impl FormationError {
    /// The error as text.
    pub fn describe(&self) -> (r: String)
        ensures
            r@ == self@.text(),
    {
        match self {
            FormationError::IdentityMismatch(m) => m.describe(),
            FormationError::StoreNotFresh =>
                "local store is not fresh; formation is only allowed on an empty store".to_owned(),
            FormationError::AlreadyFormed => "cluster is already formed".to_owned(),
            FormationError::NotAVoter =>
                "this node is not a voter in the supplied formation plan".to_owned(),
            FormationError::EndpointMismatch { plane, planned, configured } => {
                let mut out = "formation plan gives this node ".to_owned();
                text::push_text(&mut out, plane);
                text::push_text(&mut out, " endpoint ");
                text::push_quoted(&mut out, planned.as_str());
                text::push_text(&mut out, ", but it is configured as ");
                text::push_quoted(&mut out, configured.as_str());
                out
            },
            FormationError::Raft(s) => text::two("raft error: ", s.as_str()),
        }
    }
}

/// A bounded wait expired.
#[derive(PartialEq, Eq, Debug)]
pub struct Timeout {
    /// What was being waited for.
    pub what: String,
    /// How long the wait lasted.
    pub waited: Duration,
    /// The node's metrics when the deadline expired.
    pub last: Box<NodeMetrics>,
}

/// What is waited for until an index is applied.
pub fn applied_wait_text(index: u64) -> (r: String)
    ensures
        r@ == "applied index >= "@ + text::decimal(index as nat),
{
    let mut out = "applied index >= ".to_owned();
    text::push_decimal(&mut out, index as u128);
    out
}

proof fn the_last_pair_of(pairs: Seq<(NodeId, Seq<char>)>, k: int)
    requires
        0 <= k < pairs.len(),
        forall|j: int| k < j < pairs.len() ==> (#[trigger] pairs[j]).0 != pairs[k].0,
    ensures
        collected(pairs).contains_key(pairs[k].0.0),
        collected(pairs)[pairs[k].0.0] == pairs[k].1,
    decreases pairs.len(),
{
    if k < pairs.len() - 1 {
        let init = pairs.drop_last();
        assert(init[k] == pairs[k]);
        assert(pairs[pairs.len() - 1].0 != pairs[k].0);
        assert forall|j: int| k < j < init.len() implies (#[trigger] init[j]).0 != init[k].0 by {
            assert(init[j] == pairs[j]);
        }
        the_last_pair_of(init, k);
    }
}

proof fn only_what_was_paired(pairs: Seq<(NodeId, Seq<char>)>, node: u64)
    requires
        collected(pairs).contains_key(node),
    ensures
        exists|k: int| 0 <= k < pairs.len() && (#[trigger] pairs[k]).0.0 == node,
    decreases pairs.len(),
{
    if pairs.last().0.0 != node {
        let init = pairs.drop_last();
        only_what_was_paired(init, node);
        let k = choose|k: int| 0 <= k < init.len() && (#[trigger] init[k]).0.0 == node;
        assert(pairs[k].0.0 == node);
    } else {
        assert(pairs[pairs.len() - 1].0.0 == node);
    }
}

/// A plan holds the nodes it was given and no other, each with the address that was given last.
pub proof fn a_plan_holds_what_it_was_given(pairs: Seq<(NodeId, Seq<char>)>, node: u64)
    ensures
        collected(pairs).contains_key(node) <==> exists|k: int|
            0 <= k < pairs.len() && (#[trigger] pairs[k]).0.0 == node,
        forall|k: int|
            0 <= k < pairs.len() && (#[trigger] pairs[k]).0.0 == node && (forall|j: int|
                k < j < pairs.len() ==> (#[trigger] pairs[j]).0.0 != node) ==> collected(
                pairs,
            )[node] == pairs[k].1,
    decreases pairs.len(),
{
    if collected(pairs).contains_key(node) {
        only_what_was_paired(pairs, node);
    }
    assert forall|k: int|
        0 <= k < pairs.len() && (#[trigger] pairs[k]).0.0 == node && (forall|j: int|
            k < j < pairs.len() ==> (#[trigger] pairs[j]).0.0 != node) implies collected(pairs)[node]
        == pairs[k].1 by {
        the_last_pair_of(pairs, k);
    }
    if exists|k: int| 0 <= k < pairs.len() && (#[trigger] pairs[k]).0.0 == node {
        let k = choose|k: int| 0 <= k < pairs.len() && (#[trigger] pairs[k]).0.0 == node;
        if k == pairs.len() - 1 {
            assert(pairs.last().0.0 == node);
        } else {
            let init = pairs.drop_last();
            assert(init[k].0.0 == node);
            a_plan_holds_what_it_was_given(init, node);
        }
    }
}

/// A plan gives a voter the client address that was named for it, and else its peer address; to
/// who is in neither list it gives none.
pub proof fn a_plan_gives_every_voter_a_client_address(plan: FormationPlan, node: u64)
    ensures
        plan.client_endpoints@.contains_key(node) ==> plan.client_of(node) == Some(
            plan.client_endpoints@[node]@,
        ),
        !plan.client_endpoints@.contains_key(node) && plan.voters@.contains_key(node)
            ==> plan.client_of(node) == Some(plan.voters@[node]@),
        plan.client_of(node) is None <==> !plan.client_endpoints@.contains_key(node)
            && !plan.voters@.contains_key(node),
{
}

/// The texts of a map are its own, key by key.
pub proof fn texts_are_those_of_the_map(m: Map<u64, String>, k: u64)
    ensures
        texts(m).contains_key(k) <==> m.contains_key(k),
        m.contains_key(k) ==> texts(m)[k] == m[k]@,
{
}

} // verus!
