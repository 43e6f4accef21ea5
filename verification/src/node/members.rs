//! Membership operations on a running cluster: learners, promotions, and removals that fence an
//! identity for good.

use std::collections::BTreeMap;
use std::collections::BTreeSet;
use vstd::prelude::*;

use crate::admin;
use crate::admin::AdminError;
use crate::admin::AdminErrorModel;
use crate::admin::MembershipReport;
use crate::admin::ReplicationProgress;
use crate::admin::SnapshotTriggered;
use crate::config::RaftNode;
use crate::listing;
use crate::metrics::LogIdView;
use crate::metrics::MembershipView;
use crate::metrics::NodeRole;
use crate::node::observed;
use crate::node::observed::RaftView;
use crate::node::observed::StoreView;
use crate::node::outcome;
use crate::node::outcome::Fatal;
use crate::node::schema::CommandGate;
use crate::node::ConfigNode;
use crate::text;
use crate::types;
use crate::types::ConfigErrorModel;
use crate::types::NodeId;
use crate::types::UNAVAILABLE_FEATURE_NOT_ACTIVATED;

verus! {

/// Whether a character is white space: whether it has Unicode's property of that name.
pub open spec fn is_space(c: char) -> bool {
    let n = c as int;
    ||| 0x09 <= n <= 0x0d
    ||| n == 0x20
    ||| n == 0x85
    ||| n == 0xa0
    ||| n == 0x1680
    ||| 0x2000 <= n <= 0x200a
    ||| n == 0x2028
    ||| n == 0x2029
    ||| n == 0x202f
    ||| n == 0x205f
    ||| n == 0x3000
}

/// `char::is_whitespace`. It is documented to hold of the characters that have the property
/// `White_Space`, which are those listed above.
#[verifier::external_body]
fn char_is_space(c: char) -> (r: bool)
    ensures
        r == is_space(c),
{
    c.is_whitespace()
}

/// Whether a text is nothing but white space.
pub open spec fn blank(s: Seq<char>) -> bool {
    forall|i: int| 0 <= i < s.len() ==> is_space(#[trigger] s[i])
}

/// Whether a text is nothing but white space.
pub fn is_blank(s: &str) -> (r: bool)
    ensures
        r == blank(s@),
{
    let n: usize = s.unicode_len();
    let mut i: usize = 0;
    while i < n
        invariant
            i <= n,
            n == s@.len(),
            forall|j: int| 0 <= j < i ==> is_space(#[trigger] s@[j]),
        decreases n - i,
    {
        let c: char = s.get_char(i);
        if !char_is_space(c) {
            assert(!is_space(s@[i as int]));
            return false;
        }
        i = i + 1;
    }
    true
}

/// What came of a membership change.
#[derive(PartialEq, Eq, Debug)]
pub enum ChangeOutcome {
    /// It was committed as this entry.
    Done(LogIdView),
    /// It was not.
    Failed(ChangeFailure),
}

/// What came of proposing to retire an identity.
#[derive(PartialEq, Eq, Debug)]
pub enum RetireOutcome {
    /// The deadline passed.
    TimedOut,
    /// It is retired.
    Retired,
    /// The command was refused when it was applied.
    Rejected { reason: String },
    /// The state machine answered something else, as `Debug` writes it.
    Other { debug: String },
    /// The proposal failed.
    Failed(ChangeFailure),
}

/// Why a change was not committed.
#[derive(PartialEq, Eq, Debug)]
pub enum ChangeFailure {
    /// Another node leads, if any.
    ForwardToLeader { leader: Option<NodeId> },
    /// It was refused, and nothing was committed.
    Refused { detail: String },
    /// The Raft core is gone.
    Fatal(Fatal),
}

/// The refusal for a change that failed. Leadership that moved is reported with the leader the
/// failure named: it is fresher than what this node last believed.
pub open spec fn change_refusal(
    failure: ChangeFailure,
    membership: MembershipView,
) -> AdminErrorModel {
    match failure {
        ChangeFailure::ForwardToLeader { leader } => AdminErrorModel::NotLeader {
            hint: match leader {
                Some(id) => outcome::hint_of(membership, id),
                None => None,
            },
        },
        ChangeFailure::Refused { detail } => AdminErrorModel::Raft(detail@),
        ChangeFailure::Fatal(fatal) => AdminErrorModel::Fatal(fatal@.text()),
    }
}

/// The refusal for a change that failed.
pub fn membership_error(failure: ChangeFailure, membership: &MembershipView) -> (e: AdminError)
    ensures
        e@ == change_refusal(failure, *membership),
{
    match failure {
        ChangeFailure::ForwardToLeader { leader } => AdminError::NotLeader {
            hint: match leader {
                Some(id) => outcome::hint_for(membership, id),
                None => None,
            },
        },
        ChangeFailure::Refused { detail } => AdminError::Raft(detail),
        ChangeFailure::Fatal(fatal) => AdminError::Fatal(fatal.describe()),
    }
}

/// What an operator is told of a membership change.
pub open spec fn change_verdict(outcome: ChangeOutcome, membership: MembershipView) -> Result<
    LogIdView,
    AdminErrorModel,
> {
    match outcome {
        ChangeOutcome::Done(id) => Ok(id),
        ChangeOutcome::Failed(failure) => Err(change_refusal(failure, membership)),
    }
}

/// What an operator is told of a membership change.
pub fn change_result(outcome: ChangeOutcome, membership: &MembershipView) -> (r: Result<
    LogIdView,
    AdminError,
>)
    ensures
        admin::verdict(r) == change_verdict(outcome, *membership),
{
    match outcome {
        ChangeOutcome::Done(id) => Ok(id),
        ChangeOutcome::Failed(failure) => Err(membership_error(failure, membership)),
    }
}

/// A log id as a view, from its parts.
pub open spec fn log_view(id: Option<(u64, u64)>) -> Option<LogIdView> {
    match id {
        Some((term, index)) => Some(LogIdView { term, index }),
        None => None,
    }
}

fn to_log_view(id: Option<(u64, u64)>) -> (r: Option<LogIdView>)
    ensures
        r == log_view(id),
{
    match id {
        Some((term, index)) => Some(LogIdView::new(term, index)),
        None => None,
    }
}

/// How far behind the leader a peer is.
pub open spec fn lag(leader_last: u64, matched: Option<u64>) -> u64 {
    match matched {
        Some(m) => crate::retention::minus(leader_last, m),
        None => leader_last,
    }
}

/// Whether a member is a learner: in the membership, and not a voter.
pub open spec fn is_learner(m: observed::Membership, id: u64) -> bool {
    m.nodes@.contains_key(id) && !m.voters@.contains(id)
}

/// What removing a member does next.
#[derive(Clone, Copy, PartialEq, Eq, Structural, Debug)]
pub enum RemovalStep {
    /// Make the voter a learner, keeping it in the membership: only a learner can be dropped.
    Demote,
    /// Drop it from the membership.
    Drop,
    /// Fence its identity through the log.
    Fence {
        /// The entry that ended the membership.
        last: Option<LogIdView>,
    },
    /// Nothing is left to do.
    Done {
        /// The entry that ended the membership.
        last: Option<LogIdView>,
    },
}

impl ConfigNode {
    /// Whether this node leads, by its own observation.
    pub open spec fn leads(&self, raft: RaftView) -> bool {
        raft.role is Leader && raft.current_leader == Some(self.cfg.identity.node_id)
    }

    /// Why an operation that needs the leader is refused, if it is.
    pub open spec fn leader_refusal(&self, raft: RaftView, store: StoreView) -> Option<
        AdminErrorModel,
    > {
        if self.stopped {
            Some(AdminErrorModel::Unavailable { reason: "stopped"@ })
        } else if self.leads(raft) {
            None
        } else {
            Some(
                AdminErrorModel::NotLeader {
                    hint: match raft.current_leader {
                        Some(id) => outcome::hint_of(store.membership, id),
                        None => None,
                    },
                },
            )
        }
    }

    fn is_leader(&self, raft: &RaftView) -> (r: bool)
        ensures
            r == self.leads(*raft),
    {
        raft.role == NodeRole::Leader && match raft.current_leader {
            Some(id) => id == self.cfg.identity.node_id,
            None => false,
        }
    }

    /// Refuse unless this node leads now, with the best hint it can prove.
    pub fn require_leader(&self, raft: &RaftView, store: &StoreView) -> (r: Result<(), AdminError>)
        ensures
            admin::verdict(r) == (match self.leader_refusal(*raft, *store) {
                Some(e) => Err(e),
                None => Ok(()),
            }),
    {
        if self.stopped {
            return Err(AdminError::Unavailable { reason: "stopped".to_owned() });
        }
        if self.is_leader(raft) {
            return Ok(());
        }
        Err(
            AdminError::NotLeader {
                hint: match raft.current_leader {
                    Some(id) => outcome::hint_for(&store.membership, id),
                    None => None,
                },
            },
        )
    }

    /// What `progress` says of one peer, given what the leader's core says.
    pub open spec fn tracks(
        &self,
        progress: Map<u64, ReplicationProgress>,
        replication: Map<u64, Option<u64>>,
        leader_last: u64,
    ) -> bool {
        &&& forall|k: u64| #[trigger]
            progress.contains_key(k) <==> replication.contains_key(k) && k
                != self.cfg.identity.node_id.0
        &&& forall|k: u64| #[trigger]
            progress.contains_key(k) ==> progress[k] == (ReplicationProgress {
                matched_index: replication[k],
                lag: lag(leader_last, replication[k]),
            })
    }

    fn progress_of(&self, replication: &BTreeMap<u64, Option<u64>>, leader_last: u64) -> (r:
        BTreeMap<u64, ReplicationProgress>)
        ensures
            self.tracks(r@, replication@, leader_last),
    {
        let entries = listing::list(replication);
        let ghost s = listing::listed(replication@);
        let mut out: BTreeMap<u64, ReplicationProgress> = BTreeMap::new();
        let me: u64 = self.cfg.identity.node_id.0;
        let mut i: usize = 0;
        while i < entries.len()
            invariant
                i <= entries@.len(),
                me == self.cfg.identity.node_id.0,
                listing::lists(s, replication@),
                entries@.len() == s.len(),
                forall|j: int|
                    0 <= j < entries@.len() ==> (#[trigger] entries@[j]).0 == s[j].0
                        && *entries@[j].1 == s[j].1,
                forall|k: u64| #[trigger]
                    out@.contains_key(k) <==> k != me && exists|j: int|
                        0 <= j < i && (#[trigger] s[j]).0 == k,
                forall|k: u64| #[trigger]
                    out@.contains_key(k) ==> out@[k] == (ReplicationProgress {
                        matched_index: replication@[k],
                        lag: lag(leader_last, replication@[k]),
                    }),
            decreases entries@.len() - i,
        {
            let ghost before = out@;
            let id: u64 = entries[i].0;
            let matched: Option<u64> = *entries[i].1;
            assert(s[i as int].0 == id);
            assert(replication@[id] == matched);
            if id != me {
                let lag: u64 = match matched {
                    Some(m) => leader_last.saturating_sub(m),
                    None => leader_last,
                };
                out.insert(id, ReplicationProgress { matched_index: matched, lag });
            }
            proof {
                assert forall|k: u64| #[trigger] out@.contains_key(k) <==> k != me && exists|
                    j: int,
                | 0 <= j < i + 1 && (#[trigger] s[j]).0 == k by {
                    if k == id {
                        assert(s[i as int].0 == k);
                    }
                    if k != id && before.contains_key(k) {
                        let j = choose|j: int| 0 <= j < i && (#[trigger] s[j]).0 == k;
                        assert(s[j].0 == k);
                    }
                }
                assert forall|k: u64| #[trigger] out@.contains_key(k) implies out@[k] == (
                ReplicationProgress {
                    matched_index: replication@[k],
                    lag: lag(leader_last, replication@[k]),
                }) by {
                    if k != id {
                        assert(before.contains_key(k));
                    }
                }
            }
            i = i + 1;
        }
        assert forall|k: u64| #[trigger] out@.contains_key(k) <==> replication@.contains_key(k)
            && k != me by {
            if replication@.contains_key(k) {
                let j = choose|j: int| 0 <= j < s.len() && (#[trigger] s[j]).0 == k;
                assert(s[j].0 == k);
            }
        }
        out
    }

    /// Everything this node knows about membership. Replication progress is only known on the
    /// leader; off it the report says so, and an empty map is not read as a quiet cluster.
    pub fn membership_report(&self, raft: &RaftView, store: &StoreView) -> (r: MembershipReport)
        ensures
            r.membership.voters@ == store.membership.voters@,
            r.membership.endpoints@ == store.membership.endpoints@,
            r.membership.client_endpoints@ == store.membership.client_endpoints@,
            r.membership.membership_log_id == store.membership.membership_log_id,
            forall|k: u64| #[trigger]
                r.learners@.contains(k) <==> is_learner(raft.effective, k),
            r.joint_config_len == raft.effective.joint_config_len,
            r.retired@ == store.retired@,
            r.leader_last_log_index == (match (self.leads(*raft), raft.last_log_index) {
                (true, Some(i)) => i,
                _ => 0,
            }),
            match (raft.replication, self.leads(*raft)) {
                (Some(map), true) => self.tracks(
                    r.replication@,
                    map@,
                    r.leader_last_log_index,
                ),
                _ => r.replication@ == Map::<u64, ReplicationProgress>::empty(),
            },
            r.current_leader == raft.current_leader,
            r.authoritative == self.leads(*raft),
            r.promote_max_lag == self.cfg.promote_max_lag,
            r.effective_endpoints@.dom() == raft.effective.nodes@.dom(),
            forall|k: u64| #[trigger]
                r.effective_endpoints@.contains_key(k) ==> r.effective_endpoints@[k].0@
                    == raft.effective.nodes@[k].peer@ && r.effective_endpoints@[k].1@
                    == raft.effective.nodes@[k].client@,
            r.effective_membership_log_id == raft.effective.log_id,
    {
        let authoritative: bool = self.is_leader(raft);
        let leader_last: u64 = match (authoritative, raft.last_log_index) {
            (true, Some(i)) => i,
            _ => 0,
        };
        let entries = listing::list(&raft.effective.nodes);
        let ghost s = listing::listed(raft.effective.nodes@);
        let mut learners: BTreeSet<u64> = BTreeSet::new();
        let mut endpoints: BTreeMap<u64, (String, String)> = BTreeMap::new();
        let mut i: usize = 0;
        while i < entries.len()
            invariant
                i <= entries@.len(),
                listing::lists(s, raft.effective.nodes@),
                entries@.len() == s.len(),
                forall|j: int|
                    0 <= j < entries@.len() ==> (#[trigger] entries@[j]).0 == s[j].0
                        && *entries@[j].1 == s[j].1,
                forall|k: u64| #[trigger]
                    endpoints@.contains_key(k) <==> exists|j: int|
                        0 <= j < i && (#[trigger] s[j]).0 == k,
                forall|k: u64| #[trigger]
                    learners@.contains(k) <==> endpoints@.contains_key(k)
                        && !raft.effective.voters@.contains(k),
                forall|k: u64| #[trigger]
                    endpoints@.contains_key(k) ==> endpoints@[k].0@
                        == raft.effective.nodes@[k].peer@ && endpoints@[k].1@
                        == raft.effective.nodes@[k].client@,
            decreases entries@.len() - i,
        {
            let ghost before = endpoints@;
            let ghost learners_before = learners@;
            let id: u64 = entries[i].0;
            assert(s[i as int].0 == id);
            assert(raft.effective.nodes@[id] == s[i as int].1);
            if !raft.effective.voters.contains(&id) {
                learners.insert(id);
            }
            endpoints.insert(id, (entries[i].1.peer.clone(), entries[i].1.client.clone()));
            proof {
                assert forall|k: u64| #[trigger] endpoints@.contains_key(k) <==> exists|j: int|
                    0 <= j < i + 1 && (#[trigger] s[j]).0 == k by {
                    if k == id {
                        assert(s[i as int].0 == k);
                    }
                    if k != id && before.contains_key(k) {
                        let j = choose|j: int| 0 <= j < i && (#[trigger] s[j]).0 == k;
                        assert(s[j].0 == k);
                    }
                }
                assert forall|k: u64| #[trigger] learners@.contains(k) <==> endpoints@.contains_key(
                    k,
                ) && !raft.effective.voters@.contains(k) by {
                    assert(learners_before.contains(k) <==> before.contains_key(k)
                        && !raft.effective.voters@.contains(k));
                }
                assert forall|k: u64| #[trigger] endpoints@.contains_key(k) implies endpoints@[k].0@
                    == raft.effective.nodes@[k].peer@ && endpoints@[k].1@
                    == raft.effective.nodes@[k].client@ by {
                    if k != id {
                        assert(before.contains_key(k));
                    }
                }
            }
            i = i + 1;
        }
        assert forall|k: u64| endpoints@.contains_key(k) <==> raft.effective.nodes@.contains_key(
            k,
        ) by {
            if raft.effective.nodes@.contains_key(k) {
                let j = choose|j: int| 0 <= j < s.len() && (#[trigger] s[j]).0 == k;
                assert(s[j].0 == k);
            }
        }
        assert(endpoints@.dom() =~= raft.effective.nodes@.dom());
        let replication: BTreeMap<u64, ReplicationProgress> = match (
            &raft.replication,
            authoritative,
        ) {
            (Some(map), true) => self.progress_of(map, leader_last),
            _ => BTreeMap::new(),
        };
        MembershipReport {
            membership: observed::clone_membership(&store.membership),
            learners,
            joint_config_len: raft.effective.joint_config_len,
            retired: observed::clone_set(&store.retired),
            replication,
            leader_last_log_index: leader_last,
            current_leader: raft.current_leader,
            authoritative,
            promote_max_lag: self.cfg.promote_max_lag,
            effective_endpoints: endpoints,
            effective_membership_log_id: raft.effective.log_id,
        }
    }

    /// How far a peer is behind, as far as this node knows.
    pub open spec fn known_lag(&self, raft: RaftView, node_id: NodeId) -> Option<u64> {
        match (raft.replication, self.leads(raft), raft.last_log_index) {
            (Some(map), true, last) => if map@.contains_key(node_id.0) && map@[node_id.0] is Some
                && node_id != self.cfg.identity.node_id {
                Some(
                    lag(
                        match last {
                            Some(i) => i,
                            None => 0,
                        },
                        map@[node_id.0],
                    ),
                )
            } else {
                None
            },
            _ => None,
        }
    }

    /// How many log entries `node_id` is behind this leader, or `None` when this node is not the
    /// leader or has heard nothing from that peer.
    pub fn replication_lag(&self, raft: &RaftView, store: &StoreView, node_id: NodeId) -> (r:
        Option<u64>)
        ensures
            r == self.known_lag(*raft, node_id),
    {
        let report = self.membership_report(raft, store);
        assert(report.replication@.contains_key(node_id.0) ==> report.replication@[node_id.0].lag
            == lag(report.leader_last_log_index, raft.replication->0@[node_id.0]));
        report.lag_of(node_id)
    }

    /// Why adding a learner is refused, if it is. A retired identity never comes back, not even
    /// as a learner.
    pub open spec fn learner_refusal(
        &self,
        raft: RaftView,
        store: StoreView,
        node_id: NodeId,
        peer: Seq<char>,
        client: Seq<char>,
    ) -> Option<AdminErrorModel> {
        if self.leader_refusal(raft, store) is Some {
            self.leader_refusal(raft, store)
        } else if node_id == self.cfg.identity.node_id {
            Some(
                AdminErrorModel::InvalidArgument {
                    detail: "already_a_member: this node is the leader it was asked to add"@,
                },
            )
        } else if blank(peer) || blank(client) {
            Some(
                AdminErrorModel::InvalidArgument {
                    detail:
                        "endpoint_required: a learner needs both a peer and a client endpoint"@,
                },
            )
        } else if store.retired@.contains(node_id.0) {
            Some(AdminErrorModel::Retired { node_id })
        } else if store.membership.voters@.contains(node_id.0) {
            Some(
                AdminErrorModel::InvalidArgument {
                    detail: "already_a_voter: node "@ + text::decimal(node_id.0 as nat)
                        + " is already a voter"@,
                },
            )
        } else {
            None
        }
    }

    /// Judge a request to add a learner. What comes back is the member to add, without waiting
    /// for it to catch up: whether it has is read from the report.
    pub fn add_learner(
        &self,
        raft: &RaftView,
        store: &StoreView,
        node_id: NodeId,
        peer_endpoint: String,
        client_endpoint: String,
    ) -> (r: Result<RaftNode, AdminError>)
        ensures
            match r {
                Ok(n) => {
                    &&& self.learner_refusal(
                        *raft,
                        *store,
                        node_id,
                        peer_endpoint@,
                        client_endpoint@,
                    ) is None
                    &&& n.peer == peer_endpoint
                    &&& n.client == client_endpoint
                },
                Err(e) => self.learner_refusal(
                    *raft,
                    *store,
                    node_id,
                    peer_endpoint@,
                    client_endpoint@,
                ) == Some(e@),
            },
    {
        if let Err(e) = self.require_leader(raft, store) {
            return Err(e);
        }
        if node_id == self.cfg.identity.node_id {
            return Err(
                AdminError::InvalidArgument {
                    detail: "already_a_member: this node is the leader it was asked to add".to_owned(),
                },
            );
        }
        if is_blank(peer_endpoint.as_str()) || is_blank(client_endpoint.as_str()) {
            return Err(
                AdminError::InvalidArgument {
                    detail:
                        "endpoint_required: a learner needs both a peer and a client endpoint".to_owned(),
                },
            );
        }
        if store.retired.contains(&node_id.0) {
            return Err(AdminError::Retired { node_id });
        }
        if store.membership.voters.contains(&node_id.0) {
            let mut detail = "already_a_voter: node ".to_owned();
            text::push_decimal(&mut detail, node_id.0 as u128);
            text::push_text(&mut detail, " is already a voter");
            return Err(AdminError::InvalidArgument { detail });
        }
        Ok(RaftNode { peer: peer_endpoint, client: client_endpoint })
    }

    /// The lag a promotion is judged by: a peer that was never heard from lags by the whole log.
    pub open spec fn promotion_lag(&self, raft: RaftView, node_id: NodeId) -> u64 {
        let last = match raft.last_log_index {
            Some(i) => i,
            None => 0,
        };
        match raft.replication {
            Some(map) => if map@.contains_key(node_id.0) && node_id != self.cfg.identity.node_id {
                lag(last, map@[node_id.0])
            } else {
                last
            },
            None => last,
        }
    }

    /// Why a promotion is refused, if it is.
    pub open spec fn promotion_refusal(
        &self,
        raft: RaftView,
        store: StoreView,
        node_id: NodeId,
    ) -> Option<AdminErrorModel> {
        if self.leader_refusal(raft, store) is Some {
            self.leader_refusal(raft, store)
        } else if store.retired@.contains(node_id.0) {
            Some(AdminErrorModel::Retired { node_id })
        } else if store.membership.voters@.contains(node_id.0) {
            None
        } else if !is_learner(raft.effective, node_id.0) {
            Some(AdminErrorModel::NotAMember { node_id })
        } else if raft.effective.joint_config_len > 1 {
            Some(
                AdminErrorModel::Unavailable {
                    reason:
                        "joint_config_in_flight: re-issue the interrupted membership change first"@,
                },
            )
        } else if self.promotion_lag(raft, node_id) > self.cfg.promote_max_lag {
            Some(
                AdminErrorModel::Lagging {
                    node_id,
                    lag: self.promotion_lag(raft, node_id),
                    max: self.cfg.promote_max_lag,
                },
            )
        } else {
            None
        }
    }

    /// Judge a request to promote a learner, live, against this leader's own replication state.
    /// `Some` means that nothing is left to do: the node is a voter already, since that entry.
    pub fn promote_voter(&self, raft: &RaftView, store: &StoreView, node_id: NodeId) -> (r: Result<
        Option<Option<LogIdView>>,
        AdminError,
    >)
        ensures
            admin::verdict(r) == (match self.promotion_refusal(*raft, *store, node_id) {
                Some(e) => Err(e),
                None => Ok(
                    if store.membership.voters@.contains(node_id.0) {
                        Some(log_view(store.membership.membership_log_id))
                    } else {
                        None
                    },
                ),
            }),
    {
        if let Err(e) = self.require_leader(raft, store) {
            return Err(e);
        }
        if store.retired.contains(&node_id.0) {
            return Err(AdminError::Retired { node_id });
        }
        let report = self.membership_report(raft, store);
        if report.membership.voters.contains(&node_id.0) {
            return Ok(Some(to_log_view(report.membership.membership_log_id)));
        }
        if !report.learners.contains(&node_id.0) {
            return Err(AdminError::NotAMember { node_id });
        }
        if report.is_joint() {
            return Err(
                AdminError::Unavailable {
                    reason:
                        "joint_config_in_flight: re-issue the interrupted membership change first".to_owned(),
                },
            );
        }
        let max: u64 = self.cfg.promote_max_lag;
        assert(report.replication@.contains_key(node_id.0) ==> report.replication@[node_id.0].lag
            == self::lag(report.leader_last_log_index, raft.replication->0@[node_id.0]));
        let lag: u64 = match report.lag_of(node_id) {
            Some(l) => l,
            None => report.leader_last_log_index,
        };
        if lag > max {
            return Err(AdminError::Lagging { node_id, lag, max });
        }
        Ok(None)
    }

    /// Why a removal is refused before its first step, if it is.
    pub open spec fn removal_refusal(
        &self,
        raft: RaftView,
        store: StoreView,
        node_id: NodeId,
    ) -> Option<AdminErrorModel> {
        if self.leader_refusal(raft, store) is Some {
            self.leader_refusal(raft, store)
        } else if node_id == self.cfg.identity.node_id {
            Some(
                AdminErrorModel::InvalidArgument {
                    detail:
                        "cannot_remove_self: step down first, then remove this node from the new leader"@,
                },
            )
        } else {
            None
        }
    }

    /// Where a removal begins. An identity that is out and fenced needs nothing; one that is out
    /// and not fenced is what a removal that was cut short leaves behind, and is fenced.
    pub open spec fn first_step(&self, raft: RaftView, store: StoreView, node_id: NodeId) -> RemovalStep {
        if store.membership.voters@.contains(node_id.0) {
            RemovalStep::Demote
        } else if is_learner(raft.effective, node_id.0) {
            RemovalStep::Drop
        } else if store.retired@.contains(node_id.0) {
            RemovalStep::Done { last: None }
        } else {
            RemovalStep::Fence { last: log_view(store.membership.membership_log_id) }
        }
    }

    /// Begin to remove a member.
    pub fn remove_member(&self, raft: &RaftView, store: &StoreView, node_id: NodeId) -> (r: Result<
        RemovalStep,
        AdminError,
    >)
        ensures
            admin::verdict(r) == (match self.removal_refusal(*raft, *store, node_id) {
                Some(e) => Err(e),
                None => Ok(self.first_step(*raft, *store, node_id)),
            }),
    {
        if let Err(e) = self.require_leader(raft, store) {
            return Err(e);
        }
        if node_id == self.cfg.identity.node_id {
            return Err(
                AdminError::InvalidArgument {
                    detail:
                        "cannot_remove_self: step down first, then remove this node from the new leader".to_owned(),
                },
            );
        }
        let report = self.membership_report(raft, store);
        if report.membership.voters.contains(&node_id.0) {
            return Ok(RemovalStep::Demote);
        }
        if report.learners.contains(&node_id.0) {
            return Ok(RemovalStep::Drop);
        }
        if report.retired.contains(&node_id.0) {
            return Ok(RemovalStep::Done { last: None });
        }
        Ok(RemovalStep::Fence { last: to_log_view(report.membership.membership_log_id) })
    }

    /// What follows a committed step.
    pub open spec fn step_after(step: RemovalStep, committed: LogIdView) -> RemovalStep {
        match step {
            RemovalStep::Demote => RemovalStep::Drop,
            RemovalStep::Drop => RemovalStep::Fence { last: Some(committed) },
            other => other,
        }
    }

    /// Go on with a removal once a membership change was tried.
    pub fn remove_next(step: RemovalStep, outcome: ChangeOutcome, membership: &MembershipView) -> (r:
        Result<RemovalStep, AdminError>)
        requires
            step is Demote || step is Drop,
        ensures
            admin::verdict(r) == (match change_verdict(outcome, *membership) {
                Ok(id) => Ok(Self::step_after(step, id)),
                Err(e) => Err(e),
            }),
    {
        match change_result(outcome, membership) {
            Err(e) => Err(e),
            Ok(id) => Ok(
                match step {
                    RemovalStep::Demote => RemovalStep::Drop,
                    RemovalStep::Drop => RemovalStep::Fence { last: Some(id) },
                    other => other,
                },
            ),
        }
    }

    /// Whether the identity may be fenced now: the fence is a command, and passes the schema gate
    /// like any other.
    pub fn propose_retire(&mut self, gate: Option<CommandGate>, role: NodeRole, store: &StoreView) -> (r:
        Result<(), AdminError>)
        requires
            old(self).wf(),
        ensures
            final(self).wf(),
            admin::verdict(r) == (if old(self).gate_passes(gate, role, *store) {
                Ok(())
            } else {
                Err(
                    AdminErrorModel::Unavailable {
                        reason: ConfigErrorModel::unavailable(
                            UNAVAILABLE_FEATURE_NOT_ACTIVATED@,
                        ).text(),
                    },
                )
            }),
            old(self).gated(gate, role, *store, *final(self)),
    {
        match self.schema_gate(gate, role, store) {
            Ok(_) => Ok(()),
            Err(e) => Err(AdminError::Unavailable { reason: e.describe() }),
        }
    }

    /// What an operator is told of the fence. An unconfirmed fence is retryable, because fencing
    /// twice changes nothing.
    pub open spec fn retire_refusal(
        outcome: RetireOutcome,
        membership: MembershipView,
    ) -> Option<AdminErrorModel> {
        match outcome {
            RetireOutcome::TimedOut => Some(
                AdminErrorModel::Unavailable {
                    reason:
                        "retire_not_confirmed: the RetireNode entry did not commit before the write deadline; re-issue RemoveMember"@,
                },
            ),
            RetireOutcome::Retired => None,
            RetireOutcome::Rejected { reason } => Some(
                AdminErrorModel::InvalidArgument { detail: reason@ },
            ),
            RetireOutcome::Other { debug } => Some(
                AdminErrorModel::Fatal(
                    "the state machine answered "@ + debug@ + " for a RetireNode entry"@,
                ),
            ),
            RetireOutcome::Failed(failure) => Some(change_refusal(failure, membership)),
        }
    }

    /// Finish a removal whose fence was proposed: the entry that ended the membership.
    pub fn remove_result(
        last: Option<LogIdView>,
        outcome: RetireOutcome,
        membership: &MembershipView,
    ) -> (r: Result<Option<LogIdView>, AdminError>)
        ensures
            admin::verdict(r) == (match Self::retire_refusal(outcome, *membership) {
                Some(e) => Err(e),
                None => Ok(last),
            }),
    {
        match outcome {
            RetireOutcome::TimedOut => Err(
                AdminError::Unavailable {
                    reason:
                        "retire_not_confirmed: the RetireNode entry did not commit before the write deadline; re-issue RemoveMember".to_owned(),
                },
            ),
            RetireOutcome::Retired => Ok(last),
            RetireOutcome::Rejected { reason } => Err(
                AdminError::InvalidArgument { detail: reason },
            ),
            RetireOutcome::Other { debug } => {
                let mut out = text::two("the state machine answered ", debug.as_str());
                text::push_text(&mut out, " for a RetireNode entry");
                Err(AdminError::Fatal(out))
            },
            RetireOutcome::Failed(failure) => Err(membership_error(failure, membership)),
        }
    }

    /// Judge a request for a snapshot. `Some` is the answer already: a build is in flight, and
    /// another request would do nothing.
    pub fn trigger_snapshot(&self, builds_in_flight: u64) -> (r: Result<
        Option<SnapshotTriggered>,
        AdminError,
    >)
        ensures
            admin::verdict(r) == (if self.stopped {
                Err(AdminErrorModel::Unavailable { reason: "stopped"@ })
            } else if builds_in_flight > 0 {
                Ok(Some(SnapshotTriggered::AlreadyInProgress))
            } else {
                Ok(None)
            }),
    {
        if self.stopped {
            return Err(AdminError::Unavailable { reason: "stopped".to_owned() });
        }
        if builds_in_flight > 0 {
            return Ok(Some(SnapshotTriggered::AlreadyInProgress));
        }
        Ok(None)
    }

    /// What an operator is told who asked for a snapshot, if it is time to.
    pub open spec fn snapshot_answer(
        before: Option<String>,
        published: Option<(String, Option<LogIdView>)>,
        expired: bool,
    ) -> Option<SnapshotTriggered> {
        match published {
            Some((id, last_log_id)) => if before is None || before->Some_0@ != id@ {
                Some(SnapshotTriggered::Started { snapshot_id: Some(id), last_log_id })
            } else if expired {
                Some(SnapshotTriggered::Started { snapshot_id: None, last_log_id: None })
            } else {
                None
            },
            None => if expired {
                Some(SnapshotTriggered::Started { snapshot_id: None, last_log_id: None })
            } else {
                None
            },
        }
    }

    /// Look whether the requested snapshot was published: one with another id than `before`. When
    /// the deadline has passed the answer is that it was started; otherwise the caller looks
    /// again later.
    pub fn snapshot_poll(
        before: &Option<String>,
        published: Option<(String, Option<LogIdView>)>,
        expired: bool,
    ) -> (r: Option<SnapshotTriggered>)
        ensures
            r == Self::snapshot_answer(*before, published, expired),
    {
        if let Some((id, last_log_id)) = published {
            let fresh: bool = match before {
                None => true,
                Some(b) => *b != id,
            };
            if fresh {
                return Some(SnapshotTriggered::Started { snapshot_id: Some(id), last_log_id });
            }
        }
        if expired {
            Some(SnapshotTriggered::Started { snapshot_id: None, last_log_id: None })
        } else {
            None
        }
    }
}

/// A retired identity never enters the membership again: it is neither added as a learner nor
/// promoted.
pub proof fn a_retired_identity_stays_out(
    node: ConfigNode,
    raft: RaftView,
    store: StoreView,
    node_id: NodeId,
    peer: Seq<char>,
    client: Seq<char>,
)
    requires
        store.retired@.contains(node_id.0),
    ensures
        node.learner_refusal(raft, store, node_id, peer, client) is Some,
        node.promotion_refusal(raft, store, node_id) is Some,
{
}

/// Only a leader changes the membership, and never by removing itself.
pub proof fn only_a_leader_changes_membership(
    node: ConfigNode,
    raft: RaftView,
    store: StoreView,
    node_id: NodeId,
    peer: Seq<char>,
    client: Seq<char>,
)
    ensures
        !node.leads(raft) || node.stopped ==> {
            &&& node.learner_refusal(raft, store, node_id, peer, client) is Some
            &&& node.promotion_refusal(raft, store, node_id) is Some
            &&& node.removal_refusal(raft, store, node_id) is Some
        },
        node.removal_refusal(raft, store, node.cfg.identity.node_id) is Some,
{
}

/// A promotion that goes ahead is of a learner that has caught up as far as is asked, while no
/// other change is in flight.
pub proof fn a_promoted_learner_has_caught_up(
    node: ConfigNode,
    raft: RaftView,
    store: StoreView,
    node_id: NodeId,
)
    requires
        node.promotion_refusal(raft, store, node_id) is None,
        !store.membership.voters@.contains(node_id.0),
    ensures
        is_learner(raft.effective, node_id.0),
        raft.effective.joint_config_len <= 1,
        node.promotion_lag(raft, node_id) <= node.cfg.promote_max_lag,
        raft.effective.nodes@.contains_key(node_id.0),
        !raft.effective.voters@.contains(node_id.0),
        !store.retired@.contains(node_id.0),
        raft.last_log_index matches Some(last) ==> last <= node.cfg.promote_max_lag || (
        raft.replication matches Some(map) && map@.contains_key(node_id.0) && (map@[node_id.0]
            matches Some(matched) && matched + node.cfg.promote_max_lag >= last)),
{
}

/// A learner that has caught up is promoted: a leader that runs refuses only a retired identity, a
/// node that is no learner, one that is further behind than is allowed, and a change while another
/// is in flight.
pub proof fn a_learner_that_caught_up_is_promoted(
    node: ConfigNode,
    raft: RaftView,
    store: StoreView,
    node_id: NodeId,
)
    requires
        !node.stopped,
        raft.role is Leader,
        raft.current_leader == Some(node.cfg.identity.node_id),
        !store.retired@.contains(node_id.0),
        raft.effective.nodes@.contains_key(node_id.0),
        !raft.effective.voters@.contains(node_id.0),
        raft.effective.joint_config_len <= 1,
        raft.last_log_index matches Some(last) ==> last <= node.cfg.promote_max_lag || (node_id
            != node.cfg.identity.node_id && (raft.replication matches Some(map)
            && map@.contains_key(node_id.0) && (map@[node_id.0] matches Some(matched) && matched
            + node.cfg.promote_max_lag >= last))),
    ensures
        node.promotion_refusal(raft, store, node_id) is None,
{
}

/// A promotion that is refused for lag names how many entries are missing: with those the peer has
/// they make up the leader's log, and a peer that was never heard from misses all of it.
pub proof fn a_lagging_learner_learns_by_how_much(
    node: ConfigNode,
    raft: RaftView,
    store: StoreView,
    node_id: NodeId,
)
    requires
        node_id != node.cfg.identity.node_id,
        node.promotion_refusal(raft, store, node_id) is Some,
        node.promotion_refusal(raft, store, node_id)->Some_0 is Lagging,
    ensures
        node.promotion_refusal(raft, store, node_id)->Some_0 matches AdminErrorModel::Lagging {
            node_id: named,
            lag,
            max,
        } && {
            &&& named == node_id
            &&& max == node.cfg.promote_max_lag
            &&& lag > max
            &&& raft.last_log_index matches Some(last) && match raft.replication {
                Some(map) => if map@.contains_key(node_id.0) && map@[node_id.0] is Some {
                    lag + map@[node_id.0]->Some_0 == last
                } else {
                    lag == last
                },
                None => lag == last,
            }
        },
{
}

/// A lag and what was matched make up the leader's log. A peer that is ahead of what this leader
/// has noted lags by nothing, and one that was never heard from by everything.
pub proof fn a_lag_is_what_is_missing(leader_last: u64, matched: Option<u64>)
    ensures
        matched matches Some(m) ==> (m <= leader_last ==> lag(leader_last, matched) + m
            == leader_last) && (m >= leader_last ==> lag(leader_last, matched) == 0),
        matched is None ==> lag(leader_last, matched) == leader_last,
{
}

/// Progress is reported of every peer the leader replicates to and of nobody else, with the entry
/// the leader has matched and the number that is missing.
pub proof fn progress_adds_up(
    node: ConfigNode,
    progress: Map<u64, ReplicationProgress>,
    replication: Map<u64, Option<u64>>,
    leader_last: u64,
    peer: u64,
)
    requires
        node.tracks(progress, replication, leader_last),
    ensures
        progress.contains_key(peer) <==> replication.contains_key(peer) && peer
            != node.cfg.identity.node_id.0,
        progress.contains_key(peer) ==> progress[peer].matched_index == replication[peer],
        progress.contains_key(peer) ==> match replication[peer] {
            Some(m) => if m <= leader_last {
                progress[peer].lag + m == leader_last
            } else {
                progress[peer].lag == 0
            },
            None => progress[peer].lag == leader_last,
        },
{
}

/// Membership is changed by a node that runs, leads, and knows that it is the leader, and by no
/// other. Another is told who leads, if that is known.
pub proof fn a_change_needs_the_leader(node: ConfigNode, raft: RaftView, store: StoreView)
    ensures
        node.leader_refusal(raft, store) is None <==> {
            &&& !node.stopped
            &&& raft.role is Leader
            &&& raft.current_leader == Some(node.cfg.identity.node_id)
        },
        node.leader_refusal(raft, store) matches Some(e) ==> if node.stopped {
            e is Unavailable
        } else {
            e is NotLeader && (raft.current_leader is None ==> e == (AdminErrorModel::NotLeader {
                hint: None,
            }))
        },
{
}

/// A learner is added exactly when a running leader is asked to add another node than itself, one
/// that is neither retired nor a voter, with an address for its peers and one for its clients.
pub proof fn a_learner_is_added_exactly_when_it_may(
    node: ConfigNode,
    raft: RaftView,
    store: StoreView,
    node_id: NodeId,
    peer: Seq<char>,
    client: Seq<char>,
)
    ensures
        node.learner_refusal(raft, store, node_id, peer, client) is None <==> {
            &&& !node.stopped
            &&& raft.role is Leader
            &&& raft.current_leader == Some(node.cfg.identity.node_id)
            &&& node_id != node.cfg.identity.node_id
            &&& exists|i: int| 0 <= i < peer.len() && !is_space(#[trigger] peer[i])
            &&& exists|i: int| 0 <= i < client.len() && !is_space(#[trigger] client[i])
            &&& !store.retired@.contains(node_id.0)
            &&& !store.membership.voters@.contains(node_id.0)
        },
{
}

/// A removal begins exactly when a running leader is asked to remove another node than itself. It
/// begins where the node stands: a voter is demoted, a learner is dropped, one that is out is
/// fenced, and for one that is out and fenced nothing is left.
pub proof fn a_removal_begins_where_the_node_stands(
    node: ConfigNode,
    raft: RaftView,
    store: StoreView,
    node_id: NodeId,
)
    ensures
        node.removal_refusal(raft, store, node_id) is None <==> {
            &&& !node.stopped
            &&& raft.role is Leader
            &&& raft.current_leader == Some(node.cfg.identity.node_id)
            &&& node_id != node.cfg.identity.node_id
        },
        ({
            let step = node.first_step(raft, store, node_id);
            let votes = store.membership.voters@.contains(node_id.0);
            let learns = raft.effective.nodes@.contains_key(node_id.0)
                && !raft.effective.voters@.contains(node_id.0);
            let fenced = store.retired@.contains(node_id.0);
            &&& step is Demote <==> votes
            &&& step is Drop <==> !votes && learns
            &&& step is Done <==> !votes && !learns && fenced
            &&& step is Fence <==> !votes && !learns && !fenced
            &&& step matches RemovalStep::Fence { last } ==> match store.membership.membership_log_id {
                Some(id) => last matches Some(l) && (l.term, l.index) == id,
                None => last is None,
            }
        }),
{
}

/// A removal is done only when its fence was: whatever else came of the proposal is an error, and
/// one that can be tried again is told apart from one that cannot.
pub proof fn a_removal_is_done_only_when_fenced(
    outcome: RetireOutcome,
    membership: MembershipView,
)
    ensures
        ConfigNode::retire_refusal(outcome, membership) is None <==> outcome is Retired,
        ConfigNode::retire_refusal(outcome, membership) matches Some(e) ==> match outcome {
            RetireOutcome::TimedOut => e is Unavailable,
            RetireOutcome::Rejected { reason } => e == (AdminErrorModel::InvalidArgument {
                detail: reason@,
            }),
            RetireOutcome::Other { .. } => e is Fatal,
            RetireOutcome::Failed(failure) => match failure {
                ChangeFailure::ForwardToLeader { .. } => e is NotLeader,
                ChangeFailure::Refused { detail } => e == AdminErrorModel::Raft(detail@),
                ChangeFailure::Fatal(_) => e is Fatal,
            },
            RetireOutcome::Retired => false,
        },
{
}

/// An operator is told of a change that it was made, with its entry, exactly when it was committed.
pub proof fn a_change_is_reported_as_it_went(outcome: ChangeOutcome, membership: MembershipView)
    ensures
        change_verdict(outcome, membership) matches Ok(id) ==> outcome == ChangeOutcome::Done(id),
        outcome matches ChangeOutcome::Done(id) ==> change_verdict(outcome, membership) == Ok::<
            LogIdView,
            AdminErrorModel,
        >(id),
        outcome matches ChangeOutcome::Failed(failure) ==> (change_verdict(outcome, membership)
            matches Err(e) && match failure {
            ChangeFailure::ForwardToLeader { leader } => e is NotLeader && (leader is None ==> e
                == (AdminErrorModel::NotLeader { hint: None })),
            ChangeFailure::Refused { detail } => e == AdminErrorModel::Raft(detail@),
            ChangeFailure::Fatal(_) => e is Fatal,
        }),
{
}

/// Promoting a voter is a no-op that any leader answers with the entry its membership is from, so
/// a promotion can be issued again. Only a retired identity is refused.
pub proof fn promotion_is_idempotent(
    node: ConfigNode,
    raft: RaftView,
    store: StoreView,
    node_id: NodeId,
)
    requires
        store.membership.voters@.contains(node_id.0),
        !store.retired@.contains(node_id.0),
        node.leads(raft),
        !node.stopped,
    ensures
        node.promotion_refusal(raft, store, node_id) is None,
{
}

/// Removing a member that is out and fenced is a no-op, so a removal can be issued again after
/// it was cut short.
pub proof fn removal_is_idempotent(
    node: ConfigNode,
    raft: RaftView,
    store: StoreView,
    node_id: NodeId,
)
    requires
        !store.membership.voters@.contains(node_id.0),
        !raft.effective.nodes@.contains_key(node_id.0),
        store.retired@.contains(node_id.0),
    ensures
        node.first_step(raft, store, node_id) == (RemovalStep::Done { last: None }),
{
}

/// A removal that goes through ends with a fence, whatever state it began in: unless the identity
/// is fenced already, at most two membership changes come before the fence, a voter being
/// demoted before it is dropped.
pub proof fn removal_ends_with_a_fence(
    node: ConfigNode,
    raft: RaftView,
    store: StoreView,
    node_id: NodeId,
    first: LogIdView,
    second: LogIdView,
)
    ensures
        ({
            let begin = node.first_step(raft, store, node_id);
            &&& begin is Demote ==> ConfigNode::step_after(begin, first) is Drop
                && ConfigNode::step_after(ConfigNode::step_after(begin, first), second) == (
            RemovalStep::Fence { last: Some(second) })
            &&& begin is Drop ==> ConfigNode::step_after(begin, first) == (RemovalStep::Fence {
                last: Some(first),
            })
            &&& begin is Done ==> store.retired@.contains(node_id.0)
        }),
{
}

/// A lag is known exactly on the leader, of a peer it has heard from, and makes up its log with
/// what was matched.
pub proof fn a_lag_is_known_on_the_leader(node: ConfigNode, raft: RaftView, peer: NodeId)
    ensures
        node.known_lag(raft, peer) is Some <==> {
            &&& raft.role is Leader
            &&& raft.current_leader == Some(node.cfg.identity.node_id)
            &&& peer != node.cfg.identity.node_id
            &&& raft.replication matches Some(map) && map@.contains_key(peer.0) && map@[peer.0]
                is Some
        },
        node.known_lag(raft, peer) matches Some(lag) ==> {
            let matched = raft.replication->Some_0@[peer.0]->Some_0;
            match raft.last_log_index {
                Some(last) => if matched <= last {
                    lag + matched == last
                } else {
                    lag == 0
                },
                None => lag == 0,
            }
        },
{
}

/// A snapshot is reported as published exactly when there is another than before it was asked for,
/// and then as that one. Until then nothing is answered, unless time has run out: then it was
/// started, and no more is claimed.
pub proof fn a_snapshot_is_reported_when_it_is_there(
    before: Option<String>,
    published: Option<(String, Option<LogIdView>)>,
    expired: bool,
)
    ensures
        ({
            let answer = ConfigNode::snapshot_answer(before, published, expired);
            let fresh = published matches Some((id, _)) && (before is None || before->Some_0@
                != id@);
            &&& answer is None <==> !fresh && !expired
            &&& fresh ==> answer == Some(
                SnapshotTriggered::Started {
                    snapshot_id: Some((published->Some_0).0),
                    last_log_id: (published->Some_0).1,
                },
            )
            &&& !fresh && expired ==> answer == Some(
                SnapshotTriggered::Started { snapshot_id: None, last_log_id: None },
            )
        }),
{
}

/// A committed step of a removal goes to the next one, and the fence carries the entry that dropped
/// the member.
pub proof fn a_removal_goes_step_by_step(committed: LogIdView, last: Option<LogIdView>)
    ensures
        ConfigNode::step_after(RemovalStep::Demote, committed) == RemovalStep::Drop,
        ConfigNode::step_after(RemovalStep::Drop, committed) == (RemovalStep::Fence {
            last: Some(committed),
        }),
        ConfigNode::step_after(RemovalStep::Fence { last }, committed) == (RemovalStep::Fence {
            last,
        }),
        ConfigNode::step_after(RemovalStep::Done { last }, committed) == (RemovalStep::Done {
            last,
        }),
        log_view(Some((committed.term, committed.index))) == Some(committed),
        log_view(None) is None,
{
}

} // verus!
