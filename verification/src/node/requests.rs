//! Client requests: validate, authorize, gate, and only then touch the Raft core.

use vstd::prelude::*;

use crate::config::AuthzKind;
use crate::metrics;
use crate::metrics::MembershipView;
use crate::metrics::NodeRole;
use crate::node::observed::StoreView;
use crate::node::outcome;
use crate::node::outcome::Barrier;
use crate::node::schema::CommandGate;
use crate::node::upkeep;
use crate::node::upkeep::CompactCommand;
use crate::node::ConfigNode;
use crate::text;
use crate::time::Duration;
use crate::types;
use crate::types::Action;
use crate::types::ConfigError;
use crate::types::ConfigErrorModel;
use crate::types::Principal;
use crate::types::WatchRequest;
use crate::types::UNAVAILABLE_FEATURE_NOT_ACTIVATED;
use crate::watch;
use crate::watch::WatchHub;

verus! {

/// What an authorizer decided.
#[derive(PartialEq, Eq, Debug)]
pub enum Decision {
    /// The caller may.
    Allow,
    /// The caller may not.
    Deny { reason: String },
}

/// What a [`Decision`] says.
pub enum DecisionModel {
    Allow,
    Deny { reason: Seq<char> },
}

impl View for Decision {
    type V = DecisionModel;

    open spec fn view(&self) -> DecisionModel {
        match self {
            Decision::Allow => DecisionModel::Allow,
            Decision::Deny { reason } => DecisionModel::Deny { reason: reason@ },
        }
    }
}

/// The name of an action.
pub open spec fn action_name(action: Action) -> Seq<char> {
    match action {
        Action::Read => "Read"@,
        Action::Write => "Write"@,
    }
}

/// What a caller is told when a decision went against it. A signed node without a document is
/// declining traffic, not deciding about the caller: it has nothing to decide from.
pub open spec fn denial(
    kind: AuthzKind,
    principal: Seq<char>,
    action: Action,
    key: Seq<u8>,
    reason: Seq<char>,
) -> ConfigErrorModel {
    if kind is NoValidPolicy {
        ConfigErrorModel::Unavailable { reason: "no valid policy in force ("@ + reason + ")"@ }
    } else {
        ConfigErrorModel::PermissionDenied {
            detail: "principal "@ + text::quoted(principal) + " may not "@ + action_name(action)
                + " key_hex="@ + outcome::key_text(key) + " ("@ + reason + ")"@,
        }
    }
}

/// A request's stamp, by which a resubmission is recognized.
#[derive(Clone, Copy, PartialEq, Eq, Debug)]
pub struct DedupStamp {
    /// The client's namespace.
    pub client_id: [u8; 16],
    /// The mutation within it.
    pub request_id: u64,
    /// The digest of the principal the stamp is bound to.
    pub principal: [u8; 32],
}

/// A stamp as it is bound to a principal.
pub open spec fn bound(stamp: Option<DedupStamp>, authenticated: [u8; 32]) -> Option<DedupStamp> {
    match stamp {
        Some(s) => Some(DedupStamp { principal: authenticated, ..s }),
        None => None,
    }
}

/// Bind a stamp to the principal that was authenticated. Whatever principal the caller put there
/// is discarded, so that no caller can address another's namespace.
pub fn bind_principal(stamp: Option<DedupStamp>, authenticated: [u8; 32]) -> (r: Option<
    DedupStamp,
>)
    ensures
        r == bound(stamp, authenticated),
{
    match stamp {
        Some(s) => Some(DedupStamp { principal: authenticated, ..s }),
        None => None,
    }
}

impl ConfigNode {
    /// The decision in force: the authorizer's, and without a policy in force a denial.
    pub open spec fn decided(
        &self,
        policy_version: Option<u64>,
        authorizer: DecisionModel,
    ) -> DecisionModel {
        if self.kind_now(policy_version).in_force() {
            authorizer
        } else {
            DecisionModel::Deny {
                reason: "node is not ready to authorize: policy is "@ + self.kind_now(
                    policy_version,
                ).name(),
            }
        }
    }

    /// Why a request is not authorized, if it is not.
    pub open spec fn authorization_refusal(
        &self,
        principal: Seq<char>,
        action: Action,
        key: Seq<u8>,
        policy_version: Option<u64>,
        authorizer: DecisionModel,
    ) -> Option<ConfigErrorModel> {
        match self.decided(policy_version, authorizer) {
            DecisionModel::Allow => None,
            DecisionModel::Deny { reason } => Some(
                denial(self.kind_now(policy_version), principal, action, key, reason),
            ),
        }
    }

    /// The refusal of a stopped node.
    pub open spec fn stopped_refusal(&self) -> Option<ConfigErrorModel> {
        if self.stopped {
            Some(ConfigErrorModel::unavailable("stopped"@))
        } else {
            None
        }
    }

    /// Whether the authorizer has a say in a request: the request is valid, and a policy is in
    /// force.
    pub open spec fn is_consulted(&self, valid: bool, policy_version: Option<u64>) -> bool {
        valid && self.kind_now(policy_version).in_force()
    }

    /// Whether the authorizer is to be asked about a request. One that was found invalid is
    /// refused before that, and without a policy in force every request is denied unasked.
    pub fn consults(&self, valid: bool, policy_version: Option<u64>) -> (r: bool)
        ensures
            r == self.is_consulted(valid, policy_version),
    {
        valid && self.authz_kind(policy_version).is_present()
    }

    /// The record that a request leaves in the audit trail: the decision in force, once for every
    /// request that was found valid, and none for any other.
    pub fn audited(&self, valid: bool, policy_version: Option<u64>, authorizer: Decision) -> (r:
        Option<Decision>)
        ensures
            match r {
                Some(d) => valid && d@ == self.decided(policy_version, authorizer@),
                None => !valid,
            },
    {
        if valid {
            Some(self.decide(policy_version, authorizer))
        } else {
            None
        }
    }

    /// The decision in force, given what the authorizer says. This is what is audited, once for
    /// every request.
    pub fn decide(&self, policy_version: Option<u64>, authorizer: Decision) -> (d: Decision)
        ensures
            d@ == self.decided(policy_version, authorizer@),
    {
        let kind = self.authz_kind(policy_version);
        if kind.is_present() {
            authorizer
        } else {
            Decision::Deny {
                reason: text::two(
                    "node is not ready to authorize: policy is ",
                    kind.as_str(),
                ),
            }
        }
    }

    /// The one authorization seam: every client request passes it, for its key or its prefix,
    /// and every refusal is counted here.
    pub fn authorize(
        &mut self,
        principal: &Principal,
        action: Action,
        key_or_prefix: &[u8],
        policy_version: Option<u64>,
        authorizer: Decision,
    ) -> (r: Result<(), ConfigError>)
        ensures
            types::answer(r) == watch::unless(
                old(self).authorization_refusal(
                    principal.name@,
                    action,
                    key_or_prefix@,
                    policy_version,
                    authorizer@,
                ),
                (),
            ),
            *final(self) == (ConfigNode {
                authz_denied: if r is Ok {
                    old(self).authz_denied
                } else {
                    metrics::counted(old(self).authz_denied, 1)
                },
                ..*old(self)
            }),
    {
        let kind = self.authz_kind(policy_version);
        match self.decide(policy_version, authorizer) {
            Decision::Allow => Ok(()),
            Decision::Deny { reason } => {
                self.authz_denied = metrics::count_up(self.authz_denied, 1);
                if kind == AuthzKind::NoValidPolicy {
                    let mut out = text::two("no valid policy in force (", reason.as_str());
                    text::push_text(&mut out, ")");
                    return Err(ConfigError::Unavailable { reason: out });
                }
                let mut out = "principal ".to_owned();
                text::push_quoted(&mut out, principal.name.as_str());
                text::push_text(&mut out, " may not ");
                match action {
                    Action::Read => text::push_text(&mut out, "Read"),
                    Action::Write => text::push_text(&mut out, "Write"),
                }
                text::push_text(&mut out, " key_hex=");
                text::push_text(&mut out, outcome::key_hex(key_or_prefix).as_str());
                text::push_text(&mut out, " (");
                text::push_text(&mut out, reason.as_str());
                text::push_text(&mut out, ")");
                Err(ConfigError::PermissionDenied { detail: out })
            },
        }
    }

    /// Why a mutation is refused before it is proposed, if it is: it is not valid, its caller
    /// may not, the node was stopped, or the cluster cannot carry it yet. In this order.
    pub open spec fn mutation_refusal(
        &self,
        invalid: Option<ConfigErrorModel>,
        principal: Seq<char>,
        key: Seq<u8>,
        policy_version: Option<u64>,
        authorizer: DecisionModel,
        gate: Option<CommandGate>,
        role: NodeRole,
        store: StoreView,
    ) -> Option<ConfigErrorModel> {
        if invalid is Some {
            invalid
        } else if self.authorization_refusal(
            principal,
            Action::Write,
            key,
            policy_version,
            authorizer,
        ) is Some {
            self.authorization_refusal(principal, Action::Write, key, policy_version, authorizer)
        } else if self.stopped {
            self.stopped_refusal()
        } else if !self.gate_passes(gate, role, store) {
            Some(ConfigErrorModel::unavailable(UNAVAILABLE_FEATURE_NOT_ACTIVATED@))
        } else {
            None
        }
    }

    /// Whether `after` is this node after it judged a valid mutation: a denial is counted, a
    /// stopped node does not change, and otherwise the schema gate had its say.
    pub open spec fn judged(
        &self,
        principal: Seq<char>,
        key: Seq<u8>,
        policy_version: Option<u64>,
        authorizer: DecisionModel,
        gate: Option<CommandGate>,
        role: NodeRole,
        store: StoreView,
        after: ConfigNode,
    ) -> bool {
        if self.authorization_refusal(
            principal,
            Action::Write,
            key,
            policy_version,
            authorizer,
        ) is Some {
            after == (ConfigNode { authz_denied: metrics::counted(self.authz_denied, 1), ..*self })
        } else if self.stopped {
            after == *self
        } else {
            self.gated(gate, role, store, after)
        }
    }

    /// Begin a mutation: what is refused here never enters the log.
    pub fn mutate(
        &mut self,
        validated: Result<(), ConfigError>,
        principal: &Principal,
        key: &[u8],
        policy_version: Option<u64>,
        authorizer: Decision,
        gate: Option<CommandGate>,
        role: NodeRole,
        store: &StoreView,
    ) -> (r: Result<(), ConfigError>)
        requires
            old(self).wf(),
        ensures
            final(self).wf(),
            types::answer(r) == watch::unless(
                old(self).mutation_refusal(
                    match validated {
                        Ok(_) => None,
                        Err(e) => Some(e@),
                    },
                    principal.name@,
                    key@,
                    policy_version,
                    authorizer@,
                    gate,
                    role,
                    *store,
                ),
                (),
            ),
            if validated is Err {
                *final(self) == *old(self)
            } else {
                old(self).judged(
                    principal.name@,
                    key@,
                    policy_version,
                    authorizer@,
                    gate,
                    role,
                    *store,
                    *final(self),
                )
            },
    {
        if let Err(e) = validated {
            return Err(e);
        }
        if let Err(e) = self.authorize(
            principal,
            Action::Write,
            key,
            policy_version,
            authorizer,
        ) {
            return Err(e);
        }
        if self.stopped {
            return Err(ConfigError::unavailable("stopped"));
        }
        self.schema_gate(gate, role, store)
    }

    /// Why a read is refused before the barrier, if it is.
    pub open spec fn read_refusal(
        &self,
        invalid: Option<ConfigErrorModel>,
        principal: Seq<char>,
        key_or_prefix: Seq<u8>,
        policy_version: Option<u64>,
        authorizer: DecisionModel,
    ) -> Option<ConfigErrorModel> {
        if invalid is Some {
            invalid
        } else if self.authorization_refusal(
            principal,
            Action::Read,
            key_or_prefix,
            policy_version,
            authorizer,
        ) is Some {
            self.authorization_refusal(
                principal,
                Action::Read,
                key_or_prefix,
                policy_version,
                authorizer,
            )
        } else {
            self.stopped_refusal()
        }
    }

    /// The node once it has judged a read.
    pub open spec fn having_read(
        &self,
        valid: bool,
        principal: Seq<char>,
        key_or_prefix: Seq<u8>,
        policy_version: Option<u64>,
        authorizer: DecisionModel,
    ) -> ConfigNode {
        ConfigNode {
            authz_denied: if valid && self.authorization_refusal(
                principal,
                Action::Read,
                key_or_prefix,
                policy_version,
                authorizer,
            ) is Some {
                metrics::counted(self.authz_denied, 1)
            } else {
                self.authz_denied
            },
            ..*self
        }
    }

    /// Begin a read or a scan: what is refused here asks no quorum.
    pub fn read(
        &mut self,
        validated: Result<(), ConfigError>,
        principal: &Principal,
        key_or_prefix: &[u8],
        policy_version: Option<u64>,
        authorizer: Decision,
    ) -> (r: Result<(), ConfigError>)
        ensures
            types::answer(r) == watch::unless(
                old(self).read_refusal(
                    match validated {
                        Ok(_) => None,
                        Err(e) => Some(e@),
                    },
                    principal.name@,
                    key_or_prefix@,
                    policy_version,
                    authorizer@,
                ),
                (),
            ),
            *final(self) == old(self).having_read(
                validated is Ok,
                principal.name@,
                key_or_prefix@,
                policy_version,
                authorizer@,
            ),
    {
        if let Err(e) = validated {
            return Err(e);
        }
        if let Err(e) = self.authorize(
            principal,
            Action::Read,
            key_or_prefix,
            policy_version,
            authorizer,
        ) {
            return Err(e);
        }
        if self.stopped {
            return Err(ConfigError::unavailable("stopped"));
        }
        Ok(())
    }

    /// Begin a watch: validate the request and authorize its prefix. This comes before admission,
    /// so an unauthorized caller takes no slot. What comes back is the progress interval.
    pub fn watch(
        &mut self,
        principal: &Principal,
        request: &WatchRequest,
        policy_version: Option<u64>,
        authorizer: Decision,
    ) -> (r: Result<Duration, ConfigError>)
        ensures
            types::answer(r) == watch::unless(
                old(self).read_refusal(
                    watch::watch_refusal(
                        *request,
                        old(self).cfg.limits,
                        old(self).cfg.watch_progress_interval,
                    ),
                    principal.name@,
                    request.prefix@,
                    policy_version,
                    authorizer@,
                ),
                watch::wanted_interval(*request, old(self).cfg.watch_progress_interval),
            ),
            *final(self) == old(self).having_read(
                watch::watch_refusal(
                    *request,
                    old(self).cfg.limits,
                    old(self).cfg.watch_progress_interval,
                ) is None,
                principal.name@,
                request.prefix@,
                policy_version,
                authorizer@,
            ),
    {
        let interval = match watch::validate_watch(
            request,
            &self.cfg.limits,
            self.cfg.watch_progress_interval,
        ) {
            Ok(interval) => interval,
            Err(e) => {
                return Err(e);
            },
        };
        match self.read(
            Ok(()),
            principal,
            request.prefix.as_slice(),
            policy_version,
            authorizer,
        ) {
            Ok(_) => Ok(interval),
            Err(e) => Err(e),
        }
    }

    /// Go on with a watch once a quorum was asked. A reached barrier is a stronger statement than
    /// the last observed leader, so the hub is told; a follower takes no slot.
    pub fn watch_confirmed(
        &self,
        barrier: Barrier,
        membership: &MembershipView,
        hub: &mut WatchHub,
    ) -> (r: Result<(), ConfigError>)
        ensures
            types::answer(r) == watch::unless(
                outcome::barrier_refusal(barrier, *membership),
                (),
            ),
            *final(hub) == (if r is Ok {
                WatchHub { state: crate::delivery::HubState::Serving, ..*old(hub) }
            } else {
                *old(hub)
            }),
    {
        match outcome::barrier_result(barrier, membership) {
            Ok(_) => {
                let _ = hub.note_leader();
                Ok(())
            },
            Err(e) => Err(e),
        }
    }

    /// Begin a compaction an operator asked for. It is a write to the whole keyspace, though it
    /// makes no revision. What comes back is the command, which never trims deduplication
    /// records.
    pub fn propose_compact(
        &mut self,
        principal: &Principal,
        up_to_revision: u64,
        policy_version: Option<u64>,
        authorizer: Decision,
        gate: Option<CommandGate>,
        role: NodeRole,
        store: &StoreView,
    ) -> (r: Result<CompactCommand, ConfigError>)
        requires
            old(self).wf(),
        ensures
            final(self).wf(),
            types::answer(r) == watch::unless(
                old(self).mutation_refusal(
                    None,
                    principal.name@,
                    Seq::empty(),
                    policy_version,
                    authorizer@,
                    gate,
                    role,
                    *store,
                ),
                (CompactCommand { up_to_revision, dedup_trim_below: None }),
            ),
            old(self).judged(
                principal.name@,
                Seq::empty(),
                policy_version,
                authorizer@,
                gate,
                role,
                *store,
                *final(self),
            ),
    {
        let everything: Vec<u8> = Vec::new();
        assert(everything@ =~= Seq::empty());
        match self.mutate(
            Ok(()),
            principal,
            everything.as_slice(),
            policy_version,
            authorizer,
            gate,
            role,
            store,
        ) {
            Ok(_) => Ok(upkeep::operator_compaction(up_to_revision)),
            Err(e) => Err(e),
        }
    }
}

/// Without a policy in force nothing is authorized, whatever an authorizer would say: a node
/// that could not load its policy denies.
pub proof fn fail_closed(
    node: ConfigNode,
    principal: Seq<char>,
    action: Action,
    key: Seq<u8>,
    policy_version: Option<u64>,
    authorizer: DecisionModel,
)
    requires
        !node.kind_now(policy_version).in_force(),
    ensures
        node.authorization_refusal(principal, action, key, policy_version, authorizer) is Some,
{
}

/// An authorizer that is not to be asked has no say: what a request comes to, and what it leaves
/// behind, is the same whatever it would have answered.
pub proof fn an_unasked_authorizer_has_no_say(
    node: ConfigNode,
    invalid: Option<ConfigErrorModel>,
    principal: Seq<char>,
    key: Seq<u8>,
    policy_version: Option<u64>,
    one: DecisionModel,
    other: DecisionModel,
    gate: Option<CommandGate>,
    role: NodeRole,
    store: StoreView,
    after: ConfigNode,
)
    requires
        !node.is_consulted(invalid is None, policy_version),
    ensures
        node.mutation_refusal(invalid, principal, key, policy_version, one, gate, role, store)
            == node.mutation_refusal(
            invalid,
            principal,
            key,
            policy_version,
            other,
            gate,
            role,
            store,
        ),
        node.read_refusal(invalid, principal, key, policy_version, one) == node.read_refusal(
            invalid,
            principal,
            key,
            policy_version,
            other,
        ),
        invalid is None ==> node.decided(policy_version, one) == node.decided(
            policy_version,
            other,
        ),
        invalid is None ==> node.judged(
            principal,
            key,
            policy_version,
            one,
            gate,
            role,
            store,
            after,
        ) == node.judged(principal, key, policy_version, other, gate, role, store, after),
{
}

/// A decision in force stays in force: judging by what was audited is judging by what the
/// authorizer said.
pub proof fn what_is_audited_decides(
    node: ConfigNode,
    policy_version: Option<u64>,
    authorizer: DecisionModel,
)
    ensures
        node.decided(policy_version, node.decided(policy_version, authorizer)) == node.decided(
            policy_version,
            authorizer,
        ),
{
}

/// A mutation goes to the log only when it was found valid, authorized for its key, and within
/// what every voter is known to decode, on a node that is running.
pub proof fn nothing_unchecked_is_proposed(
    node: ConfigNode,
    invalid: Option<ConfigErrorModel>,
    principal: Seq<char>,
    key: Seq<u8>,
    policy_version: Option<u64>,
    authorizer: DecisionModel,
    gate: Option<CommandGate>,
    role: NodeRole,
    store: StoreView,
)
    ensures
        node.mutation_refusal(
            invalid,
            principal,
            key,
            policy_version,
            authorizer,
            gate,
            role,
            store,
        ) is None <==> {
            &&& invalid is None
            &&& node.kind_now(policy_version).in_force()
            &&& authorizer is Allow
            &&& !node.stopped
            &&& node.gate_passes(gate, role, store)
        },
{
}

/// A stopped node serves nothing: no mutation is proposed and no read asks a quorum. A request
/// that would have been served is told that the node was stopped.
pub proof fn a_stopped_node_serves_nothing(
    node: ConfigNode,
    invalid: Option<ConfigErrorModel>,
    principal: Seq<char>,
    key: Seq<u8>,
    policy_version: Option<u64>,
    authorizer: DecisionModel,
    gate: Option<CommandGate>,
    role: NodeRole,
    store: StoreView,
)
    requires
        node.stopped,
    ensures
        node.mutation_refusal(
            invalid,
            principal,
            key,
            policy_version,
            authorizer,
            gate,
            role,
            store,
        ) is Some,
        node.read_refusal(invalid, principal, key, policy_version, authorizer) is Some,
        invalid is None && node.authorization_refusal(
            principal,
            Action::Write,
            key,
            policy_version,
            authorizer,
        ) is None ==> node.mutation_refusal(
            invalid,
            principal,
            key,
            policy_version,
            authorizer,
            gate,
            role,
            store,
        ) == Some(ConfigErrorModel::unavailable("stopped"@)),
        invalid is None && node.authorization_refusal(
            principal,
            Action::Read,
            key,
            policy_version,
            authorizer,
        ) is None ==> node.read_refusal(invalid, principal, key, policy_version, authorizer)
            == Some(ConfigErrorModel::unavailable("stopped"@)),
{
}

/// A policy is in force where none is needed, where an allowlist stands, and where signed policies
/// are asked for and a valid document is held. A node that misses its policy, or could not read
/// it, has none.
pub proof fn a_policy_is_in_force(node: ConfigNode, policy_version: Option<u64>)
    ensures
        node.kind_now(policy_version).in_force() <==> match node.cfg.authz_kind {
            AuthzKind::Development => true,
            AuthzKind::StaticAllowlist => true,
            AuthzKind::Missing => false,
            AuthzKind::Invalid => false,
            AuthzKind::SignedPolicy => policy_version is Some,
            AuthzKind::NoValidPolicy => policy_version is Some,
        },
        node.kind_now(policy_version) is NoValidPolicy <==> policy_version is None && (
        node.cfg.authz_kind is SignedPolicy || node.cfg.authz_kind is NoValidPolicy),
{
}

/// A request is authorized exactly when a policy is in force and the authorizer allows it. A
/// caller that may not is told so, but for a node that holds no valid document: that one declines.
pub proof fn only_an_allowed_request_is_authorized(
    node: ConfigNode,
    principal: Seq<char>,
    action: Action,
    key: Seq<u8>,
    policy_version: Option<u64>,
    authorizer: DecisionModel,
)
    ensures
        ({
            let refusal = node.authorization_refusal(
                principal,
                action,
                key,
                policy_version,
                authorizer,
            );
            let holds = match node.cfg.authz_kind {
                AuthzKind::Development | AuthzKind::StaticAllowlist => true,
                AuthzKind::Missing | AuthzKind::Invalid => false,
                AuthzKind::SignedPolicy | AuthzKind::NoValidPolicy => policy_version is Some,
            };
            let signed = node.cfg.authz_kind is SignedPolicy || node.cfg.authz_kind
                is NoValidPolicy;
            &&& refusal is None <==> holds && authorizer is Allow
            &&& node.decided(policy_version, authorizer) is Allow <==> holds && authorizer is Allow
            &&& refusal matches Some(e) ==> if signed && policy_version is None {
                e is Unavailable
            } else {
                e is PermissionDenied
            }
        }),
{
}

/// A read goes on to ask a quorum exactly when it was found valid, a policy is in force, the
/// authorizer allows it, and the node is running. What is refused is told the first of these that
/// stood against it: an invalid request its own fault, whoever asks; a caller that may not, that
/// it may not; and only one that would have been served, that the node was stopped.
pub proof fn a_read_goes_on_exactly_when_it_may(
    node: ConfigNode,
    invalid: Option<ConfigErrorModel>,
    principal: Seq<char>,
    key_or_prefix: Seq<u8>,
    policy_version: Option<u64>,
    authorizer: DecisionModel,
)
    ensures
        ({
            let refusal = node.read_refusal(
                invalid,
                principal,
                key_or_prefix,
                policy_version,
                authorizer,
            );
            let holds = match node.cfg.authz_kind {
                AuthzKind::Development | AuthzKind::StaticAllowlist => true,
                AuthzKind::Missing | AuthzKind::Invalid => false,
                AuthzKind::SignedPolicy | AuthzKind::NoValidPolicy => policy_version is Some,
            };
            let may = holds && authorizer is Allow;
            &&& refusal is None <==> {
                &&& invalid is None
                &&& node.kind_now(policy_version).in_force()
                &&& authorizer is Allow
                &&& !node.stopped
            }
            &&& refusal is None <==> invalid is None && may && !node.stopped
            &&& invalid is Some ==> refusal == invalid
            &&& invalid is None && !may ==> refusal is Some && (refusal->0 is PermissionDenied || (
            refusal->0 is Unavailable && policy_version is None && (node.cfg.authz_kind
                is SignedPolicy || node.cfg.authz_kind is NoValidPolicy)))
            &&& invalid is None && may && node.stopped ==> refusal is Some && refusal->0
                is Unavailable
        }),
{
}

/// A mutation that is refused is told the first thing that stood against it, in the order in which
/// requests are judged: its own fault, its caller, the node, and what the cluster can carry.
pub proof fn a_refused_mutation_learns_the_first_reason(
    node: ConfigNode,
    invalid: Option<ConfigErrorModel>,
    principal: Seq<char>,
    key: Seq<u8>,
    policy_version: Option<u64>,
    authorizer: DecisionModel,
    gate: Option<CommandGate>,
    role: NodeRole,
    store: StoreView,
)
    ensures
        ({
            let refusal = node.mutation_refusal(
                invalid,
                principal,
                key,
                policy_version,
                authorizer,
                gate,
                role,
                store,
            );
            let holds = match node.cfg.authz_kind {
                AuthzKind::Development | AuthzKind::StaticAllowlist => true,
                AuthzKind::Missing | AuthzKind::Invalid => false,
                AuthzKind::SignedPolicy | AuthzKind::NoValidPolicy => policy_version is Some,
            };
            let may = holds && authorizer is Allow;
            &&& refusal is None <==> invalid is None && may && !node.stopped && node.gate_passes(
                gate,
                role,
                store,
            )
            &&& invalid is Some ==> refusal == invalid
            &&& invalid is None && !may ==> refusal is Some && (refusal->0 is PermissionDenied || (
            refusal->0 is Unavailable && policy_version is None && (node.cfg.authz_kind
                is SignedPolicy || node.cfg.authz_kind is NoValidPolicy)))
            &&& invalid is None && may && refusal is Some ==> refusal->0 is Unavailable
        }),
{
}

/// A request that is judged leaves one mark at most: a denial is counted exactly when a valid
/// request was not authorized, and is then all that changes.
pub proof fn a_denial_is_counted_once(
    node: ConfigNode,
    principal: Seq<char>,
    key: Seq<u8>,
    policy_version: Option<u64>,
    authorizer: DecisionModel,
    gate: Option<CommandGate>,
    role: NodeRole,
    store: StoreView,
    after: ConfigNode,
)
    requires
        node.judged(principal, key, policy_version, authorizer, gate, role, store, after),
        node.authz_denied < u64::MAX,
    ensures
        ({
            let holds = match node.cfg.authz_kind {
                AuthzKind::Development | AuthzKind::StaticAllowlist => true,
                AuthzKind::Missing | AuthzKind::Invalid => false,
                AuthzKind::SignedPolicy | AuthzKind::NoValidPolicy => policy_version is Some,
            };
            let may = holds && authorizer is Allow;
            &&& !may ==> after == (ConfigNode {
                authz_denied: (node.authz_denied + 1) as u64,
                ..node
            })
            &&& may ==> after.authz_denied == node.authz_denied
            &&& may && node.stopped ==> after == node
        }),
{
}

/// No caller can address another's namespace: a stamp carries the principal that was authenticated,
/// whatever the caller put there, and keeps the client's own part. A request without a stamp gets
/// none.
pub proof fn a_stamp_is_bound_to_its_caller(
    stamp: DedupStamp,
    forged: DedupStamp,
    authenticated: [u8; 32],
)
    requires
        forged == (DedupStamp { principal: forged.principal, ..stamp }),
    ensures
        bound(Some(stamp), authenticated) matches Some(b) && b.principal == authenticated
            && b.client_id == stamp.client_id && b.request_id == stamp.request_id,
        bound(Some(forged), authenticated) == bound(Some(stamp), authenticated),
        bound(None, authenticated) is None,
{
}

/// The authorizer is asked exactly about a valid request on a node with a policy in force.
pub proof fn the_authorizer_is_asked_when_it_matters(
    node: ConfigNode,
    valid: bool,
    policy_version: Option<u64>,
)
    ensures
        node.is_consulted(valid, policy_version) <==> valid && match node.cfg.authz_kind {
            AuthzKind::Development | AuthzKind::StaticAllowlist => true,
            AuthzKind::Missing | AuthzKind::Invalid => false,
            AuthzKind::SignedPolicy | AuthzKind::NoValidPolicy => policy_version is Some,
        },
{
}

/// A caller that is denied learns who it was taken for, what it wanted to do to which key, and why
/// it may not; one that a node without a valid document declines learns that.
pub proof fn a_denial_names_what_was_denied(
    kind: AuthzKind,
    principal: Seq<char>,
    action: Action,
    key: Seq<u8>,
    reason: Seq<char>,
)
    requires
        key.len() <= 32,
    ensures
        kind is NoValidPolicy ==> denial(kind, principal, action, key, reason) == (
        ConfigErrorModel::Unavailable { reason: "no valid policy in force ("@ + reason + ")"@ }),
        !(kind is NoValidPolicy) ==> denial(kind, principal, action, key, reason) == (
        ConfigErrorModel::PermissionDenied {
            detail: "principal "@ + text::quoted(principal) + (if action is Read {
                " may not Read key_hex="@
            } else {
                " may not Write key_hex="@
            }) + text::hex(key) + " ("@ + reason + ")"@,
        }),
{
    reveal_strlit(" may not Read key_hex=");
    reveal_strlit(" may not Write key_hex=");
    reveal_strlit(" may not ");
    reveal_strlit("Read");
    reveal_strlit("Write");
    reveal_strlit(" key_hex=");
    assert(" may not Read key_hex="@ =~= " may not "@ + "Read"@ + " key_hex="@);
    assert(" may not Write key_hex="@ =~= " may not "@ + "Write"@ + " key_hex="@);
    let head = "principal "@ + text::quoted(principal);
    assert(head + (" may not "@ + "Read"@ + " key_hex="@) =~= head + " may not "@ + "Read"@
        + " key_hex="@);
    assert(head + (" may not "@ + "Write"@ + " key_hex="@) =~= head + " may not "@ + "Write"@
        + " key_hex="@);
}

/// A decision is seen as what it is.
pub proof fn a_decision_is_seen_as_it_is(d: Decision)
    ensures
        d is Allow <==> d@ is Allow,
        d matches Decision::Deny { reason } ==> d@ == (DecisionModel::Deny { reason: reason@ }),
{
}

/// A read leaves one mark at most: a denial is counted exactly when a valid read was not
/// authorized, and nothing else changes.
pub proof fn a_denied_read_is_counted_once(
    node: ConfigNode,
    valid: bool,
    principal: Seq<char>,
    key_or_prefix: Seq<u8>,
    policy_version: Option<u64>,
    authorizer: DecisionModel,
)
    requires
        node.authz_denied < u64::MAX,
    ensures
        ({
            let after = node.having_read(
                valid,
                principal,
                key_or_prefix,
                policy_version,
                authorizer,
            );
            let holds = match node.cfg.authz_kind {
                AuthzKind::Development | AuthzKind::StaticAllowlist => true,
                AuthzKind::Missing | AuthzKind::Invalid => false,
                AuthzKind::SignedPolicy | AuthzKind::NoValidPolicy => policy_version is Some,
            };
            &&& after == (ConfigNode { authz_denied: after.authz_denied, ..node })
            &&& after.authz_denied == node.authz_denied + (if valid && !(holds && authorizer
                is Allow) {
                1int
            } else {
                0
            })
        }),
{
}

} // verus!
