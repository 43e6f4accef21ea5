//! How the Raft core's answers become the answers a client is given.
//!
//! One rule decides everything here: a mutation is reported as safe to send again only when it
//! provably never entered the log. A read submits nothing, so its failures are all retryable.

use vstd::prelude::*;

use crate::metrics::MembershipView;
use crate::text;
use crate::types;
use crate::types::ConfigError;
use crate::types::ConfigErrorModel;
use crate::types::LeaderHint;
use crate::types::LeaderHintModel;
use crate::types::NodeId;

verus! {

/// The Raft core is gone.
#[derive(PartialEq, Eq, Debug)]
pub enum Fatal {
    /// Its store failed.
    StorageError(String),
    /// It panicked.
    Panicked,
    /// It was stopped.
    Stopped,
}

/// What a [`Fatal`] says.
pub enum FatalModel {
    StorageError(Seq<char>),
    Panicked,
    Stopped,
}

impl View for Fatal {
    type V = FatalModel;

    open spec fn view(&self) -> FatalModel {
        match self {
            Fatal::StorageError(e) => FatalModel::StorageError(e@),
            Fatal::Panicked => FatalModel::Panicked,
            Fatal::Stopped => FatalModel::Stopped,
        }
    }
}

impl FatalModel {
    /// The text of the failure.
    pub open spec fn text(self) -> Seq<char> {
        match self {
            FatalModel::StorageError(e) => e,
            FatalModel::Panicked => "panicked"@,
            FatalModel::Stopped => "raft stopped"@,
        }
    }
}

/// `<openraft::error::Fatal as Display>::fmt` on `Fatal::Panicked`, through `format!`: the word
/// `panicked`.
#[verifier::external_body]
fn panicked_text() -> (r: String)
    ensures
        r@ == "panicked"@,
{
    format!("{}", openraft::error::Fatal::<u64>::Panicked)
}

/// `<openraft::error::Fatal as Display>::fmt` on `Fatal::Stopped`, through `format!`: the words
/// `raft stopped`.
#[verifier::external_body]
fn stopped_text() -> (r: String)
    ensures
        r@ == "raft stopped"@,
{
    format!("{}", openraft::error::Fatal::<u64>::Stopped)
}

impl Fatal {
    /// The failure as text.
    pub fn describe(&self) -> (r: String)
        ensures
            r@ == self@.text(),
    {
        match self {
            Fatal::StorageError(e) => e.clone(),
            Fatal::Panicked => panicked_text(),
            Fatal::Stopped => stopped_text(),
        }
    }
}

/// A fatal failure of a read: nothing was submitted, so asking again is safe, unless this node's
/// store is what failed.
pub open spec fn read_fatal(fatal: FatalModel) -> ConfigErrorModel {
    match fatal {
        FatalModel::StorageError(detail) => ConfigErrorModel::FatalStorage { detail },
        _ => ConfigErrorModel::Unavailable { reason: fatal.text() },
    }
}

/// A fatal failure of a write: the core answers after the proposal was queued, so the entry may
/// be committed and the outcome is not known.
pub open spec fn write_fatal(fatal: FatalModel) -> ConfigErrorModel {
    match fatal {
        FatalModel::StorageError(detail) => ConfigErrorModel::FatalStorage { detail },
        _ => ConfigErrorModel::DeadlineExceededUnknownOutcome,
    }
}

/// What a client is told when the Raft core fails during a read.
pub fn read_fatal_to_config_error(fatal: Fatal) -> (e: ConfigError)
    ensures
        e@ == read_fatal(fatal@),
{
    match fatal {
        Fatal::StorageError(detail) => ConfigError::FatalStorage { detail },
        other => ConfigError::Unavailable { reason: other.describe() },
    }
}

/// What a client is told when the Raft core fails during a write.
pub fn write_fatal_to_config_error(fatal: Fatal) -> (e: ConfigError)
    ensures
        e@ == write_fatal(fatal@),
{
    match fatal {
        Fatal::StorageError(detail) => ConfigError::FatalStorage { detail },
        Fatal::Stopped => ConfigError::DeadlineExceededUnknownOutcome,
        Fatal::Panicked => ConfigError::DeadlineExceededUnknownOutcome,
    }
}

/// The detail of a command that the state machine answered as if it were none.
pub const NOOP_FOR_COMMAND: &'static str = "the state machine answered Noop for a command entry; the entry is committed and applied, so this outcome must not be resubmitted";

/// The detail of a mutation that the state machine answered as if it were maintenance.
pub const MAINTENANCE_FOR_MUTATION: &'static str = "a mutation command was answered with a maintenance acknowledgement; the entry is committed and applied, so this outcome must not be resubmitted";

/// The refusal for a command that the state machine answered as if it were none. The entry is
/// committed and applied, so whatever is said must not invite the caller to send it again.
pub fn noop_for_command_entry() -> (e: ConfigError)
    ensures
        e@ == (ConfigErrorModel::FatalStorage { detail: NOOP_FOR_COMMAND@ }),
{
    ConfigError::FatalStorage { detail: NOOP_FOR_COMMAND.to_owned() }
}

/// What the state machine answers for an applied entry; `M` is the answer to a mutation.
#[derive(PartialEq, Eq, Debug)]
pub enum CommandResponse<M> {
    /// A mutation was applied.
    Mutation(M),
    /// The command was refused when it was applied.
    Rejected { reason: String },
    /// The entry carried no command.
    Noop,
    /// History was compacted.
    Compacted { compact_revision: u64 },
    /// An identity was retired.
    Retired { node_id: NodeId },
}

/// What came of a proposal; `R` is the state machine's answer.
#[derive(PartialEq, Eq, Debug)]
pub enum WriteOutcome<R> {
    /// The deadline passed after the proposal was submitted.
    TimedOut,
    /// The entry is committed and applied.
    Applied(R),
    /// Another node leads, if any.
    ForwardToLeader { leader: Option<NodeId> },
    /// A membership change was refused.
    ChangeMembership { detail: String },
    /// The Raft core is gone.
    Fatal(Fatal),
}

/// What came of asking a quorum whether this node still leads.
#[derive(PartialEq, Eq, Debug)]
pub enum Barrier {
    /// It does, and everything committed before is applied.
    Reached,
    /// The deadline passed.
    TimedOut,
    /// Another node leads, if any.
    ForwardToLeader { leader: Option<NodeId> },
    /// Too few voters answered.
    QuorumNotEnough { detail: String },
    /// The Raft core is gone.
    Fatal(Fatal),
}

/// The committed client endpoint of a node, as a hint a client can follow.
pub open spec fn hint_of(membership: MembershipView, node: NodeId) -> Option<LeaderHintModel> {
    if membership.client_endpoints@.contains_key(node.0) {
        Some(
            LeaderHintModel {
                node_id: node,
                endpoint: membership.client_endpoints@[node.0]@,
            },
        )
    } else {
        None
    }
}

/// The committed client endpoint of `node_id`, as a hint. Never its peer endpoint: that is not a
/// place a client can go.
pub fn hint_for(membership: &MembershipView, node_id: NodeId) -> (r: Option<LeaderHint>)
    ensures
        types::hint_model(r) == hint_of(*membership, node_id),
{
    match membership.client_endpoint_of(node_id) {
        Some(endpoint) => Some(LeaderHint { node_id, endpoint: endpoint.clone() }),
        None => None,
    }
}

/// The refusal of a node that does not lead: with a hint when the leader is known, and as
/// unavailable when it is not.
pub open spec fn not_leader_error(
    membership: MembershipView,
    leader: Option<NodeId>,
) -> ConfigErrorModel {
    match leader {
        Some(id) => ConfigErrorModel::NotLeader { hint: hint_of(membership, id) },
        None => ConfigErrorModel::unavailable("leader unknown"@),
    }
}

/// The refusal of a node that does not lead.
pub fn not_leader(membership: &MembershipView, leader: Option<NodeId>) -> (e: ConfigError)
    ensures
        e@ == not_leader_error(*membership, leader),
{
    match leader {
        Some(id) => ConfigError::NotLeader { hint: hint_for(membership, id) },
        None => ConfigError::unavailable("leader unknown"),
    }
}

/// What a client is told of a proposal that did not come back applied.
pub open spec fn write_refusal<R>(
    outcome: WriteOutcome<R>,
    membership: MembershipView,
) -> Option<ConfigErrorModel> {
    match outcome {
        WriteOutcome::TimedOut => Some(ConfigErrorModel::DeadlineExceededUnknownOutcome),
        WriteOutcome::Applied(_) => None,
        WriteOutcome::ForwardToLeader { leader } => Some(not_leader_error(membership, leader)),
        WriteOutcome::ChangeMembership { detail } => Some(
            ConfigErrorModel::Unavailable { reason: detail@ },
        ),
        WriteOutcome::Fatal(fatal) => Some(write_fatal(fatal@)),
    }
}

/// What a client is told of a mutation.
pub open spec fn mutation_answer<M>(
    outcome: WriteOutcome<CommandResponse<M>>,
    membership: MembershipView,
) -> Result<M, ConfigErrorModel> {
    match outcome {
        WriteOutcome::Applied(response) => match response {
            CommandResponse::Mutation(m) => Ok(m),
            CommandResponse::Rejected { reason } => Err(
                ConfigErrorModel::InvalidArgument { detail: reason@ },
            ),
            CommandResponse::Noop => Err(
                ConfigErrorModel::FatalStorage { detail: NOOP_FOR_COMMAND@ },
            ),
            _ => Err(ConfigErrorModel::FatalStorage { detail: MAINTENANCE_FOR_MUTATION@ }),
        },
        _ => Err(write_refusal(outcome, membership)->Some_0),
    }
}

/// What a client is told of a compaction.
pub open spec fn compaction_answer<M>(
    outcome: WriteOutcome<CommandResponse<M>>,
    membership: MembershipView,
) -> Result<u64, ConfigErrorModel> {
    match outcome {
        WriteOutcome::Applied(response) => match response {
            CommandResponse::Compacted { compact_revision } => Ok(compact_revision),
            CommandResponse::Rejected { reason } => Err(
                ConfigErrorModel::InvalidArgument { detail: reason@ },
            ),
            _ => Err(ConfigErrorModel::FatalStorage { detail: NOOP_FOR_COMMAND@ }),
        },
        _ => Err(write_refusal(outcome, membership)->Some_0),
    }
}

fn write_failed<R>(outcome: WriteOutcome<R>, membership: &MembershipView) -> (r: Result<
    R,
    ConfigError,
>)
    ensures
        match outcome {
            WriteOutcome::Applied(answer) => r == Ok::<R, ConfigError>(answer),
            _ => r matches Err(e) && Some(e@) == write_refusal(outcome, *membership),
        },
{
    match outcome {
        WriteOutcome::TimedOut => Err(ConfigError::DeadlineExceededUnknownOutcome),
        WriteOutcome::Applied(answer) => Ok(answer),
        WriteOutcome::ForwardToLeader { leader } => Err(not_leader(membership, leader)),
        WriteOutcome::ChangeMembership { detail } => Err(
            ConfigError::Unavailable { reason: detail },
        ),
        WriteOutcome::Fatal(fatal) => Err(write_fatal_to_config_error(fatal)),
    }
}

/// Finish a mutation.
pub fn mutation_result<M>(
    outcome: WriteOutcome<CommandResponse<M>>,
    membership: &MembershipView,
) -> (r: Result<M, ConfigError>)
    ensures
        types::answer(r) == mutation_answer(outcome, *membership),
{
    match write_failed(outcome, membership) {
        Err(e) => Err(e),
        Ok(CommandResponse::Mutation(m)) => Ok(m),
        Ok(CommandResponse::Rejected { reason }) => Err(
            ConfigError::InvalidArgument { detail: reason },
        ),
        Ok(CommandResponse::Noop) => Err(noop_for_command_entry()),
        Ok(_) => Err(ConfigError::FatalStorage { detail: MAINTENANCE_FOR_MUTATION.to_owned() }),
    }
}

/// Finish a compaction: the watermark it left.
pub fn compaction_result<M>(
    outcome: WriteOutcome<CommandResponse<M>>,
    membership: &MembershipView,
) -> (r: Result<u64, ConfigError>)
    ensures
        types::answer(r) == compaction_answer(outcome, *membership),
{
    match write_failed(outcome, membership) {
        Err(e) => Err(e),
        Ok(CommandResponse::Compacted { compact_revision }) => Ok(compact_revision),
        Ok(CommandResponse::Rejected { reason }) => Err(
            ConfigError::InvalidArgument { detail: reason },
        ),
        Ok(_) => Err(noop_for_command_entry()),
    }
}

/// What a reader is told when the barrier was not reached.
pub open spec fn barrier_refusal(
    barrier: Barrier,
    membership: MembershipView,
) -> Option<ConfigErrorModel> {
    match barrier {
        Barrier::Reached => None,
        Barrier::TimedOut => Some(
            ConfigErrorModel::unavailable(
                "read deadline exceeded before the linearizable barrier"@,
            ),
        ),
        Barrier::ForwardToLeader { leader } => Some(not_leader_error(membership, leader)),
        Barrier::QuorumNotEnough { detail } => Some(
            ConfigErrorModel::unavailable(
                "quorum not reached for a linearizable read: "@ + detail@,
            ),
        ),
        Barrier::Fatal(fatal) => Some(read_fatal(fatal@)),
    }
}

/// Whether a read may go on: only when the barrier was reached.
pub fn barrier_result(barrier: Barrier, membership: &MembershipView) -> (r: Result<
    (),
    ConfigError,
>)
    ensures
        types::answer(r) == crate::watch::unless(barrier_refusal(barrier, *membership), ()),
{
    match barrier {
        Barrier::Reached => Ok(()),
        Barrier::TimedOut => Err(
            ConfigError::unavailable("read deadline exceeded before the linearizable barrier"),
        ),
        Barrier::ForwardToLeader { leader } => Err(not_leader(membership, leader)),
        Barrier::QuorumNotEnough { detail } => Err(
            ConfigError::Unavailable {
                reason: text::two(
                    "quorum not reached for a linearizable read: ",
                    detail.as_str(),
                ),
            },
        ),
        Barrier::Fatal(fatal) => Err(read_fatal_to_config_error(fatal)),
    }
}

/// What a reader is given: the projection of applied state, behind the barrier. `None` stands
/// for a store that yielded no state at all.
pub open spec fn read_answer<T>(
    barrier: Barrier,
    membership: MembershipView,
    projected: Option<T>,
) -> Result<T, ConfigErrorModel> {
    match (barrier_refusal(barrier, membership), projected) {
        (Some(e), _) => Err(e),
        (None, Some(t)) => Ok(t),
        (None, None) => Err(
            ConfigErrorModel::unavailable("state reader did not yield applied state"@),
        ),
    }
}

/// Finish a read.
pub fn read_result<T>(barrier: Barrier, membership: &MembershipView, projected: Option<T>) -> (r:
    Result<T, ConfigError>)
    ensures
        types::answer(r) == read_answer(barrier, *membership, projected),
{
    match barrier_result(barrier, membership) {
        Err(e) => Err(e),
        Ok(_) => match projected {
            Some(t) => Ok(t),
            None => Err(ConfigError::unavailable("state reader did not yield applied state")),
        },
    }
}

/// Which line a request's outcome is logged under, and for which operation.
#[derive(Clone, Copy, Debug)]
pub struct OutcomeLine {
    /// `client_write` or `client_read`.
    pub msg: &'static str,
    /// The operation.
    pub op: &'static str,
}

impl OutcomeLine {
    /// The line of a mutation.
    pub fn write(op: &'static str) -> (l: Self)
        ensures
            l.msg@ == "client_write"@,
            l.op == op,
    {
        OutcomeLine { msg: "client_write", op }
    }

    /// The line of a read.
    pub fn read(op: &'static str) -> (l: Self)
        ensures
            l.msg@ == "client_read"@,
            l.op == op,
    {
        OutcomeLine { msg: "client_read", op }
    }
}

/// Most key bytes that are rendered for a log line.
pub const KEY_HEX_MAX_BYTES: usize = 32;

/// Hexadecimal text of at most the first 32 bytes of a key.
pub open spec fn key_text(key: Seq<u8>) -> Seq<char> {
    text::hex(
        if key.len() <= KEY_HEX_MAX_BYTES {
            key
        } else {
            key.take(KEY_HEX_MAX_BYTES as int)
        },
    )
}

/// Hexadecimal text of at most the first 32 bytes of a key, for a log line.
pub fn key_hex(key: &[u8]) -> (r: String)
    ensures
        r@ == key_text(key@),
{
    text::hex_of_first(key, KEY_HEX_MAX_BYTES)
}

/// A mutation is reported as safe to send again only when it provably never entered the log:
/// another node leads, or a membership change was refused. A deadline, a lost core, a failed
/// store and an answer that does not fit a mutation all leave it possibly applied, and none of
/// them invites a second attempt.
pub proof fn only_an_unlogged_mutation_is_resubmittable<M>(
    outcome: WriteOutcome<CommandResponse<M>>,
    membership: MembershipView,
)
    ensures
        mutation_answer(outcome, membership) matches Err(e) && e.safe_to_resubmit() <==> outcome
            is ForwardToLeader || outcome is ChangeMembership,
        compaction_answer(outcome, membership) matches Err(e) && e.safe_to_resubmit() <==> outcome
            is ForwardToLeader || outcome is ChangeMembership,
{
}

/// The same loss of the core that leaves a write's outcome unknown leaves a read plainly
/// retryable.
pub proof fn a_fatal_tells_reads_and_writes_apart(fatal: FatalModel)
    requires
        !(fatal is StorageError),
    ensures
        read_fatal(fatal).safe_to_resubmit(),
        !write_fatal(fatal).safe_to_resubmit(),
        write_fatal(fatal).class() == types::StatusClass::DeadlineExceeded,
{
}

/// No read is answered from applied state unless a quorum has just confirmed that this node
/// leads: a former leader that was cut off refuses.
pub proof fn no_read_without_the_barrier<T>(
    barrier: Barrier,
    membership: MembershipView,
    projected: Option<T>,
)
    ensures
        read_answer(barrier, membership, projected) is Ok ==> barrier is Reached,
        barrier is Reached && projected is Some ==> read_answer(barrier, membership, projected)
            is Ok,
{
}

/// A refusal's hint names only what is committed: the leader's client endpoint.
pub proof fn hints_are_committed(membership: MembershipView, leader: Option<NodeId>)
    ensures
        not_leader_error(membership, leader) matches ConfigErrorModel::NotLeader {
            hint: Some(h),
        } ==> leader == Some(h.node_id) && membership.client_endpoints@.contains_key(h.node_id.0)
            && h.endpoint == membership.client_endpoints@[h.node_id.0]@,
{
}

/// A client learns of a mutation that it was applied exactly when it was, and gets the state
/// machine's own answer. One that was refused when it was applied is invalid; a deadline leaves
/// the outcome open; a node that does not lead names the leader it knows; and an answer that does
/// not fit the command is fatal, because the entry is in the log.
pub proof fn a_mutation_is_answered_as_it_went<M>(
    outcome: WriteOutcome<CommandResponse<M>>,
    membership: MembershipView,
)
    ensures
        ({
            let answer = mutation_answer(outcome, membership);
            &&& answer matches Ok(m) ==> outcome == WriteOutcome::Applied(
                CommandResponse::Mutation(m),
            )
            &&& outcome matches WriteOutcome::Applied(CommandResponse::Mutation(m)) ==> answer
                == Ok::<M, ConfigErrorModel>(m)
            &&& outcome matches WriteOutcome::Applied(CommandResponse::Rejected { reason })
                ==> answer == Err::<M, ConfigErrorModel>(
                ConfigErrorModel::InvalidArgument { detail: reason@ },
            )
            &&& answer matches Err(e) ==> match outcome {
                WriteOutcome::Applied(CommandResponse::Rejected { .. }) => e is InvalidArgument,
                WriteOutcome::Applied(_) => e is FatalStorage,
                WriteOutcome::TimedOut => e is DeadlineExceededUnknownOutcome,
                WriteOutcome::ForwardToLeader { leader } => if leader is Some {
                    e is NotLeader
                } else {
                    e is Unavailable
                },
                WriteOutcome::ChangeMembership { detail } => e == (ConfigErrorModel::Unavailable {
                    reason: detail@,
                }),
                WriteOutcome::Fatal(f) => if f is StorageError {
                    e is FatalStorage
                } else {
                    e is DeadlineExceededUnknownOutcome
                },
            }
        }),
{
}

/// A compaction is answered with the watermark it moved to exactly when it was applied as one; in
/// every other case as a mutation is that went the same way.
pub proof fn a_compaction_is_answered_as_it_went<M>(
    outcome: WriteOutcome<CommandResponse<M>>,
    membership: MembershipView,
)
    ensures
        ({
            let answer = compaction_answer(outcome, membership);
            &&& answer matches Ok(r) ==> outcome == WriteOutcome::Applied(
                CommandResponse::<M>::Compacted { compact_revision: r },
            )
            &&& outcome matches WriteOutcome::Applied(
                CommandResponse::Compacted { compact_revision },
            ) ==> answer == Ok::<u64, ConfigErrorModel>(compact_revision)
            &&& outcome is Applied && answer is Err ==> (answer->Err_0 is InvalidArgument
                <==> outcome->Applied_0 is Rejected)
            &&& outcome is Applied && answer is Err && !(outcome->Applied_0 is Rejected)
                ==> answer->Err_0 is FatalStorage
            &&& outcome matches WriteOutcome::Applied(CommandResponse::Rejected { reason })
                ==> answer == Err::<u64, ConfigErrorModel>(
                ConfigErrorModel::InvalidArgument { detail: reason@ },
            )
            &&& !(outcome is Applied) ==> answer is Err && mutation_answer(outcome, membership)
                == Err::<M, ConfigErrorModel>(answer->Err_0)
        }),
{
}

/// A read goes on from the barrier exactly when a quorum confirmed that this node leads. A read
/// that missed it had no effect, so every refusal but a failed store can be tried again.
pub proof fn the_barrier_lets_only_a_leader_read(barrier: Barrier, membership: MembershipView)
    ensures
        barrier_refusal(barrier, membership) is None <==> barrier is Reached,
        barrier_refusal(barrier, membership) matches Some(e) ==> match barrier {
            Barrier::Reached => false,
            Barrier::TimedOut => e is Unavailable,
            Barrier::QuorumNotEnough { .. } => e is Unavailable,
            Barrier::ForwardToLeader { leader } => if leader is Some {
                e is NotLeader
            } else {
                e is Unavailable
            },
            Barrier::Fatal(f) => if f is StorageError {
                e is FatalStorage
            } else {
                e is Unavailable
            },
        },
{
}

/// A read answers with the state that was read behind the barrier, and with nothing else.
pub proof fn a_read_answers_with_applied_state<T>(
    barrier: Barrier,
    membership: MembershipView,
    projected: Option<T>,
)
    ensures
        read_answer(barrier, membership, projected) is Ok <==> barrier is Reached && projected
            is Some,
        read_answer(barrier, membership, projected) matches Ok(t) ==> projected == Some(t),
        barrier is Reached && projected is None ==> (read_answer(barrier, membership, projected)
            matches Err(e) && e is Unavailable),
        !(barrier is Reached) ==> read_answer(barrier, membership, projected) == Err::<
            T,
            ConfigErrorModel,
        >(barrier_refusal(barrier, membership)->Some_0),
{
}

/// A client is sent to a leader exactly when the membership knows where the leader serves clients.
pub proof fn a_hint_names_the_leader_where_it_serves(membership: MembershipView, node: NodeId)
    ensures
        hint_of(membership, node) is Some <==> membership.client_endpoints@.contains_key(node.0),
        hint_of(membership, node) matches Some(h) ==> h.node_id == node && h.endpoint
            == membership.client_endpoints@[node.0]@,
        not_leader_error(membership, Some(node)) == (ConfigErrorModel::NotLeader {
            hint: hint_of(membership, node),
        }),
        not_leader_error(membership, None) is Unavailable,
{
}

/// A storage failure is told as one to readers and writers alike, with what the store said. Any
/// other failure leaves a write open and a read undone.
pub proof fn a_failed_store_is_told_as_such(fatal: FatalModel)
    ensures
        fatal matches FatalModel::StorageError(detail) ==> read_fatal(fatal) == (
        ConfigErrorModel::FatalStorage { detail }) && write_fatal(fatal) == (
        ConfigErrorModel::FatalStorage { detail }),
        !(fatal is StorageError) ==> read_fatal(fatal) is Unavailable && write_fatal(fatal)
            is DeadlineExceededUnknownOutcome,
{
}

/// A key is shown in hexadecimal, two digits a byte, as far as its first thirty-two bytes.
pub proof fn a_key_is_shown_by_its_beginning(key: Seq<u8>)
    ensures
        key.len() <= 32 ==> key_text(key) == text::hex(key),
        key.len() > 32 ==> key_text(key) == text::hex(key.subrange(0, 32)),
{
    if key.len() > 32 {
        assert(key.take(32) =~= key.subrange(0, 32));
    }
}

} // verus!
