//! The outgoing side of the peer plane: what an envelope says, what an answer records, and how a
//! failure is retried.
//!
//! | Failure | Reaction |
//! |---|---|
//! | unreachable | back off before retrying |
//! | identity rejected | back off; a mismatched peer is not a flaky link |
//! | network | retry at once |
//! | remote | the peer answered but cannot serve |

use vstd::prelude::*;

use crate::text;
use crate::transport::PeerEnvelopeMeta;
use crate::transport::PeerResponse;
use crate::transport::PeerSchemas;
use crate::transport::SchemaTriple;
use crate::transport::TransportError;
use crate::transport::TransportErrorModel;
use crate::types::ClusterIdentity;
use crate::types::NodeId;

verus! {

/// What is known of the client trace behind one log entry.
#[derive(PartialEq, Eq, Debug)]
pub enum EntryTrace {
    /// The entry carries no command.
    NotACommand,
    /// The entry carries a command of which no trace is recorded.
    Unknown,
    /// The entry carries a command that belongs to this trace.
    Known(String),
}

impl EntryTrace {
    /// Whether the entry carries a command.
    pub open spec fn is_command(&self) -> bool {
        !(self is NotACommand)
    }

    /// Whether the entry belongs to `trace`.
    pub open spec fn belongs_to(&self, trace: Seq<char>) -> bool {
        match self {
            EntryTrace::Known(t) => t@ == trace,
            _ => false,
        }
    }
}

/// Whether the commands of `entries` all belong to `trace`, and there is one.
pub open spec fn all_belong_to(entries: Seq<EntryTrace>, trace: Seq<char>) -> bool {
    &&& exists|i: int| 0 <= i < entries.len() && (#[trigger] entries[i]).is_command()
    &&& forall|i: int|
        0 <= i < entries.len() && (#[trigger] entries[i]).is_command() ==> entries[i].belongs_to(
            trace,
        )
}

/// The client trace that a replication call carries, when there is no doubt about it: every
/// command in it belongs to that trace. A receiver cannot tell which of a batch's entries a trace
/// belongs to, so a mixed batch carries none, and neither does a heartbeat.
pub fn client_trace_id(entries: &Vec<EntryTrace>) -> (r: Option<String>)
    ensures
        match r {
            Some(t) => all_belong_to(entries@, t@),
            None => forall|trace: Seq<char>| !#[trigger] all_belong_to(entries@, trace),
        },
{
    let mut found: Option<String> = None;
    let mut i: usize = 0;
    while i < entries.len()
        invariant
            i <= entries@.len(),
            match found {
                Some(t) => all_belong_to(entries@.take(i as int), t@),
                None => forall|j: int| 0 <= j < i ==> !(#[trigger] entries@[j]).is_command(),
            },
        decreases entries@.len() - i,
    {
        let ghost before = entries@.take(i as int);
        let ghost now = entries@.take(i + 1);
        proof {
            assert(forall|j: int| 0 <= j < i ==> now[j] == before[j]);
            assert(now[i as int] == entries@[i as int]);
        }
        match &entries[i] {
            EntryTrace::NotACommand => {
                proof {
                    if found is Some {
                        let t = found->Some_0;
                        let j = choose|j: int|
                            0 <= j < before.len() && (#[trigger] before[j]).is_command();
                        assert(now[j].is_command());
                        assert forall|j: int| 0 <= j < now.len() && (
                        #[trigger] now[j]).is_command() implies now[j].belongs_to(t@) by {
                            assert(now[j] == before[j]);
                        }
                    }
                }
            },
            EntryTrace::Unknown => {
                proof {
                    assert(entries@[i as int].is_command());
                    assert forall|trace: Seq<char>| !#[trigger] all_belong_to(entries@, trace) by {
                        assert(!entries@[i as int].belongs_to(trace));
                    }
                }
                return None;
            },
            EntryTrace::Known(t) => {
                let same: bool = match &found {
                    None => true,
                    Some(seen) => *seen == *t,
                };
                if !same {
                    proof {
                        let seen = found->Some_0;
                        let j = choose|j: int|
                            0 <= j < before.len() && (#[trigger] before[j]).is_command();
                        assert(before[j].belongs_to(seen@));
                        assert(entries@[j] == before[j]);
                        assert forall|trace: Seq<char>| !#[trigger] all_belong_to(
                            entries@,
                            trace,
                        ) by {
                            assert(entries@[i as int].is_command());
                            assert(entries@[j].is_command());
                        }
                    }
                    return None;
                }
                proof {
                    assert(now[i as int].is_command());
                    assert forall|j: int| 0 <= j < now.len() && (
                    #[trigger] now[j]).is_command() implies now[j].belongs_to(t@) by {
                        if j < i {
                            assert(now[j] == before[j]);
                            assert(entries@[j] == before[j]);
                        }
                    }
                }
                if found.is_none() {
                    found = Some(t.clone());
                }
            },
        }
        i = i + 1;
    }
    assert(entries@.take(entries@.len() as int) =~= entries@);
    proof {
        if found is None {
            assert forall|trace: Seq<char>| !#[trigger] all_belong_to(entries@, trace) by {
                if all_belong_to(entries@, trace) {
                    let j = choose|j: int|
                        0 <= j < entries@.len() && (#[trigger] entries@[j]).is_command();
                    assert(entries@[j].is_command());
                }
            }
        }
    }
    found
}

/// How the Raft core reacts to a failed call.
#[derive(Clone, Copy, PartialEq, Eq, Structural, Debug)]
pub enum RpcReaction {
    /// Back off before retrying.
    Unreachable,
    /// Retry at once.
    Network,
    /// The peer answered but cannot serve.
    Remote,
}

/// The reaction to a failure.
pub open spec fn reaction(err: TransportErrorModel) -> RpcReaction {
    match err {
        TransportErrorModel::Unreachable(_) => RpcReaction::Unreachable,
        TransportErrorModel::IdentityRejected(_) => RpcReaction::Unreachable,
        TransportErrorModel::Network(_) => RpcReaction::Network,
        TransportErrorModel::Remote(_) => RpcReaction::Remote,
    }
}

/// The reaction whose retry behaviour matches a failure.
pub fn to_rpc_error(err: &TransportError) -> (r: RpcReaction)
    ensures
        r == reaction(err@),
{
    match err {
        TransportError::Unreachable(_) => RpcReaction::Unreachable,
        TransportError::IdentityRejected(_) => RpcReaction::Unreachable,
        TransportError::Network(_) => RpcReaction::Network,
        TransportError::Remote(_) => RpcReaction::Remote,
    }
}

/// The text of an answer of the wrong kind.
pub open spec fn wrong_variant_text(
    target: NodeId,
    expected: Seq<char>,
    got: Seq<char>,
) -> Seq<char> {
    "peer "@ + text::decimal(target.0 as nat) + " answered a "@ + expected + " call with a "@ + got
        + " response"@
}

/// The failure of a call whose answer is of the wrong kind.
pub fn wrong_variant(target: NodeId, expected: &str, got: &str) -> (r: TransportError)
    ensures
        r@ == TransportErrorModel::Network(wrong_variant_text(target, expected@, got@)),
{
    let mut out = "peer ".to_owned();
    text::push_decimal(&mut out, target.0 as u128);
    text::push_text(&mut out, " answered a ");
    text::push_text(&mut out, expected);
    text::push_text(&mut out, " call with a ");
    text::push_text(&mut out, got);
    text::push_text(&mut out, " response");
    TransportError::Network(out)
}

/// One node's outgoing channel to one peer. The endpoint is the committed one; gossip never
/// names it.
pub struct EngineNetwork {
    /// Who calls.
    pub identity: ClusterIdentity,
    /// Who is called.
    pub target: NodeId,
    /// Where, by committed membership.
    pub endpoint: String,
    /// What the caller advertises.
    pub schema: SchemaTriple,
}

impl EngineNetwork {
    /// The envelope of a call that belongs to `trace_id`.
    pub fn meta(&self, trace_id: String) -> (m: PeerEnvelopeMeta)
        ensures
            m.cluster_id == self.identity.cluster_id,
            m.recovery_epoch == self.identity.recovery_epoch,
            m.from == self.identity.node_id,
            m.to == self.target,
            m.trace_id == trace_id,
    {
        PeerEnvelopeMeta {
            cluster_id: self.identity.cluster_id,
            recovery_epoch: self.identity.recovery_epoch,
            from: self.identity.node_id,
            to: self.target,
            trace_id,
        }
    }

    /// What is known of the peers once this one has answered, with the schema it said.
    pub open spec fn learned(
        &self,
        seen: Map<u64, SchemaTriple>,
        said: Option<SchemaTriple>,
    ) -> Map<u64, SchemaTriple> {
        seen.insert(
            self.target.0,
            match said {
                Some(s) => s,
                None => SchemaTriple::oldest(),
            },
        )
    }

    /// Finish a call. Every answer records what the peer advertises, and one that names no
    /// schema records the first generation: it replied, so it is not a peer that was never
    /// heard from. A call that failed records nothing.
    pub fn call<R>(
        &self,
        peer_schemas: &mut PeerSchemas,
        result: Result<(R, Option<SchemaTriple>), TransportError>,
    ) -> (r: Result<R, TransportError>)
        ensures
            match result {
                Ok((response, schema)) => {
                    &&& r is Ok
                    &&& r->Ok_0 == response
                    &&& final(peer_schemas)@ == self.learned(old(peer_schemas)@, schema)
                },
                Err(e) => {
                    &&& r is Err
                    &&& r->Err_0 == e
                    &&& final(peer_schemas)@ == old(peer_schemas)@
                },
            },
    {
        match result {
            Ok((response, schema)) => {
                let observed = match schema {
                    Some(s) => s,
                    None => SchemaTriple::compat_1(),
                };
                peer_schemas.record(self.target, observed);
                Ok(response)
            },
            Err(e) => Err(e),
        }
    }

    /// The answer to a replication call.
    pub fn append_entries<A, V, S>(&self, response: PeerResponse<A, V, S>) -> (r: Result<
        A,
        TransportError,
    >)
        ensures
            match response {
                PeerResponse::AppendEntries(a) => r is Ok && r->Ok_0 == a,
                other => r matches Err(e) && e@ == TransportErrorModel::Network(
                    wrong_variant_text(self.target, "append_entries"@, other.name()),
                ),
            },
    {
        match response {
            PeerResponse::AppendEntries(a) => Ok(a),
            other => Err(wrong_variant(self.target, "append_entries", other.kind())),
        }
    }

    /// The answer to a vote.
    pub fn vote<A, V, S>(&self, response: PeerResponse<A, V, S>) -> (r: Result<V, TransportError>)
        ensures
            match response {
                PeerResponse::Vote(v) => r is Ok && r->Ok_0 == v,
                other => r matches Err(e) && e@ == TransportErrorModel::Network(
                    wrong_variant_text(self.target, "vote"@, other.name()),
                ),
            },
    {
        match response {
            PeerResponse::Vote(v) => Ok(v),
            other => Err(wrong_variant(self.target, "vote", other.kind())),
        }
    }

    /// The answer to a snapshot.
    pub fn install_snapshot<A, V, S>(&self, response: PeerResponse<A, V, S>) -> (r: Result<
        S,
        TransportError,
    >)
        ensures
            match response {
                PeerResponse::InstallSnapshot(s) => r is Ok && r->Ok_0 == s,
                other => r matches Err(e) && e@ == TransportErrorModel::Network(
                    wrong_variant_text(self.target, "install_snapshot"@, other.name()),
                ),
            },
    {
        match response {
            PeerResponse::InstallSnapshot(s) => Ok(s),
            other => Err(wrong_variant(self.target, "install_snapshot", other.kind())),
        }
    }
}

/// A peer that could not be reached, or that would not have this node, is unreachable to the core;
/// a failure on the way is one of the network, and what the peer itself failed at is the peer's.
pub proof fn a_refused_identity_is_an_unreachable_peer(err: TransportErrorModel)
    ensures
        reaction(err) is Unreachable <==> err is Unreachable || err is IdentityRejected,
        reaction(err) is Network <==> err is Network,
        reaction(err) is Remote <==> err is Remote,
{
}

/// Entries are traced to a client exactly when all the commands among them are known to be that
/// client's, and there is one. No two traces claim the same entries.
pub proof fn entries_have_one_trace(entries: Seq<EntryTrace>, one: Seq<char>, other: Seq<char>)
    ensures
        all_belong_to(entries, one) <==> (exists|i: int|
            0 <= i < entries.len() && !(#[trigger] entries[i] is NotACommand)) && forall|i: int|
            0 <= i < entries.len() && !(#[trigger] entries[i] is NotACommand) ==> (entries[i]
                matches EntryTrace::Known(t) && t@ == one),
        all_belong_to(entries, one) && all_belong_to(entries, other) ==> one == other,
{
    if all_belong_to(entries, one) {
        let i = choose|i: int| 0 <= i < entries.len() && (#[trigger] entries[i]).is_command();
        assert(!(entries[i] is NotACommand));
        assert(entries[i].belongs_to(one));
        assert forall|i: int| 0 <= i < entries.len() && !(#[trigger] entries[i]
            is NotACommand) implies (entries[i] matches EntryTrace::Known(t) && t@ == one) by {
            assert(entries[i].is_command());
        }
        if all_belong_to(entries, other) {
            assert(entries[i].belongs_to(other));
        }
    }
    if (exists|i: int| 0 <= i < entries.len() && !(#[trigger] entries[i] is NotACommand)) && forall|
        i: int,
    |
        0 <= i < entries.len() && !(#[trigger] entries[i] is NotACommand) ==> (entries[i]
            matches EntryTrace::Known(t) && t@ == one) {
        let i = choose|i: int| 0 <= i < entries.len() && !(#[trigger] entries[i] is NotACommand);
        assert(entries[i].is_command());
        assert forall|i: int|
            0 <= i < entries.len() && (#[trigger] entries[i]).is_command() implies entries[i].belongs_to(
            one,
        ) by {
            assert(!(entries[i] is NotACommand));
        }
    }
}

/// A peer that answers is taken at its word from then on, and one that does not say what it decodes
/// is taken to decode the oldest schema, whatever it said before. Nothing is learned of others.
pub proof fn an_answer_tells_what_its_peer_decodes(
    net: EngineNetwork,
    seen: Map<u64, SchemaTriple>,
    said: Option<SchemaTriple>,
    other: u64,
)
    ensures
        ({
            let after = net.learned(seen, said);
            &&& after.contains_key(net.target.0)
            &&& said matches Some(s) ==> after[net.target.0] == s
            &&& said is None ==> after[net.target.0] == (SchemaTriple {
                command_schema: 1,
                storage_schema: 1,
                peer_schema: 1,
            })
            &&& other != net.target.0 ==> (after.contains_key(other) <==> seen.contains_key(other))
                && after[other] == seen[other]
        }),
{
}

} // verus!
