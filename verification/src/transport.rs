//! The peer plane: what one node sends another, how a call is bound to an identity, and why it
//! can fail.

use std::collections::BTreeMap;
use vstd::prelude::*;

use crate::text;
use crate::types::ClusterId;
use crate::types::NodeId;
use crate::types::RecoveryEpoch;

verus! {

/// The encoding of a peer payload. A receiver accepts exactly this tag.
pub const PAYLOAD_ENCODING_POSTCARD: u32 = 2;

/// Why a peer call failed.
#[derive(PartialEq, Eq, Debug)]
pub enum TransportError {
    /// Could not connect, or the destination is blocked.
    Unreachable(String),
    /// Connected, but the call failed in flight.
    Network(String),
    /// The peer answered with an error.
    Remote(String),
    /// The peer rejected the sender's identity.
    IdentityRejected(String),
}

/// What a [`TransportError`] says.
pub enum TransportErrorModel {
    Unreachable(Seq<char>),
    Network(Seq<char>),
    Remote(Seq<char>),
    IdentityRejected(Seq<char>),
}

impl View for TransportError {
    type V = TransportErrorModel;

    open spec fn view(&self) -> TransportErrorModel {
        match self {
            TransportError::Unreachable(s) => TransportErrorModel::Unreachable(s@),
            TransportError::Network(s) => TransportErrorModel::Network(s@),
            TransportError::Remote(s) => TransportErrorModel::Remote(s@),
            TransportError::IdentityRejected(s) => TransportErrorModel::IdentityRejected(s@),
        }
    }
}

impl TransportErrorModel {
    /// The text of a failure.
    pub open spec fn text(self) -> Seq<char> {
        match self {
            TransportErrorModel::Unreachable(s) => "peer unreachable: "@ + s,
            TransportErrorModel::Network(s) => "network error: "@ + s,
            TransportErrorModel::Remote(s) => "remote error: "@ + s,
            TransportErrorModel::IdentityRejected(s) => "identity rejected by peer: "@ + s,
        }
    }
}

impl TransportError {
    /// The failure as text.
    pub fn describe(&self) -> (r: String)
        ensures
            r@ == self@.text(),
    {
        match self {
            TransportError::Unreachable(s) => text::two("peer unreachable: ", s.as_str()),
            TransportError::Network(s) => text::two("network error: ", s.as_str()),
            TransportError::Remote(s) => text::two("remote error: ", s.as_str()),
            TransportError::IdentityRejected(s) => text::two(
                "identity rejected by peer: ",
                s.as_str(),
            ),
        }
    }
}

/// What a call came to: its answer, or what its failure says.
pub open spec fn outcome<T>(r: Result<T, TransportError>) -> Result<T, TransportErrorModel> {
    match r {
        Ok(v) => Ok(v),
        Err(e) => Err(e@),
    }
}

/// The generations of formats a build understands, on all three planes. Two are ordered by their
/// first difference.
#[derive(Clone, Copy, PartialEq, Eq, Structural, Debug, PartialOrd, Ord, Hash)]
pub struct SchemaTriple {
    /// Replicated commands.
    pub command_schema: u16,
    /// Stored state.
    pub storage_schema: u16,
    /// Peer messages.
    pub peer_schema: u16,
}

/// The first generation of replicated commands.
pub const COMMAND_SCHEMA_V1: u16 = 1;

impl SchemaTriple {
    /// The first generation of everything: what a peer that names no schema is taken to have.
    pub open spec fn oldest() -> SchemaTriple {
        SchemaTriple { command_schema: 1, storage_schema: 1, peer_schema: 1 }
    }

    /// What this build understands.
    pub open spec fn newest() -> SchemaTriple {
        SchemaTriple { command_schema: 2, storage_schema: 2, peer_schema: 2 }
    }

    /// Whether `self` comes before `other` or is the same.
    pub open spec fn at_most(self, other: SchemaTriple) -> bool {
        if self.command_schema != other.command_schema {
            self.command_schema < other.command_schema
        } else if self.storage_schema != other.storage_schema {
            self.storage_schema < other.storage_schema
        } else {
            self.peer_schema <= other.peer_schema
        }
    }

    /// The first generation of everything.
    pub fn compat_1() -> (s: Self)
        ensures
            s == SchemaTriple::oldest(),
    {
        SchemaTriple { command_schema: 1, storage_schema: 1, peer_schema: 1 }
    }

    /// What this build understands.
    pub fn current() -> (s: Self)
        ensures
            s == SchemaTriple::newest(),
    {
        SchemaTriple { command_schema: 2, storage_schema: 2, peer_schema: 2 }
    }

    /// Whether `self` comes before `other` or is the same.
    pub fn is_at_most(self, other: SchemaTriple) -> (r: bool)
        ensures
            r == self.at_most(other),
    {
        if self.command_schema != other.command_schema {
            self.command_schema < other.command_schema
        } else if self.storage_schema != other.storage_schema {
            self.storage_schema < other.storage_schema
        } else {
            self.peer_schema <= other.peer_schema
        }
    }
}

/// The schema each peer was last observed to advertise, on the peer plane only.
///
/// An entry is never removed: a voter that can no longer be reached keeps its last known value,
/// and so holds the minimum down rather than dropping out of it.
pub struct PeerSchemas {
    seen: BTreeMap<u64, SchemaTriple>,
}

impl View for PeerSchemas {
    type V = Map<u64, SchemaTriple>;

    closed spec fn view(&self) -> Map<u64, SchemaTriple> {
        self.seen@
    }
}

/// What `node` last advertised, or the first generation if it never has.
pub open spec fn schema_of(seen: Map<u64, SchemaTriple>, node: u64) -> SchemaTriple {
    if seen.contains_key(node) {
        seen[node]
    } else {
        SchemaTriple::oldest()
    }
}

impl Default for PeerSchemas {
    fn default() -> (s: Self)
        ensures
            s@ == Map::<u64, SchemaTriple>::empty(),
    {
        PeerSchemas { seen: BTreeMap::new() }
    }
}

impl PeerSchemas {
    /// Record what `node` advertised on its last answer.
    pub fn record(&mut self, node: NodeId, schema: SchemaTriple)
        ensures
            final(self)@ == old(self)@.insert(node.0, schema),
    {
        self.seen.insert(node.0, schema);
    }

    /// What `node` last advertised, or the first generation if it never has. A node that has not
    /// answered cannot be told from one too old to say, and both gate alike.
    pub fn get(&self, node: NodeId) -> (r: SchemaTriple)
        ensures
            r == schema_of(self@, node.0),
    {
        match self.seen.get(&node.0) {
            Some(s) => *s,
            None => SchemaTriple::compat_1(),
        }
    }

    /// What `node` last advertised, or `None` if it has never answered.
    pub fn observed(&self, node: NodeId) -> (r: Option<SchemaTriple>)
        ensures
            r == (if self@.contains_key(node.0) {
                Some(self@[node.0])
            } else {
                None
            }),
    {
        match self.seen.get(&node.0) {
            Some(s) => Some(*s),
            None => None,
        }
    }
}

/// A request to a peer: `A`, `V` and `S` are the Raft core's own messages.
#[derive(PartialEq, Eq, Debug)]
pub enum PeerRequest<A, V, S> {
    /// Log replication and heartbeats.
    AppendEntries(A),
    /// A vote in an election.
    Vote(V),
    /// A snapshot.
    InstallSnapshot(S),
}

impl<A, V, S> PeerRequest<A, V, S> {
    /// The name of a request.
    pub open spec fn name(&self) -> Seq<char> {
        match self {
            PeerRequest::AppendEntries(_) => "append_entries"@,
            PeerRequest::Vote(_) => "vote"@,
            PeerRequest::InstallSnapshot(_) => "install_snapshot"@,
        }
    }

    /// Stable name for log fields.
    pub fn kind(&self) -> (r: &'static str)
        ensures
            r@ == self.name(),
    {
        match self {
            PeerRequest::AppendEntries(_) => "append_entries",
            PeerRequest::Vote(_) => "vote",
            PeerRequest::InstallSnapshot(_) => "install_snapshot",
        }
    }
}

/// A peer's answer to a request, of the same kind.
#[derive(PartialEq, Eq, Debug)]
pub enum PeerResponse<A, V, S> {
    /// Answer to `AppendEntries`.
    AppendEntries(A),
    /// Answer to `Vote`.
    Vote(V),
    /// Answer to `InstallSnapshot`.
    InstallSnapshot(S),
}

impl<A, V, S> PeerResponse<A, V, S> {
    /// The name of a response.
    pub open spec fn name(&self) -> Seq<char> {
        match self {
            PeerResponse::AppendEntries(_) => "append_entries"@,
            PeerResponse::Vote(_) => "vote"@,
            PeerResponse::InstallSnapshot(_) => "install_snapshot"@,
        }
    }

    /// Stable name for log fields.
    pub fn kind(&self) -> (r: &'static str)
        ensures
            r@ == self.name(),
    {
        match self {
            PeerResponse::AppendEntries(_) => "append_entries",
            PeerResponse::Vote(_) => "vote",
            PeerResponse::InstallSnapshot(_) => "install_snapshot",
        }
    }
}

/// The identity that one peer call is bound to. The receiver checks it before it looks at the
/// payload.
#[derive(PartialEq, Eq, Debug)]
pub struct PeerEnvelopeMeta {
    /// Cluster the sender believes it is in.
    pub cluster_id: ClusterId,
    /// Sender's recovery epoch.
    pub recovery_epoch: RecoveryEpoch,
    /// Sending node.
    pub from: NodeId,
    /// Intended receiver.
    pub to: NodeId,
    /// The trace the call belongs to.
    pub trace_id: String,
}

/// Why a peer call was refused before it was handed to the Raft core.
#[derive(PartialEq, Eq, Debug)]
pub enum PeerReject {
    /// The sender is in a different cluster.
    WrongCluster { expected: ClusterId, got: ClusterId },
    /// The sender's recovery epoch differs.
    WrongEpoch { expected: RecoveryEpoch, got: RecoveryEpoch },
    /// The call was addressed to another node.
    WrongDestination { expected: NodeId, got: NodeId },
    /// The transport identity does not match the sender.
    IdentityMismatch(String),
    /// The sender was retired from the cluster.
    Retired { node_id: NodeId },
    /// The node is not running.
    NotRunning,
    /// The Raft core returned an error for the call.
    Raft(String),
}

/// What a [`PeerReject`] says.
#[allow(inconsistent_fields)]
pub enum PeerRejectModel {
    WrongCluster { expected: ClusterId, got: ClusterId },
    WrongEpoch { expected: RecoveryEpoch, got: RecoveryEpoch },
    WrongDestination { expected: NodeId, got: NodeId },
    IdentityMismatch(Seq<char>),
    Retired { node_id: NodeId },
    NotRunning,
    Raft(Seq<char>),
}

impl View for PeerReject {
    type V = PeerRejectModel;

    open spec fn view(&self) -> PeerRejectModel {
        match self {
            PeerReject::WrongCluster { expected, got } => PeerRejectModel::WrongCluster {
                expected: *expected,
                got: *got,
            },
            PeerReject::WrongEpoch { expected, got } => PeerRejectModel::WrongEpoch {
                expected: *expected,
                got: *got,
            },
            PeerReject::WrongDestination { expected, got } => PeerRejectModel::WrongDestination {
                expected: *expected,
                got: *got,
            },
            PeerReject::IdentityMismatch(s) => PeerRejectModel::IdentityMismatch(s@),
            PeerReject::Retired { node_id } => PeerRejectModel::Retired { node_id: *node_id },
            PeerReject::NotRunning => PeerRejectModel::NotRunning,
            PeerReject::Raft(s) => PeerRejectModel::Raft(s@),
        }
    }
}

impl PeerRejectModel {
    /// The text of a refusal.
    pub open spec fn text(self) -> Seq<char> {
        match self {
            PeerRejectModel::WrongCluster { expected, got } => "wrong cluster: expected "@
                + expected.text() + " got "@ + got.text(),
            PeerRejectModel::WrongEpoch { expected, got } => "wrong recovery epoch: expected "@
                + text::decimal(expected.0 as nat) + " got "@ + text::decimal(got.0 as nat),
            PeerRejectModel::WrongDestination { expected, got } =>
                "wrong destination: this is node "@ + text::decimal(expected.0 as nat)
                + ", envelope addressed to "@ + text::decimal(got.0 as nat),
            PeerRejectModel::IdentityMismatch(s) => "transport identity mismatch: "@ + s,
            PeerRejectModel::Retired { node_id } => "node "@ + text::decimal(node_id.0 as nat)
                + " is retired: identity_retired"@,
            PeerRejectModel::NotRunning => "node not running"@,
            PeerRejectModel::Raft(s) => "raft error: "@ + s,
        }
    }
}

fn numbered(before: &str, a: u64, between: &str, b: u64) -> (r: String)
    ensures
        r@ == before@ + text::decimal(a as nat) + between@ + text::decimal(b as nat),
{
    let mut out = before.to_owned();
    text::push_decimal(&mut out, a as u128);
    text::push_text(&mut out, between);
    text::push_decimal(&mut out, b as u128);
    out
}

impl PeerReject {
    /// The refusal as text.
    pub fn describe(&self) -> (r: String)
        ensures
            r@ == self@.text(),
    {
        match self {
            PeerReject::WrongCluster { expected, got } => {
                let mut out = "wrong cluster: expected ".to_owned();
                text::push_text(&mut out, expected.describe().as_str());
                text::push_text(&mut out, " got ");
                text::push_text(&mut out, got.describe().as_str());
                out
            },
            PeerReject::WrongEpoch { expected, got } => numbered(
                "wrong recovery epoch: expected ",
                expected.0,
                " got ",
                got.0,
            ),
            PeerReject::WrongDestination { expected, got } => numbered(
                "wrong destination: this is node ",
                expected.0,
                ", envelope addressed to ",
                got.0,
            ),
            PeerReject::IdentityMismatch(s) => text::two(
                "transport identity mismatch: ",
                s.as_str(),
            ),
            PeerReject::Retired { node_id } => {
                let mut out = "node ".to_owned();
                text::push_decimal(&mut out, node_id.0 as u128);
                text::push_text(&mut out, " is retired: identity_retired");
                out
            },
            PeerReject::NotRunning => "node not running".to_owned(),
            PeerReject::Raft(s) => text::two("raft error: ", s.as_str()),
        }
    }
}

/// Schemas are ordered, and the order goes by what a peer can decode first: of two schemas one is
/// at most the other, only equal ones are at most each other, and a lesser schema never decodes
/// newer commands.
pub proof fn schemas_are_ordered(a: SchemaTriple, b: SchemaTriple, c: SchemaTriple)
    ensures
        a.at_most(a),
        a.at_most(b) || b.at_most(a),
        a.at_most(b) && b.at_most(a) ==> a == b,
        a.at_most(b) && b.at_most(c) ==> a.at_most(c),
        a.at_most(b) ==> a.command_schema <= b.command_schema,
        a.command_schema < b.command_schema ==> a.at_most(b),
        a.command_schema == b.command_schema && a.storage_schema < b.storage_schema ==> a.at_most(
            b,
        ),
        SchemaTriple::oldest().at_most(SchemaTriple::newest()),
{
}

/// A peer that has not said what it decodes is taken to decode the oldest schema; one that has is
/// taken at its word, whatever others say.
pub proof fn a_silent_peer_decodes_the_oldest(
    seen: Map<u64, SchemaTriple>,
    node: u64,
    other: u64,
    schema: SchemaTriple,
)
    requires
        other != node,
    ensures
        !seen.contains_key(node) ==> schema_of(seen, node) == (SchemaTriple {
            command_schema: 1,
            storage_schema: 1,
            peer_schema: 1,
        }),
        schema_of(seen.insert(node, schema), node) == schema,
        schema_of(seen.insert(other, schema), node) == schema_of(seen, node),
{
}

/// Failures and rejections are seen as what they are.
pub proof fn failures_are_seen_as_they_are(e: TransportError, reject: PeerReject)
    ensures
        match e {
            TransportError::Unreachable(s) => e@ == TransportErrorModel::Unreachable(s@),
            TransportError::Network(s) => e@ == TransportErrorModel::Network(s@),
            TransportError::Remote(s) => e@ == TransportErrorModel::Remote(s@),
            TransportError::IdentityRejected(s) => e@ == TransportErrorModel::IdentityRejected(s@),
        },
        match reject {
            PeerReject::WrongCluster { expected, got } => reject@ == (
            PeerRejectModel::WrongCluster { expected, got }),
            PeerReject::WrongEpoch { expected, got } => reject@ == (PeerRejectModel::WrongEpoch {
                expected,
                got,
            }),
            PeerReject::WrongDestination { expected, got } => reject@ == (
            PeerRejectModel::WrongDestination { expected, got }),
            PeerReject::IdentityMismatch(s) => reject@ == PeerRejectModel::IdentityMismatch(s@),
            PeerReject::Retired { node_id } => reject@ == (PeerRejectModel::Retired { node_id }),
            PeerReject::NotRunning => reject@ is NotRunning,
            PeerReject::Raft(s) => reject@ == PeerRejectModel::Raft(s@),
        },
{
}

} // verus!
