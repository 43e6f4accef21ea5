//! In-process clusters: peer calls between nodes of one process.
//!
//! [`InProcTransport`] replaces the wire and not the protocol: the same envelope, the same
//! identity checks on the receiving side, the same deadline and the same fault rules.

use vstd::prelude::*;

use crate::netfault::NetFault;
use crate::text;
use crate::textmap::TextMap;
use crate::time::Duration;
use crate::transport;
use crate::transport::PeerReject;
use crate::transport::PeerRejectModel;
use crate::transport::TransportError;
use crate::transport::TransportErrorModel;
use crate::types::NodeId;

verus! {

/// Routes peer calls between nodes of one process, under the rules of a switchboard. `H` is what
/// a call is delivered into.
#[verifier::reject_recursive_types(H)]
pub struct InProcTransport<H> {
    /// The switchboard that every call obeys.
    pub faults: NetFault,
    /// The nodes that can be reached, by endpoint.
    pub routes: TextMap<H>,
}

/// The endpoint of a node.
pub open spec fn endpoint_text(node_id: NodeId) -> Seq<char> {
    "inproc://"@ + text::decimal(node_id.0 as nat)
}

/// A receiver's refusal as the sender sees it: an identity that does not fit is fenced out, a
/// node that is not serving is like a closed port, and the rest is the peer's own error.
pub open spec fn rejected(reject: PeerRejectModel) -> TransportErrorModel {
    match reject {
        PeerRejectModel::NotRunning => TransportErrorModel::Unreachable(reject.text()),
        PeerRejectModel::Raft(_) => TransportErrorModel::Remote(reject.text()),
        _ => TransportErrorModel::IdentityRejected(reject.text()),
    }
}

/// A receiver's refusal as the sender sees it.
pub fn reject_to_transport_error(reject: &PeerReject) -> (e: TransportError)
    ensures
        e@ == rejected(reject@),
{
    match reject {
        PeerReject::NotRunning => TransportError::Unreachable(reject.describe()),
        PeerReject::Raft(_) => TransportError::Remote(reject.describe()),
        _ => TransportError::IdentityRejected(reject.describe()),
    }
}

/// What delivering a call came to.
#[derive(PartialEq, Eq, Debug)]
pub enum CallOutcome<R> {
    /// The deadline passed.
    TimedOut,
    /// The receiver answered.
    Answered(R),
    /// The receiver refused.
    Refused(PeerReject),
}

/// What the sender makes of a delivered call, before the fault rules have the last word.
pub open spec fn delivered<R>(
    endpoint: Seq<char>,
    deadline: Duration,
    outcome: CallOutcome<R>,
) -> Result<R, TransportErrorModel> {
    match outcome {
        CallOutcome::TimedOut => Err(
            TransportErrorModel::Network(
                "in-process call to "@ + endpoint + " exceeded "@ + deadline.text(),
            ),
        ),
        CallOutcome::Answered(r) => Ok(r),
        CallOutcome::Refused(reject) => Err(rejected(reject@)),
    }
}

impl<H> InProcTransport<H> {
    /// Rules and routes are sound.
    pub open spec fn wf(&self) -> bool {
        self.faults.wf() && self.routes.wf()
    }

    /// A transport whose calls obey `faults`.
    pub fn new(faults: NetFault) -> (t: Self)
        requires
            faults.wf(),
        ensures
            t.wf(),
            t.faults == faults,
            t.routes@ == Map::<Seq<char>, H>::empty(),
    {
        InProcTransport { faults, routes: TextMap::new() }
    }

    /// The peer endpoint of a node. A formation plan must use exactly this text.
    pub fn endpoint(node_id: NodeId) -> (r: String)
        ensures
            r@ == endpoint_text(node_id),
    {
        let mut out = "inproc://".to_owned();
        text::push_decimal(&mut out, node_id.0 as u128);
        out
    }

    /// Make a node reachable at its endpoint.
    pub fn register(&mut self, node_id: NodeId, handler: H)
        requires
            old(self).wf(),
        ensures
            final(self).wf(),
            final(self).faults == old(self).faults,
            final(self).routes@ == old(self).routes@.insert(endpoint_text(node_id), handler),
    {
        self.routes.insert(Self::endpoint(node_id), handler);
    }

    /// Remove a node's route: its process is gone, while a blocked one still runs.
    pub fn deregister(&mut self, node_id: NodeId)
        requires
            old(self).wf(),
        ensures
            final(self).wf(),
            final(self).faults == old(self).faults,
            final(self).routes@ == old(self).routes@.remove(endpoint_text(node_id)),
    {
        let endpoint = Self::endpoint(node_id);
        self.routes.remove(endpoint.as_str());
    }

    /// The switchboard.
    pub fn faults(&self) -> (f: &NetFault)
        ensures
            *f == self.faults,
    {
        &self.faults
    }

    /// What a call to `endpoint` is delivered into.
    pub fn route(&self, endpoint: &str) -> (r: Option<&H>)
        requires
            self.wf(),
        ensures
            match r {
                Some(h) => self.routes@.contains_key(endpoint@) && *h == self.routes@[endpoint@],
                None => !self.routes@.contains_key(endpoint@),
            },
    {
        self.routes.get(endpoint)
    }

    /// Begin a call: fail when nothing is registered at the endpoint or the call is blocked, else
    /// say how long to wait before it is delivered.
    pub fn send_begin(&self, from: NodeId, to: NodeId, endpoint: &str) -> (r: Result<
        Option<Duration>,
        TransportError,
    >)
        requires
            self.wf(),
        ensures
            transport::outcome(r) == (if !self.routes@.contains_key(endpoint@) {
                Err(
                    TransportErrorModel::Unreachable(
                        "no in-process node registered at "@ + endpoint@,
                    ),
                )
            } else {
                self.faults@.admitted(from, to)
            }),
    {
        if self.route(endpoint).is_none() {
            return Err(
                TransportError::Unreachable(
                    text::two("no in-process node registered at ", endpoint),
                ),
            );
        }
        self.faults.begin(from, to)
    }

    /// Finish a call that was delivered.
    pub fn send_finish<R>(
        &self,
        from: NodeId,
        to: NodeId,
        endpoint: &str,
        deadline: Duration,
        outcome: CallOutcome<R>,
    ) -> (r: Result<R, TransportError>)
        requires
            self.wf(),
            deadline.fits(),
        ensures
            transport::outcome(r) == self.faults@.settled(
                from,
                to,
                delivered(endpoint@, deadline, outcome),
            ),
    {
        let result: Result<R, TransportError> = match outcome {
            CallOutcome::TimedOut => {
                let mut out = text::two("in-process call to ", endpoint);
                text::push_text(&mut out, " exceeded ");
                text::push_text(&mut out, deadline.describe().as_str());
                Err(TransportError::Network(out))
            },
            CallOutcome::Answered(r) => Ok(r),
            CallOutcome::Refused(reject) => Err(reject_to_transport_error(&reject)),
        };
        self.faults.settle(from, to, result)
    }
}

/// A node that was registered is reachable at its endpoint until it is deregistered, and after
/// that it is not.
pub proof fn routes_come_and_go<H>(routes: Map<Seq<char>, H>, node_id: NodeId, handler: H)
    ensures
        routes.insert(endpoint_text(node_id), handler).contains_key(endpoint_text(node_id)),
        routes.insert(endpoint_text(node_id), handler)[endpoint_text(node_id)] == handler,
        !routes.insert(endpoint_text(node_id), handler).remove(
            endpoint_text(node_id),
        ).contains_key(endpoint_text(node_id)),
{
}

/// A call is answered exactly with what the node answered. A node that does not run cannot be
/// reached, what its core failed at is the peer's failure, and any other refusal is one of this
/// node's identity.
pub proof fn a_call_is_answered_as_it_was<R>(
    endpoint: Seq<char>,
    deadline: Duration,
    outcome: CallOutcome<R>,
)
    ensures
        delivered(endpoint, deadline, outcome) matches Ok(r) ==> outcome == CallOutcome::Answered(r),
        outcome matches CallOutcome::Answered(r) ==> delivered(endpoint, deadline, outcome) == Ok::<
            R,
            TransportErrorModel,
        >(r),
        outcome is TimedOut ==> (delivered(endpoint, deadline, outcome) matches Err(e) && e
            is Network),
        outcome matches CallOutcome::Refused(reject) ==> (delivered(endpoint, deadline, outcome)
            matches Err(e) && match reject {
            PeerReject::NotRunning => e is Unreachable,
            PeerReject::Raft(_) => e is Remote,
            _ => e is IdentityRejected,
        }),
{
}

} // verus!
