use config_engine::network::{
    client_trace_id, to_rpc_error, wrong_variant, EngineNetwork, EntryTrace, RpcReaction,
};
use config_engine::testing::{reject_to_transport_error, CallOutcome, InProcTransport};
use config_engine::time::Duration;
use config_engine::transport::{
    PeerReject, PeerRequest, PeerResponse, PeerSchemas, SchemaTriple, TransportError,
};
use config_engine::types::{ClusterId, ClusterIdentity, NodeId, RecoveryEpoch};
use config_engine::NetFault;

fn network() -> EngineNetwork {
    EngineNetwork {
        identity: ClusterIdentity {
            cluster_id: ClusterId::from_bytes([1u8; 16]),
            recovery_epoch: RecoveryEpoch(0),
            node_id: NodeId(1),
        },
        target: NodeId(2),
        endpoint: "inproc://2".to_string(),
        schema: SchemaTriple::current(),
    }
}

#[test]
fn an_answer_without_a_schema_field_is_recorded_as_schema_1() {
    let mut seen = PeerSchemas::default();
    let net = network();
    assert_eq!(seen.observed(NodeId(2)), None, "nothing is known before the first answer");

    // A peer that answers every call and never names a schema.
    let answer = net.call(&mut seen, Ok(("granted", None)));
    assert_eq!(answer, Ok("granted"));

    assert_eq!(
        seen.observed(NodeId(2)),
        Some(SchemaTriple::compat_1()),
        "an answer always records something, so absence can mean only `no answer`"
    );
}

#[test]
fn a_failed_call_records_nothing() {
    let mut seen = PeerSchemas::default();
    let net = network();
    let answer: Result<u8, TransportError> =
        net.call(&mut seen, Err(TransportError::Network("gone".to_string())));
    assert_eq!(answer, Err(TransportError::Network("gone".to_string())));
    assert_eq!(seen.observed(NodeId(2)), None);
    assert_eq!(seen.get(NodeId(2)), SchemaTriple::compat_1());

    assert_eq!(net.call(&mut seen, Ok((1u8, Some(SchemaTriple::current())))), Ok(1));
    assert_eq!(seen.get(NodeId(2)), SchemaTriple::current());
    // A failure later on leaves the last known value.
    let _ = net.call::<u8>(&mut seen, Err(TransportError::Network("gone".to_string())));
    assert_eq!(seen.observed(NodeId(2)), Some(SchemaTriple::current()));
}

#[test]
fn envelopes_carry_the_identity() {
    let meta = network().meta("t-1".to_string());
    assert_eq!(meta.cluster_id, ClusterId::from_bytes([1u8; 16]));
    assert_eq!(meta.recovery_epoch, RecoveryEpoch(0));
    assert_eq!(meta.from, NodeId(1));
    assert_eq!(meta.to, NodeId(2));
    assert_eq!(meta.trace_id, "t-1");
}

#[test]
fn a_batch_has_a_trace_only_without_doubt() {
    let known = |s: &str| EntryTrace::Known(s.to_string());
    assert_eq!(client_trace_id(&vec![]), None);
    assert_eq!(client_trace_id(&vec![EntryTrace::NotACommand]), None);
    assert_eq!(
        client_trace_id(&vec![known("a"), EntryTrace::NotACommand, known("a")]),
        Some("a".to_string())
    );
    assert_eq!(client_trace_id(&vec![known("a"), known("b")]), None);
    assert_eq!(client_trace_id(&vec![known("a"), EntryTrace::Unknown]), None);
}

#[test]
fn reactions_follow_the_failure() {
    let t = |s: &str| s.to_string();
    assert_eq!(to_rpc_error(&TransportError::Unreachable(t("x"))), RpcReaction::Unreachable);
    assert_eq!(to_rpc_error(&TransportError::IdentityRejected(t("x"))), RpcReaction::Unreachable);
    assert_eq!(to_rpc_error(&TransportError::Network(t("x"))), RpcReaction::Network);
    assert_eq!(to_rpc_error(&TransportError::Remote(t("x"))), RpcReaction::Remote);
}

#[test]
fn an_answer_of_the_wrong_kind_is_a_network_error() {
    let net = network();
    let answer: PeerResponse<u8, u16, u32> = PeerResponse::Vote(3);
    assert_eq!(
        net.append_entries(answer),
        Err(TransportError::Network(
            "peer 2 answered a append_entries call with a vote response".to_string()
        ))
    );
    let answer: PeerResponse<u8, u16, u32> = PeerResponse::Vote(3);
    assert_eq!(net.vote(answer), Ok(3));
    let answer: PeerResponse<u8, u16, u32> = PeerResponse::InstallSnapshot(9);
    assert_eq!(net.install_snapshot(answer), Ok(9));
    assert_eq!(
        wrong_variant(NodeId(7), "vote", "append_entries").describe(),
        "network error: peer 7 answered a vote call with a append_entries response"
    );
    let request: PeerRequest<u8, u16, u32> = PeerRequest::InstallSnapshot(1);
    assert_eq!(request.kind(), "install_snapshot");
}

#[test]
fn endpoints_are_built_from_the_node() {
    assert_eq!(InProcTransport::<u8>::endpoint(NodeId(12)), "inproc://12");
}

#[test]
fn routes_are_registered_and_removed() {
    let mut t = InProcTransport::new(NetFault::new());
    t.register(NodeId(1), "one");
    t.register(NodeId(2), "two");
    assert_eq!(t.route("inproc://1"), Some(&"one"));
    assert!(t.send_begin(NodeId(1), NodeId(2), "inproc://2").is_ok());
    t.deregister(NodeId(2));
    assert_eq!(t.route("inproc://2"), None);
    assert_eq!(
        t.send_begin(NodeId(1), NodeId(2), "inproc://2"),
        Err(TransportError::Unreachable(
            "no in-process node registered at inproc://2".to_string()
        ))
    );
}

#[test]
fn in_process_calls_obey_the_deadline_and_the_faults() {
    let mut t = InProcTransport::new(NetFault::new());
    t.register(NodeId(2), "two");
    let late = t.send_finish::<u8>(
        NodeId(1),
        NodeId(2),
        "inproc://2",
        Duration::from_millis(1500),
        CallOutcome::TimedOut,
    );
    assert_eq!(
        late,
        Err(TransportError::Network("in-process call to inproc://2 exceeded 1.5s".to_string()))
    );
    assert_eq!(
        t.send_finish(NodeId(1), NodeId(2), "inproc://2", Duration::from_secs(1), CallOutcome::Answered(4u8)),
        Ok(4)
    );
    t.faults.drop_response(NodeId(1), NodeId(2));
    assert_eq!(
        t.send_finish(NodeId(1), NodeId(2), "inproc://2", Duration::from_secs(1), CallOutcome::Answered(4u8)),
        Err(TransportError::Network("netfault: response 2 -> 1 dropped".to_string()))
    );
    t.faults.block(NodeId(1), NodeId(2));
    assert_eq!(
        t.send_begin(NodeId(1), NodeId(2), "inproc://2"),
        Err(TransportError::Unreachable("netfault: 1 -> 2 blocked".to_string()))
    );
}

#[test]
fn refusals_are_classified_for_the_sender() {
    assert_eq!(
        reject_to_transport_error(&PeerReject::NotRunning),
        TransportError::Unreachable("node not running".to_string())
    );
    assert_eq!(
        reject_to_transport_error(&PeerReject::Raft("busy".to_string())),
        TransportError::Remote("raft error: busy".to_string())
    );
    assert_eq!(
        reject_to_transport_error(&PeerReject::Retired { node_id: NodeId(4) }),
        TransportError::IdentityRejected("node 4 is retired: identity_retired".to_string())
    );
    assert_eq!(
        PeerReject::WrongCluster {
            expected: ClusterId::from_bytes([0xab; 16]),
            got: ClusterId::from_bytes([1; 16]),
        }
        .describe(),
        "wrong cluster: expected abababababababababababababababab got \
         01010101010101010101010101010101"
    );
    assert_eq!(
        PeerReject::WrongEpoch { expected: RecoveryEpoch(2), got: RecoveryEpoch(1) }.describe(),
        "wrong recovery epoch: expected 2 got 1"
    );
    assert_eq!(
        PeerReject::WrongDestination { expected: NodeId(1), got: NodeId(3) }.describe(),
        "wrong destination: this is node 1, envelope addressed to 3"
    );
    assert_eq!(
        PeerReject::IdentityMismatch("cn".to_string()).describe(),
        "transport identity mismatch: cn"
    );
    assert_eq!(
        TransportError::IdentityRejected("x".to_string()).describe(),
        "identity rejected by peer: x"
    );
}
