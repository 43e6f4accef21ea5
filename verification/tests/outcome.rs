use config_engine::metrics::MembershipView;
use config_engine::node::outcome::{
    barrier_result, compaction_result, hint_for, key_hex, mutation_result, noop_for_command_entry,
    not_leader, read_fatal_to_config_error, read_result, write_fatal_to_config_error, Barrier,
    CommandResponse, Fatal, OutcomeLine, WriteOutcome,
};
use config_engine::types::{ConfigError, LeaderHint, NodeId, StatusClass};

fn membership() -> MembershipView {
    let mut m = MembershipView::default();
    m.voters.insert(1);
    m.voters.insert(2);
    m.endpoints.insert(2, "peer-2".to_string());
    m.client_endpoints.insert(2, "client-2".to_string());
    m
}

#[test]
fn a_noop_for_a_command_entry_is_never_resubmittable() {
    let error = noop_for_command_entry();
    assert!(
        !error.is_safe_to_resubmit(),
        "the entry is applied; resubmitting would apply it twice: {error:?}"
    );
    assert_eq!(
        error.kind(),
        StatusClass::Internal,
        "a broken state-machine contract is an internal failure, not a retryable one"
    );
}

#[test]
fn a_fatal_on_the_write_path_is_never_resubmittable() {
    for (write, read) in [(Fatal::Stopped, Fatal::Stopped), (Fatal::Panicked, Fatal::Panicked)] {
        let error = write_fatal_to_config_error(write);
        assert!(
            !error.is_safe_to_resubmit(),
            "{read:?} arrives after the proposal was enqueued; replaying could apply it twice: \
             {error:?}"
        );
        assert_eq!(
            error.kind(),
            StatusClass::DeadlineExceeded,
            "the outcome is unknown, so the caller must read back and CAS"
        );
        // The same failure on a read is retryable: the barrier submits nothing.
        assert!(
            read_fatal_to_config_error(read).is_safe_to_resubmit(),
            "a read has no outcome to be uncertain about"
        );
    }
}

#[test]
fn the_core_names_its_own_failures() {
    assert_eq!(Fatal::Stopped.describe(), "raft stopped");
    assert_eq!(Fatal::Panicked.describe(), "panicked");
    assert_eq!(Fatal::StorageError("disk".to_string()).describe(), "disk");
    assert_eq!(
        read_fatal_to_config_error(Fatal::Stopped),
        ConfigError::Unavailable { reason: "raft stopped".to_string() }
    );
    assert_eq!(
        read_fatal_to_config_error(Fatal::StorageError("disk".to_string())),
        ConfigError::FatalStorage { detail: "disk".to_string() }
    );
    assert_eq!(
        write_fatal_to_config_error(Fatal::StorageError("disk".to_string())),
        ConfigError::FatalStorage { detail: "disk".to_string() }
    );
}

#[test]
fn hints_name_the_client_endpoint() {
    let m = membership();
    assert_eq!(
        hint_for(&m, NodeId(2)),
        Some(LeaderHint { node_id: NodeId(2), endpoint: "client-2".to_string() })
    );
    assert_eq!(hint_for(&m, NodeId(1)), None);
    assert_eq!(
        not_leader(&m, Some(NodeId(2))).describe(),
        "not leader (try node 2 at client-2)"
    );
    assert_eq!(
        not_leader(&m, None),
        ConfigError::Unavailable { reason: "leader unknown".to_string() }
    );
}

#[test]
fn mutations_are_answered_by_what_became_of_them() {
    let m = membership();
    let applied = |r| mutation_result::<u64>(WriteOutcome::Applied(r), &m);
    assert_eq!(applied(CommandResponse::Mutation(5)), Ok(5));
    assert_eq!(
        applied(CommandResponse::Rejected { reason: "too big".to_string() }),
        Err(ConfigError::InvalidArgument { detail: "too big".to_string() })
    );
    assert_eq!(applied(CommandResponse::Noop), Err(noop_for_command_entry()));
    let maintenance = applied(CommandResponse::Compacted { compact_revision: 3 }).unwrap_err();
    assert_eq!(maintenance.kind(), StatusClass::Internal);
    assert!(!maintenance.is_safe_to_resubmit());
    assert_eq!(applied(CommandResponse::Retired { node_id: NodeId(3) }), Err(maintenance));
    assert_eq!(
        mutation_result::<u64>(WriteOutcome::TimedOut, &m),
        Err(ConfigError::DeadlineExceededUnknownOutcome)
    );
    assert_eq!(
        mutation_result::<u64>(WriteOutcome::ForwardToLeader { leader: Some(NodeId(2)) }, &m),
        Err(not_leader(&m, Some(NodeId(2))))
    );
    assert_eq!(
        mutation_result::<u64>(
            WriteOutcome::ChangeMembership { detail: "in progress".to_string() },
            &m
        ),
        Err(ConfigError::Unavailable { reason: "in progress".to_string() })
    );
    assert_eq!(
        mutation_result::<u64>(WriteOutcome::Fatal(Fatal::Stopped), &m),
        Err(ConfigError::DeadlineExceededUnknownOutcome)
    );
}

#[test]
fn compactions_report_their_watermark() {
    let m = membership();
    assert_eq!(
        compaction_result::<u64>(
            WriteOutcome::Applied(CommandResponse::Compacted { compact_revision: 9 }),
            &m
        ),
        Ok(9)
    );
    assert_eq!(
        compaction_result::<u64>(WriteOutcome::Applied(CommandResponse::Mutation(1)), &m),
        Err(noop_for_command_entry())
    );
}

#[test]
fn no_barrier_no_read() {
    let m = membership();
    assert_eq!(read_result(Barrier::Reached, &m, Some(4)), Ok(4));
    assert_eq!(
        read_result::<u8>(Barrier::Reached, &m, None),
        Err(ConfigError::Unavailable {
            reason: "state reader did not yield applied state".to_string()
        })
    );
    assert_eq!(
        read_result(Barrier::TimedOut, &m, Some(4)),
        Err(ConfigError::Unavailable {
            reason: "read deadline exceeded before the linearizable barrier".to_string()
        })
    );
    assert_eq!(
        barrier_result(Barrier::QuorumNotEnough { detail: "1 of 3".to_string() }, &m),
        Err(ConfigError::Unavailable {
            reason: "quorum not reached for a linearizable read: 1 of 3".to_string()
        })
    );
    assert_eq!(
        barrier_result(Barrier::ForwardToLeader { leader: None }, &m),
        Err(ConfigError::Unavailable { reason: "leader unknown".to_string() })
    );
    assert_eq!(
        barrier_result(Barrier::Fatal(Fatal::Panicked), &m),
        Err(ConfigError::Unavailable { reason: "panicked".to_string() })
    );
}

#[test]
fn keys_are_rendered_shortened() {
    assert_eq!(key_hex(&[0x00, 0x0f, 0xff]), "000fff");
    assert_eq!(key_hex(&[]), "");
    let long = [0x61u8; 40];
    assert_eq!(key_hex(&long), "61".repeat(32));
}

#[test]
fn outcome_lines_tell_reads_and_writes_apart() {
    assert_eq!(OutcomeLine::write("put").msg, "client_write");
    assert_eq!(OutcomeLine::write("put").op, "put");
    assert_eq!(OutcomeLine::read("get").msg, "client_read");
}
