use config_engine::netfault::NetFault;
use config_engine::time::Duration;
use config_engine::transport::TransportError;
use config_engine::types::NodeId;

fn n(i: u64) -> NodeId {
    NodeId(i)
}

#[test]
fn block_refuses_new_calls_and_cancels_in_flight() {
    let mut nf = NetFault::new();
    nf.block(n(1), n(2));
    let r = nf.guard(n(1), n(2), Ok::<u8, TransportError>(1u8));
    assert!(matches!(r, Err(TransportError::Unreachable(_))));
    // unaffected direction
    assert_eq!(nf.guard(n(2), n(1), Ok::<u8, TransportError>(2u8)).unwrap(), 2);

    nf.unblock_all();
    // The call is let in, and never completes before the block.
    assert!(nf.begin(n(1), n(3)).is_ok());
    assert!(nf.check_in_flight(n(1), n(3)).is_ok());
    nf.block_pair(n(1), n(3));
    let r = nf.check_in_flight(n(1), n(3));
    assert!(matches!(r, Err(TransportError::Unreachable(_))), "{r:?}");
    assert_eq!(
        r,
        Err(TransportError::Unreachable("netfault: 1 -> 3 blocked while in flight".to_string()))
    );
}

#[test]
fn drop_response_turns_success_into_network_error() {
    let mut nf = NetFault::new();
    nf.drop_response(n(1), n(2));
    let r = nf.guard(n(1), n(2), Ok::<u8, TransportError>(1u8));
    assert!(matches!(r, Err(TransportError::Network(_))));
    nf.undrop_response(n(1), n(2));
    assert!(nf.guard(n(1), n(2), Ok::<u8, TransportError>(1u8)).is_ok());
}

#[test]
fn isolate_blocks_both_directions_with_all_peers() {
    let mut nf = NetFault::new();
    nf.isolate(n(2), &[n(1), n(2), n(3)]);
    assert!(nf.is_blocked(n(2), n(1)) && nf.is_blocked(n(1), n(2)));
    assert!(nf.is_blocked(n(2), n(3)) && nf.is_blocked(n(3), n(2)));
    assert!(!nf.is_blocked(n(1), n(3)));
    nf.unblock_all();
    assert!(!nf.is_blocked(n(2), n(1)));
}

#[test]
fn a_fresh_switchboard_is_transparent() {
    let nf = NetFault::new();
    assert_eq!(nf.guard(n(1), n(2), Ok::<u8, TransportError>(7)), Ok(7));
    assert_eq!(nf.begin(n(1), n(2)), Ok(None));
    assert_eq!(nf.delay_for(n(1), n(2)), None);
    assert!(!nf.drops_response(n(1), n(2)));
}

#[test]
fn refusals_name_both_ends() {
    let mut nf = NetFault::new();
    nf.block(n(1), n(2));
    assert_eq!(
        nf.begin(n(1), n(2)),
        Err(TransportError::Unreachable("netfault: 1 -> 2 blocked".to_string()))
    );
    nf.unblock(n(1), n(2));
    nf.drop_response(n(1), n(2));
    assert_eq!(
        nf.settle(n(1), n(2), Ok::<u8, TransportError>(1)),
        Err(TransportError::Network("netfault: response 2 -> 1 dropped".to_string()))
    );
    // A failure is passed on as it is.
    assert_eq!(
        nf.settle(n(1), n(2), Err::<u8, TransportError>(TransportError::Remote("x".to_string()))),
        Err(TransportError::Remote("x".to_string()))
    );
}

#[test]
fn delays_are_one_way_and_a_heal_clears_them() {
    let mut nf = NetFault::new();
    nf.delay(n(1), n(2), Duration::from_millis(30));
    assert_eq!(nf.begin(n(1), n(2)), Ok(Some(Duration::from_millis(30))));
    assert_eq!(nf.begin(n(2), n(1)), Ok(None));
    nf.delay(n(1), n(2), Duration::from_millis(5));
    assert_eq!(nf.delay_for(n(1), n(2)), Some(Duration::from_millis(5)));
    nf.unblock_all();
    assert_eq!(nf.delay_for(n(1), n(2)), None);
}

#[test]
fn a_second_block_adds_nothing() {
    let mut nf = NetFault::new();
    nf.block(n(1), n(2));
    nf.block(n(1), n(2));
    nf.unblock(n(1), n(2));
    assert!(!nf.is_blocked(n(1), n(2)));
    assert_eq!(nf.begin(n(1), n(2)), Ok(None));
}
