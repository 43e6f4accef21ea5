use config_engine::pagination::{FirstPage, PageToken, PaginationConfig, Paginator, PinTable};
use config_engine::time::Duration;
use config_engine::types::{
    ConfigError, ListRequest, ListResponse, NodeId, PageTokenExpiredReason, Pagination, Record,
};

const PREFIX: [u8; 32] = [1; 32];
const WHO: [u8; 32] = [2; 32];

fn paginator(max_pinned: u32) -> Paginator {
    let mut cfg = PaginationConfig::new([9; 32]);
    cfg.max_pinned = max_pinned;
    Paginator::new(NodeId(1), cfg, 1_000)
}

fn record(key: u8, cost: u64) -> Record {
    Record { key: vec![key], value: vec![], cost }
}

fn request(max_items: u32, max_bytes: u64) -> ListRequest {
    ListRequest { prefix: vec![], max_items, max_bytes }
}

fn token(revision: u64) -> PageToken {
    PageToken {
        token_version: 1,
        prefix_hash: PREFIX,
        principal_hash: WHO,
        revision,
        last_key: vec![5],
        policy_version: None,
        issued_ms: 2_000,
        node_id: NodeId(1),
    }
}

fn expired(reason: PageTokenExpiredReason) -> ConfigError {
    ConfigError::PageTokenExpired { reason }
}

#[test]
fn defaults_are_bounded() {
    let c = PaginationConfig::new([3; 32]);
    assert_eq!((c.max_pinned, c.ttl, c.token_key), (64, Duration::from_secs(60), [3; 32]));
    assert_eq!(
        paginator(5).capability(),
        Pagination::RevisionPinned { max_pinned: 5, ttl_ms: 60_000 }
    );
}

#[test]
fn a_configuration_is_shown_without_its_key() {
    let mut c = PaginationConfig::new([0xcd; 32]);
    c.max_pinned = 7;
    c.ttl = Duration::from_millis(1_500);
    assert_eq!(
        c.describe("0123abcd"),
        "PaginationConfig { max_pinned: 7, ttl: 1.5s, token_key: \"0123abcd\" }"
    );
}

#[test]
fn a_pin_answers_until_its_time_however_often_it_is_asked() {
    let mut t = PinTable::new(4, Duration::from_millis(100));
    let a = t.pin_current(1, Ok(Some(1)), Some(3), 50).unwrap();
    for now in [50, 90, 149, 120] {
        assert_eq!(t.lookup(1, Some(3), now), Some(a), "at {now}");
        assert_eq!(t.lookup(1, None, now), None, "another policy version");
    }
    // Using the pin again, also to pin the same state, does not extend its time.
    assert_eq!(t.pin_current(1, Err("not asked".to_string()), Some(3), 149), Ok(a));
    assert_eq!((t.stats().hits, t.stats().expiries), (4, 0));
    assert_eq!(t.lookup(1, Some(3), 150), None);
    assert_eq!(t.lookup(1, Some(3), 151), None);
    let s = t.stats();
    assert_eq!((s.hits, s.expiries, s.len), (4, 1, 0));
    assert_eq!(t.take_released(), vec![a.slot]);
}

#[test]
fn a_snapshot_of_a_pinned_revision_shares_its_pin() {
    let mut t = PinTable::new(1, Duration::from_secs(60));
    let a = t.pin_current(5, Ok(Some(6)), None, 0).unwrap();
    assert_eq!(a.revision, 6, "the snapshot's own revision decides");
    assert_eq!(t.pin_current(5, Ok(Some(6)), None, 1), Ok(a));
    let s = t.stats();
    assert_eq!((s.len, s.evictions, s.hits), (1, 0, 0));
    let b = t.pin_current(7, Ok(Some(7)), None, 2).unwrap();
    assert_eq!((t.stats().len, t.stats().evictions), (1, 1));
    assert_eq!(t.take_released(), vec![a.slot]);
    assert_eq!(t.lookup(7, None, 3), Some(b));
}

#[test]
fn a_continuation_confirms_leadership_before_it_reads() {
    let mut p = paginator(4);
    let _ = p.pins.pin_current(7, Ok(Some(7)), None, 2_000).unwrap();
    let mut wanted = request(3, 1_000);
    wanted.prefix = b"cfg/".to_vec();
    let barrier = p.barrier(&wanted);
    assert_eq!((barrier.prefix, barrier.max_items, barrier.max_bytes), (b"cfg/".to_vec(), 1, 0));
    let (token, view) = p.next_page(Ok(token(7)), &PREFIX, &WHO, 2_500).unwrap();
    let refused = Err(ConfigError::NotLeader { hint: None });
    assert_eq!(
        p.confirmed(refused, token.clone(), view),
        Err(ConfigError::NotLeader { hint: None })
    );
    let answered = Ok(ListResponse { records: vec![], read_revision: 9, truncated: true });
    assert_eq!(p.confirmed(answered, token.clone(), view), Ok((token, view)));
}

#[test]
fn a_walk_reads_one_revision_and_everything_once() {
    let mut p = paginator(4);
    let all: Vec<u8> = (0..10).collect();
    let req = request(3, 1_000);
    let first = ListResponse { records: vec![], read_revision: 7, truncated: true };
    assert!(matches!(p.first_page(first), FirstPage::NeedsPin));
    let view = p.pins.pin_current(7, Ok(Some(7)), p.policy_version(), 2_000).unwrap();
    assert_eq!(p.scan_limit(&req), 4);
    let mut seen: Vec<u8> = vec![];
    let mut next: usize = 0;
    let mut current = view;
    for _ in 0..10 {
        let scanned = all[next..].iter().take(4).map(|k| record(*k, 1)).collect();
        let page = p.page_from(current, &req, Ok(scanned), PREFIX, WHO, 2_000).unwrap();
        assert_eq!(page.revision, 7);
        next += page.items.len();
        seen.extend(page.items.iter().map(|r| r.key[0]));
        match page.next_page_token {
            None => break,
            Some(t) => {
                assert_eq!(t.last_key, vec![*seen.last().unwrap()]);
                let (_, v) = p.next_page(Ok(t), &PREFIX, &WHO, 2_500).unwrap();
                current = v;
            }
        }
    }
    assert_eq!(seen, all);
    assert_eq!(p.pins.stats().hits, 3);
}

#[test]
fn a_list_that_fits_needs_no_pin() {
    let p = paginator(4);
    let first = ListResponse { records: vec![record(1, 1)], read_revision: 3, truncated: false };
    match p.first_page(first) {
        FirstPage::Whole(page) => {
            assert_eq!((page.items.len(), page.revision, page.truncated), (1, 3, false));
            assert!(page.next_page_token.is_none());
        }
        FirstPage::NeedsPin => panic!("the list fits"),
    }
}

#[test]
fn pages_keep_to_their_byte_cap_but_always_move() {
    let p = paginator(4);
    let view = PinTable::new(4, Duration::from_secs(60))
        .pin_current(7, Ok(Some(7)), None, 0)
        .unwrap();
    let page = p
        .page_from(
            view,
            &request(10, 10),
            Ok(vec![record(1, 6), record(2, 4), record(3, 1)]),
            PREFIX,
            WHO,
            5,
        )
        .unwrap();
    assert_eq!(page.items.len(), 2);
    assert!(page.truncated);
    let page = p
        .page_from(view, &request(10, 10), Ok(vec![record(1, 99), record(2, 1)]), PREFIX, WHO, 5)
        .unwrap();
    assert_eq!(page.items.len(), 1, "a record over the cap still comes");
    assert_eq!(
        p.page_from(view, &request(1, 1), Err("io".to_string()), PREFIX, WHO, 5),
        Err(ConfigError::FatalStorage { detail: "io".to_string() })
    );
}

#[test]
fn tokens_are_bound() {
    let mut p = paginator(4);
    assert!(p.open(Ok(token(7)), &PREFIX, &WHO).is_ok());
    assert_eq!(
        p.open(Err(PageTokenExpiredReason::Invalid), &PREFIX, &WHO),
        Err(expired(PageTokenExpiredReason::Invalid))
    );
    assert_eq!(
        p.open(Ok(token(7)), &[8; 32], &WHO),
        Err(ConfigError::InvalidArgument { detail: "prefix_mismatch".to_string() })
    );
    assert_eq!(
        p.open(Ok(token(7)), &PREFIX, &[8; 32]),
        Err(ConfigError::InvalidArgument { detail: "token_principal".to_string() })
    );
    let mut other = token(7);
    other.node_id = NodeId(2);
    assert_eq!(p.open(Ok(other), &PREFIX, &WHO), Err(expired(PageTokenExpiredReason::Node)));
    p.bind_policy_version(3);
    assert_eq!(p.policy_version(), Some(3));
    assert_eq!(
        p.open(Ok(token(7)), &PREFIX, &WHO),
        Err(expired(PageTokenExpiredReason::PolicyVersion))
    );
    let misses = p.pins.stats().misses_by_reason;
    let count = |name: &str| misses.iter().find(|m| m.0 == name).unwrap().1;
    assert_eq!((count("invalid"), count("node"), count("policy_version")), (1, 1, 1));
    assert_eq!((count("expired"), count("evicted")), (0, 0));
}

#[test]
fn pins_expire_from_the_moment_they_were_made() {
    let mut p = paginator(4);
    let _ = p.pins.pin_current(7, Ok(Some(7)), None, 2_000).unwrap();
    assert!(p.next_page(Ok(token(7)), &PREFIX, &WHO, 61_000).is_ok());
    assert_eq!(
        p.next_page(Ok(token(7)), &PREFIX, &WHO, 62_001),
        Err(expired(PageTokenExpiredReason::Expired))
    );
    assert_eq!(p.pins.stats().expiries, 1);
    assert_eq!(p.pins.take_released().len(), 1);
    assert!(p.pins.take_released().is_empty());
}

#[test]
fn full_tables_evict_the_least_recently_used() {
    let mut t = PinTable::new(2, Duration::from_secs(60));
    let a = t.pin_current(1, Ok(Some(1)), None, 0).unwrap();
    let b = t.pin_current(2, Ok(Some(2)), None, 0).unwrap();
    assert_eq!(t.lookup(1, None, 1), Some(a));
    let _ = t.pin_current(3, Ok(Some(3)), None, 2).unwrap();
    assert_eq!(t.take_released(), vec![b.slot]);
    assert_eq!(t.lookup(2, None, 3), None);
    assert_eq!(t.lookup(1, None, 3), Some(a));
    assert_eq!(t.lookup(1, Some(1), 3), None, "another policy is another pin");
    let s = t.stats();
    assert_eq!((s.len, s.capacity, s.evictions), (2, 2, 1));
    // Asking again shares the pin.
    assert_eq!(t.pin_current(1, Err("not asked".to_string()), None, 3), Ok(a));
    assert_eq!(PinTable::new(0, Duration::from_secs(1)).stats().capacity, 1);
}

#[test]
fn an_evicted_pin_is_told_apart_from_an_old_token() {
    let mut p = paginator(4);
    // Issued by this node, since it started, and in time: the pin was dropped.
    assert_eq!(
        p.next_page(Ok(token(7)), &PREFIX, &WHO, 3_000),
        Err(expired(PageTokenExpiredReason::Evicted))
    );
    // Issued before this node started.
    let mut old = token(7);
    old.issued_ms = 999;
    assert_eq!(
        p.next_page(Ok(old), &PREFIX, &WHO, 3_000),
        Err(expired(PageTokenExpiredReason::Node))
    );
}

#[test]
fn a_new_paginator_has_counted_nothing() {
    let p = paginator(5);
    assert_eq!(p.pins.ticks(), 0);
    let s = p.pins.stats();
    assert_eq!((s.len, s.capacity, s.evictions, s.expiries, s.hits), (0, 5, 0, 0, 0));
    assert_eq!(s.misses_by_reason.len(), 5);
    assert!(s.misses_by_reason.iter().all(|(_, n)| *n == 0));
}

#[test]
fn only_a_continuation_that_looks_for_its_pin_counts_as_a_use() {
    let mut p = paginator(4);
    // The token is older than a pin can be: its pin is not looked for.
    assert_eq!(
        p.next_page(Ok(token(7)), &PREFIX, &WHO, 62_000),
        Err(expired(PageTokenExpiredReason::Expired))
    );
    assert_eq!(p.pins.ticks(), 0);
    // The token is young enough, but its pin is gone.
    assert_eq!(
        p.next_page(Ok(token(7)), &PREFIX, &WHO, 3_000),
        Err(expired(PageTokenExpiredReason::Evicted))
    );
    assert_eq!(p.pins.ticks(), 1);
}

#[test]
fn a_pin_outlives_the_pins_that_are_made_after_it() {
    let mut t = PinTable::new(2, Duration::from_millis(100));
    let view = t.pin_current(7, Ok(Some(7)), None, 1_000).unwrap();
    assert!(t.pin_current(8, Ok(Some(8)), None, 1_010).is_ok());
    assert_eq!(t.lookup(7, None, 1_020), Some(view));
    // The table is full: the pin that was used least recently makes room.
    assert!(t.pin_current(9, Ok(Some(9)), None, 1_030).is_ok());
    assert_eq!(t.lookup(8, None, 1_040), None);
    assert_eq!(t.lookup(7, Some(3), 1_099), None);
    assert_eq!(t.lookup(7, None, 1_099), Some(view));
    assert_eq!(t.lookup(7, None, 1_100), None);
    let s = t.stats();
    assert_eq!((s.len, s.evictions, s.expiries, s.hits), (1, 1, 1, 2));
}

#[test]
fn stores_that_cannot_pin_say_so() {
    let mut t = PinTable::new(2, Duration::from_secs(60));
    assert_eq!(
        t.pin_current(1, Ok(None), None, 0),
        Err(ConfigError::Unavailable { reason: "feature_not_activated".to_string() })
    );
    assert_eq!(
        t.pin_current(1, Err("io".to_string()), None, 0),
        Err(ConfigError::FatalStorage { detail: "io".to_string() })
    );
}
