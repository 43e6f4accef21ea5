use config_engine::counters::Counters;
use config_engine::delivery::{
    event_cost, release_bytes, Delivery, HubState, LiveAction, LiveEvent, PolicyNow, SendOutcome,
    Terminal, REPLAY_PAGE,
};
use config_engine::time::Duration;
use config_engine::types::{
    ConfigError, LeaderHint, MutationEvent, MutationEventKind, NodeId, Principal, WatchItem,
    WatchLimits,
};
use config_engine::watch::testing::{HookSlot, Hooks};
use config_engine::watch::{
    prefix_hex, GateHook, JournalGate, Registration, StreamId, TerminationReason, TrackedWatch,
    WatchHub,
};

fn limits() -> WatchLimits {
    WatchLimits {
        max_streams_per_node: 3,
        max_streams_per_principal: 2,
        queue_events: 4,
        queue_bytes: 60,
        live_buffer_batches: 8,
    }
}

fn serving() -> WatchHub {
    let mut h = WatchHub::new(limits());
    h.attach(0);
    let _ = h.note_leader();
    h
}

fn who(name: &str) -> Principal {
    Principal { name: name.to_string() }
}

fn put(revision: u64, key: &[u8], value: &[u8]) -> MutationEvent {
    MutationEvent {
        revision,
        key: key.to_vec(),
        kind: MutationEventKind::Put { value: value.to_vec() },
    }
}

fn quiet() -> PolicyNow {
    PolicyNow { epoch: 0, touches_prefix: false }
}

#[test]
fn only_an_attached_leader_opens_streams() {
    let mut h = WatchHub::new(limits());
    assert_eq!(
        h.open_begin(&who("a")),
        Err(ConfigError::Unavailable {
            reason: "this node's watch hub has no store attached".to_string()
        })
    );
    h.attach(0);
    assert_eq!(h.open_begin(&who("a")), Err(ConfigError::NotLeader { hint: None }));
    let hint = Some(LeaderHint { node_id: NodeId(2), endpoint: "c".to_string() });
    assert!(h.note_not_leader(hint.clone()));
    assert!(!h.note_not_leader(hint.clone()), "the same again is no news");
    assert_eq!(h.open_begin(&who("a")), Err(ConfigError::NotLeader { hint }));
    assert!(h.note_leader());
    assert!(!h.note_leader());
    assert_eq!(h.open_begin(&who("a")), Ok(()));
    h.shutdown();
    assert!(!h.note_not_leader(None), "a stopped hub stays stopped");
    assert_eq!(
        h.hub_error(),
        Some(ConfigError::Unavailable { reason: "stopped".to_string() })
    );
}

#[test]
fn a_second_attachment_is_ignored() {
    let mut h = WatchHub::new(limits());
    h.attach(4);
    assert!(h.attached);
    assert_eq!(h.compact_revision, 4);
    h.attach(9);
    assert!(h.attached);
    assert_eq!(h.compact_revision, 4);
}

#[test]
fn opening_at_once_counts_each_outcome() {
    let mut h = serving();
    h.on_applied(Some(5));
    let ttl = Duration::from_secs(1);
    let first = h.open(&who("a"), vec![], 6, ttl, 8).unwrap();
    assert_eq!(first.id, StreamId(1));
    assert_eq!((h.next_stream_id, h.counters.started), (2, 1));
    assert_eq!(
        h.open(&who("a"), vec![], 5, ttl, 8).err(),
        Some(ConfigError::RevisionCompacted { minimum_available_revision: 6 })
    );
    assert!(h.open(&who("a"), vec![], 9, ttl, 8).is_err());
    let s = h.stats();
    assert_eq!((s.started, s.streams_open), (3, 1));
    assert_eq!(s.terminated_by_reason, vec![(TerminationReason::RevisionCompacted, 1)]);
    assert_eq!(h.next_stream_id, 2);
    let by_principal: usize = s.streams_open_by_principal.iter().map(|(_, n)| n).sum();
    assert_eq!(by_principal, s.streams_open);
}

#[test]
fn streams_are_capped_by_node_and_by_principal() {
    let mut h = serving();
    assert!(h.open_begin(&who("a")).is_ok());
    assert!(h.open_begin(&who("a")).is_ok());
    assert_eq!(
        h.open_begin(&who("a")),
        Err(ConfigError::ResourceExhausted {
            detail: "principal already holds 2 watch streams (max_streams_per_principal)"
                .to_string(),
            resumable: false,
        })
    );
    assert!(h.open_begin(&who("b")).is_ok());
    assert_eq!(
        h.open_begin(&who("c")),
        Err(ConfigError::ResourceExhausted {
            detail: "this node already serves 3 watch streams (max_streams_per_node)".to_string(),
            resumable: false,
        })
    );
    let s = h.stats();
    assert_eq!(s.streams_open, 3);
    assert_eq!(
        s.streams_open_by_principal,
        vec![("a".to_string(), 2), ("b".to_string(), 1)]
    );
    assert_eq!(s.started, 3);
    assert_eq!(s.terminated_by_reason, vec![(TerminationReason::AdmissionDenied, 2)]);
    assert_eq!(s.publish_would_block, 0);
}

#[test]
fn cursors_are_checked_inside_the_gate() {
    let mut h = serving();
    h.on_applied(Some(10));
    h.on_applied(Some(4));
    assert_eq!(h.compact_revision, 10, "the watermark never moves back");
    let e = h.open(&who("a"), vec![], 10, Duration::from_secs(5), 20).unwrap_err();
    assert_eq!(e, ConfigError::RevisionCompacted { minimum_available_revision: 11 });
    assert_eq!(h.stats().streams_open, 0, "the slot was given back");
    assert_eq!(
        h.stats().terminated_by_reason,
        vec![(TerminationReason::RevisionCompacted, 1)]
    );
    let e = h.open(&who("a"), vec![], 21, Duration::from_secs(5), 20).unwrap_err();
    assert_eq!(
        e,
        ConfigError::InvalidArgument {
            detail: "start_after_revision 21 is above this node's applied revision 20".to_string()
        }
    );
    // The revision that the refusal named is accepted.
    let d = h.open(&who("a"), b"k".to_vec(), 11, Duration::from_secs(5), 20).unwrap();
    assert_eq!(d.id, StreamId(1));
    assert_eq!((d.start_after, d.high_water, d.last_revision), (11, 20, 11));
    let d2 = h.open(&who("b"), vec![], 20, Duration::from_secs(5), 20).unwrap();
    assert_eq!(d2.id, StreamId(2));
    let error = h.close(&d, Terminal::silent(TerminationReason::ClientClosed));
    assert_eq!(error, None);
    assert_eq!(h.stats().streams_open, 1);
}

#[test]
fn a_zero_watermark_compacts_nothing() {
    let h = serving();
    assert_eq!(h.check_cursor(0), Ok(()));
    assert_eq!(
        h.register_locked(0, 0),
        Ok(Registration { high_water: 0, policy_epoch: 0 })
    );
}

#[test]
fn compaction_and_registration_exclude_each_other() {
    let mut g = JournalGate::new();
    assert!(g.acquire());
    assert!(!g.acquire());
    g.release();
    assert!(g.acquire());
    let mut h = serving();
    assert!(h.before_compact());
    assert!(!h.gate.acquire(), "a registration waits");
    h.after_compact();
    assert!(h.gate.acquire());
    assert!(!h.before_compact(), "a compaction waits");
}

#[test]
fn refusals_of_an_interrupted_registration() {
    assert_eq!(
        WatchHub::store_closing(),
        ConfigError::Unavailable { reason: "this node's store is closing".to_string() }
    );
    assert_eq!(
        WatchHub::registration_aborted("cancelled"),
        ConfigError::Unavailable {
            reason: "watch registration failed to run: cancelled".to_string()
        }
    );
    assert!(serving().authorized(true));
    let mut h = serving();
    h.set_authz_ready(false);
    assert!(!h.authorized(true));
}

fn stream(start_after: u64, high_water: u64) -> Delivery {
    Delivery::start(
        StreamId(1),
        "a".to_string(),
        b"k".to_vec(),
        start_after,
        high_water,
        0,
        Duration::from_secs(5),
    )
}

#[test]
fn replay_and_live_deliver_everything_once() {
    let journal: Vec<MutationEvent> =
        (1..=600u64).map(|r| put(r, if r % 3 == 0 { b"x" } else { b"k1" }, b"")).collect();
    let mut d = stream(5, 590);
    let mut counters = Counters::new();
    let mut seen: Vec<u64> = vec![];
    while let Some((after, upto)) = d.next_page() {
        let page: Vec<MutationEvent> = (1..=600u64)
            .filter(|r| *r > after && *r <= upto)
            .take(REPLAY_PAGE)
            .map(|r| put(r, if r % 3 == 0 { b"x" } else { b"k1" }, b""))
            .collect();
        assert!(d.take_page(&page, 0).is_ok());
        for e in &page {
            if d.screen(e, quiet()).unwrap() {
                assert!(d.charge(e, true, 0, &limits()).is_ok());
                let sent = d.record_sent(&mut counters, e, true, SendOutcome::Sent, 18, 3, &limits());
                assert!(sent.is_ok());
                seen.push(e.revision);
            }
        }
    }
    // The live batch overlaps what was replayed.
    for e in journal.iter().filter(|e| e.revision > 580) {
        if d.is_news(e) && d.screen(e, quiet()).unwrap() {
            let sent = d.record_sent(&mut counters, e, false, SendOutcome::Sent, 18, 3, &limits());
            assert!(sent.is_ok());
            seen.push(e.revision);
        }
    }
    d.batch_done(600);
    let expected: Vec<u64> = (6..=600).filter(|r| r % 3 != 0).collect();
    assert_eq!(seen, expected);
    assert_eq!(d.progress_watermark, 600);
    assert_eq!(counters.events_live, expected.iter().filter(|r| **r > 590).count() as u64);
    assert_eq!(counters.queue_bytes_max, 18);
    assert_eq!(counters.queue_depth_max, 1);
}

#[test]
fn a_page_that_was_compacted_away_ends_the_stream() {
    let mut d = stream(5, 20);
    let t = d.take_page(&vec![put(9, b"k", b"")], 8).unwrap_err();
    assert_eq!(t.reason, TerminationReason::RevisionCompacted);
    assert_eq!(t.error, Some(ConfigError::RevisionCompacted { minimum_available_revision: 9 }));
    assert_eq!(
        d.replay_failed("io").error,
        Some(ConfigError::FatalStorage { detail: "journal replay failed: io".to_string() })
    );
    assert_eq!(
        d.replay_aborted("join").error,
        Some(ConfigError::Unavailable { reason: "journal replay task failed: join".to_string() })
    );
}

#[test]
fn an_event_is_judged_by_policy_prefix_grant_and_budget() {
    let e = put(1, b"key", b"value");
    let mut d = stream(0, 0);
    d.prefix = b"ke".to_vec();
    assert_eq!(d.send_event(&e, quiet(), true, 36, &limits()), Ok(Some(24)));
    let reason = |r: Result<Option<u64>, Terminal>| r.unwrap_err().reason;
    assert_eq!(
        reason(d.send_event(&e, quiet(), true, 37, &limits())),
        TerminationReason::QueueBytes
    );
    assert_eq!(
        reason(d.send_event(&e, quiet(), false, 0, &limits())),
        TerminationReason::Unauthorized
    );
    let now = PolicyNow { epoch: d.policy_epoch + 1, touches_prefix: true };
    assert_eq!(reason(d.send_event(&e, now, false, 37, &limits())), TerminationReason::PolicyChanged);
    let other = put(1, b"other", b"value");
    assert_eq!(d.send_event(&other, quiet(), false, 37, &limits()), Ok(None));
}

#[test]
fn budgets_end_one_stream_alone() {
    let d = stream(0, 0);
    let e = put(1, b"key", b"value");
    assert_eq!(event_cost(&e), 3 + 5 + 16);
    assert_eq!(d.charge(&e, true, 36, &limits()), Ok(24));
    let t = d.charge(&e, true, 37, &limits()).unwrap_err();
    assert_eq!(t.reason, TerminationReason::QueueBytes);
    assert_eq!(
        t.error.unwrap().describe(),
        "resource exhausted: this watch's queue holds 37 of 60 permitted bytes and the client is \
         not draining it; resume from the last delivered revision"
    );
    let t = d.charge(&e, false, 0, &limits()).unwrap_err();
    assert_eq!(
        t.error,
        Some(ConfigError::PermissionDenied {
            detail: "principal \"a\" may no longer read a key in this watch's prefix".to_string()
        })
    );
    let mut counters = Counters::new();
    let mut d = stream(0, 0);
    let t = d
        .record_sent(&mut counters, &e, false, SendOutcome::Full, 0, 0, &limits())
        .unwrap_err();
    assert_eq!(t.reason, TerminationReason::QueueFull);
    assert_eq!(
        t.error.unwrap().describe(),
        "resource exhausted: this watch's queue of 4 events is full; resume from the last \
         delivered revision"
    );
    let t = d
        .record_sent(&mut counters, &e, false, SendOutcome::Closed, 0, 9, &limits())
        .unwrap_err();
    assert_eq!((t.reason, t.error), (TerminationReason::ClientClosed, None));
    let mut occupancy = 10;
    release_bytes(&mut occupancy, 4);
    assert_eq!(occupancy, 6);
    release_bytes(&mut occupancy, 40);
    assert_eq!(occupancy, 0);
}

#[test]
fn policy_changes_end_the_streams_they_touch() {
    let mut d = stream(0, 0);
    assert_eq!(d.policy_terminal(PolicyNow { epoch: 0, touches_prefix: true }), None);
    assert_eq!(d.policy_terminal(PolicyNow { epoch: 1, touches_prefix: false }), None);
    assert_eq!(d.policy_epoch, 1);
    let t = d.policy_terminal(PolicyNow { epoch: 2, touches_prefix: true }).unwrap();
    assert_eq!(t.error, Some(ConfigError::PolicyChanged));
    // Two adoptions at once: what the first changed is not known.
    let t = d.policy_terminal(PolicyNow { epoch: 3, touches_prefix: false }).unwrap();
    assert_eq!(t.reason, TerminationReason::PolicyChanged);
    assert!(d.screen(&put(1, b"k", b""), PolicyNow { epoch: 9, touches_prefix: false }).is_err());
    let mut h = serving();
    h.on_policy_change(vec![b"k".to_vec()]);
    assert_eq!(h.policy.epoch, 1);
    assert_eq!(h.register_locked(0, 5).unwrap().policy_epoch, 1);
}

#[test]
fn live_delivery_reacts_to_what_it_comes_upon() {
    let mut d = stream(0, 7);
    let mut c = Counters::new();
    let on = HubState::Serving;
    assert_eq!(d.live(&mut c, LiveEvent::StateChanged, &on, quiet()), LiveAction::Wait);
    assert_eq!(d.live(&mut c, LiveEvent::Batch, &on, quiet()), LiveAction::Deliver);
    assert_eq!(
        d.live(&mut c, LiveEvent::Tick, &on, quiet()),
        LiveAction::Progress { revision: 7 }
    );
    let ended = |a: LiveAction| match a {
        LiveAction::End(t) => (t.reason, t.error),
        other => panic!("{other:?}"),
    };
    assert_eq!(
        ended(d.live(&mut c, LiveEvent::StateChanged, &HubState::NotLeader { hint: None }, quiet())),
        (TerminationReason::NotLeader, Some(ConfigError::NotLeader { hint: None }))
    );
    assert_eq!(
        ended(d.live(&mut c, LiveEvent::StateChanged, &HubState::Stopped, quiet())).0,
        TerminationReason::Unavailable
    );
    let (reason, error) = ended(d.live(&mut c, LiveEvent::Lagged { missed: 3 }, &on, quiet()));
    assert_eq!(reason, TerminationReason::BroadcastLagged);
    assert_eq!(
        error.unwrap().describe(),
        "resource exhausted: this watch fell 3 batches behind the node's live buffer; resume \
         from the last delivered revision"
    );
    assert_eq!(c.broadcast_lagged, 3);
    assert_eq!(
        ended(d.live(&mut c, LiveEvent::HubClosed, &on, quiet())).1,
        Some(ConfigError::Unavailable { reason: "hub closed".to_string() })
    );
    assert_eq!(
        ended(d.live(&mut c, LiveEvent::PublisherClosed, &on, quiet())).1,
        Some(ConfigError::Unavailable { reason: "stopped".to_string() })
    );
    assert_eq!(ended(d.live(&mut c, LiveEvent::ClientClosed, &on, quiet())).1, None);
    assert!(d.record_progress(&mut c, SendOutcome::Sent, &limits()).is_ok());
    assert_eq!(c.progress_sent, 1);
    assert!(d.record_progress(&mut c, SendOutcome::Full, &limits()).is_err());
    assert_eq!(c.progress_sent, 1);
}

#[test]
fn tracked_watches_remember_events_only() {
    let mut w = TrackedWatch::with_id("stream", StreamId(4));
    assert_eq!(w.last_delivered_revision(), 0);
    w.note(&Ok(WatchItem::Event(put(12, b"k", b""))));
    w.note(&Ok(WatchItem::Progress { revision: 40 }));
    w.note(&Err(ConfigError::PolicyChanged));
    assert_eq!(w.last_delivered_revision(), 12);
    assert_eq!(w.stream_id(), Some(StreamId(4)));
    assert_eq!(w.into_stream(), "stream");
    assert_eq!(TrackedWatch::new(1u8).stream_id(), None);
}

#[test]
fn nothing_parks_at_a_new_hub() {
    let h = WatchHub::new(limits());
    let untouched = |s: &HookSlot| {
        (s.armed, s.arrived, s.armed_at, s.crossed) == (false, 0, 0, 0) && !s.has_arrived()
    };
    assert!(untouched(&h.compaction_hook));
    for hook in [
        GateHook::BeforeHighWater,
        GateHook::AfterRegister,
        GateHook::BeforeReplay,
        GateHook::BeforeLiveDrain,
    ] {
        assert!(untouched(&h.hooks.slot(hook)));
        assert!(untouched(&Hooks::default().slot(hook)));
    }
}

#[test]
fn hooks_park_one_arrival_at_a_time() {
    let mut h = Hooks::default();
    assert!(!h.enter(GateHook::BeforeReplay));
    let pass = h.pause(GateHook::BeforeReplay);
    assert!(!h.slot(GateHook::BeforeReplay).has_arrived());
    assert!(h.enter(GateHook::BeforeReplay));
    assert!(h.slot(GateHook::BeforeReplay).has_arrived());
    assert!(!h.enter(GateHook::AfterRegister));
    h.release(pass);
    assert!(!h.enter(GateHook::BeforeReplay));
    assert_eq!(h.count(GateHook::BeforeReplay), 3);
    assert_eq!(h.count(GateHook::AfterRegister), 1);
}

#[test]
fn counters_count_each_reason() {
    let mut c = Counters::new();
    c.terminate(TerminationReason::PolicyChanged);
    c.terminate(TerminationReason::NotLeader);
    c.terminate(TerminationReason::NotLeader);
    assert_eq!(
        c.terminated_by_reason(),
        vec![(TerminationReason::NotLeader, 2), (TerminationReason::PolicyChanged, 1)]
    );
    assert_eq!(Counters::observe_max(3, 9), 9);
    assert_eq!(Counters::observe_max(9, 3), 9);
    assert_eq!(TerminationReason::BroadcastLagged.as_str(), "broadcast_lagged");
}

#[test]
fn prefixes_are_rendered_shortened() {
    assert_eq!(prefix_hex(b"\x00\xffk"), "00ff6b");
    assert_eq!(prefix_hex(&[0x10; 33]).len(), 64);
}
