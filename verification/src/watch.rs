//! Watch delivery: the hub, the serialized journal gate, and the registration of streams.
//!
//! Three properties hold here. Apply never waits for a watcher: what apply hands the hub is one
//! step that cannot block. No event is lost in silence: registration checks the compaction
//! watermark, subscribes and captures the high-water mark in one section that excludes
//! compaction. And one stream's overload is one stream's problem: every stream has a bounded
//! queue of its own, and breaching its bounds ends that stream alone.

use vstd::multiset::Multiset;
use vstd::prelude::*;

use crate::admission;
use crate::admission::Admission;
use crate::counters;
use crate::counters::Counters;
use crate::delivery::Delivery;
use crate::delivery::HubState;
use crate::delivery::HubStateModel;
use crate::delivery::Terminal;
use crate::metrics;
use crate::text;
use crate::time::Duration;
use crate::types;
use crate::types::ConfigError;
use crate::types::ConfigErrorModel;
use crate::types::LeaderHint;
use crate::types::LeaderHintModel;
use crate::types::Limits;
use crate::types::Principal;
use crate::types::WatchItem;
use crate::types::WatchLimits;
use crate::types::WatchRequest;
use crate::watch::testing::HookSlot;
use crate::watch::testing::Hooks;

pub mod testing;

pub use crate::clock::{LeaderClock, ManualClock, SystemClock};
pub use crate::retention::{retention_target, JournalView, RetentionReason};
pub use crate::watch::testing::{GateHook, GatePass};

verus! {

/// A node-local identifier of one watch stream, unique for the lifetime of the process.
#[derive(Clone, Copy, PartialEq, Eq, Structural, Debug, PartialOrd, Ord, Hash)]
pub struct StreamId(pub u64);

/// Why a stream ended.
///
/// Every terminal condition has exactly one reason. The reason is both a counter key in
/// [`WatchStats`] and a log field, so there is one spelling for one outcome.
#[derive(Clone, Copy, PartialEq, Eq, Structural, Debug, PartialOrd, Ord, Hash)]
pub enum TerminationReason {
    /// Leadership moved away from this node; only a leader serves watches.
    NotLeader,
    /// The node stopped, or the hub shut down.
    Unavailable,
    /// The starting revision was at or below the compaction watermark.
    RevisionCompacted,
    /// The stream's bounded event queue was full.
    QueueFull,
    /// The stream's byte budget was exhausted.
    QueueBytes,
    /// The stream fell behind the shared live buffer.
    BroadcastLagged,
    /// An admission limit refused the stream before it opened.
    AdmissionDenied,
    /// The consumer dropped its end of the queue.
    ClientClosed,
    /// Authorization refused an event.
    Unauthorized,
    /// The grants covering the stream's prefix changed under a new policy document.
    PolicyChanged,
}

impl TerminationReason {
    /// The place of a reason in the order of declaration.
    pub open spec fn rank(self) -> int {
        match self {
            TerminationReason::NotLeader => 0,
            TerminationReason::Unavailable => 1,
            TerminationReason::RevisionCompacted => 2,
            TerminationReason::QueueFull => 3,
            TerminationReason::QueueBytes => 4,
            TerminationReason::BroadcastLagged => 5,
            TerminationReason::AdmissionDenied => 6,
            TerminationReason::ClientClosed => 7,
            TerminationReason::Unauthorized => 8,
            TerminationReason::PolicyChanged => 9,
        }
    }

    /// The name of a reason.
    pub open spec fn name(self) -> Seq<char> {
        match self {
            TerminationReason::NotLeader => "not_leader"@,
            TerminationReason::Unavailable => "unavailable"@,
            TerminationReason::RevisionCompacted => "revision_compacted"@,
            TerminationReason::QueueFull => "queue_full"@,
            TerminationReason::QueueBytes => "queue_bytes"@,
            TerminationReason::BroadcastLagged => "broadcast_lagged"@,
            TerminationReason::AdmissionDenied => "admission_denied"@,
            TerminationReason::ClientClosed => "client_closed"@,
            TerminationReason::Unauthorized => "unauthorized"@,
            TerminationReason::PolicyChanged => "policy_changed"@,
        }
    }

    /// The log and metric spelling of this reason.
    pub fn as_str(self) -> (r: &'static str)
        ensures
            r@ == self.name(),
    {
        match self {
            TerminationReason::NotLeader => "not_leader",
            TerminationReason::Unavailable => "unavailable",
            TerminationReason::RevisionCompacted => "revision_compacted",
            TerminationReason::QueueFull => "queue_full",
            TerminationReason::QueueBytes => "queue_bytes",
            TerminationReason::BroadcastLagged => "broadcast_lagged",
            TerminationReason::AdmissionDenied => "admission_denied",
            TerminationReason::ClientClosed => "client_closed",
            TerminationReason::Unauthorized => "unauthorized",
            TerminationReason::PolicyChanged => "policy_changed",
        }
    }
}

/// A snapshot of one node's watch counters.
#[derive(Clone, PartialEq, Eq, Debug)]
pub struct WatchStats {
    /// Streams currently registered.
    pub streams_open: usize,
    /// Streams currently registered, by principal name, in the order of the names.
    pub streams_open_by_principal: Vec<(String, usize)>,
    /// Streams admitted since the node started.
    pub started: u64,
    /// Terminations since the node started: each reason that has occurred, in the order of
    /// declaration.
    pub terminated_by_reason: Vec<(TerminationReason, u64)>,
    /// Events delivered from the journal during replay.
    pub events_replayed: u64,
    /// Events delivered live.
    pub events_live: u64,
    /// Progress frames delivered.
    pub progress_sent: u64,
    /// Deepest queue occupancy observed on any stream.
    pub queue_depth_max: usize,
    /// Largest byte budget consumption observed on any stream.
    pub queue_bytes_max: u64,
    /// Publishes from apply that would have blocked. Always `0`.
    pub publish_would_block: u64,
    /// Live batches a stream missed because it fell behind.
    pub broadcast_lagged: u64,
}

/// The progress interval used when a request does not ask for one, in milliseconds.
pub const DEFAULT_PROGRESS_INTERVAL_MS: u64 = 5_000;

/// Smallest accepted progress interval, in milliseconds.
pub const MIN_PROGRESS_INTERVAL_MS: u64 = 100;

/// Largest accepted progress interval, in milliseconds.
pub const MAX_PROGRESS_INTERVAL_MS: u64 = 3_600_000;

/// Most prefix bytes that are rendered for a log line.
pub const PREFIX_HEX_MAX_BYTES: usize = 32;

/// Hexadecimal text of at most the first 32 bytes of a prefix, for a log line.
pub fn prefix_hex(prefix: &[u8]) -> (r: String)
    ensures
        r@ == text::hex(
            if prefix@.len() <= PREFIX_HEX_MAX_BYTES {
                prefix@
            } else {
                prefix@.take(PREFIX_HEX_MAX_BYTES as int)
            },
        ),
{
    text::hex_of_first(prefix, PREFIX_HEX_MAX_BYTES)
}

/// The journal gate: held by compaction from before it deletes until after, and by a
/// registration while it takes its bearings.
#[derive(Clone, Copy, PartialEq, Eq, Structural, Debug)]
pub struct JournalGate {
    held: bool,
}

impl JournalGate {
    /// Whether somebody is inside.
    pub closed spec fn is_held(&self) -> bool {
        self.held
    }

    /// A gate with nobody inside.
    pub fn new() -> (g: Self)
        ensures
            !g.is_held(),
    {
        JournalGate { held: false }
    }

    /// Go in, unless somebody is inside: then the caller waits for a release and tries again.
    pub fn acquire(&mut self) -> (entered: bool)
        ensures
            entered == !old(self).is_held(),
            final(self).is_held(),
    {
        let entered: bool = !self.held;
        self.held = true;
        entered
    }

    /// Come out.
    pub fn release(&mut self)
        ensures
            !final(self).is_held(),
    {
        self.held = false;
    }
}

/// One adoption of a new policy document, as the streams see it.
///
/// Only the latest is kept. A stream that sees a jump of more than one epoch cannot know what
/// happened in between and ends.
#[derive(Clone, PartialEq, Eq, Debug)]
pub struct PolicyChange {
    /// Adoptions this hub has seen.
    pub epoch: u64,
    /// Prefixes whose grants differ between the document before and the one after.
    pub changed: Vec<Vec<u8>>,
}

/// What a registration captured inside the journal gate.
#[derive(Clone, Copy, PartialEq, Eq, Structural, Debug)]
pub struct Registration {
    /// The applied revision.
    pub high_water: u64,
    /// The policy epoch in force.
    pub policy_epoch: u64,
}

/// One node's watch fan-out: the journal gate, the admission counters, the compaction watermark
/// and the state every stream follows.
pub struct WatchHub {
    /// The caps this hub enforces.
    pub limits: WatchLimits,
    /// Whether a store and a policy were attached.
    pub attached: bool,
    /// The journal gate.
    pub gate: JournalGate,
    /// The compaction watermark that cursors are checked against.
    pub compact_revision: u64,
    /// Whether the node has a policy it may serve watches under.
    pub authz_ready: bool,
    /// The open streams.
    pub admission: Admission,
    /// Counters.
    pub counters: Counters,
    /// Release points of a registration.
    pub hooks: Hooks,
    /// The release point of a compaction.
    pub compaction_hook: HookSlot,
    /// What the hub permits.
    pub state: HubState,
    /// The latest policy adoption.
    pub policy: PolicyChange,
    /// The id of the next stream.
    pub next_stream_id: u64,
}

/// Why a cursor cannot be served for what was compacted, if it cannot: an event after it may be
/// gone.
pub open spec fn floor_refusal(compact_revision: u64, start_after: u64) -> Option<
    ConfigErrorModel,
> {
    if compact_revision > 0 && start_after <= compact_revision {
        Some(
            ConfigErrorModel::RevisionCompacted {
                minimum_available_revision: (compact_revision + 1) as u64,
            },
        )
    } else {
        None
    }
}

/// Why a cursor is refused at the journal gate, if it is: it was compacted away, or it lies above
/// what was applied. A watermark of zero means that nothing was ever deleted.
pub open spec fn cursor_refusal(
    compact_revision: u64,
    start_after: u64,
    high_water: u64,
) -> Option<ConfigErrorModel> {
    if compact_revision > 0 && start_after <= compact_revision {
        Some(
            ConfigErrorModel::RevisionCompacted {
                minimum_available_revision: (compact_revision + 1) as u64,
            },
        )
    } else if start_after > high_water {
        Some(
            ConfigErrorModel::InvalidArgument {
                detail: "start_after_revision "@ + text::decimal(start_after as nat)
                    + " is above this node's applied revision "@ + text::decimal(
                    high_water as nat,
                ),
            },
        )
    } else {
        None
    }
}

/// A result that succeeds unless there is a refusal.
pub open spec fn unless<T>(refusal: Option<ConfigErrorModel>, value: T) -> Result<
    T,
    ConfigErrorModel,
> {
    match refusal {
        Some(e) => Err(e),
        None => Ok(value),
    }
}

impl WatchHub {
    /// The admission counters say what is open.
    pub open spec fn wf(&self) -> bool {
        self.admission.wf()
    }

    /// Why opening a stream is refused before it registers, if it is.
    pub open spec fn open_refusal(&self, principal: Seq<char>) -> Option<ConfigErrorModel> {
        if !self.attached {
            Some(
                ConfigErrorModel::unavailable("this node's watch hub has no store attached"@),
            )
        } else if self.state@.error() is Some {
            self.state@.error()
        } else {
            admission::refusal(self.admission.open(), principal, self.limits)
        }
    }

    /// What opening a stream at once counts: one that was denied a slot, one that was let in, or
    /// one that was let in and ended because its cursor was compacted away.
    pub open spec fn open_counts(
        &self,
        principal: Seq<char>,
        start_after: u64,
        high_water: u64,
        after: Counters,
    ) -> bool {
        if self.open_refusal(principal) is Some {
            if self.denies_admission(principal) {
                self.counters.after_termination(TerminationReason::AdmissionDenied, after)
            } else {
                after == self.counters
            }
        } else {
            let started = Counters {
                started: metrics::counted(self.counters.started, 1),
                ..self.counters
            };
            if cursor_refusal(self.compact_revision, start_after, high_water)
                matches Some(ConfigErrorModel::RevisionCompacted { .. }) {
                started.after_termination(TerminationReason::RevisionCompacted, after)
            } else {
                after == started
            }
        }
    }

    /// Whether opening is refused for want of an admission slot.
    pub open spec fn denies_admission(&self, principal: Seq<char>) -> bool {
        &&& self.attached
        &&& self.state@.error() is None
        &&& admission::refusal(self.admission.open(), principal, self.limits) is Some
    }

    /// A hub for a node with `limits`, before anything is attached.
    pub fn new(limits: WatchLimits) -> (h: Self)
        ensures
            h.wf(),
            h.limits == limits,
            !h.attached,
            !h.gate.is_held(),
            h.compact_revision == 0,
            h.authz_ready,
            h.admission.open() == Multiset::<Seq<char>>::empty(),
            h.counters.zero(),
            h.state@ == (HubStateModel::NotLeader { hint: None }),
            h.policy.epoch == 0,
            h.policy.changed@.len() == 0,
            h.next_stream_id == 1,
            h.compaction_hook.untouched(),
            forall|hook: GateHook| (#[trigger] h.hooks.at(hook)).untouched(),
    {
        WatchHub {
            limits,
            attached: false,
            gate: JournalGate::new(),
            compact_revision: 0,
            authz_ready: true,
            admission: Admission::new(),
            counters: Counters::new(),
            hooks: Hooks::default(),
            compaction_hook: HookSlot::default(),
            state: HubState::NotLeader { hint: None },
            policy: PolicyChange { epoch: 0, changed: Vec::new() },
            next_stream_id: 1,
        }
    }

    /// The hub once it has its store.
    pub open spec fn having_attached(&self, compact_revision: u64) -> WatchHub {
        if self.attached {
            *self
        } else {
            WatchHub {
                attached: true,
                compact_revision: counters::greater(self.compact_revision, compact_revision),
                ..*self
            }
        }
    }

    /// Attach a store and a policy. The watermark is taken over from the store before any stream
    /// can register, so a node restarted on a compacted journal refuses a cursor below its floor.
    /// A second call is ignored.
    pub fn attach(&mut self, compact_revision: u64)
        ensures
            *final(self) == old(self).having_attached(compact_revision),
    {
        if self.attached {
            return ;
        }
        self.compact_revision = Counters::observe_max(self.compact_revision, compact_revision);
        self.attached = true;
    }

    /// A snapshot of the counters.
    pub fn stats(&self) -> (s: WatchStats)
        requires
            self.wf(),
        ensures
            s.streams_open == self.admission.open().len(),
            admission::lists_open(s.streams_open_by_principal@, self.admission.open()),
            admission::streams_of(s.streams_open_by_principal@) == s.streams_open,
            s.started == self.counters.started,
            counters::lists_terminations(s.terminated_by_reason@, self.counters),
            s.events_replayed == self.counters.events_replayed,
            s.events_live == self.counters.events_live,
            s.progress_sent == self.counters.progress_sent,
            self.counters.queue_depth_max <= usize::MAX ==> s.queue_depth_max
                == self.counters.queue_depth_max,
            s.queue_bytes_max == self.counters.queue_bytes_max,
            s.publish_would_block == self.counters.publish_would_block,
            s.broadcast_lagged == self.counters.broadcast_lagged,
    {
        WatchStats {
            streams_open: self.admission.total(),
            streams_open_by_principal: self.admission.listing(),
            started: self.counters.started,
            terminated_by_reason: self.counters.terminated_by_reason(),
            events_replayed: self.counters.events_replayed,
            events_live: self.counters.events_live,
            progress_sent: self.counters.progress_sent,
            queue_depth_max: self.counters.queue_depth_max as usize,
            queue_bytes_max: self.counters.queue_bytes_max,
            publish_would_block: self.counters.publish_would_block,
            broadcast_lagged: self.counters.broadcast_lagged,
        }
    }

    /// This node is the leader and may serve watches; whether that is news to the streams.
    pub fn note_leader(&mut self) -> (changed: bool)
        ensures
            changed == !(old(self).state is Serving),
            *final(self) == (WatchHub { state: HubState::Serving, ..*old(self) }),
    {
        let changed: bool = match self.state {
            HubState::Serving => false,
            _ => true,
        };
        self.state = HubState::Serving;
        changed
    }

    /// Leadership moved away; whether that is news to the streams. A stopped hub stays stopped.
    pub fn note_not_leader(&mut self, hint: Option<LeaderHint>) -> (changed: bool)
        ensures
            changed == (old(self).state@ != HubStateModel::Stopped && old(self).state@ != (
            HubStateModel::NotLeader { hint: types::hint_model(hint) })),
            final(self).state@ == (if old(self).state is Stopped {
                HubStateModel::Stopped
            } else {
                HubStateModel::NotLeader { hint: types::hint_model(hint) }
            }),
            *final(self) == (WatchHub { state: final(self).state, ..*old(self) }),
    {
        let changed: bool = match &self.state {
            HubState::Stopped => {
                return false;
            },
            HubState::Serving => true,
            HubState::NotLeader { hint: known } => !types::same_hint(known, &hint),
        };
        if changed {
            self.state = HubState::NotLeader { hint };
        }
        changed
    }

    /// The node stopped.
    pub fn shutdown(&mut self)
        ensures
            *final(self) == (WatchHub { state: HubState::Stopped, ..*old(self) }),
    {
        self.state = HubState::Stopped;
    }

    /// Declare whether the node holds a usable authorization policy.
    pub fn set_authz_ready(&mut self, ready: bool)
        ensures
            *final(self) == (WatchHub { authz_ready: ready, ..*old(self) }),
    {
        self.authz_ready = ready;
    }

    /// Whether a stream may deliver a key.
    pub open spec fn lets_through(&self, allowed: bool) -> bool {
        self.authz_ready && self.attached && allowed
    }

    /// Whether a stream may deliver a key, given what the authorizer says of it.
    pub fn authorized(&self, allowed: bool) -> (r: bool)
        ensures
            r == self.lets_through(allowed),
    {
        self.authz_ready && self.attached && allowed
    }

    /// The error this hub answers with, if any.
    pub fn hub_error(&self) -> (r: Option<ConfigError>)
        ensures
            match r {
                Some(e) => self.state@.error() == Some(e@),
                None => self.state@.error() is None,
            },
    {
        self.state.hub_error()
    }

    /// Inside the journal gate, check a cursor against the compaction watermark.
    pub fn check_cursor(&self, start_after: u64) -> (r: Result<(), ConfigError>)
        requires
            self.compact_revision < u64::MAX,
        ensures
            types::answer(r) == unless(floor_refusal(self.compact_revision, start_after), ()),
    {
        if self.compact_revision > 0 && start_after <= self.compact_revision {
            return Err(
                ConfigError::RevisionCompacted {
                    minimum_available_revision: self.compact_revision + 1,
                },
            );
        }
        Ok(())
    }

    /// Inside the journal gate, register a stream. `high_water` is the applied revision, read after
    /// the stream subscribed to what is published.
    pub fn register_locked(&self, start_after: u64, high_water: u64) -> (r: Result<
        Registration,
        ConfigError,
    >)
        requires
            self.compact_revision < u64::MAX,
        ensures
            types::answer(r) == unless(
                cursor_refusal(self.compact_revision, start_after, high_water),
                (Registration { high_water, policy_epoch: self.policy.epoch }),
            ),
    {
        if let Err(e) = self.check_cursor(start_after) {
            return Err(e);
        }
        if start_after > high_water {
            let mut detail = "start_after_revision ".to_owned();
            text::push_decimal(&mut detail, start_after as u128);
            text::push_text(&mut detail, " is above this node's applied revision ");
            text::push_decimal(&mut detail, high_water as u128);
            return Err(ConfigError::InvalidArgument { detail });
        }
        Ok(Registration { high_water, policy_epoch: self.policy.epoch })
    }

    /// The hub once a policy was adopted that changed these grants.
    pub open spec fn having_adopted(&self, changed: Vec<Vec<u8>>) -> WatchHub {
        WatchHub {
            policy: PolicyChange { epoch: (self.policy.epoch + 1) as u64, changed },
            ..*self
        }
    }

    /// Note a policy adoption that changed the grants of `changed`. This comes before the
    /// authorizer adopts the document, and inside the journal gate: a stream looks at the epoch
    /// before it delivers anything, so an affected stream delivers nothing under the new document.
    pub fn on_policy_change(&mut self, changed: Vec<Vec<u8>>)
        requires
            old(self).policy.epoch < u64::MAX,
        ensures
            *final(self) == old(self).having_adopted(changed),
    {
        self.policy = PolicyChange { epoch: self.policy.epoch + 1, changed };
    }

    /// The hub once a batch was applied.
    pub open spec fn having_applied(&self, compacted_to: Option<u64>) -> WatchHub {
        WatchHub {
            compact_revision: match compacted_to {
                Some(up_to) => counters::greater(self.compact_revision, up_to),
                None => self.compact_revision,
            },
            ..*self
        }
    }

    /// Note an applied batch. The watermark follows what was actually compacted and never moves
    /// back. Nothing here can block.
    pub fn on_applied(&mut self, compacted_to: Option<u64>)
        ensures
            *final(self) == old(self).having_applied(compacted_to),
    {
        if let Some(up_to) = compacted_to {
            self.compact_revision = Counters::observe_max(self.compact_revision, up_to);
        }
    }

    /// A compaction is about to delete: go into the journal gate, unless somebody is inside.
    pub fn before_compact(&mut self) -> (entered: bool)
        ensures
            entered == !old(self).gate.is_held(),
            final(self).gate.is_held(),
            *final(self) == (WatchHub { gate: final(self).gate, ..*old(self) }),
    {
        self.gate.acquire()
    }

    /// A compaction is over: come out of the journal gate. The watermark is not touched: what was
    /// asked for may lie beyond what exists, and what was done reaches the hub with the batch.
    pub fn after_compact(&mut self)
        ensures
            !final(self).gate.is_held(),
            *final(self) == (WatchHub { gate: final(self).gate, ..*old(self) }),
    {
        self.gate.release();
    }

    /// Begin to open a stream: refuse it, or take an admission slot for it.
    pub fn open_begin(&mut self, principal: &Principal) -> (r: Result<(), ConfigError>)
        requires
            old(self).wf(),
        ensures
            final(self).wf(),
            types::answer(r) == unless(old(self).open_refusal(principal.name@), ()),
            final(self).admission.open() == (if r is Ok {
                old(self).admission.open().insert(principal.name@)
            } else {
                old(self).admission.open()
            }),
            r is Ok ==> final(self).counters == (Counters {
                started: metrics::counted(old(self).counters.started, 1),
                ..old(self).counters
            }),
            old(self).denies_admission(principal.name@) ==> old(self).counters.after_termination(
                TerminationReason::AdmissionDenied,
                final(self).counters,
            ),
            r is Err && !old(self).denies_admission(principal.name@) ==> final(self).counters
                == old(self).counters,
            *final(self) == (WatchHub {
                admission: final(self).admission,
                counters: final(self).counters,
                ..*old(self)
            }),
    {
        if !self.attached {
            return Err(
                ConfigError::unavailable("this node's watch hub has no store attached"),
            );
        }
        if let Some(e) = self.hub_error() {
            return Err(e);
        }
        match self.admission.reserve(principal.name.as_str(), &self.limits) {
            Ok(_) => {
                self.counters.started = metrics::count_up(self.counters.started, 1);
                Ok(())
            },
            Err(e) => {
                self.counters.terminate(TerminationReason::AdmissionDenied);
                Err(e)
            },
        }
    }

    /// The refusal of a stream whose store is being closed.
    pub fn store_closing() -> (e: ConfigError)
        ensures
            e@ == ConfigErrorModel::unavailable("this node's store is closing"@),
    {
        ConfigError::unavailable("this node's store is closing")
    }

    /// The refusal of a stream whose registration did not run to its end.
    pub fn registration_aborted(error: &str) -> (e: ConfigError)
        ensures
            e@ == ConfigErrorModel::unavailable("watch registration failed to run: "@ + error@),
    {
        ConfigError::Unavailable { reason: text::two("watch registration failed to run: ", error) }
    }

    /// Finish opening a stream, given how its registration went: start it, or give its admission
    /// slot back.
    pub fn open_registered(
        &mut self,
        principal: &Principal,
        prefix: Vec<u8>,
        start_after: u64,
        progress_interval: Duration,
        registered: Result<Registration, ConfigError>,
    ) -> (r: Result<Delivery, ConfigError>)
        requires
            old(self).wf(),
            old(self).admission.open().count(principal.name@) > 0,
        ensures
            final(self).wf(),
            match registered {
                Ok(reg) => {
                    &&& r is Ok
                    &&& r->Ok_0 == Delivery::fresh(
                        StreamId(old(self).next_stream_id),
                        principal.name,
                        prefix,
                        start_after,
                        reg.high_water,
                        reg.policy_epoch,
                        progress_interval,
                    )
                    &&& *final(self) == (WatchHub {
                        next_stream_id: metrics::counted(old(self).next_stream_id, 1),
                        ..*old(self)
                    })
                },
                Err(e) => {
                    &&& r is Err
                    &&& r->Err_0 == e
                    &&& final(self).admission.open() == old(self).admission.open().remove(
                        principal.name@,
                    )
                    &&& if e is RevisionCompacted {
                        old(self).counters.after_termination(
                            TerminationReason::RevisionCompacted,
                            final(self).counters,
                        )
                    } else {
                        final(self).counters == old(self).counters
                    }
                    &&& *final(self) == (WatchHub {
                        admission: final(self).admission,
                        counters: final(self).counters,
                        ..*old(self)
                    })
                },
            },
    {
        match registered {
            Ok(reg) => {
                let id = StreamId(self.next_stream_id);
                self.next_stream_id = metrics::count_up(self.next_stream_id, 1);
                Ok(
                    Delivery::start(
                        id,
                        principal.name.clone(),
                        prefix,
                        start_after,
                        reg.high_water,
                        reg.policy_epoch,
                        progress_interval,
                    ),
                )
            },
            Err(e) => {
                self.admission.release(principal.name.as_str());
                if let ConfigError::RevisionCompacted { .. } = &e {
                    self.counters.terminate(TerminationReason::RevisionCompacted);
                }
                Err(e)
            },
        }
    }

    /// Open a stream at once, when nothing happens between its steps: refuse it, or let it in,
    /// register it at the applied revision and start it.
    pub fn open(
        &mut self,
        principal: &Principal,
        prefix: Vec<u8>,
        start_after: u64,
        progress_interval: Duration,
        high_water: u64,
    ) -> (r: Result<Delivery, ConfigError>)
        requires
            old(self).wf(),
            old(self).compact_revision < u64::MAX,
        ensures
            final(self).wf(),
            r is Ok <==> old(self).open_refusal(principal.name@) is None && cursor_refusal(
                old(self).compact_revision,
                start_after,
                high_water,
            ) is None,
            r matches Err(e) ==> Some(e@) == (if old(self).open_refusal(principal.name@) is Some {
                old(self).open_refusal(principal.name@)
            } else {
                cursor_refusal(old(self).compact_revision, start_after, high_water)
            }),
            r matches Ok(d) ==> d == Delivery::fresh(
                StreamId(old(self).next_stream_id),
                principal.name,
                prefix,
                start_after,
                high_water,
                old(self).policy.epoch,
                progress_interval,
            ),
            final(self).admission.open() == (if r is Ok {
                old(self).admission.open().insert(principal.name@)
            } else {
                old(self).admission.open()
            }),
            old(self).open_counts(principal.name@, start_after, high_water, final(self).counters),
            *final(self) == (WatchHub {
                admission: final(self).admission,
                counters: final(self).counters,
                next_stream_id: if r is Ok {
                    metrics::counted(old(self).next_stream_id, 1)
                } else {
                    old(self).next_stream_id
                },
                ..*old(self)
            }),
    {
        if let Err(e) = self.open_begin(principal) {
            return Err(e);
        }
        proof {
            broadcast use vstd::multiset::group_multiset_axioms;

            admission::release_undoes_reserve(old(self).admission.open(), principal.name@);
        }
        let registered = self.register_locked(start_after, high_water);
        self.open_registered(principal, prefix, start_after, progress_interval, registered)
    }

    /// A stream ended: count it and give its admission slot back. The answer is what the client
    /// is to be told, if anything.
    pub fn close(&mut self, stream: &Delivery, terminal: Terminal) -> (r: Option<ConfigError>)
        requires
            old(self).wf(),
            old(self).admission.open().count(stream.principal@) > 0,
        ensures
            final(self).wf(),
            r == terminal.error,
            final(self).admission.open() == old(self).admission.open().remove(stream.principal@),
            old(self).counters.after_termination(terminal.reason, final(self).counters),
            *final(self) == (WatchHub {
                admission: final(self).admission,
                counters: final(self).counters,
                ..*old(self)
            }),
    {
        self.counters.terminate(terminal.reason);
        self.admission.release(stream.principal.as_str());
        terminal.error
    }
}

/// Why a watch request is refused, if it is: its prefix is too long, or its interval is outside
/// what is accepted.
pub open spec fn watch_refusal(
    request: WatchRequest,
    limits: Limits,
    node_default: Duration,
) -> Option<ConfigErrorModel> {
    let interval = wanted_interval(request, node_default);
    if request.prefix@.len() > limits.max_key_bytes {
        Some(
            ConfigErrorModel::InvalidArgument {
                detail: "watch prefix is "@ + text::decimal(request.prefix@.len())
                    + " bytes, over the "@ + text::decimal(limits.max_key_bytes as nat)
                    + " byte key cap"@,
            },
        )
    } else if interval.nanos < MIN_PROGRESS_INTERVAL_MS * 1_000_000 || interval.nanos
        > MAX_PROGRESS_INTERVAL_MS * 1_000_000 {
        Some(
            ConfigErrorModel::InvalidArgument {
                detail: "progress_interval "@ + text::decimal(interval.nanos as nat / 1_000_000)
                    + "ms is outside the accepted range "@ + text::decimal(
                    MIN_PROGRESS_INTERVAL_MS as nat,
                ) + "ms.."@ + text::decimal(MAX_PROGRESS_INTERVAL_MS as nat) + "ms"@,
            },
        )
    } else {
        None
    }
}

/// The interval a request asks for, or the node's own. Asking for none does not disable
/// progress: a cursor has to move past revisions that do not match.
pub open spec fn wanted_interval(request: WatchRequest, node_default: Duration) -> Duration {
    match request.progress_interval {
        Some(d) => d,
        None => node_default,
    }
}

/// Validate a watch request against the node's caps.
pub fn validate_watch(request: &WatchRequest, limits: &Limits, node_default: Duration) -> (r: Result<
    Duration,
    ConfigError,
>)
    ensures
        types::answer(r) == unless(
            watch_refusal(*request, *limits, node_default),
            wanted_interval(*request, node_default),
        ),
{
    if request.prefix.len() > limits.max_key_bytes {
        let mut detail = "watch prefix is ".to_owned();
        text::push_decimal(&mut detail, request.prefix.len() as u128);
        text::push_text(&mut detail, " bytes, over the ");
        text::push_decimal(&mut detail, limits.max_key_bytes as u128);
        text::push_text(&mut detail, " byte key cap");
        return Err(ConfigError::InvalidArgument { detail });
    }
    let interval: Duration = match request.progress_interval {
        Some(d) => d,
        None => node_default,
    };
    if interval.nanos < MIN_PROGRESS_INTERVAL_MS as u128 * 1_000_000 || interval.nanos
        > MAX_PROGRESS_INTERVAL_MS as u128 * 1_000_000 {
        let mut detail = "progress_interval ".to_owned();
        text::push_decimal(&mut detail, interval.as_millis());
        text::push_text(&mut detail, "ms is outside the accepted range ");
        text::push_decimal(&mut detail, MIN_PROGRESS_INTERVAL_MS as u128);
        text::push_text(&mut detail, "ms..");
        text::push_decimal(&mut detail, MAX_PROGRESS_INTERVAL_MS as u128);
        text::push_text(&mut detail, "ms");
        return Err(ConfigError::InvalidArgument { detail });
    }
    Ok(interval)
}

/// A watch stream that remembers how far it has delivered, so that its reader knows where to
/// resume after it ends. It does not reconnect by itself.
pub struct TrackedWatch<S> {
    inner: S,
    stream_id: Option<StreamId>,
    last_delivered_revision: u64,
}

impl<S> TrackedWatch<S> {
    /// The stream being tracked.
    pub closed spec fn inner(&self) -> S {
        self.inner
    }

    /// Its id, when it is known.
    pub closed spec fn id(&self) -> Option<StreamId> {
        self.stream_id
    }

    /// The revision of the last delivered event.
    pub closed spec fn last_delivered(&self) -> u64 {
        self.last_delivered_revision
    }

    /// Track `inner`.
    pub fn new(inner: S) -> (w: Self)
        ensures
            w.inner() == inner,
            w.id() is None,
            w.last_delivered() == 0,
    {
        TrackedWatch { inner, stream_id: None, last_delivered_revision: 0 }
    }

    /// Track `inner` and remember the id it was registered under.
    pub fn with_id(inner: S, stream_id: StreamId) -> (w: Self)
        ensures
            w.inner() == inner,
            w.id() == Some(stream_id),
            w.last_delivered() == 0,
    {
        TrackedWatch { inner, stream_id: Some(stream_id), last_delivered_revision: 0 }
    }

    /// The revision of the last delivered event, or `0` before the first one.
    pub fn last_delivered_revision(&self) -> (r: u64)
        ensures
            r == self.last_delivered(),
    {
        self.last_delivered_revision
    }

    /// The id the stream was registered under, when it is known.
    pub fn stream_id(&self) -> (r: Option<StreamId>)
        ensures
            r == self.id(),
    {
        self.stream_id
    }

    /// Note what the stream yielded. Only an event moves the last delivered revision, never a
    /// progress frame: resuming from it skips nothing the reader did not see.
    pub fn note(&mut self, item: &Result<WatchItem, ConfigError>)
        ensures
            final(self).inner() == old(self).inner(),
            final(self).id() == old(self).id(),
            final(self).last_delivered() == (match item {
                Ok(WatchItem::Event(event)) => event.revision,
                _ => old(self).last_delivered(),
            }),
    {
        if let Ok(WatchItem::Event(event)) = item {
            self.last_delivered_revision = event.revision;
        }
    }

    /// Drop the tracking and hand back the stream.
    pub fn into_stream(self) -> (s: S)
        ensures
            s == self.inner(),
    {
        self.inner
    }
}

/// The compaction watermark never moves back, whatever is applied.
pub proof fn watermark_is_monotonic(watermark: u64, first: Option<u64>, second: Option<u64>)
    ensures
        ({
            let step = |w: u64, c: Option<u64>|
                match c {
                    Some(up_to) => counters::greater(w, up_to),
                    None => w,
                };
            &&& watermark <= step(watermark, first)
            &&& step(watermark, first) <= step(step(watermark, first), second)
            &&& step(step(watermark, first), second) == step(step(watermark, second), first)
        }),
{
}

/// Once a cursor is refused as compacted it stays refused, as the watermark only rises, and the
/// revision the refusal names is accepted as soon as it has been applied.
pub proof fn a_compacted_cursor_can_be_repaired(
    compact_revision: u64,
    start_after: u64,
    high_water: u64,
)
    requires
        0 < compact_revision < u64::MAX,
        start_after <= compact_revision,
        compact_revision < high_water,
    ensures
        cursor_refusal(compact_revision, start_after, high_water) matches Some(
            ConfigErrorModel::RevisionCompacted { minimum_available_revision },
        ) && cursor_refusal(compact_revision, minimum_available_revision, high_water) is None,
{
}

/// A watch is opened exactly on a hub that has its store and serves, for a principal that holds
/// fewer streams than it may, on a node that holds fewer than it may. Only a watch that the caps
/// stand against counts as denied.
pub proof fn a_watch_opens_exactly_when_it_may(hub: WatchHub, principal: Seq<char>)
    ensures
        hub.open_refusal(principal) is None <==> {
            &&& hub.attached
            &&& hub.state is Serving
            &&& hub.admission.open().len() < hub.limits.max_streams_per_node
            &&& hub.admission.open().count(principal) < hub.limits.max_streams_per_principal
        },
        hub.denies_admission(principal) <==> hub.attached && hub.state is Serving && (
        hub.admission.open().len() >= hub.limits.max_streams_per_node || hub.admission.open().count(
            principal,
        ) >= hub.limits.max_streams_per_principal),
        hub.open_refusal(principal) matches Some(e) ==> match e {
            ConfigErrorModel::NotLeader { hint } => hub.attached && hub.state@ == (
            HubStateModel::NotLeader { hint }),
            ConfigErrorModel::ResourceExhausted { resumable, .. } => hub.denies_admission(principal)
                && !resumable,
            ConfigErrorModel::Unavailable { .. } => !hub.attached || hub.state is Stopped,
            _ => false,
        },
{
}

/// A cursor is accepted exactly between what was compacted and what was applied: every event after
/// it is still there, and it is not ahead of history. One that is refused for being compacted
/// learns the first revision that is still there.
pub proof fn a_cursor_is_good_while_history_is_there(
    compact_revision: u64,
    start_after: u64,
    high_water: u64,
)
    requires
        compact_revision < u64::MAX,
    ensures
        cursor_refusal(compact_revision, start_after, high_water) is None <==> (compact_revision
            == 0 || compact_revision < start_after) && start_after <= high_water,
        floor_refusal(compact_revision, start_after) is None <==> compact_revision == 0
            || compact_revision < start_after,
        cursor_refusal(compact_revision, start_after, high_water) matches Some(e) ==> (if 0
            < compact_revision && start_after <= compact_revision {
            e == (ConfigErrorModel::RevisionCompacted {
                minimum_available_revision: (compact_revision + 1) as u64,
            })
        } else {
            e is InvalidArgument
        }),
        floor_refusal(compact_revision, start_after) matches Some(e) ==> e == (
        ConfigErrorModel::RevisionCompacted {
            minimum_available_revision: (compact_revision + 1) as u64,
        }),
{
}

/// A watch is valid exactly when its prefix is no longer than a key may be and its progress
/// interval, or else the node's own, lies between a tenth of a second and an hour.
pub proof fn a_watch_is_valid_within_its_bounds(
    request: WatchRequest,
    limits: Limits,
    node_default: Duration,
)
    ensures
        ({
            let nanos = match request.progress_interval {
                Some(d) => d.nanos,
                None => node_default.nanos,
            };
            &&& wanted_interval(request, node_default).nanos == nanos
            &&& watch_refusal(request, limits, node_default) is None <==> request.prefix@.len()
                <= limits.max_key_bytes && 100_000_000 <= nanos <= 3_600_000_000_000
            &&& watch_refusal(request, limits, node_default) matches Some(e) ==> e
                is InvalidArgument
        }),
{
}

/// An attempt to open a watch is counted by what came of it: started once it was admitted, denied
/// where a cap stood against it, and ended at once where its cursor was compacted away.
pub proof fn attempts_to_open_are_counted_by_outcome(
    hub: WatchHub,
    principal: Seq<char>,
    start_after: u64,
    high_water: u64,
    after: Counters,
)
    requires
        hub.open_counts(principal, start_after, high_water, after),
        hub.counters.started < u64::MAX,
        forall|r: TerminationReason| #[trigger] hub.counters.terminations(r) < u64::MAX,
    ensures
        ({
            let admitted = hub.attached && hub.state is Serving && hub.admission.open().len()
                < hub.limits.max_streams_per_node && hub.admission.open().count(principal)
                < hub.limits.max_streams_per_principal;
            let compacted = 0 < hub.compact_revision && start_after <= hub.compact_revision;
            &&& after.started == hub.counters.started + (if admitted {
                1int
            } else {
                0
            })
            &&& after.terminations(TerminationReason::RevisionCompacted)
                == hub.counters.terminations(TerminationReason::RevisionCompacted) + (if admitted
                && compacted {
                1int
            } else {
                0
            })
            &&& after.terminations(TerminationReason::AdmissionDenied) == hub.counters.terminations(
                TerminationReason::AdmissionDenied,
            ) + (if hub.attached && hub.state is Serving && !admitted {
                1int
            } else {
                0
            })
        }),
{
}

/// The watermark follows what was compacted, wherever it is read from, and never moves back: it is
/// at least every revision that was compacted, and is one of them. Nothing else of the hub changes,
/// and a store is attached once.
pub proof fn the_watermark_covers_what_was_compacted(
    hub: WatchHub,
    compacted_to: Option<u64>,
    at_start: u64,
)
    ensures
        ({
            let after = hub.having_applied(compacted_to);
            &&& after == (WatchHub { compact_revision: after.compact_revision, ..hub })
            &&& hub.compact_revision <= after.compact_revision
            &&& compacted_to matches Some(up_to) ==> up_to <= after.compact_revision && (
            after.compact_revision == up_to || after.compact_revision == hub.compact_revision)
            &&& compacted_to is None ==> after == hub
        }),
        ({
            let after = hub.having_attached(at_start);
            &&& after.attached
            &&& hub.attached ==> after == hub
            &&& after == (WatchHub {
                attached: true,
                compact_revision: after.compact_revision,
                ..hub
            })
            &&& !hub.attached ==> at_start <= after.compact_revision && hub.compact_revision
                <= after.compact_revision && (after.compact_revision == at_start
                || after.compact_revision == hub.compact_revision)
            &&& after.having_attached(0) == after
        }),
{
}

/// Nothing is delivered without a policy that is ready and a store that is attached, whatever an
/// authorizer would say, and nothing that it denies.
pub proof fn delivery_needs_a_ready_policy(hub: WatchHub, allowed: bool)
    ensures
        hub.lets_through(allowed) <==> allowed && hub.authz_ready && hub.attached,
{
}

/// An adoption is the next one: a stream that registered before it has not cleared itself against
/// it, and one that missed an adoption in between cannot tell what that one changed.
pub proof fn adoptions_are_numbered(
    hub: WatchHub,
    first: Vec<Vec<u8>>,
    second: Vec<Vec<u8>>,
    d: Delivery,
    touches_prefix: bool,
)
    requires
        hub.policy.epoch < u64::MAX - 1,
        d.policy_epoch == hub.policy.epoch,
    ensures
        ({
            let once = hub.having_adopted(first);
            let twice = once.having_adopted(second);
            let now = |h: WatchHub|
                crate::delivery::PolicyNow { epoch: h.policy.epoch, touches_prefix };
            &&& once.policy.changed == first
            &&& once == (WatchHub { policy: once.policy, ..hub })
            &&& d.policy_terminal_for(now(hub)) is None
            &&& d.policy_terminal_for(now(once)) is Some <==> touches_prefix
            &&& d.policy_terminal_for(now(twice)) is Some
        }),
{
}

/// Reasons of terminations have different names, and so different places.
pub proof fn reasons_are_told_apart(a: TerminationReason, b: TerminationReason)
    ensures
        a.name() == b.name() ==> a == b,
        a.rank() == b.rank() ==> a == b,
        0 <= a.rank() < 10,
{
    reveal_strlit("not_leader");
    reveal_strlit("unavailable");
    reveal_strlit("revision_compacted");
    reveal_strlit("queue_full");
    reveal_strlit("queue_bytes");
    reveal_strlit("broadcast_lagged");
    reveal_strlit("admission_denied");
    reveal_strlit("client_closed");
    reveal_strlit("unauthorized");
    reveal_strlit("policy_changed");
    assert(a.name().len() == b.name().len() && a.name()[0] == b.name()[0] && a.name()[6]
        == b.name()[6] ==> a == b);
}

} // verus!
