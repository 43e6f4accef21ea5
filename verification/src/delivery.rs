//! One watch stream: replay of the journal, then live delivery, under a bounded queue.
//!
//! A stream is a state machine. Whoever runs it reads journal pages, receives live batches and
//! puts items on the stream's queue; each step here takes what was observed and says what to do
//! next, or how the stream ends.

use vstd::prelude::*;

use crate::counters::Counters;
use crate::metrics;
use crate::text;
use crate::time::Duration;
use crate::types;
use crate::types::ConfigError;
use crate::types::ConfigErrorModel;
use crate::types::LeaderHint;
use crate::types::LeaderHintModel;
use crate::types::MutationEvent;
use crate::types::MutationEventKind;
use crate::types::WatchLimits;
use crate::watch::StreamId;
use crate::watch::TerminationReason;

verus! {

/// Journal events read at once during replay.
pub const REPLAY_PAGE: usize = 256;

/// Byte weight charged to one event besides its key and value, so that a stream of removals
/// still counts towards its cap.
pub const EVENT_OVERHEAD_BYTES: u64 = 16;

/// What the hub currently permits.
#[derive(PartialEq, Eq, Debug)]
pub enum HubState {
    /// This node is the leader and may serve watches.
    Serving,
    /// Leadership moved.
    NotLeader { hint: Option<LeaderHint> },
    /// The node stopped.
    Stopped,
}

/// What a [`HubState`] says.
pub enum HubStateModel {
    Serving,
    NotLeader { hint: Option<LeaderHintModel> },
    Stopped,
}

impl View for HubState {
    type V = HubStateModel;

    open spec fn view(&self) -> HubStateModel {
        match self {
            HubState::Serving => HubStateModel::Serving,
            HubState::NotLeader { hint } => HubStateModel::NotLeader {
                hint: types::hint_model(*hint),
            },
            HubState::Stopped => HubStateModel::Stopped,
        }
    }
}

impl HubStateModel {
    /// The error a hub in this state answers with, if any.
    pub open spec fn error(self) -> Option<ConfigErrorModel> {
        match self {
            HubStateModel::Serving => None,
            HubStateModel::NotLeader { hint } => Some(ConfigErrorModel::NotLeader { hint }),
            HubStateModel::Stopped => Some(ConfigErrorModel::unavailable("stopped"@)),
        }
    }

    /// How a stream ends in this state, if it does.
    pub open spec fn terminal(self) -> Option<TerminalModel> {
        match self {
            HubStateModel::Serving => None,
            HubStateModel::NotLeader { hint } => Some(
                TerminalModel {
                    reason: TerminationReason::NotLeader,
                    error: Some(ConfigErrorModel::NotLeader { hint }),
                },
            ),
            HubStateModel::Stopped => Some(
                TerminalModel {
                    reason: TerminationReason::Unavailable,
                    error: Some(ConfigErrorModel::unavailable("stopped"@)),
                },
            ),
        }
    }
}

impl HubState {
    /// The error a hub in this state answers with, if any.
    pub fn hub_error(&self) -> (r: Option<ConfigError>)
        ensures
            match r {
                Some(e) => self@.error() == Some(e@),
                None => self@.error() is None,
            },
    {
        match self {
            HubState::Serving => None,
            HubState::NotLeader { hint } => Some(
                ConfigError::NotLeader { hint: types::clone_hint(hint) },
            ),
            HubState::Stopped => Some(ConfigError::unavailable("stopped")),
        }
    }
}

/// How a stream ended.
#[derive(PartialEq, Eq, Debug)]
pub struct Terminal {
    /// Why.
    pub reason: TerminationReason,
    /// What the client is told; nothing when it is gone.
    pub error: Option<ConfigError>,
}

/// What a [`Terminal`] says.
pub struct TerminalModel {
    pub reason: TerminationReason,
    pub error: Option<ConfigErrorModel>,
}

impl View for Terminal {
    type V = TerminalModel;

    open spec fn view(&self) -> TerminalModel {
        TerminalModel {
            reason: self.reason,
            error: match self.error {
                Some(e) => Some(e@),
                None => None,
            },
        }
    }
}

impl TerminalModel {
    /// A termination the client is told of.
    pub open spec fn told(reason: TerminationReason, error: ConfigErrorModel) -> TerminalModel {
        TerminalModel { reason, error: Some(error) }
    }

    /// A termination without anybody to tell.
    pub open spec fn silent(reason: TerminationReason) -> TerminalModel {
        TerminalModel { reason, error: None }
    }
}

impl Terminal {
    /// A termination the client is told of.
    pub fn new(reason: TerminationReason, error: ConfigError) -> (t: Self)
        ensures
            t@ == TerminalModel::told(reason, error@),
    {
        Terminal { reason, error: Some(error) }
    }

    /// A termination without anybody to tell.
    pub fn silent(reason: TerminationReason) -> (t: Self)
        ensures
            t@ == TerminalModel::silent(reason),
    {
        Terminal { reason, error: None }
    }
}

/// What a step came to: its answer, or how the stream ends.
pub open spec fn step<T>(r: Result<T, Terminal>) -> Result<T, TerminalModel> {
    match r {
        Ok(v) => Ok(v),
        Err(t) => Err(t@),
    }
}

/// What became of putting an item on a stream's queue.
#[derive(Clone, Copy, PartialEq, Eq, Structural, Debug)]
pub enum SendOutcome {
    /// It is on the queue.
    Sent,
    /// The queue was full.
    Full,
    /// The consumer is gone.
    Closed,
}

/// The latest policy adoption, as one stream sees it.
#[derive(Clone, Copy, PartialEq, Eq, Structural, Debug)]
pub struct PolicyNow {
    /// How many adoptions there were.
    pub epoch: u64,
    /// Whether the latest changed grants that overlap the stream's prefix.
    pub touches_prefix: bool,
}

/// What an event weighs against a stream's byte budget.
pub open spec fn event_weight(event: MutationEvent) -> nat {
    event.key@.len() + (match event.kind {
        MutationEventKind::Put { value } => value@.len(),
        MutationEventKind::Delete => 0,
    }) + EVENT_OVERHEAD_BYTES as nat
}

/// What an event weighs.
pub fn event_cost(event: &MutationEvent) -> (cost: u64)
    requires
        event_weight(*event) <= u64::MAX,
    ensures
        cost == event_weight(*event),
{
    let value_len: u64 = match &event.kind {
        MutationEventKind::Put { value } => value.len() as u64,
        MutationEventKind::Delete => 0,
    };
    event.key.len() as u64 + value_len + EVENT_OVERHEAD_BYTES
}

/// Give `cost` bytes back to a stream's budget. An accounting slip costs precision and never
/// wraps the budget around.
pub fn release_bytes(occupancy: &mut u64, cost: u64)
    ensures
        *final(occupancy) == (if *old(occupancy) >= cost {
            *old(occupancy) - cost
        } else {
            0
        }),
{
    *occupancy = occupancy.saturating_sub(cost);
}

/// Whether `key` begins with `prefix`.
pub open spec fn begins_with(key: Seq<u8>, prefix: Seq<u8>) -> bool {
    key.len() >= prefix.len() && key.take(prefix.len() as int) == prefix
}

fn starts_with(key: &Vec<u8>, prefix: &Vec<u8>) -> (r: bool)
    ensures
        r == begins_with(key@, prefix@),
        r == (key@.len() >= prefix@.len() && forall|i: int|
            0 <= i < prefix@.len() ==> #[trigger] key@[i] == prefix@[i]),
{
    proof {
        a_prefix_comes_first(key@, prefix@);
    }
    if key.len() < prefix.len() {
        return false;
    }
    let mut i: usize = 0;
    while i < prefix.len()
        invariant
            i <= prefix@.len() <= key@.len(),
            forall|j: int| 0 <= j < i ==> key@[j] == prefix@[j],
        decreases prefix@.len() - i,
    {
        if key[i] != prefix[i] {
            assert(key@.take(prefix@.len() as int)[i as int] == key@[i as int]);
            return false;
        }
        i = i + 1;
    }
    assert(key@.take(prefix@.len() as int) =~= prefix@);
    true
}

/// The text of a full queue.
pub open spec fn queue_full_text(limits: WatchLimits) -> Seq<char> {
    "this watch's queue of "@ + text::decimal(limits.queue_events as nat)
        + " events is full; resume from the last delivered revision"@
}

/// How a stream ends whose queue is full.
pub open spec fn queue_full_terminal(limits: WatchLimits) -> TerminalModel {
    TerminalModel::told(
        TerminationReason::QueueFull,
        ConfigErrorModel::ResourceExhausted {
            detail: queue_full_text(limits),
            resumable: true,
        },
    )
}

/// How a stream ends whose byte budget an event would exceed.
pub open spec fn queue_bytes_terminal(limits: WatchLimits, queued_bytes: u64) -> TerminalModel {
    TerminalModel::told(
        TerminationReason::QueueBytes,
        ConfigErrorModel::ResourceExhausted {
            detail: "this watch's queue holds "@ + text::decimal(queued_bytes as nat) + " of "@
                + text::decimal(limits.queue_bytes as nat)
                + " permitted bytes and the client is not draining it; resume from the last delivered revision"@,
            resumable: true,
        },
    )
}

/// How a stream ends that fell behind the live buffer.
pub open spec fn lagged_terminal(missed: u64) -> TerminalModel {
    TerminalModel::told(
        TerminationReason::BroadcastLagged,
        ConfigErrorModel::ResourceExhausted {
            detail: "this watch fell "@ + text::decimal(missed as nat)
                + " batches behind the node's live buffer; resume from the last delivered revision"@,
            resumable: true,
        },
    )
}

/// How a stream ends that may no longer read its prefix.
pub open spec fn unauthorized_terminal(principal: Seq<char>) -> TerminalModel {
    TerminalModel::told(
        TerminationReason::Unauthorized,
        ConfigErrorModel::PermissionDenied {
            detail: "principal "@ + text::quoted(principal)
                + " may no longer read a key in this watch's prefix"@,
        },
    )
}

/// How a stream ends whose start was compacted away.
pub open spec fn compacted_terminal(floor: u64) -> TerminalModel {
    TerminalModel::told(
        TerminationReason::RevisionCompacted,
        ConfigErrorModel::RevisionCompacted { minimum_available_revision: (floor + 1) as u64 },
    )
}

fn queue_full(limits: &WatchLimits) -> (t: Terminal)
    ensures
        t@ == queue_full_terminal(*limits),
{
    let mut detail = "this watch's queue of ".to_owned();
    text::push_decimal(&mut detail, limits.queue_events as u128);
    text::push_text(&mut detail, " events is full; resume from the last delivered revision");
    Terminal::new(
        TerminationReason::QueueFull,
        ConfigError::ResourceExhausted { detail, resumable: true },
    )
}

/// One stream.
#[derive(PartialEq, Eq, Debug)]
pub struct Delivery {
    /// Its id on this node.
    pub id: StreamId,
    /// Whose it is.
    pub principal: String,
    /// What it watches.
    pub prefix: Vec<u8>,
    /// The applied revision when it was registered: replay covers up to here, live delivery
    /// everything above.
    pub high_water: u64,
    /// The revision after which events are wanted.
    pub start_after: u64,
    /// The last policy adoption the stream has cleared itself against.
    pub policy_epoch: u64,
    /// How often progress is reported.
    pub progress_interval: Duration,
    /// The highest revision the stream has finished with. This is what progress may claim.
    pub progress_watermark: u64,
    /// Events delivered.
    pub delivered: u64,
    /// The revision of the last event delivered.
    pub last_revision: u64,
    /// Replay has read the journal up to here.
    pub replayed_to: u64,
    /// Replay has nothing more to read.
    pub replay_done: bool,
}

impl Delivery {
    /// A stream that is about to replay.
    pub open spec fn fresh(
        id: StreamId,
        principal: String,
        prefix: Vec<u8>,
        start_after: u64,
        high_water: u64,
        policy_epoch: u64,
        progress_interval: Duration,
    ) -> Delivery {
        Delivery {
            id,
            principal,
            prefix,
            high_water,
            start_after,
            policy_epoch,
            progress_interval,
            progress_watermark: high_water,
            delivered: 0,
            last_revision: start_after,
            replayed_to: start_after,
            replay_done: false,
        }
    }

    /// A stream that is about to replay.
    pub fn start(
        id: StreamId,
        principal: String,
        prefix: Vec<u8>,
        start_after: u64,
        high_water: u64,
        policy_epoch: u64,
        progress_interval: Duration,
    ) -> (d: Self)
        ensures
            d == Delivery::fresh(
                id,
                principal,
                prefix,
                start_after,
                high_water,
                policy_epoch,
                progress_interval,
            ),
    {
        Delivery {
            id,
            principal,
            prefix,
            high_water,
            start_after,
            policy_epoch,
            progress_interval,
            progress_watermark: high_water,
            delivered: 0,
            last_revision: start_after,
            replayed_to: start_after,
            replay_done: false,
        }
    }

    /// Whether replay still has a page to read.
    pub open spec fn replaying(&self) -> bool {
        !self.replay_done && self.replayed_to < self.high_water
    }

    /// Whether an event is wanted that live delivery came upon: what is at or below the
    /// high-water mark was replayed.
    pub open spec fn news(&self, event: MutationEvent) -> bool {
        event.revision > self.high_water
    }

    /// How the stream ends under a policy adoption, if it does: when the adoption touches the
    /// prefix, and when adoptions were missed, whose changes are unknown.
    pub open spec fn policy_terminal_for(&self, now: PolicyNow) -> Option<TerminalModel> {
        if now.epoch > self.policy_epoch && (now.epoch - self.policy_epoch > 1
            || now.touches_prefix) {
            Some(
                TerminalModel::told(
                    TerminationReason::PolicyChanged,
                    ConfigErrorModel::PolicyChanged,
                ),
            )
        } else {
            None
        }
    }

    /// The epoch the stream is cleared against once it has looked at `now` and not ended.
    pub open spec fn cleared(&self, now: PolicyNow) -> u64 {
        if now.epoch > self.policy_epoch {
            now.epoch
        } else {
            self.policy_epoch
        }
    }

    /// End the stream if the hub no longer serves watches.
    pub fn check_state(&self, state: &HubState) -> (r: Result<(), Terminal>)
        ensures
            step(r) == (match state@.terminal() {
                Some(t) => Err(t),
                None => Ok(()),
            }),
    {
        match state {
            HubState::Serving => Ok(()),
            HubState::NotLeader { hint } => Err(
                Terminal::new(
                    TerminationReason::NotLeader,
                    ConfigError::NotLeader { hint: types::clone_hint(hint) },
                ),
            ),
            HubState::Stopped => Err(
                Terminal::new(TerminationReason::Unavailable, ConfigError::unavailable("stopped")),
            ),
        }
    }

    /// End the stream if a policy adoption concerns it; else note that it has been looked at.
    pub fn policy_terminal(&mut self, now: PolicyNow) -> (r: Option<Terminal>)
        ensures
            match r {
                Some(t) => old(self).policy_terminal_for(now) == Some(t@) && *final(self) == *old(
                    self,
                ),
                None => old(self).policy_terminal_for(now) is None && *final(self) == (Delivery {
                    policy_epoch: old(self).cleared(now),
                    ..*old(self)
                }),
            },
    {
        if now.epoch <= self.policy_epoch {
            return None;
        }
        if now.epoch - self.policy_epoch > 1 || now.touches_prefix {
            return Some(
                Terminal::new(TerminationReason::PolicyChanged, ConfigError::PolicyChanged),
            );
        }
        self.policy_epoch = now.epoch;
        None
    }

    /// The revisions of the next journal page, as an exclusive start and an inclusive end, while
    /// there is one to read.
    pub open spec fn next_range(&self) -> Option<(u64, u64)> {
        if self.replaying() {
            Some((self.replayed_to, self.high_water))
        } else {
            None
        }
    }

    /// The revisions of the next journal page to read, as an exclusive start and an inclusive
    /// end; nothing when replay is over.
    pub fn next_page(&self) -> (r: Option<(u64, u64)>)
        ensures
            r == self.next_range(),
    {
        if !self.replay_done && self.replayed_to < self.high_water {
            Some((self.replayed_to, self.high_water))
        } else {
            None
        }
    }

    /// How the stream ends when a page was read and `floor` is the compaction watermark, if it
    /// does.
    pub open spec fn page_terminal(&self, floor: u64) -> Option<TerminalModel> {
        if floor > 0 && self.replayed_to <= floor {
            Some(compacted_terminal(floor))
        } else {
            None
        }
    }

    /// The stream once it has taken a page.
    pub open spec fn past_page(&self, page: Seq<MutationEvent>) -> Delivery {
        Delivery {
            replayed_to: page_end(self.replayed_to, page),
            replay_done: page.len() < REPLAY_PAGE,
            ..*self
        }
    }

    /// Take the journal page that was read. `floor` is the compaction watermark read after the
    /// page: a page that begins at or below it may have lost events, so the stream ends.
    pub fn take_page(&mut self, page: &Vec<MutationEvent>, floor: u64) -> (r: Result<(), Terminal>)
        requires
            floor < u64::MAX,
        ensures
            step(r) == (match old(self).page_terminal(floor) {
                Some(t) => Err(t),
                None => Ok(()),
            }),
            r is Err ==> *final(self) == *old(self),
            r is Ok ==> *final(self) == old(self).past_page(page@),
    {
        if floor > 0 && self.replayed_to <= floor {
            return Err(
                Terminal::new(
                    TerminationReason::RevisionCompacted,
                    ConfigError::RevisionCompacted { minimum_available_revision: floor + 1 },
                ),
            );
        }
        if page.len() > 0 {
            self.replayed_to = page[page.len() - 1].revision;
        }
        self.replay_done = page.len() < REPLAY_PAGE;
        Ok(())
    }

    /// How a stream ends whose journal page could not be read.
    pub fn replay_failed(&self, error: &str) -> (t: Terminal)
        ensures
            t@ == TerminalModel::told(
                TerminationReason::Unavailable,
                ConfigErrorModel::FatalStorage { detail: "journal replay failed: "@ + error@ },
            ),
    {
        Terminal::new(
            TerminationReason::Unavailable,
            ConfigError::FatalStorage { detail: text::two("journal replay failed: ", error) },
        )
    }

    /// How a stream ends whose journal read did not run to its end.
    pub fn replay_aborted(&self, error: &str) -> (t: Terminal)
        ensures
            t@ == TerminalModel::told(
                TerminationReason::Unavailable,
                ConfigErrorModel::unavailable("journal replay task failed: "@ + error@),
            ),
    {
        Terminal::new(
            TerminationReason::Unavailable,
            ConfigError::Unavailable { reason: text::two("journal replay task failed: ", error) },
        )
    }

    /// Look at an event before it is delivered: the stream ends if the policy changed under it;
    /// else the answer is whether the event matches the prefix.
    pub fn screen(&mut self, event: &MutationEvent, now: PolicyNow) -> (r: Result<bool, Terminal>)
        ensures
            step(r) == (match old(self).policy_terminal_for(now) {
                Some(t) => Err(t),
                None => Ok(begins_with(event.key@, old(self).prefix@)),
            }),
            r is Err ==> *final(self) == *old(self),
            r is Ok ==> *final(self) == (Delivery {
                policy_epoch: old(self).cleared(now),
                ..*old(self)
            }),
    {
        match self.policy_terminal(now) {
            Some(t) => Err(t),
            None => Ok(starts_with(&event.key, &self.prefix)),
        }
    }

    /// Decide whether a matching event goes on the queue, and what it costs there.
    /// `authorized` is whether the principal may read the key right now, and `queued_bytes`
    /// what the queue holds.
    pub fn charge(
        &self,
        event: &MutationEvent,
        authorized: bool,
        queued_bytes: u64,
        limits: &WatchLimits,
    ) -> (r: Result<u64, Terminal>)
        requires
            event_weight(*event) <= u64::MAX,
        ensures
            step(r) == (if !authorized {
                Err(unauthorized_terminal(self.principal@))
            } else if queued_bytes + event_weight(*event) > limits.queue_bytes {
                Err(queue_bytes_terminal(*limits, queued_bytes))
            } else {
                Ok(event_weight(*event) as u64)
            }),
            r matches Ok(cost) ==> queued_bytes + cost <= limits.queue_bytes,
    {
        if !authorized {
            let mut detail = "principal ".to_owned();
            text::push_quoted(&mut detail, self.principal.as_str());
            text::push_text(&mut detail, " may no longer read a key in this watch's prefix");
            return Err(
                Terminal::new(
                    TerminationReason::Unauthorized,
                    ConfigError::PermissionDenied { detail },
                ),
            );
        }
        let cost: u64 = event_cost(event);
        if cost > limits.queue_bytes || queued_bytes > limits.queue_bytes - cost {
            let mut detail = "this watch's queue holds ".to_owned();
            text::push_decimal(&mut detail, queued_bytes as u128);
            text::push_text(&mut detail, " of ");
            text::push_decimal(&mut detail, limits.queue_bytes as u128);
            text::push_text(
                &mut detail,
                " permitted bytes and the client is not draining it; resume from the last delivered revision",
            );
            return Err(
                Terminal::new(
                    TerminationReason::QueueBytes,
                    ConfigError::ResourceExhausted { detail, resumable: true },
                ),
            );
        }
        Ok(cost)
    }

    /// What becomes of one event that is about to be sent: how the stream ends, or whether the
    /// event goes on the queue and at what cost.
    pub open spec fn fate(
        &self,
        event: MutationEvent,
        now: PolicyNow,
        authorized: bool,
        queued_bytes: u64,
        limits: WatchLimits,
    ) -> Result<Option<u64>, TerminalModel> {
        match self.policy_terminal_for(now) {
            Some(t) => Err(t),
            None => if !begins_with(event.key@, self.prefix@) {
                Ok(None)
            } else if !authorized {
                Err(unauthorized_terminal(self.principal@))
            } else if queued_bytes + event_weight(event) > limits.queue_bytes {
                Err(queue_bytes_terminal(limits, queued_bytes))
            } else {
                Ok(Some(event_weight(event) as u64))
            },
        }
    }

    /// Decide about one event, replayed or live, that is about to be sent: the stream ends, the
    /// event is not one of the stream's, or it goes on the queue at this cost. `authorized` is
    /// whether the principal may read the key right now, and `queued_bytes` what the queue holds.
    pub fn send_event(
        &mut self,
        event: &MutationEvent,
        now: PolicyNow,
        authorized: bool,
        queued_bytes: u64,
        limits: &WatchLimits,
    ) -> (r: Result<Option<u64>, Terminal>)
        requires
            event_weight(*event) <= u64::MAX,
        ensures
            step(r) == old(self).fate(*event, now, authorized, queued_bytes, *limits),
            r matches Ok(Some(_)) ==> forall|i: int|
                0 <= i < old(self).prefix@.len() ==> i < event.key@.len() && #[trigger] event.key@[i]
                    == old(self).prefix@[i],
            *final(self) == (Delivery {
                policy_epoch: if old(self).policy_terminal_for(now) is Some {
                    old(self).policy_epoch
                } else {
                    old(self).cleared(now)
                },
                ..*old(self)
            }),
    {
        match self.screen(event, now) {
            Err(t) => Err(t),
            Ok(matches) => if !matches {
                Ok(None)
            } else {
                match self.charge(event, authorized, queued_bytes, limits) {
                    Ok(cost) => Ok(Some(cost)),
                    Err(t) => Err(t),
                }
            },
        }
    }

    /// The stream once an event of it is on the queue.
    pub open spec fn having_sent(&self, event: MutationEvent) -> Delivery {
        Delivery {
            delivered: metrics::counted(self.delivered, 1),
            last_revision: event.revision,
            ..*self
        }
    }

    /// Record what became of putting an event on the queue. `queued_bytes` is what the queue
    /// holds with the event, and `free` how many more events it has room for.
    pub fn record_sent(
        &mut self,
        counters: &mut Counters,
        event: &MutationEvent,
        replayed: bool,
        outcome: SendOutcome,
        queued_bytes: u64,
        free: u32,
        limits: &WatchLimits,
    ) -> (r: Result<(), Terminal>)
        requires
            outcome is Sent ==> free <= limits.queue_events,
        ensures
            step(r) == (match outcome {
                SendOutcome::Sent => Ok(()),
                SendOutcome::Full => Err(queue_full_terminal(*limits)),
                SendOutcome::Closed => Err(
                    TerminalModel::silent(TerminationReason::ClientClosed),
                ),
            }),
            r is Err ==> *final(self) == *old(self) && *final(counters) == *old(counters),
            r is Ok ==> *final(self) == old(self).having_sent(*event),
            r is Ok ==> *final(counters) == sent_counts(
                *old(counters),
                replayed,
                (limits.queue_events - free) as u64,
                queued_bytes,
            ),
    {
        match outcome {
            SendOutcome::Sent => {},
            SendOutcome::Full => {
                return Err(queue_full(limits));
            },
            SendOutcome::Closed => {
                return Err(Terminal::silent(TerminationReason::ClientClosed));
            },
        }
        self.delivered = metrics::count_up(self.delivered, 1);
        self.last_revision = event.revision;
        if replayed {
            counters.events_replayed = metrics::count_up(counters.events_replayed, 1);
        } else {
            counters.events_live = metrics::count_up(counters.events_live, 1);
        }
        counters.queue_depth_max = Counters::observe_max(
            counters.queue_depth_max,
            (limits.queue_events - free) as u64,
        );
        counters.queue_bytes_max = Counters::observe_max(counters.queue_bytes_max, queued_bytes);
        Ok(())
    }

    /// Whether an event of a live batch is still to be delivered.
    pub fn is_news(&self, event: &MutationEvent) -> (r: bool)
        ensures
            r == self.news(*event),
    {
        event.revision > self.high_water
    }

    /// The stream once it is done with a live batch.
    pub open spec fn past_batch(&self, applied_revision: u64) -> Delivery {
        Delivery {
            progress_watermark: crate::counters::greater(
                self.progress_watermark,
                applied_revision,
            ),
            ..*self
        }
    }

    /// Every event of a live batch was delivered or is not this stream's: progress may now name
    /// the revision the batch reached.
    pub fn batch_done(&mut self, applied_revision: u64)
        ensures
            *final(self) == old(self).past_batch(applied_revision),
    {
        if applied_revision > self.progress_watermark {
            self.progress_watermark = applied_revision;
        }
    }
}

/// The counters once an event is on a queue, which holds `depth` events and `queued_bytes` with it.
pub open spec fn sent_counts(
    counters: Counters,
    replayed: bool,
    depth: u64,
    queued_bytes: u64,
) -> Counters {
    Counters {
        events_replayed: if replayed {
            metrics::counted(counters.events_replayed, 1)
        } else {
            counters.events_replayed
        },
        events_live: if replayed {
            counters.events_live
        } else {
            metrics::counted(counters.events_live, 1)
        },
        queue_depth_max: crate::counters::greater(counters.queue_depth_max, depth),
        queue_bytes_max: crate::counters::greater(counters.queue_bytes_max, queued_bytes),
        ..counters
    }
}

/// The revision that a page of events reaches, read from `from`.
pub open spec fn page_end(from: u64, page: Seq<MutationEvent>) -> u64 {
    if page.len() == 0 {
        from
    } else {
        page.last().revision
    }
}

/// What a stream in live delivery comes upon.
#[derive(Clone, Copy, PartialEq, Eq, Structural, Debug)]
pub enum LiveEvent {
    /// The hub's state may have changed.
    StateChanged,
    /// A policy was adopted.
    PolicyAdopted,
    /// The hub is gone.
    HubClosed,
    /// A live batch arrived.
    Batch,
    /// Live batches were missed.
    Lagged { missed: u64 },
    /// Nothing more will be published.
    PublisherClosed,
    /// It is time to report progress.
    Tick,
    /// The consumer is gone.
    ClientClosed,
}

/// What a stream in live delivery does next.
#[derive(PartialEq, Eq, Debug)]
pub enum LiveAction {
    /// Wait for the next event.
    Wait,
    /// Deliver the events of the batch.
    Deliver,
    /// Put a progress frame on the queue.
    Progress { revision: u64 },
    /// End.
    End(Terminal),
}

/// What a [`LiveAction`] says.
pub enum LiveActionModel {
    Wait,
    Deliver,
    Progress { revision: u64 },
    End(TerminalModel),
}

impl View for LiveAction {
    type V = LiveActionModel;

    open spec fn view(&self) -> LiveActionModel {
        match self {
            LiveAction::Wait => LiveActionModel::Wait,
            LiveAction::Deliver => LiveActionModel::Deliver,
            LiveAction::Progress { revision } => LiveActionModel::Progress { revision: *revision },
            LiveAction::End(t) => LiveActionModel::End(t@),
        }
    }
}

/// Wait, or end.
pub open spec fn wait_or_end(terminal: Option<TerminalModel>) -> LiveActionModel {
    match terminal {
        Some(t) => LiveActionModel::End(t),
        None => LiveActionModel::Wait,
    }
}

impl Delivery {
    /// What the stream does about an event.
    pub open spec fn reaction(
        &self,
        event: LiveEvent,
        state: HubStateModel,
        now: PolicyNow,
    ) -> LiveActionModel {
        match event {
            LiveEvent::StateChanged => wait_or_end(state.terminal()),
            LiveEvent::PolicyAdopted => wait_or_end(self.policy_terminal_for(now)),
            LiveEvent::HubClosed => LiveActionModel::End(
                TerminalModel::told(
                    TerminationReason::Unavailable,
                    ConfigErrorModel::unavailable("hub closed"@),
                ),
            ),
            LiveEvent::Batch => LiveActionModel::Deliver,
            LiveEvent::Lagged { missed } => LiveActionModel::End(lagged_terminal(missed)),
            LiveEvent::PublisherClosed => LiveActionModel::End(
                TerminalModel::told(
                    TerminationReason::Unavailable,
                    ConfigErrorModel::unavailable("stopped"@),
                ),
            ),
            LiveEvent::Tick => LiveActionModel::Progress { revision: self.progress_watermark },
            LiveEvent::ClientClosed => LiveActionModel::End(
                TerminalModel::silent(TerminationReason::ClientClosed),
            ),
        }
    }

    /// One step of live delivery.
    pub fn live(
        &mut self,
        counters: &mut Counters,
        event: LiveEvent,
        state: &HubState,
        now: PolicyNow,
    ) -> (r: LiveAction)
        ensures
            r@ == old(self).reaction(event, state@, now),
            *final(self) == (Delivery {
                policy_epoch: if event is PolicyAdopted && r@ is Wait {
                    old(self).cleared(now)
                } else {
                    old(self).policy_epoch
                },
                ..*old(self)
            }),
            *final(counters) == (Counters {
                broadcast_lagged: match event {
                    LiveEvent::Lagged { missed } => metrics::counted(
                        old(counters).broadcast_lagged,
                        missed as nat,
                    ),
                    _ => old(counters).broadcast_lagged,
                },
                ..*old(counters)
            }),
    {
        match event {
            LiveEvent::StateChanged => match self.check_state(state) {
                Ok(_) => LiveAction::Wait,
                Err(t) => LiveAction::End(t),
            },
            LiveEvent::PolicyAdopted => match self.policy_terminal(now) {
                None => LiveAction::Wait,
                Some(t) => LiveAction::End(t),
            },
            LiveEvent::HubClosed => LiveAction::End(
                Terminal::new(
                    TerminationReason::Unavailable,
                    ConfigError::unavailable("hub closed"),
                ),
            ),
            LiveEvent::Batch => LiveAction::Deliver,
            LiveEvent::Lagged { missed } => {
                counters.broadcast_lagged = metrics::count_up(counters.broadcast_lagged, missed);
                let mut detail = "this watch fell ".to_owned();
                text::push_decimal(&mut detail, missed as u128);
                text::push_text(
                    &mut detail,
                    " batches behind the node's live buffer; resume from the last delivered revision",
                );
                LiveAction::End(
                    Terminal::new(
                        TerminationReason::BroadcastLagged,
                        ConfigError::ResourceExhausted { detail, resumable: true },
                    ),
                )
            },
            LiveEvent::PublisherClosed => LiveAction::End(
                Terminal::new(TerminationReason::Unavailable, ConfigError::unavailable("stopped")),
            ),
            LiveEvent::Tick => LiveAction::Progress { revision: self.progress_watermark },
            LiveEvent::ClientClosed => LiveAction::End(
                Terminal::silent(TerminationReason::ClientClosed),
            ),
        }
    }

    /// Record what became of a progress frame.
    pub fn record_progress(
        &self,
        counters: &mut Counters,
        outcome: SendOutcome,
        limits: &WatchLimits,
    ) -> (r: Result<(), Terminal>)
        ensures
            step(r) == (match outcome {
                SendOutcome::Sent => Ok(()),
                SendOutcome::Full => Err(queue_full_terminal(*limits)),
                SendOutcome::Closed => Err(
                    TerminalModel::silent(TerminationReason::ClientClosed),
                ),
            }),
            *final(counters) == (Counters {
                progress_sent: if outcome is Sent {
                    metrics::counted(old(counters).progress_sent, 1)
                } else {
                    old(counters).progress_sent
                },
                ..*old(counters)
            }),
    {
        match outcome {
            SendOutcome::Sent => {
                counters.progress_sent = metrics::count_up(counters.progress_sent, 1);
                Ok(())
            },
            SendOutcome::Full => Err(queue_full(limits)),
            SendOutcome::Closed => Err(Terminal::silent(TerminationReason::ClientClosed)),
        }
    }
}

/// A key is under a prefix exactly when it is the prefix with something behind it: it is at least
/// as long, and agrees with the prefix in every place the prefix has.
pub proof fn a_prefix_comes_first(key: Seq<u8>, prefix: Seq<u8>)
    ensures
        begins_with(key, prefix) <==> exists|rest: Seq<u8>| key == #[trigger] (prefix + rest),
        begins_with(key, prefix) <==> key.len() >= prefix.len() && forall|i: int|
            0 <= i < prefix.len() ==> #[trigger] key[i] == prefix[i],
{
    if begins_with(key, prefix) {
        let rest = key.skip(prefix.len() as int);
        assert(key =~= prefix + rest);
        assert forall|i: int| 0 <= i < prefix.len() implies #[trigger] key[i] == prefix[i] by {
            assert(key.take(prefix.len() as int)[i] == key[i]);
        }
    }
    if exists|rest: Seq<u8>| key == #[trigger] (prefix + rest) {
        let rest = choose|rest: Seq<u8>| key == #[trigger] (prefix + rest);
        assert((prefix + rest).take(prefix.len() as int) =~= prefix);
    }
    if key.len() >= prefix.len() && forall|i: int|
        0 <= i < prefix.len() ==> #[trigger] key[i] == prefix[i] {
        assert(key.take(prefix.len() as int) =~= prefix);
    }
}

/// An event goes on a stream's queue exactly when no policy adoption ends the stream, the key is
/// under the prefix, the principal may read it, and the queue has room for the bytes of its key
/// and value and the sixteen every event is charged. That is what it costs there. It is passed
/// over exactly when the stream goes on and the key is not under the prefix. A stream that ends
/// says why, and what exceeds the queue can be resumed.
pub proof fn an_event_is_sent_exactly_when_it_is_wanted(
    d: Delivery,
    event: MutationEvent,
    now: PolicyNow,
    authorized: bool,
    queued_bytes: u64,
    limits: WatchLimits,
)
    requires
        event_weight(event) <= u64::MAX,
    ensures
        ({
            let fate = d.fate(event, now, authorized, queued_bytes, limits);
            let ends = now.epoch > d.policy_epoch && (now.epoch > d.policy_epoch + 1
                || now.touches_prefix);
            let under = event.key@.len() >= d.prefix@.len() && forall|i: int|
                0 <= i < d.prefix@.len() ==> #[trigger] event.key@[i] == d.prefix@[i];
            let bytes = 16 + event.key@.len() + (match event.kind {
                MutationEventKind::Put { value } => value@.len(),
                MutationEventKind::Delete => 0,
            });
            let fits = queued_bytes + bytes <= limits.queue_bytes;
            &&& fate is Ok && fate->Ok_0 is Some <==> !ends && under && authorized && fits
            &&& fate matches Ok(Some(cost)) ==> cost == bytes
            &&& fate == Ok::<Option<u64>, TerminalModel>(None) <==> !ends && !under
            &&& fate matches Err(t) ==> t.reason == (if ends {
                TerminationReason::PolicyChanged
            } else if !authorized {
                TerminationReason::Unauthorized
            } else {
                TerminationReason::QueueBytes
            })
            &&& fate matches Err(t) ==> t.error is Some && match t.error->0 {
                ConfigErrorModel::PolicyChanged => ends,
                ConfigErrorModel::PermissionDenied { .. } => !ends && !authorized,
                ConfigErrorModel::ResourceExhausted { resumable, .. } => !ends && authorized
                    && resumable,
                _ => false,
            }
        }),
{
    a_prefix_comes_first(event.key@, d.prefix@);
}

/// A stream that goes on past a policy adoption has cleared itself against it, and never falls
/// back behind one it has cleared: it ends under an adoption that touches its prefix, and under
/// one that follows another it has not seen.
pub proof fn no_adoption_is_passed_over(d: Delivery, now: PolicyNow)
    ensures
        now.epoch <= d.cleared(now),
        d.policy_epoch <= d.cleared(now),
        d.cleared(now) == now.epoch || d.cleared(now) == d.policy_epoch,
        d.policy_terminal_for(now) is None <==> now.epoch <= d.policy_epoch || (now.epoch
            == d.policy_epoch + 1 && !now.touches_prefix),
        d.policy_terminal_for(now) matches Some(t) ==> t.reason == TerminationReason::PolicyChanged
            && t.error == Some(ConfigErrorModel::PolicyChanged),
{
}

/// A page that was read from a place that is compacted away ends the stream, because events may be
/// missing from it, and the client learns where history begins now. Any other page is taken: the
/// stream has then read up to the page's last event, and replay is over once a page is short.
pub proof fn a_page_is_taken_whole_or_not_at_all(
    d: Delivery,
    page: Seq<MutationEvent>,
    floor: u64,
)
    requires
        floor < u64::MAX,
    ensures
        d.page_terminal(floor) is Some <==> floor != 0 && d.replayed_to <= floor,
        d.page_terminal(floor) matches Some(t) ==> t.reason == TerminationReason::RevisionCompacted
            && (t.error matches Some(ConfigErrorModel::RevisionCompacted {
            minimum_available_revision,
        }) && minimum_available_revision == floor + 1),
        d.past_page(page) == (Delivery {
            replayed_to: d.past_page(page).replayed_to,
            replay_done: d.past_page(page).replay_done,
            ..d
        }),
        page.len() == 0 ==> d.past_page(page).replayed_to == d.replayed_to,
        page.len() > 0 ==> d.past_page(page).replayed_to == page[page.len() - 1].revision,
        d.past_page(page).replay_done <==> page.len() < 256,
{
}

/// Replay asks for history from where it stopped up to where live delivery takes over, and is
/// over only when nothing is left in between or the journal had no more.
pub proof fn replay_goes_on_until_live_takes_over(d: Delivery)
    ensures
        d.replaying() <==> !d.replay_done && d.replayed_to < d.high_water,
        d.next_range() matches Some((from, to)) ==> from == d.replayed_to && to == d.high_water
            && from < to,
        d.next_range() is None <==> d.replay_done || d.replayed_to >= d.high_water,
        !d.replaying() && !d.replay_done ==> d.replayed_to >= d.high_water,
{
}

/// An event that was sent is counted once, as replayed or as live, and is the last the stream
/// delivered; the high marks cover what the queue held with it and are never lowered.
pub proof fn a_sent_event_counts_once(
    d: Delivery,
    counters: Counters,
    event: MutationEvent,
    replayed: bool,
    depth: u64,
    queued_bytes: u64,
)
    requires
        d.delivered < u64::MAX,
        counters.events_replayed < u64::MAX,
        counters.events_live < u64::MAX,
    ensures
        ({
            let after = sent_counts(counters, replayed, depth, queued_bytes);
            &&& d.having_sent(event).delivered == d.delivered + 1
            &&& d.having_sent(event).last_revision == event.revision
            &&& d.having_sent(event) == (Delivery {
                delivered: (d.delivered + 1) as u64,
                last_revision: event.revision,
                ..d
            })
            &&& after.events_replayed - counters.events_replayed == (if replayed {
                1int
            } else {
                0
            })
            &&& after.events_live - counters.events_live == (if replayed {
                0int
            } else {
                1
            })
            &&& depth <= after.queue_depth_max && counters.queue_depth_max <= after.queue_depth_max
            &&& after.queue_depth_max == depth || after.queue_depth_max == counters.queue_depth_max
            &&& queued_bytes <= after.queue_bytes_max && counters.queue_bytes_max
                <= after.queue_bytes_max
            &&& after.queue_bytes_max == queued_bytes || after.queue_bytes_max
                == counters.queue_bytes_max
            &&& after == (Counters {
                events_replayed: after.events_replayed,
                events_live: after.events_live,
                queue_depth_max: after.queue_depth_max,
                queue_bytes_max: after.queue_bytes_max,
                ..counters
            })
        }),
{
}

/// A stream in live delivery ends on its own for four reasons only, and always on these: the hub
/// stopped serving, a policy adoption concerns it, live batches were missed, or an end of the line
/// was closed. A batch is delivered, and progress claims what the stream has finished with and
/// nothing else. Whoever is still there is told; only a client that went away is not.
pub proof fn live_delivery_ends_only_for_cause(
    d: Delivery,
    event: LiveEvent,
    state: HubStateModel,
    now: PolicyNow,
)
    ensures
        ({
            let action = d.reaction(event, state, now);
            let concerned = now.epoch > d.policy_epoch && (now.epoch > d.policy_epoch + 1
                || now.touches_prefix);
            let ends = match event {
                LiveEvent::StateChanged => !(state is Serving),
                LiveEvent::PolicyAdopted => concerned,
                LiveEvent::Batch | LiveEvent::Tick => false,
                _ => true,
            };
            &&& action is End <==> ends
            &&& action is Deliver <==> event is Batch
            &&& action is Progress <==> event is Tick
            &&& action matches LiveActionModel::Progress { revision } ==> revision
                == d.progress_watermark
            &&& action matches LiveActionModel::End(t) ==> (t.error is None <==> event
                is ClientClosed)
            &&& action matches LiveActionModel::End(t) ==> t.reason == (match event {
                LiveEvent::StateChanged => if state is Stopped {
                    TerminationReason::Unavailable
                } else {
                    TerminationReason::NotLeader
                },
                LiveEvent::PolicyAdopted => TerminationReason::PolicyChanged,
                LiveEvent::Lagged { .. } => TerminationReason::BroadcastLagged,
                LiveEvent::ClientClosed => TerminationReason::ClientClosed,
                _ => TerminationReason::Unavailable,
            })
            &&& event is Lagged && action is End ==> (action->End_0.error matches Some(
                ConfigErrorModel::ResourceExhausted { resumable, .. },
            ) && resumable)
        }),
{
}

/// A stream of a hub that serves goes on; one of a hub that does not ends, and its client is told
/// who leads now, if this node knows, or that the node was stopped. A hub answers a new watch with
/// the same error that ends the streams it has.
pub proof fn streams_end_when_the_hub_stops_serving(state: HubStateModel)
    ensures
        state.terminal() is None <==> state is Serving,
        state.error() is None <==> state is Serving,
        state.terminal() matches Some(t) ==> t.error == state.error(),
        state matches HubStateModel::NotLeader { hint } ==> state.error() == Some(
            ConfigErrorModel::NotLeader { hint },
        ) && state.terminal()->0.reason == TerminationReason::NotLeader,
        state is Stopped ==> state.error()->0 is Unavailable && state.terminal()->0.reason
            == TerminationReason::Unavailable,
{
}

/// A stream whose queue is full ends in a way that its client can resume from, and is told so; one
/// whose client is gone tells nobody.
pub proof fn a_full_queue_can_be_resumed(limits: WatchLimits, queued_bytes: u64, missed: u64)
    ensures
        queue_full_terminal(limits).reason == TerminationReason::QueueFull,
        queue_full_terminal(limits).error matches Some(
            ConfigErrorModel::ResourceExhausted { resumable, .. },
        ) && resumable,
        queue_bytes_terminal(limits, queued_bytes).reason == TerminationReason::QueueBytes,
        queue_bytes_terminal(limits, queued_bytes).error matches Some(
            ConfigErrorModel::ResourceExhausted { resumable, .. },
        ) && resumable,
        lagged_terminal(missed).reason == TerminationReason::BroadcastLagged,
        lagged_terminal(missed).error matches Some(
            ConfigErrorModel::ResourceExhausted { resumable, .. },
        ) && resumable,
        TerminalModel::silent(TerminationReason::ClientClosed).error is None,
        TerminalModel::silent(TerminationReason::ClientClosed).reason
            == TerminationReason::ClientClosed,
{
}

/// What an event weighs is what its key and value take, and the same for every event on top, so
/// that removals count too.
pub proof fn an_event_weighs_what_it_carries(event: MutationEvent)
    ensures
        event.kind matches MutationEventKind::Put { value } ==> event_weight(event)
            == event.key@.len() + value@.len() + 16,
        event.kind is Delete ==> event_weight(event) == event.key@.len() + 16,
{
}

/// How a stream stands is seen as it is.
pub proof fn streams_are_seen_as_they_are(state: HubState, terminal: Terminal, action: LiveAction)
    ensures
        state is Serving <==> state@ is Serving,
        state is Stopped <==> state@ is Stopped,
        state matches HubState::NotLeader { hint } ==> state@ == (HubStateModel::NotLeader {
            hint: types::hint_model(hint),
        }),
        terminal@.reason == terminal.reason,
        terminal@.error is Some <==> terminal.error is Some,
        terminal.error matches Some(e) ==> terminal@.error == Some(e@),
        action is Wait <==> action@ is Wait,
        action is Deliver <==> action@ is Deliver,
        action matches LiveAction::Progress { revision } ==> action@ == (
        LiveActionModel::Progress { revision }),
        action matches LiveAction::End(t) ==> action@ == LiveActionModel::End(t@),
{
}

/// A stream that is done with a batch may claim progress up to where the batch reached, never less
/// than it claimed before, and nothing else of it changes.
pub proof fn progress_never_goes_back(d: Delivery, applied_revision: u64)
    ensures
        ({
            let after = d.past_batch(applied_revision);
            &&& d.progress_watermark <= after.progress_watermark
            &&& applied_revision <= after.progress_watermark
            &&& after.progress_watermark == d.progress_watermark || after.progress_watermark
                == applied_revision
            &&& after == (Delivery { progress_watermark: after.progress_watermark, ..d })
        }),
{
}

} // verus!
