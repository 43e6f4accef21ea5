//! The counters of a node's watches.

use vstd::prelude::*;

use crate::metrics;
use crate::watch::TerminationReason;

verus! {

/// The greater of two numbers.
pub open spec fn greater(a: u64, b: u64) -> u64 {
    if a >= b {
        a
    } else {
        b
    }
}

/// Watch counters since the node started.
pub struct Counters {
    /// Streams let in.
    pub started: u64,
    /// Events delivered from the journal.
    pub events_replayed: u64,
    /// Events delivered live.
    pub events_live: u64,
    /// Progress frames delivered.
    pub progress_sent: u64,
    /// Deepest queue seen.
    pub queue_depth_max: u64,
    /// Fullest queue seen, in bytes.
    pub queue_bytes_max: u64,
    /// Publishes that would have blocked.
    pub publish_would_block: u64,
    /// Live batches that streams missed.
    pub broadcast_lagged: u64,
    /// Terminations by reason, in the order of declaration.
    pub terminated: [u64; 10],
}

/// Whether `s` lists each reason that has occurred and how often, in the order of declaration.
pub open spec fn lists_terminations(s: Seq<(TerminationReason, u64)>, c: Counters) -> bool {
    &&& forall|i: int|
        0 <= i < s.len() ==> (#[trigger] s[i]).1 > 0 && s[i].1 == c.terminations(s[i].0)
    &&& forall|i: int, j: int|
        0 <= i < j < s.len() ==> (#[trigger] s[i]).0.rank() < (#[trigger] s[j]).0.rank()
    &&& forall|reason: TerminationReason| #[trigger]
        c.terminations(reason) > 0 ==> s.contains((reason, c.terminations(reason)))
}

impl Counters {
    /// Every counter at zero.
    pub open spec fn zero(&self) -> bool {
        &&& self.started == 0
        &&& self.events_replayed == 0
        &&& self.events_live == 0
        &&& self.progress_sent == 0
        &&& self.queue_depth_max == 0
        &&& self.queue_bytes_max == 0
        &&& self.publish_would_block == 0
        &&& self.broadcast_lagged == 0
        &&& forall|reason: TerminationReason| #[trigger] self.terminations(reason) == 0
    }

    /// How often streams ended for `reason`.
    pub open spec fn terminations(&self, reason: TerminationReason) -> u64 {
        self.terminated@[reason.rank()]
    }

    /// The counters after one more termination for `reason`.
    pub open spec fn after_termination(&self, reason: TerminationReason, after: Counters) -> bool {
        &&& after == Counters { terminated: after.terminated, ..*self }
        &&& after.terminated@ == self.terminated@.update(
            reason.rank(),
            metrics::counted(self.terminations(reason), 1),
        )
    }

    /// Nothing has happened.
    pub fn new() -> (c: Self)
        ensures
            c.zero(),
    {
        Counters {
            started: 0,
            events_replayed: 0,
            events_live: 0,
            progress_sent: 0,
            queue_depth_max: 0,
            queue_bytes_max: 0,
            publish_would_block: 0,
            broadcast_lagged: 0,
            terminated: [0; 10],
        }
    }

    /// Count one termination.
    pub fn terminate(&mut self, reason: TerminationReason)
        ensures
            old(self).after_termination(reason, *final(self)),
    {
        let i: usize = place_of(reason);
        self.terminated[i] = metrics::count_up(self.terminated[i], 1);
    }

    /// The greater of what was seen before and what is seen now.
    pub fn observe_max(seen: u64, value: u64) -> (r: u64)
        ensures
            r == greater(seen, value),
    {
        if seen >= value {
            seen
        } else {
            value
        }
    }

    /// Each reason that has occurred and how often, in the order of declaration.
    pub fn terminated_by_reason(&self) -> (r: Vec<(TerminationReason, u64)>)
        ensures
            lists_terminations(r@, *self),
    {
        let mut out: Vec<(TerminationReason, u64)> = Vec::new();
        let mut k: usize = 0;
        while k < 10
            invariant
                k <= 10,
                forall|i: int|
                    0 <= i < out@.len() ==> (#[trigger] out@[i]).1 > 0 && out@[i].1
                        == self.terminations(out@[i].0) && out@[i].0.rank() < k,
                forall|i: int, j: int|
                    0 <= i < j < out@.len() ==> (#[trigger] out@[i]).0.rank() < (
                    #[trigger] out@[j]).0.rank(),
                forall|reason: TerminationReason|
                    reason.rank() < k && #[trigger] self.terminations(reason) > 0 ==> out@.contains(
                        (reason, self.terminations(reason)),
                    ),
            decreases 10 - k,
        {
            let ghost before = out@;
            let reason = reason_at(k);
            if self.terminated[k] > 0 {
                out.push((reason, self.terminated[k]));
            }
            proof {
                assert forall|q: TerminationReason|
                    q.rank() < k + 1 && #[trigger] self.terminations(q) > 0 implies out@.contains(
                    (q, self.terminations(q)),
                ) by {
                    if q.rank() < k {
                        let i = choose|i: int|
                            0 <= i < before.len() && before[i] == (q, self.terminations(q));
                        assert(out@[i] == before[i]);
                    } else {
                        assert(q == reason);
                        assert(out@[before.len() as int] == (q, self.terminations(q)));
                    }
                }
            }
            k = k + 1;
        }
        out
    }
}

fn place_of(reason: TerminationReason) -> (i: usize)
    ensures
        i == reason.rank(),
        i < 10,
{
    match reason {
        TerminationReason::NotLeader => 0,
        TerminationReason::Unavailable => 1,
        TerminationReason::RevisionCompacted => 2,
        TerminationReason::QueueFull => 3,
        TerminationReason::QueueBytes => 4,
        TerminationReason::BroadcastLagged => 5,
        TerminationReason::AdmissionDenied => 6,
        TerminationReason::ClientClosed => 7,
        TerminationReason::Unauthorized => 8,
        TerminationReason::PolicyChanged => 9,
    }
}

fn reason_at(i: usize) -> (reason: TerminationReason)
    requires
        i < 10,
    ensures
        reason.rank() == i,
{
    if i == 0 {
        TerminationReason::NotLeader
    } else if i == 1 {
        TerminationReason::Unavailable
    } else if i == 2 {
        TerminationReason::RevisionCompacted
    } else if i == 3 {
        TerminationReason::QueueFull
    } else if i == 4 {
        TerminationReason::QueueBytes
    } else if i == 5 {
        TerminationReason::BroadcastLagged
    } else if i == 6 {
        TerminationReason::AdmissionDenied
    } else if i == 7 {
        TerminationReason::ClientClosed
    } else if i == 8 {
        TerminationReason::Unauthorized
    } else {
        TerminationReason::PolicyChanged
    }
}

/// The greater of two is neither's lesser, and one of them.
pub proof fn the_greater_covers_both(a: u64, b: u64)
    ensures
        a <= greater(a, b),
        b <= greater(a, b),
        greater(a, b) == a || greater(a, b) == b,
{
}

/// A termination is counted under its own reason, and under no other: whatever ended a stream, it
/// shows in one place.
pub proof fn a_termination_counts_under_its_reason(
    before: Counters,
    reason: TerminationReason,
    after: Counters,
    other: TerminationReason,
)
    requires
        before.after_termination(reason, after),
        before.terminations(reason) < u64::MAX,
    ensures
        after.terminations(reason) == before.terminations(reason) + 1,
        other != reason ==> after.terminations(other) == before.terminations(other),
        after.started == before.started,
        after.events_replayed == before.events_replayed,
        after.events_live == before.events_live,
        after.progress_sent == before.progress_sent,
        after.queue_depth_max == before.queue_depth_max,
        after.queue_bytes_max == before.queue_bytes_max,
        after.publish_would_block == before.publish_would_block,
        after.broadcast_lagged == before.broadcast_lagged,
{
}

/// Terminations are listed by reason: each that occurred once, with its count, and no other.
pub proof fn the_listing_shows_what_ended_streams(
    s: Seq<(TerminationReason, u64)>,
    c: Counters,
    reason: TerminationReason,
)
    requires
        lists_terminations(s, c),
    ensures
        c.terminations(reason) > 0 <==> exists|i: int|
            0 <= i < s.len() && (#[trigger] s[i]).0 == reason,
        forall|i: int|
            0 <= i < s.len() && (#[trigger] s[i]).0 == reason ==> s[i].1 == c.terminations(reason),
        forall|i: int, j: int|
            0 <= i < j < s.len() ==> (#[trigger] s[i]).0 != (#[trigger] s[j]).0,
{
    if c.terminations(reason) > 0 {
        assert(s.contains((reason, c.terminations(reason))));
        let i = choose|i: int| 0 <= i < s.len() && s[i] == (reason, c.terminations(reason));
        assert(s[i].0 == reason);
    }
    if exists|i: int| 0 <= i < s.len() && (#[trigger] s[i]).0 == reason {
        let i = choose|i: int| 0 <= i < s.len() && (#[trigger] s[i]).0 == reason;
        assert(s[i].1 > 0);
    }
}

/// New counters have counted nothing.
pub proof fn new_counters_have_counted_nothing(c: Counters, reason: TerminationReason)
    requires
        c.zero(),
    ensures
        c.started == 0 && c.events_replayed == 0 && c.events_live == 0 && c.progress_sent == 0,
        c.queue_depth_max == 0 && c.queue_bytes_max == 0,
        c.publish_would_block == 0 && c.broadcast_lagged == 0,
        c.terminations(reason) == 0,
{
}

} // verus!
