//! When the leader compacts its journal.

use vstd::prelude::*;

use crate::types::WatchRetention;

verus! {

/// Which ceiling asked for a compaction.
#[derive(Clone, Copy, PartialEq, Eq, Structural, Debug)]
pub enum RetentionReason {
    /// More retained revisions than allowed.
    Revisions,
    /// More retained bytes than allowed.
    Bytes,
    /// Retained history older than allowed.
    Age,
}

impl RetentionReason {
    /// The name of a reason.
    pub open spec fn name(self) -> Seq<char> {
        match self {
            RetentionReason::Revisions => "revisions"@,
            RetentionReason::Bytes => "bytes"@,
            RetentionReason::Age => "age"@,
        }
    }

    /// The log spelling of this reason.
    pub fn as_str(self) -> (r: &'static str)
        ensures
            r@ == self.name(),
    {
        match self {
            RetentionReason::Revisions => "revisions",
            RetentionReason::Bytes => "bytes",
            RetentionReason::Age => "age",
        }
    }
}

/// What the leader knows about one node's journal.
#[derive(Clone, Copy, PartialEq, Eq, Structural, Debug)]
pub struct JournalView {
    /// Oldest retained revision, or `0` when the journal is empty.
    pub oldest_revision: u64,
    /// Newest retained revision, or `0` when the journal is empty.
    pub newest_revision: u64,
    /// Retained events.
    pub count: u64,
    /// Retained serialized bytes.
    pub bytes: u64,
}

/// Subtraction that stops at zero.
pub open spec fn minus(a: u64, b: u64) -> u64 {
    if a >= b {
        (a - b) as u64
    } else {
        0
    }
}

/// Addition that stops at the largest value.
pub open spec fn plus(a: u64, b: u64) -> u64 {
    if a + b <= u64::MAX {
        (a + b) as u64
    } else {
        u64::MAX
    }
}

/// Up to where the ceiling on revisions asks to compact; zero when it asks for nothing.
pub open spec fn revisions_target(view: JournalView, retention: WatchRetention) -> u64 {
    if retention.max_revisions > 0 && view.count > retention.max_revisions {
        minus(view.newest_revision, retention.max_revisions)
    } else {
        0
    }
}

/// How many revisions the ceiling on bytes drops: the same share of the revisions as the share
/// of the bytes that is over, and at least one.
pub open spec fn dropped_for_bytes(view: JournalView, max_bytes: u64) -> u64 {
    let share = ((view.bytes - max_bytes) * view.count) / (view.bytes as int);
    if share < 1 {
        1
    } else {
        share as u64
    }
}

/// Up to where the ceiling on bytes asks to compact; zero when it asks for nothing.
pub open spec fn bytes_target(view: JournalView, retention: WatchRetention) -> u64 {
    if retention.max_bytes > 0 && view.bytes > retention.max_bytes && view.count > 0 {
        minus(plus(view.oldest_revision, dropped_for_bytes(view, retention.max_bytes)), 1)
    } else {
        0
    }
}

/// Up to where the ceiling on age asks to compact; zero when it asks for nothing.
pub open spec fn age_target(
    view: JournalView,
    retention: WatchRetention,
    oldest_within_max_age: u64,
) -> u64 {
    if retention.max_age.nanos != 0 && oldest_within_max_age > view.oldest_revision {
        minus(oldest_within_max_age, 1)
    } else {
        0
    }
}

/// The furthest of the three targets, the first that reaches it deciding the reason.
pub open spec fn furthest(
    view: JournalView,
    retention: WatchRetention,
    oldest_within_max_age: u64,
) -> Option<(u64, RetentionReason)> {
    let revisions = revisions_target(view, retention);
    let bytes = bytes_target(view, retention);
    let age = age_target(view, retention, oldest_within_max_age);
    if age > revisions && age > bytes {
        Some((age, RetentionReason::Age))
    } else if bytes > revisions {
        Some((bytes, RetentionReason::Bytes))
    } else if revisions > 0 {
        Some((revisions, RetentionReason::Revisions))
    } else {
        None
    }
}

/// The watermark to propose: the furthest target, but nothing above what is retained, and
/// nothing that is not ahead of the current watermark.
pub open spec fn target(
    view: JournalView,
    retention: WatchRetention,
    compact_revision: u64,
    oldest_within_max_age: u64,
) -> Option<(u64, RetentionReason)> {
    match furthest(view, retention, oldest_within_max_age) {
        Some((t, reason)) => {
            let capped = if t < view.newest_revision {
                t
            } else {
                view.newest_revision
            };
            if capped > compact_revision {
                Some((capped, reason))
            } else {
                None
            }
        },
        None => None,
    }
}

/// Decide the watermark to propose, if any.
pub fn retention_target(
    view: JournalView,
    retention: &WatchRetention,
    compact_revision: u64,
    oldest_within_max_age: u64,
) -> (r: Option<(u64, RetentionReason)>)
    ensures
        r == target(view, *retention, compact_revision, oldest_within_max_age),
{
    let mut best: u64 = 0;
    let mut reason: RetentionReason = RetentionReason::Revisions;
    if retention.max_revisions > 0 && view.count > retention.max_revisions {
        best = view.newest_revision.saturating_sub(retention.max_revisions);
    }
    if retention.max_bytes > 0 && view.bytes > retention.max_bytes && view.count > 0 {
        let over: u64 = view.bytes - retention.max_bytes;
        assert(over as int * view.count as int <= u64::MAX * u64::MAX) by (nonlinear_arith)
            requires
                over <= u64::MAX,
                view.count <= u64::MAX,
        ;
        let scaled: u128 = over as u128 * view.count as u128;
        let share: u128 = scaled / view.bytes as u128;
        assert(share <= view.count) by (nonlinear_arith)
            requires
                scaled == over * view.count,
                over <= view.bytes,
                view.bytes > 0,
                share == scaled / view.bytes as u128,
        ;
        let dropped: u64 = if share < 1 {
            1
        } else {
            share as u64
        };
        let t: u64 = view.oldest_revision.saturating_add(dropped).saturating_sub(1);
        if t > best {
            best = t;
            reason = RetentionReason::Bytes;
        }
    }
    if !retention.max_age.is_zero() && oldest_within_max_age > view.oldest_revision {
        let t: u64 = oldest_within_max_age.saturating_sub(1);
        if t > best {
            best = t;
            reason = RetentionReason::Age;
        }
    }
    if best == 0 {
        return None;
    }
    let capped: u64 = if best < view.newest_revision {
        best
    } else {
        view.newest_revision
    };
    if capped > compact_revision {
        Some((capped, reason))
    } else {
        None
    }
}

/// What is proposed is always ahead of the current watermark and never beyond what is
/// retained: compaction only moves forward, and never deletes what is not there.
pub proof fn proposals_move_forward(
    view: JournalView,
    retention: WatchRetention,
    compact_revision: u64,
    oldest_within_max_age: u64,
)
    ensures
        target(view, retention, compact_revision, oldest_within_max_age) matches Some((t, _)) ==> {
            &&& compact_revision < t
            &&& t <= view.newest_revision
        },
{
}

/// With every ceiling disabled nothing is ever proposed.
pub proof fn disabled_ceilings_propose_nothing(
    view: JournalView,
    retention: WatchRetention,
    compact_revision: u64,
    oldest_within_max_age: u64,
)
    requires
        retention.max_revisions == 0,
        retention.max_bytes == 0,
        retention.max_age.nanos == 0,
    ensures
        target(view, retention, compact_revision, oldest_within_max_age) is None,
{
}

/// A journal over its byte budget always gets something proposed, however small its oldest
/// events are: it cannot stay over budget for good.
pub proof fn over_budget_always_proposes(
    view: JournalView,
    retention: WatchRetention,
    compact_revision: u64,
    oldest_within_max_age: u64,
)
    requires
        retention.max_bytes > 0,
        view.bytes > retention.max_bytes,
        view.count > 0,
        compact_revision < view.oldest_revision <= view.newest_revision,
        view.oldest_revision < u64::MAX,
    ensures
        target(view, retention, compact_revision, oldest_within_max_age) is Some,
{
    let over = view.bytes - retention.max_bytes;
    let share = (over * view.count) / (view.bytes as int);
    assert(0 <= share <= view.count) by (nonlinear_arith)
        requires
            0 <= over <= view.bytes,
            view.bytes > 0,
            share == (over * view.count) / (view.bytes as int),
    ;
}

/// Differences stop at zero and sums at the largest number; short of that they are exact.
pub proof fn sums_and_differences_saturate(a: u64, b: u64)
    ensures
        b <= a ==> minus(a, b) + b == a,
        a <= b ==> minus(a, b) == 0,
        a + b <= u64::MAX ==> plus(a, b) == a + b,
        a + b >= u64::MAX ==> plus(a, b) == u64::MAX,
{
}

/// A proposal takes from history what its ceiling asks for and no more. Under the ceiling on
/// revisions, as many of the newest as are to be kept stay. Under the one on age, nothing goes
/// that is within the limit. Under the one on bytes, what goes is one event, or no more events
/// than make up the excess when every event has the same size.
pub proof fn no_ceiling_takes_more_than_it_asks(
    view: JournalView,
    retention: WatchRetention,
    compact_revision: u64,
    oldest_within_max_age: u64,
)
    requires
        target(view, retention, compact_revision, oldest_within_max_age) is Some,
    ensures
        ({
            let (t, reason) = target(
                view,
                retention,
                compact_revision,
                oldest_within_max_age,
            )->Some_0;
            match reason {
                RetentionReason::Revisions => {
                    &&& 0 < retention.max_revisions < view.count
                    &&& t + retention.max_revisions <= view.newest_revision
                },
                RetentionReason::Bytes => {
                    &&& 0 < retention.max_bytes < view.bytes
                    &&& view.count > 0
                    &&& t <= view.oldest_revision || (t - view.oldest_revision + 1) * view.bytes <= (
                    view.bytes - retention.max_bytes) * view.count
                },
                RetentionReason::Age => {
                    &&& retention.max_age.nanos != 0
                    &&& t < oldest_within_max_age
                    &&& oldest_within_max_age > view.oldest_revision
                },
            }
        }),
{
    let (t, reason) = target(view, retention, compact_revision, oldest_within_max_age)->Some_0;
    if reason is Bytes && t > view.oldest_revision {
        let excess = (view.bytes - retention.max_bytes) * view.count;
        let share = excess / (view.bytes as int);
        a_share_fits(excess, view.bytes as int);
        assert(excess >= 0) by (nonlinear_arith)
            requires
                excess == (view.bytes - retention.max_bytes) * view.count,
                view.bytes >= retention.max_bytes,
        ;
        a_share_of_the_events(view, retention.max_bytes);
        let n = t - view.oldest_revision + 1;
        assert(n <= share);
        assert(n * view.bytes <= share * view.bytes) by (nonlinear_arith)
            requires
                n <= share,
        ;
    }
}

proof fn a_share_fits(excess: int, bytes: int)
    requires
        bytes > 0,
    ensures
        (excess / bytes) * bytes <= excess < (excess / bytes + 1) * bytes,
{
    vstd::arithmetic::div_mod::lemma_fundamental_div_mod(excess, bytes);
    assert(bytes * (excess / bytes) == (excess / bytes) * bytes) by (nonlinear_arith);
    assert((excess / bytes + 1) * bytes == (excess / bytes) * bytes + bytes) by (nonlinear_arith);
}

proof fn a_share_of_the_events(view: JournalView, max_bytes: u64)
    requires
        max_bytes < view.bytes,
    ensures
        0 <= ((view.bytes - max_bytes) * view.count) / (view.bytes as int) <= view.count,
{
    let excess = (view.bytes - max_bytes) * view.count;
    let bytes = view.bytes as int;
    a_share_fits(excess, bytes);
    assert(0 <= excess <= bytes * view.count) by (nonlinear_arith)
        requires
            excess == (view.bytes - max_bytes) * view.count,
            bytes == view.bytes,
            0 <= max_bytes < view.bytes,
    ;
    let share = excess / bytes;
    assert(share <= view.count) by (nonlinear_arith)
        requires
            share * bytes <= excess,
            excess <= bytes * view.count,
            bytes > 0,
    ;
    assert(share >= 0) by (nonlinear_arith)
        requires
            excess < (share + 1) * bytes,
            excess >= 0,
            bytes > 0,
    ;
}

/// What a ceiling asks for is proposed, if it is beyond what is compacted already: whichever
/// ceiling is furthest, none falls short. Where more revisions are held than may be, the proposal
/// reaches as far as leaves that many; where the oldest are past the age limit, it reaches them;
/// and where the bytes are over budget, it reaches one event, and as many as make up the excess
/// when every event has the same size. Nothing reaches past the newest revision.
pub proof fn every_ceiling_is_heard(
    view: JournalView,
    retention: WatchRetention,
    compact_revision: u64,
    oldest_within_max_age: u64,
    wanted: u64,
)
    requires
        compact_revision < wanted <= view.newest_revision,
        wanted < u64::MAX,
        ({
            ||| 0 < retention.max_revisions < view.count && wanted + retention.max_revisions
                <= view.newest_revision
            ||| retention.max_age.nanos != 0 && view.oldest_revision < oldest_within_max_age
                && wanted < oldest_within_max_age
            ||| 0 < retention.max_bytes < view.bytes && view.count > 0 && (wanted
                <= view.oldest_revision || (wanted - view.oldest_revision + 1) * view.bytes <= (
            view.bytes - retention.max_bytes) * view.count)
        }),
    ensures
        target(view, retention, compact_revision, oldest_within_max_age) matches Some((t, _))
            && wanted <= t <= view.newest_revision,
{
    if 0 < retention.max_bytes < view.bytes && view.count > 0 && wanted > view.oldest_revision && (
    wanted - view.oldest_revision + 1) * view.bytes <= (view.bytes - retention.max_bytes)
        * view.count {
        let excess = (view.bytes - retention.max_bytes) * view.count;
        let share = excess / (view.bytes as int);
        let n = wanted - view.oldest_revision + 1;
        a_share_fits(excess, view.bytes as int);
        a_share_of_the_events(view, retention.max_bytes);
        assert(n <= share) by (nonlinear_arith)
            requires
                n * view.bytes <= excess,
                excess < (share + 1) * view.bytes,
                view.bytes > 0,
        ;
    }
    if 0 < retention.max_bytes < view.bytes && view.count > 0 {
        a_share_of_the_events(view, retention.max_bytes);
    }
}

/// A ceiling that is not reached has no say: history within the age limit, the count and the bytes
/// that may be held is left alone.
pub proof fn history_within_the_ceilings_stays(
    view: JournalView,
    retention: WatchRetention,
    compact_revision: u64,
    oldest_within_max_age: u64,
)
    requires
        retention.max_revisions == 0 || view.count <= retention.max_revisions,
        retention.max_bytes == 0 || view.bytes <= retention.max_bytes || view.count == 0,
        retention.max_age.nanos == 0 || oldest_within_max_age <= view.oldest_revision,
    ensures
        target(view, retention, compact_revision, oldest_within_max_age) is None,
{
}

/// Ceilings have different names.
pub proof fn ceilings_are_told_apart(a: RetentionReason, b: RetentionReason)
    ensures
        a.name() == b.name() ==> a == b,
{
    reveal_strlit("revisions");
    reveal_strlit("bytes");
    reveal_strlit("age");
    assert(a.name().len() == b.name().len() ==> a == b);
}

} // verus!
