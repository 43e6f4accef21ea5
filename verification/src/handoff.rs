//! What a watch stream delivers, taken as a whole: replay and live delivery together hand over
//! every matching event after the cursor, once and in order.
//!
//! The history of a node is the sequence of its events in the order of their revisions. The
//! journal serves pages of it, and apply publishes it in batches. Registration subscribes before
//! it reads the high-water mark, so a batch can be both within the replayed range and in the
//! live channel, but no event is in neither.

use vstd::prelude::*;

use crate::delivery;
use crate::delivery::Delivery;
use crate::delivery::REPLAY_PAGE;
use crate::time::Duration;
use crate::types::MutationEvent;
use crate::watch::StreamId;

verus! {

/// A history: revisions strictly increase.
pub open spec fn ordered(history: Seq<MutationEvent>) -> bool {
    forall|i: int, j: int|
        0 <= i < j < history.len() ==> (#[trigger] history[i]).revision < (
        #[trigger] history[j]).revision
}

/// Whether a stream wants an event: it matches the prefix and lies after `lo` and up to `hi`.
pub open spec fn wanted(event: MutationEvent, prefix: Seq<u8>, lo: int, hi: int) -> bool {
    lo < event.revision <= hi && delivery::begins_with(event.key@, prefix)
}

/// The events of a history that a stream wants, in order.
pub open spec fn matching(history: Seq<MutationEvent>, prefix: Seq<u8>, lo: int, hi: int) -> Seq<
    MutationEvent,
>
    decreases history.len(),
{
    if history.len() == 0 {
        Seq::empty()
    } else {
        let rest = matching(history.drop_last(), prefix, lo, hi);
        if wanted(history.last(), prefix, lo, hi) {
            rest.push(history.last())
        } else {
            rest
        }
    }
}

/// The events of a history after `lo` and up to `hi`: what is published in between.
pub open spec fn published(history: Seq<MutationEvent>, lo: int, hi: int) -> Seq<MutationEvent> {
    matching(history, Seq::empty(), lo, hi)
}

/// A page of the journal: the first wanted events.
pub open spec fn journal_page(
    history: Seq<MutationEvent>,
    prefix: Seq<u8>,
    from: u64,
    to: u64,
) -> Seq<MutationEvent> {
    let all = matching(history, prefix, from as int, to as int);
    if all.len() <= REPLAY_PAGE {
        all
    } else {
        all.take(REPLAY_PAGE as int)
    }
}

/// What a stream delivers of a live batch: what is news and matches.
pub open spec fn live_part(batch: Seq<MutationEvent>, d: Delivery) -> Seq<MutationEvent>
    decreases batch.len(),
{
    if batch.len() == 0 {
        Seq::empty()
    } else {
        let rest = live_part(batch.drop_last(), d);
        if d.news(batch.last()) && delivery::begins_with(batch.last().key@, d.prefix@) {
            rest.push(batch.last())
        } else {
            rest
        }
    }
}

proof fn matching_is_within(history: Seq<MutationEvent>, prefix: Seq<u8>, lo: int, hi: int)
    requires
        ordered(history),
    ensures
        ordered(matching(history, prefix, lo, hi)),
        forall|i: int|
            0 <= i < matching(history, prefix, lo, hi).len() ==> wanted(
                #[trigger] matching(history, prefix, lo, hi)[i],
                prefix,
                lo,
                hi,
            ) && history.contains(matching(history, prefix, lo, hi)[i]),
    decreases history.len(),
{
    if history.len() > 0 {
        let init = history.drop_last();
        assert forall|i: int, j: int| 0 <= i < j < init.len() implies (#[trigger] init[i]).revision
            < (#[trigger] init[j]).revision by {
            assert(history[i].revision < history[j].revision);
        }
        matching_is_within(init, prefix, lo, hi);
        let rest = matching(init, prefix, lo, hi);
        let all = matching(history, prefix, lo, hi);
        assert forall|i: int| 0 <= i < rest.len() implies (#[trigger] rest[i]).revision
            < history.last().revision && history.contains(rest[i]) by {
            assert(init.contains(rest[i]));
            let k = choose|k: int| 0 <= k < init.len() && init[k] == rest[i];
            assert(history[k] == rest[i]);
            assert(history[k].revision < history[history.len() - 1].revision);
        }
        assert forall|i: int| 0 <= i < all.len() implies wanted(#[trigger] all[i], prefix, lo, hi)
            && history.contains(all[i]) by {
            if i < rest.len() {
                assert(all[i] == rest[i]);
            } else {
                assert(all[i] == history.last());
                assert(history[history.len() - 1] == history.last());
            }
        }
        assert forall|i: int, j: int| 0 <= i < j < all.len() implies (#[trigger] all[i]).revision
            < (#[trigger] all[j]).revision by {
            assert(all[i] == rest[i]);
            if j < rest.len() {
                assert(all[j] == rest[j]);
            }
        }
    }
}

proof fn nothing_beyond(history: Seq<MutationEvent>, prefix: Seq<u8>, lo: int, hi: int)
    requires
        forall|i: int| 0 <= i < history.len() ==> (#[trigger] history[i]).revision <= lo,
    ensures
        matching(history, prefix, lo, hi) == Seq::<MutationEvent>::empty(),
    decreases history.len(),
{
    if history.len() > 0 {
        let init = history.drop_last();
        assert forall|i: int| 0 <= i < init.len() implies (#[trigger] init[i]).revision <= lo by {
            assert(history[i].revision <= lo);
        }
        nothing_beyond(init, prefix, lo, hi);
        assert(history[history.len() - 1].revision <= lo);
    }
}

proof fn ranges_join(history: Seq<MutationEvent>, prefix: Seq<u8>, lo: int, mid: int, hi: int)
    requires
        ordered(history),
        lo <= mid <= hi,
    ensures
        matching(history, prefix, lo, mid) + matching(history, prefix, mid, hi) == matching(
            history,
            prefix,
            lo,
            hi,
        ),
    decreases history.len(),
{
    if history.len() > 0 {
        let init = history.drop_last();
        let last = history.last();
        assert forall|i: int, j: int| 0 <= i < j < init.len() implies (#[trigger] init[i]).revision
            < (#[trigger] init[j]).revision by {
            assert(history[i].revision < history[j].revision);
        }
        ranges_join(init, prefix, lo, mid, hi);
        if last.revision <= mid {
            assert forall|i: int| 0 <= i < init.len() implies (#[trigger] init[i]).revision
                <= mid by {
                assert(history[i].revision < history[history.len() - 1].revision);
            }
            nothing_beyond(init, prefix, mid, hi);
        }
        assert(matching(history, prefix, lo, mid) + matching(history, prefix, mid, hi)
            =~= matching(history, prefix, lo, hi));
    } else {
        assert(matching(history, prefix, lo, mid) + matching(history, prefix, mid, hi)
            =~= matching(history, prefix, lo, hi));
    }
}

proof fn page_is_a_range(
    history: Seq<MutationEvent>,
    prefix: Seq<u8>,
    lo: int,
    hi: int,
    n: int,
)
    requires
        ordered(history),
        0 < n <= matching(history, prefix, lo, hi).len(),
    ensures
        ({
            let all = matching(history, prefix, lo, hi);
            all.take(n) == matching(history, prefix, lo, all[n - 1].revision as int)
        }),
{
    let all = matching(history, prefix, lo, hi);
    matching_is_within(history, prefix, lo, hi);
    let r = all[n - 1].revision as int;
    assert(wanted(all[n - 1], prefix, lo, hi));
    let first = matching(history, prefix, lo, r);
    let second = matching(history, prefix, r, hi);
    ranges_join(history, prefix, lo, r, hi);
    matching_is_within(history, prefix, lo, r);
    matching_is_within(history, prefix, r, hi);
    if first.len() < n {
        assert(all[n - 1] == second[n - 1 - first.len()]);
        assert(wanted(second[n - 1 - first.len()], prefix, r, hi));
    }
    if first.len() > n {
        assert(all[n] == first[n]);
        assert(wanted(first[n], prefix, lo, r));
        assert(all[n - 1].revision < all[n].revision);
    }
    assert(all.take(n) =~= first);
}

/// What replay has delivered so far is every wanted event up to where it has read, and once it
/// is done none is left up to the high-water mark.
pub open spec fn replay_so_far(
    history: Seq<MutationEvent>,
    d: Delivery,
    sent: Seq<MutationEvent>,
) -> bool {
    &&& d.start_after <= d.replayed_to <= d.high_water
    &&& sent == matching(history, d.prefix@, d.start_after as int, d.replayed_to as int)
    &&& d.replay_done ==> matching(
        history,
        d.prefix@,
        d.replayed_to as int,
        d.high_water as int,
    ).len() == 0
}

/// Taking a page of the journal keeps replay complete.
pub proof fn replay_takes_a_page(
    history: Seq<MutationEvent>,
    d: Delivery,
    after: Delivery,
    sent: Seq<MutationEvent>,
)
    requires
        ordered(history),
        replay_so_far(history, d, sent),
        d.next_range() is Some,
        ({
            let (from, to) = d.next_range()->0;
            after == d.past_page(journal_page(history, d.prefix@, from, to))
        }),
    ensures
        ({
            let (from, to) = d.next_range()->0;
            replay_so_far(history, after, sent + journal_page(history, d.prefix@, from, to))
        }),
{
    let prefix = d.prefix@;
    let lo = d.replayed_to as int;
    let hi = d.high_water as int;
    let all = matching(history, prefix, lo, hi);
    let page = journal_page(history, prefix, d.replayed_to, d.high_water);
    matching_is_within(history, prefix, lo, hi);
    if all.len() == 0 {
        assert(sent + page =~= sent);
    } else {
        let n = page.len() as int;
        assert(page =~= all.take(n));
        page_is_a_range(history, prefix, lo, hi, n);
        assert(page.last() == all[n - 1]);
        assert(wanted(all[n - 1], prefix, lo, hi));
        let r = page.last().revision as int;
        ranges_join(history, prefix, d.start_after as int, lo, r);
        if n < REPLAY_PAGE {
            ranges_join(history, prefix, lo, r, hi);
            assert(all.take(n) =~= all);
            assert(matching(history, prefix, r, hi).len() == 0);
        }
    }
}

/// When replay is over, every wanted event after the cursor and up to the high-water mark was
/// delivered, and the stream has finished with the high-water mark.
pub proof fn replay_is_complete(
    history: Seq<MutationEvent>,
    d: Delivery,
    sent: Seq<MutationEvent>,
)
    requires
        ordered(history),
        replay_so_far(history, d, sent),
        !d.replaying(),
    ensures
        sent == matching(history, d.prefix@, d.start_after as int, d.high_water as int),
{
    ranges_join(
        history,
        d.prefix@,
        d.start_after as int,
        d.replayed_to as int,
        d.high_water as int,
    );
    if d.replay_done {
        assert(sent + matching(history, d.prefix@, d.replayed_to as int, d.high_water as int)
            =~= sent);
    }
}

/// A stream has delivered exactly the wanted events up to the revision that its progress names.
pub open spec fn finished(
    history: Seq<MutationEvent>,
    d: Delivery,
    sent: Seq<MutationEvent>,
) -> bool {
    &&& d.start_after <= d.high_water <= d.progress_watermark
    &&& sent == matching(history, d.prefix@, d.start_after as int, d.progress_watermark as int)
}

proof fn live_part_is_a_range(
    history: Seq<MutationEvent>,
    d: Delivery,
    lo: int,
    hi: int,
)
    ensures
        live_part(published(history, lo, hi), d) == matching(
            history,
            d.prefix@,
            if lo >= d.high_water {
                lo
            } else {
                d.high_water as int
            },
            hi,
        ),
    decreases history.len(),
{
    if history.len() > 0 {
        live_part_is_a_range(history.drop_last(), d, lo, hi);
        let last = history.last();
        let rest = published(history.drop_last(), lo, hi);
        assert(delivery::begins_with(last.key@, Seq::<u8>::empty())) by {
            assert(last.key@.take(0) =~= Seq::<u8>::empty());
        }
        if lo < last.revision <= hi {
            assert(rest.push(last).drop_last() =~= rest);
        }
    }
}

/// Live delivery of the next published batch keeps the stream complete, and so does every
/// progress frame: it names the revision that the batch reached, and every wanted event up to
/// there has been delivered, none of them twice.
///
/// `lo` is what was published before the batch. The first batch a stream receives begins at or
/// below its high-water mark, since it subscribed before the mark was read; every later batch
/// begins where the one before it ended.
pub proof fn live_delivers_a_batch(
    history: Seq<MutationEvent>,
    d: Delivery,
    after: Delivery,
    sent: Seq<MutationEvent>,
    lo: u64,
    applied_revision: u64,
)
    requires
        ordered(history),
        finished(history, d, sent),
        lo <= applied_revision,
        lo == d.progress_watermark || (lo <= d.high_water && d.progress_watermark == d.high_water),
        after == d.past_batch(applied_revision),
    ensures
        finished(
            history,
            after,
            sent + live_part(published(history, lo as int, applied_revision as int), d),
        ),
        applied_revision >= d.high_water ==> after.progress_watermark == applied_revision,
{
    let hi = applied_revision as int;
    live_part_is_a_range(history, d, lo as int, hi);
    let from = if lo >= d.high_water {
        lo as int
    } else {
        d.high_water as int
    };
    let live = live_part(published(history, lo as int, hi), d);
    if hi <= from {
        matching_is_within(history, d.prefix@, from, hi);
        if live.len() > 0 {
            assert(wanted(live[0], d.prefix@, from, hi));
        }
        assert(sent + live =~= sent);
    } else {
        ranges_join(history, d.prefix@, d.start_after as int, from, hi);
    }
}

/// What a stream delivers never repeats an event and never steps back, and it leaves out no
/// wanted event.
pub proof fn delivered_once_and_in_order(
    history: Seq<MutationEvent>,
    d: Delivery,
    sent: Seq<MutationEvent>,
)
    requires
        ordered(history),
        finished(history, d, sent),
    ensures
        ordered(sent),
        forall|e: MutationEvent|
            history.contains(e) && wanted(
                e,
                d.prefix@,
                d.start_after as int,
                d.progress_watermark as int,
            ) ==> #[trigger] sent.contains(e),
        forall|i: int|
            0 <= i < sent.len() ==> wanted(
                #[trigger] sent[i],
                d.prefix@,
                d.start_after as int,
                d.progress_watermark as int,
            ),
        forall|i: int|
            0 <= i < sent.len() ==> {
                let e = #[trigger] sent[i];
                &&& history.contains(e)
                &&& d.start_after < e.revision <= d.progress_watermark
                &&& e.key@.len() >= d.prefix@.len()
                &&& e.key@.subrange(0, d.prefix@.len() as int) == d.prefix@
            },
        forall|e: MutationEvent, rest: Seq<u8>|
            #![trigger sent.contains(e), d.prefix@ + rest]
            history.contains(e) && d.start_after < e.revision <= d.progress_watermark && e.key@
                == d.prefix@ + rest ==> sent.contains(e),
{
    let prefix = d.prefix@;
    let lo = d.start_after as int;
    let hi = d.progress_watermark as int;
    matching_is_within(history, prefix, lo, hi);
    assert forall|e: MutationEvent| history.contains(e) && wanted(e, prefix, lo, hi) implies
        #[trigger] sent.contains(e) by {
        let k = choose|k: int| 0 <= k < history.len() && history[k] == e;
        every_wanted_event_matches(history, prefix, lo, hi, k);
    }
    assert forall|i: int| 0 <= i < sent.len() implies (#[trigger] sent[i]).key@.subrange(
        0,
        prefix.len() as int,
    ) == prefix by {
        delivery::a_prefix_comes_first(sent[i].key@, prefix);
    }
    assert forall|e: MutationEvent, rest: Seq<u8>|
        #![trigger sent.contains(e), d.prefix@ + rest]
        history.contains(e) && lo < e.revision <= hi && e.key@ == d.prefix@ + rest implies sent.contains(
        e,
    ) by {
        delivery::a_prefix_comes_first(e.key@, prefix);
    }
}

proof fn every_wanted_event_matches(
    history: Seq<MutationEvent>,
    prefix: Seq<u8>,
    lo: int,
    hi: int,
    k: int,
)
    requires
        0 <= k < history.len(),
        wanted(history[k], prefix, lo, hi),
    ensures
        matching(history, prefix, lo, hi).contains(history[k]),
    decreases history.len(),
{
    let init = history.drop_last();
    let rest = matching(init, prefix, lo, hi);
    let all = matching(history, prefix, lo, hi);
    if k == history.len() - 1 {
        assert(all[rest.len() as int] == history[k]);
    } else {
        every_wanted_event_matches(init, prefix, lo, hi, k);
        let i = choose|i: int| 0 <= i < rest.len() && rest[i] == history[k];
        assert(all[i] == history[k]);
    }
}

/// A stream that was just opened has replayed nothing and owes everything behind its cursor; once
/// its replay is over, it has delivered what was there when it was registered, and live delivery
/// goes on from that place.
pub proof fn a_fresh_stream_owes_all_behind_its_cursor(
    history: Seq<MutationEvent>,
    id: StreamId,
    principal: String,
    prefix: Vec<u8>,
    start_after: u64,
    high_water: u64,
    policy_epoch: u64,
    interval: Duration,
    d: Delivery,
    sent: Seq<MutationEvent>,
)
    requires
        ordered(history),
        start_after <= high_water,
    ensures
        ({
            let fresh = Delivery::fresh(
                id,
                principal,
                prefix,
                start_after,
                high_water,
                policy_epoch,
                interval,
            );
            &&& fresh.start_after == start_after
            &&& fresh.high_water == high_water
            &&& fresh.prefix == prefix && fresh.principal == principal && fresh.id == id
            &&& fresh.policy_epoch == policy_epoch && fresh.progress_interval == interval
            &&& fresh.delivered == 0
            &&& replay_so_far(history, fresh, Seq::empty())
            &&& replay_so_far(history, d, sent) && !d.replaying() && d.progress_watermark
                == d.high_water ==> finished(history, d, sent)
            &&& fresh.progress_watermark == fresh.high_water
        }),
{
    matching_is_within(history, prefix@, start_after as int, start_after as int);
    let none = matching(history, prefix@, start_after as int, start_after as int);
    if none.len() > 0 {
        assert(wanted(none[0], prefix@, start_after as int, start_after as int));
    }
    assert(none =~= Seq::empty());
    if replay_so_far(history, d, sent) && !d.replaying() {
        replay_is_complete(history, d, sent);
    }
}

} // verus!
