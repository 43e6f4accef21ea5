//! Revision-pinned pagination: the table of pins, the order in which a token is checked, and
//! where a page is cut.
//!
//! A pin is a storage snapshot that a walk reads all its pages from. The table holds a bounded
//! number of them, by revision and policy version, so that two callers walking the same revision
//! under the same policy share one. Dropping a pin is safe: its walk is told to start over.
//!
//! A token is checked in full before a key is read: first that it opens, then its prefix, its
//! principal, its policy version, its node, its age, and last that its pin is still there.

use vstd::prelude::*;

use crate::metrics;
use crate::retention;
use crate::text;
use crate::time::Duration;
use crate::types;
use crate::types::ConfigError;
use crate::types::ConfigErrorModel;
use crate::types::ListPage;
use crate::types::ListRequest;
use crate::types::ListResponse;
use crate::types::NodeId;
use crate::types::PageTokenExpiredReason;
use crate::types::Pagination;
use crate::types::Record;
use crate::types::UNAVAILABLE_FEATURE_NOT_ACTIVATED;

verus! {

/// The version of the tokens this node issues.
pub const PAGE_TOKEN_VERSION: u16 = 1;

/// The pinning bounds and the token key.
#[derive(Clone, Copy, PartialEq, Eq)]
pub struct PaginationConfig {
    /// Pinned snapshots held at once.
    pub max_pinned: u32,
    /// How long a pin outlives the moment it was made.
    pub ttl: Duration,
    /// The key that tokens are sealed with.
    pub token_key: [u8; 32],
}

impl PaginationConfig {
    /// The defaults, with an explicit key.
    pub fn new(token_key: [u8; 32]) -> (c: Self)
        ensures
            c.max_pinned == 64,
            c.ttl.nanos == 60_000_000_000,
            c.token_key == token_key,
    {
        PaginationConfig { max_pinned: 64, ttl: Duration::from_secs(60), token_key }
    }

    /// The configuration as a log may show it: `fingerprint` stands for the token key, which is a
    /// credential and is never rendered.
    pub fn describe(&self, fingerprint: &str) -> (r: String)
        requires
            self.ttl.fits(),
        ensures
            r@ == "PaginationConfig { max_pinned: "@ + text::decimal(self.max_pinned as nat)
                + ", ttl: "@ + self.ttl.text() + ", token_key: "@ + text::quoted(fingerprint@)
                + " }"@,
    {
        let mut out = "PaginationConfig { max_pinned: ".to_owned();
        text::push_decimal(&mut out, self.max_pinned as u128);
        text::push_text(&mut out, ", ttl: ");
        text::push_text(&mut out, self.ttl.describe().as_str());
        text::push_text(&mut out, ", token_key: ");
        text::push_quoted(&mut out, fingerprint);
        text::push_text(&mut out, " }");
        out
    }
}

/// What the pin table holds and what it has refused.
#[derive(Clone, PartialEq, Eq, Debug)]
pub struct PinStats {
    /// Pins held right now.
    pub len: usize,
    /// The configured bound.
    pub capacity: usize,
    /// Pins dropped because the table was full.
    pub evictions: u64,
    /// Pins dropped because their time had passed.
    pub expiries: u64,
    /// Continuations that found their pin.
    pub hits: u64,
    /// Refusals by reason. Every reason is listed, also one that has never occurred.
    pub misses_by_reason: Vec<(&'static str, u64)>,
}

/// A pinned snapshot: the slot it is kept under and the revision it shows.
#[derive(Clone, Copy, PartialEq, Eq, Structural, Debug)]
pub struct PinnedView {
    /// The slot. No two pins are ever kept under the same one.
    pub slot: u64,
    /// The revision.
    pub revision: u64,
}

/// One pin.
#[derive(Clone, Copy, PartialEq, Eq, Structural, Debug)]
pub struct PinEntry {
    /// The snapshot.
    pub view: PinnedView,
    /// The policy version it was pinned under.
    pub policy_version: Option<u64>,
    /// When it was pinned. Its time runs from here and not from its last use, so a slow walk
    /// cannot keep a snapshot alive forever.
    pub issued_ms: u64,
    /// When it was last used; the smallest is the least recently used.
    pub used: u64,
}

impl PinEntry {
    /// Whether this is the pin of `revision` under `policy_version`.
    pub open spec fn is_at(self, revision: u64, policy_version: Option<u64>) -> bool {
        self.view.revision == revision && self.policy_version == policy_version
    }

    /// Whether the pin's time has not passed at `now_ms`.
    pub open spec fn alive(self, now_ms: u64, ttl_ms: u64) -> bool {
        retention::minus(now_ms, self.issued_ms) < ttl_ms
    }
}

/// The pins whose time has not passed, in order.
pub open spec fn kept(entries: Seq<PinEntry>, now_ms: u64, ttl_ms: u64) -> Seq<PinEntry>
    decreases entries.len(),
{
    if entries.len() == 0 {
        Seq::empty()
    } else {
        let rest = kept(entries.drop_last(), now_ms, ttl_ms);
        if entries.last().alive(now_ms, ttl_ms) {
            rest.push(entries.last())
        } else {
            rest
        }
    }
}

/// Whether there is a pin of `revision` under `policy_version`.
pub open spec fn pinned(
    entries: Seq<PinEntry>,
    revision: u64,
    policy_version: Option<u64>,
) -> bool {
    exists|i: int| 0 <= i < entries.len() && (#[trigger] entries[i]).is_at(revision, policy_version)
}

/// Where the pin of `revision` under `policy_version` stands, if there is one.
pub open spec fn place_of(
    entries: Seq<PinEntry>,
    revision: u64,
    policy_version: Option<u64>,
) -> int {
    choose|i: int|
        0 <= i < entries.len() && (#[trigger] entries[i]).is_at(revision, policy_version)
}

/// `entries` once the pin of `revision` under `policy_version` was looked up at `now_ms`: the
/// pins whose time has passed are gone, and the one found was used at `tick`.
pub open spec fn after_lookup(
    entries: Seq<PinEntry>,
    revision: u64,
    policy_version: Option<u64>,
    now_ms: u64,
    ttl_ms: u64,
    tick: u64,
) -> Seq<PinEntry> {
    let live = kept(entries, now_ms, ttl_ms);
    if pinned(live, revision, policy_version) {
        refreshed(live, place_of(live, revision, policy_version), tick)
    } else {
        live
    }
}

/// What that lookup finds.
pub open spec fn lookup_result(
    entries: Seq<PinEntry>,
    revision: u64,
    policy_version: Option<u64>,
    now_ms: u64,
    ttl_ms: u64,
) -> Option<PinnedView> {
    let live = kept(entries, now_ms, ttl_ms);
    if pinned(live, revision, policy_version) {
        Some(live[place_of(live, revision, policy_version)].view)
    } else {
        None
    }
}

/// Whether the pin at `i` is the least recently used.
pub open spec fn least_recent(entries: Seq<PinEntry>, i: int) -> bool {
    &&& 0 <= i < entries.len()
    &&& forall|j: int| 0 <= j < entries.len() ==> entries[i].used <= (#[trigger] entries[j]).used
}

/// `entries` with the pin at `i` used at `tick`.
pub open spec fn refreshed(entries: Seq<PinEntry>, i: int, tick: u64) -> Seq<PinEntry> {
    entries.update(i, PinEntry { used: tick, ..entries[i] })
}

/// No two pins are of the same revision and policy version, none shares a slot, and none was
/// used at the same time as another or later than `tick`.
pub open spec fn distinct(entries: Seq<PinEntry>, tick: u64) -> bool {
    &&& forall|i: int|
        0 <= i < entries.len() ==> (#[trigger] entries[i]).used <= tick && entries[i].view.slot
            <= tick
    &&& forall|i: int, j: int|
        0 <= i < j < entries.len() ==> {
            &&& (#[trigger] entries[i]).used != (#[trigger] entries[j]).used
            &&& entries[i].view.slot != entries[j].view.slot
            &&& !entries[i].is_at(entries[j].view.revision, entries[j].policy_version)
        }
}

/// The bounded table of pinned snapshots.
pub struct PinTable {
    entries: Vec<PinEntry>,
    released: Vec<u64>,
    capacity: usize,
    ttl_ms: u64,
    tick: u64,
    evictions: u64,
    expiries: u64,
    hits: u64,
    misses: [u64; 5],
}

/// The place of a reason among the counters of refusals.
pub open spec fn miss_place(reason: PageTokenExpiredReason) -> int {
    match reason {
        PageTokenExpiredReason::Invalid => 0,
        PageTokenExpiredReason::Expired => 1,
        PageTokenExpiredReason::Evicted => 2,
        PageTokenExpiredReason::PolicyVersion => 3,
        PageTokenExpiredReason::Node => 4,
    }
}

proof fn kept_is_distinct(entries: Seq<PinEntry>, tick: u64, now_ms: u64, ttl_ms: u64)
    requires
        distinct(entries, tick),
    ensures
        distinct(kept(entries, now_ms, ttl_ms), tick),
        kept(entries, now_ms, ttl_ms).len() <= entries.len(),
        forall|i: int|
            0 <= i < kept(entries, now_ms, ttl_ms).len() ==> entries.contains(
                #[trigger] kept(entries, now_ms, ttl_ms)[i],
            ) && kept(entries, now_ms, ttl_ms)[i].alive(now_ms, ttl_ms),
    decreases entries.len(),
{
    if entries.len() > 0 {
        let init = entries.drop_last();
        let last = entries.last();
        assert forall|i: int, j: int| 0 <= i < j < init.len() implies {
            &&& (#[trigger] init[i]).used != (#[trigger] init[j]).used
            &&& init[i].view.slot != init[j].view.slot
            &&& !init[i].is_at(init[j].view.revision, init[j].policy_version)
        } by {
            assert(entries[i].used != entries[j].used);
        }
        assert forall|i: int| 0 <= i < init.len() implies (#[trigger] init[i]).used <= tick
            && init[i].view.slot <= tick by {
            assert(entries[i].used <= tick);
        }
        kept_is_distinct(init, tick, now_ms, ttl_ms);
        let rest = kept(init, now_ms, ttl_ms);
        let all = kept(entries, now_ms, ttl_ms);
        assert forall|i: int| 0 <= i < all.len() implies entries.contains(#[trigger] all[i])
            && all[i].alive(now_ms, ttl_ms) by {
            if i < rest.len() {
                assert(all[i] == rest[i]);
                assert(init.contains(rest[i]));
                let k = choose|k: int| 0 <= k < init.len() && init[k] == rest[i];
                assert(entries[k] == rest[i]);
            } else {
                assert(entries[entries.len() - 1] == all[i]);
            }
        }
        assert(entries[entries.len() - 1].used <= tick);
        assert forall|i: int, j: int| 0 <= i < j < all.len() implies {
            &&& (#[trigger] all[i]).used != (#[trigger] all[j]).used
            &&& all[i].view.slot != all[j].view.slot
            &&& !all[i].is_at(all[j].view.revision, all[j].policy_version)
        } by {
            assert(all[i] == rest[i]);
            if j < rest.len() {
                assert(all[j] == rest[j]);
            } else {
                assert(init.contains(rest[i]));
                let k = choose|k: int| 0 <= k < init.len() && init[k] == rest[i];
                assert(entries[k] == rest[i]);
                assert(entries[k].used != entries[entries.len() - 1].used);
            }
        }
    }
}

proof fn one_place(entries: Seq<PinEntry>, tick: u64, i: int)
    requires
        distinct(entries, tick),
        0 <= i < entries.len(),
    ensures
        place_of(entries, entries[i].view.revision, entries[i].policy_version) == i,
{
    let k = place_of(entries, entries[i].view.revision, entries[i].policy_version);
    assert(entries[i].is_at(entries[i].view.revision, entries[i].policy_version));
    if k < i {
        assert(entries[k].used != entries[i].used);
    } else if i < k {
        assert(entries[i].used != entries[k].used);
    }
}

impl PinTable {
    /// The pins.
    pub closed spec fn entries(&self) -> Seq<PinEntry> {
        self.entries@
    }

    /// Slots whose snapshots are to be let go.
    pub closed spec fn released(&self) -> Seq<u64> {
        self.released@
    }

    /// The bound on pins.
    pub closed spec fn capacity(&self) -> nat {
        self.capacity as nat
    }

    /// How long a pin lives.
    pub closed spec fn ttl_ms(&self) -> u64 {
        self.ttl_ms
    }

    /// Uses so far.
    pub closed spec fn tick(&self) -> u64 {
        self.tick
    }

    /// Pins dropped to make room.
    pub closed spec fn evictions(&self) -> u64 {
        self.evictions
    }

    /// Pins dropped because their time had passed.
    pub closed spec fn expiries(&self) -> u64 {
        self.expiries
    }

    /// Continuations that found their pin.
    pub closed spec fn hits(&self) -> u64 {
        self.hits
    }

    /// The counters of refusals.
    pub closed spec fn miss_counts(&self) -> Seq<u64> {
        self.misses@
    }

    /// Refusals for `reason`.
    pub open spec fn misses(&self, reason: PageTokenExpiredReason) -> u64 {
        self.miss_counts()[miss_place(reason)]
    }

    /// The table is within its bound and its pins are distinct.
    pub open spec fn wf(&self) -> bool {
        &&& 1 <= self.capacity()
        &&& self.entries().len() <= self.capacity()
        &&& distinct(self.entries(), self.tick())
    }

    /// Everything but the pins, their uses and the counters of drops is as in `other`.
    pub open spec fn same_otherwise(&self, other: PinTable) -> bool {
        &&& self.capacity() == other.capacity()
        &&& self.ttl_ms() == other.ttl_ms()
        &&& self.miss_counts() == other.miss_counts()
    }

    /// Everything but the counters of misses is as in `other`.
    pub open spec fn undisturbed(&self, other: PinTable) -> bool {
        &&& self.entries() == other.entries()
        &&& self.released() == other.released()
        &&& self.capacity() == other.capacity()
        &&& self.ttl_ms() == other.ttl_ms()
        &&& self.tick() == other.tick()
        &&& self.evictions() == other.evictions()
        &&& self.expiries() == other.expiries()
        &&& self.hits() == other.hits()
    }

    /// Everything but the pins themselves, their uses, the hits and the misses is as in `other`
    /// after the pins whose time has passed were dropped.
    pub open spec fn swept(&self, other: PinTable, now_ms: u64) -> bool {
        let live = kept(other.entries(), now_ms, other.ttl_ms());
        &&& self.released() == other.released() + expired_slots(
            other.entries(),
            now_ms,
            other.ttl_ms(),
        )
        &&& self.expiries() == metrics::counted(
            other.expiries(),
            (other.entries().len() - live.len()) as nat,
        )
        &&& self.evictions() == other.evictions()
        &&& self.capacity() == other.capacity()
        &&& self.ttl_ms() == other.ttl_ms()
    }

    /// A snapshot of `revision` was pinned into a table that held `live`, had released
    /// `released` and counted `evictions`: a pin that is there is used again, and otherwise a new
    /// one is made, in place of the least recently used if the table is full.
    pub open spec fn holds_pin(
        &self,
        live: Seq<PinEntry>,
        released: Seq<u64>,
        evictions: u64,
        revision: u64,
        policy_version: Option<u64>,
        now_ms: u64,
        view: PinnedView,
    ) -> bool {
        if pinned(live, revision, policy_version) {
            let i = place_of(live, revision, policy_version);
            &&& view == live[i].view
            &&& self.entries() == refreshed(live, i, self.tick())
            &&& self.evictions() == evictions
            &&& self.released() == released
        } else {
            let entry = PinEntry {
                view: PinnedView { slot: self.tick(), revision },
                policy_version,
                issued_ms: now_ms,
                used: self.tick(),
            };
            &&& view == entry.view
            &&& if live.len() < self.capacity() {
                &&& self.entries() == live.push(entry)
                &&& self.evictions() == evictions
                &&& self.released() == released
            } else {
                exists|v: int| #[trigger]
                    least_recent(live, v) && self.entries() == live.remove(v).push(entry)
                        && self.evictions() == metrics::counted(evictions, 1) && self.released()
                        == released.push(live[v].view.slot)
            }
        }
    }

    /// Whether `after` is this table after a lookup at `now_ms` that answered `found`: a pin that
    /// is found is used and counted as a hit.
    pub open spec fn looked_up(
        &self,
        revision: u64,
        policy_version: Option<u64>,
        now_ms: u64,
        found: Option<PinnedView>,
        after: PinTable,
    ) -> bool {
        &&& found == lookup_result(
            self.entries(),
            revision,
            policy_version,
            now_ms,
            self.ttl_ms(),
        )
        &&& after.entries() == after_lookup(
            self.entries(),
            revision,
            policy_version,
            now_ms,
            self.ttl_ms(),
            after.tick(),
        )
        &&& after.hits() == (if found is Some {
            metrics::counted(self.hits(), 1)
        } else {
            self.hits()
        })
        &&& after.tick() == self.tick() + 1
        &&& after.swept(*self, now_ms)
        &&& after.miss_counts() == self.miss_counts()
    }

    /// Whether `after` is this table after the current state, whose revision is `observed`, was
    /// pinned at `now_ms` with the answer `r`. `made` is what the store answers if it is asked
    /// for a snapshot, which it is only where the state is not pinned yet.
    pub open spec fn pinned_now(
        &self,
        observed: u64,
        made: Result<Option<u64>, String>,
        policy_version: Option<u64>,
        now_ms: u64,
        r: Result<PinnedView, ConfigError>,
        after: PinTable,
    ) -> bool {
        let live = kept(self.entries(), now_ms, self.ttl_ms());
        let released = self.released() + expired_slots(self.entries(), now_ms, self.ttl_ms());
        let holds = |revision: u64, view: PinnedView|
            after.holds_pin(
                live,
                released,
                self.evictions(),
                revision,
                policy_version,
                now_ms,
                view,
            );
        let untouched = after.entries() == live && after.evictions() == self.evictions()
            && after.released() == released;
        &&& after.tick() == self.tick() + 1
        &&& after.hits() == self.hits()
        &&& after.same_otherwise(*self)
        &&& after.expiries() == metrics::counted(
            self.expiries(),
            (self.entries().len() - live.len()) as nat,
        )
        &&& if pinned(live, observed, policy_version) {
            r matches Ok(view) && holds(observed, view)
        } else {
            match made {
                Err(error) => untouched && (r matches Err(e) && e@ == (
                ConfigErrorModel::FatalStorage { detail: error@ })),
                Ok(None) => untouched && (r matches Err(e) && e@ == ConfigErrorModel::unavailable(
                    UNAVAILABLE_FEATURE_NOT_ACTIVATED@,
                )),
                Ok(Some(revision)) => r matches Ok(view) && holds(revision, view),
            }
        }
    }

    /// An empty table bounded by `capacity`, whose pins live for `ttl`. The smallest honest table
    /// holds one pin.
    pub fn new(capacity: u32, ttl: Duration) -> (t: Self)
        ensures
            t.wf(),
            t.entries() == Seq::<PinEntry>::empty(),
            t.released() == Seq::<u64>::empty(),
            t.capacity() == (if capacity == 0 {
                1
            } else {
                capacity as nat
            }),
            t.ttl_ms() == (ttl.nanos as nat / 1_000_000) % 0x1_0000_0000_0000_0000,
            t.tick() == 0,
            t.evictions() == 0,
            t.expiries() == 0,
            t.hits() == 0,
            forall|reason: PageTokenExpiredReason| #[trigger] t.misses(reason) == 0,
    {
        let bound: usize = if capacity == 0 {
            1
        } else {
            capacity as usize
        };
        PinTable {
            entries: Vec::new(),
            released: Vec::new(),
            capacity: bound,
            ttl_ms: (ttl.as_millis() % 0x1_0000_0000_0000_0000) as u64,
            tick: 0,
            evictions: 0,
            expiries: 0,
            hits: 0,
            misses: [0; 5],
        }
    }

    /// Counters and occupancy.
    pub fn stats(&self) -> (s: PinStats)
        ensures
            s.len == self.entries().len(),
            s.capacity == self.capacity(),
            s.evictions == self.evictions(),
            s.expiries == self.expiries(),
            s.hits == self.hits(),
            s.misses_by_reason@.len() == 5,
            forall|reason: PageTokenExpiredReason| {
                &&& (#[trigger] s.misses_by_reason@[miss_place(reason)]).0@ == reason.name()
                &&& s.misses_by_reason@[miss_place(reason)].1 == self.misses(reason)
            },
    {
        let misses: Vec<(&'static str, u64)> = vec![
            (PageTokenExpiredReason::Invalid.as_str(), self.misses[0]),
            (PageTokenExpiredReason::Expired.as_str(), self.misses[1]),
            (PageTokenExpiredReason::Evicted.as_str(), self.misses[2]),
            (PageTokenExpiredReason::PolicyVersion.as_str(), self.misses[3]),
            (PageTokenExpiredReason::Node.as_str(), self.misses[4]),
        ];
        PinStats {
            len: self.entries.len(),
            capacity: self.capacity,
            evictions: self.evictions,
            expiries: self.expiries,
            hits: self.hits,
            misses_by_reason: misses,
        }
    }

    /// The slots whose snapshots are to be let go, each once.
    pub fn take_released(&mut self) -> (r: Vec<u64>)
        ensures
            r@ == old(self).released(),
            final(self).released() == Seq::<u64>::empty(),
            final(self).entries() == old(self).entries(),
            final(self).tick() == old(self).tick(),
            final(self).evictions() == old(self).evictions(),
            final(self).expiries() == old(self).expiries(),
            final(self).hits() == old(self).hits(),
            final(self).same_otherwise(*old(self)),
    {
        let mut out: Vec<u64> = Vec::new();
        out.append(&mut self.released);
        out
    }

    /// Drop every pin whose time has passed, counting each as an expiry.
    pub fn expire_now(&mut self, now_ms: u64)
        requires
            old(self).wf(),
        ensures
            final(self).wf(),
            final(self).entries() == kept(old(self).entries(), now_ms, old(self).ttl_ms()),
            final(self).expiries() == metrics::counted(
                old(self).expiries(),
                (old(self).entries().len() - final(self).entries().len()) as nat,
            ),
            final(self).released() == old(self).released() + expired_slots(
                old(self).entries(),
                now_ms,
                old(self).ttl_ms(),
            ),
            final(self).tick() == old(self).tick(),
            final(self).evictions() == old(self).evictions(),
            final(self).hits() == old(self).hits(),
            final(self).same_otherwise(*old(self)),
    {
        let ghost all = self.entries@;
        let ghost gone = self.released@;
        let ghost counted_before = self.expiries as nat;
        let mut alive: Vec<PinEntry> = Vec::new();
        let mut i: usize = 0;
        assert(gone + expired_slots(all.take(0), now_ms, self.ttl_ms) =~= gone);
        while i < self.entries.len()
            invariant
                i <= all.len(),
                self.entries@ == all,
                self.ttl_ms == old(self).ttl_ms,
                alive@ == kept(all.take(i as int), now_ms, self.ttl_ms),
                alive@.len() <= i,
                self.released@ == gone + expired_slots(all.take(i as int), now_ms, self.ttl_ms),
                self.expiries == metrics::counted(old(self).expiries, (i - alive@.len()) as nat),
                self.tick == old(self).tick,
                self.evictions == old(self).evictions,
                self.hits == old(self).hits,
                self.same_otherwise(*old(self)),
            decreases all.len() - i,
        {
            let e = self.entries[i];
            let ghost released_before = self.released@;
            assert(all.take(i + 1).drop_last() =~= all.take(i as int));
            if now_ms.saturating_sub(e.issued_ms) >= self.ttl_ms {
                self.expiries = metrics::count_up(self.expiries, 1);
                self.released.push(e.view.slot);
                assert(self.released@ =~= gone + expired_slots(
                    all.take(i + 1),
                    now_ms,
                    self.ttl_ms,
                ));
            } else {
                alive.push(e);
            }
            i = i + 1;
        }
        assert(all.take(all.len() as int) =~= all);
        proof {
            kept_is_distinct(all, self.tick, now_ms, self.ttl_ms);
        }
        self.entries = alive;
    }

    fn find(&self, revision: u64, policy_version: Option<u64>) -> (r: Option<usize>)
        ensures
            match r {
                Some(i) => i < self.entries().len() && self.entries()[i as int].is_at(
                    revision,
                    policy_version,
                ),
                None => !pinned(self.entries(), revision, policy_version),
            },
    {
        let mut i: usize = 0;
        while i < self.entries.len()
            invariant
                i <= self.entries@.len(),
                forall|j: int|
                    0 <= j < i ==> !(#[trigger] self.entries@[j]).is_at(revision, policy_version),
            decreases self.entries@.len() - i,
        {
            let e = self.entries[i];
            if e.view.revision == revision && e.policy_version == policy_version {
                return Some(i);
            }
            i = i + 1;
        }
        None
    }

    /// Mark the pin at `i` as used now.
    fn refresh(&mut self, i: usize) -> (view: PinnedView)
        requires
            i < old(self).entries().len(),
            old(self).entries().len() <= old(self).capacity(),
            1 <= old(self).capacity(),
            old(self).tick() >= 1,
            distinct(old(self).entries(), (old(self).tick() - 1) as u64),
        ensures
            final(self).wf(),
            view == old(self).entries()[i as int].view,
            final(self).entries() == refreshed(old(self).entries(), i as int, old(self).tick()),
            final(self).tick() == old(self).tick(),
            final(self).released() == old(self).released(),
            final(self).evictions() == old(self).evictions(),
            final(self).expiries() == old(self).expiries(),
            final(self).hits() == old(self).hits(),
            final(self).same_otherwise(*old(self)),
    {
        let e = self.entries[i];
        self.entries.set(i, PinEntry { used: self.tick, ..e });
        proof {
            let before = old(self).entries@;
            let after = self.entries@;
            assert(after =~= refreshed(before, i as int, self.tick));
            assert forall|a: int, b: int| 0 <= a < b < after.len() implies {
                &&& (#[trigger] after[a]).used != (#[trigger] after[b]).used
                &&& after[a].view.slot != after[b].view.slot
                &&& !after[a].is_at(after[b].view.revision, after[b].policy_version)
            } by {
                assert(before[a].used != before[b].used);
                assert(before[a].used <= self.tick - 1 && before[b].used <= self.tick - 1);
            }
            assert forall|a: int| 0 <= a < after.len() implies (#[trigger] after[a]).used
                <= self.tick && after[a].view.slot <= self.tick by {
                assert(before[a].used <= self.tick - 1);
            }
        }
        e.view
    }

    /// Begin to pin the current state, whose revision is `observed`: reuse the pin that is there,
    /// or answer that one is to be made.
    pub fn pin_begin(
        &mut self,
        observed: u64,
        policy_version: Option<u64>,
        now_ms: u64,
    ) -> (r: Option<PinnedView>)
        requires
            old(self).wf(),
            old(self).tick() < u64::MAX,
        ensures
            final(self).wf(),
            final(self).tick() == old(self).tick() + 1,
            final(self).expiries() == metrics::counted(
                old(self).expiries(),
                (old(self).entries().len() - kept(
                    old(self).entries(),
                    now_ms,
                    old(self).ttl_ms(),
                ).len()) as nat,
            ),
            final(self).released() == old(self).released() + expired_slots(
                old(self).entries(),
                now_ms,
                old(self).ttl_ms(),
            ),
            final(self).evictions() == old(self).evictions(),
            final(self).hits() == old(self).hits(),
            final(self).same_otherwise(*old(self)),
            r == lookup_result(
                old(self).entries(),
                observed,
                policy_version,
                now_ms,
                old(self).ttl_ms(),
            ),
            final(self).entries() == after_lookup(
                old(self).entries(),
                observed,
                policy_version,
                now_ms,
                old(self).ttl_ms(),
                final(self).tick(),
            ),
    {
        self.expire_now(now_ms);
        let ghost live = self.entries@;
        self.tick = self.tick + 1;
        assert(distinct(self.entries@, (self.tick - 1) as u64));
        match self.find(observed, policy_version) {
            Some(i) => {
                let view = self.refresh(i);
                assert(live[i as int].is_at(observed, policy_version));
                proof {
                    one_place(live, (self.tick - 1) as u64, i as int);
                }
                Some(view)
            },
            None => None,
        }
    }

    /// How many pins were asked for or looked up: what orders them by their last use.
    pub fn ticks(&self) -> (n: u64)
        ensures
            n == self.tick(),
    {
        self.tick
    }

    /// Finish pinning, given what the store answered: the revision of the snapshot it made, that
    /// it cannot pin, or its error. The snapshot's own revision decides the key. A snapshot whose
    /// key is taken is let go again; otherwise the least recently used pin makes room if the
    /// table is full.
    pub fn pin_made(
        &mut self,
        made: Result<Option<u64>, String>,
        policy_version: Option<u64>,
        now_ms: u64,
    ) -> (r: Result<PinnedView, ConfigError>)
        requires
            old(self).wf(),
            old(self).tick() >= 1,
            distinct(old(self).entries(), (old(self).tick() - 1) as u64),
        ensures
            final(self).wf(),
            final(self).tick() == old(self).tick(),
            final(self).expiries() == old(self).expiries(),
            final(self).hits() == old(self).hits(),
            final(self).same_otherwise(*old(self)),
            match made {
                Err(error) => r matches Err(e) && e@ == (ConfigErrorModel::FatalStorage {
                    detail: error@,
                }),
                Ok(None) => r matches Err(e) && e@ == ConfigErrorModel::unavailable(
                    UNAVAILABLE_FEATURE_NOT_ACTIVATED@,
                ),
                Ok(Some(revision)) => r matches Ok(view) && final(self).holds_pin(
                    old(self).entries(),
                    old(self).released(),
                    old(self).evictions(),
                    revision,
                    policy_version,
                    now_ms,
                    view,
                ),
            },
            r is Err ==> {
                &&& final(self).entries() == old(self).entries()
                &&& final(self).evictions() == old(self).evictions()
                &&& final(self).released() == old(self).released()
            },
    {
        let revision: u64 = match made {
            Err(error) => {
                return Err(ConfigError::FatalStorage { detail: error });
            },
            Ok(None) => {
                return Err(ConfigError::unavailable(UNAVAILABLE_FEATURE_NOT_ACTIVATED));
            },
            Ok(Some(revision)) => revision,
        };
        if let Some(i) = self.find(revision, policy_version) {
            let view = self.refresh(i);
            assert(old(self).entries()[i as int].is_at(revision, policy_version));
            proof {
                one_place(old(self).entries(), (self.tick - 1) as u64, i as int);
            }
            return Ok(view);
        }
        let ghost before = self.entries@;
        let view = PinnedView { slot: self.tick, revision };
        if self.entries.len() >= self.capacity {
            let v: usize = self.find_least_recent();
            let gone = self.entries.remove(v);
            self.released.push(gone.view.slot);
            self.evictions = metrics::count_up(self.evictions, 1);
            proof {
                assert(least_recent(before, v as int));
                distinct_without(before, (self.tick - 1) as u64, v as int);
                assert(!pinned(self.entries@, revision, policy_version)) by {
                    if pinned(self.entries@, revision, policy_version) {
                        let k = choose|k: int|
                            0 <= k < self.entries@.len() && (#[trigger] self.entries@[k]).is_at(
                                revision,
                                policy_version,
                            );
                        let b = if k < v { k } else { k + 1 };
                        assert(before[b].is_at(revision, policy_version));
                    }
                }
            }
        }
        let ghost room = self.entries@;
        self.entries.push(
            PinEntry { view, policy_version, issued_ms: now_ms, used: self.tick },
        );
        proof {
            let after = self.entries@;
            assert forall|a: int, b: int| 0 <= a < b < after.len() implies {
                &&& (#[trigger] after[a]).used != (#[trigger] after[b]).used
                &&& after[a].view.slot != after[b].view.slot
                &&& !after[a].is_at(after[b].view.revision, after[b].policy_version)
            } by {
                assert(after[a] == room[a]);
                assert(room[a].used <= self.tick - 1 && room[a].view.slot <= self.tick - 1);
                if b < room.len() {
                    assert(after[b] == room[b]);
                    assert(room[a].used != room[b].used);
                }
            }
            assert forall|a: int| 0 <= a < after.len() implies (#[trigger] after[a]).used
                <= self.tick && after[a].view.slot <= self.tick by {
                if a < room.len() {
                    assert(after[a] == room[a]);
                    assert(room[a].used <= self.tick - 1);
                }
            }
        }
        Ok(view)
    }

    /// Pin the current state at once, when nothing happens in between: `made` is what the store
    /// answers if it is asked for a snapshot. It is asked only where the state is not pinned yet,
    /// so a pin that is used again keeps the time it was issued at.
    pub fn pin_current(
        &mut self,
        observed: u64,
        made: Result<Option<u64>, String>,
        policy_version: Option<u64>,
        now_ms: u64,
    ) -> (r: Result<PinnedView, ConfigError>)
        requires
            old(self).wf(),
            old(self).tick() < u64::MAX,
        ensures
            final(self).wf(),
            old(self).pinned_now(observed, made, policy_version, now_ms, r, *final(self)),
    {
        match self.pin_begin(observed, policy_version, now_ms) {
            Some(view) => Ok(view),
            None => {
                assert(distinct(self.entries(), (self.tick() - 1) as u64)) by {
                    kept_is_distinct(
                        old(self).entries(),
                        old(self).tick(),
                        now_ms,
                        old(self).ttl_ms(),
                    );
                }
                self.pin_made(made, policy_version, now_ms)
            },
        }
    }

    fn find_least_recent(&self) -> (v: usize)
        requires
            self.entries().len() > 0,
        ensures
            least_recent(self.entries(), v as int),
    {
        let mut v: usize = 0;
        let mut i: usize = 1;
        while i < self.entries.len()
            invariant
                v < i <= self.entries@.len(),
                forall|j: int|
                    0 <= j < i ==> self.entries@[v as int].used <= (
                    #[trigger] self.entries@[j]).used,
            decreases self.entries@.len() - i,
        {
            if self.entries[i].used < self.entries[v].used {
                v = i;
            }
            i = i + 1;
        }
        v
    }

    /// Find the pin of a continuation and mark it as used.
    pub fn lookup(&mut self, revision: u64, policy_version: Option<u64>, now_ms: u64) -> (r: Option<
        PinnedView,
    >)
        requires
            old(self).wf(),
            old(self).tick() < u64::MAX,
        ensures
            final(self).wf(),
            old(self).looked_up(revision, policy_version, now_ms, r, *final(self)),
    {
        let found = self.pin_begin(revision, policy_version, now_ms);
        if found.is_some() {
            self.hits = metrics::count_up(self.hits, 1);
        }
        found
    }

    /// Count a refusal.
    pub fn record_miss(&mut self, reason: PageTokenExpiredReason)
        requires
            old(self).wf(),
        ensures
            final(self).wf(),
            final(self).miss_counts() == old(self).miss_counts().update(
                miss_place(reason),
                metrics::counted(old(self).misses(reason), 1),
            ),
            final(self).undisturbed(*old(self)),
    {
        let i: usize = match reason {
            PageTokenExpiredReason::Invalid => 0,
            PageTokenExpiredReason::Expired => 1,
            PageTokenExpiredReason::Evicted => 2,
            PageTokenExpiredReason::PolicyVersion => 3,
            PageTokenExpiredReason::Node => 4,
        };
        self.misses[i] = metrics::count_up(self.misses[i], 1);
    }
}

/// The slots of the pins whose time has passed, in order.
pub open spec fn expired_slots(entries: Seq<PinEntry>, now_ms: u64, ttl_ms: u64) -> Seq<u64>
    decreases entries.len(),
{
    if entries.len() == 0 {
        Seq::empty()
    } else {
        let rest = expired_slots(entries.drop_last(), now_ms, ttl_ms);
        if entries.last().alive(now_ms, ttl_ms) {
            rest
        } else {
            rest.push(entries.last().view.slot)
        }
    }
}

proof fn distinct_without(entries: Seq<PinEntry>, tick: u64, v: int)
    requires
        distinct(entries, tick),
        0 <= v < entries.len(),
    ensures
        distinct(entries.remove(v), tick),
{
    let after = entries.remove(v);
    assert forall|a: int, b: int| 0 <= a < b < after.len() implies {
        &&& (#[trigger] after[a]).used != (#[trigger] after[b]).used
        &&& after[a].view.slot != after[b].view.slot
        &&& !after[a].is_at(after[b].view.revision, after[b].policy_version)
    } by {
        let x = if a < v { a } else { a + 1 };
        let y = if b < v { b } else { b + 1 };
        assert(entries[x].used != entries[y].used);
    }
    assert forall|a: int| 0 <= a < after.len() implies (#[trigger] after[a]).used <= tick
        && after[a].view.slot <= tick by {
        let x = if a < v { a } else { a + 1 };
        assert(entries[x].used <= tick);
    }
}

/// What a token carries from one page to the next.
#[derive(Clone, PartialEq, Eq, Debug)]
pub struct PageToken {
    /// The version of the token's format.
    pub token_version: u16,
    /// The hash of the prefix that is walked.
    pub prefix_hash: [u8; 32],
    /// The hash of the principal that walks it.
    pub principal_hash: [u8; 32],
    /// The pinned revision.
    pub revision: u64,
    /// The last key of the page before.
    pub last_key: Vec<u8>,
    /// The policy version the walk began under.
    pub policy_version: Option<u64>,
    /// When the token was issued.
    pub issued_ms: u64,
    /// Which node issued it.
    pub node_id: NodeId,
}

fn same_hash(a: &[u8; 32], b: &[u8; 32]) -> (r: bool)
    ensures
        r == (a@ == b@),
{
    let mut i: usize = 0;
    while i < 32
        invariant
            i <= 32,
            forall|j: int| 0 <= j < i ==> a@[j] == b@[j],
        decreases 32 - i,
    {
        if a[i] != b[i] {
            return false;
        }
        i = i + 1;
    }
    assert(a@ =~= b@);
    true
}

/// What becomes of a token, apart from whether its pin is still there.
#[derive(PartialEq, Eq, Debug)]
pub enum TokenVerdict {
    /// It is good.
    Good,
    /// It was made for another prefix.
    PrefixMismatch,
    /// It was made for another principal.
    OtherPrincipal,
    /// It is no longer good.
    Expired(PageTokenExpiredReason),
}

/// A first page that was read without a pin.
#[derive(PartialEq, Eq, Debug)]
pub enum FirstPage<T> {
    /// The walk fits in it.
    Whole(ListPage<T>),
    /// There is more: the page is to be read again from a pin.
    NeedsPin,
}

/// The paginated list path of one node.
pub struct Paginator {
    /// This node.
    pub node_id: NodeId,
    /// Its pins.
    pub pins: PinTable,
    /// Pins held at once, as configured.
    pub max_pinned: u32,
    /// How long a pin lives, in milliseconds.
    pub ttl_ms: u64,
    /// When this node's table came into existence. A token from before cannot have a pin here.
    pub started_ms: u64,
    /// The active policy version, or `0` without a signed policy.
    pub active_policy: u64,
}

/// The detail of a token that was made for another prefix.
pub const REASON_PREFIX_MISMATCH: &'static str = "prefix_mismatch";

/// The detail of a token that was made for another principal.
pub const REASON_TOKEN_PRINCIPAL: &'static str = "token_principal";

impl TokenVerdict {
    /// The error a token is refused with.
    pub open spec fn error(self) -> Option<ConfigErrorModel> {
        match self {
            TokenVerdict::Good => None,
            TokenVerdict::PrefixMismatch => Some(
                ConfigErrorModel::InvalidArgument { detail: REASON_PREFIX_MISMATCH@ },
            ),
            TokenVerdict::OtherPrincipal => Some(
                ConfigErrorModel::InvalidArgument { detail: REASON_TOKEN_PRINCIPAL@ },
            ),
            TokenVerdict::Expired(reason) => Some(ConfigErrorModel::PageTokenExpired { reason }),
        }
    }
}

/// Where the records of a page end, and whether there are more: from the record at `i`, with
/// `used` bytes taken so far. A page holds at most `max_items` records and `max_bytes` bytes,
/// but the first record is taken even when it alone exceeds the bytes.
pub open spec fn cut(
    records: Seq<Record>,
    i: nat,
    used: nat,
    max_items: nat,
    max_bytes: nat,
) -> (nat, bool)
    decreases records.len() - i,
{
    if i >= records.len() {
        (i, false)
    } else if i >= max_items {
        (i, true)
    } else if used + records[i as int].cost <= max_bytes {
        cut(records, i + 1, used + records[i as int].cost as nat, max_items, max_bytes)
    } else if i == 0 {
        (1, true)
    } else {
        (i, true)
    }
}

impl Paginator {
    /// The table is sound and shares the paginator's bounds.
    pub open spec fn wf(&self) -> bool {
        self.pins.wf() && self.pins.ttl_ms() == self.ttl_ms
    }

    /// The active policy version as a token carries it.
    pub open spec fn policy(&self) -> Option<u64> {
        if self.active_policy == 0 {
            None
        } else {
            Some(self.active_policy)
        }
    }

    /// The bindings of a token, in the order in which they are checked.
    pub open spec fn verdict(
        &self,
        opened: Result<PageToken, PageTokenExpiredReason>,
        prefix_hash: Seq<u8>,
        principal_hash: Seq<u8>,
    ) -> TokenVerdict {
        match opened {
            Err(reason) => TokenVerdict::Expired(reason),
            Ok(token) => if token.prefix_hash@ != prefix_hash {
                TokenVerdict::PrefixMismatch
            } else if token.principal_hash@ != principal_hash {
                TokenVerdict::OtherPrincipal
            } else if token.policy_version != self.policy() {
                TokenVerdict::Expired(PageTokenExpiredReason::PolicyVersion)
            } else if token.node_id != self.node_id || token.issued_ms < self.started_ms {
                TokenVerdict::Expired(PageTokenExpiredReason::Node)
            } else {
                TokenVerdict::Good
            },
        }
    }

    /// What a continuation comes to at `now_ms`: the bindings, then the token's age, then whether
    /// its pin is there.
    pub open spec fn continuation(
        &self,
        opened: Result<PageToken, PageTokenExpiredReason>,
        prefix_hash: Seq<u8>,
        principal_hash: Seq<u8>,
        now_ms: u64,
    ) -> TokenVerdict {
        match self.verdict(opened, prefix_hash, principal_hash) {
            TokenVerdict::Good => {
                let token = opened->Ok_0;
                if retention::minus(now_ms, token.issued_ms) >= self.ttl_ms {
                    TokenVerdict::Expired(PageTokenExpiredReason::Expired)
                } else if !pinned(
                    kept(self.pins.entries(), now_ms, self.ttl_ms),
                    token.revision,
                    token.policy_version,
                ) {
                    TokenVerdict::Expired(PageTokenExpiredReason::Evicted)
                } else {
                    TokenVerdict::Good
                }
            },
            refused => refused,
        }
    }

    /// The refusal is counted, when it is one of an expired token.
    pub open spec fn counts(&self, verdict: TokenVerdict, after: Paginator) -> bool {
        after.pins.miss_counts() == (match verdict {
            TokenVerdict::Expired(reason) => self.pins.miss_counts().update(
                miss_place(reason),
                metrics::counted(self.pins.misses(reason), 1),
            ),
            _ => self.pins.miss_counts(),
        })
    }

    /// The paginated path of a node, at the time its table comes into existence.
    pub fn new(node_id: NodeId, cfg: PaginationConfig, started_ms: u64) -> (p: Self)
        ensures
            p.wf(),
            p.node_id == node_id,
            p.max_pinned == cfg.max_pinned,
            p.started_ms == started_ms,
            p.active_policy == 0,
            p.pins.entries() == Seq::<PinEntry>::empty(),
            p.pins.released() == Seq::<u64>::empty(),
            p.pins.tick() == 0,
            p.pins.evictions() == 0,
            p.pins.expiries() == 0,
            p.pins.hits() == 0,
            forall|reason: PageTokenExpiredReason| #[trigger] p.pins.misses(reason) == 0,
            p.pins.capacity() == (if cfg.max_pinned == 0 {
                1
            } else {
                cfg.max_pinned as nat
            }),
            p.ttl_ms == (cfg.ttl.nanos as nat / 1_000_000) % 0x1_0000_0000_0000_0000,
    {
        let pins = PinTable::new(cfg.max_pinned, cfg.ttl);
        let ttl_ms: u64 = (cfg.ttl.as_millis() % 0x1_0000_0000_0000_0000) as u64;
        Paginator {
            node_id,
            pins,
            max_pinned: cfg.max_pinned,
            ttl_ms,
            started_ms,
            active_policy: 0,
        }
    }

    /// What this node reports of its paginated lists.
    pub fn capability(&self) -> (r: Pagination)
        ensures
            r == (Pagination::RevisionPinned { max_pinned: self.max_pinned, ttl_ms: self.ttl_ms }),
    {
        Pagination::RevisionPinned { max_pinned: self.max_pinned, ttl_ms: self.ttl_ms }
    }

    /// Take over the active policy version: a reload makes every outstanding token void.
    pub fn bind_policy_version(&mut self, version: u64)
        ensures
            *final(self) == (Paginator { active_policy: version, ..*old(self) }),
    {
        self.active_policy = version;
    }

    /// The active policy version as a token carries it.
    pub fn policy_version(&self) -> (r: Option<u64>)
        ensures
            r == self.policy(),
    {
        if self.active_policy == 0 {
            None
        } else {
            Some(self.active_policy)
        }
    }

    /// Count a refusal and build its error.
    pub fn reject(&mut self, reason: PageTokenExpiredReason) -> (e: ConfigError)
        requires
            old(self).wf(),
        ensures
            final(self).wf(),
            e@ == (ConfigErrorModel::PageTokenExpired { reason }),
            old(self).counts(TokenVerdict::Expired(reason), *final(self)),
            final(self).pins.undisturbed(old(self).pins),
            *final(self) == (Paginator { pins: final(self).pins, ..*old(self) }),
    {
        self.pins.record_miss(reason);
        ConfigError::PageTokenExpired { reason }
    }

    /// Check the bindings of a token. `opened` is what opening the sealed token came to, and the
    /// hashes are those of the prefix that is asked for and of the principal that asks. Nothing
    /// here reads a key.
    pub fn open(
        &mut self,
        opened: Result<PageToken, PageTokenExpiredReason>,
        prefix_hash: &[u8; 32],
        principal_hash: &[u8; 32],
    ) -> (r: Result<PageToken, ConfigError>)
        requires
            old(self).wf(),
        ensures
            final(self).wf(),
            ({
                let verdict = old(self).verdict(opened, prefix_hash@, principal_hash@);
                &&& match verdict.error() {
                    Some(error) => r matches Err(e) && e@ == error,
                    None => r is Ok && r->Ok_0 == opened->Ok_0,
                }
                &&& old(self).counts(verdict, *final(self))
            }),
            final(self).pins.undisturbed(old(self).pins),
            *final(self) == (Paginator { pins: final(self).pins, ..*old(self) }),
    {
        let token = match opened {
            Ok(token) => token,
            Err(reason) => {
                return Err(self.reject(reason));
            },
        };
        if !same_hash(&token.prefix_hash, prefix_hash) {
            return Err(
                ConfigError::InvalidArgument { detail: REASON_PREFIX_MISMATCH.to_owned() },
            );
        }
        if !same_hash(&token.principal_hash, principal_hash) {
            return Err(
                ConfigError::InvalidArgument { detail: REASON_TOKEN_PRINCIPAL.to_owned() },
            );
        }
        if token.policy_version != self.policy_version() {
            return Err(self.reject(PageTokenExpiredReason::PolicyVersion));
        }
        if token.node_id != self.node_id || token.issued_ms < self.started_ms {
            return Err(self.reject(PageTokenExpiredReason::Node));
        }
        Ok(token)
    }

    /// A continuation: every binding is checked before a key is read, then the token's age, and
    /// last that the pin is there. What is left is to confirm leadership and to read the page.
    pub fn next_page(
        &mut self,
        opened: Result<PageToken, PageTokenExpiredReason>,
        prefix_hash: &[u8; 32],
        principal_hash: &[u8; 32],
        now_ms: u64,
    ) -> (r: Result<(PageToken, PinnedView), ConfigError>)
        requires
            old(self).wf(),
            old(self).pins.tick() < u64::MAX,
        ensures
            final(self).wf(),
            ({
                let verdict = old(self).continuation(
                    opened,
                    prefix_hash@,
                    principal_hash@,
                    now_ms,
                );
                &&& match verdict.error() {
                    Some(error) => r matches Err(e) && e@ == error,
                    None => r is Ok && r->Ok_0.0 == opened->Ok_0,
                }
                &&& old(self).counts(verdict, *final(self))
            }),
            if old(self).verdict(opened, prefix_hash@, principal_hash@) != TokenVerdict::Good {
                final(self).pins.undisturbed(old(self).pins)
            } else {
                let live = kept(old(self).pins.entries(), now_ms, old(self).ttl_ms);
                &&& final(self).pins.swept(old(self).pins, now_ms)
                &&& match r {
                    Ok((token, view)) => {
                        let i = place_of(live, token.revision, token.policy_version);
                        &&& final(self).pins.tick() == old(self).pins.tick() + 1
                        &&& final(self).pins.hits() == metrics::counted(old(self).pins.hits(), 1)
                        &&& view == live[i].view
                        &&& final(self).pins.entries() == refreshed(
                            live,
                            i,
                            final(self).pins.tick(),
                        )
                    },
                    Err(_) => {
                        &&& final(self).pins.entries() == live
                        &&& final(self).pins.hits() == old(self).pins.hits()
                        &&& final(self).pins.tick() == (if old(self).continuation(
                            opened,
                            prefix_hash@,
                            principal_hash@,
                            now_ms,
                        ) == TokenVerdict::Expired(PageTokenExpiredReason::Evicted) {
                            old(self).pins.tick() + 1
                        } else {
                            old(self).pins.tick() as int
                        })
                    },
                }
            },
            *final(self) == (Paginator { pins: final(self).pins, ..*old(self) }),
    {
        let token = match self.open(opened, prefix_hash, principal_hash) {
            Ok(token) => token,
            Err(e) => {
                return Err(e);
            },
        };
        self.pins.expire_now(now_ms);
        if now_ms.saturating_sub(token.issued_ms) >= self.ttl_ms {
            return Err(self.reject(PageTokenExpiredReason::Expired));
        }
        proof {
            kept_is_kept(old(self).pins.entries(), now_ms, self.ttl_ms);
        }
        match self.pins.lookup(token.revision, token.policy_version, now_ms) {
            Some(view) => Ok((token, view)),
            None => Err(self.reject(PageTokenExpiredReason::Evicted)),
        }
    }

    /// What a continuation asks of the node before it reads its pin: a list of the prefix capped
    /// at one record, which confirms leadership and the caller's grants and is no scan.
    pub fn barrier(&self, effective: &ListRequest) -> (r: ListRequest)
        ensures
            r.prefix@ == effective.prefix@,
            r.max_items == 1,
            r.max_bytes == 0,
    {
        ListRequest { prefix: crate::bytes::copy(&effective.prefix), max_items: 1, max_bytes: 0 }
    }

    /// Go on with an accepted continuation, given what the node answered to the barrier. Its
    /// error is answered in place of a page, and nothing is read.
    pub fn confirmed(
        &self,
        barrier: Result<ListResponse, ConfigError>,
        token: PageToken,
        view: PinnedView,
    ) -> (r: Result<(PageToken, PinnedView), ConfigError>)
        ensures
            match barrier {
                Err(e) => r == Err::<(PageToken, PinnedView), ConfigError>(e),
                Ok(_) => r == Ok::<(PageToken, PinnedView), ConfigError>((token, view)),
            },
    {
        match barrier {
            Err(e) => Err(e),
            Ok(_) => Ok((token, view)),
        }
    }

    /// The first page of a walk, read without a pin. A walk that fits in it never pins.
    pub fn first_page(&self, first: ListResponse) -> (r: FirstPage<PageToken>)
        ensures
            match r {
                FirstPage::Whole(page) => {
                    &&& !first.truncated
                    &&& page.items == first.records
                    &&& page.revision == first.read_revision
                    &&& !page.truncated
                    &&& page.next_page_token is None
                },
                FirstPage::NeedsPin => first.truncated,
            },
    {
        if !first.truncated {
            return FirstPage::Whole(
                ListPage {
                    items: first.records,
                    revision: first.read_revision,
                    truncated: false,
                    next_page_token: None,
                },
            );
        }
        FirstPage::NeedsPin
    }

    /// How many records to read from a pin for one page: one more than the page can hold, which
    /// tells whether there is another page.
    pub fn scan_limit(&self, effective: &ListRequest) -> (n: usize)
        ensures
            n == effective.max_items as nat + 1 || (n == usize::MAX && n == effective.max_items),
    {
        (effective.max_items as usize).saturating_add(1)
    }

    /// Whether `page` is the page that `records` make, which were read from the pinned state: as
    /// many of them as fit, and a token to go on with where some are left.
    pub open spec fn is_page(
        &self,
        page: ListPage<PageToken>,
        view: PinnedView,
        effective: ListRequest,
        records: Seq<Record>,
        prefix_hash: [u8; 32],
        principal_hash: [u8; 32],
        now_ms: u64,
    ) -> bool {
        let (n, more) = cut(
            records,
            0,
            0,
            effective.max_items as nat,
            effective.max_bytes as nat,
        );
        &&& page.items@ == records.take(n as int)
        &&& page.revision == view.revision
        &&& page.truncated == more
        &&& page.next_page_token is Some <==> more
        &&& page.next_page_token matches Some(token) ==> {
            &&& token.token_version == PAGE_TOKEN_VERSION
            &&& token.prefix_hash == prefix_hash
            &&& token.principal_hash == principal_hash
            &&& token.revision == view.revision
            &&& token.last_key@ == (if n == 0 {
                Seq::empty()
            } else {
                records[n - 1].key@
            })
            &&& token.policy_version == self.policy()
            &&& token.issued_ms == now_ms
            &&& token.node_id == self.node_id
        }
    }

    /// Cut one page out of what was read from a pin, and make the cursor of the next.
    pub fn page_from(
        &self,
        view: PinnedView,
        effective: &ListRequest,
        scanned: Result<Vec<Record>, String>,
        prefix_hash: [u8; 32],
        principal_hash: [u8; 32],
        now_ms: u64,
    ) -> (r: Result<ListPage<PageToken>, ConfigError>)
        ensures
            match scanned {
                Err(error) => r matches Err(e) && e@ == (ConfigErrorModel::FatalStorage {
                    detail: error@,
                }),
                Ok(records) => {
                    &&& r is Ok
                    &&& self.is_page(
                        r->Ok_0,
                        view,
                        *effective,
                        records@,
                        prefix_hash,
                        principal_hash,
                        now_ms,
                    )
                },
            },
    {
        let mut items: Vec<Record> = match scanned {
            Ok(records) => records,
            Err(error) => {
                return Err(ConfigError::FatalStorage { detail: error });
            },
        };
        let ghost records = items@;
        let max_items: u64 = effective.max_items as u64;
        let max_bytes: u64 = effective.max_bytes;
        let ghost whole = cut(records, 0, 0, max_items as nat, max_bytes as nat);
        let mut n: usize = 0;
        let mut used: u64 = 0;
        let mut more: bool = false;
        let mut done: bool = false;
        while n < items.len() && !done
            invariant
                items@ == records,
                n <= records.len(),
                used <= max_bytes,
                whole == (if done {
                    (n as nat, more)
                } else {
                    cut(records, n as nat, used as nat, max_items as nat, max_bytes as nat)
                }),
                !done ==> !more,
            decreases records.len() - n + (if done { 0int } else { 1 }),
        {
            let cost: u64 = items[n].cost;
            if n as u64 >= max_items {
                more = true;
                done = true;
            } else if cost <= max_bytes - used {
                used = used + cost;
                n = n + 1;
            } else {
                if n == 0 {
                    n = 1;
                }
                more = true;
                done = true;
            }
        }
        items.truncate(n);
        assert(items@ =~= records.take(whole.0 as int));
        let next_page_token = if more {
            let last_key: Vec<u8> = if items.len() > 0 {
                crate::bytes::copy(&items[items.len() - 1].key)
            } else {
                Vec::new()
            };
            Some(
                PageToken {
                    token_version: PAGE_TOKEN_VERSION,
                    prefix_hash,
                    principal_hash,
                    revision: view.revision,
                    last_key,
                    policy_version: self.policy_version(),
                    issued_ms: now_ms,
                    node_id: self.node_id,
                },
            )
        } else {
            None
        };
        Ok(ListPage { items, revision: view.revision, truncated: more, next_page_token })
    }
}

proof fn kept_is_kept(entries: Seq<PinEntry>, now_ms: u64, ttl_ms: u64)
    ensures
        kept(kept(entries, now_ms, ttl_ms), now_ms, ttl_ms) == kept(entries, now_ms, ttl_ms),
        expired_slots(kept(entries, now_ms, ttl_ms), now_ms, ttl_ms) == Seq::<u64>::empty(),
    decreases entries.len(),
{
    if entries.len() > 0 {
        kept_is_kept(entries.drop_last(), now_ms, ttl_ms);
        if entries.last().alive(now_ms, ttl_ms) {
            let rest = kept(entries.drop_last(), now_ms, ttl_ms);
            assert(rest.push(entries.last()).drop_last() =~= rest);
        }
    }
}

/// Whatever its bindings are, a token that fails one of them is refused in the same way whether
/// or not there are pins: a forged token tells nothing about what the node holds.
pub proof fn bindings_are_judged_without_the_pins(
    p: Paginator,
    q: Paginator,
    opened: Result<PageToken, PageTokenExpiredReason>,
    prefix_hash: Seq<u8>,
    principal_hash: Seq<u8>,
    now_ms: u64,
)
    requires
        q == (Paginator { pins: q.pins, ..p }),
        p.verdict(opened, prefix_hash, principal_hash) != TokenVerdict::Good,
    ensures
        p.continuation(opened, prefix_hash, principal_hash, now_ms) == q.continuation(
            opened,
            prefix_hash,
            principal_hash,
            now_ms,
        ),
{
}

/// A reload of the policy voids every outstanding token: none that carries another version is
/// good.
pub proof fn a_policy_reload_voids_tokens(
    p: Paginator,
    token: PageToken,
    prefix_hash: Seq<u8>,
    principal_hash: Seq<u8>,
    now_ms: u64,
)
    requires
        token.policy_version != p.policy(),
    ensures
        p.continuation(Ok(token), prefix_hash, principal_hash, now_ms) != TokenVerdict::Good,
{
}

/// A pin whose time has passed is never found, and using a pin does not extend its time.
pub proof fn pins_expire(
    entries: Seq<PinEntry>,
    tick: u64,
    revision: u64,
    policy_version: Option<u64>,
    now_ms: u64,
    ttl_ms: u64,
)
    requires
        distinct(entries, tick),
    ensures
        pinned(kept(entries, now_ms, ttl_ms), revision, policy_version) ==> exists|i: int|
            0 <= i < entries.len() && (#[trigger] entries[i]).is_at(revision, policy_version)
                && entries[i].alive(now_ms, ttl_ms),
        forall|i: int, later: u64|
            0 <= i < entries.len() ==> #[trigger] refreshed(entries, i, later)[i].alive(
                now_ms,
                ttl_ms,
            ) == entries[i].alive(now_ms, ttl_ms),
{
    let live = kept(entries, now_ms, ttl_ms);
    kept_is_distinct(entries, tick, now_ms, ttl_ms);
    if pinned(live, revision, policy_version) {
        let k = choose|k: int|
            0 <= k < live.len() && (#[trigger] live[k]).is_at(revision, policy_version);
        assert(entries.contains(live[k]));
        let i = choose|i: int| 0 <= i < entries.len() && entries[i] == live[k];
        assert(entries[i].is_at(revision, policy_version));
    }
}

/// The pin that was made as `e`, whenever it was used last.
pub open spec fn same_pin(x: PinEntry, e: PinEntry) -> bool {
    x == (PinEntry { used: x.used, ..e })
}

/// Whether the pin that was made as `e` is held.
pub open spec fn held(entries: Seq<PinEntry>, e: PinEntry) -> bool {
    exists|i: int| 0 <= i < entries.len() && #[trigger] same_pin(entries[i], e)
}

proof fn kept_keeps(entries: Seq<PinEntry>, k: int, now_ms: u64, ttl_ms: u64) -> (i: int)
    requires
        0 <= k < entries.len(),
        entries[k].alive(now_ms, ttl_ms),
    ensures
        0 <= i < kept(entries, now_ms, ttl_ms).len(),
        kept(entries, now_ms, ttl_ms)[i] == entries[k],
    decreases entries.len(),
{
    if k == entries.len() - 1 {
        kept(entries, now_ms, ttl_ms).len() - 1
    } else {
        assert(entries.drop_last()[k] == entries[k]);
        kept_keeps(entries.drop_last(), k, now_ms, ttl_ms)
    }
}

proof fn expired_is_released(entries: Seq<PinEntry>, tick: u64, k: int, now_ms: u64, ttl_ms: u64)
    requires
        distinct(entries, tick),
        0 <= k < entries.len(),
        !entries[k].alive(now_ms, ttl_ms),
    ensures
        ({
            let gone = expired_slots(entries, now_ms, ttl_ms);
            &&& exists|i: int| 0 <= i < gone.len() && #[trigger] gone[i] == entries[k].view.slot
            &&& forall|i: int, j: int|
                0 <= i < j < gone.len() ==> #[trigger] gone[i] != #[trigger] gone[j]
        }),
{
    expired_slots_are_slots(entries, tick, now_ms, ttl_ms);
    expired_has(entries, k, now_ms, ttl_ms);
}

proof fn expired_has(entries: Seq<PinEntry>, k: int, now_ms: u64, ttl_ms: u64)
    requires
        0 <= k < entries.len(),
        !entries[k].alive(now_ms, ttl_ms),
    ensures
        ({
            let gone = expired_slots(entries, now_ms, ttl_ms);
            exists|i: int| 0 <= i < gone.len() && #[trigger] gone[i] == entries[k].view.slot
        }),
    decreases entries.len(),
{
    let gone = expired_slots(entries, now_ms, ttl_ms);
    if k == entries.len() - 1 {
        assert(gone[gone.len() - 1] == entries[k].view.slot);
    } else {
        assert(entries.drop_last()[k] == entries[k]);
        expired_has(entries.drop_last(), k, now_ms, ttl_ms);
        let rest = expired_slots(entries.drop_last(), now_ms, ttl_ms);
        let i = choose|i: int| 0 <= i < rest.len() && #[trigger] rest[i] == entries[k].view.slot;
        assert(gone[i] == rest[i]);
    }
}

proof fn expired_slots_are_slots(entries: Seq<PinEntry>, tick: u64, now_ms: u64, ttl_ms: u64)
    requires
        distinct(entries, tick),
    ensures
        ({
            let gone = expired_slots(entries, now_ms, ttl_ms);
            &&& gone.len() + kept(entries, now_ms, ttl_ms).len() == entries.len()
            &&& forall|i: int|
                0 <= i < gone.len() ==> exists|k: int|
                    0 <= k < entries.len() && (#[trigger] entries[k]).view.slot
                        == #[trigger] gone[i]
            &&& forall|i: int, j: int|
                0 <= i < j < gone.len() ==> #[trigger] gone[i] != #[trigger] gone[j]
        }),
    decreases entries.len(),
{
    if entries.len() > 0 {
        let init = entries.drop_last();
        let n = entries.len() - 1;
        distinct_without(entries, tick, n);
        assert(entries.remove(n) =~= init);
        expired_slots_are_slots(init, tick, now_ms, ttl_ms);
        let rest = expired_slots(init, now_ms, ttl_ms);
        let gone = expired_slots(entries, now_ms, ttl_ms);
        assert forall|i: int| 0 <= i < gone.len() implies exists|k: int|
            0 <= k < entries.len() && (#[trigger] entries[k]).view.slot == #[trigger] gone[i] by {
            if i < rest.len() {
                assert(gone[i] == rest[i]);
                let k = choose|k: int|
                    0 <= k < init.len() && (#[trigger] init[k]).view.slot == rest[i];
                assert(entries[k] == init[k]);
            } else {
                assert(entries[n].view.slot == gone[i]);
            }
        }
        assert forall|i: int, j: int| 0 <= i < j < gone.len() implies #[trigger] gone[i]
            != #[trigger] gone[j] by {
            assert(gone[i] == rest[i]);
            if j < rest.len() {
                assert(gone[j] == rest[j]);
            } else {
                let k = choose|k: int|
                    0 <= k < init.len() && (#[trigger] init[k]).view.slot == rest[i];
                assert(entries[k] == init[k]);
                assert(entries[k].used != entries[n].used);
            }
        }
    }
}

/// A lookup takes no pin away whose time has not passed, and makes none: what is held after it
/// was held before, as it was made.
pub proof fn a_lookup_makes_no_pin(
    entries: Seq<PinEntry>,
    revision: u64,
    policy_version: Option<u64>,
    now_ms: u64,
    ttl_ms: u64,
    tick: u64,
)
    requires
        distinct(entries, tick),
    ensures
        ({
            let after = after_lookup(
                entries,
                revision,
                policy_version,
                now_ms,
                ttl_ms,
                (tick + 1) as u64,
            );
            &&& forall|i: int| 0 <= i < after.len() ==> held(entries, #[trigger] after[i])
            &&& forall|k: int|
                0 <= k < entries.len() && (#[trigger] entries[k]).alive(now_ms, ttl_ms) ==> held(
                    after,
                    entries[k],
                )
        }),
{
    let live = kept(entries, now_ms, ttl_ms);
    let after = after_lookup(
        entries,
        revision,
        policy_version,
        now_ms,
        ttl_ms,
        (tick + 1) as u64,
    );
    kept_is_distinct(entries, tick, now_ms, ttl_ms);
    assert forall|i: int| 0 <= i < after.len() implies held(entries, #[trigger] after[i]) by {
        assert(entries.contains(live[i]));
        let k = choose|k: int| 0 <= k < entries.len() && entries[k] == live[i];
        assert(same_pin(entries[k], after[i]));
    }
    assert forall|k: int|
        0 <= k < entries.len() && (#[trigger] entries[k]).alive(now_ms, ttl_ms) implies held(
        after,
        entries[k],
    ) by {
        let i = kept_keeps(entries, k, now_ms, ttl_ms);
        assert(same_pin(after[i], entries[k]));
    }
}

/// Pinning takes no other pin away, but for the least recently used where a new pin needs room,
/// which is counted and its slot released: every other pin that was alive is held as it was made,
/// with the time it was issued at.
pub proof fn pinning_evicts_only_for_room(
    after: PinTable,
    live: Seq<PinEntry>,
    released: Seq<u64>,
    evictions: u64,
    revision: u64,
    policy_version: Option<u64>,
    now_ms: u64,
    view: PinnedView,
    k: int,
)
    requires
        after.holds_pin(live, released, evictions, revision, policy_version, now_ms, view),
        0 <= k < live.len(),
    ensures
        held(after.entries(), live[k]) || (!pinned(live, revision, policy_version) && live.len()
            >= after.capacity() && least_recent(live, k) && after.evictions() == metrics::counted(
            evictions,
            1,
        ) && after.released() == released.push(live[k].view.slot)),
{
    if pinned(live, revision, policy_version) {
        assert(same_pin(after.entries()[k], live[k]));
    } else if live.len() < after.capacity() {
        assert(same_pin(after.entries()[k], live[k]));
    } else {
        let entry = PinEntry {
            view: PinnedView { slot: after.tick(), revision },
            policy_version,
            issued_ms: now_ms,
            used: after.tick(),
        };
        let v = choose|v: int| #[trigger]
            least_recent(live, v) && after.entries() == live.remove(v).push(entry)
                && after.evictions() == metrics::counted(evictions, 1) && after.released()
                == released.push(live[v].view.slot);
        if k < v {
            assert(same_pin(after.entries()[k], live[k]));
        } else if k > v {
            assert(same_pin(after.entries()[k - 1], live[k]));
        }
    }
}

/// What a table of pins was asked, and what it answered.
pub enum PinCall {
    /// A lookup.
    Lookup { revision: u64, policy_version: Option<u64>, found: Option<PinnedView> },
    /// The current state was to be pinned.
    Pin {
        observed: u64,
        made: Result<Option<u64>, String>,
        policy_version: Option<u64>,
        answer: Result<PinnedView, ConfigError>,
    },
}

/// One call on a table of pins, at a time, with the table before and after it.
pub struct PinStep {
    pub before: PinTable,
    pub after: PinTable,
    pub now_ms: u64,
    pub call: PinCall,
}

impl PinStep {
    /// The table did what it promises of the call.
    pub open spec fn stands(&self) -> bool {
        &&& self.before.wf()
        &&& self.after.wf()
        &&& match self.call {
            PinCall::Lookup { revision, policy_version, found } => self.before.looked_up(
                revision,
                policy_version,
                self.now_ms,
                found,
                self.after,
            ),
            PinCall::Pin { observed, made, policy_version, answer } => self.before.pinned_now(
                observed,
                made,
                policy_version,
                self.now_ms,
                answer,
                self.after,
            ),
        }
    }

    /// The pin `e` had to make room: the call evicted the pin of its slot.
    pub open spec fn evicts(&self, e: PinEntry) -> bool {
        &&& self.after.evictions() != self.before.evictions()
        &&& self.after.released().len() > 0
        &&& self.after.released().last() == e.view.slot
    }
}

/// Whether the calls `steps` lead from one table to another. What happens between two calls
/// leaves the pins alone.
pub open spec fn leads(from: PinTable, steps: Seq<PinStep>, to: PinTable) -> bool
    decreases steps.len(),
{
    if steps.len() == 0 {
        to.entries() == from.entries() && to.ttl_ms() == from.ttl_ms()
    } else {
        let last = steps.last();
        &&& leads(from, steps.drop_last(), last.before)
        &&& last.stands()
        &&& to.entries() == last.after.entries()
        &&& to.ttl_ms() == last.after.ttl_ms()
    }
}

/// Whether every one of the calls came in the lifetime of the pin `e`, and none evicted it.
pub open spec fn spare(steps: Seq<PinStep>, e: PinEntry, ttl_ms: u64) -> bool {
    forall|i: int|
        0 <= i < steps.len() ==> e.alive((#[trigger] steps[i]).now_ms, ttl_ms)
            && !steps[i].evicts(e)
}

proof fn a_pin_stays(from: PinTable, steps: Seq<PinStep>, to: PinTable, e: PinEntry)
    requires
        held(from.entries(), e),
        leads(from, steps, to),
        spare(steps, e, to.ttl_ms()),
    ensures
        held(to.entries(), e),
    decreases steps.len(),
{
    if steps.len() > 0 {
        let last = steps[steps.len() - 1];
        let init = steps.drop_last();
        let before = last.before;
        assert(last == steps.last());
        assert(before.ttl_ms() == to.ttl_ms());
        assert forall|i: int| 0 <= i < init.len() implies e.alive(
            (#[trigger] init[i]).now_ms,
            before.ttl_ms(),
        ) && !init[i].evicts(e) by {
            assert(init[i] == steps[i]);
        }
        a_pin_stays(from, init, before, e);
        let m = choose|m: int|
            0 <= m < before.entries().len() && #[trigger] same_pin(before.entries()[m], e);
        let x = before.entries()[m];
        assert(x.alive(last.now_ms, before.ttl_ms()));
        assert(held(to.entries(), x)) by {
            match last.call {
                PinCall::Lookup { revision, policy_version, found } => {
                    a_lookup_makes_no_pin(
                        before.entries(),
                        revision,
                        policy_version,
                        last.now_ms,
                        before.ttl_ms(),
                        before.tick(),
                    );
                },
                PinCall::Pin { observed, made, policy_version, answer } => {
                    let live = kept(before.entries(), last.now_ms, before.ttl_ms());
                    let released = before.released() + expired_slots(
                        before.entries(),
                        last.now_ms,
                        before.ttl_ms(),
                    );
                    let k = kept_keeps(before.entries(), m, last.now_ms, before.ttl_ms());
                    if answer is Ok {
                        let revision = if pinned(live, observed, policy_version) {
                            observed
                        } else {
                            made->Ok_0->Some_0
                        };
                        pinning_evicts_only_for_room(
                            last.after,
                            live,
                            released,
                            before.evictions(),
                            revision,
                            policy_version,
                            last.now_ms,
                            answer->Ok_0,
                            k,
                        );
                        assert(!last.evicts(e));
                    } else {
                        assert(same_pin(to.entries()[k], x));
                    }
                },
            }
        }
        let i = choose|i: int| 0 <= i < to.entries().len() && #[trigger] same_pin(
            to.entries()[i],
            x,
        );
        assert(same_pin(to.entries()[i], e));
    }
}

/// A pin that is not evicted answers until its time has passed, and not longer, however often
/// pins are looked up and made in between. Less than the time to live after it was issued, a
/// lookup finds the pin's own view and counts one hit. From then on a lookup finds nothing and
/// counts no hit: the pin is gone, its slot is released exactly once, and it is one of those
/// counted as expired. A lookup under another policy version finds nothing, unless that was
/// pinned itself.
pub proof fn a_pin_answers_until_its_time(
    from: PinTable,
    steps: Seq<PinStep>,
    table: PinTable,
    e: PinEntry,
    now_ms: u64,
    found: Option<PinnedView>,
    after: PinTable,
    other_version: Option<u64>,
)
    requires
        held(from.entries(), e),
        leads(from, steps, table),
        spare(steps, e, table.ttl_ms()),
        table.wf(),
        table.looked_up(e.view.revision, e.policy_version, now_ms, found, after),
    ensures
        e.alive(now_ms, table.ttl_ms()) ==> {
            &&& found == Some(e.view)
            &&& after.hits() == metrics::counted(table.hits(), 1)
            &&& held(after.entries(), e)
        },
        !e.alive(now_ms, table.ttl_ms()) ==> {
            let gone = expired_slots(table.entries(), now_ms, table.ttl_ms());
            &&& found is None
            &&& after.hits() == table.hits()
            &&& !held(after.entries(), e)
            &&& after.released() == table.released() + gone
            &&& after.expiries() == metrics::counted(table.expiries(), gone.len())
            &&& exists|i: int| 0 <= i < gone.len() && #[trigger] gone[i] == e.view.slot
            &&& forall|i: int, j: int|
                0 <= i < j < gone.len() ==> #[trigger] gone[i] != #[trigger] gone[j]
        },
        !pinned(table.entries(), e.view.revision, other_version) ==> lookup_result(
            table.entries(),
            e.view.revision,
            other_version,
            now_ms,
            table.ttl_ms(),
        ) is None,
{
    let entries = table.entries();
    let ttl = table.ttl_ms();
    let live = kept(entries, now_ms, ttl);
    a_pin_stays(from, steps, table, e);
    kept_is_distinct(entries, table.tick(), now_ms, ttl);
    let m = choose|m: int| 0 <= m < entries.len() && #[trigger] same_pin(entries[m], e);
    if e.alive(now_ms, ttl) {
        assert(entries[m].alive(now_ms, ttl));
        let i = kept_keeps(entries, m, now_ms, ttl);
        assert(live[i].is_at(e.view.revision, e.policy_version));
        one_place(live, table.tick(), i);
        assert(same_pin(after.entries()[i], e));
    } else {
        assert(!entries[m].alive(now_ms, ttl));
        expired_is_released(entries, table.tick(), m, now_ms, ttl);
        expired_slots_are_slots(entries, table.tick(), now_ms, ttl);
        assert forall|i: int| 0 <= i < live.len() implies !#[trigger] same_pin(live[i], e)
            && !live[i].is_at(e.view.revision, e.policy_version) by {
            assert(live[i].alive(now_ms, ttl));
            assert(entries.contains(live[i]));
            let q = choose|q: int| 0 <= q < entries.len() && entries[q] == live[i];
            if q < m {
                assert(entries[q].used != entries[m].used);
            } else if m < q {
                assert(entries[m].used != entries[q].used);
            }
        }
    }
    if pinned(live, e.view.revision, other_version) {
        let i = choose|i: int|
            0 <= i < live.len() && (#[trigger] live[i]).is_at(e.view.revision, other_version);
        assert(entries.contains(live[i]));
        let q = choose|q: int| 0 <= q < entries.len() && entries[q] == live[i];
        assert(entries[q].is_at(e.view.revision, other_version));
    }
}

/// What one page reads of the records that are left: one more than it can hold.
pub open spec fn scan(rest: Seq<Record>, max_items: nat) -> Seq<Record> {
    if rest.len() <= max_items + 1 {
        rest
    } else {
        rest.take(max_items as int + 1)
    }
}

/// The records of a whole walk: page after page, until one says that there is no other.
pub open spec fn walk(rest: Seq<Record>, max_items: nat, max_bytes: nat) -> Seq<Record>
    decreases rest.len(),
{
    let (n, more) = cut(scan(rest, max_items), 0, 0, max_items, max_bytes);
    if more && 0 < n <= rest.len() {
        rest.take(n as int) + walk(rest.skip(n as int), max_items, max_bytes)
    } else {
        rest.take(n as int)
    }
}

proof fn cut_is_within(records: Seq<Record>, i: nat, used: nat, max_items: nat, max_bytes: nat)
    requires
        i <= records.len(),
        i <= max_items,
    ensures
        ({
            let (n, more) = cut(records, i, used, max_items, max_bytes);
            &&& i <= n <= records.len()
            &&& n <= max_items || (n == 1 && max_items == 0 && i == 0)
            &&& !more ==> n == records.len()
            &&& more && max_items > 0 && i == 0 ==> n > 0
        }),
    decreases records.len() - i,
{
    if i < records.len() && i < max_items && used + records[i as int].cost <= max_bytes {
        cut_is_within(records, i + 1, used + records[i as int].cost as nat, max_items, max_bytes);
    }
}

/// A walk hands over every record exactly once and in order, whatever the caps are, as long as a
/// page may hold a record at all.
pub proof fn a_walk_covers_everything(rest: Seq<Record>, max_items: nat, max_bytes: nat)
    requires
        max_items > 0,
    ensures
        walk(rest, max_items, max_bytes) == rest,
    decreases rest.len(),
{
    let scanned = scan(rest, max_items);
    let (n, more) = cut(scanned, 0, 0, max_items, max_bytes);
    cut_is_within(scanned, 0, 0, max_items, max_bytes);
    if more {
        a_walk_covers_everything(rest.skip(n as int), max_items, max_bytes);
        assert(rest.take(n as int) + rest.skip(n as int) =~= rest);
    } else {
        assert(scanned.len() == rest.len());
        assert(rest.take(n as int) =~= rest);
    }
}

/// What the first `n` records cost.
pub open spec fn total_cost(records: Seq<Record>, n: nat) -> nat
    decreases n,
{
    if n == 0 {
        0
    } else {
        total_cost(records, (n - 1) as nat) + records[n - 1].cost as nat
    }
}

/// A page keeps to both caps, except that its first record is always there.
pub proof fn a_page_keeps_to_its_caps(records: Seq<Record>, max_items: nat, max_bytes: nat)
    requires
        max_items > 0,
    ensures
        ({
            let (n, more) = cut(records, 0, 0, max_items, max_bytes);
            &&& n <= max_items
            &&& records.len() > 0 ==> n > 0
            &&& n <= 1 || total_cost(records, n) <= max_bytes
        }),
{
    cut_is_within(records, 0, 0, max_items, max_bytes);
    cut_costs(records, 0, 0, max_items, max_bytes);
}

proof fn cut_costs(records: Seq<Record>, i: nat, used: nat, max_items: nat, max_bytes: nat)
    requires
        i <= records.len(),
        used == total_cost(records, i),
        used <= max_bytes,
    ensures
        ({
            let (n, more) = cut(records, i, used, max_items, max_bytes);
            n <= 1 || total_cost(records, n) <= max_bytes
        }),
    decreases records.len() - i,
{
    if i < records.len() && i < max_items && used + records[i as int].cost <= max_bytes {
        cut_costs(records, i + 1, used + records[i as int].cost as nat, max_items, max_bytes);
    }
}

/// A pin lives from when it was made for as long as pins live, and not a moment longer. A clock
/// that stands or goes back takes nothing from it.
pub proof fn a_pin_lives_for_its_time(e: PinEntry, now_ms: u64, ttl_ms: u64)
    ensures
        e.alive(now_ms, ttl_ms) <==> ttl_ms > 0 && now_ms < e.issued_ms + ttl_ms,
{
}

/// A token is bound to what it was issued for: it opens only for the same prefix and principal,
/// under the same policy, on the node that issued it and since that node was started. One that
/// does not is told the first of these that failed.
pub proof fn a_token_is_bound_to_its_walk(
    p: Paginator,
    opened: Result<PageToken, PageTokenExpiredReason>,
    prefix_hash: Seq<u8>,
    principal_hash: Seq<u8>,
)
    ensures
        ({
            let verdict = p.verdict(opened, prefix_hash, principal_hash);
            &&& verdict == TokenVerdict::Good <==> (opened matches Ok(token) && {
                &&& token.prefix_hash@ == prefix_hash
                &&& token.principal_hash@ == principal_hash
                &&& token.policy_version == (if p.active_policy == 0 {
                    None
                } else {
                    Some(p.active_policy)
                })
                &&& token.node_id == p.node_id
                &&& p.started_ms <= token.issued_ms
            })
            &&& opened matches Err(reason) ==> verdict.error() == Some(
                ConfigErrorModel::PageTokenExpired { reason },
            )
            &&& opened matches Ok(token) ==> match verdict.error() {
                None => verdict == TokenVerdict::Good,
                Some(ConfigErrorModel::InvalidArgument { .. }) => token.prefix_hash@ != prefix_hash
                    || token.principal_hash@ != principal_hash,
                Some(ConfigErrorModel::PageTokenExpired { reason }) => token.prefix_hash@
                    == prefix_hash && token.principal_hash@ == principal_hash && (reason
                    is PolicyVersion <==> token.policy_version != p.policy()) && (reason
                    is PolicyVersion || reason is Node),
                Some(_) => false,
            }
        }),
{
}

/// A walk goes on exactly while its token is good, is younger than a pin may be, and its pin is
/// there: one made of that revision under that policy, whose own time has not passed. A token that
/// is too old is told apart from one whose pin had to make room.
pub proof fn a_walk_goes_on_while_its_pin_is_there(
    p: Paginator,
    token: PageToken,
    prefix_hash: Seq<u8>,
    principal_hash: Seq<u8>,
    now_ms: u64,
)
    requires
        p.wf(),
        p.verdict(Ok(token), prefix_hash, principal_hash) == TokenVerdict::Good,
    ensures
        ({
            let verdict = p.continuation(Ok(token), prefix_hash, principal_hash, now_ms);
            let entries = p.pins.entries();
            let young = p.ttl_ms > 0 && now_ms < token.issued_ms + p.ttl_ms;
            let there = exists|i: int|
                0 <= i < entries.len() && (#[trigger] entries[i]).view.revision == token.revision
                    && entries[i].policy_version == token.policy_version && now_ms
                    < entries[i].issued_ms + p.ttl_ms;
            &&& verdict == TokenVerdict::Good <==> young && there
            &&& verdict == TokenVerdict::Expired(PageTokenExpiredReason::Expired) <==> !young
            &&& verdict == TokenVerdict::Expired(PageTokenExpiredReason::Evicted) <==> young
                && !there
        }),
{
    let entries = p.pins.entries();
    let live = kept(entries, now_ms, p.ttl_ms);
    kept_is_distinct(entries, p.pins.tick(), now_ms, p.ttl_ms);
    if pinned(live, token.revision, token.policy_version) {
        let i = choose|i: int|
            0 <= i < live.len() && (#[trigger] live[i]).is_at(token.revision, token.policy_version);
        assert(entries.contains(live[i]) && live[i].alive(now_ms, p.ttl_ms));
        let k = choose|k: int| 0 <= k < entries.len() && entries[k] == live[i];
        assert(entries[k].view.revision == token.revision);
    }
    if p.ttl_ms > 0 && exists|i: int|
        0 <= i < entries.len() && (#[trigger] entries[i]).view.revision == token.revision
            && entries[i].policy_version == token.policy_version && now_ms < entries[i].issued_ms
            + p.ttl_ms {
        let k = choose|i: int|
            0 <= i < entries.len() && (#[trigger] entries[i]).view.revision == token.revision
                && entries[i].policy_version == token.policy_version && now_ms
                < entries[i].issued_ms + p.ttl_ms;
        let i = kept_keeps(entries, k, now_ms, p.ttl_ms);
        assert(live[i].is_at(token.revision, token.policy_version));
    }
}

/// A refused continuation is counted under its own reason and no other, and one that is refused
/// for what it asks, or not refused, under none.
pub proof fn a_miss_counts_under_its_reason(
    p: Paginator,
    verdict: TokenVerdict,
    after: Paginator,
    reason: PageTokenExpiredReason,
)
    requires
        p.counts(verdict, after),
        p.pins.miss_counts().len() == 5,
        p.pins.misses(reason) < u64::MAX,
    ensures
        after.pins.misses(reason) == p.pins.misses(reason) + (if verdict == TokenVerdict::Expired(
            reason,
        ) {
            1int
        } else {
            0
        }),
{
}

proof fn cut_is_full(records: Seq<Record>, i: nat, used: nat, max_items: nat, max_bytes: nat)
    requires
        i <= records.len(),
        i <= max_items,
        used == total_cost(records, i),
        used <= max_bytes,
    ensures
        ({
            let (n, more) = cut(records, i, used, max_items, max_bytes);
            &&& !more ==> n == records.len()
            &&& more && n > 1 ==> n < records.len() && (n == max_items || total_cost(
                records,
                n + 1,
            ) > max_bytes)
            &&& more && n <= 1 ==> (n < records.len() && n == max_items) || (n < records.len() && n
                == 1 && total_cost(records, 2) > max_bytes) || (n == 1 && total_cost(records, 1)
                > max_bytes)
        }),
    decreases records.len() - i,
{
    if i < records.len() && i < max_items {
        assert(total_cost(records, i + 1) == total_cost(records, i) + records[i as int].cost);
        if used + records[i as int].cost <= max_bytes {
            cut_is_full(
                records,
                i + 1,
                used + records[i as int].cost as nat,
                max_items,
                max_bytes,
            );
        }
    }
}

/// A page is as full as its caps let it be: it ends where the records end, at as many as it may
/// hold, or before the first that would exceed its bytes. Only a page that would hold nothing takes
/// one record that is too large by itself, so that a walk always moves.
pub proof fn a_page_is_as_full_as_it_may_be(
    records: Seq<Record>,
    max_items: nat,
    max_bytes: nat,
)
    requires
        max_items > 0,
    ensures
        ({
            let (n, more) = cut(records, 0, 0, max_items, max_bytes);
            &&& !more ==> n == records.len() && (n <= max_items) && total_cost(records, n)
                <= max_bytes
            &&& more ==> 0 < n <= records.len() && n <= max_items
            &&& more && total_cost(records, n) <= max_bytes ==> n < records.len() && (n == max_items
                || total_cost(records, n + 1) > max_bytes)
            &&& total_cost(records, n) > max_bytes ==> n == 1
        }),
{
    cut_is_full(records, 0, 0, max_items, max_bytes);
    cut_is_within(records, 0, 0, max_items, max_bytes);
    cut_costs(records, 0, 0, max_items, max_bytes);
    if records.len() > 0 {
        assert(total_cost(records, 1) == total_cost(records, 0) + records[0].cost);
        if records[0].cost > max_bytes {
            assert(cut(records, 0, 0, max_items, max_bytes) == (1nat, true));
        }
    }
}

/// The pin that makes room is the one that was used least recently: none that is held was used
/// before it. Whatever is looked up or made is the one used most recently.
pub proof fn the_least_recently_used_makes_room(
    entries: Seq<PinEntry>,
    v: int,
    i: int,
    tick: u64,
)
    requires
        distinct(entries, tick),
        tick < u64::MAX,
        0 <= i < entries.len(),
    ensures
        least_recent(entries, v) <==> 0 <= v < entries.len() && forall|j: int|
            0 <= j < entries.len() && j != v ==> entries[v].used < (#[trigger] entries[j]).used,
        ({
            let after = refreshed(entries, i, (tick + 1) as u64);
            &&& after.len() == entries.len()
            &&& after[i].view == entries[i].view && after[i].policy_version
                == entries[i].policy_version && after[i].issued_ms == entries[i].issued_ms
            &&& forall|j: int|
                0 <= j < entries.len() && j != i ==> #[trigger] after[j] == entries[j]
                    && after[j].used < after[i].used
        }),
{
    if least_recent(entries, v) {
        assert forall|j: int| 0 <= j < entries.len() && j != v implies entries[v].used < (
        #[trigger] entries[j]).used by {
            assert(entries[v].used <= entries[j].used);
            if j < v {
                assert(entries[j].used != entries[v].used);
            } else {
                assert(entries[v].used != entries[j].used);
            }
        }
    }
}

/// A state that is pinned is there to be read again, under the revision it was made of, and never
/// more pins are held than may be. One that is pinned already shares its pin; a new one is issued
/// now, and makes an old one go only where there is no room.
pub proof fn a_pinned_state_is_held(
    after: PinTable,
    live: Seq<PinEntry>,
    released: Seq<u64>,
    evictions: u64,
    revision: u64,
    policy_version: Option<u64>,
    now_ms: u64,
    view: PinnedView,
)
    requires
        after.holds_pin(live, released, evictions, revision, policy_version, now_ms, view),
        1 <= after.capacity(),
        live.len() <= after.capacity(),
    ensures
        exists|i: int|
            0 <= i < after.entries().len() && (#[trigger] after.entries()[i]).view == view
                && after.entries()[i].view.revision == revision && after.entries()[i].policy_version
                == policy_version && after.entries()[i].used == after.tick(),
        after.entries().len() <= after.capacity(),
        (exists|i: int|
            0 <= i < live.len() && (#[trigger] live[i]).view.revision == revision
                && live[i].policy_version == policy_version) ==> {
            &&& exists|i: int| 0 <= i < live.len() && (#[trigger] live[i]).view == view
            &&& after.entries().len() == live.len()
            &&& after.evictions() == evictions
            &&& after.released() == released
        },
        !(exists|i: int|
            0 <= i < live.len() && (#[trigger] live[i]).view.revision == revision
                && live[i].policy_version == policy_version) ==> {
            let e = after.entries().last();
            &&& e.view == view && e.issued_ms == now_ms
            &&& live.len() < after.capacity() ==> after.entries().len() == live.len() + 1
                && after.evictions() == evictions && after.released() == released
            &&& live.len() >= after.capacity() ==> after.evictions() == metrics::counted(
                evictions,
                1,
            ) && after.released().len() == released.len() + 1
        },
{
    if pinned(live, revision, policy_version) {
        let i = place_of(live, revision, policy_version);
        assert(live[i].is_at(revision, policy_version));
        assert(after.entries()[i].view == view);
        assert(live[i].view.revision == revision);
    } else {
        assert(after.entries()[after.entries().len() - 1].view == view);
        if exists|i: int|
            0 <= i < live.len() && (#[trigger] live[i]).view.revision == revision
                && live[i].policy_version == policy_version {
            let i = choose|i: int|
                0 <= i < live.len() && (#[trigger] live[i]).view.revision == revision
                    && live[i].policy_version == policy_version;
            assert(live[i].is_at(revision, policy_version));
        }
    }
}

/// A page shows records as they were read from the pinned state, in order and from the first, and
/// says so. Where it leaves some, it comes with a token: one that names the last record shown and
/// the revision they were read at, and that opens for the same prefix and principal on the node
/// that issued it.
pub proof fn a_token_opens_where_it_was_issued(
    p: Paginator,
    page: ListPage<PageToken>,
    view: PinnedView,
    effective: ListRequest,
    records: Seq<Record>,
    prefix_hash: [u8; 32],
    principal_hash: [u8; 32],
    now_ms: u64,
)
    requires
        p.is_page(page, view, effective, records, prefix_hash, principal_hash, now_ms),
        effective.max_items > 0,
        p.started_ms <= now_ms,
    ensures
        page.revision == view.revision,
        page.items@.len() <= records.len(),
        page.items@.len() <= effective.max_items,
        forall|i: int| 0 <= i < page.items@.len() ==> #[trigger] page.items@[i] == records[i],
        records.len() > 0 ==> page.items@.len() > 0,
        page.truncated <==> page.next_page_token is Some,
        page.items@.len() < records.len() ==> page.truncated,
        page.next_page_token matches Some(token) ==> {
            &&& p.verdict(Ok(token), prefix_hash@, principal_hash@) == TokenVerdict::Good
            &&& token.revision == view.revision
            &&& token.last_key@ == page.items@[page.items@.len() - 1].key@
            &&& token.issued_ms == now_ms
            &&& forall|q: Paginator|
                q.node_id != p.node_id ==> #[trigger] q.verdict(
                    Ok(token),
                    prefix_hash@,
                    principal_hash@,
                ) != TokenVerdict::Good
        },
{
    a_page_is_as_full_as_it_may_be(
        records,
        effective.max_items as nat,
        effective.max_bytes as nat,
    );
    a_page_keeps_to_its_caps(records, effective.max_items as nat, effective.max_bytes as nat);
}

/// What leaves a table undisturbed leaves everything but its counts of misses; what sweeps it drops
/// the pins whose time has passed, and keeps its bounds and what it counted of evictions.
pub proof fn a_table_changes_only_as_it_says(
    before: PinTable,
    after: PinTable,
    now_ms: u64,
    e: PinEntry,
)
    requires
        before.wf(),
    ensures
        after.undisturbed(before) ==> after.entries() == before.entries() && after.released()
            == before.released() && after.tick() == before.tick() && after.hits() == before.hits()
            && after.evictions() == before.evictions() && after.expiries() == before.expiries()
            && after.capacity() == before.capacity() && after.ttl_ms() == before.ttl_ms(),
        after.same_otherwise(before) ==> after.capacity() == before.capacity() && after.ttl_ms()
            == before.ttl_ms() && after.miss_counts() == before.miss_counts(),
        after.swept(before, now_ms) ==> after.evictions() == before.evictions()
            && after.capacity() == before.capacity() && after.ttl_ms() == before.ttl_ms()
            && after.released().len() == before.released().len() + before.entries().len() - kept(
            before.entries(),
            now_ms,
            before.ttl_ms(),
        ).len(),
        kept(before.entries(), now_ms, before.ttl_ms()).contains(e) <==> before.entries().contains(e)
            && before.ttl_ms() > 0 && now_ms < e.issued_ms + before.ttl_ms(),
{
    let entries = before.entries();
    let ttl = before.ttl_ms();
    kept_is_distinct(entries, before.tick(), now_ms, ttl);
    expired_slots_are_slots(entries, before.tick(), now_ms, ttl);
    if entries.contains(e) && e.alive(now_ms, ttl) {
        let k = choose|k: int| 0 <= k < entries.len() && entries[k] == e;
        let i = kept_keeps(entries, k, now_ms, ttl);
        assert(kept(entries, now_ms, ttl)[i] == e);
    }
}

} // verus!
