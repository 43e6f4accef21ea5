//! The leader's clock.

use vstd::prelude::*;

use crate::metrics;
use crate::time::Duration;

verus! {

/// The leader's clock, injectable so that what depends on age can be driven by hand. Nothing
/// that is replicated reads it.
pub trait LeaderClock {
    /// Milliseconds since an arbitrary fixed instant. Only differences mean anything.
    fn now_ms(&self) -> u64;
}

/// The production clock.
#[derive(Clone, Copy, Debug)]
pub struct SystemClock;

/// `SystemTime::now`, as whole milliseconds since the Unix epoch, or `None` for an instant
/// before it. Nothing is claimed of the result: it depends on the machine's clock.
#[verifier::external_body]
fn system_time_ms() -> (r: Option<u128>) {
    std::time::SystemTime::now().duration_since(std::time::UNIX_EPOCH).ok().map(|d| d.as_millis())
}

/// A reading of the system clock as a number of milliseconds: its low 64 bits, and zero for an
/// instant before the epoch.
pub open spec fn clamped_ms(reading: Option<u128>) -> u64 {
    match reading {
        Some(ms) => (ms % 0x1_0000_0000_0000_0000) as u64,
        None => 0,
    }
}

/// The number of milliseconds a reading of the system clock stands for.
pub fn reading_ms(reading: Option<u128>) -> (r: u64)
    ensures
        r == clamped_ms(reading),
{
    match reading {
        Some(ms) => (ms % 0x1_0000_0000_0000_0000) as u64,
        None => 0,
    }
}

/// The system clock's milliseconds since the Unix epoch.
pub fn unix_ms() -> u64 {
    reading_ms(system_time_ms())
}

impl LeaderClock for SystemClock {
    fn now_ms(&self) -> u64 {
        unix_ms()
    }
}

/// A clock that is advanced by hand. It is one instant and is not copied: who shares a clock
/// shares this value.
#[derive(Debug)]
pub struct ManualClock {
    now_ms: u64,
}

impl ManualClock {
    /// What the clock reads.
    pub closed spec fn reading(&self) -> u64 {
        self.now_ms
    }

    /// A clock reading zero.
    pub fn new() -> (c: Self)
        ensures
            c.reading() == 0,
    {
        ManualClock { now_ms: 0 }
    }

    /// Move the clock forward by whole milliseconds; a part of one is dropped.
    pub fn advance(&mut self, by: Duration)
        ensures
            old(self).reading() + by.nanos as nat / 1_000_000 <= u64::MAX ==> final(self).reading()
                == old(self).reading() + by.nanos as nat / 1_000_000,
            final(self).reading() == metrics::counted(
                old(self).reading(),
                by.nanos as nat / 1_000_000,
            ),
    {
        let ms: u64 = (by.as_millis() % 0x1_0000_0000_0000_0000) as u64;
        self.now_ms = metrics::count_up(self.now_ms, ms);
    }
}

impl Default for ManualClock {
    fn default() -> (c: Self)
        ensures
            c.reading() == 0,
    {
        ManualClock::new()
    }
}

impl LeaderClock for ManualClock {
    fn now_ms(&self) -> (r: u64)
        ensures
            r == self.reading(),
    {
        self.now_ms
    }
}

/// A clock that reads a time gives it, and one that reads none, because it stands before the epoch,
/// gives zero.
pub proof fn a_reading_is_kept(ms: u128)
    requires
        ms <= u64::MAX,
    ensures
        clamped_ms(Some(ms)) == ms,
        clamped_ms(None) == 0,
{
}

} // verus!
