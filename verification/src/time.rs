//! Spans of time, held in nanoseconds.

use vstd::prelude::*;

verus! {

/// A span of time.
#[derive(Clone, Copy, PartialEq, Eq, Structural, Debug, Hash)]
pub struct Duration {
    /// Its length in nanoseconds.
    pub nanos: u128,
}

impl Duration {
    /// A span of `n` nanoseconds.
    pub fn from_nanos(n: u64) -> (d: Duration)
        ensures
            d.nanos == n,
    {
        Duration { nanos: n as u128 }
    }

    /// A span of `n` microseconds.
    pub fn from_micros(n: u64) -> (d: Duration)
        ensures
            d.nanos == n * 1_000,
    {
        Duration { nanos: n as u128 * 1_000 }
    }

    /// A span of `n` milliseconds.
    pub fn from_millis(n: u64) -> (d: Duration)
        ensures
            d.nanos == n * 1_000_000,
    {
        Duration { nanos: n as u128 * 1_000_000 }
    }

    /// A span of `n` seconds.
    pub fn from_secs(n: u64) -> (d: Duration)
        ensures
            d.nanos == n * 1_000_000_000,
    {
        Duration { nanos: n as u128 * 1_000_000_000 }
    }

    /// Whole microseconds.
    pub fn as_micros(&self) -> (r: u128)
        ensures
            r == self.nanos as nat / 1_000,
    {
        self.nanos / 1_000
    }

    /// Whole milliseconds.
    pub fn as_millis(&self) -> (r: u128)
        ensures
            r == self.nanos as nat / 1_000_000,
    {
        self.nanos / 1_000_000
    }

    /// Whether the span is empty.
    pub fn is_zero(&self) -> (r: bool)
        ensures
            r == (self.nanos == 0),
    {
        self.nanos == 0
    }
}

/// What the standard library's `Debug` writes for a span of `secs` seconds and `nanos`
/// nanoseconds.
pub uninterp spec fn span_text(secs: u64, nanos: u32) -> Seq<char>;

/// `<std::time::Duration as Debug>::fmt`, through `format!`. Its result is a function of the
/// span alone; which unit it picks, and how it rounds, is left unsaid.
#[verifier::external_body]
fn debug_span(secs: u64, nanos: u32) -> (r: String)
    requires
        nanos < 1_000_000_000,
    ensures
        r@ == span_text(secs, nanos),
{
    format!("{:?}", std::time::Duration::new(secs, nanos))
}

impl Duration {
    /// Whether the seconds of the span fit in 64 bits.
    pub open spec fn fits(&self) -> bool {
        self.nanos as nat / 1_000_000_000 <= u64::MAX
    }

    /// The text of the span.
    pub open spec fn text(&self) -> Seq<char> {
        span_text(
            (self.nanos as nat / 1_000_000_000) as u64,
            (self.nanos as nat % 1_000_000_000) as u32,
        )
    }

    /// The span as text.
    pub fn describe(&self) -> (r: String)
        requires
            self.fits(),
        ensures
            r@ == self.text(),
    {
        debug_span((self.nanos / 1_000_000_000) as u64, (self.nanos % 1_000_000_000) as u32)
    }
}

} // verus!
