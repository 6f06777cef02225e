//! Spans of time, as whole seconds plus a nanosecond remainder.
use vstd::prelude::*;

verus! {

/// A span of time: whole seconds plus a remainder below one second, in nanoseconds.
#[derive(Debug, Clone, Copy, PartialEq, Eq, Structural)]
pub struct Duration {
    secs: u64,
    nanos: u32,
}

impl Duration {
    /// The remainder stays below one second.
    #[verifier::type_invariant]
    spec fn wf(self) -> bool {
        self.nanos < 1_000_000_000
    }

    /// The span in nanoseconds.
    pub closed spec fn total_nanos(self) -> int {
        self.secs * 1_000_000_000 + self.nanos
    }

    /// The span in whole milliseconds (truncated).
    pub closed spec fn total_millis(self) -> int {
        self.secs * 1000 + self.nanos / 1_000_000
    }

    /// Whole seconds of the span.
    pub closed spec fn whole_secs(self) -> int {
        self.secs as int
    }

    /// The empty span.
    pub fn zero() -> (d: Duration)
        ensures
            d.total_nanos() == 0,
            d.total_millis() == 0,
    {
        Duration { secs: 0, nanos: 0 }
    }

    /// A span of `secs` whole seconds.
    pub fn from_secs(secs: u64) -> (d: Duration)
        ensures
            d.total_nanos() == secs * 1_000_000_000,
            d.total_millis() == secs * 1000,
            d.whole_secs() == secs,
    {
        Duration { secs, nanos: 0 }
    }

    /// A span of `ms` milliseconds.
    pub fn from_millis(ms: u64) -> (d: Duration)
        ensures
            d.total_millis() == ms,
            d.total_nanos() == ms * 1_000_000,
    {
        let secs = ms / 1000;
        let rest = ms % 1000;
        let nanos = (rest as u32) * 1_000_000;
        Duration { secs, nanos }
    }

    /// A span of `secs` seconds plus `nanos` nanoseconds; whole seconds in
    /// `nanos` carry into the seconds.
    pub fn new(secs: u64, nanos: u32) -> (d: Duration)
        requires
            secs + nanos / 1_000_000_000 <= u64::MAX,
        ensures
            d.total_nanos() == secs * 1_000_000_000 + nanos,
    {
        let extra = (nanos / 1_000_000_000) as u64;
        Duration { secs: secs + extra, nanos: nanos % 1_000_000_000 }
    }

    /// Whether the span is empty.
    pub fn is_zero(&self) -> (r: bool)
        ensures
            r == (self.total_nanos() == 0),
    {
        self.secs == 0 && self.nanos == 0
    }

    /// Whole seconds of the span.
    pub fn as_secs(&self) -> (r: u64)
        ensures
            r == self.whole_secs(),
    {
        self.secs
    }

    /// The remainder below one second, in nanoseconds.
    pub fn subsec_nanos(&self) -> (r: u32)
        ensures
            r == self.total_nanos() - self.whole_secs() * 1_000_000_000,
            r < 1_000_000_000,
    {
        proof {
            use_type_invariant(self);
        }
        self.nanos
    }

    /// The span in whole milliseconds, or `u64::MAX` when that does not fit.
    pub fn as_millis_saturating(&self) -> (r: u64)
        ensures
            r == (if self.total_millis() > u64::MAX {
                u64::MAX as int
            } else {
                self.total_millis()
            }),
    {
        let ms: u128 = (self.secs as u128) * 1000 + ((self.nanos / 1_000_000) as u128);
        if ms > u64::MAX as u128 {
            u64::MAX
        } else {
            ms as u64
        }
    }

    /// The span in whole milliseconds, cut to its low 64 bits (what
    /// `as_millis() as u64` gives).
    pub fn as_millis_wrapping(&self) -> (r: u64)
        ensures
            r == self.total_millis() as u64,
    {
        let ms: u128 = (self.secs as u128) * 1000 + ((self.nanos / 1_000_000) as u128);
        ms as u64
    }

    /// Whether `self` is strictly shorter than `other`.
    pub fn lt(&self, other: &Duration) -> (r: bool)
        ensures
            r == (self.total_nanos() < other.total_nanos()),
    {
        proof {
            use_type_invariant(self);
            use_type_invariant(other);
        }
        self.secs < other.secs || (self.secs == other.secs && self.nanos < other.nanos)
    }

    /// Whether the two spans are equal.
    pub fn same(&self, other: &Duration) -> (r: bool)
        ensures
            r == (self.total_nanos() == other.total_nanos()),
    {
        proof {
            use_type_invariant(self);
            use_type_invariant(other);
        }
        self.secs == other.secs && self.nanos == other.nanos
    }
}

} // verus!
