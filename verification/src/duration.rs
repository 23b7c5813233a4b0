//! Spans of time, counted in whole nanoseconds.

use vstd::prelude::*;

verus! {

/// The number of nanoseconds in a second.
pub const NANOS_PER_SEC: u32 = 1_000_000_000;

/// A span of time: whole seconds, and nanoseconds below one second.
#[derive(Debug, Clone, Copy, PartialEq, Eq, Structural)]
pub struct Duration {
    secs: u64,
    nanos: u32,
}

impl View for Duration {
    type V = nat;

    /// The span in nanoseconds.
    closed spec fn view(&self) -> nat {
        (self.secs * 1_000_000_000 + self.nanos) as nat
    }
}

impl DeepView for Duration {
    type V = nat;

    open spec fn deep_view(&self) -> nat {
        self@
    }
}

impl Duration {
    #[verifier::type_invariant]
    spec fn well_formed(self) -> bool {
        self.nanos < 1_000_000_000
    }

    /// The span of `secs` seconds and `nanos` nanoseconds. A count of
    /// nanoseconds of a second or more is carried over into the seconds.
    pub fn new(secs: u64, nanos: u32) -> (d: Duration)
        requires
            secs + nanos / 1_000_000_000 <= u64::MAX,
        ensures
            d@ == secs * 1_000_000_000 + nanos,
    {
        let carry: u64 = (nanos / NANOS_PER_SEC) as u64;
        Duration { secs: secs + carry, nanos: nanos % NANOS_PER_SEC }
    }

    /// The span of `secs` seconds.
    pub fn from_secs(secs: u64) -> (d: Duration)
        ensures
            d@ == secs * 1_000_000_000,
    {
        Duration { secs, nanos: 0 }
    }

    /// The span of `millis` milliseconds.
    pub fn from_millis(millis: u64) -> (d: Duration)
        ensures
            d@ == millis * 1_000_000,
    {
        let nanos: u32 = ((millis % 1000) as u32) * 1_000_000;
        Duration { secs: millis / 1000, nanos }
    }

    /// The whole seconds of the span.
    pub fn as_secs(&self) -> (secs: u64)
        ensures
            secs == self@ / 1_000_000_000,
    {
        proof {
            use_type_invariant(self);
        }
        self.secs
    }

    /// The nanoseconds of the span below its whole seconds.
    pub fn subsec_nanos(&self) -> (nanos: u32)
        ensures
            nanos == self@ % 1_000_000_000,
    {
        proof {
            use_type_invariant(self);
        }
        self.nanos
    }

    /// The whole milliseconds of the span.
    pub fn as_millis(&self) -> (millis: u128)
        ensures
            millis == self@ / 1_000_000,
    {
        proof {
            use_type_invariant(self);
        }
        let whole: u128 = (self.secs as u128) * 1000;
        let part: u128 = (self.nanos / 1_000_000) as u128;
        whole + part
    }
}

} // verus!
