//! A span of time with nanosecond precision, as whole seconds plus a
//! sub-second part below one second.

use vstd::prelude::*;

verus! {

/// A span of time: `secs` whole seconds plus `nanos < 1_000_000_000`
/// nanoseconds.
#[derive(Clone, Copy, PartialEq, Eq, Hash, Debug, PartialOrd, Ord, Structural)]
pub struct Duration {
    secs: u64,
    nanos: u32,
}

impl View for Duration {
    type V = (u64, u32);

    /// Whole seconds and the sub-second nanoseconds.
    closed spec fn view(&self) -> (u64, u32) {
        (self.secs, self.nanos)
    }
}

/// The duration of `ms` milliseconds, as (seconds, nanoseconds).
pub open spec fn millis_view(ms: u64) -> (u64, u32) {
    ((ms / 1000) as u64, ((ms % 1000) * 1_000_000) as u32)
}

impl Duration {
    /// `secs` seconds plus `nanos` nanoseconds, whole seconds of `nanos`
    /// carried into the seconds.
    pub fn new(secs: u64, nanos: u32) -> (r: Duration)
        requires
            secs + nanos / 1_000_000_000 <= u64::MAX,
        ensures
            r@ == ((secs + nanos / 1_000_000_000) as u64, (nanos % 1_000_000_000) as u32),
    {
        Duration { secs: secs + (nanos / 1_000_000_000) as u64, nanos: nanos % 1_000_000_000 }
    }

    /// Whole seconds.
    pub fn from_secs(secs: u64) -> (r: Duration)
        ensures
            r@ == (secs, 0u32),
    {
        Duration { secs, nanos: 0 }
    }

    /// `ms` milliseconds.
    pub fn from_millis(ms: u64) -> (r: Duration)
        ensures
            r@ == millis_view(ms),
    {
        Duration { secs: ms / 1000, nanos: ((ms % 1000) * 1_000_000) as u32 }
    }

    /// The whole seconds, dropping the sub-second part.
    pub fn as_secs(&self) -> (r: u64)
        ensures
            r == self@.0,
    {
        self.secs
    }

    /// The sub-second part in nanoseconds.
    pub fn subsec_nanos(&self) -> (r: u32)
        ensures
            r == self@.1,
    {
        self.nanos
    }
}

/// Two durations are equal exactly when their seconds and nanoseconds are.
pub proof fn lemma_duration_view_injective(a: Duration, b: Duration)
    ensures
        a@ == b@ <==> a == b,
{
}

} // verus!
