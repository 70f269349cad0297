//! Points in time, as the rate limiter compares them.

use vstd::prelude::*;

verus! {

/// Length of the rate-limit window: 24 hours, in nanoseconds.
pub const WINDOW_NANOS: i128 = 86_400_000_000_000;

/// A point in time: whole seconds since the Unix epoch and the nanoseconds
/// that follow them.
#[derive(Clone, Copy, Debug, PartialEq, Eq, Structural)]
pub struct Timestamp {
    pub secs: i64,
    pub nanos: u32,
}

impl Timestamp {
    /// Nanoseconds since the Unix epoch.
    pub open spec fn as_nanos(self) -> int {
        self.secs * 1_000_000_000 + self.nanos
    }

    pub fn new(secs: i64, nanos: u32) -> (t: Timestamp)
        ensures
            t.secs == secs,
            t.nanos == nanos,
    {
        Timestamp { secs, nanos }
    }

    /// Nanoseconds from `earlier` to `self`; negative when `self` comes first.
    pub fn nanos_since(&self, earlier: &Timestamp) -> (d: i128)
        ensures
            d == self.as_nanos() - earlier.as_nanos(),
    {
        let whole: i128 = (self.secs as i128 - earlier.secs as i128) * 1_000_000_000;
        whole + (self.nanos as i128 - earlier.nanos as i128)
    }

    /// Whether more than the rate-limit window lies between `earlier` and `self`.
    pub fn window_elapsed_since(&self, earlier: &Timestamp) -> (gone: bool)
        ensures
            gone == window_elapsed(*earlier, *self),
    {
        self.nanos_since(earlier) > WINDOW_NANOS
    }

    /// The current time, read from `chrono::Utc::now`, as the seconds and
    /// sub-second nanoseconds that `DateTime::timestamp` and
    /// `DateTime::timestamp_subsec_nanos` report for it. Nothing is claimed of
    /// the value: two readings may differ in either direction. `Utc::now`
    /// panics if the system clock stands before the Unix epoch.
    #[verifier::external_body]
    pub(crate) fn now() -> Timestamp {
        let t = chrono::Utc::now();
        Timestamp { secs: t.timestamp(), nanos: t.timestamp_subsec_nanos() }
    }
}

/// More than 24 hours have passed from `last` to `now`.
pub open spec fn window_elapsed(last: Timestamp, now: Timestamp) -> bool {
    now.as_nanos() - last.as_nanos() > WINDOW_NANOS
}

} // verus!
