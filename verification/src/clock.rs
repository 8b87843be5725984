//! The deadline clock: from a requested timeout to an absolute wake time.
use vstd::prelude::*;

verus! {

/// Nanoseconds in one second.
pub const NANOS_PER_SEC: u128 = 1_000_000_000;

/// A reading of the process's monotonic clock, in nanoseconds since an origin
/// that the process picks once.
#[derive(Clone, Copy, Debug, PartialEq, Eq, Structural)]
pub struct Timestamp {
    pub nanos: u128,
}

/// A requested timeout: whole seconds and additional nanoseconds, as the
/// caller of a blocking wait states it.
#[derive(Clone, Copy, Debug, PartialEq, Eq, Structural)]
pub struct Timeout {
    pub secs: u64,
    pub nanos: u32,
}

impl Timeout {
    /// The length of the timeout in nanoseconds.
    pub open spec fn spec_total_nanos(self) -> nat {
        (self.secs * NANOS_PER_SEC + self.nanos) as nat
    }

    /// The length of the timeout in nanoseconds.
    pub fn total_nanos(self) -> (n: u128)
        ensures
            n == self.spec_total_nanos(),
    {
        let secs: u128 = self.secs as u128;
        let nanos: u128 = self.nanos as u128;
        secs * NANOS_PER_SEC + nanos
    }

    /// A timeout of `millis` milliseconds.
    pub fn from_millis(millis: u64) -> (t: Timeout)
        ensures
            t.spec_total_nanos() == millis * 1_000_000,
    {
        let rest: u32 = (millis % 1000) as u32;
        Timeout { secs: millis / 1000, nanos: rest * 1_000_000 }
    }
}

/// An absolute point in time after which a bounded wait must end.
#[derive(Clone, Copy, Debug, PartialEq, Eq, Structural)]
pub struct Deadline {
    pub at: Timestamp,
}

impl Deadline {
    /// Whether the clock can show the time `timeout` after `now`.
    pub open spec fn fits(now: Timestamp, timeout: Timeout) -> bool {
        now.nanos + timeout.spec_total_nanos() <= u128::MAX
    }

    /// The deadline `timeout` after `now`: exactly their sum, and `None` only
    /// where the clock cannot show that time.
    pub fn after(now: Timestamp, timeout: Timeout) -> (d: Option<Deadline>)
        ensures
            Deadline::fits(now, timeout) ==> d == Some(
                Deadline { at: Timestamp { nanos: (now.nanos + timeout.spec_total_nanos()) as u128 } },
            ),
            !Deadline::fits(now, timeout) ==> d is None,
    {
        match now.nanos.checked_add(timeout.total_nanos()) {
            Some(at) => Some(Deadline { at: Timestamp { nanos: at } }),
            None => None,
        }
    }
}

} // verus!
