//! Points in time, counted in nanoseconds from the Unix epoch, as far as a
//! system clock counts that holds its seconds in an `i64`.

use std::time::SystemTime;
use std::time::UNIX_EPOCH;
use vstd::prelude::*;

verus! {

/// The number of nanoseconds in one second.
pub const NANOS_PER_SEC: u128 = 1_000_000_000;

/// The last instant that the library counts to: `i64::MAX` seconds after the
/// Unix epoch, and the last nanosecond of that second.  A system clock that
/// holds its seconds in an `i64` counts no further.
pub const LAST_NANOS: u128 = 9_223_372_036_854_775_807_999_999_999;

/// A point in time: the nanoseconds that have passed since the Unix epoch.
/// The times that the library makes lie at or before [`LAST_NANOS`].
#[derive(Clone, Copy, Debug, PartialEq, Eq, PartialOrd, Ord, Hash)]
pub struct Timestamp {
    pub nanos: u128,
}

/// Reads the system clock with `std::time::SystemTime::now` and hands back
/// the nanoseconds since the Unix epoch, or `None` where the clock stands
/// before the epoch.  Nothing is claimed of the value.
#[verifier::external_body]
fn clock_nanos() -> Option<u128> {
    SystemTime::now().duration_since(UNIX_EPOCH).ok().map(|d| d.as_nanos())
}

impl Timestamp {
    /// The time `secs` seconds after `self`.  A negative `secs`, or a sum that
    /// lies past the last instant, [`LAST_NANOS`], leaves the time where it
    /// is.
    pub open spec fn after(self, secs: int) -> Timestamp {
        if 0 <= secs && self.nanos + secs * NANOS_PER_SEC <= LAST_NANOS {
            Timestamp { nanos: (self.nanos + secs * NANOS_PER_SEC) as u128 }
        } else {
            self
        }
    }

    /// Whether `self` lies strictly before `other`.
    pub open spec fn before(self, other: Timestamp) -> bool {
        self.nanos < other.nanos
    }

    /// Whether `self` lies at or before the last instant, [`LAST_NANOS`].
    pub open spec fn in_range(self) -> bool {
        self.nanos <= LAST_NANOS
    }

    /// The current time by the system clock, read at each call.  What the
    /// clock shows becomes a time as [`Timestamp::from_reading`] says, so the
    /// time lies at or before the last instant.
    pub fn now() -> (t: Timestamp)
        ensures
            t.in_range(),
    {
        Timestamp::from_reading(clock_nanos())
    }

    /// Moves the time forward by `secs` seconds, see [`Timestamp::after`].
    pub fn add_secs(self, secs: i64) -> (t: Timestamp)
        ensures
            t == self.after(secs as int),
    {
        if secs < 0 || self.nanos > LAST_NANOS {
            return self;
        }
        let delta: u128 = (secs as u128) * NANOS_PER_SEC;
        if delta <= LAST_NANOS - self.nanos {
            Timestamp { nanos: self.nanos + delta }
        } else {
            self
        }
    }

    /// Whether `self` lies strictly before `other`.
    pub fn is_before(self, other: Timestamp) -> (b: bool)
        ensures
            b == self.before(other),
    {
        self.nanos < other.nanos
    }

    /// The time that a reading of the clock stands for: the nanoseconds since
    /// the Unix epoch where the clock gave them, the epoch itself where the
    /// clock stands before it, and the last instant where it stands past that.
    pub open spec fn of_reading(reading: Option<u128>) -> Timestamp {
        match reading {
            Some(nanos) => if nanos <= LAST_NANOS {
                Timestamp { nanos }
            } else {
                Timestamp { nanos: LAST_NANOS }
            },
            None => Timestamp { nanos: 0 },
        }
    }

    /// Turns a reading of the clock into a time, see
    /// [`Timestamp::of_reading`].
    pub fn from_reading(reading: Option<u128>) -> (t: Timestamp)
        ensures
            t == Timestamp::of_reading(reading),
            t.in_range(),
    {
        match reading {
            Some(nanos) => if nanos <= LAST_NANOS {
                Timestamp { nanos }
            } else {
                Timestamp { nanos: LAST_NANOS }
            },
            None => Timestamp { nanos: 0 },
        }
    }
}

/// A time moved forward by a positive number of seconds, to a time at or
/// before the last instant, lies strictly after the starting time, and exactly
/// that many seconds later.
pub proof fn lemma_after_in_window(now: Timestamp, secs: int)
    requires
        0 < secs,
        now.nanos + secs * NANOS_PER_SEC <= LAST_NANOS,
    ensures
        now.before(now.after(secs)),
        now.after(secs).nanos == now.nanos + secs * NANOS_PER_SEC,
{
}

/// A time that is moved forward never passes the last instant, and never
/// moves back: it stays where it is wherever the move would lead past the last
/// instant.
pub proof fn lemma_after_in_range(now: Timestamp, secs: int)
    requires
        now.in_range(),
    ensures
        now.after(secs).in_range(),
        !now.after(secs).before(now),
        now.nanos + secs * NANOS_PER_SEC > LAST_NANOS ==> now.after(secs) == now,
{
}

} // verus!
