//! The time at which a change was detected.

use vstd::prelude::*;

verus! {

/// The number of nanoseconds in a second.
pub const NANOSECONDS_PER_SECOND: u32 = 1_000_000_000;

/// A point in time: whole seconds since 1970-01-01 00:00:00 UTC, and the
/// nanoseconds since the last whole second.
#[derive(Debug, Clone, Copy, PartialEq, Eq, Structural)]
pub struct Timestamp {
    pub seconds: i64,
    pub nanoseconds: u32,
}

impl Timestamp {
    /// Whether the nanoseconds are a part of a second: less than a whole
    /// one.  A time stamp with more stands for a leap second.
    pub open spec fn is_plain(self) -> bool {
        self.nanoseconds < NANOSECONDS_PER_SECOND
    }

    /// Reads the current time.  Which instant comes back is the system
    /// clock's matter; what is sure is its form: the seconds that the clock
    /// counts since 1970, and the part of a second beyond them, never the
    /// form that stands for a leap second.
    pub fn now() -> (t: Timestamp)
        ensures
            t.is_plain(),
    {
        let (seconds, nanoseconds) = utc_now();
        Timestamp { seconds, nanoseconds }
    }
}

/// Calls `chrono::Utc::now` and takes the result apart with
/// `DateTime::timestamp` and `DateTime::timestamp_subsec_nanos`.  The values
/// come from the system clock, and of the seconds nothing is claimed.  The
/// nanoseconds are less than a second: `Utc::now` makes its result with
/// `DateTime::from_timestamp` from the time since 1970 as the standard
/// library's `Duration` holds it, whose `subsec_nanos` is documented to be
/// less than one billion, and `timestamp_subsec_nanos` gives back the
/// nanoseconds that `from_timestamp` was given.  `Utc::now` fails only where
/// the system clock stands before 1970 or beyond the years that chrono can
/// represent.
#[verifier::external_body]
fn utc_now() -> (t: (i64, u32))
    ensures
        t.1 < NANOSECONDS_PER_SECOND,
{
    let now = chrono::Utc::now();
    (now.timestamp(), now.timestamp_subsec_nanos())
}

} // verus!
