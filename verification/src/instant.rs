//! Points in time, free of any time zone.

use vstd::prelude::*;

verus! {

/// The first second of the year 0000, counted from the epoch.
pub const FIRST_SECOND: i64 = -62_167_219_200;

/// The last second of the year 9999, counted from the epoch.
pub const LAST_SECOND: i64 = 253_402_300_799;

/// An absolute point in time: whole seconds since 1970-01-01T00:00:00 UTC,
/// leap seconds not counted, and the nanoseconds past that second. During a
/// leap second `nanos` runs on past 999,999,999.
#[derive(Clone, Copy, Debug, PartialEq, Eq, Structural)]
pub struct Instant {
    pub secs: i64,
    pub nanos: u32,
}

impl Instant {
    /// The instant lies in a year that four digits can write, taken in UTC.
    /// Only such instants are rendered.
    pub open spec fn in_common_years(self) -> bool {
        FIRST_SECOND <= self.secs <= LAST_SECOND
    }

    /// Decides `in_common_years`.
    pub fn is_in_common_years(&self) -> (yes: bool)
        ensures
            yes == self.in_common_years(),
    {
        FIRST_SECOND <= self.secs && self.secs <= LAST_SECOND
    }
}

} // verus!
