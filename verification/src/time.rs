//! Points in time and lengths of time.

use vstd::prelude::*;

verus! {

/// A point in time: whole seconds since the Unix epoch and the nanoseconds on top.
#[derive(Clone, Copy, Debug, PartialEq, Eq, Structural)]
pub struct Timestamp {
    /// Seconds since 1970-01-01T00:00:00Z.
    pub secs: i64,
    /// Nanoseconds within the second.
    pub nanos: u32,
}

/// The last second that the calendar of the HTTP layer can show (end of the year 262142).
pub const LAST_SECOND: i64 = 8_210_266_876_799;

impl Timestamp {
    /// Whether the clock can show this point in time: it lies between the epoch and the last
    /// second of the calendar.
    pub open spec fn on_clock(self) -> bool {
        0 <= self.secs <= LAST_SECOND && self.nanos < 1_000_000_000
    }

    /// Whether `self` comes strictly after the point `secs` seconds and `nanos` nanoseconds
    /// past the epoch.
    pub open spec fn is_after(self, secs: int, nanos: u32) -> bool {
        self.secs > secs || (self.secs == secs && self.nanos > nanos)
    }

    /// Whether `self` lies strictly later than `other`.
    pub open spec fn later_than(self, other: Timestamp) -> bool {
        self.is_after(other.secs as int, other.nanos)
    }

    /// Whether more than `ttl` seconds have gone by from `start` to `self`.
    pub open spec fn beyond(self, start: Timestamp, ttl: int) -> bool {
        self.is_after(start.secs + ttl, start.nanos)
    }

    /// Whether fewer than `ttl` seconds have gone by from `start` to `self`.
    pub open spec fn within(self, start: Timestamp, ttl: int) -> bool {
        start.secs + ttl > self.secs || (start.secs + ttl == self.secs && start.nanos > self.nanos)
    }

    /// The point `secs` seconds later.
    pub open spec fn plus_spec(self, secs: int) -> Timestamp {
        Timestamp { secs: (self.secs + secs) as i64, nanos: self.nanos }
    }

    /// Strict comparison.
    pub fn is_later(&self, other: &Timestamp) -> (r: bool)
        ensures
            r == self.later_than(*other),
    {
        self.secs > other.secs || (self.secs == other.secs && self.nanos > other.nanos)
    }

    /// Whether more than `ttl` seconds have gone by since `start`.
    pub fn is_beyond(&self, start: &Timestamp, ttl: i64) -> (r: bool)
        ensures
            r == self.beyond(*start, ttl as int),
    {
        let limit: i128 = start.secs as i128 + ttl as i128;
        let here: i128 = self.secs as i128;
        here > limit || (here == limit && self.nanos > start.nanos)
    }

    /// Whether fewer than `ttl` seconds have gone by since `start`.
    pub fn is_within(&self, start: &Timestamp, ttl: i64) -> (r: bool)
        ensures
            r == self.within(*start, ttl as int),
    {
        let limit: i128 = start.secs as i128 + ttl as i128;
        let here: i128 = self.secs as i128;
        limit > here || (limit == here && start.nanos > self.nanos)
    }

    /// The point `secs` seconds later.
    pub fn plus(&self, secs: i64) -> (r: Timestamp)
        requires
            i64::MIN <= self.secs + secs <= i64::MAX,
        ensures
            r == self.plus_spec(secs as int),
            r.secs == self.secs + secs,
    {
        Timestamp { secs: self.secs + secs, nanos: self.nanos }
    }
}

/// The longest time to live that is taken into account, in seconds.
pub const LONGEST_TTL_SECS: u64 = 9_223_372_036_854_775;

/// When something expires that lives for a number of seconds from `now` on. A time to live that
/// is missing or out of range gives no expiry.
pub open spec fn expiry_of(now: Timestamp, ttl: Option<u64>) -> Option<Timestamp> {
    match ttl {
        Some(secs) => if secs <= LONGEST_TTL_SECS {
            Some(now.plus_spec(secs as int))
        } else {
            None
        },
        None => None,
    }
}

/// Whether the calendar can show when something expires that lives for a number of seconds.
pub open spec fn shows_expiry(now: Timestamp, ttl: Option<u64>) -> bool {
    ttl matches Some(secs) ==> secs > LONGEST_TTL_SECS || now.secs + secs <= LAST_SECOND
}

/// Whether the calendar can show when something expires that lives for a number of seconds.
pub fn can_show_expiry(now: &Timestamp, ttl: Option<u64>) -> (r: bool)
    ensures
        r == shows_expiry(*now, ttl),
{
    match ttl {
        Some(secs) => secs > LONGEST_TTL_SECS || now.secs as i128 + secs as i128
            <= LAST_SECOND as i128,
        None => true,
    }
}

/// When something expires that lives for a number of seconds from `now` on.
pub fn expiry(now: &Timestamp, ttl: Option<u64>) -> (r: Option<Timestamp>)
    requires
        shows_expiry(*now, ttl),
    ensures
        r == expiry_of(*now, ttl),
{
    match ttl {
        Some(secs) => if secs <= LONGEST_TTL_SECS {
            Some(now.plus(secs as i64))
        } else {
            None
        },
        None => None,
    }
}

/// A length of time: whole seconds and the nanoseconds on top.
#[derive(Clone, Copy, Debug, PartialEq, Eq, Structural)]
pub struct Duration {
    /// Whole seconds.
    pub secs: u64,
    /// Nanoseconds within the second.
    pub nanos: u32,
}

impl Duration {
    /// Whether `self` is strictly shorter than `other`.
    pub open spec fn shorter_than(self, other: Duration) -> bool {
        self.secs < other.secs || (self.secs == other.secs && self.nanos < other.nanos)
    }

    /// A whole number of seconds.
    pub fn from_secs(secs: u64) -> (r: Duration)
        ensures
            r == (Duration { secs, nanos: 0 }),
    {
        Duration { secs, nanos: 0 }
    }

    /// Strict comparison.
    pub fn is_shorter(&self, other: &Duration) -> (r: bool)
        ensures
            r == self.shorter_than(*other),
    {
        self.secs < other.secs || (self.secs == other.secs && self.nanos < other.nanos)
    }
}

} // verus!
