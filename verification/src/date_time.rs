//! Points in time and time zones, as plain numbers.

use chrono::Utc;
use vstd::prelude::*;

verus! {

/// A point in time: whole seconds since the Unix epoch, and the nanoseconds
/// into that second.
#[derive(Debug, Clone, Copy, PartialEq, Eq, Structural, Hash)]
pub struct DateTime {
    pub secs: i64,
    pub nanos: u32,
}

impl Default for DateTime {
    fn default() -> (time: Self)
        ensures
            time == (DateTime { secs: 0, nanos: 0 }),
    {
        DateTime { secs: 0, nanos: 0 }
    }
}

impl DateTime {
    /// `chrono::Utc::now`, taken apart into seconds and nanoseconds. The
    /// clock decides the result; nothing is known of it beforehand.
    #[verifier::external_body]
    pub fn now() -> (time: Self) {
        let now = Utc::now();
        DateTime { secs: now.timestamp(), nanos: now.timestamp_subsec_nanos() }
    }

    /// Whether this time is no later than `other`.
    pub open spec fn spec_not_after(&self, other: &DateTime) -> bool {
        self.secs < other.secs || (self.secs == other.secs && self.nanos <= other.nanos)
    }

    /// Whether this time is no later than `other`.
    pub fn not_after(&self, other: &DateTime) -> (earlier: bool)
        ensures
            earlier == self.spec_not_after(other),
    {
        self.secs < other.secs || (self.secs == other.secs && self.nanos <= other.nanos)
    }

    /// The later of two times.
    pub open spec fn spec_later(self, other: DateTime) -> DateTime {
        if self.spec_not_after(&other) {
            other
        } else {
            self
        }
    }

    /// The later of two times.
    pub fn later(self, other: DateTime) -> (time: DateTime)
        ensures
            time == self.spec_later(other),
    {
        if self.not_after(&other) {
            other
        } else {
            self
        }
    }

    /// This time, to be shown in the given zone.
    pub fn to_local(self, tz: TimeZone) -> (local: LocalDateTime)
        ensures
            local == LocalDateTime(self, tz),
    {
        LocalDateTime(self, tz)
    }
}

/// Comparing times is transitive, and of two times one is no later than the
/// other.
pub proof fn lemma_not_after_is_total_preorder(a: DateTime, b: DateTime, c: DateTime)
    ensures
        a.spec_not_after(&a),
        a.spec_not_after(&b) || b.spec_not_after(&a),
        a.spec_not_after(&b) && b.spec_not_after(&c) ==> a.spec_not_after(&c),
        a.spec_not_after(&a.spec_later(b)),
        b.spec_not_after(&a.spec_later(b)),
{
}

/// A time zone: its offset from UTC in seconds, positive to the east.
#[derive(Debug, Clone, Copy, PartialEq, Eq, Structural, Hash)]
pub struct TimeZone(pub i32);

/// The offset of the default zone: seven hours west of UTC.
pub const DEFAULT_OFFSET_SECS: i32 = -25200;

impl Default for TimeZone {
    fn default() -> (tz: Self)
        ensures
            tz == TimeZone(DEFAULT_OFFSET_SECS),
    {
        TimeZone(DEFAULT_OFFSET_SECS)
    }
}

/// A point in time together with the zone to show it in.
#[derive(Debug, Clone, Copy, PartialEq, Eq, Structural, Hash)]
pub struct LocalDateTime(pub DateTime, pub TimeZone);

impl LocalDateTime {
    /// The seconds since the Unix epoch that a clock in the zone shows.
    pub open spec fn spec_local_secs(&self) -> int {
        self.0.secs + self.1.0
    }

    /// The seconds since the Unix epoch that a clock in the zone shows, or
    /// `None` where that number does not fit.
    pub fn local_secs(&self) -> (secs: Option<i64>)
        ensures
            secs == if i64::MIN <= self.spec_local_secs() <= i64::MAX {
                Some(self.spec_local_secs() as i64)
            } else {
                None
            },
    {
        self.0.secs.checked_add(self.1.0 as i64)
    }
}

} // verus!
