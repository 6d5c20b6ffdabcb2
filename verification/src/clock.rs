//! Instants as plain integers, and the one place where the wall clock is read.

use vstd::prelude::*;

verus! {

/// How many seconds without a state update before the robot counts as disconnected.
pub const ROBOT_STALE_TIMEOUT_SECS: i64 = 30;

/// How often the expiry sweeper runs, in seconds.
pub const CLEANUP_INTERVAL_SECS: u64 = 5;

/// How long a manual-drive lock lasts after it was granted or renewed, in seconds.
pub const LOCK_TTL_SECS: i64 = 30;

/// A UTC instant, in milliseconds since the Unix epoch.
#[derive(Clone, Copy, Debug, PartialEq, Eq, Structural)]
pub struct Timestamp {
    pub millis: i64,
}

impl View for Timestamp {
    type V = int;

    open spec fn view(&self) -> int {
        self.millis as int
    }
}

/// The instant `secs` seconds after `t`, held at the end of the range of
/// instants where the sum would leave it.
pub open spec fn shifted(t: int, secs: int) -> int {
    if t + secs * 1000 > i64::MAX {
        i64::MAX as int
    } else if t + secs * 1000 < i64::MIN {
        i64::MIN as int
    } else {
        t + secs * 1000
    }
}

impl Timestamp {
    pub fn from_millis(millis: i64) -> (t: Timestamp)
        ensures
            t@ == millis,
    {
        Timestamp { millis }
    }

    /// Whether `self` lies strictly after `other`.
    pub fn is_after(&self, other: Timestamp) -> (after: bool)
        ensures
            after == (self@ > other@),
    {
        self.millis > other.millis
    }

    /// Whether fewer than `secs` seconds lie between `earlier` and `self`.
    pub fn within_secs_of(&self, earlier: Timestamp, secs: i64) -> (within: bool)
        ensures
            within == (self@ - earlier@ < secs * 1000),
    {
        let gap: i128 = self.millis as i128 - earlier.millis as i128;
        gap < secs as i128 * 1000
    }

    /// The instant `secs` seconds later, saturating at the ends of the range.
    pub fn plus_secs(&self, secs: i64) -> (later: Timestamp)
        ensures
            later@ == shifted(self@, secs as int),
    {
        let sum: i128 = self.millis as i128 + secs as i128 * 1000;
        if sum > i64::MAX as i128 {
            Timestamp { millis: i64::MAX }
        } else if sum < i64::MIN as i128 {
            Timestamp { millis: i64::MIN }
        } else {
            Timestamp { millis: sum as i64 }
        }
    }
}

/// Reads the wall clock through `chrono::Utc::now` and keeps the instant as
/// whole milliseconds since the epoch (`DateTime::timestamp_millis`). Nothing is
/// claimed of the value: two readings may differ in any way.
#[verifier::external_body]
pub(crate) fn wall_clock() -> (now: Timestamp) {
    Timestamp { millis: chrono::Utc::now().timestamp_millis() }
}

} // verus!
