//! Spans of time and timestamps on the monotonic-since-epoch timescale.
//!
//! A `Duration` counts ticks of 2^-32 seconds in a `u64`, so the upper 32
//! bits hold whole seconds.  A `UnixTimeStamp` is a `Duration` measured from
//! the UNIX epoch.  This mirrors the representation of the coarse clock that
//! stamps claim sets at creation time, so tick values travel unchanged
//! between the clock and this crate.

use vstd::prelude::*;

verus! {

/// Number of ticks in one second.
pub const TICKS_PER_SEC: u64 = 0x1_0000_0000;

/// Largest number of whole seconds a `Duration` can hold without saturating.
pub const MAX_WHOLE_SECS: u64 = 0xffff_ffff;

/// An approximate span of time, counted in ticks of 2^-32 seconds.
#[derive(Clone, Copy, Debug, PartialEq, Eq, Structural, Hash, PartialOrd, Ord)]
pub struct Duration {
    pub ticks: u64,
}

/// A point in time, as the span elapsed since the UNIX epoch.
pub type UnixTimeStamp = Duration;

impl Duration {
    /// The duration of `secs` whole seconds, saturating at the largest
    /// representable duration.
    pub open spec fn spec_from_secs(secs: u64) -> Duration {
        if secs <= MAX_WHOLE_SECS {
            Duration { ticks: (secs * TICKS_PER_SEC) as u64 }
        } else {
            Duration { ticks: u64::MAX }
        }
    }

    /// Build a duration from whole seconds, saturating on overflow.
    pub fn from_secs(secs: u64) -> (r: Duration)
        ensures
            r == Duration::spec_from_secs(secs),
    {
        if secs <= MAX_WHOLE_SECS {
            Duration { ticks: secs * TICKS_PER_SEC }
        } else {
            Duration { ticks: u64::MAX }
        }
    }

    /// Build a duration from whole minutes, saturating on overflow of the
    /// tick count.
    pub fn from_mins(mins: u64) -> (r: Duration)
        requires
            mins <= u64::MAX / 60,
        ensures
            r == Duration::spec_from_secs((mins * 60) as u64),
    {
        Duration::from_secs(mins * 60)
    }

    /// Build a duration from a raw tick count.
    pub fn from_ticks(ticks: u64) -> (r: Duration)
        ensures
            r.ticks == ticks,
    {
        Duration { ticks }
    }

    /// The raw tick count.
    pub fn as_ticks(&self) -> (r: u64)
        ensures
            r == self.ticks,
    {
        self.ticks
    }

    /// The number of whole seconds this duration spans.
    pub fn as_secs(&self) -> (r: u64)
        ensures
            r == self.ticks / TICKS_PER_SEC,
    {
        self.ticks / TICKS_PER_SEC
    }

    /// The sum of two durations, saturating at the largest representable
    /// duration.
    pub open spec fn spec_saturating_add(self, rhs: Duration) -> Duration {
        if self.ticks + rhs.ticks <= u64::MAX {
            Duration { ticks: (self.ticks + rhs.ticks) as u64 }
        } else {
            Duration { ticks: u64::MAX }
        }
    }

    /// Add two durations, saturating on overflow.
    pub fn saturating_add(self, rhs: Duration) -> (r: Duration)
        ensures
            r == self.spec_saturating_add(rhs),
    {
        if self.ticks <= u64::MAX - rhs.ticks {
            Duration { ticks: self.ticks + rhs.ticks }
        } else {
            Duration { ticks: u64::MAX }
        }
    }
}

} // verus!
