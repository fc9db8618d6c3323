//! A span of time with millisecond precision.
//!
//! Timing fields of the config descriptor (timeout, buffer, throttle,
//! heartbeat) are rendered into the config artifact as decimal seconds, so
//! millisecond precision is all the descriptor ever needs.

use vstd::prelude::*;

verus! {

/// A non-negative span of time, counted in whole milliseconds.
#[derive(Debug, Clone, Copy, PartialEq, Eq, Structural)]
pub struct Duration {
    /// The length of the span in milliseconds.
    pub millis: u64,
}

impl Duration {
    /// Construct a duration from a number of milliseconds.
    pub fn from_millis(millis: u64) -> (d: Self)
        ensures
            d.millis == millis,
    {
        Duration { millis }
    }

    /// Construct a duration from a number of whole seconds.
    pub fn from_secs(secs: u64) -> (d: Self)
        requires
            secs <= u64::MAX / 1000,
        ensures
            d.millis == secs * 1000,
    {
        Duration { millis: secs * 1000 }
    }

    /// The length of this duration in milliseconds.
    pub fn as_millis(&self) -> (ms: u64)
        ensures
            ms == self.millis,
    {
        self.millis
    }
}

} // verus!
