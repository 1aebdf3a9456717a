//! Elapsed time on a clock that never runs backwards.

use vstd::prelude::*;
use crate::double::{whole, Double, BILLION};

verus! {

/// The largest number of nanoseconds of a [`Duration`].
pub const MAX_NANOS: u128 = 18_446_744_073_709_551_615_999_999_999;

/// A length of time, never negative, in nanoseconds.
#[derive(Clone, Copy, Debug, PartialEq, Eq, Structural)]
pub struct Duration {
    pub nanos: u128,
}

/// A reading of the clock, in nanoseconds since it was started.
#[derive(Clone, Copy, Debug, PartialEq, Eq, Structural)]
pub struct Tick {
    pub nanos: u64,
}

impl Duration {
    pub open spec fn wf(self) -> bool {
        self.nanos <= MAX_NANOS
    }

    pub fn from_secs(secs: u64) -> (r: Duration)
        ensures
            r.nanos == secs * 1_000_000_000,
            r.wf(),
    {
        Duration { nanos: secs as u128 * 1_000_000_000 }
    }

    pub fn from_millis(millis: u64) -> (r: Duration)
        ensures
            r.nanos == millis * 1_000_000,
            r.wf(),
    {
        Duration { nanos: millis as u128 * 1_000_000 }
    }

    pub fn as_secs(self) -> (r: u64)
        requires
            self.wf(),
        ensures
            r == self.nanos / 1_000_000_000,
    {
        (self.nanos / 1_000_000_000) as u64
    }

    /// The length in seconds as a double: the whole seconds plus the fraction behind them.
    pub open spec fn secs_double(self) -> Double {
        whole(self.nanos as nat / 1_000_000_000).sum(
            whole(self.nanos as nat % 1_000_000_000).quotient(Double { bits: BILLION }),
        )
    }

    pub fn as_secs_double(self) -> (r: Double)
        requires
            self.wf(),
        ensures
            r == self.secs_double(),
    {
        let secs: u64 = (self.nanos / 1_000_000_000) as u64;
        let rest: u64 = (self.nanos % 1_000_000_000) as u64;
        Double::from_whole(secs).plus(Double::from_whole(rest).over(Double { bits: BILLION }))
    }
}

impl Tick {
    /// What has passed since an earlier reading; nothing where that reading is the later one.
    pub open spec fn since_spec(self, earlier: Tick) -> Duration {
        Duration {
            nanos: if self.nanos >= earlier.nanos {
                (self.nanos - earlier.nanos) as u128
            } else {
                0
            },
        }
    }

    pub fn since(self, earlier: Tick) -> (r: Duration)
        ensures
            r == self.since_spec(earlier),
    {
        if self.nanos >= earlier.nanos {
            Duration { nanos: (self.nanos - earlier.nanos) as u128 }
        } else {
            Duration { nanos: 0 }
        }
    }
}

} // verus!
