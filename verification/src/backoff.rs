//! Exponential waits between attempts to reach a telescope.

use vstd::prelude::*;
use crate::clock::{Duration, MAX_NANOS};
use crate::double::{lemma_power_127, lemma_power_le, power};

verus! {

/// Seconds of the first wait when a telescope cannot be reached.
pub const DEFAULT_RECONNECT_INITIAL_SECS: u64 = 60;

/// Seconds that the waits grow to.
pub const DEFAULT_RECONNECT_MAX_SECS: u64 = 600;

/// The ceiling of the waits: never below the first wait.
pub open spec fn ceiling(initial: Duration, max: Duration) -> Duration {
    if max.nanos >= initial.nanos {
        max
    } else {
        initial
    }
}

/// The wait that follows `current`: twice as long, up to the ceiling.
pub open spec fn next_wait(current: Duration, initial: Duration, max: Duration) -> Duration {
    if 2 * current.nanos <= ceiling(initial, max).nanos {
        Duration { nanos: (2 * current.nanos) as u128 }
    } else {
        ceiling(initial, max)
    }
}

/// Doubles `current`, up to `max`, but never below `initial`: a ceiling set too low cannot
/// shrink the waits.
pub fn backoff_delay(current: Duration, initial: Duration, max: Duration) -> (r: Duration)
    requires
        2 * current.nanos <= MAX_NANOS,
    ensures
        r == next_wait(current, initial, max),
{
    let limit: Duration = if max.nanos >= initial.nanos {
        max
    } else {
        initial
    };
    let twice: u128 = current.nanos * 2;
    if twice <= limit.nanos {
        Duration { nanos: twice }
    } else {
        limit
    }
}

/// The wait after `n` failures in a row.
pub open spec fn wait_after(initial: Duration, max: Duration, n: nat) -> Duration
    decreases n,
{
    if n == 0 {
        initial
    } else {
        next_wait(wait_after(initial, max, (n - 1) as nat), initial, max)
    }
}

/// Waits never shrink below the first one, never exceed the ceiling, and never get shorter from
/// one failure to the next.
pub proof fn waits_grow_within_bounds(initial: Duration, max: Duration, n: nat)
    ensures
        initial.nanos <= wait_after(initial, max, n).nanos <= ceiling(initial, max).nanos,
        wait_after(initial, max, n).nanos <= wait_after(initial, max, n + 1).nanos,
    decreases n,
{
    if n > 0 {
        waits_grow_within_bounds(initial, max, (n - 1) as nat);
    }
}

/// The wait after `n` failures is the first one doubled `n` times, or the ceiling where that is
/// less.
pub proof fn waits_double_up_to_the_ceiling(initial: Duration, max: Duration, n: nat)
    ensures
        wait_after(initial, max, n).nanos == (if initial.nanos * power(2, n) <= ceiling(
            initial,
            max,
        ).nanos {
            (initial.nanos * power(2, n)) as int
        } else {
            ceiling(initial, max).nanos as int
        }),
    decreases n,
{
    let first = initial.nanos as int;
    if n == 0 {
        assert(first * power(2, 0) == first) by (nonlinear_arith)
            requires
                power(2, 0) == 1,
        ;
    } else {
        waits_double_up_to_the_ceiling(initial, max, (n - 1) as nat);
        let before = power(2, (n - 1) as nat);
        assert(power(2, n) == 2 * before);
        assert(first * power(2, n) == 2 * (first * before)) by (nonlinear_arith)
            requires
                power(2, n) == 2 * before,
        ;
    }
}

/// The waits reach the ceiling, however short the first one is, and stay there.
pub proof fn the_ceiling_is_reached(initial: Duration, max: Duration, n: nat)
    requires
        initial.nanos > 0,
        n >= 128,
    ensures
        wait_after(initial, max, n) == ceiling(initial, max),
{
    waits_double_up_to_the_ceiling(initial, max, n);
    lemma_power_127();
    assert(power(2, 128) == 2 * power(2, 127));
    lemma_power_le(2, 128, n);
    assert(initial.nanos * power(2, n) >= power(2, n)) by (nonlinear_arith)
        requires
            initial.nanos >= 1,
    ;
}

} // verus!
