//! The performance counter on Linux: the raw monotonic clock, counted in
//! nanoseconds.

use vstd::prelude::*;

verus! {

/// The identifier of the raw monotonic clock.
pub const CLOCK_MONOTONIC_RAW: usize = 4;

/// The ticks of the performance counter in a second.
pub fn query_performance_frequency() -> (ticks: i64)
    ensures
        ticks == 1_000_000_000,
{
    1_000_000_000
}

/// The reading's ticks can be counted: seconds times a thousand million,
/// plus the nanoseconds, is a value of the counter.
pub open spec fn countable(tv_sec: usize, tv_nsec: i64) -> bool {
    &&& tv_sec * 1_000_000_000 <= i64::MAX
    &&& i64::MIN <= tv_sec * 1_000_000_000 + tv_nsec <= i64::MAX
}

/// Tests whether the reading's ticks can be counted.
pub fn counter_fits(tv_sec: usize, tv_nsec: i64) -> (fits: bool)
    ensures
        fits == countable(tv_sec, tv_nsec),
{
    if tv_sec as u64 > 9_223_372_036 {
        return false;
    }
    let whole: i64 = (tv_sec as i64) * 1_000_000_000;
    match whole.checked_add(tv_nsec) {
        Some(_) => true,
        None => false,
    }
}

/// Turns a reading of the clock, in seconds and nanoseconds, into ticks and
/// stores them in `counter`.
pub fn query_performance_counter(counter: &mut i64, tv_sec: usize, tv_nsec: i64)
    requires
        countable(tv_sec, tv_nsec),
    ensures
        *final(counter) == tv_sec * 1_000_000_000 + tv_nsec,
{
    *counter = (tv_sec as i64) * 1_000_000_000 + tv_nsec;
}

} // verus!
