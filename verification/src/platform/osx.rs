//! The performance counter on macOS: the absolute time of the Mach kernel,
//! counted in units of the timebase.

use vstd::prelude::*;

verus! {

/// The reading as ticks. A reading beyond the largest signed value is
/// lowered by that value. The largest reading of all is then still one
/// beyond it, and wraps around to the smallest signed value.
pub open spec fn folded(time: u64) -> int {
    if time <= i64::MAX {
        time as int
    } else if time - i64::MAX <= i64::MAX {
        time - i64::MAX
    } else {
        i64::MIN as int
    }
}

/// Turns a reading of the absolute time into ticks and stores them in
/// `counter`.
pub fn query_performance_counter(counter: &mut i64, time: u64)
    ensures
        *final(counter) == folded(time),
{
    let mut time = time;
    if time > i64::MAX as u64 {
        time = time - i64::MAX as u64;
    }
    if time > i64::MAX as u64 {
        *counter = i64::MIN;
    } else {
        *counter = time as i64;
    }
}

/// The ticks of the performance counter in a second, from the timebase: its
/// denominator over its numerator, rounded down.
pub fn query_performance_frequency(numer: u32, denom: u32) -> (ticks: i64)
    requires
        numer != 0,
    ensures
        ticks == denom as int / numer as int,
{
    denom as i64 / numer as i64
}

} // verus!
