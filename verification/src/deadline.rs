//! Deadline arithmetic for the timeout-bounded wait loop.
//!
//! A call's deadline is fixed once, in nanoseconds on the monotonic clock,
//! and every iteration of the wait loop recomputes its blocking timeout from
//! that absolute deadline — never reusing a relative timeout across
//! iterations, which would let the deadline drift later with each spurious
//! wakeup.

use vstd::prelude::*;

verus! {

/// Nanoseconds per millisecond.
pub const NANOS_PER_MILLI: u64 = 1_000_000;

/// Nanoseconds per second.
pub const NANOS_PER_SEC: u64 = 1_000_000_000;

/// Nanoseconds per microsecond.
pub const NANOS_PER_MICRO: u64 = 1_000;

/// The absolute deadline, in nanoseconds on the monotonic clock, for a wait
/// that starts at `now_ns` with a timeout of `ms` milliseconds. Saturates at
/// the top of the clock's range, which makes an unrepresentably late deadline
/// behave as "never".
pub fn deadline_after(now_ns: u64, ms: u32) -> (r: u64)
    ensures
        now_ns + (ms as u64) * (NANOS_PER_MILLI as u64) <= u64::MAX
            ==> r == now_ns + (ms as u64) * (NANOS_PER_MILLI as u64),
        now_ns + (ms as u64) * (NANOS_PER_MILLI as u64) > u64::MAX ==> r == u64::MAX,
{
    proof {
        assert((ms as u64) * (NANOS_PER_MILLI as u64) <= 0xffff_ffffu64 * 1_000_000u64)
            by (nonlinear_arith)
            requires ms <= 0xffff_ffffu32;
    }
    let wait_ns: u64 = (ms as u64) * NANOS_PER_MILLI;
    if now_ns <= u64::MAX - wait_ns {
        now_ns + wait_ns
    } else {
        u64::MAX
    }
}

/// Whether the deadline has already passed at time `now_ns`. The instant of
/// the deadline itself still counts as inside the allowed window, as it does
/// for the wait loop's top-of-iteration check.
pub fn deadline_passed(now_ns: u64, end_ns: u64) -> (r: bool)
    ensures
        r == (now_ns > end_ns),
{
    now_ns > end_ns
}

/// The time remaining until the deadline, recomputed from the absolute
/// deadline each iteration.
pub fn remaining_ns(now_ns: u64, end_ns: u64) -> (r: u64)
    requires
        now_ns <= end_ns,
    ensures
        r == end_ns - now_ns,
{
    end_ns - now_ns
}

/// Splits a timeout in nanoseconds into the whole seconds and remaining
/// microseconds that a multiplexed read's timeout argument takes. The split
/// is exact to the microsecond: it never exceeds the requested timeout and
/// undershoots it by less than one microsecond.
pub fn split_timeout(timeout_ns: u64) -> (r: (i64, i64))
    ensures
        r.0 == timeout_ns as int / NANOS_PER_SEC as int,
        r.1 == (timeout_ns as int % NANOS_PER_SEC as int) / NANOS_PER_MICRO as int,
        0 <= r.1 < 1_000_000,
        r.0 * NANOS_PER_SEC as int + r.1 * NANOS_PER_MICRO as int <= timeout_ns,
        timeout_ns < r.0 * NANOS_PER_SEC as int + (r.1 + 1) * NANOS_PER_MICRO as int,
{
    let sec: u64 = timeout_ns / NANOS_PER_SEC;
    let sub_ns: u64 = timeout_ns % NANOS_PER_SEC;
    let usec: u64 = sub_ns / NANOS_PER_MICRO;
    proof {
        assert(sec * NANOS_PER_SEC as int + sub_ns == timeout_ns);
        assert(usec * NANOS_PER_MICRO as int <= sub_ns < (usec + 1) * NANOS_PER_MICRO as int);
        assert(sec <= u64::MAX as int / NANOS_PER_SEC as int);
    }
    (sec as i64, usec as i64)
}

} // verus!
