//! Conversion between [`Duration`] and counts of 100-nanosecond intervals.

use std::time::Duration;
use vstd::prelude::*;

verus! {

/// Nanoseconds in one second.
pub const NANOS_PER_SEC: u64 = 1_000_000_000;

/// Intervals of 100 nanoseconds in one second.
pub const INTERVALS_PER_SEC: u64 = NANOS_PER_SEC / 100;

/// The whole length of a duration, in nanoseconds: its seconds times one
/// thousand million, plus its nanoseconds below one second.
///
/// `Duration` is opaque to the verifier, so this has no body. What is known
/// of it is what the specifications of `Duration::as_secs`,
/// `Duration::subsec_nanos` and `Duration::new` below say.
pub uninterp spec fn duration_nanos(d: Duration) -> nat;

/// The number of whole 100-nanosecond intervals in a duration; what is left
/// below one interval is dropped.
pub open spec fn duration_intervals(d: Duration) -> nat {
    duration_nanos(d) / 100
}

/// The count reached by moving `count` forward by the whole intervals of `d`:
/// `None` when the intervals of `d`, or the count reached, do not fit in a
/// signed 64-bit integer.
pub open spec fn intervals_after(count: int, d: Duration) -> Option<int> {
    let step = duration_intervals(d);
    if step <= i64::MAX && count + step <= i64::MAX {
        Some(count + step)
    } else {
        None
    }
}

/// The count reached by moving `count` back by the whole intervals of `d`:
/// `None` when the intervals of `d`, or the count reached, do not fit in a
/// signed 64-bit integer.
pub open spec fn intervals_before(count: int, d: Duration) -> Option<int> {
    let step = duration_intervals(d);
    if step <= i64::MAX && count - step >= i64::MIN {
        Some(count - step)
    } else {
        None
    }
}

/// `Duration::as_secs` gives the whole seconds of the duration, without
/// anything of the part below one second.
pub assume_specification[ Duration::as_secs ](d: &Duration) -> (secs: u64)
    ensures
        secs == duration_nanos(*d) / 1_000_000_000,
;

/// `Duration::subsec_nanos` gives the part of the duration below one second,
/// in nanoseconds; it is always less than one thousand million.
pub assume_specification[ Duration::subsec_nanos ](d: &Duration) -> (nanos: u32)
    ensures
        nanos == duration_nanos(*d) % 1_000_000_000,
;

/// `Duration::new` builds the duration of `secs` seconds and `nanos` further
/// nanoseconds, carrying whole seconds out of `nanos` over into the seconds.
/// It panics when that carry overflows the seconds, which the precondition
/// rules out.
pub assume_specification[ Duration::new ](secs: u64, nanos: u32) -> (d: Duration)
    requires
        secs + nanos / 1_000_000_000 <= u64::MAX,
    ensures
        duration_nanos(d) == secs * 1_000_000_000 + nanos,
;

/// The whole seconds of a duration count ten million intervals each, and its
/// nanoseconds below one second count one interval for every full hundred.
pub proof fn lemma_intervals_from_parts(d: Duration)
    ensures
        ({
            let secs = duration_nanos(d) / 1_000_000_000;
            let subsec = duration_nanos(d) % 1_000_000_000;
            duration_intervals(d) == secs * 10_000_000 + subsec / 100
        }),
{
    let secs = duration_nanos(d) / 1_000_000_000;
    let subsec = duration_nanos(d) % 1_000_000_000;
    assert(duration_nanos(d) == (secs * 10_000_000) * 100 + subsec);
}

/// Converts a count of intervals to the duration of that length.
pub fn intervals2dur(intervals: u64) -> (d: Duration)
    ensures
        duration_nanos(d) == intervals * 100,
{
    Duration::new(intervals / INTERVALS_PER_SEC, ((intervals % INTERVALS_PER_SEC) * 100) as u32)
}

/// Converts a duration to its count of whole intervals, or to `None` when the
/// count does not fit in a signed 64-bit integer.
pub fn checked_dur2intervals(dur: &Duration) -> (r: Option<i64>)
    ensures
        match r {
            Some(intervals) => intervals == duration_intervals(*dur),
            None => duration_intervals(*dur) > i64::MAX,
        },
{
    proof {
        lemma_intervals_from_parts(*dur);
    }
    let whole: u64 = dur.as_secs().checked_mul(INTERVALS_PER_SEC)?;
    let intervals: u64 = whole.checked_add(dur.subsec_nanos() as u64 / 100)?;
    if intervals <= i64::MAX as u64 {
        Some(intervals as i64)
    } else {
        None
    }
}

} // verus!
