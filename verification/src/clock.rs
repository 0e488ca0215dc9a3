//! The raw clock value: a signed 64-bit count of 100-nanosecond intervals
//! since 1601-01-01.

use crate::filetime::FileTime;
use crate::interval::{
    checked_dur2intervals, duration_nanos, intervals2dur, intervals_after, intervals_before,
    INTERVALS_PER_SEC,
};
use std::cmp::Ordering;
use std::time::Duration;
use vstd::prelude::*;
use vstd::std_specs::cmp::{PartialOrdIs, PartialOrdSpecImpl};
use vstd::std_specs::convert::FromSpecImpl;

verus! {

/// Intervals from 1601-01-01 to 1970-01-01.
pub const INTERVALS_TO_UNIX_EPOCH: u64 = 11_644_473_600 * INTERVALS_PER_SEC;

/// A point in time, held as its count of intervals since 1601-01-01.
#[derive(Clone, Copy, Debug, PartialEq, Eq, Structural, Hash, Ord)]
pub struct KrazyKraigTime {
    intervals: i64,
}

impl View for KrazyKraigTime {
    type V = int;

    /// The count of intervals since 1601-01-01.
    closed spec fn view(&self) -> int {
        self.intervals as int
    }
}

impl KrazyKraigTime {
    /// The time at `intervals` intervals since 1601-01-01.
    pub closed spec fn at(intervals: int) -> KrazyKraigTime {
        KrazyKraigTime { intervals: intervals as i64 }
    }

    /// 1970-01-01T00:00:00Z.
    pub fn unix_epoch() -> (t: KrazyKraigTime)
        ensures
            t@ == INTERVALS_TO_UNIX_EPOCH,
    {
        KrazyKraigTime { intervals: INTERVALS_TO_UNIX_EPOCH as i64 }
    }

    /// The time that a reading of the system clock stands for.
    pub fn now(reading: FileTime) -> (t: KrazyKraigTime)
        ensures
            t@ == reading@,
    {
        KrazyKraigTime { intervals: reading.intervals() }
    }

    /// The time at `intervals` intervals since 1601-01-01.
    pub fn from_intervals(intervals: i64) -> (t: KrazyKraigTime)
        ensures
            t == Self::at(intervals as int),
            t@ == intervals,
    {
        KrazyKraigTime { intervals }
    }

    /// The count of intervals since 1601-01-01.
    pub fn intervals(&self) -> (intervals: i64)
        ensures
            intervals == self@,
    {
        self.intervals
    }

    /// The signed difference `self - other`: `Ok` with its length when `self`
    /// is not earlier than `other`, `Err` with the length of `other - self`
    /// when it is.
    pub fn sub_time(&self, other: &KrazyKraigTime) -> (r: Result<Duration, Duration>)
        ensures
            match r {
                Ok(d) => self@ >= other@ && duration_nanos(d) == (self@ - other@) * 100,
                Err(d) => self@ < other@ && duration_nanos(d) == (other@ - self@) * 100,
            },
    {
        let me: i64 = self.intervals();
        let other: i64 = other.intervals();
        if me >= other {
            Ok(intervals2dur((me as i128 - other as i128) as u64))
        } else {
            Err(intervals2dur((other as i128 - me as i128) as u64))
        }
    }

    /// Moves the time forward by the whole intervals of `other`, or gives
    /// `None` when that overflows.
    pub fn checked_add_duration(&self, other: &Duration) -> (r: Option<KrazyKraigTime>)
        ensures
            match r {
                Some(t) => intervals_after(self@, *other) == Some(t@),
                None => intervals_after(self@, *other) is None,
            },
    {
        let intervals: i64 = self.intervals().checked_add(checked_dur2intervals(other)?)?;
        Some(KrazyKraigTime::from_intervals(intervals))
    }

    /// Moves the time back by the whole intervals of `other`, or gives `None`
    /// when that overflows.
    pub fn checked_sub_duration(&self, other: &Duration) -> (r: Option<KrazyKraigTime>)
        ensures
            match r {
                Some(t) => intervals_before(self@, *other) == Some(t@),
                None => intervals_before(self@, *other) is None,
            },
    {
        let intervals: i64 = self.intervals().checked_sub(checked_dur2intervals(other)?)?;
        Some(KrazyKraigTime::from_intervals(intervals))
    }
}

/// Two times are equal exactly when their counts of intervals are equal.
pub proof fn lemma_equal_iff_same_intervals(a: KrazyKraigTime, b: KrazyKraigTime)
    ensures
        a == b <==> a@ == b@,
{
}

/// Of `a < b`, `a == b` and `a > b` exactly one holds, and it is the one that
/// holds of the two counts of intervals.
pub proof fn lemma_order_is_total(a: KrazyKraigTime, b: KrazyKraigTime)
    ensures
        a.is_lt(&b) <==> a@ < b@,
        a == b <==> a@ == b@,
        a.is_gt(&b) <==> a@ > b@,
        a.is_lt(&b) || a == b || a.is_gt(&b),
        !(a.is_lt(&b) && a == b),
        !(a == b && a.is_gt(&b)),
        !(a.is_lt(&b) && a.is_gt(&b)),
{
}

/// The count of a time fits in a signed 64-bit integer, and the time is the
/// one at that count.
pub proof fn lemma_time_at_its_intervals(t: KrazyKraigTime)
    ensures
        i64::MIN <= t@ <= i64::MAX,
        KrazyKraigTime::at(t@) == t,
{
}

/// Every count that fits in a signed 64-bit integer is the count of the time
/// at it.
pub proof fn lemma_intervals_of_time_at(intervals: int)
    requires
        i64::MIN <= intervals <= i64::MAX,
    ensures
        KrazyKraigTime::at(intervals)@ == intervals,
{
}

impl PartialOrd for KrazyKraigTime {
    fn partial_cmp(&self, other: &KrazyKraigTime) -> (r: Option<Ordering>) {
        if self.intervals < other.intervals {
            Some(Ordering::Less)
        } else if self.intervals == other.intervals {
            Some(Ordering::Equal)
        } else {
            Some(Ordering::Greater)
        }
    }
}

impl PartialOrdSpecImpl for KrazyKraigTime {
    open spec fn obeys_partial_cmp_spec() -> bool {
        true
    }

    /// Times are ordered as their counts of intervals are.
    open spec fn partial_cmp_spec(&self, other: &KrazyKraigTime) -> Option<Ordering> {
        if self@ < other@ {
            Some(Ordering::Less)
        } else if self@ == other@ {
            Some(Ordering::Equal)
        } else {
            Some(Ordering::Greater)
        }
    }
}

impl From<FileTime> for KrazyKraigTime {
    fn from(t: FileTime) -> (r: KrazyKraigTime)
        ensures
            r@ == t@,
    {
        KrazyKraigTime { intervals: t.intervals() }
    }
}

impl FromSpecImpl<FileTime> for KrazyKraigTime {
    open spec fn obeys_from_spec() -> bool {
        true
    }

    /// The time at the count that the two halves spell.
    open spec fn from_spec(t: FileTime) -> KrazyKraigTime {
        KrazyKraigTime::at(t@)
    }
}

} // verus!
