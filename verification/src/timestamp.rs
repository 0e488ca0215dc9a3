//! Timestamps: the clock value that callers hold, with arithmetic on
//! durations.

use crate::clock::{
    lemma_intervals_of_time_at, lemma_time_at_its_intervals, KrazyKraigTime,
    INTERVALS_TO_UNIX_EPOCH,
};
use crate::filetime::FileTime;
use crate::interval::{duration_nanos, intervals_after, intervals_before};
use std::cmp::Ordering;
use std::ops::{Add, AddAssign, Sub, SubAssign};
use std::time::Duration;
use vstd::prelude::*;
use vstd::std_specs::cmp::{PartialOrdIs, PartialOrdSpecImpl};
use vstd::std_specs::ops::{AddSpecImpl, SubSpecImpl};

verus! {

/// Says that a timestamp taken for the earlier one was the later one, and by
/// how much.
#[derive(Debug)]
pub struct SystemTimeError(Duration);

impl View for SystemTimeError {
    type V = Duration;

    /// How far the second time lay after the first.
    closed spec fn view(&self) -> Duration {
        self.0
    }
}

impl SystemTimeError {
    /// How far the second time lay after the first.
    pub fn duration(&self) -> (d: Duration)
        ensures
            d == self@,
    {
        self.0
    }

    /// A short description of the error.
    pub fn description(&self) -> (text: &'static str)
        ensures
            text@ == "other time was not earlier than self"@,
    {
        "other time was not earlier than self"
    }

    /// The message to show for the error.
    pub fn to_string(&self) -> (text: String)
        ensures
            text@ == "second time provided was later than self"@,
    {
        "second time provided was later than self".to_owned()
    }
}

/// A point in time on the system clock.
#[derive(Clone, Copy, Debug, PartialEq, Eq, Structural, Hash, Ord)]
pub struct TimeStamp(KrazyKraigTime);

impl View for TimeStamp {
    type V = int;

    /// The count of 100-nanosecond intervals since 1601-01-01.
    closed spec fn view(&self) -> int {
        self.0@
    }
}

impl TimeStamp {
    /// The timestamp at `intervals` intervals since 1601-01-01.
    pub closed spec fn at(intervals: int) -> TimeStamp {
        TimeStamp(KrazyKraigTime::at(intervals))
    }

    /// What `checked_add` gives: the timestamp moved forward by the whole
    /// intervals of `d`, where `intervals_after` has a count for it.
    pub open spec fn checked_add_spec(self, d: Duration) -> Option<TimeStamp> {
        match intervals_after(self@, d) {
            Some(count) => Some(TimeStamp::at(count)),
            None => None,
        }
    }

    /// What `checked_sub` gives: the timestamp moved back by the whole
    /// intervals of `d`, where `intervals_before` has a count for it.
    pub open spec fn checked_sub_spec(self, d: Duration) -> Option<TimeStamp> {
        match intervals_before(self@, d) {
            Some(count) => Some(TimeStamp::at(count)),
            None => None,
        }
    }

    /// 1970-01-01T00:00:00Z.
    pub fn unix_epoch() -> (t: TimeStamp)
        ensures
            t@ == INTERVALS_TO_UNIX_EPOCH,
    {
        TimeStamp(KrazyKraigTime::unix_epoch())
    }

    /// The timestamp that a reading of the system clock stands for.
    pub fn now(reading: FileTime) -> (t: TimeStamp)
        ensures
            t@ == reading@,
    {
        TimeStamp(KrazyKraigTime::now(reading))
    }

    /// The time from `earlier` to `self`, or, when `earlier` is in fact the
    /// later of the two, an error that holds the time from `self` to it.
    pub fn duration_since(&self, earlier: TimeStamp) -> (r: Result<Duration, SystemTimeError>)
        ensures
            match r {
                Ok(d) => self@ >= earlier@ && duration_nanos(d) == (self@ - earlier@) * 100,
                Err(e) => self@ < earlier@ && duration_nanos(e@) == (earlier@ - self@) * 100,
            },
    {
        match self.0.sub_time(&earlier.0) {
            Ok(d) => Ok(d),
            Err(d) => Err(SystemTimeError(d)),
        }
    }

    /// The time from `self` to the clock reading `reading`, or an error when
    /// `self` lies after that reading.
    pub fn elapsed(&self, reading: FileTime) -> (r: Result<Duration, SystemTimeError>)
        ensures
            match r {
                Ok(d) => reading@ >= self@ && duration_nanos(d) == (reading@ - self@) * 100,
                Err(e) => reading@ < self@ && duration_nanos(e@) == (self@ - reading@) * 100,
            },
    {
        TimeStamp::now(reading).duration_since(*self)
    }

    /// Moves the timestamp forward by the whole intervals of `duration`, or
    /// gives `None` when that overflows.
    pub fn checked_add(&self, duration: Duration) -> (r: Option<TimeStamp>)
        ensures
            r == self.checked_add_spec(duration),
            r matches Some(t) ==> intervals_after(self@, duration) == Some(t@),
    {
        match self.0.checked_add_duration(&duration) {
            Some(t) => {
                proof {
                    lemma_time_at_its_intervals(t);
                }
                Some(TimeStamp(t))
            },
            None => None,
        }
    }

    /// Moves the timestamp back by the whole intervals of `duration`, or gives
    /// `None` when that overflows.
    pub fn checked_sub(&self, duration: Duration) -> (r: Option<TimeStamp>)
        ensures
            r == self.checked_sub_spec(duration),
            r matches Some(t) ==> intervals_before(self@, duration) == Some(t@),
    {
        match self.0.checked_sub_duration(&duration) {
            Some(t) => {
                proof {
                    lemma_time_at_its_intervals(t);
                }
                Some(TimeStamp(t))
            },
            None => None,
        }
    }
}

/// The count of a timestamp fits in a signed 64-bit integer, and the
/// timestamp is the one at that count.
pub proof fn lemma_timestamp_at_its_intervals(t: TimeStamp)
    ensures
        i64::MIN <= t@ <= i64::MAX,
        TimeStamp::at(t@) == t,
{
    lemma_time_at_its_intervals(t.0);
}

/// Every count that fits in a signed 64-bit integer is the count of the
/// timestamp at it.
pub proof fn lemma_intervals_of_timestamp_at(intervals: int)
    requires
        i64::MIN <= intervals <= i64::MAX,
    ensures
        TimeStamp::at(intervals)@ == intervals,
{
    lemma_intervals_of_time_at(intervals);
}

/// Two timestamps are equal exactly when their counts of intervals are equal.
pub proof fn lemma_equal_iff_same_intervals(a: TimeStamp, b: TimeStamp)
    ensures
        a == b <==> a@ == b@,
{
    lemma_timestamp_at_its_intervals(a);
    lemma_timestamp_at_its_intervals(b);
}

/// Of `a < b`, `a == b` and `a > b` exactly one holds, and it is the one that
/// holds of the two counts of intervals.
pub proof fn lemma_order_is_total(a: TimeStamp, b: TimeStamp)
    ensures
        a.is_lt(&b) <==> a@ < b@,
        a == b <==> a@ == b@,
        a.is_gt(&b) <==> a@ > b@,
        a.is_lt(&b) || a == b || a.is_gt(&b),
        !(a.is_lt(&b) && a == b),
        !(a == b && a.is_gt(&b)),
        !(a.is_lt(&b) && a.is_gt(&b)),
{
    lemma_equal_iff_same_intervals(a, b);
}

/// Where a duration can be added to a timestamp, taking it off again gives
/// the timestamp back: what the duration holds below one interval is dropped
/// both times.
pub proof fn lemma_add_then_sub_round_trip(t: TimeStamp, d: Duration)
    ensures
        t.checked_add_spec(d) matches Some(later) ==> later.checked_sub_spec(d) == Some(t),
{
    lemma_timestamp_at_its_intervals(t);
    if let Some(count) = intervals_after(t@, d) {
        lemma_intervals_of_timestamp_at(count);
    }
}

/// Adding a duration moves a timestamp by the whole intervals that the
/// duration holds: the rest below 100 nanoseconds is dropped, never rounded
/// up.
pub proof fn lemma_add_drops_remainder(t: TimeStamp, d: Duration)
    ensures
        t.checked_add_spec(d) matches Some(later) ==> ({
            let moved = later@ - t@;
            moved * 100 <= duration_nanos(d) < moved * 100 + 100
        }),
{
    lemma_timestamp_at_its_intervals(t);
    if let Some(count) = intervals_after(t@, d) {
        lemma_intervals_of_timestamp_at(count);
    }
}

/// Adding or taking off a duration of less than one interval leaves a
/// timestamp where it is.
pub proof fn lemma_short_duration_moves_nothing(t: TimeStamp, d: Duration)
    requires
        duration_nanos(d) < 100,
    ensures
        t.checked_add_spec(d) == Some(t),
        t.checked_sub_spec(d) == Some(t),
{
    lemma_timestamp_at_its_intervals(t);
}

impl PartialOrd for TimeStamp {
    fn partial_cmp(&self, other: &TimeStamp) -> (r: Option<Ordering>) {
        self.0.partial_cmp(&other.0)
    }
}

impl PartialOrdSpecImpl for TimeStamp {
    open spec fn obeys_partial_cmp_spec() -> bool {
        true
    }

    /// Timestamps are ordered as their counts of intervals are.
    open spec fn partial_cmp_spec(&self, other: &TimeStamp) -> Option<Ordering> {
        if self@ < other@ {
            Some(Ordering::Less)
        } else if self@ == other@ {
            Some(Ordering::Equal)
        } else {
            Some(Ordering::Greater)
        }
    }
}

impl Add<Duration> for TimeStamp {
    type Output = TimeStamp;

    /// Moves the timestamp forward by the whole intervals of `dur`.
    ///
    /// The precondition (`add_req`) leaves overflow out. A caller that has
    /// not shown it and overflows gets a panic; `checked_add` is the form
    /// that reports overflow as `None`.
    fn add(self, dur: Duration) -> (r: TimeStamp)
        ensures
            intervals_after(self@, dur) == Some(r@),
    {
        let t = self.0.checked_add_duration(&dur).expect("overflow when adding duration to instant");
        proof {
            lemma_time_at_its_intervals(t);
        }
        TimeStamp(t)
    }
}

impl AddSpecImpl<Duration> for TimeStamp {
    open spec fn obeys_add_spec() -> bool {
        true
    }

    open spec fn add_req(self, rhs: Duration) -> bool {
        self.checked_add_spec(rhs) is Some
    }

    open spec fn add_spec(self, rhs: Duration) -> TimeStamp {
        self.checked_add_spec(rhs).unwrap()
    }
}

impl AddAssign<Duration> for TimeStamp {
    /// Moves the timestamp forward by the whole intervals of `other`.
    ///
    /// The precondition leaves overflow out. A caller that has not shown it
    /// and overflows gets a panic; `checked_add` is the form that reports
    /// overflow as `None`.
    fn add_assign(&mut self, other: Duration)
        requires
            old(self).checked_add_spec(other) is Some,
        ensures
            Some(*final(self)) == old(self).checked_add_spec(other),
            intervals_after(old(self)@, other) == Some(final(self)@),
    {
        self.0 = self.0.checked_add_duration(&other).expect("overflow when adding duration to instant");
        proof {
            lemma_time_at_its_intervals(self.0);
        }
    }
}

impl Sub<Duration> for TimeStamp {
    type Output = TimeStamp;

    /// Moves the timestamp back by the whole intervals of `dur`.
    ///
    /// The precondition (`sub_req`) leaves overflow out. A caller that has
    /// not shown it and overflows gets a panic; `checked_sub` is the form
    /// that reports overflow as `None`.
    fn sub(self, dur: Duration) -> (r: TimeStamp)
        ensures
            intervals_before(self@, dur) == Some(r@),
    {
        let t = self.0.checked_sub_duration(&dur).expect(
            "overflow when subtracting duration from instant",
        );
        proof {
            lemma_time_at_its_intervals(t);
        }
        TimeStamp(t)
    }
}

impl SubSpecImpl<Duration> for TimeStamp {
    open spec fn obeys_sub_spec() -> bool {
        true
    }

    open spec fn sub_req(self, rhs: Duration) -> bool {
        self.checked_sub_spec(rhs) is Some
    }

    open spec fn sub_spec(self, rhs: Duration) -> TimeStamp {
        self.checked_sub_spec(rhs).unwrap()
    }
}

impl SubAssign<Duration> for TimeStamp {
    /// Moves the timestamp back by the whole intervals of `other`.
    ///
    /// The precondition leaves overflow out. A caller that has not shown it
    /// and overflows gets a panic; `checked_sub` is the form that reports
    /// overflow as `None`.
    fn sub_assign(&mut self, other: Duration)
        requires
            old(self).checked_sub_spec(other) is Some,
        ensures
            Some(*final(self)) == old(self).checked_sub_spec(other),
            intervals_before(old(self)@, other) == Some(final(self)@),
    {
        self.0 = self.0.checked_sub_duration(&other).expect(
            "overflow when subtracting duration from instant",
        );
        proof {
            lemma_time_at_its_intervals(self.0);
        }
    }
}

} // verus!
