//! The operating system's split form of a time: the two 32-bit halves of a
//! 64-bit count of intervals.

use vstd::prelude::*;

verus! {

/// A time as the system clock reports it: the low and the high 32 bits of a
/// signed 64-bit count of 100-nanosecond intervals since 1601-01-01.
#[derive(Clone, Copy, Debug, PartialEq, Eq, Structural)]
pub struct FileTime {
    pub low: u32,
    pub high: u32,
}

impl View for FileTime {
    type V = int;

    /// The count of intervals that the two halves spell in two's complement.
    open spec fn view(&self) -> int {
        let unsigned = self.high * 0x1_0000_0000 + self.low;
        if self.high < 0x8000_0000 {
            unsigned
        } else {
            unsigned - 0x1_0000_0000_0000_0000
        }
    }
}

impl FileTime {
    /// The two halves that spell `intervals` in two's complement.
    pub open spec fn split(intervals: int) -> FileTime {
        FileTime {
            low: (intervals % 0x1_0000_0000) as u32,
            high: ((intervals / 0x1_0000_0000) % 0x1_0000_0000) as u32,
        }
    }

    /// Joins the two halves into the count of intervals.
    pub fn intervals(&self) -> (intervals: i64)
        ensures
            intervals == self@,
    {
        let low: u32 = self.low;
        let high: u32 = self.high;
        let joined: i64 = (low as i64) | ((high as i64) << 32);
        assert(joined == (if high < 0x8000_0000u32 {
            high * 0x1_0000_0000 + low
        } else {
            high * 0x1_0000_0000 + low - 0x1_0000_0000_0000_0000
        })) by (bit_vector)
            requires
                joined == (low as i64) | ((high as i64) << 32),
        ;
        joined
    }

    /// Splits a count of intervals into its two halves.
    pub fn from_intervals(intervals: i64) -> (parts: FileTime)
        ensures
            parts == FileTime::split(intervals as int),
            parts@ == intervals,
    {
        let low: u32 = intervals as u32;
        let high: u32 = (intervals >> 32) as u32;
        assert(intervals == (if high < 0x8000_0000u32 {
            high * 0x1_0000_0000 + low
        } else {
            high * 0x1_0000_0000 + low - 0x1_0000_0000_0000_0000
        })) by (bit_vector)
            requires
                low == intervals as u32,
                high == (intervals >> 32) as u32,
        ;
        let parts = FileTime { low, high };
        proof {
            lemma_join_then_split(parts);
        }
        parts
    }
}

/// The count that two halves spell fits in a signed 64-bit integer, and
/// splitting it gives the same two halves back.
pub proof fn lemma_join_then_split(parts: FileTime)
    ensures
        i64::MIN <= parts@ <= i64::MAX,
        FileTime::split(parts@) == parts,
{
}

/// The halves of a count that fits in a signed 64-bit integer spell that
/// count.
pub proof fn lemma_split_then_join(intervals: int)
    requires
        i64::MIN <= intervals <= i64::MAX,
    ensures
        FileTime::split(intervals)@ == intervals,
{
}

} // verus!
