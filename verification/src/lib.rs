//! Wall-clock timestamps counted in 100-nanosecond intervals since 1601-01-01.
//!
//! [`TimeStamp`] is the value that callers hold. It wraps the raw clock value
//! [`KrazyKraigTime`], which does the arithmetic on the count of intervals.
//! [`FileTime`] is the split form in which the system clock hands a reading
//! over. The library never reads the clock itself: `now` and `elapsed` take
//! the reading from their caller.

pub mod clock;
pub mod filetime;
pub mod interval;
pub mod timestamp;

pub use clock::KrazyKraigTime;
pub use filetime::FileTime;
pub use timestamp::{SystemTimeError, TimeStamp};
