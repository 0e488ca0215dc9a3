use filetime_clock::interval::{
    checked_dur2intervals, intervals2dur, INTERVALS_PER_SEC, NANOS_PER_SEC,
};
use std::time::Duration;

#[test]
fn constants_have_their_values() {
    assert_eq!(NANOS_PER_SEC, 1_000_000_000);
    assert_eq!(INTERVALS_PER_SEC, 10_000_000);
}

#[test]
fn intervals2dur_of_zero_is_zero() {
    assert_eq!(intervals2dur(0), Duration::new(0, 0));
}

#[test]
fn intervals2dur_splits_seconds_and_nanoseconds() {
    assert_eq!(intervals2dur(1), Duration::from_nanos(100));
    assert_eq!(intervals2dur(9_999_999), Duration::new(0, 999_999_900));
    assert_eq!(intervals2dur(10_000_000), Duration::from_secs(1));
    assert_eq!(intervals2dur(12_345_678_901), Duration::new(1234, 567_890_100));
}

#[test]
fn intervals2dur_of_largest_count() {
    assert_eq!(intervals2dur(u64::MAX), Duration::new(1_844_674_407_370, 955_161_500));
}

#[test]
fn checked_dur2intervals_counts_whole_intervals() {
    assert_eq!(checked_dur2intervals(&Duration::new(0, 0)), Some(0));
    assert_eq!(checked_dur2intervals(&Duration::from_secs(1)), Some(10_000_000));
    assert_eq!(checked_dur2intervals(&Duration::new(1234, 567_890_100)), Some(12_345_678_901));
}

#[test]
fn checked_dur2intervals_drops_what_is_below_one_interval() {
    assert_eq!(checked_dur2intervals(&Duration::from_nanos(99)), Some(0));
    assert_eq!(checked_dur2intervals(&Duration::from_nanos(100)), Some(1));
    assert_eq!(checked_dur2intervals(&Duration::from_nanos(150)), Some(1));
    assert_eq!(checked_dur2intervals(&Duration::from_nanos(199)), Some(1));
    assert_eq!(checked_dur2intervals(&Duration::new(1, 250)), Some(10_000_002));
}

#[test]
fn checked_dur2intervals_at_the_signed_limit() {
    // i64::MAX intervals are 922_337_203_685 s and 4_775_807 intervals.
    let largest = Duration::new(922_337_203_685, 477_580_700);
    assert_eq!(checked_dur2intervals(&largest), Some(i64::MAX));
    let still_largest = Duration::new(922_337_203_685, 477_580_799);
    assert_eq!(checked_dur2intervals(&still_largest), Some(i64::MAX));
    let one_more = Duration::new(922_337_203_685, 477_580_800);
    assert_eq!(checked_dur2intervals(&one_more), None);
}

#[test]
fn checked_dur2intervals_overflow_in_the_product() {
    assert_eq!(checked_dur2intervals(&Duration::from_secs(u64::MAX)), None);
    assert_eq!(checked_dur2intervals(&Duration::MAX), None);
    // 1_844_674_407_371 s is the first count of seconds whose intervals pass u64::MAX.
    assert_eq!(checked_dur2intervals(&Duration::from_secs(1_844_674_407_371)), None);
}

#[test]
fn checked_dur2intervals_between_the_signed_and_the_unsigned_limit() {
    // Fits in u64, not in i64.
    assert_eq!(checked_dur2intervals(&Duration::from_secs(1_844_674_407_370)), None);
}

#[test]
fn conversion_there_and_back() {
    for intervals in [0u64, 1, 99, 10_000_000, 116_444_736_000_000_000, i64::MAX as u64] {
        assert_eq!(checked_dur2intervals(&intervals2dur(intervals)), Some(intervals as i64));
    }
}
