use filetime_clock::FileTime;

#[test]
fn joins_the_two_halves() {
    assert_eq!(FileTime { low: 0, high: 0 }.intervals(), 0);
    assert_eq!(FileTime { low: 5, high: 0 }.intervals(), 5);
    assert_eq!(FileTime { low: 5, high: 1 }.intervals(), 0x1_0000_0005);
    assert_eq!(FileTime { low: 0xFFFF_FFFF, high: 0 }.intervals(), 0xFFFF_FFFF);
}

#[test]
fn high_bit_makes_the_count_negative() {
    assert_eq!(FileTime { low: 0xFFFF_FFFF, high: 0xFFFF_FFFF }.intervals(), -1);
    assert_eq!(FileTime { low: 0, high: 0x8000_0000 }.intervals(), i64::MIN);
    assert_eq!(FileTime { low: 0xFFFF_FFFF, high: 0x7FFF_FFFF }.intervals(), i64::MAX);
}

#[test]
fn unix_epoch_in_halves() {
    let epoch = FileTime { low: 0xD53E_8000, high: 0x019D_B1DE };
    assert_eq!(epoch.intervals(), 116_444_736_000_000_000);
    assert_eq!(FileTime::from_intervals(116_444_736_000_000_000), epoch);
}

#[test]
fn splits_a_count_into_halves() {
    assert_eq!(FileTime::from_intervals(0), FileTime { low: 0, high: 0 });
    assert_eq!(FileTime::from_intervals(0x1_0000_0005), FileTime { low: 5, high: 1 });
    assert_eq!(FileTime::from_intervals(-1), FileTime { low: 0xFFFF_FFFF, high: 0xFFFF_FFFF });
    assert_eq!(FileTime::from_intervals(-2), FileTime { low: 0xFFFF_FFFE, high: 0xFFFF_FFFF });
    assert_eq!(FileTime::from_intervals(i64::MIN), FileTime { low: 0, high: 0x8000_0000 });
    assert_eq!(
        FileTime::from_intervals(i64::MAX),
        FileTime { low: 0xFFFF_FFFF, high: 0x7FFF_FFFF }
    );
}

#[test]
fn halves_round_trip() {
    for intervals in [0i64, 1, -1, 0xFFFF_FFFF, 0x1_0000_0000, -0x1_0000_0000, i64::MIN, i64::MAX] {
        assert_eq!(FileTime::from_intervals(intervals).intervals(), intervals);
    }
    for (low, high) in [(0u32, 0u32), (1, 2), (0xFFFF_FFFF, 0), (0, 0xFFFF_FFFF), (7, 0x8000_0000)] {
        let parts = FileTime { low, high };
        assert_eq!(FileTime::from_intervals(parts.intervals()), parts);
    }
}
