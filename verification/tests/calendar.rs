use pcf8523::calendar::days_in_month;
use pcf8523::calendar::is_leap_year;
use pcf8523::calendar::remap_weekday;
use pcf8523::Timestamp;

fn ts(year: u16, month: u8, day: u8, hour: u8, minute: u8, second: u8) -> Timestamp {
    Timestamp { year, month, day, hour, minute, second }
}

#[test]
fn weekday_remapping() {
    // Sunday, numbered 7 by the Monday-based calendar convention, maps
    // to device code 0; 1 through 6 pass through unchanged.
    assert_eq!(remap_weekday(7), 0);
    for n in 1u32..=6 {
        assert_eq!(remap_weekday(n), n);
    }
}

#[test]
fn leap_years() {
    assert!(is_leap_year(2024));
    assert!(is_leap_year(2000));
    assert!(!is_leap_year(2023));
    assert!(!is_leap_year(2100));
    assert!(!is_leap_year(2001));
}

#[test]
fn month_lengths() {
    assert_eq!(days_in_month(2023, 1), 31);
    assert_eq!(days_in_month(2023, 2), 28);
    assert_eq!(days_in_month(2024, 2), 29);
    assert_eq!(days_in_month(2023, 4), 30);
    assert_eq!(days_in_month(2023, 6), 30);
    assert_eq!(days_in_month(2023, 9), 30);
    assert_eq!(days_in_month(2023, 11), 30);
    assert_eq!(days_in_month(2023, 12), 31);
}

#[test]
fn timestamp_validity() {
    assert!(ts(2023, 6, 15, 14, 30, 45).is_valid());
    assert!(ts(2000, 1, 1, 0, 0, 0).is_valid());
    assert!(ts(2099, 12, 31, 23, 59, 59).is_valid());
    assert!(ts(2024, 2, 29, 0, 0, 0).is_valid());

    // Outside the device's century window.
    assert!(!ts(1999, 12, 31, 23, 59, 59).is_valid());
    assert!(!ts(2100, 1, 1, 0, 0, 0).is_valid());

    // No real calendar date or time of day.
    assert!(!ts(2023, 13, 1, 0, 0, 0).is_valid());
    assert!(!ts(2023, 0, 1, 0, 0, 0).is_valid());
    assert!(!ts(2023, 2, 29, 0, 0, 0).is_valid());
    assert!(!ts(2023, 4, 31, 0, 0, 0).is_valid());
    assert!(!ts(2023, 6, 0, 0, 0, 0).is_valid());
    assert!(!ts(2023, 6, 15, 24, 0, 0).is_valid());
    assert!(!ts(2023, 6, 15, 0, 60, 0).is_valid());
    assert!(!ts(2023, 6, 15, 0, 0, 60).is_valid());
}
