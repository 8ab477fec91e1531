use grease::datetime::{is_valid_time, last_sunday, MAX_TIME};
use grease::event::{Event, Period};

#[test]
fn weeks_start_on_sundays() {
    // 2024-01-07 was a Sunday; the epoch was a Thursday.
    assert_eq!(last_sunday(1_704_585_600), 1_704_585_600);
    assert_eq!(last_sunday(1_704_585_600 + 3 * 86_400 + 5), 1_704_585_600 + 5);
    assert_eq!(last_sunday(0), -4 * 86_400);
    assert_eq!(last_sunday(-1), -1 - 3 * 86_400);
}

#[test]
fn months_and_leap_years() {
    const DAY: i64 = 86_400;
    // 2024-02-10, 2023-02-10, 2000-02-10 and 1900-02-10.
    assert_eq!(Event::period_step(Period::Monthly, 1_707_523_200), 29 * DAY);
    assert_eq!(Event::period_step(Period::Monthly, 1_675_987_200), 28 * DAY);
    assert_eq!(Event::period_step(Period::Monthly, 950_140_800), 29 * DAY);
    assert_eq!(Event::period_step(Period::Monthly, -2_205_532_800), 28 * DAY);
    // 2024-04-10 and 2024-12-10.
    assert_eq!(Event::period_step(Period::Monthly, 1_712_707_200), 30 * DAY);
    assert_eq!(Event::period_step(Period::Monthly, 1_733_788_800), 31 * DAY);
}

#[test]
fn valid_times() {
    assert!(is_valid_time(0));
    assert!(is_valid_time(MAX_TIME));
    assert!(!is_valid_time(MAX_TIME + 1));
    assert!(is_valid_time(-MAX_TIME));
}
