//! Calendar dates and date-times: which values exist, and their texts.

use redmine_api::api::dates::{Date, DateTime};

#[test]
fn valid_and_invalid_dates() {
    assert!(Date::from_calendar_date(2024, 2, 29).is_some());
    assert!(Date::from_calendar_date(2023, 2, 29).is_none());
    assert!(Date::from_calendar_date(1900, 2, 29).is_none());
    assert!(Date::from_calendar_date(2000, 2, 29).is_some());
    assert!(Date::from_calendar_date(2024, 4, 31).is_none());
    assert!(Date::from_calendar_date(2024, 13, 1).is_none());
    assert!(Date::from_calendar_date(2024, 1, 0).is_none());
    assert!(Date::from_calendar_date(10000, 1, 1).is_none());
    assert!(Date::from_calendar_date(-9999, 1, 1).is_some());
    assert!(Date::from_calendar_date(i32::MIN, 1, 1).is_none());
}

#[test]
fn date_parts() {
    let d = Date::from_calendar_date(1999, 12, 31).unwrap();
    assert_eq!((d.year(), d.month(), d.day()), (1999, 12, 31));
}

#[test]
fn date_texts_are_padded() {
    assert_eq!(Date::from_calendar_date(2024, 1, 5).unwrap().to_text(), "2024-01-05");
    assert_eq!(Date::from_calendar_date(987, 10, 15).unwrap().to_text(), "0987-10-15");
    assert_eq!(Date::from_calendar_date(-44, 3, 15).unwrap().to_text(), "-0044-03-15");
    assert_eq!(Date::from_calendar_date(0, 1, 1).unwrap().to_text(), "0000-01-01");
}

#[test]
fn date_time_ranges() {
    let d = Date::from_calendar_date(2020, 6, 1).unwrap();
    assert!(DateTime::new(d, 24, 0, 0, 0, 0, 0, 0).is_none());
    assert!(DateTime::new(d, 0, 60, 0, 0, 0, 0, 0).is_none());
    assert!(DateTime::new(d, 0, 0, 60, 0, 0, 0, 0).is_none());
    assert!(DateTime::new(d, 0, 0, 0, 1_000_000_000, 0, 0, 0).is_none());
    assert!(DateTime::new(d, 0, 0, 0, 0, 26, 0, 0).is_none());
    assert!(DateTime::new(d, 0, 0, 0, 0, 1, -30, 0).is_none());
    assert!(DateTime::new(d, 0, 0, 0, 0, -1, -30, 0).is_some());
    assert!(DateTime::new(d, 23, 59, 59, 999_999_999, 25, 59, 59).is_some());
    assert_eq!(DateTime::utc(d, 1, 2, 3).unwrap().date(), d);
}

#[test]
fn date_time_texts() {
    let d = Date::from_calendar_date(2020, 6, 1).unwrap();
    let dt = DateTime::new(d, 7, 8, 9, 100, -2, -15, 0).unwrap();
    assert_eq!(dt.to_filter_text(), "2020-06-01T07:08:09Z");
    assert_eq!(dt.to_rfc3339(), "2020-06-01T07:08:09.0000001-02:15");
    assert_eq!(DateTime::utc(d, 0, 0, 0).unwrap().to_rfc3339(), "2020-06-01T00:00:00Z");
}
