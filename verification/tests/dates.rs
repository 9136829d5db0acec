use streak_badge::date::Date;
use streak_badge::date::MalformedDateError;
use streak_badge::date::parse_date;

fn d(y: u32, m: u32, day: u32) -> Date {
    Date::from_ymd(y, m, day).unwrap()
}

#[test]
fn day_zero_is_calendar_origin() {
    assert_eq!(d(1, 1, 1).day_number(), 0);
    assert_eq!(d(1, 1, 2).day_number(), 1);
    assert_eq!(d(1, 2, 1).day_number(), 31);
}

#[test]
fn consecutive_days_across_boundaries() {
    assert_eq!(d(2024, 1, 2).day_number(), d(2024, 1, 1).day_number() + 1);
    assert_eq!(d(2024, 3, 1).day_number(), d(2024, 2, 29).day_number() + 1);
    assert_eq!(d(2023, 3, 1).day_number(), d(2023, 2, 28).day_number() + 1);
    assert_eq!(d(2024, 1, 1).day_number(), d(2023, 12, 31).day_number() + 1);
}

#[test]
fn leap_year_rules() {
    assert!(Date::from_ymd(2024, 2, 29).is_some());
    assert!(Date::from_ymd(2023, 2, 29).is_none());
    assert!(Date::from_ymd(1900, 2, 29).is_none());
    assert!(Date::from_ymd(2000, 2, 29).is_some());
}

#[test]
fn from_ymd_rejects_out_of_range() {
    assert!(Date::from_ymd(0, 1, 1).is_none());
    assert!(Date::from_ymd(10000, 1, 1).is_none());
    assert!(Date::from_ymd(2024, 0, 1).is_none());
    assert!(Date::from_ymd(2024, 13, 1).is_none());
    assert!(Date::from_ymd(2024, 4, 31).is_none());
    assert!(Date::from_ymd(2024, 1, 0).is_none());
}

#[test]
fn parse_accepts_iso_dates() {
    assert_eq!(parse_date("2024-01-05").unwrap(), d(2024, 1, 5));
    assert_eq!(parse_date("0001-01-01").unwrap().day_number(), 0);
    assert_eq!(parse_date("9999-12-31").unwrap(), d(9999, 12, 31));
}

#[test]
fn parse_rejects_malformed_strings() {
    assert_eq!(parse_date(""), Err(MalformedDateError));
    assert_eq!(parse_date("2024-1-05"), Err(MalformedDateError));
    assert_eq!(parse_date("2024/01/05"), Err(MalformedDateError));
    assert_eq!(parse_date("2024-01-05x"), Err(MalformedDateError));
    assert_eq!(parse_date("2024-13-05"), Err(MalformedDateError));
    assert_eq!(parse_date("2024-02-30"), Err(MalformedDateError));
    assert_eq!(parse_date("2023-02-29"), Err(MalformedDateError));
    assert_eq!(parse_date("yyyy-mm-dd"), Err(MalformedDateError));
}
