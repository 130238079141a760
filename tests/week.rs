use timecard::calendar::{resolve_week, weekday_label, weekday_slot, Date, WeekError};
use timecard::timestamp::entry_time_to_full_date;

fn day(y: i32, m: u32, d: u32) -> Date {
    Date::from_ymd(y, m, d).unwrap()
}

#[test]
fn current_week_of_a_wednesday() {
    let w = resolve_week(day(2024, 1, 10), 0).unwrap();
    assert_eq!(w.begin, day(2024, 1, 7));
    assert_eq!(w.end, day(2024, 1, 13));
    assert_eq!(w.begin.to_text().unwrap(), "2024-01-07");
    assert_eq!(w.end.to_text().unwrap(), "2024-01-13");
}

#[test]
fn last_week_crosses_the_year() {
    let w = resolve_week(day(2024, 1, 10), 1).unwrap();
    assert_eq!(w.begin.to_text().unwrap(), "2023-12-31");
    assert_eq!(w.end.to_text().unwrap(), "2024-01-06");
}

#[test]
fn negative_offset_is_refused() {
    assert_eq!(resolve_week(day(2024, 1, 10), -1), Err(WeekError::InvalidOffset));
}

#[test]
fn sunday_and_saturday_are_their_own_week() {
    let sun = resolve_week(day(2024, 1, 7), 0).unwrap();
    assert_eq!(sun.begin, day(2024, 1, 7));
    let sat = resolve_week(day(2024, 1, 13), 0).unwrap();
    assert_eq!(sat.begin, day(2024, 1, 7));
    assert_eq!(sat.end, day(2024, 1, 13));
}

#[test]
fn every_window_begins_on_sunday() {
    for offset in 0..10 {
        for d in 1..=28 {
            let today = day(2023, 2, d);
            let w = resolve_week(today, offset).unwrap();
            assert_eq!(w.begin.weekday(), 0);
            assert_eq!(w.end.days - w.begin.days, 6);
            assert_eq!(w.end.weekday(), 6);
            if offset == 0 {
                assert!(w.begin.days <= today.days && today.days <= w.end.days);
            }
        }
    }
}

#[test]
fn weekdays_follow_the_calendar() {
    assert_eq!(day(2024, 1, 7).weekday(), 0);
    assert_eq!(day(2024, 1, 8).weekday(), 1);
    assert_eq!(day(2024, 1, 13).weekday(), 6);
    assert_eq!(day(1, 1, 1).days, 1);
    assert_eq!(day(1, 1, 1).weekday(), 1);
}

#[test]
fn invalid_calendar_dates_are_refused() {
    assert_eq!(Date::from_ymd(2023, 2, 29), None);
    assert_eq!(Date::from_ymd(2024, 13, 1), None);
    assert!(Date::from_ymd(2024, 2, 29).is_some());
}

#[test]
fn weekday_labels_round_trip() {
    let labels = ["Sun", "Mon", "Tue", "Wed", "Thu", "Fri", "Sat"];
    for (i, l) in labels.iter().enumerate() {
        assert_eq!(weekday_label(i), *l);
        assert_eq!(weekday_slot(l), Some(i));
    }
    assert_eq!(weekday_slot("sun"), None);
    assert_eq!(weekday_slot("WED"), None);
    assert_eq!(weekday_slot(""), None);
}

#[test]
fn window_timestamp_range_is_half_open() {
    let w = resolve_week(day(2024, 1, 10), 0).unwrap();
    let (a, b) = w.timestamp_range().unwrap();
    assert_eq!(a, "2024-01-07 00:00:00");
    assert_eq!(b, "2024-01-14 00:00:00");
}

#[test]
fn full_date_of_a_clock_time() {
    assert_eq!(entry_time_to_full_date(day(2024, 1, 7), 9, 5).unwrap(), "2024-01-07 09:05:00");
    assert_eq!(entry_time_to_full_date(day(2024, 12, 31), 23, 59).unwrap(), "2024-12-31 23:59:00");
}
