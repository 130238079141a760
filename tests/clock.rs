use timecard::calendar::Date;
use timecard::intake::{backdated_entry, process_new_entry, resolve_date_arg, split_on, EntryError};
use timecard::memo::format_memo;
use timecard::report::format_hours;
use timecard::timestamp::{minutes_between, parse_entry_time, parse_timestamp, TimeError};

#[test]
fn compact_times_split_into_hours_and_minutes() {
    assert_eq!(parse_entry_time("0930".to_string()), Ok((9, 30)));
    assert_eq!(parse_entry_time("1700".to_string()), Ok((17, 0)));
    assert_eq!(parse_entry_time("5".to_string()), Ok((0, 5)));
    assert_eq!(parse_entry_time("+0900".to_string()), Ok((9, 0)));
    assert_eq!(parse_entry_time("4294967295".to_string()), Ok((42949672, 95)));
}

#[test]
fn non_numbers_are_not_times() {
    assert_eq!(parse_entry_time("".to_string()), Err(TimeError::NotANumber));
    assert_eq!(parse_entry_time("+".to_string()), Err(TimeError::NotANumber));
    assert_eq!(parse_entry_time("9:30".to_string()), Err(TimeError::NotANumber));
    assert_eq!(parse_entry_time("-900".to_string()), Err(TimeError::NotANumber));
    assert_eq!(parse_entry_time("4294967296".to_string()), Err(TimeError::NotANumber));
}

#[test]
fn canonical_timestamps_are_read() {
    let a = parse_timestamp("2024-01-07 09:00:00").unwrap();
    let b = parse_timestamp("2024-01-07 11:30:00").unwrap();
    assert_eq!(a.days, Date::from_ymd(2024, 1, 7).unwrap().days);
    assert_eq!(a.secs, 9 * 3600);
    assert_eq!(minutes_between(a, b), 150);
    assert_eq!(minutes_between(b, a), -150);
    assert_eq!(parse_timestamp("2024-01-07 09:00"), None);
    assert_eq!(parse_timestamp("yesterday"), None);
}

#[test]
fn minutes_truncate_toward_zero() {
    let a = parse_timestamp("2024-01-07 09:00:00").unwrap();
    let b = parse_timestamp("2024-01-07 09:01:59").unwrap();
    assert_eq!(minutes_between(a, b), 1);
    assert_eq!(minutes_between(b, a), -1);
    let c = parse_timestamp("2024-01-08 01:00:00").unwrap();
    assert_eq!(minutes_between(a, c), 16 * 60);
}

#[test]
fn memo_of_exactly_the_width() {
    let memo = "abcdefghijklmnopqrst".to_string();
    assert_eq!(format_memo(memo, 20), "abcdefghijklmnopqrst\n; \n");
}

#[test]
fn memo_wraps_at_the_width() {
    assert_eq!(format_memo("abcdefghijklmnopqrstuvwxy".to_string(), 20), "abcdefghijklmnopqrst\nuvwxy; \n");
    assert_eq!(format_memo("work, work, work".to_string(), 20), "work, work, work; \n");
    assert_eq!(format_memo("".to_string(), 20), "; \n");
    assert_eq!(format_memo("abcdef".to_string(), 3), "abc\ndef\n; \n");
    assert_eq!(format_memo("héllo".to_string(), 2), "hé\nll\no; \n");
}

#[test]
fn hours_are_decimal_text() {
    assert_eq!(format_hours(150), "2.5");
    assert_eq!(format_hours(120), "2.0");
    assert_eq!(format_hours(0), "0.0");
    assert_eq!(format_hours(20), "0.33");
    assert_eq!(format_hours(10), "0.17");
    assert_eq!(format_hours(1), "0.02");
    assert_eq!(format_hours(59), "0.98");
    assert_eq!(format_hours(-90), "-1.5");
    assert_eq!(format_hours(6000), "100.0");
}

#[test]
fn new_entry_from_input() {
    let today = Date::from_ymd(2024, 1, 10).unwrap();
    let values = vec!["0900".to_string(), "1130".to_string(), "20-008".to_string(), "work, work, work".to_string()];
    let e = process_new_entry(&values, today).unwrap();
    assert_eq!(e.start, "2024-01-10 09:00:00");
    assert_eq!(e.stop, "2024-01-10 11:30:00");
    assert_eq!(e.week_day, "Wed");
    assert_eq!(e.code, "20-008");
    assert_eq!(e.memo, "work, work, work");
}

#[test]
fn new_entry_with_a_bad_time() {
    let today = Date::from_ymd(2024, 1, 10).unwrap();
    let values = vec!["0900".to_string(), "noon".to_string(), "20-008".to_string(), "m".to_string()];
    assert_eq!(process_new_entry(&values, today), Err(EntryError::InvalidTime));
}

#[test]
fn new_entry_outside_the_calendar() {
    let far = Date { days: i32::MAX };
    let values = vec!["0900".to_string(), "1000".to_string(), "20-008".to_string(), "m".to_string()];
    assert_eq!(process_new_entry(&values, far), Err(EntryError::DateOutOfRange));
}

fn args(v: &[&str]) -> Vec<String> {
    v.iter().map(|s| s.to_string()).collect()
}

#[test]
fn date_words_are_relative_to_today() {
    let today = Date::from_ymd(2024, 1, 10).unwrap();
    assert_eq!(resolve_date_arg(&"today".to_string(), today), Some(today));
    assert_eq!(resolve_date_arg(&"yesterday".to_string(), today), Date::from_ymd(2024, 1, 9));
    assert_eq!(resolve_date_arg(&"tomorrow".to_string(), today), Date::from_ymd(2024, 1, 11));
    assert_eq!(resolve_date_arg(&"2023-12-24".to_string(), today), Date::from_ymd(2023, 12, 24));
    assert_eq!(resolve_date_arg(&"2023-2-3".to_string(), today), Date::from_ymd(2023, 2, 3));
}

#[test]
fn bad_date_arguments_are_refused() {
    let today = Date::from_ymd(2024, 1, 10).unwrap();
    assert_eq!(resolve_date_arg(&"Today".to_string(), today), None);
    assert_eq!(resolve_date_arg(&"2023-12".to_string(), today), None);
    assert_eq!(resolve_date_arg(&"2023-02-30".to_string(), today), None);
    assert_eq!(resolve_date_arg(&"-2023-01-01".to_string(), today), None);
    assert_eq!(resolve_date_arg(&"2023-x-01".to_string(), today), None);
}

#[test]
fn dash_split_keeps_empty_pieces() {
    let parts = split_on(&"a--b-".chars().collect(), '-');
    let texts: Vec<String> = parts.iter().map(|p| p.iter().collect()).collect();
    assert_eq!(texts, vec!["a", "", "b", ""]);
    assert_eq!(split_on(&Vec::new(), '-').len(), 1);
}

#[test]
fn backdated_entry_on_a_named_day() {
    let today = Date::from_ymd(2024, 1, 10).unwrap();
    let e = backdated_entry(&args(&["yesterday", "1300", "1530", "20-000", "meeting"]), today).unwrap();
    assert_eq!(e.start, "2024-01-09 13:00:00");
    assert_eq!(e.stop, "2024-01-09 15:30:00");
    assert_eq!(e.week_day, "Tue");
    assert_eq!(e.code, "20-000");
    assert_eq!(e.memo, "meeting");
    let f = backdated_entry(&args(&["2024-01-07", "0900", "1000", "20-008", "m"]), today).unwrap();
    assert_eq!(f.start, "2024-01-07 09:00:00");
    assert_eq!(f.week_day, "Sun");
}

#[test]
fn backdated_entry_errors() {
    let today = Date::from_ymd(2024, 1, 10).unwrap();
    assert_eq!(
        backdated_entry(&args(&["someday", "0900", "1000", "20-008", "m"]), today),
        Err(EntryError::InvalidDate)
    );
    assert_eq!(
        backdated_entry(&args(&["today", "09h", "1000", "20-008", "m"]), today),
        Err(EntryError::InvalidTime)
    );
}
