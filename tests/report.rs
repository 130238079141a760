use timecard::aggregate::{aggregate, AggregateError, AggregatedRow};
use timecard::entry::Entry;
use timecard::report::{entry_table, render, weekly_report, RowKind, MAX_WIDTH};

fn entry(code: &str, start: &str, stop: &str, week_day: &str, memo: &str) -> Entry {
    Entry {
        id: None,
        start: start.to_string(),
        stop: stop.to_string(),
        week_day: week_day.to_string(),
        code: code.to_string(),
        memo: memo.to_string(),
    }
}

fn hours(row: &AggregatedRow, day: usize) -> f64 {
    row.minutes[day] as f64 / 60.0
}

fn cells(row: &timecard::report::ReportRow) -> Vec<&str> {
    row.cells.iter().map(|c| c.as_str()).collect()
}

fn scenario() -> Vec<Entry> {
    vec![
        entry("20-008", "2024-01-07 09:00:00", "2024-01-07 11:00:00", "Sun", ""),
        entry("20-008", "2024-01-08 09:00:00", "2024-01-08 10:00:00", "Mon", ""),
    ]
}

#[test]
fn two_entries_one_project() {
    let rows = aggregate(&scenario(), MAX_WIDTH).unwrap();
    assert_eq!(rows.len(), 1);
    assert_eq!(rows[0].code, "20-008");
    assert_eq!(hours(&rows[0], 0), 2.0);
    assert_eq!(hours(&rows[0], 1), 1.0);
    for d in 2..7 {
        assert_eq!(hours(&rows[0], d), 0.0);
    }
    let table = render(&rows, false);
    assert_eq!(table.len(), 2);
    assert_eq!(table[0].kind, RowKind::Header);
    assert_eq!(cells(&table[0]), vec!["Project", "Sun", "Mon", "Tue", "Wed", "Thu", "Fri", "Sat"]);
    assert_eq!(table[1].kind, RowKind::Hours);
    assert_eq!(cells(&table[1]), vec!["20-008", "2.0", "1.0", "0.0", "0.0", "0.0", "0.0", "0.0"]);
}

#[test]
fn half_hours_count_exactly() {
    let e = vec![entry("20-008", "2024-01-07 09:00:00", "2024-01-07 11:30:00", "Sun", "m")];
    let rows = aggregate(&e, MAX_WIDTH).unwrap();
    assert_eq!(rows[0].minutes[0], 150);
    assert_eq!(hours(&rows[0], 0), 2.5);
}

#[test]
fn entries_in_any_order_give_the_same_totals() {
    let a = vec![
        entry("A", "2024-01-07 09:00:00", "2024-01-07 10:15:00", "Sun", "one"),
        entry("B", "2024-01-08 09:00:00", "2024-01-08 12:00:00", "Mon", "two"),
        entry("A", "2024-01-07 13:00:00", "2024-01-07 13:45:00", "Sun", "three"),
        entry("A", "2024-01-09 08:00:00", "2024-01-09 09:00:00", "Tue", "four"),
    ];
    let mut b = a.clone();
    b.reverse();
    let ra = aggregate(&a, MAX_WIDTH).unwrap();
    let rb = aggregate(&b, MAX_WIDTH).unwrap();
    assert_eq!(ra.len(), 2);
    assert_eq!(rb.len(), 2);
    for x in &ra {
        let y = rb.iter().find(|r| r.code == x.code).unwrap();
        assert_eq!(x.minutes, y.minutes);
    }
    assert_eq!(ra[0].code, "A");
    assert_eq!(rb[0].code, "A");
    assert_eq!(ra[0].minutes, vec![120, 0, 60, 0, 0, 0, 0]);
    assert_eq!(ra[1].minutes, vec![0, 180, 0, 0, 0, 0, 0]);
}

#[test]
fn codes_keep_first_seen_order() {
    let e = vec![
        entry("B", "2024-01-07 09:00:00", "2024-01-07 10:00:00", "Sun", ""),
        entry("A", "2024-01-07 09:00:00", "2024-01-07 10:00:00", "Sun", ""),
        entry("B", "2024-01-08 09:00:00", "2024-01-08 10:00:00", "Mon", ""),
        entry("C", "2024-01-08 09:00:00", "2024-01-08 10:00:00", "Mon", ""),
    ];
    let rows = aggregate(&e, MAX_WIDTH).unwrap();
    let codes: Vec<&str> = rows.iter().map(|r| r.code.as_str()).collect();
    assert_eq!(codes, vec!["B", "A", "C"]);
}

#[test]
fn no_entries_no_rows() {
    let rows = aggregate(&Vec::new(), MAX_WIDTH).unwrap();
    assert!(rows.is_empty());
    let table = render(&rows, true);
    assert_eq!(table.len(), 1);
}

#[test]
fn idle_project_has_no_hour_row() {
    let e = vec![
        entry("20-008", "2024-01-07 09:00:00", "2024-01-07 09:00:00", "Sun", ""),
        entry("20-009", "2024-01-07 09:00:00", "2024-01-07 09:30:00", "Sun", ""),
    ];
    let rows = aggregate(&e, MAX_WIDTH).unwrap();
    assert_eq!(rows.len(), 2);
    assert_eq!(rows[0].minutes, vec![0; 7]);
    let table = render(&rows, false);
    assert_eq!(table.len(), 2);
    assert_eq!(table[1].cells[0], "20-009");
    assert_eq!(table[1].cells[1], "0.5");
}

#[test]
fn negative_durations_pass_through() {
    let e = vec![entry("X", "2024-01-07 11:00:00", "2024-01-07 09:00:00", "Sun", "")];
    let rows = aggregate(&e, MAX_WIDTH).unwrap();
    assert_eq!(rows[0].minutes[0], -120);
    assert_eq!(render(&rows, false).len(), 1);
}

#[test]
fn memos_accumulate_per_weekday() {
    let e = vec![
        entry("20-008", "2024-01-07 09:00:00", "2024-01-07 10:00:00", "Sun", "first"),
        entry("20-008", "2024-01-07 11:00:00", "2024-01-07 12:00:00", "Sun", "abcdefghijklmnopqrstu"),
        entry("20-008", "2024-01-09 11:00:00", "2024-01-09 12:00:00", "Tue", "x"),
    ];
    let rows = aggregate(&e, MAX_WIDTH).unwrap();
    assert_eq!(rows[0].memos[0], "first; \nabcdefghijklmnopqrst\nu; \n");
    assert_eq!(rows[0].memos[1], "");
    assert_eq!(rows[0].memos[2], "x; \n");
    let table = render(&rows, true);
    assert_eq!(table.len(), 3);
    assert_eq!(table[2].kind, RowKind::Memos);
    assert_eq!(cells(&table[2]), vec![" ", "first; \nabcdefghijklmnopqrst\nu; \n", "", "x; \n", "", "", "", ""]);
    assert_eq!(render(&rows, false).len(), 2);
}

#[test]
fn hour_rows_alternate_emphasis() {
    let e = vec![
        entry("A", "2024-01-07 09:00:00", "2024-01-07 10:00:00", "Sun", "a"),
        entry("Z", "2024-01-07 09:00:00", "2024-01-07 09:00:00", "Sun", "z"),
        entry("B", "2024-01-07 09:00:00", "2024-01-07 10:00:00", "Sun", "b"),
        entry("C", "2024-01-07 09:00:00", "2024-01-07 10:00:00", "Sun", "c"),
    ];
    let rows = aggregate(&e, MAX_WIDTH).unwrap();
    let table = render(&rows, false);
    let marks: Vec<(&str, bool)> = table[1..].iter().map(|r| (r.cells[0].as_str(), r.highlighted)).collect();
    assert_eq!(marks, vec![("A", false), ("B", true), ("C", false)]);
    let with = render(&rows, true);
    let kinds: Vec<(RowKind, bool)> = with[1..].iter().map(|r| (r.kind, r.highlighted)).collect();
    assert_eq!(
        kinds,
        vec![
            (RowKind::Hours, false),
            (RowKind::Memos, false),
            (RowKind::Memos, true),
            (RowKind::Hours, true),
            (RowKind::Memos, true),
            (RowKind::Hours, false),
            (RowKind::Memos, false),
        ]
    );
}

#[test]
fn malformed_timestamp_stops_aggregation() {
    let e = vec![
        entry("A", "2024-01-07 09:00:00", "2024-01-07 10:00:00", "Sun", ""),
        entry("A", "2024-01-07 9am", "2024-01-07 10:00:00", "Sun", ""),
        entry("A", "2024-01-07 09:00:00", "2024-01-07 10:00:00", "Funday", ""),
    ];
    assert_eq!(aggregate(&e, MAX_WIDTH), Err(AggregateError::MalformedTimestamp { index: 1 }));
}

#[test]
fn unknown_weekday_stops_aggregation() {
    let e = vec![
        entry("A", "2024-01-07 09:00:00", "2024-01-07 10:00:00", "SUN", ""),
        entry("A", "bad", "2024-01-07 10:00:00", "Sun", ""),
    ];
    assert_eq!(aggregate(&e, MAX_WIDTH), Err(AggregateError::UnknownWeekday { index: 0 }));
}

#[test]
fn weekly_report_end_to_end() {
    let table = weekly_report(&scenario(), false).unwrap();
    assert_eq!(table.len(), 2);
    assert_eq!(cells(&table[1]), vec!["20-008", "2.0", "1.0", "0.0", "0.0", "0.0", "0.0", "0.0"]);
    let bad = vec![entry("A", "x", "y", "Sun", "")];
    assert_eq!(weekly_report(&bad, true), Err(AggregateError::MalformedTimestamp { index: 0 }));
}

#[test]
fn single_entry_table() {
    let e = entry("20-008", "2024-01-07 09:00:00", "2024-01-07 10:00:00", "Sun", "work, work, work");
    let t = entry_table(&e);
    assert_eq!(cells(&t[0]), vec!["Start Time", "Stop Time", "Week Day", "Code", "Memo"]);
    assert_eq!(
        cells(&t[1]),
        vec!["2024-01-07 09:00:00", "2024-01-07 10:00:00", "Sun", "20-008", "work, work, work; \n"]
    );
}

#[test]
fn new_row_starts_at_zero() {
    let r = AggregatedRow::new("20-008".to_string());
    assert_eq!(r.code, "20-008");
    assert_eq!(r.minutes, vec![0; 7]);
    assert_eq!(r.memos.len(), 7);
    assert!(r.memos.iter().all(|m| m.is_empty()));
}
