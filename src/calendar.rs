//! Calendar days, weekdays and the Sunday-anchored week window.
use vstd::prelude::*;
use crate::text::{string_of, two_digit_text, int_text, push_int, push_two_digits, same_chars, chars_of};

verus! {

/// A calendar day, counted as chrono counts days from the common era:
/// 0001-01-01 of the proleptic Gregorian calendar is day 1, a Monday.
#[derive(Clone, Copy, Debug, PartialEq, Eq, Structural)]
pub struct Date {
    pub days: i32,
}

/// Zero-based weekday of a day number, Sunday = 0 through Saturday = 6.
pub open spec fn weekday_of(days: int) -> int {
    days % 7
}

/// The three-letter English label of a weekday index.
pub open spec fn weekday_label_spec(i: int) -> Seq<char> {
    if i == 0 {
        seq!['S', 'u', 'n']
    } else if i == 1 {
        seq!['M', 'o', 'n']
    } else if i == 2 {
        seq!['T', 'u', 'e']
    } else if i == 3 {
        seq!['W', 'e', 'd']
    } else if i == 4 {
        seq!['T', 'h', 'u']
    } else if i == 5 {
        seq!['F', 'r', 'i']
    } else {
        seq!['S', 'a', 't']
    }
}

/// The weekday index whose label is `label`, if any.
pub open spec fn weekday_slot_spec(label: Seq<char>) -> Option<int> {
    if exists|i: int| 0 <= i < 7 && weekday_label_spec(i) == label {
        Some(choose|i: int| 0 <= i < 7 && weekday_label_spec(i) == label)
    } else {
        None
    }
}

/// First day (a Sunday) of the week `weeks_ago` weeks before the week holding `today`.
pub open spec fn week_begin(today: int, weeks_ago: int) -> int {
    today - weekday_of(today) - 7 * weeks_ago
}

/// Whether the window for `weeks_ago` starts at a day number that `Date` can hold.
pub open spec fn week_fits(today: int, weeks_ago: int) -> bool {
    weeks_ago < 0 || (i32::MIN <= week_begin(today, weeks_ago) && week_begin(today, weeks_ago) + 6
        <= i32::MAX)
}

proof fn lemma_labels_distinct(i: int, j: int)
    requires
        0 <= i < 7,
        0 <= j < 7,
        weekday_label_spec(i) == weekday_label_spec(j),
    ensures
        i == j,
{
    if i != j {
        let a = weekday_label_spec(i);
        let b = weekday_label_spec(j);
        assert(a[0] != b[0] || a[1] != b[1] || a[2] != b[2]);
    }
}

/// A label names at most one weekday, and the slot of a weekday's label is that weekday.
pub proof fn lemma_slot_of_label(i: int)
    requires
        0 <= i < 7,
    ensures
        weekday_slot_spec(weekday_label_spec(i)) == Some(i),
{
    let l = weekday_label_spec(i);
    assert(0 <= i < 7 && weekday_label_spec(i) == l);
    let j = choose|j: int| 0 <= j < 7 && weekday_label_spec(j) == l;
    lemma_labels_distinct(i, j);
}

impl Date {
    /// The day of a year, month and day of the proleptic Gregorian calendar,
    /// `None` where no such date exists (as chrono's `NaiveDate::from_ymd_opt` decides).
    pub fn from_ymd(year: i32, month: u32, day: u32) -> (r: Option<Date>)
        ensures
            r == match day_number_of(year as int, month as int, day as int) {
                Some(n) => Some(Date { days: n as i32 }),
                None => None::<Date>,
            },
            r matches Some(d) ==> day_number_of(year as int, month as int, day as int) == Some(
                d.days as int,
            ),
    {
        match days_from_ymd(year, month, day) {
            Some(n) => Some(Date { days: n }),
            None => None,
        }
    }

    /// Zero-based weekday, Sunday = 0 through Saturday = 6.
    pub fn weekday(&self) -> (r: u32)
        ensures
            r as int == weekday_of(self.days as int),
            r < 7,
    {
        // 2147483653 is a multiple of 7 that lifts every i32 to a non-negative value.
        let lifted: u64 = (self.days as i64 + 2147483653i64) as u64;
        proof {
            vstd::arithmetic::div_mod::lemma_mod_multiples_vanish(
                306783379,
                self.days as int,
                7,
            );
        }
        (lifted % 7) as u32
    }

    /// The day `n` days later (`n` may be negative).
    pub fn add_days(&self, n: i64) -> (r: Date)
        requires
            i32::MIN <= self.days + n <= i32::MAX,
        ensures
            r.days == self.days + n,
    {
        Date { days: (self.days as i64 + n) as i32 }
    }

    /// The calendar date as `YYYY-MM-DD`, or `None` where chrono cannot represent the day.
    pub fn to_text(&self) -> (r: Option<String>)
        ensures
            r matches Some(s) ==> (calendar_of(self.days as int) matches Some((y, m, d)) && s@
                == date_text(y, m, d)),
            r is None <==> calendar_of(self.days as int) is None,
    {
        match ymd_from_days(self.days) {
            Some((y, m, d)) => {
                let mut out: Vec<char> = Vec::new();
                push_date(&mut out, y, m, d);
                Some(string_of(&out))
            },
            None => None,
        }
    }
}

/// `YYYY-MM-DD` text of a calendar date, month and day zero-padded.
pub open spec fn date_text(y: int, m: int, d: int) -> Seq<char> {
    int_text(y) + seq!['-'] + two_digit_text(m as nat) + seq!['-'] + two_digit_text(d as nat)
}

pub(crate) fn push_date(out: &mut Vec<char>, y: i32, m: u32, d: u32)
    ensures
        final(out)@ == old(out)@ + date_text(y as int, m as int, d as int),
{
    push_int(out, y as i64);
    out.push('-');
    push_two_digits(out, m);
    out.push('-');
    push_two_digits(out, d);
    assert(final(out)@ =~= old(out)@ + date_text(y as int, m as int, d as int));
}

/// Day number (counted from the common era) of a year, month and day, where that date exists.
pub uninterp spec fn day_number_of(year: int, month: int, day: int) -> Option<int>;

/// Year, month and day of a day number (counted from the common era), where chrono can represent it.
pub uninterp spec fn calendar_of(days: int) -> Option<(int, int, int)>;

/// Relies on chrono's `NaiveDate::from_ymd_opt`, read back with `Datelike::num_days_from_ce`.
#[verifier::external_body]
fn days_from_ymd(year: i32, month: u32, day: u32) -> (r: Option<i32>)
    ensures
        r matches Some(n) ==> day_number_of(year as int, month as int, day as int) == Some(n as int),
        r is None <==> day_number_of(year as int, month as int, day as int) is None,
{
    match chrono::NaiveDate::from_ymd_opt(year, month, day) {
        Some(d) => Some(chrono::Datelike::num_days_from_ce(&d)),
        None => None,
    }
}

/// Relies on chrono's `NaiveDate::from_num_days_from_ce_opt`, read back with
/// `Datelike::year`, `month` and `day`.
#[verifier::external_body]
pub(crate) fn ymd_from_days(days: i32) -> (r: Option<(i32, u32, u32)>)
    ensures
        r matches Some((y, m, d)) ==> calendar_of(days as int) == Some((y as int, m as int, d as int)),
        r is None <==> calendar_of(days as int) is None,
{
    match chrono::NaiveDate::from_num_days_from_ce_opt(days) {
        Some(d) => Some(
            (chrono::Datelike::year(&d), chrono::Datelike::month(&d), chrono::Datelike::day(&d)),
        ),
        None => None,
    }
}

/// The three-letter label ("Sun" .. "Sat") of a weekday index.
pub fn weekday_label(i: usize) -> (r: String)
    requires
        i < 7,
    ensures
        r@ == weekday_label_spec(i as int),
{
    let v = if i == 0 {
        vec!['S', 'u', 'n']
    } else if i == 1 {
        vec!['M', 'o', 'n']
    } else if i == 2 {
        vec!['T', 'u', 'e']
    } else if i == 3 {
        vec!['W', 'e', 'd']
    } else if i == 4 {
        vec!['T', 'h', 'u']
    } else if i == 5 {
        vec!['F', 'r', 'i']
    } else {
        vec!['S', 'a', 't']
    };
    assert(v@ =~= weekday_label_spec(i as int));
    string_of(&v)
}

/// The weekday index of a three-letter label ("Sun" = 0 .. "Sat" = 6), if it is one.
pub fn weekday_slot(label: &str) -> (r: Option<usize>)
    ensures
        r matches Some(i) ==> weekday_slot_spec(label@) == Some(i as int),
        r is None <==> weekday_slot_spec(label@) is None,
{
    let chars = chars_of(label);
    let mut i: usize = 0;
    while i < 7
        invariant
            0 <= i <= 7,
            chars@ == label@,
            forall|k: int| 0 <= k < i ==> weekday_label_spec(k) != label@,
        decreases 7 - i,
    {
        let cand = chars_of(weekday_label(i).as_str());
        if same_chars(&cand, &chars) {
            proof {
                lemma_slot_of_label(i as int);
            }
            return Some(i);
        }
        i = i + 1;
    }
    None
}

/// The Sunday-to-Saturday window of a report.
#[derive(Clone, Copy, Debug, PartialEq, Eq, Structural)]
pub struct WeekWindow {
    pub begin: Date,
    pub end: Date,
}

/// Why a week window could not be resolved.
#[derive(Clone, Copy, Debug, PartialEq, Eq, Structural)]
pub enum WeekError {
    /// The offset asked for a week in the future.
    InvalidOffset,
}

/// The week `weeks_ago` weeks before the week holding `today` (0 is the current week):
/// it begins on a Sunday and ends six days later, on a Saturday.
pub fn resolve_week(today: Date, weeks_ago: i64) -> (r: Result<WeekWindow, WeekError>)
    requires
        week_fits(today.days as int, weeks_ago as int),
    ensures
        weeks_ago < 0 ==> r == Err::<WeekWindow, WeekError>(WeekError::InvalidOffset),
        weeks_ago >= 0 ==> (r matches Ok(w) && w.begin.days == week_begin(
            today.days as int,
            weeks_ago as int,
        ) && w.end.days == w.begin.days + 6),
{
    if weeks_ago < 0 {
        return Err(WeekError::InvalidOffset);
    }
    let dow = today.weekday();
    let offset: i64 = dow as i64 + 7 * weeks_ago;
    let begin = today.add_days(0 - offset);
    let end = begin.add_days(6);
    Ok(WeekWindow { begin, end })
}

/// Every resolved window begins on a Sunday and spans seven days.
pub proof fn lemma_week_begins_on_sunday(today: int, weeks_ago: int)
    requires
        weeks_ago >= 0,
    ensures
        weekday_of(week_begin(today, weeks_ago)) == 0,
        (week_begin(today, weeks_ago) + 6) - week_begin(today, weeks_ago) == 6,
{
    let b = week_begin(today, weeks_ago);
    vstd::arithmetic::div_mod::lemma_fundamental_div_mod(today, 7);
    assert(7 * (today / 7) - 7 * weeks_ago == 7 * (today / 7 - weeks_ago)) by (nonlinear_arith);
    assert(b == 7 * (today / 7 - weeks_ago));
    vstd::arithmetic::div_mod::lemma_mod_multiples_vanish(today / 7 - weeks_ago, 0, 7);
}

/// The current week's window holds `today`.
pub proof fn lemma_current_week_holds_today(today: int)
    ensures
        week_begin(today, 0) <= today <= week_begin(today, 0) + 6,
{
}

impl WeekWindow {
    /// The half-open range of canonical timestamps covered by the window:
    /// from the first day at 00:00:00 up to, not including, the day after the last at 00:00:00.
    pub fn timestamp_range(&self) -> (r: Option<(String, String)>)
        requires
            self.end.days < i32::MAX,
        ensures
            r matches Some((a, b)) ==> ((calendar_of(self.begin.days as int) matches Some(
                (y, m, d),
            ) && a@ == crate::timestamp::timestamp_text(y, m, d, 0, 0)) && (calendar_of(
                self.end.days + 1,
            ) matches Some((y, m, d)) && b@ == crate::timestamp::timestamp_text(y, m, d, 0, 0))),
            r is None <==> (calendar_of(self.begin.days as int) is None || calendar_of(
                self.end.days + 1,
            ) is None),
    {
        let after = self.end.add_days(1);
        let a = crate::timestamp::entry_time_to_full_date(self.begin, 0, 0);
        let b = crate::timestamp::entry_time_to_full_date(after, 0, 0);
        match (a, b) {
            (Some(a), Some(b)) => Some((a, b)),
            _ => None,
        }
    }
}

} // verus!
