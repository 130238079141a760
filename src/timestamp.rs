//! Canonical timestamps ("YYYY-MM-DD HH:MM:SS"), compact clock input ("0930")
//! and elapsed minutes.
use vstd::prelude::*;
use crate::calendar::{Date, calendar_of, date_text, push_date, ymd_from_days};
use crate::text::{chars_of, string_of, two_digit_text, push_two_digits};

verus! {

/// The chrono pattern of the canonical timestamp format.
pub open spec fn canonical_pattern() -> Seq<char> {
    "%Y-%m-%d %H:%M:%S"@
}

/// Canonical timestamp text of a date and a clock time, seconds always `00`.
pub open spec fn timestamp_text(y: int, m: int, d: int, hour: int, minute: int) -> Seq<char> {
    date_text(y, m, d) + seq![' '] + two_digit_text(hour as nat) + seq![':'] + two_digit_text(
        minute as nat,
    ) + seq![':', '0', '0']
}

/// A moment read from a timestamp: its day (counted from the common era, as `Date`)
/// and the seconds after that day's midnight.
#[derive(Clone, Copy, Debug, PartialEq, Eq, Structural)]
pub struct Timestamp {
    pub days: i32,
    pub secs: u32,
}

/// Day number and seconds after midnight of the date and time that `s` holds in `pattern`,
/// or `None` where the text does not match.
pub uninterp spec fn timestamp_of(s: Seq<char>, pattern: Seq<char>) -> Option<(int, int)>;

/// Relies on chrono's `NaiveDateTime::parse_from_str`, read back with
/// `Datelike::num_days_from_ce` and `Timelike::num_seconds_from_midnight`.
#[verifier::external_body]
fn parse_with(s: &str, pattern: &str) -> (r: Option<Timestamp>)
    ensures
        r matches Some(t) ==> timestamp_of(s@, pattern@) == Some((t.days as int, t.secs as int)),
        r is None <==> timestamp_of(s@, pattern@) is None,
{
    match chrono::NaiveDateTime::parse_from_str(s, pattern) {
        Ok(v) => Some(
            Timestamp {
                days: chrono::Datelike::num_days_from_ce(&v),
                secs: chrono::Timelike::num_seconds_from_midnight(&v),
            },
        ),
        Err(_) => None,
    }
}

/// The moment a canonical timestamp holds, as a (day number, seconds) pair.
pub open spec fn canonical_moment(s: Seq<char>) -> Option<(int, int)> {
    timestamp_of(s, canonical_pattern())
}

/// Reads a canonical timestamp ("YYYY-MM-DD HH:MM:SS").
pub fn parse_timestamp(s: &str) -> (r: Option<Timestamp>)
    ensures
        r matches Some(t) ==> canonical_moment(s@) == Some((t.days as int, t.secs as int)),
        r is None <==> canonical_moment(s@) is None,
{
    parse_with(s, "%Y-%m-%d %H:%M:%S")
}

/// Whole minutes from `a` to `b`, truncated toward zero (negative when `b` is earlier).
pub open spec fn elapsed_minutes(a: (int, int), b: (int, int)) -> int {
    let secs = (b.0 - a.0) * 86400 + (b.1 - a.1);
    if secs >= 0 {
        secs / 60
    } else {
        -((-secs) / 60)
    }
}

/// Whole minutes from `start` to `stop`, truncated toward zero.
pub fn minutes_between(start: Timestamp, stop: Timestamp) -> (r: i64)
    ensures
        r == elapsed_minutes(
            (start.days as int, start.secs as int),
            (stop.days as int, stop.secs as int),
        ),
{
    let secs: i64 = (stop.days as i64 - start.days as i64) * 86400 + (stop.secs as i64
        - start.secs as i64);
    if secs >= 0 {
        secs / 60
    } else {
        0 - (0 - secs) / 60
    }
}

/// Whether every character is an ASCII decimal digit.
pub open spec fn all_digits(s: Seq<char>) -> bool {
    forall|i: int| 0 <= i < s.len() ==> '0' <= #[trigger] s[i] <= '9'
}

/// Value of a string of decimal digits.
pub open spec fn digits_value(s: Seq<char>) -> nat
    decreases s.len(),
{
    if s.len() == 0 {
        0
    } else {
        digits_value(s.drop_last()) * 10 + ((s.last() as u32) - 48) as nat
    }
}

/// The digits of an unsigned number's text: an optional leading '+' is dropped.
pub open spec fn unsigned_body(s: Seq<char>) -> Seq<char> {
    if s.len() > 0 && s[0] == '+' {
        s.skip(1)
    } else {
        s
    }
}

/// The value of `s` read as a `u32` the way `str::parse::<u32>` reads it, if it is one.
pub open spec fn u32_value(s: Seq<char>) -> Option<nat> {
    let b = unsigned_body(s);
    if b.len() > 0 && all_digits(b) && digits_value(b) <= u32::MAX {
        Some(digits_value(b))
    } else {
        None
    }
}

/// Why compact clock input was refused.
#[derive(Clone, Copy, Debug, PartialEq, Eq, Structural)]
pub enum TimeError {
    /// The text is not an unsigned 32-bit decimal number.
    NotANumber,
}

/// Reads `chars` as a `u32` the way `str::parse::<u32>` reads text: an optional '+',
/// then one or more decimal digits whose value fits.
pub fn read_u32(chars: &Vec<char>) -> (r: Option<u32>)
    ensures
        r matches Some(v) ==> u32_value(chars@) == Some(v as nat),
        r is None <==> u32_value(chars@) is None,
{
    let n = chars.len();
    let mut i: usize = 0;
    if n > 0 && chars[0] == '+' {
        i = 1;
    }
    let ghost body = unsigned_body(chars@);
    let ghost start = i as int;
    assert(body =~= chars@.skip(start));
    if i == n {
        return None;
    }
    let mut value: u64 = 0;
    while i < n
        invariant
            n == chars@.len(),
            0 <= start <= 1,
            start <= i <= n,
            body == chars@.skip(start),
            body == unsigned_body(chars@),
            all_digits(chars@.subrange(start, i as int)),
            value == digits_value(chars@.subrange(start, i as int)),
            value <= u32::MAX,
        decreases n - i,
    {
        let c = chars[i];
        if c < '0' || c > '9' {
            assert(!all_digits(body)) by {
                assert(body[i - start] == c);
            }
            return None;
        }
        let ghost prev = chars@.subrange(start, i as int);
        let next: u64 = value * 10 + ((c as u32) - 48) as u64;
        assert(chars@.subrange(start, i + 1).drop_last() =~= prev);
        if next > 4294967295 {
            proof {
                if all_digits(body) {
                    lemma_prefix_value_bound(body, (i + 1 - start) as int);
                    assert(body.take((i + 1 - start) as int) =~= chars@.subrange(start, i + 1));
                }
            }
            return None;
        }
        value = next;
        i = i + 1;
    }
    assert(chars@.subrange(start, n as int) =~= body);
    Some(value as u32)
}

/// Reads compact clock input such as "0930" as (hours, minutes): the number's
/// hundreds are the hours and its last two digits the minutes.
pub fn parse_entry_time(time_str: String) -> (r: Result<(u32, u32), TimeError>)
    ensures
        r matches Ok((h, m)) ==> (u32_value(time_str@) matches Some(v) && h == v / 100 && m == v
            % 100),
        r is Err ==> r == Err::<(u32, u32), TimeError>(TimeError::NotANumber),
        r is Ok <==> u32_value(time_str@) is Some,
{
    let chars = chars_of(time_str.as_str());
    match read_u32(&chars) {
        Some(v) => Ok((v / 100, v % 100)),
        None => Err(TimeError::NotANumber),
    }
}

/// A number's digits are worth at least the value of any leading part of them.
proof fn lemma_prefix_value_bound(s: Seq<char>, k: int)
    requires
        0 <= k <= s.len(),
        all_digits(s),
    ensures
        digits_value(s) >= digits_value(s.take(k)),
    decreases s.len(),
{
    if k < s.len() {
        assert(s.drop_last().take(k) =~= s.take(k));
        lemma_prefix_value_bound(s.drop_last(), k);
        assert(all_digits(s.drop_last())) by {
            assert forall|i: int| 0 <= i < s.drop_last().len() implies '0' <= #[trigger] s.drop_last()[i] <= '9' by {
                assert(s.drop_last()[i] == s[i]);
            }
        }
    } else {
        assert(s.take(k) =~= s);
    }
}

/// The canonical timestamp of a clock time on `date`, seconds `00`; `None` where
/// chrono cannot represent the day.
pub fn entry_time_to_full_date(date: Date, hour: u32, minute: u32) -> (r: Option<String>)
    ensures
        r matches Some(s) ==> (calendar_of(date.days as int) matches Some((y, m, d)) && s@
            == timestamp_text(y, m, d, hour as int, minute as int)),
        r is None <==> calendar_of(date.days as int) is None,
{
    match ymd_from_days(date.days) {
        None => None,
        Some((y, m, d)) => {
            let mut out: Vec<char> = Vec::new();
            push_date(&mut out, y, m, d);
            out.push(' ');
            push_two_digits(&mut out, hour);
            out.push(':');
            push_two_digits(&mut out, minute);
            out.push(':');
            out.push('0');
            out.push('0');
            assert(out@ =~= timestamp_text(y as int, m as int, d as int, hour as int, minute as int));
            Some(string_of(&out))
        },
    }
}

} // verus!
