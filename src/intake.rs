//! Building new entries from command-line style input.
use vstd::prelude::*;
use crate::calendar::{Date, calendar_of, day_number_of, weekday_label, weekday_label_spec, weekday_of};
use crate::entry::NewEntry;
use crate::text::{chars_of, same_chars};
use crate::timestamp::{read_u32, entry_time_to_full_date, parse_entry_time, timestamp_text, u32_value};

verus! {

/// Why an entry could not be built.
#[derive(Clone, Copy, Debug, PartialEq, Eq, Structural)]
pub enum EntryError {
    /// A start or stop time is not a number.
    InvalidTime,
    /// The day is outside the calendar range chrono represents.
    DateOutOfRange,
    /// The day is neither "today", "yesterday", "tomorrow" nor a valid `YYYY-MM-DD` date.
    InvalidDate,
}

/// Timestamp text of compact clock input `t` on day `days`, if both can be read.
pub open spec fn clock_timestamp(days: int, t: Seq<char>) -> Option<Seq<char>> {
    match (u32_value(t), calendar_of(days)) {
        (Some(v), Some((y, m, d))) => Some(timestamp_text(y, m, d, (v / 100) as int, (v % 100) as int)),
        _ => None,
    }
}

/// A new entry on `date` from its start and stop as compact clock input ("0930"),
/// its project code and its memo; the weekday label is that of `date`.
/// Fails when a time is not a number, or the day cannot be written as a calendar date.
pub fn process_new_entry(values: &Vec<String>, date: Date) -> (r: Result<NewEntry, EntryError>)
    requires
        values@.len() >= 4,
    ensures
        r matches Ok(e) ==> (clock_timestamp(date.days as int, values@[0]@) == Some(e.start@)
            && clock_timestamp(date.days as int, values@[1]@) == Some(e.stop@)
            && e.week_day@ == weekday_label_spec(weekday_of(date.days as int))
            && e.code@ == values@[2]@ && e.memo@ == values@[3]@),
        r is Ok <==> (clock_timestamp(date.days as int, values@[0]@) is Some && clock_timestamp(
            date.days as int,
            values@[1]@,
        ) is Some),
        r == Err::<NewEntry, EntryError>(EntryError::InvalidTime) <==> (u32_value(values@[0]@) is None
            || u32_value(values@[1]@) is None),
{
    let (start_hour, start_minute) = match parse_entry_time(values[0].clone()) {
        Ok(p) => p,
        Err(_) => return Err(EntryError::InvalidTime),
    };
    let (stop_hour, stop_minute) = match parse_entry_time(values[1].clone()) {
        Ok(p) => p,
        Err(_) => return Err(EntryError::InvalidTime),
    };
    let start = match entry_time_to_full_date(date, start_hour, start_minute) {
        Some(s) => s,
        None => return Err(EntryError::DateOutOfRange),
    };
    let stop = match entry_time_to_full_date(date, stop_hour, stop_minute) {
        Some(s) => s,
        None => return Err(EntryError::DateOutOfRange),
    };
    let week_day = weekday_label(date.weekday() as usize);
    Ok(NewEntry { start, stop, week_day, code: values[2].clone(), memo: values[3].clone() })
}

/// The pieces of `s` between occurrences of `sep` (one more piece than separators).
pub open spec fn split_spec(s: Seq<char>, sep: char) -> Seq<Seq<char>>
    decreases s.len(),
{
    if s.len() == 0 {
        seq![Seq::empty()]
    } else {
        let prev = split_spec(s.drop_last(), sep);
        if s.last() == sep {
            prev.push(Seq::empty())
        } else {
            prev.update(prev.len() - 1, prev.last().push(s.last()))
        }
    }
}

proof fn lemma_split_nonempty(s: Seq<char>, sep: char)
    ensures
        split_spec(s, sep).len() >= 1,
    decreases s.len(),
{
    if s.len() > 0 {
        lemma_split_nonempty(s.drop_last(), sep);
    }
}

/// Splits `s` at every `sep`.
pub fn split_on(s: &Vec<char>, sep: char) -> (r: Vec<Vec<char>>)
    ensures
        r@.map_values(|p: Vec<char>| p@) == split_spec(s@, sep),
{
    let mut pieces: Vec<Vec<char>> = Vec::new();
    let mut cur: Vec<char> = Vec::new();
    let mut i: usize = 0;
    assert(s@.take(0) =~= Seq::<char>::empty());
    assert(pieces@.map_values(|p: Vec<char>| p@).push(cur@) =~= split_spec(s@.take(0), sep));
    while i < s.len()
        invariant
            i <= s@.len(),
            pieces@.map_values(|p: Vec<char>| p@).push(cur@) == split_spec(s@.take(i as int), sep),
        decreases s@.len() - i,
    {
        let c = s[i];
        let ghost before = pieces@.map_values(|p: Vec<char>| p@).push(cur@);
        assert(s@.take(i + 1).drop_last() =~= s@.take(i as int));
        assert(s@.take(i + 1).last() == c);
        if c == sep {
            let done = cur;
            pieces.push(done);
            cur = Vec::new();
            assert(pieces@.map_values(|p: Vec<char>| p@).push(cur@) =~= before.push(Seq::empty()));
        } else {
            cur.push(c);
            assert(pieces@.map_values(|p: Vec<char>| p@).push(cur@) =~= before.update(
                before.len() - 1,
                before.last().push(c),
            ));
        }
        i = i + 1;
    }
    assert(s@.take(s@.len() as int) =~= s@);
    pieces.push(cur);
    pieces
}

/// The day that a date argument names: "today", "yesterday", "tomorrow", or
/// `YEAR-MONTH-DAY` in decimal (text after a third '-' is ignored).
pub open spec fn date_arg(s: Seq<char>, today: int) -> Option<int> {
    if s == seq!['t', 'o', 'd', 'a', 'y'] {
        Some(today)
    } else if s == seq!['y', 'e', 's', 't', 'e', 'r', 'd', 'a', 'y'] {
        Some(today - 1)
    } else if s == seq!['t', 'o', 'm', 'o', 'r', 'r', 'o', 'w'] {
        Some(today + 1)
    } else {
        let p = split_spec(s, '-');
        if p.len() >= 3 && u32_value(p[0]) is Some && u32_value(p[0]).unwrap() <= i32::MAX
            && u32_value(p[1]) is Some && u32_value(p[2]) is Some {
            day_number_of(
                u32_value(p[0]).unwrap() as int,
                u32_value(p[1]).unwrap() as int,
                u32_value(p[2]).unwrap() as int,
            )
        } else {
            None
        }
    }
}

/// The day a date argument names, relative to `today` where it is a word.
pub fn resolve_date_arg(arg: &String, today: Date) -> (r: Option<Date>)
    requires
        i32::MIN < today.days < i32::MAX,
    ensures
        r matches Some(d) ==> date_arg(arg@, today.days as int) == Some(d.days as int),
        r is None <==> date_arg(arg@, today.days as int) is None,
{
    let chars = chars_of(arg.as_str());
    if same_chars(&chars, &vec!['t', 'o', 'd', 'a', 'y']) {
        return Some(today);
    }
    if same_chars(&chars, &vec!['y', 'e', 's', 't', 'e', 'r', 'd', 'a', 'y']) {
        return Some(today.add_days(-1));
    }
    if same_chars(&chars, &vec!['t', 'o', 'm', 'o', 'r', 'r', 'o', 'w']) {
        return Some(today.add_days(1));
    }
    let pieces = split_on(&chars, '-');
    proof {
        assert(pieces@.map_values(|p: Vec<char>| p@).len() == pieces@.len());
    }
    if pieces.len() < 3 {
        return None;
    }
    assert(pieces@[0]@ == split_spec(chars@, '-')[0]);
    assert(pieces@[1]@ == split_spec(chars@, '-')[1]);
    assert(pieces@[2]@ == split_spec(chars@, '-')[2]);
    let year = match read_u32(&pieces[0]) {
        Some(y) => y,
        None => return None,
    };
    if year > 2147483647 {
        return None;
    }
    let month = match read_u32(&pieces[1]) {
        Some(m) => m,
        None => return None,
    };
    let day = match read_u32(&pieces[2]) {
        Some(d) => d,
        None => return None,
    };
    Date::from_ymd(year as i32, month, day)
}

/// A new entry on the day that `values[0]` names (see `date_arg`), from its start and stop
/// as compact clock input, its project code and its memo.
/// Fails when the day cannot be read, a time is not a number, or the day cannot be written
/// as a calendar date.
pub fn backdated_entry(values: &Vec<String>, today: Date) -> (r: Result<NewEntry, EntryError>)
    requires
        values@.len() >= 5,
        i32::MIN < today.days < i32::MAX,
    ensures
        date_arg(values@[0]@, today.days as int) is None ==> r == Err::<NewEntry, EntryError>(
            EntryError::InvalidDate,
        ),
        date_arg(values@[0]@, today.days as int) matches Some(day) ==> (
            (r matches Ok(e) ==> (clock_timestamp(day, values@[1]@) == Some(e.start@)
            && clock_timestamp(day, values@[2]@) == Some(e.stop@)
            && e.week_day@ == weekday_label_spec(weekday_of(day))
            && e.code@ == values@[3]@ && e.memo@ == values@[4]@))
            && (r is Ok <==> (clock_timestamp(day, values@[1]@) is Some && clock_timestamp(
                day,
                values@[2]@,
            ) is Some))
            && (r == Err::<NewEntry, EntryError>(EntryError::InvalidTime) <==> (u32_value(values@[1]@) is None
            || u32_value(values@[2]@) is None))),
{
    let date = match resolve_date_arg(&values[0], today) {
        Some(d) => d,
        None => return Err(EntryError::InvalidDate),
    };
    let mut rest: Vec<String> = Vec::new();
    rest.push(values[1].clone());
    rest.push(values[2].clone());
    rest.push(values[3].clone());
    rest.push(values[4].clone());
    process_new_entry(&rest, date)
}

} // verus!
