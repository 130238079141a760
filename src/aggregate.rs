//! Per-project weekday totals and memos of a list of entries.
use vstd::prelude::*;
use crate::calendar::{weekday_slot, weekday_slot_spec};
use crate::entry::Entry;
use crate::memo::{format_memo, wrap_memo};
use crate::text::{chars_of, string_of, push_range};
use crate::timestamp::{parse_timestamp, minutes_between, canonical_moment, elapsed_minutes};

verus! {

/// Whole minutes an entry lasted, where both of its timestamps are canonical.
pub open spec fn entry_minutes(e: Entry) -> Option<int> {
    match (canonical_moment(e.start@), canonical_moment(e.stop@)) {
        (Some(a), Some(b)) => Some(elapsed_minutes(a, b)),
        _ => None,
    }
}

/// Why an entry cannot be aggregated, if it cannot.
pub open spec fn entry_fault(e: Entry) -> Option<FaultKind> {
    if entry_minutes(e) is None {
        Some(FaultKind::MalformedTimestamp)
    } else if weekday_slot_spec(e.week_day@) is None {
        Some(FaultKind::UnknownWeekday)
    } else {
        None
    }
}

/// Whether every entry can be aggregated.
pub open spec fn all_valid(s: Seq<Entry>) -> bool {
    forall|i: int| 0 <= i < s.len() ==> entry_fault(#[trigger] s[i]) is None
}

/// What an entry adds to the minutes of `code` on weekday `day`.
pub open spec fn contribution(e: Entry, code: Seq<char>, day: int) -> int {
    if e.code@ == code && weekday_slot_spec(e.week_day@) == Some(day) {
        match entry_minutes(e) {
            Some(m) => m,
            None => 0,
        }
    } else {
        0
    }
}

/// Total minutes of `code` on weekday `day` over the entries.
pub open spec fn day_total(s: Seq<Entry>, code: Seq<char>, day: int) -> int
    decreases s.len(),
{
    if s.len() == 0 {
        0
    } else {
        day_total(s.drop_last(), code, day) + contribution(s.last(), code, day)
    }
}

/// The wrapped memos of `code` on weekday `day`, one after the other in entry order.
pub open spec fn day_memos(s: Seq<Entry>, code: Seq<char>, day: int, width: nat) -> Seq<char>
    decreases s.len(),
{
    if s.len() == 0 {
        Seq::empty()
    } else {
        let e = s.last();
        day_memos(s.drop_last(), code, day, width) + if e.code@ == code && weekday_slot_spec(
            e.week_day@,
        ) == Some(day) {
            wrap_memo(e.memo@, width)
        } else {
            Seq::empty()
        }
    }
}

/// The distinct project codes of the entries, in the order of their first appearance.
pub open spec fn codes_in_order(s: Seq<Entry>) -> Seq<Seq<char>>
    decreases s.len(),
{
    if s.len() == 0 {
        Seq::empty()
    } else {
        let prev = codes_in_order(s.drop_last());
        if prev.contains(s.last().code@) {
            prev
        } else {
            prev.push(s.last().code@)
        }
    }
}

/// The kind of fault that stops an aggregation.
#[derive(Clone, Copy, Debug, PartialEq, Eq, Structural)]
pub enum FaultKind {
    MalformedTimestamp,
    UnknownWeekday,
}

/// Why entries could not be aggregated: the first entry that cannot be, by position.
#[derive(Clone, Copy, Debug, PartialEq, Eq, Structural)]
pub enum AggregateError {
    /// The entry's start or stop is not a canonical timestamp.
    MalformedTimestamp { index: usize },
    /// The entry's weekday label is none of "Sun" .. "Sat".
    UnknownWeekday { index: usize },
}

impl AggregateError {
    pub open spec fn index_spec(self) -> usize {
        match self {
            AggregateError::MalformedTimestamp { index } => index,
            AggregateError::UnknownWeekday { index } => index,
        }
    }

    pub open spec fn kind_spec(self) -> FaultKind {
        match self {
            AggregateError::MalformedTimestamp { .. } => FaultKind::MalformedTimestamp,
            AggregateError::UnknownWeekday { .. } => FaultKind::UnknownWeekday,
        }
    }
}

/// One project's row of a weekly report: its code, and for each weekday Sun .. Sat
/// (in that order) the minutes worked and the wrapped memos. Time is kept in whole
/// minutes, so hours (minutes / 60) are exact; `report::format_hours` writes them out.
#[derive(Clone, Debug, PartialEq, Eq)]
pub struct AggregatedRow {
    pub code: String,
    pub minutes: Vec<i128>,
    pub memos: Vec<String>,
}

impl AggregatedRow {
    /// One bucket per weekday, in both the minutes and the memos.
    pub open spec fn wf(&self) -> bool {
        self.minutes@.len() == 7 && self.memos@.len() == 7
    }

    /// A row for `code` with every weekday at zero minutes and an empty memo.
    pub fn new(code: String) -> (r: AggregatedRow)
        ensures
            r.wf(),
            r.code@ == code@,
            r.minutes@ == seq![0i128, 0, 0, 0, 0, 0, 0],
            r.memos@.len() == 7,
            forall|d: int| 0 <= d < 7 ==> (#[trigger] r.memos@[d])@.len() == 0,
    {
        let mut minutes: Vec<i128> = Vec::new();
        let mut memos: Vec<String> = Vec::new();
        let mut d: usize = 0;
        while d < 7
            invariant
                d <= 7,
                minutes@.len() == d,
                memos@.len() == d,
                forall|k: int| 0 <= k < d ==> minutes@[k] == 0,
                forall|k: int| 0 <= k < d ==> (#[trigger] memos@[k])@.len() == 0,
            decreases 7 - d,
        {
            minutes.push(0);
            memos.push(String::new());
            d = d + 1;
        }
        assert(minutes@ =~= seq![0i128, 0, 0, 0, 0, 0, 0]);
        AggregatedRow { code, minutes, memos }
    }
}

/// What `aggregate` owes for `code` as the row of entries `s`.
pub open spec fn row_matches(r: AggregatedRow, s: Seq<Entry>, code: Seq<char>, width: nat) -> bool {
    &&& r.code@ == code
    &&& r.wf()
    &&& forall|d: int| 0 <= d < 7 ==> #[trigger] r.minutes@[d] == day_total(s, code, d)
    &&& forall|d: int| 0 <= d < 7 ==> (#[trigger] r.memos@[d])@ == day_memos(s, code, d, width)
}

fn check_entry(e: &Entry) -> (r: Option<FaultKind>)
    ensures
        r == entry_fault(*e),
{
    let a = parse_timestamp(e.start.as_str());
    let b = parse_timestamp(e.stop.as_str());
    if a.is_none() || b.is_none() {
        return Some(FaultKind::MalformedTimestamp);
    }
    if weekday_slot(e.week_day.as_str()).is_none() {
        return Some(FaultKind::UnknownWeekday);
    }
    None
}

/// The minutes an entry lasted; entries whose timestamps are not canonical count zero.
fn entry_minutes_exec(e: &Entry) -> (r: i64)
    ensures
        r == match entry_minutes(*e) {
            Some(m) => m,
            None => 0,
        },
        -8796093022208 <= r <= 8796093022208,
{
    match (parse_timestamp(e.start.as_str()), parse_timestamp(e.stop.as_str())) {
        (Some(a), Some(b)) => minutes_between(a, b),
        _ => 0,
    }
}

/// Minutes and wrapped memos of `code` on weekday `day`.
fn bucket(entries: &Vec<Entry>, code: &String, day: usize, width: usize) -> (r: (i128, String))
    requires
        width > 0,
        day < 7,
    ensures
        r.0 == day_total(entries@, code@, day as int),
        r.1@ == day_memos(entries@, code@, day as int, width as nat),
{
    let mut total: i128 = 0;
    let mut memo: Vec<char> = Vec::new();
    let mut i: usize = 0;
    while i < entries.len()
        invariant
            width > 0,
            day < 7,
            0 <= i <= entries@.len(),
            total == day_total(entries@.take(i as int), code@, day as int),
            memo@ == day_memos(entries@.take(i as int), code@, day as int, width as nat),
            -8796093022208 * i <= total <= 8796093022208 * i,
        decreases entries@.len() - i,
    {
        let e = &entries[i];
        assert(entries@.take(i + 1).drop_last() =~= entries@.take(i as int));
        let slot = weekday_slot(e.week_day.as_str());
        if e.code == *code && slot == Some(day) {
            let m = entry_minutes_exec(e);
            total = total + m as i128;
            let text = format_memo(e.memo.clone(), width);
            let chars = chars_of(text.as_str());
            push_range(&mut memo, &chars, 0, chars.len());
            assert(chars@.subrange(0, chars@.len() as int) =~= chars@);
        }
        i = i + 1;
        assert(memo@ =~= day_memos(entries@.take(i as int), code@, day as int, width as nat));
    }
    assert(entries@.take(entries@.len() as int) =~= entries@);
    (total, string_of(&memo))
}

/// An entry alone gives its project, on its weekday, exactly the minutes from its start
/// to its stop, and nothing on any other weekday.
pub proof fn lemma_single_entry_minutes(e: Entry, day: int)
    requires
        entry_fault(e) is None,
    ensures
        weekday_slot_spec(e.week_day@) == Some(day) ==> day_total(seq![e], e.code@, day)
            == elapsed_minutes(
            canonical_moment(e.start@).unwrap(),
            canonical_moment(e.stop@).unwrap(),
        ),
        weekday_slot_spec(e.week_day@) != Some(day) ==> day_total(seq![e], e.code@, day) == 0,
{
    let s = seq![e];
    assert(s.drop_last() =~= Seq::<Entry>::empty());
    assert(s.last() == e);
    assert(day_total(s.drop_last(), e.code@, day) == 0);
    assert(day_total(s, e.code@, day) == contribution(e, e.code@, day));
}

/// Taking one entry out of a list takes its contribution out of every total.
pub proof fn lemma_day_total_remove(s: Seq<Entry>, j: int, code: Seq<char>, day: int)
    requires
        0 <= j < s.len(),
    ensures
        day_total(s, code, day) == day_total(s.remove(j), code, day) + contribution(
            s[j],
            code,
            day,
        ),
    decreases s.len(),
{
    if j == s.len() - 1 {
        assert(s.remove(j) =~= s.drop_last());
    } else {
        let t = s.drop_last();
        lemma_day_total_remove(t, j, code, day);
        assert(s.remove(j).drop_last() =~= t.remove(j));
        assert(s.remove(j).last() == s.last());
    }
}

/// Aggregation does not depend on the order of the entries: two lists holding the same
/// entries, in any order, give every project the same minutes on every weekday.
pub proof fn lemma_totals_ignore_order(a: Seq<Entry>, b: Seq<Entry>, code: Seq<char>, day: int)
    requires
        a.to_multiset() == b.to_multiset(),
    ensures
        day_total(a, code, day) == day_total(b, code, day),
    decreases a.len(),
{
    broadcast use vstd::seq_lib::group_to_multiset_ensures;

    if a.len() == 0 {
        assert(a.to_multiset().len() == 0);
        assert(b.to_multiset().len() == b.len());
        assert(b.len() == 0);
    } else {
        let x = a.last();
        let rest = a.drop_last();
        assert(a =~= rest.push(x));
        assert(a.to_multiset().count(x) > 0) by {
            assert(a.contains(x)) by {
                assert(a[a.len() - 1] == x);
            }
        }
        assert(b.contains(x));
        let j = choose|j: int| 0 <= j < b.len() && b[j] == x;
        let b2 = b.remove(j);
        assert(b2.to_multiset() =~= rest.to_multiset()) by {
            broadcast use vstd::multiset::group_multiset_axioms;

            assert(b2.to_multiset() == b.to_multiset().remove(x));
            assert(a.to_multiset() == rest.to_multiset().insert(x));
        }
        lemma_totals_ignore_order(rest, b2, code, day);
        lemma_day_total_remove(b, j, code, day);
    }
}

/// Whether two lists hold the same entries, each as often, in any order.
pub open spec fn same_entries(a: Seq<Entry>, b: Seq<Entry>) -> bool {
    a.to_multiset() == b.to_multiset()
}

/// Two lists that hold the same entries in any order are either both aggregated or both refused.
pub proof fn lemma_validity_ignores_order(a: Seq<Entry>, b: Seq<Entry>)
    requires
        same_entries(a, b),
    ensures
        all_valid(a) == all_valid(b),
{
    broadcast use vstd::seq_lib::group_to_multiset_ensures;

    if all_valid(a) && !all_valid(b) {
        let i = choose|i: int| 0 <= i < b.len() && entry_fault(#[trigger] b[i]) is Some;
        assert(b.contains(b[i]));
        assert(a.to_multiset().count(b[i]) > 0);
        assert(a.contains(b[i]));
    }
    if all_valid(b) && !all_valid(a) {
        let i = choose|i: int| 0 <= i < a.len() && entry_fault(#[trigger] a[i]) is Some;
        assert(a.contains(a[i]));
        assert(b.to_multiset().count(a[i]) > 0);
        assert(b.contains(a[i]));
    }
}

/// The distinct codes of the entries, in the order of first appearance.
pub fn distinct_codes(entries: &Vec<Entry>) -> (r: Vec<String>)
    ensures
        r@.map_values(|c: String| c@) == codes_in_order(entries@),
{
    let mut codes: Vec<String> = Vec::new();
    let mut i: usize = 0;
    while i < entries.len()
        invariant
            0 <= i <= entries@.len(),
            codes@.map_values(|c: String| c@) == codes_in_order(entries@.take(i as int)),
        decreases entries@.len() - i,
    {
        let code = &entries[i].code;
        assert(entries@.take(i + 1).drop_last() =~= entries@.take(i as int));
        let ghost seen = codes_in_order(entries@.take(i as int));
        let mut found = false;
        let mut k: usize = 0;
        assert(seen.len() == codes@.len()) by {
            assert(codes@.map_values(|c: String| c@).len() == codes@.len());
        }
        while k < codes.len()
            invariant_except_break
                !found,
            invariant
                0 <= k <= codes@.len(),
                codes@.map_values(|c: String| c@) == seen,
                seen.len() == codes@.len(),
                forall|j: int| 0 <= j < k ==> seen[j] != code@,
            ensures
                found ==> k < codes@.len() && seen[k as int] == code@,
                !found ==> k == codes@.len(),
            decreases codes@.len() - k,
        {
            if codes[k] == *code {
                found = true;
                assert(seen[k as int] == codes@[k as int]@);
                break;
            }
            assert(seen[k as int] == codes@[k as int]@);
            k = k + 1;
        }
        proof {
            if found {
                assert(seen[k as int] == code@);
                assert(seen.contains(code@));
            } else {
                assert(!seen.contains(code@));
            }
        }
        if !found {
            codes.push(code.clone());
        }
        i = i + 1;
        assert(codes@.map_values(|c: String| c@) =~= codes_in_order(entries@.take(i as int)));
    }
    assert(entries@.take(entries@.len() as int) =~= entries@);
    codes
}

/// Groups entries by project code, in the order in which the codes first appear, and sums
/// each project's minutes per weekday; the memos of each weekday are wrapped at
/// `max_memo_width` characters and joined in entry order.
/// Fails on the first entry whose timestamps are not canonical or whose weekday label is
/// none of "Sun" .. "Sat".
pub fn aggregate(entries: &Vec<Entry>, max_memo_width: usize) -> (r: Result<
    Vec<AggregatedRow>,
    AggregateError,
>)
    requires
        max_memo_width > 0,
    ensures
        r is Ok <==> all_valid(entries@),
        r matches Ok(rows) ==> (rows@.len() == codes_in_order(entries@).len() && forall|k: int|
            0 <= k < rows@.len() ==> row_matches(
                #[trigger] rows@[k],
                entries@,
                codes_in_order(entries@)[k],
                max_memo_width as nat,
            )),
        r matches Err(e) ==> (e.index_spec() < entries@.len() && entry_fault(
            entries@[e.index_spec() as int],
        ) == Some(e.kind_spec()) && forall|j: int|
            0 <= j < e.index_spec() ==> entry_fault(#[trigger] entries@[j]) is None),
{
    let mut i: usize = 0;
    while i < entries.len()
        invariant
            0 <= i <= entries@.len(),
            forall|j: int| 0 <= j < i ==> entry_fault(#[trigger] entries@[j]) is None,
        decreases entries@.len() - i,
    {
        match check_entry(&entries[i]) {
            Some(FaultKind::MalformedTimestamp) => {
                return Err(AggregateError::MalformedTimestamp { index: i });
            },
            Some(FaultKind::UnknownWeekday) => {
                return Err(AggregateError::UnknownWeekday { index: i });
            },
            None => {},
        }
        i = i + 1;
    }
    let codes = distinct_codes(entries);
    let ghost order = codes_in_order(entries@);
    assert(codes@.len() == order.len()) by {
        assert(codes@.map_values(|c: String| c@).len() == codes@.len());
    }
    let mut rows: Vec<AggregatedRow> = Vec::new();
    let mut k: usize = 0;
    while k < codes.len()
        invariant
            max_memo_width > 0,
            0 <= k <= codes@.len(),
            codes@.len() == order.len(),
            codes@.map_values(|c: String| c@) == order,
            rows@.len() == k,
            forall|j: int|
                0 <= j < k ==> row_matches(
                    #[trigger] rows@[j],
                    entries@,
                    order[j],
                    max_memo_width as nat,
                ),
        decreases codes@.len() - k,
    {
        let code = &codes[k];
        assert(code@ == order[k as int]);
        let mut row = AggregatedRow::new(code.clone());
        let mut minutes: Vec<i128> = Vec::new();
        let mut memos: Vec<String> = Vec::new();
        let mut d: usize = 0;
        while d < 7
            invariant
                max_memo_width > 0,
                d <= 7,
                minutes@.len() == d,
                memos@.len() == d,
                forall|x: int| 0 <= x < d ==> #[trigger] minutes@[x] == day_total(entries@, code@, x),
                forall|x: int|
                    0 <= x < d ==> (#[trigger] memos@[x])@ == day_memos(
                        entries@,
                        code@,
                        x,
                        max_memo_width as nat,
                    ),
            decreases 7 - d,
        {
            let (t, m) = bucket(entries, code, d, max_memo_width);
            minutes.push(t);
            memos.push(m);
            d = d + 1;
        }
        row.minutes = minutes;
        row.memos = memos;
        rows.push(row);
        k = k + 1;
    }
    Ok(rows)
}

} // verus!
