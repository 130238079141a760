//! The weekly report table: a header, then for each project an hour row and,
//! on request, a memo row.
use vstd::prelude::*;
use crate::aggregate::{AggregatedRow, AggregateError, aggregate, all_valid, codes_in_order, row_matches};
use crate::entry::Entry;
use crate::memo::{format_memo, wrap_memo};
use crate::calendar::{weekday_label, weekday_label_spec};
use crate::text::{digit_char, digits_of, two_digit_text, push_digits, push_two_digits, string_of};

verus! {

/// Hours of a number of minutes as decimal text, rounded to hundredths, with trailing zeros
/// after the first fractional digit left out: 150 minutes is "2.5", 120 is "2.0",
/// 20 is "0.33", -90 is "-1.5".
pub open spec fn hours_text(minutes: int) -> Seq<char> {
    let mag: nat = if minutes < 0 {
        (-minutes) as nat
    } else {
        minutes as nat
    };
    let hundredths: nat = ((mag % 60) * 100 + 30) / 60;
    let whole: nat = if hundredths == 100 {
        mag / 60 + 1
    } else {
        mag / 60
    };
    let frac: nat = if hundredths == 100 {
        0
    } else {
        hundredths
    };
    let sign = if minutes < 0 {
        seq!['-']
    } else {
        Seq::empty()
    };
    let frac_text = if frac % 10 == 0 {
        seq![digit_char(frac / 10)]
    } else {
        two_digit_text(frac)
    };
    sign + digits_of(whole) + seq!['.'] + frac_text
}

/// Decimal hours of a number of minutes (see `hours_text`).
pub fn format_hours(minutes: i128) -> (r: String)
    ensures
        r@ == hours_text(minutes as int),
{
    let mut out: Vec<char> = Vec::new();
    let mag: u128 = if minutes < 0 {
        (0 - (minutes + 1)) as u128 + 1
    } else {
        minutes as u128
    };
    if minutes < 0 {
        out.push('-');
    }
    let hundredths: u128 = ((mag % 60) * 100 + 30) / 60;
    let whole: u128 = if hundredths == 100 {
        mag / 60 + 1
    } else {
        mag / 60
    };
    let frac: u128 = if hundredths == 100 {
        0
    } else {
        hundredths
    };
    push_digits(&mut out, whole);
    out.push('.');
    if frac % 10 == 0 {
        push_digits(&mut out, frac / 10);
        assert(digits_of((frac / 10) as nat) =~= seq![digit_char((frac / 10) as nat)]);
    } else {
        push_two_digits(&mut out, frac as u32);
    }
    assert(out@ =~= hours_text(minutes as int));
    string_of(&out)
}

/// The kind of a report row.
#[derive(Clone, Copy, Debug, PartialEq, Eq, Structural)]
pub enum RowKind {
    /// Column titles.
    Header,
    /// A project's code and its hours per weekday.
    Hours,
    /// A project's memos per weekday.
    Memos,
    /// The fields of a single entry.
    Record,
}

/// One row of the report: its kind, whether it carries the alternate emphasis, and its cells.
#[derive(Clone, Debug, PartialEq, Eq)]
pub struct ReportRow {
    pub kind: RowKind,
    pub highlighted: bool,
    pub cells: Vec<String>,
}

/// The text of every cell, in order.
pub open spec fn cells_view(cells: Seq<String>) -> Seq<Seq<char>> {
    cells.map_values(|c: String| c@)
}

/// A report row as values: kind, emphasis and cell texts.
pub open spec fn row_view(r: ReportRow) -> (RowKind, bool, Seq<Seq<char>>) {
    (r.kind, r.highlighted, cells_view(r.cells@))
}

/// The cells of the header: "Project", then the weekday labels "Sun" .. "Sat".
pub open spec fn header_cells() -> Seq<Seq<char>> {
    seq![seq!['P', 'r', 'o', 'j', 'e', 'c', 't']] + Seq::new(7, |i: int| weekday_label_spec(i))
}

/// Whether a project worked a positive number of minutes on some weekday.
pub open spec fn has_hours(r: AggregatedRow) -> bool {
    exists|d: int| 0 <= d < r.minutes@.len() && #[trigger] r.minutes@[d] > 0
}

/// Whether a project has a memo on some weekday.
pub open spec fn has_memos(r: AggregatedRow) -> bool {
    exists|d: int| 0 <= d < r.memos@.len() && (#[trigger] r.memos@[d])@.len() > 0
}

/// The cells of a project's hour row: its code, then the hours of each weekday.
pub open spec fn hour_cells(r: AggregatedRow) -> Seq<Seq<char>> {
    seq![r.code@] + r.minutes@.map_values(|m: i128| hours_text(m as int))
}

/// The cells of a project's memo row: a blank, then the memos of each weekday.
pub open spec fn memo_cells(r: AggregatedRow) -> Seq<Seq<char>> {
    seq![seq![' ']] + cells_view(r.memos@)
}

/// How many of the projects have an hour row.
pub open spec fn shown_count(rows: Seq<AggregatedRow>) -> nat
    decreases rows.len(),
{
    if rows.len() == 0 {
        0
    } else {
        shown_count(rows.drop_last()) + if has_hours(rows.last()) {
            1nat
        } else {
            0nat
        }
    }
}

/// The rows one project contributes, with emphasis `hl`: its hour row unless every total is
/// zero or less, then its memo row where memos are asked for and one exists.
pub open spec fn project_rows(r: AggregatedRow, with_memos: bool, hl: bool) -> Seq<
    (RowKind, bool, Seq<Seq<char>>),
> {
    (if has_hours(r) {
        seq![(RowKind::Hours, hl, hour_cells(r))]
    } else {
        Seq::empty()
    }) + (if with_memos && has_memos(r) {
        seq![(RowKind::Memos, hl, memo_cells(r))]
    } else {
        Seq::empty()
    })
}

/// The rows below the header; a project's rows are emphasised when an odd number of hour
/// rows stand above them, so that hour rows alternate.
pub open spec fn body_rows(rows: Seq<AggregatedRow>, with_memos: bool) -> Seq<
    (RowKind, bool, Seq<Seq<char>>),
>
    decreases rows.len(),
{
    if rows.len() == 0 {
        Seq::empty()
    } else {
        let prefix = rows.drop_last();
        body_rows(prefix, with_memos) + project_rows(
            rows.last(),
            with_memos,
            shown_count(prefix) % 2 == 1,
        )
    }
}

/// A project none of whose weekday totals is positive has no hour row.
pub proof fn lemma_idle_project_hidden(r: AggregatedRow, with_memos: bool, hl: bool)
    requires
        forall|d: int| 0 <= d < r.minutes@.len() ==> #[trigger] r.minutes@[d] <= 0,
    ensures
        forall|i: int|
            0 <= i < project_rows(r, with_memos, hl).len() ==> (#[trigger] project_rows(
                r,
                with_memos,
                hl,
            )[i]).0 != RowKind::Hours,
{
    assert(!has_hours(r));
}

fn header_row() -> (r: ReportRow)
    ensures
        row_view(r) == (RowKind::Header, false, header_cells()),
{
    let mut cells: Vec<String> = Vec::new();
    let p = vec!['P', 'r', 'o', 'j', 'e', 'c', 't'];
    cells.push(string_of(&p));
    let mut d: usize = 0;
    assert(cells_view(cells@) =~= seq![seq!['P', 'r', 'o', 'j', 'e', 'c', 't']] + Seq::new(
        0,
        |i: int| weekday_label_spec(i),
    ));
    while d < 7
        invariant
            d <= 7,
            cells_view(cells@) == seq![seq!['P', 'r', 'o', 'j', 'e', 'c', 't']] + Seq::new(
                d as nat,
                |i: int| weekday_label_spec(i),
            ),
        decreases 7 - d,
    {
        let label = weekday_label(d);
        let ghost prev = cells@;
        cells.push(label);
        assert(cells_view(cells@) =~= cells_view(prev).push(label@));
        d = d + 1;
        assert(cells_view(cells@) =~= seq![seq!['P', 'r', 'o', 'j', 'e', 'c', 't']] + Seq::new(
            d as nat,
            |i: int| weekday_label_spec(i),
        ));
    }
    ReportRow { kind: RowKind::Header, highlighted: false, cells }
}

fn hour_row(r: &AggregatedRow, hl: bool) -> (out: ReportRow)
    ensures
        row_view(out) == (RowKind::Hours, hl, hour_cells(*r)),
{
    let mut cells: Vec<String> = Vec::new();
    cells.push(r.code.clone());
    let mut d: usize = 0;
    assert(cells_view(cells@) =~= seq![r.code@] + r.minutes@.take(0).map_values(
        |m: i128| hours_text(m as int),
    ));
    while d < r.minutes.len()
        invariant
            d <= r.minutes@.len(),
            cells_view(cells@) == seq![r.code@] + r.minutes@.take(d as int).map_values(
                |m: i128| hours_text(m as int),
            ),
        decreases r.minutes@.len() - d,
    {
        let text = format_hours(r.minutes[d]);
        let ghost prev = cells@;
        cells.push(text);
        assert(cells_view(cells@) =~= cells_view(prev).push(text@));
        d = d + 1;
        assert(cells_view(cells@) =~= seq![r.code@] + r.minutes@.take(d as int).map_values(
            |m: i128| hours_text(m as int),
        ));
    }
    assert(r.minutes@.take(r.minutes@.len() as int) =~= r.minutes@);
    ReportRow { kind: RowKind::Hours, highlighted: hl, cells }
}

fn memo_row(r: &AggregatedRow, hl: bool) -> (out: ReportRow)
    ensures
        row_view(out) == (RowKind::Memos, hl, memo_cells(*r)),
{
    let mut cells: Vec<String> = Vec::new();
    let blank = vec![' '];
    cells.push(string_of(&blank));
    let mut d: usize = 0;
    assert(blank@ =~= seq![' ']);
    assert(cells_view(r.memos@.take(0)) =~= Seq::<Seq<char>>::empty());
    assert(cells_view(cells@) =~= seq![seq![' ']] + cells_view(r.memos@.take(0)));
    while d < r.memos.len()
        invariant
            d <= r.memos@.len(),
            cells_view(cells@) == seq![seq![' ']] + cells_view(r.memos@.take(d as int)),
        decreases r.memos@.len() - d,
    {
        let text = r.memos[d].clone();
        let ghost prev = cells@;
        cells.push(text);
        assert(cells_view(cells@) =~= cells_view(prev).push(text@));
        d = d + 1;
        assert(cells_view(cells@) =~= seq![seq![' ']] + cells_view(r.memos@.take(d as int)));
    }
    assert(r.memos@.take(r.memos@.len() as int) =~= r.memos@);
    ReportRow { kind: RowKind::Memos, highlighted: hl, cells }
}

fn any_positive(v: &Vec<i128>) -> (r: bool)
    ensures
        r == exists|d: int| 0 <= d < v@.len() && #[trigger] v@[d] > 0,
{
    let mut d: usize = 0;
    while d < v.len()
        invariant
            d <= v@.len(),
            forall|k: int| 0 <= k < d ==> v@[k] <= 0,
        decreases v@.len() - d,
    {
        if v[d] > 0 {
            return true;
        }
        d = d + 1;
    }
    false
}

fn any_nonempty(v: &Vec<String>) -> (r: bool)
    ensures
        r == exists|d: int| 0 <= d < v@.len() && (#[trigger] v@[d])@.len() > 0,
{
    let mut d: usize = 0;
    while d < v.len()
        invariant
            d <= v@.len(),
            forall|k: int| 0 <= k < d ==> v@[k]@.len() == 0,
        decreases v@.len() - d,
    {
        if !v[d].as_str().is_empty() {
            return true;
        }
        d = d + 1;
    }
    false
}

/// Renders aggregated rows as a table: the header ("Project", "Sun" .. "Sat"), then for
/// each project in order its hour row, left out when no weekday total is positive, and,
/// when `with_memos` is set and some weekday has a memo, its memo row. Hour rows
/// alternate their emphasis; a memo row takes the emphasis of its project.
pub fn render(rows: &Vec<AggregatedRow>, with_memos: bool) -> (r: Vec<ReportRow>)
    ensures
        r@.map_values(|x: ReportRow| row_view(x)) == seq![
            (RowKind::Header, false, header_cells()),
        ] + body_rows(rows@, with_memos),
{
    let mut out: Vec<ReportRow> = Vec::new();
    out.push(header_row());
    let mut shown: usize = 0;
    let mut k: usize = 0;
    while k < rows.len()
        invariant
            k <= rows@.len(),
            shown == shown_count(rows@.take(k as int)),
            shown <= k,
            out@.map_values(|x: ReportRow| row_view(x)) =~= seq![
                (RowKind::Header, false, header_cells()),
            ] + body_rows(rows@.take(k as int), with_memos),
        decreases rows@.len() - k,
    {
        let r = &rows[k];
        let hl = shown % 2 == 1;
        assert(rows@.take(k + 1).drop_last() =~= rows@.take(k as int));
        assert(rows@.take(k + 1).last() == *r);
        let ghost before = out@.map_values(|x: ReportRow| row_view(x));
        if any_positive(&r.minutes) {
            out.push(hour_row(r, hl));
            shown = shown + 1;
        }
        if with_memos && any_nonempty(&r.memos) {
            out.push(memo_row(r, hl));
        }
        k = k + 1;
        assert(out@.map_values(|x: ReportRow| row_view(x)) =~= before + project_rows(
            *r,
            with_memos,
            hl,
        ));
    }
    assert(rows@.take(rows@.len() as int) =~= rows@);
    out
}

/// Width, in characters, at which report memos are wrapped.
pub const MAX_WIDTH: usize = 20;

/// The weekly report of a week's entries: `aggregate` with memos wrapped at `MAX_WIDTH`,
/// then `render`.
pub fn weekly_report(entries: &Vec<Entry>, with_memos: bool) -> (r: Result<
    Vec<ReportRow>,
    AggregateError,
>)
    ensures
        r is Ok <==> all_valid(entries@),
        r matches Ok(table) ==> exists|rows: Seq<AggregatedRow>|
            rows.len() == codes_in_order(entries@).len() && (forall|k: int|
                0 <= k < rows.len() ==> row_matches(
                    #[trigger] rows[k],
                    entries@,
                    codes_in_order(entries@)[k],
                    MAX_WIDTH as nat,
                )) && table@.map_values(|x: ReportRow| row_view(x)) == seq![
                (RowKind::Header, false, header_cells()),
            ] + body_rows(rows, with_memos),
{
    match aggregate(entries, MAX_WIDTH) {
        Ok(rows) => Ok(render(&rows, with_memos)),
        Err(e) => Err(e),
    }
}

/// The cells of the header of a single-entry table.
pub open spec fn entry_header_cells() -> Seq<Seq<char>> {
    seq!["Start Time"@, "Stop Time"@, "Week Day"@, "Code"@, "Memo"@]
}

/// A table of one entry: a header, then the entry's start, stop, weekday label, code,
/// and its memo wrapped at `MAX_WIDTH`.
pub fn entry_table(e: &Entry) -> (r: Vec<ReportRow>)
    ensures
        r@.map_values(|x: ReportRow| row_view(x)) == seq![
            (RowKind::Header, false, entry_header_cells()),
            (
                RowKind::Record,
                false,
                seq![e.start@, e.stop@, e.week_day@, e.code@, wrap_memo(e.memo@, MAX_WIDTH as nat)],
            ),
        ],
{
    let mut head: Vec<String> = Vec::new();
    head.push(String::from_str("Start Time"));
    head.push(String::from_str("Stop Time"));
    head.push(String::from_str("Week Day"));
    head.push(String::from_str("Code"));
    head.push(String::from_str("Memo"));
    let mut cells: Vec<String> = Vec::new();
    cells.push(e.start.clone());
    cells.push(e.stop.clone());
    cells.push(e.week_day.clone());
    cells.push(e.code.clone());
    cells.push(format_memo(e.memo.clone(), MAX_WIDTH));
    let mut out: Vec<ReportRow> = Vec::new();
    let h = ReportRow { kind: RowKind::Header, highlighted: false, cells: head };
    let b = ReportRow { kind: RowKind::Record, highlighted: false, cells };
    assert(cells_view(h.cells@) =~= entry_header_cells());
    assert(cells_view(b.cells@) =~= seq![
        e.start@,
        e.stop@,
        e.week_day@,
        e.code@,
        wrap_memo(e.memo@, MAX_WIDTH as nat),
    ]);
    out.push(h);
    out.push(b);
    assert(out@.map_values(|x: ReportRow| row_view(x)) =~= seq![
        (RowKind::Header, false, entry_header_cells()),
        (
            RowKind::Record,
            false,
            seq![e.start@, e.stop@, e.week_day@, e.code@, wrap_memo(e.memo@, MAX_WIDTH as nat)],
        ),
    ]);
    out
}

} // verus!
