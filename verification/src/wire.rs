//! The wire form of a row: six text cells and the range they are sent to.

use crate::calendar::{day_label, Timestamp};
use crate::decimal::{decimal, render};
use crate::row::{Row, RowView};
use vstd::prelude::*;

verus! {

/// A block of cells addressed to a range, as the store's API takes it.
#[derive(Clone, Debug, PartialEq, Eq)]
pub struct WireRow {
    /// Which way the block is laid out; always `ROWS`.
    pub major_dimension: String,
    /// The range the block is sent to.
    pub range: String,
    /// The block: one row of six cells.
    pub values: Vec<Vec<String>>,
}

/// A wire row as mathematical values.
pub struct WireRowView {
    pub major_dimension: Seq<char>,
    pub range: Seq<char>,
    pub values: Seq<Seq<Seq<char>>>,
}

impl View for WireRow {
    type V = WireRowView;

    open spec fn view(&self) -> WireRowView {
        WireRowView {
            major_dimension: self.major_dimension@,
            range: self.range@,
            values: self.values.deep_view(),
        }
    }
}

/// The six cells of a row, in column order. Numbers are written in plain decimal.
pub open spec fn cells(row: RowView) -> Seq<Seq<char>> {
    seq![
        decimal(row.serial_number),
        row.name,
        row.roll_number,
        decimal(row.seat_number),
        row.time_in,
        row.time_out,
    ]
}

/// The range of the sheet named `label`: `'label'!1:6`.
///
/// Known issue: the span is rows 1 to 6 on every day and for every append. A read
/// of this range reports at most six rows however many the sheet holds, so the
/// row count stops growing there (see [`crate::serial::SPAN_HEIGHT`]). The
/// addressing is kept as deployed sheets expect it.
pub open spec fn range_id(label: Seq<char>) -> Seq<char> {
    "'"@ + label + "'!1:6"@
}

/// The wire form of `row` addressed to `range`.
pub open spec fn wire_row(row: RowView, range: Seq<char>) -> WireRowView {
    WireRowView { major_dimension: "ROWS"@, range, values: seq![cells(row)] }
}

/// The wire form of `row` at the instant `seconds`: addressed to the range of
/// the day on which that instant falls.
pub open spec fn formatted(row: RowView, seconds: int) -> WireRowView {
    wire_row(row, range_id(day_label(seconds)))
}

/// The range of the sheet named `label`.
pub fn range_of_label(label: &str) -> (range: String)
    ensures
        range@ == range_id(label@),
{
    let mut range = "'".to_owned();
    range.append(label);
    range.append("'!1:6");
    range
}

/// The range of the day on which `now` falls.
pub fn range_for(now: Timestamp) -> (range: String)
    ensures
        range@ == range_id(day_label(now.seconds())),
{
    let label = now.day_label();
    range_of_label(label.as_str())
}

impl WireRow {
    /// The wire form of `row`, addressed to `range`.
    pub fn for_range(row: Row, range: &str) -> (wire: WireRow)
        ensures
            wire@ == wire_row(row@, range@),
    {
        let mut line: Vec<String> = Vec::new();
        line.push(render(row.serial_number as u64));
        line.push(row.name.to_owned());
        line.push(row.roll_number.to_owned());
        line.push(render(row.seat_number as u64));
        line.push(row.time_in.to_owned());
        line.push(row.time_out.to_owned());
        assert(line.deep_view() =~= cells(row@));
        let mut values: Vec<Vec<String>> = Vec::new();
        values.push(line);
        assert(values.deep_view() =~= seq![cells(row@)]);
        WireRow { major_dimension: "ROWS".to_owned(), range: range.to_owned(), values }
    }

    /// The wire form of `row` at the instant `now`.
    ///
    /// The result depends on `row` and `now` alone: no clock is read and nothing
    /// is remembered between calls.
    pub fn format(row: Row, now: Timestamp) -> (wire: WireRow)
        ensures
            wire@ == formatted(row@, now.seconds()),
    {
        let range = range_for(now);
        WireRow::for_range(row, range.as_str())
    }
}

/// Formatting is a function of its inputs: the same row at the same instant
/// gives the same cells and the same range.
pub proof fn lemma_format_is_a_function(
    first: RowView,
    second: RowView,
    first_seconds: int,
    second_seconds: int,
)
    requires
        first == second,
        first_seconds == second_seconds,
    ensures
        formatted(first, first_seconds) == formatted(second, second_seconds),
{
}

/// The wire row carries the row itself: rows that differ are sent as different
/// cells, so nothing of a row is lost on the way to the store.
pub proof fn lemma_cells_tell_rows_apart(first: RowView, second: RowView)
    requires
        cells(first) == cells(second),
    ensures
        first == second,
{
    let a = cells(first);
    let b = cells(second);
    assert(a[0] == b[0] && a[1] == b[1] && a[2] == b[2] && a[3] == b[3] && a[4] == b[4] && a[5]
        == b[5]);
    crate::decimal::lemma_decimal_injective(first.serial_number, second.serial_number);
    crate::decimal::lemma_decimal_injective(first.seat_number, second.seat_number);
}

} // verus!
