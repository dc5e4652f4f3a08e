//! One attendance record, as the spreadsheet holds it.

use crate::decimal::{decimal, render};
use vstd::prelude::*;

verus! {

/// A record as the caller supplies it: everything but the serial number.
#[derive(Clone, Copy, Debug, PartialEq, Eq)]
pub struct RowDraft<'a> {
    pub name: &'a str,
    pub roll_number: &'a str,
    pub seat_number: u32,
    pub time_in: &'a str,
    pub time_out: &'a str,
}

/// A row of the sheet: a record together with its serial number.
#[derive(Clone, Copy, Debug, PartialEq, Eq)]
pub struct Row<'a> {
    pub serial_number: usize,
    pub name: &'a str,
    pub roll_number: &'a str,
    pub seat_number: u32,
    pub time_in: &'a str,
    pub time_out: &'a str,
}

/// What a draft says, as mathematical values.
pub struct RowDraftView {
    pub name: Seq<char>,
    pub roll_number: Seq<char>,
    pub seat_number: nat,
    pub time_in: Seq<char>,
    pub time_out: Seq<char>,
}

/// What a row says, as mathematical values.
pub struct RowView {
    pub serial_number: nat,
    pub name: Seq<char>,
    pub roll_number: Seq<char>,
    pub seat_number: nat,
    pub time_in: Seq<char>,
    pub time_out: Seq<char>,
}

impl<'a> View for RowDraft<'a> {
    type V = RowDraftView;

    open spec fn view(&self) -> RowDraftView {
        RowDraftView {
            name: self.name@,
            roll_number: self.roll_number@,
            seat_number: self.seat_number as nat,
            time_in: self.time_in@,
            time_out: self.time_out@,
        }
    }
}

impl<'a> View for Row<'a> {
    type V = RowView;

    open spec fn view(&self) -> RowView {
        RowView {
            serial_number: self.serial_number as nat,
            name: self.name@,
            roll_number: self.roll_number@,
            seat_number: self.seat_number as nat,
            time_in: self.time_in@,
            time_out: self.time_out@,
        }
    }
}

/// The row that `draft` becomes once it is given `serial_number`.
pub open spec fn numbered_view(draft: RowDraftView, serial_number: nat) -> RowView {
    RowView {
        serial_number,
        name: draft.name,
        roll_number: draft.roll_number,
        seat_number: draft.seat_number,
        time_in: draft.time_in,
        time_out: draft.time_out,
    }
}

/// The summary shown to the person who asked for the append: the six fields,
/// labelled, numbers in plain decimal.
pub open spec fn summary(row: RowView) -> Seq<char> {
    "Appended data:\nSerial Number: "@ + decimal(row.serial_number) + "\tName: "@ + row.name
        + "\tRoll Number: "@ + row.roll_number
        + "\t\n                              \t\tSeat Number: "@ + decimal(row.seat_number)
        + "\tTime In: "@ + row.time_in + "\t Time Out: "@ + row.time_out + "\t"@
}

impl<'a> RowDraft<'a> {
    /// Completes the draft with its serial number.
    pub fn numbered(&self, serial_number: usize) -> (row: Row<'a>)
        ensures
            row@ == numbered_view(self@, serial_number as nat),
            row.well_formed() == (serial_number >= 1),
    {
        Row {
            serial_number,
            name: self.name,
            roll_number: self.roll_number,
            seat_number: self.seat_number,
            time_in: self.time_in,
            time_out: self.time_out,
        }
    }
}

impl<'a> Row<'a> {
    /// Serial numbers start at 1.
    pub open spec fn well_formed(&self) -> bool {
        self.serial_number >= 1
    }

    /// The record without its serial number.
    pub fn draft(&self) -> (draft: RowDraft<'a>)
        ensures
            self@ == numbered_view(draft@, self.serial_number as nat),
    {
        RowDraft {
            name: self.name,
            roll_number: self.roll_number,
            seat_number: self.seat_number,
            time_in: self.time_in,
            time_out: self.time_out,
        }
    }

    /// Writes the summary of this row.
    pub fn pretty_print(&self) -> (message: String)
        ensures
            message@ == summary(self@),
    {
        let mut message = "Appended data:\nSerial Number: ".to_owned();
        message.append(render(self.serial_number as u64).as_str());
        message.append("\tName: ");
        message.append(self.name);
        message.append("\tRoll Number: ");
        message.append(self.roll_number);
        message.append("\t\n                              \t\tSeat Number: ");
        message.append(render(self.seat_number as u64).as_str());
        message.append("\tTime In: ");
        message.append(self.time_in);
        message.append("\t Time Out: ");
        message.append(self.time_out);
        message.append("\t");
        message
    }
}

} // verus!
