//! Serial numbers: the next one is read off the rows a range already holds.

use vstd::prelude::*;

verus! {

/// Rows that a day's range spans: `1:6`.
///
/// Known issue: a read of a day's range reports `SPAN_HEIGHT` rows at most. Once
/// a sheet holds that many, every append is given the serial `SPAN_HEIGHT + 1`
/// (see [`crate::ledger::lemma_serials_stall_at_the_span`]).
pub const SPAN_HEIGHT: usize = 6;

/// Why a call to the store came back without a result.
#[derive(Clone, Debug, PartialEq, Eq)]
pub enum RemoteFault {
    /// The store did not answer within the time the host allows.
    TimedOut,
    /// Transport, authentication, quota or permission failed; the text says which.
    Failed(String),
}

/// The read of the existing rows failed, so no serial number could be given.
#[derive(Clone, Debug, PartialEq, Eq)]
pub struct AllocationError {
    pub cause: RemoteFault,
}

/// What a read of a range came back with.
#[derive(Clone, Debug, PartialEq, Eq)]
pub enum ReadReply {
    /// The rows stored in the range, top to bottom.
    Rows(Vec<Vec<String>>),
    /// The range holds no values at all.
    NoValues,
    /// The read failed.
    Failed(RemoteFault),
}

/// The serial number for the row that follows `count` stored rows.
pub open spec fn serial_after(count: nat) -> nat {
    count + 1
}

/// How many rows a read reports when the store holds `stored` rows in a range
/// and reports at most `cap` of them (all of them when `cap` is `None`).
pub open spec fn reported_rows(stored: nat, cap: Option<nat>) -> nat {
    match cap {
        Some(height) => if stored <= height {
            stored
        } else {
            height
        },
        None => stored,
    }
}

impl ReadReply {
    /// How many rows the reply reports.
    pub open spec fn row_count(self) -> nat {
        match self {
            ReadReply::Rows(rows) => rows@.len(),
            _ => 0,
        }
    }

    /// What the reply means for numbering: the next serial number, or the
    /// failure that kept the rows from being read.
    pub open spec fn next_serial(self) -> Result<nat, AllocationError> {
        match self {
            ReadReply::Failed(cause) => Err(AllocationError { cause }),
            _ => Ok(serial_after(self.row_count())),
        }
    }

    /// Whether the next serial number fits the machine's word.
    pub open spec fn countable(self) -> bool {
        self.row_count() < usize::MAX
    }
}

/// The serial number for the next row of a range, from a read of that range.
///
/// An empty range gives 1, a range of `n` rows gives `n + 1`. A failed read gives
/// `AllocationError` with the failure inside; nothing is retried.
pub fn get_next_empty_row(reply: ReadReply) -> (serial: Result<usize, AllocationError>)
    requires
        reply.countable(),
    ensures
        match reply.next_serial() {
            Ok(number) => serial == Ok::<usize, AllocationError>(number as usize) && number
                <= usize::MAX,
            Err(error) => serial == Err::<usize, AllocationError>(error),
        },
{
    match reply {
        ReadReply::Rows(rows) => Ok(rows.len() + 1),
        ReadReply::NoValues => Ok(1),
        ReadReply::Failed(cause) => Err(AllocationError { cause }),
    }
}

/// An empty range gives the serial number 1, whether the store reports no values
/// or an empty list of rows.
pub proof fn lemma_empty_range_gives_one(reply: ReadReply)
    requires
        !(reply is Failed),
        reply.row_count() == 0,
    ensures
        reply.next_serial() == Ok::<nat, AllocationError>(1),
{
}

} // verus!
