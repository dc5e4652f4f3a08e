//! Attendance records appended to a shared spreadsheet, one numbered row at a time.
//!
//! The crate decides and computes; it performs no I/O. A host program reads the
//! clock, the credential file and the network, and feeds what it observed to the
//! state machines defined here.

pub mod calendar;
pub mod coordinator;
pub mod decimal;
pub mod locks;
pub mod ledger;
pub mod row;
pub mod serial;
pub mod session;
pub mod wire;
