//! Instants, and the calendar day they fall on where the sheet is kept.
//!
//! Each day has a sheet of its own, named after the day as it is in India
//! (`Asia/Kolkata`), wherever the process runs.

use vstd::prelude::*;

verus! {

/// The first instant a [`Timestamp`] can hold: the start of the year 1, UTC.
pub const MIN_SECONDS: i64 = -62_135_596_800;

/// The last instant a [`Timestamp`] can hold: the last second of the year 9999, UTC.
pub const MAX_SECONDS: i64 = 253_402_300_799;

/// The pattern that writes a day as its number in the month, unpadded, and the
/// month's three-letter English name: `5 Jun`.
pub const DAY_PATTERN: &'static str = "%-d %b";

/// What `chrono` writes for the instant `seconds` after the Unix epoch, seen in
/// the `Asia/Kolkata` zone of `chrono_tz`, under the strftime pattern `pattern`.
pub uninterp spec fn kolkata_formatted(seconds: int, pattern: Seq<char>) -> Seq<char>;

/// An instant, in whole seconds since the Unix epoch.
#[derive(Clone, Copy, Debug, PartialEq, Eq)]
pub struct Timestamp {
    seconds: i64,
}

/// The name of the day on which `seconds` falls: the label of that day's sheet.
pub open spec fn day_label(seconds: int) -> Seq<char> {
    kolkata_formatted(seconds, DAY_PATTERN@)
}

/// `chrono::DateTime::from_timestamp`, then `with_timezone` into
/// `chrono_tz::Asia::Kolkata`, then `format` with `pattern`: the text that the
/// pattern gives for that instant in that zone. The range keeps the instant
/// inside what `from_timestamp` represents, and the pattern is one that `format`
/// accepts.
#[verifier::external_body]
fn format_in_kolkata(seconds: i64, pattern: &str) -> (text: String)
    requires
        MIN_SECONDS <= seconds <= MAX_SECONDS,
        pattern@ == DAY_PATTERN@,
    ensures
        text@ == kolkata_formatted(seconds as int, pattern@),
{
    let utc = chrono::DateTime::from_timestamp(seconds, 0).unwrap();
    utc.with_timezone(&chrono_tz::Asia::Kolkata).format(pattern).to_string()
}

impl Timestamp {
    #[verifier::type_invariant]
    spec fn in_range(self) -> bool {
        MIN_SECONDS <= self.seconds <= MAX_SECONDS
    }

    /// Seconds since the Unix epoch.
    pub closed spec fn seconds(self) -> int {
        self.seconds as int
    }

    /// The instant `seconds` after the Unix epoch, if it lies between
    /// [`MIN_SECONDS`] and [`MAX_SECONDS`].
    pub fn from_unix_seconds(seconds: i64) -> (instant: Option<Timestamp>)
        ensures
            instant.is_some() == (MIN_SECONDS <= seconds <= MAX_SECONDS),
            instant matches Some(t) ==> t.seconds() == seconds,
    {
        if MIN_SECONDS <= seconds && seconds <= MAX_SECONDS {
            Some(Timestamp { seconds })
        } else {
            None
        }
    }

    /// Seconds since the Unix epoch.
    pub fn unix_seconds(&self) -> (seconds: i64)
        ensures
            seconds == self.seconds(),
            MIN_SECONDS <= seconds <= MAX_SECONDS,
    {
        proof {
            use_type_invariant(self);
        }
        self.seconds
    }

    /// The label of the day this instant falls on.
    pub fn day_label(&self) -> (label: String)
        ensures
            label@ == day_label(self.seconds()),
    {
        proof {
            use_type_invariant(self);
        }
        format_in_kolkata(self.seconds, DAY_PATTERN)
    }
}

} // verus!
