//! One append, from the caller's draft to the store's answer.
//!
//! A call is pending, then numbering (the range's rows are being read), then
//! appending (the row is on its way), and ends as succeeded or failed. The host
//! does the remote calls and reports what came back; [`AppendCall::step`] decides
//! what follows. Nothing is retried: a failure ends the call, and whoever wants
//! another attempt starts a new call, which is numbered afresh.

use crate::locks::RangeLocks;
use crate::row::{numbered_view, summary, Row, RowDraft, RowDraftView};
use crate::serial::{get_next_empty_row, AllocationError, ReadReply, RemoteFault};
use crate::wire::{wire_row, WireRow, WireRowView};
use vstd::prelude::*;

verus! {

/// How the store is told to read the cells it is sent: as if typed in by hand,
/// so that it recognises numbers and times by itself.
pub const USER_ENTERED: &'static str = "USER_ENTERED";

/// The append call failed.
#[derive(Clone, Debug, PartialEq, Eq)]
pub enum AppendError {
    /// The store did not answer within the time the host allows.
    TimedOut,
    /// The store or the way to it refused the call; the text says why.
    Failed(String),
}

/// Why a call ended without a row appended.
#[derive(Clone, Debug, PartialEq, Eq)]
pub enum AppendFailure {
    /// The rows could not be read, so nothing was appended.
    Allocation(AllocationError),
    /// The rows were read, and the append itself failed.
    Append(AppendError),
}

/// What the store answered to an append.
#[derive(Clone, Debug, PartialEq, Eq)]
pub enum AppendReply {
    /// The row was taken.
    Appended,
    /// The call failed.
    Failed(RemoteFault),
}

/// An append as the store's API takes it.
#[derive(Clone, Debug, PartialEq, Eq)]
pub struct AppendRequest {
    /// The range the row is appended to.
    pub range: String,
    /// How the store reads the cells: always [`USER_ENTERED`].
    pub value_input_option: String,
    /// The cells.
    pub body: WireRow,
}

/// An append request as mathematical values.
pub struct AppendRequestView {
    pub range: Seq<char>,
    pub value_input_option: Seq<char>,
    pub body: WireRowView,
}

impl View for AppendRequest {
    type V = AppendRequestView;

    open spec fn view(&self) -> AppendRequestView {
        AppendRequestView {
            range: self.range@,
            value_input_option: self.value_input_option@,
            body: self.body@,
        }
    }
}

/// The request that appends `body`: addressed to the range that `body` names,
/// cells read as user-entered.
pub open spec fn append_request(body: WireRowView) -> AppendRequestView {
    AppendRequestView { range: body.range, value_input_option: USER_ENTERED@, body }
}

/// The error an append ends with when the store's call failed with `fault`.
pub open spec fn append_error(fault: RemoteFault) -> AppendError {
    match fault {
        RemoteFault::TimedOut => AppendError::TimedOut,
        RemoteFault::Failed(cause) => AppendError::Failed(cause),
    }
}

/// Prepares the append of `value_range` to the sheet.
pub fn append_values_to_sheet(value_range: WireRow) -> (request: AppendRequest)
    ensures
        request@ == append_request(value_range@),
{
    AppendRequest {
        range: value_range.range.clone(),
        value_input_option: USER_ENTERED.to_owned(),
        body: value_range,
    }
}

/// Where a call stands.
#[derive(Clone, Debug, PartialEq, Eq)]
pub enum Phase {
    /// Not begun: no remote call has been made.
    Pending,
    /// The rows of the range are being read.
    Numbering,
    /// The row, numbered, is being appended.
    Appending { serial_number: usize },
    /// The store took the row.
    Succeeded { serial_number: usize },
    /// The call failed; the store was not asked again.
    Failed(AppendFailure),
}

impl Phase {
    /// Whether the call holds its range: it has begun and not ended.
    pub open spec fn in_flight(self) -> bool {
        self is Numbering || self is Appending
    }

    /// Whether the call is over.
    pub open spec fn ended(self) -> bool {
        self is Succeeded || self is Failed
    }

    /// The serial number the call carries once it has one; 0 before that and
    /// after a failure.
    pub open spec fn serial(self) -> nat {
        match self {
            Phase::Appending { serial_number } => serial_number as nat,
            Phase::Succeeded { serial_number } => serial_number as nat,
            _ => 0,
        }
    }
}

/// What the host reports to a call.
#[derive(Clone, Debug, PartialEq, Eq)]
pub enum Event {
    /// The caller wants the call to begin, or to try again to begin.
    Start,
    /// The read of the range came back.
    Read(ReadReply),
    /// The append came back.
    Appended(AppendReply),
}

/// What the host does next for a call.
#[derive(Clone, Debug, PartialEq, Eq)]
pub enum Action {
    /// Read the values stored in `range` and report them.
    Read { range: String },
    /// Send `request` and report the answer.
    Append { request: AppendRequest },
    /// Another call is numbering or appending on the range: report `Start` again
    /// when it may have ended.
    Retry,
    /// The call has ended: tell the caller how.
    Report,
    /// Nothing: the event did not belong to where the call stands.
    Idle,
}

/// An action as mathematical values.
pub enum ActionView {
    Read { range: Seq<char> },
    Append { request: AppendRequestView },
    Retry,
    Report,
    Idle,
}

impl View for Action {
    type V = ActionView;

    open spec fn view(&self) -> ActionView {
        match self {
            Action::Read { range } => ActionView::Read { range: range@ },
            Action::Append { request } => ActionView::Append { request: request@ },
            Action::Retry => ActionView::Retry,
            Action::Report => ActionView::Report,
            Action::Idle => ActionView::Idle,
        }
    }
}

/// A call as mathematical values.
pub struct CallView {
    pub draft: RowDraftView,
    pub range: Seq<char>,
    pub phase: Phase,
}

/// The phase that follows `phase` on `event`. `free` says whether the call's
/// range was free of other calls when the event came.
///
/// - `Pending` begins on `Start` if the range is free, and waits otherwise.
/// - `Numbering` takes the read: the rows give the serial number, a failed
///   read ends the call with `AllocationError`.
/// - `Appending` takes the store's answer: success, or `AppendError`.
/// - Every other event is ignored, and a call that has ended stays as it ended.
pub open spec fn phase_after(phase: Phase, event: Event, free: bool) -> Phase {
    match (phase, event) {
        (Phase::Pending, Event::Start) => if free {
            Phase::Numbering
        } else {
            Phase::Pending
        },
        (Phase::Numbering, Event::Read(reply)) => match reply.next_serial() {
            Ok(number) => Phase::Appending { serial_number: number as usize },
            Err(error) => Phase::Failed(AppendFailure::Allocation(error)),
        },
        (Phase::Appending { serial_number }, Event::Appended(reply)) => match reply {
            AppendReply::Appended => Phase::Succeeded { serial_number },
            AppendReply::Failed(fault) => Phase::Failed(AppendFailure::Append(append_error(fault))),
        },
        _ => phase,
    }
}

/// The ranges that are busy once a call on `range` has moved from `before` to
/// `after`: the call takes its range when it begins and gives it up when it ends.
pub open spec fn busy_after(
    before: Phase,
    after: Phase,
    range: Seq<char>,
    busy: Set<Seq<char>>,
) -> Set<Seq<char>> {
    if before is Pending && after is Numbering {
        busy.insert(range)
    } else if before.in_flight() && after.ended() {
        busy.remove(range)
    } else {
        busy
    }
}

/// What the host is asked to do when `call` has moved to the phase `after` on
/// `event`. An append is requested only on the move from numbering to
/// appending, for the row with the serial number that the read gave.
pub open spec fn action_after(call: CallView, event: Event, after: Phase) -> ActionView {
    match (call.phase, after) {
        (Phase::Pending, Phase::Numbering) => ActionView::Read { range: call.range },
        (Phase::Pending, Phase::Pending) => if event is Start {
            ActionView::Retry
        } else {
            ActionView::Idle
        },
        (Phase::Numbering, Phase::Appending { serial_number }) => ActionView::Append {
            request: append_request(
                wire_row(numbered_view(call.draft, serial_number as nat), call.range),
            ),
        },
        (Phase::Numbering, Phase::Failed(_)) => ActionView::Report,
        (Phase::Appending { .. }, Phase::Succeeded { .. }) => ActionView::Report,
        (Phase::Appending { .. }, Phase::Failed(_)) => ActionView::Report,
        _ => ActionView::Idle,
    }
}

/// What a call that has ended hands to the caller on success.
#[derive(Clone, Debug, PartialEq, Eq)]
pub struct AppendOutcome<'a> {
    /// The row as it was appended, serial number included.
    pub row: Row<'a>,
    /// The summary of that row, for people to read.
    pub summary: String,
}

/// One append: a draft, the range it goes to, and how far it has come.
#[derive(Debug)]
pub struct AppendCall<'a> {
    draft: RowDraft<'a>,
    range: String,
    phase: Phase,
}

impl<'a> View for AppendCall<'a> {
    type V = CallView;

    closed spec fn view(&self) -> CallView {
        CallView { draft: self.draft@, range: self.range@, phase: self.phase }
    }
}

fn to_append_error(fault: RemoteFault) -> (error: AppendError)
    ensures
        error == append_error(fault),
{
    match fault {
        RemoteFault::TimedOut => AppendError::TimedOut,
        RemoteFault::Failed(cause) => AppendError::Failed(cause),
    }
}

impl<'a> AppendCall<'a> {
    #[verifier::type_invariant]
    spec fn numbered_from_one(self) -> bool {
        self.phase is Appending || self.phase is Succeeded ==> self.phase.serial() >= 1
    }

    /// A call that appends `draft` to the range `range_hint`, not yet begun.
    ///
    /// The range is the one whose rows are counted and the one the row is sent
    /// to; [`crate::wire::range_for`] gives the range of a day.
    pub fn new(draft: RowDraft<'a>, range_hint: &str) -> (call: AppendCall<'a>)
        ensures
            call@ == (CallView { draft: draft@, range: range_hint@, phase: Phase::Pending }),
    {
        AppendCall { draft, range: range_hint.to_owned(), phase: Phase::Pending }
    }

    /// Where the call stands.
    pub fn phase(&self) -> (phase: &Phase)
        ensures
            *phase == self@.phase,
            *phase is Appending || *phase is Succeeded ==> phase.serial() >= 1,
    {
        proof {
            use_type_invariant(self);
        }
        &self.phase
    }

    /// The range the call works on.
    pub fn range(&self) -> (range: &str)
        ensures
            range@ == self@.range,
    {
        self.range.as_str()
    }

    /// Takes the call one step further on what the host reports, and says what
    /// the host does next. `locks` holds the locks shared by all calls of the process.
    ///
    /// A read that reports `usize::MAX` rows cannot be numbered; no store
    /// returns one.
    pub fn step(self, event: Event, locks: &mut RangeLocks) -> (next: (AppendCall<'a>, Action))
        requires
            event matches Event::Read(reply) ==> reply.countable(),
        ensures
            next.0@.draft == self@.draft,
            next.0@.range == self@.range,
            next.0@.phase == phase_after(
                self@.phase,
                event,
                !old(locks)@.contains(self@.range),
            ),
            final(locks)@ == busy_after(self@.phase, next.0@.phase, self@.range, old(locks)@),
            next.1@ == action_after(self@, event, next.0@.phase),
            next.0@.phase is Appending || next.0@.phase is Succeeded ==> next.0@.phase.serial()
                >= 1,
    {
        proof {
            use_type_invariant(&self);
        }
        let AppendCall { draft, range, phase } = self;
        match (phase, event) {
            (Phase::Pending, Event::Start) => {
                if locks.try_lock(range.as_str()) {
                    let action = Action::Read { range: range.clone() };
                    (AppendCall { draft, range, phase: Phase::Numbering }, action)
                } else {
                    (AppendCall { draft, range, phase: Phase::Pending }, Action::Retry)
                }
            },
            (Phase::Numbering, Event::Read(reply)) => {
                match get_next_empty_row(reply) {
                    Ok(serial_number) => {
                        let row = draft.numbered(serial_number);
                        let body = WireRow::for_range(row, range.as_str());
                        let action = Action::Append { request: append_values_to_sheet(body) };
                        (AppendCall { draft, range, phase: Phase::Appending { serial_number } }, action)
                    },
                    Err(error) => {
                        locks.unlock(range.as_str());
                        let phase = Phase::Failed(AppendFailure::Allocation(error));
                        (AppendCall { draft, range, phase }, Action::Report)
                    },
                }
            },
            (Phase::Appending { serial_number }, Event::Appended(reply)) => {
                locks.unlock(range.as_str());
                let phase = match reply {
                    AppendReply::Appended => Phase::Succeeded { serial_number },
                    AppendReply::Failed(fault) => Phase::Failed(
                        AppendFailure::Append(to_append_error(fault)),
                    ),
                };
                (AppendCall { draft, range, phase }, Action::Report)
            },
            (phase, _) => (AppendCall { draft, range, phase }, Action::Idle),
        }
    }

    /// How the call ended: the appended row with its summary, or the failure.
    /// `None` while the call has not ended.
    pub fn finish(self) -> (end: Option<Result<AppendOutcome<'a>, AppendFailure>>)
        ensures
            match self@.phase {
                Phase::Succeeded { serial_number } => {
                    &&& end matches Some(Ok(outcome))
                    &&& outcome.row@ == numbered_view(self@.draft, serial_number as nat)
                    &&& outcome.row.well_formed()
                    &&& outcome.summary@ == summary(outcome.row@)
                },
                Phase::Failed(failure) => end == Some(
                    Err::<AppendOutcome<'a>, AppendFailure>(failure),
                ),
                _ => end is None,
            },
    {
        proof {
            use_type_invariant(&self);
        }
        match self.phase {
            Phase::Succeeded { serial_number } => {
                let row = self.draft.numbered(serial_number);
                let summary = row.pretty_print();
                Some(Ok(AppendOutcome { row, summary }))
            },
            Phase::Failed(failure) => Some(Err(failure)),
            _ => None,
        }
    }
}

/// The host is asked to append only when a call that is numbering is told that
/// its read succeeded. Nothing else ever leads to an append.
pub proof fn lemma_append_follows_a_read(call: CallView, event: Event, free: bool)
    requires
        action_after(call, event, phase_after(call.phase, event, free)) is Append,
    ensures
        call.phase is Numbering,
        event is Read,
        event matches Event::Read(reply) && !(reply is Failed),
{
}

/// A failed read ends the call with `AllocationError`, carrying the failure. The
/// host is asked to report that; it is not asked to append.
pub proof fn lemma_failed_read_ends_the_call(call: CallView, fault: RemoteFault, free: bool)
    requires
        call.phase is Numbering,
    ensures
        ({
            let event = Event::Read(ReadReply::Failed(fault));
            let after = phase_after(call.phase, event, free);
            &&& after == Phase::Failed(
                AppendFailure::Allocation(AllocationError { cause: fault }),
            )
            &&& action_after(call, event, after) == ActionView::Report
        }),
{
}

/// A failed append ends the call with `AppendError`, carrying the failure; the
/// serial number that the call had been given is not kept.
pub proof fn lemma_failed_append_ends_the_call(call: CallView, fault: RemoteFault, free: bool)
    requires
        call.phase is Appending,
    ensures
        ({
            let event = Event::Appended(AppendReply::Failed(fault));
            let after = phase_after(call.phase, event, free);
            &&& after == Phase::Failed(AppendFailure::Append(append_error(fault)))
            &&& after.serial() == 0
            &&& action_after(call, event, after) == ActionView::Report
        }),
{
}

/// A call that has ended stays as it ended: whatever is reported to it, its
/// phase and the locks are left alone and the host is asked for nothing. Success
/// is never turned into failure, nor failure into success.
pub proof fn lemma_ended_call_stays_ended(
    call: CallView,
    event: Event,
    free: bool,
    busy: Set<Seq<char>>,
)
    requires
        call.phase.ended(),
    ensures
        phase_after(call.phase, event, free) == call.phase,
        action_after(call, event, call.phase) == ActionView::Idle,
        busy_after(call.phase, call.phase, call.range, busy) == busy,
{
}

/// A call succeeds in one way only: its append was reported as taken while it
/// was appending. No failure of any step is ever presented as success.
pub proof fn lemma_success_needs_an_append(phase: Phase, event: Event, free: bool)
    requires
        !(phase is Succeeded),
        phase_after(phase, event, free) is Succeeded,
    ensures
        phase is Appending,
        event == Event::Appended(AppendReply::Appended),
        phase_after(phase, event, free).serial() == phase.serial(),
{
}

} // verus!
