use attendance_sheet::coordinator::{
    append_values_to_sheet, Action, AppendCall, AppendError, AppendFailure, AppendReply, Event,
    Phase, USER_ENTERED,
};
use attendance_sheet::locks::RangeLocks;
use attendance_sheet::row::{Row, RowDraft};
use attendance_sheet::serial::{
    get_next_empty_row, AllocationError, ReadReply, RemoteFault, SPAN_HEIGHT,
};
use attendance_sheet::wire::WireRow;

const TODAY: &str = "'5 Jun'!1:6";

fn draft(name: &'static str) -> RowDraft<'static> {
    RowDraft { name, roll_number: "21CS042", seat_number: 17, time_in: "09:05", time_out: "17:40" }
}

/// A store kept in memory: one list of rows per range, and switches that make
/// the next call fail.
struct FakeStore {
    ranges: Vec<(String, Vec<Vec<String>>)>,
    cap: Option<usize>,
    fail_reads: bool,
    fail_appends: bool,
    keep_failed_appends: bool,
    reads: usize,
    appends: usize,
}

impl FakeStore {
    fn new(cap: Option<usize>) -> FakeStore {
        FakeStore {
            ranges: Vec::new(),
            cap,
            fail_reads: false,
            fail_appends: false,
            keep_failed_appends: false,
            reads: 0,
            appends: 0,
        }
    }

    fn rows(&self, range: &str) -> Vec<Vec<String>> {
        for (name, rows) in &self.ranges {
            if name == range {
                return rows.clone();
            }
        }
        Vec::new()
    }

    fn put(&mut self, range: &str, row: Vec<String>) {
        for (name, rows) in &mut self.ranges {
            if name == range {
                rows.push(row);
                return;
            }
        }
        self.ranges.push((range.to_string(), vec![row]));
    }

    fn read(&mut self, range: &str) -> ReadReply {
        self.reads += 1;
        if self.fail_reads {
            return ReadReply::Failed(RemoteFault::Failed("quota exceeded".to_string()));
        }
        let mut rows = self.rows(range);
        if let Some(cap) = self.cap {
            rows.truncate(cap);
        }
        if rows.is_empty() {
            ReadReply::NoValues
        } else {
            ReadReply::Rows(rows)
        }
    }

    fn append(&mut self, range: &str, body: &WireRow) -> AppendReply {
        self.appends += 1;
        if self.fail_appends {
            if self.keep_failed_appends {
                self.put(range, body.values[0].clone());
            }
            return AppendReply::Failed(RemoteFault::Failed("connection reset".to_string()));
        }
        self.put(range, body.values[0].clone());
        AppendReply::Appended
    }
}

/// Runs one call from start to end, as a host does, and returns how it ended.
fn run(
    store: &mut FakeStore,
    locks: &mut RangeLocks,
    draft: RowDraft<'static>,
    range: &str,
) -> Result<Row<'static>, AppendFailure> {
    let mut call = AppendCall::new(draft, range);
    let mut event = Event::Start;
    loop {
        let (next, action) = call.step(event, locks);
        call = next;
        event = match action {
            Action::Read { range } => Event::Read(store.read(&range)),
            Action::Append { request } => {
                Event::Appended(store.append(&request.range, &request.body))
            }
            Action::Report => break,
            other => panic!("a lone call was told {:?}", other),
        };
    }
    match call.finish().unwrap() {
        Ok(outcome) => {
            assert_eq!(outcome.summary, outcome.row.pretty_print());
            Ok(outcome.row)
        }
        Err(failure) => Err(failure),
    }
}

#[test]
fn get_next_empty_row_counts_from_one() {
    assert_eq!(get_next_empty_row(ReadReply::NoValues), Ok(1));
    assert_eq!(get_next_empty_row(ReadReply::Rows(Vec::new())), Ok(1));
    let three = vec![vec!["a".to_string()], Vec::new(), vec!["b".to_string(), "c".to_string()]];
    assert_eq!(get_next_empty_row(ReadReply::Rows(three)), Ok(4));
}

#[test]
fn get_next_empty_row_wraps_the_failure() {
    assert_eq!(
        get_next_empty_row(ReadReply::Failed(RemoteFault::TimedOut)),
        Err(AllocationError { cause: RemoteFault::TimedOut })
    );
    let fault = RemoteFault::Failed("permission denied".to_string());
    assert_eq!(
        get_next_empty_row(ReadReply::Failed(fault.clone())),
        Err(AllocationError { cause: fault })
    );
}

#[test]
fn append_values_to_sheet_addresses_the_rows_own_range() {
    let body = WireRow::for_range(draft("Asha").numbered(3), TODAY);
    let request = append_values_to_sheet(body.clone());
    assert_eq!(request.range, TODAY);
    assert_eq!(request.value_input_option, "USER_ENTERED");
    assert_eq!(USER_ENTERED, "USER_ENTERED");
    assert_eq!(request.body, body);
}

#[test]
fn first_append_into_an_empty_range_is_number_one() {
    let mut store = FakeStore::new(Some(SPAN_HEIGHT));
    let mut locks = RangeLocks::new();
    let row = run(&mut store, &mut locks, draft("Asha"), TODAY).unwrap();
    assert_eq!(row, draft("Asha").numbered(1));
    assert_eq!(row.serial_number, 1);
    assert_eq!(store.rows(TODAY), vec![vec!["1", "Asha", "21CS042", "17", "09:05", "17:40"]]);
    assert!(!locks.is_locked(TODAY));
}

#[test]
fn a_call_goes_through_its_phases_in_order() {
    let mut locks = RangeLocks::new();
    let call = AppendCall::new(draft("Asha"), TODAY);
    assert_eq!(call.phase(), &Phase::Pending);
    assert_eq!(call.range(), TODAY);

    let (call, action) = call.step(Event::Start, &mut locks);
    assert_eq!(call.phase(), &Phase::Numbering);
    assert_eq!(action, Action::Read { range: TODAY.to_string() });
    assert!(locks.is_locked(TODAY));

    let two = vec![vec!["1".to_string()], vec!["2".to_string()]];
    let (call, action) = call.step(Event::Read(ReadReply::Rows(two)), &mut locks);
    assert_eq!(call.phase(), &Phase::Appending { serial_number: 3 });
    let expected = append_values_to_sheet(WireRow::for_range(draft("Asha").numbered(3), TODAY));
    assert_eq!(action, Action::Append { request: expected });
    assert!(locks.is_locked(TODAY));

    let (call, action) = call.step(Event::Appended(AppendReply::Appended), &mut locks);
    assert_eq!(call.phase(), &Phase::Succeeded { serial_number: 3 });
    assert_eq!(action, Action::Report);
    assert!(!locks.is_locked(TODAY));

    let outcome = call.finish().unwrap().unwrap();
    assert_eq!(outcome.row, draft("Asha").numbered(3));
    assert_eq!(outcome.summary, draft("Asha").numbered(3).pretty_print());
}

#[test]
fn finish_has_nothing_before_the_end() {
    let mut locks = RangeLocks::new();
    let call = AppendCall::new(draft("Asha"), TODAY);
    assert_eq!(AppendCall::new(draft("Asha"), TODAY).finish(), None);
    let (call, _) = call.step(Event::Start, &mut locks);
    let (call, _) = call.step(Event::Read(ReadReply::NoValues), &mut locks);
    assert_eq!(call.finish(), None);
}

#[test]
fn appends_in_turn_are_numbered_without_gap_or_repeat() {
    let mut store = FakeStore::new(None);
    let mut locks = RangeLocks::new();
    for expected in 1..=40usize {
        let row = run(&mut store, &mut locks, draft("Asha"), "'Log'!A:F").unwrap();
        assert_eq!(row.serial_number, expected);
    }
    let written: Vec<String> = store.rows("'Log'!A:F").iter().map(|row| row[0].clone()).collect();
    let wanted: Vec<String> = (1..=40).map(|n: u32| n.to_string()).collect();
    assert_eq!(written, wanted);
}

#[test]
fn appends_in_turn_on_a_day_range_count_to_the_span_and_one() {
    let mut store = FakeStore::new(Some(SPAN_HEIGHT));
    let mut locks = RangeLocks::new();
    for expected in 1..=SPAN_HEIGHT + 1 {
        let row = run(&mut store, &mut locks, draft("Asha"), TODAY).unwrap();
        assert_eq!(row.serial_number, expected);
    }
}

#[test]
fn numbering_stalls_once_the_span_is_full() {
    let mut store = FakeStore::new(Some(SPAN_HEIGHT));
    let mut locks = RangeLocks::new();
    for _ in 0..SPAN_HEIGHT {
        run(&mut store, &mut locks, draft("Asha"), TODAY).unwrap();
    }
    for _ in 0..5 {
        let row = run(&mut store, &mut locks, draft("Asha"), TODAY).unwrap();
        assert_eq!(row.serial_number, SPAN_HEIGHT + 1);
    }
    assert_eq!(SPAN_HEIGHT, 6);
}

#[test]
fn ranges_are_numbered_apart() {
    let mut store = FakeStore::new(None);
    let mut locks = RangeLocks::new();
    assert_eq!(run(&mut store, &mut locks, draft("A"), "'4 Jun'!1:6").unwrap().serial_number, 1);
    assert_eq!(run(&mut store, &mut locks, draft("B"), "'4 Jun'!1:6").unwrap().serial_number, 2);
    assert_eq!(run(&mut store, &mut locks, draft("C"), "'5 Jun'!1:6").unwrap().serial_number, 1);
    assert_eq!(run(&mut store, &mut locks, draft("D"), "'4 Jun'!1:6").unwrap().serial_number, 3);
}

#[test]
fn a_failed_read_is_an_allocation_error_and_nothing_is_appended() {
    let mut store = FakeStore::new(None);
    store.fail_reads = true;
    let mut locks = RangeLocks::new();
    let failure = run(&mut store, &mut locks, draft("Asha"), TODAY).unwrap_err();
    assert_eq!(
        failure,
        AppendFailure::Allocation(AllocationError {
            cause: RemoteFault::Failed("quota exceeded".to_string())
        })
    );
    assert_eq!(store.reads, 1);
    assert_eq!(store.appends, 0);
    assert!(store.rows(TODAY).is_empty());
    assert!(!locks.is_locked(TODAY));
}

#[test]
fn a_failed_read_asks_the_host_to_report_only() {
    let mut locks = RangeLocks::new();
    let call = AppendCall::new(draft("Asha"), TODAY);
    let (call, _) = call.step(Event::Start, &mut locks);
    let (call, action) = call.step(Event::Read(ReadReply::Failed(RemoteFault::TimedOut)), &mut locks);
    assert_eq!(action, Action::Report);
    assert_eq!(
        call.phase(),
        &Phase::Failed(AppendFailure::Allocation(AllocationError { cause: RemoteFault::TimedOut }))
    );
    let (call, action) = call.step(Event::Appended(AppendReply::Appended), &mut locks);
    assert_eq!(action, Action::Idle);
    let (call, action) = call.step(Event::Read(ReadReply::NoValues), &mut locks);
    assert_eq!(action, Action::Idle);
    let (call, action) = call.step(Event::Start, &mut locks);
    assert_eq!(action, Action::Idle);
    assert!(matches!(call.finish(), Some(Err(AppendFailure::Allocation(_)))));
}

#[test]
fn a_failed_append_is_an_append_error() {
    let mut store = FakeStore::new(None);
    store.fail_appends = true;
    let mut locks = RangeLocks::new();
    let failure = run(&mut store, &mut locks, draft("Asha"), TODAY).unwrap_err();
    assert_eq!(
        failure,
        AppendFailure::Append(AppendError::Failed("connection reset".to_string()))
    );
    assert_eq!(store.reads, 1);
    assert_eq!(store.appends, 1);
    assert!(!locks.is_locked(TODAY));
}

#[test]
fn a_timed_out_append_has_an_error_of_its_own() {
    let mut locks = RangeLocks::new();
    let call = AppendCall::new(draft("Asha"), TODAY);
    let (call, _) = call.step(Event::Start, &mut locks);
    let (call, _) = call.step(Event::Read(ReadReply::NoValues), &mut locks);
    let reply = AppendReply::Failed(RemoteFault::TimedOut);
    let (call, action) = call.step(Event::Appended(reply), &mut locks);
    assert_eq!(action, Action::Report);
    assert_eq!(call.finish(), Some(Err(AppendFailure::Append(AppendError::TimedOut))));
}

#[test]
fn a_retry_after_a_lost_append_gets_the_same_number() {
    let mut store = FakeStore::new(None);
    let mut locks = RangeLocks::new();
    run(&mut store, &mut locks, draft("A"), TODAY).unwrap();
    run(&mut store, &mut locks, draft("B"), TODAY).unwrap();
    store.fail_appends = true;
    assert!(run(&mut store, &mut locks, draft("C"), TODAY).is_err());
    assert!(run(&mut store, &mut locks, draft("C"), TODAY).is_err());
    store.fail_appends = false;
    let row = run(&mut store, &mut locks, draft("C"), TODAY).unwrap();
    assert_eq!(row.serial_number, 3);
    assert_eq!(store.reads, 5);
}

#[test]
fn a_retry_after_an_append_that_landed_gets_the_next_number() {
    let mut store = FakeStore::new(None);
    let mut locks = RangeLocks::new();
    run(&mut store, &mut locks, draft("A"), TODAY).unwrap();
    store.fail_appends = true;
    store.keep_failed_appends = true;
    assert!(run(&mut store, &mut locks, draft("B"), TODAY).is_err());
    assert!(run(&mut store, &mut locks, draft("B"), TODAY).is_err());
    store.fail_appends = false;
    let row = run(&mut store, &mut locks, draft("B"), TODAY).unwrap();
    assert_eq!(row.serial_number, 4);
    let serials: Vec<String> = store.rows(TODAY).iter().map(|row| row[0].clone()).collect();
    assert_eq!(serials, vec!["1", "2", "3", "4"]);
}

#[test]
fn a_second_call_on_the_range_waits_for_the_first() {
    let mut store = FakeStore::new(None);
    let mut locks = RangeLocks::new();
    let first = AppendCall::new(draft("A"), TODAY);
    let second = AppendCall::new(draft("B"), TODAY);

    let (first, action) = first.step(Event::Start, &mut locks);
    assert_eq!(action, Action::Read { range: TODAY.to_string() });
    let (second, action) = second.step(Event::Start, &mut locks);
    assert_eq!(action, Action::Retry);
    assert_eq!(second.phase(), &Phase::Pending);

    let (first, action) = first.step(Event::Read(store.read(TODAY)), &mut locks);
    let (second, waits) = second.step(Event::Start, &mut locks);
    assert_eq!(waits, Action::Retry);
    let request = match action {
        Action::Append { request } => request,
        other => panic!("unexpected action {:?}", other),
    };
    let reply = store.append(&request.range, &request.body);
    let (first, _) = first.step(Event::Appended(reply), &mut locks);

    let (second, action) = second.step(Event::Start, &mut locks);
    assert_eq!(action, Action::Read { range: TODAY.to_string() });
    let (second, action) = second.step(Event::Read(store.read(TODAY)), &mut locks);
    let request = match action {
        Action::Append { request } => request,
        other => panic!("unexpected action {:?}", other),
    };
    let reply = store.append(&request.range, &request.body);
    let (second, _) = second.step(Event::Appended(reply), &mut locks);

    let first = first.finish().unwrap().unwrap().row.serial_number;
    let second = second.finish().unwrap().unwrap().row.serial_number;
    assert_eq!((first, second), (1, 2));
}

#[test]
fn calls_on_different_ranges_do_not_wait() {
    let mut locks = RangeLocks::new();
    let first = AppendCall::new(draft("A"), "'4 Jun'!1:6");
    let second = AppendCall::new(draft("B"), "'5 Jun'!1:6");
    let (first, action) = first.step(Event::Start, &mut locks);
    assert!(matches!(action, Action::Read { .. }));
    let (second, action) = second.step(Event::Start, &mut locks);
    assert!(matches!(action, Action::Read { .. }));
    assert_eq!(first.phase(), &Phase::Numbering);
    assert_eq!(second.phase(), &Phase::Numbering);
}

#[test]
fn a_call_that_failed_frees_its_range() {
    let mut locks = RangeLocks::new();
    let first = AppendCall::new(draft("A"), TODAY);
    let (first, _) = first.step(Event::Start, &mut locks);
    let fault = RemoteFault::Failed("unreachable".to_string());
    let (_first, _) = first.step(Event::Read(ReadReply::Failed(fault)), &mut locks);
    let second = AppendCall::new(draft("B"), TODAY);
    let (_second, action) = second.step(Event::Start, &mut locks);
    assert_eq!(action, Action::Read { range: TODAY.to_string() });
}

#[test]
fn reports_out_of_turn_are_ignored() {
    let mut locks = RangeLocks::new();
    let call = AppendCall::new(draft("A"), TODAY);
    let (call, action) = call.step(Event::Read(ReadReply::NoValues), &mut locks);
    assert_eq!((call.phase(), action), (&Phase::Pending, Action::Idle));
    let (call, action) = call.step(Event::Appended(AppendReply::Appended), &mut locks);
    assert_eq!((call.phase(), action), (&Phase::Pending, Action::Idle));
    assert!(!locks.is_locked(TODAY));

    let (call, _) = call.step(Event::Start, &mut locks);
    let (call, action) = call.step(Event::Appended(AppendReply::Appended), &mut locks);
    assert_eq!((call.phase(), action), (&Phase::Numbering, Action::Idle));
    let (call, action) = call.step(Event::Start, &mut locks);
    assert_eq!((call.phase(), action), (&Phase::Numbering, Action::Idle));
    assert!(locks.is_locked(TODAY));

    let (call, _) = call.step(Event::Read(ReadReply::NoValues), &mut locks);
    let (call, action) = call.step(Event::Read(ReadReply::NoValues), &mut locks);
    assert_eq!((call.phase(), action), (&Phase::Appending { serial_number: 1 }, Action::Idle));
    assert!(locks.is_locked(TODAY));
}

#[test]
fn locks_are_held_per_range() {
    let mut locks = RangeLocks::new();
    assert!(!locks.is_locked("a"));
    assert!(locks.try_lock("a"));
    assert!(locks.is_locked("a"));
    assert!(!locks.try_lock("a"));
    assert!(locks.try_lock("b"));
    locks.unlock("a");
    assert!(!locks.is_locked("a"));
    assert!(locks.is_locked("b"));
    locks.unlock("a");
    assert!(locks.try_lock("a"));
    locks.unlock("b");
    locks.unlock("a");
    assert!(!locks.is_locked("a") && !locks.is_locked("b"));
}
