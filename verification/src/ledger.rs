//! What the numbering guarantees, stated over a model of the store.
//!
//! The store is outside this crate. The model says what the numbering relies on:
//! a range holds rows, a successful append adds one row to its range, and a read
//! reports the rows of its range, up to the height of the range's span if it has
//! one. Writers outside this process are not part of the model.

use crate::coordinator::{busy_after, phase_after, AppendReply, CallView, Event, Phase};
use crate::row::RowDraftView;
use crate::serial::{reported_rows, serial_after, ReadReply, RemoteFault};
use vstd::prelude::*;

verus! {

/// The serial number given to a call that numbers itself on a range of `stored`
/// rows, when a read reports at most `cap` rows.
pub open spec fn serial_given(stored: nat, cap: Option<nat>) -> nat {
    serial_after(reported_rows(stored, cap))
}

/// Whether `serial` is the number at which numbering stalls under `cap`: one
/// more than the most rows a read reports.
pub open spec fn stalled(serial: nat, cap: Option<nat>) -> bool {
    cap matches Some(height) && serial == height + 1
}

/// The first append into an empty range is given the serial number 1, whatever
/// the row says.
pub proof fn lemma_first_append_is_number_one(reply: ReadReply, cap: Option<nat>)
    requires
        !(reply is Failed),
        reply.row_count() == 0,
    ensures
        ({
            let numbering = phase_after(Phase::Pending, Event::Start, true);
            let appending = phase_after(numbering, Event::Read(reply), false);
            let ended = phase_after(appending, Event::Appended(AppendReply::Appended), false);
            ended == Phase::Succeeded { serial_number: 1 }
        }),
        serial_given(0, cap) == 1,
{
}

/// Known issue. On a range with a span, every append made once the range holds
/// as many rows as the span is high is given the same serial number: the
/// span's height plus one.
pub proof fn lemma_serials_stall_at_the_span(stored: nat, height: nat)
    requires
        stored >= height,
    ensures
        serial_given(stored, Some(height)) == height + 1,
{
}

/// A new call after a failed append is numbered by the rows the range holds
/// then, not by what the failed call was given: the same number again if the
/// failed append left no row behind, the next one if it left its row, unless
/// numbering has stalled.
pub proof fn lemma_retry_is_numbered_afresh(stored: nat, cap: Option<nat>, persisted: bool)
    ensures
        ({
            let first = serial_given(stored, cap);
            let left: nat = if persisted {
                stored + 1
            } else {
                stored
            };
            let retry = serial_given(left, cap);
            &&& !persisted ==> retry == first
            &&& persisted && !stalled(first, cap) ==> retry == first + 1
            &&& persisted && stalled(first, cap) ==> retry == first
        }),
{
}

/// A process and its store: the rows each range holds, the ranges that are
/// busy, and every call begun so far.
pub struct World {
    /// The most rows a read reports, if ranges have a span.
    pub cap: Option<nat>,
    /// Rows held, by range; a range that is no key holds none.
    pub stored: Map<Seq<char>, nat>,
    /// The locked ranges: those on which a call is numbering or appending.
    pub busy: Set<Seq<char>>,
    /// The calls, in the order they were created.
    pub calls: Seq<CallView>,
}

/// Something that happens in a world.
pub enum Move {
    /// A caller creates a call.
    Begin { draft: RowDraftView, range: Seq<char> },
    /// The host reports `event` to the call `who`. `persisted` says whether an
    /// append that is reported as failed left its row in the store all the same.
    Deliver { who: int, event: Event, persisted: bool },
}

impl World {
    /// A world in which no call has been made yet: the ranges hold `stored`,
    /// and none is locked.
    pub open spec fn fresh(cap: Option<nat>, stored: Map<Seq<char>, nat>) -> World {
        World { cap, stored, busy: Set::empty(), calls: Seq::empty() }
    }

    /// The rows that `range` holds.
    pub open spec fn rows_in(self, range: Seq<char>) -> nat {
        if self.stored.dom().contains(range) {
            self.stored[range]
        } else {
            0
        }
    }

    /// Whether `step` can happen: it concerns a call that exists, and a read
    /// that is reported as answered reports what the store holds.
    pub open spec fn admits(self, step: Move) -> bool {
        match step {
            Move::Begin { .. } => true,
            Move::Deliver { who, event, .. } => {
                &&& 0 <= who < self.calls.len()
                &&& event matches Event::Read(reply) ==> {
                    &&& reply.countable()
                    &&& !(reply is Failed) ==> reply.row_count() == reported_rows(
                        self.rows_in(self.calls[who].range),
                        self.cap,
                    )
                }
            },
        }
    }

    /// The world after `step`.
    pub open spec fn after(self, step: Move) -> World {
        match step {
            Move::Begin { draft, range } => World {
                cap: self.cap,
                stored: self.stored,
                busy: self.busy,
                calls: self.calls.push(CallView { draft, range, phase: Phase::Pending }),
            },
            Move::Deliver { who, event, persisted } => {
                let call = self.calls[who];
                let phase = phase_after(call.phase, event, !self.busy.contains(call.range));
                let gained: nat = if call.phase is Appending && (phase is Succeeded || (phase
                    is Failed && persisted)) {
                    1
                } else {
                    0
                };
                World {
                    cap: self.cap,
                    stored: self.stored.insert(call.range, self.rows_in(call.range) + gained),
                    busy: busy_after(call.phase, phase, call.range, self.busy),
                    calls: self.calls.update(
                        who,
                        CallView { draft: call.draft, range: call.range, phase },
                    ),
                }
            },
        }
    }

    /// The world after all of `steps`, in order.
    pub open spec fn after_all(self, steps: Seq<Move>) -> World
        decreases steps.len(),
    {
        if steps.len() == 0 {
            self
        } else {
            self.after_all(steps.drop_last()).after(steps.last())
        }
    }

    /// Whether each of `steps` can happen when its turn comes.
    pub open spec fn admits_all(self, steps: Seq<Move>) -> bool
        decreases steps.len(),
    {
        steps.len() > 0 ==> {
            &&& self.admits_all(steps.drop_last())
            &&& self.after_all(steps.drop_last()).admits(steps.last())
        }
    }

    /// Whether a call is numbering or appending on `range`.
    pub open spec fn in_flight_on(self, range: Seq<char>) -> bool {
        exists|i: int|
            0 <= i < self.calls.len() && (#[trigger] self.calls[i]).phase.in_flight()
                && self.calls[i].range == range
    }

    /// What the locks and the numbering keep true of a world: a range is locked
    /// exactly while a call is in flight on it, and no two calls are in flight
    /// on one range; a call that is appending carries the number that the rows
    /// of its range give; a call that succeeded carries a number no greater than
    /// the rows of its range, or the number at which numbering stalls; and two
    /// calls that succeeded on one range carry different numbers, or that one.
    pub open spec fn consistent(self) -> bool {
        &&& forall|range: Seq<char>| #[trigger]
            self.busy.contains(range) ==> self.in_flight_on(range)
        &&& forall|i: int|
            0 <= i < self.calls.len() && (#[trigger] self.calls[i]).phase.in_flight()
                ==> self.busy.contains(self.calls[i].range)
        &&& forall|i: int, j: int|
            0 <= i < self.calls.len() && 0 <= j < self.calls.len() && i != j && (
            #[trigger] self.calls[i]).phase.in_flight() && (#[trigger] self.calls[j]).phase.in_flight()
                ==> self.calls[i].range != self.calls[j].range
        &&& forall|i: int|
            0 <= i < self.calls.len() && (#[trigger] self.calls[i]).phase is Appending
                ==> self.calls[i].phase.serial() == serial_given(
                self.rows_in(self.calls[i].range),
                self.cap,
            )
        &&& forall|i: int|
            0 <= i < self.calls.len() && (#[trigger] self.calls[i]).phase is Succeeded ==> {
                ||| 1 <= self.calls[i].phase.serial() <= self.rows_in(self.calls[i].range)
                ||| stalled(self.calls[i].phase.serial(), self.cap)
            }
        &&& forall|i: int, j: int|
            0 <= i < self.calls.len() && 0 <= j < self.calls.len() && i != j && (
            #[trigger] self.calls[i]).phase is Succeeded && (#[trigger] self.calls[j]).phase
                is Succeeded && self.calls[i].range == self.calls[j].range ==> {
                ||| self.calls[i].phase.serial() != self.calls[j].phase.serial()
                ||| stalled(self.calls[i].phase.serial(), self.cap)
            }
    }
}

/// A world in which no call has been made is consistent, whatever its ranges
/// hold.
pub proof fn lemma_fresh_world_is_consistent(cap: Option<nat>, stored: Map<Seq<char>, nat>)
    ensures
        World::fresh(cap, stored).consistent(),
{
}

/// Whatever happens next, in whatever order calls are served, a consistent
/// world stays consistent.
pub proof fn lemma_steps_keep_consistency(world: World, step: Move)
    requires
        world.consistent(),
        world.admits(step),
    ensures
        world.after(step).consistent(),
{
    let next = world.after(step);
    match step {
        Move::Begin { draft, range } => {
            assert forall|i: int| 0 <= i < world.calls.len() implies #[trigger] next.calls[i]
                == world.calls[i] by {}
            assert forall|r: Seq<char>| #[trigger] next.busy.contains(r) implies next.in_flight_on(
                r,
            ) by {
                let i = choose|i: int|
                    0 <= i < world.calls.len() && (#[trigger] world.calls[i]).phase.in_flight()
                        && world.calls[i].range == r;
                assert(next.calls[i] == world.calls[i]);
            }
        },
        Move::Deliver { who, event, persisted } => {
            let call = world.calls[who];
            assert forall|i: int| 0 <= i < world.calls.len() && i != who implies #[trigger] next.calls[i]
                == world.calls[i] by {}
            assert forall|r: Seq<char>| r != call.range implies #[trigger] next.rows_in(r)
                == world.rows_in(r) by {}
            assert(next.rows_in(call.range) >= world.rows_in(call.range));
            assert forall|r: Seq<char>| #[trigger] next.busy.contains(r) implies next.in_flight_on(
                r,
            ) by {
                if r == call.range && next.calls[who].phase.in_flight() {
                    assert(next.calls[who].range == r);
                } else {
                    let i = choose|i: int|
                        0 <= i < world.calls.len() && (#[trigger] world.calls[i]).phase.in_flight()
                            && world.calls[i].range == r;
                    assert(next.calls[i] == world.calls[i]);
                }
            }
        },
    }
}

/// No range stays locked behind a call that has ended: a call that asks to
/// begin on a range on which no call is in flight does begin.
pub proof fn lemma_idle_range_lets_a_call_begin(world: World, who: int)
    requires
        world.consistent(),
        0 <= who < world.calls.len(),
        world.calls[who].phase is Pending,
        !world.in_flight_on(world.calls[who].range),
    ensures
        world.after(Move::Deliver { who, event: Event::Start, persisted: false }).calls[who].phase
            is Numbering,
{
}

/// However many calls run side by side, and in whatever order the host serves
/// them, the world they leave behind is consistent.
pub proof fn lemma_every_run_is_consistent(first: World, steps: Seq<Move>)
    requires
        first.consistent(),
        first.admits_all(steps),
    ensures
        first.after_all(steps).consistent(),
        first.after_all(steps).cap == first.cap,
    decreases steps.len(),
{
    if steps.len() > 0 {
        lemma_every_run_is_consistent(first, steps.drop_last());
        lemma_steps_keep_consistency(first.after_all(steps.drop_last()), steps.last());
    }
}

/// A call whose read fails writes nothing: it ends with `AllocationError`, and
/// every range holds what it held.
pub proof fn lemma_failed_read_writes_nothing(
    world: World,
    who: int,
    fault: RemoteFault,
    range: Seq<char>,
)
    requires
        0 <= who < world.calls.len(),
        world.calls[who].phase is Numbering,
    ensures
        ({
            let step = Move::Deliver {
                who,
                event: Event::Read(ReadReply::Failed(fault)),
                persisted: false,
            };
            &&& world.after(step).rows_in(range) == world.rows_in(range)
            &&& world.after(step).calls[who].phase is Failed
        }),
{
}

/// Running `first` and then `second` is running the two in a row.
pub proof fn lemma_runs_join(world: World, first: Seq<Move>, second: Seq<Move>)
    ensures
        world.after_all(first + second) == world.after_all(first).after_all(second),
        world.admits_all(first + second) == (world.admits_all(first) && world.after_all(
            first,
        ).admits_all(second)),
    decreases second.len(),
{
    if second.len() == 0 {
        assert(first + second =~= first);
    } else {
        assert((first + second).drop_last() =~= first + second.drop_last());
        assert((first + second).last() == second.last());
        lemma_runs_join(world, first, second.drop_last());
    }
}

/// The moves of one call that runs undisturbed on `range`: it is created as
/// the call `who`, begins, is told `reply` by its read, and has its append
/// taken by the store.
pub open spec fn lone_call(
    who: int,
    draft: RowDraftView,
    range: Seq<char>,
    reply: ReadReply,
) -> Seq<Move> {
    seq![
        Move::Begin { draft, range },
        Move::Deliver { who, event: Event::Start, persisted: false },
        Move::Deliver { who, event: Event::Read(reply), persisted: false },
        Move::Deliver { who, event: Event::Appended(AppendReply::Appended), persisted: false },
    ]
}

/// The moves of calls that run one after another on `range`, one for each of
/// `drafts`: each call is over before the next is created. `replies` are the
/// answers to their reads.
pub open spec fn calls_in_turn(
    range: Seq<char>,
    drafts: Seq<RowDraftView>,
    replies: Seq<ReadReply>,
) -> Seq<Move>
    decreases drafts.len(),
{
    if drafts.len() == 0 {
        Seq::empty()
    } else {
        calls_in_turn(range, drafts.drop_last(), replies.drop_last()) + lone_call(
            drafts.len() - 1,
            drafts.last(),
            range,
            replies.last(),
        )
    }
}

/// What a call that runs undisturbed does to a world in which its range is
/// free: it ends as succeeded with the number that the rows of its range
/// give, the range holds one row more, and nothing else has changed.
pub proof fn lemma_lone_call_appends_one_row(
    world: World,
    draft: RowDraftView,
    range: Seq<char>,
    reply: ReadReply,
)
    requires
        !world.busy.contains(range),
        !(reply is Failed),
        world.admits_all(lone_call(world.calls.len() as int, draft, range, reply)),
    ensures
        ({
            let next = world.after_all(lone_call(world.calls.len() as int, draft, range, reply));
            let given = serial_given(world.rows_in(range), world.cap);
            &&& next.calls == world.calls.push(
                CallView { draft, range, phase: Phase::Succeeded { serial_number: given as usize } },
            )
            &&& given <= usize::MAX
            &&& next.rows_in(range) == world.rows_in(range) + 1
            &&& next.busy == world.busy
            &&& next.cap == world.cap
        }),
{
    let who = world.calls.len() as int;
    let moves = lone_call(who, draft, range, reply);
    let one = moves.drop_last().drop_last().drop_last();
    let two = moves.drop_last().drop_last();
    let three = moves.drop_last();
    assert(one.drop_last() =~= Seq::<Move>::empty());
    reveal_with_fuel(World::after_all, 5);
    reveal_with_fuel(World::admits_all, 5);
    let begun = world.after(moves[0]);
    assert(world.after_all(one) == begun);
    let numbering = begun.after(moves[1]);
    assert(world.after_all(two) == numbering);
    assert(numbering.rows_in(range) == world.rows_in(range));
    let appending = numbering.after(moves[2]);
    assert(world.after_all(three) == appending);
    assert(numbering.admits(moves[2]));
    assert(appending.rows_in(range) == world.rows_in(range));
    let ended = appending.after(moves[3]);
    assert(world.after_all(moves) == ended);
    assert(ended.busy =~= world.busy);
    assert(ended.calls =~= world.calls.push(
        CallView {
            draft,
            range,
            phase: Phase::Succeeded {
                serial_number: serial_given(world.rows_in(range), world.cap) as usize,
            },
        },
    ));
}

/// Appends made one after another into an empty range are numbered 1, 2, 3 and
/// so on, in the order in which they were made, without gap or repeat: the
/// call made for `drafts[k]` ends as succeeded with the number `k + 1`. This
/// holds for as long as reads report every row: always on a range without a
/// span, and up to one append more than the span's height on a range with one.
pub proof fn lemma_appends_in_turn_count_from_one(
    cap: Option<nat>,
    range: Seq<char>,
    drafts: Seq<RowDraftView>,
    replies: Seq<ReadReply>,
)
    requires
        drafts.len() == replies.len(),
        forall|k: int| 0 <= k < replies.len() ==> !(#[trigger] replies[k] is Failed),
        World::fresh(cap, Map::empty()).admits_all(calls_in_turn(range, drafts, replies)),
        cap matches Some(height) ==> drafts.len() <= height + 1,
    ensures
        ({
            let end = World::fresh(cap, Map::empty()).after_all(
                calls_in_turn(range, drafts, replies),
            );
            &&& end.calls.len() == drafts.len()
            &&& end.rows_in(range) == drafts.len()
            &&& end.busy == Set::<Seq<char>>::empty()
            &&& end.cap == cap
            &&& forall|k: int|
                0 <= k < drafts.len() ==> #[trigger] end.calls[k] == (CallView {
                    draft: drafts[k],
                    range,
                    phase: Phase::Succeeded { serial_number: (k + 1) as usize },
                })
        }),
    decreases drafts.len(),
{
    let fresh = World::fresh(cap, Map::empty());
    if drafts.len() > 0 {
        let earlier = calls_in_turn(range, drafts.drop_last(), replies.drop_last());
        let last = lone_call(drafts.len() - 1, drafts.last(), range, replies.last());
        lemma_runs_join(fresh, earlier, last);
        assert forall|k: int| 0 <= k < replies.drop_last().len() implies !(
        #[trigger] replies.drop_last()[k] is Failed) by {
            assert(replies.drop_last()[k] == replies[k]);
        }
        lemma_appends_in_turn_count_from_one(cap, range, drafts.drop_last(), replies.drop_last());
        let before = fresh.after_all(earlier);
        lemma_lone_call_appends_one_row(before, drafts.last(), range, replies.last());
        let end = before.after_all(last);
        assert forall|k: int| 0 <= k < drafts.len() implies #[trigger] end.calls[k] == (CallView {
            draft: drafts[k],
            range,
            phase: Phase::Succeeded { serial_number: (k + 1) as usize },
        }) by {
            if k < drafts.len() - 1 {
                assert(end.calls[k] == before.calls[k]);
                assert(drafts.drop_last()[k] == drafts[k]);
            }
        }
    }
}

/// No serial number is given twice on one range: of two calls that succeeded on
/// the same range, each has a number of its own, whether they ran one after the
/// other or side by side, and in whatever order the host served them. The one
/// exception is the number at which numbering stalls on a range with a span.
pub proof fn lemma_no_serial_is_given_twice(
    cap: Option<nat>,
    stored: Map<Seq<char>, nat>,
    steps: Seq<Move>,
    first: int,
    second: int,
)
    requires
        World::fresh(cap, stored).admits_all(steps),
        first != second,
        0 <= first < World::fresh(cap, stored).after_all(steps).calls.len(),
        0 <= second < World::fresh(cap, stored).after_all(steps).calls.len(),
        World::fresh(cap, stored).after_all(steps).calls[first].phase is Succeeded,
        World::fresh(cap, stored).after_all(steps).calls[second].phase is Succeeded,
        World::fresh(cap, stored).after_all(steps).calls[first].range == World::fresh(
            cap,
            stored,
        ).after_all(steps).calls[second].range,
    ensures
        ({
            let calls = World::fresh(cap, stored).after_all(steps).calls;
            ||| calls[first].phase.serial() != calls[second].phase.serial()
            ||| stalled(calls[first].phase.serial(), cap)
        }),
{
    lemma_fresh_world_is_consistent(cap, stored);
    lemma_every_run_is_consistent(World::fresh(cap, stored), steps);
}

} // verus!
