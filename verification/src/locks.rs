//! One append at a time per range.
//!
//! Reading a range's row count and appending to the range are two calls to the
//! store. A second append that reads between them would be given the same serial
//! number. A lock per range keeps calls on one range apart: a call locks its
//! range before it reads and unlocks it when it has ended.

use vstd::prelude::*;

verus! {

/// The ranges on which an append is under way.
#[derive(Debug)]
pub struct RangeLocks {
    busy: Vec<String>,
}

/// Whether `range` is one of `held`.
pub open spec fn holds_range(held: Seq<String>, range: Seq<char>) -> bool {
    exists|i: int| 0 <= i < held.len() && (#[trigger] held[i])@ == range
}

impl View for RangeLocks {
    type V = Set<Seq<char>>;

    closed spec fn view(&self) -> Set<Seq<char>> {
        Set::new(|range: Seq<char>| holds_range(self.busy@, range))
    }
}

impl RangeLocks {
    /// No range is locked.
    pub fn new() -> (locks: RangeLocks)
        ensures
            locks@ == Set::<Seq<char>>::empty(),
    {
        let locks = RangeLocks { busy: Vec::new() };
        assert(locks@ =~= Set::<Seq<char>>::empty());
        locks
    }

    /// Whether an append on `range` is under way.
    pub fn is_locked(&self, range: &str) -> (locked: bool)
        ensures
            locked == self@.contains(range@),
    {
        let wanted = range.to_owned();
        let mut at: usize = 0;
        while at < self.busy.len()
            invariant
                at <= self.busy@.len(),
                wanted@ == range@,
                forall|i: int| 0 <= i < at ==> (#[trigger] self.busy@[i])@ != range@,
            decreases self.busy@.len() - at,
        {
            if self.busy[at] == wanted {
                assert(holds_range(self.busy@, range@));
                return true;
            }
            at += 1;
        }
        false
    }

    /// Locks `range` unless an append on it is under way, and says whether it
    /// did. Whoever locked a range unlocks it when the append has ended.
    pub fn try_lock(&mut self, range: &str) -> (locked: bool)
        ensures
            locked == !old(self)@.contains(range@),
            final(self)@ == old(self)@.insert(range@),
    {
        if self.is_locked(range) {
            assert(self@ =~= self@.insert(range@));
            false
        } else {
            let ghost before = self.busy@;
            self.busy.push(range.to_owned());
            assert(self@ =~= old(self)@.insert(range@)) by {
                let after = self.busy@;
                assert forall|r: Seq<char>| holds_range(after, r) <==> (holds_range(before, r) || r
                    == range@) by {
                    if holds_range(before, r) {
                        let i = choose|i: int| 0 <= i < before.len() && (#[trigger] before[i])@ == r;
                        assert(after[i]@ == r);
                    }
                    if r == range@ {
                        assert(after[before.len() as int]@ == r);
                    }
                    if holds_range(after, r) {
                        let i = choose|i: int| 0 <= i < after.len() && (#[trigger] after[i])@ == r;
                        if i < before.len() {
                            assert(before[i]@ == r);
                        }
                    }
                }
            }
            true
        }
    }

    /// Unlocks `range`: the next append on it may begin.
    pub fn unlock(&mut self, range: &str)
        ensures
            final(self)@ == old(self)@.remove(range@),
    {
        let wanted = range.to_owned();
        let mut kept: Vec<String> = Vec::new();
        let mut at: usize = 0;
        while at < self.busy.len()
            invariant
                at <= self.busy@.len(),
                wanted@ == range@,
                forall|r: Seq<char>|
                    #![trigger holds_range(kept@, r)]
                    #![trigger holds_range(self.busy@.take(at as int), r)]
                    holds_range(kept@, r) <==> (r != range@ && holds_range(
                        self.busy@.take(at as int),
                        r,
                    )),
            decreases self.busy@.len() - at,
        {
            let ghost seen = self.busy@.take(at as int);
            let ghost seen_next = self.busy@.take(at + 1);
            let ghost kept_before = kept@;
            let same = self.busy[at] == wanted;
            if !same {
                kept.push(self.busy[at].clone());
            }
            proof {
                let here = self.busy@[at as int]@;
                assert(seen_next[at as int]@ == here);
                assert forall|r: Seq<char>| #[trigger] holds_range(kept@, r) implies r != range@
                    && holds_range(seen_next, r) by {
                    let i = choose|i: int| 0 <= i < kept@.len() && (#[trigger] kept@[i])@ == r;
                    if i < kept_before.len() {
                        assert(kept_before[i]@ == r);
                        assert(holds_range(kept_before, r));
                        let j = choose|j: int| 0 <= j < seen.len() && (#[trigger] seen[j])@ == r;
                        assert(seen_next[j]@ == r);
                    }
                }
                assert forall|r: Seq<char>| r != range@ && #[trigger] holds_range(
                    seen_next,
                    r,
                ) implies holds_range(kept@, r) by {
                    let i = choose|i: int|
                        0 <= i < seen_next.len() && (#[trigger] seen_next[i])@ == r;
                    if i < at {
                        assert(seen[i]@ == r);
                        assert(holds_range(seen, r));
                        let j = choose|j: int|
                            0 <= j < kept_before.len() && (#[trigger] kept_before[j])@ == r;
                        assert(kept@[j]@ == r);
                    } else {
                        assert(kept@[kept_before.len() as int]@ == r);
                    }
                }
            }
            at += 1;
        }
        assert(self.busy@.take(at as int) =~= self.busy@);
        self.busy = kept;
        assert(self@ =~= old(self)@.remove(range@));
    }
}

} // verus!
