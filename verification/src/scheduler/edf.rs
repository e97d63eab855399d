//! The earliest-deadline-first decisions of the task scheduler: which task
//! runs next, when a run counts as a deadline miss, and when each task is
//! due again. Times are microseconds on one monotonic time base.
use vstd::prelude::*;

verus! {

/// Whether `i` indexes a deadline no later than every other, and earlier
/// than every deadline before it.
pub open spec fn is_first_earliest(deadlines: Seq<u64>, i: int) -> bool {
    &&& 0 <= i < deadlines.len()
    &&& forall|j: int| 0 <= j < deadlines.len() ==> deadlines[i] <= #[trigger] deadlines[j]
    &&& forall|j: int| 0 <= j < i ==> deadlines[i] < #[trigger] deadlines[j]
}

/// Per-task periods, next deadlines and deadline misses, and the number of
/// task runs.
pub struct EdfTable {
    periods: Vec<u64>,
    deadlines: Vec<u64>,
    misses: Vec<u64>,
    tick_count: u64,
}

impl EdfTable {
    pub closed spec fn periods_view(&self) -> Seq<u64> {
        self.periods@
    }

    pub closed spec fn deadlines_view(&self) -> Seq<u64> {
        self.deadlines@
    }

    pub closed spec fn misses_view(&self) -> Seq<u64> {
        self.misses@
    }

    pub closed spec fn ticks(&self) -> u64 {
        self.tick_count
    }

    /// The table's three sequences have one entry per task.
    pub open spec fn wf(&self) -> bool {
        &&& self.deadlines_view().len() == self.periods_view().len()
        &&& self.misses_view().len() == self.periods_view().len()
    }

    pub fn new() -> (t: EdfTable)
        ensures
            t.wf(),
            t.periods_view() == Seq::<u64>::empty(),
            t.deadlines_view() == Seq::<u64>::empty(),
            t.misses_view() == Seq::<u64>::empty(),
            t.ticks() == 0,
    {
        EdfTable { periods: Vec::new(), deadlines: Vec::new(), misses: Vec::new(), tick_count: 0 }
    }

    /// Add a task with the given period, first due at `first_deadline`;
    /// returns its index.
    pub fn add(&mut self, period: u64, first_deadline: u64) -> (i: usize)
        requires
            old(self).wf(),
        ensures
            final(self).wf(),
            i == old(self).periods_view().len(),
            final(self).periods_view() == old(self).periods_view().push(period),
            final(self).deadlines_view() == old(self).deadlines_view().push(first_deadline),
            final(self).misses_view() == old(self).misses_view().push(0),
            final(self).ticks() == old(self).ticks(),
    {
        let i = self.periods.len();
        self.periods.push(period);
        self.deadlines.push(first_deadline);
        self.misses.push(0);
        i
    }

    pub fn len(&self) -> (n: usize)
        ensures
            n == self.periods_view().len(),
    {
        self.periods.len()
    }

    /// Every task is next due one period after `now`.
    pub fn start(&mut self, now: u64)
        requires
            old(self).wf(),
            forall|i: int|
                0 <= i < old(self).periods_view().len() ==> now
                    + #[trigger] old(self).periods_view()[i] <= u64::MAX,
        ensures
            final(self).wf(),
            final(self).periods_view() == old(self).periods_view(),
            final(self).misses_view() == old(self).misses_view(),
            final(self).ticks() == old(self).ticks(),
            final(self).deadlines_view().len() == old(self).periods_view().len(),
            forall|i: int|
                0 <= i < old(self).periods_view().len()
                    ==> #[trigger] final(self).deadlines_view()[i] == now + old(self).periods_view()[i],
    {
        let n = self.periods.len();
        let ghost ps = self.periods@;
        assert forall|k: int| 0 <= k < n implies now + #[trigger] ps[k] <= u64::MAX by {
            assert(ps[k] == old(self).periods_view()[k]);
        }
        let mut i: usize = 0;
        while i < n
            invariant
                n == self.periods@.len(),
                ps == self.periods@,
                self.periods@ == old(self).periods@,
                self.misses@ == old(self).misses@,
                self.tick_count == old(self).tick_count,
                self.deadlines@.len() == n,
                i <= n,
                forall|k: int| 0 <= k < n ==> now + #[trigger] ps[k] <= u64::MAX,
                forall|k: int| 0 <= k < i ==> #[trigger] self.deadlines@[k] == now + self.periods@[k],
            decreases n - i,
        {
            let d = now + self.periods[i];
            self.deadlines.set(i, d);
            i = i + 1;
        }
    }

    /// The task with the earliest deadline (the first such), if any.
    pub fn earliest(&self) -> (r: Option<usize>)
        requires
            self.wf(),
        ensures
            r is None <==> self.deadlines_view().len() == 0,
            r matches Some(i) ==> is_first_earliest(self.deadlines_view(), i as int),
            r matches Some(i) ==> i < self.periods_view().len(),
    {
        if self.deadlines.len() == 0 {
            return None;
        }
        let mut best: usize = 0;
        let mut i: usize = 1;
        while i < self.deadlines.len()
            invariant
                1 <= i <= self.deadlines@.len(),
                best < i,
                forall|j: int| 0 <= j < i ==> self.deadlines@[best as int] <= #[trigger] self.deadlines@[j],
                forall|j: int| 0 <= j < best ==> self.deadlines@[best as int] < #[trigger] self.deadlines@[j],
            decreases self.deadlines@.len() - i,
        {
            if self.deadlines[i] < self.deadlines[best] {
                best = i;
            }
            i = i + 1;
        }
        Some(best)
    }

    /// The next deadline of task `i`.
    pub fn deadline(&self, i: usize) -> (d: u64)
        requires
            self.wf(),
            i < self.periods_view().len(),
        ensures
            d == self.deadlines_view()[i as int],
    {
        self.deadlines[i]
    }

    /// The period of task `i`.
    pub fn period(&self, i: usize) -> (p: u64)
        requires
            self.wf(),
            i < self.periods_view().len(),
        ensures
            p == self.periods_view()[i as int],
    {
        self.periods[i]
    }

    /// Deadline misses recorded for task `i`.
    pub fn deadline_misses(&self, i: usize) -> (m: u64)
        requires
            self.wf(),
            i < self.periods_view().len(),
        ensures
            m == self.misses_view()[i as int],
    {
        self.misses[i]
    }

    /// The number of task runs completed.
    pub fn tick_count(&self) -> (n: u64)
        ensures
            n == self.ticks(),
    {
        self.tick_count
    }

    /// Record that task `i` ran at `now`: a run later than one period past
    /// its deadline is a miss; the task is next due one period after `now`.
    /// Returns whether the run was a miss.
    pub fn complete(&mut self, i: usize, now: u64) -> (missed: bool)
        requires
            old(self).wf(),
            i < old(self).periods_view().len(),
            now + old(self).periods_view()[i as int] <= u64::MAX,
            old(self).deadlines_view()[i as int] + old(self).periods_view()[i as int] <= u64::MAX,
            old(self).misses_view()[i as int] < u64::MAX,
            old(self).ticks() < u64::MAX,
        ensures
            final(self).wf(),
            missed == (now > old(self).deadlines_view()[i as int] + old(self).periods_view()[i as int]),
            final(self).periods_view() == old(self).periods_view(),
            final(self).deadlines_view() == old(self).deadlines_view().update(
                i as int,
                (now + old(self).periods_view()[i as int]) as u64,
            ),
            final(self).misses_view() == (if missed {
                old(self).misses_view().update(i as int, (old(self).misses_view()[i as int] + 1) as u64)
            } else {
                old(self).misses_view()
            }),
            final(self).ticks() == old(self).ticks() + 1,
    {
        let period = self.periods[i];
        let missed = now > self.deadlines[i] + period;
        if missed {
            let m = self.misses[i] + 1;
            self.misses.set(i, m);
        }
        self.deadlines.set(i, now + period);
        self.tick_count = self.tick_count + 1;
        missed
    }
}

} // verus!
