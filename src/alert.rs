//! The query-frequency alert: too many queries within the last minute.

use std::collections::VecDeque;
use vstd::prelude::*;

verus! {

/// The length of the window, in milliseconds.
pub const WINDOW_MS: u64 = 60000;

/// The number of queries in the window from which the alert is raised.
pub const MAX_QUERIES: usize = 30;

/// The times of recent queries, in milliseconds from a fixed instant.
#[derive(Debug)]
pub struct QueryHistory {
    times: VecDeque<u64>,
}

/// Whether a query at `t` is less than a window before `now`; a time after
/// `now` counts as no time before it.
pub open spec fn within_window(t: u64, now: u64) -> bool {
    (if t <= now { now - t } else { 0 }) < WINDOW_MS
}

/// The times that are still within the window, in order.
pub open spec fn recent(times: Seq<u64>, now: u64) -> Seq<u64>
    decreases times.len(),
{
    if times.len() == 0 {
        Seq::empty()
    } else if within_window(times.last(), now) {
        recent(times.drop_last(), now).push(times.last())
    } else {
        recent(times.drop_last(), now)
    }
}

proof fn lemma_recent_len(times: Seq<u64>, now: u64)
    ensures
        recent(times, now).len() <= times.len(),
    decreases times.len(),
{
    if times.len() > 0 {
        lemma_recent_len(times.drop_last(), now);
    }
}

impl View for QueryHistory {
    type V = Seq<u64>;

    closed spec fn view(&self) -> Seq<u64> {
        self.times@
    }
}

impl QueryHistory {
    pub fn new() -> (r: Self)
        ensures
            r@ == Seq::<u64>::empty(),
    {
        QueryHistory { times: VecDeque::new() }
    }

    /// Records a query at `now` and tells whether the alert is raised:
    /// queries older than the window are forgotten; when the window is
    /// already full the alert is raised and the query is not recorded.
    pub fn check(&mut self, now: u64) -> (alert: bool)
        requires
            old(self)@.len() <= MAX_QUERIES,
        ensures
            alert == (recent(old(self)@, now).len() >= MAX_QUERIES),
            final(self)@ == if alert { recent(old(self)@, now) } else { recent(old(self)@, now).push(now) },
            final(self)@.len() <= MAX_QUERIES,
    {
        let mut kept: VecDeque<u64> = VecDeque::new();
        let mut i: usize = 0;
        while i < self.times.len()
            invariant
                i <= self.times.len(),
                kept@ == recent(self.times@.subrange(0, i as int), now),
            decreases self.times.len() - i,
        {
            let t = self.times[i];
            assert(self.times@.subrange(0, i + 1).drop_last() =~= self.times@.subrange(0, i as int));
            let age = if t <= now { now - t } else { 0 };
            if age < WINDOW_MS {
                kept.push_back(t);
            }
            i = i + 1;
        }
        assert(self.times@.subrange(0, self.times.len() as int) =~= self.times@);
        proof { lemma_recent_len(self.times@, now); }
        let alert = kept.len() >= MAX_QUERIES;
        if !alert {
            kept.push_back(now);
        }
        self.times = kept;
        alert
    }
}

} // verus!
