//! Bookkeeping of `setTimeout` and `setInterval` for one request: ids,
//! deadlines, which callbacks are due, and what stays queued.
//!
//! Times are milliseconds of a monotonic clock read by the caller; the
//! callback handles are opaque to this module.

use vstd::prelude::*;

verus! {

/// First id handed out for timeouts; ids run from 1 to 99, then wrap.
pub const FIRST_TIMEOUT_ID: u32 = 1;

/// Last id handed out for timeouts before wrapping.
pub const LAST_TIMEOUT_ID: u32 = 99;

/// First id handed out for intervals.
pub const FIRST_INTERVAL_ID: u32 = 100;

/// A pending one-shot callback.
pub struct TimeoutEntry<F> {
    pub id: u32,
    pub func: F,
    pub fire_at: u64,
}

/// A pending repeating callback.
pub struct IntervalEntry<F> {
    pub id: u32,
    pub func: F,
    pub interval_ms: u64,
    pub next_fire: u64,
}

/// The timeouts due at `now`, in queue order.
pub open spec fn due_timeouts<F>(s: Seq<TimeoutEntry<F>>, now: u64) -> Seq<TimeoutEntry<F>>
    decreases s.len(),
{
    if s.len() == 0 {
        s
    } else if now >= s.last().fire_at {
        due_timeouts(s.drop_last(), now).push(s.last())
    } else {
        due_timeouts(s.drop_last(), now)
    }
}

/// The timeouts not yet due at `now`, in queue order.
pub open spec fn later_timeouts<F>(s: Seq<TimeoutEntry<F>>, now: u64) -> Seq<TimeoutEntry<F>>
    decreases s.len(),
{
    if s.len() == 0 {
        s
    } else if now >= s.last().fire_at {
        later_timeouts(s.drop_last(), now)
    } else {
        later_timeouts(s.drop_last(), now).push(s.last())
    }
}

/// The intervals due at `now`, in queue order.
pub open spec fn due_intervals<F>(s: Seq<IntervalEntry<F>>, now: u64) -> Seq<IntervalEntry<F>>
    decreases s.len(),
{
    if s.len() == 0 {
        s
    } else if now >= s.last().next_fire {
        due_intervals(s.drop_last(), now).push(s.last())
    } else {
        due_intervals(s.drop_last(), now)
    }
}

/// The intervals not yet due at `now`, in queue order.
pub open spec fn later_intervals<F>(s: Seq<IntervalEntry<F>>, now: u64) -> Seq<IntervalEntry<F>>
    decreases s.len(),
{
    if s.len() == 0 {
        s
    } else if now >= s.last().next_fire {
        later_intervals(s.drop_last(), now)
    } else {
        later_intervals(s.drop_last(), now).push(s.last())
    }
}

/// The timeouts other than those with id `id`, in order.
pub open spec fn timeouts_without<F>(s: Seq<TimeoutEntry<F>>, id: u32) -> Seq<TimeoutEntry<F>>
    decreases s.len(),
{
    if s.len() == 0 {
        s
    } else if s.last().id == id {
        timeouts_without(s.drop_last(), id)
    } else {
        timeouts_without(s.drop_last(), id).push(s.last())
    }
}

/// The intervals other than those with id `id`, in order.
pub open spec fn intervals_without<F>(s: Seq<IntervalEntry<F>>, id: u32) -> Seq<IntervalEntry<F>>
    decreases s.len(),
{
    if s.len() == 0 {
        s
    } else if s.last().id == id {
        intervals_without(s.drop_last(), id)
    } else {
        intervals_without(s.drop_last(), id).push(s.last())
    }
}

/// Clearing a timeout removes exactly the timeouts with that id: none with
/// the id is left, and every other pending timeout stays, in order.
pub proof fn law_clear_timeout_removes_exactly<F>(s: Seq<TimeoutEntry<F>>, id: u32)
    ensures
        forall|i: int| 0 <= i < timeouts_without(s, id).len() ==> #[trigger] timeouts_without(s, id)[i].id != id,
        timeouts_without(s, id) == s.filter(|e: TimeoutEntry<F>| e.id != id),
    decreases s.len(),
{
    reveal(Seq::filter);
    if s.len() > 0 {
        law_clear_timeout_removes_exactly(s.drop_last(), id);
    }
}

/// Clearing an interval removes exactly the intervals with that id: none
/// with the id is left, and every other pending interval stays, in order.
pub proof fn law_clear_interval_removes_exactly<F>(s: Seq<IntervalEntry<F>>, id: u32)
    ensures
        forall|i: int| 0 <= i < intervals_without(s, id).len() ==> #[trigger] intervals_without(s, id)[i].id != id,
        intervals_without(s, id) == s.filter(|e: IntervalEntry<F>| e.id != id),
    decreases s.len(),
{
    reveal(Seq::filter);
    if s.len() > 0 {
        law_clear_interval_removes_exactly(s.drop_last(), id);
    }
}

/// Taking due timeouts splits the queue by deadline: the timeouts taken are
/// exactly those whose time has come, the ones left exactly those still
/// ahead, each in queue order, and together they are all of them.
pub proof fn law_due_timeouts_split<F>(s: Seq<TimeoutEntry<F>>, now: u64)
    ensures
        due_timeouts(s, now) == s.filter(|e: TimeoutEntry<F>| e.fire_at <= now),
        later_timeouts(s, now) == s.filter(|e: TimeoutEntry<F>| e.fire_at > now),
        due_timeouts(s, now).len() + later_timeouts(s, now).len() == s.len(),
    decreases s.len(),
{
    reveal(Seq::filter);
    if s.len() > 0 {
        law_due_timeouts_split(s.drop_last(), now);
    }
}

/// Taking due intervals splits the queue by next firing time in the same
/// way.
pub proof fn law_due_intervals_split<F>(s: Seq<IntervalEntry<F>>, now: u64)
    ensures
        due_intervals(s, now) == s.filter(|e: IntervalEntry<F>| e.next_fire <= now),
        later_intervals(s, now) == s.filter(|e: IntervalEntry<F>| e.next_fire > now),
        due_intervals(s, now).len() + later_intervals(s, now).len() == s.len(),
    decreases s.len(),
{
    reveal(Seq::filter);
    if s.len() > 0 {
        law_due_intervals_split(s.drop_last(), now);
    }
}

/// The timeout id handed out after `id`: the next one, wrapping from 99
/// back to 1.
pub open spec fn next_timeout_id(id: u32) -> u32 {
    if id >= LAST_TIMEOUT_ID {
        FIRST_TIMEOUT_ID
    } else {
        (id + 1) as u32
    }
}

/// The timers of one request.
pub struct TimerState<F> {
    timeouts: Vec<TimeoutEntry<F>>,
    timeout_counter: u32,
    intervals: Vec<IntervalEntry<F>>,
    cleared_during_fire: Vec<u32>,
    interval_counter: u32,
}

impl<F> TimerState<F> {
    /// The pending timeouts, in queue order.
    pub closed spec fn timeouts(&self) -> Seq<TimeoutEntry<F>> {
        self.timeouts@
    }

    /// The pending intervals, in queue order.
    pub closed spec fn intervals(&self) -> Seq<IntervalEntry<F>> {
        self.intervals@
    }

    /// The ids of intervals cleared since the last batch of firings ended.
    pub closed spec fn cleared(&self) -> Seq<u32> {
        self.cleared_during_fire@
    }

    /// The id the next timeout gets.
    pub closed spec fn next_timeout(&self) -> u32 {
        self.timeout_counter
    }

    /// The id the next interval gets.
    pub closed spec fn next_interval(&self) -> u32 {
        self.interval_counter
    }

    /// Whether the next timeout id lies in 1..=99.
    pub open spec fn wf(&self) -> bool {
        FIRST_TIMEOUT_ID <= self.next_timeout() <= LAST_TIMEOUT_ID
    }

    /// No timers; the first timeout gets id 1 and the first interval 100.
    pub fn new() -> (r: Self)
        ensures
            r.wf(),
            r.timeouts().len() == 0,
            r.intervals().len() == 0,
            r.cleared().len() == 0,
            r.next_timeout() == FIRST_TIMEOUT_ID,
            r.next_interval() == FIRST_INTERVAL_ID,
    {
        TimerState {
            timeouts: Vec::new(),
            timeout_counter: FIRST_TIMEOUT_ID,
            intervals: Vec::new(),
            cleared_during_fire: Vec::new(),
            interval_counter: FIRST_INTERVAL_ID,
        }
    }

    /// Queues `func` to fire once at `now + delay_ms`, and answers its id.
    pub fn set_timeout(&mut self, func: F, now: u64, delay_ms: u64) -> (id: u32)
        requires
            old(self).wf(),
            now + delay_ms <= u64::MAX,
        ensures
            final(self).wf(),
            id == old(self).next_timeout(),
            final(self).next_timeout() == next_timeout_id(id),
            final(self).timeouts() == old(self).timeouts().push(
                TimeoutEntry { id, func, fire_at: (now + delay_ms) as u64 },
            ),
            final(self).intervals() == old(self).intervals(),
            final(self).cleared() == old(self).cleared(),
            final(self).next_interval() == old(self).next_interval(),
    {
        let id = self.timeout_counter;
        self.timeout_counter = if id >= LAST_TIMEOUT_ID {
            FIRST_TIMEOUT_ID
        } else {
            id + 1
        };
        self.timeouts.push(TimeoutEntry { id, func, fire_at: now + delay_ms });
        id
    }

    /// Queues `func` to fire every `interval_ms`, first at
    /// `now + interval_ms`, and answers its id.
    pub fn set_interval(&mut self, func: F, now: u64, interval_ms: u64) -> (id: u32)
        requires
            now + interval_ms <= u64::MAX,
        ensures
            id == old(self).next_interval(),
            final(self).next_interval() == vstd::wrapping::u32_specs::wrapping_add(id, 1),
            final(self).intervals() == old(self).intervals().push(
                IntervalEntry { id, func, interval_ms, next_fire: (now + interval_ms) as u64 },
            ),
            final(self).timeouts() == old(self).timeouts(),
            final(self).cleared() == old(self).cleared(),
            final(self).next_timeout() == old(self).next_timeout(),
    {
        let id = self.interval_counter;
        self.interval_counter = id.wrapping_add(1);
        self.intervals.push(IntervalEntry { id, func, interval_ms, next_fire: now + interval_ms });
        id
    }

    /// Drops every pending timeout with id `id`.
    pub fn clear_timeout(&mut self, id: u32)
        ensures
            final(self).timeouts() == timeouts_without(old(self).timeouts(), id),
            final(self).intervals() == old(self).intervals(),
            final(self).cleared() == old(self).cleared(),
            final(self).next_timeout() == old(self).next_timeout(),
            final(self).next_interval() == old(self).next_interval(),
    {
        let mut rest: Vec<TimeoutEntry<F>> = Vec::new();
        std::mem::swap(&mut rest, &mut self.timeouts);
        let ghost all = rest@;
        let mut kept: Vec<TimeoutEntry<F>> = Vec::new();
        let mut k: usize = 0;
        assert(all.len() == rest.len());
        assert(all.subrange(0, 0) =~= Seq::<TimeoutEntry<F>>::empty());
        assert(all.subrange(0, all.len() as int) =~= all);
        while rest.len() > 0
            invariant
                k <= all.len() <= usize::MAX,
                rest@ == all.subrange(k as int, all.len() as int),
                kept@ == timeouts_without(all.subrange(0, k as int), id),
            decreases rest@.len(),
        {
            let e = rest.remove(0);
            assert(all.subrange(0, k + 1).drop_last() =~= all.subrange(0, k as int));
            assert(all.subrange(k + 1, all.len() as int) =~= all.subrange(k as int, all.len() as int).drop_first());
            if e.id != id {
                kept.push(e);
            }
            k = k + 1;
        }
        assert(all.subrange(0, k as int) =~= all);
        self.timeouts = kept;
    }

    /// Drops every pending interval with id `id`, and remembers `id` as
    /// cleared so that a firing interval with that id is not queued again.
    pub fn clear_interval(&mut self, id: u32)
        ensures
            final(self).intervals() == intervals_without(old(self).intervals(), id),
            final(self).cleared() == if old(self).cleared().contains(id) {
                old(self).cleared()
            } else {
                old(self).cleared().push(id)
            },
            final(self).timeouts() == old(self).timeouts(),
            final(self).next_timeout() == old(self).next_timeout(),
            final(self).next_interval() == old(self).next_interval(),
    {
        let mut rest: Vec<IntervalEntry<F>> = Vec::new();
        std::mem::swap(&mut rest, &mut self.intervals);
        let ghost all = rest@;
        let mut kept: Vec<IntervalEntry<F>> = Vec::new();
        let mut k: usize = 0;
        assert(all.len() == rest.len());
        assert(all.subrange(0, 0) =~= Seq::<IntervalEntry<F>>::empty());
        assert(all.subrange(0, all.len() as int) =~= all);
        while rest.len() > 0
            invariant
                k <= all.len() <= usize::MAX,
                rest@ == all.subrange(k as int, all.len() as int),
                kept@ == intervals_without(all.subrange(0, k as int), id),
            decreases rest@.len(),
        {
            let e = rest.remove(0);
            assert(all.subrange(0, k + 1).drop_last() =~= all.subrange(0, k as int));
            assert(all.subrange(k + 1, all.len() as int) =~= all.subrange(k as int, all.len() as int).drop_first());
            if e.id != id {
                kept.push(e);
            }
            k = k + 1;
        }
        assert(all.subrange(0, k as int) =~= all);
        self.intervals = kept;
        if !self.is_cleared(id) {
            self.cleared_during_fire.push(id);
        }
    }

    /// Whether `id` was cleared since the last batch of firings ended.
    fn is_cleared(&self, id: u32) -> (r: bool)
        ensures
            r == self.cleared().contains(id),
    {
        let mut i: usize = 0;
        while i < self.cleared_during_fire.len()
            invariant
                i <= self.cleared_during_fire@.len(),
                forall|j: int| 0 <= j < i ==> self.cleared_during_fire@[j] != id,
            decreases self.cleared_during_fire@.len() - i,
        {
            if self.cleared_during_fire[i] == id {
                assert(self.cleared_during_fire@[i as int] == id);
                return true;
            }
            i = i + 1;
        }
        false
    }

    /// Removes and answers the timeouts due at `now`, in queue order; the
    /// others stay queued in order.
    pub fn take_due_timeouts(&mut self, now: u64) -> (due: Vec<TimeoutEntry<F>>)
        ensures
            due@ == due_timeouts(old(self).timeouts(), now),
            final(self).timeouts() == later_timeouts(old(self).timeouts(), now),
            final(self).intervals() == old(self).intervals(),
            final(self).cleared() == old(self).cleared(),
            final(self).next_timeout() == old(self).next_timeout(),
            final(self).next_interval() == old(self).next_interval(),
    {
        let mut rest: Vec<TimeoutEntry<F>> = Vec::new();
        std::mem::swap(&mut rest, &mut self.timeouts);
        let ghost all = rest@;
        let mut due: Vec<TimeoutEntry<F>> = Vec::new();
        let mut later: Vec<TimeoutEntry<F>> = Vec::new();
        let mut k: usize = 0;
        assert(all.len() == rest.len());
        assert(all.subrange(0, 0) =~= Seq::<TimeoutEntry<F>>::empty());
        assert(all.subrange(0, all.len() as int) =~= all);
        while rest.len() > 0
            invariant
                k <= all.len() <= usize::MAX,
                rest@ == all.subrange(k as int, all.len() as int),
                due@ == due_timeouts(all.subrange(0, k as int), now),
                later@ == later_timeouts(all.subrange(0, k as int), now),
            decreases rest@.len(),
        {
            let e = rest.remove(0);
            assert(all.subrange(0, k + 1).drop_last() =~= all.subrange(0, k as int));
            assert(all.subrange(k + 1, all.len() as int) =~= all.subrange(k as int, all.len() as int).drop_first());
            if now >= e.fire_at {
                due.push(e);
            } else {
                later.push(e);
            }
            k = k + 1;
        }
        assert(all.subrange(0, k as int) =~= all);
        self.timeouts = later;
        due
    }

    /// Queues again, after the pending ones, timeouts whose callback could
    /// not run.
    pub fn requeue_timeouts(&mut self, failed: Vec<TimeoutEntry<F>>)
        ensures
            final(self).timeouts() == old(self).timeouts() + failed@,
            final(self).intervals() == old(self).intervals(),
            final(self).cleared() == old(self).cleared(),
            final(self).next_timeout() == old(self).next_timeout(),
            final(self).next_interval() == old(self).next_interval(),
    {
        let mut failed = failed;
        self.timeouts.append(&mut failed);
    }

    /// Removes and answers the intervals due at `now`, in queue order; the
    /// others stay queued in order.
    pub fn take_due_intervals(&mut self, now: u64) -> (due: Vec<IntervalEntry<F>>)
        ensures
            due@ == due_intervals(old(self).intervals(), now),
            final(self).intervals() == later_intervals(old(self).intervals(), now),
            final(self).timeouts() == old(self).timeouts(),
            final(self).cleared() == old(self).cleared(),
            final(self).next_timeout() == old(self).next_timeout(),
            final(self).next_interval() == old(self).next_interval(),
    {
        let mut rest: Vec<IntervalEntry<F>> = Vec::new();
        std::mem::swap(&mut rest, &mut self.intervals);
        let ghost all = rest@;
        let mut due: Vec<IntervalEntry<F>> = Vec::new();
        let mut later: Vec<IntervalEntry<F>> = Vec::new();
        let mut k: usize = 0;
        assert(all.len() == rest.len());
        assert(all.subrange(0, 0) =~= Seq::<IntervalEntry<F>>::empty());
        assert(all.subrange(0, all.len() as int) =~= all);
        while rest.len() > 0
            invariant
                k <= all.len() <= usize::MAX,
                rest@ == all.subrange(k as int, all.len() as int),
                due@ == due_intervals(all.subrange(0, k as int), now),
                later@ == later_intervals(all.subrange(0, k as int), now),
            decreases rest@.len(),
        {
            let e = rest.remove(0);
            assert(all.subrange(0, k + 1).drop_last() =~= all.subrange(0, k as int));
            assert(all.subrange(k + 1, all.len() as int) =~= all.subrange(k as int, all.len() as int).drop_first());
            if now >= e.next_fire {
                due.push(e);
            } else {
                later.push(e);
            }
            k = k + 1;
        }
        assert(all.subrange(0, k as int) =~= all);
        self.intervals = later;
        due
    }

    /// After an interval's callback ran at `now`: queues it again, due
    /// `interval_ms` later, unless its id was cleared meanwhile.
    pub fn reschedule_interval(&mut self, entry: IntervalEntry<F>, now: u64)
        requires
            now + entry.interval_ms <= u64::MAX,
        ensures
            final(self).intervals() == if old(self).cleared().contains(entry.id) {
                old(self).intervals()
            } else {
                old(self).intervals().push(
                    IntervalEntry { next_fire: (now + entry.interval_ms) as u64, ..entry },
                )
            },
            final(self).timeouts() == old(self).timeouts(),
            final(self).cleared() == old(self).cleared(),
            final(self).next_timeout() == old(self).next_timeout(),
            final(self).next_interval() == old(self).next_interval(),
    {
        if !self.is_cleared(entry.id) {
            let mut entry = entry;
            entry.next_fire = now + entry.interval_ms;
            self.intervals.push(entry);
        }
    }

    /// Ends a batch of interval firings: forgets which ids were cleared.
    pub fn end_interval_batch(&mut self)
        ensures
            final(self).cleared().len() == 0,
            final(self).intervals() == old(self).intervals(),
            final(self).timeouts() == old(self).timeouts(),
            final(self).next_timeout() == old(self).next_timeout(),
            final(self).next_interval() == old(self).next_interval(),
    {
        self.cleared_during_fire.clear();
    }

    /// Forgets all intervals and cleared ids; the next interval gets id 100.
    pub fn clear_pending_intervals(&mut self)
        ensures
            final(self).intervals().len() == 0,
            final(self).cleared().len() == 0,
            final(self).next_interval() == FIRST_INTERVAL_ID,
            final(self).timeouts() == old(self).timeouts(),
            final(self).next_timeout() == old(self).next_timeout(),
    {
        self.intervals.clear();
        self.cleared_during_fire.clear();
        self.interval_counter = FIRST_INTERVAL_ID;
    }

    /// Forgets all timeouts; the next timeout gets id 1.
    pub fn clear_pending_timeouts(&mut self)
        ensures
            final(self).wf(),
            final(self).timeouts().len() == 0,
            final(self).next_timeout() == FIRST_TIMEOUT_ID,
            final(self).intervals() == old(self).intervals(),
            final(self).cleared() == old(self).cleared(),
            final(self).next_interval() == old(self).next_interval(),
    {
        self.timeouts.clear();
        self.timeout_counter = FIRST_TIMEOUT_ID;
    }
}

} // verus!
