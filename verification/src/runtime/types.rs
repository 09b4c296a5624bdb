//! Timer ids and handles, and abort signal state with its registry.

use vstd::prelude::*;
use std::collections::HashMap;

verus! {

broadcast use vstd::std_specs::hash::group_hash_axioms;

/// A timer id.
#[derive(Debug)]
pub struct TimerId(pub u64);

impl TimerId {
    /// A fresh id from `counter`: its current value, which then advances.
    pub fn new(counter: &mut TimerIdCounter) -> (r: TimerId)
        requires
            old(counter).next() < u64::MAX,
        ensures
            r.0 == old(counter).next(),
            1 <= r.0 < final(counter).next(),
            final(counter).next() == old(counter).next() + 1,
    {
        counter.take()
    }

    /// The numeric value of the id.
    pub fn value(&self) -> (r: u64)
        ensures
            r == self.0,
    {
        self.0
    }
}

impl Clone for TimerId {
    fn clone(&self) -> (r: Self)
        ensures
            r == *self,
    {
        TimerId(self.0)
    }
}

impl Copy for TimerId {}

/// The source of timer ids: 1, 2, 3, and so on.
pub struct TimerIdCounter {
    next: u64,
}

impl TimerIdCounter {
    /// The id handed out next.
    pub closed spec fn next(&self) -> u64 {
        self.next
    }

    /// Ids start at 1 and only grow.
    #[verifier::type_invariant]
    closed spec fn starts_at_one(&self) -> bool {
        self.next >= 1
    }

    /// A counter whose first id is 1.
    pub fn new() -> (r: TimerIdCounter)
        ensures
            r.next() == 1,
    {
        TimerIdCounter { next: 1 }
    }

    /// Hands out the current id and advances.
    fn take(&mut self) -> (r: TimerId)
        requires
            old(self).next() < u64::MAX,
        ensures
            r.0 == old(self).next(),
            1 <= r.0,
            final(self).next() == old(self).next() + 1,
    {
        proof {
            use_type_invariant(&*self);
        }
        let id = self.next;
        self.next = id + 1;
        TimerId(id)
    }
}

/// An active timer: its id, whether it repeats, and whether it was
/// cancelled.
#[derive(Debug)]
pub struct TimerHandle {
    pub id: TimerId,
    pub is_interval: bool,
    pub cancelled: bool,
}

impl TimerHandle {
    /// Marks the timer cancelled.
    pub fn cancel(&mut self)
        ensures
            final(self).cancelled,
            final(self).id == old(self).id,
            final(self).is_interval == old(self).is_interval,
    {
        self.cancelled = true;
    }

    /// Whether the timer was cancelled.
    pub fn is_cancelled(&self) -> (r: bool)
        ensures
            r == self.cancelled,
    {
        self.cancelled
    }
}

/// The state of an abort signal: whether it fired, and with what reason.
#[derive(Debug)]
pub struct AbortSignalState {
    pub aborted: bool,
    pub reason: Option<String>,
}

/// The view of an optional string.
pub open spec fn reason_view(r: Option<String>) -> Option<Seq<char>> {
    match r {
        Some(s) => Some(s@),
        None => None,
    }
}

impl AbortSignalState {
    /// A signal that has not fired.
    pub fn new() -> (r: Self)
        ensures
            !r.aborted,
            r.reason is None,
    {
        AbortSignalState { aborted: false, reason: None }
    }

    /// Fires the signal with `reason`.
    pub fn abort(&mut self, reason: Option<String>)
        ensures
            final(self).aborted,
            reason_view(final(self).reason) == reason_view(reason),
    {
        self.aborted = true;
        self.reason = reason;
    }

    /// Whether the signal fired.
    pub fn is_aborted(&self) -> (r: bool)
        ensures
            r == self.aborted,
    {
        self.aborted
    }

    /// The reason given when the signal fired.
    pub fn get_reason(&self) -> (r: Option<String>)
        ensures
            reason_view(r) == reason_view(self.reason),
    {
        match &self.reason {
            Some(s) => Some(s.clone()),
            None => None,
        }
    }
}

impl Clone for AbortSignalState {
    fn clone(&self) -> (r: Self)
        ensures
            r.aborted == self.aborted,
            reason_view(r.reason) == reason_view(self.reason),
    {
        AbortSignalState { aborted: self.aborted, reason: self.get_reason() }
    }
}

impl Default for AbortSignalState {
    fn default() -> (r: Self)
        ensures
            !r.aborted,
            r.reason is None,
    {
        AbortSignalState::new()
    }
}

/// The mathematical value of a signal state.
pub struct SignalView {
    pub aborted: bool,
    pub reason: Option<Seq<char>>,
}

/// The view of a signal state.
pub open spec fn signal_view(s: AbortSignalState) -> SignalView {
    SignalView { aborted: s.aborted, reason: reason_view(s.reason) }
}

/// Abort signal states by id; ids are handed out from 1 upwards.
pub struct AbortRegistry {
    states: HashMap<u64, AbortSignalState>,
    next_id: u64,
}

impl AbortRegistry {
    /// The registered states by id.
    pub closed spec fn signals(&self) -> Map<u64, SignalView> {
        Map::new(|id: u64| self.states@.contains_key(id), |id: u64| signal_view(self.states@[id]))
    }

    /// The id handed out next.
    pub closed spec fn next(&self) -> u64 {
        self.next_id
    }

    /// Whether every registered id lies in 1 up to the next id.
    pub closed spec fn wf(&self) -> bool {
        &&& self.next_id >= 1
        &&& forall|id: u64| self.states@.contains_key(id) ==> 1 <= id < self.next_id
    }

    /// An empty registry; the first id is 1.
    pub fn new() -> (r: Self)
        ensures
            r.wf(),
            r.signals() == Map::<u64, SignalView>::empty(),
            r.next() == 1,
    {
        let r = AbortRegistry { states: HashMap::new(), next_id: 1 };
        assert(r.signals() =~= Map::<u64, SignalView>::empty());
        r
    }
}

/// Registers `state` under a fresh id and answers the id.
pub fn register_abort_state(registry: &mut AbortRegistry, state: AbortSignalState) -> (id: u64)
    requires
        old(registry).wf(),
        old(registry).next() < u64::MAX,
    ensures
        final(registry).wf(),
        id == old(registry).next(),
        !old(registry).signals().contains_key(id),
        final(registry).signals() == old(registry).signals().insert(id, signal_view(state)),
        final(registry).next() == id + 1,
{
    let id = registry.next_id;
    registry.next_id = id + 1;
    let ghost sv = signal_view(state);
    registry.states.insert(id, state);
    assert(registry.signals() =~= old(registry).signals().insert(id, sv));
    id
}

/// A copy of the state registered under `id`, if any.
pub fn get_abort_state(registry: &AbortRegistry, id: u64) -> (r: Option<AbortSignalState>)
    ensures
        match r {
            Some(s) => registry.signals().contains_key(id) && signal_view(s) == registry.signals()[id],
            None => !registry.signals().contains_key(id),
        },
{
    match registry.states.get(&id) {
        Some(s) => Some(s.clone()),
        None => None,
    }
}

/// Forgets the state registered under `id`.
pub fn remove_abort_state(registry: &mut AbortRegistry, id: u64)
    requires
        old(registry).wf(),
    ensures
        final(registry).wf(),
        final(registry).signals() == old(registry).signals().remove(id),
        final(registry).next() == old(registry).next(),
{
    registry.states.remove(&id);
    assert(registry.signals() =~= old(registry).signals().remove(id));
}

/// Removal is targeted: after removing `id`, every other id answers what it
/// answered before, and removing an id that is not registered changes
/// nothing.
pub proof fn law_remove_keeps_other_states(a: &AbortRegistry, id: u64, b: &AbortRegistry, other: u64)
    requires
        b.signals() == a.signals().remove(id),
    ensures
        !b.signals().contains_key(id),
        other != id ==> b.signals().contains_key(other) == a.signals().contains_key(other),
        other != id && a.signals().contains_key(other) ==> b.signals()[other] == a.signals()[other],
        !a.signals().contains_key(id) ==> b.signals() == a.signals(),
{
    if !a.signals().contains_key(id) {
        assert(a.signals().remove(id) =~= a.signals());
    }
}

} // verus!
