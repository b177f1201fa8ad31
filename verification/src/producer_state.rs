//! The state that all producers share: the counter that assigns task ids and
//! the flag that tells producers whether to go on.
//!
//! Callers keep one `ProducerState` behind a lock. Whatever the producers do
//! in parallel then reaches the state as a sequence of calls, one per
//! acquisition of the lock; the laws of this module speak of such sequences.

use vstd::prelude::*;

verus! {

/// What a `ProducerState` stands for: the id that the next reservation gets,
/// and whether reservations are still granted.
pub struct ProducerStateView {
    pub next_id: nat,
    pub producing: bool,
}

/// One call that reaches the shared state.
pub enum CounterOp {
    /// A producer asks for an id (`get_next_id`, `try_reserve_next`).
    Reserve,
    /// The supervisor asks producers to stop (`request_stop`).
    Stop,
}

impl ProducerStateView {
    /// The state before anything was reserved.
    pub open spec fn initial() -> Self {
        ProducerStateView { next_id: 0, producing: true }
    }

    /// The id that a reservation gets in this state, if it gets one.
    pub open spec fn granted(self) -> Option<nat> {
        if self.producing {
            Some(self.next_id)
        } else {
            None
        }
    }

    /// The state after a reservation.
    pub open spec fn after_reserve(self) -> Self {
        if self.producing {
            ProducerStateView { next_id: self.next_id + 1, producing: true }
        } else {
            self
        }
    }

    /// The state after a request to stop.
    pub open spec fn after_stop(self) -> Self {
        ProducerStateView { next_id: self.next_id, producing: false }
    }

    /// The state after one call.
    pub open spec fn after(self, op: CounterOp) -> Self {
        match op {
            CounterOp::Reserve => self.after_reserve(),
            CounterOp::Stop => self.after_stop(),
        }
    }

    /// The id that one call is assigned in this state, if it is assigned one.
    pub open spec fn assigns(self, op: CounterOp) -> Option<nat> {
        match op {
            CounterOp::Reserve => self.granted(),
            CounterOp::Stop => None,
        }
    }

    /// The state after a sequence of calls, first call first.
    pub open spec fn after_all(self, ops: Seq<CounterOp>) -> Self
        decreases ops.len(),
    {
        if ops.len() == 0 {
            self
        } else {
            self.after_all(ops.drop_last()).after(ops.last())
        }
    }

    /// The ids that a sequence of calls assigns, in the order of assignment.
    pub open spec fn assigned(self, ops: Seq<CounterOp>) -> Seq<nat>
        decreases ops.len(),
    {
        if ops.len() == 0 {
            Seq::empty()
        } else {
            let before = self.after_all(ops.drop_last());
            let earlier = self.assigned(ops.drop_last());
            match before.assigns(ops.last()) {
                Some(id) => earlier.push(id),
                None => earlier,
            }
        }
    }
}

/// The shared id counter and shutdown flag.
#[derive(Debug)]
pub struct ProducerState {
    next_id: u64,
    producer_flag: bool,
}

impl View for ProducerState {
    type V = ProducerStateView;

    closed spec fn view(&self) -> ProducerStateView {
        ProducerStateView { next_id: self.next_id as nat, producing: self.producer_flag }
    }
}

impl ProducerState {
    /// A counter that starts at id 0 and grants reservations.
    pub fn new() -> (state: Self)
        ensures
            state@ == ProducerStateView::initial(),
    {
        ProducerState { next_id: 0, producer_flag: true }
    }

    /// Checks the flag and takes the next id in one step: `None` once a stop
    /// was requested, and then nothing changes; else the id, and the counter
    /// moves on. No id is handed out twice. A counter that still grants
    /// reservations has no id left once it has reached `u64::MAX`.
    pub fn get_next_id(&mut self) -> (id: Option<u64>)
        requires
            old(self)@.producing ==> old(self)@.next_id < u64::MAX,
        ensures
            final(self)@ == old(self)@.after_reserve(),
            match id {
                Some(id) => old(self)@.granted() == Some(id as nat),
                None => old(self)@.granted() is None,
            },
    {
        if !self.producer_flag {
            None
        } else {
            let id = self.next_id;
            self.next_id = self.next_id + 1;
            Some(id)
        }
    }

    /// Reserves the next id for a producer: `get_next_id` under the name
    /// that says what a producer asks for.
    pub fn try_reserve_next(&mut self) -> (reserved: Option<u64>)
        requires
            old(self)@.producing ==> old(self)@.next_id < u64::MAX,
        ensures
            final(self)@ == old(self)@.after_reserve(),
            match reserved {
                Some(id) => old(self)@.granted() == Some(id as nat),
                None => old(self)@.granted() is None,
            },
    {
        self.get_next_id()
    }

    /// Tells producers to stop: from now on no reservation is granted. A
    /// second request changes nothing.
    pub fn request_stop(&mut self)
        ensures
            final(self)@ == old(self)@.after_stop(),
    {
        self.producer_flag = false;
    }

    /// Whether reservations are still granted.
    pub fn is_producing(&self) -> (producing: bool)
        ensures
            producing == self@.producing,
    {
        self.producer_flag
    }

    /// The id that the next reservation would get.
    pub fn next_id(&self) -> (id: u64)
        ensures
            id == self@.next_id,
    {
        self.next_id
    }
}

impl Default for ProducerState {
    fn default() -> (state: Self)
        ensures
            state@ == ProducerStateView::initial(),
    {
        ProducerState::new()
    }
}

/// The counter never runs backwards, and a call moves it by one at most.
pub proof fn lemma_counter_is_monotonic(start: ProducerStateView, ops: Seq<CounterOp>)
    ensures
        start.next_id <= start.after_all(ops).next_id <= start.next_id + ops.len(),
        start.after_all(ops).next_id == start.next_id + start.assigned(ops).len(),
    decreases ops.len(),
{
    if ops.len() > 0 {
        lemma_counter_is_monotonic(start, ops.drop_last());
    }
}

/// Every id that a sequence of calls assigns lies between the counter before
/// the calls and the counter after them.
pub proof fn lemma_assigned_ids_are_fresh(start: ProducerStateView, ops: Seq<CounterOp>, i: int)
    requires
        0 <= i < start.assigned(ops).len(),
    ensures
        start.next_id <= start.assigned(ops)[i] < start.after_all(ops).next_id,
    decreases ops.len(),
{
    if ops.len() > 0 {
        let earlier = start.assigned(ops.drop_last());
        lemma_counter_is_monotonic(start, ops.drop_last());
        if i < earlier.len() {
            lemma_assigned_ids_are_fresh(start, ops.drop_last(), i);
        }
    }
}

/// Uniqueness and monotonicity of ids: in the order of assignment the ids are
/// strictly increasing, so no two tasks share one, however many producers
/// made the calls and in whatever order their calls arrived.
pub proof fn lemma_assigned_ids_increase(
    start: ProducerStateView,
    ops: Seq<CounterOp>,
    i: int,
    j: int,
)
    requires
        0 <= i < j < start.assigned(ops).len(),
    ensures
        start.assigned(ops)[i] < start.assigned(ops)[j],
    decreases ops.len(),
{
    if ops.len() > 0 {
        let earlier = start.assigned(ops.drop_last());
        if j < earlier.len() {
            lemma_assigned_ids_increase(start, ops.drop_last(), i, j);
        } else {
            lemma_assigned_ids_are_fresh(start, ops.drop_last(), i);
        }
    }
}

/// The flag falls once and never rises: after a request to stop, whatever
/// calls follow, reservations stay refused and the counter stays where it
/// was.
pub proof fn lemma_stop_is_final(start: ProducerStateView, ops: Seq<CounterOp>)
    requires
        !start.producing,
    ensures
        start.after_all(ops) == start,
    decreases ops.len(),
{
    if ops.len() > 0 {
        lemma_stop_is_final(start, ops.drop_last());
    }
}

/// Silence after shutdown: once a stop was requested, no call that follows
/// is assigned an id, and the counter stays where it was.
pub proof fn lemma_no_id_after_stop(start: ProducerStateView, ops: Seq<CounterOp>)
    ensures
        start.after_stop().assigned(ops) == Seq::<nat>::empty(),
        start.after_stop().after_all(ops) == start.after_stop(),
    decreases ops.len(),
{
    if ops.len() > 0 {
        lemma_no_id_after_stop(start, ops.drop_last());
    }
}

/// A second request to stop changes nothing.
pub proof fn lemma_stop_is_idempotent(state: ProducerStateView)
    ensures
        state.after_stop().after_stop() == state.after_stop(),
{
}

} // verus!
