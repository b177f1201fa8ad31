//! The pipeline as a whole: the id counter, the queue, the accumulator and
//! any number of workers, taking turns.
//!
//! Each shared part sits behind its own lock, and a worker touches one part
//! at a time, so a run is a sequence of turns: a turn is one worker doing the
//! one thing its phase asks for, or the supervisor requesting the stop or
//! closing the queue. A turn that would have to wait (a push on a full
//! queue, a pop on an empty one) changes nothing and is taken again later.
//! The laws of this module hold of every such sequence, that is, of every
//! way in which the workers may interleave.

use crate::processor::applied;
use crate::processor::folded;
use crate::producer_state::ProducerStateView;
use crate::queue::QueueView;
use crate::task::Task;
use crate::task::TaskType;
use crate::worker::ConsumerEvent;
use crate::worker::ConsumerPhase;
use crate::worker::ProducerAction;
use crate::worker::ProducerEvent;
use crate::worker::ProducerPhase;
use std::ops::Add;
use std::ops::Mul;
use std::ops::Sub;
use vstd::multiset::Multiset;
use vstd::prelude::*;

verus! {

/// A producer, the task that it has built and not yet pushed, and the tasks
/// that it has pushed, in the order in which the queue took them.
pub struct ProducerSlot<V> {
    pub phase: ProducerPhase,
    pub in_hand: Option<Task<V>>,
    pub pushed: Seq<Task<V>>,
}

/// A consumer and the task that it has popped and not yet applied.
pub struct ConsumerSlot<V> {
    pub phase: ConsumerPhase,
    pub in_hand: Option<Task<V>>,
}

/// The state of a run.
pub struct Pipeline<V> {
    /// The id that the counter began at.
    pub first_id: nat,
    /// The shared id counter and shutdown flag.
    pub counter: ProducerStateView,
    /// The bounded queue.
    pub queue: QueueView<Task<V>>,
    /// The producers.
    pub producers: Seq<ProducerSlot<V>>,
    /// The consumers.
    pub consumers: Seq<ConsumerSlot<V>>,
    /// What the accumulator held when the run began.
    pub origin: V,
    /// What the accumulator holds.
    pub accumulator: V,
    /// The tasks that the queue has taken, in the order of the pushes.
    pub pushed: Seq<Task<V>>,
    /// The tasks that were applied to the accumulator, in the order in which
    /// they were applied.
    pub consumed: Seq<Task<V>>,
}

/// One turn of a run.
pub enum Turn<V> {
    /// The producer `index` takes its turn. Where it is about to build a
    /// task, these are the operation and the operand drawn for it, and the
    /// clock reading.
    Producer { index: int, task_type: TaskType, num: V, now: u128 },
    /// The consumer `index` takes its turn.
    Consumer { index: int },
    /// The supervisor tells the id counter to stop.
    RequestStop,
    /// The supervisor closes the producer side of the queue.
    CloseQueue,
}

/// The tasks that one consumer holds: one or none.
pub open spec fn in_hand_of<V>(slot: ConsumerSlot<V>) -> Multiset<Task<V>> {
    match slot.in_hand {
        Some(task) => Multiset::singleton(task),
        None => Multiset::empty(),
    }
}

/// The id that a producer holds: reserved, and neither pushed nor dropped
/// yet.
pub open spec fn id_held_by<V>(slot: ProducerSlot<V>) -> Option<u64> {
    match slot.phase {
        ProducerPhase::Generating { id } => Some(id),
        ProducerPhase::Pushing => match slot.in_hand {
            Some(task) => Some(task.id),
            None => None,
        },
        _ => None,
    }
}

/// Whether the producer holds `id`, as a number: one or none.
pub open spec fn holds<V>(slot: ProducerSlot<V>, id: u64) -> nat {
    if id_held_by(slot) == Some(id) {
        1
    } else {
        0
    }
}

/// How many of the producers hold `id`.
pub open spec fn holders<V>(producers: Seq<ProducerSlot<V>>, id: u64) -> nat
    decreases producers.len(),
{
    if producers.len() == 0 {
        0
    } else {
        holders(producers.drop_last(), id) + holds(producers.last(), id)
    }
}

/// How many of the tasks carry `id`.
pub open spec fn carriers<V>(tasks: Seq<Task<V>>, id: u64) -> nat
    decreases tasks.len(),
{
    if tasks.len() == 0 {
        0
    } else {
        carriers(tasks.drop_last(), id) + if tasks.last().id == id {
            1nat
        } else {
            0nat
        }
    }
}

/// Whether the ids of the tasks that a producer pushed rise in the order of
/// its pushes, with the id that it holds above them all and every one of
/// them below `limit`.
pub open spec fn rises<V>(slot: ProducerSlot<V>, limit: nat) -> bool {
    &&& forall|a: int, b: int|
        0 <= a < b < slot.pushed.len() ==> (#[trigger] slot.pushed[a]).id < (
        #[trigger] slot.pushed[b]).id
    &&& forall|a: int| 0 <= a < slot.pushed.len() ==> (#[trigger] slot.pushed[a]).id < limit
    &&& id_held_by(slot) matches Some(held) ==> held < limit && forall|a: int|
        0 <= a < slot.pushed.len() ==> (#[trigger] slot.pushed[a]).id < held
}

/// How many turns a producer has left once the run is shut down.
pub open spec fn producer_rank(phase: ProducerPhase) -> nat {
    match phase {
        ProducerPhase::Stopped => 0,
        ProducerPhase::Reserving => 1,
        ProducerPhase::Pushing => 1,
        ProducerPhase::Generating { .. } => 2,
        ProducerPhase::Resting => 2,
    }
}

/// How many turns a consumer has left once the run is shut down and the
/// queue is empty.
pub open spec fn consumer_rank(phase: ConsumerPhase) -> nat {
    match phase {
        ConsumerPhase::Stopped => 0,
        ConsumerPhase::Popping => 1,
        ConsumerPhase::Resting => 2,
        ConsumerPhase::Processing => 3,
    }
}

/// How many turns the producers have left together.
pub open spec fn producer_turns_left<V>(producers: Seq<ProducerSlot<V>>) -> nat
    decreases producers.len(),
{
    if producers.len() == 0 {
        0
    } else {
        producer_turns_left(producers.drop_last()) + producer_rank(producers.last().phase)
    }
}

/// How many turns the consumers have left together, apart from what the
/// queue still holds for them.
pub open spec fn consumer_turns_left<V>(consumers: Seq<ConsumerSlot<V>>) -> nat
    decreases consumers.len(),
{
    if consumers.len() == 0 {
        0
    } else {
        consumer_turns_left(consumers.drop_last()) + consumer_rank(consumers.last().phase)
    }
}

/// How many of the consumers have not stopped.
pub open spec fn running_consumers<V>(consumers: Seq<ConsumerSlot<V>>) -> nat
    decreases consumers.len(),
{
    if consumers.len() == 0 {
        0
    } else {
        running_consumers(consumers.drop_last()) + if consumers.last().phase
            == ConsumerPhase::Stopped {
            0nat
        } else {
            1nat
        }
    }
}

/// The tasks that one consumer holds, as a sequence: one or none.
pub open spec fn held_by<V>(slot: ConsumerSlot<V>) -> Seq<Task<V>> {
    match slot.in_hand {
        Some(task) => seq![task],
        None => Seq::empty(),
    }
}

/// The tasks that the consumers hold between a pop and the accumulator.
pub open spec fn in_hands<V>(consumers: Seq<ConsumerSlot<V>>) -> Multiset<Task<V>>
    decreases consumers.len(),
{
    if consumers.len() == 0 {
        Multiset::empty()
    } else {
        in_hands(consumers.drop_last()).add(in_hand_of(consumers.last()))
    }
}

impl<V: Add<Output = V> + Sub<Output = V> + Mul<Output = V>> Pipeline<V> {
    /// A run at its start: the counter at `first_id` and granting, an open
    /// and empty queue, every worker at the start of its loop. A new
    /// `ProducerState` begins at 0.
    pub open spec fn initial(
        first_id: nat,
        capacity: nat,
        producers: nat,
        consumers: nat,
        origin: V,
    ) -> Self {
        Pipeline {
            first_id,
            counter: ProducerStateView { next_id: first_id, producing: true },
            queue: QueueView::empty(capacity),
            producers: Seq::new(
                producers,
                |i: int|
                    ProducerSlot {
                        phase: ProducerPhase::Reserving,
                        in_hand: None,
                        pushed: Seq::empty(),
                    },
            ),
            consumers: Seq::new(
                consumers,
                |i: int| ConsumerSlot { phase: ConsumerPhase::Popping, in_hand: None },
            ),
            origin,
            accumulator: origin,
            pushed: Seq::empty(),
            consumed: Seq::empty(),
        }
    }

    /// The run with the producer `index` replaced.
    pub open spec fn with_producer(self, index: int, slot: ProducerSlot<V>) -> Self {
        Pipeline { producers: self.producers.update(index, slot), ..self }
    }

    /// The run with the consumer `index` replaced.
    pub open spec fn with_consumer(self, index: int, slot: ConsumerSlot<V>) -> Self {
        Pipeline { consumers: self.consumers.update(index, slot), ..self }
    }

    /// The run after the producer `index` took its turn. A producer that
    /// asks for an id when the counter has none left goes no further.
    pub open spec fn after_producer(self, index: int, task_type: TaskType, num: V, now: u128) -> Self {
        if 0 <= index < self.producers.len() {
            let slot = self.producers[index];
            match slot.phase {
                ProducerPhase::Reserving => {
                    if self.counter.producing && self.counter.next_id >= u64::MAX {
                        self
                    } else {
                        let reserved = match self.counter.granted() {
                            Some(id) => Some(id as u64),
                            None => None,
                        };
                        let event = ProducerEvent::<V>::Reserved(reserved);
                        Pipeline {
                            counter: self.counter.after_reserve(),
                            ..self.with_producer(
                                index,
                                ProducerSlot {
                                    phase: slot.phase.after(event),
                                    in_hand: None,
                                    pushed: slot.pushed,
                                },
                            )
                        }
                    }
                },
                ProducerPhase::Generating { id } => {
                    let event = ProducerEvent::Generated { task_type, num, now };
                    match slot.phase.next(event) {
                        Some((phase, ProducerAction::Push(task))) => self.with_producer(
                            index,
                            ProducerSlot { phase, in_hand: Some(task), pushed: slot.pushed },
                        ),
                        _ => self,
                    }
                },
                ProducerPhase::Pushing => {
                    match slot.in_hand {
                        Some(task) => {
                            if self.queue.closed {
                                let event = ProducerEvent::<V>::Pushed { accepted: false };
                                self.with_producer(
                                    index,
                                    ProducerSlot {
                                        phase: slot.phase.after(event),
                                        in_hand: None,
                                        pushed: slot.pushed,
                                    },
                                )
                            } else if self.queue.full() {
                                self
                            } else {
                                let event = ProducerEvent::<V>::Pushed { accepted: true };
                                Pipeline {
                                    queue: self.queue.after_push(task),
                                    pushed: self.pushed.push(task),
                                    ..self.with_producer(
                                        index,
                                        ProducerSlot {
                                            phase: slot.phase.after(event),
                                            in_hand: None,
                                            pushed: slot.pushed.push(task),
                                        },
                                    )
                                }
                            }
                        },
                        None => self,
                    }
                },
                ProducerPhase::Resting => self.with_producer(
                    index,
                    ProducerSlot {
                        phase: slot.phase.after(ProducerEvent::<V>::Rested),
                        in_hand: None,
                        pushed: slot.pushed,
                    },
                ),
                ProducerPhase::Stopped => self,
            }
        } else {
            self
        }
    }

    /// The run after the consumer `index` took its turn.
    pub open spec fn after_consumer(self, index: int) -> Self {
        if 0 <= index < self.consumers.len() {
            let slot = self.consumers[index];
            match slot.phase {
                ConsumerPhase::Popping => {
                    match self.queue.front() {
                        Some(task) => Pipeline {
                            queue: self.queue.after_pop(),
                            ..self.with_consumer(
                                index,
                                ConsumerSlot {
                                    phase: slot.phase.after(ConsumerEvent::Popped(Some(task))),
                                    in_hand: Some(task),
                                },
                            )
                        },
                        None => if self.queue.closed {
                            self.with_consumer(
                                index,
                                ConsumerSlot {
                                    phase: slot.phase.after(ConsumerEvent::<V>::Popped(None)),
                                    in_hand: None,
                                },
                            )
                        } else {
                            self
                        },
                    }
                },
                ConsumerPhase::Processing => {
                    match slot.in_hand {
                        Some(task) => Pipeline {
                            accumulator: applied(self.accumulator, task),
                            consumed: self.consumed.push(task),
                            ..self.with_consumer(
                                index,
                                ConsumerSlot {
                                    phase: slot.phase.after(ConsumerEvent::<V>::Processed),
                                    in_hand: None,
                                },
                            )
                        },
                        None => self,
                    }
                },
                ConsumerPhase::Resting => self.with_consumer(
                    index,
                    ConsumerSlot {
                        phase: slot.phase.after(ConsumerEvent::<V>::Rested),
                        in_hand: None,
                    },
                ),
                ConsumerPhase::Stopped => self,
            }
        } else {
            self
        }
    }

    /// The run after one turn.
    pub open spec fn after(self, turn: Turn<V>) -> Self {
        match turn {
            Turn::Producer { index, task_type, num, now } => self.after_producer(
                index,
                task_type,
                num,
                now,
            ),
            Turn::Consumer { index } => self.after_consumer(index),
            Turn::RequestStop => Pipeline { counter: self.counter.after_stop(), ..self },
            Turn::CloseQueue => Pipeline { queue: self.queue.after_close(), ..self },
        }
    }

    /// The run after a sequence of turns, first turn first.
    pub open spec fn after_all(self, turns: Seq<Turn<V>>) -> Self
        decreases turns.len(),
    {
        if turns.len() == 0 {
            self
        } else {
            self.after_all(turns.drop_last()).after(turns.last())
        }
    }

    /// Every consumer has left its loop.
    pub open spec fn consumers_stopped(self) -> bool {
        forall|j: int|
            0 <= j < self.consumers.len() ==> (#[trigger] self.consumers[j]).phase
                == ConsumerPhase::Stopped
    }

    /// What holds of a run at every moment:
    /// the queue is within its capacity; a producer holds a task exactly
    /// while it is pushing, and a consumer exactly while it is processing;
    /// every task that the queue has taken is in the queue, in a consumer's
    /// hand, or applied, and is in one place only; the accumulator is the
    /// fold of what was applied; and no consumer has stopped unless the
    /// queue is drained.
    pub open spec fn coherent(self) -> bool {
        &&& self.queue.within_capacity()
        &&& forall|i: int|
            0 <= i < self.producers.len() ==> ((#[trigger] self.producers[i]).in_hand is Some
                <==> self.producers[i].phase == ProducerPhase::Pushing)
        &&& forall|j: int|
            0 <= j < self.consumers.len() ==> ((#[trigger] self.consumers[j]).in_hand is Some
                <==> self.consumers[j].phase == ConsumerPhase::Processing)
        &&& self.pushed.to_multiset() == self.consumed.to_multiset().add(
            in_hands(self.consumers),
        ).add(self.queue.items.to_multiset())
        &&& self.accumulator == folded(self.origin, self.consumed)
        &&& forall|j: int|
            0 <= j < self.consumers.len() && (#[trigger] self.consumers[j]).phase
                == ConsumerPhase::Stopped ==> self.queue.drained()
    }

    /// What holds of the ids of a run at every moment: an id is held by one
    /// producer or carried by one pushed task, never both and never twice,
    /// and only ids from the first on that the counter has passed are held
    /// or carried.
    pub open spec fn ids_unique(self) -> bool {
        &&& self.first_id <= self.counter.next_id
        &&& forall|id: u64|
            {
                let uses = #[trigger] holders(self.producers, id) + #[trigger] carriers(
                    self.pushed,
                    id,
                );
                uses <= 1 && (uses > 0 ==> self.first_id <= id < self.counter.next_id)
            }
    }

    /// What holds of each producer of a run at every moment: the ids of the
    /// tasks that it pushed rise in the order of its pushes, and the id
    /// that it holds is above them all.
    pub open spec fn own_ids_rise(self) -> bool {
        forall|i: int|
            0 <= i < self.producers.len() ==> rises(
                #[trigger] self.producers[i],
                self.counter.next_id,
            )
    }

    /// The stop was requested and the queue was closed.
    pub open spec fn shut_down(self) -> bool {
        !self.counter.producing && self.queue.closed
    }

    /// Every producer has left its loop.
    pub open spec fn producers_stopped(self) -> bool {
        forall|i: int|
            0 <= i < self.producers.len() ==> (#[trigger] self.producers[i]).phase
                == ProducerPhase::Stopped
    }

    /// Whether `turn` is the turn of a worker that has not stopped.
    pub open spec fn acts(self, turn: Turn<V>) -> bool {
        match turn {
            Turn::Producer { index, .. } => 0 <= index < self.producers.len()
                && self.producers[index].phase != ProducerPhase::Stopped,
            Turn::Consumer { index } => 0 <= index < self.consumers.len()
                && self.consumers[index].phase != ConsumerPhase::Stopped,
            _ => false,
        }
    }

    /// How many of the turns of a sequence are turns of a worker that has
    /// not stopped by then.
    pub open spec fn acting(self, turns: Seq<Turn<V>>) -> nat
        decreases turns.len(),
    {
        if turns.len() == 0 {
            0
        } else {
            self.acting(turns.drop_last()) + if self.after_all(turns.drop_last()).acts(
                turns.last(),
            ) {
                1nat
            } else {
                0nat
            }
        }
    }

    /// Whether `turn` is a pop that does not have to wait: the turn of a
    /// consumer that asks the queue for a task and gets one, or finds the
    /// queue drained.
    pub open spec fn pops(self, turn: Turn<V>) -> bool {
        match turn {
            Turn::Consumer { index } => 0 <= index < self.consumers.len()
                && self.consumers[index].phase == ConsumerPhase::Popping && (
            self.queue.items.len() > 0 || self.queue.closed),
            _ => false,
        }
    }

    /// How many of the turns of a sequence are pops that did not have to
    /// wait.
    pub open spec fn popping(self, turns: Seq<Turn<V>>) -> nat
        decreases turns.len(),
    {
        if turns.len() == 0 {
            0
        } else {
            self.popping(turns.drop_last()) + if self.after_all(turns.drop_last()).pops(
                turns.last(),
            ) {
                1nat
            } else {
                0nat
            }
        }
    }

    /// How many pops a run whose queue is closed has left: one for each
    /// task in the queue, and one for each consumer that has not stopped,
    /// which is the pop that finds the queue drained.
    pub open spec fn pops_left(self) -> nat {
        self.queue.items.len() + running_consumers(self.consumers)
    }

    /// How many turns the workers of a run that is shut down have left:
    /// three for each task in the queue (it is popped, applied, and rested
    /// after), and for each worker what its phase leaves it to do.
    pub open spec fn turns_left(self) -> nat {
        producer_turns_left(self.producers) + consumer_turns_left(self.consumers) + 3
            * self.queue.items.len()
    }

    /// Whether only the first producer takes a turn in the sequence.
    pub open spec fn solo(turns: Seq<Turn<V>>) -> bool {
        forall|i: int|
            0 <= i < turns.len() ==> (#[trigger] turns[i] matches Turn::Producer { index, .. }
                && index == 0)
    }

    /// What holds of a run in which a single producer fills an open queue
    /// that nobody pops from: the queue holds all that was pushed, the ids
    /// of the tasks count up from the first id, and the counter is one past
    /// the id that the producer holds, or at the id that comes next.
    pub open spec fn filling(self) -> bool {
        &&& self.producers.len() == 1
        &&& self.counter.producing
        &&& !self.queue.closed
        &&& self.queue.items == self.pushed
        &&& self.pushed.len() <= self.queue.capacity
        &&& forall|j: int|
            0 <= j < self.pushed.len() ==> (#[trigger] self.pushed[j]).id == self.first_id + j
        &&& match self.producers[0].phase {
            ProducerPhase::Reserving => self.counter.next_id == self.first_id + self.pushed.len(),
            ProducerPhase::Resting => self.counter.next_id == self.first_id + self.pushed.len(),
            ProducerPhase::Generating { id } => id == self.first_id + self.pushed.len()
                && self.counter.next_id == id + 1,
            ProducerPhase::Pushing => self.producers[0].in_hand matches Some(task) && task.id
                == self.first_id + self.pushed.len() && self.counter.next_id == task.id + 1,
            ProducerPhase::Stopped => false,
        }
    }

    /// The first producer waits for room: it holds a task, and the queue is
    /// open and at capacity.
    pub open spec fn held_up(self) -> bool {
        &&& self.producers.len() > 0
        &&& self.producers[0].phase == ProducerPhase::Pushing
        &&& self.producers[0].in_hand is Some
        &&& !self.queue.closed
        &&& self.queue.full()
    }

    /// How many turns the single producer of a filling run has taken that
    /// did not have to wait: four for each task in the queue, and what its
    /// phase adds.
    pub open spec fn filled(self) -> int {
        4 * self.pushed.len() + match self.producers[0].phase {
            ProducerPhase::Resting => -1int,
            ProducerPhase::Reserving => 0int,
            ProducerPhase::Generating { .. } => 1int,
            ProducerPhase::Pushing => 2int,
            ProducerPhase::Stopped => 0int,
        }
    }

    /// What holds, beyond coherence, of a run with a single consumer: the
    /// tasks keep the order of the pushes all the way to the accumulator.
    pub open spec fn in_order(self) -> bool {
        &&& self.consumers.len() == 1
        &&& self.pushed == self.consumed + held_by(self.consumers[0]) + self.queue.items
    }
}

/// Replacing one consumer changes what the consumers hold by that consumer's
/// hand alone.
proof fn lemma_in_hands_after_update<V>(
    consumers: Seq<ConsumerSlot<V>>,
    index: int,
    slot: ConsumerSlot<V>,
)
    requires
        0 <= index < consumers.len(),
    ensures
        in_hands(consumers.update(index, slot)).add(in_hand_of(consumers[index])) == in_hands(
            consumers,
        ).add(in_hand_of(slot)),
    decreases consumers.len(),
{
    broadcast use vstd::multiset::group_multiset_axioms;

    let updated = consumers.update(index, slot);
    let rest = consumers.drop_last();
    if index == consumers.len() - 1 {
        assert(updated.drop_last() =~= rest);
    } else {
        let moved = in_hands(rest.update(index, slot));
        let gone = in_hand_of(consumers[index]);
        let last = in_hand_of(consumers.last());
        lemma_in_hands_after_update(rest, index, slot);
        assert(updated.drop_last() =~= rest.update(index, slot));
        assert(moved.add(last).add(gone) =~= moved.add(gone).add(last));
    }
}

/// Where a consumer held nothing and holds nothing, the consumers hold what
/// they held.
proof fn lemma_hands_unchanged<V>(
    consumers: Seq<ConsumerSlot<V>>,
    index: int,
    slot: ConsumerSlot<V>,
)
    requires
        0 <= index < consumers.len(),
        consumers[index].in_hand is None,
        slot.in_hand is None,
    ensures
        in_hands(consumers.update(index, slot)) == in_hands(consumers),
{
    broadcast use vstd::multiset::group_multiset_axioms;

    let after = in_hands(consumers.update(index, slot));
    lemma_in_hands_after_update(consumers, index, slot);
    assert(after.add(Multiset::empty()) =~= after);
}

/// Consumers that hold nothing hold nothing together.
proof fn lemma_empty_hands<V>(consumers: Seq<ConsumerSlot<V>>)
    requires
        forall|j: int| 0 <= j < consumers.len() ==> (#[trigger] consumers[j]).in_hand is None,
    ensures
        in_hands(consumers) == Multiset::<Task<V>>::empty(),
    decreases consumers.len(),
{
    broadcast use vstd::multiset::group_multiset_axioms;

    if consumers.len() > 0 {
        lemma_empty_hands(consumers.drop_last());
    }
}

/// A sequence of nothing is a multiset of nothing.
proof fn lemma_no_tasks<A>()
    ensures
        Seq::<A>::empty().to_multiset() == Multiset::<A>::empty(),
{
    let none = Seq::<A>::empty();
    none.to_multiset_ensures();
    vstd::multiset::lemma_multiset_empty_len(none.to_multiset());
}

/// Putting a task into the last of two heaps puts it into the two together.
proof fn lemma_insert_last<A>(first: Multiset<A>, last: Multiset<A>, a: A)
    ensures
        first.add(last.insert(a)) == first.add(last).insert(a),
{
    broadcast use vstd::multiset::group_multiset_axioms;

}

/// A run is coherent at its start.
pub proof fn lemma_initial_pipeline_is_coherent<V: Add<Output = V> + Sub<Output = V> + Mul<Output = V>>(
    first_id: nat,
    capacity: nat,
    producers: nat,
    consumers: nat,
    origin: V,
)
    ensures
        Pipeline::initial(first_id, capacity, producers, consumers, origin).coherent(),
{
    broadcast use vstd::multiset::group_multiset_axioms;

    let start = Pipeline::initial(first_id, capacity, producers, consumers, origin);
    lemma_empty_hands(start.consumers);
    lemma_no_tasks::<Task<V>>();
    assert(start.pushed.to_multiset() =~= start.consumed.to_multiset().add(
        in_hands(start.consumers),
    ).add(start.queue.items.to_multiset()));
}

/// A producer's turn keeps the run coherent.
proof fn lemma_producer_turn_keeps_coherence<V: Add<Output = V> + Sub<Output = V> + Mul<Output = V>>(
    before: Pipeline<V>,
    index: int,
    task_type: TaskType,
    num: V,
    now: u128,
)
    requires
        before.coherent(),
    ensures
        before.after_producer(index, task_type, num, now).coherent(),
{
    let after = before.after_producer(index, task_type, num, now);
    if after.queue != before.queue {
        let task = before.producers[index].in_hand->0;
        vstd::seq_lib::to_multiset_build(before.queue.items, task);
        vstd::seq_lib::to_multiset_build(before.pushed, task);
        lemma_insert_last(
            before.consumed.to_multiset().add(in_hands(before.consumers)),
            before.queue.items.to_multiset(),
            task,
        );
    }
}

/// A consumer's turn keeps the run coherent.
proof fn lemma_consumer_turn_keeps_coherence<V: Add<Output = V> + Sub<Output = V> + Mul<Output = V>>(
    before: Pipeline<V>,
    index: int,
)
    requires
        before.coherent(),
    ensures
        before.after_consumer(index).coherent(),
{
    broadcast use vstd::multiset::group_multiset_axioms;

    let after = before.after_consumer(index);
    if 0 <= index < before.consumers.len() && after != before {
        let slot = after.consumers[index];
        let hands = in_hands(after.consumers);
        lemma_in_hands_after_update(before.consumers, index, slot);
        match before.consumers[index].phase {
            ConsumerPhase::Popping => {
                match before.queue.front() {
                    Some(task) => {
                        let items = before.queue.items;
                        let left = items.drop_first().to_multiset();
                        vstd::seq_lib::to_multiset_remove(items, 0);
                        items.to_multiset_ensures();
                        assert(left.insert(task) =~= items.to_multiset());
                        assert(hands =~= in_hands(before.consumers).insert(task));
                        assert(after.consumed.to_multiset().add(hands).add(left)
                            =~= before.consumed.to_multiset().add(in_hands(before.consumers)).add(
                            left.insert(task),
                        ));
                    },
                    None => {
                        lemma_hands_unchanged(before.consumers, index, slot);
                    },
                }
            },
            ConsumerPhase::Processing => {
                let task = before.consumers[index].in_hand->0;
                vstd::seq_lib::to_multiset_build(before.consumed, task);
                crate::processor::lemma_fold_step(before.origin, before.consumed, task);
                assert(hands.insert(task) =~= in_hands(before.consumers));
                assert(after.consumed.to_multiset().add(hands).add(
                    after.queue.items.to_multiset(),
                ) =~= before.consumed.to_multiset().add(hands.insert(task)).add(
                    before.queue.items.to_multiset(),
                ));
            },
            ConsumerPhase::Resting => {
                lemma_hands_unchanged(before.consumers, index, slot);
            },
            ConsumerPhase::Stopped => {},
        }
    }
}

/// Every turn keeps the run coherent.
pub proof fn lemma_turn_keeps_coherence<V: Add<Output = V> + Sub<Output = V> + Mul<Output = V>>(
    before: Pipeline<V>,
    turn: Turn<V>,
)
    requires
        before.coherent(),
    ensures
        before.after(turn).coherent(),
{
    match turn {
        Turn::Producer { index, task_type, num, now } => {
            lemma_producer_turn_keeps_coherence(before, index, task_type, num, now);
        },
        Turn::Consumer { index } => {
            lemma_consumer_turn_keeps_coherence(before, index);
        },
        Turn::RequestStop => {},
        Turn::CloseQueue => {},
    }
}

/// A run stays coherent, whatever turns are taken and in whatever order.
pub proof fn lemma_run_stays_coherent<V: Add<Output = V> + Sub<Output = V> + Mul<Output = V>>(
    start: Pipeline<V>,
    turns: Seq<Turn<V>>,
)
    requires
        start.coherent(),
    ensures
        start.after_all(turns).coherent(),
    decreases turns.len(),
{
    if turns.len() > 0 {
        lemma_run_stays_coherent(start, turns.drop_last());
        lemma_turn_keeps_coherence(start.after_all(turns.drop_last()), turns.last());
    }
}

/// No turn adds or removes a worker, changes the capacity of the queue, or
/// changes where the counter and the accumulator began.
proof fn lemma_frame_stays<V: Add<Output = V> + Sub<Output = V> + Mul<Output = V>>(
    start: Pipeline<V>,
    turns: Seq<Turn<V>>,
)
    ensures
        start.after_all(turns).consumers.len() == start.consumers.len(),
        start.after_all(turns).producers.len() == start.producers.len(),
        start.after_all(turns).queue.capacity == start.queue.capacity,
        start.after_all(turns).origin == start.origin,
        start.after_all(turns).first_id == start.first_id,
    decreases turns.len(),
{
    if turns.len() > 0 {
        lemma_frame_stays(start, turns.drop_last());
    }
}

/// Bounded capacity, for the run as a whole: however the workers interleave,
/// the queue never holds more than its capacity.
pub proof fn lemma_queue_stays_within_capacity<V: Add<Output = V> + Sub<Output = V> + Mul<Output = V>>(
    first_id: nat,
    capacity: nat,
    producers: nat,
    consumers: nat,
    origin: V,
    turns: Seq<Turn<V>>,
)
    ensures
        Pipeline::initial(first_id, capacity, producers, consumers, origin).after_all(
            turns,
        ).queue.items.len() <= capacity,
{
    let start = Pipeline::initial(first_id, capacity, producers, consumers, origin);
    lemma_initial_pipeline_is_coherent(first_id, capacity, producers, consumers, origin);
    lemma_run_stays_coherent(start, turns);
    lemma_frame_stays(start, turns);
}

/// No loss: once every consumer of a run has stopped, the queue is drained
/// and every task that the queue ever took has been applied to the
/// accumulator, each exactly once. So as many tasks were consumed as were
/// pushed, and the accumulator is the fold of them in the order in which
/// the consumers reached it.
pub proof fn lemma_finished_run_lost_no_task<V: Add<Output = V> + Sub<Output = V> + Mul<Output = V>>(
    first_id: nat,
    capacity: nat,
    producers: nat,
    consumers: nat,
    origin: V,
    turns: Seq<Turn<V>>,
)
    requires
        consumers > 0,
        Pipeline::initial(first_id, capacity, producers, consumers, origin).after_all(
            turns,
        ).consumers_stopped(),
    ensures
        ({
            let end = Pipeline::initial(first_id, capacity, producers, consumers, origin).after_all(turns);
            &&& end.queue.drained()
            &&& end.consumed.to_multiset() == end.pushed.to_multiset()
            &&& end.consumed.len() == end.pushed.len()
            &&& end.accumulator == folded(origin, end.consumed)
        }),
{
    broadcast use vstd::multiset::group_multiset_axioms;

    let start = Pipeline::initial(first_id, capacity, producers, consumers, origin);
    let end = start.after_all(turns);
    lemma_initial_pipeline_is_coherent(first_id, capacity, producers, consumers, origin);
    lemma_run_stays_coherent(start, turns);
    lemma_frame_stays(start, turns);
    assert(end.queue.items =~= Seq::<Task<V>>::empty());
    lemma_no_tasks::<Task<V>>();
    lemma_empty_hands(end.consumers);
    end.consumed.to_multiset_ensures();
    end.pushed.to_multiset_ensures();
}

/// With a single consumer, every turn keeps the tasks in the order of the
/// pushes.
proof fn lemma_turn_keeps_order<V: Add<Output = V> + Sub<Output = V> + Mul<Output = V>>(
    before: Pipeline<V>,
    turn: Turn<V>,
)
    requires
        before.coherent(),
        before.in_order(),
    ensures
        before.after(turn).in_order(),
{
    let slot = before.consumers[0];
    let nothing = Seq::<Task<V>>::empty();
    if turn == (Turn::<V>::Consumer { index: 0 }) && before.after(turn) != before {
        match (slot.phase, before.queue.front(), slot.in_hand) {
            (ConsumerPhase::Popping, Some(task), _) => {
                assert(before.consumed + seq![task] + before.queue.items.drop_first()
                    =~= before.consumed + nothing + before.queue.items);
            },
            (ConsumerPhase::Processing, _, Some(task)) => {
                assert(before.consumed.push(task) + nothing + before.queue.items
                    =~= before.consumed + seq![task] + before.queue.items);
            },
            _ => {},
        }
    }
}

/// With a single consumer, a run keeps the tasks in the order of the pushes,
/// whatever turns are taken.
proof fn lemma_run_keeps_order<V: Add<Output = V> + Sub<Output = V> + Mul<Output = V>>(
    start: Pipeline<V>,
    turns: Seq<Turn<V>>,
)
    requires
        start.coherent(),
        start.in_order(),
    ensures
        start.after_all(turns).coherent(),
        start.after_all(turns).in_order(),
    decreases turns.len(),
{
    if turns.len() > 0 {
        lemma_run_keeps_order(start, turns.drop_last());
        lemma_turn_keeps_coherence(start.after_all(turns.drop_last()), turns.last());
        lemma_turn_keeps_order(start.after_all(turns.drop_last()), turns.last());
    }
}

/// Deterministic fold for serialized access: with a single consumer the
/// tasks reach the accumulator in the order in which the queue took them.
/// Once that consumer has stopped, the accumulator is the fold of the
/// pushed tasks in the order of the pushes; with a single producer that is
/// the order in which the tasks were made.
pub proof fn lemma_single_consumer_folds_in_push_order<V: Add<Output = V> + Sub<Output = V> + Mul<Output = V>>(
    first_id: nat,
    capacity: nat,
    producers: nat,
    origin: V,
    turns: Seq<Turn<V>>,
)
    requires
        Pipeline::initial(first_id, capacity, producers, 1, origin).after_all(turns).consumers_stopped(),
    ensures
        ({
            let end = Pipeline::initial(first_id, capacity, producers, 1, origin).after_all(turns);
            &&& end.consumed == end.pushed
            &&& end.accumulator == folded(origin, end.pushed)
        }),
{
    let start = Pipeline::initial(first_id, capacity, producers, 1, origin);
    lemma_initial_pipeline_is_coherent(first_id, capacity, producers, 1, origin);
    lemma_run_keeps_order(start, turns);
    lemma_frame_stays(start, turns);
}

/// Silence after shutdown, for the run as a whole: once the stop was
/// requested, no turn of any worker is assigned an id.
pub proof fn lemma_stopped_run_assigns_no_id<V: Add<Output = V> + Sub<Output = V> + Mul<Output = V>>(
    start: Pipeline<V>,
    turns: Seq<Turn<V>>,
)
    requires
        !start.counter.producing,
    ensures
        start.after_all(turns).counter == start.counter,
    decreases turns.len(),
{
    if turns.len() > 0 {
        lemma_stopped_run_assigns_no_id(start, turns.drop_last());
    }
}

/// Once the queue was closed, it takes no task: what was pushed by then is
/// all that is ever pushed.
pub proof fn lemma_closed_run_takes_no_task<V: Add<Output = V> + Sub<Output = V> + Mul<Output = V>>(
    start: Pipeline<V>,
    turns: Seq<Turn<V>>,
)
    requires
        start.queue.closed,
    ensures
        start.after_all(turns).queue.closed,
        start.after_all(turns).pushed == start.pushed,
    decreases turns.len(),
{
    if turns.len() > 0 {
        lemma_closed_run_takes_no_task(start, turns.drop_last());
    }
}

/// Replacing one producer changes who holds an id by that producer alone.
proof fn lemma_holders_after_update<V>(
    producers: Seq<ProducerSlot<V>>,
    index: int,
    slot: ProducerSlot<V>,
    id: u64,
)
    requires
        0 <= index < producers.len(),
    ensures
        holders(producers.update(index, slot), id) + holds(producers[index], id) == holders(
            producers,
            id,
        ) + holds(slot, id),
    decreases producers.len(),
{
    let updated = producers.update(index, slot);
    let rest = producers.drop_last();
    if index == producers.len() - 1 {
        assert(updated.drop_last() =~= rest);
    } else {
        lemma_holders_after_update(rest, index, slot, id);
        assert(updated.drop_last() =~= rest.update(index, slot));
    }
}

/// Producers at the start of their loop hold no id.
proof fn lemma_no_holders<V>(producers: Seq<ProducerSlot<V>>, id: u64)
    requires
        forall|i: int|
            0 <= i < producers.len() ==> (#[trigger] producers[i]).phase
                == ProducerPhase::Reserving,
    ensures
        holders(producers, id) == 0,
    decreases producers.len(),
{
    if producers.len() > 0 {
        lemma_no_holders(producers.drop_last(), id);
    }
}

/// A task of a sequence is a carrier of its id.
proof fn lemma_one_carrier<V>(tasks: Seq<Task<V>>, i: int)
    requires
        0 <= i < tasks.len(),
    ensures
        carriers(tasks, tasks[i].id) >= 1,
    decreases tasks.len(),
{
    if i < tasks.len() - 1 {
        lemma_one_carrier(tasks.drop_last(), i);
    }
}

/// Two tasks of a sequence that carry one id make two carriers of it.
proof fn lemma_two_carriers<V>(tasks: Seq<Task<V>>, i: int, j: int)
    requires
        0 <= i < j < tasks.len(),
        tasks[i].id == tasks[j].id,
    ensures
        carriers(tasks, tasks[i].id) >= 2,
    decreases tasks.len(),
{
    if j == tasks.len() - 1 {
        lemma_one_carrier(tasks.drop_last(), i);
    } else {
        lemma_two_carriers(tasks.drop_last(), i, j);
    }
}

/// Every turn keeps the ids unique.
proof fn lemma_turn_keeps_ids_unique<V: Add<Output = V> + Sub<Output = V> + Mul<Output = V>>(
    before: Pipeline<V>,
    turn: Turn<V>,
)
    requires
        before.ids_unique(),
    ensures
        before.after(turn).ids_unique(),
{
    let after = before.after(turn);
    match turn {
        Turn::Producer { index, task_type, num, now } => {
            if 0 <= index < before.producers.len() && after != before {
                assert forall|id: u64|
                    {
                        let uses = #[trigger] holders(after.producers, id) + #[trigger] carriers(
                            after.pushed,
                            id,
                        );
                        uses <= 1 && (uses > 0 ==> after.first_id <= id < after.counter.next_id)
                    } by {
                    lemma_holders_after_update(
                        before.producers,
                        index,
                        after.producers[index],
                        id,
                    );
                    assert(holders(before.producers, id) + carriers(before.pushed, id) <= 1);
                    if after.pushed != before.pushed {
                        assert(after.pushed.drop_last() =~= before.pushed);
                    }
                }
            }
        },
        _ => {},
    }
}

/// A run keeps its ids unique, whatever turns are taken.
proof fn lemma_run_keeps_ids_unique<V: Add<Output = V> + Sub<Output = V> + Mul<Output = V>>(
    start: Pipeline<V>,
    turns: Seq<Turn<V>>,
)
    requires
        start.ids_unique(),
    ensures
        start.after_all(turns).ids_unique(),
    decreases turns.len(),
{
    if turns.len() > 0 {
        lemma_run_keeps_ids_unique(start, turns.drop_last());
        lemma_turn_keeps_ids_unique(start.after_all(turns.drop_last()), turns.last());
    }
}

/// Uniqueness of ids, for the run as a whole: however many producers there
/// are and however they interleave, no two tasks that reach the queue carry
/// the same id, and none carries an id below the first.
pub proof fn lemma_pushed_ids_are_distinct<V: Add<Output = V> + Sub<Output = V> + Mul<Output = V>>(
    first_id: nat,
    capacity: nat,
    producers: nat,
    consumers: nat,
    origin: V,
    turns: Seq<Turn<V>>,
    i: int,
    j: int,
)
    requires
        0 <= i < j < Pipeline::initial(first_id, capacity, producers, consumers, origin).after_all(
            turns,
        ).pushed.len(),
    ensures
        ({
            let end = Pipeline::initial(first_id, capacity, producers, consumers, origin).after_all(
                turns,
            );
            &&& end.pushed[i].id != end.pushed[j].id
            &&& first_id <= end.pushed[i].id < end.counter.next_id
            &&& first_id <= end.pushed[j].id < end.counter.next_id
        }),
{
    let start = Pipeline::initial(first_id, capacity, producers, consumers, origin);
    let end = start.after_all(turns);
    assert(start.ids_unique()) by {
        assert forall|id: u64| #[trigger] holders(start.producers, id) == 0 by {
            lemma_no_holders(start.producers, id);
        }
    }
    lemma_run_keeps_ids_unique(start, turns);
    lemma_frame_stays(start, turns);
    lemma_one_carrier(end.pushed, i);
    lemma_one_carrier(end.pushed, j);
    assert(holders(end.producers, end.pushed[i].id) + carriers(end.pushed, end.pushed[i].id) <= 1);
    assert(holders(end.producers, end.pushed[j].id) + carriers(end.pushed, end.pushed[j].id) <= 1);
    if end.pushed[i].id == end.pushed[j].id {
        lemma_two_carriers(end.pushed, i, j);
    }
}

/// Every turn keeps each producer's ids rising.
proof fn lemma_turn_keeps_own_ids_rising<V: Add<Output = V> + Sub<Output = V> + Mul<Output = V>>(
    before: Pipeline<V>,
    turn: Turn<V>,
)
    requires
        before.own_ids_rise(),
    ensures
        before.after(turn).own_ids_rise(),
{
}

/// A run keeps each producer's ids rising, whatever turns are taken.
proof fn lemma_run_keeps_own_ids_rising<V: Add<Output = V> + Sub<Output = V> + Mul<Output = V>>(
    start: Pipeline<V>,
    turns: Seq<Turn<V>>,
)
    requires
        start.own_ids_rise(),
    ensures
        start.after_all(turns).own_ids_rise(),
    decreases turns.len(),
{
    if turns.len() > 0 {
        lemma_run_keeps_own_ids_rising(start, turns.drop_last());
        lemma_turn_keeps_own_ids_rising(start.after_all(turns.drop_last()), turns.last());
    }
}

/// Monotonicity of ids, producer by producer: however the workers
/// interleave, the ids of the tasks that one producer got into the queue
/// rise strictly in the order of its pushes.
pub proof fn lemma_own_pushed_ids_rise<V: Add<Output = V> + Sub<Output = V> + Mul<Output = V>>(
    first_id: nat,
    capacity: nat,
    producers: nat,
    consumers: nat,
    origin: V,
    turns: Seq<Turn<V>>,
    producer: int,
    a: int,
    b: int,
)
    requires
        0 <= producer < producers,
        0 <= a < b < Pipeline::initial(first_id, capacity, producers, consumers, origin).after_all(
            turns,
        ).producers[producer].pushed.len(),
    ensures
        ({
            let end = Pipeline::initial(first_id, capacity, producers, consumers, origin).after_all(
                turns,
            );
            end.producers[producer].pushed[a].id < end.producers[producer].pushed[b].id
        }),
{
    let start = Pipeline::initial(first_id, capacity, producers, consumers, origin);
    lemma_run_keeps_own_ids_rising(start, turns);
    lemma_frame_stays(start, turns);
}

/// An id is reserved under the flag: a producer comes to hold an id only in
/// the turn in which it asked the counter, the counter granted
/// reservations in that very turn, the id is the one the counter stood at,
/// and the counter has moved past it. No other turn of a worker moves the
/// counter.
pub proof fn lemma_id_is_reserved_under_the_flag<V: Add<Output = V> + Sub<Output = V> + Mul<Output = V>>(
    before: Pipeline<V>,
    index: int,
    task_type: TaskType,
    num: V,
    now: u128,
)
    requires
        0 <= index < before.producers.len(),
    ensures
        ({
            let after = before.after_producer(index, task_type, num, now);
            let asking = before.producers[index].phase == ProducerPhase::Reserving;
            &&& !asking ==> after.counter == before.counter
            &&& asking && after.producers[index].phase != ProducerPhase::Reserving
                ==> after.counter == before.counter.after_reserve()
            &&& asking ==> (after.producers[index].phase matches ProducerPhase::Generating { id }
                ==> before.counter.producing && id == before.counter.next_id
                && after.counter.next_id == id + 1)
            &&& asking && !before.counter.producing ==> after.producers[index].phase
                == ProducerPhase::Stopped
        }),
{
}


/// Replacing one producer changes the turns that the producers have left by
/// that producer's alone.
proof fn lemma_producer_turns_after_update<V>(
    producers: Seq<ProducerSlot<V>>,
    index: int,
    slot: ProducerSlot<V>,
)
    requires
        0 <= index < producers.len(),
    ensures
        producer_turns_left(producers.update(index, slot)) + producer_rank(
            producers[index].phase,
        ) == producer_turns_left(producers) + producer_rank(slot.phase),
    decreases producers.len(),
{
    let updated = producers.update(index, slot);
    let rest = producers.drop_last();
    if index == producers.len() - 1 {
        assert(updated.drop_last() =~= rest);
    } else {
        lemma_producer_turns_after_update(rest, index, slot);
        assert(updated.drop_last() =~= rest.update(index, slot));
    }
}

/// Replacing one consumer changes the turns that the consumers have left by
/// that consumer's alone.
proof fn lemma_consumer_turns_after_update<V>(
    consumers: Seq<ConsumerSlot<V>>,
    index: int,
    slot: ConsumerSlot<V>,
)
    requires
        0 <= index < consumers.len(),
    ensures
        consumer_turns_left(consumers.update(index, slot)) + consumer_rank(
            consumers[index].phase,
        ) == consumer_turns_left(consumers) + consumer_rank(slot.phase),
    decreases consumers.len(),
{
    let updated = consumers.update(index, slot);
    let rest = consumers.drop_last();
    if index == consumers.len() - 1 {
        assert(updated.drop_last() =~= rest);
    } else {
        lemma_consumer_turns_after_update(rest, index, slot);
        assert(updated.drop_last() =~= rest.update(index, slot));
    }
}

/// Producers have no turn left only if each of them has stopped, and never
/// more than two each.
proof fn lemma_producer_turns_bounds<V>(producers: Seq<ProducerSlot<V>>)
    ensures
        producer_turns_left(producers) <= 2 * producers.len(),
        producer_turns_left(producers) == 0 ==> forall|i: int|
            0 <= i < producers.len() ==> (#[trigger] producers[i]).phase == ProducerPhase::Stopped,
    decreases producers.len(),
{
    if producers.len() > 0 {
        lemma_producer_turns_bounds(producers.drop_last());
        if producer_turns_left(producers) == 0 {
            assert forall|i: int| 0 <= i < producers.len() implies (#[trigger] producers[i]).phase
                == ProducerPhase::Stopped by {
                if i < producers.len() - 1 {
                    assert(producers.drop_last()[i] == producers[i]);
                }
            }
        }
    }
}

/// Consumers have no turn left only if each of them has stopped, and never
/// more than three each.
proof fn lemma_consumer_turns_bounds<V>(consumers: Seq<ConsumerSlot<V>>)
    ensures
        consumer_turns_left(consumers) <= 3 * consumers.len(),
        consumer_turns_left(consumers) == 0 ==> forall|j: int|
            0 <= j < consumers.len() ==> (#[trigger] consumers[j]).phase == ConsumerPhase::Stopped,
    decreases consumers.len(),
{
    if consumers.len() > 0 {
        lemma_consumer_turns_bounds(consumers.drop_last());
        if consumer_turns_left(consumers) == 0 {
            assert forall|j: int| 0 <= j < consumers.len() implies (#[trigger] consumers[j]).phase
                == ConsumerPhase::Stopped by {
                if j < consumers.len() - 1 {
                    assert(consumers.drop_last()[j] == consumers[j]);
                }
            }
        }
    }
}

/// Once a run is shut down, no worker waits: the turn of a worker that has
/// not stopped is one of the turns that the run has left, and any other
/// turn changes nothing.
pub proof fn lemma_turn_after_shutdown<V: Add<Output = V> + Sub<Output = V> + Mul<Output = V>>(
    before: Pipeline<V>,
    turn: Turn<V>,
)
    requires
        before.coherent(),
        before.shut_down(),
    ensures
        before.after(turn).shut_down(),
        before.acts(turn) ==> before.after(turn).turns_left() + 1 == before.turns_left(),
        !before.acts(turn) ==> before.after(turn) == before,
{
    let after = before.after(turn);
    match turn {
        Turn::Producer { index, task_type, num, now } => {
            if before.acts(turn) {
                lemma_producer_turns_after_update(before.producers, index, after.producers[index]);
            }
        },
        Turn::Consumer { index } => {
            if before.acts(turn) {
                lemma_consumer_turns_after_update(before.consumers, index, after.consumers[index]);
            }
        },
        Turn::RequestStop => {},
        Turn::CloseQueue => {},
    }
}

/// Shutdown completes: once the stop was requested and the queue was
/// closed, every turn of a worker that has not stopped uses up one of the
/// turns that the run has left, and there are no more of these than two for
/// each producer, three for each consumer and three for each place in the
/// queue. When none is left, every worker has stopped and the queue is
/// empty.
pub proof fn lemma_shutdown_completes<V: Add<Output = V> + Sub<Output = V> + Mul<Output = V>>(
    start: Pipeline<V>,
    turns: Seq<Turn<V>>,
)
    requires
        start.coherent(),
        start.shut_down(),
    ensures
        ({
            let end = start.after_all(turns);
            &&& end.coherent()
            &&& end.shut_down()
            &&& end.turns_left() + start.acting(turns) == start.turns_left()
            &&& start.turns_left() <= 2 * start.producers.len() + 3 * start.consumers.len() + 3
                * start.queue.capacity
            &&& end.turns_left() == 0 ==> end.producers_stopped() && end.consumers_stopped()
                && end.queue.items.len() == 0
        }),
    decreases turns.len(),
{
    let end = start.after_all(turns);
    if turns.len() > 0 {
        lemma_shutdown_completes(start, turns.drop_last());
        lemma_turn_keeps_coherence(start.after_all(turns.drop_last()), turns.last());
        lemma_turn_after_shutdown(start.after_all(turns.drop_last()), turns.last());
    }
    lemma_producer_turns_bounds(start.producers);
    lemma_consumer_turns_bounds(start.consumers);
    lemma_producer_turns_bounds(end.producers);
    lemma_consumer_turns_bounds(end.consumers);
}

/// Replacing one consumer changes how many consumers run by that consumer
/// alone.
proof fn lemma_running_after_update<V>(
    consumers: Seq<ConsumerSlot<V>>,
    index: int,
    slot: ConsumerSlot<V>,
)
    requires
        0 <= index < consumers.len(),
    ensures
        (consumers[index].phase == ConsumerPhase::Stopped) == (slot.phase
            == ConsumerPhase::Stopped) ==> running_consumers(consumers.update(index, slot))
            == running_consumers(consumers),
        consumers[index].phase != ConsumerPhase::Stopped && slot.phase == ConsumerPhase::Stopped
            ==> running_consumers(consumers.update(index, slot)) + 1 == running_consumers(
            consumers,
        ),
    decreases consumers.len(),
{
    let updated = consumers.update(index, slot);
    let rest = consumers.drop_last();
    if index == consumers.len() - 1 {
        assert(updated.drop_last() =~= rest);
    } else {
        lemma_running_after_update(rest, index, slot);
        assert(updated.drop_last() =~= rest.update(index, slot));
    }
}

/// Once the queue is closed, a pop never waits, and each pop is one of the
/// pops that the run has left; no other turn changes how many are left.
pub proof fn lemma_pop_after_close<V: Add<Output = V> + Sub<Output = V> + Mul<Output = V>>(
    before: Pipeline<V>,
    turn: Turn<V>,
)
    requires
        before.queue.closed,
    ensures
        before.after(turn).queue.closed,
        before.pops(turn) ==> before.after(turn).pops_left() + 1 == before.pops_left(),
        !before.pops(turn) ==> before.after(turn).pops_left() == before.pops_left(),
{
    let after = before.after(turn);
    match turn {
        Turn::Consumer { index } => {
            if 0 <= index < before.consumers.len() && after != before {
                lemma_running_after_update(before.consumers, index, after.consumers[index]);
            }
        },
        _ => {},
    }
}

/// Pops after the close are bounded: once the producer side of the queue
/// is closed, no more pops follow than there are tasks in the queue and
/// consumers together, whatever the workers do and in whatever order: one
/// pop for each task, and for each consumer the one that finds the queue
/// drained. When none is left, the queue is empty and every consumer has
/// stopped.
pub proof fn lemma_pops_after_close_are_bounded<V: Add<Output = V> + Sub<Output = V> + Mul<Output = V>>(
    start: Pipeline<V>,
    turns: Seq<Turn<V>>,
)
    requires
        start.queue.closed,
    ensures
        ({
            let end = start.after_all(turns);
            &&& end.queue.closed
            &&& end.pops_left() + start.popping(turns) == start.pops_left()
            &&& start.popping(turns) <= start.queue.items.len() + start.consumers.len()
            &&& end.pops_left() == 0 ==> end.queue.items.len() == 0 && end.consumers_stopped()
        }),
    decreases turns.len(),
{
    let end = start.after_all(turns);
    if turns.len() > 0 {
        lemma_pops_after_close_are_bounded(start, turns.drop_last());
        lemma_pop_after_close(start.after_all(turns.drop_last()), turns.last());
    }
    lemma_running_consumers_bounds(start.consumers);
    lemma_running_consumers_bounds(end.consumers);
}

/// No more consumers run than there are, and where none runs, every
/// consumer has stopped.
proof fn lemma_running_consumers_bounds<V>(consumers: Seq<ConsumerSlot<V>>)
    ensures
        running_consumers(consumers) <= consumers.len(),
        running_consumers(consumers) == 0 ==> forall|j: int|
            0 <= j < consumers.len() ==> (#[trigger] consumers[j]).phase == ConsumerPhase::Stopped,
    decreases consumers.len(),
{
    if consumers.len() > 0 {
        lemma_running_consumers_bounds(consumers.drop_last());
        if running_consumers(consumers) == 0 {
            assert forall|j: int| 0 <= j < consumers.len() implies (#[trigger] consumers[j]).phase
                == ConsumerPhase::Stopped by {
                if j < consumers.len() - 1 {
                    assert(consumers.drop_last()[j] == consumers[j]);
                }
            }
        }
    }
}

/// In a filling run, a turn of the producer keeps the run filling; it is
/// one more turn taken, unless the producer is held up, and then it changes
/// nothing.
proof fn lemma_turn_of_a_filling_run<V: Add<Output = V> + Sub<Output = V> + Mul<Output = V>>(
    before: Pipeline<V>,
    task_type: TaskType,
    num: V,
    now: u128,
)
    requires
        before.filling(),
        before.first_id + before.queue.capacity < u64::MAX,
    ensures
        ({
            let after = before.after_producer(0, task_type, num, now);
            &&& after.filling()
            &&& before.held_up() <==> before.filled() == 4 * before.queue.capacity + 2
            &&& before.filled() <= 4 * before.queue.capacity + 2
            &&& before.held_up() ==> after == before
            &&& !before.held_up() ==> after.filled() == before.filled() + 1
            &&& after.first_id == before.first_id
            &&& after.queue.capacity == before.queue.capacity
        }),
{
}

/// A run in which a single producer takes turns and nobody pops is a
/// filling run, and the producer has taken as many turns that did not have
/// to wait as there were turns, up to the turn in which it is held up.
proof fn lemma_filling_run<V: Add<Output = V> + Sub<Output = V> + Mul<Output = V>>(
    first_id: nat,
    capacity: nat,
    consumers: nat,
    origin: V,
    turns: Seq<Turn<V>>,
)
    requires
        first_id + capacity < u64::MAX,
        Pipeline::<V>::solo(turns),
    ensures
        ({
            let end = Pipeline::initial(first_id, capacity, 1, consumers, origin).after_all(turns);
            &&& end.filling()
            &&& end.first_id == first_id
            &&& end.queue.capacity == capacity
            &&& end.filled() == if turns.len() <= 4 * capacity + 2 {
                turns.len() as int
            } else {
                (4 * capacity + 2) as int
            }
        }),
    decreases turns.len(),
{
    let start = Pipeline::initial(first_id, capacity, 1, consumers, origin);
    if turns.len() > 0 {
        let rest = turns.drop_last();
        assert(Pipeline::<V>::solo(rest));
        lemma_filling_run(first_id, capacity, consumers, origin, rest);
        match turns.last() {
            Turn::Producer { index, task_type, num, now } => {
                lemma_turn_of_a_filling_run(start.after_all(rest), task_type, num, now);
            },
            _ => {},
        }
    }
}

/// Backpressure: a single producer that fills an open queue from the id
/// `first_id`, while nobody pops, gets exactly `capacity` tasks into the
/// queue, with the ids from `first_id` on, and is then held up with the
/// task of the id `first_id + capacity` in its hand. The counter stands
/// one above that id and goes no higher, the producer does not get on
/// however often it takes its turn, and no task is dropped: the queue
/// holds all that was pushed. Four turns make one task, so `4 * capacity
/// + 2` turns bring the producer to where it is held up.
pub proof fn lemma_full_queue_holds_the_producer_up<V: Add<Output = V> + Sub<Output = V> + Mul<Output = V>>(
    first_id: nat,
    capacity: nat,
    consumers: nat,
    origin: V,
    turns: Seq<Turn<V>>,
)
    requires
        first_id + capacity < u64::MAX,
        Pipeline::<V>::solo(turns),
    ensures
        ({
            let end = Pipeline::initial(first_id, capacity, 1, consumers, origin).after_all(turns);
            &&& end.queue.items == end.pushed
            &&& end.pushed.len() <= capacity
            &&& forall|j: int|
                0 <= j < end.pushed.len() ==> (#[trigger] end.pushed[j]).id == first_id + j
            &&& end.counter.next_id <= first_id + capacity + 1
            &&& turns.len() >= 4 * capacity + 2 ==> {
                &&& end.held_up()
                &&& end.pushed.len() == capacity
                &&& end.producers[0].in_hand matches Some(task) && task.id == first_id + capacity
                &&& end.counter.next_id == first_id + capacity + 1
                &&& forall|task_type: TaskType, num: V, now: u128| #[trigger]
                    end.after_producer(0, task_type, num, now) == end
            }
        }),
{
    let end = Pipeline::initial(first_id, capacity, 1, consumers, origin).after_all(turns);
    lemma_filling_run(first_id, capacity, consumers, origin, turns);
    assert forall|task_type: TaskType, num: V, now: u128|
        end.held_up() implies #[trigger] end.after_producer(0, task_type, num, now) == end by {
        lemma_turn_of_a_filling_run(end, task_type, num, now);
    }
    lemma_turn_of_a_filling_run(end, TaskType::Add, origin, 0);
}

/// After one pop the push that was held up goes through, with the task
/// that the producer held all the while: the queue gives out its oldest
/// task and takes that one as its newest.
pub proof fn lemma_a_pop_lets_the_held_push_through<V: Add<Output = V> + Sub<Output = V> + Mul<Output = V>>(
    before: Pipeline<V>,
    consumer: int,
    task_type: TaskType,
    num: V,
    now: u128,
)
    requires
        before.held_up(),
        before.queue.capacity >= 1,
        before.queue.within_capacity(),
        0 <= consumer < before.consumers.len(),
        before.consumers[consumer].phase == ConsumerPhase::Popping,
    ensures
        ({
            let held = before.producers[0].in_hand->0;
            let popped = before.after_consumer(consumer);
            let after = popped.after_producer(0, task_type, num, now);
            &&& popped.consumers[consumer].in_hand == Some(before.queue.items.first())
            &&& popped.producers == before.producers
            &&& after.pushed == before.pushed.push(held)
            &&& after.queue.items == before.queue.items.drop_first().push(held)
            &&& after.producers[0].phase == ProducerPhase::Resting
            &&& after.producers[0].pushed == before.producers[0].pushed.push(held)
        }),
{
}

} // verus!
