//! What a worker decides between two pieces of outside work.
//!
//! A worker waits for locks, for the queue and for its rest; none of that
//! happens here. The caller runs the loop: it does what the last action asks
//! for, reports what came of it as an event, and gets the next action. A
//! worker's phase says which event it waits for; an event that does not fit
//! the phase is refused and changes nothing.

use crate::channel::QueueClosed;
use crate::channel::QueueDrained;
use crate::task::Task;
use crate::task::TaskType;
use vstd::prelude::*;

verus! {

/// Where a producer is in its loop.
#[derive(Clone, Copy, Debug, PartialEq, Eq, Structural)]
pub enum ProducerPhase {
    /// Waiting for the id counter's answer.
    Reserving,
    /// Holding a reserved id, waiting for the parts of its task.
    Generating { id: u64 },
    /// Waiting for the queue's answer to a push.
    Pushing,
    /// Resting after a push that was taken.
    Resting,
    /// Out of the loop, for good.
    Stopped,
}

/// What came of the outside work that a producer asked for.
#[derive(Debug)]
pub enum ProducerEvent<V> {
    /// The id counter answered: an id, or `None` once a stop was requested.
    Reserved(Option<u64>),
    /// The parts of the next task were drawn and the clock was read.
    Generated { task_type: TaskType, num: V, now: u128 },
    /// The queue answered: it took the task, or it is closed.
    Pushed { accepted: bool },
    /// The rest is over.
    Rested,
}

/// The outside work that a producer asks for next.
#[derive(Debug)]
pub enum ProducerAction<V> {
    /// Ask the id counter for the next id.
    Reserve,
    /// Draw an operation and an operand, and read the clock.
    Generate,
    /// Push the task, waiting while the queue is full.
    Push(Task<V>),
    /// Rest for a duration drawn from the configured interval.
    Rest,
    /// Leave the loop.
    Stop,
}

impl<V> ProducerEvent<V> {
    /// The event that the answer to a push is: the push was accepted where
    /// the queue took the task, and was not where the queue is closed. The
    /// task that a closed queue handed back is dropped here.
    pub open spec fn of_push(answer: Result<(), QueueClosed<Task<V>>>) -> Self {
        ProducerEvent::Pushed { accepted: answer is Ok }
    }

    /// Turns the answer to a push into the event that the producer takes.
    pub fn pushed(answer: Result<(), QueueClosed<Task<V>>>) -> (event: Self)
        ensures
            event == Self::of_push(answer),
    {
        match answer {
            Ok(_) => ProducerEvent::Pushed { accepted: true },
            Err(_) => ProducerEvent::Pushed { accepted: false },
        }
    }
}

impl ProducerPhase {
    /// The phase and the first action of a producer that starts.
    pub open spec fn initial<V>() -> (ProducerPhase, ProducerAction<V>) {
        (ProducerPhase::Reserving, ProducerAction::Reserve)
    }

    /// The phase and the action that follow `event`, or `None` where the
    /// event does not fit the phase.
    pub open spec fn next<V>(self, event: ProducerEvent<V>) -> Option<
        (ProducerPhase, ProducerAction<V>),
    > {
        match (self, event) {
            (ProducerPhase::Reserving, ProducerEvent::Reserved(Some(id))) => Some(
                (ProducerPhase::Generating { id }, ProducerAction::Generate),
            ),
            (ProducerPhase::Reserving, ProducerEvent::Reserved(None)) => Some(
                (ProducerPhase::Stopped, ProducerAction::Stop),
            ),
            (
                ProducerPhase::Generating { id },
                ProducerEvent::Generated { task_type, num, now },
            ) => Some(
                (
                    ProducerPhase::Pushing,
                    ProducerAction::Push(Task { id, task_type, num, created_at: now }),
                ),
            ),
            (ProducerPhase::Pushing, ProducerEvent::Pushed { accepted }) => if accepted {
                Some((ProducerPhase::Resting, ProducerAction::Rest))
            } else {
                Some((ProducerPhase::Stopped, ProducerAction::Stop))
            },
            (ProducerPhase::Resting, ProducerEvent::Rested) => Some(
                (ProducerPhase::Reserving, ProducerAction::Reserve),
            ),
            _ => None,
        }
    }

    /// The phase after `event`: the same phase where the event is refused.
    pub open spec fn after<V>(self, event: ProducerEvent<V>) -> ProducerPhase {
        match self.next(event) {
            Some((phase, _)) => phase,
            None => self,
        }
    }

    /// The phase after a sequence of events, first event first.
    pub open spec fn after_all<V>(self, events: Seq<ProducerEvent<V>>) -> ProducerPhase
        decreases events.len(),
    {
        if events.len() == 0 {
            self
        } else {
            self.after_all(events.drop_last()).after(events.last())
        }
    }

    /// The ids that the producer took from the id counter during a sequence
    /// of events, in the order in which it took them.
    pub open spec fn taken<V>(self, events: Seq<ProducerEvent<V>>) -> Seq<u64>
        decreases events.len(),
    {
        if events.len() == 0 {
            Seq::empty()
        } else {
            let before = self.after_all(events.drop_last());
            let earlier = self.taken(events.drop_last());
            match before.next(events.last()) {
                Some((ProducerPhase::Generating { id }, _)) => earlier.push(id),
                _ => earlier,
            }
        }
    }

    /// The tasks that the producer asked to push during a sequence of
    /// events, in the order in which it asked.
    pub open spec fn offered<V>(self, events: Seq<ProducerEvent<V>>) -> Seq<Task<V>>
        decreases events.len(),
    {
        if events.len() == 0 {
            Seq::empty()
        } else {
            let before = self.after_all(events.drop_last());
            let earlier = self.offered(events.drop_last());
            match before.next(events.last()) {
                Some((_, ProducerAction::Push(task))) => earlier.push(task),
                _ => earlier,
            }
        }
    }

    /// The id that the producer holds and has not yet offered.
    pub open spec fn held(self) -> Seq<u64> {
        match self {
            ProducerPhase::Generating { id } => seq![id],
            _ => Seq::empty(),
        }
    }

    /// A producer that starts: its phase and its first action.
    pub fn start<V>() -> (first: (ProducerPhase, ProducerAction<V>))
        ensures
            first == Self::initial::<V>(),
    {
        (ProducerPhase::Reserving, ProducerAction::Reserve)
    }

    /// Takes `event` and says how the producer goes on: its next phase and
    /// the action to perform, or `None` where the event does not fit the
    /// phase.
    pub fn step<V>(self, event: ProducerEvent<V>) -> (next: Option<
        (ProducerPhase, ProducerAction<V>),
    >)
        ensures
            next == self.next(event),
    {
        match (self, event) {
            (ProducerPhase::Reserving, ProducerEvent::Reserved(Some(id))) => Some(
                (ProducerPhase::Generating { id }, ProducerAction::Generate),
            ),
            (ProducerPhase::Reserving, ProducerEvent::Reserved(None)) => Some(
                (ProducerPhase::Stopped, ProducerAction::Stop),
            ),
            (
                ProducerPhase::Generating { id },
                ProducerEvent::Generated { task_type, num, now },
            ) => Some(
                (ProducerPhase::Pushing, ProducerAction::Push(Task::new(id, task_type, num, now))),
            ),
            (ProducerPhase::Pushing, ProducerEvent::Pushed { accepted }) => {
                if accepted {
                    Some((ProducerPhase::Resting, ProducerAction::Rest))
                } else {
                    Some((ProducerPhase::Stopped, ProducerAction::Stop))
                }
            },
            (ProducerPhase::Resting, ProducerEvent::Rested) => Some(
                (ProducerPhase::Reserving, ProducerAction::Reserve),
            ),
            _ => None,
        }
    }

    /// Whether the producer has left its loop.
    pub fn is_stopped(self) -> (stopped: bool)
        ensures
            stopped == (self == ProducerPhase::Stopped),
    {
        match self {
            ProducerPhase::Stopped => true,
            _ => false,
        }
    }
}

/// Where a consumer is in its loop.
#[derive(Clone, Copy, Debug, PartialEq, Eq, Structural)]
pub enum ConsumerPhase {
    /// Waiting for the queue's answer to a pop.
    Popping,
    /// Waiting for the accumulator to have taken the task.
    Processing,
    /// Resting after a task.
    Resting,
    /// Out of the loop, for good.
    Stopped,
}

/// What came of the outside work that a consumer asked for.
#[derive(Debug)]
pub enum ConsumerEvent<V> {
    /// The queue answered: a task, or `None` where it is drained.
    Popped(Option<Task<V>>),
    /// The task was applied to the accumulator.
    Processed,
    /// The rest is over.
    Rested,
}

/// The outside work that a consumer asks for next.
#[derive(Debug)]
pub enum ConsumerAction<V> {
    /// Pop a task, waiting while the queue is empty and open.
    Pop,
    /// Apply the task to the accumulator and report the latency.
    Process(Task<V>),
    /// Rest for a duration drawn from the configured interval.
    Rest,
    /// Leave the loop.
    Stop,
}

impl<V> ConsumerEvent<V> {
    /// The event that the answer to a pop is: the task that came, or none
    /// where the queue is drained.
    pub open spec fn of_pop(answer: Result<Task<V>, QueueDrained>) -> Self {
        match answer {
            Ok(task) => ConsumerEvent::Popped(Some(task)),
            Err(_) => ConsumerEvent::Popped(None),
        }
    }

    /// Turns the answer to a pop into the event that the consumer takes.
    pub fn popped(answer: Result<Task<V>, QueueDrained>) -> (event: Self)
        ensures
            event == Self::of_pop(answer),
    {
        match answer {
            Ok(task) => ConsumerEvent::Popped(Some(task)),
            Err(_) => ConsumerEvent::Popped(None),
        }
    }
}

impl ConsumerPhase {
    /// The phase and the first action of a consumer that starts.
    pub open spec fn initial<V>() -> (ConsumerPhase, ConsumerAction<V>) {
        (ConsumerPhase::Popping, ConsumerAction::Pop)
    }

    /// The phase and the action that follow `event`, or `None` where the
    /// event does not fit the phase.
    pub open spec fn next<V>(self, event: ConsumerEvent<V>) -> Option<
        (ConsumerPhase, ConsumerAction<V>),
    > {
        match (self, event) {
            (ConsumerPhase::Popping, ConsumerEvent::Popped(Some(task))) => Some(
                (ConsumerPhase::Processing, ConsumerAction::Process(task)),
            ),
            (ConsumerPhase::Popping, ConsumerEvent::Popped(None)) => Some(
                (ConsumerPhase::Stopped, ConsumerAction::Stop),
            ),
            (ConsumerPhase::Processing, ConsumerEvent::Processed) => Some(
                (ConsumerPhase::Resting, ConsumerAction::Rest),
            ),
            (ConsumerPhase::Resting, ConsumerEvent::Rested) => Some(
                (ConsumerPhase::Popping, ConsumerAction::Pop),
            ),
            _ => None,
        }
    }

    /// The phase after `event`: the same phase where the event is refused.
    pub open spec fn after<V>(self, event: ConsumerEvent<V>) -> ConsumerPhase {
        match self.next(event) {
            Some((phase, _)) => phase,
            None => self,
        }
    }

    /// The phase after a sequence of events, first event first.
    pub open spec fn after_all<V>(self, events: Seq<ConsumerEvent<V>>) -> ConsumerPhase
        decreases events.len(),
    {
        if events.len() == 0 {
            self
        } else {
            self.after_all(events.drop_last()).after(events.last())
        }
    }

    /// The tasks that the consumer took from the queue during a sequence of
    /// events, in the order in which it took them.
    pub open spec fn taken<V>(self, events: Seq<ConsumerEvent<V>>) -> Seq<Task<V>>
        decreases events.len(),
    {
        if events.len() == 0 {
            Seq::empty()
        } else {
            let before = self.after_all(events.drop_last());
            let earlier = self.taken(events.drop_last());
            match (before, events.last()) {
                (ConsumerPhase::Popping, ConsumerEvent::Popped(Some(task))) => earlier.push(task),
                _ => earlier,
            }
        }
    }

    /// The tasks that the consumer asked to have applied during a sequence
    /// of events, in the order in which it asked.
    pub open spec fn handed_on<V>(self, events: Seq<ConsumerEvent<V>>) -> Seq<Task<V>>
        decreases events.len(),
    {
        if events.len() == 0 {
            Seq::empty()
        } else {
            let before = self.after_all(events.drop_last());
            let earlier = self.handed_on(events.drop_last());
            match before.next(events.last()) {
                Some((_, ConsumerAction::Process(task))) => earlier.push(task),
                _ => earlier,
            }
        }
    }

    /// A consumer that starts: its phase and its first action.
    pub fn start<V>() -> (first: (ConsumerPhase, ConsumerAction<V>))
        ensures
            first == Self::initial::<V>(),
    {
        (ConsumerPhase::Popping, ConsumerAction::Pop)
    }

    /// Takes `event` and says how the consumer goes on: its next phase and
    /// the action to perform, or `None` where the event does not fit the
    /// phase.
    pub fn step<V>(self, event: ConsumerEvent<V>) -> (next: Option<
        (ConsumerPhase, ConsumerAction<V>),
    >)
        ensures
            next == self.next(event),
    {
        match (self, event) {
            (ConsumerPhase::Popping, ConsumerEvent::Popped(Some(task))) => Some(
                (ConsumerPhase::Processing, ConsumerAction::Process(task)),
            ),
            (ConsumerPhase::Popping, ConsumerEvent::Popped(None)) => Some(
                (ConsumerPhase::Stopped, ConsumerAction::Stop),
            ),
            (ConsumerPhase::Processing, ConsumerEvent::Processed) => Some(
                (ConsumerPhase::Resting, ConsumerAction::Rest),
            ),
            (ConsumerPhase::Resting, ConsumerEvent::Rested) => Some(
                (ConsumerPhase::Popping, ConsumerAction::Pop),
            ),
            _ => None,
        }
    }

    /// Whether the consumer has left its loop.
    pub fn is_stopped(self) -> (stopped: bool)
        ensures
            stopped == (self == ConsumerPhase::Stopped),
    {
        match self {
            ConsumerPhase::Stopped => true,
            _ => false,
        }
    }
}

/// A producer that has stopped stays stopped: it takes no event, asks for
/// no action, and offers no task.
pub proof fn lemma_stopped_producer_is_silent<V>(events: Seq<ProducerEvent<V>>)
    ensures
        ProducerPhase::Stopped.after_all(events) == ProducerPhase::Stopped,
        ProducerPhase::Stopped.offered(events) == Seq::<Task<V>>::empty(),
        ProducerPhase::Stopped.taken(events) == Seq::<u64>::empty(),
    decreases events.len(),
{
    if events.len() > 0 {
        lemma_stopped_producer_is_silent(events.drop_last());
    }
}

/// A producer offers each id that it took once, in the order in which it
/// took them, and offers nothing else: the ids of the tasks it offered,
/// followed by the id it still holds, are the ids it took.
pub proof fn lemma_producer_offers_what_it_took<V>(events: Seq<ProducerEvent<V>>)
    ensures
        ({
            let phase = ProducerPhase::Reserving;
            phase.offered(events).map_values(|task: Task<V>| task.id) + phase.after_all(
                events,
            ).held() == phase.taken(events)
        }),
    decreases events.len(),
{
    if events.len() > 0 {
        lemma_producer_offers_what_it_took(events.drop_last());
    }
}

/// A consumer that has stopped stays stopped: it takes no event and hands
/// on no task.
pub proof fn lemma_stopped_consumer_is_silent<V>(events: Seq<ConsumerEvent<V>>)
    ensures
        ConsumerPhase::Stopped.after_all(events) == ConsumerPhase::Stopped,
        ConsumerPhase::Stopped.handed_on(events) == Seq::<Task<V>>::empty(),
        ConsumerPhase::Stopped.taken(events) == Seq::<Task<V>>::empty(),
    decreases events.len(),
{
    if events.len() > 0 {
        lemma_stopped_consumer_is_silent(events.drop_last());
    }
}

/// A consumer hands every task that it took to the accumulator, once and in
/// the order in which it took them, and hands on nothing else.
pub proof fn lemma_consumer_hands_on_what_it_took<V>(
    phase: ConsumerPhase,
    events: Seq<ConsumerEvent<V>>,
)
    ensures
        phase.handed_on(events) == phase.taken(events),
    decreases events.len(),
{
    if events.len() > 0 {
        lemma_consumer_hands_on_what_it_took(phase, events.drop_last());
    }
}

/// A producer rests once between two pushes: after a push that the queue
/// took, the only event that it takes is the end of its rest, and only then
/// does it ask for the next id.
pub proof fn lemma_producer_rests_between_pushes<V>(event: ProducerEvent<V>)
    ensures
        ProducerPhase::Pushing.next(ProducerEvent::<V>::Pushed { accepted: true }) == Some(
            (ProducerPhase::Resting, ProducerAction::<V>::Rest),
        ),
        ProducerPhase::Resting.next(event) is Some ==> event is Rested,
        ProducerPhase::Resting.next(ProducerEvent::<V>::Rested) == Some(
            (ProducerPhase::Reserving, ProducerAction::<V>::Reserve),
        ),
{
}

/// Between two pops a consumer applies the task that it took and rests
/// once: after a pop that brought a task, the only event that it takes is
/// that the task was applied, then the only one is the end of its rest, and
/// only then does it pop again.
pub proof fn lemma_consumer_works_and_rests_between_pops<V>(
    task: Task<V>,
    event: ConsumerEvent<V>,
)
    ensures
        ConsumerPhase::Popping.next(ConsumerEvent::Popped(Some(task))) == Some(
            (ConsumerPhase::Processing, ConsumerAction::Process(task)),
        ),
        ConsumerPhase::Processing.next(event) is Some ==> event is Processed,
        ConsumerPhase::Processing.next(ConsumerEvent::<V>::Processed) == Some(
            (ConsumerPhase::Resting, ConsumerAction::<V>::Rest),
        ),
        ConsumerPhase::Resting.next(event) is Some ==> event is Rested,
        ConsumerPhase::Resting.next(ConsumerEvent::<V>::Rested) == Some(
            (ConsumerPhase::Popping, ConsumerAction::<V>::Pop),
        ),
{
}

} // verus!
