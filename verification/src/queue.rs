//! The bounded task queue: a first-in, first-out buffer of fixed capacity
//! whose producer side can be closed.
//!
//! The queue itself never waits. Where a push finds no room, or a pop finds
//! nothing to take, the call says so and changes nothing; the caller, who
//! holds the queue behind a lock, waits for the other side and calls again.
//! A worker that waits this way sees a push that blocks until there is room
//! and a pop that blocks until there is a task.

use std::collections::VecDeque;
use vstd::prelude::*;

verus! {

/// The capacity of a queue that was not told otherwise.
pub const DEFAULT_CAPACITY: usize = 100;

/// What a `BoundedQueue` stands for: the tasks it holds, oldest first, the
/// most it may hold, and whether its producer side is closed.
pub struct QueueView<T> {
    pub items: Seq<T>,
    pub capacity: nat,
    pub closed: bool,
}

/// One call that reaches the queue.
pub enum QueueOp<T> {
    /// A producer offers a task (`try_push`).
    Push(T),
    /// A consumer asks for a task (`try_pop`).
    Pop,
    /// The supervisor closes the producer side (`close`).
    Close,
}

impl<T> QueueView<T> {
    /// An open queue that holds nothing.
    pub open spec fn empty(capacity: nat) -> Self {
        QueueView { items: Seq::empty(), capacity, closed: false }
    }

    /// The queue holds no more than its capacity.
    pub open spec fn within_capacity(self) -> bool {
        self.items.len() <= self.capacity
    }

    /// There is no room for another task.
    pub open spec fn full(self) -> bool {
        self.items.len() >= self.capacity
    }

    /// A push is taken: the producer side is open and there is room.
    pub open spec fn accepts(self) -> bool {
        !self.closed && !self.full()
    }

    /// Closed and empty: nothing is left to pop, and nothing will come.
    pub open spec fn drained(self) -> bool {
        self.closed && self.items.len() == 0
    }

    /// The queue after a push of `item`.
    pub open spec fn after_push(self, item: T) -> Self {
        if self.accepts() {
            QueueView { items: self.items.push(item), capacity: self.capacity, closed: self.closed }
        } else {
            self
        }
    }

    /// What a pop hands out.
    pub open spec fn front(self) -> Option<T> {
        if self.items.len() > 0 {
            Some(self.items.first())
        } else {
            None
        }
    }

    /// The queue after a pop.
    pub open spec fn after_pop(self) -> Self {
        if self.items.len() > 0 {
            QueueView {
                items: self.items.drop_first(),
                capacity: self.capacity,
                closed: self.closed,
            }
        } else {
            self
        }
    }

    /// The queue after its producer side was closed.
    pub open spec fn after_close(self) -> Self {
        QueueView { items: self.items, capacity: self.capacity, closed: true }
    }

    /// The queue after one call.
    pub open spec fn after(self, op: QueueOp<T>) -> Self {
        match op {
            QueueOp::Push(item) => self.after_push(item),
            QueueOp::Pop => self.after_pop(),
            QueueOp::Close => self.after_close(),
        }
    }

    /// The queue after a sequence of calls, first call first.
    pub open spec fn after_all(self, ops: Seq<QueueOp<T>>) -> Self
        decreases ops.len(),
    {
        if ops.len() == 0 {
            self
        } else {
            self.after_all(ops.drop_last()).after(ops.last())
        }
    }

    /// The tasks that the pushes of a sequence of calls got into the queue,
    /// in the order of the pushes.
    pub open spec fn accepted(self, ops: Seq<QueueOp<T>>) -> Seq<T>
        decreases ops.len(),
    {
        if ops.len() == 0 {
            Seq::empty()
        } else {
            let before = self.after_all(ops.drop_last());
            let earlier = self.accepted(ops.drop_last());
            match ops.last() {
                QueueOp::Push(item) => if before.accepts() {
                    earlier.push(item)
                } else {
                    earlier
                },
                _ => earlier,
            }
        }
    }

    /// The tasks that the pops of a sequence of calls handed out, in the
    /// order of the pops.
    pub open spec fn delivered(self, ops: Seq<QueueOp<T>>) -> Seq<T>
        decreases ops.len(),
    {
        if ops.len() == 0 {
            Seq::empty()
        } else {
            let before = self.after_all(ops.drop_last());
            let earlier = self.delivered(ops.drop_last());
            match (ops.last(), before.front()) {
                (QueueOp::Pop, Some(item)) => earlier.push(item),
                _ => earlier,
            }
        }
    }
}

/// Why a push did not take the task. The task comes back to the caller.
#[derive(Debug)]
pub enum PushError<T> {
    /// The queue is at capacity: wait until a task was popped, then offer the
    /// task again.
    Full(T),
    /// The producer side is closed: the task is to be dropped.
    Closed(T),
}

/// Why a pop handed out no task.
#[derive(Clone, Copy, Debug, PartialEq, Eq, Structural)]
pub enum PopError {
    /// Nothing is queued, but the producer side is open: wait until a task
    /// was pushed or the queue was closed, then ask again.
    Empty,
    /// The queue is closed and empty: no task will ever come.
    Drained,
}

/// A first-in, first-out queue that never holds more than its capacity: a new
/// queue is within its capacity, and every call keeps it so.
#[derive(Debug)]
pub struct BoundedQueue<T> {
    items: VecDeque<T>,
    capacity: usize,
    closed: bool,
}

impl<T> View for BoundedQueue<T> {
    type V = QueueView<T>;

    closed spec fn view(&self) -> QueueView<T> {
        QueueView { items: self.items@, capacity: self.capacity as nat, closed: self.closed }
    }
}

impl<T> BoundedQueue<T> {
    /// An open, empty queue that holds at most `capacity` tasks.
    pub fn new(capacity: usize) -> (queue: Self)
        ensures
            queue@ == QueueView::<T>::empty(capacity as nat),
            queue@.within_capacity(),
    {
        BoundedQueue { items: VecDeque::new(), capacity, closed: false }
    }

    /// Offers `item` to the queue. On a closed queue the push fails with
    /// `Closed`; on an open queue at capacity it fails with `Full`; else the
    /// item becomes the newest of the queue. A push that fails changes
    /// nothing and hands the item back.
    pub fn try_push(&mut self, item: T) -> (pushed: Result<(), PushError<T>>)
        ensures
            final(self)@ == old(self)@.after_push(item),
            old(self)@.within_capacity() ==> final(self)@.within_capacity(),
            match pushed {
                Ok(_) => old(self)@.accepts(),
                Err(PushError::Closed(back)) => old(self)@.closed && back == item,
                Err(PushError::Full(back)) => !old(self)@.closed && old(self)@.full() && back
                    == item,
            },
    {
        if self.closed {
            Err(PushError::Closed(item))
        } else if self.items.len() >= self.capacity {
            Err(PushError::Full(item))
        } else {
            self.items.push_back(item);
            Ok(())
        }
    }

    /// Takes the oldest item. On an empty queue the pop fails: with
    /// `Drained` where the queue is closed, with `Empty` where it is open.
    /// What was pushed before the queue was closed stays there to be popped.
    pub fn try_pop(&mut self) -> (popped: Result<T, PopError>)
        ensures
            final(self)@ == old(self)@.after_pop(),
            old(self)@.within_capacity() ==> final(self)@.within_capacity(),
            match popped {
                Ok(item) => old(self)@.front() == Some(item),
                Err(PopError::Drained) => old(self)@.drained(),
                Err(PopError::Empty) => old(self)@.items.len() == 0 && !old(self)@.closed,
            },
    {
        match self.items.pop_front() {
            Some(item) => Ok(item),
            None => {
                if self.closed {
                    Err(PopError::Drained)
                } else {
                    Err(PopError::Empty)
                }
            },
        }
    }

    /// Closes the producer side. What is queued stays queued; closing a
    /// closed queue changes nothing.
    pub fn close(&mut self)
        ensures
            final(self)@ == old(self)@.after_close(),
            old(self)@.within_capacity() ==> final(self)@.within_capacity(),
    {
        self.closed = true;
    }

    /// How many items are queued.
    pub fn len(&self) -> (len: usize)
        ensures
            len == self@.items.len(),
    {
        self.items.len()
    }

    /// The most that the queue may hold.
    pub fn capacity(&self) -> (capacity: usize)
        ensures
            capacity == self@.capacity,
    {
        self.capacity
    }

    /// Whether nothing is queued.
    pub fn is_empty(&self) -> (empty: bool)
        ensures
            empty == (self@.items.len() == 0),
    {
        self.items.len() == 0
    }

    /// Whether the queue is at capacity.
    pub fn is_full(&self) -> (full: bool)
        ensures
            full == self@.full(),
    {
        self.items.len() >= self.capacity
    }

    /// Whether the producer side is closed.
    pub fn is_closed(&self) -> (closed: bool)
        ensures
            closed == self@.closed,
    {
        self.closed
    }

    /// Whether the queue is closed and empty.
    pub fn is_drained(&self) -> (drained: bool)
        ensures
            drained == self@.drained(),
    {
        self.closed && self.items.len() == 0
    }
}

/// Bounded capacity: a queue within its capacity stays within it, whatever
/// calls reach it, and its capacity never changes.
pub proof fn lemma_capacity_is_respected<T>(start: QueueView<T>, ops: Seq<QueueOp<T>>)
    requires
        start.within_capacity(),
    ensures
        start.after_all(ops).within_capacity(),
        start.after_all(ops).capacity == start.capacity,
    decreases ops.len(),
{
    if ops.len() > 0 {
        lemma_capacity_is_respected(start, ops.drop_last());
    }
}

/// No loss, no copy, no overtaking: at every moment, what the queue held at
/// first followed by what it accepted since is what it handed out since
/// followed by what it still holds.
pub proof fn lemma_nothing_is_lost<T>(start: QueueView<T>, ops: Seq<QueueOp<T>>)
    ensures
        start.items + start.accepted(ops) == start.delivered(ops) + start.after_all(ops).items,
    decreases ops.len(),
{
    if ops.len() > 0 {
        let rest = ops.drop_last();
        lemma_nothing_is_lost(start, rest);
        if let QueueOp::Push(item) = ops.last() {
            assert(start.items + start.accepted(rest).push(item) =~= (start.items
                + start.accepted(rest)).push(item));
        }
    }
}

/// Once the queue is drained, every task that was in it or was accepted by
/// it has been handed out, each once and in the order of arrival.
pub proof fn lemma_drained_queue_delivered_all<T>(start: QueueView<T>, ops: Seq<QueueOp<T>>)
    requires
        start.after_all(ops).drained(),
    ensures
        start.delivered(ops) == start.items + start.accepted(ops),
        start.delivered(ops).len() == start.items.len() + start.accepted(ops).len(),
{
    lemma_nothing_is_lost(start, ops);
}

/// A closed queue stays closed and accepts nothing, whatever calls follow.
pub proof fn lemma_closed_queue_accepts_nothing<T>(start: QueueView<T>, ops: Seq<QueueOp<T>>)
    requires
        start.closed,
    ensures
        start.after_all(ops).closed,
        start.accepted(ops) == Seq::<T>::empty(),
    decreases ops.len(),
{
    if ops.len() > 0 {
        lemma_closed_queue_accepts_nothing(start, ops.drop_last());
    }
}

} // verus!
