//! The bounded queue as a channel between threads: the bounded channel of
//! the `crossbeam` crate, which does its own locking and makes a caller wait
//! while it is full or empty.
//!
//! A channel has no call that closes it. Its producer side is closed once
//! every `TaskSender` was dropped: what is queued then stays to be popped,
//! and a pop on the empty channel fails with `QueueDrained`. A push fails
//! with `QueueClosed` once every `TaskReceiver` was dropped.

use crossbeam::channel::bounded;
use crossbeam::channel::Receiver;
use crossbeam::channel::SendError;
use crossbeam::channel::Sender;
use vstd::prelude::*;

verus! {

/// The sending half of a `crossbeam` channel. Nothing inside it is visible to
/// the verifier.
#[verifier::external_type_specification]
#[verifier::external_body]
#[verifier::reject_recursive_types(T)]
pub struct ExSender<T>(Sender<T>);

/// The receiving half of a `crossbeam` channel. Nothing inside it is visible
/// to the verifier.
#[verifier::external_type_specification]
#[verifier::external_body]
#[verifier::reject_recursive_types(T)]
pub struct ExReceiver<T>(Receiver<T>);

/// `Sender::clone` gives another sending half of the same channel; it ends
/// the process, without a panic, should a channel ever have more than
/// `isize::MAX` of them. Nothing is claimed of the half made.
pub assume_specification<T>[ <Sender<T> as Clone>::clone ](sender: &Sender<T>) -> Sender<T>;

/// `Receiver::clone` gives another receiving half of the same channel, with
/// the same limit. Nothing is claimed of the half made.
pub assume_specification<T>[ <Receiver<T> as Clone>::clone ](receiver: &Receiver<T>) -> Receiver<T>;

/// The largest capacity that a channel is made with. `bounded` rounds the
/// capacity plus one up to a power of two and doubles that, and panics where
/// the result does not fit its index type, which has 64 bits or, on a target
/// without atomic integers of that width, the bits of `usize`. Up to this
/// capacity the result fits in 32 bits.
pub const MAX_CHANNEL_CAPACITY: usize = 0x3fff_ffff;

/// Calls `crossbeam::channel::bounded`. Nothing is claimed of the two halves.
#[verifier::external_body]
fn channel_halves<T>(capacity: usize) -> (Sender<T>, Receiver<T>)
    requires
        capacity <= MAX_CHANNEL_CAPACITY,
{
    bounded(capacity)
}

/// Calls `Sender::send`, which waits while the channel is full. It fails
/// only with `SendError`, and that error holds the message that was handed
/// in: the message comes back as the `Err` value.
#[verifier::external_body]
fn send_waiting<T>(sender: &Sender<T>, item: T) -> (sent: Result<(), T>)
    ensures
        sent matches Err(back) ==> back == item,
{
    match sender.send(item) {
        Ok(()) => Ok(()),
        Err(SendError(back)) => Err(back),
    }
}

/// Calls `Receiver::recv`, which waits while the channel is empty and some
/// sender is left. `None` stands for its only error, `RecvError`. Nothing is
/// claimed of the message.
#[verifier::external_body]
fn receive_waiting<T>(receiver: &Receiver<T>) -> Option<T> {
    receiver.recv().ok()
}

/// A push failed because the queue is closed. The task that was not taken
/// comes back, for the caller to drop.
#[derive(Debug)]
pub struct QueueClosed<T> {
    pub task: T,
}

/// A pop failed because the queue is closed and empty.
#[derive(Clone, Copy, Debug, PartialEq, Eq, Structural)]
pub struct QueueDrained;

/// The producer side of a channel. A clone is one more handle on the same
/// channel.
#[derive(Debug)]
#[verifier::reject_recursive_types(T)]
pub struct TaskSender<T> {
    sender: Sender<T>,
}

/// The consumer side of a channel. A clone is one more handle on the same
/// channel.
#[derive(Debug)]
#[verifier::reject_recursive_types(T)]
pub struct TaskReceiver<T> {
    receiver: Receiver<T>,
}

impl<T> Clone for TaskSender<T> {
    fn clone(&self) -> Self {
        TaskSender { sender: self.sender.clone() }
    }
}

impl<T> Clone for TaskReceiver<T> {
    fn clone(&self) -> Self {
        TaskReceiver { receiver: self.receiver.clone() }
    }
}

/// A channel that holds at most `capacity` tasks, as its two sides; `None`
/// where the capacity is above `MAX_CHANNEL_CAPACITY`.
pub fn task_channel<T>(capacity: usize) -> (channel: Option<(TaskSender<T>, TaskReceiver<T>)>)
    ensures
        channel is Some <==> capacity <= MAX_CHANNEL_CAPACITY,
{
    if capacity <= MAX_CHANNEL_CAPACITY {
        let (sender, receiver) = channel_halves(capacity);
        Some((TaskSender { sender }, TaskReceiver { receiver }))
    } else {
        None
    }
}

impl<T> TaskSender<T> {
    /// Pushes `task`, waiting while the channel is full. Whether the push
    /// succeeds is up to the other threads; where it fails, the error holds
    /// the task.
    pub fn push(&self, task: T) -> (pushed: Result<(), QueueClosed<T>>)
        ensures
            pushed matches Err(closed) ==> closed.task == task,
    {
        match send_waiting(&self.sender, task) {
            Ok(_) => Ok(()),
            Err(back) => Err(QueueClosed { task: back }),
        }
    }
}

impl<T> TaskReceiver<T> {
    /// Pops the oldest task, waiting while the channel is empty and open.
    /// Which task comes, or whether the channel is found drained, is up to
    /// the other threads.
    pub fn pop(&self) -> Result<T, QueueDrained> {
        match receive_waiting(&self.receiver) {
            Some(task) => Ok(task),
            None => Err(QueueDrained),
        }
    }
}

} // verus!
