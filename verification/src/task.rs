//! Tasks: the unit of work that travels from a producer to a consumer.

use crate::random::RandomSource;
use vstd::prelude::*;

verus! {

/// The arithmetic operation that a task applies to the accumulator.
#[derive(Clone, Copy, Debug, PartialEq, Eq, Structural)]
pub enum TaskType {
    Add,
    Sub,
    Mul,
}

/// How many operations there are.
pub const TASK_TYPE_COUNT: u64 = 3;

impl TaskType {
    /// The operation with the given index: 0 adds, 1 subtracts, 2 multiplies.
    pub open spec fn of_index(index: u64) -> TaskType {
        if index == 0 {
            TaskType::Add
        } else if index == 1 {
            TaskType::Sub
        } else {
            TaskType::Mul
        }
    }

    /// The operation with the given index. An index of `TASK_TYPE_COUNT` or
    /// more names no operation.
    pub fn from_index(index: u64) -> (task_type: TaskType)
        requires
            index < TASK_TYPE_COUNT,
        ensures
            task_type == Self::of_index(index),
    {
        if index == 0 {
            TaskType::Add
        } else if index == 1 {
            TaskType::Sub
        } else {
            TaskType::Mul
        }
    }

    /// Picks one of the operations, each index being as likely as the others
    /// to be drawn from `source`.
    pub fn random(source: &mut RandomSource) -> (task_type: TaskType)
        ensures
            exists|index: u64| index < TASK_TYPE_COUNT && task_type == #[trigger] Self::of_index(index),
    {
        let index: u64 = source.next_below(TASK_TYPE_COUNT);
        Self::from_index(index)
    }
}

/// One unit of work. `V` is the number type of the accumulator; `created_at`
/// is the producer's clock at construction, in milliseconds since the Unix
/// epoch. A task is never changed after it is built.
#[derive(Debug, PartialEq)]
pub struct Task<V> {
    pub id: u64,
    pub task_type: TaskType,
    pub num: V,
    pub created_at: u128,
}

impl<V: Copy> Clone for Task<V> {
    fn clone(&self) -> (copy: Self)
        ensures
            copy == *self,
    {
        *self
    }
}

impl<V: Copy> Copy for Task<V> {

}

impl<V> Task<V> {
    /// Builds a task from its four parts.
    pub fn new(id: u64, task_type: TaskType, num: V, created_at: u128) -> (task: Self)
        ensures
            task == (Task { id, task_type, num, created_at }),
    {
        Task { id, task_type, num, created_at }
    }

    /// The time from the task's creation to `now`, in milliseconds; `None`
    /// where the clock reads earlier than when the task was created.
    pub open spec fn latency(self, now: u128) -> Option<u128> {
        if now >= self.created_at {
            Some((now - self.created_at) as u128)
        } else {
            None
        }
    }

    /// How long ago the task was created, given the current clock reading in
    /// milliseconds since the Unix epoch.
    pub fn elapsed_ms(&self, now: u128) -> (elapsed: Option<u128>)
        ensures
            elapsed == self.latency(now),
    {
        if now >= self.created_at {
            Some(now - self.created_at)
        } else {
            None
        }
    }
}

} // verus!
