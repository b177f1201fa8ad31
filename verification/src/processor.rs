//! The accumulator: one number that the consumers change, one task at a time.
//!
//! The number's type is the caller's choice; its `+`, `-` and `*` are what a
//! task applies. Callers keep one `TaskProcessor` behind a lock, so that the
//! tasks reach it in some order; what it holds is then the fold of that order.

use crate::task::Task;
use crate::task::TaskType;
use std::ops::Add;
use std::ops::Mul;
use std::ops::Sub;
use vstd::prelude::*;
use vstd::std_specs::ops::AddSpec;
use vstd::std_specs::ops::MulSpec;
use vstd::std_specs::ops::SubSpec;

verus! {

/// Whether `+`, `-` and `*` on `V` compute what their specifications say.
pub open spec fn arithmetic_is_exact<V: Add<Output = V> + Sub<Output = V> + Mul<Output = V>>() -> bool {
    V::obeys_add_spec() && V::obeys_sub_spec() && V::obeys_mul_spec()
}

/// Whether `V` lets `task` be applied to `state`: on an integer type, that
/// the result fits.
pub open spec fn applicable<V: Add<Output = V> + Sub<Output = V> + Mul<Output = V>>(
    state: V,
    task: Task<V>,
) -> bool {
    match task.task_type {
        TaskType::Add => state.add_req(task.num),
        TaskType::Sub => state.sub_req(task.num),
        TaskType::Mul => state.mul_req(task.num),
    }
}

/// The accumulator after `task` was applied to `state`: the operand is
/// added to it, subtracted from it, or multiplied with it.
pub open spec fn applied<V: Add<Output = V> + Sub<Output = V> + Mul<Output = V>>(
    state: V,
    task: Task<V>,
) -> V {
    match task.task_type {
        TaskType::Add => state.add_spec(task.num),
        TaskType::Sub => state.sub_spec(task.num),
        TaskType::Mul => state.mul_spec(task.num),
    }
}

/// The accumulator after the tasks were applied to `state` one after the
/// other, the first task first.
pub open spec fn folded<V: Add<Output = V> + Sub<Output = V> + Mul<Output = V>>(
    state: V,
    tasks: Seq<Task<V>>,
) -> V
    decreases tasks.len(),
{
    if tasks.len() == 0 {
        state
    } else {
        applied(folded(state, tasks.drop_last()), tasks.last())
    }
}

/// The accumulator and the one place where tasks are applied to it.
#[derive(Debug)]
pub struct TaskProcessor<V> {
    state: V,
}

impl<V: Copy + Add<Output = V> + Sub<Output = V> + Mul<Output = V>> TaskProcessor<V> {
    /// What the accumulator holds.
    pub closed spec fn value(&self) -> V {
        self.state
    }

    /// An accumulator that holds `initial_state`.
    pub fn new(initial_state: V) -> (processor: Self)
        ensures
            processor.value() == initial_state,
    {
        TaskProcessor { state: initial_state }
    }

    /// What the accumulator holds.
    pub fn state(&self) -> (state: V)
        ensures
            state == self.value(),
    {
        self.state
    }

    /// Applies `task` to the accumulator and returns what the accumulator
    /// holds afterwards.
    pub fn process_task(&mut self, task: Task<V>) -> (state: V)
        requires
            applicable(old(self).value(), task),
        ensures
            state == final(self).value(),
            arithmetic_is_exact::<V>() ==> final(self).value() == applied(old(self).value(), task),
    {
        match task.task_type {
            TaskType::Add => {
                self.state = self.state + task.num;
            },
            TaskType::Sub => {
                self.state = self.state - task.num;
            },
            TaskType::Mul => {
                self.state = self.state * task.num;
            },
        }
        self.state
    }
}

/// The fold is sequential: folding one run of tasks and then another is
/// folding the two runs joined.
pub proof fn lemma_fold_continues<V: Add<Output = V> + Sub<Output = V> + Mul<Output = V>>(
    state: V,
    first: Seq<Task<V>>,
    second: Seq<Task<V>>,
)
    ensures
        folded(folded(state, first), second) == folded(state, first + second),
    decreases second.len(),
{
    if second.len() > 0 {
        lemma_fold_continues(state, first, second.drop_last());
        assert((first + second).drop_last() =~= first + second.drop_last());
    }
}

/// Applying one more task extends the fold by that task.
pub proof fn lemma_fold_step<V: Add<Output = V> + Sub<Output = V> + Mul<Output = V>>(
    state: V,
    tasks: Seq<Task<V>>,
    task: Task<V>,
)
    ensures
        applied(folded(state, tasks), task) == folded(state, tasks.push(task)),
{
    assert(tasks.push(task).drop_last() =~= tasks);
}

} // verus!
