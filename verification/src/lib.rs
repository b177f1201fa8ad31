//! A bounded producer/consumer pipeline of arithmetic tasks.
//!
//! Producers reserve ids from a shared counter, build tasks and push them onto
//! a capacity-bounded FIFO queue; consumers pop tasks and fold them, one at a
//! time, into a single accumulator. Shutdown is cooperative: the counter stops
//! handing out ids, the producer side of the queue is closed, and the
//! consumers drain what is left.
//!
//! Every component is a sequential value with a mathematical view. Callers put
//! each shared component behind their own lock; the contracts then hold of the
//! order in which the lock was taken.
//!
//! - [`task`]: the tasks and their three operations.
//! - [`producer_state`]: the id counter and the shutdown flag.
//! - [`queue`]: the bounded queue, which never waits and says when its
//!   caller has to.
//! - [`channel`]: the bounded queue as a channel between threads.
//! - [`processor`]: the accumulator.
//! - [`random`]: the random draws.
//! - [`worker`]: what a producer and a consumer do next.
//! - [`supervisor`]: the configuration of a run and what its supervisor
//!   does next.
//! - [`pipeline`]: all of these together, and what holds of every run.

pub mod channel;
pub mod pipeline;
pub mod processor;
pub mod producer_state;
pub mod queue;
pub mod random;
pub mod supervisor;
pub mod task;
pub mod worker;
