//! The supervisor: what a run is configured with, and the order in which a
//! run is started, stopped and waited for.
//!
//! As with the workers, the caller does the outside work (it starts the
//! workers, lets the run window pass, takes the locks, waits for the workers
//! to end) and reports each step as an event; the supervisor says what comes
//! next.

use crate::queue::DEFAULT_CAPACITY;
use crate::random::DelayInterval;
use vstd::prelude::*;

verus! {

/// How many producers a run has unless told otherwise.
pub const DEFAULT_PRODUCERS: u32 = 5;

/// How many consumers a run has unless told otherwise.
pub const DEFAULT_CONSUMERS: u32 = 5;

/// How long a run lasts unless told otherwise, in milliseconds.
pub const DEFAULT_RUN_MS: u64 = 10_000;

/// What a run is configured with.
#[derive(Clone, Copy, Debug)]
pub struct Config {
    /// The most that the queue may hold.
    pub capacity: usize,
    /// How many producers are started.
    pub producers: u32,
    /// How many consumers are started.
    pub consumers: u32,
    /// How long producers may produce, in milliseconds.
    pub run_ms: u64,
    /// The interval from which each worker's rests are drawn.
    pub delay: DelayInterval,
    /// The seed of the random draws, for runs that have to repeat; `None`
    /// has the operating system seed them.
    pub seed: Option<u64>,
}

impl Config {
    /// How many workers a run has, producers and consumers together.
    pub open spec fn worker_count(self) -> nat {
        (self.producers + self.consumers) as nat
    }

    /// How many workers a run has, producers and consumers together.
    pub fn workers(&self) -> (count: u64)
        ensures
            count == self.worker_count(),
    {
        self.producers as u64 + self.consumers as u64
    }
}

impl Default for Config {
    /// A queue of a hundred, five producers, five consumers, ten seconds,
    /// rests from a tenth of a second up to a second, seeded by the system.
    fn default() -> (config: Self)
        ensures
            config.capacity == DEFAULT_CAPACITY,
            config.producers == DEFAULT_PRODUCERS,
            config.consumers == DEFAULT_CONSUMERS,
            config.run_ms == DEFAULT_RUN_MS,
            config.delay == DelayInterval::standard(),
            config.seed is None,
    {
        Config {
            capacity: DEFAULT_CAPACITY,
            producers: DEFAULT_PRODUCERS,
            consumers: DEFAULT_CONSUMERS,
            run_ms: DEFAULT_RUN_MS,
            delay: DelayInterval::default(),
            seed: None,
        }
    }
}

/// Where the supervisor is in a run.
#[derive(Clone, Copy, Debug, PartialEq, Eq, Structural)]
pub enum SupervisorPhase {
    /// The workers are being started.
    Spawning,
    /// The workers run; the run window passes.
    Running,
    /// The id counter is being told to stop.
    Stopping,
    /// The producer side of the queue is being closed.
    Closing,
    /// Waiting for workers to end: `remaining` of them have not yet.
    Joining { remaining: u64 },
    /// Every worker has ended.
    Done,
}

/// What came of the outside work that the supervisor asked for.
#[derive(Clone, Copy, Debug, PartialEq, Eq, Structural)]
pub enum SupervisorEvent {
    /// All workers were started.
    Spawned,
    /// The run window has passed, or a signal from outside ended it early.
    RunEnded,
    /// The id counter took the request to stop.
    StopRequested,
    /// The producer side of the queue is closed.
    ProducerSideClosed,
    /// One more worker has ended.
    WorkerJoined,
}

/// The outside work that the supervisor asks for next.
#[derive(Clone, Copy, Debug, PartialEq, Eq, Structural)]
pub enum SupervisorAction {
    /// Start this many producers and consumers.
    Spawn { producers: u32, consumers: u32 },
    /// Let the run window of `ms` milliseconds pass.
    Wait { ms: u64 },
    /// Tell the id counter to stop.
    RequestStop,
    /// Close the producer side of the queue.
    CloseQueue,
    /// Wait for one more worker to end.
    Join,
    /// Report that all workers have ended, and return.
    Finish,
}

impl SupervisorPhase {
    /// The phase and the first action of a run.
    pub open spec fn initial(config: Config) -> (SupervisorPhase, SupervisorAction) {
        (
            SupervisorPhase::Spawning,
            SupervisorAction::Spawn { producers: config.producers, consumers: config.consumers },
        )
    }

    /// The phase and the action that follow `event`, or `None` where the
    /// event does not fit the phase.
    pub open spec fn next(self, config: Config, event: SupervisorEvent) -> Option<
        (SupervisorPhase, SupervisorAction),
    > {
        match (self, event) {
            (SupervisorPhase::Spawning, SupervisorEvent::Spawned) => Some(
                (SupervisorPhase::Running, SupervisorAction::Wait { ms: config.run_ms }),
            ),
            (SupervisorPhase::Running, SupervisorEvent::RunEnded) => Some(
                (SupervisorPhase::Stopping, SupervisorAction::RequestStop),
            ),
            (SupervisorPhase::Stopping, SupervisorEvent::StopRequested) => Some(
                (SupervisorPhase::Closing, SupervisorAction::CloseQueue),
            ),
            (SupervisorPhase::Closing, SupervisorEvent::ProducerSideClosed) => if config.worker_count()
                == 0 {
                Some((SupervisorPhase::Done, SupervisorAction::Finish))
            } else {
                Some(
                    (
                        SupervisorPhase::Joining { remaining: config.worker_count() as u64 },
                        SupervisorAction::Join,
                    ),
                )
            },
            (SupervisorPhase::Joining { remaining }, SupervisorEvent::WorkerJoined) => if remaining
                == 1 {
                Some((SupervisorPhase::Done, SupervisorAction::Finish))
            } else if remaining > 1 {
                Some(
                    (
                        SupervisorPhase::Joining { remaining: (remaining - 1) as u64 },
                        SupervisorAction::Join,
                    ),
                )
            } else {
                None
            },
            _ => None,
        }
    }

    /// The phase after `event`: the same phase where the event is refused.
    pub open spec fn after(self, config: Config, event: SupervisorEvent) -> SupervisorPhase {
        match self.next(config, event) {
            Some((phase, _)) => phase,
            None => self,
        }
    }

    /// The phase after a sequence of events, first event first.
    pub open spec fn after_all(self, config: Config, events: Seq<SupervisorEvent>) -> SupervisorPhase
        decreases events.len(),
    {
        if events.len() == 0 {
            self
        } else {
            self.after_all(config, events.drop_last()).after(config, events.last())
        }
    }

    /// The actions that the supervisor asked for during a sequence of
    /// events, in the order in which it asked.
    pub open spec fn asked(self, config: Config, events: Seq<SupervisorEvent>) -> Seq<
        SupervisorAction,
    >
        decreases events.len(),
    {
        if events.len() == 0 {
            Seq::empty()
        } else {
            let before = self.after_all(config, events.drop_last());
            let earlier = self.asked(config, events.drop_last());
            match before.next(config, events.last()) {
                Some((_, action)) => earlier.push(action),
                None => earlier,
            }
        }
    }

    /// The one course that a run takes after its workers were started: the
    /// run window, the request to stop, the closing of the queue, one join
    /// for each worker, and the end.
    pub open spec fn course(config: Config) -> Seq<SupervisorAction> {
        Seq::new(
            config.worker_count() + 4,
            |i: int|
                if i == 0 {
                    SupervisorAction::Wait { ms: config.run_ms }
                } else if i == 1 {
                    SupervisorAction::RequestStop
                } else if i == 2 {
                    SupervisorAction::CloseQueue
                } else if i < config.worker_count() + 3 {
                    SupervisorAction::Join
                } else {
                    SupervisorAction::Finish
                },
        )
    }

    /// How far along its course a supervisor in this phase is: how many of
    /// the course's actions it has asked for.
    pub open spec fn progress(self, config: Config) -> nat {
        match self {
            SupervisorPhase::Spawning => 0,
            SupervisorPhase::Running => 1,
            SupervisorPhase::Stopping => 2,
            SupervisorPhase::Closing => 3,
            SupervisorPhase::Joining { remaining } => (config.worker_count() - remaining + 4) as nat,
            SupervisorPhase::Done => config.worker_count() + 4,
        }
    }

    /// Whether a run that began with `config` can be in this phase.
    pub open spec fn reachable(self, config: Config) -> bool {
        match self {
            SupervisorPhase::Joining { remaining } => 1 <= remaining <= config.worker_count(),
            _ => true,
        }
    }

    /// A run that starts: its phase and its first action.
    pub fn start(config: &Config) -> (first: (SupervisorPhase, SupervisorAction))
        ensures
            first == Self::initial(*config),
    {
        (
            SupervisorPhase::Spawning,
            SupervisorAction::Spawn { producers: config.producers, consumers: config.consumers },
        )
    }

    /// Takes `event` and says how the run goes on: the next phase and the
    /// action to perform, or `None` where the event does not fit the phase.
    pub fn step(self, config: &Config, event: SupervisorEvent) -> (next: Option<
        (SupervisorPhase, SupervisorAction),
    >)
        ensures
            next == self.next(*config, event),
    {
        match (self, event) {
            (SupervisorPhase::Spawning, SupervisorEvent::Spawned) => Some(
                (SupervisorPhase::Running, SupervisorAction::Wait { ms: config.run_ms }),
            ),
            (SupervisorPhase::Running, SupervisorEvent::RunEnded) => Some(
                (SupervisorPhase::Stopping, SupervisorAction::RequestStop),
            ),
            (SupervisorPhase::Stopping, SupervisorEvent::StopRequested) => Some(
                (SupervisorPhase::Closing, SupervisorAction::CloseQueue),
            ),
            (SupervisorPhase::Closing, SupervisorEvent::ProducerSideClosed) => {
                let workers: u64 = config.workers();
                if workers == 0 {
                    Some((SupervisorPhase::Done, SupervisorAction::Finish))
                } else {
                    Some((SupervisorPhase::Joining { remaining: workers }, SupervisorAction::Join))
                }
            },
            (SupervisorPhase::Joining { remaining }, SupervisorEvent::WorkerJoined) => {
                if remaining == 1 {
                    Some((SupervisorPhase::Done, SupervisorAction::Finish))
                } else if remaining > 1 {
                    Some(
                        (
                            SupervisorPhase::Joining { remaining: remaining - 1 },
                            SupervisorAction::Join,
                        ),
                    )
                } else {
                    None
                }
            },
            _ => None,
        }
    }

    /// Whether the run is over.
    pub fn is_done(self) -> (done: bool)
        ensures
            done == (self == SupervisorPhase::Done),
    {
        match self {
            SupervisorPhase::Done => true,
            _ => false,
        }
    }
}

/// A run keeps to its course: whatever events arrive, the actions that the
/// supervisor has asked for are the first actions of the course, as many as
/// its phase says. So the stop is requested before the queue is closed, the
/// queue is closed before any worker is waited for, and the run ends only
/// when each worker was waited for once.
pub proof fn lemma_run_keeps_to_its_course(config: Config, events: Seq<SupervisorEvent>)
    ensures
        ({
            let start = SupervisorPhase::Spawning;
            let end = start.after_all(config, events);
            &&& end.reachable(config)
            &&& end.progress(config) <= SupervisorPhase::course(config).len()
            &&& start.asked(config, events) == SupervisorPhase::course(config).take(
                end.progress(config) as int,
            )
        }),
    decreases events.len(),
{
    if events.len() > 0 {
        lemma_run_keeps_to_its_course(config, events.drop_last());
    }
}

/// A run that is over has asked for its whole course: the run window, the
/// request to stop, the closing of the queue, one join for each worker, and
/// the end, in this order.
pub proof fn lemma_finished_run_joined_every_worker(config: Config, events: Seq<SupervisorEvent>)
    requires
        SupervisorPhase::Spawning.after_all(config, events) == SupervisorPhase::Done,
    ensures
        SupervisorPhase::Spawning.asked(config, events) == SupervisorPhase::course(config),
{
    lemma_run_keeps_to_its_course(config, events);
}

/// A run that is over stays over: no event is taken, no action asked for.
pub proof fn lemma_finished_run_is_silent(config: Config, events: Seq<SupervisorEvent>)
    ensures
        SupervisorPhase::Done.after_all(config, events) == SupervisorPhase::Done,
        SupervisorPhase::Done.asked(config, events) == Seq::<SupervisorAction>::empty(),
    decreases events.len(),
{
    if events.len() > 0 {
        lemma_finished_run_is_silent(config, events.drop_last());
    }
}

} // verus!
