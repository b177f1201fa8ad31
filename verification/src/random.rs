//! The random draws of the pipeline: which operation a task carries and how
//! long a worker rests between two units of work.

use rand::rngs::OsRng;
use rand::rngs::StdRng;
use rand::Rng;
use rand::SeedableRng;
use vstd::prelude::*;

verus! {

/// The generator of the `rand` crate that a [`RandomSource`] draws from.
/// Nothing inside it is visible to the verifier.
#[verifier::external_type_specification]
#[verifier::external_body]
pub struct ExStdRng(StdRng);

/// Calls `StdRng::seed_from_u64`. Nothing is claimed of the generator made.
#[verifier::external_body]
fn generator_from_seed(seed: u64) -> StdRng {
    StdRng::seed_from_u64(seed)
}

/// Calls `StdRng::from_rng` on `OsRng`, which asks the operating system for a
/// seed. `None` stands for the error that `from_rng` hands on when the system
/// has no entropy to give.
#[verifier::external_body]
fn generator_from_system() -> Option<StdRng> {
    StdRng::from_rng(OsRng).ok()
}

/// Calls `Rng::gen_range` with the half-open range `low..high`. `gen_range`
/// panics on an empty range, hence the precondition; its integer sampler
/// returns `low` plus an offset smaller than `high - low`.
#[verifier::external_body]
fn draw_in_range(generator: &mut StdRng, low: u64, high: u64) -> (drawn: u64)
    requires
        low < high,
    ensures
        low <= drawn < high,
{
    generator.gen_range(low..high)
}

/// The interval, in milliseconds, from which a worker's rest is drawn:
/// `low_ms` is included, `high_ms` is not.
#[derive(Clone, Copy, Debug, PartialEq, Eq, Structural)]
pub struct DelayInterval {
    low_ms: u64,
    high_ms: u64,
}

/// Lower end of the default rest interval, in milliseconds.
pub const DEFAULT_DELAY_LOW_MS: u64 = 100;

/// Upper end (excluded) of the default rest interval, in milliseconds.
pub const DEFAULT_DELAY_HIGH_MS: u64 = 1000;

impl DelayInterval {
    /// Every interval holds at least one duration.
    #[verifier::type_invariant]
    spec fn non_empty(self) -> bool {
        self.low_ms < self.high_ms
    }

    /// The shortest rest of the interval.
    pub closed spec fn low(self) -> u64 {
        self.low_ms
    }

    /// The first duration above the interval.
    pub closed spec fn high(self) -> u64 {
        self.high_ms
    }

    /// The interval of a run that was not told otherwise.
    pub closed spec fn standard() -> Self {
        DelayInterval { low_ms: DEFAULT_DELAY_LOW_MS, high_ms: DEFAULT_DELAY_HIGH_MS }
    }

    /// Whether a rest of `ms` milliseconds lies in the interval.
    pub open spec fn contains(self, ms: u64) -> bool {
        self.low() <= ms < self.high()
    }

    /// The interval `low_ms..high_ms`, or `None` where it would be empty.
    pub fn new(low_ms: u64, high_ms: u64) -> (interval: Option<Self>)
        ensures
            interval is Some <==> low_ms < high_ms,
            interval matches Some(i) ==> i.low() == low_ms && i.high() == high_ms,
    {
        if low_ms < high_ms {
            Some(DelayInterval { low_ms, high_ms })
        } else {
            None
        }
    }

    /// The shortest rest of the interval.
    pub fn low_ms(&self) -> (ms: u64)
        ensures
            ms == self.low(),
    {
        self.low_ms
    }

    /// The first duration above the interval.
    pub fn high_ms(&self) -> (ms: u64)
        ensures
            ms == self.high(),
    {
        self.high_ms
    }
}

impl Default for DelayInterval {
    /// From a tenth of a second up to, and without, a full second.
    fn default() -> (interval: Self)
        ensures
            interval == Self::standard(),
            interval.low() == DEFAULT_DELAY_LOW_MS,
            interval.high() == DEFAULT_DELAY_HIGH_MS,
    {
        DelayInterval { low_ms: DEFAULT_DELAY_LOW_MS, high_ms: DEFAULT_DELAY_HIGH_MS }
    }
}

/// Where the pipeline's random draws come from: a generator that is either
/// seeded by the caller, and then repeats itself from run to run, or seeded
/// by the operating system.
pub struct RandomSource {
    generator: StdRng,
}

impl RandomSource {
    /// A source that gives the same draws whenever it is made from the same
    /// seed, for runs that have to repeat.
    pub fn seeded(seed: u64) -> Self {
        RandomSource { generator: generator_from_seed(seed) }
    }

    /// A source seeded by the operating system, or `None` when the system
    /// could not provide a seed.
    pub fn from_system() -> Option<Self> {
        match generator_from_system() {
            Some(generator) => Some(RandomSource { generator }),
            None => None,
        }
    }

    /// Draws a number below `bound`.
    pub fn next_below(&mut self, bound: u64) -> (drawn: u64)
        requires
            bound > 0,
        ensures
            drawn < bound,
    {
        draw_in_range(&mut self.generator, 0, bound)
    }

    /// Draws how long a worker rests, in milliseconds.
    pub fn next_delay(&mut self, interval: &DelayInterval) -> (ms: u64)
        ensures
            interval.contains(ms),
    {
        proof {
            use_type_invariant(interval);
        }
        draw_in_range(&mut self.generator, interval.low_ms, interval.high_ms)
    }
}

/// A rest drawn from the interval of a run that was not told otherwise
/// lasts at least a tenth of a second and less than a second.
pub proof fn lemma_default_rest_is_under_a_second(ms: u64)
    requires
        DelayInterval::standard().contains(ms),
    ensures
        DEFAULT_DELAY_LOW_MS <= ms < DEFAULT_DELAY_HIGH_MS,
{
}

} // verus!
