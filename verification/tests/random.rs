use taskflow::random::DelayInterval;
use taskflow::random::RandomSource;
use taskflow::random::DEFAULT_DELAY_HIGH_MS;
use taskflow::random::DEFAULT_DELAY_LOW_MS;

#[test]
fn the_default_interval_is_a_tenth_of_a_second_to_a_second() {
    let interval = DelayInterval::default();
    assert_eq!(interval.low_ms(), 100);
    assert_eq!(interval.high_ms(), 1000);
    assert_eq!(DEFAULT_DELAY_LOW_MS, 100);
    assert_eq!(DEFAULT_DELAY_HIGH_MS, 1000);
}

#[test]
fn an_interval_needs_low_below_high() {
    assert!(DelayInterval::new(5, 5).is_none());
    assert!(DelayInterval::new(6, 5).is_none());
    assert!(DelayInterval::new(0, 0).is_none());
    let interval = DelayInterval::new(5, 6).unwrap();
    assert_eq!(interval.low_ms(), 5);
    assert_eq!(interval.high_ms(), 6);
    assert_eq!(DelayInterval::new(100, 1000), Some(DelayInterval::default()));
}

#[test]
fn delays_lie_in_the_interval() {
    let mut source = RandomSource::seeded(42);
    let interval = DelayInterval::default();
    for _ in 0..2000 {
        let ms = source.next_delay(&interval);
        assert!(ms >= 100);
        assert!(ms < 1000);
    }
}

#[test]
fn delays_vary_and_do_not_echo_a_bound() {
    let mut source = RandomSource::seeded(42);
    let interval = DelayInterval::default();
    let mut drawn: Vec<u64> = Vec::new();
    for _ in 0..200 {
        drawn.push(source.next_delay(&interval));
    }
    assert!(drawn.iter().any(|ms| *ms != 100));
    assert!(drawn.iter().all(|ms| *ms != 1000));
    let mut distinct = drawn.clone();
    distinct.sort();
    distinct.dedup();
    assert!(distinct.len() > 50);
}

#[test]
fn an_interval_of_one_duration_always_gives_it() {
    let mut source = RandomSource::seeded(1);
    let interval = DelayInterval::new(250, 251).unwrap();
    for _ in 0..50 {
        assert_eq!(source.next_delay(&interval), 250);
    }
}

#[test]
fn draws_stay_below_the_bound() {
    let mut source = RandomSource::seeded(9);
    for bound in [1u64, 2, 3, 10, 1_000_000, u64::MAX] {
        for _ in 0..100 {
            assert!(source.next_below(bound) < bound);
        }
    }
    assert_eq!(source.next_below(1), 0);
}

#[test]
fn the_same_seed_gives_the_same_draws() {
    let mut first = RandomSource::seeded(42);
    let mut second = RandomSource::seeded(42);
    let interval = DelayInterval::default();
    for _ in 0..100 {
        assert_eq!(first.next_delay(&interval), second.next_delay(&interval));
    }
}

#[test]
fn different_seeds_give_different_draws() {
    let mut first = RandomSource::seeded(1);
    let mut second = RandomSource::seeded(2);
    let mut same = true;
    for _ in 0..100 {
        if first.next_below(u64::MAX) != second.next_below(u64::MAX) {
            same = false;
        }
    }
    assert!(!same);
}

#[test]
fn a_source_seeded_by_the_system_draws_in_range() {
    let mut source = RandomSource::from_system().expect("the system provides a seed");
    let interval = DelayInterval::default();
    for _ in 0..100 {
        let ms = source.next_delay(&interval);
        assert!(ms >= 100 && ms < 1000);
    }
}

#[test]
fn a_default_rest_is_under_a_second() {
    let mut source = RandomSource::seeded(3);
    let interval = DelayInterval::default();
    let mut longest: u64 = 0;
    let mut shortest: u64 = u64::MAX;
    for _ in 0..5000 {
        let ms = source.next_delay(&interval);
        longest = longest.max(ms);
        shortest = shortest.min(ms);
    }
    assert!(shortest >= 100);
    assert!(longest < 1000);
    assert!(longest > 900);
    assert!(shortest < 200);
}
