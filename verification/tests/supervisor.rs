use taskflow::random::DelayInterval;
use taskflow::supervisor::Config;
use taskflow::supervisor::SupervisorAction;
use taskflow::supervisor::SupervisorEvent;
use taskflow::supervisor::SupervisorPhase;
use taskflow::supervisor::DEFAULT_CONSUMERS;
use taskflow::supervisor::DEFAULT_PRODUCERS;
use taskflow::supervisor::DEFAULT_RUN_MS;

fn config_of(producers: u32, consumers: u32, run_ms: u64) -> Config {
    Config { capacity: 100, producers, consumers, run_ms, delay: DelayInterval::default(), seed: Some(42) }
}

#[test]
fn the_default_run_has_five_producers_five_consumers_and_a_queue_of_a_hundred() {
    let config = Config::default();
    assert_eq!(config.capacity, 100);
    assert_eq!(config.producers, 5);
    assert_eq!(config.consumers, 5);
    assert_eq!(config.run_ms, 10_000);
    assert_eq!(config.delay, DelayInterval::default());
    assert_eq!(config.seed, None);
    assert_eq!(config.workers(), 10);
    assert_eq!(DEFAULT_PRODUCERS, 5);
    assert_eq!(DEFAULT_CONSUMERS, 5);
    assert_eq!(DEFAULT_RUN_MS, 10_000);
}

#[test]
fn the_worker_count_does_not_overflow() {
    let config = config_of(u32::MAX, u32::MAX, 1);
    assert_eq!(config.workers(), 2 * (u32::MAX as u64));
}

#[test]
fn a_run_starts_by_spawning_its_workers() {
    let config = config_of(3, 2, 500);
    let (phase, action) = SupervisorPhase::start(&config);
    assert_eq!(phase, SupervisorPhase::Spawning);
    assert_eq!(action, SupervisorAction::Spawn { producers: 3, consumers: 2 });
    assert!(!phase.is_done());
}

#[test]
fn a_run_requests_the_stop_then_closes_the_queue_then_joins_every_worker() {
    let config = config_of(2, 1, 2_000);
    let (mut phase, _) = SupervisorPhase::start(&config);
    let events = [
        SupervisorEvent::Spawned,
        SupervisorEvent::RunEnded,
        SupervisorEvent::StopRequested,
        SupervisorEvent::ProducerSideClosed,
        SupervisorEvent::WorkerJoined,
        SupervisorEvent::WorkerJoined,
        SupervisorEvent::WorkerJoined,
    ];
    let expected = [
        (SupervisorPhase::Running, SupervisorAction::Wait { ms: 2_000 }),
        (SupervisorPhase::Stopping, SupervisorAction::RequestStop),
        (SupervisorPhase::Closing, SupervisorAction::CloseQueue),
        (SupervisorPhase::Joining { remaining: 3 }, SupervisorAction::Join),
        (SupervisorPhase::Joining { remaining: 2 }, SupervisorAction::Join),
        (SupervisorPhase::Joining { remaining: 1 }, SupervisorAction::Join),
        (SupervisorPhase::Done, SupervisorAction::Finish),
    ];
    for (event, wanted) in events.iter().zip(expected.iter()) {
        let next = phase.step(&config, *event).expect("the event fits the phase");
        assert_eq!(next, *wanted);
        phase = next.0;
    }
    assert!(phase.is_done());
}

#[test]
fn a_run_without_workers_ends_when_the_queue_is_closed() {
    let config = config_of(0, 0, 10);
    let next = SupervisorPhase::Closing.step(&config, SupervisorEvent::ProducerSideClosed);
    assert_eq!(next, Some((SupervisorPhase::Done, SupervisorAction::Finish)));
}

#[test]
fn the_queue_is_not_closed_before_the_stop_was_requested() {
    let config = config_of(1, 1, 10);
    assert_eq!(SupervisorPhase::Running.step(&config, SupervisorEvent::ProducerSideClosed), None);
    assert_eq!(SupervisorPhase::Running.step(&config, SupervisorEvent::StopRequested), None);
    assert_eq!(SupervisorPhase::Stopping.step(&config, SupervisorEvent::ProducerSideClosed), None);
    assert_eq!(SupervisorPhase::Spawning.step(&config, SupervisorEvent::RunEnded), None);
}

#[test]
fn no_worker_is_joined_before_the_queue_was_closed() {
    let config = config_of(1, 1, 10);
    assert_eq!(SupervisorPhase::Spawning.step(&config, SupervisorEvent::WorkerJoined), None);
    assert_eq!(SupervisorPhase::Running.step(&config, SupervisorEvent::WorkerJoined), None);
    assert_eq!(SupervisorPhase::Stopping.step(&config, SupervisorEvent::WorkerJoined), None);
    assert_eq!(SupervisorPhase::Closing.step(&config, SupervisorEvent::WorkerJoined), None);
}

#[test]
fn a_finished_run_takes_no_event() {
    let config = config_of(1, 1, 10);
    for event in [
        SupervisorEvent::Spawned,
        SupervisorEvent::RunEnded,
        SupervisorEvent::StopRequested,
        SupervisorEvent::ProducerSideClosed,
        SupervisorEvent::WorkerJoined,
    ] {
        assert_eq!(SupervisorPhase::Done.step(&config, event), None);
    }
}

#[test]
fn joining_nobody_takes_no_join() {
    let config = config_of(1, 1, 10);
    let phase = SupervisorPhase::Joining { remaining: 0 };
    assert_eq!(phase.step(&config, SupervisorEvent::WorkerJoined), None);
}
