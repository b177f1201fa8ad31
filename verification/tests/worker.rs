use taskflow::channel::task_channel;
use taskflow::channel::QueueClosed;
use taskflow::channel::QueueDrained;
use taskflow::task::Task;
use taskflow::task::TaskType;
use taskflow::worker::ConsumerAction;
use taskflow::worker::ConsumerEvent;
use taskflow::worker::ConsumerPhase;
use taskflow::worker::ProducerAction;
use taskflow::worker::ProducerEvent;
use taskflow::worker::ProducerPhase;

fn producer_after(phase: ProducerPhase, event: ProducerEvent<f32>) -> (ProducerPhase, ProducerAction<f32>) {
    phase.step(event).expect("the event fits the phase")
}

fn consumer_after(phase: ConsumerPhase, event: ConsumerEvent<f32>) -> (ConsumerPhase, ConsumerAction<f32>) {
    phase.step(event).expect("the event fits the phase")
}

#[test]
fn a_producer_starts_by_reserving() {
    let (phase, action) = ProducerPhase::start::<f32>();
    assert_eq!(phase, ProducerPhase::Reserving);
    assert!(matches!(action, ProducerAction::Reserve));
    assert!(!phase.is_stopped());
}

#[test]
fn a_producer_goes_round_its_loop() {
    let (phase, _) = ProducerPhase::start::<f32>();
    let (phase, action) = producer_after(phase, ProducerEvent::Reserved(Some(41)));
    assert_eq!(phase, ProducerPhase::Generating { id: 41 });
    assert!(matches!(action, ProducerAction::Generate));
    let (phase, action) = producer_after(
        phase,
        ProducerEvent::Generated { task_type: TaskType::Sub, num: 0.5f32, now: 1234 },
    );
    assert_eq!(phase, ProducerPhase::Pushing);
    match action {
        ProducerAction::Push(task) => assert_eq!(task, Task::new(41, TaskType::Sub, 0.5f32, 1234)),
        _ => panic!("a push was due"),
    }
    let (phase, action) = producer_after(phase, ProducerEvent::Pushed { accepted: true });
    assert_eq!(phase, ProducerPhase::Resting);
    assert!(matches!(action, ProducerAction::Rest));
    let (phase, action) = producer_after(phase, ProducerEvent::Rested);
    assert_eq!(phase, ProducerPhase::Reserving);
    assert!(matches!(action, ProducerAction::Reserve));
}

#[test]
fn a_producer_stops_when_no_id_is_granted() {
    let (phase, action) = producer_after(ProducerPhase::Reserving, ProducerEvent::Reserved(None));
    assert_eq!(phase, ProducerPhase::Stopped);
    assert!(matches!(action, ProducerAction::Stop));
    assert!(phase.is_stopped());
}

#[test]
fn a_producer_stops_when_the_queue_is_closed() {
    let (phase, action) = producer_after(ProducerPhase::Pushing, ProducerEvent::Pushed { accepted: false });
    assert_eq!(phase, ProducerPhase::Stopped);
    assert!(matches!(action, ProducerAction::Stop));
}

#[test]
fn a_stopped_producer_takes_no_event() {
    let phase = ProducerPhase::Stopped;
    assert!(phase.step(ProducerEvent::<f32>::Reserved(Some(1))).is_none());
    assert!(phase.step(ProducerEvent::<f32>::Reserved(None)).is_none());
    assert!(phase
        .step(ProducerEvent::Generated { task_type: TaskType::Add, num: 1.0f32, now: 0 })
        .is_none());
    assert!(phase.step(ProducerEvent::<f32>::Pushed { accepted: true }).is_none());
    assert!(phase.step(ProducerEvent::<f32>::Rested).is_none());
}

#[test]
fn a_producer_refuses_an_event_that_does_not_fit_its_phase() {
    assert!(ProducerPhase::Reserving.step(ProducerEvent::<f32>::Rested).is_none());
    assert!(ProducerPhase::Reserving.step(ProducerEvent::<f32>::Pushed { accepted: true }).is_none());
    assert!(ProducerPhase::Generating { id: 3 }.step(ProducerEvent::<f32>::Reserved(Some(4))).is_none());
    assert!(ProducerPhase::Pushing.step(ProducerEvent::<f32>::Rested).is_none());
    assert!(ProducerPhase::Resting.step(ProducerEvent::<f32>::Pushed { accepted: true }).is_none());
    assert!(ProducerPhase::Resting.step(ProducerEvent::<f32>::Reserved(None)).is_none());
}

#[test]
fn a_producer_does_not_skip_its_rest() {
    let (phase, _) = producer_after(ProducerPhase::Pushing, ProducerEvent::Pushed { accepted: true });
    assert!(phase.step(ProducerEvent::<f32>::Reserved(Some(5))).is_none());
    let (phase, _) = producer_after(phase, ProducerEvent::Rested);
    assert!(phase.step(ProducerEvent::<f32>::Reserved(Some(5))).is_some());
}

#[test]
fn a_consumer_starts_by_popping() {
    let (phase, action) = ConsumerPhase::start::<f32>();
    assert_eq!(phase, ConsumerPhase::Popping);
    assert!(matches!(action, ConsumerAction::Pop));
    assert!(!phase.is_stopped());
}

#[test]
fn a_consumer_goes_round_its_loop() {
    let task = Task::new(8, TaskType::Mul, 2.0f32, 77);
    let (phase, _) = ConsumerPhase::start::<f32>();
    let (phase, action) = consumer_after(phase, ConsumerEvent::Popped(Some(task)));
    assert_eq!(phase, ConsumerPhase::Processing);
    match action {
        ConsumerAction::Process(handed) => assert_eq!(handed, task),
        _ => panic!("the task was to be processed"),
    }
    let (phase, action) = consumer_after(phase, ConsumerEvent::Processed);
    assert_eq!(phase, ConsumerPhase::Resting);
    assert!(matches!(action, ConsumerAction::Rest));
    let (phase, action) = consumer_after(phase, ConsumerEvent::Rested);
    assert_eq!(phase, ConsumerPhase::Popping);
    assert!(matches!(action, ConsumerAction::Pop));
}

#[test]
fn a_consumer_stops_when_the_queue_is_drained() {
    let (phase, action) = consumer_after(ConsumerPhase::Popping, ConsumerEvent::Popped(None));
    assert_eq!(phase, ConsumerPhase::Stopped);
    assert!(matches!(action, ConsumerAction::Stop));
    assert!(phase.is_stopped());
}

#[test]
fn a_stopped_consumer_takes_no_event() {
    let task = Task::new(8, TaskType::Mul, 2.0f32, 77);
    let phase = ConsumerPhase::Stopped;
    assert!(phase.step(ConsumerEvent::Popped(Some(task))).is_none());
    assert!(phase.step(ConsumerEvent::<f32>::Popped(None)).is_none());
    assert!(phase.step(ConsumerEvent::<f32>::Processed).is_none());
    assert!(phase.step(ConsumerEvent::<f32>::Rested).is_none());
}

#[test]
fn a_consumer_refuses_an_event_that_does_not_fit_its_phase() {
    let task = Task::new(8, TaskType::Mul, 2.0f32, 77);
    assert!(ConsumerPhase::Popping.step(ConsumerEvent::<f32>::Processed).is_none());
    assert!(ConsumerPhase::Popping.step(ConsumerEvent::<f32>::Rested).is_none());
    assert!(ConsumerPhase::Processing.step(ConsumerEvent::Popped(Some(task))).is_none());
    assert!(ConsumerPhase::Processing.step(ConsumerEvent::<f32>::Rested).is_none());
    assert!(ConsumerPhase::Resting.step(ConsumerEvent::<f32>::Processed).is_none());
    assert!(ConsumerPhase::Resting.step(ConsumerEvent::<f32>::Popped(None)).is_none());
}

#[test]
fn an_accepted_push_is_an_accepted_event_and_a_closed_queue_is_not() {
    let task = Task::new(4, TaskType::Add, 1.5f32, 9);
    let taken: ProducerEvent<f32> = ProducerEvent::pushed(Ok(()));
    assert!(matches!(taken, ProducerEvent::Pushed { accepted: true }));
    let refused: ProducerEvent<f32> = ProducerEvent::pushed(Err(QueueClosed { task }));
    assert!(matches!(refused, ProducerEvent::Pushed { accepted: false }));
}

#[test]
fn a_popped_task_is_the_event_s_task_and_a_drained_queue_is_none() {
    let task = Task::new(4, TaskType::Add, 1.5f32, 9);
    match ConsumerEvent::popped(Ok(task)) {
        ConsumerEvent::Popped(Some(got)) => assert_eq!(got, task),
        other => panic!("expected the task, got {:?}", other),
    }
    let drained: ConsumerEvent<f32> = ConsumerEvent::popped(Err(QueueDrained));
    assert!(matches!(drained, ConsumerEvent::Popped(None)));
}

#[test]
fn the_answers_of_a_channel_drive_the_workers() {
    let (sender, receiver) = task_channel::<Task<f32>>(2).unwrap();
    let task = Task::new(0, TaskType::Mul, 3.0f32, 1);
    let (phase, _) = producer_after(ProducerPhase::Pushing, ProducerEvent::pushed(sender.push(task)));
    assert_eq!(phase, ProducerPhase::Resting);
    let (phase, action) = consumer_after(ConsumerPhase::Popping, ConsumerEvent::popped(receiver.pop()));
    assert_eq!(phase, ConsumerPhase::Processing);
    match action {
        ConsumerAction::Process(got) => assert_eq!(got, task),
        _ => panic!("the task was to be processed"),
    }
    drop(sender);
    let (phase, action) = consumer_after(ConsumerPhase::Popping, ConsumerEvent::popped(receiver.pop()));
    assert_eq!(phase, ConsumerPhase::Stopped);
    assert!(matches!(action, ConsumerAction::Stop));

    let (sender, receiver) = task_channel::<Task<f32>>(2).unwrap();
    drop(receiver);
    let (phase, action) = producer_after(ProducerPhase::Pushing, ProducerEvent::pushed(sender.push(task)));
    assert_eq!(phase, ProducerPhase::Stopped);
    assert!(matches!(action, ProducerAction::Stop));
}
