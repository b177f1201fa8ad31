use taskflow::channel::task_channel;
use taskflow::channel::QueueDrained;
use taskflow::channel::MAX_CHANNEL_CAPACITY;
use taskflow::task::Task;
use taskflow::task::TaskType;

#[test]
fn tasks_cross_the_channel_in_order() {
    let (sender, receiver) = task_channel::<Task<f32>>(100).unwrap();
    for id in 0..10u64 {
        let task = Task::new(id, TaskType::Add, id as f32, 5);
        assert!(sender.push(task).is_ok());
    }
    for id in 0..10u64 {
        let task = receiver.pop().unwrap();
        assert_eq!(task, Task::new(id, TaskType::Add, id as f32, 5));
    }
}

#[test]
fn a_pop_after_the_last_sender_left_drains_and_then_fails() {
    let (sender, receiver) = task_channel::<u32>(4).unwrap();
    let second = sender.clone();
    assert!(sender.push(1).is_ok());
    assert!(second.push(2).is_ok());
    drop(sender);
    drop(second);
    assert_eq!(receiver.pop(), Ok(1));
    assert_eq!(receiver.pop(), Ok(2));
    assert_eq!(receiver.pop(), Err(QueueDrained));
    assert_eq!(receiver.pop(), Err(QueueDrained));
}

#[test]
fn a_push_after_the_last_receiver_left_hands_the_task_back() {
    let (sender, receiver) = task_channel::<Task<f32>>(4).unwrap();
    let other = receiver.clone();
    drop(receiver);
    drop(other);
    let task = Task::new(9, TaskType::Mul, 0.75f32, 123);
    match sender.push(task) {
        Err(closed) => assert_eq!(closed.task, task),
        Ok(()) => panic!("nobody is left to receive"),
    }
}

#[test]
fn a_cloned_receiver_takes_from_the_same_channel() {
    let (sender, receiver) = task_channel::<u32>(4).unwrap();
    let other = receiver.clone();
    assert!(sender.push(1).is_ok());
    assert!(sender.push(2).is_ok());
    assert_eq!(other.pop(), Ok(1));
    assert_eq!(receiver.pop(), Ok(2));
}

#[test]
fn a_channel_takes_as_many_tasks_as_its_capacity_without_waiting() {
    let (sender, receiver) = task_channel::<u32>(3).unwrap();
    assert!(sender.push(1).is_ok());
    assert!(sender.push(2).is_ok());
    assert!(sender.push(3).is_ok());
    assert_eq!(receiver.pop(), Ok(1));
    assert!(sender.push(4).is_ok());
    drop(sender);
    assert_eq!(receiver.pop(), Ok(2));
    assert_eq!(receiver.pop(), Ok(3));
    assert_eq!(receiver.pop(), Ok(4));
    assert_eq!(receiver.pop(), Err(QueueDrained));
}

#[test]
fn a_capacity_above_the_limit_gives_no_channel() {
    assert!(task_channel::<u8>(MAX_CHANNEL_CAPACITY + 1).is_none());
    assert!(task_channel::<u8>(usize::MAX).is_none());
    assert_eq!(MAX_CHANNEL_CAPACITY, 0x3fff_ffff);
}

#[test]
fn a_channel_of_capacity_zero_is_made() {
    let channel = task_channel::<u8>(0);
    assert!(channel.is_some());
    let (sender, receiver) = channel.unwrap();
    drop(sender);
    assert_eq!(receiver.pop(), Err(QueueDrained));
}
