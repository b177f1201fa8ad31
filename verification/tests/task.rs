use taskflow::random::RandomSource;
use taskflow::task::Task;
use taskflow::task::TaskType;
use taskflow::task::TASK_TYPE_COUNT;

#[test]
fn there_are_three_operations() {
    assert_eq!(TASK_TYPE_COUNT, 3);
}

#[test]
fn index_zero_adds_one_subtracts_two_multiplies() {
    assert_eq!(TaskType::from_index(0), TaskType::Add);
    assert_eq!(TaskType::from_index(1), TaskType::Sub);
    assert_eq!(TaskType::from_index(2), TaskType::Mul);
}

#[test]
fn a_random_operation_is_one_of_the_three_and_each_of_them_comes() {
    let mut source = RandomSource::seeded(7);
    let mut seen = [0u32; 3];
    for _ in 0..300 {
        match TaskType::random(&mut source) {
            TaskType::Add => seen[0] += 1,
            TaskType::Sub => seen[1] += 1,
            TaskType::Mul => seen[2] += 1,
        }
    }
    assert_eq!(seen[0] + seen[1] + seen[2], 300);
    assert!(seen[0] > 0);
    assert!(seen[1] > 0);
    assert!(seen[2] > 0);
}

#[test]
fn a_new_task_holds_its_four_parts() {
    let task = Task::new(17, TaskType::Mul, 0.25f32, 1_700_000_000_000);
    assert_eq!(task.id, 17);
    assert_eq!(task.task_type, TaskType::Mul);
    assert_eq!(task.num, 0.25f32);
    assert_eq!(task.created_at, 1_700_000_000_000);
}

#[test]
fn a_copied_task_equals_the_task() {
    let task = Task::new(3, TaskType::Sub, 1.5f32, 42);
    let copy = task;
    let clone = task.clone();
    assert_eq!(copy, task);
    assert_eq!(clone, task);
}

#[test]
fn elapsed_is_now_minus_created() {
    let task = Task::new(1, TaskType::Add, 1.0f32, 1_000);
    assert_eq!(task.elapsed_ms(1_250), Some(250));
    assert_eq!(task.elapsed_ms(1_000), Some(0));
}

#[test]
fn elapsed_is_none_when_the_clock_ran_backwards() {
    let task = Task::new(1, TaskType::Add, 1.0f32, 1_000);
    assert_eq!(task.elapsed_ms(999), None);
    assert_eq!(task.elapsed_ms(0), None);
}

#[test]
fn elapsed_reaches_the_whole_clock_range() {
    let task = Task::new(1, TaskType::Add, 1i64, 0);
    assert_eq!(task.elapsed_ms(u128::MAX), Some(u128::MAX));
}
