use taskflow::processor::TaskProcessor;
use taskflow::task::Task;
use taskflow::task::TaskType;

#[test]
fn a_new_processor_holds_its_initial_state() {
    let processor = TaskProcessor::new(1.5f32);
    assert_eq!(processor.state(), 1.5f32);
}

#[test]
fn add_adds_the_operand() {
    let mut processor = TaskProcessor::new(2.0f32);
    let state = processor.process_task(Task::new(0, TaskType::Add, 0.5f32, 0));
    assert_eq!(state, 2.5f32);
    assert_eq!(processor.state(), 2.5f32);
}

#[test]
fn sub_subtracts_the_operand() {
    let mut processor = TaskProcessor::new(2.0f32);
    let state = processor.process_task(Task::new(0, TaskType::Sub, 0.5f32, 0));
    assert_eq!(state, 1.5f32);
    assert_eq!(processor.state(), 1.5f32);
}

#[test]
fn mul_multiplies_with_the_operand() {
    let mut processor = TaskProcessor::new(2.0f32);
    let state = processor.process_task(Task::new(0, TaskType::Mul, 0.5f32, 0));
    assert_eq!(state, 1.0f32);
    assert_eq!(processor.state(), 1.0f32);
}

#[test]
fn five_tasks_in_order_from_zero_give_minus_two_and_a_half() {
    let mut processor = TaskProcessor::new(0.0f32);
    let steps = [
        (TaskType::Add, 1.0f32, 1.0f32),
        (TaskType::Sub, 2.0f32, -1.0f32),
        (TaskType::Mul, 2.0f32, -2.0f32),
        (TaskType::Add, 0.5f32, -1.5f32),
        (TaskType::Sub, 1.0f32, -2.5f32),
    ];
    let mut id: u64 = 0;
    for (task_type, num, expected) in steps {
        let state = processor.process_task(Task::new(id, task_type, num, 0));
        assert_eq!(state, expected);
        id += 1;
    }
    assert_eq!(processor.state(), -2.5f32);
}

#[test]
fn the_order_of_the_tasks_matters() {
    let mut first = TaskProcessor::new(1.0f64);
    first.process_task(Task::new(0, TaskType::Add, 2.0f64, 0));
    first.process_task(Task::new(1, TaskType::Mul, 3.0f64, 0));
    let mut second = TaskProcessor::new(1.0f64);
    second.process_task(Task::new(1, TaskType::Mul, 3.0f64, 0));
    second.process_task(Task::new(0, TaskType::Add, 2.0f64, 0));
    assert_eq!(first.state(), 9.0f64);
    assert_eq!(second.state(), 5.0f64);
}

#[test]
fn integers_fold_exactly() {
    let mut processor = TaskProcessor::new(10i64);
    assert_eq!(processor.process_task(Task::new(0, TaskType::Add, 5i64, 0)), 15);
    assert_eq!(processor.process_task(Task::new(1, TaskType::Mul, -3i64, 0)), -45);
    assert_eq!(processor.process_task(Task::new(2, TaskType::Sub, 55i64, 0)), -100);
    assert_eq!(processor.state(), -100);
}

#[test]
fn folding_in_two_runs_is_folding_in_one() {
    let mut ops: Vec<Task<i64>> = Vec::new();
    let kinds = [TaskType::Add, TaskType::Mul, TaskType::Sub];
    for i in 0..12u64 {
        ops.push(Task::new(i, kinds[(i % 3) as usize], (i as i64 % 4) + 1, 0));
    }
    let mut whole = TaskProcessor::new(1i64);
    for task in ops.iter() {
        whole.process_task(*task);
    }
    let mut head = TaskProcessor::new(1i64);
    for task in ops[..5].iter() {
        head.process_task(*task);
    }
    let mut tail = TaskProcessor::new(head.state());
    for task in ops[5..].iter() {
        tail.process_task(*task);
    }
    assert_eq!(tail.state(), whole.state());
}
