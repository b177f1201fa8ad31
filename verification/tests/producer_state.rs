use taskflow::producer_state::ProducerState;

#[test]
fn new_state_starts_at_zero_and_produces() {
    let state = ProducerState::new();
    assert_eq!(state.next_id(), 0);
    assert!(state.is_producing());
}

#[test]
fn default_state_is_a_new_state() {
    let state = ProducerState::default();
    assert_eq!(state.next_id(), 0);
    assert!(state.is_producing());
}

#[test]
fn get_next_id_counts_up_from_zero() {
    let mut state = ProducerState::new();
    assert_eq!(state.get_next_id(), Some(0));
    assert_eq!(state.get_next_id(), Some(1));
    assert_eq!(state.get_next_id(), Some(2));
    assert_eq!(state.next_id(), 3);
}

#[test]
fn get_next_id_assigns_nothing_once_a_stop_was_requested() {
    let mut state = ProducerState::new();
    state.request_stop();
    assert_eq!(state.get_next_id(), None);
    assert_eq!(state.next_id(), 0);
    assert!(!state.is_producing());
}

#[test]
fn get_next_id_stops_where_it_was_when_the_stop_came() {
    let mut state = ProducerState::new();
    assert_eq!(state.get_next_id(), Some(0));
    assert_eq!(state.get_next_id(), Some(1));
    state.request_stop();
    assert_eq!(state.get_next_id(), None);
    assert_eq!(state.get_next_id(), None);
    assert_eq!(state.next_id(), 2);
}

#[test]
fn both_names_of_the_id_operation_share_one_counter() {
    let mut state = ProducerState::new();
    assert_eq!(state.get_next_id(), Some(0));
    assert_eq!(state.try_reserve_next(), Some(1));
    assert_eq!(state.get_next_id(), Some(2));
    state.request_stop();
    assert_eq!(state.try_reserve_next(), None);
    assert_eq!(state.get_next_id(), None);
    assert_eq!(state.next_id(), 3);
}

#[test]
fn reserved_ids_are_distinct_and_strictly_increasing() {
    let mut state = ProducerState::new();
    let mut ids: Vec<u64> = Vec::new();
    for _ in 0..1000 {
        ids.push(state.try_reserve_next().unwrap());
    }
    for pair in ids.windows(2) {
        assert!(pair[0] < pair[1]);
    }
    assert_eq!(ids[0], 0);
    assert_eq!(ids[999], 999);
    assert_eq!(state.next_id(), 1000);
}

#[test]
fn no_id_is_assigned_after_a_stop() {
    let mut state = ProducerState::new();
    assert_eq!(state.try_reserve_next(), Some(0));
    assert_eq!(state.try_reserve_next(), Some(1));
    state.request_stop();
    for _ in 0..10 {
        assert_eq!(state.try_reserve_next(), None);
    }
    assert_eq!(state.next_id(), 2);
    assert!(!state.is_producing());
}

#[test]
fn a_second_stop_changes_nothing() {
    let mut state = ProducerState::new();
    assert_eq!(state.try_reserve_next(), Some(0));
    state.request_stop();
    state.request_stop();
    assert!(!state.is_producing());
    assert_eq!(state.next_id(), 1);
    assert_eq!(state.try_reserve_next(), None);
}

#[test]
fn a_stop_before_any_reservation_assigns_nothing() {
    let mut state = ProducerState::new();
    state.request_stop();
    assert_eq!(state.try_reserve_next(), None);
    assert_eq!(state.next_id(), 0);
}

#[test]
fn a_caller_can_see_that_an_id_is_left_before_it_asks_for_one() {
    let mut state = ProducerState::new();
    let mut taken: u64 = 0;
    while taken < 5 {
        assert!(state.is_producing());
        assert!(state.next_id() < u64::MAX);
        assert_eq!(state.try_reserve_next(), Some(taken));
        taken += 1;
    }
    assert_eq!(state.next_id(), 5);
}
