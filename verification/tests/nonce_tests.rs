use lighter_sdk::nonce::{
    remaining_wait_nanos, reserve_step, ApiNonceState, NonceManagerType, OptimisticNonceState,
    ReserveStep,
};

#[test]
fn optimistic_rotation_hands_out_nonces_per_key() {
    let mut state = OptimisticNonceState::new(vec![3, 5]);
    state.hard_refresh_nonce(3, Some(100));
    state.hard_refresh_nonce(5, Some(7));
    assert_eq!(state.current_key(), Some(3));
    assert_eq!(state.next_nonce(), (3, 100));
    assert_eq!(state.next_nonce(), (5, 7));
    assert_eq!(state.next_nonce(), (3, 101));
    assert_eq!(state.next_nonce_for_key(3), (3, 102));
    assert_eq!(state.current_key(), Some(5));
    assert_eq!(state.stored_nonce(3), 103);
    assert_eq!(state.stored_nonce(9), 0);
}

#[test]
fn failed_transaction_gives_its_nonce_back() {
    let mut state = OptimisticNonceState::new(vec![1]);
    state.hard_refresh_nonce(1, Some(41));
    let (key, n) = state.next_nonce();
    assert_eq!((key, n), (1, 41));
    state.acknowledge_failure(key);
    assert_eq!(state.stored_nonce(1), 41);
    assert_eq!(state.next_nonce(), (1, 41));
}

#[test]
fn acknowledging_never_goes_below_zero() {
    let mut state = OptimisticNonceState::new(vec![1]);
    state.acknowledge_failure(1);
    assert_eq!(state.stored_nonce(1), 0);
    state.hard_refresh_nonce(1, Some(0));
    state.acknowledge_failure(1);
    assert_eq!(state.stored_nonce(1), 0);
    state.hard_refresh_nonce(1, None);
    assert_eq!(state.stored_nonce(1), 0);
}

#[test]
fn unknown_key_starts_at_zero() {
    let mut state = OptimisticNonceState::new(vec![2]);
    assert_eq!(state.next_nonce(), (2, 0));
    assert_eq!(state.next_nonce_for_key(8), (8, 0));
    assert_eq!(state.next_nonce_for_key(8), (8, 1));
}

#[test]
fn reserved_batch_nonces_are_consecutive_on_one_key() {
    let mut state = OptimisticNonceState::new(vec![4, 6]);
    state.hard_refresh_nonce(4, Some(10));
    let (key, nonces) = state.reserve_nonces(3);
    assert_eq!(key, 4);
    assert_eq!(nonces, vec![10, 11, 12]);
    assert_eq!(state.current_key(), Some(6));
    state.acknowledge_failures(4, 3);
    assert_eq!(state.stored_nonce(4), 10);
}

#[test]
fn reserving_zero_nonces_reserves_none() {
    let mut state = OptimisticNonceState::new(vec![9, 3]);
    state.hard_refresh_nonce(9, Some(7));
    let (key, nonces) = state.reserve_nonces(0);
    assert_eq!(key, 9);
    assert_eq!(nonces, Vec::<i64>::new());
    assert_eq!(state.current_key(), Some(9));
    assert_eq!(state.stored_nonce(9), 7);
    assert_eq!(state.next_nonce(), (9, 7));
}

#[test]
fn api_strategy_continues_a_fetched_nonce_locally() {
    let mut state = ApiNonceState::new(vec![1, 2]);
    assert_eq!(state.next_key(), 1);
    assert_eq!(state.record_fetched(1, Some(50)), 50);
    assert_eq!(state.take_local(1), Some(51));
    assert_eq!(state.take_local(1), Some(52));
    assert_eq!(state.take_local(2), None);
    assert_eq!(state.next_key(), 2);
    assert_eq!(state.next_key(), 1);
    assert_eq!(state.record_fetched(2, None), 0);
    assert_eq!(state.local_nonce(2), Some(1));
}

#[test]
fn keys_wait_at_least_the_minimum_between_uses() {
    assert_eq!(remaining_wait_nanos(0), Some(350_000_000));
    assert_eq!(remaining_wait_nanos(100_000_000), Some(250_000_000));
    assert_eq!(remaining_wait_nanos(349_999_999), Some(1));
    assert_eq!(remaining_wait_nanos(350_000_000), None);
    assert_eq!(remaining_wait_nanos(u128::MAX), None);
}

#[test]
fn nonce_manager_types_differ() {
    assert_ne!(NonceManagerType::Optimistic, NonceManagerType::Api);
}

#[test]
fn reserve_steps_rotate_once_then_stay_on_the_key() {
    assert_eq!(reserve_step(0, 0), ReserveStep::Done);
    assert_eq!(reserve_step(3, 0), ReserveStep::NextNonce);
    assert_eq!(reserve_step(3, 1), ReserveStep::NextNonceForKey);
    assert_eq!(reserve_step(3, 2), ReserveStep::NextNonceForKey);
    assert_eq!(reserve_step(3, 3), ReserveStep::Done);
}
