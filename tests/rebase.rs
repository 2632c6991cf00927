use rebase_token::{initialize, is_rebase_due, rebase, ErrorCode, RebaseState, REBASE_INTERVAL};

#[test]
fn interval_is_four_days_and_144_seconds() {
    assert_eq!(REBASE_INTERVAL, 345744);
}

#[test]
fn initialize_sets_record_and_mint_amount() {
    let (state, mint) = initialize(1_000_000, 1_700_000_000);
    assert_eq!(state.total_supply, 1_000_000);
    assert_eq!(state.last_rebase, 1_700_000_000);
    assert_eq!(state.rebase_interval, 345744);
    assert_eq!(mint, 1_000_000);
}

#[test]
fn immediate_rebase_is_too_early() {
    let (mut state, _) = initialize(1_000_000, 1_700_000_000);
    let before = state;
    assert_eq!(rebase(&mut state, 1_700_000_000), Err(ErrorCode::TooEarlyForRebase));
    assert_eq!(state, before);
    assert_eq!(state.total_supply, 1_000_000);
}

#[test]
fn rebase_one_second_early_fails() {
    let (mut state, _) = initialize(1_000_000, 1_000);
    let before = state;
    assert_eq!(rebase(&mut state, 1_000 + 345743), Err(ErrorCode::TooEarlyForRebase));
    assert_eq!(state, before);
}

#[test]
fn rebase_exactly_at_interval_halves() {
    let (mut state, _) = initialize(1_000_000, 1_000);
    assert_eq!(rebase(&mut state, 1_000 + 345744), Ok(500_000));
    assert_eq!(state.total_supply, 500_000);
    assert_eq!(state.last_rebase, 346744);
    assert_eq!(state.rebase_interval, 345744);
}

#[test]
fn rebase_odd_supply_burns_rounded_up_half() {
    let (mut state, _) = initialize(7, 0);
    assert_eq!(rebase(&mut state, 400_000), Ok(4));
    assert_eq!(state.total_supply, 3);
    assert_eq!(state.last_rebase, 400_000);
}

#[test]
fn two_rebases_halve_twice() {
    let (mut state, _) = initialize(1_000_001, 0);
    assert_eq!(rebase(&mut state, 345744), Ok(500_001));
    assert_eq!(state.total_supply, 500_000);
    assert_eq!(rebase(&mut state, 345744 + 100), Err(ErrorCode::TooEarlyForRebase));
    assert_eq!(rebase(&mut state, 2 * 345744), Ok(250_000));
    assert_eq!(state.total_supply, 250_000);
    assert_eq!(state.last_rebase, 2 * 345744);
}

#[test]
fn supply_of_one_goes_to_zero_then_burns_nothing() {
    let mut state = RebaseState { total_supply: 1, last_rebase: 0, rebase_interval: 345744 };
    assert_eq!(rebase(&mut state, 345744), Ok(1));
    assert_eq!(state.total_supply, 0);
    assert_eq!(rebase(&mut state, 2 * 345744), Ok(0));
    assert_eq!(state.total_supply, 0);
}

#[test]
fn zero_supply_initializes() {
    let (state, mint) = initialize(0, 5);
    assert_eq!(state.total_supply, 0);
    assert_eq!(mint, 0);
}

#[test]
fn largest_supply_halves() {
    let (mut state, _) = initialize(u64::MAX, 0);
    assert_eq!(rebase(&mut state, 345744), Ok(u64::MAX - u64::MAX / 2));
    assert_eq!(state.total_supply, u64::MAX / 2);
}

#[test]
fn extreme_times_do_not_overflow() {
    let early = RebaseState { total_supply: 10, last_rebase: i64::MAX, rebase_interval: 345744 };
    assert!(!is_rebase_due(&early, i64::MIN));
    let mut late = RebaseState { total_supply: 10, last_rebase: i64::MIN, rebase_interval: 345744 };
    assert!(is_rebase_due(&late, i64::MAX));
    assert_eq!(rebase(&mut late, i64::MAX), Ok(5));
    assert_eq!(late.last_rebase, i64::MAX);
}

#[test]
fn error_message() {
    assert_eq!(ErrorCode::TooEarlyForRebase.message(), "Too early for rebase");
}
