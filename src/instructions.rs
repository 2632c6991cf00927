use vstd::prelude::*;

use crate::error::ErrorCode;
use crate::state::{RebaseState, REBASE_INTERVAL};

verus! {

/// Whether at `current_time` the interval since the last rebase has elapsed.
/// The difference of the two times is taken over the integers.
pub open spec fn rebase_due(s: RebaseState, current_time: i64) -> bool {
    current_time - s.last_rebase >= s.rebase_interval
}

/// The supply after a rebase: half the supply, rounded down.
pub open spec fn halved_supply(supply: u64) -> u64 {
    (supply / 2) as u64
}

/// What a rebase burns: the supply less its rounded-down half.
pub open spec fn burn_amount(supply: u64) -> u64 {
    (supply - halved_supply(supply)) as u64
}

/// The record that `initialize` creates.
pub open spec fn initial_state(initial_supply: u64, current_time: i64) -> RebaseState {
    RebaseState {
        total_supply: initial_supply,
        last_rebase: current_time,
        rebase_interval: REBASE_INTERVAL,
    }
}

/// The record after a successful rebase at `current_time`.
pub open spec fn rebased(s: RebaseState, current_time: i64) -> RebaseState {
    RebaseState {
        total_supply: halved_supply(s.total_supply),
        last_rebase: current_time,
        rebase_interval: s.rebase_interval,
    }
}

/// The record after a call of `rebase` at `current_time`, whatever its
/// outcome: an early call leaves it as it was.
pub open spec fn next_state(s: RebaseState, current_time: i64) -> RebaseState {
    if rebase_due(s, current_time) {
        rebased(s, current_time)
    } else {
        s
    }
}

/// The `initialize` instruction: the state record to create at
/// `current_time`, and the amount to mint to the creator.
pub fn initialize(initial_supply: u64, current_time: i64) -> (r: (RebaseState, u64))
    ensures
        r.0 == initial_state(initial_supply, current_time),
        r.0.wf(),
        r.1 == initial_supply,
{
    let state = RebaseState {
        total_supply: initial_supply,
        last_rebase: current_time,
        rebase_interval: REBASE_INTERVAL,
    };
    (state, initial_supply)
}

/// Whether a rebase at `current_time` is allowed. The elapsed time is
/// computed in a wider type, so no pair of times overflows.
pub fn is_rebase_due(state: &RebaseState, current_time: i64) -> (r: bool)
    ensures
        r == rebase_due(*state, current_time),
{
    let elapsed: i128 = current_time as i128 - state.last_rebase as i128;
    elapsed >= state.rebase_interval as i128
}

/// The `rebase` instruction at `current_time`. When the interval has
/// elapsed, the supply is halved (rounded down), the time is recorded, and
/// the amount to burn from the burn account is returned. Otherwise the
/// record is left as it was and `TooEarlyForRebase` is returned.
pub fn rebase(state: &mut RebaseState, current_time: i64) -> (r: Result<u64, ErrorCode>)
    ensures
        *final(state) == next_state(*old(state), current_time),
        rebase_due(*old(state), current_time) ==> r == Ok::<u64, ErrorCode>(
            burn_amount(old(state).total_supply),
        ),
        !rebase_due(*old(state), current_time) ==> r == Err::<u64, ErrorCode>(
            ErrorCode::TooEarlyForRebase,
        ),
        r is Ok ==> final(state).total_supply + r->Ok_0 == old(state).total_supply,
{
    if !is_rebase_due(state, current_time) {
        return Err(ErrorCode::TooEarlyForRebase);
    }
    let new_supply: u64 = state.total_supply / 2;
    let amount_to_burn: u64 = state.total_supply - new_supply;
    state.total_supply = new_supply;
    state.last_rebase = current_time;
    Ok(amount_to_burn)
}

} // verus!
