use vstd::prelude::*;

use crate::instructions::{burn_amount, halved_supply, next_state, rebase_due, rebased};
use crate::state::RebaseState;

verus! {

/// The record after a call of `rebase` at each of `times` in turn, each
/// call made on what the one before left.
pub open spec fn after_calls(s: RebaseState, times: Seq<i64>) -> RebaseState
    decreases times.len(),
{
    if times.len() == 0 {
        s
    } else {
        after_calls(next_state(s, times[0]), times.drop_first())
    }
}

/// A rebase splits the supply into what stays and what is burned: the new
/// supply is the old one halved and rounded down, and the amount burned is
/// the rest, which is the old supply halved and rounded up.
pub proof fn lemma_rebase_split(supply: u64)
    ensures
        halved_supply(supply) + burn_amount(supply) == supply,
        halved_supply(supply) <= supply,
        burn_amount(supply) == supply - supply / 2,
        burn_amount(supply) == (supply + 1) / 2,
{
}

/// One call of `rebase` on a well-formed record, due or not, keeps the
/// record well-formed, does not raise the supply and does not move the time
/// of the last rebase back.
pub proof fn lemma_rebase_step(s: RebaseState, current_time: i64)
    requires
        s.wf(),
    ensures
        next_state(s, current_time).wf(),
        next_state(s, current_time).rebase_interval == s.rebase_interval,
        next_state(s, current_time).total_supply <= s.total_supply,
        next_state(s, current_time).last_rebase >= s.last_rebase,
{
}

/// Over any number of calls of `rebase`, the interval stays as it was set,
/// the supply never rises and the time of the last rebase never goes back.
pub proof fn lemma_lifetime(s: RebaseState, times: Seq<i64>)
    requires
        s.wf(),
    ensures
        after_calls(s, times).wf(),
        after_calls(s, times).rebase_interval == s.rebase_interval,
        after_calls(s, times).total_supply <= s.total_supply,
        after_calls(s, times).last_rebase >= s.last_rebase,
    decreases times.len(),
{
    if times.len() > 0 {
        lemma_rebase_step(s, times[0]);
        lemma_lifetime(next_state(s, times[0]), times.drop_first());
    }
}

/// Two rebases in a row, each due when it is made, halve the supply twice,
/// rounding down each time, so the supply only goes down.
pub proof fn lemma_two_rebases(s0: RebaseState, t1: i64, t2: i64)
    requires
        rebase_due(s0, t1),
        rebase_due(rebased(s0, t1), t2),
    ensures
        next_state(s0, t1).total_supply == s0.total_supply / 2,
        next_state(next_state(s0, t1), t2).total_supply == next_state(s0, t1).total_supply / 2,
        next_state(next_state(s0, t1), t2).total_supply <= next_state(s0, t1).total_supply,
        next_state(s0, t1).total_supply <= s0.total_supply,
        next_state(next_state(s0, t1), t2).last_rebase == t2,
{
}

} // verus!
