use vstd::prelude::*;

verus! {

/// Seconds that must pass between two rebases: four days and 144 seconds.
pub const REBASE_INTERVAL: i64 = 4 * 24 * 60 * 60 + 144;

/// The token's global state record.
#[derive(Clone, Copy, Debug, PartialEq, Eq, Structural)]
pub struct RebaseState {
    /// The supply as this program tracks it.
    pub total_supply: u64,
    /// Unix time of initialization or of the latest successful rebase.
    pub last_rebase: i64,
    /// Least number of seconds between two rebases.
    pub rebase_interval: i64,
}

impl RebaseState {
    /// A record as `initialize` creates it and `rebase` keeps it: the
    /// interval is the fixed one.
    pub open spec fn wf(self) -> bool {
        self.rebase_interval == REBASE_INTERVAL
    }
}

} // verus!
