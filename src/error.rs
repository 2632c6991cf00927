use vstd::prelude::*;

verus! {

/// The errors that the rebase rules raise themselves. Errors of the host and
/// of the token ledger are passed on by the host and have no variant here.
#[derive(Clone, Copy, Debug, PartialEq, Eq, Structural)]
pub enum ErrorCode {
    /// `rebase` was called before the interval since the last rebase elapsed.
    TooEarlyForRebase,
}

impl ErrorCode {
    /// The message shown to a caller whose transaction failed with this error.
    pub fn message(&self) -> (r: &'static str)
        ensures
            *self == ErrorCode::TooEarlyForRebase ==> r@ == "Too early for rebase"@,
    {
        proof {
            reveal_strlit("Too early for rebase");
        }
        match self {
            ErrorCode::TooEarlyForRebase => "Too early for rebase",
        }
    }
}

} // verus!
