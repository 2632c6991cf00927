//! A rebasing token whose supply is halved each time a fixed interval has
//! elapsed.
//!
//! The library holds the token's state record and the rules of its two
//! instructions, `initialize` and `rebase`, over plain values. Reading the
//! clock and the mint and burn calls into the token ledger are the host's
//! work: each instruction here takes the current time as an argument and
//! returns the amount that the host is to mint or burn.

pub mod error;
pub mod instructions;
pub mod lemmas;
pub mod state;

pub use error::ErrorCode;
pub use instructions::{initialize, is_rebase_due, rebase};
pub use state::{RebaseState, REBASE_INTERVAL};
