//! Why a call to the game was aborted.

use vstd::prelude::*;

verus! {

/// The reasons for which the game aborts a call.
///
/// An aborted call leaves the game exactly as it found it.
#[derive(Debug, Clone, Copy, PartialEq, Eq, Structural)]
pub enum GameError {
    /// Someone other than the owner tried to reset the game.
    NotOwner,
    /// The secret number offered lies outside `0..=MAX_SECRET`.
    SecretOutOfRange,
    /// The guess was right, but the ledger did not confirm that the pool
    /// went to the caller.
    TransferFailed,
    /// The amount to record does not fit the balance type.
    BalanceOverflow,
}

} // verus!
