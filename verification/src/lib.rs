//! A number-guessing game over a shared prize pool.
//!
//! Players pay a fixed fee per guess. A wrong guess leaves the fee in the
//! pool; the right guess wins the whole pool. Only the owner may set a new
//! secret number and add funds.
//!
//! # The host
//!
//! The game never touches a ledger itself. Whoever hosts it supplies, with
//! each call, who is calling and what value came with the call, and keeps
//! the game between calls. For a guess the host
//!
//! 1. asks [`NumberGuessingGame::payout_due`] what the ledger has to pay,
//! 2. has the ledger pay it, and
//! 3. hands [`NumberGuessingGame::guess`] the payout that went through.
//!
//! The pool is emptied only in step 3, and only if the payout handed in is
//! the one that was due. A call that returns an error has changed nothing;
//! the host is expected to abort on it.
//!
//! # Paying more than the fee
//!
//! A wrong guess adds the fee to the pool and no more. Whatever came with
//! it beyond the fee stays with the host and is recorded in the game as
//! unaccounted, see [`NumberGuessingGame::get_unaccounted`].
//!
//! # What is proved
//!
//! [`model`] defines the game over unbounded numbers, [`game`] holds the
//! executable game to that definition, and [`laws`] proves what holds of
//! every game.

pub mod account;
pub mod error;
pub mod game;
pub mod laws;
pub mod model;

pub use account::AccountId;
pub use error::GameError;
pub use game::{NumberGuessingGame, Payout};
pub use model::{Balance, GUESS_FEE, MAX_SECRET};
