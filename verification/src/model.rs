//! The game as a state machine over unbounded numbers.
//!
//! [`GameState`] is what a game is, and its spec functions say what each
//! operation does to it and answers. The executable game is held to these
//! definitions, and the laws of the game are proved about them.

use vstd::prelude::*;

use crate::error::GameError;

verus! {

/// An amount of the ledger's currency.
pub type Balance = u128;

/// What one guess costs.
pub const GUESS_FEE: Balance = 1_000_000_000_000;

/// The largest secret number; the smallest is 0.
pub const MAX_SECRET: u8 = 9;

/// The largest amount the ledger can record.
pub const MAX_BALANCE: Balance = u128::MAX;

/// A movement of value out of the game's custody.
pub struct Transfer {
    /// Who receives it.
    pub to: Seq<u8>,
    /// How much.
    pub amount: nat,
}

/// One guess as the host presents it to the game.
pub struct Attempt {
    /// The number guessed.
    pub number: u8,
    /// The value that came with the call.
    pub paid: nat,
    /// Who is guessing.
    pub caller: Seq<u8>,
    /// The transfer the ledger has carried out for this call, if any.
    pub confirmed: Option<Transfer>,
}

/// Everything a game remembers between calls.
pub struct GameState {
    /// The number to guess.
    pub secret: u8,
    /// The prize the next winner takes.
    pub pool: nat,
    /// The price of a guess.
    pub fee: nat,
    /// Who created the game.
    pub owner: Seq<u8>,
    /// What losing players paid beyond the fee. It is held for the game
    /// but is no part of the prize.
    pub unaccounted: nat,
}

impl GameState {
    /// The conditions every game meets from its creation on.
    pub open spec fn wf(self) -> bool {
        &&& self.secret <= MAX_SECRET
        &&& self.fee == GUESS_FEE
        &&& self.pool <= MAX_BALANCE
        &&& self.unaccounted <= MAX_BALANCE
    }

    /// There is a prize to win.
    pub open spec fn active(self) -> bool {
        self.pool > 0
    }

    /// The prize has been won and not replenished.
    pub open spec fn concluded(self) -> bool {
        self.pool == 0
    }

    /// What the game has on its books: the prize and what is set aside.
    pub open spec fn held(self) -> nat {
        self.pool + self.unaccounted
    }

    /// The game that `creator` opens with `funding` as its first prize.
    pub open spec fn opened(secret: u8, funding: nat, creator: Seq<u8>) -> GameState {
        GameState {
            secret,
            pool: funding,
            fee: GUESS_FEE as nat,
            owner: creator,
            unaccounted: 0,
        }
    }

    /// A guess that comes with `paid` is turned away unheard.
    pub open spec fn turns_away(self, paid: nat) -> bool {
        paid < self.fee || self.concluded()
    }

    /// The guess is heard and right.
    pub open spec fn wins(self, number: u8, paid: nat) -> bool {
        !self.turns_away(paid) && number == self.secret
    }

    /// The guess is heard and wrong.
    pub open spec fn misses(self, number: u8, paid: nat) -> bool {
        !self.turns_away(paid) && number != self.secret
    }

    /// The transfer that must have gone through before the guess can be
    /// answered: the whole pool to the caller if the guess wins, none
    /// otherwise.
    pub open spec fn payout_due(self, number: u8, paid: nat, caller: Seq<u8>) -> Option<Transfer> {
        if self.wins(number, paid) {
            Some(Transfer { to: caller, amount: self.pool })
        } else {
            None
        }
    }

    /// The game once its prize has left.
    pub open spec fn drained(self) -> GameState {
        GameState { pool: 0, ..self }
    }

    /// The game once a losing payment of `paid`, at least the fee, has been
    /// taken in: the fee joins the pool, the rest is set aside.
    pub open spec fn with_miss(self, paid: nat) -> GameState {
        GameState {
            pool: self.pool + self.fee,
            unaccounted: (self.unaccounted + paid - self.fee) as nat,
            ..self
        }
    }

    /// The game with a new secret and `funds` added to the pool.
    pub open spec fn renewed(self, secret: u8, funds: nat) -> GameState {
        GameState { secret, pool: self.pool + funds, ..self }
    }

    /// What a guess makes of the game, and the answer the caller gets.
    ///
    /// - Turned away: nothing changes, the answer is `false`.
    /// - Right: if the ledger has confirmed the payout that is due, the
    ///   pool is emptied and the answer is `true`; if it has not, the call
    ///   is aborted.
    /// - Wrong: the payment is taken in and the answer is `false`, unless
    ///   the ledger could not record the new amounts; then the call is
    ///   aborted.
    pub open spec fn guess(
        self,
        number: u8,
        paid: nat,
        caller: Seq<u8>,
        confirmed: Option<Transfer>,
    ) -> (GameState, Result<bool, GameError>) {
        if self.turns_away(paid) {
            (self, Ok(false))
        } else if number == self.secret {
            if confirmed == self.payout_due(number, paid, caller) {
                (self.drained(), Ok(true))
            } else {
                (self, Err(GameError::TransferFailed))
            }
        } else if self.with_miss(paid).pool <= MAX_BALANCE && self.with_miss(paid).unaccounted
            <= MAX_BALANCE {
            (self.with_miss(paid), Ok(false))
        } else {
            (self, Err(GameError::BalanceOverflow))
        }
    }

    /// What a reset makes of the game, and whether it is carried out.
    ///
    /// Only the owner may reset, only to a secret in range, and only when
    /// the ledger can record the new pool; anything else aborts the call.
    pub open spec fn reset(self, secret: u8, funds: nat, caller: Seq<u8>) -> (
        GameState,
        Result<(), GameError>,
    ) {
        if caller != self.owner {
            (self, Err(GameError::NotOwner))
        } else if secret > MAX_SECRET {
            (self, Err(GameError::SecretOutOfRange))
        } else if self.renewed(secret, funds).pool > MAX_BALANCE {
            (self, Err(GameError::BalanceOverflow))
        } else {
            (self.renewed(secret, funds), Ok(()))
        }
    }

    /// The answer to the guess at place `i` of a series of guesses, each
    /// made on what the one before it left.
    pub open spec fn answer_at(self, attempts: Seq<Attempt>, i: int) -> Result<bool, GameError> {
        let attempt = attempts[i];
        self.after(attempts.take(i)).guess(
            attempt.number,
            attempt.paid,
            attempt.caller,
            attempt.confirmed,
        ).1
    }

    /// The game after a series of guesses, each made on what the one
    /// before it left.
    pub open spec fn after(self, attempts: Seq<Attempt>) -> GameState
        decreases attempts.len(),
    {
        if attempts.len() == 0 {
            self
        } else {
            let last = attempts.last();
            self.after(attempts.drop_last()).guess(
                last.number,
                last.paid,
                last.caller,
                last.confirmed,
            ).0
        }
    }
}

} // verus!
