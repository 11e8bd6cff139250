//! The executable game.

use vstd::prelude::*;

use crate::account::AccountId;
use crate::error::GameError;
use crate::model::{Balance, GameState, Transfer, GUESS_FEE, MAX_SECRET};

verus! {

/// A transfer of value from the game's custody to an account.
///
/// The game asks for one through [`NumberGuessingGame::payout_due`]; the
/// host hands the same value back to [`NumberGuessingGame::guess`] once the
/// ledger has carried it out.
#[derive(Debug, Clone, Copy, PartialEq, Eq)]
pub struct Payout {
    /// The account to pay.
    pub to: AccountId,
    /// The amount to pay.
    pub amount: Balance,
}

impl View for Payout {
    type V = Transfer;

    open spec fn view(&self) -> Transfer {
        Transfer { to: self.to@, amount: self.amount as nat }
    }
}

/// The transfer that a host's confirmation stands for.
pub open spec fn transfer_of(confirmed: Option<Payout>) -> Option<Transfer> {
    match confirmed {
        Some(payout) => Some(payout@),
        None => None,
    }
}

/// A game: its secret, its prize, its price and its owner.
///
/// The secret is always at most [`MAX_SECRET`] and the price is always
/// [`GUESS_FEE`]. No operation reads the secret out.
#[derive(Debug, Clone, Copy, PartialEq, Eq)]
pub struct NumberGuessingGame {
    secret_number: u8,
    prize_pool: Balance,
    guess_fee: Balance,
    owner: AccountId,
    unaccounted: Balance,
}

impl View for NumberGuessingGame {
    type V = GameState;

    closed spec fn view(&self) -> GameState {
        GameState {
            secret: self.secret_number,
            pool: self.prize_pool as nat,
            fee: self.guess_fee as nat,
            owner: self.owner@,
            unaccounted: self.unaccounted as nat,
        }
    }
}

impl NumberGuessingGame {
    #[verifier::type_invariant]
    spec fn inv(self) -> bool {
        self.secret_number <= MAX_SECRET && self.guess_fee == GUESS_FEE
    }

    /// Opens a game for `caller` with `funding`, the value that came with
    /// the call, as its first prize.
    ///
    /// Succeeds exactly when `secret_number` is at most [`MAX_SECRET`].
    pub fn new(secret_number: u8, funding: Balance, caller: AccountId) -> (made: Result<
        Self,
        GameError,
    >)
        ensures
            secret_number <= MAX_SECRET ==> made is Ok && made->Ok_0@ == GameState::opened(
                secret_number,
                funding as nat,
                caller@,
            ),
            secret_number > MAX_SECRET ==> made == Err::<Self, GameError>(
                GameError::SecretOutOfRange,
            ),
            made is Ok ==> made->Ok_0@.wf(),
    {
        if secret_number > MAX_SECRET {
            return Err(GameError::SecretOutOfRange);
        }
        Ok(
            NumberGuessingGame {
                secret_number,
                prize_pool: funding,
                guess_fee: GUESS_FEE,
                owner: caller,
                unaccounted: 0,
            },
        )
    }

    /// Takes up a game that the host has kept since an earlier call, from
    /// what the host stored of it. The price of a guess is [`GUESS_FEE`].
    ///
    /// Succeeds exactly when `secret_number` is at most [`MAX_SECRET`].
    pub fn restore(
        secret_number: u8,
        prize_pool: Balance,
        owner: AccountId,
        unaccounted: Balance,
    ) -> (kept: Result<Self, GameError>)
        ensures
            secret_number <= MAX_SECRET ==> kept is Ok && kept->Ok_0@ == (GameState {
                secret: secret_number,
                pool: prize_pool as nat,
                fee: GUESS_FEE as nat,
                owner: owner@,
                unaccounted: unaccounted as nat,
            }),
            secret_number > MAX_SECRET ==> kept == Err::<Self, GameError>(
                GameError::SecretOutOfRange,
            ),
            kept is Ok ==> kept->Ok_0@.wf(),
    {
        if secret_number > MAX_SECRET {
            return Err(GameError::SecretOutOfRange);
        }
        Ok(
            NumberGuessingGame {
                secret_number,
                prize_pool,
                guess_fee: GUESS_FEE,
                owner,
                unaccounted,
            },
        )
    }

    /// The transfer the ledger must carry out before `guess` can accept
    /// this guess as the winning one: the whole pool to `caller` if the
    /// guess is heard and right, none otherwise.
    pub fn payout_due(&self, number: u8, paid: Balance, caller: AccountId) -> (due: Option<Payout>)
        ensures
            transfer_of(due) == self@.payout_due(number, paid as nat, caller@),
            due is Some ==> due->Some_0.to == caller,
    {
        if paid < self.guess_fee || self.prize_pool == 0 || number != self.secret_number {
            None
        } else {
            Some(Payout { to: caller, amount: self.prize_pool })
        }
    }

    /// Takes a guess of `number` from `caller`, who sent `paid` with the
    /// call, and answers whether it won.
    ///
    /// `confirmed` is the payout the ledger has carried out for this call,
    /// if any. It is read only when the guess is right: the pool is emptied
    /// and the answer is `true` if and only if `confirmed` is the payout
    /// that was due; otherwise the call is aborted.
    ///
    /// A wrong guess adds exactly the fee to the pool. What was paid beyond
    /// the fee is added to the unaccounted amount instead. Of a guess that
    /// is turned away or wins, the game records no payment.
    ///
    /// An aborted call changes nothing.
    pub fn guess(
        &mut self,
        number: u8,
        paid: Balance,
        caller: AccountId,
        confirmed: Option<Payout>,
    ) -> (reply: Result<bool, GameError>)
        ensures
            final(self)@ == old(self)@.guess(number, paid as nat, caller@, transfer_of(confirmed)).0,
            reply == old(self)@.guess(number, paid as nat, caller@, transfer_of(confirmed)).1,
            final(self)@.wf(),
    {
        proof {
            use_type_invariant(&*self);
        }
        if paid < self.guess_fee || self.prize_pool == 0 {
            return Ok(false);
        }
        if number == self.secret_number {
            let settled = match confirmed {
                Some(payout) => payout.amount == self.prize_pool && payout.to == caller,
                None => false,
            };
            if settled {
                self.prize_pool = 0;
                Ok(true)
            } else {
                Err(GameError::TransferFailed)
            }
        } else {
            let excess: Balance = paid - self.guess_fee;
            match (self.prize_pool.checked_add(self.guess_fee), self.unaccounted.checked_add(excess)) {
                (Some(pool), Some(unaccounted)) => {
                    self.prize_pool = pool;
                    self.unaccounted = unaccounted;
                    Ok(false)
                },
                _ => Err(GameError::BalanceOverflow),
            }
        }
    }

    /// The prize the next winner takes.
    pub fn get_prize_pool(&self) -> (pool: Balance)
        ensures
            pool == self@.pool,
    {
        self.prize_pool
    }

    /// The price of a guess.
    pub fn get_guess_fee(&self) -> (fee: Balance)
        ensures
            fee == self@.fee,
            fee == GUESS_FEE,
    {
        proof {
            use_type_invariant(self);
        }
        self.guess_fee
    }

    /// What losing players have paid beyond the fee.
    pub fn get_unaccounted(&self) -> (amount: Balance)
        ensures
            amount == self@.unaccounted,
    {
        self.unaccounted
    }

    /// Sets a new secret and adds `additional_funds`, the value that came
    /// with the call, to the pool. The pool is added to, never replaced.
    ///
    /// Succeeds exactly when `caller` is the owner, `new_secret_number` is
    /// at most [`MAX_SECRET`] and the new pool fits the balance type.
    pub fn reset_game(
        &mut self,
        new_secret_number: u8,
        additional_funds: Balance,
        caller: AccountId,
    ) -> (done: Result<(), GameError>)
        ensures
            final(self)@ == old(self)@.reset(new_secret_number, additional_funds as nat, caller@).0,
            done == old(self)@.reset(new_secret_number, additional_funds as nat, caller@).1,
            final(self)@.wf(),
    {
        proof {
            use_type_invariant(&*self);
        }
        if caller != self.owner {
            return Err(GameError::NotOwner);
        }
        if new_secret_number > MAX_SECRET {
            return Err(GameError::SecretOutOfRange);
        }
        match self.prize_pool.checked_add(additional_funds) {
            Some(pool) => {
                self.secret_number = new_secret_number;
                self.prize_pool = pool;
                Ok(())
            },
            None => Err(GameError::BalanceOverflow),
        }
    }
}

} // verus!
