//! What holds of every game, proved from the definitions in
//! [`crate::model`].
//!
//! The executable operations return exactly what those definitions say, so
//! each law here is a law of the running game.

use vstd::prelude::*;

use crate::error::GameError;
use crate::model::{Attempt, GameState, Transfer, MAX_BALANCE, MAX_SECRET};

verus! {

/// A game opened with a secret in range and a prize the ledger can record
/// is well formed, belongs to its creator, and has the given prize as its
/// pool.
pub proof fn opened_game_is_well_formed(secret: u8, funding: nat, creator: Seq<u8>)
    requires
        secret <= MAX_SECRET,
        funding <= MAX_BALANCE,
    ensures
        GameState::opened(secret, funding, creator).wf(),
        GameState::opened(secret, funding, creator).secret == secret,
        GameState::opened(secret, funding, creator).pool == funding,
        GameState::opened(secret, funding, creator).owner == creator,
        GameState::opened(secret, funding, creator).unaccounted == 0,
{
}

/// A guess that comes with less than the fee changes nothing and is
/// answered `false`, whatever the number and whoever the caller.
pub proof fn underpaid_guess_changes_nothing(
    game: GameState,
    number: u8,
    paid: nat,
    caller: Seq<u8>,
    confirmed: Option<Transfer>,
)
    requires
        paid < game.fee,
    ensures
        game.guess(number, paid, caller, confirmed) == (game, Ok::<bool, GameError>(false)),
        game.payout_due(number, paid, caller) is None,
{
}

/// While the pool is empty every guess is answered `false` and changes
/// nothing, whatever the number, the payment and the caller.
pub proof fn concluded_game_answers_false(
    game: GameState,
    number: u8,
    paid: nat,
    caller: Seq<u8>,
    confirmed: Option<Transfer>,
)
    requires
        game.concluded(),
    ensures
        game.guess(number, paid, caller, confirmed) == (game, Ok::<bool, GameError>(false)),
        game.payout_due(number, paid, caller) is None,
{
}

/// The right guess, paid for while there is a prize, is owed the whole
/// pool. Once the ledger has confirmed that transfer, the guess is
/// answered `true` and leaves the pool empty and everything else as it
/// was.
pub proof fn right_guess_takes_the_whole_pool(
    game: GameState,
    number: u8,
    paid: nat,
    caller: Seq<u8>,
)
    requires
        game.active(),
        paid >= game.fee,
        number == game.secret,
    ensures
        game.payout_due(number, paid, caller) == Some(Transfer { to: caller, amount: game.pool }),
        game.guess(number, paid, caller, Some(Transfer { to: caller, amount: game.pool })) == (
            game.drained(),
            Ok::<bool, GameError>(true),
        ),
        game.drained().concluded(),
        game.drained() == (GameState { pool: 0, ..game }),
{
}

/// On a right guess the pool is emptied if and only if the ledger has
/// confirmed the transfer of the whole pool to the caller. Without that
/// confirmation the call is aborted and nothing changes.
pub proof fn pool_empties_iff_payout_confirmed(
    game: GameState,
    number: u8,
    paid: nat,
    caller: Seq<u8>,
    confirmed: Option<Transfer>,
)
    requires
        game.wins(number, paid),
    ensures
        game.guess(number, paid, caller, confirmed).0.concluded() <==> confirmed == Some(
            Transfer { to: caller, amount: game.pool },
        ),
        game.guess(number, paid, caller, confirmed).1 == Ok::<bool, GameError>(true) <==> confirmed
            == Some(Transfer { to: caller, amount: game.pool }),
        confirmed != Some(Transfer { to: caller, amount: game.pool }) ==> game.guess(
            number,
            paid,
            caller,
            confirmed,
        ) == (game, Err::<bool, GameError>(GameError::TransferFailed)),
{
}

/// A wrong guess that is heard, and whose payment the ledger can record,
/// is answered `false`. The pool grows by exactly the fee, whatever was
/// paid beyond the fee is set aside, and pool and set-aside amount
/// together grow by exactly what was paid.
pub proof fn wrong_guess_adds_the_fee(
    game: GameState,
    number: u8,
    paid: nat,
    caller: Seq<u8>,
    confirmed: Option<Transfer>,
)
    requires
        game.misses(number, paid),
        game.pool + game.fee <= MAX_BALANCE,
        game.unaccounted + paid - game.fee <= MAX_BALANCE,
    ensures
        game.guess(number, paid, caller, confirmed) == (
            game.with_miss(paid),
            Ok::<bool, GameError>(false),
        ),
        game.with_miss(paid).pool == game.pool + game.fee,
        game.with_miss(paid).unaccounted == game.unaccounted + (paid - game.fee),
        game.with_miss(paid).pool + game.with_miss(paid).unaccounted == game.pool
            + game.unaccounted + paid,
        game.payout_due(number, paid, caller) is None,
{
}

/// A series of wrong guesses on a game with a prize, each paying exactly
/// the fee, leaves the pool larger by one fee for each guess and
/// everything else as it was.
proof fn state_after_misses_at_the_fee(game: GameState, attempts: Seq<Attempt>)
    requires
        game.wf(),
        game.active(),
        forall|i: int|
            0 <= i < attempts.len() ==> (#[trigger] attempts[i]).paid == game.fee
                && attempts[i].number != game.secret,
        game.pool + attempts.len() * game.fee <= MAX_BALANCE,
    ensures
        game.after(attempts) == (GameState {
            pool: game.pool + attempts.len() * game.fee,
            ..game
        }),
    decreases attempts.len(),
{
    if attempts.len() > 0 {
        let earlier = attempts.drop_last();
        assert(earlier.len() * game.fee + game.fee == attempts.len() * game.fee)
            by (nonlinear_arith)
            requires
                earlier.len() + 1 == attempts.len(),
        ;
        assert forall|i: int| 0 <= i < earlier.len() implies (#[trigger] earlier[i]).paid
            == game.fee && earlier[i].number != game.secret by {
            assert(earlier[i] == attempts[i]);
        }
        state_after_misses_at_the_fee(game, earlier);
        let last = attempts.last();
        assert(last == attempts[attempts.len() - 1]);
        assert(game.after(earlier).misses(last.number, last.paid));
    } else {
        assert(attempts.len() * game.fee == 0) by (nonlinear_arith)
            requires
                attempts.len() == 0,
        ;
    }
}

/// In such a series the guess at place `i` is answered `false` and makes
/// the pool larger by exactly one fee.
proof fn one_miss_in_a_series(game: GameState, attempts: Seq<Attempt>, i: int)
    requires
        game.wf(),
        game.active(),
        forall|k: int|
            0 <= k < attempts.len() ==> (#[trigger] attempts[k]).paid == game.fee
                && attempts[k].number != game.secret,
        game.pool + attempts.len() * game.fee <= MAX_BALANCE,
        0 <= i < attempts.len(),
    ensures
        game.answer_at(attempts, i) == Ok::<bool, GameError>(false),
        game.after(attempts.take(i + 1)).pool == game.after(attempts.take(i)).pool + game.fee,
{
    let before = attempts.take(i);
    let through = attempts.take(i + 1);
    assert(i * game.fee <= attempts.len() * game.fee && (i + 1) * game.fee <= attempts.len()
        * game.fee && (i + 1) * game.fee == i * game.fee + game.fee) by (nonlinear_arith)
        requires
            0 <= i < attempts.len(),
    ;
    assert forall|k: int| 0 <= k < before.len() implies (#[trigger] before[k]).paid == game.fee
        && before[k].number != game.secret by {
        assert(before[k] == attempts[k]);
    }
    assert forall|k: int| 0 <= k < through.len() implies (#[trigger] through[k]).paid
        == game.fee && through[k].number != game.secret by {
        assert(through[k] == attempts[k]);
    }
    state_after_misses_at_the_fee(game, before);
    state_after_misses_at_the_fee(game, through);
    assert(game.after(before).misses(attempts[i].number, attempts[i].paid));
}

/// However many wrong guesses follow one another on a game with a prize,
/// each paying exactly the fee: every one of them is answered `false`,
/// every one of them makes the pool larger by exactly one fee, and in the
/// end the pool has grown by one fee for each guess while nothing else has
/// changed.
///
/// The series must stay within what the ledger can record.
pub proof fn misses_at_the_fee_add_one_fee_each(game: GameState, attempts: Seq<Attempt>)
    requires
        game.wf(),
        game.active(),
        forall|i: int|
            0 <= i < attempts.len() ==> (#[trigger] attempts[i]).paid == game.fee
                && attempts[i].number != game.secret,
        game.pool + attempts.len() * game.fee <= MAX_BALANCE,
    ensures
        forall|i: int|
            0 <= i < attempts.len() ==> #[trigger] game.answer_at(attempts, i) == Ok::<
                bool,
                GameError,
            >(false),
        forall|i: int|
            0 <= i < attempts.len() ==> #[trigger] game.after(attempts.take(i + 1)).pool
                == game.after(attempts.take(i)).pool + game.fee,
        forall|i: int|
            0 <= i < attempts.len() ==> #[trigger] game.after(attempts.take(i + 1)).pool
                > game.after(attempts.take(i)).pool,
        game.after(attempts) == (GameState {
            pool: game.pool + attempts.len() * game.fee,
            ..game
        }),
{
    state_after_misses_at_the_fee(game, attempts);
    assert forall|i: int| 0 <= i < attempts.len() implies #[trigger] game.answer_at(attempts, i)
        == Ok::<bool, GameError>(false) by {
        one_miss_in_a_series(game, attempts, i);
    }
    assert forall|i: int| 0 <= i < attempts.len() implies #[trigger] game.after(
        attempts.take(i + 1),
    ).pool == game.after(attempts.take(i)).pool + game.fee by {
        one_miss_in_a_series(game, attempts, i);
    }
}

/// No guess changes the secret, the fee or the owner.
pub proof fn guess_keeps_secret_fee_and_owner(
    game: GameState,
    number: u8,
    paid: nat,
    caller: Seq<u8>,
    confirmed: Option<Transfer>,
)
    ensures
        game.guess(number, paid, caller, confirmed).0.secret == game.secret,
        game.guess(number, paid, caller, confirmed).0.fee == game.fee,
        game.guess(number, paid, caller, confirmed).0.owner == game.owner,
        game.wf() ==> game.guess(number, paid, caller, confirmed).0.wf(),
{
}

/// A guess makes the pool smaller only by emptying it, and only when it
/// is answered `true`.
pub proof fn pool_leaves_only_whole(
    game: GameState,
    number: u8,
    paid: nat,
    caller: Seq<u8>,
    confirmed: Option<Transfer>,
)
    ensures
        game.guess(number, paid, caller, confirmed).0.pool < game.pool ==> {
            &&& game.guess(number, paid, caller, confirmed).0.pool == 0
            &&& game.guess(number, paid, caller, confirmed).1 == Ok::<bool, GameError>(true)
        },
        game.guess(number, paid, caller, confirmed).1 == Ok::<bool, GameError>(true) ==> {
            &&& game.wins(number, paid)
            &&& game.guess(number, paid, caller, confirmed).0.pool == 0
            &&& confirmed == Some(Transfer { to: caller, amount: game.pool })
        },
{
}

/// A guess on a game with a prize ends the game if and only if it is
/// answered `true`. Every other guess leaves a prize to win.
pub proof fn only_a_win_concludes(
    game: GameState,
    number: u8,
    paid: nat,
    caller: Seq<u8>,
    confirmed: Option<Transfer>,
)
    requires
        game.active(),
    ensures
        game.guess(number, paid, caller, confirmed).0.concluded() <==> game.guess(
            number,
            paid,
            caller,
            confirmed,
        ).1 == Ok::<bool, GameError>(true),
{
}

/// The books of the game change by exactly what a guess moves: a wrong
/// guess that is taken in adds what was paid, a right guess takes off the
/// prize that was paid out, and every other guess leaves them as they
/// were.
pub proof fn guess_keeps_the_books(
    game: GameState,
    number: u8,
    paid: nat,
    caller: Seq<u8>,
    confirmed: Option<Transfer>,
)
    ensures
        game.misses(number, paid) && game.guess(number, paid, caller, confirmed).1 is Ok
            ==> game.guess(number, paid, caller, confirmed).0.held() == game.held() + paid,
        game.guess(number, paid, caller, confirmed).1 == Ok::<bool, GameError>(true)
            ==> confirmed is Some && game.guess(number, paid, caller, confirmed).0.held()
            + confirmed->Some_0.amount == game.held(),
        !game.misses(number, paid) && game.guess(number, paid, caller, confirmed).1 != Ok::<
            bool,
            GameError,
        >(true) ==> game.guess(number, paid, caller, confirmed).0.held() == game.held(),
        game.guess(number, paid, caller, confirmed).1 is Err ==> game.guess(
            number,
            paid,
            caller,
            confirmed,
        ).0.held() == game.held(),
{
}

/// A guess that is aborted changes nothing.
pub proof fn aborted_guess_changes_nothing(
    game: GameState,
    number: u8,
    paid: nat,
    caller: Seq<u8>,
    confirmed: Option<Transfer>,
)
    requires
        game.guess(number, paid, caller, confirmed).1 is Err,
    ensures
        game.guess(number, paid, caller, confirmed).0 == game,
{
}

/// A reset by anyone but the owner is aborted and changes nothing,
/// whatever secret and funds come with it.
pub proof fn reset_by_stranger_changes_nothing(
    game: GameState,
    secret: u8,
    funds: nat,
    caller: Seq<u8>,
)
    requires
        caller != game.owner,
    ensures
        game.reset(secret, funds, caller) == (game, Err::<(), GameError>(GameError::NotOwner)),
{
}

/// A reset by the owner, to a secret in range and with funds the ledger
/// can record on top of the pool, succeeds: the secret is the new one, the
/// pool is the old pool plus the funds, and nothing else changes.
pub proof fn reset_by_owner_sets_secret_and_adds_funds(
    game: GameState,
    secret: u8,
    funds: nat,
    caller: Seq<u8>,
)
    requires
        caller == game.owner,
        secret <= MAX_SECRET,
        game.pool + funds <= MAX_BALANCE,
    ensures
        game.reset(secret, funds, caller) == (game.renewed(secret, funds), Ok::<(), GameError>(())),
        game.renewed(secret, funds).secret == secret,
        game.renewed(secret, funds).pool == game.pool + funds,
        game.renewed(secret, funds) == (GameState { secret, pool: game.pool + funds, ..game }),
        game.renewed(secret, funds).active() <==> game.pool + funds > 0,
        game.renewed(secret, funds).held() == game.held() + funds,
{
}

/// No reset changes the fee or the owner or makes the pool smaller, a
/// reset that is aborted changes nothing at all, and a well-formed game
/// stays well formed.
pub proof fn reset_keeps_fee_and_owner(game: GameState, secret: u8, funds: nat, caller: Seq<u8>)
    ensures
        game.reset(secret, funds, caller).0.fee == game.fee,
        game.reset(secret, funds, caller).0.owner == game.owner,
        game.reset(secret, funds, caller).0.unaccounted == game.unaccounted,
        game.reset(secret, funds, caller).0.pool >= game.pool,
        game.reset(secret, funds, caller).1 is Err ==> game.reset(secret, funds, caller).0 == game,
        game.wf() ==> game.reset(secret, funds, caller).0.wf(),
{
}

} // verus!
