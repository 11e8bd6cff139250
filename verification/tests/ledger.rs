//! The game played against ink!'s off-chain ledger: the host reads caller
//! and payment from the environment, makes the transfer the game asks for,
//! and tells the game how it went.

use ink::env::test::{
    default_accounts, get_account_balance, run_test, set_account_balance, set_callee, set_caller,
    set_value_transferred, transfer_in,
};
use ink::env::DefaultEnvironment;
use number_guessing_game::{AccountId, Balance, GameError, NumberGuessingGame, GUESS_FEE};

const INITIAL_PRIZE: Balance = 10_000_000_000_000;

fn player(account: ink::primitives::AccountId) -> AccountId {
    let bytes: &[u8; 32] = account.as_ref();
    AccountId(*bytes)
}

fn account(player: AccountId) -> ink::primitives::AccountId {
    ink::primitives::AccountId::from(player.0)
}

fn balance_of(account: ink::primitives::AccountId) -> Balance {
    get_account_balance::<DefaultEnvironment>(account).expect("account exists")
}

/// Opens a game on the ledger: `owner` calls and sends `funding` to the
/// contract's account.
fn open_on_ledger(
    contract: ink::primitives::AccountId,
    owner: ink::primitives::AccountId,
    secret: u8,
    funding: Balance,
) -> NumberGuessingGame {
    set_account_balance::<DefaultEnvironment>(contract, 0);
    set_account_balance::<DefaultEnvironment>(owner, funding);
    set_callee::<DefaultEnvironment>(contract);
    set_caller::<DefaultEnvironment>(owner);
    transfer_in::<DefaultEnvironment>(funding);
    NumberGuessingGame::new(
        secret,
        ink::env::transferred_value::<DefaultEnvironment>(),
        player(ink::env::caller::<DefaultEnvironment>()),
    )
    .expect("secret in range")
}

/// What the contract does with a guess: it reads caller and payment from
/// the environment, pays out what the game says is due, and hands the game
/// the outcome.
fn handle_guess(game: &mut NumberGuessingGame, number: u8) -> Result<bool, GameError> {
    let paid = ink::env::transferred_value::<DefaultEnvironment>();
    let caller = player(ink::env::caller::<DefaultEnvironment>());
    let confirmed = game.payout_due(number, paid, caller).filter(|payout| {
        ink::env::transfer::<DefaultEnvironment>(account(payout.to), payout.amount).is_ok()
    });
    game.guess(number, paid, caller, confirmed)
}

/// Takes a guess on the ledger: `guesser` calls and sends `payment` to the
/// contract's account.
fn guess_on_ledger(
    game: &mut NumberGuessingGame,
    guesser: ink::primitives::AccountId,
    payment: Balance,
    number: u8,
) -> Result<bool, GameError> {
    set_caller::<DefaultEnvironment>(guesser);
    transfer_in::<DefaultEnvironment>(payment);
    handle_guess(game, number)
}

#[test]
fn default_accounts_keep_their_bytes() {
    let accounts = default_accounts::<DefaultEnvironment>();
    assert_eq!(player(accounts.alice), AccountId([0x01; 32]));
    assert_eq!(player(accounts.bob), AccountId([0x02; 32]));
    assert_eq!(account(player(accounts.bob)), accounts.bob);
    assert_ne!(player(accounts.alice), player(accounts.bob));
}

#[test]
fn right_guess_moves_the_pool_to_the_guesser() {
    run_test::<DefaultEnvironment, _>(|accounts| {
        let contract = accounts.django;
        let mut game = open_on_ledger(contract, accounts.alice, 5, INITIAL_PRIZE);
        assert_eq!(balance_of(contract), INITIAL_PRIZE);
        assert_eq!(game.get_prize_pool(), INITIAL_PRIZE);

        set_account_balance::<DefaultEnvironment>(accounts.bob, GUESS_FEE);
        let result = guess_on_ledger(&mut game, accounts.bob, GUESS_FEE, 5);
        assert_eq!(result, Ok(true));
        assert_eq!(game.get_prize_pool(), 0);
        assert_eq!(balance_of(accounts.bob), INITIAL_PRIZE);
        assert_eq!(balance_of(contract), GUESS_FEE);
        Ok(())
    })
    .unwrap();
}

#[test]
fn wrong_guess_moves_nothing_out() {
    run_test::<DefaultEnvironment, _>(|accounts| {
        let contract = accounts.django;
        let mut game = open_on_ledger(contract, accounts.alice, 5, INITIAL_PRIZE);

        set_account_balance::<DefaultEnvironment>(accounts.bob, 3 * GUESS_FEE);
        let result = guess_on_ledger(&mut game, accounts.bob, GUESS_FEE, 3);
        assert_eq!(result, Ok(false));
        assert_eq!(game.get_prize_pool(), INITIAL_PRIZE + GUESS_FEE);
        assert_eq!(balance_of(accounts.bob), 2 * GUESS_FEE);
        assert_eq!(balance_of(contract), INITIAL_PRIZE + GUESS_FEE);
        // The contract holds exactly what the game has on its books.
        assert_eq!(balance_of(contract), game.get_prize_pool() + game.get_unaccounted());
        Ok(())
    })
    .unwrap();
}

#[test]
fn overpaid_wrong_guess_stays_on_the_books() {
    run_test::<DefaultEnvironment, _>(|accounts| {
        let contract = accounts.django;
        let mut game = open_on_ledger(contract, accounts.alice, 5, INITIAL_PRIZE);

        set_account_balance::<DefaultEnvironment>(accounts.bob, 3 * GUESS_FEE);
        let result = guess_on_ledger(&mut game, accounts.bob, GUESS_FEE + 250, 3);
        assert_eq!(result, Ok(false));
        assert_eq!(game.get_prize_pool(), INITIAL_PRIZE + GUESS_FEE);
        assert_eq!(game.get_unaccounted(), 250);
        assert_eq!(balance_of(contract), game.get_prize_pool() + game.get_unaccounted());
        Ok(())
    })
    .unwrap();
}

#[test]
fn right_guess_is_aborted_when_the_ledger_refuses_to_pay() {
    run_test::<DefaultEnvironment, _>(|accounts| {
        let mut game = NumberGuessingGame::new(5, INITIAL_PRIZE, player(accounts.alice)).unwrap();
        // The ledger has no account for the contract, so it cannot pay.
        let contract = ink::primitives::AccountId::from([0x09; 32]);
        assert!(get_account_balance::<DefaultEnvironment>(contract).is_err());
        set_callee::<DefaultEnvironment>(contract);
        set_caller::<DefaultEnvironment>(accounts.bob);
        set_value_transferred::<DefaultEnvironment>(GUESS_FEE);
        let bob_had = balance_of(accounts.bob);
        let before = game;
        let result = handle_guess(&mut game, 5);
        assert_eq!(result, Err(GameError::TransferFailed));
        assert_eq!(game, before);
        assert_eq!(game.get_prize_pool(), INITIAL_PRIZE);
        assert_eq!(balance_of(accounts.bob), bob_had);
        Ok(())
    })
    .unwrap();
}
