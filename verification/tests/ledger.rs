use bitswarp::{
    deposit_sol, execute_swap, initialize, withdraw_sol, BitSwarpError, Config, DepositSol,
    ExecuteSwap, Identity, Initialize, UserState, Wallet, WithdrawSol,
};

fn key(tag: u8) -> Identity {
    Identity::new([tag; 32])
}

fn deposit_accounts(funds: u64, state: Option<UserState>, vault: u64) -> DepositSol {
    DepositSol {
        user: Wallet { key: key(1), lamports: funds },
        user_state: state,
        vault: Wallet { key: key(9), lamports: vault },
    }
}

fn withdraw_accounts(funds: u64, state: UserState, vault: u64) -> WithdrawSol {
    WithdrawSol {
        user: Wallet { key: key(1), lamports: funds },
        user_state: state,
        vault: Wallet { key: key(9), lamports: vault },
        vault_bump: 255,
    }
}

fn swap_accounts(signer: Identity, state: UserState) -> ExecuteSwap {
    ExecuteSwap {
        executor: signer,
        config: Config { owner: key(7), ai_executor: key(8) },
        user_state: state,
    }
}

#[test]
fn initialize_creates_the_config() {
    let mut accounts = Initialize { config: None, owner: key(7) };
    assert_eq!(initialize(&mut accounts, key(8)), Ok(()));
    assert_eq!(accounts.config, Some(Config { owner: key(7), ai_executor: key(8) }));
    assert_eq!(accounts.owner, key(7));
}

#[test]
fn initialize_twice_is_turned_down() {
    let mut accounts = Initialize { config: None, owner: key(7) };
    assert_eq!(initialize(&mut accounts, key(8)), Ok(()));
    let created = accounts;
    assert_eq!(initialize(&mut accounts, key(3)), Err(BitSwarpError::AlreadyInitialized));
    assert_eq!(accounts, created);
    let mut other = Initialize { config: created.config, owner: key(4) };
    assert_eq!(initialize(&mut other, key(4)), Err(BitSwarpError::AlreadyInitialized));
    assert_eq!(other.config, Some(Config { owner: key(7), ai_executor: key(8) }));
}

#[test]
fn deposit_creates_the_record_and_credits_it() {
    let mut accounts = deposit_accounts(5_000, None, 70);
    assert!(deposit_sol(&mut accounts, 1_000).is_ok());
    assert_eq!(accounts.user_state, Some(UserState { sol_balance: 1_000, token_balance: 0 }));
    assert_eq!(accounts.vault.lamports, 1_070);
    assert_eq!(accounts.user.lamports, 4_000);
}

#[test]
fn deposit_adds_to_an_existing_record() {
    let state = UserState { sol_balance: 25, token_balance: 4 };
    let mut accounts = deposit_accounts(100, Some(state), 25);
    assert!(deposit_sol(&mut accounts, 100).is_ok());
    assert_eq!(accounts.user_state, Some(UserState { sol_balance: 125, token_balance: 4 }));
    assert_eq!(accounts.vault.lamports, 125);
    assert_eq!(accounts.user.lamports, 0);
}

#[test]
fn deposit_of_zero_is_accepted() {
    let mut accounts = deposit_accounts(0, None, 3);
    assert!(deposit_sol(&mut accounts, 0).is_ok());
    assert_eq!(accounts.user_state, Some(UserState { sol_balance: 0, token_balance: 0 }));
    assert_eq!(accounts.vault.lamports, 3);
    assert_eq!(accounts.user.lamports, 0);
}

#[test]
fn deposit_above_the_users_funds_changes_nothing() {
    let mut accounts = deposit_accounts(999, None, 70);
    let before = accounts;
    assert_eq!(deposit_sol(&mut accounts, 1_000), Err(BitSwarpError::InsufficientFunds));
    assert_eq!(accounts, before);
    assert_eq!(accounts.user_state, None);
}

#[test]
fn deposit_that_overflows_the_balance_changes_nothing() {
    let state = UserState { sol_balance: u64::MAX - 5, token_balance: 1 };
    let mut accounts = deposit_accounts(100, Some(state), 0);
    let before = accounts;
    assert_eq!(deposit_sol(&mut accounts, 6), Err(BitSwarpError::Overflow));
    assert_eq!(accounts, before);
    assert!(deposit_sol(&mut accounts, 5).is_ok());
    assert_eq!(accounts.user_state, Some(UserState { sol_balance: u64::MAX, token_balance: 1 }));
}

#[test]
fn deposit_that_overflows_the_vault_changes_nothing() {
    let mut accounts = deposit_accounts(100, None, u64::MAX - 1);
    let before = accounts;
    assert_eq!(deposit_sol(&mut accounts, 2), Err(BitSwarpError::Overflow));
    assert_eq!(accounts, before);
}

#[test]
fn deposit_reports_missing_funds_before_overflow() {
    let state = UserState { sol_balance: u64::MAX, token_balance: 0 };
    let mut accounts = deposit_accounts(1, Some(state), u64::MAX);
    assert_eq!(deposit_sol(&mut accounts, 2), Err(BitSwarpError::InsufficientFunds));
}

#[test]
fn swap_by_another_signer_is_unauthorized() {
    let state = UserState { sol_balance: 1_000, token_balance: 1_000 };
    for is_buy in [true, false] {
        let mut accounts = swap_accounts(key(7), state);
        let before = accounts;
        assert_eq!(execute_swap(&mut accounts, 1, 1, is_buy), Err(BitSwarpError::Unauthorized));
        assert_eq!(accounts, before);
    }
}

#[test]
fn swap_by_another_signer_is_unauthorized_whatever_the_balances() {
    let mut accounts = swap_accounts(key(1), UserState { sol_balance: 0, token_balance: u64::MAX });
    assert_eq!(execute_swap(&mut accounts, 5, 5, true), Err(BitSwarpError::Unauthorized));
    let mut one_byte_off = [8u8; 32];
    one_byte_off[31] = 9;
    let mut accounts =
        swap_accounts(Identity::new(one_byte_off), UserState { sol_balance: 9, token_balance: 9 });
    assert_eq!(execute_swap(&mut accounts, 1, 1, false), Err(BitSwarpError::Unauthorized));
}

#[test]
fn buy_pays_native_and_gains_tokens() {
    let mut accounts = swap_accounts(key(8), UserState { sol_balance: 1_000, token_balance: 3 });
    assert_eq!(execute_swap(&mut accounts, 400, 40, true), Ok(()));
    assert_eq!(accounts.user_state, UserState { sol_balance: 600, token_balance: 43 });
    assert_eq!(accounts.config, Config { owner: key(7), ai_executor: key(8) });
}

#[test]
fn sale_pays_tokens_and_gains_native() {
    let mut accounts = swap_accounts(key(8), UserState { sol_balance: 600, token_balance: 43 });
    assert_eq!(execute_swap(&mut accounts, 43, 500, false), Ok(()));
    assert_eq!(accounts.user_state, UserState { sol_balance: 1_100, token_balance: 0 });
}

#[test]
fn swap_of_the_whole_balance_is_accepted() {
    let mut accounts = swap_accounts(key(8), UserState { sol_balance: 10, token_balance: 0 });
    assert_eq!(execute_swap(&mut accounts, 10, u64::MAX, true), Ok(()));
    assert_eq!(accounts.user_state, UserState { sol_balance: 0, token_balance: u64::MAX });
}

#[test]
fn swap_above_the_paying_balance_changes_nothing() {
    let state = UserState { sol_balance: 10, token_balance: 20 };
    let mut accounts = swap_accounts(key(8), state);
    assert_eq!(execute_swap(&mut accounts, 11, 1, true), Err(BitSwarpError::InsufficientBalance));
    assert_eq!(accounts.user_state, state);
    assert_eq!(execute_swap(&mut accounts, 21, 1, false), Err(BitSwarpError::InsufficientBalance));
    assert_eq!(accounts.user_state, state);
}

#[test]
fn swap_that_overflows_the_gaining_balance_changes_nothing() {
    let state = UserState { sol_balance: 10, token_balance: u64::MAX };
    let mut accounts = swap_accounts(key(8), state);
    assert_eq!(execute_swap(&mut accounts, 1, 1, true), Err(BitSwarpError::Overflow));
    assert_eq!(accounts.user_state, state);
    let state = UserState { sol_balance: u64::MAX - 1, token_balance: 10 };
    let mut accounts = swap_accounts(key(8), state);
    assert_eq!(execute_swap(&mut accounts, 1, 2, false), Err(BitSwarpError::Overflow));
    assert_eq!(accounts.user_state, state);
}

#[test]
fn withdraw_pays_out_of_the_vault() {
    let state = UserState { sol_balance: 600, token_balance: 40 };
    let mut accounts = withdraw_accounts(4_000, state, 1_070);
    assert!(withdraw_sol(&mut accounts, 250).is_ok());
    assert_eq!(accounts.user_state, UserState { sol_balance: 350, token_balance: 40 });
    assert_eq!(accounts.vault.lamports, 820);
    assert_eq!(accounts.user.lamports, 4_250);
    assert_eq!(accounts.vault_bump, 255);
}

#[test]
fn withdraw_above_the_balance_changes_nothing() {
    let state = UserState { sol_balance: 600, token_balance: 40 };
    let mut accounts = withdraw_accounts(4_000, state, 1_070);
    let before = accounts;
    assert_eq!(withdraw_sol(&mut accounts, 601), Err(BitSwarpError::InsufficientBalance));
    assert_eq!(accounts, before);
}

#[test]
fn withdraw_above_the_vaults_holding_changes_nothing() {
    let state = UserState { sol_balance: 600, token_balance: 40 };
    let mut accounts = withdraw_accounts(4_000, state, 599);
    let before = accounts;
    assert_eq!(withdraw_sol(&mut accounts, 600), Err(BitSwarpError::InsufficientFunds));
    assert_eq!(accounts, before);
}

#[test]
fn withdraw_that_overflows_the_users_funds_changes_nothing() {
    let state = UserState { sol_balance: 600, token_balance: 40 };
    let mut accounts = withdraw_accounts(u64::MAX - 599, state, 600);
    let before = accounts;
    assert_eq!(withdraw_sol(&mut accounts, 600), Err(BitSwarpError::Overflow));
    assert_eq!(accounts, before);
}

#[test]
fn deposit_swap_withdraw_scenario() {
    let mut deposit = deposit_accounts(5_000, None, 70);
    assert!(deposit_sol(&mut deposit, 1_000).is_ok());
    assert_eq!(deposit.user_state.unwrap().sol_balance, 1_000);

    let mut swap = swap_accounts(key(8), deposit.user_state.unwrap());
    assert_eq!(execute_swap(&mut swap, 400, 40, true), Ok(()));
    assert_eq!(swap.user_state, UserState { sol_balance: 600, token_balance: 40 });

    let mut withdraw = WithdrawSol {
        user: deposit.user,
        user_state: swap.user_state,
        vault: deposit.vault,
        vault_bump: 254,
    };
    let held = withdraw.vault.lamports;
    assert!(withdraw_sol(&mut withdraw, 600).is_ok());
    assert_eq!(withdraw.user_state.sol_balance, 0);
    assert_eq!(withdraw.vault.lamports, held - 600);

    let before = withdraw;
    assert_eq!(withdraw_sol(&mut withdraw, 1), Err(BitSwarpError::InsufficientBalance));
    assert_eq!(withdraw, before);
}

#[test]
fn deposit_then_withdraw_round_trip() {
    for amount in [0u64, 1, 777, 5_000] {
        let mut deposit = deposit_accounts(5_000, None, 70);
        assert!(deposit_sol(&mut deposit, amount).is_ok());
        let mut withdraw = WithdrawSol {
            user: deposit.user,
            user_state: deposit.user_state.unwrap(),
            vault: deposit.vault,
            vault_bump: 255,
        };
        assert!(withdraw_sol(&mut withdraw, amount).is_ok());
        assert_eq!(withdraw.user_state, UserState { sol_balance: 0, token_balance: 0 });
        assert_eq!(withdraw.vault.lamports, 70);
        assert_eq!(withdraw.user.lamports, 5_000);
    }
}

#[test]
fn new_record_is_empty() {
    assert_eq!(UserState::new(), UserState { sol_balance: 0, token_balance: 0 });
}

#[test]
fn errors_are_reported_in_words() {
    assert_eq!(BitSwarpError::Unauthorized.message(), "Unauthorized: Not the AI Executor");
    assert_eq!(BitSwarpError::InsufficientBalance.message(), "Insufficient Balance");
    assert_eq!(BitSwarpError::InsufficientFunds.message(), "Insufficient Funds");
    assert_eq!(BitSwarpError::Overflow.message(), "Balance Overflow");
    assert_eq!(BitSwarpError::AlreadyInitialized.message(), "Already Initialized");
}
