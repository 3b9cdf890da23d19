use vstd::prelude::*;
use crate::accounts::{DepositSol, ExecuteSwap, Initialize, WithdrawSol};
use crate::identity::Identity;
use crate::instructions::{after_deposit, after_initialize, after_swap, after_withdraw};
use crate::state::{BitSwarpError, UserState};

verus! {

/// The configuration record is created once: after an `initialize` that went
/// through, every further `initialize` on that record is turned down,
/// whoever signs it and whomever it names, and leaves the record as the
/// first call made it.
pub proof fn initialize_only_once(
    pre: Initialize,
    first_executor: Identity,
    second_owner: Identity,
    second_executor: Identity,
)
    requires
        after_initialize(pre, first_executor) is Ok,
    ensures
        ({
            let created = after_initialize(pre, first_executor)->Ok_0;
            let again = Initialize { config: created.config, owner: second_owner };
            after_initialize(again, second_executor) == Err::<Initialize, BitSwarpError>(
                BitSwarpError::AlreadyInitialized,
            )
        }),
{
}

/// A deposit that goes through credits the recorded native balance with the
/// amount, takes the amount out of the depositor's own funds and adds
/// exactly the amount to what the vault holds; the token balance stays.
pub proof fn deposit_credits_what_it_moves(pre: DepositSol, amount: u64)
    requires
        after_deposit(pre, amount) is Ok,
    ensures
        ({
            let post = after_deposit(pre, amount)->Ok_0;
            &&& post.user_state matches Some(state)
            &&& state.sol_balance == pre.recorded().sol_balance + amount
            &&& state.token_balance == pre.recorded().token_balance
            &&& post.vault.lamports == pre.vault.lamports + amount
            &&& post.user.lamports == pre.user.lamports - amount
        }),
{
}

/// A withdrawal above the recorded native balance is turned down with
/// `InsufficientBalance`, whatever the vault and the user hold.
pub proof fn withdraw_needs_recorded_balance(pre: WithdrawSol, amount: u64)
    requires
        pre.user_state.sol_balance < amount,
    ensures
        after_withdraw(pre, amount) == Err::<WithdrawSol, BitSwarpError>(
            BitSwarpError::InsufficientBalance,
        ),
{
}

/// A swap that anyone but the configured executor signs is turned down with
/// `Unauthorized`, whatever the amounts, the direction and the balances.
pub proof fn swap_needs_the_executor(pre: ExecuteSwap, amount_in: u64, amount_out: u64, is_buy: bool)
    requires
        pre.executor != pre.config.ai_executor,
    ensures
        after_swap(pre, amount_in, amount_out, is_buy) == Err::<ExecuteSwap, BitSwarpError>(
            BitSwarpError::Unauthorized,
        ),
{
}

/// A swap that the executor signs, that the paying balance covers and that
/// the gaining balance can take goes through: `amount_in` leaves the paying
/// balance and `amount_out` enters the other. On a buy the native balance
/// pays, on a sale the token balance. The configuration stays as it was.
pub proof fn swap_moves_the_named_amounts(
    pre: ExecuteSwap,
    amount_in: u64,
    amount_out: u64,
    is_buy: bool,
)
    requires
        pre.executor == pre.config.ai_executor,
        is_buy ==> pre.user_state.sol_balance >= amount_in && pre.user_state.token_balance
            + amount_out <= u64::MAX,
        !is_buy ==> pre.user_state.token_balance >= amount_in && pre.user_state.sol_balance
            + amount_out <= u64::MAX,
    ensures
        after_swap(pre, amount_in, amount_out, is_buy) matches Ok(post) && post.config == pre.config
            && post.user_state == (if is_buy {
            UserState {
                sol_balance: (pre.user_state.sol_balance - amount_in) as u64,
                token_balance: (pre.user_state.token_balance + amount_out) as u64,
            }
        } else {
            UserState {
                sol_balance: (pre.user_state.sol_balance + amount_out) as u64,
                token_balance: (pre.user_state.token_balance - amount_in) as u64,
            }
        }),
{
}

/// Depositing an amount into a ledger record that did not exist and then
/// withdrawing the same amount goes through and leaves the recorded balances
/// at zero, the vault's holding and the user's own funds as they were before
/// the deposit.
pub proof fn deposit_then_withdraw_restores(pre: DepositSol, amount: u64, vault_bump: u8)
    requires
        pre.user_state is None,
        after_deposit(pre, amount) is Ok,
    ensures
        ({
            let deposited = after_deposit(pre, amount)->Ok_0;
            let accounts = WithdrawSol {
                user: deposited.user,
                user_state: deposited.user_state->Some_0,
                vault: deposited.vault,
                vault_bump,
            };
            &&& deposited.user_state is Some
            &&& after_withdraw(accounts, amount) matches Ok(post)
            &&& post.user_state == UserState::empty()
            &&& post.vault == pre.vault
            &&& post.user == pre.user
        }),
{
}

} // verus!
