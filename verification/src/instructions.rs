use vstd::prelude::*;
use crate::accounts::{DepositSol, ExecuteSwap, Initialize, Wallet, WithdrawSol};
use crate::address::Derivation;
use crate::identity::Identity;
use crate::invocation::{system_transfer, transfer_from_signer, transfer_from_vault, Invocation};
use crate::state::{BitSwarpError, Config, UserState};

verus! {

/// What `withdraw_sol` makes of the accounts, or why it turns the amount down.
pub open spec fn after_withdraw(pre: WithdrawSol, amount: u64) -> Result<WithdrawSol, BitSwarpError> {
    if pre.user_state.sol_balance < amount {
        Err(BitSwarpError::InsufficientBalance)
    } else if pre.vault.lamports < amount {
        Err(BitSwarpError::InsufficientFunds)
    } else if pre.user.lamports + amount > u64::MAX {
        Err(BitSwarpError::Overflow)
    } else {
        Ok(
            WithdrawSol {
                user: Wallet { key: pre.user.key, lamports: (pre.user.lamports + amount) as u64 },
                user_state: UserState {
                    sol_balance: (pre.user_state.sol_balance - amount) as u64,
                    token_balance: pre.user_state.token_balance,
                },
                vault: Wallet { key: pre.vault.key, lamports: (pre.vault.lamports - amount) as u64 },
                vault_bump: pre.vault_bump,
            },
        )
    }
}

/// Takes `amount` off the user's recorded native balance and pays it out of
/// the vault to the user. The payment is the returned invocation: a system
/// transfer from the vault, signed by the vault's seeds and bump.
///
/// An amount above the recorded balance is turned down with
/// `InsufficientBalance`, one above the vault's holding with
/// `InsufficientFunds`, and one that the user's holding cannot take with
/// `Overflow`; whenever the amount is turned down, nothing changes.
pub fn withdraw_sol(ctx: &mut WithdrawSol, amount: u64) -> (result: Result<Invocation, BitSwarpError>)
    ensures
        match result {
            Ok(invocation) => {
                &&& after_withdraw(*old(ctx), amount) == Ok::<WithdrawSol, BitSwarpError>(*final(ctx))
                &&& invocation@.instruction == system_transfer(
                    old(ctx).vault.key,
                    old(ctx).user.key,
                    amount,
                )
                &&& invocation@.signers_seeds == seq![
                    Derivation::Vault.signer_seeds_spec(old(ctx).vault_bump),
                ]
            },
            Err(error) => {
                &&& after_withdraw(*old(ctx), amount) == Err::<WithdrawSol, BitSwarpError>(error)
                &&& *final(ctx) == *old(ctx)
            },
        },
        old(ctx).user_state.sol_balance < amount ==> result == Err::<Invocation, BitSwarpError>(
            BitSwarpError::InsufficientBalance,
        ),
        result is Ok ==> {
            &&& final(ctx).user_state.sol_balance == old(ctx).user_state.sol_balance - amount
            &&& final(ctx).user_state.token_balance == old(ctx).user_state.token_balance
            &&& final(ctx).vault.lamports == old(ctx).vault.lamports - amount
            &&& final(ctx).user.lamports == old(ctx).user.lamports + amount
        },
{
    if ctx.user_state.sol_balance < amount {
        return Err(BitSwarpError::InsufficientBalance);
    }
    if ctx.vault.lamports < amount {
        return Err(BitSwarpError::InsufficientFunds);
    }
    let paid = match ctx.user.lamports.checked_add(amount) {
        Some(paid) => paid,
        None => {
            return Err(BitSwarpError::Overflow);
        },
    };
    let invocation = transfer_from_vault(&ctx.vault.key, ctx.vault_bump, &ctx.user.key, amount);
    ctx.user_state.sol_balance = ctx.user_state.sol_balance - amount;
    ctx.vault.lamports = ctx.vault.lamports - amount;
    ctx.user.lamports = paid;
    Ok(invocation)
}

/// What `deposit_sol` makes of the accounts, or why it turns the amount down.
pub open spec fn after_deposit(pre: DepositSol, amount: u64) -> Result<DepositSol, BitSwarpError> {
    if pre.user.lamports < amount {
        Err(BitSwarpError::InsufficientFunds)
    } else if pre.vault.lamports + amount > u64::MAX || pre.recorded().sol_balance + amount
        > u64::MAX {
        Err(BitSwarpError::Overflow)
    } else {
        Ok(
            DepositSol {
                user: Wallet { key: pre.user.key, lamports: (pre.user.lamports - amount) as u64 },
                user_state: Some(
                    UserState {
                        sol_balance: (pre.recorded().sol_balance + amount) as u64,
                        token_balance: pre.recorded().token_balance,
                    },
                ),
                vault: Wallet { key: pre.vault.key, lamports: (pre.vault.lamports + amount) as u64 },
            },
        )
    }
}

/// Moves `amount` of the user's own funds into the vault and credits it to
/// the user's recorded native balance, creating the record at zero where
/// there is none. The movement is the returned invocation: a system transfer
/// from the user, who signs, to the vault.
///
/// An amount above the user's funds is turned down with `InsufficientFunds`,
/// one that the vault or the recorded balance cannot take with `Overflow`;
/// whenever the amount is turned down, nothing changes and no record is
/// created.
pub fn deposit_sol(ctx: &mut DepositSol, amount: u64) -> (result: Result<Invocation, BitSwarpError>)
    ensures
        match result {
            Ok(invocation) => {
                &&& after_deposit(*old(ctx), amount) == Ok::<DepositSol, BitSwarpError>(*final(ctx))
                &&& invocation@.instruction == system_transfer(
                    old(ctx).user.key,
                    old(ctx).vault.key,
                    amount,
                )
                &&& invocation@.signers_seeds == Seq::<Seq<Seq<u8>>>::empty()
            },
            Err(error) => {
                &&& after_deposit(*old(ctx), amount) == Err::<DepositSol, BitSwarpError>(error)
                &&& *final(ctx) == *old(ctx)
            },
        },
        result is Ok ==> {
            &&& final(ctx).user_state matches Some(state)
            &&& state.sol_balance == old(ctx).recorded().sol_balance + amount
            &&& state.token_balance == old(ctx).recorded().token_balance
            &&& final(ctx).vault.lamports == old(ctx).vault.lamports + amount
            &&& final(ctx).user.lamports == old(ctx).user.lamports - amount
        },
{
    if ctx.user.lamports < amount {
        return Err(BitSwarpError::InsufficientFunds);
    }
    let state = match ctx.user_state {
        Some(state) => state,
        None => UserState::new(),
    };
    let held = match ctx.vault.lamports.checked_add(amount) {
        Some(held) => held,
        None => {
            return Err(BitSwarpError::Overflow);
        },
    };
    let credited = match state.sol_balance.checked_add(amount) {
        Some(credited) => credited,
        None => {
            return Err(BitSwarpError::Overflow);
        },
    };
    let invocation = transfer_from_signer(&ctx.user.key, &ctx.vault.key, amount);
    ctx.user.lamports = ctx.user.lamports - amount;
    ctx.vault.lamports = held;
    ctx.user_state = Some(UserState { sol_balance: credited, token_balance: state.token_balance });
    Ok(invocation)
}

/// The two balances after a swap, or why the amounts are turned down: on a
/// buy `amount_in` leaves the native balance and `amount_out` enters the
/// token balance, on a sale the other way round.
pub open spec fn swapped(state: UserState, amount_in: u64, amount_out: u64, is_buy: bool) -> Result<
    UserState,
    BitSwarpError,
> {
    if is_buy {
        if state.sol_balance < amount_in {
            Err(BitSwarpError::InsufficientBalance)
        } else if state.token_balance + amount_out > u64::MAX {
            Err(BitSwarpError::Overflow)
        } else {
            Ok(
                UserState {
                    sol_balance: (state.sol_balance - amount_in) as u64,
                    token_balance: (state.token_balance + amount_out) as u64,
                },
            )
        }
    } else {
        if state.token_balance < amount_in {
            Err(BitSwarpError::InsufficientBalance)
        } else if state.sol_balance + amount_out > u64::MAX {
            Err(BitSwarpError::Overflow)
        } else {
            Ok(
                UserState {
                    sol_balance: (state.sol_balance + amount_out) as u64,
                    token_balance: (state.token_balance - amount_in) as u64,
                },
            )
        }
    }
}

/// What `execute_swap` makes of the accounts, or why it turns the swap down.
pub open spec fn after_swap(
    pre: ExecuteSwap,
    amount_in: u64,
    amount_out: u64,
    is_buy: bool,
) -> Result<ExecuteSwap, BitSwarpError> {
    if pre.executor != pre.config.ai_executor {
        Err(BitSwarpError::Unauthorized)
    } else {
        match swapped(pre.user_state, amount_in, amount_out, is_buy) {
            Ok(state) => Ok(
                ExecuteSwap { executor: pre.executor, config: pre.config, user_state: state },
            ),
            Err(error) => Err(error),
        }
    }
}

/// Moves value between the two balances of the supplied ledger record, at
/// the amounts that the executor names; no funds move.
///
/// A signer other than the configured executor is turned down with
/// `Unauthorized`, whatever the balances are. Then an `amount_in` above the
/// balance that pays is turned down with `InsufficientBalance`, and an
/// `amount_out` that the other balance cannot take with `Overflow`. Whenever
/// the swap is turned down, nothing changes.
pub fn execute_swap(ctx: &mut ExecuteSwap, amount_in: u64, amount_out: u64, is_buy: bool) -> (result:
    Result<(), BitSwarpError>)
    ensures
        match result {
            Ok(()) => after_swap(*old(ctx), amount_in, amount_out, is_buy) == Ok::<
                ExecuteSwap,
                BitSwarpError,
            >(*final(ctx)),
            Err(error) => {
                &&& after_swap(*old(ctx), amount_in, amount_out, is_buy) == Err::<
                    ExecuteSwap,
                    BitSwarpError,
                >(error)
                &&& *final(ctx) == *old(ctx)
            },
        },
        old(ctx).executor != old(ctx).config.ai_executor ==> result == Err::<(), BitSwarpError>(
            BitSwarpError::Unauthorized,
        ),
        old(ctx).executor == old(ctx).config.ai_executor && is_buy && old(ctx).user_state.sol_balance
            >= amount_in && old(ctx).user_state.token_balance + amount_out <= u64::MAX ==> {
            &&& result is Ok
            &&& final(ctx).user_state.sol_balance == old(ctx).user_state.sol_balance - amount_in
            &&& final(ctx).user_state.token_balance == old(ctx).user_state.token_balance
                + amount_out
        },
        old(ctx).executor == old(ctx).config.ai_executor && !is_buy
            && old(ctx).user_state.token_balance >= amount_in && old(ctx).user_state.sol_balance
            + amount_out <= u64::MAX ==> {
            &&& result is Ok
            &&& final(ctx).user_state.token_balance == old(ctx).user_state.token_balance
                - amount_in
            &&& final(ctx).user_state.sol_balance == old(ctx).user_state.sol_balance + amount_out
        },
{
    if ctx.executor != ctx.config.ai_executor {
        return Err(BitSwarpError::Unauthorized);
    }
    if is_buy {
        if ctx.user_state.sol_balance < amount_in {
            return Err(BitSwarpError::InsufficientBalance);
        }
        let gained = match ctx.user_state.token_balance.checked_add(amount_out) {
            Some(gained) => gained,
            None => {
                return Err(BitSwarpError::Overflow);
            },
        };
        ctx.user_state.sol_balance = ctx.user_state.sol_balance - amount_in;
        ctx.user_state.token_balance = gained;
    } else {
        if ctx.user_state.token_balance < amount_in {
            return Err(BitSwarpError::InsufficientBalance);
        }
        let gained = match ctx.user_state.sol_balance.checked_add(amount_out) {
            Some(gained) => gained,
            None => {
                return Err(BitSwarpError::Overflow);
            },
        };
        ctx.user_state.token_balance = ctx.user_state.token_balance - amount_in;
        ctx.user_state.sol_balance = gained;
    }
    Ok(())
}

/// What `initialize` makes of the accounts, or why it turns the call down.
pub open spec fn after_initialize(pre: Initialize, ai_executor: Identity) -> Result<
    Initialize,
    BitSwarpError,
> {
    if pre.config is Some {
        Err(BitSwarpError::AlreadyInitialized)
    } else {
        Ok(
            Initialize {
                config: Some(Config { owner: pre.owner, ai_executor }),
                owner: pre.owner,
            },
        )
    }
}

/// Creates the configuration record, with the signer as owner and
/// `ai_executor` as the executor. Where the record exists already the call is
/// turned down with `AlreadyInitialized` and the record stays as it is.
pub fn initialize(ctx: &mut Initialize, ai_executor: Identity) -> (result: Result<(), BitSwarpError>)
    ensures
        match result {
            Ok(()) => after_initialize(*old(ctx), ai_executor) == Ok::<Initialize, BitSwarpError>(
                *final(ctx),
            ),
            Err(error) => {
                &&& after_initialize(*old(ctx), ai_executor) == Err::<Initialize, BitSwarpError>(
                    error,
                )
                &&& *final(ctx) == *old(ctx)
            },
        },
        old(ctx).config is Some ==> result == Err::<(), BitSwarpError>(
            BitSwarpError::AlreadyInitialized,
        ),
        old(ctx).config is None ==> result is Ok && final(ctx).config == Some(
            Config { owner: old(ctx).owner, ai_executor },
        ),
{
    if ctx.config.is_some() {
        return Err(BitSwarpError::AlreadyInitialized);
    }
    ctx.config = Some(Config { owner: ctx.owner, ai_executor });
    Ok(())
}

} // verus!
