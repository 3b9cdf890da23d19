use vstd::prelude::*;
use crate::identity::Identity;
use crate::state::{Config, UserState};

verus! {

/// An account that holds native currency: its address and what it holds.
#[derive(Clone, Copy, Debug, PartialEq, Eq)]
pub struct Wallet {
    pub key: Identity,
    /// The holding, in the smallest unit of the native currency.
    pub lamports: u64,
}

/// The accounts of `initialize`.
#[derive(Clone, Copy, Debug, PartialEq, Eq)]
pub struct Initialize {
    /// The configuration record: `None` until it is created.
    pub config: Option<Config>,
    /// The administrator, who signs.
    pub owner: Identity,
}

/// The accounts of `deposit_sol`.
#[derive(Clone, Copy, Debug, PartialEq, Eq)]
pub struct DepositSol {
    /// The depositor, who signs, and the funds held outside the ledger.
    pub user: Wallet,
    /// The depositor's ledger record: `None` before the first deposit.
    pub user_state: Option<UserState>,
    /// The vault and the pooled funds in it.
    pub vault: Wallet,
}

/// The accounts of `execute_swap`.
#[derive(Clone, Copy, Debug, PartialEq, Eq)]
pub struct ExecuteSwap {
    /// Who signs the swap.
    pub executor: Identity,
    pub config: Config,
    /// The ledger record that the swap rewrites; the signer does not choose
    /// it, the caller does by supplying it.
    pub user_state: UserState,
}

/// The accounts of `withdraw_sol`.
#[derive(Clone, Copy, Debug, PartialEq, Eq)]
pub struct WithdrawSol {
    /// The user who withdraws, who signs, and the funds held outside the ledger.
    pub user: Wallet,
    pub user_state: UserState,
    /// The vault and the pooled funds in it.
    pub vault: Wallet,
    /// The bump seed of the vault's address.
    pub vault_bump: u8,
}

impl DepositSol {
    /// The balances on record for the depositor: zero where there is no
    /// record yet.
    pub open spec fn recorded(self) -> UserState {
        match self.user_state {
            Some(state) => state,
            None => UserState::empty(),
        }
    }
}

} // verus!
