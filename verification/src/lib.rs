//! A custodial ledger: users deposit native currency into a shared vault,
//! the ledger keeps two balances for each of them, and one trusted executor
//! may move value between the two on a user's behalf.
//!
//! The instructions work on the accounts that they are given and return what
//! is to be handed to the host, which holds the accounts and moves the funds.

pub mod accounts;
pub mod address;
pub mod identity;
pub mod instructions;
pub mod invocation;
pub mod laws;
pub mod state;

pub use crate::accounts::{DepositSol, ExecuteSwap, Initialize, Wallet, WithdrawSol};
pub use crate::address::Derivation;
pub use crate::identity::Identity;
pub use crate::instructions::{deposit_sol, execute_swap, initialize, withdraw_sol};
pub use crate::invocation::{AccountMeta, Instruction, Invocation};
pub use crate::state::{BitSwarpError, Config, UserState};
