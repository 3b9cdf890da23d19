use vstd::prelude::*;
use crate::identity::Identity;

verus! {

/// The singleton record that names who set the ledger up and who may swap.
#[derive(Clone, Copy, Debug, PartialEq, Eq)]
pub struct Config {
    /// The administrator who created the record.
    pub owner: Identity,
    /// The one identity that may move value between a user's two balances.
    pub ai_executor: Identity,
}

/// The two balances that the ledger keeps for one user.
#[derive(Clone, Copy, Debug, PartialEq, Eq, Structural)]
pub struct UserState {
    /// Native currency credited to the user, in its smallest unit.
    pub sol_balance: u64,
    /// The secondary asset: a figure in the books with no custody behind it.
    pub token_balance: u64,
}

impl UserState {
    /// The record of a user who has deposited nothing yet.
    pub open spec fn empty() -> UserState {
        UserState { sol_balance: 0, token_balance: 0 }
    }

    /// A record with both balances at zero.
    pub fn new() -> (state: UserState)
        ensures
            state == UserState::empty(),
    {
        UserState { sol_balance: 0, token_balance: 0 }
    }
}

/// Why an instruction was turned down.
#[derive(Clone, Copy, Debug, PartialEq, Eq, Structural)]
pub enum BitSwarpError {
    /// The signer of a swap is not the configured executor.
    Unauthorized,
    /// The balance that an instruction draws on is smaller than the amount.
    InsufficientBalance,
    /// The account that funds a transfer holds less than the amount.
    InsufficientFunds,
    /// A balance or a holding would pass the largest value it can record.
    Overflow,
    /// The configuration record exists already.
    AlreadyInitialized,
}

impl BitSwarpError {
    /// The words in which the error is reported.
    pub open spec fn message_spec(self) -> Seq<char> {
        match self {
            BitSwarpError::Unauthorized => "Unauthorized: Not the AI Executor"@,
            BitSwarpError::InsufficientBalance => "Insufficient Balance"@,
            BitSwarpError::InsufficientFunds => "Insufficient Funds"@,
            BitSwarpError::Overflow => "Balance Overflow"@,
            BitSwarpError::AlreadyInitialized => "Already Initialized"@,
        }
    }

    /// The words in which the error is reported.
    pub fn message(&self) -> (message: &'static str)
        ensures
            message@ == self.message_spec(),
    {
        match self {
            BitSwarpError::Unauthorized => "Unauthorized: Not the AI Executor",
            BitSwarpError::InsufficientBalance => "Insufficient Balance",
            BitSwarpError::InsufficientFunds => "Insufficient Funds",
            BitSwarpError::Overflow => "Balance Overflow",
            BitSwarpError::AlreadyInitialized => "Already Initialized",
        }
    }
}

} // verus!
