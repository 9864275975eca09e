//! Why an operation was refused.

use vstd::prelude::*;

verus! {

/// Every failure aborts the whole operation and leaves all state as it was.
#[derive(Clone, Copy, Debug, PartialEq, Eq, Structural)]
pub enum ErrorCode {
    /// A debit of principal exceeds the principal that is there.
    InsufficientStaked,
    /// The amount is zero.
    InvalidAmount,
    /// A credit would pass the largest representable total.
    Overflow,
    /// The caller is not the operator.
    UnauthorizedAuthority,
    /// A withdrawal exceeds the usable balance.
    InsufficientBalance,
    /// The stake record does not belong to the named user.
    InvalidUser,
    /// A debit of the global total exceeds it.
    ArithmeticUnderflow,
    /// The global ledger exists already.
    AlreadyInitialized,
    /// The vault authority is not the one derived for the asset.
    InvalidVaultAuthority,
    /// The transfer service refused to move the tokens.
    TransferFailed,
}

impl ErrorCode {
    /// The text that describes the error to a person.
    pub open spec fn spec_message(self) -> Seq<char> {
        match self {
            ErrorCode::InsufficientStaked => "Not enough tokens staked to unstake that amount."@,
            ErrorCode::InvalidAmount => "Invalid amount."@,
            ErrorCode::Overflow => "Overflow error."@,
            ErrorCode::UnauthorizedAuthority => "Unauthorized authority."@,
            ErrorCode::InsufficientBalance => "Insufficient balance."@,
            ErrorCode::InvalidUser => "Invalid user."@,
            ErrorCode::ArithmeticUnderflow => "Underflow error."@,
            ErrorCode::AlreadyInitialized => "Already initialized."@,
            ErrorCode::InvalidVaultAuthority => "Invalid vault authority."@,
            ErrorCode::TransferFailed => "Transfer failed."@,
        }
    }

    pub fn message(&self) -> (res: &'static str)
        ensures
            res@ == self.spec_message(),
    {
        match self {
            ErrorCode::InsufficientStaked => "Not enough tokens staked to unstake that amount.",
            ErrorCode::InvalidAmount => "Invalid amount.",
            ErrorCode::Overflow => "Overflow error.",
            ErrorCode::UnauthorizedAuthority => "Unauthorized authority.",
            ErrorCode::InsufficientBalance => "Insufficient balance.",
            ErrorCode::InvalidUser => "Invalid user.",
            ErrorCode::ArithmeticUnderflow => "Underflow error.",
            ErrorCode::AlreadyInitialized => "Already initialized.",
            ErrorCode::InvalidVaultAuthority => "Invalid vault authority.",
            ErrorCode::TransferFailed => "Transfer failed.",
        }
    }
}

} // verus!
