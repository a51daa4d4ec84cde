//! The ways in which an instruction is refused.

use vstd::prelude::*;

verus! {

/// The number of the first error of the program's own; the ones below belong to
/// the framework that loads the accounts.
pub const ERROR_CODE_OFFSET: u32 = 6000;

/// Why an instruction refuses what it was asked for.
#[derive(Clone, Copy, Debug, PartialEq, Eq, Structural)]
pub enum ErrorCode {
    InvalidDepositAmount,
    InvalidWithdrawAmount,
    InsufficientInterestEarned,
    InvalidInterestSender,
    InterestCooldownNotElapsed,
    VaultNotEmpty,
}

impl ErrorCode {
    /// The place of the error among the program's errors, counted from zero.
    pub open spec fn index(self) -> int {
        match self {
            ErrorCode::InvalidDepositAmount => 0,
            ErrorCode::InvalidWithdrawAmount => 1,
            ErrorCode::InsufficientInterestEarned => 2,
            ErrorCode::InvalidInterestSender => 3,
            ErrorCode::InterestCooldownNotElapsed => 4,
            ErrorCode::VaultNotEmpty => 5,
        }
    }

    /// What the error says to a reader.
    pub open spec fn text(self) -> Seq<char> {
        match self {
            ErrorCode::InvalidDepositAmount => "Deposit amount must be greater than 0"@,
            ErrorCode::InvalidWithdrawAmount =>
                "Withdraw amount must be an amount available in the vault"@,
            ErrorCode::InsufficientInterestEarned => "Interest should be greater than 0"@,
            ErrorCode::InvalidInterestSender => "You cannot send interest to your own vault"@,
            ErrorCode::InterestCooldownNotElapsed =>
                "Interest cooldown period has not elapsed (24h minimum)"@,
            ErrorCode::VaultNotEmpty => "Vault token account must be empty before closing"@,
        }
    }

    /// The number under which a client sees the error.
    pub fn code(&self) -> (code: u32)
        ensures
            code == ERROR_CODE_OFFSET + self.index(),
    {
        let index: u32 = match self {
            ErrorCode::InvalidDepositAmount => 0,
            ErrorCode::InvalidWithdrawAmount => 1,
            ErrorCode::InsufficientInterestEarned => 2,
            ErrorCode::InvalidInterestSender => 3,
            ErrorCode::InterestCooldownNotElapsed => 4,
            ErrorCode::VaultNotEmpty => 5,
        };
        ERROR_CODE_OFFSET + index
    }

    /// The error's message.
    pub fn message(&self) -> (message: &'static str)
        ensures
            message@ == self.text(),
    {
        match self {
            ErrorCode::InvalidDepositAmount => "Deposit amount must be greater than 0",
            ErrorCode::InvalidWithdrawAmount =>
                "Withdraw amount must be an amount available in the vault",
            ErrorCode::InsufficientInterestEarned => "Interest should be greater than 0",
            ErrorCode::InvalidInterestSender => "You cannot send interest to your own vault",
            ErrorCode::InterestCooldownNotElapsed =>
                "Interest cooldown period has not elapsed (24h minimum)",
            ErrorCode::VaultNotEmpty => "Vault token account must be empty before closing",
        }
    }
}

/// The accounts that a rule can name when it is broken.
#[derive(Clone, Copy, Debug, PartialEq, Eq, Structural)]
pub enum AccountName {
    Owner,
    OwnerTokenAccount,
    SenderTokenAccount,
    Mint,
    Vault,
    VaultAuthority,
    VaultTokenAccount,
}

/// Why the accounts that an instruction was given are refused.
#[derive(Clone, Copy, Debug, PartialEq, Eq, Structural)]
pub enum AccountsError {
    /// An account that the instruction changes was not given as writable.
    Mut(AccountName),
    /// A condition on what the account holds is not met.
    Raw(AccountName),
    /// The account is not the one at the address asked for.
    Address(AccountName),
    /// The account's address does not derive from its seeds.
    Seeds(AccountName),
    /// The account would be closed into itself.
    Close(AccountName),
    /// A token account has another authority than the one asked for.
    TokenOwner,
    /// A token account holds tokens of another mint than the one asked for.
    TokenMint,
}

} // verus!
