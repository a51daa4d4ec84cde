//! What a vault keeps of itself.

use crate::error::ErrorCode;
use crate::pubkey::Pubkey;
use vstd::prelude::*;

verus! {

/// The least number of seconds from one payment of interest to the next.
pub const INTEREST_COOLDOWN_SECONDS: i64 = 86400;

/// The bumps with which the addresses of a vault's accounts were derived.
#[derive(Clone, Copy, Debug, PartialEq, Eq, Structural)]
pub struct Bumps {
    pub vault: u8,
    pub vault_authority: u8,
    pub vault_token_account: u8,
}

/// The books of a vault.
#[derive(Clone, Copy, Debug, PartialEq, Eq)]
pub struct Vault {
    /// All that was ever deposited.
    pub deposited_amount: u64,
    /// All that was ever withdrawn, interest included.
    pub withdrawn_amount: u64,
    /// All the interest that was ever paid in, or `None` before the first payment.
    pub interest_earned: Option<u64>,
    pub initialized: bool,
    pub owner: Pubkey,
    pub mint: Pubkey,
    pub bumps: Bumps,
    /// When interest was last paid, or when the vault was opened, in seconds of
    /// Unix time.
    pub last_interest_timestamp: i64,
}

impl Vault {
    /// What was deposited and not withdrawn, on which interest is paid. There is
    /// none when withdrawals, which may draw on interest too, have gone beyond the
    /// deposits.
    pub open spec fn principal(self) -> Option<u64> {
        if self.withdrawn_amount <= self.deposited_amount {
            Some((self.deposited_amount - self.withdrawn_amount) as u64)
        } else {
            None
        }
    }

    /// The interest paid in so far.
    pub open spec fn interest(self) -> int {
        match self.interest_earned {
            Some(interest) => interest as int,
            None => 0,
        }
    }

    /// The books when an amount has been deposited. They are kept only as long as
    /// the total fits.
    pub open spec fn after_deposit(self, amount: u64) -> Result<Vault, ErrorCode> {
        if self.deposited_amount + amount <= u64::MAX {
            Ok(Vault { deposited_amount: (self.deposited_amount + amount) as u64, ..self })
        } else {
            Err(ErrorCode::InvalidDepositAmount)
        }
    }

    /// The books when an amount has been withdrawn.
    pub open spec fn after_withdrawal(self, amount: u64) -> Result<Vault, ErrorCode> {
        if self.withdrawn_amount + amount <= u64::MAX {
            Ok(Vault { withdrawn_amount: (self.withdrawn_amount + amount) as u64, ..self })
        } else {
            Err(ErrorCode::InvalidWithdrawAmount)
        }
    }

    /// The books when interest has been paid in at a time.
    pub open spec fn after_interest(self, amount: u64, unix_timestamp: i64) -> Result<
        Vault,
        ErrorCode,
    > {
        if self.interest() + amount <= u64::MAX {
            Ok(
                Vault {
                    interest_earned: Some((self.interest() + amount) as u64),
                    last_interest_timestamp: unix_timestamp,
                    ..self
                },
            )
        } else {
            Err(ErrorCode::InvalidDepositAmount)
        }
    }
}

} // verus!
