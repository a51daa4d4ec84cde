//! The instructions.
//!
//! An instruction that moves tokens comes in two parts. The first decides, and
//! returns the transfer to be made together with what the second part needs. When the
//! transfer has been made, `finish` gives the books that the vault is to have. Where
//! the first part refuses, or the transfer fails, or `finish` refuses, the whole
//! instruction fails, and the ledger keeps neither the transfer nor the books.

use crate::accounts::{CloseVault, Deposit, InitializeVault, Interest, Withdraw};
use crate::cpi::{CloseAccount, CpiContext, CpiContextView, Transfer};
use crate::error::ErrorCode;
use crate::pda::authority_signer_seeds;
use crate::pubkey::Pubkey;
use crate::state::{Bumps, Vault, INTEREST_COOLDOWN_SECONDS};
use vstd::prelude::*;

verus! {

/// A vault about to be opened, for which the first deposit is still to be moved.
#[derive(Debug, PartialEq, Eq)]
pub struct PendingVault {
    pub transfer: CpiContext<Transfer>,
    pub amount: u64,
    pub owner: Pubkey,
    pub mint: Pubkey,
    pub bumps: Bumps,
}

/// A deposit whose tokens are still to be moved.
#[derive(Debug, PartialEq, Eq)]
pub struct PendingDeposit {
    pub transfer: CpiContext<Transfer>,
    pub amount: u64,
    pub vault: Vault,
}

/// A withdrawal whose tokens are still to be moved.
#[derive(Debug, PartialEq, Eq)]
pub struct PendingWithdrawal {
    pub transfer: CpiContext<Transfer>,
    pub amount: u64,
    pub vault: Vault,
}

/// A payment of interest whose tokens are still to be moved.
#[derive(Debug, PartialEq, Eq)]
pub struct PendingInterest {
    pub transfer: CpiContext<Transfer>,
    pub amount: u64,
    pub vault: Vault,
    pub unix_timestamp: i64,
}

/// A vault about to be closed. The call closes its token account; the account with its
/// books is then to be closed too, and what it held for its rent goes to the
/// destination.
#[derive(Debug, PartialEq, Eq)]
pub struct PendingClose {
    pub call: CpiContext<CloseAccount>,
    pub vault: Pubkey,
    pub destination: Pubkey,
}

/// The books with which a vault is opened.
pub open spec fn opened_vault(
    owner: Pubkey,
    mint: Pubkey,
    bumps: Bumps,
    amount: u64,
    unix_timestamp: i64,
) -> Vault {
    Vault {
        deposited_amount: amount,
        withdrawn_amount: 0,
        interest_earned: None,
        initialized: true,
        owner,
        mint,
        bumps,
        last_interest_timestamp: unix_timestamp,
    }
}

/// A transfer that the token program is asked for, with the derived addresses that
/// sign it.
pub open spec fn transfer_call(
    token_program: Pubkey,
    from: Pubkey,
    to: Pubkey,
    authority: Pubkey,
    signer_seeds: Seq<Seq<Seq<u8>>>,
) -> CpiContextView<Transfer> {
    CpiContextView {
        program: token_program,
        accounts: Transfer { from, to, authority },
        signer_seeds,
    }
}

/// The seeds with which a vault's authority signs.
pub open spec fn signer_seeds_of(vault: Pubkey, bumps: Bumps) -> Seq<Seq<Seq<u8>>> {
    seq![
        crate::pda::with_bump(crate::pda::authority_seeds(vault@), bumps.vault_authority),
    ]
}

/// Why a deposit is refused before any tokens move.
pub open spec fn deposit_refusal(amount: u64) -> Option<ErrorCode> {
    if amount == 0 {
        Some(ErrorCode::InvalidDepositAmount)
    } else {
        None
    }
}

/// Why a withdrawal is refused before any tokens move, when the vault's token account
/// holds a balance.
pub open spec fn withdrawal_refusal(amount: u64, balance: int) -> Option<ErrorCode> {
    if amount == 0 || amount > balance {
        Some(ErrorCode::InvalidWithdrawAmount)
    } else {
        None
    }
}

/// Opens a vault with a first deposit, which must not be empty. The deposit goes from
/// the owner's token account to the vault's.
pub fn initialize_vault(accounts: &InitializeVault, bumps: Bumps, deposit_amount: u64) -> (r: Result<
    PendingVault,
    ErrorCode,
>)
    ensures
        match deposit_refusal(deposit_amount) {
            Some(error) => r matches Err(e) && e == error,
            None => r is Ok,
        },
        r matches Ok(pending) ==> {
            &&& pending.transfer@ == transfer_call(
                accounts.token_program,
                accounts.owner_token_account.key,
                accounts.vault_token_account.key,
                accounts.owner.key,
                Seq::empty(),
            )
            &&& pending.amount == deposit_amount
            &&& pending.owner == accounts.owner.key
            &&& pending.mint == accounts.mint.key
            &&& pending.bumps == bumps
        },
{
    if deposit_amount == 0 {
        return Err(ErrorCode::InvalidDepositAmount);
    }
    let transfer = accounts.token_program_context(
        Transfer {
            from: accounts.owner_token_account.key,
            to: accounts.vault_token_account.key,
            authority: accounts.owner.key,
        },
    );
    Ok(
        PendingVault {
            transfer,
            amount: deposit_amount,
            owner: accounts.owner.key,
            mint: accounts.mint.key,
            bumps,
        },
    )
}

impl PendingVault {
    /// The books of the vault, opened at a time.
    pub fn finish(self, unix_timestamp: i64) -> (vault: Vault)
        ensures
            vault == opened_vault(self.owner, self.mint, self.bumps, self.amount, unix_timestamp),
    {
        Vault {
            deposited_amount: self.amount,
            withdrawn_amount: 0,
            interest_earned: None,
            initialized: true,
            owner: self.owner,
            mint: self.mint,
            bumps: self.bumps,
            last_interest_timestamp: unix_timestamp,
        }
    }
}

/// Deposits an amount, which must not be zero, from the owner's token account.
pub fn deposit(accounts: &Deposit, deposit_amount: u64) -> (r: Result<PendingDeposit, ErrorCode>)
    ensures
        match deposit_refusal(deposit_amount) {
            Some(error) => r matches Err(e) && e == error,
            None => r is Ok,
        },
        r matches Ok(pending) ==> {
            &&& pending.transfer@ == transfer_call(
                accounts.token_program,
                accounts.owner_token_account.key,
                accounts.vault_token_account.key,
                accounts.owner.key,
                Seq::empty(),
            )
            &&& pending.amount == deposit_amount
            &&& pending.vault == accounts.vault.data
        },
{
    if deposit_amount == 0 {
        return Err(ErrorCode::InvalidDepositAmount);
    }
    let transfer = accounts.token_program_context(
        Transfer {
            from: accounts.owner_token_account.key,
            to: accounts.vault_token_account.key,
            authority: accounts.owner.key,
        },
    );
    Ok(PendingDeposit { transfer, amount: deposit_amount, vault: accounts.vault.data })
}

impl PendingDeposit {
    /// The books when the tokens have been moved.
    pub fn finish(self) -> (r: Result<Vault, ErrorCode>)
        ensures
            r == self.vault.after_deposit(self.amount),
    {
        let mut vault = self.vault;
        match vault.deposited_amount.checked_add(self.amount) {
            Some(updated_deposit_amount) => {
                vault.deposited_amount = updated_deposit_amount;
                Ok(vault)
            },
            None => Err(ErrorCode::InvalidDepositAmount),
        }
    }
}

/// Withdraws an amount, which must not be zero nor more than the vault's token account
/// holds, to the owner's token account.
pub fn withdraw(accounts: &Withdraw, withdraw_amount: u64) -> (r: Result<
    PendingWithdrawal,
    ErrorCode,
>)
    ensures
        match withdrawal_refusal(withdraw_amount, accounts.vault_token_account.amount as int) {
            Some(error) => r matches Err(e) && e == error,
            None => r is Ok,
        },
        r matches Ok(pending) ==> {
            &&& pending.transfer@ == transfer_call(
                accounts.token_program,
                accounts.vault_token_account.key,
                accounts.owner_token_account.key,
                accounts.vault_authority.key,
                signer_seeds_of(accounts.vault.key, accounts.vault.data.bumps),
            )
            &&& pending.amount == withdraw_amount
            &&& pending.vault == accounts.vault.data
        },
{
    if accounts.vault_token_account.amount < withdraw_amount || withdraw_amount == 0 {
        return Err(ErrorCode::InvalidWithdrawAmount);
    }
    let release_to_owner = Transfer {
        from: accounts.vault_token_account.key,
        to: accounts.owner_token_account.key,
        authority: accounts.vault_authority.key,
    };
    let transfer = accounts.token_program_context(release_to_owner).with_signer(
        authority_signer_seeds(&accounts.vault.key, accounts.vault.data.bumps.vault_authority),
    );
    Ok(PendingWithdrawal { transfer, amount: withdraw_amount, vault: accounts.vault.data })
}

impl PendingWithdrawal {
    /// The books when the tokens have been moved.
    pub fn finish(self) -> (r: Result<Vault, ErrorCode>)
        ensures
            r == self.vault.after_withdrawal(self.amount),
    {
        let mut vault = self.vault;
        match vault.withdrawn_amount.checked_add(self.amount) {
            Some(updated_withdrawn_amount) => {
                vault.withdrawn_amount = updated_withdrawn_amount;
                Ok(vault)
            },
            None => Err(ErrorCode::InvalidWithdrawAmount),
        }
    }
}

/// The interest that a sender owes an owner's vault at a time: a hundredth of the
/// principal, rounded down. None is taken before the cooldown is over, none where
/// there is no principal or too little of it, and none from the owner. A clock so far
/// behind the last payment, or so far ahead of it, that the difference does not fit
/// `i64` is refused too.
pub open spec fn interest_due(
    vault: Vault,
    sender: Pubkey,
    owner: Pubkey,
    unix_timestamp: i64,
) -> Result<u64, ErrorCode> {
    let elapsed = unix_timestamp - vault.last_interest_timestamp;
    if !(i64::MIN <= elapsed <= i64::MAX) {
        Err(ErrorCode::InvalidDepositAmount)
    } else if elapsed < INTEREST_COOLDOWN_SECONDS {
        Err(ErrorCode::InterestCooldownNotElapsed)
    } else {
        match vault.principal() {
            None => Err(ErrorCode::InvalidWithdrawAmount),
            Some(principal) => if principal < 100 {
                Err(ErrorCode::InsufficientInterestEarned)
            } else if sender == owner {
                Err(ErrorCode::InvalidInterestSender)
            } else {
                Ok((principal / 100) as u64)
            },
        }
    }
}

/// Pays interest into a vault, from the token account of a sender who is not the
/// vault's owner.
pub fn send_interest(accounts: &Interest, unix_timestamp: i64) -> (r: Result<
    PendingInterest,
    ErrorCode,
>)
    ensures
        match interest_due(
            accounts.vault.data,
            accounts.sender.key,
            accounts.owner.key,
            unix_timestamp,
        ) {
            Err(error) => r == Err::<PendingInterest, ErrorCode>(error),
            Ok(interest) => {
                &&& r matches Ok(pending)
                &&& pending.transfer@ == transfer_call(
                    accounts.token_program,
                    accounts.sender_token_account.key,
                    accounts.vault_token_account.key,
                    accounts.sender.key,
                    Seq::empty(),
                )
                &&& pending.amount == interest
                &&& pending.vault == accounts.vault.data
                &&& pending.unix_timestamp == unix_timestamp
            },
        },
{
    let vault_data = &accounts.vault.data;
    let elapsed: i64 = match unix_timestamp.checked_sub(vault_data.last_interest_timestamp) {
        Some(elapsed) => elapsed,
        None => return Err(ErrorCode::InvalidDepositAmount),
    };
    if elapsed < INTEREST_COOLDOWN_SECONDS {
        return Err(ErrorCode::InterestCooldownNotElapsed);
    }
    let principal: u64 = match vault_data.deposited_amount.checked_sub(
        vault_data.withdrawn_amount,
    ) {
        Some(principal) => principal,
        None => return Err(ErrorCode::InvalidWithdrawAmount),
    };
    let interest: u64 = principal / 100;
    if interest == 0 {
        return Err(ErrorCode::InsufficientInterestEarned);
    }
    if accounts.sender.key == accounts.owner.key {
        return Err(ErrorCode::InvalidInterestSender);
    }
    let transfer = accounts.token_program_context(
        Transfer {
            from: accounts.sender_token_account.key,
            to: accounts.vault_token_account.key,
            authority: accounts.sender.key,
        },
    );
    Ok(PendingInterest { transfer, amount: interest, vault: *vault_data, unix_timestamp })
}

impl PendingInterest {
    /// The books when the tokens have been moved.
    pub fn finish(self) -> (r: Result<Vault, ErrorCode>)
        ensures
            r == self.vault.after_interest(self.amount, self.unix_timestamp),
    {
        let mut vault = self.vault;
        match vault.interest_earned {
            Some(earned) => match earned.checked_add(self.amount) {
                Some(new_interest_amount) => {
                    vault.interest_earned = Some(new_interest_amount);
                },
                None => return Err(ErrorCode::InvalidDepositAmount),
            },
            None => {
                vault.interest_earned = Some(self.amount);
            },
        }
        vault.last_interest_timestamp = self.unix_timestamp;
        Ok(vault)
    }
}

/// Closes a vault that holds no tokens. What its token account and the account with its
/// books held for their rent goes to the owner.
pub fn close_vault(accounts: &CloseVault) -> (r: Result<PendingClose, ErrorCode>)
    ensures
        accounts.vault_token_account.amount != 0 <==> r is Err,
        r matches Err(error) ==> error == ErrorCode::VaultNotEmpty,
        r matches Ok(pending) ==> {
            &&& pending.call@ == (CpiContextView {
                program: accounts.token_program,
                accounts: CloseAccount {
                    account: accounts.vault_token_account.key,
                    destination: accounts.owner.key,
                    authority: accounts.vault_authority.key,
                },
                signer_seeds: signer_seeds_of(accounts.vault.key, accounts.vault.data.bumps),
            })
            &&& pending.vault == accounts.vault.key
            &&& pending.destination == accounts.owner.key
        },
{
    if accounts.vault_token_account.amount != 0 {
        return Err(ErrorCode::VaultNotEmpty);
    }
    let call = CpiContext::new(
        accounts.token_program,
        CloseAccount {
            account: accounts.vault_token_account.key,
            destination: accounts.owner.key,
            authority: accounts.vault_authority.key,
        },
    ).with_signer(
        authority_signer_seeds(&accounts.vault.key, accounts.vault.data.bumps.vault_authority),
    );
    Ok(PendingClose { call, vault: accounts.vault.key, destination: accounts.owner.key })
}

} // verus!
