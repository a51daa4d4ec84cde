//! The accounts that each instruction takes, and the rules that they are held to.
//!
//! The values stand for accounts that the framework has loaded: it has seen to it
//! that a [`Signer`] signed, that token accounts and mints belong to the token
//! program and vaults to this one, and that each holds what its type says. The rules
//! here tie the loaded accounts to each other. They are checked in a fixed order, and
//! the first one that is broken is the one that is reported.

use crate::cpi::{CpiContext, CpiContextView};
use crate::error::{AccountName, AccountsError};
use crate::pda::{
    authority_address, find_authority_address, find_token_account_address, find_vault_address,
    token_account_address, vault_address, FoundAddress,
};
use crate::pubkey::Pubkey;
use crate::state::{Bumps, Vault};
use vstd::prelude::*;

verus! {

/// An account that signed the transaction.
#[derive(Clone, Copy, Debug, PartialEq, Eq)]
pub struct Signer {
    pub key: Pubkey,
    pub is_writable: bool,
}

/// An account of the system program; of these only the address matters.
#[derive(Clone, Copy, Debug, PartialEq, Eq)]
pub struct SystemAccount {
    pub key: Pubkey,
}

/// A mint.
#[derive(Clone, Copy, Debug, PartialEq, Eq)]
pub struct Mint {
    pub key: Pubkey,
    pub is_initialized: bool,
}

/// An account that holds tokens: of a mint, under an authority, an amount.
#[derive(Clone, Copy, Debug, PartialEq, Eq)]
pub struct TokenAccount {
    pub key: Pubkey,
    pub is_writable: bool,
    pub mint: Pubkey,
    pub owner: Pubkey,
    pub amount: u64,
}

/// An account that holds the books of a vault.
#[derive(Clone, Copy, Debug, PartialEq, Eq)]
pub struct VaultAccount {
    pub key: Pubkey,
    pub is_writable: bool,
    pub data: Vault,
}

/// An account that was just created and into which nothing was written yet.
#[derive(Clone, Copy, Debug, PartialEq, Eq)]
pub struct NewAccount {
    pub key: Pubkey,
    pub is_writable: bool,
}

/// The accounts with which a vault is opened. The vault and its token account are
/// given as they stand right after their creation.
#[derive(Clone, Copy, Debug, PartialEq, Eq)]
pub struct InitializeVault {
    pub owner: Signer,
    pub mint: Mint,
    pub owner_token_account: TokenAccount,
    pub vault: NewAccount,
    pub vault_authority: SystemAccount,
    pub vault_token_account: TokenAccount,
    pub token_program: Pubkey,
}

/// The accounts of a deposit.
#[derive(Clone, Copy, Debug, PartialEq, Eq)]
pub struct Deposit {
    pub owner: Signer,
    pub owner_token_account: TokenAccount,
    pub mint: Mint,
    pub vault: VaultAccount,
    pub vault_authority: SystemAccount,
    pub vault_token_account: TokenAccount,
    pub token_program: Pubkey,
}

/// The accounts of a withdrawal.
#[derive(Clone, Copy, Debug, PartialEq, Eq)]
pub struct Withdraw {
    pub owner: Signer,
    pub owner_token_account: TokenAccount,
    pub mint: Mint,
    pub vault: VaultAccount,
    pub vault_authority: SystemAccount,
    pub vault_token_account: TokenAccount,
    pub token_program: Pubkey,
}

/// The accounts of a payment of interest.
#[derive(Clone, Copy, Debug, PartialEq, Eq)]
pub struct Interest {
    pub sender: Signer,
    pub sender_token_account: TokenAccount,
    pub owner: SystemAccount,
    pub owner_token_account: TokenAccount,
    pub mint: Mint,
    pub vault: VaultAccount,
    pub vault_authority: SystemAccount,
    pub vault_token_account: TokenAccount,
    pub token_program: Pubkey,
}

/// The accounts with which a vault is closed.
#[derive(Clone, Copy, Debug, PartialEq, Eq)]
pub struct CloseVault {
    pub owner: Signer,
    pub vault: VaultAccount,
    pub vault_authority: SystemAccount,
    pub vault_token_account: TokenAccount,
    pub token_program: Pubkey,
}

/// The addresses that the seeds of a vault's accounts derive with the bumps in its
/// books; `None` where they derive none.
#[derive(Clone, Copy, Debug, PartialEq, Eq)]
pub struct StoredAddresses {
    pub vault: Option<Pubkey>,
    pub vault_authority: Option<Pubkey>,
    pub vault_token_account: Option<Pubkey>,
}

/// The same addresses as bytes.
pub struct AddressBytes {
    pub vault: Option<Seq<u8>>,
    pub vault_authority: Option<Seq<u8>>,
    pub vault_token_account: Option<Seq<u8>>,
}

impl View for StoredAddresses {
    type V = AddressBytes;

    open spec fn view(&self) -> AddressBytes {
        AddressBytes {
            vault: crate::pda::address_bytes(self.vault),
            vault_authority: crate::pda::address_bytes(self.vault_authority),
            vault_token_account: crate::pda::address_bytes(self.vault_token_account),
        }
    }
}

/// The addresses found for the accounts of a vault that is opened.
#[derive(Clone, Copy, Debug, PartialEq, Eq)]
pub struct FoundAddresses {
    pub vault: FoundAddress,
    pub vault_authority: FoundAddress,
    pub vault_token_account: FoundAddress,
}

/// The addresses that the accounts of an owner's vault for a mint derive with the
/// bumps in its books. The account with the books is looked up from its owner and
/// its mint, the other two from its own address.
pub open spec fn stored_addresses(
    owner: Pubkey,
    mint: Pubkey,
    vault: VaultAccount,
    program_id: Seq<u8>,
) -> AddressBytes {
    let bumps = vault.data.bumps;
    AddressBytes {
        vault: crate::pda::program_address(
            crate::pda::with_bump(crate::pda::vault_seeds(owner@, mint@), bumps.vault),
            program_id,
        ),
        vault_authority: crate::pda::program_address(
            crate::pda::with_bump(
                crate::pda::authority_seeds(vault.key@),
                bumps.vault_authority,
            ),
            program_id,
        ),
        vault_token_account: crate::pda::program_address(
            crate::pda::with_bump(
                crate::pda::token_account_seeds(vault.key@),
                bumps.vault_token_account,
            ),
            program_id,
        ),
    }
}

fn derive_stored_addresses(
    owner: &Pubkey,
    mint: &Pubkey,
    vault: &VaultAccount,
    program_id: &Pubkey,
) -> (addresses: StoredAddresses)
    ensures
        addresses@ == stored_addresses(*owner, *mint, *vault, program_id@),
{
    let bumps = vault.data.bumps;
    StoredAddresses {
        vault: vault_address(owner, mint, bumps.vault, program_id),
        vault_authority: authority_address(&vault.key, bumps.vault_authority, program_id),
        vault_token_account: token_account_address(
            &vault.key,
            bumps.vault_token_account,
            program_id,
        ),
    }
}

/// What is reported of a rule: nothing where it holds.
pub open spec fn rule(holds: bool, error: AccountsError) -> Option<AccountsError> {
    if holds {
        None
    } else {
        Some(error)
    }
}

/// What is reported of two groups of rules that are checked one after the other.
pub open spec fn first_of(
    earlier: Option<AccountsError>,
    later: Option<AccountsError>,
) -> Option<AccountsError> {
    match earlier {
        Some(error) => Some(error),
        None => later,
    }
}

/// The outcome of a check that finds what is given.
pub open spec fn outcome(violation: Option<AccountsError>) -> Result<(), AccountsError> {
    match violation {
        Some(error) => Err(error),
        None => Ok(()),
    }
}

/// The rules of a token account: it is under an authority and holds tokens of a mint.
pub open spec fn token_violation(
    account: TokenAccount,
    authority: Pubkey,
    mint: Pubkey,
) -> Option<AccountsError> {
    first_of(
        rule(account.owner == authority, AccountsError::TokenOwner),
        rule(account.mint == mint, AccountsError::TokenMint),
    )
}

fn check_token(account: &TokenAccount, authority: &Pubkey, mint: &Pubkey) -> (r: Result<
    (),
    AccountsError,
>)
    ensures
        r == outcome(token_violation(*account, *authority, *mint)),
{
    if account.owner != *authority {
        return Err(AccountsError::TokenOwner);
    }
    if account.mint != *mint {
        return Err(AccountsError::TokenMint);
    }
    Ok(())
}

/// The rules of a token account that is paid from or into.
pub open spec fn writable_token_violation(
    account: TokenAccount,
    name: AccountName,
    authority: Pubkey,
    mint: Pubkey,
) -> Option<AccountsError> {
    first_of(
        rule(account.is_writable, AccountsError::Mut(name)),
        token_violation(account, authority, mint),
    )
}

fn check_writable_token(
    account: &TokenAccount,
    name: AccountName,
    authority: &Pubkey,
    mint: &Pubkey,
) -> (r: Result<(), AccountsError>)
    ensures
        r == outcome(writable_token_violation(*account, name, *authority, *mint)),
{
    if !account.is_writable {
        return Err(AccountsError::Mut(name));
    }
    check_token(account, authority, mint)
}

/// The rules of the account with the books: it is where its seeds put it, it is
/// writable, and the vault was opened.
pub open spec fn books_violation(vault: VaultAccount, address: Option<Seq<u8>>) -> Option<
    AccountsError,
> {
    first_of(
        rule(address == Some(vault.key@), AccountsError::Seeds(AccountName::Vault)),
        first_of(
            rule(vault.is_writable, AccountsError::Mut(AccountName::Vault)),
            rule(vault.data.initialized, AccountsError::Raw(AccountName::Vault)),
        ),
    )
}

/// The rules of the authority and of the account with the tokens: both are where
/// their seeds put them, and the tokens are of the vault's mint and under that
/// authority.
pub open spec fn holdings_violation(
    vault: VaultAccount,
    vault_authority: SystemAccount,
    vault_token_account: TokenAccount,
    addresses: AddressBytes,
) -> Option<AccountsError> {
    first_of(
        rule(
            addresses.vault_authority == Some(vault_authority.key@),
            AccountsError::Seeds(AccountName::VaultAuthority),
        ),
        first_of(
            rule(
                addresses.vault_token_account == Some(vault_token_account.key@),
                AccountsError::Seeds(AccountName::VaultTokenAccount),
            ),
            writable_token_violation(
                vault_token_account,
                AccountName::VaultTokenAccount,
                vault_authority.key,
                vault.data.mint,
            ),
        ),
    )
}

/// Whether an account is at a derived address.
fn is_at(key: &Pubkey, address: &Option<Pubkey>) -> (r: bool)
    ensures
        r == (crate::pda::address_bytes(*address) == Some(key@)),
{
    match address {
        Some(derived) => {
            proof {
                if derived@ == key@ {
                    crate::pubkey::lemma_pubkey_is_its_bytes(*derived, *key);
                }
            }
            *key == *derived
        },
        None => false,
    }
}

fn check_books(vault: &VaultAccount, address: &Option<Pubkey>) -> (r: Result<(), AccountsError>)
    ensures
        r == outcome(books_violation(*vault, crate::pda::address_bytes(*address))),
{
    if !is_at(&vault.key, address) {
        return Err(AccountsError::Seeds(AccountName::Vault));
    }
    if !vault.is_writable {
        return Err(AccountsError::Mut(AccountName::Vault));
    }
    if !vault.data.initialized {
        return Err(AccountsError::Raw(AccountName::Vault));
    }
    Ok(())
}

fn check_holdings(
    vault: &VaultAccount,
    vault_authority: &SystemAccount,
    vault_token_account: &TokenAccount,
    addresses: &StoredAddresses,
) -> (r: Result<(), AccountsError>)
    ensures
        r == outcome(
            holdings_violation(*vault, *vault_authority, *vault_token_account, addresses@),
        ),
{
    if !is_at(&vault_authority.key, &addresses.vault_authority) {
        return Err(AccountsError::Seeds(AccountName::VaultAuthority));
    }
    if !is_at(&vault_token_account.key, &addresses.vault_token_account) {
        return Err(AccountsError::Seeds(AccountName::VaultTokenAccount));
    }
    check_writable_token(
        vault_token_account,
        AccountName::VaultTokenAccount,
        &vault_authority.key,
        &vault.data.mint,
    )
}

/// The rules that a deposit and a withdrawal share: the signer owns the vault, the
/// signer's token account is the signer's and for the vault's mint, and the vault's
/// accounts are its own.
pub open spec fn owner_violation(
    owner: Signer,
    owner_token_account: TokenAccount,
    mint: Mint,
    vault: VaultAccount,
    vault_authority: SystemAccount,
    vault_token_account: TokenAccount,
    addresses: AddressBytes,
) -> Option<AccountsError> {
    first_of(
        rule(owner.key == vault.data.owner, AccountsError::Address(AccountName::Owner)),
        first_of(
            writable_token_violation(
                owner_token_account,
                AccountName::OwnerTokenAccount,
                owner.key,
                vault.data.mint,
            ),
            first_of(
                rule(mint.is_initialized, AccountsError::Raw(AccountName::Mint)),
                first_of(
                    books_violation(vault, addresses.vault),
                    holdings_violation(vault, vault_authority, vault_token_account, addresses),
                ),
            ),
        ),
    )
}

fn check_owner(
    owner: &Signer,
    owner_token_account: &TokenAccount,
    mint: &Mint,
    vault: &VaultAccount,
    vault_authority: &SystemAccount,
    vault_token_account: &TokenAccount,
    addresses: &StoredAddresses,
) -> (r: Result<(), AccountsError>)
    ensures
        r == outcome(
            owner_violation(
                *owner,
                *owner_token_account,
                *mint,
                *vault,
                *vault_authority,
                *vault_token_account,
                addresses@,
            ),
        ),
{
    if owner.key != vault.data.owner {
        return Err(AccountsError::Address(AccountName::Owner));
    }
    match check_writable_token(
        owner_token_account,
        AccountName::OwnerTokenAccount,
        &owner.key,
        &vault.data.mint,
    ) {
        Err(error) => return Err(error),
        Ok(()) => {},
    }
    if !mint.is_initialized {
        return Err(AccountsError::Raw(AccountName::Mint));
    }
    match check_books(vault, &addresses.vault) {
        Err(error) => return Err(error),
        Ok(()) => {},
    }
    check_holdings(vault, vault_authority, vault_token_account, addresses)
}

/// Whether the accounts are those of a vault that its owner acts on.
pub open spec fn owner_rules_hold(
    owner: Signer,
    owner_token_account: TokenAccount,
    mint: Mint,
    vault: VaultAccount,
    vault_authority: SystemAccount,
    vault_token_account: TokenAccount,
    addresses: AddressBytes,
) -> bool {
    &&& owner.key == vault.data.owner
    &&& owner_token_account.is_writable
    &&& owner_token_account.owner == owner.key
    &&& owner_token_account.mint == vault.data.mint
    &&& mint.is_initialized
    &&& vault_rules_hold(vault, vault_authority, vault_token_account, addresses)
}

/// Whether the accounts are those of an open vault.
pub open spec fn vault_rules_hold(
    vault: VaultAccount,
    vault_authority: SystemAccount,
    vault_token_account: TokenAccount,
    addresses: AddressBytes,
) -> bool {
    &&& addresses.vault == Some(vault.key@)
    &&& vault.is_writable
    &&& vault.data.initialized
    &&& addresses.vault_authority == Some(vault_authority.key@)
    &&& addresses.vault_token_account == Some(vault_token_account.key@)
    &&& vault_token_account.is_writable
    &&& vault_token_account.owner == vault_authority.key
    &&& vault_token_account.mint == vault.data.mint
}

impl Deposit {
    /// The addresses that the vault's accounts must have.
    pub open spec fn addresses_spec(self, program_id: Seq<u8>) -> AddressBytes {
        stored_addresses(self.owner.key, self.mint.key, self.vault, program_id)
    }

    /// What is reported of the accounts.
    pub open spec fn violation(self, addresses: AddressBytes) -> Option<AccountsError> {
        owner_violation(
            self.owner,
            self.owner_token_account,
            self.mint,
            self.vault,
            self.vault_authority,
            self.vault_token_account,
            addresses,
        )
    }

    /// Whether the accounts keep all the rules.
    pub open spec fn valid(self, addresses: AddressBytes) -> bool {
        owner_rules_hold(
            self.owner,
            self.owner_token_account,
            self.mint,
            self.vault,
            self.vault_authority,
            self.vault_token_account,
            addresses,
        )
    }

    /// Derives the addresses that the vault's accounts must have.
    pub fn addresses(&self, program_id: &Pubkey) -> (addresses: StoredAddresses)
        ensures
            addresses@ == self.addresses_spec(program_id@),
    {
        derive_stored_addresses(&self.owner.key, &self.mint.key, &self.vault, program_id)
    }

    /// Holds the accounts to the rules, given the derived addresses.
    pub fn check(&self, addresses: &StoredAddresses) -> (r: Result<(), AccountsError>)
        ensures
            r == outcome(self.violation(addresses@)),
            r is Ok <==> self.valid(addresses@),
    {
        check_owner(
            &self.owner,
            &self.owner_token_account,
            &self.mint,
            &self.vault,
            &self.vault_authority,
            &self.vault_token_account,
            addresses,
        )
    }

    /// Holds the accounts to the rules.
    pub fn validate(&self, program_id: &Pubkey) -> (r: Result<(), AccountsError>)
        ensures
            r == outcome(self.violation(self.addresses_spec(program_id@))),
            r is Ok <==> self.valid(self.addresses_spec(program_id@)),
    {
        let addresses = self.addresses(program_id);
        self.check(&addresses)
    }

    /// A call into the token program on the given accounts.
    pub fn token_program_context<T>(&self, data: T) -> (context: CpiContext<T>)
        ensures
            context@ == (CpiContextView {
                program: self.token_program,
                accounts: data,
                signer_seeds: Seq::<Seq<Seq<u8>>>::empty(),
            }),
    {
        CpiContext::new(self.token_program, data)
    }
}

impl Withdraw {
    /// The addresses that the vault's accounts must have.
    pub open spec fn addresses_spec(self, program_id: Seq<u8>) -> AddressBytes {
        stored_addresses(self.owner.key, self.mint.key, self.vault, program_id)
    }

    /// What is reported of the accounts.
    pub open spec fn violation(self, addresses: AddressBytes) -> Option<AccountsError> {
        owner_violation(
            self.owner,
            self.owner_token_account,
            self.mint,
            self.vault,
            self.vault_authority,
            self.vault_token_account,
            addresses,
        )
    }

    /// Whether the accounts keep all the rules.
    pub open spec fn valid(self, addresses: AddressBytes) -> bool {
        owner_rules_hold(
            self.owner,
            self.owner_token_account,
            self.mint,
            self.vault,
            self.vault_authority,
            self.vault_token_account,
            addresses,
        )
    }

    /// Derives the addresses that the vault's accounts must have.
    pub fn addresses(&self, program_id: &Pubkey) -> (addresses: StoredAddresses)
        ensures
            addresses@ == self.addresses_spec(program_id@),
    {
        derive_stored_addresses(&self.owner.key, &self.mint.key, &self.vault, program_id)
    }

    /// Holds the accounts to the rules, given the derived addresses.
    pub fn check(&self, addresses: &StoredAddresses) -> (r: Result<(), AccountsError>)
        ensures
            r == outcome(self.violation(addresses@)),
            r is Ok <==> self.valid(addresses@),
    {
        check_owner(
            &self.owner,
            &self.owner_token_account,
            &self.mint,
            &self.vault,
            &self.vault_authority,
            &self.vault_token_account,
            addresses,
        )
    }

    /// Holds the accounts to the rules.
    pub fn validate(&self, program_id: &Pubkey) -> (r: Result<(), AccountsError>)
        ensures
            r == outcome(self.violation(self.addresses_spec(program_id@))),
            r is Ok <==> self.valid(self.addresses_spec(program_id@)),
    {
        let addresses = self.addresses(program_id);
        self.check(&addresses)
    }

    /// A call into the token program on the given accounts.
    pub fn token_program_context<T>(&self, data: T) -> (context: CpiContext<T>)
        ensures
            context@ == (CpiContextView {
                program: self.token_program,
                accounts: data,
                signer_seeds: Seq::<Seq<Seq<u8>>>::empty(),
            }),
    {
        CpiContext::new(self.token_program, data)
    }
}

impl Interest {
    /// The addresses that the vault's accounts must have.
    pub open spec fn addresses_spec(self, program_id: Seq<u8>) -> AddressBytes {
        stored_addresses(self.owner.key, self.mint.key, self.vault, program_id)
    }

    /// What is reported of the accounts.
    pub open spec fn violation(self, addresses: AddressBytes) -> Option<AccountsError> {
        first_of(
            writable_token_violation(
                self.sender_token_account,
                AccountName::SenderTokenAccount,
                self.sender.key,
                self.vault.data.mint,
            ),
            first_of(
                rule(
                    self.owner.key == self.vault.data.owner,
                    AccountsError::Address(AccountName::Owner),
                ),
                first_of(
                    writable_token_violation(
                        self.owner_token_account,
                        AccountName::OwnerTokenAccount,
                        self.owner.key,
                        self.vault.data.mint,
                    ),
                    first_of(
                        rule(self.mint.is_initialized, AccountsError::Raw(AccountName::Mint)),
                        first_of(
                            books_violation(self.vault, addresses.vault),
                            holdings_violation(
                                self.vault,
                                self.vault_authority,
                                self.vault_token_account,
                                addresses,
                            ),
                        ),
                    ),
                ),
            ),
        )
    }

    /// Whether the accounts keep all the rules.
    pub open spec fn valid(self, addresses: AddressBytes) -> bool {
        &&& self.sender_token_account.is_writable
        &&& self.sender_token_account.owner == self.sender.key
        &&& self.sender_token_account.mint == self.vault.data.mint
        &&& self.owner.key == self.vault.data.owner
        &&& self.owner_token_account.is_writable
        &&& self.owner_token_account.owner == self.owner.key
        &&& self.owner_token_account.mint == self.vault.data.mint
        &&& self.mint.is_initialized
        &&& vault_rules_hold(
            self.vault,
            self.vault_authority,
            self.vault_token_account,
            addresses,
        )
    }

    /// Derives the addresses that the vault's accounts must have.
    pub fn addresses(&self, program_id: &Pubkey) -> (addresses: StoredAddresses)
        ensures
            addresses@ == self.addresses_spec(program_id@),
    {
        derive_stored_addresses(&self.owner.key, &self.mint.key, &self.vault, program_id)
    }

    /// Holds the accounts to the rules, given the derived addresses.
    pub fn check(&self, addresses: &StoredAddresses) -> (r: Result<(), AccountsError>)
        ensures
            r == outcome(self.violation(addresses@)),
            r is Ok <==> self.valid(addresses@),
    {
        match check_writable_token(
            &self.sender_token_account,
            AccountName::SenderTokenAccount,
            &self.sender.key,
            &self.vault.data.mint,
        ) {
            Err(error) => return Err(error),
            Ok(()) => {},
        }
        if self.owner.key != self.vault.data.owner {
            return Err(AccountsError::Address(AccountName::Owner));
        }
        match check_writable_token(
            &self.owner_token_account,
            AccountName::OwnerTokenAccount,
            &self.owner.key,
            &self.vault.data.mint,
        ) {
            Err(error) => return Err(error),
            Ok(()) => {},
        }
        if !self.mint.is_initialized {
            return Err(AccountsError::Raw(AccountName::Mint));
        }
        match check_books(&self.vault, &addresses.vault) {
            Err(error) => return Err(error),
            Ok(()) => {},
        }
        check_holdings(
            &self.vault,
            &self.vault_authority,
            &self.vault_token_account,
            addresses,
        )
    }

    /// Holds the accounts to the rules.
    pub fn validate(&self, program_id: &Pubkey) -> (r: Result<(), AccountsError>)
        ensures
            r == outcome(self.violation(self.addresses_spec(program_id@))),
            r is Ok <==> self.valid(self.addresses_spec(program_id@)),
    {
        let addresses = self.addresses(program_id);
        self.check(&addresses)
    }

    /// A call into the token program on the given accounts.
    pub fn token_program_context<T>(&self, data: T) -> (context: CpiContext<T>)
        ensures
            context@ == (CpiContextView {
                program: self.token_program,
                accounts: data,
                signer_seeds: Seq::<Seq<Seq<u8>>>::empty(),
            }),
    {
        CpiContext::new(self.token_program, data)
    }
}

impl CloseVault {
    /// The addresses that the vault's accounts must have. The mint is the one in the
    /// books, for no mint is given.
    pub open spec fn addresses_spec(self, program_id: Seq<u8>) -> AddressBytes {
        stored_addresses(self.owner.key, self.vault.data.mint, self.vault, program_id)
    }

    /// What is reported of the accounts.
    pub open spec fn violation(self, addresses: AddressBytes) -> Option<AccountsError> {
        first_of(
            rule(self.owner.is_writable, AccountsError::Mut(AccountName::Owner)),
            first_of(
                rule(
                    self.owner.key == self.vault.data.owner,
                    AccountsError::Address(AccountName::Owner),
                ),
                first_of(
                    books_violation(self.vault, addresses.vault),
                    first_of(
                        rule(
                            self.vault.key != self.owner.key,
                            AccountsError::Close(AccountName::Vault),
                        ),
                        holdings_violation(
                            self.vault,
                            self.vault_authority,
                            self.vault_token_account,
                            addresses,
                        ),
                    ),
                ),
            ),
        )
    }

    /// Whether the accounts keep all the rules.
    pub open spec fn valid(self, addresses: AddressBytes) -> bool {
        &&& self.owner.is_writable
        &&& self.owner.key == self.vault.data.owner
        &&& self.vault.key != self.owner.key
        &&& vault_rules_hold(
            self.vault,
            self.vault_authority,
            self.vault_token_account,
            addresses,
        )
    }

    /// Derives the addresses that the vault's accounts must have.
    pub fn addresses(&self, program_id: &Pubkey) -> (addresses: StoredAddresses)
        ensures
            addresses@ == self.addresses_spec(program_id@),
    {
        derive_stored_addresses(&self.owner.key, &self.vault.data.mint, &self.vault, program_id)
    }

    /// Holds the accounts to the rules, given the derived addresses.
    pub fn check(&self, addresses: &StoredAddresses) -> (r: Result<(), AccountsError>)
        ensures
            r == outcome(self.violation(addresses@)),
            r is Ok <==> self.valid(addresses@),
    {
        if !self.owner.is_writable {
            return Err(AccountsError::Mut(AccountName::Owner));
        }
        if self.owner.key != self.vault.data.owner {
            return Err(AccountsError::Address(AccountName::Owner));
        }
        match check_books(&self.vault, &addresses.vault) {
            Err(error) => return Err(error),
            Ok(()) => {},
        }
        if self.vault.key == self.owner.key {
            return Err(AccountsError::Close(AccountName::Vault));
        }
        check_holdings(
            &self.vault,
            &self.vault_authority,
            &self.vault_token_account,
            addresses,
        )
    }

    /// Holds the accounts to the rules.
    pub fn validate(&self, program_id: &Pubkey) -> (r: Result<(), AccountsError>)
        ensures
            r == outcome(self.violation(self.addresses_spec(program_id@))),
            r is Ok <==> self.valid(self.addresses_spec(program_id@)),
    {
        let addresses = self.addresses(program_id);
        self.check(&addresses)
    }
}

impl InitializeVault {
    /// Whether the addresses are those at which the vault's accounts must be: each
    /// the first that its seeds derive, the account with the books from its owner and
    /// its mint, the other two from its own address.
    pub open spec fn addresses_found(self, found: FoundAddresses, program_id: Seq<u8>) -> bool {
        &&& crate::pda::is_canonical(
            found.vault,
            crate::pda::vault_seeds(self.owner.key@, self.mint.key@),
            program_id,
        )
        &&& crate::pda::is_canonical(
            found.vault_authority,
            crate::pda::authority_seeds(self.vault.key@),
            program_id,
        )
        &&& crate::pda::is_canonical(
            found.vault_token_account,
            crate::pda::token_account_seeds(self.vault.key@),
            program_id,
        )
    }

    /// Whether one of the vault's accounts has no address to be at.
    pub open spec fn addresses_missing(self, program_id: Seq<u8>) -> bool {
        ||| crate::pda::has_no_address(
            crate::pda::vault_seeds(self.owner.key@, self.mint.key@),
            program_id,
        )
        ||| crate::pda::has_no_address(crate::pda::authority_seeds(self.vault.key@), program_id)
        ||| crate::pda::has_no_address(
            crate::pda::token_account_seeds(self.vault.key@),
            program_id,
        )
    }

    /// What is reported of the account with the books, the first to be looked at: whether
    /// it is where it must be, and whether it is writable.
    pub open spec fn vault_violation(self, in_place: bool) -> Option<AccountsError> {
        first_of(
            rule(in_place, AccountsError::Seeds(AccountName::Vault)),
            rule(self.vault.is_writable, AccountsError::Mut(AccountName::Vault)),
        )
    }

    /// What is reported of the account with the tokens, whether it is where it must be
    /// and what it holds, and then of the accounts that were there before.
    pub open spec fn funding_violation(self, in_place: bool) -> Option<AccountsError> {
        first_of(
            rule(in_place, AccountsError::Seeds(AccountName::VaultTokenAccount)),
            first_of(
                writable_token_violation(
                    self.vault_token_account,
                    AccountName::VaultTokenAccount,
                    self.vault_authority.key,
                    self.mint.key,
                ),
                first_of(
                    rule(self.owner.is_writable, AccountsError::Mut(AccountName::Owner)),
                    first_of(
                        rule(self.mint.is_initialized, AccountsError::Raw(AccountName::Mint)),
                        writable_token_violation(
                            self.owner_token_account,
                            AccountName::OwnerTokenAccount,
                            self.owner.key,
                            self.mint.key,
                        ),
                    ),
                ),
            ),
        )
    }

    /// What is reported of the authority, the last to be looked at.
    pub open spec fn authority_violation(self, in_place: bool) -> Option<AccountsError> {
        rule(in_place, AccountsError::Seeds(AccountName::VaultAuthority))
    }

    /// What is reported of the accounts, given the addresses found for them.
    pub open spec fn violation(self, found: FoundAddresses) -> Option<AccountsError> {
        first_of(
            self.vault_violation(self.vault.key == found.vault.key),
            first_of(
                self.funding_violation(
                    self.vault_token_account.key == found.vault_token_account.key,
                ),
                self.authority_violation(self.vault_authority.key == found.vault_authority.key),
            ),
        )
    }

    /// Whether the accounts keep all the rules.
    pub open spec fn valid(self, found: FoundAddresses) -> bool {
        &&& self.vault.key == found.vault.key
        &&& self.vault.is_writable
        &&& self.vault_token_account.key == found.vault_token_account.key
        &&& self.vault_token_account.is_writable
        &&& self.vault_token_account.owner == self.vault_authority.key
        &&& self.vault_token_account.mint == self.mint.key
        &&& self.owner.is_writable
        &&& self.mint.is_initialized
        &&& self.owner_token_account.is_writable
        &&& self.owner_token_account.owner == self.owner.key
        &&& self.owner_token_account.mint == self.mint.key
        &&& self.vault_authority.key == found.vault_authority.key
    }

    /// What comes of the accounts: the bumps that the vault is to keep, or what is
    /// reported.
    pub open spec fn opening(self, found: FoundAddresses) -> Result<Bumps, AccountsError> {
        match self.violation(found) {
            Some(error) => Err(error),
            None => Ok(
                Bumps {
                    vault: found.vault.bump,
                    vault_authority: found.vault_authority.bump,
                    vault_token_account: found.vault_token_account.bump,
                },
            ),
        }
    }

    /// What comes of the accounts when each address is searched for only once the rules
    /// before it are kept: the bumps that the vault is to keep, or what is reported, or
    /// `None` where a search finds nothing.
    pub open spec fn opening_in_order(self, program_id: Seq<u8>) -> Option<
        Result<Bumps, AccountsError>,
    > {
        let vault_seeds = crate::pda::vault_seeds(self.owner.key@, self.mint.key@);
        let token_seeds = crate::pda::token_account_seeds(self.vault.key@);
        let authority_seeds = crate::pda::authority_seeds(self.vault.key@);
        if crate::pda::has_no_address(vault_seeds, program_id) {
            None
        } else if let Some(error) = self.vault_violation(
            crate::pda::is_canonical_key(self.vault.key, vault_seeds, program_id),
        ) {
            Some(Err(error))
        } else if crate::pda::has_no_address(token_seeds, program_id) {
            None
        } else if let Some(error) = self.funding_violation(
            crate::pda::is_canonical_key(self.vault_token_account.key, token_seeds, program_id),
        ) {
            Some(Err(error))
        } else if crate::pda::has_no_address(authority_seeds, program_id) {
            None
        } else if let Some(error) = self.authority_violation(
            crate::pda::is_canonical_key(self.vault_authority.key, authority_seeds, program_id),
        ) {
            Some(Err(error))
        } else {
            Some(
                Ok(
                    Bumps {
                        vault: crate::pda::canonical_bump(
                            self.vault.key,
                            vault_seeds,
                            program_id,
                        ),
                        vault_authority: crate::pda::canonical_bump(
                            self.vault_authority.key,
                            authority_seeds,
                            program_id,
                        ),
                        vault_token_account: crate::pda::canonical_bump(
                            self.vault_token_account.key,
                            token_seeds,
                            program_id,
                        ),
                    },
                ),
            )
        }
    }

    /// Where all the addresses are found, the order of the searches does not matter: what
    /// comes of the accounts is what comes of them given those addresses.
    pub proof fn law_searches_in_any_order(self, found: FoundAddresses, program_id: Pubkey)
        requires
            self.addresses_found(found, program_id@),
        ensures
            self.opening_in_order(program_id@) == Some(self.opening(found)),
    {
        crate::pda::lemma_canonical_key(
            found.vault,
            crate::pda::vault_seeds(self.owner.key@, self.mint.key@),
            program_id@,
        );
        crate::pda::lemma_canonical_key(
            found.vault_authority,
            crate::pda::authority_seeds(self.vault.key@),
            program_id@,
        );
        crate::pda::lemma_canonical_key(
            found.vault_token_account,
            crate::pda::token_account_seeds(self.vault.key@),
            program_id@,
        );
    }

    fn check_vault(&self, in_place: bool) -> (r: Result<(), AccountsError>)
        ensures
            r == outcome(self.vault_violation(in_place)),
    {
        if !in_place {
            return Err(AccountsError::Seeds(AccountName::Vault));
        }
        if !self.vault.is_writable {
            return Err(AccountsError::Mut(AccountName::Vault));
        }
        Ok(())
    }

    fn check_funding(&self, in_place: bool) -> (r: Result<(), AccountsError>)
        ensures
            r == outcome(self.funding_violation(in_place)),
    {
        if !in_place {
            return Err(AccountsError::Seeds(AccountName::VaultTokenAccount));
        }
        match check_writable_token(
            &self.vault_token_account,
            AccountName::VaultTokenAccount,
            &self.vault_authority.key,
            &self.mint.key,
        ) {
            Err(error) => return Err(error),
            Ok(()) => {},
        }
        if !self.owner.is_writable {
            return Err(AccountsError::Mut(AccountName::Owner));
        }
        if !self.mint.is_initialized {
            return Err(AccountsError::Raw(AccountName::Mint));
        }
        check_writable_token(
            &self.owner_token_account,
            AccountName::OwnerTokenAccount,
            &self.owner.key,
            &self.mint.key,
        )
    }

    fn check_authority(&self, in_place: bool) -> (r: Result<(), AccountsError>)
        ensures
            r == outcome(self.authority_violation(in_place)),
    {
        if !in_place {
            return Err(AccountsError::Seeds(AccountName::VaultAuthority));
        }
        Ok(())
    }

    /// Finds the addresses at which the vault's accounts must be, or `None` where one of
    /// them has none.
    pub fn find_addresses(&self, program_id: &Pubkey) -> (found: Option<FoundAddresses>)
        ensures
            found matches Some(found) ==> self.addresses_found(found, program_id@),
            found is None <==> self.addresses_missing(program_id@),
    {
        let vault = match find_vault_address(&self.owner.key, &self.mint.key, program_id) {
            Some(vault) => vault,
            None => return None,
        };
        let vault_token_account = match find_token_account_address(&self.vault.key, program_id) {
            Some(vault_token_account) => vault_token_account,
            None => return None,
        };
        let vault_authority = match find_authority_address(&self.vault.key, program_id) {
            Some(vault_authority) => vault_authority,
            None => return None,
        };
        Some(FoundAddresses { vault, vault_authority, vault_token_account })
    }

    /// Holds the accounts to the rules, given the addresses found, and hands out the
    /// bumps that the vault is to keep.
    pub fn check(&self, found: &FoundAddresses) -> (r: Result<Bumps, AccountsError>)
        ensures
            r == self.opening(*found),
            r is Ok <==> self.valid(*found),
    {
        match self.check_vault(self.vault.key == found.vault.key) {
            Err(error) => return Err(error),
            Ok(()) => {},
        }
        match self.check_funding(
            self.vault_token_account.key == found.vault_token_account.key,
        ) {
            Err(error) => return Err(error),
            Ok(()) => {},
        }
        match self.check_authority(self.vault_authority.key == found.vault_authority.key) {
            Err(error) => return Err(error),
            Ok(()) => {},
        }
        Ok(
            Bumps {
                vault: found.vault.bump,
                vault_authority: found.vault_authority.bump,
                vault_token_account: found.vault_token_account.bump,
            },
        )
    }

    /// Holds the accounts to the rules. Each address is searched for when its turn comes;
    /// where a search finds nothing, and no rule before it is broken, there is no outcome.
    pub fn validate(&self, program_id: &Pubkey) -> (r: Option<Result<Bumps, AccountsError>>)
        ensures
            r == self.opening_in_order(program_id@),
            r matches Some(Ok(bumps)) ==> exists|found: FoundAddresses|
                #[trigger] self.addresses_found(found, program_id@) && self.valid(found)
                    && self.opening(found) == Ok::<Bumps, AccountsError>(bumps),
    {
        let vault = match find_vault_address(&self.owner.key, &self.mint.key, program_id) {
            Some(vault) => vault,
            None => return None,
        };
        proof {
            crate::pda::lemma_canonical_key(
                vault,
                crate::pda::vault_seeds(self.owner.key@, self.mint.key@),
                program_id@,
            );
        }
        match self.check_vault(self.vault.key == vault.key) {
            Err(error) => return Some(Err(error)),
            Ok(()) => {},
        }
        let vault_token_account = match find_token_account_address(&self.vault.key, program_id) {
            Some(vault_token_account) => vault_token_account,
            None => return None,
        };
        proof {
            crate::pda::lemma_canonical_key(
                vault_token_account,
                crate::pda::token_account_seeds(self.vault.key@),
                program_id@,
            );
        }
        match self.check_funding(self.vault_token_account.key == vault_token_account.key) {
            Err(error) => return Some(Err(error)),
            Ok(()) => {},
        }
        let vault_authority = match find_authority_address(&self.vault.key, program_id) {
            Some(vault_authority) => vault_authority,
            None => return None,
        };
        proof {
            crate::pda::lemma_canonical_key(
                vault_authority,
                crate::pda::authority_seeds(self.vault.key@),
                program_id@,
            );
        }
        match self.check_authority(self.vault_authority.key == vault_authority.key) {
            Err(error) => return Some(Err(error)),
            Ok(()) => {},
        }
        assert(self.addresses_found(
            FoundAddresses { vault, vault_authority, vault_token_account },
            program_id@,
        ));
        Some(
            Ok(
                Bumps {
                    vault: vault.bump,
                    vault_authority: vault_authority.bump,
                    vault_token_account: vault_token_account.bump,
                },
            ),
        )
    }

    /// A call into the token program on the given accounts.
    pub fn token_program_context<T>(&self, data: T) -> (context: CpiContext<T>)
        ensures
            context@ == (CpiContextView {
                program: self.token_program,
                accounts: data,
                signer_seeds: Seq::<Seq<Seq<u8>>>::empty(),
            }),
    {
        CpiContext::new(self.token_program, data)
    }
}

} // verus!
