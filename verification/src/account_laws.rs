//! The rules that accounts are held to, said of the accounts field by field.
//!
//! Each check is pinned down by two facts: it succeeds exactly where every rule holds, and
//! an error names a rule that is broken while all the rules before it hold. The seeds are
//! written out byte by byte.

use crate::accounts::{
    CloseVault, Deposit, FoundAddresses, InitializeVault, Interest, StoredAddresses, Withdraw,
};
use crate::error::{AccountName, AccountsError};
use crate::pda::{
    authority_address, authority_signer_seeds, find_authority_address, find_token_account_address,
    find_vault_address, program_address, token_account_address, vault_address, FoundAddress,
};
use crate::pubkey::{lemma_pubkey_is_its_bytes, Pubkey};
use crate::state::Bumps;
use vstd::prelude::*;

verus! {

/// The books are looked for under the bytes of `vault`, the owner, the mint and the bump.
pub proof fn law_vault_address(owner: Pubkey, mint: Pubkey, bump: u8, program_id: Pubkey,
    r: Option<Pubkey>)
    requires
        call_ensures(vault_address, (&owner, &mint, bump, &program_id), r),
    ensures
        match r {
            Some(key) => program_address(
                seq![seq![0x76u8, 0x61u8, 0x75u8, 0x6cu8, 0x74u8], owner.bytes@, mint.bytes@,
                    seq![bump]],
                program_id.bytes@,
            ) == Some(key.bytes@),
            None => program_address(
                seq![seq![0x76u8, 0x61u8, 0x75u8, 0x6cu8, 0x74u8], owner.bytes@, mint.bytes@,
                    seq![bump]],
                program_id.bytes@,
            ) is None,
        },
{
    assert(crate::pda::VAULT_PREFIX@ =~= seq![0x76u8, 0x61u8, 0x75u8, 0x6cu8, 0x74u8]);
    assert(crate::pda::with_bump(crate::pda::vault_seeds(owner@, mint@),
        bump) =~= seq![seq![0x76u8, 0x61u8, 0x75u8, 0x6cu8, 0x74u8], owner.bytes@, mint.bytes@,
            seq![bump]]);
}

/// The authority is looked for under the bytes of `authority`, the vault and the bump.
pub proof fn law_authority_address(vault: Pubkey, bump: u8, program_id: Pubkey, r: Option<Pubkey>)
    requires
        call_ensures(authority_address, (&vault, bump, &program_id), r),
    ensures
        match r {
            Some(key) => program_address(
                seq![seq![0x61u8, 0x75u8, 0x74u8, 0x68u8, 0x6fu8, 0x72u8, 0x69u8, 0x74u8,
                    0x79u8], vault.bytes@, seq![bump]],
                program_id.bytes@,
            ) == Some(key.bytes@),
            None => program_address(
                seq![seq![0x61u8, 0x75u8, 0x74u8, 0x68u8, 0x6fu8, 0x72u8, 0x69u8, 0x74u8,
                    0x79u8], vault.bytes@, seq![bump]],
                program_id.bytes@,
            ) is None,
        },
{
    assert(crate::pda::AUTHORITY_PREFIX@ =~= seq![0x61u8, 0x75u8, 0x74u8, 0x68u8, 0x6fu8,
        0x72u8, 0x69u8, 0x74u8, 0x79u8]);
    assert(crate::pda::with_bump(crate::pda::authority_seeds(vault@),
        bump) =~= seq![seq![0x61u8, 0x75u8, 0x74u8, 0x68u8, 0x6fu8, 0x72u8, 0x69u8, 0x74u8,
            0x79u8], vault.bytes@, seq![bump]]);
}

/// The tokens are looked for under the bytes of `tokens`, the vault and the bump.
pub proof fn law_token_account_address(vault: Pubkey, bump: u8, program_id: Pubkey,
    r: Option<Pubkey>)
    requires
        call_ensures(token_account_address, (&vault, bump, &program_id), r),
    ensures
        match r {
            Some(key) => program_address(
                seq![seq![0x74u8, 0x6fu8, 0x6bu8, 0x65u8, 0x6eu8, 0x73u8], vault.bytes@,
                    seq![bump]],
                program_id.bytes@,
            ) == Some(key.bytes@),
            None => program_address(
                seq![seq![0x74u8, 0x6fu8, 0x6bu8, 0x65u8, 0x6eu8, 0x73u8], vault.bytes@,
                    seq![bump]],
                program_id.bytes@,
            ) is None,
        },
{
    assert(crate::pda::TOKENS_PREFIX@ =~= seq![0x74u8, 0x6fu8, 0x6bu8, 0x65u8, 0x6eu8, 0x73u8]);
    assert(crate::pda::with_bump(crate::pda::token_account_seeds(vault@),
        bump) =~= seq![seq![0x74u8, 0x6fu8, 0x6bu8, 0x65u8, 0x6eu8, 0x73u8], vault.bytes@,
            seq![bump]]);
}

/// The search finds the address that `vault_address` derives with the highest bump that
/// derives any; it finds nothing only where no bump but zero derives one.
pub proof fn law_find_vault_address(
    owner: Pubkey,
    mint: Pubkey,
    bump: u8,
    program_id: Pubkey,
    r: Option<FoundAddress>,
    derived: Option<Pubkey>,
)
    requires
        call_ensures(find_vault_address, (&owner, &mint, &program_id), r),
        call_ensures(vault_address, (&owner, &mint, bump, &program_id), derived),
    ensures
        r is None && bump >= 1 ==> derived is None,
        r matches Some(found) ==> {
            &&& found.bump >= 1
            &&& bump > found.bump ==> derived is None
            &&& bump == found.bump ==> derived == Some(found.key)
        },
{
    let seeds = crate::pda::vault_seeds(owner@, mint@);
    assert(crate::pda::address_bytes(derived) == program_address(
        crate::pda::with_bump(seeds, bump),
        program_id@,
    ));
    if let Some(found) = r {
        if bump == found.bump {
            lemma_same_address(derived, Some(found.key));
        }
    }
}

/// The search finds the address that `authority_address` derives with the highest bump that
/// derives any; it finds nothing only where no bump but zero derives one.
pub proof fn law_find_authority_address(
    vault: Pubkey,
    bump: u8,
    program_id: Pubkey,
    r: Option<FoundAddress>,
    derived: Option<Pubkey>,
)
    requires
        call_ensures(find_authority_address, (&vault, &program_id), r),
        call_ensures(authority_address, (&vault, bump, &program_id), derived),
    ensures
        r is None && bump >= 1 ==> derived is None,
        r matches Some(found) ==> {
            &&& found.bump >= 1
            &&& bump > found.bump ==> derived is None
            &&& bump == found.bump ==> derived == Some(found.key)
        },
{
    let seeds = crate::pda::authority_seeds(vault@);
    assert(crate::pda::address_bytes(derived) == program_address(
        crate::pda::with_bump(seeds, bump),
        program_id@,
    ));
    if let Some(found) = r {
        if bump == found.bump {
            lemma_same_address(derived, Some(found.key));
        }
    }
}

/// The search finds the address that `token_account_address` derives with the highest bump that
/// derives any; it finds nothing only where no bump but zero derives one.
pub proof fn law_find_token_account_address(
    vault: Pubkey,
    bump: u8,
    program_id: Pubkey,
    r: Option<FoundAddress>,
    derived: Option<Pubkey>,
)
    requires
        call_ensures(find_token_account_address, (&vault, &program_id), r),
        call_ensures(token_account_address, (&vault, bump, &program_id), derived),
    ensures
        r is None && bump >= 1 ==> derived is None,
        r matches Some(found) ==> {
            &&& found.bump >= 1
            &&& bump > found.bump ==> derived is None
            &&& bump == found.bump ==> derived == Some(found.key)
        },
{
    let seeds = crate::pda::token_account_seeds(vault@);
    assert(crate::pda::address_bytes(derived) == program_address(
        crate::pda::with_bump(seeds, bump),
        program_id@,
    ));
    if let Some(found) = r {
        if bump == found.bump {
            lemma_same_address(derived, Some(found.key));
        }
    }
}

/// The authority signs with the seeds under which its address is looked for.
pub proof fn law_authority_signs_with_its_seeds(
    vault: Pubkey,
    bump: u8,
    program_id: Pubkey,
    signer_seeds: Vec<Vec<Vec<u8>>>,
    r: Option<Pubkey>,
)
    requires
        call_ensures(authority_signer_seeds, (&vault, bump), signer_seeds),
        call_ensures(authority_address, (&vault, bump, &program_id), r),
    ensures
        signer_seeds.deep_view().len() == 1,
        signer_seeds.deep_view()[0] == seq![seq![0x61u8, 0x75u8, 0x74u8, 0x68u8, 0x6fu8,
            0x72u8, 0x69u8, 0x74u8, 0x79u8], vault.bytes@, seq![bump]],
        match r {
            Some(key) => program_address(signer_seeds.deep_view()[0], program_id.bytes@) == Some(
                key.bytes@,
            ),
            None => program_address(signer_seeds.deep_view()[0], program_id.bytes@) is None,
        },
{
    assert(crate::pda::AUTHORITY_PREFIX@ =~= seq![0x61u8, 0x75u8, 0x74u8, 0x68u8, 0x6fu8,
        0x72u8, 0x69u8, 0x74u8, 0x79u8]);
    assert(signer_seeds.deep_view()[0] =~= seq![seq![0x61u8, 0x75u8, 0x74u8, 0x68u8, 0x6fu8,
        0x72u8, 0x69u8, 0x74u8, 0x79u8], vault.bytes@, seq![bump]]);
}

/// Keys are equal exactly where their bytes are.
pub proof fn law_keys_are_compared_by_their_bytes(a: Pubkey, b: Pubkey)
    ensures
        a == b <==> (forall|i: int| 0 <= i < 32 ==> a.bytes[i] == b.bytes[i]),
        vstd::std_specs::cmp::PartialEqSpec::eq_spec(&a, &b) <==> a == b,
        a@ == a.bytes@,
        a@.len() == 32,
{
    if forall|i: int| 0 <= i < 32 ==> a.bytes[i] == b.bytes[i] {
        assert(a.bytes@ =~= b.bytes@) by {
            assert forall|i: int| 0 <= i < 32 implies a.bytes@[i] == b.bytes@[i] by {
                assert(a.bytes[i] == b.bytes[i]);
            }
        }
        lemma_pubkey_is_its_bytes(a, b);
    }
}

/// Addresses that may be missing are equal where their bytes are.
proof fn lemma_same_address(a: Option<Pubkey>, b: Option<Pubkey>)
    requires
        crate::pda::address_bytes(a) == crate::pda::address_bytes(b),
    ensures
        a == b,
{
    if let Some(key) = b {
        lemma_address_is_key(a, key);
    }
}

/// Whether a derived address is a key, as bytes or as a key.
proof fn lemma_address_is_key(address: Option<Pubkey>, key: Pubkey)
    ensures
        crate::pda::address_bytes(address) == Some(key@) <==> address == Some(key),
{
    if let Some(derived) = address {
        if derived@ == key@ {
            lemma_pubkey_is_its_bytes(derived, key);
        }
    }
}

/// The accounts of a deposit are accepted exactly where every rule holds, and refused for
/// the first rule that is broken.
pub proof fn law_deposit_accounts(
    accounts: Deposit,
    addresses: StoredAddresses,
    r: Result<(), AccountsError>,
)
    requires
        call_ensures(Deposit::check, (&accounts, &addresses), r),
    ensures
        ({
            let books = accounts.vault.data;
            let is_owner = accounts.owner.key == books.owner;
            let payer_writable = accounts.owner_token_account.is_writable;
            let payer_own = accounts.owner_token_account.owner == accounts.owner.key;
            let payer_minted = accounts.owner_token_account.mint == books.mint;
            let mint_live = accounts.mint.is_initialized;
            let vault_placed = addresses.vault == Some(accounts.vault.key);
            let vault_writable = accounts.vault.is_writable;
            let vault_open = books.initialized;
            let authority_placed = addresses.vault_authority == Some(accounts.vault_authority.key);
            let holder_placed = addresses.vault_token_account == Some(
                accounts.vault_token_account.key,
            );
            let holder_writable = accounts.vault_token_account.is_writable;
            let holder_own = accounts.vault_token_account.owner == accounts.vault_authority.key;
            let holder_minted = accounts.vault_token_account.mint == books.mint;
            &&& r is Ok <==> {
                &&& is_owner
                &&& payer_writable
                &&& payer_own
                &&& payer_minted
                &&& mint_live
                &&& vault_placed
                &&& vault_writable
                &&& vault_open
                &&& authority_placed
                &&& holder_placed
                &&& holder_writable
                &&& holder_own
                &&& holder_minted
            }
            &&& r matches Err(error) ==> match error {
                AccountsError::Address(AccountName::Owner) => !is_owner,
                AccountsError::Mut(AccountName::OwnerTokenAccount) => is_owner && !payer_writable,
                AccountsError::TokenOwner => {
                    ||| is_owner && payer_writable && !payer_own
                    ||| is_owner && payer_writable && payer_own && payer_minted && mint_live
                        && vault_placed && vault_writable && vault_open && authority_placed
                        && holder_placed && holder_writable && !holder_own
                },
                AccountsError::TokenMint => {
                    ||| is_owner && payer_writable && payer_own && !payer_minted
                    ||| is_owner && payer_writable && payer_own && payer_minted && mint_live
                        && vault_placed && vault_writable && vault_open && authority_placed
                        && holder_placed && holder_writable && holder_own && !holder_minted
                },
                AccountsError::Raw(AccountName::Mint) => is_owner && payer_writable
                    && payer_own && payer_minted && !mint_live,
                AccountsError::Seeds(AccountName::Vault) => is_owner && payer_writable
                    && payer_own && payer_minted && mint_live && !vault_placed,
                AccountsError::Mut(AccountName::Vault) => is_owner && payer_writable
                    && payer_own && payer_minted && mint_live && vault_placed && !vault_writable,
                AccountsError::Raw(AccountName::Vault) => is_owner && payer_writable
                    && payer_own && payer_minted && mint_live && vault_placed
                    && vault_writable && !vault_open,
                AccountsError::Seeds(AccountName::VaultAuthority) => is_owner
                    && payer_writable && payer_own && payer_minted && mint_live
                    && vault_placed && vault_writable && vault_open && !authority_placed,
                AccountsError::Seeds(AccountName::VaultTokenAccount) => is_owner
                    && payer_writable && payer_own && payer_minted && mint_live
                    && vault_placed && vault_writable && vault_open && authority_placed
                    && !holder_placed,
                AccountsError::Mut(AccountName::VaultTokenAccount) => is_owner
                    && payer_writable && payer_own && payer_minted && mint_live
                    && vault_placed && vault_writable && vault_open && authority_placed
                    && holder_placed && !holder_writable,
                _ => false,
            }
        }),
{
    lemma_address_is_key(addresses.vault, accounts.vault.key);
    lemma_address_is_key(addresses.vault_authority, accounts.vault_authority.key);
    lemma_address_is_key(addresses.vault_token_account, accounts.vault_token_account.key);
}

/// The accounts of a deposit are checked against the addresses that derive with the bumps in
/// the books.
pub proof fn law_deposit_addresses(
    accounts: Deposit,
    program_id: Pubkey,
    addresses: StoredAddresses,
    vault: Option<Pubkey>,
    vault_authority: Option<Pubkey>,
    vault_token_account: Option<Pubkey>,
    checked: Result<(), AccountsError>,
    validated: Result<(), AccountsError>,
)
    requires
        call_ensures(Deposit::addresses, (&accounts, &program_id), addresses),
        call_ensures(
            vault_address,
            (&accounts.owner.key, &accounts.mint.key, accounts.vault.data.bumps.vault,
                &program_id),
            vault,
        ),
        call_ensures(
            authority_address,
            (&accounts.vault.key, accounts.vault.data.bumps.vault_authority, &program_id),
            vault_authority,
        ),
        call_ensures(
            token_account_address,
            (&accounts.vault.key, accounts.vault.data.bumps.vault_token_account, &program_id),
            vault_token_account,
        ),
        call_ensures(Deposit::check, (&accounts, &addresses), checked),
        call_ensures(Deposit::validate, (&accounts, &program_id), validated),
    ensures
        addresses.vault == vault,
        addresses.vault_authority == vault_authority,
        addresses.vault_token_account == vault_token_account,
        validated == checked,
{
    lemma_same_address(addresses.vault, vault);
    lemma_same_address(addresses.vault_authority, vault_authority);
    lemma_same_address(addresses.vault_token_account, vault_token_account);
}

/// The accounts of a withdrawal are accepted exactly where every rule holds, and refused for
/// the first rule that is broken.
pub proof fn law_withdraw_accounts(
    accounts: Withdraw,
    addresses: StoredAddresses,
    r: Result<(), AccountsError>,
)
    requires
        call_ensures(Withdraw::check, (&accounts, &addresses), r),
    ensures
        ({
            let books = accounts.vault.data;
            let is_owner = accounts.owner.key == books.owner;
            let payer_writable = accounts.owner_token_account.is_writable;
            let payer_own = accounts.owner_token_account.owner == accounts.owner.key;
            let payer_minted = accounts.owner_token_account.mint == books.mint;
            let mint_live = accounts.mint.is_initialized;
            let vault_placed = addresses.vault == Some(accounts.vault.key);
            let vault_writable = accounts.vault.is_writable;
            let vault_open = books.initialized;
            let authority_placed = addresses.vault_authority == Some(accounts.vault_authority.key);
            let holder_placed = addresses.vault_token_account == Some(
                accounts.vault_token_account.key,
            );
            let holder_writable = accounts.vault_token_account.is_writable;
            let holder_own = accounts.vault_token_account.owner == accounts.vault_authority.key;
            let holder_minted = accounts.vault_token_account.mint == books.mint;
            &&& r is Ok <==> {
                &&& is_owner
                &&& payer_writable
                &&& payer_own
                &&& payer_minted
                &&& mint_live
                &&& vault_placed
                &&& vault_writable
                &&& vault_open
                &&& authority_placed
                &&& holder_placed
                &&& holder_writable
                &&& holder_own
                &&& holder_minted
            }
            &&& r matches Err(error) ==> match error {
                AccountsError::Address(AccountName::Owner) => !is_owner,
                AccountsError::Mut(AccountName::OwnerTokenAccount) => is_owner && !payer_writable,
                AccountsError::TokenOwner => {
                    ||| is_owner && payer_writable && !payer_own
                    ||| is_owner && payer_writable && payer_own && payer_minted && mint_live
                        && vault_placed && vault_writable && vault_open && authority_placed
                        && holder_placed && holder_writable && !holder_own
                },
                AccountsError::TokenMint => {
                    ||| is_owner && payer_writable && payer_own && !payer_minted
                    ||| is_owner && payer_writable && payer_own && payer_minted && mint_live
                        && vault_placed && vault_writable && vault_open && authority_placed
                        && holder_placed && holder_writable && holder_own && !holder_minted
                },
                AccountsError::Raw(AccountName::Mint) => is_owner && payer_writable
                    && payer_own && payer_minted && !mint_live,
                AccountsError::Seeds(AccountName::Vault) => is_owner && payer_writable
                    && payer_own && payer_minted && mint_live && !vault_placed,
                AccountsError::Mut(AccountName::Vault) => is_owner && payer_writable
                    && payer_own && payer_minted && mint_live && vault_placed && !vault_writable,
                AccountsError::Raw(AccountName::Vault) => is_owner && payer_writable
                    && payer_own && payer_minted && mint_live && vault_placed
                    && vault_writable && !vault_open,
                AccountsError::Seeds(AccountName::VaultAuthority) => is_owner
                    && payer_writable && payer_own && payer_minted && mint_live
                    && vault_placed && vault_writable && vault_open && !authority_placed,
                AccountsError::Seeds(AccountName::VaultTokenAccount) => is_owner
                    && payer_writable && payer_own && payer_minted && mint_live
                    && vault_placed && vault_writable && vault_open && authority_placed
                    && !holder_placed,
                AccountsError::Mut(AccountName::VaultTokenAccount) => is_owner
                    && payer_writable && payer_own && payer_minted && mint_live
                    && vault_placed && vault_writable && vault_open && authority_placed
                    && holder_placed && !holder_writable,
                _ => false,
            }
        }),
{
    lemma_address_is_key(addresses.vault, accounts.vault.key);
    lemma_address_is_key(addresses.vault_authority, accounts.vault_authority.key);
    lemma_address_is_key(addresses.vault_token_account, accounts.vault_token_account.key);
}

/// The accounts of a withdrawal are checked against the addresses that derive with the bumps in
/// the books.
pub proof fn law_withdraw_addresses(
    accounts: Withdraw,
    program_id: Pubkey,
    addresses: StoredAddresses,
    vault: Option<Pubkey>,
    vault_authority: Option<Pubkey>,
    vault_token_account: Option<Pubkey>,
    checked: Result<(), AccountsError>,
    validated: Result<(), AccountsError>,
)
    requires
        call_ensures(Withdraw::addresses, (&accounts, &program_id), addresses),
        call_ensures(
            vault_address,
            (&accounts.owner.key, &accounts.mint.key, accounts.vault.data.bumps.vault,
                &program_id),
            vault,
        ),
        call_ensures(
            authority_address,
            (&accounts.vault.key, accounts.vault.data.bumps.vault_authority, &program_id),
            vault_authority,
        ),
        call_ensures(
            token_account_address,
            (&accounts.vault.key, accounts.vault.data.bumps.vault_token_account, &program_id),
            vault_token_account,
        ),
        call_ensures(Withdraw::check, (&accounts, &addresses), checked),
        call_ensures(Withdraw::validate, (&accounts, &program_id), validated),
    ensures
        addresses.vault == vault,
        addresses.vault_authority == vault_authority,
        addresses.vault_token_account == vault_token_account,
        validated == checked,
{
    lemma_same_address(addresses.vault, vault);
    lemma_same_address(addresses.vault_authority, vault_authority);
    lemma_same_address(addresses.vault_token_account, vault_token_account);
}

/// The accounts of a payment of interest are accepted exactly where every rule holds,
/// and refused for the first rule that is broken.
pub proof fn law_interest_accounts(
    accounts: Interest,
    addresses: StoredAddresses,
    r: Result<(), AccountsError>,
)
    requires
        call_ensures(Interest::check, (&accounts, &addresses), r),
    ensures
        ({
            let books = accounts.vault.data;
            let sender_writable = accounts.sender_token_account.is_writable;
            let sender_own = accounts.sender_token_account.owner == accounts.sender.key;
            let sender_minted = accounts.sender_token_account.mint == books.mint;
            let is_owner = accounts.owner.key == books.owner;
            let payer_writable = accounts.owner_token_account.is_writable;
            let payer_own = accounts.owner_token_account.owner == accounts.owner.key;
            let payer_minted = accounts.owner_token_account.mint == books.mint;
            let mint_live = accounts.mint.is_initialized;
            let vault_placed = addresses.vault == Some(accounts.vault.key);
            let vault_writable = accounts.vault.is_writable;
            let vault_open = books.initialized;
            let authority_placed = addresses.vault_authority == Some(accounts.vault_authority.key);
            let holder_placed = addresses.vault_token_account == Some(
                accounts.vault_token_account.key,
            );
            let holder_writable = accounts.vault_token_account.is_writable;
            let holder_own = accounts.vault_token_account.owner == accounts.vault_authority.key;
            let holder_minted = accounts.vault_token_account.mint == books.mint;
            &&& r is Ok <==> {
                &&& sender_writable
                &&& sender_own
                &&& sender_minted
                &&& is_owner
                &&& payer_writable
                &&& payer_own
                &&& payer_minted
                &&& mint_live
                &&& vault_placed
                &&& vault_writable
                &&& vault_open
                &&& authority_placed
                &&& holder_placed
                &&& holder_writable
                &&& holder_own
                &&& holder_minted
            }
            &&& r matches Err(error) ==> match error {
                AccountsError::Mut(AccountName::SenderTokenAccount) => !sender_writable,
                AccountsError::TokenOwner => {
                    ||| sender_writable && !sender_own
                    ||| sender_writable && sender_own && sender_minted && is_owner
                        && payer_writable && !payer_own
                    ||| sender_writable && sender_own && sender_minted && is_owner
                        && payer_writable && payer_own && payer_minted && mint_live
                        && vault_placed && vault_writable && vault_open && authority_placed
                        && holder_placed && holder_writable && !holder_own
                },
                AccountsError::TokenMint => {
                    ||| sender_writable && sender_own && !sender_minted
                    ||| sender_writable && sender_own && sender_minted && is_owner
                        && payer_writable && payer_own && !payer_minted
                    ||| sender_writable && sender_own && sender_minted && is_owner
                        && payer_writable && payer_own && payer_minted && mint_live
                        && vault_placed && vault_writable && vault_open && authority_placed
                        && holder_placed && holder_writable && holder_own && !holder_minted
                },
                AccountsError::Address(AccountName::Owner) => sender_writable && sender_own
                    && sender_minted && !is_owner,
                AccountsError::Mut(AccountName::OwnerTokenAccount) => sender_writable
                    && sender_own && sender_minted && is_owner && !payer_writable,
                AccountsError::Raw(AccountName::Mint) => sender_writable && sender_own
                    && sender_minted && is_owner && payer_writable && payer_own
                    && payer_minted && !mint_live,
                AccountsError::Seeds(AccountName::Vault) => sender_writable && sender_own
                    && sender_minted && is_owner && payer_writable && payer_own
                    && payer_minted && mint_live && !vault_placed,
                AccountsError::Mut(AccountName::Vault) => sender_writable && sender_own
                    && sender_minted && is_owner && payer_writable && payer_own
                    && payer_minted && mint_live && vault_placed && !vault_writable,
                AccountsError::Raw(AccountName::Vault) => sender_writable && sender_own
                    && sender_minted && is_owner && payer_writable && payer_own
                    && payer_minted && mint_live && vault_placed && vault_writable && !vault_open,
                AccountsError::Seeds(AccountName::VaultAuthority) => sender_writable
                    && sender_own && sender_minted && is_owner && payer_writable
                    && payer_own && payer_minted && mint_live && vault_placed
                    && vault_writable && vault_open && !authority_placed,
                AccountsError::Seeds(AccountName::VaultTokenAccount) => sender_writable
                    && sender_own && sender_minted && is_owner && payer_writable
                    && payer_own && payer_minted && mint_live && vault_placed
                    && vault_writable && vault_open && authority_placed && !holder_placed,
                AccountsError::Mut(AccountName::VaultTokenAccount) => sender_writable
                    && sender_own && sender_minted && is_owner && payer_writable
                    && payer_own && payer_minted && mint_live && vault_placed
                    && vault_writable && vault_open && authority_placed && holder_placed
                    && !holder_writable,
                _ => false,
            }
        }),
{
    lemma_address_is_key(addresses.vault, accounts.vault.key);
    lemma_address_is_key(addresses.vault_authority, accounts.vault_authority.key);
    lemma_address_is_key(addresses.vault_token_account, accounts.vault_token_account.key);
}

/// The accounts of a payment of interest are checked against the addresses that derive with
/// the bumps in the books.
pub proof fn law_interest_addresses(
    accounts: Interest,
    program_id: Pubkey,
    addresses: StoredAddresses,
    vault: Option<Pubkey>,
    vault_authority: Option<Pubkey>,
    vault_token_account: Option<Pubkey>,
    checked: Result<(), AccountsError>,
    validated: Result<(), AccountsError>,
)
    requires
        call_ensures(Interest::addresses, (&accounts, &program_id), addresses),
        call_ensures(
            vault_address,
            (&accounts.owner.key, &accounts.mint.key, accounts.vault.data.bumps.vault,
                &program_id),
            vault,
        ),
        call_ensures(
            authority_address,
            (&accounts.vault.key, accounts.vault.data.bumps.vault_authority, &program_id),
            vault_authority,
        ),
        call_ensures(
            token_account_address,
            (&accounts.vault.key, accounts.vault.data.bumps.vault_token_account, &program_id),
            vault_token_account,
        ),
        call_ensures(Interest::check, (&accounts, &addresses), checked),
        call_ensures(Interest::validate, (&accounts, &program_id), validated),
    ensures
        addresses.vault == vault,
        addresses.vault_authority == vault_authority,
        addresses.vault_token_account == vault_token_account,
        validated == checked,
{
    lemma_same_address(addresses.vault, vault);
    lemma_same_address(addresses.vault_authority, vault_authority);
    lemma_same_address(addresses.vault_token_account, vault_token_account);
}

/// The accounts of a closing are accepted exactly where every rule holds, and refused for
/// the first rule that is broken.
pub proof fn law_closing_accounts(
    accounts: CloseVault,
    addresses: StoredAddresses,
    r: Result<(), AccountsError>,
)
    requires
        call_ensures(CloseVault::check, (&accounts, &addresses), r),
    ensures
        ({
            let books = accounts.vault.data;
            let owner_writable = accounts.owner.is_writable;
            let is_owner = accounts.owner.key == books.owner;
            let vault_placed = addresses.vault == Some(accounts.vault.key);
            let vault_writable = accounts.vault.is_writable;
            let vault_open = books.initialized;
            let not_into_itself = accounts.vault.key != accounts.owner.key;
            let authority_placed = addresses.vault_authority == Some(accounts.vault_authority.key);
            let holder_placed = addresses.vault_token_account == Some(
                accounts.vault_token_account.key,
            );
            let holder_writable = accounts.vault_token_account.is_writable;
            let holder_own = accounts.vault_token_account.owner == accounts.vault_authority.key;
            let holder_minted = accounts.vault_token_account.mint == books.mint;
            &&& r is Ok <==> {
                &&& owner_writable
                &&& is_owner
                &&& vault_placed
                &&& vault_writable
                &&& vault_open
                &&& not_into_itself
                &&& authority_placed
                &&& holder_placed
                &&& holder_writable
                &&& holder_own
                &&& holder_minted
            }
            &&& r matches Err(error) ==> match error {
                AccountsError::Mut(AccountName::Owner) => !owner_writable,
                AccountsError::Address(AccountName::Owner) => owner_writable && !is_owner,
                AccountsError::Seeds(AccountName::Vault) => owner_writable && is_owner
                    && !vault_placed,
                AccountsError::Mut(AccountName::Vault) => owner_writable && is_owner
                    && vault_placed && !vault_writable,
                AccountsError::Raw(AccountName::Vault) => owner_writable && is_owner
                    && vault_placed && vault_writable && !vault_open,
                AccountsError::Close(AccountName::Vault) => owner_writable && is_owner
                    && vault_placed && vault_writable && vault_open && !not_into_itself,
                AccountsError::Seeds(AccountName::VaultAuthority) => owner_writable
                    && is_owner && vault_placed && vault_writable && vault_open
                    && not_into_itself && !authority_placed,
                AccountsError::Seeds(AccountName::VaultTokenAccount) => owner_writable
                    && is_owner && vault_placed && vault_writable && vault_open
                    && not_into_itself && authority_placed && !holder_placed,
                AccountsError::Mut(AccountName::VaultTokenAccount) => owner_writable
                    && is_owner && vault_placed && vault_writable && vault_open
                    && not_into_itself && authority_placed && holder_placed && !holder_writable,
                AccountsError::TokenOwner => owner_writable && is_owner && vault_placed
                    && vault_writable && vault_open && not_into_itself && authority_placed
                    && holder_placed && holder_writable && !holder_own,
                AccountsError::TokenMint => owner_writable && is_owner && vault_placed
                    && vault_writable && vault_open && not_into_itself && authority_placed
                    && holder_placed && holder_writable && holder_own && !holder_minted,
                _ => false,
            }
        }),
{
    lemma_address_is_key(addresses.vault, accounts.vault.key);
    lemma_address_is_key(addresses.vault_authority, accounts.vault_authority.key);
    lemma_address_is_key(addresses.vault_token_account, accounts.vault_token_account.key);
}

/// The accounts of a closing are checked against the addresses that derive with the bumps in
/// the books.
pub proof fn law_closing_addresses(
    accounts: CloseVault,
    program_id: Pubkey,
    addresses: StoredAddresses,
    vault: Option<Pubkey>,
    vault_authority: Option<Pubkey>,
    vault_token_account: Option<Pubkey>,
    checked: Result<(), AccountsError>,
    validated: Result<(), AccountsError>,
)
    requires
        call_ensures(CloseVault::addresses, (&accounts, &program_id), addresses),
        call_ensures(
            vault_address,
            (&accounts.owner.key, &accounts.vault.data.mint, accounts.vault.data.bumps.vault,
                &program_id),
            vault,
        ),
        call_ensures(
            authority_address,
            (&accounts.vault.key, accounts.vault.data.bumps.vault_authority, &program_id),
            vault_authority,
        ),
        call_ensures(
            token_account_address,
            (&accounts.vault.key, accounts.vault.data.bumps.vault_token_account, &program_id),
            vault_token_account,
        ),
        call_ensures(CloseVault::check, (&accounts, &addresses), checked),
        call_ensures(CloseVault::validate, (&accounts, &program_id), validated),
    ensures
        addresses.vault == vault,
        addresses.vault_authority == vault_authority,
        addresses.vault_token_account == vault_token_account,
        validated == checked,
{
    lemma_same_address(addresses.vault, vault);
    lemma_same_address(addresses.vault_authority, vault_authority);
    lemma_same_address(addresses.vault_token_account, vault_token_account);
}

/// The accounts with which a vault is opened are accepted exactly where every rule holds, and
/// refused for the first rule that is broken. The bumps handed out are those found.
pub proof fn law_opening_accounts(
    accounts: InitializeVault,
    found: FoundAddresses,
    r: Result<Bumps, AccountsError>,
)
    requires
        call_ensures(InitializeVault::check, (&accounts, &found), r),
    ensures
        ({
            let vault_placed = accounts.vault.key == found.vault.key;
            let vault_writable = accounts.vault.is_writable;
            let holder_placed = accounts.vault_token_account.key == found.vault_token_account.key;
            let holder_writable = accounts.vault_token_account.is_writable;
            let holder_own = accounts.vault_token_account.owner == accounts.vault_authority.key;
            let holder_minted = accounts.vault_token_account.mint == accounts.mint.key;
            let owner_writable = accounts.owner.is_writable;
            let mint_live = accounts.mint.is_initialized;
            let payer_writable = accounts.owner_token_account.is_writable;
            let payer_own = accounts.owner_token_account.owner == accounts.owner.key;
            let payer_minted = accounts.owner_token_account.mint == accounts.mint.key;
            let authority_placed = accounts.vault_authority.key == found.vault_authority.key;
            &&& r is Ok <==> {
                &&& vault_placed
                &&& vault_writable
                &&& holder_placed
                &&& holder_writable
                &&& holder_own
                &&& holder_minted
                &&& owner_writable
                &&& mint_live
                &&& payer_writable
                &&& payer_own
                &&& payer_minted
                &&& authority_placed
            }
            &&& r matches Ok(bumps) ==> {
                &&& bumps.vault == found.vault.bump
                &&& bumps.vault_authority == found.vault_authority.bump
                &&& bumps.vault_token_account == found.vault_token_account.bump
            }
            &&& r matches Err(error) ==> match error {
                AccountsError::Seeds(AccountName::Vault) => !vault_placed,
                AccountsError::Mut(AccountName::Vault) => vault_placed && !vault_writable,
                AccountsError::Seeds(AccountName::VaultTokenAccount) => vault_placed
                    && vault_writable && !holder_placed,
                AccountsError::Mut(AccountName::VaultTokenAccount) => vault_placed
                    && vault_writable && holder_placed && !holder_writable,
                AccountsError::TokenOwner => {
                    ||| vault_placed && vault_writable && holder_placed && holder_writable
                        && !holder_own
                    ||| vault_placed && vault_writable && holder_placed && holder_writable
                        && holder_own && holder_minted && owner_writable && mint_live
                        && payer_writable && !payer_own
                },
                AccountsError::TokenMint => {
                    ||| vault_placed && vault_writable && holder_placed && holder_writable
                        && holder_own && !holder_minted
                    ||| vault_placed && vault_writable && holder_placed && holder_writable
                        && holder_own && holder_minted && owner_writable && mint_live
                        && payer_writable && payer_own && !payer_minted
                },
                AccountsError::Mut(AccountName::Owner) => vault_placed && vault_writable
                    && holder_placed && holder_writable && holder_own && holder_minted
                    && !owner_writable,
                AccountsError::Raw(AccountName::Mint) => vault_placed && vault_writable
                    && holder_placed && holder_writable && holder_own && holder_minted
                    && owner_writable && !mint_live,
                AccountsError::Mut(AccountName::OwnerTokenAccount) => vault_placed
                    && vault_writable && holder_placed && holder_writable && holder_own
                    && holder_minted && owner_writable && mint_live && !payer_writable,
                AccountsError::Seeds(AccountName::VaultAuthority) => vault_placed
                    && vault_writable && holder_placed && holder_writable && holder_own
                    && holder_minted && owner_writable && mint_live && payer_writable
                    && payer_own && payer_minted && !authority_placed,
                _ => false,
            }
        }),
{
}

/// Opening a vault, with the searches in their turn: there is no outcome exactly where a search
/// finds nothing and all the rules before it hold; the accounts are accepted exactly where
/// every rule holds, with the bumps that were found; otherwise they are refused for the first
/// rule that is broken.
pub proof fn law_opening_searches_in_turn(
    accounts: InitializeVault,
    program_id: Pubkey,
    vault: Option<FoundAddress>,
    vault_token_account: Option<FoundAddress>,
    vault_authority: Option<FoundAddress>,
    r: Option<Result<Bumps, AccountsError>>,
)
    requires
        call_ensures(
            find_vault_address,
            (&accounts.owner.key, &accounts.mint.key, &program_id),
            vault,
        ),
        call_ensures(
            find_token_account_address,
            (&accounts.vault.key, &program_id),
            vault_token_account,
        ),
        call_ensures(find_authority_address, (&accounts.vault.key, &program_id), vault_authority),
        call_ensures(InitializeVault::validate, (&accounts, &program_id), r),
    ensures
        ({
            let vault_placed = vault matches Some(found) && found.key == accounts.vault.key;
            let vault_writable = accounts.vault.is_writable;
            let holder_placed = vault_token_account matches Some(found) && found.key
                == accounts.vault_token_account.key;
            let holder_writable = accounts.vault_token_account.is_writable;
            let holder_own = accounts.vault_token_account.owner == accounts.vault_authority.key;
            let holder_minted = accounts.vault_token_account.mint == accounts.mint.key;
            let owner_writable = accounts.owner.is_writable;
            let mint_live = accounts.mint.is_initialized;
            let payer_writable = accounts.owner_token_account.is_writable;
            let payer_own = accounts.owner_token_account.owner == accounts.owner.key;
            let payer_minted = accounts.owner_token_account.mint == accounts.mint.key;
            let authority_placed = vault_authority matches Some(found) && found.key
                == accounts.vault_authority.key;
            &&& r is None <==> {
                ||| vault is None
                ||| vault_placed && vault_writable && vault_token_account is None
                ||| vault_placed && vault_writable && holder_placed && holder_writable
                    && holder_own && holder_minted && owner_writable && mint_live
                    && payer_writable && payer_own && payer_minted && vault_authority is None
            }
            &&& (r matches Some(Ok(_))) <==> {
                &&& vault_placed
                &&& vault_writable
                &&& holder_placed
                &&& holder_writable
                &&& holder_own
                &&& holder_minted
                &&& owner_writable
                &&& mint_live
                &&& payer_writable
                &&& payer_own
                &&& payer_minted
                &&& authority_placed
            }
            &&& r matches Some(Ok(bumps)) ==> {
                &&& vault matches Some(found) && bumps.vault == found.bump
                &&& vault_authority matches Some(found) && bumps.vault_authority == found.bump
                &&& vault_token_account matches Some(found) && bumps.vault_token_account
                    == found.bump
            }
            &&& r matches Some(Err(error)) ==> match error {
                AccountsError::Seeds(AccountName::Vault) => vault is Some && !vault_placed,
                AccountsError::Mut(AccountName::Vault) => vault_placed && !vault_writable,
                AccountsError::Seeds(AccountName::VaultTokenAccount) => vault_placed
                    && vault_writable && vault_token_account is Some && !holder_placed,
                AccountsError::Mut(AccountName::VaultTokenAccount) => vault_placed
                    && vault_writable && holder_placed && !holder_writable,
                AccountsError::TokenOwner => {
                    ||| vault_placed && vault_writable && holder_placed && holder_writable
                        && !holder_own
                    ||| vault_placed && vault_writable && holder_placed && holder_writable
                        && holder_own && holder_minted && owner_writable && mint_live
                        && payer_writable && !payer_own
                },
                AccountsError::TokenMint => {
                    ||| vault_placed && vault_writable && holder_placed && holder_writable
                        && holder_own && !holder_minted
                    ||| vault_placed && vault_writable && holder_placed && holder_writable
                        && holder_own && holder_minted && owner_writable && mint_live
                        && payer_writable && payer_own && !payer_minted
                },
                AccountsError::Mut(AccountName::Owner) => vault_placed && vault_writable
                    && holder_placed && holder_writable && holder_own && holder_minted
                    && !owner_writable,
                AccountsError::Raw(AccountName::Mint) => vault_placed && vault_writable
                    && holder_placed && holder_writable && holder_own && holder_minted
                    && owner_writable && !mint_live,
                AccountsError::Mut(AccountName::OwnerTokenAccount) => vault_placed
                    && vault_writable && holder_placed && holder_writable && holder_own
                    && holder_minted && owner_writable && mint_live && !payer_writable,
                AccountsError::Seeds(AccountName::VaultAuthority) => vault_placed
                    && vault_writable && holder_placed && holder_writable && holder_own
                    && holder_minted && owner_writable && mint_live && payer_writable
                    && payer_own && payer_minted && vault_authority is Some && !authority_placed,
                _ => false,
            }
        }),
{
    if let Some(found) = vault {
        crate::pda::lemma_canonical_key(
            found,
            crate::pda::vault_seeds(accounts.owner.key@, accounts.mint.key@),
            program_id@,
        );
    }
    if let Some(found) = vault_token_account {
        crate::pda::lemma_canonical_key(
            found,
            crate::pda::token_account_seeds(accounts.vault.key@),
            program_id@,
        );
    }
    if let Some(found) = vault_authority {
        crate::pda::lemma_canonical_key(
            found,
            crate::pda::authority_seeds(accounts.vault.key@),
            program_id@,
        );
    }
}

/// The addresses of an opening are those of the three searches, and there are none where one of
/// the searches finds nothing.
pub proof fn law_opening_addresses(
    accounts: InitializeVault,
    program_id: Pubkey,
    vault: Option<FoundAddress>,
    vault_token_account: Option<FoundAddress>,
    vault_authority: Option<FoundAddress>,
    r: Option<FoundAddresses>,
)
    requires
        call_ensures(
            find_vault_address,
            (&accounts.owner.key, &accounts.mint.key, &program_id),
            vault,
        ),
        call_ensures(
            find_token_account_address,
            (&accounts.vault.key, &program_id),
            vault_token_account,
        ),
        call_ensures(find_authority_address, (&accounts.vault.key, &program_id), vault_authority),
        call_ensures(InitializeVault::find_addresses, (&accounts, &program_id), r),
    ensures
        r is Some <==> vault is Some && vault_token_account is Some && vault_authority is Some,
        r matches Some(found) ==> {
            &&& vault == Some(found.vault)
            &&& vault_token_account == Some(found.vault_token_account)
            &&& vault_authority == Some(found.vault_authority)
        },
{
    let vault_seeds = crate::pda::vault_seeds(accounts.owner.key@, accounts.mint.key@);
    let token_seeds = crate::pda::token_account_seeds(accounts.vault.key@);
    let authority_seeds = crate::pda::authority_seeds(accounts.vault.key@);
    if let Some(found) = vault {
        crate::pda::lemma_canonical_key(found, vault_seeds, program_id@);
    }
    if let Some(found) = vault_token_account {
        crate::pda::lemma_canonical_key(found, token_seeds, program_id@);
    }
    if let Some(found) = vault_authority {
        crate::pda::lemma_canonical_key(found, authority_seeds, program_id@);
    }
    if let Some(all) = r {
        crate::pda::lemma_canonical_key(all.vault, vault_seeds, program_id@);
        crate::pda::lemma_canonical_key(all.vault_token_account, token_seeds, program_id@);
        crate::pda::lemma_canonical_key(all.vault_authority, authority_seeds, program_id@);
        if let Some(found) = vault {
            crate::pda::law_one_canonical_address(found, all.vault, vault_seeds, program_id@);
        }
        if let Some(found) = vault_token_account {
            crate::pda::law_one_canonical_address(
                found,
                all.vault_token_account,
                token_seeds,
                program_id@,
            );
        }
        if let Some(found) = vault_authority {
            crate::pda::law_one_canonical_address(
                found,
                all.vault_authority,
                authority_seeds,
                program_id@,
            );
        }
    }
}

} // verus!
