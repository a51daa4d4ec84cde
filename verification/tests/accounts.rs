use vault::accounts::{
    CloseVault, Deposit, FoundAddresses, InitializeVault, Interest, Mint, NewAccount, Signer,
    StoredAddresses, SystemAccount, TokenAccount, VaultAccount, Withdraw,
};
use vault::error::{AccountName, AccountsError};
use vault::pda::{
    authority_address, authority_signer_seeds, find_authority_address, find_token_account_address,
    find_vault_address, token_account_address, vault_address, FoundAddress,
};
use vault::{initialize_vault, Bumps, Pubkey, Vault};

type Key = anchor_lang::prelude::Pubkey;

fn key(n: u8) -> Pubkey {
    Pubkey::new_from_array([n; 32])
}

fn outside(key: &Pubkey) -> Key {
    Key::new_from_array(key.bytes)
}

const PROGRAM: u8 = 200;

fn signer(n: u8) -> Signer {
    Signer { key: key(n), is_writable: true }
}

fn tokens(at: Pubkey, owner: Pubkey, mint: Pubkey, amount: u64) -> TokenAccount {
    TokenAccount { key: at, is_writable: true, mint, owner, amount }
}

/// The accounts with which owner 1 opens a vault for mint 2, at their derived addresses.
fn opening() -> InitializeVault {
    let program = outside(&key(PROGRAM));
    let owner = key(1);
    let mint = key(2);
    let (vault, _) = Key::find_program_address(
        &[b"vault".as_ref(), &owner.bytes, &mint.bytes],
        &program,
    );
    let (authority, _) = Key::find_program_address(&[b"authority".as_ref(), vault.as_ref()], &program);
    let (holder, _) = Key::find_program_address(&[b"tokens".as_ref(), vault.as_ref()], &program);
    let authority = Pubkey::new_from_array(authority.to_bytes());
    InitializeVault {
        owner: signer(1),
        mint: Mint { key: mint, is_initialized: true },
        owner_token_account: tokens(key(3), owner, mint, 5000),
        vault: NewAccount { key: Pubkey::new_from_array(vault.to_bytes()), is_writable: true },
        vault_authority: SystemAccount { key: authority },
        vault_token_account: tokens(
            Pubkey::new_from_array(holder.to_bytes()),
            authority,
            mint,
            0,
        ),
        token_program: key(9),
    }
}

fn opened_books() -> Vault {
    let accounts = opening();
    let bumps = accounts.validate(&key(PROGRAM)).unwrap().unwrap();
    initialize_vault(&accounts, bumps, 1000).unwrap().finish(50)
}

fn books() -> VaultAccount {
    VaultAccount { key: opening().vault.key, is_writable: true, data: opened_books() }
}

fn deposit_accounts() -> Deposit {
    let opened = opening();
    Deposit {
        owner: opened.owner,
        owner_token_account: opened.owner_token_account,
        mint: opened.mint,
        vault: books(),
        vault_authority: opened.vault_authority,
        vault_token_account: opened.vault_token_account,
        token_program: opened.token_program,
    }
}

fn withdraw_accounts() -> Withdraw {
    let d = deposit_accounts();
    Withdraw {
        owner: d.owner,
        owner_token_account: d.owner_token_account,
        mint: d.mint,
        vault: d.vault,
        vault_authority: d.vault_authority,
        vault_token_account: d.vault_token_account,
        token_program: d.token_program,
    }
}

fn interest_accounts() -> Interest {
    let d = deposit_accounts();
    Interest {
        sender: signer(5),
        sender_token_account: tokens(key(6), key(5), key(2), 700),
        owner: SystemAccount { key: key(1) },
        owner_token_account: d.owner_token_account,
        mint: d.mint,
        vault: d.vault,
        vault_authority: d.vault_authority,
        vault_token_account: d.vault_token_account,
        token_program: d.token_program,
    }
}

fn close_accounts() -> CloseVault {
    let d = deposit_accounts();
    CloseVault {
        owner: d.owner,
        vault: d.vault,
        vault_authority: d.vault_authority,
        vault_token_account: d.vault_token_account,
        token_program: d.token_program,
    }
}

#[test]
fn keys_are_equal_when_their_bytes_are() {
    assert_eq!(key(7), key(7));
    let mut bytes = [7u8; 32];
    bytes[31] = 8;
    assert_ne!(key(7), Pubkey::new_from_array(bytes));
    bytes[31] = 7;
    bytes[0] = 8;
    assert_ne!(key(7), Pubkey::new_from_array(bytes));
}

#[test]
fn found_addresses_are_the_canonical_ones() {
    let program = key(PROGRAM);
    let (address, bump) = Key::find_program_address(
        &[b"vault".as_ref(), &key(1).bytes, &key(2).bytes],
        &outside(&program),
    );
    let found = find_vault_address(&key(1), &key(2), &program).unwrap();
    assert_eq!(found.key.bytes, address.to_bytes());
    assert_eq!(found.bump, bump);

    let (address, bump) =
        Key::find_program_address(&[b"authority".as_ref(), &key(4).bytes], &outside(&program));
    let found = find_authority_address(&key(4), &program).unwrap();
    assert_eq!((found.key.bytes, found.bump), (address.to_bytes(), bump));

    let (address, bump) =
        Key::find_program_address(&[b"tokens".as_ref(), &key(4).bytes], &outside(&program));
    let found = find_token_account_address(&key(4), &program).unwrap();
    assert_eq!((found.key.bytes, found.bump), (address.to_bytes(), bump));
}

#[test]
fn derived_addresses_agree_for_every_bump() {
    let program = key(PROGRAM);
    let mut derived = 0;
    let mut missing = 0;
    for bump in 0..=255u8 {
        let expected = Key::create_program_address(
            &[b"vault".as_ref(), &key(1).bytes, &key(2).bytes, &[bump]],
            &outside(&program),
        )
        .ok()
        .map(|k| k.to_bytes());
        assert_eq!(vault_address(&key(1), &key(2), bump, &program).map(|k| k.bytes), expected);
        let expected = Key::create_program_address(
            &[b"authority".as_ref(), &key(4).bytes, &[bump]],
            &outside(&program),
        )
        .ok()
        .map(|k| k.to_bytes());
        assert_eq!(authority_address(&key(4), bump, &program).map(|k| k.bytes), expected);
        let expected = Key::create_program_address(
            &[b"tokens".as_ref(), &key(4).bytes, &[bump]],
            &outside(&program),
        )
        .ok()
        .map(|k| k.to_bytes());
        assert_eq!(token_account_address(&key(4), bump, &program).map(|k| k.bytes), expected);
        match expected {
            Some(_) => derived += 1,
            None => missing += 1,
        }
    }
    assert!(derived > 0);
    assert!(missing > 0);
}

#[test]
fn no_bump_above_the_found_one_derives() {
    let program = key(PROGRAM);
    for n in 0..20u8 {
        let found = find_authority_address(&key(n), &program).unwrap();
        assert_eq!(authority_address(&key(n), found.bump, &program), Some(found.key));
        let mut higher = found.bump;
        while higher < 255 {
            higher += 1;
            assert_eq!(authority_address(&key(n), higher, &program), None);
        }
    }
}

#[test]
fn signer_seeds_derive_the_authority() {
    let program = key(PROGRAM);
    let found = find_authority_address(&key(4), &program).unwrap();
    let signer_seeds = authority_signer_seeds(&key(4), found.bump);
    assert_eq!(
        signer_seeds,
        vec![vec![b"authority".to_vec(), key(4).bytes.to_vec(), vec![found.bump]]]
    );
    let seeds: Vec<&[u8]> = signer_seeds[0].iter().map(|s| s.as_slice()).collect();
    let address = Key::create_program_address(&seeds, &outside(&program)).unwrap();
    assert_eq!(address.to_bytes(), found.key.bytes);
}

#[test]
fn opening_hands_out_the_bumps() {
    let accounts = opening();
    let found = accounts.find_addresses(&key(PROGRAM)).unwrap();
    let bumps = accounts.validate(&key(PROGRAM)).unwrap().unwrap();
    assert_eq!(
        bumps,
        Bumps {
            vault: found.vault.bump,
            vault_authority: found.vault_authority.bump,
            vault_token_account: found.vault_token_account.bump,
        }
    );
}

#[test]
fn opening_is_refused_for_each_rule() {
    let good = opening();
    let program = key(PROGRAM);
    let fails = |accounts: InitializeVault, error: AccountsError| {
        assert_eq!(accounts.validate(&program), Some(Err(error)));
    };
    let mut a = good;
    a.vault.key = key(77);
    fails(a, AccountsError::Seeds(AccountName::Vault));
    let mut a = good;
    a.vault.is_writable = false;
    fails(a, AccountsError::Mut(AccountName::Vault));
    let mut a = good;
    a.vault_token_account.key = key(77);
    fails(a, AccountsError::Seeds(AccountName::VaultTokenAccount));
    let mut a = good;
    a.vault_token_account.is_writable = false;
    fails(a, AccountsError::Mut(AccountName::VaultTokenAccount));
    let mut a = good;
    a.vault_token_account.owner = key(77);
    fails(a, AccountsError::TokenOwner);
    let mut a = good;
    a.vault_token_account.mint = key(77);
    fails(a, AccountsError::TokenMint);
    let mut a = good;
    a.owner.is_writable = false;
    fails(a, AccountsError::Mut(AccountName::Owner));
    let mut a = good;
    a.mint.is_initialized = false;
    fails(a, AccountsError::Raw(AccountName::Mint));
    let mut a = good;
    a.owner_token_account.is_writable = false;
    fails(a, AccountsError::Mut(AccountName::OwnerTokenAccount));
    let mut a = good;
    a.owner_token_account.owner = key(77);
    fails(a, AccountsError::TokenOwner);
    let mut a = good;
    a.owner_token_account.mint = key(77);
    fails(a, AccountsError::TokenMint);
    let mut a = good;
    a.vault_authority.key = key(77);
    a.vault_token_account.owner = key(77);
    fails(a, AccountsError::Seeds(AccountName::VaultAuthority));
}

#[test]
fn opening_reports_the_first_broken_rule() {
    let program = key(PROGRAM);
    let mut a = opening();
    a.vault_authority.key = key(77);
    a.mint.is_initialized = false;
    assert_eq!(a.validate(&program), Some(Err(AccountsError::TokenOwner)));
    a.vault_token_account.key = key(78);
    assert_eq!(
        a.validate(&program),
        Some(Err(AccountsError::Seeds(AccountName::VaultTokenAccount)))
    );
    a.vault.is_writable = false;
    assert_eq!(a.validate(&program), Some(Err(AccountsError::Mut(AccountName::Vault))));
    a.vault.key = key(79);
    assert_eq!(a.validate(&program), Some(Err(AccountsError::Seeds(AccountName::Vault))));
}

#[test]
fn opening_agrees_with_the_addresses_found() {
    let program = key(PROGRAM);
    let accounts = opening();
    let found = accounts.find_addresses(&program).unwrap();
    assert_eq!(accounts.validate(&program), Some(accounts.check(&found)));
    let mut stray = accounts;
    stray.vault_authority.key = key(77);
    stray.vault_token_account.owner = key(77);
    let found = stray.find_addresses(&program).unwrap();
    assert_eq!(stray.validate(&program), Some(stray.check(&found)));
    assert!(stray.check(&found).is_err());
}

#[test]
fn opening_under_another_program_is_refused() {
    assert_eq!(
        opening().validate(&key(PROGRAM + 1)),
        Some(Err(AccountsError::Seeds(AccountName::Vault)))
    );
}

#[test]
fn opening_is_checked_against_given_addresses() {
    let mut accounts = opening();
    accounts.vault.key = key(10);
    accounts.vault_authority.key = key(11);
    accounts.vault_token_account.key = key(12);
    accounts.vault_token_account.owner = key(11);
    let found = FoundAddresses {
        vault: FoundAddress { key: key(10), bump: 255 },
        vault_authority: FoundAddress { key: key(11), bump: 254 },
        vault_token_account: FoundAddress { key: key(12), bump: 253 },
    };
    assert_eq!(
        accounts.check(&found),
        Ok(Bumps { vault: 255, vault_authority: 254, vault_token_account: 253 })
    );
    accounts.owner.is_writable = false;
    accounts.mint.is_initialized = false;
    assert_eq!(accounts.check(&found), Err(AccountsError::Mut(AccountName::Owner)));
}

#[test]
fn opened_accounts_are_accepted_ever_after() {
    let program = key(PROGRAM);
    assert_eq!(deposit_accounts().validate(&program), Ok(()));
    assert_eq!(withdraw_accounts().validate(&program), Ok(()));
    assert_eq!(interest_accounts().validate(&program), Ok(()));
    assert_eq!(close_accounts().validate(&program), Ok(()));
}

#[test]
fn deposit_is_refused_for_each_rule() {
    let good = deposit_accounts();
    let program = key(PROGRAM);
    let fails = |accounts: Deposit, error: AccountsError| {
        assert_eq!(accounts.validate(&program), Err(error));
    };
    let mut a = good;
    a.owner.key = key(77);
    fails(a, AccountsError::Address(AccountName::Owner));
    let mut a = good;
    a.owner_token_account.is_writable = false;
    fails(a, AccountsError::Mut(AccountName::OwnerTokenAccount));
    let mut a = good;
    a.owner_token_account.owner = key(77);
    a.owner_token_account.mint = key(77);
    fails(a, AccountsError::TokenOwner);
    let mut a = good;
    a.owner_token_account.mint = key(77);
    fails(a, AccountsError::TokenMint);
    let mut a = good;
    a.mint.is_initialized = false;
    fails(a, AccountsError::Raw(AccountName::Mint));
    let mut a = good;
    a.mint.key = key(77);
    fails(a, AccountsError::Seeds(AccountName::Vault));
    let mut a = good;
    a.vault.is_writable = false;
    a.vault.data.initialized = false;
    fails(a, AccountsError::Mut(AccountName::Vault));
    let mut a = good;
    a.vault.data.initialized = false;
    fails(a, AccountsError::Raw(AccountName::Vault));
    let mut a = good;
    a.vault_authority.key = key(77);
    fails(a, AccountsError::Seeds(AccountName::VaultAuthority));
    let mut a = good;
    a.vault_token_account.key = key(77);
    fails(a, AccountsError::Seeds(AccountName::VaultTokenAccount));
    let mut a = good;
    a.vault_token_account.is_writable = false;
    fails(a, AccountsError::Mut(AccountName::VaultTokenAccount));
    let mut a = good;
    a.vault_token_account.owner = key(77);
    fails(a, AccountsError::TokenOwner);
    let mut a = good;
    a.vault_token_account.mint = key(77);
    fails(a, AccountsError::TokenMint);
    // A deposit does not change the signer's own account.
    let mut a = good;
    a.owner.is_writable = false;
    assert_eq!(a.validate(&program), Ok(()));
}

#[test]
fn withdrawal_by_a_stranger_is_refused() {
    let mut accounts = withdraw_accounts();
    accounts.owner = signer(66);
    accounts.owner_token_account.owner = key(66);
    assert_eq!(
        accounts.validate(&key(PROGRAM)),
        Err(AccountsError::Address(AccountName::Owner))
    );
    let mut accounts = withdraw_accounts();
    accounts.owner_token_account.owner = key(66);
    assert_eq!(accounts.validate(&key(PROGRAM)), Err(AccountsError::TokenOwner));
}

#[test]
fn interest_is_refused_for_each_rule() {
    let good = interest_accounts();
    let program = key(PROGRAM);
    let fails = |accounts: Interest, error: AccountsError| {
        assert_eq!(accounts.validate(&program), Err(error));
    };
    let mut a = good;
    a.sender_token_account.is_writable = false;
    a.owner.key = key(77);
    fails(a, AccountsError::Mut(AccountName::SenderTokenAccount));
    let mut a = good;
    a.sender_token_account.owner = key(77);
    fails(a, AccountsError::TokenOwner);
    let mut a = good;
    a.sender_token_account.mint = key(77);
    fails(a, AccountsError::TokenMint);
    let mut a = good;
    a.owner.key = key(77);
    fails(a, AccountsError::Address(AccountName::Owner));
    let mut a = good;
    a.owner_token_account.is_writable = false;
    fails(a, AccountsError::Mut(AccountName::OwnerTokenAccount));
    let mut a = good;
    a.mint.is_initialized = false;
    fails(a, AccountsError::Raw(AccountName::Mint));
    let mut a = good;
    a.vault.key = key(77);
    fails(a, AccountsError::Seeds(AccountName::Vault));
    let mut a = good;
    a.vault_token_account.key = key(77);
    fails(a, AccountsError::Seeds(AccountName::VaultTokenAccount));
}

#[test]
fn closing_is_refused_for_each_rule() {
    let good = close_accounts();
    let program = key(PROGRAM);
    let fails = |accounts: CloseVault, error: AccountsError| {
        assert_eq!(accounts.validate(&program), Err(error));
    };
    let mut a = good;
    a.owner.is_writable = false;
    a.owner.key = key(77);
    fails(a, AccountsError::Mut(AccountName::Owner));
    let mut a = good;
    a.owner.key = key(77);
    fails(a, AccountsError::Address(AccountName::Owner));
    let mut a = good;
    a.vault.data.mint = key(77);
    fails(a, AccountsError::Seeds(AccountName::Vault));
    let mut a = good;
    a.vault.data.initialized = false;
    fails(a, AccountsError::Raw(AccountName::Vault));
    let mut a = good;
    a.vault_authority.key = key(77);
    fails(a, AccountsError::Seeds(AccountName::VaultAuthority));
}

#[test]
fn vault_is_not_closed_into_itself() {
    let mut accounts = close_accounts();
    accounts.owner.key = accounts.vault.key;
    accounts.vault.data.owner = accounts.vault.key;
    let addresses = StoredAddresses {
        vault: Some(accounts.vault.key),
        vault_authority: Some(accounts.vault_authority.key),
        vault_token_account: Some(accounts.vault_token_account.key),
    };
    assert_eq!(
        accounts.check(&addresses),
        Err(AccountsError::Close(AccountName::Vault))
    );
}

#[test]
fn underived_address_is_refused() {
    let accounts = deposit_accounts();
    let mut addresses = accounts.addresses(&key(PROGRAM));
    assert_eq!(addresses.vault, Some(accounts.vault.key));
    assert_eq!(addresses.vault_authority, Some(accounts.vault_authority.key));
    assert_eq!(addresses.vault_token_account, Some(accounts.vault_token_account.key));
    addresses.vault = None;
    assert_eq!(accounts.check(&addresses), Err(AccountsError::Seeds(AccountName::Vault)));
}
