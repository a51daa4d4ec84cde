use vault::accounts::{Mint, NewAccount, Signer, SystemAccount, TokenAccount, VaultAccount};
use vault::cpi::{CloseAccount, Transfer};
use vault::{
    close_vault, deposit, initialize_vault, send_interest, withdraw, Bumps, CloseVault, Deposit,
    ErrorCode, InitializeVault, Interest, Pubkey, Vault, Withdraw,
};

const DAY: i64 = 86400;

fn key(n: u8) -> Pubkey {
    Pubkey::new_from_array([n; 32])
}

fn bumps() -> Bumps {
    Bumps { vault: 255, vault_authority: 254, vault_token_account: 253 }
}

fn tokens(at: u8, owner: u8, amount: u64) -> TokenAccount {
    TokenAccount { key: key(at), is_writable: true, mint: key(2), owner: key(owner), amount }
}

fn signer(n: u8) -> Signer {
    Signer { key: key(n), is_writable: true }
}

fn mint() -> Mint {
    Mint { key: key(2), is_initialized: true }
}

fn books(vault: Vault) -> VaultAccount {
    VaultAccount { key: key(10), is_writable: true, data: vault }
}

fn opening_accounts() -> InitializeVault {
    InitializeVault {
        owner: signer(1),
        mint: mint(),
        owner_token_account: tokens(3, 1, 5000),
        vault: NewAccount { key: key(10), is_writable: true },
        vault_authority: SystemAccount { key: key(11) },
        vault_token_account: tokens(12, 11, 0),
        token_program: key(9),
    }
}

fn deposit_accounts(vault: Vault, balance: u64) -> Deposit {
    Deposit {
        owner: signer(1),
        owner_token_account: tokens(3, 1, 5000),
        mint: mint(),
        vault: books(vault),
        vault_authority: SystemAccount { key: key(11) },
        vault_token_account: tokens(12, 11, balance),
        token_program: key(9),
    }
}

fn withdraw_accounts(vault: Vault, balance: u64) -> Withdraw {
    Withdraw {
        owner: signer(1),
        owner_token_account: tokens(3, 1, 5000),
        mint: mint(),
        vault: books(vault),
        vault_authority: SystemAccount { key: key(11) },
        vault_token_account: tokens(12, 11, balance),
        token_program: key(9),
    }
}

fn interest_accounts(sender: u8, vault: Vault) -> Interest {
    Interest {
        sender: signer(sender),
        sender_token_account: tokens(6, sender, 700),
        owner: SystemAccount { key: key(1) },
        owner_token_account: tokens(3, 1, 5000),
        mint: mint(),
        vault: books(vault),
        vault_authority: SystemAccount { key: key(11) },
        vault_token_account: tokens(12, 11, 0),
        token_program: key(9),
    }
}

fn close_accounts(vault: Vault, balance: u64) -> CloseVault {
    CloseVault {
        owner: signer(1),
        vault: books(vault),
        vault_authority: SystemAccount { key: key(11) },
        vault_token_account: tokens(12, 11, balance),
        token_program: key(9),
    }
}

fn opened(amount: u64, at: i64) -> Vault {
    initialize_vault(&opening_accounts(), bumps(), amount).unwrap().finish(at)
}

fn pay(sender: u8, vault: Vault, at: i64) -> Result<(u64, Vault), ErrorCode> {
    let pending = send_interest(&interest_accounts(sender, vault), at)?;
    let amount = pending.amount;
    Ok((amount, pending.finish()?))
}

fn authority_seeds() -> Vec<Vec<Vec<u8>>> {
    vec![vec![b"authority".to_vec(), vec![10; 32], vec![254]]]
}

#[test]
fn opening_moves_the_first_deposit() {
    let pending = initialize_vault(&opening_accounts(), bumps(), 1000).unwrap();
    assert_eq!(pending.transfer.program, key(9));
    assert_eq!(
        pending.transfer.accounts,
        Transfer { from: key(3), to: key(12), authority: key(1) }
    );
    assert!(pending.transfer.signer_seeds.is_empty());
    assert_eq!(pending.amount, 1000);
    assert_eq!(
        pending.finish(-7),
        Vault {
            deposited_amount: 1000,
            withdrawn_amount: 0,
            interest_earned: None,
            initialized: true,
            owner: key(1),
            mint: key(2),
            bumps: bumps(),
            last_interest_timestamp: -7,
        }
    );
}

#[test]
fn opening_without_deposit_is_refused() {
    assert_eq!(
        initialize_vault(&opening_accounts(), bumps(), 0),
        Err(ErrorCode::InvalidDepositAmount)
    );
}

#[test]
fn deposit_moves_tokens_and_is_booked() {
    let vault = opened(1000, 0);
    let pending = deposit(&deposit_accounts(vault, 1000), 250).unwrap();
    assert_eq!(pending.transfer.program, key(9));
    assert_eq!(
        pending.transfer.accounts,
        Transfer { from: key(3), to: key(12), authority: key(1) }
    );
    assert!(pending.transfer.signer_seeds.is_empty());
    assert_eq!(pending.amount, 250);
    assert_eq!(pending.finish(), Ok(Vault { deposited_amount: 1250, ..vault }));
}

#[test]
fn empty_deposit_is_refused() {
    assert_eq!(
        deposit(&deposit_accounts(opened(1000, 0), 1000), 0),
        Err(ErrorCode::InvalidDepositAmount)
    );
}

#[test]
fn deposit_that_overflows_the_books_is_refused_at_the_end() {
    let vault = opened(u64::MAX - 1, 0);
    let pending = deposit(&deposit_accounts(vault, 0), 2).unwrap();
    assert_eq!(pending.finish(), Err(ErrorCode::InvalidDepositAmount));
    let pending = deposit(&deposit_accounts(vault, 0), 1).unwrap();
    assert_eq!(pending.finish(), Ok(Vault { deposited_amount: u64::MAX, ..vault }));
}

#[test]
fn withdrawal_is_signed_by_the_authority_and_booked() {
    let vault = opened(1000, 0);
    let pending = withdraw(&withdraw_accounts(vault, 1000), 1000).unwrap();
    assert_eq!(pending.transfer.program, key(9));
    assert_eq!(
        pending.transfer.accounts,
        Transfer { from: key(12), to: key(3), authority: key(11) }
    );
    assert_eq!(pending.transfer.signer_seeds, authority_seeds());
    assert_eq!(pending.amount, 1000);
    assert_eq!(pending.finish(), Ok(Vault { withdrawn_amount: 1000, ..vault }));
}

#[test]
fn withdrawal_of_nothing_or_too_much_is_refused() {
    let vault = opened(1000, 0);
    assert_eq!(
        withdraw(&withdraw_accounts(vault, 1000), 0),
        Err(ErrorCode::InvalidWithdrawAmount)
    );
    assert_eq!(
        withdraw(&withdraw_accounts(vault, 1000), 1001),
        Err(ErrorCode::InvalidWithdrawAmount)
    );
    assert_eq!(
        withdraw(&withdraw_accounts(vault, 0), 1),
        Err(ErrorCode::InvalidWithdrawAmount)
    );
}

#[test]
fn withdrawal_that_overflows_the_books_is_refused_at_the_end() {
    let vault = Vault { withdrawn_amount: u64::MAX, ..opened(1000, 0) };
    let pending = withdraw(&withdraw_accounts(vault, 1), 1).unwrap();
    assert_eq!(pending.finish(), Err(ErrorCode::InvalidWithdrawAmount));
}

#[test]
fn interest_is_one_percent_of_the_principal() {
    let vault = Vault { withdrawn_amount: 1, ..opened(1000, 0) };
    let pending = send_interest(&interest_accounts(5, vault), DAY).unwrap();
    assert_eq!(pending.transfer.program, key(9));
    assert_eq!(
        pending.transfer.accounts,
        Transfer { from: key(6), to: key(12), authority: key(5) }
    );
    assert!(pending.transfer.signer_seeds.is_empty());
    assert_eq!(pending.amount, 9);
    assert_eq!(
        pending.finish(),
        Ok(Vault { interest_earned: Some(9), last_interest_timestamp: DAY, ..vault })
    );
}

#[test]
fn interest_waits_for_the_cooldown() {
    let vault = opened(1000, 100);
    assert_eq!(pay(5, vault, 100 + DAY - 1), Err(ErrorCode::InterestCooldownNotElapsed));
    assert_eq!(pay(5, vault, 99), Err(ErrorCode::InterestCooldownNotElapsed));
    let (amount, vault) = pay(5, vault, 100 + DAY).unwrap();
    assert_eq!(amount, 10);
    assert_eq!(pay(5, vault, 100 + DAY), Err(ErrorCode::InterestCooldownNotElapsed));
    assert_eq!(pay(7, vault, 99 + 2 * DAY), Err(ErrorCode::InterestCooldownNotElapsed));
    assert!(pay(7, vault, 100 + 2 * DAY).is_ok());
}

#[test]
fn interest_with_a_clock_out_of_range_is_refused() {
    assert_eq!(pay(5, opened(1000, 1), i64::MIN), Err(ErrorCode::InvalidDepositAmount));
    assert_eq!(pay(5, opened(1000, -1), i64::MAX), Err(ErrorCode::InvalidDepositAmount));
    assert_eq!(pay(5, opened(1000, 0), i64::MIN), Err(ErrorCode::InterestCooldownNotElapsed));
    assert!(pay(5, opened(1000, 0), i64::MAX).is_ok());
}

#[test]
fn interest_on_too_little_is_refused() {
    assert_eq!(pay(5, opened(99, 0), DAY), Err(ErrorCode::InsufficientInterestEarned));
    assert_eq!(pay(5, opened(100, 0), DAY).unwrap().0, 1);
    assert_eq!(pay(5, opened(199, 0), DAY).unwrap().0, 1);
}

#[test]
fn overdrawn_vault_earns_no_interest() {
    let vault = Vault {
        withdrawn_amount: 1001,
        interest_earned: Some(50),
        ..opened(1000, 0)
    };
    assert_eq!(pay(5, vault, 10 * DAY), Err(ErrorCode::InvalidWithdrawAmount));
    let vault = deposit(&deposit_accounts(vault, 49), 101).unwrap().finish().unwrap();
    assert_eq!(pay(5, vault, 10 * DAY).unwrap().0, 1);
}

#[test]
fn owner_cannot_send_interest() {
    assert_eq!(pay(1, opened(1000, 0), DAY), Err(ErrorCode::InvalidInterestSender));
    // The earlier conditions are reported first.
    assert_eq!(pay(1, opened(10, 0), DAY), Err(ErrorCode::InsufficientInterestEarned));
    assert_eq!(pay(1, opened(1000, 0), 0), Err(ErrorCode::InterestCooldownNotElapsed));
}

#[test]
fn interest_that_overflows_the_books_is_refused_at_the_end() {
    let vault = Vault { interest_earned: Some(u64::MAX - 9), ..opened(1000, 0) };
    assert_eq!(pay(5, vault, DAY), Err(ErrorCode::InvalidDepositAmount));
    let vault = Vault { interest_earned: Some(u64::MAX - 10), ..opened(1000, 0) };
    assert_eq!(pay(5, vault, DAY).unwrap().1.interest_earned, Some(u64::MAX));
}

#[test]
fn interest_does_not_compound() {
    let mut vault = opened(10_000, 0);
    for day in 1..=50i64 {
        let (amount, after) = pay(5, vault, day * DAY).unwrap();
        assert_eq!(amount, 100);
        vault = after;
        assert_eq!(vault.interest_earned, Some(100 * day as u64));
    }
    assert_eq!(vault.deposited_amount, 10_000);
    assert_eq!(vault.last_interest_timestamp, 50 * DAY);
}

#[test]
fn withdrawal_undoes_a_deposit() {
    let vault = opened(1000, 0);
    let deposited = deposit(&deposit_accounts(vault, 1000), 300).unwrap().finish().unwrap();
    let after = withdraw(&withdraw_accounts(deposited, 1300), 300).unwrap().finish().unwrap();
    assert_eq!(
        after,
        Vault { deposited_amount: 1300, withdrawn_amount: 300, ..vault }
    );
    assert_eq!(pay(5, after, DAY).unwrap().0, pay(5, vault, DAY).unwrap().0);
}

#[test]
fn books_follow_the_tokens() {
    let mut balance = 1000u64;
    let mut vault = opened(1000, 0);
    vault = deposit(&deposit_accounts(vault, balance), 500).unwrap().finish().unwrap();
    balance += 500;
    let (paid, after) = pay(5, vault, DAY).unwrap();
    vault = after;
    balance += paid;
    vault = withdraw(&withdraw_accounts(vault, balance), 1200).unwrap().finish().unwrap();
    balance -= 1200;
    assert_eq!(balance, 315);
    assert_eq!(
        balance,
        vault.deposited_amount + vault.interest_earned.unwrap() - vault.withdrawn_amount
    );
    assert_eq!((vault.owner, vault.mint, vault.bumps), (key(1), key(2), bumps()));
    assert!(vault.initialized);
    // All of the principal can still be taken out, and the interest after it.
    vault = withdraw(&withdraw_accounts(vault, balance), 300).unwrap().finish().unwrap();
    vault = withdraw(&withdraw_accounts(vault, 15), 15).unwrap().finish().unwrap();
    assert!(close_vault(&close_accounts(vault, 0)).is_ok());
}

#[test]
fn closing_returns_the_rent_to_the_owner() {
    let pending = close_vault(&close_accounts(opened(1000, 0), 0)).unwrap();
    assert_eq!(pending.call.program, key(9));
    assert_eq!(
        pending.call.accounts,
        CloseAccount { account: key(12), destination: key(1), authority: key(11) }
    );
    assert_eq!(pending.call.signer_seeds, authority_seeds());
    assert_eq!(pending.vault, key(10));
    assert_eq!(pending.destination, key(1));
}

#[test]
fn closing_a_vault_with_tokens_is_refused() {
    assert_eq!(
        close_vault(&close_accounts(opened(1000, 0), 1)),
        Err(ErrorCode::VaultNotEmpty)
    );
}

#[test]
fn token_program_context_is_not_signed_by_an_address() {
    let vault = opened(1000, 0);
    let a = opening_accounts().token_program_context(5u8);
    assert_eq!((a.program, a.accounts, a.signer_seeds.len()), (key(9), 5, 0));
    let a = deposit_accounts(vault, 0).token_program_context(6u8);
    assert_eq!((a.program, a.accounts, a.signer_seeds.len()), (key(9), 6, 0));
    let a = withdraw_accounts(vault, 0).token_program_context(7u8);
    assert_eq!((a.program, a.accounts, a.signer_seeds.len()), (key(9), 7, 0));
    let a = interest_accounts(5, vault).token_program_context(8u8);
    assert_eq!((a.program, a.accounts, a.signer_seeds.len()), (key(9), 8, 0));
    let a = a.with_signer(authority_seeds());
    assert_eq!((a.program, a.accounts), (key(9), 8));
    assert_eq!(a.signer_seeds, authority_seeds());
}

#[test]
fn errors_have_their_numbers_and_messages() {
    let all = [
        (ErrorCode::InvalidDepositAmount, 6000, "Deposit amount must be greater than 0"),
        (
            ErrorCode::InvalidWithdrawAmount,
            6001,
            "Withdraw amount must be an amount available in the vault",
        ),
        (ErrorCode::InsufficientInterestEarned, 6002, "Interest should be greater than 0"),
        (
            ErrorCode::InvalidInterestSender,
            6003,
            "You cannot send interest to your own vault",
        ),
        (
            ErrorCode::InterestCooldownNotElapsed,
            6004,
            "Interest cooldown period has not elapsed (24h minimum)",
        ),
        (
            ErrorCode::VaultNotEmpty,
            6005,
            "Vault token account must be empty before closing",
        ),
    ];
    for (error, code, message) in all {
        assert_eq!(error.code(), code);
        assert_eq!(error.message(), message);
    }
}
