//! What holds of every sequence of instructions on a vault.
//!
//! A history is a list of events on one vault: the instructions that were tried, and
//! tokens that somebody sent to the vault's token account without any instruction. An
//! instruction that is refused leaves everything as it was; one whose transfer fails
//! leaves no trace either, and is not in the list.

use crate::accounts::{
    stored_addresses, vault_rules_hold, CloseVault, Deposit, FoundAddresses, InitializeVault,
    Interest, Signer, SystemAccount, TokenAccount, VaultAccount, Withdraw,
};
use crate::error::ErrorCode;
use crate::instructions::{
    close_vault, deposit, deposit_refusal, initialize_vault, interest_due, opened_vault,
    send_interest, withdraw, withdrawal_refusal, PendingClose, PendingDeposit, PendingInterest,
    PendingVault, PendingWithdrawal,
};
use crate::pubkey::Pubkey;
use crate::state::{Bumps, Vault, INTEREST_COOLDOWN_SECONDS};
use vstd::prelude::*;

verus! {

/// A vault's books and the tokens in its token account.
pub struct Holding {
    pub vault: Vault,
    pub tokens: int,
}

/// Something that happens to a vault.
pub enum Event {
    /// The owner deposits.
    Deposit { amount: u64 },
    /// The owner withdraws.
    Withdrawal { amount: u64 },
    /// Somebody pays interest at a time.
    Interest { sender: Pubkey, unix_timestamp: i64 },
    /// Somebody sends tokens past the program.
    Gift { amount: u64 },
}

/// What an event makes of a holding, or why it is refused.
pub open spec fn outcome(holding: Holding, event: Event) -> Result<Holding, ErrorCode> {
    match event {
        Event::Deposit { amount } => match deposit_refusal(amount) {
            Some(error) => Err(error),
            None => settled(holding.vault.after_deposit(amount), holding.tokens + amount),
        },
        Event::Withdrawal { amount } => match withdrawal_refusal(amount, holding.tokens) {
            Some(error) => Err(error),
            None => settled(holding.vault.after_withdrawal(amount), holding.tokens - amount),
        },
        Event::Interest { sender, unix_timestamp } => match interest_due(
            holding.vault,
            sender,
            holding.vault.owner,
            unix_timestamp,
        ) {
            Err(error) => Err(error),
            Ok(amount) => settled(
                holding.vault.after_interest(amount, unix_timestamp),
                holding.tokens + amount,
            ),
        },
        Event::Gift { amount } => Ok(Holding { tokens: holding.tokens + amount, ..holding }),
    }
}

/// The holding with the new books, where they could be kept.
pub open spec fn settled(vault: Result<Vault, ErrorCode>, tokens: int) -> Result<
    Holding,
    ErrorCode,
> {
    match vault {
        Ok(vault) => Ok(Holding { vault, tokens }),
        Err(error) => Err(error),
    }
}

/// The holding after an event.
pub open spec fn next(holding: Holding, event: Event) -> Holding {
    match outcome(holding, event) {
        Ok(after) => after,
        Err(_) => holding,
    }
}

/// The holding after a history.
pub open spec fn run(holding: Holding, events: Seq<Event>) -> Holding
    decreases events.len(),
{
    if events.len() == 0 {
        holding
    } else {
        next(run(holding, events.drop_last()), events.last())
    }
}

/// The tokens that were sent past the program.
pub open spec fn gifts(events: Seq<Event>) -> int
    decreases events.len(),
{
    if events.len() == 0 {
        0
    } else {
        gifts(events.drop_last()) + match events.last() {
            Event::Gift { amount } => amount as int,
            _ => 0,
        }
    }
}

/// The number of payments of interest that were accepted.
pub open spec fn payments(holding: Holding, events: Seq<Event>) -> int
    decreases events.len(),
{
    if events.len() == 0 {
        0
    } else {
        let before = run(holding, events.drop_last());
        payments(holding, events.drop_last()) + if events.last() is Interest && outcome(
            before,
            events.last(),
        ) is Ok {
            1int
        } else {
            0int
        }
    }
}

/// What the vault holds by its own books.
pub open spec fn booked(vault: Vault) -> int {
    vault.deposited_amount + vault.interest() - vault.withdrawn_amount
}

/// Whether two states of the books are of the same vault.
pub open spec fn same_vault(a: Vault, b: Vault) -> bool {
    &&& a.owner == b.owner
    &&& a.mint == b.mint
    &&& a.bumps == b.bumps
    &&& a.initialized == b.initialized
}

/// A vault is opened as the histories here begin: with the books of `opened_vault`, and
/// with the first deposit in its token account.
pub proof fn law_opening_begins_a_history(
    accounts: InitializeVault,
    bumps: Bumps,
    amount: u64,
    unix_timestamp: i64,
    pending: PendingVault,
    vault: Vault,
)
    requires
        call_ensures(initialize_vault, (&accounts, bumps, amount), Ok(pending)),
        call_ensures(PendingVault::finish, (pending, unix_timestamp), vault),
    ensures
        vault == opened_vault(
            accounts.owner.key,
            accounts.mint.key,
            bumps,
            amount,
            unix_timestamp,
        ),
        pending.amount == amount,
        amount > 0,
{
}

/// The instruction `deposit`, from its decision to its end, is the event of a deposit.
pub proof fn law_deposit_is_its_event(
    accounts: Deposit,
    amount: u64,
    decided: Result<PendingDeposit, ErrorCode>,
    finished: Result<Vault, ErrorCode>,
)
    requires
        call_ensures(deposit, (&accounts, amount), decided),
        decided matches Ok(pending) ==> call_ensures(
            PendingDeposit::finish,
            (pending,),
            finished,
        ),
    ensures
        ({
            let balance = accounts.vault_token_account.amount as int;
            let before = Holding { vault: accounts.vault.data, tokens: balance };
            outcome(before, Event::Deposit { amount }) == match decided {
                Ok(pending) => settled(finished, balance + pending.amount),
                Err(error) => Err(error),
            }
        }),
{
}

/// The instruction `withdraw`, from its decision to its end, is the event of a withdrawal.
pub proof fn law_withdraw_is_its_event(
    accounts: Withdraw,
    amount: u64,
    decided: Result<PendingWithdrawal, ErrorCode>,
    finished: Result<Vault, ErrorCode>,
)
    requires
        call_ensures(withdraw, (&accounts, amount), decided),
        decided matches Ok(pending) ==> call_ensures(
            PendingWithdrawal::finish,
            (pending,),
            finished,
        ),
    ensures
        ({
            let balance = accounts.vault_token_account.amount as int;
            let before = Holding { vault: accounts.vault.data, tokens: balance };
            outcome(before, Event::Withdrawal { amount }) == match decided {
                Ok(pending) => settled(finished, balance - pending.amount),
                Err(error) => Err(error),
            }
        }),
{
}

/// The instruction `send_interest`, from its decision to its end, is the event of a
/// payment of interest, given that the owner is the vault's.
pub proof fn law_send_interest_is_its_event(
    accounts: Interest,
    unix_timestamp: i64,
    decided: Result<PendingInterest, ErrorCode>,
    finished: Result<Vault, ErrorCode>,
)
    requires
        accounts.owner.key == accounts.vault.data.owner,
        call_ensures(send_interest, (&accounts, unix_timestamp), decided),
        decided matches Ok(pending) ==> call_ensures(
            PendingInterest::finish,
            (pending,),
            finished,
        ),
    ensures
        ({
            let balance = accounts.vault_token_account.amount as int;
            let before = Holding { vault: accounts.vault.data, tokens: balance };
            outcome(
                before,
                Event::Interest { sender: accounts.sender.key, unix_timestamp },
            ) == match decided {
                Ok(pending) => settled(finished, balance + pending.amount),
                Err(error) => Err(error),
            }
        }),
{
}

/// Nothing that happens to a vault changes whose it is, of which mint, where its
/// accounts are, or that it was opened.
pub proof fn law_identity_is_kept(holding: Holding, events: Seq<Event>)
    ensures
        same_vault(run(holding, events).vault, holding.vault),
    decreases events.len(),
{
    if events.len() != 0 {
        law_identity_is_kept(holding, events.drop_last());
    }
}

/// The totals in the books and the time of the last payment never go back.
pub proof fn law_totals_never_shrink(holding: Holding, events: Seq<Event>)
    ensures
        run(holding, events).vault.deposited_amount >= holding.vault.deposited_amount,
        run(holding, events).vault.withdrawn_amount >= holding.vault.withdrawn_amount,
        run(holding, events).vault.interest() >= holding.vault.interest(),
        run(holding, events).vault.last_interest_timestamp >= holding.vault.last_interest_timestamp,
    decreases events.len(),
{
    if events.len() != 0 {
        law_totals_never_shrink(holding, events.drop_last());
    }
}

/// The books follow the tokens: whatever happens, the token account gains what the
/// books gain and the gifts.
pub proof fn law_books_follow_tokens(holding: Holding, events: Seq<Event>)
    ensures
        run(holding, events).tokens - holding.tokens == booked(run(holding, events).vault) - booked(
            holding.vault,
        ) + gifts(events),
    decreases events.len(),
{
    if events.len() != 0 {
        law_books_follow_tokens(holding, events.drop_last());
    }
}

/// The tokens that were sent past the program are never negative.
proof fn lemma_gifts_not_negative(events: Seq<Event>)
    ensures
        gifts(events) >= 0,
    decreases events.len(),
{
    if events.len() != 0 {
        lemma_gifts_not_negative(events.drop_last());
    }
}

/// A vault that was opened with its first deposit always holds at least what its books
/// say.
pub proof fn law_books_are_covered(
    owner: Pubkey,
    mint: Pubkey,
    bumps: Bumps,
    amount: u64,
    unix_timestamp: i64,
    events: Seq<Event>,
)
    ensures
        ({
            let vault = opened_vault(owner, mint, bumps, amount, unix_timestamp);
            let holding = run(Holding { vault, tokens: amount as int }, events);
            holding.tokens >= booked(holding.vault)
        }),
{
    let vault = opened_vault(owner, mint, bumps, amount, unix_timestamp);
    law_books_follow_tokens(Holding { vault, tokens: amount as int }, events);
    lemma_gifts_not_negative(events);
}

/// Whatever happened to a vault since it was opened, its owner can withdraw all of the
/// principal that is left, and none is left then.
pub proof fn law_principal_can_be_withdrawn(
    owner: Pubkey,
    mint: Pubkey,
    bumps: Bumps,
    amount: u64,
    unix_timestamp: i64,
    events: Seq<Event>,
)
    ensures
        ({
            let vault = opened_vault(owner, mint, bumps, amount, unix_timestamp);
            let holding = run(Holding { vault, tokens: amount as int }, events);
            holding.vault.principal() matches Some(principal) ==> principal > 0 ==> {
                &&& outcome(holding, Event::Withdrawal { amount: principal }) matches Ok(after)
                &&& after.vault.principal() == Some(0u64)
            }
        }),
{
    law_books_are_covered(owner, mint, bumps, amount, unix_timestamp, events);
}

/// When a vault that was opened with its first deposit holds no tokens, so that it can be
/// closed, all that was ever deposited and all the interest have been withdrawn.
pub proof fn law_empty_vault_owes_nothing(
    owner: Pubkey,
    mint: Pubkey,
    bumps: Bumps,
    amount: u64,
    unix_timestamp: i64,
    events: Seq<Event>,
)
    ensures
        ({
            let vault = opened_vault(owner, mint, bumps, amount, unix_timestamp);
            let holding = run(Holding { vault, tokens: amount as int }, events);
            holding.tokens == 0 ==> holding.vault.withdrawn_amount
                >= holding.vault.deposited_amount + holding.vault.interest()
        }),
{
    law_books_are_covered(owner, mint, bumps, amount, unix_timestamp, events);
}

/// Payments of interest are at least the cooldown apart: so many of them take at least
/// so many cooldowns since the last one before them, or since the vault was opened.
pub proof fn law_payments_are_spaced(holding: Holding, events: Seq<Event>)
    ensures
        payments(holding, events) * INTEREST_COOLDOWN_SECONDS <= run(
            holding,
            events,
        ).vault.last_interest_timestamp - holding.vault.last_interest_timestamp,
    decreases events.len(),
{
    if events.len() != 0 {
        law_payments_are_spaced(holding, events.drop_last());
    }
}

/// After a payment of interest the next one is refused until the cooldown is over,
/// whatever happens to the vault in between. The error is that of the cooldown, unless the
/// clock is so far behind the last payment that the difference falls below `i64::MIN`.
pub proof fn law_cooldown_is_enforced(
    holding: Holding,
    sender: Pubkey,
    paid_at: i64,
    events: Seq<Event>,
    next_sender: Pubkey,
    tried_at: i64,
)
    requires
        outcome(holding, Event::Interest { sender, unix_timestamp: paid_at }) is Ok,
        tried_at - paid_at < INTEREST_COOLDOWN_SECONDS,
    ensures
        ({
            let paid = next(holding, Event::Interest { sender, unix_timestamp: paid_at });
            let tried = Event::Interest { sender: next_sender, unix_timestamp: tried_at };
            &&& outcome(run(paid, events), tried) matches Err(error)
            &&& error == ErrorCode::InterestCooldownNotElapsed || error
                == ErrorCode::InvalidDepositAmount
            &&& tried_at - run(paid, events).vault.last_interest_timestamp >= i64::MIN ==> error
                == ErrorCode::InterestCooldownNotElapsed
        }),
{
    let paid = next(holding, Event::Interest { sender, unix_timestamp: paid_at });
    law_totals_never_shrink(paid, events);
}

/// Interest is paid on the principal alone: what is due does not depend on the interest
/// earned before, and a payment leaves the principal as it is.
pub proof fn law_interest_ignores_interest(
    vault: Vault,
    earned: Option<u64>,
    sender: Pubkey,
    unix_timestamp: i64,
    amount: u64,
)
    ensures
        interest_due(
            Vault { interest_earned: earned, ..vault },
            sender,
            vault.owner,
            unix_timestamp,
        ) == interest_due(vault, sender, vault.owner, unix_timestamp),
        vault.after_interest(amount, unix_timestamp) matches Ok(after) ==> after.principal()
            == vault.principal(),
{
}

/// Interest does not compound: while nothing is deposited or withdrawn, each payment is
/// a hundredth of the same principal.
pub proof fn law_interest_does_not_compound(holding: Holding, events: Seq<Event>)
    requires
        forall|i: int|
            0 <= i < events.len() ==> (#[trigger] events[i] is Interest || events[i] is Gift),
    ensures
        run(holding, events).vault.principal() == holding.vault.principal(),
        holding.vault.principal() matches Some(principal) ==> run(holding, events).vault.interest()
            == holding.vault.interest() + payments(holding, events) * (principal / 100) as int,
        holding.vault.principal() is None ==> payments(holding, events) == 0,
    decreases events.len(),
{
    if events.len() != 0 {
        let earlier = events.drop_last();
        assert forall|i: int| 0 <= i < earlier.len() implies (#[trigger] earlier[i] is Interest
            || earlier[i] is Gift) by {
            assert(earlier[i] == events[i]);
        }
        law_interest_does_not_compound(holding, earlier);
        assert(events.last() == events[events.len() - 1]);
        if let Some(principal) = holding.vault.principal() {
            let before = payments(holding, earlier);
            let share = (principal / 100) as int;
            assert((before + 1) * share == before * share + share) by (nonlinear_arith);
        }
    }
}

/// An owner pays no interest into a vault of their own.
pub proof fn law_owner_pays_no_interest(holding: Holding, unix_timestamp: i64)
    ensures
        outcome(holding, Event::Interest { sender: holding.vault.owner, unix_timestamp }) is Err,
{
}

/// A vault from which more was withdrawn than deposited earns no interest, whoever
/// sends it and whenever.
pub proof fn law_overdrawn_vault_earns_nothing(holding: Holding, sender: Pubkey, unix_timestamp: i64)
    requires
        holding.vault.withdrawn_amount > holding.vault.deposited_amount,
    ensures
        outcome(holding, Event::Interest { sender, unix_timestamp }) is Err,
{
}

/// A withdrawal undoes a deposit: principal, tokens and everything but the two totals
/// are what they were. Left out are withdrawals that the books cannot take up.
pub proof fn law_withdrawal_undoes_deposit(holding: Holding, amount: u64)
    requires
        holding.tokens >= 0,
        outcome(holding, Event::Deposit { amount }) is Ok,
        holding.vault.withdrawn_amount + amount <= u64::MAX,
    ensures
        outcome(
            next(holding, Event::Deposit { amount }),
            Event::Withdrawal { amount },
        ) matches Ok(after) && {
            &&& after.tokens == holding.tokens
            &&& after.vault.principal() == holding.vault.principal()
            &&& after.vault == Vault {
                deposited_amount: after.vault.deposited_amount,
                withdrawn_amount: after.vault.withdrawn_amount,
                ..holding.vault
            }
        },
{
}

/// The account with the books of a vault that was opened with the given accounts and to
/// which a history has happened since.
pub open spec fn books_of(
    opened: InitializeVault,
    bumps: Bumps,
    amount: u64,
    unix_timestamp: i64,
    events: Seq<Event>,
) -> VaultAccount {
    let vault = opened_vault(opened.owner.key, opened.mint.key, bumps, amount, unix_timestamp);
    VaultAccount {
        key: opened.vault.key,
        is_writable: true,
        data: run(Holding { vault, tokens: amount as int }, events).vault,
    }
}

/// The accounts with which a vault was opened are the vault's accounts ever after:
/// whatever has happened, the addresses found for them derive again from the bumps in the
/// books.
pub proof fn law_opened_accounts_are_recognised(
    opened: InitializeVault,
    found: FoundAddresses,
    program_id: Pubkey,
    amount: u64,
    unix_timestamp: i64,
    events: Seq<Event>,
)
    requires
        opened.addresses_found(found, program_id@),
        opened.valid(found),
    ensures
        opened.opening(found) matches Ok(bumps) && ({
            let books = books_of(opened, bumps, amount, unix_timestamp, events);
            &&& books.data.owner == opened.owner.key
            &&& books.data.mint == opened.mint.key
            &&& vault_rules_hold(
                books,
                opened.vault_authority,
                opened.vault_token_account,
                stored_addresses(opened.owner.key, opened.mint.key, books, program_id@),
            )
        }),
{
    if let Ok(bumps) = opened.opening(found) {
        let vault = opened_vault(opened.owner.key, opened.mint.key, bumps, amount, unix_timestamp);
        law_identity_is_kept(Holding { vault, tokens: amount as int }, events);
    }
}

/// Whoever opened a vault can deposit into it, withdraw from it and close it with the
/// accounts it was opened with, and anybody with a token account for its mint can send it
/// interest: none of the accounts is refused, whatever has happened to the vault since.
/// A vault is not closed into itself.
pub proof fn law_opened_vault_stays_usable(
    opened: InitializeVault,
    found: FoundAddresses,
    program_id: Pubkey,
    amount: u64,
    unix_timestamp: i64,
    events: Seq<Event>,
    sender: Signer,
    sender_token_account: TokenAccount,
)
    requires
        opened.addresses_found(found, program_id@),
        opened.valid(found),
        sender_token_account.is_writable,
        sender_token_account.owner == sender.key,
        sender_token_account.mint == opened.mint.key,
    ensures
        opened.opening(found) matches Ok(bumps) && ({
            let books = books_of(opened, bumps, amount, unix_timestamp, events);
            let deposit = Deposit {
                owner: opened.owner,
                owner_token_account: opened.owner_token_account,
                mint: opened.mint,
                vault: books,
                vault_authority: opened.vault_authority,
                vault_token_account: opened.vault_token_account,
                token_program: opened.token_program,
            };
            let withdraw = Withdraw {
                owner: opened.owner,
                owner_token_account: opened.owner_token_account,
                mint: opened.mint,
                vault: books,
                vault_authority: opened.vault_authority,
                vault_token_account: opened.vault_token_account,
                token_program: opened.token_program,
            };
            let interest = Interest {
                sender,
                sender_token_account,
                owner: SystemAccount { key: opened.owner.key },
                owner_token_account: opened.owner_token_account,
                mint: opened.mint,
                vault: books,
                vault_authority: opened.vault_authority,
                vault_token_account: opened.vault_token_account,
                token_program: opened.token_program,
            };
            let close = CloseVault {
                owner: opened.owner,
                vault: books,
                vault_authority: opened.vault_authority,
                vault_token_account: opened.vault_token_account,
                token_program: opened.token_program,
            };
            &&& deposit.valid(deposit.addresses_spec(program_id@))
            &&& withdraw.valid(withdraw.addresses_spec(program_id@))
            &&& interest.valid(interest.addresses_spec(program_id@))
            &&& opened.vault.key != opened.owner.key ==> close.valid(
                close.addresses_spec(program_id@),
            )
        }),
{
    law_opened_accounts_are_recognised(
        opened,
        found,
        program_id,
        amount,
        unix_timestamp,
        events,
    );
}

/// With valid accounts only the owner withdraws, and only to a token account of their own
/// for the vault's mint; and the seeds that sign the transfer derive the very authority
/// that it names, under which the vault's tokens are.
pub proof fn law_withdrawals_are_the_owners(
    accounts: Withdraw,
    program_id: Pubkey,
    amount: u64,
    pending: PendingWithdrawal,
)
    requires
        accounts.valid(accounts.addresses_spec(program_id@)),
        call_ensures(withdraw, (&accounts, amount), Ok(pending)),
    ensures
        accounts.owner.key == accounts.vault.data.owner,
        pending.transfer@.accounts.to == accounts.owner_token_account.key,
        accounts.owner_token_account.owner == accounts.vault.data.owner,
        accounts.owner_token_account.mint == accounts.vault.data.mint,
        pending.transfer@.accounts.from == accounts.vault_token_account.key,
        accounts.vault_token_account.owner == pending.transfer@.accounts.authority,
        pending.transfer@.signer_seeds.len() == 1,
        crate::pda::program_address(pending.transfer@.signer_seeds[0], program_id@) == Some(
            pending.transfer@.accounts.authority@,
        ),
{
}

/// With valid accounts only the owner closes a vault, and the rent of both accounts goes
/// to the owner; and the seeds that sign the call derive the very authority that it names,
/// under which the vault's token account is.
pub proof fn law_closing_is_the_owners(
    accounts: CloseVault,
    program_id: Pubkey,
    pending: PendingClose,
)
    requires
        accounts.valid(accounts.addresses_spec(program_id@)),
        call_ensures(close_vault, (&accounts,), Ok(pending)),
    ensures
        accounts.owner.key == accounts.vault.data.owner,
        pending.call@.accounts.destination == accounts.vault.data.owner,
        pending.destination == accounts.vault.data.owner,
        accounts.vault_token_account.amount == 0,
        accounts.vault_token_account.owner == pending.call@.accounts.authority,
        pending.call@.signer_seeds.len() == 1,
        crate::pda::program_address(pending.call@.signer_seeds[0], program_id@) == Some(
            pending.call@.accounts.authority@,
        ),
{
}

/// With valid accounts only the owner deposits, and from a token account of their own for
/// the vault's mint.
pub proof fn law_deposits_are_the_owners(
    accounts: Deposit,
    program_id: Pubkey,
    amount: u64,
    pending: PendingDeposit,
)
    requires
        accounts.valid(accounts.addresses_spec(program_id@)),
        call_ensures(deposit, (&accounts, amount), Ok(pending)),
    ensures
        accounts.owner.key == accounts.vault.data.owner,
        pending.transfer@.accounts.authority == accounts.owner.key,
        pending.transfer@.accounts.from == accounts.owner_token_account.key,
        accounts.owner_token_account.owner == accounts.owner.key,
        accounts.owner_token_account.mint == accounts.vault.data.mint,
        pending.transfer@.accounts.to == accounts.vault_token_account.key,
        accounts.vault_token_account.mint == accounts.vault.data.mint,
{
}

/// With valid accounts interest is paid by a signer who is not the owner, and from a token
/// account of their own for the vault's mint.
pub proof fn law_interest_is_a_strangers(
    accounts: Interest,
    program_id: Pubkey,
    unix_timestamp: i64,
    pending: PendingInterest,
)
    requires
        accounts.valid(accounts.addresses_spec(program_id@)),
        call_ensures(send_interest, (&accounts, unix_timestamp), Ok(pending)),
    ensures
        accounts.sender.key != accounts.vault.data.owner,
        pending.transfer@.accounts.authority == accounts.sender.key,
        pending.transfer@.accounts.from == accounts.sender_token_account.key,
        accounts.sender_token_account.owner == accounts.sender.key,
        accounts.sender_token_account.mint == accounts.vault.data.mint,
        pending.transfer@.accounts.to == accounts.vault_token_account.key,
        accounts.vault_token_account.mint == accounts.vault.data.mint,
{
}

} // verus!
