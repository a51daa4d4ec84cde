//! What each instruction does, said of its inputs and results field by field.
//!
//! The contracts speak through the functions that model the books. These laws speak of
//! the amounts, times and keys themselves, so that they hold the model as well as the code.

use crate::accounts::{CloseVault, Deposit, InitializeVault, Interest, Withdraw};
use crate::cpi::CpiContext;
use crate::error::ErrorCode;
use crate::history::{booked, gifts, next, outcome, payments, run, Event, Holding};
use crate::instructions::{
    close_vault, deposit, initialize_vault, opened_vault, send_interest, withdraw, PendingClose,
    PendingDeposit, PendingInterest, PendingVault, PendingWithdrawal,
};
use crate::pubkey::Pubkey;
use crate::state::{Bumps, Vault};
use vstd::prelude::*;

verus! {

/// There is a principal exactly where the withdrawals are within the deposits, and it is
/// what makes up the difference.
pub proof fn law_principal_makes_up_the_deposits(vault: Vault, p: u64)
    ensures
        vault.principal() == Some(p) <==> vault.withdrawn_amount + p == vault.deposited_amount,
        vault.principal() is None <==> vault.withdrawn_amount > vault.deposited_amount,
{
}

/// What the books say a vault holds is the deposits and the interest less the withdrawals.
pub proof fn law_booked_adds_up(vault: Vault)
    ensures
        vault.interest_earned is None ==> booked(vault) + vault.withdrawn_amount
            == vault.deposited_amount,
        vault.interest_earned matches Some(earned) ==> booked(vault) + vault.withdrawn_amount
            == vault.deposited_amount + earned,
{
}

/// A vault is opened exactly where the first deposit is not empty. The deposit is moved
/// from the owner's token account to the vault's, on the owner's signature alone.
pub proof fn law_opening_takes_any_deposit(
    accounts: InitializeVault,
    bumps: Bumps,
    amount: u64,
    r: Result<PendingVault, ErrorCode>,
)
    requires
        call_ensures(initialize_vault, (&accounts, bumps, amount), r),
    ensures
        r is Ok <==> amount > 0,
        r matches Err(error) ==> error == ErrorCode::InvalidDepositAmount,
        r matches Ok(pending) ==> {
            &&& pending.transfer.program == accounts.token_program
            &&& pending.transfer.accounts.from == accounts.owner_token_account.key
            &&& pending.transfer.accounts.to == accounts.vault_token_account.key
            &&& pending.transfer.accounts.authority == accounts.owner.key
            &&& pending.transfer.signer_seeds@.len() == 0
            &&& pending.amount == amount
            &&& pending.owner == accounts.owner.key
            &&& pending.mint == accounts.mint.key
            &&& pending.bumps == bumps
        },
{
    if let Ok(pending) = r {
        assert(pending.transfer@.signer_seeds.len() == 0);
    }
}

/// The books of a vault that was just opened account for the first deposit in full, have
/// nothing withdrawn and nothing earned, and start the cooldown at the time of opening,
/// whenever that is.
pub proof fn law_opening_books_the_deposit(
    pending: PendingVault,
    unix_timestamp: i64,
    vault: Vault,
)
    requires
        call_ensures(PendingVault::finish, (pending, unix_timestamp), vault),
    ensures
        vault.deposited_amount == pending.amount,
        vault.withdrawn_amount == 0,
        vault.interest_earned is None,
        vault.initialized,
        vault.owner == pending.owner,
        vault.mint == pending.mint,
        vault.bumps == pending.bumps,
        vault.last_interest_timestamp == unix_timestamp,
        booked(vault) == pending.amount,
{
}

/// Histories begin with the first deposit in the books, neither more nor less than the
/// tokens that were moved.
pub proof fn law_histories_begin_balanced(
    owner: Pubkey,
    mint: Pubkey,
    bumps: Bumps,
    amount: u64,
    unix_timestamp: i64,
)
    ensures
        ({
            let vault = opened_vault(owner, mint, bumps, amount, unix_timestamp);
            &&& booked(vault) == amount
            &&& vault.deposited_amount == amount
            &&& vault.withdrawn_amount == 0
            &&& vault.interest_earned is None
            &&& vault.initialized
            &&& vault.owner == owner
            &&& vault.mint == mint
            &&& vault.bumps == bumps
            &&& vault.last_interest_timestamp == unix_timestamp
        }),
{
}

/// A deposit is begun exactly where it is not empty, whatever the books say. It is moved
/// from the owner's token account to the vault's, on the owner's signature alone.
pub proof fn law_deposit_takes_any_amount(
    accounts: Deposit,
    amount: u64,
    r: Result<PendingDeposit, ErrorCode>,
)
    requires
        call_ensures(deposit, (&accounts, amount), r),
    ensures
        r is Ok <==> amount > 0,
        r matches Err(error) ==> error == ErrorCode::InvalidDepositAmount,
        r matches Ok(pending) ==> {
            &&& pending.transfer.program == accounts.token_program
            &&& pending.transfer.accounts.from == accounts.owner_token_account.key
            &&& pending.transfer.accounts.to == accounts.vault_token_account.key
            &&& pending.transfer.accounts.authority == accounts.owner.key
            &&& pending.transfer.signer_seeds@.len() == 0
            &&& pending.amount == amount
            &&& pending.vault == accounts.vault.data
        },
{
    if let Ok(pending) = r {
        assert(pending.transfer@.signer_seeds.len() == 0);
    }
}

/// A deposit whose tokens were moved is booked exactly where the total fits: the deposits
/// grow by the amount and nothing else in the books changes.
pub proof fn law_deposit_is_booked(pending: PendingDeposit, r: Result<Vault, ErrorCode>)
    requires
        call_ensures(PendingDeposit::finish, (pending,), r),
    ensures
        r is Ok <==> pending.vault.deposited_amount + pending.amount <= u64::MAX,
        r matches Err(error) ==> error == ErrorCode::InvalidDepositAmount,
        r matches Ok(after) ==> {
            &&& after.deposited_amount - pending.vault.deposited_amount == pending.amount
            &&& after.withdrawn_amount == pending.vault.withdrawn_amount
            &&& after.interest_earned == pending.vault.interest_earned
            &&& after.initialized == pending.vault.initialized
            &&& after.owner == pending.vault.owner
            &&& after.mint == pending.vault.mint
            &&& after.bumps == pending.vault.bumps
            &&& after.last_interest_timestamp == pending.vault.last_interest_timestamp
        },
{
}

/// Every deposit that is not empty and fits the books succeeds, whatever has happened to
/// the vault: the deposits and the tokens grow by the amount and the rest of the books
/// stays. Any other is refused.
pub proof fn law_every_fitting_deposit_succeeds(holding: Holding, amount: u64)
    ensures
        outcome(holding, Event::Deposit { amount }) is Ok <==> amount > 0
            && holding.vault.deposited_amount + amount <= u64::MAX,
        outcome(holding, Event::Deposit { amount }) matches Err(error) ==> error
            == ErrorCode::InvalidDepositAmount,
        outcome(holding, Event::Deposit { amount }) matches Ok(after) ==> {
            &&& after.tokens - holding.tokens == amount
            &&& after.vault.deposited_amount - holding.vault.deposited_amount == amount
            &&& after.vault.withdrawn_amount == holding.vault.withdrawn_amount
            &&& after.vault.interest_earned == holding.vault.interest_earned
            &&& after.vault.initialized == holding.vault.initialized
            &&& after.vault.owner == holding.vault.owner
            &&& after.vault.mint == holding.vault.mint
            &&& after.vault.bumps == holding.vault.bumps
            &&& after.vault.last_interest_timestamp == holding.vault.last_interest_timestamp
        },
{
}

/// A deposit made in two parts comes to the same as one made at once.
pub proof fn law_deposits_add_up(holding: Holding, first: u64, second: u64, both: u64)
    requires
        first > 0,
        second > 0,
        first + second == both,
        holding.vault.deposited_amount + both <= u64::MAX,
    ensures
        outcome(
            next(holding, Event::Deposit { amount: first }),
            Event::Deposit { amount: second },
        ) == outcome(holding, Event::Deposit { amount: both }),
        outcome(holding, Event::Deposit { amount: both }) is Ok,
{
}

/// A withdrawal is begun exactly where it is not empty and the vault's token account holds
/// it, whatever the books say. It is moved from the vault's token account to the owner's,
/// signed by the vault's authority.
pub proof fn law_withdrawal_takes_any_held_amount(
    accounts: Withdraw,
    amount: u64,
    r: Result<PendingWithdrawal, ErrorCode>,
)
    requires
        call_ensures(withdraw, (&accounts, amount), r),
    ensures
        r is Ok <==> 0 < amount <= accounts.vault_token_account.amount,
        r matches Err(error) ==> error == ErrorCode::InvalidWithdrawAmount,
        r matches Ok(pending) ==> {
            &&& pending.transfer.program == accounts.token_program
            &&& pending.transfer.accounts.from == accounts.vault_token_account.key
            &&& pending.transfer.accounts.to == accounts.owner_token_account.key
            &&& pending.transfer.accounts.authority == accounts.vault_authority.key
            &&& pending.transfer.signer_seeds@.len() == 1
            &&& pending.transfer.signer_seeds@[0]@.len() == 3
            &&& pending.transfer.signer_seeds@[0]@[0]@ == seq![
                0x61u8,
                0x75u8,
                0x74u8,
                0x68u8,
                0x6fu8,
                0x72u8,
                0x69u8,
                0x74u8,
                0x79u8,
            ]
            &&& pending.transfer.signer_seeds@[0]@[1]@ == accounts.vault.key.bytes@
            &&& pending.transfer.signer_seeds@[0]@[2]@ == seq![
                accounts.vault.data.bumps.vault_authority,
            ]
            &&& pending.amount == amount
            &&& pending.vault == accounts.vault.data
        },
{
    if let Ok(pending) = r {
        lemma_one_signer(
            pending.transfer.signer_seeds,
            accounts.vault.key,
            accounts.vault.data.bumps.vault_authority,
        );
    }
}

/// The seeds of one signer, read off a list of lists of bytes.
proof fn lemma_one_signer(signer_seeds: Vec<Vec<Vec<u8>>>, vault: Pubkey, bump: u8)
    requires
        signer_seeds.deep_view() == seq![
            crate::pda::with_bump(crate::pda::authority_seeds(vault@), bump),
        ],
    ensures
        signer_seeds@.len() == 1,
        signer_seeds@[0]@.len() == 3,
        signer_seeds@[0]@[0]@ == seq![
            0x61u8,
            0x75u8,
            0x74u8,
            0x68u8,
            0x6fu8,
            0x72u8,
            0x69u8,
            0x74u8,
            0x79u8,
        ],
        signer_seeds@[0]@[1]@ == vault.bytes@,
        signer_seeds@[0]@[2]@ == seq![bump],
{
    let seeds = crate::pda::with_bump(crate::pda::authority_seeds(vault@), bump);
    assert(signer_seeds.deep_view().len() == 1);
    assert(signer_seeds@[0].deep_view() == signer_seeds.deep_view()[0]);
    assert(signer_seeds@[0].deep_view() == seeds);
    assert(signer_seeds@[0]@.len() == 3);
    assert(signer_seeds@[0]@[0].deep_view() == seeds[0]);
    assert(signer_seeds@[0]@[1].deep_view() == seeds[1]);
    assert(signer_seeds@[0]@[2].deep_view() == seeds[2]);
    assert(signer_seeds@[0]@[0]@ =~= signer_seeds@[0]@[0].deep_view());
    assert(signer_seeds@[0]@[1]@ =~= signer_seeds@[0]@[1].deep_view());
    assert(signer_seeds@[0]@[2]@ =~= signer_seeds@[0]@[2].deep_view());
    assert(seeds[0] =~= seq![
        0x61u8,
        0x75u8,
        0x74u8,
        0x68u8,
        0x6fu8,
        0x72u8,
        0x69u8,
        0x74u8,
        0x79u8,
    ]);
}

/// A withdrawal whose tokens were moved is booked exactly where the total fits: the
/// withdrawals grow by the amount and nothing else in the books changes.
pub proof fn law_withdrawal_is_booked(pending: PendingWithdrawal, r: Result<Vault, ErrorCode>)
    requires
        call_ensures(PendingWithdrawal::finish, (pending,), r),
    ensures
        r is Ok <==> pending.vault.withdrawn_amount + pending.amount <= u64::MAX,
        r matches Err(error) ==> error == ErrorCode::InvalidWithdrawAmount,
        r matches Ok(after) ==> {
            &&& after.withdrawn_amount - pending.vault.withdrawn_amount == pending.amount
            &&& after.deposited_amount == pending.vault.deposited_amount
            &&& after.interest_earned == pending.vault.interest_earned
            &&& after.initialized == pending.vault.initialized
            &&& after.owner == pending.vault.owner
            &&& after.mint == pending.vault.mint
            &&& after.bumps == pending.vault.bumps
            &&& after.last_interest_timestamp == pending.vault.last_interest_timestamp
        },
{
}

/// Every withdrawal that is not empty, that the vault holds and that fits the books
/// succeeds, interest or not: the withdrawals grow and the tokens shrink by the amount, and
/// the rest of the books stays. Any other is refused.
pub proof fn law_every_held_amount_can_be_withdrawn(holding: Holding, amount: u64)
    ensures
        outcome(holding, Event::Withdrawal { amount }) is Ok <==> 0 < amount <= holding.tokens
            && holding.vault.withdrawn_amount + amount <= u64::MAX,
        outcome(holding, Event::Withdrawal { amount }) matches Err(error) ==> error
            == ErrorCode::InvalidWithdrawAmount,
        outcome(holding, Event::Withdrawal { amount }) matches Ok(after) ==> {
            &&& holding.tokens - after.tokens == amount
            &&& after.vault.withdrawn_amount - holding.vault.withdrawn_amount == amount
            &&& after.vault.deposited_amount == holding.vault.deposited_amount
            &&& after.vault.interest_earned == holding.vault.interest_earned
            &&& after.vault.initialized == holding.vault.initialized
            &&& after.vault.owner == holding.vault.owner
            &&& after.vault.mint == holding.vault.mint
            &&& after.vault.bumps == holding.vault.bumps
            &&& after.vault.last_interest_timestamp == holding.vault.last_interest_timestamp
        },
{
}

/// The owner can empty the vault at once, interest and gifts included. Left out are balances
/// that the books cannot take up.
pub proof fn law_whole_balance_can_be_withdrawn(holding: Holding, balance: u64)
    requires
        holding.tokens == balance,
        balance > 0,
        holding.vault.withdrawn_amount + balance <= u64::MAX,
    ensures
        outcome(holding, Event::Withdrawal { amount: balance }) matches Ok(after)
            && after.tokens == 0,
{
}

/// A withdrawal made in two parts comes to the same as one made at once.
pub proof fn law_withdrawals_add_up(holding: Holding, first: u64, second: u64, both: u64)
    requires
        first > 0,
        second > 0,
        first + second == both,
        both <= holding.tokens,
        holding.vault.withdrawn_amount + both <= u64::MAX,
    ensures
        outcome(
            next(holding, Event::Withdrawal { amount: first }),
            Event::Withdrawal { amount: second },
        ) == outcome(holding, Event::Withdrawal { amount: both }),
        outcome(holding, Event::Withdrawal { amount: both }) is Ok,
{
}

/// Interest is accepted exactly where at least a day has passed since the time in the books,
/// as far as `i64` can tell, the deposits exceed the withdrawals by at least a hundred, and
/// the sender is not the owner. It is a hundredth of that excess, rounded down, and goes from
/// the sender's token account to the vault's, on the sender's signature alone.
pub proof fn law_interest_is_a_hundredth(
    accounts: Interest,
    unix_timestamp: i64,
    r: Result<PendingInterest, ErrorCode>,
)
    requires
        call_ensures(send_interest, (&accounts, unix_timestamp), r),
    ensures
        r is Ok <==> {
            &&& 86400 <= unix_timestamp - accounts.vault.data.last_interest_timestamp <= i64::MAX
            &&& accounts.vault.data.deposited_amount - accounts.vault.data.withdrawn_amount >= 100
            &&& accounts.sender.key != accounts.owner.key
        },
        r matches Ok(pending) ==> {
            &&& pending.amount * 100 <= accounts.vault.data.deposited_amount
                - accounts.vault.data.withdrawn_amount < pending.amount * 100 + 100
            &&& pending.amount == (accounts.vault.data.deposited_amount
                - accounts.vault.data.withdrawn_amount) / 100
            &&& pending.transfer.program == accounts.token_program
            &&& pending.transfer.accounts.from == accounts.sender_token_account.key
            &&& pending.transfer.accounts.to == accounts.vault_token_account.key
            &&& pending.transfer.accounts.authority == accounts.sender.key
            &&& pending.transfer.signer_seeds@.len() == 0
            &&& pending.vault == accounts.vault.data
            &&& pending.unix_timestamp == unix_timestamp
        },
{
    if let Ok(pending) = r {
        assert(pending.transfer@.signer_seeds.len() == 0);
    }
}

/// Why interest is refused: a difference of the times that does not fit comes first, then
/// the cooldown, then withdrawals beyond the deposits, then too little principal, and the
/// owner as sender last.
pub proof fn law_interest_refusals(
    accounts: Interest,
    unix_timestamp: i64,
    r: Result<PendingInterest, ErrorCode>,
)
    requires
        call_ensures(send_interest, (&accounts, unix_timestamp), r),
    ensures
        r matches Err(error) ==> {
            let elapsed = unix_timestamp - accounts.vault.data.last_interest_timestamp;
            let excess = accounts.vault.data.deposited_amount
                - accounts.vault.data.withdrawn_amount;
            match error {
                ErrorCode::InvalidDepositAmount => elapsed < i64::MIN || elapsed > i64::MAX,
                ErrorCode::InterestCooldownNotElapsed => i64::MIN <= elapsed < 86400,
                ErrorCode::InvalidWithdrawAmount => 86400 <= elapsed <= i64::MAX && excess < 0,
                ErrorCode::InsufficientInterestEarned => 86400 <= elapsed <= i64::MAX && 0
                    <= excess < 100,
                ErrorCode::InvalidInterestSender => 86400 <= elapsed <= i64::MAX && excess >= 100
                    && accounts.sender.key == accounts.owner.key,
                ErrorCode::VaultNotEmpty => false,
            }
        },
{
}

/// Interest whose tokens were moved is booked exactly where the total fits: the interest
/// grows by the amount, the time in the books becomes the time of the payment, and nothing
/// else changes.
pub proof fn law_interest_is_booked(pending: PendingInterest, r: Result<Vault, ErrorCode>)
    requires
        call_ensures(PendingInterest::finish, (pending,), r),
    ensures
        pending.vault.interest_earned is None ==> r is Ok,
        pending.vault.interest_earned matches Some(earned) ==> (r is Ok <==> earned
            + pending.amount <= u64::MAX),
        r matches Err(error) ==> error == ErrorCode::InvalidDepositAmount,
        r matches Ok(after) ==> {
            &&& after.last_interest_timestamp == pending.unix_timestamp
            &&& after.interest_earned matches Some(total) && {
                &&& pending.vault.interest_earned is None ==> total == pending.amount
                &&& pending.vault.interest_earned matches Some(earned) ==> total - earned
                    == pending.amount
            }
            &&& after.deposited_amount == pending.vault.deposited_amount
            &&& after.withdrawn_amount == pending.vault.withdrawn_amount
            &&& after.initialized == pending.vault.initialized
            &&& after.owner == pending.vault.owner
            &&& after.mint == pending.vault.mint
            &&& after.bumps == pending.vault.bumps
        },
{
}

/// A payment of interest, from decision to books: it is stamped with its own time, and a
/// second one is accepted from any stranger as soon as a day has passed and whenever after,
/// as long as the principal is left and `i64` can tell the difference.
pub proof fn law_next_interest_is_due_a_day_later(
    first: Interest,
    paid_at: i64,
    pending: PendingInterest,
    paid: Vault,
    second: Interest,
    tried_at: i64,
    r: Result<PendingInterest, ErrorCode>,
)
    requires
        call_ensures(send_interest, (&first, paid_at), Ok(pending)),
        call_ensures(PendingInterest::finish, (pending,), Ok(paid)),
        second.vault.data == paid,
        second.sender.key != second.owner.key,
        call_ensures(send_interest, (&second, tried_at), r),
    ensures
        paid.last_interest_timestamp == paid_at,
        86400 <= tried_at - paid_at <= i64::MAX ==> (r matches Ok(again) && again.amount
            == pending.amount),
        tried_at - paid_at < 86400 ==> r is Err,
{
}

/// What is known of a payment of interest as an event: when it is accepted, and what it
/// makes of the vault.
pub proof fn law_interest_event_in_full(holding: Holding, sender: Pubkey, unix_timestamp: i64)
    ensures
        ({
            let excess = holding.vault.deposited_amount - holding.vault.withdrawn_amount;
            let earned = match holding.vault.interest_earned {
                Some(earned) => earned as int,
                None => 0int,
            };
            let tried = outcome(holding, Event::Interest { sender, unix_timestamp });
            &&& tried is Ok <==> {
                &&& 86400 <= unix_timestamp - holding.vault.last_interest_timestamp <= i64::MAX
                &&& excess >= 100
                &&& sender != holding.vault.owner
                &&& earned + excess / 100 <= u64::MAX
            }
            &&& tried matches Ok(after) ==> {
                &&& after.tokens - holding.tokens == excess / 100
                &&& after.vault.last_interest_timestamp == unix_timestamp
                &&& after.vault.interest_earned matches Some(total) && total - earned == excess
                    / 100
                &&& after.vault.deposited_amount == holding.vault.deposited_amount
                &&& after.vault.withdrawn_amount == holding.vault.withdrawn_amount
                &&& after.vault.initialized == holding.vault.initialized
                &&& after.vault.owner == holding.vault.owner
                &&& after.vault.mint == holding.vault.mint
                &&& after.vault.bumps == holding.vault.bumps
            }
        }),
{
}

/// Only a payment of interest changes the time and the interest in the books.
pub proof fn law_only_interest_is_stamped(holding: Holding, events: Seq<Event>)
    requires
        forall|i: int| 0 <= i < events.len() ==> !(#[trigger] events[i] is Interest),
    ensures
        run(holding, events).vault.last_interest_timestamp
            == holding.vault.last_interest_timestamp,
        run(holding, events).vault.interest_earned == holding.vault.interest_earned,
        run(holding, events).vault.owner == holding.vault.owner,
    decreases events.len(),
{
    if events.len() != 0 {
        let earlier = events.drop_last();
        assert forall|i: int| 0 <= i < earlier.len() implies !(#[trigger] earlier[i] is
            Interest) by {
            assert(earlier[i] == events[i]);
        }
        law_only_interest_is_stamped(holding, earlier);
        assert(events.last() == events[events.len() - 1]);
    }
}

/// The cooldown ends: after an accepted payment, and whatever deposits, withdrawals and gifts
/// follow, a stranger's payment is accepted a day later or whenever after, as long as there
/// is principal to pay on, the books can take it up and `i64` can tell the difference of the
/// times.
pub proof fn law_cooldown_ends(
    holding: Holding,
    sender: Pubkey,
    paid_at: i64,
    events: Seq<Event>,
    next_sender: Pubkey,
    tried_at: i64,
)
    requires
        outcome(holding, Event::Interest { sender, unix_timestamp: paid_at }) is Ok,
        forall|i: int| 0 <= i < events.len() ==> !(#[trigger] events[i] is Interest),
        86400 <= tried_at - paid_at <= i64::MAX,
        next_sender != holding.vault.owner,
    ensures
        ({
            let paid = next(holding, Event::Interest { sender, unix_timestamp: paid_at });
            let later = run(paid, events);
            let excess = later.vault.deposited_amount - later.vault.withdrawn_amount;
            &&& paid.vault.last_interest_timestamp == paid_at
            &&& later.vault.last_interest_timestamp == paid_at
            &&& later.vault.interest_earned matches Some(earned) && (excess >= 100 && earned
                + excess / 100 <= u64::MAX ==> outcome(
                later,
                Event::Interest { sender: next_sender, unix_timestamp: tried_at },
            ) is Ok)
        }),
{
    let paid = next(holding, Event::Interest { sender, unix_timestamp: paid_at });
    law_interest_event_in_full(holding, sender, paid_at);
    law_only_interest_is_stamped(paid, events);
    law_interest_event_in_full(run(paid, events), next_sender, tried_at);
}

/// A vault is closed exactly where its token account is empty, whatever the books say. The
/// token account is closed into the owner's account, signed by the vault's authority, and
/// the account with the books goes the same way.
pub proof fn law_closing_takes_any_empty_vault(
    accounts: CloseVault,
    r: Result<PendingClose, ErrorCode>,
)
    requires
        call_ensures(close_vault, (&accounts,), r),
    ensures
        r is Ok <==> accounts.vault_token_account.amount == 0,
        r matches Err(error) ==> error == ErrorCode::VaultNotEmpty,
        r matches Ok(pending) ==> {
            &&& pending.call.program == accounts.token_program
            &&& pending.call.accounts.account == accounts.vault_token_account.key
            &&& pending.call.accounts.destination == accounts.owner.key
            &&& pending.call.accounts.authority == accounts.vault_authority.key
            &&& pending.call.signer_seeds@.len() == 1
            &&& pending.call.signer_seeds@[0]@.len() == 3
            &&& pending.call.signer_seeds@[0]@[0]@ == seq![
                0x61u8,
                0x75u8,
                0x74u8,
                0x68u8,
                0x6fu8,
                0x72u8,
                0x69u8,
                0x74u8,
                0x79u8,
            ]
            &&& pending.call.signer_seeds@[0]@[1]@ == accounts.vault.key.bytes@
            &&& pending.call.signer_seeds@[0]@[2]@ == seq![
                accounts.vault.data.bumps.vault_authority,
            ]
            &&& pending.vault == accounts.vault.key
            &&& pending.destination == accounts.owner.key
        },
{
    if let Ok(pending) = r {
        lemma_one_signer(
            pending.call.signer_seeds,
            accounts.vault.key,
            accounts.vault.data.bumps.vault_authority,
        );
    }
}

/// A call that is made for an instruction goes to its token program, on the given accounts,
/// and no derived address signs it.
pub proof fn law_calls_go_to_the_token_program<T>(
    opening: InitializeVault,
    deposit_accounts: Deposit,
    withdraw_accounts: Withdraw,
    interest_accounts: Interest,
    data: T,
    a: CpiContext<T>,
    b: CpiContext<T>,
    c: CpiContext<T>,
    d: CpiContext<T>,
)
    requires
        call_ensures(InitializeVault::token_program_context::<T>, (&opening, data), a),
        call_ensures(Deposit::token_program_context::<T>, (&deposit_accounts, data), b),
        call_ensures(Withdraw::token_program_context::<T>, (&withdraw_accounts, data), c),
        call_ensures(Interest::token_program_context::<T>, (&interest_accounts, data), d),
    ensures
        a.program == opening.token_program,
        b.program == deposit_accounts.token_program,
        c.program == withdraw_accounts.token_program,
        d.program == interest_accounts.token_program,
        a.accounts == data,
        b.accounts == data,
        c.accounts == data,
        d.accounts == data,
        a.signer_seeds@.len() == 0,
        b.signer_seeds@.len() == 0,
        c.signer_seeds@.len() == 0,
        d.signer_seeds@.len() == 0,
{
    assert(a@.signer_seeds.len() == 0);
    assert(b@.signer_seeds.len() == 0);
    assert(c@.signer_seeds.len() == 0);
    assert(d@.signer_seeds.len() == 0);
}

/// To have a call signed changes neither where it goes nor its accounts, and it is signed with
/// the very seeds that were given.
pub proof fn law_signing_only_adds_the_seeds<T>(
    program: Pubkey,
    accounts: T,
    unsigned: CpiContext<T>,
    before: CpiContext<T>,
    signer_seeds: Vec<Vec<Vec<u8>>>,
    after: CpiContext<T>,
)
    requires
        call_ensures(CpiContext::<T>::new, (program, accounts), unsigned),
        call_ensures(CpiContext::<T>::with_signer, (before, signer_seeds), after),
    ensures
        unsigned.program == program,
        unsigned.accounts == accounts,
        unsigned.signer_seeds@.len() == 0,
        after.program == before.program,
        after.accounts == before.accounts,
        after.signer_seeds@.len() == signer_seeds@.len(),
        forall|i: int|
            0 <= i < signer_seeds@.len() ==> (#[trigger] after.signer_seeds@[i])@.len()
                == signer_seeds@[i]@.len(),
        forall|i: int, j: int|
            0 <= i < signer_seeds@.len() && 0 <= j < signer_seeds@[i]@.len() ==> (
            #[trigger] after.signer_seeds@[i]@[j])@ == signer_seeds@[i]@[j]@,
{
    assert(unsigned@.signer_seeds.len() == 0);
    assert(after.signer_seeds.deep_view() == signer_seeds.deep_view());
    assert(after.signer_seeds.deep_view().len() == signer_seeds.deep_view().len());
    assert forall|i: int| 0 <= i < signer_seeds@.len() implies (
    #[trigger] after.signer_seeds@[i]).deep_view() == signer_seeds@[i].deep_view() by {
        assert(after.signer_seeds.deep_view()[i] == signer_seeds.deep_view()[i]);
    }
    assert forall|i: int| 0 <= i < signer_seeds@.len() implies (
    #[trigger] after.signer_seeds@[i])@.len() == signer_seeds@[i]@.len() by {
        assert(after.signer_seeds@[i].deep_view().len() == signer_seeds@[i].deep_view().len());
    }
    assert forall|i: int, j: int|
        0 <= i < signer_seeds@.len() && 0 <= j < signer_seeds@[i]@.len() implies (
    #[trigger] after.signer_seeds@[i]@[j])@ == signer_seeds@[i]@[j]@ by {
        assert(after.signer_seeds@[i].deep_view()[j] == signer_seeds@[i].deep_view()[j]);
        assert(after.signer_seeds@[i]@[j].deep_view() =~= after.signer_seeds@[i]@[j]@);
        assert(signer_seeds@[i]@[j].deep_view() =~= signer_seeds@[i]@[j]@);
    }
}

/// A history is its events one after the other: each is applied to what the ones before it
/// left, one that is refused changes nothing, and a gift changes nothing but the tokens.
pub proof fn law_histories_go_step_by_step(holding: Holding, events: Seq<Event>, event: Event)
    ensures
        run(holding, Seq::empty()) == holding,
        outcome(run(holding, events), event) matches Ok(after) ==> run(
            holding,
            events.push(event),
        ) == after,
        outcome(run(holding, events), event) is Err ==> run(holding, events.push(event)) == run(
            holding,
            events,
        ),
        event matches Event::Gift { amount } ==> {
            &&& run(holding, events.push(event)).vault == run(holding, events).vault
            &&& run(holding, events.push(event)).tokens - run(holding, events).tokens == amount
        },
{
    assert(events.push(event).drop_last() =~= events);
}

/// Gifts are counted by their amounts, payments of interest by their number, and only those
/// that were accepted.
pub proof fn law_gifts_and_payments_are_counted(
    holding: Holding,
    events: Seq<Event>,
    event: Event,
)
    ensures
        gifts(Seq::empty()) == 0,
        payments(holding, Seq::empty()) == 0,
        event matches Event::Gift { amount } ==> gifts(events.push(event)) - gifts(events)
            == amount,
        !(event is Gift) ==> gifts(events.push(event)) == gifts(events),
        event is Interest && outcome(run(holding, events), event) is Ok ==> payments(
            holding,
            events.push(event),
        ) == payments(holding, events) + 1,
        !(event is Interest && outcome(run(holding, events), event) is Ok) ==> payments(
            holding,
            events.push(event),
        ) == payments(holding, events),
{
    assert(events.push(event).drop_last() =~= events);
}

/// The errors have the numbers from 6000 on, each its own.
pub proof fn law_errors_are_numbered(error: ErrorCode, code: u32)
    requires
        call_ensures(ErrorCode::code, (&error,), code),
    ensures
        match error {
            ErrorCode::InvalidDepositAmount => code == 6000,
            ErrorCode::InvalidWithdrawAmount => code == 6001,
            ErrorCode::InsufficientInterestEarned => code == 6002,
            ErrorCode::InvalidInterestSender => code == 6003,
            ErrorCode::InterestCooldownNotElapsed => code == 6004,
            ErrorCode::VaultNotEmpty => code == 6005,
        },
{
}

} // verus!
