//! The calls that an instruction asks the ledger to make into the token program.

use crate::pubkey::Pubkey;
use vstd::prelude::*;

verus! {

/// The accounts of a transfer between two token accounts.
#[derive(Clone, Copy, Debug, PartialEq, Eq)]
pub struct Transfer {
    pub from: Pubkey,
    pub to: Pubkey,
    pub authority: Pubkey,
}

/// The accounts with which a token account is closed; what it holds for its rent
/// goes to the destination.
#[derive(Clone, Copy, Debug, PartialEq, Eq)]
pub struct CloseAccount {
    pub account: Pubkey,
    pub destination: Pubkey,
    pub authority: Pubkey,
}

/// A call into another program: the program, the accounts that are handed to it,
/// and for each derived address that signs the call the seeds it derives from.
#[derive(Debug, PartialEq, Eq)]
pub struct CpiContext<T> {
    pub program: Pubkey,
    pub accounts: T,
    pub signer_seeds: Vec<Vec<Vec<u8>>>,
}

/// What a call consists of.
pub struct CpiContextView<T> {
    pub program: Pubkey,
    pub accounts: T,
    pub signer_seeds: Seq<Seq<Seq<u8>>>,
}

impl<T> View for CpiContext<T> {
    type V = CpiContextView<T>;

    open spec fn view(&self) -> CpiContextView<T> {
        CpiContextView {
            program: self.program,
            accounts: self.accounts,
            signer_seeds: self.signer_seeds.deep_view(),
        }
    }
}

impl<T> CpiContext<T> {
    /// A call that no derived address signs.
    pub fn new(program: Pubkey, accounts: T) -> (context: CpiContext<T>)
        ensures
            context@ == (CpiContextView {
                program,
                accounts,
                signer_seeds: Seq::<Seq<Seq<u8>>>::empty(),
            }),
    {
        let context = CpiContext { program, accounts, signer_seeds: Vec::new() };
        assert(context@.signer_seeds =~= Seq::<Seq<Seq<u8>>>::empty());
        context
    }

    /// The same call, signed by the addresses that derive from the given seeds.
    pub fn with_signer(self, signer_seeds: Vec<Vec<Vec<u8>>>) -> (context: CpiContext<T>)
        ensures
            context@ == (CpiContextView { signer_seeds: signer_seeds.deep_view(), ..self@ }),
    {
        CpiContext { program: self.program, accounts: self.accounts, signer_seeds }
    }
}

} // verus!
