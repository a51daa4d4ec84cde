//! A vault that holds the tokens of one mint for one owner.
//!
//! The owner deposits and withdraws; anybody else may pay interest into the
//! vault, one percent of the principal at a time and at most once a day; an
//! empty vault can be closed. The instructions run on a ledger that stores
//! accounts and moves tokens between them. What an instruction decides stands
//! here; what it asks of the ledger is returned as a plain value, and the
//! instruction goes on when the ledger has done it.
//!
//! * [`accounts`]: the accounts that each instruction takes, and the rules that
//!   they are held to.
//! * [`instructions`]: the instructions.
//! * [`state`]: what a vault keeps of itself.
//! * [`pda`]: the addresses that are derived from seeds.
//! * [`cpi`]: the calls into the token program.
//! * [`history`]: what holds of every sequence of instructions on a vault.
//! * [`laws`] and [`account_laws`]: what each function does, said of the fields of its
//!   inputs and results.

pub mod account_laws;
pub mod accounts;
pub mod cpi;
pub mod error;
pub mod history;
pub mod instructions;
pub mod laws;
pub mod pda;
pub mod pubkey;
pub mod state;

pub use accounts::{CloseVault, Deposit, InitializeVault, Interest, Withdraw};
pub use error::ErrorCode;
pub use instructions::{close_vault, deposit, initialize_vault, send_interest, withdraw};
pub use pubkey::Pubkey;
pub use state::{Bumps, Vault};
