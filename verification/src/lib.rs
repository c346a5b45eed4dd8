//! A minimal ledger of user balances.
//!
//! Each user owns one twelve-byte record that holds the sum of all credits,
//! the sum of all debits and the current balance. Three instructions act on
//! it: provisioning the record at an address derived from the user's
//! identity, crediting it and debiting it.

pub mod account;
pub mod address;
pub mod consistency;
pub mod derivation;
pub mod error;
pub mod instruction;
pub mod ledger;
pub mod provision;
pub mod record;

pub use crate::account::Account;
pub use crate::address::Address;
pub use crate::error::LedgerError;
pub use crate::instruction::{dispatch, process_instruction, Instruction, Outcome};
pub use crate::ledger::{process_credit_instruction, process_debit_instruction};
pub use crate::provision::{
    process_create_balance_account_instruction, AccountRole, HostInstruction, Invocation,
    ProvisionRequest,
};
pub use crate::record::BalanceAccount;
