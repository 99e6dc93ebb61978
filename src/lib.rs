//! A single-owner custodial vault.
//!
//! An owner deposits native balance into an account whose address is derived
//! from the owner's key and a bump seed, and later withdraws the whole balance.
//! This crate holds the validation that gates both operations and the transfer
//! each one requests from the host ledger.
pub mod account;
pub mod address;
pub mod deposit;
pub mod error;
pub mod laws;
pub mod withdraw;

pub use account::{Account, Authority, DerivedAuthorization, TransferRequest};
pub use address::{seed, vault_address};
pub use deposit::{Deposit, DepositAccounts, DepositInstructionData};
pub use error::VaultError;
pub use withdraw::{Withdraw, WithdrawAccounts};
