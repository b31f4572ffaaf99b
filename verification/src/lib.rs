//! Linear token vesting with an optional cliff.
//!
//! An issuer locks a pool of tokens in a treasury and grants beneficiaries a
//! schedule by which their allocation unlocks over time. Beneficiaries claim
//! what has vested and has not been withdrawn yet.
//!
//! - `schedule` computes what has vested and what can be claimed.
//! - `address` derives the addresses of the program's accounts from seeds.
//! - `accounts` holds the records, and the claim on a single allocation.
//! - `ledger` is the account space: which record lives at which address.
//! - `registry` creates the vesting account of a company and its treasury.
//! - `allocation` grants a beneficiary an allocation.
//! - `settlement` settles the claims of a beneficiary.
//! - `error` says why an operation is refused.

pub mod accounts;
pub mod address;
pub mod allocation;
pub mod error;
pub mod ledger;
pub mod registry;
pub mod schedule;
pub mod settlement;

pub use accounts::{EmployeeAccount, TreasuryAccount, VestingAccount};
pub use address::Address;
pub use allocation::{create_employee_account, CreateEmployeeAccount};
pub use error::VestingError;
pub use ledger::{Account, Ledger};
pub use registry::{create_vesting_account, CreateVestingAccount};
pub use schedule::ErrorCode;
pub use settlement::{claim_tokens, ClaimTokens, Transfer, TreasuryAuthority};
