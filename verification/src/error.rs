//! Why an operation on the account space is refused.

use crate::schedule::ErrorCode;
use vstd::prelude::*;

verus! {

/// Why an operation is refused.
#[derive(Clone, Copy, Debug, PartialEq, Eq, Structural)]
pub enum VestingError {
    /// The claim itself is refused by the schedule.
    Claim(ErrorCode),
    /// A named account does not exist, or is of another kind.
    AccountNotFound,
    /// A named account is not the one that the seeds derive.
    AddressMismatch,
    /// The requester is not the one that the account entitles.
    Unauthorized,
    /// A named account is not the one that the record refers to.
    ReferenceMismatch,
    /// The account to create exists already.
    AlreadyInitialized,
    /// The company name is longer than a record can hold.
    NameTooLong,
}

} // verus!
