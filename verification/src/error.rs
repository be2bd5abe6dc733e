//! The ways in which an operation on a review can fail.

use vstd::prelude::*;

verus! {

/// Why an operation was refused. Every refusal leaves the storage as it was.
#[derive(Clone, Copy, Debug, PartialEq, Eq, Structural)]
pub enum ReviewError {
    /// The caller did not prove control of its identity.
    Unauthorized,
    /// The storage address is not the one derived from the caller and the title.
    InvalidAddress,
    /// The storage does not belong to this program.
    IllegalOwner,
    /// The rating lies outside `MIN_RATING..=MAX_RATING`.
    InvalidRating,
    /// A review was already created at this address.
    AlreadyInitialized,
    /// No review was ever created at this address.
    UninitializedAccount,
    /// The host could not provide the storage.
    AllocationFailure,
    /// The stored bytes are not a review record.
    InvalidAccountData,
    /// The record does not fit into the storage.
    AccountDataTooSmall,
    /// The instruction bytes are not an instruction of this program.
    InvalidInstructionData,
}

} // verus!
