//! Accounts as the host presents them to the program.

use vstd::prelude::*;
use crate::address::Address;

verus! {

/// An account as contracts speak of it.
pub struct AccountView {
    pub key: Seq<u8>,
    pub owner: Seq<u8>,
    pub is_signer: bool,
    pub data: Seq<u8>,
}

/// An account that the host resolved for an operation: a caller, or the
/// storage of a review.
#[derive(Clone, Debug, PartialEq, Eq)]
pub struct Account {
    /// The address of the account.
    pub key: Address,
    /// The program that the account belongs to.
    pub owner: Address,
    /// Whether the host saw the holder of `key` sign the operation.
    pub is_signer: bool,
    /// The bytes that the account stores.
    pub data: Vec<u8>,
}

impl View for Account {
    type V = AccountView;

    open spec fn view(&self) -> AccountView {
        AccountView {
            key: self.key@,
            owner: self.owner@,
            is_signer: self.is_signer,
            data: self.data@,
        }
    }
}

} // verus!
