//! A store of reviews, each kept at an address derived from its owner and its
//! title.
//!
//! A review is created once, at the address that its owner and its title
//! derive, and can then be updated by its owner. `processor` holds the two
//! operations and their dispatch, `laws` what holds of them over the life of
//! a review. `address` derives and compares addresses, `rating` validates
//! ratings, `state` holds the record of a review and its form in storage,
//! `wire` the form of the single fields, `instruction` the form of the
//! instructions, `account` the accounts that the host hands in, and `error`
//! the refusals.

pub mod account;
pub mod address;
pub mod error;
pub mod instruction;
pub mod laws;
pub mod processor;
pub mod rating;
pub mod state;
pub mod wire;

pub use processor::{add_review, process_instruction, update_review};
