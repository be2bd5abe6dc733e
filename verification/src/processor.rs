//! The two operations on a review, creation and update, and their dispatch.
//!
//! The program does not reach the host. Where the storage of a new review has
//! to be provided, a creation answers with `Step::Allocate`; the host provides
//! the storage and repeats the creation, reporting how that went.
//!
//! Each operation comes in two forms. `add_review` and `update_review` derive
//! the address of the review themselves. `create_at` and `update_at` are given
//! what the derivation gave and decide everything else.

use vstd::prelude::*;
use crate::account::{Account, AccountView};
use crate::address::{derived_address, derived_view, is_derived, lies_at, Address};
use crate::error::ReviewError;
use crate::instruction::{parse_instruction, Instruction, ReviewInstruction};
use crate::rating::{valid_rating, validate_rating};
use crate::state::{
    decode_record, encode_record, encoded_len, fits, lemma_decode_encode_prefix, overwrite_front,
    review_record, updated_record, AccountState, Record, ReviewFields, ACCOUNT_LEN,
};

verus! {

/// What the host reports about the storage of a review that is being created.
#[derive(Clone, Copy, Debug, PartialEq, Eq, Structural)]
pub enum Allocation {
    /// The host was not yet asked for the storage.
    NotRequested,
    /// The host provided the storage.
    Granted,
    /// The host could not provide the storage.
    Refused,
}

/// What is left to do once an operation was accepted.
#[derive(Clone, Copy, Debug, PartialEq, Eq, Structural)]
pub enum Step {
    /// The host is to provide `space` bytes of storage at the address of the
    /// review, signing with the seeds of the address and `bump_seed`, and to
    /// repeat the operation with what came of it.
    Allocate { space: usize, bump_seed: u8 },
    /// Nothing: the review is stored.
    Done,
}

/// The fields of a review as a caller gives them.
pub open spec fn review_fields(
    title: Seq<char>,
    rating: u8,
    description: Seq<char>,
    location: Seq<char>,
) -> ReviewFields {
    ReviewFields { title, rating, description, location }
}

/// Whether `record` can be written over the front of `data`.
pub open spec fn storable(record: Record, data: Seq<u8>) -> bool {
    fits(record) && encoded_len(record) <= data.len()
}

/// The account `account` with `record` written over the front of its data.
pub open spec fn with_record(account: AccountView, record: Record) -> AccountView {
    AccountView { data: overwrite_front(account.data, encode_record(record)), ..account }
}

/// How the creation of the review `fields` by `initializer` in the storage
/// `pda_account` ends, where `derived` is what the derivation from the caller
/// and the title gave. The checks come in this order: the caller signed; the
/// storage lies at the derived address; the rating is valid; the host
/// provided the storage; the storage holds a record; no review was created in
/// it; the review fits into it.
pub open spec fn create_outcome(
    derived: Option<(Seq<u8>, u8)>,
    initializer: AccountView,
    pda_account: AccountView,
    fields: ReviewFields,
    allocation: Allocation,
) -> Result<Step, ReviewError> {
    if !initializer.is_signer {
        Err(ReviewError::Unauthorized)
    } else {
        match derived {
            None => Err(ReviewError::InvalidAddress),
            Some((address, bump_seed)) => if address != pda_account.key {
                Err(ReviewError::InvalidAddress)
            } else if !valid_rating(fields.rating) {
                Err(ReviewError::InvalidRating)
            } else {
                match allocation {
                    Allocation::NotRequested => Ok(Step::Allocate { space: ACCOUNT_LEN, bump_seed }),
                    Allocation::Refused => Err(ReviewError::AllocationFailure),
                    Allocation::Granted => match decode_record(pda_account.data) {
                        None => Err(ReviewError::InvalidAccountData),
                        Some(stored) => if stored.is_initialized {
                            Err(ReviewError::AlreadyInitialized)
                        } else if !storable(review_record(fields), pda_account.data) {
                            Err(ReviewError::AccountDataTooSmall)
                        } else {
                            Ok(Step::Done)
                        },
                    },
                }
            },
        }
    }
}

/// The storage after the creation of the review `fields` in it: with the
/// review written over its front where the creation ends with `Step::Done`,
/// and as it was before in every other case.
pub open spec fn create_storage(
    derived: Option<(Seq<u8>, u8)>,
    initializer: AccountView,
    pda_account: AccountView,
    fields: ReviewFields,
    allocation: Allocation,
) -> AccountView {
    if create_outcome(derived, initializer, pda_account, fields, allocation) == Ok::<
        Step,
        ReviewError,
    >(Step::Done) {
        with_record(pda_account, review_record(fields))
    } else {
        pda_account
    }
}

/// How the creation of the review `fields` by `initializer` in the storage
/// `pda_account` ends: as `create_outcome` says of the address derived from
/// the caller and the title.
pub open spec fn add_review_outcome(
    program_id: Seq<u8>,
    initializer: AccountView,
    pda_account: AccountView,
    fields: ReviewFields,
    allocation: Allocation,
) -> Result<Step, ReviewError> {
    create_outcome(
        derived_address(initializer.key, fields.title, program_id),
        initializer,
        pda_account,
        fields,
        allocation,
    )
}

/// The storage after the creation of the review `fields` in it: as
/// `create_storage` says of the address derived from the caller and the title.
pub open spec fn add_review_storage(
    program_id: Seq<u8>,
    initializer: AccountView,
    pda_account: AccountView,
    fields: ReviewFields,
    allocation: Allocation,
) -> AccountView {
    create_storage(
        derived_address(initializer.key, fields.title, program_id),
        initializer,
        pda_account,
        fields,
        allocation,
    )
}

/// How the update by `initializer` of the review in the storage `pda_account`
/// ends, where `derived` is what the derivation from the caller and the
/// stored title gave. The checks come in this order: the storage belongs to
/// the program; the caller signed; the storage holds a record; the storage
/// lies at the derived address; a review was created in it; the rating is
/// valid; the updated review fits into it.
pub open spec fn update_outcome(
    derived: Option<(Seq<u8>, u8)>,
    program_id: Seq<u8>,
    initializer: AccountView,
    pda_account: AccountView,
    rating: u8,
    description: Seq<char>,
    location: Seq<char>,
) -> Result<(), ReviewError> {
    if pda_account.owner != program_id {
        Err(ReviewError::IllegalOwner)
    } else if !initializer.is_signer {
        Err(ReviewError::Unauthorized)
    } else {
        match decode_record(pda_account.data) {
            None => Err(ReviewError::InvalidAccountData),
            Some(stored) => if !lies_at(pda_account.key, derived) {
                Err(ReviewError::InvalidAddress)
            } else if !stored.is_initialized {
                Err(ReviewError::UninitializedAccount)
            } else if !valid_rating(rating) {
                Err(ReviewError::InvalidRating)
            } else if !storable(
                updated_record(stored, rating, description, location),
                pda_account.data,
            ) {
                Err(ReviewError::AccountDataTooSmall)
            } else {
                Ok(())
            },
        }
    }
}

/// The storage after the update of the review in it: with the updated record
/// written over its front where the update succeeds, and as it was before in
/// every other case.
pub open spec fn update_storage(
    derived: Option<(Seq<u8>, u8)>,
    program_id: Seq<u8>,
    initializer: AccountView,
    pda_account: AccountView,
    rating: u8,
    description: Seq<char>,
    location: Seq<char>,
) -> AccountView {
    if update_outcome(derived, program_id, initializer, pda_account, rating, description, location)
        is Ok {
        with_record(
            pda_account,
            updated_record(decode_record(pda_account.data)->0, rating, description, location),
        )
    } else {
        pda_account
    }
}

/// What the derivation from the caller and the title stored in `data` gives;
/// `None` where `data` holds no record.
pub open spec fn stored_title_address(
    program_id: Seq<u8>,
    initializer: AccountView,
    data: Seq<u8>,
) -> Option<(Seq<u8>, u8)> {
    match decode_record(data) {
        Some(stored) => derived_address(initializer.key, stored.title, program_id),
        None => None,
    }
}

/// How the update by `initializer` of the review in the storage `pda_account`
/// ends: as `update_outcome` says of the address derived from the caller and
/// the stored title.
pub open spec fn update_review_outcome(
    program_id: Seq<u8>,
    initializer: AccountView,
    pda_account: AccountView,
    rating: u8,
    description: Seq<char>,
    location: Seq<char>,
) -> Result<(), ReviewError> {
    update_outcome(
        stored_title_address(program_id, initializer, pda_account.data),
        program_id,
        initializer,
        pda_account,
        rating,
        description,
        location,
    )
}

/// The storage after the update of the review in it: as `update_storage` says
/// of the address derived from the caller and the stored title.
pub open spec fn update_review_storage(
    program_id: Seq<u8>,
    initializer: AccountView,
    pda_account: AccountView,
    rating: u8,
    description: Seq<char>,
    location: Seq<char>,
) -> AccountView {
    update_storage(
        stored_title_address(program_id, initializer, pda_account.data),
        program_id,
        initializer,
        pda_account,
        rating,
        description,
        location,
    )
}

/// Creates a review in the storage `pda_account`, where `derived` is what the
/// derivation from the caller and the title gave.
///
/// The call is made twice. The first, with `Allocation::NotRequested`, checks
/// the caller, the address and the rating, and answers with `Step::Allocate`.
/// The second reports what the host did: with `Allocation::Granted` the
/// checks are made again and the review is written over the front of the
/// storage, unless a review was already created there. Every refusal, and the
/// first call, leave the storage as it was.
pub fn create_at(
    derived: Option<(Address, u8)>,
    initializer: &Account,
    pda_account: &mut Account,
    title: String,
    rating: u8,
    description: String,
    location: String,
    allocation: Allocation,
) -> (res: Result<Step, ReviewError>)
    ensures
        res == create_outcome(
            derived_view(derived),
            initializer@,
            old(pda_account)@,
            review_fields(title@, rating, description@, location@),
            allocation,
        ),
        final(pda_account)@ == create_storage(
            derived_view(derived),
            initializer@,
            old(pda_account)@,
            review_fields(title@, rating, description@, location@),
            allocation,
        ),
        res != Ok::<Step, ReviewError>(Step::Done) ==> *final(pda_account) == *old(pda_account),
        res == Ok::<Step, ReviewError>(Step::Done) ==> decode_record(final(pda_account)@.data)
            == Some(review_record(review_fields(title@, rating, description@, location@))),
{
    if !initializer.is_signer {
        return Err(ReviewError::Unauthorized);
    }
    let bump_seed = match derived {
        Some((address, bump_seed)) => {
            if !address.same_as(&pda_account.key) {
                return Err(ReviewError::InvalidAddress);
            }
            bump_seed
        },
        None => return Err(ReviewError::InvalidAddress),
    };
    if validate_rating(rating).is_err() {
        return Err(ReviewError::InvalidRating);
    }
    match allocation {
        Allocation::NotRequested => return Ok(Step::Allocate { space: ACCOUNT_LEN, bump_seed }),
        Allocation::Refused => return Err(ReviewError::AllocationFailure),
        Allocation::Granted => {},
    }
    let mut account_data = match AccountState::decode(pda_account.data.as_slice()) {
        Some(state) => state,
        None => return Err(ReviewError::InvalidAccountData),
    };
    if account_data.is_initialized() {
        return Err(ReviewError::AlreadyInitialized);
    }
    account_data.title = title;
    account_data.rating = rating;
    account_data.description = description;
    account_data.location = location;
    account_data.is_initialized = true;
    match account_data.store(&mut pda_account.data) {
        Ok(()) => {
            proof {
                lemma_decode_encode_prefix(
                    account_data@,
                    old(pda_account)@.data.skip(encode_record(account_data@).len() as int),
                );
            }
            Ok(Step::Done)
        },
        Err(error) => Err(error),
    }
}

/// Creates the review of `initializer` titled `title` in the storage
/// `pda_account`: derives the address of the review and goes on as
/// `create_at` does. A caller who did not sign is refused before anything is
/// derived.
pub fn add_review(
    program_id: &Address,
    initializer: &Account,
    pda_account: &mut Account,
    title: String,
    rating: u8,
    description: String,
    location: String,
    allocation: Allocation,
) -> (res: Result<Step, ReviewError>)
    ensures
        res == add_review_outcome(
            program_id@,
            initializer@,
            old(pda_account)@,
            review_fields(title@, rating, description@, location@),
            allocation,
        ),
        final(pda_account)@ == add_review_storage(
            program_id@,
            initializer@,
            old(pda_account)@,
            review_fields(title@, rating, description@, location@),
            allocation,
        ),
        res != Ok::<Step, ReviewError>(Step::Done) ==> *final(pda_account) == *old(pda_account),
        res == Ok::<Step, ReviewError>(Step::Done) ==> decode_record(final(pda_account)@.data)
            == Some(review_record(review_fields(title@, rating, description@, location@))),
{
    if !initializer.is_signer {
        return Err(ReviewError::Unauthorized);
    }
    let derived = crate::address::derive(&initializer.key, title.as_str(), program_id);
    create_at(derived, initializer, pda_account, title, rating, description, location, allocation)
}

/// Replaces the rating, the description and the location of the review in the
/// storage `pda_account`, where `derived` is what the derivation from the
/// caller and the stored title gave. The title and the flag of the review
/// stay. Every refusal leaves the storage as it was.
pub fn update_at(
    derived: Option<(Address, u8)>,
    program_id: &Address,
    initializer: &Account,
    pda_account: &mut Account,
    rating: u8,
    description: String,
    location: String,
) -> (res: Result<(), ReviewError>)
    ensures
        res == update_outcome(
            derived_view(derived),
            program_id@,
            initializer@,
            old(pda_account)@,
            rating,
            description@,
            location@,
        ),
        final(pda_account)@ == update_storage(
            derived_view(derived),
            program_id@,
            initializer@,
            old(pda_account)@,
            rating,
            description@,
            location@,
        ),
        res is Err ==> *final(pda_account) == *old(pda_account),
        res is Ok ==> decode_record(final(pda_account)@.data) == Some(
            updated_record(
                decode_record(old(pda_account)@.data)->0,
                rating,
                description@,
                location@,
            ),
        ),
{
    if !pda_account.owner.same_as(program_id) {
        return Err(ReviewError::IllegalOwner);
    }
    if !initializer.is_signer {
        return Err(ReviewError::Unauthorized);
    }
    let mut account_data = match AccountState::decode(pda_account.data.as_slice()) {
        Some(state) => state,
        None => return Err(ReviewError::InvalidAccountData),
    };
    if !is_derived(&pda_account.key, &derived) {
        return Err(ReviewError::InvalidAddress);
    }
    if !account_data.is_initialized() {
        return Err(ReviewError::UninitializedAccount);
    }
    if validate_rating(rating).is_err() {
        return Err(ReviewError::InvalidRating);
    }
    account_data.rating = rating;
    account_data.description = description;
    account_data.location = location;
    match account_data.store(&mut pda_account.data) {
        Ok(()) => {
            proof {
                lemma_decode_encode_prefix(
                    account_data@,
                    old(pda_account)@.data.skip(encode_record(account_data@).len() as int),
                );
            }
            Ok(())
        },
        Err(error) => Err(error),
    }
}

/// Replaces the rating, the description and the location of the review in the
/// storage `pda_account`: derives the address from the caller and the stored
/// title and goes on as `update_at` does. The title is the stored one:
/// `_title` is not read. Storage of another program, a caller who did not
/// sign and storage that holds no record are refused before anything is
/// derived.
pub fn update_review(
    program_id: &Address,
    initializer: &Account,
    pda_account: &mut Account,
    _title: String,
    rating: u8,
    description: String,
    location: String,
) -> (res: Result<(), ReviewError>)
    ensures
        res == update_review_outcome(
            program_id@,
            initializer@,
            old(pda_account)@,
            rating,
            description@,
            location@,
        ),
        final(pda_account)@ == update_review_storage(
            program_id@,
            initializer@,
            old(pda_account)@,
            rating,
            description@,
            location@,
        ),
        res is Err ==> *final(pda_account) == *old(pda_account),
        res is Ok ==> decode_record(final(pda_account)@.data) == Some(
            updated_record(
                decode_record(old(pda_account)@.data)->0,
                rating,
                description@,
                location@,
            ),
        ),
{
    if !pda_account.owner.same_as(program_id) {
        return Err(ReviewError::IllegalOwner);
    }
    if !initializer.is_signer {
        return Err(ReviewError::Unauthorized);
    }
    let derived = match AccountState::decode(pda_account.data.as_slice()) {
        Some(stored) => crate::address::derive(&initializer.key, stored.title.as_str(), program_id),
        None => return Err(ReviewError::InvalidAccountData),
    };
    update_at(derived, program_id, initializer, pda_account, rating, description, location)
}

/// How the instruction in `input` ends: as the creation or the update that it
/// asks for, or with `InvalidInstructionData` where the bytes are no
/// instruction.
pub open spec fn process_instruction_outcome(
    program_id: Seq<u8>,
    initializer: AccountView,
    pda_account: AccountView,
    input: Seq<u8>,
    allocation: Allocation,
) -> Result<Step, ReviewError> {
    match parse_instruction(input) {
        None => Err(ReviewError::InvalidInstructionData),
        Some(Instruction::AddReview { fields }) => add_review_outcome(
            program_id,
            initializer,
            pda_account,
            fields,
            allocation,
        ),
        Some(Instruction::UpdateReview { fields }) => match update_review_outcome(
            program_id,
            initializer,
            pda_account,
            fields.rating,
            fields.description,
            fields.location,
        ) {
            Ok(_) => Ok(Step::Done),
            Err(error) => Err(error),
        },
    }
}

/// The storage after the instruction in `input`: as the creation or the update
/// that it asks for leaves it, and unchanged where the bytes are no
/// instruction.
pub open spec fn process_instruction_storage(
    program_id: Seq<u8>,
    initializer: AccountView,
    pda_account: AccountView,
    input: Seq<u8>,
    allocation: Allocation,
) -> AccountView {
    match parse_instruction(input) {
        None => pda_account,
        Some(Instruction::AddReview { fields }) => add_review_storage(
            program_id,
            initializer,
            pda_account,
            fields,
            allocation,
        ),
        Some(Instruction::UpdateReview { fields }) => update_review_storage(
            program_id,
            initializer,
            pda_account,
            fields.rating,
            fields.description,
            fields.location,
        ),
    }
}

/// Reads the instruction in `instruction_data` and carries it out: a creation
/// by `add_review`, an update by `update_review`. `allocation` is read by a
/// creation only.
pub fn process_instruction(
    program_id: &Address,
    initializer: &Account,
    pda_account: &mut Account,
    instruction_data: &[u8],
    allocation: Allocation,
) -> (res: Result<Step, ReviewError>)
    ensures
        res == process_instruction_outcome(
            program_id@,
            initializer@,
            old(pda_account)@,
            instruction_data@,
            allocation,
        ),
        final(pda_account)@ == process_instruction_storage(
            program_id@,
            initializer@,
            old(pda_account)@,
            instruction_data@,
            allocation,
        ),
        res != Ok::<Step, ReviewError>(Step::Done) ==> *final(pda_account) == *old(pda_account),
{
    let instruction = match ReviewInstruction::unpack(instruction_data) {
        Ok(instruction) => instruction,
        Err(error) => return Err(error),
    };
    match instruction {
        ReviewInstruction::AddReview { title, rating, description, location } => add_review(
            program_id,
            initializer,
            pda_account,
            title,
            rating,
            description,
            location,
            allocation,
        ),
        ReviewInstruction::UpdateReview { title, rating, description, location } => {
            match update_review(
                program_id,
                initializer,
                pda_account,
                title,
                rating,
                description,
                location,
            ) {
                Ok(()) => Ok(Step::Done),
                Err(error) => Err(error),
            }
        },
    }
}

} // verus!
