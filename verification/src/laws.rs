//! What holds of the life of a review, from its creation through its updates.

use vstd::prelude::*;
use vstd::utf8::{encode_utf8, encode_utf8_decode_utf8};
use crate::account::AccountView;
use crate::address::{derived_address, derives_to, ADDRESS_BYTES};
use crate::error::ReviewError;
use crate::processor::{
    add_review_outcome, add_review_storage, storable, update_review_outcome,
    update_review_storage, Allocation, Step,
};
use crate::rating::valid_rating;
use crate::state::{
    decode_record, encode_record, lemma_decode_encode_prefix, lemma_encoded_len, review_record,
    updated_record, valid_record, Record, ReviewFields,
};

verus! {

/// The same owner, title and program derive the same address and the same
/// bump seed, whenever and wherever the derivation is made.
pub proof fn derivation_is_deterministic(
    owner: Seq<u8>,
    title: Seq<char>,
    program_id: Seq<u8>,
    other_owner: Seq<u8>,
    other_title: Seq<char>,
    other_program_id: Seq<u8>,
)
    requires
        owner == other_owner,
        title == other_title,
        program_id == other_program_id,
    ensures
        derived_address(owner, title, program_id) == derived_address(
            other_owner,
            other_title,
            other_program_id,
        ),
{
}

/// Different reviews are derived from different bytes. The derivation hashes
/// its seeds one after the other, the owner's address first, then the UTF-8
/// bytes of the title; two reviews that differ in owner or in title differ in
/// these bytes, however long their titles are.
pub proof fn distinct_reviews_have_distinct_seeds(
    owner: Seq<u8>,
    title: Seq<char>,
    other_owner: Seq<u8>,
    other_title: Seq<char>,
)
    requires
        owner.len() == ADDRESS_BYTES,
        other_owner.len() == ADDRESS_BYTES,
        owner != other_owner || title != other_title,
    ensures
        owner + encode_utf8(title) != other_owner + encode_utf8(other_title),
        seq![owner, encode_utf8(title)] != seq![other_owner, encode_utf8(other_title)],
{
    let seeds = owner + encode_utf8(title);
    let other_seeds = other_owner + encode_utf8(other_title);
    if seeds == other_seeds {
        assert(seeds.take(ADDRESS_BYTES as int) =~= owner);
        assert(other_seeds.take(ADDRESS_BYTES as int) =~= other_owner);
        assert(seeds.skip(ADDRESS_BYTES as int) =~= encode_utf8(title));
        assert(other_seeds.skip(ADDRESS_BYTES as int) =~= encode_utf8(other_title));
        encode_utf8_decode_utf8(title);
        encode_utf8_decode_utf8(other_title);
        assert(false);
    }
    if seq![owner, encode_utf8(title)] == seq![other_owner, encode_utf8(other_title)] {
        assert(seq![owner, encode_utf8(title)][0] == owner);
        assert(seq![other_owner, encode_utf8(other_title)][0] == other_owner);
        assert(seq![owner, encode_utf8(title)][1] == encode_utf8(title));
        assert(seq![other_owner, encode_utf8(other_title)][1] == encode_utf8(other_title));
        encode_utf8_decode_utf8(title);
        encode_utf8_decode_utf8(other_title);
        assert(false);
    }
}

/// A creation that ends with `Step::Done` was granted its storage by a caller
/// who signed, at the address derived from the caller and the title, with a
/// valid rating, in a storage that held no review; and the review is valid.
pub proof fn creation_passed_every_check(
    program_id: Seq<u8>,
    initializer: AccountView,
    pda_account: AccountView,
    fields: ReviewFields,
    allocation: Allocation,
)
    requires
        add_review_outcome(program_id, initializer, pda_account, fields, allocation) == Ok::<
            Step,
            ReviewError,
        >(Step::Done),
    ensures
        allocation == Allocation::Granted,
        initializer.is_signer,
        derives_to(pda_account.key, initializer.key, fields.title, program_id),
        valid_rating(fields.rating),
        decode_record(pda_account.data) matches Some(stored) && !stored.is_initialized,
        storable(review_record(fields), pda_account.data),
        valid_record(review_record(fields)),
{
}

/// After a creation that ended with `Step::Done`, the storage decodes to the
/// review that was created: initialized, with the title, the rating, the
/// description and the location that were given.
pub proof fn created_review_is_stored(
    program_id: Seq<u8>,
    initializer: AccountView,
    pda_account: AccountView,
    fields: ReviewFields,
    allocation: Allocation,
)
    requires
        add_review_outcome(program_id, initializer, pda_account, fields, allocation) == Ok::<
            Step,
            ReviewError,
        >(Step::Done),
    ensures
        decode_record(
            add_review_storage(program_id, initializer, pda_account, fields, allocation).data,
        ) == Some(review_record(fields)),
        valid_record(review_record(fields)),
{
    let review = review_record(fields);
    lemma_decode_encode_prefix(review, pda_account.data.skip(encode_record(review).len() as int));
}

/// A second creation in a storage never ends with `Step::Done` and leaves the
/// storage as the first creation left it, whoever asks for it and whatever
/// review it brings. Once the host reports the storage as granted, the second
/// creation is refused; where it passes the checks of caller, address and
/// rating, as a repetition of the first does, it is refused with
/// `AlreadyInitialized`.
pub proof fn second_creation_is_refused(
    program_id: Seq<u8>,
    initializer: AccountView,
    pda_account: AccountView,
    fields: ReviewFields,
    second_initializer: AccountView,
    second_fields: ReviewFields,
    second_allocation: Allocation,
)
    requires
        add_review_outcome(program_id, initializer, pda_account, fields, Allocation::Granted)
            == Ok::<Step, ReviewError>(Step::Done),
    ensures
        ({
            let stored = add_review_storage(
                program_id,
                initializer,
                pda_account,
                fields,
                Allocation::Granted,
            );
            let second = add_review_outcome(
                program_id,
                second_initializer,
                stored,
                second_fields,
                second_allocation,
            );
            &&& second != Ok::<Step, ReviewError>(Step::Done)
            &&& add_review_storage(
                program_id,
                second_initializer,
                stored,
                second_fields,
                second_allocation,
            ) == stored
            &&& second_allocation == Allocation::Granted ==> second is Err
            &&& second_allocation == Allocation::Granted && second_initializer.is_signer
                && derives_to(
                stored.key,
                second_initializer.key,
                second_fields.title,
                program_id,
            ) && valid_rating(second_fields.rating) ==> second == Err::<Step, ReviewError>(
                ReviewError::AlreadyInitialized,
            )
            &&& add_review_outcome(program_id, initializer, stored, fields, Allocation::Granted)
                == Err::<Step, ReviewError>(ReviewError::AlreadyInitialized)
        }),
{
    created_review_is_stored(program_id, initializer, pda_account, fields, Allocation::Granted);
}

/// An update of a storage in which no review was created is refused and
/// leaves the storage as it was. Where the storage belongs to the program, the
/// caller signed and the storage lies at the address derived from the caller
/// and the stored title, it is refused with `UninitializedAccount`.
pub proof fn update_before_creation_is_refused(
    program_id: Seq<u8>,
    initializer: AccountView,
    pda_account: AccountView,
    rating: u8,
    description: Seq<char>,
    location: Seq<char>,
)
    requires
        decode_record(pda_account.data) matches Some(stored) && !stored.is_initialized,
    ensures
        update_review_outcome(program_id, initializer, pda_account, rating, description, location)
            is Err,
        update_review_storage(program_id, initializer, pda_account, rating, description, location)
            == pda_account,
        pda_account.owner == program_id && initializer.is_signer && derives_to(
            pda_account.key,
            initializer.key,
            decode_record(pda_account.data)->0.title,
            program_id,
        ) ==> update_review_outcome(
            program_id,
            initializer,
            pda_account,
            rating,
            description,
            location,
        ) == Err::<(), ReviewError>(ReviewError::UninitializedAccount),
{
}

/// A creation with a rating outside the valid range is refused at every
/// stage and leaves the storage as it was. Where the caller signed and the
/// storage lies at the address derived from the caller and the title, it is
/// refused with `InvalidRating`.
pub proof fn creation_with_invalid_rating_is_refused(
    program_id: Seq<u8>,
    initializer: AccountView,
    pda_account: AccountView,
    fields: ReviewFields,
    allocation: Allocation,
)
    requires
        !valid_rating(fields.rating),
    ensures
        add_review_outcome(program_id, initializer, pda_account, fields, allocation) is Err,
        add_review_storage(program_id, initializer, pda_account, fields, allocation)
            == pda_account,
        initializer.is_signer && derives_to(
            pda_account.key,
            initializer.key,
            fields.title,
            program_id,
        ) ==> add_review_outcome(program_id, initializer, pda_account, fields, allocation) == Err::<
            Step,
            ReviewError,
        >(ReviewError::InvalidRating),
{
}

/// An update with a rating outside the valid range is refused and leaves the
/// storage as it was. Where the storage belongs to the program, the caller
/// signed, and the storage holds a review at the address derived from the
/// caller and its title, it is refused with `InvalidRating`.
pub proof fn update_with_invalid_rating_is_refused(
    program_id: Seq<u8>,
    initializer: AccountView,
    pda_account: AccountView,
    rating: u8,
    description: Seq<char>,
    location: Seq<char>,
)
    requires
        !valid_rating(rating),
    ensures
        update_review_outcome(program_id, initializer, pda_account, rating, description, location)
            is Err,
        update_review_storage(program_id, initializer, pda_account, rating, description, location)
            == pda_account,
        pda_account.owner == program_id && initializer.is_signer && (decode_record(
            pda_account.data,
        ) matches Some(stored) && stored.is_initialized && derives_to(
            pda_account.key,
            initializer.key,
            stored.title,
            program_id,
        )) ==> update_review_outcome(
            program_id,
            initializer,
            pda_account,
            rating,
            description,
            location,
        ) == Err::<(), ReviewError>(ReviewError::InvalidRating),
{
}

/// An update by a caller from whom, with the stored title, the address of the
/// storage does not derive is refused and leaves the storage as it was. Where
/// the storage belongs to the program and holds a record, and the caller
/// signed, it is refused with `InvalidAddress`.
pub proof fn update_by_another_caller_is_refused(
    program_id: Seq<u8>,
    initializer: AccountView,
    pda_account: AccountView,
    rating: u8,
    description: Seq<char>,
    location: Seq<char>,
)
    requires
        decode_record(pda_account.data) matches Some(stored) && !derives_to(
            pda_account.key,
            initializer.key,
            stored.title,
            program_id,
        ),
    ensures
        update_review_outcome(program_id, initializer, pda_account, rating, description, location)
            is Err,
        update_review_storage(program_id, initializer, pda_account, rating, description, location)
            == pda_account,
        pda_account.owner == program_id && initializer.is_signer ==> update_review_outcome(
            program_id,
            initializer,
            pda_account,
            rating,
            description,
            location,
        ) == Err::<(), ReviewError>(ReviewError::InvalidAddress),
{
}

/// An operation that is refused, and a creation that asks for the storage,
/// leave the storage as it was.
pub proof fn refused_operation_changes_nothing(
    program_id: Seq<u8>,
    initializer: AccountView,
    pda_account: AccountView,
    fields: ReviewFields,
    allocation: Allocation,
)
    ensures
        add_review_outcome(program_id, initializer, pda_account, fields, allocation) != Ok::<
            Step,
            ReviewError,
        >(Step::Done) ==> add_review_storage(
            program_id,
            initializer,
            pda_account,
            fields,
            allocation,
        ) == pda_account,
        update_review_outcome(
            program_id,
            initializer,
            pda_account,
            fields.rating,
            fields.description,
            fields.location,
        ) is Err ==> update_review_storage(
            program_id,
            initializer,
            pda_account,
            fields.rating,
            fields.description,
            fields.location,
        ) == pda_account,
{
}

/// An update that succeeds was asked for by a caller who signed, on storage
/// of the program at the address derived from the caller and the stored
/// title, and leaves a valid review in the storage: initialized as before,
/// under the title it had, with the new rating, description and location. The
/// storage keeps its address, its owner and its length.
pub proof fn updated_review_is_stored(
    program_id: Seq<u8>,
    initializer: AccountView,
    pda_account: AccountView,
    rating: u8,
    description: Seq<char>,
    location: Seq<char>,
)
    requires
        update_review_outcome(program_id, initializer, pda_account, rating, description, location)
            is Ok,
    ensures
        ({
            let before = decode_record(pda_account.data)->0;
            let stored = update_review_storage(
                program_id,
                initializer,
                pda_account,
                rating,
                description,
                location,
            );
            let after = decode_record(stored.data)->0;
            &&& pda_account.owner == program_id
            &&& initializer.is_signer
            &&& decode_record(pda_account.data) is Some
            &&& derives_to(pda_account.key, initializer.key, before.title, program_id)
            &&& decode_record(stored.data) is Some
            &&& after == updated_record(before, rating, description, location)
            &&& after.is_initialized && before.is_initialized
            &&& after.title == before.title
            &&& valid_record(after)
            &&& stored.key == pda_account.key
            &&& stored.owner == pda_account.owner
            &&& stored.data.len() == pda_account.data.len()
        }),
{
    let before = decode_record(pda_account.data)->0;
    let after = updated_record(before, rating, description, location);
    lemma_encoded_len(after);
    lemma_decode_encode_prefix(after, pda_account.data.skip(encode_record(after).len() as int));
}

/// A review that was created in storage of the program can be updated by its
/// creator: an update with a valid rating that fits into the storage
/// succeeds, and the storage then decodes to the review under the title it
/// was created with, with the new rating, description and location.
pub proof fn created_review_can_be_updated(
    program_id: Seq<u8>,
    initializer: AccountView,
    pda_account: AccountView,
    fields: ReviewFields,
    rating: u8,
    description: Seq<char>,
    location: Seq<char>,
)
    requires
        add_review_outcome(program_id, initializer, pda_account, fields, Allocation::Granted)
            == Ok::<Step, ReviewError>(Step::Done),
        pda_account.owner == program_id,
        valid_rating(rating),
        storable(
            updated_record(review_record(fields), rating, description, location),
            pda_account.data,
        ),
    ensures
        ({
            let created = add_review_storage(
                program_id,
                initializer,
                pda_account,
                fields,
                Allocation::Granted,
            );
            let updated = update_review_storage(
                program_id,
                initializer,
                created,
                rating,
                description,
                location,
            );
            &&& update_review_outcome(
                program_id,
                initializer,
                created,
                rating,
                description,
                location,
            ) is Ok
            &&& decode_record(updated.data) == Some(
                Record { is_initialized: true, title: fields.title, rating, description, location },
            )
        }),
{
    created_review_is_stored(program_id, initializer, pda_account, fields, Allocation::Granted);
    lemma_encoded_len(review_record(fields));
    let created = add_review_storage(
        program_id,
        initializer,
        pda_account,
        fields,
        Allocation::Granted,
    );
    assert(created.data.len() == pda_account.data.len());
    updated_review_is_stored(program_id, initializer, created, rating, description, location);
}

} // verus!
