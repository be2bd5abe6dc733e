use review_store::account::Account;
use review_store::address::Address;
use review_store::error::ReviewError;
use review_store::processor::{create_at, update_at, Allocation, Step};
use review_store::state::{AccountState, ACCOUNT_LEN};
use review_store::{add_review, process_instruction, update_review};

fn program_id() -> Address {
    Address::new([42u8; 32])
}

fn system_program() -> Address {
    Address::new([0u8; 32])
}

fn signer(seed: u8) -> Account {
    Account {
        key: Address::new([seed; 32]),
        owner: system_program(),
        is_signer: true,
        data: Vec::new(),
    }
}

fn address_of(caller: &Account, title: &str) -> Address {
    review_store::address::derive(&caller.key, title, &program_id()).unwrap().0
}

/// The storage of the review of `caller` titled `title` as the host provides
/// it: owned by the program, all bytes zero.
fn fresh_storage(caller: &Account, title: &str) -> Account {
    Account {
        key: address_of(caller, title),
        owner: program_id(),
        is_signer: false,
        data: vec![0u8; ACCOUNT_LEN],
    }
}

/// The account at the address of a review before the host provided storage.
fn missing_storage(caller: &Account, title: &str) -> Account {
    Account {
        key: address_of(caller, title),
        owner: system_program(),
        is_signer: false,
        data: Vec::new(),
    }
}

fn create(
    caller: &Account,
    storage: &mut Account,
    title: &str,
    rating: u8,
    description: &str,
    location: &str,
    allocation: Allocation,
) -> Result<Step, ReviewError> {
    add_review(
        &program_id(),
        caller,
        storage,
        title.to_string(),
        rating,
        description.to_string(),
        location.to_string(),
        allocation,
    )
}

fn update(
    caller: &Account,
    storage: &mut Account,
    rating: u8,
    description: &str,
    location: &str,
) -> Result<(), ReviewError> {
    update_review(
        &program_id(),
        caller,
        storage,
        String::new(),
        rating,
        description.to_string(),
        location.to_string(),
    )
}

fn cafe_storage(caller: &Account) -> Account {
    let mut storage = fresh_storage(caller, "Cafe");
    let done = create(caller, &mut storage, "Cafe", 8, "Great coffee", "Downtown", Allocation::Granted);
    assert_eq!(done, Ok(Step::Done));
    storage
}

fn instruction(tag: u8, title: &str, rating: u8, description: &str, location: &str) -> Vec<u8> {
    let mut bytes = vec![tag];
    bytes.extend_from_slice(&(title.len() as u32).to_le_bytes());
    bytes.extend_from_slice(title.as_bytes());
    bytes.push(rating);
    bytes.extend_from_slice(&(description.len() as u32).to_le_bytes());
    bytes.extend_from_slice(description.as_bytes());
    bytes.extend_from_slice(&(location.len() as u32).to_le_bytes());
    bytes.extend_from_slice(location.as_bytes());
    bytes
}

#[test]
fn create_first_asks_for_the_storage() {
    let caller = signer(1);
    let mut storage = missing_storage(&caller, "Cafe");
    let before = storage.clone();
    let bump = review_store::address::derive(&caller.key, "Cafe", &program_id()).unwrap().1;
    assert_eq!(
        create(&caller, &mut storage, "Cafe", 8, "Great coffee", "Downtown", Allocation::NotRequested),
        Ok(Step::Allocate { space: 1000, bump_seed: bump })
    );
    assert_eq!(storage, before);
}

#[test]
fn create_then_decode_shows_the_review() {
    let caller = signer(1);
    let mut storage = fresh_storage(&caller, "Cafe");
    assert_eq!(
        create(&caller, &mut storage, "Cafe", 8, "Great coffee", "Downtown", Allocation::Granted),
        Ok(Step::Done)
    );
    let state = AccountState::decode(&storage.data).unwrap();
    assert!(state.is_initialized());
    assert_eq!(state.title, "Cafe");
    assert_eq!(state.rating, 8);
    assert_eq!(state.description, "Great coffee");
    assert_eq!(state.location, "Downtown");
}

#[test]
fn create_writes_the_record_over_the_front_of_the_storage() {
    let caller = signer(1);
    let storage = cafe_storage(&caller);
    let mut expected = vec![1u8, 4, 0, 0, 0];
    expected.extend_from_slice(b"Cafe");
    expected.push(8);
    expected.extend_from_slice(&[12, 0, 0, 0]);
    expected.extend_from_slice(b"Great coffee");
    expected.extend_from_slice(&[8, 0, 0, 0]);
    expected.extend_from_slice(b"Downtown");
    expected.resize(ACCOUNT_LEN, 0);
    assert_eq!(storage.data, expected);
    assert_eq!(storage.key, address_of(&caller, "Cafe"));
    assert_eq!(storage.owner, program_id());
}

#[test]
fn create_takes_the_ratings_one_and_ten() {
    let caller = signer(1);
    for rating in [1u8, 10] {
        let mut storage = fresh_storage(&caller, "Cafe");
        assert_eq!(
            create(&caller, &mut storage, "Cafe", rating, "", "", Allocation::Granted),
            Ok(Step::Done)
        );
        assert_eq!(AccountState::decode(&storage.data).unwrap().rating, rating);
    }
}

#[test]
fn create_twice_is_refused_and_keeps_the_first_review() {
    let caller = signer(1);
    let mut storage = cafe_storage(&caller);
    let first = storage.clone();
    assert_eq!(
        create(&caller, &mut storage, "Cafe", 8, "Great coffee", "Downtown", Allocation::Granted),
        Err(ReviewError::AlreadyInitialized)
    );
    assert_eq!(storage, first);
    assert_eq!(
        create(&caller, &mut storage, "Cafe", 3, "Changed my mind", "Uptown", Allocation::Granted),
        Err(ReviewError::AlreadyInitialized)
    );
    assert_eq!(storage, first);
}

#[test]
fn create_without_signature_is_refused() {
    let mut caller = signer(1);
    caller.is_signer = false;
    let mut storage = fresh_storage(&caller, "Cafe");
    let before = storage.clone();
    for allocation in [Allocation::NotRequested, Allocation::Granted, Allocation::Refused] {
        assert_eq!(
            create(&caller, &mut storage, "Cafe", 8, "Great coffee", "Downtown", allocation),
            Err(ReviewError::Unauthorized)
        );
        assert_eq!(storage, before);
    }
}

#[test]
fn create_at_another_address_is_refused() {
    let caller = signer(1);
    let mut storage = fresh_storage(&caller, "Bar");
    let before = storage.clone();
    for allocation in [Allocation::NotRequested, Allocation::Granted, Allocation::Refused] {
        assert_eq!(
            create(&caller, &mut storage, "Cafe", 8, "Great coffee", "Downtown", allocation),
            Err(ReviewError::InvalidAddress)
        );
        assert_eq!(storage, before);
    }
    let mut storage = fresh_storage(&signer(2), "Cafe");
    assert_eq!(
        create(&caller, &mut storage, "Cafe", 8, "Great coffee", "Downtown", Allocation::Granted),
        Err(ReviewError::InvalidAddress)
    );
}

#[test]
fn create_with_a_title_without_address_is_refused() {
    let caller = signer(1);
    let title = "a".repeat(33);
    let mut storage = fresh_storage(&caller, "Cafe");
    let before = storage.clone();
    assert_eq!(
        create(&caller, &mut storage, &title, 8, "Great coffee", "Downtown", Allocation::Granted),
        Err(ReviewError::InvalidAddress)
    );
    assert_eq!(storage, before);
}

#[test]
fn create_with_rating_zero_or_eleven_is_refused() {
    let caller = signer(1);
    let mut storage = fresh_storage(&caller, "Cafe");
    let before = storage.clone();
    for rating in [0u8, 11] {
        for allocation in [Allocation::NotRequested, Allocation::Granted, Allocation::Refused] {
            assert_eq!(
                create(&caller, &mut storage, "Cafe", rating, "Great coffee", "Downtown", allocation),
                Err(ReviewError::InvalidRating)
            );
            assert_eq!(storage, before);
        }
    }
}

#[test]
fn create_with_rating_twelve_leaves_the_storage_uninitialized() {
    let caller = signer(1);
    let mut storage = fresh_storage(&caller, "Cafe");
    assert_eq!(
        create(&caller, &mut storage, "Cafe", 12, "Great coffee", "Downtown", Allocation::Granted),
        Err(ReviewError::InvalidRating)
    );
    let state = AccountState::decode(&storage.data).unwrap();
    assert!(!state.is_initialized());
    assert_eq!(storage.data, vec![0u8; ACCOUNT_LEN]);
}

#[test]
fn create_checks_the_signature_before_the_address_and_the_address_before_the_rating() {
    let mut caller = signer(1);
    let mut storage = fresh_storage(&caller, "Bar");
    assert_eq!(
        create(&caller, &mut storage, "Cafe", 0, "", "", Allocation::Granted),
        Err(ReviewError::InvalidAddress)
    );
    caller.is_signer = false;
    assert_eq!(
        create(&caller, &mut storage, "Cafe", 0, "", "", Allocation::Granted),
        Err(ReviewError::Unauthorized)
    );
}

#[test]
fn create_reports_a_refused_allocation() {
    let caller = signer(1);
    let mut storage = missing_storage(&caller, "Cafe");
    let before = storage.clone();
    assert_eq!(
        create(&caller, &mut storage, "Cafe", 8, "Great coffee", "Downtown", Allocation::Refused),
        Err(ReviewError::AllocationFailure)
    );
    assert_eq!(storage, before);
}

#[test]
fn create_refuses_storage_that_holds_no_record() {
    let caller = signer(1);
    let mut storage = missing_storage(&caller, "Cafe");
    assert_eq!(
        create(&caller, &mut storage, "Cafe", 8, "Great coffee", "Downtown", Allocation::Granted),
        Err(ReviewError::InvalidAccountData)
    );
    let mut storage = fresh_storage(&caller, "Cafe");
    storage.data[0] = 9;
    let before = storage.clone();
    assert_eq!(
        create(&caller, &mut storage, "Cafe", 8, "Great coffee", "Downtown", Allocation::Granted),
        Err(ReviewError::InvalidAccountData)
    );
    assert_eq!(storage, before);
}

#[test]
fn create_refuses_a_review_that_does_not_fit() {
    let caller = signer(1);
    let mut storage = fresh_storage(&caller, "Cafe");
    let before = storage.clone();
    let description = "d".repeat(ACCOUNT_LEN);
    assert_eq!(
        create(&caller, &mut storage, "Cafe", 8, &description, "Downtown", Allocation::Granted),
        Err(ReviewError::AccountDataTooSmall)
    );
    assert_eq!(storage, before);
    let mut storage = fresh_storage(&caller, "Cafe");
    storage.data.truncate(20);
    let before = storage.clone();
    assert_eq!(
        create(&caller, &mut storage, "Cafe", 8, "Great coffee", "Downtown", Allocation::Granted),
        Err(ReviewError::AccountDataTooSmall)
    );
    assert_eq!(storage, before);
}

#[test]
fn update_before_create_is_refused() {
    // The blank record has the empty title, so the storage of a review that
    // was never created passes the address check at the address of that title.
    let caller = signer(1);
    let mut storage = fresh_storage(&caller, "");
    let before = storage.clone();
    assert_eq!(
        update(&caller, &mut storage, 9, "Still great", "Downtown"),
        Err(ReviewError::UninitializedAccount)
    );
    assert_eq!(storage, before);
}

#[test]
fn update_before_create_under_a_title_fails_the_address_check() {
    let caller = signer(1);
    let mut storage = fresh_storage(&caller, "Cafe");
    let before = storage.clone();
    assert_eq!(
        update(&caller, &mut storage, 9, "Still great", "Downtown"),
        Err(ReviewError::InvalidAddress)
    );
    assert_eq!(storage, before);
}

#[test]
fn update_replaces_rating_description_and_location() {
    let caller = signer(1);
    let mut storage = cafe_storage(&caller);
    assert_eq!(update(&caller, &mut storage, 9, "Still great", "Downtown"), Ok(()));
    let state = AccountState::decode(&storage.data).unwrap();
    assert!(state.is_initialized());
    assert_eq!(state.title, "Cafe");
    assert_eq!(state.rating, 9);
    assert_eq!(state.description, "Still great");
    assert_eq!(state.location, "Downtown");
    assert_eq!(storage.data.len(), ACCOUNT_LEN);
}

#[test]
fn update_can_be_repeated() {
    let caller = signer(1);
    let mut storage = cafe_storage(&caller);
    assert_eq!(update(&caller, &mut storage, 9, "Still great", "Downtown"), Ok(()));
    assert_eq!(update(&caller, &mut storage, 2, "Went downhill", "Harbour"), Ok(()));
    let state = AccountState::decode(&storage.data).unwrap();
    assert_eq!(
        state,
        AccountState {
            is_initialized: true,
            title: "Cafe".to_string(),
            rating: 2,
            description: "Went downhill".to_string(),
            location: "Harbour".to_string(),
        }
    );
}

#[test]
fn update_does_not_read_the_title_it_is_given() {
    let caller = signer(1);
    let mut storage = cafe_storage(&caller);
    let result = update_review(
        &program_id(),
        &caller,
        &mut storage,
        "Another title".to_string(),
        9,
        "Still great".to_string(),
        "Downtown".to_string(),
    );
    assert_eq!(result, Ok(()));
    assert_eq!(AccountState::decode(&storage.data).unwrap().title, "Cafe");
}

#[test]
fn update_of_storage_of_another_program_is_refused() {
    let caller = signer(1);
    let mut storage = cafe_storage(&caller);
    storage.owner = system_program();
    let before = storage.clone();
    assert_eq!(
        update(&caller, &mut storage, 9, "Still great", "Downtown"),
        Err(ReviewError::IllegalOwner)
    );
    assert_eq!(storage, before);
}

#[test]
fn update_without_signature_is_refused() {
    let mut caller = signer(1);
    let mut storage = cafe_storage(&caller);
    caller.is_signer = false;
    let before = storage.clone();
    assert_eq!(
        update(&caller, &mut storage, 9, "Still great", "Downtown"),
        Err(ReviewError::Unauthorized)
    );
    assert_eq!(storage, before);
}

#[test]
fn update_by_another_caller_is_refused() {
    let caller = signer(1);
    let mut storage = cafe_storage(&caller);
    let before = storage.clone();
    assert_eq!(
        update(&signer(2), &mut storage, 9, "Still great", "Downtown"),
        Err(ReviewError::InvalidAddress)
    );
    assert_eq!(storage, before);
}

#[test]
fn update_with_rating_zero_or_eleven_is_refused() {
    let caller = signer(1);
    let mut storage = cafe_storage(&caller);
    let before = storage.clone();
    for rating in [0u8, 11] {
        assert_eq!(
            update(&caller, &mut storage, rating, "Still great", "Downtown"),
            Err(ReviewError::InvalidRating)
        );
        assert_eq!(storage, before);
    }
}

#[test]
fn update_refuses_storage_that_holds_no_record() {
    let caller = signer(1);
    let mut storage = cafe_storage(&caller);
    storage.data[0] = 3;
    let before = storage.clone();
    assert_eq!(
        update(&caller, &mut storage, 9, "Still great", "Downtown"),
        Err(ReviewError::InvalidAccountData)
    );
    assert_eq!(storage, before);
}

#[test]
fn update_refuses_a_review_that_does_not_fit() {
    let caller = signer(1);
    let mut storage = cafe_storage(&caller);
    let before = storage.clone();
    let description = "d".repeat(ACCOUNT_LEN);
    assert_eq!(
        update(&caller, &mut storage, 9, &description, "Downtown"),
        Err(ReviewError::AccountDataTooSmall)
    );
    assert_eq!(storage, before);
}

#[test]
fn update_checks_the_owner_before_the_signature() {
    let mut caller = signer(1);
    let mut storage = cafe_storage(&caller);
    caller.is_signer = false;
    storage.owner = system_program();
    assert_eq!(
        update(&caller, &mut storage, 0, "Still great", "Downtown"),
        Err(ReviewError::IllegalOwner)
    );
}

#[test]
fn update_checks_the_address_before_the_rating() {
    let caller = signer(1);
    let mut storage = cafe_storage(&caller);
    assert_eq!(
        update(&signer(2), &mut storage, 0, "Still great", "Downtown"),
        Err(ReviewError::InvalidAddress)
    );
}

#[test]
fn review_is_created_and_then_updated() {
    let caller = signer(7);
    let mut storage = missing_storage(&caller, "Cafe");
    let step = create(&caller, &mut storage, "Cafe", 8, "Great coffee", "Downtown", Allocation::NotRequested);
    let space = match step {
        Ok(Step::Allocate { space, .. }) => space,
        other => panic!("{:?}", other),
    };
    storage.owner = program_id();
    storage.data = vec![0u8; space];
    assert_eq!(
        create(&caller, &mut storage, "Cafe", 8, "Great coffee", "Downtown", Allocation::Granted),
        Ok(Step::Done)
    );
    assert_eq!(update(&caller, &mut storage, 9, "Still great", "Downtown"), Ok(()));
    let state = AccountState::decode(&storage.data).unwrap();
    assert_eq!(state.rating, 9);
    assert_eq!(state.description, "Still great");
    assert_eq!(state.title, "Cafe");
    assert_eq!(state.location, "Downtown");
    assert!(state.is_initialized());
}

#[test]
fn process_instruction_dispatches_a_creation() {
    let caller = signer(1);
    let mut storage = fresh_storage(&caller, "Cafe");
    let data = instruction(0, "Cafe", 8, "Great coffee", "Downtown");
    let bump = review_store::address::derive(&caller.key, "Cafe", &program_id()).unwrap().1;
    assert_eq!(
        process_instruction(&program_id(), &caller, &mut storage, &data, Allocation::NotRequested),
        Ok(Step::Allocate { space: ACCOUNT_LEN, bump_seed: bump })
    );
    assert_eq!(
        process_instruction(&program_id(), &caller, &mut storage, &data, Allocation::Granted),
        Ok(Step::Done)
    );
    assert_eq!(storage, cafe_storage(&caller));
}

#[test]
fn process_instruction_dispatches_an_update() {
    let caller = signer(1);
    let mut storage = cafe_storage(&caller);
    let data = instruction(1, "ignored", 9, "Still great", "Downtown");
    assert_eq!(
        process_instruction(&program_id(), &caller, &mut storage, &data, Allocation::NotRequested),
        Ok(Step::Done)
    );
    let state = AccountState::decode(&storage.data).unwrap();
    assert_eq!(state.title, "Cafe");
    assert_eq!(state.rating, 9);
    assert_eq!(state.description, "Still great");
}

#[test]
fn process_instruction_passes_refusals_on() {
    let caller = signer(1);
    let mut storage = cafe_storage(&caller);
    let before = storage.clone();
    let data = instruction(0, "Cafe", 8, "Great coffee", "Downtown");
    assert_eq!(
        process_instruction(&program_id(), &caller, &mut storage, &data, Allocation::Granted),
        Err(ReviewError::AlreadyInitialized)
    );
    let data = instruction(1, "Cafe", 11, "Still great", "Downtown");
    assert_eq!(
        process_instruction(&program_id(), &caller, &mut storage, &data, Allocation::Granted),
        Err(ReviewError::InvalidRating)
    );
    assert_eq!(storage, before);
}

#[test]
fn process_instruction_refuses_bytes_that_are_no_instruction() {
    let caller = signer(1);
    let mut storage = cafe_storage(&caller);
    let before = storage.clone();
    let data = instruction(2, "Cafe", 8, "Great coffee", "Downtown");
    assert_eq!(
        process_instruction(&program_id(), &caller, &mut storage, &data, Allocation::Granted),
        Err(ReviewError::InvalidInstructionData)
    );
    assert_eq!(
        process_instruction(&program_id(), &caller, &mut storage, &[], Allocation::Granted),
        Err(ReviewError::InvalidInstructionData)
    );
    assert_eq!(storage, before);
}

#[test]
fn create_at_goes_by_the_derivation_it_is_given() {
    let caller = signer(1);
    let mut storage = fresh_storage(&caller, "Cafe");
    storage.key = Address::new([9u8; 32]);
    let result = create_at(
        Some((Address::new([9u8; 32]), 250)),
        &caller,
        &mut storage,
        "Cafe".to_string(),
        8,
        "Great coffee".to_string(),
        "Downtown".to_string(),
        Allocation::NotRequested,
    );
    assert_eq!(result, Ok(Step::Allocate { space: 1000, bump_seed: 250 }));
    let result = create_at(
        Some((Address::new([9u8; 32]), 250)),
        &caller,
        &mut storage,
        "Cafe".to_string(),
        8,
        "Great coffee".to_string(),
        "Downtown".to_string(),
        Allocation::Granted,
    );
    assert_eq!(result, Ok(Step::Done));
    assert_eq!(AccountState::decode(&storage.data).unwrap().title, "Cafe");
}

#[test]
fn create_at_refuses_where_nothing_was_derived() {
    let caller = signer(1);
    let mut storage = fresh_storage(&caller, "Cafe");
    let before = storage.clone();
    let result = create_at(
        None,
        &caller,
        &mut storage,
        "Cafe".to_string(),
        8,
        "Great coffee".to_string(),
        "Downtown".to_string(),
        Allocation::Granted,
    );
    assert_eq!(result, Err(ReviewError::InvalidAddress));
    assert_eq!(storage, before);
}

#[test]
fn update_at_goes_by_the_derivation_it_is_given() {
    let caller = signer(1);
    let mut storage = cafe_storage(&caller);
    let before = storage.clone();
    let result = update_at(
        Some((Address::new([9u8; 32]), 250)),
        &program_id(),
        &caller,
        &mut storage,
        9,
        "Still great".to_string(),
        "Downtown".to_string(),
    );
    assert_eq!(result, Err(ReviewError::InvalidAddress));
    assert_eq!(storage, before);
    let result = update_at(
        Some((storage.key, 250)),
        &program_id(),
        &caller,
        &mut storage,
        9,
        "Still great".to_string(),
        "Downtown".to_string(),
    );
    assert_eq!(result, Ok(()));
    assert_eq!(AccountState::decode(&storage.data).unwrap().rating, 9);
}

#[test]
fn update_at_refuses_where_nothing_was_derived() {
    let caller = signer(1);
    let mut storage = cafe_storage(&caller);
    let before = storage.clone();
    let result = update_at(
        None,
        &program_id(),
        &caller,
        &mut storage,
        9,
        "Still great".to_string(),
        "Downtown".to_string(),
    );
    assert_eq!(result, Err(ReviewError::InvalidAddress));
    assert_eq!(storage, before);
}
