use review_store::error::ReviewError;
use review_store::rating::{validate_rating, MAX_RATING, MIN_RATING};

#[test]
fn rating_bounds_are_one_and_ten() {
    assert_eq!(MIN_RATING, 1);
    assert_eq!(MAX_RATING, 10);
}

#[test]
fn ratings_from_one_to_ten_are_accepted() {
    for rating in 1u8..=10 {
        assert_eq!(validate_rating(rating), Ok(()));
    }
}

#[test]
fn rating_zero_is_refused() {
    assert_eq!(validate_rating(0), Err(ReviewError::InvalidRating));
}

#[test]
fn rating_eleven_is_refused() {
    assert_eq!(validate_rating(11), Err(ReviewError::InvalidRating));
}

#[test]
fn every_rating_above_ten_is_refused() {
    for rating in 11u8..=255 {
        assert_eq!(validate_rating(rating), Err(ReviewError::InvalidRating));
    }
}
