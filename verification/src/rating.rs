//! Validation of the rating of a review.

use vstd::prelude::*;
use crate::error::ReviewError;

verus! {

/// The lowest rating a review may carry.
pub const MIN_RATING: u8 = 1;

/// The highest rating a review may carry.
pub const MAX_RATING: u8 = 10;

/// Whether `rating` is one a review may carry.
pub open spec fn valid_rating(rating: u8) -> bool {
    MIN_RATING <= rating <= MAX_RATING
}

/// Accepts the ratings from `MIN_RATING` to `MAX_RATING` and refuses every
/// other with `InvalidRating`.
pub fn validate_rating(rating: u8) -> (res: Result<(), ReviewError>)
    ensures
        res == if valid_rating(rating) {
            Ok::<(), ReviewError>(())
        } else {
            Err::<(), ReviewError>(ReviewError::InvalidRating)
        },
{
    if rating > MAX_RATING || rating < MIN_RATING {
        Err(ReviewError::InvalidRating)
    } else {
        Ok(())
    }
}

} // verus!
