//! The instructions of the program and their form in bytes.

use vstd::prelude::*;
use crate::error::ReviewError;
use crate::state::ReviewFields;
use crate::wire::{parse_byte, parse_string, read_byte, read_string};

verus! {

/// The first byte of an instruction that creates a review.
pub const ADD_REVIEW_TAG: u8 = 0;

/// The first byte of an instruction that updates a review.
pub const UPDATE_REVIEW_TAG: u8 = 1;

/// An instruction as contracts speak of it.
pub enum Instruction {
    AddReview { fields: ReviewFields },
    UpdateReview { fields: ReviewFields },
}

/// An instruction of the program.
#[derive(Clone, Debug, PartialEq, Eq)]
pub enum ReviewInstruction {
    AddReview { title: String, rating: u8, description: String, location: String },
    UpdateReview { title: String, rating: u8, description: String, location: String },
}

impl View for ReviewInstruction {
    type V = Instruction;

    open spec fn view(&self) -> Instruction {
        match self {
            ReviewInstruction::AddReview { title, rating, description, location } => {
                Instruction::AddReview {
                    fields: ReviewFields {
                        title: title@,
                        rating: *rating,
                        description: description@,
                        location: location@,
                    },
                }
            },
            ReviewInstruction::UpdateReview { title, rating, description, location } => {
                Instruction::UpdateReview {
                    fields: ReviewFields {
                        title: title@,
                        rating: *rating,
                        description: description@,
                        location: location@,
                    },
                }
            },
        }
    }
}

/// The payload that `input` holds from its first to its last byte: the title,
/// the rating, the description and the location, each in its wire form.
pub open spec fn parse_payload(input: Seq<u8>) -> Option<ReviewFields> {
    match parse_string(input) {
        None => None,
        Some((title, after_title)) => match parse_byte(after_title) {
            None => None,
            Some((rating, after_rating)) => match parse_string(after_rating) {
                None => None,
                Some((description, after_description)) => match parse_string(after_description) {
                    None => None,
                    Some((location, rest)) => if rest.len() == 0 {
                        Some(ReviewFields { title, rating, description, location })
                    } else {
                        None
                    },
                },
            },
        },
    }
}

/// The instruction that `input` holds: a tag byte, then the payload up to the
/// last byte.
pub open spec fn parse_instruction(input: Seq<u8>) -> Option<Instruction> {
    match parse_byte(input) {
        None => None,
        Some((tag, after_tag)) => match parse_payload(after_tag) {
            None => None,
            Some(fields) => if tag == ADD_REVIEW_TAG {
                Some(Instruction::AddReview { fields })
            } else if tag == UPDATE_REVIEW_TAG {
                Some(Instruction::UpdateReview { fields })
            } else {
                None
            },
        },
    }
}

impl ReviewInstruction {
    /// Reads an instruction from `input`. Bytes that are no instruction, from
    /// the first to the last, are refused with `InvalidInstructionData`.
    pub fn unpack(input: &[u8]) -> (res: Result<ReviewInstruction, ReviewError>)
        ensures
            res matches Ok(instruction) ==> parse_instruction(input@) == Some(instruction@),
            res matches Err(error) ==> error == ReviewError::InvalidInstructionData
                && parse_instruction(input@) is None,
    {
        let (tag, after_tag) = match read_byte(input) {
            Some(found) => found,
            None => return Err(ReviewError::InvalidInstructionData),
        };
        let (title, after_title) = match read_string(after_tag) {
            Some(found) => found,
            None => return Err(ReviewError::InvalidInstructionData),
        };
        let (rating, after_rating) = match read_byte(after_title) {
            Some(found) => found,
            None => return Err(ReviewError::InvalidInstructionData),
        };
        let (description, after_description) = match read_string(after_rating) {
            Some(found) => found,
            None => return Err(ReviewError::InvalidInstructionData),
        };
        let (location, rest) = match read_string(after_description) {
            Some(found) => found,
            None => return Err(ReviewError::InvalidInstructionData),
        };
        if rest.len() != 0 {
            return Err(ReviewError::InvalidInstructionData);
        }
        if tag == ADD_REVIEW_TAG {
            Ok(ReviewInstruction::AddReview { title, rating, description, location })
        } else if tag == UPDATE_REVIEW_TAG {
            Ok(ReviewInstruction::UpdateReview { title, rating, description, location })
        } else {
            Err(ReviewError::InvalidInstructionData)
        }
    }
}

} // verus!
