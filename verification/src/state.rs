//! The record of a review and its form in storage.

use vstd::prelude::*;
use vstd::utf8::encode_utf8;
use crate::error::ReviewError;
use crate::rating::valid_rating;
use crate::wire::{
    byte_bytes, flag_bytes, lemma_parse_byte_bytes, lemma_parse_flag_bytes,
    lemma_parse_string_bytes, lemma_string_bytes_len, parse_byte, parse_flag, parse_string,
    read_byte, read_flag, read_string, string_bytes, write_byte, write_flag, write_string,
};

verus! {

/// Number of bytes of the storage of one review. No record is encoded into
/// more.
pub const ACCOUNT_LEN: usize = 1000;

/// Number of bytes that a record takes besides the UTF-8 bytes of its three
/// strings: the flag, the rating and three length prefixes.
pub const FIXED_LEN: usize = 14;

/// A review as contracts speak of it.
pub struct Record {
    pub is_initialized: bool,
    pub title: Seq<char>,
    pub rating: u8,
    pub description: Seq<char>,
    pub location: Seq<char>,
}

/// What a caller says of a review: the four fields of a record that are the
/// caller's to set.
pub struct ReviewFields {
    pub title: Seq<char>,
    pub rating: u8,
    pub description: Seq<char>,
    pub location: Seq<char>,
}

/// A review as it is kept in storage.
#[derive(Clone, Debug, PartialEq, Eq)]
pub struct AccountState {
    pub is_initialized: bool,
    pub title: String,
    pub rating: u8,
    pub description: String,
    pub location: String,
}

impl View for AccountState {
    type V = Record;

    open spec fn view(&self) -> Record {
        Record {
            is_initialized: self.is_initialized,
            title: self.title@,
            rating: self.rating,
            description: self.description@,
            location: self.location@,
        }
    }
}

/// The record that storage holds before a review is created in it: not
/// initialized, with empty strings and the rating 0.
pub open spec fn blank_record() -> Record {
    Record {
        is_initialized: false,
        title: Seq::empty(),
        rating: 0,
        description: Seq::empty(),
        location: Seq::empty(),
    }
}

/// The record of a review with the given fields.
pub open spec fn review_record(fields: ReviewFields) -> Record {
    Record {
        is_initialized: true,
        title: fields.title,
        rating: fields.rating,
        description: fields.description,
        location: fields.location,
    }
}

/// The record that an update leaves of `stored`: the title and the flag stay,
/// the rating, the description and the location are replaced.
pub open spec fn updated_record(
    stored: Record,
    rating: u8,
    description: Seq<char>,
    location: Seq<char>,
) -> Record {
    Record { rating, description, location, ..stored }
}

/// The bytes of a record: the flag, the title, the rating, the description
/// and the location, each in its wire form, in this order.
pub open spec fn encode_record(record: Record) -> Seq<u8> {
    flag_bytes(record.is_initialized) + string_bytes(record.title) + byte_bytes(record.rating)
        + string_bytes(record.description) + string_bytes(record.location)
}

/// Number of bytes of `encode_record`.
pub open spec fn encoded_len(record: Record) -> int {
    FIXED_LEN + encode_utf8(record.title).len() + encode_utf8(record.description).len()
        + encode_utf8(record.location).len()
}

/// Whether the bytes of a record fit into the storage of a review.
pub open spec fn fits(record: Record) -> bool {
    encoded_len(record) <= ACCOUNT_LEN
}

/// Whether a record is one that storage may hold: the blank record, or an
/// initialized record with a valid rating that fits into the storage.
pub open spec fn valid_record(record: Record) -> bool {
    if record.is_initialized {
        valid_rating(record.rating) && fits(record)
    } else {
        record == blank_record()
    }
}

/// The record at the front of `input`; bytes after it are ignored. A flag of
/// 0 gives the blank record whatever follows it. A flag of 1 is followed by
/// the title, the rating, the description and the location.
pub open spec fn decode_record(input: Seq<u8>) -> Option<Record> {
    match parse_flag(input) {
        None => None,
        Some((false, _)) => Some(blank_record()),
        Some((true, after_flag)) => match parse_string(after_flag) {
            None => None,
            Some((title, after_title)) => match parse_byte(after_title) {
                None => None,
                Some((rating, after_rating)) => match parse_string(after_rating) {
                    None => None,
                    Some((description, after_description)) => match parse_string(
                        after_description,
                    ) {
                        None => None,
                        Some((location, _)) => Some(
                            Record { is_initialized: true, title, rating, description, location },
                        ),
                    },
                },
            },
        },
    }
}

/// The storage `data` with the bytes `encoded` written over its front.
pub open spec fn overwrite_front(data: Seq<u8>, encoded: Seq<u8>) -> Seq<u8> {
    encoded + data.skip(encoded.len() as int)
}

/// `encoded_len` is the length of `encode_record`.
pub proof fn lemma_encoded_len(record: Record)
    ensures
        encode_record(record).len() == encoded_len(record),
{
    lemma_string_bytes_len(record.title);
    lemma_string_bytes_len(record.description);
    lemma_string_bytes_len(record.location);
}

/// Decoding the bytes of a valid record gives the record back, whatever bytes
/// follow them.
pub proof fn lemma_decode_encode_prefix(record: Record, rest: Seq<u8>)
    requires
        valid_record(record),
    ensures
        decode_record(encode_record(record) + rest) == Some(record),
{
    let title = string_bytes(record.title);
    let rating = byte_bytes(record.rating);
    let description = string_bytes(record.description);
    let location = string_bytes(record.location);
    let after_description = location + rest;
    let after_rating = description + after_description;
    let after_title = rating + after_rating;
    let after_flag = title + after_title;
    let input = encode_record(record) + rest;
    assert(input =~= flag_bytes(record.is_initialized) + after_flag);
    lemma_parse_flag_bytes(record.is_initialized, after_flag);
    if record.is_initialized {
        lemma_parse_string_bytes(record.title, after_title);
        lemma_parse_byte_bytes(record.rating, after_rating);
        lemma_parse_string_bytes(record.description, after_description);
        lemma_parse_string_bytes(record.location, rest);
    }
}

/// Decoding inverts encoding: the bytes of a valid record decode to the
/// record.
pub proof fn decode_inverts_encode(record: Record)
    requires
        valid_record(record),
    ensures
        decode_record(encode_record(record)) == Some(record),
{
    lemma_decode_encode_prefix(record, Seq::empty());
    assert(encode_record(record) + Seq::<u8>::empty() =~= encode_record(record));
}

impl AccountState {
    /// The record of a storage in which no review was created.
    pub fn blank() -> (res: AccountState)
        ensures
            res@ == blank_record(),
    {
        AccountState {
            is_initialized: false,
            title: String::new(),
            rating: 0,
            description: String::new(),
            location: String::new(),
        }
    }

    /// Whether a review was created in the storage that held this record.
    pub fn is_initialized(&self) -> (res: bool)
        ensures
            res == self@.is_initialized,
    {
        self.is_initialized
    }

    /// The bytes of the record, or `None` where they would not fit into the
    /// storage of a review.
    pub fn encode(&self) -> (res: Option<Vec<u8>>)
        ensures
            res is Some <==> fits(self@),
            res matches Some(bytes) ==> bytes@ == encode_record(self@) && bytes@.len()
                <= ACCOUNT_LEN,
    {
        let title_len: usize = self.title.as_str().as_bytes().len();
        let description_len: usize = self.description.as_str().as_bytes().len();
        let location_len: usize = self.location.as_str().as_bytes().len();
        if title_len > ACCOUNT_LEN || description_len > ACCOUNT_LEN || location_len > ACCOUNT_LEN {
            return None;
        }
        if FIXED_LEN + title_len + description_len + location_len > ACCOUNT_LEN {
            return None;
        }
        let mut bytes: Vec<u8> = Vec::new();
        write_flag(self.is_initialized, &mut bytes);
        let _ = write_string(self.title.as_str(), &mut bytes);
        write_byte(self.rating, &mut bytes);
        let _ = write_string(self.description.as_str(), &mut bytes);
        let _ = write_string(self.location.as_str(), &mut bytes);
        proof {
            lemma_encoded_len(self@);
            assert(bytes@ =~= encode_record(self@));
        }
        Some(bytes)
    }

    /// The record at the front of `input`, or `None` where the bytes are no
    /// record. Bytes after the record are ignored.
    pub fn decode(input: &[u8]) -> (res: Option<AccountState>)
        ensures
            res matches Some(state) ==> decode_record(input@) == Some(state@),
            res is None ==> decode_record(input@) is None,
    {
        let (flag, after_flag) = match read_flag(input) {
            Some(found) => found,
            None => return None,
        };
        if !flag {
            return Some(AccountState::blank());
        }
        let (title, after_title) = match read_string(after_flag) {
            Some(found) => found,
            None => return None,
        };
        let (rating, after_rating) = match read_byte(after_title) {
            Some(found) => found,
            None => return None,
        };
        let (description, after_description) = match read_string(after_rating) {
            Some(found) => found,
            None => return None,
        };
        let (location, _) = match read_string(after_description) {
            Some(found) => found,
            None => return None,
        };
        Some(AccountState { is_initialized: true, title, rating, description, location })
    }

    /// Writes the bytes of the record over the front of the storage `data` and
    /// leaves the bytes behind them as they are. Where the record does not fit
    /// into the storage of a review, or `data` is shorter than the record's
    /// bytes, nothing is written.
    pub fn store(&self, data: &mut Vec<u8>) -> (res: Result<(), ReviewError>)
        ensures
            res is Ok <==> fits(self@) && encoded_len(self@) <= old(data)@.len(),
            res is Ok ==> final(data)@ == overwrite_front(old(data)@, encode_record(self@)),
            res is Err ==> res == Err::<(), ReviewError>(ReviewError::AccountDataTooSmall)
                && *final(data) == *old(data),
    {
        let encoded = match self.encode() {
            Some(bytes) => bytes,
            None => return Err(ReviewError::AccountDataTooSmall),
        };
        proof {
            lemma_encoded_len(self@);
        }
        if encoded.len() > data.len() {
            return Err(ReviewError::AccountDataTooSmall);
        }
        let mut i: usize = 0;
        while i < encoded.len()
            invariant
                i <= encoded.len() <= data.len(),
                data@.len() == old(data)@.len(),
                forall|j: int| 0 <= j < i ==> data@[j] == encoded@[j],
                forall|j: int| i <= j < data@.len() ==> data@[j] == old(data)@[j],
            decreases encoded.len() - i,
        {
            data.set(i, encoded[i]);
            i = i + 1;
        }
        proof {
            assert(data@ =~= overwrite_front(old(data)@, encoded@));
        }
        Ok(())
    }
}

} // verus!
