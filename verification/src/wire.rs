//! The wire form of the fields of a record: the bytes that `borsh` writes for
//! a flag, a byte and a string, and what it reads back from bytes.

use vstd::prelude::*;
use vstd::bytes::{
    lemma_auto_spec_u32_to_from_le_bytes, spec_u32_from_le_bytes, spec_u32_to_le_bytes,
};
use vstd::utf8::{
    decode_utf8, encode_utf8, encode_utf8_decode_utf8, encode_utf8_valid_utf8, valid_utf8,
};
use borsh::{BorshDeserialize, BorshSerialize};

verus! {

/// Number of bytes in the length that precedes a string.
pub const LENGTH_PREFIX_BYTES: usize = 4;

/// The wire form of a flag: one byte, 1 for `true` and 0 for `false`.
pub open spec fn flag_bytes(flag: bool) -> Seq<u8> {
    seq![if flag { 1u8 } else { 0u8 }]
}

/// The wire form of a byte: the byte itself.
pub open spec fn byte_bytes(value: u8) -> Seq<u8> {
    seq![value]
}

/// The wire form of a string: the number of bytes of its UTF-8 form as a
/// little-endian `u32`, then those bytes.
pub open spec fn string_bytes(text: Seq<char>) -> Seq<u8> {
    spec_u32_to_le_bytes(encode_utf8(text).len() as u32) + encode_utf8(text)
}

/// Whether a string has a wire form: its UTF-8 form is short enough for the
/// length prefix.
pub open spec fn string_fits(text: Seq<char>) -> bool {
    encode_utf8(text).len() <= u32::MAX
}

/// Reads a flag from the front of `input`: the flag and the bytes after it.
/// A first byte other than 0 and 1 is no flag.
pub open spec fn parse_flag(input: Seq<u8>) -> Option<(bool, Seq<u8>)> {
    if input.len() < 1 || input[0] > 1 {
        None
    } else {
        Some((input[0] == 1, input.skip(1)))
    }
}

/// Reads a byte from the front of `input`: the byte and the bytes after it.
pub open spec fn parse_byte(input: Seq<u8>) -> Option<(u8, Seq<u8>)> {
    if input.len() < 1 {
        None
    } else {
        Some((input[0], input.skip(1)))
    }
}

/// Reads a string from the front of `input`: the string and the bytes after
/// it. The input must hold the length prefix and as many bytes as it
/// announces, and these must be valid UTF-8.
pub open spec fn parse_string(input: Seq<u8>) -> Option<(Seq<char>, Seq<u8>)> {
    if input.len() < LENGTH_PREFIX_BYTES {
        None
    } else {
        let len = spec_u32_from_le_bytes(input.take(LENGTH_PREFIX_BYTES as int)) as int;
        let body = input.skip(LENGTH_PREFIX_BYTES as int);
        if body.len() < len || !valid_utf8(body.take(len)) {
            None
        } else {
            Some((decode_utf8(body.take(len)), body.skip(len)))
        }
    }
}

/// Calls `borsh`'s `BorshSerialize::serialize` for `bool` on a byte vector.
///
/// Trusted: it appends the one byte of `flag_bytes`.
#[verifier::external_body]
pub(crate) fn write_flag(flag: bool, out: &mut Vec<u8>)
    ensures
        final(out)@ == old(out)@ + flag_bytes(flag),
{
    BorshSerialize::serialize(&flag, out).unwrap_or(())
}

/// Calls `borsh`'s `BorshSerialize::serialize` for `u8` on a byte vector.
///
/// Trusted: it appends the byte.
#[verifier::external_body]
pub(crate) fn write_byte(value: u8, out: &mut Vec<u8>)
    ensures
        final(out)@ == old(out)@ + byte_bytes(value),
{
    BorshSerialize::serialize(&value, out).unwrap_or(())
}

/// Calls `borsh`'s `BorshSerialize::serialize` for `str` on a byte vector.
///
/// Trusted: it refuses a string whose UTF-8 form is longer than `u32::MAX`
/// bytes and then writes nothing; for every other string it appends the
/// little-endian length and the UTF-8 bytes.
#[verifier::external_body]
pub(crate) fn write_string(text: &str, out: &mut Vec<u8>) -> (written: bool)
    ensures
        written == string_fits(text@),
        written ==> final(out)@ == old(out)@ + string_bytes(text@),
        !written ==> final(out)@ == old(out)@,
{
    BorshSerialize::serialize(text, out).is_ok()
}

/// Calls `borsh`'s `BorshDeserialize::deserialize` for `bool`.
///
/// Trusted: it takes one byte from the front, which must be 0 or 1, and
/// leaves the rest.
#[verifier::external_body]
pub(crate) fn read_flag<'a>(input: &'a [u8]) -> (res: Option<(bool, &'a [u8])>)
    ensures
        res matches Some((flag, rest)) ==> parse_flag(input@) == Some((flag, rest@)),
        res is None ==> parse_flag(input@) is None,
{
    let mut rest = input;
    match bool::deserialize(&mut rest) {
        Ok(flag) => Some((flag, rest)),
        Err(_) => None,
    }
}

/// Calls `borsh`'s `BorshDeserialize::deserialize` for `u8`.
///
/// Trusted: it takes one byte from the front and leaves the rest.
#[verifier::external_body]
pub(crate) fn read_byte<'a>(input: &'a [u8]) -> (res: Option<(u8, &'a [u8])>)
    ensures
        res matches Some((value, rest)) ==> parse_byte(input@) == Some((value, rest@)),
        res is None ==> parse_byte(input@) is None,
{
    let mut rest = input;
    match u8::deserialize(&mut rest) {
        Ok(value) => Some((value, rest)),
        Err(_) => None,
    }
}

/// Calls `borsh`'s `BorshDeserialize::deserialize` for `String`.
///
/// Trusted: it takes a little-endian `u32` length and that many bytes from
/// the front, fails where the input is shorter or the bytes are not UTF-8,
/// and leaves the rest.
#[verifier::external_body]
pub(crate) fn read_string<'a>(input: &'a [u8]) -> (res: Option<(String, &'a [u8])>)
    ensures
        res matches Some((text, rest)) ==> parse_string(input@) == Some((text@, rest@)),
        res is None ==> parse_string(input@) is None,
{
    let mut rest = input;
    match String::deserialize(&mut rest) {
        Ok(text) => Some((text, rest)),
        Err(_) => None,
    }
}

/// The wire form of a string is its UTF-8 form and four bytes more.
pub proof fn lemma_string_bytes_len(text: Seq<char>)
    ensures
        string_bytes(text).len() == LENGTH_PREFIX_BYTES + encode_utf8(text).len(),
{
    lemma_auto_spec_u32_to_from_le_bytes();
}

/// A flag written in front of any bytes is read back, and those bytes are left.
pub proof fn lemma_parse_flag_bytes(flag: bool, rest: Seq<u8>)
    ensures
        parse_flag(flag_bytes(flag) + rest) == Some((flag, rest)),
{
    assert((flag_bytes(flag) + rest).skip(1) =~= rest);
}

/// A byte written in front of any bytes is read back, and those bytes are left.
pub proof fn lemma_parse_byte_bytes(value: u8, rest: Seq<u8>)
    ensures
        parse_byte(byte_bytes(value) + rest) == Some((value, rest)),
{
    assert((byte_bytes(value) + rest).skip(1) =~= rest);
}

/// A string that has a wire form, written in front of any bytes, is read back,
/// and those bytes are left.
pub proof fn lemma_parse_string_bytes(text: Seq<char>, rest: Seq<u8>)
    requires
        string_fits(text),
    ensures
        parse_string(string_bytes(text) + rest) == Some((text, rest)),
{
    lemma_auto_spec_u32_to_from_le_bytes();
    encode_utf8_valid_utf8(text);
    encode_utf8_decode_utf8(text);
    let utf8 = encode_utf8(text);
    let prefix = spec_u32_to_le_bytes(utf8.len() as u32);
    let input = string_bytes(text) + rest;
    assert(input.take(LENGTH_PREFIX_BYTES as int) =~= prefix);
    let body = input.skip(LENGTH_PREFIX_BYTES as int);
    assert(body =~= utf8 + rest);
    assert(body.take(utf8.len() as int) =~= utf8);
    assert(body.skip(utf8.len() as int) =~= rest);
}

} // verus!
