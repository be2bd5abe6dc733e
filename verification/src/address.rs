//! Addresses, and the derivation of the address at which a review is kept.

use vstd::prelude::*;
use vstd::utf8::encode_utf8;
use solana_program::pubkey::Pubkey;

verus! {

/// Number of bytes in an address.
pub const ADDRESS_BYTES: usize = 32;

/// Longest seed, in bytes, from which an address can be derived.
pub const MAX_SEED_LEN: usize = 32;

/// The address of an account: of a caller, of a program or of a storage.
#[derive(Clone, Copy, Debug, PartialEq, Eq, Hash)]
pub struct Address {
    pub bytes: [u8; 32],
}

impl View for Address {
    type V = Seq<u8>;

    open spec fn view(&self) -> Seq<u8> {
        self.bytes@
    }
}

impl Address {
    /// The address made of `bytes`.
    pub fn new(bytes: [u8; 32]) -> (res: Address)
        ensures
            res.bytes == bytes,
            res@ == bytes@,
    {
        Address { bytes }
    }

    /// The bytes of the address.
    pub fn to_bytes(&self) -> (res: [u8; 32])
        ensures
            res == self.bytes,
            res@ == self@,
    {
        self.bytes
    }

    /// Whether both addresses hold the same bytes.
    pub fn same_as(&self, other: &Address) -> (res: bool)
        ensures
            res == (self@ == other@),
            res == (*self == *other),
    {
        let mut i: usize = 0;
        while i < ADDRESS_BYTES
            invariant
                i <= ADDRESS_BYTES,
                forall|j: int| 0 <= j < i ==> self.bytes[j] == other.bytes[j],
            decreases ADDRESS_BYTES - i,
        {
            if self.bytes[i] != other.bytes[i] {
                assert(self@[i as int] != other@[i as int]);
                return false;
            }
            i = i + 1;
        }
        assert(self@ =~= other@);
        assert(self.bytes =~= other.bytes);
        true
    }
}

/// The program address that `solana_program` finds for `seeds` under
/// `program_id`, with its bump seed; `None` where it finds none.
pub uninterp spec fn program_address(seeds: Seq<Seq<u8>>, program_id: Seq<u8>) -> Option<
    (Seq<u8>, u8),
>;

/// The address of the review that `owner` keeps under `title` in the program
/// `program_id`, with the bump seed of the derivation. The seeds are the
/// owner's address and the title's UTF-8 bytes, in this order.
pub open spec fn derived_address(owner: Seq<u8>, title: Seq<char>, program_id: Seq<u8>) -> Option<
    (Seq<u8>, u8),
> {
    program_address(seq![owner, encode_utf8(title)], program_id)
}

/// Calls `Pubkey::try_find_program_address` of `solana_program` with the two
/// seeds `owner` and `title`.
///
/// Trusted: the result is a function of the seeds and the program id alone,
/// named `program_address`; and no address is found for a seed longer than
/// `MAX_SEED_LEN`, which `Pubkey::create_program_address` refuses.
#[verifier::external_body]
fn try_find_program_address(owner: &[u8; 32], title: &[u8], program_id: &[u8; 32]) -> (res: Option<
    ([u8; 32], u8),
>)
    ensures
        res matches Some((address, bump)) ==> program_address(seq![owner@, title@], program_id@)
            == Some((address@, bump)),
        res is None ==> program_address(seq![owner@, title@], program_id@) is None,
        title@.len() > MAX_SEED_LEN ==> res is None,
{
    let program = Pubkey::new_from_array(*program_id);
    match Pubkey::try_find_program_address(&[&owner[..], title], &program) {
        Some((address, bump)) => Some((address.to_bytes(), bump)),
        None => None,
    }
}

/// What a derivation gave, as contracts speak of it.
pub open spec fn derived_view(derived: Option<(Address, u8)>) -> Option<(Seq<u8>, u8)> {
    match derived {
        Some((address, bump_seed)) => Some((address@, bump_seed)),
        None => None,
    }
}

/// Whether a derivation gave an address, and that address is `candidate`.
pub open spec fn lies_at(candidate: Seq<u8>, derived: Option<(Seq<u8>, u8)>) -> bool {
    match derived {
        Some((address, _)) => address == candidate,
        None => false,
    }
}

/// Whether the address derived from `owner`, `title` and `program_id` exists
/// and is `candidate`.
pub open spec fn derives_to(
    candidate: Seq<u8>,
    owner: Seq<u8>,
    title: Seq<char>,
    program_id: Seq<u8>,
) -> bool {
    lies_at(candidate, derived_address(owner, title, program_id))
}

/// Derives the address at which `owner` keeps the review titled `title`, and the
/// bump seed that the derivation settled on. The same owner, title and program
/// always give the same result. No address exists for a title of more than
/// `MAX_SEED_LEN` bytes.
pub fn derive(owner: &Address, title: &str, program_id: &Address) -> (res: Option<(Address, u8)>)
    ensures
        derived_view(res) == derived_address(owner@, title@, program_id@),
        encode_utf8(title@).len() > MAX_SEED_LEN ==> res is None,
{
    match try_find_program_address(&owner.bytes, title.as_bytes(), &program_id.bytes) {
        Some((bytes, bump_seed)) => Some((Address::new(bytes), bump_seed)),
        None => None,
    }
}

/// Whether the derivation `derived` gave an address, and that address is
/// `candidate`.
pub fn is_derived(candidate: &Address, derived: &Option<(Address, u8)>) -> (res: bool)
    ensures
        res == lies_at(candidate@, derived_view(*derived)),
{
    match derived {
        Some((address, _)) => address.same_as(candidate),
        None => false,
    }
}

/// Whether `candidate` is the address derived from `owner`, `title` and
/// `program_id`. A title from which no address derives matches no candidate.
pub fn verify(candidate: &Address, owner: &Address, title: &str, program_id: &Address) -> (res: bool)
    ensures
        res == derives_to(candidate@, owner@, title@, program_id@),
{
    let derived = derive(owner, title, program_id);
    is_derived(candidate, &derived)
}

} // verus!
