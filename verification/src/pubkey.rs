//! Addresses and the well-known programs.

use vstd::prelude::*;

verus! {

/// The address of an account: 32 bytes.
pub type Pubkey = [u8; 32];

/// Address of the token program with extensions.
pub const TOKEN_2022_PROGRAM_ID: Pubkey = [
    0x06, 0xdd, 0xf6, 0xe1, 0xee, 0x75, 0x8f, 0xde, 0x18, 0x42, 0x5d, 0xbc, 0xe4, 0x6c, 0xcd, 0xda,
    0xb6, 0x1a, 0xfc, 0x4d, 0x83, 0xb9, 0x0d, 0x27, 0xfe, 0xbd, 0xf9, 0x28, 0xd8, 0xa1, 0x8b, 0xfc,
];

/// Address of the legacy token program.
pub const TOKEN_PROGRAM_ID: Pubkey = [
    0x06, 0xdd, 0xf6, 0xe1, 0xd7, 0x65, 0xa1, 0x93, 0xd9, 0xcb, 0xe1, 0x46, 0xce, 0xeb, 0x79, 0xac,
    0x1c, 0xb4, 0x85, 0xed, 0x5f, 0x5b, 0x37, 0x91, 0x3a, 0x8c, 0xf5, 0x85, 0x7e, 0xff, 0x00, 0xa9,
];

/// Address of the program that creates associated token accounts.
pub const ASSOCIATED_TOKEN_PROGRAM_ID: Pubkey = [
    0x8c, 0x97, 0x25, 0x8f, 0x4e, 0x24, 0x89, 0xf1, 0xbb, 0x3d, 0x10, 0x29, 0x14, 0x8e, 0x0d, 0x83,
    0x0b, 0x5a, 0x13, 0x99, 0xda, 0xff, 0x10, 0x84, 0x04, 0x8e, 0x7b, 0xd8, 0xdb, 0xe9, 0xf8, 0x59,
];

/// Address of the system program, the owner of every account that no program
/// has claimed.
pub const SYSTEM_PROGRAM_ID: Pubkey = [
    0, 0, 0, 0, 0, 0, 0, 0, 0, 0, 0, 0, 0, 0, 0, 0,
    0, 0, 0, 0, 0, 0, 0, 0, 0, 0, 0, 0, 0, 0, 0, 0,
];

/// Whether two addresses hold the same bytes.
pub fn same_key(a: &Pubkey, b: &Pubkey) -> (same: bool)
    ensures
        same == (a@ == b@),
{
    let mut i: usize = 0;
    while i < 32
        invariant
            i <= 32,
            forall|j: int| 0 <= j < i ==> a@[j] == b@[j],
        decreases 32 - i,
    {
        if a[i] != b[i] {
            return false;
        }
        i += 1;
    }
    assert(a@ =~= b@);
    true
}

/// The bytes of an address as a growable buffer.
pub fn key_bytes(key: &Pubkey) -> (bytes: Vec<u8>)
    ensures
        bytes@ == key@,
{
    let mut bytes: Vec<u8> = Vec::new();
    let mut i: usize = 0;
    while i < 32
        invariant
            i <= 32,
            bytes@ == key@.subrange(0, i as int),
        decreases 32 - i,
    {
        bytes.push(key[i]);
        i += 1;
    }
    assert(bytes@ =~= key@);
    bytes
}

/// The address stored in the 32 bytes of `data` that start at `offset`.
pub fn key_at(data: &[u8], offset: usize) -> (key: Pubkey)
    requires
        offset + 32 <= data@.len(),
    ensures
        key@ == data@.subrange(offset as int, offset + 32),
{
    let mut key: Pubkey = [0u8; 32];
    let mut i: usize = 0;
    while i < 32
        invariant
            i <= 32,
            offset + 32 <= data.len(),
            forall|j: int| 0 <= j < i ==> key@[j] == data@[offset + j],
        decreases 32 - i,
    {
        key[i] = data[offset + i];
        i += 1;
    }
    assert(key@ =~= data@.subrange(offset as int, offset + 32));
    key
}

/// The address of the legacy token program, read from `pinocchio_token::ID`.
/// Trusted: that constant holds the bytes of [`TOKEN_PROGRAM_ID`].
#[verifier::external_body]
pub(crate) fn token_program_id() -> (id: Pubkey)
    ensures
        id@ == TOKEN_PROGRAM_ID@,
{
    pinocchio_token::ID
}

/// The address of the associated token account program, read from
/// `pinocchio_associated_token_account::ID`. Trusted: that constant holds the
/// bytes of [`ASSOCIATED_TOKEN_PROGRAM_ID`].
#[verifier::external_body]
pub(crate) fn associated_token_program_id() -> (id: Pubkey)
    ensures
        id@ == ASSOCIATED_TOKEN_PROGRAM_ID@,
{
    pinocchio_associated_token_account::ID
}

/// The address of the system program, read from `pinocchio_system::ID`.
/// Trusted: that constant holds the bytes of [`SYSTEM_PROGRAM_ID`], all zero.
#[verifier::external_body]
pub(crate) fn system_program_id() -> (id: Pubkey)
    ensures
        id@ == SYSTEM_PROGRAM_ID@,
{
    pinocchio_system::ID
}

/// What the search for a program address answers for `seeds` under
/// `program_id`: the address and the bump seed that closes it, or nothing. The
/// answer depends on the seeds and the program alone; the same question gets
/// the same answer.
pub uninterp spec fn program_address(seeds: Seq<Seq<u8>>, program_id: Seq<u8>) -> Option<
    (Seq<u8>, u8),
>;

/// The value of what a search found.
pub open spec fn found_view(found: Option<(Pubkey, u8)>) -> Option<(Seq<u8>, u8)> {
    match found {
        Some(pair) => Some((pair.0@, pair.1)),
        None => None,
    }
}

/// Searches for the program address of `seeds` under `program_id` with
/// `pinocchio::pubkey::try_find_program_address`. Trusted: the answer is
/// [`program_address`] of these seeds and this program, that is, nothing but
/// the two arguments decides it. On the chain the runtime computes it from
/// them; off the chain the function answers `None` to every question. Which
/// address is found is claimed nowhere.
#[verifier::external_body]
pub(crate) fn find_program_address(seeds: &Vec<Vec<u8>>, program_id: &Pubkey) -> (found: Option<
    (Pubkey, u8),
>)
    ensures
        found_view(found) == program_address(seeds.deep_view(), program_id@),
{
    let parts: Vec<&[u8]> = seeds.iter().map(|seed| seed.as_slice()).collect();
    pinocchio::pubkey::try_find_program_address(&parts, program_id)
}

} // verus!
