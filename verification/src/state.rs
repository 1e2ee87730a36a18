//! The stored offer and the one field read from a token account.

use vstd::prelude::*;
use vstd::bytes::{spec_u64_from_le_bytes, spec_u64_to_le_bytes, u64_from_le_bytes, u64_to_le_bytes};
use vstd::bytes::lemma_auto_spec_u64_to_from_le_bytes;
use vstd::slice::slice_subrange;
use crate::account::{Account, AccountView};
use crate::error::EscrowError;
use crate::pubkey::{key_at, key_bytes, same_key, token_program_id, Pubkey, TOKEN_PROGRAM_ID};

verus! {

/// Number of bytes of a stored offer.
pub const ESCROW_LEN: usize = 81;

/// Number of bytes of a token account.
pub const TOKEN_ACCOUNT_LEN: usize = 165;

/// Number of bytes of a mint of the legacy token program.
pub const MINT_LEN: usize = 82;

/// Where a token account stores its balance.
pub const TOKEN_AMOUNT_OFFSET: usize = 64;

/// The first of the seeds from which an offer's address is derived.
pub const ESCROW_SEED_PREFIX: [u8; 6] = [0x65, 0x73, 0x63, 0x72, 0x6f, 0x77];

/// One open offer.
///
/// Stored as 81 bytes: `seed` (8, little-endian), `mint_a` (32), `mint_b`
/// (32), `receive` (8, little-endian), `bump` (1).
#[derive(Clone, Copy, Debug, PartialEq, Eq)]
pub struct Escrow {
    /// The maker's nonce, which tells this offer from the maker's others.
    pub seed: u64,
    /// The token that was deposited.
    pub mint_a: Pubkey,
    /// The token that is wanted.
    pub mint_b: Pubkey,
    /// How much of `mint_b` settles the offer.
    pub receive: u64,
    /// The last seed of the offer's address.
    pub bump: u8,
}

/// The mathematical value of an [`Escrow`].
pub struct EscrowView {
    pub seed: u64,
    pub mint_a: Seq<u8>,
    pub mint_b: Seq<u8>,
    pub receive: u64,
    pub bump: u8,
}

impl View for Escrow {
    type V = EscrowView;

    open spec fn view(&self) -> EscrowView {
        EscrowView {
            seed: self.seed,
            mint_a: self.mint_a@,
            mint_b: self.mint_b@,
            receive: self.receive,
            bump: self.bump,
        }
    }
}

/// The offer that `data` holds, if it holds one.
pub open spec fn decode(data: Seq<u8>) -> Option<EscrowView> {
    if data.len() != ESCROW_LEN {
        None
    } else {
        Some(
            EscrowView {
                seed: spec_u64_from_le_bytes(data.subrange(0, 8)),
                mint_a: data.subrange(8, 40),
                mint_b: data.subrange(40, 72),
                receive: spec_u64_from_le_bytes(data.subrange(72, 80)),
                bump: data[80],
            },
        )
    }
}

/// The bytes that hold `escrow`.
pub open spec fn encode(escrow: EscrowView) -> Seq<u8> {
    spec_u64_to_le_bytes(escrow.seed) + escrow.mint_a + escrow.mint_b + spec_u64_to_le_bytes(
        escrow.receive,
    ) + seq![escrow.bump]
}

/// The seeds of the address of the offer that `maker` made with `seed`, closed
/// by `bump`.
pub open spec fn escrow_seeds(maker: Seq<u8>, seed: u64, bump: u8) -> Seq<Seq<u8>> {
    seq![ESCROW_SEED_PREFIX@, maker, spec_u64_to_le_bytes(seed), seq![bump]]
}

/// The balance of a token account of the legacy token program, if `account`
/// is one.
pub open spec fn token_balance(account: AccountView) -> Option<u64> {
    if account.data.len() == TOKEN_ACCOUNT_LEN && account.owner == TOKEN_PROGRAM_ID@ {
        Some(
            spec_u64_from_le_bytes(
                account.data.subrange(TOKEN_AMOUNT_OFFSET as int, TOKEN_AMOUNT_OFFSET + 8),
            ),
        )
    } else {
        None
    }
}

/// The length of a token account, read from
/// `pinocchio_token::state::TokenAccount::LEN`. Trusted: that constant, the
/// size of the crate's own record, is [`TOKEN_ACCOUNT_LEN`].
#[verifier::external_body]
pub(crate) fn token_account_len() -> (len: usize)
    ensures
        len == TOKEN_ACCOUNT_LEN,
{
    pinocchio_token::state::TokenAccount::LEN
}

/// The length of a mint, read from `pinocchio_token::state::Mint::LEN`.
/// Trusted: that constant, the size of the crate's own record, is
/// [`MINT_LEN`].
#[verifier::external_body]
pub(crate) fn mint_len() -> (len: usize)
    ensures
        len == MINT_LEN,
{
    pinocchio_token::state::Mint::LEN
}

pub(crate) fn append(out: &mut Vec<u8>, bytes: &[u8])
    ensures
        final(out)@ == old(out)@ + bytes@,
{
    let mut i: usize = 0;
    while i < bytes.len()
        invariant
            i <= bytes.len(),
            out@ == old(out)@ + bytes@.subrange(0, i as int),
        decreases bytes.len() - i,
    {
        out.push(bytes[i]);
        i += 1;
        assert(out@ =~= old(out)@ + bytes@.subrange(0, i as int));
    }
    assert(bytes@.subrange(0, i as int) =~= bytes@);
}

impl Escrow {
    /// Reads an offer from the bytes of its account. The length is tested
    /// before any field is read: anything but [`ESCROW_LEN`] bytes is refused.
    pub fn load(data: &[u8]) -> (loaded: Result<Escrow, EscrowError>)
        ensures
            match loaded {
                Ok(escrow) => decode(data@) == Some(escrow@),
                Err(e) => decode(data@) is None && e == EscrowError::InvalidAccountData,
            },
    {
        if data.len() != ESCROW_LEN {
            return Err(EscrowError::InvalidAccountData);
        }
        let seed = u64_from_le_bytes(slice_subrange(data, 0, 8));
        let mint_a = key_at(data, 8);
        let mint_b = key_at(data, 40);
        let receive = u64_from_le_bytes(slice_subrange(data, 72, 80));
        let bump = data[80];
        Ok(Escrow { seed, mint_a, mint_b, receive, bump })
    }

    /// The bytes to store in the offer's account.
    pub fn store(&self) -> (data: Vec<u8>)
        ensures
            data@ == encode(self@),
            data@.len() == ESCROW_LEN,
    {
        let mut data: Vec<u8> = u64_to_le_bytes(self.seed);
        append(&mut data, self.mint_a.as_slice());
        append(&mut data, self.mint_b.as_slice());
        let receive = u64_to_le_bytes(self.receive);
        append(&mut data, receive.as_slice());
        data.push(self.bump);
        data
    }

    /// The seeds from which the address of this offer is derived, for the
    /// maker at `maker`: the word `escrow`, the maker's address, the nonce in
    /// little-endian order, and the bump.
    pub fn seeds(&self, maker: &Pubkey) -> (seeds: Vec<Vec<u8>>)
        ensures
            seeds.deep_view() == escrow_seeds(maker@, self.seed, self.bump),
    {
        let mut prefix: Vec<u8> = Vec::new();
        append(&mut prefix, ESCROW_SEED_PREFIX.as_slice());
        let mut bump: Vec<u8> = Vec::new();
        bump.push(self.bump);
        let mut seeds: Vec<Vec<u8>> = Vec::new();
        seeds.push(prefix);
        seeds.push(key_bytes(maker));
        seeds.push(u64_to_le_bytes(self.seed));
        seeds.push(bump);
        assert(seeds.deep_view() =~~= escrow_seeds(maker@, self.seed, self.bump));
        seeds
    }
}

/// Reads the balance of a token account from its own bytes. An account of
/// another length, or one that the legacy token program does not own, is
/// refused.
pub fn token_amount(account: &Account) -> (amount: Result<u64, EscrowError>)
    ensures
        match amount {
            Ok(n) => token_balance(account@) == Some(n),
            Err(e) => token_balance(account@) is None && e == EscrowError::InvalidAccountData,
        },
{
    if account.data.len() != token_account_len() {
        return Err(EscrowError::InvalidAccountData);
    }
    if !same_key(&account.owner, &token_program_id()) {
        return Err(EscrowError::InvalidAccountData);
    }
    Ok(
        u64_from_le_bytes(
            slice_subrange(account.data.as_slice(), TOKEN_AMOUNT_OFFSET, TOKEN_AMOUNT_OFFSET + 8),
        ),
    )
}

/// Storing an offer and reading it back gives the same offer, and every
/// readable record is the stored form of what was read from it.
pub proof fn law_stored_offer_reads_back(escrow: EscrowView, data: Seq<u8>)
    requires
        escrow.mint_a.len() == 32,
        escrow.mint_b.len() == 32,
    ensures
        decode(encode(escrow)) == Some(escrow),
        decode(data) is Some ==> encode(decode(data).unwrap()) == data,
{
    lemma_auto_spec_u64_to_from_le_bytes();
    let bytes = encode(escrow);
    assert(bytes.subrange(0, 8) =~= spec_u64_to_le_bytes(escrow.seed));
    assert(bytes.subrange(8, 40) =~= escrow.mint_a);
    assert(bytes.subrange(40, 72) =~= escrow.mint_b);
    assert(bytes.subrange(72, 80) =~= spec_u64_to_le_bytes(escrow.receive));
    if decode(data) is Some {
        let read = decode(data).unwrap();
        assert(spec_u64_to_le_bytes(read.seed) == data.subrange(0, 8));
        assert(spec_u64_to_le_bytes(read.receive) == data.subrange(72, 80));
        assert(encode(read) =~= data);
    }
}

} // verus!
