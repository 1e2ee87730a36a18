use escrow::account::Account;
use escrow::error::EscrowError;
use escrow::pubkey::{TOKEN_2022_PROGRAM_ID, TOKEN_PROGRAM_ID};
use escrow::state::{token_amount, Escrow};

fn offer() -> Escrow {
    Escrow { seed: 7, mint_a: [0xa1; 32], mint_b: [0xb2; 32], receive: 500, bump: 254 }
}

fn offer_bytes() -> Vec<u8> {
    let mut bytes = vec![7, 0, 0, 0, 0, 0, 0, 0];
    bytes.extend_from_slice(&[0xa1; 32]);
    bytes.extend_from_slice(&[0xb2; 32]);
    bytes.extend_from_slice(&[0xf4, 0x01, 0, 0, 0, 0, 0, 0]);
    bytes.push(254);
    bytes
}

fn token_account(owner: [u8; 32], amount: u64) -> Account {
    let mut data = vec![0u8; 165];
    data[64..72].copy_from_slice(&amount.to_le_bytes());
    Account { key: [9; 32], owner, lamports: 2_039_280, data, is_signer: false }
}

#[test]
fn store_writes_the_documented_layout() {
    let bytes = offer().store();
    assert_eq!(bytes.len(), 81);
    assert_eq!(bytes, offer_bytes());
}

#[test]
fn load_reads_the_documented_layout() {
    assert_eq!(Escrow::load(&offer_bytes()), Ok(offer()));
}

#[test]
fn load_after_store_is_the_same_offer() {
    let big = Escrow {
        seed: u64::MAX,
        mint_a: [0; 32],
        mint_b: [0xff; 32],
        receive: 0x0102_0304_0506_0708,
        bump: 0,
    };
    let bytes = big.store();
    assert_eq!(&bytes[72..80], &[8, 7, 6, 5, 4, 3, 2, 1]);
    assert_eq!(&bytes[0..8], &[0xff; 8]);
    assert_eq!(Escrow::load(&bytes), Ok(big));
}

#[test]
fn load_refuses_other_lengths() {
    let bytes = offer_bytes();
    assert_eq!(Escrow::load(&bytes[..80]), Err(EscrowError::InvalidAccountData));
    let mut longer = bytes.clone();
    longer.push(0);
    assert_eq!(Escrow::load(&longer), Err(EscrowError::InvalidAccountData));
    assert_eq!(Escrow::load(&[]), Err(EscrowError::InvalidAccountData));
    assert_eq!(Escrow::load(&[0xff]), Err(EscrowError::InvalidAccountData));
}

#[test]
fn seeds_are_word_maker_nonce_bump() {
    let maker = [0x11; 32];
    let seeds = offer().seeds(&maker);
    assert_eq!(
        seeds,
        vec![b"escrow".to_vec(), maker.to_vec(), vec![7, 0, 0, 0, 0, 0, 0, 0], vec![254]]
    );
}

#[test]
fn seeds_change_with_nonce_and_bump() {
    let maker = [0x11; 32];
    let other = Escrow { seed: 0x0100, bump: 1, ..offer() };
    let seeds = other.seeds(&maker);
    assert_eq!(seeds[2], vec![0, 1, 0, 0, 0, 0, 0, 0]);
    assert_eq!(seeds[3], vec![1]);
}

#[test]
fn token_amount_reads_the_stored_balance() {
    assert_eq!(token_amount(&token_account(TOKEN_PROGRAM_ID, 1000)), Ok(1000));
    assert_eq!(token_amount(&token_account(TOKEN_PROGRAM_ID, 0)), Ok(0));
    assert_eq!(token_amount(&token_account(TOKEN_PROGRAM_ID, u64::MAX)), Ok(u64::MAX));
    assert_eq!(
        token_amount(&token_account(TOKEN_PROGRAM_ID, 0x0102_0304_0506_0708)),
        Ok(0x0102_0304_0506_0708)
    );
}

#[test]
fn token_amount_ignores_the_other_fields() {
    let mut account = token_account(TOKEN_PROGRAM_ID, 42);
    account.data[63] = 0xff;
    account.data[72] = 0xff;
    assert_eq!(token_amount(&account), Ok(42));
}

#[test]
fn token_amount_refuses_other_lengths_and_owners() {
    let mut short = token_account(TOKEN_PROGRAM_ID, 1000);
    short.data.truncate(164);
    assert_eq!(token_amount(&short), Err(EscrowError::InvalidAccountData));
    let mut long = token_account(TOKEN_PROGRAM_ID, 1000);
    long.data.push(0);
    assert_eq!(token_amount(&long), Err(EscrowError::InvalidAccountData));
    assert_eq!(
        token_amount(&token_account(TOKEN_2022_PROGRAM_ID, 1000)),
        Err(EscrowError::InvalidAccountData)
    );
    assert_eq!(
        token_amount(&token_account([0; 32], 1000)),
        Err(EscrowError::InvalidAccountData)
    );
}
