use escrow::account::Account;
use escrow::error::{ErrorKind, EscrowError};
use escrow::instructions::take::{Take, TakeAccounts, TakeSearches};
use escrow::pubkey::{SYSTEM_PROGRAM_ID, TOKEN_2022_PROGRAM_ID, TOKEN_PROGRAM_ID};
use escrow::service::ServiceCall;
use escrow::state::Escrow;

const PROGRAM: [u8; 32] = [0xee; 32];
const TAKER: u8 = 0;
const MAKER: u8 = 1;
const ESCROW: u8 = 2;
const MINT_A: u8 = 3;
const MINT_B: u8 = 4;
const VAULT: u8 = 5;
const TAKER_ATA_A: u8 = 6;
const TAKER_ATA_B: u8 = 7;
const MAKER_ATA_B: u8 = 8;

fn account(tag: u8, owner: [u8; 32], len: usize) -> Account {
    Account { key: [tag; 32], owner, lamports: 1_000_000, data: vec![0u8; len], is_signer: false }
}

fn token_account(tag: u8, amount: u64) -> Account {
    let mut held = account(tag, TOKEN_PROGRAM_ID, 165);
    held.data[64..72].copy_from_slice(&amount.to_le_bytes());
    held.lamports = 2_039_280;
    held
}

fn offer() -> Escrow {
    Escrow { seed: 7, mint_a: [MINT_A; 32], mint_b: [MINT_B; 32], receive: 500, bump: 253 }
}

/// taker, maker, escrow, mint_a, mint_b, vault, taker_ata_a, taker_ata_b,
/// maker_ata_b, system, token, spare
fn take_accounts() -> Vec<Account> {
    let mut escrow = account(ESCROW, PROGRAM, 0);
    escrow.data = offer().store();
    escrow.lamports = 1_454_640;
    let mut mint_b = account(MINT_B, TOKEN_2022_PROGRAM_ID, 300);
    mint_b.data[165] = 1;
    vec![
        Account { is_signer: true, ..account(TAKER, SYSTEM_PROGRAM_ID, 0) },
        account(MAKER, SYSTEM_PROGRAM_ID, 0),
        escrow,
        account(MINT_A, TOKEN_PROGRAM_ID, 82),
        mint_b,
        token_account(VAULT, 1000),
        token_account(TAKER_ATA_A, 0),
        token_account(TAKER_ATA_B, 800),
        token_account(MAKER_ATA_B, 20),
        account(9, SYSTEM_PROGRAM_ID, 0),
        account(10, SYSTEM_PROGRAM_ID, 0),
        account(11, SYSTEM_PROGRAM_ID, 0),
    ]
}

fn listed(accounts: &[Account]) -> TakeAccounts {
    TakeAccounts {
        taker: accounts[0].clone(),
        maker: accounts[1].clone(),
        escrow: accounts[2].clone(),
        mint_a: accounts[3].clone(),
        mint_b: accounts[4].clone(),
        vault: accounts[5].clone(),
        taker_ata_a: accounts[6].clone(),
        taker_ata_b: accounts[7].clone(),
        maker_ata_b: accounts[8].clone(),
        system_program: accounts[9].clone(),
        token_program: accounts[10].clone(),
    }
}

fn all_found() -> TakeSearches {
    TakeSearches {
        taker_ata_a: Some([TAKER_ATA_A; 32]),
        vault: Some([VAULT; 32]),
        taker_receives: Some([TAKER_ATA_A; 32]),
        maker_receives: Some([MAKER_ATA_B; 32]),
    }
}

fn escrow_seeds() -> Vec<Vec<u8>> {
    vec![b"escrow".to_vec(), vec![MAKER; 32], vec![7, 0, 0, 0, 0, 0, 0, 0], vec![253]]
}

fn settlement_calls(deposit: u64, receive: u64) -> Vec<ServiceCall> {
    vec![
        ServiceCall::Transfer {
            from: [VAULT; 32],
            to: [TAKER_ATA_A; 32],
            authority: [ESCROW; 32],
            amount: deposit,
            signer_seeds: escrow_seeds(),
        },
        ServiceCall::CloseAccount {
            account: [VAULT; 32],
            destination: [MAKER; 32],
            authority: [ESCROW; 32],
            signer_seeds: escrow_seeds(),
        },
        ServiceCall::Transfer {
            from: [TAKER_ATA_B; 32],
            to: [MAKER_ATA_B; 32],
            authority: [TAKER; 32],
            amount: receive,
            signer_seeds: Vec::new(),
        },
    ]
}

#[test]
fn take_accounts_are_admitted_by_position() {
    let accounts = take_accounts();
    let taken = TakeAccounts::try_from_derived(
        accounts.clone(),
        &PROGRAM,
        Some([TAKER_ATA_A; 32]),
        Some([VAULT; 32]),
    );
    assert_eq!(taken, Ok(listed(&accounts)));
}

#[test]
fn take_rejects_any_other_number_of_accounts() {
    for n in [0usize, 9, 11, 13] {
        let mut accounts = take_accounts();
        accounts.resize(n, account(99, SYSTEM_PROGRAM_ID, 0));
        assert_eq!(
            TakeAccounts::try_from_derived(accounts.clone(), &PROGRAM, None, None),
            Err(EscrowError::NotEnoughAccountKeys)
        );
        assert_eq!(
            TakeAccounts::try_from(accounts.clone(), &PROGRAM),
            Err(EscrowError::NotEnoughAccountKeys)
        );
        assert_eq!(
            Take::try_from_derived(accounts.clone(), &PROGRAM, all_found()),
            Err(EscrowError::NotEnoughAccountKeys)
        );
        assert_eq!(Take::try_from(accounts, &PROGRAM), Err(EscrowError::NotEnoughAccountKeys));
    }
}

#[test]
fn take_rejects_a_taker_who_did_not_sign() {
    let mut accounts = take_accounts();
    accounts[0].is_signer = false;
    assert_eq!(
        Take::try_from_derived(accounts.clone(), &PROGRAM, all_found()),
        Err(EscrowError::InvalidAccountOwner)
    );
    assert_eq!(Take::try_from(accounts, &PROGRAM), Err(EscrowError::InvalidAccountOwner));
}

#[test]
fn take_rejects_an_escrow_of_another_program() {
    let mut accounts = take_accounts();
    accounts[2].owner = SYSTEM_PROGRAM_ID;
    assert_eq!(
        Take::try_from_derived(accounts.clone(), &PROGRAM, all_found()),
        Err(EscrowError::InvalidAccountOwner)
    );
    assert_eq!(
        TakeAccounts::try_from(accounts.clone(), &PROGRAM),
        Err(EscrowError::InvalidAccountOwner)
    );
    let accounts = take_accounts();
    assert_eq!(
        Take::try_from_derived(accounts, &[0xef; 32], all_found()),
        Err(EscrowError::InvalidAccountOwner)
    );
}

#[test]
fn take_rejects_a_bad_mint() {
    let mut accounts = take_accounts();
    accounts[3].data.pop();
    assert_eq!(
        Take::try_from_derived(accounts.clone(), &PROGRAM, all_found()),
        Err(EscrowError::InvalidAccountData)
    );
    assert_eq!(Take::try_from(accounts, &PROGRAM), Err(EscrowError::InvalidAccountData));
    let mut accounts = take_accounts();
    accounts[4].data[165] = 2;
    assert_eq!(
        Take::try_from_derived(accounts, &PROGRAM, all_found()),
        Err(EscrowError::InvalidAccountData)
    );
}

#[test]
fn take_rejects_token_accounts_at_other_addresses() {
    let found = TakeSearches { taker_ata_a: Some([TAKER_ATA_B; 32]), ..all_found() };
    assert_eq!(
        Take::try_from_derived(take_accounts(), &PROGRAM, found),
        Err(EscrowError::InvalidAccountData)
    );
    let found = TakeSearches { vault: None, ..all_found() };
    assert_eq!(
        Take::try_from_derived(take_accounts(), &PROGRAM, found),
        Err(EscrowError::InvalidAccountData)
    );
    let mut accounts = take_accounts();
    accounts[5].owner = TOKEN_2022_PROGRAM_ID;
    assert_eq!(
        Take::try_from_derived(accounts, &PROGRAM, all_found()),
        Err(EscrowError::InvalidAccountOwner)
    );
}

#[test]
fn take_reports_the_first_failure() {
    let mut accounts = take_accounts();
    accounts[3].data.pop();
    accounts[2].owner = SYSTEM_PROGRAM_ID;
    assert_eq!(
        Take::try_from_derived(accounts, &PROGRAM, all_found()),
        Err(EscrowError::InvalidAccountOwner)
    );
    let mut accounts = take_accounts();
    accounts[5].owner = SYSTEM_PROGRAM_ID;
    accounts[6].data.pop();
    assert_eq!(
        Take::try_from_derived(accounts, &PROGRAM, all_found()),
        Err(EscrowError::InvalidAccountData)
    );
}

#[test]
fn take_asks_for_no_creation_where_both_accounts_stand() {
    let accounts = take_accounts();
    let (take, creations) =
        Take::try_from_derived(accounts.clone(), &PROGRAM, all_found()).unwrap();
    assert_eq!(take, Take { accounts: listed(&accounts) });
    assert_eq!(creations, Vec::new());
}

#[test]
fn take_asks_for_the_missing_accounts_in_order() {
    let accounts = take_accounts();
    let found = TakeSearches {
        taker_receives: Some([TAKER_ATA_B; 32]),
        maker_receives: None,
        ..all_found()
    };
    let (take, creations) = Take::try_from_derived(accounts.clone(), &PROGRAM, found).unwrap();
    assert_eq!(take.accounts, listed(&accounts));
    assert_eq!(
        creations,
        vec![
            ServiceCall::CreateAssociatedToken {
                funding_account: [TAKER; 32],
                account: [TAKER_ATA_A; 32],
                wallet: [TAKER; 32],
                mint: [MINT_A; 32],
                system_program: [9; 32],
                token_program: [10; 32],
            },
            ServiceCall::CreateAssociatedToken {
                funding_account: [TAKER; 32],
                account: [MAKER_ATA_B; 32],
                wallet: [MAKER_ATA_B; 32],
                mint: [MINT_B; 32],
                system_program: [9; 32],
                token_program: [10; 32],
            },
        ]
    );
}

#[test]
fn take_asks_for_the_one_missing_account() {
    let mut accounts = take_accounts();
    accounts[8] = account(MAKER_ATA_B, SYSTEM_PROGRAM_ID, 0);
    let (_, creations) = Take::try_from_derived(accounts, &PROGRAM, all_found()).unwrap();
    assert_eq!(
        creations,
        vec![ServiceCall::CreateAssociatedToken {
            funding_account: [TAKER; 32],
            account: [MAKER_ATA_B; 32],
            wallet: [MAKER_ATA_B; 32],
            mint: [MINT_B; 32],
            system_program: [9; 32],
            token_program: [10; 32],
        }]
    );
}

#[test]
fn take_with_its_own_searches_rejects_where_no_address_is_found() {
    let accounts = take_accounts();
    assert_eq!(
        TakeAccounts::try_from(accounts.clone(), &PROGRAM),
        Err(EscrowError::InvalidAccountData)
    );
    assert_eq!(Take::try_from(accounts.clone(), &PROGRAM), Err(EscrowError::InvalidAccountData));
    let none = TakeSearches {
        taker_ata_a: None,
        vault: None,
        taker_receives: None,
        maker_receives: None,
    };
    assert_eq!(
        Take::try_from(accounts.clone(), &PROGRAM),
        Take::try_from_derived(accounts, &PROGRAM, none)
    );
}

#[test]
fn escrow_seeds_come_from_the_stored_offer() {
    let take = Take { accounts: listed(&take_accounts()) };
    assert_eq!(take.escrow_seeds(), Ok(escrow_seeds()));
    let mut other = take.clone();
    other.accounts.escrow.data[0] = 8;
    other.accounts.escrow.data[80] = 1;
    other.accounts.maker.key = [0x44; 32];
    assert_eq!(
        other.escrow_seeds(),
        Ok(vec![b"escrow".to_vec(), vec![0x44; 32], vec![8, 0, 0, 0, 0, 0, 0, 0], vec![1]])
    );
}

#[test]
fn escrow_seeds_need_a_readable_offer() {
    let mut take = Take { accounts: listed(&take_accounts()) };
    take.accounts.escrow.data.pop();
    assert_eq!(take.escrow_seeds(), Err(EscrowError::InvalidAccountData));
}

#[test]
fn process_moves_the_whole_vault_and_exactly_the_price() {
    let accounts = take_accounts();
    let take = Take { accounts: listed(&accounts) };
    let calls = take.process(Ok([ESCROW; 32])).unwrap();
    assert_eq!(calls, settlement_calls(1000, 500));
    assert_eq!(take.accounts, listed(&accounts));
}

#[test]
fn process_reads_the_amounts_from_storage() {
    let mut accounts = take_accounts();
    accounts[5] = token_account(VAULT, 123_456_789_012);
    accounts[2].data = Escrow { receive: 1, ..offer() }.store();
    let take = Take { accounts: listed(&accounts) };
    let calls = take.process(Ok([ESCROW; 32])).unwrap();
    assert_eq!(calls, settlement_calls(123_456_789_012, 1));
    let mut accounts = take_accounts();
    accounts[5] = token_account(VAULT, 0);
    accounts[2].data = Escrow { receive: u64::MAX, ..offer() }.store();
    let take = Take { accounts: listed(&accounts) };
    let calls = take.process(Ok([ESCROW; 32])).unwrap();
    assert_eq!(calls, settlement_calls(0, u64::MAX));
}

#[test]
fn process_rejects_an_escrow_at_another_address() {
    let take = Take { accounts: listed(&take_accounts()) };
    let refused = take.process(Ok([VAULT; 32]));
    assert_eq!(refused, Err(EscrowError::InvalidAccountOwner));
    assert_eq!(refused.unwrap_err().kind(), ErrorKind::Authorization);
    let mut near = [ESCROW; 32];
    near[0] ^= 1;
    assert_eq!(take.process(Ok(near)), Err(EscrowError::InvalidAccountOwner));
}

#[test]
fn process_hands_on_a_failed_derivation() {
    let take = Take { accounts: listed(&take_accounts()) };
    let refused = take.process(Err(14 << 32));
    assert_eq!(refused, Err(EscrowError::External(14 << 32)));
    assert_eq!(refused.unwrap_err().kind(), ErrorKind::ExternalService);
}

#[test]
fn process_rejects_an_unreadable_offer_first() {
    let mut accounts = take_accounts();
    accounts[2].data.push(0);
    let take = Take { accounts: listed(&accounts) };
    assert_eq!(take.process(Ok([ESCROW; 32])), Err(EscrowError::InvalidAccountData));
    assert_eq!(take.process(Ok([VAULT; 32])), Err(EscrowError::InvalidAccountData));
    assert_eq!(take.process(Err(1)), Err(EscrowError::InvalidAccountData));
}

#[test]
fn process_rejects_a_vault_that_is_no_token_account() {
    let mut accounts = take_accounts();
    accounts[5].data.pop();
    let take = Take { accounts: listed(&accounts) };
    assert_eq!(take.process(Ok([ESCROW; 32])), Err(EscrowError::InvalidAccountData));
    let mut accounts = take_accounts();
    accounts[5].owner = TOKEN_2022_PROGRAM_ID;
    let take = Take { accounts: listed(&accounts) };
    assert_eq!(take.process(Ok([ESCROW; 32])), Err(EscrowError::InvalidAccountData));
}

#[test]
fn conclude_closes_the_escrow_in_favour_of_the_taker() {
    let accounts = take_accounts();
    let mut take = Take { accounts: listed(&accounts) };
    assert_eq!(take.conclude(Ok([ESCROW; 32]), Ok(())), Ok(()));
    let mut expected = listed(&accounts);
    expected.escrow = Account {
        key: [ESCROW; 32],
        owner: pinocchio_system::ID,
        lamports: 0,
        data: vec![0xff],
        is_signer: false,
    };
    expected.taker.lamports = 1_000_000 + 1_454_640;
    assert_eq!(take.accounts, expected);
}

#[test]
fn conclude_closes_the_escrow_though_the_vault_is_gone() {
    let mut accounts = take_accounts();
    accounts[5] = account(VAULT, SYSTEM_PROGRAM_ID, 0);
    accounts[0].lamports = 5;
    let mut take = Take { accounts: listed(&accounts) };
    assert_eq!(take.conclude(Ok([ESCROW; 32]), Ok(())), Ok(()));
    assert_eq!(take.accounts.escrow.data, vec![0xff]);
    assert_eq!(take.accounts.escrow.lamports, 0);
    assert_eq!(take.accounts.taker.lamports, 1_454_645);
}

#[test]
fn conclude_after_a_failed_call_leaves_the_escrow_open() {
    let accounts = take_accounts();
    let mut take = Take { accounts: listed(&accounts) };
    let ended = take.conclude(Ok([ESCROW; 32]), Err(1));
    assert_eq!(ended, Err(EscrowError::External(1)));
    assert_eq!(ended.unwrap_err().kind(), ErrorKind::ExternalService);
    assert_eq!(take.accounts, listed(&accounts));
    assert_eq!(take.conclude(Ok([ESCROW; 32]), Err(6 << 32)), Err(EscrowError::External(6 << 32)));
    assert_eq!(take.accounts, listed(&accounts));
}

#[test]
fn conclude_closes_nothing_for_an_escrow_at_another_address() {
    let accounts = take_accounts();
    let mut take = Take { accounts: listed(&accounts) };
    assert_eq!(take.conclude(Ok([VAULT; 32]), Ok(())), Err(EscrowError::InvalidAccountOwner));
    assert_eq!(take.accounts, listed(&accounts));
    assert_eq!(take.conclude(Ok([VAULT; 32]), Err(1)), Err(EscrowError::InvalidAccountOwner));
    assert_eq!(take.conclude(Err(9), Ok(())), Err(EscrowError::External(9)));
    assert_eq!(take.accounts, listed(&accounts));
    take.accounts.escrow.data.pop();
    let before = take.accounts.clone();
    assert_eq!(take.conclude(Ok([ESCROW; 32]), Ok(())), Err(EscrowError::InvalidAccountData));
    assert_eq!(take.accounts, before);
}

#[test]
fn an_offer_settles_only_once() {
    let mut take = Take { accounts: listed(&take_accounts()) };
    assert!(take.process(Ok([ESCROW; 32])).is_ok());
    assert_eq!(take.conclude(Ok([ESCROW; 32]), Ok(())), Ok(()));
    let after = take.accounts.clone();
    assert_eq!(take.process(Ok([ESCROW; 32])), Err(EscrowError::InvalidAccountData));
    assert_eq!(take.conclude(Ok([ESCROW; 32]), Ok(())), Err(EscrowError::InvalidAccountData));
    assert_eq!(take.accounts, after);
    let again = vec![
        after.taker,
        after.maker,
        after.escrow,
        after.mint_a,
        after.mint_b,
        after.vault,
        after.taker_ata_a,
        after.taker_ata_b,
        after.maker_ata_b,
        after.system_program,
        after.token_program,
        account(11, SYSTEM_PROGRAM_ID, 0),
    ];
    assert_eq!(
        Take::try_from_derived(again, &PROGRAM, all_found()),
        Err(EscrowError::InvalidAccountOwner)
    );
}
