use escrow::account::Account;
use escrow::error::EscrowError;
use escrow::instructions::make::MakerAccount;
use escrow::pubkey::{SYSTEM_PROGRAM_ID, TOKEN_2022_PROGRAM_ID, TOKEN_PROGRAM_ID};

fn account(tag: u8, owner: [u8; 32], len: usize) -> Account {
    Account { key: [tag; 32], owner, lamports: 1_000_000, data: vec![0u8; len], is_signer: false }
}

/// maker, escrow, mint_a, mint_b, maker_ata_a, vault, system, token, spare
fn make_accounts() -> Vec<Account> {
    let mut mint_b = account(3, TOKEN_2022_PROGRAM_ID, 300);
    mint_b.data[165] = 1;
    vec![
        Account { is_signer: true, ..account(0, SYSTEM_PROGRAM_ID, 0) },
        account(1, SYSTEM_PROGRAM_ID, 0),
        account(2, TOKEN_PROGRAM_ID, 82),
        mint_b,
        account(4, TOKEN_PROGRAM_ID, 165),
        account(5, SYSTEM_PROGRAM_ID, 0),
        account(6, SYSTEM_PROGRAM_ID, 0),
        account(7, SYSTEM_PROGRAM_ID, 0),
        account(8, SYSTEM_PROGRAM_ID, 0),
    ]
}

#[test]
fn make_admits_nine_valid_accounts_by_position() {
    let accounts = make_accounts();
    let made = MakerAccount::try_from_derived(accounts.clone(), Some([4; 32])).unwrap();
    assert_eq!(
        made,
        MakerAccount {
            maker: accounts[0].clone(),
            escrow: accounts[1].clone(),
            mint_a: accounts[2].clone(),
            mint_b: accounts[3].clone(),
            maker_ata_a: accounts[4].clone(),
            vault: accounts[5].clone(),
            system_program: accounts[6].clone(),
            token_program: accounts[7].clone(),
        }
    );
}

#[test]
fn make_rejects_any_other_number_of_accounts() {
    for n in [0usize, 1, 8, 10, 12] {
        let mut accounts = make_accounts();
        accounts.resize(n, account(99, SYSTEM_PROGRAM_ID, 0));
        assert_eq!(
            MakerAccount::try_from_derived(accounts.clone(), Some([4; 32])),
            Err(EscrowError::NotEnoughAccountKeys)
        );
        assert_eq!(MakerAccount::try_from(accounts), Err(EscrowError::NotEnoughAccountKeys));
    }
}

#[test]
fn make_rejects_a_maker_who_did_not_sign() {
    let mut accounts = make_accounts();
    accounts[0].is_signer = false;
    assert_eq!(
        MakerAccount::try_from_derived(accounts.clone(), Some([4; 32])),
        Err(EscrowError::InvalidAccountOwner)
    );
    assert_eq!(MakerAccount::try_from(accounts), Err(EscrowError::InvalidAccountOwner));
}

#[test]
fn make_rejects_a_bad_mint() {
    let mut accounts = make_accounts();
    accounts[2].data.push(0);
    assert_eq!(
        MakerAccount::try_from_derived(accounts.clone(), Some([4; 32])),
        Err(EscrowError::InvalidAccountData)
    );
    assert_eq!(MakerAccount::try_from(accounts), Err(EscrowError::InvalidAccountData));
    let mut accounts = make_accounts();
    accounts[3].data[165] = 2;
    assert_eq!(
        MakerAccount::try_from_derived(accounts, Some([4; 32])),
        Err(EscrowError::InvalidAccountData)
    );
    let mut accounts = make_accounts();
    accounts[3].owner = SYSTEM_PROGRAM_ID;
    assert_eq!(
        MakerAccount::try_from_derived(accounts.clone(), Some([4; 32])),
        Err(EscrowError::InvalidAccountOwner)
    );
    assert_eq!(MakerAccount::try_from(accounts), Err(EscrowError::InvalidAccountOwner));
}

#[test]
fn make_reports_the_first_failure() {
    let mut accounts = make_accounts();
    accounts[0].is_signer = false;
    accounts[2].data.push(0);
    accounts[4].owner = SYSTEM_PROGRAM_ID;
    assert_eq!(
        MakerAccount::try_from_derived(accounts, None),
        Err(EscrowError::InvalidAccountOwner)
    );
    let mut accounts = make_accounts();
    accounts[2].data.push(0);
    accounts[4].owner = SYSTEM_PROGRAM_ID;
    assert_eq!(
        MakerAccount::try_from_derived(accounts, None),
        Err(EscrowError::InvalidAccountData)
    );
}

#[test]
fn make_rejects_a_token_account_at_another_address() {
    assert_eq!(
        MakerAccount::try_from_derived(make_accounts(), Some([5; 32])),
        Err(EscrowError::InvalidAccountData)
    );
    assert_eq!(
        MakerAccount::try_from_derived(make_accounts(), None),
        Err(EscrowError::InvalidAccountData)
    );
}

#[test]
fn make_rejects_a_token_account_of_another_owner_or_length() {
    let mut accounts = make_accounts();
    accounts[4].owner = TOKEN_2022_PROGRAM_ID;
    assert_eq!(
        MakerAccount::try_from_derived(accounts.clone(), Some([4; 32])),
        Err(EscrowError::InvalidAccountOwner)
    );
    assert_eq!(MakerAccount::try_from(accounts), Err(EscrowError::InvalidAccountOwner));
    let mut accounts = make_accounts();
    accounts[4].data.pop();
    assert_eq!(
        MakerAccount::try_from_derived(accounts.clone(), Some([4; 32])),
        Err(EscrowError::InvalidAccountData)
    );
    assert_eq!(MakerAccount::try_from(accounts), Err(EscrowError::InvalidAccountData));
}

#[test]
fn make_with_its_own_search_rejects_where_no_address_is_found() {
    let accounts = make_accounts();
    assert_eq!(MakerAccount::try_from(accounts.clone()), Err(EscrowError::InvalidAccountData));
    assert_eq!(
        MakerAccount::try_from(accounts.clone()),
        MakerAccount::try_from_derived(accounts, None)
    );
}
