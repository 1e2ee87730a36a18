//! Making an offer: the accounts that the maker brings.

use vstd::prelude::*;
use crate::account::{take_last, views, Account, AccountView};
use crate::error::EscrowError;
use crate::instructions::helper::{
    address_view, associated_address, associated_check, in_order, mint_check, signer_check,
    AssociatedToken, MintInterface, SignerAccount,
};
use crate::pubkey::Pubkey;

verus! {

/// Number of accounts that the making of an offer lists.
pub const MAKE_ACCOUNTS: usize = 9;

/// The accounts of an offer in the making, in the order in which the
/// transaction lists them. A ninth account is listed and not used.
#[derive(Clone, Debug, PartialEq, Eq)]
pub struct MakerAccount {
    /// The wallet that makes the offer; it signs.
    pub maker: Account,
    /// Where the offer will be stored.
    pub escrow: Account,
    /// The token that is deposited.
    pub mint_a: Account,
    /// The token that is wanted.
    pub mint_b: Account,
    /// From where the maker deposits.
    pub maker_ata_a: Account,
    /// The token account that will hold the deposit.
    pub vault: Account,
    /// The system program.
    pub system_program: Account,
    /// The token program.
    pub token_program: Account,
}

/// The mathematical value of a [`MakerAccount`].
pub struct MakerAccountView {
    pub maker: AccountView,
    pub escrow: AccountView,
    pub mint_a: AccountView,
    pub mint_b: AccountView,
    pub maker_ata_a: AccountView,
    pub vault: AccountView,
    pub system_program: AccountView,
    pub token_program: AccountView,
}

impl View for MakerAccount {
    type V = MakerAccountView;

    open spec fn view(&self) -> MakerAccountView {
        MakerAccountView {
            maker: self.maker@,
            escrow: self.escrow@,
            mint_a: self.mint_a@,
            mint_b: self.mint_b@,
            maker_ata_a: self.maker_ata_a@,
            vault: self.vault@,
            system_program: self.system_program@,
            token_program: self.token_program@,
        }
    }
}

/// The accounts of an offer in the making, taken from the list by position.
pub open spec fn listed(accounts: Seq<AccountView>) -> MakerAccountView {
    MakerAccountView {
        maker: accounts[0],
        escrow: accounts[1],
        mint_a: accounts[2],
        mint_b: accounts[3],
        maker_ata_a: accounts[4],
        vault: accounts[5],
        system_program: accounts[6],
        token_program: accounts[7],
    }
}

/// The checks that need no search, in order: nine accounts; the maker
/// signed; both mints are mints.
pub open spec fn make_admission_before_search(accounts: Seq<AccountView>) -> Result<
    (),
    EscrowError,
> {
    if accounts.len() != MAKE_ACCOUNTS {
        Err(EscrowError::NotEnoughAccountKeys)
    } else {
        in_order(
            signer_check(accounts[0]),
            in_order(mint_check(accounts[2]), mint_check(accounts[3])),
        )
    }
}

/// Whether a list of accounts is admitted to the making of an offer, and if
/// not, why not. The checks, in order: nine accounts; the maker signed; both
/// mints are mints; `maker_ata_a` is the maker's token account for `mint_a`,
/// where `maker_ata_a` is the address found for its seeds.
pub open spec fn make_admission(accounts: Seq<AccountView>, maker_ata_a: Option<Seq<u8>>) -> Result<
    (),
    EscrowError,
> {
    in_order(
        make_admission_before_search(accounts),
        associated_check(accounts[4], maker_ata_a),
    )
}

/// The address that the admission searches for: that of the token account of
/// the maker for `mint_a`.
pub open spec fn searched(accounts: Seq<AccountView>) -> Option<Seq<u8>> {
    associated_address(accounts[0].key, accounts[7].key, accounts[2].key)
}

/// Whether `admitted` is what the admission of `accounts` comes to.
pub open spec fn is_make_admission(
    admitted: Result<MakerAccount, EscrowError>,
    accounts: Seq<AccountView>,
    maker_ata_a: Option<Seq<u8>>,
) -> bool {
    match make_admission(accounts, maker_ata_a) {
        Ok(_) => admitted matches Ok(made) && made@ == listed(accounts),
        Err(e) => admitted matches Err(refusal) && refusal == e,
    }
}

impl MakerAccount {
    fn from_list(accounts: Vec<Account>) -> (made: MakerAccount)
        requires
            accounts@.len() == MAKE_ACCOUNTS,
        ensures
            made@ == listed(views(accounts@)),
    {
        let mut rest = accounts;
        let _ = take_last(&mut rest);
        let token_program = take_last(&mut rest);
        let system_program = take_last(&mut rest);
        let vault = take_last(&mut rest);
        let maker_ata_a = take_last(&mut rest);
        let mint_b = take_last(&mut rest);
        let mint_a = take_last(&mut rest);
        let escrow = take_last(&mut rest);
        let maker = take_last(&mut rest);
        MakerAccount {
            maker,
            escrow,
            mint_a,
            mint_b,
            maker_ata_a,
            vault,
            system_program,
            token_program,
        }
    }

    fn check_before_search(accounts: &Vec<Account>) -> (checked: Result<(), EscrowError>)
        ensures
            checked == make_admission_before_search(views(accounts@)),
    {
        if accounts.len() != MAKE_ACCOUNTS {
            return Err(EscrowError::NotEnoughAccountKeys);
        }
        if let Err(e) = SignerAccount::check(&accounts[0]) {
            return Err(e);
        }
        if let Err(e) = MintInterface::check(&accounts[2]) {
            return Err(e);
        }
        if let Err(e) = MintInterface::check(&accounts[3]) {
            return Err(e);
        }
        Ok(())
    }

    /// Admits the accounts of an offer in the making, where `maker_ata_a` is
    /// the address that was found for the seeds of the maker's token account
    /// for `mint_a`.
    pub fn try_from_derived(accounts: Vec<Account>, maker_ata_a: Option<Pubkey>) -> (admitted: Result<
        MakerAccount,
        EscrowError,
    >)
        ensures
            is_make_admission(admitted, views(accounts@), address_view(maker_ata_a)),
    {
        if let Err(e) = Self::check_before_search(&accounts) {
            return Err(e);
        }
        if let Err(e) = AssociatedToken::check_derived(&accounts[4], maker_ata_a) {
            return Err(e);
        }
        Ok(Self::from_list(accounts))
    }

    /// Admits the accounts of an offer in the making. `maker_ata_a` is held
    /// to the address that the search finds for the maker's token account for
    /// `mint_a`; the search is made once the earlier checks have passed.
    pub fn try_from(accounts: Vec<Account>) -> (admitted: Result<MakerAccount, EscrowError>)
        ensures
            is_make_admission(admitted, views(accounts@), searched(views(accounts@))),
    {
        if let Err(e) = Self::check_before_search(&accounts) {
            return Err(e);
        }
        if let Err(e) = AssociatedToken::check(
            &accounts[4],
            &accounts[0],
            &accounts[2],
            &accounts[7],
        ) {
            return Err(e);
        }
        Ok(Self::from_list(accounts))
    }
}

} // verus!
