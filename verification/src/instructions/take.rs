//! Settling an offer: the taker pays the maker and receives the vault.

use vstd::prelude::*;
use vstd::bytes::spec_u64_to_le_bytes;
use crate::account::{take_last, views, Account, AccountView};
use crate::error::{ErrorKind, EscrowError};
use crate::instructions::helper::{
    address_view, associated_address, associated_check, closed, creation_if_needed, credited,
    in_order, mint_check, program_check, signer_check, AssociatedToken, MintInterface,
    ProgramAccount, SignerAccount, TOMBSTONE,
};
use crate::pubkey::{same_key, Pubkey, SYSTEM_PROGRAM_ID};
use crate::service::{call_views, transferred, ServiceCall, ServiceCallView};
use crate::state::{
    decode, encode, escrow_seeds, law_stored_offer_reads_back, token_amount, token_balance,
    Escrow, EscrowView, ESCROW_SEED_PREFIX,
};

verus! {

/// The accounts of a settlement, in the order in which the transaction lists
/// them. A twelfth account is listed and not used.
#[derive(Clone, Debug, PartialEq, Eq)]
pub struct TakeAccounts {
    /// The wallet that settles the offer; it signs.
    pub taker: Account,
    /// The wallet that made the offer.
    pub maker: Account,
    /// The stored offer.
    pub escrow: Account,
    /// The token that was deposited.
    pub mint_a: Account,
    /// The token that is wanted.
    pub mint_b: Account,
    /// The token account that holds the deposit, in the offer's name.
    pub vault: Account,
    /// Where the taker receives the deposit.
    pub taker_ata_a: Account,
    /// From where the taker pays.
    pub taker_ata_b: Account,
    /// Where the maker is paid.
    pub maker_ata_b: Account,
    /// The system program.
    pub system_program: Account,
    /// The token program.
    pub token_program: Account,
}

/// The mathematical value of [`TakeAccounts`].
pub struct TakeAccountsView {
    pub taker: AccountView,
    pub maker: AccountView,
    pub escrow: AccountView,
    pub mint_a: AccountView,
    pub mint_b: AccountView,
    pub vault: AccountView,
    pub taker_ata_a: AccountView,
    pub taker_ata_b: AccountView,
    pub maker_ata_b: AccountView,
    pub system_program: AccountView,
    pub token_program: AccountView,
}

impl View for TakeAccounts {
    type V = TakeAccountsView;

    open spec fn view(&self) -> TakeAccountsView {
        TakeAccountsView {
            taker: self.taker@,
            maker: self.maker@,
            escrow: self.escrow@,
            mint_a: self.mint_a@,
            mint_b: self.mint_b@,
            vault: self.vault@,
            taker_ata_a: self.taker_ata_a@,
            taker_ata_b: self.taker_ata_b@,
            maker_ata_b: self.maker_ata_b@,
            system_program: self.system_program@,
            token_program: self.token_program@,
        }
    }
}

/// Number of accounts that a settlement lists.
pub const TAKE_ACCOUNTS: usize = 12;

/// The accounts of a settlement, taken from the list by position.
pub open spec fn listed(accounts: Seq<AccountView>) -> TakeAccountsView {
    TakeAccountsView {
        taker: accounts[0],
        maker: accounts[1],
        escrow: accounts[2],
        mint_a: accounts[3],
        mint_b: accounts[4],
        vault: accounts[5],
        taker_ata_a: accounts[6],
        taker_ata_b: accounts[7],
        maker_ata_b: accounts[8],
        system_program: accounts[9],
        token_program: accounts[10],
    }
}

/// The addresses that the four searches of an admission found, each `None`
/// where the search found none.
#[derive(Clone, Copy, Debug, PartialEq, Eq)]
pub struct TakeSearches {
    /// For the seeds of the taker's token account for `mint_b`; `taker_ata_a`
    /// is admitted against it.
    pub taker_ata_a: Option<Pubkey>,
    /// For the seeds of the escrow's token account for `mint_a`; the vault is
    /// admitted against it.
    pub vault: Option<Pubkey>,
    /// For the seeds of the taker's token account for `mint_a`; it decides
    /// whether `taker_ata_a` is created.
    pub taker_receives: Option<Pubkey>,
    /// For the seeds of the taker's token account for `mint_b`; it decides
    /// whether `maker_ata_b` is created.
    pub maker_receives: Option<Pubkey>,
}

/// The mathematical value of [`TakeSearches`].
pub struct TakeSearchesView {
    pub taker_ata_a: Option<Seq<u8>>,
    pub vault: Option<Seq<u8>>,
    pub taker_receives: Option<Seq<u8>>,
    pub maker_receives: Option<Seq<u8>>,
}

impl View for TakeSearches {
    type V = TakeSearchesView;

    open spec fn view(&self) -> TakeSearchesView {
        TakeSearchesView {
            taker_ata_a: address_view(self.taker_ata_a),
            vault: address_view(self.vault),
            taker_receives: address_view(self.taker_receives),
            maker_receives: address_view(self.maker_receives),
        }
    }
}

/// What the four searches of an admission find for a list of accounts. The
/// token program of every search is the listed one.
///
/// `taker_ata_a` is searched for under the taker and `mint_b`, though the
/// account later receives `mint_a`. The vault is searched for under the
/// escrow and `mint_a`. Both creations are decided by a search under the
/// taker, who pays for them: the first for `mint_a`, the second for `mint_b`.
pub open spec fn searched(accounts: Seq<AccountView>) -> TakeSearchesView {
    TakeSearchesView {
        taker_ata_a: associated_address(accounts[0].key, accounts[10].key, accounts[4].key),
        vault: associated_address(accounts[2].key, accounts[10].key, accounts[3].key),
        taker_receives: associated_address(accounts[0].key, accounts[10].key, accounts[3].key),
        maker_receives: associated_address(accounts[0].key, accounts[10].key, accounts[4].key),
    }
}

/// The checks that need no search, in order: twelve accounts; the taker
/// signed; this program owns the escrow; both mints are mints.
pub open spec fn take_admission_before_search(
    accounts: Seq<AccountView>,
    program_id: Seq<u8>,
) -> Result<(), EscrowError> {
    if accounts.len() != TAKE_ACCOUNTS {
        Err(EscrowError::NotEnoughAccountKeys)
    } else {
        in_order(
            signer_check(accounts[0]),
            in_order(
                program_check(accounts[2], program_id),
                in_order(mint_check(accounts[3]), mint_check(accounts[4])),
            ),
        )
    }
}

/// Whether a list of accounts is admitted to a settlement, and if not, why
/// not. After the checks that need no search, `taker_ata_a` and then the
/// vault are held to the addresses `taker_ata_a` and `vault` that were found
/// for their seeds.
pub open spec fn take_admission(
    accounts: Seq<AccountView>,
    program_id: Seq<u8>,
    taker_ata_a: Option<Seq<u8>>,
    vault: Option<Seq<u8>>,
) -> Result<(), EscrowError> {
    in_order(
        take_admission_before_search(accounts, program_id),
        in_order(
            associated_check(accounts[6], taker_ata_a),
            associated_check(accounts[5], vault),
        ),
    )
}

/// Whether `admitted` is what the admission of `accounts` comes to.
pub open spec fn is_take_admission(
    admitted: Result<TakeAccounts, EscrowError>,
    accounts: Seq<AccountView>,
    program_id: Seq<u8>,
    taker_ata_a: Option<Seq<u8>>,
    vault: Option<Seq<u8>>,
) -> bool {
    match take_admission(accounts, program_id, taker_ata_a, vault) {
        Ok(_) => admitted matches Ok(taken) && taken@ == listed(accounts),
        Err(e) => admitted matches Err(refusal) && refusal == e,
    }
}

impl TakeAccounts {
    fn from_list(accounts: Vec<Account>) -> (taken: TakeAccounts)
        requires
            accounts@.len() == TAKE_ACCOUNTS,
        ensures
            taken@ == listed(views(accounts@)),
    {
        let mut rest = accounts;
        let _ = take_last(&mut rest);
        let token_program = take_last(&mut rest);
        let system_program = take_last(&mut rest);
        let maker_ata_b = take_last(&mut rest);
        let taker_ata_b = take_last(&mut rest);
        let taker_ata_a = take_last(&mut rest);
        let vault = take_last(&mut rest);
        let mint_b = take_last(&mut rest);
        let mint_a = take_last(&mut rest);
        let escrow = take_last(&mut rest);
        let maker = take_last(&mut rest);
        let taker = take_last(&mut rest);
        TakeAccounts {
            taker,
            maker,
            escrow,
            mint_a,
            mint_b,
            vault,
            taker_ata_a,
            taker_ata_b,
            maker_ata_b,
            system_program,
            token_program,
        }
    }

    fn check_before_search(accounts: &Vec<Account>, program_id: &Pubkey) -> (checked: Result<
        (),
        EscrowError,
    >)
        ensures
            checked == take_admission_before_search(views(accounts@), program_id@),
    {
        if accounts.len() != TAKE_ACCOUNTS {
            return Err(EscrowError::NotEnoughAccountKeys);
        }
        if let Err(e) = SignerAccount::check(&accounts[0]) {
            return Err(e);
        }
        if let Err(e) = ProgramAccount::check(&accounts[2], program_id) {
            return Err(e);
        }
        if let Err(e) = MintInterface::check(&accounts[3]) {
            return Err(e);
        }
        if let Err(e) = MintInterface::check(&accounts[4]) {
            return Err(e);
        }
        Ok(())
    }

    /// Admits the accounts of a settlement, where `taker_ata_a` and `vault`
    /// are the addresses that were found for the seeds of these two accounts.
    pub fn try_from_derived(
        accounts: Vec<Account>,
        program_id: &Pubkey,
        taker_ata_a: Option<Pubkey>,
        vault: Option<Pubkey>,
    ) -> (admitted: Result<TakeAccounts, EscrowError>)
        ensures
            is_take_admission(
                admitted,
                views(accounts@),
                program_id@,
                address_view(taker_ata_a),
                address_view(vault),
            ),
    {
        if let Err(e) = Self::check_before_search(&accounts, program_id) {
            return Err(e);
        }
        if let Err(e) = AssociatedToken::check_derived(&accounts[6], taker_ata_a) {
            return Err(e);
        }
        if let Err(e) = AssociatedToken::check_derived(&accounts[5], vault) {
            return Err(e);
        }
        Ok(Self::from_list(accounts))
    }

    /// Admits the accounts of a settlement. `taker_ata_a` and the vault are
    /// held to the addresses that the searches find, as [`searched`] names
    /// them; each search is made as the checks reach it.
    pub fn try_from(accounts: Vec<Account>, program_id: &Pubkey) -> (admitted: Result<
        TakeAccounts,
        EscrowError,
    >)
        ensures
            is_take_admission(
                admitted,
                views(accounts@),
                program_id@,
                searched(views(accounts@)).taker_ata_a,
                searched(views(accounts@)).vault,
            ),
    {
        if let Err(e) = Self::check_before_search(&accounts, program_id) {
            return Err(e);
        }
        if let Err(e) = AssociatedToken::check(
            &accounts[6],
            &accounts[0],
            &accounts[4],
            &accounts[10],
        ) {
            return Err(e);
        }
        if let Err(e) = AssociatedToken::check(
            &accounts[5],
            &accounts[2],
            &accounts[3],
            &accounts[10],
        ) {
            return Err(e);
        }
        Ok(Self::from_list(accounts))
    }
}

/// A settlement that has been admitted.
#[derive(Clone, Debug, PartialEq, Eq)]
pub struct Take {
    pub accounts: TakeAccounts,
}

impl View for Take {
    type V = TakeAccountsView;

    open spec fn view(&self) -> TakeAccountsView {
        self.accounts@
    }
}

/// No call or one call as a list.
pub open spec fn if_any(call: Option<ServiceCallView>) -> Seq<ServiceCallView> {
    match call {
        Some(call) => seq![call],
        None => Seq::empty(),
    }
}

/// The creations that an admitted settlement asks for before it is
/// processed, in order: the account in which the taker receives `mint_a`,
/// then the account in which the maker receives `mint_b`. The taker pays for
/// both.
///
/// The second account is created for a wallet that is the account itself,
/// not the maker.
pub open spec fn take_creations(
    accounts: TakeAccountsView,
    taker_receives: Option<Seq<u8>>,
    maker_receives: Option<Seq<u8>>,
) -> Seq<ServiceCallView> {
    if_any(
        creation_if_needed(
            accounts.taker_ata_a,
            accounts.mint_a,
            accounts.taker,
            accounts.taker,
            accounts.system_program,
            accounts.token_program,
            taker_receives,
        ),
    ) + if_any(
        creation_if_needed(
            accounts.maker_ata_b,
            accounts.mint_b,
            accounts.taker,
            accounts.maker_ata_b,
            accounts.system_program,
            accounts.token_program,
            maker_receives,
        ),
    )
}

/// Whether `admitted` is what the admission of a settlement comes to, for
/// what the four searches found.
pub open spec fn is_take(
    admitted: Result<(Take, Vec<ServiceCall>), EscrowError>,
    accounts: Seq<AccountView>,
    program_id: Seq<u8>,
    found: TakeSearchesView,
) -> bool {
    match take_admission(accounts, program_id, found.taker_ata_a, found.vault) {
        Ok(_) => admitted matches Ok(pair) && pair.0@ == listed(accounts) && call_views(pair.1@)
            == take_creations(listed(accounts), found.taker_receives, found.maker_receives),
        Err(e) => admitted matches Err(refusal) && refusal == e,
    }
}

/// The address that the host derived, or the code of the failure that it
/// reported.
pub open spec fn derived_address(derived: Result<Pubkey, u64>) -> Result<Seq<u8>, u64> {
    match derived {
        Ok(address) => Ok(address@),
        Err(code) => Err(code),
    }
}

/// The offer that the escrow account stores, where the account is the one
/// that the offer's own seeds lead to. `derived` is what the host derived
/// from these seeds. The stored offer must decode; the derivation must not
/// have failed; the derived address must be the address of the escrow
/// account.
pub open spec fn authenticated(accounts: TakeAccountsView, derived: Result<Seq<u8>, u64>) -> Result<
    EscrowView,
    EscrowError,
> {
    match decode(accounts.escrow.data) {
        None => Err(EscrowError::InvalidAccountData),
        Some(offer) => match derived {
            Err(code) => Err(EscrowError::External(code)),
            Ok(address) => if address != accounts.escrow.key {
                Err(EscrowError::InvalidAccountOwner)
            } else {
                Ok(offer)
            },
        },
    }
}

/// The calls of a settlement, in order. The offer must be authenticated and
/// the vault must be a token account. Then the whole balance of the vault
/// goes to the taker and the vault is closed in favour of the maker, both in
/// the name of the escrow address; and the taker pays `receive` to the maker
/// in its own name.
pub open spec fn settlement(accounts: TakeAccountsView, derived: Result<Seq<u8>, u64>) -> Result<
    Seq<ServiceCallView>,
    EscrowError,
> {
    match authenticated(accounts, derived) {
        Err(e) => Err(e),
        Ok(offer) => match token_balance(accounts.vault) {
            None => Err(EscrowError::InvalidAccountData),
            Some(deposit) => {
                let seeds = escrow_seeds(accounts.maker.key, offer.seed, offer.bump);
                Ok(
                    seq![
                        ServiceCallView::Transfer {
                            from: accounts.vault.key,
                            to: accounts.taker_ata_a.key,
                            authority: accounts.escrow.key,
                            amount: deposit,
                            signer_seeds: seeds,
                        },
                        ServiceCallView::CloseAccount {
                            account: accounts.vault.key,
                            destination: accounts.maker.key,
                            authority: accounts.escrow.key,
                            signer_seeds: seeds,
                        },
                        ServiceCallView::Transfer {
                            from: accounts.taker_ata_b.key,
                            to: accounts.maker_ata_b.key,
                            authority: accounts.taker.key,
                            amount: offer.receive,
                            signer_seeds: Seq::empty(),
                        },
                    ],
                )
            },
        },
    }
}

/// The accounts after the escrow was closed in favour of the taker.
pub open spec fn escrow_closed(accounts: TakeAccountsView) -> TakeAccountsView {
    TakeAccountsView {
        escrow: closed(accounts.escrow),
        taker: credited(accounts.taker, accounts.escrow.lamports),
        ..accounts
    }
}

/// How a settlement ends, where `answer` is what the host got from the calls
/// of the settlement: `Ok` where all went through, else the code of the
/// first that failed. The escrow is closed only for an authenticated offer
/// whose calls all went through. A failed call ends the operation with the
/// host's code.
pub open spec fn conclusion(
    accounts: TakeAccountsView,
    derived: Result<Seq<u8>, u64>,
    answer: Result<(), u64>,
) -> Result<TakeAccountsView, EscrowError> {
    match authenticated(accounts, derived) {
        Err(e) => Err(e),
        Ok(_) => match answer {
            Err(code) => Err(EscrowError::External(code)),
            Ok(_) => Ok(escrow_closed(accounts)),
        },
    }
}

impl Take {
    /// The first byte of the instruction that asks for a settlement.
    pub const DISCRIMINATOR: u8 = 1;

    fn with_creations(
        accounts: TakeAccounts,
        first: Option<ServiceCall>,
        second: Option<ServiceCall>,
    ) -> (pair: (Take, Vec<ServiceCall>))
        ensures
            pair.0@ == accounts@,
            pair.1@.len() <= 2,
            call_views(pair.1@) == if_any(
                match first {
                    Some(call) => Some(call@),
                    None => None,
                },
            ) + if_any(
                match second {
                    Some(call) => Some(call@),
                    None => None,
                },
            ),
    {
        let mut calls: Vec<ServiceCall> = Vec::new();
        if let Some(call) = first {
            calls.push(call);
        }
        if let Some(call) = second {
            calls.push(call);
        }
        assert(call_views(calls@) =~= if_any(
            match first {
                Some(call) => Some(call@),
                None => None,
            },
        ) + if_any(
            match second {
                Some(call) => Some(call@),
                None => None,
            },
        ));
        (Take { accounts }, calls)
    }

    /// Admits a settlement, where `found` holds what the four searches found.
    /// The result holds, beside the settlement, the creations that the host
    /// makes before the settlement is processed.
    pub fn try_from_derived(
        accounts: Vec<Account>,
        program_id: &Pubkey,
        found: TakeSearches,
    ) -> (admitted: Result<(Take, Vec<ServiceCall>), EscrowError>)
        ensures
            is_take(admitted, views(accounts@), program_id@, found@),
            admitted matches Ok(pair) ==> pair.1@.len() <= 2,
    {
        let taken = match TakeAccounts::try_from_derived(
            accounts,
            program_id,
            found.taker_ata_a,
            found.vault,
        ) {
            Ok(taken) => taken,
            Err(e) => {
                return Err(e);
            },
        };
        let first = AssociatedToken::init_if_needed_derived(
            &taken.taker_ata_a,
            &taken.mint_a,
            &taken.taker,
            &taken.taker,
            &taken.system_program,
            &taken.token_program,
            found.taker_receives,
        );
        let second = AssociatedToken::init_if_needed_derived(
            &taken.maker_ata_b,
            &taken.mint_b,
            &taken.taker,
            &taken.maker_ata_b,
            &taken.system_program,
            &taken.token_program,
            found.maker_receives,
        );
        Ok(Self::with_creations(taken, first, second))
    }

    /// Admits a settlement. Every address is held to what the search finds
    /// for it, as [`searched`] names the four searches. The result holds,
    /// beside the settlement, the creations that the host makes before the
    /// settlement is processed.
    pub fn try_from(accounts: Vec<Account>, program_id: &Pubkey) -> (admitted: Result<
        (Take, Vec<ServiceCall>),
        EscrowError,
    >)
        ensures
            is_take(admitted, views(accounts@), program_id@, searched(views(accounts@))),
            admitted matches Ok(pair) ==> pair.1@.len() <= 2,
    {
        let taken = match TakeAccounts::try_from(accounts, program_id) {
            Ok(taken) => taken,
            Err(e) => {
                return Err(e);
            },
        };
        let first = AssociatedToken::init_if_needed(
            &taken.taker_ata_a,
            &taken.mint_a,
            &taken.taker,
            &taken.taker,
            &taken.system_program,
            &taken.token_program,
        );
        let second = AssociatedToken::init_if_needed(
            &taken.maker_ata_b,
            &taken.mint_b,
            &taken.taker,
            &taken.maker_ata_b,
            &taken.system_program,
            &taken.token_program,
        );
        Ok(Self::with_creations(taken, first, second))
    }

    /// The seeds from which the address of the stored offer is derived. The
    /// host derives the address from them under this program's own address
    /// and hands the answer to [`Take::process`] and [`Take::conclude`].
    pub fn escrow_seeds(&self) -> (seeds: Result<Vec<Vec<u8>>, EscrowError>)
        ensures
            match seeds {
                Ok(seeds) => decode(self@.escrow.data) matches Some(offer) && seeds.deep_view()
                    == escrow_seeds(self@.maker.key, offer.seed, offer.bump),
                Err(e) => decode(self@.escrow.data) is None && e == EscrowError::InvalidAccountData,
            },
    {
        match Escrow::load(self.accounts.escrow.data.as_slice()) {
            Ok(offer) => Ok(offer.seeds(&self.accounts.maker.key)),
            Err(e) => Err(e),
        }
    }

    fn authenticate(&self, derived: Result<Pubkey, u64>) -> (offer: Result<Escrow, EscrowError>)
        ensures
            match authenticated(self@, derived_address(derived)) {
                Ok(stored) => offer matches Ok(read) && read@ == stored,
                Err(e) => offer matches Err(refusal) && refusal == e,
            },
    {
        let offer = match Escrow::load(self.accounts.escrow.data.as_slice()) {
            Ok(offer) => offer,
            Err(e) => {
                return Err(e);
            },
        };
        let address = match derived {
            Ok(address) => address,
            Err(code) => {
                return Err(EscrowError::External(code));
            },
        };
        if !same_key(&address, &self.accounts.escrow.key) {
            return Err(EscrowError::InvalidAccountOwner);
        }
        Ok(offer)
    }

    /// The calls of the settlement. `derived` is the address that the host
    /// derived from [`Take::escrow_seeds`], or the code with which that
    /// derivation failed. The host makes the three calls in order, stops at
    /// the first that fails, and hands the answer to [`Take::conclude`].
    pub fn process(&self, derived: Result<Pubkey, u64>) -> (calls: Result<
        Vec<ServiceCall>,
        EscrowError,
    >)
        ensures
            match settlement(self@, derived_address(derived)) {
                Ok(due) => calls matches Ok(made) && call_views(made@) == due,
                Err(e) => calls matches Err(refusal) && refusal == e,
            },
            calls matches Ok(made) ==> made@.len() == 3,
    {
        let offer = match self.authenticate(derived) {
            Ok(offer) => offer,
            Err(e) => {
                return Err(e);
            },
        };
        let deposit = match token_amount(&self.accounts.vault) {
            Ok(deposit) => deposit,
            Err(e) => {
                return Err(e);
            },
        };
        let unsigned: Vec<Vec<u8>> = Vec::new();
        assert(unsigned.deep_view() =~= Seq::<Seq<u8>>::empty());
        let mut calls: Vec<ServiceCall> = Vec::new();
        calls.push(
            ServiceCall::Transfer {
                from: self.accounts.vault.key,
                to: self.accounts.taker_ata_a.key,
                authority: self.accounts.escrow.key,
                amount: deposit,
                signer_seeds: offer.seeds(&self.accounts.maker.key),
            },
        );
        calls.push(
            ServiceCall::CloseAccount {
                account: self.accounts.vault.key,
                destination: self.accounts.maker.key,
                authority: self.accounts.escrow.key,
                signer_seeds: offer.seeds(&self.accounts.maker.key),
            },
        );
        calls.push(
            ServiceCall::Transfer {
                from: self.accounts.taker_ata_b.key,
                to: self.accounts.maker_ata_b.key,
                authority: self.accounts.taker.key,
                amount: offer.receive,
                signer_seeds: unsigned,
            },
        );
        proof {
            let due = settlement(self@, derived_address(derived)).unwrap();
            assert(call_views(calls@) =~= due);
        }
        Ok(calls)
    }

    /// Ends the settlement. `derived` is the derived address as for
    /// [`Take::process`]; `answer` is what the host got from the three calls:
    /// `Ok` where all went through, else the code of the first that failed.
    ///
    /// Only where the offer is authenticated and all calls went through is
    /// the escrow closed in favour of the taker. A failed call ends the
    /// operation with the host's code. On every failure nothing has changed.
    pub fn conclude(&mut self, derived: Result<Pubkey, u64>, answer: Result<(), u64>) -> (ended:
        Result<(), EscrowError>)
        requires
            old(self)@.taker.lamports + old(self)@.escrow.lamports <= u64::MAX,
        ensures
            match conclusion(old(self)@, derived_address(derived), answer) {
                Ok(after) => ended is Ok && final(self)@ == after,
                Err(e) => ended == Err::<(), EscrowError>(e) && final(self)@ == old(self)@,
            },
    {
        if let Err(e) = self.authenticate(derived) {
            return Err(e);
        }
        if let Err(code) = answer {
            return Err(EscrowError::External(code));
        }
        ProgramAccount::close(&mut self.accounts.escrow, &mut self.accounts.taker);
        Ok(())
    }
}

/// Every refusal belongs to the family that its reason names. A list of the
/// wrong length is refused for its cardinality, and nothing else is. The
/// library itself never blames a service: a settlement is refused in that
/// family only where the host's derivation failed, and it ends in that
/// family only where the derivation or a call failed.
pub proof fn law_refusals_keep_to_their_family(
    accounts: Seq<AccountView>,
    program_id: Seq<u8>,
    taker_ata_a: Option<Seq<u8>>,
    vault: Option<Seq<u8>>,
    settling: TakeAccountsView,
    derived: Result<Seq<u8>, u64>,
    answer: Result<(), u64>,
)
    ensures
        take_admission(accounts, program_id, taker_ata_a, vault) matches Err(e) ==> {
            &&& e.spec_kind() == ErrorKind::Cardinality <==> accounts.len() != TAKE_ACCOUNTS
            &&& e.spec_kind() != ErrorKind::ExternalService
        },
        accounts.len() == TAKE_ACCOUNTS && (!accounts[0].is_signer || accounts[2].owner
            != program_id) ==> take_admission(accounts, program_id, taker_ata_a, vault) == Err::<
            (),
            EscrowError,
        >(EscrowError::InvalidAccountOwner),
        EscrowError::InvalidAccountOwner.spec_kind() == ErrorKind::Authorization,
        settlement(settling, derived) matches Err(e) ==> {
            &&& e.spec_kind() != ErrorKind::Cardinality
            &&& e.spec_kind() == ErrorKind::ExternalService <==> derived is Err && decode(
                settling.escrow.data,
            ) is Some
            &&& e.spec_kind() == ErrorKind::Authorization <==> derived is Ok && derived
                != Ok::<Seq<u8>, u64>(settling.escrow.key) && decode(settling.escrow.data)
                is Some
        },
        conclusion(settling, derived, answer) matches Err(e) ==> (e.spec_kind()
            == ErrorKind::ExternalService <==> decode(settling.escrow.data) is Some && (derived
            is Err || (derived == Ok::<Seq<u8>, u64>(settling.escrow.key) && answer is Err))),
{
}

/// Only the true escrow account settles. The seeds are the word `escrow`,
/// the maker's address, and the nonce and the bump that the escrow account
/// itself stores. A settlement goes through only where the address derived
/// from them is the address of that account; any other address is refused as
/// unauthorised, and a failed derivation is refused with the host's code. A
/// refusal asks for no call and closes nothing. Every call made in the
/// escrow's name carries exactly these seeds.
pub proof fn law_only_the_derived_escrow_settles(
    accounts: TakeAccountsView,
    derived: Result<Seq<u8>, u64>,
    answer: Result<(), u64>,
)
    requires
        decode(accounts.escrow.data) is Some,
    ensures
        settlement(accounts, derived) is Ok ==> derived == Ok::<Seq<u8>, u64>(
            accounts.escrow.key,
        ),
        conclusion(accounts, derived, answer) is Ok ==> derived == Ok::<Seq<u8>, u64>(
            accounts.escrow.key,
        ),
        derived matches Ok(address) && address != accounts.escrow.key ==> settlement(
            accounts,
            derived,
        ) == Err::<Seq<ServiceCallView>, EscrowError>(EscrowError::InvalidAccountOwner)
            && conclusion(accounts, derived, answer) == Err::<TakeAccountsView, EscrowError>(
            EscrowError::InvalidAccountOwner,
        ),
        derived matches Err(code) ==> settlement(accounts, derived) == Err::<
            Seq<ServiceCallView>,
            EscrowError,
        >(EscrowError::External(code)),
        settlement(accounts, derived) matches Ok(calls) ==> {
            let offer = decode(accounts.escrow.data).unwrap();
            let seeds = seq![
                ESCROW_SEED_PREFIX@,
                accounts.maker.key,
                spec_u64_to_le_bytes(offer.seed),
                seq![offer.bump],
            ];
            &&& calls[0] matches ServiceCallView::Transfer { authority, signer_seeds, .. }
                && authority == accounts.escrow.key && signer_seeds == seeds
            &&& calls[1] matches ServiceCallView::CloseAccount { authority, signer_seeds, .. }
                && authority == accounts.escrow.key && signer_seeds == seeds
        },
{
}

/// Making and taking agree on the address. Where the escrow account holds
/// the stored form of an offer, a settlement reads that very offer back, and
/// the seeds it signs with are the seeds of the offer as it was made: the
/// word `escrow`, the maker's address, the offer's nonce and its bump.
pub proof fn law_take_derives_from_what_was_stored(
    offer: EscrowView,
    accounts: TakeAccountsView,
    derived: Result<Seq<u8>, u64>,
)
    requires
        offer.mint_a.len() == 32,
        offer.mint_b.len() == 32,
        accounts.escrow.data == encode(offer),
    ensures
        decode(accounts.escrow.data) == Some(offer),
        settlement(accounts, derived) matches Ok(calls) ==> {
            &&& calls[0] matches ServiceCallView::Transfer { signer_seeds, .. } && signer_seeds
                == escrow_seeds(accounts.maker.key, offer.seed, offer.bump)
            &&& calls[2] matches ServiceCallView::Transfer { amount, .. } && amount
                == offer.receive
        },
{
    law_stored_offer_reads_back(offer, accounts.escrow.data);
}

/// The taker receives the whole deposit: the first call moves the balance
/// that the vault itself stores, no more and no less, from the vault to the
/// account in which the taker receives, on the escrow's authority, and so
/// leaves nothing in the vault.
pub proof fn law_whole_deposit_goes_to_taker(
    accounts: TakeAccountsView,
    derived: Result<Seq<u8>, u64>,
)
    requires
        settlement(accounts, derived) is Ok,
    ensures
        token_balance(accounts.vault) is Some,
        ({
            let deposit = token_balance(accounts.vault).unwrap();
            let offer = decode(accounts.escrow.data).unwrap();
            let calls = settlement(accounts, derived).unwrap();
            &&& calls[0] == (ServiceCallView::Transfer {
                from: accounts.vault.key,
                to: accounts.taker_ata_a.key,
                authority: accounts.escrow.key,
                amount: deposit,
                signer_seeds: escrow_seeds(accounts.maker.key, offer.seed, offer.bump),
            })
            &&& calls[0] matches ServiceCallView::Transfer { amount, .. } && deposit - amount
                == 0
        }),
{
}

/// The maker is paid exactly what the offer asks: the last of the three calls
/// moves `receive` units, as the escrow account stores them, from the taker
/// to the maker, on the taker's own word.
pub proof fn law_maker_is_paid_exactly(
    accounts: TakeAccountsView,
    derived: Result<Seq<u8>, u64>,
)
    requires
        settlement(accounts, derived) is Ok,
    ensures
        decode(accounts.escrow.data) is Some,
        ({
            let offer = decode(accounts.escrow.data).unwrap();
            let calls = settlement(accounts, derived).unwrap();
            &&& calls.len() == 3
            &&& calls[2] == (ServiceCallView::Transfer {
                from: accounts.taker_ata_b.key,
                to: accounts.maker_ata_b.key,
                authority: accounts.taker.key,
                amount: offer.receive,
                signer_seeds: Seq::empty(),
            })
        }),
{
}

/// A failed call ends the operation. Whatever the three calls were, where
/// the host reports a failure the settlement ends with the host's code, in
/// the family of the services, and the escrow stays as it was: it still
/// holds its lamports and still reads as the same offer.
pub proof fn law_failed_call_ends_the_operation(
    accounts: TakeAccountsView,
    derived: Result<Seq<u8>, u64>,
    code: u64,
)
    requires
        settlement(accounts, derived) is Ok,
    ensures
        conclusion(accounts, derived, Err(code)) == Err::<TakeAccountsView, EscrowError>(
            EscrowError::External(code),
        ),
        EscrowError::External(code).spec_kind() == ErrorKind::ExternalService,
        conclusion(accounts, derived, Ok(())) == Ok::<TakeAccountsView, EscrowError>(
            escrow_closed(accounts),
        ),
{
}

/// A settlement closes both the vault and the escrow. The vault is closed by
/// the second call, in favour of the maker, after the deposit has left it.
/// The escrow is closed by the program itself once all calls went through,
/// in favour of the taker: it ends with no lamports, with the tombstone as
/// its only byte, and in the hands of the system program; the taker holds
/// what the escrow held; no lamport is made or lost; no other account is
/// touched.
pub proof fn law_settlement_closes_vault_and_escrow(
    accounts: TakeAccountsView,
    derived: Result<Seq<u8>, u64>,
)
    requires
        settlement(accounts, derived) is Ok,
    ensures
        conclusion(accounts, derived, Ok(())) is Ok,
        ({
            let calls = settlement(accounts, derived).unwrap();
            let after = conclusion(accounts, derived, Ok(())).unwrap();
            &&& calls[1] matches ServiceCallView::CloseAccount { account, destination, .. }
                && account == accounts.vault.key && destination == accounts.maker.key
            &&& after.escrow.lamports == 0
            &&& after.escrow.data == seq![TOMBSTONE]
            &&& after.escrow.owner == SYSTEM_PROGRAM_ID@
            &&& after.escrow.key == accounts.escrow.key
            &&& after.taker.lamports == accounts.taker.lamports + accounts.escrow.lamports
            &&& after.escrow.lamports + after.taker.lamports == accounts.escrow.lamports
                + accounts.taker.lamports
            &&& after == (TakeAccountsView { escrow: after.escrow, taker: after.taker, ..accounts })
            &&& after.taker == (AccountView { lamports: after.taker.lamports, ..accounts.taker })
        }),
{
}

/// The swap as the token balances see it. Take any balances in which the
/// vault holds what its storage says, and four distinct token accounts. The
/// first transfer then goes through, empties the vault and adds the whole
/// deposit to what the taker held of the deposited token. The payment goes
/// through exactly where the taker holds at least `receive` of the wanted
/// token; the taker then has `receive` less of it and the maker `receive`
/// more, and no token is made or lost.
pub proof fn law_settlement_swaps_the_tokens(
    accounts: TakeAccountsView,
    derived: Result<Seq<u8>, u64>,
    balances: Map<Seq<u8>, nat>,
)
    requires
        settlement(accounts, derived) is Ok,
        balances.dom().contains(accounts.vault.key),
        balances.dom().contains(accounts.taker_ata_a.key),
        balances.dom().contains(accounts.taker_ata_b.key),
        balances.dom().contains(accounts.maker_ata_b.key),
        balances[accounts.vault.key] == token_balance(accounts.vault).unwrap(),
        accounts.vault.key != accounts.taker_ata_a.key,
        accounts.vault.key != accounts.taker_ata_b.key,
        accounts.vault.key != accounts.maker_ata_b.key,
        accounts.taker_ata_a.key != accounts.taker_ata_b.key,
        accounts.taker_ata_a.key != accounts.maker_ata_b.key,
        accounts.taker_ata_b.key != accounts.maker_ata_b.key,
    ensures
        ({
            let calls = settlement(accounts, derived).unwrap();
            let deposit = token_balance(accounts.vault).unwrap();
            let receive = decode(accounts.escrow.data).unwrap().receive;
            let vault = accounts.vault.key;
            let taker_a = accounts.taker_ata_a.key;
            let taker_b = accounts.taker_ata_b.key;
            let maker_b = accounts.maker_ata_b.key;
            &&& calls[0] matches ServiceCallView::Transfer { from, to, amount, .. }
            &&& calls[2] matches ServiceCallView::Transfer {
                from: payer,
                to: payee,
                amount: price,
                ..
            }
            &&& transferred(balances, from, to, amount as nat) matches Some(released)
            &&& released[vault] == 0
            &&& released[taker_a] == balances[taker_a] + deposit
            &&& released[taker_b] == balances[taker_b]
            &&& released[maker_b] == balances[maker_b]
            &&& transferred(released, payer, payee, price as nat) is Some <==> balances[taker_b]
                >= receive
            &&& transferred(released, payer, payee, price as nat) matches Some(paid) ==> {
                &&& paid[vault] == 0
                &&& paid[taker_a] == balances[taker_a] + deposit
                &&& paid[taker_b] == balances[taker_b] - receive
                &&& paid[maker_b] == balances[maker_b] + receive
                &&& paid[vault] + paid[taker_a] == balances[vault] + balances[taker_a]
                &&& paid[taker_b] + paid[maker_b] == balances[taker_b] + balances[maker_b]
            }
        }),
{
}

/// An offer settles once. The accounts that a settlement leaves behind are
/// refused by the next one, whatever address is derived for them and
/// whatever the host answers: the closed escrow no longer reads as an offer.
pub proof fn law_offer_settles_once(
    accounts: TakeAccountsView,
    derived: Result<Seq<u8>, u64>,
    again: Result<Seq<u8>, u64>,
    answer: Result<(), u64>,
)
    requires
        conclusion(accounts, derived, Ok(())) is Ok,
    ensures
        settlement(conclusion(accounts, derived, Ok(())).unwrap(), again) == Err::<
            Seq<ServiceCallView>,
            EscrowError,
        >(EscrowError::InvalidAccountData),
        conclusion(conclusion(accounts, derived, Ok(())).unwrap(), again, answer) == Err::<
            TakeAccountsView,
            EscrowError,
        >(EscrowError::InvalidAccountData),
{
}

} // verus!
