//! The checks that admit an account, and the program's own account handling.

use vstd::prelude::*;
use crate::account::{Account, AccountView};
use crate::error::{ErrorKind, EscrowError};
use crate::pubkey::{
    associated_token_program_id, find_program_address, key_bytes, program_address, same_key,
    system_program_id, token_program_id, Pubkey, ASSOCIATED_TOKEN_PROGRAM_ID, SYSTEM_PROGRAM_ID,
    TOKEN_2022_PROGRAM_ID, TOKEN_PROGRAM_ID,
};
use crate::service::{ServiceCall, ServiceCallView};
use crate::state::{decode, mint_len, token_account_len, MINT_LEN, TOKEN_ACCOUNT_LEN};

verus! {

/// The byte that marks the data of a closed account.
pub const TOMBSTONE: u8 = 0xff;

/// Where an account of the token program with extensions says what it is,
/// unless it has the plain length of a mint.
pub const TOKEN_2022_ACCOUNT_DISCRIMINATOR_OFFSET: usize = 165;

/// The mark of a mint.
pub const TOKEN_2022_MINT_DISCRIMINATOR: u8 = 0x01;

/// The mark of a token account.
pub const TOKEN_2022_TOKEN_ACCOUNT_DISCRIMINATOR: u8 = 0x02;

/// An account is admitted as a signer only if it signed the transaction.
pub open spec fn signer_check(account: AccountView) -> Result<(), EscrowError> {
    if account.is_signer {
        Ok(())
    } else {
        Err(EscrowError::InvalidAccountOwner)
    }
}

/// An account is admitted as a mint in one of two shapes. Owned by the token
/// program with extensions, it has either the plain length of a mint or more
/// than 165 bytes with the mark of a mint at offset 165. Owned by the
/// legacy token program, it has the plain length of a mint.
pub open spec fn mint_check(account: AccountView) -> Result<(), EscrowError> {
    if account.owner == TOKEN_2022_PROGRAM_ID@ {
        if account.data.len() == MINT_LEN || (account.data.len()
            > TOKEN_2022_ACCOUNT_DISCRIMINATOR_OFFSET
            && account.data[TOKEN_2022_ACCOUNT_DISCRIMINATOR_OFFSET as int]
            == TOKEN_2022_MINT_DISCRIMINATOR) {
            Ok(())
        } else {
            Err(EscrowError::InvalidAccountData)
        }
    } else if account.owner == TOKEN_PROGRAM_ID@ {
        if account.data.len() == MINT_LEN {
            Ok(())
        } else {
            Err(EscrowError::InvalidAccountData)
        }
    } else {
        Err(EscrowError::InvalidAccountOwner)
    }
}

/// An account is admitted as a program account only if this program owns it.
pub open spec fn program_check(account: AccountView, program_id: Seq<u8>) -> Result<
    (),
    EscrowError,
> {
    if account.owner == program_id {
        Ok(())
    } else {
        Err(EscrowError::InvalidAccountOwner)
    }
}

/// The seeds of the token account that `authority` holds for `mint`.
pub open spec fn associated_seeds(authority: Seq<u8>, token_program: Seq<u8>, mint: Seq<u8>) -> Seq<
    Seq<u8>,
> {
    seq![authority, token_program, mint]
}

/// The address that the search finds for the token account that `authority`
/// holds for `mint`, under the associated token program; `None` where it
/// finds none.
pub open spec fn associated_address(
    authority: Seq<u8>,
    token_program: Seq<u8>,
    mint: Seq<u8>,
) -> Option<Seq<u8>> {
    match program_address(
        associated_seeds(authority, token_program, mint),
        ASSOCIATED_TOKEN_PROGRAM_ID@,
    ) {
        Some(pair) => Some(pair.0),
        None => None,
    }
}

/// The first half of the admission of an associated token account: the
/// legacy token program owns it and it has the length of a token account.
pub open spec fn layout_check(account: AccountView) -> Result<(), EscrowError> {
    if account.owner != TOKEN_PROGRAM_ID@ {
        Err(EscrowError::InvalidAccountOwner)
    } else if account.data.len() != TOKEN_ACCOUNT_LEN {
        Err(EscrowError::InvalidAccountData)
    } else {
        Ok(())
    }
}

/// The second half: `derived`, the address found for the account's seeds, is
/// the account's own address.
pub open spec fn address_check(account: AccountView, derived: Option<Seq<u8>>) -> Result<
    (),
    EscrowError,
> {
    if derived == Some(account.key) {
        Ok(())
    } else {
        Err(EscrowError::InvalidAccountData)
    }
}

/// An account is admitted as an associated token account only if the
/// legacy token program owns it, it has the length of a token account, and
/// `derived`, the address found for its seeds, is its own address.
pub open spec fn associated_check(account: AccountView, derived: Option<Seq<u8>>) -> Result<
    (),
    EscrowError,
> {
    in_order(layout_check(account), address_check(account, derived))
}

/// The call that creates the token account `account` of `owner` for `mint`.
pub open spec fn creation(
    account: AccountView,
    mint: AccountView,
    payer: AccountView,
    owner: AccountView,
    system_program: AccountView,
    token_program: AccountView,
) -> ServiceCallView {
    ServiceCallView::CreateAssociatedToken {
        funding_account: payer.key,
        account: account.key,
        wallet: owner.key,
        mint: mint.key,
        system_program: system_program.key,
        token_program: token_program.key,
    }
}

/// The call, if any, that makes sure that `account` exists: none where the
/// account is admitted as it is, the creation in every other case.
pub open spec fn creation_if_needed(
    account: AccountView,
    mint: AccountView,
    payer: AccountView,
    owner: AccountView,
    system_program: AccountView,
    token_program: AccountView,
    derived: Option<Seq<u8>>,
) -> Option<ServiceCallView> {
    if associated_check(account, derived) is Ok {
        None
    } else {
        Some(creation(account, mint, payer, owner, system_program, token_program))
    }
}

/// Two checks in order: the first refusal stands.
pub open spec fn in_order(first: Result<(), EscrowError>, rest: Result<(), EscrowError>) -> Result<
    (),
    EscrowError,
> {
    match first {
        Ok(_) => rest,
        Err(e) => Err(e),
    }
}

/// The value of an address that may be missing.
pub open spec fn address_view(address: Option<Pubkey>) -> Option<Seq<u8>> {
    match address {
        Some(key) => Some(key@),
        None => None,
    }
}

/// An account that signed the transaction.
#[derive(Clone, Copy, Debug)]
pub struct SignerAccount<'a> {
    pub maker: &'a Account,
}

impl<'a> SignerAccount<'a> {
    /// Admits `maker` only if it signed the transaction.
    pub fn check(maker: &'a Account) -> (checked: Result<SignerAccount<'a>, EscrowError>)
        ensures
            match signer_check(maker@) {
                Ok(_) => checked matches Ok(signer) && signer.maker@ == maker@,
                Err(e) => checked matches Err(refusal) && refusal == e,
            },
    {
        if !maker.is_signer {
            return Err(EscrowError::InvalidAccountOwner);
        }
        Ok(SignerAccount { maker })
    }
}

/// An account that holds a mint, in either of the two shapes.
#[derive(Clone, Copy, Debug)]
pub struct MintInterface<'a> {
    pub mint: &'a Account,
}

impl<'a> MintInterface<'a> {
    /// Admits `mint` only as [`mint_check`] says.
    pub fn check(mint: &'a Account) -> (checked: Result<MintInterface<'a>, EscrowError>)
        ensures
            match mint_check(mint@) {
                Ok(_) => checked matches Ok(admitted) && admitted.mint@ == mint@,
                Err(e) => checked matches Err(refusal) && refusal == e,
            },
    {
        if !same_key(&mint.owner, &TOKEN_2022_PROGRAM_ID) {
            if !same_key(&mint.owner, &token_program_id()) {
                return Err(EscrowError::InvalidAccountOwner);
            } else {
                if mint.data.len() != mint_len() {
                    return Err(EscrowError::InvalidAccountData);
                }
            }
        } else {
            if mint.data.len() != mint_len() {
                if mint.data.len() <= TOKEN_2022_ACCOUNT_DISCRIMINATOR_OFFSET {
                    return Err(EscrowError::InvalidAccountData);
                }
                if mint.data[TOKEN_2022_ACCOUNT_DISCRIMINATOR_OFFSET]
                    != TOKEN_2022_MINT_DISCRIMINATOR {
                    return Err(EscrowError::InvalidAccountData);
                }
            }
        }
        Ok(MintInterface { mint })
    }
}

/// Token accounts at the address that belongs to a wallet and a mint.
pub struct AssociatedToken;

impl AssociatedToken {
    /// The seeds from which the address of the token account of `authority`
    /// for `mint` is derived, under the associated token program.
    pub fn seeds(authority: &Account, mint: &Account, token_program: &Account) -> (seeds: Vec<
        Vec<u8>,
    >)
        ensures
            seeds.deep_view() == associated_seeds(
                authority@.key,
                token_program@.key,
                mint@.key,
            ),
    {
        let mut seeds: Vec<Vec<u8>> = Vec::new();
        seeds.push(key_bytes(&authority.key));
        seeds.push(key_bytes(&token_program.key));
        seeds.push(key_bytes(&mint.key));
        assert(seeds.deep_view() =~~= associated_seeds(
            authority@.key,
            token_program@.key,
            mint@.key,
        ));
        seeds
    }

    fn check_layout(account: &Account) -> (checked: Result<(), EscrowError>)
        ensures
            checked == layout_check(account@),
    {
        if !same_key(&account.owner, &token_program_id()) {
            return Err(EscrowError::InvalidAccountOwner);
        }
        if account.data.len() != token_account_len() {
            return Err(EscrowError::InvalidAccountData);
        }
        Ok(())
    }

    fn check_address(account: &Account, derived: Option<Pubkey>) -> (checked: Result<
        (),
        EscrowError,
    >)
        ensures
            checked == address_check(account@, address_view(derived)),
    {
        match derived {
            Some(address) => {
                if same_key(&address, &account.key) {
                    Ok(())
                } else {
                    Err(EscrowError::InvalidAccountData)
                }
            },
            None => Err(EscrowError::InvalidAccountData),
        }
    }

    /// Admits `account` where `derived` is the address that was found for its
    /// seeds, `None` where none was found.
    pub fn check_derived(account: &Account, derived: Option<Pubkey>) -> (checked: Result<
        (),
        EscrowError,
    >)
        ensures
            checked == associated_check(account@, address_view(derived)),
    {
        match Self::check_layout(account) {
            Ok(_) => Self::check_address(account, derived),
            Err(e) => Err(e),
        }
    }

    /// Searches for the address of the token account that `authority` holds
    /// for `mint`.
    pub fn search(authority: &Account, mint: &Account, token_program: &Account) -> (found: Option<
        Pubkey,
    >)
        ensures
            address_view(found) == associated_address(
                authority@.key,
                token_program@.key,
                mint@.key,
            ),
    {
        match find_program_address(
            &Self::seeds(authority, mint, token_program),
            &associated_token_program_id(),
        ) {
            Some(pair) => Some(pair.0),
            None => None,
        }
    }

    /// Admits `account` as the token account of `authority` for `mint`: the
    /// legacy token program owns it, it has the length of a token account,
    /// and it sits at the address that the search finds for `authority`,
    /// `token_program` and `mint`. The address is searched for only once owner
    /// and length have passed.
    ///
    /// The owner is held to the legacy token program whatever `token_program`
    /// is; `token_program` only takes part in the address.
    pub fn check(
        account: &Account,
        authority: &Account,
        mint: &Account,
        token_program: &Account,
    ) -> (checked: Result<(), EscrowError>)
        ensures
            checked == associated_check(
                account@,
                associated_address(authority@.key, token_program@.key, mint@.key),
            ),
    {
        if let Err(e) = Self::check_layout(account) {
            return Err(e);
        }
        Self::check_address(account, Self::search(authority, mint, token_program))
    }

    /// The call that creates `account` as the token account of `owner` for
    /// `mint`, paid for by `payer`.
    pub fn init(
        account: &Account,
        mint: &Account,
        payer: &Account,
        owner: &Account,
        system_program: &Account,
        token_program: &Account,
    ) -> (call: ServiceCall)
        ensures
            call@ == creation(account@, mint@, payer@, owner@, system_program@, token_program@),
    {
        ServiceCall::CreateAssociatedToken {
            funding_account: payer.key,
            account: account.key,
            wallet: owner.key,
            mint: mint.key,
            system_program: system_program.key,
            token_program: token_program.key,
        }
    }

    /// The creation of `account`, unless `account` is admitted as it is.
    /// `derived` is the address that was found for the seeds of the token
    /// account of `payer` for `mint`. Every refusal counts as an account that
    /// is not there yet, whatever its reason.
    pub fn init_if_needed_derived(
        account: &Account,
        mint: &Account,
        payer: &Account,
        owner: &Account,
        system_program: &Account,
        token_program: &Account,
        derived: Option<Pubkey>,
    ) -> (call: Option<ServiceCall>)
        ensures
            match creation_if_needed(
                account@,
                mint@,
                payer@,
                owner@,
                system_program@,
                token_program@,
                address_view(derived),
            ) {
                Some(due) => call matches Some(made) && made@ == due,
                None => call is None,
            },
    {
        match Self::check_derived(account, derived) {
            Ok(_) => None,
            Err(_) => Some(Self::init(account, mint, payer, owner, system_program, token_program)),
        }
    }

    /// The creation of `account`, unless `account` is admitted as the token
    /// account of `payer` for `mint`, at the address that the search finds
    /// for them. Every refusal counts as an account that is not there yet,
    /// whatever its reason.
    pub fn init_if_needed(
        account: &Account,
        mint: &Account,
        payer: &Account,
        owner: &Account,
        system_program: &Account,
        token_program: &Account,
    ) -> (call: Option<ServiceCall>)
        ensures
            match creation_if_needed(
                account@,
                mint@,
                payer@,
                owner@,
                system_program@,
                token_program@,
                associated_address(payer@.key, token_program@.key, mint@.key),
            ) {
                Some(due) => call matches Some(made) && made@ == due,
                None => call is None,
            },
    {
        match Self::check(account, payer, mint, token_program) {
            Ok(_) => None,
            Err(_) => Some(Self::init(account, mint, payer, owner, system_program, token_program)),
        }
    }
}

/// A program account after [`ProgramAccount::close`]: one byte of data, the
/// tombstone; no lamports; owned by the system program again.
pub open spec fn closed(account: AccountView) -> AccountView {
    AccountView { owner: SYSTEM_PROGRAM_ID@, lamports: 0, data: seq![TOMBSTONE], ..account }
}

/// An account after `amount` lamports were added to it.
pub open spec fn credited(account: AccountView, amount: nat) -> AccountView {
    AccountView { lamports: account.lamports + amount, ..account }
}

/// Whether reads of this account's data meet the tombstone.
pub open spec fn tombstoned(account: AccountView) -> bool {
    account.data.len() >= 1 && account.data[0] == TOMBSTONE
}

/// Accounts that this program owns.
pub struct ProgramAccount;

impl ProgramAccount {
    /// Accepts `account` only if `program_id`, this program, owns it.
    pub fn check(account: &Account, program_id: &Pubkey) -> (checked: Result<(), EscrowError>)
        ensures
            checked == program_check(account@, program_id@),
    {
        if !same_key(&account.owner, program_id) {
            return Err(EscrowError::InvalidAccountOwner);
        }
        Ok(())
    }

    /// The call that creates `account` at the address of `seeds` with `space`
    /// bytes, owned by this program and paid for by `payer`. `lamports` is
    /// the balance that keeps `space` bytes for good, as the host computed
    /// it. The call is made in the name of the address of `seeds`.
    pub fn init(
        payer: &Account,
        account: &Account,
        seeds: Vec<Vec<u8>>,
        space: usize,
        lamports: u64,
        program_id: &Pubkey,
    ) -> (call: ServiceCall)
        ensures
            call@ == (ServiceCallView::CreateAccount {
                from: payer@.key,
                to: account@.key,
                lamports,
                space: space as u64,
                owner: program_id@,
                signer_seeds: seeds.deep_view(),
            }),
    {
        ServiceCall::CreateAccount {
            from: payer.key,
            to: account.key,
            lamports,
            space: space as u64,
            owner: *program_id,
            signer_seeds: seeds,
        }
    }

    // The four steps of closing. Each later step asks for the tombstone, so
    // that no lamport moves and no byte is given up while the data could
    // still be read as live.

    fn mark(account: &mut Account)
        requires
            old(account)@.data.len() >= 1,
        ensures
            final(account)@ == (AccountView {
                data: old(account)@.data.update(0, TOMBSTONE),
                ..old(account)@
            }),
            tombstoned(final(account)@),
    {
        account.data[0] = TOMBSTONE;
    }

    fn drain(account: &mut Account, destination: &mut Account)
        requires
            tombstoned(old(account)@),
            old(destination)@.lamports + old(account)@.lamports <= u64::MAX,
        ensures
            final(account)@ == (AccountView { lamports: 0, ..old(account)@ }),
            final(destination)@ == credited(old(destination)@, old(account)@.lamports),
    {
        destination.lamports = destination.lamports + account.lamports;
        account.lamports = 0;
    }

    fn shrink(account: &mut Account)
        requires
            tombstoned(old(account)@),
        ensures
            final(account)@ == (AccountView { data: seq![TOMBSTONE], ..old(account)@ }),
    {
        account.data.truncate(1);
        assert(account.data@ =~= seq![TOMBSTONE]);
    }

    fn release(account: &mut Account)
        requires
            old(account)@.data == seq![TOMBSTONE],
            old(account)@.lamports == 0,
        ensures
            final(account)@ == (AccountView { owner: SYSTEM_PROGRAM_ID@, ..old(account)@ }),
    {
        account.owner = system_program_id();
    }

    /// Closes `account` and hands its lamports to `destination`, in this
    /// order: the tombstone is written over the first byte; all lamports
    /// move; the data shrinks to that one byte; the account goes back to the
    /// system program.
    pub fn close(account: &mut Account, destination: &mut Account)
        requires
            old(account)@.data.len() >= 1,
            old(destination)@.lamports + old(account)@.lamports <= u64::MAX,
        ensures
            final(account)@ == closed(old(account)@),
            final(destination)@ == credited(old(destination)@, old(account)@.lamports),
    {
        Self::mark(account);
        Self::drain(account, destination);
        Self::shrink(account);
        Self::release(account);
    }
}

/// The two token programs are two programs.
pub proof fn law_token_programs_differ()
    ensures
        TOKEN_PROGRAM_ID@ != TOKEN_2022_PROGRAM_ID@,
{
    assert(TOKEN_PROGRAM_ID@[4] == 0xd7);
    assert(TOKEN_2022_PROGRAM_ID@[4] == 0xee);
}

/// Which mints are admitted. A mint of the legacy token program is
/// admitted with exactly 82 bytes. An account of the token program with
/// extensions that has another length is admitted only with the mark of a
/// mint at offset 165; with the mark of a token account there it is refused
/// for its data.
pub proof fn law_mint_shapes(account: AccountView)
    ensures
        account.owner == TOKEN_PROGRAM_ID@ ==> (mint_check(account) is Ok <==> account.data.len()
            == 82),
        account.owner == TOKEN_2022_PROGRAM_ID@ && account.data.len() != 82 ==> (mint_check(account)
            is Ok <==> account.data.len() > 165 && account.data[165]
            == TOKEN_2022_MINT_DISCRIMINATOR),
        account.owner == TOKEN_2022_PROGRAM_ID@ && account.data.len() > 165 && account.data[165]
            == TOKEN_2022_TOKEN_ACCOUNT_DISCRIMINATOR ==> mint_check(account) == Err::<
            (),
            EscrowError,
        >(EscrowError::InvalidAccountData),
        mint_check(account) matches Err(e) ==> (e.spec_kind() == ErrorKind::Authorization <==> (
        account.owner != TOKEN_PROGRAM_ID@ && account.owner != TOKEN_2022_PROGRAM_ID@)),
{
    law_token_programs_differ();
}

/// An account with the right owner and the right length is still refused
/// where the address found for its seeds is not its own.
pub proof fn law_associated_address_must_match(account: AccountView, derived: Option<Seq<u8>>)
    requires
        account.owner == TOKEN_PROGRAM_ID@,
        account.data.len() == TOKEN_ACCOUNT_LEN,
    ensures
        layout_check(account) is Ok,
        associated_check(account, derived) is Ok <==> derived == Some(account.key),
        derived != Some(account.key) ==> associated_check(account, derived) == Err::<
            (),
            EscrowError,
        >(EscrowError::InvalidAccountData),
{
}

/// Making sure that an account exists asks for no creation where the account
/// is already admitted, however often it is asked and for whomever: a second
/// request meets the same account and asks for none either.
pub proof fn law_no_second_creation(
    account: AccountView,
    derived: Option<Seq<u8>>,
    first: (AccountView, AccountView, AccountView, AccountView, AccountView),
    second: (AccountView, AccountView, AccountView, AccountView, AccountView),
)
    requires
        associated_check(account, derived) is Ok,
    ensures
        creation_if_needed(account, first.0, first.1, first.2, first.3, first.4, derived) is None,
        creation_if_needed(account, second.0, second.1, second.2, second.3, second.4, derived)
            is None,
{
}

/// A closed account cannot pass for a live one: its data no longer reads as
/// an offer, it holds no lamports, and this program no longer owns it.
pub proof fn law_closed_account_is_dead(account: AccountView, program_id: Seq<u8>)
    requires
        program_id != SYSTEM_PROGRAM_ID@,
    ensures
        tombstoned(closed(account)),
        closed(account).lamports == 0,
        closed(account).data.len() == 1,
        decode(closed(account).data) is None,
        program_check(closed(account), program_id) is Err,
        closed(account).key == account.key,
{
}

} // verus!
