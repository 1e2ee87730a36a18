//! What the program knows of an account.

use vstd::prelude::*;
use crate::pubkey::Pubkey;

verus! {

/// An account as the runtime hands it to the program, held as plain values.
#[derive(Clone, Debug, PartialEq, Eq)]
pub struct Account {
    /// The account's address.
    pub key: Pubkey,
    /// The program that owns the account's storage.
    pub owner: Pubkey,
    /// The balance that pays for the storage.
    pub lamports: u64,
    /// The stored bytes.
    pub data: Vec<u8>,
    /// Whether the account signed the transaction.
    pub is_signer: bool,
}

/// The mathematical value of an [`Account`].
pub struct AccountView {
    pub key: Seq<u8>,
    pub owner: Seq<u8>,
    pub lamports: nat,
    pub data: Seq<u8>,
    pub is_signer: bool,
}

impl View for Account {
    type V = AccountView;

    open spec fn view(&self) -> AccountView {
        AccountView {
            key: self.key@,
            owner: self.owner@,
            lamports: self.lamports as nat,
            data: self.data@,
            is_signer: self.is_signer,
        }
    }
}

/// The views of a list of accounts, in order.
pub open spec fn views(accounts: Seq<Account>) -> Seq<AccountView> {
    Seq::new(accounts.len(), |i: int| accounts[i]@)
}

/// Takes the last account off the list.
pub(crate) fn take_last(accounts: &mut Vec<Account>) -> (last: Account)
    requires
        old(accounts)@.len() > 0,
    ensures
        last == old(accounts)@.last(),
        final(accounts)@ == old(accounts)@.drop_last(),
{
    accounts.pop().unwrap()
}

} // verus!
