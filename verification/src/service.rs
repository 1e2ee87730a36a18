//! Calls to the services that the program relies on.
//!
//! The program moves no token and creates no account by itself. It decides
//! which call is due and with which accounts; the host makes the call and
//! treats a failure as the failure of the whole operation.

use vstd::prelude::*;
use crate::pubkey::Pubkey;

verus! {

/// One call to a service outside the program.
///
/// `signer_seeds` holds the seeds of the program address in whose name the
/// call is made; it is empty where a wallet that signed the transaction
/// authorises the call.
#[derive(Clone, Debug, PartialEq, Eq)]
pub enum ServiceCall {
    /// Token service: move `amount` units from `from` to `to`.
    Transfer { from: Pubkey, to: Pubkey, authority: Pubkey, amount: u64, signer_seeds: Vec<Vec<u8>> },
    /// Token service: close the token account `account` and hand its lamports
    /// to `destination`.
    CloseAccount {
        account: Pubkey,
        destination: Pubkey,
        authority: Pubkey,
        signer_seeds: Vec<Vec<u8>>,
    },
    /// Associated token service: create the token account `account` of
    /// `wallet` for `mint`, paid for by `funding_account`.
    CreateAssociatedToken {
        funding_account: Pubkey,
        account: Pubkey,
        wallet: Pubkey,
        mint: Pubkey,
        system_program: Pubkey,
        token_program: Pubkey,
    },
    /// System service: create the account `to` with `space` bytes and
    /// `lamports`, owned by `owner`, paid for by `from`.
    CreateAccount {
        from: Pubkey,
        to: Pubkey,
        lamports: u64,
        space: u64,
        owner: Pubkey,
        signer_seeds: Vec<Vec<u8>>,
    },
}

/// The mathematical value of a [`ServiceCall`].
pub enum ServiceCallView {
    Transfer {
        from: Seq<u8>,
        to: Seq<u8>,
        authority: Seq<u8>,
        amount: u64,
        signer_seeds: Seq<Seq<u8>>,
    },
    CloseAccount {
        account: Seq<u8>,
        destination: Seq<u8>,
        authority: Seq<u8>,
        signer_seeds: Seq<Seq<u8>>,
    },
    CreateAssociatedToken {
        funding_account: Seq<u8>,
        account: Seq<u8>,
        wallet: Seq<u8>,
        mint: Seq<u8>,
        system_program: Seq<u8>,
        token_program: Seq<u8>,
    },
    CreateAccount {
        from: Seq<u8>,
        to: Seq<u8>,
        lamports: u64,
        space: u64,
        owner: Seq<u8>,
        signer_seeds: Seq<Seq<u8>>,
    },
}

impl View for ServiceCall {
    type V = ServiceCallView;

    open spec fn view(&self) -> ServiceCallView {
        match *self {
            ServiceCall::Transfer { from, to, authority, amount, signer_seeds } => {
                ServiceCallView::Transfer {
                    from: from@,
                    to: to@,
                    authority: authority@,
                    amount,
                    signer_seeds: signer_seeds.deep_view(),
                }
            },
            ServiceCall::CloseAccount { account, destination, authority, signer_seeds } => {
                ServiceCallView::CloseAccount {
                    account: account@,
                    destination: destination@,
                    authority: authority@,
                    signer_seeds: signer_seeds.deep_view(),
                }
            },
            ServiceCall::CreateAssociatedToken {
                funding_account,
                account,
                wallet,
                mint,
                system_program,
                token_program,
            } => ServiceCallView::CreateAssociatedToken {
                funding_account: funding_account@,
                account: account@,
                wallet: wallet@,
                mint: mint@,
                system_program: system_program@,
                token_program: token_program@,
            },
            ServiceCall::CreateAccount { from, to, lamports, space, owner, signer_seeds } => {
                ServiceCallView::CreateAccount {
                    from: from@,
                    to: to@,
                    lamports,
                    space,
                    owner: owner@,
                    signer_seeds: signer_seeds.deep_view(),
                }
            },
        }
    }
}

/// The values of a list of calls, in order.
pub open spec fn call_views(calls: Seq<ServiceCall>) -> Seq<ServiceCallView> {
    Seq::new(calls.len(), |i: int| calls[i]@)
}

/// The token balances after the token service has carried out a transfer, as
/// this program relies on it: the sender holds at least `amount`, which leaves
/// the sender and reaches the receiver. `None` where the service refuses.
pub open spec fn transferred(
    balances: Map<Seq<u8>, nat>,
    from: Seq<u8>,
    to: Seq<u8>,
    amount: nat,
) -> Option<Map<Seq<u8>, nat>> {
    if balances.dom().contains(from) && balances.dom().contains(to) && balances[from] >= amount {
        let debited = balances.insert(from, (balances[from] - amount) as nat);
        Some(debited.insert(to, debited[to] + amount))
    } else {
        None
    }
}

} // verus!
