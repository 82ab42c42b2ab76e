use vstd::prelude::*;
use crate::identity::Identity;

verus! {

/// An order to the treasury custodian to move `amount` lamports from one
/// account to another. The library never moves funds itself: an operation
/// that succeeds hands back the transfers that belong to it, and the caller
/// commits the operation's new records only together with them.
#[derive(Clone, Copy, Debug, PartialEq, Eq)]
pub struct Transfer {
    pub from: Identity,
    pub to: Identity,
    pub amount: u64,
}

/// What an account holds once `order` is carried out, given that it held
/// `balance` before. No order leaves every balance as it was.
pub open spec fn balance_after(balance: int, account: Identity, order: Option<Transfer>) -> int {
    match order {
        None => balance,
        Some(t) => balance - (if t.from == account {
            t.amount as int
        } else {
            0
        }) + (if t.to == account {
            t.amount as int
        } else {
            0
        }),
    }
}

} // verus!
