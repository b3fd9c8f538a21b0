//! The notifications that the ledger hands to its host.

use crate::account::AccountId;
use crate::Balance;
use vstd::prelude::*;

verus! {

/// Tokens moved. Without a `from` they were minted, without a `to` they were burned.
#[derive(Clone, Copy, Debug, PartialEq, Eq)]
pub struct Transfer {
    pub from: Option<AccountId>,
    pub to: Option<AccountId>,
    pub value: Balance,
}

/// `owner` set the amount that `spender` may move on its behalf to `value`.
#[derive(Clone, Copy, Debug, PartialEq, Eq)]
pub struct Approval {
    pub owner: AccountId,
    pub spender: AccountId,
    pub value: Balance,
}

/// A notification of the ledger.
#[derive(Clone, Copy, Debug, PartialEq, Eq)]
pub enum Event {
    Transfer(Transfer),
    Approval(Approval),
}

impl Event {
    /// The notification that `value` moved from `from` to `to`.
    pub open spec fn transfer(from: Option<AccountId>, to: Option<AccountId>, value: Balance) -> Event {
        Event::Transfer(Transfer { from, to, value })
    }

    /// The notification that `owner` lets `spender` move `value`.
    pub open spec fn approval(owner: AccountId, spender: AccountId, value: Balance) -> Event {
        Event::Approval(Approval { owner, spender, value })
    }
}

} // verus!
